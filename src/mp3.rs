use vstd::prelude::*;

verus! {

/// A normalised sample `s / 32768` has a square above 0.01 (as a 32-bit
/// float, which is exactly 10737418 / 2^30) just when `s * s` exceeds this.
pub const AUDIBLE_SQUARE: i32 = 10737418;

/// Whether a stereo pair of 16-bit samples is loud enough to end the trim.
pub open spec fn audible(l: i16, r: i16) -> bool {
    l * l > AUDIBLE_SQUARE || r * r > AUDIBLE_SQUARE
}

/// Whether every whole pair before pair `k` is silent.
pub open spec fn silent_before(data: Seq<i16>, k: int) -> bool {
    forall|j: int| 0 <= j < k ==> !#[trigger] audible(data[2 * j], data[2 * j + 1])
}

/// Where a frame's audio begins: just after its first audible pair, or at
/// its end if no whole pair is audible. The audible pair itself is dropped.
pub open spec fn audible_start(data: Seq<i16>, start: int) -> bool {
    if silent_before(data, data.len() as int / 2) {
        start == data.len()
    } else {
        &&& 2 <= start <= data.len()
        &&& start % 2 == 0
        &&& audible(data[start - 2], data[start - 1])
        &&& silent_before(data, (start - 2) / 2)
    }
}

fn is_audible(l: i16, r: i16) -> (b: bool)
    ensures
        b == audible(l, r),
{
    assert(0 <= l * l <= 1073741824) by (nonlinear_arith)
        requires
            -32768 <= l <= 32767,
    ;
    assert(0 <= r * r <= 1073741824) by (nonlinear_arith)
        requires
            -32768 <= r <= 32767,
    ;
    let l2 = (l as i32) * (l as i32);
    let r2 = (r as i32) * (r as i32);
    l2 > AUDIBLE_SQUARE || r2 > AUDIBLE_SQUARE
}

/// The index at which a decoded frame's audio begins after the
/// leading-silence trim.
pub fn trim_start(data: &Vec<i16>) -> (start: usize)
    ensures
        audible_start(data@, start as int),
{
    let n = data.len();
    let mut i: usize = 0;
    while i + 1 < n
        invariant
            n == data@.len(),
            i % 2 == 0,
            i <= n,
            silent_before(data@, i as int / 2),
        decreases n - i,
    {
        if is_audible(data[i], data[i + 1]) {
            assert(!silent_before(data@, data@.len() as int / 2)) by {
                assert(2 * (i as int / 2) == i);
                assert(audible(data@[2 * (i as int / 2)], data@[2 * (i as int / 2) + 1]));
                assert(i as int / 2 < data@.len() as int / 2);
            }
            return i + 2;
        }
        assert(silent_before(data@, i as int / 2 + 1)) by {
            assert forall|j: int| 0 <= j < i as int / 2 + 1 implies !#[trigger] audible(
                data@[2 * j],
                data@[2 * j + 1],
            ) by {
                if j == i as int / 2 {
                    assert(2 * j == i);
                }
            }
        }
        i = i + 2;
    }
    assert(i as int / 2 == n as int / 2);
    n
}

/// Whether a decoded frame starts with an exact zero, which marks the
/// frame before it as encoder delay.
pub fn starts_with_zero(data: &Vec<i16>) -> (b: bool)
    ensures
        b == (data@.len() > 0 && data@[0] == 0),
{
    data.len() > 0 && data[0] == 0
}

/// The first chunk of an MPEG stream: the audio of `frame` from its trim
/// point on, followed by the whole of the frame after it.
pub fn first_chunk(frame: &Vec<i16>, following: &Vec<i16>) -> (r: Vec<i16>)
    ensures
        exists|start: int|
            audible_start(frame@, start) && r@ == frame@.skip(start) + following@,
{
    let start = trim_start(frame);
    let mut r: Vec<i16> = Vec::new();
    let n = frame.len();
    let mut i: usize = start;
    while i < n
        invariant
            start <= i <= n,
            n == frame@.len(),
            r@ == frame@.subrange(start as int, i as int),
        decreases n - i,
    {
        r.push(frame[i]);
        i = i + 1;
        assert(r@ =~= frame@.subrange(start as int, i as int));
    }
    let mut j: usize = 0;
    let m = following.len();
    while j < m
        invariant
            j <= m,
            m == following@.len(),
            r@ == frame@.skip(start as int) + following@.take(j as int),
        decreases m - j,
    {
        r.push(following[j]);
        j = j + 1;
        assert(r@ =~= frame@.skip(start as int) + following@.take(j as int));
    }
    assert(following@.take(m as int) =~= following@);
    r
}

} // verus!
