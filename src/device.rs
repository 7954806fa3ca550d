use vstd::prelude::*;
use ringbuf::Consumer;

verus! {

#[verifier::external_type_specification]
#[verifier::external_body]
#[verifier::reject_recursive_types(T)]
pub struct ExConsumer<T>(Consumer<T>);

/// Every sample that has left the ring buffer through this consumer
/// endpoint, oldest first, whether played or dropped by a flush.
pub uninterp spec fn taken_of(c: Consumer<u32>) -> Seq<u32>;

/// How many times every sample then in the ring was removed at once
/// through this consumer endpoint.
pub uninterp spec fn drains_of(c: Consumer<u32>) -> nat;

/// Relies on ringbuf's `Consumer::pop`: removes the oldest sample in the
/// ring, or gives nothing when the ring is empty.
#[verifier::external_body]
fn pop_sample(c: &mut Consumer<u32>) -> (r: Option<u32>)
    ensures
        match r {
            Some(x) => taken_of(*final(c)) == taken_of(*old(c)).push(x),
            None => taken_of(*final(c)) == taken_of(*old(c)),
        },
        drains_of(*final(c)) == drains_of(*old(c)),
{
    c.pop()
}

/// Relies on ringbuf's `Consumer::pop_each` with a closure that accepts
/// every sample and no count: removes everything in the ring and returns how
/// many samples that was.
#[verifier::external_body]
fn drop_all(c: &mut Consumer<u32>) -> (n: usize)
    ensures
        taken_of(*final(c)).len() == taken_of(*old(c)).len() + n,
        taken_of(*final(c)).take(taken_of(*old(c)).len() as int) == taken_of(*old(c)),
        drains_of(*final(c)) == drains_of(*old(c)) + 1,
{
    c.pop_each(|_| true, None)
}

/// The samples of `block` at the slots that `filled` marks, in order.
pub open spec fn picked(block: Seq<u32>, filled: Seq<bool>) -> Seq<u32>
    decreases block.len(),
{
    if block.len() == 0 || filled.len() == 0 {
        Seq::empty()
    } else {
        let rest = picked(block.drop_last(), filled.drop_last());
        if filled.last() {
            rest.push(block.last())
        } else {
            rest
        }
    }
}

/// One invocation of the output callback: when a flush was requested the
/// ring is emptied first, before any slot is filled; then each of the `len` slots of the device block
/// takes the next sample from the ring, or silence (zero) when the ring is
/// empty at that moment. It never waits.
pub fn fill_block(c: &mut Consumer<u32>, flush: bool, len: usize) -> (block: Vec<u32>)
    ensures
        block@.len() == len,
        drains_of(*final(c)) == drains_of(*old(c)) + if flush { 1nat } else { 0nat },
        exists|dropped: Seq<u32>, filled: Seq<bool>|
            {
                &&& filled.len() == len
                &&& taken_of(*final(c)) == taken_of(*old(c)) + dropped + picked(block@, filled)
                &&& !flush ==> dropped.len() == 0
                &&& forall|i: int| 0 <= i < len && !filled[i] ==> block@[i] == 0
            },
{
    let ghost start = taken_of(*c);
    let ghost drained = drains_of(*c) + if flush { 1nat } else { 0nat };
    if flush {
        drop_all(c);
    }
    let ghost dropped = taken_of(*c).skip(start.len() as int);
    proof {
        assert(taken_of(*c) =~= start + dropped);
    }
    let mut block: Vec<u32> = Vec::new();
    let ghost mut filled: Seq<bool> = Seq::empty();
    let mut i: usize = 0;
    while i < len
        invariant
            i <= len,
            block@.len() == i,
            filled.len() == i,
            drains_of(*c) == drained,
            taken_of(*c) == start + dropped + picked(block@, filled),
            !flush ==> dropped.len() == 0,
            forall|j: int| 0 <= j < i && !filled[j] ==> block@[j] == 0,
        decreases len - i,
    {
        let ghost before = block@;
        let ghost before_filled = filled;
        match pop_sample(c) {
            Some(x) => {
                block.push(x);
                proof {
                    filled = filled.push(true);
                }
            },
            None => {
                block.push(0);
                proof {
                    filled = filled.push(false);
                }
            },
        }
        assert(block@.drop_last() =~= before);
        assert(filled.drop_last() =~= before_filled);
        i = i + 1;
    }
    block
}

} // verus!
