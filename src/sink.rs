use vstd::prelude::*;
use ringbuf::Producer;

verus! {

#[verifier::external_type_specification]
#[verifier::external_body]
#[verifier::reject_recursive_types(T)]
pub struct ExProducer<T>(Producer<T>);

/// Every sample that has entered the ring buffer through this producer
/// endpoint, oldest first. Samples are the bit patterns of 32-bit floats.
pub uninterp spec fn pushed_of(p: Producer<u32>) -> Seq<u32>;

/// Relies on ringbuf's `Producer::push_slice`: copies the longest prefix of
/// `items` that fits into the free slots of the ring, in order, and returns
/// its length. Nothing else enters through this endpoint.
#[verifier::external_body]
fn push_prefix(target: &mut Producer<u32>, items: &[u32]) -> (n: usize)
    ensures
        n <= items@.len(),
        pushed_of(*final(target)) == pushed_of(*old(target)) + items@.take(n as int),
{
    target.push_slice(items)
}

/// Relies on ringbuf's `Producer::is_full`. The consumer runs concurrently,
/// so the answer may be out of date as soon as it is given.
#[verifier::external_body]
fn ring_is_full(target: &Producer<u32>) -> bool {
    target.is_full()
}

/// The sending half of the decode pipeline: hands chunks of samples to the
/// ring buffer and keeps what does not fit until the device has made room.
pub struct BufferedReader {
    pending: Option<Vec<u32>>,
}

impl View for BufferedReader {
    type V = Seq<u32>;

    /// The samples accepted but not yet in the ring, in order.
    closed spec fn view(&self) -> Seq<u32> {
        match self.pending {
            Some(v) => v@,
            None => Seq::empty(),
        }
    }
}

impl BufferedReader {
    /// A sink with nothing pending.
    pub fn new() -> (r: BufferedReader)
        ensures
            r@.len() == 0,
    {
        BufferedReader { pending: None }
    }

    /// Whether the ring had room when asked. The device drains it
    /// concurrently, so the answer is only a hint.
    pub fn ready(&self, target: &Producer<u32>) -> bool {
        !ring_is_full(target)
    }

    /// Whether every sample accepted so far is in the ring.
    pub fn is_flushed(&self) -> (r: bool)
        ensures
            r == (self@.len() == 0),
    {
        match &self.pending {
            Some(v) => v.len() == 0,
            None => true,
        }
    }

    /// Pushes into the ring as much of `items` as fits and keeps the rest.
    fn push_pending(&mut self, target: &mut Producer<u32>, items: Vec<u32>) -> (n: usize)
        ensures
            n <= items@.len(),
            pushed_of(*final(target)) == pushed_of(*old(target)) + items@.take(n as int),
            final(self)@ == items@.skip(n as int),
    {
        let mut rest = items;
        let n = push_prefix(target, rest.as_slice());
        let tail = rest.split_off(n);
        if tail.len() == 0 {
            self.pending = None;
        } else {
            self.pending = Some(tail);
        }
        n
    }

    /// Accepts a chunk, given whether the ring was just found full. Samples
    /// still pending from earlier chunks go first, so the chunk waits behind
    /// them; on a full ring all of it waits; otherwise the longest prefix
    /// that fits enters the ring now and the rest waits.
    pub fn send_step(&mut self, target: &mut Producer<u32>, item: Vec<u32>, full: bool)
        ensures
            delivers(
                pushed_of(*old(target)),
                old(self)@ + item@,
                pushed_of(*final(target)),
                final(self)@,
            ),
            full || old(self)@.len() > 0 ==> pushed_of(*final(target)) == pushed_of(*old(target))
                && final(self)@ == old(self)@ + item@,
    {
        let pending = self.pending.take();
        match pending {
            Some(mut v) => {
                let mut more = item;
                v.append(&mut more);
                self.pending = Some(v);
                assert(delivers(
                    pushed_of(*old(target)),
                    old(self)@ + item@,
                    pushed_of(*final(target)),
                    final(self)@,
                )) by {
                    assert(pushed_of(*old(target)) + (old(self)@ + item@).take(0) =~= pushed_of(
                        *old(target),
                    ));
                    assert((old(self)@ + item@).skip(0) =~= old(self)@ + item@);
                }
            },
            None => {
                assert(old(self)@ + item@ =~= item@);
                if full {
                    self.pending = Some(item);
                    assert(pushed_of(*old(target)) + item@.take(0) =~= pushed_of(*old(target)));
                    assert(item@.skip(0) =~= item@);
                } else {
                    self.push_pending(target, item);
                }
            },
        }
    }

    /// Accepts a chunk: asks the ring whether it is full, then proceeds as
    /// `send_step` does.
    pub fn start_send(&mut self, target: &mut Producer<u32>, item: Vec<u32>)
        ensures
            delivers(
                pushed_of(*old(target)),
                old(self)@ + item@,
                pushed_of(*final(target)),
                final(self)@,
            ),
            old(self)@.len() > 0 ==> pushed_of(*final(target)) == pushed_of(*old(target))
                && final(self)@ == old(self)@ + item@,
    {
        let full = ring_is_full(target);
        self.send_step(target, item, full);
    }

    /// Tries once more to move the pending samples into the ring, given
    /// whether the ring was just found full. Returns whether nothing is
    /// pending any more.
    pub fn flush_step(&mut self, target: &mut Producer<u32>, full: bool) -> (done: bool)
        ensures
            delivers(pushed_of(*old(target)), old(self)@, pushed_of(*final(target)), final(self)@),
            done == (final(self)@.len() == 0),
            old(self)@.len() == 0 ==> done && pushed_of(*final(target)) == pushed_of(
                *old(target),
            ),
            full && old(self)@.len() > 0 ==> !done && final(self)@ == old(self)@ && pushed_of(
                *final(target),
            ) == pushed_of(*old(target)),
    {
        assert(pushed_of(*old(target)) + old(self)@.take(0) =~= pushed_of(*old(target)));
        assert(old(self)@.skip(0) =~= old(self)@);
        if self.is_flushed() || full {
            return self.is_flushed();
        }
        let pending = self.pending.take();
        match pending {
            None => true,
            Some(v) => {
                self.push_pending(target, v);
                self.is_flushed()
            },
        }
    }

    /// Tries once more to move the pending samples into the ring: with
    /// nothing pending it is done at once; otherwise it asks the ring whether
    /// it is full and proceeds as `flush_step` does. When it returns false the
    /// caller waits for the device's next wake-up and tries again.
    pub fn poll_flush(&mut self, target: &mut Producer<u32>) -> (done: bool)
        ensures
            delivers(pushed_of(*old(target)), old(self)@, pushed_of(*final(target)), final(self)@),
            done == (final(self)@.len() == 0),
            old(self)@.len() == 0 ==> done && pushed_of(*final(target)) == pushed_of(
                *old(target),
            ),
    {
        if self.is_flushed() {
            return self.flush_step(target, false);
        }
        let full = ring_is_full(target);
        self.flush_step(target, full)
    }
}

/// One step of the sink: of the samples `waiting` behind the ring's history
/// `before`, a prefix entered the ring (giving `after`) and the rest is
/// still waiting. Nothing is lost, repeated or reordered.
pub open spec fn delivers(
    before: Seq<u32>,
    waiting: Seq<u32>,
    after: Seq<u32>,
    still: Seq<u32>,
) -> bool {
    exists|k: int|
        0 <= k <= waiting.len() && after == before + #[trigger] waiting.take(k) && still
            == waiting.skip(k)
}

/// Across any run of sends and flushes, each one step of the sink, the
/// ring's history only grows, and once nothing waits it holds exactly what
/// was waiting at the start, in order.
pub proof fn lemma_delivery(pushed: Seq<Seq<u32>>, waiting: Seq<Seq<u32>>)
    requires
        pushed.len() == waiting.len(),
        pushed.len() > 0,
        forall|i: int|
            0 <= i < pushed.len() - 1 ==> #[trigger] delivers(
                pushed[i],
                waiting[i],
                pushed[i + 1],
                waiting[i + 1],
            ),
    ensures
        pushed.last() + waiting.last() == pushed[0] + waiting[0],
        pushed.last().len() >= pushed[0].len(),
        pushed.last().take(pushed[0].len() as int) == pushed[0],
        waiting.last().len() == 0 ==> pushed.last() == pushed[0] + waiting[0],
    decreases pushed.len(),
{
    let n = pushed.len();
    if n > 1 {
        let ps = pushed.drop_last();
        let ws = waiting.drop_last();
        assert forall|i: int| 0 <= i < ps.len() - 1 implies #[trigger] delivers(
            ps[i],
            ws[i],
            ps[i + 1],
            ws[i + 1],
        ) by {
            assert(delivers(pushed[i], waiting[i], pushed[i + 1], waiting[i + 1]));
        }
        lemma_delivery(ps, ws);
        let j = n - 2;
        assert(delivers(pushed[j], waiting[j], pushed[j + 1], waiting[j + 1]));
        let k = choose|k: int|
            0 <= k <= waiting[n - 2].len() && pushed[n - 1] == pushed[n - 2] + #[trigger] waiting[n
                - 2].take(k) && waiting[n - 1] == waiting[n - 2].skip(k);
        assert(waiting[n - 2] =~= waiting[n - 2].take(k) + waiting[n - 2].skip(k));
        assert(pushed.last() + waiting.last() =~= ps.last() + ws.last());
        assert(pushed.last().take(pushed[0].len() as int) =~= ps.last().take(
            pushed[0].len() as int,
        ));
    }
    if waiting.last().len() == 0 {
        assert(pushed.last() + waiting.last() =~= pushed.last());
    }
}

} // verus!
