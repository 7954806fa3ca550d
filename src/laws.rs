use vstd::prelude::*;
use futures::future::AbortHandle;
use crate::queue::{Playing, QueueModel, Track};
use crate::tags::Tags;

verus! {

/// A controller command or a step of the decode driver, as applied to the
/// playback state.
pub enum Command {
    Enqueue(String),
    EnqueueNext(String),
    Skip,
    Previous,
    SkipTo(nat),
    ConsumeChanged,
    /// The driver opened the head of the queue and starts decoding it.
    Start(Tags, AbortHandle),
    /// The driver found nothing queued.
    Retire,
    /// The driver could not open the head of the queue.
    Discard,
    DropSlot,
}

pub open spec fn apply(m: QueueModel, c: Command) -> QueueModel {
    match c {
        Command::Enqueue(p) => m.enqueue(p),
        Command::EnqueueNext(p) => m.enqueue_next(p),
        Command::Skip => m.skip(),
        Command::Previous => m.previous(),
        Command::SkipTo(i) => m.skip_to(i),
        Command::ConsumeChanged => m.consumed(),
        Command::Start(t, h) => if m.upcoming.len() > 0 {
            m.advance(Some(Playing { path: m.upcoming[0], tags: t, handle: h }))
        } else {
            m
        },
        Command::Retire => m.idle(),
        Command::Discard => m.discard_next(),
        Command::DropSlot => m.drop_current_slot(),
    }
}

pub open spec fn run(m: QueueModel, cs: Seq<Command>) -> QueueModel
    decreases cs.len(),
{
    if cs.len() == 0 {
        m
    } else {
        apply(run(m, cs.drop_last()), cs.last())
    }
}

/// Whether the command adds a track.
pub open spec fn adds(c: Command) -> bool {
    c is Enqueue || c is EnqueueNext
}

/// Whether the command, applied to `m`, removes a track.
pub open spec fn removes(m: QueueModel, c: Command) -> bool {
    (c is Discard && m.upcoming.len() > 0) || (c is DropSlot && m.history.len() > 0)
}

pub open spec fn enqueued(cs: Seq<Command>) -> nat
    decreases cs.len(),
{
    if cs.len() == 0 {
        0
    } else {
        enqueued(cs.drop_last()) + if adds(cs.last()) { 1nat } else { 0nat }
    }
}

pub open spec fn removed(m: QueueModel, cs: Seq<Command>) -> nat
    decreases cs.len(),
{
    if cs.len() == 0 {
        0
    } else {
        removed(m, cs.drop_last()) + if removes(run(m, cs.drop_last()), cs.last()) {
            1nat
        } else {
            0nat
        }
    }
}

/// Moving to another playlist position keeps the playlist as it is.
pub proof fn lemma_skip_to_keeps_playlist(m: QueueModel, index: nat)
    ensures
        m.skip_to(index).playlist() == m.playlist(),
{
    let pl = m.playlist();
    if !(index == m.history.len() || index > pl.len()) {
        assert(m.skip_to(index).playlist() =~= pl.take(index as int) + pl.skip(index as int));
        assert(pl.take(index as int) + pl.skip(index as int) =~= pl);
    }
}

/// Going back keeps the playlist as it is.
pub proof fn lemma_previous_keeps_playlist(m: QueueModel)
    ensures
        m.previous().playlist() == m.playlist(),
{
    if m.current is Some {
        if m.history.len() > 0 {
            assert(m.history.drop_last().push(m.history.last()) =~= m.history);
        }
        assert(m.previous().playlist() =~= m.playlist());
    }
}

/// The playlist length changes by one for each track added and each track
/// removed, and by nothing else.
pub proof fn lemma_step_count(m: QueueModel, c: Command)
    ensures
        apply(m, c).playlist().len() + (if removes(m, c) { 1int } else { 0int })
            == m.playlist().len() + (if adds(c) { 1int } else { 0int }),
{
    match c {
        Command::SkipTo(i) => lemma_skip_to_keeps_playlist(m, i),
        Command::Previous => lemma_previous_keeps_playlist(m),
        _ => {},
    }
}

/// At all times the playlist holds every track enqueued, less those the
/// driver discarded and those removed from the history.
pub proof fn lemma_playlist_count(m: QueueModel, cs: Seq<Command>)
    ensures
        run(m, cs).playlist().len() + removed(m, cs) == m.playlist().len() + enqueued(cs),
    decreases cs.len(),
{
    if cs.len() > 0 {
        lemma_playlist_count(m, cs.drop_last());
        lemma_step_count(run(m, cs.drop_last()), cs.last());
    }
}

/// After moving to a position within the playlist, the current index is that
/// position; the track there is the next to play, and it keeps that index
/// once started.
pub proof fn lemma_skip_to_index(m: QueueModel, index: nat, tags: Tags, handle: AbortHandle)
    requires
        index <= m.playlist().len(),
    ensures
        m.skip_to(index).current_index() == index,
        index != m.history.len() ==> apply(m.skip_to(index), Command::Start(tags, handle)).current_index() == index,
        index != m.history.len() && index < m.playlist().len() ==> apply(
            m.skip_to(index),
            Command::Start(tags, handle),
        ).current_path() == Some(m.playlist()[index as int]),
{
}

/// Moving to the current position changes nothing at all.
pub proof fn lemma_skip_to_current(m: QueueModel)
    ensures
        m.skip_to(m.current_index()) == m,
{
}

/// Going back and then skipping, with both tracks opened again, returns to
/// the track and the position that were current before.
pub proof fn lemma_previous_then_skip(
    m: QueueModel,
    t1: Tags,
    h1: AbortHandle,
    t2: Tags,
    h2: AbortHandle,
)
    requires
        m.current is Some,
        m.history.len() > 0,
    ensures
        ({
            let back = apply(m.previous(), Command::Start(t1, h1));
            let again = apply(back.skip(), Command::Start(t2, h2));
            &&& again.current_index() == m.current_index()
            &&& again.current_path() == m.current_path()
        }),
{
    let back = apply(m.previous(), Command::Start(t1, h1));
    assert(back.history =~= m.history.drop_last());
}

/// Every navigation that interrupts playback sends exactly one flush request
/// to an installed device and tells the current decode, if there is one, to
/// abort; only a skip keeps that track as current until its task returns.
pub proof fn lemma_navigation_flushes(m: QueueModel, c: Command)
    requires
        m.device,
        match c {
            Command::EnqueueNext(_) => true,
            Command::Skip => true,
            Command::Previous => m.current is Some,
            Command::SkipTo(i) => i != m.history.len() && i <= m.playlist().len(),
            _ => false,
        },
    ensures
        apply(m, c).flushes == m.flushes + 1,
        m.interrupted().current == match m.current {
            Some(t) => Some(Track { aborts: t.aborts + 1, ..t }),
            None => None,
        },
        c is Skip ==> apply(m, c).current == m.interrupted().current,
        !(c is Skip) ==> apply(m, c).current is None,
{
}

/// An advance raises the change flag: the first observer sees it, the next
/// one does not.
pub proof fn lemma_changed_once(m: QueueModel, next: Option<Playing>)
    ensures
        m.advance(next).changed,
        !m.advance(next).consumed().changed,
{
}

/// Whether some command of `cs` reads the change flag.
pub open spec fn reads_flag(cs: Seq<Command>) -> bool
    decreases cs.len(),
{
    cs.len() > 0 && (reads_flag(cs.drop_last()) || cs.last() is ConsumeChanged)
}

/// Whether no command of `cs` is a step of the driver that advances.
pub open spec fn no_advance(cs: Seq<Command>) -> bool {
    forall|i: int| 0 <= i < cs.len() ==> !(#[trigger] cs[i] is Start) && !(cs[i] is Retire)
}

/// How many reads of the change flag in `cs`, run from `m`, see it raised.
pub open spec fn observed(m: QueueModel, cs: Seq<Command>) -> nat
    decreases cs.len(),
{
    if cs.len() == 0 {
        0
    } else {
        observed(m, cs.drop_last()) + if cs.last() is ConsumeChanged && run(
            m,
            cs.drop_last(),
        ).changed {
            1nat
        } else {
            0nat
        }
    }
}

/// Without advances, the flag is seen raised by the first read at most, and
/// stays raised until that read.
pub proof fn lemma_observed(m: QueueModel, cs: Seq<Command>)
    requires
        no_advance(cs),
    ensures
        observed(m, cs) == if m.changed && reads_flag(cs) { 1nat } else { 0nat },
        run(m, cs).changed == (m.changed && !reads_flag(cs)),
    decreases cs.len(),
{
    if cs.len() > 0 {
        let init = cs.drop_last();
        assert forall|i: int| 0 <= i < init.len() implies !(#[trigger] init[i] is Start) && !(
        init[i] is Retire) by {
            assert(init[i] == cs[i]);
        }
        lemma_observed(m, init);
        assert(!(cs[cs.len() - 1] is Start) && !(cs[cs.len() - 1] is Retire));
    }
}

/// Whatever commands follow an advance, exactly one read of the change flag
/// sees it raised, until the next advance (none if nothing reads it).
pub proof fn lemma_one_observer(m: QueueModel, next: Option<Playing>, cs: Seq<Command>)
    requires
        no_advance(cs),
    ensures
        observed(m.advance(next), cs) == if reads_flag(cs) { 1nat } else { 0nat },
{
    lemma_observed(m.advance(next), cs);
}

/// Only the driver's advances raise the change flag.
pub proof fn lemma_only_advance_raises(m: QueueModel, c: Command)
    requires
        !m.changed,
        !(c is Start),
        !(c is Retire),
    ensures
        !apply(m, c).changed,
{
}

} // verus!
