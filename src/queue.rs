use vstd::prelude::*;
use std::collections::VecDeque;
use std::sync::mpsc::Sender;
use futures::future::AbortHandle;
use crate::tags::Tags;
use crate::signals::{aborts_of, fire_cancel, requests_of, send_flush};

verus! {

/// The track whose decode task is running: its path, its tags, and the
/// handle that cancels the task.
pub struct Playing {
    pub path: String,
    pub tags: Tags,
    pub handle: AbortHandle,
}

/// The current track as mathematics: its path, its tags, and how many times
/// its decode task has been told to abort.
pub struct Track {
    pub path: String,
    pub tags: Tags,
    pub aborts: nat,
}

pub open spec fn track_of(p: Playing) -> Track {
    Track { path: p.path, tags: p.tags, aborts: aborts_of(p.handle) }
}

/// The track, if any, that an operation handed back.
pub open spec fn track_opt(p: Option<Playing>) -> Option<Track> {
    match p {
        Some(q) => Some(track_of(q)),
        None => None,
    }
}

/// The playback state as mathematics: the tracks already played (most recent
/// last), the current track, the tracks still to come, the change flag,
/// whether an output device is installed, and how many flush requests it
/// has been sent.
pub struct QueueModel {
    pub history: Seq<String>,
    pub current: Option<Track>,
    pub upcoming: Seq<String>,
    pub changed: bool,
    pub device: bool,
    pub flushes: nat,
}

impl QueueModel {
    pub open spec fn current_path(self) -> Option<String> {
        match self.current {
            Some(p) => Some(p.path),
            None => None,
        }
    }

    /// The current track's path as a sequence of zero or one paths.
    pub open spec fn current_seq(self) -> Seq<String> {
        match self.current {
            Some(p) => seq![p.path],
            None => Seq::empty(),
        }
    }

    /// The user-visible playlist: history, then current, then upcoming.
    pub open spec fn playlist(self) -> Seq<String> {
        self.history + self.current_seq() + self.upcoming
    }

    /// Position of the current track within the playlist.
    pub open spec fn current_index(self) -> nat {
        self.history.len()
    }

    /// The state after the current decode is cancelled (if there is one)
    /// and the device is asked to flush its buffer (if there is one).
    pub open spec fn interrupted(self) -> QueueModel {
        QueueModel {
            flushes: if self.device { self.flushes + 1 } else { self.flushes },
            current: match self.current {
                Some(t) => Some(Track { aborts: t.aborts + 1, ..t }),
                None => None,
            },
            ..self
        }
    }

    /// The state once a device whose channel has carried `sent` requests is
    /// installed; a device installed before stays.
    pub open spec fn with_device(self, sent: nat) -> QueueModel {
        if self.device {
            self
        } else {
            QueueModel { device: true, flushes: sent, ..self }
        }
    }

    pub open spec fn enqueue(self, path: String) -> QueueModel {
        QueueModel { upcoming: self.upcoming.push(path), ..self }
    }

    pub open spec fn enqueue_next(self, path: String) -> QueueModel {
        QueueModel {
            upcoming: seq![path] + self.current_seq() + self.upcoming,
            current: None,
            ..self.interrupted()
        }
    }

    pub open spec fn skip(self) -> QueueModel {
        self.interrupted()
    }

    pub open spec fn previous(self) -> QueueModel {
        match self.current {
            None => self,
            Some(c) => {
                let back = if self.history.len() > 0 {
                    seq![self.history.last()]
                } else {
                    Seq::empty()
                };
                QueueModel {
                    history: if self.history.len() > 0 {
                        self.history.drop_last()
                    } else {
                        self.history
                    },
                    upcoming: back + seq![c.path] + self.upcoming,
                    current: None,
                    ..self.interrupted()
                }
            },
        }
    }

    /// Navigation to a playlist position: everything before it becomes the
    /// history, the element at it and everything after become the upcoming
    /// queue. Staying in place or a position past the end changes nothing.
    pub open spec fn skip_to(self, index: nat) -> QueueModel {
        if index == self.history.len() || index > self.playlist().len() {
            self
        } else {
            QueueModel {
                history: self.playlist().take(index as int),
                upcoming: self.playlist().skip(index as int),
                current: None,
                ..self.interrupted()
            }
        }
    }

    pub open spec fn advance(self, next: Option<Playing>) -> QueueModel {
        QueueModel {
            upcoming: if self.upcoming.len() > 0 {
                self.upcoming.skip(1)
            } else {
                self.upcoming
            },
            history: self.history + self.current_seq(),
            current: track_opt(next),
            changed: true,
            ..self
        }
    }

    pub open spec fn drop_current_slot(self) -> QueueModel {
        QueueModel {
            history: if self.history.len() > 0 {
                self.history.drop_last()
            } else {
                self.history
            },
            ..self
        }
    }

    pub open spec fn discard_next(self) -> QueueModel {
        QueueModel {
            upcoming: if self.upcoming.len() > 0 {
                self.upcoming.skip(1)
            } else {
                self.upcoming
            },
            ..self
        }
    }

    /// What the decode driver sees when it asks for work: with tracks queued
    /// nothing changes; with none queued a finished current track is retired
    /// to the history.
    pub open spec fn idle(self) -> QueueModel {
        if self.upcoming.len() == 0 && self.current is Some {
            self.advance(None)
        } else {
            self
        }
    }

    pub open spec fn consumed(self) -> QueueModel {
        QueueModel { changed: false, ..self }
    }
}

/// One entry of the playlist: a file whose tags are still to be read, or the
/// tags of the track now playing.
pub enum PlaylistEntry {
    File(String),
    Playing(Tags),
}

/// The engine's playback state: queue, history, current track, change flag,
/// and the channel on which the output device receives flush requests.
pub struct PlayerState {
    device: Option<Sender<()>>,
    upcoming: VecDeque<String>,
    history: Vec<String>,
    current: Option<Playing>,
    changed: bool,
}

impl View for PlayerState {
    type V = QueueModel;

    closed spec fn view(&self) -> QueueModel {
        QueueModel {
            history: self.history@,
            current: track_opt(self.current),
            upcoming: self.upcoming@,
            changed: self.changed,
            device: self.device is Some,
            flushes: match self.device {
                Some(s) => requests_of(s),
                None => 0,
            },
        }
    }
}

impl PlayerState {
    /// An empty state: nothing queued, played or playing, no device.
    pub fn new() -> (r: PlayerState)
        ensures
            r@.history.len() == 0,
            r@.current is None,
            r@.upcoming.len() == 0,
            !r@.changed,
            !r@.device,
            r@.flushes == 0,
    {
        PlayerState {
            device: None,
            upcoming: VecDeque::new(),
            history: Vec::new(),
            current: None,
            changed: false,
        }
    }

    /// Installs the channel of the output device. A device installed before
    /// stays; the state is initialised once.
    pub fn init(&mut self, flush: Sender<()>)
        ensures
            final(self)@ == old(self)@.with_device(requests_of(flush)),
    {
        if self.device.is_none() {
            self.device = Some(flush);
        }
    }

    pub fn is_initialized(&self) -> (r: bool)
        ensures
            r == self@.device,
    {
        self.device.is_some()
    }

    /// Cancels the current decode and asks the device to drop what it holds.
    fn interrupt(&mut self)
        ensures
            final(self)@ == old(self)@.interrupted(),
            match (old(self).current, final(self).current) {
                (Some(p), Some(q)) => p.path == q.path && p.tags == q.tags,
                (None, None) => true,
                _ => false,
            },
    {
        match &mut self.current {
            Some(p) => fire_cancel(&mut p.handle),
            None => {},
        }
        match &mut self.device {
            Some(d) => send_flush(d),
            None => {},
        }
    }

    /// Appends a track to the queue.
    pub fn enqueue(&mut self, path: String)
        ensures
            final(self)@ == old(self)@.enqueue(path),
    {
        self.upcoming.push_back(path);
    }

    /// Puts a track at the head of the queue and interrupts the current one,
    /// which is queued right after it.
    /// Returns the interrupted track, its decode told to abort.
    pub fn enqueue_next(&mut self, path: String) -> (stopped: Option<Playing>)
        ensures
            final(self)@ == old(self)@.enqueue_next(path),
            track_opt(stopped) == old(self)@.interrupted().current,
    {
        self.interrupt();
        let stopped = self.current.take();
        match &stopped {
            Some(p) => self.upcoming.push_front(p.path.clone()),
            None => {},
        }
        self.upcoming.push_front(path);
        assert(final(self)@.upcoming =~= old(self)@.enqueue_next(path).upcoming);
        stopped
    }

    /// Aborts the current track and flushes the device; the decode driver
    /// moves the track to the history when its task returns.
    pub fn skip(&mut self)
        ensures
            final(self)@ == old(self)@.skip(),
    {
        self.interrupt();
    }

    /// Puts the current track and the last played one back at the head of
    /// the queue, and interrupts playback. Without a current track nothing
    /// changes. Returns the interrupted track, its decode told to abort.
    pub fn previous(&mut self) -> (stopped: Option<Playing>)
        ensures
            final(self)@ == old(self)@.previous(),
            track_opt(stopped) == old(self)@.interrupted().current,
    {
        if self.current.is_none() {
            return None;
        }
        self.interrupt();
        let stopped = self.current.take();
        match &stopped {
            Some(p) => self.upcoming.push_front(p.path.clone()),
            None => {},
        }
        match self.history.pop() {
            Some(last) => self.upcoming.push_front(last),
            None => {},
        }
        assert(final(self)@.upcoming =~= old(self)@.previous().upcoming);
        stopped
    }

    /// Moves to a playlist position: everything before it becomes the
    /// history and the track at it is the next to play. Staying in place or a
    /// position past the end of the playlist changes nothing.
    pub fn skip_to(&mut self, index: usize) -> (stopped: Option<Playing>)
        ensures
            final(self)@ == old(self)@.skip_to(index as nat),
            track_opt(stopped) == if index == old(self)@.history.len() || index > old(
                self,
            )@.playlist().len() {
                None
            } else {
                old(self)@.interrupted().current
            },
    {
        let h = self.history.len();
        if index == h {
            return None;
        }
        let rest = self.upcoming.len();
        let has_current = self.current.is_some();
        if index > h {
            let ahead = index - h;
            if has_current {
                if ahead - 1 > rest {
                    return None;
                }
            } else if ahead > rest {
                return None;
            }
        }
        let ghost m = self@;
        let ghost pl = m.playlist();
        self.interrupt();
        let stopped = self.current.take();
        if index < h {
            match &stopped {
                Some(p) => self.upcoming.push_front(p.path.clone()),
                None => {},
            }
            let mut k: usize = h;
            while k > index
                invariant
                    index <= k <= h,
                    h == m.history.len(),
                    self.history@ == m.history.take(k as int),
                    self.upcoming@ == m.history.subrange(k as int, h as int) + m.current_seq()
                        + m.upcoming,
                    self@ == (QueueModel {
                        history: self.history@,
                        upcoming: self.upcoming@,
                        current: None,
                        ..m.interrupted()
                    }),
                decreases k,
            {
                let last = self.history.pop();
                match last {
                    Some(x) => self.upcoming.push_front(x),
                    None => {},
                }
                k = k - 1;
                assert(self.history@ =~= m.history.take(k as int));
                assert(self.upcoming@ =~= m.history.subrange(k as int, h as int) + m.current_seq()
                    + m.upcoming);
            }
            assert(self.history@ =~= pl.take(index as int));
            assert(self.upcoming@ =~= pl.skip(index as int));
        } else {
            match &stopped {
                Some(p) => self.history.push(p.path.clone()),
                None => {},
            }
            let mut k: usize = self.history.len();
            assert(self.history@ =~= m.history + m.current_seq());
            while k < index
                invariant
                    h <= k <= index,
                    index <= pl.len(),
                    pl == m.playlist(),
                    k == self.history@.len(),
                    m.history.len() + m.current_seq().len() <= k,
                    self.history@ == pl.take(k as int),
                    self.upcoming@ == pl.skip(k as int),
                    self@ == (QueueModel {
                        history: self.history@,
                        upcoming: self.upcoming@,
                        current: None,
                        ..m.interrupted()
                    }),
                decreases index - k,
            {
                let next = self.upcoming.pop_front();
                match next {
                    Some(x) => self.history.push(x),
                    None => {},
                }
                k = k + 1;
                assert(self.history@ =~= pl.take(k as int));
                assert(self.upcoming@ =~= pl.skip(k as int));
            }
        }
        stopped
    }

    /// The path of the next track to play, if any.
    pub fn peek_next(&self) -> (r: Option<String>)
        ensures
            r == (if self@.upcoming.len() > 0 {
                Some(self@.upcoming[0])
            } else {
                None
            }),
    {
        if self.upcoming.len() > 0 {
            Some(self.upcoming[0].clone())
        } else {
            None
        }
    }

    /// Ends the previous track and makes `next` current: the head of the
    /// queue is removed, the previous current track joins the history, and
    /// the change flag is raised.
    pub fn advance(&mut self, next: Option<Playing>)
        ensures
            final(self)@ == old(self)@.advance(next),
    {
        let _ = self.upcoming.pop_front();
        let cur = self.current.take();
        match cur {
            Some(p) => self.history.push(p.path),
            None => {},
        }
        self.current = next;
        self.changed = true;
        assert(final(self)@.history =~= old(self)@.advance(next).history);
    }

    /// The driver's request for work: the path of the next track to open.
    /// With nothing queued, a current track whose task has ended is moved to
    /// the history.
    pub fn poll_next(&mut self) -> (r: Option<String>)
        ensures
            final(self)@ == old(self)@.idle(),
            r == (if old(self)@.upcoming.len() > 0 {
                Some(old(self)@.upcoming[0])
            } else {
                None
            }),
    {
        if self.upcoming.len() > 0 {
            Some(self.upcoming[0].clone())
        } else {
            if self.current.is_some() {
                self.advance(None);
            }
            None
        }
    }

    /// The driver opened `next.path` and starts decoding it. It becomes
    /// current only if it is still the head of the queue; if a command
    /// changed the queue while the file was being opened, nothing happens
    /// and the driver looks again.
    pub fn start(&mut self, next: Playing) -> (started: bool)
        ensures
            started == (old(self)@.upcoming.len() > 0 && old(self)@.upcoming[0]@ == next.path@),
            final(self)@ == if started {
                old(self)@.advance(Some(next))
            } else {
                old(self)@
            },
    {
        if self.upcoming.len() > 0 && self.upcoming[0] == next.path {
            self.advance(Some(next));
            true
        } else {
            false
        }
    }

    /// The driver could not open `path`: it leaves the queue if it is still
    /// at its head.
    pub fn open_failed(&mut self, path: &String)
        ensures
            final(self)@ == if old(self)@.upcoming.len() > 0 && old(self)@.upcoming[0]@ == path@ {
                old(self)@.discard_next()
            } else {
                old(self)@
            },
    {
        if self.upcoming.len() > 0 && self.upcoming[0] == *path {
            self.discard_next();
        }
    }

    /// Removes the most recently played track from the history.
    pub fn drop_current_slot(&mut self)
        ensures
            final(self)@ == old(self)@.drop_current_slot(),
    {
        let _ = self.history.pop();
    }

    /// Removes the head of the queue: the track that could not be opened.
    pub fn discard_next(&mut self)
        ensures
            final(self)@ == old(self)@.discard_next(),
    {
        let _ = self.upcoming.pop_front();
    }

    pub fn current_path(&self) -> (r: Option<String>)
        ensures
            r == self@.current_path(),
    {
        match &self.current {
            Some(p) => Some(p.path.clone()),
            None => None,
        }
    }

    pub fn current_tags(&self) -> (r: Option<Tags>)
        ensures
            match (r, self@.current) {
                (Some(t), Some(p)) => t@ == p.tags@,
                (None, None) => true,
                _ => false,
            },
    {
        match &self.current {
            Some(p) => Some(p.tags.duplicate()),
            None => None,
        }
    }

    /// Position of the current track within the playlist: the number of
    /// tracks in the history.
    pub fn current_index(&self) -> (r: usize)
        ensures
            r == self@.current_index(),
    {
        self.history.len()
    }

    pub fn history(&self) -> (r: Vec<String>)
        ensures
            r@ == self@.history,
    {
        self.history.clone()
    }

    pub fn upcoming(&self) -> (r: Vec<String>)
        ensures
            r@ == self@.upcoming,
    {
        let mut r: Vec<String> = Vec::new();
        let n = self.upcoming.len();
        let mut i: usize = 0;
        while i < n
            invariant
                i <= n,
                n == self@.upcoming.len(),
                r@ == self@.upcoming.take(i as int),
            decreases n - i,
        {
            r.push(self.upcoming[i].clone());
            i = i + 1;
            assert(r@ =~= self@.upcoming.take(i as int));
        }
        assert(self@.upcoming.take(n as int) =~= self@.upcoming);
        r
    }

    /// The playlist in order, history, current, upcoming: a file entry for
    /// each track whose tags are still to be read, and the known tags of the
    /// current track.
    pub fn playlist_entries(&self) -> (r: Vec<PlaylistEntry>)
        ensures
            r@.len() == self@.playlist().len(),
            forall|i: int|
                0 <= i < self@.history.len() ==> #[trigger] r@[i] == PlaylistEntry::File(
                    self@.history[i],
                ),
            forall|j: int|
                0 <= j < self@.upcoming.len() ==> #[trigger] r@[self@.history.len()
                    + self@.current_seq().len() + j] == PlaylistEntry::File(self@.upcoming[j]),
            match self@.current {
                Some(p) => match r@[self@.history.len() as int] {
                    PlaylistEntry::Playing(t) => t@ == p.tags@,
                    PlaylistEntry::File(_) => false,
                },
                None => true,
            },
    {
        let mut r: Vec<PlaylistEntry> = Vec::new();
        let h = self.history.len();
        let mut i: usize = 0;
        while i < h
            invariant
                i <= h,
                h == self@.history.len(),
                r@.len() == i,
                forall|k: int| 0 <= k < i ==> #[trigger] r@[k] == PlaylistEntry::File(self@.history[k]),
            decreases h - i,
        {
            r.push(PlaylistEntry::File(self.history[i].clone()));
            i = i + 1;
        }
        match &self.current {
            Some(p) => r.push(PlaylistEntry::Playing(p.tags.duplicate())),
            None => {},
        }
        let base = r.len();
        assert(base == self@.history.len() + self@.current_seq().len());
        let n = self.upcoming.len();
        let mut j: usize = 0;
        while j < n
            invariant
                j <= n,
                n == self@.upcoming.len(),
                h == self@.history.len(),
                base == self@.history.len() + self@.current_seq().len(),
                r@.len() == base + j,
                forall|k: int| 0 <= k < h ==> #[trigger] r@[k] == PlaylistEntry::File(self@.history[k]),
                match self@.current {
                    Some(p) => match r@[h as int] {
                        PlaylistEntry::Playing(t) => t@ == p.tags@,
                        PlaylistEntry::File(_) => false,
                    },
                    None => true,
                },
                forall|k: int|
                    0 <= k < j ==> #[trigger] r@[base + k] == PlaylistEntry::File(self@.upcoming[k]),
            decreases n - j,
        {
            r.push(PlaylistEntry::File(self.upcoming[j].clone()));
            j = j + 1;
        }
        r
    }

    /// Returns the change flag and lowers it.
    pub fn consume_changed(&mut self) -> (r: bool)
        ensures
            r == old(self)@.changed,
            final(self)@ == old(self)@.consumed(),
    {
        let c = self.changed;
        self.changed = false;
        c
    }
}


} // verus!
