use audio_player::{Playing, PlayerState, PlaylistEntry, Tags};
use futures::future::{AbortHandle, AbortRegistration};
use std::sync::mpsc::{channel, Receiver};

fn s(x: &str) -> String {
    x.to_string()
}

fn playing(path: &str) -> (Playing, AbortHandle, AbortRegistration) {
    let (handle, reg) = AbortHandle::new_pair();
    let watch = reg.handle();
    let tags = Tags::new(s("artist"), s("album"), path.to_string());
    (Playing { path: path.to_string(), tags, handle }, watch, reg)
}

/// What the decode driver does when a file opens: take the head and start it.
fn start_next(st: &mut PlayerState) -> Option<AbortHandle> {
    let next = st.poll_next()?;
    let (p, watch, _reg) = playing(&next);
    st.advance(Some(p));
    Some(watch)
}

fn with_device() -> (PlayerState, Receiver<()>) {
    let mut st = PlayerState::new();
    let (tx, rx) = channel();
    st.init(tx);
    (st, rx)
}

fn flushes(rx: &Receiver<()>) -> usize {
    rx.try_iter().count()
}

#[test]
fn empty_queue_idle() {
    let (mut st, _rx) = with_device();
    assert!(st.is_initialized());
    assert_eq!(st.current_path(), None);
    assert!(st.playlist_entries().is_empty());
    assert!(!st.consume_changed());
    assert_eq!(st.poll_next(), None);
    assert_eq!(st.current_path(), None);
}

#[test]
fn single_file_plays_then_retires() {
    let (mut st, _rx) = with_device();
    st.enqueue(s("/a.wav"));
    assert!(start_next(&mut st).is_some());
    assert_eq!(st.current_path(), Some(s("/a.wav")));
    assert!(st.consume_changed());
    assert!(!st.consume_changed());
    // the decode task has ended and nothing else is queued
    assert_eq!(st.poll_next(), None);
    assert_eq!(st.current_path(), None);
    assert_eq!(st.history(), vec![s("/a.wav")]);
    assert!(st.consume_changed());
}

#[test]
fn skip_moves_to_next() {
    let (mut st, rx) = with_device();
    st.enqueue(s("/a"));
    st.enqueue(s("/b"));
    let watch = start_next(&mut st).unwrap();
    assert_eq!(st.current_path(), Some(s("/a")));
    st.skip();
    assert!(watch.is_aborted());
    assert_eq!(flushes(&rx), 1);
    assert_eq!(st.current_path(), Some(s("/a")));
    start_next(&mut st).unwrap();
    assert_eq!(st.current_path(), Some(s("/b")));
    assert_eq!(st.history(), vec![s("/a")]);
}

#[test]
fn skip_to_selects_track() {
    let (mut st, rx) = with_device();
    for p in ["/a", "/b", "/c", "/d"] {
        st.enqueue(s(p));
    }
    let watch = start_next(&mut st).unwrap();
    st.skip_to(2);
    assert!(watch.is_aborted());
    assert_eq!(flushes(&rx), 1);
    assert_eq!(st.current_index(), 2);
    assert_eq!(st.current_path(), None);
    start_next(&mut st).unwrap();
    assert_eq!(st.current_path(), Some(s("/c")));
    assert_eq!(st.history(), vec![s("/a"), s("/b")]);
    assert_eq!(st.upcoming(), vec![s("/d")]);
    assert_eq!(st.current_index(), 2);
}

#[test]
fn previous_returns_to_last_played() {
    let (mut st, rx) = with_device();
    st.enqueue(s("/a"));
    st.enqueue(s("/b"));
    start_next(&mut st).unwrap();
    st.skip();
    let watch = start_next(&mut st).unwrap();
    assert_eq!(flushes(&rx), 1);
    st.previous();
    assert!(watch.is_aborted());
    assert_eq!(flushes(&rx), 1);
    assert_eq!(st.current_path(), None);
    assert_eq!(st.upcoming(), vec![s("/a"), s("/b")]);
    start_next(&mut st).unwrap();
    assert_eq!(st.current_path(), Some(s("/a")));
    assert!(st.history().is_empty());
    assert_eq!(st.upcoming()[0], s("/b"));
}

#[test]
fn enqueue_next_interrupts_current() {
    let (mut st, rx) = with_device();
    st.enqueue(s("/a"));
    st.enqueue(s("/c"));
    let watch = start_next(&mut st).unwrap();
    assert_eq!(st.current_path(), Some(s("/a")));
    assert_eq!(st.upcoming(), vec![s("/c")]);
    st.enqueue_next(s("/x"));
    assert!(watch.is_aborted());
    assert_eq!(flushes(&rx), 1);
    start_next(&mut st).unwrap();
    assert_eq!(st.current_path(), Some(s("/x")));
    assert_eq!(st.upcoming(), vec![s("/a"), s("/c")]);
}

#[test]
fn enqueue_next_without_current() {
    let mut st = PlayerState::new();
    st.enqueue(s("/a"));
    st.enqueue_next(s("/x"));
    assert_eq!(st.upcoming(), vec![s("/x"), s("/a")]);
    assert_eq!(st.current_path(), None);
}

#[test]
fn skip_to_current_index_changes_nothing() {
    let (mut st, rx) = with_device();
    for p in ["/a", "/b", "/c"] {
        st.enqueue(s(p));
    }
    start_next(&mut st).unwrap();
    start_next(&mut st).unwrap();
    let watch_index = st.current_index();
    assert_eq!(watch_index, 1);
    st.skip_to(1);
    assert_eq!(flushes(&rx), 0);
    assert_eq!(st.current_path(), Some(s("/b")));
    assert_eq!(st.history(), vec![s("/a")]);
    assert_eq!(st.upcoming(), vec![s("/c")]);
}

#[test]
fn skip_to_past_end_is_ignored() {
    let (mut st, rx) = with_device();
    st.enqueue(s("/a"));
    st.enqueue(s("/b"));
    start_next(&mut st).unwrap();
    st.skip_to(3);
    assert_eq!(flushes(&rx), 0);
    assert_eq!(st.current_path(), Some(s("/a")));
    assert_eq!(st.upcoming(), vec![s("/b")]);
}

#[test]
fn skip_to_end_moves_everything_to_history() {
    let (mut st, rx) = with_device();
    st.enqueue(s("/a"));
    st.enqueue(s("/b"));
    start_next(&mut st).unwrap();
    st.skip_to(2);
    assert_eq!(flushes(&rx), 1);
    assert_eq!(st.history(), vec![s("/a"), s("/b")]);
    assert!(st.upcoming().is_empty());
    assert_eq!(st.current_index(), 2);
}

#[test]
fn skip_to_backwards_without_current() {
    let mut st = PlayerState::new();
    for p in ["/a", "/b", "/c", "/d"] {
        st.enqueue(s(p));
    }
    start_next(&mut st).unwrap();
    start_next(&mut st).unwrap();
    start_next(&mut st).unwrap();
    st.skip(); // no device: nothing to flush
    st.enqueue_next(s("/x"));
    // history [/a, /b], no current, upcoming [/x, /c, /d]
    assert_eq!(st.current_path(), None);
    st.skip_to(0);
    assert!(st.history().is_empty());
    assert_eq!(st.upcoming(), vec![s("/a"), s("/b"), s("/x"), s("/c"), s("/d")]);
    assert_eq!(st.current_index(), 0);
}

#[test]
fn skip_to_backwards_with_current() {
    let mut st = PlayerState::new();
    for p in ["/a", "/b", "/c", "/d"] {
        st.enqueue(s(p));
    }
    for _ in 0..3 {
        start_next(&mut st).unwrap();
    }
    assert_eq!(st.current_path(), Some(s("/c")));
    st.skip_to(1);
    assert_eq!(st.history(), vec![s("/a")]);
    assert_eq!(st.upcoming(), vec![s("/b"), s("/c"), s("/d")]);
    start_next(&mut st).unwrap();
    assert_eq!(st.current_path(), Some(s("/b")));
    assert_eq!(st.current_index(), 1);
}

#[test]
fn previous_then_skip_returns_to_same_index() {
    let mut st = PlayerState::new();
    for p in ["/a", "/b", "/c"] {
        st.enqueue(s(p));
    }
    start_next(&mut st).unwrap();
    start_next(&mut st).unwrap();
    let before = st.current_index();
    st.previous();
    start_next(&mut st).unwrap();
    assert_eq!(st.current_index(), before - 1);
    st.skip();
    start_next(&mut st).unwrap();
    assert_eq!(st.current_index(), before);
    assert_eq!(st.current_path(), Some(s("/b")));
}

#[test]
fn previous_at_start_restarts_current() {
    let mut st = PlayerState::new();
    st.enqueue(s("/a"));
    start_next(&mut st).unwrap();
    st.previous();
    assert_eq!(st.upcoming(), vec![s("/a")]);
    assert_eq!(st.current_index(), 0);
}

#[test]
fn previous_without_current_does_nothing() {
    let (mut st, rx) = with_device();
    st.enqueue(s("/a"));
    st.previous();
    assert_eq!(flushes(&rx), 0);
    assert_eq!(st.upcoming(), vec![s("/a")]);
}

#[test]
fn changed_seen_once_per_advance() {
    let mut st = PlayerState::new();
    st.enqueue(s("/a"));
    st.enqueue(s("/b"));
    start_next(&mut st).unwrap();
    assert!(st.consume_changed());
    assert!(!st.consume_changed());
    st.skip();
    st.skip_to(0);
    assert!(!st.consume_changed());
    start_next(&mut st).unwrap();
    assert!(st.consume_changed());
    assert!(!st.consume_changed());
}

#[test]
fn playlist_length_tracks_enqueues_and_removals() {
    let mut st = PlayerState::new();
    for p in ["/a", "/b", "/c", "/d"] {
        st.enqueue(s(p));
    }
    start_next(&mut st).unwrap();
    st.enqueue_next(s("/x"));
    st.previous();
    st.skip_to(3);
    assert_eq!(st.playlist_entries().len(), 5);
    st.discard_next();
    assert_eq!(st.playlist_entries().len(), 4);
    st.drop_current_slot();
    assert_eq!(st.playlist_entries().len(), 3);
    assert_eq!(st.history(), vec![s("/x"), s("/a")]);
}

#[test]
fn discard_next_drops_unopenable_head() {
    let mut st = PlayerState::new();
    st.enqueue(s("/broken"));
    st.enqueue(s("/b"));
    assert_eq!(st.peek_next(), Some(s("/broken")));
    st.discard_next();
    assert_eq!(st.peek_next(), Some(s("/b")));
}

#[test]
fn playlist_entries_in_order() {
    let mut st = PlayerState::new();
    for p in ["/a", "/b", "/c"] {
        st.enqueue(s(p));
    }
    start_next(&mut st).unwrap();
    start_next(&mut st).unwrap();
    let entries = st.playlist_entries();
    assert_eq!(entries.len(), 3);
    assert!(matches!(&entries[0], PlaylistEntry::File(p) if p == "/a"));
    assert!(matches!(&entries[1], PlaylistEntry::Playing(t) if t.title() == "/b"));
    assert!(matches!(&entries[2], PlaylistEntry::File(p) if p == "/c"));
    let tags = st.current_tags().unwrap();
    assert_eq!(tags.artist(), "artist");
    assert_eq!(tags.album(), "album");
}

#[test]
fn init_only_once() {
    let mut st = PlayerState::new();
    assert!(!st.is_initialized());
    let (tx1, rx1) = channel();
    let (tx2, rx2) = channel();
    st.init(tx1);
    st.init(tx2);
    st.skip();
    assert_eq!(flushes(&rx1), 1);
    assert_eq!(flushes(&rx2), 0);
}

#[test]
fn navigation_hands_back_cancelled_track() {
    let mut st = PlayerState::new();
    for p in ["/a", "/b", "/c"] {
        st.enqueue(s(p));
    }
    start_next(&mut st).unwrap();
    let stopped = st.enqueue_next(s("/x")).unwrap();
    assert_eq!(stopped.path, "/a");
    assert!(stopped.handle.is_aborted());
    start_next(&mut st).unwrap();
    // playlist [/x, /a, /b, /c] with /x current
    assert!(st.skip_to(0).is_none());
    let stopped = st.skip_to(2).unwrap();
    assert_eq!(stopped.path, "/x");
    assert!(stopped.handle.is_aborted());
    assert!(st.skip_to(2).is_none());
    start_next(&mut st).unwrap();
    start_next(&mut st).unwrap();
    let stopped = st.previous().unwrap();
    assert_eq!(stopped.path, "/c");
    assert!(stopped.handle.is_aborted());
    assert!(st.previous().is_none());
}

#[test]
fn start_only_when_still_head() {
    let mut st = PlayerState::new();
    st.enqueue(s("/a"));
    let next = st.poll_next().unwrap();
    // a command changes the queue while the file is being opened
    st.enqueue_next(s("/x"));
    let (p, _watch, _reg) = playing(&next);
    assert!(!st.start(p));
    assert_eq!(st.current_path(), None);
    assert_eq!(st.upcoming(), vec![s("/x"), s("/a")]);
    let (p, _watch, _reg) = playing("/x");
    assert!(st.start(p));
    assert_eq!(st.current_path(), Some(s("/x")));
    assert_eq!(st.upcoming(), vec![s("/a")]);
}

#[test]
fn open_failure_drops_only_that_head() {
    let mut st = PlayerState::new();
    st.enqueue(s("/broken"));
    st.enqueue(s("/b"));
    st.open_failed(&s("/b"));
    assert_eq!(st.upcoming(), vec![s("/broken"), s("/b")]);
    st.open_failed(&s("/broken"));
    assert_eq!(st.upcoming(), vec![s("/b")]);
}
