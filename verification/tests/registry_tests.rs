use doorknob::registry::{JoinOutcome, PlaybackOutcome, VoiceSessionRegistry};
use doorknob::session::VoiceEvent;

const ROOM: u64 = 700;
const OTHER: u64 = 701;
const A: u32 = 11;

#[test]
fn join_creates_and_rejoining_replaces() {
    let mut reg = VoiceSessionRegistry::new();
    assert_eq!(reg.join(ROOM), JoinOutcome::Created);
    assert_eq!(reg.dispatch_playback(ROOM), PlaybackOutcome::Enqueued);
    // Deterministic policy: joining an active room replaces its session
    // with a fresh one.
    assert_eq!(reg.join(ROOM), JoinOutcome::Replaced);
    assert_eq!(reg.dispatch_playback(ROOM), PlaybackOutcome::Enqueued);
}

#[test]
fn rejoining_discards_the_old_sessions_buffers() {
    let mut reg = VoiceSessionRegistry::new();
    reg.join(ROOM);
    reg.handle_room_event(
        ROOM,
        VoiceEvent::Tick {
            speaking: vec![(A, vec![1, 2])],
            silent: vec![],
        },
    );
    reg.join(ROOM);
    // The fresh session has nothing buffered: the silence edge flushes
    // nothing.
    let flushed = reg
        .handle_room_event(
            ROOM,
            VoiceEvent::Tick {
                speaking: vec![],
                silent: vec![],
            },
        )
        .unwrap();
    assert!(flushed.is_empty());
}

#[test]
fn playback_after_leave_is_a_noop_not_an_error() {
    // A flush happened, the room was left before synthesis completed: the
    // dispatch decision reports the missing session instead of failing.
    let mut reg = VoiceSessionRegistry::new();
    reg.join(ROOM);
    assert!(reg.leave(ROOM));
    assert_eq!(reg.dispatch_playback(ROOM), PlaybackOutcome::NoSession);
    assert!(!reg.leave(ROOM));
}

#[test]
fn events_reach_only_the_addressed_room() {
    let mut reg = VoiceSessionRegistry::new();
    reg.join(ROOM);
    reg.join(OTHER);
    let r = reg.handle_room_event(
        ROOM,
        VoiceEvent::Tick {
            speaking: vec![(A, vec![5])],
            silent: vec![],
        },
    );
    assert_eq!(r.map(|f| f.len()), Some(0));
    // The addressed room flushes its speaker's samples.
    let flushed = reg
        .handle_room_event(
            ROOM,
            VoiceEvent::Tick {
                speaking: vec![],
                silent: vec![],
            },
        )
        .unwrap();
    assert_eq!(flushed.len(), 1);
    assert_eq!(flushed[0], (A, vec![5]));
    // The other room was untouched: its own silence edge finds nothing.
    let other = reg
        .handle_room_event(
            OTHER,
            VoiceEvent::Tick {
                speaking: vec![],
                silent: vec![],
            },
        )
        .unwrap();
    assert!(other.is_empty());
}

#[test]
fn events_for_an_absent_room_do_nothing() {
    let mut reg = VoiceSessionRegistry::new();
    let r = reg.handle_room_event(ROOM, VoiceEvent::RtcpPacket);
    assert!(r.is_none());
    assert_eq!(reg.dispatch_playback(ROOM), PlaybackOutcome::NoSession);
}

#[test]
fn leaving_one_room_keeps_the_others() {
    let mut reg = VoiceSessionRegistry::new();
    reg.join(ROOM);
    reg.join(OTHER);
    reg.handle_room_event(
        OTHER,
        VoiceEvent::Tick {
            speaking: vec![(A, vec![9])],
            silent: vec![],
        },
    );
    assert!(reg.leave(ROOM));
    assert_eq!(reg.dispatch_playback(ROOM), PlaybackOutcome::NoSession);
    assert_eq!(reg.dispatch_playback(OTHER), PlaybackOutcome::Enqueued);
    // The surviving room still holds its buffered samples.
    let flushed = reg
        .handle_room_event(
            OTHER,
            VoiceEvent::Tick {
                speaking: vec![],
                silent: vec![],
            },
        )
        .unwrap();
    assert_eq!(flushed, vec![(A, vec![9])]);
}
