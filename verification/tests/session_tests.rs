use doorknob::identity::SpeakerIdentity;
use doorknob::session::{VoiceEvent, VoiceSession};
use doorknob::turn::{start_turn, turn_step, TurnAction, TurnEvent, TurnOutcome};

const A: u32 = 11;
const B: u32 = 22;

fn tick(speaking: Vec<(u32, Vec<i16>)>, silent: Vec<u32>) -> VoiceEvent {
    VoiceEvent::Tick { speaking, silent }
}

#[test]
fn one_speaker_two_ticks_single_flush() {
    // Two speaking ticks, then silence: exactly one flush, holding both
    // ticks' samples for the speaker, in arrival order.
    let mut s = VoiceSession::new();
    let f1 = s.handle_event(tick(vec![(A, vec![1, 2])], vec![]));
    assert!(f1.is_empty());
    let f2 = s.handle_event(tick(vec![(A, vec![3, 4])], vec![]));
    assert!(f2.is_empty());
    let f3 = s.handle_event(tick(vec![], vec![A]));
    assert_eq!(f3.len(), 1);
    assert_eq!(f3[0].0, A);
    assert_eq!(f3[0].1, vec![1, 2, 3, 4]);
    // Continued silence does not flush again.
    let f4 = s.handle_event(tick(vec![], vec![A]));
    assert!(f4.is_empty());
}

#[test]
fn flush_all_drains_both_speakers() {
    // Two speakers, one silent tick: one flush-all with two entries, one
    // per speaker, each holding only that speaker's samples. Each entry
    // then runs its own pipeline, and each reaches playback exactly once.
    let mut s = VoiceSession::new();
    let f1 = s.handle_event(tick(vec![(A, vec![10]), (B, vec![20, 21])], vec![]));
    assert!(f1.is_empty());
    let f2 = s.handle_event(tick(vec![], vec![A, B]));
    assert_eq!(f2.len(), 2);
    assert_eq!(f2[0].0, A);
    assert_eq!(f2[0].1, vec![10]);
    assert_eq!(f2[1].0, B);
    assert_eq!(f2[1].1, vec![20, 21]);
    for (_, samples) in f2 {
        assert_eq!(run_pipeline_counting_dispatches(&samples), 1);
    }
}

fn run_pipeline_counting_dispatches(samples: &Vec<i16>) -> usize {
    let (mut phase, mut action) = start_turn(samples);
    let mut dispatches: usize = 0;
    loop {
        let event = match action {
            TurnAction::WriteContainer { .. } => TurnEvent::ContainerWritten {
                container: String::from("turn.wav"),
            },
            TurnAction::Transcribe { .. } => TurnEvent::TranscriptReady {
                text: String::from("words"),
            },
            TurnAction::Generate { .. } => TurnEvent::ResponseReady {
                text: String::from("reply"),
            },
            TurnAction::Synthesize { .. } => TurnEvent::AudioReady {
                audio: String::from("speech.wav"),
            },
            TurnAction::Dispatch { .. } => {
                dispatches += 1;
                TurnEvent::PlaybackDispatched
            }
            TurnAction::Finish { outcome } => {
                assert_eq!(outcome, TurnOutcome::Completed);
                return dispatches;
            }
        };
        let (next_phase, next_action) = turn_step(phase, event);
        phase = next_phase;
        action = next_action;
    }
}

#[test]
fn disconnect_neither_flushes_nor_drops_samples() {
    // A disconnect while samples sit buffered and no silence edge has
    // occurred: no flush; the samples stay until the next silence edge.
    let mut s = VoiceSession::new();
    let f1 = s.handle_event(tick(vec![(A, vec![7, 8])], vec![]));
    assert!(f1.is_empty());
    let f2 = s.handle_event(VoiceEvent::ClientDisconnect { user_id: 900 });
    assert!(f2.is_empty());
    assert_eq!(s.buffers.buffered_len(A), 2);
    let f3 = s.handle_event(tick(vec![], vec![]));
    assert_eq!(f3.len(), 1);
    assert_eq!(f3[0].1, vec![7, 8]);
}

#[test]
fn packet_diagnostics_change_nothing() {
    let mut s = VoiceSession::new();
    let f1 = s.handle_event(tick(vec![(A, vec![5])], vec![]));
    assert!(f1.is_empty());
    assert!(s.handle_event(VoiceEvent::RtcpPacket).is_empty());
    assert!(s.handle_event(VoiceEvent::RtpPacket).is_empty());
    assert!(s.handle_event(VoiceEvent::TrackError).is_empty());
    assert_eq!(s.buffers.buffered_len(A), 1);
}

#[test]
fn unresolved_identity_still_buffers_and_flushes() {
    // No speaking-state update ever arrives for A: buffering and flushing
    // proceed; the turn gets the placeholder identity.
    let mut s = VoiceSession::new();
    let f1 = s.handle_event(tick(vec![(A, vec![1])], vec![]));
    assert!(f1.is_empty());
    assert_eq!(
        s.identities.speaker_identity(A),
        SpeakerIdentity::Unresolved { stream_id: A }
    );
    let f2 = s.handle_event(tick(vec![], vec![]));
    assert_eq!(f2.len(), 1);
    assert_eq!(f2[0].0, A);
    assert_eq!(f2[0].1, vec![1]);
}

#[test]
fn speaking_update_records_identity_and_creates_buffer() {
    let mut s = VoiceSession::new();
    assert!(!s.buffers.has_buffer(A));
    let f = s.handle_event(VoiceEvent::SpeakingStateUpdate {
        stream_id: A,
        user: Some(4242),
    });
    assert!(f.is_empty());
    assert_eq!(s.identities.resolve(A), Some(4242));
    assert!(s.buffers.has_buffer(A));
    assert_eq!(s.buffers.buffered_len(A), 0);
}

#[test]
fn speaking_update_without_identity_changes_nothing() {
    let mut s = VoiceSession::new();
    let f = s.handle_event(VoiceEvent::SpeakingStateUpdate {
        stream_id: A,
        user: None,
    });
    assert!(f.is_empty());
    assert_eq!(s.identities.resolve(A), None);
    assert!(!s.buffers.has_buffer(A));
}

#[test]
fn identity_last_writer_wins() {
    let mut s = VoiceSession::new();
    s.identities.observe(A, 1);
    s.identities.observe(A, 2);
    assert_eq!(s.identities.resolve(A), Some(2));
    assert_eq!(
        s.identities.speaker_identity(A),
        SpeakerIdentity::Resolved { user: 2 }
    );
    assert_eq!(s.identities.resolve(B), None);
}

#[test]
fn samples_after_drain_belong_to_the_next_turn() {
    // Buffer isolation across turns: what a drain returned never gains the
    // samples appended afterwards; they form the next artifact alone.
    let mut s = VoiceSession::new();
    s.handle_event(tick(vec![(A, vec![1, 2])], vec![]));
    let first = s.handle_event(tick(vec![], vec![]));
    assert_eq!(first[0].1, vec![1, 2]);
    s.handle_event(tick(vec![(A, vec![3])], vec![]));
    assert_eq!(first[0].1, vec![1, 2]);
    let second = s.handle_event(tick(vec![], vec![]));
    assert_eq!(second.len(), 1);
    assert_eq!(second[0].1, vec![3]);
}

#[test]
fn empty_room_tick_is_harmless() {
    // A tick with neither speaking nor silent entries: the edge logic sees
    // an empty speaking set, fires once, and finds nothing to flush.
    let mut s = VoiceSession::new();
    let f1 = s.handle_event(tick(vec![], vec![]));
    assert!(f1.is_empty());
    let f2 = s.handle_event(tick(vec![], vec![]));
    assert!(f2.is_empty());
}
