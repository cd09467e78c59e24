//! One room's live voice session: buffers, silence detector and identity
//! map, fed by the transport's event stream.
//!
//! Every transport event becomes one variant of a closed union and is
//! handled exhaustively. Tick handling never waits on outside work: it only
//! appends samples, advances the detector, and — on the silence edge —
//! drains the buffers and hands them out, so the caller can run each
//! drained buffer's turn pipeline off the tick path.

use vstd::prelude::*;
use crate::buffers::{
    SpeakerBufferStore,
    deep,
    nonempty_entries,
    all_drained,
    store_append,
    has_stream,
};
use crate::identity::IdentityResolver;
use crate::silence::SilenceDetector;

verus! {

/// What the voice transport can deliver to a session.
pub enum VoiceEvent {
    /// The periodic report: each speaking stream id with its decoded frame,
    /// and the stream ids that stayed silent.
    Tick { speaking: Vec<(u32, Vec<i16>)>, silent: Vec<u32> },
    /// A stream id was tied to a durable participant identity — or not, if
    /// the transport did not know it either.
    SpeakingStateUpdate { stream_id: u32, user: Option<u64> },
    /// A participant left the transport. Logged only: no flush, no state
    /// change; their samples stay buffered until the next silence edge.
    ClientDisconnect { user_id: u64 },
    /// Packet-level diagnostics. Logged only.
    RtcpPacket,
    /// Packet-level diagnostics. Logged only.
    RtpPacket,
    /// A playback track of this session failed. Logged only: capture and
    /// buffering are unaffected.
    TrackError,
}

/// A room's per-session state.
pub struct VoiceSession {
    pub detector: SilenceDetector,
    pub buffers: SpeakerBufferStore,
    pub identities: IdentityResolver,
}

/// The store after each speaking frame of a tick is appended, in tick
/// order.
pub open spec fn append_frames(
    s: Seq<(u32, Seq<i16>)>,
    frames: Seq<(u32, Seq<i16>)>,
) -> Seq<(u32, Seq<i16>)>
    decreases frames.len(),
{
    if frames.len() == 0 {
        s
    } else {
        append_frames(store_append(s, frames[0].0, frames[0].1), frames.drop_first())
    }
}

/// How one tick transforms a session. `speaking` is the tick's speaking set
/// with its frames; `flushed` is what the tick handed out for turn
/// pipelines.
pub open spec fn tick_transition(
    pre: VoiceSession,
    post: VoiceSession,
    speaking: Seq<(u32, Seq<i16>)>,
    flushed: Seq<(u32, Seq<i16>)>,
) -> bool {
    let fires = pre.detector.fires(speaking.len() == 0);
    &&& post.detector.last_empty() == (speaking.len() == 0)
    &&& post.identities == pre.identities
    &&& (fires ==> flushed == nonempty_entries(pre.buffers.buffers()) && post.buffers.buffers()
        == all_drained(pre.buffers.buffers()))
    &&& (!fires ==> flushed.len() == 0 && post.buffers.buffers() == append_frames(
        pre.buffers.buffers(),
        speaking,
    ))
}

/// How any one event transforms a session. Only a tick can flush; identity
/// observations couple to buffer creation; everything else is logged only
/// and changes nothing.
pub open spec fn event_transition(
    pre: VoiceSession,
    post: VoiceSession,
    ev: VoiceEvent,
    flushed: Seq<(u32, Seq<i16>)>,
) -> bool {
    match ev {
        VoiceEvent::Tick { speaking, silent } => tick_transition(pre, post, deep(speaking@), flushed),
        VoiceEvent::SpeakingStateUpdate { stream_id, user } => {
            &&& flushed.len() == 0
            &&& post.detector == pre.detector
            &&& match user {
                Some(u) => {
                    &&& post.identities.resolved() == pre.identities.resolved().insert(
                        stream_id,
                        u,
                    )
                    &&& post.buffers.buffers() == (if has_stream(
                        pre.buffers.buffers(),
                        stream_id,
                    ) {
                        pre.buffers.buffers()
                    } else {
                        pre.buffers.buffers().push((stream_id, Seq::<i16>::empty()))
                    })
                },
                None => post == pre,
            }
        },
        VoiceEvent::ClientDisconnect { .. } => flushed.len() == 0 && post == pre,
        VoiceEvent::RtcpPacket => flushed.len() == 0 && post == pre,
        VoiceEvent::RtpPacket => flushed.len() == 0 && post == pre,
        VoiceEvent::TrackError => flushed.len() == 0 && post == pre,
    }
}

/// Unresolved identity tolerance: what a tick buffers and what it flushes
/// is decided by the buffers and the detector alone. Swapping the identity
/// map for any other — say, one that never observed some stream id — leaves
/// every tick transition intact, so a speaker with no identity observation
/// is buffered and flushed like any other and the turn runs under the
/// placeholder identity.
pub proof fn lemma_tick_ignores_identities(
    pre: VoiceSession,
    post: VoiceSession,
    other: IdentityResolver,
    speaking: Seq<(u32, Seq<i16>)>,
    flushed: Seq<(u32, Seq<i16>)>,
)
    requires
        tick_transition(pre, post, speaking, flushed),
    ensures
        tick_transition(
            VoiceSession { identities: other, ..pre },
            VoiceSession { identities: other, ..post },
            speaking,
            flushed,
        ),
{
}

impl VoiceSession {
    /// Internal consistency of the per-stream buffers.
    pub open spec fn wf(self) -> bool {
        self.buffers.wf()
    }

    /// A session as it stands right after a join: nothing buffered, no
    /// identity observed, detector armed.
    pub open spec fn is_fresh(self) -> bool {
        &&& self.buffers.buffers() == Seq::<(u32, Seq<i16>)>::empty()
        &&& !self.detector.last_empty()
        &&& self.identities.resolved() == Map::<u32, u64>::empty()
    }

    pub fn new() -> (s: VoiceSession)
        ensures
            s.wf(),
            s.is_fresh(),
    {
        VoiceSession {
            detector: SilenceDetector::new(),
            buffers: SpeakerBufferStore::new(),
            identities: IdentityResolver::new(),
        }
    }

    /// Handle one tick: append every speaking frame in tick order, advance
    /// the silence detector, and on the activity-to-silence edge drain all
    /// buffers, returning the non-empty ones for their turn pipelines.
    /// Nothing here waits on outside work.
    pub fn handle_tick(&mut self, speaking: &Vec<(u32, Vec<i16>)>) -> (flushed: Vec<
        (u32, Vec<i16>),
    >)
        requires
            old(self).wf(),
        ensures
            final(self).wf(),
            tick_transition(*old(self), *final(self), deep(speaking@), deep(flushed@)),
    {
        let ghost orig = self.buffers.buffers();
        let ghost frames = deep(speaking@);
        proof {
            assert(frames.skip(0) =~= frames);
        }
        let mut i: usize = 0;
        while i < speaking.len()
            invariant
                old(self).wf(),
                self.buffers.wf(),
                i <= speaking@.len(),
                frames == deep(speaking@),
                self.detector == old(self).detector,
                self.identities == old(self).identities,
                append_frames(self.buffers.buffers(), frames.skip(i as int)) == append_frames(
                    orig,
                    frames,
                ),
                speaking@.len() == 0 ==> self.buffers.buffers() == orig,
            decreases speaking@.len() - i,
        {
            let ghost pre = self.buffers.buffers();
            let frame = &speaking[i];
            self.buffers.append(frame.0, &frame.1);
            proof {
                let rest = frames.skip(i as int);
                assert(rest[0] == frames[i as int]);
                assert(rest.drop_first() =~= frames.skip(i + 1));
                assert(append_frames(pre, rest) == append_frames(
                    store_append(pre, rest[0].0, rest[0].1),
                    rest.drop_first(),
                ));
                assert(frames[i as int].0 == frame.0 && frames[i as int].1 == frame.1@);
            }
            i += 1;
        }
        proof {
            assert(frames.skip(frames.len() as int) =~= Seq::<(u32, Seq<i16>)>::empty());
            assert(append_frames(self.buffers.buffers(), frames.skip(frames.len() as int))
                == self.buffers.buffers());
        }
        let flush = self.detector.observe_tick(speaking.len() == 0);
        if flush {
            let flushed = self.buffers.flush_nonempty();
            proof {
                assert(deep(flushed@) == nonempty_entries(orig));
            }
            flushed
        } else {
            let flushed: Vec<(u32, Vec<i16>)> = Vec::new();
            proof {
                assert(deep(flushed@) =~= Seq::<(u32, Seq<i16>)>::empty());
            }
            flushed
        }
    }

    /// Handle any transport event, matched exhaustively over the closed set
    /// of kinds. Returns the buffers drained for turn pipelines; only a
    /// tick's silence edge can make that non-empty.
    pub fn handle_event(&mut self, ev: VoiceEvent) -> (flushed: Vec<(u32, Vec<i16>)>)
        requires
            old(self).wf(),
        ensures
            final(self).wf(),
            event_transition(*old(self), *final(self), ev, deep(flushed@)),
    {
        match ev {
            VoiceEvent::Tick { speaking, silent: _ } => self.handle_tick(&speaking),
            VoiceEvent::SpeakingStateUpdate { stream_id, user } => {
                match user {
                    Some(u) => {
                        self.identities.observe(stream_id, u);
                        self.buffers.ensure_entry(stream_id);
                    },
                    None => {},
                }
                let flushed: Vec<(u32, Vec<i16>)> = Vec::new();
                proof {
                    assert(deep(flushed@) =~= Seq::<(u32, Seq<i16>)>::empty());
                }
                flushed
            },
            VoiceEvent::ClientDisconnect { user_id: _ } => {
                let flushed: Vec<(u32, Vec<i16>)> = Vec::new();
                proof {
                    assert(deep(flushed@) =~= Seq::<(u32, Seq<i16>)>::empty());
                }
                flushed
            },
            VoiceEvent::RtcpPacket => {
                let flushed: Vec<(u32, Vec<i16>)> = Vec::new();
                proof {
                    assert(deep(flushed@) =~= Seq::<(u32, Seq<i16>)>::empty());
                }
                flushed
            },
            VoiceEvent::RtpPacket => {
                let flushed: Vec<(u32, Vec<i16>)> = Vec::new();
                proof {
                    assert(deep(flushed@) =~= Seq::<(u32, Seq<i16>)>::empty());
                }
                flushed
            },
            VoiceEvent::TrackError => {
                let flushed: Vec<(u32, Vec<i16>)> = Vec::new();
                proof {
                    assert(deep(flushed@) =~= Seq::<(u32, Seq<i16>)>::empty());
                }
                flushed
            },
        }
    }
}

} // verus!
