//! Ownership of voice sessions, one per conversation room, and the playback
//! dispatch decision.
//!
//! A room is either absent or active: joining creates a fresh session
//! (joining again replaces it with a fresh one — the deterministic policy
//! here), leaving discards it, and nothing else changes the set of rooms.
//! Leaving never cancels a turn already in flight; it only removes the
//! session, so a later playback dispatch for that room finds no session and
//! reports so instead of failing.

use vstd::prelude::*;
use crate::buffers::deep;
use crate::session::{VoiceSession, VoiceEvent, event_transition};

verus! {

/// What a join did to the room.
#[derive(Clone, Copy, PartialEq, Eq, Structural, Debug)]
pub enum JoinOutcome {
    /// The room had no session; one was created.
    Created,
    /// The room already had a session; it was replaced by a fresh one.
    Replaced,
}

/// What became of an audio asset handed in for playback.
#[derive(Clone, Copy, PartialEq, Eq, Structural, Debug)]
pub enum PlaybackOutcome {
    /// The room has a live session; the asset goes to its transport
    /// connection, fire-and-forget.
    Enqueued,
    /// The room was left while inference was in flight: the asset is
    /// dropped and the outcome logged, never surfaced as an error.
    NoSession,
}

/// No room owns two sessions.
pub open spec fn distinct_rooms(s: Seq<(u64, VoiceSession)>) -> bool {
    forall|i: int, j: int| 0 <= i < j < s.len() ==> s[i].0 != s[j].0
}

/// Whether the room has a session.
pub open spec fn has_room_in(s: Seq<(u64, VoiceSession)>, room: u64) -> bool {
    exists|i: int| 0 <= i < s.len() && s[i].0 == room
}

/// Position of the room's session; meaningful only when it exists and
/// rooms are distinct.
pub open spec fn room_index(s: Seq<(u64, VoiceSession)>, room: u64) -> int {
    choose|i: int| 0 <= i < s.len() && s[i].0 == room
}

/// With distinct rooms, the position of a room's session is the one place
/// where that room stands.
pub proof fn lemma_room_index_unique(s: Seq<(u64, VoiceSession)>, room: u64, i: int)
    requires
        distinct_rooms(s),
        0 <= i < s.len(),
        s[i].0 == room,
    ensures
        has_room_in(s, room),
        room_index(s, room) == i,
{
    assert(has_room_in(s, room));
    let j = room_index(s, room);
    assert(0 <= j < s.len() && s[j].0 == room);
    if j < i {
        assert(s[j].0 != s[i].0);
    } else if i < j {
        assert(s[i].0 != s[j].0);
    }
}

/// Owns the one active voice session of each room.
pub struct VoiceSessionRegistry {
    sessions: Vec<(u64, VoiceSession)>,
}

impl VoiceSessionRegistry {
    /// The rooms and sessions, in creation order.
    pub closed spec fn entries(self) -> Seq<(u64, VoiceSession)> {
        self.sessions@
    }

    /// Internal consistency: one session per room, each internally
    /// consistent.
    pub open spec fn wf(self) -> bool {
        &&& distinct_rooms(self.entries())
        &&& forall|i: int| 0 <= i < self.entries().len() ==> (#[trigger] self.entries()[i]).1.wf()
    }

    /// Whether the room is active.
    pub open spec fn has_room(self, room: u64) -> bool {
        has_room_in(self.entries(), room)
    }

    /// The room's session; meaningful only when `has_room` holds.
    pub open spec fn session_of(self, room: u64) -> VoiceSession {
        self.entries()[room_index(self.entries(), room)].1
    }

    pub fn new() -> (r: VoiceSessionRegistry)
        ensures
            r.wf(),
            forall|room: u64| !r.has_room(room),
    {
        let r = VoiceSessionRegistry { sessions: Vec::new() };
        proof {
            assert(r.entries().len() == 0);
        }
        r
    }

    /// Position of the room's session, if the room is active.
    fn find(&self, room: u64) -> (r: Option<usize>)
        requires
            self.wf(),
        ensures
            match r {
                Some(i) => has_room_in(self.entries(), room) && room_index(self.entries(), room)
                    == i as int && i < self.entries().len(),
                None => !has_room_in(self.entries(), room),
            },
    {
        let mut i: usize = 0;
        while i < self.sessions.len()
            invariant
                self.wf(),
                i <= self.sessions.len(),
                forall|j: int| 0 <= j < i ==> self.entries()[j].0 != room,
            decreases self.sessions.len() - i,
        {
            if self.sessions[i].0 == room {
                proof {
                    lemma_room_index_unique(self.entries(), room, i as int);
                }
                return Some(i);
            }
            i += 1;
        }
        None
    }

    /// Create the room's session: a fresh one whether or not the room was
    /// already active (an active room's session is replaced — session
    /// setup is one atomic step either way, so no partly initialized
    /// session is ever observable). Every other room is untouched.
    pub fn join(&mut self, room: u64) -> (o: JoinOutcome)
        requires
            old(self).wf(),
        ensures
            final(self).wf(),
            final(self).has_room(room),
            final(self).session_of(room).is_fresh(),
            (o == JoinOutcome::Created) == !old(self).has_room(room),
            forall|r: u64|
                r != room ==> final(self).has_room(r) == old(self).has_room(r) && (old(
                    self,
                ).has_room(r) ==> final(self).session_of(r) == old(self).session_of(r)),
    {
        let ghost orig = self.entries();
        match self.find(room) {
            Some(idx) => {
                let ghost gi = idx as int;
                let _dropped = self.sessions.remove(idx);
                let fresh = VoiceSession::new();
                self.sessions.insert(idx, (room, fresh));
                proof {
                    assert(self.entries() =~= orig.update(gi, (room, fresh)));
                    assert forall|i: int, j: int|
                        0 <= i < j < self.entries().len() implies self.entries()[i].0
                        != self.entries()[j].0 by {
                        assert(self.entries()[i].0 == orig[i].0);
                        assert(self.entries()[j].0 == orig[j].0);
                    }
                    lemma_room_index_unique(self.entries(), room, gi);
                    assert forall|r: u64| r != room && has_room_in(orig, r) implies has_room_in(
                        self.entries(),
                        r,
                    ) && self.entries()[room_index(self.entries(), r)].1 == orig[room_index(
                        orig,
                        r,
                    )].1 by {
                        let j = room_index(orig, r);
                        assert(0 <= j < orig.len() && orig[j].0 == r);
                        assert(j != gi);
                        lemma_room_index_unique(self.entries(), r, j);
                    }
                    assert forall|r: u64| r != room && !has_room_in(orig, r) implies !has_room_in(
                        self.entries(),
                        r,
                    ) by {
                        if has_room_in(self.entries(), r) {
                            let j = room_index(self.entries(), r);
                            assert(orig[j].0 == r);
                        }
                    }
                }
                JoinOutcome::Replaced
            },
            None => {
                let fresh = VoiceSession::new();
                self.sessions.push((room, fresh));
                proof {
                    assert(self.entries() =~= orig.push((room, fresh)));
                    assert forall|i: int, j: int|
                        0 <= i < j < self.entries().len() implies self.entries()[i].0
                        != self.entries()[j].0 by {
                        if j < orig.len() {
                            assert(orig[i].0 != orig[j].0);
                        } else {
                            assert(self.entries()[j].0 == room);
                            assert(!(0 <= i < orig.len() && orig[i].0 == room));
                        }
                    }
                    lemma_room_index_unique(self.entries(), room, orig.len() as int);
                    assert forall|r: u64| r != room && has_room_in(orig, r) implies has_room_in(
                        self.entries(),
                        r,
                    ) && self.entries()[room_index(self.entries(), r)].1 == orig[room_index(
                        orig,
                        r,
                    )].1 by {
                        let j = room_index(orig, r);
                        assert(0 <= j < orig.len() && orig[j].0 == r);
                        lemma_room_index_unique(self.entries(), r, j);
                    }
                    assert forall|r: u64| r != room && !has_room_in(orig, r) implies !has_room_in(
                        self.entries(),
                        r,
                    ) by {
                        if has_room_in(self.entries(), r) {
                            let j = room_index(self.entries(), r);
                            assert(0 <= j < orig.len() ==> orig[j].0 == r);
                        }
                    }
                }
                JoinOutcome::Created
            },
        }
    }

    /// Tear the room's session down, discarding its buffers and identity
    /// map; report whether there was one. Every other room is untouched.
    /// A turn pipeline already in flight is not cancelled — only its later
    /// playback dispatch will find the room gone.
    pub fn leave(&mut self, room: u64) -> (was_active: bool)
        requires
            old(self).wf(),
        ensures
            final(self).wf(),
            !final(self).has_room(room),
            was_active == old(self).has_room(room),
            forall|r: u64|
                r != room ==> final(self).has_room(r) == old(self).has_room(r) && (old(
                    self,
                ).has_room(r) ==> final(self).session_of(r) == old(self).session_of(r)),
    {
        let ghost orig = self.entries();
        match self.find(room) {
            Some(idx) => {
                let ghost gi = idx as int;
                let _dropped = self.sessions.remove(idx);
                proof {
                    assert(self.entries() =~= orig.remove(gi));
                    assert forall|i: int, j: int|
                        0 <= i < j < self.entries().len() implies self.entries()[i].0
                        != self.entries()[j].0 by {
                        let oi: int = if i < gi {
                            i
                        } else {
                            i + 1
                        };
                        let oj: int = if j < gi {
                            j
                        } else {
                            j + 1
                        };
                        assert(self.entries()[i] == orig[oi]);
                        assert(self.entries()[j] == orig[oj]);
                        assert(orig[oi].0 != orig[oj].0);
                    }
                    assert forall|r: u64| r != room && has_room_in(orig, r) implies has_room_in(
                        self.entries(),
                        r,
                    ) && self.entries()[room_index(self.entries(), r)].1 == orig[room_index(
                        orig,
                        r,
                    )].1 by {
                        let j = room_index(orig, r);
                        assert(0 <= j < orig.len() && orig[j].0 == r);
                        assert(j != gi);
                        let nj: int = if j < gi {
                            j
                        } else {
                            j - 1
                        };
                        assert(self.entries()[nj] == orig[j]);
                        lemma_room_index_unique(self.entries(), r, nj);
                    }
                    assert forall|r: u64| !has_room_in(orig, r) implies !has_room_in(
                        self.entries(),
                        r,
                    ) by {
                        if has_room_in(self.entries(), r) {
                            let j = room_index(self.entries(), r);
                            let oj: int = if j < gi {
                                j
                            } else {
                                j + 1
                            };
                            assert(orig[oj].0 == r);
                        }
                    }
                    assert(!has_room_in(self.entries(), room)) by {
                        if has_room_in(self.entries(), room) {
                            let j = room_index(self.entries(), room);
                            let oj: int = if j < gi {
                                j
                            } else {
                                j + 1
                            };
                            assert(orig[oj].0 == room);
                            assert(oj != gi);
                            lemma_room_index_unique(orig, room, oj);
                        }
                    }
                }
                true
            },
            None => false,
        }
    }

    /// The playback dispatch decision for an audio asset of this room: into
    /// the live session's transport if the room is still active, otherwise
    /// dropped as a logged no-op. Never an error either way.
    pub fn dispatch_playback(&self, room: u64) -> (o: PlaybackOutcome)
        requires
            self.wf(),
        ensures
            (o == PlaybackOutcome::Enqueued) == self.has_room(room),
    {
        match self.find(room) {
            Some(idx) => PlaybackOutcome::Enqueued,
            None => PlaybackOutcome::NoSession,
        }
    }

    /// Route one transport event to the room's session; an event for a room
    /// without a session (already left) changes nothing and yields nothing.
    /// Every other room's session is untouched, whatever the event does.
    pub fn handle_room_event(&mut self, room: u64, ev: VoiceEvent) -> (r: Option<
        Vec<(u32, Vec<i16>)>,
    >)
        requires
            old(self).wf(),
        ensures
            final(self).wf(),
            (r is Some) == old(self).has_room(room),
            r is None ==> *final(self) == *old(self),
            (r matches Some(flushed) ==> {
                &&& final(self).has_room(room)
                &&& event_transition(
                    old(self).session_of(room),
                    final(self).session_of(room),
                    ev,
                    deep(flushed@),
                )
                &&& forall|r2: u64|
                    r2 != room ==> final(self).has_room(r2) == old(self).has_room(r2) && (old(
                        self,
                    ).has_room(r2) ==> final(self).session_of(r2) == old(self).session_of(r2))
            }),
    {
        let ghost orig = self.entries();
        match self.find(room) {
            Some(idx) => {
                let ghost gi = idx as int;
                let mut entry = self.sessions.remove(idx);
                let flushed = entry.1.handle_event(ev);
                self.sessions.insert(idx, entry);
                proof {
                    assert(self.entries() =~= orig.update(gi, (orig[gi].0, entry.1)));
                    assert forall|i: int, j: int|
                        0 <= i < j < self.entries().len() implies self.entries()[i].0
                        != self.entries()[j].0 by {
                        assert(self.entries()[i].0 == orig[i].0);
                        assert(self.entries()[j].0 == orig[j].0);
                    }
                    lemma_room_index_unique(self.entries(), room, gi);
                    assert forall|r2: u64| r2 != room && has_room_in(orig, r2) implies has_room_in(
                        self.entries(),
                        r2,
                    ) && self.entries()[room_index(self.entries(), r2)].1 == orig[room_index(
                        orig,
                        r2,
                    )].1 by {
                        let j = room_index(orig, r2);
                        assert(0 <= j < orig.len() && orig[j].0 == r2);
                        assert(j != gi);
                        lemma_room_index_unique(self.entries(), r2, j);
                    }
                    assert forall|r2: u64| r2 != room && !has_room_in(orig, r2) implies
                        !has_room_in(self.entries(), r2) by {
                        if has_room_in(self.entries(), r2) {
                            let j = room_index(self.entries(), r2);
                            assert(orig[j].0 == r2);
                        }
                    }
                }
                Some(flushed)
            },
            None => None,
        }
    }
}

} // verus!
