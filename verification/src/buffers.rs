//! Per-participant accumulation of decoded PCM samples.
//!
//! Buffers are keyed by the ephemeral stream id of the transport. Samples are
//! appended in tick-arrival order and drained atomically at a flush: the
//! drain instant is the boundary between one turn and the next, so samples
//! appended after a drain belong to the next turn and never to the artifact
//! that the drain produced.

use vstd::prelude::*;

verus! {

/// Mathematical view of a store: the buffers in creation order, each a
/// stream id with its sample sequence.
pub open spec fn deep(entries: Seq<(u32, Vec<i16>)>) -> Seq<(u32, Seq<i16>)> {
    Seq::new(entries.len(), |i: int| (entries[i].0, entries[i].1@))
}

/// No stream id owns two buffers.
pub open spec fn distinct_keys(s: Seq<(u32, Seq<i16>)>) -> bool {
    forall|i: int, j: int| 0 <= i < j < s.len() ==> s[i].0 != s[j].0
}

/// Whether a buffer exists for the stream id.
pub open spec fn has_stream(s: Seq<(u32, Seq<i16>)>, id: u32) -> bool {
    exists|i: int| 0 <= i < s.len() && s[i].0 == id
}

/// Position of the stream id's buffer; meaningful only when it exists and
/// keys are distinct.
pub open spec fn stream_index(s: Seq<(u32, Seq<i16>)>, id: u32) -> int {
    choose|i: int| 0 <= i < s.len() && s[i].0 == id
}

/// The samples buffered for a stream id; an absent buffer reads as empty.
pub open spec fn stream_contents(s: Seq<(u32, Seq<i16>)>, id: u32) -> Seq<i16> {
    if has_stream(s, id) {
        s[stream_index(s, id)].1
    } else {
        Seq::empty()
    }
}

/// The store after samples are appended for a stream id, creating its buffer
/// if absent.
pub open spec fn store_append(s: Seq<(u32, Seq<i16>)>, id: u32, xs: Seq<i16>) -> Seq<
    (u32, Seq<i16>),
> {
    if has_stream(s, id) {
        s.update(stream_index(s, id), (id, s[stream_index(s, id)].1 + xs))
    } else {
        s.push((id, xs))
    }
}

/// The store after one stream id's buffer is drained; an absent buffer is
/// left absent.
pub open spec fn store_drain(s: Seq<(u32, Seq<i16>)>, id: u32) -> Seq<(u32, Seq<i16>)> {
    if has_stream(s, id) {
        s.update(stream_index(s, id), (id, Seq::empty()))
    } else {
        s
    }
}

/// The buffers that hold at least one sample, in store order.
pub open spec fn nonempty_entries(s: Seq<(u32, Seq<i16>)>) -> Seq<(u32, Seq<i16>)>
    decreases s.len(),
{
    if s.len() == 0 {
        Seq::empty()
    } else if s.last().1.len() > 0 {
        nonempty_entries(s.drop_last()).push(s.last())
    } else {
        nonempty_entries(s.drop_last())
    }
}

/// The store after a flush-all: every buffer reset to empty.
pub open spec fn all_drained(s: Seq<(u32, Seq<i16>)>) -> Seq<(u32, Seq<i16>)> {
    Seq::new(s.len(), |i: int| (s[i].0, Seq::<i16>::empty()))
}

/// With distinct keys, the position of a stream id's buffer is the one place
/// where that key stands.
pub proof fn lemma_stream_index_unique(s: Seq<(u32, Seq<i16>)>, id: u32, i: int)
    requires
        distinct_keys(s),
        0 <= i < s.len(),
        s[i].0 == id,
    ensures
        has_stream(s, id),
        stream_index(s, id) == i,
{
    assert(has_stream(s, id));
    let j = stream_index(s, id);
    assert(0 <= j < s.len() && s[j].0 == id);
    if j < i {
        assert(s[j].0 != s[i].0);
    } else if i < j {
        assert(s[i].0 != s[j].0);
    }
}

/// Buffer isolation across turns: the artifact drained for a stream id is
/// its contents at the drain instant; right after the drain the buffer reads
/// empty, and samples appended after the drain make up the next artifact on
/// their own — they never join the artifact the drain produced.
pub proof fn lemma_buffer_isolation(s: Seq<(u32, Seq<i16>)>, id: u32, later: Seq<i16>)
    requires
        distinct_keys(s),
    ensures
        stream_contents(store_drain(s, id), id) == Seq::<i16>::empty(),
        stream_contents(store_append(store_drain(s, id), id, later), id) == later,
{
    if has_stream(s, id) {
        let i = stream_index(s, id);
        assert(0 <= i < s.len() && s[i].0 == id);
        let drained = store_drain(s, id);
        assert(distinct_keys(drained));
        lemma_stream_index_unique(drained, id, i);
        assert(stream_contents(drained, id) =~= Seq::<i16>::empty());
        let appended = store_append(drained, id, later);
        assert(distinct_keys(appended));
        lemma_stream_index_unique(appended, id, i);
        assert(stream_contents(appended, id) =~= Seq::<i16>::empty() + later);
        assert(Seq::<i16>::empty() + later =~= later);
    } else {
        let drained = store_drain(s, id);
        assert(drained == s);
        let appended = store_append(drained, id, later);
        assert(appended == s.push((id, later)));
        lemma_push_distinct(s, id, later);
        lemma_stream_index_unique(appended, id, s.len() as int);
        assert(stream_contents(appended, id) == later);
    }
}

/// Pushing a fresh key keeps the keys distinct.
proof fn lemma_push_distinct(s: Seq<(u32, Seq<i16>)>, id: u32, xs: Seq<i16>)
    requires
        distinct_keys(s),
        !has_stream(s, id),
    ensures
        distinct_keys(s.push((id, xs))),
{
    let t = s.push((id, xs));
    assert forall|i: int, j: int| 0 <= i < j < t.len() implies t[i].0 != t[j].0 by {
        if j < s.len() {
            assert(s[i].0 != s[j].0);
        } else {
            assert(t[j].0 == id);
            assert(t[i] == s[i]);
            assert(!(0 <= i < s.len() && s[i].0 == id));
        }
    }
}

/// Concurrent, per-participant sample accumulation (one store per session;
/// the session serializes access, so plain exclusive methods model it).
pub struct SpeakerBufferStore {
    entries: Vec<(u32, Vec<i16>)>,
}

impl SpeakerBufferStore {
    /// The buffers in creation order.
    pub closed spec fn buffers(self) -> Seq<(u32, Seq<i16>)> {
        deep(self.entries@)
    }

    /// Internal consistency: one buffer per stream id.
    pub open spec fn wf(self) -> bool {
        distinct_keys(self.buffers())
    }

    pub fn new() -> (s: SpeakerBufferStore)
        ensures
            s.wf(),
            s.buffers() == Seq::<(u32, Seq<i16>)>::empty(),
    {
        let s = SpeakerBufferStore { entries: Vec::new() };
        proof {
            assert(s.buffers() =~= Seq::<(u32, Seq<i16>)>::empty());
        }
        s
    }

    /// Index of the buffer for a stream id, if one exists.
    fn find(&self, stream_id: u32) -> (r: Option<usize>)
        requires
            self.wf(),
        ensures
            match r {
                Some(i) => has_stream(self.buffers(), stream_id) && stream_index(
                    self.buffers(),
                    stream_id,
                ) == i as int && i < self.buffers().len(),
                None => !has_stream(self.buffers(), stream_id),
            },
    {
        let mut i: usize = 0;
        while i < self.entries.len()
            invariant
                self.wf(),
                i <= self.entries.len(),
                forall|j: int| 0 <= j < i ==> self.buffers()[j].0 != stream_id,
            decreases self.entries.len() - i,
        {
            if self.entries[i].0 == stream_id {
                proof {
                    lemma_stream_index_unique(self.buffers(), stream_id, i as int);
                }
                return Some(i);
            }
            i += 1;
        }
        None
    }

    /// Add samples to the buffer for a stream id, creating it if absent.
    /// Sample order within the buffer follows the order of appends.
    pub fn append(&mut self, stream_id: u32, samples: &Vec<i16>)
        requires
            old(self).wf(),
        ensures
            final(self).wf(),
            final(self).buffers() == store_append(old(self).buffers(), stream_id, samples@),
    {
        let ghost orig = self.buffers();
        match self.find(stream_id) {
            Some(idx) => {
                let ghost gi = idx as int;
                let mut pair = self.entries.remove(idx);
                let mut extra = copy_samples(samples);
                pair.1.append(&mut extra);
                self.entries.insert(idx, pair);
                proof {
                    assert(self.buffers() =~= orig.update(gi, (stream_id, orig[gi].1 + samples@)));
                    assert(orig[gi].0 == stream_id);
                    assert forall|i: int, j: int|
                        0 <= i < j < self.buffers().len() implies self.buffers()[i].0
                        != self.buffers()[j].0 by {
                        assert(self.buffers()[i].0 == orig[i].0);
                        assert(self.buffers()[j].0 == orig[j].0);
                    }
                }
            },
            None => {
                let buf = copy_samples(samples);
                self.entries.push((stream_id, buf));
                proof {
                    assert(self.buffers() =~= orig.push((stream_id, samples@)));
                    lemma_push_distinct(orig, stream_id, samples@);
                }
            },
        }
    }

    /// Make sure a (possibly empty) buffer exists for the stream id; a first
    /// identity observation for a stream id goes through here.
    pub fn ensure_entry(&mut self, stream_id: u32)
        requires
            old(self).wf(),
        ensures
            final(self).wf(),
            final(self).buffers() == (if has_stream(old(self).buffers(), stream_id) {
                old(self).buffers()
            } else {
                old(self).buffers().push((stream_id, Seq::<i16>::empty()))
            }),
            has_stream(final(self).buffers(), stream_id),
    {
        let ghost orig = self.buffers();
        match self.find(stream_id) {
            Some(idx) => {},
            None => {
                let buf: Vec<i16> = Vec::new();
                self.entries.push((stream_id, buf));
                proof {
                    assert(self.buffers() =~= orig.push((stream_id, Seq::<i16>::empty())));
                    lemma_push_distinct(orig, stream_id, Seq::<i16>::empty());
                    lemma_stream_index_unique(self.buffers(), stream_id, orig.len() as int);
                }
            },
        }
    }

    /// Atomically remove and return all samples buffered for a stream id,
    /// resetting the buffer to empty; an absent buffer yields an empty
    /// sequence. This is the turn boundary for that speaker.
    pub fn drain(&mut self, stream_id: u32) -> (samples: Vec<i16>)
        requires
            old(self).wf(),
        ensures
            final(self).wf(),
            samples@ == stream_contents(old(self).buffers(), stream_id),
            final(self).buffers() == store_drain(old(self).buffers(), stream_id),
    {
        let ghost orig = self.buffers();
        match self.find(stream_id) {
            Some(idx) => {
                let ghost gi = idx as int;
                let pair = self.entries.remove(idx);
                let empty_buf: Vec<i16> = Vec::new();
                self.entries.insert(idx, (stream_id, empty_buf));
                proof {
                    assert(self.buffers() =~= orig.update(gi, (stream_id, Seq::<i16>::empty())));
                    assert(orig[gi].0 == stream_id);
                    assert forall|i: int, j: int|
                        0 <= i < j < self.buffers().len() implies self.buffers()[i].0
                        != self.buffers()[j].0 by {
                        assert(self.buffers()[i].0 == orig[i].0);
                        assert(self.buffers()[j].0 == orig[j].0);
                    }
                }
                pair.1
            },
            None => {
                let samples: Vec<i16> = Vec::new();
                proof {
                    assert(samples@ =~= stream_contents(orig, stream_id));
                }
                samples
            },
        }
    }

    /// Whether a buffer (possibly empty) exists for the stream id.
    pub fn has_buffer(&self, stream_id: u32) -> (b: bool)
        requires
            self.wf(),
        ensures
            b == has_stream(self.buffers(), stream_id),
    {
        match self.find(stream_id) {
            Some(idx) => true,
            None => false,
        }
    }

    /// How many samples a stream id currently holds.
    pub fn buffered_len(&self, stream_id: u32) -> (n: usize)
        requires
            self.wf(),
        ensures
            n == stream_contents(self.buffers(), stream_id).len(),
    {
        match self.find(stream_id) {
            Some(idx) => self.entries[idx].1.len(),
            None => 0,
        }
    }

    /// Drain every buffer at once: return the non-empty buffers, in store
    /// order, and reset all of them to empty. This is the flush-all step.
    pub fn flush_nonempty(&mut self) -> (flushed: Vec<(u32, Vec<i16>)>)
        requires
            old(self).wf(),
        ensures
            final(self).wf(),
            deep(flushed@) == nonempty_entries(old(self).buffers()),
            final(self).buffers() == all_drained(old(self).buffers()),
    {
        let ghost orig = self.buffers();
        let mut flushed: Vec<(u32, Vec<i16>)> = Vec::new();
        proof {
            assert(deep(flushed@) =~= nonempty_entries(orig.take(0)));
        }
        let mut i: usize = 0;
        while i < self.entries.len()
            invariant
                i <= self.entries.len(),
                self.entries@.len() == orig.len(),
                self.buffers() =~= Seq::new(
                    orig.len(),
                    |k: int|
                        if k < i {
                            (orig[k].0, Seq::<i16>::empty())
                        } else {
                            orig[k]
                        },
                ),
                deep(flushed@) == nonempty_entries(orig.take(i as int)),
            decreases self.entries.len() - i,
        {
            let ghost gi = i as int;
            let ghost pre = self.buffers();
            let ghost pre_flushed = deep(flushed@);
            if self.entries[i].1.len() > 0 {
                let pair = self.entries.remove(i);
                let empty_buf: Vec<i16> = Vec::new();
                let id = pair.0;
                self.entries.insert(i, (id, empty_buf));
                flushed.push(pair);
                proof {
                    assert(pre[gi] == orig[gi]);
                    assert(self.buffers() =~= pre.update(gi, (orig[gi].0, Seq::<i16>::empty())));
                    assert(deep(flushed@) =~= pre_flushed.push(orig[gi]));
                }
            } else {
                proof {
                    assert(self.buffers()[gi] == orig[gi]);
                    assert(orig[gi].1 == self.entries@[gi].1@);
                    assert(orig[gi].1.len() == 0);
                    assert(orig[gi].1 =~= Seq::<i16>::empty());
                }
            }
            proof {
                assert(orig.take(gi + 1).drop_last() =~= orig.take(gi));
                assert(orig.take(gi + 1).last() == orig[gi]);
                assert(self.buffers() =~= Seq::new(
                    orig.len(),
                    |k: int|
                        if k < gi + 1 {
                            (orig[k].0, Seq::<i16>::empty())
                        } else {
                            orig[k]
                        },
                ));
            }
            i += 1;
        }
        proof {
            assert(orig.take(orig.len() as int) =~= orig);
            assert(self.buffers() =~= all_drained(orig));
            assert forall|a: int, b: int|
                0 <= a < b < self.buffers().len() implies self.buffers()[a].0
                != self.buffers()[b].0 by {
                assert(self.buffers()[a].0 == orig[a].0);
                assert(self.buffers()[b].0 == orig[b].0);
            }
        }
        flushed
    }
}

/// Copy a frame of samples into an owned buffer.
fn copy_samples(samples: &Vec<i16>) -> (v: Vec<i16>)
    ensures
        v@ == samples@,
{
    let mut v: Vec<i16> = Vec::new();
    let mut j: usize = 0;
    while j < samples.len()
        invariant
            j <= samples.len(),
            v@ == samples@.take(j as int),
        decreases samples.len() - j,
    {
        let x = samples[j];
        v.push(x);
        proof {
            assert(samples@.take(j + 1) =~= samples@.take(j as int).push(samples@[j as int]));
        }
        j += 1;
    }
    proof {
        assert(samples@.take(samples@.len() as int) =~= samples@);
    }
    v
}

} // verus!
