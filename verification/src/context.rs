//! The conversation context: the accumulated ordered transcript of turns.
//!
//! One context serves the whole process, across rooms; it is the working
//! memory of text generation. Concurrent turn pipelines must serialize their
//! access to it: a turn reads the context and appends its (input, output)
//! pair as one atomic step, under exclusive access, and a turn whose
//! generation fails appends nothing. The owner of the lock lives outside the
//! library; the library supplies the atomic read and append operations and
//! proves what a sequence of them leaves behind.

use vstd::prelude::*;

verus! {

/// Who a transcript entry speaks for.
#[derive(Clone, Copy, PartialEq, Eq, Structural, Debug)]
pub enum Role {
    /// The fixed system prompt the context opens with.
    Developer,
    /// A participant's transcribed turn.
    User,
    /// The companion's generated response.
    Assistant,
}

/// One transcript entry.
pub struct ContextEntry {
    pub role: Role,
    pub text: String,
}

/// Mathematical view of a list of entries.
pub open spec fn entries_view(entries: Seq<ContextEntry>) -> Seq<(Role, Seq<char>)> {
    Seq::new(entries.len(), |i: int| (entries[i].role, entries[i].text@))
}

/// The pair of transcript entries one completed turn appends.
pub open spec fn exchange(input: Seq<char>, output: Seq<char>) -> Seq<(Role, Seq<char>)> {
    seq![(Role::User, input), (Role::Assistant, output)]
}

impl ContextEntry {
    /// A copy of the entry with the same role and text.
    pub fn duplicate(&self) -> (r: ContextEntry)
        ensures
            r.role == self.role,
            r.text@ == self.text@,
    {
        ContextEntry { role: self.role, text: self.text.clone() }
    }
}

/// The process-wide conversation context.
pub struct ConversationContext {
    entries: Vec<ContextEntry>,
}

impl ConversationContext {
    /// The transcript so far, oldest first.
    pub closed spec fn transcript(self) -> Seq<(Role, Seq<char>)> {
        entries_view(self.entries@)
    }

    /// A fresh context holding only the system prompt.
    pub fn new(prompt: String) -> (c: ConversationContext)
        ensures
            c.transcript() == seq![(Role::Developer, prompt@)],
    {
        let mut entries: Vec<ContextEntry> = Vec::new();
        entries.push(ContextEntry { role: Role::Developer, text: prompt });
        let c = ConversationContext { entries };
        proof {
            assert(c.transcript() =~= seq![(Role::Developer, c.entries@[0].text@)]);
        }
        c
    }

    /// What text generation sees for a turn: the transcript so far with the
    /// turn's input appended as a user entry. The context itself is only
    /// read; it gains the turn's pair only when the turn completes.
    pub fn messages_with(&self, input: &String) -> (msgs: Vec<ContextEntry>)
        ensures
            entries_view(msgs@) == self.transcript().push((Role::User, input@)),
    {
        let mut msgs: Vec<ContextEntry> = Vec::new();
        let mut i: usize = 0;
        while i < self.entries.len()
            invariant
                i <= self.entries.len(),
                entries_view(msgs@) == self.transcript().take(i as int),
            decreases self.entries.len() - i,
        {
            let ghost pre = entries_view(msgs@);
            let entry = self.entries[i].duplicate();
            msgs.push(entry);
            proof {
                assert(entries_view(msgs@) =~= pre.push(self.transcript()[i as int]));
                assert(self.transcript().take(i + 1) =~= self.transcript().take(i as int).push(
                    self.transcript()[i as int],
                ));
            }
            i += 1;
        }
        proof {
            assert(self.transcript().take(self.entries@.len() as int) =~= self.transcript());
        }
        let ghost pre = entries_view(msgs@);
        msgs.push(ContextEntry { role: Role::User, text: input.clone() });
        proof {
            assert(entries_view(msgs@) =~= pre.push((Role::User, input@)));
        }
        msgs
    }

    /// The atomic context mutation of one completed turn: append the turn's
    /// transcribed input as a user entry and the generated output as an
    /// assistant entry, in that order, as one step. A failed turn never
    /// calls this, so it leaves the context unmodified.
    pub fn record_exchange(&mut self, input: String, output: String)
        ensures
            final(self).transcript() == old(self).transcript() + exchange(input@, output@),
    {
        let ghost pre = self.transcript();
        let ghost input_chars = input@;
        self.entries.push(ContextEntry { role: Role::User, text: input });
        proof {
            assert(self.transcript() =~= pre.push((Role::User, input_chars)));
        }
        let ghost mid = self.transcript();
        self.entries.push(ContextEntry { role: Role::Assistant, text: output });
        proof {
            assert(self.transcript() =~= mid.push((Role::Assistant, output@)));
            assert(self.transcript() =~= pre + exchange(input_chars, output@));
        }
    }

    /// How many entries the transcript holds.
    pub fn len(&self) -> (n: usize)
        ensures
            n == self.transcript().len(),
    {
        self.entries.len()
    }

    /// The role and text of one transcript entry.
    pub fn entry_at(&self, i: usize) -> (r: (Role, String))
        requires
            i < self.transcript().len(),
        ensures
            (r.0, r.1@) == self.transcript()[i as int],
    {
        let e = self.entries[i].duplicate();
        (e.role, e.text)
    }
}

/// Context serialization: two turns that both reach the context-mutation
/// step are admitted in some total order, and each appends its pair as one
/// atomic step. Whatever that order, the transcript afterwards holds the
/// prior context untouched, then the first turn's full pair, then the second
/// turn's full pair — two contiguous exchanges, never an interleaving or a
/// partial entry.
pub proof fn lemma_exchanges_serialize(
    base: Seq<(Role, Seq<char>)>,
    in1: Seq<char>,
    out1: Seq<char>,
    in2: Seq<char>,
    out2: Seq<char>,
)
    ensures
        ({
            let after = base + exchange(in1, out1) + exchange(in2, out2);
            &&& after.len() == base.len() + 4
            &&& after.take(base.len() as int) == base
            &&& after[base.len() as int] == (Role::User, in1)
            &&& after[base.len() as int + 1] == (Role::Assistant, out1)
            &&& after[base.len() as int + 2] == (Role::User, in2)
            &&& after[base.len() as int + 3] == (Role::Assistant, out2)
        }),
{
    let after = base + exchange(in1, out1) + exchange(in2, out2);
    assert(after.take(base.len() as int) =~= base);
}

} // verus!
