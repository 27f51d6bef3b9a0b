//! The conversation state: an ordered sequence of messages. Insertion
//! order is significant — it is sent verbatim to the model and defines
//! the conversational context. Messages are only ever appended; none is
//! removed or reordered, except by the explicit prompt reset.

use vstd::prelude::*;

use crate::message::Message;
use crate::message::MessageView;
use crate::message::Role;
use crate::message::messages_view;

verus! {

/// The ordered conversation history.
#[derive(Debug)]
pub struct Transcript {
    messages: Vec<Message>,
}

impl View for Transcript {
    type V = Seq<MessageView>;

    closed spec fn view(&self) -> Seq<MessageView> {
        messages_view(self.messages@)
    }
}

impl Transcript {
    /// An empty transcript.
    pub fn new() -> (t: Transcript)
        ensures
            t@ == Seq::<MessageView>::empty(),
    {
        let t = Transcript { messages: Vec::new() };
        proof {
            assert(t@ =~= Seq::<MessageView>::empty());
        }
        t
    }

    /// A transcript seeded with a single system message: the persona.
    pub fn seeded(prompt_text: &str) -> (t: Transcript)
        ensures
            t@ == seq![MessageView { role: Role::System, content: prompt_text@ }],
    {
        let mut t = Transcript::new();
        t.push(Message::new(Role::System, prompt_text));
        proof {
            assert(t@ =~= seq![MessageView { role: Role::System, content: prompt_text@ }]);
        }
        t
    }

    /// Append one message at the end; nothing else moves.
    pub fn push(&mut self, m: Message)
        ensures
            final(self)@ == old(self)@.push(m@),
    {
        let ghost prior = self.messages@;
        self.messages.push(m);
        proof {
            assert(self@ =~= messages_view(prior).push(self.messages@.last()@));
        }
    }

    /// How many messages the transcript holds.
    pub fn len(&self) -> (n: usize)
        ensures
            n == self@.len(),
    {
        self.messages.len()
    }

    /// The message at position `i`.
    pub fn get(&self, i: usize) -> (m: &Message)
        requires
            i < self@.len(),
        ensures
            m@ == self@[i as int],
    {
        &self.messages[i]
    }

    /// A copy of the messages, in order, for building one wire request.
    pub fn to_vec(&self) -> (v: Vec<Message>)
        ensures
            messages_view(v@) == self@,
    {
        let mut v: Vec<Message> = Vec::new();
        let mut i: usize = 0;
        while i < self.messages.len()
            invariant
                i <= self.messages@.len(),
                messages_view(v@) =~= self@.subrange(0, i as int),
            decreases self.messages@.len() - i,
        {
            let ghost prior = v@;
            let m = self.messages[i].clone();
            proof {
                assert(m@ == self@[i as int]);
            }
            v.push(m);
            proof {
                assert(messages_view(prior).len() == prior.len());
                assert(prior.len() == i);
                assert forall|j: int| 0 <= j < v@.len() implies messages_view(v@)[j] == self@[j] by {
                    assert(messages_view(v@)[j] == v@[j]@);
                    if j < i {
                        assert(v@[j] == prior[j]);
                        assert(messages_view(prior)[j] == prior[j]@);
                    }
                }
                assert(messages_view(v@) =~= self@.subrange(0, i + 1));
            }
            i += 1;
        }
        proof {
            assert(messages_view(v@) =~= self@);
        }
        v
    }
}

/// The transcript value after appending `ms`, one message at a time, in
/// order — the shape of any run of `add_message` calls.
pub open spec fn append_messages(t: Seq<MessageView>, ms: Seq<MessageView>) -> Seq<MessageView>
    decreases ms.len(),
{
    if ms.len() == 0 {
        t
    } else {
        append_messages(t.push(ms[0]), ms.drop_first())
    }
}

/// Appending is append-only: any number of single appends, in call
/// order, is exactly concatenation — the transcript grows by the number
/// of appends, every prior message keeps its place, and the new ones
/// follow in the order they were given.
pub proof fn lemma_append_only(t: Seq<MessageView>, ms: Seq<MessageView>)
    ensures
        append_messages(t, ms) == t + ms,
        append_messages(t, ms).len() == t.len() + ms.len(),
    decreases ms.len(),
{
    if ms.len() == 0 {
        assert(t + ms =~= t);
    } else {
        lemma_append_only(t.push(ms[0]), ms.drop_first());
        assert(t.push(ms[0]) + ms.drop_first() =~= t + ms);
    }
}

} // verus!
