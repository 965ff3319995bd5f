//! A small ring of recent diagnostic messages.

use std::collections::VecDeque;
use vstd::prelude::*;
use vstd::string::*;

use crate::song::views;

verus! {

/// How many messages a [`Debugger`] keeps before the oldest is dropped.
pub const MAX_MESSAGES: usize = 10;

/// The last `limit` items of `items`, or all of them if there are fewer.
pub open spec fn keep_last<T>(items: Seq<T>, limit: nat) -> Seq<T> {
    if items.len() <= limit {
        items
    } else {
        items.subrange(items.len() - limit, items.len() as int)
    }
}

/// The log after `message` is recorded: it goes to the end, and only the
/// most recent [`MAX_MESSAGES`] stay.
pub open spec fn log_push(log: Seq<Seq<char>>, message: Seq<char>) -> Seq<Seq<char>> {
    keep_last(log.push(message), MAX_MESSAGES as nat)
}

/// The messages of `log` as one text, each followed by a line break.
pub open spec fn log_text(log: Seq<Seq<char>>) -> Seq<char>
    decreases log.len(),
{
    if log.len() == 0 {
        Seq::empty()
    } else {
        log_text(log.drop_last()) + log.last() + seq!['\n']
    }
}

/// Keeps the most recent diagnostic messages, oldest first.
pub struct Debugger {
    messages: VecDeque<String>,
}

impl View for Debugger {
    type V = Seq<Seq<char>>;

    closed spec fn view(&self) -> Seq<Seq<char>> {
        views(self.messages@)
    }
}

impl Debugger {
    /// Every log is within the limit.
    #[verifier::type_invariant]
    pub open spec fn bounded(self) -> bool {
        self@.len() <= MAX_MESSAGES
    }

    /// An empty log.
    pub fn new() -> (debugger: Debugger)
        ensures
            debugger@ == Seq::<Seq<char>>::empty(),
    {
        Debugger { messages: VecDeque::new() }
    }

    /// Records `message` as the newest entry; once the log is full the oldest
    /// entry makes room for it.
    pub fn print(&mut self, message: &str)
        ensures
            final(self)@ == log_push(old(self)@, message@),
            final(self)@.len() <= MAX_MESSAGES,
    {
        broadcast use vstd::string::group_string_axioms;
        proof {
            use_type_invariant(&*self);
        }
        let ghost before = self.messages@;
        // The queue leaves `self` for as long as it may be over the limit.
        let mut messages = VecDeque::new();
        std::mem::swap(&mut self.messages, &mut messages);
        messages.push_back(message.to_string());
        if messages.len() > MAX_MESSAGES {
            messages.pop_front();
        }
        self.messages = messages;
        assert(self@ =~= log_push(views(before), message@));
    }

    /// The messages that are kept, oldest first.
    pub fn messages(&self) -> (messages: &VecDeque<String>)
        ensures
            views(messages@) == self@,
            messages@.len() <= MAX_MESSAGES,
    {
        proof {
            use_type_invariant(self);
        }
        &self.messages
    }

    /// The whole log as one text, one message per line.
    pub fn text(&self) -> (text: String)
        ensures
            text@ == log_text(self@),
    {
        let mut text = String::new();
        let mut i: usize = 0;
        while i < self.messages.len()
            invariant
                i <= self.messages@.len(),
                text@ == log_text(self@.subrange(0, i as int)),
            decreases self.messages@.len() - i,
        {
            text.append(self.messages[i].as_str());
            text.append("\n");
            proof {
                reveal_strlit("\n");
                let shown = self@.subrange(0, i + 1);
                assert(shown.drop_last() =~= self@.subrange(0, i as int));
            }
            i += 1;
        }
        assert(self@.subrange(0, i as int) =~= self@);
        text
    }
}

} // verus!
