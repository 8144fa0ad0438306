//! The one notification this application raises.
//!
//! While Fermix is open, a change in how many things need someone is worth
//! saying once. Nothing is raised for the state the window opened on, and
//! nothing is inferred about whether this is a good moment to interrupt.

use vstd::prelude::*;

use crate::copy::Key;

verus! {

/// What one observation asks for.
#[derive(Debug, Clone, Copy, PartialEq, Eq, Structural)]
pub enum Notice {
    /// Raise it: more things need someone than did a moment ago.
    Post,
    /// Take it back: nothing needs anyone now.
    Withdraw,
    /// Say nothing.
    Nothing,
}

/// The count, as this process last saw it.
#[derive(Debug)]
pub struct AttentionNotice {
    seen: Option<usize>,
}

/// The identifier this notification is raised and withdrawn under. One
/// identifier, so a second raise replaces the first rather than stacking.
pub const ATTENTION_ID: &'static str = "attention";

/// What one observation asks for, given what was seen before it.
pub open spec fn notice_for(previous: Option<usize>, count: usize) -> Notice {
    match previous {
        None => Notice::Nothing,
        Some(p) => if p == count {
            Notice::Nothing
        } else if count == 0 {
            Notice::Withdraw
        } else {
            Notice::Post
        },
    }
}

impl AttentionNotice {
    /// The title.
    pub fn title() -> (k: Key)
        ensures
            k == Key::NoticeAttentionTitle,
    {
        Key::NoticeAttentionTitle
    }

    /// The body.
    pub fn body() -> (k: Key)
        ensures
            k == Key::NoticeAttentionBody,
    {
        Key::NoticeAttentionBody
    }

    /// A notice that has seen nothing yet.
    pub fn new() -> (n: Self)
        ensures
            n.seen_value() is None,
    {
        AttentionNotice { seen: None }
    }

    /// What this process last saw.
    pub closed spec fn seen_value(&self) -> Option<usize> {
        self.seen
    }

    /// What this process last saw, as executable code.
    pub fn seen(&self) -> (r: Option<usize>)
        ensures
            r == self.seen_value(),
    {
        self.seen
    }

    /// One observation of how many things need someone.
    ///
    /// The first is recorded and nothing is said about it: the window has just
    /// opened and whatever it found was already true.
    pub fn observe(&mut self, count: usize) -> (r: Notice)
        ensures
            r == notice_for(old(self).seen_value(), count),
            final(self).seen_value() == Some(count),
    {
        let previous = self.seen;
        self.seen = Some(count);
        match previous {
            None => Notice::Nothing,
            Some(p) => {
                if p == count {
                    Notice::Nothing
                } else if count == 0 {
                    Notice::Withdraw
                } else {
                    Notice::Post
                }
            },
        }
    }
}

/// A count observed twice in a row is said at most once: the second
/// observation of the same count asks for nothing.
pub proof fn the_same_count_twice_says_nothing(previous: Option<usize>, count: usize)
    ensures
        notice_for(Some(count), count) == Notice::Nothing,
        notice_for(previous, count) == Notice::Post ==> count > 0,
        notice_for(previous, count) == Notice::Withdraw ==> count == 0,
{
}

} // verus!
