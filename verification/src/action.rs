//! What the player does with a segment.

use vstd::prelude::*;
use crate::text::str_eq;

verus! {

/// The kind of action a segment asks for.
#[derive(Debug, Copy, Clone, PartialEq, Eq, PartialOrd, Ord, Hash, Structural)]
pub enum Action {
    /// Playback jumps past the segment.
    Skip,
    /// Audio is muted while inside the segment.
    Mute,
    /// The whole video carries the segment's category.
    Full,
    /// A single point in time the user may jump to.
    Poi,
}

impl Action {
    /// The name of the action on the wire.
    pub open spec fn name(self) -> Seq<char> {
        match self {
            Action::Skip => "skip"@,
            Action::Mute => "mute"@,
            Action::Full => "full"@,
            Action::Poi => "poi"@,
        }
    }

    /// The action that a wire name stands for, if any.
    pub open spec fn named(s: Seq<char>) -> Option<Action> {
        if s == "skip"@ {
            Some(Action::Skip)
        } else if s == "mute"@ {
            Some(Action::Mute)
        } else if s == "full"@ {
            Some(Action::Full)
        } else if s == "poi"@ {
            Some(Action::Poi)
        } else {
            None
        }
    }

    /// The name of the action on the wire.
    pub fn as_str(&self) -> (s: &'static str)
        ensures
            s@ == self.name(),
    {
        match self {
            Action::Skip => "skip",
            Action::Mute => "mute",
            Action::Full => "full",
            Action::Poi => "poi",
        }
    }

    /// Reads an action from its wire name; any other text gives `None`.
    pub fn parse(s: &str) -> (action: Option<Action>)
        ensures
            action == Action::named(s@),
    {
        if str_eq(s, "skip") {
            Some(Action::Skip)
        } else if str_eq(s, "mute") {
            Some(Action::Mute)
        } else if str_eq(s, "full") {
            Some(Action::Full)
        } else if str_eq(s, "poi") {
            Some(Action::Poi)
        } else {
            None
        }
    }

    /// Every action is read back from its own name.
    pub proof fn lemma_name_round_trip(action: Action)
        ensures
            Action::named(action.name()) == Some(action),
    {
        reveal_strlit("skip");
        reveal_strlit("mute");
        reveal_strlit("full");
        reveal_strlit("poi");
        assert("skip"@[0] == 's');
        assert("mute"@[0] == 'm');
        assert("full"@[0] == 'f');
        assert("poi"@[0] == 'p');
    }
}

} // verus!
