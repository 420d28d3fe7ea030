//! The navigation timeline of one window as a mathematical value, with the
//! transitions that the controller carries out on it.

use vstd::prelude::*;
use crate::keys::Shortcut;
use crate::text::{is_blank, resolved};

verus! {

/// The timeline: the locations visited, oldest first, and the position of the
/// one on display.
pub struct Timeline {
    pub entries: Seq<Seq<char>>,
    pub current: nat,
}

impl Timeline {
    /// The position points at an entry, or is zero while there is none.
    pub open spec fn wf(self) -> bool {
        if self.entries.len() == 0 {
            self.current == 0
        } else {
            self.current < self.entries.len()
        }
    }

    /// An older entry exists to go back to.
    pub open spec fn can_go_back(self) -> bool {
        self.current > 0
    }

    /// A newer entry exists to go forward to.
    pub open spec fn can_go_forward(self) -> bool {
        self.current + 1 < self.entries.len()
    }

    /// The position is that of the newest entry.
    pub open spec fn at_tip(self) -> bool {
        self.current + 1 == self.entries.len()
    }

    /// The entries up to and including the one on display.
    pub open spec fn kept(self) -> Seq<Seq<char>> {
        if self.entries.len() == 0 {
            Seq::empty()
        } else {
            self.entries.take(self.current + 1 as int)
        }
    }

    /// The timeline with nothing in it.
    pub open spec fn empty() -> Timeline {
        Timeline { entries: Seq::empty(), current: 0 }
    }

    /// The timeline once `home` was appended and put on display as the first page.
    pub open spec fn opened(self, home: Seq<char>) -> Timeline {
        Timeline { entries: self.entries.push(home), current: 0 }
    }

    /// The timeline after the user confirmed `input` in the address field:
    /// unchanged for blank input; else the entries after the current one are
    /// dropped, the resolved address is appended and becomes the current one.
    pub open spec fn navigate(self, input: Seq<char>) -> Timeline {
        if is_blank(input) {
            self
        } else {
            Timeline { entries: self.kept().push(resolved(input)), current: self.kept().len() }
        }
    }

    /// The timeline after a step back: inert at the oldest entry.
    pub open spec fn go_back(self) -> Timeline {
        if self.can_go_back() {
            Timeline { entries: self.entries, current: (self.current - 1) as nat }
        } else {
            self
        }
    }

    /// The timeline after a step forward: inert at the newest entry.
    pub open spec fn go_forward(self) -> Timeline {
        if self.can_go_forward() {
            Timeline { entries: self.entries, current: self.current + 1 }
        } else {
            self
        }
    }

    /// The timeline after a key press that made the chord `shortcut`, or none.
    pub open spec fn after_key(self, shortcut: Option<Shortcut>) -> Timeline {
        match shortcut {
            Some(Shortcut::Back) => self.go_back(),
            Some(Shortcut::Forward) => self.go_forward(),
            _ => self,
        }
    }

    /// The timeline after each of `inputs` was confirmed in turn.
    pub open spec fn navigate_all(self, inputs: Seq<Seq<char>>) -> Timeline
        decreases inputs.len(),
    {
        if inputs.len() == 0 {
            self
        } else {
            self.navigate_all(inputs.drop_last()).navigate(inputs.last())
        }
    }
}

} // verus!
