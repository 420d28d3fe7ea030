//! The navigation controller: it owns the history and the current position, and
//! answers each user action with what the window has to load and show.

use vstd::prelude::*;
use vstd::string::*;
use crate::timeline::Timeline;
use crate::keys::{recognize, shortcut_of, Shortcut};
use crate::text::{is_blank, is_blank_text, resolve, resolved};

verus! {

/// The page that a new window opens on.
pub open spec fn home_page() -> Seq<char> {
    "https://web.whatsapp.com"@
}

/// An order to the window: load `address` in the page view and set the two
/// navigation buttons.
#[derive(Debug)]
pub struct Load {
    /// The address handed to the page view.
    pub address: String,
    /// Whether the address field is set to `address` as well.
    pub show_in_field: bool,
    /// Whether the back button can be pressed.
    pub back_enabled: bool,
    /// Whether the forward button can be pressed.
    pub forward_enabled: bool,
}

impl Load {
    /// The order puts the current entry of `t` on display, address field and
    /// buttons included.
    pub open spec fn displays(self, t: Timeline) -> bool {
        &&& t.current < t.entries.len()
        &&& self.address@ == t.entries[t.current as int]
        &&& self.show_in_field
        &&& self.back_enabled == t.can_go_back()
        &&& self.forward_enabled == t.can_go_forward()
    }
}

/// What the window does with a key press.
#[derive(Debug)]
pub struct KeyOutcome {
    /// The press made a chord: it goes no further.
    pub handled: bool,
    /// The address field takes the input focus, with all of its text selected.
    pub focus_address: bool,
    /// The page to load, where the chord moved through the history.
    pub load: Option<Load>,
}

/// The navigation state of one window.
pub struct Browser {
    history: Vec<String>,
    current_index: usize,
}

impl View for Browser {
    type V = Timeline;

    closed spec fn view(&self) -> Timeline {
        Timeline {
            entries: Seq::new(self.history@.len(), |i: int| self.history@[i]@),
            current: self.current_index as nat,
        }
    }
}

impl Browser {
    /// The position points at an entry, or is zero while there is none.
    #[verifier::type_invariant]
    closed spec fn inv(self) -> bool {
        self@.wf()
    }

    /// A controller with nothing in its history yet.
    pub fn new() -> (browser: Browser)
        ensures
            browser@ == Timeline::empty(),
            browser@.wf(),
    {
        let browser = Browser { history: Vec::new(), current_index: 0 };
        assert(browser@.entries =~= Seq::empty());
        browser
    }

    /// Opens the window on the home page: the page is loaded and appended to
    /// the history, and the position goes to the first entry. On a new
    /// controller that entry is the home page.
    pub fn show(&mut self) -> (load: Load)
        ensures
            final(self)@ == old(self)@.opened(home_page()),
            final(self)@.wf(),
            load.address@ == home_page(),
            load.show_in_field,
            !load.back_enabled,
            load.forward_enabled == final(self)@.can_go_forward(),
            old(self)@.entries.len() == 0 ==> load.displays(final(self)@),
    {
        let home = String::from_str("https://web.whatsapp.com");
        // The entries are changed outside the struct, whose invariant then
        // holds at every step.
        let mut entries: Vec<String> = Vec::new();
        self.current_index = 0;
        core::mem::swap(&mut self.history, &mut entries);
        entries.push(home.clone());
        core::mem::swap(&mut self.history, &mut entries);
        assert(self@.entries =~= old(self)@.entries.push(home_page()));
        Load {
            address: home,
            show_in_field: true,
            back_enabled: false,
            forward_enabled: self.history.len() > 1,
        }
    }

    /// The user confirmed `input` in the address field. Blank input is
    /// ignored. Otherwise the resolved address is loaded, the entries after
    /// the current one are dropped, and the address becomes the newest and
    /// current entry; the address field keeps what the user typed.
    pub fn navigate(&mut self, input: &str) -> (load: Option<Load>)
        ensures
            final(self)@.wf(),
            final(self)@ == old(self)@.navigate(input@),
            load is None <==> is_blank(input@),
            load matches Some(l) ==> {
                &&& l.address@ == resolved(input@)
                &&& !l.show_in_field
                &&& l.back_enabled == final(self)@.can_go_back()
                &&& !l.forward_enabled
                &&& final(self)@.at_tip()
            },
    {
        proof {
            use_type_invariant(&*self);
        }
        if is_blank_text(input) {
            return None;
        }
        let address = resolve(input);
        let keep: usize = if self.history.len() > 0 {
            self.current_index + 1
        } else {
            0
        };
        // As in `show`: the entries are changed outside the struct.
        let mut entries: Vec<String> = Vec::new();
        self.current_index = 0;
        core::mem::swap(&mut self.history, &mut entries);
        entries.truncate(keep);
        entries.push(address.clone());
        let last: usize = entries.len() - 1;
        core::mem::swap(&mut self.history, &mut entries);
        self.current_index = last;
        assert(self@.entries =~= old(self)@.kept().push(resolved(input@)));
        Some(
            Load {
                address,
                show_in_field: false,
                back_enabled: self.current_index > 0,
                forward_enabled: false,
            },
        )
    }

    /// One entry back. At the oldest entry, and with an empty history, nothing
    /// changes and nothing is loaded.
    pub fn go_back(&mut self) -> (load: Option<Load>)
        ensures
            final(self)@.wf(),
            final(self)@ == old(self)@.go_back(),
            load is Some <==> old(self)@.can_go_back(),
            load matches Some(l) ==> l.displays(final(self)@),
    {
        proof {
            use_type_invariant(&*self);
        }
        if self.current_index > 0 {
            self.current_index = self.current_index - 1;
            assert(self@.entries =~= old(self)@.entries);
            Some(self.display())
        } else {
            None
        }
    }

    /// One entry forward. At the newest entry, and with an empty history,
    /// nothing changes and nothing is loaded.
    pub fn go_forward(&mut self) -> (load: Option<Load>)
        ensures
            final(self)@.wf(),
            final(self)@ == old(self)@.go_forward(),
            load is Some <==> old(self)@.can_go_forward(),
            load matches Some(l) ==> l.displays(final(self)@),
    {
        proof {
            use_type_invariant(&*self);
        }
        if self.history.len() > 0 && self.current_index < self.history.len() - 1 {
            self.current_index = self.current_index + 1;
            assert(self@.entries =~= old(self)@.entries);
            Some(self.display())
        } else {
            None
        }
    }

    /// A key was pressed in the window. A chord is reported as handled,
    /// whether or not it changed anything; any other press is left to the
    /// focused widget. The chords for back and forward act as `go_back` and
    /// `go_forward` do, whatever the state of the buttons.
    pub fn on_key_press(&mut self, state: u32, keyval: u32) -> (outcome: KeyOutcome)
        ensures
            final(self)@.wf(),
            final(self)@ == old(self)@.after_key(shortcut_of(state, keyval)),
            outcome.handled == shortcut_of(state, keyval).is_some(),
            outcome.focus_address == (shortcut_of(state, keyval) == Some(Shortcut::FocusAddress)),
            outcome.load is Some <==> final(self)@ != old(self)@,
            outcome.load matches Some(l) ==> l.displays(final(self)@),
    {
        proof {
            use_type_invariant(&*self);
        }
        match recognize(state, keyval) {
            Some(Shortcut::FocusAddress) => KeyOutcome {
                handled: true,
                focus_address: true,
                load: None,
            },
            Some(Shortcut::Back) => {
                let load = self.go_back();
                KeyOutcome { handled: true, focus_address: false, load }
            },
            Some(Shortcut::Forward) => {
                let load = self.go_forward();
                KeyOutcome { handled: true, focus_address: false, load }
            },
            None => KeyOutcome { handled: false, focus_address: false, load: None },
        }
    }

    /// The order that puts the current entry on display.
    fn display(&self) -> (load: Load)
        requires
            self@.current < self@.entries.len(),
        ensures
            load.displays(self@),
    {
        Load {
            address: self.history[self.current_index].clone(),
            show_in_field: true,
            back_enabled: self.current_index > 0,
            forward_enabled: self.current_index < self.history.len() - 1,
        }
    }

    /// The number of entries in the history.
    pub fn len(&self) -> (n: usize)
        ensures
            n == self@.entries.len(),
    {
        self.history.len()
    }

    /// The position of the entry on display; zero while the history is empty.
    pub fn current_index(&self) -> (i: usize)
        ensures
            i == self@.current,
    {
        self.current_index
    }

    /// The entry at position `i`, oldest first.
    pub fn entry(&self, i: usize) -> (location: Option<String>)
        ensures
            location is Some <==> i < self@.entries.len(),
            location matches Some(s) ==> s@ == self@.entries[i as int],
    {
        if i < self.history.len() {
            Some(self.history[i].clone())
        } else {
            None
        }
    }

    /// Whether the back button can be pressed.
    pub fn can_go_back(&self) -> (b: bool)
        ensures
            b == self@.can_go_back(),
    {
        self.current_index > 0
    }

    /// Whether the forward button can be pressed.
    pub fn can_go_forward(&self) -> (b: bool)
        ensures
            b == self@.can_go_forward(),
    {
        self.history.len() > 0 && self.current_index < self.history.len() - 1
    }
}

} // verus!
