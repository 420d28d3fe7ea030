//! The text of the status line, which follows the page view's load events.

use vstd::prelude::*;
use vstd::string::*;
use crate::text::address_view;

verus! {

/// A step in the loading of a page, as the page view reports it.
#[derive(Clone, Copy, Debug, PartialEq, Eq, Structural)]
pub enum LoadEvent {
    Started,
    Redirected,
    Committed,
    Finished,
    /// A step that this shell does not know.
    Other,
}

/// The status line while a page loads.
pub open spec fn loading_text() -> Seq<char> {
    "Loading..."@
}

/// The status line once a page has loaded: it names the address on display,
/// where the page view knows one.
pub open spec fn loaded_text(current: Option<Seq<char>>) -> Seq<char> {
    match current {
        Some(address) => "Loaded: "@ + address,
        None => "Loaded"@,
    }
}

/// The new status line after a load event, if the event changes it.
pub open spec fn status_after(event: LoadEvent, current: Option<Seq<char>>) -> Option<Seq<char>> {
    match event {
        LoadEvent::Started => Some(loading_text()),
        LoadEvent::Finished => Some(loaded_text(current)),
        _ => None,
    }
}

/// The status line of a new window.
pub fn initial_status() -> (text: String)
    ensures
        text@ == "Ready"@,
{
    String::from_str("Ready")
}

/// The status line once a load has started.
pub fn on_load_started() -> (text: String)
    ensures
        text@ == loading_text(),
{
    String::from_str("Loading...")
}

/// The status line once a load has finished, with the address on display if
/// the page view has one.
pub fn on_load_finished(current: Option<&str>) -> (text: String)
    ensures
        text@ == loaded_text(address_view(current)),
{
    match current {
        Some(address) => String::from_str("Loaded: ").concat(address),
        None => String::from_str("Loaded"),
    }
}

/// The new status line after `event`; `None` where the event leaves the line
/// as it is.
pub fn on_load_changed(event: LoadEvent, current: Option<&str>) -> (text: Option<String>)
    ensures
        text is Some <==> status_after(event, address_view(current)) is Some,
        text matches Some(t) ==> Some(t@) == status_after(event, address_view(current)),
{
    match event {
        LoadEvent::Started => Some(on_load_started()),
        LoadEvent::Finished => Some(on_load_finished(current)),
        _ => None,
    }
}

} // verus!
