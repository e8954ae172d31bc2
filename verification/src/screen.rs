//! What the screen is to show of a state: which panels, and the texts that
//! are put together from an instance's fields.

use vstd::prelude::*;
use vstd::string::StringExecFns;
use crate::instance::Instance;
use crate::instance::InstanceView;

verus! {

/// The arrangement of the panels between the header and the footer.
#[derive(Debug, Clone, Copy, PartialEq, Eq, Structural)]
pub enum Screen {
    /// The instance list beside the detail panel.
    Details,
    /// The search bar above the instance list.
    Search,
    /// The instance list alone.
    List,
}

/// The arrangement for a state: the detail panel, where it is switched on,
/// takes the place of the search bar.
pub open spec fn screen_of(details_mode: bool, search_mode: bool) -> Screen {
    if details_mode {
        Screen::Details
    } else if search_mode {
        Screen::Search
    } else {
        Screen::List
    }
}

/// The message shown in place of an empty instance list.
pub open spec fn empty_list_text(search_mode: bool) -> Seq<char> {
    if search_mode {
        "No instances match your search"@
    } else {
        "No Minecraft instances found"@
    }
}

/// The line below an instance's title: its play time and the time since
/// its last launch, as far as they are known, or nothing if neither is.
pub open spec fn summary_text(inst: InstanceView) -> Option<Seq<char>> {
    match (inst.time_played, inst.last_played) {
        (Some(played), Some(launched)) => Some(
            "  Playtime: "@ + played + " • Last played: "@ + launched,
        ),
        (Some(played), None) => Some("  Playtime: "@ + played),
        (None, Some(launched)) => Some("  Last played: "@ + launched),
        (None, None) => None,
    }
}

/// The arrangement of the panels for a state.
pub fn screen(details_mode: bool, search_mode: bool) -> (r: Screen)
    ensures
        r == screen_of(details_mode, search_mode),
{
    if details_mode {
        Screen::Details
    } else if search_mode {
        Screen::Search
    } else {
        Screen::List
    }
}

/// The message shown in place of an empty instance list.
pub fn empty_list_message(search_mode: bool) -> (r: &'static str)
    ensures
        r@ == empty_list_text(search_mode),
{
    if search_mode {
        "No instances match your search"
    } else {
        "No Minecraft instances found"
    }
}

/// The line below an instance's title.
pub fn summary_line(inst: &Instance) -> (r: Option<String>)
    ensures
        match r {
            Some(line) => Some(line@),
            None => None,
        } == summary_text(inst@),
{
    match (&inst.time_played, &inst.last_played) {
        (Some(played), Some(launched)) => {
            let mut line = "  Playtime: ".to_owned();
            line.append(played.as_str());
            line.append(" • Last played: ");
            line.append(launched.as_str());
            Some(line)
        },
        (Some(played), None) => {
            let mut line = "  Playtime: ".to_owned();
            line.append(played.as_str());
            Some(line)
        },
        (None, Some(launched)) => {
            let mut line = "  Last played: ".to_owned();
            line.append(launched.as_str());
            Some(line)
        },
        (None, None) => None,
    }
}

} // verus!
