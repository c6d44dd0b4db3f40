use vstd::prelude::*;
use vstd::utf8::{encode_utf8, encode_utf8_decode_utf8};

verus! {

/// The identifier of the menu entry that asks for help.
pub const HELP_ITEM_ID: &'static str = "get_help";

/// The address of the help pages.
pub const HELP_URL: &'static str = "https://padloc.app/help/";

/// What the application does in answer to a chosen menu entry.
#[derive(Debug, PartialEq, Eq)]
pub enum MenuAction {
    /// Open `url` once, with whatever the system opens addresses with.
    OpenUrl { url: String },
    /// Do nothing.
    Ignore,
}

impl MenuAction {
    /// The address that the action opens, if it opens one.
    pub open spec fn opened_url(self) -> Option<Seq<char>> {
        match self {
            MenuAction::OpenUrl { url } => Some(url@),
            MenuAction::Ignore => None,
        }
    }
}

/// The address to open when the entry `item_id` is chosen: that of the help
/// pages for the help entry, none for every other identifier.
pub open spec fn url_for(item_id: Seq<char>) -> Option<Seq<char>> {
    if item_id == HELP_ITEM_ID@ {
        Some(HELP_URL@)
    } else {
        None
    }
}

/// Whether two texts hold the same characters.
fn same_text(left: &str, right: &str) -> (same: bool)
    ensures
        same == (left@ == right@),
{
    let a = left.as_bytes();
    let b = right.as_bytes();
    proof {
        encode_utf8_decode_utf8(left@);
        encode_utf8_decode_utf8(right@);
    }
    if a.len() != b.len() {
        return false;
    }
    let mut i: usize = 0;
    while i < a.len()
        invariant
            i <= a.len(),
            a.len() == b.len(),
            a@ == encode_utf8(left@),
            b@ == encode_utf8(right@),
            forall|k: int| 0 <= k < i ==> a@[k] == b@[k],
        decreases a.len() - i,
    {
        if a[i] != b[i] {
            return false;
        }
        i += 1;
    }
    assert(a@ =~= b@);
    true
}

/// Answers the choice of the menu entry `item_id`.
pub fn on_menu_event(item_id: &str) -> (action: MenuAction)
    ensures
        action.opened_url() == url_for(item_id@),
{
    if same_text(item_id, HELP_ITEM_ID) {
        MenuAction::OpenUrl { url: HELP_URL.to_owned() }
    } else {
        MenuAction::Ignore
    }
}

/// How the application goes on after it has tried to open an address.
#[derive(Clone, Copy, Debug, PartialEq, Eq, Structural)]
pub enum Continuation {
    /// Go on running.
    Proceed,
    /// End the process at once.
    Abort,
}

/// What follows an attempt to open an address: the application goes on after
/// a success, and a failure ends it.
pub open spec fn after_open(opened: bool) -> Continuation {
    if opened {
        Continuation::Proceed
    } else {
        Continuation::Abort
    }
}

/// Decides how to go on once the system has reported whether it `opened` the
/// address of an [`MenuAction::OpenUrl`].
pub fn on_open_result(opened: bool) -> (next: Continuation)
    ensures
        next == after_open(opened),
{
    if opened {
        Continuation::Proceed
    } else {
        Continuation::Abort
    }
}

} // verus!
