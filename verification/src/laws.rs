use crate::defaults::{
    app_submenu, default_labels, default_menu, has_submenu_labels, help_submenu,
};
use crate::dispatch::{url_for, HELP_URL};
use crate::menu::Menu;
use crate::platform::Platform;
use crate::tree::MenuTree;
use vstd::prelude::*;

verus! {

/// The top level of each platform's menu bar holds submenus only, and their
/// labels are those of [`default_labels`], in that order: the application's
/// name, File, Edit, Window, Help on macOS; Edit, Window, Help on Windows;
/// none on Linux.
pub proof fn lemma_default_menu_labels(platform: Platform, app_name: Seq<char>)
    ensures
        has_submenu_labels(default_menu(platform, app_name), default_labels(platform, app_name)),
{
}

/// Building is deterministic: two menus built for the same platform and the
/// same application name are the same tree.
pub proof fn lemma_build_menu_deterministic(
    first: Menu,
    second: Menu,
    platform: Platform,
    app_name: Seq<char>,
)
    requires
        first@ == default_menu(platform, app_name),
        second@ == default_menu(platform, app_name),
    ensures
        first@ == second@,
{
}

/// On Linux the menu bar is empty, whatever the application is called.
pub proof fn lemma_linux_menu_is_empty(app_name: Seq<char>)
    ensures
        default_menu(Platform::Linux, app_name) == Seq::<MenuTree>::empty(),
{
}

/// On macOS the menu bar opens with the submenu named after the application,
/// which has nine entries.
pub proof fn lemma_macos_menu_opens_with_app_submenu(app_name: Seq<char>)
    ensures
        default_menu(Platform::MacOs, app_name)[0] == app_submenu(app_name),
        app_submenu(app_name)->Submenu_label == app_name,
        app_submenu(app_name)->Submenu_children.len() == 9,
{
}

/// The entry of the Help submenu is one that the dispatcher answers: choosing
/// it opens the help pages.
pub proof fn lemma_help_entry_opens_help_pages()
    ensures
        help_submenu()->Submenu_children.len() == 1,
        help_submenu()->Submenu_children[0] is CustomCommand,
        url_for(help_submenu()->Submenu_children[0]->id) == Some(HELP_URL@),
{
}

/// Choosing the entry `get_help` opens one address, that of the help pages.
pub proof fn lemma_help_item_opens_help_url()
    ensures
        url_for("get_help"@) == Some("https://padloc.app/help/"@),
{
}

/// Choosing any entry but `get_help` opens nothing.
pub proof fn lemma_other_items_open_nothing(item_id: Seq<char>)
    requires
        item_id != "get_help"@,
    ensures
        url_for(item_id) is None,
{
}

} // verus!
