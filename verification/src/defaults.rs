use crate::dispatch::HELP_ITEM_ID;
use crate::menu::Menu;
use crate::platform::Platform;
use crate::tree::{MenuTree, NativeCommand};
use vstd::prelude::*;

verus! {

/// The submenu named after the application.
pub open spec fn app_submenu(app_name: Seq<char>) -> MenuTree {
    MenuTree::Submenu {
        label: app_name,
        children: seq![
            MenuTree::NativeCommand(NativeCommand::About),
            MenuTree::Separator,
            MenuTree::NativeCommand(NativeCommand::Services),
            MenuTree::Separator,
            MenuTree::NativeCommand(NativeCommand::Hide),
            MenuTree::NativeCommand(NativeCommand::HideOthers),
            MenuTree::NativeCommand(NativeCommand::ShowAll),
            MenuTree::Separator,
            MenuTree::NativeCommand(NativeCommand::Quit),
        ],
    }
}

/// The File submenu.
pub open spec fn file_submenu() -> MenuTree {
    MenuTree::Submenu {
        label: "File"@,
        children: seq![MenuTree::NativeCommand(NativeCommand::CloseWindow)],
    }
}

/// The entries of the Edit submenu. Everywhere but on macOS a dividing line
/// stands before the last entry.
pub open spec fn edit_entries(platform: Platform) -> Seq<MenuTree> {
    if platform == Platform::MacOs {
        seq![
            MenuTree::NativeCommand(NativeCommand::Undo),
            MenuTree::NativeCommand(NativeCommand::Redo),
            MenuTree::Separator,
            MenuTree::NativeCommand(NativeCommand::Cut),
            MenuTree::NativeCommand(NativeCommand::Copy),
            MenuTree::NativeCommand(NativeCommand::Paste),
            MenuTree::NativeCommand(NativeCommand::SelectAll),
        ]
    } else {
        seq![
            MenuTree::NativeCommand(NativeCommand::Undo),
            MenuTree::NativeCommand(NativeCommand::Redo),
            MenuTree::Separator,
            MenuTree::NativeCommand(NativeCommand::Cut),
            MenuTree::NativeCommand(NativeCommand::Copy),
            MenuTree::NativeCommand(NativeCommand::Paste),
            MenuTree::Separator,
            MenuTree::NativeCommand(NativeCommand::SelectAll),
        ]
    }
}

/// The Edit submenu.
pub open spec fn edit_submenu(platform: Platform) -> MenuTree {
    MenuTree::Submenu { label: "Edit"@, children: edit_entries(platform) }
}

/// The View submenu.
pub open spec fn view_submenu() -> MenuTree {
    MenuTree::Submenu {
        label: "View"@,
        children: seq![MenuTree::NativeCommand(NativeCommand::EnterFullScreen)],
    }
}

/// The Window submenu.
pub open spec fn window_submenu() -> MenuTree {
    MenuTree::Submenu {
        label: "Window"@,
        children: seq![
            MenuTree::NativeCommand(NativeCommand::Minimize),
            MenuTree::NativeCommand(NativeCommand::Zoom),
        ],
    }
}

/// The Help submenu: one entry of the application's own, which asks for help.
pub open spec fn help_submenu() -> MenuTree {
    MenuTree::Submenu {
        label: "Help"@,
        children: seq![MenuTree::CustomCommand { id: HELP_ITEM_ID@, label: "Get Help"@ }],
    }
}

/// `tree` alone where it is `included`, nothing where it is not.
pub open spec fn optional(included: bool, tree: MenuTree) -> Seq<MenuTree> {
    if included {
        seq![tree]
    } else {
        Seq::empty()
    }
}

/// Menus that the standard submenus can be appended to. Each method appends
/// its submenu on the platforms that have it and leaves the menu as it is on
/// the others.
pub trait AddDefaultSubmenus: Sized {
    /// The entries of the menu, first to last.
    spec fn entries(&self) -> Seq<MenuTree>;

    /// Appends the submenu named after the application, on macOS only.
    fn add_default_app_submenu_if_macos(self, platform: Platform, app_name: &str) -> (menu: Self)
        ensures
            menu.entries() == self.entries() + optional(
                platform.has_app_submenu(),
                app_submenu(app_name@),
            ),
    ;

    /// Appends the File submenu, on macOS only.
    fn add_default_file_submenu(self, platform: Platform) -> (menu: Self)
        ensures
            menu.entries() == self.entries() + optional(
                platform.has_file_submenu(),
                file_submenu(),
            ),
    ;

    /// Appends the Edit submenu, on every platform but Linux.
    fn add_default_edit_submenu(self, platform: Platform) -> (menu: Self)
        ensures
            menu.entries() == self.entries() + optional(
                platform.has_standard_submenus(),
                edit_submenu(platform),
            ),
    ;

    /// Appends the View submenu, on every platform but Linux.
    fn add_default_view_submenu(self, platform: Platform) -> (menu: Self)
        ensures
            menu.entries() == self.entries() + optional(
                platform.has_standard_submenus(),
                view_submenu(),
            ),
    ;

    /// Appends the Window submenu, on every platform but Linux.
    fn add_default_window_submenu(self, platform: Platform) -> (menu: Self)
        ensures
            menu.entries() == self.entries() + optional(
                platform.has_standard_submenus(),
                window_submenu(),
            ),
    ;

    /// Appends the Help submenu, on every platform but Linux.
    fn add_default_help_submenu(self, platform: Platform) -> (menu: Self)
        ensures
            menu.entries() == self.entries() + optional(
                platform.has_standard_submenus(),
                help_submenu(),
            ),
    ;
}

impl AddDefaultSubmenus for Menu {
    open spec fn entries(&self) -> Seq<MenuTree> {
        self@
    }

    fn add_default_app_submenu_if_macos(self, platform: Platform, app_name: &str) -> (menu: Menu) {
        match platform {
            Platform::MacOs => {
                let children = Menu::new()
                    .add_native_item(NativeCommand::About)
                    .add_separator()
                    .add_native_item(NativeCommand::Services)
                    .add_separator()
                    .add_native_item(NativeCommand::Hide)
                    .add_native_item(NativeCommand::HideOthers)
                    .add_native_item(NativeCommand::ShowAll)
                    .add_separator()
                    .add_native_item(NativeCommand::Quit);
                assert(children@ =~= app_submenu(app_name@)->Submenu_children);
                let menu = self.add_submenu(app_name, children);
                assert(menu@ =~= self@ + seq![app_submenu(app_name@)]);
                menu
            },
            _ => {
                assert(self@ =~= self@ + Seq::<MenuTree>::empty());
                self
            },
        }
    }

    fn add_default_file_submenu(self, platform: Platform) -> (menu: Menu) {
        match platform {
            Platform::MacOs => {
                let children = Menu::new().add_native_item(NativeCommand::CloseWindow);
                assert(children@ =~= file_submenu()->Submenu_children);
                let menu = self.add_submenu("File", children);
                assert(menu@ =~= self@ + seq![file_submenu()]);
                menu
            },
            _ => {
                assert(self@ =~= self@ + Seq::<MenuTree>::empty());
                self
            },
        }
    }

    fn add_default_edit_submenu(self, platform: Platform) -> (menu: Menu) {
        match platform {
            Platform::Linux => {
                assert(self@ =~= self@ + Seq::<MenuTree>::empty());
                self
            },
            _ => {
                let mut children = Menu::new()
                    .add_native_item(NativeCommand::Undo)
                    .add_native_item(NativeCommand::Redo)
                    .add_separator()
                    .add_native_item(NativeCommand::Cut)
                    .add_native_item(NativeCommand::Copy)
                    .add_native_item(NativeCommand::Paste);
                match platform {
                    Platform::MacOs => {},
                    _ => {
                        children = children.add_separator();
                    },
                }
                children = children.add_native_item(NativeCommand::SelectAll);
                assert(children@ =~= edit_entries(platform));
                let menu = self.add_submenu("Edit", children);
                assert(menu@ =~= self@ + seq![edit_submenu(platform)]);
                menu
            },
        }
    }

    fn add_default_view_submenu(self, platform: Platform) -> (menu: Menu) {
        match platform {
            Platform::Linux => {
                assert(self@ =~= self@ + Seq::<MenuTree>::empty());
                self
            },
            _ => {
                let children = Menu::new().add_native_item(NativeCommand::EnterFullScreen);
                assert(children@ =~= view_submenu()->Submenu_children);
                let menu = self.add_submenu("View", children);
                assert(menu@ =~= self@ + seq![view_submenu()]);
                menu
            },
        }
    }

    fn add_default_window_submenu(self, platform: Platform) -> (menu: Menu) {
        match platform {
            Platform::Linux => {
                assert(self@ =~= self@ + Seq::<MenuTree>::empty());
                self
            },
            _ => {
                let children = Menu::new()
                    .add_native_item(NativeCommand::Minimize)
                    .add_native_item(NativeCommand::Zoom);
                assert(children@ =~= window_submenu()->Submenu_children);
                let menu = self.add_submenu("Window", children);
                assert(menu@ =~= self@ + seq![window_submenu()]);
                menu
            },
        }
    }

    fn add_default_help_submenu(self, platform: Platform) -> (menu: Menu) {
        match platform {
            Platform::Linux => {
                assert(self@ =~= self@ + Seq::<MenuTree>::empty());
                self
            },
            _ => {
                let children = Menu::new().add_item(HELP_ITEM_ID, "Get Help");
                assert(children@ =~= help_submenu()->Submenu_children);
                let menu = self.add_submenu("Help", children);
                assert(menu@ =~= self@ + seq![help_submenu()]);
                menu
            },
        }
    }
}

/// The menu bar of each platform, first submenu to last. The View submenu is
/// on offer through [`AddDefaultSubmenus`] but is part of no menu bar.
pub open spec fn default_menu(platform: Platform, app_name: Seq<char>) -> Seq<MenuTree> {
    match platform {
        Platform::MacOs => seq![
            app_submenu(app_name),
            file_submenu(),
            edit_submenu(Platform::MacOs),
            window_submenu(),
            help_submenu(),
        ],
        Platform::Windows => seq![
            edit_submenu(Platform::Windows),
            window_submenu(),
            help_submenu(),
        ],
        Platform::Linux => Seq::empty(),
    }
}

/// The labels of the submenus of each platform's menu bar, in order.
pub open spec fn default_labels(platform: Platform, app_name: Seq<char>) -> Seq<Seq<char>> {
    match platform {
        Platform::MacOs => seq![app_name, "File"@, "Edit"@, "Window"@, "Help"@],
        Platform::Windows => seq!["Edit"@, "Window"@, "Help"@],
        Platform::Linux => Seq::empty(),
    }
}

/// Every entry of `entries` is a submenu, and their labels are `labels`, in
/// the same order.
pub open spec fn has_submenu_labels(entries: Seq<MenuTree>, labels: Seq<Seq<char>>) -> bool {
    &&& entries.len() == labels.len()
    &&& forall|i: int|
        #![trigger entries[i]]
        0 <= i < entries.len() ==> entries[i] is Submenu && entries[i]->Submenu_label == labels[i]
}

/// The menu bar is what the steps of [`AddDefaultSubmenus`] append, one after
/// the other, to an empty menu: application, File, Edit, Window, Help.
pub proof fn lemma_default_menu_by_steps(platform: Platform, app_name: Seq<char>)
    ensures
        default_menu(platform, app_name) == optional(
            platform.has_app_submenu(),
            app_submenu(app_name),
        ) + optional(platform.has_file_submenu(), file_submenu()) + optional(
            platform.has_standard_submenus(),
            edit_submenu(platform),
        ) + optional(platform.has_standard_submenus(), window_submenu()) + optional(
            platform.has_standard_submenus(),
            help_submenu(),
        ),
{
    let steps = optional(platform.has_app_submenu(), app_submenu(app_name)) + optional(
        platform.has_file_submenu(),
        file_submenu(),
    ) + optional(platform.has_standard_submenus(), edit_submenu(platform)) + optional(
        platform.has_standard_submenus(),
        window_submenu(),
    ) + optional(platform.has_standard_submenus(), help_submenu());
    assert(default_menu(platform, app_name) =~= steps);
}

/// Builds the menu bar of `platform` for the application called `app_name`.
pub fn build_menu(platform: Platform, app_name: &str) -> (menu: Menu)
    ensures
        menu@ == default_menu(platform, app_name@),
        has_submenu_labels(menu@, default_labels(platform, app_name@)),
{
    let menu = Menu::new()
        .add_default_app_submenu_if_macos(platform, app_name)
        .add_default_file_submenu(platform)
        .add_default_edit_submenu(platform)
        .add_default_window_submenu(platform)
        .add_default_help_submenu(platform);
    proof {
        lemma_default_menu_by_steps(platform, app_name@);
        assert(menu@ =~= default_menu(platform, app_name@));
    }
    menu
}

} // verus!
