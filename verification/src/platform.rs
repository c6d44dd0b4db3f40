use vstd::prelude::*;

verus! {

/// The operating systems a menu bar can be laid out for.
#[derive(Clone, Copy, Debug, PartialEq, Eq, Hash, Structural)]
pub enum Platform {
    MacOs,
    Windows,
    Linux,
}

impl Platform {
    /// Whether the menu bar opens with a submenu named after the application.
    pub open spec fn has_app_submenu(self) -> bool {
        self == Platform::MacOs
    }

    /// Whether the menu bar has a File submenu. macOS alone has one.
    pub open spec fn has_file_submenu(self) -> bool {
        self == Platform::MacOs
    }

    /// Whether the platform has the Edit, View, Window and Help submenus.
    /// Linux alone goes without them.
    pub open spec fn has_standard_submenus(self) -> bool {
        self != Platform::Linux
    }
}

} // verus!
