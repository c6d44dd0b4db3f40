use crate::tree::{trees_of, MenuNode, MenuTree, NativeCommand};
use vstd::prelude::*;

verus! {

/// An ordered list of menu entries: a menu bar, or the contents of a submenu
/// while it is being put together.
#[derive(Debug, PartialEq, Eq)]
pub struct Menu {
    pub items: Vec<MenuNode>,
}

impl View for Menu {
    type V = Seq<MenuTree>;

    open spec fn view(&self) -> Seq<MenuTree> {
        trees_of(self.items@)
    }
}

impl Menu {
    /// A menu without entries.
    pub fn new() -> (menu: Menu)
        ensures
            menu@ == Seq::<MenuTree>::empty(),
    {
        let menu = Menu { items: Vec::new() };
        assert(menu@ =~= Seq::<MenuTree>::empty());
        menu
    }

    /// Appends `node` below the entries already present.
    fn add_node(self, node: MenuNode) -> (menu: Menu)
        ensures
            menu@ == self@.push(node@),
    {
        let mut items = self.items;
        items.push(node);
        let menu = Menu { items };
        assert(menu@ =~= self@.push(node@));
        menu
    }

    /// Appends an action supplied by the operating system.
    pub fn add_native_item(self, command: NativeCommand) -> (menu: Menu)
        ensures
            menu@ == self@.push(MenuTree::NativeCommand(command)),
    {
        self.add_node(MenuNode::NativeCommand(command))
    }

    /// Appends a dividing line.
    pub fn add_separator(self) -> (menu: Menu)
        ensures
            menu@ == self@.push(MenuTree::Separator),
    {
        self.add_node(MenuNode::Separator)
    }

    /// Appends an action of the application, shown as `label` and reported
    /// back under `id`.
    pub fn add_item(self, id: &str, label: &str) -> (menu: Menu)
        ensures
            menu@ == self@.push(MenuTree::CustomCommand { id: id@, label: label@ }),
    {
        self.add_node(MenuNode::CustomCommand { id: id.to_owned(), label: label.to_owned() })
    }

    /// Appends a submenu titled `label` whose entries are those of `children`.
    pub fn add_submenu(self, label: &str, children: Menu) -> (menu: Menu)
        ensures
            menu@ == self@.push(MenuTree::Submenu { label: label@, children: children@ }),
    {
        let label = label.to_owned();
        let children = children.items;
        proof {
            crate::tree::lemma_submenu_view(label, children);
        }
        self.add_node(MenuNode::Submenu { label, children })
    }
}

} // verus!
