use vstd::prelude::*;

verus! {

/// A predefined menu action that the operating system supplies.
#[derive(Clone, Copy, Debug, PartialEq, Eq, Hash, Structural)]
pub enum NativeCommand {
    About,
    Services,
    Hide,
    HideOthers,
    ShowAll,
    Quit,
    CloseWindow,
    Undo,
    Redo,
    Cut,
    Copy,
    Paste,
    SelectAll,
    EnterFullScreen,
    Minimize,
    Zoom,
}

/// One entry of a menu. Entries are ordered: a menu shows them in the order
/// in which they are stored.
#[derive(Debug, PartialEq, Eq)]
pub enum MenuNode {
    /// An action supplied by the operating system.
    NativeCommand(NativeCommand),
    /// A dividing line between groups of entries.
    Separator,
    /// An action of the application, reported back under `id` when chosen.
    CustomCommand { id: String, label: String },
    /// A labelled group of entries nested under its parent.
    Submenu { label: String, children: Vec<MenuNode> },
}

/// The mathematical value of a [`MenuNode`]: texts are sequences of
/// characters, children are a sequence of trees.
pub enum MenuTree {
    NativeCommand(NativeCommand),
    Separator,
    CustomCommand { id: Seq<char>, label: Seq<char> },
    Submenu { label: Seq<char>, children: Seq<MenuTree> },
}

impl View for MenuNode {
    type V = MenuTree;

    open spec fn view(&self) -> MenuTree
        decreases self,
    {
        match self {
            MenuNode::NativeCommand(command) => MenuTree::NativeCommand(*command),
            MenuNode::Separator => MenuTree::Separator,
            MenuNode::CustomCommand { id, label } => MenuTree::CustomCommand {
                id: id@,
                label: label@,
            },
            MenuNode::Submenu { label, children } => MenuTree::Submenu {
                label: label@,
                children: Seq::new(
                    children.len() as nat,
                    |i: int|
                        if 0 <= i < children.len() {
                            children[i]@
                        } else {
                            MenuTree::Separator
                        },
                ),
            },
        }
    }
}

/// The trees of a sequence of nodes, in the same order.
pub open spec fn trees_of(nodes: Seq<MenuNode>) -> Seq<MenuTree> {
    Seq::new(nodes.len(), |i: int| nodes[i]@)
}

/// The tree of a submenu node holds its label and the trees of its children.
pub proof fn lemma_submenu_view(label: String, children: Vec<MenuNode>)
    ensures
        (MenuNode::Submenu { label, children })@ == (MenuTree::Submenu {
            label: label@,
            children: trees_of(children@),
        }),
{
    let node = MenuNode::Submenu { label, children };
    assert(node@->Submenu_children =~= trees_of(children@));
}

} // verus!
