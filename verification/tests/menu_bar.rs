use padloc_menu::defaults::{build_menu, AddDefaultSubmenus};
use padloc_menu::menu::Menu;
use padloc_menu::platform::Platform;
use padloc_menu::tree::{MenuNode, NativeCommand};

fn native(command: NativeCommand) -> MenuNode {
    MenuNode::NativeCommand(command)
}

fn submenu(label: &str, children: Vec<MenuNode>) -> MenuNode {
    MenuNode::Submenu { label: label.to_string(), children }
}

fn app_submenu(name: &str) -> MenuNode {
    submenu(
        name,
        vec![
            native(NativeCommand::About),
            MenuNode::Separator,
            native(NativeCommand::Services),
            MenuNode::Separator,
            native(NativeCommand::Hide),
            native(NativeCommand::HideOthers),
            native(NativeCommand::ShowAll),
            MenuNode::Separator,
            native(NativeCommand::Quit),
        ],
    )
}

fn file_submenu() -> MenuNode {
    submenu("File", vec![native(NativeCommand::CloseWindow)])
}

fn edit_submenu_macos() -> MenuNode {
    submenu(
        "Edit",
        vec![
            native(NativeCommand::Undo),
            native(NativeCommand::Redo),
            MenuNode::Separator,
            native(NativeCommand::Cut),
            native(NativeCommand::Copy),
            native(NativeCommand::Paste),
            native(NativeCommand::SelectAll),
        ],
    )
}

fn edit_submenu_windows() -> MenuNode {
    submenu(
        "Edit",
        vec![
            native(NativeCommand::Undo),
            native(NativeCommand::Redo),
            MenuNode::Separator,
            native(NativeCommand::Cut),
            native(NativeCommand::Copy),
            native(NativeCommand::Paste),
            MenuNode::Separator,
            native(NativeCommand::SelectAll),
        ],
    )
}

fn view_submenu() -> MenuNode {
    submenu("View", vec![native(NativeCommand::EnterFullScreen)])
}

fn window_submenu() -> MenuNode {
    submenu(
        "Window",
        vec![native(NativeCommand::Minimize), native(NativeCommand::Zoom)],
    )
}

fn help_submenu() -> MenuNode {
    submenu(
        "Help",
        vec![MenuNode::CustomCommand {
            id: "get_help".to_string(),
            label: "Get Help".to_string(),
        }],
    )
}

fn top_level_labels(menu: &Menu) -> Vec<String> {
    let mut labels = Vec::new();
    for node in &menu.items {
        match node {
            MenuNode::Submenu { label, .. } => labels.push(label.clone()),
            other => panic!("not a submenu: {:?}", other),
        }
    }
    labels
}

fn marker() -> Menu {
    Menu::new().add_item("first", "First")
}

fn marker_node() -> MenuNode {
    MenuNode::CustomCommand { id: "first".to_string(), label: "First".to_string() }
}

#[test]
fn macos_top_level_labels() {
    let menu = build_menu(Platform::MacOs, "Padloc");
    assert_eq!(
        top_level_labels(&menu),
        vec!["Padloc", "File", "Edit", "Window", "Help"]
    );
}

#[test]
fn windows_top_level_labels() {
    let menu = build_menu(Platform::Windows, "Padloc");
    assert_eq!(top_level_labels(&menu), vec!["Edit", "Window", "Help"]);
}

#[test]
fn linux_top_level_labels() {
    let menu = build_menu(Platform::Linux, "Padloc");
    assert_eq!(top_level_labels(&menu), Vec::<String>::new());
}

#[test]
fn linux_menu_has_no_submenus() {
    let menu = build_menu(Platform::Linux, "Padloc");
    assert!(menu.items.is_empty());
    assert_eq!(menu, Menu::new());
}

#[test]
fn macos_menu_opens_with_app_submenu() {
    let menu = build_menu(Platform::MacOs, "Padloc");
    match &menu.items[0] {
        MenuNode::Submenu { label, children } => {
            assert_eq!(label, "Padloc");
            assert_eq!(children.len(), 9);
            assert_eq!(
                children,
                &vec![
                    native(NativeCommand::About),
                    MenuNode::Separator,
                    native(NativeCommand::Services),
                    MenuNode::Separator,
                    native(NativeCommand::Hide),
                    native(NativeCommand::HideOthers),
                    native(NativeCommand::ShowAll),
                    MenuNode::Separator,
                    native(NativeCommand::Quit),
                ]
            );
        }
        other => panic!("not a submenu: {:?}", other),
    }
}

#[test]
fn macos_menu_is_the_whole_table() {
    let menu = build_menu(Platform::MacOs, "Padloc");
    assert_eq!(
        menu.items,
        vec![
            app_submenu("Padloc"),
            file_submenu(),
            edit_submenu_macos(),
            window_submenu(),
            help_submenu(),
        ]
    );
}

#[test]
fn windows_menu_is_the_whole_table() {
    let menu = build_menu(Platform::Windows, "Padloc");
    assert_eq!(
        menu.items,
        vec![edit_submenu_windows(), window_submenu(), help_submenu()]
    );
}

#[test]
fn app_name_is_taken_as_given() {
    let menu = build_menu(Platform::MacOs, "");
    assert_eq!(menu.items[0], app_submenu(""));
    let menu = build_menu(Platform::MacOs, "Pädloc 🔒");
    assert_eq!(menu.items[0], app_submenu("Pädloc 🔒"));
    assert_eq!(menu.items.len(), 5);
}

#[test]
fn app_name_does_not_reach_other_platforms() {
    assert_eq!(
        build_menu(Platform::Windows, "Padloc"),
        build_menu(Platform::Windows, "Other")
    );
    assert_eq!(
        build_menu(Platform::Linux, "Padloc"),
        build_menu(Platform::Linux, "Other")
    );
    assert_ne!(
        build_menu(Platform::MacOs, "Padloc"),
        build_menu(Platform::MacOs, "Other")
    );
}

#[test]
fn building_twice_gives_the_same_tree() {
    for platform in [Platform::MacOs, Platform::Windows, Platform::Linux] {
        assert_eq!(build_menu(platform, "Padloc"), build_menu(platform, "Padloc"));
    }
}

#[test]
fn no_menu_bar_has_a_view_submenu() {
    for platform in [Platform::MacOs, Platform::Windows, Platform::Linux] {
        let menu = build_menu(platform, "Padloc");
        assert!(!top_level_labels(&menu).contains(&"View".to_string()));
    }
}

#[test]
fn app_submenu_only_on_macos() {
    assert_eq!(
        marker().add_default_app_submenu_if_macos(Platform::MacOs, "Padloc").items,
        vec![marker_node(), app_submenu("Padloc")]
    );
    assert_eq!(
        marker().add_default_app_submenu_if_macos(Platform::Windows, "Padloc"),
        marker()
    );
    assert_eq!(
        marker().add_default_app_submenu_if_macos(Platform::Linux, "Padloc"),
        marker()
    );
}

#[test]
fn file_submenu_only_on_macos() {
    assert_eq!(
        marker().add_default_file_submenu(Platform::MacOs).items,
        vec![marker_node(), file_submenu()]
    );
    assert_eq!(marker().add_default_file_submenu(Platform::Windows), marker());
    assert_eq!(marker().add_default_file_submenu(Platform::Linux), marker());
}

#[test]
fn edit_submenu_by_platform() {
    assert_eq!(
        marker().add_default_edit_submenu(Platform::MacOs).items,
        vec![marker_node(), edit_submenu_macos()]
    );
    assert_eq!(
        marker().add_default_edit_submenu(Platform::Windows).items,
        vec![marker_node(), edit_submenu_windows()]
    );
    assert_eq!(marker().add_default_edit_submenu(Platform::Linux), marker());
}

#[test]
fn edit_submenu_sizes() {
    let count = |platform: Platform| match &Menu::new().add_default_edit_submenu(platform).items[0]
    {
        MenuNode::Submenu { children, .. } => children.len(),
        other => panic!("not a submenu: {:?}", other),
    };
    assert_eq!(count(Platform::MacOs), 7);
    assert_eq!(count(Platform::Windows), 8);
}

#[test]
fn view_submenu_by_platform() {
    assert_eq!(
        marker().add_default_view_submenu(Platform::MacOs).items,
        vec![marker_node(), view_submenu()]
    );
    assert_eq!(
        marker().add_default_view_submenu(Platform::Windows).items,
        vec![marker_node(), view_submenu()]
    );
    assert_eq!(marker().add_default_view_submenu(Platform::Linux), marker());
}

#[test]
fn window_submenu_by_platform() {
    assert_eq!(
        marker().add_default_window_submenu(Platform::MacOs).items,
        vec![marker_node(), window_submenu()]
    );
    assert_eq!(
        marker().add_default_window_submenu(Platform::Windows).items,
        vec![marker_node(), window_submenu()]
    );
    assert_eq!(marker().add_default_window_submenu(Platform::Linux), marker());
}

#[test]
fn help_submenu_by_platform() {
    assert_eq!(
        marker().add_default_help_submenu(Platform::MacOs).items,
        vec![marker_node(), help_submenu()]
    );
    assert_eq!(
        marker().add_default_help_submenu(Platform::Windows).items,
        vec![marker_node(), help_submenu()]
    );
    assert_eq!(marker().add_default_help_submenu(Platform::Linux), marker());
}

#[test]
fn steps_append_in_the_order_called() {
    let menu = Menu::new()
        .add_default_help_submenu(Platform::Windows)
        .add_default_view_submenu(Platform::Windows)
        .add_default_file_submenu(Platform::Windows)
        .add_default_window_submenu(Platform::Windows);
    assert_eq!(menu.items, vec![help_submenu(), view_submenu(), window_submenu()]);
}

#[test]
fn new_menu_is_empty() {
    assert_eq!(Menu::new().items, Vec::<MenuNode>::new());
}

#[test]
fn builder_appends_each_kind_of_entry() {
    let inner = Menu::new().add_native_item(NativeCommand::Copy).add_separator();
    let menu = Menu::new()
        .add_native_item(NativeCommand::Quit)
        .add_separator()
        .add_item("sync", "Synchronize")
        .add_submenu("More", inner)
        .add_submenu("Empty", Menu::new());
    assert_eq!(
        menu.items,
        vec![
            native(NativeCommand::Quit),
            MenuNode::Separator,
            MenuNode::CustomCommand { id: "sync".to_string(), label: "Synchronize".to_string() },
            submenu("More", vec![native(NativeCommand::Copy), MenuNode::Separator]),
            submenu("Empty", vec![]),
        ]
    );
}

#[test]
fn submenus_nest() {
    let leaf = Menu::new().add_item("a", "A");
    let middle = Menu::new().add_submenu("Leaf", leaf);
    let menu = Menu::new().add_submenu("Middle", middle);
    assert_eq!(
        menu.items,
        vec![submenu(
            "Middle",
            vec![submenu(
                "Leaf",
                vec![MenuNode::CustomCommand { id: "a".to_string(), label: "A".to_string() }]
            )]
        )]
    );
}
