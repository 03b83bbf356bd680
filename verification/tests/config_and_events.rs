use namedworkspaces::config::{parse_config, Config};
use namedworkspaces::label::{compose_label, resolve_app_glyph, resolve_layout_glyph};
use namedworkspaces::reactor::{react, Action, Event, WindowChange, WorkspaceChange};
use namedworkspaces::tree::{Kind, Layout, Node};

fn leaf(id: i64) -> Node {
    Node {
        id,
        kind: Kind::Window,
        layout: Layout::NoLayout,
        focused: false,
        name: None,
        num: None,
        app_id: None,
        window_class: None,
        window_instance: None,
        nodes: Vec::new(),
        floating_nodes: Vec::new(),
    }
}

#[test]
fn malformed_configuration_is_rejected() {
    assert!(parse_config("this is [[[ not toml").is_none());
}

#[test]
fn empty_configuration_uses_defaults() {
    let cfg = parse_config("").unwrap();
    assert_eq!(resolve_app_glyph("firefox", &cfg), "?");
    assert_eq!(resolve_app_glyph("", &cfg), "\u{ff0b}");
}

#[test]
fn configured_application_glyph_wins() {
    let cfg = parse_config("[applications]\nfirefox = \"W\"\n").unwrap();
    assert_eq!(resolve_app_glyph("firefox", &cfg), "W");
    assert_eq!(resolve_app_glyph("other", &cfg), "?");
}

#[test]
fn configured_icon_overrides_default() {
    let cfg = parse_config("[icons]\nsingle_window = \"S\"\n").unwrap();
    let win = leaf(1);
    let mut parent = leaf(10);
    parent.kind = Kind::SplitContainer;
    parent.layout = Layout::HorizontalSplit;
    parent.nodes = vec![leaf(1)];
    assert_eq!(resolve_layout_glyph(&win, &parent, &cfg).as_str(), "S");
}

#[test]
fn non_string_override_falls_back_to_default() {
    let cfg = parse_config("[icons]\nsingle_window = 3\n").unwrap();
    let win = leaf(1);
    let mut parent = leaf(10);
    parent.kind = Kind::SplitContainer;
    parent.layout = Layout::HorizontalSplit;
    parent.nodes = vec![leaf(1)];
    assert_eq!(resolve_layout_glyph(&win, &parent, &cfg).as_str(), "\u{25a0}");
}

#[test]
fn configured_styles_reach_the_label() {
    let cfg = parse_config("[styles]\nicon = \"I\"\nlayout = \"L\"\nname = \"N\"\n").unwrap();
    let s = compose_label(1, "A", "G", "T", false, &cfg);
    assert_eq!(
        s.as_str(),
        "1<span I>A</span> <span L>G</span> <span N> T </span>"
    );
}

#[test]
fn missing_namespace_behaves_like_no_configuration() {
    let cfg = parse_config("[icons]\nfloating = \"F\"\n").unwrap();
    let plain = Config::default();
    assert_eq!(
        resolve_app_glyph("firefox", &cfg),
        resolve_app_glyph("firefox", &plain)
    );
}

#[test]
fn window_events_relabel_their_window() {
    assert_eq!(react(Event::Window(WindowChange::Created)), Action::RelabelWindow);
    assert_eq!(react(Event::Window(WindowChange::Focused)), Action::RelabelWindow);
    assert_eq!(react(Event::Window(WindowChange::Retitled)), Action::RelabelWindow);
    assert_eq!(react(Event::Window(WindowChange::Moved)), Action::RelabelWindow);
    assert_eq!(
        react(Event::Window(WindowChange::FloatingToggled)),
        Action::RelabelWindow
    );
}

#[test]
fn close_and_keybinding_relabel_the_focused_window() {
    assert_eq!(react(Event::Window(WindowChange::Closed)), Action::RelabelFocused);
    assert_eq!(react(Event::Keybinding), Action::RelabelFocused);
}

#[test]
fn workspace_events() {
    assert_eq!(
        react(Event::Workspace(WorkspaceChange::Initialized)),
        Action::AssignPlaceholder
    );
    assert_eq!(
        react(Event::Workspace(WorkspaceChange::Reloaded)),
        Action::AssignPlaceholder
    );
    assert_eq!(react(Event::Workspace(WorkspaceChange::Focused)), Action::Ignore);
    assert_eq!(react(Event::Workspace(WorkspaceChange::Moved)), Action::Ignore);
}
