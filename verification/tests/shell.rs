use pluma_shell::args::initial_args;
use pluma_shell::dispatch::{dispatch, menu_action_for, Emission, MenuAction, Signal};
use pluma_shell::menu::build_app_menu;

fn argv(items: &[&str]) -> Vec<String> {
    items.iter().map(|s| s.to_string()).collect()
}

#[test]
fn initial_args_drops_program_name() {
    let v = argv(&["pluma", "/tmp/a.md", "/tmp/b.md"]);
    assert_eq!(initial_args(&v), argv(&["/tmp/a.md", "/tmp/b.md"]));
}

#[test]
fn initial_args_of_bare_invocation_is_empty() {
    let v = argv(&["pluma"]);
    assert_eq!(initial_args(&v), Vec::<String>::new());
}

#[test]
fn initial_args_of_empty_vector_is_empty() {
    let v: Vec<String> = Vec::new();
    assert_eq!(initial_args(&v), Vec::<String>::new());
}

#[test]
fn initial_args_keeps_order_and_duplicates() {
    let v = argv(&["pluma", "b", "a", "a"]);
    assert_eq!(initial_args(&v), argv(&["b", "a", "a"]));
}

#[test]
fn query_is_idempotent() {
    let v = argv(&["pluma", "/tmp/a.md"]);
    assert_eq!(initial_args(&v), initial_args(&v));
    assert_eq!(initial_args(&v), argv(&["/tmp/a.md"]));
}

#[test]
fn page_load_emits_one_open_file_per_argument_in_order() {
    let v = argv(&["pluma", "/tmp/a.md", "/tmp/b.md"]);
    let out = dispatch(&Signal::PageLoaded, &v);
    assert_eq!(
        out.emissions,
        vec![
            Emission::OpenFile("/tmp/a.md".to_string()),
            Emission::OpenFile("/tmp/b.md".to_string()),
        ]
    );
    assert!(!out.terminate);
    assert!(out.reply.is_none());
}

#[test]
fn page_load_without_arguments_emits_nothing() {
    let v = argv(&["pluma"]);
    let out = dispatch(&Signal::PageLoaded, &v);
    assert_eq!(out.emissions, Vec::<Emission>::new());
    assert!(!out.terminate);
    assert!(out.reply.is_none());
}

#[test]
fn args_query_returns_trailing_arguments() {
    let v = argv(&["pluma", "/tmp/a.md", "/tmp/b.md"]);
    let out = dispatch(&Signal::ArgsQueried, &v);
    assert_eq!(out.reply, Some(argv(&["/tmp/a.md", "/tmp/b.md"])));
    assert_eq!(out.emissions, Vec::<Emission>::new());
    assert!(!out.terminate);
}

#[test]
fn args_query_without_arguments_returns_empty() {
    let v = argv(&["pluma"]);
    let out = dispatch(&Signal::ArgsQueried, &v);
    assert_eq!(out.reply, Some(Vec::<String>::new()));
    assert_eq!(out.emissions, Vec::<Emission>::new());
}

#[test]
fn about_emits_exactly_one_open_about() {
    let v = argv(&["pluma", "/tmp/a.md"]);
    let out = dispatch(&Signal::MenuActivated("about".to_string()), &v);
    assert_eq!(out.emissions, vec![Emission::OpenAbout]);
    assert!(!out.terminate);
    assert!(out.reply.is_none());
}

#[test]
fn quit_terminates_and_emits_nothing() {
    let v = argv(&["pluma"]);
    let out = dispatch(&Signal::MenuActivated("quit".to_string()), &v);
    assert!(out.terminate);
    assert_eq!(out.emissions, Vec::<Emission>::new());
    assert!(out.reply.is_none());
}

#[test]
fn unknown_identifier_is_a_no_op() {
    let v = argv(&["pluma"]);
    let out = dispatch(&Signal::MenuActivated("save".to_string()), &v);
    assert!(!out.terminate);
    assert_eq!(out.emissions, Vec::<Emission>::new());
    assert!(out.reply.is_none());
}

#[test]
fn menu_identifiers_are_classified_exactly() {
    assert_eq!(menu_action_for("about"), MenuAction::About);
    assert_eq!(menu_action_for("quit"), MenuAction::Quit);
    assert_eq!(menu_action_for(""), MenuAction::Unknown);
    assert_eq!(menu_action_for("About"), MenuAction::Unknown);
    assert_eq!(menu_action_for("quit "), MenuAction::Unknown);
    assert_eq!(menu_action_for("open-about"), MenuAction::Unknown);
}

#[test]
fn app_menu_has_fixed_shape_and_distinct_identifiers() {
    let m = build_app_menu();
    assert_eq!(m.submenus.len(), 1);
    let help = &m.submenus[0];
    assert_eq!(help.title, "Ayuda");
    assert_eq!(help.items.len(), 2);
    assert_eq!(help.items[0].id, "about");
    assert_eq!(help.items[0].label, "Acerca de PlumaMD");
    assert_eq!(help.items[1].id, "quit");
    assert_eq!(help.items[1].label, "Salir");
    assert_ne!(help.items[0].id, help.items[1].id);
}

#[test]
fn every_menu_item_of_the_app_menu_is_recognized() {
    let m = build_app_menu();
    for sm in &m.submenus {
        for item in &sm.items {
            assert_ne!(menu_action_for(&item.id), MenuAction::Unknown);
        }
    }
}
