use dsv_gui::app::{select_view, DsvApp, GameView};
use dsv_gui::config::{Config, GdbConfig, TypesConfig};
use dsv_gui::tasks::load_types::RunOutcome;

fn s(x: &str) -> String {
    x.to_string()
}

fn project_config() -> Config {
    Config {
        gdb: GdbConfig { address: s("localhost:3333") },
        types: TypesConfig {
            project_root: s("/proj"),
            include_paths: vec![s("/proj/include")],
            ignore_paths: vec![s("/proj/tools")],
            short_enums: true,
        },
    }
}

#[test]
fn blank_config() {
    let c = Config::new();
    assert_eq!(c.gdb.address, "");
    assert_eq!(c.types.project_root, "");
    assert!(c.types.include_paths.is_empty());
    assert!(c.types.ignore_paths.is_empty());
    assert!(!c.types.short_enums);
}

#[test]
fn default_app() {
    let app = DsvApp::default();
    assert!(app.config_path.is_none());
    assert!(!app.project_modal_open);
    assert!(app.load_types_task.is_none());
    assert!(app.view.is_none());
    assert_eq!(app.config.gdb.address, "");
}

#[test]
fn game_codes_select_views() {
    for code in ["BKIJ", "BKIP", "BKIE"] {
        assert_eq!(select_view(code), Some(GameView::SpiritTracks));
    }
    for code in ["AZEJ", "AZEP", "AZEE"] {
        assert_eq!(select_view(code), Some(GameView::PhantomHourglass));
    }
    assert_eq!(select_view("A2DE"), Some(GameView::NewSuperMarioBros));
    assert_eq!(select_view("A2DJ"), None);
    assert_eq!(select_view("bkij"), None);
    assert_eq!(select_view(""), None);
    assert_eq!(select_view("BKIJ "), None);
}

#[test]
fn save_config_needs_a_file() {
    let mut app = DsvApp::default();
    assert_eq!(app.save_config(), None);
    assert_eq!(app.save_config_as(s("/tmp/p.toml")), Some(s("/tmp/p.toml")));
    assert_eq!(app.config_path, Some(s("/tmp/p.toml")));
    assert_eq!(app.save_config(), Some(s("/tmp/p.toml")));
}

#[test]
fn load_config_success_and_failure() {
    let mut app = DsvApp::default();
    app.load_config(s("/tmp/a.toml"), Err(s("no such file")));
    assert!(app.config_path.is_none());
    assert_eq!(app.config.types.project_root, "");
    app.load_config(s("/tmp/b.toml"), Ok(project_config()));
    assert_eq!(app.config_path, Some(s("/tmp/b.toml")));
    assert_eq!(app.config.gdb.address, "localhost:3333");
    assert_eq!(app.config.types.project_root, "/proj");
    app.load_config(s("/tmp/c.toml"), Err(s("bad toml")));
    assert_eq!(app.config_path, Some(s("/tmp/b.toml")));
    assert_eq!(app.config.types.project_root, "/proj");
}

#[test]
fn connect_supported_and_unsupported() {
    let mut app = DsvApp::default();
    assert_eq!(app.connect("XXXX"), Err(s("Unsupported game code: XXXX")));
    assert!(app.view.is_none());
    assert_eq!(app.connect("A2DE"), Ok(GameView::NewSuperMarioBros));
    assert_eq!(app.view, Some(GameView::NewSuperMarioBros));
    assert_eq!(app.connect("ABCD"), Err(s("Unsupported game code: ABCD")));
    assert_eq!(app.view, Some(GameView::NewSuperMarioBros));
}

#[test]
fn disconnect_and_exit() {
    let mut app = DsvApp::default();
    app.connect("AZEP").unwrap();
    app.disconnect(false);
    assert_eq!(app.view, Some(GameView::PhantomHourglass));
    app.disconnect(true);
    assert!(app.view.is_none());
    app.connect("BKIE").unwrap();
    assert_eq!(app.on_exit(), Some(GameView::SpiritTracks));
    assert!(app.view.is_none());
    assert_eq!(app.on_exit(), None);
}

#[test]
fn project_modal() {
    let mut app = DsvApp::default();
    app.set_project_modal_open(true);
    assert!(app.project_modal_open);
    app.set_project_modal_open(false);
    assert!(!app.project_modal_open);
}

#[test]
fn load_types_replaces_the_task() {
    let mut app = DsvApp::default();
    app.load_config(s("/tmp/b.toml"), Ok(project_config()));
    let first = app.load_types();
    assert!(!first.stop_previous);
    match first.outcome {
        RunOutcome::Start(plan) => {
            assert_eq!(plan.project_root, "/proj");
            assert_eq!(plan.include_paths, vec![s("/proj/include")]);
            assert_eq!(plan.ignore_paths, vec![s("/proj/tools")]);
            assert!(plan.short_enums);
        }
        RunOutcome::AlreadyRunning => panic!("a new task must start"),
    }
    let task = app.load_types_task.as_ref().unwrap();
    assert!(task.worker_started());
    let second = app.load_types();
    assert!(second.stop_previous);
    assert!(matches!(second.outcome, RunOutcome::Start(_)));
    assert!(app.load_types_task.as_ref().unwrap().worker_started());
}

#[test]
fn cancel_drops_the_task() {
    let mut app = DsvApp::default();
    assert!(!app.cancel_load_types());
    app.load_types();
    assert!(app.cancel_load_types());
    assert!(app.load_types_task.is_none());
    assert!(!app.cancel_load_types());
}

#[test]
fn status_lines() {
    let mut app = DsvApp::default();
    assert_eq!(app.status_line(), "No type loading task running");
    app.load_types();
    assert_eq!(app.status_line(), "Status: ");
    app.load_types_task.as_mut().unwrap().set_status(s("/proj/a.h"));
    assert_eq!(app.status_line(), "Status: /proj/a.h");
    app.cancel_load_types();
    assert_eq!(app.status_line(), "No type loading task running");
}
