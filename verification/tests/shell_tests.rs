use rgbcraft::shell::{App, Command, Data, Element, Settings, Size, WindowSettings, settings};

#[test]
fn window_title_is_rgbcraft() {
    let (app, _) = App::new(());
    assert_eq!(app.title(), "RGBcraft");
}

#[test]
fn initial_window_size_is_800_by_500() {
    let s = settings();
    assert_eq!(s.window.size.width, 800);
    assert_eq!(s.window.size.height, 500);
    assert_eq!(
        s,
        Settings { window: WindowSettings { size: Size { width: 800, height: 500 } } }
    );
}

#[test]
fn new_issues_no_command() {
    let (_, command) = App::new(());
    assert_eq!(command, Command::Nothing);
}

#[test]
fn update_leaves_state_unchanged_and_issues_no_command() {
    let (mut app, _) = App::new(());
    let before = app;
    let command = app.update(Data::Sus);
    assert_eq!(command, Command::Nothing);
    assert_eq!(app, before);
}

#[test]
fn view_is_one_button_dispatching_the_event() {
    let (app, _) = App::new(());
    let view = app.view();
    match view {
        Element::Column { children } => {
            assert_eq!(children.len(), 1);
            match &children[0] {
                Element::Button { text, on_press } => {
                    assert_eq!(text, "sus");
                    assert_eq!(*on_press, Some(Data::Sus));
                }
                other => panic!("expected a button, found {:?}", other),
            }
        }
        other => panic!("expected a column, found {:?}", other),
    }
}

#[test]
fn render_is_idempotent_after_update() {
    let (mut app, _) = App::new(());
    let before = app.view();
    let _ = app.update(Data::Sus);
    let after = app.view();
    assert_eq!(before, after);
}

#[test]
fn command_none_is_nothing() {
    assert_eq!(Command::none(), Command::Nothing);
}
