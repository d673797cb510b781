use greptui::app::App;
use greptui::app::Panel;
use greptui::keys::handle_key_event;
use greptui::keys::KeyCode;
use greptui::keys::KeyEvent;
use greptui::keys::CONTROL;
use greptui::keys::SHIFT;
use greptui::theme::theme_or_light;
use greptui::theme::Color;
use greptui::theme::Style;
use greptui::theme::ThemeMode;

fn press(app: &mut App, code: KeyCode) -> bool {
    handle_key_event(app, KeyEvent { code, modifiers: 0 })
}

fn press_with(app: &mut App, code: KeyCode, modifiers: u8) -> bool {
    handle_key_event(app, KeyEvent { code, modifiers })
}

fn typed(text: &str) -> App {
    let mut app = App::with_theme("cmd", &[], ThemeMode::Light);
    for line in ["alpha", "beta", "gamma", "delta"] {
        app.add_output(line.to_string());
    }
    for c in text.chars() {
        assert!(!press(&mut app, KeyCode::Char(c)));
    }
    app
}

#[test]
fn control_c_and_control_q_quit() {
    let mut app = typed("al");
    assert!(press_with(&mut app, KeyCode::Char('c'), CONTROL));
    assert!(press_with(&mut app, KeyCode::Char('q'), CONTROL));
    assert_eq!(app.search_query, "al");
    assert_eq!(app.cursor_position, 2);
    app.active_panel = Panel::Preview;
    assert!(press_with(&mut app, KeyCode::Char('c'), CONTROL));
}

#[test]
fn control_with_other_modifiers_types() {
    let mut app = typed("");
    assert!(!press_with(&mut app, KeyCode::Char('c'), CONTROL | SHIFT));
    assert_eq!(app.search_query, "c");
    assert!(!press_with(&mut app, KeyCode::Char('x'), CONTROL));
    assert_eq!(app.search_query, "cx");
}

#[test]
fn typing_filters_as_you_go() {
    let mut app = typed("");
    assert_eq!(app.filtered_indices, vec![0, 1, 2, 3]);
    press(&mut app, KeyCode::Char('l'));
    assert_eq!(app.search_query, "l");
    assert_eq!(app.cursor_position, 1);
    assert_eq!(app.filtered_indices, vec![0, 3]);
    press(&mut app, KeyCode::Char('t'));
    assert_eq!(app.search_query, "lt");
    assert_eq!(app.cursor_position, 2);
    assert_eq!(app.filtered_indices, vec![3]);
    assert_eq!(app.active_panel, Panel::Input);
}

#[test]
fn characters_go_in_at_the_cursor() {
    let mut app = typed("ac");
    press(&mut app, KeyCode::Left);
    assert_eq!(app.cursor_position, 1);
    press(&mut app, KeyCode::Char('b'));
    assert_eq!(app.search_query, "abc");
    assert_eq!(app.cursor_position, 2);
    press(&mut app, KeyCode::Home);
    press(&mut app, KeyCode::Char('é'));
    assert_eq!(app.search_query, "éabc");
    assert_eq!(app.cursor_position, 1);
    press(&mut app, KeyCode::Char('ü'));
    assert_eq!(app.search_query, "éüabc");
    assert_eq!(app.cursor_position, 2);
}

#[test]
fn backspace_removes_before_the_cursor() {
    let mut app = typed("eta");
    assert_eq!(app.filtered_indices, vec![1]);
    press(&mut app, KeyCode::Backspace);
    assert_eq!(app.search_query, "et");
    assert_eq!(app.cursor_position, 2);
    press(&mut app, KeyCode::Left);
    press(&mut app, KeyCode::Backspace);
    assert_eq!(app.search_query, "t");
    assert_eq!(app.cursor_position, 0);
    assert_eq!(app.filtered_indices, vec![1, 3]);
    press(&mut app, KeyCode::Backspace);
    assert_eq!(app.search_query, "t");
    assert_eq!(app.cursor_position, 0);
}

#[test]
fn delete_removes_at_the_cursor() {
    let mut app = typed("mma");
    press(&mut app, KeyCode::Delete);
    assert_eq!(app.search_query, "mma");
    press(&mut app, KeyCode::Home);
    press(&mut app, KeyCode::Delete);
    assert_eq!(app.search_query, "ma");
    assert_eq!(app.cursor_position, 0);
    assert_eq!(app.filtered_indices, vec![2]);
    press(&mut app, KeyCode::Delete);
    press(&mut app, KeyCode::Delete);
    assert_eq!(app.search_query, "");
    assert_eq!(app.filtered_indices, vec![0, 1, 2, 3]);
}

#[test]
fn arrows_home_and_end_stay_inside_the_query() {
    let mut app = typed("ab");
    press(&mut app, KeyCode::Right);
    assert_eq!(app.cursor_position, 2);
    press(&mut app, KeyCode::Left);
    press(&mut app, KeyCode::Left);
    press(&mut app, KeyCode::Left);
    assert_eq!(app.cursor_position, 0);
    press(&mut app, KeyCode::Right);
    assert_eq!(app.cursor_position, 1);
    press(&mut app, KeyCode::End);
    assert_eq!(app.cursor_position, 2);
    press(&mut app, KeyCode::Home);
    assert_eq!(app.cursor_position, 0);
    assert_eq!(app.search_query, "ab");
}

#[test]
fn enter_applies_the_query_and_moves_to_the_results() {
    let mut app = typed("");
    app.search_query = "a$".to_string();
    app.cursor_position = 2;
    assert!(!press(&mut app, KeyCode::Enter));
    assert_eq!(app.active_panel, Panel::Output);
    assert_eq!(app.filtered_indices, vec![0, 1, 2, 3]);
    assert_eq!(app.selected_index, 0);
    let mut other = typed("");
    other.search_query = "^[bg]".to_string();
    other.cursor_position = 5;
    press(&mut other, KeyCode::Enter);
    assert_eq!(other.filtered_indices, vec![1, 2]);
    assert_eq!(other.cursor_position, 5);
}

#[test]
fn up_and_down_move_the_selection_in_the_results() {
    let mut app = typed("");
    press(&mut app, KeyCode::Down);
    assert_eq!(app.selected_index, 0);
    press(&mut app, KeyCode::Enter);
    press(&mut app, KeyCode::Down);
    assert_eq!(app.selected_index, 1);
    press(&mut app, KeyCode::Up);
    press(&mut app, KeyCode::Up);
    assert_eq!(app.selected_index, 3);
    press(&mut app, KeyCode::Char('x'));
    press(&mut app, KeyCode::Backspace);
    press(&mut app, KeyCode::Home);
    assert_eq!(app.search_query, "");
    assert_eq!(app.selected_index, 3);
}

#[test]
fn tab_cycles_the_focus() {
    let mut app = typed("ab");
    press(&mut app, KeyCode::Home);
    assert!(!press(&mut app, KeyCode::Tab));
    assert_eq!(app.active_panel, Panel::Output);
    press_with(&mut app, KeyCode::Tab, CONTROL);
    assert_eq!(app.active_panel, Panel::Preview);
    press(&mut app, KeyCode::Tab);
    assert_eq!(app.active_panel, Panel::Input);
    assert_eq!(app.cursor_position, 2);
    press_with(&mut app, KeyCode::Tab, SHIFT);
    assert_eq!(app.active_panel, Panel::Preview);
    press(&mut app, KeyCode::BackTab);
    assert_eq!(app.active_panel, Panel::Output);
    press_with(&mut app, KeyCode::BackTab, SHIFT);
    assert_eq!(app.active_panel, Panel::Input);
}

#[test]
fn keys_without_a_target_change_nothing() {
    let mut app = typed("a");
    press(&mut app, KeyCode::Tab);
    press(&mut app, KeyCode::Tab);
    assert_eq!(app.active_panel, Panel::Preview);
    for code in [
        KeyCode::Char('z'),
        KeyCode::Backspace,
        KeyCode::Delete,
        KeyCode::Left,
        KeyCode::Right,
        KeyCode::Home,
        KeyCode::End,
        KeyCode::Enter,
        KeyCode::Up,
        KeyCode::Down,
        KeyCode::Other,
    ] {
        assert!(!press(&mut app, code));
    }
    assert_eq!(app.active_panel, Panel::Preview);
    assert_eq!(app.search_query, "a");
    assert_eq!(app.cursor_position, 1);
    assert_eq!(app.selected_index, 0);
}

#[test]
fn colours_follow_the_theme() {
    let dark = App::with_theme("cmd", &[], ThemeMode::Dark);
    let light = App::with_theme("cmd", &[], ThemeMode::Light);
    let unspecified = App::with_theme("cmd", &[], ThemeMode::Unspecified);
    assert_eq!(dark.get_fg_color(), Color::White);
    assert_eq!(dark.get_bg_color(), Color::Black);
    assert_eq!(light.get_fg_color(), Color::Black);
    assert_eq!(light.get_bg_color(), Color::White);
    assert_eq!(unspecified.get_fg_color(), Color::Black);
    assert_eq!(unspecified.get_bg_color(), Color::White);
    for app in [&dark, &light, &unspecified] {
        assert_eq!(app.get_line_number_color(), Color::DarkGray);
        assert_eq!(app.get_hl_color(), Color::Yellow);
    }
}

#[test]
fn focused_panel_is_highlighted() {
    let mut app = App::with_theme("cmd", &[], ThemeMode::Dark);
    assert_eq!(
        app.get_block_style(Panel::Input),
        Style { fg: Color::Yellow, bold: true }
    );
    assert_eq!(
        app.get_block_style(Panel::Output),
        Style { fg: Color::White, bold: false }
    );
    app.next_panel();
    assert_eq!(
        app.get_block_style(Panel::Input),
        Style { fg: Color::White, bold: false }
    );
    assert_eq!(
        app.get_block_style(Panel::Output),
        Style { fg: Color::Yellow, bold: true }
    );
}

#[test]
fn undetected_theme_is_light() {
    assert_eq!(theme_or_light(None), ThemeMode::Light);
    assert_eq!(theme_or_light(Some(ThemeMode::Dark)), ThemeMode::Dark);
    assert_eq!(theme_or_light(Some(ThemeMode::Unspecified)), ThemeMode::Unspecified);
}
