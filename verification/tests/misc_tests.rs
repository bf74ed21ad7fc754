use tbg::args::GameArgs;
use tbg::db::save::{get_save_path, test_db_path};
use tbg::input::Key;
use tbg::text::{center, i32_to_string, i64_to_string, is_blank, repeat, trim};
use tbg::thread_demo::run_demo::App;
use tbg::GameState;

#[test]
fn game_state_starts_at_character_creation() {
    let s = GameState::new(3);
    assert_eq!(s.player_id, 3);
    assert_eq!(s.current_epic, "intro");
    assert_eq!(s.current_stage, "character_creation");
    assert_eq!((s.x, s.y), (0, 0));
    assert_eq!(s.to_string(), "current_epic:intro, current_stage:character_creation -- x:0, y:0");
}

#[test]
fn game_state_summary_and_rows() {
    let mut s = GameState::new(9);
    s.x = -12;
    s.y = i32::MIN;
    assert_eq!(
        s.to_string(),
        "current_epic:intro, current_stage:character_creation -- x:-12, y:-2147483648"
    );
    let row = s.insert_row();
    assert_eq!(row.updated_at, s.created_at);
    let back = GameState::from_row(9, &row);
    assert_eq!(back.x, -12);
    assert_eq!(back.current_stage, "character_creation");
    assert_eq!(back.updated_at, s.created_at);
    let upd = s.update_row();
    assert_eq!(upd.created_at, s.created_at);
    assert_eq!(upd.y, i32::MIN);
}

#[test]
fn save_paths() {
    assert_eq!(get_save_path(None), "saves/tbg.db");
    assert_eq!(get_save_path(Some("test.db")), "saves/test.db");
    assert_eq!(get_save_path(Some("/tmp/x.db")), "/tmp/x.db");
    assert_eq!(get_save_path(Some("")), "saves/");
    assert_eq!(
        test_db_path(0x67e5504410b1426f9247bb680e5fe0c8),
        "test_67e55044-10b1-426f-9247-bb680e5fe0c8.db"
    );
}

#[test]
fn new_game_flag() {
    let args: Vec<String> = vec!["tbg".into(), "--new-game".into()];
    assert!(GameArgs::from_args(&args).new_game);
    let args: Vec<String> = vec!["tbg".into(), "--new".into()];
    assert!(!GameArgs::from_args(&args).new_game);
    assert!(!GameArgs::from_args(&Vec::new()).new_game);
}

#[test]
fn text_helpers() {
    assert_eq!(trim("  \u{3000}hi there\t\n"), "hi there");
    assert_eq!(trim(""), "");
    assert!(is_blank(" \u{a0}\u{2028} "));
    assert!(!is_blank(" x "));
    assert_eq!(i32_to_string(0), "0");
    assert_eq!(i32_to_string(2147483647), "2147483647");
    assert_eq!(i64_to_string(i64::MIN), "-9223372036854775808");
    assert_eq!(center("ab", 7), "  ab   ");
    assert_eq!(center("abcdef", 3), "abcdef");
    assert_eq!(repeat("ab", 3), "ababab");
    assert_eq!(format!("{:^9}", "odd"), center("odd", 9));
}

#[test]
fn counter_app_keys() {
    let mut app = App::new();
    app.handle_key(Key::Right);
    app.handle_key(Key::Right);
    app.handle_key(Key::Left);
    assert_eq!(app.counter, 1);
    app.handle_key(Key::Char('i'));
    assert!(app.input_mode);
    app.handle_key(Key::Char('q'));
    app.handle_key(Key::Char('x'));
    app.handle_key(Key::Backspace);
    app.handle_key(Key::Left);
    assert_eq!(app.player_name, "q");
    assert_eq!(app.counter, 1);
    assert!(!app.exit);
    app.handle_key(Key::Enter);
    assert!(!app.input_mode);
    app.handle_key(Key::Char('q'));
    assert!(app.exit);
}

#[test]
fn counter_app_frame() {
    let mut app = App::new();
    app.handle_key(Key::Char('i'));
    app.handle_key(Key::Char('Z'));
    let lines = app.frame(20, 10);
    assert_eq!(lines.len(), 9);
    assert_eq!(lines[0], format!("\u{250f}{}\u{2513}", "\u{2501}".repeat(18)));
    assert_eq!(lines[1], format!("\u{2503}{}\u{2503}", " ".repeat(18)));
    assert_eq!(lines[3], "\u{2503}   Counter App    \u{2503}");
    assert_eq!(lines[4], "\u{2503}     Value: 0     \u{2503}");
    assert_eq!(lines[6], "\u{2503}  Enter Name: Z   \u{2503}");
    assert_eq!(lines[8], format!("\u{2517}{}\u{251b}", "\u{2501}".repeat(18)));
    let narrow = App::new().frame(3, 6);
    assert_eq!(narrow.len(), 6);
    assert_eq!(narrow[1], "\u{2503}Counter App\u{2503}");
    // The help line is wider than 18 columns and is not cut.
    assert_eq!(lines[5].chars().count(), 55);
    let wide = app.frame(60, 12);
    assert_eq!(wide.len(), 11);
    for l in &wide {
        assert_eq!(l.chars().count(), 60);
    }
}
