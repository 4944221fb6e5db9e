use grammarlens::floating_panel::{
    calculate_panel_position, calculate_panel_position_on_screen, cursor_or_default, ScreenPosition,
};
use grammarlens::text::{count_words, is_blank, str_eq, str_less, to_lowercase, usize_to_decimal};

#[test]
fn panel_goes_above_cursor_when_there_is_room() {
    let cursor = ScreenPosition { x: 500, y: 500 };
    let p = calculate_panel_position_on_screen(&cursor, 360, 300, 1920, 1080);
    assert_eq!(p, ScreenPosition { x: 320, y: 188 });
}

#[test]
fn panel_goes_below_cursor_near_top_of_screen() {
    let cursor = ScreenPosition { x: 5, y: 5 };
    let p = calculate_panel_position_on_screen(&cursor, 360, 300, 1920, 1080);
    assert_eq!(p, ScreenPosition { x: 12, y: 17 });
}

#[test]
fn panel_is_pulled_back_onto_the_screen() {
    let cursor = ScreenPosition { x: 1900, y: 100 };
    let p = calculate_panel_position_on_screen(&cursor, 360, 1000, 1920, 1080);
    // below the cursor would end at 1212 > 1080, so it is pulled up
    assert_eq!(p.y, 1080 - 1000 - 12);
    assert_eq!(p.x, 1920 - 360 - 12);
    assert!(p.x + 360 <= 1920);
    assert!(p.y + 1000 <= 1080);
}

#[test]
fn panel_width_is_halved_toward_zero() {
    let cursor = ScreenPosition { x: 100, y: 500 };
    let p = calculate_panel_position_on_screen(&cursor, 7, 10, 1920, 1080);
    assert_eq!(p.x, 97);
}

#[test]
fn panel_without_screen_size_keeps_column() {
    let cursor = ScreenPosition { x: 42, y: 500 };
    let p = calculate_panel_position(&cursor, 360, 300);
    assert_eq!(p, ScreenPosition { x: 42, y: 188 });
}

#[test]
fn panel_without_screen_size_saturates() {
    let cursor = ScreenPosition { x: 0, y: i32::MIN + 5 };
    let p = calculate_panel_position(&cursor, 360, 300);
    assert_eq!(p.y, i32::MIN);
}

#[test]
fn unknown_cursor_uses_default_anchor() {
    assert_eq!(cursor_or_default(None), ScreenPosition { x: 400, y: 400 });
    let c = ScreenPosition { x: 1, y: 2 };
    assert_eq!(cursor_or_default(Some(c)), c);
}

#[test]
fn blank_text_is_only_white_space() {
    assert!(is_blank(""));
    assert!(is_blank(" \t\n\r\u{a0}"));
    assert!(!is_blank("  a "));
}

#[test]
fn words_are_runs_of_non_space() {
    assert_eq!(count_words(""), 0);
    assert_eq!(count_words("   "), 0);
    assert_eq!(count_words("one"), 1);
    assert_eq!(count_words("  one two\tthree\n four  "), 4);
}

#[test]
fn lowercase_and_decimal_wrappers() {
    assert_eq!(to_lowercase("NotePad.EXE"), "notepad.exe");
    assert_eq!(usize_to_decimal(0), "0");
    assert_eq!(usize_to_decimal(10000), "10000");
    assert_eq!(usize_to_decimal(9), "9");
    assert_eq!(usize_to_decimal(1234567890), "1234567890");
    assert_eq!(usize_to_decimal(usize::MAX), usize::MAX.to_string());
}

#[test]
fn string_order_and_equality() {
    assert!(str_eq("abc", "abc"));
    assert!(!str_eq("abc", "abd"));
    assert!(str_less("abc", "abd"));
    assert!(str_less("ab", "abc"));
    assert!(!str_less("abc", "ab"));
    assert!(!str_less("abc", "abc"));
    assert!(str_less("Zed", "apple"));
}
