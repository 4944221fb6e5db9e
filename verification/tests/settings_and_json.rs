use grammarlens::json::{remove_member, JsonMember, JsonValue};
use grammarlens::settings::{
    api_key_update, plan_settings_load, ApiKeyUpdate, AppSettings, Strictness, Theme,
};
use grammarlens::tray::{tray_command, TrayCommand};

fn member(key: &str, value: JsonValue) -> JsonMember {
    JsonMember { key: key.to_string(), value }
}

fn text(s: &str) -> JsonValue {
    JsonValue::Text(s.to_string())
}

#[test]
fn default_settings_of_a_fresh_installation() {
    let s = AppSettings::default();
    assert_eq!(s.shortcut, "CmdOrCtrl+Alt+G");
    assert!(!s.learn_mode);
    assert!(s.show_floating_icon);
    assert!(s.auto_apply);
    assert_eq!(s.strictness, Strictness::Balanced);
    assert!(!s.enhance_writing);
    assert_eq!(s.toast_duration, 3);
    assert_eq!(s.theme, Theme::System);
    assert!(s.launch_on_startup);
    assert!(s.disabled_apps.is_empty());
}

#[test]
fn toggling_learn_mode_twice_restores_settings() {
    let mut s = AppSettings::default();
    let original = s.clone();
    assert!(s.toggle_learn_mode());
    assert!(s.learn_mode);
    assert!(!s.toggle_learn_mode());
    assert_eq!(s, original);
}

#[test]
fn empty_api_key_deletes_the_credential() {
    assert_eq!(api_key_update(""), ApiKeyUpdate::Delete);
    assert_eq!(api_key_update("abc"), ApiKeyUpdate::Store("abc".to_string()));
}

#[test]
fn json_lookup_by_key_and_index() {
    let v = JsonValue::Object(vec![
        member("a", JsonValue::Array(vec![text("x"), JsonValue::Null])),
        member("b", JsonValue::Bool(true)),
    ]);
    assert_eq!(v.get("b"), Some(&JsonValue::Bool(true)));
    assert_eq!(v.get("c"), None);
    let a = v.get("a").unwrap();
    assert_eq!(a.item(0).and_then(|x| x.text()), Some(&"x".to_string()));
    assert_eq!(a.item(1), Some(&JsonValue::Null));
    assert_eq!(a.item(2), None);
    assert_eq!(text("q").get("a"), None);
    assert_eq!(v.item(0), None);
}

#[test]
fn removing_a_member_keeps_the_others_in_order() {
    let mut m = vec![
        member("shortcut", text("Ctrl+G")),
        member("api_key", text("secret")),
        member("learn_mode", JsonValue::Bool(false)),
    ];
    remove_member(&mut m, "api_key");
    assert_eq!(
        m,
        vec![member("shortcut", text("Ctrl+G")), member("learn_mode", JsonValue::Bool(false))]
    );
}

#[test]
fn legacy_api_key_is_moved_out_once() {
    let stored = JsonValue::Object(vec![
        member("api_key", text("secret")),
        member("toast_duration", JsonValue::Number("3".to_string())),
    ]);
    let plan = plan_settings_load(Some(stored));
    assert_eq!(plan.legacy_api_key, Some("secret".to_string()));
    assert!(plan.rewrite_store);
    let rewritten = plan.settings_value.unwrap();
    assert_eq!(
        rewritten,
        JsonValue::Object(vec![member("toast_duration", JsonValue::Number("3".to_string()))])
    );
    let again = plan_settings_load(Some(rewritten));
    assert_eq!(again.legacy_api_key, None);
    assert!(!again.rewrite_store);
}

#[test]
fn empty_legacy_key_is_left_alone() {
    let stored = JsonValue::Object(vec![member("api_key", text(""))]);
    let plan = plan_settings_load(Some(stored));
    assert_eq!(plan.legacy_api_key, None);
    assert!(!plan.rewrite_store);
    assert_eq!(plan.settings_value, Some(JsonValue::Object(vec![member("api_key", text(""))])));
}

#[test]
fn nothing_stored_means_defaults() {
    let plan = plan_settings_load(None);
    assert_eq!(plan.legacy_api_key, None);
    assert!(!plan.rewrite_store);
    assert_eq!(plan.settings_value, None);
}

#[test]
fn tray_menu_entries() {
    assert_eq!(tray_command("settings"), Some(TrayCommand::OpenSettings));
    assert_eq!(tray_command("learn_mode"), Some(TrayCommand::ToggleLearnMode));
    assert_eq!(tray_command("quit"), Some(TrayCommand::Quit));
    assert_eq!(tray_command("other"), None);
}
