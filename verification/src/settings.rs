//! The user's settings, the API key kept apart from them, and how stored
//! settings are read back.

use vstd::prelude::*;
use crate::json::{JsonValue, JsonMember, at_key, as_text, member_value, not_named, remove_member};

verus! {

broadcast use vstd::seq_lib::group_seq_properties;

/// How much the model is allowed to change.
#[derive(Clone, Copy, Debug, PartialEq, Eq, Structural)]
pub enum Strictness {
    Relaxed,
    Balanced,
    Strict,
}

/// Colour theme of the windows.
#[derive(Clone, Copy, Debug, PartialEq, Eq, Structural)]
pub enum Theme {
    Light,
    Dark,
    System,
}

/// All user-configurable settings. The API key is not among them: it lives
/// in the operating system's credential store.
#[derive(Clone, Debug, PartialEq, Eq)]
pub struct AppSettings {
    /// Keyboard shortcut, e.g. "CmdOrCtrl+Alt+G".
    pub shortcut: String,
    /// Learn Mode shows the explanation panel instead of pasting.
    pub learn_mode: bool,
    /// Whether the floating icon is shown.
    pub show_floating_icon: bool,
    /// Whether corrections are pasted automatically when Learn Mode is off.
    pub auto_apply: bool,
    /// Correction strictness level.
    pub strictness: Strictness,
    /// Whether to also improve word choice, clarity and flow.
    pub enhance_writing: bool,
    /// How long a notification stays, in seconds.
    pub toast_duration: u32,
    /// Theme preference.
    pub theme: Theme,
    /// Launch when the user logs in.
    pub launch_on_startup: bool,
    /// Lower-case process names of the applications where correction is off.
    pub disabled_apps: Vec<String>,
}

/// The settings together with the API key read from the credential store;
/// handed to the settings window, never stored as a whole.
#[derive(Clone, Debug, PartialEq, Eq)]
pub struct AppSettingsWithKey {
    pub settings: AppSettings,
    pub api_key: String,
}

/// The shortcut used when none was configured or the configured one is invalid.
pub const DEFAULT_SHORTCUT: &'static str = "CmdOrCtrl+Alt+G";

/// The default shortcut's text.
pub open spec fn default_shortcut() -> Seq<char> {
    DEFAULT_SHORTCUT@
}

/// The settings of a fresh installation.
pub open spec fn is_default_settings(s: AppSettings) -> bool {
    &&& s.shortcut@ == default_shortcut()
    &&& !s.learn_mode
    &&& s.show_floating_icon
    &&& s.auto_apply
    &&& s.strictness == Strictness::Balanced
    &&& !s.enhance_writing
    &&& s.toast_duration == 3
    &&& s.theme == Theme::System
    &&& s.launch_on_startup
    &&& s.disabled_apps@.len() == 0
}

impl Default for AppSettings {
    fn default() -> (r: Self)
        ensures
            is_default_settings(r),
    {
        AppSettings {
            shortcut: String::from_str(DEFAULT_SHORTCUT),
            learn_mode: false,
            show_floating_icon: true,
            auto_apply: true,
            strictness: Strictness::Balanced,
            enhance_writing: false,
            toast_duration: 3,
            theme: Theme::System,
            launch_on_startup: true,
            disabled_apps: Vec::new(),
        }
    }
}

/// `s` with Learn Mode switched over and every other setting kept.
pub open spec fn with_learn_mode_toggled(s: AppSettings) -> AppSettings {
    AppSettings { learn_mode: !s.learn_mode, ..s }
}

impl AppSettings {
    /// Switches Learn Mode over (as the tray menu does) and returns its new value.
    pub fn toggle_learn_mode(&mut self) -> (r: bool)
        ensures
            *final(self) == with_learn_mode_toggled(*old(self)),
            final(self).learn_mode == !old(self).learn_mode,
            final(self).shortcut == old(self).shortcut,
            final(self).show_floating_icon == old(self).show_floating_icon,
            final(self).auto_apply == old(self).auto_apply,
            final(self).strictness == old(self).strictness,
            final(self).enhance_writing == old(self).enhance_writing,
            final(self).toast_duration == old(self).toast_duration,
            final(self).theme == old(self).theme,
            final(self).launch_on_startup == old(self).launch_on_startup,
            final(self).disabled_apps == old(self).disabled_apps,
            r == final(self).learn_mode,
            r == !old(self).learn_mode,
    {
        self.learn_mode = !self.learn_mode;
        self.learn_mode
    }
}

/// Toggling Learn Mode changes Learn Mode and nothing else.
pub proof fn lemma_toggle_changes_only_learn_mode(s: AppSettings)
    ensures
        with_learn_mode_toggled(s).learn_mode == !s.learn_mode,
        with_learn_mode_toggled(s).shortcut == s.shortcut,
        with_learn_mode_toggled(s).show_floating_icon == s.show_floating_icon,
        with_learn_mode_toggled(s).auto_apply == s.auto_apply,
        with_learn_mode_toggled(s).strictness == s.strictness,
        with_learn_mode_toggled(s).enhance_writing == s.enhance_writing,
        with_learn_mode_toggled(s).toast_duration == s.toast_duration,
        with_learn_mode_toggled(s).theme == s.theme,
        with_learn_mode_toggled(s).launch_on_startup == s.launch_on_startup,
        with_learn_mode_toggled(s).disabled_apps == s.disabled_apps,
{
}

/// Toggling Learn Mode twice gives back the settings one started from.
pub proof fn lemma_toggle_learn_mode_twice(s: AppSettings)
    ensures
        with_learn_mode_toggled(with_learn_mode_toggled(s)) == s,
{
}

/// What saving an API key does to the credential store.
#[derive(Clone, Debug, PartialEq, Eq)]
pub enum ApiKeyUpdate {
    /// The key is empty: the stored credential is deleted.
    Delete,
    /// The key is stored.
    Store(String),
}

/// Saving an empty key deletes the credential; any other key is stored as is.
pub fn api_key_update(key: &str) -> (r: ApiKeyUpdate)
    ensures
        key@.len() == 0 <==> r is Delete,
        r matches ApiKeyUpdate::Store(s) ==> s@ == key@,
{
    if key.is_empty() {
        ApiKeyUpdate::Delete
    } else {
        ApiKeyUpdate::Store(String::from_str(key))
    }
}

/// The name under which older versions kept the API key in the settings object.
pub open spec fn legacy_key_name() -> Seq<char> {
    "api_key"@
}

/// The non-empty API key that older versions left in the stored settings.
pub open spec fn legacy_api_key(stored: Option<JsonValue>) -> Option<Seq<char>> {
    match as_text(at_key(stored, legacy_key_name())) {
        Some(k) => if k.len() > 0 {
            Some(k)
        } else {
            None
        },
        None => None,
    }
}

/// Only a non-empty text stored under `api_key` counts as a legacy key.
pub proof fn lemma_legacy_api_key(stored: Option<JsonValue>, key: Seq<char>)
    ensures
        legacy_key_name() == "api_key"@,
        as_text(at_key(stored, "api_key"@)) == Some(key) && key.len() > 0 ==> legacy_api_key(stored)
            == Some(key),
        as_text(at_key(stored, "api_key"@)) == Some(Seq::<char>::empty()) ==> legacy_api_key(
            stored,
        ) is None,
        as_text(at_key(stored, "api_key"@)) is None ==> legacy_api_key(stored) is None,
{
}

/// How stored settings are read back.
#[derive(Debug)]
pub struct SettingsLoadPlan {
    /// An API key found in the stored settings, to be moved to the credential store.
    pub legacy_api_key: Option<String>,
    /// Whether `settings_value` replaces what is stored.
    pub rewrite_store: bool,
    /// The value the settings are decoded from (defaults when absent).
    pub settings_value: Option<JsonValue>,
}

/// Plans the reading of the stored settings value: a non-empty API key left
/// in it is moved out (to the credential store), the value is stored again
/// without that member, and the settings are decoded from what is stored.
pub fn plan_settings_load(stored: Option<JsonValue>) -> (r: SettingsLoadPlan)
    ensures
        match legacy_api_key(stored) {
            Some(k) => {
                &&& r.legacy_api_key matches Some(s) && s@ == k
                &&& r.rewrite_store
                &&& stored matches Some(JsonValue::Object(m))
                &&& r.settings_value matches Some(JsonValue::Object(n))
                &&& n@ == m@.filter(not_named(legacy_key_name()))
            },
            None => {
                &&& r.legacy_api_key is None
                &&& !r.rewrite_store
                &&& r.settings_value == stored
            },
        },
{
    let mut found: Option<String> = None;
    match &stored {
        Some(v) => {
            match v.get("api_key") {
                Some(k) => {
                    match k.text() {
                        Some(t) => {
                            if !t.as_str().is_empty() {
                                found = Some(t.clone());
                            }
                        },
                        None => {},
                    }
                },
                None => {},
            }
        },
        None => {},
    }
    match found {
        Some(key) => {
            match stored {
                Some(JsonValue::Object(mut members)) => {
                    remove_member(&mut members, "api_key");
                    SettingsLoadPlan {
                        legacy_api_key: Some(key),
                        rewrite_store: true,
                        settings_value: Some(JsonValue::Object(members)),
                    }
                },
                other => {
                    SettingsLoadPlan { legacy_api_key: None, rewrite_store: false, settings_value: other }
                },
            }
        },
        None => SettingsLoadPlan { legacy_api_key: None, rewrite_store: false, settings_value: stored },
    }
}

proof fn lemma_no_member_named(members: Seq<JsonMember>, key: Seq<char>)
    requires
        forall|j: int| 0 <= j < members.len() ==> (#[trigger] members[j]).key@ != key,
    ensures
        member_value(members, key) is None,
    decreases members.len(),
{
    if members.len() > 0 {
        assert forall|j: int| 0 <= j < members.drop_first().len() implies (
        #[trigger] members.drop_first()[j]).key@ != key by {
            assert(members.drop_first()[j] == members[j + 1]);
        }
        lemma_no_member_named(members.drop_first(), key);
    }
}

/// Moving the API key out is done once: the settings value written back
/// (the stored object without its `api_key` member) holds no legacy key, so
/// reading it again moves nothing.
pub proof fn lemma_legacy_key_moved_once(stored: Vec<JsonMember>, rewritten: Vec<JsonMember>)
    requires
        rewritten@ == stored@.filter(not_named(legacy_key_name())),
    ensures
        legacy_api_key(Some(JsonValue::Object(rewritten))) is None,
{
    let kept = rewritten@;
    assert forall|j: int| 0 <= j < kept.len() implies (#[trigger] kept[j]).key@
        != legacy_key_name() by {
        stored@.lemma_filter_pred(not_named(legacy_key_name()), j);
    }
    lemma_no_member_named(kept, legacy_key_name());
}

} // verus!
