//! What happens when the correction shortcut is pressed: the decisions
//! between reading the selection, asking the model and showing the result.
//! The caller performs each request and effect and reports back.

use vstd::prelude::*;
use vstd::utf8::encode_utf8;
use crate::app_filter::{app_disabled, foreground_name, get_foreground_app, is_app_disabled, opt_view};
use crate::clipboard::{Capture, capture_selected_text};
use crate::corrections::{CorrectionResponse, CorrectionResult};
use crate::floating_panel::{ScreenPosition, cursor_or_default, default_cursor};
use crate::settings::Strictness;
use crate::text::{blank, count_words, decimal, usize_to_decimal, word_count};

verus! {

/// The longest selection checked at once, in bytes.
pub const MAX_TEXT_LENGTH: usize = 10000;

/// The most words checked at once.
pub const MAX_WORDS: usize = 1500;

/// Error shown when no API key is configured.
pub const NO_KEY_MESSAGE: &'static str =
    "API key not configured. Right-click the tray icon → Settings to add your Gemini API key.";

/// Error shown when the selection could not be read.
pub const CAPTURE_FAILED_MESSAGE: &'static str = "Failed to capture text. Please try again.";

/// Error given when the panel asks to apply a correction and none is pending.
pub const NO_PENDING_MESSAGE: &'static str = "No pending correction found to apply.";

/// The settings a correction run reads when it starts.
#[derive(Clone, Debug, PartialEq, Eq)]
pub struct TriggerSettings {
    /// The API key from the credential store.
    pub api_key: String,
    pub strictness: Strictness,
    pub learn_mode: bool,
    pub auto_apply: bool,
    pub disabled_apps: Vec<String>,
}

/// What the floating panel shows.
#[derive(Debug, PartialEq, Eq)]
pub enum PanelContent {
    /// The corrections, with explanations in Learn Mode.
    Corrections { result: CorrectionResult, learn_mode: bool },
    /// A short notice.
    Info { message: String, subtitle: String },
    /// An error.
    Error { message: String },
}

/// The floating panel to show: its size, the point it is placed against
/// and its content.
#[derive(Debug, PartialEq, Eq)]
pub struct PanelShow {
    pub anchor: ScreenPosition,
    pub width: i32,
    pub height: i32,
    pub content: PanelContent,
}

/// Something the caller does before going on.
#[derive(Debug, PartialEq, Eq)]
pub enum TriggerEffect {
    /// Put this content back on the clipboard (nothing when `None`).
    RestoreClipboard(Option<String>),
    /// Keep this corrected text for the panel's "apply" button.
    StorePending(String),
    /// Show the floating panel.
    ShowPanel(PanelShow),
}

/// What the run needs next from the caller.
#[derive(Debug, PartialEq, Eq)]
pub enum TriggerRequest {
    /// The image path of the focused application's process; answer with `on_foreground`.
    ForegroundApp,
    /// Save the clipboard, copy the selection; answer with `on_selection`.
    Selection,
    /// Run a grammar check; answer with `on_grammar_checked`.
    GrammarCheck { api_key: String, text: String, strictness: Strictness },
    /// Paste `text` and then put `clipboard` back; answer with `on_applied`.
    ApplyCorrection { text: String, clipboard: Option<String> },
    /// The run is over.
    Done,
}

/// The effects to perform, in order, and the next request.
#[derive(Debug, PartialEq, Eq)]
pub struct TriggerStep {
    pub effects: Vec<TriggerEffect>,
    pub request: TriggerRequest,
}

/// One run of the correction shortcut.
#[derive(Debug)]
pub struct CorrectionTrigger {
    /// Where the cursor was when the shortcut was pressed.
    pub cursor: Option<ScreenPosition>,
    pub settings: TriggerSettings,
    /// The selected text and the clipboard content saved before copying it,
    /// once captured and while the model is asked.
    pub selection: Option<(String, Option<String>)>,
    /// The number of corrections being pasted, while they are.
    pub applying: Option<usize>,
}

/// The height of the corrections panel: 180 pixels and 60 per correction,
/// at most 400.
pub open spec fn corrections_panel_height(num_corrections: nat) -> int {
    if 180 + 60 * num_corrections > 400 {
        400
    } else {
        (180 + 60 * num_corrections) as int
    }
}

/// The height of the corrections panel for `num_corrections` corrections.
pub fn corrections_panel_height_for(num_corrections: usize) -> (r: i32)
    ensures
        r == corrections_panel_height(num_corrections as nat),
        num_corrections <= 3 ==> r == 180 + 60 * num_corrections,
        num_corrections >= 4 ==> r == 400,
        r <= 400,
{
    if num_corrections >= 4 {
        400
    } else {
        180 + 60 * (num_corrections as i32)
    }
}

/// The corrections panel is 180 pixels high plus 60 for each correction,
/// capped at 400: below the cap each extra correction adds exactly 60 pixels.
pub proof fn lemma_corrections_panel_height(num_corrections: nat)
    ensures
        180 + 60 * num_corrections <= 400 ==> corrections_panel_height(num_corrections) == 180 + 60
            * num_corrections,
        180 + 60 * num_corrections > 400 ==> corrections_panel_height(num_corrections) == 400,
        corrections_panel_height(num_corrections) <= 400,
        corrections_panel_height(num_corrections) >= 180,
        num_corrections < 3 ==> corrections_panel_height(num_corrections + 1)
            == corrections_panel_height(num_corrections) + 60,
{
}

/// The notice after pasting reads "<n> corrections applied.", in the
/// singular ("1 correction applied.") only for one correction.
pub proof fn lemma_applied_message_plural(n: nat)
    ensures
        n != 1 ==> applied_message(n) == decimal(n) + " corrections applied."@,
        applied_message(1) == "1 correction applied."@,
{
    reveal_strlit(" correction");
    reveal_strlit("s");
    reveal_strlit(" applied.");
    reveal_strlit(" corrections applied.");
    reveal_strlit("1 correction applied.");
    assert(" correction"@ + "s"@ + " applied."@ =~= " corrections applied."@);
    assert(decimal(1) =~= seq!['1']);
    assert(decimal(1) + " correction"@ + Seq::<char>::empty() + " applied."@ =~= "1 correction applied."@);
}

/// Errors are shown in a 340 by 140 panel, notices in a 320 by 120 one and
/// corrections in a 360 wide one; without a known cursor the panel is
/// placed against (400, 400).
pub proof fn lemma_panel_sizes(
    e: TriggerEffect,
    cursor: Option<ScreenPosition>,
    message: Seq<char>,
    subtitle: Seq<char>,
    result: CorrectionResult,
    learn_mode: bool,
)
    ensures
        shows_error(e, cursor, message) ==> (e matches TriggerEffect::ShowPanel(p) && p.width == 340
            && p.height == 140),
        shows_info(e, cursor, message, subtitle) ==> (e matches TriggerEffect::ShowPanel(p) && p.width
            == 320 && p.height == 120),
        shows_corrections(e, cursor, result, learn_mode) ==> (e matches TriggerEffect::ShowPanel(p)
            && p.width == 360),
        anchor_of(None) == (ScreenPosition { x: 400, y: 400 }),
        cursor matches Some(c) ==> anchor_of(cursor) == c,
{
}

/// `e` shows the error panel (340 by 140) with `message`.
pub open spec fn shows_error(e: TriggerEffect, cursor: Option<ScreenPosition>, message: Seq<char>) -> bool {
    &&& e matches TriggerEffect::ShowPanel(p)
    &&& p.anchor == anchor_of(cursor)
    &&& p.width == 340 && p.height == 140
    &&& p.content matches PanelContent::Error { message: m }
    &&& m@ == message
}

/// `e` shows the notice panel (320 by 120) with `message` and `subtitle`.
pub open spec fn shows_info(
    e: TriggerEffect,
    cursor: Option<ScreenPosition>,
    message: Seq<char>,
    subtitle: Seq<char>,
) -> bool {
    &&& e matches TriggerEffect::ShowPanel(p)
    &&& p.anchor == anchor_of(cursor)
    &&& p.width == 320 && p.height == 120
    &&& p.content matches PanelContent::Info { message: m, subtitle: s }
    &&& m@ == message && s@ == subtitle
}

/// `e` shows `result` in the corrections panel (360 wide).
pub open spec fn shows_corrections(
    e: TriggerEffect,
    cursor: Option<ScreenPosition>,
    result: CorrectionResult,
    learn_mode: bool,
) -> bool {
    &&& e matches TriggerEffect::ShowPanel(p)
    &&& p.anchor == anchor_of(cursor)
    &&& p.width == 360
    &&& p.height == corrections_panel_height(result.num_corrections as nat)
    &&& p.content == PanelContent::Corrections { result, learn_mode }
}

/// The point the panel is placed against.
pub open spec fn anchor_of(cursor: Option<ScreenPosition>) -> ScreenPosition {
    match cursor {
        Some(c) => c,
        None => default_cursor(),
    }
}

/// `e` puts `content` back on the clipboard.
pub open spec fn restores(e: TriggerEffect, content: Option<String>) -> bool {
    e == TriggerEffect::RestoreClipboard(content)
}

/// The length of `s` in UTF-8 bytes, as `str::len` reports it.
pub open spec fn byte_length(s: Seq<char>) -> usize {
    encode_utf8(s).len() as usize
}

/// The message for a selection longer than `MAX_TEXT_LENGTH` bytes.
pub open spec fn too_long_message(length: nat) -> Seq<char> {
    "Selected text is too long ("@ + decimal(length) + " chars). Please select up to "@ + decimal(
        MAX_TEXT_LENGTH as nat,
    ) + " characters at a time."@
}

/// The message for a selection of more than `MAX_WORDS` words.
pub open spec fn too_many_words_message(words: nat) -> Seq<char> {
    "Selected text is too long ("@ + decimal(words) + " words). Please select up to 1500 words at a time."@
}

/// The notice after pasting `n` corrections.
pub open spec fn applied_message(n: nat) -> Seq<char> {
    decimal(n) + " correction"@ + (if n == 1 {
        Seq::<char>::empty()
    } else {
        "s"@
    }) + " applied."@
}

fn error_panel(cursor: Option<ScreenPosition>, message: String) -> (r: TriggerEffect)
    ensures
        shows_error(r, cursor, message@),
{
    TriggerEffect::ShowPanel(
        PanelShow {
            anchor: cursor_or_default(cursor),
            width: 340,
            height: 140,
            content: PanelContent::Error { message },
        },
    )
}

fn info_panel(cursor: Option<ScreenPosition>, message: String, subtitle: String) -> (r:
    TriggerEffect)
    ensures
        shows_info(r, cursor, message@, subtitle@),
{
    TriggerEffect::ShowPanel(
        PanelShow {
            anchor: cursor_or_default(cursor),
            width: 320,
            height: 120,
            content: PanelContent::Info { message, subtitle },
        },
    )
}

fn corrections_panel(cursor: Option<ScreenPosition>, result: CorrectionResult, learn_mode: bool) -> (r:
    TriggerEffect)
    ensures
        shows_corrections(r, cursor, result, learn_mode),
{
    let height: i32 = corrections_panel_height_for(result.num_corrections);
    TriggerEffect::ShowPanel(
        PanelShow {
            anchor: cursor_or_default(cursor),
            width: 360,
            height,
            content: PanelContent::Corrections { result, learn_mode },
        },
    )
}

fn finished(effects: Vec<TriggerEffect>) -> (r: TriggerStep)
    ensures
        r.effects == effects,
        r.request == TriggerRequest::Done,
{
    TriggerStep { effects, request: TriggerRequest::Done }
}

impl CorrectionTrigger {
    /// A run started with the cursor where it was and the settings as they were.
    pub fn new(cursor: Option<ScreenPosition>, settings: TriggerSettings) -> (r: Self)
        ensures
            r.cursor == cursor,
            r.settings == settings,
            r.selection is None,
            r.applying is None,
    {
        CorrectionTrigger { cursor, settings, selection: None, applying: None }
    }

    /// The step that checks the API key: without one the run ends with an
    /// error; with one the selection is read.
    fn after_filter(&self) -> (r: TriggerStep)
        ensures
            self.settings.api_key@.len() == 0 ==> r.request == TriggerRequest::Done
                && r.effects@.len() == 1 && shows_error(r.effects@[0], self.cursor, NO_KEY_MESSAGE@),
            self.settings.api_key@.len() > 0 ==> r.effects@.len() == 0 && r.request
                == TriggerRequest::Selection,
    {
        if self.settings.api_key.as_str().is_empty() {
            let mut effects: Vec<TriggerEffect> = Vec::new();
            effects.push(error_panel(self.cursor, String::from_str(NO_KEY_MESSAGE)));
            finished(effects)
        } else {
            TriggerStep { effects: Vec::new(), request: TriggerRequest::Selection }
        }
    }

    /// The first step: with disabled applications the focused one is asked
    /// for first; otherwise a missing API key ends the run with an error,
    /// and the selection is read when there is one.
    pub fn start(&self) -> (r: TriggerStep)
        ensures
            self.settings.disabled_apps@.len() > 0 ==> r.effects@.len() == 0 && r.request
                == TriggerRequest::ForegroundApp,
            self.settings.disabled_apps@.len() == 0 && self.settings.api_key@.len() == 0
                ==> r.request == TriggerRequest::Done && r.effects@.len() == 1 && shows_error(
                r.effects@[0],
                self.cursor,
                NO_KEY_MESSAGE@,
            ),
            self.settings.disabled_apps@.len() == 0 && self.settings.api_key@.len() > 0
                ==> r.effects@.len() == 0 && r.request == TriggerRequest::Selection,
    {
        if self.settings.disabled_apps.len() == 0 {
            self.after_filter()
        } else {
            TriggerStep { effects: Vec::new(), request: TriggerRequest::ForegroundApp }
        }
    }

    /// With the focused application known (from its process's image path):
    /// the run ends silently where correction is switched off; otherwise a
    /// missing API key ends it with an error, and the selection is read
    /// when there is one.
    pub fn on_foreground(&self, image_path: Option<String>) -> (r: TriggerStep)
        ensures
            app_disabled(self.settings.disabled_apps@, foreground_name(opt_view(image_path)))
                ==> r.effects@.len() == 0 && r.request == TriggerRequest::Done,
            !app_disabled(self.settings.disabled_apps@, foreground_name(opt_view(image_path)))
                && self.settings.api_key@.len() == 0 ==> r.request == TriggerRequest::Done
                && r.effects@.len() == 1 && shows_error(r.effects@[0], self.cursor, NO_KEY_MESSAGE@),
            !app_disabled(self.settings.disabled_apps@, foreground_name(opt_view(image_path)))
                && self.settings.api_key@.len() > 0 ==> r.effects@.len() == 0 && r.request
                == TriggerRequest::Selection,
    {
        let app = get_foreground_app(image_path);
        if is_app_disabled(self.settings.disabled_apps.as_slice(), app) {
            finished(Vec::new())
        } else {
            self.after_filter()
        }
    }

    /// With the selection read: a failed or empty capture ends the run with
    /// an error (after putting the clipboard back when nothing was selected);
    /// a text over `MAX_TEXT_LENGTH` bytes or `MAX_WORDS` words ends it with an
    /// error and puts the clipboard back; otherwise the model is asked.
    pub fn on_selection(&mut self, saved_clipboard: Option<String>, copied: Result<String, String>) -> (r:
        TriggerStep)
        ensures
            final(self).cursor == old(self).cursor,
            final(self).settings == old(self).settings,
            final(self).applying == old(self).applying,
            match copied {
                Err(_) => {
                    &&& r.request == TriggerRequest::Done
                    &&& r.effects@.len() == 1
                    &&& shows_error(r.effects@[0], old(self).cursor, CAPTURE_FAILED_MESSAGE@)
                    &&& final(self).selection == old(self).selection
                },
                Ok(text) => if blank(text@) {
                    &&& r.request == TriggerRequest::Done
                    &&& r.effects@.len() == 2
                    &&& restores(r.effects@[0], saved_clipboard)
                    &&& shows_error(r.effects@[1], old(self).cursor, CAPTURE_FAILED_MESSAGE@)
                    &&& final(self).selection == old(self).selection
                } else if byte_length(text@) > MAX_TEXT_LENGTH {
                    &&& r.request == TriggerRequest::Done
                    &&& r.effects@.len() == 2
                    &&& shows_error(
                        r.effects@[0],
                        old(self).cursor,
                        too_long_message(byte_length(text@) as nat),
                    )
                    &&& restores(r.effects@[1], saved_clipboard)
                    &&& final(self).selection == old(self).selection
                } else if word_count(text@) > MAX_WORDS {
                    &&& r.request == TriggerRequest::Done
                    &&& r.effects@.len() == 2
                    &&& shows_error(r.effects@[0], old(self).cursor, too_many_words_message(word_count(text@)))
                    &&& restores(r.effects@[1], saved_clipboard)
                    &&& final(self).selection == old(self).selection
                } else {
                    &&& r.effects@.len() == 0
                    &&& r.request == TriggerRequest::GrammarCheck {
                        api_key: old(self).settings.api_key,
                        text,
                        strictness: old(self).settings.strictness,
                    }
                    &&& final(self).selection == Some((text, saved_clipboard))
                },
            },
    {
        let capture = capture_selected_text(saved_clipboard, copied);
        match capture {
            Capture::CopyFailed(_) => {
                let mut effects: Vec<TriggerEffect> = Vec::new();
                effects.push(error_panel(self.cursor, String::from_str(CAPTURE_FAILED_MESSAGE)));
                finished(effects)
            },
            Capture::NothingSelected { saved_clipboard } => {
                let mut effects: Vec<TriggerEffect> = Vec::new();
                effects.push(TriggerEffect::RestoreClipboard(saved_clipboard));
                effects.push(error_panel(self.cursor, String::from_str(CAPTURE_FAILED_MESSAGE)));
                finished(effects)
            },
            Capture::Selected { text, saved_clipboard } => {
                let length = text.as_str().len();
                if length > MAX_TEXT_LENGTH {
                    let mut message = String::from_str("Selected text is too long (");
                    message.append(usize_to_decimal(length).as_str());
                    message.append(" chars). Please select up to ");
                    message.append(usize_to_decimal(MAX_TEXT_LENGTH).as_str());
                    message.append(" characters at a time.");
                    let mut effects: Vec<TriggerEffect> = Vec::new();
                    effects.push(error_panel(self.cursor, message));
                    effects.push(TriggerEffect::RestoreClipboard(saved_clipboard));
                    return finished(effects);
                }
                let words = count_words(text.as_str());
                if words > MAX_WORDS {
                    let mut message = String::from_str("Selected text is too long (");
                    message.append(usize_to_decimal(words).as_str());
                    message.append(" words). Please select up to 1500 words at a time.");
                    let mut effects: Vec<TriggerEffect> = Vec::new();
                    effects.push(error_panel(self.cursor, message));
                    effects.push(TriggerEffect::RestoreClipboard(saved_clipboard));
                    return finished(effects);
                }
                let request = TriggerRequest::GrammarCheck {
                    api_key: self.settings.api_key.clone(),
                    text: text.clone(),
                    strictness: self.settings.strictness,
                };
                self.selection = Some((text, saved_clipboard));
                TriggerStep { effects: Vec::new(), request }
            },
        }
    }

    /// With the outcome of the grammar check: a failed check ends with the clipboard put
    /// back and the error shown. A result with changes is kept as the pending
    /// correction, then shown with explanations in Learn Mode, pasted when
    /// auto-apply is on, and shown for review otherwise. A result without
    /// changes ends with "Looks good!". Without a captured selection nothing
    /// happens.
    pub fn on_grammar_checked(&mut self, outcome: Result<CorrectionResponse, String>) -> (r:
        TriggerStep)
        ensures
            final(self).cursor == old(self).cursor,
            final(self).settings == old(self).settings,
            final(self).selection is None,
            match old(self).selection {
                None => r.request == TriggerRequest::Done && r.effects@.len() == 0
                    && final(self).applying == old(self).applying,
                Some((text, clipboard)) => match outcome {
                    Err(e) => {
                        &&& r.request == TriggerRequest::Done
                        &&& r.effects@.len() == 2
                        &&& restores(r.effects@[0], clipboard)
                        &&& shows_error(r.effects@[1], old(self).cursor, e@)
                        &&& final(self).applying == old(self).applying
                    },
                    Ok(response) => {
                        let result = CorrectionResult {
                            original_text: text,
                            corrected_text: response.corrected_text,
                            has_changes: response.has_changes,
                            corrections: response.corrections,
                            num_corrections: response.corrections.len(),
                        };
                        if !response.has_changes {
                            &&& r.request == TriggerRequest::Done
                            &&& r.effects@.len() == 2
                            &&& restores(r.effects@[0], clipboard)
                            &&& shows_info(
                                r.effects@[1],
                                old(self).cursor,
                                "Looks good!"@,
                                "No changes needed."@,
                            )
                            &&& final(self).applying == old(self).applying
                        } else if old(self).settings.learn_mode {
                            &&& r.request == TriggerRequest::Done
                            &&& r.effects@.len() == 3
                            &&& r.effects@[0] == TriggerEffect::StorePending(response.corrected_text)
                            &&& restores(r.effects@[1], clipboard)
                            &&& shows_corrections(r.effects@[2], old(self).cursor, result, true)
                            &&& final(self).applying == old(self).applying
                        } else if old(self).settings.auto_apply {
                            &&& r.effects@.len() == 1
                            &&& r.effects@[0] == TriggerEffect::StorePending(response.corrected_text)
                            &&& r.request == TriggerRequest::ApplyCorrection {
                                text: response.corrected_text,
                                clipboard,
                            }
                            &&& final(self).applying == Some(response.corrections.len())
                        } else {
                            &&& r.request == TriggerRequest::Done
                            &&& r.effects@.len() == 3
                            &&& r.effects@[0] == TriggerEffect::StorePending(response.corrected_text)
                            &&& restores(r.effects@[1], clipboard)
                            &&& shows_corrections(r.effects@[2], old(self).cursor, result, false)
                            &&& final(self).applying == old(self).applying
                        }
                    },
                },
            },
    {
        let selection = self.selection.take();
        match selection {
            None => finished(Vec::new()),
            Some((text, clipboard)) => {
                match outcome {
                    Err(e) => {
                        let mut effects: Vec<TriggerEffect> = Vec::new();
                        effects.push(TriggerEffect::RestoreClipboard(clipboard));
                        effects.push(error_panel(self.cursor, e));
                        finished(effects)
                    },
                    Ok(response) => {
                        let result = CorrectionResult::from_response(text, response);
                        let mut effects: Vec<TriggerEffect> = Vec::new();
                        if result.has_changes {
                            effects.push(TriggerEffect::StorePending(result.corrected_text.clone()));
                            if self.settings.learn_mode {
                                effects.push(TriggerEffect::RestoreClipboard(clipboard));
                                effects.push(corrections_panel(self.cursor, result, true));
                                finished(effects)
                            } else if self.settings.auto_apply {
                                self.applying = Some(result.num_corrections);
                                TriggerStep {
                                    effects,
                                    request: TriggerRequest::ApplyCorrection {
                                        text: result.corrected_text,
                                        clipboard,
                                    },
                                }
                            } else {
                                effects.push(TriggerEffect::RestoreClipboard(clipboard));
                                effects.push(corrections_panel(self.cursor, result, false));
                                finished(effects)
                            }
                        } else {
                            effects.push(TriggerEffect::RestoreClipboard(clipboard));
                            effects.push(
                                info_panel(
                                    self.cursor,
                                    String::from_str("Looks good!"),
                                    String::from_str("No changes needed."),
                                ),
                            );
                            finished(effects)
                        }
                    },
                }
            },
        }
    }

    /// With the correction pasted (or not): an error is shown, or the notice
    /// "Fixed!" with the number of corrections applied.
    pub fn on_applied(&mut self, outcome: Result<(), String>) -> (r: TriggerStep)
        ensures
            final(self).cursor == old(self).cursor,
            final(self).settings == old(self).settings,
            final(self).selection == old(self).selection,
            final(self).applying is None,
            r.request == TriggerRequest::Done,
            match old(self).applying {
                None => r.effects@.len() == 0,
                Some(n) => r.effects@.len() == 1 && match outcome {
                    Err(e) => shows_error(r.effects@[0], old(self).cursor, e@),
                    Ok(_) => {
                        &&& shows_info(
                            r.effects@[0],
                            old(self).cursor,
                            "Fixed!"@,
                            applied_message(n as nat),
                        )
                        &&& n != 1 ==> shows_info(
                            r.effects@[0],
                            old(self).cursor,
                            "Fixed!"@,
                            decimal(n as nat) + " corrections applied."@,
                        )
                        &&& n == 1 ==> shows_info(
                            r.effects@[0],
                            old(self).cursor,
                            "Fixed!"@,
                            "1 correction applied."@,
                        )
                    },
                },
            },
    {
        let applying = self.applying.take();
        match applying {
            None => finished(Vec::new()),
            Some(n) => {
                let mut effects: Vec<TriggerEffect> = Vec::new();
                match outcome {
                    Err(e) => {
                        effects.push(error_panel(self.cursor, e));
                    },
                    Ok(_) => {
                        let mut subtitle = usize_to_decimal(n);
                        subtitle.append(" correction");
                        if n != 1 {
                            subtitle.append("s");
                        }
                        subtitle.append(" applied.");
                        proof {
                            if n == 1 {
                                assert(subtitle@ =~= applied_message(n as nat));
                            }
                            lemma_applied_message_plural(n as nat);
                        }
                        effects.push(info_panel(self.cursor, String::from_str("Fixed!"), subtitle));
                    },
                }
                finished(effects)
            },
        }
    }
}

/// Takes the pending correction for pasting from the panel; once taken it
/// is no longer pending. Without one, the error `NO_PENDING_MESSAGE`.
pub fn take_pending_correction(pending: &mut Option<String>) -> (r: Result<String, String>)
    ensures
        *final(pending) is None,
        match *old(pending) {
            Some(text) => r == Ok::<String, String>(text),
            None => r matches Err(m) && m@ == NO_PENDING_MESSAGE@,
        },
{
    match pending.take() {
        Some(text) => Ok(text),
        None => Err(String::from_str(NO_PENDING_MESSAGE)),
    }
}

} // verus!
