use grammarlens::app_filter::{
    enumerate_running_processes, get_foreground_app, is_app_disabled, is_hidden_process,
    path_file_name,
};
use grammarlens::clipboard::{capture_selected_text, Capture};
use grammarlens::corrections::{
    Correction, CorrectionCategory, CorrectionResponse, CorrectionResult, CorrectionSeverity,
};
use grammarlens::floating_panel::ScreenPosition;
use grammarlens::gemini::{
    api_error_message, build_system_prompt, check_grammar, finish_grammar_check,
    handle_send_outcome, reply_text, status_is_success, GrammarCheckStart, ReplyHandling,
    BALANCED_INSTRUCTION, GEMINI_API_URL, PROMPT_HEAD, PROMPT_TAIL, RELAXED_INSTRUCTION,
    STRICT_INSTRUCTION,
};
use grammarlens::json::{JsonMember, JsonValue};
use grammarlens::settings::Strictness;
use grammarlens::shortcuts::{
    corrections_panel_height_for, take_pending_correction, CorrectionTrigger, PanelContent,
    PanelShow, TriggerEffect, TriggerRequest, TriggerSettings,
};

fn strings(v: &[&str]) -> Vec<String> {
    v.iter().map(|s| s.to_string()).collect()
}

fn correction(original: &str, corrected: &str) -> Correction {
    Correction {
        original: original.to_string(),
        corrected: corrected.to_string(),
        category: CorrectionCategory::Grammar,
        severity: CorrectionSeverity::Error,
        explanation: "Subject and verb must agree.".to_string(),
    }
}

fn response(corrected: &str, has_changes: bool, n: usize) -> CorrectionResponse {
    CorrectionResponse {
        corrected_text: corrected.to_string(),
        has_changes,
        corrections: (0..n).map(|_| correction("is", "are")).collect(),
    }
}

fn settings(api_key: &str, learn_mode: bool, auto_apply: bool, disabled: &[&str]) -> TriggerSettings {
    TriggerSettings {
        api_key: api_key.to_string(),
        strictness: Strictness::Strict,
        learn_mode,
        auto_apply,
        disabled_apps: strings(disabled),
    }
}

fn error_effect(anchor: ScreenPosition, message: &str) -> TriggerEffect {
    TriggerEffect::ShowPanel(PanelShow {
        anchor,
        width: 340,
        height: 140,
        content: PanelContent::Error { message: message.to_string() },
    })
}

fn info_effect(anchor: ScreenPosition, message: &str, subtitle: &str) -> TriggerEffect {
    TriggerEffect::ShowPanel(PanelShow {
        anchor,
        width: 320,
        height: 120,
        content: PanelContent::Info { message: message.to_string(), subtitle: subtitle.to_string() },
    })
}

#[test]
fn result_counts_the_corrections() {
    let r = CorrectionResult::from_response("they is".to_string(), response("they are", true, 2));
    assert_eq!(r.original_text, "they is");
    assert_eq!(r.corrected_text, "they are");
    assert!(r.has_changes);
    assert_eq!(r.num_corrections, 2);
    assert_eq!(r.corrections.len(), 2);
}

#[test]
fn result_without_changes_repeats_the_text() {
    let r = CorrectionResult::no_changes("fine text".to_string());
    assert_eq!(r.original_text, "fine text");
    assert_eq!(r.corrected_text, "fine text");
    assert!(!r.has_changes);
    assert!(r.corrections.is_empty());
    assert_eq!(r.num_corrections, 0);
}

#[test]
fn system_prompt_embeds_the_strictness_instruction() {
    for (s, ins) in [
        (Strictness::Relaxed, RELAXED_INSTRUCTION),
        (Strictness::Balanced, BALANCED_INSTRUCTION),
        (Strictness::Strict, STRICT_INSTRUCTION),
    ] {
        let p = build_system_prompt(&s);
        assert_eq!(p, format!("{}{}{}", PROMPT_HEAD, ins, PROMPT_TAIL));
    }
    let p = build_system_prompt(&Strictness::Relaxed);
    assert!(p.starts_with("You are GrammarLens"));
    assert!(p.contains("Correction level: RELAXED."));
    assert!(p.contains("\n\nCorrection level: RELAXED."));
    assert!(p.ends_with("  ]\n}"));
}

#[test]
fn grammar_check_without_key_fails() {
    match check_grammar("", "some text", &Strictness::Balanced) {
        GrammarCheckStart::Finished(Err(e)) => assert_eq!(
            e,
            "API key not configured. Please set your Gemini API key in Settings."
        ),
        other => panic!("unexpected {:?}", other),
    }
    // the key is checked before the text
    assert!(matches!(
        check_grammar("", "  ", &Strictness::Balanced),
        GrammarCheckStart::Finished(Err(_))
    ));
}

#[test]
fn grammar_check_of_blank_text_changes_nothing() {
    match check_grammar("key", " \n ", &Strictness::Balanced) {
        GrammarCheckStart::Finished(Ok(r)) => {
            assert_eq!(r.corrected_text, " \n ");
            assert!(!r.has_changes);
            assert!(r.corrections.is_empty());
        }
        other => panic!("unexpected {:?}", other),
    }
}

#[test]
fn grammar_check_asks_the_model() {
    match check_grammar("k3y", "they is here", &Strictness::Strict) {
        GrammarCheckStart::Send { url, request } => {
            assert_eq!(url, format!("{}?key=k3y", GEMINI_API_URL));
            assert_eq!(
                url,
                "https://generativelanguage.googleapis.com/v1beta/models/gemini-flash-latest:generateContent?key=k3y"
            );
            assert_eq!(request.contents.len(), 1);
            assert_eq!(request.contents[0].parts.len(), 1);
            assert_eq!(request.contents[0].parts[0].text, "they is here");
            assert_eq!(request.system_instruction.parts.len(), 1);
            assert_eq!(
                request.system_instruction.parts[0].text,
                build_system_prompt(&Strictness::Strict)
            );
            assert_eq!(request.generation_config.response_mime_type, "application/json");
            assert_eq!(request.generation_config.temperature_hundredths, 20);
        }
        other => panic!("unexpected {:?}", other),
    }
}

#[test]
fn send_outcome_is_judged_by_status() {
    assert_eq!(
        handle_send_outcome(Err("timed out".to_string())),
        ReplyHandling::Failed("Network error: timed out".to_string())
    );
    assert_eq!(handle_send_outcome(Ok(200)), ReplyHandling::ReadJson);
    assert_eq!(handle_send_outcome(Ok(299)), ReplyHandling::ReadJson);
    assert_eq!(handle_send_outcome(Ok(300)), ReplyHandling::ReadErrorText);
    assert_eq!(handle_send_outcome(Ok(404)), ReplyHandling::ReadErrorText);
    assert!(!status_is_success(199));
    assert_eq!(
        api_error_message("400 Bad Request", Some("bad key".to_string())),
        "Gemini API error (400 Bad Request): bad key"
    );
    assert_eq!(api_error_message("500 Internal Server Error", None), "Gemini API error (500 Internal Server Error): ");
}

fn member(key: &str, value: JsonValue) -> JsonMember {
    JsonMember { key: key.to_string(), value }
}

#[test]
fn model_answer_is_found_in_the_reply() {
    let reply = JsonValue::Object(vec![member(
        "candidates",
        JsonValue::Array(vec![JsonValue::Object(vec![member(
            "content",
            JsonValue::Object(vec![member(
                "parts",
                JsonValue::Array(vec![JsonValue::Object(vec![member(
                    "text",
                    JsonValue::Text("{\"corrected_text\":\"x\"}".to_string()),
                )])]),
            )]),
        )])]),
    )]);
    assert_eq!(reply_text(Ok(reply)), Ok("{\"corrected_text\":\"x\"}".to_string()));
    let empty = JsonValue::Object(vec![member("candidates", JsonValue::Array(vec![]))]);
    assert_eq!(reply_text(Ok(empty)), Err("Unexpected API response structure".to_string()));
    assert_eq!(
        reply_text(Err("EOF while parsing".to_string())),
        Err("Failed to parse API response: EOF while parsing".to_string())
    );
}

#[test]
fn undecodable_answer_is_quoted_in_the_error() {
    assert_eq!(
        finish_grammar_check("oops", Err("expected value".to_string())),
        Err("Failed to parse correction JSON: expected value. Raw: oops".to_string())
    );
    assert_eq!(
        finish_grammar_check("{}", Ok(response("a", false, 0))),
        Ok(response("a", false, 0))
    );
}

#[test]
fn foreground_app_is_the_lowercase_file_name() {
    assert_eq!(
        get_foreground_app(Some("C:\\Program Files\\Mozilla\\FIREFOX.EXE".to_string())),
        Some("firefox.exe".to_string())
    );
    assert_eq!(get_foreground_app(Some("Notepad.exe".to_string())), Some("notepad.exe".to_string()));
    assert_eq!(get_foreground_app(None), None);
    assert_eq!(path_file_name("C:\\dir\\"), "");
}

#[test]
fn disabled_apps_match_without_case() {
    let disabled = strings(&["Code.exe", "WindowsTerminal.exe"]);
    assert!(is_app_disabled(&disabled, Some("code.exe".to_string())));
    assert!(!is_app_disabled(&disabled, Some("chrome.exe".to_string())));
    assert!(!is_app_disabled(&disabled, None));
    assert!(!is_app_disabled(&[], Some("code.exe".to_string())));
}

#[test]
fn running_apps_are_sorted_unique_and_filtered() {
    let raw = strings(&["Chrome.exe", "svchost.exe", "", "chrome.exe", "Code.exe", "System", "code.exe", "zoom.exe", "ABC.exe"]);
    assert_eq!(
        enumerate_running_processes(&raw),
        strings(&["abc.exe", "chrome.exe", "code.exe", "zoom.exe"])
    );
    assert!(is_hidden_process("textlint.exe"));
    assert!(!is_hidden_process("notepad.exe"));
    assert!(enumerate_running_processes(&vec![]).is_empty());
}

#[test]
fn capture_judges_the_copied_selection() {
    let saved = Some("clip".to_string());
    assert_eq!(
        capture_selected_text(saved.clone(), Ok("hello".to_string())),
        Capture::Selected { text: "hello".to_string(), saved_clipboard: saved.clone() }
    );
    assert_eq!(
        capture_selected_text(saved.clone(), Ok("  ".to_string())),
        Capture::NothingSelected { saved_clipboard: saved.clone() }
    );
    assert_eq!(
        capture_selected_text(saved.clone(), Err("Clipboard error: x".to_string())),
        Capture::CopyFailed("Clipboard error: x".to_string())
    );
}

#[test]
fn corrections_panel_height_grows_to_a_limit() {
    assert_eq!(corrections_panel_height_for(0), 180);
    assert_eq!(corrections_panel_height_for(1), 240);
    assert_eq!(corrections_panel_height_for(3), 360);
    assert_eq!(corrections_panel_height_for(4), 400);
    assert_eq!(corrections_panel_height_for(1000), 400);
}

#[test]
fn run_without_api_key_shows_an_error() {
    let t = CorrectionTrigger::new(None, settings("", false, true, &[]));
    let step = t.start();
    assert_eq!(step.request, TriggerRequest::Done);
    assert_eq!(
        step.effects,
        vec![error_effect(
            ScreenPosition { x: 400, y: 400 },
            "API key not configured. Right-click the tray icon → Settings to add your Gemini API key."
        )]
    );
}

#[test]
fn run_in_a_disabled_app_stops_silently() {
    let t = CorrectionTrigger::new(None, settings("k", false, true, &["Code.exe"]));
    let step = t.start();
    assert_eq!(step.request, TriggerRequest::ForegroundApp);
    let step = t.on_foreground(Some("C:\\x\\CODE.EXE".to_string()));
    assert_eq!(step.request, TriggerRequest::Done);
    assert!(step.effects.is_empty());
    let step = t.on_foreground(Some("C:\\x\\chrome.exe".to_string()));
    assert_eq!(step.request, TriggerRequest::Selection);
    let t2 = CorrectionTrigger::new(None, settings("k", false, true, &[]));
    assert_eq!(t2.start().request, TriggerRequest::Selection);
}

#[test]
fn disabled_app_is_checked_before_the_api_key() {
    let t = CorrectionTrigger::new(None, settings("", false, true, &["Code.exe"]));
    let step = t.start();
    assert_eq!(step.request, TriggerRequest::ForegroundApp);
    assert!(step.effects.is_empty());
    let step = t.on_foreground(Some("C:\\x\\code.exe".to_string()));
    assert_eq!(step.request, TriggerRequest::Done);
    assert!(step.effects.is_empty());
    let step = t.on_foreground(Some("C:\\x\\chrome.exe".to_string()));
    assert_eq!(step.request, TriggerRequest::Done);
    assert_eq!(
        step.effects,
        vec![error_effect(
            ScreenPosition { x: 400, y: 400 },
            "API key not configured. Right-click the tray icon → Settings to add your Gemini API key."
        )]
    );
}

#[test]
fn run_with_empty_or_failed_selection() {
    let cursor = Some(ScreenPosition { x: 10, y: 20 });
    let anchor = ScreenPosition { x: 10, y: 20 };
    let mut t = CorrectionTrigger::new(cursor, settings("k", false, true, &[]));
    let step = t.on_selection(Some("clip".to_string()), Ok(" ".to_string()));
    assert_eq!(step.request, TriggerRequest::Done);
    assert_eq!(
        step.effects,
        vec![
            TriggerEffect::RestoreClipboard(Some("clip".to_string())),
            error_effect(anchor, "Failed to capture text. Please try again."),
        ]
    );
    let step = t.on_selection(Some("clip".to_string()), Err("Key error: x".to_string()));
    assert_eq!(step.effects, vec![error_effect(anchor, "Failed to capture text. Please try again.")]);
    assert!(t.selection.is_none());
}

#[test]
fn run_with_too_long_selection() {
    let mut t = CorrectionTrigger::new(None, settings("k", false, true, &[]));
    let long = "a".repeat(10001);
    let step = t.on_selection(None, Ok(long));
    assert_eq!(step.request, TriggerRequest::Done);
    assert_eq!(
        step.effects,
        vec![
            error_effect(
                ScreenPosition { x: 400, y: 400 },
                "Selected text is too long (10001 chars). Please select up to 10000 characters at a time."
            ),
            TriggerEffect::RestoreClipboard(None),
        ]
    );
    // exactly at the limit is accepted
    let step = t.on_selection(None, Ok("b".repeat(10000)));
    assert!(matches!(step.request, TriggerRequest::GrammarCheck { .. }));
}

#[test]
fn run_with_too_many_words() {
    let mut t = CorrectionTrigger::new(None, settings("k", false, true, &[]));
    let many = "w ".repeat(1501);
    let step = t.on_selection(Some("c".to_string()), Ok(many));
    assert_eq!(
        step.effects,
        vec![
            error_effect(
                ScreenPosition { x: 400, y: 400 },
                "Selected text is too long (1501 words). Please select up to 1500 words at a time."
            ),
            TriggerEffect::RestoreClipboard(Some("c".to_string())),
        ]
    );
}

#[test]
fn run_that_auto_applies_the_correction() {
    let mut t = CorrectionTrigger::new(None, settings("k", false, true, &[]));
    let step = t.on_selection(Some("clip".to_string()), Ok("they is".to_string()));
    assert!(step.effects.is_empty());
    assert_eq!(
        step.request,
        TriggerRequest::GrammarCheck {
            api_key: "k".to_string(),
            text: "they is".to_string(),
            strictness: Strictness::Strict
        }
    );
    let step = t.on_grammar_checked(Ok(response("they are", true, 2)));
    assert_eq!(step.effects, vec![TriggerEffect::StorePending("they are".to_string())]);
    assert_eq!(
        step.request,
        TriggerRequest::ApplyCorrection {
            text: "they are".to_string(),
            clipboard: Some("clip".to_string())
        }
    );
    let step = t.on_applied(Ok(()));
    assert_eq!(step.request, TriggerRequest::Done);
    assert_eq!(
        step.effects,
        vec![info_effect(ScreenPosition { x: 400, y: 400 }, "Fixed!", "2 corrections applied.")]
    );
}

#[test]
fn run_that_applies_one_correction_says_so_in_singular() {
    let mut t = CorrectionTrigger::new(None, settings("k", false, true, &[]));
    t.on_selection(None, Ok("he go".to_string()));
    t.on_grammar_checked(Ok(response("he goes", true, 1)));
    let step = t.on_applied(Ok(()));
    assert_eq!(
        step.effects,
        vec![info_effect(ScreenPosition { x: 400, y: 400 }, "Fixed!", "1 correction applied.")]
    );
}

#[test]
fn run_whose_paste_fails() {
    let mut t = CorrectionTrigger::new(None, settings("k", false, true, &[]));
    t.on_selection(None, Ok("he go".to_string()));
    t.on_grammar_checked(Ok(response("he goes", true, 1)));
    let step = t.on_applied(Err("Clipboard write error: x".to_string()));
    assert_eq!(
        step.effects,
        vec![error_effect(ScreenPosition { x: 400, y: 400 }, "Clipboard write error: x")]
    );
}

#[test]
fn run_in_learn_mode_shows_the_panel() {
    let mut t = CorrectionTrigger::new(None, settings("k", true, true, &[]));
    t.on_selection(Some("clip".to_string()), Ok("they is".to_string()));
    let step = t.on_grammar_checked(Ok(response("they are", true, 1)));
    assert_eq!(step.request, TriggerRequest::Done);
    let expected_result =
        CorrectionResult::from_response("they is".to_string(), response("they are", true, 1));
    assert_eq!(
        step.effects,
        vec![
            TriggerEffect::StorePending("they are".to_string()),
            TriggerEffect::RestoreClipboard(Some("clip".to_string())),
            TriggerEffect::ShowPanel(PanelShow {
                anchor: ScreenPosition { x: 400, y: 400 },
                width: 360,
                height: 240,
                content: PanelContent::Corrections { result: expected_result, learn_mode: true },
            }),
        ]
    );
}

#[test]
fn run_for_review_shows_the_panel_without_explanations() {
    let mut t = CorrectionTrigger::new(None, settings("k", false, false, &[]));
    t.on_selection(None, Ok("they is".to_string()));
    let step = t.on_grammar_checked(Ok(response("they are", true, 5)));
    assert_eq!(step.request, TriggerRequest::Done);
    match &step.effects[2] {
        TriggerEffect::ShowPanel(p) => {
            assert_eq!(p.height, 400);
            assert!(matches!(p.content, PanelContent::Corrections { learn_mode: false, .. }));
        }
        other => panic!("unexpected {:?}", other),
    }
}

#[test]
fn run_with_nothing_to_correct() {
    let mut t = CorrectionTrigger::new(None, settings("k", false, true, &[]));
    t.on_selection(Some("clip".to_string()), Ok("Fine.".to_string()));
    let step = t.on_grammar_checked(Ok(response("Fine.", false, 0)));
    assert_eq!(
        step.effects,
        vec![
            TriggerEffect::RestoreClipboard(Some("clip".to_string())),
            info_effect(ScreenPosition { x: 400, y: 400 }, "Looks good!", "No changes needed."),
        ]
    );
}

#[test]
fn run_whose_check_fails() {
    let mut t = CorrectionTrigger::new(None, settings("k", false, true, &[]));
    t.on_selection(Some("clip".to_string()), Ok("text".to_string()));
    let step = t.on_grammar_checked(Err("Network error: offline".to_string()));
    assert_eq!(
        step.effects,
        vec![
            TriggerEffect::RestoreClipboard(Some("clip".to_string())),
            error_effect(ScreenPosition { x: 400, y: 400 }, "Network error: offline"),
        ]
    );
    // an outcome with no captured selection does nothing
    let step = t.on_grammar_checked(Ok(response("x", true, 1)));
    assert!(step.effects.is_empty());
    assert_eq!(step.request, TriggerRequest::Done);
}

#[test]
fn pending_correction_is_applied_once() {
    let mut pending = Some("fixed".to_string());
    assert_eq!(take_pending_correction(&mut pending), Ok("fixed".to_string()));
    assert_eq!(pending, None);
    assert_eq!(
        take_pending_correction(&mut pending),
        Err("No pending correction found to apply.".to_string())
    );
}
