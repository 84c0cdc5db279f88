use overlay_assistant::error::AppError;
use overlay_assistant::hotkey::{HotkeyInterpreter, Key, RawInputEvent, SemanticCommand};
use overlay_assistant::orchestrator::{Orchestrator, Reaction};
use overlay_assistant::overlay::{Indicator, OverlayState, Render, UIMessage};
use overlay_assistant::work::{
    image_data_url, join_reply, outcome, Stage, Strategy, UnitOfWork, WorkAction,
};

fn press(k: Key) -> RawInputEvent {
    RawInputEvent::KeyPress(k)
}

fn release(k: Key) -> RawInputEvent {
    RawInputEvent::KeyRelease(k)
}

fn feed(state: &mut OverlayState, orch: &mut Orchestrator, ev: RawInputEvent) -> Option<Strategy> {
    let Reaction { messages, launch } = orch.on_input(ev);
    state.update_all(messages);
    launch
}

fn finish(action: WorkAction) -> Vec<UIMessage> {
    match action {
        WorkAction::Finish(ms) => ms,
        other => panic!("unit of work did not finish: {:?}", other),
    }
}

#[test]
fn direct_answer_scenario_shows_answer() {
    let mut state = OverlayState::new();
    let mut orch = Orchestrator::new();
    assert_eq!(feed(&mut state, &mut orch, press(Key::ControlLeft)), None);
    let launch = feed(&mut state, &mut orch, press(Key::KeyI));
    assert_eq!(launch, Some(Strategy::DirectAnswer));
    assert_eq!(state.indicator(), Indicator::Loading);
    assert_eq!(state.current_text(), None);

    let mut unit = UnitOfWork::new(Strategy::DirectAnswer);
    let action = unit.on_capture(Ok(vec![1u8, 2, 3]));
    assert_eq!(action, WorkAction::AnswerImage("data:image/png;base64,AQID".to_string()));
    let messages = finish(unit.on_reply(Ok("42".to_string())));
    assert_eq!(unit.stage(), Stage::Finished);
    state.update_all(messages);
    assert_eq!(feed(&mut state, &mut orch, release(Key::ControlLeft)), None);

    assert!(state.visible());
    assert_eq!(state.indicator(), Indicator::Idle);
    assert_eq!(state.current_text(), Some("42".to_string()));
    assert!(!orch.control_held());
}

#[test]
fn capture_failure_scenario_keeps_text() {
    let mut state = OverlayState::new();
    state.update(UIMessage::ShowText(Some("earlier".to_string())));
    let mut orch = Orchestrator::new();
    feed(&mut state, &mut orch, press(Key::ControlLeft));
    let launch = feed(&mut state, &mut orch, press(Key::KeyO));
    assert_eq!(launch, Some(Strategy::TranscribeThenAnswer));
    let text_before_outcome = state.current_text();

    let mut unit = UnitOfWork::new(Strategy::TranscribeThenAnswer);
    let messages = finish(unit.on_capture(Err(AppError::NoMonitors)));
    assert_eq!(messages, vec![UIMessage::SetIndicator(Indicator::Error)]);
    state.update_all(messages);

    assert_eq!(state.indicator(), Indicator::Error);
    assert_eq!(state.current_text(), text_before_outcome);
}

#[test]
fn two_alt_presses_restore_visibility() {
    let mut state = OverlayState::new();
    let mut orch = Orchestrator::new();
    let before = state.visible();
    feed(&mut state, &mut orch, press(Key::Alt));
    assert_eq!(state.visible(), !before);
    feed(&mut state, &mut orch, press(Key::Alt));
    assert_eq!(state.visible(), before);
}

#[test]
fn altgr_press_toggles_once() {
    let mut state = OverlayState::new();
    let mut orch = Orchestrator::new();
    feed(&mut state, &mut orch, press(Key::AltGr));
    assert!(!state.visible());
    feed(&mut state, &mut orch, release(Key::AltGr));
    assert!(!state.visible());
    feed(&mut state, &mut orch, press(Key::Alt));
    feed(&mut state, &mut orch, press(Key::AltGr));
    feed(&mut state, &mut orch, press(Key::Alt));
    assert!(state.visible());
}

#[test]
fn right_control_clears_text_and_keeps_indicator() {
    let mut state = OverlayState::new();
    state.update(UIMessage::SetIndicator(Indicator::Error));
    state.update(UIMessage::ShowText(Some("answer".to_string())));
    let mut orch = Orchestrator::new();
    feed(&mut state, &mut orch, press(Key::ControlRight));
    assert_eq!(state.current_text(), None);
    assert_eq!(state.indicator(), Indicator::Error);
}

#[test]
fn control_flag_follows_last_press_and_release() {
    let mut hk = HotkeyInterpreter::new();
    assert!(!hk.control_held());
    hk.interpret(press(Key::ControlLeft));
    assert!(hk.control_held());
    hk.interpret(press(Key::Other));
    hk.interpret(release(Key::Other));
    assert!(hk.control_held());
    hk.interpret(release(Key::ControlRight));
    assert!(!hk.control_held());
    hk.interpret(press(Key::ControlLeft));
    hk.interpret(release(Key::ControlLeft));
    assert!(!hk.control_held());
    hk.interpret(press(Key::ControlLeft));
    hk.interpret(press(Key::ControlLeft));
    assert!(hk.control_held());
}

#[test]
fn right_control_dismisses_with_or_without_control_held() {
    let mut hk = HotkeyInterpreter::new();
    assert_eq!(hk.interpret(press(Key::ControlRight)), Some(SemanticCommand::Dismiss));
    assert!(!hk.control_held());
    hk.interpret(press(Key::ControlLeft));
    assert_eq!(hk.interpret(press(Key::ControlRight)), Some(SemanticCommand::Dismiss));
    assert!(hk.control_held());
}

#[test]
fn triggers_need_control_held() {
    let mut hk = HotkeyInterpreter::new();
    assert_eq!(hk.interpret(press(Key::KeyO)), None);
    assert_eq!(hk.interpret(press(Key::KeyI)), None);
    hk.interpret(press(Key::ControlLeft));
    assert_eq!(
        hk.interpret(press(Key::KeyO)),
        Some(SemanticCommand::TriggerTranscribeThenAnswer)
    );
    assert_eq!(hk.interpret(press(Key::KeyI)), Some(SemanticCommand::TriggerDirectAnswer));
    assert_eq!(hk.interpret(release(Key::KeyI)), None);
    hk.interpret(release(Key::ControlLeft));
    assert_eq!(hk.interpret(press(Key::KeyI)), None);
}

#[test]
fn trigger_reaction_shows_loading_and_clears_text() {
    let mut orch = Orchestrator::new();
    orch.on_input(press(Key::ControlLeft));
    let r = orch.on_input(press(Key::KeyO));
    assert_eq!(
        r.messages,
        vec![UIMessage::SetIndicator(Indicator::Loading), UIMessage::ShowText(None)]
    );
    assert_eq!(r.launch, Some(Strategy::TranscribeThenAnswer));
    let r = orch.on_input(press(Key::Other));
    assert!(r.messages.is_empty());
    assert_eq!(r.launch, None);
}

#[test]
fn replaying_messages_is_deterministic() {
    let messages = vec![
        UIMessage::SetIndicator(Indicator::Loading),
        UIMessage::ShowText(Some("a".to_string())),
        UIMessage::ToggleVisibility,
        UIMessage::SetIndicator(Indicator::Idle),
    ];
    let mut first = OverlayState::new();
    first.update_all(messages.clone());
    let mut second = OverlayState::default();
    for m in messages {
        second.update(m);
    }
    assert_eq!(first.visible(), second.visible());
    assert_eq!(first.indicator(), second.indicator());
    assert_eq!(first.current_text(), second.current_text());
    assert!(!first.visible());
    assert_eq!(first.indicator(), Indicator::Idle);
}

#[test]
fn success_outcome_orders_idle_before_text() {
    assert_eq!(
        outcome(Ok("x".to_string())),
        vec![UIMessage::SetIndicator(Indicator::Idle), UIMessage::ShowText(Some("x".to_string()))]
    );
}

#[test]
fn failure_outcome_is_single_error() {
    let ms = outcome(Err(AppError::EmptyResponse));
    assert_eq!(ms, vec![UIMessage::SetIndicator(Indicator::Error)]);
}

#[test]
fn transcription_feeds_second_call() {
    let mut unit = UnitOfWork::new(Strategy::TranscribeThenAnswer);
    assert_eq!(unit.stage(), Stage::Capturing);
    let a = unit.on_capture(Ok(vec![0u8]));
    assert_eq!(a, WorkAction::TranscribeImage("data:image/png;base64,AA==".to_string()));
    assert_eq!(unit.stage(), Stage::Transcribing);
    let a = unit.on_reply(Ok("Q: 6*7? A) 42 B) 41".to_string()));
    assert_eq!(a, WorkAction::AnswerText("Q: 6*7? A) 42 B) 41".to_string()));
    assert_eq!(unit.stage(), Stage::Answering);
    let ms = finish(unit.on_reply(Ok("A".to_string())));
    assert_eq!(
        ms,
        vec![UIMessage::SetIndicator(Indicator::Idle), UIMessage::ShowText(Some("A".to_string()))]
    );
    assert_eq!(unit.strategy(), Strategy::TranscribeThenAnswer);
}

#[test]
fn failed_transcription_skips_second_call() {
    let mut unit = UnitOfWork::new(Strategy::TranscribeThenAnswer);
    unit.on_capture(Ok(vec![9u8, 9]));
    let ms = finish(unit.on_reply(Err(AppError::ApiError("timeout".to_string()))));
    assert_eq!(ms, vec![UIMessage::SetIndicator(Indicator::Error)]);
    assert_eq!(unit.stage(), Stage::Finished);
}

#[test]
fn failed_answer_sets_error() {
    let mut unit = UnitOfWork::new(Strategy::DirectAnswer);
    unit.on_capture(Ok(Vec::new()));
    let ms = finish(unit.on_reply(Err(AppError::EmptyResponse)));
    assert_eq!(ms, vec![UIMessage::SetIndicator(Indicator::Error)]);
}

#[test]
fn data_url_encodes_png_bytes() {
    assert_eq!(image_data_url(&[]), "data:image/png;base64,");
    assert_eq!(image_data_url(b"Man"), "data:image/png;base64,TWFu");
    assert_eq!(image_data_url(&[0xff, 0xfe]), "data:image/png;base64,//4=");
}

#[test]
fn join_reply_concatenates_choices() {
    let r = join_reply(vec![Some("4".to_string()), Some("2".to_string())]);
    assert_eq!(r, Ok("42".to_string()));
    assert_eq!(join_reply(vec![Some(String::new())]), Ok(String::new()));
}

#[test]
fn join_reply_without_content_is_empty_response() {
    assert_eq!(join_reply(Vec::new()), Err(AppError::EmptyResponse));
    assert_eq!(
        join_reply(vec![Some("4".to_string()), None]),
        Err(AppError::EmptyResponse)
    );
}

#[test]
fn error_descriptions() {
    assert_eq!(AppError::NoMonitors.description(), "No monitors found");
    assert_eq!(AppError::ApiError("bad".to_string()).description(), "OpenAI API Error: bad");
    assert_eq!(AppError::TaskError("panicked".to_string()).description(), "Task Error: panicked");
    assert_eq!(AppError::ScreenshotError("denied".to_string()).description(), "denied");
    assert_eq!(AppError::EmptyResponse.description(), "Empty response");
}

#[test]
fn render_policy() {
    let mut state = OverlayState::new();
    assert_eq!(state.render(), Render::Tag(Indicator::Idle));
    state.update(UIMessage::SetIndicator(Indicator::Loading));
    assert_eq!(state.render(), Render::Tag(Indicator::Loading));
    state.update(UIMessage::ShowText(Some("hi".to_string())));
    assert_eq!(state.render(), Render::Text("hi".to_string()));
    state.update(UIMessage::ToggleVisibility);
    assert_eq!(state.render(), Render::Hidden);
}
