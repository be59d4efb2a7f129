use frontend::frame::{origin_announcement, FrameAction, LoginFrame};
use frontend::message::{RcvMessage, SndMessage};

fn post(message: SndMessage, target_origin: &str) -> FrameAction {
    FrameAction::Post { message, target_origin: target_origin.to_string() }
}

#[test]
fn new_frame_is_closed_and_addresses_any_origin() {
    let f = LoginFrame::new();
    assert!(!f.opened);
    assert!(!f.loaded);
    assert_eq!(f.target_origin, "*");
}

#[test]
fn toggle_opens_and_closing_forgets_loaded() {
    let mut f = LoginFrame::new();
    f.toggle();
    assert!(f.opened);
    f.loaded = true;
    f.toggle();
    assert!(!f.opened);
    assert!(!f.loaded);
}

#[test]
fn first_load_registers_origin_then_asks_for_content() {
    let mut f = LoginFrame::new();
    f.toggle();
    let acts = f.on_message(
        RcvMessage::FirstIframeLoad { origin: "http://localhost:8443".to_string() },
        true,
        "http://localhost:3000",
    );
    assert_eq!(
        acts,
        vec![
            post(
                SndMessage::RegisterOrigin { origin: "http://localhost:3000".to_string() },
                "http://localhost:8443",
            ),
            post(SndMessage::LoadContent { content_type: String::new() }, "http://localhost:8443"),
        ]
    );
    assert_eq!(f.target_origin, "http://localhost:8443");
    assert!(f.opened);
    assert!(!f.loaded);
}

#[test]
fn content_dimensions_mark_loaded_and_answer_ready() {
    let mut f = LoginFrame::new();
    f.toggle();
    f.on_message(RcvMessage::FirstIframeLoad { origin: "https://idp".to_string() }, true, "https://app");
    let acts = f.on_message(RcvMessage::RegisterContentDimensions {}, true, "https://app");
    assert_eq!(acts, vec![post(SndMessage::ContainerIsReady, "https://idp")]);
    assert!(f.loaded);
}

#[test]
fn location_change_unloads_and_is_allowed() {
    let mut f = LoginFrame::new();
    f.toggle();
    f.loaded = true;
    let acts = f.on_message(
        RcvMessage::BeforeIframeLocationChange { event: "submit".to_string() },
        true,
        "https://app",
    );
    assert_eq!(
        acts,
        vec![post(SndMessage::ProceedWithLocationChange { event: "submit".to_string() }, "*")]
    );
    assert!(!f.loaded);
    assert!(f.opened);
}

#[test]
fn close_message_closes_overlay() {
    let mut f = LoginFrame::new();
    f.toggle();
    f.loaded = true;
    let acts = f.on_message(RcvMessage::Close, true, "https://app");
    assert!(acts.is_empty());
    assert!(!f.opened);
    assert!(!f.loaded);
}

#[test]
fn reload_message_asks_for_page_reload() {
    let mut f = LoginFrame::new();
    f.toggle();
    let before = f.clone();
    let acts = f.on_message(RcvMessage::Reload, true, "https://app");
    assert_eq!(acts, vec![FrameAction::ReloadPage]);
    assert_eq!(f, before);
}

#[test]
fn content_loaded_marks_loaded_without_answer() {
    let mut f = LoginFrame::new();
    f.toggle();
    let acts = f.on_message(RcvMessage::ContentLoaded { content_type: "login".to_string() }, true, "x");
    assert!(acts.is_empty());
    assert!(f.loaded);
}

#[test]
fn other_messages_change_nothing() {
    let mut f = LoginFrame::new();
    f.toggle();
    let before = f.clone();
    for m in [
        RcvMessage::FormSubmission { form_type: "login".to_string() },
        RcvMessage::InputFocused {},
        RcvMessage::InputBlured,
    ] {
        let acts = f.on_message(m, true, "https://app");
        assert!(acts.is_empty());
        assert_eq!(f, before);
    }
}

#[test]
fn announcement_goes_to_any_origin() {
    assert_eq!(
        origin_announcement("https://app".to_string()),
        post(SndMessage::RegisterOrigin { origin: "https://app".to_string() }, "*")
    );
}

#[test]
fn message_from_elsewhere_is_ignored() {
    let mut f = LoginFrame::new();
    f.toggle();
    let before = f.clone();
    let acts = f.on_message(RcvMessage::ContentLoaded { content_type: "login".to_string() }, false, "x");
    assert!(acts.is_empty());
    assert_eq!(f, before);
    let acts = f.on_message(RcvMessage::Close, false, "x");
    assert!(acts.is_empty());
    assert!(f.opened);
}
