use vstd::prelude::*;

verus! {

/// A message that the embedded login frame posts to the page.
#[derive(Debug, Clone, PartialEq, Eq)]
pub enum RcvMessage {
    Close,
    Reload,
    RegisterContentDimensions {},
    FirstIframeLoad { origin: String },
    ContentLoaded { content_type: String },
    FormSubmission { form_type: String },
    InputFocused {},
    InputBlured,
    BeforeIframeLocationChange { event: String },
}

/// A message that the page posts to the embedded login frame.
#[derive(Debug, Clone, PartialEq, Eq)]
pub enum SndMessage {
    RegisterOrigin { origin: String },
    ContainerIsReady,
    ViewportResize,
    IframeResize,
    EnvironmentResize,
    FocusOnInput,
    LoadContent { content_type: String },
    ProceedWithLocationChange { event: String },
    UpdateInputField,
    SelectField,
    ClickOnField,
    GamepadBackButtonPressed,
}

/// The mathematical value of a `SndMessage`: its text fields as character sequences.
pub enum SndModel {
    RegisterOrigin { origin: Seq<char> },
    ContainerIsReady,
    ViewportResize,
    IframeResize,
    EnvironmentResize,
    FocusOnInput,
    LoadContent { content_type: Seq<char> },
    ProceedWithLocationChange { event: Seq<char> },
    UpdateInputField,
    SelectField,
    ClickOnField,
    GamepadBackButtonPressed,
}

impl View for SndMessage {
    type V = SndModel;

    open spec fn view(&self) -> SndModel {
        match self {
            SndMessage::RegisterOrigin { origin } => SndModel::RegisterOrigin { origin: origin@ },
            SndMessage::ContainerIsReady => SndModel::ContainerIsReady,
            SndMessage::ViewportResize => SndModel::ViewportResize,
            SndMessage::IframeResize => SndModel::IframeResize,
            SndMessage::EnvironmentResize => SndModel::EnvironmentResize,
            SndMessage::FocusOnInput => SndModel::FocusOnInput,
            SndMessage::LoadContent { content_type } => SndModel::LoadContent {
                content_type: content_type@,
            },
            SndMessage::ProceedWithLocationChange { event } => SndModel::ProceedWithLocationChange {
                event: event@,
            },
            SndMessage::UpdateInputField => SndModel::UpdateInputField,
            SndMessage::SelectField => SndModel::SelectField,
            SndMessage::ClickOnField => SndModel::ClickOnField,
            SndMessage::GamepadBackButtonPressed => SndModel::GamepadBackButtonPressed,
        }
    }
}

} // verus!
