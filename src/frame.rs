use vstd::prelude::*;

use crate::message::{RcvMessage, SndMessage, SndModel};

verus! {

/// What the page does on the frame's behalf after a decision.
#[derive(Debug, Clone, PartialEq, Eq)]
pub enum FrameAction {
    /// Post `message` to the frame's window, addressed to `target_origin`.
    Post { message: SndMessage, target_origin: String },
    /// Reload the whole page.
    ReloadPage,
}

/// The mathematical value of a `FrameAction`.
pub enum ActionModel {
    Post { message: SndModel, target_origin: Seq<char> },
    ReloadPage,
}

impl View for FrameAction {
    type V = ActionModel;

    open spec fn view(&self) -> ActionModel {
        match self {
            FrameAction::Post { message, target_origin } => ActionModel::Post {
                message: message@,
                target_origin: target_origin@,
            },
            FrameAction::ReloadPage => ActionModel::ReloadPage,
        }
    }
}

/// The origin that addresses any window.
pub open spec fn any_origin() -> Seq<char> {
    "*"@
}

/// The state of the login overlay and of the handshake with the frame inside it.
#[derive(Debug, Clone, PartialEq, Eq)]
pub struct LoginFrame {
    /// Whether the overlay that holds the frame is shown.
    pub opened: bool,
    /// Whether the frame has reported its content as ready.
    pub loaded: bool,
    /// The origin that messages to the frame are addressed to.
    pub target_origin: String,
}

/// The mathematical value of a `LoginFrame`.
pub struct FrameModel {
    pub opened: bool,
    pub loaded: bool,
    pub target_origin: Seq<char>,
}

impl View for LoginFrame {
    type V = FrameModel;

    open spec fn view(&self) -> FrameModel {
        FrameModel { opened: self.opened, loaded: self.loaded, target_origin: self.target_origin@ }
    }
}

/// A closed overlay is never marked loaded.
pub open spec fn frame_wf(f: FrameModel) -> bool {
    !f.opened ==> !f.loaded
}

/// The state after the frame posted `msg`, and the actions it calls for, in order.
/// `own` is the origin of the page itself.
pub open spec fn step(s: FrameModel, msg: RcvMessage, own: Seq<char>) -> (FrameModel, Seq<ActionModel>) {
    match msg {
        RcvMessage::Close => (FrameModel { opened: false, loaded: false, ..s }, seq![]),
        RcvMessage::Reload => (s, seq![ActionModel::ReloadPage]),
        RcvMessage::RegisterContentDimensions {} => (
            FrameModel { loaded: true, ..s },
            seq![ActionModel::Post { message: SndModel::ContainerIsReady, target_origin: s.target_origin }],
        ),
        RcvMessage::BeforeIframeLocationChange { event } => (
            FrameModel { loaded: false, ..s },
            seq![
                ActionModel::Post {
                    message: SndModel::ProceedWithLocationChange { event: event@ },
                    target_origin: s.target_origin,
                },
            ],
        ),
        RcvMessage::FirstIframeLoad { origin } => (
            FrameModel { target_origin: origin@, ..s },
            seq![
                ActionModel::Post { message: SndModel::RegisterOrigin { origin: own }, target_origin: origin@ },
                ActionModel::Post {
                    message: SndModel::LoadContent { content_type: Seq::empty() },
                    target_origin: origin@,
                },
            ],
        ),
        RcvMessage::ContentLoaded { .. } => (FrameModel { loaded: true, ..s }, seq![]),
        _ => (s, seq![]),
    }
}

/// While the overlay is open, no message leaves it closed yet marked loaded.
pub proof fn lemma_open_step_keeps_wf(s: FrameModel, msg: RcvMessage, own: Seq<char>)
    requires
        s.opened,
    ensures
        frame_wf(step(s, msg, own).0),
{
}

/// Once the frame has told its origin, each message that the page posts in answer to
/// a later message of another kind is addressed to that origin.
pub proof fn lemma_answers_go_to_told_origin(
    s: FrameModel,
    told: Seq<char>,
    own: Seq<char>,
    first: RcvMessage,
    next: RcvMessage,
    i: int,
)
    requires
        first matches RcvMessage::FirstIframeLoad { origin } && origin@ == told,
        !(next is FirstIframeLoad),
        0 <= i < step(step(s, first, own).0, next, own).1.len(),
        step(step(s, first, own).0, next, own).1[i] is Post,
    ensures
        step(step(s, first, own).0, next, own).1[i]->Post_target_origin == told,
{
}

impl LoginFrame {
    /// A closed overlay, with messages addressed to any origin.
    pub fn new() -> (r: LoginFrame)
        ensures
            !r.opened,
            !r.loaded,
            r.target_origin@ == any_origin(),
            frame_wf(r@),
    {
        proof { reveal_strlit("*"); }
        LoginFrame { opened: false, loaded: false, target_origin: String::from_str("*") }
    }

    /// Opens a closed overlay, or closes an open one; closing forgets that the
    /// content was loaded.
    pub fn toggle(&mut self)
        ensures
            final(self).opened == !old(self).opened,
            final(self).loaded == (old(self).loaded && !old(self).opened),
            final(self).target_origin@ == old(self).target_origin@,
            frame_wf(final(self)@),
    {
        self.opened = !self.opened;
        if !self.opened {
            self.loaded = false;
        }
    }

    /// Handles a message posted to the page while the overlay, and so the frame, is
    /// shown, given the page's own origin. A message that did not come from the frame's
    /// window (`from_frame` false) is ignored. Returns the actions to perform, in order.
    pub fn on_message(&mut self, msg: RcvMessage, from_frame: bool, own_origin: &str) -> (acts: Vec<
        FrameAction,
    >)
        requires
            old(self).opened,
        ensures
            from_frame ==> final(self)@ == step(old(self)@, msg, own_origin@).0,
            from_frame ==> acts@.map_values(|a: FrameAction| a@) == step(
                old(self)@,
                msg,
                own_origin@,
            ).1,
            !from_frame ==> final(self)@ == old(self)@ && acts@.len() == 0,
            frame_wf(final(self)@),
    {
        let ghost s = self@;
        let ghost m = msg;
        proof {
            lemma_open_step_keeps_wf(s, m, own_origin@);
        }
        if !from_frame {
            return Vec::new();
        }
        let mut acts: Vec<FrameAction> = Vec::new();
        match msg {
            RcvMessage::Close => {
                self.opened = false;
                self.loaded = false;
            },
            RcvMessage::Reload => {
                acts.push(FrameAction::ReloadPage);
            },
            RcvMessage::RegisterContentDimensions {} => {
                self.loaded = true;
                acts.push(
                    FrameAction::Post {
                        message: SndMessage::ContainerIsReady,
                        target_origin: self.target_origin.clone(),
                    },
                );
            },
            RcvMessage::BeforeIframeLocationChange { event } => {
                self.loaded = false;
                acts.push(
                    FrameAction::Post {
                        message: SndMessage::ProceedWithLocationChange { event },
                        target_origin: self.target_origin.clone(),
                    },
                );
            },
            RcvMessage::FirstIframeLoad { origin } => {
                acts.push(
                    FrameAction::Post {
                        message: SndMessage::RegisterOrigin { origin: String::from_str(own_origin) },
                        target_origin: origin.clone(),
                    },
                );
                acts.push(
                    FrameAction::Post {
                        message: SndMessage::LoadContent { content_type: String::new() },
                        target_origin: origin.clone(),
                    },
                );
                self.target_origin = origin;
            },
            RcvMessage::ContentLoaded { .. } => {
                self.loaded = true;
            },
            _ => {},
        }
        assert(acts@.map_values(|a: FrameAction| a@) =~= step(s, m, own_origin@).1);
        acts
    }
}

/// The message that announces the page's origin to a frame that has not yet told
/// its own, addressed to any origin.
pub fn origin_announcement(own_origin: String) -> (a: FrameAction)
    ensures
        a@ == (ActionModel::Post {
            message: SndModel::RegisterOrigin { origin: own_origin@ },
            target_origin: any_origin(),
        }),
{
    proof { reveal_strlit("*"); }
    FrameAction::Post {
        message: SndMessage::RegisterOrigin { origin: own_origin },
        target_origin: String::from_str("*"),
    }
}

} // verus!
