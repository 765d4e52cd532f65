//! What a camera page decides: which node of the media graph is the camera,
//! how the one answer of the search for it changes hands, and what the page
//! shows once an attempt to start the stream has ended.
//!
//! Nothing here talks to the media server or to a widget. The search runs on
//! a thread of its own and the page lives in a toolkit; both hand plain
//! values in and act on the plain values that come back.

use vstd::prelude::*;

use crate::text::same_text;

verus! {

/// The action of the page that starts the stream.
pub const START_ACTION: &'static str = "camera.start";

/// The action of the page that stops the stream.
pub const STOP_ACTION: &'static str = "camera.stop";

/// What the user can ask of the page.
#[derive(Debug, Clone, Copy, PartialEq, Eq, Structural)]
pub enum PageAction {
    /// Start the stream.
    Start,
    /// Stop the stream.
    Stop,
}

/// The action that `name` names, as a value.
pub open spec fn action_of(name: Seq<char>) -> Option<PageAction> {
    if name == START_ACTION@ {
        Some(PageAction::Start)
    } else if name == STOP_ACTION@ {
        Some(PageAction::Stop)
    } else {
        None
    }
}

/// Finds the action of the page that `name` names.
pub fn action_named(name: &str) -> (r: Option<PageAction>)
    ensures
        r == action_of(name@),
{
    if same_text(name, START_ACTION) {
        Some(PageAction::Start)
    } else if same_text(name, STOP_ACTION) {
        Some(PageAction::Stop)
    } else {
        None
    }
}

/// The property of a node that names its media class.
pub const MEDIA_CLASS_KEY: &'static str = "media.class";

/// The property of a node that names its role.
pub const MEDIA_ROLE_KEY: &'static str = "media.role";

/// The media class of a node that produces video.
pub const VIDEO_SOURCE: &'static str = "Video/Source";

/// The role of a camera.
pub const CAMERA_ROLE: &'static str = "Camera";

/// A node with these properties is a camera: its media class is that of a
/// video source and its role is that of a camera.
pub open spec fn camera_properties(
    media_class: Option<Seq<char>>,
    media_role: Option<Seq<char>>,
) -> bool {
    media_class == Some(VIDEO_SOURCE@) && media_role == Some(CAMERA_ROLE@)
}

/// Tells whether a node is a camera, from its media class and its role. A
/// node that lacks either property is none.
pub fn is_camera_node(media_class: Option<&str>, media_role: Option<&str>) -> (r: bool)
    ensures
        r == camera_properties(media_class.deep_view(), media_role.deep_view()),
{
    match (media_class, media_role) {
        (Some(class), Some(role)) => same_text(class, VIDEO_SOURCE) && same_text(
            role,
            CAMERA_ROLE,
        ),
        _ => false,
    }
}

/// How the search for the camera node ended.
#[derive(Debug, Clone, Copy, PartialEq, Eq, Structural)]
pub enum Discovery {
    /// A camera was found. Holds the id of its node.
    Node(u32),
    /// The search could not be run.
    Failed,
}

impl Discovery {
    /// What the waiting side is told: the id of the node, or nothing.
    pub open spec fn spec_message(self) -> Option<u32> {
        match self {
            Discovery::Node(id) => Some(id),
            Discovery::Failed => None,
        }
    }

    /// What the waiting side is told: the id of the node, or nothing.
    #[verifier::when_used_as_spec(spec_message)]
    pub fn message(self) -> (r: Option<u32>)
        ensures
            r == self.spec_message(),
    {
        match self {
            Discovery::Node(id) => Some(id),
            Discovery::Failed => None,
        }
    }
}

/// What a report gets from a handoff that guards `sender`.
pub open spec fn reported<S>(sender: Option<S>, discovery: Discovery) -> Option<(S, Option<u32>)> {
    match sender {
        Some(sender) => Some((sender, discovery.spec_message())),
        None => None,
    }
}

/// The sending end of a channel that carries one answer, guarded so that it
/// is used once: whoever reports first gets the sender, everyone after gets
/// nothing.
#[derive(Debug)]
pub struct Handoff<S> {
    sender: Option<S>,
}

impl<S> View for Handoff<S> {
    type V = Option<S>;

    /// The sender, as long as nothing was reported.
    closed spec fn view(&self) -> Option<S> {
        self.sender
    }
}

impl<S> Handoff<S> {
    /// Guards `sender`.
    pub fn new(sender: S) -> (r: Self)
        ensures
            r@ == Some(sender),
    {
        Handoff { sender: Some(sender) }
    }

    /// Tells whether the answer has been handed over.
    pub fn is_spent(&self) -> (r: bool)
        ensures
            r == (self@ is None),
    {
        self.sender.is_none()
    }

    /// Reports how the search ended. The first report gets the sender and
    /// the message to send with it; every later one gets nothing. After a
    /// report the handoff is spent.
    pub fn report(&mut self, discovery: Discovery) -> (r: Option<(S, Option<u32>)>)
        ensures
            r == reported(old(self)@, discovery),
            final(self)@ is None,
    {
        match self.sender.take() {
            Some(sender) => Some((sender, discovery.message())),
            None => None,
        }
    }
}

/// What the waiting side makes of the channel's answer: the node id that
/// was sent, or nothing where the search failed or the channel was closed
/// without an answer.
pub fn node_from_answer(answer: Option<Option<u32>>) -> (r: Option<u32>)
    ensures
        r == match answer {
            Some(Some(id)) => Some(id),
            _ => None,
        },
{
    match answer {
        Some(Some(id)) => Some(id),
        _ => None,
    }
}

/// How an attempt to start the camera stream ended.
#[derive(Debug, Clone, Copy, PartialEq, Eq, Structural)]
pub enum StreamOutcome {
    /// The portal opened the stream `fd`, and the camera is the node
    /// `node_id`.
    Started { fd: i32, node_id: u32 },
    /// The portal knows of no camera.
    NoCamera,
    /// The request failed.
    Failed,
}

/// The kind of a notification.
#[derive(Debug, Clone, Copy, PartialEq, Eq, Structural)]
pub enum NotificationKind {
    Success,
    Info,
    Error,
}

/// What happens to the video pipeline.
#[derive(Debug, Clone, Copy, PartialEq, Eq, Structural)]
pub enum Pipeline {
    /// It stays as it is.
    Keep,
    /// It is attached to the node `node_id` of the stream `fd`.
    Attach { fd: i32, node_id: u32 },
    /// It is closed.
    Close,
}

/// What the page shows and allows after a step. `None` leaves a widget as
/// it is.
#[derive(Debug, PartialEq, Eq)]
pub struct PageUpdate {
    /// Whether the action that starts the stream is enabled.
    pub start_enabled: bool,
    /// Whether the action that stops the stream is enabled.
    pub stop_enabled: bool,
    /// The text of the label that says whether a camera is available.
    pub camera_available: Option<&'static str>,
    /// Whether the picture is revealed.
    pub reveal: Option<bool>,
    /// What happens to the video pipeline.
    pub pipeline: Pipeline,
    /// The notification to send, with its kind.
    pub notification: Option<(&'static str, NotificationKind)>,
}

/// The page while the stream is being started: only stopping is allowed.
pub fn starting_update() -> (r: PageUpdate)
    ensures
        r == (PageUpdate {
            start_enabled: false,
            stop_enabled: true,
            camera_available: None,
            reveal: None,
            pipeline: Pipeline::Keep,
            notification: None,
        }),
{
    PageUpdate {
        start_enabled: false,
        stop_enabled: true,
        camera_available: None,
        reveal: None,
        pipeline: Pipeline::Keep,
        notification: None,
    }
}

/// The page after the stream was stopped: the pipeline is closed, the
/// picture hidden, and only starting is allowed.
pub fn stopped_update() -> (r: PageUpdate)
    ensures
        r == (PageUpdate {
            start_enabled: true,
            stop_enabled: false,
            camera_available: None,
            reveal: Some(false),
            pipeline: Pipeline::Close,
            notification: None,
        }),
{
    PageUpdate {
        start_enabled: true,
        stop_enabled: false,
        camera_available: None,
        reveal: Some(false),
        pipeline: Pipeline::Close,
        notification: None,
    }
}

/// The page after an attempt to start the stream, as a value.
pub open spec fn update_of(outcome: StreamOutcome) -> PageUpdate {
    match outcome {
        StreamOutcome::Started { fd, node_id } => PageUpdate {
            start_enabled: false,
            stop_enabled: true,
            camera_available: Some("Yes"),
            reveal: Some(true),
            pipeline: Pipeline::Attach { fd, node_id },
            notification: Some(("Camera stream started successfully", NotificationKind::Success)),
        },
        StreamOutcome::NoCamera => PageUpdate {
            start_enabled: false,
            stop_enabled: false,
            camera_available: Some("No"),
            reveal: None,
            pipeline: Pipeline::Keep,
            notification: Some(("No camera seems to be available", NotificationKind::Info)),
        },
        StreamOutcome::Failed => PageUpdate {
            start_enabled: true,
            stop_enabled: false,
            camera_available: None,
            reveal: Some(false),
            pipeline: Pipeline::Close,
            notification: Some(
                ("Request to start a camera stream failed", NotificationKind::Error),
            ),
        },
    }
}

/// The page after an attempt to start the stream. A started stream is
/// shown and can be stopped; without a camera nothing can be started or
/// stopped; after a failure the page is as after a stop, with a notice of
/// the failure.
pub fn stream_update(outcome: StreamOutcome) -> (r: PageUpdate)
    ensures
        r == update_of(outcome),
{
    match outcome {
        StreamOutcome::Started { fd, node_id } => PageUpdate {
            start_enabled: false,
            stop_enabled: true,
            camera_available: Some("Yes"),
            reveal: Some(true),
            pipeline: Pipeline::Attach { fd, node_id },
            notification: Some(("Camera stream started successfully", NotificationKind::Success)),
        },
        StreamOutcome::NoCamera => PageUpdate {
            start_enabled: false,
            stop_enabled: false,
            camera_available: Some("No"),
            reveal: None,
            pipeline: Pipeline::Keep,
            notification: Some(("No camera seems to be available", NotificationKind::Info)),
        },
        StreamOutcome::Failed => {
            let stopped = stopped_update();
            PageUpdate {
                notification: Some(
                    ("Request to start a camera stream failed", NotificationKind::Error),
                ),
                ..stopped
            }
        },
    }
}

/// The guarded sender changes hands exactly once: the first report gets it
/// with its message, and as every report leaves the handoff spent, a later
/// one gets nothing.
pub proof fn lemma_answer_is_sent_once<S>(sender: S, first: Discovery, second: Discovery)
    ensures
        reported(Some(sender), first) == Some((sender, first.spec_message())),
        reported(None::<S>, second) is None,
{
}

} // verus!
