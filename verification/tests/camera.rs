use ashpd::camera::{
    action_named, is_camera_node, node_from_answer, starting_update, stopped_update,
    stream_update, Discovery, Handoff, NotificationKind, PageAction, PageUpdate, Pipeline,
    StreamOutcome, START_ACTION, STOP_ACTION,
};

#[test]
fn camera_is_a_video_source_with_camera_role() {
    assert!(is_camera_node(Some("Video/Source"), Some("Camera")));
    assert!(!is_camera_node(Some("Video/Source"), Some("Screen")));
    assert!(!is_camera_node(Some("Audio/Source"), Some("Camera")));
    assert!(!is_camera_node(Some("Video/Source"), None));
    assert!(!is_camera_node(None, Some("Camera")));
    assert!(!is_camera_node(None, None));
    assert!(!is_camera_node(Some("video/source"), Some("camera")));
    assert!(!is_camera_node(Some("Camera"), Some("Video/Source")));
}

#[test]
fn discovery_says_what_is_sent() {
    assert_eq!(Discovery::Node(31).message(), Some(31));
    assert_eq!(Discovery::Node(0).message(), Some(0));
    assert_eq!(Discovery::Failed.message(), None);
}

#[test]
fn first_report_gets_the_sender() {
    let mut handoff = Handoff::new("sender");
    assert!(!handoff.is_spent());
    assert_eq!(
        handoff.report(Discovery::Node(31)),
        Some(("sender", Some(31)))
    );
    assert!(handoff.is_spent());
    assert_eq!(handoff.report(Discovery::Node(32)), None);
    assert_eq!(handoff.report(Discovery::Failed), None);
}

#[test]
fn failure_is_reported_as_no_node() {
    let mut handoff = Handoff::new(7u8);
    assert_eq!(handoff.report(Discovery::Failed), Some((7, None)));
    assert_eq!(handoff.report(Discovery::Node(31)), None);
}

#[test]
fn answer_is_flattened() {
    assert_eq!(node_from_answer(Some(Some(31))), Some(31));
    assert_eq!(node_from_answer(Some(None)), None);
    assert_eq!(node_from_answer(None), None);
}

#[test]
fn page_while_starting_and_after_stopping() {
    assert_eq!(
        starting_update(),
        PageUpdate {
            start_enabled: false,
            stop_enabled: true,
            camera_available: None,
            reveal: None,
            pipeline: Pipeline::Keep,
            notification: None,
        }
    );
    assert_eq!(
        stopped_update(),
        PageUpdate {
            start_enabled: true,
            stop_enabled: false,
            camera_available: None,
            reveal: Some(false),
            pipeline: Pipeline::Close,
            notification: None,
        }
    );
}

#[test]
fn page_after_the_stream_started() {
    assert_eq!(
        stream_update(StreamOutcome::Started { fd: 9, node_id: 31 }),
        PageUpdate {
            start_enabled: false,
            stop_enabled: true,
            camera_available: Some("Yes"),
            reveal: Some(true),
            pipeline: Pipeline::Attach { fd: 9, node_id: 31 },
            notification: Some((
                "Camera stream started successfully",
                NotificationKind::Success
            )),
        }
    );
}

#[test]
fn page_without_a_camera() {
    assert_eq!(
        stream_update(StreamOutcome::NoCamera),
        PageUpdate {
            start_enabled: false,
            stop_enabled: false,
            camera_available: Some("No"),
            reveal: None,
            pipeline: Pipeline::Keep,
            notification: Some(("No camera seems to be available", NotificationKind::Info)),
        }
    );
}

#[test]
fn page_after_a_failed_start() {
    assert_eq!(
        stream_update(StreamOutcome::Failed),
        PageUpdate {
            start_enabled: true,
            stop_enabled: false,
            camera_available: None,
            reveal: Some(false),
            pipeline: Pipeline::Close,
            notification: Some((
                "Request to start a camera stream failed",
                NotificationKind::Error
            )),
        }
    );
}

#[test]
fn page_actions_are_found_by_name() {
    assert_eq!(action_named("camera.start"), Some(PageAction::Start));
    assert_eq!(action_named("camera.stop"), Some(PageAction::Stop));
    assert_eq!(action_named(START_ACTION), Some(PageAction::Start));
    assert_eq!(action_named(STOP_ACTION), Some(PageAction::Stop));
    assert_eq!(action_named("camera.pause"), None);
    assert_eq!(action_named(""), None);
}
