use ashpd::desktop::handle_token::{HandleToken, HandleTokenGenerator};
use ashpd::desktop::request::RequestPath;
use ashpd::invoker::{resolution, Invocation, RequestState, Resolution};
use ashpd::Error;

const PREDICTED: &str = "/org/freedesktop/portal/desktop/request/1_42/ashpd_1";

fn decode_text(payload: Vec<u8>) -> Option<String> {
    String::from_utf8(payload).ok()
}

fn never_called(_payload: Vec<u8>) -> Option<String> {
    panic!("the payload of a request that did not succeed was decoded")
}

fn prepared() -> Invocation<Vec<u8>> {
    Invocation::new(":1.42", HandleToken::new("ashpd_1").unwrap()).unwrap()
}

fn awaiting_call() -> Invocation<Vec<u8>> {
    let mut invocation = prepared();
    assert!(invocation.issue());
    invocation
}

fn awaiting_signal() -> Invocation<Vec<u8>> {
    let mut invocation = awaiting_call();
    assert!(!invocation.call_returned(RequestPath::new(PREDICTED)));
    invocation
}

#[test]
fn new_invocation_is_armed_on_the_predicted_path() {
    let invocation = prepared();
    assert_eq!(invocation.state(), RequestState::Created);
    assert_eq!(invocation.token().as_str(), "ashpd_1");
    assert_eq!(invocation.path().as_str(), PREDICTED);
    assert!(!invocation.is_ready());
}

#[test]
fn malformed_identity_fails_the_invocation() {
    let token = HandleToken::new("ashpd_1").unwrap();
    let failed = Invocation::<Vec<u8>>::new("1.42", token);
    assert_eq!(
        failed.err(),
        Some(Error::ParseError("Invalid unique bus name"))
    );
    let mut generator = HandleTokenGenerator::new();
    let failed = Invocation::<Vec<u8>>::with_fresh_token(&mut generator, "");
    assert_eq!(
        failed.err(),
        Some(Error::ParseError("Invalid unique bus name"))
    );
}

#[test]
fn fresh_tokens_give_each_call_its_own_path() {
    let mut generator = HandleTokenGenerator::new();
    let first = Invocation::<Vec<u8>>::with_fresh_token(&mut generator, ":1.42").unwrap();
    let second = Invocation::<Vec<u8>>::with_fresh_token(&mut generator, ":1.42").unwrap();
    assert_eq!(first.token().as_str(), "ashpd_1");
    assert_eq!(second.token().as_str(), "ashpd_2");
    assert_eq!(first.path().as_str(), PREDICTED);
    assert_eq!(
        second.path().as_str(),
        "/org/freedesktop/portal/desktop/request/1_42/ashpd_2"
    );
}

#[test]
fn call_runs_through_every_state() {
    let mut invocation = prepared();
    assert_eq!(invocation.state(), RequestState::Created);
    assert!(invocation.issue());
    assert_eq!(invocation.state(), RequestState::AwaitingCall);
    assert!(!invocation.issue());
    assert!(!invocation.call_returned(RequestPath::new(PREDICTED)));
    assert_eq!(invocation.state(), RequestState::AwaitingSignal);
    assert_eq!(invocation.poll(decode_text), None);
    assert!(invocation.on_signal(&RequestPath::new(PREDICTED), 0, b"file:///a".to_vec()));
    assert!(invocation.is_ready());
    assert_eq!(
        invocation.poll(decode_text),
        Some(Ok("file:///a".to_owned()))
    );
    assert_eq!(
        invocation.state(),
        RequestState::Resolved(Resolution::Success)
    );
    assert_eq!(invocation.poll(decode_text), None);
}

#[test]
fn different_returned_path_moves_the_subscription() {
    let actual = "/org/freedesktop/portal/desktop/request/1_42/t/ashpd_1";
    let mut invocation = awaiting_call();
    assert_eq!(invocation.path().as_str(), PREDICTED);
    assert!(invocation.call_returned(RequestPath::new(actual)));
    assert_eq!(invocation.path().as_str(), actual);
    assert_eq!(invocation.state(), RequestState::AwaitingSignal);
    assert!(!invocation.on_signal(&RequestPath::new(PREDICTED), 0, b"stale".to_vec()));
    assert_eq!(invocation.poll(decode_text), None);
    assert!(invocation.on_signal(&RequestPath::new(actual), 0, b"fresh".to_vec()));
    assert_eq!(invocation.poll(decode_text), Some(Ok("fresh".to_owned())));
}

#[test]
fn signal_that_beats_the_reply_is_kept() {
    let mut invocation = awaiting_call();
    assert!(invocation.on_signal(&RequestPath::new(PREDICTED), 0, b"quick".to_vec()));
    assert!(!invocation.is_ready());
    assert_eq!(invocation.poll(decode_text), None);
    assert_eq!(invocation.state(), RequestState::AwaitingCall);
    assert!(!invocation.call_returned(RequestPath::new(PREDICTED)));
    assert_eq!(invocation.poll(decode_text), Some(Ok("quick".to_owned())));
}

#[test]
fn signal_that_beats_a_diverging_reply_is_kept() {
    let mut invocation = awaiting_call();
    assert!(invocation.on_signal(&RequestPath::new(PREDICTED), 0, b"quick".to_vec()));
    assert!(invocation.call_returned(RequestPath::new("/elsewhere")));
    assert_eq!(invocation.poll(decode_text), Some(Ok("quick".to_owned())));
}

#[test]
fn no_signal_is_taken_before_the_call_is_issued() {
    let mut invocation = prepared();
    assert!(!invocation.on_signal(&RequestPath::new(PREDICTED), 0, Vec::new()));
    assert!(!invocation.call_returned(RequestPath::new(PREDICTED)));
    assert_eq!(invocation.call_failed("early".to_owned()), None);
    assert_eq!(invocation.abandon(), None);
    assert_eq!(invocation.state(), RequestState::Created);
}

#[test]
fn cancelled_signal_resolves_as_cancelled() {
    let mut invocation = awaiting_signal();
    assert!(invocation.on_signal(&RequestPath::new(PREDICTED), 1, vec![0xff, 0xfe]));
    assert_eq!(invocation.poll(never_called), Some(Err(Error::Cancelled)));
    assert_eq!(
        invocation.state(),
        RequestState::Resolved(Resolution::Cancelled)
    );
}

#[test]
fn failed_signal_resolves_as_error_with_its_code() {
    let mut invocation = awaiting_signal();
    assert!(invocation.on_signal(&RequestPath::new(PREDICTED), 2, Vec::new()));
    assert_eq!(invocation.poll(never_called), Some(Err(Error::Response(2))));
    assert_eq!(
        invocation.state(),
        RequestState::Resolved(Resolution::Error)
    );
}

#[test]
fn undecodable_payload_resolves_as_error() {
    let mut invocation = awaiting_signal();
    assert!(invocation.on_signal(&RequestPath::new(PREDICTED), 0, vec![0xff, 0xfe]));
    assert_eq!(invocation.poll(decode_text), Some(Err(Error::ResponseError)));
    assert_eq!(
        invocation.state(),
        RequestState::Resolved(Resolution::Error)
    );
}

#[test]
fn failed_call_surfaces_at_once() {
    let mut invocation = awaiting_call();
    assert_eq!(
        invocation.call_failed("connection lost".to_owned()),
        Some(Error::Transport("connection lost".to_owned()))
    );
    assert_eq!(
        invocation.state(),
        RequestState::Resolved(Resolution::Error)
    );
    assert!(!invocation.on_signal(&RequestPath::new(PREDICTED), 0, Vec::new()));
    assert_eq!(invocation.poll(decode_text), None);
    assert_eq!(invocation.abandon(), None);
    assert_eq!(invocation.call_failed("again".to_owned()), None);
}

#[test]
fn abandoning_sends_one_close_and_ignores_later_signals() {
    let mut invocation = awaiting_signal();
    assert_eq!(invocation.abandon(), Some(RequestPath::new(PREDICTED)));
    assert_eq!(invocation.state(), RequestState::Abandoned);
    assert_eq!(invocation.abandon(), None);
    assert!(!invocation.on_signal(&RequestPath::new(PREDICTED), 0, b"late".to_vec()));
    assert!(!invocation.is_ready());
    assert_eq!(invocation.poll(decode_text), None);
    assert_eq!(invocation.state(), RequestState::Abandoned);
}

#[test]
fn abandoning_while_the_call_is_awaited_closes_the_predicted_path() {
    let mut invocation = awaiting_call();
    assert_eq!(invocation.abandon(), Some(RequestPath::new(PREDICTED)));
    assert!(!invocation.call_returned(RequestPath::new(PREDICTED)));
    assert_eq!(invocation.state(), RequestState::Abandoned);
}

#[test]
fn nothing_is_closed_after_the_result_was_taken() {
    let mut invocation = awaiting_signal();
    assert!(invocation.on_signal(&RequestPath::new(PREDICTED), 0, b"done".to_vec()));
    assert_eq!(invocation.poll(decode_text), Some(Ok("done".to_owned())));
    assert_eq!(invocation.abandon(), None);
    assert!(!invocation.on_signal(&RequestPath::new(PREDICTED), 0, b"again".to_vec()));
    assert_eq!(
        invocation.state(),
        RequestState::Resolved(Resolution::Success)
    );
}

#[test]
fn concurrent_calls_resolve_independently_out_of_order() {
    let mut generator = HandleTokenGenerator::new();
    let mut first = Invocation::<Vec<u8>>::with_fresh_token(&mut generator, ":1.42").unwrap();
    let mut second = Invocation::<Vec<u8>>::with_fresh_token(&mut generator, ":1.42").unwrap();
    let first_path = first.path().clone();
    let second_path = second.path().clone();
    assert_ne!(first_path, second_path);
    assert!(first.issue());
    assert!(second.issue());
    assert!(!first.call_returned(first_path.clone()));
    assert!(!second.call_returned(second_path.clone()));

    assert!(!first.on_signal(&second_path, 1, Vec::new()));
    assert!(second.on_signal(&second_path, 1, Vec::new()));
    assert_eq!(first.poll(decode_text), None);
    assert_eq!(second.poll(never_called), Some(Err(Error::Cancelled)));

    assert!(first.on_signal(&first_path, 0, b"first".to_vec()));
    assert!(!second.on_signal(&first_path, 0, b"first".to_vec()));
    assert_eq!(first.poll(decode_text), Some(Ok("first".to_owned())));
    assert_eq!(first.state(), RequestState::Resolved(Resolution::Success));
    assert_eq!(
        second.state(),
        RequestState::Resolved(Resolution::Cancelled)
    );
}

#[test]
fn results_sort_into_resolutions() {
    assert_eq!(resolution(&Ok::<u8, Error>(1)), Resolution::Success);
    assert_eq!(
        resolution(&Err::<u8, Error>(Error::Cancelled)),
        Resolution::Cancelled
    );
    assert_eq!(
        resolution(&Err::<u8, Error>(Error::Response(2))),
        Resolution::Error
    );
    assert_eq!(
        resolution(&Err::<u8, Error>(Error::ResponseError)),
        Resolution::Error
    );
    assert_eq!(
        resolution(&Err::<u8, Error>(Error::Transport("lost".to_owned()))),
        Resolution::Error
    );
}
