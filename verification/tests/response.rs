use ashpd::desktop::response::ResponseOutcome;
use ashpd::Error;

fn decode_number(payload: Vec<u8>) -> Option<u32> {
    if payload.len() == 4 {
        Some(u32::from_le_bytes([payload[0], payload[1], payload[2], payload[3]]))
    } else {
        None
    }
}

fn never_called(_payload: Vec<u8>) -> Option<u32> {
    panic!("the payload of a request that did not succeed was decoded")
}

#[test]
fn success_decodes_the_payload() {
    let result = ashpd::desktop::response::map(0, vec![7, 0, 0, 0], decode_number);
    assert_eq!(result, Ok(7));
}

#[test]
fn success_with_undecodable_payload_is_a_response_error() {
    let result = ashpd::desktop::response::map(0, vec![7, 0], decode_number);
    assert_eq!(result, Err(Error::ResponseError));
    let empty = ashpd::desktop::response::map(0, Vec::new(), decode_number);
    assert_eq!(empty, Err(Error::ResponseError));
}

#[test]
fn cancelled_whatever_the_payload() {
    for payload in [Vec::new(), vec![7, 0, 0, 0], vec![0xff], vec![0; 64]] {
        let result = ashpd::desktop::response::map(1, payload, never_called);
        assert_eq!(result, Err(Error::Cancelled));
    }
}

#[test]
fn other_status_carries_its_code() {
    assert_eq!(
        ashpd::desktop::response::map(2, vec![7, 0, 0, 0], never_called),
        Err(Error::Response(2))
    );
    assert_eq!(
        ashpd::desktop::response::map(3, Vec::new(), never_called),
        Err(Error::Response(3))
    );
    assert_eq!(
        ashpd::desktop::response::map(u32::MAX, Vec::new(), never_called),
        Err(Error::Response(u32::MAX))
    );
}

#[test]
fn outcome_is_chosen_by_status_alone() {
    assert_eq!(
        ResponseOutcome::from_signal(0, "payload"),
        ResponseOutcome::Success("payload")
    );
    assert_eq!(
        ResponseOutcome::from_signal(1, "payload"),
        ResponseOutcome::Cancelled
    );
    assert_eq!(
        ResponseOutcome::from_signal(2, "payload"),
        ResponseOutcome::Error(2)
    );
    assert_eq!(
        ResponseOutcome::from_signal(9, "payload"),
        ResponseOutcome::Error(9)
    );
}

#[test]
fn outcome_becomes_a_result() {
    let decode = |text: &str| text.parse::<u8>().ok();
    assert_eq!(ResponseOutcome::Success("12").into_result(decode), Ok(12));
    assert_eq!(
        ResponseOutcome::Success("twelve").into_result(decode),
        Err(Error::ResponseError)
    );
    assert_eq!(
        ResponseOutcome::<&str>::Cancelled.into_result(decode),
        Err(Error::Cancelled)
    );
    assert_eq!(
        ResponseOutcome::<&str>::Error(2).into_result(decode),
        Err(Error::Response(2))
    );
}
