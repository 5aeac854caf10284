use arnak::error::{error_from_api_error_messages, error_from_parsed_reply, Error};
use arnak::response::{retain_by_player_counts, single_item};
use arnak::retry::{RetryState, RetryStep};

#[test]
fn retries_back_off_then_give_up() {
    let mut s = RetryState::new();
    let mut steps = vec![];
    for _ in 0..5 {
        steps.push(s.on_reply(true));
    }
    assert_eq!(
        steps,
        vec![
            RetryStep::Wait(200),
            RetryStep::Wait(400),
            RetryStep::Wait(800),
            RetryStep::Wait(1600),
            RetryStep::GiveUp(5)
        ]
    );
    let mut s = RetryState::new();
    assert_eq!(s.on_reply(false), RetryStep::Done);
}

#[test]
fn single_item_counts() {
    assert!(matches!(single_item(Vec::<u64>::new(), "game"), Err(Error::ItemNotFound)));
    assert_eq!(single_item(vec![5u64], "game").unwrap(), 5);
    match single_item(vec![1u64, 2, 3], "game") {
        Err(Error::UnexpectedResponseError(m)) => assert_eq!(m, "expected 1 game but got 3"),
        _ => panic!("expected an unexpected response error"),
    }
}

#[test]
fn player_count_filter_keeps_overlapping_ranges() {
    let items = vec!["solo", "party", "duel", "any"];
    let ranges = vec![(1, 1), (4, 12), (2, 2), (1, 8)];
    assert_eq!(retain_by_player_counts(items.clone(), &ranges, 2, 3), vec!["duel", "any"]);
    assert_eq!(retain_by_player_counts(items, &ranges, 5, 5), vec!["party", "any"]);
}

#[test]
fn api_errors_map_to_variants() {
    assert!(matches!(error_from_api_error_messages(vec!["Invalid username specified".to_string()]), Error::UnknownUsernameError));
    assert!(matches!(error_from_parsed_reply(None, Some("Guild not found.".to_string()), None), Some(Error::ItemNotFound)));
    assert!(matches!(error_from_parsed_reply(None, None, Some("Not Found".to_string())), Some(Error::ItemNotFound)));
    assert!(error_from_parsed_reply(None, None, None).is_none());
    let e = error_from_api_error_messages(vec!["a".to_string(), "b".to_string()]);
    assert_eq!(e.message(), "got errors from API: a, b");
    assert_eq!(Error::MaxRetryError(5).message(), "data still not ready after 5 retries, aborting");
}

#[test]
fn every_error_has_its_message() {
    let parse_error = serde_xml_rs::from_str::<u8>("<a>x</a>").unwrap_err();
    let text = parse_error.to_string();
    assert_eq!(Error::InvalidResponseError(parse_error).message(), format!("error parsing output: {text}"));
    assert!(matches!(
        error_from_api_error_messages(vec!["Invalid collection subtype".to_string()]),
        Error::InvalidCollectionItemType
    ));
    assert_eq!(Error::InvalidCollectionItemType.message(), "invalid collection item type provided");
    assert_eq!(Error::UnknownUsernameError.message(), "username not found");
    assert_eq!(Error::ItemNotFound.message(), "requested item not found");
    assert_eq!(Error::UnknownApiErrors(vec![]).message(), "got error from API with no message");
    assert_eq!(Error::UnknownApiErrors(vec!["x".to_string()]).message(), "got unknown error from API: x");
    assert_eq!(
        Error::UnexpectedResponseError("odd".to_string()).message(),
        "unexpected response from API, odd"
    );
}
