use legiscan_relay::errors::RelayError;
use legiscan_relay::gateway::{build_url, u32_to_string, Operation};
use legiscan_relay::relay::{
    join_with_comma, relay_bill, relay_master_list, relay_person, relay_session_list,
    relay_session_names,
};

#[test]
fn names_route_joins_with_comma_space() {
    let raw = r#"{"status":"OK","sessions":[{"session_name":"2024 Regular"},{"session_name":null}]}"#;
    let r = relay_session_names(Ok(raw.to_string()));
    assert_eq!(r.status, 200);
    assert_eq!(r.body, "2024 Regular, ");
}

#[test]
fn names_route_single_and_empty() {
    let one = r#"{"status":"OK","sessions":[{"session_name":"2024 Regular"}]}"#;
    let r = relay_session_names(Ok(one.to_string()));
    assert_eq!(r.status, 200);
    assert_eq!(r.body, "2024 Regular");

    let none = r#"{"status":"OK","sessions":[]}"#;
    let r = relay_session_names(Ok(none.to_string()));
    assert_eq!(r.status, 200);
    assert_eq!(r.body, "");
}

#[test]
fn missing_status_answers_500() {
    let r = relay_session_list(Ok(r#"{"sessions":[]}"#.to_string()));
    assert_eq!(r.status, 500);
    let r = relay_session_names(Ok(r#"{"sessions":[]}"#.to_string()));
    assert_eq!(r.status, 500);
}

#[test]
fn transport_failure_answers_500_with_detail() {
    let unreachable = |m: &str| RelayError::UpstreamUnreachable(m.to_string());
    let r = relay_session_list(Err(unreachable("connection refused")));
    assert_eq!(r.status, 500);
    assert_eq!(r.body, "connection refused");
    let r = relay_bill(Err(unreachable("timed out")));
    assert_eq!(r.status, 500);
    assert_eq!(r.body, "timed out");
    let r = relay_person(Err(unreachable("dns failure")));
    assert_eq!(r.status, 500);
    assert_eq!(r.body, "dns failure");
    let r = relay_master_list(Err(unreachable("reset")));
    assert_eq!(r.status, 500);
    assert_eq!(r.body, "reset");
}

#[test]
fn validated_body_is_relayed_byte_identical() {
    let raw = r#"{"status":"OK","sponsors":[
        {"people_id":123,"name":"A. Member"},
        {"people_id":456,"name":"B. Member"}]}"#;
    let r = relay_bill(Ok(raw.to_string()));
    assert_eq!(r.status, 200);
    assert_eq!(r.body, raw);

    let raw = r#"{"status":"OK","sessions":[{"session_name":"2024 Regular"}],
        "unknown_extra":true}"#;
    let r = relay_session_list(Ok(raw.to_string()));
    assert_eq!(r.status, 200);
    assert_eq!(r.body, raw);

    let raw = r#"{"status":"OK","person":{"people_id":7}}"#;
    let r = relay_person(Ok(raw.to_string()));
    assert_eq!(r.status, 200);
    assert_eq!(r.body, raw);

    let raw = r#"{"status":"OK","id":[{"bill_id":1}]}"#;
    let r = relay_master_list(Ok(raw.to_string()));
    assert_eq!(r.status, 200);
    assert_eq!(r.body, raw);
}

#[test]
fn invalid_body_answers_500_and_is_not_relayed() {
    let raw = r#"{"status":"OK","sponsors":[{"people_id":"x"}]}"#;
    let r = relay_bill(Ok(raw.to_string()));
    assert_eq!(r.status, 500);
    assert_ne!(r.body, raw);
    assert_eq!(r.body, "unexpected type for field `people_id`");

    let raw = r#"{"sessions":[]}"#;
    let r = relay_session_list(Ok(raw.to_string()));
    assert_eq!(r.status, 500);
    assert_ne!(r.body, raw);
    assert_eq!(r.body, "unexpected type for field `status`");

    let raw = "{\"status\":";
    let expected = legiscan_relay::session::parse_session_list(raw)
        .unwrap_err()
        .into_detail();
    let r = relay_session_list(Ok(raw.to_string()));
    assert_eq!(r.status, 500);
    assert_eq!(r.body, expected);
}

#[test]
fn error_detail_is_kept() {
    let e = RelayError::UpstreamUnreachable("no route to host".to_string());
    assert_eq!(e.into_detail(), "no route to host");
    let e = RelayError::DecodeFailed("bad shape".to_string());
    assert_eq!(e.into_detail(), "bad shape");
}

#[test]
fn join_with_comma_examples() {
    assert_eq!(join_with_comma(&vec![]), "");
    assert_eq!(join_with_comma(&vec!["a".to_string()]), "a");
    assert_eq!(
        join_with_comma(&vec!["a".to_string(), "".to_string(), "c".to_string()]),
        "a, , c"
    );
}

#[test]
fn decimal_formatting() {
    assert_eq!(u32_to_string(0), "0");
    assert_eq!(u32_to_string(7), "7");
    assert_eq!(u32_to_string(10), "10");
    assert_eq!(u32_to_string(2143), "2143");
    assert_eq!(u32_to_string(4294967295), "4294967295");
}

#[test]
fn urls_are_built_exactly() {
    let url = build_url(&Operation::GetBill { bill_id: 118002 }, "KEY");
    assert_eq!(url, "https://api.legiscan.com/?key=KEY&op=getBill&id=118002");
    let url = build_url(&Operation::GetMasterListRaw { session_id: 2143 }, "KEY");
    assert_eq!(url, "https://api.legiscan.com/?key=KEY&op=getMasterListRaw&id=2143");
    let url = build_url(
        &Operation::GetMasterList { state: "IN".to_string(), year: 2024 },
        "KEY",
    );
    assert_eq!(url, "https://api.legiscan.com/?key=KEY&op=getMasterList&state=IN&year=2024");
    let url = build_url(&Operation::GetSessionList { state: "IN".to_string() }, "secret");
    assert_eq!(url, "https://api.legiscan.com/?key=secret&op=getSessionList&state=IN");
    let url = build_url(&Operation::GetPerson { people_id: 9 }, "KEY");
    assert_eq!(url, "https://api.legiscan.com/?key=KEY&op=getPerson&id=9");
}
