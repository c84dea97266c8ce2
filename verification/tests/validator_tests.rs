use legiscan_relay::bill::parse_bill;
use legiscan_relay::errors::RelayError;
use legiscan_relay::masterlist::parse_master_list;
use legiscan_relay::person::parse_person;
use legiscan_relay::session::{parse_session_date, parse_session_list};

#[test]
fn session_list_minimal_ok() {
    let raw = r#"{"status":"OK","sessions":[]}"#;
    let list = parse_session_list(raw).expect("minimal session list decodes");
    assert_eq!(list.status, "OK");
    assert_eq!(list.sessions.len(), 0);
}

#[test]
fn session_list_full_entry_ok() {
    let raw = r#"{"status":"OK","sessions":[{"session_id":2143,"state_id":15,
        "state_abbr":"IN","year_start":2024,"year_end":2024,"prefile":0,
        "sine_die":1,"special":0,"session_tag":"Regular Session",
        "session_title":"2024 Regular Session","session_name":"2024 Regular",
        "dataset_hash":"abc123"}]}"#;
    let list = parse_session_list(raw).unwrap();
    assert_eq!(list.sessions.len(), 1);
    let s = &list.sessions[0];
    assert_eq!(s.session_id, Some(2143));
    assert_eq!(s.state_id, Some(15));
    assert_eq!(s.state_abbr.as_deref(), Some("IN"));
    assert_eq!(s.year_start, Some(2024));
    assert_eq!(s.year_end, Some(2024));
    assert_eq!(s.prefile, Some(0));
    assert_eq!(s.sine_die, Some(1));
    assert_eq!(s.special, Some(0));
    assert_eq!(s.session_tag.as_deref(), Some("Regular Session"));
    assert_eq!(s.session_name.as_deref(), Some("2024 Regular"));
    assert_eq!(s.dataset_hash.as_deref(), Some("abc123"));
}

#[test]
fn session_with_all_fields_absent_decodes() {
    let raw = r#"{"status":"OK","sessions":[{}]}"#;
    let list = parse_session_list(raw).unwrap();
    assert_eq!(list.sessions.len(), 1);
    assert_eq!(list.sessions[0].session_id, None);
    assert_eq!(list.sessions[0].session_name, None);
}

#[test]
fn session_with_all_fields_null_decodes() {
    let raw = r#"{"status":"OK","sessions":[{"session_id":null,"state_id":null,
        "state_abbr":null,"year_start":null,"year_end":null,"prefile":null,
        "sine_die":null,"special":null,"session_tag":null,"session_title":null,
        "session_name":null,"dataset_hash":null}]}"#;
    let list = parse_session_list(raw).unwrap();
    assert_eq!(list.sessions.len(), 1);
    assert_eq!(list.sessions[0].session_id, None);
    assert_eq!(list.sessions[0].session_name, None);
}

#[test]
fn session_list_missing_status_fails() {
    let r = parse_session_list(r#"{"sessions":[]}"#);
    assert!(matches!(r, Err(RelayError::DecodeFailed(_))));
}

#[test]
fn session_list_null_status_fails() {
    let r = parse_session_list(r#"{"status":null,"sessions":[]}"#);
    assert!(matches!(r, Err(RelayError::DecodeFailed(_))));
}

#[test]
fn session_list_missing_sessions_fails() {
    let r = parse_session_list(r#"{"status":"OK"}"#);
    assert!(matches!(r, Err(RelayError::DecodeFailed(_))));
}

#[test]
fn session_list_wrong_field_type_fails() {
    let r = parse_session_list(r#"{"status":"OK","sessions":[{"session_id":"2143"}]}"#);
    assert!(matches!(r, Err(RelayError::DecodeFailed(_))));
}

#[test]
fn session_id_too_large_fails() {
    let r = parse_session_list(r#"{"status":"OK","sessions":[{"session_id":4294967296}]}"#);
    assert!(matches!(r, Err(RelayError::DecodeFailed(_))));
}

#[test]
fn malformed_json_fails() {
    assert!(parse_session_list("not json at all").is_err());
    assert!(parse_bill("{\"status\":").is_err());
    assert!(parse_person("").is_err());
    assert!(parse_master_list("[1,2").is_err());
}

#[test]
fn non_object_top_level_fails() {
    assert!(parse_session_list("[]").is_err());
    assert!(parse_bill("42").is_err());
    assert!(parse_person("\"text\"").is_err());
    assert!(parse_master_list("null").is_err());
}

#[test]
fn derive_names_one_per_session_in_order() {
    let raw = r#"{"status":"OK","sessions":[
        {"session_name":"2023 Special"},
        {"session_name":null},
        {},
        {"session_name":"2024 Regular"}]}"#;
    let names = parse_session_date(raw).unwrap();
    assert_eq!(names.len(), 4);
    assert_eq!(names[0], "2023 Special");
    assert_eq!(names[1], "");
    assert_eq!(names[2], "");
    assert_eq!(names[3], "2024 Regular");
}

#[test]
fn derive_names_empty_list() {
    let names = parse_session_date(r#"{"status":"OK","sessions":[]}"#).unwrap();
    assert_eq!(names.len(), 0);
}

#[test]
fn derive_names_fails_like_decoding() {
    assert!(parse_session_date(r#"{"sessions":[]}"#).is_err());
}

#[test]
fn validation_is_idempotent() {
    let good = r#"{"status":"OK","sessions":[{"session_name":"A"},{}]}"#;
    let r1 = parse_session_list(good).unwrap();
    let r2 = parse_session_list(good).unwrap();
    assert_eq!(r1, r2);
    let bad = r#"{"sessions":[]}"#;
    assert!(parse_session_list(bad).is_err());
    assert!(parse_session_list(bad).is_err());
    let b1 = parse_bill("{}").unwrap();
    let b2 = parse_bill("{}").unwrap();
    assert_eq!(b1, b2);
}

#[test]
fn bill_empty_object_decodes() {
    let b = parse_bill("{}").unwrap();
    assert_eq!(b.status, None);
    assert_eq!(b.bill, None);
    assert_eq!(b.sponsors, None);
    assert_eq!(b.texts, None);
    assert_eq!(b.calendar, None);
}

#[test]
fn bill_all_null_fields_decode() {
    let raw = r#"{"status":null,"bill":null,"url":null,"state_link":null,
        "completed":null,"status_code":null,"status_date":null,"progress":null,
        "state":null,"state_id":null,"bill_number":null,"bill_type":null,
        "bill_type_id":null,"body":null,"body_id":null,"current_body":null,
        "current_body_id":null,"title":null,"description":null,
        "pending_committee_id":null,"committee":null,"referrals":null,
        "history":null,"sponsors":null,"sasts":null,"subjects":null,
        "texts":null,"votes":null,"amendments":null,"supplements":null,
        "calendar":null}"#;
    let b = parse_bill(raw).unwrap();
    assert_eq!(b.status, None);
    assert_eq!(b.history, None);
    assert_eq!(b.sponsors, None);
}

#[test]
fn bill_nested_records_decode() {
    let raw = r#"{"status":"OK","bill":{"bill_id":118002,"change_hash":"xyz",
        "session_id":2143,"session":{"session_id":2143,"year_start":2024,
        "session_name":"2024 Regular"}},
        "progress":[{"date":"2024-01-08","event":"Introduced"}],
        "history":[{"date":"2024-01-08","action":"First reading","chamber":"H",
        "chamber_id":1,"importance":1}],
        "texts":[{"doc_id":1,"type":"Introduced","mime":"text/html"}],
        "subjects":["Education","Budget"]}"#;
    let b = parse_bill(raw).unwrap();
    let inner = b.bill.unwrap();
    assert_eq!(inner.bill_id, Some(118002));
    assert_eq!(inner.change_hash.as_deref(), Some("xyz"));
    let session = inner.session.unwrap();
    assert_eq!(session.session_id, Some(2143));
    assert_eq!(session.session_name.as_deref(), Some("2024 Regular"));
    let progress = b.progress.unwrap();
    assert_eq!(progress.len(), 1);
    assert_eq!(progress[0].event.as_deref(), Some("Introduced"));
    let history = b.history.unwrap();
    assert_eq!(history[0].chamber_id, Some(1));
    let texts = b.texts.unwrap();
    assert_eq!(texts[0].doc_type.as_deref(), Some("Introduced"));
    assert_eq!(b.subjects.unwrap(), vec!["Education".to_string(), "Budget".to_string()]);
}

#[test]
fn bill_sponsors_missing_party_and_district_decode() {
    let raw = r#"{"status":"OK","sponsors":[
        {"people_id":123,"name":"A. Member"},
        {"people_id":456,"name":"B. Member"}]}"#;
    let b = parse_bill(raw).unwrap();
    let sponsors = b.sponsors.unwrap();
    assert_eq!(sponsors.len(), 2);
    assert_eq!(sponsors[0].people_id, Some(123));
    assert_eq!(sponsors[0].party, None);
    assert_eq!(sponsors[0].district, None);
    assert_eq!(sponsors[1].people_id, Some(456));
}

#[test]
fn bill_wrong_element_in_string_list_fails() {
    let r = parse_bill(r#"{"subjects":["Education",5]}"#);
    assert!(matches!(r, Err(RelayError::DecodeFailed(_))));
}

#[test]
fn bill_wrong_sponsor_shape_fails() {
    let r = parse_bill(r#"{"sponsors":[{"people_id":"x"}]}"#);
    assert!(matches!(r, Err(RelayError::DecodeFailed(_))));
    let r = parse_bill(r#"{"sponsors":["name"]}"#);
    assert!(matches!(r, Err(RelayError::DecodeFailed(_))));
}

#[test]
fn master_list_empty_and_full_decode() {
    let ml = parse_master_list("{}").unwrap();
    assert_eq!(ml.status, None);
    assert_eq!(ml.masterlist, None);
    assert_eq!(ml.id, None);

    let raw = r#"{"status":"OK","masterlist":{"session_id":2143,"sine_die":0,
        "prior":0,"session_name":"2024 Regular"},
        "id":[{"bill_id":1,"number":"HB1001","change_date":"2024-01-09"},{}]}"#;
    let ml = parse_master_list(raw).unwrap();
    assert_eq!(ml.status.as_deref(), Some("OK"));
    let summary = ml.masterlist.unwrap();
    assert_eq!(summary.session_id, Some(2143));
    assert_eq!(summary.sine_die, Some(0));
    let stubs = ml.id.unwrap();
    assert_eq!(stubs.len(), 2);
    assert_eq!(stubs[0].number.as_deref(), Some("HB1001"));
    assert_eq!(stubs[1].bill_id, None);
}

#[test]
fn master_list_wrong_summary_shape_fails() {
    let r = parse_master_list(r#"{"masterlist":[1]}"#);
    assert!(matches!(r, Err(RelayError::DecodeFailed(_))));
}

#[test]
fn person_empty_and_full_decode() {
    let p = parse_person("{}").unwrap();
    assert_eq!(p.status, None);
    assert_eq!(p.person, None);

    let raw = r#"{"status":"OK","person":{"people_id":123,"party_id":"1",
        "party":"D","role":"Rep","name":"A. Member","district":"HD-001",
        "committee_id":0}}"#;
    let p = parse_person(raw).unwrap();
    assert_eq!(p.status.as_deref(), Some("OK"));
    let inner = p.person.unwrap();
    assert_eq!(inner.people_id, Some(123));
    assert_eq!(inner.party_id.as_deref(), Some("1"));
    assert_eq!(inner.district.as_deref(), Some("HD-001"));
    assert_eq!(inner.committee_id, Some(0));
    assert_eq!(inner.bioguide_id, None);
}

#[test]
fn person_wrong_inner_shape_fails() {
    let r = parse_person(r#"{"person":{"people_id":true}}"#);
    assert!(matches!(r, Err(RelayError::DecodeFailed(_))));
}

#[test]
fn unknown_fields_are_ignored() {
    let raw = r#"{"status":"OK","sessions":[],"extra":"ignored","more":[1,2]}"#;
    assert!(parse_session_list(raw).is_ok());
    assert!(parse_bill(r#"{"surprise":{"deep":[true]}}"#).is_ok());
}

#[test]
fn session_sine_die_flag_is_read() {
    let raw = r#"{"status":"OK","sessions":[{"sine_die":1}]}"#;
    let list = parse_session_list(raw).unwrap();
    assert_eq!(list.sessions[0].sine_die, Some(1));
}

#[test]
fn decode_failure_carries_the_offending_field() {
    let e = parse_session_list(r#"{"sessions":[]}"#).unwrap_err();
    assert_eq!(e.into_detail(), "unexpected type for field `status`");
    let e = parse_bill(r#"{"sponsors":[{"people_id":"x"}]}"#).unwrap_err();
    assert_eq!(e.into_detail(), "unexpected type for field `people_id`");
    let e = parse_person("7").unwrap_err();
    assert_eq!(e.into_detail(), "expected a JSON object");
}

#[test]
fn derived_names_and_list_share_the_diagnostic() {
    for raw in ["{\"sessions\":[]}", "not json at all", "[1,2,3]"] {
        let e1 = parse_session_list(raw).unwrap_err();
        let e2 = parse_session_date(raw).unwrap_err();
        assert_eq!(e1, e2);
    }
}
