//! The session-list shape: a required status, a required sequence of sessions
//! with every per-session field optional, and the derived list of session names.

use vstd::prelude::*;
use crate::errors::RelayError;
use crate::json::{Json, JsonView, obj_fields, lookup_field, get_field, get_opt_u32,
    get_opt_string, get_req_string, get_req_arr, not_object_error, not_object_text,
    field_error_text, parse_diag, ok_opt_u32, val_opt_u32, ok_opt_string,
    val_opt_string, ok_req_string, val_req_string, lemma_json_fields_view, json_fields_view,
    parse_json, text_json};

verus! {

/// One legislative session. Every field is optional.
#[derive(Debug, PartialEq)]
pub struct Session {
    pub session_id: Option<u32>,
    pub state_id: Option<u32>,
    pub state_abbr: Option<String>,
    pub year_start: Option<u32>,
    pub year_end: Option<u32>,
    pub prefile: Option<u32>,
    pub sine_die: Option<u32>,
    pub special: Option<u32>,
    pub session_tag: Option<String>,
    pub session_title: Option<String>,
    pub session_name: Option<String>,
    pub dataset_hash: Option<String>,
}

/// The model of a `Session`.
pub struct SessionView {
    pub session_id: Option<u32>,
    pub state_id: Option<u32>,
    pub state_abbr: Option<Seq<char>>,
    pub year_start: Option<u32>,
    pub year_end: Option<u32>,
    pub prefile: Option<u32>,
    pub sine_die: Option<u32>,
    pub special: Option<u32>,
    pub session_tag: Option<Seq<char>>,
    pub session_title: Option<Seq<char>>,
    pub session_name: Option<Seq<char>>,
    pub dataset_hash: Option<Seq<char>>,
}

impl DeepView for Session {
    type V = SessionView;

    open spec fn deep_view(&self) -> SessionView {
        SessionView {
            session_id: self.session_id,
            state_id: self.state_id,
            state_abbr: self.state_abbr.deep_view(),
            year_start: self.year_start,
            year_end: self.year_end,
            prefile: self.prefile,
            sine_die: self.sine_die,
            special: self.special,
            session_tag: self.session_tag.deep_view(),
            session_title: self.session_title.deep_view(),
            session_name: self.session_name.deep_view(),
            dataset_hash: self.dataset_hash.deep_view(),
        }
    }
}

/// A JSON value has the shape of the record.
pub open spec fn session_ok(j: JsonView) -> bool {
    &&& j is Obj
    &&& ok_opt_u32(obj_fields(j), "session_id"@)
    &&& ok_opt_u32(obj_fields(j), "state_id"@)
    &&& ok_opt_string(obj_fields(j), "state_abbr"@)
    &&& ok_opt_u32(obj_fields(j), "year_start"@)
    &&& ok_opt_u32(obj_fields(j), "year_end"@)
    &&& ok_opt_u32(obj_fields(j), "prefile"@)
    &&& ok_opt_u32(obj_fields(j), "sine_die"@)
    &&& ok_opt_u32(obj_fields(j), "special"@)
    &&& ok_opt_string(obj_fields(j), "session_tag"@)
    &&& ok_opt_string(obj_fields(j), "session_title"@)
    &&& ok_opt_string(obj_fields(j), "session_name"@)
    &&& ok_opt_string(obj_fields(j), "dataset_hash"@)
}

/// The record a JSON value of that shape decodes to.
pub open spec fn session_val(j: JsonView) -> SessionView {
    SessionView {
        session_id: val_opt_u32(obj_fields(j), "session_id"@),
        state_id: val_opt_u32(obj_fields(j), "state_id"@),
        state_abbr: val_opt_string(obj_fields(j), "state_abbr"@),
        year_start: val_opt_u32(obj_fields(j), "year_start"@),
        year_end: val_opt_u32(obj_fields(j), "year_end"@),
        prefile: val_opt_u32(obj_fields(j), "prefile"@),
        sine_die: val_opt_u32(obj_fields(j), "sine_die"@),
        special: val_opt_u32(obj_fields(j), "special"@),
        session_tag: val_opt_string(obj_fields(j), "session_tag"@),
        session_title: val_opt_string(obj_fields(j), "session_title"@),
        session_name: val_opt_string(obj_fields(j), "session_name"@),
        dataset_hash: val_opt_string(obj_fields(j), "dataset_hash"@),
    }
}

/// The diagnostic decoding gives when the value fails the shape: the first
/// offending field in decode order.
pub open spec fn session_diag(j: JsonView) -> Seq<char> {
    if !(j is Obj) {
        not_object_text()
    } else if !ok_opt_u32(obj_fields(j), "session_id"@) {
        field_error_text("session_id"@)
    } else if !ok_opt_u32(obj_fields(j), "state_id"@) {
        field_error_text("state_id"@)
    } else if !ok_opt_string(obj_fields(j), "state_abbr"@) {
        field_error_text("state_abbr"@)
    } else if !ok_opt_u32(obj_fields(j), "year_start"@) {
        field_error_text("year_start"@)
    } else if !ok_opt_u32(obj_fields(j), "year_end"@) {
        field_error_text("year_end"@)
    } else if !ok_opt_u32(obj_fields(j), "prefile"@) {
        field_error_text("prefile"@)
    } else if !ok_opt_u32(obj_fields(j), "sine_die"@) {
        field_error_text("sine_die"@)
    } else if !ok_opt_u32(obj_fields(j), "special"@) {
        field_error_text("special"@)
    } else if !ok_opt_string(obj_fields(j), "session_tag"@) {
        field_error_text("session_tag"@)
    } else if !ok_opt_string(obj_fields(j), "session_title"@) {
        field_error_text("session_title"@)
    } else if !ok_opt_string(obj_fields(j), "session_name"@) {
        field_error_text("session_name"@)
    } else if !ok_opt_string(obj_fields(j), "dataset_hash"@) {
        field_error_text("dataset_hash"@)
    } else {
        Seq::empty()
    }
}

/// Decodes one record: absent and null fields stay empty, a field of the
/// wrong type is a shape error.
pub fn decode_session(j: &Json) -> (r: Result<Session, String>)
    ensures
        r matches Ok(v) ==> session_ok(j.deep_view()) && v.deep_view() == session_val(
            j.deep_view(),
        ),
        r matches Err(m) ==> !session_ok(j.deep_view()) && m@ == session_diag(
            j.deep_view(),
        ),
{
    let fields = match j {
        Json::Obj(fields) => fields,
        _ => {
            return Err(not_object_error());
        },
    };
    proof {
        lemma_json_fields_view(fields@);
        assert(json_fields_view(fields@) =~= fields.deep_view());
    }
    let session_id = match get_opt_u32(fields, "session_id") {
        Ok(v) => v,
        Err(m) => {
            return Err(m);
        },
    };
    let state_id = match get_opt_u32(fields, "state_id") {
        Ok(v) => v,
        Err(m) => {
            return Err(m);
        },
    };
    let state_abbr = match get_opt_string(fields, "state_abbr") {
        Ok(v) => v,
        Err(m) => {
            return Err(m);
        },
    };
    let year_start = match get_opt_u32(fields, "year_start") {
        Ok(v) => v,
        Err(m) => {
            return Err(m);
        },
    };
    let year_end = match get_opt_u32(fields, "year_end") {
        Ok(v) => v,
        Err(m) => {
            return Err(m);
        },
    };
    let prefile = match get_opt_u32(fields, "prefile") {
        Ok(v) => v,
        Err(m) => {
            return Err(m);
        },
    };
    let sine_die = match get_opt_u32(fields, "sine_die") {
        Ok(v) => v,
        Err(m) => {
            return Err(m);
        },
    };
    let special = match get_opt_u32(fields, "special") {
        Ok(v) => v,
        Err(m) => {
            return Err(m);
        },
    };
    let session_tag = match get_opt_string(fields, "session_tag") {
        Ok(v) => v,
        Err(m) => {
            return Err(m);
        },
    };
    let session_title = match get_opt_string(fields, "session_title") {
        Ok(v) => v,
        Err(m) => {
            return Err(m);
        },
    };
    let session_name = match get_opt_string(fields, "session_name") {
        Ok(v) => v,
        Err(m) => {
            return Err(m);
        },
    };
    let dataset_hash = match get_opt_string(fields, "dataset_hash") {
        Ok(v) => v,
        Err(m) => {
            return Err(m);
        },
    };
    Ok(Session {
        session_id,
        state_id,
        state_abbr,
        year_start,
        year_end,
        prefile,
        sine_die,
        special,
        session_tag,
        session_title,
        session_name,
        dataset_hash,
    })
}

/// Every element decodes as the record.
pub open spec fn sessions_ok(items: Seq<JsonView>) -> bool {
    forall|i: int| 0 <= i < items.len() ==> session_ok(#[trigger] items[i])
}

/// The records a sequence of JSON values decodes to.
pub open spec fn sessions_val(items: Seq<JsonView>) -> Seq<SessionView> {
    Seq::new(items.len(), |i: int| session_val(items[i]))
}

/// The diagnostic of a failing sequence: that of its first offending
/// element.
pub open spec fn sessions_diag(items: Seq<JsonView>) -> Seq<char>
    decreases items.len(),
{
    if items.len() == 0 {
        Seq::empty()
    } else if !session_ok(items[0]) {
        session_diag(items[0])
    } else {
        sessions_diag(items.drop_first())
    }
}

/// Skipping well-shaped elements does not change which element the
/// diagnostic speaks of.
proof fn lemma_sessions_diag(items: Seq<JsonView>, i: int)
    requires
        0 <= i < items.len(),
        forall|k: int| 0 <= k < i ==> session_ok(#[trigger] items[k]),
        !session_ok(items[i]),
    ensures
        sessions_diag(items) == session_diag(items[i]),
    decreases i,
{
    if i > 0 {
        assert forall|k: int| 0 <= k < i - 1 implies session_ok(#[trigger] items.drop_first()[k]) by {
            assert(items.drop_first()[k] == items[k + 1]);
        }
        assert(items.drop_first()[i - 1] == items[i]);
        lemma_sessions_diag(items.drop_first(), i - 1);
    }
}

/// Decodes a required array of session records element by element.
#[verifier::loop_isolation(false)]
pub fn decode_sessions(items: &Vec<Json>) -> (r: Result<Vec<Session>, String>)
    ensures
        r matches Ok(v) ==> sessions_ok(items.deep_view()) && v.deep_view() == sessions_val(
            items.deep_view(),
        ),
        r matches Err(m) ==> !sessions_ok(items.deep_view()) && m@ == sessions_diag(
            items.deep_view(),
        ),
{
    let ghost iv = items.deep_view();
    let mut out: Vec<Session> = Vec::new();
    let mut i: usize = 0;
    while i < items.len()
        invariant
            0 <= i <= items.len(),
            out.len() == i,
            forall|k: int| 0 <= k < i ==> session_ok(#[trigger] iv[k]),
            forall|k: int| 0 <= k < i ==> out.deep_view()[k] == session_val(iv[k]),
        decreases items.len() - i,
    {
        match decode_session(&items[i]) {
            Ok(v) => {
                let ghost prev = out.deep_view();
                out.push(v);
                proof {
                    assert(forall|k: int|
                        0 <= k < i ==> #[trigger] out.deep_view()[k] == prev[k]);
                    assert(iv[i as int] == items@[i as int].deep_view());
                    assert(out.deep_view()[i as int] == session_val(iv[i as int]));
                }
            },
            Err(m) => {
                proof {
                    assert(iv[i as int] == items@[i as int].deep_view());
                    assert(!sessions_ok(iv));
                    lemma_sessions_diag(iv, i as int);
                }
                return Err(m);
            },
        }
        i += 1;
    }
    proof {
        assert(out.deep_view() =~= sessions_val(iv));
    }
    Ok(out)
}

/// A session-list response: `status` and `sessions` must both be present.
#[derive(Debug, PartialEq)]
pub struct SessionList {
    pub status: String,
    pub sessions: Vec<Session>,
}

/// The model of a `SessionList`.
pub struct SessionListView {
    pub status: Seq<char>,
    pub sessions: Seq<SessionView>,
}

impl DeepView for SessionList {
    type V = SessionListView;

    open spec fn deep_view(&self) -> SessionListView {
        SessionListView { status: self.status@, sessions: self.sessions.deep_view() }
    }
}

/// The elements of the `sessions` field, where it is an array.
pub open spec fn sessions_items(j: JsonView) -> Seq<JsonView> {
    match lookup_field(obj_fields(j), "sessions"@) {
        Some(JsonView::Arr(items)) => items,
        _ => Seq::empty(),
    }
}

/// The diagnostic decoding gives when the value fails the session-list
/// shape: the first offence in decode order.
pub open spec fn session_list_diag(j: JsonView) -> Seq<char> {
    if !(j is Obj) {
        not_object_text()
    } else if !ok_req_string(obj_fields(j), "status"@) {
        field_error_text("status"@)
    } else if !(lookup_field(obj_fields(j), "sessions"@) matches Some(JsonView::Arr(_))) {
        field_error_text("sessions"@)
    } else {
        sessions_diag(sessions_items(j))
    }
}

/// A JSON value has the session-list shape: an object whose `status` is a
/// string, whose `sessions` is an array, and whose array elements all have
/// the session shape.
pub open spec fn session_list_ok(j: JsonView) -> bool {
    &&& j is Obj
    &&& ok_req_string(obj_fields(j), "status"@)
    &&& lookup_field(obj_fields(j), "sessions"@) matches Some(JsonView::Arr(items))
    &&& sessions_ok(sessions_items(j))
}

/// The session list a JSON value of that shape decodes to.
pub open spec fn session_list_val(j: JsonView) -> SessionListView {
    SessionListView {
        status: val_req_string(obj_fields(j), "status"@),
        sessions: sessions_val(sessions_items(j)),
    }
}

/// Decodes a session list: `status` and `sessions` must be present, and
/// everything on each session is optional.
pub fn decode_session_list(j: &Json) -> (r: Result<SessionList, String>)
    ensures
        r matches Ok(v) ==> session_list_ok(j.deep_view()) && v.deep_view() == session_list_val(
            j.deep_view(),
        ),
        r matches Err(m) ==> !session_list_ok(j.deep_view()) && m@ == session_list_diag(
            j.deep_view(),
        ),
{
    let fields = match j {
        Json::Obj(fields) => fields,
        _ => {
            return Err(not_object_error());
        },
    };
    proof {
        lemma_json_fields_view(fields@);
        assert(json_fields_view(fields@) =~= fields.deep_view());
    }
    let status = match get_req_string(fields, "status") {
        Ok(v) => v,
        Err(m) => {
            return Err(m);
        },
    };
    let items = match get_req_arr(fields, "sessions") {
        Ok(v) => v,
        Err(m) => {
            return Err(m);
        },
    };
    let sessions = match decode_sessions(items) {
        Ok(v) => v,
        Err(m) => {
            return Err(m);
        },
    };
    Ok(SessionList { status, sessions })
}

/// The decoded session list a raw text validates to, if it validates.
pub open spec fn session_list_outcome(s: Seq<char>) -> Option<SessionListView> {
    match text_json(s) {
        None => None,
        Some(j) => if session_list_ok(j) {
            Some(session_list_val(j))
        } else {
            None
        },
    }
}

/// The diagnostic a failing text gets: serde_json's own where the text is
/// not JSON, the shape diagnostic otherwise.
pub open spec fn session_list_text_diag(s: Seq<char>) -> Seq<char> {
    match text_json(s) {
        None => parse_diag(s),
        Some(j) => session_list_diag(j),
    }
}

/// Validates a raw text as a session list. The outcome is a function of the
/// text alone: `Ok` exactly when the text parses as JSON with the
/// session-list shape, and then the fully decoded value.
pub fn parse_session_list(json_data: &str) -> (r: Result<SessionList, RelayError>)
    ensures
        r matches Ok(v) ==> session_list_outcome(json_data@) == Some(v.deep_view()),
        r is Err ==> session_list_outcome(json_data@) is None,
        r matches Err(e) ==> e is DecodeFailed && e.detail_view() == session_list_text_diag(
            json_data@,
        ),
{
    let j = match parse_json(json_data) {
        Ok(j) => j,
        Err(m) => {
            return Err(RelayError::DecodeFailed(m));
        },
    };
    match decode_session_list(&j) {
        Ok(v) => Ok(v),
        Err(m) => Err(RelayError::DecodeFailed(m)),
    }
}

/// The session names of a decoded session list: one per session, in order,
/// with the empty string where a session has no name.
pub open spec fn names_of_sessions(sessions: Seq<SessionView>) -> Seq<Seq<char>> {
    Seq::new(
        sessions.len(),
        |i: int|
            match sessions[i].session_name {
                Some(n) => n,
                None => Seq::empty(),
            },
    )
}

/// Validates a raw text as a session list and derives its session names:
/// exactly one string per session entry, in input order, each the session's
/// name or the empty string where the name is null or absent. The derivation
/// itself never fails on a shape-valid session list.
#[verifier::loop_isolation(false)]
pub fn parse_session_date(json_data: &str) -> (r: Result<Vec<String>, RelayError>)
    ensures
        r matches Ok(names) ==> session_list_outcome(json_data@) matches Some(sl)
            && names.deep_view() == names_of_sessions(sl.sessions),
        r is Err ==> session_list_outcome(json_data@) is None,
        r matches Err(e) ==> e is DecodeFailed && e.detail_view() == session_list_text_diag(
            json_data@,
        ),
{
    let list = match parse_session_list(json_data) {
        Ok(l) => l,
        Err(e) => {
            return Err(e);
        },
    };
    let ghost sv = list.sessions.deep_view();
    let mut names: Vec<String> = Vec::new();
    let mut i: usize = 0;
    while i < list.sessions.len()
        invariant
            0 <= i <= list.sessions.len(),
            names.len() == i,
            forall|k: int|
                0 <= k < i ==> #[trigger] names.deep_view()[k] == match sv[k].session_name {
                    Some(n) => n,
                    None => Seq::<char>::empty(),
                },
        decreases list.sessions.len() - i,
    {
        let ghost prev = names.deep_view();
        match &list.sessions[i].session_name {
            Some(n) => names.push(n.clone()),
            None => names.push(String::new()),
        }
        proof {
            assert(forall|k: int| 0 <= k < i ==> #[trigger] names.deep_view()[k] == prev[k]);
            assert(sv[i as int] == list.sessions@[i as int].deep_view());
        }
        i += 1;
    }
    proof {
        assert(names.deep_view() =~= names_of_sessions(sv));
    }
    Ok(names)
}

/// Decoding can only succeed with a `status` field: any JSON tree without
/// one, objects included, fails the session-list shape, so any text it came
/// from is rejected.
pub proof fn lemma_missing_status_fails(s: Seq<char>, j: JsonView)
    requires
        text_json(s) == Some(j),
        lookup_field(obj_fields(j), "status"@) is None,
    ensures
        session_list_outcome(s) is None,
{
}

/// A session record decodes whenever each of its fields is absent or null,
/// and then every decoded field is empty.
pub proof fn lemma_session_all_optional(j: JsonView)
    requires
        j is Obj,
        forall|k: Seq<char>|
            #[trigger] lookup_field(obj_fields(j), k) is None || lookup_field(obj_fields(j), k)
                == Some(JsonView::Null),
    ensures
        session_ok(j),
        session_val(j) == (SessionView {
            session_id: None,
            state_id: None,
            state_abbr: None,
            year_start: None,
            year_end: None,
            prefile: None,
            sine_die: None,
            special: None,
            session_tag: None,
            session_title: None,
            session_name: None,
            dataset_hash: None,
        }),
{
}

/// Validation is idempotent: any two results that the validator's contract
/// allows for one and the same text agree on success and on the decoded
/// value, since both are pinned to `session_list_outcome` of the text.
pub proof fn lemma_session_list_deterministic(
    s: Seq<char>,
    r1: Option<SessionListView>,
    r2: Option<SessionListView>,
)
    requires
        (match r1 {
            Some(v) => session_list_outcome(s) == Some(v),
            None => session_list_outcome(s) is None,
        }),
        (match r2 {
            Some(v) => session_list_outcome(s) == Some(v),
            None => session_list_outcome(s) is None,
        }),
    ensures
        r1 == r2,
{
}

} // verus!
