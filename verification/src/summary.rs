//! The shared session-summary shape embedded in master lists and bills.

use vstd::prelude::*;
use crate::json::{Json, JsonView, obj_fields, lookup_field, get_field, get_opt_u32,
    get_opt_string, get_opt_str_arr, get_opt_arr, not_object_error, not_object_text,
    field_error_text, parse_diag, ok_opt_u32, val_opt_u32,
    ok_opt_string, val_opt_string, ok_opt_str_arr, val_opt_str_arr, lemma_json_fields_view,
    json_fields_view, parse_json, text_json};

verus! {

/// A summary of the session a list or bill belongs to. Every field is optional.
#[derive(Debug, PartialEq)]
pub struct SessionSummary {
    pub session_id: Option<u32>,
    pub state_id: Option<u32>,
    pub state_abbr: Option<String>,
    pub year_start: Option<u32>,
    pub year_end: Option<u32>,
    pub prefile: Option<u32>,
    pub sine_die: Option<u32>,
    pub prior: Option<u32>,
    pub special: Option<u32>,
    pub session_tag: Option<String>,
    pub session_title: Option<String>,
    pub session_name: Option<String>,
}

/// The model of a `SessionSummary`.
pub struct SessionSummaryView {
    pub session_id: Option<u32>,
    pub state_id: Option<u32>,
    pub state_abbr: Option<Seq<char>>,
    pub year_start: Option<u32>,
    pub year_end: Option<u32>,
    pub prefile: Option<u32>,
    pub sine_die: Option<u32>,
    pub prior: Option<u32>,
    pub special: Option<u32>,
    pub session_tag: Option<Seq<char>>,
    pub session_title: Option<Seq<char>>,
    pub session_name: Option<Seq<char>>,
}

impl DeepView for SessionSummary {
    type V = SessionSummaryView;

    open spec fn deep_view(&self) -> SessionSummaryView {
        SessionSummaryView {
            session_id: self.session_id,
            state_id: self.state_id,
            state_abbr: self.state_abbr.deep_view(),
            year_start: self.year_start,
            year_end: self.year_end,
            prefile: self.prefile,
            sine_die: self.sine_die,
            prior: self.prior,
            special: self.special,
            session_tag: self.session_tag.deep_view(),
            session_title: self.session_title.deep_view(),
            session_name: self.session_name.deep_view(),
        }
    }
}

/// A JSON value has the shape of the record.
pub open spec fn session_summary_ok(j: JsonView) -> bool {
    &&& j is Obj
    &&& ok_opt_u32(obj_fields(j), "session_id"@)
    &&& ok_opt_u32(obj_fields(j), "state_id"@)
    &&& ok_opt_string(obj_fields(j), "state_abbr"@)
    &&& ok_opt_u32(obj_fields(j), "year_start"@)
    &&& ok_opt_u32(obj_fields(j), "year_end"@)
    &&& ok_opt_u32(obj_fields(j), "prefile"@)
    &&& ok_opt_u32(obj_fields(j), "sine_die"@)
    &&& ok_opt_u32(obj_fields(j), "prior"@)
    &&& ok_opt_u32(obj_fields(j), "special"@)
    &&& ok_opt_string(obj_fields(j), "session_tag"@)
    &&& ok_opt_string(obj_fields(j), "session_title"@)
    &&& ok_opt_string(obj_fields(j), "session_name"@)
}

/// The record a JSON value of that shape decodes to.
pub open spec fn session_summary_val(j: JsonView) -> SessionSummaryView {
    SessionSummaryView {
        session_id: val_opt_u32(obj_fields(j), "session_id"@),
        state_id: val_opt_u32(obj_fields(j), "state_id"@),
        state_abbr: val_opt_string(obj_fields(j), "state_abbr"@),
        year_start: val_opt_u32(obj_fields(j), "year_start"@),
        year_end: val_opt_u32(obj_fields(j), "year_end"@),
        prefile: val_opt_u32(obj_fields(j), "prefile"@),
        sine_die: val_opt_u32(obj_fields(j), "sine_die"@),
        prior: val_opt_u32(obj_fields(j), "prior"@),
        special: val_opt_u32(obj_fields(j), "special"@),
        session_tag: val_opt_string(obj_fields(j), "session_tag"@),
        session_title: val_opt_string(obj_fields(j), "session_title"@),
        session_name: val_opt_string(obj_fields(j), "session_name"@),
    }
}

/// The diagnostic decoding gives when the value fails the shape: the first
/// offending field in decode order.
pub open spec fn session_summary_diag(j: JsonView) -> Seq<char> {
    if !(j is Obj) {
        not_object_text()
    } else if !ok_opt_u32(obj_fields(j), "session_id"@) {
        field_error_text("session_id"@)
    } else if !ok_opt_u32(obj_fields(j), "state_id"@) {
        field_error_text("state_id"@)
    } else if !ok_opt_string(obj_fields(j), "state_abbr"@) {
        field_error_text("state_abbr"@)
    } else if !ok_opt_u32(obj_fields(j), "year_start"@) {
        field_error_text("year_start"@)
    } else if !ok_opt_u32(obj_fields(j), "year_end"@) {
        field_error_text("year_end"@)
    } else if !ok_opt_u32(obj_fields(j), "prefile"@) {
        field_error_text("prefile"@)
    } else if !ok_opt_u32(obj_fields(j), "sine_die"@) {
        field_error_text("sine_die"@)
    } else if !ok_opt_u32(obj_fields(j), "prior"@) {
        field_error_text("prior"@)
    } else if !ok_opt_u32(obj_fields(j), "special"@) {
        field_error_text("special"@)
    } else if !ok_opt_string(obj_fields(j), "session_tag"@) {
        field_error_text("session_tag"@)
    } else if !ok_opt_string(obj_fields(j), "session_title"@) {
        field_error_text("session_title"@)
    } else if !ok_opt_string(obj_fields(j), "session_name"@) {
        field_error_text("session_name"@)
    } else {
        Seq::empty()
    }
}

/// Decodes one record: absent and null fields stay empty, a field of the
/// wrong type is a shape error.
pub fn decode_session_summary(j: &Json) -> (r: Result<SessionSummary, String>)
    ensures
        r matches Ok(v) ==> session_summary_ok(j.deep_view()) && v.deep_view() == session_summary_val(
            j.deep_view(),
        ),
        r matches Err(m) ==> !session_summary_ok(j.deep_view()) && m@ == session_summary_diag(
            j.deep_view(),
        ),
{
    let fields = match j {
        Json::Obj(fields) => fields,
        _ => {
            return Err(not_object_error());
        },
    };
    proof {
        lemma_json_fields_view(fields@);
        assert(json_fields_view(fields@) =~= fields.deep_view());
    }
    let session_id = match get_opt_u32(fields, "session_id") {
        Ok(v) => v,
        Err(m) => {
            return Err(m);
        },
    };
    let state_id = match get_opt_u32(fields, "state_id") {
        Ok(v) => v,
        Err(m) => {
            return Err(m);
        },
    };
    let state_abbr = match get_opt_string(fields, "state_abbr") {
        Ok(v) => v,
        Err(m) => {
            return Err(m);
        },
    };
    let year_start = match get_opt_u32(fields, "year_start") {
        Ok(v) => v,
        Err(m) => {
            return Err(m);
        },
    };
    let year_end = match get_opt_u32(fields, "year_end") {
        Ok(v) => v,
        Err(m) => {
            return Err(m);
        },
    };
    let prefile = match get_opt_u32(fields, "prefile") {
        Ok(v) => v,
        Err(m) => {
            return Err(m);
        },
    };
    let sine_die = match get_opt_u32(fields, "sine_die") {
        Ok(v) => v,
        Err(m) => {
            return Err(m);
        },
    };
    let prior = match get_opt_u32(fields, "prior") {
        Ok(v) => v,
        Err(m) => {
            return Err(m);
        },
    };
    let special = match get_opt_u32(fields, "special") {
        Ok(v) => v,
        Err(m) => {
            return Err(m);
        },
    };
    let session_tag = match get_opt_string(fields, "session_tag") {
        Ok(v) => v,
        Err(m) => {
            return Err(m);
        },
    };
    let session_title = match get_opt_string(fields, "session_title") {
        Ok(v) => v,
        Err(m) => {
            return Err(m);
        },
    };
    let session_name = match get_opt_string(fields, "session_name") {
        Ok(v) => v,
        Err(m) => {
            return Err(m);
        },
    };
    Ok(SessionSummary {
        session_id,
        state_id,
        state_abbr,
        year_start,
        year_end,
        prefile,
        sine_die,
        prior,
        special,
        session_tag,
        session_title,
        session_name,
    })
}

/// An optional session summary field is absent, null, or session summary-shaped.
pub open spec fn ok_opt_session_summary(fields: Seq<(Seq<char>, JsonView)>, key: Seq<char>) -> bool {
    match lookup_field(fields, key) {
        None => true,
        Some(JsonView::Null) => true,
        Some(sub) => session_summary_ok(sub),
    }
}

/// The diagnostic an optional session summary field gives when its record fails
/// the shape.
pub open spec fn opt_session_summary_diag(fields: Seq<(Seq<char>, JsonView)>, key: Seq<char>) -> Seq<
    char,
> {
    match lookup_field(fields, key) {
        Some(sub) => session_summary_diag(sub),
        None => Seq::empty(),
    }
}

/// The record an optional session summary field holds, if any.
pub open spec fn val_opt_session_summary(fields: Seq<(Seq<char>, JsonView)>, key: Seq<char>) -> Option<
    SessionSummaryView,
> {
    match lookup_field(fields, key) {
        None => None,
        Some(JsonView::Null) => None,
        Some(sub) => Some(session_summary_val(sub)),
    }
}

} // verus!
