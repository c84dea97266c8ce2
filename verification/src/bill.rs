//! The bill-detail shape: identifiers, status history, sponsors, texts and
//! subject lists, every field optional.

use vstd::prelude::*;
use crate::json::{Json, JsonView, obj_fields, lookup_field, get_field, get_opt_u32,
    get_opt_string, get_opt_str_arr, get_opt_arr, not_object_error, not_object_text,
    field_error_text, parse_diag, ok_opt_u32, val_opt_u32,
    ok_opt_string, val_opt_string, ok_opt_str_arr, val_opt_str_arr, lemma_json_fields_view,
    json_fields_view, parse_json, text_json};
use crate::errors::RelayError;
use crate::summary::{SessionSummary, SessionSummaryView, session_summary_ok,
    session_summary_val, session_summary_diag, decode_session_summary, ok_opt_session_summary,
    val_opt_session_summary, opt_session_summary_diag};

verus! {

/// One dated progress event of a bill. Every field is optional.
#[derive(Debug, PartialEq)]
pub struct ProgressDatesInner {
    pub date: Option<String>,
    pub event: Option<String>,
}

/// The model of a `ProgressDatesInner`.
pub struct ProgressDatesInnerView {
    pub date: Option<Seq<char>>,
    pub event: Option<Seq<char>>,
}

impl DeepView for ProgressDatesInner {
    type V = ProgressDatesInnerView;

    open spec fn deep_view(&self) -> ProgressDatesInnerView {
        ProgressDatesInnerView {
            date: self.date.deep_view(),
            event: self.event.deep_view(),
        }
    }
}

/// A JSON value has the shape of the record.
pub open spec fn progress_date_ok(j: JsonView) -> bool {
    &&& j is Obj
    &&& ok_opt_string(obj_fields(j), "date"@)
    &&& ok_opt_string(obj_fields(j), "event"@)
}

/// The record a JSON value of that shape decodes to.
pub open spec fn progress_date_val(j: JsonView) -> ProgressDatesInnerView {
    ProgressDatesInnerView {
        date: val_opt_string(obj_fields(j), "date"@),
        event: val_opt_string(obj_fields(j), "event"@),
    }
}

/// The diagnostic decoding gives when the value fails the shape: the first
/// offending field in decode order.
pub open spec fn progress_date_diag(j: JsonView) -> Seq<char> {
    if !(j is Obj) {
        not_object_text()
    } else if !ok_opt_string(obj_fields(j), "date"@) {
        field_error_text("date"@)
    } else if !ok_opt_string(obj_fields(j), "event"@) {
        field_error_text("event"@)
    } else {
        Seq::empty()
    }
}

/// Decodes one record: absent and null fields stay empty, a field of the
/// wrong type is a shape error.
pub fn decode_progress_date(j: &Json) -> (r: Result<ProgressDatesInner, String>)
    ensures
        r matches Ok(v) ==> progress_date_ok(j.deep_view()) && v.deep_view() == progress_date_val(
            j.deep_view(),
        ),
        r matches Err(m) ==> !progress_date_ok(j.deep_view()) && m@ == progress_date_diag(
            j.deep_view(),
        ),
{
    let fields = match j {
        Json::Obj(fields) => fields,
        _ => {
            return Err(not_object_error());
        },
    };
    proof {
        lemma_json_fields_view(fields@);
        assert(json_fields_view(fields@) =~= fields.deep_view());
    }
    let date = match get_opt_string(fields, "date") {
        Ok(v) => v,
        Err(m) => {
            return Err(m);
        },
    };
    let event = match get_opt_string(fields, "event") {
        Ok(v) => v,
        Err(m) => {
            return Err(m);
        },
    };
    Ok(ProgressDatesInner {
        date,
        event,
    })
}

/// Every element decodes as the record.
pub open spec fn progress_dates_ok(items: Seq<JsonView>) -> bool {
    forall|i: int| 0 <= i < items.len() ==> progress_date_ok(#[trigger] items[i])
}

/// The records a sequence of JSON values decodes to.
pub open spec fn progress_dates_val(items: Seq<JsonView>) -> Seq<ProgressDatesInnerView> {
    Seq::new(items.len(), |i: int| progress_date_val(items[i]))
}

/// The diagnostic of a failing sequence: that of its first offending
/// element.
pub open spec fn progress_dates_diag(items: Seq<JsonView>) -> Seq<char>
    decreases items.len(),
{
    if items.len() == 0 {
        Seq::empty()
    } else if !progress_date_ok(items[0]) {
        progress_date_diag(items[0])
    } else {
        progress_dates_diag(items.drop_first())
    }
}

/// Skipping well-shaped elements does not change which element the
/// diagnostic speaks of.
proof fn lemma_progress_dates_diag(items: Seq<JsonView>, i: int)
    requires
        0 <= i < items.len(),
        forall|k: int| 0 <= k < i ==> progress_date_ok(#[trigger] items[k]),
        !progress_date_ok(items[i]),
    ensures
        progress_dates_diag(items) == progress_date_diag(items[i]),
    decreases i,
{
    if i > 0 {
        assert forall|k: int| 0 <= k < i - 1 implies progress_date_ok(#[trigger] items.drop_first()[k]) by {
            assert(items.drop_first()[k] == items[k + 1]);
        }
        assert(items.drop_first()[i - 1] == items[i]);
        lemma_progress_dates_diag(items.drop_first(), i - 1);
    }
}

/// Decodes a required array of progress event records element by element.
#[verifier::loop_isolation(false)]
pub fn decode_progress_dates(items: &Vec<Json>) -> (r: Result<Vec<ProgressDatesInner>, String>)
    ensures
        r matches Ok(v) ==> progress_dates_ok(items.deep_view()) && v.deep_view() == progress_dates_val(
            items.deep_view(),
        ),
        r matches Err(m) ==> !progress_dates_ok(items.deep_view()) && m@ == progress_dates_diag(
            items.deep_view(),
        ),
{
    let ghost iv = items.deep_view();
    let mut out: Vec<ProgressDatesInner> = Vec::new();
    let mut i: usize = 0;
    while i < items.len()
        invariant
            0 <= i <= items.len(),
            out.len() == i,
            forall|k: int| 0 <= k < i ==> progress_date_ok(#[trigger] iv[k]),
            forall|k: int| 0 <= k < i ==> out.deep_view()[k] == progress_date_val(iv[k]),
        decreases items.len() - i,
    {
        match decode_progress_date(&items[i]) {
            Ok(v) => {
                let ghost prev = out.deep_view();
                out.push(v);
                proof {
                    assert(forall|k: int|
                        0 <= k < i ==> #[trigger] out.deep_view()[k] == prev[k]);
                    assert(iv[i as int] == items@[i as int].deep_view());
                    assert(out.deep_view()[i as int] == progress_date_val(iv[i as int]));
                }
            },
            Err(m) => {
                proof {
                    assert(iv[i as int] == items@[i as int].deep_view());
                    assert(!progress_dates_ok(iv));
                    lemma_progress_dates_diag(iv, i as int);
                }
                return Err(m);
            },
        }
        i += 1;
    }
    proof {
        assert(out.deep_view() =~= progress_dates_val(iv));
    }
    Ok(out)
}

/// An optional progress event-list field is absent, null, or an array of progress event records.
pub open spec fn ok_opt_progress_dates(fields: Seq<(Seq<char>, JsonView)>, key: Seq<char>) -> bool {
    match lookup_field(fields, key) {
        None => true,
        Some(JsonView::Null) => true,
        Some(JsonView::Arr(items)) => progress_dates_ok(items),
        Some(_) => false,
    }
}

/// The diagnostic an optional progress event-list field gives when it fails the
/// shape.
pub open spec fn opt_progress_dates_diag(fields: Seq<(Seq<char>, JsonView)>, key: Seq<char>) -> Seq<
    char,
> {
    match lookup_field(fields, key) {
        Some(JsonView::Arr(items)) => progress_dates_diag(items),
        _ => field_error_text(key),
    }
}

/// The records an optional progress event-list field holds, if any.
pub open spec fn val_opt_progress_dates(fields: Seq<(Seq<char>, JsonView)>, key: Seq<char>) -> Option<
    Seq<ProgressDatesInnerView>,
> {
    match lookup_field(fields, key) {
        Some(JsonView::Arr(items)) => Some(progress_dates_val(items)),
        _ => None,
    }
}

/// Reads an optional array of progress event records out of an object.
pub fn get_opt_progress_dates(fields: &Vec<(String, Json)>, key: &str) -> (r: Result<
    Option<Vec<ProgressDatesInner>>,
    String,
>)
    ensures
        r matches Ok(v) ==> ok_opt_progress_dates(fields.deep_view(), key@) && v.deep_view()
            == val_opt_progress_dates(fields.deep_view(), key@),
        r matches Err(m) ==> !ok_opt_progress_dates(fields.deep_view(), key@) && m@
            == opt_progress_dates_diag(fields.deep_view(), key@),
{
    match get_opt_arr(fields, key) {
        Ok(None) => Ok(None),
        Ok(Some(items)) => match decode_progress_dates(items) {
            Ok(v) => Ok(Some(v)),
            Err(m) => Err(m),
        },
        Err(m) => Err(m),
    }
}

/// One history action taken on a bill. Every field is optional.
#[derive(Debug, PartialEq)]
pub struct HistoryInner {
    pub date: Option<String>,
    pub action: Option<String>,
    pub chamber: Option<String>,
    pub chamber_id: Option<u32>,
    pub importance: Option<u32>,
}

/// The model of a `HistoryInner`.
pub struct HistoryInnerView {
    pub date: Option<Seq<char>>,
    pub action: Option<Seq<char>>,
    pub chamber: Option<Seq<char>>,
    pub chamber_id: Option<u32>,
    pub importance: Option<u32>,
}

impl DeepView for HistoryInner {
    type V = HistoryInnerView;

    open spec fn deep_view(&self) -> HistoryInnerView {
        HistoryInnerView {
            date: self.date.deep_view(),
            action: self.action.deep_view(),
            chamber: self.chamber.deep_view(),
            chamber_id: self.chamber_id,
            importance: self.importance,
        }
    }
}

/// A JSON value has the shape of the record.
pub open spec fn history_entry_ok(j: JsonView) -> bool {
    &&& j is Obj
    &&& ok_opt_string(obj_fields(j), "date"@)
    &&& ok_opt_string(obj_fields(j), "action"@)
    &&& ok_opt_string(obj_fields(j), "chamber"@)
    &&& ok_opt_u32(obj_fields(j), "chamber_id"@)
    &&& ok_opt_u32(obj_fields(j), "importance"@)
}

/// The record a JSON value of that shape decodes to.
pub open spec fn history_entry_val(j: JsonView) -> HistoryInnerView {
    HistoryInnerView {
        date: val_opt_string(obj_fields(j), "date"@),
        action: val_opt_string(obj_fields(j), "action"@),
        chamber: val_opt_string(obj_fields(j), "chamber"@),
        chamber_id: val_opt_u32(obj_fields(j), "chamber_id"@),
        importance: val_opt_u32(obj_fields(j), "importance"@),
    }
}

/// The diagnostic decoding gives when the value fails the shape: the first
/// offending field in decode order.
pub open spec fn history_entry_diag(j: JsonView) -> Seq<char> {
    if !(j is Obj) {
        not_object_text()
    } else if !ok_opt_string(obj_fields(j), "date"@) {
        field_error_text("date"@)
    } else if !ok_opt_string(obj_fields(j), "action"@) {
        field_error_text("action"@)
    } else if !ok_opt_string(obj_fields(j), "chamber"@) {
        field_error_text("chamber"@)
    } else if !ok_opt_u32(obj_fields(j), "chamber_id"@) {
        field_error_text("chamber_id"@)
    } else if !ok_opt_u32(obj_fields(j), "importance"@) {
        field_error_text("importance"@)
    } else {
        Seq::empty()
    }
}

/// Decodes one record: absent and null fields stay empty, a field of the
/// wrong type is a shape error.
pub fn decode_history_entry(j: &Json) -> (r: Result<HistoryInner, String>)
    ensures
        r matches Ok(v) ==> history_entry_ok(j.deep_view()) && v.deep_view() == history_entry_val(
            j.deep_view(),
        ),
        r matches Err(m) ==> !history_entry_ok(j.deep_view()) && m@ == history_entry_diag(
            j.deep_view(),
        ),
{
    let fields = match j {
        Json::Obj(fields) => fields,
        _ => {
            return Err(not_object_error());
        },
    };
    proof {
        lemma_json_fields_view(fields@);
        assert(json_fields_view(fields@) =~= fields.deep_view());
    }
    let date = match get_opt_string(fields, "date") {
        Ok(v) => v,
        Err(m) => {
            return Err(m);
        },
    };
    let action = match get_opt_string(fields, "action") {
        Ok(v) => v,
        Err(m) => {
            return Err(m);
        },
    };
    let chamber = match get_opt_string(fields, "chamber") {
        Ok(v) => v,
        Err(m) => {
            return Err(m);
        },
    };
    let chamber_id = match get_opt_u32(fields, "chamber_id") {
        Ok(v) => v,
        Err(m) => {
            return Err(m);
        },
    };
    let importance = match get_opt_u32(fields, "importance") {
        Ok(v) => v,
        Err(m) => {
            return Err(m);
        },
    };
    Ok(HistoryInner {
        date,
        action,
        chamber,
        chamber_id,
        importance,
    })
}

/// Every element decodes as the record.
pub open spec fn history_entries_ok(items: Seq<JsonView>) -> bool {
    forall|i: int| 0 <= i < items.len() ==> history_entry_ok(#[trigger] items[i])
}

/// The records a sequence of JSON values decodes to.
pub open spec fn history_entries_val(items: Seq<JsonView>) -> Seq<HistoryInnerView> {
    Seq::new(items.len(), |i: int| history_entry_val(items[i]))
}

/// The diagnostic of a failing sequence: that of its first offending
/// element.
pub open spec fn history_entries_diag(items: Seq<JsonView>) -> Seq<char>
    decreases items.len(),
{
    if items.len() == 0 {
        Seq::empty()
    } else if !history_entry_ok(items[0]) {
        history_entry_diag(items[0])
    } else {
        history_entries_diag(items.drop_first())
    }
}

/// Skipping well-shaped elements does not change which element the
/// diagnostic speaks of.
proof fn lemma_history_entries_diag(items: Seq<JsonView>, i: int)
    requires
        0 <= i < items.len(),
        forall|k: int| 0 <= k < i ==> history_entry_ok(#[trigger] items[k]),
        !history_entry_ok(items[i]),
    ensures
        history_entries_diag(items) == history_entry_diag(items[i]),
    decreases i,
{
    if i > 0 {
        assert forall|k: int| 0 <= k < i - 1 implies history_entry_ok(#[trigger] items.drop_first()[k]) by {
            assert(items.drop_first()[k] == items[k + 1]);
        }
        assert(items.drop_first()[i - 1] == items[i]);
        lemma_history_entries_diag(items.drop_first(), i - 1);
    }
}

/// Decodes a required array of history entry records element by element.
#[verifier::loop_isolation(false)]
pub fn decode_history_entries(items: &Vec<Json>) -> (r: Result<Vec<HistoryInner>, String>)
    ensures
        r matches Ok(v) ==> history_entries_ok(items.deep_view()) && v.deep_view() == history_entries_val(
            items.deep_view(),
        ),
        r matches Err(m) ==> !history_entries_ok(items.deep_view()) && m@ == history_entries_diag(
            items.deep_view(),
        ),
{
    let ghost iv = items.deep_view();
    let mut out: Vec<HistoryInner> = Vec::new();
    let mut i: usize = 0;
    while i < items.len()
        invariant
            0 <= i <= items.len(),
            out.len() == i,
            forall|k: int| 0 <= k < i ==> history_entry_ok(#[trigger] iv[k]),
            forall|k: int| 0 <= k < i ==> out.deep_view()[k] == history_entry_val(iv[k]),
        decreases items.len() - i,
    {
        match decode_history_entry(&items[i]) {
            Ok(v) => {
                let ghost prev = out.deep_view();
                out.push(v);
                proof {
                    assert(forall|k: int|
                        0 <= k < i ==> #[trigger] out.deep_view()[k] == prev[k]);
                    assert(iv[i as int] == items@[i as int].deep_view());
                    assert(out.deep_view()[i as int] == history_entry_val(iv[i as int]));
                }
            },
            Err(m) => {
                proof {
                    assert(iv[i as int] == items@[i as int].deep_view());
                    assert(!history_entries_ok(iv));
                    lemma_history_entries_diag(iv, i as int);
                }
                return Err(m);
            },
        }
        i += 1;
    }
    proof {
        assert(out.deep_view() =~= history_entries_val(iv));
    }
    Ok(out)
}

/// An optional history entry-list field is absent, null, or an array of history entry records.
pub open spec fn ok_opt_history_entries(fields: Seq<(Seq<char>, JsonView)>, key: Seq<char>) -> bool {
    match lookup_field(fields, key) {
        None => true,
        Some(JsonView::Null) => true,
        Some(JsonView::Arr(items)) => history_entries_ok(items),
        Some(_) => false,
    }
}

/// The diagnostic an optional history entry-list field gives when it fails the
/// shape.
pub open spec fn opt_history_entries_diag(fields: Seq<(Seq<char>, JsonView)>, key: Seq<char>) -> Seq<
    char,
> {
    match lookup_field(fields, key) {
        Some(JsonView::Arr(items)) => history_entries_diag(items),
        _ => field_error_text(key),
    }
}

/// The records an optional history entry-list field holds, if any.
pub open spec fn val_opt_history_entries(fields: Seq<(Seq<char>, JsonView)>, key: Seq<char>) -> Option<
    Seq<HistoryInnerView>,
> {
    match lookup_field(fields, key) {
        Some(JsonView::Arr(items)) => Some(history_entries_val(items)),
        _ => None,
    }
}

/// Reads an optional array of history entry records out of an object.
pub fn get_opt_history_entries(fields: &Vec<(String, Json)>, key: &str) -> (r: Result<
    Option<Vec<HistoryInner>>,
    String,
>)
    ensures
        r matches Ok(v) ==> ok_opt_history_entries(fields.deep_view(), key@) && v.deep_view()
            == val_opt_history_entries(fields.deep_view(), key@),
        r matches Err(m) ==> !ok_opt_history_entries(fields.deep_view(), key@) && m@
            == opt_history_entries_diag(fields.deep_view(), key@),
{
    match get_opt_arr(fields, key) {
        Ok(None) => Ok(None),
        Ok(Some(items)) => match decode_history_entries(items) {
            Ok(v) => Ok(Some(v)),
            Err(m) => Err(m),
        },
        Err(m) => Err(m),
    }
}

/// One sponsor of a bill. Every field is optional.
#[derive(Debug, PartialEq)]
pub struct SponsorInner {
    pub people_id: Option<u32>,
    pub people_hash: Option<String>,
    pub party_id: Option<u32>,
    pub party: Option<String>,
    pub name: Option<String>,
    pub first_name: Option<String>,
    pub middle_name: Option<String>,
    pub last_name: Option<String>,
    pub suffix: Option<String>,
    pub nickname: Option<String>,
    pub district: Option<String>,
    pub ftm_eid: Option<u32>,
    pub votesmart_id: Option<u32>,
    pub opensecrets_id: Option<String>,
    pub knowwho_pid: Option<u32>,
    pub ballotpedia: Option<String>,
    pub sponsor_type_id: Option<u32>,
    pub sponsor_order: Option<u32>,
    pub commitee_sponsor: Option<u32>,
    pub committee_id: Option<u32>,
    pub state_federal: Option<u32>,
}

/// The model of a `SponsorInner`.
pub struct SponsorInnerView {
    pub people_id: Option<u32>,
    pub people_hash: Option<Seq<char>>,
    pub party_id: Option<u32>,
    pub party: Option<Seq<char>>,
    pub name: Option<Seq<char>>,
    pub first_name: Option<Seq<char>>,
    pub middle_name: Option<Seq<char>>,
    pub last_name: Option<Seq<char>>,
    pub suffix: Option<Seq<char>>,
    pub nickname: Option<Seq<char>>,
    pub district: Option<Seq<char>>,
    pub ftm_eid: Option<u32>,
    pub votesmart_id: Option<u32>,
    pub opensecrets_id: Option<Seq<char>>,
    pub knowwho_pid: Option<u32>,
    pub ballotpedia: Option<Seq<char>>,
    pub sponsor_type_id: Option<u32>,
    pub sponsor_order: Option<u32>,
    pub commitee_sponsor: Option<u32>,
    pub committee_id: Option<u32>,
    pub state_federal: Option<u32>,
}

impl DeepView for SponsorInner {
    type V = SponsorInnerView;

    open spec fn deep_view(&self) -> SponsorInnerView {
        SponsorInnerView {
            people_id: self.people_id,
            people_hash: self.people_hash.deep_view(),
            party_id: self.party_id,
            party: self.party.deep_view(),
            name: self.name.deep_view(),
            first_name: self.first_name.deep_view(),
            middle_name: self.middle_name.deep_view(),
            last_name: self.last_name.deep_view(),
            suffix: self.suffix.deep_view(),
            nickname: self.nickname.deep_view(),
            district: self.district.deep_view(),
            ftm_eid: self.ftm_eid,
            votesmart_id: self.votesmart_id,
            opensecrets_id: self.opensecrets_id.deep_view(),
            knowwho_pid: self.knowwho_pid,
            ballotpedia: self.ballotpedia.deep_view(),
            sponsor_type_id: self.sponsor_type_id,
            sponsor_order: self.sponsor_order,
            commitee_sponsor: self.commitee_sponsor,
            committee_id: self.committee_id,
            state_federal: self.state_federal,
        }
    }
}

/// A JSON value has the shape of the record.
pub open spec fn sponsor_ok(j: JsonView) -> bool {
    &&& j is Obj
    &&& ok_opt_u32(obj_fields(j), "people_id"@)
    &&& ok_opt_string(obj_fields(j), "people_hash"@)
    &&& ok_opt_u32(obj_fields(j), "party_id"@)
    &&& ok_opt_string(obj_fields(j), "party"@)
    &&& ok_opt_string(obj_fields(j), "name"@)
    &&& ok_opt_string(obj_fields(j), "first_name"@)
    &&& ok_opt_string(obj_fields(j), "middle_name"@)
    &&& ok_opt_string(obj_fields(j), "last_name"@)
    &&& ok_opt_string(obj_fields(j), "suffix"@)
    &&& ok_opt_string(obj_fields(j), "nickname"@)
    &&& ok_opt_string(obj_fields(j), "district"@)
    &&& ok_opt_u32(obj_fields(j), "ftm_eid"@)
    &&& ok_opt_u32(obj_fields(j), "votesmart_id"@)
    &&& ok_opt_string(obj_fields(j), "opensecrets_id"@)
    &&& ok_opt_u32(obj_fields(j), "knowwho_pid"@)
    &&& ok_opt_string(obj_fields(j), "ballotpedia"@)
    &&& ok_opt_u32(obj_fields(j), "sponsor_type_id"@)
    &&& ok_opt_u32(obj_fields(j), "sponsor_order"@)
    &&& ok_opt_u32(obj_fields(j), "commitee_sponsor"@)
    &&& ok_opt_u32(obj_fields(j), "committee_id"@)
    &&& ok_opt_u32(obj_fields(j), "state_federal"@)
}

/// The record a JSON value of that shape decodes to.
pub open spec fn sponsor_val(j: JsonView) -> SponsorInnerView {
    SponsorInnerView {
        people_id: val_opt_u32(obj_fields(j), "people_id"@),
        people_hash: val_opt_string(obj_fields(j), "people_hash"@),
        party_id: val_opt_u32(obj_fields(j), "party_id"@),
        party: val_opt_string(obj_fields(j), "party"@),
        name: val_opt_string(obj_fields(j), "name"@),
        first_name: val_opt_string(obj_fields(j), "first_name"@),
        middle_name: val_opt_string(obj_fields(j), "middle_name"@),
        last_name: val_opt_string(obj_fields(j), "last_name"@),
        suffix: val_opt_string(obj_fields(j), "suffix"@),
        nickname: val_opt_string(obj_fields(j), "nickname"@),
        district: val_opt_string(obj_fields(j), "district"@),
        ftm_eid: val_opt_u32(obj_fields(j), "ftm_eid"@),
        votesmart_id: val_opt_u32(obj_fields(j), "votesmart_id"@),
        opensecrets_id: val_opt_string(obj_fields(j), "opensecrets_id"@),
        knowwho_pid: val_opt_u32(obj_fields(j), "knowwho_pid"@),
        ballotpedia: val_opt_string(obj_fields(j), "ballotpedia"@),
        sponsor_type_id: val_opt_u32(obj_fields(j), "sponsor_type_id"@),
        sponsor_order: val_opt_u32(obj_fields(j), "sponsor_order"@),
        commitee_sponsor: val_opt_u32(obj_fields(j), "commitee_sponsor"@),
        committee_id: val_opt_u32(obj_fields(j), "committee_id"@),
        state_federal: val_opt_u32(obj_fields(j), "state_federal"@),
    }
}

/// The diagnostic decoding gives when the value fails the shape: the first
/// offending field in decode order.
pub open spec fn sponsor_diag(j: JsonView) -> Seq<char> {
    if !(j is Obj) {
        not_object_text()
    } else if !ok_opt_u32(obj_fields(j), "people_id"@) {
        field_error_text("people_id"@)
    } else if !ok_opt_string(obj_fields(j), "people_hash"@) {
        field_error_text("people_hash"@)
    } else if !ok_opt_u32(obj_fields(j), "party_id"@) {
        field_error_text("party_id"@)
    } else if !ok_opt_string(obj_fields(j), "party"@) {
        field_error_text("party"@)
    } else if !ok_opt_string(obj_fields(j), "name"@) {
        field_error_text("name"@)
    } else if !ok_opt_string(obj_fields(j), "first_name"@) {
        field_error_text("first_name"@)
    } else if !ok_opt_string(obj_fields(j), "middle_name"@) {
        field_error_text("middle_name"@)
    } else if !ok_opt_string(obj_fields(j), "last_name"@) {
        field_error_text("last_name"@)
    } else if !ok_opt_string(obj_fields(j), "suffix"@) {
        field_error_text("suffix"@)
    } else if !ok_opt_string(obj_fields(j), "nickname"@) {
        field_error_text("nickname"@)
    } else if !ok_opt_string(obj_fields(j), "district"@) {
        field_error_text("district"@)
    } else if !ok_opt_u32(obj_fields(j), "ftm_eid"@) {
        field_error_text("ftm_eid"@)
    } else if !ok_opt_u32(obj_fields(j), "votesmart_id"@) {
        field_error_text("votesmart_id"@)
    } else if !ok_opt_string(obj_fields(j), "opensecrets_id"@) {
        field_error_text("opensecrets_id"@)
    } else if !ok_opt_u32(obj_fields(j), "knowwho_pid"@) {
        field_error_text("knowwho_pid"@)
    } else if !ok_opt_string(obj_fields(j), "ballotpedia"@) {
        field_error_text("ballotpedia"@)
    } else if !ok_opt_u32(obj_fields(j), "sponsor_type_id"@) {
        field_error_text("sponsor_type_id"@)
    } else if !ok_opt_u32(obj_fields(j), "sponsor_order"@) {
        field_error_text("sponsor_order"@)
    } else if !ok_opt_u32(obj_fields(j), "commitee_sponsor"@) {
        field_error_text("commitee_sponsor"@)
    } else if !ok_opt_u32(obj_fields(j), "committee_id"@) {
        field_error_text("committee_id"@)
    } else if !ok_opt_u32(obj_fields(j), "state_federal"@) {
        field_error_text("state_federal"@)
    } else {
        Seq::empty()
    }
}

/// Decodes one record: absent and null fields stay empty, a field of the
/// wrong type is a shape error.
pub fn decode_sponsor(j: &Json) -> (r: Result<SponsorInner, String>)
    ensures
        r matches Ok(v) ==> sponsor_ok(j.deep_view()) && v.deep_view() == sponsor_val(
            j.deep_view(),
        ),
        r matches Err(m) ==> !sponsor_ok(j.deep_view()) && m@ == sponsor_diag(
            j.deep_view(),
        ),
{
    let fields = match j {
        Json::Obj(fields) => fields,
        _ => {
            return Err(not_object_error());
        },
    };
    proof {
        lemma_json_fields_view(fields@);
        assert(json_fields_view(fields@) =~= fields.deep_view());
    }
    let people_id = match get_opt_u32(fields, "people_id") {
        Ok(v) => v,
        Err(m) => {
            return Err(m);
        },
    };
    let people_hash = match get_opt_string(fields, "people_hash") {
        Ok(v) => v,
        Err(m) => {
            return Err(m);
        },
    };
    let party_id = match get_opt_u32(fields, "party_id") {
        Ok(v) => v,
        Err(m) => {
            return Err(m);
        },
    };
    let party = match get_opt_string(fields, "party") {
        Ok(v) => v,
        Err(m) => {
            return Err(m);
        },
    };
    let name = match get_opt_string(fields, "name") {
        Ok(v) => v,
        Err(m) => {
            return Err(m);
        },
    };
    let first_name = match get_opt_string(fields, "first_name") {
        Ok(v) => v,
        Err(m) => {
            return Err(m);
        },
    };
    let middle_name = match get_opt_string(fields, "middle_name") {
        Ok(v) => v,
        Err(m) => {
            return Err(m);
        },
    };
    let last_name = match get_opt_string(fields, "last_name") {
        Ok(v) => v,
        Err(m) => {
            return Err(m);
        },
    };
    let suffix = match get_opt_string(fields, "suffix") {
        Ok(v) => v,
        Err(m) => {
            return Err(m);
        },
    };
    let nickname = match get_opt_string(fields, "nickname") {
        Ok(v) => v,
        Err(m) => {
            return Err(m);
        },
    };
    let district = match get_opt_string(fields, "district") {
        Ok(v) => v,
        Err(m) => {
            return Err(m);
        },
    };
    let ftm_eid = match get_opt_u32(fields, "ftm_eid") {
        Ok(v) => v,
        Err(m) => {
            return Err(m);
        },
    };
    let votesmart_id = match get_opt_u32(fields, "votesmart_id") {
        Ok(v) => v,
        Err(m) => {
            return Err(m);
        },
    };
    let opensecrets_id = match get_opt_string(fields, "opensecrets_id") {
        Ok(v) => v,
        Err(m) => {
            return Err(m);
        },
    };
    let knowwho_pid = match get_opt_u32(fields, "knowwho_pid") {
        Ok(v) => v,
        Err(m) => {
            return Err(m);
        },
    };
    let ballotpedia = match get_opt_string(fields, "ballotpedia") {
        Ok(v) => v,
        Err(m) => {
            return Err(m);
        },
    };
    let sponsor_type_id = match get_opt_u32(fields, "sponsor_type_id") {
        Ok(v) => v,
        Err(m) => {
            return Err(m);
        },
    };
    let sponsor_order = match get_opt_u32(fields, "sponsor_order") {
        Ok(v) => v,
        Err(m) => {
            return Err(m);
        },
    };
    let commitee_sponsor = match get_opt_u32(fields, "commitee_sponsor") {
        Ok(v) => v,
        Err(m) => {
            return Err(m);
        },
    };
    let committee_id = match get_opt_u32(fields, "committee_id") {
        Ok(v) => v,
        Err(m) => {
            return Err(m);
        },
    };
    let state_federal = match get_opt_u32(fields, "state_federal") {
        Ok(v) => v,
        Err(m) => {
            return Err(m);
        },
    };
    Ok(SponsorInner {
        people_id,
        people_hash,
        party_id,
        party,
        name,
        first_name,
        middle_name,
        last_name,
        suffix,
        nickname,
        district,
        ftm_eid,
        votesmart_id,
        opensecrets_id,
        knowwho_pid,
        ballotpedia,
        sponsor_type_id,
        sponsor_order,
        commitee_sponsor,
        committee_id,
        state_federal,
    })
}

/// Every element decodes as the record.
pub open spec fn sponsors_ok(items: Seq<JsonView>) -> bool {
    forall|i: int| 0 <= i < items.len() ==> sponsor_ok(#[trigger] items[i])
}

/// The records a sequence of JSON values decodes to.
pub open spec fn sponsors_val(items: Seq<JsonView>) -> Seq<SponsorInnerView> {
    Seq::new(items.len(), |i: int| sponsor_val(items[i]))
}

/// The diagnostic of a failing sequence: that of its first offending
/// element.
pub open spec fn sponsors_diag(items: Seq<JsonView>) -> Seq<char>
    decreases items.len(),
{
    if items.len() == 0 {
        Seq::empty()
    } else if !sponsor_ok(items[0]) {
        sponsor_diag(items[0])
    } else {
        sponsors_diag(items.drop_first())
    }
}

/// Skipping well-shaped elements does not change which element the
/// diagnostic speaks of.
proof fn lemma_sponsors_diag(items: Seq<JsonView>, i: int)
    requires
        0 <= i < items.len(),
        forall|k: int| 0 <= k < i ==> sponsor_ok(#[trigger] items[k]),
        !sponsor_ok(items[i]),
    ensures
        sponsors_diag(items) == sponsor_diag(items[i]),
    decreases i,
{
    if i > 0 {
        assert forall|k: int| 0 <= k < i - 1 implies sponsor_ok(#[trigger] items.drop_first()[k]) by {
            assert(items.drop_first()[k] == items[k + 1]);
        }
        assert(items.drop_first()[i - 1] == items[i]);
        lemma_sponsors_diag(items.drop_first(), i - 1);
    }
}

/// Decodes a required array of sponsor records element by element.
#[verifier::loop_isolation(false)]
pub fn decode_sponsors(items: &Vec<Json>) -> (r: Result<Vec<SponsorInner>, String>)
    ensures
        r matches Ok(v) ==> sponsors_ok(items.deep_view()) && v.deep_view() == sponsors_val(
            items.deep_view(),
        ),
        r matches Err(m) ==> !sponsors_ok(items.deep_view()) && m@ == sponsors_diag(
            items.deep_view(),
        ),
{
    let ghost iv = items.deep_view();
    let mut out: Vec<SponsorInner> = Vec::new();
    let mut i: usize = 0;
    while i < items.len()
        invariant
            0 <= i <= items.len(),
            out.len() == i,
            forall|k: int| 0 <= k < i ==> sponsor_ok(#[trigger] iv[k]),
            forall|k: int| 0 <= k < i ==> out.deep_view()[k] == sponsor_val(iv[k]),
        decreases items.len() - i,
    {
        match decode_sponsor(&items[i]) {
            Ok(v) => {
                let ghost prev = out.deep_view();
                out.push(v);
                proof {
                    assert(forall|k: int|
                        0 <= k < i ==> #[trigger] out.deep_view()[k] == prev[k]);
                    assert(iv[i as int] == items@[i as int].deep_view());
                    assert(out.deep_view()[i as int] == sponsor_val(iv[i as int]));
                }
            },
            Err(m) => {
                proof {
                    assert(iv[i as int] == items@[i as int].deep_view());
                    assert(!sponsors_ok(iv));
                    lemma_sponsors_diag(iv, i as int);
                }
                return Err(m);
            },
        }
        i += 1;
    }
    proof {
        assert(out.deep_view() =~= sponsors_val(iv));
    }
    Ok(out)
}

/// An optional sponsor-list field is absent, null, or an array of sponsor records.
pub open spec fn ok_opt_sponsors(fields: Seq<(Seq<char>, JsonView)>, key: Seq<char>) -> bool {
    match lookup_field(fields, key) {
        None => true,
        Some(JsonView::Null) => true,
        Some(JsonView::Arr(items)) => sponsors_ok(items),
        Some(_) => false,
    }
}

/// The diagnostic an optional sponsor-list field gives when it fails the
/// shape.
pub open spec fn opt_sponsors_diag(fields: Seq<(Seq<char>, JsonView)>, key: Seq<char>) -> Seq<
    char,
> {
    match lookup_field(fields, key) {
        Some(JsonView::Arr(items)) => sponsors_diag(items),
        _ => field_error_text(key),
    }
}

/// The records an optional sponsor-list field holds, if any.
pub open spec fn val_opt_sponsors(fields: Seq<(Seq<char>, JsonView)>, key: Seq<char>) -> Option<
    Seq<SponsorInnerView>,
> {
    match lookup_field(fields, key) {
        Some(JsonView::Arr(items)) => Some(sponsors_val(items)),
        _ => None,
    }
}

/// Reads an optional array of sponsor records out of an object.
pub fn get_opt_sponsors(fields: &Vec<(String, Json)>, key: &str) -> (r: Result<
    Option<Vec<SponsorInner>>,
    String,
>)
    ensures
        r matches Ok(v) ==> ok_opt_sponsors(fields.deep_view(), key@) && v.deep_view()
            == val_opt_sponsors(fields.deep_view(), key@),
        r matches Err(m) ==> !ok_opt_sponsors(fields.deep_view(), key@) && m@
            == opt_sponsors_diag(fields.deep_view(), key@),
{
    match get_opt_arr(fields, key) {
        Ok(None) => Ok(None),
        Ok(Some(items)) => match decode_sponsors(items) {
            Ok(v) => Ok(Some(v)),
            Err(m) => Err(m),
        },
        Err(m) => Err(m),
    }
}

/// One text document attached to a bill. Every field is optional.
#[derive(Debug, PartialEq)]
pub struct TextInner {
    pub doc_id: Option<u32>,
    pub date: Option<String>,
    pub doc_type: Option<String>,
    pub type_id: Option<u32>,
    pub mime: Option<String>,
    pub mime_id: Option<u32>,
    pub url: Option<String>,
    pub state_link: Option<String>,
    pub text_size: Option<u32>,
    pub text_hash: Option<String>,
    pub alt_bill_text: Option<String>,
    pub alt_mime: Option<String>,
    pub alt_mime_id: Option<u32>,
    pub alt_state_link: Option<String>,
    pub alt_text_size: Option<u32>,
    pub alt_text_hash: Option<String>,
}

/// The model of a `TextInner`.
pub struct TextInnerView {
    pub doc_id: Option<u32>,
    pub date: Option<Seq<char>>,
    pub doc_type: Option<Seq<char>>,
    pub type_id: Option<u32>,
    pub mime: Option<Seq<char>>,
    pub mime_id: Option<u32>,
    pub url: Option<Seq<char>>,
    pub state_link: Option<Seq<char>>,
    pub text_size: Option<u32>,
    pub text_hash: Option<Seq<char>>,
    pub alt_bill_text: Option<Seq<char>>,
    pub alt_mime: Option<Seq<char>>,
    pub alt_mime_id: Option<u32>,
    pub alt_state_link: Option<Seq<char>>,
    pub alt_text_size: Option<u32>,
    pub alt_text_hash: Option<Seq<char>>,
}

impl DeepView for TextInner {
    type V = TextInnerView;

    open spec fn deep_view(&self) -> TextInnerView {
        TextInnerView {
            doc_id: self.doc_id,
            date: self.date.deep_view(),
            doc_type: self.doc_type.deep_view(),
            type_id: self.type_id,
            mime: self.mime.deep_view(),
            mime_id: self.mime_id,
            url: self.url.deep_view(),
            state_link: self.state_link.deep_view(),
            text_size: self.text_size,
            text_hash: self.text_hash.deep_view(),
            alt_bill_text: self.alt_bill_text.deep_view(),
            alt_mime: self.alt_mime.deep_view(),
            alt_mime_id: self.alt_mime_id,
            alt_state_link: self.alt_state_link.deep_view(),
            alt_text_size: self.alt_text_size,
            alt_text_hash: self.alt_text_hash.deep_view(),
        }
    }
}

/// A JSON value has the shape of the record.
pub open spec fn text_entry_ok(j: JsonView) -> bool {
    &&& j is Obj
    &&& ok_opt_u32(obj_fields(j), "doc_id"@)
    &&& ok_opt_string(obj_fields(j), "date"@)
    &&& ok_opt_string(obj_fields(j), "type"@)
    &&& ok_opt_u32(obj_fields(j), "type_id"@)
    &&& ok_opt_string(obj_fields(j), "mime"@)
    &&& ok_opt_u32(obj_fields(j), "mime_id"@)
    &&& ok_opt_string(obj_fields(j), "url"@)
    &&& ok_opt_string(obj_fields(j), "state_link"@)
    &&& ok_opt_u32(obj_fields(j), "text_size"@)
    &&& ok_opt_string(obj_fields(j), "text_hash"@)
    &&& ok_opt_string(obj_fields(j), "alt_bill_text"@)
    &&& ok_opt_string(obj_fields(j), "alt_mime"@)
    &&& ok_opt_u32(obj_fields(j), "alt_mime_id"@)
    &&& ok_opt_string(obj_fields(j), "alt_state_link"@)
    &&& ok_opt_u32(obj_fields(j), "alt_text_size"@)
    &&& ok_opt_string(obj_fields(j), "alt_text_hash"@)
}

/// The record a JSON value of that shape decodes to.
pub open spec fn text_entry_val(j: JsonView) -> TextInnerView {
    TextInnerView {
        doc_id: val_opt_u32(obj_fields(j), "doc_id"@),
        date: val_opt_string(obj_fields(j), "date"@),
        doc_type: val_opt_string(obj_fields(j), "type"@),
        type_id: val_opt_u32(obj_fields(j), "type_id"@),
        mime: val_opt_string(obj_fields(j), "mime"@),
        mime_id: val_opt_u32(obj_fields(j), "mime_id"@),
        url: val_opt_string(obj_fields(j), "url"@),
        state_link: val_opt_string(obj_fields(j), "state_link"@),
        text_size: val_opt_u32(obj_fields(j), "text_size"@),
        text_hash: val_opt_string(obj_fields(j), "text_hash"@),
        alt_bill_text: val_opt_string(obj_fields(j), "alt_bill_text"@),
        alt_mime: val_opt_string(obj_fields(j), "alt_mime"@),
        alt_mime_id: val_opt_u32(obj_fields(j), "alt_mime_id"@),
        alt_state_link: val_opt_string(obj_fields(j), "alt_state_link"@),
        alt_text_size: val_opt_u32(obj_fields(j), "alt_text_size"@),
        alt_text_hash: val_opt_string(obj_fields(j), "alt_text_hash"@),
    }
}

/// The diagnostic decoding gives when the value fails the shape: the first
/// offending field in decode order.
pub open spec fn text_entry_diag(j: JsonView) -> Seq<char> {
    if !(j is Obj) {
        not_object_text()
    } else if !ok_opt_u32(obj_fields(j), "doc_id"@) {
        field_error_text("doc_id"@)
    } else if !ok_opt_string(obj_fields(j), "date"@) {
        field_error_text("date"@)
    } else if !ok_opt_string(obj_fields(j), "type"@) {
        field_error_text("type"@)
    } else if !ok_opt_u32(obj_fields(j), "type_id"@) {
        field_error_text("type_id"@)
    } else if !ok_opt_string(obj_fields(j), "mime"@) {
        field_error_text("mime"@)
    } else if !ok_opt_u32(obj_fields(j), "mime_id"@) {
        field_error_text("mime_id"@)
    } else if !ok_opt_string(obj_fields(j), "url"@) {
        field_error_text("url"@)
    } else if !ok_opt_string(obj_fields(j), "state_link"@) {
        field_error_text("state_link"@)
    } else if !ok_opt_u32(obj_fields(j), "text_size"@) {
        field_error_text("text_size"@)
    } else if !ok_opt_string(obj_fields(j), "text_hash"@) {
        field_error_text("text_hash"@)
    } else if !ok_opt_string(obj_fields(j), "alt_bill_text"@) {
        field_error_text("alt_bill_text"@)
    } else if !ok_opt_string(obj_fields(j), "alt_mime"@) {
        field_error_text("alt_mime"@)
    } else if !ok_opt_u32(obj_fields(j), "alt_mime_id"@) {
        field_error_text("alt_mime_id"@)
    } else if !ok_opt_string(obj_fields(j), "alt_state_link"@) {
        field_error_text("alt_state_link"@)
    } else if !ok_opt_u32(obj_fields(j), "alt_text_size"@) {
        field_error_text("alt_text_size"@)
    } else if !ok_opt_string(obj_fields(j), "alt_text_hash"@) {
        field_error_text("alt_text_hash"@)
    } else {
        Seq::empty()
    }
}

/// Decodes one record: absent and null fields stay empty, a field of the
/// wrong type is a shape error.
pub fn decode_text_entry(j: &Json) -> (r: Result<TextInner, String>)
    ensures
        r matches Ok(v) ==> text_entry_ok(j.deep_view()) && v.deep_view() == text_entry_val(
            j.deep_view(),
        ),
        r matches Err(m) ==> !text_entry_ok(j.deep_view()) && m@ == text_entry_diag(
            j.deep_view(),
        ),
{
    let fields = match j {
        Json::Obj(fields) => fields,
        _ => {
            return Err(not_object_error());
        },
    };
    proof {
        lemma_json_fields_view(fields@);
        assert(json_fields_view(fields@) =~= fields.deep_view());
    }
    let doc_id = match get_opt_u32(fields, "doc_id") {
        Ok(v) => v,
        Err(m) => {
            return Err(m);
        },
    };
    let date = match get_opt_string(fields, "date") {
        Ok(v) => v,
        Err(m) => {
            return Err(m);
        },
    };
    let doc_type = match get_opt_string(fields, "type") {
        Ok(v) => v,
        Err(m) => {
            return Err(m);
        },
    };
    let type_id = match get_opt_u32(fields, "type_id") {
        Ok(v) => v,
        Err(m) => {
            return Err(m);
        },
    };
    let mime = match get_opt_string(fields, "mime") {
        Ok(v) => v,
        Err(m) => {
            return Err(m);
        },
    };
    let mime_id = match get_opt_u32(fields, "mime_id") {
        Ok(v) => v,
        Err(m) => {
            return Err(m);
        },
    };
    let url = match get_opt_string(fields, "url") {
        Ok(v) => v,
        Err(m) => {
            return Err(m);
        },
    };
    let state_link = match get_opt_string(fields, "state_link") {
        Ok(v) => v,
        Err(m) => {
            return Err(m);
        },
    };
    let text_size = match get_opt_u32(fields, "text_size") {
        Ok(v) => v,
        Err(m) => {
            return Err(m);
        },
    };
    let text_hash = match get_opt_string(fields, "text_hash") {
        Ok(v) => v,
        Err(m) => {
            return Err(m);
        },
    };
    let alt_bill_text = match get_opt_string(fields, "alt_bill_text") {
        Ok(v) => v,
        Err(m) => {
            return Err(m);
        },
    };
    let alt_mime = match get_opt_string(fields, "alt_mime") {
        Ok(v) => v,
        Err(m) => {
            return Err(m);
        },
    };
    let alt_mime_id = match get_opt_u32(fields, "alt_mime_id") {
        Ok(v) => v,
        Err(m) => {
            return Err(m);
        },
    };
    let alt_state_link = match get_opt_string(fields, "alt_state_link") {
        Ok(v) => v,
        Err(m) => {
            return Err(m);
        },
    };
    let alt_text_size = match get_opt_u32(fields, "alt_text_size") {
        Ok(v) => v,
        Err(m) => {
            return Err(m);
        },
    };
    let alt_text_hash = match get_opt_string(fields, "alt_text_hash") {
        Ok(v) => v,
        Err(m) => {
            return Err(m);
        },
    };
    Ok(TextInner {
        doc_id,
        date,
        doc_type,
        type_id,
        mime,
        mime_id,
        url,
        state_link,
        text_size,
        text_hash,
        alt_bill_text,
        alt_mime,
        alt_mime_id,
        alt_state_link,
        alt_text_size,
        alt_text_hash,
    })
}

/// Every element decodes as the record.
pub open spec fn text_entries_ok(items: Seq<JsonView>) -> bool {
    forall|i: int| 0 <= i < items.len() ==> text_entry_ok(#[trigger] items[i])
}

/// The records a sequence of JSON values decodes to.
pub open spec fn text_entries_val(items: Seq<JsonView>) -> Seq<TextInnerView> {
    Seq::new(items.len(), |i: int| text_entry_val(items[i]))
}

/// The diagnostic of a failing sequence: that of its first offending
/// element.
pub open spec fn text_entries_diag(items: Seq<JsonView>) -> Seq<char>
    decreases items.len(),
{
    if items.len() == 0 {
        Seq::empty()
    } else if !text_entry_ok(items[0]) {
        text_entry_diag(items[0])
    } else {
        text_entries_diag(items.drop_first())
    }
}

/// Skipping well-shaped elements does not change which element the
/// diagnostic speaks of.
proof fn lemma_text_entries_diag(items: Seq<JsonView>, i: int)
    requires
        0 <= i < items.len(),
        forall|k: int| 0 <= k < i ==> text_entry_ok(#[trigger] items[k]),
        !text_entry_ok(items[i]),
    ensures
        text_entries_diag(items) == text_entry_diag(items[i]),
    decreases i,
{
    if i > 0 {
        assert forall|k: int| 0 <= k < i - 1 implies text_entry_ok(#[trigger] items.drop_first()[k]) by {
            assert(items.drop_first()[k] == items[k + 1]);
        }
        assert(items.drop_first()[i - 1] == items[i]);
        lemma_text_entries_diag(items.drop_first(), i - 1);
    }
}

/// Decodes a required array of text document records element by element.
#[verifier::loop_isolation(false)]
pub fn decode_text_entries(items: &Vec<Json>) -> (r: Result<Vec<TextInner>, String>)
    ensures
        r matches Ok(v) ==> text_entries_ok(items.deep_view()) && v.deep_view() == text_entries_val(
            items.deep_view(),
        ),
        r matches Err(m) ==> !text_entries_ok(items.deep_view()) && m@ == text_entries_diag(
            items.deep_view(),
        ),
{
    let ghost iv = items.deep_view();
    let mut out: Vec<TextInner> = Vec::new();
    let mut i: usize = 0;
    while i < items.len()
        invariant
            0 <= i <= items.len(),
            out.len() == i,
            forall|k: int| 0 <= k < i ==> text_entry_ok(#[trigger] iv[k]),
            forall|k: int| 0 <= k < i ==> out.deep_view()[k] == text_entry_val(iv[k]),
        decreases items.len() - i,
    {
        match decode_text_entry(&items[i]) {
            Ok(v) => {
                let ghost prev = out.deep_view();
                out.push(v);
                proof {
                    assert(forall|k: int|
                        0 <= k < i ==> #[trigger] out.deep_view()[k] == prev[k]);
                    assert(iv[i as int] == items@[i as int].deep_view());
                    assert(out.deep_view()[i as int] == text_entry_val(iv[i as int]));
                }
            },
            Err(m) => {
                proof {
                    assert(iv[i as int] == items@[i as int].deep_view());
                    assert(!text_entries_ok(iv));
                    lemma_text_entries_diag(iv, i as int);
                }
                return Err(m);
            },
        }
        i += 1;
    }
    proof {
        assert(out.deep_view() =~= text_entries_val(iv));
    }
    Ok(out)
}

/// An optional text document-list field is absent, null, or an array of text document records.
pub open spec fn ok_opt_text_entries(fields: Seq<(Seq<char>, JsonView)>, key: Seq<char>) -> bool {
    match lookup_field(fields, key) {
        None => true,
        Some(JsonView::Null) => true,
        Some(JsonView::Arr(items)) => text_entries_ok(items),
        Some(_) => false,
    }
}

/// The diagnostic an optional text document-list field gives when it fails the
/// shape.
pub open spec fn opt_text_entries_diag(fields: Seq<(Seq<char>, JsonView)>, key: Seq<char>) -> Seq<
    char,
> {
    match lookup_field(fields, key) {
        Some(JsonView::Arr(items)) => text_entries_diag(items),
        _ => field_error_text(key),
    }
}

/// The records an optional text document-list field holds, if any.
pub open spec fn val_opt_text_entries(fields: Seq<(Seq<char>, JsonView)>, key: Seq<char>) -> Option<
    Seq<TextInnerView>,
> {
    match lookup_field(fields, key) {
        Some(JsonView::Arr(items)) => Some(text_entries_val(items)),
        _ => None,
    }
}

/// Reads an optional array of text document records out of an object.
pub fn get_opt_text_entries(fields: &Vec<(String, Json)>, key: &str) -> (r: Result<
    Option<Vec<TextInner>>,
    String,
>)
    ensures
        r matches Ok(v) ==> ok_opt_text_entries(fields.deep_view(), key@) && v.deep_view()
            == val_opt_text_entries(fields.deep_view(), key@),
        r matches Err(m) ==> !ok_opt_text_entries(fields.deep_view(), key@) && m@
            == opt_text_entries_diag(fields.deep_view(), key@),
{
    match get_opt_arr(fields, key) {
        Ok(None) => Ok(None),
        Ok(Some(items)) => match decode_text_entries(items) {
            Ok(v) => Ok(Some(v)),
            Err(m) => Err(m),
        },
        Err(m) => Err(m),
    }
}

/// The identity block inside a bill response. Every field is optional.
#[derive(Debug, PartialEq)]
pub struct BillInner {
    pub bill_id: Option<u32>,
    pub change_hash: Option<String>,
    pub session_id: Option<u32>,
    pub session: Option<SessionSummary>,
}

/// The model of a `BillInner`.
pub struct BillInnerView {
    pub bill_id: Option<u32>,
    pub change_hash: Option<Seq<char>>,
    pub session_id: Option<u32>,
    pub session: Option<SessionSummaryView>,
}

impl DeepView for BillInner {
    type V = BillInnerView;

    open spec fn deep_view(&self) -> BillInnerView {
        BillInnerView {
            bill_id: self.bill_id,
            change_hash: self.change_hash.deep_view(),
            session_id: self.session_id,
            session: self.session.deep_view(),
        }
    }
}

/// A JSON value has the shape of the record.
pub open spec fn bill_inner_ok(j: JsonView) -> bool {
    &&& j is Obj
    &&& ok_opt_u32(obj_fields(j), "bill_id"@)
    &&& ok_opt_string(obj_fields(j), "change_hash"@)
    &&& ok_opt_u32(obj_fields(j), "session_id"@)
    &&& ok_opt_session_summary(obj_fields(j), "session"@)
}

/// The record a JSON value of that shape decodes to.
pub open spec fn bill_inner_val(j: JsonView) -> BillInnerView {
    BillInnerView {
        bill_id: val_opt_u32(obj_fields(j), "bill_id"@),
        change_hash: val_opt_string(obj_fields(j), "change_hash"@),
        session_id: val_opt_u32(obj_fields(j), "session_id"@),
        session: val_opt_session_summary(obj_fields(j), "session"@),
    }
}

/// The diagnostic decoding gives when the value fails the shape: the first
/// offending field in decode order.
pub open spec fn bill_inner_diag(j: JsonView) -> Seq<char> {
    if !(j is Obj) {
        not_object_text()
    } else if !ok_opt_u32(obj_fields(j), "bill_id"@) {
        field_error_text("bill_id"@)
    } else if !ok_opt_string(obj_fields(j), "change_hash"@) {
        field_error_text("change_hash"@)
    } else if !ok_opt_u32(obj_fields(j), "session_id"@) {
        field_error_text("session_id"@)
    } else if !ok_opt_session_summary(obj_fields(j), "session"@) {
        opt_session_summary_diag(obj_fields(j), "session"@)
    } else {
        Seq::empty()
    }
}

/// Decodes one record: absent and null fields stay empty, a field of the
/// wrong type is a shape error.
pub fn decode_bill_inner(j: &Json) -> (r: Result<BillInner, String>)
    ensures
        r matches Ok(v) ==> bill_inner_ok(j.deep_view()) && v.deep_view() == bill_inner_val(
            j.deep_view(),
        ),
        r matches Err(m) ==> !bill_inner_ok(j.deep_view()) && m@ == bill_inner_diag(
            j.deep_view(),
        ),
{
    let fields = match j {
        Json::Obj(fields) => fields,
        _ => {
            return Err(not_object_error());
        },
    };
    proof {
        lemma_json_fields_view(fields@);
        assert(json_fields_view(fields@) =~= fields.deep_view());
    }
    let bill_id = match get_opt_u32(fields, "bill_id") {
        Ok(v) => v,
        Err(m) => {
            return Err(m);
        },
    };
    let change_hash = match get_opt_string(fields, "change_hash") {
        Ok(v) => v,
        Err(m) => {
            return Err(m);
        },
    };
    let session_id = match get_opt_u32(fields, "session_id") {
        Ok(v) => v,
        Err(m) => {
            return Err(m);
        },
    };
    let session = match get_field(fields, "session") {
        None => None,
        Some(Json::Null) => None,
        Some(sub) => match decode_session_summary(sub) {
            Ok(v) => Some(v),
            Err(m) => {
                return Err(m);
            },
        },
    };
    Ok(BillInner {
        bill_id,
        change_hash,
        session_id,
        session,
    })
}

/// An optional bill identity field is absent, null, or bill identity-shaped.
pub open spec fn ok_opt_bill_inner(fields: Seq<(Seq<char>, JsonView)>, key: Seq<char>) -> bool {
    match lookup_field(fields, key) {
        None => true,
        Some(JsonView::Null) => true,
        Some(sub) => bill_inner_ok(sub),
    }
}

/// The diagnostic an optional bill identity field gives when its record fails
/// the shape.
pub open spec fn opt_bill_inner_diag(fields: Seq<(Seq<char>, JsonView)>, key: Seq<char>) -> Seq<
    char,
> {
    match lookup_field(fields, key) {
        Some(sub) => bill_inner_diag(sub),
        None => Seq::empty(),
    }
}

/// The record an optional bill identity field holds, if any.
pub open spec fn val_opt_bill_inner(fields: Seq<(Seq<char>, JsonView)>, key: Seq<char>) -> Option<
    BillInnerView,
> {
    match lookup_field(fields, key) {
        None => None,
        Some(JsonView::Null) => None,
        Some(sub) => Some(bill_inner_val(sub)),
    }
}

/// A full bill detail response. Every field is optional.
#[derive(Debug, PartialEq)]
pub struct Bill {
    pub status: Option<String>,
    pub bill: Option<BillInner>,
    pub url: Option<String>,
    pub state_link: Option<String>,
    pub completed: Option<u32>,
    pub status_code: Option<u32>,
    pub status_date: Option<String>,
    pub progress: Option<Vec<ProgressDatesInner>>,
    pub state: Option<String>,
    pub state_id: Option<u32>,
    pub bill_number: Option<String>,
    pub bill_type: Option<String>,
    pub bill_type_id: Option<u32>,
    pub body: Option<String>,
    pub body_id: Option<u32>,
    pub current_body: Option<String>,
    pub current_body_id: Option<u32>,
    pub title: Option<String>,
    pub description: Option<String>,
    pub pending_committee_id: Option<u32>,
    pub committee: Option<Vec<String>>,
    pub referrals: Option<Vec<String>>,
    pub history: Option<Vec<HistoryInner>>,
    pub sponsors: Option<Vec<SponsorInner>>,
    pub sasts: Option<Vec<String>>,
    pub subjects: Option<Vec<String>>,
    pub texts: Option<Vec<TextInner>>,
    pub votes: Option<Vec<String>>,
    pub amendments: Option<Vec<String>>,
    pub supplements: Option<Vec<String>>,
    pub calendar: Option<Vec<String>>,
}

/// The model of a `Bill`.
pub struct BillView {
    pub status: Option<Seq<char>>,
    pub bill: Option<BillInnerView>,
    pub url: Option<Seq<char>>,
    pub state_link: Option<Seq<char>>,
    pub completed: Option<u32>,
    pub status_code: Option<u32>,
    pub status_date: Option<Seq<char>>,
    pub progress: Option<Seq<ProgressDatesInnerView>>,
    pub state: Option<Seq<char>>,
    pub state_id: Option<u32>,
    pub bill_number: Option<Seq<char>>,
    pub bill_type: Option<Seq<char>>,
    pub bill_type_id: Option<u32>,
    pub body: Option<Seq<char>>,
    pub body_id: Option<u32>,
    pub current_body: Option<Seq<char>>,
    pub current_body_id: Option<u32>,
    pub title: Option<Seq<char>>,
    pub description: Option<Seq<char>>,
    pub pending_committee_id: Option<u32>,
    pub committee: Option<Seq<Seq<char>>>,
    pub referrals: Option<Seq<Seq<char>>>,
    pub history: Option<Seq<HistoryInnerView>>,
    pub sponsors: Option<Seq<SponsorInnerView>>,
    pub sasts: Option<Seq<Seq<char>>>,
    pub subjects: Option<Seq<Seq<char>>>,
    pub texts: Option<Seq<TextInnerView>>,
    pub votes: Option<Seq<Seq<char>>>,
    pub amendments: Option<Seq<Seq<char>>>,
    pub supplements: Option<Seq<Seq<char>>>,
    pub calendar: Option<Seq<Seq<char>>>,
}

impl DeepView for Bill {
    type V = BillView;

    open spec fn deep_view(&self) -> BillView {
        BillView {
            status: self.status.deep_view(),
            bill: self.bill.deep_view(),
            url: self.url.deep_view(),
            state_link: self.state_link.deep_view(),
            completed: self.completed,
            status_code: self.status_code,
            status_date: self.status_date.deep_view(),
            progress: self.progress.deep_view(),
            state: self.state.deep_view(),
            state_id: self.state_id,
            bill_number: self.bill_number.deep_view(),
            bill_type: self.bill_type.deep_view(),
            bill_type_id: self.bill_type_id,
            body: self.body.deep_view(),
            body_id: self.body_id,
            current_body: self.current_body.deep_view(),
            current_body_id: self.current_body_id,
            title: self.title.deep_view(),
            description: self.description.deep_view(),
            pending_committee_id: self.pending_committee_id,
            committee: self.committee.deep_view(),
            referrals: self.referrals.deep_view(),
            history: self.history.deep_view(),
            sponsors: self.sponsors.deep_view(),
            sasts: self.sasts.deep_view(),
            subjects: self.subjects.deep_view(),
            texts: self.texts.deep_view(),
            votes: self.votes.deep_view(),
            amendments: self.amendments.deep_view(),
            supplements: self.supplements.deep_view(),
            calendar: self.calendar.deep_view(),
        }
    }
}

/// A JSON value has the shape of the record.
pub open spec fn bill_ok(j: JsonView) -> bool {
    &&& j is Obj
    &&& ok_opt_string(obj_fields(j), "status"@)
    &&& ok_opt_bill_inner(obj_fields(j), "bill"@)
    &&& ok_opt_string(obj_fields(j), "url"@)
    &&& ok_opt_string(obj_fields(j), "state_link"@)
    &&& ok_opt_u32(obj_fields(j), "completed"@)
    &&& ok_opt_u32(obj_fields(j), "status_code"@)
    &&& ok_opt_string(obj_fields(j), "status_date"@)
    &&& ok_opt_progress_dates(obj_fields(j), "progress"@)
    &&& ok_opt_string(obj_fields(j), "state"@)
    &&& ok_opt_u32(obj_fields(j), "state_id"@)
    &&& ok_opt_string(obj_fields(j), "bill_number"@)
    &&& ok_opt_string(obj_fields(j), "bill_type"@)
    &&& ok_opt_u32(obj_fields(j), "bill_type_id"@)
    &&& ok_opt_string(obj_fields(j), "body"@)
    &&& ok_opt_u32(obj_fields(j), "body_id"@)
    &&& ok_opt_string(obj_fields(j), "current_body"@)
    &&& ok_opt_u32(obj_fields(j), "current_body_id"@)
    &&& ok_opt_string(obj_fields(j), "title"@)
    &&& ok_opt_string(obj_fields(j), "description"@)
    &&& ok_opt_u32(obj_fields(j), "pending_committee_id"@)
    &&& ok_opt_str_arr(obj_fields(j), "committee"@)
    &&& ok_opt_str_arr(obj_fields(j), "referrals"@)
    &&& ok_opt_history_entries(obj_fields(j), "history"@)
    &&& ok_opt_sponsors(obj_fields(j), "sponsors"@)
    &&& ok_opt_str_arr(obj_fields(j), "sasts"@)
    &&& ok_opt_str_arr(obj_fields(j), "subjects"@)
    &&& ok_opt_text_entries(obj_fields(j), "texts"@)
    &&& ok_opt_str_arr(obj_fields(j), "votes"@)
    &&& ok_opt_str_arr(obj_fields(j), "amendments"@)
    &&& ok_opt_str_arr(obj_fields(j), "supplements"@)
    &&& ok_opt_str_arr(obj_fields(j), "calendar"@)
}

/// The record a JSON value of that shape decodes to.
pub open spec fn bill_val(j: JsonView) -> BillView {
    BillView {
        status: val_opt_string(obj_fields(j), "status"@),
        bill: val_opt_bill_inner(obj_fields(j), "bill"@),
        url: val_opt_string(obj_fields(j), "url"@),
        state_link: val_opt_string(obj_fields(j), "state_link"@),
        completed: val_opt_u32(obj_fields(j), "completed"@),
        status_code: val_opt_u32(obj_fields(j), "status_code"@),
        status_date: val_opt_string(obj_fields(j), "status_date"@),
        progress: val_opt_progress_dates(obj_fields(j), "progress"@),
        state: val_opt_string(obj_fields(j), "state"@),
        state_id: val_opt_u32(obj_fields(j), "state_id"@),
        bill_number: val_opt_string(obj_fields(j), "bill_number"@),
        bill_type: val_opt_string(obj_fields(j), "bill_type"@),
        bill_type_id: val_opt_u32(obj_fields(j), "bill_type_id"@),
        body: val_opt_string(obj_fields(j), "body"@),
        body_id: val_opt_u32(obj_fields(j), "body_id"@),
        current_body: val_opt_string(obj_fields(j), "current_body"@),
        current_body_id: val_opt_u32(obj_fields(j), "current_body_id"@),
        title: val_opt_string(obj_fields(j), "title"@),
        description: val_opt_string(obj_fields(j), "description"@),
        pending_committee_id: val_opt_u32(obj_fields(j), "pending_committee_id"@),
        committee: val_opt_str_arr(obj_fields(j), "committee"@),
        referrals: val_opt_str_arr(obj_fields(j), "referrals"@),
        history: val_opt_history_entries(obj_fields(j), "history"@),
        sponsors: val_opt_sponsors(obj_fields(j), "sponsors"@),
        sasts: val_opt_str_arr(obj_fields(j), "sasts"@),
        subjects: val_opt_str_arr(obj_fields(j), "subjects"@),
        texts: val_opt_text_entries(obj_fields(j), "texts"@),
        votes: val_opt_str_arr(obj_fields(j), "votes"@),
        amendments: val_opt_str_arr(obj_fields(j), "amendments"@),
        supplements: val_opt_str_arr(obj_fields(j), "supplements"@),
        calendar: val_opt_str_arr(obj_fields(j), "calendar"@),
    }
}

/// The diagnostic decoding gives when the value fails the shape: the first
/// offending field in decode order.
pub open spec fn bill_diag(j: JsonView) -> Seq<char> {
    if !(j is Obj) {
        not_object_text()
    } else if !ok_opt_string(obj_fields(j), "status"@) {
        field_error_text("status"@)
    } else if !ok_opt_bill_inner(obj_fields(j), "bill"@) {
        opt_bill_inner_diag(obj_fields(j), "bill"@)
    } else if !ok_opt_string(obj_fields(j), "url"@) {
        field_error_text("url"@)
    } else if !ok_opt_string(obj_fields(j), "state_link"@) {
        field_error_text("state_link"@)
    } else if !ok_opt_u32(obj_fields(j), "completed"@) {
        field_error_text("completed"@)
    } else if !ok_opt_u32(obj_fields(j), "status_code"@) {
        field_error_text("status_code"@)
    } else if !ok_opt_string(obj_fields(j), "status_date"@) {
        field_error_text("status_date"@)
    } else if !ok_opt_progress_dates(obj_fields(j), "progress"@) {
        opt_progress_dates_diag(obj_fields(j), "progress"@)
    } else if !ok_opt_string(obj_fields(j), "state"@) {
        field_error_text("state"@)
    } else if !ok_opt_u32(obj_fields(j), "state_id"@) {
        field_error_text("state_id"@)
    } else if !ok_opt_string(obj_fields(j), "bill_number"@) {
        field_error_text("bill_number"@)
    } else if !ok_opt_string(obj_fields(j), "bill_type"@) {
        field_error_text("bill_type"@)
    } else if !ok_opt_u32(obj_fields(j), "bill_type_id"@) {
        field_error_text("bill_type_id"@)
    } else if !ok_opt_string(obj_fields(j), "body"@) {
        field_error_text("body"@)
    } else if !ok_opt_u32(obj_fields(j), "body_id"@) {
        field_error_text("body_id"@)
    } else if !ok_opt_string(obj_fields(j), "current_body"@) {
        field_error_text("current_body"@)
    } else if !ok_opt_u32(obj_fields(j), "current_body_id"@) {
        field_error_text("current_body_id"@)
    } else if !ok_opt_string(obj_fields(j), "title"@) {
        field_error_text("title"@)
    } else if !ok_opt_string(obj_fields(j), "description"@) {
        field_error_text("description"@)
    } else if !ok_opt_u32(obj_fields(j), "pending_committee_id"@) {
        field_error_text("pending_committee_id"@)
    } else if !ok_opt_str_arr(obj_fields(j), "committee"@) {
        field_error_text("committee"@)
    } else if !ok_opt_str_arr(obj_fields(j), "referrals"@) {
        field_error_text("referrals"@)
    } else if !ok_opt_history_entries(obj_fields(j), "history"@) {
        opt_history_entries_diag(obj_fields(j), "history"@)
    } else if !ok_opt_sponsors(obj_fields(j), "sponsors"@) {
        opt_sponsors_diag(obj_fields(j), "sponsors"@)
    } else if !ok_opt_str_arr(obj_fields(j), "sasts"@) {
        field_error_text("sasts"@)
    } else if !ok_opt_str_arr(obj_fields(j), "subjects"@) {
        field_error_text("subjects"@)
    } else if !ok_opt_text_entries(obj_fields(j), "texts"@) {
        opt_text_entries_diag(obj_fields(j), "texts"@)
    } else if !ok_opt_str_arr(obj_fields(j), "votes"@) {
        field_error_text("votes"@)
    } else if !ok_opt_str_arr(obj_fields(j), "amendments"@) {
        field_error_text("amendments"@)
    } else if !ok_opt_str_arr(obj_fields(j), "supplements"@) {
        field_error_text("supplements"@)
    } else if !ok_opt_str_arr(obj_fields(j), "calendar"@) {
        field_error_text("calendar"@)
    } else {
        Seq::empty()
    }
}

/// Decodes one record: absent and null fields stay empty, a field of the
/// wrong type is a shape error.
pub fn decode_bill(j: &Json) -> (r: Result<Bill, String>)
    ensures
        r matches Ok(v) ==> bill_ok(j.deep_view()) && v.deep_view() == bill_val(
            j.deep_view(),
        ),
        r matches Err(m) ==> !bill_ok(j.deep_view()) && m@ == bill_diag(
            j.deep_view(),
        ),
{
    let fields = match j {
        Json::Obj(fields) => fields,
        _ => {
            return Err(not_object_error());
        },
    };
    proof {
        lemma_json_fields_view(fields@);
        assert(json_fields_view(fields@) =~= fields.deep_view());
    }
    let status = match get_opt_string(fields, "status") {
        Ok(v) => v,
        Err(m) => {
            return Err(m);
        },
    };
    let bill = match get_field(fields, "bill") {
        None => None,
        Some(Json::Null) => None,
        Some(sub) => match decode_bill_inner(sub) {
            Ok(v) => Some(v),
            Err(m) => {
                return Err(m);
            },
        },
    };
    let url = match get_opt_string(fields, "url") {
        Ok(v) => v,
        Err(m) => {
            return Err(m);
        },
    };
    let state_link = match get_opt_string(fields, "state_link") {
        Ok(v) => v,
        Err(m) => {
            return Err(m);
        },
    };
    let completed = match get_opt_u32(fields, "completed") {
        Ok(v) => v,
        Err(m) => {
            return Err(m);
        },
    };
    let status_code = match get_opt_u32(fields, "status_code") {
        Ok(v) => v,
        Err(m) => {
            return Err(m);
        },
    };
    let status_date = match get_opt_string(fields, "status_date") {
        Ok(v) => v,
        Err(m) => {
            return Err(m);
        },
    };
    let progress = match get_opt_progress_dates(fields, "progress") {
        Ok(v) => v,
        Err(m) => {
            return Err(m);
        },
    };
    let state = match get_opt_string(fields, "state") {
        Ok(v) => v,
        Err(m) => {
            return Err(m);
        },
    };
    let state_id = match get_opt_u32(fields, "state_id") {
        Ok(v) => v,
        Err(m) => {
            return Err(m);
        },
    };
    let bill_number = match get_opt_string(fields, "bill_number") {
        Ok(v) => v,
        Err(m) => {
            return Err(m);
        },
    };
    let bill_type = match get_opt_string(fields, "bill_type") {
        Ok(v) => v,
        Err(m) => {
            return Err(m);
        },
    };
    let bill_type_id = match get_opt_u32(fields, "bill_type_id") {
        Ok(v) => v,
        Err(m) => {
            return Err(m);
        },
    };
    let body = match get_opt_string(fields, "body") {
        Ok(v) => v,
        Err(m) => {
            return Err(m);
        },
    };
    let body_id = match get_opt_u32(fields, "body_id") {
        Ok(v) => v,
        Err(m) => {
            return Err(m);
        },
    };
    let current_body = match get_opt_string(fields, "current_body") {
        Ok(v) => v,
        Err(m) => {
            return Err(m);
        },
    };
    let current_body_id = match get_opt_u32(fields, "current_body_id") {
        Ok(v) => v,
        Err(m) => {
            return Err(m);
        },
    };
    let title = match get_opt_string(fields, "title") {
        Ok(v) => v,
        Err(m) => {
            return Err(m);
        },
    };
    let description = match get_opt_string(fields, "description") {
        Ok(v) => v,
        Err(m) => {
            return Err(m);
        },
    };
    let pending_committee_id = match get_opt_u32(fields, "pending_committee_id") {
        Ok(v) => v,
        Err(m) => {
            return Err(m);
        },
    };
    let committee = match get_opt_str_arr(fields, "committee") {
        Ok(v) => v,
        Err(m) => {
            return Err(m);
        },
    };
    let referrals = match get_opt_str_arr(fields, "referrals") {
        Ok(v) => v,
        Err(m) => {
            return Err(m);
        },
    };
    let history = match get_opt_history_entries(fields, "history") {
        Ok(v) => v,
        Err(m) => {
            return Err(m);
        },
    };
    let sponsors = match get_opt_sponsors(fields, "sponsors") {
        Ok(v) => v,
        Err(m) => {
            return Err(m);
        },
    };
    let sasts = match get_opt_str_arr(fields, "sasts") {
        Ok(v) => v,
        Err(m) => {
            return Err(m);
        },
    };
    let subjects = match get_opt_str_arr(fields, "subjects") {
        Ok(v) => v,
        Err(m) => {
            return Err(m);
        },
    };
    let texts = match get_opt_text_entries(fields, "texts") {
        Ok(v) => v,
        Err(m) => {
            return Err(m);
        },
    };
    let votes = match get_opt_str_arr(fields, "votes") {
        Ok(v) => v,
        Err(m) => {
            return Err(m);
        },
    };
    let amendments = match get_opt_str_arr(fields, "amendments") {
        Ok(v) => v,
        Err(m) => {
            return Err(m);
        },
    };
    let supplements = match get_opt_str_arr(fields, "supplements") {
        Ok(v) => v,
        Err(m) => {
            return Err(m);
        },
    };
    let calendar = match get_opt_str_arr(fields, "calendar") {
        Ok(v) => v,
        Err(m) => {
            return Err(m);
        },
    };
    Ok(Bill {
        status,
        bill,
        url,
        state_link,
        completed,
        status_code,
        status_date,
        progress,
        state,
        state_id,
        bill_number,
        bill_type,
        bill_type_id,
        body,
        body_id,
        current_body,
        current_body_id,
        title,
        description,
        pending_committee_id,
        committee,
        referrals,
        history,
        sponsors,
        sasts,
        subjects,
        texts,
        votes,
        amendments,
        supplements,
        calendar,
    })
}

/// The decoded bill detail a raw text validates to, if it validates.
pub open spec fn bill_outcome(s: Seq<char>) -> Option<BillView> {
    match text_json(s) {
        None => None,
        Some(j) => if bill_ok(j) {
            Some(bill_val(j))
        } else {
            None
        },
    }
}

/// The diagnostic a failing text gets: serde_json's own where the text
/// is not JSON, the shape diagnostic otherwise.
pub open spec fn bill_text_diag(s: Seq<char>) -> Seq<char> {
    match text_json(s) {
        None => parse_diag(s),
        Some(j) => bill_diag(j),
    }
}

/// Validates a raw text as a bill detail response. The outcome is a function of the
/// text alone: `Ok` exactly when the text parses as JSON with that shape,
/// and then the fully decoded value.
pub fn parse_bill(json_data: &str) -> (r: Result<Bill, RelayError>)
    ensures
        r matches Ok(v) ==> bill_outcome(json_data@) == Some(v.deep_view()),
        r is Err ==> bill_outcome(json_data@) is None,
        r matches Err(e) ==> e is DecodeFailed && e.detail_view() == bill_text_diag(
            json_data@,
        ),
{
    let j = match parse_json(json_data) {
        Ok(j) => j,
        Err(m) => {
            return Err(RelayError::DecodeFailed(m));
        },
    };
    match decode_bill(&j) {
        Ok(v) => Ok(v),
        Err(m) => Err(RelayError::DecodeFailed(m)),
    }
}

/// Validation is idempotent: any two results that the contract of
/// `parse_bill` allows for one and the same text agree on success and
/// on the decoded value.
pub proof fn lemma_bill_deterministic(
    s: Seq<char>,
    r1: Option<BillView>,
    r2: Option<BillView>,
)
    requires
        (match r1 {
            Some(v) => bill_outcome(s) == Some(v),
            None => bill_outcome(s) is None,
        }),
        (match r2 {
            Some(v) => bill_outcome(s) == Some(v),
            None => bill_outcome(s) is None,
        }),
    ensures
        r1 == r2,
{
}

/// The record decodes whenever each of its fields is absent or null, and
/// then every decoded field is empty.
#[verifier::rlimit(40)]
pub proof fn lemma_bill_all_optional(j: JsonView)
    requires
        j is Obj,
        forall|k: Seq<char>|
            #[trigger] lookup_field(obj_fields(j), k) is None || lookup_field(obj_fields(j), k)
                == Some(JsonView::Null),
    ensures
        bill_ok(j),
        bill_val(j) == (BillView {
            status: None,
            bill: None,
            url: None,
            state_link: None,
            completed: None,
            status_code: None,
            status_date: None,
            progress: None,
            state: None,
            state_id: None,
            bill_number: None,
            bill_type: None,
            bill_type_id: None,
            body: None,
            body_id: None,
            current_body: None,
            current_body_id: None,
            title: None,
            description: None,
            pending_committee_id: None,
            committee: None,
            referrals: None,
            history: None,
            sponsors: None,
            sasts: None,
            subjects: None,
            texts: None,
            votes: None,
            amendments: None,
            supplements: None,
            calendar: None,
        }),
{
}

} // verus!
