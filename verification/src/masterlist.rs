//! The master-list shape: a bill index for a session, every part optional.

use vstd::prelude::*;
use crate::json::{Json, JsonView, obj_fields, lookup_field, get_field, get_opt_u32,
    get_opt_string, get_opt_str_arr, get_opt_arr, not_object_error, not_object_text,
    field_error_text, parse_diag, ok_opt_u32, val_opt_u32,
    ok_opt_string, val_opt_string, ok_opt_str_arr, val_opt_str_arr, lemma_json_fields_view,
    json_fields_view, parse_json, text_json};
use crate::errors::RelayError;
use crate::summary::{SessionSummary, SessionSummaryView, session_summary_ok,
    session_summary_val, session_summary_diag, decode_session_summary, ok_opt_session_summary,
    val_opt_session_summary, opt_session_summary_diag};

verus! {

/// One bill stub inside a master list. Every field is optional.
#[derive(Debug, PartialEq)]
pub struct MasterListBills {
    pub bill_id: Option<u32>,
    pub number: Option<String>,
    pub change_date: Option<String>,
}

/// The model of a `MasterListBills`.
pub struct MasterListBillsView {
    pub bill_id: Option<u32>,
    pub number: Option<Seq<char>>,
    pub change_date: Option<Seq<char>>,
}

impl DeepView for MasterListBills {
    type V = MasterListBillsView;

    open spec fn deep_view(&self) -> MasterListBillsView {
        MasterListBillsView {
            bill_id: self.bill_id,
            number: self.number.deep_view(),
            change_date: self.change_date.deep_view(),
        }
    }
}

/// A JSON value has the shape of the record.
pub open spec fn bill_stub_ok(j: JsonView) -> bool {
    &&& j is Obj
    &&& ok_opt_u32(obj_fields(j), "bill_id"@)
    &&& ok_opt_string(obj_fields(j), "number"@)
    &&& ok_opt_string(obj_fields(j), "change_date"@)
}

/// The record a JSON value of that shape decodes to.
pub open spec fn bill_stub_val(j: JsonView) -> MasterListBillsView {
    MasterListBillsView {
        bill_id: val_opt_u32(obj_fields(j), "bill_id"@),
        number: val_opt_string(obj_fields(j), "number"@),
        change_date: val_opt_string(obj_fields(j), "change_date"@),
    }
}

/// The diagnostic decoding gives when the value fails the shape: the first
/// offending field in decode order.
pub open spec fn bill_stub_diag(j: JsonView) -> Seq<char> {
    if !(j is Obj) {
        not_object_text()
    } else if !ok_opt_u32(obj_fields(j), "bill_id"@) {
        field_error_text("bill_id"@)
    } else if !ok_opt_string(obj_fields(j), "number"@) {
        field_error_text("number"@)
    } else if !ok_opt_string(obj_fields(j), "change_date"@) {
        field_error_text("change_date"@)
    } else {
        Seq::empty()
    }
}

/// Decodes one record: absent and null fields stay empty, a field of the
/// wrong type is a shape error.
pub fn decode_bill_stub(j: &Json) -> (r: Result<MasterListBills, String>)
    ensures
        r matches Ok(v) ==> bill_stub_ok(j.deep_view()) && v.deep_view() == bill_stub_val(
            j.deep_view(),
        ),
        r matches Err(m) ==> !bill_stub_ok(j.deep_view()) && m@ == bill_stub_diag(
            j.deep_view(),
        ),
{
    let fields = match j {
        Json::Obj(fields) => fields,
        _ => {
            return Err(not_object_error());
        },
    };
    proof {
        lemma_json_fields_view(fields@);
        assert(json_fields_view(fields@) =~= fields.deep_view());
    }
    let bill_id = match get_opt_u32(fields, "bill_id") {
        Ok(v) => v,
        Err(m) => {
            return Err(m);
        },
    };
    let number = match get_opt_string(fields, "number") {
        Ok(v) => v,
        Err(m) => {
            return Err(m);
        },
    };
    let change_date = match get_opt_string(fields, "change_date") {
        Ok(v) => v,
        Err(m) => {
            return Err(m);
        },
    };
    Ok(MasterListBills {
        bill_id,
        number,
        change_date,
    })
}

/// Every element decodes as the record.
pub open spec fn bill_stubs_ok(items: Seq<JsonView>) -> bool {
    forall|i: int| 0 <= i < items.len() ==> bill_stub_ok(#[trigger] items[i])
}

/// The records a sequence of JSON values decodes to.
pub open spec fn bill_stubs_val(items: Seq<JsonView>) -> Seq<MasterListBillsView> {
    Seq::new(items.len(), |i: int| bill_stub_val(items[i]))
}

/// The diagnostic of a failing sequence: that of its first offending
/// element.
pub open spec fn bill_stubs_diag(items: Seq<JsonView>) -> Seq<char>
    decreases items.len(),
{
    if items.len() == 0 {
        Seq::empty()
    } else if !bill_stub_ok(items[0]) {
        bill_stub_diag(items[0])
    } else {
        bill_stubs_diag(items.drop_first())
    }
}

/// Skipping well-shaped elements does not change which element the
/// diagnostic speaks of.
proof fn lemma_bill_stubs_diag(items: Seq<JsonView>, i: int)
    requires
        0 <= i < items.len(),
        forall|k: int| 0 <= k < i ==> bill_stub_ok(#[trigger] items[k]),
        !bill_stub_ok(items[i]),
    ensures
        bill_stubs_diag(items) == bill_stub_diag(items[i]),
    decreases i,
{
    if i > 0 {
        assert forall|k: int| 0 <= k < i - 1 implies bill_stub_ok(#[trigger] items.drop_first()[k]) by {
            assert(items.drop_first()[k] == items[k + 1]);
        }
        assert(items.drop_first()[i - 1] == items[i]);
        lemma_bill_stubs_diag(items.drop_first(), i - 1);
    }
}

/// Decodes a required array of bill stub records element by element.
#[verifier::loop_isolation(false)]
pub fn decode_bill_stubs(items: &Vec<Json>) -> (r: Result<Vec<MasterListBills>, String>)
    ensures
        r matches Ok(v) ==> bill_stubs_ok(items.deep_view()) && v.deep_view() == bill_stubs_val(
            items.deep_view(),
        ),
        r matches Err(m) ==> !bill_stubs_ok(items.deep_view()) && m@ == bill_stubs_diag(
            items.deep_view(),
        ),
{
    let ghost iv = items.deep_view();
    let mut out: Vec<MasterListBills> = Vec::new();
    let mut i: usize = 0;
    while i < items.len()
        invariant
            0 <= i <= items.len(),
            out.len() == i,
            forall|k: int| 0 <= k < i ==> bill_stub_ok(#[trigger] iv[k]),
            forall|k: int| 0 <= k < i ==> out.deep_view()[k] == bill_stub_val(iv[k]),
        decreases items.len() - i,
    {
        match decode_bill_stub(&items[i]) {
            Ok(v) => {
                let ghost prev = out.deep_view();
                out.push(v);
                proof {
                    assert(forall|k: int|
                        0 <= k < i ==> #[trigger] out.deep_view()[k] == prev[k]);
                    assert(iv[i as int] == items@[i as int].deep_view());
                    assert(out.deep_view()[i as int] == bill_stub_val(iv[i as int]));
                }
            },
            Err(m) => {
                proof {
                    assert(iv[i as int] == items@[i as int].deep_view());
                    assert(!bill_stubs_ok(iv));
                    lemma_bill_stubs_diag(iv, i as int);
                }
                return Err(m);
            },
        }
        i += 1;
    }
    proof {
        assert(out.deep_view() =~= bill_stubs_val(iv));
    }
    Ok(out)
}

/// An optional bill stub-list field is absent, null, or an array of bill stub records.
pub open spec fn ok_opt_bill_stubs(fields: Seq<(Seq<char>, JsonView)>, key: Seq<char>) -> bool {
    match lookup_field(fields, key) {
        None => true,
        Some(JsonView::Null) => true,
        Some(JsonView::Arr(items)) => bill_stubs_ok(items),
        Some(_) => false,
    }
}

/// The diagnostic an optional bill stub-list field gives when it fails the
/// shape.
pub open spec fn opt_bill_stubs_diag(fields: Seq<(Seq<char>, JsonView)>, key: Seq<char>) -> Seq<
    char,
> {
    match lookup_field(fields, key) {
        Some(JsonView::Arr(items)) => bill_stubs_diag(items),
        _ => field_error_text(key),
    }
}

/// The records an optional bill stub-list field holds, if any.
pub open spec fn val_opt_bill_stubs(fields: Seq<(Seq<char>, JsonView)>, key: Seq<char>) -> Option<
    Seq<MasterListBillsView>,
> {
    match lookup_field(fields, key) {
        Some(JsonView::Arr(items)) => Some(bill_stubs_val(items)),
        _ => None,
    }
}

/// Reads an optional array of bill stub records out of an object.
pub fn get_opt_bill_stubs(fields: &Vec<(String, Json)>, key: &str) -> (r: Result<
    Option<Vec<MasterListBills>>,
    String,
>)
    ensures
        r matches Ok(v) ==> ok_opt_bill_stubs(fields.deep_view(), key@) && v.deep_view()
            == val_opt_bill_stubs(fields.deep_view(), key@),
        r matches Err(m) ==> !ok_opt_bill_stubs(fields.deep_view(), key@) && m@
            == opt_bill_stubs_diag(fields.deep_view(), key@),
{
    match get_opt_arr(fields, key) {
        Ok(None) => Ok(None),
        Ok(Some(items)) => match decode_bill_stubs(items) {
            Ok(v) => Ok(Some(v)),
            Err(m) => Err(m),
        },
        Err(m) => Err(m),
    }
}

/// A bill index for a session. Every field is optional.
#[derive(Debug, PartialEq)]
pub struct MasterList {
    pub status: Option<String>,
    pub masterlist: Option<SessionSummary>,
    pub id: Option<Vec<MasterListBills>>,
}

/// The model of a `MasterList`.
pub struct MasterListView {
    pub status: Option<Seq<char>>,
    pub masterlist: Option<SessionSummaryView>,
    pub id: Option<Seq<MasterListBillsView>>,
}

impl DeepView for MasterList {
    type V = MasterListView;

    open spec fn deep_view(&self) -> MasterListView {
        MasterListView {
            status: self.status.deep_view(),
            masterlist: self.masterlist.deep_view(),
            id: self.id.deep_view(),
        }
    }
}

/// A JSON value has the shape of the record.
pub open spec fn master_list_ok(j: JsonView) -> bool {
    &&& j is Obj
    &&& ok_opt_string(obj_fields(j), "status"@)
    &&& ok_opt_session_summary(obj_fields(j), "masterlist"@)
    &&& ok_opt_bill_stubs(obj_fields(j), "id"@)
}

/// The record a JSON value of that shape decodes to.
pub open spec fn master_list_val(j: JsonView) -> MasterListView {
    MasterListView {
        status: val_opt_string(obj_fields(j), "status"@),
        masterlist: val_opt_session_summary(obj_fields(j), "masterlist"@),
        id: val_opt_bill_stubs(obj_fields(j), "id"@),
    }
}

/// The diagnostic decoding gives when the value fails the shape: the first
/// offending field in decode order.
pub open spec fn master_list_diag(j: JsonView) -> Seq<char> {
    if !(j is Obj) {
        not_object_text()
    } else if !ok_opt_string(obj_fields(j), "status"@) {
        field_error_text("status"@)
    } else if !ok_opt_session_summary(obj_fields(j), "masterlist"@) {
        opt_session_summary_diag(obj_fields(j), "masterlist"@)
    } else if !ok_opt_bill_stubs(obj_fields(j), "id"@) {
        opt_bill_stubs_diag(obj_fields(j), "id"@)
    } else {
        Seq::empty()
    }
}

/// Decodes one record: absent and null fields stay empty, a field of the
/// wrong type is a shape error.
pub fn decode_master_list(j: &Json) -> (r: Result<MasterList, String>)
    ensures
        r matches Ok(v) ==> master_list_ok(j.deep_view()) && v.deep_view() == master_list_val(
            j.deep_view(),
        ),
        r matches Err(m) ==> !master_list_ok(j.deep_view()) && m@ == master_list_diag(
            j.deep_view(),
        ),
{
    let fields = match j {
        Json::Obj(fields) => fields,
        _ => {
            return Err(not_object_error());
        },
    };
    proof {
        lemma_json_fields_view(fields@);
        assert(json_fields_view(fields@) =~= fields.deep_view());
    }
    let status = match get_opt_string(fields, "status") {
        Ok(v) => v,
        Err(m) => {
            return Err(m);
        },
    };
    let masterlist = match get_field(fields, "masterlist") {
        None => None,
        Some(Json::Null) => None,
        Some(sub) => match decode_session_summary(sub) {
            Ok(v) => Some(v),
            Err(m) => {
                return Err(m);
            },
        },
    };
    let id = match get_opt_bill_stubs(fields, "id") {
        Ok(v) => v,
        Err(m) => {
            return Err(m);
        },
    };
    Ok(MasterList {
        status,
        masterlist,
        id,
    })
}

/// The decoded master list a raw text validates to, if it validates.
pub open spec fn master_list_outcome(s: Seq<char>) -> Option<MasterListView> {
    match text_json(s) {
        None => None,
        Some(j) => if master_list_ok(j) {
            Some(master_list_val(j))
        } else {
            None
        },
    }
}

/// The diagnostic a failing text gets: serde_json's own where the text
/// is not JSON, the shape diagnostic otherwise.
pub open spec fn master_list_text_diag(s: Seq<char>) -> Seq<char> {
    match text_json(s) {
        None => parse_diag(s),
        Some(j) => master_list_diag(j),
    }
}

/// Validates a raw text as a master list response. The outcome is a function of the
/// text alone: `Ok` exactly when the text parses as JSON with that shape,
/// and then the fully decoded value.
pub fn parse_master_list(json_data: &str) -> (r: Result<MasterList, RelayError>)
    ensures
        r matches Ok(v) ==> master_list_outcome(json_data@) == Some(v.deep_view()),
        r is Err ==> master_list_outcome(json_data@) is None,
        r matches Err(e) ==> e is DecodeFailed && e.detail_view() == master_list_text_diag(
            json_data@,
        ),
{
    let j = match parse_json(json_data) {
        Ok(j) => j,
        Err(m) => {
            return Err(RelayError::DecodeFailed(m));
        },
    };
    match decode_master_list(&j) {
        Ok(v) => Ok(v),
        Err(m) => Err(RelayError::DecodeFailed(m)),
    }
}

/// Validation is idempotent: any two results that the contract of
/// `parse_master_list` allows for one and the same text agree on success and
/// on the decoded value.
pub proof fn lemma_master_list_deterministic(
    s: Seq<char>,
    r1: Option<MasterListView>,
    r2: Option<MasterListView>,
)
    requires
        (match r1 {
            Some(v) => master_list_outcome(s) == Some(v),
            None => master_list_outcome(s) is None,
        }),
        (match r2 {
            Some(v) => master_list_outcome(s) == Some(v),
            None => master_list_outcome(s) is None,
        }),
    ensures
        r1 == r2,
{
}

} // verus!
