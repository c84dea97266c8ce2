//! The legislator shape: an outer status envelope around one person record.

use vstd::prelude::*;
use crate::json::{Json, JsonView, obj_fields, lookup_field, get_field, get_opt_u32,
    get_opt_string, get_opt_str_arr, get_opt_arr, not_object_error, not_object_text,
    field_error_text, parse_diag, ok_opt_u32, val_opt_u32,
    ok_opt_string, val_opt_string, ok_opt_str_arr, val_opt_str_arr, lemma_json_fields_view,
    json_fields_view, parse_json, text_json};
use crate::errors::RelayError;

verus! {

/// One legislator identity and role record. Every field is optional.
#[derive(Debug, PartialEq)]
pub struct PersonInner {
    pub people_id: Option<u32>,
    pub person_hash: Option<String>,
    pub party_id: Option<String>,
    pub state_id: Option<u32>,
    pub party: Option<String>,
    pub role_id: Option<u32>,
    pub role: Option<String>,
    pub name: Option<String>,
    pub first_name: Option<String>,
    pub middle_name: Option<String>,
    pub last_name: Option<String>,
    pub suffix: Option<String>,
    pub nickname: Option<String>,
    pub district: Option<String>,
    pub ftm_eid: Option<u32>,
    pub votesmart_id: Option<u32>,
    pub opensecrets_id: Option<String>,
    pub knowwho_pid: Option<u32>,
    pub ballotpedia: Option<String>,
    pub bioguide_id: Option<String>,
    pub committee_sponsor: Option<u32>,
    pub committee_id: Option<u32>,
    pub state_federal: Option<u32>,
}

/// The model of a `PersonInner`.
pub struct PersonInnerView {
    pub people_id: Option<u32>,
    pub person_hash: Option<Seq<char>>,
    pub party_id: Option<Seq<char>>,
    pub state_id: Option<u32>,
    pub party: Option<Seq<char>>,
    pub role_id: Option<u32>,
    pub role: Option<Seq<char>>,
    pub name: Option<Seq<char>>,
    pub first_name: Option<Seq<char>>,
    pub middle_name: Option<Seq<char>>,
    pub last_name: Option<Seq<char>>,
    pub suffix: Option<Seq<char>>,
    pub nickname: Option<Seq<char>>,
    pub district: Option<Seq<char>>,
    pub ftm_eid: Option<u32>,
    pub votesmart_id: Option<u32>,
    pub opensecrets_id: Option<Seq<char>>,
    pub knowwho_pid: Option<u32>,
    pub ballotpedia: Option<Seq<char>>,
    pub bioguide_id: Option<Seq<char>>,
    pub committee_sponsor: Option<u32>,
    pub committee_id: Option<u32>,
    pub state_federal: Option<u32>,
}

impl DeepView for PersonInner {
    type V = PersonInnerView;

    open spec fn deep_view(&self) -> PersonInnerView {
        PersonInnerView {
            people_id: self.people_id,
            person_hash: self.person_hash.deep_view(),
            party_id: self.party_id.deep_view(),
            state_id: self.state_id,
            party: self.party.deep_view(),
            role_id: self.role_id,
            role: self.role.deep_view(),
            name: self.name.deep_view(),
            first_name: self.first_name.deep_view(),
            middle_name: self.middle_name.deep_view(),
            last_name: self.last_name.deep_view(),
            suffix: self.suffix.deep_view(),
            nickname: self.nickname.deep_view(),
            district: self.district.deep_view(),
            ftm_eid: self.ftm_eid,
            votesmart_id: self.votesmart_id,
            opensecrets_id: self.opensecrets_id.deep_view(),
            knowwho_pid: self.knowwho_pid,
            ballotpedia: self.ballotpedia.deep_view(),
            bioguide_id: self.bioguide_id.deep_view(),
            committee_sponsor: self.committee_sponsor,
            committee_id: self.committee_id,
            state_federal: self.state_federal,
        }
    }
}

/// A JSON value has the shape of the record.
pub open spec fn person_inner_ok(j: JsonView) -> bool {
    &&& j is Obj
    &&& ok_opt_u32(obj_fields(j), "people_id"@)
    &&& ok_opt_string(obj_fields(j), "person_hash"@)
    &&& ok_opt_string(obj_fields(j), "party_id"@)
    &&& ok_opt_u32(obj_fields(j), "state_id"@)
    &&& ok_opt_string(obj_fields(j), "party"@)
    &&& ok_opt_u32(obj_fields(j), "role_id"@)
    &&& ok_opt_string(obj_fields(j), "role"@)
    &&& ok_opt_string(obj_fields(j), "name"@)
    &&& ok_opt_string(obj_fields(j), "first_name"@)
    &&& ok_opt_string(obj_fields(j), "middle_name"@)
    &&& ok_opt_string(obj_fields(j), "last_name"@)
    &&& ok_opt_string(obj_fields(j), "suffix"@)
    &&& ok_opt_string(obj_fields(j), "nickname"@)
    &&& ok_opt_string(obj_fields(j), "district"@)
    &&& ok_opt_u32(obj_fields(j), "ftm_eid"@)
    &&& ok_opt_u32(obj_fields(j), "votesmart_id"@)
    &&& ok_opt_string(obj_fields(j), "opensecrets_id"@)
    &&& ok_opt_u32(obj_fields(j), "knowwho_pid"@)
    &&& ok_opt_string(obj_fields(j), "ballotpedia"@)
    &&& ok_opt_string(obj_fields(j), "bioguide_id"@)
    &&& ok_opt_u32(obj_fields(j), "committee_sponsor"@)
    &&& ok_opt_u32(obj_fields(j), "committee_id"@)
    &&& ok_opt_u32(obj_fields(j), "state_federal"@)
}

/// The record a JSON value of that shape decodes to.
pub open spec fn person_inner_val(j: JsonView) -> PersonInnerView {
    PersonInnerView {
        people_id: val_opt_u32(obj_fields(j), "people_id"@),
        person_hash: val_opt_string(obj_fields(j), "person_hash"@),
        party_id: val_opt_string(obj_fields(j), "party_id"@),
        state_id: val_opt_u32(obj_fields(j), "state_id"@),
        party: val_opt_string(obj_fields(j), "party"@),
        role_id: val_opt_u32(obj_fields(j), "role_id"@),
        role: val_opt_string(obj_fields(j), "role"@),
        name: val_opt_string(obj_fields(j), "name"@),
        first_name: val_opt_string(obj_fields(j), "first_name"@),
        middle_name: val_opt_string(obj_fields(j), "middle_name"@),
        last_name: val_opt_string(obj_fields(j), "last_name"@),
        suffix: val_opt_string(obj_fields(j), "suffix"@),
        nickname: val_opt_string(obj_fields(j), "nickname"@),
        district: val_opt_string(obj_fields(j), "district"@),
        ftm_eid: val_opt_u32(obj_fields(j), "ftm_eid"@),
        votesmart_id: val_opt_u32(obj_fields(j), "votesmart_id"@),
        opensecrets_id: val_opt_string(obj_fields(j), "opensecrets_id"@),
        knowwho_pid: val_opt_u32(obj_fields(j), "knowwho_pid"@),
        ballotpedia: val_opt_string(obj_fields(j), "ballotpedia"@),
        bioguide_id: val_opt_string(obj_fields(j), "bioguide_id"@),
        committee_sponsor: val_opt_u32(obj_fields(j), "committee_sponsor"@),
        committee_id: val_opt_u32(obj_fields(j), "committee_id"@),
        state_federal: val_opt_u32(obj_fields(j), "state_federal"@),
    }
}

/// The diagnostic decoding gives when the value fails the shape: the first
/// offending field in decode order.
pub open spec fn person_inner_diag(j: JsonView) -> Seq<char> {
    if !(j is Obj) {
        not_object_text()
    } else if !ok_opt_u32(obj_fields(j), "people_id"@) {
        field_error_text("people_id"@)
    } else if !ok_opt_string(obj_fields(j), "person_hash"@) {
        field_error_text("person_hash"@)
    } else if !ok_opt_string(obj_fields(j), "party_id"@) {
        field_error_text("party_id"@)
    } else if !ok_opt_u32(obj_fields(j), "state_id"@) {
        field_error_text("state_id"@)
    } else if !ok_opt_string(obj_fields(j), "party"@) {
        field_error_text("party"@)
    } else if !ok_opt_u32(obj_fields(j), "role_id"@) {
        field_error_text("role_id"@)
    } else if !ok_opt_string(obj_fields(j), "role"@) {
        field_error_text("role"@)
    } else if !ok_opt_string(obj_fields(j), "name"@) {
        field_error_text("name"@)
    } else if !ok_opt_string(obj_fields(j), "first_name"@) {
        field_error_text("first_name"@)
    } else if !ok_opt_string(obj_fields(j), "middle_name"@) {
        field_error_text("middle_name"@)
    } else if !ok_opt_string(obj_fields(j), "last_name"@) {
        field_error_text("last_name"@)
    } else if !ok_opt_string(obj_fields(j), "suffix"@) {
        field_error_text("suffix"@)
    } else if !ok_opt_string(obj_fields(j), "nickname"@) {
        field_error_text("nickname"@)
    } else if !ok_opt_string(obj_fields(j), "district"@) {
        field_error_text("district"@)
    } else if !ok_opt_u32(obj_fields(j), "ftm_eid"@) {
        field_error_text("ftm_eid"@)
    } else if !ok_opt_u32(obj_fields(j), "votesmart_id"@) {
        field_error_text("votesmart_id"@)
    } else if !ok_opt_string(obj_fields(j), "opensecrets_id"@) {
        field_error_text("opensecrets_id"@)
    } else if !ok_opt_u32(obj_fields(j), "knowwho_pid"@) {
        field_error_text("knowwho_pid"@)
    } else if !ok_opt_string(obj_fields(j), "ballotpedia"@) {
        field_error_text("ballotpedia"@)
    } else if !ok_opt_string(obj_fields(j), "bioguide_id"@) {
        field_error_text("bioguide_id"@)
    } else if !ok_opt_u32(obj_fields(j), "committee_sponsor"@) {
        field_error_text("committee_sponsor"@)
    } else if !ok_opt_u32(obj_fields(j), "committee_id"@) {
        field_error_text("committee_id"@)
    } else if !ok_opt_u32(obj_fields(j), "state_federal"@) {
        field_error_text("state_federal"@)
    } else {
        Seq::empty()
    }
}

/// Decodes one record: absent and null fields stay empty, a field of the
/// wrong type is a shape error.
pub fn decode_person_inner(j: &Json) -> (r: Result<PersonInner, String>)
    ensures
        r matches Ok(v) ==> person_inner_ok(j.deep_view()) && v.deep_view() == person_inner_val(
            j.deep_view(),
        ),
        r matches Err(m) ==> !person_inner_ok(j.deep_view()) && m@ == person_inner_diag(
            j.deep_view(),
        ),
{
    let fields = match j {
        Json::Obj(fields) => fields,
        _ => {
            return Err(not_object_error());
        },
    };
    proof {
        lemma_json_fields_view(fields@);
        assert(json_fields_view(fields@) =~= fields.deep_view());
    }
    let people_id = match get_opt_u32(fields, "people_id") {
        Ok(v) => v,
        Err(m) => {
            return Err(m);
        },
    };
    let person_hash = match get_opt_string(fields, "person_hash") {
        Ok(v) => v,
        Err(m) => {
            return Err(m);
        },
    };
    let party_id = match get_opt_string(fields, "party_id") {
        Ok(v) => v,
        Err(m) => {
            return Err(m);
        },
    };
    let state_id = match get_opt_u32(fields, "state_id") {
        Ok(v) => v,
        Err(m) => {
            return Err(m);
        },
    };
    let party = match get_opt_string(fields, "party") {
        Ok(v) => v,
        Err(m) => {
            return Err(m);
        },
    };
    let role_id = match get_opt_u32(fields, "role_id") {
        Ok(v) => v,
        Err(m) => {
            return Err(m);
        },
    };
    let role = match get_opt_string(fields, "role") {
        Ok(v) => v,
        Err(m) => {
            return Err(m);
        },
    };
    let name = match get_opt_string(fields, "name") {
        Ok(v) => v,
        Err(m) => {
            return Err(m);
        },
    };
    let first_name = match get_opt_string(fields, "first_name") {
        Ok(v) => v,
        Err(m) => {
            return Err(m);
        },
    };
    let middle_name = match get_opt_string(fields, "middle_name") {
        Ok(v) => v,
        Err(m) => {
            return Err(m);
        },
    };
    let last_name = match get_opt_string(fields, "last_name") {
        Ok(v) => v,
        Err(m) => {
            return Err(m);
        },
    };
    let suffix = match get_opt_string(fields, "suffix") {
        Ok(v) => v,
        Err(m) => {
            return Err(m);
        },
    };
    let nickname = match get_opt_string(fields, "nickname") {
        Ok(v) => v,
        Err(m) => {
            return Err(m);
        },
    };
    let district = match get_opt_string(fields, "district") {
        Ok(v) => v,
        Err(m) => {
            return Err(m);
        },
    };
    let ftm_eid = match get_opt_u32(fields, "ftm_eid") {
        Ok(v) => v,
        Err(m) => {
            return Err(m);
        },
    };
    let votesmart_id = match get_opt_u32(fields, "votesmart_id") {
        Ok(v) => v,
        Err(m) => {
            return Err(m);
        },
    };
    let opensecrets_id = match get_opt_string(fields, "opensecrets_id") {
        Ok(v) => v,
        Err(m) => {
            return Err(m);
        },
    };
    let knowwho_pid = match get_opt_u32(fields, "knowwho_pid") {
        Ok(v) => v,
        Err(m) => {
            return Err(m);
        },
    };
    let ballotpedia = match get_opt_string(fields, "ballotpedia") {
        Ok(v) => v,
        Err(m) => {
            return Err(m);
        },
    };
    let bioguide_id = match get_opt_string(fields, "bioguide_id") {
        Ok(v) => v,
        Err(m) => {
            return Err(m);
        },
    };
    let committee_sponsor = match get_opt_u32(fields, "committee_sponsor") {
        Ok(v) => v,
        Err(m) => {
            return Err(m);
        },
    };
    let committee_id = match get_opt_u32(fields, "committee_id") {
        Ok(v) => v,
        Err(m) => {
            return Err(m);
        },
    };
    let state_federal = match get_opt_u32(fields, "state_federal") {
        Ok(v) => v,
        Err(m) => {
            return Err(m);
        },
    };
    Ok(PersonInner {
        people_id,
        person_hash,
        party_id,
        state_id,
        party,
        role_id,
        role,
        name,
        first_name,
        middle_name,
        last_name,
        suffix,
        nickname,
        district,
        ftm_eid,
        votesmart_id,
        opensecrets_id,
        knowwho_pid,
        ballotpedia,
        bioguide_id,
        committee_sponsor,
        committee_id,
        state_federal,
    })
}

/// An optional person record field is absent, null, or person record-shaped.
pub open spec fn ok_opt_person_inner(fields: Seq<(Seq<char>, JsonView)>, key: Seq<char>) -> bool {
    match lookup_field(fields, key) {
        None => true,
        Some(JsonView::Null) => true,
        Some(sub) => person_inner_ok(sub),
    }
}

/// The diagnostic an optional person record field gives when its record fails
/// the shape.
pub open spec fn opt_person_inner_diag(fields: Seq<(Seq<char>, JsonView)>, key: Seq<char>) -> Seq<
    char,
> {
    match lookup_field(fields, key) {
        Some(sub) => person_inner_diag(sub),
        None => Seq::empty(),
    }
}

/// The record an optional person record field holds, if any.
pub open spec fn val_opt_person_inner(fields: Seq<(Seq<char>, JsonView)>, key: Seq<char>) -> Option<
    PersonInnerView,
> {
    match lookup_field(fields, key) {
        None => None,
        Some(JsonView::Null) => None,
        Some(sub) => Some(person_inner_val(sub)),
    }
}

/// A legislator response. Every field is optional.
#[derive(Debug, PartialEq)]
pub struct PersonOuter {
    pub status: Option<String>,
    pub person: Option<PersonInner>,
}

/// The model of a `PersonOuter`.
pub struct PersonOuterView {
    pub status: Option<Seq<char>>,
    pub person: Option<PersonInnerView>,
}

impl DeepView for PersonOuter {
    type V = PersonOuterView;

    open spec fn deep_view(&self) -> PersonOuterView {
        PersonOuterView {
            status: self.status.deep_view(),
            person: self.person.deep_view(),
        }
    }
}

/// A JSON value has the shape of the record.
pub open spec fn person_outer_ok(j: JsonView) -> bool {
    &&& j is Obj
    &&& ok_opt_string(obj_fields(j), "status"@)
    &&& ok_opt_person_inner(obj_fields(j), "person"@)
}

/// The record a JSON value of that shape decodes to.
pub open spec fn person_outer_val(j: JsonView) -> PersonOuterView {
    PersonOuterView {
        status: val_opt_string(obj_fields(j), "status"@),
        person: val_opt_person_inner(obj_fields(j), "person"@),
    }
}

/// The diagnostic decoding gives when the value fails the shape: the first
/// offending field in decode order.
pub open spec fn person_outer_diag(j: JsonView) -> Seq<char> {
    if !(j is Obj) {
        not_object_text()
    } else if !ok_opt_string(obj_fields(j), "status"@) {
        field_error_text("status"@)
    } else if !ok_opt_person_inner(obj_fields(j), "person"@) {
        opt_person_inner_diag(obj_fields(j), "person"@)
    } else {
        Seq::empty()
    }
}

/// Decodes one record: absent and null fields stay empty, a field of the
/// wrong type is a shape error.
pub fn decode_person_outer(j: &Json) -> (r: Result<PersonOuter, String>)
    ensures
        r matches Ok(v) ==> person_outer_ok(j.deep_view()) && v.deep_view() == person_outer_val(
            j.deep_view(),
        ),
        r matches Err(m) ==> !person_outer_ok(j.deep_view()) && m@ == person_outer_diag(
            j.deep_view(),
        ),
{
    let fields = match j {
        Json::Obj(fields) => fields,
        _ => {
            return Err(not_object_error());
        },
    };
    proof {
        lemma_json_fields_view(fields@);
        assert(json_fields_view(fields@) =~= fields.deep_view());
    }
    let status = match get_opt_string(fields, "status") {
        Ok(v) => v,
        Err(m) => {
            return Err(m);
        },
    };
    let person = match get_field(fields, "person") {
        None => None,
        Some(Json::Null) => None,
        Some(sub) => match decode_person_inner(sub) {
            Ok(v) => Some(v),
            Err(m) => {
                return Err(m);
            },
        },
    };
    Ok(PersonOuter {
        status,
        person,
    })
}

/// The decoded legislator a raw text validates to, if it validates.
pub open spec fn person_outer_outcome(s: Seq<char>) -> Option<PersonOuterView> {
    match text_json(s) {
        None => None,
        Some(j) => if person_outer_ok(j) {
            Some(person_outer_val(j))
        } else {
            None
        },
    }
}

/// The diagnostic a failing text gets: serde_json's own where the text
/// is not JSON, the shape diagnostic otherwise.
pub open spec fn person_outer_text_diag(s: Seq<char>) -> Seq<char> {
    match text_json(s) {
        None => parse_diag(s),
        Some(j) => person_outer_diag(j),
    }
}

/// Validates a raw text as a legislator response. The outcome is a function of the
/// text alone: `Ok` exactly when the text parses as JSON with that shape,
/// and then the fully decoded value.
pub fn parse_person(json_data: &str) -> (r: Result<PersonOuter, RelayError>)
    ensures
        r matches Ok(v) ==> person_outer_outcome(json_data@) == Some(v.deep_view()),
        r is Err ==> person_outer_outcome(json_data@) is None,
        r matches Err(e) ==> e is DecodeFailed && e.detail_view() == person_outer_text_diag(
            json_data@,
        ),
{
    let j = match parse_json(json_data) {
        Ok(j) => j,
        Err(m) => {
            return Err(RelayError::DecodeFailed(m));
        },
    };
    match decode_person_outer(&j) {
        Ok(v) => Ok(v),
        Err(m) => Err(RelayError::DecodeFailed(m)),
    }
}

/// Validation is idempotent: any two results that the contract of
/// `parse_person` allows for one and the same text agree on success and
/// on the decoded value.
pub proof fn lemma_person_outer_deterministic(
    s: Seq<char>,
    r1: Option<PersonOuterView>,
    r2: Option<PersonOuterView>,
)
    requires
        (match r1 {
            Some(v) => person_outer_outcome(s) == Some(v),
            None => person_outer_outcome(s) is None,
        }),
        (match r2 {
            Some(v) => person_outer_outcome(s) == Some(v),
            None => person_outer_outcome(s) is None,
        }),
    ensures
        r1 == r2,
{
}

/// The record decodes whenever each of its fields is absent or null, and
/// then every decoded field is empty.
#[verifier::rlimit(30)]
pub proof fn lemma_person_inner_all_optional(j: JsonView)
    requires
        j is Obj,
        forall|k: Seq<char>|
            #[trigger] lookup_field(obj_fields(j), k) is None || lookup_field(obj_fields(j), k)
                == Some(JsonView::Null),
    ensures
        person_inner_ok(j),
        person_inner_val(j) == (PersonInnerView {
            people_id: None,
            person_hash: None,
            party_id: None,
            state_id: None,
            party: None,
            role_id: None,
            role: None,
            name: None,
            first_name: None,
            middle_name: None,
            last_name: None,
            suffix: None,
            nickname: None,
            district: None,
            ftm_eid: None,
            votesmart_id: None,
            opensecrets_id: None,
            knowwho_pid: None,
            ballotpedia: None,
            bioguide_id: None,
            committee_sponsor: None,
            committee_id: None,
            state_federal: None,
        }),
{
}

/// The record decodes whenever each of its fields is absent or null, and
/// then every decoded field is empty.
pub proof fn lemma_person_outer_all_optional(j: JsonView)
    requires
        j is Obj,
        forall|k: Seq<char>|
            #[trigger] lookup_field(obj_fields(j), k) is None || lookup_field(obj_fields(j), k)
                == Some(JsonView::Null),
    ensures
        person_outer_ok(j),
        person_outer_val(j) == (PersonOuterView {
            status: None,
            person: None,
        }),
{
}

} // verus!
