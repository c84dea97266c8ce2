//! From the outcome of one upstream call to the answer a route sends:
//! validate the body's shape, then relay the original text unchanged.

use vstd::prelude::*;
use vstd::string::StringExecFns;
use crate::bill::bill_outcome;
use crate::bill::bill_text_diag;
use crate::bill::parse_bill;
use crate::masterlist::master_list_outcome;
use crate::masterlist::master_list_text_diag;
use crate::masterlist::parse_master_list;
use crate::person::parse_person;
use crate::person::person_outer_outcome;
use crate::person::person_outer_text_diag;
use crate::session::names_of_sessions;
use crate::session::parse_session_date;
use crate::session::parse_session_list;
use crate::session::session_list_outcome;
use crate::session::session_list_text_diag;
use crate::errors::RelayError;

verus! {

/// The answer a route sends: an HTTP status code and a plain-text body.
#[derive(Debug, PartialEq)]
pub struct RouteOutcome {
    pub status: u16,
    pub body: String,
}

/// Answers the sessions route once the upstream call has finished: an
/// upstream failure becomes status 500 with its detail and nothing is
/// decoded; a body that fails validation becomes 500 with the decode
/// diagnostic as body, and the raw text is not relayed; a body that
/// validates is relayed byte for byte with 200.
pub fn relay_session_list(upstream: Result<String, RelayError>) -> (r: RouteOutcome)
    ensures
        upstream matches Err(e) ==> r.status == 500 && r.body@ == e.detail_view(),
        upstream matches Ok(raw) ==> session_list_outcome(raw@) is Some ==> r.status == 200
            && r.body == raw,
        upstream matches Ok(raw) ==> session_list_outcome(raw@) is None ==> r.status == 500
            && r.body@ == session_list_text_diag(raw@),
{
    let raw = match upstream {
        Err(e) => {
            return RouteOutcome { status: 500, body: e.into_detail() };
        },
        Ok(raw) => raw,
    };
    match parse_session_list(raw.as_str()) {
        Ok(_) => RouteOutcome { status: 200, body: raw },
        Err(e) => RouteOutcome { status: 500, body: e.into_detail() },
    }
}

/// Answers the bill route, as `relay_session_list` answers the sessions
/// route.
pub fn relay_bill(upstream: Result<String, RelayError>) -> (r: RouteOutcome)
    ensures
        upstream matches Err(e) ==> r.status == 500 && r.body@ == e.detail_view(),
        upstream matches Ok(raw) ==> bill_outcome(raw@) is Some ==> r.status == 200 && r.body == raw,
        upstream matches Ok(raw) ==> bill_outcome(raw@) is None ==> r.status == 500 && r.body@
            == bill_text_diag(raw@),
{
    let raw = match upstream {
        Err(e) => {
            return RouteOutcome { status: 500, body: e.into_detail() };
        },
        Ok(raw) => raw,
    };
    match parse_bill(raw.as_str()) {
        Ok(_) => RouteOutcome { status: 200, body: raw },
        Err(e) => RouteOutcome { status: 500, body: e.into_detail() },
    }
}

/// Answers the master-list route, as `relay_session_list` answers the
/// sessions route.
pub fn relay_master_list(upstream: Result<String, RelayError>) -> (r: RouteOutcome)
    ensures
        upstream matches Err(e) ==> r.status == 500 && r.body@ == e.detail_view(),
        upstream matches Ok(raw) ==> master_list_outcome(raw@) is Some ==> r.status == 200 && r.body
            == raw,
        upstream matches Ok(raw) ==> master_list_outcome(raw@) is None ==> r.status == 500
            && r.body@ == master_list_text_diag(raw@),
{
    let raw = match upstream {
        Err(e) => {
            return RouteOutcome { status: 500, body: e.into_detail() };
        },
        Ok(raw) => raw,
    };
    match parse_master_list(raw.as_str()) {
        Ok(_) => RouteOutcome { status: 200, body: raw },
        Err(e) => RouteOutcome { status: 500, body: e.into_detail() },
    }
}

/// Answers the person route, as `relay_session_list` answers the sessions
/// route.
pub fn relay_person(upstream: Result<String, RelayError>) -> (r: RouteOutcome)
    ensures
        upstream matches Err(e) ==> r.status == 500 && r.body@ == e.detail_view(),
        upstream matches Ok(raw) ==> person_outer_outcome(raw@) is Some ==> r.status == 200
            && r.body == raw,
        upstream matches Ok(raw) ==> person_outer_outcome(raw@) is None ==> r.status == 500
            && r.body@ == person_outer_text_diag(raw@),
{
    let raw = match upstream {
        Err(e) => {
            return RouteOutcome { status: 500, body: e.into_detail() };
        },
        Ok(raw) => raw,
    };
    match parse_person(raw.as_str()) {
        Ok(_) => RouteOutcome { status: 200, body: raw },
        Err(e) => RouteOutcome { status: 500, body: e.into_detail() },
    }
}

/// The names joined with a comma and a space between consecutive entries.
pub open spec fn join_names(names: Seq<Seq<char>>) -> Seq<char>
    decreases names.len(),
{
    if names.len() == 0 {
        Seq::empty()
    } else if names.len() == 1 {
        names[0]
    } else {
        names[0] + ", "@ + join_names(names.drop_first())
    }
}

/// Appending one more name extends the joined text by a separator (except
/// on the first name) and the name.
proof fn lemma_join_push(names: Seq<Seq<char>>, e: Seq<char>)
    ensures
        join_names(names.push(e)) == (if names.len() == 0 {
            e
        } else {
            join_names(names) + ", "@ + e
        }),
    decreases names.len(),
{
    if names.len() == 0 {
        assert(names.push(e).len() == 1);
        assert(names.push(e)[0] == e);
    } else {
        assert(names.push(e)[0] == names[0]);
        assert(names.push(e).drop_first() =~= names.drop_first().push(e));
        lemma_join_push(names.drop_first(), e);
        if names.len() > 1 {
            assert(names[0] + ", "@ + (join_names(names.drop_first()) + ", "@ + e) =~= (names[0]
                + ", "@ + join_names(names.drop_first())) + ", "@ + e);
        }
    }
}

/// Joins the names with a comma and a space.
#[verifier::loop_isolation(false)]
pub fn join_with_comma(names: &Vec<String>) -> (r: String)
    ensures
        r@ == join_names(names.deep_view()),
{
    let ghost nv = names.deep_view();
    let mut out = String::new();
    let mut i: usize = 0;
    while i < names.len()
        invariant
            0 <= i <= names.len(),
            out@ == join_names(nv.take(i as int)),
        decreases names.len() - i,
    {
        if i > 0 {
            out.append(", ");
        }
        out.append(names[i].as_str());
        proof {
            lemma_join_push(nv.take(i as int), nv[i as int]);
            assert(nv.take(i as int).push(nv[i as int]) =~= nv.take(i as int + 1));
        }
        i += 1;
    }
    proof {
        assert(nv.take(names.len() as int) =~= nv);
    }
    out
}

/// Answers the session-names route: a validated body is answered not by the
/// raw text but by the derived session names joined with a comma and a
/// space; failures are answered as on every other route.
pub fn relay_session_names(upstream: Result<String, RelayError>) -> (r: RouteOutcome)
    ensures
        upstream matches Err(e) ==> r.status == 500 && r.body@ == e.detail_view(),
        upstream matches Ok(raw) ==> session_list_outcome(raw@) matches Some(sl)
            ==> r.status == 200 && r.body@ == join_names(names_of_sessions(sl.sessions)),
        upstream matches Ok(raw) ==> session_list_outcome(raw@) is None ==> r.status == 500
            && r.body@ == session_list_text_diag(raw@),
{
    let raw = match upstream {
        Err(e) => {
            return RouteOutcome { status: 500, body: e.into_detail() };
        },
        Ok(raw) => raw,
    };
    match parse_session_date(raw.as_str()) {
        Ok(names) => RouteOutcome { status: 200, body: join_with_comma(&names) },
        Err(e) => RouteOutcome { status: 500, body: e.into_detail() },
    }
}

} // verus!
