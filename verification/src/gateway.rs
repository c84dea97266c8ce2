//! The upstream gateway's compute side: which operations exist and exactly
//! which URL each one asks for. The network call itself lives with the host
//! program.

use vstd::prelude::*;
use vstd::string::StringExecFns;

verus! {

/// One upstream operation, with the parameters its query carries.
#[derive(Debug, PartialEq)]
pub enum Operation {
    GetBill { bill_id: u32 },
    GetMasterListRaw { session_id: u32 },
    GetMasterList { state: String, year: u32 },
    GetSessionList { state: String },
    GetPerson { people_id: u32 },
}

/// The model of an `Operation`.
pub enum OperationView {
    GetBill { bill_id: u32 },
    GetMasterListRaw { session_id: u32 },
    GetMasterList { state: Seq<char>, year: u32 },
    GetSessionList { state: Seq<char> },
    GetPerson { people_id: u32 },
}

impl DeepView for Operation {
    type V = OperationView;

    open spec fn deep_view(&self) -> OperationView {
        match self {
            Operation::GetBill { bill_id } => OperationView::GetBill { bill_id: *bill_id },
            Operation::GetMasterListRaw { session_id } => OperationView::GetMasterListRaw {
                session_id: *session_id,
            },
            Operation::GetMasterList { state, year } => OperationView::GetMasterList {
                state: state@,
                year: *year,
            },
            Operation::GetSessionList { state } => OperationView::GetSessionList { state: state@ },
            Operation::GetPerson { people_id } => OperationView::GetPerson {
                people_id: *people_id,
            },
        }
    }
}

/// One decimal digit as its character.
pub open spec fn digit_char(d: nat) -> char {
    if d == 0 {
        '0'
    } else if d == 1 {
        '1'
    } else if d == 2 {
        '2'
    } else if d == 3 {
        '3'
    } else if d == 4 {
        '4'
    } else if d == 5 {
        '5'
    } else if d == 6 {
        '6'
    } else if d == 7 {
        '7'
    } else if d == 8 {
        '8'
    } else {
        '9'
    }
}

/// The decimal digits of a number, most significant first, no leading zero
/// except for zero itself.
pub open spec fn dec_digits(n: nat) -> Seq<char>
    decreases n,
{
    if n < 10 {
        seq![digit_char(n)]
    } else {
        dec_digits(n / 10).push(digit_char(n % 10))
    }
}

/// One decimal digit as a text.
fn digit_str(d: u32) -> (r: &'static str)
    requires
        d < 10,
    ensures
        r@ == seq![digit_char(d as nat)],
{
    if d == 0 {
        proof {
            reveal_strlit("0");
            assert("0"@ =~= seq![digit_char(0)]);
        }
        "0"
    } else if d == 1 {
        proof {
            reveal_strlit("1");
            assert("1"@ =~= seq![digit_char(1)]);
        }
        "1"
    } else if d == 2 {
        proof {
            reveal_strlit("2");
            assert("2"@ =~= seq![digit_char(2)]);
        }
        "2"
    } else if d == 3 {
        proof {
            reveal_strlit("3");
            assert("3"@ =~= seq![digit_char(3)]);
        }
        "3"
    } else if d == 4 {
        proof {
            reveal_strlit("4");
            assert("4"@ =~= seq![digit_char(4)]);
        }
        "4"
    } else if d == 5 {
        proof {
            reveal_strlit("5");
            assert("5"@ =~= seq![digit_char(5)]);
        }
        "5"
    } else if d == 6 {
        proof {
            reveal_strlit("6");
            assert("6"@ =~= seq![digit_char(6)]);
        }
        "6"
    } else if d == 7 {
        proof {
            reveal_strlit("7");
            assert("7"@ =~= seq![digit_char(7)]);
        }
        "7"
    } else if d == 8 {
        proof {
            reveal_strlit("8");
            assert("8"@ =~= seq![digit_char(8)]);
        }
        "8"
    } else {
        proof {
            reveal_strlit("9");
            assert("9"@ =~= seq![digit_char(d as nat)]);
        }
        "9"
    }
}

/// Writes a number in decimal.
pub fn u32_to_string(n: u32) -> (r: String)
    ensures
        r@ == dec_digits(n as nat),
    decreases n,
{
    if n < 10 {
        digit_str(n).to_owned()
    } else {
        let mut s = u32_to_string(n / 10);
        let d: u32 = n % 10;
        s.append(digit_str(d));
        proof {
            assert(dec_digits((n as nat) / 10).push(digit_char((n as nat) % 10)) =~= dec_digits(
                (n as nat) / 10,
            ) + seq![digit_char((n as nat) % 10)]);
        }
        s
    }
}

/// The full query an operation asks the upstream service, after the key.
pub open spec fn query_of(op: OperationView) -> Seq<char> {
    match op {
        OperationView::GetBill { bill_id } => "&op=getBill&id="@ + dec_digits(bill_id as nat),
        OperationView::GetMasterListRaw { session_id } => "&op=getMasterListRaw&id="@ + dec_digits(
            session_id as nat,
        ),
        OperationView::GetMasterList { state, year } => "&op=getMasterList&state="@ + state
            + "&year="@ + dec_digits(year as nat),
        OperationView::GetSessionList { state } => "&op=getSessionList&state="@ + state,
        OperationView::GetPerson { people_id } => "&op=getPerson&id="@ + dec_digits(
            people_id as nat,
        ),
    }
}

/// The one URL an operation asks for, key first, then the operation's query.
pub open spec fn url_of(op: OperationView, key: Seq<char>) -> Seq<char> {
    "https://api.legiscan.com/?key="@ + key + query_of(op)
}

/// Builds the upstream URL for one operation and the configured key.
pub fn build_url(op: &Operation, api_key: &str) -> (r: String)
    ensures
        r@ == url_of(op.deep_view(), api_key@),
{
    let mut url = String::from_str("https://api.legiscan.com/?key=");
    url.append(api_key);
    match op {
        Operation::GetBill { bill_id } => {
            url.append("&op=getBill&id=");
            let ds = u32_to_string(*bill_id);
            url.append(ds.as_str());
        },
        Operation::GetMasterListRaw { session_id } => {
            url.append("&op=getMasterListRaw&id=");
            let ds = u32_to_string(*session_id);
            url.append(ds.as_str());
        },
        Operation::GetMasterList { state, year } => {
            url.append("&op=getMasterList&state=");
            url.append(state.as_str());
            url.append("&year=");
            let ds = u32_to_string(*year);
            url.append(ds.as_str());
        },
        Operation::GetSessionList { state } => {
            url.append("&op=getSessionList&state=");
            url.append(state.as_str());
        },
        Operation::GetPerson { people_id } => {
            url.append("&op=getPerson&id=");
            let ds = u32_to_string(*people_id);
            url.append(ds.as_str());
        },
    }
    proof {
        assert(url@ =~= url_of(op.deep_view(), api_key@));
    }
    url
}

} // verus!
