//! The query-language check: a submission is a single query text that is
//! accepted when it is a read-only `SELECT`.
use vstd::prelude::*;
use vstd::string::StringExecFns;
use crate::text::{trimmed, trim_text, prefix_upto, take_chars, starts_with_text};
use crate::verdict::{ExecutionResult, Status, TestResult, Verdict};

verus! {

/// What `str::to_uppercase` returns for the given characters.
pub uninterp spec fn upper_of(s: Seq<char>) -> Seq<char>;

/// Relies on `str::to_uppercase`: the result depends on the characters alone,
/// and an empty text stays empty.
#[verifier::external_body]
fn uppercase(s: &str) -> (r: String)
    ensures
        r@ == upper_of(s@),
        s@.len() == 0 ==> r@.len() == 0,
{
    s.to_uppercase()
}

pub open spec fn starts_with_seq(s: Seq<char>, p: Seq<char>) -> bool {
    p.len() <= s.len() && s.take(p.len() as int) == p
}

pub open spec fn query_decision_spec(query: Seq<char>, upper: Seq<char>) -> Result<Seq<char>, Seq<char>> {
    if starts_with_seq(upper, "SELECT"@) {
        Ok(query)
    } else {
        Err("Only SELECT queries are supported in demo mode"@)
    }
}

/// Accepts the trimmed query `query` when its upper-cased form `upper`
/// begins with `SELECT`.
pub fn query_decision(query: &str, upper: &str) -> (r: Result<String, String>)
    ensures
        r matches Ok(q) ==> query_decision_spec(query@, upper@) == Ok::<Seq<char>, Seq<char>>(q@),
        r matches Err(e) ==> query_decision_spec(query@, upper@) == Err::<Seq<char>, Seq<char>>(e@),
{
    if starts_with_text(upper, "SELECT") {
        Ok(String::from_str(query))
    } else {
        Err(String::from_str("Only SELECT queries are supported in demo mode"))
    }
}

/// Checks the contents of a query submission file.
pub fn check_query(content: &str) -> (r: Result<String, String>)
    ensures
        r matches Ok(q) ==> query_decision_spec(trimmed(content@), upper_of(trimmed(content@)))
            == Ok::<Seq<char>, Seq<char>>(q@),
        r matches Err(e) ==> query_decision_spec(trimmed(content@), upper_of(trimmed(content@)))
            == Err::<Seq<char>, Seq<char>>(e@),
        trimmed(content@).len() == 0 ==> r is Err,
{
    let q = trim_text(content);
    let u = uppercase(q.as_str());
    proof {
        reveal_strlit("SELECT");
    }
    query_decision(q.as_str(), u.as_str())
}

/// The single-test result reported for a query submission, from the check's
/// outcome or from a failure to read the query file.
pub fn query_result(outcome: &Result<String, String>, time_ms: u64) -> (r: ExecutionResult)
    ensures
        r.tests@.len() == 1,
        r.tests@[0].name@ == "query"@,
        r.tests@[0].time_ms == time_ms,
        outcome matches Ok(q) ==> (r.verdict == Verdict::Accepted && r.tests@[0].status
            == Status::Pass && r.tests@[0].message@ == "Query executed successfully: "@
            + prefix_upto(q@, 50)),
        outcome matches Err(e) ==> (r.verdict == Verdict::Rejected && r.tests@[0].status
            == Status::RuntimeError && r.tests@[0].message@ == "Runtime error: "@ + e@),
{
    match outcome {
        Ok(q) => {
            let mut m = String::from_str("Query executed successfully: ");
            let head = take_chars(q.as_str(), 50);
            m.append(head.as_str());
            let t = TestResult {
                name: String::from_str("query"),
                status: Status::Pass,
                time_ms,
                message: m,
            };
            ExecutionResult { verdict: Verdict::Accepted, tests: vec![t] }
        },
        Err(e) => {
            let mut m = String::from_str("Runtime error: ");
            m.append(e.as_str());
            let t = TestResult {
                name: String::from_str("query"),
                status: Status::RuntimeError,
                time_ms,
                message: m,
            };
            ExecutionResult { verdict: Verdict::Rejected, tests: vec![t] }
        },
    }
}

} // verus!
