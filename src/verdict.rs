//! Per-test classification and aggregation of the overall verdict.
use vstd::prelude::*;
use vstd::string::StringExecFns;
use crate::text::{trimmed, trim_text, prefix_upto};

verus! {

/// Outcome of a single test case.
#[derive(Clone, Copy, Debug, PartialEq, Eq, Structural)]
pub enum Status {
    Pass,
    WrongAnswer,
    RuntimeError,
    InternalError,
}

/// Overall classification of a submission.
#[derive(Clone, Copy, Debug, PartialEq, Eq, Structural)]
pub enum Verdict {
    Accepted,
    Rejected,
    Error,
}

/// What was observed while running one discovered test case.
pub enum Observation {
    /// The input file has no matching expected-output file.
    MissingExpected,
    /// The language runner failed; `message` is its diagnostic.
    RunFailed { message: String, time_ms: u64 },
    /// The program ran to a zero exit; both texts are untrimmed.
    Ran { expected: String, actual: String, time_ms: u64 },
}

/// A discovered test case together with what happened when it ran.
pub struct CaseRecord {
    pub name: String,
    pub observation: Observation,
}

pub struct TestResult {
    pub name: String,
    pub status: Status,
    pub time_ms: u64,
    pub message: String,
}

pub struct ExecutionResult {
    pub verdict: Verdict,
    pub tests: Vec<TestResult>,
}

pub open spec fn severity(v: Verdict) -> nat {
    match v {
        Verdict::Accepted => 0,
        Verdict::Rejected => 1,
        Verdict::Error => 2,
    }
}

/// The overall class that a single test status degrades a run to.
pub open spec fn class_of(s: Status) -> Verdict {
    match s {
        Status::Pass => Verdict::Accepted,
        Status::WrongAnswer | Status::RuntimeError => Verdict::Rejected,
        Status::InternalError => Verdict::Error,
    }
}

pub open spec fn worse(a: Verdict, b: Verdict) -> Verdict {
    if severity(a) >= severity(b) {
        a
    } else {
        b
    }
}

/// The worst class over all statuses; `Accepted` when there are none.
pub open spec fn aggregate(s: Seq<Status>) -> Verdict
    decreases s.len(),
{
    if s.len() == 0 {
        Verdict::Accepted
    } else {
        worse(aggregate(s.drop_last()), class_of(s.last()))
    }
}

pub open spec fn status_of(o: Observation) -> Status {
    match o {
        Observation::MissingExpected => Status::InternalError,
        Observation::RunFailed { .. } => Status::RuntimeError,
        Observation::Ran { expected, actual, .. } => if trimmed(expected@) == trimmed(actual@) {
            Status::Pass
        } else {
            Status::WrongAnswer
        },
    }
}

pub open spec fn message_of(o: Observation) -> Seq<char> {
    match o {
        Observation::MissingExpected => "Expected output file missing"@,
        Observation::RunFailed { message, .. } => "Runtime error: "@ + message@,
        Observation::Ran { expected, actual, .. } => if trimmed(expected@) == trimmed(actual@) {
            "Test passed successfully"@
        } else {
            "Expected: '"@ + trimmed(expected@) + "', Got: '"@ + trimmed(actual@) + "'"@
        },
    }
}

pub open spec fn time_of(o: Observation) -> u64 {
    match o {
        Observation::MissingExpected => 0,
        Observation::RunFailed { time_ms, .. } => time_ms,
        Observation::Ran { time_ms, .. } => time_ms,
    }
}

/// `t` is the result that grading `c` must give.
pub open spec fn graded(c: CaseRecord, t: TestResult) -> bool {
    &&& t.name@ == c.name@
    &&& t.status == status_of(c.observation)
    &&& t.message@ == message_of(c.observation)
    &&& t.time_ms == time_of(c.observation)
}

pub open spec fn statuses(t: Seq<TestResult>) -> Seq<Status> {
    t.map_values(|r: TestResult| r.status)
}

pub open spec fn observed_statuses(c: Seq<CaseRecord>) -> Seq<Status> {
    c.map_values(|r: CaseRecord| status_of(r.observation))
}

impl Status {
    /// The status token used on the wire.
    pub open spec fn spec_code(self) -> Seq<char> {
        match self {
            Status::Pass => "AC"@,
            Status::WrongAnswer => "WA"@,
            Status::RuntimeError => "RE"@,
            Status::InternalError => "IE"@,
        }
    }

    pub fn code(&self) -> (r: String)
        ensures
            r@ == self.spec_code(),
    {
        match self {
            Status::Pass => String::from_str("AC"),
            Status::WrongAnswer => String::from_str("WA"),
            Status::RuntimeError => String::from_str("RE"),
            Status::InternalError => String::from_str("IE"),
        }
    }
}

impl Verdict {
    /// The verdict token used on the wire.
    pub open spec fn spec_token(self) -> Seq<char> {
        match self {
            Verdict::Accepted => "Accepted"@,
            Verdict::Rejected => "Rejected"@,
            Verdict::Error => "Error"@,
        }
    }

    pub fn token(&self) -> (r: String)
        ensures
            r@ == self.spec_token(),
    {
        match self {
            Verdict::Accepted => String::from_str("Accepted"),
            Verdict::Rejected => String::from_str("Rejected"),
            Verdict::Error => String::from_str("Error"),
        }
    }
}

/// The more severe of two verdicts.
pub fn worse_of(a: Verdict, b: Verdict) -> (r: Verdict)
    ensures
        r == worse(a, b),
{
    let sa: u8 = match a {
        Verdict::Accepted => 0,
        Verdict::Rejected => 1,
        Verdict::Error => 2,
    };
    let sb: u8 = match b {
        Verdict::Accepted => 0,
        Verdict::Rejected => 1,
        Verdict::Error => 2,
    };
    if sa >= sb {
        a
    } else {
        b
    }
}

/// Classifies one test case from what was observed while running it.
pub fn grade_case(c: &CaseRecord) -> (r: TestResult)
    ensures
        graded(*c, r),
{
    let name = String::from_str(c.name.as_str());
    match &c.observation {
        Observation::MissingExpected => TestResult {
            name,
            status: Status::InternalError,
            time_ms: 0,
            message: String::from_str("Expected output file missing"),
        },
        Observation::RunFailed { message, time_ms } => {
            let mut m = String::from_str("Runtime error: ");
            m.append(message.as_str());
            TestResult { name, status: Status::RuntimeError, time_ms: *time_ms, message: m }
        },
        Observation::Ran { expected, actual, time_ms } => {
            let e = trim_text(expected.as_str());
            let a = trim_text(actual.as_str());
            if e == a {
                TestResult {
                    name,
                    status: Status::Pass,
                    time_ms: *time_ms,
                    message: String::from_str("Test passed successfully"),
                }
            } else {
                let mut m = String::from_str("Expected: '");
                m.append(e.as_str());
                m.append("', Got: '");
                m.append(a.as_str());
                m.append("'");
                TestResult { name, status: Status::WrongAnswer, time_ms: *time_ms, message: m }
            }
        },
    }
}

/// Grades every case in order and aggregates the worst class seen.
pub fn evaluate(cases: &Vec<CaseRecord>) -> (r: ExecutionResult)
    ensures
        r.tests@.len() == cases@.len(),
        forall|i: int| 0 <= i < cases@.len() ==> graded(#[trigger] cases@[i], r.tests@[i]),
        r.verdict == aggregate(observed_statuses(cases@)),
{
    let mut tests: Vec<TestResult> = Vec::new();
    let mut verdict = Verdict::Accepted;
    let mut i: usize = 0;
    while i < cases.len()
        invariant
            i <= cases@.len(),
            tests@.len() == i,
            forall|k: int| 0 <= k < i ==> graded(#[trigger] cases@[k], tests@[k]),
            verdict == aggregate(observed_statuses(cases@.take(i as int))),
        decreases cases@.len() - i,
    {
        let t = grade_case(&cases[i]);
        proof {
            let s = observed_statuses(cases@.take(i + 1));
            assert(s.drop_last() =~= observed_statuses(cases@.take(i as int)));
        }
        verdict = worse_of(verdict, class_of_status(t.status));
        tests.push(t);
        i = i + 1;
    }
    assert(cases@.take(i as int) =~= cases@);
    ExecutionResult { verdict, tests }
}

pub fn class_of_status(s: Status) -> (r: Verdict)
    ensures
        r == class_of(s),
{
    match s {
        Status::Pass => Verdict::Accepted,
        Status::WrongAnswer | Status::RuntimeError => Verdict::Rejected,
        Status::InternalError => Verdict::Error,
    }
}

/// Records what a runner returned for a case whose expected output was read.
pub fn observe_run(expected: String, run: Result<String, String>, time_ms: u64) -> (r: Observation)
    ensures
        run matches Ok(a) ==> (r matches Observation::Ran { expected: e, actual: x, time_ms: t }
            && e@ == expected@ && x@ == a@ && t == time_ms),
        run matches Err(m) ==> (r matches Observation::RunFailed { message: x, time_ms: t } && x@
            == m@ && t == time_ms),
{
    match run {
        Ok(actual) => Observation::Ran { expected, actual, time_ms },
        Err(message) => Observation::RunFailed { message, time_ms },
    }
}

/// The result reported when the bundle has no public test directory.
pub fn missing_tests_result() -> (r: ExecutionResult)
    ensures
        r.verdict == Verdict::Error,
        r.tests@.len() == 1,
        r.tests@[0].name@ == "error"@,
        r.tests@[0].status == Status::InternalError,
        r.tests@[0].time_ms == 0,
        r.tests@[0].message@ == "Test cases not found"@,
{
    let t = TestResult {
        name: String::from_str("error"),
        status: Status::InternalError,
        time_ms: 0,
        message: String::from_str("Test cases not found"),
    };
    ExecutionResult { verdict: Verdict::Error, tests: vec![t] }
}

proof fn lemma_aggregate_dominates(s: Seq<Status>, i: int)
    requires
        0 <= i < s.len(),
    ensures
        severity(aggregate(s)) >= severity(class_of(s[i])),
    decreases s.len(),
{
    if i < s.len() - 1 {
        lemma_aggregate_dominates(s.drop_last(), i);
    }
}

proof fn lemma_aggregate_witness(s: Seq<Status>)
    ensures
        aggregate(s) == Verdict::Accepted || exists|i: int|
            0 <= i < s.len() && aggregate(s) == class_of(#[trigger] s[i]),
    decreases s.len(),
{
    if s.len() > 0 {
        lemma_aggregate_witness(s.drop_last());
        if aggregate(s) != class_of(s.last()) && aggregate(s) != Verdict::Accepted {
            let i = choose|i: int|
                0 <= i < s.drop_last().len() && aggregate(s.drop_last()) == class_of(
                    #[trigger] s.drop_last()[i],
                );
            assert(s[i] == s.drop_last()[i]);
        }
    }
}

/// Equal trimmed outputs pass, and the overall verdict is `Accepted`
/// exactly when every case passes.
pub proof fn law_accepted_iff_all_pass(cases: Seq<CaseRecord>)
    ensures
        forall|i: int|
            0 <= i < cases.len() && (#[trigger] cases[i]).observation is Ran && trimmed(
                cases[i].observation->expected@,
            ) == trimmed(cases[i].observation->actual@) ==> status_of(cases[i].observation)
                == Status::Pass,
        aggregate(observed_statuses(cases)) == Verdict::Accepted <==> forall|i: int|
            0 <= i < cases.len() ==> status_of((#[trigger] cases[i]).observation) == Status::Pass,
{
    let s = observed_statuses(cases);
    if aggregate(s) == Verdict::Accepted {
        assert forall|i: int| 0 <= i < cases.len() implies status_of(
            (#[trigger] cases[i]).observation,
        ) == Status::Pass by {
            lemma_aggregate_dominates(s, i);
        }
    }
    if forall|i: int|
        0 <= i < cases.len() ==> status_of((#[trigger] cases[i]).observation) == Status::Pass {
        lemma_aggregate_witness(s);
        if aggregate(s) != Verdict::Accepted {
            let i = choose|i: int| 0 <= i < s.len() && aggregate(s) == class_of(#[trigger] s[i]);
            assert(status_of(cases[i].observation) == Status::Pass);
        }
    }
}

/// A case whose runner failed is `RuntimeError`, and the run is at least `Rejected`.
pub proof fn law_runner_failure_rejects(cases: Seq<CaseRecord>, i: int)
    requires
        0 <= i < cases.len(),
        cases[i].observation is RunFailed,
    ensures
        status_of(cases[i].observation) == Status::RuntimeError,
        severity(aggregate(observed_statuses(cases))) >= severity(Verdict::Rejected),
{
    lemma_aggregate_dominates(observed_statuses(cases), i);
}

/// A case with no expected output is `InternalError`, and the run is `Error`
/// whatever the other cases did.
pub proof fn law_missing_expected_forces_error(cases: Seq<CaseRecord>, i: int)
    requires
        0 <= i < cases.len(),
        cases[i].observation is MissingExpected,
    ensures
        status_of(cases[i].observation) == Status::InternalError,
        aggregate(observed_statuses(cases)) == Verdict::Error,
{
    lemma_aggregate_dominates(observed_statuses(cases), i);
}

/// Two observations that differ at most in their timings.
pub open spec fn same_but_timing(a: Observation, b: Observation) -> bool {
    match (a, b) {
        (Observation::MissingExpected, Observation::MissingExpected) => true,
        (
            Observation::RunFailed { message: m1, .. },
            Observation::RunFailed { message: m2, .. },
        ) => m1@ == m2@,
        (
            Observation::Ran { expected: e1, actual: a1, .. },
            Observation::Ran { expected: e2, actual: a2, .. },
        ) => e1@ == e2@ && a1@ == a2@,
        _ => false,
    }
}

/// Grading the same runs twice gives the same statuses, messages and verdict;
/// only the timings may differ.
pub proof fn law_grading_ignores_timing(a: Seq<CaseRecord>, b: Seq<CaseRecord>)
    requires
        a.len() == b.len(),
        forall|i: int|
            0 <= i < a.len() ==> (#[trigger] a[i]).name@ == b[i].name@ && same_but_timing(
                a[i].observation,
                b[i].observation,
            ),
    ensures
        observed_statuses(a) == observed_statuses(b),
        forall|i: int|
            0 <= i < a.len() ==> message_of((#[trigger] a[i]).observation) == message_of(
                b[i].observation,
            ),
        aggregate(observed_statuses(a)) == aggregate(observed_statuses(b)),
{
    assert(observed_statuses(a) =~= observed_statuses(b)) by {
        assert forall|i: int| 0 <= i < a.len() implies observed_statuses(a)[i] == observed_statuses(b)[i] by {
            assert(same_but_timing(a[i].observation, b[i].observation));
        }
    }
    assert forall|i: int| 0 <= i < a.len() implies message_of((#[trigger] a[i]).observation)
        == message_of(b[i].observation) by {
        assert(same_but_timing(a[i].observation, b[i].observation));
    }
}

/// When the runner failed on every case, as it does when the build step
/// fails, every case is `RuntimeError` and a non-empty run is `Rejected`.
pub proof fn law_failed_runner_rejects_every_case(cases: Seq<CaseRecord>)
    requires
        forall|i: int| 0 <= i < cases.len() ==> (#[trigger] cases[i]).observation is RunFailed,
    ensures
        forall|i: int|
            0 <= i < cases.len() ==> status_of((#[trigger] cases[i]).observation)
                == Status::RuntimeError,
        cases.len() > 0 ==> aggregate(observed_statuses(cases)) == Verdict::Rejected,
{
    let s = observed_statuses(cases);
    if cases.len() > 0 {
        lemma_aggregate_dominates(s, 0);
        lemma_aggregate_witness(s);
        let i = choose|i: int| 0 <= i < s.len() && aggregate(s) == class_of(#[trigger] s[i]);
        assert(cases[i].observation is RunFailed);
    }
}

} // verus!
