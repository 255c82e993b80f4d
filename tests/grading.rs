use executor::discovery::{
    expected_output_file, file_extension, is_public_data_file, is_test_input_file,
    is_upload_support_file, select_test_inputs, test_name_of,
};
use executor::language::{
    after_build, after_entry_check, after_execute, parse_language, BuildStep, Language,
    ProcessReport, RunnerAction,
};
use executor::query::{check_query, query_decision, query_result};
use executor::text::{same_text, starts_with_text, take_chars, trim_text};
use executor::verdict::{
    evaluate, grade_case, missing_tests_result, observe_run, worse_of, CaseRecord, Observation, Status, Verdict,
};

fn ran(name: &str, expected: &str, actual: &str) -> CaseRecord {
    CaseRecord {
        name: name.to_string(),
        observation: Observation::Ran {
            expected: expected.to_string(),
            actual: actual.to_string(),
            time_ms: 5,
        },
    }
}

fn failed(name: &str, message: &str) -> CaseRecord {
    CaseRecord {
        name: name.to_string(),
        observation: Observation::RunFailed { message: message.to_string(), time_ms: 3 },
    }
}

fn missing(name: &str) -> CaseRecord {
    CaseRecord { name: name.to_string(), observation: Observation::MissingExpected }
}

#[test]
fn python_sum_accepted() {
    assert_eq!(parse_language("python"), Some(Language::Python));
    let r = evaluate(&vec![ran("sum", "7", "7\n")]);
    assert_eq!(r.verdict, Verdict::Accepted);
    assert_eq!(r.verdict.token(), "Accepted");
    assert_eq!(r.tests.len(), 1);
    assert_eq!(r.tests[0].status, Status::Pass);
    assert_eq!(r.tests[0].status.code(), "AC");
    assert_eq!(r.tests[0].message, "Test passed successfully");
    assert_eq!(r.tests[0].time_ms, 5);
}

#[test]
fn python_sum_wrong_answer() {
    let r = evaluate(&vec![ran("sum", "7", "8\n")]);
    assert_eq!(r.verdict, Verdict::Rejected);
    assert_eq!(r.tests[0].status, Status::WrongAnswer);
    assert_eq!(r.tests[0].status.code(), "WA");
    assert!(r.tests[0].message.contains("Expected: '7', Got: '8'"));
}

#[test]
fn sql_delete_rejected() {
    let outcome = check_query("delete from t;");
    assert_eq!(outcome, Err("Only SELECT queries are supported in demo mode".to_string()));
    let r = query_result(&outcome, 2);
    assert_eq!(r.verdict, Verdict::Rejected);
    assert_eq!(r.tests.len(), 1);
    assert_eq!(r.tests[0].name, "query");
    assert_eq!(r.tests[0].status, Status::RuntimeError);
    assert!(r.tests[0].message.contains("Only SELECT queries are supported"));
}

#[test]
fn sql_select_accepted_case_insensitively() {
    let outcome = check_query("  select * from t;\n");
    assert_eq!(outcome, Ok("select * from t;".to_string()));
    let r = query_result(&outcome, 4);
    assert_eq!(r.verdict, Verdict::Accepted);
    assert_eq!(r.tests[0].status, Status::Pass);
    assert_eq!(r.tests[0].time_ms, 4);
    assert_eq!(r.tests[0].message, "Query executed successfully: select * from t;");
}

#[test]
fn sql_empty_rejected() {
    assert!(check_query("   \n").is_err());
}

#[test]
fn sql_long_query_message_truncated() {
    let q = format!("SELECT {}", "x".repeat(100));
    let r = query_result(&Ok(q.clone()), 0);
    let expected = format!("Query executed successfully: {}", &q[..50]);
    assert_eq!(r.tests[0].message, expected);
}

#[test]
fn query_decision_uses_upper_form() {
    assert_eq!(query_decision("select 1", "SELECT 1"), Ok("select 1".to_string()));
    assert!(query_decision("select 1", "select 1").is_err());
}

#[test]
fn missing_public_directory_is_error() {
    let r = missing_tests_result();
    assert_eq!(r.verdict, Verdict::Error);
    assert_eq!(r.tests.len(), 1);
    assert_eq!(r.tests[0].name, "error");
    assert_eq!(r.tests[0].status, Status::InternalError);
    assert_eq!(r.tests[0].status.code(), "IE");
    assert_eq!(r.tests[0].time_ms, 0);
    assert_eq!(r.tests[0].message, "Test cases not found");
}

#[test]
fn all_matching_outputs_accepted() {
    let r = evaluate(&vec![ran("a", " 1 2 \n", "1 2"), ran("b", "x\ny", "\tx\ny\n\n")]);
    assert_eq!(r.verdict, Verdict::Accepted);
    assert!(r.tests.iter().all(|t| t.status == Status::Pass));
}

#[test]
fn internal_whitespace_is_significant() {
    let r = evaluate(&vec![ran("a", "1 2", "1  2")]);
    assert_eq!(r.tests[0].status, Status::WrongAnswer);
    assert_eq!(r.tests[0].message, "Expected: '1 2', Got: '1  2'");
}

#[test]
fn empty_run_is_accepted() {
    let r = evaluate(&vec![]);
    assert_eq!(r.verdict, Verdict::Accepted);
    assert!(r.tests.is_empty());
}

#[test]
fn runtime_failure_rejects() {
    let r = evaluate(&vec![ran("a", "1", "1"), failed("b", "Python execution failed: boom")]);
    assert_eq!(r.verdict, Verdict::Rejected);
    assert_eq!(r.tests[1].status, Status::RuntimeError);
    assert_eq!(r.tests[1].status.code(), "RE");
    assert_eq!(r.tests[1].message, "Runtime error: Python execution failed: boom");
    assert_eq!(r.tests[1].time_ms, 3);
}

#[test]
fn missing_expected_forces_error() {
    let r = evaluate(&vec![failed("a", "x"), missing("b"), ran("c", "1", "2")]);
    assert_eq!(r.verdict, Verdict::Error);
    assert_eq!(r.verdict.token(), "Error");
    assert_eq!(r.tests.len(), 3);
    assert_eq!(r.tests[1].name, "b");
    assert_eq!(r.tests[1].status, Status::InternalError);
    assert_eq!(r.tests[1].message, "Expected output file missing");
    assert_eq!(r.tests[1].time_ms, 0);
    assert_eq!(r.tests[2].status, Status::WrongAnswer);
}

#[test]
fn compile_failure_rejects_every_test() {
    let report = ProcessReport {
        success: false,
        stdout: String::new(),
        stderr: "syntax error".to_string(),
    };
    let message = match after_build(Language::Cpp, &report) {
        RunnerAction::Finish(Err(m)) => m,
        _ => panic!("a failed build must finish the runner"),
    };
    assert_eq!(message, "Compilation failed: syntax error");
    let r = evaluate(&vec![failed("a", &message), failed("b", &message)]);
    assert_eq!(r.verdict, Verdict::Rejected);
    assert!(r.tests.iter().all(|t| t.status == Status::RuntimeError));
}

#[test]
fn grading_twice_gives_same_outcome() {
    let cases = vec![ran("a", "1", "1"), ran("b", "1", "2"), failed("c", "e")];
    let first = evaluate(&cases);
    let again = evaluate(&cases);
    assert_eq!(first.verdict, again.verdict);
    for (x, y) in first.tests.iter().zip(again.tests.iter()) {
        assert_eq!(x.status, y.status);
        assert_eq!(x.message, y.message);
    }
}

#[test]
fn single_case_grading() {
    let t = grade_case(&ran("n", "ok", "ok"));
    assert_eq!(t.name, "n");
    assert_eq!(t.status, Status::Pass);
}

#[test]
fn severity_order() {
    assert_eq!(worse_of(Verdict::Accepted, Verdict::Rejected), Verdict::Rejected);
    assert_eq!(worse_of(Verdict::Error, Verdict::Rejected), Verdict::Error);
    assert_eq!(worse_of(Verdict::Accepted, Verdict::Accepted), Verdict::Accepted);
}

#[test]
fn language_tags() {
    assert_eq!(parse_language("cpp"), Some(Language::Cpp));
    assert_eq!(parse_language("c"), Some(Language::C));
    assert_eq!(parse_language("java"), Some(Language::Java));
    assert_eq!(parse_language("bash"), Some(Language::Bash));
    assert_eq!(parse_language("sh"), Some(Language::Bash));
    assert_eq!(parse_language("sql"), Some(Language::Sql));
    assert_eq!(parse_language("rust"), None);
    assert_eq!(parse_language("Python"), None);
    assert_eq!(parse_language(""), None);
}

#[test]
fn language_conventions() {
    assert_eq!(Language::Python.entry_point(), "Main.py");
    assert_eq!(Language::C.entry_point(), "Main.c");
    assert_eq!(Language::Cpp.entry_point(), "Main.cpp");
    assert_eq!(Language::Java.entry_point(), "Main.java");
    assert_eq!(Language::Bash.entry_point(), "script.sh");
    assert_eq!(Language::Sql.entry_point(), "code.txt");
    assert_eq!(Language::Python.build_step(), BuildStep::NoBuild);
    assert_eq!(Language::Java.build_step(), BuildStep::Compile);
    assert_eq!(Language::Bash.build_step(), BuildStep::MakeExecutable);
    assert!(Language::Python.uses_file_tests());
    assert!(!Language::Sql.uses_file_tests());
    assert_eq!(Language::Cpp.display_name(), "C++");
}

#[test]
fn runner_steps() {
    match after_entry_check(Language::Python, false) {
        RunnerAction::Finish(Err(m)) => assert_eq!(m, "Main.py not found"),
        _ => panic!("missing entry point must finish the runner"),
    }
    assert!(matches!(after_entry_check(Language::Python, true), RunnerAction::Execute));
    assert!(matches!(after_entry_check(Language::Java, true), RunnerAction::Build));
    let chmod = ProcessReport { success: false, stdout: String::new(), stderr: "denied".to_string() };
    match after_build(Language::Bash, &chmod) {
        RunnerAction::Finish(Err(m)) => assert_eq!(m, "Failed to make script executable: denied"),
        _ => panic!("a failed chmod must finish the runner"),
    }
    let ok = ProcessReport { success: true, stdout: "7\n".to_string(), stderr: String::new() };
    assert!(matches!(after_build(Language::C, &ok), RunnerAction::Execute));
    assert_eq!(after_execute(Language::Python, &ok), Ok("7\n".to_string()));
    let bad = ProcessReport { success: false, stdout: "x".to_string(), stderr: "trace".to_string() };
    assert_eq!(after_execute(Language::Java, &bad), Err("Java execution failed: trace".to_string()));
}

#[test]
fn file_name_rules() {
    assert_eq!(file_extension("a.in"), Some("in".to_string()));
    assert_eq!(file_extension("a.b.csv"), Some("csv".to_string()));
    assert_eq!(file_extension(".in"), None);
    assert_eq!(file_extension("noext"), None);
    assert_eq!(file_extension(".."), None);
    assert_eq!(file_extension("a."), Some(String::new()));
    assert!(is_test_input_file("1.in"));
    assert!(!is_test_input_file("1.out"));
    assert!(!is_test_input_file(".in"));
    assert_eq!(test_name_of("sample.in"), "sample");
    assert_eq!(test_name_of("a.in.in"), "a");
    assert_eq!(expected_output_file("sample.in"), "sample.out");
    assert_eq!(expected_output_file("x.y.in"), "x.y.out");
    assert_eq!(expected_output_file("noext"), "noext.out");
}

#[test]
fn staging_filters() {
    assert!(is_public_data_file("train.csv"));
    assert!(is_public_data_file("a.json"));
    assert!(!is_public_data_file("1.in"));
    assert!(!is_public_data_file("helper.py"));
    assert!(is_upload_support_file("helper.py"));
    assert!(is_upload_support_file("book.xlsx"));
    assert!(is_upload_support_file("notes.txt"));
    assert!(!is_upload_support_file("image.png"));
}

#[test]
fn discovery_selects_inputs() {
    let names: Vec<String> =
        vec!["2.in", "2.out", "data.csv", "1.in", ".in"].into_iter().map(String::from).collect();
    let r = select_test_inputs(&names);
    assert_eq!(r, vec!["1.in".to_string(), "2.in".to_string()]);
}

#[test]
fn discovery_orders_by_test_name() {
    let names: Vec<String> = vec!["a-b.in", "a.in"].into_iter().map(String::from).collect();
    let r = select_test_inputs(&names);
    assert_eq!(r, vec!["a.in".to_string(), "a-b.in".to_string()]);
    let ordered: Vec<String> = r.iter().map(|n| test_name_of(n)).collect();
    assert_eq!(ordered, vec!["a".to_string(), "a-b".to_string()]);
}

#[test]
fn text_helpers() {
    assert_eq!(trim_text("  a b \n"), "a b");
    assert_eq!(trim_text("\u{3000}x\u{a0}"), "x");
    assert_eq!(trim_text(" \t\n"), "");
    assert_eq!(take_chars("héllo", 2), "hé");
    assert_eq!(take_chars("ab", 5), "ab");
    assert!(starts_with_text("SELECT 1", "SELECT"));
    assert!(!starts_with_text("SEL", "SELECT"));
    assert!(same_text("abc", "abc"));
    assert!(!same_text("abc", "abd"));
}

#[test]
fn runner_results_become_observations() {
    match observe_run("7".to_string(), Ok("7\n".to_string()), 9) {
        Observation::Ran { expected, actual, time_ms } => {
            assert_eq!(expected, "7");
            assert_eq!(actual, "7\n");
            assert_eq!(time_ms, 9);
        }
        _ => panic!("a successful run is recorded as ran"),
    }
    match observe_run("7".to_string(), Err("Main.py not found".to_string()), 1) {
        Observation::RunFailed { message, time_ms } => {
            assert_eq!(message, "Main.py not found");
            assert_eq!(time_ms, 1);
        }
        _ => panic!("a failed run is recorded as failed"),
    }
}
