//! Supported languages and the decisions a language runner makes between
//! its process steps.
use vstd::prelude::*;
use vstd::string::StringExecFns;
use crate::text::same_text;

verus! {

#[derive(Clone, Copy, Debug, PartialEq, Eq, Structural)]
pub enum Language {
    Python,
    Cpp,
    C,
    Java,
    Bash,
    Sql,
}

/// The step a runner takes between finding the entry point and running it.
#[derive(Clone, Copy, Debug, PartialEq, Eq, Structural)]
pub enum BuildStep {
    NoBuild,
    Compile,
    MakeExecutable,
}

/// What a child process left behind once it exited.
pub struct ProcessReport {
    pub success: bool,
    pub stdout: String,
    pub stderr: String,
}

/// What the runner does next.
pub enum RunnerAction {
    Build,
    Execute,
    /// The runner is done: program output, or a failure diagnostic.
    Finish(Result<String, String>),
}

pub open spec fn language_of(tag: Seq<char>) -> Option<Language> {
    if tag == "python"@ {
        Some(Language::Python)
    } else if tag == "cpp"@ {
        Some(Language::Cpp)
    } else if tag == "c"@ {
        Some(Language::C)
    } else if tag == "java"@ {
        Some(Language::Java)
    } else if tag == "bash"@ || tag == "sh"@ {
        Some(Language::Bash)
    } else if tag == "sql"@ {
        Some(Language::Sql)
    } else {
        None
    }
}

/// Maps a job's language tag to a supported language; `None` marks the job as malformed.
pub fn parse_language(tag: &str) -> (r: Option<Language>)
    ensures
        r == language_of(tag@),
{
    if same_text(tag, "python") {
        Some(Language::Python)
    } else if same_text(tag, "cpp") {
        Some(Language::Cpp)
    } else if same_text(tag, "c") {
        Some(Language::C)
    } else if same_text(tag, "java") {
        Some(Language::Java)
    } else if same_text(tag, "bash") || same_text(tag, "sh") {
        Some(Language::Bash)
    } else if same_text(tag, "sql") {
        Some(Language::Sql)
    } else {
        None
    }
}

impl Language {
    pub open spec fn spec_entry_point(self) -> Seq<char> {
        match self {
            Language::Python => "Main.py"@,
            Language::Cpp => "Main.cpp"@,
            Language::C => "Main.c"@,
            Language::Java => "Main.java"@,
            Language::Bash => "script.sh"@,
            Language::Sql => "code.txt"@,
        }
    }

    /// The file name the submission's main source must have.
    pub fn entry_point(&self) -> (r: String)
        ensures
            r@ == self.spec_entry_point(),
    {
        match self {
            Language::Python => String::from_str("Main.py"),
            Language::Cpp => String::from_str("Main.cpp"),
            Language::C => String::from_str("Main.c"),
            Language::Java => String::from_str("Main.java"),
            Language::Bash => String::from_str("script.sh"),
            Language::Sql => String::from_str("code.txt"),
        }
    }

    pub open spec fn spec_build_step(self) -> BuildStep {
        match self {
            Language::Cpp | Language::C | Language::Java => BuildStep::Compile,
            Language::Bash => BuildStep::MakeExecutable,
            _ => BuildStep::NoBuild,
        }
    }

    pub fn build_step(&self) -> (r: BuildStep)
        ensures
            r == self.spec_build_step(),
    {
        match self {
            Language::Cpp | Language::C | Language::Java => BuildStep::Compile,
            Language::Bash => BuildStep::MakeExecutable,
            _ => BuildStep::NoBuild,
        }
    }

    pub open spec fn spec_uses_file_tests(self) -> bool {
        self != Language::Sql
    }

    /// Whether the language is graded against discovered input/output files
    /// rather than by a single static check.
    pub fn uses_file_tests(&self) -> (r: bool)
        ensures
            r == self.spec_uses_file_tests(),
    {
        match self {
            Language::Sql => false,
            _ => true,
        }
    }

    pub open spec fn spec_display_name(self) -> Seq<char> {
        match self {
            Language::Python => "Python"@,
            Language::Cpp => "C++"@,
            Language::C => "C"@,
            Language::Java => "Java"@,
            Language::Bash => "Bash"@,
            Language::Sql => "SQL"@,
        }
    }

    pub fn display_name(&self) -> (r: String)
        ensures
            r@ == self.spec_display_name(),
    {
        match self {
            Language::Python => String::from_str("Python"),
            Language::Cpp => String::from_str("C++"),
            Language::C => String::from_str("C"),
            Language::Java => String::from_str("Java"),
            Language::Bash => String::from_str("Bash"),
            Language::Sql => String::from_str("SQL"),
        }
    }
}

/// The runner's step once it knows whether the entry point exists.
pub fn after_entry_check(lang: Language, present: bool) -> (r: RunnerAction)
    ensures
        !present ==> (r matches RunnerAction::Finish(Err(m)) && m@ == lang.spec_entry_point()
            + " not found"@),
        present && lang.spec_build_step() == BuildStep::NoBuild ==> r is Execute,
        present && lang.spec_build_step() != BuildStep::NoBuild ==> r is Build,
{
    if !present {
        let mut m = lang.entry_point();
        m.append(" not found");
        RunnerAction::Finish(Err(m))
    } else {
        match lang.build_step() {
            BuildStep::NoBuild => RunnerAction::Execute,
            _ => RunnerAction::Build,
        }
    }
}

pub open spec fn build_failure_prefix(step: BuildStep) -> Seq<char> {
    if step == BuildStep::MakeExecutable {
        "Failed to make script executable: "@
    } else {
        "Compilation failed: "@
    }
}

/// The runner's step once the build step's process has exited.
pub fn after_build(lang: Language, report: &ProcessReport) -> (r: RunnerAction)
    ensures
        report.success ==> r is Execute,
        !report.success ==> (r matches RunnerAction::Finish(Err(m)) && m@ == build_failure_prefix(
            lang.spec_build_step(),
        ) + report.stderr@),
{
    if report.success {
        RunnerAction::Execute
    } else {
        let mut m = match lang.build_step() {
            BuildStep::MakeExecutable => String::from_str("Failed to make script executable: "),
            _ => String::from_str("Compilation failed: "),
        };
        m.append(report.stderr.as_str());
        RunnerAction::Finish(Err(m))
    }
}

/// The runner's result once the program's process has exited.
pub fn after_execute(lang: Language, report: &ProcessReport) -> (r: Result<String, String>)
    ensures
        report.success ==> (r matches Ok(out) && out@ == report.stdout@),
        !report.success ==> (r matches Err(m) && m@ == lang.spec_display_name()
            + " execution failed: "@ + report.stderr@),
{
    if report.success {
        Ok(String::from_str(report.stdout.as_str()))
    } else {
        let mut m = lang.display_name();
        m.append(" execution failed: ");
        m.append(report.stderr.as_str());
        Err(m)
    }
}

} // verus!
