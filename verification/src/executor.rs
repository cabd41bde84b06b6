//! The check execution engine.
//!
//! Running a check takes one look at the host: whether a path exists, what a
//! file holds, which processes run, whether a port can be bound, what a
//! command prints. The engine does not look itself. It says which look a check
//! needs (`Probe`), and turns what was seen (`Observation`) into an outcome.
//! Between the two stands whoever can reach the host.
//!
//! `fail` means that the check ran and found a problem; `error` means that it
//! could not be evaluated as specified; `skipped` means that its kind does not
//! apply on this platform.
//!
//! A `command_output` check asks for its command to be run by the platform
//! shell, as it is written: parameters are trusted, not sanitised.

use crate::checks::{parsed, CheckType, CheckTypeId, CheckTypeView};
use crate::models::CheckStatus;
use crate::params::{fault_message, ParamValue};
use crate::pattern::{capture_group, captured, escaped, is_match, matched, pattern_fault};
use crate::protocol::AgentCheckDefinition;
use crate::text::{
    contains_text, decimal, decimal_text, join2, join3, leading_chars, lowercase, occurs_in,
    starts_with_text, strip_leading, text_of, trimmed, without_leading,
};
use vstd::prelude::*;
use vstd::string::*;

verus! {

/// What a check came to.
#[derive(Debug)]
pub struct CheckExecutionResult {
    pub status: CheckStatus,
    pub message: Option<String>,
}

/// An outcome as contracts speak of it.
pub struct Outcome {
    pub status: CheckStatus,
    pub message: Option<Seq<char>>,
}

impl View for CheckExecutionResult {
    type V = Outcome;

    open spec fn view(&self) -> Outcome {
        Outcome { status: self.status, message: text_of(self.message) }
    }
}

impl Outcome {
    pub open spec fn pass(message: Seq<char>) -> Outcome {
        Outcome { status: CheckStatus::Pass, message: Some(message) }
    }

    pub open spec fn fail(message: Seq<char>) -> Outcome {
        Outcome { status: CheckStatus::Fail, message: Some(message) }
    }

    pub open spec fn error(message: Seq<char>) -> Outcome {
        Outcome { status: CheckStatus::Error, message: Some(message) }
    }

    pub open spec fn skipped(message: Seq<char>) -> Outcome {
        Outcome { status: CheckStatus::Skipped, message: Some(message) }
    }
}

impl CheckExecutionResult {
    /// The check ran and found what it asked for.
    pub fn pass(message: Option<String>) -> (r: CheckExecutionResult)
        ensures
            r.status == CheckStatus::Pass,
            r.message == message,
    {
        CheckExecutionResult { status: CheckStatus::Pass, message }
    }

    /// The check ran and found a problem.
    pub fn fail(message: String) -> (r: CheckExecutionResult)
        ensures
            r.status == CheckStatus::Fail,
            r.message == Some(message),
    {
        CheckExecutionResult { status: CheckStatus::Fail, message: Some(message) }
    }

    /// The check could not be evaluated as specified.
    pub fn error(message: String) -> (r: CheckExecutionResult)
        ensures
            r.status == CheckStatus::Error,
            r.message == Some(message),
    {
        CheckExecutionResult { status: CheckStatus::Error, message: Some(message) }
    }

    /// The kind of the check does not apply on this platform.
    pub fn skipped(message: String) -> (r: CheckExecutionResult)
        ensures
            r.status == CheckStatus::Skipped,
            r.message == Some(message),
    {
        CheckExecutionResult { status: CheckStatus::Skipped, message: Some(message) }
    }
}

/// The registry hives that a check can name.
#[derive(Debug, Clone, Copy, PartialEq, Eq, Structural)]
pub enum RegistryHive {
    LocalMachine,
    CurrentUser,
}

/// The look at the host that a check needs.
#[derive(Debug)]
pub enum Probe {
    /// Does anything exist at `path`?
    PathExists { path: String },
    /// What does the file at `path` hold, read as text?
    ReadFile { path: String },
    /// Does the key exist, and what does the named value hold?
    RegistryValue { hive: RegistryHive, subkey: String, value_name: Option<String> },
    /// What are the names of the running processes?
    ProcessList,
    /// Can a listening socket be bound to `127.0.0.1` and `port`?
    BindPort { port: u16 },
    /// What does `command` print when the platform shell runs it?
    RunCommand { command: String },
}

/// What a command printed.
#[derive(Debug)]
pub struct CommandRun {
    pub stdout: String,
    pub stderr: String,
}

/// What was found in the registry. `value` is there where a value was asked
/// for: what it holds, or why it could not be read.
#[derive(Debug)]
pub enum RegistryReading {
    KeyMissing { error: String },
    KeyFound { value: Option<Result<String, String>> },
}

/// What a look at the host showed. An `Err` holds the text of the failure.
#[derive(Debug)]
pub enum Observation {
    Path { exists: bool },
    File(Result<String, String>),
    Registry(RegistryReading),
    Processes(Vec<String>),
    Port { bind_succeeded: bool },
    Command(Result<CommandRun, String>),
}

/// The message of an observation that does not answer the check at hand.
pub open spec fn unanswered() -> Seq<char> {
    "Observation does not answer the check"@
}

// ---------------------------------------------------------------------------
// file_exists
// ---------------------------------------------------------------------------

/// A file_exists check passes exactly when the path exists.
pub open spec fn file_exists_outcome(path: Seq<char>, exists: bool) -> Outcome {
    if exists {
        Outcome::pass("File exists: "@ + path)
    } else {
        Outcome::fail("File not found: "@ + path)
    }
}

/// The verdict of a file_exists check, given whether the path exists.
pub fn file_exists_verdict(path: &str, exists: bool) -> (r: CheckExecutionResult)
    ensures
        r@ == file_exists_outcome(path@, exists),
{
    if exists {
        CheckExecutionResult::pass(Some(join2("File exists: ", path)))
    } else {
        CheckExecutionResult::fail(join2("File not found: ", path))
    }
}

// ---------------------------------------------------------------------------
// file_content
// ---------------------------------------------------------------------------

/// How a report says whether the pattern was found.
pub open spec fn found_word(matched: bool) -> Seq<char> {
    if matched {
        "found"@
    } else {
        "not found"@
    }
}

/// How a report says which match state was expected.
pub open spec fn expected_word(should_match: bool) -> Seq<char> {
    if should_match {
        "match"@
    } else {
        "no match"@
    }
}

/// A file_content check passes exactly when the pattern's match state equals
/// `should_match`.
pub open spec fn content_outcome(matched: bool, should_match: bool) -> Outcome {
    if matched == should_match {
        Outcome::pass("Pattern "@ + found_word(matched) + " in file"@)
    } else {
        Outcome::fail(
            "Pattern "@ + found_word(matched) + " in file (expected "@ + expected_word(
                should_match,
            ) + ")"@,
        )
    }
}

/// The outcome of a file_content check, given what reading the file gave.
/// The file is read before the pattern is compiled: an unreadable file is
/// reported even where the pattern is invalid too.
pub open spec fn file_content_outcome(
    path: Seq<char>,
    pattern: Seq<char>,
    should_match: bool,
    read: Result<Seq<char>, Seq<char>>,
) -> Outcome {
    match read {
        Err(e) => Outcome::error("Failed to read file "@ + path + ": "@ + e),
        Ok(content) => match pattern_fault(pattern) {
            Some(refusal) => Outcome::error("Invalid regex pattern: "@ + refusal),
            None => content_outcome(matched(pattern, content), should_match),
        },
    }
}

/// The verdict on a file's content, given whether the pattern matched it.
pub fn content_verdict(matched: bool, should_match: bool) -> (r: CheckExecutionResult)
    ensures
        r@ == content_outcome(matched, should_match),
{
    let word = if matched {
        "found"
    } else {
        "not found"
    };
    if matched == should_match {
        CheckExecutionResult::pass(Some(join3("Pattern ", word, " in file")))
    } else {
        let expected = if should_match {
            "match"
        } else {
            "no match"
        };
        let mut m = join3("Pattern ", word, " in file (expected ");
        m.append(expected);
        m.append(")");
        CheckExecutionResult::fail(m)
    }
}

/// The report of a pattern that does not compile, given the message of the
/// error.
pub fn invalid_pattern(refusal: &str) -> (r: CheckExecutionResult)
    ensures
        r@ == Outcome::error("Invalid regex pattern: "@ + refusal@),
{
    CheckExecutionResult::error(join2("Invalid regex pattern: ", refusal))
}

/// The verdict of a file_content check, given what reading the file gave.
pub fn file_content_verdict(
    path: &str,
    pattern: &str,
    should_match: bool,
    read: &Result<String, String>,
) -> (r: CheckExecutionResult)
    ensures
        r@ == file_content_outcome(
            path@,
            pattern@,
            should_match,
            match *read {
                Ok(s) => Ok(s@),
                Err(e) => Err(e@),
            },
        ),
{
    match read {
        Err(e) => {
            let mut m = join3("Failed to read file ", path, ": ");
            m.append(e.as_str());
            CheckExecutionResult::error(m)
        },
        Ok(content) => match is_match(pattern, content.as_str()) {
            Err(refusal) => invalid_pattern(refusal.as_str()),
            Ok(found) => content_verdict(found, should_match),
        },
    }
}

// ---------------------------------------------------------------------------
// config_setting
// ---------------------------------------------------------------------------

/// The pattern that finds the line of a setting: the key at the start of a
/// line, `=` or `:`, and the value up to the end of the line.
pub open spec fn setting_pattern(key: Seq<char>) -> Seq<char> {
    "(?m)^\\s*"@ + escaped(key) + "\\s*[=:]\\s*(.*)$"@
}

/// The verdict on a setting, given the value of the first line of the key,
/// trimmed, if there is such a line. No matching line is a failure of the
/// check, not an error.
pub open spec fn setting_value_outcome(
    file: Seq<char>,
    key: Seq<char>,
    expected: Seq<char>,
    value: Option<Seq<char>>,
) -> Outcome {
    match value {
        None => Outcome::fail("Config setting not found: "@ + key + " in "@ + file),
        Some(value) => if value == expected {
            Outcome::pass("Config setting matches: "@ + key + " = "@ + value)
        } else {
            Outcome::fail(
                "Config setting mismatch: "@ + key + " = "@ + value + " (expected "@ + expected
                    + ")"@,
            )
        },
    }
}

/// The value that a capture stands for: what the group holds, trimmed, and
/// the empty text where the group took no part in the match.
pub open spec fn captured_value(capture: Option<Option<Seq<char>>>) -> Option<Seq<char>> {
    match capture {
        None => None,
        Some(Some(g)) => Some(trimmed(g)),
        Some(None) => Some(Seq::empty()),
    }
}

/// The verdict on a setting, given what the first matching line captured.
pub open spec fn setting_outcome(
    file: Seq<char>,
    key: Seq<char>,
    expected: Seq<char>,
    capture: Option<Option<Seq<char>>>,
) -> Outcome {
    setting_value_outcome(file, key, expected, captured_value(capture))
}

/// The outcome of a config_setting check, given what reading the file gave.
/// Only the first matching line is consulted.
pub open spec fn config_setting_outcome(
    file: Seq<char>,
    key: Seq<char>,
    expected: Seq<char>,
    read: Result<Seq<char>, Seq<char>>,
) -> Outcome {
    match read {
        Err(e) => Outcome::error("Failed to read config file "@ + file + ": "@ + e),
        Ok(content) => match pattern_fault(setting_pattern(key)) {
            Some(_) => setting_outcome(file, key, expected, None),
            None => setting_outcome(file, key, expected, captured(setting_pattern(key), content, 1)),
        },
    }
}

/// The verdict on a setting, given the value of the first line of the key,
/// trimmed, if there is such a line.
pub fn setting_value_verdict(file: &str, key: &str, expected: &str, value: Option<&str>) -> (r:
    CheckExecutionResult)
    ensures
        r@ == setting_value_outcome(
            file@,
            key@,
            expected@,
            match value {
                Some(v) => Some(v@),
                None => None,
            },
        ),
{
    match value {
        None => {
            let mut m = join3("Config setting not found: ", key, " in ");
            m.append(file);
            CheckExecutionResult::fail(m)
        },
        Some(value) => if value.eq(expected) {
            let mut m = join3("Config setting matches: ", key, " = ");
            m.append(value);
            CheckExecutionResult::pass(Some(m))
        } else {
            let mut m = join3("Config setting mismatch: ", key, " = ");
            m.append(value);
            m.append(" (expected ");
            m.append(expected);
            m.append(")");
            CheckExecutionResult::fail(m)
        },
    }
}

/// The verdict on a setting, given what the first matching line captured:
/// the captured text is trimmed, and the verdict is that on the value.
pub fn setting_verdict(
    file: &str,
    key: &str,
    expected: &str,
    capture: &Option<Option<String>>,
) -> (r: CheckExecutionResult)
    ensures
        r@ == setting_outcome(
            file@,
            key@,
            expected@,
            match *capture {
                None => None,
                Some(None) => Some(None),
                Some(Some(g)) => Some(Some(g@)),
            },
        ),
{
    proof {
        reveal_strlit("");
        assert(""@ =~= Seq::<char>::empty());
    }
    match capture {
        None => setting_value_verdict(file, key, expected, None),
        Some(None) => setting_value_verdict(file, key, expected, Some("")),
        Some(Some(g)) => setting_value_verdict(file, key, expected, Some(g.as_str().trim())),
    }
}

/// The verdict of a config_setting check, given what reading the file gave.
pub fn config_setting_verdict(
    file: &str,
    key: &str,
    expected: &str,
    read: &Result<String, String>,
) -> (r: CheckExecutionResult)
    ensures
        r@ == config_setting_outcome(
            file@,
            key@,
            expected@,
            match *read {
                Ok(s) => Ok(s@),
                Err(e) => Err(e@),
            },
        ),
{
    match read {
        Err(e) => {
            let mut m = join3("Failed to read config file ", file, ": ");
            m.append(e.as_str());
            CheckExecutionResult::error(m)
        },
        Ok(content) => {
            let key_pattern = regex::escape(key);
            let pattern = join3("(?m)^\\s*", key_pattern.as_str(), "\\s*[=:]\\s*(.*)$");
            match capture_group(pattern.as_str(), content.as_str(), 1) {
                Err(_) => setting_verdict(file, key, expected, &None),
                Ok(capture) => setting_verdict(file, key, expected, &capture),
            }
        },
    }
}

// ---------------------------------------------------------------------------
// process_running
// ---------------------------------------------------------------------------

/// A process counts as the one looked for when its name, in lowercase,
/// contains the lowercase target: `MyApp.exe` is found by `myapp`.
pub open spec fn process_matches(target: Seq<char>, process: Seq<char>) -> bool {
    occurs_in(lowercase(target), lowercase(process))
}

/// The first process in the list that matches the target.
pub open spec fn first_running(target: Seq<char>, processes: Seq<String>) -> Option<Seq<char>>
    decreases processes.len(),
{
    if processes.len() == 0 {
        None
    } else if process_matches(target, processes[0]@) {
        Some(processes[0]@)
    } else {
        first_running(target, processes.skip(1))
    }
}

/// A process_running check passes exactly when some running process matches.
pub open spec fn process_running_outcome(target: Seq<char>, processes: Seq<String>) -> Outcome {
    found_process_outcome(target, first_running(target, processes))
}

/// The name of a process, and the name in lowercase.
#[derive(Debug)]
pub struct LoweredName {
    pub name: String,
    pub lowered: String,
}

/// The name of the first process whose lowercase name contains the target,
/// which is in lowercase too.
pub open spec fn first_containing(lowered_target: Seq<char>, names: Seq<LoweredName>) -> Option<
    Seq<char>,
>
    decreases names.len(),
{
    if names.len() == 0 {
        None
    } else if occurs_in(lowered_target, names[0].lowered@) {
        Some(names[0].name@)
    } else {
        first_containing(lowered_target, names.skip(1))
    }
}

/// The verdict on a process that was looked for, given the name that was
/// found, if one was.
pub open spec fn found_process_outcome(target: Seq<char>, found: Option<Seq<char>>) -> Outcome {
    match found {
        Some(name) => Outcome::pass("Process is running: "@ + name),
        None => Outcome::fail("Process not running: "@ + target),
    }
}

/// Looking among names in lowercase finds the process that matches: where
/// `names` holds each process with its name in lowercase, the first name
/// that contains the lowercase target is the first process that matches.
pub proof fn lowering_finds_the_match(
    target: Seq<char>,
    processes: Seq<String>,
    names: Seq<LoweredName>,
)
    requires
        names.len() == processes.len(),
        forall|i: int|
            0 <= i < names.len() ==> (#[trigger] names[i]).name@ == processes[i]@ && names[i].lowered@
                == lowercase(processes[i]@),
    ensures
        first_containing(lowercase(target), names) == first_running(target, processes),
    decreases names.len(),
{
    if names.len() > 0 {
        assert(names[0].name@ == processes[0]@);
        let rest = names.skip(1);
        let others = processes.skip(1);
        assert forall|i: int| 0 <= i < rest.len() implies (#[trigger] rest[i]).name@ == others[i]@
            && rest[i].lowered@ == lowercase(others[i]@) by {
            assert(rest[i] == names[i + 1]);
            assert(others[i] == processes[i + 1]);
        }
        lowering_finds_the_match(target, others, rest);
    }
}

/// The verdict of a process_running check, given the target in lowercase and
/// each process with its name in lowercase. The report names the first
/// process whose lowercase name contains the lowercase target.
pub fn lowered_process_verdict(target: &str, lowered_target: &str, names: &Vec<LoweredName>) -> (r:
    CheckExecutionResult)
    ensures
        r@ == found_process_outcome(target@, first_containing(lowered_target@, names@)),
{
    let mut i: usize = 0;
    assert(names@.skip(0) =~= names@);
    while i < names.len()
        invariant
            i <= names.len(),
            first_containing(lowered_target@, names@) == first_containing(
                lowered_target@,
                names@.skip(i as int),
            ),
        decreases names.len() - i,
    {
        if contains_text(names[i].lowered.as_str(), lowered_target) {
            return CheckExecutionResult::pass(
                Some(join2("Process is running: ", names[i].name.as_str())),
            );
        }
        assert(names@.skip(i as int).skip(1) =~= names@.skip(i + 1));
        i += 1;
    }
    CheckExecutionResult::fail(join2("Process not running: ", target))
}

/// The verdict of a process_running check, given the names of the running
/// processes: the target and the names are put in lowercase, and the verdict
/// is that on the lowercase names. The report names the first process that
/// matches.
pub fn process_running_verdict(target: &str, processes: &Vec<String>) -> (r: CheckExecutionResult)
    ensures
        r@ == process_running_outcome(target@, processes@),
{
    let lowered_target = target.to_lowercase();
    let mut names: Vec<LoweredName> = Vec::new();
    let mut i: usize = 0;
    while i < processes.len()
        invariant
            i <= processes.len(),
            names@.len() == i,
            forall|j: int|
                0 <= j < i ==> (#[trigger] names@[j]).name@ == processes@[j]@ && names@[j].lowered@
                    == lowercase(processes@[j]@),
        decreases processes.len() - i,
    {
        names.push(
            LoweredName {
                name: processes[i].clone(),
                lowered: processes[i].as_str().to_lowercase(),
            },
        );
        i += 1;
    }
    proof {
        lowering_finds_the_match(target@, processes@, names@);
    }
    lowered_process_verdict(target, lowered_target.as_str(), &names)
}

// ---------------------------------------------------------------------------
// port_open
// ---------------------------------------------------------------------------

/// A port counts as open when binding it fails, for whatever reason: the
/// check takes it that something holds the port already. It fails when the
/// port could be bound. The probe is approximate where others bind at the
/// same time.
pub open spec fn port_open_outcome(port: u16, bind_succeeded: bool) -> Outcome {
    if bind_succeeded {
        Outcome::fail("Port "@ + decimal(port as nat) + " is not open/listening"@)
    } else {
        Outcome::pass("Port "@ + decimal(port as nat) + " is open/listening"@)
    }
}

/// The verdict of a port_open check, given whether the port could be bound.
pub fn port_open_verdict(port: u16, bind_succeeded: bool) -> (r: CheckExecutionResult)
    ensures
        r@ == port_open_outcome(port, bind_succeeded),
{
    let number = decimal_text(port as u64);
    if bind_succeeded {
        CheckExecutionResult::fail(join3("Port ", number.as_str(), " is not open/listening"))
    } else {
        CheckExecutionResult::pass(Some(join3("Port ", number.as_str(), " is open/listening")))
    }
}

// ---------------------------------------------------------------------------
// command_output
// ---------------------------------------------------------------------------

/// The start of a text: its first 200 characters.
pub open spec fn excerpt(s: Seq<char>) -> Seq<char> {
    s.take(
        if s.len() <= 200 {
            s.len() as int
        } else {
            200
        },
    )
}

/// The verdict on what a command printed, given whether the pattern matched.
pub open spec fn output_outcome(matched: bool, combined: Seq<char>) -> Outcome {
    if matched {
        Outcome::pass("Command output matches expected pattern"@)
    } else {
        Outcome::fail("Command output does not match pattern. Output: "@ + excerpt(combined))
    }
}

/// The outcome of a command_output check, given what running the command
/// gave. The pattern is matched against standard output followed by standard
/// error.
pub open spec fn command_output_outcome(
    expected_pattern: Seq<char>,
    run: Result<(Seq<char>, Seq<char>), Seq<char>>,
) -> Outcome {
    match run {
        Err(e) => Outcome::error("Failed to execute command: "@ + e),
        Ok((stdout, stderr)) => match pattern_fault(expected_pattern) {
            Some(refusal) => Outcome::error("Invalid regex pattern: "@ + refusal),
            None => output_outcome(matched(expected_pattern, stdout + stderr), stdout + stderr),
        },
    }
}

/// The verdict on what a command printed, given whether the pattern matched
/// it.
pub fn output_verdict(matched: bool, combined: &str) -> (r: CheckExecutionResult)
    ensures
        r@ == output_outcome(matched, combined@),
{
    if matched {
        CheckExecutionResult::pass(
            Some(String::from_str("Command output matches expected pattern")),
        )
    } else {
        let start = leading_chars(combined, 200);
        CheckExecutionResult::fail(
            join2("Command output does not match pattern. Output: ", start.as_str()),
        )
    }
}

/// The verdict of a command_output check, given what running the command
/// gave.
pub fn command_output_verdict(expected_pattern: &str, run: &Result<CommandRun, String>) -> (r:
    CheckExecutionResult)
    ensures
        r@ == command_output_outcome(
            expected_pattern@,
            match *run {
                Ok(out) => Ok((out.stdout@, out.stderr@)),
                Err(e) => Err(e@),
            },
        ),
{
    match run {
        Err(e) => CheckExecutionResult::error(join2("Failed to execute command: ", e.as_str())),
        Ok(out) => {
            let combined = join2(out.stdout.as_str(), out.stderr.as_str());
            match is_match(expected_pattern, combined.as_str()) {
                Err(refusal) => invalid_pattern(refusal.as_str()),
                Ok(found) => output_verdict(found, combined.as_str()),
            }
        },
    }
}

// ---------------------------------------------------------------------------
// registry_key
// ---------------------------------------------------------------------------

/// The hive that a registry path names, and the key below it. A path starts
/// with the long or the short name of a hive and a backslash.
pub open spec fn registry_location(path: Seq<char>) -> Option<(RegistryHive, Seq<char>)> {
    if "HKEY_LOCAL_MACHINE\\"@.is_prefix_of(path) || "HKLM\\"@.is_prefix_of(path) {
        Some(
            (
                RegistryHive::LocalMachine,
                without_leading(without_leading(path, "HKEY_LOCAL_MACHINE\\"@), "HKLM\\"@),
            ),
        )
    } else if "HKEY_CURRENT_USER\\"@.is_prefix_of(path) || "HKCU\\"@.is_prefix_of(path) {
        Some(
            (
                RegistryHive::CurrentUser,
                without_leading(without_leading(path, "HKEY_CURRENT_USER\\"@), "HKCU\\"@),
            ),
        )
    } else {
        None
    }
}

/// What was read of a registry value, as texts.
pub enum ReadingView {
    KeyMissing { error: Seq<char> },
    KeyFound { value: Option<Result<Seq<char>, Seq<char>>> },
}

impl View for RegistryReading {
    type V = ReadingView;

    open spec fn view(&self) -> ReadingView {
        match *self {
            RegistryReading::KeyMissing { error } => ReadingView::KeyMissing { error: error@ },
            RegistryReading::KeyFound { value } => ReadingView::KeyFound {
                value: match value {
                    None => None,
                    Some(Ok(v)) => Some(Ok(v@)),
                    Some(Err(e)) => Some(Err(e@)),
                },
            },
        }
    }
}

/// The verdict on a registry value that was read.
pub open spec fn registry_value_outcome(
    value_name: Seq<char>,
    expected: Option<Seq<char>>,
    value: Result<Seq<char>, Seq<char>>,
) -> Outcome {
    match value {
        Err(e) => Outcome::fail("Registry value not found: "@ + value_name + " ("@ + e + ")"@),
        Ok(v) => match expected {
            None => Outcome::pass("Registry value exists: "@ + value_name + " = "@ + v),
            Some(wanted) => if v == wanted {
                Outcome::pass("Registry value matches: "@ + value_name + " = "@ + v)
            } else {
                Outcome::fail(
                    "Registry value mismatch: "@ + value_name + " = "@ + v + " (expected "@
                        + wanted + ")"@,
                )
            },
        },
    }
}

/// The outcome of a registry_key check on a platform that has a registry:
/// the key must exist; where a value is named, the value must exist; where a
/// content is expected, the value must hold it.
pub open spec fn registry_key_outcome(
    path: Seq<char>,
    value_name: Option<Seq<char>>,
    expected: Option<Seq<char>>,
    reading: ReadingView,
) -> Outcome {
    if registry_location(path) is None {
        Outcome::error("Unsupported registry hive in path: "@ + path)
    } else {
        match reading {
            ReadingView::KeyMissing { error } => Outcome::fail(
                "Registry key not found: "@ + path + " ("@ + error + ")"@,
            ),
            ReadingView::KeyFound { value } => match value_name {
                None => Outcome::pass("Registry key exists: "@ + path),
                Some(name) => match value {
                    None => Outcome::error(unanswered()),
                    Some(v) => registry_value_outcome(name, expected, v),
                },
            },
        }
    }
}

/// Takes a registry path apart into its hive and the key below it.
pub fn parse_registry_path(path: &str) -> (r: Option<(RegistryHive, String)>)
    ensures
        match r {
            Some((hive, subkey)) => registry_location(path@) == Some((hive, subkey@)),
            None => registry_location(path@) is None,
        },
{
    proof {
        reveal_strlit("HKEY_LOCAL_MACHINE\\");
        reveal_strlit("HKLM\\");
        reveal_strlit("HKEY_CURRENT_USER\\");
        reveal_strlit("HKCU\\");
    }
    if starts_with_text(path, "HKEY_LOCAL_MACHINE\\") || starts_with_text(path, "HKLM\\") {
        let rest = strip_leading(strip_leading(path, "HKEY_LOCAL_MACHINE\\"), "HKLM\\");
        Some((RegistryHive::LocalMachine, rest.to_string()))
    } else if starts_with_text(path, "HKEY_CURRENT_USER\\") || starts_with_text(path, "HKCU\\") {
        let rest = strip_leading(strip_leading(path, "HKEY_CURRENT_USER\\"), "HKCU\\");
        Some((RegistryHive::CurrentUser, rest.to_string()))
    } else {
        None
    }
}

/// The verdict on a registry value, given what reading it gave.
pub fn registry_value_verdict(
    value_name: &str,
    expected: &Option<String>,
    value: &Result<String, String>,
) -> (r: CheckExecutionResult)
    ensures
        r@ == registry_value_outcome(
            value_name@,
            text_of(*expected),
            match *value {
                Ok(v) => Ok(v@),
                Err(e) => Err(e@),
            },
        ),
{
    match value {
        Err(e) => {
            let mut m = join3("Registry value not found: ", value_name, " (");
            m.append(e.as_str());
            m.append(")");
            CheckExecutionResult::fail(m)
        },
        Ok(v) => match expected {
            None => {
                let mut m = join3("Registry value exists: ", value_name, " = ");
                m.append(v.as_str());
                CheckExecutionResult::pass(Some(m))
            },
            Some(wanted) => if v.as_str().eq(wanted.as_str()) {
                let mut m = join3("Registry value matches: ", value_name, " = ");
                m.append(v.as_str());
                CheckExecutionResult::pass(Some(m))
            } else {
                let mut m = join3("Registry value mismatch: ", value_name, " = ");
                m.append(v.as_str());
                m.append(" (expected ");
                m.append(wanted.as_str());
                m.append(")");
                CheckExecutionResult::fail(m)
            },
        },
    }
}

/// The verdict of a registry_key check on a platform that has a registry,
/// given what was found there.
pub fn registry_key_verdict(
    path: &str,
    value_name: &Option<String>,
    expected: &Option<String>,
    reading: &RegistryReading,
) -> (r: CheckExecutionResult)
    ensures
        r@ == registry_key_outcome(path@, text_of(*value_name), text_of(*expected), reading@),
{
    if parse_registry_path(path).is_none() {
        return CheckExecutionResult::error(join2("Unsupported registry hive in path: ", path));
    }
    match reading {
        RegistryReading::KeyMissing { error } => {
            let mut m = join3("Registry key not found: ", path, " (");
            m.append(error.as_str());
            m.append(")");
            CheckExecutionResult::fail(m)
        },
        RegistryReading::KeyFound { value } => match value_name {
            None => CheckExecutionResult::pass(Some(join2("Registry key exists: ", path))),
            Some(name) => match value {
                None => CheckExecutionResult::error(
                    String::from_str("Observation does not answer the check"),
                ),
                Some(v) => registry_value_verdict(name.as_str(), expected, v),
            },
        },
    }
}

// ---------------------------------------------------------------------------
// dispatch
// ---------------------------------------------------------------------------

/// A probe as contracts speak of it.
pub enum ProbeView {
    PathExists { path: Seq<char> },
    ReadFile { path: Seq<char> },
    RegistryValue { hive: RegistryHive, subkey: Seq<char>, value_name: Option<Seq<char>> },
    ProcessList,
    BindPort { port: u16 },
    RunCommand { command: Seq<char> },
}

impl View for Probe {
    type V = ProbeView;

    open spec fn view(&self) -> ProbeView {
        match *self {
            Probe::PathExists { path } => ProbeView::PathExists { path: path@ },
            Probe::ReadFile { path } => ProbeView::ReadFile { path: path@ },
            Probe::RegistryValue { hive, subkey, value_name } => ProbeView::RegistryValue {
                hive,
                subkey: subkey@,
                value_name: text_of(value_name),
            },
            Probe::ProcessList => ProbeView::ProcessList,
            Probe::BindPort { port } => ProbeView::BindPort { port },
            Probe::RunCommand { command } => ProbeView::RunCommand { command: command@ },
        }
    }
}

/// The look at the host that a check needs. A registry check whose path
/// names no known hive needs none: it is an error as it stands.
pub open spec fn needed(check: CheckTypeView) -> Option<ProbeView> {
    match check {
        CheckTypeView::FileExists { path } => Some(ProbeView::PathExists { path }),
        CheckTypeView::FileContent { path, .. } => Some(ProbeView::ReadFile { path }),
        CheckTypeView::RegistryKey { path, value_name, .. } => match registry_location(path) {
            Some((hive, subkey)) => Some(ProbeView::RegistryValue { hive, subkey, value_name }),
            None => None,
        },
        CheckTypeView::ConfigSetting { file, .. } => Some(ProbeView::ReadFile { path: file }),
        CheckTypeView::ProcessRunning { .. } => Some(ProbeView::ProcessList),
        CheckTypeView::PortOpen { port } => Some(ProbeView::BindPort { port }),
        CheckTypeView::CommandOutput { command, .. } => Some(ProbeView::RunCommand { command }),
    }
}

/// Whether an observation is of the kind that a probe asks for.
pub open spec fn answers(observation: Observation, probe: ProbeView) -> bool {
    match probe {
        ProbeView::PathExists { .. } => observation is Path,
        ProbeView::ReadFile { .. } => observation is File,
        ProbeView::RegistryValue { value_name, .. } => match observation {
            Observation::Registry(RegistryReading::KeyMissing { .. }) => true,
            Observation::Registry(RegistryReading::KeyFound { value }) => value_name is Some
                ==> value is Some,
            _ => false,
        },
        ProbeView::ProcessList => observation is Processes,
        ProbeView::BindPort { .. } => observation is Port,
        ProbeView::RunCommand { .. } => observation is Command,
    }
}

/// The text or the failure that reading gave.
pub open spec fn read_view(read: Result<String, String>) -> Result<Seq<char>, Seq<char>> {
    match read {
        Ok(s) => Ok(s@),
        Err(e) => Err(e@),
    }
}

/// The output or the failure that running a command gave.
pub open spec fn run_view(run: Result<CommandRun, String>) -> Result<
    (Seq<char>, Seq<char>),
    Seq<char>,
> {
    match run {
        Ok(out) => Ok((out.stdout@, out.stderr@)),
        Err(e) => Err(e@),
    }
}

/// The outcome of a validated check, given an observation. An observation
/// of another kind than the check needs leaves the check unevaluated: an
/// error.
pub open spec fn concluded(check: CheckTypeView, observation: Observation) -> Outcome {
    match check {
        CheckTypeView::FileExists { path } => match observation {
            Observation::Path { exists } => file_exists_outcome(path, exists),
            _ => Outcome::error(unanswered()),
        },
        CheckTypeView::FileContent { path, pattern, should_match } => match observation {
            Observation::File(read) => file_content_outcome(
                path,
                pattern,
                should_match,
                read_view(read),
            ),
            _ => Outcome::error(unanswered()),
        },
        CheckTypeView::RegistryKey { path, value_name, expected } => match observation {
            Observation::Registry(reading) => registry_key_outcome(
                path,
                value_name,
                expected,
                reading@,
            ),
            _ => Outcome::error(unanswered()),
        },
        CheckTypeView::ConfigSetting { file, key, expected } => match observation {
            Observation::File(read) => config_setting_outcome(file, key, expected, read_view(read)),
            _ => Outcome::error(unanswered()),
        },
        CheckTypeView::ProcessRunning { name } => match observation {
            Observation::Processes(processes) => process_running_outcome(name, processes@),
            _ => Outcome::error(unanswered()),
        },
        CheckTypeView::PortOpen { port } => match observation {
            Observation::Port { bind_succeeded } => port_open_outcome(port, bind_succeeded),
            _ => Outcome::error(unanswered()),
        },
        CheckTypeView::CommandOutput { expected_pattern, .. } => match observation {
            Observation::Command(run) => command_output_outcome(expected_pattern, run_view(run)),
            _ => Outcome::error(unanswered()),
        },
    }
}

/// What is known of a check before the host is looked at.
pub enum PlanView {
    /// The outcome stands already.
    Settled(Outcome),
    /// The check is valid and needs a look at the host.
    Observe(CheckTypeView),
}

/// What is known of a check before the host is looked at: an unknown kind
/// and parameters that do not fit the schema are errors; a registry check is
/// skipped where there is no registry, whatever its parameters.
pub open spec fn planned(registry_available: bool, kind: Seq<char>, params: ParamValue) -> PlanView {
    match CheckTypeId::named(kind) {
        None => PlanView::Settled(Outcome::error("Unknown check type: "@ + kind)),
        Some(id) => if id == CheckTypeId::RegistryKey && !registry_available {
            PlanView::Settled(Outcome::skipped("Registry checks are only available on Windows"@))
        } else {
            match parsed(id, params) {
                Err((fault, field)) => PlanView::Settled(
                    Outcome::error("Invalid parameters: "@ + fault_message(fault, field)),
                ),
                Ok(check) => match needed(check) {
                    None => match check {
                        CheckTypeView::RegistryKey { path, .. } => PlanView::Settled(
                            Outcome::error("Unsupported registry hive in path: "@ + path),
                        ),
                        _ => PlanView::Observe(check),
                    },
                    Some(_) => PlanView::Observe(check),
                },
            }
        },
    }
}

/// The outcome of a check, from its kind name, its parameter set and what
/// was observed, if anything was.
pub open spec fn executed(
    registry_available: bool,
    kind: Seq<char>,
    params: ParamValue,
    observation: Option<Observation>,
) -> Outcome {
    match planned(registry_available, kind, params) {
        PlanView::Settled(outcome) => outcome,
        PlanView::Observe(check) => match observation {
            Some(seen) => concluded(check, seen),
            None => Outcome::error(unanswered()),
        },
    }
}

/// What the engine knows of a check before the host is looked at.
#[derive(Debug)]
pub enum Plan {
    /// The outcome stands already.
    Settled(CheckExecutionResult),
    /// The check is valid; `probe` is the look at the host that it needs.
    Observe { check: CheckType, probe: Probe },
}

impl CheckType {
    /// The look at the host that the check needs.
    pub fn probe(&self) -> (r: Option<Probe>)
        ensures
            match r {
                Some(p) => needed(self@) == Some(p@),
                None => needed(self@) is None,
            },
    {
        match self {
            CheckType::FileExists { path } => Some(Probe::PathExists { path: path.clone() }),
            CheckType::FileContent { path, .. } => Some(Probe::ReadFile { path: path.clone() }),
            CheckType::RegistryKey { path, value_name, .. } => match parse_registry_path(
                path.as_str(),
            ) {
                Some((hive, subkey)) => Some(
                    Probe::RegistryValue {
                        hive,
                        subkey,
                        value_name: match value_name {
                            Some(n) => Some(n.clone()),
                            None => None,
                        },
                    },
                ),
                None => None,
            },
            CheckType::ConfigSetting { file, .. } => Some(Probe::ReadFile { path: file.clone() }),
            CheckType::ProcessRunning { .. } => Some(Probe::ProcessList),
            CheckType::PortOpen { port } => Some(Probe::BindPort { port: *port }),
            CheckType::CommandOutput { command, .. } => Some(
                Probe::RunCommand { command: command.clone() },
            ),
        }
    }
}

impl Observation {
    /// Whether the observation is of the kind that `probe` asks for.
    pub fn answers(&self, probe: &Probe) -> (r: bool)
        ensures
            r == answers(*self, probe@),
    {
        match probe {
            Probe::PathExists { .. } => match self {
                Observation::Path { .. } => true,
                _ => false,
            },
            Probe::ReadFile { .. } => match self {
                Observation::File(_) => true,
                _ => false,
            },
            Probe::RegistryValue { value_name, .. } => match self {
                Observation::Registry(RegistryReading::KeyMissing { .. }) => true,
                Observation::Registry(RegistryReading::KeyFound { value }) => value_name.is_none()
                    || value.is_some(),
                _ => false,
            },
            Probe::ProcessList => match self {
                Observation::Processes(_) => true,
                _ => false,
            },
            Probe::BindPort { .. } => match self {
                Observation::Port { .. } => true,
                _ => false,
            },
            Probe::RunCommand { .. } => match self {
                Observation::Command(_) => true,
                _ => false,
            },
        }
    }
}

/// The engine. It knows one thing of the platform: whether it has a
/// registry.
#[derive(Debug)]
pub struct CheckExecutor {
    pub registry_available: bool,
}

impl CheckExecutor {
    /// An engine for a platform that has a registry, or has none.
    pub fn new(registry_available: bool) -> (r: CheckExecutor)
        ensures
            r.registry_available == registry_available,
    {
        CheckExecutor { registry_available }
    }

    fn unanswered_result() -> (r: CheckExecutionResult)
        ensures
            r@ == Outcome::error(unanswered()),
    {
        CheckExecutionResult::error(String::from_str("Observation does not answer the check"))
    }

    /// Validates a check and says what is to be observed for it, or what its
    /// outcome is where none is needed.
    pub fn prepare(&self, check: &AgentCheckDefinition) -> (r: Plan)
        ensures
            match r {
                Plan::Settled(result) => planned(
                    self.registry_available,
                    check.check_type@,
                    check.parameters,
                ) == PlanView::Settled(result@),
                Plan::Observe { check: valid, probe } => planned(
                    self.registry_available,
                    check.check_type@,
                    check.parameters,
                ) == PlanView::Observe(valid@) && needed(valid@) == Some(probe@),
            },
    {
        let id = match CheckTypeId::from_str(check.check_type.as_str()) {
            Ok(id) => id,
            Err(message) => { return Plan::Settled(CheckExecutionResult::error(message)); },
        };
        if id == CheckTypeId::RegistryKey && !self.registry_available {
            return Plan::Settled(
                CheckExecutionResult::skipped(
                    String::from_str("Registry checks are only available on Windows"),
                ),
            );
        }
        let valid = match CheckType::from_parameters(id, &check.parameters) {
            Ok(valid) => valid,
            Err(e) => {
                let text = e.message();
                return Plan::Settled(
                    CheckExecutionResult::error(join2("Invalid parameters: ", text.as_str())),
                );
            },
        };
        match valid.probe() {
            Some(probe) => Plan::Observe { check: valid, probe },
            None => match &valid {
                CheckType::RegistryKey { path, .. } => Plan::Settled(
                    CheckExecutionResult::error(
                        join2("Unsupported registry hive in path: ", path.as_str()),
                    ),
                ),
                _ => Plan::Settled(CheckExecutor::unanswered_result()),
            },
        }
    }

    /// The outcome of a validated check, given what was observed.
    pub fn conclude(&self, check: &CheckType, observation: &Observation) -> (r:
        CheckExecutionResult)
        ensures
            r@ == concluded(check@, *observation),
    {
        match check {
            CheckType::FileExists { path } => match observation {
                Observation::Path { exists } => file_exists_verdict(path.as_str(), *exists),
                _ => CheckExecutor::unanswered_result(),
            },
            CheckType::FileContent { path, pattern, should_match } => match observation {
                Observation::File(read) => file_content_verdict(
                    path.as_str(),
                    pattern.as_str(),
                    *should_match,
                    read,
                ),
                _ => CheckExecutor::unanswered_result(),
            },
            CheckType::RegistryKey { path, value_name, expected } => match observation {
                Observation::Registry(reading) => registry_key_verdict(
                    path.as_str(),
                    value_name,
                    expected,
                    reading,
                ),
                _ => CheckExecutor::unanswered_result(),
            },
            CheckType::ConfigSetting { file, key, expected } => match observation {
                Observation::File(read) => config_setting_verdict(
                    file.as_str(),
                    key.as_str(),
                    expected.as_str(),
                    read,
                ),
                _ => CheckExecutor::unanswered_result(),
            },
            CheckType::ProcessRunning { name } => match observation {
                Observation::Processes(processes) => process_running_verdict(
                    name.as_str(),
                    processes,
                ),
                _ => CheckExecutor::unanswered_result(),
            },
            CheckType::PortOpen { port } => match observation {
                Observation::Port { bind_succeeded } => port_open_verdict(*port, *bind_succeeded),
                _ => CheckExecutor::unanswered_result(),
            },
            CheckType::CommandOutput { expected_pattern, .. } => match observation {
                Observation::Command(run) => command_output_verdict(expected_pattern.as_str(), run),
                _ => CheckExecutor::unanswered_result(),
            },
        }
    }

    /// The outcome of a check, given what was observed for it, if anything
    /// was.
    pub fn execute(&self, check: &AgentCheckDefinition, observation: Option<&Observation>) -> (r:
        CheckExecutionResult)
        ensures
            r@ == executed(
                self.registry_available,
                check.check_type@,
                check.parameters,
                match observation {
                    Some(seen) => Some(*seen),
                    None => None,
                },
            ),
    {
        match self.prepare(check) {
            Plan::Settled(result) => result,
            Plan::Observe { check: valid, .. } => match observation {
                Some(seen) => self.conclude(&valid, seen),
                None => CheckExecutor::unanswered_result(),
            },
        }
    }
}

// ---------------------------------------------------------------------------
// what holds of every check
// ---------------------------------------------------------------------------

/// The parameters of a check say something that can be evaluated: its
/// pattern compiles, its registry path names a known hive.
pub open spec fn evaluable(check: CheckTypeView) -> bool {
    match check {
        CheckTypeView::FileContent { pattern, .. } => pattern_fault(pattern) is None,
        CheckTypeView::CommandOutput { expected_pattern, .. } => pattern_fault(expected_pattern)
            is None,
        CheckTypeView::RegistryKey { path, .. } => registry_location(path) is Some,
        _ => true,
    }
}

/// The host was looked at as the check needs, the look succeeded, and it
/// showed that what the check asks for is not the case.
pub open spec fn refuted(check: CheckTypeView, observation: Observation) -> bool {
    match check {
        CheckTypeView::FileExists { .. } => match observation {
            Observation::Path { exists } => !exists,
            _ => false,
        },
        CheckTypeView::FileContent { pattern, should_match, .. } => match observation {
            Observation::File(Ok(content)) => pattern_fault(pattern) is None && matched(
                pattern,
                content@,
            ) != should_match,
            _ => false,
        },
        CheckTypeView::RegistryKey { value_name, expected, .. } => match observation {
            Observation::Registry(RegistryReading::KeyMissing { .. }) => true,
            Observation::Registry(RegistryReading::KeyFound { value: Some(Err(_)) }) => value_name
                is Some,
            Observation::Registry(RegistryReading::KeyFound { value: Some(Ok(v)) }) => value_name
                is Some && match expected {
                Some(wanted) => v@ != wanted,
                None => false,
            },
            _ => false,
        },
        CheckTypeView::ConfigSetting { key, expected, .. } => match observation {
            Observation::File(Ok(content)) => pattern_fault(setting_pattern(key)) is Some
                || match captured(setting_pattern(key), content@, 1) {
                None => true,
                Some(Some(g)) => trimmed(g) != expected,
                Some(None) => expected.len() != 0,
            },
            _ => false,
        },
        CheckTypeView::ProcessRunning { name } => match observation {
            Observation::Processes(processes) => first_running(name, processes@) is None,
            _ => false,
        },
        CheckTypeView::PortOpen { .. } => match observation {
            Observation::Port { bind_succeeded } => bind_succeeded,
            _ => false,
        },
        CheckTypeView::CommandOutput { expected_pattern, .. } => match observation {
            Observation::Command(Ok(out)) => pattern_fault(expected_pattern) is None && !matched(
                expected_pattern,
                out.stdout@ + out.stderr@,
            ),
            _ => false,
        },
    }
}

/// A check of a supported kind, with valid parameters, whose target condition
/// is observed to be false, fails: it is never an error.
pub proof fn false_condition_fails(
    registry_available: bool,
    kind: Seq<char>,
    params: ParamValue,
    observation: Observation,
)
    requires
        CheckTypeId::named(kind) is Some,
        CheckTypeId::named(kind) == Some(CheckTypeId::RegistryKey) ==> registry_available,
        parsed(CheckTypeId::named(kind)->0, params) is Ok,
        evaluable(parsed(CheckTypeId::named(kind)->0, params)->Ok_0),
        refuted(parsed(CheckTypeId::named(kind)->0, params)->Ok_0, observation),
    ensures
        executed(registry_available, kind, params, Some(observation)).status == CheckStatus::Fail,
{
}

/// A check of a known kind whose parameters do not fit the schema is an error
/// with a message that is not empty, whatever was observed. A registry check
/// is held to this only where there is a registry.
pub proof fn malformed_parameters_are_errors(
    registry_available: bool,
    kind: Seq<char>,
    params: ParamValue,
    observation: Option<Observation>,
)
    requires
        CheckTypeId::named(kind) is Some,
        CheckTypeId::named(kind) == Some(CheckTypeId::RegistryKey) ==> registry_available,
        parsed(CheckTypeId::named(kind)->0, params) is Err,
    ensures
        executed(registry_available, kind, params, observation).status == CheckStatus::Error,
        executed(registry_available, kind, params, observation).message is Some,
        executed(registry_available, kind, params, observation).message->0.len() > 0,
{
    reveal_strlit("Invalid parameters: ");
}

/// A check of an unknown kind is an error with a message that is not empty.
pub proof fn unknown_kind_is_error(
    registry_available: bool,
    kind: Seq<char>,
    params: ParamValue,
    observation: Option<Observation>,
)
    requires
        CheckTypeId::named(kind) is None,
    ensures
        executed(registry_available, kind, params, observation).status == CheckStatus::Error,
        executed(registry_available, kind, params, observation).message is Some,
        executed(registry_available, kind, params, observation).message->0.len() > 0,
{
    reveal_strlit("Unknown check type: ");
}

/// Where there is no registry, a registry check is skipped, whatever its
/// parameters and whatever was observed.
pub proof fn registry_check_skipped_without_registry(
    kind: Seq<char>,
    params: ParamValue,
    observation: Option<Observation>,
)
    requires
        CheckTypeId::named(kind) == Some(CheckTypeId::RegistryKey),
    ensures
        executed(false, kind, params, observation).status == CheckStatus::Skipped,
{
}

/// A file_content check that wants no match passes exactly when the pattern
/// does not match what the file holds.
pub proof fn unwanted_pattern_passes_iff_absent(
    path: Seq<char>,
    pattern: Seq<char>,
    content: Seq<char>,
)
    requires
        pattern_fault(pattern) is None,
    ensures
        file_content_outcome(path, pattern, false, Ok(content)).status == CheckStatus::Pass
            <==> !matched(pattern, content),
        file_content_outcome(path, pattern, false, Ok(content)).status == CheckStatus::Fail
            <==> matched(pattern, content),
{
}

/// A pattern that does not compile makes a file_content check and a
/// command_output check an error, never a failure.
pub proof fn invalid_pattern_is_error(
    path: Seq<char>,
    pattern: Seq<char>,
    should_match: bool,
    content: Seq<char>,
    stdout: Seq<char>,
    stderr: Seq<char>,
)
    requires
        pattern_fault(pattern) is Some,
    ensures
        file_content_outcome(path, pattern, should_match, Ok(content)).status
            == CheckStatus::Error,
        command_output_outcome(pattern, Ok((stdout, stderr))).status == CheckStatus::Error,
{
}

/// A process_running check passes exactly when some running process matches
/// the target.
pub proof fn process_found_iff_some_matches(target: Seq<char>, processes: Seq<String>)
    ensures
        process_running_outcome(target, processes).status == CheckStatus::Pass <==> exists|i: int|
            0 <= i < processes.len() && process_matches(target, #[trigger] processes[i]@),
        process_running_outcome(target, processes).status == CheckStatus::Fail <==> forall|i: int|
            0 <= i < processes.len() ==> !process_matches(target, #[trigger] processes[i]@),
    decreases processes.len(),
{
    if processes.len() > 0 {
        if !process_matches(target, processes[0]@) {
            process_found_iff_some_matches(target, processes.skip(1));
            let rest = processes.skip(1);
            assert forall|i: int| 0 <= i < rest.len() implies rest[i] == processes[i + 1] by {}
            if exists|i: int| 0 <= i < processes.len() && process_matches(target, #[trigger] processes[i]@) {
                let i = choose|i: int|
                    0 <= i < processes.len() && process_matches(target, #[trigger] processes[i]@);
                assert(i > 0);
                assert(rest[i - 1] == processes[i]);
                assert(process_matches(target, rest[i - 1]@));
            }
            if exists|i: int| 0 <= i < rest.len() && process_matches(target, #[trigger] rest[i]@) {
                let i = choose|i: int|
                    0 <= i < rest.len() && process_matches(target, #[trigger] rest[i]@);
                assert(process_matches(target, processes[i + 1]@));
            }
        }
    }
}

} // verus!
