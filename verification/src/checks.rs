//! The check kinds and the parameter schema of each.
//!
//! A check reaches the engine as a kind name and an untyped parameter set.
//! Here the pair is validated once, into a `CheckType` that holds the
//! parameters of its kind and nothing else.

use crate::params::{
    flag_field, optional_text_field, port_field, text_field, ParamError, ParamFault, ParamValue,
};
use crate::text::{join2, text_of};
use vstd::prelude::*;
use vstd::string::*;

verus! {

/// Check type identifier.
#[derive(Debug, Clone, Copy, PartialEq, Eq, Structural)]
pub enum CheckTypeId {
    FileExists,
    FileContent,
    RegistryKey,
    ConfigSetting,
    ProcessRunning,
    PortOpen,
    CommandOutput,
}

impl CheckTypeId {
    /// The name under which the kind is stored and sent.
    pub open spec fn name(self) -> Seq<char> {
        match self {
            CheckTypeId::FileExists => "file_exists"@,
            CheckTypeId::FileContent => "file_content"@,
            CheckTypeId::RegistryKey => "registry_key"@,
            CheckTypeId::ConfigSetting => "config_setting"@,
            CheckTypeId::ProcessRunning => "process_running"@,
            CheckTypeId::PortOpen => "port_open"@,
            CheckTypeId::CommandOutput => "command_output"@,
        }
    }

    /// The kind that a name stands for. Names are matched letter for letter.
    pub open spec fn named(s: Seq<char>) -> Option<CheckTypeId> {
        if s == "file_exists"@ {
            Some(CheckTypeId::FileExists)
        } else if s == "file_content"@ {
            Some(CheckTypeId::FileContent)
        } else if s == "registry_key"@ {
            Some(CheckTypeId::RegistryKey)
        } else if s == "config_setting"@ {
            Some(CheckTypeId::ConfigSetting)
        } else if s == "process_running"@ {
            Some(CheckTypeId::ProcessRunning)
        } else if s == "port_open"@ {
            Some(CheckTypeId::PortOpen)
        } else if s == "command_output"@ {
            Some(CheckTypeId::CommandOutput)
        } else {
            None
        }
    }

    pub fn as_str(&self) -> (r: &'static str)
        ensures
            r@ == self.name(),
    {
        match self {
            CheckTypeId::FileExists => "file_exists",
            CheckTypeId::FileContent => "file_content",
            CheckTypeId::RegistryKey => "registry_key",
            CheckTypeId::ConfigSetting => "config_setting",
            CheckTypeId::ProcessRunning => "process_running",
            CheckTypeId::PortOpen => "port_open",
            CheckTypeId::CommandOutput => "command_output",
        }
    }

    pub fn to_string(&self) -> (r: String)
        ensures
            r@ == self.name(),
    {
        String::from_str(self.as_str())
    }

    pub fn from_str(s: &str) -> (r: Result<CheckTypeId, String>)
        ensures
            match r {
                Ok(id) => CheckTypeId::named(s@) == Some(id),
                Err(e) => CheckTypeId::named(s@) is None && e@ == "Unknown check type: "@ + s@,
            },
    {
        if s.eq("file_exists") {
            Ok(CheckTypeId::FileExists)
        } else if s.eq("file_content") {
            Ok(CheckTypeId::FileContent)
        } else if s.eq("registry_key") {
            Ok(CheckTypeId::RegistryKey)
        } else if s.eq("config_setting") {
            Ok(CheckTypeId::ConfigSetting)
        } else if s.eq("process_running") {
            Ok(CheckTypeId::ProcessRunning)
        } else if s.eq("port_open") {
            Ok(CheckTypeId::PortOpen)
        } else if s.eq("command_output") {
            Ok(CheckTypeId::CommandOutput)
        } else {
            Err(join2("Unknown check type: ", s))
        }
    }
}

/// A sentence that says what a check of the given kind looks at.
pub fn check_type_description(type_id: CheckTypeId) -> (r: &'static str)
    ensures
        r@ == match type_id {
            CheckTypeId::FileExists => "Check if a file exists at the specified path"@,
            CheckTypeId::FileContent => "Check if file content matches a pattern"@,
            CheckTypeId::RegistryKey => "Check Windows registry key value (Windows only)"@,
            CheckTypeId::ConfigSetting => "Check configuration file setting value"@,
            CheckTypeId::ProcessRunning => "Check if a process is running"@,
            CheckTypeId::PortOpen => "Check if a port is open/listening"@,
            CheckTypeId::CommandOutput => "Check command output matches a pattern"@,
        },
{
    match type_id {
        CheckTypeId::FileExists => "Check if a file exists at the specified path",
        CheckTypeId::FileContent => "Check if file content matches a pattern",
        CheckTypeId::RegistryKey => "Check Windows registry key value (Windows only)",
        CheckTypeId::ConfigSetting => "Check configuration file setting value",
        CheckTypeId::ProcessRunning => "Check if a process is running",
        CheckTypeId::PortOpen => "Check if a port is open/listening",
        CheckTypeId::CommandOutput => "Check command output matches a pattern",
    }
}

/// What a `CheckType` holds, as texts.
#[allow(inconsistent_fields)]
pub enum CheckTypeView {
    FileExists { path: Seq<char> },
    FileContent { path: Seq<char>, pattern: Seq<char>, should_match: bool },
    RegistryKey { path: Seq<char>, value_name: Option<Seq<char>>, expected: Option<Seq<char>> },
    ConfigSetting { file: Seq<char>, key: Seq<char>, expected: Seq<char> },
    ProcessRunning { name: Seq<char> },
    PortOpen { port: u16 },
    CommandOutput { command: Seq<char>, expected_pattern: Seq<char> },
}

/// A fault as contracts speak of it: its kind and the name of the field.
pub type Fault = (ParamFault, Seq<char>);

/// The schema of each kind, applied to a parameter set. The fields are read
/// in the order of the schema, and the first fault found is the result.
pub open spec fn parsed(kind: CheckTypeId, v: ParamValue) -> Result<CheckTypeView, Fault> {
    match kind {
        CheckTypeId::FileExists => match text_field(v, "path"@) {
            Err(f) => Err(f),
            Ok(path) => Ok(CheckTypeView::FileExists { path }),
        },
        CheckTypeId::FileContent => match text_field(v, "path"@) {
            Err(f) => Err(f),
            Ok(path) => match text_field(v, "pattern"@) {
                Err(f) => Err(f),
                Ok(pattern) => match flag_field(v, "should_match"@, true) {
                    Err(f) => Err(f),
                    Ok(should_match) => Ok(
                        CheckTypeView::FileContent { path, pattern, should_match },
                    ),
                },
            },
        },
        CheckTypeId::RegistryKey => match text_field(v, "path"@) {
            Err(f) => Err(f),
            Ok(path) => match optional_text_field(v, "value_name"@) {
                Err(f) => Err(f),
                Ok(value_name) => match optional_text_field(v, "expected"@) {
                    Err(f) => Err(f),
                    Ok(expected) => Ok(CheckTypeView::RegistryKey { path, value_name, expected }),
                },
            },
        },
        CheckTypeId::ConfigSetting => match text_field(v, "file"@) {
            Err(f) => Err(f),
            Ok(file) => match text_field(v, "key"@) {
                Err(f) => Err(f),
                Ok(key) => match text_field(v, "expected"@) {
                    Err(f) => Err(f),
                    Ok(expected) => Ok(CheckTypeView::ConfigSetting { file, key, expected }),
                },
            },
        },
        CheckTypeId::ProcessRunning => match text_field(v, "name"@) {
            Err(f) => Err(f),
            Ok(name) => Ok(CheckTypeView::ProcessRunning { name }),
        },
        CheckTypeId::PortOpen => match port_field(v, "port"@) {
            Err(f) => Err(f),
            Ok(port) => Ok(CheckTypeView::PortOpen { port }),
        },
        CheckTypeId::CommandOutput => match text_field(v, "command"@) {
            Err(f) => Err(f),
            Ok(command) => match text_field(v, "expected_pattern"@) {
                Err(f) => Err(f),
                Ok(expected_pattern) => Ok(
                    CheckTypeView::CommandOutput { command, expected_pattern },
                ),
            },
        },
    }
}

/// Parameters for file_exists check.
#[derive(Debug)]
pub struct FileExistsParams {
    pub path: String,
}

/// Parameters for file_content check.
#[derive(Debug)]
pub struct FileContentParams {
    pub path: String,
    pub pattern: String,
    pub should_match: bool,
}

/// Parameters for registry_key check.
#[derive(Debug)]
pub struct RegistryKeyParams {
    pub path: String,
    pub value_name: Option<String>,
    pub expected: Option<String>,
}

/// Parameters for config_setting check.
#[derive(Debug)]
pub struct ConfigSettingParams {
    pub file: String,
    pub key: String,
    pub expected: String,
}

/// Parameters for process_running check.
#[derive(Debug)]
pub struct ProcessRunningParams {
    pub name: String,
}

/// Parameters for port_open check.
#[derive(Debug)]
pub struct PortOpenParams {
    pub port: u16,
}

/// Parameters for command_output check.
#[derive(Debug)]
pub struct CommandOutputParams {
    pub command: String,
    pub expected_pattern: String,
}

impl View for FileExistsParams {
    type V = CheckTypeView;

    open spec fn view(&self) -> CheckTypeView {
        CheckTypeView::FileExists { path: self.path@ }
    }
}

impl View for FileContentParams {
    type V = CheckTypeView;

    open spec fn view(&self) -> CheckTypeView {
        CheckTypeView::FileContent {
            path: self.path@,
            pattern: self.pattern@,
            should_match: self.should_match,
        }
    }
}

impl View for RegistryKeyParams {
    type V = CheckTypeView;

    open spec fn view(&self) -> CheckTypeView {
        CheckTypeView::RegistryKey {
            path: self.path@,
            value_name: text_of(self.value_name),
            expected: text_of(self.expected),
        }
    }
}

impl View for ConfigSettingParams {
    type V = CheckTypeView;

    open spec fn view(&self) -> CheckTypeView {
        CheckTypeView::ConfigSetting {
            file: self.file@,
            key: self.key@,
            expected: self.expected@,
        }
    }
}

impl View for ProcessRunningParams {
    type V = CheckTypeView;

    open spec fn view(&self) -> CheckTypeView {
        CheckTypeView::ProcessRunning { name: self.name@ }
    }
}

impl View for PortOpenParams {
    type V = CheckTypeView;

    open spec fn view(&self) -> CheckTypeView {
        CheckTypeView::PortOpen { port: self.port }
    }
}

impl View for CommandOutputParams {
    type V = CheckTypeView;

    open spec fn view(&self) -> CheckTypeView {
        CheckTypeView::CommandOutput {
            command: self.command@,
            expected_pattern: self.expected_pattern@,
        }
    }
}

impl FileExistsParams {
    /// Reads the parameters of a file_exists check.
    pub fn from_value(v: &ParamValue) -> (r: Result<FileExistsParams, ParamError>)
        ensures
            match r {
                Ok(p) => parsed(CheckTypeId::FileExists, *v) == Ok::<CheckTypeView, Fault>(p@),
                Err(e) => parsed(CheckTypeId::FileExists, *v) == Err::<CheckTypeView, Fault>(e@),
            },
    {
        let path = match v.text("path") {
            Ok(s) => s,
            Err(e) => { return Err(e); },
        };
        Ok(FileExistsParams { path })
    }
}

impl FileContentParams {
    /// Reads the parameters of a file_content check. `should_match` is true
    /// where the parameter set does not hold it.
    pub fn from_value(v: &ParamValue) -> (r: Result<FileContentParams, ParamError>)
        ensures
            match r {
                Ok(p) => parsed(CheckTypeId::FileContent, *v) == Ok::<CheckTypeView, Fault>(p@),
                Err(e) => parsed(CheckTypeId::FileContent, *v) == Err::<CheckTypeView, Fault>(e@),
            },
    {
        let path = match v.text("path") {
            Ok(s) => s,
            Err(e) => { return Err(e); },
        };
        let pattern = match v.text("pattern") {
            Ok(s) => s,
            Err(e) => { return Err(e); },
        };
        let should_match = match v.flag("should_match", true) {
            Ok(b) => b,
            Err(e) => { return Err(e); },
        };
        Ok(FileContentParams { path, pattern, should_match })
    }
}

impl RegistryKeyParams {
    /// Reads the parameters of a registry_key check.
    pub fn from_value(v: &ParamValue) -> (r: Result<RegistryKeyParams, ParamError>)
        ensures
            match r {
                Ok(p) => parsed(CheckTypeId::RegistryKey, *v) == Ok::<CheckTypeView, Fault>(p@),
                Err(e) => parsed(CheckTypeId::RegistryKey, *v) == Err::<CheckTypeView, Fault>(e@),
            },
    {
        let path = match v.text("path") {
            Ok(s) => s,
            Err(e) => { return Err(e); },
        };
        let value_name = match v.optional_text("value_name") {
            Ok(s) => s,
            Err(e) => { return Err(e); },
        };
        let expected = match v.optional_text("expected") {
            Ok(s) => s,
            Err(e) => { return Err(e); },
        };
        Ok(RegistryKeyParams { path, value_name, expected })
    }
}

impl ConfigSettingParams {
    /// Reads the parameters of a config_setting check.
    pub fn from_value(v: &ParamValue) -> (r: Result<ConfigSettingParams, ParamError>)
        ensures
            match r {
                Ok(p) => parsed(CheckTypeId::ConfigSetting, *v) == Ok::<CheckTypeView, Fault>(p@),
                Err(e) => parsed(CheckTypeId::ConfigSetting, *v) == Err::<CheckTypeView, Fault>(
                    e@,
                ),
            },
    {
        let file = match v.text("file") {
            Ok(s) => s,
            Err(e) => { return Err(e); },
        };
        let key = match v.text("key") {
            Ok(s) => s,
            Err(e) => { return Err(e); },
        };
        let expected = match v.text("expected") {
            Ok(s) => s,
            Err(e) => { return Err(e); },
        };
        Ok(ConfigSettingParams { file, key, expected })
    }
}

impl ProcessRunningParams {
    /// Reads the parameters of a process_running check.
    pub fn from_value(v: &ParamValue) -> (r: Result<ProcessRunningParams, ParamError>)
        ensures
            match r {
                Ok(p) => parsed(CheckTypeId::ProcessRunning, *v) == Ok::<CheckTypeView, Fault>(p@),
                Err(e) => parsed(CheckTypeId::ProcessRunning, *v) == Err::<CheckTypeView, Fault>(
                    e@,
                ),
            },
    {
        let name = match v.text("name") {
            Ok(s) => s,
            Err(e) => { return Err(e); },
        };
        Ok(ProcessRunningParams { name })
    }
}

impl PortOpenParams {
    /// Reads the parameters of a port_open check.
    pub fn from_value(v: &ParamValue) -> (r: Result<PortOpenParams, ParamError>)
        ensures
            match r {
                Ok(p) => parsed(CheckTypeId::PortOpen, *v) == Ok::<CheckTypeView, Fault>(p@),
                Err(e) => parsed(CheckTypeId::PortOpen, *v) == Err::<CheckTypeView, Fault>(e@),
            },
    {
        let port = match v.port("port") {
            Ok(p) => p,
            Err(e) => { return Err(e); },
        };
        Ok(PortOpenParams { port })
    }
}

impl CommandOutputParams {
    /// Reads the parameters of a command_output check.
    pub fn from_value(v: &ParamValue) -> (r: Result<CommandOutputParams, ParamError>)
        ensures
            match r {
                Ok(p) => parsed(CheckTypeId::CommandOutput, *v) == Ok::<CheckTypeView, Fault>(p@),
                Err(e) => parsed(CheckTypeId::CommandOutput, *v) == Err::<CheckTypeView, Fault>(
                    e@,
                ),
            },
    {
        let command = match v.text("command") {
            Ok(s) => s,
            Err(e) => { return Err(e); },
        };
        let expected_pattern = match v.text("expected_pattern") {
            Ok(s) => s,
            Err(e) => { return Err(e); },
        };
        Ok(CommandOutputParams { command, expected_pattern })
    }
}

/// Check type with parameters.
#[derive(Debug)]
#[allow(inconsistent_fields)]
pub enum CheckType {
    FileExists { path: String },
    FileContent { path: String, pattern: String, should_match: bool },
    RegistryKey { path: String, value_name: Option<String>, expected: Option<String> },
    ConfigSetting { file: String, key: String, expected: String },
    ProcessRunning { name: String },
    PortOpen { port: u16 },
    CommandOutput { command: String, expected_pattern: String },
}

impl View for CheckType {
    type V = CheckTypeView;

    open spec fn view(&self) -> CheckTypeView {
        match *self {
            CheckType::FileExists { path } => CheckTypeView::FileExists { path: path@ },
            CheckType::FileContent { path, pattern, should_match } => CheckTypeView::FileContent {
                path: path@,
                pattern: pattern@,
                should_match,
            },
            CheckType::RegistryKey { path, value_name, expected } => CheckTypeView::RegistryKey {
                path: path@,
                value_name: text_of(value_name),
                expected: text_of(expected),
            },
            CheckType::ConfigSetting { file, key, expected } => CheckTypeView::ConfigSetting {
                file: file@,
                key: key@,
                expected: expected@,
            },
            CheckType::ProcessRunning { name } => CheckTypeView::ProcessRunning { name: name@ },
            CheckType::PortOpen { port } => CheckTypeView::PortOpen { port },
            CheckType::CommandOutput { command, expected_pattern } => CheckTypeView::CommandOutput {
                command: command@,
                expected_pattern: expected_pattern@,
            },
        }
    }
}

impl CheckTypeView {
    /// The kind of the check.
    pub open spec fn kind(self) -> CheckTypeId {
        match self {
            CheckTypeView::FileExists { .. } => CheckTypeId::FileExists,
            CheckTypeView::FileContent { .. } => CheckTypeId::FileContent,
            CheckTypeView::RegistryKey { .. } => CheckTypeId::RegistryKey,
            CheckTypeView::ConfigSetting { .. } => CheckTypeId::ConfigSetting,
            CheckTypeView::ProcessRunning { .. } => CheckTypeId::ProcessRunning,
            CheckTypeView::PortOpen { .. } => CheckTypeId::PortOpen,
            CheckTypeView::CommandOutput { .. } => CheckTypeId::CommandOutput,
        }
    }
}

impl CheckType {
    /// The kind of the check.
    pub fn type_id(&self) -> (r: CheckTypeId)
        ensures
            r == self@.kind(),
    {
        match self {
            CheckType::FileExists { .. } => CheckTypeId::FileExists,
            CheckType::FileContent { .. } => CheckTypeId::FileContent,
            CheckType::RegistryKey { .. } => CheckTypeId::RegistryKey,
            CheckType::ConfigSetting { .. } => CheckTypeId::ConfigSetting,
            CheckType::ProcessRunning { .. } => CheckTypeId::ProcessRunning,
            CheckType::PortOpen { .. } => CheckTypeId::PortOpen,
            CheckType::CommandOutput { .. } => CheckTypeId::CommandOutput,
        }
    }

    /// The name of the kind of the check.
    pub fn kind_name(&self) -> (r: &'static str)
        ensures
            r@ == self@.kind().name(),
    {
        self.type_id().as_str()
    }

    /// Validates a parameter set against the schema of `kind`.
    pub fn from_parameters(kind: CheckTypeId, v: &ParamValue) -> (r: Result<CheckType, ParamError>)
        ensures
            match r {
                Ok(check) => parsed(kind, *v) == Ok::<CheckTypeView, Fault>(check@),
                Err(e) => parsed(kind, *v) == Err::<CheckTypeView, Fault>(e@),
            },
    {
        match kind {
            CheckTypeId::FileExists => match FileExistsParams::from_value(v) {
                Ok(p) => Ok(CheckType::FileExists { path: p.path }),
                Err(e) => Err(e),
            },
            CheckTypeId::FileContent => match FileContentParams::from_value(v) {
                Ok(p) => Ok(
                    CheckType::FileContent {
                        path: p.path,
                        pattern: p.pattern,
                        should_match: p.should_match,
                    },
                ),
                Err(e) => Err(e),
            },
            CheckTypeId::RegistryKey => match RegistryKeyParams::from_value(v) {
                Ok(p) => Ok(
                    CheckType::RegistryKey {
                        path: p.path,
                        value_name: p.value_name,
                        expected: p.expected,
                    },
                ),
                Err(e) => Err(e),
            },
            CheckTypeId::ConfigSetting => match ConfigSettingParams::from_value(v) {
                Ok(p) => Ok(
                    CheckType::ConfigSetting { file: p.file, key: p.key, expected: p.expected },
                ),
                Err(e) => Err(e),
            },
            CheckTypeId::ProcessRunning => match ProcessRunningParams::from_value(v) {
                Ok(p) => Ok(CheckType::ProcessRunning { name: p.name }),
                Err(e) => Err(e),
            },
            CheckTypeId::PortOpen => match PortOpenParams::from_value(v) {
                Ok(p) => Ok(CheckType::PortOpen { port: p.port }),
                Err(e) => Err(e),
            },
            CheckTypeId::CommandOutput => match CommandOutputParams::from_value(v) {
                Ok(p) => Ok(
                    CheckType::CommandOutput {
                        command: p.command,
                        expected_pattern: p.expected_pattern,
                    },
                ),
                Err(e) => Err(e),
            },
        }
    }
}

} // verus!
