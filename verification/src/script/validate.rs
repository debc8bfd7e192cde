//! Validation of declarative scripts into a typed step plan.
use vstd::prelude::*;

use super::model::{field_lookup, FieldValue, Script, Step};
use crate::text::str_eq;
use vstd::string::StringExecFns;

verus! {

/// What a validated step does, with every string taken by its characters.
pub enum SpecStepKind {
    EnvRequire { vars: Seq<Seq<char>> },
    FsMkdirAll { path: Seq<char> },
    FsWriteString { path: Seq<char>, content: Seq<char> },
    FsAppend { path: Seq<char>, content: Seq<char> },
    FsCopy { from: Seq<char>, to: Seq<char> },
    FsRename { from: Seq<char>, to: Seq<char> },
    FsRemove { path: Seq<char> },
    HttpDownload { url: Seq<char>, path: Seq<char> },
    HttpGet { url: Seq<char>, dest: Seq<char> },
    ArchiveCreateZip { source: Seq<char>, dest: Seq<char> },
    ArchiveCreateTar { source: Seq<char>, dest: Seq<char> },
    ArchiveCreateTarGz { source: Seq<char>, dest: Seq<char> },
    ArchiveExtractZip { archive: Seq<char>, dest: Seq<char> },
    ArchiveExtractTar { archive: Seq<char>, dest: Seq<char> },
    ArchiveExtractTarGz { archive: Seq<char>, dest: Seq<char> },
    ShRun { command: Seq<char> },
}

/// A validated step, with its strings taken by their characters.
pub struct SpecValidatedStep {
    pub name: Seq<char>,
    pub kind: SpecStepKind,
}

/// A validated script, with its strings taken by their characters.
pub struct SpecValidatedScript {
    pub name: Seq<char>,
    pub description: Option<Seq<char>>,
    pub steps: Seq<SpecValidatedStep>,
}

/// Why a script was rejected, with its strings taken by their characters.
pub enum SpecScriptError {
    DuplicateStepName { name: Seq<char> },
    UnknownStepType { step_type: Seq<char> },
    UnknownField { step: Seq<char>, step_type: Seq<char>, field: Seq<char> },
    MissingField { step: Seq<char>, step_type: Seq<char>, field: Seq<char> },
    NotStringList { step: Seq<char>, step_type: Seq<char>, field: Seq<char> },
}

/// A typed step operation.
#[derive(Debug, Clone, PartialEq, Eq)]
pub enum StepKind {
    EnvRequire { vars: Vec<String> },
    FsMkdirAll { path: String },
    FsWriteString { path: String, content: String },
    FsAppend { path: String, content: String },
    FsCopy { from: String, to: String },
    FsRename { from: String, to: String },
    FsRemove { path: String },
    HttpDownload { url: String, path: String },
    HttpGet { url: String, dest: String },
    ArchiveCreateZip { source: String, dest: String },
    ArchiveCreateTar { source: String, dest: String },
    ArchiveCreateTarGz { source: String, dest: String },
    ArchiveExtractZip { archive: String, dest: String },
    ArchiveExtractTar { archive: String, dest: String },
    ArchiveExtractTarGz { archive: String, dest: String },
    ShRun { command: String },
}

/// A step that passed validation: its name and its typed operation.
#[derive(Debug, Clone, PartialEq, Eq)]
pub struct ValidatedStep {
    pub name: String,
    pub kind: StepKind,
}

/// A script that passed validation.
#[derive(Debug, Clone, PartialEq, Eq)]
pub struct ValidatedScript {
    pub name: String,
    pub description: Option<String>,
    pub steps: Vec<ValidatedStep>,
}

/// Why a script was rejected.
#[derive(Debug, Clone, PartialEq, Eq)]
pub enum ScriptError {
    DuplicateStepName { name: String },
    UnknownStepType { step_type: String },
    UnknownField { step: String, step_type: String, field: String },
    MissingField { step: String, step_type: String, field: String },
    NotStringList { step: String, step_type: String, field: String },
}

impl View for StepKind {
    type V = SpecStepKind;

    open spec fn view(&self) -> SpecStepKind {
        match self {
            StepKind::EnvRequire { vars } => SpecStepKind::EnvRequire { vars: vars.deep_view() },
            StepKind::FsMkdirAll { path } => SpecStepKind::FsMkdirAll { path: path@ },
            StepKind::FsWriteString { path, content } => SpecStepKind::FsWriteString {
                path: path@,
                content: content@,
            },
            StepKind::FsAppend { path, content } => SpecStepKind::FsAppend {
                path: path@,
                content: content@,
            },
            StepKind::FsCopy { from, to } => SpecStepKind::FsCopy { from: from@, to: to@ },
            StepKind::FsRename { from, to } => SpecStepKind::FsRename { from: from@, to: to@ },
            StepKind::FsRemove { path } => SpecStepKind::FsRemove { path: path@ },
            StepKind::HttpDownload { url, path } => SpecStepKind::HttpDownload {
                url: url@,
                path: path@,
            },
            StepKind::HttpGet { url, dest } => SpecStepKind::HttpGet { url: url@, dest: dest@ },
            StepKind::ArchiveCreateZip { source, dest } => SpecStepKind::ArchiveCreateZip {
                source: source@,
                dest: dest@,
            },
            StepKind::ArchiveCreateTar { source, dest } => SpecStepKind::ArchiveCreateTar {
                source: source@,
                dest: dest@,
            },
            StepKind::ArchiveCreateTarGz { source, dest } => SpecStepKind::ArchiveCreateTarGz {
                source: source@,
                dest: dest@,
            },
            StepKind::ArchiveExtractZip { archive, dest } => SpecStepKind::ArchiveExtractZip {
                archive: archive@,
                dest: dest@,
            },
            StepKind::ArchiveExtractTar { archive, dest } => SpecStepKind::ArchiveExtractTar {
                archive: archive@,
                dest: dest@,
            },
            StepKind::ArchiveExtractTarGz { archive, dest } => SpecStepKind::ArchiveExtractTarGz {
                archive: archive@,
                dest: dest@,
            },
            StepKind::ShRun { command } => SpecStepKind::ShRun { command: command@ },
        }
    }
}

impl View for ValidatedStep {
    type V = SpecValidatedStep;

    open spec fn view(&self) -> SpecValidatedStep {
        SpecValidatedStep { name: self.name@, kind: self.kind@ }
    }
}

impl View for ValidatedScript {
    type V = SpecValidatedScript;

    open spec fn view(&self) -> SpecValidatedScript {
        SpecValidatedScript {
            name: self.name@,
            description: match self.description {
                Some(d) => Some(d@),
                None => None,
            },
            steps: step_views(self.steps@),
        }
    }
}

/// The views of a sequence of validated steps.
pub open spec fn step_views(steps: Seq<ValidatedStep>) -> Seq<SpecValidatedStep> {
    steps.map_values(|s: ValidatedStep| s@)
}

impl View for ScriptError {
    type V = SpecScriptError;

    open spec fn view(&self) -> SpecScriptError {
        match self {
            ScriptError::DuplicateStepName { name } => SpecScriptError::DuplicateStepName {
                name: name@,
            },
            ScriptError::UnknownStepType { step_type } => SpecScriptError::UnknownStepType {
                step_type: step_type@,
            },
            ScriptError::UnknownField { step, step_type, field } => SpecScriptError::UnknownField {
                step: step@,
                step_type: step_type@,
                field: field@,
            },
            ScriptError::MissingField { step, step_type, field } => SpecScriptError::MissingField {
                step: step@,
                step_type: step_type@,
                field: field@,
            },
            ScriptError::NotStringList { step, step_type, field } => SpecScriptError::NotStringList {
                step: step@,
                step_type: step_type@,
                field: field@,
            },
        }
    }
}

/// The text that describes a rejection.
pub open spec fn spec_error_message(e: SpecScriptError) -> Seq<char> {
    match e {
        SpecScriptError::DuplicateStepName { name } => "Duplicate step name: "@ + name,
        SpecScriptError::UnknownStepType { step_type } => "Unknown step type: "@ + step_type,
        SpecScriptError::UnknownField { step, step_type, field } => "Step '"@ + step + "' ("@ + step_type
            + ") has unknown field '"@ + field + "'"@,
        SpecScriptError::MissingField { step, step_type, field } => "Step '"@ + step + "' ("@ + step_type
            + ") is missing required field '"@ + field + "'"@,
        SpecScriptError::NotStringList { step, step_type, field } => "Step '"@ + step + "' ("@ + step_type
            + ") field '"@ + field + "' must be a list of strings"@,
    }
}

impl ScriptError {
    /// The text that describes this rejection.
    pub fn message(&self) -> (r: String)
        ensures
            r@ == spec_error_message(self@),
    {
        let mut m = String::new();
        match self {
            ScriptError::DuplicateStepName { name } => {
                m.append("Duplicate step name: ");
                m.append(name.as_str());
            },
            ScriptError::UnknownStepType { step_type } => {
                m.append("Unknown step type: ");
                m.append(step_type.as_str());
            },
            ScriptError::UnknownField { step, step_type, field } => {
                m.append("Step '");
                m.append(step.as_str());
                m.append("' (");
                m.append(step_type.as_str());
                m.append(") has unknown field '");
                m.append(field.as_str());
                m.append("'");
            },
            ScriptError::MissingField { step, step_type, field } => {
                m.append("Step '");
                m.append(step.as_str());
                m.append("' (");
                m.append(step_type.as_str());
                m.append(") is missing required field '");
                m.append(field.as_str());
                m.append("'");
            },
            ScriptError::NotStringList { step, step_type, field } => {
                m.append("Step '");
                m.append(step.as_str());
                m.append("' (");
                m.append(step_type.as_str());
                m.append(") field '");
                m.append(field.as_str());
                m.append("' must be a list of strings");
            },
        }
        m
    }
}

/// A result taken by the views of its two sides.
pub open spec fn view_result<A: View, B: View>(r: Result<A, B>) -> Result<A::V, B::V> {
    match r {
        Ok(a) => Ok(a@),
        Err(b) => Err(b@),
    }
}

/// The name of the first field, in order, whose name is not among `allowed`.
pub open spec fn first_unknown_field(fields: Seq<(String, FieldValue)>, allowed: Seq<Seq<char>>) -> Option<Seq<char>>
    decreases fields.len(),
{
    if fields.len() == 0 {
        None
    } else if !allowed.contains(fields[0].0@) {
        Some(fields[0].0@)
    } else {
        first_unknown_field(fields.drop_first(), allowed)
    }
}

/// The names in a list of string slices, by their characters.
pub open spec fn names_of(allowed: Seq<&str>) -> Seq<Seq<char>> {
    allowed.map_values(|s: &str| s@)
}

/// Checks that a step holds no field outside `allowed`.
pub open spec fn spec_ensure_fields(step: Step, allowed: Seq<Seq<char>>) -> Result<(), SpecScriptError> {
    match first_unknown_field(step.fields@, allowed) {
        Some(field) => Err(SpecScriptError::UnknownField { step: step.name@, step_type: step.step_type@, field }),
        None => Ok(()),
    }
}

/// The error for a field that is absent or not of the expected kind.
pub open spec fn missing_field(step: Step, field: Seq<char>) -> SpecScriptError {
    SpecScriptError::MissingField { step: step.name@, step_type: step.step_type@, field }
}

/// The string stored in a required field.
pub open spec fn spec_required_string(step: Step, field: Seq<char>) -> Result<Seq<char>, SpecScriptError> {
    match field_lookup(step.fields@, field) {
        Some(FieldValue::Str(s)) => Ok(s@),
        _ => Err(missing_field(step, field)),
    }
}

/// Whether every item of an array is a string.
pub open spec fn all_strings(items: Seq<FieldValue>) -> bool {
    forall|i: int| 0 <= i < items.len() ==> (#[trigger] items[i]) is Str
}

/// The characters of a string value (empty for any other value).
pub open spec fn str_chars(v: FieldValue) -> Seq<char> {
    match v {
        FieldValue::Str(s) => s@,
        _ => Seq::empty(),
    }
}

/// The characters of each item of an array of strings.
pub open spec fn strings_of(items: Seq<FieldValue>) -> Seq<Seq<char>> {
    items.map_values(|v: FieldValue| str_chars(v))
}

/// The list of strings stored in a required field.
pub open spec fn spec_string_list(step: Step, field: Seq<char>) -> Result<Seq<Seq<char>>, SpecScriptError> {
    match field_lookup(step.fields@, field) {
        Some(FieldValue::Array(items)) => if all_strings(items@) {
            Ok(strings_of(items@))
        } else {
            Err(SpecScriptError::NotStringList { step: step.name@, step_type: step.step_type@, field })
        },
        _ => Err(missing_field(step, field)),
    }
}

/// A step allowed exactly the field `f`, which must be a string.
pub open spec fn spec_one_string(step: Step, f: Seq<char>) -> Result<Seq<char>, SpecScriptError> {
    match spec_ensure_fields(step, seq![f]) {
        Err(e) => Err(e),
        Ok(_) => spec_required_string(step, f),
    }
}

/// A step allowed exactly the fields `f` and `g`, which must both be strings.
pub open spec fn spec_two_strings(step: Step, f: Seq<char>, g: Seq<char>) -> Result<(Seq<char>, Seq<char>), SpecScriptError> {
    match spec_ensure_fields(step, seq![f, g]) {
        Err(e) => Err(e),
        Ok(_) => match spec_required_string(step, f) {
            Err(e) => Err(e),
            Ok(a) => match spec_required_string(step, g) {
                Err(e) => Err(e),
                Ok(b) => Ok((a, b)),
            },
        },
    }
}

/// The step operation that a raw step validates to, or why it is rejected.
pub open spec fn spec_validate_step(step: Step) -> Result<SpecStepKind, SpecScriptError> {
    let t = step.step_type@;
    if t == "env.require"@ {
        match spec_ensure_fields(step, seq!["vars"@]) {
            Err(e) => Err(e),
            Ok(_) => match spec_string_list(step, "vars"@) {
                Err(e) => Err(e),
                Ok(vars) => Ok(SpecStepKind::EnvRequire { vars }),
            },
        }
    } else if t == "fs.mkdir_all"@ {
        match spec_one_string(step, "path"@) {
            Err(e) => Err(e),
            Ok(path) => Ok(SpecStepKind::FsMkdirAll { path }),
        }
    } else if t == "fs.write_string"@ {
        match spec_two_strings(step, "path"@, "content"@) {
            Err(e) => Err(e),
            Ok((path, content)) => Ok(SpecStepKind::FsWriteString { path, content }),
        }
    } else if t == "fs.append"@ {
        match spec_two_strings(step, "path"@, "content"@) {
            Err(e) => Err(e),
            Ok((path, content)) => Ok(SpecStepKind::FsAppend { path, content }),
        }
    } else if t == "fs.copy"@ {
        match spec_two_strings(step, "from"@, "to"@) {
            Err(e) => Err(e),
            Ok((from, to)) => Ok(SpecStepKind::FsCopy { from, to }),
        }
    } else if t == "fs.rename"@ {
        match spec_two_strings(step, "from"@, "to"@) {
            Err(e) => Err(e),
            Ok((from, to)) => Ok(SpecStepKind::FsRename { from, to }),
        }
    } else if t == "fs.remove"@ {
        match spec_one_string(step, "path"@) {
            Err(e) => Err(e),
            Ok(path) => Ok(SpecStepKind::FsRemove { path }),
        }
    } else if t == "http.download"@ {
        match spec_two_strings(step, "url"@, "path"@) {
            Err(e) => Err(e),
            Ok((url, path)) => Ok(SpecStepKind::HttpDownload { url, path }),
        }
    } else if t == "http.get"@ {
        match spec_two_strings(step, "url"@, "dest"@) {
            Err(e) => Err(e),
            Ok((url, dest)) => Ok(SpecStepKind::HttpGet { url, dest }),
        }
    } else if t == "archive.create_zip"@ {
        match spec_two_strings(step, "source"@, "dest"@) {
            Err(e) => Err(e),
            Ok((source, dest)) => Ok(SpecStepKind::ArchiveCreateZip { source, dest }),
        }
    } else if t == "archive.create_tar"@ {
        match spec_two_strings(step, "source"@, "dest"@) {
            Err(e) => Err(e),
            Ok((source, dest)) => Ok(SpecStepKind::ArchiveCreateTar { source, dest }),
        }
    } else if t == "archive.create_tar_gz"@ {
        match spec_two_strings(step, "source"@, "dest"@) {
            Err(e) => Err(e),
            Ok((source, dest)) => Ok(SpecStepKind::ArchiveCreateTarGz { source, dest }),
        }
    } else if t == "archive.extract_zip"@ {
        match spec_two_strings(step, "archive"@, "dest"@) {
            Err(e) => Err(e),
            Ok((archive, dest)) => Ok(SpecStepKind::ArchiveExtractZip { archive, dest }),
        }
    } else if t == "archive.extract_tar"@ {
        match spec_two_strings(step, "archive"@, "dest"@) {
            Err(e) => Err(e),
            Ok((archive, dest)) => Ok(SpecStepKind::ArchiveExtractTar { archive, dest }),
        }
    } else if t == "archive.extract_tar_gz"@ {
        match spec_two_strings(step, "archive"@, "dest"@) {
            Err(e) => Err(e),
            Ok((archive, dest)) => Ok(SpecStepKind::ArchiveExtractTarGz { archive, dest }),
        }
    } else if t == "sh.run"@ {
        match spec_one_string(step, "command"@) {
            Err(e) => Err(e),
            Ok(command) => Ok(SpecStepKind::ShRun { command }),
        }
    } else {
        Err(SpecScriptError::UnknownStepType { step_type: t })
    }
}

/// Whether the step at index `i` shares its name with an earlier step.
pub open spec fn name_seen_before(steps: Seq<Step>, i: int) -> bool {
    exists|j: int| 0 <= j < i && (#[trigger] steps[j]).name@ == steps[i].name@
}

/// Validation of the first `n` steps: the validated steps, or the error of
/// the first step that fails, checking its name before its fields.
pub open spec fn spec_validate_steps(steps: Seq<Step>, n: int) -> Result<Seq<SpecValidatedStep>, SpecScriptError>
    decreases n,
{
    if n <= 0 {
        Ok(Seq::empty())
    } else {
        match spec_validate_steps(steps, n - 1) {
            Err(e) => Err(e),
            Ok(done) => if name_seen_before(steps, n - 1) {
                Err(SpecScriptError::DuplicateStepName { name: steps[n - 1].name@ })
            } else {
                match spec_validate_step(steps[n - 1]) {
                    Err(e) => Err(e),
                    Ok(kind) => Ok(done.push(SpecValidatedStep { name: steps[n - 1].name@, kind })),
                }
            },
        }
    }
}

/// The validated form of a whole script, or why it is rejected.
pub open spec fn spec_validate_script(script: Script) -> Result<SpecValidatedScript, SpecScriptError> {
    match spec_validate_steps(script.steps@, script.steps@.len() as int) {
        Err(e) => Err(e),
        Ok(steps) => Ok(SpecValidatedScript {
            name: script.name@,
            description: match script.description {
                Some(d) => Some(d@),
                None => None,
            },
            steps,
        }),
    }
}

fn step_error_unknown_field(step: &Step, field: &String) -> (e: ScriptError)
    ensures
        e@ == (SpecScriptError::UnknownField { step: step.name@, step_type: step.step_type@, field: field@ }),
{
    ScriptError::UnknownField { step: step.name.clone(), step_type: step.step_type.clone(), field: field.clone() }
}

fn step_error_missing_field(step: &Step, field: &str) -> (e: ScriptError)
    ensures
        e@ == missing_field(*step, field@),
{
    ScriptError::MissingField { step: step.name.clone(), step_type: step.step_type.clone(), field: field.to_owned() }
}

/// Whether `name` is one of `allowed`.
fn is_allowed(allowed: &[&str], name: &str) -> (r: bool)
    ensures
        r == names_of(allowed@).contains(name@),
{
    let mut i: usize = 0;
    while i < allowed.len()
        invariant
            i <= allowed@.len(),
            forall|j: int| 0 <= j < i ==> allowed@[j]@ != name@,
        decreases allowed@.len() - i,
    {
        if str_eq(allowed[i], name) {
            assert(names_of(allowed@)[i as int] == name@);
            return true;
        }
        i = i + 1;
    }
    assert(!names_of(allowed@).contains(name@)) by {
        if names_of(allowed@).contains(name@) {
            let k = choose|k: int| 0 <= k < names_of(allowed@).len() && names_of(allowed@)[k] == name@;
            assert(allowed@[k]@ == name@);
        }
    }
    false
}

/// Rejects a step that holds a field outside `allowed`, naming the first such field.
fn ensure_fields(step: &Step, allowed: &[&str]) -> (r: Result<(), ScriptError>)
    ensures
        view_result(r) == spec_ensure_fields(*step, names_of(allowed@)),
{
    let fields = &step.fields;
    let mut i: usize = 0;
    assert(fields@.skip(0) =~= fields@);
    while i < fields.len()
        invariant
            i <= fields@.len(),
            fields == &step.fields,
            first_unknown_field(fields@, names_of(allowed@)) == first_unknown_field(fields@.skip(i as int), names_of(allowed@)),
        decreases fields@.len() - i,
    {
        assert(fields@.skip(i as int).drop_first() =~= fields@.skip(i + 1));
        let key = &fields[i].0;
        if !is_allowed(allowed, key.as_str()) {
            return Err(step_error_unknown_field(step, key));
        }
        i = i + 1;
    }
    assert(fields@.skip(i as int).len() == 0);
    Ok(())
}

/// Finds the value stored under `field`.
fn lookup<'a>(step: &'a Step, field: &str) -> (r: Option<&'a FieldValue>)
    ensures
        match r {
            Some(v) => field_lookup(step.fields@, field@) == Some(*v),
            None => field_lookup(step.fields@, field@) is None,
        },
{
    let fields = &step.fields;
    let mut i: usize = 0;
    assert(fields@.skip(0) =~= fields@);
    while i < fields.len()
        invariant
            i <= fields@.len(),
            fields == &step.fields,
            field_lookup(fields@, field@) == field_lookup(fields@.skip(i as int), field@),
        decreases fields@.len() - i,
    {
        assert(fields@.skip(i as int).drop_first() =~= fields@.skip(i + 1));
        if str_eq(fields[i].0.as_str(), field) {
            return Some(&fields[i].1);
        }
        i = i + 1;
    }
    None
}

/// The string stored in the required field `field`.
fn required_string(step: &Step, field: &str) -> (r: Result<String, ScriptError>)
    ensures
        view_result(r) == spec_required_string(*step, field@),
{
    match lookup(step, field) {
        Some(FieldValue::Str(s)) => Ok(s.clone()),
        _ => Err(step_error_missing_field(step, field)),
    }
}

/// The list of strings stored in the required field `field`.
fn string_list(step: &Step, field: &str) -> (r: Result<Vec<String>, ScriptError>)
    ensures
        match r {
            Ok(v) => spec_string_list(*step, field@) == Ok::<Seq<Seq<char>>, SpecScriptError>(v.deep_view()),
            Err(e) => spec_string_list(*step, field@) == Err::<Seq<Seq<char>>, SpecScriptError>(e@),
        },
{
    let found = lookup(step, field);
    let items = match found {
        Some(FieldValue::Array(items)) => items,
        _ => {
            return Err(step_error_missing_field(step, field));
        },
    };
    assert(field_lookup(step.fields@, field@) == Some(FieldValue::Array(*items)));
    let mut out: Vec<String> = Vec::new();
    let mut i: usize = 0;
    while i < items.len()
        invariant
            i <= items@.len(),
            out@.len() == i,
            field_lookup(step.fields@, field@) == Some(FieldValue::Array(*items)),
            forall|j: int| 0 <= j < i ==> (#[trigger] items@[j]) is Str,
            forall|j: int| 0 <= j < i ==> (#[trigger] out@[j])@ == str_chars(items@[j]),
        decreases items@.len() - i,
    {
        match &items[i] {
            FieldValue::Str(s) => {
                out.push(s.clone());
            },
            _ => {
                assert(!all_strings(items@));
                return Err(ScriptError::NotStringList {
                    step: step.name.clone(),
                    step_type: step.step_type.clone(),
                    field: field.to_owned(),
                });
            },
        }
        i = i + 1;
    }
    assert(all_strings(items@));
    assert(out.deep_view() =~= strings_of(items@));
    Ok(out)
}


/// Validates a step allowed exactly the field `f`, a string.
fn one_string(step: &Step, f: &str) -> (r: Result<String, ScriptError>)
    ensures
        view_result(r) == spec_one_string(*step, f@),
{
    let allowed = [f];
    assert(names_of(allowed@) =~= seq![f@]);
    ensure_fields(step, &allowed)?;
    required_string(step, f)
}

/// Validates a step allowed exactly the fields `f` and `g`, both strings.
fn two_strings(step: &Step, f: &str, g: &str) -> (r: Result<(String, String), ScriptError>)
    ensures
        match r {
            Ok((a, b)) => spec_two_strings(*step, f@, g@) == Ok::<(Seq<char>, Seq<char>), SpecScriptError>((a@, b@)),
            Err(e) => spec_two_strings(*step, f@, g@) == Err::<(Seq<char>, Seq<char>), SpecScriptError>(e@),
        },
{
    let allowed = [f, g];
    assert(names_of(allowed@) =~= seq![f@, g@]);
    ensure_fields(step, &allowed)?;
    let a = required_string(step, f)?;
    let b = required_string(step, g)?;
    Ok((a, b))
}

/// Checks a step against the catalog of step types and their fields.
fn validate_step(step: &Step) -> (r: Result<StepKind, ScriptError>)
    ensures
        view_result(r) == spec_validate_step(*step),
{
    let t = step.step_type.as_str();
    if str_eq(t, "env.require") {
        let allowed = ["vars"];
        assert(names_of(allowed@) =~= seq!["vars"@]);
        ensure_fields(step, &allowed)?;
        let vars = string_list(step, "vars")?;
        Ok(StepKind::EnvRequire { vars })
    } else if str_eq(t, "fs.mkdir_all") {
        let path = one_string(step, "path")?;
        Ok(StepKind::FsMkdirAll { path })
    } else if str_eq(t, "fs.write_string") {
        let (path, content) = two_strings(step, "path", "content")?;
        Ok(StepKind::FsWriteString { path, content })
    } else if str_eq(t, "fs.append") {
        let (path, content) = two_strings(step, "path", "content")?;
        Ok(StepKind::FsAppend { path, content })
    } else if str_eq(t, "fs.copy") {
        let (from, to) = two_strings(step, "from", "to")?;
        Ok(StepKind::FsCopy { from, to })
    } else if str_eq(t, "fs.rename") {
        let (from, to) = two_strings(step, "from", "to")?;
        Ok(StepKind::FsRename { from, to })
    } else if str_eq(t, "fs.remove") {
        let path = one_string(step, "path")?;
        Ok(StepKind::FsRemove { path })
    } else if str_eq(t, "http.download") {
        let (url, path) = two_strings(step, "url", "path")?;
        Ok(StepKind::HttpDownload { url, path })
    } else if str_eq(t, "http.get") {
        let (url, dest) = two_strings(step, "url", "dest")?;
        Ok(StepKind::HttpGet { url, dest })
    } else if str_eq(t, "archive.create_zip") {
        let (source, dest) = two_strings(step, "source", "dest")?;
        Ok(StepKind::ArchiveCreateZip { source, dest })
    } else if str_eq(t, "archive.create_tar") {
        let (source, dest) = two_strings(step, "source", "dest")?;
        Ok(StepKind::ArchiveCreateTar { source, dest })
    } else if str_eq(t, "archive.create_tar_gz") {
        let (source, dest) = two_strings(step, "source", "dest")?;
        Ok(StepKind::ArchiveCreateTarGz { source, dest })
    } else if str_eq(t, "archive.extract_zip") {
        let (archive, dest) = two_strings(step, "archive", "dest")?;
        Ok(StepKind::ArchiveExtractZip { archive, dest })
    } else if str_eq(t, "archive.extract_tar") {
        let (archive, dest) = two_strings(step, "archive", "dest")?;
        Ok(StepKind::ArchiveExtractTar { archive, dest })
    } else if str_eq(t, "archive.extract_tar_gz") {
        let (archive, dest) = two_strings(step, "archive", "dest")?;
        Ok(StepKind::ArchiveExtractTarGz { archive, dest })
    } else if str_eq(t, "sh.run") {
        let command = one_string(step, "command")?;
        Ok(StepKind::ShRun { command })
    } else {
        Err(ScriptError::UnknownStepType { step_type: step.step_type.clone() })
    }
}

/// Once validation of a prefix fails, validation of every longer prefix
/// fails with the same error.
proof fn lemma_validate_steps_error_persists(steps: Seq<Step>, n: int, m: int)
    requires
        0 < n <= m,
        spec_validate_steps(steps, n) is Err,
    ensures
        spec_validate_steps(steps, m) == spec_validate_steps(steps, n),
    decreases m - n,
{
    if m > n {
        lemma_validate_steps_error_persists(steps, n, m - 1);
    }
}

/// Whether an earlier step among the first `i` is named `name`.
fn name_in_prefix(steps: &Vec<Step>, i: usize, name: &String) -> (r: bool)
    requires
        i <= steps@.len(),
    ensures
        r == exists|j: int| 0 <= j < i && (#[trigger] steps@[j]).name@ == name@,
{
    let mut j: usize = 0;
    while j < i
        invariant
            j <= i,
            i <= steps@.len(),
            forall|k: int| 0 <= k < j ==> (#[trigger] steps@[k]).name@ != name@,
        decreases i - j,
    {
        if steps[j].name == *name {
            assert(steps@[j as int].name@ == name@);
            return true;
        }
        j = j + 1;
    }
    false
}

/// Validates a parsed script: every step name must be unique, every step type
/// known, and every step must hold exactly the fields its type allows, with
/// the required ones present. The first failing step, in order, decides the error.
pub fn validate_script(script: &Script) -> (r: Result<ValidatedScript, ScriptError>)
    ensures
        view_result(r) == spec_validate_script(*script),
{
    let steps_in = &script.steps;
    let mut steps: Vec<ValidatedStep> = Vec::new();
    let mut i: usize = 0;
    assert(step_views(steps@) =~= Seq::<SpecValidatedStep>::empty());
    while i < steps_in.len()
        invariant
            i <= steps_in@.len(),
            steps_in == &script.steps,
            spec_validate_steps(steps_in@, i as int) == Ok::<Seq<SpecValidatedStep>, SpecScriptError>(
                step_views(steps@),
            ),
        decreases steps_in@.len() - i,
    {
        let step = &steps_in[i];
        if name_in_prefix(steps_in, i, &step.name) {
            assert(name_seen_before(steps_in@, i as int));
            proof {
                lemma_validate_steps_error_persists(steps_in@, i + 1, steps_in@.len() as int);
            }
            return Err(ScriptError::DuplicateStepName { name: step.name.clone() });
        }
        let kind = match validate_step(step) {
            Ok(kind) => kind,
            Err(e) => {
                proof {
                    lemma_validate_steps_error_persists(steps_in@, i + 1, steps_in@.len() as int);
                }
                return Err(e);
            },
        };
        let ghost before = steps@;
        steps.push(ValidatedStep { name: step.name.clone(), kind });
        assert(step_views(steps@) =~= step_views(before).push(
            SpecValidatedStep { name: steps_in@[i as int].name@, kind: kind@ },
        ));
        i = i + 1;
    }
    let description = match &script.description {
        Some(d) => Some(d.clone()),
        None => None,
    };
    Ok(ValidatedScript { name: script.name.clone(), description, steps })
}

/// The fields that each known step type allows, all of them required.
pub open spec fn allowed_fields(t: Seq<char>) -> Option<Seq<Seq<char>>> {
    if t == "env.require"@ {
        Some(seq!["vars"@])
    } else if t == "fs.mkdir_all"@ {
        Some(seq!["path"@])
    } else if t == "fs.write_string"@ {
        Some(seq!["path"@, "content"@])
    } else if t == "fs.append"@ {
        Some(seq!["path"@, "content"@])
    } else if t == "fs.copy"@ {
        Some(seq!["from"@, "to"@])
    } else if t == "fs.rename"@ {
        Some(seq!["from"@, "to"@])
    } else if t == "fs.remove"@ {
        Some(seq!["path"@])
    } else if t == "http.download"@ {
        Some(seq!["url"@, "path"@])
    } else if t == "http.get"@ {
        Some(seq!["url"@, "dest"@])
    } else if t == "archive.create_zip"@ {
        Some(seq!["source"@, "dest"@])
    } else if t == "archive.create_tar"@ {
        Some(seq!["source"@, "dest"@])
    } else if t == "archive.create_tar_gz"@ {
        Some(seq!["source"@, "dest"@])
    } else if t == "archive.extract_zip"@ {
        Some(seq!["archive"@, "dest"@])
    } else if t == "archive.extract_tar"@ {
        Some(seq!["archive"@, "dest"@])
    } else if t == "archive.extract_tar_gz"@ {
        Some(seq!["archive"@, "dest"@])
    } else if t == "sh.run"@ {
        Some(seq!["command"@])
    } else {
        None
    }
}

proof fn lemma_no_unknown_field(fields: Seq<(String, FieldValue)>, allowed: Seq<Seq<char>>)
    requires
        first_unknown_field(fields, allowed) is None,
    ensures
        forall|i: int| 0 <= i < fields.len() ==> allowed.contains((#[trigger] fields[i]).0@),
    decreases fields.len(),
{
    if fields.len() > 0 {
        lemma_no_unknown_field(fields.drop_first(), allowed);
        assert forall|i: int| 0 <= i < fields.len() implies allowed.contains((#[trigger] fields[i]).0@) by {
            if i > 0 {
                assert(fields[i] == fields.drop_first()[i - 1]);
            }
        }
    }
}

/// A step type outside the catalog is rejected, naming the type.
pub proof fn lemma_unknown_step_type_rejected(step: Step)
    requires
        allowed_fields(step.step_type@) is None,
    ensures
        spec_validate_step(step) == Err::<SpecStepKind, SpecScriptError>(
            SpecScriptError::UnknownStepType { step_type: step.step_type@ },
        ),
{
}

/// An accepted step has a known type, holds no field beyond those its type
/// allows, and holds every one of them.
pub proof fn lemma_accepted_step_fields(step: Step)
    requires
        spec_validate_step(step) is Ok,
    ensures
        allowed_fields(step.step_type@) is Some,
        forall|i: int| 0 <= i < step.fields@.len()
            ==> allowed_fields(step.step_type@)->0.contains((#[trigger] step.fields@[i]).0@),
        forall|k: int| 0 <= k < allowed_fields(step.step_type@)->0.len()
            ==> field_lookup(step.fields@, #[trigger] allowed_fields(step.step_type@)->0[k]) is Some,
{
    let t = step.step_type@;
    let a = allowed_fields(t)->0;
    assert(allowed_fields(t) is Some);
    assert(spec_ensure_fields(step, a) is Ok);
    lemma_no_unknown_field(step.fields@, a);
    assert forall|k: int| 0 <= k < a.len() implies field_lookup(step.fields@, #[trigger] a[k]) is Some by {
        if t == "env.require"@ {
            assert(spec_string_list(step, "vars"@) is Ok);
        } else if a.len() == 1 {
            assert(spec_required_string(step, a[0]) is Ok);
        } else {
            assert(spec_required_string(step, a[0]) is Ok);
            assert(spec_required_string(step, a[1]) is Ok);
        }
    }
}

/// Whether no two steps share a name.
pub open spec fn distinct_step_names(steps: Seq<Step>) -> bool {
    forall|i: int, j: int| 0 <= i < j < steps.len() ==> (#[trigger] steps[i]).name@ != (#[trigger] steps[j]).name@
}

/// The validated form of each step of an accepted script.
pub open spec fn validated_steps_of(steps: Seq<Step>) -> Seq<SpecValidatedStep> {
    steps.map_values(|s: Step| SpecValidatedStep { name: s.name@, kind: spec_validate_step(s)->Ok_0 })
}

proof fn lemma_validate_steps_iff(steps: Seq<Step>, n: int)
    requires
        0 <= n <= steps.len(),
    ensures
        spec_validate_steps(steps, n) is Ok <==> (distinct_step_names(steps.take(n)) && forall|i: int|
            0 <= i < n ==> spec_validate_step(#[trigger] steps[i]) is Ok),
        spec_validate_steps(steps, n) is Ok ==> spec_validate_steps(steps, n)->Ok_0 == validated_steps_of(steps.take(n)),
    decreases n,
{
    if n > 0 {
        lemma_validate_steps_iff(steps, n - 1);
        let prefix = steps.take(n);
        assert(steps.take(n - 1) =~= prefix.drop_last());
        if spec_validate_steps(steps, n) is Ok {
            assert(!name_seen_before(steps, n - 1));
            assert forall|i: int, j: int| 0 <= i < j < prefix.len() implies (#[trigger] prefix[i]).name@ != (#[trigger] prefix[j]).name@ by {
                if j == n - 1 {
                    assert(steps[i] == prefix[i]);
                    if prefix[i].name@ == prefix[j].name@ {
                        assert(name_seen_before(steps, n - 1));
                    }
                } else {
                    assert(steps.take(n - 1)[i] == prefix[i]);
                    assert(steps.take(n - 1)[j] == prefix[j]);
                }
            }
            assert forall|i: int| 0 <= i < n implies spec_validate_step(#[trigger] steps[i]) is Ok by {
                if i < n - 1 {
                }
            }
            assert(spec_validate_steps(steps, n)->Ok_0 =~= validated_steps_of(prefix));
        } else {
            if distinct_step_names(prefix) && forall|i: int| 0 <= i < n ==> spec_validate_step(#[trigger] steps[i]) is Ok {
                assert forall|i: int, j: int| 0 <= i < j < steps.take(n - 1).len() implies (#[trigger] steps.take(n - 1)[i]).name@ != (#[trigger] steps.take(n - 1)[j]).name@ by {
                    assert(steps.take(n - 1)[i] == prefix[i]);
                    assert(steps.take(n - 1)[j] == prefix[j]);
                }
                if name_seen_before(steps, n - 1) {
                    let j = choose|j: int| 0 <= j < n - 1 && (#[trigger] steps[j]).name@ == steps[n - 1].name@;
                    assert(prefix[j] == steps[j]);
                    assert(prefix[n - 1] == steps[n - 1]);
                }
                assert(spec_validate_step(steps[n - 1]) is Ok);
            }
        }
    } else {
        assert(steps.take(0) =~= Seq::<Step>::empty());
        assert(validated_steps_of(steps.take(0)) =~= Seq::<SpecValidatedStep>::empty());
    }
}

/// A script is accepted exactly when its step names are distinct and each of
/// its steps is accepted on its own. The accepted script keeps the script's
/// name and description, and holds one validated step per step, in order,
/// each under the step's own name.
pub proof fn lemma_validate_script_iff(script: Script)
    ensures
        spec_validate_script(script) is Ok <==> (distinct_step_names(script.steps@) && forall|i: int|
            0 <= i < script.steps@.len() ==> spec_validate_step(#[trigger] script.steps@[i]) is Ok),
        spec_validate_script(script) is Ok ==> {
            let v = spec_validate_script(script)->Ok_0;
            &&& v.name == script.name@
            &&& v.description == (match script.description {
                Some(d) => Some(d@),
                None => None::<Seq<char>>,
            })
            &&& v.steps == validated_steps_of(script.steps@)
        },
{
    let steps = script.steps@;
    lemma_validate_steps_iff(steps, steps.len() as int);
    assert(steps.take(steps.len() as int) =~= steps);
}

/// Two steps that share a name make the script rejected.
pub proof fn lemma_duplicate_names_rejected(script: Script, i: int, j: int)
    requires
        0 <= i < j < script.steps@.len(),
        script.steps@[i].name@ == script.steps@[j].name@,
    ensures
        spec_validate_script(script) is Err,
{
    lemma_validate_script_iff(script);
}

/// The text written in a step's field `f` (empty when the field is absent or
/// not a string).
pub open spec fn field_text(step: Step, f: Seq<char>) -> Seq<char> {
    match field_lookup(step.fields@, f) {
        Some(FieldValue::Str(s)) => s@,
        _ => Seq::empty(),
    }
}

/// The texts written in a step's array field `f`, item by item.
pub open spec fn field_texts(step: Step, f: Seq<char>) -> Seq<Seq<char>> {
    match field_lookup(step.fields@, f) {
        Some(FieldValue::Array(items)) => items@.map_values(
            |v: FieldValue|
                match v {
                    FieldValue::Str(s) => s@,
                    _ => Seq::empty(),
                },
        ),
        _ => Seq::empty(),
    }
}

/// Reading exactly two string fields gives the texts written in them.
proof fn lemma_two_strings_text(step: Step, f: Seq<char>, g: Seq<char>)
    requires
        spec_two_strings(step, f, g) is Ok,
    ensures
        spec_two_strings(step, f, g)->Ok_0 == (field_text(step, f), field_text(step, g)),
{
}

/// Reading exactly one string field gives the text written in it.
proof fn lemma_one_string_text(step: Step, f: Seq<char>)
    requires
        spec_one_string(step, f) is Ok,
    ensures
        spec_one_string(step, f)->Ok_0 == field_text(step, f),
{
}

/// Validation copies field values and never rewrites them: an accepted step
/// becomes the operation its type names, each of whose strings is exactly the
/// text written in the field of the same role (for `fs.copy`, `from` is the
/// `from` field and `to` the `to` field; for `fs.append`, `content` is the
/// `content` field, trailing newlines and all).
pub proof fn lemma_validation_copies_fields(step: Step)
    requires
        spec_validate_step(step) is Ok,
    ensures
        step.step_type@ == "env.require"@ ==> spec_validate_step(step)->Ok_0 == (SpecStepKind::EnvRequire { vars: field_texts(step, "vars"@) }),
        step.step_type@ == "fs.mkdir_all"@ ==> spec_validate_step(step)->Ok_0 == (SpecStepKind::FsMkdirAll { path: field_text(step, "path"@) }),
        step.step_type@ == "fs.write_string"@ ==> spec_validate_step(step)->Ok_0 == (SpecStepKind::FsWriteString {
                path: field_text(step, "path"@),
                content: field_text(step, "content"@),
            }),
        step.step_type@ == "fs.append"@ ==> spec_validate_step(step)->Ok_0 == (SpecStepKind::FsAppend {
                path: field_text(step, "path"@),
                content: field_text(step, "content"@),
            }),
        step.step_type@ == "fs.copy"@ ==> spec_validate_step(step)->Ok_0 == (SpecStepKind::FsCopy { from: field_text(step, "from"@), to: field_text(step, "to"@) }),
        step.step_type@ == "fs.rename"@ ==> spec_validate_step(step)->Ok_0 == (SpecStepKind::FsRename {
                from: field_text(step, "from"@),
                to: field_text(step, "to"@),
            }),
        step.step_type@ == "fs.remove"@ ==> spec_validate_step(step)->Ok_0 == (SpecStepKind::FsRemove { path: field_text(step, "path"@) }),
        step.step_type@ == "http.download"@ ==> spec_validate_step(step)->Ok_0 == (SpecStepKind::HttpDownload {
                url: field_text(step, "url"@),
                path: field_text(step, "path"@),
            }),
        step.step_type@ == "http.get"@ ==> spec_validate_step(step)->Ok_0 == (SpecStepKind::HttpGet { url: field_text(step, "url"@), dest: field_text(step, "dest"@) }),
        step.step_type@ == "archive.create_zip"@ ==> spec_validate_step(step)->Ok_0 == (SpecStepKind::ArchiveCreateZip {
                source: field_text(step, "source"@),
                dest: field_text(step, "dest"@),
            }),
        step.step_type@ == "archive.create_tar"@ ==> spec_validate_step(step)->Ok_0 == (SpecStepKind::ArchiveCreateTar {
                source: field_text(step, "source"@),
                dest: field_text(step, "dest"@),
            }),
        step.step_type@ == "archive.create_tar_gz"@ ==> spec_validate_step(step)->Ok_0 == (SpecStepKind::ArchiveCreateTarGz {
                source: field_text(step, "source"@),
                dest: field_text(step, "dest"@),
            }),
        step.step_type@ == "archive.extract_zip"@ ==> spec_validate_step(step)->Ok_0 == (SpecStepKind::ArchiveExtractZip {
                archive: field_text(step, "archive"@),
                dest: field_text(step, "dest"@),
            }),
        step.step_type@ == "archive.extract_tar"@ ==> spec_validate_step(step)->Ok_0 == (SpecStepKind::ArchiveExtractTar {
                archive: field_text(step, "archive"@),
                dest: field_text(step, "dest"@),
            }),
        step.step_type@ == "archive.extract_tar_gz"@ ==> spec_validate_step(step)->Ok_0 == (SpecStepKind::ArchiveExtractTarGz {
                archive: field_text(step, "archive"@),
                dest: field_text(step, "dest"@),
            }),
        step.step_type@ == "sh.run"@ ==> spec_validate_step(step)->Ok_0 == (SpecStepKind::ShRun { command: field_text(step, "command"@) }),
{
    reveal_strlit("env.require");
    reveal_strlit("fs.mkdir_all");
    reveal_strlit("fs.write_string");
    reveal_strlit("fs.append");
    reveal_strlit("fs.copy");
    reveal_strlit("fs.rename");
    reveal_strlit("fs.remove");
    reveal_strlit("http.download");
    reveal_strlit("http.get");
    reveal_strlit("archive.create_zip");
    reveal_strlit("archive.create_tar");
    reveal_strlit("archive.create_tar_gz");
    reveal_strlit("archive.extract_zip");
    reveal_strlit("archive.extract_tar");
    reveal_strlit("archive.extract_tar_gz");
    reveal_strlit("sh.run");
    assert("env.require"@.len() == 11);
    assert("fs.mkdir_all"@.len() == 12);
    assert("fs.write_string"@.len() == 15);
    assert("fs.append"@.len() == 9);
    assert("fs.copy"@.len() == 7);
    assert("fs.rename"@.len() == 9);
    assert("fs.remove"@.len() == 9);
    assert("http.download"@.len() == 13);
    assert("http.get"@.len() == 8);
    assert("archive.create_zip"@.len() == 18);
    assert("archive.create_tar"@.len() == 18);
    assert("archive.create_tar_gz"@.len() == 21);
    assert("archive.extract_zip"@.len() == 19);
    assert("archive.extract_tar"@.len() == 19);
    assert("archive.extract_tar_gz"@.len() == 22);
    assert("sh.run"@.len() == 6);
    assert("fs.append"@[3] != "fs.rename"@[3]);
    assert("fs.append"@[3] != "fs.remove"@[3]);
    assert("fs.rename"@[5] != "fs.remove"@[5]);
    assert("archive.create_zip"@[15] != "archive.create_tar"@[15]);
    assert("archive.extract_zip"@[16] != "archive.extract_tar"@[16]);
    let t = step.step_type@;
    if t == "env.require"@ {
        let items = field_lookup(step.fields@, "vars"@)->Some_0->Array_0@;
        assert(spec_validate_step(step) == match spec_ensure_fields(step, seq!["vars"@]) {
            Err(e) => Err(e),
            Ok(_) => match spec_string_list(step, "vars"@) {
                Err(e) => Err(e),
                Ok(vars) => Ok(SpecStepKind::EnvRequire { vars }),
            },
        });
        assert(spec_string_list(step, "vars"@) is Ok);
        assert(strings_of(items) =~= field_texts(step, "vars"@));
    } else if t == "fs.mkdir_all"@ {
        assert(spec_validate_step(step) == match spec_one_string(step, "path"@) {
            Err(e) => Err(e),
            Ok(a) => Ok(SpecStepKind::FsMkdirAll { path: a }),
        });
        lemma_one_string_text(step, "path"@);
    } else if t == "fs.write_string"@ {
        assert(spec_validate_step(step) == match spec_two_strings(step, "path"@, "content"@) {
            Err(e) => Err(e),
            Ok((a, b)) => Ok(SpecStepKind::FsWriteString { path: a, content: b }),
        });
        lemma_two_strings_text(step, "path"@, "content"@);
    } else if t == "fs.append"@ {
        assert(spec_validate_step(step) == match spec_two_strings(step, "path"@, "content"@) {
            Err(e) => Err(e),
            Ok((a, b)) => Ok(SpecStepKind::FsAppend { path: a, content: b }),
        });
        lemma_two_strings_text(step, "path"@, "content"@);
    } else if t == "fs.copy"@ {
        assert(spec_validate_step(step) == match spec_two_strings(step, "from"@, "to"@) {
            Err(e) => Err(e),
            Ok((a, b)) => Ok(SpecStepKind::FsCopy { from: a, to: b }),
        });
        lemma_two_strings_text(step, "from"@, "to"@);
    } else if t == "fs.rename"@ {
        assert(spec_validate_step(step) == match spec_two_strings(step, "from"@, "to"@) {
            Err(e) => Err(e),
            Ok((a, b)) => Ok(SpecStepKind::FsRename { from: a, to: b }),
        });
        lemma_two_strings_text(step, "from"@, "to"@);
    } else if t == "fs.remove"@ {
        assert(spec_validate_step(step) == match spec_one_string(step, "path"@) {
            Err(e) => Err(e),
            Ok(a) => Ok(SpecStepKind::FsRemove { path: a }),
        });
        lemma_one_string_text(step, "path"@);
    } else if t == "http.download"@ {
        assert(spec_validate_step(step) == match spec_two_strings(step, "url"@, "path"@) {
            Err(e) => Err(e),
            Ok((a, b)) => Ok(SpecStepKind::HttpDownload { url: a, path: b }),
        });
        lemma_two_strings_text(step, "url"@, "path"@);
    } else if t == "http.get"@ {
        assert(spec_validate_step(step) == match spec_two_strings(step, "url"@, "dest"@) {
            Err(e) => Err(e),
            Ok((a, b)) => Ok(SpecStepKind::HttpGet { url: a, dest: b }),
        });
        lemma_two_strings_text(step, "url"@, "dest"@);
    } else if t == "archive.create_zip"@ {
        assert(spec_validate_step(step) == match spec_two_strings(step, "source"@, "dest"@) {
            Err(e) => Err(e),
            Ok((a, b)) => Ok(SpecStepKind::ArchiveCreateZip { source: a, dest: b }),
        });
        lemma_two_strings_text(step, "source"@, "dest"@);
    } else if t == "archive.create_tar"@ {
        assert(spec_validate_step(step) == match spec_two_strings(step, "source"@, "dest"@) {
            Err(e) => Err(e),
            Ok((a, b)) => Ok(SpecStepKind::ArchiveCreateTar { source: a, dest: b }),
        });
        lemma_two_strings_text(step, "source"@, "dest"@);
    } else if t == "archive.create_tar_gz"@ {
        assert(spec_validate_step(step) == match spec_two_strings(step, "source"@, "dest"@) {
            Err(e) => Err(e),
            Ok((a, b)) => Ok(SpecStepKind::ArchiveCreateTarGz { source: a, dest: b }),
        });
        lemma_two_strings_text(step, "source"@, "dest"@);
    } else if t == "archive.extract_zip"@ {
        assert(spec_validate_step(step) == match spec_two_strings(step, "archive"@, "dest"@) {
            Err(e) => Err(e),
            Ok((a, b)) => Ok(SpecStepKind::ArchiveExtractZip { archive: a, dest: b }),
        });
        lemma_two_strings_text(step, "archive"@, "dest"@);
    } else if t == "archive.extract_tar"@ {
        assert(spec_validate_step(step) == match spec_two_strings(step, "archive"@, "dest"@) {
            Err(e) => Err(e),
            Ok((a, b)) => Ok(SpecStepKind::ArchiveExtractTar { archive: a, dest: b }),
        });
        lemma_two_strings_text(step, "archive"@, "dest"@);
    } else if t == "archive.extract_tar_gz"@ {
        assert(spec_validate_step(step) == match spec_two_strings(step, "archive"@, "dest"@) {
            Err(e) => Err(e),
            Ok((a, b)) => Ok(SpecStepKind::ArchiveExtractTarGz { archive: a, dest: b }),
        });
        lemma_two_strings_text(step, "archive"@, "dest"@);
    } else if t == "sh.run"@ {
        assert(spec_validate_step(step) == match spec_one_string(step, "command"@) {
            Err(e) => Err(e),
            Ok(a) => Ok(SpecStepKind::ShRun { command: a }),
        });
        lemma_one_string_text(step, "command"@);
    }
}

/// Every step of an accepted script is validated from that step's own
/// fields, under its own name, in order.
pub proof fn lemma_accepted_script_copies_fields(script: Script, i: int)
    requires
        spec_validate_script(script) is Ok,
        0 <= i < script.steps@.len(),
    ensures
        spec_validate_step(script.steps@[i]) is Ok,
        spec_validate_script(script)->Ok_0.steps[i].name == script.steps@[i].name@,
        spec_validate_script(script)->Ok_0.steps[i].kind == spec_validate_step(script.steps@[i])->Ok_0,
{
    lemma_validate_script_iff(script);
}
} // verus!
