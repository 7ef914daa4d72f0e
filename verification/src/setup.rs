//! First-time setup: checking that `sops` and `age-keygen` are installed,
//! creating the directories, the age key, the SOPS configuration and the
//! empty encrypted vault, and never replacing any of them that exists.
//!
//! Setup is a state machine: each step hands back the notes to show and one
//! request; the caller performs it and hands its answer back.
use vstd::prelude::*;
use vstd::string::*;
use crate::backend::{encrypt_args_spec, lossy_text, sops_encrypt_args, utf8_lossy};
use crate::keyfile::{extract_public_key, public_key_of};
use crate::paths::{SetupFiles, completion_files};
use crate::text::{join2, join3};

verus! {

// ---------------------------------------------------------------------------
// Texts
// ---------------------------------------------------------------------------

/// The program that tells whether another one is on the `PATH`.
pub open spec fn probe_program(windows: bool) -> Seq<char> {
    if windows {
        "where"@
    } else {
        "which"@
    }
}

pub open spec fn sops_hint() -> Seq<char> {
    "Please install SOPS: https://github.com/getsops/sops"@
}

pub open spec fn age_hint() -> Seq<char> {
    "Please install age: https://github.com/FiloSottile/age"@
}

/// The error for a program that is not on the `PATH`.
pub open spec fn missing_msg(program: Seq<char>, hint: Seq<char>) -> Seq<char> {
    "Dependency missing: '"@ + program + "' was not found in your PATH.\n"@ + hint
}

pub open spec fn keygen_failed_msg() -> Seq<char> {
    "Failed to execute age-keygen. Is it installed?"@
}

pub open spec fn no_public_key_msg() -> Seq<char> {
    "Could not find public key in keys.txt"@
}

pub open spec fn vault_encryption_failed_msg(stderr: Seq<u8>) -> Seq<char> {
    "SOPS failed to encrypt the database: "@ + lossy_text(stderr)
}

/// The SOPS configuration that encrypts every `*.enc.yaml` file for the age
/// recipient `public_key`.
pub open spec fn sops_config_text(public_key: Seq<char>) -> Seq<char> {
    "creation_rules:\n  - path_regex: .*\\.enc\\.yaml$\n    age: \""@ + public_key + "\"\n"@
}

/// The SOPS configuration that encrypts every `*.enc.yaml` file for the age
/// recipient `public_key`.
pub fn sops_config_yaml(public_key: &str) -> (r: String)
    ensures
        r@ == sops_config_text(public_key@),
{
    join3("creation_rules:\n  - path_regex: .*\\.enc\\.yaml$\n    age: \"", public_key, "\"\n")
}

/// The error for a program that is not on the `PATH`.
pub fn dependency_missing(program: &str, hint: &str) -> (r: String)
    ensures
        r@ == missing_msg(program@, hint@),
{
    join3("Dependency missing: '", program, "' was not found in your PATH.\n").concat(hint)
}

// ---------------------------------------------------------------------------
// The model of setup
// ---------------------------------------------------------------------------

/// What setup tells the user as it goes.
pub enum SetupNoteModel {
    Welcome,
    GeneratingKey,
    ExistingKey,
    CreatingConfig,
    InitializingVault,
    Ready { vault: Seq<char>, key: Seq<char> },
}

/// Where setup stands.
pub enum SetupStageModel {
    CheckingSops,
    CheckingAge,
    CreatingDirs,
    CheckingKey,
    GeneratingKey,
    ReadingKey,
    SettingKeyEnv { public_key: Seq<char> },
    CheckingConfig { public_key: Seq<char> },
    WritingConfig,
    CheckingVault,
    EncryptingVault,
    WritingVault,
    Finished,
}

/// What the caller hands back.
pub enum SetupEventModel {
    /// Whether the program is on the `PATH`, or the file exists.
    Found(bool),
    /// The request was carried out.
    Done,
    /// Whether the program succeeded, and what it wrote on its error stream.
    Ran { success: bool, stderr: Seq<u8> },
    /// The text of the file.
    Read(Seq<char>),
}

/// What the caller is asked to do.
pub enum SetupRequestModel {
    CheckDependency { probe: Seq<char>, program: Seq<char> },
    CreateDirs { dirs: Seq<Seq<char>> },
    PathExists { path: Seq<char> },
    RunKeygen { args: Seq<Seq<char>> },
    ReadFile { path: Seq<char> },
    SetEnv { name: Seq<char>, value: Seq<char> },
    WriteFile { path: Seq<char>, contents: Seq<char> },
    EncryptVault { args: Seq<Seq<char>>, input: Seq<char> },
    WriteEncryptedVault { path: Seq<char> },
    Finish(Result<(), Seq<char>>),
}

/// One step of setup.
pub struct SetupStepModel {
    pub stage: SetupStageModel,
    pub notes: Seq<SetupNoteModel>,
    pub request: SetupRequestModel,
}

/// Setup gives up with `msg`.
pub open spec fn fail_with(msg: Seq<char>) -> SetupStepModel {
    SetupStepModel {
        stage: SetupStageModel::Finished,
        notes: Seq::empty(),
        request: SetupRequestModel::Finish(Err(msg)),
    }
}

/// Setup is over: everything is in place.
pub open spec fn ready(files: SetupFiles) -> SetupStepModel {
    SetupStepModel {
        stage: SetupStageModel::Finished,
        notes: seq![SetupNoteModel::Ready { vault: files.secrets_file@, key: files.key_file@ }],
        request: SetupRequestModel::Finish(Ok(())),
    }
}

/// A step that shows nothing.
pub open spec fn plain(stage: SetupStageModel, request: SetupRequestModel) -> SetupStepModel {
    SetupStepModel { stage, notes: Seq::empty(), request }
}

/// The step that asks whether the vault file exists.
pub open spec fn check_vault(files: SetupFiles) -> SetupStepModel {
    plain(
        SetupStageModel::CheckingVault,
        SetupRequestModel::PathExists { path: files.secrets_file@ },
    )
}

/// The first step of setup.
pub open spec fn setup_start_step(windows: bool) -> SetupStepModel {
    SetupStepModel {
        stage: SetupStageModel::CheckingSops,
        notes: seq![SetupNoteModel::Welcome],
        request: SetupRequestModel::CheckDependency {
            probe: probe_program(windows),
            program: "sops"@,
        },
    }
}

/// Whether `event` answers what setup at `stage` asked for.
pub open spec fn setup_fits(stage: SetupStageModel, event: SetupEventModel) -> bool {
    match (stage, event) {
        (SetupStageModel::CheckingSops, SetupEventModel::Found(_)) => true,
        (SetupStageModel::CheckingAge, SetupEventModel::Found(_)) => true,
        (SetupStageModel::CreatingDirs, SetupEventModel::Done) => true,
        (SetupStageModel::CheckingKey, SetupEventModel::Found(_)) => true,
        (SetupStageModel::GeneratingKey, SetupEventModel::Ran { .. }) => true,
        (SetupStageModel::ReadingKey, SetupEventModel::Read(_)) => true,
        (SetupStageModel::SettingKeyEnv { .. }, SetupEventModel::Done) => true,
        (SetupStageModel::CheckingConfig { .. }, SetupEventModel::Found(_)) => true,
        (SetupStageModel::WritingConfig, SetupEventModel::Done) => true,
        (SetupStageModel::CheckingVault, SetupEventModel::Found(_)) => true,
        (SetupStageModel::EncryptingVault, SetupEventModel::Ran { .. }) => true,
        (SetupStageModel::WritingVault, SetupEventModel::Done) => true,
        _ => false,
    }
}

/// The step setup at `stage` takes on `event`, for the files `files`. An
/// event that does not answer what was asked ends setup with an empty error.
pub open spec fn setup_step_spec(
    files: SetupFiles,
    windows: bool,
    stage: SetupStageModel,
    event: SetupEventModel,
) -> SetupStepModel {
    match (stage, event) {
        (SetupStageModel::CheckingSops, SetupEventModel::Found(found)) => if found {
            plain(
                SetupStageModel::CheckingAge,
                SetupRequestModel::CheckDependency {
                    probe: probe_program(windows),
                    program: "age-keygen"@,
                },
            )
        } else {
            fail_with(missing_msg("sops"@, sops_hint()))
        },
        (SetupStageModel::CheckingAge, SetupEventModel::Found(found)) => if found {
            plain(
                SetupStageModel::CreatingDirs,
                SetupRequestModel::CreateDirs { dirs: seq![files.passop_dir@, files.age_dir@] },
            )
        } else {
            fail_with(missing_msg("age-keygen"@, age_hint()))
        },
        (SetupStageModel::CreatingDirs, SetupEventModel::Done) => plain(
            SetupStageModel::CheckingKey,
            SetupRequestModel::PathExists { path: files.key_file@ },
        ),
        (SetupStageModel::CheckingKey, SetupEventModel::Found(found)) => if found {
            SetupStepModel {
                stage: SetupStageModel::ReadingKey,
                notes: seq![SetupNoteModel::ExistingKey],
                request: SetupRequestModel::ReadFile { path: files.key_file@ },
            }
        } else {
            SetupStepModel {
                stage: SetupStageModel::GeneratingKey,
                notes: seq![SetupNoteModel::GeneratingKey],
                request: SetupRequestModel::RunKeygen { args: seq!["-o"@, files.key_file@] },
            }
        },
        (SetupStageModel::GeneratingKey, SetupEventModel::Ran { success, .. }) => if success {
            plain(SetupStageModel::ReadingKey, SetupRequestModel::ReadFile { path: files.key_file@ })
        } else {
            fail_with(keygen_failed_msg())
        },
        (SetupStageModel::ReadingKey, SetupEventModel::Read(text)) => match public_key_of(text) {
            Some(k) => plain(
                SetupStageModel::SettingKeyEnv { public_key: k },
                SetupRequestModel::SetEnv { name: "SOPS_AGE_KEY_FILE"@, value: files.key_file@ },
            ),
            None => fail_with(no_public_key_msg()),
        },
        (SetupStageModel::SettingKeyEnv { public_key }, SetupEventModel::Done) => plain(
            SetupStageModel::CheckingConfig { public_key },
            SetupRequestModel::PathExists { path: files.config_file@ },
        ),
        (SetupStageModel::CheckingConfig { public_key }, SetupEventModel::Found(found)) => if found {
            check_vault(files)
        } else {
            SetupStepModel {
                stage: SetupStageModel::WritingConfig,
                notes: seq![SetupNoteModel::CreatingConfig],
                request: SetupRequestModel::WriteFile {
                    path: files.config_file@,
                    contents: sops_config_text(public_key),
                },
            }
        },
        (SetupStageModel::WritingConfig, SetupEventModel::Done) => check_vault(files),
        (SetupStageModel::CheckingVault, SetupEventModel::Found(found)) => if found {
            ready(files)
        } else {
            SetupStepModel {
                stage: SetupStageModel::EncryptingVault,
                notes: seq![SetupNoteModel::InitializingVault],
                request: SetupRequestModel::EncryptVault {
                    args: encrypt_args_spec(files.config_file@, files.secrets_file@),
                    input: "{}"@,
                },
            }
        },
        (SetupStageModel::EncryptingVault, SetupEventModel::Ran { success, stderr }) => if success {
            plain(
                SetupStageModel::WritingVault,
                SetupRequestModel::WriteEncryptedVault { path: files.secrets_file@ },
            )
        } else {
            fail_with(vault_encryption_failed_msg(stderr))
        },
        (SetupStageModel::WritingVault, SetupEventModel::Done) => ready(files),
        _ => fail_with(Seq::empty()),
    }
}

// ---------------------------------------------------------------------------
// The executable setup
// ---------------------------------------------------------------------------

/// What setup tells the user as it goes.
pub enum SetupNote {
    /// The greeting.
    Welcome,
    /// No age key was found; one is being generated.
    GeneratingKey,
    /// The existing age key is used.
    ExistingKey,
    /// The SOPS configuration is being written.
    CreatingConfig,
    /// The empty encrypted vault is being created.
    InitializingVault,
    /// Setup is done; where the vault and the key are.
    Ready { vault: String, key: String },
}

impl View for SetupNote {
    type V = SetupNoteModel;

    open spec fn view(&self) -> SetupNoteModel {
        match self {
            SetupNote::Welcome => SetupNoteModel::Welcome,
            SetupNote::GeneratingKey => SetupNoteModel::GeneratingKey,
            SetupNote::ExistingKey => SetupNoteModel::ExistingKey,
            SetupNote::CreatingConfig => SetupNoteModel::CreatingConfig,
            SetupNote::InitializingVault => SetupNoteModel::InitializingVault,
            SetupNote::Ready { vault, key } => SetupNoteModel::Ready { vault: vault@, key: key@ },
        }
    }
}

/// Where setup stands.
pub enum SetupStage {
    CheckingSops,
    CheckingAge,
    CreatingDirs,
    CheckingKey,
    GeneratingKey,
    ReadingKey,
    SettingKeyEnv { public_key: String },
    CheckingConfig { public_key: String },
    WritingConfig,
    CheckingVault,
    EncryptingVault,
    WritingVault,
    Finished,
}

impl View for SetupStage {
    type V = SetupStageModel;

    open spec fn view(&self) -> SetupStageModel {
        match self {
            SetupStage::CheckingSops => SetupStageModel::CheckingSops,
            SetupStage::CheckingAge => SetupStageModel::CheckingAge,
            SetupStage::CreatingDirs => SetupStageModel::CreatingDirs,
            SetupStage::CheckingKey => SetupStageModel::CheckingKey,
            SetupStage::GeneratingKey => SetupStageModel::GeneratingKey,
            SetupStage::ReadingKey => SetupStageModel::ReadingKey,
            SetupStage::SettingKeyEnv { public_key } => SetupStageModel::SettingKeyEnv {
                public_key: public_key@,
            },
            SetupStage::CheckingConfig { public_key } => SetupStageModel::CheckingConfig {
                public_key: public_key@,
            },
            SetupStage::WritingConfig => SetupStageModel::WritingConfig,
            SetupStage::CheckingVault => SetupStageModel::CheckingVault,
            SetupStage::EncryptingVault => SetupStageModel::EncryptingVault,
            SetupStage::WritingVault => SetupStageModel::WritingVault,
            SetupStage::Finished => SetupStageModel::Finished,
        }
    }
}

/// What the caller hands back.
pub enum SetupEvent {
    /// Whether the program is on the `PATH`, or the file exists.
    Found(bool),
    /// The request was carried out.
    Done,
    /// Whether the program succeeded, and what it wrote on its error stream.
    Ran { success: bool, stderr: Vec<u8> },
    /// The text of the file.
    Read(String),
}

impl View for SetupEvent {
    type V = SetupEventModel;

    open spec fn view(&self) -> SetupEventModel {
        match self {
            SetupEvent::Found(b) => SetupEventModel::Found(*b),
            SetupEvent::Done => SetupEventModel::Done,
            SetupEvent::Ran { success, stderr } => SetupEventModel::Ran {
                success: *success,
                stderr: stderr@,
            },
            SetupEvent::Read(t) => SetupEventModel::Read(t@),
        }
    }
}

/// What the caller is asked to do.
pub enum SetupRequest {
    /// Run `probe program` and report whether it succeeded.
    CheckDependency { probe: String, program: String },
    /// Create these directories and their parents.
    CreateDirs { dirs: Vec<String> },
    /// Report whether something exists at `path`.
    PathExists { path: String },
    /// Run `age-keygen` with these arguments.
    RunKeygen { args: Vec<String> },
    /// Read the text of the file.
    ReadFile { path: String },
    /// Set the environment variable for the rest of this run.
    SetEnv { name: String, value: String },
    /// Write `contents` to the file.
    WriteFile { path: String, contents: String },
    /// Run `sops` with these arguments, feeding it `input`; keep what it
    /// prints.
    EncryptVault { args: Vec<String>, input: String },
    /// Write what `sops` printed to the file.
    WriteEncryptedVault { path: String },
    /// Setup is over, with this outcome.
    Finish(Result<(), String>),
}

impl View for SetupRequest {
    type V = SetupRequestModel;

    open spec fn view(&self) -> SetupRequestModel {
        match self {
            SetupRequest::CheckDependency { probe, program } => SetupRequestModel::CheckDependency {
                probe: probe@,
                program: program@,
            },
            SetupRequest::CreateDirs { dirs } => SetupRequestModel::CreateDirs {
                dirs: dirs.deep_view(),
            },
            SetupRequest::PathExists { path } => SetupRequestModel::PathExists { path: path@ },
            SetupRequest::RunKeygen { args } => SetupRequestModel::RunKeygen {
                args: args.deep_view(),
            },
            SetupRequest::ReadFile { path } => SetupRequestModel::ReadFile { path: path@ },
            SetupRequest::SetEnv { name, value } => SetupRequestModel::SetEnv {
                name: name@,
                value: value@,
            },
            SetupRequest::WriteFile { path, contents } => SetupRequestModel::WriteFile {
                path: path@,
                contents: contents@,
            },
            SetupRequest::EncryptVault { args, input } => SetupRequestModel::EncryptVault {
                args: args.deep_view(),
                input: input@,
            },
            SetupRequest::WriteEncryptedVault { path } => SetupRequestModel::WriteEncryptedVault {
                path: path@,
            },
            SetupRequest::Finish(r) => SetupRequestModel::Finish(
                match r {
                    Ok(()) => Ok(()),
                    Err(e) => Err(e@),
                },
            ),
        }
    }
}

/// One step of setup.
pub struct SetupStep {
    pub stage: SetupStage,
    pub notes: Vec<SetupNote>,
    pub request: SetupRequest,
}

impl View for SetupStep {
    type V = SetupStepModel;

    open spec fn view(&self) -> SetupStepModel {
        SetupStepModel {
            stage: self.stage@,
            notes: self.notes@.map_values(|n: SetupNote| n@),
            request: self.request@,
        }
    }
}

fn step_plain(stage: SetupStage, request: SetupRequest) -> (r: SetupStep)
    ensures
        r@ == plain(stage@, request@),
{
    let r = SetupStep { stage, notes: Vec::new(), request };
    assert(r@.notes =~= Seq::<SetupNoteModel>::empty());
    r
}

fn step_noted(stage: SetupStage, note: SetupNote, request: SetupRequest) -> (r: SetupStep)
    ensures
        r@ == (SetupStepModel { stage: stage@, notes: seq![note@], request: request@ }),
{
    let mut notes: Vec<SetupNote> = Vec::new();
    notes.push(note);
    let r = SetupStep { stage, notes, request };
    assert(r@.notes =~= seq![note@]);
    r
}

fn step_fail(msg: String) -> (r: SetupStep)
    ensures
        r@ == fail_with(msg@),
{
    step_plain(SetupStage::Finished, SetupRequest::Finish(Err(msg)))
}

fn step_ready(files: &SetupFiles) -> (r: SetupStep)
    ensures
        r@ == ready(*files),
{
    step_noted(
        SetupStage::Finished,
        SetupNote::Ready { vault: files.secrets_file.clone(), key: files.key_file.clone() },
        SetupRequest::Finish(Ok(())),
    )
}

fn step_check_vault(files: &SetupFiles) -> (r: SetupStep)
    ensures
        r@ == check_vault(*files),
{
    step_plain(
        SetupStage::CheckingVault,
        SetupRequest::PathExists { path: files.secrets_file.clone() },
    )
}

fn probe_text(windows: bool) -> (r: String)
    ensures
        r@ == probe_program(windows),
{
    if windows {
        String::from_str("where")
    } else {
        String::from_str("which")
    }
}

/// The first step of setup: greet, then check that `sops` is installed.
pub fn setup_start(windows: bool) -> (r: SetupStep)
    ensures
        r@ == setup_start_step(windows),
{
    step_noted(
        SetupStage::CheckingSops,
        SetupNote::Welcome,
        SetupRequest::CheckDependency {
            probe: probe_text(windows),
            program: String::from_str("sops"),
        },
    )
}

/// Whether `event` answers what setup at `stage` asked for.
pub fn setup_accepts(stage: &SetupStage, event: &SetupEvent) -> (r: bool)
    ensures
        r == setup_fits(stage@, event@),
{
    match (stage, event) {
        (SetupStage::CheckingSops, SetupEvent::Found(_)) => true,
        (SetupStage::CheckingAge, SetupEvent::Found(_)) => true,
        (SetupStage::CreatingDirs, SetupEvent::Done) => true,
        (SetupStage::CheckingKey, SetupEvent::Found(_)) => true,
        (SetupStage::GeneratingKey, SetupEvent::Ran { .. }) => true,
        (SetupStage::ReadingKey, SetupEvent::Read(_)) => true,
        (SetupStage::SettingKeyEnv { .. }, SetupEvent::Done) => true,
        (SetupStage::CheckingConfig { .. }, SetupEvent::Found(_)) => true,
        (SetupStage::WritingConfig, SetupEvent::Done) => true,
        (SetupStage::CheckingVault, SetupEvent::Found(_)) => true,
        (SetupStage::EncryptingVault, SetupEvent::Ran { .. }) => true,
        (SetupStage::WritingVault, SetupEvent::Done) => true,
        _ => false,
    }
}

/// The step setup at `stage` takes on `event`.
pub fn setup_advance(files: &SetupFiles, windows: bool, stage: SetupStage, event: SetupEvent) -> (r:
    SetupStep)
    requires
        setup_fits(stage@, event@),
    ensures
        r@ == setup_step_spec(*files, windows, stage@, event@),
{
    match (stage, event) {
        (SetupStage::CheckingSops, SetupEvent::Found(found)) => {
            if found {
                step_plain(
                    SetupStage::CheckingAge,
                    SetupRequest::CheckDependency {
                        probe: probe_text(windows),
                        program: String::from_str("age-keygen"),
                    },
                )
            } else {
                step_fail(
                    dependency_missing(
                        "sops",
                        "Please install SOPS: https://github.com/getsops/sops",
                    ),
                )
            }
        },
        (SetupStage::CheckingAge, SetupEvent::Found(found)) => {
            if found {
                let mut dirs: Vec<String> = Vec::new();
                dirs.push(files.passop_dir.clone());
                dirs.push(files.age_dir.clone());
                assert(dirs.deep_view() =~= seq![files.passop_dir@, files.age_dir@]);
                step_plain(SetupStage::CreatingDirs, SetupRequest::CreateDirs { dirs })
            } else {
                step_fail(
                    dependency_missing(
                        "age-keygen",
                        "Please install age: https://github.com/FiloSottile/age",
                    ),
                )
            }
        },
        (SetupStage::CreatingDirs, SetupEvent::Done) => step_plain(
            SetupStage::CheckingKey,
            SetupRequest::PathExists { path: files.key_file.clone() },
        ),
        (SetupStage::CheckingKey, SetupEvent::Found(found)) => {
            if found {
                step_noted(
                    SetupStage::ReadingKey,
                    SetupNote::ExistingKey,
                    SetupRequest::ReadFile { path: files.key_file.clone() },
                )
            } else {
                let mut args: Vec<String> = Vec::new();
                args.push(String::from_str("-o"));
                args.push(files.key_file.clone());
                assert(args.deep_view() =~= seq!["-o"@, files.key_file@]);
                step_noted(
                    SetupStage::GeneratingKey,
                    SetupNote::GeneratingKey,
                    SetupRequest::RunKeygen { args },
                )
            }
        },
        (SetupStage::GeneratingKey, SetupEvent::Ran { success, .. }) => {
            if success {
                step_plain(
                    SetupStage::ReadingKey,
                    SetupRequest::ReadFile { path: files.key_file.clone() },
                )
            } else {
                step_fail(String::from_str("Failed to execute age-keygen. Is it installed?"))
            }
        },
        (SetupStage::ReadingKey, SetupEvent::Read(text)) => {
            match extract_public_key(text.as_str()) {
                Some(k) => step_plain(
                    SetupStage::SettingKeyEnv { public_key: k },
                    SetupRequest::SetEnv {
                        name: String::from_str("SOPS_AGE_KEY_FILE"),
                        value: files.key_file.clone(),
                    },
                ),
                None => step_fail(String::from_str("Could not find public key in keys.txt")),
            }
        },
        (SetupStage::SettingKeyEnv { public_key }, SetupEvent::Done) => step_plain(
            SetupStage::CheckingConfig { public_key },
            SetupRequest::PathExists { path: files.config_file.clone() },
        ),
        (SetupStage::CheckingConfig { public_key }, SetupEvent::Found(found)) => {
            if found {
                step_check_vault(files)
            } else {
                let contents = sops_config_yaml(public_key.as_str());
                step_noted(
                    SetupStage::WritingConfig,
                    SetupNote::CreatingConfig,
                    SetupRequest::WriteFile { path: files.config_file.clone(), contents },
                )
            }
        },
        (SetupStage::WritingConfig, SetupEvent::Done) => step_check_vault(files),
        (SetupStage::CheckingVault, SetupEvent::Found(found)) => {
            if found {
                step_ready(files)
            } else {
                let args = sops_encrypt_args(files.config_file.as_str(), files.secrets_file.as_str());
                step_noted(
                    SetupStage::EncryptingVault,
                    SetupNote::InitializingVault,
                    SetupRequest::EncryptVault { args, input: String::from_str("{}") },
                )
            }
        },
        (SetupStage::EncryptingVault, SetupEvent::Ran { success, stderr }) => {
            if success {
                step_plain(
                    SetupStage::WritingVault,
                    SetupRequest::WriteEncryptedVault { path: files.secrets_file.clone() },
                )
            } else {
                let text = utf8_lossy(stderr.as_slice());
                step_fail(join2("SOPS failed to encrypt the database: ", text.as_str()))
            }
        },
        (SetupStage::WritingVault, SetupEvent::Done) => step_ready(files),
        _ => step_fail(String::new()),
    }
}


// ---------------------------------------------------------------------------
// Laws of setup
// ---------------------------------------------------------------------------

/// Where setup stands after the events `events`, starting from `step`.
pub open spec fn setup_run(
    files: SetupFiles,
    windows: bool,
    step: SetupStepModel,
    events: Seq<SetupEventModel>,
) -> SetupStepModel
    decreases events.len(),
{
    if events.len() == 0 {
        step
    } else {
        setup_run(
            files,
            windows,
            setup_step_spec(files, windows, step.stage, events[0]),
            events.drop_first(),
        )
    }
}

/// Setup never replaces what exists: an existing age key is read rather
/// than generated again, an existing SOPS configuration is not written, and
/// an existing vault is not encrypted anew.
pub proof fn law_setup_keeps_existing_files(
    files: SetupFiles,
    windows: bool,
    stage: SetupStageModel,
)
    ensures
        stage is CheckingKey ==> setup_step_spec(
            files,
            windows,
            stage,
            SetupEventModel::Found(true),
        ).request == (SetupRequestModel::ReadFile { path: files.key_file@ }),
        stage is CheckingConfig ==> setup_step_spec(
            files,
            windows,
            stage,
            SetupEventModel::Found(true),
        ).request == (SetupRequestModel::PathExists { path: files.secrets_file@ }),
        stage is CheckingVault ==> setup_step_spec(
            files,
            windows,
            stage,
            SetupEventModel::Found(true),
        ).request == (SetupRequestModel::Finish(Ok(()))),
{
}

/// How many more events setup at `stage` can take before it is over.
pub open spec fn setup_rank(stage: SetupStageModel) -> nat {
    match stage {
        SetupStageModel::CheckingSops => 12,
        SetupStageModel::CheckingAge => 11,
        SetupStageModel::CreatingDirs => 10,
        SetupStageModel::CheckingKey => 9,
        SetupStageModel::GeneratingKey => 8,
        SetupStageModel::ReadingKey => 7,
        SetupStageModel::SettingKeyEnv { .. } => 6,
        SetupStageModel::CheckingConfig { .. } => 5,
        SetupStageModel::WritingConfig => 4,
        SetupStageModel::CheckingVault => 3,
        SetupStageModel::EncryptingVault => 2,
        SetupStageModel::WritingVault => 1,
        SetupStageModel::Finished => 0,
    }
}

proof fn lemma_setup_rank(
    files: SetupFiles,
    windows: bool,
    step: SetupStepModel,
    events: Seq<SetupEventModel>,
)
    requires
        step.stage is Finished ==> step.request is Finish,
    ensures
        setup_run(files, windows, step, events).stage is Finished ==> setup_run(
            files,
            windows,
            step,
            events,
        ).request is Finish,
        setup_rank(setup_run(files, windows, step, events).stage) + events.len() <= setup_rank(
            step.stage,
        ) || setup_run(files, windows, step, events).stage is Finished,
    decreases events.len(),
{
    if events.len() > 0 {
        let next = setup_step_spec(files, windows, step.stage, events[0]);
        lemma_setup_rank(files, windows, next, events.drop_first());
        if next.stage is Finished {
            lemma_setup_finished_stays(files, windows, next, events.drop_first());
        }
    }
}

proof fn lemma_setup_finished_stays(
    files: SetupFiles,
    windows: bool,
    step: SetupStepModel,
    events: Seq<SetupEventModel>,
)
    requires
        step.stage is Finished,
    ensures
        setup_run(files, windows, step, events).stage is Finished,
    decreases events.len(),
{
    if events.len() > 0 {
        lemma_setup_finished_stays(
            files,
            windows,
            setup_step_spec(files, windows, step.stage, events[0]),
            events.drop_first(),
        );
    }
}

/// Setup is over after at most twelve answers, and stays over.
pub proof fn law_setup_ends(files: SetupFiles, windows: bool, events: Seq<SetupEventModel>)
    requires
        events.len() >= 12,
    ensures
        setup_run(files, windows, setup_start_step(windows), events).stage is Finished,
        setup_run(files, windows, setup_start_step(windows), events).request is Finish,
{
    lemma_setup_rank(files, windows, setup_start_step(windows), events);
}

/// The key a setup stage carries was read from a key file.
pub open spec fn key_was_read(stage: SetupStageModel) -> bool {
    match stage {
        SetupStageModel::SettingKeyEnv { public_key } => exists|text: Seq<char>|
            public_key_of(text) == Some(public_key),
        SetupStageModel::CheckingConfig { public_key } => exists|text: Seq<char>|
            public_key_of(text) == Some(public_key),
        _ => true,
    }
}

/// The request writes the SOPS configuration for a key read from a key file.
pub open spec fn writes_read_key(files: SetupFiles, request: SetupRequestModel) -> bool {
    request matches SetupRequestModel::WriteFile { path, contents } ==> path == files.config_file@
        && exists|text: Seq<char>, k: Seq<char>|
        public_key_of(text) == Some(k) && contents == sops_config_text(k)
}

proof fn lemma_setup_run_key(
    files: SetupFiles,
    windows: bool,
    step: SetupStepModel,
    events: Seq<SetupEventModel>,
)
    requires
        key_was_read(step.stage),
        writes_read_key(files, step.request),
    ensures
        writes_read_key(files, setup_run(files, windows, step, events).request),
    decreases events.len(),
{
    if events.len() > 0 {
        let next = setup_step_spec(files, windows, step.stage, events[0]);
        match (step.stage, events[0]) {
            (SetupStageModel::ReadingKey, SetupEventModel::Read(text)) => {
                if let Some(k) = public_key_of(text) {
                    assert(public_key_of(text) == Some(k));
                }
            },
            (SetupStageModel::CheckingConfig { public_key }, SetupEventModel::Found(found)) => {
                if !found {
                    let text = choose|text: Seq<char>| public_key_of(text) == Some(public_key);
                    assert(public_key_of(text) == Some(public_key) && next.request
                        == SetupRequestModel::WriteFile {
                        path: files.config_file@,
                        contents: sops_config_text(public_key),
                    });
                }
            },
            _ => {},
        }
        lemma_setup_run_key(files, windows, next, events.drop_first());
    }
}

/// Whenever setup asks for a text to be written to a file, that file is the
/// SOPS configuration, and the text names the public key of the key file it
/// read. (The key file is written by `age-keygen` and the vault file holds
/// what `sops` printed; neither is a text that setup composes.)
pub proof fn law_config_names_key_read(
    files: SetupFiles,
    windows: bool,
    events: Seq<SetupEventModel>,
)
    ensures
        writes_read_key(files, setup_run(files, windows, setup_start_step(windows), events).request),
{
    lemma_setup_run_key(files, windows, setup_start_step(windows), events);
}


/// The three files setup looks for, before it creates each one that is
/// missing, are the three files whose presence marks setup as complete.
pub proof fn law_setup_checks_completion_files(
    files: SetupFiles,
    windows: bool,
    public_key: Seq<char>,
)
    ensures
        setup_step_spec(files, windows, SetupStageModel::CreatingDirs, SetupEventModel::Done).request
            == (SetupRequestModel::PathExists { path: completion_files(&files)[0] }),
        setup_step_spec(
            files,
            windows,
            SetupStageModel::SettingKeyEnv { public_key },
            SetupEventModel::Done,
        ).request == (SetupRequestModel::PathExists { path: completion_files(&files)[2] }),
        setup_step_spec(files, windows, SetupStageModel::WritingConfig, SetupEventModel::Done).request
            == (SetupRequestModel::PathExists { path: completion_files(&files)[1] }),
{
}


/// The file a step of setup finds in place or puts in place: the age key
/// when it exists or `age-keygen` succeeded, the configuration when it exists
/// or was written, the vault when it exists or was written.
pub open spec fn established_by(
    files: SetupFiles,
    stage: SetupStageModel,
    event: SetupEventModel,
) -> Set<Seq<char>> {
    match (stage, event) {
        (SetupStageModel::CheckingKey, SetupEventModel::Found(true)) => set![files.key_file@],
        (SetupStageModel::GeneratingKey, SetupEventModel::Ran { success: true, .. }) => set![
            files.key_file@,
        ],
        (SetupStageModel::CheckingConfig { .. }, SetupEventModel::Found(true)) => set![
            files.config_file@,
        ],
        (SetupStageModel::WritingConfig, SetupEventModel::Done) => set![files.config_file@],
        (SetupStageModel::CheckingVault, SetupEventModel::Found(true)) => set![
            files.secrets_file@,
        ],
        (SetupStageModel::WritingVault, SetupEventModel::Done) => set![files.secrets_file@],
        _ => Set::empty(),
    }
}

/// The files that the steps of a run of setup found in place or put in place.
pub open spec fn setup_established(
    files: SetupFiles,
    windows: bool,
    step: SetupStepModel,
    events: Seq<SetupEventModel>,
) -> Set<Seq<char>>
    decreases events.len(),
{
    if events.len() == 0 {
        Set::empty()
    } else {
        established_by(files, step.stage, events[0]).union(
            setup_established(
                files,
                windows,
                setup_step_spec(files, windows, step.stage, events[0]),
                events.drop_first(),
            ),
        )
    }
}

/// The files in `s` are the three whose presence marks setup as complete.
pub open spec fn holds_completion_files(files: SetupFiles, s: Set<Seq<char>>) -> bool {
    forall|i: int| 0 <= i < 3 ==> s.contains(#[trigger] completion_files(&files)[i])
}

/// What a run of setup has in place when it stands at `step`.
pub open spec fn in_place_so_far(files: SetupFiles, step: SetupStepModel, s: Set<Seq<char>>) -> bool {
    &&& (step.request == SetupRequestModel::Finish(Ok(())) ==> holds_completion_files(files, s))
    &&& match step.stage {
        SetupStageModel::ReadingKey => s.contains(files.key_file@),
        SetupStageModel::SettingKeyEnv { .. } => s.contains(files.key_file@),
        SetupStageModel::CheckingConfig { .. } => s.contains(files.key_file@),
        SetupStageModel::WritingConfig => s.contains(files.key_file@),
        SetupStageModel::CheckingVault => s.contains(files.key_file@) && s.contains(
            files.config_file@,
        ),
        SetupStageModel::EncryptingVault => s.contains(files.key_file@) && s.contains(
            files.config_file@,
        ),
        SetupStageModel::WritingVault => s.contains(files.key_file@) && s.contains(
            files.config_file@,
        ),
        _ => true,
    }
}

proof fn lemma_in_place_run(
    files: SetupFiles,
    windows: bool,
    step: SetupStepModel,
    events: Seq<SetupEventModel>,
    s: Set<Seq<char>>,
)
    requires
        in_place_so_far(files, step, s),
    ensures
        setup_run(files, windows, step, events).request == SetupRequestModel::Finish(Ok(()))
            ==> holds_completion_files(files, s.union(setup_established(files, windows, step, events))),
    decreases events.len(),
{
    if events.len() == 0 {
        assert(s.union(Set::<Seq<char>>::empty()) =~= s);
    } else {
        let e = events[0];
        let next = setup_step_spec(files, windows, step.stage, e);
        let s2 = s.union(established_by(files, step.stage, e));
        assert(in_place_so_far(files, next, s2));
        lemma_in_place_run(files, windows, next, events.drop_first(), s2);
        assert(s2.union(setup_established(files, windows, next, events.drop_first())) =~= s.union(
            setup_established(files, windows, step, events),
        ));
    }
}

/// A run of setup that ends well has found in place, or put in place, each
/// of the three files whose presence marks setup as complete: the age key,
/// the vault and the SOPS configuration.
pub proof fn law_setup_ok_leaves_completion_files(
    files: SetupFiles,
    windows: bool,
    events: Seq<SetupEventModel>,
)
    ensures
        setup_run(files, windows, setup_start_step(windows), events).request
            == SetupRequestModel::Finish(Ok(())) ==> holds_completion_files(
            files,
            setup_established(files, windows, setup_start_step(windows), events),
        ),
{
    lemma_in_place_run(files, windows, setup_start_step(windows), events, Set::empty());
    assert(Set::<Seq<char>>::empty().union(
        setup_established(files, windows, setup_start_step(windows), events),
    ) =~= setup_established(files, windows, setup_start_step(windows), events));
}

/// The request generates a key, writes a file or encrypts the vault.
pub open spec fn changes_files(request: SetupRequestModel) -> bool {
    ||| request is RunKeygen
    ||| request is WriteFile
    ||| request is EncryptVault
    ||| request is WriteEncryptedVault
}

/// The stages that only a missing file leads to.
pub open spec fn creating(stage: SetupStageModel) -> bool {
    ||| stage is GeneratingKey
    ||| stage is WritingConfig
    ||| stage is EncryptingVault
    ||| stage is WritingVault
}

proof fn lemma_nothing_missing(
    files: SetupFiles,
    windows: bool,
    step: SetupStepModel,
    events: Seq<SetupEventModel>,
)
    requires
        !creating(step.stage),
        !changes_files(step.request),
        forall|i: int| 0 <= i < events.len() && events[i] is Found ==> events[i] == SetupEventModel::Found(true),
    ensures
        !changes_files(setup_run(files, windows, step, events).request),
    decreases events.len(),
{
    if events.len() > 0 {
        let next = setup_step_spec(files, windows, step.stage, events[0]);
        assert(events[0] is Found ==> events[0] == SetupEventModel::Found(true));
        assert(!creating(next.stage) && !changes_files(next.request));
        let rest = events.drop_first();
        assert forall|i: int| 0 <= i < rest.len() && rest[i] is Found implies rest[i]
            == SetupEventModel::Found(true) by {
            assert(rest[i] == events[i + 1]);
        }
        lemma_nothing_missing(files, windows, next, rest);
    }
}

/// When every file and program setup asks about is found, setup generates
/// no key, writes no file and encrypts nothing, whatever else it is told.
pub proof fn law_rerun_changes_nothing(
    files: SetupFiles,
    windows: bool,
    events: Seq<SetupEventModel>,
)
    requires
        forall|i: int| 0 <= i < events.len() && events[i] is Found ==> events[i] == SetupEventModel::Found(true),
    ensures
        !changes_files(setup_run(files, windows, setup_start_step(windows), events).request),
{
    lemma_nothing_missing(files, windows, setup_start_step(windows), events);
}

/// Setup run again over a finished one, with the tools installed and every
/// file in place (the key file holding a public key), ends well after eight
/// answers: checking, reading the key and setting the key variable. Every
/// existence check in it answers yes, so no step of it changes a file
/// (`law_rerun_changes_nothing`).
pub proof fn law_rerun_ends_well(files: SetupFiles, windows: bool, key_text: Seq<char>)
    requires
        public_key_of(key_text) is Some,
    ensures
        setup_run(
            files,
            windows,
            setup_start_step(windows),
            seq![
                SetupEventModel::Found(true),
                SetupEventModel::Found(true),
                SetupEventModel::Done,
                SetupEventModel::Found(true),
                SetupEventModel::Read(key_text),
                SetupEventModel::Done,
                SetupEventModel::Found(true),
                SetupEventModel::Found(true),
            ],
        ).request == SetupRequestModel::Finish(Ok(())),
{
    let t = SetupEventModel::Found(true);
    let e8 = seq![
        t,
        t,
        SetupEventModel::Done,
        t,
        SetupEventModel::Read(key_text),
        SetupEventModel::Done,
        t,
        t,
    ];
    let e7 = e8.drop_first();
    let e6 = e7.drop_first();
    let e5 = e6.drop_first();
    let e4 = e5.drop_first();
    let e3 = e4.drop_first();
    let e2 = e3.drop_first();
    let e1 = e2.drop_first();
    let e0 = e1.drop_first();
    assert(e7 =~= seq![t, SetupEventModel::Done, t, SetupEventModel::Read(key_text), SetupEventModel::Done, t, t]);
    assert(e6 =~= seq![SetupEventModel::Done, t, SetupEventModel::Read(key_text), SetupEventModel::Done, t, t]);
    assert(e5 =~= seq![t, SetupEventModel::Read(key_text), SetupEventModel::Done, t, t]);
    assert(e4 =~= seq![SetupEventModel::Read(key_text), SetupEventModel::Done, t, t]);
    assert(e3 =~= seq![SetupEventModel::Done, t, t]);
    assert(e2 =~= seq![t, t]);
    assert(e1 =~= seq![t]);
    assert(e0.len() == 0);
    let k = public_key_of(key_text)->0;
    let s1 = setup_step_spec(files, windows, SetupStageModel::CheckingSops, t);
    let s2 = setup_step_spec(files, windows, s1.stage, t);
    let s3 = setup_step_spec(files, windows, s2.stage, SetupEventModel::Done);
    let s4 = setup_step_spec(files, windows, s3.stage, t);
    let s5 = setup_step_spec(files, windows, s4.stage, SetupEventModel::Read(key_text));
    let s6 = setup_step_spec(files, windows, s5.stage, SetupEventModel::Done);
    let s7 = setup_step_spec(files, windows, s6.stage, t);
    let s8 = setup_step_spec(files, windows, s7.stage, t);
    assert(s5.stage == SetupStageModel::SettingKeyEnv { public_key: k });
    assert(s8.request == SetupRequestModel::Finish(Ok(())));
    assert(setup_run(files, windows, s8, e0) == s8);
    assert(setup_run(files, windows, s7, e1) == s8);
    assert(setup_run(files, windows, s6, e2) == s8);
    assert(setup_run(files, windows, s5, e3) == s8);
    assert(setup_run(files, windows, s4, e4) == s8);
    assert(setup_run(files, windows, s3, e5) == s8);
    assert(setup_run(files, windows, s2, e6) == s8);
    assert(setup_run(files, windows, s1, e7) == s8);
    assert(setup_run(files, windows, setup_start_step(windows), e8) == s8);
}

} // verus!
