//! The command sessions: adding, showing, removing and editing a password.
//!
//! A session is a state machine. Each step hands back the lines to print and
//! one request (load the vault, ask a question, generate a password, save the
//! vault, or stop); the caller performs the request and hands its answer back
//! as the next event.
use vstd::prelude::*;
use vstd::string::*;
use crate::backend::VaultError;
use crate::paths::opt_view;
use crate::text::{join2, join3, join5};
use crate::vault::Vault;

verus! {

/// The command that a session carries out.
#[derive(Clone, Copy, PartialEq, Eq, Debug, Structural)]
pub enum Kind {
    Add,
    Call,
    Remove,
    Edit,
}

// ---------------------------------------------------------------------------
// Messages and prompts
// ---------------------------------------------------------------------------

pub open spec fn empty_msg() -> Seq<char> {
    "Your password vault is currently empty."@
}

pub open spec fn found_msg(name: Seq<char>, password: Seq<char>) -> Seq<char> {
    "\n🔑 \x1b[1m"@ + name + "\x1b[0m: \x1b[36m"@ + password + "\x1b[0m"@
}

pub open spec fn not_found_msg(name: Seq<char>) -> Seq<char> {
    "\x1b[31mNo entry found for '"@ + name + "'.\x1b[0m"@
}

pub open spec fn not_found_edit_msg(name: Seq<char>) -> Seq<char> {
    "\x1b[31mNo entry found for '"@ + name + "'. Use 'add' instead.\x1b[0m"@
}

pub open spec fn generate_prompt() -> Seq<char> {
    "Generate password?"@
}

pub open spec fn password_prompt() -> Seq<char> {
    "Enter password"@
}

pub open spec fn generated_msg(password: Seq<char>) -> Seq<char> {
    "\nGenerated password: \x1b[33m"@ + password + "\x1b[0m"@
}

pub open spec fn select_prompt(kind: Kind) -> Seq<char> {
    match kind {
        Kind::Remove => "Select password to remove"@,
        Kind::Edit => "Select password to edit"@,
        _ => "Search for a password"@,
    }
}

pub open spec fn remove_prompt(name: Seq<char>) -> Seq<char> {
    "Are you sure you want to remove your password for "@ + name + "?"@
}

pub open spec fn canceled_msg() -> Seq<char> {
    "Canceled."@
}

pub open spec fn edit_prompt(name: Seq<char>) -> Seq<char> {
    "What do you want to change the password for '"@ + name + "' to?"@
}

pub open spec fn change_prompt(password: Seq<char>) -> Seq<char> {
    "Do you want to change the password to '"@ + password + "'?"@
}

pub open spec fn change_canceled_msg() -> Seq<char> {
    "\x1b[33mChange canceled!\x1b[0m"@
}

/// What is printed once the vault has been saved.
pub open spec fn saved_msg(kind: Kind, name: Seq<char>) -> Seq<char> {
    match kind {
        Kind::Add => "\x1b[32m✔ Password for '"@ + name + "' was saved successfully!\x1b[0m"@,
        Kind::Remove => "\x1b[32mPassword for '"@ + name + "' has been removed.\x1b[0m"@,
        _ => "\x1b[32mPassword changed successfully!\x1b[0m"@,
    }
}

/// What is printed on the error stream when the vault could not be saved.
pub open spec fn save_failed_msg(kind: Kind, error: Seq<char>) -> Seq<char> {
    match kind {
        Kind::Add => "Error saving secrets to SOPS: "@ + error,
        Kind::Remove => "Error saving changes: "@ + error,
        _ => "Error: "@ + error,
    }
}

// ---------------------------------------------------------------------------
// The model of a session
// ---------------------------------------------------------------------------

/// A line to print, on the output or on the error stream.
pub enum LineModel {
    Stdout(Seq<char>),
    Stderr(Seq<char>),
}

/// Where a session stands.
pub enum StageModel {
    Loading { kind: Kind, wanted: Option<Seq<char>> },
    AskingGenerate { vault: Map<Seq<char>, Seq<char>>, name: Seq<char> },
    AwaitingGenerated { vault: Map<Seq<char>, Seq<char>>, name: Seq<char> },
    AwaitingPassword { vault: Map<Seq<char>, Seq<char>>, name: Seq<char> },
    Selecting { kind: Kind, vault: Map<Seq<char>, Seq<char>>, keys: Seq<Seq<char>> },
    ConfirmingRemoval { vault: Map<Seq<char>, Seq<char>>, name: Seq<char> },
    AwaitingNewPassword { vault: Map<Seq<char>, Seq<char>>, name: Seq<char> },
    ConfirmingChange {
        vault: Map<Seq<char>, Seq<char>>,
        name: Seq<char>,
        password: Seq<char>,
    },
    Saving { kind: Kind, name: Seq<char> },
    Finished,
}

/// What the caller hands back.
pub enum EventModel {
    /// The vault's content and the order of its names, or nothing when it
    /// could not be read.
    Loaded(Option<(Map<Seq<char>, Seq<char>>, Seq<Seq<char>>)>),
    Answered(bool),
    Generated(Seq<char>),
    Entered(Seq<char>),
    Selected(Option<int>),
    /// Nothing on success, the error's text otherwise.
    Saved(Option<Seq<char>>),
}

/// What the caller is asked to do.
pub enum RequestModel {
    LoadVault,
    Confirm { prompt: Seq<char>, default_yes: bool },
    GeneratePassword,
    AskPassword { prompt: Seq<char> },
    AskText { prompt: Seq<char> },
    Select { prompt: Seq<char>, items: Seq<Seq<char>> },
    Save(Map<Seq<char>, Seq<char>>),
    Finish,
}

/// One step of a session.
pub struct StepModel {
    pub stage: StageModel,
    pub lines: Seq<LineModel>,
    pub request: RequestModel,
}

/// The step that ends a session after printing `lines`.
pub open spec fn finish_with(lines: Seq<LineModel>) -> StepModel {
    StepModel { stage: StageModel::Finished, lines, request: RequestModel::Finish }
}

/// The first step of a session.
pub open spec fn start_step(kind: Kind, name: Option<Seq<char>>) -> StepModel {
    StepModel {
        stage: StageModel::Loading { kind, wanted: name },
        lines: Seq::empty(),
        request: RequestModel::LoadVault,
    }
}

/// The step taken once the entry the command is about is known.
pub open spec fn target_step(kind: Kind, m: Map<Seq<char>, Seq<char>>, n: Seq<char>) -> StepModel {
    match kind {
        Kind::Add => StepModel {
            stage: StageModel::AskingGenerate { vault: m, name: n },
            lines: Seq::empty(),
            request: RequestModel::Confirm { prompt: generate_prompt(), default_yes: true },
        },
        Kind::Call => if m.contains_key(n) {
            finish_with(seq![LineModel::Stdout(found_msg(n, m[n]))])
        } else {
            finish_with(seq![LineModel::Stdout(not_found_msg(n))])
        },
        Kind::Remove => if m.contains_key(n) {
            StepModel {
                stage: StageModel::ConfirmingRemoval { vault: m, name: n },
                lines: Seq::empty(),
                request: RequestModel::Confirm { prompt: remove_prompt(n), default_yes: false },
            }
        } else {
            finish_with(seq![LineModel::Stdout(not_found_msg(n))])
        },
        Kind::Edit => if m.contains_key(n) {
            StepModel {
                stage: StageModel::AwaitingNewPassword { vault: m, name: n },
                lines: Seq::empty(),
                request: RequestModel::AskText { prompt: edit_prompt(n) },
            }
        } else {
            finish_with(seq![LineModel::Stdout(not_found_edit_msg(n))])
        },
    }
}

/// The vault content a load gives: an unreadable vault counts as empty.
pub open spec fn loaded_map(l: Option<(Map<Seq<char>, Seq<char>>, Seq<Seq<char>>)>) -> Map<
    Seq<char>,
    Seq<char>,
> {
    match l {
        Some(x) => x.0,
        None => Map::empty(),
    }
}

/// The order of names a load gives.
pub open spec fn loaded_order(l: Option<(Map<Seq<char>, Seq<char>>, Seq<Seq<char>>)>) -> Seq<
    Seq<char>,
> {
    match l {
        Some(x) => x.1,
        None => Seq::empty(),
    }
}

/// Whether `event` answers what a session at `stage` asked for.
pub open spec fn fits(stage: StageModel, event: EventModel) -> bool {
    match (stage, event) {
        (StageModel::Loading { .. }, EventModel::Loaded(_)) => true,
        (StageModel::AskingGenerate { .. }, EventModel::Answered(_)) => true,
        (StageModel::AwaitingGenerated { .. }, EventModel::Generated(_)) => true,
        (StageModel::AwaitingPassword { .. }, EventModel::Entered(_)) => true,
        (StageModel::Selecting { keys, .. }, EventModel::Selected(c)) => match c {
            Some(i) => 0 <= i < keys.len(),
            None => true,
        },
        (StageModel::ConfirmingRemoval { .. }, EventModel::Answered(_)) => true,
        (StageModel::AwaitingNewPassword { .. }, EventModel::Entered(_)) => true,
        (StageModel::ConfirmingChange { .. }, EventModel::Answered(_)) => true,
        (StageModel::Saving { .. }, EventModel::Saved(_)) => true,
        _ => false,
    }
}

/// The step a session at `stage` takes on `event`. An event that does not
/// answer what was asked ends the session silently.
pub open spec fn spec_step(stage: StageModel, event: EventModel) -> StepModel {
    match (stage, event) {
        (StageModel::Loading { kind, wanted: name }, EventModel::Loaded(l)) => {
            let m = loaded_map(l);
            if kind == Kind::Add {
                match name {
                    Some(n) => target_step(kind, m, n),
                    None => finish_with(Seq::empty()),
                }
            } else if m.dom().len() == 0 {
                finish_with(seq![LineModel::Stdout(empty_msg())])
            } else {
                match name {
                    Some(n) => target_step(kind, m, n),
                    None => StepModel {
                        stage: StageModel::Selecting { kind, vault: m, keys: loaded_order(l) },
                        lines: Seq::empty(),
                        request: RequestModel::Select {
                            prompt: select_prompt(kind),
                            items: loaded_order(l),
                        },
                    },
                }
            }
        },
        (StageModel::AskingGenerate { vault, name }, EventModel::Answered(yes)) => if yes {
            StepModel {
                stage: StageModel::AwaitingGenerated { vault, name },
                lines: Seq::empty(),
                request: RequestModel::GeneratePassword,
            }
        } else {
            StepModel {
                stage: StageModel::AwaitingPassword { vault, name },
                lines: Seq::empty(),
                request: RequestModel::AskPassword { prompt: password_prompt() },
            }
        },
        (StageModel::AwaitingGenerated { vault, name }, EventModel::Generated(p)) => StepModel {
            stage: StageModel::Saving { kind: Kind::Add, name },
            lines: seq![LineModel::Stdout(generated_msg(p))],
            request: RequestModel::Save(vault.insert(name, p)),
        },
        (StageModel::AwaitingPassword { vault, name }, EventModel::Entered(p)) => StepModel {
            stage: StageModel::Saving { kind: Kind::Add, name },
            lines: Seq::empty(),
            request: RequestModel::Save(vault.insert(name, p)),
        },
        (StageModel::Selecting { kind, vault, keys }, EventModel::Selected(c)) => match c {
            Some(i) => target_step(kind, vault, keys[i]),
            None => finish_with(Seq::empty()),
        },
        (StageModel::ConfirmingRemoval { vault, name }, EventModel::Answered(yes)) => if yes {
            StepModel {
                stage: StageModel::Saving { kind: Kind::Remove, name },
                lines: Seq::empty(),
                request: RequestModel::Save(vault.remove(name)),
            }
        } else {
            finish_with(seq![LineModel::Stdout(canceled_msg())])
        },
        (StageModel::AwaitingNewPassword { vault, name }, EventModel::Entered(p)) => StepModel {
            stage: StageModel::ConfirmingChange { vault, name, password: p },
            lines: Seq::empty(),
            request: RequestModel::Confirm { prompt: change_prompt(p), default_yes: true },
        },
        (StageModel::ConfirmingChange { vault, name, password }, EventModel::Answered(yes)) => if yes {
            StepModel {
                stage: StageModel::Saving { kind: Kind::Edit, name },
                lines: Seq::empty(),
                request: RequestModel::Save(vault.insert(name, password)),
            }
        } else {
            finish_with(seq![LineModel::Stdout(change_canceled_msg())])
        },
        (StageModel::Saving { kind, name }, EventModel::Saved(outcome)) => match outcome {
            None => finish_with(seq![LineModel::Stdout(saved_msg(kind, name))]),
            Some(e) => finish_with(seq![LineModel::Stderr(save_failed_msg(kind, e))]),
        },
        _ => finish_with(Seq::empty()),
    }
}

// ---------------------------------------------------------------------------
// The executable session
// ---------------------------------------------------------------------------

/// A line to print, on the output or on the error stream.
pub enum Line {
    Stdout(String),
    Stderr(String),
}

impl View for Line {
    type V = LineModel;

    open spec fn view(&self) -> LineModel {
        match self {
            Line::Stdout(s) => LineModel::Stdout(s@),
            Line::Stderr(s) => LineModel::Stderr(s@),
        }
    }
}

/// Where a session stands.
pub enum Stage {
    Loading { kind: Kind, wanted: Option<String> },
    AskingGenerate { vault: Vault, name: String },
    AwaitingGenerated { vault: Vault, name: String },
    AwaitingPassword { vault: Vault, name: String },
    Selecting { kind: Kind, vault: Vault, keys: Vec<String> },
    ConfirmingRemoval { vault: Vault, name: String },
    AwaitingNewPassword { vault: Vault, name: String },
    ConfirmingChange { vault: Vault, name: String, password: String },
    Saving { kind: Kind, name: String },
    Finished,
}

impl View for Stage {
    type V = StageModel;

    open spec fn view(&self) -> StageModel {
        match self {
            Stage::Loading { kind, wanted } => StageModel::Loading { kind: *kind, wanted: opt_view(wanted) },
            Stage::AskingGenerate { vault, name } => StageModel::AskingGenerate {
                vault: vault@,
                name: name@,
            },
            Stage::AwaitingGenerated { vault, name } => StageModel::AwaitingGenerated {
                vault: vault@,
                name: name@,
            },
            Stage::AwaitingPassword { vault, name } => StageModel::AwaitingPassword {
                vault: vault@,
                name: name@,
            },
            Stage::Selecting { kind, vault, keys } => StageModel::Selecting {
                kind: *kind,
                vault: vault@,
                keys: keys.deep_view(),
            },
            Stage::ConfirmingRemoval { vault, name } => StageModel::ConfirmingRemoval {
                vault: vault@,
                name: name@,
            },
            Stage::AwaitingNewPassword { vault, name } => StageModel::AwaitingNewPassword {
                vault: vault@,
                name: name@,
            },
            Stage::ConfirmingChange { vault, name, password } => StageModel::ConfirmingChange {
                vault: vault@,
                name: name@,
                password: password@,
            },
            Stage::Saving { kind, name } => StageModel::Saving { kind: *kind, name: name@ },
            Stage::Finished => StageModel::Finished,
        }
    }
}

/// What the caller hands back.
pub enum Event {
    /// The vault as read, or why it could not be read.
    Loaded(Result<Vault, VaultError>),
    /// The answer to a yes/no question.
    Answered(bool),
    /// A freshly generated password.
    Generated(String),
    /// A password or text typed in.
    Entered(String),
    /// The position of the chosen name, or nothing when the choice was
    /// abandoned.
    Selected(Option<usize>),
    /// Whether the vault was saved.
    Saved(Result<(), VaultError>),
}

impl View for Event {
    type V = EventModel;

    open spec fn view(&self) -> EventModel {
        match self {
            Event::Loaded(r) => EventModel::Loaded(
                match r {
                    Ok(v) => Some((v@, v.key_order())),
                    Err(_) => None,
                },
            ),
            Event::Answered(b) => EventModel::Answered(*b),
            Event::Generated(p) => EventModel::Generated(p@),
            Event::Entered(p) => EventModel::Entered(p@),
            Event::Selected(c) => EventModel::Selected(
                match c {
                    Some(i) => Some(*i as int),
                    None => None,
                },
            ),
            Event::Saved(r) => EventModel::Saved(
                match r {
                    Ok(()) => None,
                    Err(e) => Some(e.text()),
                },
            ),
        }
    }
}

/// What the caller is asked to do.
pub enum Request {
    /// Read the vault.
    LoadVault,
    /// Ask a yes/no question; `default_yes` is the answer offered first.
    Confirm { prompt: String, default_yes: bool },
    /// Generate a password.
    GeneratePassword,
    /// Ask for a password, without echo.
    AskPassword { prompt: String },
    /// Ask for a line of text.
    AskText { prompt: String },
    /// Let the user pick one of `items`, or abandon the choice.
    Select { prompt: String, items: Vec<String> },
    /// Write this vault back.
    Save(Vault),
    /// The session is over.
    Finish,
}

impl View for Request {
    type V = RequestModel;

    open spec fn view(&self) -> RequestModel {
        match self {
            Request::LoadVault => RequestModel::LoadVault,
            Request::Confirm { prompt, default_yes } => RequestModel::Confirm {
                prompt: prompt@,
                default_yes: *default_yes,
            },
            Request::GeneratePassword => RequestModel::GeneratePassword,
            Request::AskPassword { prompt } => RequestModel::AskPassword { prompt: prompt@ },
            Request::AskText { prompt } => RequestModel::AskText { prompt: prompt@ },
            Request::Select { prompt, items } => RequestModel::Select {
                prompt: prompt@,
                items: items.deep_view(),
            },
            Request::Save(v) => RequestModel::Save(v@),
            Request::Finish => RequestModel::Finish,
        }
    }
}

/// One step of a session: where it now stands, what to print, and what to do
/// next.
pub struct Step {
    pub stage: Stage,
    pub lines: Vec<Line>,
    pub request: Request,
}

impl View for Step {
    type V = StepModel;

    open spec fn view(&self) -> StepModel {
        StepModel {
            stage: self.stage@,
            lines: self.lines@.map_values(|l: Line| l@),
            request: self.request@,
        }
    }
}

/// A step that ends the session after printing nothing.
fn finish_silently() -> (r: Step)
    ensures
        r@ == finish_with(Seq::empty()),
{
    let r = Step { stage: Stage::Finished, lines: Vec::new(), request: Request::Finish };
    assert(r@.lines =~= Seq::<LineModel>::empty());
    r
}

/// A step that ends the session after printing one line.
fn finish_line(line: Line) -> (r: Step)
    ensures
        r@ == finish_with(seq![line@]),
{
    let mut lines: Vec<Line> = Vec::new();
    lines.push(line);
    let r = Step { stage: Stage::Finished, lines, request: Request::Finish };
    assert(r@.lines =~= seq![line@]);
    r
}

/// A step that prints nothing.
fn quiet(stage: Stage, request: Request) -> (r: Step)
    ensures
        r@ == (StepModel { stage: stage@, lines: Seq::empty(), request: request@ }),
{
    let r = Step { stage, lines: Vec::new(), request };
    assert(r@.lines =~= Seq::<LineModel>::empty());
    r
}

fn select_prompt_text(kind: Kind) -> (r: String)
    ensures
        r@ == select_prompt(kind),
{
    match kind {
        Kind::Remove => String::from_str("Select password to remove"),
        Kind::Edit => String::from_str("Select password to edit"),
        _ => String::from_str("Search for a password"),
    }
}

fn saved_text(kind: Kind, name: &String) -> (r: String)
    ensures
        r@ == saved_msg(kind, name@),
{
    match kind {
        Kind::Add => join3(
            "\x1b[32m✔ Password for '",
            name.as_str(),
            "' was saved successfully!\x1b[0m",
        ),
        Kind::Remove => join3(
            "\x1b[32mPassword for '",
            name.as_str(),
            "' has been removed.\x1b[0m",
        ),
        _ => String::from_str("\x1b[32mPassword changed successfully!\x1b[0m"),
    }
}

fn save_failed_text(kind: Kind, error: &String) -> (r: String)
    ensures
        r@ == save_failed_msg(kind, error@),
{
    match kind {
        Kind::Add => join2("Error saving secrets to SOPS: ", error.as_str()),
        Kind::Remove => join2("Error saving changes: ", error.as_str()),
        _ => join2("Error: ", error.as_str()),
    }
}

/// The step taken once the entry the command is about is known.
fn target(kind: Kind, vault: Vault, name: String) -> (r: Step)
    ensures
        r@ == target_step(kind, vault@, name@),
{
    match kind {
        Kind::Add => {
            let prompt = String::from_str("Generate password?");
            quiet(
                Stage::AskingGenerate { vault, name },
                Request::Confirm { prompt, default_yes: true },
            )
        },
        Kind::Call => {
            match vault.get(&name) {
                Some(p) => {
                    let msg = join5(
                        "\n🔑 \x1b[1m",
                        name.as_str(),
                        "\x1b[0m: \x1b[36m",
                        p.as_str(),
                        "\x1b[0m",
                    );
                    finish_line(Line::Stdout(msg))
                },
                None => finish_line(
                    Line::Stdout(join3("\x1b[31mNo entry found for '", name.as_str(), "'.\x1b[0m")),
                ),
            }
        },
        Kind::Remove => {
            if vault.contains_key(&name) {
                let prompt = join3(
                    "Are you sure you want to remove your password for ",
                    name.as_str(),
                    "?",
                );
                quiet(
                    Stage::ConfirmingRemoval { vault, name },
                    Request::Confirm { prompt, default_yes: false },
                )
            } else {
                finish_line(
                    Line::Stdout(join3("\x1b[31mNo entry found for '", name.as_str(), "'.\x1b[0m")),
                )
            }
        },
        Kind::Edit => {
            if vault.contains_key(&name) {
                let prompt = join3(
                    "What do you want to change the password for '",
                    name.as_str(),
                    "' to?",
                );
                quiet(Stage::AwaitingNewPassword { vault, name }, Request::AskText { prompt })
            } else {
                finish_line(
                    Line::Stdout(
                        join3(
                            "\x1b[31mNo entry found for '",
                            name.as_str(),
                            "'. Use 'add' instead.\x1b[0m",
                        ),
                    ),
                )
            }
        },
    }
}

/// The first step of a session: it asks for the vault.
pub fn start(kind: Kind, name: Option<String>) -> (r: Step)
    ensures
        r@ == start_step(kind, opt_view(&name)),
{
    quiet(Stage::Loading { kind, wanted: name }, Request::LoadVault)
}

/// Whether `event` answers what a session at `stage` asked for.
pub fn accepts(stage: &Stage, event: &Event) -> (r: bool)
    ensures
        r == fits(stage@, event@),
{
    match (stage, event) {
        (Stage::Loading { .. }, Event::Loaded(_)) => true,
        (Stage::AskingGenerate { .. }, Event::Answered(_)) => true,
        (Stage::AwaitingGenerated { .. }, Event::Generated(_)) => true,
        (Stage::AwaitingPassword { .. }, Event::Entered(_)) => true,
        (Stage::Selecting { keys, .. }, Event::Selected(c)) => match c {
            Some(i) => *i < keys.len(),
            None => true,
        },
        (Stage::ConfirmingRemoval { .. }, Event::Answered(_)) => true,
        (Stage::AwaitingNewPassword { .. }, Event::Entered(_)) => true,
        (Stage::ConfirmingChange { .. }, Event::Answered(_)) => true,
        (Stage::Saving { .. }, Event::Saved(_)) => true,
        _ => false,
    }
}

/// The step a session at `stage` takes on `event`.
pub fn advance(stage: Stage, event: Event) -> (r: Step)
    requires
        fits(stage@, event@),
    ensures
        r@ == spec_step(stage@, event@),
{
    let ghost ev = event@;
    match (stage, event) {
        (Stage::Loading { kind, wanted: name }, Event::Loaded(loaded)) => {
            let vault = match loaded {
                Ok(v) => v,
                Err(_) => {
                    let v = Vault::new();
                    v
                },
            };
            proof {
                assert(vault@ == loaded_map(ev->Loaded_0));
            }
            if kind == Kind::Add {
                match name {
                    Some(n) => target(kind, vault, n),
                    None => finish_silently(),
                }
            } else if vault.is_empty() {
                finish_line(Line::Stdout(String::from_str("Your password vault is currently empty.")))
            } else {
                match name {
                    Some(n) => target(kind, vault, n),
                    None => {
                        let keys = vault.keys();
                        let items = vault.keys();
                        let prompt = select_prompt_text(kind);
                        quiet(Stage::Selecting { kind, vault, keys }, Request::Select { prompt, items })
                    },
                }
            }
        },
        (Stage::AskingGenerate { vault, name }, Event::Answered(yes)) => {
            if yes {
                quiet(Stage::AwaitingGenerated { vault, name }, Request::GeneratePassword)
            } else {
                let prompt = String::from_str("Enter password");
                quiet(Stage::AwaitingPassword { vault, name }, Request::AskPassword { prompt })
            }
        },
        (Stage::AwaitingGenerated { vault, name }, Event::Generated(p)) => {
            let msg = join3("\nGenerated password: \x1b[33m", p.as_str(), "\x1b[0m");
            let mut vault = vault;
            vault.insert(name.clone(), p);
            let mut lines: Vec<Line> = Vec::new();
            lines.push(Line::Stdout(msg));
            let r = Step {
                stage: Stage::Saving { kind: Kind::Add, name },
                lines,
                request: Request::Save(vault),
            };
            assert(r@.lines =~= seq![LineModel::Stdout(msg@)]);
            r
        },
        (Stage::AwaitingPassword { vault, name }, Event::Entered(p)) => {
            let mut vault = vault;
            vault.insert(name.clone(), p);
            quiet(Stage::Saving { kind: Kind::Add, name }, Request::Save(vault))
        },
        (Stage::Selecting { kind, vault, keys }, Event::Selected(choice)) => {
            match choice {
                Some(i) => {
                    let n = keys[i].clone();
                    assert(n@ == keys.deep_view()[i as int]);
                    target(kind, vault, n)
                },
                None => finish_silently(),
            }
        },
        (Stage::ConfirmingRemoval { vault, name }, Event::Answered(yes)) => {
            if yes {
                let mut vault = vault;
                vault.remove(&name);
                quiet(Stage::Saving { kind: Kind::Remove, name }, Request::Save(vault))
            } else {
                finish_line(Line::Stdout(String::from_str("Canceled.")))
            }
        },
        (Stage::AwaitingNewPassword { vault, name }, Event::Entered(p)) => {
            let prompt = join3("Do you want to change the password to '", p.as_str(), "'?");
            quiet(
                Stage::ConfirmingChange { vault, name, password: p },
                Request::Confirm { prompt, default_yes: true },
            )
        },
        (Stage::ConfirmingChange { vault, name, password }, Event::Answered(yes)) => {
            if yes {
                let mut vault = vault;
                vault.insert(name.clone(), password);
                quiet(Stage::Saving { kind: Kind::Edit, name }, Request::Save(vault))
            } else {
                finish_line(Line::Stdout(String::from_str("\x1b[33mChange canceled!\x1b[0m")))
            }
        },
        (Stage::Saving { kind, name }, Event::Saved(outcome)) => {
            match outcome {
                Ok(()) => finish_line(Line::Stdout(saved_text(kind, &name))),
                Err(e) => {
                    let text = e.message();
                    finish_line(Line::Stderr(save_failed_text(kind, &text)))
                },
            }
        },
        _ => finish_silently(),
    }
}


// ---------------------------------------------------------------------------
// Laws of sessions
// ---------------------------------------------------------------------------

/// Where a session stands after the events `events`, starting from `step`.
pub open spec fn run(step: StepModel, events: Seq<EventModel>) -> StepModel
    decreases events.len(),
{
    if events.len() == 0 {
        step
    } else {
        run(spec_step(step.stage, events[0]), events.drop_first())
    }
}

/// The entry named on the command line, if any, is `n`.
pub open spec fn name_matches(name: Option<Seq<char>>, n: Seq<char>) -> bool {
    match name {
        Some(x) => x == n,
        None => true,
    }
}

/// The saves that a session of `kind` started with `name` may ask for, once
/// it loaded `loaded`: an add stores a password under its name; a removal
/// drops one existing entry; an edit changes the password of one existing
/// entry; showing a password never saves.
pub open spec fn save_allowed(
    kind: Kind,
    name: Option<Seq<char>>,
    loaded: Map<Seq<char>, Seq<char>>,
    saved: Map<Seq<char>, Seq<char>>,
) -> bool {
    match kind {
        Kind::Call => false,
        Kind::Add => exists|p: Seq<char>| saved == loaded.insert(name->0, p),
        Kind::Remove => exists|n: Seq<char>|
            loaded.contains_key(n) && name_matches(name, n) && saved == loaded.remove(n),
        Kind::Edit => exists|n: Seq<char>, p: Seq<char>|
            loaded.contains_key(n) && name_matches(name, n) && saved == loaded.insert(n, p),
    }
}

/// A session of `kind` started with `name` that loaded `m` can stand at
/// `stage`.
pub open spec fn tied(
    stage: StageModel,
    kind: Kind,
    name: Option<Seq<char>>,
    m: Map<Seq<char>, Seq<char>>,
) -> bool {
    match stage {
        StageModel::Loading { .. } => false,
        StageModel::AskingGenerate { vault, name: n } => kind == Kind::Add && vault == m && name
            == Some(n),
        StageModel::AwaitingGenerated { vault, name: n } => kind == Kind::Add && vault == m && name
            == Some(n),
        StageModel::AwaitingPassword { vault, name: n } => kind == Kind::Add && vault == m && name
            == Some(n),
        StageModel::Selecting { kind: k, vault, .. } => k == kind && kind != Kind::Add && vault
            == m && name is None,
        StageModel::ConfirmingRemoval { vault, name: n } => kind == Kind::Remove && vault == m
            && m.contains_key(n) && name_matches(name, n),
        StageModel::AwaitingNewPassword { vault, name: n } => kind == Kind::Edit && vault == m
            && m.contains_key(n) && name_matches(name, n),
        StageModel::ConfirmingChange { vault, name: n, .. } => kind == Kind::Edit && vault == m
            && m.contains_key(n) && name_matches(name, n),
        StageModel::Saving { kind: k, .. } => k == kind,
        StageModel::Finished => true,
    }
}

proof fn lemma_target_tied(kind: Kind, name: Option<Seq<char>>, m: Map<Seq<char>, Seq<char>>, n: Seq<char>)
    requires
        kind == Kind::Add ==> name == Some(n),
        name_matches(name, n),
    ensures
        tied(target_step(kind, m, n).stage, kind, name, m),
        !(target_step(kind, m, n).request is Save),
{
}

proof fn lemma_step_tied(
    stage: StageModel,
    e: EventModel,
    kind: Kind,
    name: Option<Seq<char>>,
    m: Map<Seq<char>, Seq<char>>,
)
    requires
        tied(stage, kind, name, m),
    ensures
        tied(spec_step(stage, e).stage, kind, name, m),
        spec_step(stage, e).request matches RequestModel::Save(v) ==> save_allowed(
            kind,
            name,
            m,
            v,
        ),
{
    match (stage, e) {
        (StageModel::Selecting { kind: k, vault, keys }, EventModel::Selected(c)) => {
            if let Some(i) = c {
                lemma_target_tied(kind, name, m, keys[i]);
            }
        },
        (StageModel::AwaitingGenerated { vault, name: n }, EventModel::Generated(p)) => {
            assert(vault.insert(n, p) == m.insert(name->0, p));
        },
        (StageModel::AwaitingPassword { vault, name: n }, EventModel::Entered(p)) => {
            assert(vault.insert(n, p) == m.insert(name->0, p));
        },
        (StageModel::ConfirmingRemoval { vault, name: n }, EventModel::Answered(yes)) => {
            if yes {
                assert(m.contains_key(n) && name_matches(name, n) && vault.remove(n) == m.remove(n));
            }
        },
        (
            StageModel::ConfirmingChange { vault, name: n, password: p },
            EventModel::Answered(yes),
        ) => {
            if yes {
                assert(m.contains_key(n) && name_matches(name, n) && vault.insert(n, p)
                    == m.insert(n, p));
            }
        },
        _ => {},
    }
}

proof fn lemma_run_tied(
    step: StepModel,
    events: Seq<EventModel>,
    kind: Kind,
    name: Option<Seq<char>>,
    m: Map<Seq<char>, Seq<char>>,
)
    requires
        tied(step.stage, kind, name, m),
        step.request matches RequestModel::Save(v) ==> save_allowed(kind, name, m, v),
    ensures
        tied(run(step, events).stage, kind, name, m),
        run(step, events).request matches RequestModel::Save(v) ==> save_allowed(
            kind,
            name,
            m,
            v,
        ),
    decreases events.len(),
{
    if events.len() > 0 {
        lemma_step_tied(step.stage, events[0], kind, name, m);
        lemma_run_tied(spec_step(step.stage, events[0]), events.drop_first(), kind, name, m);
    }
}

/// Whatever the user answers, a session only ever asks to save the vault it
/// loaded with its one target entry changed: an add stores a password under
/// its name, a removal drops an entry that exists (the named one, when a
/// name was given), an edit changes the password of an entry that exists
/// (the named one, when a name was given) and adds none, and a session that
/// shows a password never saves.
pub proof fn law_saves_change_only_the_target(
    kind: Kind,
    name: Option<Seq<char>>,
    loaded: Option<(Map<Seq<char>, Seq<char>>, Seq<Seq<char>>)>,
    events: Seq<EventModel>,
)
    requires
        kind == Kind::Add ==> name is Some,
    ensures
        run(start_step(kind, name), seq![EventModel::Loaded(loaded)] + events).request matches RequestModel::Save(
            v,
        ) ==> save_allowed(kind, name, loaded_map(loaded), v),
{
    let all = seq![EventModel::Loaded(loaded)] + events;
    assert(all[0] == EventModel::Loaded(loaded));
    assert(all.drop_first() =~= events);
    let first = spec_step(start_step(kind, name).stage, all[0]);
    let m = loaded_map(loaded);
    if kind == Kind::Add {
        lemma_target_tied(kind, name, m, name->0);
    } else if m.dom().len() != 0 {
        if let Some(n) = name {
            lemma_target_tied(kind, name, m, n);
        }
    }
    assert(tied(first.stage, kind, name, m));
    lemma_run_tied(first, events, kind, name, m);
}

/// How many more events a session at `stage` can take before it is over.
pub open spec fn stage_rank(stage: StageModel) -> nat {
    match stage {
        StageModel::Loading { .. } => 5,
        StageModel::Selecting { .. } => 4,
        StageModel::AskingGenerate { .. } => 3,
        StageModel::AwaitingNewPassword { .. } => 3,
        StageModel::AwaitingGenerated { .. } => 2,
        StageModel::AwaitingPassword { .. } => 2,
        StageModel::ConfirmingRemoval { .. } => 2,
        StageModel::ConfirmingChange { .. } => 2,
        StageModel::Saving { .. } => 1,
        StageModel::Finished => 0,
    }
}

proof fn lemma_run_rank(step: StepModel, events: Seq<EventModel>)
    ensures
        stage_rank(run(step, events).stage) + events.len() <= stage_rank(step.stage) || run(
            step,
            events,
        ).stage is Finished,
    decreases events.len(),
{
    if events.len() > 0 {
        let next = spec_step(step.stage, events[0]);
        assert(stage_rank(next.stage) < stage_rank(step.stage) || next.stage is Finished);
        lemma_run_rank(next, events.drop_first());
        if next.stage is Finished {
            lemma_finished_stays(next, events.drop_first());
        }
    }
}

proof fn lemma_finished_stays(step: StepModel, events: Seq<EventModel>)
    requires
        step.stage is Finished,
    ensures
        run(step, events).stage is Finished,
    decreases events.len(),
{
    if events.len() > 0 {
        lemma_finished_stays(spec_step(step.stage, events[0]), events.drop_first());
    }
}

/// Every session is over after at most five answers, and stays over.
pub proof fn law_sessions_end(kind: Kind, name: Option<Seq<char>>, events: Seq<EventModel>)
    requires
        events.len() >= 5,
    ensures
        run(start_step(kind, name), events).stage is Finished,
        run(start_step(kind, name), events).request is Finish,
{
    lemma_run_rank(start_step(kind, name), events);
    lemma_finished_request(start_step(kind, name), events);
}

proof fn lemma_finished_request(step: StepModel, events: Seq<EventModel>)
    requires
        events.len() > 0,
    ensures
        run(step, events).stage is Finished ==> run(step, events).request is Finish,
    decreases events.len(),
{
    if events.len() > 1 {
        lemma_finished_request(spec_step(step.stage, events[0]), events.drop_first());
    } else {
        let next = spec_step(step.stage, events[0]);
        assert(events.drop_first().len() == 0);
        assert(run(next, events.drop_first()) == next);
    }
}

/// Nothing is saved unless a password was just supplied for an add, or the
/// user has just said yes to a removal or a change.
pub proof fn law_save_follows_consent(stage: StageModel, event: EventModel)
    ensures
        spec_step(stage, event).request is Save ==> {
            ||| stage is AwaitingGenerated && event is Generated
            ||| stage is AwaitingPassword && event is Entered
            ||| (stage is ConfirmingRemoval || stage is ConfirmingChange) && event
                == EventModel::Answered(true)
        },
{
}

/// A vault that cannot be read is treated as an empty one.
pub proof fn law_unreadable_vault_is_empty(kind: Kind, name: Option<Seq<char>>)
    ensures
        spec_step(StageModel::Loading { kind, wanted: name }, EventModel::Loaded(None)) == spec_step(
            StageModel::Loading { kind, wanted: name },
            EventModel::Loaded(Some((Map::empty(), Seq::empty()))),
        ),
{
}

/// Showing, removing or editing in an empty vault prints that the vault is
/// empty and ends the session.
pub proof fn law_empty_vault_ends_session(
    kind: Kind,
    name: Option<Seq<char>>,
    order: Seq<Seq<char>>,
)
    requires
        kind != Kind::Add,
    ensures
        spec_step(
            StageModel::Loading { kind, wanted: name },
            EventModel::Loaded(Some((Map::empty(), order))),
        ) == finish_with(seq![LineModel::Stdout(empty_msg())]),
{
    assert(Map::<Seq<char>, Seq<char>>::empty().dom() =~= Set::<Seq<char>>::empty());
}


/// A password saved by an add session is what a session showing that name
/// prints once the saved vault is loaded.
pub proof fn law_call_shows_added_password(
    loaded: Map<Seq<char>, Seq<char>>,
    name: Seq<char>,
    password: Seq<char>,
    order: Seq<Seq<char>>,
)
    requires
        loaded.dom().finite(),
    ensures
        spec_step(
            StageModel::AwaitingPassword { vault: loaded, name },
            EventModel::Entered(password),
        ).request == RequestModel::Save(loaded.insert(name, password)),
        spec_step(
            StageModel::Loading { kind: Kind::Call, wanted: Some(name) },
            EventModel::Loaded(Some((loaded.insert(name, password), order))),
        ) == finish_with(seq![LineModel::Stdout(found_msg(name, password))]),
{
    let saved = loaded.insert(name, password);
    assert(saved.dom().contains(name));
    assert(saved.dom().finite());
    assert(saved.dom().len() != 0) by {
        if saved.dom().len() == 0 {
            saved.dom().lemma_len0_is_empty();
        }
    }
}


/// `after` is `before` with `password` stored under `name`: the name is there
/// with exactly that password, and every other name keeps its entry (or its
/// absence).
pub open spec fn stores(
    before: Map<Seq<char>, Seq<char>>,
    after: Map<Seq<char>, Seq<char>>,
    name: Seq<char>,
    password: Seq<char>,
) -> bool {
    &&& after.contains_key(name)
    &&& after[name] == password
    &&& forall|k: Seq<char>|
        k != name ==> (#[trigger] after.contains_key(k) == before.contains_key(k) && (
        before.contains_key(k) ==> after[k] == before[k]))
}

/// An add session saves the password it was handed, whole, under its name,
/// replacing what was stored there, and leaves every other entry as it was:
/// a generated password is printed and that very password is saved; a typed
/// one is saved as typed.
pub proof fn law_add_saves_the_given_password(
    vault: Map<Seq<char>, Seq<char>>,
    name: Seq<char>,
    password: Seq<char>,
)
    ensures
        spec_step(
            StageModel::AwaitingGenerated { vault, name },
            EventModel::Generated(password),
        ).lines == seq![LineModel::Stdout(generated_msg(password))],
        spec_step(
            StageModel::AwaitingGenerated { vault, name },
            EventModel::Generated(password),
        ).request matches RequestModel::Save(saved) && stores(vault, saved, name, password),
        spec_step(
            StageModel::AwaitingPassword { vault, name },
            EventModel::Entered(password),
        ).request matches RequestModel::Save(saved) && stores(vault, saved, name, password),
{
}

/// An edit saves, once confirmed, the new password exactly as it was
/// entered, under the chosen name, and leaves every other entry as it was;
/// declined, it saves nothing.
pub proof fn law_edit_saves_the_entered_password(
    vault: Map<Seq<char>, Seq<char>>,
    name: Seq<char>,
    password: Seq<char>,
)
    ensures
        ({
            let asked = spec_step(
                StageModel::AwaitingNewPassword { vault, name },
                EventModel::Entered(password),
            );
            let confirmed = spec_step(asked.stage, EventModel::Answered(true));
            let declined = spec_step(asked.stage, EventModel::Answered(false));
            &&& confirmed.request matches RequestModel::Save(saved) && stores(
                vault,
                saved,
                name,
                password,
            )
            &&& !(declined.request is Save)
        }),
        spec_step(
            StageModel::ConfirmingChange { vault, name, password },
            EventModel::Answered(true),
        ).request matches RequestModel::Save(saved) && stores(vault, saved, name, password),
{
}

/// Showing, removing or editing with a name given targets that very entry:
/// a show prints its password, a removal asks about it and, confirmed, saves
/// the vault without it, an edit asks for its new password.
pub proof fn law_named_session_targets_that_entry(
    vault: Map<Seq<char>, Seq<char>>,
    order: Seq<Seq<char>>,
    name: Seq<char>,
)
    requires
        vault.dom().finite(),
        vault.contains_key(name),
    ensures
        spec_step(
            StageModel::Loading { kind: Kind::Call, wanted: Some(name) },
            EventModel::Loaded(Some((vault, order))),
        ) == finish_with(seq![LineModel::Stdout(found_msg(name, vault[name]))]),
        ({
            let asked = spec_step(
                StageModel::Loading { kind: Kind::Remove, wanted: Some(name) },
                EventModel::Loaded(Some((vault, order))),
            );
            &&& asked.request == (RequestModel::Confirm {
                prompt: remove_prompt(name),
                default_yes: false,
            })
            &&& spec_step(asked.stage, EventModel::Answered(true)).request matches RequestModel::Save(
                saved,
            ) && !saved.contains_key(name) && forall|k: Seq<char>|
                k != name ==> (#[trigger] saved.contains_key(k) == vault.contains_key(k) && (
                vault.contains_key(k) ==> saved[k] == vault[k]))
        }),
        spec_step(
            StageModel::Loading { kind: Kind::Edit, wanted: Some(name) },
            EventModel::Loaded(Some((vault, order))),
        ).request == (RequestModel::AskText { prompt: edit_prompt(name) }),
{
    assert(vault.dom().contains(name));
    assert(vault.dom().len() != 0) by {
        if vault.dom().len() == 0 {
            vault.dom().lemma_len0_is_empty();
        }
    }
}

} // verus!
