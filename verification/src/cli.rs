//! What the command line asks for, and what is done about it.
use vstd::prelude::*;
use crate::paths::opt_view;
use crate::session::Kind;

verus! {

/// A command given on the command line.
pub enum Command {
    /// Create the key, the directories and the vault.
    Setup,
    /// Add a new password entry.
    Add { name: String },
    /// Show a password (chosen interactively when no name is given).
    Call { name: Option<String> },
    /// Remove a password entry (chosen interactively when no name is given).
    Remove { name: Option<String> },
    /// Change a password (chosen interactively when no name is given).
    Edit { name: Option<String> },
    /// Show the two-factor enrolment QR code.
    TwoFactor,
}

/// What a run of the program does.
pub enum PlanModel {
    /// Setup has not been done: do it, and stop.
    AutoSetup,
    /// Do setup, as asked.
    Setup,
    /// Run a session of this kind, for this entry.
    Session { kind: Kind, name: Option<Seq<char>> },
    /// Show the two-factor enrolment screen.
    TwoFactor,
}

/// What a run of the program does.
pub enum Plan {
    /// Setup has not been done: do it, and stop.
    AutoSetup,
    /// Do setup, as asked.
    Setup,
    /// Run a session of this kind, for this entry.
    Session { kind: Kind, name: Option<String> },
    /// Show the two-factor enrolment screen.
    TwoFactor,
}

impl View for Plan {
    type V = PlanModel;

    open spec fn view(&self) -> PlanModel {
        match self {
            Plan::AutoSetup => PlanModel::AutoSetup,
            Plan::Setup => PlanModel::Setup,
            Plan::Session { kind, name } => PlanModel::Session { kind: *kind, name: opt_view(name) },
            Plan::TwoFactor => PlanModel::TwoFactor,
        }
    }
}

/// What a run does, given whether setup is complete, the command given, and
/// the name given without a command. Until setup is complete every command
/// but `setup` runs setup instead; without a command, the name is shown as
/// `call` would.
pub open spec fn plan_spec(setup_complete: bool, command: Option<Command>, name: Option<String>) -> PlanModel {
    match command {
        Some(Command::Setup) => PlanModel::Setup,
        _ => if !setup_complete {
            PlanModel::AutoSetup
        } else {
            match command {
                None => PlanModel::Session { kind: Kind::Call, name: opt_view(&name) },
                Some(Command::Add { name: n }) => PlanModel::Session {
                    kind: Kind::Add,
                    name: Some(n@),
                },
                Some(Command::Call { name: n }) => PlanModel::Session {
                    kind: Kind::Call,
                    name: opt_view(&n),
                },
                Some(Command::Remove { name: n }) => PlanModel::Session {
                    kind: Kind::Remove,
                    name: opt_view(&n),
                },
                Some(Command::Edit { name: n }) => PlanModel::Session {
                    kind: Kind::Edit,
                    name: opt_view(&n),
                },
                Some(Command::TwoFactor) => PlanModel::TwoFactor,
                Some(Command::Setup) => PlanModel::Setup,
            }
        },
    }
}

/// What a run does.
pub fn plan(setup_complete: bool, command: Option<Command>, name: Option<String>) -> (r: Plan)
    ensures
        r@ == plan_spec(setup_complete, command, name),
        r matches Plan::Session { kind, name } ==> (kind == Kind::Add ==> name is Some),
{
    match command {
        Some(Command::Setup) => Plan::Setup,
        _ => {
            if !setup_complete {
                Plan::AutoSetup
            } else {
                match command {
                    None => Plan::Session { kind: Kind::Call, name },
                    Some(Command::Add { name: n }) => Plan::Session { kind: Kind::Add, name: Some(n) },
                    Some(Command::Call { name: n }) => Plan::Session { kind: Kind::Call, name: n },
                    Some(Command::Remove { name: n }) => Plan::Session { kind: Kind::Remove, name: n },
                    Some(Command::Edit { name: n }) => Plan::Session { kind: Kind::Edit, name: n },
                    Some(Command::TwoFactor) => Plan::TwoFactor,
                    Some(Command::Setup) => Plan::Setup,
                }
            }
        },
    }
}


/// Once setup is complete, a command names its own entry: `add NAME`,
/// `call [NAME]`, `remove [NAME]` and `edit [NAME]` run a session of their
/// kind for exactly the name given to the command (or for none, letting the
/// user choose), whatever name stands on the command line outside it; with no
/// command at all, the outside name is the one shown.
pub proof fn law_command_names_its_entry(given: Option<String>, outside: Option<String>, add_name: String)
    ensures
        plan_spec(true, Some(Command::Call { name: given }), outside) == (PlanModel::Session {
            kind: Kind::Call,
            name: opt_view(&given),
        }),
        plan_spec(true, Some(Command::Remove { name: given }), outside) == (PlanModel::Session {
            kind: Kind::Remove,
            name: opt_view(&given),
        }),
        plan_spec(true, Some(Command::Edit { name: given }), outside) == (PlanModel::Session {
            kind: Kind::Edit,
            name: opt_view(&given),
        }),
        plan_spec(true, Some(Command::Add { name: add_name }), outside) == (PlanModel::Session {
            kind: Kind::Add,
            name: Some(add_name@),
        }),
        plan_spec(true, None, outside) == (PlanModel::Session {
            kind: Kind::Call,
            name: opt_view(&outside),
        }),
{
}

} // verus!
