//! What running an outside command (git, docker, a shell) gave, as plain
//! values that the decisions of the library take.
use vstd::prelude::*;

verus! {

/// What running an outside command gave.
#[derive(Debug, Clone)]
pub enum CommandOutcome {
    /// It could not be started; why.
    NotRun(String),
    /// It ran: whether it exited successfully, and what it printed (as text).
    Ran { success: bool, stdout: String, stderr: String },
}

/// Model of a command outcome.
pub enum OutcomeView {
    NotRun(Seq<char>),
    Ran { success: bool, stdout: Seq<char>, stderr: Seq<char> },
}

impl View for CommandOutcome {
    type V = OutcomeView;

    open spec fn view(&self) -> OutcomeView {
        match self {
            CommandOutcome::NotRun(e) => OutcomeView::NotRun(e@),
            CommandOutcome::Ran { success, stdout, stderr } => OutcomeView::Ran {
                success: *success,
                stdout: stdout@,
                stderr: stderr@,
            },
        }
    }
}

/// The view of a result with no value and a text error.
pub open spec fn unit_view(r: Result<(), String>) -> Result<(), Seq<char>> {
    match r {
        Ok(_) => Ok(()),
        Err(e) => Err(e@),
    }
}

} // verus!
