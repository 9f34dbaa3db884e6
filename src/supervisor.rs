//! The process supervisor's decisions, and the command lines it and the
//! build run.
use vstd::prelude::*;

verus! {

/// The supervised child's lifecycle.
#[derive(Clone, Copy, Debug, PartialEq, Eq, Structural)]
pub enum ChildState {
    NotStarted,
    Running,
    /// A termination was requested; the child is being waited for.
    Restarting,
}

/// What the supervisor is told.
#[derive(Clone, Copy, Debug, PartialEq, Eq, Structural)]
pub enum SupervisorInput {
    /// Run mode began.
    Start,
    /// A rebuild succeeded: restart the child.
    Restart,
    /// The terminated child has fully exited and been reaped.
    Reaped,
}

/// What the supervisor's driver does.
#[derive(Clone, Copy, Debug, PartialEq, Eq, Structural)]
pub enum ChildAction {
    /// Spawn a new instance of the run command.
    Spawn,
    /// Request termination of the child and wait until it has exited.
    TerminateAndWait,
    /// Nothing.
    Idle,
}

/// The next state and action of the supervisor. A new child is spawned only
/// at the start or once the previous one has been reaped, so that at most one
/// child runs at a time.
pub open spec fn supervisor_next(state: ChildState, input: SupervisorInput) -> (ChildState, ChildAction) {
    match (state, input) {
        (ChildState::NotStarted, SupervisorInput::Start) => (ChildState::Running, ChildAction::Spawn),
        (ChildState::Running, SupervisorInput::Restart) => (
            ChildState::Restarting,
            ChildAction::TerminateAndWait,
        ),
        (ChildState::Restarting, SupervisorInput::Reaped) => (ChildState::Running, ChildAction::Spawn),
        _ => (state, ChildAction::Idle),
    }
}

/// The supervisor of one long-lived child process.
pub struct Supervisor {
    pub state: ChildState,
}

impl Supervisor {
    /// A supervisor whose child has not been started.
    pub fn new() -> (r: Supervisor)
        ensures
            r.state == ChildState::NotStarted,
    {
        Supervisor { state: ChildState::NotStarted }
    }

    /// Moves to the next state on `input` and says what to do.
    pub fn handle(&mut self, input: SupervisorInput) -> (action: ChildAction)
        ensures
            (final(self).state, action) == supervisor_next(old(self).state, input),
    {
        let (next, action) = match (self.state, input) {
            (ChildState::NotStarted, SupervisorInput::Start) => (ChildState::Running, ChildAction::Spawn),
            (ChildState::Running, SupervisorInput::Restart) => (
                ChildState::Restarting,
                ChildAction::TerminateAndWait,
            ),
            (ChildState::Restarting, SupervisorInput::Reaped) => (ChildState::Running, ChildAction::Spawn),
            _ => (self.state, ChildAction::Idle),
        };
        self.state = next;
        action
    }
}

/// A program and the arguments to start it with.
pub struct Invocation {
    pub program: String,
    pub args: Vec<String>,
}

/// The views of a sequence of strings.
pub open spec fn texts(s: Seq<String>) -> Seq<Seq<char>> {
    s.map_values(|x: String| x@)
}

/// The arguments that ask the build tool for line-delimited structured output.
pub open spec fn structured_output_args() -> Seq<Seq<char>> {
    seq!["--message-format"@, "json"@]
}

/// Splits a configured command line into its program and arguments; `None`
/// for an empty command line, which names no program.
pub fn invocation(cmd: &Vec<String>) -> (r: Option<Invocation>)
    ensures
        match r {
            Some(inv) => cmd@.len() > 0 && inv.program@ == cmd@[0]@ && texts(inv.args@) == texts(
                cmd@.subrange(1, cmd@.len() as int),
            ),
            None => cmd@.len() == 0,
        },
{
    if cmd.len() == 0 {
        return None;
    }
    let mut args: Vec<String> = Vec::new();
    let mut i: usize = 1;
    while i < cmd.len()
        invariant
            1 <= i <= cmd@.len(),
            args@.len() == i - 1,
            forall|j: int| 0 <= j < i - 1 ==> (#[trigger] args@[j])@ == cmd@[j + 1]@,
        decreases cmd@.len() - i,
    {
        args.push(cmd[i].clone());
        i = i + 1;
    }
    assert(texts(args@) =~= texts(cmd@.subrange(1, cmd@.len() as int)));
    Some(Invocation { program: cmd[0].clone(), args })
}

/// The build command line, with the arguments for structured output
/// appended; `None` for an empty command line.
pub fn build_invocation(cmd: &Vec<String>) -> (r: Option<Invocation>)
    ensures
        match r {
            Some(inv) => cmd@.len() > 0 && inv.program@ == cmd@[0]@ && texts(inv.args@) == texts(
                cmd@.subrange(1, cmd@.len() as int),
            ) + structured_output_args(),
            None => cmd@.len() == 0,
        },
{
    match invocation(cmd) {
        None => None,
        Some(inv) => {
            let mut args = inv.args;
            let ghost before = args@;
            args.push("--message-format".to_owned());
            args.push("json".to_owned());
            assert(texts(args@) =~= texts(before) + structured_output_args());
            Some(Invocation { program: inv.program, args })
        },
    }
}

} // verus!
