use vstd::prelude::*;

verus! {

/// What the host does after a command has exited.
#[derive(Debug, PartialEq, Eq)]
pub enum Verdict {
    /// Go on with the next action.
    Continue,
    /// Print `message` on standard error and exit with `code`.
    Abort { message: String, code: i32 },
}

/// The progress line printed before a command runs.
pub fn announce(cmd: &str) -> (r: String)
    ensures
        r@ == "Running "@ + cmd@,
{
    let mut r = String::from_str("Running ");
    r.append(cmd);
    r
}

/// The state of a run as the executor sees it: how many commands have been
/// started, and the exit status once the run has ended.
pub struct Session {
    commands_run: usize,
    exit: Option<i32>,
}

pub struct SessionModel {
    pub commands_run: nat,
    pub exit: Option<int>,
}

impl View for Session {
    type V = SessionModel;

    closed spec fn view(&self) -> SessionModel {
        SessionModel {
            commands_run: self.commands_run as nat,
            exit: match self.exit {
                Some(c) => Some(c as int),
                None => None,
            },
        }
    }
}

/// The session before any command.
pub open spec fn initial() -> SessionModel {
    SessionModel { commands_run: 0, exit: None }
}

/// The session once a command has exited with the given success.
pub open spec fn after(s: SessionModel, success: bool) -> SessionModel {
    SessionModel {
        commands_run: s.commands_run + 1,
        exit: if success {
            None
        } else {
            Some(1)
        },
    }
}

/// The session after commands exit in turn with `statuses`, where a run that
/// has ended starts no further command.
pub open spec fn replay(s: SessionModel, statuses: Seq<bool>) -> SessionModel
    decreases statuses.len(),
{
    if statuses.len() == 0 || s.exit is Some {
        s
    } else {
        replay(after(s, statuses[0]), statuses.drop_first())
    }
}

proof fn lemma_replay_from(s: SessionModel, statuses: Seq<bool>, k: int)
    requires
        s.exit is None,
        0 <= k < statuses.len(),
        !statuses[k],
        forall|i: int| 0 <= i < k ==> statuses[i],
    ensures
        replay(s, statuses) == (SessionModel { commands_run: (s.commands_run + k + 1) as nat, exit: Some(1) }),
    decreases k,
{
    if k > 0 {
        let rest = statuses.drop_first();
        assert forall|i: int| 0 <= i < k - 1 implies rest[i] by {
            assert(statuses[i + 1]);
        }
        lemma_replay_from(after(s, statuses[0]), rest, k - 1);
    } else {
        assert(replay(after(s, statuses[0]), statuses.drop_first()) == after(s, statuses[0]));
    }
}

proof fn lemma_replay_all_succeed(s: SessionModel, statuses: Seq<bool>)
    requires
        s.exit is None,
        forall|i: int| 0 <= i < statuses.len() ==> statuses[i],
    ensures
        replay(s, statuses) == (SessionModel {
            commands_run: s.commands_run + statuses.len(),
            exit: None,
        }),
    decreases statuses.len(),
{
    if statuses.len() > 0 {
        let rest = statuses.drop_first();
        assert forall|i: int| 0 <= i < rest.len() implies rest[i] by {
            assert(statuses[i + 1]);
        }
        lemma_replay_all_succeed(after(s, statuses[0]), rest);
    }
}

/// A run ends at its first failing command: the commands up to and including
/// that one are started, none after it, and the run exits with status 1.
pub proof fn lemma_first_failure_ends_run(statuses: Seq<bool>, k: int)
    requires
        0 <= k < statuses.len(),
        !statuses[k],
        forall|i: int| 0 <= i < k ==> statuses[i],
    ensures
        replay(initial(), statuses) == (SessionModel { commands_run: (k + 1) as nat, exit: Some(1) }),
{
    lemma_replay_from(initial(), statuses, k);
}

/// A run whose commands all succeed starts every one of them and has not
/// ended, so it exits with status 0.
pub proof fn lemma_success_runs_every_command(statuses: Seq<bool>)
    requires
        forall|i: int| 0 <= i < statuses.len() ==> statuses[i],
    ensures
        replay(initial(), statuses) == (SessionModel { commands_run: statuses.len(), exit: None }),
{
    lemma_replay_all_succeed(initial(), statuses);
}

impl Session {
    pub fn new() -> (r: Session)
        ensures
            r@ == initial(),
    {
        Session { commands_run: 0, exit: None }
    }

    /// Whether the run has ended.
    pub fn has_ended(&self) -> (r: bool)
        ensures
            r == self@.exit is Some,
    {
        self.exit.is_some()
    }

    /// The number of commands started so far.
    pub fn commands_run(&self) -> (r: usize)
        ensures
            r == self@.commands_run,
    {
        self.commands_run
    }

    /// The exit status of the whole run so far: 0 while every command has
    /// succeeded, else that of the failure.
    pub fn exit_code(&self) -> (r: i32)
        ensures
            r == match self@.exit {
                Some(c) => c,
                None => 0,
            },
    {
        match self.exit {
            Some(c) => c,
            None => 0,
        }
    }

    /// Records that `cmd` exited; a failure ends the run with status 1 and a
    /// diagnostic that names the command.
    pub fn record(&mut self, cmd: &str, success: bool) -> (r: Verdict)
        requires
            old(self)@.exit is None,
            old(self)@.commands_run < usize::MAX,
        ensures
            final(self)@ == after(old(self)@, success),
            success ==> r is Continue,
            !success ==> (r matches Verdict::Abort { message, code } && message@ == "Command failed: "@
                + cmd@ && code == 1),
    {
        self.commands_run = self.commands_run + 1;
        if success {
            Verdict::Continue
        } else {
            self.exit = Some(1);
            let mut message = String::from_str("Command failed: ");
            message.append(cmd);
            Verdict::Abort { message, code: 1 }
        }
    }
}

} // verus!
