use vstd::prelude::*;

verus! {

/// One thing that a provisioning step asks its host to do.
#[derive(Debug, PartialEq, Eq)]
pub enum Action {
    /// Run a shell command with its output forwarded; a non-zero exit status
    /// ends the whole run.
    Run(String),
    /// Print a progress line on standard output.
    Say(String),
    /// Write `contents` to the file at `path`, replacing what was there.
    WriteFile { path: String, contents: String },
}

/// The mathematical value of an [`Action`].
pub enum ActionModel {
    Run(Seq<char>),
    Say(Seq<char>),
    WriteFile { path: Seq<char>, contents: Seq<char> },
}

impl View for Action {
    type V = ActionModel;

    open spec fn view(&self) -> ActionModel {
        match self {
            Action::Run(c) => ActionModel::Run(c@),
            Action::Say(m) => ActionModel::Say(m@),
            Action::WriteFile { path, contents } => ActionModel::WriteFile {
                path: path@,
                contents: contents@,
            },
        }
    }
}

/// The model of a sequence of actions.
pub open spec fn plan_of(v: Seq<Action>) -> Seq<ActionModel> {
    v.map_values(|a: Action| a@)
}

/// An action that changes the machine: a command or a file write.
pub open spec fn is_effect(a: ActionModel) -> bool {
    !(a is Say)
}

/// A plan that only reports and leaves the machine as it was.
pub open spec fn only_reports(p: Seq<ActionModel>) -> bool {
    forall|i: int| 0 <= i < p.len() ==> !is_effect(#[trigger] p[i])
}

/// The commands of a plan, in order.
pub open spec fn commands_of(p: Seq<ActionModel>) -> Seq<Seq<char>>
    decreases p.len(),
{
    if p.len() == 0 {
        Seq::empty()
    } else {
        let rest = commands_of(p.drop_first());
        match p[0] {
            ActionModel::Run(c) => seq![c] + rest,
            _ => rest,
        }
    }
}

/// A command action built from a string literal.
pub fn run(cmd: &str) -> (r: Action)
    ensures
        r@ == ActionModel::Run(cmd@),
{
    Action::Run(String::from_str(cmd))
}

/// A progress line built from a string literal.
pub fn say(msg: &str) -> (r: Action)
    ensures
        r@ == ActionModel::Say(msg@),
{
    Action::Say(String::from_str(msg))
}

} // verus!
