use vstd::prelude::*;

use crate::action::{commands_of, only_reports, plan_of, run, say, Action, ActionModel};
use crate::paths::{join, joined};

verus! {

/// What the dotfiles bootstrap asks for before it can decide how to finish.
pub struct Bootstrap {
    /// Actions to perform first, in order.
    pub actions: Vec<Action>,
    /// A working-tree checkout to attempt afterwards, with its output captured;
    /// its exit status goes to [`finish_checkout`]. `None` when the bootstrap
    /// has nothing more to do.
    pub checkout: Option<String>,
}

pub open spec fn checkout_cmd() -> Seq<char> {
    "git --git-dir=$HOME/.cfg/ --work-tree=$HOME checkout"@
}

pub open spec fn remove_rc_cmd() -> Seq<char> {
    "rm $HOME/.zshrc"@
}

pub open spec fn hide_untracked_cmd() -> Seq<char> {
    "git --git-dir=$HOME/.cfg/ --work-tree=$HOME config --local status.showUntrackedFiles no"@
}

/// The command that clones the repository bare into `dir`.
pub open spec fn clone_cmd(repo_url: Seq<char>, dir: Seq<char>) -> Seq<char> {
    "git clone --bare "@ + repo_url + " "@ + dir
}

/// The first part of the bootstrap: skip when the checkout directory exists,
/// else ignore that directory in the home directory and clone into it.
pub open spec fn dotfiles_plan(home: Seq<char>, repo_url: Seq<char>, cfg_exists: bool) -> Seq<
    ActionModel,
> {
    if cfg_exists {
        seq![ActionModel::Say("Config already exists, skipping"@)]
    } else {
        seq![
            ActionModel::WriteFile { path: joined(home, ".gitignore"@), contents: ".cfg\n"@ },
            ActionModel::Run(clone_cmd(repo_url, joined(home, ".cfg"@))),
        ]
    }
}

/// The end of the bootstrap once the checkout has been attempted: on a
/// conflict remove the shell run-control file, and in every case hide
/// untracked files from the repository's status.
pub open spec fn checkout_plan(succeeded: bool) -> Seq<ActionModel> {
    let hide = ActionModel::Run(hide_untracked_cmd());
    if succeeded {
        seq![hide]
    } else {
        seq![
            ActionModel::Say("Conflict detected. Backing up clashing files."@),
            ActionModel::Run(remove_rc_cmd()),
            hide,
        ]
    }
}

/// Starts tracking the dotfiles repository against the home directory, from
/// a bare clone in `~/.cfg`; does nothing when that directory already exists.
pub fn load_dotfiles(home: &str, repo_url: &str, cfg_exists: bool) -> (r: Bootstrap)
    ensures
        plan_of(r.actions@) == dotfiles_plan(home@, repo_url@, cfg_exists),
        cfg_exists <==> r.checkout is None,
        r.checkout matches Some(c) ==> c@ == checkout_cmd(),
{
    if cfg_exists {
        let actions = vec![say("Config already exists, skipping")];
        assert(plan_of(actions@) =~= dotfiles_plan(home@, repo_url@, cfg_exists));
        Bootstrap { actions, checkout: None }
    } else {
        let cfg_dir = join(home, ".cfg");
        let mut clone = String::from_str("git clone --bare ");
        clone.append(repo_url);
        clone.append(" ");
        clone.append(cfg_dir.as_str());
        let ignore = Action::WriteFile {
            path: join(home, ".gitignore"),
            contents: String::from_str(".cfg\n"),
        };
        let actions = vec![ignore, Action::Run(clone)];
        assert(plan_of(actions@) =~= dotfiles_plan(home@, repo_url@, cfg_exists));
        Bootstrap {
            actions,
            checkout: Some(String::from_str("git --git-dir=$HOME/.cfg/ --work-tree=$HOME checkout")),
        }
    }
}

/// Finishes the bootstrap from the exit status of the checkout. A failed
/// checkout is taken as a clash with the shell run-control file, which is
/// removed; the checkout is not tried again.
pub fn finish_checkout(succeeded: bool) -> (r: Vec<Action>)
    ensures
        plan_of(r@) == checkout_plan(succeeded),
{
    let mut r: Vec<Action> = Vec::new();
    if !succeeded {
        r.push(say("Conflict detected. Backing up clashing files."));
        r.push(run("rm $HOME/.zshrc"));
    }
    r.push(run("git --git-dir=$HOME/.cfg/ --work-tree=$HOME config --local status.showUntrackedFiles no"));
    assert(plan_of(r@) =~= checkout_plan(succeeded));
    r
}

/// When the checkout directory already exists the bootstrap only reports:
/// it clones nothing, checks nothing out and writes no ignore file.
pub proof fn lemma_existing_checkout_left_alone(home: Seq<char>, repo_url: Seq<char>)
    ensures
        only_reports(dotfiles_plan(home, repo_url, true)),
        commands_of(dotfiles_plan(home, repo_url, true)) == Seq::<Seq<char>>::empty(),
{
    reveal_with_fuel(commands_of, 2);
}

/// After a failed checkout the remediation removes the shell run-control file
/// and nothing else, and the bootstrap goes on to its last command without
/// attempting the checkout again.
pub proof fn lemma_conflict_removes_only_rc_file()
    ensures
        commands_of(checkout_plan(false)) == seq![remove_rc_cmd(), hide_untracked_cmd()],
        commands_of(checkout_plan(true)) == seq![hide_untracked_cmd()],
{
    reveal_with_fuel(commands_of, 4);
    assert(checkout_plan(false).drop_first() =~= seq![
        ActionModel::Run(remove_rc_cmd()),
        ActionModel::Run(hide_untracked_cmd()),
    ]);
    assert(checkout_plan(false).drop_first().drop_first() =~= seq![
        ActionModel::Run(hide_untracked_cmd()),
    ]);
    assert(checkout_plan(false).drop_first().drop_first().drop_first() =~= Seq::<ActionModel>::empty());
    assert(checkout_plan(true).drop_first() =~= Seq::<ActionModel>::empty());
}

} // verus!
