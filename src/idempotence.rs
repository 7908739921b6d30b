use vstd::prelude::*;

use crate::action::{commands_of, only_reports};
use crate::catalog::{ohmyzsh_install_cmd, ohmyzsh_plan, pyenv_install_cmd, pyenv_plan};
use crate::dotfiles::{clone_cmd, dotfiles_plan, lemma_existing_checkout_left_alone};
use crate::paths::joined;
use crate::ssh::{lemma_existing_key_kept, public_key_path, ssh_plan};

verus! {

/// A guarded step run twice in a row, where the first run's action has made
/// the guarded thing present, performs that action once in all, and the
/// second run only reports (the SSH step still prints the public key).
/// Steps without a guard of their own are left out: each run of them issues
/// their commands again.
pub proof fn lemma_guarded_steps_act_once(home: Seq<char>, repo_url: Seq<char>, email: Seq<char>)
    ensures
        commands_of(ohmyzsh_plan(false)) + commands_of(ohmyzsh_plan(true)) == seq![
            ohmyzsh_install_cmd(),
        ],
        only_reports(ohmyzsh_plan(true)),
        commands_of(pyenv_plan(false)) + commands_of(pyenv_plan(true)) == seq![pyenv_install_cmd()],
        only_reports(pyenv_plan(true)),
        commands_of(dotfiles_plan(home, repo_url, false)) + commands_of(
            dotfiles_plan(home, repo_url, true),
        ) == seq![clone_cmd(repo_url, joined(home, ".cfg"@))],
        only_reports(dotfiles_plan(home, repo_url, true)),
        commands_of(ssh_plan(home, true, true, email)) == seq!["cat "@ + public_key_path(home)],
{
    reveal_with_fuel(commands_of, 3);
    lemma_existing_checkout_left_alone(home, repo_url);
    lemma_existing_key_kept(home, true, email);
    let d = dotfiles_plan(home, repo_url, false);
    assert(d.drop_first().drop_first() =~= Seq::<crate::action::ActionModel>::empty());
    assert(commands_of(d) =~= seq![clone_cmd(repo_url, joined(home, ".cfg"@))]);
    assert(commands_of(ohmyzsh_plan(false)) + commands_of(ohmyzsh_plan(true)) =~= seq![
        ohmyzsh_install_cmd(),
    ]);
    assert(commands_of(pyenv_plan(false)) + commands_of(pyenv_plan(true)) =~= seq![
        pyenv_install_cmd(),
    ]);
    assert(commands_of(d) + commands_of(dotfiles_plan(home, repo_url, true)) =~= seq![
        clone_cmd(repo_url, joined(home, ".cfg"@)),
    ]);
}

} // verus!
