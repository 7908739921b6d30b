use vstd::prelude::*;

use crate::action::{commands_of, plan_of, run, say, Action, ActionModel};
use crate::paths::{join, joined};

verus! {

pub open spec fn key_path(home: Seq<char>) -> Seq<char> {
    joined(joined(home, ".ssh"@), "id_ed25519_github"@)
}

pub open spec fn public_key_path(home: Seq<char>) -> Seq<char> {
    joined(joined(home, ".ssh"@), "id_ed25519_github.pub"@)
}

/// The command that makes a key pair at `path` without a passphrase, with
/// `email` as the key's comment.
pub open spec fn keygen_cmd(email: Seq<char>, path: Seq<char>) -> Seq<char> {
    "ssh-keygen -t ed25519 -C \""@ + email + "\" -f "@ + path + " -N \"\""@
}

/// The SSH identity step: make `~/.ssh` when it is missing, make the key pair
/// unless it exists, then always print the public key.
pub open spec fn ssh_plan(home: Seq<char>, ssh_dir_exists: bool, key_exists: bool, email: Seq<
    char,
>) -> Seq<ActionModel> {
    let mkdir: Seq<ActionModel> = if ssh_dir_exists {
        seq![]
    } else {
        seq![ActionModel::Run("mkdir -p $HOME/.ssh"@)]
    };
    let key: ActionModel = if key_exists {
        ActionModel::Say("SSH key already exists at "@ + key_path(home))
    } else {
        ActionModel::Run(keygen_cmd(email, key_path(home)))
    };
    mkdir + seq![
        key,
        ActionModel::Say("GitHub SSH public key:"@),
        ActionModel::Run("cat "@ + public_key_path(home)),
    ]
}

/// Whether the step needs the configured git identity: only to make a new key.
pub fn needs_identity(key_exists: bool) -> (r: bool)
    ensures
        r == !key_exists,
{
    !key_exists
}

/// Provisions the SSH key pair `~/.ssh/id_ed25519_github`. `email` is the
/// configured git identity, possibly empty; it is read only when the key is
/// made.
pub fn generate_ssh_key(home: &str, ssh_dir_exists: bool, key_exists: bool, email: &str) -> (r:
    Vec<Action>)
    ensures
        plan_of(r@) == ssh_plan(home@, ssh_dir_exists, key_exists, email@),
{
    let ssh_dir = join(home, ".ssh");
    let mut r: Vec<Action> = Vec::new();
    if !ssh_dir_exists {
        r.push(run("mkdir -p $HOME/.ssh"));
    }
    let key = join(ssh_dir.as_str(), "id_ed25519_github");
    if key_exists {
        let mut msg = String::from_str("SSH key already exists at ");
        msg.append(key.as_str());
        r.push(Action::Say(msg));
    } else {
        let mut cmd = String::from_str("ssh-keygen -t ed25519 -C \"");
        cmd.append(email);
        cmd.append("\" -f ");
        cmd.append(key.as_str());
        cmd.append(" -N \"\"");
        r.push(Action::Run(cmd));
    }
    r.push(say("GitHub SSH public key:"));
    let public_key = join(ssh_dir.as_str(), "id_ed25519_github.pub");
    let mut show = String::from_str("cat ");
    show.append(public_key.as_str());
    r.push(Action::Run(show));
    assert(plan_of(r@) =~= ssh_plan(home@, ssh_dir_exists, key_exists, email@));
    r
}

/// With the key pair already present no key is made: the only commands are
/// the creation of a missing `~/.ssh` and the printing of the public key,
/// which still happens.
pub proof fn lemma_existing_key_kept(home: Seq<char>, ssh_dir_exists: bool, email: Seq<char>)
    ensures
        commands_of(ssh_plan(home, ssh_dir_exists, true, email)) == (if ssh_dir_exists {
            seq!["cat "@ + public_key_path(home)]
        } else {
            seq!["mkdir -p $HOME/.ssh"@, "cat "@ + public_key_path(home)]
        }),
        ssh_plan(home, ssh_dir_exists, true, email).last() == ActionModel::Run(
            "cat "@ + public_key_path(home),
        ),
{
    reveal_with_fuel(commands_of, 5);
    let p = ssh_plan(home, ssh_dir_exists, true, email);
    let tail = seq![
        ActionModel::Say("SSH key already exists at "@ + key_path(home)),
        ActionModel::Say("GitHub SSH public key:"@),
        ActionModel::Run("cat "@ + public_key_path(home)),
    ];
    assert(tail.drop_first().drop_first().drop_first() =~= Seq::<ActionModel>::empty());
    assert(commands_of(tail) == seq!["cat "@ + public_key_path(home)]) by {
        assert(tail.drop_first().drop_first() =~= seq![ActionModel::Run("cat "@ + public_key_path(home))]);
        assert(commands_of(tail.drop_first().drop_first()) =~= seq!["cat "@ + public_key_path(home)]);
        assert(tail.drop_first() =~= seq![
            ActionModel::Say("GitHub SSH public key:"@),
            ActionModel::Run("cat "@ + public_key_path(home)),
        ]);
    }
    if !ssh_dir_exists {
        assert(p.drop_first() =~= tail);
        assert(commands_of(p) =~= seq!["mkdir -p $HOME/.ssh"@] + seq!["cat "@ + public_key_path(home)]);
    } else {
        assert(p =~= tail);
    }
}

} // verus!
