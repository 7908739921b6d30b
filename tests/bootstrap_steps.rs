use bootstrap::paths::join;
use bootstrap::{finish_checkout, generate_ssh_key, load_dotfiles, needs_identity, Action};

fn run(c: &str) -> Action {
    Action::Run(c.to_string())
}

fn say(m: &str) -> Action {
    Action::Say(m.to_string())
}

const URL: &str = "https://github.com/Skyward176/.dotfiles";

#[test]
fn join_puts_one_separator() {
    assert_eq!(join("/home/u", ".cfg"), "/home/u/.cfg");
    assert_eq!(join("/home/u/", ".cfg"), "/home/u/.cfg");
    assert_eq!(join("", ".cfg"), ".cfg");
    assert_eq!(join("/", "x"), "/x");
}

#[test]
fn dotfiles_fresh_clone() {
    let b = load_dotfiles("/home/u", URL, false);
    assert_eq!(
        b.actions,
        vec![
            Action::WriteFile {
                path: "/home/u/.gitignore".to_string(),
                contents: ".cfg\n".to_string(),
            },
            run("git clone --bare https://github.com/Skyward176/.dotfiles /home/u/.cfg"),
        ]
    );
    assert_eq!(
        b.checkout.as_deref(),
        Some("git --git-dir=$HOME/.cfg/ --work-tree=$HOME checkout")
    );
}

#[test]
fn dotfiles_existing_checkout_is_skipped() {
    let b = load_dotfiles("/home/u", URL, true);
    assert_eq!(b.actions, vec![say("Config already exists, skipping")]);
    assert_eq!(b.checkout, None);
}

#[test]
fn checkout_conflict_removes_only_the_rc_file() {
    let plan = finish_checkout(false);
    assert_eq!(
        plan,
        vec![
            say("Conflict detected. Backing up clashing files."),
            run("rm $HOME/.zshrc"),
            run("git --git-dir=$HOME/.cfg/ --work-tree=$HOME config --local status.showUntrackedFiles no"),
        ]
    );
    let removals = plan
        .iter()
        .filter(|a| matches!(a, Action::Run(c) if c.starts_with("rm ")))
        .count();
    assert_eq!(removals, 1);
    assert!(!plan.iter().any(|a| matches!(a, Action::Run(c) if c.ends_with(" checkout"))));
}

#[test]
fn checkout_success_only_hides_untracked() {
    assert_eq!(
        finish_checkout(true),
        vec![run("git --git-dir=$HOME/.cfg/ --work-tree=$HOME config --local status.showUntrackedFiles no")]
    );
}

#[test]
fn ssh_existing_key_is_kept_and_printed() {
    assert!(!needs_identity(true));
    let plan = generate_ssh_key("/home/u", true, true, "");
    assert_eq!(
        plan,
        vec![
            say("SSH key already exists at /home/u/.ssh/id_ed25519_github"),
            say("GitHub SSH public key:"),
            run("cat /home/u/.ssh/id_ed25519_github.pub"),
        ]
    );
    assert!(!plan.iter().any(|a| matches!(a, Action::Run(c) if c.starts_with("ssh-keygen"))));
}

#[test]
fn ssh_missing_directory_is_made() {
    let plan = generate_ssh_key("/home/u", false, true, "");
    assert_eq!(plan[0], run("mkdir -p $HOME/.ssh"));
    assert_eq!(plan.len(), 4);
}

#[test]
fn ssh_new_key_carries_identity_email() {
    assert!(needs_identity(false));
    let plan = generate_ssh_key("/home/u", true, false, "a@b.com");
    assert_eq!(
        plan,
        vec![
            run("ssh-keygen -t ed25519 -C \"a@b.com\" -f /home/u/.ssh/id_ed25519_github -N \"\""),
            say("GitHub SSH public key:"),
            run("cat /home/u/.ssh/id_ed25519_github.pub"),
        ]
    );
    let Action::Run(cmd) = &plan[0] else { panic!("expected a command") };
    let comment = cmd.split("-C \"").nth(1).unwrap().split('"').next().unwrap();
    assert_eq!(comment, "a@b.com");
}

#[test]
fn ssh_missing_identity_gives_empty_comment() {
    let plan = generate_ssh_key("/home/u", true, false, "");
    assert_eq!(
        plan[0],
        run("ssh-keygen -t ed25519 -C \"\" -f /home/u/.ssh/id_ed25519_github -N \"\"")
    );
}
