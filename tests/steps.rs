use bootstrap::{
    detect_platform, install_brew, install_dependencies, install_nerdfont, install_node,
    install_ohmyzsh, install_pyenv, install_starship, run_order, start, Action, Platform,
    ProvisionError, Step,
};

fn run(c: &str) -> Action {
    Action::Run(c.to_string())
}

fn say(m: &str) -> Action {
    Action::Say(m.to_string())
}

fn commands(plan: &[Action]) -> Vec<String> {
    plan.iter()
        .filter_map(|a| match a {
            Action::Run(c) => Some(c.clone()),
            _ => None,
        })
        .collect()
}

#[test]
fn platform_names_are_classified() {
    assert_eq!(detect_platform("linux"), Platform::Linux);
    assert_eq!(detect_platform("macos"), Platform::Macos);
    assert_eq!(detect_platform("windows"), Platform::Unsupported);
    assert_eq!(detect_platform(""), Platform::Unsupported);
    assert_eq!(detect_platform("Linux"), Platform::Unsupported);
}

#[test]
fn unsupported_platform_stops_before_any_step() {
    for os in ["windows", "freebsd", "ios", "android", ""] {
        let e = start(os).unwrap_err();
        assert_eq!(e, ProvisionError::UnsupportedPlatform);
        assert_eq!(e.exit_code(), 1);
        assert_eq!(e.message(), "Unsupported OS!!!");
    }
    assert_eq!(start("linux"), Ok(Platform::Linux));
    assert_eq!(start("macos"), Ok(Platform::Macos));
}

#[test]
fn dependencies_refuse_unsupported_platform() {
    assert_eq!(
        install_dependencies(Platform::Unsupported),
        Err(ProvisionError::UnsupportedPlatform)
    );
}

#[test]
fn dependencies_on_linux() {
    let plan = install_dependencies(Platform::Linux).unwrap();
    assert_eq!(
        plan,
        vec![
            run("sudo apt update"),
            run("sudo apt install -y git zsh tmux alacritty rbenv"),
            run("brew install neovim"),
            run("chsh -s $(which zsh)"),
        ]
    );
}

#[test]
fn dependencies_on_macos() {
    let plan = install_dependencies(Platform::Macos).unwrap();
    assert_eq!(
        plan,
        vec![run("brew install git zsh neovim tmux rbenv"), run("chsh -s $(which zsh)")]
    );
}

#[test]
fn brew_is_installed_only_when_missing() {
    let plan = install_brew();
    assert_eq!(plan.len(), 1);
    let cmds = commands(&plan);
    assert!(cmds[0].starts_with("which brew || "));
    assert!(cmds[0].contains("Homebrew/install/HEAD/install.sh"));
}

#[test]
fn ohmyzsh_is_guarded_by_its_variable() {
    assert_eq!(install_ohmyzsh(true), vec![say("OhMyZSH already installed!!")]);
    let cmds = commands(&install_ohmyzsh(false));
    assert_eq!(cmds.len(), 1);
    assert!(cmds[0].contains("ohmyzsh/master/tools/install.sh"));
}

#[test]
fn pyenv_is_guarded_by_its_directory() {
    assert_eq!(install_pyenv(true), vec![say("pyenv already installed :D")]);
    assert_eq!(install_pyenv(false), vec![run("curl https://pyenv.run | bash")]);
}

#[test]
fn guarded_steps_act_once_over_two_runs() {
    let first = commands(&install_pyenv(false));
    let second = commands(&install_pyenv(true));
    assert_eq!(first.len() + second.len(), 1);
    let first = commands(&install_ohmyzsh(false));
    let second = commands(&install_ohmyzsh(true));
    assert_eq!(first.len() + second.len(), 1);
}

#[test]
fn font_prompt_and_node_commands() {
    assert_eq!(install_nerdfont(), vec![run("brew install --cask font-fira-code-nerd-font")]);
    assert_eq!(
        install_starship(),
        vec![
            run("brew install starship"),
            run("git clone https://github.com/jeffreytse/zsh-vi-mode $ZSH_CUSTOM/plugins/zsh-vi-mode"),
        ]
    );
    let node = commands(&install_node());
    assert_eq!(node.len(), 2);
    assert!(node[0].contains("nvm-sh/nvm/v0.40.3/install.sh"));
    assert!(node[1].ends_with("nvm install --lts && nvm use --lts"));
}

#[test]
fn steps_run_in_catalog_order() {
    assert_eq!(
        run_order(),
        vec![
            Step::Brew,
            Step::Dependencies,
            Step::OhMyZsh,
            Step::Pyenv,
            Step::NerdFont,
            Step::Starship,
            Step::Dotfiles,
            Step::SshKey,
            Step::Node,
        ]
    );
}
