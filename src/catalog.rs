use vstd::prelude::*;

use crate::action::{plan_of, run, say, Action, ActionModel};
use crate::platform::{Platform, ProvisionError};

verus! {

/// The provisioning steps of a run.
#[derive(Clone, Copy, Debug, PartialEq, Eq, Structural)]
pub enum Step {
    Brew,
    Dependencies,
    OhMyZsh,
    Pyenv,
    NerdFont,
    Starship,
    Dotfiles,
    SshKey,
    Node,
}

/// The steps of a run in the order they are performed, each once.
pub fn run_order() -> (r: Vec<Step>)
    ensures
        r@ == seq![
            Step::Brew,
            Step::Dependencies,
            Step::OhMyZsh,
            Step::Pyenv,
            Step::NerdFont,
            Step::Starship,
            Step::Dotfiles,
            Step::SshKey,
            Step::Node,
        ],
{
    let r = vec![
        Step::Brew,
        Step::Dependencies,
        Step::OhMyZsh,
        Step::Pyenv,
        Step::NerdFont,
        Step::Starship,
        Step::Dotfiles,
        Step::SshKey,
        Step::Node,
    ];
    assert(r@ =~= seq![
        Step::Brew,
        Step::Dependencies,
        Step::OhMyZsh,
        Step::Pyenv,
        Step::NerdFont,
        Step::Starship,
        Step::Dotfiles,
        Step::SshKey,
        Step::Node,
    ]);
    r
}

pub open spec fn brew_install_cmd() -> Seq<char> {
    "which brew || sh -c \"$(curl -fsSL https://raw.githubusercontent.com/Homebrew/install/HEAD/install.sh)\""@
}

pub open spec fn ohmyzsh_install_cmd() -> Seq<char> {
    "sh -c \"$(curl -fsSL https://raw.githubusercontent.com/ohmyzsh/ohmyzsh/master/tools/install.sh)\""@
}

pub open spec fn pyenv_install_cmd() -> Seq<char> {
    "curl https://pyenv.run | bash"@
}

/// Ensures the package manager is present: the command itself skips the
/// installer when `brew` is already on the path.
pub open spec fn brew_plan() -> Seq<ActionModel> {
    seq![ActionModel::Run(brew_install_cmd())]
}

/// The operating-system packages for a supported platform, then the switch
/// of the login shell to zsh.
pub open spec fn dependencies_plan(p: Platform) -> Seq<ActionModel> {
    let chsh = ActionModel::Run("chsh -s $(which zsh)"@);
    if p == Platform::Linux {
        seq![
            ActionModel::Run("sudo apt update"@),
            ActionModel::Run("sudo apt install -y git zsh tmux alacritty rbenv"@),
            ActionModel::Run("brew install neovim"@),
            chsh,
        ]
    } else {
        seq![ActionModel::Run("brew install git zsh neovim tmux rbenv"@), chsh]
    }
}

/// The shell framework, guarded by whether its environment variable is set.
pub open spec fn ohmyzsh_plan(zsh_set: bool) -> Seq<ActionModel> {
    if zsh_set {
        seq![ActionModel::Say("OhMyZSH already installed!!"@)]
    } else {
        seq![ActionModel::Run(ohmyzsh_install_cmd())]
    }
}

/// The Python version manager, guarded by whether its directory exists.
pub open spec fn pyenv_plan(pyenv_exists: bool) -> Seq<ActionModel> {
    if pyenv_exists {
        seq![ActionModel::Say("pyenv already installed :D"@)]
    } else {
        seq![ActionModel::Run(pyenv_install_cmd())]
    }
}

pub open spec fn nerdfont_plan() -> Seq<ActionModel> {
    seq![ActionModel::Run("brew install --cask font-fira-code-nerd-font"@)]
}

pub open spec fn starship_plan() -> Seq<ActionModel> {
    seq![
        ActionModel::Run("brew install starship"@),
        ActionModel::Run("git clone https://github.com/jeffreytse/zsh-vi-mode $ZSH_CUSTOM/plugins/zsh-vi-mode"@),
    ]
}

pub open spec fn node_plan() -> Seq<ActionModel> {
    seq![
        ActionModel::Run("curl -o- https://raw.githubusercontent.com/nvm-sh/nvm/v0.40.3/install.sh | bash"@),
        ActionModel::Run("export NVM_DIR=\"$HOME/.nvm\" && [ -s \"$NVM_DIR/nvm.sh\" ] && . \"$NVM_DIR/nvm.sh\" && nvm install --lts && nvm use --lts"@),
    ]
}

/// Installs Homebrew unless it is already on the path.
pub fn install_brew() -> (r: Vec<Action>)
    ensures
        plan_of(r@) == brew_plan(),
{
    let r = vec![run("which brew || sh -c \"$(curl -fsSL https://raw.githubusercontent.com/Homebrew/install/HEAD/install.sh)\"")];
    assert(plan_of(r@) =~= brew_plan());
    r
}

/// Installs the platform's package set and makes zsh the login shell; an
/// unsupported platform is refused before any command.
pub fn install_dependencies(platform: Platform) -> (r: Result<Vec<Action>, ProvisionError>)
    ensures
        platform == Platform::Unsupported <==> r is Err,
        r matches Err(e) ==> e == ProvisionError::UnsupportedPlatform,
        r matches Ok(v) ==> plan_of(v@) == dependencies_plan(platform),
{
    let mut v: Vec<Action> = Vec::new();
    match platform {
        Platform::Linux => {
            v.push(run("sudo apt update"));
            v.push(run("sudo apt install -y git zsh tmux alacritty rbenv"));
            v.push(run("brew install neovim"));
        },
        Platform::Macos => {
            v.push(run("brew install git zsh neovim tmux rbenv"));
        },
        Platform::Unsupported => {
            return Err(ProvisionError::UnsupportedPlatform);
        },
    }
    v.push(run("chsh -s $(which zsh)"));
    assert(plan_of(v@) =~= dependencies_plan(platform));
    Ok(v)
}

/// Installs oh-my-zsh unless its `ZSH` variable is already set.
pub fn install_ohmyzsh(zsh_set: bool) -> (r: Vec<Action>)
    ensures
        plan_of(r@) == ohmyzsh_plan(zsh_set),
{
    let r = if zsh_set {
        vec![say("OhMyZSH already installed!!")]
    } else {
        vec![run("sh -c \"$(curl -fsSL https://raw.githubusercontent.com/ohmyzsh/ohmyzsh/master/tools/install.sh)\"")]
    };
    assert(plan_of(r@) =~= ohmyzsh_plan(zsh_set));
    r
}

/// Installs pyenv unless `~/.pyenv` already exists.
pub fn install_pyenv(pyenv_exists: bool) -> (r: Vec<Action>)
    ensures
        plan_of(r@) == pyenv_plan(pyenv_exists),
{
    let r = if pyenv_exists {
        vec![say("pyenv already installed :D")]
    } else {
        vec![run("curl https://pyenv.run | bash")]
    };
    assert(plan_of(r@) =~= pyenv_plan(pyenv_exists));
    r
}

/// Installs the Fira Code nerd font.
pub fn install_nerdfont() -> (r: Vec<Action>)
    ensures
        plan_of(r@) == nerdfont_plan(),
{
    let r = vec![run("brew install --cask font-fira-code-nerd-font")];
    assert(plan_of(r@) =~= nerdfont_plan());
    r
}

/// Installs the starship prompt and the zsh vi-mode plugin.
pub fn install_starship() -> (r: Vec<Action>)
    ensures
        plan_of(r@) == starship_plan(),
{
    let r = vec![
        run("brew install starship"),
        run("git clone https://github.com/jeffreytse/zsh-vi-mode $ZSH_CUSTOM/plugins/zsh-vi-mode"),
    ];
    assert(plan_of(r@) =~= starship_plan());
    r
}

/// Installs nvm, then the long-term-support release of Node.js.
pub fn install_node() -> (r: Vec<Action>)
    ensures
        plan_of(r@) == node_plan(),
{
    let r = vec![
        run("curl -o- https://raw.githubusercontent.com/nvm-sh/nvm/v0.40.3/install.sh | bash"),
        run("export NVM_DIR=\"$HOME/.nvm\" && [ -s \"$NVM_DIR/nvm.sh\" ] && . \"$NVM_DIR/nvm.sh\" && nvm install --lts && nvm use --lts"),
    ];
    assert(plan_of(r@) =~= node_plan());
    r
}

} // verus!
