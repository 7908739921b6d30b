//! Provisioning of a developer machine as plans of actions: each step decides,
//! from what the host has observed, which commands to run, which lines to
//! print and which files to write, and the executor decides how a run goes on
//! after each command.
pub mod action;
pub mod catalog;
pub mod dotfiles;
pub mod executor;
pub mod idempotence;
pub mod paths;
pub mod platform;
pub mod ssh;

pub use action::Action;
pub use catalog::{
    install_brew, install_dependencies, install_nerdfont, install_node, install_ohmyzsh,
    install_pyenv, install_starship, run_order, Step,
};
pub use dotfiles::{finish_checkout, load_dotfiles, Bootstrap};
pub use executor::{announce, Session, Verdict};
pub use platform::{detect_platform, start, Platform, ProvisionError};
pub use ssh::{generate_ssh_key, needs_identity};
