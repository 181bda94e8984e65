//! The tool's subcommands, its command line and the checks made before a
//! command runs.

use crate::config::Config;
use crate::errors::SystoolError;
use crate::status::{join_lines, joined, strings_view};
use vstd::prelude::*;

verus! {

/// The command line together with the configuration file, flattened into one
/// structure.
#[derive(Debug, Clone)]
pub struct CliConfig {
    pub config_file: Config,
    pub cli: Cli,
}

/// The command line.
#[derive(Debug, Clone)]
pub struct Cli {
    /// The subcommand to run.
    pub command: Commands,
    /// Path to the system configuration flake repository.
    pub flake_path: String,
    /// Path to the current system flake in the Nix store.
    pub current_flake_path: String,
}

/// NixOS system management tool.
#[derive(Debug, Clone)]
pub enum Commands {
    /// Apply the system configuration using nixos-rebuild.
    Apply {
        /// Method used to apply the system configuration (switch, boot, build, ...).
        method: Option<String>,
    },
    /// Apply user configuration using home-manager.
    ApplyUser {
        /// User configuration to apply, defaults to the current user.
        target_user: Option<String>,
    },
    /// Run garbage collection on the Nix store.
    Clean,
    /// Build the system configuration, without applying it.
    Build {
        /// Which system to build, defaults to the current host.
        system: Option<String>,
        /// Whether to build a VM image instead.
        vm: bool,
    },
    /// Prune old generations from the Nix store.
    Prune,
    /// Search Nixpkgs or NixOS options.
    Search {
        /// Pattern to search for.
        query: String,
        /// Search on the NixOS website in a browser.
        browser: bool,
        /// Search for options instead of packages.
        options: bool,
        /// Search the Home Manager option search website in a browser.
        home_manager: bool,
    },
    /// Update the system flake lock.
    Update,
    /// Check if the flake lock is outdated.
    Check {
        /// Suppress the warning about checking the repository's lock instead
        /// of the lock the system was built from.
        no_warning: bool,
    },
    /// Print the currently loaded configuration including defaults.
    PrintConfig,
}

/// The kind of operating system the tool runs on.
#[derive(Debug, Clone)]
pub enum HostOs {
    NixOS,
    Macos,
    /// Any other system, with its name.
    Other(String),
}

/// The name under which a command is invoked.
pub open spec fn command_name(c: Commands) -> Seq<char> {
    match c {
        Commands::Apply { .. } => "apply"@,
        Commands::Build { .. } => "build"@,
        Commands::ApplyUser { .. } => "apply-user"@,
        Commands::Clean => "clean"@,
        Commands::Prune => "prune"@,
        Commands::Search { .. } => "search"@,
        Commands::Update => "update"@,
        Commands::Check { .. } => "check"@,
        Commands::PrintConfig => "print-config"@,
    }
}

/// Whether a command only reads or inspects, so that it neither notifies on
/// completion nor cares about untracked files in the flake.
pub open spec fn is_inspection(c: Commands) -> bool {
    c is Search || c is Update || c is Check || c is PrintConfig
}

impl Commands {
    /// The name under which the command is invoked.
    pub fn name(&self) -> (r: &'static str)
        ensures
            r@ == command_name(*self),
    {
        match self {
            Commands::Apply { .. } => "apply",
            Commands::Build { .. } => "build",
            Commands::ApplyUser { .. } => "apply-user",
            Commands::Clean => "clean",
            Commands::Prune => "prune",
            Commands::Search { .. } => "search",
            Commands::Update => "update",
            Commands::Check { .. } => "check",
            Commands::PrintConfig => "print-config",
        }
    }

    /// Returns true if the command should send a desktop notification on
    /// completion.
    pub fn should_notify(&self) -> (r: bool)
        ensures
            r == !is_inspection(*self),
    {
        match self {
            Commands::Search { .. } | Commands::Update | Commands::Check { .. }
            | Commands::PrintConfig => false,
            _ => true,
        }
    }

    /// Returns true if untracked files in the flake must stop the command.
    pub fn checks_untracked_files(&self) -> (r: bool)
        ensures
            r == !is_inspection(*self),
    {
        match self {
            Commands::Search { .. } | Commands::Update | Commands::Check { .. }
            | Commands::PrintConfig => false,
            _ => true,
        }
    }

    /// Checks the untracked files of the flake (as `untracked_files` reads them
    /// from `git status --short`): a command that changes the system refuses
    /// to run while there are any.
    pub fn check_untracked_files(&self, untracked: &Vec<String>) -> (r: Result<(), SystoolError>)
        ensures
            r is Ok <==> is_inspection(*self) || untracked@.len() == 0,
            r matches Err(e) ==> e matches SystoolError::UntrackedFiles(files) && files@ == joined(
                strings_view(untracked@),
            ),
    {
        if !self.checks_untracked_files() || untracked.len() == 0 {
            Ok(())
        } else {
            Err(SystoolError::UntrackedFiles(join_lines(untracked)))
        }
    }

    /// The notification text for a successful run of the command.
    pub fn success_notice(&self) -> (r: String)
        ensures
            r@ == "`"@ + command_name(*self) + "` command executed successfully"@,
    {
        let mut s = String::from_str("`");
        s.append(self.name());
        s.append("` command executed successfully");
        s
    }

    /// The notification text for a failed run of the command.
    pub fn failure_notice(&self) -> (r: String)
        ensures
            r@ == "`"@ + command_name(*self) + "` command execution failed.\nSee output for details"@,
    {
        let mut s = String::from_str("`");
        s.append(self.name());
        s.append("` command execution failed.\nSee output for details");
        s
    }

    /// Whether the command can run on a system of kind `os`: applying the
    /// system configuration needs NixOS, every other command runs anywhere.
    pub fn valid_on_system(&self, os: &HostOs) -> (r: Result<(), SystoolError>)
        ensures
            r is Ok <==> !(*self is Apply) || *os is NixOS,
            r matches Err(e) ==> e matches SystoolError::NonNixOsSystem(c, n) && c@ == "apply"@
                && n@ == os_name(*os),
    {
        match self {
            Commands::Apply { .. } => match os {
                HostOs::NixOS => Ok(()),
                _ => Err(SystoolError::NonNixOsSystem("apply".to_owned(), host_os_name(os))),
            },
            _ => Ok(()),
        }
    }
}

/// How long a notification shown for `seconds` stays, in milliseconds;
/// `None` where that does not fit in a `u32`.
pub fn timeout_millis(seconds: u32) -> (r: Option<u32>)
    ensures
        r is Some <==> seconds * 1000 <= u32::MAX,
        r matches Some(ms) ==> ms == seconds * 1000,
{
    seconds.checked_mul(1000)
}

/// The name of a kind of operating system.
pub open spec fn os_name(os: HostOs) -> Seq<char> {
    match os {
        HostOs::NixOS => "NixOS"@,
        HostOs::Macos => "Mac OS"@,
        HostOs::Other(name) => name@,
    }
}

/// The name of a kind of operating system.
pub fn host_os_name(os: &HostOs) -> (r: String)
    ensures
        r@ == os_name(*os),
{
    match os {
        HostOs::NixOS => "NixOS".to_owned(),
        HostOs::Macos => "Mac OS".to_owned(),
        HostOs::Other(name) => name.clone(),
    }
}

} // verus!
