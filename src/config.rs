//! The tool's configuration and its defaults.

use vstd::prelude::*;

verus! {

/// Top level configuration.
#[derive(Debug, Clone)]
pub struct Config {
    pub notifications: NotificationsConfig,
    pub system_check: SystemCheckConfig,
    pub external_commands: ExternalCommandsConfig,
    pub web_search: WebSearchConfig,
}

/// Configuration for notifications for long running commands.
#[derive(Debug, Clone, Copy, PartialEq, Eq, Structural)]
pub struct NotificationsConfig {
    /// How long (in seconds) successful command notifications are shown.
    pub success_timeout: u32,
    /// How long (in seconds) failed command notifications are shown.
    pub failure_timeout: u32,
}

/// Configuration for the lock age check.
#[derive(Debug, Clone)]
pub struct SystemCheckConfig {
    /// How many days until the nixpkgs input is considered out of date.
    pub allowed_age: u32,
    /// Path to the flake that defines the current system.
    pub current_system_flake_path: String,
    /// Date format string.
    pub date_format: String,
}

/// Configuration for external command paths.
#[derive(Debug, Clone)]
pub struct ExternalCommandsConfig {
    /// Command to open a browser.
    pub browser_open: String,
    /// Path to the Git binary.
    pub git: String,
    /// Path to the Manix binary.
    pub manix: String,
}

/// Configuration for web searches.
#[derive(Debug, Clone)]
pub struct WebSearchConfig {
    pub nixos_pkg_search: String,
    pub nixos_option_search: String,
    pub home_manager_search: String,
}

impl Default for NotificationsConfig {
    fn default() -> (r: Self)
        ensures
            r.success_timeout == 10,
            r.failure_timeout == 60,
    {
        NotificationsConfig { success_timeout: 10, failure_timeout: 60 }
    }
}

impl Default for SystemCheckConfig {
    fn default() -> (r: Self)
        ensures
            r.allowed_age == 14,
            r.current_system_flake_path@ == "/etc/current-system-flake"@,
            r.date_format@ == "%-e %B, %Y"@,
    {
        SystemCheckConfig {
            allowed_age: 14,
            current_system_flake_path: "/etc/current-system-flake".to_owned(),
            date_format: "%-e %B, %Y".to_owned(),
        }
    }
}

impl Default for ExternalCommandsConfig {
    fn default() -> (r: Self)
        ensures
            r.browser_open@ == "xdg-open"@,
            r.git@ == "git"@,
            r.manix@ == "manix"@,
    {
        ExternalCommandsConfig {
            browser_open: "xdg-open".to_owned(),
            git: "git".to_owned(),
            manix: "manix".to_owned(),
        }
    }
}

impl ExternalCommandsConfig {
    /// The default commands on Linux (`linux`) or on another system, where a
    /// browser is opened with `open` rather than `xdg-open`.
    pub fn for_platform(linux: bool) -> (r: Self)
        ensures
            r.browser_open@ == (if linux {
                "xdg-open"@
            } else {
                "open"@
            }),
            r.git@ == "git"@,
            r.manix@ == "manix"@,
    {
        let mut r = ExternalCommandsConfig::default();
        if !linux {
            r.browser_open = "open".to_owned();
        }
        r
    }
}

impl Default for WebSearchConfig {
    fn default() -> (r: Self)
        ensures
            r.nixos_pkg_search@ == "https://search.nixos.org/packages?channel=unstable&query={}"@,
            r.nixos_option_search@ == "https://search.nixos.org/options?channel=unstable&query={}"@,
            r.home_manager_search@
                == "https://mipmip.github.io/home-manager-option-search/?query={}"@,
    {
        WebSearchConfig {
            nixos_pkg_search: "https://search.nixos.org/packages?channel=unstable&query={}".to_owned(),
            nixos_option_search: "https://search.nixos.org/options?channel=unstable&query={}".to_owned(),
            home_manager_search: "https://mipmip.github.io/home-manager-option-search/?query={}".to_owned(),
        }
    }
}

impl Default for Config {
    fn default() -> (r: Self)
        ensures
            r.notifications.success_timeout == 10,
            r.notifications.failure_timeout == 60,
            r.system_check.allowed_age == 14,
            r.system_check.current_system_flake_path@ == "/etc/current-system-flake"@,
            r.system_check.date_format@ == "%-e %B, %Y"@,
            r.external_commands.browser_open@ == "xdg-open"@,
            r.external_commands.git@ == "git"@,
            r.external_commands.manix@ == "manix"@,
            r.web_search.nixos_pkg_search@
                == "https://search.nixos.org/packages?channel=unstable&query={}"@,
            r.web_search.nixos_option_search@
                == "https://search.nixos.org/options?channel=unstable&query={}"@,
            r.web_search.home_manager_search@
                == "https://mipmip.github.io/home-manager-option-search/?query={}"@,
    {
        Config {
            notifications: NotificationsConfig::default(),
            system_check: SystemCheckConfig::default(),
            external_commands: ExternalCommandsConfig::default(),
            web_search: WebSearchConfig::default(),
        }
    }
}

impl Config {
    /// The default configuration on Linux (`linux`) or on another system;
    /// the two differ only in the command that opens a browser.
    pub fn for_platform(linux: bool) -> (r: Self)
        ensures
            r.notifications.success_timeout == 10,
            r.notifications.failure_timeout == 60,
            r.system_check.allowed_age == 14,
            r.system_check.current_system_flake_path@ == "/etc/current-system-flake"@,
            r.system_check.date_format@ == "%-e %B, %Y"@,
            r.external_commands.browser_open@ == (if linux {
                "xdg-open"@
            } else {
                "open"@
            }),
            r.external_commands.git@ == "git"@,
            r.external_commands.manix@ == "manix"@,
            r.web_search.nixos_pkg_search@
                == "https://search.nixos.org/packages?channel=unstable&query={}"@,
            r.web_search.nixos_option_search@
                == "https://search.nixos.org/options?channel=unstable&query={}"@,
            r.web_search.home_manager_search@
                == "https://mipmip.github.io/home-manager-option-search/?query={}"@,
    {
        Config {
            notifications: NotificationsConfig::default(),
            system_check: SystemCheckConfig::default(),
            external_commands: ExternalCommandsConfig::for_platform(linux),
            web_search: WebSearchConfig::default(),
        }
    }
}

} // verus!
