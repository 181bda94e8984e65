use nixos_systool::cli::HostOs;
use nixos_systool::commands::{
    apply, apply_user, build_done_message, build_system, check_flake_version, search,
    search_message, update_flake, Invocation, Level, ReportLine,
};
use nixos_systool::config::ExternalCommandsConfig;
use nixos_systool::errors::SystoolError;
use nixos_systool::flake_lock::{Date, FlakeStatus};

/// 2001-09-09 and 2001-09-11, counted from the Common Era.
const SEP_9: i32 = 730_737;
const SEP_11: i32 = 730_739;

fn up_to_date(day: i32, days_ago: i64) -> FlakeStatus {
    FlakeStatus::UpToDate { last_update: Date { days_from_ce: day }, since: days_ago * 86_400 + 7 }
}

fn outdated(day: i32, days_ago: i64) -> FlakeStatus {
    FlakeStatus::Outdated { last_update: Date { days_from_ce: day }, since: days_ago * 86_400 + 7 }
}

fn plain(lines: &[ReportLine]) -> Vec<(Level, String, bool)> {
    lines.iter().map(|l| (l.level, l.text.clone(), l.wrap)).collect()
}

fn parts(i: &Invocation) -> (String, Vec<String>) {
    (i.program.clone(), i.args.clone())
}

fn strings(v: &[&str]) -> Vec<String> {
    v.iter().map(|s| s.to_string()).collect()
}

#[test]
fn report_config_ahead() {
    let lines =
        check_flake_version(false, Some(up_to_date(SEP_9, 3)), up_to_date(SEP_11, 1), "%Y-%m-%d")
            .unwrap();
    assert_eq!(
        plain(&lines),
        vec![
            (
                Level::Info,
                "System flake is up to date. Last updated on 2001-09-09 (3 days ago)".to_string(),
                true
            ),
            (
                Level::Warn,
                "Config flake is AHEAD of the current system flake, last updated on 2001-09-11. \
                 Consider running `nixos-systool apply`."
                    .to_string(),
                true
            ),
        ]
    );
}

#[test]
fn report_default_date_format() {
    let lines =
        check_flake_version(true, Some(up_to_date(SEP_11, 0)), up_to_date(SEP_9, 2), "%-e %B, %Y")
            .unwrap();
    assert_eq!(
        plain(&lines),
        vec![(
            Level::Info,
            "System flake is up to date. Last updated on 11 September, 2001 (0 days ago)"
                .to_string(),
            true
        )]
    );
}

#[test]
fn report_system_outdated_config_current() {
    let lines =
        check_flake_version(false, Some(outdated(SEP_9, 20)), up_to_date(SEP_11, 2), "%Y-%m-%d")
            .unwrap();
    assert_eq!(
        plain(&lines),
        vec![
            (
                Level::Error,
                "System flake is out of date, last update was on 2001-09-09 (20 days ago)"
                    .to_string(),
                true
            ),
            (
                Level::Warn,
                "Config flake is up to date, last updated on 2001-09-11 (2 days ago). \
                 Update the system flake to use this one using `nixos-systool apply`."
                    .to_string(),
                true
            ),
        ]
    );
}

#[test]
fn report_both_outdated() {
    let lines =
        check_flake_version(false, Some(outdated(SEP_9, 20)), outdated(SEP_11, 18), "%Y-%m-%d")
            .unwrap();
    assert_eq!(lines.len(), 2);
    assert_eq!(lines[1].level, Level::Error);
    assert_eq!(
        lines[1].text,
        "Please update as soon as possible using `nixos-systool update` and `nixos-systool apply`."
    );
}

#[test]
fn report_without_reference_warns() {
    let lines = check_flake_version(false, None, outdated(SEP_9, 20), "%Y-%m-%d").unwrap();
    assert_eq!(lines.len(), 4);
    assert_eq!(lines[0].level, Level::Warn);
    assert!(lines[0].text.starts_with("The flake in the the repository may not be applied"));
    assert!(lines[0].wrap);
    assert_eq!(lines[1].text, "\nAdd the following to your nixosSystem configuration to do so:");
    assert!(!lines[1].wrap);
    assert_eq!(
        lines[2].text,
        "    environment.etc.\"current-system-flake\".source = inputs.self;"
    );
    assert_eq!(lines[3].level, Level::Error);
    let quiet = check_flake_version(true, None, up_to_date(SEP_9, 1), "%Y-%m-%d").unwrap();
    assert_eq!(
        plain(&quiet),
        vec![(
            Level::Warn,
            "Config flake is up to date, last updated on 2001-09-09 (1 days ago). \
             Update the system flake to use this one using `nixos-systool apply`."
                .to_string(),
            true
        )]
    );
}

#[test]
fn report_negative_age() {
    let status = FlakeStatus::UpToDate { last_update: Date { days_from_ce: SEP_9 }, since: -3 * 86_400 };
    let lines = check_flake_version(true, Some(status), status, "%Y").unwrap();
    assert_eq!(lines[0].text, "System flake is up to date. Last updated on 2001 (-3 days ago)");
}

#[test]
fn report_with_bad_date_format() {
    assert!(check_flake_version(true, Some(up_to_date(SEP_9, 1)), up_to_date(SEP_9, 1), "%Q").is_none());
    // The configuration's date is only written when advice needs it.
    assert!(check_flake_version(true, None, outdated(SEP_9, 1), "%Q").is_some());
}

#[test]
fn apply_on_each_system() {
    let nixos = apply(&None, "/etc/nixos", &HostOs::NixOS).unwrap();
    assert_eq!(
        parts(&nixos),
        (
            "nixos-rebuild".to_string(),
            strings(&["--use-remote-sudo", "--flake", "/etc/nixos", "switch"])
        )
    );
    let mac = apply(&Some("build".to_string()), "/src/flake", &HostOs::Macos).unwrap();
    assert_eq!(
        parts(&mac),
        ("darwin-rebuild".to_string(), strings(&["--flake", "/src/flake", "build"]))
    );
    match apply(&None, "/x", &HostOs::Other("Ubuntu".to_string())) {
        Err(e @ SystoolError::NonNixOsSystem(..)) => {
            assert_eq!(e.message(), "Cannot `apply` on Ubuntu systems")
        }
        other => panic!("unexpected {other:?}"),
    }
}

#[test]
fn apply_user_target() {
    let i = apply_user("alice", "/home/alice/flake");
    assert_eq!(
        parts(&i),
        (
            "home-manager".to_string(),
            strings(&["switch", "--flake", "/home/alice/flake#alice"])
        )
    );
}

#[test]
fn build_targets_and_messages() {
    assert_eq!(
        parts(&build_system("laptop", false)),
        (
            "nix".to_string(),
            strings(&["build", ".#nixosConfigurations.laptop.config.system.build.toplevel"])
        )
    );
    assert_eq!(
        build_system("laptop", true).args[1],
        ".#nixosConfigurations.laptop.config.system.build.vm"
    );
    assert_eq!(
        build_done_message("laptop", true, "/f"),
        "VM image built. Run /f/result/bin/run-laptop-vm to start it."
    );
    assert_eq!(build_done_message("laptop", false, "/f"), "System built and symlinked to /f/result");
}

#[test]
fn search_each_kind() {
    let cmds = ExternalCommandsConfig::default();
    assert_eq!(
        parts(&search("vim", false, false, false, &cmds).unwrap()),
        ("nix".to_string(), strings(&["search", "nixpkgs", "vim"]))
    );
    assert_eq!(
        parts(&search("vim", true, false, false, &cmds).unwrap()),
        (
            "xdg-open".to_string(),
            strings(&["https://search.nixos.org/packages?channel=unstable&query=vim"])
        )
    );
    assert_eq!(
        parts(&search("boot", false, true, false, &cmds).unwrap()),
        ("manix".to_string(), strings(&["boot"]))
    );
    assert_eq!(
        parts(&search("boot", true, true, false, &cmds).unwrap()),
        (
            "xdg-open".to_string(),
            strings(&["https://search.nixos.org/options?channel=unstable&query=boot"])
        )
    );
    assert_eq!(
        parts(&search("git", false, false, true, &cmds).unwrap()),
        (
            "xdg-open".to_string(),
            strings(&["https://mipmip.github.io/home-manager-option-search/?git"])
        )
    );
}

#[test]
fn search_home_manager_with_other_options_is_invalid() {
    let cmds = ExternalCommandsConfig::default();
    for (browser, options) in [(true, false), (false, true), (true, true)] {
        match search("git", browser, options, true, &cmds) {
            Err(e @ SystoolError::InvalidOptions(_)) => assert_eq!(
                e.message(),
                "Invalid options: cannot use --home-manager with other options"
            ),
            other => panic!("unexpected {other:?}"),
        }
    }
}

#[test]
fn search_messages() {
    assert_eq!(search_message("git", false, true), "Searching home-manager for `git`");
    assert_eq!(search_message("boot", true, false), "Searching options for 'boot'");
    assert_eq!(search_message("vim", false, false), "Searching nixpkgs for 'vim'");
}

#[test]
fn update_steps() {
    let mut cmds = ExternalCommandsConfig::default();
    cmds.git = "/usr/bin/git".to_string();
    let steps: Vec<(String, Vec<String>)> = update_flake(&cmds).iter().map(parts).collect();
    assert_eq!(
        steps,
        vec![
            ("nix".to_string(), strings(&["flake", "update"])),
            ("/usr/bin/git".to_string(), strings(&["add", "flake.lock"])),
            ("/usr/bin/git".to_string(), strings(&["commit", "-m", "Update flake lock"])),
        ]
    );
}

#[test]
fn clean_and_prune_steps() {
    let steps: Vec<(String, Vec<String>)> =
        nixos_systool::commands::clean_invocations().iter().map(parts).collect();
    assert_eq!(
        steps,
        vec![
            ("nix".to_string(), strings(&["store", "gc"])),
            ("nix".to_string(), strings(&["store", "optimise"])),
        ]
    );
    assert_eq!(
        parts(&nixos_systool::commands::prune_invocation()),
        ("sudo".to_string(), strings(&["nix-collect-garbage", "-d"]))
    );
}
