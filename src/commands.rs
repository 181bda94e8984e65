//! What the tool's subcommands decide: the report of the lock age check and
//! the external programs each command runs.

use crate::cli::{os_name, HostOs};
use crate::config::ExternalCommandsConfig;
use crate::errors::SystoolError;
use crate::flake_lock::{advice_for, compare_status, whole_days, Advice, FlakeStatus};
use crate::text::{decimal, decimal_text, format_day, formatted_date};
use crate::CRATE_NAME;
use vstd::prelude::*;

verus! {

/// How a report line is shown.
#[derive(Clone, Copy, Debug, PartialEq, Eq, Structural)]
pub enum Level {
    Info,
    Warn,
    Error,
}

/// One line of a report.
#[derive(Clone, Debug)]
pub struct ReportLine {
    pub level: Level,
    pub text: String,
    /// Whether the line is to be wrapped to the terminal's width.
    pub wrap: bool,
}

/// A report line as plain values.
pub open spec fn line_view(l: ReportLine) -> (Level, Seq<char>, bool) {
    (l.level, l.text@, l.wrap)
}

/// Report lines as plain values.
pub open spec fn report_view(v: Seq<ReportLine>) -> Seq<(Level, Seq<char>, bool)> {
    v.map_values(|l: ReportLine| line_view(l))
}

/// ` (N days ago)`.
pub open spec fn days_ago_text(days: int) -> Seq<char> {
    " ("@ + decimal_text(days) + " days ago)"@
}

pub open spec fn system_up_to_date_message(date: Seq<char>, days: int) -> Seq<char> {
    "System flake is up to date. Last updated on "@ + date + days_ago_text(days)
}

pub open spec fn system_outdated_message(date: Seq<char>, days: int) -> Seq<char> {
    "System flake is out of date, last update was on "@ + date + days_ago_text(days)
}

pub open spec fn config_ahead_message(date: Seq<char>) -> Seq<char> {
    "Config flake is AHEAD of the current system flake, last updated on "@ + date
        + ". Consider running `"@ + CRATE_NAME@ + " apply`."@
}

pub open spec fn config_up_to_date_message(date: Seq<char>, days: int) -> Seq<char> {
    "Config flake is up to date, last updated on "@ + date + days_ago_text(days)
        + ". Update the system flake to use this one using `"@ + CRATE_NAME@ + " apply`."@
}

pub open spec fn please_update_message() -> Seq<char> {
    "Please update as soon as possible using `"@ + CRATE_NAME@ + " update` and `"@ + CRATE_NAME@
        + " apply`."@
}

pub open spec fn not_applied_message() -> Seq<char> {
    "The flake in the the repository may not be applied to the system. Make sure to use `"@
        + CRATE_NAME@
        + " apply` or create a symlink in /etc/current-system-flake pointing to the source of the flake in the Nix store used to build the current system for a more accurate version check."@
}

pub open spec fn link_hint_message() -> Seq<char> {
    "\nAdd the following to your nixosSystem configuration to do so:"@
}

pub open spec fn link_snippet_message() -> Seq<char> {
    "    environment.etc.\"current-system-flake\".source = inputs.self;"@
}

/// The lines that describe the applied system's status, or warn that it is
/// unknown; `None` where a date cannot be written under `format`.
pub open spec fn status_lines(
    no_warning: bool,
    reference: Option<FlakeStatus>,
    format: Seq<char>,
) -> Option<Seq<(Level, Seq<char>, bool)>> {
    match reference {
        None => if no_warning {
            Some(seq![])
        } else {
            Some(
                seq![
                    (Level::Warn, not_applied_message(), true),
                    (Level::Warn, link_hint_message(), false),
                    (Level::Warn, link_snippet_message(), false),
                ],
            )
        },
        Some(FlakeStatus::UpToDate { last_update, since }) => match formatted_date(
            last_update.days_from_ce as int,
            format,
        ) {
            Some(d) => Some(
                seq![(Level::Info, system_up_to_date_message(d, whole_days(since as int)), true)],
            ),
            None => None,
        },
        Some(FlakeStatus::Outdated { last_update, since }) => match formatted_date(
            last_update.days_from_ce as int,
            format,
        ) {
            Some(d) => Some(
                seq![(Level::Error, system_outdated_message(d, whole_days(since as int)), true)],
            ),
            None => None,
        },
    }
}

/// The lines that give `advice` about the configuration's status; `None`
/// where a date cannot be written under `format`.
pub open spec fn advice_lines(advice: Advice, config: FlakeStatus, format: Seq<char>) -> Option<
    Seq<(Level, Seq<char>, bool)>,
> {
    let day = config.spec_last_update().days_from_ce as int;
    let days = whole_days(config.spec_since() as int);
    match advice {
        Advice::ApplyConfig => match formatted_date(day, format) {
            Some(d) => Some(seq![(Level::Warn, config_ahead_message(d), true)]),
            None => None,
        },
        Advice::UpdateSystem => match formatted_date(day, format) {
            Some(d) => Some(seq![(Level::Warn, config_up_to_date_message(d, days), true)]),
            None => None,
        },
        Advice::UpdateLock => Some(seq![(Level::Error, please_update_message(), true)]),
        Advice::NoAction => Some(seq![]),
    }
}

/// The report of a lock age check: the applied system's status (or a warning
/// that it is unknown), then the advice that comparing it with the
/// configuration's status gives.
pub open spec fn check_report(
    no_warning: bool,
    reference: Option<FlakeStatus>,
    config: FlakeStatus,
    format: Seq<char>,
) -> Option<Seq<(Level, Seq<char>, bool)>> {
    match (
        status_lines(no_warning, reference, format),
        advice_lines(advice_for(reference, config), config, format),
    ) {
        (Some(a), Some(b)) => Some(a + b),
        _ => None,
    }
}

/// When the applied system is up to date and the configuration, also up to
/// date, was last updated on a later day, the report is the applied system's
/// up-to-date line followed by the advice to apply the configuration (where
/// both dates can be written under `format`).
pub proof fn lemma_config_ahead_report(
    no_warning: bool,
    reference: FlakeStatus,
    config: FlakeStatus,
    format: Seq<char>,
)
    requires
        reference is UpToDate,
        config is UpToDate,
        config.spec_last_update().days_from_ce > reference.spec_last_update().days_from_ce,
        formatted_date(reference.spec_last_update().days_from_ce as int, format) is Some,
        formatted_date(config.spec_last_update().days_from_ce as int, format) is Some,
    ensures
        check_report(no_warning, Some(reference), config, format) == Some(
            seq![
                (
                    Level::Info,
                    system_up_to_date_message(
                        formatted_date(reference.spec_last_update().days_from_ce as int, format)->Some_0,
                        whole_days(reference.spec_since() as int),
                    ),
                    true,
                ),
                (
                    Level::Warn,
                    config_ahead_message(
                        formatted_date(config.spec_last_update().days_from_ce as int, format)->Some_0,
                    ),
                    true,
                ),
            ],
        ),
{
    let a = status_lines(no_warning, Some(reference), format)->Some_0;
    let b = advice_lines(advice_for(Some(reference), config), config, format)->Some_0;
    assert(a + b =~= seq![a[0], b[0]]);
}

fn days_ago(days: i64) -> (r: String)
    ensures
        r@ == days_ago_text(days as int),
{
    let mut s = String::from_str(" (");
    s.append(decimal(days).as_str());
    s.append(" days ago)");
    s
}

fn line(level: Level, text: String, wrap: bool) -> (r: ReportLine)
    ensures
        line_view(r) == (level, text@, wrap),
{
    ReportLine { level, text, wrap }
}

fn status_report(no_warning: bool, reference: Option<FlakeStatus>, format: &str) -> (r: Option<
    Vec<ReportLine>,
>)
    ensures
        match r {
            Some(v) => status_lines(no_warning, reference, format@) == Some(report_view(v@)),
            None => status_lines(no_warning, reference, format@) is None,
        },
{
    let mut lines: Vec<ReportLine> = Vec::new();
    match reference {
        None => {
            if !no_warning {
                let mut s = String::from_str(
                    "The flake in the the repository may not be applied to the system. Make sure to use `",
                );
                s.append(CRATE_NAME);
                s.append(
                    " apply` or create a symlink in /etc/current-system-flake pointing to the source of the flake in the Nix store used to build the current system for a more accurate version check.",
                );
                lines.push(line(Level::Warn, s, true));
                lines.push(
                    line(
                        Level::Warn,
                        String::from_str(
                            "\nAdd the following to your nixosSystem configuration to do so:",
                        ),
                        false,
                    ),
                );
                lines.push(
                    line(
                        Level::Warn,
                        String::from_str(
                            "    environment.etc.\"current-system-flake\".source = inputs.self;",
                        ),
                        false,
                    ),
                );
            }
        },
        Some(status) => {
            let d = match format_day(status.last_update().days_from_ce, format) {
                Some(d) => d,
                None => {
                    return None;
                },
            };
            let mut s = if status.is_outdated() {
                String::from_str("System flake is out of date, last update was on ")
            } else {
                String::from_str("System flake is up to date. Last updated on ")
            };
            s.append(d.as_str());
            s.append(days_ago(status.since_days()).as_str());
            let level = if status.is_outdated() {
                Level::Error
            } else {
                Level::Info
            };
            lines.push(line(level, s, true));
        },
    }
    assert(status_lines(no_warning, reference, format@) == Some(report_view(lines@)));
    Some(lines)
}

fn advice_report(advice: Advice, config: FlakeStatus, format: &str) -> (r: Option<
    Vec<ReportLine>,
>)
    ensures
        match r {
            Some(v) => advice_lines(advice, config, format@) == Some(report_view(v@)),
            None => advice_lines(advice, config, format@) is None,
        },
{
    let mut lines: Vec<ReportLine> = Vec::new();
    match advice {
        Advice::ApplyConfig | Advice::UpdateSystem => {
            let d = match format_day(config.last_update().days_from_ce, format) {
                Some(d) => d,
                None => {
                    return None;
                },
            };
            let s = match advice {
                Advice::ApplyConfig => {
                    let mut s = String::from_str(
                        "Config flake is AHEAD of the current system flake, last updated on ",
                    );
                    s.append(d.as_str());
                    s.append(". Consider running `");
                    s.append(CRATE_NAME);
                    s.append(" apply`.");
                    s
                },
                _ => {
                    let mut s = String::from_str("Config flake is up to date, last updated on ");
                    s.append(d.as_str());
                    s.append(days_ago(config.since_days()).as_str());
                    s.append(". Update the system flake to use this one using `");
                    s.append(CRATE_NAME);
                    s.append(" apply`.");
                    s
                },
            };
            lines.push(line(Level::Warn, s, true));
        },
        Advice::UpdateLock => {
            let mut s = String::from_str("Please update as soon as possible using `");
            s.append(CRATE_NAME);
            s.append(" update` and `");
            s.append(CRATE_NAME);
            s.append(" apply`.");
            lines.push(line(Level::Error, s, true));
        },
        Advice::NoAction => {},
    }
    assert(advice_lines(advice, config, format@) == Some(report_view(lines@)));
    Some(lines)
}

/// The report of a lock age check, given the status of the lock the system
/// was built from (`None` where it cannot be found) and the status of the
/// configuration's lock. `None` where a date cannot be written under
/// `date_format`.
pub fn check_flake_version(
    no_warning: bool,
    reference: Option<FlakeStatus>,
    config: FlakeStatus,
    date_format: &str,
) -> (r: Option<Vec<ReportLine>>)
    ensures
        match r {
            Some(v) => check_report(no_warning, reference, config, date_format@) == Some(
                report_view(v@),
            ),
            None => check_report(no_warning, reference, config, date_format@) is None,
        },
{
    let mut lines = match status_report(no_warning, reference, date_format) {
        Some(v) => v,
        None => {
            return None;
        },
    };
    let advice = compare_status(reference, config);
    let mut more = match advice_report(advice, config, date_format) {
        Some(v) => v,
        None => {
            return None;
        },
    };
    let ghost a = lines@;
    let ghost b = more@;
    lines.append(&mut more);
    assert(report_view(lines@) =~= report_view(a) + report_view(b));
    Some(lines)
}


/// An external program to run, with its arguments.
#[derive(Clone, Debug)]
pub struct Invocation {
    pub program: String,
    pub args: Vec<String>,
}

/// The arguments of an invocation as plain values.
pub open spec fn args_view(args: Seq<String>) -> Seq<Seq<char>> {
    args.map_values(|a: String| a@)
}

/// An invocation as plain values: the program and its arguments.
pub open spec fn invocation_view(i: Invocation) -> (Seq<char>, Seq<Seq<char>>) {
    (i.program@, args_view(i.args@))
}

fn invocation(program: &str, args: Vec<String>) -> (r: Invocation)
    ensures
        invocation_view(r) == (program@, args_view(args@)),
{
    Invocation { program: program.to_owned(), args }
}

/// The method used to apply a system configuration when none is given.
pub open spec fn apply_method(method: Option<String>) -> Seq<char> {
    match method {
        Some(m) => m@,
        None => "switch"@,
    }
}

/// The program that applies the system configuration on `os`, with its
/// arguments; `None` on a system that has no such program.
pub open spec fn apply_invocation(method: Option<String>, flake_path: Seq<char>, os: HostOs) -> Option<
    (Seq<char>, Seq<Seq<char>>),
> {
    match os {
        HostOs::NixOS => Some(
            (
                "nixos-rebuild"@,
                seq!["--use-remote-sudo"@, "--flake"@, flake_path, apply_method(method)],
            ),
        ),
        HostOs::Macos => Some(("darwin-rebuild"@, seq!["--flake"@, flake_path, apply_method(method)])),
        HostOs::Other(_) => None,
    }
}

/// Applies the system configuration at `flake_path` with `method` (`switch`
/// when none is given): `nixos-rebuild` on NixOS, `darwin-rebuild` on macOS;
/// any other system is refused.
pub fn apply(method: &Option<String>, flake_path: &str, os: &HostOs) -> (r: Result<
    Invocation,
    SystoolError,
>)
    ensures
        r is Ok <==> !(*os is Other),
        r matches Ok(i) ==> apply_invocation(*method, flake_path@, *os) == Some(invocation_view(i)),
        r matches Err(e) ==> e matches SystoolError::NonNixOsSystem(c, n) && c@ == "apply"@
            && n@ == os_name(*os),
{
    let chosen = match method {
        Some(m) => m.clone(),
        None => "switch".to_owned(),
    };
    let mut args: Vec<String> = Vec::new();
    let program = match os {
        HostOs::NixOS => {
            args.push("--use-remote-sudo".to_owned());
            "nixos-rebuild"
        },
        HostOs::Macos => "darwin-rebuild",
        HostOs::Other(name) => {
            return Err(SystoolError::NonNixOsSystem("apply".to_owned(), name.clone()));
        },
    };
    args.push("--flake".to_owned());
    args.push(flake_path.to_owned());
    args.push(chosen);
    let r = invocation(program, args);
    assert(invocation_view(r) =~= apply_invocation(*method, flake_path@, *os)->Some_0);
    Ok(r)
}

/// Applies the user configuration of `user` from the flake at `flake_path`
/// with home-manager.
pub fn apply_user(user: &str, flake_path: &str) -> (r: Invocation)
    ensures
        invocation_view(r) == ("home-manager"@, seq!["switch"@, "--flake"@, flake_path@ + "#"@ + user@]),
{
    let mut target = flake_path.to_owned();
    target.append("#");
    target.append(user);
    let mut args: Vec<String> = Vec::new();
    args.push("switch".to_owned());
    args.push("--flake".to_owned());
    args.push(target);
    let r = invocation("home-manager", args);
    assert(invocation_view(r).1 =~= seq!["switch"@, "--flake"@, flake_path@ + "#"@ + user@]);
    r
}

/// The flake output that builds `system`, as a VM image or as the system itself.
pub open spec fn build_target(system: Seq<char>, vm: bool) -> Seq<char> {
    ".#nixosConfigurations."@ + system + ".config.system.build."@ + if vm {
        "vm"@
    } else {
        "toplevel"@
    }
}

/// What a finished build tells the user, for the flake at `flake_path`.
pub open spec fn build_done_text(system: Seq<char>, vm: bool, flake_path: Seq<char>) -> Seq<char> {
    if vm {
        "VM image built. Run "@ + flake_path + "/result/bin/run-"@ + system + "-vm to start it."@
    } else {
        "System built and symlinked to "@ + flake_path + "/result"@
    }
}

/// Builds the configuration of `system` (a VM image when `vm` holds) without
/// applying it; to be run inside the flake.
pub fn build_system(system: &str, vm: bool) -> (r: Invocation)
    ensures
        invocation_view(r) == ("nix"@, seq!["build"@, build_target(system@, vm)]),
{
    let mut target = String::from_str(".#nixosConfigurations.");
    target.append(system);
    target.append(".config.system.build.");
    target.append(if vm { "vm" } else { "toplevel" });
    let mut args: Vec<String> = Vec::new();
    args.push("build".to_owned());
    args.push(target);
    let r = invocation("nix", args);
    assert(invocation_view(r).1 =~= seq!["build"@, build_target(system@, vm)]);
    r
}

/// What a finished build of `system` tells the user.
pub fn build_done_message(system: &str, vm: bool, flake_path: &str) -> (r: String)
    ensures
        r@ == build_done_text(system@, vm, flake_path@),
{
    if vm {
        let mut s = String::from_str("VM image built. Run ");
        s.append(flake_path);
        s.append("/result/bin/run-");
        s.append(system);
        s.append("-vm to start it.");
        s
    } else {
        let mut s = String::from_str("System built and symlinked to ");
        s.append(flake_path);
        s.append("/result");
        s
    }
}

/// Whether the search options go together: searching home-manager's options
/// goes with no other option.
pub open spec fn search_options_valid(browser: bool, options: bool, home_manager: bool) -> bool {
    !(home_manager && (options || browser))
}

/// The search that valid options ask for: a browser on a search website,
/// manix for options, or `nix search` for packages.
pub open spec fn search_invocation(
    query: Seq<char>,
    browser: bool,
    options: bool,
    home_manager: bool,
    browser_open: Seq<char>,
    manix: Seq<char>,
) -> (Seq<char>, Seq<Seq<char>>) {
    if home_manager {
        (browser_open, seq!["https://mipmip.github.io/home-manager-option-search/?"@ + query])
    } else if options {
        if browser {
            (browser_open, seq!["https://search.nixos.org/options?channel=unstable&query="@ + query])
        } else {
            (manix, seq![query])
        }
    } else if browser {
        (browser_open, seq!["https://search.nixos.org/packages?channel=unstable&query="@ + query])
    } else {
        ("nix"@, seq!["search"@, "nixpkgs"@, query])
    }
}

/// Searches Nixpkgs or NixOS options for `query`, with the programs that
/// `commands` names.
pub fn search(
    query: &str,
    browser: bool,
    options: bool,
    home_manager: bool,
    commands: &ExternalCommandsConfig,
) -> (r: Result<Invocation, SystoolError>)
    ensures
        r is Ok <==> search_options_valid(browser, options, home_manager),
        r matches Ok(i) ==> search_invocation(
            query@,
            browser,
            options,
            home_manager,
            commands.browser_open@,
            commands.manix@,
        ) == invocation_view(i),
        r matches Err(e) ==> e matches SystoolError::InvalidOptions(why) && why@
            == "cannot use --home-manager with other options"@,
{
    if home_manager && (options || browser) {
        return Err(
            SystoolError::InvalidOptions("cannot use --home-manager with other options".to_owned()),
        );
    }
    let mut args: Vec<String> = Vec::new();
    let r = if home_manager {
        let mut url = String::from_str("https://mipmip.github.io/home-manager-option-search/?");
        url.append(query);
        args.push(url);
        invocation(commands.browser_open.as_str(), args)
    } else if options {
        if browser {
            let mut url = String::from_str("https://search.nixos.org/options?channel=unstable&query=");
            url.append(query);
            args.push(url);
            invocation(commands.browser_open.as_str(), args)
        } else {
            args.push(query.to_owned());
            invocation(commands.manix.as_str(), args)
        }
    } else if browser {
        let mut url = String::from_str("https://search.nixos.org/packages?channel=unstable&query=");
        url.append(query);
        args.push(url);
        invocation(commands.browser_open.as_str(), args)
    } else {
        args.push("search".to_owned());
        args.push("nixpkgs".to_owned());
        args.push(query.to_owned());
        invocation("nix", args)
    };
    assert(invocation_view(r) =~= search_invocation(
        query@,
        browser,
        options,
        home_manager,
        commands.browser_open@,
        commands.manix@,
    ));
    Ok(r)
}

/// What a search tells the user before it starts.
pub open spec fn search_text(query: Seq<char>, options: bool, home_manager: bool) -> Seq<char> {
    if home_manager {
        "Searching home-manager for `"@ + query + "`"@
    } else if options {
        "Searching options for '"@ + query + "'"@
    } else {
        "Searching nixpkgs for '"@ + query + "'"@
    }
}

/// What a search tells the user before it starts.
pub fn search_message(query: &str, options: bool, home_manager: bool) -> (r: String)
    ensures
        r@ == search_text(query@, options, home_manager),
{
    let (start, end) = if home_manager {
        ("Searching home-manager for `", "`")
    } else if options {
        ("Searching options for '", "'")
    } else {
        ("Searching nixpkgs for '", "'")
    };
    let mut s = String::from_str(start);
    s.append(query);
    s.append(end);
    s
}

/// Collects the Nix store's garbage, then deduplicates what remains.
pub fn clean_invocations() -> (r: Vec<Invocation>)
    ensures
        r@.map_values(|i: Invocation| invocation_view(i)) == seq![
            ("nix"@, seq!["store"@, "gc"@]),
            ("nix"@, seq!["store"@, "optimise"@]),
        ],
{
    let mut gc_args: Vec<String> = Vec::new();
    gc_args.push("store".to_owned());
    gc_args.push("gc".to_owned());
    let gc = invocation("nix", gc_args);
    let mut optimise_args: Vec<String> = Vec::new();
    optimise_args.push("store".to_owned());
    optimise_args.push("optimise".to_owned());
    let optimise = invocation("nix", optimise_args);
    assert(invocation_view(gc).1 =~= seq!["store"@, "gc"@]);
    assert(invocation_view(optimise).1 =~= seq!["store"@, "optimise"@]);
    let mut steps: Vec<Invocation> = Vec::new();
    steps.push(gc);
    steps.push(optimise);
    assert(steps@.map_values(|i: Invocation| invocation_view(i)) =~= seq![
        ("nix"@, seq!["store"@, "gc"@]),
        ("nix"@, seq!["store"@, "optimise"@]),
    ]);
    steps
}

/// Deletes old generations from the Nix store, as the superuser.
pub fn prune_invocation() -> (r: Invocation)
    ensures
        invocation_view(r) == ("sudo"@, seq!["nix-collect-garbage"@, "-d"@]),
{
    let mut args: Vec<String> = Vec::new();
    args.push("nix-collect-garbage".to_owned());
    args.push("-d".to_owned());
    let r = invocation("sudo", args);
    assert(invocation_view(r).1 =~= seq!["nix-collect-garbage"@, "-d"@]);
    r
}

/// Updates the flake lock, run inside the flake: `nix flake update`, then
/// commits the new lock with the configured git.
pub fn update_flake(commands: &ExternalCommandsConfig) -> (r: Vec<Invocation>)
    ensures
        r@.map_values(|i: Invocation| invocation_view(i)) == seq![
            ("nix"@, seq!["flake"@, "update"@]),
            (commands.git@, seq!["add"@, "flake.lock"@]),
            (commands.git@, seq!["commit"@, "-m"@, "Update flake lock"@]),
        ],
{
    let mut update_args: Vec<String> = Vec::new();
    update_args.push("flake".to_owned());
    update_args.push("update".to_owned());
    let update = invocation("nix", update_args);
    let mut add_args: Vec<String> = Vec::new();
    add_args.push("add".to_owned());
    add_args.push("flake.lock".to_owned());
    let add = invocation(commands.git.as_str(), add_args);
    let mut commit_args: Vec<String> = Vec::new();
    commit_args.push("commit".to_owned());
    commit_args.push("-m".to_owned());
    commit_args.push("Update flake lock".to_owned());
    let commit = invocation(commands.git.as_str(), commit_args);
    assert(invocation_view(update).1 =~= seq!["flake"@, "update"@]);
    assert(invocation_view(add).1 =~= seq!["add"@, "flake.lock"@]);
    assert(invocation_view(commit).1 =~= seq!["commit"@, "-m"@, "Update flake lock"@]);
    let mut steps: Vec<Invocation> = Vec::new();
    steps.push(update);
    steps.push(add);
    steps.push(commit);
    assert(steps@.map_values(|i: Invocation| invocation_view(i)) =~= seq![
        ("nix"@, seq!["flake"@, "update"@]),
        (commands.git@, seq!["add"@, "flake.lock"@]),
        (commands.git@, seq!["commit"@, "-m"@, "Update flake lock"@]),
    ]);
    steps
}

} // verus!
