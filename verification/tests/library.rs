use browsermux::cli::{Commands, CompletionShell};
use browsermux::routing::{build_launch_args, resolve, route, select_browser, ResolveError};
use browsermux::settings::{BrowserConfig, ConfigError, RawRule, Rule, Settings};
use browsermux::util::{expand_dir, join_strings};

fn rule(pattern: &str, browser: &str) -> Rule {
    Rule::new(pattern.to_string(), browser.to_string()).unwrap()
}

fn simple(path: &str) -> BrowserConfig {
    BrowserConfig::Simple(path.to_string())
}

fn detailed(path: &str, args: &[&str]) -> BrowserConfig {
    BrowserConfig::Detailed {
        path: path.to_string(),
        args: args.iter().map(|a| a.to_string()).collect(),
    }
}

#[test]
fn first_matching_rule_wins() {
    let rules = vec![
        rule(".*youtube.*", "brave"),
        rule(".*", "chromium"),
    ];
    let name = select_browser(&rules, &"firefox".to_string(), "https://youtube.com/watch");
    assert_eq!(name, "brave");
}

#[test]
fn youtube_url_selects_brave() {
    let rules = vec![rule(".*youtube.*", "brave")];
    let name = select_browser(&rules, &"firefox".to_string(), "https://youtube.com/watch");
    assert_eq!(name, "brave");
}

#[test]
fn unmatched_url_selects_default() {
    let rules = vec![rule(".*youtube.*", "brave")];
    let name = select_browser(&rules, &"firefox".to_string(), "https://example.com");
    assert_eq!(name, "firefox");
}

#[test]
fn empty_rule_list_selects_default() {
    let rules: Vec<Rule> = Vec::new();
    let name = select_browser(&rules, &"firefox".to_string(), "https://example.com");
    assert_eq!(name, "firefox");
}

#[test]
fn anchored_pattern_does_not_match_inside() {
    let rules = vec![rule("^youtube", "brave")];
    let name = select_browser(&rules, &"firefox".to_string(), "https://youtube.com");
    assert_eq!(name, "firefox");
}

#[test]
fn unanchored_pattern_matches_substring() {
    let rules = vec![rule("youtube", "brave")];
    let name = select_browser(&rules, &"firefox".to_string(), "https://youtube.com");
    assert_eq!(name, "brave");
}

#[test]
fn selection_is_idempotent() {
    let rules = vec![rule(".*youtube.*", "brave"), rule("example", "chromium")];
    let default = "firefox".to_string();
    let url = "https://youtube.com/watch";
    let first = select_browser(&rules, &default, url);
    let second = select_browser(&rules, &default, url);
    assert_eq!(first, second);
}

#[test]
fn resolve_simple_yields_path_and_no_args() {
    let browsers = vec![("firefox".to_string(), simple("/usr/bin/firefox"))];
    let (path, args) = resolve(&browsers, &"firefox".to_string()).unwrap();
    assert_eq!(path, "/usr/bin/firefox");
    assert_eq!(args, Vec::<String>::new());
}

#[test]
fn resolve_detailed_preserves_arg_order() {
    let browsers = vec![("brave".to_string(), detailed("/usr/bin/brave", &["-a", "-b", "-c"]))];
    let (path, args) = resolve(&browsers, &"brave".to_string()).unwrap();
    assert_eq!(path, "/usr/bin/brave");
    assert_eq!(args, vec!["-a".to_string(), "-b".to_string(), "-c".to_string()]);
}

#[test]
fn resolve_missing_name_fails_with_that_name() {
    let browsers = vec![("firefox".to_string(), simple("/usr/bin/firefox"))];
    let err = resolve(&browsers, &"chrome".to_string()).unwrap_err();
    let ResolveError::BrowserNotFound(name) = err;
    assert_eq!(name, "chrome");
}

#[test]
fn resolve_present_name_never_fails() {
    let browsers = vec![
        ("firefox".to_string(), simple("/usr/bin/firefox")),
        ("brave".to_string(), detailed("/usr/bin/brave", &["--incognito"])),
    ];
    assert!(resolve(&browsers, &"firefox".to_string()).is_ok());
    assert!(resolve(&browsers, &"brave".to_string()).is_ok());
    assert!(resolve(&browsers, &"edge".to_string()).is_err());
}

#[test]
fn incognito_launch_plan() {
    let browsers = vec![("brave".to_string(), detailed("/usr/bin/brave", &["--incognito"]))];
    let (path, args) = resolve(&browsers, &"brave".to_string()).unwrap();
    assert_eq!(path, "/usr/bin/brave");
    assert_eq!(args, vec!["--incognito".to_string()]);
    let full = build_launch_args(&args, "https://x.com");
    assert_eq!(full, vec!["--incognito".to_string(), "https://x.com".to_string()]);
}

#[test]
fn launch_args_append_url_last() {
    let args = vec!["--new-window".to_string(), "--profile=work".to_string()];
    let full = build_launch_args(&args, "https://example.com");
    assert_eq!(
        full,
        vec![
            "--new-window".to_string(),
            "--profile=work".to_string(),
            "https://example.com".to_string()
        ]
    );
}

#[test]
fn launch_args_on_empty_args_is_url_alone() {
    let args: Vec<String> = Vec::new();
    let full = build_launch_args(&args, "https://example.com");
    assert_eq!(full, vec!["https://example.com".to_string()]);
}

#[test]
fn missing_default_fails_without_fallback() {
    let settings = Settings::new(
        "chrome".to_string(),
        vec![("firefox".to_string(), simple("/usr/bin/firefox"))],
        Vec::new(),
    )
    .unwrap();
    let err = route(&settings, "https://example.com").unwrap_err();
    let ResolveError::BrowserNotFound(name) = err;
    assert_eq!(name, "chrome");
}

#[test]
fn route_full_pipeline() {
    let settings = Settings::new(
        "firefox".to_string(),
        vec![
            ("firefox".to_string(), simple("/usr/bin/firefox")),
            ("brave".to_string(), detailed("/usr/bin/brave", &["--incognito"])),
        ],
        vec![RawRule { pattern: ".*youtube.*".to_string(), browser: "brave".to_string() }],
    )
    .unwrap();
    let (path, args) = route(&settings, "https://youtube.com/watch").unwrap();
    assert_eq!(path, "/usr/bin/brave");
    assert_eq!(args, vec!["--incognito".to_string(), "https://youtube.com/watch".to_string()]);
    let (path, args) = route(&settings, "https://example.com").unwrap();
    assert_eq!(path, "/usr/bin/firefox");
    assert_eq!(args, vec!["https://example.com".to_string()]);
}

#[test]
fn invalid_pattern_fails_configuration() {
    let r = Settings::new(
        "firefox".to_string(),
        vec![("firefox".to_string(), simple("/usr/bin/firefox"))],
        vec![RawRule { pattern: "(".to_string(), browser: "firefox".to_string() }],
    );
    match r {
        Err(ConfigError::InvalidPattern(p)) => assert_eq!(p, "("),
        _ => panic!("expected an invalid-pattern failure"),
    }
}

#[test]
fn invalid_pattern_fails_rule_construction() {
    match Rule::new("(".to_string(), "firefox".to_string()) {
        Err(ConfigError::InvalidPattern(p)) => assert_eq!(p, "("),
        _ => panic!("expected an invalid-pattern failure"),
    }
}

#[test]
fn duplicate_browser_name_fails_configuration() {
    let r = Settings::new(
        "firefox".to_string(),
        vec![
            ("firefox".to_string(), simple("/usr/bin/firefox")),
            ("firefox".to_string(), simple("/opt/firefox/firefox")),
        ],
        Vec::new(),
    );
    match r {
        Err(ConfigError::DuplicateBrowser(n)) => assert_eq!(n, "firefox"),
        _ => panic!("expected a duplicate-name failure"),
    }
}

#[test]
fn rule_accessors_report_inputs() {
    let r = rule(".*youtube.*", "brave");
    assert_eq!(r.pattern(), ".*youtube.*");
    assert_eq!(r.browser(), "brave");
    assert!(r.matches("https://youtube.com"));
    assert!(!r.matches("https://example.com"));
}

#[test]
fn settings_accessors_report_inputs() {
    let settings = Settings::new(
        "firefox".to_string(),
        vec![("firefox".to_string(), simple("/usr/bin/firefox"))],
        vec![RawRule { pattern: "a".to_string(), browser: "b".to_string() }],
    )
    .unwrap();
    assert_eq!(settings.default_browser(), "firefox");
    assert_eq!(settings.browsers().len(), 1);
    assert_eq!(settings.browsers()[0].0, "firefox");
    assert_eq!(settings.rules().len(), 1);
    assert_eq!(settings.rules()[0].pattern(), "a");
}

#[test]
fn resolve_error_message_names_browser() {
    let err = ResolveError::BrowserNotFound("chrome".to_string());
    assert_eq!(err.message(), "browser chrome not found");
}

#[test]
fn render_simple_command() {
    assert_eq!(simple("/usr/bin/firefox").render(), "/usr/bin/firefox");
}

#[test]
fn render_detailed_command() {
    assert_eq!(
        detailed("/usr/bin/brave", &["--incognito", "--new-window"]).render(),
        "/usr/bin/brave --incognito --new-window"
    );
}

#[test]
fn render_detailed_command_without_args() {
    assert_eq!(detailed("/usr/bin/brave", &[]).render(), "/usr/bin/brave ");
}

#[test]
fn render_rule() {
    assert_eq!(rule(".*\\.work\\.com.*", "chrome").render(), ".*\\.work\\.com.* => chrome");
}

#[test]
fn render_settings() {
    let settings = Settings::new(
        "firefox".to_string(),
        vec![
            ("firefox".to_string(), simple("/usr/bin/firefox")),
            ("brave".to_string(), detailed("/usr/bin/brave", &["--incognito"])),
        ],
        vec![RawRule { pattern: ".*youtube.*".to_string(), browser: "brave".to_string() }],
    )
    .unwrap();
    assert_eq!(
        settings.render(),
        "Settings { default: firefox, browsers: [/usr/bin/firefox, /usr/bin/brave --incognito], \
         rules: [.*youtube.* => brave] }"
    );
}

#[test]
fn join_with_separator() {
    let items: Vec<String> = Vec::new();
    assert_eq!(join_strings(&items, ", "), "");
    let items = vec!["a".to_string()];
    assert_eq!(join_strings(&items, ", "), "a");
    let items = vec!["a".to_string(), "b".to_string(), "c".to_string()];
    assert_eq!(join_strings(&items, ", "), "a, b, c");
}

#[test]
fn expand_tilde_path() {
    assert_eq!(
        expand_dir("~/.config/browsermux/config.toml", "/home/user", "/tmp"),
        "/home/user/.config/browsermux/config.toml"
    );
}

#[test]
fn expand_bare_tilde() {
    assert_eq!(expand_dir("~", "/home/user", "/tmp"), "/home/user");
}

#[test]
fn expand_relative_path() {
    assert_eq!(expand_dir("conf/a.toml", "/home/user", "/work"), "/work/conf/a.toml");
}

#[test]
fn expand_absolute_path_unchanged() {
    assert_eq!(expand_dir("/etc/app.toml", "/home/user", "/work"), "/etc/app.toml");
}

#[test]
fn tilde_inside_name_is_not_expanded() {
    assert_eq!(expand_dir("~abc/x", "/home/user", "/work"), "/work/~abc/x");
}

#[test]
fn completion_shells_are_plain_values() {
    let shell = CompletionShell::Nushell;
    assert_eq!(shell, CompletionShell::Nushell);
    assert_ne!(shell, CompletionShell::Bash);
    let cmd = Commands::Completions { shell: CompletionShell::Zsh };
    assert!(matches!(cmd, Commands::Completions { shell: CompletionShell::Zsh }));
}
