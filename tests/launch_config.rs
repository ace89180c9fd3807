use chaser_oxide::config::default_args;
use chaser_oxide::{Arg, BrowserConfig, DetectionOptions, HeadlessMode, Viewport};

fn config() -> chaser_oxide::BrowserConfigBuilder {
    BrowserConfig::builder().chrome_executable("/usr/bin/chromium")
}

fn args_of(b: chaser_oxide::BrowserConfigBuilder) -> Vec<String> {
    let c = b.build(Err("no executable".to_string())).unwrap();
    c.launch_args("/tmp/runner")
}

#[test]
fn default_launch_has_port_profile_and_headless_flags() {
    let a = args_of(config());
    assert!(a.contains(&"--remote-debugging-port=0".to_string()));
    assert!(a.contains(&"--disable-extensions".to_string()));
    assert!(a.contains(&"--user-data-dir=/tmp/runner".to_string()));
    assert!(a.contains(&"--headless".to_string()));
    assert!(a.contains(&"--hide-scrollbars".to_string()));
    assert!(a.contains(&"--mute-audio".to_string()));
    assert!(a.contains(&"--disable-sync".to_string()));
    assert!(a.contains(&"--enable-features=NetworkService,NetworkServiceInProcess".to_string()));
    assert!(a.contains(&"--disable-features=TranslateUI".to_string()));
    assert!(!a.contains(&"--no-sandbox".to_string()));
    assert!(!a.contains(&"--incognito".to_string()));
    // 24 defaults, port, extensions, profile, 3 headless flags
    assert_eq!(a.len(), 30);
}

#[test]
fn extensions_replace_the_disable_flag() {
    let a = args_of(config().extension("/ext/one").extensions(vec!["/ext/two".to_string()]));
    assert!(a.contains(&"--load-extension=/ext/one,/ext/two".to_string()));
    assert!(!a.contains(&"--disable-extensions".to_string()));
}

#[test]
fn no_extensions_gives_disable_flag() {
    let a = args_of(config().with_head());
    assert!(a.contains(&"--disable-extensions".to_string()));
    assert!(!a.iter().any(|t| t.starts_with("--load-extension")));
}

#[test]
fn explicit_port_argument_is_kept() {
    let a = args_of(config().port(4000).arg(Arg::value("remote-debugging-port", "9222")));
    assert!(a.contains(&"--remote-debugging-port=9222".to_string()));
    assert!(!a.iter().any(|t| t == "--remote-debugging-port=4000"));
}

#[test]
fn configured_port_is_rendered_in_decimal() {
    let a = args_of(config().port(9222));
    assert!(a.contains(&"--remote-debugging-port=9222".to_string()));
}

#[test]
fn caller_argument_appends_to_default_of_same_key() {
    let a = args_of(config().arg(Arg::value("disable-features", "Foo")));
    assert!(a.contains(&"--disable-features=TranslateUI,Foo".to_string()));
    assert!(!a.contains(&"--disable-features=Foo".to_string()));
}

#[test]
fn https_first_flags_merge_into_disable_features() {
    let a = args_of(config().disable_https_first());
    assert!(a.contains(
        &"--disable-features=TranslateUI,HttpsUpgrades,HttpsFirstBalancedModeAutoEnable"
            .to_string()
    ));
}

#[test]
fn disabled_defaults_leave_only_own_arguments() {
    let a = args_of(
        config()
            .disable_default_args()
            .headless_mode(HeadlessMode::New)
            .no_sandbox()
            .incognito()
            .hide_automation()
            .window_size(1280, 720)
            .user_data_dir("/data/profile"),
    );
    assert_eq!(
        a,
        vec![
            "--remote-debugging-port=0".to_string(),
            "--disable-extensions".to_string(),
            "--user-data-dir=/data/profile".to_string(),
            "--window-size=1280,720".to_string(),
            "--no-sandbox".to_string(),
            "--disable-setuid-sandbox".to_string(),
            "--headless=new".to_string(),
            "--hide-scrollbars".to_string(),
            "--mute-audio".to_string(),
            "--incognito".to_string(),
            "--disable-blink-features=AutomationControlled".to_string(),
        ]
    );
}

#[test]
fn new_headless_mode_sets_value() {
    let a = args_of(config().new_headless_mode());
    assert!(a.contains(&"--headless=new".to_string()));
}

#[test]
fn build_uses_detected_executable_or_its_error() {
    let c = BrowserConfig::builder()
        .build(Ok("/opt/chrome".to_string()))
        .unwrap();
    assert_eq!(c.executable(), "/opt/chrome");
    let e = BrowserConfig::builder().build(Err("not found".to_string()));
    assert_eq!(e.unwrap_err(), "not found");
    let set = config().build(Ok("/opt/chrome".to_string())).unwrap();
    assert_eq!(set.executable(), "/usr/bin/chromium");
}

#[test]
fn builder_defaults() {
    let b = BrowserConfig::builder();
    assert_eq!(b.headless, HeadlessMode::True);
    assert!(b.sandbox);
    assert_eq!(b.port, 0);
    assert_eq!(b.launch_timeout_ms, 20000);
    assert_eq!(b.request_timeout_ms, 30000);
    assert_eq!(b.viewport, Some(Viewport::default_size()));
    assert_eq!(b.executation_detection, DetectionOptions::standard());
    assert!(b.cache_enabled);
    let b = b
        .launch_timeout(0)
        .request_timeout(5)
        .viewport(None)
        .respect_https_errors()
        .surface_invalid_messages()
        .enable_request_intercept()
        .disable_cache();
    assert_eq!(b.launch_timeout_ms, 0);
    assert_eq!(b.request_timeout_ms, 5);
    assert_eq!(b.viewport, None);
    assert!(!b.ignore_https_errors);
    assert!(!b.ignore_invalid_events);
    assert!(b.request_intercept);
    assert!(!b.cache_enabled);
    let b = b.disable_request_intercept().enable_cache();
    assert!(!b.request_intercept);
    assert!(b.cache_enabled);
}

#[test]
fn with_executable_keeps_defaults() {
    let c = BrowserConfig::with_executable("/bin/chrome");
    assert_eq!(c.executable(), "/bin/chrome");
    assert_eq!(c.headless(), HeadlessMode::True);
    assert!(c.process_envs().is_none());
    assert!(c.sandbox());
    assert_eq!(c.port(), 0);
    assert_eq!(c.launch_timeout_ms(), 20000);
}

#[test]
fn env_replaces_value_of_same_key() {
    let b = config()
        .env("A", "1")
        .env("B", "2")
        .env("A", "3")
        .envs(vec![("C".to_string(), "4".to_string()), ("B".to_string(), "5".to_string())]);
    assert_eq!(
        b.process_envs.unwrap(),
        vec![
            ("A".to_string(), "3".to_string()),
            ("B".to_string(), "5".to_string()),
            ("C".to_string(), "4".to_string()),
        ]
    );
}

#[test]
fn default_table_has_all_entries() {
    let d = default_args();
    assert_eq!(d.len(), 24);
    assert_eq!(d[0].key, "disable-background-networking");
    assert_eq!(d[23].key, "lang");
    assert_eq!(d[23].values, &["en_US"]);
}

#[test]
fn chrome_detection_is_kept() {
    let o = DetectionOptions { msedge: false, unstable: true };
    let b = config().chrome_detection(o);
    assert_eq!(b.executation_detection, o);
}
