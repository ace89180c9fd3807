use chaser_oxide::{Arg, ArgConst, ArgsBuilder};

fn tokens(b: ArgsBuilder) -> Vec<String> {
    b.into_iter()
}

#[test]
fn bare_flag_renders_without_values() {
    let mut b = ArgsBuilder::new();
    b.arg(Arg::key("headless"));
    assert_eq!(tokens(b), vec!["--headless".to_string()]);
}

#[test]
fn values_render_joined_by_commas() {
    let mut b = ArgsBuilder::new();
    b.arg(Arg::values("window-size", vec!["800".to_string(), "600".to_string()]));
    assert_eq!(tokens(b), vec!["--window-size=800,600".to_string()]);
}

#[test]
fn override_appends_to_default_values() {
    let mut b = ArgsBuilder::new();
    b.args(vec![
        Arg::from_const(ArgConst::values("disable-features", &["TranslateUI"])),
        Arg::key("no-first-run"),
    ]);
    b.args(vec![Arg::value("disable-features", "HttpsUpgrades")]);
    let t = tokens(b);
    assert_eq!(
        t,
        vec![
            "--disable-features=TranslateUI,HttpsUpgrades".to_string(),
            "--no-first-run".to_string(),
        ]
    );
}

#[test]
fn repeated_key_keeps_one_entry_in_first_place() {
    let mut b = ArgsBuilder::new();
    b.arg(Arg::value("lang", "en_US"));
    b.arg(Arg::key("mute-audio"));
    b.arg(Arg::value("lang", "de_DE"));
    b.arg(Arg::key("mute-audio"));
    assert!(b.has("lang"));
    assert!(b.has("mute-audio"));
    assert!(!b.has("incognito"));
    assert_eq!(
        tokens(b),
        vec!["--lang=en_US,de_DE".to_string(), "--mute-audio".to_string()]
    );
}

#[test]
fn empty_builder_renders_nothing() {
    let b = ArgsBuilder::new();
    assert!(!b.has(""));
    assert!(tokens(b).is_empty());
}

#[test]
fn const_flag_converts_to_owned() {
    let a = Arg::from_const(ArgConst::key("disable-sync"));
    assert_eq!(a.key, "disable-sync");
    assert!(a.values.is_empty());
    let v = Arg::from_const(ArgConst::values("enable-features", &["A", "B"]));
    assert_eq!(v.values, vec!["A".to_string(), "B".to_string()]);
}
