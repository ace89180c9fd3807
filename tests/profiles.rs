use chaser_oxide::{ChaserProfile, Gpu, Os};

#[test]
fn windows_user_agent_is_exact() {
    let p = ChaserProfile::windows().build();
    assert_eq!(
        p.user_agent(),
        "Mozilla/5.0 (Windows NT 10.0; Win64; x64) AppleWebKit/537.36 (KHTML, like Gecko) Chrome/129.0.0.0 Safari/537.36"
    );
    assert!(p.user_agent().contains("Windows NT 10.0"));
    assert!(p.user_agent().contains("129"));
}

#[test]
fn configured_version_appears_in_user_agent() {
    let p = ChaserProfile::windows().chrome_version(130).build();
    assert!(p.user_agent().contains("Chrome/130.0.0.0"));
    let l = ChaserProfile::linux().chrome_version(7).build();
    assert!(l.user_agent().contains("(X11; Linux x86_64)"));
    assert!(l.user_agent().contains("Chrome/7.0.0.0"));
}

#[test]
fn changing_gpu_changes_renderer_only() {
    let a = ChaserProfile::windows().build();
    let b = ChaserProfile::windows().gpu(Gpu::IntelIrisXe).build();
    assert_ne!(a.gpu().renderer(), b.gpu().renderer());
    assert_eq!(a.os().platform(), b.os().platform());
    assert_eq!(a.user_agent(), b.user_agent());
    assert_eq!(
        b.gpu().renderer(),
        "ANGLE (Intel, Intel(R) Iris(R) Xe Graphics Direct3D11 vs_5_0 ps_5_0)"
    );
    assert_eq!(b.gpu().vendor(), "Google Inc. (Intel)");
}

#[test]
fn presets_pick_their_gpu() {
    assert_eq!(ChaserProfile::macos_arm().build().gpu().renderer(), Gpu::AppleM4Max.renderer());
    assert_eq!(ChaserProfile::macos_intel().build().gpu().vendor(), "Google Inc. (Apple)");
    assert_eq!(ChaserProfile::linux().build().gpu().renderer(), Gpu::NvidiaGTX1660.renderer());
    assert_eq!(Os::MacOSArm.platform(), "MacIntel");
    assert_eq!(Os::MacOSIntel.hints_platform(), "macOS");
    assert_eq!(Os::Linux.platform(), "Linux x86_64");
    assert_eq!(Os::Windows.hints_platform(), "Windows");
}

#[test]
fn builder_settings_are_kept() {
    let p = ChaserProfile::new(Os::Windows)
        .chrome_version(130)
        .gpu(Gpu::NvidiaRTX4080)
        .memory_gb(32)
        .cpu_cores(16)
        .locale("de-DE")
        .timezone("Europe/Berlin")
        .screen(2560, 1440)
        .build();
    assert_eq!(p.chrome_version(), 130);
    assert_eq!(p.memory_gb(), 32);
    assert_eq!(p.cpu_cores(), 16);
    assert_eq!(p.locale(), "de-DE");
    assert_eq!(p.timezone(), "Europe/Berlin");
    assert_eq!(p.screen_width(), 2560);
    assert_eq!(p.screen_height(), 1440);
    let d = ChaserProfile::windows().build();
    assert_eq!(d.locale(), "en-US");
    assert_eq!(d.timezone(), "America/New_York");
    assert_eq!((d.screen_width(), d.screen_height()), (1920, 1080));
    assert_eq!((d.memory_gb(), d.cpu_cores()), (8, 8));
}

#[test]
fn script_carries_the_profile_values() {
    let p = ChaserProfile::windows().cpu_cores(12).memory_gb(16).gpu(Gpu::AmdRadeonRX6800).build();
    let s = p.bootstrap_script();
    assert!(s.contains("// Profile: Mozilla/5.0 (Windows NT 10.0;"));
    assert!(s.contains("get: () => 'Win32',"));
    assert!(s.contains("get: () => 12,"));
    assert!(s.contains("get: () => 16,"));
    assert!(s.contains("if (parameter === 37445) return 'Google Inc. (AMD)';"));
    assert!(s.contains("return 'ANGLE (AMD, AMD Radeon RX 6800 XT Direct3D11 vs_5_0 ps_5_0)';"));
    assert!(s.contains("{ brand: \"Google Chrome\", version: \"129\" }"));
    assert!(s.contains("platform: \"Windows\""));
    assert!(s.contains("if (hint === 'platform') values.platform = \"Windows\";"));
    assert!(s.contains("values.platformVersion = \"19.0.0\";"));
    assert!(s.contains("values.architecture = \"x86\";"));
    assert!(s.contains("Object.defineProperty(Object.getPrototypeOf(navigator), 'webdriver'"));
}

#[test]
fn script_wraps_workers_with_itself() {
    let p = ChaserProfile::macos_arm().build();
    let s = p.bootstrap_script();
    let start = "\n            (function() {";
    assert!(s.starts_with(start));
    assert!(s.contains("const WrappedWorker = function (url, options) {"));
    assert!(s.contains("window.Worker = WrappedWorker;"));
    assert_eq!(s.matches("// === chaser-oxide HARDWARE HARMONY ===").count(), 2);
    let inner = s.split("const injectedCode = `").nth(1).unwrap();
    assert!(inner.starts_with(start));
    assert!(s.trim_end().ends_with("})();"));
}

#[test]
fn script_is_deterministic() {
    let a = ChaserProfile::linux().build().bootstrap_script();
    let b = ChaserProfile::linux().build().bootstrap_script();
    assert_eq!(a, b);
}

#[test]
fn summary_names_os_version_and_gpu() {
    let p = ChaserProfile::windows().build();
    assert_eq!(p.summary(), "ChaserProfile(Windows, Chrome 129, NvidiaRTX3080)");
    let d: ChaserProfile = Default::default();
    assert_eq!(d.summary(), p.summary());
    let m = ChaserProfile::macos_arm().chrome_version(131).build();
    assert_eq!(m.summary(), "ChaserProfile(MacOSArm, Chrome 131, AppleM4Max)");
}

fn template_value(body: &str) -> String {
    let mut out = String::new();
    let mut chars = body.chars();
    while let Some(c) = chars.next() {
        if c == '\\' {
            match chars.next() {
                Some('r') => out.push('\r'),
                Some(n) => out.push(n),
                None => panic!("dangling escape"),
            }
        } else {
            assert!(c != '`' && c != '$');
            out.push(c);
        }
    }
    out
}

#[test]
fn workers_receive_the_identical_page_script() {
    let s = ChaserProfile::windows().build().bootstrap_script();
    let opening = chaser_oxide::profiles::WORKER_OPENING;
    let closing = chaser_oxide::profiles::WORKER_CLOSING;
    let at = s.find(opening).unwrap();
    let page = &s[..at];
    assert!(s.ends_with(closing));
    let body = &s[at + opening.len()..s.len() - closing.len()];
    assert!(page.contains("^\\$cdc_"));
    assert!(body.contains("^\\\\\\$cdc_"));
    assert_eq!(template_value(body), page);
}

#[test]
fn worker_wrapper_is_scoped_and_guarded() {
    let s = ChaserProfile::linux().build().bootstrap_script();
    let opening = chaser_oxide::profiles::WORKER_OPENING;
    assert!(opening.trim_start().starts_with("(function() {"));
    assert!(opening.contains("if (typeof window.Worker !== 'function' || window.Worker[marker]) {"));
    assert!(s.contains("Object.defineProperty(WrappedWorker, marker, { value: true });"));
    assert!(!s.contains("\n                const OriginalWorker = Worker;"));
}

#[test]
fn high_entropy_answers_follow_the_os() {
    let arm = ChaserProfile::macos_arm().build().bootstrap_script();
    assert!(arm.contains("platform: \"macOS\""));
    assert!(arm.contains("if (hint === 'platform') values.platform = \"macOS\";"));
    assert!(arm.contains("values.architecture = \"arm\";"));
    assert!(arm.contains("values.platformVersion = \"14.5.0\";"));
    let linux = ChaserProfile::linux().build().bootstrap_script();
    assert!(linux.contains("if (hint === 'platform') values.platform = \"Linux\";"));
    assert!(linux.contains("values.architecture = \"x86\";"));
    assert_eq!(Os::MacOSArm.architecture(), "arm");
    assert_eq!(Os::Linux.platform_version(), "6.5.0");
}
