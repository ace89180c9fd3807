//! Fingerprint profiles: a consistent synthetic identity (OS, GPU, hardware,
//! browser version) and the script that installs it in every page and worker.
use vstd::prelude::*;

use crate::text::{
    contains, decimal, decimal_string, escape_template, lemma_template_round_trip, matches_at,
    template_escaped, template_plain, template_value,
};

verus! {

/// GPU presets for WebGL spoofing.
#[derive(Debug, Clone, Copy, PartialEq, Eq, Structural)]
pub enum Gpu {
    /// NVIDIA GeForce RTX 3080.
    NvidiaRTX3080,
    /// NVIDIA GeForce RTX 4080.
    NvidiaRTX4080,
    /// NVIDIA GeForce GTX 1660.
    NvidiaGTX1660,
    /// Intel UHD Graphics 630.
    IntelUHD630,
    /// Intel Iris Xe.
    IntelIrisXe,
    /// Apple M1 Pro.
    AppleM1Pro,
    /// Apple M2 Max.
    AppleM2Max,
    /// Apple M4 Max.
    AppleM4Max,
    /// AMD Radeon RX 6800.
    AmdRadeonRX6800,
}

/// The WebGL vendor string of a GPU.
pub open spec fn vendor_text(g: Gpu) -> Seq<char> {
    match g {
        Gpu::NvidiaRTX3080 | Gpu::NvidiaRTX4080 | Gpu::NvidiaGTX1660 => "Google Inc. (NVIDIA)"@,
        Gpu::IntelUHD630 | Gpu::IntelIrisXe => "Google Inc. (Intel)"@,
        Gpu::AppleM1Pro | Gpu::AppleM2Max | Gpu::AppleM4Max => "Google Inc. (Apple)"@,
        Gpu::AmdRadeonRX6800 => "Google Inc. (AMD)"@,
    }
}

/// The WebGL renderer string of a GPU.
pub open spec fn renderer_text(g: Gpu) -> Seq<char> {
    match g {
        Gpu::NvidiaRTX3080 => "ANGLE (NVIDIA, NVIDIA GeForce RTX 3080 Direct3D11 vs_5_0 ps_5_0)"@,
        Gpu::NvidiaRTX4080 => "ANGLE (NVIDIA, NVIDIA GeForce RTX 4080 Direct3D11 vs_5_0 ps_5_0)"@,
        Gpu::NvidiaGTX1660 => "ANGLE (NVIDIA, NVIDIA GeForce GTX 1660 SUPER Direct3D11 vs_5_0 ps_5_0)"@,
        Gpu::IntelUHD630 => "ANGLE (Intel, Intel(R) UHD Graphics 630 Direct3D11 vs_5_0 ps_5_0)"@,
        Gpu::IntelIrisXe => "ANGLE (Intel, Intel(R) Iris(R) Xe Graphics Direct3D11 vs_5_0 ps_5_0)"@,
        Gpu::AppleM1Pro => "ANGLE (Apple, Apple M1 Pro, OpenGL 4.1)"@,
        Gpu::AppleM2Max => "ANGLE (Apple, Apple M2 Max, OpenGL 4.1)"@,
        Gpu::AppleM4Max => "ANGLE (Apple, ANGLE Metal Renderer: Apple M4 Max, Unspecified Version)"@,
        Gpu::AmdRadeonRX6800 => "ANGLE (AMD, AMD Radeon RX 6800 XT Direct3D11 vs_5_0 ps_5_0)"@,
    }
}

impl Gpu {
    /// The WebGL vendor string.
    pub fn vendor(&self) -> (r: &'static str)
        ensures
            r@ == vendor_text(*self),
    {
        match self {
            Gpu::NvidiaRTX3080 | Gpu::NvidiaRTX4080 | Gpu::NvidiaGTX1660 => "Google Inc. (NVIDIA)",
            Gpu::IntelUHD630 | Gpu::IntelIrisXe => "Google Inc. (Intel)",
            Gpu::AppleM1Pro | Gpu::AppleM2Max | Gpu::AppleM4Max => "Google Inc. (Apple)",
            Gpu::AmdRadeonRX6800 => "Google Inc. (AMD)",
        }
    }

    /// The WebGL renderer string.
    pub fn renderer(&self) -> (r: &'static str)
        ensures
            r@ == renderer_text(*self),
    {
        match self {
            Gpu::NvidiaRTX3080 => "ANGLE (NVIDIA, NVIDIA GeForce RTX 3080 Direct3D11 vs_5_0 ps_5_0)",
            Gpu::NvidiaRTX4080 => "ANGLE (NVIDIA, NVIDIA GeForce RTX 4080 Direct3D11 vs_5_0 ps_5_0)",
            Gpu::NvidiaGTX1660 => "ANGLE (NVIDIA, NVIDIA GeForce GTX 1660 SUPER Direct3D11 vs_5_0 ps_5_0)",
            Gpu::IntelUHD630 => "ANGLE (Intel, Intel(R) UHD Graphics 630 Direct3D11 vs_5_0 ps_5_0)",
            Gpu::IntelIrisXe => "ANGLE (Intel, Intel(R) Iris(R) Xe Graphics Direct3D11 vs_5_0 ps_5_0)",
            Gpu::AppleM1Pro => "ANGLE (Apple, Apple M1 Pro, OpenGL 4.1)",
            Gpu::AppleM2Max => "ANGLE (Apple, Apple M2 Max, OpenGL 4.1)",
            Gpu::AppleM4Max => "ANGLE (Apple, ANGLE Metal Renderer: Apple M4 Max, Unspecified Version)",
            Gpu::AmdRadeonRX6800 => "ANGLE (AMD, AMD Radeon RX 6800 XT Direct3D11 vs_5_0 ps_5_0)",
        }
    }
}

/// Operating system presets.
#[derive(Debug, Clone, Copy, PartialEq, Eq, Structural)]
pub enum Os {
    /// Windows 10/11, 64-bit.
    Windows,
    /// macOS on Intel.
    MacOSIntel,
    /// macOS on Apple Silicon.
    MacOSArm,
    /// Linux x86_64.
    Linux,
}

/// The `navigator.platform` value of an OS.
pub open spec fn platform_text(os: Os) -> Seq<char> {
    match os {
        Os::Windows => "Win32"@,
        Os::MacOSIntel | Os::MacOSArm => "MacIntel"@,
        Os::Linux => "Linux x86_64"@,
    }
}

/// The client-hints platform of an OS.
pub open spec fn hints_platform_text(os: Os) -> Seq<char> {
    match os {
        Os::Windows => "Windows"@,
        Os::MacOSIntel | Os::MacOSArm => "macOS"@,
        Os::Linux => "Linux"@,
    }
}

/// The client-hints platform version of an OS.
pub open spec fn platform_version_text(os: Os) -> Seq<char> {
    match os {
        Os::Windows => "19.0.0"@,
        Os::MacOSIntel | Os::MacOSArm => "14.5.0"@,
        Os::Linux => "6.5.0"@,
    }
}

/// The client-hints CPU architecture of an OS preset.
pub open spec fn architecture_text(os: Os) -> Seq<char> {
    match os {
        Os::MacOSArm => "arm"@,
        Os::Windows | Os::MacOSIntel | Os::Linux => "x86"@,
    }
}

/// The system part of the user agent of an OS.
pub open spec fn ua_system_text(os: Os) -> Seq<char> {
    match os {
        Os::Windows => "Windows NT 10.0; Win64; x64"@,
        Os::MacOSIntel | Os::MacOSArm => "Macintosh; Intel Mac OS X 10_15_7"@,
        Os::Linux => "X11; Linux x86_64"@,
    }
}

impl Os {
    /// The `navigator.platform` value.
    pub fn platform(&self) -> (r: &'static str)
        ensures
            r@ == platform_text(*self),
    {
        match self {
            Os::Windows => "Win32",
            Os::MacOSIntel | Os::MacOSArm => "MacIntel",
            Os::Linux => "Linux x86_64",
        }
    }

    /// The client-hints platform.
    pub fn hints_platform(&self) -> (r: &'static str)
        ensures
            r@ == hints_platform_text(*self),
    {
        match self {
            Os::Windows => "Windows",
            Os::MacOSIntel | Os::MacOSArm => "macOS",
            Os::Linux => "Linux",
        }
    }

    /// The client-hints platform version.
    pub fn platform_version(&self) -> (r: &'static str)
        ensures
            r@ == platform_version_text(*self),
    {
        match self {
            Os::Windows => "19.0.0",
            Os::MacOSIntel | Os::MacOSArm => "14.5.0",
            Os::Linux => "6.5.0",
        }
    }

    /// The client-hints CPU architecture.
    pub fn architecture(&self) -> (r: &'static str)
        ensures
            r@ == architecture_text(*self),
    {
        match self {
            Os::MacOSArm => "arm",
            Os::Windows | Os::MacOSIntel | Os::Linux => "x86",
        }
    }

    fn ua_system(&self) -> (r: &'static str)
        ensures
            r@ == ua_system_text(*self),
    {
        match self {
            Os::Windows => "Windows NT 10.0; Win64; x64",
            Os::MacOSIntel | Os::MacOSArm => "Macintosh; Intel Mac OS X 10_15_7",
            Os::Linux => "X11; Linux x86_64",
        }
    }
}

/// The GPU an OS preset starts with.
pub open spec fn default_gpu(os: Os) -> Gpu {
    match os {
        Os::Windows => Gpu::NvidiaRTX3080,
        Os::MacOSIntel => Gpu::AppleM1Pro,
        Os::MacOSArm => Gpu::AppleM4Max,
        Os::Linux => Gpu::NvidiaGTX1660,
    }
}

/// What a profile is.
pub struct ProfileModel {
    pub os: Os,
    pub chrome_version: u32,
    pub gpu: Gpu,
    pub memory_gb: u32,
    pub cpu_cores: u32,
    pub locale: Seq<char>,
    pub timezone: Seq<char>,
    pub screen_width: u32,
    pub screen_height: u32,
}

/// The profile an OS preset starts from.
pub open spec fn preset(os: Os) -> ProfileModel {
    ProfileModel {
        os,
        chrome_version: 129,
        gpu: default_gpu(os),
        memory_gb: 8,
        cpu_cores: 8,
        locale: "en-US"@,
        timezone: "America/New_York"@,
        screen_width: 1920,
        screen_height: 1080,
    }
}

/// The user agent of a profile.
pub open spec fn user_agent_text(m: ProfileModel) -> Seq<char> {
    "Mozilla/5.0 ("@ + ua_system_text(m.os) + ") AppleWebKit/537.36 (KHTML, like Gecko) Chrome/"@
        + decimal(m.chrome_version as nat) + ".0.0.0 Safari/537.36"@
}

/// Opens the script, up to the profile comment.
pub const SCRIPT_OPENING: &'static str = r#"
            (function() {
                // === chaser-oxide HARDWARE HARMONY ===
                // Profile: "#;

/// Marker cleanup and stack-trace guard, up to the platform value.
pub const SCRIPT_BEFORE_PLATFORM: &'static str = r#"

                // 0. CDP Marker Cleanup (run once at startup)
                for (const prop of Object.getOwnPropertyNames(window)) {
                    if (/^cdc_|^\$cdc_|^__webdriver|^__selenium|^__driver|^\$chrome_/.test(prop)) {
                        try { delete window[prop]; } catch(e) {}
                    }
                }

                // Prevent CDP detection via Error.prepareStackTrace
                const OriginalError = Error;  
                const originalPrepareStackTrace = Error.prepareStackTrace;    
                let currentPrepareStackTrace = originalPrepareStackTrace;    
                Object.defineProperty(Error, 'prepareStackTrace', {    
                    get() {
                        return currentPrepareStackTrace;   
                    },  
                    set(fn) { 
                        // do nothing to prevent detection of CDP
                    },    
                    configurable: true,    
                    enumerable: false  
                });

                // 1. Platform (on prototype to avoid getOwnPropertyNames detection)
                Object.defineProperty(Navigator.prototype, 'platform', {
                    get: () => '"#;

/// Up to the logical core count.
pub const SCRIPT_BEFORE_CORES: &'static str = r#"',
                    configurable: true
                });

                // 2. Hardware (on prototype)
                Object.defineProperty(Navigator.prototype, 'hardwareConcurrency', {
                    get: () => "#;

/// Up to the device memory.
pub const SCRIPT_BEFORE_MEMORY: &'static str = r#",
                    configurable: true
                });
                Object.defineProperty(Navigator.prototype, 'deviceMemory', {
                    get: () => "#;

/// Up to the WebGL vendor.
pub const SCRIPT_BEFORE_VENDOR: &'static str = r#",
                    configurable: true
                });
                Object.defineProperty(Navigator.prototype, 'maxTouchPoints', {
                    get: () => 0,
                    configurable: true
                });

                // 3. WebGL
                const spoofWebGL = (proto) => {
                    const getParameter = proto.getParameter;
                    proto.getParameter = function(parameter) {
                        if (parameter === 37445) return '"#;

/// Up to the WebGL renderer.
pub const SCRIPT_BEFORE_RENDERER: &'static str = r#"';
                        if (parameter === 37446) return '"#;

/// Up to the Chrome brand version.
pub const SCRIPT_BEFORE_BRAND_VERSION: &'static str = r#"';
                        return getParameter.apply(this, arguments);
                    };
                };
                spoofWebGL(WebGLRenderingContext.prototype);
                if (typeof WebGL2RenderingContext !== 'undefined') {
                    spoofWebGL(WebGL2RenderingContext.prototype);
                }

                // 4. Client Hints (on prototype)
                Object.defineProperty(Navigator.prototype, 'userAgentData', {
                    get: () => ({
                        brands: [
                            { brand: "Google Chrome", version: ""#;

/// Up to the Chromium brand version.
pub const SCRIPT_BEFORE_CHROMIUM_VERSION: &'static str = r#"" },
                            { brand: "Chromium", version: ""#;

/// Up to the client-hints platform.
pub const SCRIPT_BEFORE_HINTS_PLATFORM: &'static str = r#"" },
                            { brand: "Not=A?Brand", version: "24" }
                        ],
                        mobile: false,
                        platform: ""#;

/// Up to the platform of the high-entropy values.
pub const SCRIPT_BEFORE_ENTROPY_PLATFORM: &'static str = r#""
                    }),
                    configurable: true
                });

                Object.defineProperty(Navigator.prototype.userAgentData.__proto__, 'getHighEntropyValues', {
                    value: async function(hints) {
                        const values = {};
                        for (const hint of hints) {
                            if (hint === 'platform') values.platform = ""#;

/// Up to the platform version of the high-entropy values.
pub const SCRIPT_BEFORE_PLATFORM_VERSION: &'static str = r#"";
                            else if (hint === 'platformVersion') values.platformVersion = ""#;

/// Up to the architecture of the high-entropy values.
pub const SCRIPT_BEFORE_ARCHITECTURE: &'static str = r#"";
                            else if (hint === 'architecture') values.architecture = ""#;

/// Codecs, webdriver flag and chrome object; closes the script.
pub const SCRIPT_CLOSING: &'static str = r#"";
                            else if (hint === 'model') values.model = "";
                            else if (hint === 'bitness') values.bitness = "64";
                        }
                        return values;

                    },
                    configurable: true
                });

                // 5. Video Codecs
                const canPlayType = HTMLMediaElement.prototype.canPlayType;
                HTMLMediaElement.prototype.canPlayType = function(type) {
                    if (type.includes('avc1')) return 'probably';
                    if (type.includes('mp4a.40')) return 'probably';
                    if (type === 'video/mp4') return 'probably';
                    return canPlayType.apply(this, arguments);
                };

                // 6. WebDriver (set to false instead of delete - more realistic)
                Object.defineProperty(Object.getPrototypeOf(navigator), 'webdriver', {
                    get: () => false,
                    configurable: true,
                    enumerable: true
                });

                // 7. Chrome Object (enhanced with runtime APIs)
                if (!window.chrome) {
                    window.chrome = {};
                }
                if (!window.chrome.runtime) {
                    window.chrome.runtime = {};
                }
                
                // Chrome Runtime APIs (required by Turnstile)
                if (!window.chrome.runtime.connect) {
                    window.chrome.runtime.connect = function() {
                        return {
                            name: '',
                            sender: undefined,
                            onDisconnect: { 
                                addListener: function() {}, 
                                removeListener: function() {},
                                hasListener: function() { return false; },
                                hasListeners: function() { return false; }
                            },
                            onMessage: { 
                                addListener: function() {}, 
                                removeListener: function() {},
                                hasListener: function() { return false; },
                                hasListeners: function() { return false; }
                            },
                            postMessage: function() {},
                            disconnect: function() {}
                        };
                    };
                }
                if (!window.chrome.runtime.sendMessage) {
                    window.chrome.runtime.sendMessage = function() { return; };
                }

                // Chrome CSI (Chrome Speed Index) - some sites check this
                if (!window.chrome.csi) {
                    window.chrome.csi = function() {
                        const now = Date.now();
                        return { 
                            startE: now, 
                            onloadT: now, 
                            pageT: now, 
                            tran: 15 
                        };
                    };
                }

                // Chrome loadTimes (deprecated but still checked)
                if (!window.chrome.loadTimes) {
                    window.chrome.loadTimes = function() {
                        const now = Date.now() / 1000;
                        return {
                            requestTime: now,
                            startLoadTime: now,
                            commitLoadTime: now,
                            finishDocumentLoadTime: now,
                            finishLoadTime: now,
                            firstPaintTime: now,
                            firstPaintAfterLoadTime: 0,
                            navigationType: "Other",
                            wasFetchedViaSpdy: false,
                            wasNpnNegotiated: false,
                            npnNegotiatedProtocol: "",
                            wasAlternateProtocolAvailable: false,
                            connectionInfo: "http/1.1"
                        };
                    };
                }

                // Chrome app object
                if (!window.chrome.app) {
                    window.chrome.app = {
                        isInstalled: false,
                        InstallState: { 
                            DISABLED: 'disabled', 
                            INSTALLED: 'installed', 
                            NOT_INSTALLED: 'not_installed' 
                        },
                        RunningState: { 
                            CANNOT_RUN: 'cannot_run', 
                            READY_TO_RUN: 'ready_to_run', 
                            RUNNING: 'running' 
                        },
                        getDetails: function() { return null; },
                        getIsInstalled: function() { return false; }
                    };
                }
            })();
        "#;

/// Opens the worker wrapper, up to the embedded script.
pub const WORKER_OPENING: &'static str = r#"
            (function() {
                // Wrap Worker once: a second run finds the marker and stops.
                const marker = Symbol.for('chaser.worker');
                if (typeof window.Worker !== 'function' || window.Worker[marker]) {
                    return;
                }
                const OriginalWorker = window.Worker;
                const WrappedWorker = function (url, options) {
                    const injectedCode = `"#;

/// Closes the worker wrapper.
pub const WORKER_CLOSING: &'static str = r#"`;
                    const workerPromise = fetch(url)
                        .then((res) => res.text())
                        .then((code) => {
                            const blob = new Blob([injectedCode + code], {
                                type: "application/javascript",
                            });
                            return new OriginalWorker(URL.createObjectURL(blob), options);
                        });

                    let realWorker = null;
                    const pendingMessages = [];
                    workerPromise.then((w) => {
                        realWorker = w;
                        pendingMessages.forEach((msg) => w.postMessage(msg));
                    });
                    return {
                        postMessage(msg) {
                            if (realWorker) {
                                realWorker.postMessage(msg);
                            } else {
                                pendingMessages.push(msg);
                            }
                        },
                        set onmessage(fn) {
                            workerPromise.then((w) => (w.onmessage = fn));
                        },
                        terminate() {
                            workerPromise.then((w) => w.terminate());
                        },
                    };
                };
                Object.defineProperty(WrappedWorker, marker, { value: true });
                window.Worker = WrappedWorker;
            })();
            "#;

/// The script that installs a profile in the page it runs in.
pub open spec fn page_script_text(m: ProfileModel) -> Seq<char> {
    SCRIPT_OPENING@ + user_agent_text(m) + SCRIPT_BEFORE_PLATFORM@ + platform_text(m.os)
        + SCRIPT_BEFORE_CORES@ + decimal(m.cpu_cores as nat) + SCRIPT_BEFORE_MEMORY@ + decimal(
        m.memory_gb as nat,
    ) + SCRIPT_BEFORE_VENDOR@ + vendor_text(m.gpu) + SCRIPT_BEFORE_RENDERER@ + renderer_text(m.gpu)
        + SCRIPT_BEFORE_BRAND_VERSION@ + decimal(m.chrome_version as nat)
        + SCRIPT_BEFORE_CHROMIUM_VERSION@ + decimal(m.chrome_version as nat)
        + SCRIPT_BEFORE_HINTS_PLATFORM@ + hints_platform_text(m.os) + SCRIPT_BEFORE_ENTROPY_PLATFORM@
        + hints_platform_text(m.os) + SCRIPT_BEFORE_PLATFORM_VERSION@ + platform_version_text(m.os)
        + SCRIPT_BEFORE_ARCHITECTURE@ + architecture_text(m.os) + SCRIPT_CLOSING@
}

/// The page script followed by the worker wrapper, which prefixes the same
/// page script to the source of every worker the page creates. The wrapper
/// holds the page script as the body of a template literal, escaped so that
/// the literal denotes the page script itself.
pub open spec fn bootstrap_text(m: ProfileModel) -> Seq<char> {
    page_script_text(m) + WORKER_OPENING@ + template_escaped(page_script_text(m))
        + WORKER_CLOSING@
}

/// The worker wrapper hands every worker exactly the page script: its
/// template literal body is made of plain characters and escapes only, and
/// denotes the page script.
pub proof fn law_workers_get_page_script(m: ProfileModel)
    ensures
        ({
            let page = page_script_text(m);
            let body = template_escaped(page);
            &&& bootstrap_text(m) == page + WORKER_OPENING@ + body + WORKER_CLOSING@
            &&& template_plain(body)
            &&& template_value(body) == page
        }),
{
    lemma_template_round_trip(page_script_text(m));
}

/// The user agent of a Windows profile holds the Windows system token and the
/// configured Chrome version.
pub proof fn law_windows_user_agent(m: ProfileModel)
    requires
        m.os == Os::Windows,
    ensures
        contains(user_agent_text(m), "Windows NT 10.0; Win64; x64"@),
        contains(user_agent_text(m), decimal(m.chrome_version as nat)),
{
    let a = "Mozilla/5.0 ("@;
    let b = ua_system_text(m.os);
    let c = ") AppleWebKit/537.36 (KHTML, like Gecko) Chrome/"@;
    let d = decimal(m.chrome_version as nat);
    let e = ".0.0.0 Safari/537.36"@;
    let ua = user_agent_text(m);
    assert(ua == a + b + c + d + e);
    assert(ua.subrange(a.len() as int, (a.len() + b.len()) as int) =~= b);
    assert(matches_at(ua, b, a.len() as int));
    let k = (a.len() + b.len() + c.len()) as int;
    assert(ua.subrange(k, k + d.len() as int) =~= d);
    assert(matches_at(ua, d, k));
}

/// Two different GPUs report different WebGL renderers.
pub proof fn lemma_renderers_distinct(g1: Gpu, g2: Gpu)
    requires
        g1 != g2,
    ensures
        renderer_text(g1) != renderer_text(g2),
{
    reveal_strlit("ANGLE (NVIDIA, NVIDIA GeForce RTX 3080 Direct3D11 vs_5_0 ps_5_0)");
    reveal_strlit("ANGLE (NVIDIA, NVIDIA GeForce RTX 4080 Direct3D11 vs_5_0 ps_5_0)");
    reveal_strlit("ANGLE (NVIDIA, NVIDIA GeForce GTX 1660 SUPER Direct3D11 vs_5_0 ps_5_0)");
    reveal_strlit("ANGLE (Intel, Intel(R) UHD Graphics 630 Direct3D11 vs_5_0 ps_5_0)");
    reveal_strlit("ANGLE (Intel, Intel(R) Iris(R) Xe Graphics Direct3D11 vs_5_0 ps_5_0)");
    reveal_strlit("ANGLE (Apple, Apple M1 Pro, OpenGL 4.1)");
    reveal_strlit("ANGLE (Apple, Apple M2 Max, OpenGL 4.1)");
    reveal_strlit("ANGLE (Apple, ANGLE Metal Renderer: Apple M4 Max, Unspecified Version)");
    reveal_strlit("ANGLE (AMD, AMD Radeon RX 6800 XT Direct3D11 vs_5_0 ps_5_0)");
    let r1 = renderer_text(g1);
    let r2 = renderer_text(g2);
    if r1.len() == r2.len() {
        assert(r1[7] != r2[7] || r1[13] != r2[13] || r1[16] != r2[16] || r1[35] != r2[35]
            || r1[21] != r2[21] || r1[34] != r2[34]);
    }
}

/// Changing only the GPU of a profile changes the WebGL renderer it reports
/// and leaves its platform, client-hints platform and user agent as they were.
pub proof fn law_gpu_changes_only_renderer(m: ProfileModel, g: Gpu)
    requires
        g != m.gpu,
    ensures
        ({
            let n = ProfileModel { gpu: g, ..m };
            &&& renderer_text(n.gpu) != renderer_text(m.gpu)
            &&& platform_text(n.os) == platform_text(m.os)
            &&& hints_platform_text(n.os) == hints_platform_text(m.os)
            &&& user_agent_text(n) == user_agent_text(m)
        }),
{
    lemma_renderers_distinct(g, m.gpu);
}

/// The name of an OS preset.
pub open spec fn os_name(os: Os) -> Seq<char> {
    match os {
        Os::Windows => "Windows"@,
        Os::MacOSIntel => "MacOSIntel"@,
        Os::MacOSArm => "MacOSArm"@,
        Os::Linux => "Linux"@,
    }
}

/// The name of a GPU preset.
pub open spec fn gpu_name(g: Gpu) -> Seq<char> {
    match g {
        Gpu::NvidiaRTX3080 => "NvidiaRTX3080"@,
        Gpu::NvidiaRTX4080 => "NvidiaRTX4080"@,
        Gpu::NvidiaGTX1660 => "NvidiaGTX1660"@,
        Gpu::IntelUHD630 => "IntelUHD630"@,
        Gpu::IntelIrisXe => "IntelIrisXe"@,
        Gpu::AppleM1Pro => "AppleM1Pro"@,
        Gpu::AppleM2Max => "AppleM2Max"@,
        Gpu::AppleM4Max => "AppleM4Max"@,
        Gpu::AmdRadeonRX6800 => "AmdRadeonRX6800"@,
    }
}

impl Os {
    /// The name of this preset.
    pub fn name(&self) -> (r: &'static str)
        ensures
            r@ == os_name(*self),
    {
        match self {
            Os::Windows => "Windows",
            Os::MacOSIntel => "MacOSIntel",
            Os::MacOSArm => "MacOSArm",
            Os::Linux => "Linux",
        }
    }
}

impl Gpu {
    /// The name of this preset.
    pub fn name(&self) -> (r: &'static str)
        ensures
            r@ == gpu_name(*self),
    {
        match self {
            Gpu::NvidiaRTX3080 => "NvidiaRTX3080",
            Gpu::NvidiaRTX4080 => "NvidiaRTX4080",
            Gpu::NvidiaGTX1660 => "NvidiaGTX1660",
            Gpu::IntelUHD630 => "IntelUHD630",
            Gpu::IntelIrisXe => "IntelIrisXe",
            Gpu::AppleM1Pro => "AppleM1Pro",
            Gpu::AppleM2Max => "AppleM2Max",
            Gpu::AppleM4Max => "AppleM4Max",
            Gpu::AmdRadeonRX6800 => "AmdRadeonRX6800",
        }
    }
}

/// The one-line description of a profile.
pub open spec fn summary_text(m: ProfileModel) -> Seq<char> {
    "ChaserProfile("@ + os_name(m.os) + ", Chrome "@ + decimal(m.chrome_version as nat) + ", "@
        + gpu_name(m.gpu) + ")"@
}

/// A frozen fingerprint profile.
#[derive(Debug, Clone)]
pub struct ChaserProfile {
    os: Os,
    chrome_version: u32,
    gpu: Gpu,
    memory_gb: u32,
    cpu_cores: u32,
    locale: String,
    timezone: String,
    screen_width: u32,
    screen_height: u32,
}

/// Collects the settings of a profile.
#[derive(Debug, Clone)]
pub struct ChaserProfileBuilder {
    os: Os,
    chrome_version: u32,
    gpu: Gpu,
    memory_gb: u32,
    cpu_cores: u32,
    locale: String,
    timezone: String,
    screen_width: u32,
    screen_height: u32,
}

impl View for ChaserProfile {
    type V = ProfileModel;

    closed spec fn view(&self) -> ProfileModel {
        ProfileModel {
            os: self.os,
            chrome_version: self.chrome_version,
            gpu: self.gpu,
            memory_gb: self.memory_gb,
            cpu_cores: self.cpu_cores,
            locale: self.locale@,
            timezone: self.timezone@,
            screen_width: self.screen_width,
            screen_height: self.screen_height,
        }
    }
}

impl View for ChaserProfileBuilder {
    type V = ProfileModel;

    closed spec fn view(&self) -> ProfileModel {
        ProfileModel {
            os: self.os,
            chrome_version: self.chrome_version,
            gpu: self.gpu,
            memory_gb: self.memory_gb,
            cpu_cores: self.cpu_cores,
            locale: self.locale@,
            timezone: self.timezone@,
            screen_width: self.screen_width,
            screen_height: self.screen_height,
        }
    }
}

impl ChaserProfile {
    /// A builder starting from the preset of `os`.
    pub fn new(os: Os) -> (r: ChaserProfileBuilder)
        ensures
            r@ == preset(os),
    {
        let gpu = match os {
            Os::Windows => Gpu::NvidiaRTX3080,
            Os::MacOSIntel => Gpu::AppleM1Pro,
            Os::MacOSArm => Gpu::AppleM4Max,
            Os::Linux => Gpu::NvidiaGTX1660,
        };
        ChaserProfileBuilder {
            os,
            chrome_version: 129,
            gpu,
            memory_gb: 8,
            cpu_cores: 8,
            locale: String::from_str("en-US"),
            timezone: String::from_str("America/New_York"),
            screen_width: 1920,
            screen_height: 1080,
        }
    }

    /// The Windows preset: RTX 3080, 8 cores, 8 GB.
    pub fn windows() -> (r: ChaserProfileBuilder)
        ensures
            r@ == preset(Os::Windows),
    {
        Self::new(Os::Windows)
    }

    /// The macOS preset on Intel.
    pub fn macos_intel() -> (r: ChaserProfileBuilder)
        ensures
            r@ == preset(Os::MacOSIntel),
    {
        Self::new(Os::MacOSIntel).gpu(Gpu::AppleM1Pro)
    }

    /// The macOS preset on Apple Silicon.
    pub fn macos_arm() -> (r: ChaserProfileBuilder)
        ensures
            r@ == preset(Os::MacOSArm),
    {
        Self::new(Os::MacOSArm).gpu(Gpu::AppleM4Max)
    }

    /// The Linux preset.
    pub fn linux() -> (r: ChaserProfileBuilder)
        ensures
            r@ == preset(Os::Linux),
    {
        Self::new(Os::Linux)
    }

    pub fn os(&self) -> (r: Os)
        ensures
            r == self@.os,
    {
        self.os
    }

    pub fn chrome_version(&self) -> (r: u32)
        ensures
            r == self@.chrome_version,
    {
        self.chrome_version
    }

    pub fn gpu(&self) -> (r: Gpu)
        ensures
            r == self@.gpu,
    {
        self.gpu
    }

    pub fn memory_gb(&self) -> (r: u32)
        ensures
            r == self@.memory_gb,
    {
        self.memory_gb
    }

    pub fn cpu_cores(&self) -> (r: u32)
        ensures
            r == self@.cpu_cores,
    {
        self.cpu_cores
    }

    pub fn locale(&self) -> (r: &str)
        ensures
            r@ == self@.locale,
    {
        self.locale.as_str()
    }

    pub fn timezone(&self) -> (r: &str)
        ensures
            r@ == self@.timezone,
    {
        self.timezone.as_str()
    }

    pub fn screen_width(&self) -> (r: u32)
        ensures
            r == self@.screen_width,
    {
        self.screen_width
    }

    pub fn screen_height(&self) -> (r: u32)
        ensures
            r == self@.screen_height,
    {
        self.screen_height
    }

    /// A one-line description: OS, Chrome version and GPU.
    pub fn summary(&self) -> (r: String)
        ensures
            r@ == summary_text(self@),
    {
        let mut s = String::from_str("ChaserProfile(");
        s.append(self.os.name());
        s.append(", Chrome ");
        let v = decimal_string(self.chrome_version as u64);
        s.append(v.as_str());
        s.append(", ");
        s.append(self.gpu.name());
        s.append(")");
        s
    }

    /// The User-Agent string of this profile.
    pub fn user_agent(&self) -> (r: String)
        ensures
            r@ == user_agent_text(self@),
    {
        let mut s = String::from_str("Mozilla/5.0 (");
        s.append(self.os.ua_system());
        s.append(") AppleWebKit/537.36 (KHTML, like Gecko) Chrome/");
        let v = decimal_string(self.chrome_version as u64);
        s.append(v.as_str());
        s.append(".0.0.0 Safari/537.36");
        s
    }

    fn page_script(&self) -> (r: String)
        ensures
            r@ == page_script_text(self@),
    {
        let ua = self.user_agent();
        let cores = decimal_string(self.cpu_cores as u64);
        let memory = decimal_string(self.memory_gb as u64);
        let version = decimal_string(self.chrome_version as u64);
        let mut s = String::from_str(SCRIPT_OPENING);
        s.append(ua.as_str());
        s.append(SCRIPT_BEFORE_PLATFORM);
        s.append(self.os.platform());
        s.append(SCRIPT_BEFORE_CORES);
        s.append(cores.as_str());
        s.append(SCRIPT_BEFORE_MEMORY);
        s.append(memory.as_str());
        s.append(SCRIPT_BEFORE_VENDOR);
        s.append(self.gpu.vendor());
        s.append(SCRIPT_BEFORE_RENDERER);
        s.append(self.gpu.renderer());
        s.append(SCRIPT_BEFORE_BRAND_VERSION);
        s.append(version.as_str());
        s.append(SCRIPT_BEFORE_CHROMIUM_VERSION);
        s.append(version.as_str());
        s.append(SCRIPT_BEFORE_HINTS_PLATFORM);
        s.append(self.os.hints_platform());
        s.append(SCRIPT_BEFORE_ENTROPY_PLATFORM);
        s.append(self.os.hints_platform());
        s.append(SCRIPT_BEFORE_PLATFORM_VERSION);
        s.append(self.os.platform_version());
        s.append(SCRIPT_BEFORE_ARCHITECTURE);
        s.append(self.os.architecture());
        s.append(SCRIPT_CLOSING);
        s
    }

    /// The complete script for this profile: the page script, then the
    /// wrapper that runs the same page script first in every worker.
    pub fn bootstrap_script(&self) -> (r: String)
        ensures
            r@ == bootstrap_text(self@),
    {
        let page = self.page_script();
        let body = escape_template(page.as_str());
        let mut s = String::from_str(page.as_str());
        s.append(WORKER_OPENING);
        s.append(body.as_str());
        s.append(WORKER_CLOSING);
        s
    }
}

impl Default for ChaserProfile {
    /// The Windows preset.
    fn default() -> (r: Self)
        ensures
            r@ == preset(Os::Windows),
    {
        Self::windows().build()
    }
}

impl ChaserProfileBuilder {
    /// Sets the Chrome major version.
    pub fn chrome_version(self, version: u32) -> (r: Self)
        ensures
            r@ == (ProfileModel { chrome_version: version, ..self@ }),
    {
        Self { chrome_version: version, ..self }
    }

    /// Sets the GPU that WebGL reports.
    pub fn gpu(self, gpu: Gpu) -> (r: Self)
        ensures
            r@ == (ProfileModel { gpu, ..self@ }),
    {
        Self { gpu, ..self }
    }

    /// Sets the device memory, in GB.
    pub fn memory_gb(self, gb: u32) -> (r: Self)
        ensures
            r@ == (ProfileModel { memory_gb: gb, ..self@ }),
    {
        Self { memory_gb: gb, ..self }
    }

    /// Sets the logical core count.
    pub fn cpu_cores(self, cores: u32) -> (r: Self)
        ensures
            r@ == (ProfileModel { cpu_cores: cores, ..self@ }),
    {
        Self { cpu_cores: cores, ..self }
    }

    /// Sets the locale, such as `en-US`.
    pub fn locale(self, locale: &str) -> (r: Self)
        ensures
            r@ == (ProfileModel { locale: locale@, ..self@ }),
    {
        Self { locale: String::from_str(locale), ..self }
    }

    /// Sets the time zone, such as `Europe/Berlin`.
    pub fn timezone(self, tz: &str) -> (r: Self)
        ensures
            r@ == (ProfileModel { timezone: tz@, ..self@ }),
    {
        Self { timezone: String::from_str(tz), ..self }
    }

    /// Sets the screen resolution.
    pub fn screen(self, width: u32, height: u32) -> (r: Self)
        ensures
            r@ == (ProfileModel { screen_width: width, screen_height: height, ..self@ }),
    {
        Self { screen_width: width, screen_height: height, ..self }
    }

    /// Freezes the profile.
    pub fn build(self) -> (r: ChaserProfile)
        ensures
            r@ == self@,
    {
        ChaserProfile {
            os: self.os,
            chrome_version: self.chrome_version,
            gpu: self.gpu,
            memory_gb: self.memory_gb,
            cpu_cores: self.cpu_cores,
            locale: self.locale,
            timezone: self.timezone,
            screen_width: self.screen_width,
            screen_height: self.screen_height,
        }
    }
}

} // verus!
