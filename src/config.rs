//! Launch configuration, its builder, and the command line it renders to.
use vstd::prelude::*;

use crate::argument::{
    arg_models, has_key, key_index, lemma_has_key_concat, lemma_key_index, lemma_merge_all_concat,
    lemma_merge_all_values, lemma_values_for_absent, lemma_values_for_concat, merge_all,
    render_arg, rendered, values_for, Arg, ArgConst, ArgModel, ArgsBuilder,
};
use crate::text::{decimal, decimal_string, views};

verus! {

/// Default time allowed for a launch, in milliseconds.
pub const LAUNCH_TIMEOUT: u64 = 20000;

/// Default time allowed for a request without response, in milliseconds.
pub const REQUEST_TIMEOUT: u64 = 30000;

/// How the browser shows itself.
#[derive(Debug, Clone, Copy, PartialEq, Eq, Structural)]
pub enum HeadlessMode {
    /// With a window.
    False,
    /// The old headless mode.
    True,
    /// The new headless mode.
    New,
}

/// The emulated viewport of new pages.
#[derive(Debug, Clone, Copy, PartialEq, Eq, Structural)]
pub struct Viewport {
    pub width: u32,
    pub height: u32,
    pub emulating_mobile: bool,
    pub is_landscape: bool,
    pub has_touch: bool,
}

impl Viewport {
    /// An 800x600 desktop viewport.
    pub fn default_size() -> (r: Self)
        ensures
            r.width == 800 && r.height == 600,
            !r.emulating_mobile && !r.is_landscape && !r.has_touch,
    {
        Viewport {
            width: 800,
            height: 600,
            emulating_mobile: false,
            is_landscape: false,
            has_touch: false,
        }
    }
}

/// Which browser builds the executable search may pick.
#[derive(Debug, Clone, Copy, PartialEq, Eq, Structural)]
pub struct DetectionOptions {
    /// Also look for Microsoft Edge.
    pub msedge: bool,
    /// Also look for unstable channels.
    pub unstable: bool,
}

impl DetectionOptions {
    /// Edge allowed, unstable channels not.
    pub fn standard() -> (r: Self)
        ensures
            r.msedge && !r.unstable,
    {
        DetectionOptions { msedge: true, unstable: false }
    }
}

/// Environment entries with one value per key, in order of first setting.
pub open spec fn env_models(envs: Seq<(String, String)>) -> Seq<(Seq<char>, Seq<char>)> {
    envs.map_values(|e: (String, String)| (e.0@, e.1@))
}

/// No key is set twice.
pub open spec fn env_keys_unique(envs: Seq<(Seq<char>, Seq<char>)>) -> bool {
    forall|i: int, j: int| 0 <= i < j < envs.len() ==> envs[i].0 != envs[j].0
}

/// Sets `k` to `v`: an entry with key `k` takes the new value in its place,
/// otherwise a new entry comes last.
pub open spec fn env_set(envs: Seq<(Seq<char>, Seq<char>)>, k: Seq<char>, v: Seq<char>) -> Seq<
    (Seq<char>, Seq<char>),
> {
    if exists|i: int| 0 <= i < envs.len() && envs[i].0 == k {
        let i = choose|i: int| 0 <= i < envs.len() && envs[i].0 == k;
        envs.update(i, (k, v))
    } else {
        envs.push((k, v))
    }
}

/// Sets each pair in turn.
pub open spec fn env_set_all(
    envs: Seq<(Seq<char>, Seq<char>)>,
    pairs: Seq<(Seq<char>, Seq<char>)>,
) -> Seq<(Seq<char>, Seq<char>)>
    decreases pairs.len(),
{
    if pairs.len() == 0 {
        envs
    } else {
        let pre = env_set_all(envs, pairs.drop_last());
        env_set(pre, pairs.last().0, pairs.last().1)
    }
}

/// What a launch configuration is.
pub struct ConfigModel {
    pub headless: HeadlessMode,
    pub sandbox: bool,
    pub window_size: Option<(u32, u32)>,
    pub port: u16,
    pub executable: Seq<char>,
    pub extensions: Seq<Seq<char>>,
    pub process_envs: Option<Seq<(Seq<char>, Seq<char>)>>,
    pub user_data_dir: Option<Seq<char>>,
    pub incognito: bool,
    pub launch_timeout_ms: u64,
    pub ignore_https_errors: bool,
    pub ignore_invalid_messages: bool,
    pub disable_https_first: bool,
    pub viewport: Option<Viewport>,
    pub request_timeout_ms: u64,
    pub args: Seq<ArgModel>,
    pub disable_default_args: bool,
    pub request_intercept: bool,
    pub cache_enabled: bool,
    pub hidden: bool,
}

/// A frozen launch configuration.
#[derive(Debug, Clone)]
pub struct BrowserConfig {
    headless: HeadlessMode,
    sandbox: bool,
    window_size: Option<(u32, u32)>,
    /// Debugging port; 0 lets the browser pick one and announce it.
    port: u16,
    executable: String,
    /// Unpacked extension directories to load.
    extensions: Vec<String>,
    /// Environment overrides for the browser process.
    process_envs: Option<Vec<(String, String)>>,
    user_data_dir: Option<String>,
    incognito: bool,
    launch_timeout_ms: u64,
    ignore_https_errors: bool,
    ignore_invalid_messages: bool,
    disable_https_first: bool,
    viewport: Option<Viewport>,
    request_timeout_ms: u64,
    /// Extra arguments, added after the defaults.
    args: Vec<Arg>,
    disable_default_args: bool,
    request_intercept: bool,
    cache_enabled: bool,
    /// Hide the automation marker from pages.
    hidden: bool,
}

impl View for BrowserConfig {
    type V = ConfigModel;

    closed spec fn view(&self) -> ConfigModel {
        ConfigModel {
            headless: self.headless,
            sandbox: self.sandbox,
            window_size: self.window_size,
            port: self.port,
            executable: self.executable@,
            extensions: views(self.extensions@),
            process_envs: match self.process_envs {
                Some(e) => Some(env_models(e@)),
                None => None,
            },
            user_data_dir: match self.user_data_dir {
                Some(d) => Some(d@),
                None => None,
            },
            incognito: self.incognito,
            launch_timeout_ms: self.launch_timeout_ms,
            ignore_https_errors: self.ignore_https_errors,
            ignore_invalid_messages: self.ignore_invalid_messages,
            disable_https_first: self.disable_https_first,
            viewport: self.viewport,
            request_timeout_ms: self.request_timeout_ms,
            args: arg_models(self.args@),
            disable_default_args: self.disable_default_args,
            request_intercept: self.request_intercept,
            cache_enabled: self.cache_enabled,
            hidden: self.hidden,
        }
    }
}

/// Collects the settings of a launch configuration.
#[derive(Debug, Clone)]
pub struct BrowserConfigBuilder {
    pub headless: HeadlessMode,
    pub sandbox: bool,
    pub window_size: Option<(u32, u32)>,
    pub port: u16,
    pub executable: Option<String>,
    pub executation_detection: DetectionOptions,
    pub extensions: Vec<String>,
    pub process_envs: Option<Vec<(String, String)>>,
    pub user_data_dir: Option<String>,
    pub incognito: bool,
    pub launch_timeout_ms: u64,
    pub ignore_https_errors: bool,
    pub ignore_invalid_events: bool,
    pub disable_https_first: bool,
    pub viewport: Option<Viewport>,
    pub request_timeout_ms: u64,
    pub args: Vec<Arg>,
    pub disable_default_args: bool,
    pub request_intercept: bool,
    pub cache_enabled: bool,
    pub hidden: bool,
}

impl BrowserConfig {
    pub fn headless(&self) -> (r: HeadlessMode)
        ensures
            r == self@.headless,
    {
        self.headless
    }

    pub fn sandbox(&self) -> (r: bool)
        ensures
            r == self@.sandbox,
    {
        self.sandbox
    }

    pub fn window_size(&self) -> (r: Option<(u32, u32)>)
        ensures
            r == self@.window_size,
    {
        self.window_size
    }

    pub fn port(&self) -> (r: u16)
        ensures
            r == self@.port,
    {
        self.port
    }

    pub fn incognito(&self) -> (r: bool)
        ensures
            r == self@.incognito,
    {
        self.incognito
    }

    pub fn launch_timeout_ms(&self) -> (r: u64)
        ensures
            r == self@.launch_timeout_ms,
    {
        self.launch_timeout_ms
    }

    pub fn ignore_https_errors(&self) -> (r: bool)
        ensures
            r == self@.ignore_https_errors,
    {
        self.ignore_https_errors
    }

    pub fn ignore_invalid_messages(&self) -> (r: bool)
        ensures
            r == self@.ignore_invalid_messages,
    {
        self.ignore_invalid_messages
    }

    pub fn disable_https_first(&self) -> (r: bool)
        ensures
            r == self@.disable_https_first,
    {
        self.disable_https_first
    }

    pub fn viewport(&self) -> (r: Option<Viewport>)
        ensures
            r == self@.viewport,
    {
        self.viewport
    }

    pub fn request_timeout_ms(&self) -> (r: u64)
        ensures
            r == self@.request_timeout_ms,
    {
        self.request_timeout_ms
    }

    pub fn disable_default_args(&self) -> (r: bool)
        ensures
            r == self@.disable_default_args,
    {
        self.disable_default_args
    }

    pub fn request_intercept(&self) -> (r: bool)
        ensures
            r == self@.request_intercept,
    {
        self.request_intercept
    }

    pub fn cache_enabled(&self) -> (r: bool)
        ensures
            r == self@.cache_enabled,
    {
        self.cache_enabled
    }

    pub fn hidden(&self) -> (r: bool)
        ensures
            r == self@.hidden,
    {
        self.hidden
    }

    /// The browser executable.
    pub fn executable(&self) -> (r: &str)
        ensures
            r@ == self@.executable,
    {
        self.executable.as_str()
    }

    /// The extension directories, in order.
    pub fn extensions(&self) -> (r: &Vec<String>)
        ensures
            views(r@) == self@.extensions,
    {
        &self.extensions
    }

    /// The environment overrides of the browser process.
    pub fn process_envs(&self) -> (r: Option<&Vec<(String, String)>>)
        ensures
            match r {
                Some(e) => self@.process_envs == Some(env_models(e@)),
                None => self@.process_envs is None,
            },
    {
        match &self.process_envs {
            Some(e) => Some(e),
            None => None,
        }
    }

    /// The configured profile directory.
    pub fn user_data_dir(&self) -> (r: Option<&str>)
        ensures
            match r {
                Some(d) => self@.user_data_dir == Some(d@),
                None => self@.user_data_dir is None,
            },
    {
        match &self.user_data_dir {
            Some(d) => Some(d.as_str()),
            None => None,
        }
    }

    /// The extra arguments, in order.
    pub fn args(&self) -> (r: &Vec<Arg>)
        ensures
            arg_models(r@) == self@.args,
    {
        &self.args
    }

    /// A builder with the default settings.
    pub fn builder() -> (r: BrowserConfigBuilder)
        ensures
            r.is_default(),
    {
        BrowserConfigBuilder::new()
    }

    /// The default configuration with the given browser executable.
    pub fn with_executable(path: &str) -> (r: Self)
        ensures
            exists|b: BrowserConfigBuilder| b.is_default() && r@ == b.frozen(path@),
    {
        Self::builder().freeze(String::from_str(path))
    }
}

impl Default for BrowserConfigBuilder {
    /// A builder with the default settings.
    fn default() -> (r: Self)
        ensures
            r.is_default(),
    {
        Self::new()
    }
}

impl BrowserConfigBuilder {
    /// The settings a fresh builder holds.
    pub open spec fn is_default(&self) -> bool {
        &&& self.headless == HeadlessMode::True
        &&& self.sandbox
        &&& self.window_size is None
        &&& self.port == 0
        &&& self.executable is None
        &&& self.executation_detection.msedge && !self.executation_detection.unstable
        &&& self.extensions@.len() == 0
        &&& self.process_envs is None
        &&& self.user_data_dir is None
        &&& !self.incognito
        &&& self.launch_timeout_ms == LAUNCH_TIMEOUT
        &&& self.ignore_https_errors
        &&& self.ignore_invalid_events
        &&& !self.disable_https_first
        &&& self.viewport == Some(
            Viewport {
                width: 800,
                height: 600,
                emulating_mobile: false,
                is_landscape: false,
                has_touch: false,
            },
        )
        &&& self.request_timeout_ms == REQUEST_TIMEOUT
        &&& self.args@.len() == 0
        &&& !self.disable_default_args
        &&& !self.request_intercept
        &&& self.cache_enabled
        &&& !self.hidden
    }

    /// A builder with the default settings.
    pub fn new() -> (r: Self)
        ensures
            r.is_default(),
    {
        BrowserConfigBuilder {
            headless: HeadlessMode::True,
            sandbox: true,
            window_size: None,
            port: 0,
            executable: None,
            executation_detection: DetectionOptions::standard(),
            extensions: Vec::new(),
            process_envs: None,
            user_data_dir: None,
            incognito: false,
            launch_timeout_ms: LAUNCH_TIMEOUT,
            ignore_https_errors: true,
            ignore_invalid_events: true,
            disable_https_first: false,
            viewport: Some(Viewport::default_size()),
            request_timeout_ms: REQUEST_TIMEOUT,
            args: Vec::new(),
            disable_default_args: false,
            request_intercept: false,
            cache_enabled: true,
            hidden: false,
        }
    }

    pub fn window_size(self, width: u32, height: u32) -> (r: Self)
        ensures
            r == (Self { window_size: Some((width, height)), ..self }),
    {
        Self { window_size: Some((width, height)), ..self }
    }

    pub fn no_sandbox(self) -> (r: Self)
        ensures
            r == (Self { sandbox: false, ..self }),
    {
        Self { sandbox: false, ..self }
    }

    pub fn with_head(self) -> (r: Self)
        ensures
            r == (Self { headless: HeadlessMode::False, ..self }),
    {
        Self { headless: HeadlessMode::False, ..self }
    }

    pub fn new_headless_mode(self) -> (r: Self)
        ensures
            r == (Self { headless: HeadlessMode::New, ..self }),
    {
        Self { headless: HeadlessMode::New, ..self }
    }

    pub fn headless_mode(self, mode: HeadlessMode) -> (r: Self)
        ensures
            r == (Self { headless: mode, ..self }),
    {
        Self { headless: mode, ..self }
    }

    pub fn incognito(self) -> (r: Self)
        ensures
            r == (Self { incognito: true, ..self }),
    {
        Self { incognito: true, ..self }
    }

    pub fn respect_https_errors(self) -> (r: Self)
        ensures
            r == (Self { ignore_https_errors: false, ..self }),
    {
        Self { ignore_https_errors: false, ..self }
    }

    /// Makes the protocol handler report messages it cannot parse.
    pub fn surface_invalid_messages(self) -> (r: Self)
        ensures
            r == (Self { ignore_invalid_events: false, ..self }),
    {
        Self { ignore_invalid_events: false, ..self }
    }

    pub fn port(self, port: u16) -> (r: Self)
        ensures
            r == (Self { port, ..self }),
    {
        Self { port, ..self }
    }

    /// Time allowed for the launch, in milliseconds.
    pub fn launch_timeout(self, timeout_ms: u64) -> (r: Self)
        ensures
            r == (Self { launch_timeout_ms: timeout_ms, ..self }),
    {
        Self { launch_timeout_ms: timeout_ms, ..self }
    }

    /// Time allowed for a request, in milliseconds.
    pub fn request_timeout(self, timeout_ms: u64) -> (r: Self)
        ensures
            r == (Self { request_timeout_ms: timeout_ms, ..self }),
    {
        Self { request_timeout_ms: timeout_ms, ..self }
    }

    /// The emulated viewport; `None` leaves the browser's own.
    pub fn viewport(self, viewport: Option<Viewport>) -> (r: Self)
        ensures
            r == (Self { viewport, ..self }),
    {
        Self { viewport, ..self }
    }

    pub fn user_data_dir(self, data_dir: &str) -> (r: Self)
        ensures
            r.user_data_dir matches Some(d) && d@ == data_dir@,
            r == (Self { user_data_dir: r.user_data_dir, ..self }),
    {
        Self { user_data_dir: Some(String::from_str(data_dir)), ..self }
    }

    pub fn chrome_executable(self, path: &str) -> (r: Self)
        ensures
            r.executable matches Some(e) && e@ == path@,
            r == (Self { executable: r.executable, ..self }),
    {
        Self { executable: Some(String::from_str(path)), ..self }
    }

    pub fn chrome_detection(self, options: DetectionOptions) -> (r: Self)
        ensures
            r == (Self { executation_detection: options, ..self }),
    {
        Self { executation_detection: options, ..self }
    }

    /// Adds one extension directory.
    pub fn extension(self, extension: &str) -> (r: Self)
        ensures
            views(r.extensions@) == views(self.extensions@).push(extension@),
            r == (Self { extensions: r.extensions, ..self }),
    {
        let mut s = self;
        let ghost before = s.extensions@;
        s.extensions.push(String::from_str(extension));
        assert(views(s.extensions@) =~= views(before).push(extension@));
        s
    }

    /// Adds extension directories, in order.
    pub fn extensions(self, extensions: Vec<String>) -> (r: Self)
        ensures
            r.extensions@ == self.extensions@ + extensions@,
            r == (Self { extensions: r.extensions, ..self }),
    {
        let mut s = self;
        let mut more = extensions;
        s.extensions.append(&mut more);
        s
    }

    /// Sets an environment variable for the browser process; a later value
    /// for the same key replaces the earlier one.
    pub fn env(self, key: &str, val: &str) -> (r: Self)
        requires
            self.process_envs matches Some(e) ==> env_keys_unique(env_models(e@)),
        ensures
            r.process_envs matches Some(e) && env_models(e@) == env_set(
                match self.process_envs {
                    Some(e0) => env_models(e0@),
                    None => Seq::empty(),
                },
                key@,
                val@,
            ) && env_keys_unique(env_models(e@)),
            r == (Self { process_envs: r.process_envs, ..self }),
    {
        let mut s = self;
        let mut envs = match s.process_envs {
            Some(e) => e,
            None => Vec::new(),
        };
        assert(env_models(envs@) =~= match self.process_envs {
            Some(e0) => env_models(e0@),
            None => Seq::empty(),
        });
        set_env(&mut envs, key, val);
        Self { process_envs: Some(envs), ..s }
    }

    /// Sets each environment variable in turn, as `env` does.
    pub fn envs(self, envs: Vec<(String, String)>) -> (r: Self)
        requires
            self.process_envs matches Some(e) ==> env_keys_unique(env_models(e@)),
        ensures
            r.process_envs matches Some(e) && env_models(e@) == env_set_all(
                match self.process_envs {
                    Some(e0) => env_models(e0@),
                    None => Seq::empty(),
                },
                env_models(envs@),
            ) && env_keys_unique(env_models(e@)),
            r == (Self { process_envs: r.process_envs, ..self }),
    {
        let mut s = self;
        let mut cur = match s.process_envs {
            Some(e) => e,
            None => Vec::new(),
        };
        let ghost start = env_models(cur@);
        assert(start =~= match self.process_envs {
            Some(e0) => env_models(e0@),
            None => Seq::empty(),
        });
        let ghost all = env_models(envs@);
        let mut i: usize = 0;
        while i < envs.len()
            invariant
                i <= envs@.len(),
                all == env_models(envs@),
                env_keys_unique(env_models(cur@)),
                env_models(cur@) == env_set_all(start, all.subrange(0, i as int)),
            decreases envs@.len() - i,
        {
            set_env(&mut cur, envs[i].0.as_str(), envs[i].1.as_str());
            proof {
                assert(all.subrange(0, i + 1).drop_last() =~= all.subrange(0, i as int));
                assert(all[i as int] == (envs@[i as int].0@, envs@[i as int].1@));
            }
            i = i + 1;
        }
        assert(all.subrange(0, all.len() as int) =~= all);
        Self { process_envs: Some(cur), ..s }
    }

    /// Adds an extra argument.
    pub fn arg(self, arg: Arg) -> (r: Self)
        ensures
            r.args@ == self.args@.push(arg),
            r == (Self { args: r.args, ..self }),
    {
        let mut s = self;
        s.args.push(arg);
        s
    }

    /// Adds extra arguments, in order.
    pub fn args(self, args: Vec<Arg>) -> (r: Self)
        ensures
            r.args@ == self.args@ + args@,
            r == (Self { args: r.args, ..self }),
    {
        let mut s = self;
        let mut more = args;
        s.args.append(&mut more);
        s
    }

    /// Leaves out the built-in default arguments.
    pub fn disable_default_args(self) -> (r: Self)
        ensures
            r == (Self { disable_default_args: true, ..self }),
    {
        Self { disable_default_args: true, ..self }
    }

    /// Keeps the browser from upgrading plain HTTP navigations.
    pub fn disable_https_first(self) -> (r: Self)
        ensures
            r == (Self { disable_https_first: true, ..self }),
    {
        Self { disable_https_first: true, ..self }
    }

    pub fn enable_request_intercept(self) -> (r: Self)
        ensures
            r == (Self { request_intercept: true, ..self }),
    {
        Self { request_intercept: true, ..self }
    }

    pub fn disable_request_intercept(self) -> (r: Self)
        ensures
            r == (Self { request_intercept: false, ..self }),
    {
        Self { request_intercept: false, ..self }
    }

    pub fn enable_cache(self) -> (r: Self)
        ensures
            r == (Self { cache_enabled: true, ..self }),
    {
        Self { cache_enabled: true, ..self }
    }

    pub fn disable_cache(self) -> (r: Self)
        ensures
            r == (Self { cache_enabled: false, ..self }),
    {
        Self { cache_enabled: false, ..self }
    }

    /// Hides the automation marker from pages.
    pub fn hide_automation(self) -> (r: Self)
        ensures
            r == (Self { hidden: true, ..self }),
    {
        Self { hidden: true, ..self }
    }

    /// The configuration these settings describe, with `executable`.
    pub open spec fn frozen(&self, executable: Seq<char>) -> ConfigModel {
        ConfigModel {
            headless: self.headless,
            sandbox: self.sandbox,
            window_size: self.window_size,
            port: self.port,
            executable,
            extensions: views(self.extensions@),
            process_envs: match self.process_envs {
                Some(e) => Some(env_models(e@)),
                None => None,
            },
            user_data_dir: match self.user_data_dir {
                Some(d) => Some(d@),
                None => None,
            },
            incognito: self.incognito,
            launch_timeout_ms: self.launch_timeout_ms,
            ignore_https_errors: self.ignore_https_errors,
            ignore_invalid_messages: self.ignore_invalid_events,
            disable_https_first: self.disable_https_first,
            viewport: self.viewport,
            request_timeout_ms: self.request_timeout_ms,
            args: arg_models(self.args@),
            disable_default_args: self.disable_default_args,
            request_intercept: self.request_intercept,
            cache_enabled: self.cache_enabled,
            hidden: self.hidden,
        }
    }

    /// Freezes the settings. The executable is the one set on the builder;
    /// without one it is the outcome of the executable search, `detected`,
    /// whose error is returned as it is.
    pub fn build(self, detected: Result<String, String>) -> (r: Result<BrowserConfig, String>)
        ensures
            match self.executable {
                Some(e) => (r matches Ok(c) && c@ == self.frozen(e@)),
                None => match detected {
                    Ok(e) => (r matches Ok(c) && c@ == self.frozen(e@)),
                    Err(msg) => r == Err::<BrowserConfig, String>(msg),
                },
            },
    {
        let executable = match &self.executable {
            Some(e) => e.clone(),
            None => match detected {
                Ok(e) => e,
                Err(msg) => {
                    return Err(msg);
                },
            },
        };
        Ok(self.freeze(executable))
    }

    fn freeze(self, executable: String) -> (r: BrowserConfig)
        ensures
            r@ == self.frozen(executable@),
    {
        BrowserConfig {
            headless: self.headless,
            sandbox: self.sandbox,
            window_size: self.window_size,
            port: self.port,
            executable,
            extensions: self.extensions,
            process_envs: self.process_envs,
            user_data_dir: self.user_data_dir,
            incognito: self.incognito,
            launch_timeout_ms: self.launch_timeout_ms,
            ignore_https_errors: self.ignore_https_errors,
            ignore_invalid_messages: self.ignore_invalid_events,
            disable_https_first: self.disable_https_first,
            viewport: self.viewport,
            request_timeout_ms: self.request_timeout_ms,
            args: self.args,
            disable_default_args: self.disable_default_args,
            request_intercept: self.request_intercept,
            cache_enabled: self.cache_enabled,
            hidden: self.hidden,
        }
    }
}

/// A flag without values.
pub open spec fn key_flag(k: Seq<char>) -> ArgModel {
    ArgModel { key: k, values: Seq::empty() }
}

/// A flag with one value.
pub open spec fn valued(k: Seq<char>, v: Seq<char>) -> ArgModel {
    ArgModel { key: k, values: seq![v] }
}

/// The arguments every launch starts from, unless they are turned off.
pub open spec fn default_arg_models() -> Seq<ArgModel> {
    seq![
        key_flag("disable-background-networking"@),
        ArgModel {
            key: "enable-features"@,
            values: seq!["NetworkService"@, "NetworkServiceInProcess"@],
        },
        key_flag("disable-background-timer-throttling"@),
        key_flag("disable-backgrounding-occluded-windows"@),
        key_flag("disable-breakpad"@),
        key_flag("disable-client-side-phishing-detection"@),
        key_flag("disable-component-extensions-with-background-pages"@),
        key_flag("disable-default-apps"@),
        key_flag("disable-dev-shm-usage"@),
        valued("disable-features"@, "TranslateUI"@),
        key_flag("disable-hang-monitor"@),
        key_flag("disable-ipc-flooding-protection"@),
        key_flag("disable-popup-blocking"@),
        key_flag("disable-prompt-on-repost"@),
        key_flag("disable-renderer-backgrounding"@),
        key_flag("disable-sync"@),
        valued("force-color-profile"@, "srgb"@),
        key_flag("metrics-recording-only"@),
        key_flag("no-first-run"@),
        key_flag("enable-automation"@),
        valued("password-store"@, "basic"@),
        key_flag("use-mock-keychain"@),
        valued("enable-blink-features"@, "IdleDetection"@),
        valued("lang"@, "en_US"@),
    ]
}

/// The models of a sequence of fixed flags.
pub open spec fn const_models(args: Seq<ArgConst>) -> Seq<ArgModel> {
    args.map_values(|a: ArgConst| a@)
}

/// The built-in default arguments.
pub fn default_args() -> (r: Vec<ArgConst>)
    ensures
        const_models(r@) == default_arg_models(),
{
    let mut r: Vec<ArgConst> = Vec::new();
    r.push(ArgConst::key("disable-background-networking"));
    r.push(ArgConst::values("enable-features", &["NetworkService", "NetworkServiceInProcess"]));
    r.push(ArgConst::key("disable-background-timer-throttling"));
    r.push(ArgConst::key("disable-backgrounding-occluded-windows"));
    r.push(ArgConst::key("disable-breakpad"));
    r.push(ArgConst::key("disable-client-side-phishing-detection"));
    r.push(ArgConst::key("disable-component-extensions-with-background-pages"));
    r.push(ArgConst::key("disable-default-apps"));
    r.push(ArgConst::key("disable-dev-shm-usage"));
    r.push(ArgConst::values("disable-features", &["TranslateUI"]));
    r.push(ArgConst::key("disable-hang-monitor"));
    r.push(ArgConst::key("disable-ipc-flooding-protection"));
    r.push(ArgConst::key("disable-popup-blocking"));
    r.push(ArgConst::key("disable-prompt-on-repost"));
    r.push(ArgConst::key("disable-renderer-backgrounding"));
    r.push(ArgConst::key("disable-sync"));
    r.push(ArgConst::values("force-color-profile", &["srgb"]));
    r.push(ArgConst::key("metrics-recording-only"));
    r.push(ArgConst::key("no-first-run"));
    r.push(ArgConst::key("enable-automation"));
    r.push(ArgConst::values("password-store", &["basic"]));
    r.push(ArgConst::key("use-mock-keychain"));
    r.push(ArgConst::values("enable-blink-features", &["IdleDetection"]));
    r.push(ArgConst::values("lang", &["en_US"]));
    proof {
        let m = const_models(r@);
        let d = default_arg_models();
        assert(m[1].values =~= d[1].values);
        assert(m[9].values =~= d[9].values);
        assert(m[16].values =~= d[16].values);
        assert(m[20].values =~= d[20].values);
        assert(m[22].values =~= d[22].values);
        assert(m[23].values =~= d[23].values);
    }
    assert(const_models(r@) =~= default_arg_models());
    r
}

/// The defaults (unless turned off) followed by the extra arguments.
pub open spec fn base_args(c: ConfigModel) -> Seq<ArgModel> {
    if c.disable_default_args {
        c.args
    } else {
        default_arg_models() + c.args
    }
}

/// The debugging port, unless the arguments so far name one.
pub open spec fn port_args(c: ConfigModel) -> Seq<ArgModel> {
    if has_key(base_args(c), "remote-debugging-port"@) {
        Seq::empty()
    } else {
        seq![valued("remote-debugging-port"@, decimal(c.port as nat))]
    }
}

/// One load-extension argument per extension, or the flag that turns
/// extensions off when there are none.
pub open spec fn extension_args(c: ConfigModel) -> Seq<ArgModel> {
    if c.extensions.len() == 0 {
        seq![key_flag("disable-extensions"@)]
    } else {
        c.extensions.map_values(|e: Seq<char>| valued("load-extension"@, e))
    }
}

/// The profile directory: the configured one, else `default_dir`.
pub open spec fn user_data_args(c: ConfigModel, default_dir: Seq<char>) -> Seq<ArgModel> {
    seq![
        valued(
            "user-data-dir"@,
            match c.user_data_dir {
                Some(d) => d,
                None => default_dir,
            },
        ),
    ]
}

/// The window size, when one is set.
pub open spec fn window_args(c: ConfigModel) -> Seq<ArgModel> {
    match c.window_size {
        Some((w, h)) => seq![
            ArgModel { key: "window-size"@, values: seq![decimal(w as nat), decimal(h as nat)] },
        ],
        None => Seq::empty(),
    }
}

/// The flags that turn the sandbox off, when it is off.
pub open spec fn sandbox_args(c: ConfigModel) -> Seq<ArgModel> {
    if c.sandbox {
        Seq::empty()
    } else {
        seq![key_flag("no-sandbox"@), key_flag("disable-setuid-sandbox"@)]
    }
}

/// The flags of the headless mode.
pub open spec fn headless_args(c: ConfigModel) -> Seq<ArgModel> {
    match c.headless {
        HeadlessMode::False => Seq::empty(),
        HeadlessMode::True => seq![
            key_flag("headless"@),
            key_flag("hide-scrollbars"@),
            key_flag("mute-audio"@),
        ],
        HeadlessMode::New => seq![
            valued("headless"@, "new"@),
            key_flag("hide-scrollbars"@),
            key_flag("mute-audio"@),
        ],
    }
}

/// Incognito, automation-marker and HTTPS-upgrade flags, each when asked for.
pub open spec fn privacy_args(c: ConfigModel) -> Seq<ArgModel> {
    (if c.incognito {
        seq![key_flag("incognito"@)]
    } else {
        Seq::empty()
    }) + (if c.hidden {
        seq![valued("disable-blink-features"@, "AutomationControlled"@)]
    } else {
        Seq::empty()
    }) + (if c.disable_https_first {
        seq![
            ArgModel {
                key: "disable-features"@,
                values: seq!["HttpsUpgrades"@, "HttpsFirstBalancedModeAutoEnable"@],
            },
        ]
    } else {
        Seq::empty()
    })
}

/// The flags that follow the extensions.
pub open spec fn settings_args(c: ConfigModel, default_dir: Seq<char>) -> Seq<ArgModel> {
    user_data_args(c, default_dir) + window_args(c) + sandbox_args(c) + headless_args(c)
        + privacy_args(c)
}

/// Every argument of a launch, in the order they are merged.
pub open spec fn launch_arg_models(c: ConfigModel, default_dir: Seq<char>) -> Seq<ArgModel> {
    base_args(c) + port_args(c) + extension_args(c) + settings_args(c, default_dir)
}

/// The command line of a launch: every argument merged, one token per key.
pub open spec fn launch_command(c: ConfigModel, default_dir: Seq<char>) -> Seq<Seq<char>> {
    rendered(merge_all(Seq::empty(), launch_arg_models(c, default_dir)))
}

/// Neither extension flag is a default, the port or a setting flag.
proof fn lemma_not_launch_setting(c: ConfigModel, dir: Seq<char>, k: Seq<char>)
    requires
        k == "disable-extensions"@ || k == "load-extension"@,
    ensures
        !has_key(default_arg_models(), k),
        !has_key(port_args(c), k),
        !has_key(settings_args(c, dir), k),
{
    reveal_strlit("disable-extensions");
    reveal_strlit("load-extension");
    reveal_strlit("remote-debugging-port");
    reveal_strlit("user-data-dir");
    reveal_strlit("window-size");
    reveal_strlit("no-sandbox");
    reveal_strlit("disable-setuid-sandbox");
    reveal_strlit("headless");
    reveal_strlit("hide-scrollbars");
    reveal_strlit("mute-audio");
    reveal_strlit("incognito");
    reveal_strlit("disable-blink-features");
    reveal_strlit("disable-features");
    reveal_strlit("disable-background-networking");
    reveal_strlit("enable-features");
    reveal_strlit("disable-background-timer-throttling");
    reveal_strlit("disable-backgrounding-occluded-windows");
    reveal_strlit("disable-breakpad");
    reveal_strlit("disable-client-side-phishing-detection");
    reveal_strlit("disable-component-extensions-with-background-pages");
    reveal_strlit("disable-default-apps");
    reveal_strlit("disable-dev-shm-usage");
    reveal_strlit("disable-hang-monitor");
    reveal_strlit("disable-ipc-flooding-protection");
    reveal_strlit("disable-popup-blocking");
    reveal_strlit("disable-prompt-on-repost");
    reveal_strlit("disable-renderer-backgrounding");
    reveal_strlit("disable-sync");
    reveal_strlit("force-color-profile");
    reveal_strlit("metrics-recording-only");
    reveal_strlit("no-first-run");
    reveal_strlit("enable-automation");
    reveal_strlit("password-store");
    reveal_strlit("use-mock-keychain");
    reveal_strlit("enable-blink-features");
    reveal_strlit("lang");
    assert(k.len() == 18 || k.len() == 14);
    assert(k[0] == 'd' || k[0] == 'l');
    let d = default_arg_models();
    assert forall|i: int| 0 <= i < d.len() implies d[i].key != k by {
        if d[i].key.len() == k.len() {
            assert(d[i].key[0] != k[0] || d[i].key[8] != k[8]);
        }
    }
    let p = port_args(c);
    assert forall|i: int| 0 <= i < p.len() implies p[i].key != k by {}
    let s = settings_args(c, dir);
    assert forall|i: int| 0 <= i < s.len() implies s[i].key != k by {
        if s[i].key.len() == k.len() {
            assert(s[i].key[0] != k[0] || s[i].key[8] != k[8]);
        }
    }
}

/// With no extensions the command line holds the flag that turns extensions
/// off and no load-extension token; with some, it holds one load-extension
/// token whose values are the extensions in order, and no flag that turns
/// extensions off. This holds whenever the extra arguments do not name those
/// two flags themselves.
pub proof fn law_extension_flags(c: ConfigModel, default_dir: Seq<char>)
    requires
        !has_key(c.args, "disable-extensions"@),
        !has_key(c.args, "load-extension"@),
    ensures
        ({
            let m = merge_all(Seq::empty(), launch_arg_models(c, default_dir));
            &&& c.extensions.len() == 0 ==> launch_command(c, default_dir).contains(
                seq!['-', '-'] + "disable-extensions"@,
            ) && !has_key(m, "load-extension"@)
            &&& c.extensions.len() > 0 ==> launch_command(c, default_dir).contains(
                render_arg(ArgModel { key: "load-extension"@, values: c.extensions }),
            ) && !has_key(m, "disable-extensions"@)
        }),
{
    let de = "disable-extensions"@;
    let le = "load-extension"@;
    let all = launch_arg_models(c, default_dir);
    let b = base_args(c);
    let p = port_args(c);
    let e = extension_args(c);
    let s = settings_args(c, default_dir);
    let m = merge_all(Seq::empty(), all);
    lemma_not_launch_setting(c, default_dir, de);
    lemma_not_launch_setting(c, default_dir, le);
    lemma_has_key_concat(default_arg_models(), c.args, de);
    lemma_has_key_concat(default_arg_models(), c.args, le);
    lemma_has_key_concat(b, p, de);
    lemma_has_key_concat(b, p, le);
    lemma_has_key_concat(b + p, e, de);
    lemma_has_key_concat(b + p, e, le);
    lemma_has_key_concat(b + p + e, s, de);
    lemma_has_key_concat(b + p + e, s, le);
    lemma_merge_all_values(all, de);
    lemma_merge_all_values(all, le);
    lemma_key_index(m, de);
    lemma_key_index(m, le);
    lemma_values_for_absent(b + p, de);
    lemma_values_for_absent(b + p, le);
    lemma_values_for_absent(s, de);
    lemma_values_for_absent(s, le);
    lemma_values_for_concat(b + p, e, de);
    lemma_values_for_concat(b + p, e, le);
    lemma_values_for_concat(b + p + e, s, de);
    lemma_values_for_concat(b + p + e, s, le);
    reveal_strlit("disable-extensions");
    reveal_strlit("load-extension");
    if c.extensions.len() == 0 {
        assert(e[0].key == de);
        assert(has_key(e, de));
        assert(!has_key(e, le));
        assert(values_for(e, de) =~= Seq::<Seq<char>>::empty()) by {
            assert(e.drop_last() =~= Seq::<ArgModel>::empty());
            assert(values_for(e.drop_last(), de) == Seq::<Seq<char>>::empty());
            assert(e.last().values == Seq::<Seq<char>>::empty());
        }
        let i = key_index(m, de);
        assert(rendered(m)[i] == render_arg(m[i]));
        assert(m[i].values =~= Seq::<Seq<char>>::empty());
        assert(render_arg(m[i]) =~= seq!['-', '-'] + de);
        assert(rendered(m).contains(seq!['-', '-'] + de));
    } else {
        assert(!has_key(e, de)) by {
            assert forall|i: int| 0 <= i < e.len() implies e[i].key != de by {
                assert(e[i].key == le);
            }
        }
        assert(e[0].key == le);
        assert(has_key(e, le));
        lemma_values_for_extensions(c.extensions);
        let i = key_index(m, le);
        assert(rendered(m)[i] == render_arg(m[i]));
        assert(m[i] == ArgModel { key: le, values: c.extensions });
        assert(rendered(m).contains(render_arg(ArgModel { key: le, values: c.extensions })));
    }
}

/// In a launch with the defaults, a key that both the defaults and the extra
/// arguments give ends up as one token of the command line, whose values are
/// the defaults' values, then the extra arguments' values, then those of the
/// flags the launch adds itself; the extra arguments never replace the
/// defaults.
pub proof fn law_launch_override_appends(c: ConfigModel, default_dir: Seq<char>, k: Seq<char>)
    requires
        !c.disable_default_args,
        has_key(default_arg_models(), k),
        has_key(c.args, k),
    ensures
        ({
            let m = merge_all(Seq::empty(), launch_arg_models(c, default_dir));
            let i = key_index(m, k);
            let added = port_args(c) + extension_args(c) + settings_args(c, default_dir);
            let values = values_for(default_arg_models(), k) + values_for(c.args, k) + values_for(
                added,
                k,
            );
            &&& 0 <= i < m.len()
            &&& forall|j: int| 0 <= j < m.len() && m[j].key == k ==> j == i
            &&& m[i].values == values
            &&& launch_command(c, default_dir)[i] == render_arg(ArgModel { key: k, values })
        }),
{
    let d = default_arg_models();
    let b = base_args(c);
    let p = port_args(c);
    let e = extension_args(c);
    let s = settings_args(c, default_dir);
    let all = launch_arg_models(c, default_dir);
    assert(all == b + (p + e + s)) by {
        assert(b + p + e + s =~= b + (p + e + s));
    }
    lemma_has_key_concat(d, c.args, k);
    lemma_has_key_concat(b, p + e + s, k);
    lemma_merge_all_values(all, k);
    let m = merge_all(Seq::empty(), all);
    lemma_key_index(m, k);
    lemma_values_for_concat(d, c.args, k);
    lemma_values_for_concat(b, p + e + s, k);
}

/// The load-extension arguments give that key the extensions, in order.
proof fn lemma_values_for_extensions(exts: Seq<Seq<char>>)
    ensures
        values_for(exts.map_values(|e: Seq<char>| valued("load-extension"@, e)), "load-extension"@)
            == exts,
    decreases exts.len(),
{
    let f = |e: Seq<char>| valued("load-extension"@, e);
    if exts.len() > 0 {
        let pre = exts.drop_last();
        assert(exts.map_values(f).drop_last() =~= pre.map_values(f));
        lemma_values_for_extensions(pre);
        assert(pre + seq![exts.last()] =~= exts);
    } else {
        assert(exts =~= Seq::<Seq<char>>::empty());
    }
}

fn copy_strings(vs: &Vec<String>) -> (r: Vec<String>)
    ensures
        r@ == vs@,
{
    let mut r: Vec<String> = Vec::new();
    let mut i: usize = 0;
    while i < vs.len()
        invariant
            i <= vs@.len(),
            r@ == vs@.subrange(0, i as int),
        decreases vs@.len() - i,
    {
        r.push(vs[i].clone());
        i = i + 1;
        assert(r@ =~= vs@.subrange(0, i as int));
    }
    assert(vs@.subrange(0, vs@.len() as int) =~= vs@);
    r
}

fn copy_arg(a: &Arg) -> (r: Arg)
    ensures
        r@ == a@,
{
    Arg { key: a.key.clone(), values: copy_strings(&a.values) }
}

fn push_all(v: &mut Vec<Arg>, more: Vec<Arg>)
    ensures
        arg_models(final(v)@) == arg_models(old(v)@) + arg_models(more@),
{
    let mut more = more;
    let ghost a = v@;
    let ghost b = more@;
    v.append(&mut more);
    assert(arg_models(v@) =~= arg_models(a) + arg_models(b));
}

impl BrowserConfig {
    fn base_arg_list(&self) -> (r: Vec<Arg>)
        ensures
            arg_models(r@) == base_args(self@),
    {
        let mut r: Vec<Arg> = Vec::new();
        if !self.disable_default_args {
            let defaults = default_args();
            let mut i: usize = 0;
            while i < defaults.len()
                invariant
                    i <= defaults@.len(),
                    const_models(defaults@) == default_arg_models(),
                    r@.len() == i,
                    arg_models(r@) =~= const_models(defaults@.subrange(0, i as int)),
                decreases defaults@.len() - i,
            {
                let ghost before = r@;
                r.push(Arg::from_const(defaults[i]));
                proof {
                    assert forall|j: int| 0 <= j < i implies r@[j]@ == defaults@[j]@ by {
                        assert(r@[j] == before[j]);
                        assert(arg_models(before)[j] == const_models(
                            defaults@.subrange(0, i as int),
                        )[j]);
                    }
                }
                i = i + 1;
                assert(arg_models(r@) =~= const_models(defaults@.subrange(0, i as int)));
            }
            assert(defaults@.subrange(0, defaults@.len() as int) =~= defaults@);
        }
        let ghost pre = arg_models(r@);
        let mut i: usize = 0;
        while i < self.args.len()
            invariant
                i <= self.args@.len(),
                r@.len() == pre.len() + i,
                arg_models(r@) =~= pre + arg_models(self.args@.subrange(0, i as int)),
            decreases self.args@.len() - i,
        {
            let ghost before = r@;
            r.push(copy_arg(&self.args[i]));
            proof {
                assert forall|j: int| 0 <= j < pre.len() + i implies r@[j]@ == (pre
                    + arg_models(self.args@.subrange(0, i + 1)))[j] by {
                    assert(r@[j] == before[j]);
                    assert(arg_models(before)[j] == (pre + arg_models(
                        self.args@.subrange(0, i as int),
                    ))[j]);
                }
            }
            i = i + 1;
            assert(arg_models(r@) =~= pre + arg_models(self.args@.subrange(0, i as int)));
        }
        assert(self.args@.subrange(0, self.args@.len() as int) =~= self.args@);
        r
    }

    fn extension_arg_list(&self) -> (r: Vec<Arg>)
        ensures
            arg_models(r@) == extension_args(self@),
    {
        let mut r: Vec<Arg> = Vec::new();
        if self.extensions.len() == 0 {
            r.push(Arg::key("disable-extensions"));
            assert(arg_models(r@) =~= extension_args(self@));
            return r;
        }
        let mut i: usize = 0;
        while i < self.extensions.len()
            invariant
                i <= self.extensions@.len(),
                r@.len() == i,
                arg_models(r@) =~= views(self.extensions@.subrange(0, i as int)).map_values(
                    |e: Seq<char>| valued("load-extension"@, e),
                ),
            decreases self.extensions@.len() - i,
        {
            let ghost before = r@;
            r.push(Arg::value("load-extension", self.extensions[i].as_str()));
            proof {
                assert forall|j: int| 0 <= j < i implies r@[j]@ == valued(
                    "load-extension"@,
                    self.extensions@[j]@,
                ) by {
                    assert(r@[j] == before[j]);
                    assert(arg_models(before)[j] == views(
                        self.extensions@.subrange(0, i as int),
                    ).map_values(|e: Seq<char>| valued("load-extension"@, e))[j]);
                }
            }
            i = i + 1;
            assert(arg_models(r@) =~= views(self.extensions@.subrange(0, i as int)).map_values(
                |e: Seq<char>| valued("load-extension"@, e),
            ));
        }
        assert(self.extensions@.subrange(0, self.extensions@.len() as int) =~= self.extensions@);
        r
    }

    fn window_arg_list(&self) -> (r: Vec<Arg>)
        ensures
            arg_models(r@) == window_args(self@),
    {
        let mut r: Vec<Arg> = Vec::new();
        match self.window_size {
            Some((w, h)) => {
                let mut vs: Vec<String> = Vec::new();
                vs.push(decimal_string(w as u64));
                vs.push(decimal_string(h as u64));
                assert(views(vs@) =~= seq![decimal(w as nat), decimal(h as nat)]);
                r.push(Arg::values("window-size", vs));
            },
            None => {},
        }
        assert(arg_models(r@) =~= window_args(self@));
        r
    }

    fn mode_arg_list(&self) -> (r: Vec<Arg>)
        ensures
            arg_models(r@) == sandbox_args(self@) + headless_args(self@),
    {
        let mut r: Vec<Arg> = Vec::new();
        if !self.sandbox {
            r.push(Arg::key("no-sandbox"));
            r.push(Arg::key("disable-setuid-sandbox"));
        }
        assert(arg_models(r@) =~= sandbox_args(self@));
        let mut h: Vec<Arg> = Vec::new();
        match self.headless {
            HeadlessMode::False => {},
            HeadlessMode::True => {
                h.push(Arg::key("headless"));
                h.push(Arg::key("hide-scrollbars"));
                h.push(Arg::key("mute-audio"));
            },
            HeadlessMode::New => {
                h.push(Arg::value("headless", "new"));
                h.push(Arg::key("hide-scrollbars"));
                h.push(Arg::key("mute-audio"));
            },
        }
        assert(arg_models(h@) =~= headless_args(self@));
        push_all(&mut r, h);
        r
    }

    fn privacy_arg_list(&self) -> (r: Vec<Arg>)
        ensures
            arg_models(r@) == privacy_args(self@),
    {
        let mut r: Vec<Arg> = Vec::new();
        if self.incognito {
            r.push(Arg::key("incognito"));
        }
        let ghost s1 = arg_models(r@);
        if self.hidden {
            r.push(Arg::value("disable-blink-features", "AutomationControlled"));
        }
        let ghost s2 = arg_models(r@);
        if self.disable_https_first {
            let mut vs: Vec<String> = Vec::new();
            vs.push(String::from_str("HttpsUpgrades"));
            vs.push(String::from_str("HttpsFirstBalancedModeAutoEnable"));
            assert(views(vs@) =~= seq!["HttpsUpgrades"@, "HttpsFirstBalancedModeAutoEnable"@]);
            r.push(Arg::values("disable-features", vs));
        }
        assert(arg_models(r@) =~= privacy_args(self@));
        r
    }

    fn settings_arg_list(&self, default_dir: &str) -> (r: Vec<Arg>)
        ensures
            arg_models(r@) == settings_args(self@, default_dir@),
    {
        let mut r: Vec<Arg> = Vec::new();
        match &self.user_data_dir {
            Some(d) => r.push(Arg::value("user-data-dir", d.as_str())),
            None => r.push(Arg::value("user-data-dir", default_dir)),
        }
        assert(arg_models(r@) =~= user_data_args(self@, default_dir@));
        push_all(&mut r, self.window_arg_list());
        push_all(&mut r, self.mode_arg_list());
        push_all(&mut r, self.privacy_arg_list());
        assert(arg_models(r@) =~= settings_args(self@, default_dir@));
        r
    }

    /// The command-line arguments a launch passes to the browser. The
    /// defaults (unless turned off) and the extra arguments come first; then a
    /// debugging port unless one was given, the extension flags, the profile
    /// directory (`default_dir` when none is set) and the flags of the other
    /// settings. Arguments with the same key are merged into one token.
    pub fn launch_args(&self, default_dir: &str) -> (r: Vec<String>)
        ensures
            views(r@) == launch_command(self@, default_dir@),
    {
        let mut builder = ArgsBuilder::new();
        let base = self.base_arg_list();
        builder.args(base);
        let ghost b0 = base_args(self@);
        proof {
            lemma_merge_all_values(b0, "remote-debugging-port"@);
            lemma_key_index(merge_all(Seq::empty(), b0), "remote-debugging-port"@);
        }
        let mut tail: Vec<Arg> = Vec::new();
        if !builder.has("remote-debugging-port") {
            let port = decimal_string(self.port as u64);
            tail.push(Arg::value("remote-debugging-port", port.as_str()));
        }
        assert(arg_models(tail@) =~= port_args(self@));
        push_all(&mut tail, self.extension_arg_list());
        push_all(&mut tail, self.settings_arg_list(default_dir));
        let ghost t = arg_models(tail@);
        builder.args(tail);
        proof {
            lemma_merge_all_concat(Seq::empty(), b0, t);
            assert(b0 + t =~= launch_arg_models(self@, default_dir@));
        }
        builder.into_iter()
    }
}

fn set_env(envs: &mut Vec<(String, String)>, key: &str, val: &str)
    requires
        env_keys_unique(env_models(old(envs)@)),
    ensures
        env_models(final(envs)@) == env_set(env_models(old(envs)@), key@, val@),
        env_keys_unique(env_models(final(envs)@)),
{
    let ghost m = env_models(envs@);
    let mut i: usize = 0;
    while i < envs.len()
        invariant
            i <= envs@.len(),
            envs@ == old(envs)@,
            m == env_models(envs@),
            env_keys_unique(m),
            forall|j: int| 0 <= j < i ==> m[j].0 != key@,
        decreases envs@.len() - i,
    {
        if crate::text::str_eq(envs[i].0.as_str(), key) {
            let ghost before = envs@;
            let _ = envs.remove(i);
            envs.insert(i, (String::from_str(key), String::from_str(val)));
            proof {
                assert(m[i as int].0 == key@);
                let c = choose|c: int| 0 <= c < m.len() && m[c].0 == key@;
                assert(c == i);
                assert(env_models(envs@) =~= m.update(i as int, (key@, val@)));
            }
            return;
        }
        i = i + 1;
    }
    envs.push((String::from_str(key), String::from_str(val)));
    assert(env_models(envs@) =~= m.push((key@, val@)));
}

} // verus!
