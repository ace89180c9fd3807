//! Launch orchestration and fingerprint spoofing for a remotely controlled
//! Chromium browser: argument merging, launch configuration, debug endpoint
//! discovery, session bookkeeping and stealth profiles.
use vstd::prelude::*;

pub mod argument;
pub mod config;
pub mod discovery;
pub mod profiles;
pub mod session;
pub mod text;

pub use argument::{Arg, ArgConst, ArgsBuilder};
pub use config::{BrowserConfig, BrowserConfigBuilder, DetectionOptions, HeadlessMode, Viewport};
pub use discovery::{
    cleanup_after_failure, ChildStatus, Cleanup, Discovery, DiscoveryEvent, DiscoveryStep,
    IoCause, LaunchError,
};
pub use profiles::{ChaserProfile, ChaserProfileBuilder, Gpu, Os};
pub use session::{Browser, CookieParam, Request, SessionState};

verus! {

} // verus!
