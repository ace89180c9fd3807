//! The session handle: its lifecycle, its browser context, cookie checks, and
//! the requests it hands to the protocol handler.
use vstd::prelude::*;

use crate::config::{BrowserConfig, ConfigModel};
use crate::text::{matches_at, matches_at_exec, replace_all, replace_exec, starts_with, starts_with_exec, str_eq};

verus! {

/// The lifecycle of a session.
#[derive(Debug, Clone, Copy, PartialEq, Eq, Structural)]
pub enum SessionState {
    Disconnected,
    Connecting,
    Live,
    Closing,
    Closed,
}

/// A cookie to set. A cookie may name the URL it belongs to.
#[derive(Debug, Clone)]
pub struct CookieParam {
    pub name: String,
    pub value: String,
    pub url: Option<String>,
    pub domain: Option<String>,
    pub path: Option<String>,
}

/// A request for the protocol handler.
#[derive(Debug, Clone)]
pub enum Request {
    /// Open a page at `url`, inside the given browser context if any.
    CreatePage { url: String, browser_context_id: Option<String> },
    /// Track the targets that already exist.
    FetchTargets,
    /// List the tracked pages.
    GetPages,
    /// Look a page up by target id.
    GetPage(String),
    /// Ask for the browser's version.
    Version,
    /// List all cookies.
    GetCookies,
    /// Set the cookies.
    SetCookies(Vec<CookieParam>),
    /// Remove all cookies.
    ClearCookies,
    /// Create an incognito browser context.
    CreateBrowserContext,
    /// Dispose of a browser context and its pages.
    DisposeBrowserContext(String),
    /// Close the browser.
    CloseBrowser,
    /// Have the protocol handler track pages of this browser context.
    TrackContext(String),
    /// Have the protocol handler forget this browser context.
    UntrackContext(String),
    /// Run a protocol method with its parameters as JSON text.
    Command { method: String, params: String },
}

/// A URL a cookie can be set for: not a `data:` URL and not the blank page.
pub open spec fn cookie_url_ok(url: Seq<char>) -> bool {
    !starts_with(url, "data:"@) && url != "about:blank"@
}

/// Why a cookie cannot be set for `url`, or `None` when it can.
pub open spec fn cookie_url_error(url: Seq<char>) -> Option<Seq<char>> {
    if starts_with(url, "data:"@) {
        Some("Data URL page can not have cookie"@)
    } else if url == "about:blank"@ {
        Some("Blank page can not have cookie"@)
    } else {
        None
    }
}

/// The error of a cookie, or `None` when it names no URL or an acceptable one.
pub open spec fn cookie_error(c: CookieParam) -> Option<Seq<char>> {
    match c.url {
        Some(u) => cookie_url_error(u@),
        None => None,
    }
}

/// A cookie that names a URL names one a cookie can be set for.
pub open spec fn cookie_ok(c: CookieParam) -> bool {
    c.url matches Some(u) ==> cookie_url_ok(u@)
}

/// Every cookie is one that can be set.
pub open spec fn cookies_ok(cookies: Seq<CookieParam>) -> bool {
    forall|i: int| 0 <= i < cookies.len() ==> #[trigger] cookie_ok(cookies[i])
}

/// Checks that a cookie can be set for `url`.
pub fn validate_cookie_url(url: &str) -> (r: Result<(), String>)
    ensures
        r is Ok <==> cookie_url_ok(url@),
        match r {
            Ok(_) => cookie_url_error(url@) is None,
            Err(e) => cookie_url_error(url@) == Some(e@),
        },
{
    if starts_with_exec(url, "data:") {
        Err(String::from_str("Data URL page can not have cookie"))
    } else if str_eq(url, "about:blank") {
        Err(String::from_str("Blank page can not have cookie"))
    } else {
        Ok(())
    }
}

/// Where a browser serves its version information, for an `http` address;
/// `None` for any other address, which is taken as the socket URL itself.
pub open spec fn version_endpoint_spec(url: Seq<char>) -> Option<Seq<char>> {
    if !starts_with(url, "http"@) {
        None
    } else if ends_with(url, "/json/version"@) || ends_with(url, "/json/version/"@) {
        Some(url)
    } else if ends_with(url, "/"@) {
        Some(url + "json/version"@)
    } else {
        Some(url + "/json/version"@)
    }
}

/// `s` ends with `p`.
pub open spec fn ends_with(s: Seq<char>, p: Seq<char>) -> bool {
    matches_at(s, p, s.len() - p.len())
}

fn ends_with_exec(s: &str, p: &str) -> (r: bool)
    ensures
        r == ends_with(s@, p@),
{
    let n = s.unicode_len();
    let m = p.unicode_len();
    if m > n {
        return false;
    }
    matches_at_exec(s, p, n - m)
}

/// The version endpoint to ask when attaching to a browser at `url`.
pub fn version_endpoint(url: &str) -> (r: Option<String>)
    ensures
        match r {
            Some(e) => version_endpoint_spec(url@) == Some(e@),
            None => version_endpoint_spec(url@) is None,
        },
{
    if !starts_with_exec(url, "http") {
        return None;
    }
    if ends_with_exec(url, "/json/version") || ends_with_exec(url, "/json/version/") {
        return Some(String::from_str(url));
    }
    let mut e = String::from_str(url);
    if ends_with_exec(url, "/") {
        e.append("json/version");
    } else {
        e.append("/json/version");
    }
    Some(e)
}

/// The socket URL to attach to: the one the version endpoint reported, with
/// the loopback address replaced by the address that answered, or the given
/// address when none was reported.
pub open spec fn attach_url_spec(given: Seq<char>, reported: Seq<char>, peer_ip: Seq<char>) -> Seq<
    char,
> {
    if reported.len() == 0 {
        given
    } else {
        replace_all(reported, "127.0.0.1"@, peer_ip)
    }
}

/// The socket URL to attach to, from what the version endpoint reported.
pub fn attach_url(given: &str, reported: &str, peer_ip: &str) -> (r: String)
    ensures
        r@ == attach_url_spec(given@, reported@, peer_ip@),
{
    if reported.unicode_len() == 0 {
        String::from_str(given)
    } else {
        proof {
            reveal_strlit("127.0.0.1");
        }
        replace_exec(reported, "127.0.0.1", peer_ip)
    }
}

/// What a session is.
pub struct SessionModel {
    pub config: Option<ConfigModel>,
    pub spawned: bool,
    pub debug_ws_url: Seq<char>,
    pub browser_context: Option<Seq<char>>,
    pub state: SessionState,
}

/// The state a session keeps beside the protocol handler and the process.
#[derive(Debug)]
pub struct Browser {
    /// How the browser was launched, when this session launched it.
    config: Option<BrowserConfig>,
    /// This session spawned the browser process and owns it.
    spawned: bool,
    /// The socket URL of the browser.
    debug_ws_url: String,
    /// The browser context new pages go to; `None` is the default context.
    browser_context: Option<String>,
    state: SessionState,
}

impl View for Browser {
    type V = SessionModel;

    closed spec fn view(&self) -> SessionModel {
        SessionModel {
            config: match self.config {
                Some(c) => Some(c@),
                None => None,
            },
            spawned: self.spawned,
            debug_ws_url: self.debug_ws_url@,
            browser_context: match self.browser_context {
                Some(id) => Some(id@),
                None => None,
            },
            state: self.state,
        }
    }
}

impl Browser {
    /// A live session on a browser this session launched with `config`.
    pub fn launched(config: BrowserConfig, debug_ws_url: String) -> (r: Self)
        ensures
            r@ == (SessionModel {
                config: Some(config@),
                spawned: true,
                debug_ws_url: debug_ws_url@,
                browser_context: None,
                state: SessionState::Live,
            }),
    {
        Browser {
            config: Some(config),
            spawned: true,
            debug_ws_url,
            browser_context: None,
            state: SessionState::Live,
        }
    }

    /// A live session attached to a browser that was already running.
    pub fn connected(debug_ws_url: String) -> (r: Self)
        ensures
            r@ == (SessionModel {
                config: None,
                spawned: false,
                debug_ws_url: debug_ws_url@,
                browser_context: None,
                state: SessionState::Live,
            }),
    {
        Browser {
            config: None,
            spawned: false,
            debug_ws_url,
            browser_context: None,
            state: SessionState::Live,
        }
    }

    /// Incognito mode was configured at launch.
    pub open spec fn incognito_configured(&self) -> bool {
        self@.config matches Some(c) && c.incognito
    }

    fn is_incognito_configured(&self) -> (r: bool)
        ensures
            r == self.incognito_configured(),
    {
        match &self.config {
            Some(c) => c.incognito(),
            None => false,
        }
    }

    /// Whether new pages are incognito: configured so at launch, or inside
    /// an incognito context.
    pub fn is_incognito(&self) -> (r: bool)
        ensures
            r == (self.incognito_configured() || self@.browser_context is Some),
    {
        self.is_incognito_configured() || self.browser_context.is_some()
    }

    /// The socket URL of the browser.
    pub fn websocket_address(&self) -> (r: &String)
        ensures
            r@ == self@.debug_ws_url,
    {
        &self.debug_ws_url
    }

    /// The launch configuration, when this session launched the browser.
    pub fn config(&self) -> (r: Option<&BrowserConfig>)
        ensures
            match r {
                Some(c) => self@.config == Some(c@),
                None => self@.config is None,
            },
    {
        match &self.config {
            Some(c) => Some(c),
            None => None,
        }
    }

    /// Whether this session spawned the browser process.
    pub fn spawned(&self) -> (r: bool)
        ensures
            r == self@.spawned,
    {
        self.spawned
    }

    /// Where the session is in its lifecycle.
    pub fn state(&self) -> (r: SessionState)
        ensures
            r == self@.state,
    {
        self.state
    }

    /// The active browser context; `None` is the default context.
    pub fn browser_context(&self) -> (r: Option<&String>)
        ensures
            match r {
                Some(id) => self@.browser_context == Some(id@),
                None => self@.browser_context is None,
            },
    {
        match &self.browser_context {
            Some(id) => Some(id),
            None => None,
        }
    }

    /// The request that opens a page at `url`. A page without a context of
    /// its own goes to the session's active context.
    pub fn new_page(&self, url: &str, browser_context_id: Option<String>) -> (r: Request)
        ensures
            r matches Request::CreatePage { url: u, browser_context_id: ctx } && u@ == url@
                && match browser_context_id {
                Some(id) => ctx == Some(id),
                None => match ctx {
                    Some(c) => self@.browser_context == Some(c@),
                    None => self@.browser_context is None,
                },
            },
    {
        let ctx = match browser_context_id {
            Some(id) => Some(id),
            None => match &self.browser_context {
                Some(id) => Some(id.clone()),
                None => None,
            },
        };
        Request::CreatePage { url: String::from_str(url), browser_context_id: ctx }
    }

    /// The request that sets `cookies`, or the error of the first cookie whose
    /// URL a cookie cannot be set for. On an error nothing is to be sent.
    pub fn set_cookies(&self, cookies: Vec<CookieParam>) -> (r: Result<Request, String>)
        ensures
            r is Ok <==> cookies_ok(cookies@),
            r matches Ok(req) ==> (req matches Request::SetCookies(cs) && cs@ == cookies@),
            r matches Err(e) ==> exists|i: int|
                0 <= i < cookies@.len() && cookie_error(#[trigger] cookies@[i]) == Some(e@) && (
                forall|j: int| 0 <= j < i ==> #[trigger] cookie_ok(cookies@[j])),
    {
        let mut i: usize = 0;
        while i < cookies.len()
            invariant
                i <= cookies@.len(),
                forall|j: int| 0 <= j < i ==> #[trigger] cookie_ok(cookies@[j]),
            decreases cookies@.len() - i,
        {
            match &cookies[i].url {
                Some(u) => {
                    match validate_cookie_url(u.as_str()) {
                        Ok(()) => {},
                        Err(e) => {
                            assert(!cookie_ok(cookies@[i as int]));
                            assert(cookie_error(cookies@[i as int]) == Some(e@));
                            return Err(e);
                        },
                    }
                },
                None => {},
            }
            i = i + 1;
        }
        Ok(Request::SetCookies(cookies))
    }

    /// The request that creates an incognito context, unless incognito mode
    /// was configured at launch.
    pub fn start_incognito_context(&self) -> (r: Option<Request>)
        ensures
            r is Some <==> !self.incognito_configured(),
            r matches Some(req) ==> req is CreateBrowserContext,
    {
        if self.is_incognito_configured() {
            None
        } else {
            Some(Request::CreateBrowserContext)
        }
    }

    /// Makes the created context the one new pages go to, returning the
    /// request that has the protocol handler track it.
    pub fn enter_context(&mut self, id: String) -> (r: Request)
        ensures
            final(self)@ == (SessionModel { browser_context: Some(id@), ..old(self)@ }),
            r matches Request::TrackContext(t) && t@ == id@,
    {
        let handle = id.clone();
        self.browser_context = Some(id);
        Request::TrackContext(handle)
    }

    /// Leaves the active context, returning the requests that dispose of it
    /// and its pages and then have the protocol handler forget it; none in
    /// the default context.
    pub fn quit_incognito_context(&mut self) -> (r: Vec<Request>)
        ensures
            final(self)@ == (SessionModel { browser_context: None, ..old(self)@ }),
            match old(self)@.browser_context {
                Some(id) => r@.len() == 2 && (r@[0] matches Request::DisposeBrowserContext(d)
                    && d@ == id) && (r@[1] matches Request::UntrackContext(u) && u@ == id),
                None => r@.len() == 0,
            },
    {
        let mut r: Vec<Request> = Vec::new();
        match self.browser_context.take() {
            Some(id) => {
                let untracked = id.clone();
                r.push(Request::DisposeBrowserContext(id));
                r.push(Request::UntrackContext(untracked));
            },
            None => {},
        }
        r
    }

    /// Starts closing a live session: returns the request that closes the
    /// browser, and nothing in any other state.
    pub fn close(&mut self) -> (r: Option<Request>)
        ensures
            old(self)@.state == SessionState::Live ==> (r matches Some(Request::CloseBrowser)
                && final(self)@ == (SessionModel { state: SessionState::Closing, ..old(self)@ })),
            old(self)@.state != SessionState::Live ==> r is None && final(self)@ == old(self)@,
    {
        if self.state == SessionState::Live {
            self.state = SessionState::Closing;
            Some(Request::CloseBrowser)
        } else {
            None
        }
    }

    /// Records that the browser answered the close request.
    pub fn closed(&mut self)
        ensures
            old(self)@.state == SessionState::Closing ==> final(self)@ == (SessionModel {
                state: SessionState::Closed,
                ..old(self)@
            }),
            old(self)@.state != SessionState::Closing ==> final(self)@ == old(self)@,
    {
        if self.state == SessionState::Closing {
            self.state = SessionState::Closed;
        }
    }

    /// Whether dropping the session must warn: it spawned the browser and
    /// the process has not exited. The process is then left to be killed
    /// in the background.
    pub fn warn_on_drop(&self, child_exited: bool) -> (r: bool)
        ensures
            r == (self@.spawned && !child_exited),
    {
        self.spawned && !child_exited
    }
}

} // verus!
