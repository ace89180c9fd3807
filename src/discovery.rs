//! Debug endpoint discovery: the decisions of the race between the deadline,
//! the browser's exit and the lines of its diagnostic stream.
use vstd::prelude::*;
use vstd::utf8::{decode_utf8, valid_utf8};

use crate::text::{
    contains, contains_exec, find_last, find_last_exec, starts_with, starts_with_exec, trim,
    trimmed,
};

verus! {

/// What went wrong while reading or waiting.
#[derive(Debug, Clone, PartialEq, Eq)]
pub enum IoCause {
    /// The stream closed before the endpoint was announced.
    UnexpectedEof,
    /// A line was not valid UTF-8.
    InvalidData,
    /// Another I/O failure, with its message.
    Other(String),
}

/// Why a launch failed. Each error carries every byte read from the
/// diagnostic stream so far.
#[derive(Debug, Clone)]
pub enum LaunchError {
    /// The deadline passed first.
    Timeout { stderr: Vec<u8> },
    /// The browser exited first, with its exit code when it has one.
    Exit { code: Option<i32>, stderr: Vec<u8> },
    /// Reading the stream or waiting for the exit failed.
    Io { cause: IoCause, stderr: Vec<u8> },
}

/// One signal of the race.
#[derive(Debug, Clone)]
pub enum DiscoveryEvent {
    /// The deadline passed.
    TimedOut,
    /// The browser exited, with its exit code when it has one.
    Exited(Option<i32>),
    /// Waiting for the exit failed.
    WaitFailed(String),
    /// Reading the stream failed.
    ReadFailed(String),
    /// The bytes of one line, newline included; empty at the end of the stream.
    Line(Vec<u8>),
}

/// What the race does after a signal.
#[derive(Debug, Clone)]
pub enum DiscoveryStep {
    /// Keep waiting for the next signal.
    Pending,
    /// The endpoint URL was announced.
    Found(String),
    /// The launch failed; the browser process must be reaped.
    Failed(LaunchError),
}

/// The text that precedes the endpoint in the announcement.
pub open spec fn announcement() -> Seq<char> {
    "listening on "@
}

/// The endpoint a diagnostic line announces: what follows the last
/// `listening on `, trimmed, when it starts with `ws` and names a
/// `devtools/browser` path.
pub open spec fn line_url(line: Seq<char>) -> Option<Seq<char>> {
    let k = find_last(line, announcement());
    if k < 0 {
        None
    } else {
        let ws = line.subrange(k + announcement().len(), line.len() as int);
        if starts_with(ws, "ws"@) && contains(ws, "devtools/browser"@) {
            Some(trimmed(ws))
        } else {
            None
        }
    }
}

/// The endpoint a diagnostic line announces, if it announces one.
pub fn ws_url_from_line(line: &str) -> (r: Option<String>)
    ensures
        match r {
            Some(u) => line_url(line@) == Some(u@),
            None => line_url(line@) is None,
        },
{
    match find_last_exec(line, "listening on ") {
        None => None,
        Some(k) => {
            let n = line.unicode_len();
            proof {
                reveal_strlit("listening on ");
            }
            let ws = line.substring_char(k + 13, n);
            if starts_with_exec(ws, "ws") && contains_exec(ws, "devtools/browser") {
                Some(trim(ws))
            } else {
                None
            }
        },
    }
}

/// Relies on `std::str::from_utf8`: it accepts exactly the well-formed UTF-8
/// byte sequences and decodes them.
#[verifier::external_body]
fn utf8_text(bytes: &[u8]) -> (r: Option<String>)
    ensures
        r is Some <==> valid_utf8(bytes@),
        r matches Some(s) ==> s@ == decode_utf8(bytes@),
{
    match std::str::from_utf8(bytes) {
        Ok(s) => Some(s.to_string()),
        Err(_) => None,
    }
}

/// The outcome of one line of the stream, given the bytes captured so far
/// with the line included.
pub open spec fn line_step_spec(line: Seq<u8>, captured: Seq<u8>) -> DiscoveryStepModel {
    if line.len() == 0 {
        DiscoveryStepModel::Failed(LaunchErrorModel::Io(IoCauseModel::UnexpectedEof, captured))
    } else if !valid_utf8(line) {
        DiscoveryStepModel::Failed(LaunchErrorModel::Io(IoCauseModel::InvalidData, captured))
    } else {
        match line_url(decode_utf8(line)) {
            Some(u) => DiscoveryStepModel::Found(u),
            None => DiscoveryStepModel::Pending,
        }
    }
}

/// The model of an I/O cause.
pub enum IoCauseModel {
    UnexpectedEof,
    InvalidData,
    Other(Seq<char>),
}

/// The model of a launch error.
pub enum LaunchErrorModel {
    Timeout(Seq<u8>),
    Exit(Option<i32>, Seq<u8>),
    Io(IoCauseModel, Seq<u8>),
}

/// The model of a step of the race.
pub enum DiscoveryStepModel {
    Pending,
    Found(Seq<char>),
    Failed(LaunchErrorModel),
}

impl View for IoCause {
    type V = IoCauseModel;

    open spec fn view(&self) -> IoCauseModel {
        match self {
            IoCause::UnexpectedEof => IoCauseModel::UnexpectedEof,
            IoCause::InvalidData => IoCauseModel::InvalidData,
            IoCause::Other(m) => IoCauseModel::Other(m@),
        }
    }
}

impl View for LaunchError {
    type V = LaunchErrorModel;

    open spec fn view(&self) -> LaunchErrorModel {
        match self {
            LaunchError::Timeout { stderr } => LaunchErrorModel::Timeout(stderr@),
            LaunchError::Exit { code, stderr } => LaunchErrorModel::Exit(*code, stderr@),
            LaunchError::Io { cause, stderr } => LaunchErrorModel::Io(cause@, stderr@),
        }
    }
}

impl View for DiscoveryStep {
    type V = DiscoveryStepModel;

    open spec fn view(&self) -> DiscoveryStepModel {
        match self {
            DiscoveryStep::Pending => DiscoveryStepModel::Pending,
            DiscoveryStep::Found(u) => DiscoveryStepModel::Found(u@),
            DiscoveryStep::Failed(e) => DiscoveryStepModel::Failed(e@),
        }
    }
}

/// The outcome of a signal, given the bytes captured before it.
pub open spec fn step_spec(captured: Seq<u8>, ev: DiscoveryEvent) -> DiscoveryStepModel {
    match ev {
        DiscoveryEvent::TimedOut => DiscoveryStepModel::Failed(LaunchErrorModel::Timeout(captured)),
        DiscoveryEvent::Exited(code) => DiscoveryStepModel::Failed(
            LaunchErrorModel::Exit(code, captured),
        ),
        DiscoveryEvent::WaitFailed(m) => DiscoveryStepModel::Failed(
            LaunchErrorModel::Io(IoCauseModel::Other(m@), captured),
        ),
        DiscoveryEvent::ReadFailed(m) => DiscoveryStepModel::Failed(
            LaunchErrorModel::Io(IoCauseModel::Other(m@), captured),
        ),
        DiscoveryEvent::Line(b) => line_step_spec(b@, captured + b@),
    }
}

/// The bytes captured after a signal.
pub open spec fn captured_after(captured: Seq<u8>, ev: DiscoveryEvent) -> Seq<u8> {
    match ev {
        DiscoveryEvent::Line(b) => captured + b@,
        _ => captured,
    }
}

/// The state of one discovery race: the diagnostic bytes read so far.
pub struct Discovery {
    stderr: Vec<u8>,
}

impl View for Discovery {
    type V = Seq<u8>;

    closed spec fn view(&self) -> Seq<u8> {
        self.stderr@
    }
}

impl Discovery {
    /// A race that has read nothing yet.
    pub fn new() -> (r: Self)
        ensures
            r@ == Seq::<u8>::empty(),
    {
        Discovery { stderr: Vec::new() }
    }

    /// The diagnostic bytes read so far.
    pub fn captured(&self) -> (r: &Vec<u8>)
        ensures
            r@ == self@,
    {
        &self.stderr
    }

    /// Whether the deadline has passed after `elapsed_ms` of a launch that
    /// allows `timeout_ms`. With a zero timeout it has passed from the start,
    /// so the timeout wins before any other signal is looked at.
    pub fn deadline_reached(elapsed_ms: u64, timeout_ms: u64) -> (r: bool)
        ensures
            r == (elapsed_ms >= timeout_ms),
    {
        elapsed_ms >= timeout_ms
    }

    /// Takes one signal of the race. The deadline, an exit, or a failure to
    /// read or wait ends the race with the matching error. A line is added to
    /// the captured bytes; an empty line (end of stream) or one that is not
    /// UTF-8 ends the race with an I/O error; a line that announces the
    /// endpoint ends it with the trimmed URL; any other line lets it go on.
    pub fn step(&mut self, ev: DiscoveryEvent) -> (r: DiscoveryStep)
        ensures
            r@ == step_spec(old(self)@, ev),
            final(self)@ == captured_after(old(self)@, ev),
    {
        match ev {
            DiscoveryEvent::TimedOut => DiscoveryStep::Failed(
                LaunchError::Timeout { stderr: copy_bytes(&self.stderr) },
            ),
            DiscoveryEvent::Exited(code) => DiscoveryStep::Failed(
                LaunchError::Exit { code, stderr: copy_bytes(&self.stderr) },
            ),
            DiscoveryEvent::WaitFailed(m) => DiscoveryStep::Failed(
                LaunchError::Io { cause: IoCause::Other(m), stderr: copy_bytes(&self.stderr) },
            ),
            DiscoveryEvent::ReadFailed(m) => DiscoveryStep::Failed(
                LaunchError::Io { cause: IoCause::Other(m), stderr: copy_bytes(&self.stderr) },
            ),
            DiscoveryEvent::Line(b) => {
                let ghost line = b@;
                let text = utf8_text(b.as_slice());
                let empty = b.len() == 0;
                let mut b = b;
                self.stderr.append(&mut b);
                if empty {
                    DiscoveryStep::Failed(
                        LaunchError::Io {
                            cause: IoCause::UnexpectedEof,
                            stderr: copy_bytes(&self.stderr),
                        },
                    )
                } else {
                    match text {
                        None => DiscoveryStep::Failed(
                            LaunchError::Io {
                                cause: IoCause::InvalidData,
                                stderr: copy_bytes(&self.stderr),
                            },
                        ),
                        Some(t) => match ws_url_from_line(t.as_str()) {
                            Some(u) => DiscoveryStep::Found(u),
                            None => DiscoveryStep::Pending,
                        },
                    }
                }
            },
        }
    }
}

fn copy_bytes(v: &Vec<u8>) -> (r: Vec<u8>)
    ensures
        r@ == v@,
{
    let mut r: Vec<u8> = Vec::new();
    let mut i: usize = 0;
    while i < v.len()
        invariant
            i <= v@.len(),
            r@ == v@.subrange(0, i as int),
        decreases v@.len() - i,
    {
        r.push(v[i]);
        i = i + 1;
        assert(r@ =~= v@.subrange(0, i as int));
    }
    assert(v@.subrange(0, v@.len() as int) =~= v@);
    r
}

/// What is known of the browser process after a failed discovery.
#[derive(Debug, Clone, Copy, PartialEq, Eq, Structural)]
pub enum ChildStatus {
    /// It has exited.
    Exited,
    /// It is still running.
    Running,
    /// Asking failed.
    Unknown,
}

/// How to reap the browser process after a failed discovery.
#[derive(Debug, Clone, Copy, PartialEq, Eq, Structural)]
pub enum Cleanup {
    /// It has exited already: nothing is left to do.
    Nothing,
    /// Kill it, then wait for its exit, before the error is returned.
    KillAndWait,
}

/// After a failed discovery the browser process is killed and waited for,
/// unless it is known to have exited already, so that no failed launch leaves
/// a process behind.
pub fn cleanup_after_failure(status: ChildStatus) -> (r: Cleanup)
    ensures
        r == Cleanup::Nothing <==> status == ChildStatus::Exited,
        r == Cleanup::KillAndWait <==> status != ChildStatus::Exited,
{
    match status {
        ChildStatus::Exited => Cleanup::Nothing,
        _ => Cleanup::KillAndWait,
    }
}

} // verus!
