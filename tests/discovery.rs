use chaser_oxide::discovery::ws_url_from_line;
use chaser_oxide::{
    cleanup_after_failure, ChildStatus, Cleanup, Discovery, DiscoveryEvent, DiscoveryStep,
    IoCause, LaunchError,
};

#[test]
fn announced_url_is_returned_trimmed() {
    let mut d = Discovery::new();
    let line = b"DevTools listening on ws://127.0.0.1:9222/devtools/browser/abc\n".to_vec();
    match d.step(DiscoveryEvent::Line(line)) {
        DiscoveryStep::Found(u) => assert_eq!(u, "ws://127.0.0.1:9222/devtools/browser/abc"),
        other => panic!("unexpected {:?}", other),
    }
}

#[test]
fn closed_stream_is_an_io_error() {
    let mut d = Discovery::new();
    assert!(matches!(d.step(DiscoveryEvent::Line(b"starting\n".to_vec())), DiscoveryStep::Pending));
    match d.step(DiscoveryEvent::Line(Vec::new())) {
        DiscoveryStep::Failed(LaunchError::Io { cause, stderr }) => {
            assert_eq!(cause, IoCause::UnexpectedEof);
            assert_eq!(stderr, b"starting\n".to_vec());
        }
        other => panic!("unexpected {:?}", other),
    }
}

#[test]
fn zero_deadline_times_out_first() {
    assert!(Discovery::deadline_reached(0, 0));
    assert!(!Discovery::deadline_reached(5, 6));
    let mut d = Discovery::new();
    match d.step(DiscoveryEvent::TimedOut) {
        DiscoveryStep::Failed(LaunchError::Timeout { stderr }) => assert!(stderr.is_empty()),
        other => panic!("unexpected {:?}", other),
    }
}

#[test]
fn invalid_utf8_is_an_io_error() {
    let mut d = Discovery::new();
    match d.step(DiscoveryEvent::Line(vec![0xff, 0xfe, b'\n'])) {
        DiscoveryStep::Failed(LaunchError::Io { cause, stderr }) => {
            assert_eq!(cause, IoCause::InvalidData);
            assert_eq!(stderr, vec![0xff, 0xfe, b'\n']);
        }
        other => panic!("unexpected {:?}", other),
    }
}

#[test]
fn exit_carries_code_and_captured_bytes() {
    let mut d = Discovery::new();
    d.step(DiscoveryEvent::Line(b"crash\n".to_vec()));
    match d.step(DiscoveryEvent::Exited(Some(1))) {
        DiscoveryStep::Failed(LaunchError::Exit { code, stderr }) => {
            assert_eq!(code, Some(1));
            assert_eq!(stderr, b"crash\n".to_vec());
        }
        other => panic!("unexpected {:?}", other),
    }
    assert_eq!(d.captured(), &b"crash\n".to_vec());
}

#[test]
fn read_and_wait_failures_are_io_errors() {
    let mut d = Discovery::new();
    assert!(matches!(
        d.step(DiscoveryEvent::ReadFailed("broken pipe".to_string())),
        DiscoveryStep::Failed(LaunchError::Io { cause: IoCause::Other(_), .. })
    ));
    assert!(matches!(
        d.step(DiscoveryEvent::WaitFailed("no child".to_string())),
        DiscoveryStep::Failed(LaunchError::Io { cause: IoCause::Other(_), .. })
    ));
}

#[test]
fn other_announcements_let_the_race_go_on() {
    assert_eq!(ws_url_from_line("Server listening on http://x/devtools/browser/1"), None);
    assert_eq!(ws_url_from_line("listening on ws://h/devtools/page/1"), None);
    assert_eq!(ws_url_from_line("nothing here"), None);
    assert_eq!(
        ws_url_from_line("a listening on b listening on ws://h:1/devtools/browser/x \r\n"),
        Some("ws://h:1/devtools/browser/x".to_string())
    );
    let mut d = Discovery::new();
    assert!(matches!(
        d.step(DiscoveryEvent::Line(b"Server listening on http://x\n".to_vec())),
        DiscoveryStep::Pending
    ));
}

#[test]
fn failed_launch_reaps_a_running_child() {
    assert_eq!(cleanup_after_failure(ChildStatus::Exited), Cleanup::Nothing);
    assert_eq!(cleanup_after_failure(ChildStatus::Running), Cleanup::KillAndWait);
    assert_eq!(cleanup_after_failure(ChildStatus::Unknown), Cleanup::KillAndWait);
}
