use bsdev::adbtunnel::{after_alive_check, parse_tracked, start, stop, tracked_contents, TunnelStart};

#[test]
fn parses_pid_and_port() {
    assert_eq!(parse_tracked("1234:5037"), Some((1234, Some(5037))));
}

#[test]
fn parses_legacy_pid_only_as_unknown_port() {
    assert_eq!(parse_tracked("1234"), Some((1234, None)));
}

#[test]
fn rejects_an_unparseable_pid() {
    assert_eq!(parse_tracked("not-a-pid"), None);
    assert_eq!(parse_tracked(""), None);
}

#[test]
fn tolerates_an_unparseable_port_as_unknown() {
    // A valid pid with garbage after the colon still forces a restart
    // (unknown port), rather than discarding the whole entry.
    assert_eq!(parse_tracked("1234:not-a-port"), Some((1234, None)));
}

#[test]
fn written_pid_files_read_back() {
    let text = tracked_contents(4294967295, 65535);
    assert_eq!(text, "4294967295:65535");
    assert_eq!(parse_tracked(&text), Some((4294967295, Some(65535))));
    assert_eq!(parse_tracked(" 42:5037\n"), Some((42, Some(5037))));
    assert_eq!(parse_tracked("42:65536"), Some((42, None)));
    assert_eq!(parse_tracked("4294967296"), None);
    assert_eq!(parse_tracked("+7"), Some((7, None)));
}

#[test]
fn the_tunnel_restarts_only_when_it_must() {
    assert_eq!(start(None, Some((1, Some(5037)))), TunnelStart::Disable);
    assert_eq!(start(Some(5037), Some((9, Some(5037)))), TunnelStart::CheckAlive { pid: 9, port: 5037 });
    assert_eq!(start(Some(5037), Some((9, Some(5038)))), TunnelStart::Restart { port: 5037 });
    assert_eq!(start(Some(5037), Some((9, None))), TunnelStart::Restart { port: 5037 });
    assert_eq!(start(Some(5037), None), TunnelStart::Restart { port: 5037 });
    assert_eq!(after_alive_check(true, 5037), TunnelStart::Keep);
    assert_eq!(after_alive_check(false, 5037), TunnelStart::Restart { port: 5037 });
    assert_eq!(stop(Some((9, None))), Some(9));
    assert_eq!(stop(None), None);
}
