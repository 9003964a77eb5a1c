use bsdev::forward::{after_alive_check, pid_contents, read_tracked, start, stop, ForwardStart};

#[test]
fn forward_pid_files_read_back() {
    assert_eq!(read_tracked(&pid_contents(4242)), Some(4242));
    assert_eq!(read_tracked(&pid_contents(4294967295)), Some(4294967295));
    assert_eq!(read_tracked(" 17\n"), Some(17));
    assert_eq!(pid_contents(0), "0");
    assert_eq!(read_tracked("4294967296"), None);
    assert_eq!(read_tracked("12:34"), None);
    assert_eq!(read_tracked(""), None);
}

#[test]
fn a_forward_is_spawned_only_without_a_live_process() {
    assert_eq!(start(Some(9)), ForwardStart::CheckAlive { pid: 9 });
    assert_eq!(start(None), ForwardStart::Spawn);
    assert_eq!(after_alive_check(true), ForwardStart::Keep);
    assert_eq!(after_alive_check(false), ForwardStart::Spawn);
}

#[test]
fn stopping_ends_the_tracked_process() {
    assert_eq!(stop(Some(31)), Some(31));
    assert_eq!(stop(None), None);
}
