use wvwasi::method::Method;
use wvwasi::route::{decide_action, Action};

#[test]
fn indexed_path_reaches_call() {
    assert_eq!(
        decide_action("/1/wasi_snapshot_preview1/fd_write", 2),
        Action::Invoke { index: 1, method: Method::FdWrite }
    );
}

#[test]
fn path_without_index_uses_instance_zero() {
    assert_eq!(
        decide_action("/wasi_snapshot_preview1/fd_close", 1),
        Action::Invoke { index: 0, method: Method::FdClose }
    );
}

#[test]
fn init_creates_instance_at_count() {
    assert_eq!(decide_action("/wasi_snapshot_preview1/init", 0), Action::Init { index: 0 });
    assert_eq!(decide_action("/7/wasi_snapshot_preview1/init", 3), Action::Init { index: 3 });
}

#[test]
fn missing_instance_is_ignored() {
    assert_eq!(decide_action("/2/wasi_snapshot_preview1/fd_read", 2), Action::Ignore);
    assert_eq!(decide_action("/wasi_snapshot_preview1/fd_read", 0), Action::Ignore);
}

#[test]
fn unrouted_call_is_ignored() {
    assert_eq!(decide_action("/wasi_snapshot_preview1/args_get", 1), Action::Ignore);
    assert_eq!(decide_action("/wasi_snapshot_preview1/sock_accept", 1), Action::Ignore);
    assert_eq!(decide_action("/wasi_snapshot_preview1/fd_writes", 1), Action::Ignore);
}

#[test]
fn path_without_version_is_ignored() {
    assert_eq!(decide_action("/fd_write", 1), Action::Ignore);
    assert_eq!(decide_action("", 1), Action::Ignore);
    assert_eq!(decide_action("/wasi_snapshot_preview1/", 1), Action::Ignore);
    assert_eq!(decide_action("/wasi_snapshot_preview2/fd_write", 1), Action::Ignore);
}

#[test]
fn leftmost_match_is_taken() {
    // A prefix before the pattern is skipped; the first occurrence wins.
    assert_eq!(
        decide_action("/x/3/wasi_snapshot_preview1/fd_sync", 4),
        Action::Invoke { index: 3, method: Method::FdSync }
    );
    // Digits not preceded by a slash are not an index.
    assert_eq!(
        decide_action("/x3/wasi_snapshot_preview1/fd_sync", 4),
        Action::Invoke { index: 0, method: Method::FdSync }
    );
}

#[test]
fn call_segment_runs_to_end_of_line() {
    // Everything after the version up to a line feed is the call segment.
    assert_eq!(
        decide_action("/wasi_snapshot_preview1/fd_tell\nrest", 1),
        Action::Invoke { index: 0, method: Method::FdTell }
    );
    assert_eq!(decide_action("/wasi_snapshot_preview1/fd_tell/x", 1), Action::Ignore);
}

#[test]
fn overflowing_index_reads_as_zero() {
    assert_eq!(
        decide_action("/99999999999999999999999/wasi_snapshot_preview1/fd_seek", 1),
        Action::Invoke { index: 0, method: Method::FdSeek }
    );
}

#[test]
fn leading_zeros_in_index() {
    assert_eq!(
        decide_action("/0001/wasi_snapshot_preview1/path_open", 2),
        Action::Invoke { index: 1, method: Method::PathOpen }
    );
}

#[test]
fn every_routed_call_is_reachable() {
    let names = [
        ("fd_advise", Method::FdAdvise),
        ("fd_allocate", Method::FdAllocate),
        ("fd_close", Method::FdClose),
        ("fd_datasync", Method::FdDatasync),
        ("fd_fdstat_get", Method::FdFdstatGet),
        ("fd_fdstat_set_flags", Method::FdFdstatSetFlags),
        ("fd_fdstat_set_rights", Method::FdFdstatSetRights),
        ("fd_filestat_get", Method::FdFilestatGet),
        ("fd_filestat_set_size", Method::FdFilestatSetSize),
        ("fd_filestat_set_times", Method::FdFilestatSetTimes),
        ("fd_pread", Method::FdPread),
        ("fd_prestat_get", Method::FdPrestatGet),
        ("fd_prestat_dir_name", Method::FdPrestatDirName),
        ("fd_pwrite", Method::FdPwrite),
        ("fd_read", Method::FdRead),
        ("fd_readdir", Method::FdReaddir),
        ("fd_renumber", Method::FdRenumber),
        ("fd_seek", Method::FdSeek),
        ("fd_sync", Method::FdSync),
        ("fd_tell", Method::FdTell),
        ("fd_write", Method::FdWrite),
        ("path_create_directory", Method::PathCreateDirectory),
        ("path_filestat_get", Method::PathFilestatGet),
        ("path_filestat_set_times", Method::PathFilestatSetTimes),
        ("path_link", Method::PathLink),
        ("path_open", Method::PathOpen),
        ("path_readlink", Method::PathReadlink),
        ("path_remove_directory", Method::PathRemoveDirectory),
        ("path_rename", Method::PathRename),
        ("path_symlink", Method::PathSymlink),
        ("path_unlink_file", Method::PathUnlinkFile),
    ];
    for (name, m) in names {
        let path = format!("/5/wasi_snapshot_preview1/{}", name);
        assert_eq!(decide_action(&path, 6), Action::Invoke { index: 5, method: m });
        assert!(m.is_routed());
    }
}

#[test]
fn rendered_index_reads_back() {
    for n in [0usize, 9, 10, 99, 100, 4096, usize::MAX] {
        let path = format!("/{}/wasi_snapshot_preview1/fd_renumber", n);
        let count = if n == usize::MAX { usize::MAX } else { n + 1 };
        let expected = if n < count { Action::Invoke { index: n, method: Method::FdRenumber } } else { Action::Ignore };
        assert_eq!(decide_action(&path, count), expected);
    }
}

#[test]
fn more_instances_keep_a_served_request() {
    let path = "/3/wasi_snapshot_preview1/fd_datasync";
    let served = decide_action(path, 4);
    assert_eq!(served, Action::Invoke { index: 3, method: Method::FdDatasync });
    for count in [5usize, 10, 1000] {
        assert_eq!(decide_action(path, count), served);
    }
}

#[test]
fn path_calls_are_dispatched() {
    assert_eq!(
        decide_action("/wasi_snapshot_preview1/path_create_directory", 1),
        Action::Invoke { index: 0, method: Method::PathCreateDirectory }
    );
    assert_eq!(
        decide_action("/wasi_snapshot_preview1/path_symlink", 1),
        Action::Invoke { index: 0, method: Method::PathSymlink }
    );
}
