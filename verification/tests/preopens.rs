use wvwasi::options::{borrowed_options, owned_preopens, preopen_placement, PreopenPlacement, WvWasiOptions, WvWasiPreopen};

#[test]
fn root_guest_path_replaces_root() {
    assert_eq!(preopen_placement("/"), PreopenPlacement::ReplaceRoot);
    assert_eq!(preopen_placement("/tmp"), PreopenPlacement::Append);
    assert_eq!(preopen_placement(""), PreopenPlacement::Append);
    assert_eq!(preopen_placement("//"), PreopenPlacement::Append);
}

#[test]
fn preopens_round_trip() {
    let options = WvWasiOptions {
        preopens: vec![
            WvWasiPreopen { path: "C:\\temp", guest_path: "/" },
            WvWasiPreopen { path: "D:\\data", guest_path: "/data" },
        ],
    };
    let owned = owned_preopens(Some(options));
    assert_eq!(
        owned,
        vec![("/".to_string(), "C:\\temp".to_string()), ("/data".to_string(), "D:\\data".to_string())]
    );
    let back = borrowed_options(&owned);
    assert_eq!(back.preopens.len(), 2);
    assert_eq!(back.preopens[1].guest_path, "/data");
    assert_eq!(back.preopens[1].path, "D:\\data");
    assert!(owned_preopens(None).is_empty());
}
