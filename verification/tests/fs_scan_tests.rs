use launchpad::adapter::fs_scan::order_by_path;
use launchpad::domain::job::JobScope;

#[test]
fn scanned_paths_are_ordered_component_by_component() {
    let found = vec![
        ("/b/x.plist".to_string(), JobScope::UserAgent),
        ("/a-b/z.plist".to_string(), JobScope::SystemDaemon),
        ("/a/y.plist".to_string(), JobScope::GlobalAgent),
        ("/a/b/c.plist".to_string(), JobScope::UserAgent),
    ];
    let ordered = order_by_path(&found);
    let paths: Vec<&str> = ordered.iter().map(|(p, _)| p.as_str()).collect();
    assert_eq!(paths, vec!["/a/b/c.plist", "/a/y.plist", "/a-b/z.plist", "/b/x.plist"]);
    assert_eq!(ordered[1].1, JobScope::GlobalAgent);
    assert_eq!(ordered[2].1, JobScope::SystemDaemon);
}

#[test]
fn entries_with_the_same_path_keep_their_order() {
    let found = vec![
        ("/a/x.plist".to_string(), JobScope::SystemDaemon),
        ("/a//x.plist".to_string(), JobScope::UserAgent),
        ("/0.plist".to_string(), JobScope::GlobalAgent),
    ];
    let ordered = order_by_path(&found);
    assert_eq!(ordered[0].0, "/0.plist");
    assert_eq!(ordered[1], ("/a/x.plist".to_string(), JobScope::SystemDaemon));
    assert_eq!(ordered[2], ("/a//x.plist".to_string(), JobScope::UserAgent));
}
