use launchpad::adapter::quicklaunch::QuickLaunchItem;
use launchpad::adapter::quicklaunch::items_file_path;
use launchpad::adapter::star_store::JsonStarStore;
use launchpad::companion::helper::{
    action_to_enqueue, parse_job_ids_csv, program_setting, resolve_actions_path,
    resolve_state_path, summarize_groups,
};
use launchpad::companion::menubar::{menu_items_limit, shorten_title, status_badge};

fn item(id: &str, status: &str, group: &str) -> QuickLaunchItem {
    QuickLaunchItem {
        id: id.to_string(),
        title: id.to_string(),
        status: status.to_string(),
        group: group.to_string(),
        is_starred: false,
        updated_at_unix_secs: 1,
    }
}

#[test]
fn resolve_state_prefers_explicit_value() {
    let path = resolve_state_path(
        Some("/tmp/custom-quicklaunch.json".to_string()),
        Some("/Users/demo".to_string()),
    );
    assert_eq!(path, "/tmp/custom-quicklaunch.json");
}

#[test]
fn resolve_actions_path_prefers_explicit_value() {
    let path = resolve_actions_path(Some("/tmp/actions.json".to_string()), "/tmp/state.json");
    assert_eq!(path, "/tmp/actions.json");
}

#[test]
fn parse_job_ids_csv_ignores_empty_segments() {
    let parsed = parse_job_ids_csv("a, b,, ,c");
    assert_eq!(
        parsed,
        vec!["a".to_string(), "b".to_string(), "c".to_string()]
    );
}

#[test]
fn summarize_groups_counts_items() {
    let items = vec![
        QuickLaunchItem {
            id: "1".to_string(),
            title: "A".to_string(),
            status: "loaded".to_string(),
            group: "user-agent".to_string(),
            is_starred: true,
            updated_at_unix_secs: 1,
        },
        QuickLaunchItem {
            id: "2".to_string(),
            title: "B".to_string(),
            status: "running".to_string(),
            group: "user-agent".to_string(),
            is_starred: false,
            updated_at_unix_secs: 2,
        },
        QuickLaunchItem {
            id: "3".to_string(),
            title: "C".to_string(),
            status: "loaded".to_string(),
            group: "global-agent".to_string(),
            is_starred: true,
            updated_at_unix_secs: 3,
        },
    ];
    let grouped = summarize_groups(&items);
    assert_eq!(grouped.get("user-agent"), Some(2));
    assert_eq!(grouped.get("global-agent"), Some(1));
}

#[test]
fn state_and_action_paths_fall_back_to_defaults() {
    assert_eq!(
        resolve_state_path(Some("   ".to_string()), Some("/Users/demo".to_string())),
        "/Users/demo/.config/launchpad/quicklaunch-helper-state.json"
    );
    assert_eq!(
        resolve_state_path(None, None),
        ".launchpad-quicklaunch-helper-state.json"
    );
    assert_eq!(
        resolve_actions_path(None, "/Users/demo/.config/launchpad/state.json"),
        "/Users/demo/.config/launchpad/quicklaunch-helper-actions.json"
    );
}

#[test]
fn groups_come_out_in_ascending_order() {
    let items = vec![item("1", "loaded", "b"), item("2", "loaded", "a"), item("3", "loaded", "b")];
    let grouped = summarize_groups(&items);
    assert_eq!(grouped.len(), 2);
    assert_eq!(grouped.entry(0), ("a".to_string(), 1));
    assert_eq!(grouped.entry(1), ("b".to_string(), 2));
    assert_eq!(grouped.get("c"), None);
}

#[test]
fn enqueued_actions_are_normalized_and_checked() {
    let action = action_to_enqueue("  START ", "id-1,id-2").expect("action");
    assert_eq!(action.action, "start");
    assert_eq!(action.job_ids, vec!["id-1".to_string(), "id-2".to_string()]);
    assert_eq!(action_to_enqueue(" ", "id-1").unwrap_err(), "action is required");
    assert_eq!(
        action_to_enqueue("stop", " , ").unwrap_err(),
        "at least one job id is required"
    );
}

#[test]
fn menubar_titles_are_shortened_with_an_ellipsis() {
    assert_eq!(shorten_title("short", 10), "short");
    assert_eq!(shorten_title("abcdefghij", 4), "abcd…");
}

#[test]
fn status_badge_counts_statuses() {
    let empty: Vec<QuickLaunchItem> = Vec::new();
    assert_eq!(
        status_badge(&empty),
        ("⚪ no tracked items".to_string(), "no tracked items".to_string())
    );
    let items = vec![item("1", "running", "g"), item("2", "loaded", "g"), item("3", "odd", "g")];
    let (badge, detail) = status_badge(&items);
    assert_eq!(badge, "🟢 R1 L1 D0");
    assert_eq!(detail, "items=3 running=1 loaded=1 disabled=0 unknown=1");
    let items = vec![item("1", "disabled", "g")];
    assert_eq!(status_badge(&items).0, "🟡 R0 L0 D1");
    let items = vec![item("1", "loaded", "g")];
    assert_eq!(status_badge(&items).0, "🔵 R0 L1 D0");
}

#[test]
fn program_setting_keeps_only_given_programs() {
    assert_eq!(program_setting(Some("/usr/local/bin/helper".to_string())), Some("/usr/local/bin/helper".to_string()));
    assert_eq!(program_setting(Some(" helper ".to_string())), Some(" helper ".to_string()));
    assert_eq!(program_setting(Some("   ".to_string())), None);
    assert_eq!(program_setting(Some(String::new())), None);
    assert_eq!(program_setting(None), None);
}

#[test]
fn default_files_live_under_home_or_the_working_directory() {
    assert_eq!(
        JsonStarStore::for_home(Some("/Users/demo".to_string())).path(),
        "/Users/demo/.config/launchpad/stars.json"
    );
    assert_eq!(JsonStarStore::for_home(None).path(), ".launchpad-stars.json");
    assert_eq!(
        items_file_path(Some("/Users/demo".to_string())),
        "/Users/demo/.config/launchpad/quicklaunch-items.json"
    );
    assert_eq!(items_file_path(None), ".launchpad-quicklaunch-items.json");
}

#[test]
fn menu_limit_takes_positive_numbers_only() {
    assert_eq!(menu_items_limit(None), 8);
    assert_eq!(menu_items_limit(Some("3".to_string())), 3);
    assert_eq!(menu_items_limit(Some("0".to_string())), 8);
    assert_eq!(menu_items_limit(Some("many".to_string())), 8);
    assert_eq!(menu_items_limit(Some(" 4".to_string())), 8);
}
