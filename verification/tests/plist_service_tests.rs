use std::sync::{Arc, Mutex};

use launchpad::adapter::plist_doc::PlistDocumentStore;
use launchpad::adapter::plist_codec::{document_from_bytes, document_xml, summary_from_bytes};
use launchpad::domain::job::JobScope;
use launchpad::domain::plist_document::StandardPlistDocument;
use launchpad::error::{AppError, AppResult};
use launchpad::service::plist_service::PlistService;
use launchpad::string_map::StringMap;

#[derive(Debug, Default)]
struct MockPlistStore {
    saved: Mutex<Vec<(String, StandardPlistDocument)>>,
}

impl PlistDocumentStore for MockPlistStore {
    fn load_standard_document(&self, _path: &str) -> AppResult<StandardPlistDocument> {
        Ok(StandardPlistDocument::default())
    }

    fn save_standard_document(&self, path: &str, document: &StandardPlistDocument) -> AppResult<()> {
        self.saved
            .lock()
            .expect("lock")
            .push((path.to_string(), document.clone()));
        Ok(())
    }

    fn to_xml(&self, document: &StandardPlistDocument) -> AppResult<String> {
        Ok(format!("<plist><string>{}</string></plist>", document.label))
    }
}

fn demo_doc() -> StandardPlistDocument {
    StandardPlistDocument {
        label: "com.demo.new".to_string(),
        program: "/bin/echo".to_string(),
        ..StandardPlistDocument::default()
    }
}

#[test]
fn create_new_generates_scope_specific_path() {
    let store = Arc::new(MockPlistStore::default());
    let service = PlistService::with_home_dir(store.clone(), Some("/Users/demo".to_string()));
    let path = service
        .create_new(JobScope::UserAgent, &demo_doc())
        .expect("create new");
    assert_eq!(path, "/Users/demo/Library/LaunchAgents/com.demo.new.plist");
}

#[test]
fn save_existing_rejects_outside_scope() {
    let store = Arc::new(MockPlistStore::default());
    let service = PlistService::with_home_dir(store, Some("/Users/demo".to_string()));
    let err = service
        .save_existing("/tmp/com.demo.new.plist", &JobScope::UserAgent, &demo_doc())
        .expect_err("reject non-whitelisted path");
    assert!(matches!(err, AppError::Validation(_)));
}

#[test]
fn parse_and_format_env_pairs_roundtrip() {
    let store = Arc::new(MockPlistStore::default());
    let service = PlistService::with_home_dir(store, Some("/Users/demo".to_string()));
    let parsed = service
        .parse_env_pairs("A=1, B = two")
        .expect("parse env pairs");
    assert_eq!(
        parsed,
        StringMap::from_pairs(vec![
            ("A".to_string(), "1".to_string()),
            ("B".to_string(), "two".to_string())
        ])
    );
    assert_eq!(service.format_env_pairs(&parsed), "A=1, B=two");
}

#[test]
fn env_pairs_errors_name_the_bad_token() {
    let service = PlistService::with_home_dir(Arc::new(MockPlistStore::default()), None);
    match service.parse_env_pairs("A=1, broken") {
        Err(AppError::Validation(m)) => {
            assert_eq!(m, "Environment variable format invalid: `broken` (expected KEY=VALUE)")
        }
        other => panic!("unexpected: {other:?}"),
    }
    match service.parse_env_pairs(" =x") {
        Err(AppError::Validation(m)) => assert_eq!(m, "Environment variable key cannot be empty"),
        other => panic!("unexpected: {other:?}"),
    }
    let parsed = service.parse_env_pairs("Z=1,A=2=3,Z=4").expect("parse");
    assert_eq!(service.format_env_pairs(&parsed), "A=2=3, Z=4");
}

#[test]
fn written_env_pairs_read_back_unchanged() {
    let service = PlistService::with_home_dir(Arc::new(MockPlistStore::default()), None);
    let original = StringMap::from_pairs(vec![
        ("PATH".to_string(), "/usr/bin:/bin".to_string()),
        ("EMPTY".to_string(), String::new()),
        ("TZ".to_string(), "UTC".to_string()),
    ]);
    let text = service.format_env_pairs(&original);
    let back = service.parse_env_pairs(&text).expect("parse");
    assert_eq!(back, original);
}

#[test]
fn invalid_documents_are_refused_before_saving() {
    let store = Arc::new(MockPlistStore::default());
    let service = PlistService::with_home_dir(store.clone(), Some("/Users/demo".to_string()));
    let mut doc = demo_doc();
    doc.label = "  ".to_string();
    match service.create_new(JobScope::UserAgent, &doc) {
        Err(AppError::Validation(m)) => assert_eq!(m, "Label is required before saving plist"),
        other => panic!("unexpected: {other:?}"),
    }
    let mut doc = demo_doc();
    doc.program = String::new();
    match service.xml_preview(&doc) {
        Err(AppError::Validation(m)) => assert_eq!(m, "Program is required before saving plist"),
        other => panic!("unexpected: {other:?}"),
    }
    assert!(store.saved.lock().expect("lock").is_empty());
}

#[test]
fn new_job_paths_follow_the_scope() {
    let service = PlistService::with_home_dir(Arc::new(MockPlistStore::default()), None);
    match service.new_job_path(&JobScope::UserAgent, "x") {
        Err(AppError::Validation(m)) => {
            assert_eq!(m, "HOME is not available for creating user agent plist")
        }
        other => panic!("unexpected: {other:?}"),
    }
    assert_eq!(
        service.new_job_path(&JobScope::SystemDaemon, "x").expect("path"),
        "/Library/LaunchDaemons/x.plist"
    );
    assert!(service
        .save_existing("/Library/LaunchDaemons/x.plist", &JobScope::SystemDaemon, &demo_doc())
        .is_ok());
    assert_eq!(
        service.parse_program_arguments("  /bin/sh   -c  true "),
        vec!["/bin/sh".to_string(), "-c".to_string(), "true".to_string()]
    );
}

#[test]
fn load_save_roundtrip_for_standard_document() {
    let document = StandardPlistDocument {
        label: "com.demo.roundtrip".to_string(),
        program: "/usr/bin/true".to_string(),
        program_arguments: vec!["/usr/bin/true".to_string(), "--help".to_string()],
        run_at_load: true,
        keep_alive: false,
        start_interval: Some(60),
        working_directory: Some("/tmp".to_string()),
        environment_variables: StringMap::from_pairs(vec![
            ("ENV_A".to_string(), "1".to_string()),
            ("ENV_B".to_string(), "2".to_string()),
        ]),
        extra_string_keys: StringMap::from_pairs(vec![(
            "ThrottleInterval".to_string(),
            "120".to_string(),
        )]),
    };

    let xml = document_xml(&document);
    let loaded = document_from_bytes(xml.as_bytes()).expect("parse plist");

    assert_eq!(loaded, document);
}

#[test]
fn xml_generation_contains_core_keys() {
    let document = StandardPlistDocument {
        label: "com.demo.xml".to_string(),
        program: "/usr/bin/echo".to_string(),
        run_at_load: true,
        ..StandardPlistDocument::default()
    };

    let xml = document_xml(&document);
    assert!(xml.contains("<key>Label</key>"));
    assert!(xml.contains("<string>com.demo.xml</string>"));
    assert!(xml.contains("<key>Program</key>"));
}

#[test]
fn summary_is_read_from_plist_bytes() {
    let xml = "<?xml version=\"1.0\" encoding=\"UTF-8\"?>\n<plist version=\"1.0\"><dict><key>Label</key><string>com.demo.bytes</string><key>RunAtLoad</key><true/><key>KeepAlive</key><dict/></dict></plist>";
    let summary = summary_from_bytes(xml.as_bytes()).expect("summary");
    assert_eq!(summary.label.as_deref(), Some("com.demo.bytes"));
    assert_eq!(summary.run_at_load, Some(true));
    assert_eq!(summary.keep_alive, Some(true));
    assert_eq!(summary.disabled, None);
    match summary_from_bytes(b"<?xml version=\"1.0\"?><plist><dict><key>Label</key>") {
        Err(AppError::Plist(_)) => {}
        other => panic!("unexpected: {other:?}"),
    }
}
