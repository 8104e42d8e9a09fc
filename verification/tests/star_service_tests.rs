use std::sync::{Arc, Mutex};

use launchpad::adapter::star_store::{JsonStarStore, StarStore};
use launchpad::error::AppResult;
use launchpad::service::star_service::StarService;

#[derive(Debug, Default)]
struct MockStarStore {
    stars: Mutex<Vec<String>>,
}

impl StarStore for MockStarStore {
    fn load_stars(&self) -> AppResult<Vec<String>> {
        Ok(self.stars.lock().expect("lock stars").clone())
    }

    fn save_stars(&self, stars: &Vec<String>) -> AppResult<()> {
        *self.stars.lock().expect("lock stars") = stars.clone();
        Ok(())
    }
}

#[test]
fn toggle_adds_and_removes_star() {
    let store = Arc::new(MockStarStore::default());
    let mut service = StarService::new(store);
    service.load().expect("load stars");

    assert!(service.toggle("com.demo.star").expect("star"));
    assert!(service.is_starred("com.demo.star"));

    assert!(!service.toggle("com.demo.star").expect("unstar"));
    assert!(!service.is_starred("com.demo.star"));
}

#[test]
fn json_star_store_persists_to_disk() {
    let stars = vec!["com.demo.one".to_string(), "com.demo.two".to_string()];
    let payload = JsonStarStore::encode_payload(&stars);
    let loaded = JsonStarStore::decode_payload(&payload).expect("load stars");
    assert_eq!(loaded, stars);
}

#[test]
fn json_star_store_accepts_legacy_vector_payload() {
    let stars = JsonStarStore::decode_payload("[\"com.demo.legacy\"]").expect("load legacy stars");
    assert!(stars.contains(&"com.demo.legacy".to_string()));
}

#[test]
fn toggling_saves_the_stars_to_the_store() {
    let store = Arc::new(MockStarStore::default());
    let mut service = StarService::new(store.clone());
    service.toggle("a").expect("star a");
    service.toggle("b").expect("star b");
    service.toggle("a").expect("unstar a");
    assert_eq!(store.stars.lock().expect("lock").clone(), vec!["b".to_string()]);
    let mut reloaded = StarService::new(store);
    reloaded.load().expect("load");
    assert!(reloaded.is_starred("b"));
    assert!(!reloaded.is_starred("a"));
}

#[test]
fn blank_payload_holds_no_stars_and_bad_payload_is_an_error() {
    assert!(JsonStarStore::decode_payload("  \n").expect("blank").is_empty());
    assert!(JsonStarStore::decode_payload("{not json").is_err());
}
