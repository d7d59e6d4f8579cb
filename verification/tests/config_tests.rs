use druid_garden_os::config::{
    ConfigManager, DEFAULT_FULLNODE_RPC_HOST, DEFAULT_FULLNODE_RPC_PORT, DEFAULT_FULLNODE_WS_HOST,
    DEFAULT_FULLNODE_WS_PORT,
};
use druid_garden_os::error::ErrorKind;
use druid_garden_os::models::config::{AddConfigEntry, ConfigEntry};

fn stored(key: &str, value: &str) -> ConfigEntry {
    ConfigEntry {
        key: key.to_string(),
        value: value.to_string(),
        last_value: String::new(),
        category: "preferences".to_string(),
        system: 0,
        created: 1,
        modified: 2,
    }
}

fn handed_in(key: &str, value: &str) -> AddConfigEntry {
    AddConfigEntry {
        key: key.to_string(),
        value: value.to_string(),
        last_value: "before".to_string(),
        category: "preferences".to_string(),
        system: 1,
    }
}

#[test]
fn settings_hold_the_last_entry_of_each_key() {
    let manager = ConfigManager::new(vec![
        stored("theme", "dark"),
        stored("wifi_device", "wlan0"),
        stored("theme", "light"),
    ]);
    assert_eq!(manager.get("theme").map(|e| e.value), Some("light".to_string()));
    assert_eq!(manager.get("wifi_device").map(|e| e.value), Some("wlan0".to_string()));
    assert!(manager.get("missing").is_none());
    assert!(manager.get("Theme").is_none());
    assert_eq!(manager.save().len(), 2);
}

#[test]
fn set_hands_back_what_was_held() {
    let mut manager = ConfigManager::new(vec![stored("theme", "dark")]);
    let before = manager.set("theme", handed_in("theme", "light"), 77);
    assert_eq!(before.map(|e| e.value), Some("dark".to_string()));
    match manager.get("theme") {
        Some(entry) => {
            assert_eq!(entry.key, "theme");
            assert_eq!(entry.value, "light");
            assert_eq!(entry.last_value, "before");
            assert_eq!(entry.category, "preferences");
            assert_eq!(entry.system, 1);
            assert_eq!(entry.created, 77);
            assert_eq!(entry.modified, 77);
        }
        None => panic!("the entry was just set"),
    }
    assert!(manager.set("fresh", handed_in("fresh", "1"), 78).is_none());
    assert_eq!(manager.get("fresh").map(|e| e.value), Some("1".to_string()));
    assert_eq!(manager.get("theme").map(|e| e.value), Some("light".to_string()));
}

#[test]
fn an_entry_is_held_under_the_key_it_was_set_with() {
    let mut manager = ConfigManager::new(vec![]);
    assert!(manager.set("alias", handed_in("name", "v"), 5).is_none());
    assert_eq!(manager.get("alias").map(|e| e.key), Some("name".to_string()));
    assert!(manager.get("name").is_none());
}

#[test]
fn delete_lets_go_of_one_key() {
    let mut manager = ConfigManager::new(vec![stored("a", "1"), stored("b", "2"), stored("c", "3")]);
    manager.delete("b");
    assert!(manager.get("b").is_none());
    assert_eq!(manager.get("a").map(|e| e.value), Some("1".to_string()));
    assert_eq!(manager.get("c").map(|e| e.value), Some("3".to_string()));
    manager.delete("b");
    manager.delete("unknown");
    assert_eq!(manager.save().len(), 2);
}

#[test]
fn reload_key_needs_a_stored_entry() {
    let mut manager = ConfigManager::new(vec![stored("a", "1")]);
    assert!(manager.reload_key("a", Some(stored("a", "9")), 40).is_ok());
    match manager.get("a") {
        Some(entry) => {
            assert_eq!(entry.value, "9");
            assert_eq!(entry.created, 40);
            assert_eq!(entry.modified, 40);
        }
        None => panic!("the entry was just reloaded"),
    }
    match manager.reload_key("gone", None, 41) {
        Ok(_) => panic!("a key that the store does not know must be refused"),
        Err(e) => {
            assert_eq!(e.kind(), ErrorKind::NotFound);
            assert_eq!(e.to_string(), "Failed to find entry with key: gone");
        }
    }
    assert!(manager.get("gone").is_none());
    assert_eq!(manager.get("a").map(|e| e.value), Some("9".to_string()));
}

#[test]
fn reload_takes_the_place_of_everything() {
    let mut manager = ConfigManager::new(vec![stored("a", "1"), stored("b", "2")]);
    manager.reload(vec![stored("b", "20"), stored("c", "30")]);
    assert!(manager.get("a").is_none());
    assert_eq!(manager.get("b").map(|e| e.value), Some("20".to_string()));
    assert_eq!(manager.get("c").map(|e| e.value), Some("30".to_string()));
}

#[test]
fn save_hands_every_entry_out() {
    let manager = ConfigManager::new(vec![stored("a", "1"), stored("b", "2")]);
    let mut saved: Vec<(String, String, i64)> = manager
        .save()
        .into_iter()
        .map(|e| (e.key, e.value, e.system))
        .collect();
    saved.sort();
    assert_eq!(
        saved,
        vec![("a".to_string(), "1".to_string(), 0), ("b".to_string(), "2".to_string(), 0)]
    );
}

#[test]
fn the_default_full_node_is_fixed() {
    assert_eq!(DEFAULT_FULLNODE_WS_HOST, "druid.garden");
    assert_eq!(DEFAULT_FULLNODE_WS_PORT, 443);
    assert_eq!(DEFAULT_FULLNODE_RPC_HOST, "druid.garden");
    assert_eq!(DEFAULT_FULLNODE_RPC_PORT, 443);
}
