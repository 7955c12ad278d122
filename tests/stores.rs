use server_manager::cache::{CachedValue, Probe, Refresh, THROTTLE_MS};
use server_manager::config::Config;
use server_manager::error::StoreError;
use server_manager::toggle::{find_service, toggle_service};

#[test]
fn config_enable_disable() {
    let mut c = Config::default();
    assert!(c.is_enabled("plex"));
    c.disable_service("plex");
    assert!(!c.is_enabled("plex"));
    c.disable_service("plex");
    assert_eq!(c.disabled_services.len(), 1);
    assert!(c.is_enabled("jellyfin"));
    c.enable_service("plex");
    assert!(c.is_enabled("plex"));
    assert!(c.disabled_services.is_empty());
    c.enable_service("plex");
    assert!(c.is_enabled("plex"));
}

#[test]
fn enable_removes_every_copy() {
    let mut c = Config { disabled_services: vec!["a".to_string(), "b".to_string(), "a".to_string()] };
    assert!(!c.is_enabled("a"));
    c.enable_service("a");
    assert!(c.is_enabled("a"));
    assert_eq!(c.disabled_services, vec!["b".to_string()]);
}

#[test]
fn disable_then_enable_restores() {
    let mut c = Config::default();
    assert_eq!(toggle_service(&mut c, "sonarr", false).unwrap().name(), "sonarr");
    assert!(!c.is_enabled("sonarr"));
    assert!(toggle_service(&mut c, "sonarr", true).is_ok());
    assert!(c.is_enabled("sonarr"));
}

#[test]
fn toggling_unknown_service_is_not_found() {
    let mut c = Config::default();
    c.disable_service("redis");
    let before = c.disabled_services.clone();
    assert_eq!(toggle_service(&mut c, "nosuchservice", false).err(), Some(StoreError::NotFound));
    assert_eq!(toggle_service(&mut c, "nosuchservice", true).err(), Some(StoreError::NotFound));
    assert_eq!(c.disabled_services, before);
    assert!(find_service("nginx-proxy").is_some());
    assert!(find_service("Plex").is_none());
}

#[test]
fn cache_serves_within_window() {
    let mut cache = CachedValue::new(1u32);
    // first read: nothing checked yet
    assert!(!cache.is_fresh(1000));
    assert_eq!(cache.check(1000, Probe::Modified(7)), Refresh::Reload);
    cache.publish(2, Some(7));
    assert_eq!(cache.value, 2);
    // the file changes, but the next read is inside the window
    assert!(cache.is_fresh(1000 + THROTTLE_MS - 1));
    assert_eq!(cache.value, 2);
    // after the window the change is seen
    assert!(!cache.is_fresh(1000 + THROTTLE_MS));
    assert_eq!(cache.check(1000 + THROTTLE_MS, Probe::Modified(8)), Refresh::Reload);
    cache.publish(3, Some(8));
    assert_eq!(cache.value, 3);
    // unchanged file: keep
    assert!(!cache.is_fresh(5000));
    assert_eq!(cache.check(5000, Probe::Modified(8)), Refresh::Keep);
    assert_eq!(cache.last_check, Some(5000));
}

#[test]
fn cache_missing_and_failed_files() {
    let mut cache = CachedValue::new(5u32);
    assert_eq!(cache.check(10, Probe::Missing), Refresh::Reset);
    assert_eq!(cache.check(2000, Probe::Failed), Refresh::Fail);
    assert_eq!(cache.value, 5);
    // a clock that went backwards never counts as fresh
    assert!(!cache.is_fresh(1999));
}

#[test]
fn writer_sync_decision() {
    let mut cache = CachedValue::new(0u8);
    assert!(cache.needs_sync(Probe::Modified(3)));
    assert!(!cache.needs_sync(Probe::Missing));
    cache.publish(1, Some(3));
    assert!(!cache.needs_sync(Probe::Modified(3)));
    assert!(cache.needs_sync(Probe::Modified(4)));
}
