//! The settings and the list of recent servers.

use clippybara::config::{
    add_recent_server, load_config, Config, CONFIG_DIR, CONFIG_FILE, MAX_RECENT_SERVERS,
};

fn names(list: &[&str]) -> Vec<String> {
    list.iter().map(|s| s.to_string()).collect()
}

#[test]
fn default_settings() {
    let c = Config::default();
    assert_eq!(c.server_url, "");
    assert!(c.auto_connect);
    assert!(c.recent_servers.is_empty());
    assert!(!c.start_minimized);
    assert_eq!(c.sync_interval, 500);
    assert_eq!(MAX_RECENT_SERVERS, 10);
}

#[test]
fn settings_file_is_named() {
    assert_eq!(CONFIG_DIR, "clippybara");
    assert_eq!(CONFIG_FILE, "config.json");
}

#[test]
fn stored_settings_are_used_as_they_are() {
    let stored = Config {
        server_url: "http://s".to_string(),
        auto_connect: false,
        recent_servers: names(&["http://s", "http://t"]),
        start_minimized: true,
        sync_interval: 250,
    };
    let (c, must_save) = load_config(Some(stored));
    assert!(!must_save);
    assert_eq!(c.server_url, "http://s");
    assert!(!c.auto_connect);
    assert_eq!(c.recent_servers, names(&["http://s", "http://t"]));
    assert!(c.start_minimized);
    assert_eq!(c.sync_interval, 250);
}

#[test]
fn missing_settings_fall_back_to_the_defaults() {
    let (c, must_save) = load_config(None);
    assert!(must_save);
    assert_eq!(c.server_url, "");
    assert!(c.auto_connect);
    assert!(c.recent_servers.is_empty());
    assert!(!c.start_minimized);
    assert_eq!(c.sync_interval, 500);
}

#[test]
fn recent_server_goes_to_the_head() {
    let mut c = Config::default();
    add_recent_server(&mut c, "http://a");
    add_recent_server(&mut c, "http://b");
    add_recent_server(&mut c, "http://c/");
    assert_eq!(c.recent_servers, names(&["http://c", "http://b", "http://a"]));
}

#[test]
fn recent_server_is_listed_once() {
    let mut c = Config::default();
    c.recent_servers = names(&["http://a", "http://b", "http://a", "http://c"]);
    add_recent_server(&mut c, "http://a///");
    assert_eq!(c.recent_servers, names(&["http://a", "http://b", "http://c"]));
    add_recent_server(&mut c, "http://c");
    assert_eq!(c.recent_servers, names(&["http://c", "http://a", "http://b"]));
}

#[test]
fn recent_servers_are_cut_to_ten() {
    let mut c = Config::default();
    for i in 0..12 {
        add_recent_server(&mut c, &format!("http://host{}/", i));
    }
    assert_eq!(c.recent_servers.len(), 10);
    assert_eq!(c.recent_servers[0], "http://host11");
    assert_eq!(c.recent_servers[9], "http://host2");

    // An entry that is already listed moves up and nothing falls off.
    add_recent_server(&mut c, "http://host2");
    assert_eq!(c.recent_servers.len(), 10);
    assert_eq!(c.recent_servers[0], "http://host2");
    assert_eq!(c.recent_servers[1], "http://host11");
    assert_eq!(c.recent_servers[9], "http://host3");
}

#[test]
fn overlong_stored_list_is_cut_too() {
    let mut c = Config::default();
    c.recent_servers = (0..15).map(|i| format!("s{}", i)).collect();
    add_recent_server(&mut c, "new");
    assert_eq!(c.recent_servers.len(), 10);
    assert_eq!(c.recent_servers[0], "new");
    assert_eq!(c.recent_servers[1], "s0");
    assert_eq!(c.recent_servers[9], "s8");
}

#[test]
fn adding_a_server_changes_nothing_else() {
    let mut c = Config {
        server_url: "http://s/".to_string(),
        auto_connect: false,
        recent_servers: Vec::new(),
        start_minimized: true,
        sync_interval: 750,
    };
    add_recent_server(&mut c, "http://n");
    assert_eq!(c.server_url, "http://s/");
    assert!(!c.auto_connect);
    assert!(c.start_minimized);
    assert_eq!(c.sync_interval, 750);
    assert_eq!(c.recent_servers, names(&["http://n"]));
}

#[test]
fn only_trailing_slashes_are_cut() {
    let mut c = Config::default();
    add_recent_server(&mut c, "/a//b/");
    add_recent_server(&mut c, "/");
    assert_eq!(c.recent_servers, names(&["", "/a//b"]));
}
