use notification_timeline::apps::AppsMap;
use notification_timeline::compress::{compress, compress_documents, resolve_title};
use notification_timeline::decimal::{millis_to_id, u64_to_dec};
use notification_timeline::events::{Event, Notification, PluginKind, TimeRange, Timing};
use notification_timeline::icon::{
    icon_lookup_advance, icon_lookup_start, icon_tier_path, icon_url, IconLookup, IconTier,
};
use notification_timeline::ingest::{handle_notification, new_notification, write_response, ApiError};
use notification_timeline::plugin::{ConfigData, Plugin};
use notification_timeline::store::EventStore;

fn payload(app: &str, title: &str, content: &str) -> Notification {
    Notification {
        app: app.to_string(),
        title: title.to_string(),
        content: content.to_string(),
    }
}

#[test]
fn apps_table_from_mixed_content() {
    let m = AppsMap::new("a:Alpha\nb:Beta\nmalformed\n");
    assert_eq!(m.get_app_name("a"), Some(&"Alpha".to_string()));
    assert_eq!(m.get_app_name("b"), Some(&"Beta".to_string()));
    assert_eq!(m.get_app_name("malformed"), None);
    assert_eq!(m.get_app_name("c"), None);
}

#[test]
fn apps_table_later_duplicate_overwrites() {
    let m = AppsMap::new("x:One\ny:Other\nx:Two");
    assert_eq!(m.get_app_name("x"), Some(&"Two".to_string()));
    assert_eq!(m.get_app_name("y"), Some(&"Other".to_string()));
}

#[test]
fn apps_table_value_keeps_later_separators() {
    let m = AppsMap::new("k:v:w");
    assert_eq!(m.get_app_name("k"), Some(&"v:w".to_string()));
}

#[test]
fn apps_table_empty_source_is_empty() {
    let m = AppsMap::new("");
    assert_eq!(m.get_app_name(""), None);
    assert_eq!(m.get_app_name("a"), None);
}

#[test]
fn apps_table_empty_key_and_value() {
    let m = AppsMap::new(":Name\nid:");
    assert_eq!(m.get_app_name(""), Some(&"Name".to_string()));
    assert_eq!(m.get_app_name("id"), Some(&"".to_string()));
}

#[test]
fn decimal_rendering_exact() {
    assert_eq!(u64_to_dec(0), "0");
    assert_eq!(u64_to_dec(7), "7");
    assert_eq!(u64_to_dec(1702000000123), "1702000000123");
    assert_eq!(millis_to_id(1702000000123), "1702000000123");
    assert_eq!(millis_to_id(0), "0");
    assert_eq!(millis_to_id(-5), "-5");
    assert_eq!(millis_to_id(i64::MIN), i64::MIN.to_string());
}

#[test]
fn ingest_wrong_secret_writes_nothing() {
    let mut store = EventStore::new();
    let r = new_notification(
        &mut store,
        "right",
        "wrong",
        "com.foo",
        "hello",
        "body",
        1000,
    );
    assert!(matches!(r, Err(ApiError::AuthenticationError)));
    // empty strings in every payload slot are turned away just the same
    let r2 = new_notification(&mut store, "right", "", "", "", "", 1000);
    assert!(matches!(r2, Err(ApiError::AuthenticationError)));
    let everything = TimeRange {
        start: i64::MIN,
        end: i64::MAX,
    };
    let found = store.find(PluginKind::Notification, &everything);
    assert_eq!(found.len(), 0);
}

#[test]
fn ingest_then_query_round_trips() {
    let mut store = EventStore::new();
    let r = new_notification(
        &mut store,
        "s3cret",
        "s3cret",
        "com.foo",
        "hello",
        "body",
        1000,
    );
    assert!(r.is_ok());
    let plugin = Plugin::new(
        ConfigData {
            apps_file: "apps.txt".to_string(),
            app_icon_files: "/icons".to_string(),
        },
        "com.foo:Foo Chat",
    );
    let range = TimeRange {
        start: 900,
        end: 1100,
    };
    let out = plugin.get_compressed_events(&store, &range);
    assert_eq!(out.len(), 1);
    assert_eq!(out[0].time, Timing::Instant(1000));
    assert_eq!(out[0].title, "Foo Chat");
    assert_eq!(out[0].data.app, "com.foo");
    assert_eq!(out[0].data.title, "hello");
    assert_eq!(out[0].data.content, "body");
}

#[test]
fn query_scopes_by_kind_and_range() {
    let mut store = EventStore::new();
    store.register_single_event(&Event {
        timing: Timing::Instant(50),
        id: "50".to_string(),
        plugin: PluginKind::Notification,
        event: payload("a", "too early", ""),
    });
    store.register_single_event(&Event {
        timing: Timing::Instant(100),
        id: "100".to_string(),
        plugin: PluginKind::Other,
        event: payload("a", "other plugin", ""),
    });
    store.register_single_event(&Event {
        timing: Timing::Instant(100),
        id: "100b".to_string(),
        plugin: PluginKind::Notification,
        event: payload("a", "at start", ""),
    });
    store.register_single_event(&Event {
        timing: Timing::Instant(200),
        id: "200".to_string(),
        plugin: PluginKind::Notification,
        event: payload("a", "at end", ""),
    });
    store.register_single_event(&Event {
        timing: Timing::Instant(201),
        id: "201".to_string(),
        plugin: PluginKind::Notification,
        event: payload("a", "too late", ""),
    });
    let range = TimeRange {
        start: 100,
        end: 200,
    };
    let found = store.find(PluginKind::Notification, &range);
    assert_eq!(found.len(), 2);
    assert_eq!(found[0].event.title, "at start");
    assert_eq!(found[1].event.title, "at end");
}

#[test]
fn repeated_ingest_is_not_deduplicated() {
    let mut store = EventStore::new();
    let r1 = new_notification(&mut store, "s", "s", "com.foo", "hi", "x", 1000);
    let r2 = new_notification(&mut store, "s", "s", "com.foo", "hi", "x", 1001);
    assert!(r1.is_ok() && r2.is_ok());
    let everything = TimeRange {
        start: i64::MIN,
        end: i64::MAX,
    };
    let found = store.find(PluginKind::Notification, &everything);
    assert_eq!(found.len(), 2);
    assert_ne!(found[0].id, found[1].id);
    assert_ne!(found[0].timing, found[1].timing);
    assert_eq!(found[0].id, "1000");
    assert_eq!(found[1].id, "1001");
}

#[test]
fn ingest_at_wall_clock_instant() {
    let mut store = EventStore::new();
    let r = handle_notification(&mut store, "s", "s", "com.foo", "hi", "x");
    assert!(r.is_ok());
    let everything = TimeRange {
        start: i64::MIN,
        end: i64::MAX,
    };
    let found = store.find(PluginKind::Notification, &everything);
    assert_eq!(found.len(), 1);
    let Timing::Instant(millis) = found[0].timing;
    assert_eq!(found[0].id, millis.to_string());
    let r2 = handle_notification(&mut store, "s", "nope", "com.foo", "hi", "x");
    assert!(matches!(r2, Err(ApiError::AuthenticationError)));
    assert_eq!(store.find(PluginKind::Notification, &everything).len(), 1);
}

#[test]
fn unresolved_app_id_falls_back_verbatim() {
    let apps = AppsMap::new("known:Known App");
    assert_eq!(
        resolve_title(&apps, &"unknown.app".to_string()),
        "unknown.app"
    );
    let events = vec![Event {
        timing: Timing::Instant(5),
        id: "5".to_string(),
        plugin: PluginKind::Notification,
        event: payload("unknown.app", "t", "c"),
    }];
    let out = compress(&events, &apps);
    assert_eq!(out.len(), 1);
    assert_eq!(out[0].title, "unknown.app");
}

#[test]
fn document_stream_compresses_in_order() {
    let apps = AppsMap::new("a:Alpha");
    let docs: Vec<Result<Event, String>> = vec![
        Ok(Event {
            timing: Timing::Instant(1),
            id: "1".to_string(),
            plugin: PluginKind::Notification,
            event: payload("a", "first", ""),
        }),
        Ok(Event {
            timing: Timing::Instant(2),
            id: "2".to_string(),
            plugin: PluginKind::Notification,
            event: payload("b", "second", ""),
        }),
    ];
    let out = compress_documents(&docs, &apps).unwrap();
    assert_eq!(out.len(), 2);
    assert_eq!(out[0].title, "Alpha");
    assert_eq!(out[0].data.title, "first");
    assert_eq!(out[1].title, "b");
    assert_eq!(out[1].data.title, "second");
}

#[test]
fn corrupt_document_aborts_the_whole_query() {
    let apps = AppsMap::new("a:Alpha");
    let docs: Vec<Result<Event, String>> = vec![
        Ok(Event {
            timing: Timing::Instant(1),
            id: "1".to_string(),
            plugin: PluginKind::Notification,
            event: payload("a", "fine", ""),
        }),
        Err("bad document".to_string()),
        Err("later failure".to_string()),
    ];
    match compress_documents(&docs, &apps) {
        Err(ApiError::StoreReadError(m)) => assert_eq!(m, "bad document"),
        _ => panic!("expected the first read failure to abort the query"),
    }
}

#[test]
fn icon_chain_prefers_most_specific_tier() {
    // only the bundled default vector icon exists
    let s = icon_lookup_start();
    let s = icon_lookup_advance(&s, false);
    let s = icon_lookup_advance(&s, false);
    let s = icon_lookup_advance(&s, true);
    assert_eq!(s, IconLookup::Found(IconTier::Default));
    // a per-install file wins even when bundled fallbacks also exist
    let s = icon_lookup_start();
    let s = icon_lookup_advance(&s, true);
    assert_eq!(s, IconLookup::Found(IconTier::Install));
    let s = icon_lookup_advance(&s, true);
    assert_eq!(s, IconLookup::Found(IconTier::Install));
    // no tier has the file: the chain reports absence
    let s = icon_lookup_start();
    let s = icon_lookup_advance(&s, false);
    let s = icon_lookup_advance(&s, false);
    let s = icon_lookup_advance(&s, false);
    assert_eq!(s, IconLookup::Missing);
}

#[test]
fn icon_tier_paths_are_exact() {
    assert_eq!(
        icon_tier_path("/etc/icons", "COM.Foo", &IconTier::Install),
        "/etc/icons/COM.Foo"
    );
    assert_eq!(
        icon_tier_path("/etc/icons", "COM.Foo", &IconTier::Bundled),
        "../plugins/timeline_plugin_notification/icons/com.foo.ico"
    );
    assert_eq!(
        icon_tier_path("/etc/icons", "COM.Foo", &IconTier::Default),
        "../plugins/timeline_plugin_notification/icon.svg"
    );
}

#[test]
fn icon_url_is_exact() {
    assert_eq!(
        icon_url("com.foo"),
        "/api/plugin/timeline_plugin_notification/icon/com.foo"
    );
}

#[test]
fn error_status_codes() {
    assert_eq!(ApiError::AuthenticationError.status_code(), 401);
    assert_eq!(ApiError::StoreWriteError("w".to_string()).status_code(), 500);
    assert_eq!(ApiError::StoreReadError("r".to_string()).status_code(), 500);
    assert_eq!(
        ApiError::InitializationError("i".to_string()).status_code(),
        500
    );
}

#[test]
fn write_outcome_maps_to_response() {
    let (code, body) = write_response(Ok(()));
    assert_eq!(code, 200);
    assert!(body.is_ok());
    let (code, body) = write_response(Err("store down".to_string()));
    assert_eq!(code, 500);
    match body {
        Err(ApiError::StoreWriteError(m)) => assert_eq!(m, "store down"),
        _ => panic!("expected a store write error"),
    }
}

#[test]
fn plugin_facade_basics() {
    let plugin = Plugin::new(
        ConfigData {
            apps_file: "apps.txt".to_string(),
            app_icon_files: "/etc/icons".to_string(),
        },
        "a:Alpha",
    );
    assert_eq!(Plugin::get_type(), PluginKind::Notification);
    assert_eq!(plugin.icon_dir().as_str(), "/etc/icons");
    assert_eq!(plugin.apps_map().get_app_name("a"), Some(&"Alpha".to_string()));
    let store = EventStore::new();
    let out = plugin.get_compressed_events(
        &store,
        &TimeRange { start: 0, end: 10 },
    );
    assert_eq!(out.len(), 0);
}
