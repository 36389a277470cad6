use hbbs_sync::bus::DisconnectBus;
use hbbs_sync::fingerprint::fingerprint;
use hbbs_sync::options::{handle_config_options, StrategyOptions};
use hbbs_sync::sync::{
    heartbeat_request, is_pro, plan_upload, preset_fields, HeartbeatReply, SyncState,
    TIME_HEARTBEAT_MS,
};
use hbbs_sync::text::{contains_text, heartbeat_url, stamp_value, sysinfo_url, sysinfo_ver_url};
use hbbs_sync::upload::{InfoUploaded, UPLOAD_SYSINFO_TIMEOUT_MS};

fn s(x: &str) -> String {
    x.to_string()
}

fn pairs(v: &[(&str, &str)]) -> Vec<(String, String)> {
    v.iter().map(|(k, v)| (s(k), s(v))).collect()
}

fn sorted(mut v: Vec<(String, String)>) -> Vec<(String, String)> {
    v.sort();
    v
}

fn empty_reply() -> HeartbeatReply {
    HeartbeatReply { sysinfo: false, disconnect: None, modified_at: None, strategy: None }
}

#[test]
fn heartbeat_url_appends_path() {
    assert_eq!(heartbeat_url("http://10.0.0.1:21114"), "http://10.0.0.1:21114/api/heartbeat");
}

#[test]
fn heartbeat_url_empty_base() {
    assert_eq!(heartbeat_url(""), "");
}

#[test]
fn heartbeat_url_blocked_domain() {
    assert_eq!(heartbeat_url("https://admin.rustdesk.com"), "");
    assert_eq!(heartbeat_url("https://rustdesk.com"), "");
}

#[test]
fn contains_text_cases() {
    assert!(contains_text("abcabd", "abd"));
    assert!(!contains_text("abcab", "abd"));
    assert!(contains_text("abc", ""));
    assert!(!contains_text("ab", "abc"));
}

#[test]
fn sibling_endpoints() {
    assert_eq!(sysinfo_url("http://h/api/heartbeat"), "http://h/api/sysinfo");
    assert_eq!(sysinfo_ver_url("http://h/api/heartbeat"), "http://h/api/sysinfo_ver");
    assert_eq!(sysinfo_url("http://heartbeat/api/heartbeat"), "http://sysinfo/api/sysinfo");
}

#[test]
fn stamp_parsing() {
    assert_eq!(stamp_value("17"), 17);
    assert_eq!(stamp_value("-5"), -5);
    assert_eq!(stamp_value("+8"), 8);
    assert_eq!(stamp_value(""), 0);
    assert_eq!(stamp_value("12a"), 0);
    assert_eq!(stamp_value("-"), 0);
    assert_eq!(stamp_value("9223372036854775808"), 0);
    assert_eq!(stamp_value("-9223372036854775808"), i64::MIN);
}

#[test]
fn fingerprint_known_values() {
    assert_eq!(
        fingerprint("http://s/api/heartbeat", "{\"a\":1}"),
        "kbrBd9Ln2PjvV3wMlR80k58yfv8QZB2xtFOuKJ819B0="
    );
    assert_eq!(fingerprint("", ""), "47DEQpj8HBSa+/TImW+5JCeuQeRkm5NMpJWZG3hSuFU=");
}

#[test]
fn fingerprint_depends_on_endpoint() {
    assert_ne!(fingerprint("http://a/api/heartbeat", "x"), fingerprint("http://b/api/heartbeat", "x"));
}

#[test]
fn merge_sets_and_removes() {
    let mut options = pairs(&[("a", "1"), ("b", "2"), ("c", "3")]);
    let changes = pairs(&[("a", ""), ("b", "20"), ("d", "4")]);
    handle_config_options(&mut options, &changes);
    assert_eq!(sorted(options), pairs(&[("b", "20"), ("c", "3"), ("d", "4")]));
}

#[test]
fn merge_twice_equals_once() {
    let mut once = pairs(&[("a", "1"), ("b", "2")]);
    let changes = pairs(&[("a", ""), ("b", "5"), ("e", "6")]);
    handle_config_options(&mut once, &changes);
    let mut twice = once.clone();
    handle_config_options(&mut twice, &changes);
    assert_eq!(sorted(once), sorted(twice));
}

#[test]
fn merge_empty_changes_keeps_options() {
    let mut options = pairs(&[("a", "1")]);
    handle_config_options(&mut options, &Vec::new());
    assert_eq!(options, pairs(&[("a", "1")]));
}

#[test]
fn fresh_state_needs_upload() {
    let info = InfoUploaded::new();
    assert!(info.need_upload(&s(""), 0, false));
    assert!(!info.need_upload(&s(""), 0, true));
}

#[test]
fn resend_timeout_holds_back_upload() {
    let mut info = InfoUploaded::new();
    info.last_uploaded = Some(1000);
    assert!(!info.need_upload(&s("u"), 1000 + UPLOAD_SYSINFO_TIMEOUT_MS - 1, false));
    assert!(info.need_upload(&s("u"), 1000 + UPLOAD_SYSINFO_TIMEOUT_MS, false));
}

#[test]
fn username_change_needs_upload() {
    let info = InfoUploaded::uploaded(s("u"), s("id"), s("alice"));
    assert!(!info.need_upload(&s("alice"), 5, false));
    assert!(info.need_upload(&s("bob"), 5, false));
}

#[test]
fn empty_url_clears_pro_and_ends_tick() {
    let mut st = SyncState::new();
    st.pro = true;
    let url = heartbeat_url("");
    assert!(!st.tick_gate(&url, false));
    assert!(!is_pro(&st));
    assert!(!st.tick_gate(&url, false));
    assert!(!st.pro);
}

#[test]
fn stopped_service_ends_tick() {
    let mut st = SyncState::new();
    st.pro = true;
    assert!(!st.tick_gate("http://h/api/heartbeat", true));
    assert!(st.pro);
    assert!(st.tick_gate("http://h/api/heartbeat", false));
}

#[test]
fn changed_url_invalidates_upload() {
    let mut st = SyncState::new();
    st.info = InfoUploaded::uploaded(s("U"), s("I"), s("alice"));
    st.pro = true;
    st.invalidate_stale(&s("U2"), &s("I"));
    assert!(!st.info.uploaded);
    assert!(!st.pro);
    assert!(st.info.need_upload(&s("alice"), 0, false));
}

#[test]
fn changed_id_invalidates_upload() {
    let mut st = SyncState::new();
    st.info = InfoUploaded::uploaded(s("U"), s("I"), s("alice"));
    st.invalidate_stale(&s("U"), &s("J"));
    assert!(!st.info.uploaded);
}

#[test]
fn same_url_and_id_keep_upload() {
    let mut st = SyncState::new();
    st.info = InfoUploaded::uploaded(s("U"), s("I"), s("alice"));
    st.pro = true;
    st.invalidate_stale(&s("U"), &s("I"));
    assert!(st.info.uploaded);
    assert!(st.pro);
}

#[test]
fn sysinfo_updated_records_upload() {
    let mut st = SyncState::new();
    let url = s("http://h/api/heartbeat");
    let plan = plan_upload(true, &url, "{}", &s(""));
    assert!(!plan.check_version);
    let store = st.on_sysinfo_reply(Some(s("SYSINFO_UPDATED")), &plan.hash, &url, &s("id"), &s("alice"), 10);
    assert!(st.info.uploaded);
    assert!(st.pro);
    assert_eq!(st.info.url, url);
    assert_eq!(st.info.username, Some(s("alice")));
    assert_eq!(store, Some((fingerprint(&url, "{}"), s(""))));
}

#[test]
fn sysinfo_updated_private_server_stores_nothing() {
    let mut st = SyncState::new();
    let url = s("http://h/api/heartbeat");
    let plan = plan_upload(false, &url, "{}", &s(""));
    assert_eq!(plan.hash, "");
    assert!(!plan.check_version);
    let store = st.on_sysinfo_reply(Some(s("SYSINFO_UPDATED")), &plan.hash, &url, &s("id"), &s("a"), 10);
    assert_eq!(store, None);
    assert!(st.pro);
}

#[test]
fn id_not_found_retries_next_tick() {
    let mut st = SyncState::new();
    st.info.last_uploaded = Some(100);
    let store = st.on_sysinfo_reply(Some(s("ID_NOT_FOUND")), &s(""), &s("u"), &s("id"), &s("a"), 100);
    assert_eq!(store, None);
    assert_eq!(st.info.last_uploaded, None);
    assert!(st.info.need_upload(&s("a"), 101, false));
}

#[test]
fn other_reply_starts_timeout() {
    let mut st = SyncState::new();
    st.on_sysinfo_reply(Some(s("OK")), &s(""), &s("u"), &s("id"), &s("a"), 500);
    assert_eq!(st.info.last_uploaded, Some(500));
    assert!(!st.info.uploaded);
    assert!(!st.info.need_upload(&s("a"), 501, false));
    st.on_sysinfo_reply(None, &s(""), &s("u"), &s("id"), &s("a"), 700);
    assert_eq!(st.info.last_uploaded, Some(700));
}

#[test]
fn unchanged_snapshot_same_version_skips_post() {
    let url = s("http://h/api/heartbeat");
    let mut st = SyncState::new();
    st.sysinfo_ver = s("v1");
    let first = plan_upload(true, &url, "{\"x\":1}", &s(""));
    let (hash, ver) = st
        .on_sysinfo_reply(Some(s("SYSINFO_UPDATED")), &first.hash, &url, &s("id"), &s("a"), 0)
        .unwrap();
    let mut next = SyncState::new();
    let second = plan_upload(true, &url, "{\"x\":1}", &hash);
    assert!(second.check_version);
    assert!(next.on_version_reply(Some(s("v1")), &ver, &url, &s("id"), &s("a")));
    assert!(next.info.uploaded);
    assert!(next.pro);
}

#[test]
fn unchanged_snapshot_new_version_posts() {
    let url = s("http://h/api/heartbeat");
    let hash = fingerprint(&url, "{}");
    let plan = plan_upload(true, &url, "{}", &hash);
    assert!(plan.check_version);
    let mut st = SyncState::new();
    assert!(!st.on_version_reply(Some(s("v2")), &s("v1"), &url, &s("id"), &s("a")));
    assert!(!st.info.uploaded);
    assert!(st.pro);
    assert_eq!(st.sysinfo_ver, "v2");
}

#[test]
fn version_endpoint_failure_posts() {
    let mut st = SyncState::new();
    assert!(!st.on_version_reply(None, &s(""), &s("u"), &s("id"), &s("a")));
    assert!(!st.pro);
}

#[test]
fn changed_snapshot_posts() {
    let url = s("http://h/api/heartbeat");
    let hash = fingerprint(&url, "{}");
    let plan = plan_upload(true, &url, "{\"y\":2}", &hash);
    assert!(!plan.check_version);
    assert_eq!(plan.hash, fingerprint(&url, "{\"y\":2}"));
}

#[test]
fn idle_heartbeat_is_held_back() {
    let mut st = SyncState::new();
    assert!(st.heartbeat_due(&Vec::new(), 1000));
    assert_eq!(st.last_sent, Some(1000));
    assert!(!st.heartbeat_due(&Vec::new(), 1000 + TIME_HEARTBEAT_MS - 1));
    assert_eq!(st.last_sent, Some(1000));
    assert!(st.heartbeat_due(&vec![1], 1001));
    assert!(st.heartbeat_due(&Vec::new(), 1001 + TIME_HEARTBEAT_MS));
}

#[test]
fn heartbeat_body_fields() {
    let r = heartbeat_request(&s("id"), &s("dXU="), 1003002, &vec![3, 7], "17");
    assert_eq!(r.id, "id");
    assert_eq!(r.uuid, "dXU=");
    assert_eq!(r.ver, 1003002);
    assert_eq!(r.conns, Some(vec![3, 7]));
    assert_eq!(r.modified_at, 17);
    let r = heartbeat_request(&s("id"), &s(""), 1, &Vec::new(), "bad");
    assert_eq!(r.conns, None);
    assert_eq!(r.modified_at, 0);
}

#[test]
fn new_stamp_is_stored() {
    let mut st = SyncState::new();
    let sent = stamp_value("17");
    let mut reply = empty_reply();
    reply.modified_at = Some(42);
    let fx = st.on_heartbeat_reply(reply, sent);
    assert_eq!(fx.new_stamp.map(|m| m.to_string()), Some(s("42")));
    assert!(!fx.clear_hash);
}

#[test]
fn same_stamp_is_not_stored() {
    let mut st = SyncState::new();
    let mut reply = empty_reply();
    reply.modified_at = Some(17);
    assert_eq!(st.on_heartbeat_reply(reply, 17).new_stamp, None);
}

#[test]
fn sysinfo_directive_forces_upload() {
    let mut st = SyncState::new();
    st.info = InfoUploaded::uploaded(s("U"), s("I"), s("a"));
    let mut reply = empty_reply();
    reply.sysinfo = true;
    let fx = st.on_heartbeat_reply(reply, 0);
    assert!(fx.clear_hash);
    assert!(!st.info.uploaded);
    assert!(st.info.need_upload(&s("a"), 0, false));
}

#[test]
fn strategy_options_are_passed_on() {
    let mut st = SyncState::new();
    let mut reply = empty_reply();
    reply.strategy = Some(StrategyOptions { config_options: pairs(&[("k", "v")]), extra: pairs(&[("x", "y")]) });
    let fx = st.on_heartbeat_reply(reply, 0);
    assert_eq!(fx.config_options, Some(pairs(&[("k", "v")])));
    assert_eq!(fx.disconnect, None);
}

#[test]
fn disconnect_list_reaches_every_subscriber() {
    let bus = DisconnectBus::new();
    let mut early = bus.subscribe();
    let mut st = SyncState::new();
    let mut reply = empty_reply();
    reply.disconnect = Some(vec![3, 7]);
    let fx = st.on_heartbeat_reply(reply, 0);
    let mut late = bus.subscribe();
    assert_eq!(bus.publish(fx.disconnect.unwrap()), 2);
    assert_eq!(early.try_recv().unwrap(), vec![3, 7]);
    assert_eq!(late.try_recv().unwrap(), vec![3, 7]);
    assert!(early.try_recv().is_err());
    assert!(late.try_recv().is_err());
}

#[test]
fn subscriber_misses_earlier_lists() {
    let bus = DisconnectBus::new();
    assert_eq!(bus.publish(vec![1]), 0);
    let mut rx = bus.subscribe();
    assert!(rx.try_recv().is_err());
    bus.publish(vec![2]);
    assert_eq!(rx.try_recv().unwrap(), vec![2]);
}

#[test]
fn presets_drop_empty_values() {
    let presets = pairs(&[("preset-address-book-name", ""), ("preset-user-name", "bob"), ("preset-device-group-name", "g")]);
    assert_eq!(preset_fields(&presets), pairs(&[("preset-user-name", "bob"), ("preset-device-group-name", "g")]));
}
