use monaco_bridge::{
    json_literal, menu_command, probe_status, push_request, EditorBridge, MenuCommand,
    ProbeStatus, Readiness, Reply, Slot, BOOTSTRAP_HEAD, BOOTSTRAP_TAIL, DISPOSE_SCRIPT,
    EXIT_MENU_ITEM_ID, NEW_MENU_ITEM_ID, OTHER_MENU_ITEM_ID_1, POLL_LIMIT, PUSH_HEAD, PUSH_TAIL,
};

fn text(s: &str) -> Reply {
    Reply::Text(s.to_string())
}

fn ready_bridge(initial: &str) -> EditorBridge {
    let mut b = EditorBridge::new(initial.to_string());
    assert!(b.mount().is_some());
    assert!(b.on_probe_reply(&text("ready")));
    b
}

#[test]
fn mount_then_fetch_returns_initial_text() {
    let initial = "console.log('Hello from Monaco Editor!');";
    let mut b = EditorBridge::new(initial.to_string());
    let script = b.mount().unwrap();
    assert_eq!(
        script,
        format!("{}\"console.log('Hello from Monaco Editor!');\"{}", BOOTSTRAP_HEAD, BOOTSTRAP_TAIL)
    );
    assert!(!b.is_ready());
    assert!(b.on_probe_reply(&text("ready")));
    assert!(b.is_ready());
    let check = text("ready");
    assert!(b.fetch_proceeds(&check));
    b.complete_fetch(&check, &text(initial));
    assert_eq!(b.stored_content().as_bytes(), initial.as_bytes());
}

#[test]
fn confirmed_push_overwrites_snapshot() {
    let payload = "console.log('New content from Rust!');";
    let mut b = ready_bridge("old text");
    let script = push_request(payload);
    assert_eq!(
        script,
        format!("{}\"console.log('New content from Rust!');\"{}", PUSH_HEAD, PUSH_TAIL)
    );
    assert!(b.complete_push(payload, &Reply::Flag(true)));
    assert_eq!(b.stored_content(), payload);
}

#[test]
fn unconfirmed_push_keeps_snapshot() {
    let mut b = ready_bridge("keep me");
    assert!(!b.complete_push("other", &Reply::Flag(false)));
    assert!(!b.complete_push("other", &Reply::Failed));
    assert!(!b.complete_push("other", &text("true")));
    assert_eq!(b.stored_content(), "keep me");
}

#[test]
fn push_before_ready_keeps_snapshot() {
    let mut b = EditorBridge::new("start".to_string());
    b.mount();
    assert!(!b.complete_push("other", &Reply::Flag(true)));
    assert_eq!(b.stored_content(), "start");
}

#[test]
fn fetch_while_not_ready_keeps_snapshot() {
    let mut b = EditorBridge::new("start".to_string());
    b.mount();
    let check = text("ready");
    assert!(!b.fetch_proceeds(&check));
    b.complete_fetch(&check, &text("live text"));
    assert_eq!(b.stored_content(), "start");
}

#[test]
fn fetch_needs_ready_check_and_string_content() {
    let mut b = ready_bridge("start");
    b.complete_fetch(&text("not_ready"), &text("live text"));
    assert_eq!(b.stored_content(), "start");
    b.complete_fetch(&Reply::Failed, &text("live text"));
    assert_eq!(b.stored_content(), "start");
    b.complete_fetch(&text("ready"), &Reply::Other);
    assert_eq!(b.stored_content(), "start");
    b.complete_fetch(&text("ready"), &text(""));
    assert_eq!(b.stored_content(), "");
}

#[test]
fn poll_gives_up_after_limit() {
    let mut b = EditorBridge::new(String::new());
    b.mount();
    let mut sent: u32 = 0;
    while b.is_polling() {
        assert!(!b.on_probe_reply(&text("not_initialized")));
        sent += 1;
    }
    assert_eq!(sent, POLL_LIMIT);
    assert_eq!(sent, 50);
    assert_eq!(b.readiness, Readiness::Loading);
    assert!(!b.on_probe_reply(&text("ready")));
    assert!(!b.is_ready());
    assert_eq!(b.mount(), None);
    assert!(!b.is_polling());
}

#[test]
fn ready_on_last_probe() {
    let mut b = EditorBridge::new(String::new());
    b.mount();
    for _ in 0..POLL_LIMIT - 1 {
        assert!(!b.on_probe_reply(&Reply::Failed));
    }
    assert!(b.is_polling());
    assert!(b.on_probe_reply(&text("ready")));
    assert!(b.is_ready());
    assert_eq!(b.attempts, 50);
}

#[test]
fn ready_is_absorbing() {
    let mut b = ready_bridge("x");
    assert!(!b.is_polling());
    assert!(!b.on_probe_reply(&text("null")));
    assert!(b.mount().is_none());
    b.complete_fetch(&text("null"), &Reply::Other);
    b.complete_push("y", &Reply::Flag(false));
    assert!(b.is_ready());
    b.dispose();
    assert_eq!(b.readiness, Readiness::Ready);
    assert!(!b.is_live());
}

#[test]
fn dispose_twice_is_harmless() {
    let mut b = ready_bridge("x");
    assert_eq!(b.dispose().as_deref(), Some(DISPOSE_SCRIPT));
    assert_eq!(b.slot, Slot::Cleared);
    assert_eq!(b.dispose(), None);
    assert_eq!(b.slot, Slot::Cleared);
    assert!(b.mount().is_none());
}

#[test]
fn dispose_stops_poll_and_blocks_reuse() {
    let mut b = EditorBridge::new("x".to_string());
    assert_eq!(b.dispose(), None);
    assert_eq!(b.slot, Slot::Vacant);
    b.mount();
    assert!(b.is_polling());
    assert!(b.dispose().is_some());
    assert!(!b.is_polling());
    assert!(!b.on_probe_reply(&text("ready")));
    assert!(!b.is_ready());
    assert!(b.mount().is_none());
}

#[test]
fn mount_only_once() {
    let mut b = EditorBridge::new("x".to_string());
    assert!(b.mount().is_some());
    assert!(b.mount().is_none());
    assert_eq!(b.attempts, 0);
    assert!(b.is_polling());
}

#[test]
fn probe_vocabulary() {
    assert_eq!(probe_status(&text("ready")), ProbeStatus::Ready);
    assert_eq!(probe_status(&text("not_initialized")), ProbeStatus::NotInitialized);
    assert_eq!(probe_status(&text("null")), ProbeStatus::Null);
    assert_eq!(probe_status(&text("no_getValue")), ProbeStatus::NotReady);
    assert_eq!(probe_status(&text("not_ready")), ProbeStatus::NotReady);
    assert_eq!(probe_status(&text("Ready")), ProbeStatus::Unrecognized);
    assert_eq!(probe_status(&text(" ready")), ProbeStatus::Unrecognized);
    assert_eq!(probe_status(&Reply::Flag(true)), ProbeStatus::Unrecognized);
    assert_eq!(probe_status(&Reply::Other), ProbeStatus::Unrecognized);
    assert_eq!(probe_status(&Reply::Failed), ProbeStatus::Unrecognized);
}

#[test]
fn literal_escapes_special_characters() {
    assert_eq!(json_literal(""), "\"\"");
    assert_eq!(json_literal("a\"b\\c"), "\"a\\\"b\\\\c\"");
    assert_eq!(json_literal("x\ny\tz\r"), "\"x\\ny\\tz\\r\"");
    assert_eq!(json_literal("\u{8}\u{c}\u{1}\u{1f}"), "\"\\b\\f\\u0001\\u001f\"");
    assert_eq!(json_literal("é\u{7f}"), "\"é\u{7f}\"");
}

#[test]
fn push_script_escapes_payload() {
    let script = push_request("say \"hi\"\n");
    assert_eq!(script, format!("{}\"say \\\"hi\\\"\\n\"{}", PUSH_HEAD, PUSH_TAIL));
}

#[test]
fn bootstrap_escapes_initial_text() {
    let mut b = EditorBridge::new("a\"b".to_string());
    let script = b.mount().unwrap();
    assert_eq!(script, format!("{}\"a\\\"b\"{}", BOOTSTRAP_HEAD, BOOTSTRAP_TAIL));
}

#[test]
fn menu_dispatch() {
    assert_eq!(menu_command(NEW_MENU_ITEM_ID), MenuCommand::New);
    assert_eq!(menu_command("new_menu_item"), MenuCommand::New);
    assert_eq!(menu_command(EXIT_MENU_ITEM_ID), MenuCommand::Exit);
    assert_eq!(menu_command(OTHER_MENU_ITEM_ID_1), MenuCommand::Ignore);
    assert_eq!(menu_command(""), MenuCommand::Ignore);
    assert_eq!(menu_command("exit_menu_item "), MenuCommand::Ignore);
}
