//! A verified bridge between a native host and a code editor that lives
//! inside an embedded web view: the scripts sent to the view, the readiness
//! poll, the cached content snapshot, and the menu dispatch.

mod bridge;
mod json;
mod laws;
mod menu;
mod reply;
mod script;

pub use bridge::{
    push_request, BridgeState, EditorBridge, Readiness, Slot, POLL_INTERVAL_MS,
    POLL_LIMIT,
};
pub use json::{
    char_of, code_point, escape_char, escape_text, hex_digit, hex_value, json_literal, json_quote, lemma_literal_round_trip,
    literal_text, needs_code_escape, unescape_char, unescape_text,
};
pub use reply::{confirms, probe_status, reports_ready, status_of, text_of, ProbeStatus, Reply};
pub use script::{
    bootstrap_script, bootstrap_text, push_script, push_text, BOOTSTRAP_HEAD, BOOTSTRAP_TAIL,
    CONTAINER_ID, DISPOSE_SCRIPT, PROBE_SCRIPT, PUSH_HEAD, PUSH_TAIL, READ_SCRIPT,
};
pub use laws::{
    fetch_after_bootstrap, lemma_bootstrap_then_fetch, lemma_dispose_twice, lemma_fetch_needs_ready,
    lemma_push_outcome, lemma_ready_absorbing, lemma_timeout_is_final,
};
pub use menu::{
    command_of, menu_command, MenuCommand, EXIT_MENU_ITEM_ID, NEW_MENU_ITEM_ID,
    OTHER_MENU_ITEM_ID_1, OTHER_MENU_ITEM_ID_2,
};
