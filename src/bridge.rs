use vstd::prelude::*;

use crate::json::{json_literal, json_quote};
use crate::reply::{confirms, probe_status, reports_ready, text_of, ProbeStatus, Reply};
use crate::script::{
    bootstrap_script, bootstrap_text, push_script, push_text, DISPOSE_SCRIPT,
};

verus! {

/// How many probes the poll sends at most before it gives up.
pub const POLL_LIMIT: u32 = 50;

/// How long the poll waits before each probe, in milliseconds.
pub const POLL_INTERVAL_MS: u64 = 200;

/// How far the editor has come. Once `Ready`, it stays `Ready`.
#[derive(Clone, Copy, Debug, PartialEq, Eq, Structural)]
pub enum Readiness {
    Uninitialized,
    Loading,
    Ready,
}

/// The named slot in the embedded view that holds the editor.
#[derive(Clone, Copy, Debug, PartialEq, Eq, Structural)]
pub enum Slot {
    /// No editor was built yet.
    Vacant,
    /// The editor was built and not disposed of.
    Occupied,
    /// The editor was disposed of; the slot is never filled again.
    Cleared,
}

/// The native side of one editor: its readiness, the poll, the cached
/// snapshot of its text, and its slot.
pub struct EditorBridge {
    pub readiness: Readiness,
    /// Probes answered so far.
    pub attempts: u32,
    /// Whether the readiness poll is still running.
    pub polling: bool,
    /// The editor's text as of the last successful fetch or push.
    pub stored: String,
    pub slot: Slot,
}

/// The state of an `EditorBridge` as a mathematical value.
pub struct BridgeState {
    pub readiness: Readiness,
    pub attempts: nat,
    pub polling: bool,
    pub stored: Seq<char>,
    pub slot: Slot,
}

impl View for EditorBridge {
    type V = BridgeState;

    open spec fn view(&self) -> BridgeState {
        BridgeState {
            readiness: self.readiness,
            attempts: self.attempts as nat,
            polling: self.polling,
            stored: self.stored@,
            slot: self.slot,
        }
    }
}

impl BridgeState {
    /// The states that the operations below can reach.
    pub open spec fn wf(self) -> bool {
        &&& self.attempts <= POLL_LIMIT
        &&& self.polling ==> self.readiness == Readiness::Loading && self.slot == Slot::Occupied
            && self.attempts < POLL_LIMIT
        &&& self.slot == Slot::Vacant <==> self.readiness == Readiness::Uninitialized
        &&& self.slot == Slot::Vacant ==> self.attempts == 0 && !self.polling
        &&& self.readiness == Readiness::Loading && self.slot == Slot::Occupied ==> (self.polling
            <==> self.attempts < POLL_LIMIT)
    }

    /// Whether content may be fetched or pushed: the editor is ready and
    /// not disposed of.
    pub open spec fn live(self) -> bool {
        self.readiness == Readiness::Ready && self.slot == Slot::Occupied
    }

    /// After the container is mounted: the first mount builds the editor
    /// and starts the poll; any later one does nothing.
    pub open spec fn mounted(self) -> BridgeState {
        if self.slot == Slot::Vacant {
            BridgeState {
                readiness: Readiness::Loading,
                attempts: 0,
                polling: true,
                slot: Slot::Occupied,
                ..self
            }
        } else {
            self
        }
    }

    /// After a probe answered, `ready` telling whether it reported ready.
    /// The first ready answer ends the poll; so does the last allowed probe.
    pub open spec fn probed(self, ready: bool) -> BridgeState {
        if !self.polling {
            self
        } else if ready {
            BridgeState {
                readiness: Readiness::Ready,
                attempts: self.attempts + 1,
                polling: false,
                ..self
            }
        } else {
            BridgeState {
                attempts: self.attempts + 1,
                polling: self.attempts + 1 < POLL_LIMIT,
                ..self
            }
        }
    }

    /// After a fetch whose check reported `check_ready` and whose read gave
    /// `content`: the snapshot is replaced only where all of it went well.
    pub open spec fn fetched(self, check_ready: bool, content: Option<Seq<char>>) -> BridgeState {
        if self.live() && check_ready && content is Some {
            BridgeState { stored: content->Some_0, ..self }
        } else {
            self
        }
    }

    /// Whether a push reports success: the editor is live and the view
    /// confirmed it.
    pub open spec fn push_succeeds(self, confirmed: bool) -> bool {
        self.live() && confirmed
    }

    /// After a push of `payload` that the view `confirmed` or not.
    pub open spec fn pushed(self, payload: Seq<char>, confirmed: bool) -> BridgeState {
        if self.push_succeeds(confirmed) {
            BridgeState { stored: payload, ..self }
        } else {
            self
        }
    }

    /// After disposal: the slot is cleared and the poll ends.
    pub open spec fn disposed(self) -> BridgeState {
        if self.slot == Slot::Occupied {
            BridgeState { slot: Slot::Cleared, polling: false, ..self }
        } else {
            self
        }
    }
}

impl EditorBridge {
    /// A bridge for an editor that is to start with `initial_value`.
    pub fn new(initial_value: String) -> (r: EditorBridge)
        ensures
            r@ == (BridgeState {
                readiness: Readiness::Uninitialized,
                attempts: 0,
                polling: false,
                stored: initial_value@,
                slot: Slot::Vacant,
            }),
            r@.wf(),
    {
        EditorBridge {
            readiness: Readiness::Uninitialized,
            attempts: 0,
            polling: false,
            stored: initial_value,
            slot: Slot::Vacant,
        }
    }

    /// Called when the container is mounted. The first call gives the
    /// bootstrap script, which builds the editor with the snapshot's text;
    /// the poll then runs. Later calls give nothing and change nothing.
    pub fn mount(&mut self) -> (r: Option<String>)
        requires
            old(self)@.wf(),
        ensures
            final(self)@ == old(self)@.mounted(),
            final(self)@.wf(),
            r is Some <==> old(self).slot == Slot::Vacant,
            r matches Some(s) ==> s@ == bootstrap_text(json_quote(old(self).stored@)),
    {
        if self.slot != Slot::Vacant {
            return None;
        }
        let literal = json_literal(self.stored.as_str());
        let script = bootstrap_script(literal.as_str());
        self.readiness = Readiness::Loading;
        self.attempts = 0;
        self.polling = true;
        self.slot = Slot::Occupied;
        Some(script)
    }

    /// Whether the poll is still running, so another probe is due.
    pub fn is_polling(&self) -> (r: bool)
        ensures
            r == self.polling,
    {
        self.polling
    }

    /// Whether the editor has been seen ready.
    pub fn is_ready(&self) -> (r: bool)
        ensures
            r == (self.readiness == Readiness::Ready),
    {
        self.readiness == Readiness::Ready
    }

    /// Whether the editor may be fetched from or pushed to.
    pub fn is_live(&self) -> (r: bool)
        ensures
            r == self@.live(),
    {
        self.readiness == Readiness::Ready && self.slot == Slot::Occupied
    }

    /// The cached snapshot.
    pub fn stored_content(&self) -> (r: String)
        ensures
            r@ == self.stored@,
    {
        self.stored.clone()
    }

    /// Records a probe's answer; tells whether this answer made the editor
    /// ready. An answer that comes when the poll has ended changes nothing.
    pub fn on_probe_reply(&mut self, reply: &Reply) -> (became_ready: bool)
        requires
            old(self)@.wf(),
        ensures
            final(self)@ == old(self)@.probed(reports_ready(*reply)),
            final(self)@.wf(),
            became_ready == (old(self).readiness != Readiness::Ready && final(self).readiness
                == Readiness::Ready),
    {
        if !self.polling {
            return false;
        }
        self.attempts = self.attempts + 1;
        if probe_status(reply) == ProbeStatus::Ready {
            self.readiness = Readiness::Ready;
            self.polling = false;
            true
        } else {
            self.polling = self.attempts < POLL_LIMIT;
            false
        }
    }

    /// Whether a fetch goes on to read the editor, given the answer of the
    /// check sent just before.
    pub fn fetch_proceeds(&self, check: &Reply) -> (r: bool)
        ensures
            r == (self@.live() && reports_ready(*check)),
    {
        self.is_live() && probe_status(check) == ProbeStatus::Ready
    }

    /// Ends a fetch: the snapshot becomes the text that was read, where the
    /// editor is live, the check reported ready and the read gave a string.
    pub fn complete_fetch(&mut self, check: &Reply, content: &Reply)
        requires
            old(self)@.wf(),
        ensures
            final(self)@ == old(self)@.fetched(reports_ready(*check), text_of(*content)),
            final(self)@.wf(),
    {
        if self.fetch_proceeds(check) {
            match content {
                Reply::Text(t) => {
                    self.stored = t.clone();
                },
                _ => {},
            }
        }
    }

    /// Ends a push of `payload`; tells whether the snapshot took it, which is
    /// where the editor is live and the view confirmed the push.
    pub fn complete_push(&mut self, payload: &str, reply: &Reply) -> (r: bool)
        requires
            old(self)@.wf(),
        ensures
            final(self)@ == old(self)@.pushed(payload@, confirms(*reply)),
            final(self)@.wf(),
            r == old(self)@.push_succeeds(confirms(*reply)),
    {
        let confirmed = match reply {
            Reply::Flag(b) => *b,
            _ => false,
        };
        if self.is_live() && confirmed {
            self.stored = payload.to_string();
            true
        } else {
            false
        }
    }

    /// Disposes of the editor. The first call after the editor was built
    /// gives the disposal script and clears the slot; any other call gives
    /// nothing and changes nothing.
    pub fn dispose(&mut self) -> (r: Option<String>)
        requires
            old(self)@.wf(),
        ensures
            final(self)@ == old(self)@.disposed(),
            final(self)@.wf(),
            r is Some <==> old(self).slot == Slot::Occupied,
            r matches Some(s) ==> s@ == DISPOSE_SCRIPT@,
    {
        if self.slot == Slot::Occupied {
            self.slot = Slot::Cleared;
            self.polling = false;
            Some(String::from_str(DISPOSE_SCRIPT))
        } else {
            None
        }
    }
}

/// The script that pushes `payload` into the editor, with the text written as
/// a JSON string literal.
pub fn push_request(payload: &str) -> (r: String)
    ensures
        r@ == push_text(json_quote(payload@)),
{
    let literal = json_literal(payload);
    push_script(literal.as_str())
}

} // verus!
