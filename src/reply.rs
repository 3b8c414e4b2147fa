use vstd::prelude::*;

verus! {

/// What came back from one script sent to the embedded view.
pub enum Reply {
    /// The script answered with a string.
    Text(String),
    /// The script answered with a boolean.
    Flag(bool),
    /// The script answered with another value (`null`, a number, an object).
    Other,
    /// The round trip itself failed.
    Failed,
}

/// The readiness probe's verdict, read from its answer.
#[derive(Clone, Copy, Debug, PartialEq, Eq, Structural)]
pub enum ProbeStatus {
    /// The editor slot was never set.
    NotInitialized,
    /// The editor slot holds nothing.
    Null,
    /// The editor exists but cannot be read yet.
    NotReady,
    /// The editor can be read.
    Ready,
    /// An answer outside the vocabulary, or none.
    Unrecognized,
}

/// The verdict that an answer carries: exact words only.
pub open spec fn status_of(reply: Reply) -> ProbeStatus {
    match reply {
        Reply::Text(t) => {
            if t@ == "ready"@ {
                ProbeStatus::Ready
            } else if t@ == "not_initialized"@ {
                ProbeStatus::NotInitialized
            } else if t@ == "null"@ {
                ProbeStatus::Null
            } else if t@ == "no_getValue"@ || t@ == "not_ready"@ {
                ProbeStatus::NotReady
            } else {
                ProbeStatus::Unrecognized
            }
        },
        _ => ProbeStatus::Unrecognized,
    }
}

/// Whether an answer says the editor is ready.
pub open spec fn reports_ready(reply: Reply) -> bool {
    status_of(reply) == ProbeStatus::Ready
}

/// The text an answer carries, if it is a string.
pub open spec fn text_of(reply: Reply) -> Option<Seq<char>> {
    match reply {
        Reply::Text(t) => Some(t@),
        _ => None,
    }
}

/// Whether an answer confirms that a push went in.
pub open spec fn confirms(reply: Reply) -> bool {
    reply matches Reply::Flag(true)
}

/// Reads the probe's verdict from its answer.
pub fn probe_status(reply: &Reply) -> (r: ProbeStatus)
    ensures
        r == status_of(*reply),
{
    match reply {
        Reply::Text(t) => {
            if *t == String::from_str("ready") {
                ProbeStatus::Ready
            } else if *t == String::from_str("not_initialized") {
                ProbeStatus::NotInitialized
            } else if *t == String::from_str("null") {
                ProbeStatus::Null
            } else if *t == String::from_str("no_getValue") || *t == String::from_str(
                "not_ready",
            ) {
                ProbeStatus::NotReady
            } else {
                ProbeStatus::Unrecognized
            }
        },
        _ => ProbeStatus::Unrecognized,
    }
}

} // verus!
