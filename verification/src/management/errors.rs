//! What a management exchange can refuse with.
//!
//! Two families, kept apart on purpose. A [`TransportError`] is this side of
//! the socket failing; a [`ManagementError::Wire`] is the daemon answering with
//! its own refusal, and the sentence inside it is the daemon's, never ours.

use vstd::prelude::*;

use crate::management::types::Json;
use crate::text::{chars_eq, chars_of, concat, concat3, decimal, decimal_string, owned, push_str};

verus! {

/// What a frame read or write can refuse.
#[derive(Debug, Clone, PartialEq, Eq)]
pub enum FrameError {
    /// The peer closed before the frame was whole.
    Truncated { expected: usize, read: usize },
    /// The declared length is above the contract's ceiling.
    TooLarge { declared: usize, ceiling: usize },
    /// The stream itself failed, with the stream's own words.
    Io(String),
}

/// What [`FrameError::message`] says.
pub open spec fn frame_message(error: FrameError) -> Seq<char> {
    match error {
        FrameError::Truncated { expected, read } => "frame truncated: expected "@ + decimal(
            expected as nat,
        ) + " bytes, read "@ + decimal(read as nat),
        FrameError::TooLarge { declared, ceiling } => "frame declares "@ + decimal(declared as nat)
            + " bytes, ceiling is "@ + decimal(ceiling as nat),
        FrameError::Io(words) => "stream failed: "@ + words@,
    }
}

impl FrameError {
    /// The sentence for this refusal.
    pub fn message(&self) -> (r: String)
        ensures
            r@ == frame_message(*self),
    {
        match self {
            FrameError::Truncated { expected, read } => {
                let mut r = concat("frame truncated: expected ", decimal_string(*expected as u64).as_str());
                push_str(&mut r, " bytes, read ");
                push_str(&mut r, decimal_string(*read as u64).as_str());
                r
            },
            FrameError::TooLarge { declared, ceiling } => {
                let mut r = concat("frame declares ", decimal_string(*declared as u64).as_str());
                push_str(&mut r, " bytes, ceiling is ");
                push_str(&mut r, decimal_string(*ceiling as u64).as_str());
                r
            },
            FrameError::Io(words) => concat("stream failed: ", words.as_str()),
        }
    }
}

/// The socket failing, before any answer exists.
#[derive(Debug, Clone, PartialEq, Eq)]
pub enum TransportError {
    /// Nothing is listening: no socket file, or nothing accepting on it.
    NotRunning,
    /// The peer accepted and the exchange did not finish inside its deadline.
    Timeout,
    /// The framing refused the bytes.
    Frame(FrameError),
    /// Everything else the stream can do, in the stream's own words.
    Io(String),
}

/// What [`TransportError::message`] says.
pub open spec fn transport_message(error: TransportError) -> Seq<char> {
    match error {
        TransportError::NotRunning => "nothing is listening on the socket"@,
        TransportError::Timeout => "the exchange passed its deadline"@,
        TransportError::Frame(frame) => frame_message(frame),
        TransportError::Io(words) => words@,
    }
}

impl TransportError {
    /// The sentence for this failure.
    pub fn message(&self) -> (r: String)
        ensures
            r@ == transport_message(*self),
    {
        match self {
            TransportError::NotRunning => owned("nothing is listening on the socket"),
            TransportError::Timeout => owned("the exchange passed its deadline"),
            TransportError::Frame(frame) => frame.message(),
            TransportError::Io(words) => words.clone(),
        }
    }
}

impl From<FrameError> for TransportError {
    fn from(error: FrameError) -> (r: Self) {
        TransportError::Frame(error)
    }
}

impl vstd::std_specs::convert::FromSpecImpl<FrameError> for TransportError {
    open spec fn obeys_from_spec() -> bool {
        true
    }

    open spec fn from_spec(v: FrameError) -> TransportError {
        TransportError::Frame(v)
    }
}

/// The daemon's own refusal, decoded.
///
/// `sentence` is `details.sentence` when the daemon supplied one and `None`
/// otherwise. A surface renders the sentence when it is there and `message`
/// when it is not.
#[derive(Debug, Clone, PartialEq, Eq)]
pub struct WireError {
    pub code: String,
    pub message: String,
    pub sentence: Option<String>,
    pub details: Vec<(String, Json)>,
}

/// The first detail published under one field, where there is one.
pub open spec fn detail_at(details: Seq<(String, Json)>, field: Seq<char>) -> Option<Json>
    decreases details.len(),
{
    if details.len() == 0 {
        None
    } else if details[0].0@ == field {
        Some(details[0].1)
    } else {
        detail_at(details.drop_first(), field)
    }
}

/// The sentence a wire error renders.
pub open spec fn wire_rendered(error: WireError) -> Seq<char> {
    match error.sentence {
        Some(sentence) => sentence@,
        None => error.message@,
    }
}

/// The first value published under one name in a list of named values.
pub fn detail_in<'a>(details: &'a Vec<(String, Json)>, field: &str) -> (r: Option<&'a Json>)
    ensures
        match r {
            Some(j) => detail_at(details@, field@) == Some(*j),
            None => detail_at(details@, field@) is None,
        },
{
    let wanted = chars_of(field);
    let mut i: usize = 0;
    assert(details@.skip(0) =~= details@);
    while i < details.len()
        invariant
            i <= details@.len(),
            wanted@ == field@,
            detail_at(details@, field@) == detail_at(details@.skip(i as int), field@),
        decreases details@.len() - i,
    {
        proof {
            assert(details@.skip(i as int).drop_first() =~= details@.skip(i + 1));
        }
        let name = chars_of(details[i].0.as_str());
        if chars_eq(name.as_slice(), wanted.as_slice()) {
            return Some(&details[i].1);
        }
        i = i + 1;
    }
    proof {
        assert(details@.skip(i as int) =~= Seq::<(String, Json)>::empty());
    }
    None
}

impl WireError {
    /// The sentence to render: the daemon's own where it has one, its fixed
    /// class sentence otherwise.
    pub fn rendered(&self) -> (r: &str)
        ensures
            r@ == wire_rendered(*self),
    {
        match &self.sentence {
            Some(sentence) => sentence.as_str(),
            None => self.message.as_str(),
        }
    }

    fn find(&self, field: &str) -> (r: Option<&Json>)
        ensures
            match r {
                Some(j) => detail_at(self.details@, field@) == Some(*j),
                None => detail_at(self.details@, field@) is None,
            },
    {
        detail_in(&self.details, field)
    }

    /// One public scalar out of `details`, as a string.
    pub fn detail(&self, field: &str) -> (r: Option<&str>)
        ensures
            match detail_at(self.details@, field@) {
                Some(Json::Text(text)) => r matches Some(s) && s@ == text@,
                _ => r is None,
            },
    {
        match self.find(field) {
            Some(Json::Text(text)) => Some(text.as_str()),
            _ => None,
        }
    }

    /// One public scalar out of `details`, as an integer.
    pub fn detail_u32(&self, field: &str) -> (r: Option<u32>)
        ensures
            match detail_at(self.details@, field@) {
                Some(Json::Number { unsigned: Some(n), .. }) => if n <= u32::MAX {
                    r == Some(n as u32)
                } else {
                    r is None
                },
                _ => r is None,
            },
    {
        match self.find(field) {
            Some(Json::Number { unsigned: Some(n), .. }) => {
                if *n <= u32::MAX as u64 {
                    Some(*n as u32)
                } else {
                    None
                }
            },
            _ => None,
        }
    }
}

/// Everything one management call can answer with other than a result.
#[derive(Debug, PartialEq, Eq)]
pub enum ManagementError {
    /// The socket failed.
    Transport(TransportError),
    /// The daemon refused.
    Wire(WireError),
    /// The method's published minimum is above the negotiated version, so the
    /// call was refused here rather than sent. `required` is the minimum.
    MethodNeedsNewerDaemon { method: String, required: u32, negotiated: u32 },
    /// The method is not in the vendored contract at all, which is a defect in
    /// this application rather than a state of the daemon.
    MethodNotInContract { method: String },
    /// The two halves share no version.
    VersionsDoNotOverlap { app: (u32, u32), daemon: (u32, u32) },
    /// The answer did not decode into the shape the contract publishes.
    Decode { method: String, reason: String },
    /// Every frame that arrived carried a different request id.
    NoAnswer { method: String },
    /// The encoded parameters are above the published bound, refused here
    /// rather than sent and failed on the far side.
    RequestTooLarge { method: String, bytes: usize, ceiling: usize },
}

/// What [`ManagementError::message`] says.
pub open spec fn management_message(error: ManagementError) -> Seq<char> {
    match error {
        ManagementError::Transport(transport) => transport_message(transport),
        ManagementError::Wire(wire) => wire.code@ + ": "@ + wire_rendered(wire),
        ManagementError::MethodNeedsNewerDaemon { method, required, negotiated } => method@
            + " needs protocol "@ + decimal(required as nat) + ", this session negotiated "@
            + decimal(negotiated as nat),
        ManagementError::MethodNotInContract { method } => method@
            + " is not published by the vendored contract"@,
        ManagementError::VersionsDoNotOverlap { app, daemon } => "this app speaks "@ + decimal(
            app.0 as nat,
        ) + "-"@ + decimal(app.1 as nat) + " and the daemon speaks "@ + decimal(daemon.0 as nat)
            + "-"@ + decimal(daemon.1 as nat),
        ManagementError::Decode { method, reason } => method@ + " did not decode: "@ + reason@,
        ManagementError::NoAnswer { method } => method@
            + " received no frame carrying its request id"@,
        ManagementError::RequestTooLarge { method, bytes, ceiling } => method@ + " encodes "@
            + decimal(bytes as nat) + " bytes of params, bound is "@ + decimal(ceiling as nat),
    }
}

impl ManagementError {
    /// The sentence for this refusal, as a person reads it where no surface has
    /// one of its own.
    pub fn message(&self) -> (r: String)
        ensures
            r@ == management_message(*self),
    {
        match self {
            ManagementError::Transport(transport) => transport.message(),
            ManagementError::Wire(wire) => concat3(wire.code.as_str(), ": ", wire.rendered()),
            ManagementError::MethodNeedsNewerDaemon { method, required, negotiated } => {
                let mut r = concat(method.as_str(), " needs protocol ");
                push_str(&mut r, decimal_string(*required as u64).as_str());
                push_str(&mut r, ", this session negotiated ");
                push_str(&mut r, decimal_string(*negotiated as u64).as_str());
                r
            },
            ManagementError::MethodNotInContract { method } => concat(
                method.as_str(),
                " is not published by the vendored contract",
            ),
            ManagementError::VersionsDoNotOverlap { app, daemon } => {
                let mut r = concat("this app speaks ", decimal_string(app.0 as u64).as_str());
                push_str(&mut r, "-");
                push_str(&mut r, decimal_string(app.1 as u64).as_str());
                push_str(&mut r, " and the daemon speaks ");
                push_str(&mut r, decimal_string(daemon.0 as u64).as_str());
                push_str(&mut r, "-");
                push_str(&mut r, decimal_string(daemon.1 as u64).as_str());
                r
            },
            ManagementError::Decode { method, reason } => concat3(
                method.as_str(),
                " did not decode: ",
                reason.as_str(),
            ),
            ManagementError::NoAnswer { method } => concat(
                method.as_str(),
                " received no frame carrying its request id",
            ),
            ManagementError::RequestTooLarge { method, bytes, ceiling } => {
                let mut r = concat(method.as_str(), " encodes ");
                push_str(&mut r, decimal_string(*bytes as u64).as_str());
                push_str(&mut r, " bytes of params, bound is ");
                push_str(&mut r, decimal_string(*ceiling as u64).as_str());
                r
            },
        }
    }
}

impl From<TransportError> for ManagementError {
    fn from(error: TransportError) -> (r: Self) {
        ManagementError::Transport(error)
    }
}

impl vstd::std_specs::convert::FromSpecImpl<TransportError> for ManagementError {
    open spec fn obeys_from_spec() -> bool {
        true
    }

    open spec fn from_spec(v: TransportError) -> ManagementError {
        ManagementError::Transport(v)
    }
}

} // verus!
