//! The management client, as the decisions it takes.
//!
//! Nothing else in the application opens the socket, and nothing here does
//! either: the application performs each exchange and hands the answer back.
//! What is here is everything the client decides. It negotiates the highest
//! version both halves speak, refuses a method whose published minimum is
//! above it before sending, discards a frame carrying somebody else's request
//! id, and stamps every answer with the connection epoch it was issued under
//! so a result from a dead connection can never reach a live model.

use serde_json::Value;
use vstd::prelude::*;

use crate::management::contract::{self, method_table, minimum_in, window, VersionRange};
use crate::management::errors::{detail_at, detail_in, ManagementError, WireError};
use crate::management::types::{EngineIdentity, HelloCapabilities, HelloResult, Json, SetupEndpoint};
use crate::text::{concat, decimal, decimal_string, owned, str_eq};

verus! {

/// The epoch after a reset: one more, held at the largest a counter can be.
pub open spec fn next_epoch(epoch: u64) -> u64 {
    if epoch == u64::MAX {
        u64::MAX
    } else {
        (epoch + 1) as u64
    }
}

/// A reset stales every answer issued before it: an answer issued under any
/// epoch up to the current one is refused under the epoch a reset moves to,
/// while the counter has room to move.
pub proof fn a_reset_stales_every_earlier_answer(issued: u64, current: u64)
    requires
        issued <= current < u64::MAX,
    ensures
        next_epoch(current) != issued,
        next_epoch(current) > current,
{
}

/// An answer and the connection epoch it was issued under.
#[derive(Debug)]
pub struct Issued<T> {
    pub epoch: u64,
    pub value: T,
}

impl<T> Issued<T> {
    /// The answer, or nothing when the connection epoch has moved since it was
    /// issued. A caller that uses this cannot apply a stale result by accident.
    pub fn accept(self, client: &ManagementClient) -> (r: Option<T>)
        ensures
            r == (if client.epoch_of() == self.epoch {
                Some(self.value)
            } else {
                None
            }),
    {
        if client.epoch() == self.epoch {
            Some(self.value)
        } else {
            None
        }
    }
}

/// Whether two `hello` answers say the same thing, field by field.
pub open spec fn same_hello(a: HelloResult, b: HelloResult) -> bool {
    &&& a.protocol == b.protocol
    &&& a.capabilities.methods@ == b.capabilities.methods@
    &&& a.capabilities.minimum_versions@ == b.capabilities.minimum_versions@
    &&& a.engine == b.engine
    &&& a.setup == b.setup
}

/// A copy of one `hello` answer.
fn copy_hello(h: &HelloResult) -> (r: HelloResult)
    ensures
        same_hello(r, *h),
{
    let mut methods: Vec<String> = Vec::new();
    let mut i: usize = 0;
    while i < h.capabilities.methods.len()
        invariant
            i <= h.capabilities.methods@.len(),
            methods@ == h.capabilities.methods@.take(i as int),
        decreases h.capabilities.methods@.len() - i,
    {
        methods.push(h.capabilities.methods[i].clone());
        proof {
            assert(h.capabilities.methods@.take(i + 1) =~= h.capabilities.methods@.take(i as int).push(
                h.capabilities.methods@[i as int],
            ));
        }
        i = i + 1;
    }
    let mut minimums: Vec<(String, u32)> = Vec::new();
    let mut k: usize = 0;
    while k < h.capabilities.minimum_versions.len()
        invariant
            k <= h.capabilities.minimum_versions@.len(),
            minimums@ == h.capabilities.minimum_versions@.take(k as int),
        decreases h.capabilities.minimum_versions@.len() - k,
    {
        let pair = (h.capabilities.minimum_versions[k].0.clone(), h.capabilities.minimum_versions[k].1);
        minimums.push(pair);
        proof {
            assert(h.capabilities.minimum_versions@.take(k + 1) =~= h.capabilities.minimum_versions@.take(
                k as int,
            ).push(h.capabilities.minimum_versions@[k as int]));
        }
        k = k + 1;
    }
    proof {
        assert(h.capabilities.methods@.take(i as int) =~= h.capabilities.methods@);
        assert(h.capabilities.minimum_versions@.take(k as int) =~= h.capabilities.minimum_versions@);
    }
    let e = &h.engine;
    HelloResult {
        protocol: h.protocol,
        capabilities: HelloCapabilities { methods, minimum_versions: minimums },
        engine: EngineIdentity {
            engine_id: e.engine_id.clone(),
            product_version: e.product_version.clone(),
            build_id: match &e.build_id {
                Some(t) => Some(t.clone()),
                None => None,
            },
            source_commit: match &e.source_commit {
                Some(t) => Some(t.clone()),
                None => None,
            },
            distribution_identity: e.distribution_identity.clone(),
            artifact_target: match &e.artifact_target {
                Some(t) => Some(t.clone()),
                None => None,
            },
            architecture: e.architecture.clone(),
            pid: e.pid.clone(),
        },
        setup: SetupEndpoint { origin: h.setup.origin.clone(), path: h.setup.path.clone() },
    }
}

/// The client for one socket path.
pub struct ManagementClient {
    socket_path: String,
    /// Whether this client was given its socket for good.
    pinned: bool,
    negotiated: Option<u32>,
    counter: u64,
    epoch: u64,
    last_hello: Option<HelloResult>,
}

impl ManagementClient {
    /// The socket this client speaks to.
    pub closed spec fn path_of(&self) -> Seq<char> {
        self.socket_path@
    }

    /// Whether this client was given its socket for good.
    pub closed spec fn is_pinned(&self) -> bool {
        self.pinned
    }

    /// The current connection epoch.
    pub closed spec fn epoch_of(&self) -> u64 {
        self.epoch
    }

    /// The version both halves settled on, once `hello` has run.
    pub closed spec fn negotiated_of(&self) -> Option<u32> {
        self.negotiated
    }

    /// How many request ids this client has issued.
    pub closed spec fn issued_count(&self) -> u64 {
        self.counter
    }

    /// The `hello` answer that landed under the current epoch, where one did.
    pub closed spec fn hello_of(&self) -> Option<HelloResult> {
        self.last_hello
    }

    /// Whether a `hello` answer has landed under the current epoch.
    pub closed spec fn has_hello(&self) -> bool {
        self.last_hello is Some
    }

    /// A client for one socket, for good. Nothing is opened until a request is
    /// made, and nothing moves it afterwards.
    pub fn new(socket_path: &str) -> (c: Self)
        ensures
            c.path_of() == socket_path@,
            c.is_pinned(),
            c.epoch_of() == 0,
            c.negotiated_of() is None,
            c.issued_count() == 0,
            !c.has_hello(),
    {
        ManagementClient {
            socket_path: owned(socket_path),
            pinned: true,
            negotiated: None,
            counter: 0,
            epoch: 0,
            last_hello: None,
        }
    }

    /// A client with nowhere to speak to yet. Every exchange refuses as a
    /// daemon that is not running until the command line reports where the
    /// socket is.
    pub fn unbound() -> (c: Self)
        ensures
            c.path_of() == Seq::<char>::empty(),
            !c.is_pinned(),
            c.epoch_of() == 0,
            c.negotiated_of() is None,
            c.issued_count() == 0,
            !c.has_hello(),
    {
        ManagementClient {
            socket_path: String::new(),
            pinned: false,
            negotiated: None,
            counter: 0,
            epoch: 0,
            last_hello: None,
        }
    }

    /// The socket this client speaks to.
    pub fn socket_path(&self) -> (r: String)
        ensures
            r@ == self.path_of(),
    {
        self.socket_path.clone()
    }

    /// The current connection epoch.
    pub fn epoch(&self) -> (r: u64)
        ensures
            r == self.epoch_of(),
    {
        self.epoch
    }

    /// The version both halves settled on, once `hello` has run.
    pub fn negotiated_version(&self) -> (r: Option<u32>)
        ensures
            r == self.negotiated_of(),
    {
        self.negotiated
    }

    /// The last `hello` answer, if one has landed under the current epoch.
    pub fn last_hello(&self) -> (r: Option<&HelloResult>)
        ensures
            r is Some == self.has_hello(),
            r matches Some(h) ==> self.hello_of() == Some(*h),
    {
        match &self.last_hello {
            Some(h) => Some(h),
            None => None,
        }
    }

    /// Drop the session: a new epoch, and the negotiation is taken again.
    /// Results issued under the old epoch stop being acceptable the moment
    /// this returns.
    pub fn reset(&mut self)
        ensures
            final(self).epoch_of() == next_epoch(old(self).epoch_of()),
            final(self).negotiated_of() is None,
            !final(self).has_hello(),
            final(self).path_of() == old(self).path_of(),
            final(self).is_pinned() == old(self).is_pinned(),
            final(self).issued_count() == old(self).issued_count(),
    {
        self.epoch = if self.epoch == u64::MAX { u64::MAX } else { self.epoch + 1 };
        self.negotiated = None;
        self.last_hello = None;
    }

    /// Point this client at the socket the command line reported, and say
    /// whether anything moved. Moving is a new connection, so it is also a new
    /// epoch. A client given its socket for good never moves.
    pub fn rebind(&mut self, socket_path: &str) -> (moved: bool)
        ensures
            moved == (!old(self).is_pinned() && old(self).path_of() != socket_path@),
            moved ==> final(self).path_of() == socket_path@ && final(self).epoch_of() == next_epoch(
                old(self).epoch_of(),
            ) && final(self).negotiated_of() is None && !final(self).has_hello(),
            !moved ==> *final(self) == *old(self),
            final(self).is_pinned() == old(self).is_pinned(),
            final(self).issued_count() == old(self).issued_count(),
    {
        if self.pinned || str_eq(self.socket_path.as_str(), socket_path) {
            return false;
        }
        self.socket_path = owned(socket_path);
        self.reset();
        true
    }

    /// The next request id: `fx-` and how many this client has issued,
    /// counting this one.
    pub fn next_request_id(&mut self) -> (id: String)
        ensures
            final(self).issued_count() == (if old(self).issued_count() == u64::MAX {
                u64::MAX
            } else {
                (old(self).issued_count() + 1) as u64
            }),
            id@ == "fx-"@ + decimal(final(self).issued_count() as nat),
            final(self).epoch_of() == old(self).epoch_of(),
            final(self).path_of() == old(self).path_of(),
            final(self).negotiated_of() == old(self).negotiated_of(),
    {
        let next = if self.counter == u64::MAX { u64::MAX } else { self.counter + 1 };
        self.counter = next;
        concat("fx-", decimal_string(next).as_str())
    }

    /// Take one `hello` answer, provided the two halves share a version: the
    /// highest both speak is what every later request carries.
    pub fn adopt(&mut self, hello: HelloResult, app: VersionRange) -> (r: Result<
        HelloResult,
        ManagementError,
    >)
        ensures
            match common_version(app, daemon_window(hello)) {
                Some(v) => r == Ok::<HelloResult, ManagementError>(hello)
                    && final(self).negotiated_of() == Some(v) && final(self).has_hello()
                    && same_hello(final(self).hello_of().unwrap(), hello),
                None => r == Err::<HelloResult, ManagementError>(
                    ManagementError::VersionsDoNotOverlap {
                        app: (app.min, app.max),
                        daemon: daemon_window(hello),
                    },
                ) && *final(self) == *old(self),
            },
            final(self).epoch_of() == old(self).epoch_of(),
            final(self).path_of() == old(self).path_of(),
            final(self).issued_count() == old(self).issued_count(),
    {
        let daemon = (hello.protocol.minimum_version, hello.protocol.maximum_version);
        match common(app, daemon) {
            Some(version) => {
                self.negotiated = Some(version);
                self.last_hello = Some(copy_hello(&hello));
                Ok(hello)
            },
            None => Err(
                ManagementError::VersionsDoNotOverlap { app: (app.min, app.max), daemon },
            ),
        }
    }

    /// `hello` was answered at this build's own maximum. Either the answer is
    /// adopted, or a daemon whose ceiling is lower is asked once more at the
    /// highest version both halves share, or the negotiation ends here.
    pub fn first_hello_landed(&mut self, answer: Result<HelloResult, ManagementError>) -> (r:
        NextHello)
        ensures
            match answer {
                Ok(hello) => r matches NextHello::Done(result) && result is Ok == common_version(
                    window(),
                    daemon_window(hello),
                ) is Some,
                Err(ManagementError::Wire(wire)) => if wire.code@ == "daemon_too_old"@ {
                    match version_window(wire) {
                        Some(daemon) => match common_version(window(), daemon) {
                            Some(v) => r == NextHello::RetryAt(v),
                            None => r == NextHello::Done(
                                Err(
                                    ManagementError::VersionsDoNotOverlap {
                                        app: (window().min, window().max),
                                        daemon,
                                    },
                                ),
                            ),
                        },
                        None => r matches NextHello::Done(Err(e)) && is_window_missing(e),
                    }
                } else if wire.code@ == "client_too_old"@ {
                    match version_window(wire) {
                        Some(daemon) => r == NextHello::Done(
                            Err(
                                ManagementError::VersionsDoNotOverlap {
                                    app: (window().min, window().max),
                                    daemon,
                                },
                            ),
                        ),
                        None => r matches NextHello::Done(Err(e)) && is_window_missing(e),
                    }
                } else {
                    r == NextHello::Done(Err(ManagementError::Wire(wire)))
                },
                Err(other) => r == NextHello::Done(Err(other)),
            },
            r is RetryAt ==> *final(self) == *old(self),
    {
        let app = contract::supported_range();
        match answer {
            Ok(hello) => NextHello::Done(self.adopt(hello, app)),
            Err(ManagementError::Wire(wire)) => {
                if str_eq(wire.code.as_str(), "daemon_too_old") {
                    match window_from(&wire) {
                        Ok(daemon) => match common(app, daemon) {
                            Some(version) => NextHello::RetryAt(version),
                            None => NextHello::Done(
                                Err(
                                    ManagementError::VersionsDoNotOverlap {
                                        app: (app.min, app.max),
                                        daemon,
                                    },
                                ),
                            ),
                        },
                        Err(error) => NextHello::Done(Err(error)),
                    }
                } else if str_eq(wire.code.as_str(), "client_too_old") {
                    match window_from(&wire) {
                        Ok(daemon) => NextHello::Done(
                            Err(
                                ManagementError::VersionsDoNotOverlap {
                                    app: (app.min, app.max),
                                    daemon,
                                },
                            ),
                        ),
                        Err(error) => NextHello::Done(Err(error)),
                    }
                } else {
                    NextHello::Done(Err(ManagementError::Wire(wire)))
                }
            },
            Err(other) => NextHello::Done(Err(other)),
        }
    }

    /// The one retry was answered. Two attempts, never more: the second
    /// either lands inside the daemon's window or the negotiation ends.
    pub fn retry_landed(&mut self, answer: Result<HelloResult, ManagementError>) -> (r: Result<
        HelloResult,
        ManagementError,
    >)
        ensures
            match answer {
                Ok(hello) => r is Ok == common_version(window(), daemon_window(hello)) is Some,
                Err(error) => r == Err::<HelloResult, ManagementError>(error) && *final(self) == *old(
                    self,
                ),
            },
    {
        match answer {
            Ok(hello) => self.adopt(hello, contract::supported_range()),
            Err(error) => Err(error),
        }
    }
}

/// What the negotiation asks for next.
#[derive(Debug)]
pub enum NextHello {
    /// It is over, one way or the other.
    Done(Result<HelloResult, ManagementError>),
    /// Ask `hello` once more, at this version.
    RetryAt(u32),
}

/// The window one `hello` answer publishes.
pub open spec fn daemon_window(hello: HelloResult) -> (u32, u32) {
    (hello.protocol.minimum_version, hello.protocol.maximum_version)
}

/// The highest version both halves speak, where they share one.
pub open spec fn common_version(app: VersionRange, daemon: (u32, u32)) -> Option<u32> {
    let common = if app.max <= daemon.1 {
        app.max
    } else {
        daemon.1
    };
    if common < app.min || common < daemon.0 {
        None
    } else {
        Some(common)
    }
}

fn common(app: VersionRange, daemon: (u32, u32)) -> (r: Option<u32>)
    ensures
        r == common_version(app, daemon),
{
    let common = if app.max <= daemon.1 { app.max } else { daemon.1 };
    if common < app.min || common < daemon.0 {
        None
    } else {
        Some(common)
    }
}

/// Whether both halves speak one version.
pub open spec fn speaks_both(app: VersionRange, daemon: (u32, u32), version: u32) -> bool {
    app.min <= version <= app.max && daemon.0 <= version <= daemon.1
}

/// The negotiated version is spoken by both halves, and no higher version is:
/// whatever the two windows are, a version they share is never passed over.
pub proof fn the_negotiated_version_is_the_highest_both_speak(app: VersionRange, daemon: (u32, u32))
    ensures
        match common_version(app, daemon) {
            Some(v) => speaks_both(app, daemon, v) && forall|w: u32|
                #[trigger] speaks_both(app, daemon, w) ==> w <= v,
            None => forall|w: u32| !#[trigger] speaks_both(app, daemon, w),
        },
{
}

/// The window a version refusal carries, where it carries both ends.
pub open spec fn version_window(wire: WireError) -> Option<(u32, u32)> {
    match (
        detail_at(wire.details@, "minimum_version"@),
        detail_at(wire.details@, "maximum_version"@),
    ) {
        (
            Some(Json::Number { unsigned: Some(lo), .. }),
            Some(Json::Number { unsigned: Some(hi), .. }),
        ) => if lo <= u32::MAX && hi <= u32::MAX {
            Some((lo as u32, hi as u32))
        } else {
            None
        },
        _ => None,
    }
}

/// Whether an error is the refusal of a version refusal that arrived without
/// its window.
pub open spec fn is_window_missing(error: ManagementError) -> bool {
    error matches ManagementError::Decode { method, reason } && method@ == "hello"@ && reason@
        == "a version refusal arrived without the window attached"@
}

/// The window a version refusal carries, so the app can say which half to
/// update without re-deriving it.
fn window_from(error: &WireError) -> (r: Result<(u32, u32), ManagementError>)
    ensures
        match version_window(*error) {
            Some(w) => r == Ok::<(u32, u32), ManagementError>(w),
            None => r matches Err(e) && is_window_missing(e),
        },
{
    match (error.detail_u32("minimum_version"), error.detail_u32("maximum_version")) {
        (Some(minimum), Some(maximum)) => Ok((minimum, maximum)),
        _ => Err(
            ManagementError::Decode {
                method: owned("hello"),
                reason: owned("a version refusal arrived without the window attached"),
            },
        ),
    }
}


/// The published minimum of a method the client is asked to call: refused
/// before anything is negotiated when the vendored contract does not publish
/// the method at all.
pub fn published_minimum(method: &str) -> (r: Result<u32, ManagementError>)
    ensures
        match minimum_in(method_table(), method@) {
            Some(m) => r == Ok::<u32, ManagementError>(m),
            None => r matches Err(ManagementError::MethodNotInContract { method: named })
                && named@ == method@,
        },
{
    match contract::method_minimum(method) {
        Some(m) => Ok(m),
        None => Err(ManagementError::MethodNotInContract { method: owned(method) }),
    }
}

/// Whether a call goes out at the negotiated version: a method whose published
/// minimum is above it is refused here rather than sent, so a daemon that
/// cannot serve a surface is said so rather than drawn as an empty pane.
pub fn may_send(method: &str, minimum: u32, negotiated: u32) -> (r: Result<(), ManagementError>)
    ensures
        minimum <= negotiated ==> r is Ok,
        minimum > negotiated ==> (r matches Err(
            ManagementError::MethodNeedsNewerDaemon { method: named, required, negotiated: n },
        ) && named@ == method@ && required == minimum && n == negotiated),
{
    if minimum > negotiated {
        Err(
            ManagementError::MethodNeedsNewerDaemon {
                method: owned(method),
                required: minimum,
                negotiated,
            },
        )
    } else {
        Ok(())
    }
}

/// Whether encoded parameters fit the published bound: above it the call is
/// refused here rather than sent and failed on the far side.
pub fn params_fit(method: &str, bytes: usize) -> (r: Result<(), ManagementError>)
    ensures
        bytes <= contract::published_limits().max_params_bytes ==> r is Ok,
        bytes > contract::published_limits().max_params_bytes ==> (r matches Err(
            ManagementError::RequestTooLarge { method: named, bytes: b, ceiling },
        ) && named@ == method@ && b == bytes && ceiling
            == contract::published_limits().max_params_bytes),
{
    let ceiling = contract::limits().max_params_bytes;
    if bytes > ceiling {
        Err(ManagementError::RequestTooLarge { method: owned(method), bytes, ceiling })
    } else {
        Ok(())
    }
}

/// What a call does next.
#[derive(Debug, Clone, Copy, PartialEq, Eq, Structural)]
pub enum CallStep {
    /// Nothing is negotiated yet: say `hello` first, then ask again.
    Negotiate,
    /// Send the call at this version.
    Send(u32),
}

/// What one call does next, in the order the client refuses: a method the
/// contract does not publish, before anything is negotiated; then the
/// negotiation itself; then a method whose minimum is above the negotiated
/// version; then parameters over the published bound.
pub open spec fn call_step_of(method: Seq<char>, negotiated: Option<u32>, params_bytes: usize, r: Result<
    CallStep,
    ManagementError,
>) -> bool {
    match minimum_in(method_table(), method) {
        None => r matches Err(ManagementError::MethodNotInContract { method: named }) && named@
            == method,
        Some(minimum) => match negotiated {
            None => r == Ok::<CallStep, ManagementError>(CallStep::Negotiate),
            Some(version) => if minimum > version {
                r matches Err(
                    ManagementError::MethodNeedsNewerDaemon { method: named, required, negotiated: n },
                ) && named@ == method && required == minimum && n == version
            } else if params_bytes > contract::published_limits().max_params_bytes {
                r matches Err(ManagementError::RequestTooLarge { method: named, bytes, ceiling })
                    && named@ == method && bytes == params_bytes && ceiling
                    == contract::published_limits().max_params_bytes
            } else {
                r == Ok::<CallStep, ManagementError>(CallStep::Send(version))
            },
        },
    }
}

/// What one call does next, given the version negotiated so far and the
/// size of its encoded parameters.
pub fn call_step(method: &str, negotiated: Option<u32>, params_bytes: usize) -> (r: Result<
    CallStep,
    ManagementError,
>)
    ensures
        call_step_of(method@, negotiated, params_bytes, r),
{
    let minimum = match published_minimum(method) {
        Ok(m) => m,
        Err(e) => {
            return Err(e);
        },
    };
    let version = match negotiated {
        Some(v) => v,
        None => {
            return Ok(CallStep::Negotiate);
        },
    };
    match may_send(method, minimum, version) {
        Ok(()) => {},
        Err(e) => {
            return Err(e);
        },
    }
    match params_fit(method, params_bytes) {
        Ok(()) => Ok(CallStep::Send(version)),
        Err(e) => Err(e),
    }
}

impl ManagementClient {
    /// What one call does next on this connection.
    pub fn next_step(&self, method: &str, params_bytes: usize) -> (r: Result<CallStep, ManagementError>)
        ensures
            call_step_of(method@, self.negotiated_of(), params_bytes, r),
    {
        call_step(method, self.negotiated, params_bytes)
    }
}

/// One response envelope, as the members the client reads out of it.
#[derive(Debug, Clone)]
pub struct Envelope {
    /// The request id the frame answers, where it carries one as text.
    pub request_id: Option<String>,
    /// The daemon's refusal, where the frame carries an `error` member.
    pub error: Option<WireError>,
    /// The result, where the frame carries a `result` member.
    pub result: Option<Json>,
}

/// What an envelope that carries neither half is refused with.
pub const NEITHER_HALF: &'static str = "the response carried neither a result nor an error";

/// What one envelope answers: the daemon's refusal where it carries one, the
/// result otherwise, and a decode failure where it carries neither.
pub open spec fn envelope_answers(method: Seq<char>, envelope: Envelope, r: Result<Json, ManagementError>) -> bool {
    match envelope.error {
        Some(w) => r == Err::<Json, ManagementError>(ManagementError::Wire(w)),
        None => match envelope.result {
            Some(j) => r == Ok::<Json, ManagementError>(j),
            None => r matches Err(ManagementError::Decode { method: m, reason })
                && m@ == method && reason@ == NEITHER_HALF@,
        },
    }
}

/// One response envelope, read: the result, or the daemon's own refusal.
pub fn decode_envelope(method: &str, envelope: Envelope) -> (r: Result<Json, ManagementError>)
    ensures
        envelope_answers(method@, envelope, r),
{
    match envelope.error {
        Some(w) => Err(ManagementError::Wire(w)),
        None => match envelope.result {
            Some(j) => Ok(j),
            None => Err(
                ManagementError::Decode { method: owned(method), reason: owned(NEITHER_HALF) },
            ),
        },
    }
}

/// What one answer frame is read as, against the request it should answer.
pub open spec fn response_decoded(
    request_id: Seq<char>,
    method: Seq<char>,
    parsed: Result<Envelope, String>,
    r: Result<Json, ManagementError>,
) -> bool {
    match parsed {
        Err(words) => r matches Err(ManagementError::Decode { method: m, reason }) && m@ == method
            && reason@ == words@,
        Ok(envelope) => match envelope.request_id {
            Some(id) => if id@ == request_id {
                envelope_answers(method, envelope, r)
            } else {
                r matches Err(ManagementError::NoAnswer { method: m }) && m@ == method
            },
            None => r matches Err(ManagementError::NoAnswer { method: m }) && m@ == method,
        },
    }
}

/// One answer frame, read against the request it should answer. A frame that
/// did not parse is a decode failure with the parser's own words; a frame
/// carrying any other request id is discarded, which is the protocol's own
/// rule; anything else is read as an envelope.
pub fn decode_parsed(request_id: &str, method: &str, parsed: Result<Envelope, String>) -> (r:
    Result<Json, ManagementError>)
    ensures
        response_decoded(request_id@, method@, parsed, r),
{
    match parsed {
        Err(words) => Err(ManagementError::Decode { method: owned(method), reason: words }),
        Ok(envelope) => {
            let answers = match &envelope.request_id {
                Some(id) => str_eq(id.as_str(), request_id),
                None => false,
            };
            if answers {
                decode_envelope(method, envelope)
            } else {
                Err(ManagementError::NoAnswer { method: owned(method) })
            }
        },
    }
}

/// The daemon's refusal, read from the members of its `error` object: a
/// missing code or message is empty, and the sentence is `details.sentence`
/// where that is text.
pub fn wire_error_of(code: Option<String>, message: Option<String>, details: Vec<(String, Json)>) -> (r:
    WireError)
    ensures
        r.code@ == match code {
            Some(c) => c@,
            None => Seq::<char>::empty(),
        },
        r.message@ == match message {
            Some(m) => m@,
            None => Seq::<char>::empty(),
        },
        r.details@ == details@,
        match detail_at(details@, "sentence"@) {
            Some(Json::Text(t)) => r.sentence matches Some(s) && s@ == t@,
            _ => r.sentence is None,
        },
{
    let sentence = match detail_in(&details, "sentence") {
        Some(Json::Text(t)) => Some(t.clone()),
        _ => None,
    };
    WireError {
        code: match code {
            Some(c) => c,
            None => String::new(),
        },
        message: match message {
            Some(m) => m,
            None => String::new(),
        },
        sentence,
        details,
    }
}


// ---------------------------------------------------------------------------
// Reading an answer frame
// ---------------------------------------------------------------------------

/// The members of an answer frame's `error` object the client reads: its code
/// and message where they are text, and the members of its `details` object,
/// each as compact JSON text.
pub struct ErrorRead {
    pub code: Option<String>,
    pub message: Option<String>,
    pub details: Vec<(String, String)>,
}

/// The members of one answer frame the client reads: the request id where it
/// is text, the `error` object, and the `result` as compact JSON text.
pub struct AnswerRead {
    pub request_id: Option<String>,
    pub error: Option<ErrorRead>,
    pub result: Option<String>,
}

/// What serde_json reads from one answer frame, or the parser's words.
pub uninterp spec fn answer_read(answer: Seq<u8>) -> Result<AnswerRead, String>;

/// `serde_json::from_slice` on one answer frame, and the members the client
/// reads out of it.
#[verifier::external_body]
fn read_answer(answer: &[u8]) -> (r: Result<AnswerRead, String>)
    ensures
        r == answer_read(answer@),
{
    let envelope: Value = match serde_json::from_slice(answer) {
        Ok(envelope) => envelope,
        Err(error) => return Err(error.to_string()),
    };
    let text = |v: &Value| v.as_str().map(str::to_string);
    let error = envelope.get("error").map(|e| ErrorRead {
        code: text(&e["code"]),
        message: text(&e["message"]),
        details: e["details"].as_object().map(|o| o.iter().map(|(k, m)| (k.clone(), m.to_string())).collect()).unwrap_or_default(),
    });
    Ok(AnswerRead { request_id: text(&envelope["request_id"]), error, result: envelope.get("result").map(Value::to_string) })
}

/// What one JSON value, written as text, reads as in the library's terms.
pub uninterp spec fn json_value(text: Seq<char>) -> Json;

/// `serde_json::from_str` on one value that serde_json itself wrote: scalars
/// as themselves, arrays and objects as their compact text. Text that does
/// not parse reads as null.
#[verifier::external_body]
fn json_of_text(text: &str) -> (r: Json)
    ensures
        r == json_value(text@),
{
    match serde_json::from_str::<Value>(text) {
        Err(_) | Ok(Value::Null) => Json::Null,
        Ok(Value::Bool(b)) => Json::Bool(b),
        Ok(Value::Number(n)) => Json::Number { unsigned: n.as_u64(), written: n.to_string() },
        Ok(Value::String(s)) => Json::Text(s),
        Ok(other) => Json::Nested(other.to_string()),
    }
}

/// A member that is text, or the empty text where it is missing.
pub open spec fn text_or_empty(s: Option<String>) -> Seq<char> {
    match s {
        Some(s) => s@,
        None => Seq::empty(),
    }
}

/// Whether a list of details is the one read: the same names, in order, each
/// with its value read.
pub open spec fn details_read(read: Seq<(String, String)>, details: Seq<(String, Json)>) -> bool {
    &&& details.len() == read.len()
    &&& forall|i: int|
        0 <= i < details.len() ==> (#[trigger] details[i]).0@ == read[i].0@ && details[i].1
            == json_value(read[i].1@)
}

/// Whether an envelope holds what one read of an answer frame carried.
pub open spec fn envelope_read(read: AnswerRead, envelope: Envelope) -> bool {
    &&& crate::management::vocabulary::opt_view(envelope.request_id)
        == crate::management::vocabulary::opt_view(read.request_id)
    &&& match read.error {
        None => envelope.error is None,
        Some(e) => envelope.error matches Some(w) && w.code@ == text_or_empty(e.code) && w.message@
            == text_or_empty(e.message) && details_read(e.details@, w.details@) && match detail_at(
            w.details@,
            "sentence"@,
        ) {
            Some(Json::Text(t)) => w.sentence matches Some(s) && s@ == t@,
            _ => w.sentence is None,
        },
    }
    &&& match read.result {
        None => envelope.result is None,
        Some(t) => envelope.result == Some(json_value(t@)),
    }
}

fn details_of(read: &Vec<(String, String)>) -> (details: Vec<(String, Json)>)
    ensures
        details_read(read@, details@),
{
    let mut details: Vec<(String, Json)> = Vec::new();
    let mut i: usize = 0;
    while i < read.len()
        invariant
            i <= read@.len(),
            details@.len() == i,
            forall|k: int|
                0 <= k < i ==> (#[trigger] details@[k]).0@ == read@[k].0@ && details@[k].1
                    == json_value(read@[k].1@),
        decreases read@.len() - i,
    {
        let name = read[i].0.clone();
        let value = json_of_text(read[i].1.as_str());
        details.push((name, value));
        i = i + 1;
    }
    details
}

fn envelope_of(read: AnswerRead) -> (envelope: Envelope)
    ensures
        envelope_read(read, envelope),
{
    let ghost whole = read;
    let AnswerRead { request_id, error, result } = read;
    let error = match error {
        None => None,
        Some(e) => {
            let details = details_of(&e.details);
            Some(wire_error_of(e.code, e.message, details))
        },
    };
    let result = match result {
        Some(t) => Some(json_of_text(t.as_str())),
        None => None,
    };
    let envelope = Envelope { request_id, error, result };
    assert(envelope_read(whole, envelope));
    envelope
}

/// One answer frame, as it came off the wire, read against the request it
/// should answer: a frame that does not parse is a decode failure with the
/// parser's own words, and anything else is read as [`decode_parsed`]
/// reads an envelope.
pub fn decode_response(request_id: &str, method: &str, answer: &[u8]) -> (r: Result<Json, ManagementError>)
    ensures
        match answer_read(answer@) {
            Err(words) => r matches Err(ManagementError::Decode { method: m, reason }) && m@
                == method@ && reason@ == words@,
            Ok(read) => exists|envelope: Envelope|
                #[trigger] envelope_read(read, envelope) && response_decoded(
                    request_id@,
                    method@,
                    Ok::<Envelope, String>(envelope),
                    r,
                ),
        },
{
    match read_answer(answer) {
        Err(words) => decode_parsed(request_id, method, Err(words)),
        Ok(read) => {
            let ghost whole = read;
            let envelope = envelope_of(read);
            let ghost e = envelope;
            let r = decode_parsed(request_id, method, Ok(envelope));
            assert(envelope_read(whole, e) && response_decoded(request_id@, method@, Ok::<Envelope, String>(e), r));
            r
        },
    }
}

} // verus!
