//! The decisions behind an outbound stream connection.
//!
//! A `Connector` is built from a request and then driven by the runtime: each
//! call hands back one `Action` to perform, and the runtime reports how that
//! action went as an `Event`. Without a source address the runtime's own
//! non-blocking connect is used. With one, a raw socket of the source
//! address's family is created, bound to that address with port 0, connected,
//! and only then adopted by the runtime. Either way the coalescing delay
//! (Nagle's algorithm) is switched off before the stream is delivered, and a
//! failure after a handle has been opened closes that handle before the error
//! is returned.
use vstd::prelude::*;

use crate::addr::{family_of, source_endpoint, AddressFamily, Endpoint, IpAddress};

verus! {

/// What went wrong in an operating-system call, by category.
#[derive(Clone, Copy, Debug, PartialEq, Eq, Structural)]
pub enum FailureKind {
    ConnectionRefused,
    ConnectionReset,
    ConnectionAborted,
    AddrInUse,
    AddrNotAvailable,
    InvalidInput,
    PermissionDenied,
    TimedOut,
    Unsupported,
    Other,
}

/// Why a connection could not be set up.
#[derive(Clone, Copy, Debug, PartialEq, Eq, Structural)]
pub enum ConnectError {
    /// An operating-system call failed; its kind is passed on unchanged.
    Os(FailureKind),
    /// The requested source address and the remote address are of different
    /// families, so no socket can both be bound to one and reach the other.
    FamilyMismatch { local: AddressFamily, remote: AddressFamily },
}

/// Which way a connection is set up.
#[derive(Clone, Copy, Debug, PartialEq, Eq, Structural)]
pub enum ConnectPath {
    /// The runtime's own non-blocking connect.
    Native,
    /// Bind-before-connect on a raw socket, run on a blocking worker.
    SourceBound,
}

/// A remote endpoint, and optionally the local address to connect from.
/// The local port is never chosen by the caller.
#[derive(Clone, Copy, Debug, PartialEq, Eq, Structural)]
pub struct ConnectRequest {
    pub target: Endpoint,
    pub local: Option<IpAddress>,
}

/// The path a request takes: source-bound exactly when a local address is given.
pub open spec fn path_of(request: ConnectRequest) -> ConnectPath {
    match request.local {
        Some(_) => ConnectPath::SourceBound,
        None => ConnectPath::Native,
    }
}

impl ConnectRequest {
    pub fn new(target: Endpoint, local: Option<IpAddress>) -> (r: ConnectRequest)
        ensures
            r.target == target,
            r.local == local,
    {
        ConnectRequest { target, local }
    }

    pub fn path(&self) -> (r: ConnectPath)
        ensures
            r == path_of(*self),
    {
        match self.local {
            Some(_) => ConnectPath::SourceBound,
            None => ConnectPath::Native,
        }
    }
}

/// Where a connection attempt stands.
#[derive(Clone, Copy, Debug, PartialEq, Eq, Structural)]
pub enum Phase {
    /// The runtime's non-blocking connect is in flight.
    Connecting,
    /// A raw socket is being created.
    Creating,
    /// A raw socket is open and being bound to the source address.
    Binding,
    /// The bound raw socket is connecting to the target.
    Dialing,
    /// The connected raw socket is being handed to the runtime's stream type.
    Adopting,
    /// A connected stream is open; the coalescing delay is being switched off.
    DisablingDelay,
    /// A step failed while a handle was open; the handle is being closed.
    Closing(ConnectError),
    /// The stream has been handed to the caller.
    Established,
    /// The attempt ended with an error and no handle is open.
    Failed(ConnectError),
}

/// How the last action went.
#[derive(Clone, Copy, Debug, PartialEq, Eq, Structural)]
pub enum Event {
    Completed,
    Failed(FailureKind),
}

/// What the runtime is to do next.
#[derive(Clone, Copy, Debug, PartialEq, Eq, Structural)]
pub enum Action {
    /// Connect to the endpoint with the runtime's non-blocking connect.
    ConnectNative(Endpoint),
    /// Create a raw TCP stream socket of the family.
    CreateSocket(AddressFamily),
    /// Bind the raw socket to the endpoint.
    Bind(Endpoint),
    /// Connect the raw socket to the endpoint, blocking until it is done.
    Dial(Endpoint),
    /// Turn the connected raw socket into the runtime's non-blocking stream.
    Adopt,
    /// Switch the coalescing delay off on the stream.
    DisableDelay,
    /// Close the handle that is open.
    CloseHandle,
    /// Hand the stream to the caller.
    Deliver,
    /// Return the error to the caller.
    Fail(ConnectError),
}

impl Phase {
    /// Whether an attempt in this phase owns an open socket handle.
    pub open spec fn holds_handle(self) -> bool {
        match self {
            Phase::Binding | Phase::Dialing | Phase::Adopting | Phase::DisablingDelay
            | Phase::Closing(_) => true,
            _ => false,
        }
    }

    /// Whether the attempt is over.
    pub open spec fn is_terminal(self) -> bool {
        self is Established || self is Failed
    }
}

impl Action {
    /// The steps of the source-bound path that may block for a whole
    /// handshake, and so must run off the cooperative scheduler.
    pub open spec fn spec_needs_blocking_worker(&self) -> bool {
        *self is CreateSocket || *self is Bind || *self is Dial
    }

    #[verifier::when_used_as_spec(spec_needs_blocking_worker)]
    pub fn needs_blocking_worker(&self) -> (r: bool)
        ensures
            r == self.spec_needs_blocking_worker(),
    {
        match self {
            Action::CreateSocket(_) | Action::Bind(_) | Action::Dial(_) => true,
            _ => false,
        }
    }
}

/// Which phases a request can be in: the raw-socket phases only on the
/// source-bound path with matching families, the runtime's connect only on
/// the native path.
pub open spec fn consistent(request: ConnectRequest, phase: Phase) -> bool {
    match phase {
        Phase::Connecting => request.local is None,
        Phase::Creating | Phase::Binding | Phase::Dialing | Phase::Adopting => {
            &&& request.local is Some
            &&& family_of(request.local.unwrap()) == family_of(request.target.ip)
        },
        _ => true,
    }
}

/// The first phase and action for a request.
pub open spec fn first_move(request: ConnectRequest) -> (Phase, Action) {
    match request.local {
        None => (Phase::Connecting, Action::ConnectNative(request.target)),
        Some(ip) => if family_of(ip) == family_of(request.target.ip) {
            (Phase::Creating, Action::CreateSocket(family_of(ip)))
        } else {
            let e = ConnectError::FamilyMismatch {
                local: family_of(ip),
                remote: family_of(request.target.ip),
            };
            (Phase::Failed(e), Action::Fail(e))
        },
    }
}

/// The next phase and action once the action of `phase` ended with `event`.
pub open spec fn next_move(request: ConnectRequest, phase: Phase, event: Event) -> (Phase, Action) {
    match event {
        Event::Completed => match phase {
            Phase::Connecting => (Phase::DisablingDelay, Action::DisableDelay),
            Phase::Creating => (Phase::Binding, Action::Bind(source_endpoint(request.local.unwrap()))),
            Phase::Binding => (Phase::Dialing, Action::Dial(request.target)),
            Phase::Dialing => (Phase::Adopting, Action::Adopt),
            Phase::Adopting => (Phase::DisablingDelay, Action::DisableDelay),
            Phase::DisablingDelay => (Phase::Established, Action::Deliver),
            Phase::Closing(e) => (Phase::Failed(e), Action::Fail(e)),
            Phase::Established => (Phase::Established, Action::Deliver),
            Phase::Failed(e) => (Phase::Failed(e), Action::Fail(e)),
        },
        Event::Failed(k) => match phase {
            Phase::Connecting | Phase::Creating => (
                Phase::Failed(ConnectError::Os(k)),
                Action::Fail(ConnectError::Os(k)),
            ),
            Phase::Binding | Phase::Dialing | Phase::Adopting | Phase::DisablingDelay => (
                Phase::Closing(ConnectError::Os(k)),
                Action::CloseHandle,
            ),
            Phase::Closing(e) => (Phase::Failed(e), Action::Fail(e)),
            Phase::Established => (Phase::Established, Action::Deliver),
            Phase::Failed(e) => (Phase::Failed(e), Action::Fail(e)),
        },
    }
}

/// The abstract state of a `Connector`.
pub struct ConnectorModel {
    pub request: ConnectRequest,
    pub phase: Phase,
}

/// One connection attempt, from request to delivered stream or error.
pub struct Connector {
    request: ConnectRequest,
    phase: Phase,
}

impl View for Connector {
    type V = ConnectorModel;

    closed spec fn view(&self) -> ConnectorModel {
        ConnectorModel { request: self.request, phase: self.phase }
    }
}

impl Connector {
    #[verifier::type_invariant]
    spec fn inv(self) -> bool {
        consistent(self.request, self.phase)
    }

    /// Starts an attempt: returns the connector and the first action.
    pub fn start(request: ConnectRequest) -> (r: (Connector, Action))
        ensures
            r.0@.request == request,
            (r.0@.phase, r.1) == first_move(request),
            consistent(r.0@.request, r.0@.phase),
    {
        match request.local {
            None => (
                Connector { request, phase: Phase::Connecting },
                Action::ConnectNative(request.target),
            ),
            Some(ip) => {
                let local = ip.family();
                let remote = request.target.family();
                if local == remote {
                    (Connector { request, phase: Phase::Creating }, Action::CreateSocket(local))
                } else {
                    let e = ConnectError::FamilyMismatch { local, remote };
                    (Connector { request, phase: Phase::Failed(e) }, Action::Fail(e))
                }
            },
        }
    }

    /// Records how the last action went and returns the next one.
    pub fn step(&mut self, event: Event) -> (a: Action)
        requires
            !old(self)@.phase.is_terminal(),
        ensures
            final(self)@.request == old(self)@.request,
            (final(self)@.phase, a) == next_move(old(self)@.request, old(self)@.phase, event),
            consistent(old(self)@.request, old(self)@.phase),
            consistent(final(self)@.request, final(self)@.phase),
    {
        proof {
            use_type_invariant(&*self);
        }
        let request = self.request;
        let (phase, action) = match event {
            Event::Completed => match self.phase {
                Phase::Connecting => (Phase::DisablingDelay, Action::DisableDelay),
                Phase::Creating => (
                    Phase::Binding,
                    Action::Bind(Endpoint::ephemeral(request.local.unwrap())),
                ),
                Phase::Binding => (Phase::Dialing, Action::Dial(request.target)),
                Phase::Dialing => (Phase::Adopting, Action::Adopt),
                Phase::Adopting => (Phase::DisablingDelay, Action::DisableDelay),
                Phase::DisablingDelay => (Phase::Established, Action::Deliver),
                Phase::Closing(e) => (Phase::Failed(e), Action::Fail(e)),
                Phase::Established => (Phase::Established, Action::Deliver),
                Phase::Failed(e) => (Phase::Failed(e), Action::Fail(e)),
            },
            Event::Failed(k) => match self.phase {
                Phase::Connecting | Phase::Creating => (
                    Phase::Failed(ConnectError::Os(k)),
                    Action::Fail(ConnectError::Os(k)),
                ),
                Phase::Binding | Phase::Dialing | Phase::Adopting | Phase::DisablingDelay => (
                    Phase::Closing(ConnectError::Os(k)),
                    Action::CloseHandle,
                ),
                Phase::Closing(e) => (Phase::Failed(e), Action::Fail(e)),
                Phase::Established => (Phase::Established, Action::Deliver),
                Phase::Failed(e) => (Phase::Failed(e), Action::Fail(e)),
            },
        };
        *self = Connector { request, phase };
        action
    }

    pub fn request(&self) -> (r: ConnectRequest)
        ensures
            r == self@.request,
    {
        self.request
    }

    pub fn phase(&self) -> (r: Phase)
        ensures
            r == self@.phase,
            consistent(self@.request, self@.phase),
    {
        proof {
            use_type_invariant(self);
        }
        self.phase
    }

    /// Whether the attempt is over.
    pub fn is_finished(&self) -> (r: bool)
        ensures
            r == self@.phase.is_terminal(),
    {
        match self.phase {
            Phase::Established | Phase::Failed(_) => true,
            _ => false,
        }
    }
}

/// The phase reached, and every action issued, when `events` are reported in
/// order from the start of an attempt; events after the attempt is over are
/// ignored.
pub open spec fn run(request: ConnectRequest, events: Seq<Event>) -> (Phase, Seq<Action>)
    decreases events.len(),
{
    if events.len() == 0 {
        (first_move(request).0, seq![first_move(request).1])
    } else {
        let (phase, actions) = run(request, events.drop_last());
        if phase.is_terminal() {
            (phase, actions)
        } else {
            let (next, action) = next_move(request, phase, events.last());
            (next, actions.push(action))
        }
    }
}

/// Over any sequence of events: the attempt stays in a phase its request
/// allows, and when it has delivered a stream, the action just before
/// `Deliver` was `DisableDelay`.
pub proof fn lemma_run_disables_delay_before_delivery(request: ConnectRequest, events: Seq<Event>)
    ensures
        consistent(request, run(request, events).0),
        run(request, events).1.len() >= 1,
        run(request, events).0 is DisablingDelay ==> run(request, events).1.last() is DisableDelay,
        run(request, events).0 is Established ==> {
            let actions = run(request, events).1;
            &&& actions.len() >= 2
            &&& actions.last() is Deliver
            &&& actions[actions.len() - 2] is DisableDelay
        },
    decreases events.len(),
{
    if events.len() > 0 {
        lemma_run_disables_delay_before_delivery(request, events.drop_last());
    }
}

/// Whether `actions` include one that is only issued once a handle is open:
/// `Bind` follows a created socket, `DisableDelay` a connected stream.
pub open spec fn opens_handle(actions: Seq<Action>) -> bool
    decreases actions.len(),
{
    if actions.len() == 0 {
        false
    } else {
        opens_handle(actions.drop_last()) || actions.last() is Bind || actions.last() is DisableDelay
    }
}

/// Over any sequence of events: a handle is held exactly while one has been
/// opened and the attempt is not over, and an attempt that fails after a
/// handle was opened issued `CloseHandle` just before returning the error.
pub proof fn lemma_run_releases_handle(request: ConnectRequest, events: Seq<Event>)
    ensures
        !run(request, events).0.is_terminal() ==> (
            run(request, events).0.holds_handle() <==> opens_handle(run(request, events).1)),
        run(request, events).0 is Closing ==> run(request, events).1.last() is CloseHandle,
        run(request, events).0 is Failed ==> {
            let actions = run(request, events).1;
            &&& actions.last() is Fail
            &&& opens_handle(actions) ==> actions.len() >= 2 && actions[actions.len() - 2] is CloseHandle
        },
    decreases events.len(),
{
    lemma_run_disables_delay_before_delivery(request, events);
    if events.len() > 0 {
        let prev = events.drop_last();
        lemma_run_releases_handle(request, prev);
        lemma_run_disables_delay_before_delivery(request, prev);
        let (phase, actions) = run(request, prev);
        if !phase.is_terminal() {
            let action = next_move(request, phase, events.last()).1;
            let after = actions.push(action);
            assert(after.drop_last() =~= actions);
            assert(opens_handle(after) == (opens_handle(actions) || action is Bind
                || action is DisableDelay));
            assert(after[after.len() - 2] == actions.last());
        }
    } else {
        let first = seq![first_move(request).1];
        assert(first.drop_last() =~= Seq::<Action>::empty());
        assert(!opens_handle(Seq::<Action>::empty()));
        assert(opens_handle(first) == (first[0] is Bind || first[0] is DisableDelay));
    }
}

/// The coalescing delay is switched off before any stream is delivered: the
/// only step that delivers is a successful `DisableDelay`, and every step into
/// the phase that awaits it issues `DisableDelay`.
pub proof fn lemma_delay_disabled_before_delivery(request: ConnectRequest, phase: Phase, event: Event)
    requires
        consistent(request, phase),
        !phase.is_terminal(),
    ensures
        next_move(request, phase, event).1 is Deliver ==> phase is DisablingDelay && event is Completed,
        next_move(request, phase, event).0 is Established ==> next_move(request, phase, event).1 is Deliver,
        next_move(request, phase, event).0 is DisablingDelay && !(phase is DisablingDelay)
            ==> next_move(request, phase, event).1 is DisableDelay,
        first_move(request).1 !is Deliver,
{
}

/// A source-bound attempt binds its socket to exactly the requested local
/// address with port 0, and creates that socket in the address's family.
pub proof fn lemma_source_bind_pins_address(request: ConnectRequest, phase: Phase, event: Event)
    requires
        consistent(request, phase),
        !phase.is_terminal(),
    ensures
        next_move(request, phase, event).1 matches Action::Bind(ep)
            ==> request.local == Some(ep.ip) && ep.port == 0 && ep == source_endpoint(ep.ip),
        first_move(request).1 matches Action::CreateSocket(f)
            ==> request.local is Some && f == family_of(request.local.unwrap()),
        first_move(request).1 matches Action::ConnectNative(ep) ==> request.local is None && ep == request.target,
{
}

/// No exit leaks a handle: a failure while a handle is open leads to
/// `CloseHandle`, an attempt that is closing a handle ends in failure next,
/// and an attempt only fails outright from a phase that holds no handle.
pub proof fn lemma_failure_releases_handle(request: ConnectRequest, phase: Phase, event: Event)
    requires
        consistent(request, phase),
        !phase.is_terminal(),
    ensures
        phase.holds_handle() && !(phase is Closing) && event is Failed ==> {
            &&& next_move(request, phase, event).0 is Closing
            &&& next_move(request, phase, event).1 is CloseHandle
        },
        phase is Closing ==> next_move(request, phase, event).0 is Failed,
        next_move(request, phase, event).0 is Failed ==> !phase.holds_handle() || phase is Closing,
        !first_move(request).0.holds_handle(),
{
}

/// Errors reach the caller unchanged: an operating-system failure of kind `k`
/// ends the attempt with `Os(k)`, whether or not a handle had to be closed
/// first; on the native path a refused connect is reported at once as such.
pub proof fn lemma_failure_surfaced_unchanged(request: ConnectRequest, phase: Phase, k: FailureKind)
    requires
        consistent(request, phase),
        !phase.is_terminal(),
        !(phase is Closing),
    ensures
        next_move(request, phase, Event::Failed(k)).0 == Phase::Failed(ConnectError::Os(k))
            || next_move(request, phase, Event::Failed(k)).0 == Phase::Closing(ConnectError::Os(k)),
        next_move(request, phase, Event::Failed(k)).0 matches Phase::Closing(e)
            ==> next_move(request, Phase::Closing(e), Event::Completed)
                == (Phase::Failed(e), Action::Fail(e)),
        phase is Connecting ==> next_move(request, phase, Event::Failed(k)) == (
            Phase::Failed(ConnectError::Os(k)),
            Action::Fail(ConnectError::Os(k)),
        ),
{
}

/// A source address of another family than the target is refused before any
/// socket is created.
pub proof fn lemma_family_mismatch_refused(request: ConnectRequest)
    requires
        request.local is Some,
        family_of(request.local.unwrap()) != family_of(request.target.ip),
    ensures
        first_move(request) == (
            Phase::Failed(ConnectError::FamilyMismatch {
                local: family_of(request.local.unwrap()),
                remote: family_of(request.target.ip),
            }),
            Action::Fail(ConnectError::FamilyMismatch {
                local: family_of(request.local.unwrap()),
                remote: family_of(request.target.ip),
            }),
        ),
        first_move(request).0.is_terminal(),
        !first_move(request).0.holds_handle(),
{
}

} // verus!
