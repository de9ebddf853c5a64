use vstd::prelude::*;

verus! {

/// Major version of the network subsystem that is requested.
pub const STACK_VERSION_MAJOR: u16 = 2;

/// Minor version of the network subsystem that is requested.
pub const STACK_VERSION_MINOR: u16 = 2;

/// The 16-bit identifier of the RFCOMM protocol in the Bluetooth base UUID.
pub const RFCOMM_UUID16: u32 = 0x0003;

/// A 128-bit service-class identifier.
#[derive(Clone, Copy, Debug, PartialEq, Eq)]
pub struct Guid {
    pub data1: u32,
    pub data2: u16,
    pub data3: u16,
    pub data4: [u8; 8],
}

/// The tail of the Bluetooth base UUID `xxxxxxxx-0000-1000-8000-00805F9B34FB`.
pub open spec fn base_uuid_tail() -> Seq<u8> {
    seq![0x80u8, 0x00u8, 0x00u8, 0x80u8, 0x5Fu8, 0x9Bu8, 0x34u8, 0xFBu8]
}

/// The base UUID with the 16-bit value in its first field and zero in the
/// next 16 bits.
pub open spec fn uuid16_guid(uuid16: u32) -> Guid {
    Guid { data1: uuid16, data2: 0, data3: 0x1000, data4: [0x80u8, 0x00u8, 0x00u8, 0x80u8, 0x5Fu8, 0x9Bu8, 0x34u8, 0xFBu8] }
}

/// The peer address handed to the connect call. The address family is the
/// Bluetooth one; the port is left for the stack to resolve.
#[derive(Clone, Copy, Debug, PartialEq, Eq)]
pub struct BtSocketAddress {
    pub service_class_id: Guid,
    pub port: u32,
    pub bt_addr: u64,
}

/// Why a session stopped, with the operating system's error code.
#[derive(Clone, Copy, Debug, PartialEq, Eq, Structural)]
pub enum SessionError {
    StackInitFailed(i32),
    SocketCreateFailed(i32),
    ConnectFailed(i32),
    NonBlockingSetFailed(i32),
}

/// Where a session stands; `action_for` gives the call each state asks for.
#[derive(Clone, Copy, Debug, PartialEq, Eq, Structural)]
pub enum SessionState {
    Uninitialized,
    StackReady,
    SocketOpen,
    Connected,
    NonBlocking,
    Receiving,
    /// The socket could not be created: the network subsystem is released
    /// before the error is reported.
    Releasing(SessionError),
    Closed,
    Errored(SessionError),
}

/// What the caller does next for a session.
#[derive(Clone, Copy, Debug, PartialEq, Eq)]
pub enum SessionAction {
    /// Initialise the network subsystem with this version word.
    StartStack(u16),
    /// Create an RFCOMM stream socket in the Bluetooth address family.
    CreateSocket,
    /// Release the network subsystem.
    CleanupStack,
    /// Connect the socket to this address, blocking.
    Connect(BtSocketAddress),
    /// Put the socket into non-blocking mode.
    SetNonBlocking,
    /// No call: the session enters its receive loop. Report `Ok`.
    StartReceiving,
    /// Run the receive loop until the peer closes, then report `Ok`.
    Receive,
    /// The peer closed the connection: nothing is left to do.
    Finish,
    /// Report the error and go on with the next device.
    Abort(SessionError),
}

/// The version word: low byte the major version, high byte the minor one.
pub open spec fn version_word(lo: u16, hi: u16) -> u16 {
    ((lo as int % 256) + 256 * (hi as int % 256)) as u16
}

/// The call that a session in state `s` asks for.
pub open spec fn action_for(s: SessionState, version: u16, addr: BtSocketAddress) -> SessionAction {
    match s {
        SessionState::Uninitialized => SessionAction::StartStack(version),
        SessionState::StackReady => SessionAction::CreateSocket,
        SessionState::SocketOpen => SessionAction::Connect(addr),
        SessionState::Connected => SessionAction::SetNonBlocking,
        SessionState::NonBlocking => SessionAction::StartReceiving,
        SessionState::Receiving => SessionAction::Receive,
        SessionState::Releasing(_) => SessionAction::CleanupStack,
        SessionState::Closed => SessionAction::Finish,
        SessionState::Errored(e) => SessionAction::Abort(e),
    }
}

/// The state after the call that `s` asked for came back with `result`.
pub open spec fn next_state(s: SessionState, result: Result<(), i32>) -> SessionState {
    match s {
        SessionState::Uninitialized => match result {
            Ok(()) => SessionState::StackReady,
            Err(c) => SessionState::Errored(SessionError::StackInitFailed(c)),
        },
        SessionState::StackReady => match result {
            Ok(()) => SessionState::SocketOpen,
            Err(c) => SessionState::Releasing(SessionError::SocketCreateFailed(c)),
        },
        SessionState::SocketOpen => match result {
            Ok(()) => SessionState::Connected,
            Err(c) => SessionState::Errored(SessionError::ConnectFailed(c)),
        },
        SessionState::Connected => match result {
            Ok(()) => SessionState::NonBlocking,
            Err(c) => SessionState::Errored(SessionError::NonBlockingSetFailed(c)),
        },
        SessionState::NonBlocking => SessionState::Receiving,
        SessionState::Receiving => SessionState::Closed,
        SessionState::Releasing(e) => SessionState::Errored(e),
        SessionState::Closed => SessionState::Closed,
        SessionState::Errored(e) => SessionState::Errored(e),
    }
}

/// The states a session passes through from `s` as the calls come back with
/// `results`, `s` first.
pub open spec fn trace(s: SessionState, results: Seq<Result<(), i32>>) -> Seq<SessionState>
    decreases results.len(),
{
    if results.len() == 0 {
        seq![s]
    } else {
        seq![s] + trace(next_state(s, results[0]), results.drop_first())
    }
}

/// The connection to one device, from the start of the network subsystem to
/// the end of its receive loop.
pub struct Session {
    state: SessionState,
    version: u16,
    address: BtSocketAddress,
}

impl Session {
    pub closed spec fn state_spec(&self) -> SessionState {
        self.state
    }

    pub closed spec fn version_spec(&self) -> u16 {
        self.version
    }

    pub closed spec fn address_spec(&self) -> BtSocketAddress {
        self.address
    }

    /// A session that has made no call yet: it will ask for the network
    /// subsystem in version word `version` and connect to `address`.
    pub fn new(version: u16, address: BtSocketAddress) -> (r: Session)
        ensures
            r.state_spec() == SessionState::Uninitialized,
            r.version_spec() == version,
            r.address_spec() == address,
    {
        Session { state: SessionState::Uninitialized, version, address }
    }

    /// The current state.
    pub fn state(&self) -> (r: SessionState)
        ensures
            r == self.state_spec(),
    {
        self.state
    }

    /// The peer address this session connects to.
    pub fn address(&self) -> (r: BtSocketAddress)
        ensures
            r == self.address_spec(),
    {
        self.address
    }

    /// The call the caller makes next.
    pub fn next_action(&self) -> (r: SessionAction)
        ensures
            r == action_for(self.state_spec(), self.version_spec(), self.address_spec()),
    {
        match self.state {
            SessionState::Uninitialized => SessionAction::StartStack(self.version),
            SessionState::StackReady => SessionAction::CreateSocket,
            SessionState::SocketOpen => SessionAction::Connect(self.address),
            SessionState::Connected => SessionAction::SetNonBlocking,
            SessionState::NonBlocking => SessionAction::StartReceiving,
            SessionState::Receiving => SessionAction::Receive,
            SessionState::Releasing(_) => SessionAction::CleanupStack,
            SessionState::Closed => SessionAction::Finish,
            SessionState::Errored(e) => SessionAction::Abort(e),
        }
    }

    /// Records how the call that `next_action` asked for came back.
    pub fn on_result(&mut self, result: Result<(), i32>)
        ensures
            final(self).state_spec() == next_state(old(self).state_spec(), result),
            final(self).version_spec() == old(self).version_spec(),
            final(self).address_spec() == old(self).address_spec(),
    {
        let next = match self.state {
            SessionState::Uninitialized => match result {
                Ok(()) => SessionState::StackReady,
                Err(c) => SessionState::Errored(SessionError::StackInitFailed(c)),
            },
            SessionState::StackReady => match result {
                Ok(()) => SessionState::SocketOpen,
                Err(c) => SessionState::Releasing(SessionError::SocketCreateFailed(c)),
            },
            SessionState::SocketOpen => match result {
                Ok(()) => SessionState::Connected,
                Err(c) => SessionState::Errored(SessionError::ConnectFailed(c)),
            },
            SessionState::Connected => match result {
                Ok(()) => SessionState::NonBlocking,
                Err(c) => SessionState::Errored(SessionError::NonBlockingSetFailed(c)),
            },
            SessionState::NonBlocking => SessionState::Receiving,
            SessionState::Receiving => SessionState::Closed,
            SessionState::Releasing(e) => SessionState::Errored(e),
            SessionState::Closed => SessionState::Closed,
            SessionState::Errored(e) => SessionState::Errored(e),
        };
        self.state = next;
    }
}

proof fn lemma_trace_unfold(s: SessionState, r: Result<(), i32>, rest: Seq<Result<(), i32>>)
    ensures
        trace(s, seq![r] + rest) == seq![s] + trace(next_state(s, r), rest),
{
    let rs = seq![r] + rest;
    assert(rs[0] == r);
    assert(rs.drop_first() =~= rest);
}

/// The length of a trace: one state more than there are results.
pub proof fn lemma_trace_len(s: SessionState, results: Seq<Result<(), i32>>)
    ensures
        trace(s, results).len() == results.len() + 1,
        trace(s, results)[0] == s,
    decreases results.len(),
{
    if results.len() > 0 {
        lemma_trace_len(next_state(s, results[0]), results.drop_first());
    }
}

/// A failed session stays failed with the same error, whatever the calls
/// return afterwards.
pub proof fn lemma_errored_absorbing(e: SessionError, results: Seq<Result<(), i32>>)
    ensures
        trace(SessionState::Errored(e), results).len() == results.len() + 1,
        forall|i: int|
            0 <= i < trace(SessionState::Errored(e), results).len() ==> trace(
                SessionState::Errored(e),
                results,
            )[i] == SessionState::Errored(e),
    decreases results.len(),
{
    lemma_trace_len(SessionState::Errored(e), results);
    if results.len() > 0 {
        lemma_errored_absorbing(e, results.drop_first());
        let t = trace(SessionState::Errored(e), results);
        let rest = trace(SessionState::Errored(e), results.drop_first());
        assert forall|i: int| 0 <= i < t.len() implies t[i] == SessionState::Errored(e) by {
            if i > 0 {
                assert(t[i] == rest[i - 1]);
            }
        }
    }
}

/// After a failed call the session keeps the error that `next_state` gave it
/// in every later state.
proof fn lemma_fails_for_good(
    s: SessionState,
    c: i32,
    results: Seq<Result<(), i32>>,
    e: SessionError,
)
    requires
        next_state(s, Err(c)) == SessionState::Errored(e),
    ensures
        trace(s, seq![Err(c)] + results).len() == results.len() + 2,
        forall|i: int|
            1 <= i < trace(s, seq![Err(c)] + results).len() ==> trace(s, seq![Err(c)] + results)[i]
                == SessionState::Errored(e),
{
    lemma_trace_unfold(s, Err(c), results);
    lemma_errored_absorbing(e, results);
    let t = trace(s, seq![Err(c)] + results);
    assert forall|i: int| 1 <= i < t.len() implies t[i] == SessionState::Errored(e) by {
        assert(t[i] == trace(SessionState::Errored(e), results)[i - 1]);
    }
}

/// When the network subsystem fails to start, no socket is ever asked for:
/// every later step reports that error.
pub proof fn lemma_stack_failure_creates_no_socket(
    c: i32,
    results: Seq<Result<(), i32>>,
    version: u16,
    addr: BtSocketAddress,
)
    ensures
        ({
            let t = trace(SessionState::Uninitialized, seq![Err(c)] + results);
            &&& t.len() == results.len() + 2
            &&& forall|i: int|
                1 <= i < t.len() ==> t[i] == SessionState::Errored(SessionError::StackInitFailed(c))
            &&& forall|i: int|
                1 <= i < t.len() ==> action_for(t[i], version, addr) == SessionAction::Abort(
                    SessionError::StackInitFailed(c),
                )
        }),
{
    lemma_fails_for_good(
        SessionState::Uninitialized,
        c,
        results,
        SessionError::StackInitFailed(c),
    );
}

/// When the socket cannot be created, the network subsystem is released by
/// exactly one call, right after the failure, and the error is reported from
/// then on.
pub proof fn lemma_socket_failure_cleans_up_once(
    c: i32,
    results: Seq<Result<(), i32>>,
    version: u16,
    addr: BtSocketAddress,
)
    ensures
        ({
            let t = trace(SessionState::StackReady, seq![Err(c)] + results);
            &&& t.len() == results.len() + 2
            &&& forall|i: int|
                0 <= i < t.len() ==> (action_for(t[i], version, addr) == SessionAction::CleanupStack <==> i
                    == 1)
            &&& forall|i: int|
                2 <= i < t.len() ==> t[i] == SessionState::Errored(
                    SessionError::SocketCreateFailed(c),
                )
        }),
{
    let e = SessionError::SocketCreateFailed(c);
    lemma_trace_unfold(SessionState::StackReady, Err(c), results);
    let t = trace(SessionState::StackReady, seq![Err(c)] + results);
    lemma_trace_len(SessionState::Releasing(e), results);
    if results.len() > 0 {
        let r = results[0];
        let rest = results.drop_first();
        assert(results =~= seq![r] + rest);
        lemma_trace_unfold(SessionState::Releasing(e), r, rest);
        lemma_errored_absorbing(e, rest);
        assert forall|i: int| 2 <= i < t.len() implies t[i] == SessionState::Errored(e) by {
            assert(t[i] == trace(SessionState::Errored(e), rest)[i - 2]);
        }
    }
    assert(t[0] == SessionState::StackReady);
    assert(t[1] == SessionState::Releasing(e));
}

/// A failed connect never leads to non-blocking mode or to receiving.
pub proof fn lemma_connect_failure_never_receives(c: i32, results: Seq<Result<(), i32>>)
    ensures
        ({
            let t = trace(SessionState::SocketOpen, seq![Err(c)] + results);
            &&& t.len() == results.len() + 2
            &&& forall|i: int|
                1 <= i < t.len() ==> t[i] == SessionState::Errored(SessionError::ConnectFailed(c))
            &&& forall|i: int|
                0 <= i < t.len() ==> !(t[i] is NonBlocking) && !(t[i] is Receiving)
        }),
{
    lemma_fails_for_good(SessionState::SocketOpen, c, results, SessionError::ConnectFailed(c));
    lemma_trace_len(SessionState::SocketOpen, seq![Err(c)] + results);
}

/// When non-blocking mode cannot be set after a connect, the session ends in
/// that error and never enters the receive loop.
pub proof fn lemma_nonblocking_failure_never_receives(
    c: i32,
    results: Seq<Result<(), i32>>,
    version: u16,
    addr: BtSocketAddress,
)
    ensures
        ({
            let t = trace(SessionState::Connected, seq![Err(c)] + results);
            &&& t.len() == results.len() + 2
            &&& t.last() == SessionState::Errored(SessionError::NonBlockingSetFailed(c))
            &&& forall|i: int|
                0 <= i < t.len() ==> !(t[i] is NonBlocking) && !(t[i] is Receiving)
            &&& forall|i: int|
                0 <= i < t.len() ==> action_for(t[i], version, addr) != SessionAction::Receive
        }),
{
    lemma_fails_for_good(
        SessionState::Connected,
        c,
        results,
        SessionError::NonBlockingSetFailed(c),
    );
    lemma_trace_len(SessionState::Connected, seq![Err(c)] + results);
}

} // verus!
