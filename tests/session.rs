use bt_magic::{
    BtMagic, DeviceData, DeviceInfo, Guid, Session, SessionAction, SessionError, SessionState,
};

fn session() -> Session {
    let info = DeviceInfo {
        name: "speaker".to_string(),
        address: [0x5E, 0x4D, 0x3C, 0x2B, 0x1A, 0x00],
        connected: true,
    };
    BtMagic::new().connect(&DeviceData::from_device(&info))
}

#[test]
fn makeword_packs_bytes() {
    let bt = BtMagic::new();
    assert_eq!(bt.makeword(2, 2), 0x0202);
    assert_eq!(bt.makeword(0x1234, 0x0056), 0x5634);
    assert_eq!(bt.makeword(1, 0), 0x0001);
}

#[test]
fn uuid16_expands_base_uuid() {
    let g = BtMagic::new().uuid16_to_guid(3);
    assert_eq!(
        g,
        Guid { data1: 3, data2: 0, data3: 0x1000, data4: [0x80, 0, 0, 0x80, 0x5F, 0x9B, 0x34, 0xFB] }
    );
}

#[test]
fn connect_builds_address() {
    let s = session();
    assert_eq!(s.state(), SessionState::Uninitialized);
    let a = s.address();
    assert_eq!(a.port, 0);
    assert_eq!(a.bt_addr, 0x001A_2B3C_4D5E);
    assert_eq!(a.service_class_id.data1, 3);
    assert_eq!(s.next_action(), SessionAction::StartStack(0x0202));
}

#[test]
fn full_session_reaches_closed() {
    let mut s = session();
    let addr = s.address();
    let expected = [
        SessionAction::StartStack(0x0202),
        SessionAction::CreateSocket,
        SessionAction::Connect(addr),
        SessionAction::SetNonBlocking,
        SessionAction::StartReceiving,
        SessionAction::Receive,
    ];
    for a in expected {
        assert_eq!(s.next_action(), a);
        s.on_result(Ok(()));
    }
    assert_eq!(s.state(), SessionState::Closed);
    assert_eq!(s.next_action(), SessionAction::Finish);
}

#[test]
fn stack_failure_creates_no_socket() {
    let mut s = session();
    s.on_result(Err(10091));
    let e = SessionError::StackInitFailed(10091);
    assert_eq!(s.state(), SessionState::Errored(e));
    for _ in 0..3 {
        assert_eq!(s.next_action(), SessionAction::Abort(e));
        s.on_result(Ok(()));
    }
    assert_eq!(s.state(), SessionState::Errored(e));
}

#[test]
fn socket_failure_cleans_up_once() {
    let mut s = session();
    s.on_result(Ok(()));
    s.on_result(Err(10047));
    let mut cleanups = 0;
    for _ in 0..4 {
        if s.next_action() == SessionAction::CleanupStack {
            cleanups += 1;
        }
        s.on_result(Ok(()));
    }
    assert_eq!(cleanups, 1);
    assert_eq!(s.state(), SessionState::Errored(SessionError::SocketCreateFailed(10047)));
}

#[test]
fn connect_failure_never_receives() {
    let mut s = session();
    s.on_result(Ok(()));
    s.on_result(Ok(()));
    s.on_result(Err(10060));
    for _ in 0..3 {
        assert_ne!(s.state(), SessionState::NonBlocking);
        assert_ne!(s.state(), SessionState::Receiving);
        s.on_result(Ok(()));
    }
    assert_eq!(s.next_action(), SessionAction::Abort(SessionError::ConnectFailed(10060)));
}

#[test]
fn nonblocking_failure_ends_errored() {
    let mut s = session();
    for _ in 0..3 {
        s.on_result(Ok(()));
    }
    assert_eq!(s.state(), SessionState::Connected);
    s.on_result(Err(10038));
    assert_eq!(s.state(), SessionState::Errored(SessionError::NonBlockingSetFailed(10038)));
    assert_ne!(s.next_action(), SessionAction::Receive);
}
