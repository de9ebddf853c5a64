use bt_magic::{BtMagic, RecvAction, RECV_BUFFER_LEN};

fn run(reads: &[i32]) -> (Vec<RecvAction>, usize) {
    let bt = BtMagic::new();
    let mut actions = Vec::new();
    let mut made = 0;
    for &r in reads {
        made += 1;
        let a = bt.recv(r);
        actions.push(a);
        if a == RecvAction::Close {
            break;
        }
    }
    (actions, made)
}

#[test]
fn one_report_then_close() {
    let (actions, made) = run(&[-1, -1, 5, 0]);
    assert_eq!(made, 4);
    assert_eq!(
        actions,
        vec![RecvAction::Retry, RecvAction::Retry, RecvAction::Report(5), RecvAction::Close]
    );
    let reports = actions.iter().filter(|a| matches!(a, RecvAction::Report(_))).count();
    assert_eq!(reports, 1);
}

#[test]
fn loop_stops_at_close() {
    let (actions, made) = run(&[7, 0, 9, -1]);
    assert_eq!(made, 2);
    assert_eq!(actions, vec![RecvAction::Report(7), RecvAction::Close]);
}

#[test]
fn report_is_bounded_by_buffer() {
    let bt = BtMagic::new();
    assert_eq!(RECV_BUFFER_LEN, 64);
    assert_eq!(bt.recv(64), RecvAction::Report(64));
    assert_eq!(bt.recv(1000), RecvAction::Report(64));
    assert_eq!(bt.recv(1), RecvAction::Report(1));
    assert_eq!(bt.recv(i32::MIN), RecvAction::Retry);
}
