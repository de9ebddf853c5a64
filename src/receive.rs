use vstd::prelude::*;

verus! {

/// Size of the buffer each read fills.
pub const RECV_BUFFER_LEN: usize = 64;

/// What to do with the result of one read on a non-blocking socket.
#[derive(Clone, Copy, Debug, PartialEq, Eq, Structural)]
pub enum RecvAction {
    /// Nothing was there yet: read again.
    Retry,
    /// This many bytes at the start of the buffer were received: report them.
    Report(usize),
    /// The peer closed the connection: leave the loop.
    Close,
}

/// The action for a read that returned `result`.
pub open spec fn recv_action(result: i32) -> RecvAction {
    if result < 0 {
        RecvAction::Retry
    } else if result == 0 {
        RecvAction::Close
    } else if result > RECV_BUFFER_LEN {
        RecvAction::Report(RECV_BUFFER_LEN)
    } else {
        RecvAction::Report(result as usize)
    }
}

/// The actions of a receive loop whose reads return `reads` in turn: one per
/// read, up to and including the first that closes the loop.
pub open spec fn recv_run(reads: Seq<i32>) -> Seq<RecvAction>
    decreases reads.len(),
{
    if reads.len() == 0 {
        Seq::empty()
    } else if reads[0] == 0 {
        seq![RecvAction::Close]
    } else {
        seq![recv_action(reads[0])] + recv_run(reads.drop_first())
    }
}

/// The receive loop reports exactly the reads that returned data, never one
/// that returned nothing yet, and stops at the first read that sees the peer
/// close: no read after it is made.
pub proof fn lemma_receive_loop(reads: Seq<i32>)
    ensures
        recv_run(reads).len() <= reads.len(),
        forall|i: int|
            0 <= i < recv_run(reads).len() ==> recv_run(reads)[i] == recv_action(reads[i]),
        forall|i: int|
            0 <= i < recv_run(reads).len() ==> ((recv_run(reads)[i] is Report) <==> reads[i] > 0),
        forall|i: int|
            0 <= i < recv_run(reads).len() ==> (reads[i] == 0 <==> i == recv_run(reads).len() - 1
                && recv_run(reads)[i] is Close),
        recv_run(reads).len() < reads.len() ==> recv_run(reads).len() > 0 && reads[recv_run(
            reads,
        ).len() - 1] == 0,
        (forall|i: int| 0 <= i < reads.len() ==> reads[i] != 0) ==> recv_run(reads).len()
            == reads.len(),
    decreases reads.len(),
{
    if reads.len() > 0 && reads[0] != 0 {
        let rest = reads.drop_first();
        lemma_receive_loop(rest);
        let run = recv_run(reads);
        assert(run == seq![recv_action(reads[0])] + recv_run(rest));
        assert forall|i: int| 0 < i < run.len() implies run[i] == recv_run(rest)[i - 1]
            && reads[i] == rest[i - 1] by {}
        if forall|i: int| 0 <= i < reads.len() ==> reads[i] != 0 {
            assert forall|i: int| 0 <= i < rest.len() implies rest[i] != 0 by {
                assert(rest[i] == reads[i + 1]);
            }
        }
    }
}

} // verus!
