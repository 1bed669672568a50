//! Runs of the client's step function, and what holds of every run.
//!
//! Many inference calls share one channel. A run is the sequence of steps
//! that the calls take, in the order in which they reach the shared state.

use crate::image::ImageTensorView;
use crate::triton_client::{ConnectionState, InferActionView, InferEventView, TritonClientView};
use vstd::prelude::*;

verus! {

/// One step of a run: the tensor of the call that takes it, and the event.
pub struct Occurrence {
    pub tensor: ImageTensorView,
    pub event: InferEventView,
}

/// The state of the channel after a run that starts in `connection`.
pub open spec fn final_connection(
    client: TritonClientView,
    connection: ConnectionState,
    run: Seq<Occurrence>,
) -> ConnectionState
    decreases run.len(),
{
    if run.len() == 0 {
        connection
    } else {
        final_connection(
            client,
            client.step(run[0].tensor, connection, run[0].event).0,
            run.skip(1),
        )
    }
}

/// How many times a run that starts in `connection` tells a call to open
/// the channel.
pub open spec fn handshakes(
    client: TritonClientView,
    connection: ConnectionState,
    run: Seq<Occurrence>,
) -> nat
    decreases run.len(),
{
    if run.len() == 0 {
        0
    } else {
        let (next, action) = client.step(run[0].tensor, connection, run[0].event);
        let started: nat = if action is Connect {
            1
        } else {
            0
        };
        started + handshakes(client, next, run.skip(1))
    }
}

/// How many attempts to open the channel a run reports as failed.
pub open spec fn failed_handshakes(run: Seq<Occurrence>) -> nat
    decreases run.len(),
{
    if run.len() == 0 {
        0
    } else {
        let failed: nat = if run[0].event is ConnectFailed {
            1
        } else {
            0
        };
        failed + failed_handshakes(run.skip(1))
    }
}

/// 1 where the channel is open or being opened, else 0.
pub open spec fn claimed(connection: ConnectionState) -> nat {
    if connection == ConnectionState::Unconnected {
        0
    } else {
        1
    }
}

/// Every step of the run is the beginning of a call.
pub open spec fn only_calls(run: Seq<Occurrence>) -> bool {
    forall|i: int| 0 <= i < run.len() ==> (#[trigger] run[i]).event is Call
}

/// Some call of the run carries a tensor with data.
pub open spec fn some_data(run: Seq<Occurrence>) -> bool {
    exists|i: int| 0 <= i < run.len() && (#[trigger] run[i]).tensor.data.len() > 0
}

/// A call is told to open the channel only when the channel is neither open
/// nor being opened. So in every run the handshakes that were started exceed
/// those that failed by at most one, and by none once the run ends without
/// a channel.
pub proof fn lemma_handshakes_bounded(
    client: TritonClientView,
    connection: ConnectionState,
    run: Seq<Occurrence>,
)
    ensures
        handshakes(client, connection, run) + claimed(connection) <= failed_handshakes(run)
            + claimed(final_connection(client, connection, run)),
    decreases run.len(),
{
    if run.len() > 0 {
        let next = client.step(run[0].tensor, connection, run[0].event).0;
        lemma_handshakes_bounded(client, next, run.skip(1));
    }
}

/// While the channel is open or being opened, calls that begin start no
/// handshake.
pub proof fn lemma_no_second_handshake(
    client: TritonClientView,
    connection: ConnectionState,
    run: Seq<Occurrence>,
)
    requires
        connection != ConnectionState::Unconnected,
        only_calls(run),
    ensures
        handshakes(client, connection, run) == 0,
        final_connection(client, connection, run) == connection,
    decreases run.len(),
{
    if run.len() > 0 {
        assert(run[0].event is Call);
        let next = client.step(run[0].tensor, connection, run[0].event).0;
        assert(next == connection);
        assert forall|i: int| 0 <= i < run.skip(1).len() implies (#[trigger] run.skip(1)[i]).event is Call by {
            assert(run.skip(1)[i] == run[i + 1]);
        }
        lemma_no_second_handshake(client, next, run.skip(1));
    }
}

/// Calls that begin before the channel is open lead to exactly one
/// handshake, however many they are: the first call that carries data is
/// told to open the channel, and every later one to wait. Calls without
/// data fail on their own and start nothing.
pub proof fn lemma_single_handshake(client: TritonClientView, run: Seq<Occurrence>)
    requires
        only_calls(run),
    ensures
        some_data(run) ==> handshakes(client, ConnectionState::Unconnected, run) == 1
            && final_connection(client, ConnectionState::Unconnected, run)
            == ConnectionState::Connecting,
        !some_data(run) ==> handshakes(client, ConnectionState::Unconnected, run) == 0
            && final_connection(client, ConnectionState::Unconnected, run)
            == ConnectionState::Unconnected,
    decreases run.len(),
{
    if run.len() > 0 {
        let rest = run.skip(1);
        assert(run[0].event is Call);
        assert forall|i: int| 0 <= i < rest.len() implies (#[trigger] rest[i]).event is Call by {
            assert(rest[i] == run[i + 1]);
        }
        if run[0].tensor.data.len() > 0 {
            lemma_no_second_handshake(client, ConnectionState::Connecting, rest);
        } else {
            lemma_single_handshake(client, rest);
            if some_data(run) {
                let i = choose|i: int| 0 <= i < run.len() && (#[trigger] run[i]).tensor.data.len() > 0;
                assert(rest[i - 1] == run[i]);
            }
            if some_data(rest) {
                let j = choose|j: int| 0 <= j < rest.len() && (#[trigger] rest[j]).tensor.data.len() > 0;
                assert(rest[j] == run[j + 1]);
            }
        }
    }
}

/// An open channel stays open: no event takes the state back, a failure in
/// transit included.
pub proof fn lemma_connected_is_final(client: TritonClientView, run: Seq<Occurrence>)
    ensures
        final_connection(client, ConnectionState::Connected, run) == ConnectionState::Connected,
        handshakes(client, ConnectionState::Connected, run) == 0,
    decreases run.len(),
{
    if run.len() > 0 {
        lemma_connected_is_final(client, run.skip(1));
    }
}

} // verus!
