//! What holds of a connection over its whole life.

use tokio::sync::oneshot;
use vstd::prelude::*;

use crate::error::{Error, IoError, IoErrorCause, IoErrorKind, ProtocolError};
use crate::frame::{FrameHeader, Request, RequestAdu, RequestView, ResponseAdu};
use crate::service::connection::{
    Actor, Answered, Closing, Exchange, Framing, Received, Receiving, Reply, Sending, Sent, Served,
};
use crate::service::rtu::RtuFraming;
use crate::service::tcp::TransactionIdGenerator;
use crate::service::{CallResult, Command, Delivery, DisconnectResult};
use crate::slave::Slave;

verus! {

/// The stage that a connection is in.
pub enum Phase<F: Framing> {
    Idle(Actor<F>),
    Sending(Sending<F>),
    Receiving(Receiving<F>),
    Closing(Closing),
    /// The actor has exited.
    Stopped,
}

/// An event, and what the actor does about it.
pub enum Step<F: Framing> {
    Serve { command: Option<Command>, served: Served<F> },
    Send { result: Result<(), IoError>, next: Sent<F> },
    Receive { received: Received<F>, answered: Answered<F> },
    ShutDown { shutdown: Result<(), IoError>, reply: Reply<DisconnectResult> },
}

/// Whether a connection in stage `pre` can take `step`, and is in stage `post` then.
pub open spec fn takes<F: Framing>(pre: Phase<F>, step: Step<F>, post: Phase<F>) -> bool {
    match (pre, step) {
        (Phase::Idle(actor), Step::Serve { command, served }) => {
            &&& crate::service::connection::serves(actor, command, served)
            &&& post == match served {
                Served::Call { adu: _, sending } => Phase::Sending(sending),
                Served::Disconnect(closing) => Phase::Closing(closing),
                Served::Finished => Phase::Stopped,
            }
        },
        (Phase::Sending(sending), Step::Send { result, next }) => {
            &&& crate::service::connection::proceeds(sending, result, next)
            &&& post == match next {
                Sent::Receive(receiving) => Phase::Receiving(receiving),
                Sent::Answer(answered) => Phase::Idle(answered.actor),
            }
        },
        (Phase::Receiving(receiving), Step::Receive { received, answered }) => {
            &&& crate::service::connection::answers(receiving, received, answered)
            &&& post == Phase::Idle(answered.actor)
        },
        (Phase::Closing(closing), Step::ShutDown { shutdown, reply }) => {
            &&& reply.response_tx == closing.response_tx
            &&& reply.value == crate::service::shutdown_result(shutdown)
            &&& post == Phase::<F>::Stopped
        },
        _ => false,
    }
}

/// The life of a connection up to some point: the stages it was in, and the steps
/// between them.
pub struct Run<F: Framing> {
    pub phases: Seq<Phase<F>>,
    pub steps: Seq<Step<F>>,
}

impl<F: Framing> Run<F> {
    /// Whether step `i` leads from stage `i` to the next.
    pub open spec fn connects(self, i: int) -> bool {
        takes(self.phases[i], self.steps[i], self.phases[i + 1])
    }

    /// Whether the run begins with an idle actor and its steps follow each other.
    pub open spec fn valid(self) -> bool {
        &&& self.phases.len() == self.steps.len() + 1
        &&& self.phases[0] is Idle
        &&& forall|i: int| 0 <= i < self.steps.len() ==> #[trigger] self.connects(i)
    }

    /// Whether step `i` serves a command, or the news that there will be none.
    pub open spec fn serves(self, i: int) -> bool {
        0 <= i < self.steps.len() && self.steps[i] is Serve
    }

    /// Whether step `i` serves a call.
    pub open spec fn calls(self, i: int) -> bool {
        self.serves(i) && self.steps[i]->command matches Some(Command::Call { .. })
    }

    /// The request that goes out when step `i` serves a call.
    pub open spec fn request(self, i: int) -> RequestAdu<'static, F::Hdr> {
        self.steps[i]->served->adu
    }

    /// To whom the answer of the call that step `i` serves is due.
    pub open spec fn caller(self, i: int) -> oneshot::Sender<CallResult> {
        match self.steps[i]->command {
            Some(Command::Call { request: _, slave: _, response_tx }) => response_tx,
            _ => arbitrary(),
        }
    }

    /// Whether step `k` answers a call.
    pub open spec fn answers(self, k: int) -> bool {
        0 <= k < self.steps.len() && match self.steps[k] {
            Step::Send { result: _, next } => next is Answer,
            Step::Receive { .. } => true,
            _ => false,
        }
    }

    /// The answer that step `k` gives to a call.
    pub open spec fn answer(self, k: int) -> Reply<CallResult> {
        match self.steps[k] {
            Step::Send { result: _, next } => next->Answer_0.reply,
            Step::Receive { received: _, answered } => answered.reply,
            _ => arbitrary(),
        }
    }

    /// The frame that step `k` reads.
    pub open spec fn frame(self, k: int) -> ResponseAdu<F::Hdr> {
        self.steps[k]->received->Frame_0
    }

    /// Whether step `k` reads a frame.
    pub open spec fn reads_frame(self, k: int) -> bool {
        0 <= k < self.steps.len() && self.steps[k] is Receive
            && self.steps[k]->received is Frame
    }

    /// Whether step `k` reads a reply to the request that step `i` sends: a frame with
    /// the same header, about the same function.
    pub open spec fn replies(self, k: int, i: int) -> bool {
        &&& self.reads_frame(k)
        &&& self.frame(k).hdr == self.request(i).hdr
        &&& crate::frame::answered_function(self.frame(k).pdu.0)
            == self.request(i).pdu.0@.function()
    }

    /// Whether step `m` shuts the transport down and answers a disconnect.
    pub open spec fn shuts_down(self, m: int) -> bool {
        0 <= m < self.steps.len() && self.steps[m] is ShutDown
    }

    /// Whether a call whose answer is awaited at `response_rx` can come to `delivery`:
    /// an answer that comes out there was given by some step at the other end.
    pub open spec fn allows_call_delivery(
        self,
        response_rx: oneshot::Receiver<CallResult>,
        delivery: Delivery<CallResult>,
    ) -> bool {
        delivery matches Delivery::Answered(value) ==> exists|k: int|
            {
                &&& #[trigger] self.answers(k)
                &&& crate::service::channel::answers_call(self.answer(k).response_tx, response_rx)
                &&& self.answer(k).value == value
            }
    }

    /// Whether a disconnect whose answer is awaited at `response_rx` can come to
    /// `delivery`: an answer that comes out there was given by some step at the other
    /// end.
    pub open spec fn allows_disconnect_delivery(
        self,
        response_rx: oneshot::Receiver<DisconnectResult>,
        delivery: Delivery<DisconnectResult>,
    ) -> bool {
        delivery matches Delivery::Answered(value) ==> exists|m: int|
            {
                &&& #[trigger] self.shuts_down(m)
                &&& crate::service::channel::answers_disconnect(
                    self.steps[m]->reply.response_tx,
                    response_rx,
                )
                &&& self.steps[m]->reply.value == value
            }
    }

    /// How many of the first `n` steps serve a call.
    pub open spec fn call_count(self, n: int) -> nat
        decreases n,
    {
        if n <= 0 {
            0
        } else {
            self.call_count(n - 1) + if self.calls(n - 1) {
                1nat
            } else {
                0
            }
        }
    }
}

/// A call is answered, once and to the caller who made it, before the next command is
/// served.
pub proof fn law_call_is_answered_before_next_command<F: Framing>(run: Run<F>, i: int, j: int)
    requires
        run.valid(),
        run.calls(i),
        run.serves(j),
        i < j,
    ensures
        exists|k: int|
            {
                &&& i < k < j
                &&& #[trigger] run.answers(k)
                &&& run.answer(k).response_tx == run.caller(i)
                &&& forall|m: int| i < m < k ==> !(#[trigger] run.serves(m)) && !run.answers(m)
                &&& run.serves(k + 1)
            },
{
    assert(run.connects(i));
    assert(run.connects(i + 1));
    if run.answers(i + 1) {
        assert(run.connects(i + 2));
        assert(run.serves(i + 2));
    } else {
        assert(run.connects(i + 2));
        assert(run.answers(i + 2));
        assert(run.connects(i + 3));
        assert(run.serves(i + 3));
    }
}

/// An answer goes to the caller of the command served last, which is a call and has
/// not been answered before.
pub proof fn law_answer_belongs_to_last_command<F: Framing>(run: Run<F>, k: int)
    requires
        run.valid(),
        run.answers(k),
    ensures
        exists|i: int|
            {
                &&& i < k
                &&& #[trigger] run.calls(i)
                &&& run.caller(i) == run.answer(k).response_tx
                &&& forall|m: int|
                    i < m < k ==> !(#[trigger] run.serves(m)) && !run.answers(m)
            },
{
    assert(run.connects(k));
    assert(run.connects(k - 1));
    if run.steps[k] is Send {
        assert(run.calls(k - 1));
    } else {
        assert(run.connects(k - 2));
        assert(run.calls(k - 2));
    }
}

/// The answer to a call comes out where its caller waits for it.
pub proof fn law_answer_reaches_its_caller<F: Framing>(
    run: Run<F>,
    i: int,
    k: int,
    response_rx: oneshot::Receiver<CallResult>,
)
    requires
        run.valid(),
        run.calls(i),
        run.answers(k),
        i < k,
        forall|m: int| i < m < k ==> !#[trigger] run.serves(m),
        crate::service::channel::answers_call(run.caller(i), response_rx),
    ensures
        crate::service::channel::answers_call(run.answer(k).response_tx, response_rx),
{
    law_answer_belongs_to_last_command(run, k);
    let last = choose|last: int|
        {
            &&& last < k
            &&& #[trigger] run.calls(last)
            &&& run.caller(last) == run.answer(k).response_tx
            &&& forall|m: int| last < m < k ==> !(#[trigger] run.serves(m)) && !run.answers(m)
        };
    assert(run.serves(last) && run.serves(i));
}

/// What a caller is told of a call comes from this call alone: it is the one answer
/// that was given to it while it was being served, or else that there is no connection.
/// So answers are neither swapped between callers nor given twice.
pub proof fn law_caller_is_told_its_own_answer<F: Framing>(
    run: Run<F>,
    i: int,
    response_rx: oneshot::Receiver<CallResult>,
    delivery: Delivery<CallResult>,
    res: CallResult,
)
    requires
        run.valid(),
        run.calls(i),
        crate::service::channel::pairs_call(run.caller(i), response_rx),
        forall|m: int| m != i && #[trigger] run.calls(m) ==> run.caller(m) != run.caller(i),
        run.allows_call_delivery(response_rx, delivery),
        crate::service::actor::is_call_outcome(delivery, res),
    ensures
        match delivery {
            Delivery::Answered(_) => exists|k: int|
                {
                    &&& i < k
                    &&& #[trigger] run.answers(k)
                    &&& forall|m: int| i < m < k ==> !#[trigger] run.serves(m)
                    &&& run.answer(k).value == res
                    &&& forall|other: int|
                        #[trigger] run.answers(other) && run.answer(other).response_tx
                            == run.caller(i) ==> other == k
                },
            _ => res matches Err(err) && crate::service::actor::is_disconnected(err),
        },
{
    if delivery is Answered {
        let k = choose|k: int|
            {
                &&& #[trigger] run.answers(k)
                &&& crate::service::channel::answers_call(
                    run.answer(k).response_tx,
                    response_rx,
                )
                &&& run.answer(k).value == delivery->Answered_0
            };
        law_answer_belongs_to_last_command(run, k);
        assert forall|other: int|
            #[trigger] run.answers(other) && run.answer(other).response_tx == run.caller(
                i,
            ) implies other == k by {
            law_answer_belongs_to_last_command(run, other);
            if other < k {
                assert(!run.serves(other));
            } else if k < other {
                assert(!run.serves(k));
            }
        }
    }
}

/// A call is answered with an answer of the device exactly if, while it was being
/// served, a frame was read with the header and the function of its request. The
/// answer is then the one that this frame carries.
pub proof fn law_device_answers_match_their_request<F: Framing>(run: Run<F>, i: int, k: int)
    requires
        run.valid(),
        run.calls(i),
        run.answers(k),
        i < k,
        forall|m: int| i < m < k ==> !#[trigger] run.serves(m),
    ensures
        run.answer(k).value is Ok <==> run.replies(k, i),
        run.replies(k, i) ==> run.answer(k).value == match run.frame(k).pdu.0 {
            Ok(response) => CallResult::Ok(Ok(response)),
            Err(refusal) => CallResult::Ok(Err(refusal.exception)),
        },
{
    lemma_exchange(run, i, k);
}

/// The exchange with which step `k` answers the call that step `i` served.
proof fn lemma_exchange<F: Framing>(run: Run<F>, i: int, k: int)
    requires
        run.valid(),
        run.calls(i),
        run.answers(k),
        i < k,
        forall|m: int| i < m < k ==> !#[trigger] run.serves(m),
    ensures
        match run.steps[k] {
            Step::Send { result, next: _ } => {
                &&& result matches Err(err)
                &&& run.answer(k).value == CallResult::Err(Error::Transport(err))
            },
            Step::Receive { received, answered: _ } => {
                &&& run.phases[k] matches Phase::Receiving(receiving)
                &&& receiving.exchange.hdr == run.request(i).hdr
                &&& receiving.exchange.function == run.request(i).pdu.0@.function()
                &&& crate::service::connection::results_in(
                    receiving.exchange,
                    received,
                    run.answer(k).value,
                )
            },
            _ => false,
        },
{
    assert(run.connects(i));
    assert(run.connects(i + 1));
    assert(run.connects(k));
    if k > i + 2 {
        assert(run.connects(i + 2));
        if run.phases[i + 2] is Idle {
            assert(run.serves(i + 2));
        } else {
            assert(run.connects(i + 3));
            assert(run.serves(i + 3));
        }
    }
}

/// A disconnect ends the connection: all that follows is the answer to it, which says
/// whether the transport went down, and no command is served any more.
pub proof fn law_disconnect_is_final<F: Framing>(
    run: Run<F>,
    i: int,
    response_tx: oneshot::Sender<DisconnectResult>,
)
    requires
        run.valid(),
        run.serves(i),
        run.steps[i]->command == Some(Command::Disconnect { response_tx }),
    ensures
        forall|m: int| m > i ==> !(#[trigger] run.serves(m)) && !run.answers(m),
        run.steps.len() <= i + 2,
        run.steps.len() == i + 2 ==> {
            &&& run.steps[i + 1] matches Step::ShutDown { shutdown, reply }
            &&& reply.response_tx == response_tx
            &&& reply.value == crate::service::shutdown_result(shutdown)
            &&& run.phases.last() is Stopped
        },
{
    assert(run.connects(i));
    if run.steps.len() >= i + 2 {
        assert(run.connects(i + 1));
        if run.steps.len() > i + 2 {
            assert(run.connects(i + 2));
        }
    }
}

/// A call that comes too late, that is one which no step before a disconnect serves,
/// fails because there is no connection, and no request is sent any more.
///
/// The call is known by the end at which its answer is due and the end at which it is
/// awaited.
pub proof fn law_call_after_disconnect_fails<F: Framing>(
    run: Run<F>,
    i: int,
    response_tx: oneshot::Sender<DisconnectResult>,
    call_tx: oneshot::Sender<CallResult>,
    call_rx: oneshot::Receiver<CallResult>,
    delivery: Delivery<CallResult>,
    res: CallResult,
)
    requires
        run.valid(),
        run.serves(i),
        run.steps[i]->command == Some(Command::Disconnect { response_tx }),
        crate::service::channel::pairs_call(call_tx, call_rx),
        forall|m: int| m < i && #[trigger] run.calls(m) ==> run.caller(m) != call_tx,
        run.allows_call_delivery(call_rx, delivery),
        crate::service::actor::is_call_outcome(delivery, res),
    ensures
        res matches Err(err) && crate::service::actor::is_disconnected(err),
        forall|m: int| m > i ==> !#[trigger] run.calls(m),
{
    law_disconnect_is_final(run, i, response_tx);
    assert forall|m: int| m > i implies !#[trigger] run.calls(m) by {
        assert(!run.serves(m));
    }
    if delivery is Answered {
        let k = choose|k: int|
            {
                &&& #[trigger] run.answers(k)
                &&& crate::service::channel::answers_call(run.answer(k).response_tx, call_rx)
                &&& run.answer(k).value == delivery->Answered_0
            };
        law_answer_belongs_to_last_command(run, k);
    }
}

/// A disconnect other than the one that ended the connection succeeds, and the
/// transport is shut down only once.
///
/// The further disconnect is known by the end at which its answer is due and the end at
/// which it is awaited.
pub proof fn law_further_disconnect_succeeds<F: Framing>(
    run: Run<F>,
    i: int,
    response_tx: oneshot::Sender<DisconnectResult>,
    further_tx: oneshot::Sender<DisconnectResult>,
    further_rx: oneshot::Receiver<DisconnectResult>,
    delivery: Delivery<DisconnectResult>,
    res: DisconnectResult,
)
    requires
        run.valid(),
        run.serves(i),
        run.steps[i]->command == Some(Command::Disconnect { response_tx }),
        crate::service::channel::pairs_disconnect(further_tx, further_rx),
        further_tx != response_tx,
        run.allows_disconnect_delivery(further_rx, delivery),
        crate::service::actor::is_disconnect_outcome(delivery, res),
    ensures
        res == DisconnectResult::Ok(()),
        forall|m: int| #[trigger] run.shuts_down(m) ==> m == i + 1,
{
    law_disconnect_is_final(run, i, response_tx);
    assert forall|m: int| #[trigger] run.shuts_down(m) implies m == i + 1 by {
        assert(run.connects(m));
        assert(run.connects(m + 1) || m + 1 == run.steps.len());
    }
}

/// The actor exits when all its handles are gone.
pub proof fn law_actor_exits_without_handles<F: Framing>(run: Run<F>, i: int)
    requires
        run.valid(),
        run.serves(i),
        run.steps[i]->command is None,
    ensures
        run.steps.len() == i + 1,
        run.phases.last() is Stopped,
{
    assert(run.connects(i));
    if run.steps.len() > i + 1 {
        assert(run.connects(i + 1));
    }
}

/// The framing of a connection that has not been closed.
pub open spec fn framing_of<F: Framing>(phase: Phase<F>) -> Option<F> {
    match phase {
        Phase::Idle(actor) => Some(actor.framing),
        Phase::Sending(sending) => Some(sending.framing),
        Phase::Receiving(receiving) => Some(receiving.framing),
        Phase::Closing(_) | Phase::Stopped => None,
    }
}

/// On a TCP connection the upcoming transaction id is the initial one advanced by the
/// number of calls so far.
proof fn lemma_upcoming_id(run: Run<TransactionIdGenerator>, n: int)
    requires
        run.valid(),
        0 <= n <= run.steps.len(),
    ensures
        framing_of(run.phases[n]) matches Some(generator) ==> generator.upcoming()
            == crate::service::tcp::id_after(
            framing_of(run.phases[0]).unwrap().upcoming(),
            run.call_count(n),
        ),
    decreases n,
{
    if n > 0 {
        lemma_upcoming_id(run, n - 1);
        assert(run.connects(n - 1));
        if run.phases[n - 1] is Idle {
            crate::service::tcp::lemma_advanced(run.phases[n - 1]->Idle_0.framing);
        }
    }
}

/// On a TCP connection the calls take consecutive transaction ids, beginning with the
/// one that the connection starts with.
pub proof fn law_transaction_ids_are_consecutive(run: Run<TransactionIdGenerator>, i: int)
    requires
        run.valid(),
        run.calls(i),
    ensures
        run.request(i).hdr.transaction_id == crate::service::tcp::id_after(
            framing_of(run.phases[0]).unwrap().upcoming(),
            run.call_count(i),
        ),
        run.request(i).hdr.transaction_id == (framing_of(run.phases[0]).unwrap().upcoming()
            + run.call_count(i)) % 0x1_0000,
{
    lemma_upcoming_id(run, i);
    assert(run.connects(i));
}

/// A later step has at least as many calls before it.
proof fn lemma_call_count_grows<F: Framing>(run: Run<F>, i: int, j: int)
    requires
        0 <= i <= j,
    ensures
        run.call_count(i) <= run.call_count(j),
    decreases j,
{
    if i < j {
        lemma_call_count_grows(run, i, j - 1);
    }
}

/// On a TCP connection a reply to an earlier call is never taken for the reply to a
/// later one, unless all transaction ids have been used up in between: the later call
/// fails with a header mismatch.
pub proof fn law_stale_replies_are_rejected(
    run: Run<TransactionIdGenerator>,
    earlier: int,
    later: int,
    k: int,
)
    requires
        run.valid(),
        run.calls(earlier),
        run.calls(later),
        earlier < later,
        run.call_count(later) - run.call_count(earlier) < 0x1_0000,
        run.reads_frame(k),
        later < k,
        forall|m: int| later < m < k ==> !#[trigger] run.serves(m),
        run.frame(k).hdr == run.request(earlier).hdr,
    ensures
        run.answers(k),
        run.answer(k).value matches Err(
            Error::Protocol(ProtocolError::HeaderMismatch { message: _, result }),
        ) && result == run.frame(k).pdu.0,
{
    law_transaction_ids_are_consecutive(run, earlier);
    law_transaction_ids_are_consecutive(run, later);
    lemma_call_count_grows(run, earlier + 1, later);
    lemma_exchange(run, later, k);
}

/// On a TCP connection the transaction id goes up by one from each call to the next, and
/// from the greatest id back to zero.
pub proof fn law_next_call_takes_the_next_transaction_id(
    run: Run<TransactionIdGenerator>,
    i: int,
    j: int,
)
    requires
        run.valid(),
        run.calls(i),
        run.calls(j),
        i < j,
        forall|m: int| i < m < j ==> !#[trigger] run.calls(m),
    ensures
        run.request(i).hdr.transaction_id < 0xffff ==> run.request(j).hdr.transaction_id
            == run.request(i).hdr.transaction_id + 1,
        run.request(i).hdr.transaction_id == 0xffff ==> run.request(j).hdr.transaction_id == 0,
{
    law_transaction_ids_are_consecutive(run, i);
    law_transaction_ids_are_consecutive(run, j);
    lemma_call_count_stays(run, i + 1, j);
}

/// The number of calls does not change over steps that serve none.
proof fn lemma_call_count_stays<F: Framing>(run: Run<F>, i: int, j: int)
    requires
        0 <= i <= j,
        forall|m: int| i <= m < j ==> !#[trigger] run.calls(m),
    ensures
        run.call_count(i) == run.call_count(j),
    decreases j,
{
    if i < j {
        lemma_call_count_stays(run, i, j - 1);
        assert(!run.calls(j - 1));
    }
}

/// A call sends out the request that the caller made, with every part of it unchanged.
pub proof fn law_request_goes_out_as_made<F: Framing>(
    run: Run<F>,
    i: int,
    request: Request<'static>,
    slave: Slave,
    response_tx: oneshot::Sender<CallResult>,
)
    requires
        run.valid(),
        run.serves(i),
        run.steps[i]->command == Some(Command::Call { request, slave, response_tx }),
    ensures
        run.steps[i]->served is Call,
        run.request(i).pdu.0 == request,
        run.caller(i) == response_tx,
{
    assert(run.connects(i));
}

/// On a serial line a request goes out under the number of the slave that the call
/// addresses.
pub proof fn law_rtu_request_is_addressed_to_its_slave(
    run: Run<RtuFraming>,
    i: int,
    request: Request<'static>,
    slave: Slave,
    response_tx: oneshot::Sender<CallResult>,
)
    requires
        run.valid(),
        run.serves(i),
        run.steps[i]->command == Some(Command::Call { request, slave, response_tx }),
    ensures
        run.request(i).hdr.slave_id == slave.0,
{
    assert(run.connects(i));
}

/// On a TCP connection a request goes out to the unit with the number of the slave that
/// the call addresses.
pub proof fn law_tcp_request_is_addressed_to_its_slave(
    run: Run<TransactionIdGenerator>,
    i: int,
    request: Request<'static>,
    slave: Slave,
    response_tx: oneshot::Sender<CallResult>,
)
    requires
        run.valid(),
        run.serves(i),
        run.steps[i]->command == Some(Command::Call { request, slave, response_tx }),
    ensures
        run.request(i).hdr.unit_id == slave.0,
{
    assert(run.connects(i));
}

/// A frame under the header of the request whose response is of the kind asked for makes
/// the call come to this response, whatever it holds. One of another kind is reported
/// with the response and the function that was asked for.
pub proof fn law_response_is_passed_on_within_its_kind<H: FrameHeader>(
    exchange: Exchange<H>,
    request: RequestView,
    adu: ResponseAdu<H>,
    res: CallResult,
)
    requires
        exchange.function == request.function(),
        adu.hdr == exchange.hdr,
        adu.pdu.0 is Ok,
        crate::service::connection::concludes(exchange, adu, res),
    ensures
        crate::frame::laws::same_kind(request, adu.pdu.0->Ok_0) ==> res == CallResult::Ok(
            Ok(adu.pdu.0->Ok_0),
        ),
        !crate::frame::laws::same_kind(request, adu.pdu.0->Ok_0) ==> res == CallResult::Err(
            Error::Protocol(
                ProtocolError::FunctionCodeMismatch {
                    request: request.function(),
                    result: adu.pdu.0,
                },
            ),
        ),
{
    crate::frame::laws::law_functions_agree_exactly_within_a_kind(request, adu.pdu.0->Ok_0);
}

/// A frame under the header of the request with a refusal of the function asked for makes
/// the call come to the reason of the refusal. A refusal of another function is reported
/// with the refusal and the function that was asked for.
pub proof fn law_refusal_is_passed_on_for_its_function<H: FrameHeader>(
    exchange: Exchange<H>,
    adu: ResponseAdu<H>,
    res: CallResult,
)
    requires
        adu.hdr == exchange.hdr,
        adu.pdu.0 is Err,
        crate::service::connection::concludes(exchange, adu, res),
    ensures
        adu.pdu.0->Err_0.function == exchange.function ==> res == CallResult::Ok(
            Err(adu.pdu.0->Err_0.exception),
        ),
        adu.pdu.0->Err_0.function != exchange.function ==> res == CallResult::Err(
            Error::Protocol(
                ProtocolError::FunctionCodeMismatch {
                    request: exchange.function,
                    result: adu.pdu.0,
                },
            ),
        ),
{
}

/// A frame under another header than that of the request is reported, whatever it
/// carries, with the answer in it and a message that describes the header of the request
/// and then that of the frame.
pub proof fn law_wrong_header_is_reported<H: FrameHeader>(
    exchange: Exchange<H>,
    adu: ResponseAdu<H>,
    res: CallResult,
)
    requires
        adu.hdr != exchange.hdr,
        crate::service::connection::concludes(exchange, adu, res),
    ensures
        res matches Err(Error::Protocol(ProtocolError::HeaderMismatch { message, result })) && {
            &&& result == adu.pdu.0
            &&& message@ == "expected/request = "@ + exchange.hdr.description()
                + ", actual/response = "@ + adu.hdr.description()
        },
{
}

/// A call that reads a frame is concluded with what was sent for it: the header under
/// which its request went out, and the function of this request.
pub proof fn law_frame_is_held_against_the_request_sent<F: Framing>(run: Run<F>, i: int, k: int)
    requires
        run.valid(),
        run.calls(i),
        run.reads_frame(k),
        i < k,
        forall|m: int| i < m < k ==> !#[trigger] run.serves(m),
    ensures
        run.answers(k),
        crate::service::connection::concludes(
            Exchange {
                hdr: run.request(i).hdr,
                function: run.request(i).pdu.0@.function(),
            },
            run.frame(k),
            run.answer(k).value,
        ),
{
    lemma_exchange(run, i, k);
}

/// A request that cannot be written is answered with the reason. One that is written is
/// not answered yet: the reply to it is waited for.
pub proof fn law_only_failed_writes_are_answered_at_once<F: Framing>(
    run: Run<F>,
    k: int,
    result: Result<(), IoError>,
    next: Sent<F>,
)
    requires
        run.valid(),
        0 <= k < run.steps.len(),
        run.steps[k] == (Step::<F>::Send { result, next }),
    ensures
        result is Ok ==> !run.answers(k) && run.phases[k + 1] is Receiving,
        result matches Err(err) ==> run.answers(k) && run.answer(k).value == CallResult::Err(
            Error::Transport(err),
        ),
{
    assert(run.connects(k));
}

/// A failure to read the reply is what the call comes to.
pub proof fn law_failed_reads_are_answered<F: Framing>(
    run: Run<F>,
    k: int,
    err: IoError,
    answered: Answered<F>,
)
    requires
        run.valid(),
        0 <= k < run.steps.len(),
        run.steps[k] == (Step::<F>::Receive { received: Received::Failed(err), answered }),
    ensures
        run.answer(k).value == CallResult::Err(Error::Transport(err)),
{
    assert(run.connects(k));
}

/// On a serial line a call whose reply is cut off by the end of the stream comes to a
/// broken pipe.
pub proof fn law_rtu_stream_ends_with_a_broken_pipe(
    run: Run<RtuFraming>,
    k: int,
    answered: Answered<RtuFraming>,
)
    requires
        run.valid(),
        0 <= k < run.steps.len(),
        run.steps[k] == (Step::<RtuFraming>::Receive { received: Received::End(()), answered }),
    ensures
        run.answer(k).value == CallResult::Err(
            Error::Transport(
                IoError { kind: IoErrorKind::BrokenPipe, cause: IoErrorCause::Bare },
            ),
        ),
{
    assert(run.connects(k));
}

/// On a TCP connection a call whose reply is cut off by the end of the stream comes to
/// the last error of the operating system.
pub proof fn law_tcp_stream_ends_with_the_last_os_error(
    run: Run<TransactionIdGenerator>,
    k: int,
    last_os_error: IoError,
    answered: Answered<TransactionIdGenerator>,
)
    requires
        run.valid(),
        0 <= k < run.steps.len(),
        run.steps[k] == (Step::<TransactionIdGenerator>::Receive {
            received: Received::End(last_os_error),
            answered,
        }),
    ensures
        run.answer(k).value == CallResult::Err(Error::Transport(last_os_error)),
{
    assert(run.connects(k));
}

/// A disconnect fails exactly if shutting the transport down fails for another reason
/// than that it is down already, and then with this very failure.
pub proof fn law_only_other_shutdown_failures_are_reported(shutdown: Result<(), IoError>)
    ensures
        match shutdown {
            Ok(()) => crate::service::shutdown_result(shutdown) == DisconnectResult::Ok(()),
            Err(err) => match err.kind {
                IoErrorKind::NotConnected | IoErrorKind::BrokenPipe =>
                    crate::service::shutdown_result(shutdown) == DisconnectResult::Ok(()),
                IoErrorKind::Other => crate::service::shutdown_result(shutdown)
                    == DisconnectResult::Err(err),
            },
        },
{
}

/// The caller of the disconnect that ended the connection is told how the transport went
/// down, or that all is well if no answer comes.
pub proof fn law_disconnect_caller_is_told_its_own_answer<F: Framing>(
    run: Run<F>,
    i: int,
    response_tx: oneshot::Sender<DisconnectResult>,
    response_rx: oneshot::Receiver<DisconnectResult>,
    delivery: Delivery<DisconnectResult>,
    res: DisconnectResult,
)
    requires
        run.valid(),
        run.serves(i),
        run.steps[i]->command == Some(Command::Disconnect { response_tx }),
        crate::service::channel::pairs_disconnect(response_tx, response_rx),
        run.allows_disconnect_delivery(response_rx, delivery),
        crate::service::actor::is_disconnect_outcome(delivery, res),
    ensures
        delivery is Answered ==> {
            &&& run.shuts_down(i + 1)
            &&& res == match run.steps[i + 1]->shutdown {
                Ok(()) => DisconnectResult::Ok(()),
                Err(err) => if err.kind == IoErrorKind::Other {
                    DisconnectResult::Err(err)
                } else {
                    DisconnectResult::Ok(())
                },
            }
        },
        !(delivery is Answered) ==> res == DisconnectResult::Ok(()),
{
    law_disconnect_is_final(run, i, response_tx);
    if delivery is Answered {
        let m = choose|m: int|
            {
                &&& #[trigger] run.shuts_down(m)
                &&& crate::service::channel::answers_disconnect(
                    run.steps[m]->reply.response_tx,
                    response_rx,
                )
                &&& run.steps[m]->reply.value == delivery->Answered_0
            };
        assert(run.connects(m));
        assert(run.connects(m + 1) || m + 1 == run.steps.len());
        assert(m == i + 1);
        law_only_other_shutdown_failures_are_reported(run.steps[m]->shutdown);
    }
}

} // verus!
