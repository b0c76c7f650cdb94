use vstd::prelude::*;
use crate::exception::CxxAsyncException;
use crate::outcome::Received;
use crate::outcome::{
    CANCELLED_MESSAGE, RECV_RESULT_CANCELLED, RECV_RESULT_ERROR, RECV_RESULT_PENDING,
    RECV_RESULT_READY,
};
use futures::channel::oneshot::{Canceled, Receiver, Sender};
use std::future::Future;
use std::pin::Pin;
use std::task::{Context, Poll, Waker};

verus! {

/// The sending half of the `futures` oneshot channel: opaque here.
#[verifier::external_type_specification]
#[verifier::external_body]
#[verifier::reject_recursive_types(T)]
pub struct ExSender<T>(Sender<T>);

/// The receiving half of the `futures` oneshot channel: opaque here.
#[verifier::external_type_specification]
#[verifier::external_body]
#[verifier::reject_recursive_types(T)]
pub struct ExReceiver<T>(Receiver<T>);

/// The error with which the `futures` oneshot channel says that the sender
/// is gone and nothing is left to receive.
#[verifier::external_type_specification]
#[verifier::external_body]
pub struct ExCanceled(Canceled);

/// The standard library's handle for waking a suspended task: opaque here.
#[verifier::external_type_specification]
#[verifier::external_body]
pub struct ExWaker(Waker);

/// What travels through a channel: the producer's value or its failure.
pub type RustOneshotType<T> = Result<T, CxxAsyncException>;

/// What the underlying channel answers to one look: `Ok(None)` while nothing
/// was sent, `Ok(Some(..))` with what was sent, or that the sender is gone.
pub type RawReceived<T> = Result<Option<RustOneshotType<T>>, Canceled>;

/// Calls `futures::channel::oneshot::channel`. Nothing is claimed of the two
/// halves.
#[verifier::external_body]
fn oneshot_channel<T>() -> (halves: (Sender<T>, Receiver<T>)) {
    futures::channel::oneshot::channel()
}

/// Calls `Sender::send` of the `futures` oneshot channel. Claimed: a value
/// that could not be enqueued, because the receiver was gone, comes back
/// unchanged in `Err`. When that happens is not claimed.
#[verifier::external_body]
fn oneshot_send<T>(sender: Sender<T>, value: T) -> (sent: Result<(), T>)
    ensures
        sent is Err ==> sent->Err_0 == value,
{
    sender.send(value)
}

/// Calls `Receiver::try_recv` of the `futures` oneshot channel. Nothing is
/// claimed of the answer: it depends on what the other half did meanwhile.
#[verifier::external_body]
fn oneshot_try_recv<T>(receiver: &mut Receiver<T>) -> (raw: Result<Option<T>, Canceled>) {
    receiver.try_recv()
}

/// Calls `Future::poll` of the `futures` oneshot receiver with `waker` as the
/// task to wake, and hands the answer back in the shape of `try_recv`:
/// `Poll::Pending` as `Ok(None)`. Nothing is claimed of the answer.
#[verifier::external_body]
fn oneshot_poll<T>(receiver: &mut Receiver<T>, waker: &Waker) -> (raw: Result<Option<T>, Canceled>) {
    match Pin::new(receiver).poll(&mut Context::from_waker(waker)) {
        Poll::Pending => Ok(None),
        Poll::Ready(Ok(value)) => Ok(Some(value)),
        Poll::Ready(Err(canceled)) => Err(canceled),
    }
}

/// The outcome that an answer of the underlying channel stands for.
pub open spec fn classify<T>(raw: RawReceived<T>) -> Received<T> {
    match raw {
        Ok(None) => Received::Pending,
        Ok(Some(Ok(value))) => Received::Ready(value),
        Ok(Some(Err(exception))) => Received::Errored(exception),
        Err(_) => Received::Cancelled,
    }
}

/// Whether `resolved` is what a producer's `send` of `value`, or else of
/// the failure text `error`, resolves a channel to.
pub open spec fn is_resolution<T>(
    resolved: RustOneshotType<T>,
    value: Option<T>,
    error: Seq<char>,
) -> bool {
    match value {
        Some(value) => resolved == Ok::<T, CxxAsyncException>(value),
        None => resolved is Err && resolved->Err_0@ == error,
    }
}

/// What a `send` resolves the channel to: the value if one is supplied, else
/// a failure that carries `error`.
pub fn resolution<T>(value: Option<T>, error: &str) -> (resolved: RustOneshotType<T>)
    ensures
        is_resolution(resolved, value, error@),
{
    match value {
        Some(value) => Ok(value),
        None => Err(CxxAsyncException::from_message(error)),
    }
}

impl<T> Received<T> {
    /// Reads an answer of the underlying channel: nothing sent yet is
    /// `Pending`, a sent value `Ready`, a sent failure `Errored`, and a sender
    /// that is gone `Cancelled`.
    pub fn from_raw(raw: RawReceived<T>) -> (outcome: Self)
        ensures
            outcome == classify(raw),
    {
        match raw {
            Ok(None) => Received::Pending,
            Ok(Some(Ok(value))) => Received::Ready(value),
            Ok(Some(Err(exception))) => Received::Errored(exception),
            Err(_) => Received::Cancelled,
        }
    }
}

/// The exclusive right to resolve a channel, once.
#[verifier::reject_recursive_types(T)]
pub struct RustOneshotSender<T>(Option<Sender<RustOneshotType<T>>>);

/// The exclusive right to observe how a channel was resolved, once.
#[verifier::reject_recursive_types(T)]
pub struct RustOneshotReceiver<T> {
    inner: Receiver<RustOneshotType<T>>,
    spent: bool,
}

/// The two halves of a fresh channel.
#[verifier::reject_recursive_types(T)]
pub struct RustOneshotChannel<T> {
    pub sender: Box<RustOneshotSender<T>>,
    pub receiver: Box<RustOneshotReceiver<T>>,
}

/// The channel for 64-bit floating-point values. A value travels as its
/// IEEE 754 bit pattern, so what arrives is what was sent, bit for bit.
pub struct RustOneshotChannelF64 {
    pub sender: Box<RustOneshotSender<u64>>,
    pub receiver: Box<RustOneshotReceiver<u64>>,
}

impl<T> RustOneshotSender<T> {
    /// Whether `send` is still owed: true from creation until the one call
    /// that resolves the channel.
    pub closed spec fn armed(&self) -> bool {
        self.0 is Some
    }

    /// Whether `send` is still owed.
    pub fn is_armed(&self) -> (armed: bool)
        ensures
            armed == self.armed(),
    {
        self.0.is_some()
    }

    /// Resolves the channel to `outcome` and wakes the task that waits for
    /// it, if one is registered. `Err` hands `outcome` back: the receiver was
    /// gone, and nobody will see it.
    pub fn resolve(&mut self, outcome: RustOneshotType<T>) -> (sent: Result<(), RustOneshotType<T>>)
        requires
            old(self).armed(),
        ensures
            !final(self).armed(),
            sent is Err ==> sent->Err_0 == outcome,
    {
        match self.0.take() {
            Some(sender) => oneshot_send(sender, outcome),
            None => Err(outcome),
        }
    }

    /// Resolves the channel to `value` if one is supplied, else to a failure
    /// that carries `error`. `Err` hands back what could not be delivered
    /// because the receiver was gone.
    pub fn send(&mut self, value: Option<T>, error: &str) -> (sent: Result<(), RustOneshotType<T>>)
        requires
            old(self).armed(),
        ensures
            !final(self).armed(),
            sent is Err ==> is_resolution(sent->Err_0, value, error@),
    {
        self.resolve(resolution(value, error))
    }
}

impl<T> RustOneshotReceiver<T> {
    /// Whether a terminal outcome has been handed out: nothing is left to
    /// observe then.
    pub closed spec fn spent(&self) -> bool {
        self.spent
    }

    /// Whether a terminal outcome has been handed out.
    pub fn is_spent(&self) -> (spent: bool)
        ensures
            spent == self.spent(),
    {
        self.spent
    }

    /// Looks at the channel without waiting and without registering for a
    /// wake. A terminal outcome is handed out once and spends the receiver;
    /// `Pending` leaves it as it was.
    pub fn try_receive(&mut self) -> (outcome: Received<T>)
        requires
            !old(self).spent(),
        ensures
            final(self).spent() == outcome.is_terminal(),
    {
        let outcome = Received::from_raw(oneshot_try_recv(&mut self.inner));
        self.spent = outcome.terminal();
        outcome
    }

    /// Looks at the channel and, where it is unresolved and a `waker` is
    /// given, leaves the waker behind as the task to wake on resolution.
    /// Without a waker this is `try_receive`.
    pub fn receive_or_suspend(&mut self, waker: Option<&Waker>) -> (outcome: Received<T>)
        requires
            !old(self).spent(),
        ensures
            final(self).spent() == outcome.is_terminal(),
    {
        match waker {
            None => self.try_receive(),
            Some(waker) => {
                let outcome = Received::from_raw(oneshot_poll(&mut self.inner, waker));
                self.spent = outcome.terminal();
                outcome
            },
        }
    }

    /// `receive_or_suspend` in the boundary's convention: the code says what
    /// was observed, a value is written to `maybe_result`, and an error text
    /// is appended to `error`. Which outcome is observed is for the channel
    /// to say; whichever it is, the three are its report, and the receiver is
    /// spent exactly if it is terminal. So the error code comes with the
    /// failure's message appended, the cancellation code with the fixed
    /// cancellation text appended, and either with nothing else changed.
    pub fn recv(
        &mut self,
        maybe_result: &mut T,
        error: &mut String,
        waker: Option<&Waker>,
    ) -> (code: i32)
        requires
            !old(self).spent(),
        ensures
            exists|outcome: Received<T>|
                {
                    &&& #[trigger] outcome.is_reported_as(
                        code,
                        *old(maybe_result),
                        *final(maybe_result),
                        old(error)@,
                        final(error)@,
                    )
                    &&& final(self).spent() == outcome.is_terminal()
                },
            code == RECV_RESULT_PENDING || code == RECV_RESULT_READY || code == RECV_RESULT_ERROR
                || code == RECV_RESULT_CANCELLED,
            final(self).spent() == (code != RECV_RESULT_PENDING),
            code != RECV_RESULT_READY ==> *final(maybe_result) == *old(maybe_result),
            code == RECV_RESULT_PENDING || code == RECV_RESULT_READY ==> final(error)@ == old(
                error,
            )@,
            code == RECV_RESULT_ERROR ==> old(error)@.is_prefix_of(final(error)@),
            code == RECV_RESULT_CANCELLED ==> final(error)@ == old(error)@ + CANCELLED_MESSAGE@,
    {
        let outcome = self.receive_or_suspend(waker);
        let ghost seen = outcome;
        let ghost text = outcome.error_text();
        let ghost before = error@;
        let ghost slot = *maybe_result;
        let code = outcome.report(maybe_result, error);
        proof {
            assert(before + Seq::<char>::empty() =~= before);
            assert((before + text).subrange(0, before.len() as int) =~= before);
            assert(seen.is_reported_as(code, slot, *maybe_result, before, error@));
        }
        code
    }
}

/// Creates a channel: a sender that has yet to send, and a receiver that has
/// yet to observe.
pub fn channel<T>() -> (halves: RustOneshotChannel<T>)
    ensures
        halves.sender.armed(),
        !halves.receiver.spent(),
{
    let (sender, receiver) = oneshot_channel();
    RustOneshotChannel {
        sender: Box::new(RustOneshotSender(Some(sender))),
        receiver: Box::new(RustOneshotReceiver { inner: receiver, spent: false }),
    }
}

/// The outcomes that a receiver hands out over its life when the underlying
/// channel answers its looks with `raws`, one after another: it looks until
/// an outcome is terminal, and never again.
pub open spec fn observations<T>(raws: Seq<RawReceived<T>>) -> Seq<Received<T>>
    decreases raws.len(),
{
    if raws.len() == 0 {
        Seq::empty()
    } else if classify(raws[0]).is_terminal() {
        seq![classify(raws[0])]
    } else {
        seq![classify(raws[0])] + observations(raws.drop_first())
    }
}

/// Whatever the channel answers, a receiver hands out at most one terminal
/// outcome, and it is the last thing that it hands out: every outcome before
/// the last is `Pending`.
pub proof fn law_one_terminal_outcome<T>(raws: Seq<RawReceived<T>>)
    ensures
        observations(raws).len() <= raws.len(),
        forall|i: int|
            0 <= i < observations(raws).len() - 1 ==> (#[trigger] observations(raws)[i]) is Pending,
    decreases raws.len(),
{
    if raws.len() > 0 && !classify(raws[0]).is_terminal() {
        law_one_terminal_outcome(raws.drop_first());
    }
}

/// While the channel is unresolved every look yields `Pending`, however often
/// it is repeated, and the first look after resolution yields the outcome that
/// the channel was resolved to, whatever may be answered later: if the
/// answers before `first` say "nothing sent yet" and the answer at `first`
/// does not, the receiver hands out `first` times `Pending` and then the
/// outcome of that answer, and nothing more.
pub proof fn law_pending_until_resolved<T>(raws: Seq<RawReceived<T>>, first: int)
    requires
        0 <= first < raws.len(),
        forall|i: int| 0 <= i < first ==> raws[i] == Ok::<Option<RustOneshotType<T>>, Canceled>(None),
        raws[first] != Ok::<Option<RustOneshotType<T>>, Canceled>(None),
    ensures
        observations(raws).len() == first + 1,
        forall|i: int| 0 <= i < first ==> (#[trigger] observations(raws)[i]) is Pending,
        observations(raws)[first] == classify(raws[first]),
        observations(raws)[first].is_terminal(),
    decreases first,
{
    if first > 0 {
        let rest = raws.drop_first();
        assert forall|i: int| 0 <= i < first - 1 implies rest[i] == Ok::<
            Option<RustOneshotType<T>>,
            Canceled,
        >(None) by {
            assert(rest[i] == raws[i + 1]);
        }
        law_pending_until_resolved(rest, first - 1);
        assert(raws[0] == Ok::<Option<RustOneshotType<T>>, Canceled>(None));
        assert forall|i: int| 0 <= i < first implies (#[trigger] observations(raws)[i]) is Pending by {
            if i > 0 {
                assert(observations(raws)[i] == observations(rest)[i - 1]);
            }
        }
    }
}

/// A sender that goes away without sending leaves the receiver `Cancelled`:
/// not `Errored`, and not `Pending` for ever. If the answers before `first`
/// say "nothing sent yet" and the answer at `first` says that the sender is
/// gone, the last outcome handed out is `Cancelled`.
pub proof fn law_dropped_sender_cancels<T>(raws: Seq<RawReceived<T>>, first: int)
    requires
        0 <= first < raws.len(),
        forall|i: int| 0 <= i < first ==> raws[i] == Ok::<Option<RustOneshotType<T>>, Canceled>(None),
        raws[first] is Err,
    ensures
        observations(raws).len() == first + 1,
        observations(raws).last() is Cancelled,
{
    law_pending_until_resolved(raws, first);
}


impl RustOneshotChannelF64 {
    /// Creates the channel for 64-bit floating-point values.
    pub fn new() -> (halves: Self)
        ensures
            halves.sender.armed(),
            !halves.receiver.spent(),
    {
        let halves = channel();
        RustOneshotChannelF64 { sender: halves.sender, receiver: halves.receiver }
    }
}

} // verus!
