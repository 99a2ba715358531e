//! The oneshot channel: a rendezvous protocol for exactly one value, kept in
//! a single [`PingPongCell`] slot.

use vstd::prelude::*;
use crate::cell::PingPongCell;

verus! {

/// Which side of the channel registered a wake handle.
#[derive(Clone, Copy, Debug, PartialEq, Eq)]
pub enum Party {
    SenderSide,
    ReceiverSide,
}

/// The state a channel keeps in its cell. An empty slot is the idle state:
/// no value has been sent and nobody is suspended.
pub enum ChannelState<W, T> {
    /// A party is suspended and has registered its wake handle.
    Waiting(Party, W),
    /// The sender deposited a value that the receiver has not collected yet.
    Ready(T),
    /// One side is gone; no further handoff can happen.
    Closed,
}

/// The single error: the other side is gone, or the channel was closed.
#[derive(Clone, Copy, Debug, PartialEq, Eq)]
pub struct Closed;

/// The sending half's single-use token. Only [`oneshot`] mints one, and every
/// operation consumes it by value, so a spent sender cannot act again.
#[derive(Debug)]
pub struct Sender {
    seal: (),
}

/// The receiving half's single-use token, minted only by [`oneshot`].
#[derive(Debug)]
pub struct Receiver {
    seal: (),
}

/// What a `send` did.
#[derive(Debug, PartialEq, Eq)]
pub enum SendResult<W, T> {
    /// The value is in the slot. If a waiter was registered, its handle comes
    /// back here and must now be invoked, outside the transaction.
    Sent(Option<W>),
    /// The channel is closed; the value comes back to the caller.
    Closed(T),
}

/// What one step of the sender's wait loop decided.
#[derive(Clone, Copy, Debug, PartialEq, Eq)]
pub enum WaitStep {
    /// A receiver is registered as waiting: it is safe to proceed to send.
    Proceed,
    /// The sender's own handle is registered; suspend and step again on wake.
    Suspend,
    /// The channel is closed.
    Closed,
}

/// What a receiver's poll resolved to.
#[derive(Debug, PartialEq, Eq)]
pub enum PollOutcome<W, T> {
    /// The handoff is over: the value, or `Closed` if the sender is gone.
    Resolved(Result<T, Closed>),
    /// Nothing to collect yet; the receiver's handle is now registered. A
    /// displaced handle, if any, must be invoked outside the transaction.
    Pending(Option<W>),
}

/// The channel state after `send(value)`.
pub open spec fn send_next<W, T>(state: Option<ChannelState<W, T>>, value: T) -> Option<
    ChannelState<W, T>,
> {
    match state {
        Some(ChannelState::Closed) => Some(ChannelState::Closed),
        _ => Some(ChannelState::Ready(value)),
    }
}

/// What `send(value)` returns, including the handle to notify.
pub open spec fn send_outcome<W, T>(state: Option<ChannelState<W, T>>, value: T) -> SendResult<
    W,
    T,
> {
    match state {
        Some(ChannelState::Closed) => SendResult::Closed(value),
        Some(ChannelState::Waiting(_, handle)) => SendResult::Sent(Some(handle)),
        _ => SendResult::Sent(None),
    }
}

/// The channel state after one step of the sender's wait loop with a fresh
/// handle `wake`. A registration left by the sender itself is replaced by the
/// fresh handle; only a receiver-side registration is left in place.
pub open spec fn wait_next<W, T>(state: Option<ChannelState<W, T>>, wake: W) -> Option<
    ChannelState<W, T>,
> {
    match state {
        Some(ChannelState::Closed) => Some(ChannelState::Closed),
        Some(ChannelState::Waiting(Party::ReceiverSide, handle)) => Some(
            ChannelState::Waiting(Party::ReceiverSide, handle),
        ),
        _ => Some(ChannelState::Waiting(Party::SenderSide, wake)),
    }
}

/// What one step of the sender's wait loop decides: proceed only on a
/// cross-role match, that is, when the registered waiter is the receiver.
pub open spec fn wait_outcome<W, T>(state: Option<ChannelState<W, T>>) -> WaitStep {
    match state {
        Some(ChannelState::Closed) => WaitStep::Closed,
        Some(ChannelState::Waiting(Party::ReceiverSide, _)) => WaitStep::Proceed,
        _ => WaitStep::Suspend,
    }
}

/// The channel state after a receiver's poll with handle `wake`: a resolved
/// poll consumes the slot; an unresolved one registers `wake`.
pub open spec fn poll_next<W, T>(state: Option<ChannelState<W, T>>, wake: W) -> Option<
    ChannelState<W, T>,
> {
    match state {
        Some(ChannelState::Closed) => None,
        Some(ChannelState::Ready(_)) => None,
        _ => Some(ChannelState::Waiting(Party::ReceiverSide, wake)),
    }
}

/// What a receiver's poll resolves to, including the displaced handle.
pub open spec fn poll_outcome<W, T>(state: Option<ChannelState<W, T>>) -> PollOutcome<W, T> {
    match state {
        Some(ChannelState::Closed) => PollOutcome::Resolved(Err(Closed)),
        Some(ChannelState::Ready(value)) => PollOutcome::Resolved(Ok(value)),
        Some(ChannelState::Waiting(_, handle)) => PollOutcome::Pending(Some(handle)),
        None => PollOutcome::Pending(None),
    }
}

/// The channel state after the sender closes: an uncollected value is left
/// in place, everything else becomes `Closed`.
pub open spec fn close_sender_next<W, T>(state: Option<ChannelState<W, T>>) -> Option<
    ChannelState<W, T>,
> {
    match state {
        Some(ChannelState::Ready(value)) => Some(ChannelState::Ready(value)),
        _ => Some(ChannelState::Closed),
    }
}

/// The channel state after the receiver closes: always `Closed`, discarding
/// even an uncollected value, as fits a single-value handoff.
pub open spec fn close_receiver_next<W, T>(state: Option<ChannelState<W, T>>) -> Option<
    ChannelState<W, T>,
> {
    Some(ChannelState::Closed)
}

/// The handle a closing or registering transition displaces and must notify:
/// the one registered by a waiting party, if any.
pub open spec fn displaced_handle<W, T>(state: Option<ChannelState<W, T>>) -> Option<W> {
    match state {
        Some(ChannelState::Waiting(_, handle)) => Some(handle),
        _ => None,
    }
}

/// The state shared by the two halves of a channel: one cell whose slot
/// holds the channel state.
///
/// Each `&mut self` method is one transaction. A shell that lets the two
/// halves act from different threads must guard the endpoint with a
/// mutual-exclusion primitive, perform one method call per critical section,
/// and invoke any returned wake handle after the critical section ends.
pub struct SharedEndpoint<W, T> {
    cell: PingPongCell<ChannelState<W, T>>,
}

impl<W, T> View for SharedEndpoint<W, T> {
    type V = Option<ChannelState<W, T>>;

    closed spec fn view(&self) -> Option<ChannelState<W, T>> {
        self.cell@
    }
}

/// Creates a connected channel: the shared endpoint, idle, and its two
/// single-use halves.
pub fn oneshot<W, T>() -> (r: (SharedEndpoint<W, T>, Sender, Receiver))
    ensures
        r.0@ is None,
{
    (SharedEndpoint { cell: PingPongCell::new(None) }, Sender { seal: () }, Receiver { seal: () })
}

impl<W, T> SharedEndpoint<W, T> {
    /// Deposits `value` for the receiver, consuming the sender. On a closed
    /// channel the value comes back untouched and the state is unchanged;
    /// otherwise the slot becomes `Ready(value)` and the handle of a
    /// registered waiter is returned for notification.
    pub fn send(&mut self, sender: Sender, value: T) -> (r: SendResult<W, T>)
        ensures
            final(self)@ == send_next(old(self)@, value),
            r == send_outcome(old(self)@, value),
    {
        let _ = sender;
        match self.cell.take() {
            Some(ChannelState::Closed) => {
                self.cell.put(ChannelState::Closed);
                SendResult::Closed(value)
            },
            Some(ChannelState::Waiting(_, handle)) => {
                self.cell.put(ChannelState::Ready(value));
                SendResult::Sent(Some(handle))
            },
            _ => {
                self.cell.put(ChannelState::Ready(value));
                SendResult::Sent(None)
            },
        }
    }

    /// One step of the sender's wait loop, with a fresh handle `wake` tied
    /// to the current suspension. Proceeds only when a receiver is
    /// registered; a leftover sender-side registration is replaced by the
    /// fresh handle and the sender suspends again. The token comes back
    /// unless the channel is closed.
    pub fn wait_step(&mut self, sender: Sender, wake: W) -> (r: (Option<Sender>, WaitStep))
        ensures
            final(self)@ == wait_next(old(self)@, wake),
            r.1 == wait_outcome(old(self)@),
            (r.0 is Some) == !(wait_outcome(old(self)@) is Closed),
    {
        match self.cell.take() {
            Some(ChannelState::Closed) => {
                let _ = sender;
                self.cell.put(ChannelState::Closed);
                (None, WaitStep::Closed)
            },
            Some(ChannelState::Waiting(Party::ReceiverSide, handle)) => {
                self.cell.put(ChannelState::Waiting(Party::ReceiverSide, handle));
                (Some(sender), WaitStep::Proceed)
            },
            _ => {
                self.cell.put(ChannelState::Waiting(Party::SenderSide, wake));
                (Some(sender), WaitStep::Suspend)
            },
        }
    }

    /// One poll of the receiver, with a fresh handle `wake` tied to the
    /// current suspension. Resolves with the value or with `Closed`,
    /// consuming the slot and the token; otherwise registers `wake`, hands
    /// the token back, and returns any displaced handle for notification.
    pub fn poll_receive(&mut self, receiver: Receiver, wake: W) -> (r: (
        Option<Receiver>,
        PollOutcome<W, T>,
    ))
        ensures
            final(self)@ == poll_next(old(self)@, wake),
            r.1 == poll_outcome(old(self)@),
            (r.0 is Some) == (poll_outcome(old(self)@) is Pending),
    {
        match self.cell.take() {
            Some(ChannelState::Closed) => {
                let _ = receiver;
                (None, PollOutcome::Resolved(Err(Closed)))
            },
            Some(ChannelState::Ready(value)) => {
                let _ = receiver;
                (None, PollOutcome::Resolved(Ok(value)))
            },
            Some(ChannelState::Waiting(_, handle)) => {
                self.cell.put(ChannelState::Waiting(Party::ReceiverSide, wake));
                (Some(receiver), PollOutcome::Pending(Some(handle)))
            },
            None => {
                self.cell.put(ChannelState::Waiting(Party::ReceiverSide, wake));
                (Some(receiver), PollOutcome::Pending(None))
            },
        }
    }

    /// Closes the sending side, consuming the sender. A registered waiter's
    /// handle comes back for notification; an uncollected value stays in
    /// place for the receiver.
    pub fn close_sender(&mut self, sender: Sender) -> (wake: Option<W>)
        ensures
            final(self)@ == close_sender_next(old(self)@),
            wake == displaced_handle(old(self)@),
    {
        let _ = sender;
        match self.cell.take() {
            Some(ChannelState::Waiting(_, handle)) => {
                self.cell.put(ChannelState::Closed);
                Some(handle)
            },
            Some(ChannelState::Ready(value)) => {
                self.cell.put(ChannelState::Ready(value));
                None
            },
            _ => {
                self.cell.put(ChannelState::Closed);
                None
            },
        }
    }

    /// Closes the receiving side, consuming the receiver. The state becomes
    /// `Closed` unconditionally, discarding even an uncollected value; a
    /// registered waiter's handle comes back for notification.
    pub fn close_receiver(&mut self, receiver: Receiver) -> (wake: Option<W>)
        ensures
            final(self)@ == close_receiver_next(old(self)@),
            wake == displaced_handle(old(self)@),
    {
        let _ = receiver;
        match self.cell.take() {
            Some(ChannelState::Waiting(_, handle)) => {
                self.cell.put(ChannelState::Closed);
                Some(handle)
            },
            _ => {
                self.cell.put(ChannelState::Closed);
                None
            },
        }
    }
}

/// Law (handoff): sending into an idle channel leaves the value ready with
/// nobody to notify, and the receiver's poll then resolves with exactly that
/// value, consuming the slot, so no later poll can see it again.
pub proof fn lemma_handoff<W, T>(value: T, wake: W)
    ensures
        send_next(None::<ChannelState<W, T>>, value) == Some(ChannelState::<W, T>::Ready(value)),
        send_outcome(None::<ChannelState<W, T>>, value) == SendResult::<W, T>::Sent(None::<W>),
        poll_outcome(send_next(None::<ChannelState<W, T>>, value)) == PollOutcome::<W, T>::Resolved(
            Ok::<T, Closed>(value),
        ),
        poll_next(send_next(None::<ChannelState<W, T>>, value), wake) is None,
{
}

/// Law (no lost wakeup): whenever some party has its wake handle registered,
/// a send stores the value and hands exactly that handle back for
/// notification, and the woken receiver's re-examination resolves with the
/// value.
pub proof fn lemma_send_wakes_waiting_receiver<W, T>(party: Party, handle: W, value: T)
    ensures
        send_next(Some(ChannelState::<W, T>::Waiting(party, handle)), value) == Some(
            ChannelState::<W, T>::Ready(value),
        ),
        send_outcome(Some(ChannelState::<W, T>::Waiting(party, handle)), value)
            == SendResult::<W, T>::Sent(Some(handle)),
        poll_outcome(send_next(Some(ChannelState::<W, T>::Waiting(party, handle)), value))
            == PollOutcome::<W, T>::Resolved(Ok::<T, Closed>(value)),
{
}

/// Law (close wakes the waiter): closing the sender while a party is
/// suspended transitions the channel to `Closed` and hands back the
/// registered handle, and the woken receiver's re-examination resolves
/// `Err(Closed)`. Closing the receiver displaces the same handle.
pub proof fn lemma_close_wakes_waiting_party<W, T>(party: Party, handle: W)
    ensures
        close_sender_next(Some(ChannelState::<W, T>::Waiting(party, handle))) == Some(
            ChannelState::<W, T>::Closed,
        ),
        close_receiver_next(Some(ChannelState::<W, T>::Waiting(party, handle))) == Some(
            ChannelState::<W, T>::Closed,
        ),
        displaced_handle(Some(ChannelState::<W, T>::Waiting(party, handle))) == Some(handle),
        poll_outcome(Some(ChannelState::<W, T>::Closed)) == PollOutcome::<W, T>::Resolved(
            Err::<T, Closed>(Closed),
        ),
{
}

/// Law (handshake): once the receiver is registered as waiting, a wait step
/// of the sender resolves `Proceed` and leaves the registration in place,
/// whatever fresh handle the step brought; the send that follows then wakes
/// exactly the registered receiver and deposits the value for it.
pub proof fn lemma_wait_proceeds_for_waiting_receiver<W, T>(handle: W, fresh: W, value: T)
    ensures
        wait_outcome(Some(ChannelState::<W, T>::Waiting(Party::ReceiverSide, handle)))
            == WaitStep::Proceed,
        wait_next(Some(ChannelState::<W, T>::Waiting(Party::ReceiverSide, handle)), fresh) == Some(
            ChannelState::<W, T>::Waiting(Party::ReceiverSide, handle),
        ),
        send_outcome(
            wait_next(Some(ChannelState::<W, T>::Waiting(Party::ReceiverSide, handle)), fresh),
            value,
        ) == SendResult::<W, T>::Sent(Some(handle)),
{
}

/// Law (a sender cannot meet itself): a wait step that finds the sender's
/// own leftover registration does not proceed; it replaces the stale handle
/// with the fresh one and suspends again, so `Proceed` is resolved only on a
/// cross-role match.
pub proof fn lemma_wait_ignores_own_registration<W, T>(stale: W, fresh: W)
    ensures
        wait_outcome::<W, T>(Some(ChannelState::Waiting(Party::SenderSide, stale)))
            == WaitStep::Suspend,
        wait_next(Some(ChannelState::<W, T>::Waiting(Party::SenderSide, stale)), fresh) == Some(
            ChannelState::<W, T>::Waiting(Party::SenderSide, fresh),
        ),
{
}

/// Law (wakes are only hints): a receiver poll that finds a registration,
/// its own included, resolves nothing; it re-registers with the fresh handle
/// and displaces the old one. A spurious or duplicate wake therefore leads
/// at worst to another registration, never to a lost or invented value.
pub proof fn lemma_poll_reregisters<W, T>(party: Party, handle: W, fresh: W)
    ensures
        poll_next(Some(ChannelState::<W, T>::Waiting(party, handle)), fresh) == Some(
            ChannelState::<W, T>::Waiting(Party::ReceiverSide, fresh),
        ),
        poll_outcome(Some(ChannelState::<W, T>::Waiting(party, handle)))
            == PollOutcome::<W, T>::Pending(Some(handle)),
{
}

/// Law (closed is terminal): on a closed channel no operation succeeds.
/// A send refuses and returns the value, a wait step reports `Closed`, a
/// poll resolves `Err(Closed)`, and closing either side changes nothing.
pub proof fn lemma_closed_no_success<W, T>(wake: W, value: T)
    ensures
        send_next(Some(ChannelState::<W, T>::Closed), value) == Some(ChannelState::<W, T>::Closed),
        send_outcome(Some(ChannelState::<W, T>::Closed), value) == SendResult::<W, T>::Closed(
            value,
        ),
        wait_next(Some(ChannelState::<W, T>::Closed), wake) == Some(ChannelState::<W, T>::Closed),
        wait_outcome(Some(ChannelState::<W, T>::Closed)) == WaitStep::Closed,
        poll_outcome(Some(ChannelState::<W, T>::Closed)) == PollOutcome::<W, T>::Resolved(
            Err::<T, Closed>(Closed),
        ),
        close_sender_next(Some(ChannelState::<W, T>::Closed)) == Some(
            ChannelState::<W, T>::Closed,
        ),
        close_receiver_next(Some(ChannelState::<W, T>::Closed)) == Some(
            ChannelState::<W, T>::Closed,
        ),
        displaced_handle(Some(ChannelState::<W, T>::Closed)) is None,
{
}

} // verus!
