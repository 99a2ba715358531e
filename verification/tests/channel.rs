use ping_pong_cell::channel::{oneshot, Closed, PollOutcome, SendResult, WaitStep};

#[test]
fn success_one_thread() {
    let (mut ep, sender, receiver) = oneshot::<u32, bool>();
    assert_eq!(ep.send(sender, true), SendResult::Sent(None));
    let (token, outcome) = ep.poll_receive(receiver, 0u32);
    assert_eq!(outcome, PollOutcome::Resolved(Ok(true)));
    assert!(token.is_none());
}

#[test]
fn close_sender_one_thread() {
    let (mut ep, sender, receiver) = oneshot::<u32, bool>();
    assert_eq!(ep.close_sender(sender), None);
    let (token, outcome) = ep.poll_receive(receiver, 0u32);
    assert_eq!(outcome, PollOutcome::Resolved(Err(Closed)));
    assert!(token.is_none());
}

#[test]
fn close_receiver_one_thread() {
    let (mut ep, sender, receiver) = oneshot::<u32, bool>();
    assert_eq!(ep.close_receiver(receiver), None);
    assert_eq!(ep.send(sender, true), SendResult::Closed(true));
}

#[test]
fn wait_for_receiver() {
    let (mut ep, sender, receiver) = oneshot::<u32, bool>();
    let (receiver, outcome) = ep.poll_receive(receiver, 1u32);
    assert_eq!(outcome, PollOutcome::Pending(None));
    let receiver = receiver.expect("poll left the receiver suspended");
    let (sender, step) = ep.wait_step(sender, 2u32);
    assert_eq!(step, WaitStep::Proceed);
    let sender = sender.expect("wait resolved with the sender");
    assert_eq!(ep.send(sender, true), SendResult::Sent(Some(1)));
    let (token, outcome) = ep.poll_receive(receiver, 3u32);
    assert_eq!(outcome, PollOutcome::Resolved(Ok(true)));
    assert!(token.is_none());
}

#[test]
fn send_returns_handle_of_waiting_receiver() {
    let (mut ep, sender, receiver) = oneshot::<u32, bool>();
    let (receiver, outcome) = ep.poll_receive(receiver, 7u32);
    assert_eq!(outcome, PollOutcome::Pending(None));
    let receiver = receiver.expect("poll left the receiver suspended");
    assert_eq!(ep.send(sender, true), SendResult::Sent(Some(7)));
    let (token, outcome) = ep.poll_receive(receiver, 8u32);
    assert_eq!(outcome, PollOutcome::Resolved(Ok(true)));
    assert!(token.is_none());
}

#[test]
fn close_sender_wakes_waiting_receiver() {
    let (mut ep, sender, receiver) = oneshot::<u32, bool>();
    let (receiver, outcome) = ep.poll_receive(receiver, 7u32);
    assert_eq!(outcome, PollOutcome::Pending(None));
    let receiver = receiver.expect("poll left the receiver suspended");
    assert_eq!(ep.close_sender(sender), Some(7));
    let (token, outcome) = ep.poll_receive(receiver, 8u32);
    assert_eq!(outcome, PollOutcome::Resolved(Err(Closed)));
    assert!(token.is_none());
}

#[test]
fn sender_waits_before_receiver_arrives() {
    let (mut ep, sender, receiver) = oneshot::<u32, bool>();
    let (sender, step) = ep.wait_step(sender, 2u32);
    assert_eq!(step, WaitStep::Suspend);
    let sender = sender.expect("wait left the sender suspended");
    let (receiver, outcome) = ep.poll_receive(receiver, 5u32);
    assert_eq!(outcome, PollOutcome::Pending(Some(2)));
    let receiver = receiver.expect("poll left the receiver suspended");
    let (sender, step) = ep.wait_step(sender, 4u32);
    assert_eq!(step, WaitStep::Proceed);
    let sender = sender.expect("wait resolved with the sender");
    assert_eq!(ep.send(sender, true), SendResult::Sent(Some(5)));
    let (token, outcome) = ep.poll_receive(receiver, 6u32);
    assert_eq!(outcome, PollOutcome::Resolved(Ok(true)));
    assert!(token.is_none());
}

#[test]
fn wait_replaces_own_stale_registration() {
    let (mut ep, sender, receiver) = oneshot::<u32, bool>();
    let (sender, step) = ep.wait_step(sender, 2u32);
    assert_eq!(step, WaitStep::Suspend);
    let sender = sender.expect("wait left the sender suspended");
    let (sender, step) = ep.wait_step(sender, 4u32);
    assert_eq!(step, WaitStep::Suspend);
    assert!(sender.is_some());
    assert_eq!(ep.close_receiver(receiver), Some(4));
}

#[test]
fn wait_on_closed_channel() {
    let (mut ep, sender, receiver) = oneshot::<u32, bool>();
    assert_eq!(ep.close_receiver(receiver), None);
    let (sender, step) = ep.wait_step(sender, 2u32);
    assert_eq!(step, WaitStep::Closed);
    assert!(sender.is_none());
}

#[test]
fn close_receiver_discards_ready_value() {
    let (mut ep, sender, receiver) = oneshot::<u32, bool>();
    assert_eq!(ep.send(sender, true), SendResult::Sent(None));
    assert_eq!(ep.close_receiver(receiver), None);
}
