use nightstand::channel::{ChannelClosed, CommandSlot, Received};
use nightstand::color::Rgb;

fn red() -> Vec<Rgb> {
    vec![Rgb::new(255, 0, 0)]
}

fn blue() -> Vec<Rgb> {
    vec![Rgb::new(0, 0, 255), Rgb::new(0, 0, 254)]
}

#[test]
fn fresh_slot_is_empty_and_open() {
    let mut slot = CommandSlot::new();
    assert!(!slot.has_pending());
    assert!(slot.consumer_alive());
    assert!(slot.producers_alive());
    assert_eq!(slot.receive(), Received::Empty);
}

#[test]
fn command_is_consumed_exactly_once() {
    let mut slot = CommandSlot::new();
    assert_eq!(slot.send(red()), Ok(()));
    assert!(slot.has_pending());
    assert_eq!(slot.receive(), Received::Command(red()));
    assert!(!slot.has_pending());
    assert_eq!(slot.receive(), Received::Empty);
}

#[test]
fn second_of_two_commands_is_the_one_observed() {
    let mut slot = CommandSlot::new();
    assert_eq!(slot.send(red()), Ok(()));
    assert_eq!(slot.send(blue()), Ok(()));
    assert_eq!(slot.receive(), Received::Command(blue()));
    assert_eq!(slot.receive(), Received::Empty);
}

#[test]
fn many_commands_leave_one_pending() {
    let mut slot = CommandSlot::new();
    for i in 0..=255u8 {
        assert_eq!(slot.send(vec![Rgb::new(i, i, i)]), Ok(()));
    }
    assert_eq!(slot.receive(), Received::Command(vec![Rgb::new(255, 255, 255)]));
    assert_eq!(slot.receive(), Received::Empty);
}

#[test]
fn empty_command_is_a_command() {
    let mut slot = CommandSlot::new();
    assert_eq!(slot.send(vec![]), Ok(()));
    assert_eq!(slot.receive(), Received::Command(vec![]));
}

#[test]
fn send_after_consumer_teardown_is_channel_closed() {
    let mut slot = CommandSlot::new();
    assert_eq!(slot.send(red()), Ok(()));
    slot.close_consumer();
    assert!(!slot.consumer_alive());
    assert!(!slot.has_pending());
    assert_eq!(slot.send(blue()), Err(ChannelClosed));
    assert!(!slot.has_pending());
    assert_eq!(slot.send(vec![]), Err(ChannelClosed));
}

#[test]
fn closed_is_reported_after_the_pending_command() {
    let mut slot = CommandSlot::new();
    assert_eq!(slot.send(red()), Ok(()));
    slot.close_producers();
    assert_eq!(slot.receive(), Received::Command(red()));
    assert_eq!(slot.receive(), Received::Closed);
    assert_eq!(slot.receive(), Received::Closed);
}

#[test]
fn empty_slot_without_producers_is_closed() {
    let mut slot = CommandSlot::new();
    slot.close_producers();
    assert!(!slot.producers_alive());
    assert!(slot.consumer_alive());
    assert_eq!(slot.receive(), Received::Closed);
}
