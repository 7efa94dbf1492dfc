use std::sync::mpsc::{channel, TryRecvError};

use smt_toggle::app::{set_tray_receiver, tray_message, Message, TrayInbox};
use smt_toggle::tray::{Tray, TrayEvent, QUIT_LABEL, SHOW_LABEL, TOOLTIP};

fn id(text: &str) -> String {
    String::from(text)
}

#[test]
fn menu_texts() {
    assert_eq!(SHOW_LABEL, "Show");
    assert_eq!(QUIT_LABEL, "Quit");
    assert_eq!(TOOLTIP, "System Settings");
}

#[test]
fn quit_item_means_quit() {
    let (sender, _receiver) = channel();
    let tray = Tray::new(sender, Some(id("1001")), id("1002"));
    assert_eq!(tray.event_for(&id("1002")), Some(TrayEvent::Quit));
}

#[test]
fn show_item_means_show_window() {
    let (sender, _receiver) = channel();
    let tray = Tray::new(sender, Some(id("1001")), id("1002"));
    assert_eq!(tray.event_for(&id("1001")), Some(TrayEvent::ShowWindow));
}

#[test]
fn unknown_items_mean_nothing() {
    let (sender, _receiver) = channel();
    let tray = Tray::new(sender, Some(id("1001")), id("1002"));
    assert_eq!(tray.event_for(&id("1003")), None);
    assert_eq!(tray.event_for(&id("")), None);
    assert_eq!(tray.event_for(&id("100")), None);
    assert_eq!(tray.event_for(&id("10011")), None);
    assert_eq!(tray.event_for(&id("Quit")), None);
}

#[test]
fn menu_with_quit_alone() {
    let (sender, receiver) = channel();
    let tray = Tray::new(sender, None, id("q"));
    assert_eq!(tray.forward(&id("q")), Some(TrayEvent::Quit));
    assert_eq!(tray.forward(&id("s")), None);
    assert_eq!(tray.forward(&id("")), None);
    assert_eq!(receiver.try_recv(), Ok(TrayEvent::Quit));
    assert_eq!(receiver.try_recv(), Err(TryRecvError::Empty));
}

#[test]
fn quit_wins_where_both_items_share_an_identity() {
    let (sender, _receiver) = channel();
    let tray = Tray::new(sender, Some(id("same")), id("same"));
    assert_eq!(tray.event_for(&id("same")), Some(TrayEvent::Quit));
}

#[test]
fn forwarded_events_arrive_in_order() {
    let (sender, receiver) = channel();
    let tray = Tray::new(sender, Some(id("show")), id("quit"));
    assert_eq!(tray.forward(&id("show")), Some(TrayEvent::ShowWindow));
    assert_eq!(tray.forward(&id("other")), None);
    assert_eq!(tray.forward(&id("show")), Some(TrayEvent::ShowWindow));
    assert_eq!(tray.forward(&id("quit")), Some(TrayEvent::Quit));
    assert_eq!(receiver.try_recv(), Ok(TrayEvent::ShowWindow));
    assert_eq!(receiver.try_recv(), Ok(TrayEvent::ShowWindow));
    assert_eq!(receiver.try_recv(), Ok(TrayEvent::Quit));
    assert_eq!(receiver.try_recv(), Err(TryRecvError::Empty));
}

#[test]
fn forwarding_outlives_the_receiver() {
    let (sender, receiver) = channel();
    let tray = Tray::new(sender, Some(id("show")), id("quit"));
    drop(receiver);
    assert_eq!(tray.forward(&id("quit")), Some(TrayEvent::Quit));
    assert_eq!(tray.forward(&id("show")), Some(TrayEvent::ShowWindow));
}

#[test]
fn inbox_without_channel_sees_nothing() {
    let inbox = TrayInbox::new();
    assert!(!inbox.is_connected());
    assert!(inbox.poll().is_none());
    assert!(inbox.poll().is_none());
}

#[test]
fn inbox_hands_out_what_the_tray_sent() {
    let (sender, receiver) = channel();
    let tray = Tray::new(sender, Some(id("show")), id("quit"));
    let mut inbox = TrayInbox::new();
    set_tray_receiver(&mut inbox, receiver);
    assert!(inbox.is_connected());
    assert!(inbox.poll().is_none());
    tray.forward(&id("show"));
    tray.forward(&id("quit"));
    assert!(matches!(inbox.poll(), Some(Message::TrayEvent(TrayEvent::ShowWindow))));
    assert!(matches!(inbox.poll(), Some(Message::TrayEvent(TrayEvent::Quit))));
    assert!(inbox.poll().is_none());
}

#[test]
fn inbox_sees_nothing_once_the_tray_is_gone() {
    let (sender, receiver) = channel::<TrayEvent>();
    let mut inbox = TrayInbox::new();
    set_tray_receiver(&mut inbox, receiver);
    drop(sender);
    assert!(inbox.poll().is_none());
}

#[test]
fn inbox_takes_a_new_channel() {
    let (first, receiver) = channel();
    let mut inbox = TrayInbox::new();
    set_tray_receiver(&mut inbox, receiver);
    first.send(TrayEvent::Quit).unwrap();
    let (second, receiver) = channel();
    set_tray_receiver(&mut inbox, receiver);
    second.send(TrayEvent::ShowWindow).unwrap();
    assert!(matches!(inbox.poll(), Some(Message::TrayEvent(TrayEvent::ShowWindow))));
    assert!(inbox.poll().is_none());
}

#[test]
fn tray_message_wraps_the_event() {
    assert!(tray_message(None).is_none());
    assert!(matches!(
        tray_message(Some(TrayEvent::Quit)),
        Some(Message::TrayEvent(TrayEvent::Quit))
    ));
    assert!(matches!(
        tray_message(Some(TrayEvent::ShowWindow)),
        Some(Message::TrayEvent(TrayEvent::ShowWindow))
    ));
}
