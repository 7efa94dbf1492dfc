//! The tray bridge: from activations of the tray menu to events for the
//! application.
//!
//! The menu has a `Quit` item and may have a `Show` item. The native menu
//! reports an activation by the identity of the item; [`Tray::forward`] turns
//! that into a [`TrayEvent`] and hands it to the channel that leads to the
//! application, and passes over identities it does not know.

use std::sync::mpsc::Sender;
use vstd::prelude::*;

verus! {

/// A request that the tray menu sends to the application.
#[derive(Debug, Clone, Copy, PartialEq, Eq, Structural)]
pub enum TrayEvent {
    ShowWindow,
    Quit,
}

/// Text of the menu item that shows the window.
pub const SHOW_LABEL: &'static str = "Show";

/// Text of the menu item that ends the process.
pub const QUIT_LABEL: &'static str = "Quit";

/// Text shown when the pointer rests on the tray icon.
pub const TOOLTIP: &'static str = "System Settings";

/// The identities of the menu's items as mathematical values.
pub struct MenuIds {
    /// Identity of the `Show` item, where the menu has one.
    pub show: Option<Seq<char>>,
    /// Identity of the `Quit` item.
    pub quit: Seq<char>,
}

/// The event that the activation of the item `activated` stands for: `Quit`
/// for the `Quit` item, `ShowWindow` for the `Show` item, none for any other.
pub open spec fn event_for(ids: MenuIds, activated: Seq<char>) -> Option<TrayEvent> {
    if activated == ids.quit {
        Some(TrayEvent::Quit)
    } else if ids.show == Some(activated) {
        Some(TrayEvent::ShowWindow)
    } else {
        None
    }
}

/// `std::sync::mpsc::Sender`, the sending end of a channel. It is carried
/// through as it is; nothing inside it is looked at.
#[verifier::external_type_specification]
#[verifier::external_body]
#[verifier::reject_recursive_types(T)]
pub struct ExSender<T>(Sender<T>);

/// `std::sync::mpsc::Sender::send`: puts the event on the channel without
/// waiting for the receiver. The result says whether the channel took it,
/// which it does not once the receiver is gone; nothing is claimed of it.
#[verifier::external_body]
fn send_event(sender: &Sender<TrayEvent>, event: TrayEvent) -> (taken: bool) {
    sender.send(event).is_ok()
}

/// The sending side of the bridge.
pub struct Tray {
    show_id: Option<String>,
    quit_id: String,
    event_sender: Sender<TrayEvent>,
}

impl View for Tray {
    type V = MenuIds;

    closed spec fn view(&self) -> MenuIds {
        MenuIds { show: self.show_id.deep_view(), quit: self.quit_id@ }
    }
}

impl Tray {
    /// A bridge for a menu whose items have the given identities, sending to
    /// `event_sender`.
    pub fn new(event_sender: Sender<TrayEvent>, show_id: Option<String>, quit_id: String) -> (tray:
        Self)
        ensures
            tray@ == (MenuIds { show: show_id.deep_view(), quit: quit_id@ }),
    {
        Tray { show_id, quit_id, event_sender }
    }

    /// The event that the activation of the item `activated` stands for.
    pub fn event_for(&self, activated: &String) -> (event: Option<TrayEvent>)
        ensures
            event == event_for(self@, activated@),
    {
        if self.quit_id == *activated {
            Some(TrayEvent::Quit)
        } else {
            match &self.show_id {
                Some(show_id) => if *show_id == *activated {
                    Some(TrayEvent::ShowWindow)
                } else {
                    None
                },
                None => None,
            }
        }
    }

    /// Handles the activation of the item `activated`: sends the event it
    /// stands for to the application, if it stands for one, and returns it.
    /// The send does not wait, and a receiver that is gone is no error here.
    pub fn forward(&self, activated: &String) -> (event: Option<TrayEvent>)
        ensures
            event == event_for(self@, activated@),
    {
        let event = self.event_for(activated);
        if let Some(e) = event {
            let _ = send_event(&self.event_sender, e);
        }
        event
    }
}

/// The `Quit` item always leads to `Quit`, whatever the other identities are.
pub proof fn lemma_quit_always_reachable(ids: MenuIds)
    ensures
        event_for(ids, ids.quit) == Some(TrayEvent::Quit),
{
}

/// The `Show` item leads to `ShowWindow`, provided its identity is not that
/// of the `Quit` item.
pub proof fn lemma_show_reachable(ids: MenuIds, show: Seq<char>)
    requires
        ids.show == Some(show),
        show != ids.quit,
    ensures
        event_for(ids, show) == Some(TrayEvent::ShowWindow),
{
}

/// An identity that belongs to no item of the menu leads to no event.
pub proof fn lemma_unknown_item_ignored(ids: MenuIds, activated: Seq<char>)
    requires
        activated != ids.quit,
        ids.show != Some(activated),
    ensures
        event_for(ids, activated) is None,
{
}

} // verus!
