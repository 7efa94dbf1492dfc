//! The application state machine.
//!
//! One value of [`App`] owns everything the user interface shows. It is driven
//! by [`Message`]s and answers each with the [`Task`] that the surrounding
//! runtime has to carry out. The window lifecycle is the transient one: a
//! closed window is gone, showing it again opens a new one, and the process
//! ends only on the tray's `Quit`.

use std::sync::mpsc::Receiver;
use vstd::prelude::*;
use crate::control::WriteError;
use crate::smt::{SmtStatus, label_of};
use crate::tray::TrayEvent;

verus! {

/// Identity of a window, as the window system reports it.
#[derive(Debug, Clone, Copy, PartialEq, Eq, Structural)]
pub struct WindowId(pub u64);

/// An event delivered to the state machine.
#[derive(Debug)]
pub enum Message {
    /// The user asked to switch SMT on (`true`) or off (`false`).
    SmtToggled(bool),
    /// A read of the control file finished.
    SmtStatusUpdated(SmtStatus),
    /// The periodic poll timer fired.
    RefreshStatus,
    /// A write finished, with the failure's text if it failed.
    SetSmtResult(Result<(), String>),
    /// The window system confirmed that a window is closed.
    WindowClosed(WindowId),
    /// The tray menu was used.
    TrayEvent(TrayEvent),
    /// Time to let the native menu loop handle its pending events.
    GtkTick,
    /// The window system confirmed that a window is open.
    WindowOpened(WindowId),
}

impl Message {
    /// The message that reports how a write attempt ended: a failure is
    /// reported by its explanation.
    pub fn write_finished(result: Result<(), WriteError>) -> (message: Message)
        ensures
            match result {
                Ok(_) => message == Message::SetSmtResult(Ok(())),
                Err(error) => message matches Message::SetSmtResult(Err(text)) && text@
                    == error@.message(),
            },
    {
        match result {
            Ok(_) => Message::SetSmtResult(Ok(())),
            Err(error) => Message::SetSmtResult(Err(error.message())),
        }
    }

    /// The message that reports the outcome of a read of the status: a
    /// failed read is reported as `Unknown`.
    pub fn status_read<E>(read: Result<SmtStatus, E>) -> (message: Message)
        ensures
            message == Message::SmtStatusUpdated(
                match read {
                    Ok(found) => found,
                    Err(_) => SmtStatus::Unknown,
                },
            ),
    {
        Message::SmtStatusUpdated(SmtStatus::or_unknown(read))
    }
}

/// The work that the runtime carries out after a message was handled.
#[derive(Debug, Clone, Copy, PartialEq, Eq, Structural)]
pub enum Task {
    /// Nothing to do.
    Idle,
    /// Write the SMT setting off the state machine's thread, then report
    /// `Message::SetSmtResult`.
    WriteSmt(bool),
    /// Read the SMT status off the state machine's thread, then report
    /// `Message::SmtStatusUpdated`.
    ReadStatus,
    /// Bring the given window to the front.
    FocusWindow(WindowId),
    /// Open a new window, then report `Message::WindowOpened`.
    OpenWindow,
    /// Run the native menu loop until it has no pending event.
    PumpTrayEvents,
    /// End the process with exit code 0.
    Exit,
}

/// The state machine's state as a mathematical value.
pub struct AppState {
    /// Last known status of the knob.
    pub status: SmtStatus,
    /// A write is in flight.
    pub pending: bool,
    /// Text of the most recent failure.
    pub last_error: Option<Seq<char>>,
    /// The window that is confirmed open, if any.
    pub window: Option<WindowId>,
}

/// The state after `message` was handled in state `s`.
pub open spec fn next_state(s: AppState, message: Message) -> AppState {
    match message {
        Message::SmtToggled(_) => AppState { pending: true, last_error: None, ..s },
        Message::SetSmtResult(Ok(_)) => AppState { pending: false, ..s },
        Message::SetSmtResult(Err(e)) => AppState { pending: false, last_error: Some(e@), ..s },
        Message::SmtStatusUpdated(status) => AppState { status: status, ..s },
        Message::WindowOpened(id) => AppState { window: Some(id), ..s },
        Message::WindowClosed(id) => if s.window == Some(id) {
            AppState { window: None, ..s }
        } else {
            s
        },
        Message::RefreshStatus => s,
        Message::GtkTick => s,
        Message::TrayEvent(_) => s,
    }
}

/// The task that follows when `message` is handled in state `s`.
pub open spec fn follow_up(s: AppState, message: Message) -> Task {
    match message {
        Message::SmtToggled(enabled) => Task::WriteSmt(enabled),
        Message::SetSmtResult(Ok(_)) => Task::ReadStatus,
        Message::SetSmtResult(Err(_)) => Task::Idle,
        Message::SmtStatusUpdated(_) => Task::Idle,
        Message::WindowOpened(_) => Task::ReadStatus,
        Message::WindowClosed(_) => Task::Idle,
        Message::RefreshStatus => Task::ReadStatus,
        Message::GtkTick => Task::PumpTrayEvents,
        Message::TrayEvent(TrayEvent::ShowWindow) => match s.window {
            Some(id) => Task::FocusWindow(id),
            None => Task::OpenWindow,
        },
        Message::TrayEvent(TrayEvent::Quit) => Task::Exit,
    }
}

/// A source of messages that the runtime listens to.
#[derive(Debug, Clone, Copy, PartialEq, Eq, Structural)]
pub enum Subscription {
    /// Close notifications of the window system, as `Message::WindowClosed`.
    WindowClosed,
    /// `Message::GtkTick`, once per interval.
    GtkTick { every_millis: u64 },
    /// What the tray sends, as `Message::TrayEvent`; the inbox is asked once
    /// per interval.
    TrayEvents { every_millis: u64 },
    /// `Message::RefreshStatus`, once per interval.
    RefreshStatus { every_millis: u64 },
}

/// Interval at which the native menu loop is given its turn.
pub const GTK_TICK_MILLIS: u64 = 100;

/// Interval at which the tray inbox is asked for an event.
pub const TRAY_POLL_MILLIS: u64 = 50;

/// Interval at which the status is read while a window is open.
pub const STATUS_POLL_MILLIS: u64 = 3000;

/// The sources listened to in state `s`: the status is polled only while a
/// window is open.
pub open spec fn subscriptions_of(s: AppState) -> Seq<Subscription> {
    let always = seq![
        Subscription::WindowClosed,
        Subscription::GtkTick { every_millis: GTK_TICK_MILLIS },
        Subscription::TrayEvents { every_millis: TRAY_POLL_MILLIS },
    ];
    if s.window is Some {
        always.push(Subscription::RefreshStatus { every_millis: STATUS_POLL_MILLIS })
    } else {
        always
    }
}

/// One line of the window's content.
#[derive(Debug)]
pub enum Row {
    /// The switch with its text and position. While `busy` it takes no input.
    Toggle { label: String, is_on: bool, busy: bool },
    /// The status as plain text, where no switch is offered.
    Status { text: String },
    /// A remark below the status.
    Note { text: String },
}

/// A line of the window's content as a mathematical value.
pub enum RowView {
    Toggle { label: Seq<char>, is_on: bool, busy: bool },
    Status { text: Seq<char> },
    Note { text: Seq<char> },
}

impl DeepView for Row {
    type V = RowView;

    open spec fn deep_view(&self) -> RowView {
        match self {
            Row::Toggle { label, is_on, busy } => RowView::Toggle {
                label: label@,
                is_on: *is_on,
                busy: *busy,
            },
            Row::Status { text } => RowView::Status { text: text@ },
            Row::Note { text } => RowView::Note { text: text@ },
        }
    }
}

/// The line that shows the status: a switch where the status is
/// controllable, plain text where it is not.
pub open spec fn status_row(s: AppState) -> RowView {
    if s.status == SmtStatus::On || s.status == SmtStatus::Off {
        RowView::Toggle {
            label: label_of(s.status),
            is_on: s.status == SmtStatus::On,
            busy: s.pending,
        }
    } else {
        RowView::Status { text: label_of(s.status) }
    }
}

/// The window's content in state `s`: the status, a remark while a write is
/// in flight, and the last error if there is one.
pub open spec fn rows_of(s: AppState) -> Seq<RowView> {
    let status = seq![status_row(s)];
    let progress = if s.pending {
        seq![RowView::Note { text: "Applying changes..."@ }]
    } else {
        Seq::<RowView>::empty()
    };
    let error = match s.last_error {
        Some(e) => seq![RowView::Note { text: "Error: "@ + e }],
        None => Seq::<RowView>::empty(),
    };
    status + progress + error
}

/// The single owner of all state that the user interface shows.
pub struct App {
    smt_status: SmtStatus,
    is_toggling: bool,
    error_message: Option<String>,
    window_id: Option<WindowId>,
}

impl App {
    /// The state as a mathematical value.
    pub closed spec fn state(&self) -> AppState {
        AppState {
            status: self.smt_status,
            pending: self.is_toggling,
            last_error: match self.error_message {
                Some(e) => Some(e@),
                None => None,
            },
            window: self.window_id,
        }
    }
}

impl App {
    /// Starts with the status that was read at startup, no write in flight,
    /// no error and no window, and asks for the first window.
    pub fn new(status: SmtStatus) -> (start: (Self, Task))
        ensures
            start.0.state() == (AppState {
                status: status,
                pending: false,
                last_error: None,
                window: None,
            }),
            start.1 == Task::OpenWindow,
    {
        let app = App {
            smt_status: status,
            is_toggling: false,
            error_message: None,
            window_id: None,
        };
        (app, Task::OpenWindow)
    }

    /// Handles one message: moves to the next state and names the task that follows.
    pub fn update(&mut self, message: Message) -> (task: Task)
        ensures
            final(self).state() == next_state(old(self).state(), message),
            task == follow_up(old(self).state(), message),
    {
        match message {
            Message::SmtToggled(enabled) => {
                self.is_toggling = true;
                self.error_message = None;
                Task::WriteSmt(enabled)
            },
            Message::SetSmtResult(result) => {
                self.is_toggling = false;
                match result {
                    Ok(_) => Task::ReadStatus,
                    Err(e) => {
                        self.error_message = Some(e);
                        Task::Idle
                    },
                }
            },
            Message::SmtStatusUpdated(status) => {
                self.smt_status = status;
                Task::Idle
            },
            Message::RefreshStatus => Task::ReadStatus,
            Message::WindowClosed(id) => {
                if self.window_id == Some(id) {
                    self.window_id = None;
                }
                Task::Idle
            },
            Message::WindowOpened(id) => {
                self.window_id = Some(id);
                Task::ReadStatus
            },
            Message::GtkTick => Task::PumpTrayEvents,
            Message::TrayEvent(tray_event) => match tray_event {
                TrayEvent::ShowWindow => match self.window_id {
                    Some(id) => Task::FocusWindow(id),
                    None => Task::OpenWindow,
                },
                TrayEvent::Quit => Task::Exit,
            },
        }
    }

    /// Last known status of the knob.
    pub fn smt_status(&self) -> (status: SmtStatus)
        ensures
            status == self.state().status,
    {
        self.smt_status
    }

    /// Whether a write is in flight.
    pub fn is_toggling(&self) -> (pending: bool)
        ensures
            pending == self.state().pending,
    {
        self.is_toggling
    }

    /// Text of the most recent failure, if one is on record.
    pub fn error_message(&self) -> (error: Option<&String>)
        ensures
            error.deep_view() == self.state().last_error,
    {
        self.error_message.as_ref()
    }

    /// The window that is confirmed open, if any.
    pub fn window_id(&self) -> (window: Option<WindowId>)
        ensures
            window == self.state().window,
    {
        self.window_id
    }

    /// The sources of messages to listen to in the current state.
    pub fn subscription(&self) -> (sources: Vec<Subscription>)
        ensures
            sources@ == subscriptions_of(self.state()),
    {
        let mut sources: Vec<Subscription> = Vec::new();
        sources.push(Subscription::WindowClosed);
        sources.push(Subscription::GtkTick { every_millis: GTK_TICK_MILLIS });
        sources.push(Subscription::TrayEvents { every_millis: TRAY_POLL_MILLIS });
        if self.window_id.is_some() {
            sources.push(Subscription::RefreshStatus { every_millis: STATUS_POLL_MILLIS });
        }
        sources
    }

    /// The content of a window in the current state. Every window shows the same.
    pub fn view(&self, _window_id: WindowId) -> (rows: Vec<Row>)
        ensures
            rows.deep_view() == rows_of(self.state()),
    {
        let mut rows: Vec<Row> = Vec::new();
        let shown = self.smt_status.display();
        let label = String::from_str(shown.label);
        if shown.offer_toggle {
            rows.push(
                Row::Toggle {
                    label: label,
                    is_on: self.smt_status.is_enabled(),
                    busy: self.is_toggling,
                },
            );
        } else {
            rows.push(Row::Status { text: label });
        }
        if self.is_toggling {
            rows.push(Row::Note { text: String::from_str("Applying changes...") });
        }
        if let Some(error) = &self.error_message {
            rows.push(Row::Note { text: String::from_str("Error: ").concat(error.as_str()) });
        }
        assert(rows.deep_view() =~= rows_of(self.state()));
        rows
    }
}

/// `std::sync::mpsc::Receiver`, the receiving end of a channel. It is carried
/// through as it is; nothing inside it is looked at.
#[verifier::external_type_specification]
#[verifier::external_body]
#[verifier::reject_recursive_types(T)]
pub struct ExReceiver<T>(Receiver<T>);

/// `std::sync::mpsc::Receiver::try_recv`: takes the next event off the channel
/// if one is waiting, and never waits for one. Whether one is waiting depends
/// on the sender, so nothing is claimed of the result.
#[verifier::external_body]
fn try_receive(receiver: &Receiver<TrayEvent>) -> (event: Option<TrayEvent>) {
    receiver.try_recv().ok()
}

/// The message that carries what a look into the tray's channel found.
pub fn tray_message(received: Option<TrayEvent>) -> (message: Option<Message>)
    ensures
        message == match received {
            Some(event) => Some(Message::TrayEvent(event)),
            None => None::<Message>,
        },
{
    match received {
        Some(event) => Some(Message::TrayEvent(event)),
        None => None,
    }
}

/// The application's end of the tray bridge. Until a channel is connected
/// nothing is ever seen in it.
pub struct TrayInbox {
    receiver: Option<Receiver<TrayEvent>>,
}

impl TrayInbox {
    /// The channel that the inbox is connected to, if any.
    pub closed spec fn connected_to(&self) -> Option<Receiver<TrayEvent>> {
        self.receiver
    }

    /// An inbox that is not connected yet.
    pub fn new() -> (inbox: Self)
        ensures
            inbox.connected_to() is None,
    {
        TrayInbox { receiver: None }
    }

    /// Whether a channel is connected.
    pub fn is_connected(&self) -> (yes: bool)
        ensures
            yes == self.connected_to().is_some(),
    {
        self.receiver.is_some()
    }

    /// Looks for an event from the tray without waiting. An inbox that is not
    /// connected has none; what a connected one has is up to the sender. What
    /// is found comes as the message of [`tray_message`].
    pub fn poll(&self) -> (message: Option<Message>)
        ensures
            self.connected_to() is None ==> message is None,
            message matches Some(m) ==> m is TrayEvent,
    {
        match &self.receiver {
            Some(receiver) => tray_message(try_receive(receiver)),
            None => None,
        }
    }
}

/// Connects the inbox to the receiving end of the tray's channel. A channel
/// that was connected before is dropped.
pub fn set_tray_receiver(inbox: &mut TrayInbox, receiver: Receiver<TrayEvent>)
    ensures
        final(inbox).connected_to() == Some(receiver),
{
    inbox.receiver = Some(receiver);
}

/// A finished write ends the pending state whatever its outcome. A success
/// leaves the error as it was; a failure records its text. Neither touches
/// the status or the window.
pub proof fn lemma_write_result_clears_pending(s: AppState, result: Result<(), String>)
    ensures
        !next_state(s, Message::SetSmtResult(result)).pending,
        result is Ok ==> next_state(s, Message::SetSmtResult(result)).last_error == s.last_error,
        result matches Err(e) ==> next_state(s, Message::SetSmtResult(result)).last_error == Some(
            e@,
        ),
        next_state(s, Message::SetSmtResult(result)).status == s.status,
        next_state(s, Message::SetSmtResult(result)).window == s.window,
{
}

/// A new toggle attempt marks a write as pending, drops whatever error was on
/// record, and asks for the write of the requested setting.
pub proof fn lemma_toggle_clears_error(s: AppState, enabled: bool)
    ensures
        next_state(s, Message::SmtToggled(enabled)).last_error is None,
        next_state(s, Message::SmtToggled(enabled)).pending,
        follow_up(s, Message::SmtToggled(enabled)) == Task::WriteSmt(enabled),
{
}

/// An error on record stays until a new toggle attempt begins or another
/// write fails: no refresh, tick, tray or window event removes or changes it.
pub proof fn lemma_error_stays(s: AppState, message: Message)
    requires
        !(message is SmtToggled),
        !(message matches Message::SetSmtResult(Err(_))),
    ensures
        next_state(s, message).last_error == s.last_error,
{
}

/// The status changes only when a read reports it.
pub proof fn lemma_status_replaced_only_by_read(s: AppState, message: Message)
    ensures
        message matches Message::SmtStatusUpdated(status) ==> next_state(s, message).status
            == status,
        !(message is SmtStatusUpdated) ==> next_state(s, message).status == s.status,
{
}

/// A window is on record only once the window system has confirmed it open:
/// whatever window the next state names was on record before or is the one
/// that this message confirms.
pub proof fn lemma_window_only_when_confirmed(s: AppState, message: Message, window: WindowId)
    requires
        next_state(s, message).window == Some(window),
    ensures
        s.window == Some(window) || message == Message::WindowOpened(window),
{
}

/// A close notification for a window takes that window off the record at
/// once, and leaves any other window on it.
pub proof fn lemma_closed_window_forgotten(s: AppState, closed: WindowId)
    ensures
        next_state(s, Message::WindowClosed(closed)).window != Some(closed),
        s.window != Some(closed) ==> next_state(s, Message::WindowClosed(closed)).window
            == s.window,
{
}

/// A toggle attempt followed by the completion of its write: nothing is
/// pending afterwards, and the error on record is that of this attempt alone.
/// After a success the status is read again.
pub proof fn lemma_toggle_then_result(s: AppState, enabled: bool, result: Result<(), String>)
    ensures
        ({
            let asked = next_state(s, Message::SmtToggled(enabled));
            let done = next_state(asked, Message::SetSmtResult(result));
            &&& asked.pending
            &&& !done.pending
            &&& result is Ok ==> done.last_error is None && follow_up(
                asked,
                Message::SetSmtResult(result),
            ) == Task::ReadStatus
            &&& result matches Err(e) ==> done.last_error == Some(e@) && follow_up(
                asked,
                Message::SetSmtResult(result),
            ) == Task::Idle
        }),
{
}

/// The tray's request to show the window, with no window on record, asks for
/// a new one; its confirmation puts it on record and asks for a read of the
/// status at once.
pub proof fn lemma_show_then_opened(s: AppState, opened: WindowId)
    requires
        s.window is None,
    ensures
        follow_up(s, Message::TrayEvent(TrayEvent::ShowWindow)) == Task::OpenWindow,
        next_state(s, Message::TrayEvent(TrayEvent::ShowWindow)) == s,
        next_state(s, Message::WindowOpened(opened)).window == Some(opened),
        follow_up(s, Message::WindowOpened(opened)) == Task::ReadStatus,
{
}

/// The status is polled exactly while a window is open; the other sources are
/// always listened to.
pub proof fn lemma_polling_only_while_open(s: AppState)
    ensures
        subscriptions_of(s).contains(
            Subscription::RefreshStatus { every_millis: STATUS_POLL_MILLIS },
        ) <==> s.window is Some,
        subscriptions_of(s).contains(Subscription::WindowClosed),
        subscriptions_of(s).contains(Subscription::GtkTick { every_millis: GTK_TICK_MILLIS }),
        subscriptions_of(s).contains(Subscription::TrayEvents { every_millis: TRAY_POLL_MILLIS }),
{
    let sources = subscriptions_of(s);
    assert(sources[0] == Subscription::WindowClosed);
    assert(sources[1] == Subscription::GtkTick { every_millis: GTK_TICK_MILLIS });
    assert(sources[2] == Subscription::TrayEvents { every_millis: TRAY_POLL_MILLIS });
    if s.window is Some {
        assert(sources[3] == Subscription::RefreshStatus { every_millis: STATUS_POLL_MILLIS });
    }
}

/// The window offers a switch exactly where the status is `On` or `Off`, and
/// then as its first line; the switch shows `On` as on and is busy while a
/// write is pending.
pub proof fn lemma_switch_only_when_controllable(s: AppState)
    ensures
        (exists|i: int| 0 <= i < rows_of(s).len() && #[trigger] rows_of(s)[i] is Toggle) <==> (
        s.status == SmtStatus::On || s.status == SmtStatus::Off),
        rows_of(s)[0] matches RowView::Toggle { is_on, busy, .. } ==> is_on == (s.status
            == SmtStatus::On) && busy == s.pending,
{
    let rows = rows_of(s);
    assert(rows[0] == status_row(s));
    assert forall|i: int| 1 <= i < rows.len() implies !(#[trigger] rows[i] is Toggle) by {}
}

} // verus!
