//! Session state of the applet and the reducer that applies inbound messages
//! to it.

use tokio::sync::mpsc::UnboundedSender;
use vstd::prelude::*;

use crate::daemon::{send_request, DaemonEvent, Request};

verus! {

/// An inbound message, consumed one at a time by [`Window::update`].
///
/// `C` is the bus connection handle and `E` the error of a failed connection
/// attempt.
pub enum Message<C, E> {
    /// The surface with this id was closed by the compositor.
    PopupClosed(u64),
    /// The applet's icon was pressed. Carries a freshly allocated surface id,
    /// used only when this press opens the popup.
    TogglePopup(u64),
    /// The brightness slider was moved to this value.
    SetScreenBrightness(i32),
    /// An event from the settings daemon's subscription.
    SettingsDaemon(DaemonEvent),
    /// The outcome of the one attempt to connect to the session bus.
    ZbusConnection(Result<C, E>),
}

/// What the caller of [`Window::update`] or [`Window::init`] has to do next.
#[derive(Clone, Copy, Debug, PartialEq, Eq, Structural)]
pub enum Effect {
    /// Nothing.
    Idle,
    /// Start the one attempt to connect to the session bus.
    ConnectSessionBus,
    /// Destroy the popup surface with this id.
    DestroyPopup(u64),
    /// Create a popup surface with this id.
    GetPopup(u64),
    /// This request was handed to the daemon's request channel; nothing is
    /// left to do.
    Sent(Request),
}

/// The brightness slider shown in the popup: a value within `min..=max`.
#[derive(Clone, Copy, Debug, PartialEq, Eq, Structural)]
pub struct BrightnessSlider {
    pub min: i32,
    pub max: i32,
    pub value: i32,
}

/// The lowest value the brightness slider offers.
pub const SLIDER_MIN: i32 = 1;

/// The session state: daemon-derived brightness bounds, the open popup, the
/// bus connection and the capability to send requests to the daemon.
pub struct Window<C> {
    popup: Option<u64>,
    pub max_screen_brightness: Option<i32>,
    pub screen_brightness: Option<i32>,
    zbus_connection: Option<C>,
    settings_daemon_sender: Option<UnboundedSender<Request>>,
}

/// The mathematical model of a [`Window`].
pub struct WindowView<C> {
    pub popup: Option<u64>,
    pub max_screen_brightness: Option<i32>,
    pub screen_brightness: Option<i32>,
    pub connection: Option<C>,
    pub sender: Option<UnboundedSender<Request>>,
}

impl<C> View for Window<C> {
    type V = WindowView<C>;

    closed spec fn view(&self) -> WindowView<C> {
        WindowView {
            popup: self.popup,
            max_screen_brightness: self.max_screen_brightness,
            screen_brightness: self.screen_brightness,
            connection: self.zbus_connection,
            sender: self.settings_daemon_sender,
        }
    }
}

/// The state at startup: nothing known, no popup, no connection.
pub open spec fn initial_view<C>() -> WindowView<C> {
    WindowView {
        popup: None,
        max_screen_brightness: None,
        screen_brightness: None,
        connection: None,
        sender: None,
    }
}

/// The state and effect that one message leads to.
pub open spec fn step<C, E>(v: WindowView<C>, m: Message<C, E>) -> (WindowView<C>, Effect) {
    match m {
        Message::PopupClosed(id) => {
            if v.popup == Some(id) {
                (WindowView { popup: None, ..v }, Effect::Idle)
            } else {
                (v, Effect::Idle)
            }
        },
        Message::TogglePopup(fresh) => match v.popup {
            Some(open) => (WindowView { popup: None, ..v }, Effect::DestroyPopup(open)),
            None => (WindowView { popup: Some(fresh), ..v }, Effect::GetPopup(fresh)),
        },
        Message::SetScreenBrightness(value) => {
            let next = WindowView { screen_brightness: Some(value), ..v };
            if v.sender is Some {
                (next, Effect::Sent(Request::SetDisplayBrightness(value)))
            } else {
                (next, Effect::Idle)
            }
        },
        Message::SettingsDaemon(event) => match event {
            DaemonEvent::Sender(tx) => (WindowView { sender: Some(tx), ..v }, Effect::Idle),
            DaemonEvent::MaxDisplayBrightness(max) => (
                WindowView { max_screen_brightness: Some(max), ..v },
                Effect::Idle,
            ),
            DaemonEvent::DisplayBrightness(b) => (
                WindowView { screen_brightness: Some(b), ..v },
                Effect::Idle,
            ),
        },
        Message::ZbusConnection(Ok(conn)) => (WindowView { connection: Some(conn), ..v }, Effect::Idle),
        Message::ZbusConnection(Err(_)) => (v, Effect::Idle),
    }
}

/// The state after a sequence of messages, applied in order.
pub open spec fn run<C, E>(v: WindowView<C>, ms: Seq<Message<C, E>>) -> WindowView<C>
    decreases ms.len(),
{
    if ms.len() == 0 {
        v
    } else {
        run(step(v, ms[0]).0, ms.drop_first())
    }
}

/// The daemon subscription that the state asks for: one, against the held
/// connection, or none before a connection is established.
pub open spec fn subscription_of<C>(v: WindowView<C>) -> Option<C> {
    v.connection
}

/// The slider the popup shows: present exactly when both bounds are known.
pub open spec fn slider_of<C>(v: WindowView<C>) -> Option<BrightnessSlider> {
    match (v.max_screen_brightness, v.screen_brightness) {
        (Some(max), Some(value)) => Some(BrightnessSlider { min: SLIDER_MIN, max, value }),
        _ => None,
    }
}

impl<C> Default for Window<C> {
    /// The state at startup.
    fn default() -> (r: Self)
        ensures
            r@ == initial_view::<C>(),
    {
        Window {
            popup: None,
            max_screen_brightness: None,
            screen_brightness: None,
            zbus_connection: None,
            settings_daemon_sender: None,
        }
    }
}

impl<C> Window<C> {
    /// The state at startup, with the request to connect to the session bus.
    pub fn init() -> (r: (Self, Effect))
        ensures
            r.0@ == initial_view::<C>(),
            r.1 == Effect::ConnectSessionBus,
    {
        (Self::default(), Effect::ConnectSessionBus)
    }

    /// A close request for surface `id` becomes a `PopupClosed` message.
    pub fn on_close_requested<E>(&self, id: u64) -> (r: Option<Message<C, E>>)
        ensures
            r == Some(Message::<C, E>::PopupClosed(id)),
    {
        Some(Message::PopupClosed(id))
    }

    /// The connection to subscribe to the settings daemon with, if any.
    pub fn subscription(&self) -> (r: Option<&C>)
        ensures
            match r {
                Some(c) => subscription_of(self@) == Some(*c),
                None => subscription_of(self@) is None,
            },
    {
        self.zbus_connection.as_ref()
    }

    /// The brightness slider to show in the popup, if the bounds are known.
    pub fn brightness_slider(&self) -> (r: Option<BrightnessSlider>)
        ensures
            r == slider_of(self@),
    {
        match (self.max_screen_brightness, self.screen_brightness) {
            (Some(max), Some(value)) => Some(BrightnessSlider { min: SLIDER_MIN, max, value }),
            _ => None,
        }
    }

    /// The open popup's surface id, if a popup is open.
    pub fn popup(&self) -> (r: Option<u64>)
        ensures
            r == self@.popup,
    {
        self.popup
    }

    /// Whether brightness requests can reach the daemon.
    pub fn has_sender(&self) -> (r: bool)
        ensures
            r == self@.sender is Some,
    {
        self.settings_daemon_sender.is_some()
    }

    /// Whether the session bus connection is established.
    pub fn is_connected(&self) -> (r: bool)
        ensures
            r == self@.connection is Some,
    {
        self.zbus_connection.is_some()
    }

    /// Applies one message. A brightness change is always recorded locally
    /// and, when the daemon's channel is held, also sent to the daemon.
    pub fn update<E>(&mut self, message: Message<C, E>) -> (r: Effect)
        ensures
            (final(self)@, r) == step(old(self)@, message),
    {
        match message {
            Message::PopupClosed(id) => {
                if self.popup == Some(id) {
                    self.popup = None;
                }
                Effect::Idle
            },
            Message::TogglePopup(fresh) => {
                match self.popup.take() {
                    Some(open) => Effect::DestroyPopup(open),
                    None => {
                        self.popup = Some(fresh);
                        Effect::GetPopup(fresh)
                    },
                }
            },
            Message::SetScreenBrightness(value) => {
                self.screen_brightness = Some(value);
                match &self.settings_daemon_sender {
                    Some(tx) => {
                        let request = Request::SetDisplayBrightness(value);
                        send_request(tx, request);
                        Effect::Sent(request)
                    },
                    None => Effect::Idle,
                }
            },
            Message::SettingsDaemon(event) => {
                match event {
                    DaemonEvent::Sender(tx) => {
                        self.settings_daemon_sender = Some(tx);
                    },
                    DaemonEvent::MaxDisplayBrightness(max) => {
                        self.max_screen_brightness = Some(max);
                    },
                    DaemonEvent::DisplayBrightness(b) => {
                        self.screen_brightness = Some(b);
                    },
                }
                Effect::Idle
            },
            Message::ZbusConnection(Ok(conn)) => {
                self.zbus_connection = Some(conn);
                Effect::Idle
            },
            Message::ZbusConnection(Err(_)) => Effect::Idle,
        }
    }
}

} // verus!
