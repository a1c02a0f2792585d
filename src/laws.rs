//! Properties of the coordinator that hold over every state, stated over
//! [`step`], the model that [`crate::Window::update`] follows exactly.

use vstd::prelude::*;

use crate::daemon::{DaemonEvent, Request};
use crate::window::{run, slider_of, step, subscription_of, Effect, Message, WindowView};

verus! {

/// A maximum-brightness event followed by a brightness event leaves exactly
/// those two values as the reported bounds, whatever the state before.
pub proof fn lemma_daemon_bounds_reported<C, E>(v: WindowView<C>, max: i32, value: i32)
    requires
        0 <= value <= max,
    ensures
        ({
            let after_max = step(v, Message::<C, E>::SettingsDaemon(DaemonEvent::MaxDisplayBrightness(max))).0;
            let after = step(after_max, Message::<C, E>::SettingsDaemon(DaemonEvent::DisplayBrightness(value))).0;
            after.max_screen_brightness == Some(max) && after.screen_brightness == Some(value)
        }),
{
}

/// The state asks for at most one daemon subscription, bound to its
/// connection. No message but a connection result changes it, and a
/// connection result carrying the handle already held leaves it as it is, so
/// recomposing the subscriptions after any message never adds a second one.
pub proof fn lemma_subscription_stable<C, E>(v: WindowView<C>, m: Message<C, E>)
    ensures
        !(m is ZbusConnection) ==> subscription_of(step(v, m).0) == subscription_of(v),
        (m matches Message::ZbusConnection(Ok(c)) && v.connection == Some(c))
            ==> subscription_of(step(v, m).0) == subscription_of(v),
        m matches Message::ZbusConnection(Err(_)) ==> subscription_of(step(v, m).0) == subscription_of(v),
{
}

/// Two presses of the icon with no close in between, starting with no popup,
/// open one popup and then destroy that same popup: never two open at once.
pub proof fn lemma_toggle_twice<C, E>(v: WindowView<C>, first: u64, second: u64)
    requires
        v.popup is None,
    ensures
        ({
            let (opened, e1) = step(v, Message::<C, E>::TogglePopup(first));
            let (closed, e2) = step(opened, Message::<C, E>::TogglePopup(second));
            &&& opened == WindowView { popup: Some(first), ..v }
            &&& e1 == Effect::GetPopup(first)
            &&& closed == v
            &&& e2 == Effect::DestroyPopup(first)
        }),
{
}

/// A close notification for a surface other than the open popup changes
/// nothing and asks for nothing.
pub proof fn lemma_stale_close_ignored<C, E>(v: WindowView<C>, id: u64)
    requires
        v.popup != Some(id),
    ensures
        step(v, Message::<C, E>::PopupClosed(id)) == (v, Effect::Idle),
{
}

/// Without the daemon's request channel, a brightness change is recorded
/// locally and nothing is sent.
pub proof fn lemma_brightness_without_sender<C, E>(v: WindowView<C>, value: i32)
    requires
        v.sender is None,
    ensures
        step(v, Message::<C, E>::SetScreenBrightness(value)) == (
            WindowView { screen_brightness: Some(value), ..v },
            Effect::Idle,
        ),
{
}

/// With the daemon's request channel, a brightness change is recorded locally
/// and exactly that value is sent, once.
pub proof fn lemma_brightness_with_sender<C, E>(v: WindowView<C>, value: i32)
    requires
        v.sender is Some,
    ensures
        step(v, Message::<C, E>::SetScreenBrightness(value)) == (
            WindowView { screen_brightness: Some(value), ..v },
            Effect::Sent(Request::SetDisplayBrightness(value)),
        ),
{
}

/// While no daemon event arrives and no slider is moved (there is no slider
/// before the bounds are known), the brightness bounds stay as they were,
/// whatever popup presses, close notifications and connection results come.
pub proof fn lemma_bounds_kept_without_daemon<C, E>(v: WindowView<C>, ms: Seq<Message<C, E>>)
    requires
        forall|i: int| 0 <= i < ms.len() ==> !(#[trigger] ms[i] is SettingsDaemon) && !(ms[i] is SetScreenBrightness),
    ensures
        run(v, ms).max_screen_brightness == v.max_screen_brightness,
        run(v, ms).screen_brightness == v.screen_brightness,
        slider_of(run(v, ms)) == slider_of(v),
    decreases ms.len(),
{
    if ms.len() > 0 {
        let rest = ms.drop_first();
        assert forall|i: int| 0 <= i < rest.len() implies !(#[trigger] rest[i] is SettingsDaemon) && !(rest[i] is SetScreenBrightness) by {
            assert(rest[i] == ms[i + 1]);
        }
        assert(!(ms[0] is SettingsDaemon) && !(ms[0] is SetScreenBrightness));
        lemma_bounds_kept_without_daemon(step(v, ms[0]).0, rest);
    }
}

} // verus!
