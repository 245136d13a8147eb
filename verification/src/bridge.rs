//! The rules of the subscription bridge.
//!
//! The bridge stands between the Bluetooth stack, which reports changes of a
//! device's properties, and a consumer, which reads a stream of readings. What
//! touches the stack or the channel is done by the caller; what is decided is
//! decided here. The caller hands in each thing that happened as a
//! [`BridgeEvent`], together with the state of the bridge, and [`step`] answers
//! with the next state and the one [`BridgeAction`] to perform.
//!
//! | State                  | Event                   | Next state  | Action                     |
//! |------------------------|-------------------------|-------------|----------------------------|
//! | Created                | subscribe requested     | Subscribing | register the device        |
//! | Subscribing, Streaming | subscribe requested     | unchanged   | register the device        |
//! | Subscribing            | registered              | Streaming   | nothing                    |
//! | Streaming              | properties changed      | Streaming   | forward, report or nothing |
//! | not Closed             | gateway failed          | Closed      | fail                       |
//! | Created                | shutdown, consumer gone | Closed      | nothing                    |
//! | Subscribing, Streaming | shutdown, consumer gone | Closed      | release                    |
//! | Closed                 | any                     | Closed      | nothing                    |
//!
//! A request to subscribe to a device that D-Bus cannot address fails and
//! leaves the state as it is. Every other pair leaves the state as it is and
//! asks for nothing. The caller ends its work when the bridge has closed.

use crate::bluetooth::{
    addressable_object_path, is_addressable, is_mac_address, lemma_mac_address_is_addressable,
    object_path,
};
use crate::envelope::ChangedProperties;
use crate::error::{DecodeError, GatewayError};
use crate::ruuvitag::{decoded, Reading, SensorDataV5};
use vstd::prelude::*;

verus! {

/// Where a bridge is in its life. A bridge only moves forward through the
/// states, in the order in which they are written, and never leaves `Closed`.
#[derive(Debug, Clone, Copy, PartialEq, Eq, Structural)]
pub enum BridgeState {
    /// Nothing has been asked of the bridge yet.
    Created,
    /// A device is to be watched; the stack has not confirmed it yet.
    Subscribing,
    /// The stack delivers notifications, and readings are passed on.
    Streaming,
    /// The bridge has ended.
    Closed,
}

/// Something that happened to a bridge.
#[derive(Debug)]
pub enum BridgeEvent {
    /// The application asks to watch the device with this MAC address.
    SubscribeRequested(String),
    /// The stack has accepted a registration.
    Registered,
    /// The connection to the stack could not be established or was lost.
    GatewayFailed,
    /// The stack reports that properties of a watched device have changed.
    PropertiesChanged(ChangedProperties),
    /// The application asks the bridge to end.
    ShutdownRequested,
    /// The consumer of the readings has gone away.
    ConsumerGone,
}

/// What the caller is to do after an event.
#[derive(Debug)]
pub enum BridgeAction {
    /// Register for the change notifications of the object with this path.
    Register(String),
    /// Pass this reading on to the consumer.
    Forward(SensorDataV5),
    /// Drop the notification and report why it could not be decoded.
    Report(DecodeError),
    /// Hand this error to whoever asked for the subscription.
    Fail(GatewayError),
    /// Give up the registrations with the stack.
    Release,
    /// Do nothing.
    Nothing,
}

/// A [`BridgeAction`] as mathematical values.
pub enum Effect {
    Register(Seq<char>),
    Forward(Reading),
    Report(DecodeError),
    Fail(GatewayError),
    Release,
    Nothing,
}

impl View for BridgeAction {
    type V = Effect;

    open spec fn view(&self) -> Effect {
        match *self {
            BridgeAction::Register(path) => Effect::Register(path@),
            BridgeAction::Forward(reading) => Effect::Forward(reading@),
            BridgeAction::Report(error) => Effect::Report(error),
            BridgeAction::Fail(error) => Effect::Fail(error),
            BridgeAction::Release => Effect::Release,
            BridgeAction::Nothing => Effect::Nothing,
        }
    }
}

/// The state of a bridge after an event.
pub open spec fn next_state(state: BridgeState, event: BridgeEvent) -> BridgeState {
    match state {
        BridgeState::Closed => BridgeState::Closed,
        _ => match event {
            BridgeEvent::SubscribeRequested(mac_address) => if state == BridgeState::Created
                && is_addressable(mac_address@) {
                BridgeState::Subscribing
            } else {
                state
            },
            BridgeEvent::Registered => if state == BridgeState::Subscribing {
                BridgeState::Streaming
            } else {
                state
            },
            BridgeEvent::PropertiesChanged(_) => state,
            BridgeEvent::GatewayFailed => BridgeState::Closed,
            BridgeEvent::ShutdownRequested => BridgeState::Closed,
            BridgeEvent::ConsumerGone => BridgeState::Closed,
        },
    }
}

/// What a notification of changed properties leads to while the bridge streams:
/// nothing where it carries no manufacturer data, the reading where its
/// manufacturer data can be decoded, and a report of the error where not.
pub open spec fn notification_effect(changed_properties: ChangedProperties) -> Effect {
    if changed_properties.manufacturer_data is None {
        Effect::Nothing
    } else {
        match decoded(changed_properties) {
            Ok(reading) => Effect::Forward(reading),
            Err(error) => Effect::Report(error),
        }
    }
}

/// What the caller is to do after an event that reaches a bridge in a state.
pub open spec fn effect_of(state: BridgeState, event: BridgeEvent) -> Effect {
    match state {
        BridgeState::Closed => Effect::Nothing,
        _ => match event {
            BridgeEvent::SubscribeRequested(mac_address) => if is_addressable(mac_address@) {
                Effect::Register(object_path(mac_address@))
            } else {
                Effect::Fail(GatewayError::InvalidDeviceIdentifier)
            },
            BridgeEvent::Registered => Effect::Nothing,
            BridgeEvent::PropertiesChanged(changed_properties) => if state
                == BridgeState::Streaming {
                notification_effect(changed_properties)
            } else {
                Effect::Nothing
            },
            BridgeEvent::GatewayFailed => Effect::Fail(GatewayError::GatewayConnectionFailure),
            BridgeEvent::ShutdownRequested | BridgeEvent::ConsumerGone => if state
                == BridgeState::Created {
                Effect::Nothing
            } else {
                Effect::Release
            },
        },
    }
}

/// The state of a bridge after a sequence of events, taken one after the other.
pub open spec fn state_after(state: BridgeState, events: Seq<BridgeEvent>) -> BridgeState
    decreases events.len(),
{
    if events.len() == 0 {
        state
    } else {
        state_after(next_state(state, events[0]), events.drop_first())
    }
}

/// What the caller is to do, event by event, for a sequence of events.
pub open spec fn effects_of(state: BridgeState, events: Seq<BridgeEvent>) -> Seq<Effect>
    decreases events.len(),
{
    if events.len() == 0 {
        Seq::empty()
    } else {
        seq![effect_of(state, events[0])] + effects_of(
            next_state(state, events[0]),
            events.drop_first(),
        )
    }
}

/// The readings that a sequence of effects passes on to the consumer, in order.
pub open spec fn readings_in(effects: Seq<Effect>) -> Seq<Reading>
    decreases effects.len(),
{
    if effects.len() == 0 {
        Seq::empty()
    } else {
        match effects[0] {
            Effect::Forward(reading) => seq![reading] + readings_in(effects.drop_first()),
            _ => readings_in(effects.drop_first()),
        }
    }
}

/// The readings that can be decoded from a sequence of notifications, in order.
pub open spec fn readings_of(notifications: Seq<ChangedProperties>) -> Seq<Reading>
    decreases notifications.len(),
{
    if notifications.len() == 0 {
        Seq::empty()
    } else {
        match decoded(notifications[0]) {
            Ok(reading) => seq![reading] + readings_of(notifications.drop_first()),
            Err(_) => readings_of(notifications.drop_first()),
        }
    }
}

/// The place of a state in the life of a bridge.
pub open spec fn rank(state: BridgeState) -> int {
    match state {
        BridgeState::Created => 0,
        BridgeState::Subscribing => 1,
        BridgeState::Streaming => 2,
        BridgeState::Closed => 3,
    }
}

/// No event takes a bridge back to an earlier state.
pub proof fn lemma_state_never_reverts(state: BridgeState, event: BridgeEvent)
    ensures
        rank(state) <= rank(next_state(state, event)),
{
}

/// A new bridge that is asked to watch a device by its MAC address in the usual
/// writing registers the device under its object path and waits for the stack;
/// once the stack has accepted the registration, the bridge streams.
pub proof fn lemma_subscription_starts_the_stream(mac_address: String)
    requires
        is_mac_address(mac_address@),
    ensures
        next_state(BridgeState::Created, BridgeEvent::SubscribeRequested(mac_address))
            == BridgeState::Subscribing,
        effect_of(BridgeState::Created, BridgeEvent::SubscribeRequested(mac_address))
            == Effect::Register(object_path(mac_address@)),
        state_after(
            BridgeState::Created,
            seq![BridgeEvent::SubscribeRequested(mac_address), BridgeEvent::Registered],
        ) == BridgeState::Streaming,
{
    lemma_mac_address_is_addressable(mac_address@);
    reveal_with_fuel(state_after, 3);
}

/// A closed bridge stays closed and asks for nothing, whatever happens.
pub proof fn lemma_closed_is_final(events: Seq<BridgeEvent>)
    ensures
        state_after(BridgeState::Closed, events) == BridgeState::Closed,
        effects_of(BridgeState::Closed, events).len() == events.len(),
        forall|i: int|
            0 <= i < events.len() ==> #[trigger] effects_of(BridgeState::Closed, events)[i]
                == Effect::Nothing,
    decreases events.len(),
{
    if events.len() > 0 {
        lemma_closed_is_final(events.drop_first());
    }
}

/// While a bridge streams, notifications never end it, whether they can be
/// decoded or not, and the consumer gets exactly the readings that can be
/// decoded, in the order of their notifications.
pub proof fn lemma_stream_survives_notifications(notifications: Seq<ChangedProperties>)
    ensures
        state_after(
            BridgeState::Streaming,
            notifications.map_values(|n: ChangedProperties| BridgeEvent::PropertiesChanged(n)),
        ) == BridgeState::Streaming,
        readings_in(
            effects_of(
                BridgeState::Streaming,
                notifications.map_values(|n: ChangedProperties| BridgeEvent::PropertiesChanged(n)),
            ),
        ) == readings_of(notifications),
    decreases notifications.len(),
{
    let wrap = |n: ChangedProperties| BridgeEvent::PropertiesChanged(n);
    let events = notifications.map_values(wrap);
    if notifications.len() > 0 {
        let rest = notifications.drop_first();
        lemma_stream_survives_notifications(rest);
        assert(events.drop_first() =~= rest.map_values(wrap));
        assert(effects_of(BridgeState::Streaming, events).drop_first() =~= effects_of(
            BridgeState::Streaming,
            events.drop_first(),
        ));
    }
}

/// One notification that cannot be decoded, between two that can, costs that
/// one notification and nothing else: the bridge goes on streaming, the failure
/// is reported, and the consumer gets the two readings in their order.
pub proof fn lemma_stream_resilience(
    first: ChangedProperties,
    broken: ChangedProperties,
    last: ChangedProperties,
)
    requires
        decoded(first) is Ok,
        broken.manufacturer_data is Some,
        decoded(broken) is Err,
        decoded(last) is Ok,
    ensures
        ({
            let events = seq![
                BridgeEvent::PropertiesChanged(first),
                BridgeEvent::PropertiesChanged(broken),
                BridgeEvent::PropertiesChanged(last),
            ];
            &&& state_after(BridgeState::Streaming, events) == BridgeState::Streaming
            &&& effects_of(BridgeState::Streaming, events) == seq![
                Effect::Forward(decoded(first)->Ok_0),
                Effect::Report(decoded(broken)->Err_0),
                Effect::Forward(decoded(last)->Ok_0),
            ]
            &&& readings_in(effects_of(BridgeState::Streaming, events)) == seq![
                decoded(first)->Ok_0,
                decoded(last)->Ok_0,
            ]
        }),
{
    reveal_with_fuel(state_after, 4);
    reveal_with_fuel(effects_of, 4);
    reveal_with_fuel(readings_in, 4);
}

impl BridgeState {
    /// Whether the stack is to go on delivering notifications to a bridge in
    /// this state: it is, until the bridge has closed.
    pub fn keeps_listening(&self) -> (listening: bool)
        ensures
            listening == (*self != BridgeState::Closed),
    {
        match self {
            BridgeState::Closed => false,
            _ => true,
        }
    }
}

/// Decides what follows from one event: the next state of the bridge and the
/// action that the caller is to perform.
///
/// A notification that cannot be decoded is reported and changes nothing else:
/// the bridge goes on streaming.
pub fn step(state: BridgeState, event: BridgeEvent) -> (result: (BridgeState, BridgeAction))
    ensures
        result.0 == next_state(state, event),
        result.1@ == effect_of(state, event),
{
    match state {
        BridgeState::Closed => (BridgeState::Closed, BridgeAction::Nothing),
        BridgeState::Created => match event {
            BridgeEvent::SubscribeRequested(mac_address) => on_subscribe(
                state,
                BridgeState::Subscribing,
                mac_address,
            ),
            BridgeEvent::Registered => (state, BridgeAction::Nothing),
            BridgeEvent::PropertiesChanged(_) => (state, BridgeAction::Nothing),
            BridgeEvent::GatewayFailed => (
                BridgeState::Closed,
                BridgeAction::Fail(GatewayError::GatewayConnectionFailure),
            ),
            BridgeEvent::ShutdownRequested => (BridgeState::Closed, BridgeAction::Nothing),
            BridgeEvent::ConsumerGone => (BridgeState::Closed, BridgeAction::Nothing),
        },
        BridgeState::Subscribing => match event {
            BridgeEvent::SubscribeRequested(mac_address) => on_subscribe(
                state,
                state,
                mac_address,
            ),
            BridgeEvent::Registered => (BridgeState::Streaming, BridgeAction::Nothing),
            BridgeEvent::PropertiesChanged(_) => (state, BridgeAction::Nothing),
            BridgeEvent::GatewayFailed => (
                BridgeState::Closed,
                BridgeAction::Fail(GatewayError::GatewayConnectionFailure),
            ),
            BridgeEvent::ShutdownRequested => (BridgeState::Closed, BridgeAction::Release),
            BridgeEvent::ConsumerGone => (BridgeState::Closed, BridgeAction::Release),
        },
        BridgeState::Streaming => match event {
            BridgeEvent::SubscribeRequested(mac_address) => on_subscribe(
                state,
                state,
                mac_address,
            ),
            BridgeEvent::Registered => (state, BridgeAction::Nothing),
            BridgeEvent::PropertiesChanged(changed_properties) => (
                state,
                on_notification(changed_properties),
            ),
            BridgeEvent::GatewayFailed => (
                BridgeState::Closed,
                BridgeAction::Fail(GatewayError::GatewayConnectionFailure),
            ),
            BridgeEvent::ShutdownRequested => (BridgeState::Closed, BridgeAction::Release),
            BridgeEvent::ConsumerGone => (BridgeState::Closed, BridgeAction::Release),
        },
    }
}

/// Decides what to do with a request to subscribe: the device is registered and
/// the bridge goes to `registered` where D-Bus can address the device, and the
/// request fails and the bridge stays in `state` where not.
fn on_subscribe(state: BridgeState, registered: BridgeState, mac_address: String) -> (result: (
    BridgeState,
    BridgeAction,
))
    ensures
        result.0 == if is_addressable(mac_address@) {
            registered
        } else {
            state
        },
        result.1@ == if is_addressable(mac_address@) {
            Effect::Register(object_path(mac_address@))
        } else {
            Effect::Fail(GatewayError::InvalidDeviceIdentifier)
        },
{
    match addressable_object_path(mac_address.as_str()) {
        Some(path) => (registered, BridgeAction::Register(path)),
        None => (state, BridgeAction::Fail(GatewayError::InvalidDeviceIdentifier)),
    }
}

/// Decides what to do with one notification while the bridge streams.
pub fn on_notification(changed_properties: ChangedProperties) -> (action: BridgeAction)
    ensures
        action@ == notification_effect(changed_properties),
{
    if changed_properties.manufacturer_data.is_none() {
        BridgeAction::Nothing
    } else {
        match SensorDataV5::from_dbus_changed_properties(changed_properties) {
            Ok(reading) => BridgeAction::Forward(reading),
            Err(error) => BridgeAction::Report(error),
        }
    }
}

} // verus!
