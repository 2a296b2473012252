use vstd::prelude::*;
use crate::battery::{BatterySample, BatteryState};

verus! {

/// A notification that one new battery reading calls for.
#[derive(Clone, Copy, Debug, PartialEq, Eq, Structural)]
pub enum NotificationEvent {
    LowBattery(isize),
    CriticalBattery(isize),
    ChargingStarted(isize),
    FullyCharged,
}

/// Whether a reading counts as discharging for the low and critical warnings.
pub open spec fn discharging(status: BatteryState) -> bool {
    status != BatteryState::BatteryCharging && status != BatteryState::BatteryUnavailable
}

/// The event that the step from `prev` to `cur` fires: the first rule that
/// matches, low, critical, charging started, then full, or none.
pub open spec fn event_for(prev: BatterySample, cur: BatterySample) -> Option<NotificationEvent> {
    if cur.level <= 10 && prev.level > 10 && discharging(cur.status) {
        Some(NotificationEvent::LowBattery(cur.level))
    } else if cur.level <= 3 && prev.level > 3 && discharging(cur.status) {
        Some(NotificationEvent::CriticalBattery(cur.level))
    } else if cur.status == BatteryState::BatteryCharging && prev.status
        != BatteryState::BatteryCharging {
        Some(NotificationEvent::ChargingStarted(cur.level))
    } else if cur.level == 100 && prev.level < 100 && cur.status == BatteryState::BatteryCharging {
        Some(NotificationEvent::FullyCharged)
    } else {
        None
    }
}

/// What a reading fires given the remembered one: nothing on the first
/// reading or while notifications are off.
pub open spec fn fired(
    memory: Option<BatterySample>,
    cur: BatterySample,
    enabled: bool,
) -> Option<NotificationEvent> {
    match memory {
        None => None,
        Some(prev) => if enabled {
            event_for(prev, cur)
        } else {
            None
        },
    }
}

/// Decides which notification, if any, a new reading fires, and returns the
/// memory to keep: always the new reading.
pub fn evaluate(memory: Option<BatterySample>, current: BatterySample, enabled: bool) -> (r: (
    Option<NotificationEvent>,
    BatterySample,
))
    ensures
        r.0 == fired(memory, current, enabled),
        r.1 == current,
{
    let event = match memory {
        None => None,
        Some(prev) => {
            if !enabled {
                None
            } else if current.level <= 10 && prev.level > 10 && current.status
                != BatteryState::BatteryCharging && current.status
                != BatteryState::BatteryUnavailable {
                Some(NotificationEvent::LowBattery(current.level))
            } else if current.level <= 3 && prev.level > 3 && current.status
                != BatteryState::BatteryCharging && current.status
                != BatteryState::BatteryUnavailable {
                Some(NotificationEvent::CriticalBattery(current.level))
            } else if current.status == BatteryState::BatteryCharging && prev.status
                != BatteryState::BatteryCharging {
                Some(NotificationEvent::ChargingStarted(current.level))
            } else if current.level == 100 && prev.level < 100 && current.status
                == BatteryState::BatteryCharging {
                Some(NotificationEvent::FullyCharged)
            } else {
                None
            }
        },
    };
    (event, current)
}

/// The notification memory of one device: the last reading seen.
pub struct Notifier {
    pub last_notification_state: Option<BatterySample>,
}

impl Notifier {
    /// A notifier that has seen no reading yet.
    pub fn new() -> (r: Notifier)
        ensures
            r.last_notification_state.is_none(),
    {
        Notifier { last_notification_state: None }
    }

    /// Feeds one reading: returns the notification it fires and remembers it,
    /// whether or not notifications are enabled.
    pub fn update_notifier(
        &mut self,
        current_level: isize,
        current_status: BatteryState,
        notifications_enabled: bool,
    ) -> (r: Option<NotificationEvent>)
        ensures
            r == fired(
                old(self).last_notification_state,
                BatterySample { level: current_level, status: current_status },
                notifications_enabled,
            ),
            final(self).last_notification_state == Some(
                BatterySample { level: current_level, status: current_status },
            ),
    {
        let current = BatterySample { level: current_level, status: current_status };
        let (event, memory) = evaluate(self.last_notification_state, current, notifications_enabled);
        self.last_notification_state = Some(memory);
        event
    }
}

/// A reading that repeats the remembered one fires nothing.
pub proof fn lemma_repeat_fires_nothing(s: BatterySample, enabled: bool)
    ensures
        fired(Some(s), s, enabled).is_none(),
{
}

/// At most one event per reading, and no low or critical warning while
/// charging: a reading that starts charging fires exactly `ChargingStarted`.
pub proof fn lemma_charging_suppresses_low(prev: BatterySample, cur: BatterySample)
    requires
        cur.status == BatteryState::BatteryCharging,
        prev.status != BatteryState::BatteryCharging,
    ensures
        event_for(prev, cur) == Some(NotificationEvent::ChargingStarted(cur.level)),
{
}

/// `FullyCharged` fires only on a reading that is charging.
pub proof fn lemma_full_requires_charging(prev: BatterySample, cur: BatterySample)
    ensures
        event_for(prev, cur) == Some(NotificationEvent::FullyCharged) ==> cur.status
            == BatteryState::BatteryCharging && cur.level == 100 && prev.level < 100,
{
}

/// Low and critical warnings fire only when the level crosses their threshold
/// downward, so each fires once per crossing.
pub proof fn lemma_warnings_are_edges(prev: BatterySample, cur: BatterySample)
    ensures
        event_for(prev, cur) == Some(NotificationEvent::LowBattery(cur.level)) ==> prev.level
            > 10 && cur.level <= 10,
        event_for(prev, cur) == Some(NotificationEvent::CriticalBattery(cur.level)) ==> prev.level
            > 3 && cur.level <= 3 && !(prev.level > 10),
{
}

/// A reading fed while notifications are off fires nothing, and the next
/// reading, once they are on again, is judged against it: the memory advanced
/// all the same (`update_notifier` keeps the reading whatever the flag).
pub proof fn lemma_disabled_advances_memory(
    memory: Option<BatterySample>,
    muted: BatterySample,
    next: BatterySample,
)
    ensures
        fired(memory, muted, false).is_none(),
        fired(Some(muted), next, true) == event_for(muted, next),
{
}

/// The decimal digit `d` (below ten) as a character.
pub open spec fn digit_char(d: nat) -> char {
    seq!['0', '1', '2', '3', '4', '5', '6', '7', '8', '9'][d as int]
}

/// The decimal digits of `n`, most significant first, without leading zeros.
pub open spec fn digits(n: nat) -> Seq<char>
    decreases n,
{
    if n < 10 {
        seq![digit_char(n)]
    } else {
        digits(n / 10).push(digit_char(n % 10))
    }
}

/// `n` written in decimal, with a leading `-` when negative.
pub open spec fn decimal_text(n: int) -> Seq<char> {
    if n < 0 {
        seq!['-'] + digits((-n) as nat)
    } else {
        digits(n as nat)
    }
}

/// Relies on the standard `Display` of `isize` (through `to_string`): the
/// number in decimal, with a leading minus sign when negative.
#[verifier::external_body]
fn isize_text(n: isize) -> (r: String)
    ensures
        r@ == decimal_text(n as int),
{
    n.to_string()
}

/// The body of the notification that an event shows.
pub open spec fn message_of(event: NotificationEvent) -> Seq<char> {
    match event {
        NotificationEvent::LowBattery(l) => "Battery low ("@ + decimal_text(l as int) + "%)"@,
        NotificationEvent::CriticalBattery(l) => "Battery critical ("@ + decimal_text(l as int)
            + "%)"@,
        NotificationEvent::ChargingStarted(l) => "Charging started ["@ + decimal_text(l as int)
            + "%]"@,
        NotificationEvent::FullyCharged => "Battery full"@,
    }
}

impl NotificationEvent {
    /// The text shown under the device name in the notification.
    pub fn message(&self) -> (r: String)
        ensures
            r@ == message_of(*self),
    {
        match *self {
            NotificationEvent::LowBattery(l) => {
                let mut m = String::from_str("Battery low (");
                m.append(isize_text(l).as_str());
                m.append("%)");
                m
            },
            NotificationEvent::CriticalBattery(l) => {
                let mut m = String::from_str("Battery critical (");
                m.append(isize_text(l).as_str());
                m.append("%)");
                m
            },
            NotificationEvent::ChargingStarted(l) => {
                let mut m = String::from_str("Charging started [");
                m.append(isize_text(l).as_str());
                m.append("%]");
                m
            },
            NotificationEvent::FullyCharged => String::from_str("Battery full"),
        }
    }
}

} // verus!
