use vstd::prelude::*;
use crate::battery::{BatterySample, Device, Theme};
use crate::icon::{battery_res_id_for, res_id};
use crate::notify::{fired, NotificationEvent, Notifier};
use crate::settings::Settings;

verus! {

/// How long the monitor waits between polls.
pub const POLL_INTERVAL_MS: u64 = 1000;

/// What a fresh device list means for the menu and the selection.
#[derive(Clone, Copy, Debug, PartialEq, Eq, Structural)]
pub struct Reconciled {
    /// The device to report on, `None` when there is none.
    pub selected_index: Option<usize>,
    /// Whether the device menu must be rebuilt: the count changed.
    pub menu_rebuild_needed: bool,
}

/// The selection clamped to a list of `count` devices.
pub open spec fn clamp_selection(selected: int, count: int) -> Option<usize> {
    if count == 0 {
        None
    } else if selected < count - 1 {
        Some(selected as usize)
    } else {
        Some((count - 1) as usize)
    }
}

/// Compares a fresh device list with the count of the previous one and keeps
/// the selection in range.
pub fn reconcile(previous_count: usize, fresh: &Vec<Device>, selected: usize) -> (r: Reconciled)
    ensures
        r.menu_rebuild_needed == (fresh@.len() != previous_count),
        r.selected_index == clamp_selection(selected as int, fresh@.len() as int),
{
    let count = fresh.len();
    let selected_index = if count == 0 {
        None
    } else if selected < count - 1 {
        Some(selected)
    } else {
        Some(count - 1)
    };
    Reconciled { selected_index, menu_rebuild_needed: count != previous_count }
}

/// A clamped selection always names a device of the list.
pub proof fn lemma_selection_in_range(selected: int, count: int)
    requires
        0 <= selected,
        0 < count <= usize::MAX,
    ensures
        clamp_selection(selected, count).is_some(),
        clamp_selection(selected, count).unwrap() < count,
        selected < count ==> clamp_selection(selected, count).unwrap() == selected,
{
}

/// What one poll shows for the selected device.
pub struct Report {
    pub device_idx: usize,
    pub product: String,
    pub battery: BatterySample,
    pub res_id: u16,
    pub event: Option<NotificationEvent>,
}

/// The result of one poll: whether the menu needs rebuilding, and the report
/// on the selected device, `None` when no device was found.
pub struct PollOutcome {
    pub menu_rebuild_needed: bool,
    pub report: Option<Report>,
}

/// The state that the monitor keeps from one poll to the next.
pub struct Monitor {
    pub devices: Vec<Device>,
    pub settings: Settings,
    pub notifier: Notifier,
    pub selected_device_idx: usize,
}

impl Monitor {
    /// A monitor that has seen no device yet.
    pub fn new(settings: Settings) -> (r: Monitor)
        ensures
            r.devices@.len() == 0,
            r.settings == settings,
            r.notifier.last_notification_state.is_none(),
            r.selected_device_idx == 0,
    {
        Monitor { devices: Vec::new(), settings, notifier: Notifier::new(), selected_device_idx: 0 }
    }

    /// Records the device that the user picked in the menu.
    pub fn select_device(&mut self, idx: usize)
        ensures
            final(self).selected_device_idx == idx,
            final(self).devices@ == old(self).devices@,
            final(self).settings == old(self).settings,
            final(self).notifier.last_notification_state == old(
                self,
            ).notifier.last_notification_state,
    {
        self.selected_device_idx = idx;
    }

    /// Flips the notifications setting and returns the settings to store.
    pub fn toggle_notifications(&mut self) -> (r: Settings)
        ensures
            final(self).settings.notifications_enabled == !old(self).settings.notifications_enabled,
            r == final(self).settings,
            final(self).devices@ == old(self).devices@,
            final(self).selected_device_idx == old(self).selected_device_idx,
            final(self).notifier.last_notification_state == old(
                self,
            ).notifier.last_notification_state,
    {
        self.settings.toggle_notifications();
        self.settings
    }

    /// One poll cycle: takes the devices that telemetry reported (`None` when
    /// it failed, read as no device), reconciles them with the previous list,
    /// and for the selected device works out the icon and the notification.
    pub fn poll(&mut self, fresh: Option<Vec<Device>>, theme: Theme) -> (r: PollOutcome)
        ensures
            final(self).devices@ == match fresh {
                Some(v) => v@,
                None => Seq::empty(),
            },
            final(self).settings == old(self).settings,
            final(self).selected_device_idx == old(self).selected_device_idx,
            r.menu_rebuild_needed == (final(self).devices@.len() != old(self).devices@.len()),
            final(self).devices@.len() == 0 ==> r.report.is_none()
                && final(self).notifier.last_notification_state == old(
                self,
            ).notifier.last_notification_state,
            final(self).devices@.len() > 0 ==> r.report.is_some() && ({
                let rep = r.report.unwrap();
                let dev = final(self).devices@[rep.device_idx as int];
                &&& Some(rep.device_idx) == clamp_selection(
                    old(self).selected_device_idx as int,
                    final(self).devices@.len() as int,
                )
                &&& rep.product@ == dev.product@
                &&& rep.battery == dev.battery
                &&& rep.res_id as int == res_id(theme, dev.battery.level as int, dev.battery.status)
                &&& rep.event == fired(
                    old(self).notifier.last_notification_state,
                    dev.battery,
                    old(self).settings.notifications_enabled,
                )
                &&& final(self).notifier.last_notification_state == Some(dev.battery)
            }),
    {
        let devices = match fresh {
            Some(v) => v,
            None => Vec::new(),
        };
        let rec = reconcile(self.devices.len(), &devices, self.selected_device_idx);
        self.devices = devices;
        match rec.selected_index {
            None => PollOutcome { menu_rebuild_needed: rec.menu_rebuild_needed, report: None },
            Some(idx) => {
                let battery = self.devices[idx].battery;
                let product = self.devices[idx].product.clone();
                let event = self.notifier.update_notifier(
                    battery.level,
                    battery.status,
                    self.settings.notifications_enabled,
                );
                let res_id = battery_res_id_for(theme, battery.level, battery.status);
                let report = Report { device_idx: idx, product, battery, res_id, event };
                PollOutcome { menu_rebuild_needed: rec.menu_rebuild_needed, report: Some(report) }
            },
        }
    }
}

/// When the next poll is due: one interval after `now_ms`, measured from the
/// present so that a late wake-up never triggers a burst of polls.
pub fn next_wake(now_ms: u64) -> (r: u64)
    ensures
        r == if now_ms <= u64::MAX - POLL_INTERVAL_MS {
            (now_ms + POLL_INTERVAL_MS) as u64
        } else {
            u64::MAX
        },
{
    if now_ms <= u64::MAX - POLL_INTERVAL_MS {
        now_ms + POLL_INTERVAL_MS
    } else {
        u64::MAX
    }
}

/// Whether a poll is due: more than one interval has passed since the last.
pub fn poll_due(last_update_ms: u64, now_ms: u64) -> (r: bool)
    ensures
        r == (now_ms as int - last_update_ms as int > POLL_INTERVAL_MS as int),
{
    now_ms > last_update_ms && now_ms - last_update_ms > POLL_INTERVAL_MS
}

} // verus!
