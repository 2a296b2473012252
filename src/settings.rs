use vstd::prelude::*;

verus! {

/// The user's preferences, stored by the host as one registry value.
#[derive(Clone, Copy, Debug, PartialEq, Eq, Structural)]
pub struct Settings {
    pub notifications_enabled: bool,
}

impl Settings {
    /// Reads the settings from the stored value: any non-zero value enables
    /// notifications.
    pub fn from_registry_value(value: u32) -> (r: Settings)
        ensures
            r.notifications_enabled == (value != 0),
    {
        Settings { notifications_enabled: value != 0 }
    }

    /// The value to store for these settings: 1 when notifications are
    /// enabled, else 0.
    pub fn registry_value(&self) -> (r: u32)
        ensures
            r == if self.notifications_enabled { 1u32 } else { 0u32 },
    {
        if self.notifications_enabled { 1 } else { 0 }
    }

    /// Flips the notifications setting and returns its new value.
    pub fn toggle_notifications(&mut self) -> (r: bool)
        ensures
            final(self).notifications_enabled == !old(self).notifications_enabled,
            r == final(self).notifications_enabled,
    {
        self.notifications_enabled = !self.notifications_enabled;
        self.notifications_enabled
    }
}

impl Default for Settings {
    /// The settings used when none are stored: notifications off, as an
    /// absent value reads.
    fn default() -> (r: Settings)
        ensures
            r.notifications_enabled == false,
    {
        Settings { notifications_enabled: false }
    }
}

} // verus!
