use vstd::prelude::*;
use crate::battery::{BatteryState, Theme};

verus! {

/// The display tier (1 to 5) of a battery percentage; an unknown level (`-1`)
/// shows as the lowest tier.
pub open spec fn level_bucket(percent: int) -> int {
    if percent == -1 {
        1
    } else if 0 <= percent <= 12 {
        1
    } else if 13 <= percent <= 37 {
        2
    } else if 38 <= percent <= 62 {
        3
    } else if 63 <= percent <= 87 {
        4
    } else {
        5
    }
}

/// Light icons sit five ids above their dark counterparts.
pub open spec fn theme_offset(theme: Theme) -> int {
    if theme == Theme::Light { 5 } else { 0 }
}

/// The icon resource id for a reading: one "unavailable" glyph per theme, else
/// the tier's id, with charging icons one id above.
pub open spec fn res_id(theme: Theme, percent: int, state: BatteryState) -> int {
    if state == BatteryState::BatteryUnavailable {
        10 + theme_offset(theme)
    } else {
        level_bucket(percent) * 10 + theme_offset(theme) + if state == BatteryState::BatteryCharging {
            1int
        } else {
            0int
        }
    }
}

/// Picks the tray icon resource for a battery reading.
pub fn battery_res_id_for(theme: Theme, battery_percent: isize, state: BatteryState) -> (r: u16)
    ensures
        r as int == res_id(theme, battery_percent as int, state),
{
    let level: u16 = if battery_percent == -1 {
        1
    } else if 0 <= battery_percent && battery_percent <= 12 {
        1
    } else if 13 <= battery_percent && battery_percent <= 37 {
        2
    } else if 38 <= battery_percent && battery_percent <= 62 {
        3
    } else if 63 <= battery_percent && battery_percent <= 87 {
        4
    } else {
        5
    };
    let theme_offset: u16 = if theme == Theme::Light { 5 } else { 0 };
    let charging_offset: u16 = if state == BatteryState::BatteryCharging { 1 } else { 0 };
    if state == BatteryState::BatteryUnavailable {
        10 + theme_offset
    } else {
        level * 10 + theme_offset + charging_offset
    }
}

/// The resource id depends on the reading alone: two calls on the same
/// theme, percentage and state give the same id.
pub proof fn lemma_res_id_idempotent(
    theme: Theme,
    percent: isize,
    state: BatteryState,
    first: u16,
    second: u16,
)
    requires
        first as int == res_id(theme, percent as int, state),
        second as int == res_id(theme, percent as int, state),
    ensures
        first == second,
{
}

} // verus!
