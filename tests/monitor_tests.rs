use headset_battery_indicator::battery::{BatterySample, BatteryState, Device, Theme};
use headset_battery_indicator::icon::battery_res_id_for;
use headset_battery_indicator::lang::{lang_for_locale, same_text, t, text, Key, Lang};
use headset_battery_indicator::monitor::{next_wake, poll_due, reconcile, Monitor};
use headset_battery_indicator::notify::{evaluate, NotificationEvent, Notifier};
use headset_battery_indicator::settings::Settings;
use headset_battery_indicator::toast::{
    embedded_notif_png, logo_file_name, path_to_file_uri, square_layout,
};

use BatteryState::{BatteryAvailable, BatteryCharging, BatteryDisconnected, BatteryUnavailable};

fn device(name: &str, level: isize, status: BatteryState) -> Device {
    Device::new(name.to_string(), level, status)
}

#[test]
fn load_all_icons() {
    for i in 0..=100 {
        let id = battery_res_id_for(Theme::Dark, i, BatteryAvailable);
        assert!([10, 20, 30, 40, 50].contains(&id));
    }
    for i in 0..=100 {
        let id = battery_res_id_for(Theme::Light, i, BatteryAvailable);
        assert!([15, 25, 35, 45, 55].contains(&id));
    }
}

#[test]
fn icon_boundaries() {
    assert_eq!(battery_res_id_for(Theme::Dark, 12, BatteryAvailable), 10);
    assert_eq!(battery_res_id_for(Theme::Dark, 13, BatteryAvailable), 20);
    assert_eq!(battery_res_id_for(Theme::Dark, 87, BatteryAvailable), 40);
    assert_eq!(battery_res_id_for(Theme::Dark, 88, BatteryAvailable), 50);
    assert_eq!(battery_res_id_for(Theme::Light, 0, BatteryAvailable), 15);
    assert_eq!(battery_res_id_for(Theme::Dark, 50, BatteryCharging), 31);
    assert_eq!(battery_res_id_for(Theme::Light, 50, BatteryUnavailable), 15);
    assert_eq!(battery_res_id_for(Theme::Dark, -1, BatteryAvailable), 10);
}

#[test]
fn icon_other_cases() {
    assert_eq!(battery_res_id_for(Theme::Light, 100, BatteryCharging), 56);
    assert_eq!(battery_res_id_for(Theme::Dark, 150, BatteryAvailable), 50);
    assert_eq!(battery_res_id_for(Theme::Dark, 37, BatteryDisconnected), 20);
    assert_eq!(battery_res_id_for(Theme::Dark, 38, BatteryAvailable), 30);
    assert_eq!(battery_res_id_for(Theme::Dark, 63, BatteryAvailable), 40);
    assert_eq!(battery_res_id_for(Theme::Dark, 90, BatteryUnavailable), 10);
}

#[test]
fn icon_is_idempotent() {
    for p in -1..=120 {
        for s in [BatteryAvailable, BatteryCharging, BatteryDisconnected, BatteryUnavailable] {
            for th in [Theme::Light, Theme::Dark] {
                assert_eq!(battery_res_id_for(th, p, s), battery_res_id_for(th, p, s));
            }
        }
    }
}

#[test]
fn low_then_critical_fire_once() {
    let mut n = Notifier::new();
    assert_eq!(n.update_notifier(15, BatteryAvailable, true), None);
    assert_eq!(n.update_notifier(9, BatteryAvailable, true), Some(NotificationEvent::LowBattery(9)));
    assert_eq!(n.update_notifier(9, BatteryAvailable, true), None);
    assert_eq!(
        n.update_notifier(2, BatteryAvailable, true),
        Some(NotificationEvent::CriticalBattery(2))
    );
    assert_eq!(n.update_notifier(2, BatteryAvailable, true), None);
}

#[test]
fn charging_suppresses_low() {
    let mut n = Notifier::new();
    assert_eq!(n.update_notifier(5, BatteryAvailable, true), None);
    assert_eq!(
        n.update_notifier(5, BatteryCharging, true),
        Some(NotificationEvent::ChargingStarted(5))
    );
}

#[test]
fn full_charge_requires_charging() {
    let mut n = Notifier::new();
    n.update_notifier(99, BatteryAvailable, true);
    assert_eq!(n.update_notifier(100, BatteryAvailable, true), None);

    let mut n = Notifier::new();
    n.update_notifier(99, BatteryCharging, true);
    assert_eq!(n.update_notifier(100, BatteryCharging, true), Some(NotificationEvent::FullyCharged));
}

#[test]
fn disabled_notifications_advance_memory() {
    let mut n = Notifier::new();
    assert_eq!(n.update_notifier(15, BatteryAvailable, false), None);
    assert_eq!(n.update_notifier(5, BatteryAvailable, false), None);
    assert_eq!(n.update_notifier(15, BatteryAvailable, false), None);
    assert_eq!(n.update_notifier(9, BatteryAvailable, true), Some(NotificationEvent::LowBattery(9)));
}

#[test]
fn unavailable_reading_fires_no_warning() {
    let prev = BatterySample { level: 50, status: BatteryAvailable };
    let cur = BatterySample { level: 5, status: BatteryUnavailable };
    assert_eq!(evaluate(Some(prev), cur, true), (None, cur));
    assert_eq!(evaluate(None, cur, true), (None, cur));
}

#[test]
fn event_messages() {
    assert_eq!(NotificationEvent::LowBattery(9).message(), "Battery low (9%)");
    assert_eq!(NotificationEvent::CriticalBattery(2).message(), "Battery critical (2%)");
    assert_eq!(NotificationEvent::ChargingStarted(45).message(), "Charging started [45%]");
    assert_eq!(NotificationEvent::FullyCharged.message(), "Battery full");
    assert_eq!(NotificationEvent::LowBattery(-1).message(), "Battery low (-1%)");
}

#[test]
fn reconciler_clamps_selection() {
    let three = vec![
        device("a", 50, BatteryAvailable),
        device("b", 50, BatteryAvailable),
        device("c", 50, BatteryAvailable),
    ];
    let r = reconcile(0, &three, 2);
    assert_eq!(r.selected_index, Some(2));
    assert!(r.menu_rebuild_needed);
    let one = vec![device("a", 50, BatteryAvailable)];
    let r = reconcile(3, &one, 2);
    assert_eq!(r.selected_index, Some(0));
    assert!(r.menu_rebuild_needed);
    let r = reconcile(1, &one, 0);
    assert!(!r.menu_rebuild_needed);
    let r = reconcile(1, &Vec::new(), 0);
    assert_eq!(r.selected_index, None);
}

#[test]
fn monitor_poll_cycle() {
    let mut m = Monitor::new(Settings { notifications_enabled: true });
    let out = m.poll(
        Some(vec![device("x", 20, BatteryAvailable), device("y", 15, BatteryAvailable)]),
        Theme::Dark,
    );
    assert!(out.menu_rebuild_needed);
    let rep = out.report.unwrap();
    assert_eq!(rep.device_idx, 0);
    assert_eq!(rep.product, "x");
    assert_eq!(rep.res_id, 20);
    assert_eq!(rep.event, None);

    m.select_device(5);
    let out = m.poll(
        Some(vec![device("x", 20, BatteryAvailable), device("y", 9, BatteryAvailable)]),
        Theme::Light,
    );
    assert!(!out.menu_rebuild_needed);
    let rep = out.report.unwrap();
    assert_eq!(rep.device_idx, 1);
    assert_eq!(rep.product, "y");
    assert_eq!(rep.res_id, 15);
    assert_eq!(rep.event, Some(NotificationEvent::LowBattery(9)));

    let out = m.poll(None, Theme::Dark);
    assert!(out.menu_rebuild_needed);
    assert!(out.report.is_none());
    assert_eq!(m.devices.len(), 0);
}

#[test]
fn monitor_toggle_keeps_memory() {
    let mut m = Monitor::new(Settings::default());
    assert!(!m.settings.notifications_enabled);
    m.poll(Some(vec![device("x", 15, BatteryAvailable)]), Theme::Dark);
    m.poll(Some(vec![device("x", 12, BatteryAvailable)]), Theme::Dark);
    let s = m.toggle_notifications();
    assert!(s.notifications_enabled);
    let out = m.poll(Some(vec![device("x", 9, BatteryAvailable)]), Theme::Dark);
    assert_eq!(out.report.unwrap().event, Some(NotificationEvent::LowBattery(9)));
}

#[test]
fn poll_timing() {
    assert!(!poll_due(1000, 2000));
    assert!(poll_due(1000, 2001));
    assert!(!poll_due(5000, 10));
    assert_eq!(next_wake(2500), 3500);
    assert_eq!(next_wake(u64::MAX - 10), u64::MAX);
}

#[test]
fn settings_registry_value() {
    assert!(Settings::from_registry_value(7).notifications_enabled);
    assert!(!Settings::from_registry_value(0).notifications_enabled);
    assert_eq!(Settings { notifications_enabled: true }.registry_value(), 1);
    assert_eq!(Settings { notifications_enabled: false }.registry_value(), 0);
    let mut s = Settings::default();
    assert!(s.toggle_notifications());
    assert!(!s.toggle_notifications());
}

#[test]
fn locale_selection() {
    assert_eq!(lang_for_locale("fi-FI"), Lang::Fi);
    assert_eq!(lang_for_locale("de-CH"), Lang::De);
    assert_eq!(lang_for_locale("it"), Lang::It);
    assert_eq!(lang_for_locale("en-US"), Lang::En);
    assert_eq!(lang_for_locale("fr-FR"), Lang::En);
    assert_eq!(lang_for_locale(""), Lang::En);
    assert!(same_text("abc", "abc"));
    assert!(!same_text("abc", "abd"));
    assert!(!same_text("ab", "abc"));
}

#[test]
fn translated_texts() {
    assert_eq!(text(Lang::En, Key::no_adapter_found), "No headphone adapter found");
    assert_eq!(text(Lang::Fi, Key::device_charging), "(Latautuu)");
    assert_eq!(text(Lang::De, Key::battery_unavailable), "(Akkustand nicht verfügbar)");
    assert_eq!(text(Lang::It, Key::version), "Versione");
    let any = t(Key::quit_program);
    assert!(["Close", "Sulje", "Beenden", "Chiudi"].contains(&any));
}

#[test]
fn notification_pictures() {
    assert_eq!(embedded_notif_png(0, false), Some("batt-5.png"));
    assert_eq!(embedded_notif_png(7, true), Some("batt-5-charg.png"));
    assert_eq!(embedded_notif_png(8, false), Some("batt-10.png"));
    assert_eq!(embedded_notif_png(37, true), Some("batt-25-charg.png"));
    assert_eq!(embedded_notif_png(50, false), Some("batt-50.png"));
    assert_eq!(embedded_notif_png(87, true), Some("batt-75-charg.png"));
    assert_eq!(embedded_notif_png(100, false), Some("batt-full.png"));
    assert_eq!(embedded_notif_png(-1, true), Some("batt-full-charg.png"));
    assert_eq!(logo_file_name("batt-5.png"), "logo-batt-5.png");
}

#[test]
fn square_logo_layout() {
    assert_eq!(square_layout(113, 51), (113, 0, 31));
    assert_eq!(square_layout(20, 40), (40, 10, 0));
    assert_eq!(square_layout(7, 7), (7, 0, 0));
}

#[test]
fn file_uris() {
    assert_eq!(
        path_to_file_uri("C:\\Users\\me\\logo.png").as_deref(),
        Some("file:///C:/Users/me/logo.png")
    );
    assert_eq!(
        path_to_file_uri("\\\\?\\D:\\icons\\a.png").as_deref(),
        Some("file:///D:/icons/a.png")
    );
    assert_eq!(path_to_file_uri("/home/me/a.png").as_deref(), Some("file:///home/me/a.png"));
    assert_eq!(path_to_file_uri("relative\\a.png"), None);
    assert_eq!(path_to_file_uri(""), None);
    assert_eq!(path_to_file_uri("\\srv\\a").as_deref(), Some("file:///srv/a"));
}
