use sun::battery::{
    decimal_text, on_battery_change, on_battery_tick, parse_u8, read_power_supply, BatteryState,
    PowerSupplyChanged, PowerSupplyError,
};
use sun::netlink::Uevent;
use sun::{Battery, DecodeError, Hint, Notification, Status, UeventPowerSupply, Urgency};

fn state(last: Status, full: bool) -> BatteryState {
    BatteryState { last_status: last, poll_timeout: 60000, full }
}

fn fresh_notif() -> Notification<()> {
    let mut n = Notification::new();
    n.summary("Battery").icon("/icons/");
    n
}

#[test]
fn status_from_and_to_text() {
    assert_eq!(Status::from_text("Charging"), Status::Charging);
    assert_eq!(Status::from_text("Discharging"), Status::Discharging);
    assert_eq!(Status::from_text("Full"), Status::Full);
    assert_eq!(Status::from_text("Not charging"), Status::Unknown("Not charging".to_string()));
    assert_eq!(Status::Full.to_string(), "Full");
    assert_eq!(Status::Unknown("Odd".to_string()).to_string(), "Odd");
    assert_ne!(Status::Charging, Status::Unknown("Charging".to_string()));
}

#[test]
fn byte_parsing() {
    assert_eq!(parse_u8("47"), Some(47));
    assert_eq!(parse_u8("+7"), Some(7));
    assert_eq!(parse_u8("255"), Some(255));
    assert_eq!(parse_u8("0"), Some(0));
    assert_eq!(parse_u8("256"), None);
    assert_eq!(parse_u8("1000"), None);
    assert_eq!(parse_u8(""), None);
    assert_eq!(parse_u8("+"), None);
    assert_eq!(parse_u8("-1"), None);
    assert_eq!(parse_u8("12a"), None);
}

#[test]
fn decimal_texts() {
    assert_eq!(decimal_text(0), "0");
    assert_eq!(decimal_text(9), "9");
    assert_eq!(decimal_text(40), "40");
    assert_eq!(decimal_text(255), "255");
}

#[test]
fn sysfs_reading() {
    let r = read_power_supply("POWER_SUPPLY_STATUS=Charging\nPOWER_SUPPLY_CAPACITY=81\n").ok().unwrap();
    assert_eq!(r.status, Status::Charging);
    assert_eq!(r.capacity, Some(81));
    let e = read_power_supply("POWER_SUPPLY_STATUS=Full\nPOWER_SUPPLY_ENERGY_NOW=5\n").ok().unwrap();
    assert_eq!(e.status, Status::Full);
    assert_eq!(e.capacity, None);
}

#[test]
fn sysfs_reading_errors() {
    assert_eq!(read_power_supply("POWER_SUPPLY_CAPACITY=81\n").err(), Some(PowerSupplyError::MissingStatus));
    assert_eq!(
        read_power_supply("POWER_SUPPLY_STATUS=Full\nPOWER_SUPPLY_CAPACITY=x\n").err(),
        Some(PowerSupplyError::InvalidCapacity)
    );
}

#[test]
fn power_supply_notice_decoding() {
    let ok = b"change@/devices/BAT0\0SUBSYSTEM=power_supply\0".to_vec();
    assert!(PowerSupplyChanged::from_bytes(&ok).is_ok());
    let other = b"change@/devices/bl\0SUBSYSTEM=backlight\0".to_vec();
    assert_eq!(PowerSupplyChanged::from_bytes(&other).err(), Some(DecodeError::ForeignSubsystem));
}

#[test]
fn change_to_discharging_uses_level_icon() {
    let config = Battery::default();
    let mut st = state(Status::Charging, true);
    let mut n = fresh_notif();
    let ev = UeventPowerSupply { status: Status::Discharging, capacity: 47 };
    assert!(on_battery_change(&mut st, &ev, &config, &mut n));
    assert_eq!(n.icon, "/icons/status/battery-level-40-symbolic.svg");
    assert_eq!(n.body, "Discharging");
    assert_eq!(n.timeout, 2500);
    assert_eq!(n.hints, vec![Hint::Urgency(Urgency::Normal)]);
    assert_eq!(st.last_status, Status::Discharging);
    assert!(!st.full);
    assert_eq!(st.poll_timeout, 60000);
}

#[test]
fn change_level_floor_and_full_charge() {
    let config = Battery::default();
    let mut st = state(Status::Discharging, false);
    let mut n = fresh_notif();
    let ev = UeventPowerSupply { status: Status::Charging, capacity: 5 };
    assert!(on_battery_change(&mut st, &ev, &config, &mut n));
    assert_eq!(n.icon, "/icons/status/battery-level-10-charging-symbolic.svg");
    let mut n2 = fresh_notif();
    let ev2 = UeventPowerSupply { status: Status::Discharging, capacity: 100 };
    assert!(on_battery_change(&mut st, &ev2, &config, &mut n2));
    assert_eq!(n2.icon, "/icons/status/battery-level-100-symbolic.svg");
}

#[test]
fn change_to_full_stops_polling() {
    let config = Battery::default();
    let mut st = state(Status::Charging, false);
    let mut n = fresh_notif();
    let ev = UeventPowerSupply { status: Status::Full, capacity: 100 };
    assert!(on_battery_change(&mut st, &ev, &config, &mut n));
    assert!(st.full);
    assert_eq!(st.poll_timeout, -1);
    assert_eq!(n.icon, "/icons/status/battery-level-100-charged-symbolic.svg");
}

#[test]
fn static_icon_is_kept() {
    let mut config = Battery::default();
    config.dynamic_discharging_icon = false;
    let mut st = state(Status::Charging, false);
    let mut n = fresh_notif();
    let ev = UeventPowerSupply { status: Status::Discharging, capacity: 47 };
    assert!(on_battery_change(&mut st, &ev, &config, &mut n));
    assert_eq!(n.icon, "/icons/status/battery-level-{level}-symbolic.svg");
}

#[test]
fn unchanged_or_unknown_status_is_not_shown() {
    let config = Battery::default();
    let mut st = state(Status::Charging, false);
    let mut n = fresh_notif();
    let same = UeventPowerSupply { status: Status::Charging, capacity: 50 };
    assert!(!on_battery_change(&mut st, &same, &config, &mut n));
    assert_eq!(n.body, "");
    let odd = UeventPowerSupply { status: Status::Unknown("Odd".to_string()), capacity: 50 };
    assert!(!on_battery_change(&mut st, &odd, &config, &mut n));
    assert_eq!(st.last_status, Status::Unknown("Odd".to_string()));
    assert_eq!(n.icon, "/icons/");
}

#[test]
fn tick_notifies_full_once() {
    let config = Battery::default();
    let mut st = state(Status::Charging, false);
    let mut n = fresh_notif();
    let reading = UeventPowerSupply { status: Status::Full, capacity: 100 };
    assert!(on_battery_tick(&mut st, &reading, &config, &mut n));
    assert_eq!(n.body, "Battery is full");
    assert_eq!(n.timeout, 0);
    assert_eq!(n.icon, "/icons/status/battery-level-100-charged-symbolic.svg");
    assert!(st.full);
    assert_eq!(st.poll_timeout, -1);
    let mut n2 = fresh_notif();
    assert!(!on_battery_tick(&mut st, &reading, &config, &mut n2));
    assert_eq!(n2.body, "Charging");
}

#[test]
fn tick_warns_on_low_charge() {
    let config = Battery::default();
    let mut st = state(Status::Discharging, false);
    let mut n = fresh_notif();
    let reading = UeventPowerSupply { status: Status::Discharging, capacity: 15 };
    assert!(on_battery_tick(&mut st, &reading, &config, &mut n));
    assert_eq!(n.body, "15% left, connect charger");
    assert_eq!(n.icon, "/icons/status/battery-caution-symbolic.svg");
    assert_eq!(n.hints, vec![Hint::Urgency(Urgency::Critical)]);
    let mut n2 = fresh_notif();
    let fine = UeventPowerSupply { status: Status::Discharging, capacity: 16 };
    assert!(!on_battery_tick(&mut st, &fine, &config, &mut n2));
}
