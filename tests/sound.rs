use sun::sound::{sink_notification, source_notification, SinkInfo, SourceInfo};
use sun::{Hint, Notification, Sound, Urgency};

const DIR: &str = "/usr/share/icons/Adwaita/symbolic/";

fn info(battery: Option<u8>, mute: bool) -> SinkInfo {
    SinkInfo {
        volume_percent: 50,
        mute,
        bluetooth: battery.is_some(),
        description: battery.map(|_| "Headphones".to_string()),
        battery,
    }
}

#[test]
fn plain_sink_notification() {
    let config = Sound::default();
    let mut n: Notification<()> = Notification::new();
    let mut closed = false;
    let r = sink_notification(&mut n, &config, &info(None, false), false, &mut closed);
    assert!(r.show);
    assert_eq!(r.poll_secs, None);
    assert_eq!(n.summary, "Sound");
    assert_eq!(n.body, "Volume");
    assert_eq!(n.icon, format!("{DIR}status/audio-volume-high-symbolic.svg"));
    assert_eq!(n.timeout, 2500);
    assert_eq!(n.hints, vec![Hint::Value(50)]);
}

#[test]
fn muted_sink_notification() {
    let config = Sound::default();
    let mut n: Notification<()> = Notification::new();
    let mut closed = false;
    sink_notification(&mut n, &config, &info(None, true), false, &mut closed);
    assert_eq!(n.summary, "Sound muted");
    assert_eq!(n.icon, format!("{DIR}status/audio-volume-muted-symbolic.svg"));
}

#[test]
fn low_bluetooth_battery_warns() {
    let config = Sound::default();
    let mut n: Notification<()> = Notification::new();
    let mut closed = false;
    let r = sink_notification(&mut n, &config, &info(Some(10), false), true, &mut closed);
    assert!(r.show);
    assert!(r.low_battery);
    assert_eq!(r.poll_secs, Some(30));
    assert_eq!(n.body, "Headphones (10%) Low battery");
    assert_eq!(n.timeout, 0);
    assert_eq!(n.hints, vec![Hint::Value(50), Hint::Urgency(Urgency::Critical)]);
    let mut closed_now = true;
    let again = sink_notification(&mut n, &config, &info(Some(10), false), true, &mut closed_now);
    assert!(!again.show);
    assert!(closed_now);
}

#[test]
fn healthy_bluetooth_battery_clears_closed() {
    let config = Sound::default();
    let mut n: Notification<()> = Notification::new();
    let mut closed = true;
    let r = sink_notification(&mut n, &config, &info(Some(80), false), true, &mut closed);
    assert!(!r.show);
    assert!(!closed);
    assert_eq!(n.body, "Headphones (80%)");
    assert_eq!(n.icon, format!("{DIR}status/audio-volume-high-symbolic.svg"));
}

#[test]
fn source_notifications() {
    let config = Sound::default();
    let mut n: Notification<()> = Notification::new();
    source_notification(&mut n, &config, &SourceInfo { volume_percent: 70, mute: true });
    assert_eq!(n.summary, "Mic muted");
    assert_eq!(n.body, "Volume");
    assert_eq!(n.icon, format!("{DIR}status/microphone-sensetivity-muted-symbolic.svg"));
    assert_eq!(n.hints, vec![Hint::Urgency(Urgency::Normal), Hint::Value(70)]);
}
