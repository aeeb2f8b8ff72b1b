use vstd::prelude::*;
use vstd::string::*;
use crate::battery::{decimal, decimal_text};
use crate::config::Sound;
use crate::notif::{timeout_millis, timeout_of, with_hint, Hint, Notification, NotificationView, Timeout, Urgency};

verus! {

/// What the audio layer reads about the default output device.
pub struct SinkInfo {
    /// Volume in percent of the normal volume.
    pub volume_percent: i32,
    pub mute: bool,
    /// Whether the device sits on the bluetooth bus.
    pub bluetooth: bool,
    /// The device's description, where it has one.
    pub description: Option<String>,
    /// Battery charge of a bluetooth device, where the bus reports one.
    pub battery: Option<u8>,
}

/// What the audio layer reads about the default input device.
pub struct SourceInfo {
    pub volume_percent: i32,
    pub mute: bool,
}

/// The outcome of preparing the output-device notification.
pub struct SinkOutcome {
    /// Whether to show the notification now.
    pub show: bool,
    /// Seconds until the bluetooth battery should be read again; none
    /// where the device reports no battery.
    pub poll_secs: Option<u64>,
    /// Whether the battery is at or below the warning level.
    pub low_battery: bool,
}

/// The body before the battery note: the description of a bluetooth
/// device, else "Volume".
pub open spec fn sink_body_base(info: SinkInfo) -> Seq<char> {
    if info.bluetooth { info.description->0@ } else { "Volume"@ }
}

pub open spec fn is_low(config: Sound, info: SinkInfo) -> bool {
    info.battery matches Some(b) && b <= config.sink_bluetooth_low_battery_warn_at
}

/// The note on the battery that the body ends with.
pub open spec fn battery_note(config: Sound, info: SinkInfo) -> Seq<char> {
    match info.battery {
        None => Seq::empty(),
        Some(b) => if b <= config.sink_bluetooth_low_battery_warn_at {
            " ("@ + decimal(b as nat) + "%) Low battery"@
        } else {
            " ("@ + decimal(b as nat) + "%)"@
        },
    }
}

pub open spec fn sink_icon(config: Sound, info: SinkInfo) -> Seq<char> {
    if info.mute {
        config.sink_muted_icon@
    } else if info.battery is Some {
        config.sink_bluetooth_icon@
    } else {
        config.sink_icon@
    }
}

/// The output-device notification that `info` calls for.
pub open spec fn sink_view<C>(n: NotificationView<C>, config: Sound, info: SinkInfo) -> NotificationView<C> {
    let low = is_low(config, info);
    let with_value = with_hint(n.hints, Hint::Value(info.volume_percent));
    NotificationView {
        summary: if info.mute { "Sound muted"@ } else { "Sound"@ },
        body: sink_body_base(info) + battery_note(config, info),
        icon: config.icon_path@ + sink_icon(config, info),
        timeout: if low {
            timeout_millis(timeout_of(config.sink_bluetooth_low_battery_timeout)) as i32
        } else {
            timeout_millis(timeout_of(config.sink_notification_timeout)) as i32
        },
        hints: if low { with_hint(with_value, Hint::Urgency(Urgency::Critical)) } else { with_value },
        ..n
    }
}

/// Prepares the output-device notification. `closed` records that the
/// user closed the low-battery warning; a battery above the warning level
/// clears it. Where only a low-battery warning is due (`only_low`), the
/// notification is shown only for a low battery whose warning was not closed.
pub fn sink_notification<C>(
    notif: &mut Notification<C>,
    config: &Sound,
    info: &SinkInfo,
    only_low: bool,
    closed: &mut bool,
) -> (r: SinkOutcome)
    requires
        info.bluetooth ==> info.description is Some,
    ensures
        final(notif)@ == sink_view(old(notif)@, *config, *info),
        r.low_battery == is_low(*config, *info),
        r.poll_secs == match info.battery {
            Some(_) => Some(config.sink_bluetooth_battery_poll_timeout),
            None => None::<u64>,
        },
        *final(closed) == if info.battery is Some && !is_low(*config, *info) {
            false
        } else {
            *old(closed)
        },
        r.show == (!only_low || (is_low(*config, *info) && !*final(closed))),
{
    notif.timeout(Timeout::from(config.sink_notification_timeout))
        .summary("Sound")
        .body("Volume")
        .icon(&config.icon_path)
        .hint(Hint::Value(info.volume_percent));
    if info.bluetooth {
        match &info.description {
            Some(d) => {
                notif.body = d.clone();
            },
            None => {},
        }
    }
    let mut poll_secs: Option<u64> = None;
    let mut low_battery = false;
    match info.battery {
        Some(battery) => {
            poll_secs = Some(config.sink_bluetooth_battery_poll_timeout);
            let pct = decimal_text(battery);
            if battery <= config.sink_bluetooth_low_battery_warn_at {
                low_battery = true;
                notif.timeout(Timeout::from(config.sink_bluetooth_low_battery_timeout));
                notif.urgency(Urgency::Critical);
                notif.body.append(" (");
                notif.body.append(&pct);
                notif.body.append("%) Low battery");
            } else {
                *closed = false;
                notif.body.append(" (");
                notif.body.append(&pct);
                notif.body.append("%)");
            }
        },
        None => {},
    }
    if info.mute {
        notif.summary.append(" muted");
        notif.icon.append(&config.sink_muted_icon);
    } else if poll_secs.is_some() {
        notif.icon.append(&config.sink_bluetooth_icon);
    } else {
        notif.icon.append(&config.sink_icon);
    }
    proof {
        reveal_strlit("Sound");
        reveal_strlit(" muted");
        reveal_strlit("Sound muted");
        let v = sink_view(old(notif)@, *config, *info);
        assert(notif@.summary =~= v.summary);
        assert(notif@.body =~= v.body);
        assert(notif@.icon =~= v.icon);
        assert(notif@.timeout == v.timeout);
        assert(notif@.hints == v.hints);
    }
    SinkOutcome { show: !only_low || (low_battery && !*closed), poll_secs, low_battery }
}

/// The input-device notification that `info` calls for.
pub open spec fn source_view<C>(n: NotificationView<C>, config: Sound, info: SourceInfo) -> NotificationView<C> {
    NotificationView {
        summary: if info.mute { "Mic muted"@ } else { "Mic"@ },
        body: "Volume"@,
        icon: config.icon_path@ + if info.mute { config.source_muted_icon@ } else { config.source_icon@ },
        timeout: timeout_millis(timeout_of(config.source_notification_timeout)) as i32,
        hints: with_hint(with_hint(n.hints, Hint::Urgency(Urgency::Normal)), Hint::Value(info.volume_percent)),
        ..n
    }
}

/// Prepares the input-device notification; it is always shown.
pub fn source_notification<C>(notif: &mut Notification<C>, config: &Sound, info: &SourceInfo)
    ensures
        final(notif)@ == source_view(old(notif)@, *config, *info),
{
    notif.summary("Mic")
        .body("Volume")
        .urgency(Urgency::Normal)
        .timeout(Timeout::from(config.source_notification_timeout))
        .icon(&config.icon_path)
        .hint(Hint::Value(info.volume_percent));
    if info.mute {
        notif.summary.append(" muted");
        notif.icon.append(&config.source_muted_icon);
    } else {
        notif.icon.append(&config.source_icon);
    }
    proof {
        reveal_strlit("Mic");
        reveal_strlit(" muted");
        reveal_strlit("Mic muted");
        let v = source_view(old(notif)@, *config, *info);
        assert(notif@.summary =~= v.summary);
        assert(notif@.body =~= v.body);
        assert(notif@.icon =~= v.icon);
        assert(notif@.timeout == v.timeout);
        assert(notif@.hints == v.hints);
        assert(notif@.id == v.id);
    }
}

} // verus!
