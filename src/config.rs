use vstd::prelude::*;
use crate::module::Module;

verus! {

/// Directory that every icon name below is relative to.
pub const DEFAULT_ICON_PATH: &'static str = "/usr/share/icons/Adwaita/symbolic/";

pub const DEFAULT_SINK_ICON: &'static str = "status/audio-volume-high-symbolic.svg";
pub const DEFAULT_SINK_MUTED_ICON: &'static str = "status/audio-volume-muted-symbolic.svg";
pub const DEFAULT_SINK_BLUETOOTH_ICON: &'static str = "status/audio-volume-high-symbolic.svg";
pub const DEFAULT_SOURCE_ICON: &'static str = "status/microphone-sensetivity-high-symbolic.svg";
pub const DEFAULT_SOURCE_MUTED_ICON: &'static str = "status/microphone-sensetivity-muted-symbolic.svg";
pub const DEFAULT_KEYBOARD_ICON: &'static str = "devices/input-keyboard-symbolic.svg";
pub const DEFAULT_BRIGHTNESS_ICON: &'static str = "status/display-brightness-symbolic.svg";
pub const DEFAULT_BATTERY_FULL_ICON: &'static str = "status/battery-level-100-charged-symbolic.svg";
pub const DEFAULT_BATTERY_LOW_ICON: &'static str = "status/battery-caution-symbolic.svg";
pub const DEFAULT_BATTERY_CHARGING_ICON: &'static str = "status/battery-level-{level}-charging-symbolic.svg";
pub const DEFAULT_BATTERY_DISCHARGING_ICON: &'static str = "status/battery-level-{level}-symbolic.svg";
/// Power supply that the battery monitor reads.
pub const DEFAULT_BATTERY_TARGET: &'static str = "BAT0";
/// Milliseconds between two battery polls while not full.
pub const DEFAULT_BATTERY_POLL_TIMEOUT: i32 = 60000;
/// Capacity, in percent, at or below which a discharging battery warns.
pub const DEFAULT_BATTERY_WARN_AT: u8 = 15;

fn owned(s: &str) -> (r: String)
    ensures
        r@ == s@,
{
    s.to_owned()
}

/// Settings of the battery monitor.
#[derive(Clone, Debug)]
pub struct Battery {
    pub off: bool,
    pub target: String,
    pub poll_timeout: i32,
    pub warn_at: u8,
    pub icon_path: String,
    pub full_icon: String,
    pub low_icon: String,
    pub charging_icon: String,
    pub dynamic_charging_icon: bool,
    pub discharging_icon: String,
    pub dynamic_discharging_icon: bool,
}

/// Settings of the audio monitor.
#[derive(Clone, Debug)]
pub struct Sound {
    pub off: bool,
    pub icon_path: String,
    pub sink_icon: String,
    pub sink_muted_icon: String,
    pub sink_bluetooth_icon: String,
    pub sink_bluetooth_battery_poll_timeout: u64,
    pub sink_bluetooth_low_battery_warn_at: u8,
    pub sink_bluetooth_low_battery_timeout: i32,
    pub sink_notification_timeout: i32,
    pub source_icon: String,
    pub source_muted_icon: String,
    pub source_notification_timeout: i32,
}

/// Settings of the keyboard layout monitor.
#[derive(Clone, Debug)]
pub struct Keyboard {
    pub off: bool,
    pub icon_path: String,
    pub icon: String,
}

/// Settings of the backlight monitor.
#[derive(Clone, Debug)]
pub struct Brightness {
    pub off: bool,
    pub icon_path: String,
    pub icon: String,
}

/// One immutable configuration snapshot: a section per module.
#[derive(Clone, Debug)]
pub struct Config {
    pub sound: Sound,
    pub battery: Battery,
    pub keyboard: Keyboard,
    pub brightness: Brightness,
}

impl Default for Battery {
    fn default() -> (r: Self)
        ensures
            !r.off,
            r.target@ == DEFAULT_BATTERY_TARGET@,
            r.poll_timeout == DEFAULT_BATTERY_POLL_TIMEOUT,
            r.warn_at == DEFAULT_BATTERY_WARN_AT,
            r.icon_path@ == DEFAULT_ICON_PATH@,
            r.full_icon@ == DEFAULT_BATTERY_FULL_ICON@,
            r.low_icon@ == DEFAULT_BATTERY_LOW_ICON@,
            r.charging_icon@ == DEFAULT_BATTERY_CHARGING_ICON@,
            r.dynamic_charging_icon,
            r.discharging_icon@ == DEFAULT_BATTERY_DISCHARGING_ICON@,
            r.dynamic_discharging_icon,
    {
        Battery {
            off: false,
            target: owned(DEFAULT_BATTERY_TARGET),
            poll_timeout: DEFAULT_BATTERY_POLL_TIMEOUT,
            warn_at: DEFAULT_BATTERY_WARN_AT,
            icon_path: owned(DEFAULT_ICON_PATH),
            full_icon: owned(DEFAULT_BATTERY_FULL_ICON),
            low_icon: owned(DEFAULT_BATTERY_LOW_ICON),
            charging_icon: owned(DEFAULT_BATTERY_CHARGING_ICON),
            dynamic_charging_icon: true,
            discharging_icon: owned(DEFAULT_BATTERY_DISCHARGING_ICON),
            dynamic_discharging_icon: true,
        }
    }
}

impl Default for Sound {
    fn default() -> (r: Self)
        ensures
            !r.off,
            r.icon_path@ == DEFAULT_ICON_PATH@,
            r.sink_icon@ == DEFAULT_SINK_ICON@,
            r.sink_muted_icon@ == DEFAULT_SINK_MUTED_ICON@,
            r.sink_bluetooth_icon@ == DEFAULT_SINK_BLUETOOTH_ICON@,
            r.sink_bluetooth_battery_poll_timeout == 30,
            r.sink_bluetooth_low_battery_warn_at == 15,
            r.sink_bluetooth_low_battery_timeout == -1,
            r.sink_notification_timeout == 2500,
            r.source_icon@ == DEFAULT_SOURCE_ICON@,
            r.source_muted_icon@ == DEFAULT_SOURCE_MUTED_ICON@,
            r.source_notification_timeout == 2500,
    {
        Sound {
            off: false,
            icon_path: owned(DEFAULT_ICON_PATH),
            sink_icon: owned(DEFAULT_SINK_ICON),
            sink_muted_icon: owned(DEFAULT_SINK_MUTED_ICON),
            sink_bluetooth_icon: owned(DEFAULT_SINK_BLUETOOTH_ICON),
            sink_bluetooth_battery_poll_timeout: 30,
            sink_bluetooth_low_battery_warn_at: 15,
            sink_bluetooth_low_battery_timeout: -1,
            sink_notification_timeout: 2500,
            source_icon: owned(DEFAULT_SOURCE_ICON),
            source_muted_icon: owned(DEFAULT_SOURCE_MUTED_ICON),
            source_notification_timeout: 2500,
        }
    }
}

impl Default for Keyboard {
    fn default() -> (r: Self)
        ensures
            !r.off,
            r.icon_path@ == DEFAULT_ICON_PATH@,
            r.icon@ == DEFAULT_KEYBOARD_ICON@,
    {
        Keyboard { off: false, icon_path: owned(DEFAULT_ICON_PATH), icon: owned(DEFAULT_KEYBOARD_ICON) }
    }
}

impl Default for Brightness {
    fn default() -> (r: Self)
        ensures
            !r.off,
            r.icon_path@ == DEFAULT_ICON_PATH@,
            r.icon@ == DEFAULT_BRIGHTNESS_ICON@,
    {
        Brightness {
            off: false,
            icon_path: owned(DEFAULT_ICON_PATH),
            icon: owned(DEFAULT_BRIGHTNESS_ICON),
        }
    }
}

impl Default for Config {
    fn default() -> (r: Self)
        ensures
            forall|m: Module| r.enabled(m),
            r.battery.target@ == DEFAULT_BATTERY_TARGET@,
            r.battery.warn_at == DEFAULT_BATTERY_WARN_AT,
            r.battery.poll_timeout == DEFAULT_BATTERY_POLL_TIMEOUT,
    {
        Config {
            sound: Sound::default(),
            battery: Battery::default(),
            keyboard: Keyboard::default(),
            brightness: Brightness::default(),
        }
    }
}

impl Config {
    /// Whether the snapshot has module `m` switched on.
    pub open spec fn enabled(&self, m: Module) -> bool {
        match m {
            Module::Sound => !self.sound.off,
            Module::Battery => !self.battery.off,
            Module::Keyboard => !self.keyboard.off,
            Module::Brightness => !self.brightness.off,
        }
    }

    /// The `off` flag of module `m`.
    pub fn is_off(&self, m: Module) -> (r: bool)
        ensures
            r == !self.enabled(m),
    {
        match m {
            Module::Sound => self.sound.off,
            Module::Battery => self.battery.off,
            Module::Keyboard => self.keyboard.off,
            Module::Brightness => self.brightness.off,
        }
    }
}

impl Battery {
    /// An independent copy, equal to `self` field for field.
    pub fn duplicate(&self) -> (r: Self)
        ensures
            r == *self,
    {
        Battery {
            off: self.off,
            target: self.target.clone(),
            poll_timeout: self.poll_timeout,
            warn_at: self.warn_at,
            icon_path: self.icon_path.clone(),
            full_icon: self.full_icon.clone(),
            low_icon: self.low_icon.clone(),
            charging_icon: self.charging_icon.clone(),
            dynamic_charging_icon: self.dynamic_charging_icon,
            discharging_icon: self.discharging_icon.clone(),
            dynamic_discharging_icon: self.dynamic_discharging_icon,
        }
    }
}

impl Sound {
    /// An independent copy, equal to `self` field for field.
    pub fn duplicate(&self) -> (r: Self)
        ensures
            r == *self,
    {
        Sound {
            off: self.off,
            icon_path: self.icon_path.clone(),
            sink_icon: self.sink_icon.clone(),
            sink_muted_icon: self.sink_muted_icon.clone(),
            sink_bluetooth_icon: self.sink_bluetooth_icon.clone(),
            sink_bluetooth_battery_poll_timeout: self.sink_bluetooth_battery_poll_timeout,
            sink_bluetooth_low_battery_warn_at: self.sink_bluetooth_low_battery_warn_at,
            sink_bluetooth_low_battery_timeout: self.sink_bluetooth_low_battery_timeout,
            sink_notification_timeout: self.sink_notification_timeout,
            source_icon: self.source_icon.clone(),
            source_muted_icon: self.source_muted_icon.clone(),
            source_notification_timeout: self.source_notification_timeout,
        }
    }
}

impl Keyboard {
    /// An independent copy, equal to `self` field for field.
    pub fn duplicate(&self) -> (r: Self)
        ensures
            r == *self,
    {
        Keyboard { off: self.off, icon_path: self.icon_path.clone(), icon: self.icon.clone() }
    }
}

impl Brightness {
    /// An independent copy, equal to `self` field for field.
    pub fn duplicate(&self) -> (r: Self)
        ensures
            r == *self,
    {
        Brightness { off: self.off, icon_path: self.icon_path.clone(), icon: self.icon.clone() }
    }
}

impl Config {
    /// An independent copy of the whole snapshot.
    pub fn duplicate(&self) -> (r: Self)
        ensures
            r == *self,
    {
        Config {
            sound: self.sound.duplicate(),
            battery: self.battery.duplicate(),
            keyboard: self.keyboard.duplicate(),
            brightness: self.brightness.duplicate(),
        }
    }

    /// The snapshot most recently published to `store`.
    pub fn get(store: &ConfigStore) -> (r: Self)
        requires
            store.is_published(),
        ensures
            r == store.latest(),
    {
        store.current()
    }
}

/// Holds the latest published snapshot. Publishing replaces it whole;
/// readers receive their own copy, which later publishes never touch.
pub struct ConfigStore {
    snapshot: Option<Config>,
}

impl ConfigStore {
    /// The store's contents: the latest published snapshot, if any.
    pub closed spec fn view_snapshot(&self) -> Option<Config> {
        self.snapshot
    }

    pub open spec fn is_published(&self) -> bool {
        self.view_snapshot() is Some
    }

    pub open spec fn latest(&self) -> Config {
        self.view_snapshot()->0
    }

    /// A store that nothing has been published to yet.
    pub fn new() -> (r: Self)
        ensures
            !r.is_published(),
    {
        ConfigStore { snapshot: None }
    }

    /// Replaces the visible snapshot by `config`.
    pub fn publish(&mut self, config: Config)
        ensures
            final(self).view_snapshot() == Some(config),
    {
        self.snapshot = Some(config);
    }

    /// A copy of the latest snapshot, or `None` before the first publish.
    pub fn try_current(&self) -> (r: Option<Config>)
        ensures
            r == self.view_snapshot(),
    {
        match &self.snapshot {
            Some(c) => Some(c.duplicate()),
            None => None,
        }
    }

    /// A copy of the latest snapshot.
    pub fn current(&self) -> (r: Config)
        requires
            self.is_published(),
        ensures
            r == self.latest(),
    {
        match &self.snapshot {
            Some(c) => c.duplicate(),
            None => Config::default(),
        }
    }
}

} // verus!
