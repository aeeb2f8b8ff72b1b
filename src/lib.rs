//! Status notifier core: supervision of per-module workers under live
//! reconfiguration, configuration snapshots, the kernel uevent receive
//! protocol with its decoders, and the notifications the monitors show.

pub mod battery;
pub mod brightness;
pub mod config;
pub mod keyboard;
pub mod module;
pub mod netlink;
pub mod notif;
pub mod sound;
pub mod supervisor;
pub mod uevent;

pub use battery::{Status, UeventPowerSupply};
pub use brightness::UeventBacklight;
pub use config::{Battery, Brightness, Config, ConfigStore, Keyboard, Sound};
pub use module::Module;
pub use netlink::{IoKind, NetlinkError, NetlinkHandle, PollOutcome, RecvAction, Uevent};
pub use notif::{Hint, Notification, Timeout, Urgency};
pub use supervisor::{ControlStep, Message, RoutineAction, Supervisor};
pub use uevent::{get_element_val, DecodeError};
