use vstd::prelude::*;
use crate::netlink::{result_view, Uevent};
use crate::uevent::{element_val, get_element_val, subsystem_event, subsystem_text, DecodeError};

verus! {

/// Tag that marks a backlight uevent.
pub const BACKLIGHT_TAG: &'static str = "SUBSYSTEM=backlight";

/// A backlight change: the sysfs device path of the backlight.
pub struct UeventBacklight {
    pub devpath: String,
}

impl View for UeventBacklight {
    type V = Seq<char>;

    open spec fn view(&self) -> Seq<char> {
        self.devpath@
    }
}

impl Uevent<DecodeError> for UeventBacklight {
    open spec fn decoded(data: Seq<u8>) -> Result<Seq<char>, DecodeError> {
        match subsystem_text(data, BACKLIGHT_TAG@) {
            Err(e) => Err(e),
            Ok(s) => match element_val(s, "@"@) {
                Some(path) => Ok(path),
                None => Err(DecodeError::MissingField),
            },
        }
    }

    fn from_bytes(data: &Vec<u8>) -> (r: Result<Self, DecodeError>) {
        let s = subsystem_event(data, BACKLIGHT_TAG)?;
        match get_element_val(&s, "@") {
            Some(devpath) => Ok(UeventBacklight { devpath }),
            None => Err(DecodeError::MissingField),
        }
    }
}

} // verus!
