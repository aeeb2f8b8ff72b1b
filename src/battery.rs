use vstd::prelude::*;
use crate::netlink::{result_view, Uevent};
use crate::config::Battery;
use crate::notif::{with_hint, Hint, Notification, NotificationView, Timeout, Urgency};
use crate::uevent::{chars_of, element_val, first_index, get_element_val, string_of, subsystem_event, subsystem_text, DecodeError};
use vstd::string::*;

verus! {

/// Tag that marks a power supply uevent.
pub const POWER_SUPPLY_TAG: &'static str = "SUBSYSTEM=power_supply";

/// Charging state of a power supply, as sysfs names it.
#[derive(Clone, Debug)]
pub enum Status {
    Charging,
    Discharging,
    Full,
    Unknown(String),
}

/// The sysfs name of a status.
pub open spec fn status_text(s: Status) -> Seq<char> {
    match s {
        Status::Charging => "Charging"@,
        Status::Discharging => "Discharging"@,
        Status::Full => "Full"@,
        Status::Unknown(v) => v@,
    }
}

/// Whether two statuses are the same: the same variant, and the same
/// text for unknown ones.
pub open spec fn same_status(a: Status, b: Status) -> bool {
    match (a, b) {
        (Status::Charging, Status::Charging) => true,
        (Status::Discharging, Status::Discharging) => true,
        (Status::Full, Status::Full) => true,
        (Status::Unknown(x), Status::Unknown(y)) => x@ == y@,
        _ => false,
    }
}

/// The status that the sysfs text `v` names.
pub open spec fn status_named(v: Seq<char>, s: Status) -> bool {
    if v == "Charging"@ {
        s is Charging
    } else if v == "Discharging"@ {
        s is Discharging
    } else if v == "Full"@ {
        s is Full
    } else {
        s matches Status::Unknown(u) && u@ == v
    }
}

impl PartialEq for Status {
    fn eq(&self, other: &Status) -> (r: bool) {
        match (self, other) {
            (Status::Charging, Status::Charging) => true,
            (Status::Discharging, Status::Discharging) => true,
            (Status::Full, Status::Full) => true,
            (Status::Unknown(x), Status::Unknown(y)) => text_is(x.as_str(), y.as_str()),
            _ => false,
        }
    }
}

impl vstd::std_specs::cmp::PartialEqSpecImpl for Status {
    open spec fn obeys_eq_spec() -> bool {
        true
    }

    open spec fn eq_spec(&self, other: &Status) -> bool {
        same_status(*self, *other)
    }
}

fn text_is(s: &str, lit: &str) -> (r: bool)
    ensures
        r == (s@ == lit@),
{
    let a = chars_of(s);
    let b = chars_of(lit);
    if a.len() != b.len() {
        return false;
    }
    let mut i: usize = 0;
    while i < a.len()
        invariant
            a@ == s@,
            b@ == lit@,
            a@.len() == b@.len(),
            i <= a@.len(),
            forall|k: int| 0 <= k < i ==> a@[k] == b@[k],
        decreases a@.len() - i,
    {
        if a[i] != b[i] {
            return false;
        }
        i += 1;
    }
    assert(a@ =~= b@);
    true
}

impl Status {
    /// The status that the sysfs text `value` names.
    pub fn from_text(value: &str) -> (r: Status)
        ensures
            status_named(value@, r),
    {
        if text_is(value, "Charging") {
            Status::Charging
        } else if text_is(value, "Discharging") {
            Status::Discharging
        } else if text_is(value, "Full") {
            Status::Full
        } else {
            Status::Unknown(value.to_owned())
        }
    }

    /// A copy of the status.
    pub fn duplicate(&self) -> (r: Status)
        ensures
            r == *self,
    {
        match self {
            Status::Charging => Status::Charging,
            Status::Discharging => Status::Discharging,
            Status::Full => Status::Full,
            Status::Unknown(v) => Status::Unknown(v.clone()),
        }
    }

    /// The sysfs name of the status.
    pub fn to_string(&self) -> (r: String)
        ensures
            r@ == status_text(*self),
    {
        match self {
            Status::Discharging => "Discharging".to_owned(),
            Status::Charging => "Charging".to_owned(),
            Status::Full => "Full".to_owned(),
            Status::Unknown(val) => val.clone(),
        }
    }
}

/// Notice that a power supply changed; its state is then read from sysfs.
pub struct PowerSupplyChanged;

impl View for PowerSupplyChanged {
    type V = ();

    open spec fn view(&self) -> () {
        ()
    }
}

impl Uevent<DecodeError> for PowerSupplyChanged {
    open spec fn decoded(data: Seq<u8>) -> Result<(), DecodeError> {
        match subsystem_text(data, POWER_SUPPLY_TAG@) {
            Err(e) => Err(e),
            Ok(_) => Ok(()),
        }
    }

    fn from_bytes(data: &Vec<u8>) -> (r: Result<Self, DecodeError>) {
        match subsystem_event(data, POWER_SUPPLY_TAG) {
            Ok(_) => Ok(PowerSupplyChanged),
            Err(e) => Err(e),
        }
    }
}

pub open spec fn is_digit(c: char) -> bool {
    '0' <= c && c <= '9'
}

/// The number that the decimal digits `d` write.
pub open spec fn digits_value(d: Seq<char>) -> nat
    decreases d.len(),
{
    if d.len() == 0 {
        0
    } else {
        digits_value(d.drop_last()) * 10 + (d.last() as u32 - '0' as u32) as nat
    }
}

/// The byte that the text `s` writes in decimal, with an optional leading
/// `+`; none for any other text or a value above 255.
pub open spec fn u8_text(s: Seq<char>) -> Option<u8> {
    let d = unsigned_digits(s);
    if d.len() > 0 && all_digits(d) && digits_value(d) <= 255 {
        Some(digits_value(d) as u8)
    } else {
        None
    }
}

/// The text without its leading `+`, if it has one.
pub open spec fn unsigned_digits(s: Seq<char>) -> Seq<char> {
    if s.len() > 0 && s[0] == '+' { s.skip(1) } else { s }
}

pub open spec fn all_digits(d: Seq<char>) -> bool {
    forall|i: int| 0 <= i < d.len() ==> is_digit(#[trigger] d[i])
}

/// Reads a byte written in decimal.
pub fn parse_u8(s: &str) -> (r: Option<u8>)
    ensures
        r == u8_text(s@),
{
    let cs = chars_of(s);
    let start: usize = if cs.len() > 0 && cs[0] == '+' { 1 } else { 0 };
    let ghost d = unsigned_digits(s@);
    assert(d =~= cs@.skip(start as int));
    if start >= cs.len() {
        return None;
    }
    let mut value: u32 = 0;
    let mut i: usize = start;
    while i < cs.len()
        invariant
            cs@ == s@,
            start <= i <= cs@.len(),
            d == cs@.skip(start as int),
            d == unsigned_digits(s@),
            value as nat == digits_value(cs@.subrange(start as int, i as int)),
            value <= 255,
            forall|k: int| start <= k < i ==> is_digit(cs@[k]),
        decreases cs@.len() - i,
    {
        let c = cs[i];
        if !('0' <= c && c <= '9') {
            assert(!is_digit(d[i - start]));
            assert(!all_digits(d));
            return None;
        }
        assert(cs@.subrange(start as int, i + 1).drop_last() =~= cs@.subrange(start as int, i as int));
        let next = value * 10 + (c as u32 - '0' as u32);
        if next > 255 {
            proof {
                let prefix = cs@.subrange(start as int, i + 1);
                assert(prefix.last() == c);
                assert(digits_value(prefix) == next);
                assert(d.take((i + 1 - start) as int) =~= prefix);
                if all_digits(d) {
                    lemma_digits_value_grows(d, (i + 1 - start) as int);
                }
            }
            return None;
        }
        value = next;
        i += 1;
    }
    assert(cs@.subrange(start as int, i as int) =~= d);
    Some(value as u8)
}

/// A prefix of digits writes at most what the whole digit string writes.
proof fn lemma_digits_value_grows(d: Seq<char>, n: int)
    requires
        0 <= n <= d.len(),
        all_digits(d),
    ensures
        digits_value(d.take(n)) <= digits_value(d),
    decreases d.len(),
{
    if n < d.len() {
        assert(d.drop_last().take(n) =~= d.take(n));
        lemma_digits_value_grows(d.drop_last(), n);
    } else {
        assert(d.take(n) =~= d);
    }
}

/// Why the sysfs state of a power supply could not be read.
#[derive(PartialEq, Eq, Structural, Clone, Copy, Debug)]
pub enum PowerSupplyError {
    /// The text has no `POWER_SUPPLY_STATUS` entry.
    MissingStatus,
    /// The `POWER_SUPPLY_CAPACITY` entry is not a percentage byte.
    InvalidCapacity,
}

/// The state of a power supply as its sysfs text gives it. `capacity` is
/// absent where the text has no capacity entry; the charge is then the
/// ratio of the energy entries.
pub struct PowerSupplyReading {
    pub status: Status,
    pub capacity: Option<u8>,
}

/// Reads status and capacity from the sysfs text of a power supply.
pub fn read_power_supply(uevent_str: &str) -> (r: Result<PowerSupplyReading, PowerSupplyError>)
    ensures
        element_val(uevent_str@, "POWER_SUPPLY_STATUS"@) is None
            <==> r == Err::<PowerSupplyReading, PowerSupplyError>(PowerSupplyError::MissingStatus),
        r == Err::<PowerSupplyReading, PowerSupplyError>(PowerSupplyError::InvalidCapacity) <==> (
            element_val(uevent_str@, "POWER_SUPPLY_STATUS"@) is Some
            && (element_val(uevent_str@, "POWER_SUPPLY_CAPACITY"@) is Some)
            && (u8_text(element_val(uevent_str@, "POWER_SUPPLY_CAPACITY"@)->0) is None)),
        r matches Ok(p) ==> status_named(element_val(uevent_str@, "POWER_SUPPLY_STATUS"@)->0, p.status),
        r matches Ok(p) ==> match element_val(uevent_str@, "POWER_SUPPLY_CAPACITY"@) {
            None => p.capacity is None,
            Some(c) => p.capacity == u8_text(c),
        },
{
    let status = match get_element_val(uevent_str, "POWER_SUPPLY_STATUS") {
        Some(v) => Status::from_text(&v),
        None => return Err(PowerSupplyError::MissingStatus),
    };
    match get_element_val(uevent_str, "POWER_SUPPLY_CAPACITY") {
        Some(c) => match parse_u8(&c) {
            Some(capacity) => Ok(PowerSupplyReading { status, capacity: Some(capacity) }),
            None => Err(PowerSupplyError::InvalidCapacity),
        },
        None => Ok(PowerSupplyReading { status, capacity: None }),
    }
}

/// `s` with every occurrence of `from`, taken left to right without
/// overlap, replaced by `to`.
pub open spec fn replace_all(s: Seq<char>, from: Seq<char>, to: Seq<char>) -> Seq<char>
    decreases s.len(),
{
    if from.len() == 0 {
        s
    } else {
        match first_index(s, from) {
            Some(i) => if 0 <= i && i + from.len() <= s.len() {
                s.take(i) + to + replace_all(s.skip(i + from.len()), from, to)
            } else {
                s
            },
            None => s,
        }
    }
}

/// Relies on `str::replace`: every non-overlapping occurrence of `from`,
/// left to right, replaced by `to`.
#[verifier::external_body]
fn replace_text(s: &str, from: &str, to: &str) -> (r: String)
    requires
        from@.len() > 0,
    ensures
        r@ == replace_all(s@, from@, to@),
{
    s.replace(from, to)
}

pub open spec fn digit_char(d: nat) -> char {
    seq!['0', '1', '2', '3', '4', '5', '6', '7', '8', '9'][d as int]
}

/// `n` written in decimal.
pub open spec fn decimal(n: nat) -> Seq<char>
    decreases n,
{
    if n < 10 {
        seq![digit_char(n)]
    } else {
        decimal(n / 10).push(digit_char(n % 10))
    }
}

fn digit(k: u8) -> (c: char)
    requires
        k < 10,
    ensures
        c == digit_char(k as nat),
{
    let digits = vec!['0', '1', '2', '3', '4', '5', '6', '7', '8', '9'];
    assert(digits@ =~= seq!['0', '1', '2', '3', '4', '5', '6', '7', '8', '9']);
    digits[k as usize]
}

/// `n` written in decimal.
pub fn decimal_text(n: u8) -> (r: String)
    ensures
        r@ == decimal(n as nat),
{
    let mut cs: Vec<char> = Vec::new();
    if n >= 100 {
        cs.push(digit(n / 100));
    }
    if n >= 10 {
        cs.push(digit((n / 10) % 10));
    }
    cs.push(digit(n % 10));
    proof {
        if n >= 100 {
            assert(decimal((n / 100) as nat) == seq![digit_char((n / 100) as nat)]);
            assert(((n / 10) as nat) / 10 == (n / 100) as nat);
            assert(decimal((n / 10) as nat) == decimal((n / 100) as nat).push(digit_char(((n / 10) % 10) as nat)));
            assert(cs@ =~= decimal(n as nat));
        } else if n >= 10 {
            assert(decimal((n / 10) as nat) == seq![digit_char((n / 10) as nat)]);
            assert(cs@ =~= decimal(n as nat));
        } else {
            assert(cs@ =~= decimal(n as nat));
        }
    }
    string_of(cs.as_slice())
}

/// A power supply's state, read from sysfs after a change notice.
pub struct UeventPowerSupply {
    pub status: Status,
    pub capacity: u8,
}

/// What the battery worker remembers between iterations.
pub struct BatteryState {
    /// The status last notified.
    pub last_status: Status,
    /// Milliseconds to wait for a uevent before polling; -1 waits without bound.
    pub poll_timeout: i32,
    /// Whether "full" has been notified since the last change.
    pub full: bool,
}

/// The placeholder in a dynamic icon name that the charge level replaces.
pub const LEVEL_PLACEHOLDER: &'static str = "{level}";

/// The charge level that icon names use: tens of percent, at least 10.
pub open spec fn level_text(capacity: u8) -> Seq<char> {
    let tens: nat = if capacity / 10 >= 1 { (capacity / 10) as nat } else { 1 };
    decimal(tens) + "0"@
}

/// The icon name for a status change, below the icon directory.
pub open spec fn status_icon(status: Status, capacity: u8, config: Battery) -> Seq<char> {
    match status {
        Status::Discharging => if config.dynamic_discharging_icon {
            replace_all(config.discharging_icon@, LEVEL_PLACEHOLDER@, level_text(capacity))
        } else {
            config.discharging_icon@
        },
        Status::Charging => if config.dynamic_charging_icon {
            replace_all(config.charging_icon@, LEVEL_PLACEHOLDER@, level_text(capacity))
        } else {
            config.charging_icon@
        },
        Status::Full => config.full_icon@,
        Status::Unknown(_) => Seq::empty(),
    }
}

/// The notification after a status change to `ev`, before its icon name.
pub open spec fn changed_view<C>(n: NotificationView<C>, ev: UeventPowerSupply) -> NotificationView<C> {
    NotificationView {
        hints: with_hint(Seq::empty(), Hint::Urgency(Urgency::Normal)),
        body: status_text(ev.status),
        timeout: 2500,
        ..n
    }
}

/// Handles a status read after a power supply uevent. A new status resets
/// the hints and, unless unknown, is due a notification whose icon name is
/// appended to the icon directory that `notif` holds. Returns whether to
/// show `notif`.
pub fn on_battery_change<C>(
    state: &mut BatteryState,
    ev: &UeventPowerSupply,
    config: &Battery,
    notif: &mut Notification<C>,
) -> (show: bool)
    ensures
        same_status(ev.status, old(state).last_status) ==> {
            &&& !show
            &&& *final(state) == *old(state)
            &&& final(notif)@ == old(notif)@
        },
        !same_status(ev.status, old(state).last_status) ==> {
            &&& final(state).last_status == ev.status
            &&& final(state).full == (ev.status is Full)
            &&& final(state).poll_timeout == (if ev.status is Full { -1i32 } else { config.poll_timeout })
            &&& show == !(ev.status is Unknown)
            &&& final(notif)@ == (NotificationView {
                icon: changed_view(old(notif)@, *ev).icon + status_icon(ev.status, ev.capacity, *config),
                ..changed_view(old(notif)@, *ev)
            })
        },
{
    if ev.status == state.last_status {
        return false;
    }
    state.full = false;
    state.poll_timeout = config.poll_timeout;
    state.last_status = ev.status.duplicate();
    notif.hints = Vec::new();
    let body = state.last_status.to_string();
    notif.urgency(Urgency::Normal).body(&body).timeout(Timeout::Millis(2500));
    let tens: u8 = if ev.capacity / 10 >= 1 { ev.capacity / 10 } else { 1 };
    let mut level = decimal_text(tens);
    level.append("0");
    proof {
        reveal_strlit("0");
    }
    let icon = match &ev.status {
        Status::Discharging => {
            if config.dynamic_discharging_icon {
                proof {
                    reveal_strlit("{level}");
                }
                replace_text(&config.discharging_icon, LEVEL_PLACEHOLDER, &level)
            } else {
                config.discharging_icon.clone()
            }
        },
        Status::Charging => {
            if config.dynamic_charging_icon {
                proof {
                    reveal_strlit("{level}");
                }
                replace_text(&config.charging_icon, LEVEL_PLACEHOLDER, &level)
            } else {
                config.charging_icon.clone()
            }
        },
        Status::Full => {
            state.full = true;
            state.poll_timeout = -1;
            config.full_icon.clone()
        },
        Status::Unknown(_) => {
            return false;
        },
    };
    notif.icon.append(&icon);
    true
}

/// The notification on a polling tick, before any warning.
pub open spec fn tick_view<C>(n: NotificationView<C>, last: Status) -> NotificationView<C> {
    NotificationView { body: status_text(last), timeout: 0, ..n }
}

/// Handles a polling tick with the freshly read `reading`: notifies once
/// that the battery became full, else warns while a discharging battery is
/// at or below the configured level. Returns whether to show `notif`.
pub fn on_battery_tick<C>(
    state: &mut BatteryState,
    reading: &UeventPowerSupply,
    config: &Battery,
    notif: &mut Notification<C>,
) -> (show: bool)
    ensures
        ({
            let base = tick_view(old(notif)@, old(state).last_status);
            if !old(state).full && reading.status is Full {
                &&& show
                &&& final(state).full
                &&& final(state).poll_timeout == -1
                &&& final(state).last_status == old(state).last_status
                &&& final(notif)@ == (NotificationView {
                    hints: with_hint(base.hints, Hint::Urgency(Urgency::Normal)),
                    body: "Battery is full"@,
                    icon: base.icon + config.full_icon@,
                    ..base
                })
            } else if reading.status is Discharging && reading.capacity <= config.warn_at {
                &&& show
                &&& *final(state) == *old(state)
                &&& final(notif)@ == (NotificationView {
                    hints: with_hint(base.hints, Hint::Urgency(Urgency::Critical)),
                    body: decimal(reading.capacity as nat) + "% left, connect charger"@,
                    icon: base.icon + config.low_icon@,
                    ..base
                })
            } else {
                &&& !show
                &&& *final(state) == *old(state)
                &&& final(notif)@ == base
            }
        }),
{
    let body = state.last_status.to_string();
    notif.body(&body).timeout(Timeout::Never);
    let full_now = match reading.status {
        Status::Full => true,
        _ => false,
    };
    if !state.full && full_now {
        state.full = true;
        state.poll_timeout = -1;
        notif.urgency(Urgency::Normal);
        notif.body("Battery is full");
        notif.icon.append(&config.full_icon);
        return true;
    }
    let discharging = match reading.status {
        Status::Discharging => true,
        _ => false,
    };
    if discharging && reading.capacity <= config.warn_at {
        notif.urgency(Urgency::Critical);
        let mut body = decimal_text(reading.capacity);
        body.append("% left, connect charger");
        notif.body(&body);
        notif.icon.append(&config.low_icon);
        return true;
    }
    false
}

} // verus!
