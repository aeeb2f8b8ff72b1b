use vstd::prelude::*;

verus! {

/// How long a notification stays on screen.
#[derive(PartialEq, Eq, Structural, Hash, Clone, Copy, Debug)]
pub enum Timeout {
    Never,
    Millis(u32),
}

#[derive(PartialEq, Eq, Structural, Clone, Copy, Debug)]
pub enum Urgency {
    Normal,
    Critical,
}

/// A notification hint; at most one of each kind is attached.
#[derive(PartialEq, Eq, Structural, Clone, Copy, Debug)]
pub enum Hint {
    Urgency(Urgency),
    Value(i32),
}

/// Whether two hints are of the same kind, and so share a name.
pub open spec fn same_kind(a: Hint, b: Hint) -> bool {
    match (a, b) {
        (Hint::Urgency(_), Hint::Urgency(_)) => true,
        (Hint::Value(_), Hint::Value(_)) => true,
        _ => false,
    }
}

/// The hint list after attaching `h`: `h` replaces any hint of its kind.
pub open spec fn with_hint(hints: Seq<Hint>, h: Hint) -> Seq<Hint> {
    hints.filter(other_kind(h)).push(h)
}

/// Holds of the hints that are not of `h`'s kind.
pub open spec fn other_kind(h: Hint) -> spec_fn(Hint) -> bool {
    |x: Hint| !same_kind(x, h)
}

/// The timeout that the notification server is sent for `t`:
/// milliseconds, or 0 for a notification that never expires.
pub open spec fn timeout_millis(t: Timeout) -> int {
    match t {
        Timeout::Millis(m) => m as i32 as int,
        Timeout::Never => 0,
    }
}

/// What the fields of a notification hold.
pub struct NotificationView<C> {
    pub id: u32,
    pub summary: Seq<char>,
    pub body: Seq<char>,
    pub icon: Seq<char>,
    pub timeout: i32,
    pub hints: Seq<Hint>,
    pub close_handler: Option<C>,
}

/// A desktop notification under construction. Showing it again replaces
/// the one on screen, which `id` names once it has been shown.
pub struct Notification<C> {
    pub id: u32,
    pub summary: String,
    pub body: String,
    pub icon: String,
    pub timeout: i32,
    pub hints: Vec<Hint>,
    pub close_handler: Option<C>,
}

impl<C> View for Notification<C> {
    type V = NotificationView<C>;

    open spec fn view(&self) -> NotificationView<C> {
        NotificationView {
            id: self.id,
            summary: self.summary@,
            body: self.body@,
            icon: self.icon@,
            timeout: self.timeout,
            hints: self.hints@,
            close_handler: self.close_handler,
        }
    }
}

impl<C> Notification<C> {
    /// A blank notification: nothing shown yet, empty texts, no hints,
    /// and a timeout of -1, which leaves the expiry to the server.
    pub fn new() -> (r: Self)
        ensures
            r@.id == 0,
            r@.summary.len() == 0,
            r@.body.len() == 0,
            r@.icon.len() == 0,
            r@.timeout == -1,
            r@.hints.len() == 0,
            r@.close_handler is None,
    {
        Notification {
            id: 0,
            summary: String::new(),
            body: String::new(),
            icon: String::new(),
            timeout: -1,
            hints: Vec::new(),
            close_handler: None,
        }
    }

    pub fn summary(&mut self, summary: &str) -> (r: &mut Self)
        ensures
            r@ == (NotificationView { summary: summary@, ..old(self)@ }),
            *final(self) == *final(r),
    {
        self.summary = summary.to_owned();
        self
    }

    pub fn body(&mut self, body: &str) -> (r: &mut Self)
        ensures
            r@ == (NotificationView { body: body@, ..old(self)@ }),
            *final(self) == *final(r),
    {
        self.body = body.to_owned();
        self
    }

    pub fn icon(&mut self, icon: &str) -> (r: &mut Self)
        ensures
            r@ == (NotificationView { icon: icon@, ..old(self)@ }),
            *final(self) == *final(r),
    {
        self.icon = icon.to_owned();
        self
    }

    /// Attaches the urgency hint, replacing an earlier one.
    pub fn urgency(&mut self, urgency: Urgency) -> (r: &mut Self)
        ensures
            r@ == (NotificationView { hints: with_hint(old(self)@.hints, Hint::Urgency(urgency)), ..old(self)@ }),
            *final(self) == *final(r),
    {
        self.hint(Hint::Urgency(urgency))
    }

    /// Sets the expiry: milliseconds, or 0 for never.
    pub fn timeout(&mut self, timeout: Timeout) -> (r: &mut Self)
        ensures
            r@ == (NotificationView { timeout: timeout_millis(timeout) as i32, ..old(self)@ }),
            *final(self) == *final(r),
    {
        self.timeout = match timeout {
            Timeout::Millis(millis) => millis as i32,
            Timeout::Never => 0,
        };
        self
    }

    /// Attaches `hint`, replacing the hint of its kind if there is one.
    pub fn hint(&mut self, hint: Hint) -> (r: &mut Self)
        ensures
            r@ == (NotificationView { hints: with_hint(old(self)@.hints, hint), ..old(self)@ }),
            *final(self) == *final(r),
    {
        let mut kept: Vec<Hint> = Vec::new();
        let mut i: usize = 0;
        while i < self.hints.len()
            invariant
                i <= self.hints@.len(),
                self.hints@ == old(self).hints@,
                kept@ == self.hints@.take(i as int).filter(other_kind(hint)),
            decreases self.hints@.len() - i,
        {
            let x = self.hints[i];
            let same = match (x, hint) {
                (Hint::Urgency(_), Hint::Urgency(_)) => true,
                (Hint::Value(_), Hint::Value(_)) => true,
                _ => false,
            };
            proof {
                assert(self.hints@.take(i + 1) =~= self.hints@.take(i as int).push(x));
                self.hints@.take(i as int).lemma_filter_push(x, other_kind(hint));
            }
            if !same {
                kept.push(x);
            }
            i += 1;
        }
        assert(self.hints@.take(i as int) =~= self.hints@);
        kept.push(hint);
        self.hints = kept;
        self
    }

    /// Registers what to run when the notification is closed.
    pub fn on_close(&mut self, handler: C) -> (r: &mut Self)
        ensures
            r@ == (NotificationView { close_handler: Some(handler), ..old(self)@ }),
            *final(self) == *final(r),
    {
        self.close_handler = Some(handler);
        self
    }

    /// The id under which the server shows it; 0 before the first show.
    pub fn id(&self) -> (r: u32)
        ensures
            r == self@.id,
    {
        self.id
    }

    /// Records the id that the server assigned on a show.
    pub fn set_id(&mut self, id: u32)
        ensures
            final(self)@ == (NotificationView { id, ..old(self)@ }),
    {
        self.id = id;
    }

    pub fn close_handler(&self) -> (r: Option<&C>)
        ensures
            r matches Some(c) ==> self@.close_handler == Some(*c),
            r is None <==> self@.close_handler is None,
    {
        self.close_handler.as_ref()
    }
}

impl Hint {
    /// The name under which the server receives the hint.
    pub fn name(&self) -> (r: &'static str)
        ensures
            self is Urgency ==> r@ == "urgency"@,
            self is Value ==> r@ == "value"@,
    {
        match self {
            Hint::Urgency(_) => "urgency",
            Hint::Value(_) => "value",
        }
    }

    /// The integer that the server receives: 1 for normal urgency,
    /// 2 for critical, the value itself for a value hint.
    pub fn wire_value(&self) -> (r: i32)
        ensures
            *self == Hint::Urgency(Urgency::Normal) ==> r == 1,
            *self == Hint::Urgency(Urgency::Critical) ==> r == 2,
            self matches Hint::Value(v) ==> r == v,
    {
        match self {
            Hint::Urgency(Urgency::Normal) => 1,
            Hint::Urgency(Urgency::Critical) => 2,
            Hint::Value(v) => *v,
        }
    }
}

impl Default for Timeout {
    fn default() -> (r: Self)
        ensures
            r == Timeout::Never,
    {
        Timeout::Never
    }
}

/// A positive count of milliseconds, or never for anything else.
pub open spec fn timeout_of(value: i32) -> Timeout {
    if value > 0 {
        Timeout::Millis(value as u32)
    } else {
        Timeout::Never
    }
}

impl From<i32> for Timeout {
    fn from(value: i32) -> (r: Timeout) {
        if value > 0 {
            Timeout::Millis(value as u32)
        } else {
            Timeout::Never
        }
    }
}

impl vstd::std_specs::convert::FromSpecImpl<i32> for Timeout {
    open spec fn obeys_from_spec() -> bool {
        true
    }

    open spec fn from_spec(value: i32) -> Timeout {
        timeout_of(value)
    }
}

impl<C> Default for Notification<C> {
    fn default() -> (r: Self)
        ensures
            r@.id == 0,
            r@.summary.len() == 0,
            r@.body.len() == 0,
            r@.icon.len() == 0,
            r@.timeout == -1,
            r@.hints.len() == 0,
            r@.close_handler is None,
    {
        Notification::new()
    }
}

} // verus!
