//! A quota tracker that warns through a user-supplied messenger.
use vstd::prelude::*;

verus! {

/// Somewhere to send quota messages.
pub trait Messenger {
    fn send(&self, msg: &str);
}

/// How much of a quota is used.
#[derive(Debug, Clone, Copy, PartialEq, Eq, Structural)]
pub enum QuotaLevel {
    /// Less than three quarters, or nothing of an empty quota.
    Fine,
    /// At least three quarters.
    Warning,
    /// At least nine tenths.
    Urgent,
    /// All of it or more.
    Over,
}

/// The level of `value` against the quota `max`: the share `value / max`
/// compared with 1, 9/10 and 3/4. With `max == 0` any positive value is over
/// the quota and zero is fine.
pub open spec fn level_of(value: int, max: int) -> QuotaLevel {
    if max == 0 {
        if value > 0 { QuotaLevel::Over } else { QuotaLevel::Fine }
    } else if value >= max {
        QuotaLevel::Over
    } else if 10 * value >= 9 * max {
        QuotaLevel::Urgent
    } else if 4 * value >= 3 * max {
        QuotaLevel::Warning
    } else {
        QuotaLevel::Fine
    }
}

/// The level of `value` against the quota `max`.
pub fn quota_level(value: usize, max: usize) -> (r: QuotaLevel)
    ensures
        r == level_of(value as int, max as int),
{
    let v = value as u128;
    let m = max as u128;
    if m == 0 {
        if v > 0 { QuotaLevel::Over } else { QuotaLevel::Fine }
    } else if v >= m {
        QuotaLevel::Over
    } else if 10 * v >= 9 * m {
        QuotaLevel::Urgent
    } else if 4 * v >= 3 * m {
        QuotaLevel::Warning
    } else {
        QuotaLevel::Fine
    }
}

impl QuotaLevel {
    /// The message sent at this level, if any.
    pub fn message(&self) -> (r: Option<&'static str>)
        ensures
            *self == QuotaLevel::Fine <==> r is None,
            *self == QuotaLevel::Over ==> r->Some_0@ == "Error: You are over your quota!"@,
            *self == QuotaLevel::Urgent ==> r->Some_0@ == "Urgent warning: You've used up over 90% of your quota!"@,
            *self == QuotaLevel::Warning ==> r->Some_0@ == "Warning: You've used up over 75% of your quota!"@,
    {
        match self {
            QuotaLevel::Fine => None,
            QuotaLevel::Warning => Some("Warning: You've used up over 75% of your quota!"),
            QuotaLevel::Urgent => Some("Urgent warning: You've used up over 90% of your quota!"),
            QuotaLevel::Over => Some("Error: You are over your quota!"),
        }
    }
}

/// Tracks a value against a quota and reports through a messenger whenever
/// a new value crosses three quarters, nine tenths or all of the quota.
pub struct LimitTracker<'a, T: Messenger> {
    messenger: &'a T,
    value: usize,
    max: usize,
}

impl<'a, T: Messenger> LimitTracker<'a, T> {
    /// The current value.
    pub closed spec fn current(&self) -> nat {
        self.value as nat
    }

    /// The quota.
    pub closed spec fn quota(&self) -> nat {
        self.max as nat
    }

    /// The messenger reports go to.
    pub closed spec fn target(&self) -> &'a T {
        self.messenger
    }

    /// A tracker at zero against the quota `max`.
    pub fn new(messenger: &'a T, max: usize) -> (r: LimitTracker<'a, T>)
        ensures
            r.current() == 0,
            r.quota() == max,
            r.target() == messenger,
    {
        LimitTracker { messenger, value: 0, max }
    }

    /// Records `value` and sends the message of its level, if any, to the
    /// messenger (see `quota_level` and `QuotaLevel::message`).
    pub fn set_value(&mut self, value: usize)
        ensures
            final(self).current() == value,
            final(self).quota() == old(self).quota(),
            final(self).target() == old(self).target(),
    {
        self.value = value;
        let level = quota_level(self.value, self.max);
        match level.message() {
            Some(msg) => self.messenger.send(msg),
            None => {},
        }
    }

    /// The level of the current value.
    pub fn level(&self) -> (r: QuotaLevel)
        ensures
            r == level_of(self.current() as int, self.quota() as int),
    {
        quota_level(self.value, self.max)
    }
}

} // verus!
