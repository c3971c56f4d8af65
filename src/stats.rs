use vstd::prelude::*;

verus! {

/// Length of the rolling "month" used by the counters: thirty days.
pub const SECONDS_PER_MONTH: u64 = 2592000;

/// Per-identity activity counters. The monthly fields count only events of
/// `last_updated_month`.
#[derive(Clone, Copy, Debug, PartialEq, Eq, Structural)]
pub struct UserStats {
    pub total_gigs_posted: u64,
    pub total_revenue_earned: u64,
    pub monthly_gigs: u64,
    pub monthly_revenue: u64,
    pub last_updated_month: u8,
}

/// The month tag (1 to 12 for times at or after the epoch) of a unix time:
/// `(now / 2592000) % 12 + 1` in 64-bit integer arithmetic (division and
/// remainder rounding toward zero), kept in a byte.
pub open spec fn month_of(now: int) -> u8 {
    if now >= 0 {
        ((now / SECONDS_PER_MONTH as int) % 12 + 1) as u8
    } else {
        let k = ((-now) / SECONDS_PER_MONTH as int) % 12;
        if k == 0 {
            1
        } else {
            (257 - k) as u8
        }
    }
}

/// The month tag of the unix time `now`.
pub fn current_month(now: i64) -> (m: u8)
    ensures
        m == month_of(now as int),
{
    if now >= 0 {
        let n: u64 = now as u64;
        ((n / SECONDS_PER_MONTH) % 12 + 1) as u8
    } else {
        let n: u64 = (-(now as i128)) as u64;
        let k: u64 = (n / SECONDS_PER_MONTH) % 12;
        if k == 0 {
            1
        } else {
            (257 - k) as u8
        }
    }
}

impl UserStats {
    /// All counters at zero, as a fresh record is laid out.
    pub fn new() -> (r: UserStats)
        ensures
            r == UserStats::empty(),
    {
        UserStats {
            total_gigs_posted: 0,
            total_revenue_earned: 0,
            monthly_gigs: 0,
            monthly_revenue: 0,
            last_updated_month: 0,
        }
    }

    pub open spec fn empty() -> UserStats {
        UserStats {
            total_gigs_posted: 0,
            total_revenue_earned: 0,
            monthly_gigs: 0,
            monthly_revenue: 0,
            last_updated_month: 0,
        }
    }

    /// The record as seen in `month`: the monthly counters restart at zero
    /// when the month differs from the stored one.
    pub open spec fn rolled(self, month: u8) -> UserStats {
        if self.last_updated_month != month {
            UserStats { monthly_gigs: 0, monthly_revenue: 0, last_updated_month: month, ..self }
        } else {
            self
        }
    }

    /// The record after one more posted job in `month`.
    pub open spec fn after_post(self, month: u8) -> UserStats {
        let r = self.rolled(month);
        UserStats {
            total_gigs_posted: (r.total_gigs_posted + 1) as u64,
            monthly_gigs: (r.monthly_gigs + 1) as u64,
            ..r
        }
    }

    /// The record after one more paid job of `amount` in `month`.
    pub open spec fn after_earning(self, month: u8, amount: u64) -> UserStats {
        let r = self.rolled(month);
        UserStats {
            total_revenue_earned: (r.total_revenue_earned + amount) as u64,
            monthly_revenue: (r.monthly_revenue + amount) as u64,
            monthly_gigs: (r.monthly_gigs + 1) as u64,
            ..r
        }
    }

    /// No counter overflows when a job is posted in `month`.
    pub open spec fn can_post(self, month: u8) -> bool {
        let r = self.rolled(month);
        r.total_gigs_posted < u64::MAX && r.monthly_gigs < u64::MAX
    }

    /// No counter overflows when `amount` is earned in `month`.
    pub open spec fn can_earn(self, month: u8, amount: u64) -> bool {
        let r = self.rolled(month);
        r.total_revenue_earned + amount <= u64::MAX && r.monthly_revenue + amount <= u64::MAX
            && r.monthly_gigs < u64::MAX
    }

    fn roll(&mut self, month: u8)
        ensures
            *final(self) == old(self).rolled(month),
    {
        if self.last_updated_month != month {
            self.monthly_gigs = 0;
            self.monthly_revenue = 0;
            self.last_updated_month = month;
        }
    }

    /// Counts a job posted in `month`.
    pub fn record_post(&mut self, month: u8)
        requires
            old(self).can_post(month),
        ensures
            *final(self) == old(self).after_post(month),
    {
        self.roll(month);
        self.total_gigs_posted = self.total_gigs_posted + 1;
        self.monthly_gigs = self.monthly_gigs + 1;
    }

    /// Counts a job paid out with `amount` in `month`.
    pub fn record_earning(&mut self, month: u8, amount: u64)
        requires
            old(self).can_earn(month, amount),
        ensures
            *final(self) == old(self).after_earning(month, amount),
    {
        self.roll(month);
        self.total_revenue_earned = self.total_revenue_earned + amount;
        self.monthly_revenue = self.monthly_revenue + amount;
        self.monthly_gigs = self.monthly_gigs + 1;
    }
}

} // verus!
