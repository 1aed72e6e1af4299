//! The retention sieve: seven tiers, from seconds to years, that vote on each instant.
use vstd::prelude::*;
use crate::bucket::{BucketState, DateBucket};
use crate::time::{Resolution, Timestamp};

verus! {

/// The position of a granularity among the sieve's tiers, finest first.
pub open spec fn tier_index(r: Resolution) -> int {
    match r {
        Resolution::Second => 0,
        Resolution::Minute => 1,
        Resolution::Hour => 2,
        Resolution::Day => 3,
        Resolution::Week => 4,
        Resolution::Month => 5,
        Resolution::Year => 6,
    }
}

/// An instant is kept when at least one tier accepts it.
pub open spec fn sieve_accepts(tiers: Seq<BucketState>, t: int) -> bool {
    exists|i: int| 0 <= i < tiers.len() && #[trigger] tiers[i].accepts(t)
}

/// Every tier sees every offer.
pub open spec fn sieve_after(tiers: Seq<BucketState>, t: int) -> Seq<BucketState> {
    tiers.map_values(|b: BucketState| b.after(t))
}

/// A sieve whose tiers have all used up their budgets rejects every instant and stays
/// as it is.
pub proof fn lemma_sieve_saturated(tiers: Seq<BucketState>, t: int)
    requires
        forall|i: int| 0 <= i < tiers.len() ==> !(#[trigger] tiers[i]).is_open(),
    ensures
        !sieve_accepts(tiers, t),
        sieve_after(tiers, t) == tiers,
{
    assert(sieve_after(tiers, t) =~= tiers);
}

/// A multi-resolution retention policy: a timestamp is kept when it is among the first
/// distinct seconds, minutes, hours, days, weeks, months or years that the policy has
/// room for.
#[derive(Debug)]
pub struct DateSieve {
    seconds: DateBucket,
    minutes: DateBucket,
    hours: DateBucket,
    days: DateBucket,
    weeks: DateBucket,
    months: DateBucket,
    years: DateBucket,
}

impl View for DateSieve {
    type V = Seq<BucketState>;

    closed spec fn view(&self) -> Seq<BucketState> {
        seq![
            self.seconds@,
            self.minutes@,
            self.hours@,
            self.days@,
            self.weeks@,
            self.months@,
            self.years@,
        ]
    }
}

impl DateSieve {
    /// Every tier is well formed.
    pub closed spec fn wf(&self) -> bool {
        &&& self.seconds.wf()
        &&& self.minutes.wf()
        &&& self.hours.wf()
        &&& self.days.wf()
        &&& self.weeks.wf()
        &&& self.months.wf()
        &&& self.years.wf()
        &&& self.seconds@.resolution == Resolution::Second
        &&& self.minutes@.resolution == Resolution::Minute
        &&& self.hours@.resolution == Resolution::Hour
        &&& self.days@.resolution == Resolution::Day
        &&& self.weeks@.resolution == Resolution::Week
        &&& self.months@.resolution == Resolution::Month
        &&& self.years@.resolution == Resolution::Year
    }

    /// An empty sieve with the given number of slots per tier; a tier of capacity zero
    /// never accepts.
    pub fn new(
        seconds: usize,
        minutes: usize,
        hours: usize,
        days: usize,
        weeks: usize,
        months: usize,
        years: usize,
    ) -> (s: DateSieve)
        ensures
            s.wf(),
            s@.len() == 7,
            s@[0].capacity == seconds,
            s@[1].capacity == minutes,
            s@[2].capacity == hours,
            s@[3].capacity == days,
            s@[4].capacity == weeks,
            s@[5].capacity == months,
            s@[6].capacity == years,
            forall|r: Resolution| (#[trigger] s@[tier_index(r)]).resolution == r,
            forall|i: int| 0 <= i < 7 ==> (#[trigger] s@[i]).seen == Set::<Seq<char>>::empty(),
    {
        DateSieve {
            seconds: DateBucket::new(Resolution::Second, seconds),
            minutes: DateBucket::new(Resolution::Minute, minutes),
            hours: DateBucket::new(Resolution::Hour, hours),
            days: DateBucket::new(Resolution::Day, days),
            weeks: DateBucket::new(Resolution::Week, weeks),
            months: DateBucket::new(Resolution::Month, months),
            years: DateBucket::new(Resolution::Year, years),
        }
    }

    /// Offers instant `t` to every tier, finest first, without stopping at the first that
    /// accepts. It is kept when at least one tier accepts it; each tier records its own
    /// decision.
    pub fn offer(&mut self, t: Timestamp) -> (accepted: bool)
        requires
            old(self).wf(),
        ensures
            final(self).wf(),
            accepted == sieve_accepts(old(self)@, t@),
            final(self)@ == sieve_after(old(self)@, t@),
    {
        let a0 = self.seconds.offer(t);
        let a1 = self.minutes.offer(t);
        let a2 = self.hours.offer(t);
        let a3 = self.days.offer(t);
        let a4 = self.weeks.offer(t);
        let a5 = self.months.offer(t);
        let a6 = self.years.offer(t);
        let ghost pre = old(self)@;
        assert(self@ =~= sieve_after(pre, t@));
        if a0 || a1 || a2 || a3 || a4 || a5 || a6 {
            true
        } else {
            assert forall|i: int| 0 <= i < pre.len() implies !#[trigger] pre[i].accepts(t@) by {
                if i == 0 {} else if i == 1 {} else if i == 2 {} else if i == 3 {}
                else if i == 4 {} else if i == 5 {} else {}
            }
            false
        }
    }

    /// The tier of granularity `r`.
    pub fn bucket(&self, r: Resolution) -> (b: &DateBucket)
        requires
            self.wf(),
        ensures
            b.wf(),
            b@ == self@[tier_index(r)],
    {
        match r {
            Resolution::Second => &self.seconds,
            Resolution::Minute => &self.minutes,
            Resolution::Hour => &self.hours,
            Resolution::Day => &self.days,
            Resolution::Week => &self.weeks,
            Resolution::Month => &self.months,
            Resolution::Year => &self.years,
        }
    }
}

} // verus!
