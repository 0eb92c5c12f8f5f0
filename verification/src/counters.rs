//! The counts that the desk shows: packages in each zone, and in all.

use crate::zone::Zone;
use vstd::prelude::*;

verus! {

/// What counting the packages of each zone gave, in the order of
/// `Zone::ALL`; `None` where the count could not be had.
pub type Readings = [Option<u64>; 13];

/// The counts on display.
#[derive(Clone, Copy, Debug)]
pub struct Counters {
    /// The last count had for each zone, in the order of `Zone::ALL`;
    /// `None` for a zone that was never counted.
    pub per_zone: [Option<u64>; 13],
    /// The sum of the counts of the last refresh.
    pub total_in: u64,
}

/// `Counters` as plain mathematics.
pub struct CountersView {
    pub per_zone: Seq<Option<u64>>,
    pub total_in: u64,
}

/// The sum of the counts that were had.
pub open spec fn sum_of(readings: Seq<Option<u64>>) -> nat
    decreases readings.len(),
{
    if readings.len() == 0 {
        0
    } else {
        sum_of(readings.drop_last()) + match readings.last() {
            Some(n) => n as nat,
            None => 0,
        }
    }
}

impl CountersView {
    /// The count on display for `zone`.
    pub open spec fn count(self, zone: Zone) -> Option<u64> {
        self.per_zone[zone.ordinal() as int]
    }

    /// The counters after a refresh: a zone that was counted shows its new
    /// count, any other keeps what it showed, and the total is the sum of
    /// the new counts.
    pub open spec fn refreshed(self, readings: Seq<Option<u64>>) -> CountersView {
        CountersView {
            per_zone: Seq::new(
                13,
                |i: int|
                    if readings[i] is Some {
                        readings[i]
                    } else {
                        self.per_zone[i]
                    },
            ),
            total_in: sum_of(readings) as u64,
        }
    }
}

impl CountersView {
    /// When every zone was counted, the counts on display are the new
    /// counts and the total is their sum.
    pub proof fn lemma_total_is_sum(self, readings: Seq<Option<u64>>)
        requires
            readings.len() == 13,
            sum_of(readings) <= u64::MAX,
            forall|i: int| 0 <= i < 13 ==> (#[trigger] readings[i]) is Some,
        ensures
            self.refreshed(readings).per_zone == readings,
            self.refreshed(readings).total_in == sum_of(self.refreshed(readings).per_zone),
    {
        assert(self.refreshed(readings).per_zone =~= readings);
    }
}

impl View for Counters {
    type V = CountersView;

    open spec fn view(&self) -> CountersView {
        CountersView { per_zone: self.per_zone@, total_in: self.total_in }
    }
}

impl Default for Counters {
    /// No zone counted yet, and a total of zero.
    fn default() -> (c: Counters)
        ensures
            c.total_in == 0,
            forall|z: Zone| c@.count(z) is None,
    {
        Counters {
            per_zone: [None, None, None, None, None, None, None, None, None, None, None, None, None],
            total_in: 0,
        }
    }
}

/// The sum of a part is at most the sum of the whole.
proof fn lemma_sum_of_prefix(readings: Seq<Option<u64>>, i: int)
    requires
        0 <= i <= readings.len(),
    ensures
        sum_of(readings.take(i)) <= sum_of(readings),
    decreases readings.len(),
{
    if i == readings.len() {
        assert(readings.take(i) == readings);
    } else {
        lemma_sum_of_prefix(readings.drop_last(), i);
        assert(readings.drop_last().take(i) == readings.take(i));
    }
}

/// Whether the sum of the counts fits the total on display.
pub fn fits(readings: &Readings) -> (ok: bool)
    ensures
        ok == (sum_of(readings@) <= u64::MAX),
{
    let mut sum: u128 = 0;
    let mut i: usize = 0;
    while i < 13
        invariant
            i <= 13,
            readings@.len() == 13,
            sum == sum_of(readings@.take(i as int)),
            sum <= i * u64::MAX,
        decreases 13 - i,
    {
        proof {
            assert(readings@.take(i + 1).drop_last() == readings@.take(i as int));
        }
        if let Some(n) = readings[i] {
            sum = sum + n as u128;
        }
        i += 1;
    }
    assert(readings@.take(13) == readings@);
    sum <= u64::MAX as u128
}

impl Counters {
    /// The count on display for `zone`.
    pub fn get(&self, zone: Zone) -> (n: Option<u64>)
        ensures
            n == self@.count(zone),
    {
        self.per_zone[zone.index()]
    }

    /// Takes in a round of counting.
    pub fn refresh(&mut self, readings: &Readings)
        requires
            sum_of(readings@) <= u64::MAX,
        ensures
            final(self)@ == old(self)@.refreshed(readings@),
    {
        let mut sum: u64 = 0;
        let mut i: usize = 0;
        while i < 13
            invariant
                i <= 13,
                readings@.len() == 13,
                self.per_zone@.len() == 13,
                sum_of(readings@) <= u64::MAX,
                sum == sum_of(readings@.take(i as int)),
                forall|k: int|
                    0 <= k < i ==> self.per_zone@[k] == old(self)@.refreshed(readings@).per_zone[k],
                forall|k: int| i <= k < 13 ==> self.per_zone@[k] == old(self).per_zone@[k],
            decreases 13 - i,
        {
            proof {
                assert(readings@.take(i + 1).drop_last() == readings@.take(i as int));
                lemma_sum_of_prefix(readings@, i + 1);
            }
            if let Some(n) = readings[i] {
                self.per_zone[i] = Some(n);
                sum = sum + n;
            }
            i += 1;
        }
        self.total_in = sum;
        proof {
            assert(readings@.take(13) == readings@);
            assert(self@.per_zone =~= old(self)@.refreshed(readings@).per_zone);
        }
    }
}

} // verus!
