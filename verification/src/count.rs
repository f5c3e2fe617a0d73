//! How many updates, and how many announcements in them, one check rejected.

use vstd::arithmetic::power2::{is_pow2, pow2};
use vstd::prelude::*;

use crate::power::is_power_of_two;

verus! {

/// Rejections by one check.  Prefixes count announcements, not unique routes.
#[derive(Debug, Clone, Copy, PartialEq, Eq)]
pub struct RejectionCount {
    pub updates: u64,
    pub prefixes: u64,
}

/// What a [`RejectionCount`] stands for.
pub struct Tally {
    pub updates: nat,
    pub prefixes: nat,
}

impl View for RejectionCount {
    type V = Tally;

    open spec fn view(&self) -> Tally {
        Tally { updates: self.updates as nat, prefixes: self.prefixes as nat }
    }
}

impl Tally {
    /// Nothing rejected yet.
    pub open spec fn fresh() -> Tally {
        Tally { updates: 0, prefixes: 0 }
    }

    /// The tally once one more update, with `prefixes` announcements, is rejected.
    pub open spec fn record(self, prefixes: nat) -> Tally {
        Tally { updates: self.updates + 1, prefixes: self.prefixes + prefixes }
    }

    /// Whether the latest rejected update is one to report: the first is, and
    /// then every one that brings the count of updates to a power of two.
    pub open spec fn report_due(self) -> bool {
        is_pow2(self.updates as int)
    }

    /// Both counts fit the machine integers that hold them.
    pub open spec fn fits(self) -> bool {
        self.updates <= u64::MAX && self.prefixes <= u64::MAX
    }

    /// The tally after a sequence of rejected updates, each given by the number
    /// of announcements in it.
    pub open spec fn record_all(self, batches: Seq<nat>) -> Tally
        decreases batches.len(),
    {
        if batches.len() == 0 {
            self
        } else {
            self.record_all(batches.drop_last()).record(batches.last())
        }
    }

    /// How many of a sequence of rejected updates are reported.
    pub open spec fn reports(self, batches: Seq<nat>) -> nat
        decreases batches.len(),
    {
        if batches.len() == 0 {
            0
        } else {
            self.reports(batches.drop_last()) + if self.record_all(batches).report_due() {
                1nat
            } else {
                0nat
            }
        }
    }
}

impl Default for RejectionCount {
    fn default() -> (count: Self)
        ensures
            count@ == Tally::fresh(),
            count.updates == 0,
            count.prefixes == 0,
    {
        RejectionCount { updates: 0, prefixes: 0 }
    }
}

impl RejectionCount {
    /// Records one rejected update with `prefixes` announcements, and says
    /// whether it is one to report.
    ///
    /// The first rejection is reported, and then those that bring the count to a
    /// power of two, which bounds the log volume during a full-table transfer.
    pub fn record(&mut self, prefixes: u64) -> (report: bool)
        requires
            old(self)@.record(prefixes as nat).fits(),
        ensures
            final(self)@ == old(self)@.record(prefixes as nat),
            report == final(self)@.report_due(),
            final(self).updates == old(self).updates + 1,
            final(self).prefixes == old(self).prefixes + prefixes,
            report <==> exists|k: nat| final(self).updates == #[trigger] pow2(k),
    {
        proof {
            crate::power::lemma_is_some_power((self.updates + 1) as nat);
        }
        self.updates += 1;
        self.prefixes += prefixes;
        is_power_of_two(self.updates)
    }
}

/// The sum of a sequence of batch sizes.
pub open spec fn sum(batches: Seq<nat>) -> nat
    decreases batches.len(),
{
    if batches.len() == 0 {
        0
    } else {
        sum(batches.drop_last()) + batches.last()
    }
}

/// A tally is nothing but the number of updates recorded and the sum of their
/// announcements: neither the order nor the contents of the batches matter.
pub proof fn law_tally_is_count_and_sum(tally: Tally, batches: Seq<nat>)
    ensures
        tally.record_all(batches) == (Tally {
            updates: tally.updates + batches.len(),
            prefixes: tally.prefixes + sum(batches),
        }),
    decreases batches.len(),
{
    if batches.len() > 0 {
        law_tally_is_count_and_sum(tally, batches.drop_last());
    }
}

/// The tally of a sequence that follows another goes on from the tally of the
/// first: nothing but the counts is remembered.
pub proof fn law_tally_of_joined_sequences(tally: Tally, first: Seq<nat>, second: Seq<nat>)
    ensures
        tally.record_all(first + second) == tally.record_all(first).record_all(second),
    decreases second.len(),
{
    if second.len() == 0 {
        assert(first + second == first);
    } else {
        assert((first + second).drop_last() == first + second.drop_last());
        law_tally_of_joined_sequences(tally, first, second.drop_last());
    }
}

/// A rejection can be recorded whenever both counters have room for it.
pub proof fn law_record_needs_only_room(count: RejectionCount, prefixes: nat)
    requires
        count.updates < u64::MAX,
        count.prefixes + prefixes <= u64::MAX,
    ensures
        count@.record(prefixes).fits(),
{
}

/// A tally is one to report exactly when its number of updates is some power of
/// two, whatever its number of prefixes.
pub proof fn law_reports_fall_on_powers(tally: Tally)
    ensures
        tally.report_due() <==> exists|k: nat| tally.updates == #[trigger] pow2(k),
{
    crate::power::lemma_is_some_power(tally.updates);
}

/// Two counts with the same tally are the same count.
pub proof fn law_tally_tells_counts_apart(a: RejectionCount, b: RejectionCount)
    requires
        a@ == b@,
    ensures
        a == b,
{
}

/// The first rejection is always reported.
pub proof fn law_first_rejection_is_reported(prefixes: nat)
    ensures
        Tally::fresh().record(prefixes).report_due(),
{
    reveal(is_pow2);
}

/// Of the rejections recorded on a fresh tally, as many are reported as there
/// are powers of two up to their number.
pub proof fn law_reports_are_powers(batches: Seq<nat>)
    ensures
        Tally::fresh().reports(batches) == crate::power::powers_up_to(batches.len()),
    decreases batches.len(),
{
    law_tally_is_count_and_sum(Tally::fresh(), batches);
    if batches.len() > 0 {
        law_reports_are_powers(batches.drop_last());
    }
}

/// The log volume is logarithmic: `r` reports on a fresh tally take at least
/// `2^(r-1)` rejections.
pub proof fn law_log_volume_is_bounded(batches: Seq<nat>)
    requires
        batches.len() > 0,
    ensures
        Tally::fresh().reports(batches) >= 1,
        pow2((Tally::fresh().reports(batches) - 1) as nat) <= batches.len() < pow2(
            Tally::fresh().reports(batches),
        ),
{
    law_reports_are_powers(batches);
    crate::power::law_powers_are_sparse(batches.len());
}

} // verus!
