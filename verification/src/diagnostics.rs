//! The counters of one session and the reports that they call for.

use vstd::arithmetic::power2::{is_pow2, pow2};
use vstd::prelude::*;

use crate::count::{RejectionCount, Tally};
use crate::message::{Family, NlriSet, ParsedMessage, ParsedUpdate};
use crate::power::is_power_of_two;

verus! {

/// The session totals are reported once in so many updates.
pub const TOTALS_INTERVAL: u64 = 65_536;

/// What one session received and what it dropped before RIB insertion.
#[derive(Debug)]
pub struct ReceiveDiagnostics {
    /// UPDATE messages that carry routes.
    pub updates: u64,
    /// Announcements in them, before validation.
    pub announced: u64,
    /// Updates with at least one attribute error.
    pub attribute_errors: u64,
    /// Announcements that validation turned into withdrawals.
    pub validation: RejectionCount,
    /// Announcements whose AS path holds the local AS.
    pub as_loop: RejectionCount,
    /// Announcements that this router originated.
    pub originator_loop: RejectionCount,
    /// Announcements that passed through a local cluster before.
    pub cluster_loop: RejectionCount,
}

/// What a [`ReceiveDiagnostics`] stands for.
pub struct Totals {
    pub updates: nat,
    pub announced: nat,
    pub attribute_errors: nat,
    pub validation: Tally,
    pub as_loop: Tally,
    pub originator_loop: Tally,
    pub cluster_loop: Tally,
}

/// Asks for a warning that updates came with attribute errors.
#[derive(Debug)]
pub struct AttributeErrorReport<'a, N, E> {
    /// The errors of this update.
    pub error_attrs: &'a Vec<E>,
    /// The announcements of this update.
    pub announced: u64,
    /// The first of them.
    pub sample: Option<&'a N>,
    /// The updates with attribute errors so far, this one among them.
    pub affected_updates: u64,
}

/// Asks for a warning that validation converted announcements to withdrawals.
#[derive(Debug)]
pub struct ConversionReport {
    /// The announcements converted in this update.
    pub batch_prefixes: u64,
    /// The conversions so far, these among them.
    pub total: RejectionCount,
}

/// What to report after an update was validated.
#[derive(Debug)]
pub struct ValidationReport {
    /// A warning about this update.
    pub converted: Option<ConversionReport>,
    /// Whether the totals of the session are to be reported as well.
    pub totals_due: bool,
}

/// Asks for a warning that the announcements of an update were rejected.
#[derive(Debug)]
pub struct RejectionReport<'a, N> {
    pub reason: &'a str,
    pub family: Family,
    /// The first rejected announcement.
    pub sample: Option<&'a N>,
    /// The rejections so far, this one among them.
    pub total: RejectionCount,
}

impl View for ReceiveDiagnostics {
    type V = Totals;

    open spec fn view(&self) -> Totals {
        Totals {
            updates: self.updates as nat,
            announced: self.announced as nat,
            attribute_errors: self.attribute_errors as nat,
            validation: self.validation@,
            as_loop: self.as_loop@,
            originator_loop: self.originator_loop@,
            cluster_loop: self.cluster_loop@,
        }
    }
}

/// The announcements that validation did not retain.
pub open spec fn dropped(announced: nat, retained: nat) -> nat {
    if announced > retained {
        (announced - retained) as nat
    } else {
        0
    }
}

impl Totals {
    /// The totals of a session that has received nothing.
    pub open spec fn fresh() -> Totals {
        Totals {
            updates: 0,
            announced: 0,
            attribute_errors: 0,
            validation: Tally::fresh(),
            as_loop: Tally::fresh(),
            originator_loop: Tally::fresh(),
            cluster_loop: Tally::fresh(),
        }
    }

    /// The totals once `message` was parsed.  Only updates with routes count.
    pub open spec fn observe<N, E>(self, message: ParsedMessage<N, E>) -> Totals {
        if message.is_routes() {
            Totals {
                updates: self.updates + 1,
                announced: self.announced + message.announcements().len(),
                attribute_errors: self.attribute_errors + if message.attribute_errors().len() > 0 {
                    1nat
                } else {
                    0nat
                },
                ..self
            }
        } else {
            self
        }
    }

    /// The totals once validation retained `retained` of `announced` announcements.
    pub open spec fn validated(self, announced: nat, retained: nat) -> Totals {
        if dropped(announced, retained) > 0 {
            Totals { validation: self.validation.record(dropped(announced, retained)), ..self }
        } else {
            self
        }
    }

    /// Whether parsing `message` calls for a warning about attribute errors.
    pub open spec fn attribute_report_due<N, E>(self, message: ParsedMessage<N, E>) -> bool {
        &&& message.attribute_errors().len() > 0
        &&& is_pow2(self.observe(message).attribute_errors as int)
    }

    /// Whether a validation calls for a warning about converted announcements.
    pub open spec fn conversion_report_due(self, announced: nat, retained: nat) -> bool {
        &&& dropped(announced, retained) > 0
        &&& self.validated(announced, retained).validation.report_due()
    }

    /// Whether a validation calls for the totals of the session: that of an
    /// update with announcements, at every multiple of the interval.
    pub open spec fn totals_report_due(self, announced: nat) -> bool {
        announced != 0 && self.updates % (TOTALS_INTERVAL as nat) == 0
    }

    /// Every count fits the machine integer that holds it.
    pub open spec fn fits(self) -> bool {
        &&& self.updates <= u64::MAX
        &&& self.announced <= u64::MAX
        &&& self.attribute_errors <= u64::MAX
        &&& self.validation.fits()
        &&& self.as_loop.fits()
        &&& self.originator_loop.fits()
        &&& self.cluster_loop.fits()
    }
}

impl Default for ReceiveDiagnostics {
    fn default() -> (diagnostics: Self)
        ensures
            diagnostics@ == Totals::fresh(),
            diagnostics.updates == 0,
            diagnostics.announced == 0,
            diagnostics.attribute_errors == 0,
            diagnostics.validation == (RejectionCount { updates: 0, prefixes: 0 }),
            diagnostics.as_loop == (RejectionCount { updates: 0, prefixes: 0 }),
            diagnostics.originator_loop == (RejectionCount { updates: 0, prefixes: 0 }),
            diagnostics.cluster_loop == (RejectionCount { updates: 0, prefixes: 0 }),
    {
        ReceiveDiagnostics {
            updates: 0,
            announced: 0,
            attribute_errors: 0,
            validation: RejectionCount::default(),
            as_loop: RejectionCount::default(),
            originator_loop: RejectionCount::default(),
            cluster_loop: RejectionCount::default(),
        }
    }
}

impl ReceiveDiagnostics {
    /// Counts the announcements of a message before validation, including
    /// batches that are later converted to withdrawals, and returns their number.
    ///
    /// Attribute errors may only discard an attribute, so they are counted and
    /// reported separately from the rejection of announcements.
    pub fn observe<'a, N, E>(&mut self, parsed: &'a ParsedMessage<N, E>) -> (out: (
        u64,
        Option<AttributeErrorReport<'a, N, E>>,
    ))
        requires
            old(self)@.observe(*parsed).fits(),
        ensures
            final(self)@ == old(self)@.observe(*parsed),
            out.0 == parsed.announcements().len(),
            out.1 is Some <==> old(self)@.attribute_report_due(*parsed),
            out.1 matches Some(report) ==> {
                &&& report.error_attrs@ == parsed.attribute_errors()
                &&& report.announced == out.0
                &&& crate::message::is_first(report.sample, parsed.announcements())
                &&& report.affected_updates == final(self).attribute_errors
            },
            final(self).validation == old(self).validation,
            final(self).as_loop == old(self).as_loop,
            final(self).originator_loop == old(self).originator_loop,
            final(self).cluster_loop == old(self).cluster_loop,
            (match *parsed {
                ParsedMessage::Update(ParsedUpdate::Routes { reach, mp_reach, error_attrs }) => {
                    let body = match reach {
                        Some(set) => set.entries@,
                        None => Seq::empty(),
                    };
                    let multiprotocol = match mp_reach {
                        Some(set) => set.entries@,
                        None => Seq::empty(),
                    };
                    &&& out.0 == body.len() + multiprotocol.len()
                    &&& final(self).updates == old(self).updates + 1
                    &&& final(self).announced == old(self).announced + out.0
                    &&& error_attrs@.len() == 0 ==> {
                        &&& out.1 is None
                        &&& final(self).attribute_errors == old(self).attribute_errors
                    }
                    &&& error_attrs@.len() > 0 ==> {
                        &&& out.1 is Some <==> exists|k: nat|
                            final(self).attribute_errors == #[trigger] pow2(k)
                        &&& final(self).attribute_errors == old(self).attribute_errors + 1
                    }
                    &&& out.1 matches Some(report) ==> {
                        &&& *report.error_attrs == error_attrs
                        &&& report.sample is None <==> out.0 == 0
                        &&& report.sample matches Some(sample) ==> *sample == if body.len() > 0 {
                            body[0]
                        } else {
                            multiprotocol[0]
                        }
                    }
                },
                _ => out.0 == 0 && out.1 is None && *final(self) == *old(self),
            }),
    {
        match parsed {
            ParsedMessage::Update(ParsedUpdate::Routes { reach, mp_reach, error_attrs }) => {
                self.updates += 1;
                let announced: u64 = NlriSet::count(reach) + NlriSet::count(mp_reach);
                self.announced += announced;
                let mut report = None;
                if error_attrs.len() != 0 {
                    self.attribute_errors += 1;
                    proof {
                        crate::power::lemma_is_some_power(self.attribute_errors as nat);
                    }
                    if is_power_of_two(self.attribute_errors) {
                        let sample = match NlriSet::first(reach) {
                            Some(n) => Some(n),
                            None => NlriSet::first(mp_reach),
                        };
                        report = Some(
                            AttributeErrorReport {
                                error_attrs,
                                announced,
                                sample,
                                affected_updates: self.attribute_errors,
                            },
                        );
                    }
                }
                (announced, report)
            },
            _ => (0, None),
        }
    }

    /// Takes note of how many announcements of an update outlived validation.
    /// Those that did not were converted to withdrawals.
    pub fn validated(&mut self, announced: u64, retained: u64) -> (report: ValidationReport)
        requires
            old(self)@.validated(announced as nat, retained as nat).fits(),
        ensures
            final(self)@ == old(self)@.validated(announced as nat, retained as nat),
            report.converted is Some <==> old(self)@.conversion_report_due(
                announced as nat,
                retained as nat,
            ),
            report.converted matches Some(conversion) ==> {
                &&& conversion.batch_prefixes == announced - retained
                &&& conversion.total == final(self).validation
            },
            report.totals_due == old(self)@.totals_report_due(announced as nat),
            final(self).updates == old(self).updates,
            final(self).announced == old(self).announced,
            final(self).attribute_errors == old(self).attribute_errors,
            final(self).as_loop == old(self).as_loop,
            final(self).originator_loop == old(self).originator_loop,
            final(self).cluster_loop == old(self).cluster_loop,
            announced <= retained ==> {
                &&& report.converted is None
                &&& final(self).validation == old(self).validation
            },
            announced > retained ==> {
                &&& final(self).validation.updates == old(self).validation.updates + 1
                &&& final(self).validation.prefixes == old(self).validation.prefixes + (announced
                    - retained)
                &&& report.converted is Some <==> exists|k: nat|
                    final(self).validation.updates == #[trigger] pow2(k)
            },
            report.totals_due <==> announced > 0 && old(self).updates % 65_536 == 0,
    {
        let dropped: u64 = announced.saturating_sub(retained);
        let converted = if dropped != 0 && self.validation.record(dropped) {
            Some(ConversionReport { batch_prefixes: dropped, total: self.validation })
        } else {
            None
        };
        let totals_due = announced != 0 && self.updates.is_multiple_of(TOTALS_INTERVAL);
        ValidationReport { converted, totals_due }
    }

    /// Counts the announcements of an update that a check rejected, in the
    /// count of that check.
    pub fn reject<'a, N>(
        reason: &'a str,
        count: &mut RejectionCount,
        family: Family,
        entries: &'a [N],
    ) -> (report: Option<RejectionReport<'a, N>>)
        requires
            old(count)@.record(entries@.len()).fits(),
        ensures
            final(count)@ == old(count)@.record(entries@.len()),
            report is Some <==> final(count)@.report_due(),
            report matches Some(rejection) ==> {
                &&& rejection.reason@ == reason@
                &&& rejection.family == family
                &&& crate::message::is_first(rejection.sample, entries@)
                &&& rejection.total == *final(count)
            },
            final(count).updates == old(count).updates + 1,
            final(count).prefixes == old(count).prefixes + entries@.len(),
            report is Some <==> exists|k: nat| final(count).updates == #[trigger] pow2(k),
            report matches Some(rejection) ==> match rejection.sample {
                Some(sample) => entries@.len() > 0 && *sample == entries@[0],
                None => entries@.len() == 0,
            },
    {
        if count.record(entries.len() as u64) {
            Some(RejectionReport { reason, family, sample: entries.first(), total: *count })
        } else {
            None
        }
    }
}

} // verus!
