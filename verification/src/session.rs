//! What holds of the totals over a whole session.
//!
//! A session is a sequence of events.  Each message is observed and then
//! validated; announcements that outlive validation may still be rejected by
//! one of the loop checks.

use vstd::arithmetic::power2::pow2;
use vstd::prelude::*;

use crate::diagnostics::{Totals, TOTALS_INTERVAL};
use crate::message::{NlriSet, ParsedMessage, ParsedUpdate};

verus! {

/// One event of a session.  The loop checks give the number of announcements
/// that they reject.
pub enum Event<N, E> {
    Received { message: ParsedMessage<N, E>, retained: nat },
    AsLoop { prefixes: nat },
    OriginatorLoop { prefixes: nat },
    ClusterLoop { prefixes: nat },
}

/// The number of paths in an optional set.
pub open spec fn paths_in<N>(set: Option<NlriSet<N>>) -> nat {
    match set {
        Some(NlriSet { entries, .. }) => entries@.len(),
        None => 0,
    }
}

impl<N, E> Event<N, E> {
    /// Whether the event is the arrival of an UPDATE with routes.
    pub open spec fn is_update(self) -> bool {
        self matches Event::Received {
            message: ParsedMessage::Update(ParsedUpdate::Routes { .. }),
            ..
        }
    }

    /// Whether the event is the arrival of an UPDATE with attribute errors.
    pub open spec fn is_faulty(self) -> bool {
        match self {
            Event::Received {
                message: ParsedMessage::Update(ParsedUpdate::Routes { error_attrs, .. }),
                ..
            } => error_attrs@.len() != 0,
            _ => false,
        }
    }

    /// The announcements that the event brings in, of the message body and of
    /// the multiprotocol attribute.
    pub open spec fn announced(self) -> nat {
        match self {
            Event::Received {
                message: ParsedMessage::Update(ParsedUpdate::Routes { reach, mp_reach, .. }),
                ..
            } => paths_in(reach) + paths_in(mp_reach),
            _ => 0,
        }
    }

    /// Whether validation lets through less than the event brings in.
    pub open spec fn is_lossy(self) -> bool {
        self.retained() < self.announced()
    }

    /// The announcements that validation lets through.
    pub open spec fn retained(self) -> nat {
        match self {
            Event::Received { retained, .. } => retained,
            _ => 0,
        }
    }
}

impl Totals {
    /// The totals after one event.
    pub open spec fn step<N, E>(self, event: Event<N, E>) -> Totals {
        match event {
            Event::Received { message, retained } => self.observe(message).validated(
                message.announcements().len(),
                retained,
            ),
            Event::AsLoop { prefixes } => Totals { as_loop: self.as_loop.record(prefixes), ..self },
            Event::OriginatorLoop { prefixes } => Totals {
                originator_loop: self.originator_loop.record(prefixes),
                ..self
            },
            Event::ClusterLoop { prefixes } => Totals {
                cluster_loop: self.cluster_loop.record(prefixes),
                ..self
            },
        }
    }

    /// The warnings that one event calls for.
    pub open spec fn warnings<N, E>(self, event: Event<N, E>) -> nat {
        match event {
            Event::Received { message, retained } => one_if(self.attribute_report_due(message))
                + one_if(
                self.observe(message).conversion_report_due(
                    message.announcements().len(),
                    retained,
                ),
            ),
            Event::AsLoop { .. } => one_if(self.step(event).as_loop.report_due()),
            Event::OriginatorLoop { .. } => one_if(self.step(event).originator_loop.report_due()),
            Event::ClusterLoop { .. } => one_if(self.step(event).cluster_loop.report_due()),
        }
    }

    /// Whether one event calls for the totals of the session.
    pub open spec fn calls_for_totals<N, E>(self, event: Event<N, E>) -> bool {
        match event {
            Event::Received { message, .. } => self.observe(message).totals_report_due(
                message.announcements().len(),
            ),
            _ => false,
        }
    }

    /// What the counters of a session have in common at every moment.
    pub open spec fn consistent(self) -> bool {
        &&& self.attribute_errors <= self.updates
        &&& self.validation.updates <= self.updates
        &&& self.validation.updates <= self.validation.prefixes
        &&& self.validation.prefixes <= self.announced
    }
}

/// One where `b` holds, else zero.
pub open spec fn one_if(b: bool) -> nat {
    if b {
        1
    } else {
        0
    }
}

/// The totals of a session after its events.
pub open spec fn run<N, E>(events: Seq<Event<N, E>>) -> Totals
    decreases events.len(),
{
    if events.len() == 0 {
        Totals::fresh()
    } else {
        run(events.drop_last()).step(events.last())
    }
}

/// How many events are the arrival of an UPDATE with routes.
pub open spec fn total_updates<N, E>(events: Seq<Event<N, E>>) -> nat
    decreases events.len(),
{
    if events.len() == 0 {
        0
    } else {
        total_updates(events.drop_last()) + one_if(events.last().is_update())
    }
}

/// How many events are the arrival of an UPDATE with attribute errors.
pub open spec fn total_faulty<N, E>(events: Seq<Event<N, E>>) -> nat
    decreases events.len(),
{
    if events.len() == 0 {
        0
    } else {
        total_faulty(events.drop_last()) + one_if(events.last().is_faulty())
    }
}

/// How many events lose announcements in validation.
pub open spec fn total_lossy<N, E>(events: Seq<Event<N, E>>) -> nat
    decreases events.len(),
{
    if events.len() == 0 {
        0
    } else {
        total_lossy(events.drop_last()) + one_if(events.last().is_lossy())
    }
}

/// All the announcements that the events bring in.
pub open spec fn total_announced<N, E>(events: Seq<Event<N, E>>) -> nat
    decreases events.len(),
{
    if events.len() == 0 {
        0
    } else {
        total_announced(events.drop_last()) + events.last().announced()
    }
}

/// All the announcements that validation lets through.
pub open spec fn total_retained<N, E>(events: Seq<Event<N, E>>) -> nat
    decreases events.len(),
{
    if events.len() == 0 {
        0
    } else {
        total_retained(events.drop_last()) + events.last().retained()
    }
}

/// All the warnings that the events call for.
pub open spec fn total_warnings<N, E>(events: Seq<Event<N, E>>) -> nat
    decreases events.len(),
{
    if events.len() == 0 {
        0
    } else {
        total_warnings(events.drop_last()) + run(events.drop_last()).warnings(events.last())
    }
}

/// How often the events call for the totals of the session.
pub open spec fn total_totals_reports<N, E>(events: Seq<Event<N, E>>) -> nat
    decreases events.len(),
{
    if events.len() == 0 {
        0
    } else {
        total_totals_reports(events.drop_last()) + one_if(
            run(events.drop_last()).calls_for_totals(events.last()),
        )
    }
}

/// Every event keeps the totals consistent.
pub proof fn law_event_keeps_consistency<N, E>(totals: Totals, event: Event<N, E>)
    requires
        totals.consistent(),
    ensures
        totals.step(event).consistent(),
{
}

/// The totals of a session are consistent at every moment: no more updates show
/// an error or a conversion than were received, and no more announcements are
/// converted than were announced.
pub proof fn law_session_is_consistent<N, E>(events: Seq<Event<N, E>>)
    ensures
        run(events).consistent(),
    decreases events.len(),
{
    if events.len() > 0 {
        law_session_is_consistent(events.drop_last());
        law_event_keeps_consistency(run(events.drop_last()), events.last());
    }
}

/// Announcements are counted before validation: whatever validation and the loop
/// checks do, the count is that of all announcements received.
pub proof fn law_announcements_count_before_validation<N, E>(events: Seq<Event<N, E>>)
    ensures
        run(events).announced == total_announced(events),
    decreases events.len(),
{
    if events.len() > 0 {
        law_announcements_count_before_validation(events.drop_last());
    }
}

/// Each UPDATE with routes counts once, whatever it holds, and nothing else counts.
pub proof fn law_updates_count_once_each<N, E>(events: Seq<Event<N, E>>)
    ensures
        run(events).updates == total_updates(events),
    decreases events.len(),
{
    if events.len() > 0 {
        law_updates_count_once_each(events.drop_last());
    }
}

/// Each UPDATE with attribute errors counts once, whatever it announces and
/// however many errors it has.
pub proof fn law_faulty_updates_count_once_each<N, E>(events: Seq<Event<N, E>>)
    ensures
        run(events).attribute_errors == total_faulty(events),
    decreases events.len(),
{
    if events.len() > 0 {
        law_faulty_updates_count_once_each(events.drop_last());
    }
}

/// Each update that loses announcements in validation counts once, whatever the
/// size of the loss.
pub proof fn law_lossy_updates_count_once_each<N, E>(events: Seq<Event<N, E>>)
    ensures
        run(events).validation.updates == total_lossy(events),
    decreases events.len(),
{
    if events.len() > 0 {
        law_lossy_updates_count_once_each(events.drop_last());
    }
}

/// Of the faulty updates of a session the first is reported, and then those that
/// bring their number to a power of two; no other message is.
pub proof fn law_faulty_updates_are_reported_at_powers<N, E>(
    events: Seq<Event<N, E>>,
    message: ParsedMessage<N, E>,
    retained: nat,
)
    ensures
        run(events).attribute_report_due(message) <==> {
            &&& (Event::Received { message, retained }).is_faulty()
            &&& exists|k: nat| total_faulty(events) + 1 == #[trigger] pow2(k)
        },
        total_faulty(events) == 0 && (Event::Received { message, retained }).is_faulty()
            ==> run(events).attribute_report_due(message),
{
    law_faulty_updates_count_once_each(events);
    crate::power::lemma_is_some_power(total_faulty(events) + 1);
    vstd::arithmetic::power2::lemma2_to64();
    assert(pow2(0) == 1);
}

/// Of the updates that lose announcements in validation the first is reported,
/// and then those that bring their number to a power of two; no other is.
pub proof fn law_lossy_updates_are_reported_at_powers<N, E>(
    events: Seq<Event<N, E>>,
    message: ParsedMessage<N, E>,
    retained: nat,
)
    ensures
        run(events).observe(message).conversion_report_due(message.announcements().len(), retained)
            <==> {
            &&& (Event::Received { message, retained }).is_lossy()
            &&& exists|k: nat| total_lossy(events) + 1 == #[trigger] pow2(k)
        },
        total_lossy(events) == 0 && (Event::Received { message, retained }).is_lossy()
            ==> run(events).observe(message).conversion_report_due(
            message.announcements().len(),
            retained,
        ),
{
    law_lossy_updates_count_once_each(events);
    crate::power::lemma_is_some_power(total_lossy(events) + 1);
    vstd::arithmetic::power2::lemma2_to64();
    assert(pow2(0) == 1);
}

/// No announcement is lost unnoticed in validation: each is either retained or
/// counted as converted to a withdrawal.
pub proof fn law_announcements_are_accounted_for<N, E>(events: Seq<Event<N, E>>)
    requires
        forall|i: int|
            0 <= i < events.len() ==> (#[trigger] events[i]).retained() <= events[i].announced(),
    ensures
        run(events).announced == total_retained(events) + run(events).validation.prefixes,
    decreases events.len(),
{
    if events.len() > 0 {
        let before = events.drop_last();
        assert forall|i: int| 0 <= i < before.len() implies (#[trigger] before[i]).retained()
            <= before[i].announced() by {
            assert(before[i] == events[i]);
        }
        law_announcements_are_accounted_for(before);
        assert(events[events.len() - 1].retained() <= events.last().announced());
    }
}

/// An announcement that is repeated counts again: the counters are of
/// announcements, not of unique routes.
pub proof fn law_repeated_announcements_count_again<N, E>(
    totals: Totals,
    message: ParsedMessage<N, E>,
)
    ensures
        totals.observe(message).observe(message).announced == totals.announced + 2
            * message.announcements().len(),
{
}

/// Attribute errors are kept apart from rejections: observing a message touches
/// no count of rejected announcements, whatever errors it has, and validating
/// one touches nothing but the count of conversions.
pub proof fn law_attribute_errors_are_not_rejections<N, E>(
    totals: Totals,
    message: ParsedMessage<N, E>,
    announced: nat,
    retained: nat,
)
    ensures
        totals.observe(message).validation == totals.validation,
        totals.observe(message).as_loop == totals.as_loop,
        totals.observe(message).originator_loop == totals.originator_loop,
        totals.observe(message).cluster_loop == totals.cluster_loop,
        totals.validated(announced, retained) == (Totals {
            validation: totals.validated(announced, retained).validation,
            ..totals
        }),
{
}

/// A message whose announcements all outlive validation leaves every count of
/// rejections alone, whatever attribute errors it has.
pub proof fn law_discarded_attributes_reject_nothing<N, E>(
    totals: Totals,
    message: ParsedMessage<N, E>,
    retained: nat,
)
    requires
        retained >= message.announcements().len(),
    ensures
        totals.step(Event::Received { message, retained }) == totals.observe(message),
{
}

/// The warnings of a session are exactly the powers of two that its counters of
/// updates have passed.
pub proof fn law_warnings_are_powers<N, E>(events: Seq<Event<N, E>>)
    ensures
        total_warnings(events) == crate::power::powers_up_to(run(events).attribute_errors)
            + crate::power::powers_up_to(run(events).validation.updates)
            + crate::power::powers_up_to(run(events).as_loop.updates)
            + crate::power::powers_up_to(run(events).originator_loop.updates)
            + crate::power::powers_up_to(run(events).cluster_loop.updates),
    decreases events.len(),
{
    if events.len() > 0 {
        law_warnings_are_powers(events.drop_last());
    }
}

/// No counter of updates exceeds the number of events.
proof fn lemma_counters_within_events<N, E>(events: Seq<Event<N, E>>)
    ensures
        run(events).attribute_errors <= events.len(),
        run(events).validation.updates <= events.len(),
        run(events).as_loop.updates <= events.len(),
        run(events).originator_loop.updates <= events.len(),
        run(events).cluster_loop.updates <= events.len(),
    decreases events.len(),
{
    if events.len() > 0 {
        lemma_counters_within_events(events.drop_last());
    }
}

/// The log volume of a session is logarithmic: fewer than `2^k` events call for
/// at most `k` warnings of each of the five kinds.
pub proof fn law_log_volume_of_session<N, E>(events: Seq<Event<N, E>>, k: nat)
    requires
        events.len() < pow2(k),
    ensures
        total_warnings(events) <= 5 * k,
{
    let totals = run(events);
    law_warnings_are_powers(events);
    lemma_counters_within_events(events);
    crate::power::lemma_powers_below(totals.attribute_errors, k);
    crate::power::lemma_powers_below(totals.validation.updates, k);
    crate::power::lemma_powers_below(totals.as_loop.updates, k);
    crate::power::lemma_powers_below(totals.originator_loop.updates, k);
    crate::power::lemma_powers_below(totals.cluster_loop.updates, k);
}

/// Where every update announces something, the totals of a session are reported
/// once in each full interval, no more and no less.
pub proof fn law_totals_reports_are_regular<N, E>(events: Seq<Event<N, E>>)
    requires
        forall|i: int|
            0 <= i < events.len() && (#[trigger] events[i]).is_update() ==> events[i].announced()
                > 0,
    ensures
        total_totals_reports(events) == total_updates(events) / 65_536,
    decreases events.len(),
{
    law_updates_count_once_each(events);
    if events.len() > 0 {
        let before = events.drop_last();
        assert forall|i: int|
            0 <= i < before.len() && (#[trigger] before[i]).is_update() implies before[i].announced()
            > 0 by {
            assert(before[i] == events[i]);
        }
        law_totals_reports_are_regular(before);
        law_updates_count_once_each(before);
        assert(events[events.len() - 1].is_update() ==> events.last().announced() > 0);
    }
}

/// The arrival that calls for the totals is that of an update with announcements
/// whose number in the session is a multiple of the interval.
pub proof fn law_totals_are_due_at_multiples<N, E>(events: Seq<Event<N, E>>, event: Event<N, E>)
    ensures
        run(events).calls_for_totals(event) <==> event.announced() > 0 && (total_updates(events)
            + 1) % 65_536 == 0,
{
    law_updates_count_once_each(events);
}

/// The totals of a session are reported at most once in each interval.
pub proof fn law_totals_reports_are_paced<N, E>(events: Seq<Event<N, E>>)
    ensures
        total_totals_reports(events) <= run(events).updates / (TOTALS_INTERVAL as nat),
    decreases events.len(),
{
    if events.len() > 0 {
        law_totals_reports_are_paced(events.drop_last());
    }
}

} // verus!
