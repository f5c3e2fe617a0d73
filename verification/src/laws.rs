//! What each call does to the totals, on the inputs as they come.

use vstd::arithmetic::power2::pow2;
use vstd::prelude::*;

use crate::diagnostics::{ReceiveDiagnostics, Totals};
use crate::message::{NlriSet, ParsedMessage, ParsedUpdate};

verus! {

/// An UPDATE announces what its body and its multiprotocol attribute hold
/// together; an absent set holds nothing.  Observing it adds that number to the
/// announcements and one to the updates.
pub proof fn law_both_sets_are_counted<N, E>(
    totals: Totals,
    reach: Option<NlriSet<N>>,
    mp_reach: Option<NlriSet<N>>,
    error_attrs: Vec<E>,
)
    ensures
        ({
            let message = ParsedMessage::Update(
                ParsedUpdate::Routes { reach, mp_reach, error_attrs },
            );
            let body = match reach {
                Some(set) => set.entries.len() as nat,
                None => 0,
            };
            let multiprotocol = match mp_reach {
                Some(set) => set.entries.len() as nat,
                None => 0,
            };
            &&& message.announcements().len() == body + multiprotocol
            &&& totals.observe(message).announced == totals.announced + body + multiprotocol
            &&& totals.observe(message).updates == totals.updates + 1
        }),
{
}

/// It does not matter to the counters in which of the two sets a path is
/// announced.
pub proof fn law_sets_count_alike<N, E>(
    totals: Totals,
    set: NlriSet<N>,
    other: Option<NlriSet<N>>,
    error_attrs: Vec<E>,
)
    ensures
        ({
            let in_body = ParsedMessage::Update(
                ParsedUpdate::Routes { reach: Some(set), mp_reach: other, error_attrs },
            );
            let in_attribute = ParsedMessage::Update(
                ParsedUpdate::Routes { reach: other, mp_reach: Some(set), error_attrs },
            );
            &&& in_body.announcements().len() == in_attribute.announcements().len()
            &&& in_body.announcements().len() >= set.entries.len()
            &&& totals.observe(in_body) == totals.observe(in_attribute)
            &&& totals.attribute_report_due(in_body) == totals.attribute_report_due(in_attribute)
        }),
{
}

/// The announcements of an UPDATE keep their order, those of the body first.
pub proof fn law_announcements_keep_their_order<N, E>(
    body: NlriSet<N>,
    multiprotocol: NlriSet<N>,
    error_attrs: Vec<E>,
    i: int,
)
    ensures
        ({
            let all = ParsedMessage::Update(
                ParsedUpdate::Routes {
                    reach: Some(body),
                    mp_reach: Some(multiprotocol),
                    error_attrs,
                },
            ).announcements();
            &&& 0 <= i < body.entries.len() ==> all[i] == body.entries[i]
            &&& 0 <= i < multiprotocol.entries.len() ==> all[body.entries.len() + i]
                == multiprotocol.entries[i]
        }),
{
}

/// The sample of an UPDATE is the first path of its body, else the first of its
/// multiprotocol attribute, and there is none only where neither holds a path.
pub proof fn law_sample_is_the_first_path<N, E>(
    reach: Option<NlriSet<N>>,
    mp_reach: Option<NlriSet<N>>,
    error_attrs: Vec<E>,
    sample: Option<&N>,
)
    requires
        crate::message::is_first(
            sample,
            ParsedMessage::Update(
                ParsedUpdate::Routes { reach, mp_reach, error_attrs },
            ).announcements(),
        ),
    ensures
        reach matches Some(set) ==> set.entries.len() > 0 ==> sample == Some(&set.entries[0]),
        (reach matches Some(set) ==> set.entries.len() == 0) ==> match mp_reach {
            Some(set) => if set.entries.len() > 0 {
                sample == Some(&set.entries[0])
            } else {
                sample is None
            },
            None => sample is None,
        },
{
}

/// The sample of some paths stays the same when more follow, and where a path
/// stands before all others it is the sample.
pub proof fn law_sample_ignores_later_paths<N>(path: N, paths: Seq<N>, sample: Option<&N>)
    requires
        crate::message::is_first(sample, seq![path] + paths),
    ensures
        sample == Some(&path),
        crate::message::is_first(sample, seq![path]),
{
}

/// Where there is no path there is no sample.
pub proof fn law_no_sample_of_nothing<N>(sample: Option<&N>)
    requires
        crate::message::is_first(sample, Seq::<N>::empty()),
    ensures
        sample is None,
{
}

/// An UPDATE is counted as faulty exactly when it has attribute errors: once,
/// whatever it announces.  The report falls on powers of two.
pub proof fn law_attribute_errors_are_counted<N, E>(
    totals: Totals,
    reach: Option<NlriSet<N>>,
    mp_reach: Option<NlriSet<N>>,
    error_attrs: Vec<E>,
)
    ensures
        ({
            let message = ParsedMessage::Update(
                ParsedUpdate::Routes { reach, mp_reach, error_attrs },
            );
            &&& message.attribute_errors() == error_attrs@
            &&& error_attrs.len() == 0 ==> {
                &&& totals.observe(message).attribute_errors == totals.attribute_errors
                &&& !totals.attribute_report_due(message)
            }
            &&& error_attrs.len() > 0 ==> {
                &&& totals.observe(message).attribute_errors == totals.attribute_errors + 1
                &&& totals.attribute_report_due(message) <==> exists|k: nat|
                    totals.attribute_errors + 1 == #[trigger] pow2(k)
            }
        }),
{
    crate::power::lemma_is_some_power(totals.attribute_errors + 1);
}

/// What an UPDATE announces has no part in how its attribute errors are counted
/// and reported.
pub proof fn law_announcements_do_not_hide_errors<N, E>(
    totals: Totals,
    a: (Option<NlriSet<N>>, Option<NlriSet<N>>),
    b: (Option<NlriSet<N>>, Option<NlriSet<N>>),
    error_attrs: Vec<E>,
)
    ensures
        ({
            let first = ParsedMessage::Update(
                ParsedUpdate::Routes { reach: a.0, mp_reach: a.1, error_attrs },
            );
            let second = ParsedMessage::Update(
                ParsedUpdate::Routes { reach: b.0, mp_reach: b.1, error_attrs },
            );
            &&& totals.observe(first).attribute_errors == totals.observe(second).attribute_errors
            &&& totals.observe(first).updates == totals.observe(second).updates
            &&& totals.attribute_report_due(first) == totals.attribute_report_due(second)
        }),
{
}

/// A message that is no UPDATE with routes announces nothing, changes nothing
/// and is not reported.
pub proof fn law_other_messages_change_nothing<N, E>(totals: Totals, message: ParsedMessage<N, E>)
    requires
        message !is Update || message->Update_0 is EndOfRib,
    ensures
        message.announcements().len() == 0,
        totals.observe(message) == totals,
        !totals.attribute_report_due(message),
{
}

/// The order in which messages arrive does not matter to the counters.
pub proof fn law_messages_commute<N, E>(
    totals: Totals,
    a: ParsedMessage<N, E>,
    b: ParsedMessage<N, E>,
)
    ensures
        totals.observe(a).observe(b) == totals.observe(b).observe(a),
{
}

/// Validation counts exactly what it did not retain, as one update, whatever the
/// size of the loss.  The report falls on powers of two.
pub proof fn law_losses_are_counted(totals: Totals, announced: nat, retained: nat)
    ensures
        retained >= announced ==> {
            &&& totals.validated(announced, retained) == totals
            &&& !totals.conversion_report_due(announced, retained)
        },
        retained < announced ==> {
            &&& totals.validated(announced, retained).validation.updates
                == totals.validation.updates + 1
            &&& totals.validated(announced, retained).validation.prefixes + retained
                == totals.validation.prefixes + announced
            &&& totals.conversion_report_due(announced, retained) <==> exists|k: nat|
                totals.validation.updates + 1 == #[trigger] pow2(k)
        },
{
    crate::power::lemma_is_some_power(totals.validation.updates + 1);
}

/// Any two losses count as one update each and are reported alike.
pub proof fn law_size_of_loss_does_not_matter(
    totals: Totals,
    announced: nat,
    retained: nat,
    other_announced: nat,
    other_retained: nat,
)
    requires
        retained < announced,
        other_retained < other_announced,
    ensures
        totals.validated(announced, retained).validation.updates == totals.validated(
            other_announced,
            other_retained,
        ).validation.updates,
        totals.conversion_report_due(announced, retained) == totals.conversion_report_due(
            other_announced,
            other_retained,
        ),
{
}

/// The first loss of all is reported.
pub proof fn law_first_loss_is_reported(totals: Totals, announced: nat, retained: nat)
    requires
        totals.validation.updates == 0,
        retained < announced,
    ensures
        totals.conversion_report_due(announced, retained),
{
    law_losses_are_counted(totals, announced, retained);
    vstd::arithmetic::power2::lemma2_to64();
    assert(pow2(0) == 1);
}

/// The first UPDATE with attribute errors is reported, whatever it announces.
pub proof fn law_first_attribute_error_is_reported<N, E>(
    totals: Totals,
    reach: Option<NlriSet<N>>,
    mp_reach: Option<NlriSet<N>>,
    error_attrs: Vec<E>,
)
    requires
        totals.attribute_errors == 0,
        error_attrs.len() > 0,
    ensures
        totals.attribute_report_due(
            ParsedMessage::Update(ParsedUpdate::Routes { reach, mp_reach, error_attrs }),
        ),
{
    law_attribute_errors_are_counted(totals, reach, mp_reach, error_attrs);
    vstd::arithmetic::power2::lemma2_to64();
    assert(pow2(0) == 1);
}

/// The totals are due at the multiples of the interval for any update that
/// announces something, however much, and never for one that announces nothing.
pub proof fn law_totals_ignore_the_size_of_an_update(totals: Totals, announced: nat, other: nat)
    requires
        announced > 0,
        other > 0,
    ensures
        totals.totals_report_due(announced) == totals.totals_report_due(other),
        totals.totals_report_due(announced) <==> exists|n: nat|
            totals.updates == #[trigger] (n * 65_536),
        !totals.totals_report_due(0),
{
    let n = totals.updates / 65_536;
    if totals.updates % 65_536 == 0 {
        assert(totals.updates == n * 65_536);
    }
}

/// From any multiple of the interval the totals fall due again one interval
/// later and not before.
pub proof fn law_totals_return_after_one_interval(
    totals: Totals,
    later: Totals,
    announced: nat,
    elapsed: nat,
)
    requires
        totals.totals_report_due(announced),
        later.updates == totals.updates + elapsed,
        elapsed <= 65_536,
    ensures
        later.totals_report_due(announced) <==> elapsed == 0 || elapsed == 65_536,
{
}

/// A message can be observed whenever the counters have room for it.
pub proof fn law_observe_needs_only_room<N, E>(
    diagnostics: ReceiveDiagnostics,
    reach: Option<NlriSet<N>>,
    mp_reach: Option<NlriSet<N>>,
    error_attrs: Vec<E>,
)
    requires
        diagnostics.updates < u64::MAX,
        diagnostics.attribute_errors < u64::MAX || error_attrs.len() == 0,
        diagnostics.announced + (match reach {
            Some(set) => set.entries.len() as nat,
            None => 0,
        }) + (match mp_reach {
            Some(set) => set.entries.len() as nat,
            None => 0,
        }) <= u64::MAX,
    ensures
        diagnostics@.observe(
            ParsedMessage::Update(ParsedUpdate::Routes { reach, mp_reach, error_attrs }),
        ).fits(),
{
}

/// A message without routes can always be observed.
pub proof fn law_other_messages_need_no_room<N, E>(
    diagnostics: ReceiveDiagnostics,
    message: ParsedMessage<N, E>,
)
    requires
        message !is Update || message->Update_0 is EndOfRib,
    ensures
        diagnostics@.observe(message).fits(),
{
}

/// A validation can be noted whenever the counters have room for its loss.
pub proof fn law_validated_needs_only_room(
    diagnostics: ReceiveDiagnostics,
    announced: nat,
    retained: nat,
)
    requires
        retained < announced ==> diagnostics.validation.updates < u64::MAX
            && diagnostics.validation.prefixes + announced - retained <= u64::MAX,
    ensures
        diagnostics@.validated(announced, retained).fits(),
{
}

/// The totals of two sessions agree only where every counter does.
pub proof fn law_totals_tell_sessions_apart(a: ReceiveDiagnostics, b: ReceiveDiagnostics)
    requires
        a@ == b@,
    ensures
        a == b,
{
}

} // verus!
