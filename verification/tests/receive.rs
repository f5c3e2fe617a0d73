use receive_diagnostics::count::RejectionCount;
use receive_diagnostics::diagnostics::{ReceiveDiagnostics, TOTALS_INTERVAL};
use receive_diagnostics::message::{Family, NlriSet, ParsedMessage, ParsedUpdate};
use receive_diagnostics::power::is_power_of_two;

const IPV4: Family = Family { afi: 1, safi: 1 };
const IPV6: Family = Family { afi: 2, safi: 1 };

type Message = ParsedMessage<(u8, Vec<u8>), u8>;

/// Decodes length-prefixed address prefixes.
fn prefixes(mut wire: &[u8]) -> Vec<(u8, Vec<u8>)> {
    let mut out = vec![];
    while !wire.is_empty() {
        let octets = (wire[0] as usize + 7) / 8;
        out.push((wire[0], wire[1..1 + octets].to_vec()));
        wire = &wire[1 + octets..];
    }
    out
}

/// Decodes an UPDATE without withdrawals.  An error is the flags of an
/// attribute whose length does not fit its code.
fn parse_message(wire: &[u8]) -> Message {
    assert_eq!(&wire[..16], &[0xff; 16]);
    assert_eq!(u16::from_be_bytes([wire[16], wire[17]]) as usize, wire.len());
    assert_eq!(wire[18], 2);
    assert_eq!(&wire[19..21], &[0, 0]);
    let attr_len = u16::from_be_bytes([wire[21], wire[22]]) as usize;
    let mut attrs = &wire[23..23 + attr_len];
    let mut error_attrs = vec![];
    while !attrs.is_empty() {
        let (flags, code, len) = (attrs[0], attrs[1], attrs[2] as usize);
        let fits = match code {
            4 => len == 4,
            8 => len % 4 == 0,
            _ => true,
        };
        if !fits {
            error_attrs.push(flags);
        }
        attrs = &attrs[3 + len..];
    }
    let reach = Some(NlriSet { family: IPV4, entries: prefixes(&wire[23 + attr_len..]) });
    ParsedMessage::Update(ParsedUpdate::Routes { reach, mp_reach: None, error_attrs })
}

/// How many announcements outlive validation: an error in a transitive
/// attribute turns them all into withdrawals, one in another attribute only
/// discards that attribute.
fn validate_message(parsed: Message) -> u64 {
    match parsed {
        ParsedMessage::Update(ParsedUpdate::Routes { reach, error_attrs, .. }) => {
            if error_attrs.iter().any(|flags| flags & 0x40 != 0) {
                0
            } else {
                reach.unwrap().entries.len() as u64
            }
        }
        _ => 0,
    }
}

// Valid routes, attribute-discard, and treat-as-withdraw must be distinguishable.
#[test]
fn distinguishes_attribute_discard_from_rejected_announcements() {
    for (extra, expected_rejected) in [
        (vec![], 0),
        (vec![0x80, 4, 3, 0, 0, 0], 0), // malformed optional MED
        (vec![0xc0, 8, 3, 0, 0, 0], 3), // malformed transitive COMMUNITY
    ] {
        let mut attrs = vec![0x40, 1, 1, 0, 0x40, 2, 6, 2, 1];
        attrs.extend_from_slice(&1299u32.to_be_bytes());
        attrs.extend_from_slice(&[0x40, 3, 4, 192, 0, 2, 1]);
        let malformed = !extra.is_empty();
        attrs.extend(extra);
        let prefixes = [8, 10, 16, 172, 16, 24, 192, 0, 2];
        let mut wire = vec![0xff; 16];
        wire.extend_from_slice(&((23 + attrs.len() + prefixes.len()) as u16).to_be_bytes());
        wire.push(2);
        wire.extend_from_slice(&[0, 0]);
        wire.extend_from_slice(&(attrs.len() as u16).to_be_bytes());
        wire.extend(attrs);
        wire.extend(prefixes);
        let parsed = parse_message(&wire);
        let mut diagnostics = ReceiveDiagnostics::default();
        let (announced, report) = diagnostics.observe(&parsed);
        assert_eq!(report.is_some(), malformed);
        let retained = validate_message(parsed);
        let report = diagnostics.validated(announced, retained);
        assert_eq!(announced, 3);
        assert_eq!(diagnostics.validation.prefixes, expected_rejected);
        assert_eq!(
            diagnostics.validation.updates,
            u64::from(expected_rejected != 0)
        );
        assert_eq!(report.converted.is_some(), expected_rejected != 0);
        assert_eq!(diagnostics.attribute_errors, u64::from(malformed));
    }
}

fn routes(reach: &[u32], mp_reach: &[u32], errors: &[u8]) -> ParsedMessage<u32, u8> {
    ParsedMessage::Update(ParsedUpdate::Routes {
        reach: Some(NlriSet { family: IPV4, entries: reach.to_vec() }),
        mp_reach: Some(NlriSet { family: IPV6, entries: mp_reach.to_vec() }),
        error_attrs: errors.to_vec(),
    })
}

#[test]
fn recognises_powers_of_two() {
    for n in 0..5000u64 {
        assert_eq!(is_power_of_two(n), n.is_power_of_two());
    }
    for k in 0..64 {
        assert!(is_power_of_two(1u64 << k));
    }
    assert!(!is_power_of_two(u64::MAX));
    assert!(!is_power_of_two((1u64 << 63) + 1));
    assert!(!is_power_of_two(0));
}

#[test]
fn record_reports_the_first_rejection_and_powers_of_two() {
    let mut count = RejectionCount::default();
    let mut reported = vec![];
    for n in 1..=20u64 {
        if count.record(3) {
            reported.push(n);
        }
    }
    assert_eq!(reported, [1, 2, 4, 8, 16]);
    assert_eq!(count, RejectionCount { updates: 20, prefixes: 60 });
}

#[test]
fn record_sums_batches_in_any_order() {
    let mut forward = RejectionCount::default();
    let mut backward = RejectionCount::default();
    for (a, b) in [(1, 4), (0, 0), (4, 1)] {
        forward.record(a);
        backward.record(b);
    }
    assert_eq!(forward, backward);
    assert_eq!(forward, RejectionCount { updates: 3, prefixes: 5 });
}

#[test]
fn record_fills_the_counters() {
    let mut count = RejectionCount { updates: u64::MAX - 1, prefixes: u64::MAX - 7 };
    assert!(!count.record(7));
    assert_eq!(count, RejectionCount { updates: u64::MAX, prefixes: u64::MAX });
}

#[test]
fn log_volume_is_logarithmic() {
    let mut count = RejectionCount::default();
    let mut reports = 0;
    for _ in 0..100_000 {
        if count.record(1) {
            reports += 1;
        }
    }
    assert_eq!(reports, 17); // 2^16 <= 100_000 < 2^17
}

#[test]
fn observe_counts_both_sets_and_samples_the_first_announcement() {
    let mut diagnostics = ReceiveDiagnostics::default();
    let message = routes(&[10, 11], &[20, 21, 22], &[4]);
    let (announced, report) = diagnostics.observe(&message);
    assert_eq!(announced, 5);
    let report = report.unwrap();
    assert_eq!(report.sample, Some(&10));
    assert_eq!(report.announced, 5);
    assert_eq!(report.error_attrs, &vec![4]);
    assert_eq!(report.affected_updates, 1);

    // The multiprotocol set gives the sample where the body announces nothing.
    let message = routes(&[], &[20, 21], &[4, 8]);
    let (announced, report) = diagnostics.observe(&message);
    assert_eq!(announced, 2);
    let report = report.unwrap();
    assert_eq!(report.sample, Some(&20));
    assert_eq!(report.affected_updates, 2);

    assert_eq!(diagnostics.updates, 2);
    assert_eq!(diagnostics.announced, 7);
    assert_eq!(diagnostics.attribute_errors, 2);
}

#[test]
fn observe_without_announcements_has_no_sample() {
    let mut diagnostics = ReceiveDiagnostics::default();
    let message: ParsedMessage<u32, u8> = ParsedMessage::Update(ParsedUpdate::Routes {
        reach: None,
        mp_reach: None,
        error_attrs: vec![1],
    });
    let (announced, report) = diagnostics.observe(&message);
    assert_eq!(announced, 0);
    assert_eq!(report.unwrap().sample, None);
    assert_eq!(diagnostics.updates, 1);
    assert_eq!(diagnostics.announced, 0);
}

#[test]
fn observe_ignores_messages_without_routes() {
    let mut diagnostics = ReceiveDiagnostics::default();
    let messages: Vec<ParsedMessage<u32, u8>> = vec![
        ParsedMessage::Open,
        ParsedMessage::Update(ParsedUpdate::EndOfRib),
        ParsedMessage::Notification,
        ParsedMessage::Keepalive,
        ParsedMessage::RouteRefresh,
    ];
    for message in &messages {
        let (announced, report) = diagnostics.observe(message);
        assert_eq!(announced, 0);
        assert!(report.is_none());
    }
    assert_eq!(diagnostics.updates, 0);
    assert_eq!(diagnostics.announced, 0);
    assert_eq!(diagnostics.attribute_errors, 0);
}

#[test]
fn attribute_errors_are_reported_at_powers_of_two() {
    let mut diagnostics = ReceiveDiagnostics::default();
    let faulty = routes(&[1], &[], &[4]);
    let sound = routes(&[1], &[], &[]);
    let mut reported = vec![];
    for _ in 0..10 {
        assert!(diagnostics.observe(&sound).1.is_none());
        if let Some(report) = diagnostics.observe(&faulty).1 {
            reported.push(report.affected_updates);
        }
    }
    assert_eq!(reported, [1, 2, 4, 8]);
    assert_eq!(diagnostics.attribute_errors, 10);
    assert_eq!(diagnostics.updates, 20);
    // No rejection was counted.
    for count in [
        diagnostics.validation,
        diagnostics.as_loop,
        diagnostics.originator_loop,
        diagnostics.cluster_loop,
    ] {
        assert_eq!(count, RejectionCount::default());
    }
}

#[test]
fn repeated_announcements_count_again() {
    let mut diagnostics = ReceiveDiagnostics::default();
    let message = routes(&[7, 7], &[7], &[]);
    assert_eq!(diagnostics.observe(&message).0, 3);
    assert_eq!(diagnostics.observe(&message).0, 3);
    assert_eq!(diagnostics.announced, 6);
}

#[test]
fn validated_counts_only_what_was_dropped() {
    let mut diagnostics = ReceiveDiagnostics::default();
    diagnostics.observe(&routes(&[1, 2, 3], &[], &[]));
    for retained in [3, 4, u64::MAX] {
        assert!(diagnostics.validated(3, retained).converted.is_none());
        assert_eq!(diagnostics.validation, RejectionCount::default());
    }
    let report = diagnostics.validated(3, 1);
    let conversion = report.converted.unwrap();
    assert_eq!(conversion.batch_prefixes, 2);
    assert_eq!(conversion.total, RejectionCount { updates: 1, prefixes: 2 });
    assert!(!report.totals_due);
    assert_eq!(diagnostics.validated(3, 0).converted.unwrap().total.prefixes, 5);
    assert!(diagnostics.validated(3, 0).converted.is_none()); // the third
    assert_eq!(diagnostics.validation, RejectionCount { updates: 3, prefixes: 8 });
    assert_eq!(diagnostics.announced, 3);
    assert_eq!(diagnostics.updates, 1);
}

#[test]
fn totals_are_due_once_per_interval() {
    assert_eq!(TOTALS_INTERVAL, 65_536);
    let mut diagnostics = ReceiveDiagnostics::default();
    let message = routes(&[1], &[], &[]);
    let mut due = vec![];
    for n in 1..=2 * 65_536u64 {
        let (announced, _) = diagnostics.observe(&message);
        if diagnostics.validated(announced, 1).totals_due {
            due.push(n);
        }
    }
    assert_eq!(due, [65_536, 131_072]);
    // An update without announcements never calls for the totals.
    assert!(!diagnostics.validated(0, 0).totals_due);
    assert!(diagnostics.validated(1, 1).totals_due);
    // Zero updates are a multiple of the interval too.
    assert!(ReceiveDiagnostics::default().validated(1, 1).totals_due);
}

#[test]
fn loop_checks_count_separately() {
    let mut diagnostics = ReceiveDiagnostics::default();
    for _ in 0..2 {
        let report = ReceiveDiagnostics::reject(
            "cluster loop",
            &mut diagnostics.cluster_loop,
            IPV4,
            &[24u32],
        );
        let report = report.unwrap();
        assert_eq!(report.reason, "cluster loop");
        assert_eq!(report.family, IPV4);
        assert_eq!(report.sample, Some(&24));
    }
    ReceiveDiagnostics::reject("originator loop", &mut diagnostics.originator_loop, IPV6, &[1u32]);
    assert_eq!(diagnostics.cluster_loop.prefixes, 2);
    assert_eq!(diagnostics.originator_loop.prefixes, 1);
    assert_eq!(diagnostics.as_loop, RejectionCount::default());
    assert_eq!(diagnostics.validation, RejectionCount::default());
}

#[test]
fn reject_reports_at_powers_of_two() {
    let mut count = RejectionCount::default();
    let mut totals = vec![];
    for _ in 0..9 {
        if let Some(report) = ReceiveDiagnostics::reject("AS loop", &mut count, IPV4, &[5u32, 6]) {
            assert_eq!(report.sample, Some(&5));
            totals.push(report.total.prefixes);
        }
    }
    assert_eq!(totals, [2, 4, 8, 16]);
    assert_eq!(count, RejectionCount { updates: 9, prefixes: 18 });
}

#[test]
fn reject_without_entries_counts_the_update() {
    let mut count = RejectionCount::default();
    let none: [u32; 0] = [];
    let report = ReceiveDiagnostics::reject("AS loop", &mut count, IPV4, &none);
    assert_eq!(report.unwrap().sample, None);
    assert_eq!(count, RejectionCount { updates: 1, prefixes: 0 });
}

#[test]
fn session_totals_stay_consistent_and_accounted_for() {
    let mut diagnostics = ReceiveDiagnostics::default();
    let mut retained_in_all = 0;
    let mut warnings = 0;
    for n in 0..1000u32 {
        let entries: Vec<u32> = (0..n % 5).collect();
        let errors: &[u8] = if n % 3 == 0 { &[4] } else { &[] };
        let message = routes(&entries, &[n], errors);
        let (announced, report) = diagnostics.observe(&message);
        warnings += u64::from(report.is_some());
        let retained = announced.min(u64::from(n % 4));
        warnings += u64::from(diagnostics.validated(announced, retained).converted.is_some());
        retained_in_all += retained;
        assert_eq!(diagnostics.announced, retained_in_all + diagnostics.validation.prefixes);
        assert!(diagnostics.attribute_errors <= diagnostics.updates);
        assert!(diagnostics.validation.updates <= diagnostics.updates);
        assert!(diagnostics.validation.updates <= diagnostics.validation.prefixes);
    }
    assert_eq!(diagnostics.announced, 3000);
    assert_eq!(diagnostics.attribute_errors, 334);
    assert!(warnings <= 5 * 10);
}

#[test]
fn totals_show_every_counter() {
    let mut diagnostics = ReceiveDiagnostics::default();
    diagnostics.observe(&routes(&[1, 2], &[], &[4]));
    diagnostics.validated(2, 1);
    assert_eq!(
        format!("{diagnostics:?}"),
        "ReceiveDiagnostics { updates: 1, announced: 2, attribute_errors: 1, \
         validation: RejectionCount { updates: 1, prefixes: 1 }, \
         as_loop: RejectionCount { updates: 0, prefixes: 0 }, \
         originator_loop: RejectionCount { updates: 0, prefixes: 0 }, \
         cluster_loop: RejectionCount { updates: 0, prefixes: 0 } }"
    );
}
