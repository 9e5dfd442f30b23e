use wsf::status::{
    classify, reset, Classification, Diagnostic, Reading, RestoreTier, StatusSignal, Verdict,
};

#[test]
fn codes_are_zero_to_four() {
    assert_eq!(StatusSignal::Unknown.code(), 0);
    assert_eq!(StatusSignal::Completed.code(), 1);
    assert_eq!(StatusSignal::Timeout.code(), 2);
    assert_eq!(StatusSignal::Crash.code(), 3);
    assert_eq!(StatusSignal::GuestFault.code(), 4);
}

#[test]
fn from_code_reads_the_five_values() {
    assert_eq!(StatusSignal::from_code(0), Some(StatusSignal::Unknown));
    assert_eq!(StatusSignal::from_code(1), Some(StatusSignal::Completed));
    assert_eq!(StatusSignal::from_code(2), Some(StatusSignal::Timeout));
    assert_eq!(StatusSignal::from_code(3), Some(StatusSignal::Crash));
    assert_eq!(StatusSignal::from_code(4), Some(StatusSignal::GuestFault));
}

#[test]
fn from_code_refuses_what_the_protocol_lacks() {
    assert_eq!(StatusSignal::from_code(5), None);
    assert_eq!(StatusSignal::from_code(255), None);
    assert_eq!(StatusSignal::from_code(u32::MAX), None);
}

#[test]
fn code_and_from_code_round_trip() {
    for signal in [
        StatusSignal::Unknown,
        StatusSignal::Completed,
        StatusSignal::Timeout,
        StatusSignal::Crash,
        StatusSignal::GuestFault,
    ] {
        assert_eq!(StatusSignal::from_code(signal.code()), Some(signal));
    }
}

#[test]
fn reading_of_raw() {
    assert_eq!(Reading::of_raw(3), Reading::Reported(StatusSignal::Crash));
    assert_eq!(Reading::of_raw(0), Reading::Reported(StatusSignal::Unknown));
    assert_eq!(Reading::of_raw(5), Reading::Undefined(5));
    assert_eq!(Reading::of_raw(77), Reading::Undefined(77));
}

#[test]
fn classify_completed_is_normal() {
    assert_eq!(
        classify(1),
        Classification { verdict: Verdict::Normal, restore: RestoreTier::Standard, diagnostic: None }
    );
}

#[test]
fn classify_timeout_is_timeout() {
    assert_eq!(
        classify(2),
        Classification { verdict: Verdict::Timeout, restore: RestoreTier::Standard, diagnostic: None }
    );
}

#[test]
fn classify_crash_is_crash() {
    assert_eq!(
        classify(3),
        Classification { verdict: Verdict::Crash, restore: RestoreTier::Standard, diagnostic: None }
    );
}

#[test]
fn classify_unknown_is_normal_with_a_diagnostic() {
    assert_eq!(
        classify(0),
        Classification {
            verdict: Verdict::Normal,
            restore: RestoreTier::Standard,
            diagnostic: Some(Diagnostic::StatusNotSet),
        }
    );
}

#[test]
fn classify_guest_fault_is_normal_with_the_corrective_restore() {
    assert_eq!(
        classify(4),
        Classification {
            verdict: Verdict::Normal,
            restore: RestoreTier::Corrective,
            diagnostic: Some(Diagnostic::GuestFault),
        }
    );
}

#[test]
fn classify_undefined_value_is_normal_and_reported() {
    assert_eq!(
        classify(5),
        Classification {
            verdict: Verdict::Normal,
            restore: RestoreTier::Standard,
            diagnostic: Some(Diagnostic::UndefinedStatus(5)),
        }
    );
    assert_eq!(classify(u32::MAX).verdict, Verdict::Normal);
    assert_eq!(classify(u32::MAX).diagnostic, Some(Diagnostic::UndefinedStatus(u32::MAX)));
}

#[test]
fn unknown_and_guest_fault_differ_in_their_diagnostics() {
    let unknown = classify(StatusSignal::Unknown.code());
    let fault = classify(StatusSignal::GuestFault.code());
    assert_eq!(unknown.verdict, fault.verdict);
    assert_ne!(unknown.diagnostic, fault.diagnostic);
    assert_ne!(unknown.restore, fault.restore);
    assert_ne!(
        Diagnostic::StatusNotSet.message(),
        Diagnostic::GuestFault.message()
    );
}

#[test]
fn verdict_of_each_reading() {
    assert_eq!(Reading::Reported(StatusSignal::Unknown).verdict(), Verdict::Normal);
    assert_eq!(Reading::Reported(StatusSignal::Completed).verdict(), Verdict::Normal);
    assert_eq!(Reading::Reported(StatusSignal::Timeout).verdict(), Verdict::Timeout);
    assert_eq!(Reading::Reported(StatusSignal::Crash).verdict(), Verdict::Crash);
    assert_eq!(Reading::Reported(StatusSignal::GuestFault).verdict(), Verdict::Normal);
    assert_eq!(Reading::Undefined(9).verdict(), Verdict::Normal);
}

#[test]
fn diagnostic_of_each_reading() {
    assert_eq!(
        Reading::Reported(StatusSignal::Unknown).diagnostic(),
        Some(Diagnostic::StatusNotSet)
    );
    assert_eq!(Reading::Reported(StatusSignal::Completed).diagnostic(), None);
    assert_eq!(Reading::Reported(StatusSignal::Timeout).diagnostic(), None);
    assert_eq!(Reading::Reported(StatusSignal::Crash).diagnostic(), None);
    assert_eq!(
        Reading::Reported(StatusSignal::GuestFault).diagnostic(),
        Some(Diagnostic::GuestFault)
    );
    assert_eq!(Reading::Undefined(9).diagnostic(), Some(Diagnostic::UndefinedStatus(9)));
}

#[test]
fn reset_is_corrective_after_a_guest_fault_only() {
    assert_eq!(reset(Reading::Reported(StatusSignal::GuestFault)), RestoreTier::Corrective);
    assert_eq!(reset(Reading::Reported(StatusSignal::Unknown)), RestoreTier::Standard);
    assert_eq!(reset(Reading::Reported(StatusSignal::Completed)), RestoreTier::Standard);
    assert_eq!(reset(Reading::Reported(StatusSignal::Timeout)), RestoreTier::Standard);
    assert_eq!(reset(Reading::Reported(StatusSignal::Crash)), RestoreTier::Standard);
    assert_eq!(reset(Reading::Undefined(4000)), RestoreTier::Standard);
}

#[test]
fn forced_timeout_is_a_timeout_with_the_standard_restore() {
    assert_eq!(
        Classification::forced_timeout(),
        Classification { verdict: Verdict::Timeout, restore: RestoreTier::Standard, diagnostic: None }
    );
}

#[test]
fn diagnostic_messages() {
    assert_eq!(Diagnostic::StatusNotSet.message(), "status not set");
    assert_eq!(Diagnostic::GuestFault.message(), "guest fault: corrective restore");
    assert_eq!(Diagnostic::UndefinedStatus(17).message(), "undefined status value");
}
