use umobile_exporter::client::{extract_bill, extract_usage, login_outcome, Bill, Usage};
use umobile_exporter::poller::{initial_phase, step, PollAction, PollEvent, PollerPhase};
use umobile_exporter::render::render_metrics;
use umobile_exporter::state::State;
use umobile_exporter::text::DataAmount;
use umobile_exporter::{default_interval, default_listen_port};

const WORD_USED: &str = "\u{c0ac}\u{c6a9}";
const LABEL_DATA: &str = "\u{b370}\u{c774}\u{d130}";
const UNIT_KRW: &str = "\u{c6d0}";

fn amount(whole: u64, frac: &[u8]) -> DataAmount {
    DataAmount { whole, frac: frac.to_vec() }
}

#[test]
fn update_merges_field_by_field() {
    let mut s = State::default();
    s.update(
        Usage { mobile_data_used: Some(amount(3, &[2])), call_used: None, sms_used: None },
        Bill::default(),
    );
    s.update(
        Usage { mobile_data_used: None, call_used: Some(10), sms_used: None },
        Bill::default(),
    );
    let r = s.read();
    let d = r.usage.mobile_data_used.unwrap();
    assert_eq!(d.whole, 3);
    assert_eq!(d.frac, vec![2u8]);
    assert_eq!(r.usage.call_used, Some(10));
    assert_eq!(r.usage.sms_used, None);
    assert_eq!(r.bill.usage, None);
}

#[test]
fn present_fields_overwrite() {
    let mut s = State::default();
    s.update(
        Usage { mobile_data_used: Some(amount(1, &[])), call_used: Some(5), sms_used: Some(2) },
        Bill { usage: Some(100) },
    );
    s.update(
        Usage { mobile_data_used: Some(amount(9, &[5])), call_used: None, sms_used: None },
        Bill { usage: Some(200) },
    );
    let r = s.read();
    let d = r.usage.mobile_data_used.unwrap();
    assert_eq!(d.whole, 9);
    assert_eq!(d.frac, vec![5u8]);
    assert_eq!(r.usage.call_used, Some(5));
    assert_eq!(r.usage.sms_used, Some(2));
    assert_eq!(r.bill.usage, Some(200));
}

#[test]
fn read_is_a_snapshot_copy() {
    let mut s = State::default();
    s.update(
        Usage { mobile_data_used: None, call_used: Some(1), sms_used: None },
        Bill { usage: Some(7) },
    );
    let snap = s.read();
    s.update(
        Usage { mobile_data_used: None, call_used: Some(2), sms_used: None },
        Bill::default(),
    );
    assert_eq!(snap.usage.call_used, Some(1));
    assert_eq!(snap.bill.usage, Some(7));
    assert_eq!(s.read().usage.call_used, Some(2));
}

#[test]
fn render_of_initial_state_is_all_zero() {
    let body = render_metrics(&State::default());
    let expected = "\n\
# HELP data_used Mobile data used, in GB\n\
# TYPE data_used gauge\n\
data_used 0\n\
\n\
# HELP call_used Call time used, in minutes\n\
# TYPE call_used gauge\n\
call_used 0\n\
\n\
# HELP sms_used SMS used, in count\n\
# TYPE sms_used gauge\n\
sms_used 0\n\
\n\
# HELP bill_usage Bill usage, in KRW\n\
# TYPE bill_usage gauge\n\
bill_usage 0\n";
    assert_eq!(body, expected);
}

#[test]
fn render_formats_each_value() {
    let mut s = State::default();
    s.update(
        Usage {
            mobile_data_used: Some(amount(3, &[5])),
            call_used: Some(-2),
            sms_used: Some(250),
        },
        Bill { usage: Some(15000) },
    );
    let body = render_metrics(&s);
    assert!(body.contains("data_used 3.5\n"));
    assert!(body.contains("call_used -2\n"));
    assert!(body.contains("sms_used 250\n"));
    assert!(body.contains("bill_usage 15000\n"));
}

#[test]
fn end_to_end_one_poll_cycle() {
    // Canned login response: HTTP 200.
    assert!(login_outcome(200).is_ok());

    // Canned usage page with one data box and a canned bill page.
    let usage_html = format!(
        "<html><body><section class=\"box-usage-wrap\">\
         <strong class=\"usage-title\">{}</strong>\
         <div class=\"usage-amount\">3.5GB/10GB {}</div>\
         </section></body></html>",
        LABEL_DATA, WORD_USED
    );
    let bill_html = format!(
        "<html><body><div class=\"info-area\"><div class=\"detail\">15,000{}</div></div></body></html>",
        UNIT_KRW
    );

    let usage = extract_usage(&usage_html).unwrap();
    let bill = extract_bill(&bill_html).unwrap();

    let mut s = State::default();
    s.update(usage, bill);

    let body = render_metrics(&s.read());
    assert!(body.contains("data_used 10\n"));
    assert!(body.contains("bill_usage 15000\n"));
    assert!(body.contains("call_used 0\n"));
    assert!(body.contains("sms_used 0\n"));
}

#[test]
fn poller_happy_path() {
    let p0 = initial_phase();
    assert_eq!(p0, PollerPhase::Disconnected { ever_connected: false });

    let (p1, a1) = step(p0, PollEvent::LoginSucceeded);
    assert_eq!(p1, PollerPhase::Connected);
    assert!(matches!(a1, PollAction::Wait));

    let (p2, a2) = step(p1, PollEvent::Tick);
    assert_eq!(p2, PollerPhase::Connected);
    assert!(matches!(a2, PollAction::RunCycle));

    let (p3, a3) = step(
        p2,
        PollEvent::CycleSucceeded { usage: Usage::default(), bill: Bill::default() },
    );
    assert_eq!(p3, PollerPhase::Connected);
    assert!(matches!(a3, PollAction::Publish { .. }));
}

#[test]
fn first_login_failure_is_fatal_later_ones_retry() {
    let (p, a) = step(initial_phase(), PollEvent::LoginFailed);
    assert_eq!(p, PollerPhase::Stopped { login_failed: true });
    assert!(matches!(a, PollAction::ExitLoginFailure));

    let (p, a) = step(PollerPhase::Connected, PollEvent::CycleFailed);
    assert_eq!(p, PollerPhase::Disconnected { ever_connected: true });
    assert!(matches!(a, PollAction::AttemptLogin));

    let (p, a) = step(p, PollEvent::LoginFailed);
    assert_eq!(p, PollerPhase::Disconnected { ever_connected: true });
    assert!(matches!(a, PollAction::AttemptLogin));
}

#[test]
fn cancellation_stops_every_phase() {
    for phase in [
        PollerPhase::Disconnected { ever_connected: false },
        PollerPhase::Disconnected { ever_connected: true },
        PollerPhase::Connected,
    ] {
        let (p, a) = step(phase, PollEvent::Stop);
        assert_eq!(p, PollerPhase::Stopped { login_failed: false });
        assert!(matches!(a, PollAction::ExitStopped));
    }
    // The terminal phase never leaves and only re-issues its exit.
    let (p, a) = step(PollerPhase::Stopped { login_failed: false }, PollEvent::Tick);
    assert_eq!(p, PollerPhase::Stopped { login_failed: false });
    assert!(matches!(a, PollAction::ExitStopped));

    let (p, a) = step(PollerPhase::Stopped { login_failed: true }, PollEvent::LoginSucceeded);
    assert_eq!(p, PollerPhase::Stopped { login_failed: true });
    assert!(matches!(a, PollAction::ExitLoginFailure));
}

#[test]
fn spurious_events_re_issue_the_phase_action() {
    let (p, a) = step(initial_phase(), PollEvent::Tick);
    assert_eq!(p, initial_phase());
    assert!(matches!(a, PollAction::AttemptLogin));

    let (p, a) = step(PollerPhase::Connected, PollEvent::LoginSucceeded);
    assert_eq!(p, PollerPhase::Connected);
    assert!(matches!(a, PollAction::Wait));
}

#[test]
fn config_defaults() {
    assert_eq!(default_interval(), 600);
    assert_eq!(default_listen_port(), 8080);
}
