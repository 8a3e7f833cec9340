use umobile_exporter::client::{
    bill_from_detail, extract_bill, extract_usage, fetch_outcome, login_outcome, usage_from_boxes,
    ClientError, RawBox,
};

// Category labels and decorations as the portal writes them:
// data "데이터", voice call "음성통화", message "메시지",
// status words "남음" (remaining) and "사용" (used),
// units "분" (minutes), "건" (count), "원" (KRW).
const LABEL_DATA: &str = "\u{b370}\u{c774}\u{d130}";
const LABEL_CALL: &str = "\u{c74c}\u{c131}\u{d1b5}\u{d654}";
const LABEL_SMS: &str = "\u{ba54}\u{c2dc}\u{c9c0}";
const WORD_REMAINING: &str = "\u{b0a8}\u{c74c}";
const WORD_USED: &str = "\u{c0ac}\u{c6a9}";
const UNIT_CALL: &str = "\u{bd84}";
const UNIT_SMS: &str = "\u{ac74}";
const UNIT_KRW: &str = "\u{c6d0}";

fn one_box(title: &str, amount: &str) -> Vec<RawBox> {
    vec![RawBox { title: Some(title.to_string()), amount: Some(amount.to_string()) }]
}

#[test]
fn data_box_yields_used_side_as_decimal() {
    let amount = format!("3.5GB/10GB {}", WORD_USED);
    let u = usage_from_boxes(&one_box(LABEL_DATA, &amount));
    let d = u.mobile_data_used.unwrap();
    assert_eq!(d.whole, 10);
    assert!(d.frac.is_empty());
    assert_eq!(u.call_used, None);
    assert_eq!(u.sms_used, None);
}

#[test]
fn call_box_yields_used_side_as_count() {
    let amount = format!("100{u}/250{u} {r}", u = UNIT_CALL, r = WORD_REMAINING);
    let u = usage_from_boxes(&one_box(LABEL_CALL, &amount));
    assert_eq!(u.call_used, Some(250));
    assert!(u.mobile_data_used.is_none());
}

#[test]
fn sms_box_yields_used_side_as_count() {
    let amount = format!("10{u}/50{u} {r} {w}", u = UNIT_SMS, r = WORD_REMAINING, w = WORD_USED);
    let u = usage_from_boxes(&one_box(LABEL_SMS, &amount));
    assert_eq!(u.sms_used, Some(50));
}

#[test]
fn decoration_order_does_not_change_the_result() {
    let a1 = format!("{} 3.5GB/1.25GB{}", WORD_REMAINING, WORD_USED);
    let a2 = format!("3.5{w}GB/{r}1.25GB", w = WORD_USED, r = WORD_REMAINING);
    let u1 = usage_from_boxes(&one_box(LABEL_DATA, &a1));
    let u2 = usage_from_boxes(&one_box(LABEL_DATA, &a2));
    let d1 = u1.mobile_data_used.unwrap();
    let d2 = u2.mobile_data_used.unwrap();
    assert_eq!(d1.whole, 1);
    assert_eq!(d1.frac, vec![2u8, 5u8]);
    assert_eq!(d2.whole, d1.whole);
    assert_eq!(d2.frac, d1.frac);
}

#[test]
fn title_matches_by_contained_label() {
    let amount = format!("1GB/2GB {}", WORD_USED);
    let title = format!("xx {} yy", LABEL_DATA);
    let u = usage_from_boxes(&one_box(&title, &amount));
    assert_eq!(u.mobile_data_used.unwrap().whole, 2);
}

#[test]
fn unrecognized_or_malformed_boxes_are_skipped() {
    let boxes = vec![
        RawBox { title: Some("other".to_string()), amount: Some("1/2".to_string()) },
        RawBox { title: None, amount: Some("1/2".to_string()) },
        RawBox { title: Some(LABEL_DATA.to_string()), amount: None },
        // No fraction marker: the data field stays absent.
        RawBox { title: Some(LABEL_DATA.to_string()), amount: Some("3.5GB".to_string()) },
        // Unparsable used side: skipped as well.
        RawBox { title: Some(LABEL_CALL.to_string()), amount: Some("1/x".to_string()) },
    ];
    let u = usage_from_boxes(&boxes);
    assert!(u.mobile_data_used.is_none());
    assert_eq!(u.call_used, None);
    assert_eq!(u.sms_used, None);
}

#[test]
fn later_box_of_same_category_overwrites() {
    let a1 = format!("1GB/2GB {}", WORD_USED);
    let a2 = format!("1GB/7GB {}", WORD_USED);
    let boxes = vec![
        RawBox { title: Some(LABEL_DATA.to_string()), amount: Some(a1) },
        RawBox { title: Some(LABEL_DATA.to_string()), amount: Some(a2) },
    ];
    let u = usage_from_boxes(&boxes);
    assert_eq!(u.mobile_data_used.unwrap().whole, 7);
}

#[test]
fn extract_usage_reads_boxes_from_html() {
    let html = format!(
        "<html><body>\
         <section class=\"box-usage-wrap\">\
           <strong class=\"usage-title\">{}</strong>\
           <div class=\"usage-amount\">3.5GB/10GB {}</div>\
         </section>\
         <section class=\"box-usage-wrap\">\
           <strong class=\"usage-title\">{}</strong>\
           <div class=\"usage-amount\">100{}/250{} {}</div>\
         </section>\
         </body></html>",
        LABEL_DATA, WORD_USED, LABEL_CALL, UNIT_CALL, UNIT_CALL, WORD_REMAINING
    );
    let u = extract_usage(&html).unwrap();
    let d = u.mobile_data_used.unwrap();
    assert_eq!(d.whole, 10);
    assert!(d.frac.is_empty());
    assert_eq!(u.call_used, Some(250));
    assert_eq!(u.sms_used, None);
}

#[test]
fn extract_usage_is_defined_on_documents_without_boxes() {
    let u = extract_usage("<html><body><p>nothing here</p></body></html>").unwrap();
    assert!(u.mobile_data_used.is_none());
    assert_eq!(u.call_used, None);
    assert_eq!(u.sms_used, None);

    let u = extract_usage("").unwrap();
    assert!(u.mobile_data_used.is_none());
}

#[test]
fn extract_bill_reads_nested_amount() {
    let html = format!(
        "<html><body><div class=\"info-area\"><div class=\"detail\">12,345{}</div></div></body></html>",
        UNIT_KRW
    );
    let b = extract_bill(&html).unwrap();
    assert_eq!(b.usage, Some(12345));
}

#[test]
fn extract_bill_fails_without_the_nesting() {
    let r = extract_bill("<html><body><div class=\"detail\">12,345</div></body></html>");
    assert!(matches!(r, Err(ClientError::BillFetchError)));

    let r = extract_bill(&format!(
        "<html><body><div class=\"info-area\">12,345{}</div></body></html>",
        UNIT_KRW
    ));
    assert!(matches!(r, Err(ClientError::BillFetchError)));
}

#[test]
fn extract_bill_fails_on_unparsable_amount() {
    let r = extract_bill("<html><body><div class=\"info-area\"><div class=\"detail\">n/a</div></div></body></html>");
    assert!(matches!(r, Err(ClientError::BillFetchError)));
}

#[test]
fn bill_from_detail_normalizes_the_fragment() {
    let b = bill_from_detail(Some(format!(" 15,000{} ", UNIT_KRW))).unwrap();
    assert_eq!(b.usage, Some(15000));
    assert!(matches!(bill_from_detail(None), Err(ClientError::BillFetchError)));
    assert!(matches!(
        bill_from_detail(Some("garbled".to_string())),
        Err(ClientError::BillFetchError)
    ));
}

#[test]
fn login_outcome_accepts_only_http_200() {
    assert!(login_outcome(200).is_ok());
    assert!(matches!(login_outcome(302), Err(ClientError::LoginError)));
    assert!(matches!(login_outcome(500), Err(ClientError::LoginError)));
}

#[test]
fn fetch_outcome_accepts_only_http_200() {
    assert!(fetch_outcome(200, ClientError::UsageFetchError).is_ok());
    assert!(matches!(
        fetch_outcome(404, ClientError::UsageFetchError),
        Err(ClientError::UsageFetchError)
    ));
    assert!(matches!(
        fetch_outcome(500, ClientError::BillFetchError),
        Err(ClientError::BillFetchError)
    ));
}

#[test]
fn client_error_messages() {
    assert_eq!(ClientError::LoginError.message(), "login failed");
    assert_eq!(ClientError::UsageFetchError.message(), "usage fetch error");
    assert_eq!(ClientError::BillFetchError.message(), "bill fetch error");
}
