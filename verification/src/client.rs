//! Page extractors for the portal's usage and bill pages, and the client's
//! error taxonomy. Structural HTML navigation is delegated to the `scraper`
//! crate behind trusted wrappers; everything the wrappers hand back is
//! normalized and classified by verified code.

use vstd::prelude::*;
use vstd::string::StrSliceExecFns;

use crate::text::{
    contains, contains_spec, remove_all, remove_all_spec, used_amount, used_amount_spec,
    used_count, used_count_spec, parse_count_spec, trim, trim_spec, DataAmount, DataAmountV,
};

verus! {

/// A failed portal interaction: the login handshake, the usage-page fetch
/// cycle, or the bill-page fetch cycle.
#[derive(PartialEq, Eq, Structural, Clone, Copy, Debug)]
pub enum ClientError {
    LoginError,
    UsageFetchError,
    BillFetchError,
}

impl ClientError {
    /// Short description of the error, as the exporter logs it.
    pub fn message(&self) -> (r: &'static str)
        ensures
            *self is LoginError ==> r@ == "login failed"@,
            *self is UsageFetchError ==> r@ == "usage fetch error"@,
            *self is BillFetchError ==> r@ == "bill fetch error"@,
    {
        match self {
            ClientError::LoginError => "login failed",
            ClientError::UsageFetchError => "usage fetch error",
            ClientError::BillFetchError => "bill fetch error",
        }
    }
}

/// Last observed usage figures; each field is independently optional because
/// extraction is best effort per metric, and an absent field means "not
/// found this cycle", never zero.
pub struct Usage {
    pub mobile_data_used: Option<DataAmount>,
    pub call_used: Option<isize>,
    pub sms_used: Option<isize>,
}

/// Mathematical value of a `Usage` snapshot.
pub ghost struct UsageV {
    pub mobile_data_used: Option<DataAmountV>,
    pub call_used: Option<int>,
    pub sms_used: Option<int>,
}

impl View for Usage {
    type V = UsageV;

    open spec fn view(&self) -> UsageV {
        UsageV {
            mobile_data_used: match self.mobile_data_used {
                Some(d) => Some(d@),
                None => None,
            },
            call_used: match self.call_used {
                Some(v) => Some(v as int),
                None => None,
            },
            sms_used: match self.sms_used {
                Some(v) => Some(v as int),
                None => None,
            },
        }
    }
}

/// The all-absent usage snapshot.
pub open spec fn usage_absent() -> UsageV {
    UsageV { mobile_data_used: None, call_used: None, sms_used: None }
}

impl Default for Usage {
    /// All fields absent.
    fn default() -> (r: Usage)
        ensures
            r@ == usage_absent(),
    {
        Usage { mobile_data_used: None, call_used: None, sms_used: None }
    }
}

/// Last observed billed amount, in currency units; absent until a bill page
/// has been extracted.
pub struct Bill {
    pub usage: Option<isize>,
}

/// Mathematical value of a `Bill` snapshot.
pub ghost struct BillV {
    pub usage: Option<int>,
}

impl View for Bill {
    type V = BillV;

    open spec fn view(&self) -> BillV {
        BillV {
            usage: match self.usage {
                Some(v) => Some(v as int),
                None => None,
            },
        }
    }
}

/// The absent bill snapshot.
pub open spec fn bill_absent() -> BillV {
    BillV { usage: None }
}

impl Default for Bill {
    /// Amount absent.
    fn default() -> (r: Bill)
        ensures
            r@ == bill_absent(),
    {
        Bill { usage: None }
    }
}

/// One usage box as found on the page: the concatenated text of its title
/// element and of its amount element, either possibly missing.
pub struct RawBox {
    pub title: Option<String>,
    pub amount: Option<String>,
}

impl View for RawBox {
    type V = (Option<Seq<char>>, Option<Seq<char>>);

    open spec fn view(&self) -> (Option<Seq<char>>, Option<Seq<char>>) {
        (
            match self.title {
                Some(ref t) => Some(t@),
                None => None,
            },
            match self.amount {
                Some(ref a) => Some(a@),
                None => None,
            },
        )
    }
}

/// The status word for "remaining" that decorates amount fragments.
pub open spec fn word_remaining() -> Seq<char> {
    seq!['\u{b0a8}', '\u{c74c}']
}

/// The status word for "used" that decorates amount fragments.
pub open spec fn word_used() -> Seq<char> {
    seq!['\u{c0ac}', '\u{c6a9}']
}

/// The category label of the mobile-data box.
pub open spec fn label_data() -> Seq<char> {
    seq!['\u{b370}', '\u{c774}', '\u{d130}']
}

/// The category label of the voice-call box.
pub open spec fn label_call() -> Seq<char> {
    seq!['\u{c74c}', '\u{c131}', '\u{d1b5}', '\u{d654}']
}

/// The category label of the message box.
pub open spec fn label_sms() -> Seq<char> {
    seq!['\u{ba54}', '\u{c2dc}', '\u{c9c0}']
}

/// Unit suffix of the mobile-data amount.
pub open spec fn unit_data() -> Seq<char> {
    seq!['G', 'B']
}

/// Unit suffix of the call-minutes amount.
pub open spec fn unit_call() -> Seq<char> {
    seq!['\u{bd84}']
}

/// Unit suffix of the message-count amount.
pub open spec fn unit_sms() -> Seq<char> {
    seq!['\u{ac74}']
}

/// Currency suffix of the billed amount.
pub open spec fn unit_krw() -> Seq<char> {
    seq!['\u{c6d0}']
}

fn word_remaining_vec() -> (r: Vec<char>)
    ensures
        r@ == word_remaining(),
{
    let mut v: Vec<char> = Vec::new();
    v.push('\u{b0a8}');
    v.push('\u{c74c}');
    proof {
        assert(v@ =~= word_remaining());
    }
    v
}

fn word_used_vec() -> (r: Vec<char>)
    ensures
        r@ == word_used(),
{
    let mut v: Vec<char> = Vec::new();
    v.push('\u{c0ac}');
    v.push('\u{c6a9}');
    proof {
        assert(v@ =~= word_used());
    }
    v
}

fn label_data_vec() -> (r: Vec<char>)
    ensures
        r@ == label_data(),
{
    let mut v: Vec<char> = Vec::new();
    v.push('\u{b370}');
    v.push('\u{c774}');
    v.push('\u{d130}');
    proof {
        assert(v@ =~= label_data());
    }
    v
}

fn label_call_vec() -> (r: Vec<char>)
    ensures
        r@ == label_call(),
{
    let mut v: Vec<char> = Vec::new();
    v.push('\u{c74c}');
    v.push('\u{c131}');
    v.push('\u{d1b5}');
    v.push('\u{d654}');
    proof {
        assert(v@ =~= label_call());
    }
    v
}

fn label_sms_vec() -> (r: Vec<char>)
    ensures
        r@ == label_sms(),
{
    let mut v: Vec<char> = Vec::new();
    v.push('\u{ba54}');
    v.push('\u{c2dc}');
    v.push('\u{c9c0}');
    proof {
        assert(v@ =~= label_sms());
    }
    v
}

fn unit_data_vec() -> (r: Vec<char>)
    ensures
        r@ == unit_data(),
{
    let mut v: Vec<char> = Vec::new();
    v.push('G');
    v.push('B');
    proof {
        assert(v@ =~= unit_data());
    }
    v
}

fn unit_call_vec() -> (r: Vec<char>)
    ensures
        r@ == unit_call(),
{
    let mut v: Vec<char> = Vec::new();
    v.push('\u{bd84}');
    proof {
        assert(v@ =~= unit_call());
    }
    v
}

fn unit_sms_vec() -> (r: Vec<char>)
    ensures
        r@ == unit_sms(),
{
    let mut v: Vec<char> = Vec::new();
    v.push('\u{ac74}');
    proof {
        assert(v@ =~= unit_sms());
    }
    v
}

fn unit_krw_vec() -> (r: Vec<char>)
    ensures
        r@ == unit_krw(),
{
    let mut v: Vec<char> = Vec::new();
    v.push('\u{c6d0}');
    proof {
        assert(v@ =~= unit_krw());
    }
    v
}

/// The characters of `s`, one by one.
pub fn chars_of(s: &str) -> (r: Vec<char>)
    ensures
        r@ == s@,
{
    let n = s.unicode_len();
    let mut out: Vec<char> = Vec::new();
    let mut i: usize = 0;
    while i < n
        invariant
            n == s@.len(),
            i <= n,
            out@ == s@.take(i as int),
        decreases n - i,
    {
        let c = s.get_char(i);
        out.push(c);
        proof {
            assert(s@.take(i as int + 1) =~= s@.take(i as int).push(s@[i as int]));
        }
        i += 1;
    }
    proof {
        assert(s@.take(n as int) =~= s@);
    }
    out
}

/// For each usage box of a portal usage page, in document order, the text of
/// its title and of its amount fragment, either possibly absent.
pub uninterp spec fn usage_boxes_of(html: Seq<char>) -> Seq<(Option<Seq<char>>, Option<Seq<char>>)>;

/// The concatenated text of the designated bill detail element of a portal
/// bill page: the first `div.detail` inside the first `div.info-area`, or
/// `None` when either structural element is absent.
pub uninterp spec fn bill_detail_of(html: Seq<char>) -> Option<Seq<char>>;

/// Relies on scraper's `Html::parse_document`, `Selector::parse`,
/// `select` and `ElementRef::text`: hands back, for each
/// `section.box-usage-wrap` element of the document in document order, the
/// concatenated text of its first `strong.usage-title` descendant and of its
/// first `div.usage-amount` descendant. `Html::parse_document` recovers from
/// any input, and the selectors are fixed valid literals, so
/// `Selector::parse` cannot fail.
#[verifier::external_body]
fn usage_boxes(html: &str) -> (r: Vec<RawBox>)
    ensures
        r@.len() == usage_boxes_of(html@).len(),
        forall|i: int| 0 <= i < r@.len() ==> (#[trigger] r@[i])@ == usage_boxes_of(html@)[i],
{
    let doc = scraper::Html::parse_document(html);
    let box_sel = scraper::Selector::parse("section.box-usage-wrap").unwrap();
    let title_sel = scraper::Selector::parse("strong.usage-title").unwrap();
    let amount_sel = scraper::Selector::parse("div.usage-amount").unwrap();
    doc.select(&box_sel)
        .map(|b| RawBox {
            title: b.select(&title_sel).next().map(|t| t.text().collect()),
            amount: b.select(&amount_sel).next().map(|a| a.text().collect()),
        })
        .collect()
}

/// Relies on scraper's `Html::parse_document`, `Selector::parse`, `select`
/// and `ElementRef::text`: hands back the concatenated text of the first
/// `div.detail` descendant of the first `div.info-area` element, or `None`
/// when either is absent. `Html::parse_document` recovers from any input,
/// and the selectors are fixed valid literals, so `Selector::parse` cannot
/// fail.
#[verifier::external_body]
fn bill_detail(html: &str) -> (r: Option<String>)
    ensures
        match r {
            Some(t) => bill_detail_of(html@) == Some(t@),
            None => bill_detail_of(html@) is None,
        },
{
    let doc = scraper::Html::parse_document(html);
    let area_sel = scraper::Selector::parse("div.info-area").unwrap();
    let detail_sel = scraper::Selector::parse("div.detail").unwrap();
    doc.select(&area_sel)
        .next()
        .and_then(|area| area.select(&detail_sel).next())
        .map(|d| d.text().collect())
}

/// An amount fragment with the shared status words removed.
pub open spec fn strip_status(t: Seq<char>) -> Seq<char> {
    remove_all_spec(remove_all_spec(t, word_remaining()), word_used())
}

/// How one usage box changes the snapshot built so far: a box without a
/// title or amount fragment, with an unrecognized title, or whose amount
/// cannot be normalized is skipped; otherwise the used side of its amount
/// is parsed and assigned to the field its title names.
pub open spec fn apply_box(acc: UsageV, b: (Option<Seq<char>>, Option<Seq<char>>)) -> UsageV {
    match b {
        (Some(title), Some(amount)) => {
            let cleaned = strip_status(amount);
            if contains_spec(title, label_data()) {
                match used_amount_spec(remove_all_spec(cleaned, unit_data())) {
                    Ok(d) => UsageV { mobile_data_used: Some(d), ..acc },
                    Err(_) => acc,
                }
            } else if contains_spec(title, label_call()) {
                match used_count_spec(remove_all_spec(cleaned, unit_call())) {
                    Ok(v) => UsageV { call_used: Some(v), ..acc },
                    Err(_) => acc,
                }
            } else if contains_spec(title, label_sms()) {
                match used_count_spec(remove_all_spec(cleaned, unit_sms())) {
                    Ok(v) => UsageV { sms_used: Some(v), ..acc },
                    Err(_) => acc,
                }
            } else {
                acc
            }
        },
        _ => acc,
    }
}

/// The usage snapshot that a sequence of boxes yields, applied in document
/// order starting from the all-absent snapshot.
pub open spec fn usage_from_boxes_spec(boxes: Seq<(Option<Seq<char>>, Option<Seq<char>>)>) -> UsageV
    decreases boxes.len(),
{
    if boxes.len() == 0 {
        usage_absent()
    } else {
        apply_box(usage_from_boxes_spec(boxes.drop_last()), boxes.last())
    }
}

/// Classifies each box by its title label, normalizes its amount fragment,
/// and assembles the usage snapshot; unrecognized or malformed boxes are
/// skipped, never fatal.
pub fn usage_from_boxes(boxes: &Vec<RawBox>) -> (u: Usage)
    ensures
        u@ == usage_from_boxes_spec(boxes@.map_values(|b: RawBox| b@)),
{
    let ghost bseq = boxes@.map_values(|b: RawBox| b@);
    let mut u = Usage::default();
    let mut i: usize = 0;
    proof {
        assert(bseq.take(0) =~= Seq::<(Option<Seq<char>>, Option<Seq<char>>)>::empty());
    }
    while i < boxes.len()
        invariant
            i <= boxes.len(),
            bseq == boxes@.map_values(|b: RawBox| b@),
            u@ == usage_from_boxes_spec(bseq.take(i as int)),
        decreases boxes.len() - i,
    {
        proof {
            assert(bseq.take(i as int + 1).drop_last() =~= bseq.take(i as int));
            assert(bseq.take(i as int + 1).last() == bseq[i as int]);
            assert(bseq[i as int] == boxes@[i as int]@);
        }
        let b = &boxes[i];
        if b.title.is_some() && b.amount.is_some() {
            let title = chars_of(b.title.as_ref().unwrap().as_str());
            let amount = chars_of(b.amount.as_ref().unwrap().as_str());
            let cleaned = remove_all(&remove_all(&amount, &word_remaining_vec()), &word_used_vec());
            if contains(&title, &label_data_vec()) {
                match used_amount(&remove_all(&cleaned, &unit_data_vec())) {
                    Ok(d) => {
                        u.mobile_data_used = Some(d);
                    },
                    Err(_) => {},
                }
            } else if contains(&title, &label_call_vec()) {
                match used_count(&remove_all(&cleaned, &unit_call_vec())) {
                    Ok(v) => {
                        u.call_used = Some(v);
                    },
                    Err(_) => {},
                }
            } else if contains(&title, &label_sms_vec()) {
                match used_count(&remove_all(&cleaned, &unit_sms_vec())) {
                    Ok(v) => {
                        u.sms_used = Some(v);
                    },
                    Err(_) => {},
                }
            }
        }
        i += 1;
    }
    proof {
        assert(bseq.take(i as int) =~= bseq);
    }
    u
}

/// The usage snapshot that a whole usage page yields.
pub open spec fn extract_usage_spec(html: Seq<char>) -> UsageV {
    usage_from_boxes_spec(usage_boxes_of(html))
}

/// Extracts the usage snapshot from a usage page. Extraction is best effort
/// per metric and the document parse recovers from any input, so the result
/// is always `Ok` — at least an all-absent snapshot.
pub fn extract_usage(html: &str) -> (r: Result<Usage, ClientError>)
    ensures
        r is Ok,
        match r {
            Ok(u) => u@ == extract_usage_spec(html@),
            Err(_) => true,
        },
{
    let boxes = usage_boxes(html);
    proof {
        assert(boxes@.map_values(|b: RawBox| b@) =~= usage_boxes_of(html@));
    }
    Ok(usage_from_boxes(&boxes))
}

/// The billed amount denoted by a bill detail fragment: currency suffix and
/// thousands separators removed, trimmed, read as a signed count.
pub open spec fn parse_bill_text_spec(t: Seq<char>) -> Option<int> {
    parse_count_spec(trim_spec(remove_all_spec(remove_all_spec(t, unit_krw()), seq![','])))
}

/// The bill snapshot that a located detail fragment yields: the one
/// required value, so any failure to locate or parse is total.
pub open spec fn bill_from_detail_spec(d: Option<Seq<char>>) -> Result<BillV, ClientError> {
    match d {
        None => Err(ClientError::BillFetchError),
        Some(t) => match parse_bill_text_spec(t) {
            Some(v) => Ok(BillV { usage: Some(v) }),
            None => Err(ClientError::BillFetchError),
        },
    }
}

/// View of an optional owned text fragment.
pub open spec fn opt_text_view(d: Option<String>) -> Option<Seq<char>> {
    match d {
        Some(t) => Some(t@),
        None => None,
    }
}

/// Normalizes and parses the bill detail fragment, when one was located.
pub fn bill_from_detail(detail: Option<String>) -> (r: Result<Bill, ClientError>)
    ensures
        match r {
            Ok(b) => bill_from_detail_spec(opt_text_view(detail)) == Ok::<BillV, ClientError>(b@),
            Err(e) => bill_from_detail_spec(opt_text_view(detail)) == Err::<BillV, ClientError>(e),
        },
{
    match detail {
        None => Err(ClientError::BillFetchError),
        Some(t) => {
            let chars = chars_of(t.as_str());
            let mut comma: Vec<char> = Vec::new();
            comma.push(',');
            proof {
                assert(comma@ =~= seq![',']);
            }
            let cleaned = remove_all(&remove_all(&chars, &unit_krw_vec()), &comma);
            let trimmed = trim(&cleaned);
            match crate::text::parse_count(&trimmed) {
                Some(v) => Ok(Bill { usage: Some(v) }),
                None => Err(ClientError::BillFetchError),
            }
        },
    }
}

/// The bill snapshot that a whole bill page yields, or the error when its
/// structural elements are absent or its value malformed.
pub open spec fn extract_bill_spec(html: Seq<char>) -> Result<BillV, ClientError> {
    bill_from_detail_spec(bill_detail_of(html))
}

/// Extracts the billed amount from a bill page: locates the designated info
/// section's detail element and parses its text; unlike usage extraction,
/// any failure here is total.
pub fn extract_bill(html: &str) -> (r: Result<Bill, ClientError>)
    ensures
        match r {
            Ok(b) => extract_bill_spec(html@) == Ok::<BillV, ClientError>(b@),
            Err(e) => extract_bill_spec(html@) == Err::<BillV, ClientError>(e),
        },
{
    bill_from_detail(bill_detail(html))
}

/// An authenticated page fetch's decision: an HTTP 200 response hands the
/// body on to extraction; any other status is the page's fetch error.
pub fn fetch_outcome(status: u16, err: ClientError) -> (r: Result<(), ClientError>)
    ensures
        r is Ok <==> status == 200,
        r is Err ==> r == Err::<(), ClientError>(err),
{
    if status == 200 {
        Ok(())
    } else {
        Err(err)
    }
}

/// The login handshake's decision: an HTTP 200 response is a login success;
/// any other status is a `LoginError`.
pub fn login_outcome(status: u16) -> (r: Result<(), ClientError>)
    ensures
        r is Ok <==> status == 200,
        r is Err ==> r == Err::<(), ClientError>(ClientError::LoginError),
{
    if status == 200 {
        Ok(())
    } else {
        Err(ClientError::LoginError)
    }
}

} // verus!
