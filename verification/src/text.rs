//! Text normalizer: strips decorative substrings from portal text fragments,
//! splits a "remaining/used" fraction at its marker, trims whitespace, and
//! parses the remaining digits as an integer count or a decimal amount.

use vstd::prelude::*;

verus! {

/// Whitespace recognized by the normalizer's trimming: the ASCII blank,
/// tab, newline and carriage-return characters that portal markup produces
/// around text nodes.
pub open spec fn is_space(c: char) -> bool {
    c == ' ' || c == '\t' || c == '\n' || c == '\r'
}

/// Decimal digit.
pub open spec fn is_digit(c: char) -> bool {
    '0' <= c && c <= '9'
}

/// Numeric value of a decimal digit character.
pub open spec fn digit_val(c: char) -> int {
    c as int - '0' as int
}

/// Every character of `s` is a decimal digit.
pub open spec fn all_digits(s: Seq<char>) -> bool {
    forall|i: int| 0 <= i < s.len() ==> is_digit(#[trigger] s[i])
}

/// Value of a digit string read in base ten; the empty string reads as zero.
pub open spec fn digits_val(s: Seq<char>) -> int
    decreases s.len(),
{
    if s.len() == 0 {
        0
    } else {
        digits_val(s.take(s.len() - 1)) * 10 + digit_val(s[s.len() - 1])
    }
}

/// `s` with every occurrence of `pat` removed, scanning left to right and
/// never re-scanning removed material: the result of replacing `pat` with
/// the empty string.
pub open spec fn remove_all_spec(s: Seq<char>, pat: Seq<char>) -> Seq<char>
    recommends
        pat.len() >= 1,
    decreases s.len(),
{
    if pat.len() == 0 || s.len() < pat.len() {
        s
    } else if s.subrange(0, pat.len() as int) == pat {
        remove_all_spec(s.skip(pat.len() as int), pat)
    } else {
        seq![s[0]] + remove_all_spec(s.skip(1), pat)
    }
}

/// Whether `pat` occurs in `s` starting at position `i`.
fn matches_at(s: &Vec<char>, pat: &Vec<char>, i: usize) -> (r: bool)
    requires
        i + pat.len() <= s.len(),
    ensures
        r == (s@.subrange(i as int, i as int + pat.len() as int) == pat@),
{
    let ghost sub = s@.subrange(i as int, i as int + pat.len() as int);
    let mut j: usize = 0;
    while j < pat.len()
        invariant
            i + pat.len() <= s.len(),
            j <= pat.len(),
            sub == s@.subrange(i as int, i as int + pat.len() as int),
            forall|k: int| 0 <= k < j ==> sub[k] == pat@[k],
        decreases pat.len() - j,
    {
        if s[i + j] != pat[j] {
            proof {
                assert(sub[j as int] == s@[i + j]);
                assert(sub != pat@);
            }
            return false;
        }
        j += 1;
    }
    proof {
        assert(sub =~= pat@);
    }
    true
}

/// Removes every occurrence of `pat` from `s`, left to right without
/// re-scanning, as replacing `pat` by the empty string does.
pub fn remove_all(s: &Vec<char>, pat: &Vec<char>) -> (r: Vec<char>)
    requires
        pat.len() >= 1,
    ensures
        r@ == remove_all_spec(s@, pat@),
{
    let mut out: Vec<char> = Vec::new();
    let mut i: usize = 0;
    proof {
        assert(s@.skip(0) =~= s@);
        assert(out@ + remove_all_spec(s@, pat@) =~= remove_all_spec(s@, pat@));
    }
    while i < s.len()
        invariant
            pat.len() >= 1,
            i <= s.len(),
            remove_all_spec(s@, pat@) == out@ + remove_all_spec(s@.skip(i as int), pat@),
        decreases s.len() - i,
    {
        let ghost pre = s@.skip(i as int);
        proof {
            if i + pat.len() <= s.len() {
                assert(pre.subrange(0, pat.len() as int) =~= s@.subrange(
                    i as int,
                    i as int + pat.len() as int,
                ));
            }
        }
        if pat.len() <= s.len() - i && matches_at(s, pat, i) {
            proof {
                assert(pre.skip(pat.len() as int) =~= s@.skip(i as int + pat.len() as int));
            }
            i += pat.len();
        } else {
            proof {
                assert(pre[0] == s@[i as int]);
                assert(pre.skip(1) =~= s@.skip(i as int + 1));
                if i + pat.len() <= s.len() {
                    assert(remove_all_spec(pre, pat@) == seq![s@[i as int]] + remove_all_spec(
                        s@.skip(i as int + 1),
                        pat@,
                    ));
                } else {
                    assert(pre.len() < pat.len());
                    assert(s@.skip(i as int + 1).len() < pat.len());
                    assert(remove_all_spec(pre, pat@) == pre);
                    assert(pre =~= seq![s@[i as int]] + s@.skip(i as int + 1));
                }
                assert(out@.push(s@[i as int]) + remove_all_spec(s@.skip(i as int + 1), pat@)
                    =~= out@ + (seq![s@[i as int]] + remove_all_spec(
                    s@.skip(i as int + 1),
                    pat@,
                )));
            }
            out.push(s[i]);
            i += 1;
        }
    }
    proof {
        assert(s@.skip(i as int) =~= Seq::<char>::empty());
        assert(remove_all_spec(Seq::<char>::empty(), pat@) =~= Seq::<char>::empty());
        assert(out@ + Seq::<char>::empty() =~= out@);
    }
    out
}

/// `needle` occurs contiguously somewhere in `hay`.
pub open spec fn contains_spec(hay: Seq<char>, needle: Seq<char>) -> bool {
    exists|i: int|
        0 <= i && i + needle.len() <= hay.len() && #[trigger] hay.subrange(i, i + needle.len())
            == needle
}

/// Substring search: whether `needle` occurs in `hay`.
pub fn contains(hay: &Vec<char>, needle: &Vec<char>) -> (r: bool)
    ensures
        r == contains_spec(hay@, needle@),
{
    if needle.len() > hay.len() {
        return false;
    }
    if needle.len() == 0 {
        proof {
            assert(hay@.subrange(0, 0 + needle@.len() as int) =~= needle@);
        }
        return true;
    }
    let last = hay.len() - needle.len();
    let mut i: usize = 0;
    while i <= last
        invariant
            1 <= needle.len(),
            needle.len() + last == hay.len(),
            i <= last + 1,
            forall|k: int| 0 <= k < i ==> #[trigger] hay@.subrange(k, k + needle@.len())
                != needle@,
        decreases last + 1 - i,
    {
        if matches_at(hay, needle, i) {
            return true;
        }
        i += 1;
    }
    false
}

/// `s` without its leading whitespace.
pub open spec fn trim_start_spec(s: Seq<char>) -> Seq<char>
    decreases s.len(),
{
    if s.len() > 0 && is_space(s[0]) {
        trim_start_spec(s.skip(1))
    } else {
        s
    }
}

/// `s` without its trailing whitespace.
pub open spec fn trim_end_spec(s: Seq<char>) -> Seq<char>
    decreases s.len(),
{
    if s.len() > 0 && is_space(s[s.len() - 1]) {
        trim_end_spec(s.take(s.len() - 1))
    } else {
        s
    }
}

/// `s` without leading and trailing whitespace.
pub open spec fn trim_spec(s: Seq<char>) -> Seq<char> {
    trim_end_spec(trim_start_spec(s))
}

fn space_char(c: char) -> (r: bool)
    ensures
        r == is_space(c),
{
    c == ' ' || c == '\t' || c == '\n' || c == '\r'
}

fn digit_char(c: char) -> (r: bool)
    ensures
        r == is_digit(c),
{
    '0' <= c && c <= '9'
}

/// Removes leading and trailing whitespace.
pub fn trim(s: &Vec<char>) -> (r: Vec<char>)
    ensures
        r@ == trim_spec(s@),
{
    let mut a: usize = 0;
    proof {
        assert(s@.skip(0) =~= s@);
    }
    while a < s.len() && space_char(s[a])
        invariant
            a <= s.len(),
            trim_start_spec(s@) == trim_start_spec(s@.skip(a as int)),
        decreases s.len() - a,
    {
        proof {
            assert(s@.skip(a as int)[0] == s@[a as int]);
            assert(s@.skip(a as int).skip(1) =~= s@.skip(a as int + 1));
        }
        a += 1;
    }
    proof {
        assert(trim_start_spec(s@.skip(a as int)) == s@.skip(a as int));
        assert(s@.subrange(a as int, s@.len() as int) =~= s@.skip(a as int));
    }
    let mut b: usize = s.len();
    while b > a && space_char(s[b - 1])
        invariant
            a <= b <= s.len(),
            trim_end_spec(s@.skip(a as int)) == trim_end_spec(s@.subrange(a as int, b as int)),
        decreases b,
    {
        proof {
            let cur = s@.subrange(a as int, b as int);
            assert(cur[cur.len() - 1] == s@[b as int - 1]);
            assert(cur.take(cur.len() - 1) =~= s@.subrange(a as int, b as int - 1));
        }
        b -= 1;
    }
    proof {
        assert(trim_end_spec(s@.subrange(a as int, b as int)) == s@.subrange(a as int, b as int));
    }
    let mut out: Vec<char> = Vec::new();
    let mut i: usize = a;
    while i < b
        invariant
            a <= i <= b <= s.len(),
            out@ == s@.subrange(a as int, i as int),
        decreases b - i,
    {
        out.push(s[i]);
        proof {
            assert(s@.subrange(a as int, i as int).push(s@[i as int]) =~= s@.subrange(
                a as int,
                i as int + 1,
            ));
        }
        i += 1;
    }
    out
}

/// The part of `s` after the first fraction marker `/`, or `None` when the
/// marker does not occur: the portal writes "remaining/used", and only the
/// used side is retained.
pub open spec fn split_used_spec(s: Seq<char>) -> Option<Seq<char>>
    decreases s.len(),
{
    if s.len() == 0 {
        None
    } else if s[0] == '/' {
        Some(s.skip(1))
    } else {
        split_used_spec(s.skip(1))
    }
}

/// Splits at the first `/` and keeps what follows it; `None` when `s` holds
/// no fraction marker.
pub fn split_used(s: &Vec<char>) -> (r: Option<Vec<char>>)
    ensures
        match r {
            Some(v) => split_used_spec(s@) == Some(v@),
            None => split_used_spec(s@) is None,
        },
{
    let mut i: usize = 0;
    proof {
        assert(s@.skip(0) =~= s@);
    }
    while i < s.len()
        invariant
            i <= s.len(),
            split_used_spec(s@) == split_used_spec(s@.skip(i as int)),
        decreases s.len() - i,
    {
        proof {
            assert(s@.skip(i as int)[0] == s@[i as int]);
            assert(s@.skip(i as int).skip(1) =~= s@.skip(i as int + 1));
        }
        if s[i] == '/' {
            let mut out: Vec<char> = Vec::new();
            let mut j: usize = i + 1;
            while j < s.len()
                invariant
                    i + 1 <= j <= s.len(),
                    out@ == s@.subrange(i as int + 1, j as int),
                decreases s.len() - j,
            {
                out.push(s[j]);
                proof {
                    assert(s@.subrange(i as int + 1, j as int).push(s@[j as int]) =~= s@.subrange(
                        i as int + 1,
                        j as int + 1,
                    ));
                }
                j += 1;
            }
            proof {
                assert(out@ =~= s@.skip(i as int).skip(1));
            }
            return Some(out);
        }
        i += 1;
    }
    None
}

/// The integer denoted by `s`: an optional `+` or `-` sign followed by at
/// least one decimal digit; `None` when `s` is not of that shape.
pub open spec fn parse_int_spec(s: Seq<char>) -> Option<int> {
    let body = if s.len() > 0 && (s[0] == '+' || s[0] == '-') {
        s.skip(1)
    } else {
        s
    };
    if body.len() > 0 && all_digits(body) {
        if s.len() > 0 && s[0] == '-' {
            Some(-digits_val(body))
        } else {
            Some(digits_val(body))
        }
    } else {
        None
    }
}

/// The integer denoted by `s` when it fits a machine count; `None` when `s`
/// is not a signed digit string or its value falls outside `isize`.
pub open spec fn parse_count_spec(s: Seq<char>) -> Option<int> {
    match parse_int_spec(s) {
        Some(v) => if isize::MIN <= v <= isize::MAX {
            Some(v)
        } else {
            None
        },
        None => None,
    }
}

proof fn lemma_digits_val_nonneg(s: Seq<char>)
    requires
        all_digits(s),
    ensures
        digits_val(s) >= 0,
    decreases s.len(),
{
    if s.len() > 0 {
        assert(all_digits(s.take(s.len() - 1)));
        lemma_digits_val_nonneg(s.take(s.len() - 1));
    }
}

proof fn lemma_digits_val_prefix(s: Seq<char>, i: int)
    requires
        all_digits(s),
        0 <= i <= s.len(),
    ensures
        digits_val(s.take(i)) <= digits_val(s),
    decreases s.len() - i,
{
    if i < s.len() {
        let t = s.take(i + 1);
        assert(all_digits(t));
        assert(t.take(i) =~= s.take(i));
        assert(all_digits(s.take(i)));
        lemma_digits_val_nonneg(s.take(i));
        assert(digits_val(t) == digits_val(s.take(i)) * 10 + digit_val(s[i]));
        lemma_digits_val_prefix(s, i + 1);
    } else {
        assert(s.take(i) =~= s);
    }
}

/// Parses a whole count (an optional sign and digits) as an `isize`; `None`
/// when the text is not a signed digit string or does not fit.
pub fn parse_count(s: &Vec<char>) -> (r: Option<isize>)
    ensures
        match r {
            Some(v) => parse_count_spec(s@) == Some(v as int),
            None => parse_count_spec(s@) is None,
        },
{
    let signed = s.len() > 0 && (s[0] == '+' || s[0] == '-');
    let neg = s.len() > 0 && s[0] == '-';
    let start: usize = if signed {
        1
    } else {
        0
    };
    let ghost body = s@.skip(start as int);
    proof {
        assert(s@.skip(0) =~= s@);
    }
    if start >= s.len() {
        proof {
            assert(body.len() == 0);
        }
        return None;
    }
    let mut acc: i128 = 0;
    let mut i: usize = start;
    proof {
        assert(s@.subrange(start as int, start as int) =~= Seq::<char>::empty());
    }
    while i < s.len()
        invariant
            start <= i <= s.len(),
            start < s.len(),
            body == s@.skip(start as int),
            body == (if signed {
                s@.skip(1)
            } else {
                s@
            }),
            neg == (s@.len() > 0 && s@[0] == '-'),
            signed == (s@.len() > 0 && (s@[0] == '+' || s@[0] == '-')),
            start == if signed { 1int } else { 0int },
            forall|k: int| start <= k < i ==> is_digit(#[trigger] s@[k]),
            acc == digits_val(s@.subrange(start as int, i as int)),
            0 <= acc <= isize::MAX as i128 + 1,
        decreases s.len() - i,
    {
        let c = s[i];
        if !digit_char(c) {
            proof {
                assert(body[i - start] == s@[i as int]);
                assert(!all_digits(body));
            }
            return None;
        }
        let d: i128 = (c as u32 - 48) as i128;
        proof {
            assert(d == digit_val(s@[i as int]));
            assert(s@.subrange(start as int, i as int + 1).take(i - start) =~= s@.subrange(
                start as int,
                i as int,
            ));
            assert(s@.subrange(start as int, i as int + 1).len() == i + 1 - start);
            assert(s@.subrange(start as int, i as int + 1)[i - start] == s@[i as int]);
        }
        acc = acc * 10 + d;
        i += 1;
        if acc > isize::MAX as i128 + 1 {
            proof {
                if all_digits(body) {
                    assert(body.take(i - start) =~= s@.subrange(start as int, i as int));
                    lemma_digits_val_prefix(body, i - start);
                    assert(digits_val(body) >= acc as int);
                    assert(digits_val(body) > isize::MAX as int + 1);
                    assert(-digits_val(body) < isize::MIN as int);
                    assert(parse_count_spec(s@) is None);
                } else {
                    assert(parse_int_spec(s@) is None);
                }
            }
            return None;
        }
    }
    proof {
        assert(s@.subrange(start as int, s@.len() as int) =~= body);
        assert(forall|k: int| 0 <= k < body.len() ==> body[k] == s@[k + start]);
        assert(all_digits(body));
        assert(acc == digits_val(body));
    }
    if neg {
        if acc == isize::MAX as i128 + 1 {
            Some(isize::MIN)
        } else {
            Some(-(acc as isize))
        }
    } else {
        if acc > isize::MAX as i128 {
            None
        } else {
            Some(acc as isize)
        }
    }
}

/// A non-negative decimal amount, as parsed from portal text: a whole part
/// and the fractional digits after the decimal point. Canonical form: every
/// fractional entry is a digit value below ten and the last one is not zero.
pub struct DataAmount {
    pub whole: u64,
    pub frac: Vec<u8>,
}

/// Mathematical value of a `DataAmount`.
pub ghost struct DataAmountV {
    pub whole: int,
    pub frac: Seq<u8>,
}

impl View for DataAmount {
    type V = DataAmountV;

    open spec fn view(&self) -> DataAmountV {
        DataAmountV { whole: self.whole as int, frac: self.frac@ }
    }
}

/// Fractional digits in canonical form: digit values below ten, no trailing
/// zero.
pub open spec fn wf_frac(fr: Seq<u8>) -> bool {
    &&& forall|i: int| 0 <= i < fr.len() ==> #[trigger] fr[i] < 10
    &&& fr.len() > 0 ==> fr[fr.len() - 1] != 0
}

impl DataAmount {
    /// The amount is in canonical form.
    pub open spec fn wf(&self) -> bool {
        wf_frac(self.frac@)
    }
}

/// `fr` without its trailing zero digits.
pub open spec fn strip_zeros(fr: Seq<u8>) -> Seq<u8>
    decreases fr.len(),
{
    if fr.len() > 0 && fr[fr.len() - 1] == 0 {
        strip_zeros(fr.take(fr.len() - 1))
    } else {
        fr
    }
}

/// The digit values of a digit string.
pub open spec fn frac_digit_vals(s: Seq<char>) -> Seq<u8> {
    s.map_values(|c: char| digit_val(c) as u8)
}

/// Index of the first `.` in `s`, if any.
pub open spec fn find_dot(s: Seq<char>) -> Option<int>
    decreases s.len(),
{
    if s.len() == 0 {
        None
    } else if s[0] == '.' {
        Some(0int)
    } else {
        match find_dot(s.skip(1)) {
            Some(i) => Some(i + 1),
            None => None,
        }
    }
}

/// The decimal amount denoted by `s`: digits, optionally with one decimal
/// point somewhere among them, at least one digit in all; `None` when `s` is
/// not of that shape or its whole part exceeds `u64`.
pub open spec fn parse_decimal_spec(s: Seq<char>) -> Option<DataAmountV> {
    let parts = match find_dot(s) {
        Some(i) => (s.take(i), s.skip(i + 1)),
        None => (s, Seq::<char>::empty()),
    };
    if all_digits(parts.0) && all_digits(parts.1) && parts.0.len() + parts.1.len() > 0
        && digits_val(parts.0) <= u64::MAX {
        Some(DataAmountV { whole: digits_val(parts.0), frac: strip_zeros(frac_digit_vals(parts.1)) })
    } else {
        None
    }
}

proof fn lemma_find_dot_at(s: Seq<char>, i: int)
    requires
        0 <= i < s.len(),
        s[i] == '.',
        forall|k: int| 0 <= k < i ==> s[k] != '.',
    ensures
        find_dot(s) == Some(i),
    decreases i,
{
    if i > 0 {
        assert(s.skip(1)[i - 1] == s[i]);
        assert(forall|k: int| 0 <= k < i - 1 ==> s.skip(1)[k] == s[k + 1] && s[k + 1] != '.');
        lemma_find_dot_at(s.skip(1), i - 1);
    }
}

proof fn lemma_find_dot_none(s: Seq<char>)
    requires
        forall|k: int| 0 <= k < s.len() ==> s[k] != '.',
    ensures
        find_dot(s) is None,
    decreases s.len(),
{
    if s.len() > 0 {
        assert(forall|k: int| 0 <= k < s.skip(1).len() ==> s.skip(1)[k] == s[k + 1] && s[k + 1]
            != '.');
        lemma_find_dot_none(s.skip(1));
    }
}

proof fn lemma_strip_zeros_wf(fr: Seq<u8>)
    requires
        forall|i: int| 0 <= i < fr.len() ==> #[trigger] fr[i] < 10,
    ensures
        wf_frac(strip_zeros(fr)),
    decreases fr.len(),
{
    if fr.len() > 0 && fr[fr.len() - 1] == 0 {
        assert(forall|i: int| 0 <= i < fr.len() - 1 ==> #[trigger] fr.take(fr.len() - 1)[i] == fr[i]);
        lemma_strip_zeros_wf(fr.take(fr.len() - 1));
    }
}

/// Parses the digit run `s[from..to]` as a `u64`; `None` when a character is
/// not a digit or the value does not fit.
fn parse_u64_digits(s: &Vec<char>, from: usize, to: usize) -> (r: Option<u64>)
    requires
        from <= to <= s.len(),
    ensures
        match r {
            Some(v) => all_digits(s@.subrange(from as int, to as int)) && v as int == digits_val(
                s@.subrange(from as int, to as int),
            ),
            None => !all_digits(s@.subrange(from as int, to as int)) || digits_val(
                s@.subrange(from as int, to as int),
            ) > u64::MAX,
        },
{
    let ghost whole = s@.subrange(from as int, to as int);
    let mut acc: u128 = 0;
    let mut i: usize = from;
    proof {
        assert(s@.subrange(from as int, from as int) =~= Seq::<char>::empty());
    }
    while i < to
        invariant
            from <= i <= to <= s.len(),
            whole == s@.subrange(from as int, to as int),
            forall|k: int| from <= k < i ==> is_digit(#[trigger] s@[k]),
            acc == digits_val(s@.subrange(from as int, i as int)),
            acc <= u64::MAX,
        decreases to - i,
    {
        let c = s[i];
        if !digit_char(c) {
            proof {
                assert(whole[i - from] == s@[i as int]);
            }
            return None;
        }
        let d: u128 = (c as u32 - 48) as u128;
        proof {
            assert(d == digit_val(s@[i as int]));
            assert(s@.subrange(from as int, i as int + 1).take(i - from) =~= s@.subrange(
                from as int,
                i as int,
            ));
            assert(s@.subrange(from as int, i as int + 1)[i - from] == s@[i as int]);
        }
        acc = acc * 10 + d;
        i += 1;
        if acc > u64::MAX as u128 {
            proof {
                if all_digits(whole) {
                    assert(whole.take(i - from) =~= s@.subrange(from as int, i as int));
                    lemma_digits_val_prefix(whole, i - from);
                }
            }
            return None;
        }
    }
    proof {
        assert(s@.subrange(from as int, i as int) =~= whole);
    }
    Some(acc as u64)
}

/// Parses a decimal amount (digits with at most one decimal point) into its
/// canonical form; `None` when the text is not of that shape or its whole
/// part does not fit a `u64`.
pub fn parse_decimal(s: &Vec<char>) -> (r: Option<DataAmount>)
    ensures
        match r {
            Some(d) => parse_decimal_spec(s@) == Some(d@) && d.wf(),
            None => parse_decimal_spec(s@) is None,
        },
{
    let mut dot: usize = s.len();
    let mut i: usize = 0;
    while i < s.len() && dot == s.len()
        invariant
            0 <= i <= s.len(),
            dot == s.len() ==> forall|k: int| 0 <= k < i ==> s@[k] != '.',
            dot < s.len() ==> s@[dot as int] == '.' && (forall|k: int| 0 <= k < dot ==> s@[k]
                != '.'),
            dot <= s.len(),
        decreases
                s.len() - i + (if dot == s.len() {
                    1int
                } else {
                    0int
                }),
    {
        if s[i] == '.' {
            dot = i;
        } else {
            i += 1;
        }
    }
    proof {
        if dot < s.len() {
            lemma_find_dot_at(s@, dot as int);
        } else {
            lemma_find_dot_none(s@);
        }
    }
    let ghost ip = if dot < s.len() {
        s@.take(dot as int)
    } else {
        s@
    };
    let ghost fp = if dot < s.len() {
        s@.skip(dot as int + 1)
    } else {
        Seq::<char>::empty()
    };
    proof {
        assert(s@.subrange(0, dot as int) =~= s@.take(dot as int));
        if dot == s.len() {
            assert(s@.subrange(0, dot as int) =~= s@);
        }
    }
    let whole = match parse_u64_digits(s, 0, dot) {
        Some(v) => v,
        None => {
            return None;
        },
    };
    let fstart: usize = if dot < s.len() {
        dot + 1
    } else {
        s.len()
    };
    let mut fv: Vec<u8> = Vec::new();
    let mut j: usize = fstart;
    proof {
        assert(fp.take(0) =~= Seq::<char>::empty());
        assert(frac_digit_vals(Seq::<char>::empty()) =~= Seq::<u8>::empty());
    }
    while j < s.len()
        invariant
            fstart <= j <= s.len(),
            fstart == if dot < s@.len() {
                dot + 1
            } else {
                s@.len() as int
            },
            dot <= s@.len(),
            fp == (if dot < s@.len() {
                s@.skip(dot as int + 1)
            } else {
                Seq::<char>::empty()
            }),
            find_dot(s@) == (if dot < s@.len() {
                Some(dot as int)
            } else {
                None::<int>
            }),
            forall|k: int| fstart <= k < j ==> is_digit(#[trigger] s@[k]),
            fv@ == frac_digit_vals(fp.take(j - fstart)),
        decreases s.len() - j,
    {
        let c = s[j];
        if !digit_char(c) {
            proof {
                assert(fp[j - fstart] == s@[j as int]);
            }
            return None;
        }
        fv.push((c as u32 - 48) as u8);
        proof {
            assert(fp.take(j + 1 - fstart).take(j - fstart) =~= fp.take(j - fstart));
            assert(fp.take(j + 1 - fstart)[j - fstart] == s@[j as int]);
            assert(frac_digit_vals(fp.take(j + 1 - fstart)) =~= frac_digit_vals(
                fp.take(j - fstart),
            ).push(digit_val(s@[j as int]) as u8));
        }
        j += 1;
    }
    proof {
        assert(fp.take(j - fstart) =~= fp);
        assert(forall|k: int| 0 <= k < fp.len() ==> is_digit(#[trigger] fp[k]));
    }
    if dot >= s.len() && s.len() == 0 {
        return None;
    }
    if dot < s.len() && dot == 0 && fstart >= s.len() {
        proof {
            assert(ip.len() + fp.len() == 0);
        }
        return None;
    }
    let ghost raw = frac_digit_vals(fp);
    proof {
        assert(forall|i: int| 0 <= i < raw.len() ==> #[trigger] raw[i] < 10);
    }
    while fv.len() > 0 && fv[fv.len() - 1] == 0
        invariant
            strip_zeros(raw) == strip_zeros(fv@),
            forall|i: int| 0 <= i < fv@.len() ==> #[trigger] fv@[i] < 10,
        decreases fv.len(),
    {
        let _ = fv.pop();
    }
    proof {
        assert(strip_zeros(fv@) == fv@);
        lemma_strip_zeros_wf(raw);
    }
    Some(DataAmount { whole, frac: fv })
}

/// A single metric's text could not be normalized. `FormatError` (no
/// fraction marker at all) is the expected, recoverable shape for a page
/// that omits a metric; `ParseError` means the numeric parse failed after
/// cleanup.
#[derive(PartialEq, Eq, Structural, Clone, Copy, Debug)]
pub enum NormalizeError {
    ParseError,
    FormatError,
}

/// `s` after removing every occurrence of each pattern, applied in order.
pub open spec fn clean_spec(s: Seq<char>, pats: Seq<Seq<char>>) -> Seq<char>
    decreases pats.len(),
{
    if pats.len() == 0 {
        s
    } else {
        clean_spec(remove_all_spec(s, pats[0]), pats.skip(1))
    }
}

/// Removes each decorative substring of `pats`, in order, from `s`.
pub fn clean(s: &Vec<char>, pats: &Vec<Vec<char>>) -> (r: Vec<char>)
    requires
        forall|i: int| 0 <= i < pats.len() ==> (#[trigger] pats@[i])@.len() >= 1,
    ensures
        r@ == clean_spec(s@, pats@.map_values(|p: Vec<char>| p@)),
{
    let ghost pseq = pats@.map_values(|p: Vec<char>| p@);
    let mut cur: Vec<char> = s.clone();
    let mut i: usize = 0;
    proof {
        assert(cur@ == s@);
        assert(pseq.skip(0) =~= pseq);
    }
    while i < pats.len()
        invariant
            i <= pats.len(),
            pseq == pats@.map_values(|p: Vec<char>| p@),
            forall|k: int| 0 <= k < pats.len() ==> (#[trigger] pats@[k])@.len() >= 1,
            clean_spec(s@, pseq) == clean_spec(cur@, pseq.skip(i as int)),
        decreases pats.len() - i,
    {
        proof {
            assert(pseq.skip(i as int)[0] == pats@[i as int]@);
            assert(pseq.skip(i as int).skip(1) =~= pseq.skip(i as int + 1));
        }
        cur = remove_all(&cur, &pats[i]);
        i += 1;
    }
    proof {
        assert(pseq.skip(i as int) =~= Seq::<Seq<char>>::empty());
    }
    cur
}

/// The used-side count of a "remaining/used" fragment: what follows the
/// first fraction marker, trimmed and read as a signed count.
pub open spec fn used_count_spec(s: Seq<char>) -> Result<int, NormalizeError> {
    match split_used_spec(s) {
        None => Err(NormalizeError::FormatError),
        Some(t) => match parse_count_spec(trim_spec(t)) {
            Some(v) => Ok(v),
            None => Err(NormalizeError::ParseError),
        },
    }
}

/// The used-side decimal amount of a "remaining/used" fragment.
pub open spec fn used_amount_spec(s: Seq<char>) -> Result<DataAmountV, NormalizeError> {
    match split_used_spec(s) {
        None => Err(NormalizeError::FormatError),
        Some(t) => match parse_decimal_spec(trim_spec(t)) {
            Some(d) => Ok(d),
            None => Err(NormalizeError::ParseError),
        },
    }
}

/// Splits a cleaned fragment at its fraction marker and parses the used
/// side as a count; `FormatError` when the marker is absent, `ParseError`
/// when the used side is not a count.
pub fn used_count(s: &Vec<char>) -> (r: Result<isize, NormalizeError>)
    ensures
        match r {
            Ok(v) => used_count_spec(s@) == Ok::<int, NormalizeError>(v as int),
            Err(e) => used_count_spec(s@) == Err::<int, NormalizeError>(e),
        },
{
    match split_used(s) {
        None => Err(NormalizeError::FormatError),
        Some(t) => {
            let trimmed = trim(&t);
            match parse_count(&trimmed) {
                Some(v) => Ok(v),
                None => Err(NormalizeError::ParseError),
            }
        },
    }
}

/// Splits a cleaned fragment at its fraction marker and parses the used
/// side as a decimal amount; `FormatError` when the marker is absent,
/// `ParseError` when the used side is not a decimal amount.
pub fn used_amount(s: &Vec<char>) -> (r: Result<DataAmount, NormalizeError>)
    ensures
        match r {
            Ok(d) => used_amount_spec(s@) == Ok::<DataAmountV, NormalizeError>(d@) && d.wf(),
            Err(e) => used_amount_spec(s@) == Err::<DataAmountV, NormalizeError>(e),
        },
{
    match split_used(s) {
        None => Err(NormalizeError::FormatError),
        Some(t) => {
            let trimmed = trim(&t);
            match parse_decimal(&trimmed) {
                Some(d) => Ok(d),
                None => Err(NormalizeError::ParseError),
            }
        },
    }
}

} // verus!
