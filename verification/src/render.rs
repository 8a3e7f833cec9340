//! Metrics exposition rendering: the shared telemetry state as a fixed
//! plain-text body, one gauge per metric, each preceded by its help and type
//! comment lines. Absent optional fields render as zero — the exposition
//! format has no "unknown" sentinel.

use vstd::prelude::*;
use vstd::string::StringExecFns;

use crate::state::{State, StateV};
use crate::text::{DataAmount, DataAmountV};

verus! {

/// The character of a decimal digit value; values ten and above (which no
/// verified producer yields) saturate at '9'.
pub open spec fn digit_char_of(d: int) -> char {
    if d == 0 {
        '0'
    } else if d == 1 {
        '1'
    } else if d == 2 {
        '2'
    } else if d == 3 {
        '3'
    } else if d == 4 {
        '4'
    } else if d == 5 {
        '5'
    } else if d == 6 {
        '6'
    } else if d == 7 {
        '7'
    } else if d == 8 {
        '8'
    } else {
        '9'
    }
}

/// Decimal numeral of a non-negative value, most significant digit first.
pub open spec fn dec_str(n: nat) -> Seq<char>
    decreases n,
{
    if n < 10 {
        seq![digit_char_of(n as int)]
    } else {
        dec_str(n / 10) + seq![digit_char_of((n % 10) as int)]
    }
}

/// Decimal numeral of a signed value.
pub open spec fn int_str(v: int) -> Seq<char> {
    if v < 0 {
        seq!['-'] + dec_str((-v) as nat)
    } else {
        dec_str(v as nat)
    }
}

/// Decimal-amount numeral: the whole part, then the fractional digits after
/// a point when there are any.
pub open spec fn amount_str(d: DataAmountV) -> Seq<char> {
    dec_str(if d.whole >= 0 {
        d.whole as nat
    } else {
        0nat
    }) + if d.frac.len() > 0 {
        seq!['.'] + d.frac.map_values(|x: u8| digit_char_of(x as int))
    } else {
        Seq::<char>::empty()
    }
}

fn digit_str(d: u8) -> (r: &'static str)
    ensures
        r@ == seq![digit_char_of(d as int)],
{
    proof {
        reveal_strlit("0");
        reveal_strlit("1");
        reveal_strlit("2");
        reveal_strlit("3");
        reveal_strlit("4");
        reveal_strlit("5");
        reveal_strlit("6");
        reveal_strlit("7");
        reveal_strlit("8");
        reveal_strlit("9");
    }
    match d {
        0 => "0",
        1 => "1",
        2 => "2",
        3 => "3",
        4 => "4",
        5 => "5",
        6 => "6",
        7 => "7",
        8 => "8",
        _ => "9",
    }
}

/// Appends the decimal numeral of `n`.
fn append_u64(out: &mut String, n: u64)
    ensures
        final(out)@ == old(out)@ + dec_str(n as nat),
    decreases n,
{
    if n >= 10 {
        append_u64(out, n / 10);
        out.append(digit_str((n % 10) as u8));
        proof {
            assert(out@ =~= old(out)@ + dec_str(n as nat));
        }
    } else {
        out.append(digit_str(n as u8));
    }
}

/// Appends the decimal numeral of `v`, with its sign.
fn append_count(out: &mut String, v: isize)
    ensures
        final(out)@ == old(out)@ + int_str(v as int),
{
    if v < 0 {
        proof {
            reveal_strlit("-");
        }
        out.append("-");
        let wide: i128 = -(v as i128);
        let mag: u64 = wide as u64;
        append_u64(out, mag);
        proof {
            assert("-"@ =~= seq!['-']);
            assert(out@ =~= old(out)@ + int_str(v as int));
        }
    } else {
        append_u64(out, v as u64);
    }
}

/// Appends the decimal-amount numeral of `d`.
fn append_amount(out: &mut String, d: &DataAmount)
    ensures
        final(out)@ == old(out)@ + amount_str(d@),
{
    append_u64(out, d.whole);
    if d.frac.len() > 0 {
        proof {
            reveal_strlit(".");
        }
        out.append(".");
        let ghost mapped = d.frac@.map_values(|x: u8| digit_char_of(x as int));
        let ghost base = out@;
        let mut i: usize = 0;
        proof {
            assert(mapped.take(0) =~= Seq::<char>::empty());
            assert(base + mapped.take(0) =~= base);
        }
        while i < d.frac.len()
            invariant
                i <= d.frac.len(),
                mapped == d.frac@.map_values(|x: u8| digit_char_of(x as int)),
                out@ == base + mapped.take(i as int),
            decreases d.frac.len() - i,
        {
            out.append(digit_str(d.frac[i]));
            proof {
                assert(mapped.take(i as int + 1) =~= mapped.take(i as int).push(
                    mapped[i as int],
                ));
                assert(out@ =~= base + mapped.take(i as int + 1));
            }
            i += 1;
        }
        proof {
            assert(mapped.take(i as int) =~= mapped);
            assert("."@ =~= seq!['.']);
            assert(out@ =~= old(out)@ + amount_str(d@));
        }
    } else {
        proof {
            assert(out@ =~= old(out)@ + amount_str(d@));
        }
    }
}

/// The exposition body for a telemetry state: in order, the data, call, SMS
/// and bill gauges, each with its help and type comment lines; absent fields
/// render as zero.
pub open spec fn metrics_body(s: StateV) -> Seq<char> {
    "\n# HELP data_used Mobile data used, in GB\n# TYPE data_used gauge\ndata_used "@ + (match s
        .usage
        .mobile_data_used {
        Some(d) => amount_str(d),
        None => dec_str(0),
    }) + "\n\n# HELP call_used Call time used, in minutes\n# TYPE call_used gauge\ncall_used "@
        + int_str(
        match s.usage.call_used {
            Some(v) => v,
            None => 0,
        },
    ) + "\n\n# HELP sms_used SMS used, in count\n# TYPE sms_used gauge\nsms_used "@ + int_str(
        match s.usage.sms_used {
            Some(v) => v,
            None => 0,
        },
    ) + "\n\n# HELP bill_usage Bill usage, in KRW\n# TYPE bill_usage gauge\nbill_usage "@ + int_str(
        match s.bill.usage {
            Some(v) => v,
            None => 0,
        },
    ) + "\n"@
}

/// Renders the exposition body for a state snapshot. Rendering performs no
/// mutation and cannot fail: any state, including the initial all-absent
/// one, has a body.
pub fn render_metrics(state: &State) -> (r: String)
    ensures
        r@ == metrics_body(state@),
{
    let mut out = String::new();
    out.append("\n# HELP data_used Mobile data used, in GB\n# TYPE data_used gauge\ndata_used ");
    match &state.usage.mobile_data_used {
        Some(d) => append_amount(&mut out, d),
        None => append_u64(&mut out, 0),
    }
    out.append("\n\n# HELP call_used Call time used, in minutes\n# TYPE call_used gauge\ncall_used ");
    append_count(
        &mut out,
        match state.usage.call_used {
            Some(v) => v,
            None => 0,
        },
    );
    out.append("\n\n# HELP sms_used SMS used, in count\n# TYPE sms_used gauge\nsms_used ");
    append_count(
        &mut out,
        match state.usage.sms_used {
            Some(v) => v,
            None => 0,
        },
    );
    out.append("\n\n# HELP bill_usage Bill usage, in KRW\n# TYPE bill_usage gauge\nbill_usage ");
    append_count(
        &mut out,
        match state.bill.usage {
            Some(v) => v,
            None => 0,
        },
    );
    out.append("\n");
    proof {
        assert(out@ =~= metrics_body(state@));
    }
    out
}

} // verus!
