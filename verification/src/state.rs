//! Shared telemetry state: the last successfully observed usage and bill
//! values, merged field by field so that a metric that failed extraction in
//! one cycle never erases a previously observed value.

use vstd::prelude::*;

use crate::client::{bill_absent, usage_absent, Bill, BillV, Usage, UsageV};
use crate::text::DataAmount;

verus! {

/// The pair of last observed snapshots. Initialized all-absent at process
/// start, then only ever updated in place by the poller.
pub struct State {
    pub usage: Usage,
    pub bill: Bill,
}

/// Mathematical value of the telemetry state.
pub ghost struct StateV {
    pub usage: UsageV,
    pub bill: BillV,
}

impl View for State {
    type V = StateV;

    open spec fn view(&self) -> StateV {
        StateV { usage: self.usage@, bill: self.bill@ }
    }
}

/// The all-absent initial state.
pub open spec fn state_absent() -> StateV {
    StateV { usage: usage_absent(), bill: bill_absent() }
}

impl Default for State {
    /// Both snapshots all-absent.
    fn default() -> (r: State)
        ensures
            r@ == state_absent(),
    {
        State { usage: Usage::default(), bill: Bill::default() }
    }
}

/// Field-by-field merge of one incoming usage snapshot: a present incoming
/// field overwrites the stored one; an absent incoming field leaves the
/// stored value untouched.
pub open spec fn merge_usage(stored: UsageV, incoming: UsageV) -> UsageV {
    UsageV {
        mobile_data_used: if incoming.mobile_data_used is Some {
            incoming.mobile_data_used
        } else {
            stored.mobile_data_used
        },
        call_used: if incoming.call_used is Some {
            incoming.call_used
        } else {
            stored.call_used
        },
        sms_used: if incoming.sms_used is Some {
            incoming.sms_used
        } else {
            stored.sms_used
        },
    }
}

/// Field-by-field merge of one incoming bill snapshot.
pub open spec fn merge_bill(stored: BillV, incoming: BillV) -> BillV {
    BillV {
        usage: if incoming.usage is Some {
            incoming.usage
        } else {
            stored.usage
        },
    }
}

/// One update step: both snapshots merged field by field.
pub open spec fn spec_update(s: StateV, u: UsageV, b: BillV) -> StateV {
    StateV { usage: merge_usage(s.usage, u), bill: merge_bill(s.bill, b) }
}

/// Of three optional observations — the stored one and two successive
/// incoming ones — the latest present one, if any.
pub open spec fn latest_present<T>(stored: Option<T>, first: Option<T>, second: Option<T>) -> Option<
    T,
> {
    if second is Some {
        second
    } else if first is Some {
        first
    } else {
        stored
    }
}

impl State {
    /// Applies one cycle's partial snapshots: any field present in the
    /// incoming snapshots overwrites the stored field; any absent field
    /// leaves the previously stored value untouched.
    pub fn update(&mut self, usage: Usage, bill: Bill)
        ensures
            final(self)@ == spec_update(old(self)@, usage@, bill@),
    {
        if usage.mobile_data_used.is_some() {
            self.usage.mobile_data_used = usage.mobile_data_used;
        }
        if usage.call_used.is_some() {
            self.usage.call_used = usage.call_used;
        }
        if usage.sms_used.is_some() {
            self.usage.sms_used = usage.sms_used;
        }
        if bill.usage.is_some() {
            self.bill.usage = bill.usage;
        }
    }

    /// A snapshot copy of the current state, safe to hold while later
    /// updates proceed.
    pub fn read(&self) -> (r: State)
        ensures
            r@ == self@,
    {
        State {
            usage: Usage {
                mobile_data_used: match &self.usage.mobile_data_used {
                    Some(d) => Some(DataAmount { whole: d.whole, frac: d.frac.clone() }),
                    None => None,
                },
                call_used: self.usage.call_used,
                sms_used: self.usage.sms_used,
            },
            bill: Bill { usage: self.bill.usage },
        }
    }
}

/// Idempotent-merge law: over two successive updates each field ends as the
/// latest present observation of it — a field absent in an update never
/// overwrites a present one.
pub proof fn lemma_update_merge(s: StateV, u1: UsageV, b1: BillV, u2: UsageV, b2: BillV)
    ensures
        ({
            let after = spec_update(spec_update(s, u1, b1), u2, b2);
            &&& after.usage.mobile_data_used == latest_present(
                s.usage.mobile_data_used,
                u1.mobile_data_used,
                u2.mobile_data_used,
            )
            &&& after.usage.call_used == latest_present(
                s.usage.call_used,
                u1.call_used,
                u2.call_used,
            )
            &&& after.usage.sms_used == latest_present(s.usage.sms_used, u1.sms_used, u2.sms_used)
            &&& after.bill.usage == latest_present(s.bill.usage, b1.usage, b2.usage)
        }),
{
}

} // verus!
