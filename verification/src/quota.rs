//! The quota gate: turns a per-credential usage report into a go/no-go
//! decision and an estimated safe run duration.
//!
//! All quantities are held in thousandths (milli-units) so the arithmetic is
//! exact integer arithmetic: a usage line's `quantity` of 2.5 core-hours
//! arrives here as `2_500`.

use vstd::prelude::*;
use crate::text::contains_seq;
use crate::text::contains_substr;
use crate::text::str_eq;

verus! {

/// Included core-hour allowance per credential, in milli core-hours.
pub const INCLUDED_CORE_HOURS_MILLI: u64 = 120_000;

/// Cores the fleet consumes concurrently (two 4-core sessions).
pub const FLEET_CORES: u64 = 8;

/// Sentinel "used" figure reported when the usage report cannot be read.
pub const EXHAUSTED_USED_MILLI: u64 = 999_000;

/// A credential is quota-ok only when strictly more than this many milli
/// wall-clock hours remain.
pub const QUOTA_OK_MIN_MILLI_HOURS: u64 = 1_000;

/// One line of a usage report, with the quantity in milli-units.
#[derive(Clone, Debug)]
pub struct UsageItem {
    pub product: String,
    pub sku: String,
    pub quantity_milli: u64,
}

/// The quota decision for one credential.
#[derive(Clone, Copy, Debug, PartialEq, Eq, Structural)]
pub struct BillingInfo {
    pub total_core_hours_used_milli: u64,
    pub hours_remaining_milli: u64,
    pub is_quota_ok: bool,
}

/// Core multiplier a usage line's descriptor earns: 2-core lines weigh 2,
/// 4-core lines weigh 4, anything else does not count.
pub open spec fn sku_weight(sku: Seq<char>) -> nat {
    if contains_seq(sku, "compute 2-core"@) {
        2
    } else if contains_seq(sku, "compute 4-core"@) {
        4
    } else {
        0
    }
}

/// Weighted milli core-hours one usage line contributes.
pub open spec fn item_units_milli(item: UsageItem) -> nat {
    if item.product@ == "codespaces"@ {
        sku_weight(item.sku@) * (item.quantity_milli as nat)
    } else {
        0
    }
}

/// Weighted milli core-hours of a whole report.
pub open spec fn used_milli(items: Seq<UsageItem>) -> nat
    decreases items.len(),
{
    if items.len() == 0 {
        0
    } else {
        used_milli(items.drop_last()) + item_units_milli(items.last())
    }
}

/// Clamp an unbounded count into a `u64`.
pub open spec fn clamp64(n: nat) -> u64 {
    if n > u64::MAX {
        u64::MAX
    } else {
        n as u64
    }
}

/// Estimated milli wall-clock hours left once `used` milli core-hours are
/// spent: the unused part of the allowance spread over the fleet's cores.
pub open spec fn remaining_hours_milli(used: nat) -> nat {
    if used >= INCLUDED_CORE_HOURS_MILLI {
        0
    } else {
        (((INCLUDED_CORE_HOURS_MILLI - used) as nat) / (FLEET_CORES as nat))
    }
}

/// Verdict on a credential whose report could not be fetched or parsed:
/// treated as fully exhausted.
pub open spec fn exhausted_info() -> BillingInfo {
    BillingInfo {
        total_core_hours_used_milli: EXHAUSTED_USED_MILLI,
        hours_remaining_milli: 0,
        is_quota_ok: false,
    }
}

/// Weighted milli core-hours of one usage line, clamped to `u64`.
pub fn line_units_milli(item: &UsageItem) -> (r: u64)
    ensures
        r == clamp64(item_units_milli(*item)),
{
    if !str_eq(item.product.as_str(), "codespaces") {
        return 0;
    }
    let w: u64 = if contains_substr(item.sku.as_str(), "compute 2-core") {
        2
    } else if contains_substr(item.sku.as_str(), "compute 4-core") {
        4
    } else {
        0
    };
    match w.checked_mul(item.quantity_milli) {
        Some(v) => v,
        None => u64::MAX,
    }
}

proof fn lemma_clamp_add(a: nat, b: nat)
    ensures
        clamp64((a + b) as nat) == (if clamp64(a) as nat + clamp64(b) as nat > u64::MAX {
            u64::MAX
        } else {
            (clamp64(a) as nat + clamp64(b) as nat) as u64
        }),
{
}

/// The quota gate.  `None` stands for a usage report that could not be
/// fetched or parsed; such a credential counts as fully exhausted.  A readable
/// report is summed line by line, weighted by each line's core descriptor.
pub fn get_billing_info(report: Option<Vec<UsageItem>>) -> (r: BillingInfo)
    ensures
        report is None ==> r == exhausted_info(),
        report matches Some(items) ==> {
            &&& r.total_core_hours_used_milli == clamp64(used_milli(items@))
            &&& r.hours_remaining_milli == remaining_hours_milli(used_milli(items@))
            &&& r.is_quota_ok == (remaining_hours_milli(used_milli(items@))
                > QUOTA_OK_MIN_MILLI_HOURS)
        },
{
    match report {
        None => BillingInfo {
            total_core_hours_used_milli: EXHAUSTED_USED_MILLI,
            hours_remaining_milli: 0,
            is_quota_ok: false,
        },
        Some(items) => {
            let mut total: u64 = 0;
            let mut idx: usize = 0;
            while idx < items.len()
                invariant
                    idx <= items@.len(),
                    total == clamp64(used_milli(items@.subrange(0, idx as int))),
                decreases items@.len() - idx,
            {
                let c = line_units_milli(&items[idx]);
                proof {
                    let pre = items@.subrange(0, idx as int);
                    let post = items@.subrange(0, idx as int + 1);
                    assert(post.drop_last() =~= pre);
                    assert(post.last() == items@[idx as int]);
                    lemma_clamp_add(used_milli(pre), item_units_milli(items@[idx as int]));
                }
                total = total.saturating_add(c);
                idx += 1;
            }
            proof {
                assert(items@.subrange(0, items@.len() as int) =~= items@);
            }
            let hours_remaining_milli: u64 = if total >= INCLUDED_CORE_HOURS_MILLI {
                0
            } else {
                (INCLUDED_CORE_HOURS_MILLI - total) / FLEET_CORES
            };
            BillingInfo {
                total_core_hours_used_milli: total,
                hours_remaining_milli,
                is_quota_ok: hours_remaining_milli > QUOTA_OK_MIN_MILLI_HOURS,
            }
        },
    }
}

/// Law: a report in which no line carries billable fleet usage leaves the
/// whole allowance: the credential is quota-ok and the estimate is the
/// allowance spread over the fleet's cores.
pub proof fn lemma_no_matching_usage(items: Seq<UsageItem>)
    requires
        forall|i: int| 0 <= i < items.len() ==> item_units_milli(items[i]) == 0,
    ensures
        used_milli(items) == 0,
        remaining_hours_milli(used_milli(items)) == INCLUDED_CORE_HOURS_MILLI / FLEET_CORES,
        remaining_hours_milli(used_milli(items)) > QUOTA_OK_MIN_MILLI_HOURS,
    decreases items.len(),
{
    if items.len() > 0 {
        lemma_no_matching_usage(items.drop_last());
        assert(item_units_milli(items.last()) == 0);
    }
}

/// Law: a report that consumes the whole included allowance (or more) leaves
/// no estimated hours, so the credential is not quota-ok.
pub proof fn lemma_exhausted_usage(items: Seq<UsageItem>)
    requires
        used_milli(items) >= INCLUDED_CORE_HOURS_MILLI,
    ensures
        remaining_hours_milli(used_milli(items)) == 0,
        !(remaining_hours_milli(used_milli(items)) > QUOTA_OK_MIN_MILLI_HOURS),
{
}

} // verus!
