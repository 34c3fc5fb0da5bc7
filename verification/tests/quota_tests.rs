use mawari_orchestrator::quota::get_billing_info;
use mawari_orchestrator::quota::line_units_milli;
use mawari_orchestrator::quota::BillingInfo;
use mawari_orchestrator::quota::UsageItem;
use mawari_orchestrator::quota::EXHAUSTED_USED_MILLI;

fn item(product: &str, sku: &str, quantity_milli: u64) -> UsageItem {
    UsageItem {
        product: product.to_string(),
        sku: sku.to_string(),
        quantity_milli,
    }
}

#[test]
fn four_core_line_weighs_four() {
    // quantity 2 of a 4-core sku contributes 8 weighted core-hours
    let it = item("codespaces", "abc compute 4-core xyz", 2_000);
    assert_eq!(line_units_milli(&it), 8_000);
}

#[test]
fn two_core_line_weighs_two() {
    // quantity 3 of a 2-core sku contributes 6 weighted core-hours
    let it = item("codespaces", "compute 2-core", 3_000);
    assert_eq!(line_units_milli(&it), 6_000);
}

#[test]
fn two_core_match_wins_over_four_core() {
    let it = item("codespaces", "compute 2-core then compute 4-core", 1_000);
    assert_eq!(line_units_milli(&it), 2_000);
}

#[test]
fn other_product_does_not_count() {
    let it = item("actions", "compute 4-core", 5_000);
    assert_eq!(line_units_milli(&it), 0);
}

#[test]
fn unknown_sku_does_not_count() {
    let it = item("codespaces", "storage", 5_000);
    assert_eq!(line_units_milli(&it), 0);
}

#[test]
fn unreadable_report_counts_as_exhausted() {
    let info = get_billing_info(None);
    assert_eq!(
        info,
        BillingInfo {
            total_core_hours_used_milli: EXHAUSTED_USED_MILLI,
            hours_remaining_milli: 0,
            is_quota_ok: false,
        }
    );
}

#[test]
fn empty_report_leaves_full_allowance() {
    let info = get_billing_info(Some(vec![]));
    assert_eq!(info.total_core_hours_used_milli, 0);
    // 120 core-hours over 8 cores: 15 hours
    assert_eq!(info.hours_remaining_milli, 15_000);
    assert!(info.is_quota_ok);
}

#[test]
fn non_matching_report_leaves_full_allowance() {
    let info = get_billing_info(Some(vec![
        item("actions", "compute 4-core", 9_000),
        item("codespaces", "storage", 9_000),
    ]));
    assert_eq!(info.total_core_hours_used_milli, 0);
    assert_eq!(info.hours_remaining_milli, 15_000);
    assert!(info.is_quota_ok);
}

#[test]
fn full_ceiling_refuses() {
    // 30 units of 4-core work: exactly the 120 included core-hours
    let info = get_billing_info(Some(vec![item("codespaces", "compute 4-core", 30_000)]));
    assert_eq!(info.total_core_hours_used_milli, 120_000);
    assert_eq!(info.hours_remaining_milli, 0);
    assert!(!info.is_quota_ok);
}

#[test]
fn usage_is_summed_across_lines() {
    let info = get_billing_info(Some(vec![
        item("codespaces", "compute 4-core", 2_000),
        item("codespaces", "compute 2-core", 3_000),
        item("actions", "compute 4-core", 50_000),
    ]));
    assert_eq!(info.total_core_hours_used_milli, 14_000);
    // (120000 - 14000) / 8 = 13250
    assert_eq!(info.hours_remaining_milli, 13_250);
    assert!(info.is_quota_ok);
}

#[test]
fn exactly_one_hour_left_refuses() {
    // 112 core-hours used leaves 8 core-hours: exactly 1.0h for 8 cores,
    // and quota-ok needs strictly more than an hour
    let info = get_billing_info(Some(vec![item("codespaces", "compute 4-core", 28_000)]));
    assert_eq!(info.hours_remaining_milli, 1_000);
    assert!(!info.is_quota_ok);
}

#[test]
fn just_over_one_hour_left_passes() {
    let info = get_billing_info(Some(vec![item("codespaces", "compute 4-core", 27_998)]));
    assert_eq!(info.hours_remaining_milli, 1_001);
    assert!(info.is_quota_ok);
}
