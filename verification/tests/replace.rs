use pngshrink::{decide_replace, ReplaceDecision, TargetInfo};

#[test]
fn missing_target_is_replaced() {
    assert_eq!(
        decide_replace(None, 100),
        ReplaceDecision::Replace { clear_readonly: false }
    );
}

#[test]
fn smaller_target_is_kept() {
    let target = TargetInfo { size: 100, readonly: false };
    assert_eq!(decide_replace(Some(target), 500), ReplaceDecision::Skip);
}

#[test]
fn larger_target_is_replaced() {
    let target = TargetInfo { size: 1000, readonly: false };
    assert_eq!(
        decide_replace(Some(target), 500),
        ReplaceDecision::Replace { clear_readonly: false }
    );
}

#[test]
fn equal_sizes_are_replaced() {
    let target = TargetInfo { size: 100, readonly: false };
    assert_eq!(
        decide_replace(Some(target), 100),
        ReplaceDecision::Replace { clear_readonly: false }
    );
}

#[test]
fn readonly_target_has_protection_cleared() {
    // a read-only target and a smaller new encode: the run replaces it and
    // asks for the write protection to be cleared first
    let target = TargetInfo { size: 1000, readonly: true };
    assert_eq!(
        decide_replace(Some(target), 500),
        ReplaceDecision::Replace { clear_readonly: true }
    );
}

#[test]
fn readonly_smaller_target_is_kept_untouched() {
    let target = TargetInfo { size: 100, readonly: true };
    assert_eq!(decide_replace(Some(target), 500), ReplaceDecision::Skip);
}

#[test]
fn sequential_candidates_keep_the_smallest() {
    // offering two candidates in order, each compared against what the
    // previous step left at the target, keeps the overall minimum
    let mut on_disk: u64 = 800;
    for candidate in [900u64, 600] {
        match decide_replace(Some(TargetInfo { size: on_disk, readonly: false }), candidate) {
            ReplaceDecision::Skip => {}
            ReplaceDecision::Replace { .. } => on_disk = candidate,
        }
    }
    assert_eq!(on_disk, 600);
}

#[test]
fn never_grows_whatever_the_candidates_are() {
    for pre in [0u64, 1, 500, 1000] {
        for candidate in [0u64, 1, 499, 500, 501, 10_000] {
            let after = match decide_replace(
                Some(TargetInfo { size: pre, readonly: false }),
                candidate,
            ) {
                ReplaceDecision::Skip => pre,
                ReplaceDecision::Replace { .. } => candidate,
            };
            assert!(after <= pre);
        }
    }
}
