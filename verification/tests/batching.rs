use batcher::Batcher;
use batcher::BatchStatus;
use batcher::KeyUnit;
use batcher::PolicyBatcher;
use batcher::PolicyKind;
use batcher::Unit;
use batcher::VecBatcher;

struct TestCase {
    to_insert: Vec<KeyUnit>,
    policy: PolicyKind<usize>,
    expected_outcome: Option<Vec<KeyUnit>>,
}

#[test]
fn test_policy_kind() {
    let cases = vec![
        // BySize test with less than what we put
        TestCase {
            to_insert: vec![KeyUnit(10), KeyUnit(11), KeyUnit(12)],
            policy: PolicyKind::BySize(2),
            expected_outcome: Some(vec![KeyUnit(10), KeyUnit(11)]),
        },
        // BySize test with more than what we put
        TestCase {
            to_insert: vec![KeyUnit(10), KeyUnit(11), KeyUnit(12)],
            policy: PolicyKind::BySize(4),
            expected_outcome: None,
        },
        // BySize test exact number
        TestCase {
            to_insert: vec![KeyUnit(10), KeyUnit(11), KeyUnit(12)],
            policy: PolicyKind::BySize(4),
            expected_outcome: Some(vec![KeyUnit(10), KeyUnit(11), KeyUnit(12)]),
        },
        // ByList test with different list
        TestCase {
            to_insert: vec![KeyUnit(10), KeyUnit(11), KeyUnit(12)],
            policy: PolicyKind::ByList(vec![10, 9, 12]),
            expected_outcome: None,
        },
        // ByList test with same list
        TestCase {
            to_insert: vec![KeyUnit(10), KeyUnit(11), KeyUnit(12)],
            policy: PolicyKind::ByList(vec![10, 11, 12]),
            expected_outcome: Some(vec![KeyUnit(10), KeyUnit(11), KeyUnit(12)]),
        },
    ];
    for (i, case) in cases.into_iter().enumerate() {
        let mut batcher = PolicyBatcher::new(case.policy);
        assert!(!case.to_insert.is_empty());
        for unit in case.to_insert.iter() {
            match batcher.new_unit(unit.clone()) {
                None => continue,
                Some(out) => {
                    assert_eq!(case.expected_outcome, Some(out), "test case {}", i);
                    break;
                }
            }
        }
    }
}

#[test]
fn by_size_releases_on_threshold_and_resets() {
    let mut b = PolicyBatcher::new(PolicyKind::BySize(2));
    assert_eq!(b.new_unit(KeyUnit(10)), None);
    assert_eq!(
        b.new_unit(KeyUnit(11)),
        Some(vec![KeyUnit(10), KeyUnit(11)])
    );
    // After the release the next insertion begins a fresh batch.
    assert_eq!(b.new_unit(KeyUnit(12)), None);
    assert_eq!(b.release(), vec![KeyUnit(12)]);
}

#[test]
fn by_list_never_matching_never_releases() {
    let mut b = PolicyBatcher::new(PolicyKind::ByList(vec![10, 11, 12]));
    assert_eq!(b.new_unit(KeyUnit(10)), None);
    assert_eq!(b.new_unit(KeyUnit(9)), None);
    assert_eq!(b.new_unit(KeyUnit(12)), None);
    assert_eq!(b.release(), vec![KeyUnit(10), KeyUnit(9), KeyUnit(12)]);
}

#[test]
fn by_list_releases_on_exact_match() {
    let mut b = PolicyBatcher::new(PolicyKind::ByList(vec![10, 11, 12]));
    assert_eq!(b.new_unit(KeyUnit(10)), None);
    assert_eq!(b.new_unit(KeyUnit(11)), None);
    assert_eq!(
        b.new_unit(KeyUnit(12)),
        Some(vec![KeyUnit(10), KeyUnit(11), KeyUnit(12)])
    );
}

#[test]
fn by_list_release_keeps_duplicates_in_order() {
    let mut b = PolicyBatcher::new(PolicyKind::ByList(vec![10, 11]));
    assert_eq!(b.new_unit(KeyUnit(10)), None);
    assert_eq!(b.new_unit(KeyUnit(10)), None);
    assert_eq!(
        b.new_unit(KeyUnit(11)),
        Some(vec![KeyUnit(10), KeyUnit(10), KeyUnit(11)])
    );
}

#[test]
fn forced_release_returns_partial_batch() {
    let mut b = PolicyBatcher::new(PolicyKind::BySize(4));
    assert_eq!(b.new_unit(KeyUnit(10)), None);
    assert_eq!(b.new_unit(KeyUnit(11)), None);
    assert_eq!(b.new_unit(KeyUnit(12)), None);
    assert_eq!(b.release(), vec![KeyUnit(10), KeyUnit(11), KeyUnit(12)]);
}

#[test]
fn forced_release_of_empty_batcher_is_empty() {
    let b: PolicyBatcher<KeyUnit> = PolicyBatcher::new(PolicyKind::BySize(3));
    assert_eq!(b.release(), vec![]);
}

#[test]
fn vec_batcher_release_then_empty() {
    let mut v = VecBatcher::new();
    v.new_unit(KeyUnit(10));
    v.new_unit(KeyUnit(11));
    assert_eq!(v.release(), vec![KeyUnit(10), KeyUnit(11)]);
    assert_eq!(v.release(), vec![]);
}

#[test]
fn vec_batcher_default_is_empty() {
    let mut v: VecBatcher<KeyUnit> = Default::default();
    assert_eq!(v.len(), 0);
    assert_eq!(v.release(), vec![]);
}

#[test]
fn outcome_matches_policy() {
    let mut v = VecBatcher::new();
    let by_size: PolicyKind<usize> = PolicyKind::BySize(1);
    let by_list: PolicyKind<usize> = PolicyKind::ByList(vec![10]);
    assert!(matches!(by_size.outcome(&v), BatchStatus::KeepBatching));
    v.new_unit(KeyUnit(10));
    assert!(matches!(by_size.outcome(&v), BatchStatus::ReleaseBatch));
    assert!(matches!(by_list.outcome(&v), BatchStatus::ReleaseBatch));
    v.new_unit(KeyUnit(9));
    assert!(matches!(by_list.outcome(&v), BatchStatus::KeepBatching));
}

#[test]
fn batch_status_from_bool() {
    assert!(matches!(BatchStatus::from(true), BatchStatus::ReleaseBatch));
    assert!(matches!(BatchStatus::from(false), BatchStatus::KeepBatching));
}

#[test]
fn key_unit_id_is_its_key() {
    assert_eq!(KeyUnit(42).id(), 42);
}
