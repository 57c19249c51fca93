use change_detector::detector::ChangeDetector;
use std::collections::hash_map::DefaultHasher;
use std::hash::Hasher;

#[test]
fn change_detect_works() {
    let mut change_detector = ChangeDetector::<usize>::new();
    assert_eq!(change_detector.detect(&1), Some(&1));
    assert_eq!(change_detector.detect(&1), None);
    assert_eq!(change_detector.detect(&2), Some(&2));
    assert_eq!(change_detector.detect(&1), Some(&1));
    assert_eq!(change_detector.detect(&1), None);
}

#[test]
fn owned_change_detect_works() {
    let mut string_change_detector = ChangeDetector::<String>::new();
    let a1 = "A".to_string();
    assert_eq!(string_change_detector.detect_owned(a1), Some("A".to_string()));
    let b1 = "B".to_string();
    assert_eq!(string_change_detector.detect_owned(b1), Some("B".to_string()));
    let b2 = "B".to_string();
    assert_eq!(string_change_detector.detect_owned(b2), None);
}

#[test]
fn example_works() {
    let mut writes = 0_usize;

    let mut write_to_file = |change_detector: &mut ChangeDetector<Vec<usize>>, nums: Vec<usize>| {
        if let Some(_nums) = change_detector.detect_owned(nums) {
            // WRITE DATA TO SOME FILE
            writes += 1;
        }
    };

    let mut change_detector = ChangeDetector::<Vec<usize>>::new();

    write_to_file(&mut change_detector, vec![1, 2, 3]);
    write_to_file(&mut change_detector, vec![1, 2, 3]);
    write_to_file(&mut change_detector, vec![1, 2, 3, 4]);
    write_to_file(&mut change_detector, vec![1, 2, 3, 4]);

    assert_eq!(writes, 2);
}

#[test]
fn fresh_detector_is_untouched_with_zero_hash() {
    let detector = ChangeDetector::<usize>::new();
    assert!(detector.untouched());
    assert_eq!(detector.hash(), 0);
}

#[test]
fn first_detection_reports_change() {
    let mut detector = ChangeDetector::<usize>::new();
    assert_eq!(detector.detect(&42), Some(&42));
    assert!(!detector.untouched());
}

#[test]
fn same_value_twice_reports_change_then_none() {
    let mut detector = ChangeDetector::<usize>::new();
    assert_eq!(detector.detect(&9), Some(&9));
    assert_eq!(detector.detect(&9), None);
}

#[test]
fn distinct_values_both_report_change() {
    let mut detector = ChangeDetector::<usize>::new();
    assert_eq!(detector.detect(&3), Some(&3));
    assert_eq!(detector.detect(&4), Some(&4));
}

#[test]
fn oscillating_values_always_report_change() {
    let mut detector = ChangeDetector::<String>::new();
    for _ in 0..3 {
        assert!(detector.detect_owned("A".to_string()).is_some());
        assert!(detector.detect_owned("B".to_string()).is_some());
    }
}

#[test]
fn repeated_value_changes_once() {
    let mut detector = ChangeDetector::<usize>::new();
    assert_eq!(detector.detect(&11), Some(&11));
    for _ in 0..9 {
        assert_eq!(detector.detect(&11), None);
    }
}

#[test]
fn stored_hash_is_digest_of_last_usize() {
    let mut detector = ChangeDetector::<usize>::new();
    detector.detect(&5);
    detector.detect(&7);

    let mut hasher = DefaultHasher::new();
    hasher.write(&7u64.to_le_bytes());
    assert_eq!(detector.hash(), hasher.finish());
}

#[test]
fn stored_hash_is_digest_of_string_bytes() {
    let mut detector = ChangeDetector::<String>::new();
    detector.detect_owned("change".to_string());

    let mut hasher = DefaultHasher::new();
    hasher.write("change".as_bytes());
    assert_eq!(detector.hash(), hasher.finish());
}

#[test]
fn stored_hash_is_digest_of_vec_length_then_elements() {
    let mut detector = ChangeDetector::<Vec<usize>>::new();
    detector.detect_owned(vec![1, 2, 3]);

    let mut hasher = DefaultHasher::new();
    hasher.write(&3u64.to_le_bytes());
    hasher.write(&1u64.to_le_bytes());
    hasher.write(&2u64.to_le_bytes());
    hasher.write(&3u64.to_le_bytes());
    assert_eq!(detector.hash(), hasher.finish());
}

#[test]
fn equal_vectors_report_no_change() {
    let mut detector = ChangeDetector::<Vec<usize>>::new();
    assert!(detector.detect(&vec![10, 20]).is_some());
    assert!(detector.detect(&vec![10, 20]).is_none());
    assert!(detector.detect(&vec![10, 20, 30]).is_some());
}

#[test]
fn empty_values_are_detected_like_any_other() {
    let mut detector = ChangeDetector::<Vec<usize>>::new();
    assert!(detector.detect(&Vec::new()).is_some());
    assert!(detector.detect(&Vec::new()).is_none());

    let mut string_detector = ChangeDetector::<String>::new();
    assert!(string_detector.detect_owned(String::new()).is_some());
    assert!(string_detector.detect_owned(String::new()).is_none());
}
