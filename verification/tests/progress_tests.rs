use turbohash::progress::ProgressTracker;

fn global_progress(tracker: &ProgressTracker) -> f64 {
    let (done, total) = tracker.get_progress_ratio();
    if total == 0 {
        return 0.0;
    }
    done as f64 / total as f64
}

#[test]
fn test_progress_tracker() {
    let mut tracker = ProgressTracker::new();
    let path1 = "/test/file1.txt".to_string();
    let path2 = "/test/file2.txt".to_string();

    tracker.set_total(1000);

    assert_eq!(global_progress(&tracker), 0.0);

    tracker.start_file(path1.clone(), 500);
    tracker.start_file(path2.clone(), 500);

    tracker.update_progress(&path1, 250);
    assert_eq!(global_progress(&tracker), 0.25);

    tracker.update_progress(&path1, 500);
    assert_eq!(global_progress(&tracker), 0.5);

    tracker.complete_file(&path1);
    assert_eq!(global_progress(&tracker), 0.5);

    tracker.complete_file(&path2);
    assert_eq!(global_progress(&tracker), 1.0);
    assert!(tracker.is_complete());
}

#[test]
fn test_progress_tracker_reset() {
    let mut tracker = ProgressTracker::new();
    let path1 = "/test/file1.txt".to_string();

    tracker.set_total(1000);
    tracker.start_file(path1.clone(), 1000);
    tracker.complete_file(&path1);

    assert_eq!(global_progress(&tracker), 1.0);

    tracker.reset();

    assert_eq!(global_progress(&tracker), 0.0);
    assert_eq!(tracker.get_processed_bytes(), 0);
    assert_eq!(tracker.get_total_bytes(), 0);
    assert_eq!(tracker.get_in_progress_count(), 0);
}

#[test]
fn test_progress_tracker_zero_total() {
    let tracker = ProgressTracker::new();
    assert_eq!(global_progress(&tracker), 0.0);
    assert!(!tracker.is_complete());
}

#[test]
fn completing_twice_counts_once() {
    let mut tracker = ProgressTracker::new();
    let path = "/a".to_string();
    tracker.set_total(10);
    tracker.start_file(path.clone(), 10);
    tracker.complete_file(&path);
    tracker.complete_file(&path);
    assert_eq!(tracker.get_processed_bytes(), 10);
    assert_eq!(tracker.get_progress_ratio(), (10, 10));
}

#[test]
fn update_of_unknown_file_is_ignored() {
    let mut tracker = ProgressTracker::new();
    tracker.set_total(10);
    tracker.update_progress(&"/nowhere".to_string(), 5);
    tracker.complete_file(&"/nowhere".to_string());
    assert_eq!(tracker.get_progress_ratio(), (0, 10));
    assert_eq!(tracker.get_in_progress_count(), 0);
}

#[test]
fn any_completion_order_ends_at_one() {
    let sizes: [u64; 5] = [7, 1000, 0, 65_536, 123];
    let total: u64 = sizes.iter().sum();
    let orders: [[usize; 5]; 4] = [[0, 1, 2, 3, 4], [4, 3, 2, 1, 0], [2, 0, 4, 1, 3], [1, 4, 0, 3, 2]];
    for order in orders {
        let mut tracker = ProgressTracker::new();
        tracker.set_total(total);
        for (i, size) in sizes.iter().enumerate() {
            tracker.start_file(format!("/f{}", i), *size);
        }
        let mut last = 0u64;
        for (step, &i) in order.iter().enumerate() {
            tracker.update_progress(&format!("/f{}", i), sizes[i] / 2);
            let (done, _) = tracker.get_progress_ratio();
            assert!(done >= last);
            last = done;
            tracker.complete_file(&format!("/f{}", i));
            let (done, _) = tracker.get_progress_ratio();
            assert!(done >= last);
            last = done;
            assert_eq!(tracker.get_in_progress_count(), 4 - step);
        }
        assert_eq!(tracker.get_processed_bytes(), total);
        assert_eq!(tracker.get_progress_ratio(), (total, total));
        assert_eq!(global_progress(&tracker), 1.0);
    }
}

#[test]
fn restarting_a_file_resets_its_reading() {
    let mut tracker = ProgressTracker::new();
    let path = "/a".to_string();
    tracker.set_total(100);
    tracker.start_file(path.clone(), 100);
    tracker.update_progress(&path, 60);
    assert_eq!(tracker.get_progress_ratio(), (60, 100));
    tracker.start_file(path.clone(), 100);
    assert_eq!(tracker.get_progress_ratio(), (0, 100));
    assert_eq!(tracker.get_in_progress_count(), 1);
}

#[test]
fn finished_bytes_wrap_like_a_64_bit_counter() {
    let mut tracker = ProgressTracker::new();
    let a = "/a".to_string();
    let b = "/b".to_string();
    tracker.start_file(a.clone(), u64::MAX);
    tracker.start_file(b.clone(), 2);
    tracker.complete_file(&a);
    tracker.complete_file(&b);
    assert_eq!(tracker.get_processed_bytes(), 1);
}

#[test]
fn progress_never_passes_one() {
    let mut tracker = ProgressTracker::new();
    let path = "/big".to_string();
    tracker.set_total(10);
    tracker.start_file(path.clone(), 20);
    tracker.update_progress(&path, 15);
    assert_eq!(tracker.get_done_bytes(), 15);
    assert_eq!(tracker.get_progress_ratio(), (10, 10));
    assert_eq!(global_progress(&tracker), 1.0);
    tracker.complete_file(&path);
    assert_eq!(tracker.get_done_bytes(), 20);
    assert_eq!(tracker.get_progress_ratio(), (10, 10));
    assert_eq!(global_progress(&tracker), 1.0);
    assert!(tracker.is_complete());
}

#[test]
fn progress_without_a_total_is_zero() {
    let mut tracker = ProgressTracker::new();
    let path = "/a".to_string();
    tracker.start_file(path.clone(), 20);
    tracker.update_progress(&path, 5);
    assert_eq!(tracker.get_done_bytes(), 5);
    assert_eq!(tracker.get_progress_ratio(), (0, 0));
    assert_eq!(global_progress(&tracker), 0.0);
    assert!(!tracker.is_complete());
}
