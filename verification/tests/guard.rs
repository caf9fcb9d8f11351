use lrs::filesystem::dev_ino::DevIno;
use lrs::filesystem::LoopManager;

#[test]
fn entering_twice_is_refused() {
    let mut guard = LoopManager::new();
    guard.init_loop_detection();
    assert!(guard.visit_dir(1, 10));
    guard.dev_ino_push(1, 10);
    assert!(!guard.visit_dir(1, 10));
}

#[test]
fn a_left_directory_can_be_entered_again() {
    let mut guard = LoopManager::new();
    assert!(guard.visit_dir(1, 10));
    guard.dev_ino_push(1, 10);
    guard.dev_ino_pop();
    assert!(guard.visit_dir(1, 10));
}

#[test]
fn leaving_removes_only_the_innermost_directory() {
    let mut guard = LoopManager::new();
    assert!(guard.visit_dir(1, 10));
    guard.dev_ino_push(1, 10);
    assert!(guard.visit_dir(1, 11));
    guard.dev_ino_push(1, 11);
    guard.dev_ino_pop();
    assert!(!guard.visit_dir(1, 10));
    assert!(guard.visit_dir(1, 11));
}

#[test]
fn device_and_inode_both_count() {
    let mut guard = LoopManager::new();
    assert!(guard.visit_dir(1, 2));
    assert!(guard.visit_dir(2, 1));
    assert!(guard.visit_dir(0, u64::MAX));
    assert!(guard.visit_dir(u64::MAX, 0));
    assert!(!guard.visit_dir(2, 1));
}

#[test]
fn identity_keys_keep_both_numbers() {
    assert_eq!(DevIno::new(0, 5).key(), 5);
    assert_eq!(DevIno::new(1, 0).key(), 1u128 << 64);
    assert_eq!(DevIno::new(u64::MAX, u64::MAX).key(), u128::MAX);
    assert_eq!(DevIno::new(3, 4), DevIno::new(3, 4));
    assert_ne!(DevIno::new(3, 4), DevIno::new(4, 3));
}
