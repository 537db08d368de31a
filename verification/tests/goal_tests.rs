use night_fishing::goal::{goal_progress_for, goal_toast_for, GoalToast, TOAST_DISPLAY_NS, TOAST_FADE_NS};

#[test]
fn targets_give_progress_toasts() {
    assert_eq!(goal_toast_for("target1").unwrap(), "Progress: [█░░] 1/3 Logs Restored");
    assert_eq!(goal_toast_for("target2").unwrap(), "Progress: [██░] 2/3 Logs Restored");
    assert_eq!(goal_toast_for("target3").unwrap(), "Progress: [███] 3/3 Logs Restored");
    assert_eq!(goal_toast_for("kai"), None);
    assert_eq!(goal_progress_for("target2"), Some((2, "[██░]")));
}

#[test]
fn toast_expires_once() {
    let mut t = GoalToast::default();
    assert!(!t.tick(TOAST_DISPLAY_NS));
    assert!(t.tick(TOAST_FADE_NS));
    assert!(!t.tick(1));
}
