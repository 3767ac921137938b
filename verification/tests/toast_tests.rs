use rpg_ui::toast::{
    expired_after, toast_slots, Toast, ToastQueue, ToastSlot, ToastType, MAX_TOASTS, TOAST_HEIGHT,
};

#[test]
fn toast_icons_and_labels() {
    assert_eq!(ToastType::Error.icon(), "[!]");
    assert_eq!(ToastType::Success.icon(), "[+]");
    assert_eq!(ToastType::Info.icon(), "[i]");
    assert_eq!(ToastType::Error.label(), "ERROR");
    assert_eq!(ToastType::Success.label(), "SUCCESS");
    assert_eq!(ToastType::Info.label(), "INFO");
}

#[test]
fn toast_expires_after_three_seconds() {
    assert!(!expired_after(0));
    assert!(!expired_after(2));
    assert!(expired_after(3));
    assert!(expired_after(100));
}

#[test]
fn new_toast_is_not_expired() {
    let t = Toast::new(ToastType::Info, String::from("hi"));
    assert_eq!(t.toast_type, ToastType::Info);
    assert_eq!(t.message, "hi");
    assert!(!t.is_expired());
}

#[test]
fn queue_starts_empty() {
    let q = ToastQueue::default();
    assert!(q.toasts().is_empty());
}

#[test]
fn push_puts_newest_first() {
    let mut q = ToastQueue::default();
    q.info(String::from("one"));
    q.success(String::from("two"));
    q.error(String::from("three"));
    let msgs: Vec<&str> = q.toasts().iter().map(|t| t.message.as_str()).collect();
    assert_eq!(msgs, vec!["three", "two", "one"]);
    assert_eq!(q.toasts()[0].toast_type, ToastType::Error);
    assert_eq!(q.toasts()[1].toast_type, ToastType::Success);
    assert_eq!(q.toasts()[2].toast_type, ToastType::Info);
}

#[test]
fn queue_keeps_at_most_five_dropping_the_oldest() {
    let mut q = ToastQueue::default();
    for i in 0..7 {
        q.push(Toast::new(ToastType::Info, i.to_string()));
    }
    assert_eq!(q.toasts().len(), MAX_TOASTS);
    let msgs: Vec<&str> = q.toasts().iter().map(|t| t.message.as_str()).collect();
    assert_eq!(msgs, vec!["6", "5", "4", "3", "2"]);
}

#[test]
fn cleanup_keeps_fresh_toasts() {
    let mut q = ToastQueue::default();
    q.info(String::from("a"));
    q.info(String::from("b"));
    q.cleanup();
    assert_eq!(q.toasts().len(), 2);
}

#[test]
fn discard_expired_removes_flagged_toasts_in_order() {
    let mut q = ToastQueue::default();
    q.info(String::from("a"));
    q.info(String::from("b"));
    q.info(String::from("c"));
    // order is c, b, a
    q.discard_expired(&vec![false, true, false]);
    let msgs: Vec<&str> = q.toasts().iter().map(|t| t.message.as_str()).collect();
    assert_eq!(msgs, vec!["c", "a"]);
    q.discard_expired(&vec![true, true]);
    assert!(q.toasts().is_empty());
}

#[test]
fn toast_slots_stack_down_the_right_edge() {
    let slots = toast_slots(100, 40, 3);
    assert_eq!(
        slots,
        vec![
            ToastSlot { x: 63, y: 1, width: 35, height: 3 },
            ToastSlot { x: 63, y: 5, width: 35, height: 3 },
            ToastSlot { x: 63, y: 9, width: 35, height: 3 },
        ]
    );
}

#[test]
fn toast_slots_stop_at_the_bottom_edge() {
    let slots = toast_slots(20, 8, 5);
    assert_eq!(slots.len(), 2);
    assert_eq!(slots[0], ToastSlot { x: 0, y: 1, width: 35, height: 3 });
    assert_eq!(slots[1], ToastSlot { x: 0, y: 5, width: 35, height: 3 });
    assert!(toast_slots(80, 3, 5).is_empty());
    assert!(toast_slots(80, 24, 0).is_empty());
}

#[test]
fn toast_slots_law_no_overlap_and_inside() {
    let slots = toast_slots(120, 30, 5);
    for w in slots.windows(2) {
        assert!(w[0].y + TOAST_HEIGHT < w[1].y);
    }
    for s in &slots {
        assert!(s.y + s.height <= 30);
    }
}
