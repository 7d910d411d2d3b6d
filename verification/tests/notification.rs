use hoards::notification::{Notification, NotificationLevel};

#[test]
fn dismiss_times_by_level() {
    let i = Notification::info("saved");
    assert_eq!(i.text, "saved");
    assert_eq!(i.level, NotificationLevel::Info);
    assert_eq!(i.dismiss_secs(), 3);
    assert_eq!(Notification::warning("w").dismiss_secs(), 5);
    let e = Notification::error("boom");
    assert_eq!(e.dismiss_secs(), 8);
    assert_eq!(e.dismiss_duration(), std::time::Duration::from_secs(8));
    assert!(!e.should_dismiss_after(7999));
    assert!(e.should_dismiss_after(8000));
    assert!(!e.should_dismiss());
}
