use fjarsyn::notification::{
    Notification, NotificationKind, NotificationProvider, ERROR_DEFAULT_DURATION,
    INFO_DEFAULT_DURATION, SUCCESS_DEFAULT_DURATION,
};

const SECOND: u64 = 1_000_000_000;

#[test]
fn default_durations() {
    assert_eq!(INFO_DEFAULT_DURATION, 7 * SECOND);
    assert_eq!(ERROR_DEFAULT_DURATION, 10 * SECOND);
    assert_eq!(SUCCESS_DEFAULT_DURATION, 5 * SECOND);
}

#[test]
fn new_notification_takes_the_duration_of_its_kind() {
    let info = Notification::new(1, "i".to_owned(), NotificationKind::Info, 100);
    assert_eq!(info.id, 1);
    assert_eq!(info.message, "i");
    assert_eq!(info.kind, NotificationKind::Info);
    assert_eq!(info.created_at, 100);
    assert_eq!(info.duration, 7 * SECOND);
    assert_eq!(Notification::new(2, "e".to_owned(), NotificationKind::Error, 0).duration, 10 * SECOND);
    assert_eq!(
        Notification::new(3, "s".to_owned(), NotificationKind::Success, 0).duration,
        5 * SECOND
    );
}

#[test]
fn notification_expires_strictly_after_its_duration() {
    let n = Notification::new(1, "x".to_owned(), NotificationKind::Success, 1_000);
    assert!(!n.expired(1_000));
    assert!(!n.expired(1_000 + 5 * SECOND));
    assert!(n.expired(1_001 + 5 * SECOND));
}

#[test]
fn notification_from_the_future_has_not_expired() {
    let n = Notification::new(1, "x".to_owned(), NotificationKind::Success, 10 * SECOND);
    assert!(!n.expired(0));
    assert!(!n.expired(9 * SECOND));
}

#[test]
fn notification_at_the_end_of_time_does_not_overflow() {
    let n = Notification::new(1, "x".to_owned(), NotificationKind::Error, u64::MAX);
    assert!(!n.expired(u64::MAX));
    let n = Notification::new(1, "x".to_owned(), NotificationKind::Error, 0);
    assert!(n.expired(u64::MAX));
}

#[test]
fn clone_of_a_notification_is_equal() {
    let n = Notification::new(4, "msg".to_owned(), NotificationKind::Info, 9);
    let copy = n.clone();
    assert_eq!(copy.id, 4);
    assert_eq!(copy.message, "msg");
    assert_eq!(copy.kind, NotificationKind::Info);
    assert_eq!(copy.created_at, 9);
    assert_eq!(copy.duration, n.duration);
}

#[test]
fn provider_starts_empty() {
    let provider = NotificationProvider::new();
    assert_eq!(provider.len(), 0);
    assert!(provider.get(0).is_none());
}

#[test]
fn provider_numbers_notifications_from_zero() {
    let mut provider = NotificationProvider::new();
    provider.error("bad".to_owned(), 10);
    provider.info("fyi".to_owned(), 20);
    provider.success("done".to_owned(), 30);
    assert_eq!(provider.len(), 3);
    let error = provider.get(0).unwrap();
    assert_eq!((error.id, error.kind, error.created_at), (0, NotificationKind::Error, 10));
    assert_eq!(error.message, "bad");
    assert_eq!(error.duration, 10 * SECOND);
    let info = provider.get(1).unwrap();
    assert_eq!((info.id, info.kind, info.created_at), (1, NotificationKind::Info, 20));
    assert_eq!(info.message, "fyi");
    assert_eq!(info.duration, 7 * SECOND);
    let success = provider.get(2).unwrap();
    assert_eq!((success.id, success.kind, success.created_at), (2, NotificationKind::Success, 30));
    assert_eq!(success.message, "done");
    assert_eq!(success.duration, 5 * SECOND);
    assert!(provider.get(3).is_none());
}

#[test]
fn dismiss_removes_one_notification() {
    let mut provider = NotificationProvider::new();
    provider.info("a".to_owned(), 0);
    provider.info("b".to_owned(), 0);
    provider.dismiss(0);
    assert_eq!(provider.len(), 1);
    assert!(provider.get(0).is_none());
    assert_eq!(provider.get(1).unwrap().message, "b");
    provider.dismiss(7);
    assert_eq!(provider.len(), 1);
}

#[test]
fn dismissed_identifiers_are_not_reused() {
    let mut provider = NotificationProvider::new();
    provider.info("a".to_owned(), 0);
    provider.dismiss(0);
    provider.info("b".to_owned(), 0);
    assert!(provider.get(0).is_none());
    assert_eq!(provider.get(1).unwrap().message, "b");
}

#[test]
fn dismiss_expired_removes_exactly_the_expired() {
    let mut provider = NotificationProvider::new();
    provider.success("five".to_owned(), 0);
    provider.info("seven".to_owned(), 0);
    provider.error("ten".to_owned(), 0);
    provider.dismiss_expired(5 * SECOND);
    assert_eq!(provider.len(), 3);
    provider.dismiss_expired(5 * SECOND + 1);
    assert_eq!(provider.len(), 2);
    assert!(provider.get(0).is_none());
    provider.dismiss_expired(10 * SECOND);
    assert_eq!(provider.len(), 1);
    assert_eq!(provider.get(2).unwrap().message, "ten");
    provider.dismiss_expired(10 * SECOND + 1);
    assert_eq!(provider.len(), 0);
}

#[test]
fn dismiss_expired_keeps_everything_when_nothing_expired() {
    let mut provider = NotificationProvider::new();
    provider.info("a".to_owned(), 100);
    provider.error("b".to_owned(), 200);
    provider.dismiss_expired(150);
    assert_eq!(provider.len(), 2);
    assert_eq!(provider.get(0).unwrap().message, "a");
    assert_eq!(provider.get(1).unwrap().message, "b");
}

#[test]
fn on_show_is_the_opposite_of_expired() {
    let n = Notification::new(1, "x".to_owned(), NotificationKind::Info, 0);
    for now in [0, 7 * SECOND, 7 * SECOND + 1, u64::MAX] {
        assert_eq!(n.on_show(now), !n.expired(now));
    }
    assert!(n.on_show(7 * SECOND));
    assert!(!n.on_show(7 * SECOND + 1));
}

#[test]
fn every_new_notification_grows_the_count_by_one_and_replaces_nothing() {
    let mut provider = NotificationProvider::new();
    for n in 0..50u64 {
        let before = provider.len();
        match n % 3 {
            0 => provider.error(format!("e{}", n), n),
            1 => provider.info(format!("i{}", n), n),
            _ => provider.success(format!("s{}", n), n),
        }
        assert_eq!(provider.len(), before + 1);
        let new = provider.get(n).unwrap();
        assert_eq!(new.id, n);
        for earlier in 0..n {
            let kept = provider.get(earlier).unwrap();
            assert_eq!(kept.id, earlier);
            assert_eq!(kept.created_at, earlier);
        }
    }
}

#[test]
fn identifiers_stay_new_after_dismissals() {
    let mut provider = NotificationProvider::new();
    provider.info("a".to_owned(), 0);
    provider.error("b".to_owned(), 0);
    provider.dismiss(1);
    provider.dismiss_expired(8_000_000_000);
    assert_eq!(provider.len(), 0);
    provider.success("c".to_owned(), 9_000_000_000);
    assert_eq!(provider.len(), 1);
    assert!(provider.get(0).is_none());
    assert!(provider.get(1).is_none());
    assert_eq!(provider.get(2).unwrap().message, "c");
}
