use eagl_surface::lifecycle::{map_notification, must_release_resources};
use eagl_surface::{HostNotification, LifecycleEvent, LifecycleEventMapper};

#[test]
fn each_notification_maps_to_its_event() {
    assert_eq!(map_notification(HostNotification::DidBecomeActive), LifecycleEvent::Focused(true));
    assert_eq!(map_notification(HostNotification::WillResignActive), LifecycleEvent::Focused(false));
    assert_eq!(map_notification(HostNotification::DidEnterBackground), LifecycleEvent::Suspended(true));
    assert_eq!(map_notification(HostNotification::WillEnterForeground), LifecycleEvent::Suspended(false));
    assert_eq!(map_notification(HostNotification::WillTerminate), LifecycleEvent::Closed);
}

#[test]
fn the_five_events_are_distinct() {
    let all = [
        HostNotification::DidBecomeActive,
        HostNotification::WillResignActive,
        HostNotification::DidEnterBackground,
        HostNotification::WillEnterForeground,
        HostNotification::WillTerminate,
    ];
    for (i, a) in all.iter().enumerate() {
        for (j, b) in all.iter().enumerate() {
            assert_eq!(map_notification(*a) == map_notification(*b), i == j);
        }
    }
}

#[test]
fn active_to_terminate_sequence() {
    let mut mapper = LifecycleEventMapper::new();
    let events = mapper.notify_all(&vec![
        HostNotification::DidBecomeActive,
        HostNotification::WillResignActive,
        HostNotification::DidEnterBackground,
        HostNotification::WillTerminate,
    ]);
    assert_eq!(
        events,
        vec![
            LifecycleEvent::Focused(true),
            LifecycleEvent::Focused(false),
            LifecycleEvent::Suspended(true),
            LifecycleEvent::Closed,
        ]
    );
    assert!(mapper.closed());
}

#[test]
fn one_at_a_time_gives_the_same_events() {
    let mut mapper = LifecycleEventMapper::new();
    assert_eq!(mapper.notify(HostNotification::DidBecomeActive), Some(LifecycleEvent::Focused(true)));
    assert_eq!(mapper.notify(HostNotification::WillResignActive), Some(LifecycleEvent::Focused(false)));
    assert_eq!(mapper.notify(HostNotification::DidEnterBackground), Some(LifecycleEvent::Suspended(true)));
    assert_eq!(mapper.notify(HostNotification::WillEnterForeground), Some(LifecycleEvent::Suspended(false)));
    assert!(!mapper.closed());
    assert_eq!(mapper.notify(HostNotification::WillTerminate), Some(LifecycleEvent::Closed));
    assert!(mapper.closed());
}

#[test]
fn nothing_is_emitted_after_closed() {
    let mut mapper = LifecycleEventMapper::new();
    let events = mapper.notify_all(&vec![
        HostNotification::WillTerminate,
        HostNotification::DidBecomeActive,
        HostNotification::WillTerminate,
    ]);
    assert_eq!(events, vec![LifecycleEvent::Closed]);
    assert_eq!(mapper.notify(HostNotification::DidEnterBackground), None);
    assert_eq!(mapper.notify(HostNotification::WillTerminate), None);
    assert_eq!(mapper.notify_all(&vec![HostNotification::DidBecomeActive]), vec![]);
    assert!(mapper.closed());
}

#[test]
fn focus_and_suspension_may_toggle() {
    let mut mapper = LifecycleEventMapper::new();
    let events = mapper.notify_all(&vec![
        HostNotification::DidEnterBackground,
        HostNotification::WillEnterForeground,
        HostNotification::DidEnterBackground,
    ]);
    assert_eq!(
        events,
        vec![
            LifecycleEvent::Suspended(true),
            LifecycleEvent::Suspended(false),
            LifecycleEvent::Suspended(true),
        ]
    );
    assert!(!mapper.closed());
    assert!(mapper.may_draw());
}

#[test]
fn empty_run_emits_nothing() {
    let mut mapper = LifecycleEventMapper::new();
    assert_eq!(mapper.notify_all(&vec![]), vec![]);
    assert!(!mapper.closed());
}

#[test]
fn drawing_guard_drops_on_closed() {
    let mut mapper = LifecycleEventMapper::new();
    assert!(mapper.may_draw());
    mapper.notify(HostNotification::DidEnterBackground);
    assert!(mapper.may_draw());
    mapper.notify(HostNotification::WillTerminate);
    assert!(!mapper.may_draw());
}

#[test]
fn resources_go_on_suspension_only() {
    assert!(must_release_resources(LifecycleEvent::Suspended(true)));
    assert!(!must_release_resources(LifecycleEvent::Suspended(false)));
    assert!(!must_release_resources(LifecycleEvent::Focused(true)));
    assert!(!must_release_resources(LifecycleEvent::Focused(false)));
    assert!(!must_release_resources(LifecycleEvent::Closed));
}
