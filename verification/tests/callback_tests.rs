use console_client::ffi::callbacks::overlay::{
    clear_all_overlay_callbacks, invoke_crypto_start_callback, invoke_crypto_stop_callback,
    invoke_finalize_callback, invoke_list_callback, register_crypto_start_callback,
    register_crypto_stop_callback, OverlayCallbackConfig, OverlayRegistry,
};
use console_client::ffi::callbacks::{
    clear_all_callbacks, clear_event_callback, clear_notification_callback, clear_status_callback,
    register_event_callback, register_fs_start_callback, register_notification_callback,
    register_status_callback, CallbackConfig, CallbackPointers, CallbackRegistry,
};
use console_client::ffi::events::format_hms;
use std::sync::atomic::{AtomicBool, AtomicU32, Ordering};
use std::sync::Arc;

type Cb = Box<dyn Fn() + Send + 'static>;
type StatusCb = Box<dyn Fn(u32) + Send + 'static>;
type EventCb = Box<dyn Fn(u32, u64) + Send + 'static>;
type NotifyCb = Box<dyn Fn(u32, u32) + Send + 'static>;
type Registry = CallbackRegistry<StatusCb, EventCb, NotifyCb, Cb>;

#[test]
fn test_overlay_callback_registration_and_invocation() {
    let called = Arc::new(AtomicBool::new(false));
    let called_clone = Arc::clone(&called);
    let mut reg: OverlayRegistry<Cb> = OverlayRegistry::new();

    register_crypto_start_callback(&mut reg, Box::new(move || {
        called_clone.store(true, Ordering::SeqCst);
    }));
    assert!(invoke_crypto_start_callback(&reg));
    assert!(called.load(Ordering::SeqCst));

    clear_all_overlay_callbacks(&mut reg);
    assert!(!invoke_crypto_start_callback(&reg));
}

#[test]
fn test_overlay_config_builder() {
    let start_called = Arc::new(AtomicBool::new(false));
    let stop_called = Arc::new(AtomicBool::new(false));
    let start_clone = Arc::clone(&start_called);
    let stop_clone = Arc::clone(&stop_called);
    let mut reg: OverlayRegistry<Cb> = OverlayRegistry::new();

    OverlayCallbackConfig::new()
        .with_crypto_start_callback(Box::new(move || {
            start_clone.store(true, Ordering::SeqCst);
        }) as Cb)
        .with_crypto_stop_callback(Box::new(move || {
            stop_clone.store(true, Ordering::SeqCst);
        }))
        .register(&mut reg);

    invoke_crypto_start_callback(&reg);
    invoke_crypto_stop_callback(&reg);
    assert!(start_called.load(Ordering::SeqCst));
    assert!(stop_called.load(Ordering::SeqCst));
    assert!(!invoke_finalize_callback(&reg));
    assert!(!invoke_list_callback(&reg));

    clear_all_overlay_callbacks(&mut reg);
}

#[test]
fn test_overlay_callbacks_accessible() {
    let mut reg: OverlayRegistry<Cb> = OverlayRegistry::new();
    register_crypto_start_callback(&mut reg, Box::new(|| {}));
    register_crypto_stop_callback(&mut reg, Box::new(|| {}));
    invoke_crypto_start_callback(&reg);
    invoke_crypto_stop_callback(&reg);
    clear_all_overlay_callbacks(&mut reg);
    let _config: OverlayCallbackConfig<Cb> = OverlayCallbackConfig::new();
}

#[test]
fn test_status_callback_registration() {
    let called = Arc::new(AtomicBool::new(false));
    let called_clone = Arc::clone(&called);
    let mut reg: Registry = CallbackRegistry::new();

    register_status_callback(&mut reg, Box::new(move |_status| {
        called_clone.store(true, Ordering::SeqCst);
    }));
    assert!(reg.status.is_some());

    clear_status_callback(&mut reg);
    assert!(reg.status.is_none());
}

#[test]
fn test_event_callback_registration() {
    let called = Arc::new(AtomicBool::new(false));
    let called_clone = Arc::clone(&called);
    let mut reg: Registry = CallbackRegistry::new();

    register_event_callback(&mut reg, Box::new(move |_event_type, _event_data| {
        called_clone.store(true, Ordering::SeqCst);
    }));
    assert!(reg.event.is_some());

    clear_event_callback(&mut reg);
    assert!(reg.event.is_none());
}

#[test]
fn test_notification_callback_registration() {
    let count = Arc::new(AtomicU32::new(0));
    let count_clone = Arc::clone(&count);
    let mut reg: Registry = CallbackRegistry::new();

    register_notification_callback(&mut reg, Box::new(move |total, _new| {
        count_clone.store(total, Ordering::SeqCst);
    }));
    assert!(reg.notification.is_some());
    (reg.notification.as_ref().unwrap())(7, 1);
    assert_eq!(count.load(Ordering::SeqCst), 7);

    clear_notification_callback(&mut reg);
}

#[test]
fn test_clear_all_callbacks() {
    let mut reg: Registry = CallbackRegistry::new();
    register_status_callback(&mut reg, Box::new(|_| {}));
    register_event_callback(&mut reg, Box::new(|_, _| {}));
    register_notification_callback(&mut reg, Box::new(|_, _| {}));
    register_fs_start_callback(&mut reg, Box::new(|| {}));

    assert!(reg.status.is_some());
    assert!(reg.event.is_some());
    assert!(reg.notification.is_some());
    assert!(reg.fs_start.is_some());

    clear_all_callbacks(&mut reg);

    assert!(reg.status.is_none());
    assert!(reg.event.is_none());
    assert!(reg.notification.is_none());
    assert!(reg.fs_start.is_none());
}

#[test]
fn test_callback_config_builder() {
    let status_called = Arc::new(AtomicBool::new(false));
    let event_called = Arc::new(AtomicBool::new(false));
    let status_clone = Arc::clone(&status_called);
    let event_clone = Arc::clone(&event_called);
    let mut reg: Registry = CallbackRegistry::new();
    register_fs_start_callback(&mut reg, Box::new(|| {}));

    let status_cb: StatusCb = Box::new(move |_| {
        status_clone.store(true, Ordering::SeqCst);
    });
    let event_cb: EventCb = Box::new(move |_, _| {
        event_clone.store(true, Ordering::SeqCst);
    });
    let config = CallbackConfig::<StatusCb, EventCb, NotifyCb, Cb>::new()
        .with_status_callback(status_cb)
        .with_event_callback(event_cb);
    let pointers = config.register(&mut reg, ("status", "event", "notification", "fs_start"));

    assert_eq!(pointers.status, Some("status"));
    assert_eq!(pointers.event, Some("event"));
    assert_eq!(pointers.notification, None);
    assert_eq!(pointers.fs_start, None);
    assert!(reg.status.is_some());
    assert!(reg.event.is_some());
    assert!(reg.notification.is_none());
    // A slot the configuration does not set keeps its callback.
    assert!(reg.fs_start.is_some());

    clear_all_callbacks(&mut reg);
}

#[test]
fn test_callback_pointers_default() {
    let pointers: CallbackPointers<fn(), fn(), fn(u32, u32), fn()> = CallbackPointers::default();
    assert!(pointers.status.is_none());
    assert!(pointers.event.is_none());
    assert!(pointers.notification.is_none());
    assert!(pointers.fs_start.is_none());
}

#[test]
fn test_callback_types_accessible() {
    let pointers: CallbackPointers<fn(), fn(), fn(u32, u32), fn()> = CallbackPointers::default();
    assert!(pointers.status.is_none());
    assert!(pointers.event.is_none());
    let _config: CallbackConfig<StatusCb, EventCb, NotifyCb, Cb> = CallbackConfig::new();
}

#[test]
fn test_callback_registration_functions() {
    let mut reg: Registry = CallbackRegistry::new();
    register_status_callback(&mut reg, Box::new(|_status| {}));
    register_event_callback(&mut reg, Box::new(|_event_type, _event_data| {}));
    clear_status_callback(&mut reg);
    clear_event_callback(&mut reg);
    clear_all_callbacks(&mut reg);
    assert!(reg.status.is_none() && reg.event.is_none());
}

#[test]
fn activity_timestamps_are_hms() {
    assert_eq!(format_hms(0), "00:00:00");
    assert_eq!(format_hms(3661), "01:01:01");
    assert_eq!(format_hms(86399), "23:59:59");
    assert_eq!(format_hms(86400 + 45296), "12:34:56");
}

#[test]
fn every_builder_slot_reaches_the_registry() {
    let count = Arc::new(AtomicU32::new(0));
    let (c1, c2) = (Arc::clone(&count), Arc::clone(&count));
    let mut overlay: OverlayRegistry<Cb> = OverlayRegistry::new();
    OverlayCallbackConfig::new()
        .with_finalize_callback(Box::new(move || {
            c1.fetch_add(1, Ordering::SeqCst);
        }) as Cb)
        .with_list_callback(Box::new(move || {
            c2.fetch_add(10, Ordering::SeqCst);
        }))
        .register(&mut overlay);
    assert!(invoke_finalize_callback(&overlay));
    assert!(invoke_list_callback(&overlay));
    assert!(!invoke_crypto_start_callback(&overlay));
    assert_eq!(count.load(Ordering::SeqCst), 11);

    let mut reg: Registry = CallbackRegistry::new();
    let notify_cb: NotifyCb = Box::new(|_, _| {});
    let fs_cb: Cb = Box::new(|| {});
    let pointers = CallbackConfig::new()
        .with_notification_callback(notify_cb)
        .with_fs_start_callback(fs_cb)
        .register(&mut reg, (1u8, 2u8, 3u8, 4u8));
    assert_eq!(
        (pointers.status, pointers.event, pointers.notification, pointers.fs_start),
        (None, None, Some(3), Some(4))
    );
    assert!(reg.notification.is_some());
    assert!(reg.fs_start.is_some());
    assert!(reg.status.is_none());
    assert!(reg.event.is_none());
}
