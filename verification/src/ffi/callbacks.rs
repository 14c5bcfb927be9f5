//! Callback registration for the pclsync C library.
//!
//! The library calls plain C functions (trampolines); each trampoline looks up
//! the Rust callback registered for its slot and invokes it. This module keeps
//! that registry: one optional callback per slot (status change, file event,
//! notification, filesystem start). Registering replaces a slot's callback,
//! clearing empties it, and a `CallbackConfig` registers the callbacks it was
//! given and leaves the other slots as they were.
//!
//! The process-wide registry, its lock, and the trampolines themselves live
//! with the caller; this module holds the rules they follow.
use vstd::prelude::*;

pub mod overlay;

verus! {

/// The registered library callbacks, one optional callback per slot.
pub struct CallbackRegistry<S, E, N, G> {
    /// Status change callback.
    pub status: Option<S>,
    /// File/folder event callback.
    pub event: Option<E>,
    /// Notification callback.
    pub notification: Option<N>,
    /// Filesystem start callback.
    pub fs_start: Option<G>,
}

impl<S, E, N, G> CallbackRegistry<S, E, N, G> {
    /// A registry with no callbacks.
    pub fn new() -> (r: Self)
        ensures
            r.status is None,
            r.event is None,
            r.notification is None,
            r.fs_start is None,
    {
        CallbackRegistry { status: None, event: None, notification: None, fs_start: None }
    }
}

/// Register a status change callback, replacing the previous one.
pub fn register_status_callback<S, E, N, G>(reg: &mut CallbackRegistry<S, E, N, G>, callback: S)
    ensures
        final(reg).status == Some(callback),
        final(reg).event == old(reg).event,
        final(reg).notification == old(reg).notification,
        final(reg).fs_start == old(reg).fs_start,
{
    reg.status = Some(callback);
}

/// Register an event callback, replacing the previous one.
pub fn register_event_callback<S, E, N, G>(reg: &mut CallbackRegistry<S, E, N, G>, callback: E)
    ensures
        final(reg).event == Some(callback),
        final(reg).status == old(reg).status,
        final(reg).notification == old(reg).notification,
        final(reg).fs_start == old(reg).fs_start,
{
    reg.event = Some(callback);
}

/// Register a notification callback, replacing the previous one.
pub fn register_notification_callback<S, E, N, G>(reg: &mut CallbackRegistry<S, E, N, G>, callback: N)
    ensures
        final(reg).notification == Some(callback),
        final(reg).status == old(reg).status,
        final(reg).event == old(reg).event,
        final(reg).fs_start == old(reg).fs_start,
{
    reg.notification = Some(callback);
}

/// Register a filesystem start callback, replacing the previous one.
pub fn register_fs_start_callback<S, E, N, G>(reg: &mut CallbackRegistry<S, E, N, G>, callback: G)
    ensures
        final(reg).fs_start == Some(callback),
        final(reg).status == old(reg).status,
        final(reg).event == old(reg).event,
        final(reg).notification == old(reg).notification,
{
    reg.fs_start = Some(callback);
}

/// Clear the registered status callback.
pub fn clear_status_callback<S, E, N, G>(reg: &mut CallbackRegistry<S, E, N, G>)
    ensures
        final(reg).status is None,
        final(reg).event == old(reg).event,
        final(reg).notification == old(reg).notification,
        final(reg).fs_start == old(reg).fs_start,
{
    reg.status = None;
}

/// Clear the registered event callback.
pub fn clear_event_callback<S, E, N, G>(reg: &mut CallbackRegistry<S, E, N, G>)
    ensures
        final(reg).event is None,
        final(reg).status == old(reg).status,
        final(reg).notification == old(reg).notification,
        final(reg).fs_start == old(reg).fs_start,
{
    reg.event = None;
}

/// Clear the registered notification callback.
pub fn clear_notification_callback<S, E, N, G>(reg: &mut CallbackRegistry<S, E, N, G>)
    ensures
        final(reg).notification is None,
        final(reg).status == old(reg).status,
        final(reg).event == old(reg).event,
        final(reg).fs_start == old(reg).fs_start,
{
    reg.notification = None;
}

/// Clear the registered filesystem start callback.
pub fn clear_fs_start_callback<S, E, N, G>(reg: &mut CallbackRegistry<S, E, N, G>)
    ensures
        final(reg).fs_start is None,
        final(reg).status == old(reg).status,
        final(reg).event == old(reg).event,
        final(reg).notification == old(reg).notification,
{
    reg.fs_start = None;
}

/// Clear all registered callbacks.
pub fn clear_all_callbacks<S, E, N, G>(reg: &mut CallbackRegistry<S, E, N, G>)
    ensures
        final(reg).status is None,
        final(reg).event is None,
        final(reg).notification is None,
        final(reg).fs_start is None,
{
    clear_status_callback(reg);
    clear_event_callback(reg);
    clear_notification_callback(reg);
    clear_fs_start_callback(reg);
}

/// A set of callbacks to register together.
pub struct CallbackConfig<S, E, N, G> {
    pub status_callback: Option<S>,
    pub event_callback: Option<E>,
    pub notification_callback: Option<N>,
    pub fs_start_callback: Option<G>,
}

/// The slot after registering `given` over `current`: a given callback
/// replaces the slot's, an absent one leaves it.
pub open spec fn slot_after<F>(current: Option<F>, given: Option<F>) -> Option<F> {
    match given {
        Some(f) => Some(f),
        None => current,
    }
}

impl<S, E, N, G> CallbackConfig<S, E, N, G> {
    /// An empty configuration.
    pub fn new() -> (r: Self)
        ensures
            r.status_callback is None,
            r.event_callback is None,
            r.notification_callback is None,
            r.fs_start_callback is None,
    {
        CallbackConfig {
            status_callback: None,
            event_callback: None,
            notification_callback: None,
            fs_start_callback: None,
        }
    }

    /// Set the status change callback.
    pub fn with_status_callback(self, callback: S) -> (r: Self)
        ensures
            r.status_callback == Some(callback),
            r.event_callback == self.event_callback,
            r.notification_callback == self.notification_callback,
            r.fs_start_callback == self.fs_start_callback,
    {
        CallbackConfig { status_callback: Some(callback), ..self }
    }

    /// Set the event callback.
    pub fn with_event_callback(self, callback: E) -> (r: Self)
        ensures
            r.event_callback == Some(callback),
            r.status_callback == self.status_callback,
            r.notification_callback == self.notification_callback,
            r.fs_start_callback == self.fs_start_callback,
    {
        CallbackConfig { event_callback: Some(callback), ..self }
    }

    /// Set the notification callback.
    pub fn with_notification_callback(self, callback: N) -> (r: Self)
        ensures
            r.notification_callback == Some(callback),
            r.status_callback == self.status_callback,
            r.event_callback == self.event_callback,
            r.fs_start_callback == self.fs_start_callback,
    {
        CallbackConfig { notification_callback: Some(callback), ..self }
    }

    /// Set the filesystem start callback.
    pub fn with_fs_start_callback(self, callback: G) -> (r: Self)
        ensures
            r.fs_start_callback == Some(callback),
            r.status_callback == self.status_callback,
            r.event_callback == self.event_callback,
            r.notification_callback == self.notification_callback,
    {
        CallbackConfig { fs_start_callback: Some(callback), ..self }
    }

    /// Register every configured callback (slots without one keep theirs)
    /// and return the entry points to hand to the engine: the one given in
    /// `entry_points` for each configured callback, and none for the others.
    pub fn register<PS, PE, PN, PG>(
        self,
        reg: &mut CallbackRegistry<S, E, N, G>,
        entry_points: (PS, PE, PN, PG),
    ) -> (r: CallbackPointers<PS, PE, PN, PG>)
        ensures
            final(reg).status == slot_after(old(reg).status, self.status_callback),
            final(reg).event == slot_after(old(reg).event, self.event_callback),
            final(reg).notification == slot_after(
                old(reg).notification,
                self.notification_callback,
            ),
            final(reg).fs_start == slot_after(old(reg).fs_start, self.fs_start_callback),
            r.status == (if self.status_callback is Some {
                Some(entry_points.0)
            } else {
                None
            }),
            r.event == (if self.event_callback is Some {
                Some(entry_points.1)
            } else {
                None
            }),
            r.notification == (if self.notification_callback is Some {
                Some(entry_points.2)
            } else {
                None
            }),
            r.fs_start == (if self.fs_start_callback is Some {
                Some(entry_points.3)
            } else {
                None
            }),
    {
        let (ps, pe, pn, pg) = entry_points;
        let status = match self.status_callback {
            Some(callback) => {
                register_status_callback(reg, callback);
                Some(ps)
            },
            None => None,
        };
        let event = match self.event_callback {
            Some(callback) => {
                register_event_callback(reg, callback);
                Some(pe)
            },
            None => None,
        };
        let notification = match self.notification_callback {
            Some(callback) => {
                register_notification_callback(reg, callback);
                Some(pn)
            },
            None => None,
        };
        let fs_start = match self.fs_start_callback {
            Some(callback) => {
                register_fs_start_callback(reg, callback);
                Some(pg)
            },
            None => None,
        };
        CallbackPointers { status, event, notification, fs_start }
    }
}

/// The C function pointers handed to pclsync, one per slot (absent: no
/// callback).
#[derive(Debug, Clone, Copy)]
pub struct CallbackPointers<S, E, N, G> {
    /// Status change callback function pointer.
    pub status: Option<S>,
    /// Event callback function pointer.
    pub event: Option<E>,
    /// Notification callback function pointer.
    pub notification: Option<N>,
    /// Filesystem start callback function pointer.
    pub fs_start: Option<G>,
}

impl<S, E, N, G> Default for CallbackPointers<S, E, N, G> {
    fn default() -> (r: Self)
        ensures
            r.status is None,
            r.event is None,
            r.notification is None,
            r.fs_start is None,
    {
        CallbackPointers { status: None, event: None, notification: None, fs_start: None }
    }
}

} // verus!
