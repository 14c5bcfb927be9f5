//! Application-level overlay callbacks for interactive mode.
//!
//! These are not C library callbacks but the application's own hooks for the
//! interactive command loop (crypto start/stop, finalize, list). Each slot
//! holds at most one callback; invoking a slot calls its callback if one is
//! registered and does nothing otherwise.
use vstd::prelude::*;

verus! {

/// The registered overlay callbacks.
pub struct OverlayRegistry<F> {
    /// Called when crypto is successfully started (unlocked).
    pub crypto_start: Option<F>,
    /// Called when crypto is successfully stopped (locked).
    pub crypto_stop: Option<F>,
    /// Called when the finalize command is executed.
    pub finalize: Option<F>,
    /// Called when the list command is executed.
    pub list: Option<F>,
}

impl<F> OverlayRegistry<F> {
    /// A registry with no callbacks.
    pub fn new() -> (r: Self)
        ensures
            r.crypto_start is None,
            r.crypto_stop is None,
            r.finalize is None,
            r.list is None,
    {
        OverlayRegistry { crypto_start: None, crypto_stop: None, finalize: None, list: None }
    }
}

/// Register a callback for crypto start events.
pub fn register_crypto_start_callback<F>(reg: &mut OverlayRegistry<F>, callback: F)
    ensures
        final(reg).crypto_start == Some(callback),
        final(reg).crypto_stop == old(reg).crypto_stop,
        final(reg).finalize == old(reg).finalize,
        final(reg).list == old(reg).list,
{
    reg.crypto_start = Some(callback);
}

/// Register a callback for crypto stop events.
pub fn register_crypto_stop_callback<F>(reg: &mut OverlayRegistry<F>, callback: F)
    ensures
        final(reg).crypto_stop == Some(callback),
        final(reg).crypto_start == old(reg).crypto_start,
        final(reg).finalize == old(reg).finalize,
        final(reg).list == old(reg).list,
{
    reg.crypto_stop = Some(callback);
}

/// Register a callback for finalize events.
pub fn register_finalize_callback<F>(reg: &mut OverlayRegistry<F>, callback: F)
    ensures
        final(reg).finalize == Some(callback),
        final(reg).crypto_start == old(reg).crypto_start,
        final(reg).crypto_stop == old(reg).crypto_stop,
        final(reg).list == old(reg).list,
{
    reg.finalize = Some(callback);
}

/// Register a callback for list events.
pub fn register_list_callback<F>(reg: &mut OverlayRegistry<F>, callback: F)
    ensures
        final(reg).list == Some(callback),
        final(reg).crypto_start == old(reg).crypto_start,
        final(reg).crypto_stop == old(reg).crypto_stop,
        final(reg).finalize == old(reg).finalize,
{
    reg.list = Some(callback);
}

/// A slot's callback may be called.
pub open spec fn callable<F: Fn()>(slot: Option<F>) -> bool {
    match slot {
        Some(f) => f.requires(()),
        None => true,
    }
}

/// The slot's callback, if any, has run: its postcondition holds.
pub open spec fn ran<F: Fn()>(slot: Option<F>) -> bool {
    match slot {
        Some(f) => f.ensures((), ()),
        None => true,
    }
}

/// Call the callback in `slot`, if any; reports whether one was called.
fn invoke_slot<F: Fn()>(slot: &Option<F>) -> (invoked: bool)
    requires
        callable(*slot),
    ensures
        invoked == slot.is_some(),
        ran(*slot),
{
    match slot {
        Some(callback) => {
            callback();
            true
        },
        None => false,
    }
}

/// Run the crypto start callback (if registered); reports whether one ran.
pub fn invoke_crypto_start_callback<F: Fn()>(reg: &OverlayRegistry<F>) -> (invoked: bool)
    requires
        callable(reg.crypto_start),
    ensures
        invoked == reg.crypto_start.is_some(),
        ran(reg.crypto_start),
{
    invoke_slot(&reg.crypto_start)
}

/// Run the crypto stop callback (if registered); reports whether one ran.
pub fn invoke_crypto_stop_callback<F: Fn()>(reg: &OverlayRegistry<F>) -> (invoked: bool)
    requires
        callable(reg.crypto_stop),
    ensures
        invoked == reg.crypto_stop.is_some(),
        ran(reg.crypto_stop),
{
    invoke_slot(&reg.crypto_stop)
}

/// Run the finalize callback (if registered); reports whether one ran.
pub fn invoke_finalize_callback<F: Fn()>(reg: &OverlayRegistry<F>) -> (invoked: bool)
    requires
        callable(reg.finalize),
    ensures
        invoked == reg.finalize.is_some(),
        ran(reg.finalize),
{
    invoke_slot(&reg.finalize)
}

/// Run the list callback (if registered); reports whether one ran.
pub fn invoke_list_callback<F: Fn()>(reg: &OverlayRegistry<F>) -> (invoked: bool)
    requires
        callable(reg.list),
    ensures
        invoked == reg.list.is_some(),
        ran(reg.list),
{
    invoke_slot(&reg.list)
}

/// Clear all overlay callbacks.
pub fn clear_all_overlay_callbacks<F>(reg: &mut OverlayRegistry<F>)
    ensures
        final(reg).crypto_start is None,
        final(reg).crypto_stop is None,
        final(reg).finalize is None,
        final(reg).list is None,
{
    reg.crypto_start = None;
    reg.crypto_stop = None;
    reg.finalize = None;
    reg.list = None;
}

/// A set of overlay callbacks to register together.
pub struct OverlayCallbackConfig<F> {
    pub crypto_start: Option<F>,
    pub crypto_stop: Option<F>,
    pub finalize: Option<F>,
    pub list: Option<F>,
}

/// The slot after registering `given` over `current`.
pub open spec fn overlay_slot_after<F>(current: Option<F>, given: Option<F>) -> Option<F> {
    match given {
        Some(f) => Some(f),
        None => current,
    }
}

impl<F> OverlayCallbackConfig<F> {
    /// An empty configuration.
    pub fn new() -> (r: Self)
        ensures
            r.crypto_start is None,
            r.crypto_stop is None,
            r.finalize is None,
            r.list is None,
    {
        OverlayCallbackConfig { crypto_start: None, crypto_stop: None, finalize: None, list: None }
    }

    /// Set the crypto start callback.
    pub fn with_crypto_start_callback(self, callback: F) -> (r: Self)
        ensures
            r.crypto_start == Some(callback),
            r.crypto_stop == self.crypto_stop,
            r.finalize == self.finalize,
            r.list == self.list,
    {
        OverlayCallbackConfig { crypto_start: Some(callback), ..self }
    }

    /// Set the crypto stop callback.
    pub fn with_crypto_stop_callback(self, callback: F) -> (r: Self)
        ensures
            r.crypto_stop == Some(callback),
            r.crypto_start == self.crypto_start,
            r.finalize == self.finalize,
            r.list == self.list,
    {
        OverlayCallbackConfig { crypto_stop: Some(callback), ..self }
    }

    /// Set the finalize callback.
    pub fn with_finalize_callback(self, callback: F) -> (r: Self)
        ensures
            r.finalize == Some(callback),
            r.crypto_start == self.crypto_start,
            r.crypto_stop == self.crypto_stop,
            r.list == self.list,
    {
        OverlayCallbackConfig { finalize: Some(callback), ..self }
    }

    /// Set the list callback.
    pub fn with_list_callback(self, callback: F) -> (r: Self)
        ensures
            r.list == Some(callback),
            r.crypto_start == self.crypto_start,
            r.crypto_stop == self.crypto_stop,
            r.finalize == self.finalize,
    {
        OverlayCallbackConfig { list: Some(callback), ..self }
    }

    /// Register every configured callback; slots without one keep theirs.
    pub fn register(self, reg: &mut OverlayRegistry<F>)
        ensures
            final(reg).crypto_start == overlay_slot_after(old(reg).crypto_start, self.crypto_start),
            final(reg).crypto_stop == overlay_slot_after(old(reg).crypto_stop, self.crypto_stop),
            final(reg).finalize == overlay_slot_after(old(reg).finalize, self.finalize),
            final(reg).list == overlay_slot_after(old(reg).list, self.list),
    {
        if let Some(callback) = self.crypto_start {
            register_crypto_start_callback(reg, callback);
        }
        if let Some(callback) = self.crypto_stop {
            register_crypto_stop_callback(reg, callback);
        }
        if let Some(callback) = self.finalize {
            register_finalize_callback(reg, callback);
        }
        if let Some(callback) = self.list {
            register_list_callback(reg, callback);
        }
    }
}

} // verus!
