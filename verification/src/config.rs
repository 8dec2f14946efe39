//! Dirty-tracked desired-state configuration, reconciled lazily.
//!
//! Every tracked field carries a dirty flag.  A field starts dirty so the
//! first reconciliation pass pushes initial state to the device; mutating a
//! field re-marks it dirty; a reconciliation pass clears the flags it acts
//! on, and a failed push is re-marked so it is retried on the next pass.
//!
//! Stored handlers are opaque values here: the engine decides when a handler
//! is taken out for an invocation and when it is put back, and the caller
//! performs the actual call in between.  The flag juggling preserves a
//! reassignment made by the handler itself: the take clears the flag, so a
//! reassignment during the invocation is detectable and wins over the
//! restore.

use vstd::prelude::*;

use crate::lights::Effect;

verus! {

/// A field in the config that tracks whether it was changed.
#[derive(Debug, PartialEq, Eq)]
pub struct ConfigField<T> {
    /// The value of the config field.
    pub val: T,
    /// Whether the config field was changed since its last push.
    pub dirty: bool,
}

/// A freshly constructed field: dirty, so the first reconciliation pass
/// always pushes initial state.
pub open spec fn field_new<T>(val: T) -> ConfigField<T> {
    ConfigField { val, dirty: true }
}

/// A field after assigning a value: assignment always re-marks dirty.
pub open spec fn field_set<T>(f: ConfigField<T>, val: T) -> ConfigField<T> {
    ConfigField { val, dirty: true }
}

/// A field after a sync pass consumed its flag: clean, value intact.
pub open spec fn field_synced<T>(f: ConfigField<T>) -> ConfigField<T> {
    ConfigField { val: f.val, dirty: false }
}

/// A field after its flag was forced: dirty, value intact.
pub open spec fn field_forced<T>(f: ConfigField<T>) -> ConfigField<T> {
    ConfigField { val: f.val, dirty: true }
}

/// A handler field after its value was taken out for an invocation: the
/// value leaves and the flag is cleared, so a reassignment made during the
/// invocation is detectable.  Taking an absent handler changes nothing.
pub open spec fn handler_taken<T>(f: ConfigField<Option<T>>) -> ConfigField<Option<T>> {
    if f.val is Some {
        ConfigField { val: None, dirty: false }
    } else {
        f
    }
}

/// A handler field after the invocation returned: if nothing reassigned the
/// field in the meantime the taken handler goes back in, otherwise the
/// reassignment wins and the taken handler is dropped.
pub open spec fn handler_restored<T>(f: ConfigField<Option<T>>, handler: T) -> ConfigField<
    Option<T>,
> {
    if !f.dirty {
        ConfigField { val: Some(handler), dirty: f.dirty }
    } else {
        f
    }
}

impl<T> ConfigField<T> {
    /// A fresh field, dirty for the initial synchronization.
    pub fn new(val: T) -> (r: Self)
        ensures
            r == field_new(val),
    {
        ConfigField { val, dirty: true }
    }

    /// Sets the value of the config field.
    pub fn set(&mut self, val: T)
        ensures
            *final(self) == field_set(*old(self), val),
    {
        self.val = val;
        self.force_sync();
    }

    /// Sets the dirty flag to force synchronization.
    pub fn force_sync(&mut self)
        ensures
            *final(self) == field_forced(*old(self)),
    {
        self.dirty = true;
    }

    /// Checks if the config field needs to be synchronized and clears the
    /// dirty flag.
    pub fn needs_sync(&mut self) -> (r: bool)
        ensures
            r == old(self).dirty,
            *final(self) == field_synced(*old(self)),
    {
        let old_dirty = self.dirty;
        self.dirty = false;
        old_dirty
    }
}

impl<T> ConfigField<Option<T>> {
    /// Takes the stored value out for an invocation, clearing the dirty
    /// flag so a reassignment made during the invocation is detectable.
    pub fn take_for_call(&mut self) -> (r: Option<T>)
        ensures
            r == old(self).val,
            *final(self) == handler_taken(*old(self)),
    {
        let mut out: Option<T> = None;
        core::mem::swap(&mut self.val, &mut out);
        match out {
            Some(handler) => {
                self.dirty = false;
                Some(handler)
            },
            None => None,
        }
    }

    /// Puts a handler back after an invocation, unless the invocation
    /// reassigned the field, in which case the reassignment is kept.
    pub fn restore_after_call(&mut self, handler: T)
        ensures
            *final(self) == handler_restored(*old(self), handler),
    {
        if !self.dirty {
            self.val = Some(handler);
        }
    }
}

/// Which device operations a reconciliation pass must perform.
#[derive(Debug, Clone, Copy, PartialEq, Eq, Structural)]
pub struct SyncPlan {
    /// Set button reporting to this state, because the handler presence
    /// changed.
    pub buttons: Option<bool>,
    /// Push this effect to the side lights, because it changed.
    pub side: Option<Effect>,
    /// Push this effect to the logo light, because it changed.
    pub logo: Option<Effect>,
}

/// The configuration for running the engine: three optional handlers and
/// the two light effects, each dirty-tracked.
pub struct Config<B, P, R> {
    /// The handler for button presses.
    pub button_handler: ConfigField<Option<B>>,
    /// The handler for power-state changes.
    pub power_state_change_handler: ConfigField<Option<P>>,
    /// The handler for periodic callbacks.
    pub periodic_handler: ConfigField<Option<R>>,
    /// The light effect to use for the side lights.
    pub side_light_effect: ConfigField<Effect>,
    /// The light effect to use for the logo lights.
    pub logo_light_effect: ConfigField<Effect>,
}

impl<B, P, R> Config<B, P, R> {
    /// The initial configuration: no handlers, lights off, and every field
    /// dirty so the first pass pushes it all.
    pub fn new() -> (r: Self)
        ensures
            r.button_handler == field_new(Option::<B>::None),
            r.power_state_change_handler == field_new(Option::<P>::None),
            r.periodic_handler == field_new(Option::<R>::None),
            r.side_light_effect == field_new(Effect::Off),
            r.logo_light_effect == field_new(Effect::Off),
    {
        Config {
            button_handler: ConfigField::new(None),
            power_state_change_handler: ConfigField::new(None),
            periodic_handler: ConfigField::new(None),
            side_light_effect: ConfigField::new(Effect::Off),
            logo_light_effect: ConfigField::new(Effect::Off),
        }
    }

    /// Sets the handler for button presses.
    pub fn set_button_handler(&mut self, handler: Option<B>)
        ensures
            *final(self) == (Config {
                button_handler: field_set(old(self).button_handler, handler),
                ..*old(self)
            }),
    {
        self.button_handler.set(handler);
    }

    /// Sets the handler for power state changes.
    pub fn set_power_state_change_handler(&mut self, handler: Option<P>)
        ensures
            *final(self) == (Config {
                power_state_change_handler: field_set(
                    old(self).power_state_change_handler,
                    handler,
                ),
                ..*old(self)
            }),
    {
        self.power_state_change_handler.set(handler);
    }

    /// Sets the handler for periodic updates.
    pub fn set_periodic_handler(&mut self, handler: Option<R>)
        ensures
            *final(self) == (Config {
                periodic_handler: field_set(old(self).periodic_handler, handler),
                ..*old(self)
            }),
    {
        self.periodic_handler.set(handler);
    }

    /// Sets the effect for the side light.
    pub fn set_side_light_effect(&mut self, effect: Effect)
        ensures
            *final(self) == (Config {
                side_light_effect: field_set(old(self).side_light_effect, effect),
                ..*old(self)
            }),
    {
        self.side_light_effect.set(effect);
    }

    /// Sets the effect for the logo light.
    pub fn set_logo_light_effect(&mut self, effect: Effect)
        ensures
            *final(self) == (Config {
                logo_light_effect: field_set(old(self).logo_light_effect, effect),
                ..*old(self)
            }),
    {
        self.logo_light_effect.set(effect);
    }

    /// Explicitly sets the whole configuration to dirty to force a full
    /// re-synchronization, for example after a device restart: the device
    /// loses all prior configuration across sleep and power cycles.
    pub fn set_dirty(&mut self)
        ensures
            *final(self) == (Config {
                button_handler: field_forced(old(self).button_handler),
                power_state_change_handler: field_forced(old(self).power_state_change_handler),
                periodic_handler: field_forced(old(self).periodic_handler),
                side_light_effect: field_forced(old(self).side_light_effect),
                logo_light_effect: field_forced(old(self).logo_light_effect),
            }),
    {
        self.button_handler.force_sync();
        self.power_state_change_handler.force_sync();
        self.periodic_handler.force_sync();
        self.side_light_effect.force_sync();
        self.logo_light_effect.force_sync();
    }

    /// Decides which device operations this reconciliation pass must
    /// perform: one per field whose flag is set.  The flags it reads are
    /// cleared; a failed operation is re-marked through
    /// [`Config::note_sync_failures`], so a flag is only ever truly cleared
    /// by a successful push.
    pub fn sync_plan(&mut self) -> (r: SyncPlan)
        ensures
            r.buttons == if old(self).button_handler.dirty {
                Some(old(self).button_handler.val is Some)
            } else {
                None::<bool>
            },
            r.side == if old(self).side_light_effect.dirty {
                Some(old(self).side_light_effect.val)
            } else {
                None::<Effect>
            },
            r.logo == if old(self).logo_light_effect.dirty {
                Some(old(self).logo_light_effect.val)
            } else {
                None::<Effect>
            },
            *final(self) == (Config {
                button_handler: field_synced(old(self).button_handler),
                power_state_change_handler: field_synced(old(self).power_state_change_handler),
                side_light_effect: field_synced(old(self).side_light_effect),
                logo_light_effect: field_synced(old(self).logo_light_effect),
                ..*old(self)
            }),
    {
        let buttons = if self.button_handler.needs_sync() {
            Some(self.button_handler.val.is_some())
        } else {
            None
        };
        // The power-state handler needs no device operation; its flag is
        // still consumed by the pass.
        self.power_state_change_handler.needs_sync();
        let side = if self.side_light_effect.needs_sync() {
            Some(self.side_light_effect.val)
        } else {
            None
        };
        let logo = if self.logo_light_effect.needs_sync() {
            Some(self.logo_light_effect.val)
        } else {
            None
        };
        SyncPlan { buttons, side, logo }
    }

    /// Re-marks the fields whose push failed, so they are retried on the
    /// next pass; a failure on one field never blocks the others.
    pub fn note_sync_failures(&mut self, buttons_failed: bool, side_failed: bool, logo_failed: bool)
        ensures
            *final(self) == (Config {
                button_handler: if buttons_failed {
                    field_forced(old(self).button_handler)
                } else {
                    old(self).button_handler
                },
                side_light_effect: if side_failed {
                    field_forced(old(self).side_light_effect)
                } else {
                    old(self).side_light_effect
                },
                logo_light_effect: if logo_failed {
                    field_forced(old(self).logo_light_effect)
                } else {
                    old(self).logo_light_effect
                },
                ..*old(self)
            }),
    {
        if buttons_failed {
            self.button_handler.force_sync();
        }
        if side_failed {
            self.side_light_effect.force_sync();
        }
        if logo_failed {
            self.logo_light_effect.force_sync();
        }
    }

    /// Takes the button handler out for an invocation.
    pub fn take_button_handler(&mut self) -> (r: Option<B>)
        ensures
            r == old(self).button_handler.val,
            *final(self) == (Config {
                button_handler: handler_taken(old(self).button_handler),
                ..*old(self)
            }),
    {
        self.button_handler.take_for_call()
    }

    /// Puts the button handler back after an invocation, unless the
    /// invocation replaced it.
    pub fn restore_button_handler(&mut self, handler: B)
        ensures
            *final(self) == (Config {
                button_handler: handler_restored(old(self).button_handler, handler),
                ..*old(self)
            }),
    {
        self.button_handler.restore_after_call(handler);
    }

    /// Takes the power-state-change handler out for an invocation.
    pub fn take_power_state_change_handler(&mut self) -> (r: Option<P>)
        ensures
            r == old(self).power_state_change_handler.val,
            *final(self) == (Config {
                power_state_change_handler: handler_taken(old(self).power_state_change_handler),
                ..*old(self)
            }),
    {
        self.power_state_change_handler.take_for_call()
    }

    /// Puts the power-state-change handler back after an invocation, unless
    /// the invocation replaced it.
    pub fn restore_power_state_change_handler(&mut self, handler: P)
        ensures
            *final(self) == (Config {
                power_state_change_handler: handler_restored(
                    old(self).power_state_change_handler,
                    handler,
                ),
                ..*old(self)
            }),
    {
        self.power_state_change_handler.restore_after_call(handler);
    }

    /// Takes the periodic handler out for an invocation.
    pub fn take_periodic_handler(&mut self) -> (r: Option<R>)
        ensures
            r == old(self).periodic_handler.val,
            *final(self) == (Config {
                periodic_handler: handler_taken(old(self).periodic_handler),
                ..*old(self)
            }),
    {
        self.periodic_handler.take_for_call()
    }

    /// Puts the periodic handler back after an invocation, unless the
    /// invocation replaced it.
    pub fn restore_periodic_handler(&mut self, handler: R)
        ensures
            *final(self) == (Config {
                periodic_handler: handler_restored(old(self).periodic_handler, handler),
                ..*old(self)
            }),
    {
        self.periodic_handler.restore_after_call(handler);
    }
}

/// The dirty-field laws: a freshly constructed field is dirty; after one
/// successful sync pass it is clean with its value intact; assigning a new
/// value makes it dirty again.
pub proof fn lemma_dirty_field_laws<T>(v: T, w: T)
    ensures
        field_new(v).dirty,
        field_synced(field_new(v)).val == v,
        !field_synced(field_new(v)).dirty,
        field_set(field_synced(field_new(v)), w).dirty,
        field_set(field_synced(field_new(v)), w).val == w,
{
}

/// A handler taken for an invocation that does not reassign the field is
/// restored afterwards: the field ends present, with the same handler, and
/// clean, so merely invoking a handler never empties its field.
pub proof fn lemma_handler_survives_invocation<T>(f: ConfigField<Option<T>>, handler: T)
    requires
        f.val == Some(handler),
    ensures
        handler_restored(handler_taken(f), handler).val == Some(handler),
        !handler_restored(handler_taken(f), handler).dirty,
{
}

/// A reassignment made during the invocation wins: the restore afterwards
/// keeps the newly assigned handler, and the field stays dirty so the next
/// sync pass sees the change.
pub proof fn lemma_handler_reassignment_survives<T>(
    f: ConfigField<Option<T>>,
    taken: T,
    reassigned: T,
)
    requires
        f.val == Some(taken),
    ensures
        handler_restored(field_set(handler_taken(f), Some(reassigned)), taken) == field_set(
            handler_taken(f),
            Some(reassigned),
        ),
        handler_restored(field_set(handler_taken(f), Some(reassigned)), taken).val == Some(
            reassigned,
        ),
{
}

} // verus!
