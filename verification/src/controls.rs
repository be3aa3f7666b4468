//! Device-control rules: which controls the settings panel may edit, and
//! what resetting a control to its default means for each kind of value.
//!
//! The library treats controls as opaque key/value pairs: reading and
//! writing them is the device driver's business, performed by the
//! embedding program. What is decided here — and verified — is the pure
//! part: a control is editable only when the driver flags it neither
//! disabled nor inactive, integer and boolean controls reset to their
//! declared default, a button control's reset rewrites its stateless
//! value unchanged, and text or compound controls are read-only
//! pass-through that a reset must skip.
//! A driver that rejects a written value is a local, recoverable error;
//! it never touches the capture session.

use vstd::prelude::*;

verus! {

/// The value of a device control, one of a small closed set of kinds.
/// Text and compound payloads are carried by the driver, not by the
/// library: it never edits them.
#[derive(Clone, Copy, PartialEq, Eq, Structural, Debug)]
pub enum ControlValue {
    /// A button control: it has no state.
    Push,
    Integer(i64),
    Boolean(bool),
    /// A text control (read-only pass-through).
    Text,
    /// A compound (matrix or pointer) control (read-only pass-through).
    Compound,
}

/// The driver's flags on a control, as far as the panel reads them.
#[derive(Clone, Copy, PartialEq, Eq, Structural, Debug)]
pub struct ControlFlags {
    pub disabled: bool,
    pub inactive: bool,
}

/// The driver's description of a control: bounds, step, default and flags.
#[derive(Clone, Copy, PartialEq, Eq, Structural, Debug)]
pub struct ControlDesc {
    pub id: u32,
    pub minimum: i64,
    pub maximum: i64,
    pub step: u64,
    pub default: i64,
    pub flags: ControlFlags,
}

/// The value a control returns to when reset to its default: integers take
/// the declared default, booleans take "default is nonzero", buttons stay
/// stateless, and text or compound controls are not reset at all.
pub open spec fn reset_value_m(current: ControlValue, default: i64) -> Option<ControlValue> {
    match current {
        ControlValue::Push => Some(ControlValue::Push),
        ControlValue::Integer(_) => Some(ControlValue::Integer(default)),
        ControlValue::Boolean(_) => Some(ControlValue::Boolean(default != 0)),
        ControlValue::Text => None,
        ControlValue::Compound => None,
    }
}

/// The value to write when a control is reset to its default, or nothing
/// for the kinds a reset must skip.
pub fn reset_value(current: &ControlValue, default: i64) -> (r: Option<ControlValue>)
    ensures
        r == reset_value_m(*current, default),
{
    match current {
        ControlValue::Push => Some(ControlValue::Push),
        ControlValue::Integer(_) => Some(ControlValue::Integer(default)),
        ControlValue::Boolean(_) => Some(ControlValue::Boolean(default != 0)),
        ControlValue::Text => None,
        ControlValue::Compound => None,
    }
}

/// Whether the settings panel lets the user edit a control: only when the
/// driver flags it neither disabled nor inactive.
pub fn control_editable(flags: &ControlFlags) -> (b: bool)
    ensures
        b <==> !flags.disabled && !flags.inactive,
{
    !(flags.disabled || flags.inactive)
}

/// Resetting is idempotent: resetting an already-reset control writes the
/// same value again, and what a reset writes never depends on the value
/// the control happened to hold, only on its kind.
pub proof fn lemma_reset_idempotent(current: ControlValue, default: i64)
    ensures
        reset_value_m(current, default) matches Some(v) ==> reset_value_m(v, default) == Some(v),
{
}

} // verus!
