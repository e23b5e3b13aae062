use vstd::prelude::*;

use crate::error::{AppError, ErrorKind};

verus! {

/// A key combination: the modifiers held and the key pressed.
#[derive(Clone, Copy, Debug, PartialEq, Eq, Structural)]
pub struct KeyCombo {
    pub alt: bool,
    pub ctrl: bool,
    pub shift: bool,
    pub meta: bool,
    pub key: char,
}

impl KeyCombo {
    pub fn new(alt: bool, ctrl: bool, shift: bool, meta: bool, key: char) -> (r: KeyCombo)
        ensures
            r == (KeyCombo { alt, ctrl, shift, meta, key }),
    {
        KeyCombo { alt, ctrl, shift, meta, key }
    }

    /// Option (Alt) and Space, the usual capture trigger.
    pub fn option_space() -> (r: KeyCombo)
        ensures
            r == (KeyCombo { alt: true, ctrl: false, shift: false, meta: false, key: ' ' }),
    {
        KeyCombo { alt: true, ctrl: false, shift: false, meta: false, key: ' ' }
    }
}

/// Names one registration. Each registration gets a handle of its own.
#[derive(Clone, Copy, Debug, PartialEq, Eq, Structural)]
pub struct HotkeyHandle {
    pub id: u64,
}

/// What the system answered when asked to deliver a key combination.
#[derive(Clone, Copy, Debug, PartialEq, Eq, Structural)]
pub enum BindOutcome {
    /// The combination is now delivered to this process.
    Bound,
    /// Another process owns the combination.
    OwnedElsewhere,
    /// Input monitoring is required and not granted.
    InputMonitoringDenied,
}

/// The binding of the capture trigger. There is at most one: registering
/// again replaces it rather than adding a second.
#[derive(Debug)]
pub struct HotkeyListener {
    binding: Option<(HotkeyHandle, KeyCombo)>,
    next_id: u64,
}

impl HotkeyListener {
    /// The current binding, if any.
    pub closed spec fn binding_spec(&self) -> Option<(HotkeyHandle, KeyCombo)> {
        self.binding
    }

    /// The id that the next registration will get.
    pub closed spec fn next_id_spec(&self) -> u64 {
        self.next_id
    }

    pub fn new() -> (r: HotkeyListener)
        ensures
            r.binding_spec() is None,
            r.next_id_spec() == 0,
    {
        HotkeyListener { binding: None, next_id: 0 }
    }

    pub fn binding(&self) -> (r: Option<(HotkeyHandle, KeyCombo)>)
        ensures
            r == self.binding_spec(),
    {
        self.binding
    }

    /// Whether another registration can get a handle of its own.
    pub fn can_register(&self) -> (r: bool)
        ensures
            r == (self.next_id_spec() < u64::MAX),
    {
        self.next_id < u64::MAX
    }

    /// Records the answer of the system to binding `combo`. On success the
    /// binding replaces the one before it and gets a fresh handle; on
    /// failure nothing changes.
    pub fn register(&mut self, combo: KeyCombo, outcome: BindOutcome) -> (r: Result<HotkeyHandle, AppError>)
        requires
            old(self).next_id_spec() < u64::MAX,
        ensures
            outcome is Bound ==> r == Ok::<HotkeyHandle, AppError>(HotkeyHandle { id: old(self).next_id_spec() }),
            outcome is Bound ==> final(self).binding_spec() == Some(
                (HotkeyHandle { id: old(self).next_id_spec() }, combo),
            ),
            outcome is Bound ==> final(self).next_id_spec() == old(self).next_id_spec() + 1,
            outcome is OwnedElsewhere ==> (r matches Err(e) && e.kind == ErrorKind::HotkeyConflict),
            outcome is InputMonitoringDenied ==> (r matches Err(e) && e.kind
                == ErrorKind::Permission),
            !(outcome is Bound) ==> final(self).binding_spec() == old(self).binding_spec(),
            !(outcome is Bound) ==> final(self).next_id_spec() == old(self).next_id_spec(),
    {
        match outcome {
            BindOutcome::Bound => {
                let h = HotkeyHandle { id: self.next_id };
                self.binding = Some((h, combo));
                self.next_id = self.next_id + 1;
                Ok(h)
            },
            BindOutcome::OwnedElsewhere => Err(
                AppError::new(
                    ErrorKind::HotkeyConflict,
                    String::from_str("another program owns the key combination"),
                ),
            ),
            BindOutcome::InputMonitoringDenied => Err(
                AppError::new(
                    ErrorKind::Permission,
                    String::from_str("input monitoring is not granted"),
                ),
            ),
        }
    }

    /// Releases the binding named by `h`, if it is the current one. Returns
    /// whether a binding was released: on a stale handle, or a second
    /// time, nothing happens.
    pub fn unregister(&mut self, h: HotkeyHandle) -> (released: bool)
        ensures
            released == holds(old(self).binding_spec(), h),
            final(self).binding_spec() == without(old(self).binding_spec(), h),
            final(self).next_id_spec() == old(self).next_id_spec(),
    {
        match self.binding {
            Some((current, _)) => {
                if current.id == h.id {
                    self.binding = None;
                    true
                } else {
                    false
                }
            },
            None => false,
        }
    }

    /// Whether a key event on the binding `h` is a new request for a
    /// capture: it must come from the current binding and not be the
    /// system repeating a held key.
    pub fn is_activation(&self, h: HotkeyHandle, repeat: bool) -> (r: bool)
        ensures
            r == (!repeat && holds(self.binding_spec(), h)),
    {
        if repeat {
            return false;
        }
        match self.binding {
            Some((current, _)) => current.id == h.id,
            None => false,
        }
    }
}

/// `binding` is the one that `h` names.
pub open spec fn holds(binding: Option<(HotkeyHandle, KeyCombo)>, h: HotkeyHandle) -> bool {
    binding matches Some(b) && b.0 == h
}

/// The binding left once `h` is released.
pub open spec fn without(binding: Option<(HotkeyHandle, KeyCombo)>, h: HotkeyHandle) -> Option<
    (HotkeyHandle, KeyCombo),
> {
    if holds(binding, h) {
        None
    } else {
        binding
    }
}

/// Releasing a handle twice is the same as releasing it once, and the
/// second release finds nothing to release.
pub proof fn lemma_unregister_twice(binding: Option<(HotkeyHandle, KeyCombo)>, h: HotkeyHandle)
    ensures
        without(without(binding, h), h) == without(binding, h),
        !holds(without(binding, h), h),
{
}

} // verus!
