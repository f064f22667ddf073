//! Small state-holder utilities bundled with the pipeline: an integer value
//! box and a boolean flag box.

use vstd::prelude::*;

verus! {

/// Stores a single integer value.
#[derive(Clone, Copy, Debug, PartialEq, Eq, Structural)]
pub struct TemplateLibrary {
    value: i32,
}

impl TemplateLibrary {
    /// The stored value, as contracts see it.
    pub closed spec fn spec_value(self) -> i32 {
        self.value
    }

    /// A new box holds zero.
    pub fn new() -> (r: Self)
        ensures
            r.spec_value() == 0,
    {
        Self { value: 0 }
    }

    /// Replaces the stored value.
    pub fn set(&mut self, value: i32)
        ensures
            final(self).spec_value() == value,
    {
        self.value = value;
    }

    /// The currently stored value.
    pub fn get(&self) -> (r: i32)
        ensures
            r == self.spec_value(),
    {
        self.value
    }
}

/// Stores a single enable flag.
#[derive(Clone, Copy, Debug, PartialEq, Eq, Structural)]
pub struct TemplateLibrary1 {
    enabled: bool,
}

impl TemplateLibrary1 {
    /// The stored flag, as contracts see it.
    pub closed spec fn spec_enabled(self) -> bool {
        self.enabled
    }

    /// A new box starts disabled.
    pub fn new() -> (r: Self)
        ensures
            r.spec_enabled() == false,
    {
        Self { enabled: false }
    }

    /// Replaces the enable flag.
    pub fn set_enabled(&mut self, enabled: bool)
        ensures
            final(self).spec_enabled() == enabled,
    {
        self.enabled = enabled;
    }

    /// The current enable flag.
    pub fn is_enabled(&self) -> (r: bool)
        ensures
            r == self.spec_enabled(),
    {
        self.enabled
    }
}

} // verus!
