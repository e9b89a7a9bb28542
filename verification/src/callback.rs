//! What a parameter calls back into: a listener for changes of its value and
//! a formatter for showing it.
//!
//! Both are traits, so that a parameter can hold either behind a shared
//! pointer without knowing the type. Every closure of the right shape that
//! may cross threads is one.

use vstd::prelude::*;

verus! {

/// Something to tell when a parameter's value has changed.
pub trait ChangeCallback: Send + Sync {
    /// The listener may be called with every text.
    spec fn total(&self) -> bool;

    /// Takes the parameter's new value. It may run on the audio thread as
    /// well as on the interface thread, many times in quick succession.
    fn value_changed(&self, value: String)
        requires
            self.total(),
    ;
}

impl<F: Fn(String) + Send + Sync> ChangeCallback for F {
    open spec fn total(&self) -> bool {
        forall|value: String| call_requires(*self, (value,))
    }

    fn value_changed(&self, value: String) {
        self(value)
    }
}

/// A way of showing a parameter's value that replaces the plain text.
pub trait ValueFormatter: Send + Sync {
    /// The formatter may be called with every text.
    spec fn total(&self) -> bool;

    /// `text` is a rendering that the formatter may give for `value`.
    spec fn renders(&self, value: Seq<char>, text: Seq<char>) -> bool;

    /// The text to show for `value`, without the unit.
    fn value_to_string(&self, value: String) -> (text: String)
        requires
            self.total(),
        ensures
            self.renders(value@, text@),
    ;
}

impl<F: Fn(String) -> String + Send + Sync> ValueFormatter for F {
    open spec fn total(&self) -> bool {
        forall|value: String| call_requires(*self, (value,))
    }

    open spec fn renders(&self, value: Seq<char>, text: Seq<char>) -> bool {
        exists|given: String, shown: String|
            given@ == value && shown@ == text && call_ensures(*self, (given,), shown)
    }

    fn value_to_string(&self, value: String) -> (text: String) {
        self(value)
    }
}

} // verus!
