//! The text parameter.
//!
//! A parameter is set up once, by [`StringParam::new`] and the builder calls
//! that follow it. From then on only its current value changes; name, unit,
//! default, flags and callbacks stay as they were set up.
//!
//! Writes go through `&mut`. A parameter that several threads share stands
//! behind a lock: the writer takes the lock, makes the write with
//! [`StringParam::write_if_changed`], gives the lock up and only then tells
//! the listener that [`StringParam::listener_to_tell`] named.

use crate::callback::ChangeCallback;
use crate::callback::ValueFormatter;
use crate::cell::changes;
use crate::cell::ValueCell;
use crate::flags::ParamFlag;
use crate::flags::ParamFlags;
use std::sync::Arc;
use vstd::prelude::*;
use vstd::string::StringExecFns;

verus! {

/// What a parameter calls back into. Both callbacks, where there are any,
/// may be called with every text.
struct Hooks {
    /// Told after every write that changed the value.
    value_changed: Option<Arc<dyn ChangeCallback>>,
    /// Replaces the plain text where the value is shown.
    value_to_string: Option<Arc<dyn ValueFormatter>>,
}

impl Hooks {
    #[verifier::type_invariant]
    spec fn callbacks_total(self) -> bool {
        &&& self.value_changed matches Some(listener) ==> listener.total()
        &&& self.value_to_string matches Some(formatter) ==> formatter.total()
    }
}

/// A parameter whose value is a text. A text has no place on an automation
/// lane, so the parameter starts out hidden and closed to automation.
pub struct StringParam {
    /// The current value.
    value: ValueCell,
    /// The value the parameter was made with.
    default: String,
    flags: ParamFlags,
    hooks: Hooks,
    /// The name shown to the user.
    name: String,
    /// Added behind the value where it is shown. No space is put in between.
    unit: &'static str,
}

/// What a parameter is, in contracts.
pub struct StringParamView {
    pub name: Seq<char>,
    pub unit: Seq<char>,
    pub default: Seq<char>,
    /// The current value.
    pub value: Seq<char>,
    pub flags: Set<ParamFlag>,
    pub value_changed: Option<Arc<dyn ChangeCallback>>,
    pub value_to_string: Option<Arc<dyn ValueFormatter>>,
}

/// One thing that can be done to a parameter once it is made.
pub enum Change {
    /// A write of this text.
    Write(Seq<char>),
    /// The unit is set to this text.
    Unit(Seq<char>),
    /// This switch is turned on.
    Flag(ParamFlag),
    /// The listener is set.
    Listener(Option<Arc<dyn ChangeCallback>>),
    /// The formatter is set.
    Formatter(Option<Arc<dyn ValueFormatter>>),
}

/// `body`, followed by `unit` where the unit is asked for.
pub open spec fn with_unit_added(body: Seq<char>, unit: Seq<char>, include_unit: bool) -> Seq<char> {
    if include_unit {
        body + unit
    } else {
        body
    }
}

impl StringParamView {
    /// `text` is what the parameter shows for `value`: the formatter's
    /// rendering of it, or the value itself where there is no formatter,
    /// followed by the unit where the unit is asked for.
    pub open spec fn shows(self, value: Seq<char>, include_unit: bool, text: Seq<char>) -> bool {
        match self.value_to_string {
            Some(formatter) => exists|body: Seq<char>| #[trigger]
                formatter.renders(value, body) && text == with_unit_added(
                    body,
                    self.unit,
                    include_unit,
                ),
            None => text == with_unit_added(value, self.unit, include_unit),
        }
    }

    /// The parameter after `change`. Every change touches one part and
    /// leaves the others as they were.
    pub open spec fn after(self, change: Change) -> StringParamView {
        match change {
            Change::Write(plain) => StringParamView { value: plain, ..self },
            Change::Unit(unit) => StringParamView { unit, ..self },
            Change::Flag(flag) => StringParamView { flags: self.flags.insert(flag), ..self },
            Change::Listener(listener) => StringParamView { value_changed: listener, ..self },
            Change::Formatter(formatter) => StringParamView { value_to_string: formatter, ..self },
        }
    }

    /// The parameter after all of `changes`, the first one first.
    pub open spec fn after_all(self, changes: Seq<Change>) -> StringParamView
        decreases changes.len(),
    {
        if changes.len() == 0 {
            self
        } else {
            self.after(changes[0]).after_all(changes.subrange(1, changes.len() as int))
        }
    }
}

/// Whatever is written to a parameter and however it is set up after it was
/// made, its name and its default stay, and no switch that is on goes off.
pub proof fn lemma_name_default_and_flags_stay(made: StringParamView, changes: Seq<Change>)
    ensures
        made.after_all(changes).name == made.name,
        made.after_all(changes).default == made.default,
        made.flags.subset_of(made.after_all(changes).flags),
    decreases changes.len(),
{
    if changes.len() > 0 {
        lemma_name_default_and_flags_stay(
            made.after(changes[0]),
            changes.subrange(1, changes.len() as int),
        );
    }
}

impl View for StringParam {
    type V = StringParamView;

    closed spec fn view(&self) -> StringParamView {
        StringParamView {
            name: self.name@,
            unit: self.unit@,
            default: self.default@,
            value: self.value@,
            flags: self.flags@,
            value_changed: self.hooks.value_changed,
            value_to_string: self.hooks.value_to_string,
        }
    }
}

impl StringParam {
    /// A parameter named `name` whose value is `default` until it is set. It
    /// has no unit, no listener and no formatter, and all three switches are
    /// on.
    pub fn new(name: &str, default: String) -> (param: StringParam)
        ensures
            param@.name == name@,
            param@.unit == Seq::<char>::empty(),
            param@.default == default@,
            param@.value == default@,
            param@.flags == set![
                ParamFlag::Hidden,
                ParamFlag::HideInGenericUi,
                ParamFlag::NonAutomatable,
            ],
            param@.value_changed is None,
            param@.value_to_string is None,
    {
        let mut flags = ParamFlags::default();
        flags.insert(ParamFlag::Hidden);
        flags.insert(ParamFlag::HideInGenericUi);
        flags.insert(ParamFlag::NonAutomatable);
        proof {
            reveal_strlit("");
            assert(""@ =~= Seq::<char>::empty());
            assert(flags@ =~= set![
                ParamFlag::Hidden,
                ParamFlag::HideInGenericUi,
                ParamFlag::NonAutomatable,
            ]);
        }
        StringParam {
            default: default.clone(),
            value: ValueCell::new(default),
            flags,
            hooks: Hooks { value_changed: None, value_to_string: None },
            name: name.to_owned(),
            unit: "",
        }
    }

    /// Stores `plain` as the current value unless the current value is equal
    /// to it, and says whether the value changed. No listener is told: see
    /// [`listener_to_tell`](Self::listener_to_tell).
    pub fn write_if_changed(&mut self, plain: String) -> (changed: bool)
        ensures
            changed == changes(old(self)@.value, plain@),
            final(self)@ == old(self)@.after(Change::Write(plain@)),
    {
        self.value.write_if_changed(plain)
    }

    /// The listener to tell after a write: the parameter's listener where the
    /// write changed the value, and none where it did not or where there is
    /// no listener.
    pub fn listener_to_tell(&self, changed: bool) -> (told: Option<&Arc<dyn ChangeCallback>>)
        ensures
            told is Some <==> changed && self@.value_changed is Some,
            told matches Some(listener) ==> self@.value_changed == Some(*listener)
                && listener.total(),
    {
        proof {
            use_type_invariant(&self.hooks);
        }
        if changed {
            self.hooks.value_changed.as_ref()
        } else {
            None
        }
    }

    /// Stores `plain` as the current value unless the current value is equal
    /// to it, and says whether the value changed. After a change the value
    /// is read anew and handed to the listener, if there is one. A write of
    /// an equal value tells the listener nothing.
    pub fn set_value(&mut self, plain: String) -> (changed: bool)
        ensures
            changed == changes(old(self)@.value, plain@),
            final(self)@ == old(self)@.after(Change::Write(plain@)),
    {
        let changed = self.write_if_changed(plain);
        if let Some(listener) = self.listener_to_tell(changed) {
            listener.value_changed(self.value.read());
        }
        changed
    }

    /// A copy of the current value.
    pub fn value(&self) -> (plain: String)
        ensures
            plain@ == self@.value,
    {
        self.modulated_plain_value()
    }

    /// Tells `callback` the new value after every write that changed it. The
    /// callback may run on any thread that writes, and should be quick.
    pub fn with_callback(self, callback: Arc<dyn ChangeCallback>) -> (param: StringParam)
        requires
            callback.total(),
        ensures
            param@.value_changed matches Some(listener) && listener == callback,
            param@ == self@.after(Change::Listener(param@.value_changed)),
    {
        proof {
            use_type_invariant(&self.hooks);
        }
        let listener = Some(callback);
        StringParam {
            value: self.value,
            default: self.default,
            flags: self.flags,
            hooks: Hooks { value_changed: listener, value_to_string: self.hooks.value_to_string },
            name: self.name,
            unit: self.unit,
        }
    }

    /// Shows `unit` behind the value. No space is put between the two.
    pub fn with_unit(self, unit: &'static str) -> (param: StringParam)
        ensures
            param@ == self@.after(Change::Unit(unit@)),
    {
        StringParam {
            value: self.value,
            default: self.default,
            flags: self.flags,
            hooks: self.hooks,
            name: self.name,
            unit,
        }
    }

    /// Shows what `callback` makes of the value in place of the value itself.
    pub fn with_value_to_string(self, callback: Arc<dyn ValueFormatter>) -> (param: StringParam)
        requires
            callback.total(),
        ensures
            param@.value_to_string matches Some(formatter) && formatter == callback,
            param@ == self@.after(Change::Formatter(param@.value_to_string)),
    {
        proof {
            use_type_invariant(&self.hooks);
        }
        let formatter = Some(callback);
        StringParam {
            value: self.value,
            default: self.default,
            flags: self.flags,
            hooks: Hooks { value_changed: self.hooks.value_changed, value_to_string: formatter },
            name: self.name,
            unit: self.unit,
        }
    }

    /// The parameter with `flag` on and every other switch as it was.
    fn with_flag(self, flag: ParamFlag) -> (param: StringParam)
        ensures
            param@ == self@.after(Change::Flag(flag)),
    {
        let mut flags = self.flags;
        flags.insert(flag);
        StringParam {
            value: self.value,
            default: self.default,
            flags,
            hooks: self.hooks,
            name: self.name,
            unit: self.unit,
        }
    }

    /// Closes the parameter to automation lanes. The user can still change it
    /// by hand.
    pub fn non_automatable(self) -> (param: StringParam)
        ensures
            param@ == self@.after(Change::Flag(ParamFlag::NonAutomatable)),
    {
        self.with_flag(ParamFlag::NonAutomatable)
    }

    /// Leaves the parameter out of every generic control surface.
    pub fn hidden(self) -> (param: StringParam)
        ensures
            param@ == self@.after(Change::Flag(ParamFlag::Hidden)),
    {
        self.with_flag(ParamFlag::Hidden)
    }

    /// Leaves the parameter out of generated control surfaces.
    pub fn hide_in_generic_ui(self) -> (param: StringParam)
        ensures
            param@ == self@.after(Change::Flag(ParamFlag::HideInGenericUi)),
    {
        self.with_flag(ParamFlag::HideInGenericUi)
    }
}

/// What every kind of parameter offers to a reader.
impl StringParam {
    /// The name shown to the user.
    pub fn name(&self) -> (name: &str)
        ensures
            name@ == self@.name,
    {
        self.name.as_str()
    }

    /// The unit shown behind the value.
    pub fn unit(&self) -> (unit: &'static str)
        ensures
            unit@ == self@.unit,
    {
        self.unit
    }

    /// A text takes no modulation from single voices, so there is no
    /// identifier to address it by.
    pub fn poly_modulation_id(&self) -> (id: Option<u32>)
        ensures
            id is None,
    {
        None
    }

    /// A copy of the current value. A text is not modulated, so this is the
    /// value as it was set.
    pub fn modulated_plain_value(&self) -> (plain: String)
        ensures
            plain@ == self@.value,
    {
        self.value.read()
    }

    /// A copy of the current value.
    pub fn unmodulated_plain_value(&self) -> (plain: String)
        ensures
            plain@ == self@.value,
    {
        self.value.read()
    }

    /// A copy of the value that the parameter was made with. No write
    /// changes it.
    pub fn default_plain_value(&self) -> (plain: String)
        ensures
            plain@ == self@.default,
    {
        self.default.clone()
    }

    /// A text cannot be stepped through.
    pub fn step_count(&self) -> (steps: Option<usize>)
        ensures
            steps is None,
    {
        None
    }

    /// Texts have no order, so the step before any value is the current
    /// value.
    pub fn previous_step(&self, _from: String, _finer: bool) -> (plain: String)
        ensures
            plain@ == self@.value,
    {
        self.value.read()
    }

    /// Texts have no order, so the step after any value is the current
    /// value.
    pub fn next_step(&self, _from: String, _finer: bool) -> (plain: String)
        ensures
            plain@ == self@.value,
    {
        self.value.read()
    }

    /// The text shown for `value`: what the formatter makes of it, or the
    /// value itself where there is no formatter, followed by the unit where
    /// `include_unit` asks for it.
    pub fn display_string(&self, value: String, include_unit: bool) -> (text: String)
        ensures
            self@.shows(value@, include_unit, text@),
    {
        proof {
            use_type_invariant(&self.hooks);
        }
        let mut text = match &self.hooks.value_to_string {
            Some(formatter) => formatter.value_to_string(value),
            None => value,
        };
        let ghost body = text@;
        if include_unit {
            text.append(self.unit);
        }
        proof {
            assert(text@ == with_unit_added(body, self@.unit, include_unit));
        }
        text
    }

    /// The text shown for the current value. A text has no place between 0
    /// and 1, so what is shown never depends on a normalized value.
    pub fn normalized_value_to_string(&self, include_unit: bool) -> (text: String)
        ensures
            self@.shows(self@.value, include_unit, text@),
    {
        self.display_string(self.value.read(), include_unit)
    }

    /// The switches that tell a host how to treat the parameter.
    pub fn flags(&self) -> (flags: ParamFlags)
        ensures
            flags@ == self@.flags,
    {
        self.flags
    }

    /// The current value, as it is printed.
    pub fn to_string(&self) -> (text: String)
        ensures
            text@ == self@.value,
    {
        self.value.read()
    }

    /// The name, a colon and a space, and the current value, as they are
    /// printed for a developer.
    pub fn to_debug_string(&self) -> (text: String)
        ensures
            text@ == self@.name + ": "@ + self@.value,
    {
        let value = self.value.read();
        let mut text = self.name.clone();
        text.append(": ");
        text.append(value.as_str());
        text
    }
}

/// What every kind of parameter offers to a writer.
impl StringParam {
    /// The same as [`set_value`](Self::set_value).
    pub fn set_plain_value(&mut self, plain: String) -> (changed: bool)
        ensures
            changed == changes(old(self)@.value, plain@),
            final(self)@ == old(self)@.after(Change::Write(plain@)),
    {
        self.set_value(plain)
    }
}

} // verus!
