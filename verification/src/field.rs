//! A validated form field: a value paired with the touch, dirtiness,
//! validity and edit-lock state derived from it.

use vstd::prelude::*;

verus! {

/// Identifies one of the four form fields.
#[derive(Clone, Copy, Debug, PartialEq, Eq, Structural)]
pub enum FieldIdent {
    Username,
    Email,
    Age,
    Address,
}

/// The validation capability a field's value type supplies: observational
/// equality (deciding dirtiness), validity, and the error text shown when
/// the value is not acceptable.
pub trait Validatable: Sized {
    /// Observational equality of two values.
    spec fn eq_spec(&self, other: &Self) -> bool;

    /// Whether the value is acceptable.
    spec fn valid_spec(&self) -> bool;

    /// The error text for the value, `None` when acceptable.
    spec fn error_spec(&self) -> Option<Seq<char>>;

    proof fn lemma_eq_reflexive(&self)
        ensures
            self.eq_spec(self),
    ;

    fn clone_value(&self) -> (r: Self)
        ensures
            r == *self,
    ;

    fn same_value(&self, other: &Self) -> (r: bool)
        ensures
            r == self.eq_spec(other),
    ;

    fn is_valid(&self) -> (r: bool)
        ensures
            r == self.valid_spec(),
    ;

    fn error_message(&self) -> (r: Option<String>)
        ensures
            r.deep_view() == self.error_spec(),
    ;
}

/// A form input's value together with its derived state.
pub struct Field<T> {
    pub value: T,
    pub initial_value: T,
    pub touched: bool,
    pub dirty: bool,
    pub error: Option<String>,
    pub valid: bool,
    pub editing: bool,
}

/// After the step, `post` holds `v` with its dirtiness and validity
/// recomputed; touch and edit state carry over from `pre`.
pub open spec fn value_set_to<T: Validatable>(pre: Field<T>, post: Field<T>, v: T) -> bool {
    &&& post.value == v
    &&& post.initial_value == pre.initial_value
    &&& post.touched == pre.touched
    &&& post.editing == pre.editing
    &&& post.dirty == !v.eq_spec(&pre.initial_value)
    &&& post.valid == v.valid_spec()
    &&& post.error.deep_view() == v.error_spec()
}

/// Like `value_set_to`, but the field also becomes touched.
pub open spec fn value_updated_to<T: Validatable>(pre: Field<T>, post: Field<T>, v: T) -> bool {
    &&& post.value == v
    &&& post.initial_value == pre.initial_value
    &&& post.touched
    &&& post.editing == pre.editing
    &&& post.dirty == !v.eq_spec(&pre.initial_value)
    &&& post.valid == v.valid_spec()
    &&& post.error.deep_view() == v.error_spec()
}

/// After the step, validity and error are recomputed from the unchanged
/// value and the touch flag is `touched`; everything else carries over.
pub open spec fn revalidated_with<T: Validatable>(
    pre: Field<T>,
    post: Field<T>,
    touched: bool,
) -> bool {
    &&& post.value == pre.value
    &&& post.initial_value == pre.initial_value
    &&& post.dirty == pre.dirty
    &&& post.editing == pre.editing
    &&& post.touched == touched
    &&& post.valid == pre.value.valid_spec()
    &&& post.error.deep_view() == pre.value.error_spec()
}

impl<T: Validatable> Field<T> {
    /// The field invariant: dirtiness, validity and error text are exactly
    /// what the current value derives to.
    pub open spec fn wf(self) -> bool {
        &&& self.dirty == !self.value.eq_spec(&self.initial_value)
        &&& self.valid == self.value.valid_spec()
        &&& self.error.deep_view() == self.value.error_spec()
    }

    /// A fresh field holding `initial`: untouched, clean, not being
    /// edited, already validated.
    pub fn new(initial: T) -> (r: Field<T>)
        ensures
            r.wf(),
            r.value == initial,
            r.initial_value == initial,
            !r.touched,
            !r.dirty,
            !r.editing,
    {
        proof {
            initial.lemma_eq_reflexive();
        }
        let valid = initial.is_valid();
        let error = initial.error_message();
        let value = initial.clone_value();
        Field { value, initial_value: initial, touched: false, dirty: false, error, valid, editing: false }
    }

    /// Stores `value`, recomputing dirtiness against the initial value and
    /// re-validating. The field is dirty exactly when the new value differs
    /// from the initial one.
    pub fn set_value(&mut self, value: T)
        ensures
            value_set_to(*old(self), *final(self), final(self).value),
            final(self).value == value,
            final(self).dirty == !final(self).value.eq_spec(&final(self).initial_value),
            final(self).wf(),
    {
        self.dirty = !value.same_value(&self.initial_value);
        self.valid = value.is_valid();
        self.error = value.error_message();
        self.value = value;
    }

    /// Stores `value` as `set_value` does and marks the field touched.
    pub fn update_value(&mut self, value: T)
        ensures
            value_updated_to(*old(self), *final(self), final(self).value),
            final(self).value == value,
            final(self).wf(),
    {
        self.set_value(value);
        self.touched = true;
    }

    /// Recomputes validity and error text from the current value.
    pub fn validate(&mut self)
        ensures
            revalidated_with(*old(self), *final(self), old(self).touched),
            old(self).wf() ==> final(self).wf(),
    {
        self.valid = self.value.is_valid();
        self.error = self.value.error_message();
    }

    /// Marks the field touched and re-validates, surfacing latent errors.
    pub fn mark_touched(&mut self)
        ensures
            revalidated_with(*old(self), *final(self), true),
            old(self).wf() ==> final(self).wf(),
    {
        self.touched = true;
        self.validate();
    }

    /// Marks the field touched without re-validating.
    pub fn touch(&mut self)
        ensures
            *final(self) == (Field { touched: true, ..*old(self) }),
            old(self).wf() ==> final(self).wf(),
    {
        self.touched = true;
    }

    /// Flips the per-field editing flag; nothing else changes.
    pub fn set_editing(&mut self, editing: bool)
        ensures
            *final(self) == (Field { editing, ..*old(self) }),
            old(self).wf() ==> final(self).wf(),
    {
        self.editing = editing;
    }

    /// Returns the field to its initial value, untouched and clean.
    pub fn reset(&mut self)
        ensures
            final(self).value == old(self).initial_value,
            final(self).initial_value == old(self).initial_value,
            !final(self).touched,
            !final(self).dirty,
            !final(self).editing,
            final(self).wf(),
    {
        proof {
            self.initial_value.lemma_eq_reflexive();
        }
        self.value = self.initial_value.clone_value();
        self.touched = false;
        self.dirty = false;
        self.editing = false;
        self.validate();
    }
}

} // verus!
