//! The form aggregate: four named fields plus the submission and editing
//! lifecycle flags.

use vstd::prelude::*;

use crate::field::Field;
use crate::field::Validatable;
use crate::field::revalidated_with;
use crate::validate::Email;
use crate::validate::Username;

verus! {

pub struct Form {
    pub username: Field<Username>,
    pub email: Field<Email>,
    pub age: Field<Option<u32>>,
    pub address: Field<String>,
    pub submitted: bool,
    pub is_editing: bool,
}

/// Every field re-validated in place, with its touch flag carried over.
pub open spec fn form_validated_all(pre: Form, post: Form) -> bool {
    &&& revalidated_with(pre.username, post.username, pre.username.touched)
    &&& revalidated_with(pre.email, post.email, pre.email.touched)
    &&& revalidated_with(pre.age, post.age, pre.age.touched)
    &&& revalidated_with(pre.address, post.address, pre.address.touched)
    &&& post.submitted == pre.submitted
    &&& post.is_editing == pre.is_editing
}

/// Every field touched and re-validated.
pub open spec fn form_touched_all(pre: Form, post: Form) -> bool {
    &&& revalidated_with(pre.username, post.username, true)
    &&& revalidated_with(pre.email, post.email, true)
    &&& revalidated_with(pre.age, post.age, true)
    &&& revalidated_with(pre.address, post.address, true)
    &&& post.submitted == pre.submitted
    &&& post.is_editing == pre.is_editing
}

/// The form-level editing flag and every field's editing flag set to `e`;
/// nothing else changes.
pub open spec fn form_editing_set(pre: Form, post: Form, e: bool) -> bool {
    &&& post.username == (Field { editing: e, ..pre.username })
    &&& post.email == (Field { editing: e, ..pre.email })
    &&& post.age == (Field { editing: e, ..pre.age })
    &&& post.address == (Field { editing: e, ..pre.address })
    &&& post.submitted == pre.submitted
    &&& post.is_editing == e
}

impl Form {
    pub open spec fn wf(self) -> bool {
        &&& self.username.wf()
        &&& self.email.wf()
        &&& self.age.wf()
        &&& self.address.wf()
    }

    /// Validity as recorded in the fields' flags.
    pub open spec fn spec_is_valid(self) -> bool {
        &&& self.username.valid
        &&& self.email.valid
        &&& self.age.valid
        &&& self.address.valid
    }

    /// Validity as derived from the fields' current values; coincides with
    /// `spec_is_valid` on well-formed forms.
    pub open spec fn values_valid(self) -> bool {
        &&& self.username.value.valid_spec()
        &&& self.email.value.valid_spec()
        &&& self.age.value.valid_spec()
        &&& self.address.value.valid_spec()
    }

    pub open spec fn any_dirty(self) -> bool {
        ||| self.username.dirty
        ||| self.email.dirty
        ||| self.age.dirty
        ||| self.address.dirty
    }

    /// Factory-default state: empty values, nothing touched or dirty, form
    /// editable, nothing submitted, every field already validated.
    pub open spec fn is_default(self) -> bool {
        &&& self.wf()
        &&& self.username.value.0@.len() == 0
        &&& self.username.initial_value.0@.len() == 0
        &&& self.email.value.0@.len() == 0
        &&& self.email.initial_value.0@.len() == 0
        &&& self.age.value is None
        &&& self.age.initial_value is None
        &&& self.address.value@.len() == 0
        &&& self.address.initial_value@.len() == 0
        &&& !self.username.touched && !self.username.dirty && !self.username.editing
        &&& !self.email.touched && !self.email.dirty && !self.email.editing
        &&& !self.age.touched && !self.age.dirty && !self.age.editing
        &&& !self.address.touched && !self.address.dirty && !self.address.editing
        &&& !self.submitted
        &&& self.is_editing
    }

    /// The status line derived from the form state, in priority order.
    pub open spec fn spec_status(self) -> Seq<char> {
        if self.submitted {
            "Form Submitted Successfully!"@
        } else if !self.is_editing {
            "Form data (View only)"@
        } else if self.any_dirty() {
            "Form has unsaved changes"@
        } else if !self.spec_is_valid() {
            "Please correct the errors."@
        } else {
            "Please fill out the form."@
        }
    }

    /// A form at factory defaults; the empty required fields start
    /// invalid, the unset age starts valid.
    pub fn new() -> (r: Form)
        ensures
            r.is_default(),
    {
        Form {
            username: Field::new(Username(String::new())),
            email: Field::new(Email(String::new())),
            age: Field::new(None),
            address: Field::new(String::new()),
            submitted: false,
            is_editing: true,
        }
    }

    /// Recomputes every field's validity without altering touch or
    /// dirtiness.
    pub fn validate_all(&mut self)
        ensures
            form_validated_all(*old(self), *final(self)),
            old(self).wf() ==> final(self).wf(),
    {
        self.username.validate();
        self.email.validate();
        self.age.validate();
        self.address.validate();
    }

    /// Marks every field touched and re-validates it.
    pub fn touch_all(&mut self)
        ensures
            form_touched_all(*old(self), *final(self)),
            old(self).wf() ==> final(self).wf(),
    {
        self.username.mark_touched();
        self.email.mark_touched();
        self.age.mark_touched();
        self.address.mark_touched();
    }

    /// The conjunction of the four fields' recorded validity flags.
    pub fn is_valid(&self) -> (r: bool)
        ensures
            r == self.spec_is_valid(),
    {
        self.username.valid && self.email.valid && self.age.valid && self.address.valid
    }

    /// Sets the form-level lock and cascades it to every field.
    pub fn set_editing(&mut self, editing: bool)
        ensures
            form_editing_set(*old(self), *final(self), editing),
            old(self).wf() ==> final(self).wf(),
    {
        self.is_editing = editing;
        self.username.set_editing(editing);
        self.email.set_editing(editing);
        self.age.set_editing(editing);
        self.address.set_editing(editing);
    }

    /// Replaces the whole form with a freshly constructed default.
    pub fn reset(&mut self)
        ensures
            final(self).is_default(),
    {
        *self = Form::new();
    }

    /// Whether a submission would succeed right now.
    pub fn can_submit(&self) -> (r: bool)
        ensures
            r == (self.is_editing && self.spec_is_valid()),
    {
        self.is_editing && self.is_valid()
    }
}

} // verus!
