//! The form handler: translates form events into form mutations, effect
//! requests and chained address events, and projects the form into its
//! view model.

use vstd::prelude::*;

use crate::address::AddressEvent;
use crate::effect::Effect;
use crate::effect::render_request;
use crate::field::Field;
use crate::field::FieldIdent;
use crate::field::Validatable;
use crate::field::revalidated_with;
use crate::field::value_set_to;
use crate::field::value_updated_to;
use crate::form::Form;
use crate::text::parse_u32;
use crate::text::spec_age_text;
use crate::text::spec_parse_u32;
use crate::text::u32_to_string;
use crate::validate::Email;
use crate::validate::Username;

verus! {

/// The events the form handler owns.
#[derive(Clone, Debug, PartialEq, Eq)]
pub enum FormEvent {
    UpdateValue { ident: FieldIdent, value: String },
    TouchField { ident: FieldIdent },
    SetFieldEditing { ident: FieldIdent, editing: bool },
    Submit,
    Edit,
    ResetForm,
}

/// What a form event produced: the effects to hand to the shell and an
/// optional follow-up address event for the root reducer to dispatch.
pub struct FormCommand {
    pub effects: Vec<Effect>,
    pub chained: Option<AddressEvent>,
}

/// A field's state after a touch-and-revalidate pass followed by an
/// editing-flag update: value and dirtiness carry over, validity and
/// error are recomputed, the field is touched.
pub open spec fn field_submitted<T: Validatable>(
    pre: Field<T>,
    post: Field<T>,
    editing: bool,
) -> bool {
    &&& post.value == pre.value
    &&& post.initial_value == pre.initial_value
    &&& post.dirty == pre.dirty
    &&& post.touched
    &&& post.editing == editing
    &&& post.valid == pre.value.valid_spec()
    &&& post.error.deep_view() == pre.value.error_spec()
}

/// `UpdateValue` while editing: the target field takes the new text (the
/// age field takes its parse, defaulting to unset), the other fields are
/// re-validated in place; an address update additionally chains a fetch
/// for the raw text instead of a form-wide re-validation.
pub open spec fn fh_update_value(
    pre: Form,
    ident: FieldIdent,
    value: String,
    post: Form,
    eff: Seq<Effect>,
    chained: Option<AddressEvent>,
) -> bool {
    if !pre.is_editing {
        &&& post == pre
        &&& eff =~= Seq::<Effect>::empty()
        &&& chained is None
    } else {
        &&& post.submitted == pre.submitted
        &&& post.is_editing == pre.is_editing
        &&& match ident {
            FieldIdent::Username => {
                &&& value_set_to(pre.username, post.username, post.username.value)
                &&& post.username.value.0@ == value@
                &&& revalidated_with(pre.email, post.email, pre.email.touched)
                &&& revalidated_with(pre.age, post.age, pre.age.touched)
                &&& revalidated_with(pre.address, post.address, pre.address.touched)
                &&& eff =~= seq![Effect::Render]
                &&& chained is None
            },
            FieldIdent::Email => {
                &&& value_set_to(pre.email, post.email, post.email.value)
                &&& post.email.value.0@ == value@
                &&& revalidated_with(pre.username, post.username, pre.username.touched)
                &&& revalidated_with(pre.age, post.age, pre.age.touched)
                &&& revalidated_with(pre.address, post.address, pre.address.touched)
                &&& eff =~= seq![Effect::Render]
                &&& chained is None
            },
            FieldIdent::Age => {
                &&& value_set_to(pre.age, post.age, post.age.value)
                &&& post.age.value == spec_parse_u32(value@)
                &&& revalidated_with(pre.username, post.username, pre.username.touched)
                &&& revalidated_with(pre.email, post.email, pre.email.touched)
                &&& revalidated_with(pre.address, post.address, pre.address.touched)
                &&& eff =~= seq![Effect::Render]
                &&& chained is None
            },
            FieldIdent::Address => {
                &&& value_set_to(pre.address, post.address, post.address.value)
                &&& post.address.value@ == value@
                &&& post.username == pre.username
                &&& post.email == pre.email
                &&& post.age == pre.age
                &&& eff =~= seq![Effect::Render]
                &&& (chained matches Some(AddressEvent::FetchSuggestions { query }) && query@
                    == value@)
            },
        }
    }
}

/// `TouchField` while editing: the target field is touched and
/// re-validated, everything else is untouched.
pub open spec fn fh_touch_field(
    pre: Form,
    ident: FieldIdent,
    post: Form,
    eff: Seq<Effect>,
    chained: Option<AddressEvent>,
) -> bool {
    if !pre.is_editing {
        &&& post == pre
        &&& eff =~= Seq::<Effect>::empty()
        &&& chained is None
    } else {
        &&& post.submitted == pre.submitted
        &&& post.is_editing == pre.is_editing
        &&& eff =~= seq![Effect::Render]
        &&& chained is None
        &&& match ident {
            FieldIdent::Username => {
                &&& revalidated_with(pre.username, post.username, true)
                &&& post.email == pre.email
                &&& post.age == pre.age
                &&& post.address == pre.address
            },
            FieldIdent::Email => {
                &&& revalidated_with(pre.email, post.email, true)
                &&& post.username == pre.username
                &&& post.age == pre.age
                &&& post.address == pre.address
            },
            FieldIdent::Age => {
                &&& revalidated_with(pre.age, post.age, true)
                &&& post.username == pre.username
                &&& post.email == pre.email
                &&& post.address == pre.address
            },
            FieldIdent::Address => {
                &&& revalidated_with(pre.address, post.address, true)
                &&& post.username == pre.username
                &&& post.email == pre.email
                &&& post.age == pre.age
            },
        }
    }
}

/// `SetFieldEditing`: enabling a field on a locked form is refused;
/// otherwise only the target field's editing flag flips. Disabling the
/// address field also chains a clear of the suggestion list.
pub open spec fn fh_set_field_editing(
    pre: Form,
    ident: FieldIdent,
    editing: bool,
    post: Form,
    eff: Seq<Effect>,
    chained: Option<AddressEvent>,
) -> bool {
    if !pre.is_editing && editing {
        &&& post == pre
        &&& eff =~= Seq::<Effect>::empty()
        &&& chained is None
    } else {
        &&& post.submitted == pre.submitted
        &&& post.is_editing == pre.is_editing
        &&& eff =~= seq![Effect::Render]
        &&& match ident {
            FieldIdent::Username => {
                &&& post.username == (Field { editing, ..pre.username })
                &&& post.email == pre.email
                &&& post.age == pre.age
                &&& post.address == pre.address
                &&& chained is None
            },
            FieldIdent::Email => {
                &&& post.email == (Field { editing, ..pre.email })
                &&& post.username == pre.username
                &&& post.age == pre.age
                &&& post.address == pre.address
                &&& chained is None
            },
            FieldIdent::Age => {
                &&& post.age == (Field { editing, ..pre.age })
                &&& post.username == pre.username
                &&& post.email == pre.email
                &&& post.address == pre.address
                &&& chained is None
            },
            FieldIdent::Address => {
                &&& post.address == (Field { editing, ..pre.address })
                &&& post.username == pre.username
                &&& post.email == pre.email
                &&& post.age == pre.age
                &&& chained == (if editing {
                    Option::<AddressEvent>::None
                } else {
                    Some(AddressEvent::ClearSuggestions)
                })
            },
        }
    }
}

/// `Submit`: every field is touched and re-validated unconditionally.
/// The form locks and records the submission exactly when every field
/// value is acceptable; otherwise it stays as it was, open for
/// corrections.
pub open spec fn fh_submit(pre: Form, post: Form) -> bool {
    let valid = pre.values_valid();
    &&& post.submitted == valid
    &&& post.is_editing == (if valid {
        false
    } else {
        pre.is_editing
    })
    &&& field_submitted(
        pre.username,
        post.username,
        if valid {
            false
        } else {
            pre.username.editing
        },
    )
    &&& field_submitted(
        pre.email,
        post.email,
        if valid {
            false
        } else {
            pre.email.editing
        },
    )
    &&& field_submitted(
        pre.age,
        post.age,
        if valid {
            false
        } else {
            pre.age.editing
        },
    )
    &&& field_submitted(
        pre.address,
        post.address,
        if valid {
            false
        } else {
            pre.address.editing
        },
    )
}

/// `Edit`: unconditionally clears the submission record and unlocks the
/// form and every field.
pub open spec fn fh_edit(pre: Form, post: Form) -> bool {
    &&& !post.submitted
    &&& post.is_editing
    &&& post.username == (Field { editing: true, ..pre.username })
    &&& post.email == (Field { editing: true, ..pre.email })
    &&& post.age == (Field { editing: true, ..pre.age })
    &&& post.address == (Field { editing: true, ..pre.address })
}

/// How one form event transforms the form, which effects it emits, and
/// which address event it chains.
pub open spec fn fh_step(
    pre: Form,
    event: FormEvent,
    post: Form,
    eff: Seq<Effect>,
    chained: Option<AddressEvent>,
) -> bool {
    match event {
        FormEvent::UpdateValue { ident, value } => fh_update_value(
            pre,
            ident,
            value,
            post,
            eff,
            chained,
        ),
        FormEvent::TouchField { ident } => fh_touch_field(pre, ident, post, eff, chained),
        FormEvent::SetFieldEditing { ident, editing } => fh_set_field_editing(
            pre,
            ident,
            editing,
            post,
            eff,
            chained,
        ),
        FormEvent::Submit => {
            &&& fh_submit(pre, post)
            &&& eff =~= seq![Effect::Render]
            &&& chained == (if pre.values_valid() {
                Some(AddressEvent::ClearSuggestions)
            } else {
                Option::<AddressEvent>::None
            })
        },
        FormEvent::Edit => {
            &&& fh_edit(pre, post)
            &&& eff =~= seq![Effect::Render]
            &&& chained == Some(AddressEvent::ClearSuggestions)
        },
        FormEvent::ResetForm => {
            &&& post.is_default()
            &&& eff =~= seq![Effect::Render]
            &&& chained == Some(AddressEvent::ClearSuggestions)
        },
    }
}

/// One form field projected for display; the value is always text.
#[derive(Clone, Debug)]
pub struct FieldViewModel {
    pub value: String,
    pub initial_value: String,
    pub touched: bool,
    pub dirty: bool,
    pub error: Option<String>,
    pub valid: bool,
    pub editing: bool,
}

/// The whole form projected for display.
#[derive(Clone, Debug)]
pub struct FormViewModel {
    pub username: FieldViewModel,
    pub email: FieldViewModel,
    pub age: FieldViewModel,
    pub address: FieldViewModel,
    pub submitted: bool,
    pub is_editing_form: bool,
    pub status_message: String,
    pub can_submit: bool,
}

pub open spec fn fvm_matches_username(vm: FieldViewModel, f: Field<Username>) -> bool {
    &&& vm.value@ == f.value.0@
    &&& vm.initial_value@ == f.initial_value.0@
    &&& vm.touched == f.touched
    &&& vm.dirty == f.dirty
    &&& vm.error.deep_view() == f.error.deep_view()
    &&& vm.valid == f.valid
    &&& vm.editing == f.editing
}

pub open spec fn fvm_matches_email(vm: FieldViewModel, f: Field<Email>) -> bool {
    &&& vm.value@ == f.value.0@
    &&& vm.initial_value@ == f.initial_value.0@
    &&& vm.touched == f.touched
    &&& vm.dirty == f.dirty
    &&& vm.error.deep_view() == f.error.deep_view()
    &&& vm.valid == f.valid
    &&& vm.editing == f.editing
}

/// The numeric age is shown as text, the empty string standing for
/// "unset".
pub open spec fn fvm_matches_age(vm: FieldViewModel, f: Field<Option<u32>>) -> bool {
    &&& vm.value@ == spec_age_text(f.value)
    &&& vm.initial_value@ == spec_age_text(f.initial_value)
    &&& vm.touched == f.touched
    &&& vm.dirty == f.dirty
    &&& vm.error.deep_view() == f.error.deep_view()
    &&& vm.valid == f.valid
    &&& vm.editing == f.editing
}

pub open spec fn fvm_matches_address(vm: FieldViewModel, f: Field<String>) -> bool {
    &&& vm.value@ == f.value@
    &&& vm.initial_value@ == f.initial_value@
    &&& vm.touched == f.touched
    &&& vm.dirty == f.dirty
    &&& vm.error.deep_view() == f.error.deep_view()
    &&& vm.valid == f.valid
    &&& vm.editing == f.editing
}

/// The view model is a faithful read-only projection of the form.
pub open spec fn form_view_ok(form: Form, vm: FormViewModel) -> bool {
    &&& fvm_matches_username(vm.username, form.username)
    &&& fvm_matches_email(vm.email, form.email)
    &&& fvm_matches_age(vm.age, form.age)
    &&& fvm_matches_address(vm.address, form.address)
    &&& vm.submitted == form.submitted
    &&& vm.is_editing_form == form.is_editing
    &&& vm.status_message@ == form.spec_status()
    &&& vm.can_submit == (form.is_editing && form.spec_is_valid())
}

fn clone_error(e: &Option<String>) -> (r: Option<String>)
    ensures
        r.deep_view() == e.deep_view(),
{
    match e {
        Some(s) => Some(s.clone()),
        None => None,
    }
}

/// Owns the form and handles its events.
pub struct FormHandler {
    pub form: Form,
}

impl FormHandler {
    /// A handler over a factory-default form.
    pub fn new() -> (r: FormHandler)
        ensures
            r.form.is_default(),
    {
        FormHandler { form: Form::new() }
    }

    pub fn handle_update_value(&mut self, ident: FieldIdent, value: String) -> (cmd: FormCommand)
        ensures
            fh_update_value(
                old(self).form,
                ident,
                value,
                final(self).form,
                cmd.effects@,
                cmd.chained,
            ),
            old(self).form.wf() ==> final(self).form.wf(),
    {
        if !self.form.is_editing {
            return FormCommand { effects: Vec::new(), chained: None };
        }
        match ident {
            FieldIdent::Username => {
                self.form.username.set_value(Username(value));
                self.form.validate_all();
                FormCommand { effects: render_request(), chained: None }
            },
            FieldIdent::Email => {
                self.form.email.set_value(Email(value));
                self.form.validate_all();
                FormCommand { effects: render_request(), chained: None }
            },
            FieldIdent::Age => {
                let age = parse_u32(value.as_str());
                self.form.age.set_value(age);
                self.form.validate_all();
                FormCommand { effects: render_request(), chained: None }
            },
            FieldIdent::Address => {
                let query = value.clone();
                self.form.address.set_value(value);
                FormCommand {
                    effects: render_request(),
                    chained: Some(AddressEvent::FetchSuggestions { query }),
                }
            },
        }
    }

    pub fn handle_touch_field(&mut self, ident: FieldIdent) -> (cmd: FormCommand)
        ensures
            fh_touch_field(old(self).form, ident, final(self).form, cmd.effects@, cmd.chained),
            old(self).form.wf() ==> final(self).form.wf(),
    {
        if !self.form.is_editing {
            return FormCommand { effects: Vec::new(), chained: None };
        }
        match ident {
            FieldIdent::Username => self.form.username.mark_touched(),
            FieldIdent::Email => self.form.email.mark_touched(),
            FieldIdent::Age => self.form.age.mark_touched(),
            FieldIdent::Address => self.form.address.mark_touched(),
        }
        FormCommand { effects: render_request(), chained: None }
    }

    pub fn handle_set_field_editing(&mut self, ident: FieldIdent, editing: bool) -> (cmd:
        FormCommand)
        ensures
            fh_set_field_editing(
                old(self).form,
                ident,
                editing,
                final(self).form,
                cmd.effects@,
                cmd.chained,
            ),
            old(self).form.wf() ==> final(self).form.wf(),
    {
        if !self.form.is_editing && editing {
            return FormCommand { effects: Vec::new(), chained: None };
        }
        match ident {
            FieldIdent::Username => {
                self.form.username.set_editing(editing);
                FormCommand { effects: render_request(), chained: None }
            },
            FieldIdent::Email => {
                self.form.email.set_editing(editing);
                FormCommand { effects: render_request(), chained: None }
            },
            FieldIdent::Age => {
                self.form.age.set_editing(editing);
                FormCommand { effects: render_request(), chained: None }
            },
            FieldIdent::Address => {
                self.form.address.set_editing(editing);
                if editing {
                    FormCommand { effects: render_request(), chained: None }
                } else {
                    FormCommand {
                        effects: render_request(),
                        chained: Some(AddressEvent::ClearSuggestions),
                    }
                }
            },
        }
    }

    pub fn handle_submit(&mut self) -> (cmd: FormCommand)
        ensures
            fh_submit(old(self).form, final(self).form),
            cmd.effects@ =~= seq![Effect::Render],
            cmd.chained == (if old(self).form.values_valid() {
                Some(AddressEvent::ClearSuggestions)
            } else {
                Option::<AddressEvent>::None
            }),
            old(self).form.wf() ==> final(self).form.wf(),
    {
        self.form.touch_all();
        self.form.validate_all();
        if self.form.is_valid() {
            self.form.submitted = true;
            self.form.set_editing(false);
            FormCommand {
                effects: render_request(),
                chained: Some(AddressEvent::ClearSuggestions),
            }
        } else {
            self.form.submitted = false;
            FormCommand { effects: render_request(), chained: None }
        }
    }

    pub fn handle_edit(&mut self) -> (cmd: FormCommand)
        ensures
            fh_edit(old(self).form, final(self).form),
            cmd.effects@ =~= seq![Effect::Render],
            cmd.chained == Some(AddressEvent::ClearSuggestions),
            old(self).form.wf() ==> final(self).form.wf(),
    {
        self.form.submitted = false;
        self.form.set_editing(true);
        FormCommand { effects: render_request(), chained: Some(AddressEvent::ClearSuggestions) }
    }

    pub fn handle_reset(&mut self) -> (cmd: FormCommand)
        ensures
            final(self).form.is_default(),
            cmd.effects@ =~= seq![Effect::Render],
            cmd.chained == Some(AddressEvent::ClearSuggestions),
    {
        self.form.reset();
        FormCommand { effects: render_request(), chained: Some(AddressEvent::ClearSuggestions) }
    }

    /// Routes one form event to its handler method.
    pub fn handle(&mut self, event: FormEvent) -> (cmd: FormCommand)
        ensures
            fh_step(old(self).form, event, final(self).form, cmd.effects@, cmd.chained),
            old(self).form.wf() ==> final(self).form.wf(),
    {
        match event {
            FormEvent::UpdateValue { ident, value } => self.handle_update_value(ident, value),
            FormEvent::TouchField { ident } => self.handle_touch_field(ident),
            FormEvent::SetFieldEditing { ident, editing } => self.handle_set_field_editing(
                ident,
                editing,
            ),
            FormEvent::Submit => self.handle_submit(),
            FormEvent::Edit => self.handle_edit(),
            FormEvent::ResetForm => self.handle_reset(),
        }
    }

    /// Applies a chosen suggestion's text to the address field, marking
    /// it touched; no new lookup is issued for a selection.
    pub fn apply_selected_address(&mut self, value: String)
        requires
            old(self).form.is_editing,
        ensures
            value_updated_to(
                old(self).form.address,
                final(self).form.address,
                final(self).form.address.value,
            ),
            final(self).form.address.value@ == value@,
            final(self).form.username == old(self).form.username,
            final(self).form.email == old(self).form.email,
            final(self).form.age == old(self).form.age,
            final(self).form.submitted == old(self).form.submitted,
            final(self).form.is_editing == old(self).form.is_editing,
            old(self).form.wf() ==> final(self).form.wf(),
    {
        self.form.address.update_value(value);
    }

    pub fn get_form(&self) -> (r: &Form)
        ensures
            *r == self.form,
    {
        &self.form
    }

    /// Projects the form into its view model; pure and callable at any
    /// time.
    pub fn view(&self) -> (vm: FormViewModel)
        ensures
            form_view_ok(self.form, vm),
    {
        let username_vm = view_username(&self.form.username);
        let email_vm = view_email(&self.form.email);
        let age_vm = view_age(&self.form.age);
        let address_vm = view_address(&self.form.address);
        let status_message = status_text(&self.form);
        let can_submit = self.form.can_submit();
        FormViewModel {
            username: username_vm,
            email: email_vm,
            age: age_vm,
            address: address_vm,
            submitted: self.form.submitted,
            is_editing_form: self.form.is_editing,
            status_message,
            can_submit,
        }
    }
}

fn view_username(f: &Field<Username>) -> (vm: FieldViewModel)
    ensures
        fvm_matches_username(vm, *f),
{
    FieldViewModel {
        value: f.value.0.clone(),
        initial_value: f.initial_value.0.clone(),
        touched: f.touched,
        dirty: f.dirty,
        error: clone_error(&f.error),
        valid: f.valid,
        editing: f.editing,
    }
}

fn view_email(f: &Field<Email>) -> (vm: FieldViewModel)
    ensures
        fvm_matches_email(vm, *f),
{
    FieldViewModel {
        value: f.value.0.clone(),
        initial_value: f.initial_value.0.clone(),
        touched: f.touched,
        dirty: f.dirty,
        error: clone_error(&f.error),
        valid: f.valid,
        editing: f.editing,
    }
}

fn view_age(f: &Field<Option<u32>>) -> (vm: FieldViewModel)
    ensures
        fvm_matches_age(vm, *f),
{
    FieldViewModel {
        value: age_text(&f.value),
        initial_value: age_text(&f.initial_value),
        touched: f.touched,
        dirty: f.dirty,
        error: clone_error(&f.error),
        valid: f.valid,
        editing: f.editing,
    }
}

fn view_address(f: &Field<String>) -> (vm: FieldViewModel)
    ensures
        fvm_matches_address(vm, *f),
{
    FieldViewModel {
        value: f.value.clone(),
        initial_value: f.initial_value.clone(),
        touched: f.touched,
        dirty: f.dirty,
        error: clone_error(&f.error),
        valid: f.valid,
        editing: f.editing,
    }
}

/// The status line shown for the form, in priority order: submitted,
/// locked, unsaved changes, invalid, fresh.
fn status_text(form: &Form) -> (r: String)
    ensures
        r@ == form.spec_status(),
{
    if form.submitted {
        "Form Submitted Successfully!".to_owned()
    } else if !form.is_editing {
        "Form data (View only)".to_owned()
    } else if form.username.dirty || form.email.dirty || form.age.dirty || form.address.dirty {
        "Form has unsaved changes".to_owned()
    } else if !form.is_valid() {
        "Please correct the errors.".to_owned()
    } else {
        "Please fill out the form.".to_owned()
    }
}

/// The text shown for an optional age value.
fn age_text(v: &Option<u32>) -> (r: String)
    ensures
        r@ == spec_age_text(*v),
{
    match v {
        Some(a) => u32_to_string(*a),
        None => String::new(),
    }
}

} // verus!
