//! The root reducer: routes each inbound event to the handler that owns
//! it, dispatches chained follow-up events, composes the effect
//! sequences, and projects the aggregate model into the view model.

use vstd::prelude::*;

use crate::address::AddressEvent;
use crate::address::AddressHandler;
use crate::address::AddressSuggestion;
use crate::address::AddressSuggestionsResult;
use crate::address::ah_step;
use crate::effect::Effect;
use crate::field::FieldIdent;
use crate::field::value_updated_to;
use crate::form_handler::FieldViewModel;
use crate::form_handler::FormEvent;
use crate::form_handler::FormHandler;
use crate::form_handler::fh_step;
use crate::form_handler::fvm_matches_address;
use crate::form_handler::fvm_matches_age;
use crate::form_handler::fvm_matches_email;
use crate::form_handler::fvm_matches_username;

verus! {

/// The full inbound event surface.
#[derive(Clone, Debug, PartialEq, Eq)]
pub enum Event {
    UpdateValue { ident: FieldIdent, value: String },
    TouchField { ident: FieldIdent },
    SetFieldEditing { ident: FieldIdent, editing: bool },
    Submit,
    Edit,
    ResetForm,
    FetchSuggestions { query: String },
    SuggestionsReceived(AddressSuggestionsResult),
    SelectSuggestion { suggestion: AddressSuggestion },
    ClearSuggestions,
}

/// The root aggregate: one form handler and one address handler, nothing
/// else.
pub struct Model {
    pub form: FormHandler,
    pub address: AddressHandler,
}

/// The base URL the default model queries for address suggestions.
pub open spec fn default_api_url() -> Seq<char> {
    "http://localhost:8000/api/suggestions"@
}

impl Model {
    pub open spec fn wf(self) -> bool {
        self.form.form.wf()
    }

    /// A default form over an empty suggestion list.
    pub fn new() -> (r: Model)
        ensures
            r.form.form.is_default(),
            r.address.suggestions@.len() == 0,
            r.address.api_url@ == default_api_url(),
            r.wf(),
    {
        Model {
            form: FormHandler::new(),
            address: AddressHandler::new("http://localhost:8000/api/suggestions".to_owned()),
        }
    }
}

impl Default for Model {
    fn default() -> (r: Model)
        ensures
            r.form.form.is_default(),
            r.address.suggestions@.len() == 0,
            r.address.api_url@ == default_api_url(),
            r.wf(),
    {
        Model::new()
    }
}

/// The read-only snapshot the shell displays; recomputed fresh from the
/// model on every view request.
#[derive(Clone, Debug)]
pub struct ViewModel {
    pub username: FieldViewModel,
    pub email: FieldViewModel,
    pub age: FieldViewModel,
    pub address: FieldViewModel,
    pub address_suggestions: Vec<AddressSuggestion>,
    pub submitted: bool,
    pub is_editing_form: bool,
    pub status_message: String,
    pub can_submit: bool,
}

pub open spec fn view_ok(m: Model, vm: ViewModel) -> bool {
    &&& fvm_matches_username(vm.username, m.form.form.username)
    &&& fvm_matches_email(vm.email, m.form.form.email)
    &&& fvm_matches_age(vm.age, m.form.form.age)
    &&& fvm_matches_address(vm.address, m.form.form.address)
    &&& vm.address_suggestions@ == m.address.suggestions@
    &&& vm.submitted == m.form.form.submitted
    &&& vm.is_editing_form == m.form.form.is_editing
    &&& vm.status_message@ == m.form.form.spec_status()
    &&& vm.can_submit == (m.form.form.is_editing && m.form.form.spec_is_valid())
}

/// A form event routed through the form handler, whose chained address
/// event (if any) re-enters the address handler; the chained effects are
/// delivered before the form handler's own.
pub open spec fn routed(pre: Model, event: FormEvent, post: Model, eff: Seq<Effect>) -> bool {
    exists|cmd_eff: Seq<Effect>, chained: Option<AddressEvent>|
        {
            &&& #[trigger] fh_step(pre.form.form, event, post.form.form, cmd_eff, chained)
            &&& match chained {
                Some(ae) => exists|ae_eff: Seq<Effect>|
                    #[trigger] ah_step(pre.address, ae, post.address, ae_eff) && eff =~= ae_eff
                        + cmd_eff,
                None => post.address == pre.address && eff =~= cmd_eff,
            }
        }
}

/// Selecting a suggestion while editing: its combined text becomes the
/// address value (touched and re-validated), the suggestion list
/// empties, and exactly one render is requested; no new lookup is
/// issued. On a locked form nothing happens.
pub open spec fn select_step(
    pre: Model,
    suggestion: AddressSuggestion,
    post: Model,
    eff: Seq<Effect>,
) -> bool {
    if !pre.form.form.is_editing {
        &&& post == pre
        &&& eff =~= Seq::<Effect>::empty()
    } else {
        &&& value_updated_to(
            pre.form.form.address,
            post.form.form.address,
            post.form.form.address.value,
        )
        &&& post.form.form.address.value@ == suggestion.combined@
        &&& post.form.form.username == pre.form.form.username
        &&& post.form.form.email == pre.form.form.email
        &&& post.form.form.age == pre.form.form.age
        &&& post.form.form.submitted == pre.form.form.submitted
        &&& post.form.form.is_editing == pre.form.form.is_editing
        &&& post.address.api_url == pre.address.api_url
        &&& post.address.suggestions@.len() == 0
        &&& eff =~= seq![Effect::Render]
    }
}

/// The transition relation of the whole core: how one inbound event
/// transforms the model and which effects it emits, chained follow-up
/// events included.
pub open spec fn step(pre: Model, event: Event, post: Model, eff: Seq<Effect>) -> bool {
    match event {
        Event::UpdateValue { ident, value } => routed(
            pre,
            FormEvent::UpdateValue { ident, value },
            post,
            eff,
        ),
        Event::TouchField { ident } => routed(pre, FormEvent::TouchField { ident }, post, eff),
        Event::SetFieldEditing { ident, editing } => routed(
            pre,
            FormEvent::SetFieldEditing { ident, editing },
            post,
            eff,
        ),
        Event::Submit => routed(pre, FormEvent::Submit, post, eff),
        Event::Edit => routed(pre, FormEvent::Edit, post, eff),
        Event::ResetForm => routed(pre, FormEvent::ResetForm, post, eff),
        Event::FetchSuggestions { query } => {
            &&& post.form == pre.form
            &&& ah_step(pre.address, AddressEvent::FetchSuggestions { query }, post.address, eff)
        },
        Event::SuggestionsReceived(result) => {
            &&& post.form == pre.form
            &&& ah_step(
                pre.address,
                AddressEvent::SuggestionsReceived(result),
                post.address,
                eff,
            )
        },
        Event::ClearSuggestions => {
            &&& post.form == pre.form
            &&& ah_step(pre.address, AddressEvent::ClearSuggestions, post.address, eff)
        },
        Event::SelectSuggestion { suggestion } => select_step(pre, suggestion, post, eff),
    }
}

fn run_form(model: &mut Model, event: FormEvent) -> (effects: Vec<Effect>)
    ensures
        routed(*old(model), event, *final(model), effects@),
        old(model).wf() ==> final(model).wf(),
{
    let cmd = model.form.handle(event);
    let ghost cmd_eff = cmd.effects@;
    let ghost chained_g = cmd.chained;
    match cmd.chained {
        Some(ae) => {
            let mut effects = model.address.handle(ae);
            let ghost ae_eff = effects@;
            let mut tail = cmd.effects;
            effects.append(&mut tail);
            proof {
                assert(fh_step(old(model).form.form, event, model.form.form, cmd_eff, chained_g));
                assert(ah_step(old(model).address, ae, model.address, ae_eff));
                assert(effects@ =~= ae_eff + cmd_eff);
                assert(exists|x: Seq<Effect>|
                    #[trigger] ah_step(old(model).address, ae, model.address, x) && effects@ =~= x
                        + cmd_eff);
                assert(routed(*old(model), event, *model, effects@));
            }
            effects
        },
        None => cmd.effects,
    }
}

/// The root reducer; it owns no state of its own.
pub struct App;

impl Default for App {
    fn default() -> (r: App) {
        App
    }
}

impl App {
    /// Processes one inbound event against the model, returning the
    /// effects for the shell in emission order.
    pub fn update(&self, event: Event, model: &mut Model) -> (effects: Vec<Effect>)
        ensures
            step(*old(model), event, *final(model), effects@),
            old(model).wf() ==> final(model).wf(),
    {
        match event {
            Event::UpdateValue { ident, value } => run_form(
                model,
                FormEvent::UpdateValue { ident, value },
            ),
            Event::TouchField { ident } => run_form(model, FormEvent::TouchField { ident }),
            Event::SetFieldEditing { ident, editing } => run_form(
                model,
                FormEvent::SetFieldEditing { ident, editing },
            ),
            Event::Submit => run_form(model, FormEvent::Submit),
            Event::Edit => run_form(model, FormEvent::Edit),
            Event::ResetForm => run_form(model, FormEvent::ResetForm),
            Event::FetchSuggestions { query } => model.address.handle_fetch_suggestions(query),
            Event::SuggestionsReceived(result) => model.address.handle_suggestions_received(
                result,
            ),
            Event::ClearSuggestions => model.address.handle_clear_suggestions(),
            Event::SelectSuggestion { suggestion } => {
                if !model.form.form.is_editing {
                    Vec::new()
                } else {
                    let value = suggestion.combined.clone();
                    let effects = model.address.handle_select_suggestion(suggestion);
                    model.form.apply_selected_address(value);
                    effects
                }
            },
        }
    }

    /// Projects the model into the view model; pure and idempotent.
    pub fn view(&self, model: &Model) -> (vm: ViewModel)
        ensures
            view_ok(*model, vm),
    {
        let fvm = model.form.view();
        let suggestions = clone_suggestions(&model.address.suggestions);
        ViewModel {
            username: fvm.username,
            email: fvm.email,
            age: fvm.age,
            address: fvm.address,
            address_suggestions: suggestions,
            submitted: fvm.submitted,
            is_editing_form: fvm.is_editing_form,
            status_message: fvm.status_message,
            can_submit: fvm.can_submit,
        }
    }
}

fn clone_suggestions(v: &Vec<AddressSuggestion>) -> (r: Vec<AddressSuggestion>)
    ensures
        r@ == v@,
{
    let mut r: Vec<AddressSuggestion> = Vec::new();
    let mut i: usize = 0;
    while i < v.len()
        invariant
            i <= v.len(),
            r@ =~= v@.take(i as int),
        decreases v.len() - i,
    {
        r.push(v[i].clone());
        proof {
            assert(v@.take(i + 1) =~= v@.take(i as int).push(v@[i as int]));
        }
        i = i + 1;
    }
    proof {
        assert(v@.take(v@.len() as int) =~= v@);
    }
    r
}

} // verus!
