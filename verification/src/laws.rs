//! Laws of the reducer, stated over the `step` transition relation and
//! proved from the handlers' contracts.

use vstd::prelude::*;

use crate::address::AddressEvent;
use crate::address::AddressSuggestionsResult;
use crate::address::ah_step;
use crate::address::query_url;
use crate::app::Event;
use crate::app::Model;
use crate::app::step;
use crate::effect::Effect;
use crate::field::FieldIdent;
use crate::form::Form;
use crate::form_handler::FormEvent;
use crate::form_handler::fh_step;

verus! {

/// Law: a freshly reset form is editable and unsubmitted, every field is
/// untouched and clean, the required-but-empty fields are invalid with
/// their canonical empty-value messages, and the unset age is valid with
/// no error.
pub proof fn lemma_default_form_pristine(f: Form)
    requires
        f.is_default(),
    ensures
        f.is_editing,
        !f.submitted,
        !f.username.touched && !f.username.dirty,
        !f.email.touched && !f.email.dirty,
        !f.age.touched && !f.age.dirty,
        !f.address.touched && !f.address.dirty,
        !f.username.valid,
        f.username.error.deep_view() == Some("Username cannot be empty"@),
        !f.email.valid,
        f.email.error.deep_view() == Some("Email cannot be empty"@),
        f.age.valid,
        f.age.error.deep_view() == Option::<Seq<char>>::None,
        !f.address.valid,
        f.address.error.deep_view() == Some("Address cannot be empty"@),
{
}

/// Law: submitting an all-valid, editable, unsubmitted form renders and
/// flips `submitted` to true and `is_editing` to false exactly once; a
/// second submission while locked re-touches and re-validates but leaves
/// the lock state as it is, and still renders.
pub proof fn lemma_submit_locks_once(
    m0: Model,
    m1: Model,
    m2: Model,
    eff1: Seq<Effect>,
    eff2: Seq<Effect>,
)
    requires
        m0.form.form.values_valid(),
        m0.form.form.is_editing,
        !m0.form.form.submitted,
        step(m0, Event::Submit, m1, eff1),
        step(m1, Event::Submit, m2, eff2),
    ensures
        m1.form.form.submitted,
        !m1.form.form.is_editing,
        m2.form.form.submitted == m1.form.form.submitted,
        m2.form.form.is_editing == m1.form.form.is_editing,
        eff1.contains(Effect::Render),
        eff2.contains(Effect::Render),
{
    let (ce1, ch1) = choose|ce: Seq<Effect>, ch: Option<AddressEvent>|
        {
            &&& #[trigger] fh_step(m0.form.form, FormEvent::Submit, m1.form.form, ce, ch)
            &&& match ch {
                Some(ae) => exists|ae_eff: Seq<Effect>|
                    #[trigger] ah_step(m0.address, ae, m1.address, ae_eff) && eff1 =~= ae_eff + ce,
                None => m1.address == m0.address && eff1 =~= ce,
            }
        };
    assert(m1.form.form.values_valid());
    let (ce2, ch2) = choose|ce: Seq<Effect>, ch: Option<AddressEvent>|
        {
            &&& #[trigger] fh_step(m1.form.form, FormEvent::Submit, m2.form.form, ce, ch)
            &&& match ch {
                Some(ae) => exists|ae_eff: Seq<Effect>|
                    #[trigger] ah_step(m1.address, ae, m2.address, ae_eff) && eff2 =~= ae_eff + ce,
                None => m2.address == m1.address && eff2 =~= ce,
            }
        };
    assert(ch1 == Some(AddressEvent::ClearSuggestions));
    let ae_eff1 = choose|ae_eff: Seq<Effect>|
        #[trigger] ah_step(m0.address, AddressEvent::ClearSuggestions, m1.address, ae_eff) && eff1
            =~= ae_eff + ce1;
    assert(eff1.contains(Effect::Render)) by {
        assert(eff1[ae_eff1.len() as int] == Effect::Render);
    }
    assert(ch2 == Some(AddressEvent::ClearSuggestions));
    let ae_eff2 = choose|ae_eff: Seq<Effect>|
        #[trigger] ah_step(m1.address, AddressEvent::ClearSuggestions, m2.address, ae_eff) && eff2
            =~= ae_eff + ce2;
    assert(eff2.contains(Effect::Render)) by {
        assert(eff2[ae_eff2.len() as int] == Effect::Render);
    }
}

/// How many HTTP effects a sequence holds.
pub open spec fn count_http(eff: Seq<Effect>) -> int
    decreases eff.len(),
{
    if eff.len() == 0 {
        0
    } else {
        count_http(eff.drop_last()) + (if eff.last() is Http {
            1int
        } else {
            0int
        })
    }
}

/// Law: updating the address field while editing produces exactly one
/// outbound HTTP effect, and its query is the new raw text verbatim.
pub proof fn lemma_address_update_fetches(m0: Model, m1: Model, eff: Seq<Effect>, value: String)
    requires
        m0.form.form.is_editing,
        step(m0, Event::UpdateValue { ident: FieldIdent::Address, value }, m1, eff),
    ensures
        count_http(eff) == 1,
        forall|i: int|
            0 <= i < eff.len() && #[trigger] eff[i] is Http ==> eff[i]->url@ == query_url(
                m0.address.api_url@,
                value@,
            ),
{
    let ev = FormEvent::UpdateValue { ident: FieldIdent::Address, value };
    let (ce, ch) = choose|ce: Seq<Effect>, ch: Option<AddressEvent>|
        {
            &&& #[trigger] fh_step(m0.form.form, ev, m1.form.form, ce, ch)
            &&& match ch {
                Some(ae) => exists|ae_eff: Seq<Effect>|
                    #[trigger] ah_step(m0.address, ae, m1.address, ae_eff) && eff =~= ae_eff + ce,
                None => m1.address == m0.address && eff =~= ce,
            }
        };
    assert(ch matches Some(AddressEvent::FetchSuggestions { query }) && query@ == value@);
    let ae = ch->0;
    let ae_eff = choose|ae_eff: Seq<Effect>|
        #[trigger] ah_step(m0.address, ae, m1.address, ae_eff) && eff =~= ae_eff + ce;
    assert(eff.len() == 2);
    assert(eff[0] == ae_eff[0]);
    assert(eff[0] is Http && eff[0]->url@ == query_url(m0.address.api_url@, value@));
    assert(eff[1] == ce[0]);
    assert(eff[1] == Effect::Render);
    assert(count_http(eff) == 1) by {
        assert(eff.last() == eff[1]);
        assert(eff.drop_last().len() == 1);
        assert(eff.drop_last().last() == eff[0]);
        assert(eff.drop_last().drop_last().len() == 0);
        assert(count_http(eff.drop_last().drop_last()) == 0);
        assert(count_http(eff.drop_last()) == 1);
    }
}

/// Law: an error outcome for a suggestion fetch empties the suggestion
/// list and requests a render, whatever the list held before.
pub proof fn lemma_error_clears_suggestions(m0: Model, m1: Model, eff: Seq<Effect>)
    requires
        step(m0, Event::SuggestionsReceived(AddressSuggestionsResult::Error), m1, eff),
    ensures
        m1.address.suggestions@.len() == 0,
        eff.contains(Effect::Render),
{
    assert(eff.contains(Effect::Render)) by {
        assert(eff[0] == Effect::Render);
    }
}

} // verus!
