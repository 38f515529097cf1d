use form_core::address::AddressHandler;
use form_core::address::AddressSuggestion;
use form_core::address::AddressSuggestionsResult;
use form_core::app::App;
use form_core::app::Event;
use form_core::app::Model;
use form_core::effect::Effect;
use form_core::field::FieldIdent;

fn sample_suggestion() -> AddressSuggestion {
    AddressSuggestion::new("221B Baker Street", "London", "NW1 6XE", "UK")
}

fn update(app: &App, model: &mut Model, ident: FieldIdent, value: &str) -> Vec<Effect> {
    app.update(
        Event::UpdateValue {
            ident,
            value: value.to_string(),
        },
        model,
    )
}

fn fill_valid(app: &App, model: &mut Model) {
    update(app, model, FieldIdent::Username, "ValidUser");
    update(app, model, FieldIdent::Email, "valid@example.com");
    update(app, model, FieldIdent::Age, "30");
    update(app, model, FieldIdent::Address, "123 Main St");
}

// Dirtiness tracks whether the value differs from the initial value,
// in both directions.
#[test]
fn dirty_follows_value_against_initial() {
    let app = App::default();
    let mut model = Model::default();

    update(&app, &mut model, FieldIdent::Username, "abc");
    assert!(model.form.form.username.dirty);

    update(&app, &mut model, FieldIdent::Username, "");
    assert!(!model.form.form.username.dirty);

    update(&app, &mut model, FieldIdent::Age, "25");
    assert!(model.form.form.age.dirty);

    update(&app, &mut model, FieldIdent::Age, "abc");
    assert!(!model.form.form.age.dirty);
}

// Reset restores the factory defaults for every field and flag.
#[test]
fn reset_restores_factory_defaults() {
    let app = App::default();
    let mut model = Model::default();

    fill_valid(&app, &mut model);
    let _ = app.update(Event::Submit, &mut model);
    assert!(model.form.form.submitted);

    let _ = app.update(Event::ResetForm, &mut model);

    let form = &model.form.form;
    assert!(form.is_editing);
    assert!(!form.submitted);
    for (touched, dirty, editing) in [
        (form.username.touched, form.username.dirty, form.username.editing),
        (form.email.touched, form.email.dirty, form.email.editing),
        (form.age.touched, form.age.dirty, form.age.editing),
        (form.address.touched, form.address.dirty, form.address.editing),
    ] {
        assert!(!touched);
        assert!(!dirty);
        assert!(!editing);
    }
    assert_eq!(
        form.username.error.as_deref(),
        Some("Username cannot be empty")
    );
    assert_eq!(form.email.error.as_deref(), Some("Email cannot be empty"));
    assert!(form.age.error.is_none());
    assert_eq!(
        form.address.error.as_deref(),
        Some("Address cannot be empty")
    );
}

// Submitting an all-valid form locks it once; a second submission
// re-touches and re-validates but leaves the lock state as it is, and
// both submissions render.
#[test]
fn submit_locks_once_and_stays_locked() {
    let app = App::default();
    let mut model = Model::default();

    fill_valid(&app, &mut model);
    assert!(!model.form.form.submitted);
    assert!(model.form.form.is_editing);

    let effects = app.update(Event::Submit, &mut model);
    assert!(model.form.form.submitted);
    assert!(!model.form.form.is_editing);
    assert!(effects.iter().any(|e| matches!(e, Effect::Render)));

    let effects = app.update(Event::Submit, &mut model);
    assert!(model.form.form.submitted);
    assert!(!model.form.form.is_editing);
    assert!(effects.iter().any(|e| matches!(e, Effect::Render)));
}

// Updating the address while editing emits exactly one HTTP effect whose
// query is the raw text verbatim, unencoded.
#[test]
fn address_update_emits_one_fetch_with_verbatim_query() {
    let app = App::default();
    let mut model = Model::default();

    let effects = update(&app, &mut model, FieldIdent::Address, "10 Downing");

    let urls: Vec<&str> = effects
        .iter()
        .filter_map(|e| match e {
            Effect::Http { url } => Some(url.as_str()),
            _ => None,
        })
        .collect();
    assert_eq!(urls.len(), 1);
    assert_eq!(
        urls[0],
        "http://localhost:8000/api/suggestions?query=10 Downing"
    );
}

// While the form is locked, an address update emits nothing at all.
#[test]
fn locked_form_ignores_updates() {
    let app = App::default();
    let mut model = Model::default();
    model.form.form.set_editing(false);

    let effects = update(&app, &mut model, FieldIdent::Address, "test");
    assert!(effects.is_empty());
    assert_eq!(model.form.form.address.value, "");
}

// An error outcome empties the list and renders, whatever it held.
#[test]
fn error_response_clears_existing_suggestions() {
    let app = App::default();
    let mut model = Model::default();
    model.address.suggestions = vec![sample_suggestion(), sample_suggestion()];

    let effects = app.update(
        Event::SuggestionsReceived(AddressSuggestionsResult::Error),
        &mut model,
    );

    assert!(model.address.suggestions.is_empty());
    assert!(matches!(effects[0], Effect::Render));
}

// A successful fetch replaces the list wholesale, even when the new list
// is shorter than the old one.
#[test]
fn success_response_replaces_suggestions_wholesale() {
    let app = App::default();
    let mut model = Model::default();
    model.address.suggestions = vec![sample_suggestion(), sample_suggestion()];

    let replacement = vec![AddressSuggestion::new(
        "1 Canada Square",
        "London",
        "E14 5AB",
        "UK",
    )];
    let _ = app.update(
        Event::SuggestionsReceived(AddressSuggestionsResult::Success(replacement.clone())),
        &mut model,
    );

    assert_eq!(model.address.suggestions, replacement);
}

// An empty form refuses submission: every required field reports its
// empty-value message, the optional age reports none.
#[test]
fn submit_empty_form_reports_all_empty_errors() {
    let app = App::default();
    let mut model = Model::default();

    let _ = app.update(Event::Submit, &mut model);

    let form = &model.form.form;
    assert!(!form.submitted);
    assert!(form.is_editing);
    assert_eq!(
        form.username.error.as_deref(),
        Some("Username cannot be empty")
    );
    assert_eq!(form.email.error.as_deref(), Some("Email cannot be empty"));
    assert_eq!(
        form.address.error.as_deref(),
        Some("Address cannot be empty")
    );
    assert!(form.age.error.is_none());
}

// Submitting a filled form clears the suggestions; editing again keeps
// the dirty flags from before the submission.
#[test]
fn submit_then_edit_preserves_dirtiness() {
    let app = App::default();
    let mut model = Model::default();
    model.address.suggestions = vec![sample_suggestion()];

    fill_valid(&app, &mut model);
    let _ = app.update(Event::Submit, &mut model);

    assert!(model.form.form.submitted);
    assert!(!model.form.form.is_editing);
    assert!(model.address.suggestions.is_empty());

    let _ = app.update(Event::Edit, &mut model);

    assert!(!model.form.form.submitted);
    assert!(model.form.form.is_editing);
    assert!(model.form.form.username.dirty);
    assert!(model.form.form.email.dirty);
    assert!(model.form.form.age.dirty);
    assert!(model.form.form.address.dirty);
}

// Selecting a suggestion puts its combined text into the address field,
// empties the list, and requests exactly one render.
#[test]
fn select_suggestion_applies_combined_text() {
    let app = App::default();
    let mut model = Model::default();
    let suggestion = sample_suggestion();
    let combined = suggestion.combined.clone();
    model.address.suggestions = vec![suggestion.clone()];

    let effects = app.update(Event::SelectSuggestion { suggestion }, &mut model);

    assert_eq!(model.form.form.address.value, combined);
    assert!(model.address.suggestions.is_empty());
    assert_eq!(effects.len(), 1);
    assert!(matches!(effects[0], Effect::Render));
}

// Selecting on a locked form changes nothing and emits nothing.
#[test]
fn select_suggestion_on_locked_form_is_ignored() {
    let app = App::default();
    let mut model = Model::default();
    model.address.suggestions = vec![sample_suggestion()];
    model.form.form.set_editing(false);

    let effects = app.update(
        Event::SelectSuggestion {
            suggestion: sample_suggestion(),
        },
        &mut model,
    );

    assert!(effects.is_empty());
    assert_eq!(model.form.form.address.value, "");
    assert_eq!(model.address.suggestions.len(), 1);
}

// The combined display string follows "street, city, postcode country".
#[test]
fn suggestion_combined_format() {
    let s = AddressSuggestion::new("10 Downing Street", "London", "SW1A 2AA", "UK");
    assert_eq!(s.street, "10 Downing Street");
    assert_eq!(s.city, "London");
    assert_eq!(s.postcode, "SW1A 2AA");
    assert_eq!(s.country, "UK");
    assert_eq!(s.combined, "10 Downing Street, London, SW1A 2AA UK");
}

// A fetch event alone issues the HTTP effect without touching the list.
#[test]
fn fetch_event_emits_http_and_keeps_list() {
    let app = App::default();
    let mut model = Model::default();
    model.address.suggestions = vec![sample_suggestion()];

    let effects = app.update(
        Event::FetchSuggestions {
            query: "".to_string(),
        },
        &mut model,
    );

    assert_eq!(effects.len(), 1);
    match &effects[0] {
        Effect::Http { url } => {
            assert_eq!(url, "http://localhost:8000/api/suggestions?query=");
        }
        other => panic!("expected an HTTP effect, got {:?}", other),
    }
    assert_eq!(model.address.suggestions.len(), 1);
}

// A clear event empties the list and renders.
#[test]
fn clear_event_empties_list() {
    let app = App::default();
    let mut model = Model::default();
    model.address.suggestions = vec![sample_suggestion()];

    let effects = app.update(Event::ClearSuggestions, &mut model);

    assert!(model.address.suggestions.is_empty());
    assert!(matches!(effects[0], Effect::Render));
}

// The age bounds are inclusive at 18 and 120.
#[test]
fn age_bounds_are_inclusive() {
    let app = App::default();
    let mut model = Model::default();

    update(&app, &mut model, FieldIdent::Age, "18");
    assert!(model.form.form.age.valid);
    update(&app, &mut model, FieldIdent::Age, "120");
    assert!(model.form.form.age.valid);
    update(&app, &mut model, FieldIdent::Age, "121");
    assert!(!model.form.form.age.valid);
    assert_eq!(
        model.form.form.age.error.as_deref(),
        Some("Age must be between 18 and 120")
    );
}

// Age text parsing: leading plus and leading zeros are accepted, other
// shapes fall back to unset.
#[test]
fn age_text_parse_edges() {
    let app = App::default();
    let mut model = Model::default();

    update(&app, &mut model, FieldIdent::Age, "+25");
    assert_eq!(model.form.form.age.value, Some(25));

    update(&app, &mut model, FieldIdent::Age, "025");
    assert_eq!(model.form.form.age.value, Some(25));

    update(&app, &mut model, FieldIdent::Age, "25 ");
    assert_eq!(model.form.form.age.value, None);

    update(&app, &mut model, FieldIdent::Age, "-25");
    assert_eq!(model.form.form.age.value, None);

    update(&app, &mut model, FieldIdent::Age, "4294967295");
    assert_eq!(model.form.form.age.value, Some(u32::MAX));

    update(&app, &mut model, FieldIdent::Age, "4294967296");
    assert_eq!(model.form.form.age.value, None);

    update(&app, &mut model, FieldIdent::Age, "+");
    assert_eq!(model.form.form.age.value, None);
}

// The age view text is the canonical decimal rendering.
#[test]
fn age_view_text_renders_decimal() {
    let app = App::default();
    let mut model = Model::default();

    update(&app, &mut model, FieldIdent::Age, "105");
    let view = app.view(&model);
    assert_eq!(view.age.value, "105");

    update(&app, &mut model, FieldIdent::Age, "4294967295");
    let view = app.view(&model);
    assert_eq!(view.age.value, "4294967295");
}

// Email shapes accepted and rejected by the address-style check.
#[test]
fn email_shapes() {
    let app = App::default();
    let mut model = Model::default();

    let cases: &[(&str, bool)] = &[
        ("user@example.com", true),
        ("first.last+tag@sub.domain-x.org", true),
        ("u@e.co", true),
        ("user@example", false),
        ("user@example.c", false),
        ("@example.com", false),
        ("user@.com", false),
        ("user@@example.com", false),
        ("user example@site.com", false),
        ("user@site.com.", false),
        ("user", false),
    ];
    for (text, expect_valid) in cases {
        update(&app, &mut model, FieldIdent::Email, text);
        assert_eq!(
            model.form.form.email.valid, *expect_valid,
            "email validity for {:?}",
            text
        );
        if !*expect_valid {
            assert_eq!(
                model.form.form.email.error.as_deref(),
                Some("Please enter a valid email address (e.g. user@example.com)")
            );
        }
    }
}

// Enabling a field on a locked form is refused; disabling is allowed.
#[test]
fn set_field_editing_respects_lock() {
    let app = App::default();
    let mut model = Model::default();
    model.form.form.set_editing(false);
    assert!(!model.form.form.username.editing);

    let effects = app.update(
        Event::SetFieldEditing {
            ident: FieldIdent::Username,
            editing: true,
        },
        &mut model,
    );
    assert!(effects.is_empty());
    assert!(!model.form.form.username.editing);

    model.form.form.set_editing(true);
    let _ = app.update(
        Event::SetFieldEditing {
            ident: FieldIdent::Username,
            editing: true,
        },
        &mut model,
    );
    assert!(model.form.form.username.editing);

    model.form.form.set_editing(false);
    assert!(!model.form.form.username.editing);
    let _ = app.update(
        Event::SetFieldEditing {
            ident: FieldIdent::Username,
            editing: true,
        },
        &mut model,
    );
    assert!(!model.form.form.username.editing);
}

// The address handler builds its URL from the base it was created with.
#[test]
fn fetch_uses_configured_base_url() {
    let mut handler = AddressHandler::new("http://example.org/lookup".to_string());
    let effects = handler.handle_fetch_suggestions("abc".to_string());
    match &effects[0] {
        Effect::Http { url } => assert_eq!(url, "http://example.org/lookup?query=abc"),
        other => panic!("expected an HTTP effect, got {:?}", other),
    }
}
