//! The address-suggestion sub-flow: the current suggestion list and the
//! fetch / receive / select / clear handling around it.

use vstd::prelude::*;
use vstd::string::StringExecFns;

use crate::effect::Effect;
use crate::effect::render_request;

verus! {

/// One address suggestion; `combined` is derived at construction and
/// never independently mutated.
#[derive(Debug, PartialEq, Eq)]
pub struct AddressSuggestion {
    pub street: String,
    pub city: String,
    pub postcode: String,
    pub country: String,
    pub combined: String,
}

/// The display string derived from a suggestion's parts.
pub open spec fn combined_text(
    street: Seq<char>,
    city: Seq<char>,
    postcode: Seq<char>,
    country: Seq<char>,
) -> Seq<char> {
    street + ", "@ + city + ", "@ + postcode + " "@ + country
}

impl AddressSuggestion {
    pub fn new(street: &str, city: &str, postcode: &str, country: &str) -> (r: AddressSuggestion)
        ensures
            r.street@ == street@,
            r.city@ == city@,
            r.postcode@ == postcode@,
            r.country@ == country@,
            r.combined@ == combined_text(street@, city@, postcode@, country@),
    {
        let mut combined = street.to_owned();
        combined.append(", ");
        combined.append(city);
        combined.append(", ");
        combined.append(postcode);
        combined.append(" ");
        combined.append(country);
        AddressSuggestion {
            street: street.to_owned(),
            city: city.to_owned(),
            postcode: postcode.to_owned(),
            country: country.to_owned(),
            combined,
        }
    }
}

impl Clone for AddressSuggestion {
    fn clone(&self) -> (r: Self)
        ensures
            r == *self,
    {
        AddressSuggestion {
            street: self.street.clone(),
            city: self.city.clone(),
            postcode: self.postcode.clone(),
            country: self.country.clone(),
            combined: self.combined.clone(),
        }
    }
}

/// The outcome of a suggestion fetch as delivered back by the shell:
/// either a decoded list, or a single undifferentiated error.
#[derive(Clone, Debug, PartialEq, Eq)]
pub enum AddressSuggestionsResult {
    Success(Vec<AddressSuggestion>),
    Error,
}

/// The events the address handler owns.
#[derive(Clone, Debug, PartialEq, Eq)]
pub enum AddressEvent {
    FetchSuggestions { query: String },
    SuggestionsReceived(AddressSuggestionsResult),
    SelectSuggestion { suggestion: AddressSuggestion },
    ClearSuggestions,
}

/// Owns the current suggestion list and the base URL queried for new
/// suggestions.
pub struct AddressHandler {
    pub suggestions: Vec<AddressSuggestion>,
    pub api_url: String,
}

/// The URL queried for suggestions: the raw query text is appended
/// verbatim, without percent-encoding.
pub open spec fn query_url(base: Seq<char>, query: Seq<char>) -> Seq<char> {
    base + "?query="@ + query
}

/// How one address event transforms the handler and which effects it
/// emits. Responses are applied in arrival order: a list received later
/// replaces whatever an earlier response installed.
pub open spec fn ah_step(
    pre: AddressHandler,
    event: AddressEvent,
    post: AddressHandler,
    eff: Seq<Effect>,
) -> bool {
    &&& post.api_url == pre.api_url
    &&& match event {
        AddressEvent::FetchSuggestions { query } => {
            &&& post.suggestions == pre.suggestions
            &&& eff.len() == 1
            &&& (eff[0] matches Effect::Http { url } && url@ == query_url(
                pre.api_url@,
                query@,
            ))
        },
        AddressEvent::SuggestionsReceived(result) => {
            &&& (result matches AddressSuggestionsResult::Success(list) ==> post.suggestions
                == list)
            &&& (result is Error ==> post.suggestions@.len() == 0)
            &&& eff =~= seq![Effect::Render]
        },
        AddressEvent::SelectSuggestion { .. } => {
            &&& post.suggestions@.len() == 0
            &&& eff =~= seq![Effect::Render]
        },
        AddressEvent::ClearSuggestions => {
            &&& post.suggestions@.len() == 0
            &&& eff =~= seq![Effect::Render]
        },
    }
}

impl AddressHandler {
    /// A handler with no suggestions, querying `api_url`.
    pub fn new(api_url: String) -> (r: AddressHandler)
        ensures
            r.suggestions@.len() == 0,
            r.api_url == api_url,
    {
        AddressHandler { suggestions: Vec::new(), api_url }
    }

    /// Unconditionally requests an HTTP fetch for `query`; the list is
    /// untouched until the response arrives as its own event.
    pub fn handle_fetch_suggestions(&mut self, query: String) -> (r: Vec<Effect>)
        ensures
            ah_step(*old(self), AddressEvent::FetchSuggestions { query }, *final(self), r@),
            *final(self) == *old(self),
    {
        let mut url = self.api_url.clone();
        url.append("?query=");
        url.append(query.as_str());
        let mut effects: Vec<Effect> = Vec::new();
        effects.push(Effect::Http { url });
        effects
    }

    /// Folds a fetch outcome into the list: a successful response
    /// replaces it wholesale, an error empties it; either way a render is
    /// requested.
    pub fn handle_suggestions_received(&mut self, result: AddressSuggestionsResult) -> (r: Vec<
        Effect,
    >)
        ensures
            ah_step(*old(self), AddressEvent::SuggestionsReceived(result), *final(self), r@),
    {
        match result {
            AddressSuggestionsResult::Success(list) => {
                self.suggestions = list;
            },
            AddressSuggestionsResult::Error => {
                self.suggestions = Vec::new();
            },
        }
        render_request()
    }

    /// Clears the list once a suggestion is chosen; the root reducer
    /// hands the chosen text to the form handler.
    pub fn handle_select_suggestion(&mut self, suggestion: AddressSuggestion) -> (r: Vec<Effect>)
        ensures
            ah_step(*old(self), AddressEvent::SelectSuggestion { suggestion }, *final(self), r@),
    {
        let _ = suggestion;
        self.suggestions = Vec::new();
        render_request()
    }

    /// Empties the list and requests a render.
    pub fn handle_clear_suggestions(&mut self) -> (r: Vec<Effect>)
        ensures
            ah_step(*old(self), AddressEvent::ClearSuggestions, *final(self), r@),
    {
        self.suggestions = Vec::new();
        render_request()
    }

    /// Routes one address event to its handler method.
    pub fn handle(&mut self, event: AddressEvent) -> (r: Vec<Effect>)
        ensures
            ah_step(*old(self), event, *final(self), r@),
    {
        match event {
            AddressEvent::FetchSuggestions { query } => self.handle_fetch_suggestions(query),
            AddressEvent::SuggestionsReceived(result) => self.handle_suggestions_received(result),
            AddressEvent::SelectSuggestion { suggestion } => self.handle_select_suggestion(
                suggestion,
            ),
            AddressEvent::ClearSuggestions => self.handle_clear_suggestions(),
        }
    }

    /// The current suggestion list.
    pub fn get_suggestions(&self) -> (r: &Vec<AddressSuggestion>)
        ensures
            *r == self.suggestions,
    {
        &self.suggestions
    }
}

} // verus!
