//! Declarative effect values: the core never performs I/O itself, it
//! returns descriptions of work for an external shell to execute.

use vstd::prelude::*;

verus! {

/// One unit of side-effecting work requested from the shell.
#[derive(Clone, Debug)]
pub enum Effect {
    /// Re-derive and display the view model; idempotent.
    Render,
    /// Perform an HTTP GET against `url` and deliver the outcome back as
    /// a suggestions-received event.
    Http { url: String },
}

/// The effect sequence consisting of a single render request.
pub(crate) fn render_request() -> (r: Vec<Effect>)
    ensures
        r@ =~= seq![Effect::Render],
{
    let mut effects: Vec<Effect> = Vec::new();
    effects.push(Effect::Render);
    effects
}

} // verus!
