use vstd::prelude::*;

verus! {

/// Declares anyhow::Error so that values of it can be held and passed along;
/// the type stays fully opaque here.
#[verifier::external_type_specification]
#[verifier::external_body]
pub struct ExAnyhowError(anyhow::Error);

/// Relies on anyhow::Error's Display implementation: renders the message of
/// the outermost error in the chain. The text depends on the wrapped error
/// alone, but that error is opaque here, so nothing is promised of it.
#[verifier::external_body]
fn render_error(e: &anyhow::Error) -> String {
    format!("{}", e)
}

/// One failure taken in from outside, kept together with the text it rendered
/// as when it entered. The wrapped error itself stays opaque; all reasoning
/// about the value goes through that captured text, which is its view.
#[derive(Debug)]
pub struct AnyError {
    inner: anyhow::Error,
    text: String,
}

impl View for AnyError {
    type V = Seq<char>;

    closed spec fn view(&self) -> Seq<char> {
        self.text@
    }
}

impl AnyError {
    /// Which outside error the value wraps.
    pub closed spec fn wrapped(&self) -> anyhow::Error {
        self.inner
    }

    /// Takes an outside error in, capturing its textual rendering once.
    pub fn new(e: anyhow::Error) -> (r: AnyError)
        ensures
            r.wrapped() == e,
    {
        let text = render_error(&e);
        AnyError { inner: e, text }
    }

    /// The text the wrapped error rendered as.
    pub fn text(&self) -> (r: &str)
        ensures
            r@ == self@,
    {
        self.text.as_str()
    }

    /// Gives the wrapped outside error back.
    pub fn into_inner(self) -> (r: anyhow::Error)
        ensures
            r == self.wrapped(),
    {
        self.inner
    }
}

} // verus!
