use vstd::prelude::*;
use vstd::string::StringExecFns;

pub mod opaque;
pub mod stackable;
pub mod text;
pub mod traceable;

verus! {

/// Relies on anyhow::Error::msg: builds an opaque error whose textual
/// rendering is the given message.
#[verifier::external_body]
fn msg_error(m: String) -> anyhow::Error {
    anyhow::Error::msg(m)
}

/// Relies on the Display implementation of E through format!: renders the
/// wrapped error followed by the note in parentheses. What that text is
/// depends on E's own rendering, of which nothing is promised here.
#[verifier::external_body]
fn pair_text<E: core::fmt::Display>(e: &E, s: &str) -> String {
    format!("{} ({})", e, s)
}

/// A plain error carrying a message with process lifetime.
#[derive(Clone, Debug, PartialEq)]
pub struct SError(pub &'static str);

/// A plain error carrying an owned message.
#[derive(Clone, Debug, PartialEq)]
pub struct SgError(pub String);

/// An outside error paired with a process-lifetime note.
#[derive(Clone, Debug, PartialEq)]
pub struct SWrap<E: core::fmt::Debug + core::fmt::Display> {
    e: E,
    s: &'static str,
}

/// An outside error paired with an owned note.
#[derive(Clone, Debug, PartialEq)]
pub struct SgWrap<E: core::fmt::Debug + core::fmt::Display> {
    e: E,
    s: String,
}

impl SError {
    /// The opaque error this converts into, rendering as the message alone.
    pub fn into_error(self) -> anyhow::Error {
        msg_error(String::from_str(self.0))
    }
}

impl SgError {
    /// The opaque error this converts into, rendering as the message alone.
    pub fn into_error(self) -> anyhow::Error {
        msg_error(self.0)
    }
}

impl<E: core::fmt::Debug + core::fmt::Display> SWrap<E> {
    /// The opaque error this converts into, rendering as `wrapped (note)`.
    pub fn into_error(self) -> anyhow::Error {
        msg_error(pair_text(&self.e, self.s))
    }
}

impl<E: core::fmt::Debug + core::fmt::Display> SgWrap<E> {
    /// The opaque error this converts into, rendering as `wrapped (note)`.
    pub fn into_error(self) -> anyhow::Error {
        msg_error(pair_text(&self.e, self.s.as_str()))
    }
}

/// Always fails, with an opaque error carrying the given message.
pub fn e_str<T>(s: &'static str) -> (r: anyhow::Result<T>)
    ensures
        r matches Err(_),
{
    Err(SError(s).into_error())
}

/// Always fails, with an opaque error carrying the given owned message.
pub fn e_string<T>(s: String) -> (r: anyhow::Result<T>)
    ensures
        r matches Err(_),
{
    Err(SgError(s).into_error())
}

/// Turns an optional value into a result, with a described failure for the
/// missing case.
pub trait OpError: Sized {
    type V;

    /// The optional value this adapter carries.
    spec fn op_spec(self) -> Option<Self::V>;

    /// The carried optional value itself.
    fn op_err(self) -> (r: Option<Self::V>)
        ensures
            r == self.op_spec(),
    ;

    /// The carried value on success; otherwise an error with the given
    /// message.
    fn e_str(self, s: &'static str) -> (r: anyhow::Result<Self::V>)
        ensures
            match self.op_spec() {
                Some(v) => r matches Ok(w) && w == v,
                None => r matches Err(_),
            },
    {
        match self.op_err() {
            Some(v) => Ok(v),
            None => Err(SError(s).into_error()),
        }
    }

    /// The carried value on success; otherwise an error with the given owned
    /// message.
    fn e_string(self, s: String) -> (r: anyhow::Result<Self::V>)
        ensures
            match self.op_spec() {
                Some(v) => r matches Ok(w) && w == v,
                None => r matches Err(_),
            },
    {
        match self.op_err() {
            Some(v) => Ok(v),
            None => Err(SgError(s).into_error()),
        }
    }
}

impl<V> OpError for Option<V> {
    type V = V;

    open spec fn op_spec(self) -> Option<V> {
        self
    }

    fn op_err(self) -> (r: Option<V>) {
        self
    }
}

/// Turns a result with an arbitrary displayable error into one with an
/// opaque error that notes the context.
pub trait ResError: Sized {
    type V;

    type E: core::fmt::Debug + core::fmt::Display + Send + Sync + 'static;

    /// The result this adapter carries.
    spec fn res_spec(self) -> Result<Self::V, Self::E>;

    /// The carried result itself.
    fn res_err(self) -> (r: Result<Self::V, Self::E>)
        ensures
            r == self.res_spec(),
    ;

    /// The carried value on success; otherwise the wrapped error with the
    /// given note.
    fn e_str(self, s: &'static str) -> (r: anyhow::Result<Self::V>)
        ensures
            match self.res_spec() {
                Ok(v) => r matches Ok(w) && w == v,
                Err(_) => r matches Err(_),
            },
    {
        match self.res_err() {
            Ok(v) => Ok(v),
            Err(e) => Err(SWrap { s, e }.into_error()),
        }
    }

    /// The carried value on success; otherwise the wrapped error with the
    /// given owned note.
    fn e_string(self, s: String) -> (r: anyhow::Result<Self::V>)
        ensures
            match self.res_spec() {
                Ok(v) => r matches Ok(w) && w == v,
                Err(_) => r matches Err(_),
            },
    {
        match self.res_err() {
            Ok(v) => Ok(v),
            Err(e) => Err(SgWrap { s, e }.into_error()),
        }
    }
}

impl<T, E: core::fmt::Debug + core::fmt::Display + Send + Sync + 'static> ResError for Result<
    T,
    E,
> {
    type V = T;

    type E = E;

    open spec fn res_spec(self) -> Result<T, E> {
        self
    }

    fn res_err(self) -> (r: Result<T, E>) {
        self
    }
}

} // verus!
