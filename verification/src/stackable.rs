use vstd::prelude::*;
use vstd::string::StringExecFns;
use crate::opaque::AnyError;
use crate::text::{dec_str, u32_to_string};

verus! {

/// A result whose failure side carries a full propagation trail.
pub type TraceResult<T> = Result<T, TraceError>;

/// An error that records every hop a failure took: an append-only list of
/// frames, oldest first.
#[derive(Debug)]
pub struct TraceError(Vec<AtError>);

/// Where in the sources a frame was recorded: origin file, then line.
#[derive(Clone, Copy, Debug)]
pub struct Location(pub &'static str, pub u32);

/// One annotated hop of a propagating failure: a place and a payload.
#[derive(Debug)]
pub struct AtError {
    pub loc: Location,
    pub e_type: ErrType,
}

/// What a frame carries: a process-lifetime message, an owned message, or an
/// opaque outside error.
#[derive(Debug)]
pub enum ErrType {
    S(&'static str),
    ST(String),
    Any(AnyError),
}

impl View for TraceError {
    type V = Seq<AtError>;

    closed spec fn view(&self) -> Seq<AtError> {
        self.0@
    }
}

/// The text a frame's payload renders as.
pub open spec fn err_type_text(e: ErrType) -> Seq<char> {
    match e {
        ErrType::S(s) => s@,
        ErrType::ST(s) => s@,
        ErrType::Any(a) => a@,
    }
}

/// The text a location renders as: `origin:line`.
pub open spec fn location_text(l: Location) -> Seq<char> {
    l.0@ + seq![':'] + dec_str(l.1 as nat)
}

/// The text a frame renders as: `origin:line - payload`.
pub open spec fn frame_text(f: AtError) -> Seq<char> {
    location_text(f.loc) + seq![' ', '-', ' '] + err_type_text(f.e_type)
}

/// The text a whole trail renders as: one line per frame, oldest first.
pub open spec fn render_text(frames: Seq<AtError>) -> Seq<char>
    decreases frames.len(),
{
    if frames.len() == 0 {
        Seq::empty()
    } else {
        render_text(frames.drop_last()) + frame_text(frames.last()) + seq!['\n']
    }
}

impl ErrType {
    /// The payload's message.
    pub fn render(&self) -> (r: String)
        ensures
            r@ == err_type_text(*self),
    {
        match self {
            ErrType::S(s) => String::from_str(s),
            ErrType::ST(s) => s.clone(),
            ErrType::Any(a) => String::from_str(a.text()),
        }
    }
}

impl Location {
    /// Renders as `origin:line`.
    pub fn render(&self) -> (r: String)
        ensures
            r@ == location_text(*self),
    {
        let mut s = String::from_str(self.0);
        s.append(":");
        let line = u32_to_string(self.1);
        s.append(line.as_str());
        proof {
            reveal_strlit(":");
            assert(s@ =~= location_text(*self));
        }
        s
    }
}

impl AtError {
    /// Renders as `origin:line - payload`.
    pub fn render(&self) -> (r: String)
        ensures
            r@ == frame_text(*self),
    {
        let mut s = self.loc.render();
        s.append(" - ");
        let t = self.e_type.render();
        s.append(t.as_str());
        proof {
            reveal_strlit(" - ");
            assert(" - "@ =~= seq![' ', '-', ' ']);
            assert(s@ =~= frame_text(*self));
        }
        s
    }
}

impl TraceError {
    /// A trail seeded through the protocol holds at least one frame.
    pub open spec fn wf(self) -> bool {
        self@.len() >= 1
    }

    /// Seeds a trail with exactly the given first frame.
    pub fn from_frame(e: AtError) -> (r: TraceError)
        ensures
            r@ == seq![e],
            r.wf(),
    {
        let ghost ge = e;
        let mut v: Vec<AtError> = Vec::new();
        v.push(e);
        let r = TraceError(v);
        proof {
            assert(r@ =~= seq![ge]);
        }
        r
    }

    /// Appends one frame at the end; nothing before it changes.
    pub fn push_err(self, e: AtError) -> (r: Self)
        ensures
            r@ == self@.push(e),
    {
        let mut s = self;
        s.0.push(e);
        s
    }

    /// The recorded frames, oldest first.
    pub fn frames(&self) -> (r: &Vec<AtError>)
        ensures
            r@ == self@,
    {
        &self.0
    }

    /// How many frames the trail holds.
    pub fn frame_count(&self) -> (r: usize)
        ensures
            r == self@.len(),
    {
        self.0.len()
    }

    /// Renders every frame in order, one line per frame, oldest first.
    pub fn render(&self) -> (r: String)
        ensures
            r@ == render_text(self@),
    {
        let mut s = String::new();
        let mut i: usize = 0;
        while i < self.0.len()
            invariant
                i <= self.0.len(),
                s@ == render_text(self@.take(i as int)),
            decreases self.0.len() - i,
        {
            let line = self.0[i].render();
            s.append(line.as_str());
            s.append("\n");
            proof {
                reveal_strlit("\n");
                assert("\n"@ =~= seq!['\n']);
                assert(self@.take(i + 1).drop_last() =~= self@.take(i as int));
                assert(self@.take(i + 1).last() == self@[i as int]);
                assert(s@ =~= render_text(self@.take(i + 1)));
            }
            i += 1;
        }
        proof {
            assert(self@.take(self.0.len() as int) =~= self@);
        }
        s
    }
}

/// The capability of a result to take on one more frame: a success passes
/// through untouched, a failure of any shape is normalized into a trail with
/// the frame appended last.
pub trait TraceableRes<T>: Sized {
    /// Which outcome pushing a frame onto this result yields.
    spec fn res_pushes_to(self, e: AtError, r: TraceResult<T>) -> bool;

    /// What the source must satisfy for the push guarantees to hold; only a
    /// trail built outside the protocol can fail it.
    spec fn res_source_wf(self) -> bool;

    /// A failed push result holds at least two frames and ends with the
    /// pushed frame.
    proof fn res_pushes_to_facts(self, e: AtError, r: TraceResult<T>)
        requires
            self.res_source_wf(),
            self.res_pushes_to(e, r),
        ensures
            r matches Err(t) ==> t@.len() >= 2 && t@.last() == e && t.wf(),
    ;

    /// Passes a success through; annotates a failure with the given frame.
    fn push_err(self, e: AtError) -> (r: TraceResult<T>)
        ensures
            self.res_pushes_to(e, r),
    ;

    /// Annotates a failure with a process-lifetime message.
    fn push_str(self, s: &'static str, l: Location) -> (r: TraceResult<T>)
        ensures
            self.res_pushes_to(AtError { loc: l, e_type: ErrType::S(s) }, r),
    {
        self.push_err(AtError { loc: l, e_type: ErrType::S(s) })
    }

    /// Annotates a failure with an owned message.
    fn push_string(self, s: String, l: Location) -> (r: TraceResult<T>)
        ensures
            self.res_pushes_to(AtError { loc: l, e_type: ErrType::ST(s) }, r),
    {
        self.push_err(AtError { loc: l, e_type: ErrType::ST(s) })
    }

    /// Annotates a failure with an opaque outside error.
    fn push_any(self, a: anyhow::Error, l: Location) -> (r: TraceResult<T>)
        ensures
            exists|w: AnyError|
                #[trigger] self.res_pushes_to(AtError { loc: l, e_type: ErrType::Any(w) }, r)
                    && w.wrapped() == a,
    {
        let ghost gs = self;
        let ghost ga = a;
        let w = AnyError::new(a);
        let ghost gw = w;
        let r = self.push_err(AtError { loc: l, e_type: ErrType::Any(w) });
        proof {
            assert(gs.res_pushes_to(AtError { loc: l, e_type: ErrType::Any(gw) }, r)
                && gw.wrapped() == ga);
        }
        r
    }
}

impl<T> TraceableRes<T> for Result<T, TraceError> {
    /// An existing trail grows by exactly the pushed frame.
    open spec fn res_pushes_to(self, e: AtError, r: TraceResult<T>) -> bool {
        match self {
            Ok(v) => r matches Ok(w) && w == v,
            Err(t) => r matches Err(nt) && nt@ == t@.push(e),
        }
    }

    open spec fn res_source_wf(self) -> bool {
        match self {
            Ok(_) => true,
            Err(t) => t@.len() >= 1,
        }
    }

    proof fn res_pushes_to_facts(self, e: AtError, r: TraceResult<T>) {
    }

    fn push_err(self, err: AtError) -> (r: TraceResult<T>) {
        match self {
            Ok(v) => Ok(v),
            Err(t) => Err(t.push_err(err)),
        }
    }
}

impl<T> TraceableRes<T> for Result<T, AtError> {
    /// A lone frame becomes a two-frame trail: itself, then the pushed frame.
    open spec fn res_pushes_to(self, e: AtError, r: TraceResult<T>) -> bool {
        match self {
            Ok(v) => r matches Ok(w) && w == v,
            Err(a) => r matches Err(nt) && nt@ == seq![a, e],
        }
    }

    open spec fn res_source_wf(self) -> bool {
        true
    }

    proof fn res_pushes_to_facts(self, e: AtError, r: TraceResult<T>) {
    }

    fn push_err(self, e_new: AtError) -> (r: TraceResult<T>) {
        match self {
            Ok(v) => Ok(v),
            Err(e_orig) => {
                let ghost go = e_orig;
                let ghost gn = e_new;
                let mut v: Vec<AtError> = Vec::new();
                v.push(e_orig);
                v.push(e_new);
                let t = TraceError(v);
                proof {
                    assert(t@ =~= seq![go, gn]);
                }
                Err(t)
            },
        }
    }
}

impl<T> TraceableRes<T> for Result<T, anyhow::Error> {
    /// An opaque outside error becomes a sentinel frame (origin `--`, line 0,
    /// wrapping the error) followed by the pushed frame.
    open spec fn res_pushes_to(self, e: AtError, r: TraceResult<T>) -> bool {
        match self {
            Ok(v) => r matches Ok(w) && w == v,
            Err(a) => r matches Err(nt) && {
                &&& nt@.len() == 2
                &&& nt@[0].loc.0@ == "--"@
                &&& nt@[0].loc.1 == 0
                &&& (nt@[0].e_type matches ErrType::Any(w) && w.wrapped() == a)
                &&& nt@[1] == e
            },
        }
    }

    open spec fn res_source_wf(self) -> bool {
        true
    }

    proof fn res_pushes_to_facts(self, e: AtError, r: TraceResult<T>) {
        match r {
            Ok(_) => {},
            Err(t) => {
                if self matches Err(_) {
                    assert(t@.last() == t@[1]);
                }
            },
        }
    }

    fn push_err(self, err: AtError) -> (r: TraceResult<T>) {
        match self {
            Ok(v) => Ok(v),
            Err(a) => {
                let ghost gerr = err;
                let w = AnyError::new(a);
                let first = AtError { loc: Location("--", 0), e_type: ErrType::Any(w) };
                let ghost gfirst = first;
                let mut v: Vec<AtError> = Vec::new();
                v.push(first);
                v.push(err);
                let t = TraceError(v);
                proof {
                    assert(t@ =~= seq![gfirst, gerr]);
                }
                Err(t)
            },
        }
    }
}

} // verus!
