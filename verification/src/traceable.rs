use vstd::prelude::*;
use vstd::string::StringExecFns;
use crate::opaque::AnyError;
use crate::text::{
    dec_str, newline_count, no_newline, u32_to_string, lemma_newline_count_add,
    lemma_newline_count_zero, lemma_no_newline_add, lemma_dec_str_no_newline,
};

verus! {

/// A result whose failure side carries a full propagation trail.
pub type TraceResult<T> = Result<T, TraceError>;

/// An error that records every hop a failure took: an append-only list of
/// frames, oldest first. Once seeded through the protocol it never holds
/// fewer than one frame, and pushing never touches earlier frames.
#[derive(Debug)]
pub struct TraceError(pub Vec<AtError>);

/// Where in the sources a frame was recorded.
#[derive(Clone, Copy, Debug)]
pub struct Location {
    pub file: &'static str,
    pub line: u32,
}

/// One annotated hop of a propagating failure: a place and a payload.
#[derive(Debug)]
pub struct AtError {
    pub loc: Location,
    pub e_type: ErrType,
}

/// What a frame carries: a process-lifetime message, an owned message, or an
/// opaque outside error.
#[derive(Debug)]
pub enum ErrType {
    S(&'static str),
    ST(String),
    Any(AnyError),
}

impl View for TraceError {
    type V = Seq<AtError>;

    open spec fn view(&self) -> Seq<AtError> {
        self.0@
    }
}

/// The text a frame's payload renders as.
pub open spec fn err_type_text(e: ErrType) -> Seq<char> {
    match e {
        ErrType::S(s) => s@,
        ErrType::ST(s) => s@,
        ErrType::Any(a) => a@,
    }
}

/// The text a location renders as: `origin:line`.
pub open spec fn location_text(l: Location) -> Seq<char> {
    l.file@ + seq![':'] + dec_str(l.line as nat)
}

/// The text a frame renders as: `origin:line - payload`.
pub open spec fn frame_text(f: AtError) -> Seq<char> {
    location_text(f.loc) + seq![' ', '-', ' '] + err_type_text(f.e_type)
}

/// The text a whole trail renders as: one line per frame, oldest first.
pub open spec fn render_text(frames: Seq<AtError>) -> Seq<char>
    decreases frames.len(),
{
    if frames.len() == 0 {
        Seq::empty()
    } else {
        render_text(frames.drop_last()) + frame_text(frames.last()) + seq!['\n']
    }
}

impl ErrType {
    /// The payload's message.
    pub fn render(&self) -> (r: String)
        ensures
            r@ == err_type_text(*self),
    {
        match self {
            ErrType::S(s) => String::from_str(s),
            ErrType::ST(s) => s.clone(),
            ErrType::Any(a) => String::from_str(a.text()),
        }
    }
}

impl Location {
    /// Renders as `origin:line`.
    pub fn render(&self) -> (r: String)
        ensures
            r@ == location_text(*self),
    {
        let mut s = String::from_str(self.file);
        s.append(":");
        let line = u32_to_string(self.line);
        s.append(line.as_str());
        proof {
            reveal_strlit(":");
            assert(s@ =~= location_text(*self));
        }
        s
    }
}

impl AtError {
    /// Renders as `origin:line - payload`.
    pub fn render(&self) -> (r: String)
        ensures
            r@ == frame_text(*self),
    {
        let mut s = self.loc.render();
        s.append(" - ");
        let t = self.e_type.render();
        s.append(t.as_str());
        proof {
            reveal_strlit(" - ");
            assert(" - "@ =~= seq![' ', '-', ' ']);
            assert(s@ =~= frame_text(*self));
        }
        s
    }
}

impl TraceError {
    /// A trail seeded through the protocol holds at least one frame.
    pub open spec fn wf(self) -> bool {
        self@.len() >= 1
    }

    /// Seeds a trail with exactly the given first frame.
    pub fn from_frame(e: AtError) -> (r: TraceError)
        ensures
            r@ == seq![e],
            r.wf(),
    {
        let ghost ge = e;
        let mut v: Vec<AtError> = Vec::new();
        v.push(e);
        let r = TraceError(v);
        proof {
            assert(r@ =~= seq![ge]);
        }
        r
    }

    /// How many frames the trail holds.
    pub fn frame_count(&self) -> (r: usize)
        ensures
            r == self@.len(),
    {
        self.0.len()
    }

    /// Renders every frame in order, one line per frame, oldest first.
    pub fn render(&self) -> (r: String)
        ensures
            r@ == render_text(self@),
    {
        let mut s = String::new();
        let mut i: usize = 0;
        while i < self.0.len()
            invariant
                i <= self.0.len(),
                s@ == render_text(self@.take(i as int)),
            decreases self.0.len() - i,
        {
            let line = self.0[i].render();
            s.append(line.as_str());
            s.append("\n");
            proof {
                reveal_strlit("\n");
                assert("\n"@ =~= seq!['\n']);
                assert(self@.take(i + 1).drop_last() =~= self@.take(i as int));
                assert(self@.take(i + 1).last() == self@[i as int]);
                assert(s@ =~= render_text(self@.take(i + 1)));
            }
            i += 1;
        }
        proof {
            assert(self@.take(self.0.len() as int) =~= self@);
        }
        s
    }
}

/// The capability of any failure shape to take on one more frame and come out
/// as a trail: an opaque outside error, a single frame, or a trail already.
pub trait Traceable: Sized {
    /// Which trail contents pushing a frame onto this value yields.
    spec fn pushes_to(self, e: AtError, r: TraceError) -> bool;

    /// What the source must satisfy for the push guarantees to hold; only a
    /// trail built outside the protocol can fail it.
    spec fn source_wf(self) -> bool;

    /// Every push of a frame yields a trail of at least two frames that ends
    /// with exactly that frame.
    proof fn pushes_to_facts(self, e: AtError, r: TraceError)
        requires
            self.source_wf(),
            self.pushes_to(e, r),
        ensures
            r@.len() >= 2,
            r@.last() == e,
            r.wf(),
    ;

    /// Normalizes this failure into a trail and appends the given frame last.
    fn push_err(self, e: AtError) -> (r: TraceError)
        ensures
            self.pushes_to(e, r),
    ;

    /// Pushes a frame with a process-lifetime message.
    fn push_str(self, s: &'static str, l: Location) -> (r: TraceError)
        ensures
            self.pushes_to(AtError { loc: l, e_type: ErrType::S(s) }, r),
    {
        self.push_err(AtError { loc: l, e_type: ErrType::S(s) })
    }

    /// Pushes a frame with an owned message.
    fn push_string(self, s: String, l: Location) -> (r: TraceError)
        ensures
            self.pushes_to(AtError { loc: l, e_type: ErrType::ST(s) }, r),
    {
        self.push_err(AtError { loc: l, e_type: ErrType::ST(s) })
    }

    /// Pushes a frame wrapping an opaque outside error.
    fn push_any(self, a: anyhow::Error, l: Location) -> (r: TraceError)
        ensures
            exists|w: AnyError|
                #[trigger] self.pushes_to(AtError { loc: l, e_type: ErrType::Any(w) }, r)
                    && w.wrapped() == a,
    {
        let ghost gs = self;
        let ghost ga = a;
        let w = AnyError::new(a);
        let ghost gw = w;
        let r = self.push_err(AtError { loc: l, e_type: ErrType::Any(w) });
        proof {
            assert(gs.pushes_to(AtError { loc: l, e_type: ErrType::Any(gw) }, r)
                && gw.wrapped() == ga);
        }
        r
    }
}

impl Traceable for TraceError {
    /// A trail grows by exactly the pushed frame.
    open spec fn pushes_to(self, e: AtError, r: TraceError) -> bool {
        r@ == self@.push(e)
    }

    open spec fn source_wf(self) -> bool {
        self@.len() >= 1
    }

    proof fn pushes_to_facts(self, e: AtError, r: TraceError) {
    }

    fn push_err(self, e_new: AtError) -> (r: TraceError) {
        let mut s = self;
        s.0.push(e_new);
        s
    }
}

impl Traceable for AtError {
    /// A lone frame becomes a two-frame trail: itself, then the pushed frame.
    open spec fn pushes_to(self, e: AtError, r: TraceError) -> bool {
        r@ == seq![self, e]
    }

    open spec fn source_wf(self) -> bool {
        true
    }

    proof fn pushes_to_facts(self, e: AtError, r: TraceError) {
    }

    fn push_err(self, e_new: AtError) -> (r: TraceError) {
        let ghost gs = self;
        let ghost ge = e_new;
        let mut v: Vec<AtError> = Vec::new();
        v.push(self);
        v.push(e_new);
        let r = TraceError(v);
        proof {
            assert(r@ =~= seq![gs, ge]);
        }
        r
    }
}

impl Traceable for anyhow::Error {
    /// An opaque outside error becomes a sentinel frame (origin `--`, line 0,
    /// wrapping the error) followed by the pushed frame.
    open spec fn pushes_to(self, e: AtError, r: TraceError) -> bool {
        &&& r@.len() == 2
        &&& r@[0].loc.file@ == "--"@
        &&& r@[0].loc.line == 0
        &&& (r@[0].e_type matches ErrType::Any(w) && w.wrapped() == self)
        &&& r@[1] == e
    }

    open spec fn source_wf(self) -> bool {
        true
    }

    proof fn pushes_to_facts(self, e: AtError, r: TraceError) {
        assert(r@.last() == r@[1]);
    }

    fn push_err(self, err: AtError) -> (r: TraceError) {
        let ghost gs = self;
        let ghost gerr = err;
        let w = AnyError::new(self);
        let first = AtError { loc: Location { file: "--", line: 0 }, e_type: ErrType::Any(w) };
        let ghost gfirst = first;
        let mut v: Vec<AtError> = Vec::new();
        v.push(first);
        v.push(err);
        let r = TraceError(v);
        proof {
            assert(r@ =~= seq![gfirst, gerr]);
        }
        r
    }
}

/// The same capability lifted over results: a success passes through
/// untouched, a failure takes on the frame.
pub trait TraceableRes<T>: Sized {
    /// Which outcome pushing a frame onto this result yields.
    spec fn res_pushes_to(self, e: AtError, r: TraceResult<T>) -> bool;

    /// What the source must satisfy for the push guarantees to hold.
    spec fn res_source_wf(self) -> bool;

    /// A failed push result holds at least two frames and ends with the
    /// pushed frame.
    proof fn res_pushes_to_facts(self, e: AtError, r: TraceResult<T>)
        requires
            self.res_source_wf(),
            self.res_pushes_to(e, r),
        ensures
            r matches Err(t) ==> t@.len() >= 2 && t@.last() == e && t.wf(),
    ;

    /// Passes a success through; annotates a failure with the given frame.
    fn push_err(self, e: AtError) -> (r: TraceResult<T>)
        ensures
            self.res_pushes_to(e, r),
    ;

    /// Annotates a failure with a process-lifetime message.
    fn push_str(self, s: &'static str, l: Location) -> (r: TraceResult<T>)
        ensures
            self.res_pushes_to(AtError { loc: l, e_type: ErrType::S(s) }, r),
    {
        self.push_err(AtError { loc: l, e_type: ErrType::S(s) })
    }

    /// Annotates a failure with an owned message.
    fn push_string(self, s: String, l: Location) -> (r: TraceResult<T>)
        ensures
            self.res_pushes_to(AtError { loc: l, e_type: ErrType::ST(s) }, r),
    {
        self.push_err(AtError { loc: l, e_type: ErrType::ST(s) })
    }

    /// Annotates a failure with an opaque outside error.
    fn push_any(self, a: anyhow::Error, l: Location) -> (r: TraceResult<T>)
        ensures
            exists|w: AnyError|
                #[trigger] self.res_pushes_to(AtError { loc: l, e_type: ErrType::Any(w) }, r)
                    && w.wrapped() == a,
    {
        let ghost gs = self;
        let ghost ga = a;
        let w = AnyError::new(a);
        let ghost gw = w;
        let r = self.push_err(AtError { loc: l, e_type: ErrType::Any(w) });
        proof {
            assert(gs.res_pushes_to(AtError { loc: l, e_type: ErrType::Any(gw) }, r)
                && gw.wrapped() == ga);
        }
        r
    }
}

impl<T, E: Traceable> TraceableRes<T> for Result<T, E> {
    open spec fn res_pushes_to(self, e: AtError, r: TraceResult<T>) -> bool {
        match self {
            Ok(v) => r matches Ok(w) && w == v,
            Err(er) => r matches Err(t) && er.pushes_to(e, t),
        }
    }

    open spec fn res_source_wf(self) -> bool {
        match self {
            Ok(_) => true,
            Err(er) => er.source_wf(),
        }
    }

    proof fn res_pushes_to_facts(self, e: AtError, r: TraceResult<T>) {
        match self {
            Ok(_) => {},
            Err(er) => {
                match r {
                    Ok(_) => {},
                    Err(t) => {
                        er.pushes_to_facts(e, t);
                    },
                }
            },
        }
    }

    fn push_err(self, err: AtError) -> (r: TraceResult<T>) {
        match self {
            Ok(v) => Ok(v),
            Err(e) => Err(e.push_err(err)),
        }
    }
}

/// A push appends the new frame at the end and leaves every earlier frame of
/// the trail exactly as it was.
pub proof fn lemma_push_keeps_frames(a: TraceError, e: AtError, r: TraceError)
    requires
        a.pushes_to(e, r),
    ensures
        r@.len() == a@.len() + 1,
        forall|i: int| 0 <= i < a@.len() ==> r@[i] == a@[i],
        r@[a@.len() as int] == e,
{
}

/// No push on a well-formed source yields fewer than two frames, and the
/// pushed frame always comes out last.
pub proof fn lemma_push_never_short<S: Traceable>(s: S, e: AtError, r: TraceError)
    requires
        s.source_wf(),
        s.pushes_to(e, r),
    ensures
        r@.len() >= 2,
        r@.last() == e,
        r.wf(),
{
    s.pushes_to_facts(e, r);
}

/// A trail seeded from an opaque outside error starts with the sentinel
/// frame: origin `--`, line 0, an opaque payload wrapping that error.
pub proof fn lemma_opaque_sentinel(a: anyhow::Error, e: AtError, r: TraceError)
    requires
        a.pushes_to(e, r),
    ensures
        r@.len() == 2,
        r@[0].loc.file@ == "--"@,
        r@[0].loc.line == 0,
        r@[0].e_type matches ErrType::Any(w) && w.wrapped() == a,
        r@[1] == e,
{
}

/// Rendering after a push appends exactly one line for the new frame and
/// keeps the earlier rendering as an unchanged prefix: display order is
/// accumulation order.
pub proof fn lemma_render_push(frames: Seq<AtError>, f: AtError)
    ensures
        render_text(frames.push(f)) == render_text(frames) + frame_text(f) + seq!['\n'],
{
    assert(frames.push(f).drop_last() =~= frames);
    assert(frames.push(f).last() == f);
}

/// True of a frame whose origin and payload text hold no newline.
pub open spec fn frame_single_line(f: AtError) -> bool {
    no_newline(f.loc.file@) && no_newline(err_type_text(f.e_type))
}

/// A single-line frame renders without any newline.
pub proof fn lemma_frame_text_no_newline(f: AtError)
    requires
        frame_single_line(f),
    ensures
        no_newline(frame_text(f)),
{
    lemma_dec_str_no_newline(f.loc.line as nat);
    assert(no_newline(seq![':']));
    assert(no_newline(seq![' ', '-', ' ']));
    lemma_no_newline_add(f.loc.file@, seq![':']);
    lemma_no_newline_add(f.loc.file@ + seq![':'], dec_str(f.loc.line as nat));
    lemma_no_newline_add(location_text(f.loc), seq![' ', '-', ' ']);
    lemma_no_newline_add(location_text(f.loc) + seq![' ', '-', ' '], err_type_text(f.e_type));
}

/// The rendered trail has exactly as many lines as frames: one newline per
/// frame, when every frame is single-line.
pub proof fn lemma_render_line_count(frames: Seq<AtError>)
    requires
        forall|i: int| 0 <= i < frames.len() ==> #[trigger] frame_single_line(frames[i]),
    ensures
        newline_count(render_text(frames)) == frames.len(),
    decreases frames.len(),
{
    if frames.len() > 0 {
        let prefix = frames.drop_last();
        let f = frames.last();
        assert(frame_single_line(f));
        assert(forall|i: int| 0 <= i < prefix.len() ==> #[trigger] frame_single_line(prefix[i]));
        lemma_render_line_count(prefix);
        lemma_newline_count_add(render_text(prefix) + frame_text(f), seq!['\n']);
        lemma_newline_count_add(render_text(prefix), frame_text(f));
        lemma_frame_text_no_newline(f);
        lemma_newline_count_zero(frame_text(f));
        assert(newline_count(seq!['\n']) == 1) by {
            let nl = seq!['\n'];
            assert(nl.last() == '\n');
            assert(nl.drop_last() =~= Seq::<char>::empty());
            assert(newline_count(Seq::<char>::empty()) == 0);
        }
    }
}

} // verus!
