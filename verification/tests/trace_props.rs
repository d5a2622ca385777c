use err_tools::traceable::{AtError, ErrType, Location, TraceError, Traceable, TraceableRes};

fn frame(file: &'static str, line: u32, msg: &'static str) -> AtError {
    AtError { loc: Location { file, line }, e_type: ErrType::S(msg) }
}

#[test]
fn fresh_accumulator_holds_one_frame() {
    let t = TraceError::from_frame(frame("a.rs", 1, "seed"));
    assert_eq!(1, t.frame_count());
    assert_eq!(1, t.0.len());
}

#[test]
fn push_grows_by_one_in_call_order() {
    let mut t = TraceError::from_frame(frame("a.rs", 1, "seed"));
    for n in 2..6u32 {
        t = t.push_err(frame("a.rs", n, "again"));
        assert_eq!(n as usize, t.frame_count());
    }
    for (i, at) in t.0.iter().enumerate() {
        assert_eq!(i as u32 + 1, at.loc.line);
    }
}

#[test]
fn push_keeps_earlier_frames_unchanged() {
    let t = TraceError::from_frame(frame("a.rs", 3, "first"));
    let t = t.push_err(frame("b.rs", 7, "second"));
    let t = t.push_err(frame("c.rs", 2, "third"));
    assert_eq!(3, t.0.len());
    assert_eq!("a.rs", t.0[0].loc.file);
    assert_eq!(3, t.0[0].loc.line);
    assert_eq!("b.rs", t.0[1].loc.file);
    assert_eq!(7, t.0[1].loc.line);
    assert_eq!("c.rs", t.0[2].loc.file);
    assert_eq!(2, t.0[2].loc.line);
}

#[test]
fn push_onto_fresh_never_yields_one_frame() {
    let fresh = TraceError::from_frame(frame("a.rs", 1, "seed"));
    let pushed = fresh.push_err(frame("a.rs", 2, "more"));
    assert!(pushed.frame_count() >= 2);

    let from_lone_frame = frame("a.rs", 1, "seed").push_err(frame("a.rs", 2, "more"));
    assert!(from_lone_frame.frame_count() >= 2);

    let from_opaque =
        anyhow::Error::msg("boom").push_err(frame("a.rs", 2, "more"));
    assert!(from_opaque.frame_count() >= 2);
}

#[test]
fn opaque_entry_gets_sentinel_location() {
    let t = anyhow::Error::msg("boom").push_err(frame("a.rs", 9, "ctx"));
    assert_eq!(2, t.0.len());
    assert_eq!("--", t.0[0].loc.file);
    assert_eq!(0, t.0[0].loc.line);
    assert!(matches!(t.0[0].e_type, ErrType::Any(_)));
}

#[test]
fn helper_tags_match_requested_kind() {
    let l = Location { file: "c.rs", line: 21 };
    let t = TraceError::from_frame(frame("c.rs", 1, "seed")).push_str("stat", l);
    assert_eq!(21, t.0[1].loc.line);
    assert!(matches!(t.0[1].e_type, ErrType::S("stat")));

    let l = Location { file: "c.rs", line: 22 };
    let t = TraceError::from_frame(frame("c.rs", 1, "seed")).push_string(format!("n {}", 5), l);
    assert_eq!(22, t.0[1].loc.line);
    match &t.0[1].e_type {
        ErrType::ST(s) => assert_eq!("n 5", s),
        _ => panic!("Expected an owned message"),
    }

    let l = Location { file: "c.rs", line: 23 };
    let t = TraceError::from_frame(frame("c.rs", 1, "seed"))
        .push_any(anyhow::Error::msg("deep"), l);
    assert_eq!(23, t.0[1].loc.line);
    match &t.0[1].e_type {
        ErrType::Any(a) => assert_eq!("deep", a.text()),
        _ => panic!("Expected an opaque payload"),
    }
}

#[test]
fn scenario_static_text_onto_opaque() {
    let a = anyhow::Error::msg("disk full");
    let t = a.push_str("could not save", Location { file: "a.rs", line: 10 });
    let s = t.render();
    assert_eq!("--:0 - disk full\na.rs:10 - could not save\n", s);
    assert_eq!(2, s.lines().count());
}

#[test]
fn scenario_three_pushes_in_call_order() {
    let a = anyhow::Error::msg("boom");
    let t = a.push_str("step one", Location { file: "b.rs", line: 5 });
    let t: Result<i32, TraceError> = Err(t);
    let t = t.push_str("step two", Location { file: "b.rs", line: 12 });
    let t = t.push_str("step three", Location { file: "b.rs", line: 30 });
    let s = t.err().unwrap().render();
    assert_eq!(
        "--:0 - boom\nb.rs:5 - step one\nb.rs:12 - step two\nb.rs:30 - step three\n",
        s
    );
    assert_eq!(4, s.lines().count());
}

#[test]
fn display_order_is_push_order_not_line_order() {
    let t = TraceError::from_frame(frame("d.rs", 12, "first"));
    let t = t.push_str("second", Location { file: "d.rs", line: 5 });
    let t = t.push_str("third", Location { file: "d.rs", line: 30 });
    assert_eq!("d.rs:12 - first\nd.rs:5 - second\nd.rs:30 - third\n", t.render());
}

#[test]
fn display_has_one_line_per_frame() {
    let mut t = TraceError::from_frame(frame("e.rs", 1, "seed"));
    for n in 0..7u32 {
        t = t.push_err(frame("e.rs", n, "hop"));
    }
    assert_eq!(t.frame_count(), t.render().lines().count());
}

#[test]
fn real_frame_at_line_zero_renders_like_sentinel_location() {
    let t = TraceError::from_frame(frame("f.rs", 0, "early"));
    assert_eq!("f.rs:0 - early\n", t.render());
}

#[test]
fn ok_results_pass_through_untouched() {
    let r: Result<i32, AtError> = Ok(5);
    let r = r.push_str("ignored", Location { file: "g.rs", line: 1 });
    assert_eq!(5, r.unwrap());
}

#[test]
fn result_over_lone_frame_builds_two_frame_trail() {
    let r: Result<i32, AtError> = Err(frame("h.rs", 4, "origin"));
    let t = r.push_str("caller", Location { file: "h.rs", line: 8 }).err().unwrap();
    assert_eq!(2, t.frame_count());
    assert_eq!("h.rs:4 - origin\nh.rs:8 - caller\n", t.render());
}
