use err_tools::stackable::{AtError, ErrType, Location, TraceError, TraceableRes};

fn frame(file: &'static str, line: u32, msg: &'static str) -> AtError {
    AtError { loc: Location(file, line), e_type: ErrType::S(msg) }
}

#[test]
fn stackable_fresh_trail_holds_one_frame() {
    let t = TraceError::from_frame(frame("a.rs", 1, "seed"));
    assert_eq!(1, t.frame_count());
}

#[test]
fn stackable_opaque_result_gets_sentinel() {
    let r: Result<i32, anyhow::Error> = Err(anyhow::Error::msg("disk full"));
    let t = r.push_str("could not save", Location("a.rs", 10)).err().unwrap();
    assert_eq!(2, t.frame_count());
    assert_eq!("--", t.frames()[0].loc.0);
    assert_eq!(0, t.frames()[0].loc.1);
    assert_eq!("--:0 - disk full\na.rs:10 - could not save\n", t.render());
}

#[test]
fn stackable_chain_keeps_push_order() {
    let r: Result<i32, AtError> = Err(frame("b.rs", 5, "origin"));
    let r = r.push_str("middle", Location("b.rs", 12));
    let r = r.push_string(format!("outer {}", 1), Location("b.rs", 30));
    let t = r.err().unwrap();
    assert_eq!(3, t.frame_count());
    assert_eq!("b.rs:5 - origin\nb.rs:12 - middle\nb.rs:30 - outer 1\n", t.render());
}

#[test]
fn stackable_ok_passes_through() {
    let r: Result<i32, TraceError> = Ok(9);
    let r = r.push_str("ignored", Location("c.rs", 2));
    assert_eq!(9, r.unwrap());
}

#[test]
fn stackable_push_any_wraps_the_error() {
    let r: Result<i32, TraceError> = Err(TraceError::from_frame(frame("d.rs", 1, "seed")));
    let t = r.push_any(anyhow::Error::msg("deep"), Location("d.rs", 6)).err().unwrap();
    assert_eq!(2, t.frame_count());
    match &t.frames()[1].e_type {
        ErrType::Any(a) => assert_eq!("deep", a.text()),
        _ => panic!("Expected an opaque payload"),
    }
}

#[test]
fn stackable_push_err_appends_exactly_one() {
    let t = TraceError::from_frame(frame("e.rs", 1, "seed"));
    let t = t.push_err(frame("e.rs", 2, "next"));
    assert_eq!(2, t.frame_count());
    assert_eq!("e.rs:1 - seed\ne.rs:2 - next\n", t.render());
}
