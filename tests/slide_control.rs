use scaffolding::slide::{CastOutcome, SlideLoop, SlideStop, SlideVerdict, MAX_BOUNCES};

#[test]
fn clear_path_keeps_the_motion() {
    // velocity (0, 0, -50), nothing within reach for one tick
    let mut slide = SlideLoop::start(false);
    assert!(slide.wants_cast());
    slide.record(CastOutcome::Clear);
    assert!(!slide.wants_cast());
    assert_eq!(slide.casts, 1);
    assert_eq!(slide.stop, Some(SlideStop::Clear));
    assert_eq!(slide.verdict(false), SlideVerdict::Redirect);
}

#[test]
fn zero_velocity_casts_nothing() {
    let slide = SlideLoop::start(true);
    assert!(!slide.wants_cast());
    assert_eq!(slide.casts, 0);
    assert_eq!(slide.stop, Some(SlideStop::NoMotion));
    assert_eq!(slide.verdict(true), SlideVerdict::KeepVelocity);
    assert_eq!(slide.verdict(false), SlideVerdict::KeepVelocity);
}

#[test]
fn absorbed_motion_stops_the_loop() {
    let mut slide = SlideLoop::start(false);
    slide.record(CastOutcome::Hit { tangent_degenerate: false });
    assert!(slide.wants_cast());
    slide.record(CastOutcome::Hit { tangent_degenerate: true });
    assert!(!slide.wants_cast());
    assert_eq!(slide.casts, 2);
    assert_eq!(slide.stop, Some(SlideStop::Absorbed));
}

#[test]
fn wedged_in_a_corner_keeps_velocity() {
    let mut slide = SlideLoop::start(false);
    slide.record(CastOutcome::Hit { tangent_degenerate: true });
    assert_eq!(slide.verdict(true), SlideVerdict::KeepVelocity);
}

#[test]
fn bounces_run_out_after_five_hits() {
    assert_eq!(MAX_BOUNCES, 5);
    let mut slide = SlideLoop::start(false);
    let mut casts = 0;
    while slide.wants_cast() {
        slide.record(CastOutcome::Hit { tangent_degenerate: false });
        casts += 1;
    }
    assert_eq!(casts, 5);
    assert_eq!(slide.casts, 5);
    assert_eq!(slide.stop, Some(SlideStop::Exhausted));
    assert_eq!(slide.verdict(false), SlideVerdict::Redirect);
}

#[test]
fn clear_after_bounces_ends_the_loop() {
    let mut slide = SlideLoop::start(false);
    slide.record(CastOutcome::Hit { tangent_degenerate: false });
    slide.record(CastOutcome::Hit { tangent_degenerate: false });
    slide.record(CastOutcome::Clear);
    assert_eq!(slide.casts, 3);
    assert_eq!(slide.stop, Some(SlideStop::Clear));
}
