use sphere_cast::driver::{FrameAction, FrameDriver};

#[test]
fn fresh_driver_starts_at_time_zero() {
    let d = FrameDriver::new();
    assert_eq!(d.ticks, 0);
    let t = d.current_time();
    assert_eq!(t.num, 0);
    assert_eq!(t.den, 20);
}

#[test]
fn clock_advances_by_a_twentieth_per_tick() {
    let mut d = FrameDriver::new();
    for _ in 0..10 {
        let a = d.step(true, false);
        assert!(matches!(a, FrameAction::RenderPresent));
    }
    assert_eq!(d.ticks, 10);
    let t = d.current_time();
    assert_eq!(t.num, 10);
    assert_eq!(t.den, 20);
    // Ten ticks of 0.05 are exactly 0.5.
    assert_eq!(t.num as f32 / t.den as f32, 10.0 * 0.05);
}

#[test]
fn closed_surface_stops_the_loop_for_good() {
    let mut d = FrameDriver::new();
    d.step(true, false);
    d.step(true, false);
    let a = d.step(false, false);
    assert!(matches!(a, FrameAction::Stop));
    assert_eq!(d.ticks, 2);
    // Later polls never render again, whatever they report.
    for report in [(true, false), (false, false), (true, true)] {
        let a = d.step(report.0, report.1);
        assert!(matches!(a, FrameAction::Stop));
        assert_eq!(d.ticks, 2);
    }
}

#[test]
fn exit_key_stops_the_loop() {
    let mut d = FrameDriver::new();
    let a = d.step(true, true);
    assert!(matches!(a, FrameAction::Stop));
    assert_eq!(d.ticks, 0);
}
