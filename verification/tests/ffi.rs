use integrators::ffi::{deliver, LandingPad};

#[test]
fn deliver_writes_a_value() {
    let mut buffer = [9.0, 9.0];
    let r = deliver::<f64, [f64; 2]>(Some([1.0, 2.0]), &mut buffer);
    assert_eq!(r, Ok(()));
    assert_eq!(buffer, [1.0, 2.0]);
}

#[test]
fn deliver_leaves_the_buffer_alone_on_failure() {
    let mut buffer = [9.0, 8.0];
    let r = deliver::<f64, [f64; 2]>(None, &mut buffer);
    assert_eq!(r, Err(()));
    assert_eq!(buffer, [9.0, 8.0]);
}

#[test]
fn try_call_evaluates_the_integrand() {
    let mut lp = LandingPad::new(|x: [f64; 2]| -> Option<[f64; 1]> { Some([x[0] * x[1]]) });
    let mut out = [0.0];
    assert_eq!(lp.try_call(&[3.0, 4.0], &mut out), Ok(()));
    assert_eq!(out, [12.0]);
}

#[test]
fn try_call_hands_over_every_component() {
    let mut lp =
        LandingPad::new(|x: [f64; 1]| -> Option<[f64; 3]> { Some([x[0], 2.0 * x[0], 3.0 * x[0]]) });
    let mut out = [7.0, 7.0, 7.0];
    assert_eq!(lp.try_call(&[0.5], &mut out), Ok(()));
    assert_eq!(out, [0.5, 1.0, 1.5]);
}

#[test]
fn try_call_reports_a_failed_evaluation() {
    let mut lp = LandingPad::new(|x: [f64; 1]| -> Option<[f64; 1]> {
        if x[0] < 0.0 {
            None
        } else {
            Some([x[0].sqrt()])
        }
    });
    let mut out = [5.0];
    assert_eq!(lp.try_call(&[-1.0], &mut out), Err(()));
    assert_eq!(out, [5.0]);
    assert_eq!(lp.try_call(&[4.0], &mut out), Ok(()));
    assert_eq!(out, [2.0]);
}

#[test]
fn try_call_lets_the_integrand_keep_state() {
    let mut calls = 0u32;
    {
        let mut lp = LandingPad::new(|x: [f64; 1]| -> Option<[f64; 1]> {
            calls += 1;
            Some([x[0]])
        });
        let mut out = [0.0];
        for i in 0..5 {
            assert_eq!(lp.try_call(&[i as f64], &mut out), Ok(()));
            assert_eq!(out, [i as f64]);
        }
    }
    assert_eq!(calls, 5);
}
