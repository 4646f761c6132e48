use integrators::traits::{build_input, IntegrandInput, IntegrandOutput};

#[test]
fn array_declares_its_dimensionality() {
    assert_eq!(<[f64; 3] as IntegrandInput<f64>>::input_size(), 3);
    assert_eq!(<[f64; 1] as IntegrandInput<f64>>::input_size(), 1);
    assert_eq!(<[f64; 0] as IntegrandInput<f64>>::input_size(), 0);
}

#[test]
fn array_declares_its_component_count() {
    assert_eq!(<[f64; 2] as IntegrandOutput<f64>>::output_size(), 2);
    assert_eq!(<[f64; 0] as IntegrandOutput<f64>>::output_size(), 0);
}

#[test]
fn from_args_copies_the_reals_in_order() {
    let raw = [1.5, -2.25, 3.0];
    let v = <[f64; 3] as IntegrandInput<f64>>::from_args(&raw);
    assert_eq!(v, [1.5, -2.25, 3.0]);
}

#[test]
fn from_args_does_not_hand_out_a_fixed_value() {
    let a = <[f64; 2] as IntegrandInput<f64>>::from_args(&[0.0, 1.0]);
    let b = <[f64; 2] as IntegrandInput<f64>>::from_args(&[7.0, 8.0]);
    assert_eq!(a, [0.0, 1.0]);
    assert_eq!(b, [7.0, 8.0]);
    assert_ne!(a, b);
}

#[test]
fn from_args_of_no_reals() {
    let raw: [f64; 0] = [];
    let v = <[f64; 0] as IntegrandInput<f64>>::from_args(&raw);
    assert_eq!(v.len(), 0);
}

#[test]
fn input_round_trip() {
    let values: [[f64; 3]; 3] = [[0.0, 0.5, 1.0], [-1.0, 1e300, 1e-300], [3.25, 3.25, 3.25]];
    for v in values {
        let raw: Vec<f64> = v.to_vec();
        assert_eq!(raw.len(), <[f64; 3] as IntegrandInput<f64>>::input_size());
        let back = <[f64; 3] as IntegrandInput<f64>>::from_args(&raw);
        assert_eq!(back, v);
    }
}

#[test]
fn build_input_is_from_args() {
    let v: [f64; 2] = build_input(&[4.0, 5.0]);
    assert_eq!(v, [4.0, 5.0]);
}

#[test]
fn into_args_overwrites_every_position() {
    let w: [f64; 3] = [1.0, 2.0, 3.0];
    let mut buffer = [9.9, 9.9, 9.9];
    w.into_args(&mut buffer);
    assert_eq!(buffer, [1.0, 2.0, 3.0]);
}

#[test]
fn into_args_owes_nothing_to_the_old_buffer() {
    let w: [f64; 2] = [0.25, 0.75];
    let mut first = [1.0, 1.0];
    let mut second = [-5.0, 1e9];
    w.into_args(&mut first);
    w.into_args(&mut second);
    assert_eq!(first, second);
    assert_eq!(first, [0.25, 0.75]);
}

#[test]
fn into_args_of_no_components() {
    let w: [f64; 0] = [];
    let mut buffer: [f64; 0] = [];
    w.into_args(&mut buffer);
    assert_eq!(buffer.len(), 0);
}

#[test]
fn contracts_hold_for_single_precision_too() {
    let v = <[f32; 2] as IntegrandInput<f32>>::from_args(&[1.0f32, 2.0f32]);
    assert_eq!(v, [1.0f32, 2.0f32]);
    let mut buffer = [0.0f32; 2];
    v.into_args(&mut buffer);
    assert_eq!(buffer, [1.0f32, 2.0f32]);
}
