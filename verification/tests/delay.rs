use haptics_sdk::F32Bits;
use haptics_sdk::FixedDelayLine;

fn f(x: f32) -> F32Bits {
    F32Bits::from_bits(x.to_bits())
}

fn v(x: F32Bits) -> f32 {
    f32::from_bits(x.bits)
}

fn check_buffer_contents(delay_line: &FixedDelayLine, expected: &[f32]) {
    let mut checked_samples = 0;
    let mut iter = delay_line.iter();
    while let Some(actual) = iter.next() {
        assert!(checked_samples < expected.len(), "Unexpected delay line iteration length");
        let expected = expected[checked_samples];
        if expected != v(actual) {
            panic!(
                "check_buffer_contents: mismatch at sample {checked_samples}, expected '{expected}', actual '{}'",
                v(actual)
            );
        }
        checked_samples += 1;
    }
    assert_eq!(
        checked_samples,
        expected.len(),
        "Unexpected delay line iteration length"
    );
}

#[test]
fn delay_time_of_zero() {
    // A delay time of 0 seconds gives a delay line of 0 samples
    let mut d = FixedDelayLine::with_fixed_length(0);
    assert_eq!(v(d.process(f(42.0))), 42.0);
    assert_eq!(v(d.process(f(99.0))), 99.0);
    check_buffer_contents(&d, &[]);
}

#[test]
fn delay_time_of_one_second() {
    // A delay time of 1 second with a sample rate of 2 gives a delay line of 2 samples
    let mut d = FixedDelayLine::with_fixed_length(2);
    check_buffer_contents(&d, &[0.0, 0.0]);
    assert_eq!(v(d.process(f(1.0))), 0.0);
    check_buffer_contents(&d, &[0.0, 1.0]);
    assert_eq!(v(d.process(f(2.0))), 0.0);
    check_buffer_contents(&d, &[1.0, 2.0]);
    assert_eq!(v(d.process(f(3.0))), 1.0);
    check_buffer_contents(&d, &[2.0, 3.0]);
    assert_eq!(v(d.process(f(4.0))), 2.0);
    check_buffer_contents(&d, &[3.0, 4.0]);
    assert_eq!(v(d.process(f(5.0))), 3.0);
    check_buffer_contents(&d, &[4.0, 5.0]);
    assert_eq!(v(d.process(f(6.0))), 4.0);
    check_buffer_contents(&d, &[5.0, 6.0]);
}

#[test]
fn samples_come_out_after_the_delay_length() {
    let length = 5;
    let mut d = FixedDelayLine::with_fixed_length(length);
    assert_eq!(d.length_in_samples(), length);
    let inputs: Vec<f32> = (1..=20).map(|i| i as f32).collect();
    for (i, input) in inputs.iter().enumerate() {
        let output = v(d.process(f(*input)));
        let expected = if i < length { 0.0 } else { inputs[i - length] };
        assert_eq!(output, expected);
    }
    check_buffer_contents(&d, &[16.0, 17.0, 18.0, 19.0, 20.0]);
}

#[test]
fn single_sample_delay() {
    let mut d = FixedDelayLine::with_fixed_length(1);
    assert_eq!(v(d.process(f(7.0))), 0.0);
    assert_eq!(v(d.process(f(8.0))), 7.0);
    check_buffer_contents(&d, &[8.0]);
}
