use autoregressive::univariate::Autoregressive;
use rand_distr::{Distribution, Normal};

fn average(phi: &[f32], num: usize) -> f32 {
    let mut ar = Autoregressive::new(0.0f32, phi, 0.0f32);
    let noise = Normal::new(0.0f32, 1.0f32).unwrap();
    let mut rng = rand::thread_rng();
    let mut total = 0.0f32;
    for _ in 0..num {
        total += ar.step(noise.sample(&mut rng));
    }
    total / (num as f32)
}

#[test]
fn bounded() {
    const NUM: usize = 1_000_000;
    assert!(average(&[], NUM).abs() < 1.0);
    assert!(average(&[0.3], NUM).abs() < 1.0);
    assert!(average(&[0.9], NUM).abs() < 1.0);
    assert!(average(&[0.3, 0.3], NUM).abs() < 1.0);
    assert!(average(&[0.9, -0.8], NUM).abs() < 1.0);
}

#[test]
fn deterministic_with_zero_noise() {
    let mut ar = Autoregressive::new(5.0f32, &[0.5], 0.0f32);
    assert_eq!(ar.step(0.0), 5.0);
    assert_eq!(ar.step(0.0), 7.5);
    assert_eq!(ar.step(0.0), 8.75);
}

#[test]
fn steps_follow_the_recurrence() {
    let mut ar = Autoregressive::new(1i64, &[2, 3], 0i64);
    let out = ar.steps(&[0, 1, -1]);
    // 1; 1 + 2*1 + 1 = 4; 1 + 2*4 + 3*1 - 1 = 11
    assert_eq!(out, vec![1, 4, 11]);
    assert_eq!(ar.window(), &[11, 4]);
}

#[test]
fn window_keeps_its_length() {
    let mut ar = Autoregressive::new(0i64, &[1, 1, 1], 0i64);
    assert_eq!(ar.window(), &[0, 0, 0]);
    for k in 0..10 {
        ar.step(k);
        assert_eq!(ar.window().len(), 3);
        assert_eq!(ar.order(), 3);
    }
}

#[test]
fn coefficients_are_copied() {
    let mut phi = vec![0.5f32, 0.25];
    let ar = Autoregressive::new(0.0f32, &phi, 0.0f32);
    phi[0] = 9.0;
    assert_eq!(ar.coefficients(), &[0.5, 0.25]);
}

#[test]
fn order_zero_is_offset_plus_noise() {
    let mut ar = Autoregressive::new(2.5f32, &[], 0.0f32);
    assert_eq!(ar.order(), 0);
    assert_eq!(ar.step(1.25), 3.75);
    assert_eq!(ar.step(-0.5), 2.0);
    assert!(ar.window().is_empty());
    assert_eq!(ar.offset(), 2.5);
}
