use significant_clock::pixel::Pixel;

#[test]
fn safe_add_saturates_at_255() {
    let a = Pixel { r: 200, g: 255, b: 10 };
    let b = Pixel { r: 100, g: 1, b: 20 };
    let sum = a.safe_add(b);
    assert_eq!(sum, Pixel { r: 255, g: 255, b: 30 });
}

#[test]
fn safe_sub_saturates_at_zero() {
    let a = Pixel { r: 10, g: 0, b: 100 };
    let b = Pixel { r: 25, g: 1, b: 40 };
    let diff = a.safe_sub(b);
    assert_eq!(diff, Pixel { r: 0, g: 0, b: 60 });
}

#[test]
fn repeated_application_stays_in_range() {
    let step = Pixel { r: 25, g: 25, b: 25 };
    let mut value = Pixel { r: 200, g: 0, b: 128 };
    for _ in 0..20 {
        value = value.safe_add(step);
    }
    assert_eq!(value, Pixel { r: 255, g: 255, b: 255 });
    for _ in 0..20 {
        value = value.safe_sub(step);
    }
    assert_eq!(value, Pixel { r: 0, g: 0, b: 0 });
}

#[test]
fn add_then_sub_is_exact_when_unsaturated() {
    let step = Pixel { r: 25, g: 25, b: 25 };
    let start = Pixel { r: 100, g: 100, b: 100 };
    assert_eq!(start.safe_add(step).safe_sub(step), start);
}
