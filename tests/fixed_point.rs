use sm64ds_tunneling::fix::Fix;

fn reference_mul(a: i32, b: i32) -> i32 {
    let p = (a as i64) * (b as i64) + 2048;
    let q = if p >= 0 { p / 4096 } else { -((-p + 4095) / 4096) };
    q as i32
}

#[test]
fn add_wraps_around() {
    assert_eq!((Fix::new_raw(i32::MAX) + Fix::new_raw(1)).val(), i32::MIN);
    assert_eq!((Fix::new_raw(5) + Fix::new_raw(-7)).val(), -2);
    for (a, b) in [(0x7fff_0000, 0x0001_0000), (-3, -4), (i32::MIN, -1), (123456, 654321)] {
        assert_eq!((Fix::new_raw(a) + Fix::new_raw(b)).val(), a.wrapping_add(b));
        assert_eq!((Fix::new_raw(a) - Fix::new_raw(b)).val(), a.wrapping_sub(b));
    }
}

#[test]
fn sub_wraps_around() {
    assert_eq!((Fix::new_raw(i32::MIN) - Fix::new_raw(1)).val(), i32::MAX);
    assert_eq!((Fix::new_raw(0) - Fix::new_raw(-204800)).val(), 204800);
}

#[test]
fn mul_rounds_half_up_with_floor_division() {
    assert_eq!((Fix::new_raw(172032) * Fix::new_raw(3358)).val(), 141036);
    assert_eq!((Fix::new_raw(-5) * Fix::new_raw(3)).val(), 0);
    assert_eq!((Fix::new_raw(-2048) * Fix::new_raw(1)).val(), 0);
    assert_eq!((Fix::new_raw(2048) * Fix::new_raw(1)).val(), 1);
    assert_eq!((Fix::new_raw(-2049) * Fix::new_raw(1)).val(), -1);
    assert_eq!((Fix::new_raw(i32::MAX) * Fix::new_raw(i32::MAX)).val(), -1048576);
}

#[test]
fn mul_matches_reference_on_engine_constants() {
    let constants = [
        -16384, -307200, 4096, 3358, 3686, -32768, -13312, -12288, 3072, 69632, 262144, -204800,
        172032, 212992, 282624,
    ];
    for a in constants {
        for b in constants {
            assert_eq!((Fix::new_raw(a) * Fix::new_raw(b)).val(), reference_mul(a, b));
        }
    }
}

#[test]
fn integer_mul_and_div() {
    assert_eq!((90 * Fix::new_raw(-16384) / 100).val(), -14745);
    assert_eq!((90 * Fix::new_raw(-12288) / 100).val(), -11059);
    assert_eq!((Fix::new_raw(3) * 7).val(), 21);
    assert_eq!((Fix::new_raw(i32::MAX) * 2).val(), -2);
    assert_eq!((Fix::new_raw(-7) / 2).val(), -3);
    assert_eq!((Fix::new_raw(i32::MIN) / -1).val(), i32::MIN);
}

#[test]
fn shifts() {
    assert_eq!((Fix::new_raw(-16384) >> 2).val(), -4096);
    assert_eq!((Fix::new_raw(-5) >> 1).val(), -3);
    assert_eq!((Fix::new_raw(40960) >> 2).val(), 10240);
    assert_eq!((Fix::new_raw(3) << 2).val(), 12);
    assert_eq!((Fix::new_raw(1) << 33).val(), 2);
}

#[test]
fn min_max_and_order() {
    let a = Fix::new_raw(-3);
    let b = Fix::new_raw(8);
    assert_eq!(a.min(b), a);
    assert_eq!(a.max(b), b);
    assert_eq!(b.min(a).val(), -3);
    assert!(a < b);
}

#[test]
fn compound_assignment() {
    let mut a = Fix::new_raw(i32::MAX);
    a += Fix::new_raw(2);
    assert_eq!(a.val(), i32::MIN + 1);
    a -= Fix::new_raw(3);
    assert_eq!(a.val(), i32::MAX - 1);
    let mut b = Fix::new_raw(8192);
    b *= Fix::new_raw(-6144);
    assert_eq!(b.val(), -12288);
}
