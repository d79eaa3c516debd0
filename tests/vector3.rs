use vec3_rs::{
    format_fields, from_parsed_fields, split_fields, Lerp, ParseVector3Error, Vector3,
};

#[test]
fn create() {
    let my_vec = Vector3::new(1.3, 0.0, -5.35501);
    assert_eq!(my_vec.get_x(), 1.3);
    assert_eq!(my_vec.get_y(), 0.0);
    assert_eq!(my_vec.get_z(), -5.35501);
}

#[test]
fn sum() {
    let vec1 = Vector3::new(1.0, 2.0, 3.0);
    let vec2 = Vector3::new(5.0, 0.0, -1.0);
    assert_eq!(vec1 + vec2, Vector3::new(6.0, 2.0, 2.0));
}

#[test]
fn lerp() {
    let start = Vector3::new(0.0, 0.0, 0.0);
    let end = Vector3::new(1.0, 2.0, 3.0);
    let lerp_result = start.lerp(&end, 0.75);
    assert_eq!(lerp_result, Vector3::new(0.75, 1.5, 2.25));
}

#[test]
fn dot_product() {
    let vec1 = Vector3::new(1.0, 2.0, 3.0);
    let vec2 = Vector3::new(5.0, 0.0, -1.0);
    let dot_result = vec1.dot(&vec2);
    assert_eq!(dot_result, 2.0);
}

#[test]
fn cross_product() {
    let vec1 = Vector3::new(1.0, 0.0, 0.0);
    let vec2 = Vector3::new(0.0, 1.0, 0.0);
    let cross_result = vec1.cross(&vec2);
    assert_eq!(cross_result, Vector3::new(0.0, 0.0, 1.0));
}

#[test]
fn max_components() {
    let vec1 = Vector3::new(1.0, 5.0, 3.0);
    let vec2 = Vector3::new(3.0, 2.0, 4.0);
    let max_result = vec1.max(&vec2);
    assert_eq!(max_result, Vector3::new(3.0, 5.0, 4.0));
}

#[test]
fn min_components() {
    let vec1 = Vector3::new(1.0, 5.0, 3.0);
    let vec2 = Vector3::new(3.0, 2.0, 4.0);
    let min_result = vec1.min(&vec2);
    assert_eq!(min_result, Vector3::new(1.0, 2.0, 3.0));
}

#[test]
fn fuzzy_equality() {
    let vec1 = Vector3::new(1.0, 2.0, 3.0);
    let vec2 = Vector3::new(1.01, 1.99, 3.01);
    let epsilon = 0.02;
    let fuzzy_equal_result = vec1.fuzzy_equal(&vec2, epsilon);
    assert!(fuzzy_equal_result);
}

#[test]
fn nan_dont_panic() {
    let mut vec1: Vector3<f64> = Vector3::default();
    vec1.div_assign(std::f64::NAN);
}

#[test]
fn fuzzy_equality_tight_epsilon() {
    let vec1 = Vector3::new(1.0, 2.0, 3.0);
    let vec2 = Vector3::new(1.01, 1.99, 3.01);
    assert!(!vec1.fuzzy_equal(&vec2, 0.001));
}

#[test]
fn fuzzy_equality_unsigned_either_order() {
    let a = Vector3::new(10u32, 3, 7);
    let b = Vector3::new(8u32, 5, 7);
    assert!(a.fuzzy_equal(&b, 2));
    assert!(b.fuzzy_equal(&a, 2));
    assert!(!a.fuzzy_equal(&b, 1));
}

#[test]
fn add_is_associative_and_commutative() {
    let a = Vector3::new(1i64, -7, 12);
    let b = Vector3::new(40i64, 3, -2);
    let c = Vector3::new(-5i64, 9, 100);
    assert_eq!((a + b) + c, a + (b + c));
    assert_eq!(a + b, b + a);
    assert_eq!(a + b + c, Vector3::new(36, 5, 110));
}

#[test]
fn cross_is_anticommutative() {
    let a = Vector3::new(2i64, -3, 5);
    let b = Vector3::new(7i64, 1, -4);
    let ab = a.cross(&b);
    let ba = b.cross(&a);
    assert_eq!(ab, Vector3::new(7, 43, 23));
    assert_eq!(ab + ba, Vector3::new(0, 0, 0));
    assert_eq!(a.cross(&a), Vector3::new(0, 0, 0));
}

#[test]
fn lerp_ends_are_exact() {
    let a = Vector3::new(1.5, -2.25, 3.0);
    let b = Vector3::new(-4.0, 8.5, 0.125);
    assert_eq!(a.lerp(&b, 0.0), a);
    assert_eq!(a.lerp(&b, 1.0), b);
    let ai = Vector3::new(3i64, -2, 10);
    let bi = Vector3::new(5i64, 4, -6);
    assert_eq!(ai.lerp(&bi, 0), ai);
    assert_eq!(ai.lerp(&bi, 1), bi);
    assert_eq!(ai.lerp(&bi, 2), Vector3::new(7, 10, -22));
}

#[test]
fn lerp_of_a_single_value() {
    assert_eq!(2.0f64.lerp(6.0, 0.25), 3.0);
    assert_eq!(10i32.lerp(4, 3), -8);
}

#[test]
fn integer_dot_and_minmax() {
    let a = Vector3::new(1i32, 2, 3);
    let b = Vector3::new(5i32, 0, -1);
    assert_eq!(a.dot(&b), 2);
    let c = Vector3::new(1u8, 5, 3);
    let d = Vector3::new(3u8, 2, 4);
    assert_eq!(c.max(&d), Vector3::new(3, 5, 4));
    assert_eq!(c.min(&d), Vector3::new(1, 2, 3));
}

#[test]
fn arithmetic_operators() {
    let a = Vector3::new(6i64, -8, 10);
    let b = Vector3::new(3i64, 2, -5);
    assert_eq!(a - b, Vector3::new(3, -10, 15));
    assert_eq!(a * 2, Vector3::new(12, -16, 20));
    assert_eq!(a * b, Vector3::new(18, -16, -50));
    assert_eq!(a / 2, Vector3::new(3, -4, 5));
    assert_eq!(a / b, Vector3::new(2, -4, -2));
}

#[test]
fn in_place_operators() {
    let mut v = Vector3::new(6i64, -8, 10);
    v.add_assign(Vector3::new(1, 1, 1));
    assert_eq!(v, Vector3::new(7, -7, 11));
    v.sub_assign(Vector3::new(2, 3, 4));
    assert_eq!(v, Vector3::new(5, -10, 7));
    v.mul_assign(3);
    assert_eq!(v, Vector3::new(15, -30, 21));
    v.mul_assign_vector(Vector3::new(2, -1, 0));
    assert_eq!(v, Vector3::new(30, 30, 0));
    v.div_assign(5);
    assert_eq!(v, Vector3::new(6, 6, 0));
    v.div_assign_vector(Vector3::new(3, -2, 7));
    assert_eq!(v, Vector3::new(2, -3, 0));
}

#[test]
fn float_division_by_zero_gives_infinity() {
    let v = Vector3::new(1.0, -1.0, 2.0) / 0.0;
    assert_eq!(v.get_x(), f64::INFINITY);
    assert_eq!(v.get_y(), f64::NEG_INFINITY);
    let mut w = Vector3::new(1.0, 2.0, 3.0);
    w.div_assign(f64::NAN);
    assert!(w.get_x().is_nan() && w.get_y().is_nan() && w.get_z().is_nan());
}

#[test]
fn tuple_and_array_conversions() {
    let v: Vector3<i32> = Vector3::from((1, 2, 3));
    assert_eq!(v, Vector3::new(1, 2, 3));
    let t: (i32, i32, i32) = v.into();
    assert_eq!(t, (1, 2, 3));
    let w: Vector3<f64> = Vector3::from([4.0, 5.5, -6.0]);
    assert_eq!(w, Vector3::new(4.0, 5.5, -6.0));
    let a: [f64; 3] = w.into();
    assert_eq!(a, [4.0, 5.5, -6.0]);
}

#[test]
fn sequence_conversion() {
    let v = Vector3::try_from(vec![1.0, 2.0, 3.0, 4.0]).unwrap();
    assert_eq!(v, Vector3::new(1.0, 2.0, 3.0));
    assert!(matches!(Vector3::try_from(vec![1.0, 2.0]), Err(ParseVector3Error::InvalidVec)));
    assert!(matches!(Vector3::<u8>::try_from(Vec::new()), Err(ParseVector3Error::InvalidVec)));
}

#[test]
fn format_writes_the_frame() {
    assert_eq!(format_fields("1.3", "0", "-5.355"), "Vector3(1.3, 0, -5.355)");
    assert_eq!(format_fields("", "", ""), "Vector3(, , )");
}

#[test]
fn split_gives_the_fields() {
    let (a, b, c) = split_fields("Vector3(1.3, 0, -5.355)").unwrap();
    assert_eq!(a, "1.3");
    assert_eq!(b, " 0");
    assert_eq!(c, " -5.355");
}

#[test]
fn split_rejects_malformed_text() {
    let bad = [
        "Vector3(1,2)",
        "Vector(1, 2, 3.5)",
        "Vector3(1, 2, 3.5",
        "Vector3(1, 2, 3, 4)",
        "Vector3(1.5, 2.5)",
        "vector3(1, 2, 3.5)",
        "",
    ];
    for text in bad {
        assert!(matches!(split_fields(text), Err(ParseVector3Error::InvalidFormat)), "{text}");
    }
}

#[test]
fn split_counts_characters() {
    let (a, b, c) = split_fields("Vector3(é,ü,ñ)").unwrap();
    assert_eq!((a.as_str(), b.as_str(), c.as_str()), ("é", "ü", "ñ"));
}

#[test]
fn text_round_trip() {
    let v = Vector3::new(1.3, 0.0, -5.355);
    let text = format_fields(&v.get_x().to_string(), &v.get_y().to_string(), &v.get_z().to_string());
    assert_eq!(text, "Vector3(1.3, 0, -5.355)");
    let (a, b, c) = split_fields(&text).unwrap();
    let back = from_parsed_fields(
        a.trim().parse::<f64>(),
        b.trim().parse::<f64>(),
        c.trim().parse::<f64>(),
    )
    .unwrap();
    assert_eq!(back, v);
}

#[test]
fn parsed_fields_report_the_first_error() {
    let ok = from_parsed_fields("1".parse::<f64>(), "2".parse::<f64>(), "3".parse::<f64>());
    assert_eq!(ok.unwrap(), Vector3::new(1.0, 2.0, 3.0));
    let bad = from_parsed_fields("1".parse::<f64>(), "x".parse::<f64>(), "".parse::<f64>());
    match bad {
        Err(ParseVector3Error::ParseNumberError(e)) => {
            assert_eq!(e, "x".parse::<f64>().unwrap_err());
        }
        _ => panic!("expected a number error"),
    }
}

#[test]
fn random_coordinates_lie_in_unit_interval() {
    for _ in 0..100 {
        let v: Vector3<f64> = Vector3::random();
        for c in [v.get_x(), v.get_y(), v.get_z()] {
            assert!((0.0..1.0).contains(&c));
        }
    }
    let a: Vector3<f64> = Vector3::random();
    let b: Vector3<f64> = Vector3::random();
    assert_ne!(a, b);
}
