use vel_node::data_type::{can_connect, MyDataType, Rgb};
use vel_node::value::{MyValueType, TypeMismatch, Vec2Data};

#[test]
fn data_type_names_nonempty_and_distinct() {
    let s = MyDataType::Scalar.name();
    let v = MyDataType::Vec2.name();
    assert_eq!(s, "scalar");
    assert_eq!(v, "2d vector");
    assert!(!s.is_empty());
    assert!(!v.is_empty());
    assert_ne!(s, v);
}

#[test]
fn data_type_colors_distinct() {
    let s = MyDataType::Scalar.data_type_color();
    let v = MyDataType::Vec2.data_type_color();
    assert_eq!(s, Rgb { r: 38, g: 109, b: 211 });
    assert_eq!(v, Rgb { r: 238, g: 207, b: 109 });
    assert_ne!(s, v);
}

#[test]
fn connection_rule_is_type_equality() {
    assert!(can_connect(MyDataType::Scalar, MyDataType::Scalar));
    assert!(can_connect(MyDataType::Vec2, MyDataType::Vec2));
    assert!(!can_connect(MyDataType::Vec2, MyDataType::Scalar));
    assert!(!can_connect(MyDataType::Scalar, MyDataType::Vec2));
}

#[test]
fn scalar_round_trip() {
    let bits = 1.5f32.to_bits();
    let v = MyValueType::Scalar { value: bits };
    assert_eq!(v.try_to_scalar(), Ok(bits));
    assert_eq!(f32::from_bits(v.try_to_scalar().unwrap()), 1.5);
    assert_eq!(
        v.try_to_vec2(),
        Err(TypeMismatch { expected: MyDataType::Vec2, actual: MyDataType::Scalar })
    );
}

#[test]
fn vector_round_trip() {
    let payload = Vec2Data { x: 2.5f32.to_bits(), y: (-4.0f32).to_bits() };
    let v = MyValueType::Vec2 { value: payload };
    assert_eq!(v.try_to_vec2(), Ok(payload));
    assert_eq!(f32::from_bits(v.try_to_vec2().unwrap().y), -4.0);
    assert_eq!(
        v.try_to_scalar(),
        Err(TypeMismatch { expected: MyDataType::Scalar, actual: MyDataType::Vec2 })
    );
}

#[test]
fn zero_bits_are_zero_float() {
    assert_eq!(f32::from_bits(0), 0.0f32);
}
