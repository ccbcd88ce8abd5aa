use attitude::EulerOrder;
use attitude::LockType;

const ALL_CODES: [(&str, EulerOrder); 12] = [
    ("XYZ", EulerOrder::XYZ),
    ("XZY", EulerOrder::XZY),
    ("YXZ", EulerOrder::YXZ),
    ("YZX", EulerOrder::YZX),
    ("ZXY", EulerOrder::ZXY),
    ("ZYX", EulerOrder::ZYX),
    ("XYX", EulerOrder::XYX),
    ("XZX", EulerOrder::XZX),
    ("YXY", EulerOrder::YXY),
    ("YZY", EulerOrder::YZY),
    ("ZXZ", EulerOrder::ZXZ),
    ("ZYZ", EulerOrder::ZYZ),
];

#[test]
fn parses_every_code() {
    for (code, order) in ALL_CODES {
        assert_eq!(EulerOrder::from_string(code), Some(order));
    }
}

#[test]
fn parsing_ignores_letter_case() {
    assert_eq!(EulerOrder::from_string("xyz"), Some(EulerOrder::XYZ));
    assert_eq!(EulerOrder::from_string("zYx"), Some(EulerOrder::ZYX));
    assert_eq!(EulerOrder::from_string("Zxz"), Some(EulerOrder::ZXZ));
    for (code, order) in ALL_CODES {
        let lower = code.to_lowercase();
        assert_eq!(EulerOrder::from_string(&lower), Some(order));
    }
}

#[test]
fn rejects_invalid_names() {
    assert_eq!(EulerOrder::from_string(""), None);
    assert_eq!(EulerOrder::from_string("bogus"), None);
    assert_eq!(EulerOrder::from_string("XY"), None);
    assert_eq!(EulerOrder::from_string("XYZW"), None);
    assert_eq!(EulerOrder::from_string("XXY"), None);
    assert_eq!(EulerOrder::from_string("XYY"), None);
    assert_eq!(EulerOrder::from_string("XXX"), None);
    assert_eq!(EulerOrder::from_string("ABC"), None);
}

#[test]
fn unrecognized_name_defaults_to_zyx() {
    assert_eq!(EulerOrder::from_string_or_default("bogus"), EulerOrder::ZYX);
    assert_eq!(EulerOrder::from_string_or_default(""), EulerOrder::ZYX);
    assert_eq!(EulerOrder::from_string_or_default("zxz"), EulerOrder::ZXZ);
    assert_eq!(EulerOrder::from_string_or_default("XYZ"), EulerOrder::XYZ);
}

#[test]
fn code_round_trips_through_parsing() {
    for order in attitude::orders::all_orders() {
        assert_eq!(EulerOrder::from_string(order.as_str()), Some(order));
    }
}

#[test]
fn codes_are_distinct() {
    let orders = attitude::orders::all_orders();
    for a in &orders {
        for b in &orders {
            if a != b {
                assert_ne!(a.as_str(), b.as_str());
            }
        }
    }
}

#[test]
fn as_str_names_each_order() {
    for (code, order) in ALL_CODES {
        assert_eq!(order.as_str(), code);
    }
}

#[test]
fn family_names() {
    assert_eq!(EulerOrder::XYZ.family_name(), "Tait-Bryan");
    assert_eq!(EulerOrder::XZY.family_name(), "Tait-Bryan");
    assert_eq!(EulerOrder::YXZ.family_name(), "Tait-Bryan");
    assert_eq!(EulerOrder::YZX.family_name(), "Tait-Bryan");
    assert_eq!(EulerOrder::ZXY.family_name(), "Tait-Bryan");
    assert_eq!(EulerOrder::ZYX.family_name(), "Tait-Bryan");
    assert_eq!(EulerOrder::XYX.family_name(), "Proper Euler");
    assert_eq!(EulerOrder::XZX.family_name(), "Proper Euler");
    assert_eq!(EulerOrder::YXY.family_name(), "Proper Euler");
    assert_eq!(EulerOrder::YZY.family_name(), "Proper Euler");
    assert_eq!(EulerOrder::ZXZ.family_name(), "Proper Euler");
    assert_eq!(EulerOrder::ZYZ.family_name(), "Proper Euler");
}

#[test]
fn common_names() {
    assert_eq!(EulerOrder::XYZ.common_name(), "Roll-Pitch-Yaw");
    assert_eq!(EulerOrder::ZYX.common_name(), "Yaw-Pitch-Roll (Aerospace)");
    assert_eq!(EulerOrder::ZXZ.common_name(), "Classical Euler (Precession)");
    assert_eq!(EulerOrder::XZY.common_name(), "");
    assert_eq!(EulerOrder::YZY.common_name(), "");
}

#[test]
fn lock_type_labels() {
    assert_eq!(LockType::Positive.as_str(), "positive");
    assert_eq!(LockType::Negative.as_str(), "negative");
}
