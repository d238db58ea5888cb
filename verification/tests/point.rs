use pedersenpy::{Error, HostValue, Point};

const PX: &str = "17777552123799933955779906779655732241715742912184938656739573121738514868268";
const PY: &str = "2626589144620713026669568689430873010625803728049924121243784502389097019475";
const P3X: &str = "19372461775513343691590086534037741906533799473648040012278229434133483800898";
const P3Y: &str = "9458658722007214007257525444427903161243386465067105737478306991484593958249";
const N: &str = "14035240266687799601661095864649209771790948434046947201833777492504781204499";
const PNX: &str = "17070357974431721403481313912716834497662307308519659060910483826664480189605";
const PNY: &str = "4014745322800118607127020275658861516666525056516280575712425373174125159339";

const MODULUS: &str = "21888242871839275222246405745257275088548364400416034343698204186575808495617";
const LARGEST: &str = "21888242871839275222246405745257275088548364400416034343698204186575808495616";
const HALF: &str = "10944121435919637611123202872628637544274182200208017171849102093287904247808";
const ABOVE_HALF: &str =
    "10944121435919637611123202872628637544274182200208017171849102093287904247809";

fn text(s: &str) -> HostValue {
    HostValue::Text(s.to_string())
}

fn decimal_bytes(s: &str) -> Vec<u8> {
    num_bigint::BigUint::parse_bytes(s.as_bytes(), 10).unwrap().to_bytes_be()
}

fn point(x: &str, y: &str) -> Point {
    Point::new(&text(x), &text(y)).unwrap()
}

fn coordinates(p: &Point) -> (Vec<u8>, Vec<u8>) {
    (p.x().to_bytes_be(), p.y().to_bytes_be())
}

#[test]
fn point_from_strings_equals_point_from_integers() {
    let a = Point::new(&text("5"), &text("0x7")).unwrap();
    let b = Point::new(&HostValue::Unsigned(5), &HostValue::Unsigned(7)).unwrap();
    assert!(a.equals(&b));
    assert!(b.equals(&a));
    assert_eq!(coordinates(&a), coordinates(&b));
}

#[test]
fn coordinates_come_back_as_unsigned_integers() {
    let p = Point::new(&HostValue::Unsigned(5), &HostValue::Unsigned(7)).unwrap();
    assert_eq!(p.x().to_bytes_be(), vec![5]);
    assert_eq!(p.y().to_bytes_be(), vec![7]);
    assert_eq!(num_bigint::BigUint::from_bytes_be(&p.x().to_bytes_be()), num_bigint::BigUint::from(5u32));
    let q = point(PX, PY);
    assert_eq!(coordinates(&q), (decimal_bytes(PX), decimal_bytes(PY)));
}

#[test]
fn point_is_written_with_hex_coordinates() {
    let p = Point::new(&HostValue::Unsigned(5), &HostValue::Unsigned(7)).unwrap();
    assert_eq!(p.to_string(), "Point(x=0x05, y=0x07)");
    let q = point(PX, PY);
    assert_eq!(
        q.to_string(),
        "Point(x=0x274dbce8d15179969bc0d49fa725bddf9de555e0ba6a693c6adb52fc9ee7a82c, \
         y=0x05ce98c61b05f47fe2eae9a542bd99f6b2e78246231640b54595febfd51eb853)"
    );
}

#[test]
fn debug_rendering_is_the_same_as_the_plain_one() {
    let p = point("255", "4096");
    assert_eq!(p.to_string(), "Point(x=0xff, y=0x1000)");
    assert_eq!(p.to_debug_string(), p.to_string());
}

#[test]
fn zero_coordinates_are_written_as_one_byte() {
    let p = point("0", "0");
    assert_eq!(p.to_string(), "Point(x=0x00, y=0x00)");
}

#[test]
fn dict_names_both_coordinates() {
    let p = point("5", "7");
    let dict = p.to_dict();
    assert_eq!(dict.len(), 2);
    assert_eq!(dict[0].0, "x");
    assert_eq!(dict[0].1.to_bytes_be(), vec![5]);
    assert_eq!(dict[1].0, "y");
    assert_eq!(dict[1].1.to_bytes_be(), vec![7]);
}

#[test]
fn shapes_of_one_coordinate_give_equal_points() {
    let decimal = point(PX, PY);
    let hex = Point::new(
        &text("0x274dbce8d15179969bc0d49fa725bddf9de555e0ba6a693c6adb52fc9ee7a82c"),
        &text(PY),
    )
    .unwrap();
    let bytes = Point::new(&HostValue::Bytes(decimal_bytes(PX)), &text(PY)).unwrap();
    assert!(decimal.equals(&hex));
    assert!(decimal.equals(&bytes));
    assert!(hex.equals(&bytes));
    assert_eq!(coordinates(&hex), coordinates(&decimal));
    assert_eq!(coordinates(&bytes), coordinates(&decimal));
}

#[test]
fn invalid_hex_digits_are_a_malformed_numeral() {
    let r = Point::new(&text("0xZZ"), &HostValue::Unsigned(7));
    assert_eq!(r.err(), Some(Error::MalformedNumeral));
    let r = Point::new(&HostValue::Unsigned(7), &text("0xZZ"));
    assert_eq!(r.err(), Some(Error::MalformedNumeral));
}

#[test]
fn unsupported_coordinate_is_a_type_mismatch() {
    let r = Point::new(&HostValue::Unsupported, &HostValue::Unsigned(7));
    assert_eq!(r.err(), Some(Error::TypeMismatch));
    let r = Point::new(&HostValue::Unsigned(7), &HostValue::Unsupported);
    assert_eq!(r.err(), Some(Error::TypeMismatch));
}

#[test]
fn invalid_decimal_digits_are_a_malformed_numeral() {
    let r = Point::new(&text("12a"), &HostValue::Unsigned(1));
    assert_eq!(r.err(), Some(Error::MalformedNumeral));
    let r = Point::new(&HostValue::Signed(1), &text("12a"));
    assert_eq!(r.err(), Some(Error::MalformedNumeral));
    assert_eq!(Point::new(&text("abc"), &text("7")).err(), Some(Error::MalformedNumeral));
    assert_eq!(Point::new(&text(""), &text("7")).err(), Some(Error::MalformedNumeral));
}

#[test]
fn decimal_coordinates_are_taken_in_every_spelling() {
    let p = Point::new(&text("007"), &text("+1_000")).unwrap();
    assert_eq!(coordinates(&p), (vec![7], vec![3, 232]));
    assert!(p.equals(&point("7", "1000")));
}

#[test]
fn negative_coordinate_is_a_field_construction_error() {
    assert_eq!(Point::new(&text("-5"), &text("7")).err(), Some(Error::FieldConstructionError));
    assert_eq!(Point::new(&text("7"), &text("0x-5")).err(), Some(Error::FieldConstructionError));
    assert_eq!(
        Point::new(&HostValue::Signed(-1), &text("7")).err(),
        Some(Error::FieldConstructionError)
    );
    assert_eq!(
        Point::new(&HostValue::Signed(-1), &HostValue::Signed(-1)).err(),
        Some(Error::FieldConstructionError)
    );
}

#[test]
fn reading_errors_come_before_field_construction_errors() {
    let r = Point::new(&text("-1"), &HostValue::Unsupported);
    assert_eq!(r.err(), Some(Error::TypeMismatch));
    let r = Point::new(&text("-1"), &text("0xZZ"));
    assert_eq!(r.err(), Some(Error::MalformedNumeral));
    let r = Point::new(&HostValue::Signed(-1), &text("12a"));
    assert_eq!(r.err(), Some(Error::MalformedNumeral));
}

#[test]
fn first_reading_error_wins() {
    let r = Point::new(&text("0xZZ"), &HostValue::Unsupported);
    assert_eq!(r.err(), Some(Error::MalformedNumeral));
    let r = Point::new(&HostValue::Unsupported, &text("0xZZ"));
    assert_eq!(r.err(), Some(Error::TypeMismatch));
}

#[test]
fn equality_is_reflexive_and_symmetric() {
    let points = [point("5", "7"), point("7", "5"), point(PX, PY), point(P3X, P3Y), point("5", "7")];
    for a in &points {
        assert!(a.equals(a));
        for b in &points {
            assert_eq!(a.equals(b), b.equals(a));
        }
    }
}

#[test]
fn equality_compares_both_coordinates() {
    let a = point("5", "7");
    assert!(a.equals(&point("5", "7")));
    assert!(!a.equals(&point("5", "8")));
    assert!(!a.equals(&point("6", "7")));
    assert!(!a.equals(&point("7", "5")));
}

#[test]
fn equality_is_taken_modulo_the_field_prime() {
    let a = point("5", "7");
    let b = point(
        "21888242871839275222246405745257275088548364400416034343698204186575808495622",
        "7",
    );
    assert!(a.equals(&b));
}

#[test]
fn compression_of_a_known_point() {
    let p = point(PX, PY);
    let bytes = p.compress();
    assert_eq!(bytes.len(), 32);
    assert_eq!(
        ff_ce::hex::encode(&bytes),
        "53b81ed5bffe9545b54016234682e7b2f699bd42a5e9eae27ff4051bc698ce85"
    );
}

#[test]
fn compressed_hex_of_a_known_point() {
    let p = point(PX, PY);
    assert_eq!(
        p.compress_hex(),
        "0x53b81ed5bffe9545b54016234682e7b2f699bd42a5e9eae27ff4051bc698ce85"
    );
}

#[test]
fn compressed_hex_is_the_prefix_and_the_hex_of_the_bytes() {
    for (x, y) in [(PX, PY), (P3X, P3Y), ("0", "1"), ("5", "7")] {
        let p = point(x, y);
        assert_eq!(p.compress_hex(), format!("0x{}", ff_ce::hex::encode(p.compress())));
    }
}

fn expected_compression(x: &str, y: &str) -> Vec<u8> {
    let q = num_bigint::BigUint::parse_bytes(MODULUS.as_bytes(), 10).unwrap();
    let x = num_bigint::BigUint::parse_bytes(x.as_bytes(), 10).unwrap();
    let y = num_bigint::BigUint::parse_bytes(y.as_bytes(), 10).unwrap();
    let number = if x > q / 2u32 { y + (num_bigint::BigUint::from(1u32) << 255) } else { y };
    let mut bytes = number.to_bytes_le();
    bytes.resize(32, 0);
    bytes
}

#[test]
fn compression_is_y_with_the_half_of_x_in_the_top_bit() {
    for (x, y) in [
        (PX, PY),
        (P3X, P3Y),
        (PNX, PNY),
        ("0", "0"),
        ("0", "1"),
        ("1", "0"),
        ("5", "7"),
        (HALF, "7"),
        (ABOVE_HALF, "7"),
        (HALF, LARGEST),
        (ABOVE_HALF, LARGEST),
        (LARGEST, LARGEST),
        (LARGEST, "256"),
    ] {
        assert_eq!(point(x, y).compress(), expected_compression(x, y), "{} {}", x, y);
    }
}

#[test]
fn top_bit_of_the_compression_is_set_above_half_the_prime_only() {
    assert_eq!(point(HALF, "7").compress()[31], 0);
    assert_eq!(point(ABOVE_HALF, "7").compress()[31], 0x80);
    assert_eq!(point(HALF, LARGEST).compress()[31], 0x30);
    assert_eq!(point(ABOVE_HALF, LARGEST).compress()[31], 0xb0);
    assert_eq!(point(ABOVE_HALF, "7").compress()[0], 7);
}

#[test]
fn compression_keeps_leading_zero_bytes() {
    let p = point("0", "1");
    let mut expected = vec![0u8; 32];
    expected[0] = 1;
    assert_eq!(p.compress(), expected);
    assert_eq!(p.compress_hex().len(), 66);
}

#[test]
fn multiple_of_a_known_point() {
    let p = point(PX, PY);
    let triple = p.mul_scalar(&HostValue::Unsigned(3)).unwrap();
    assert_eq!(coordinates(&triple), (decimal_bytes(P3X), decimal_bytes(P3Y)));
    let big = p.mul_scalar(&text(N)).unwrap();
    assert_eq!(coordinates(&big), (decimal_bytes(PNX), decimal_bytes(PNY)));
}

#[test]
fn scalar_is_read_in_every_shape() {
    let p = point(PX, PY);
    let expected = point(P3X, P3Y);
    for n in [
        HostValue::Unsigned(3),
        HostValue::Signed(3),
        text("3"),
        text("0x3"),
        text("0X03"),
        HostValue::Bytes(vec![3]),
        HostValue::Bytes(vec![0, 0, 3]),
    ] {
        assert!(p.mul_scalar(&n).unwrap().equals(&expected));
    }
    let expected = point(PNX, PNY);
    assert!(p.mul_scalar(&HostValue::Bytes(decimal_bytes(N))).unwrap().equals(&expected));
}

#[test]
fn multiple_by_zero_and_by_one() {
    let p = point(PX, PY);
    assert!(p.mul_scalar(&HostValue::Unsigned(1)).unwrap().equals(&p));
    let zero = p.mul_scalar(&HostValue::Unsigned(0)).unwrap();
    assert_eq!(coordinates(&zero), (vec![0], vec![1]));
    let empty = p.mul_scalar(&HostValue::Bytes(vec![])).unwrap();
    assert!(empty.equals(&zero));
}

#[test]
fn multiplication_leaves_the_point_as_it_was() {
    let p = point(PX, PY);
    let before = coordinates(&p);
    let q = p.mul_scalar(&HostValue::Unsigned(3)).unwrap();
    assert!(!q.equals(&p));
    assert_eq!(coordinates(&p), before);
}

#[test]
fn negative_scalar_is_handed_to_the_curve_library() {
    // The curve library multiplies by the magnitude of the scalar.
    let p = point(PX, PY);
    let q = p.mul_scalar(&HostValue::Signed(-3)).unwrap();
    assert_eq!(coordinates(&q), (decimal_bytes(P3X), decimal_bytes(P3Y)));
    let r = p.mul_scalar(&text("-3")).unwrap();
    assert!(r.equals(&q));
}

#[test]
fn malformed_scalar_fails_with_the_error_of_the_reading() {
    let p = point(PX, PY);
    assert_eq!(p.mul_scalar(&text("0xZZ")).err(), Some(Error::MalformedNumeral));
    assert_eq!(p.mul_scalar(&text("three")).err(), Some(Error::MalformedNumeral));
    assert_eq!(p.mul_scalar(&text("")).err(), Some(Error::MalformedNumeral));
    assert_eq!(p.mul_scalar(&HostValue::Unsupported).err(), Some(Error::TypeMismatch));
}

#[test]
fn projective_form_keeps_the_coordinates() {
    let p = point(PX, PY);
    let q = p.to_projective();
    assert_eq!(q.x().to_bytes_be(), decimal_bytes(PX));
    assert_eq!(q.y().to_bytes_be(), decimal_bytes(PY));
    assert_eq!(q.z().to_bytes_be(), vec![1]);
}
