use rtl_store::value::float_bits_equal;
use rtl_store::{Pattern, RegexFlags, RtlValue};

fn text(s: &str) -> RtlValue {
    RtlValue::RtlString(s.to_string())
}

fn pattern(source: &str, mask: u64) -> RtlValue {
    RtlValue::RtlRegex(Pattern::compile(source, mask).expect("the pattern compiles"))
}

fn float(x: f64) -> RtlValue {
    RtlValue::RtlFloat(x.to_bits())
}

#[test]
fn type_tags_are_stable() {
    assert_eq!(RtlValue::RtlInt(-7).type_id(), 0);
    assert_eq!(float(2.5).type_id(), 1);
    assert_eq!(RtlValue::RtlBool(false).type_id(), 2);
    assert_eq!(text("x").type_id(), 3);
    assert_eq!(pattern("x", 0).type_id(), 4);
    assert_eq!(RtlValue::RtlNone.type_id(), 5);
}

#[test]
fn integers_compare_by_value() {
    assert!(RtlValue::RtlInt(2).compare_to(&RtlValue::RtlInt(2)));
    assert!(!RtlValue::RtlInt(2).compare_to(&RtlValue::RtlInt(3)));
    assert!(RtlValue::RtlInt(i64::MIN).compare_to(&RtlValue::RtlInt(i64::MIN)));
}

#[test]
fn booleans_compare_by_value() {
    assert!(RtlValue::RtlBool(true).compare_to(&RtlValue::RtlBool(true)));
    assert!(RtlValue::RtlBool(false).compare_to(&RtlValue::RtlBool(false)));
    assert!(!RtlValue::RtlBool(true).compare_to(&RtlValue::RtlBool(false)));
}

#[test]
fn equal_texts_compare_equal() {
    assert!(text("abc").compare_to(&text("abc")));
    assert!(!text("abc").compare_to(&text("abd")));
    assert!(text("").compare_to(&text("")));
    assert!(!text("abc").compare_to(&text("abcd")));
}

#[test]
fn text_is_tested_against_a_pattern_on_the_right() {
    let unicode = RegexFlags::Unicode.bit();
    assert!(text("hello").compare_to(&pattern("^h.*o$", unicode)));
    assert!(!text("help").compare_to(&pattern("^h.*o$", unicode)));
    assert!(text("say hello").compare_to(&pattern("hel+o", 0)));
    assert!(!text("say hullo").compare_to(&pattern("hel+o", 0)));
}

#[test]
fn a_pattern_on_the_left_equals_nothing() {
    let unicode = RegexFlags::Unicode.bit();
    let p = pattern("^h.*o$", unicode);
    assert!(!p.compare_to(&p));
    assert!(!p.compare_to(&pattern("^h.*o$", unicode)));
    assert!(!p.compare_to(&text("hello")));
    assert!(!p.compare_to(&RtlValue::RtlInt(1)));
    assert!(!p.compare_to(&RtlValue::RtlNone));
}

#[test]
fn different_kinds_never_compare_equal() {
    assert!(!RtlValue::RtlInt(1).compare_to(&float(1.0)));
    assert!(!RtlValue::RtlInt(1).compare_to(&RtlValue::RtlBool(true)));
    assert!(!RtlValue::RtlInt(1).compare_to(&text("1")));
    assert!(!float(0.0).compare_to(&RtlValue::RtlInt(0)));
    assert!(!RtlValue::RtlBool(false).compare_to(&RtlValue::RtlInt(0)));
    assert!(!text("true").compare_to(&RtlValue::RtlBool(true)));
    assert!(!RtlValue::RtlInt(1).compare_to(&pattern("1", 0)));
}

#[test]
fn the_missing_value_equals_nothing() {
    assert!(!RtlValue::RtlNone.compare_to(&RtlValue::RtlNone));
    assert!(!RtlValue::RtlNone.compare_to(&RtlValue::RtlInt(0)));
    assert!(!RtlValue::RtlInt(0).compare_to(&RtlValue::RtlNone));
    assert!(!text("").compare_to(&RtlValue::RtlNone));
}

#[test]
fn only_the_boolean_true_is_truthy() {
    assert!(RtlValue::RtlBool(true).as_boolean());
    assert!(!RtlValue::RtlBool(false).as_boolean());
    assert!(!RtlValue::RtlInt(1).as_boolean());
    assert!(!RtlValue::RtlInt(0).as_boolean());
    assert!(!float(1.0).as_boolean());
    assert!(!text("true").as_boolean());
    assert!(!text("").as_boolean());
    assert!(!pattern("true", 0).as_boolean());
    assert!(!RtlValue::RtlNone.as_boolean());
}

#[test]
fn floats_compare_as_numbers() {
    assert!(float(1.5).compare_to(&float(1.5)));
    assert!(!float(1.5).compare_to(&float(1.25)));
    assert!(float(0.0).compare_to(&float(-0.0)));
    assert!(!float(f64::NAN).compare_to(&float(f64::NAN)));
    assert!(float(f64::INFINITY).compare_to(&float(f64::INFINITY)));
    assert!(!float(f64::INFINITY).compare_to(&float(f64::NEG_INFINITY)));
}

#[test]
fn float_bits_equality_agrees_with_the_hardware() {
    let samples: Vec<f64> = vec![
        0.0,
        -0.0,
        1.0,
        -1.0,
        1.5,
        f64::MIN_POSITIVE,
        f64::from_bits(1),
        f64::from_bits(0x8000_0000_0000_0001),
        f64::MAX,
        f64::MIN,
        f64::EPSILON,
        f64::INFINITY,
        f64::NEG_INFINITY,
        f64::NAN,
        -f64::NAN,
        f64::from_bits(0x7ff0_0000_0000_0001),
        f64::from_bits(0xfff8_0000_0000_1234),
        f64::from_bits(0x7fef_ffff_ffff_ffff),
    ];
    for a in samples.iter() {
        for b in samples.iter() {
            assert_eq!(
                float_bits_equal(a.to_bits(), b.to_bits()),
                a == b,
                "{:#018x} against {:#018x}",
                a.to_bits(),
                b.to_bits()
            );
        }
    }
}
