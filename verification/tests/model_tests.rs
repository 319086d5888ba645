use reg_gen::cli::register_size_supported;
use reg_gen::register::{Field, Register, RegisterFamily};
use reg_gen::textparse::{bool_to_string, parse_bool, parse_u64, parse_u8, trim, u8_to_string};

fn register(name: &str, size: u8) -> Register {
    Register {
        name: String::from(name),
        size,
        fields: vec![],
    }
}

#[test]
fn validation_requires_a_name() {
    let r = register("", 8);
    assert_eq!(r.is_valid(), Err(String::from("No name provided")));
}

#[test]
fn validation_requires_a_supported_width() {
    for bad in [0u8, 7, 9, 12, 24, 63, 65, 128] {
        let r = register("CTRL", bad);
        assert_eq!(
            r.is_valid(),
            Err(String::from("No or invalid register width"))
        );
    }
}

#[test]
fn validation_accepts_supported_widths() {
    for good in [8u8, 16, 32, 64] {
        let r = register("CTRL", good);
        assert_eq!(r.is_valid(), Ok(()));
    }
}

#[test]
fn overlapping_fields_are_not_rejected() {
    let mut r = register("CTRL", 8);
    r.add_register_field(String::from("a"), 0, 4, true, true, false);
    r.add_register_field(String::from("b"), 3, 6, true, true, false);
    assert_eq!(r.is_valid(), Ok(()));
    assert_eq!(r.fields.len(), 2);
}

#[test]
fn adding_a_field_appends_it() {
    let mut r = register("CTRL", 8);
    r.add_register_field(String::from("en"), 0, 0, true, false, true);
    assert_eq!(r.fields.len(), 1);
    let f = &r.fields[0];
    assert_eq!(f.name, "en");
    assert_eq!((f.lsb, f.msb), (0, 0));
    assert!(f.read);
    assert!(!f.write);
    assert_eq!(f.negative, Some(true));
}

#[test]
fn a_new_family_is_empty() {
    let fam = RegisterFamily::new(String::from("chip"));
    assert_eq!(fam.register_family, "chip");
    assert!(fam.register_family_widths.is_empty());
    assert!(fam.registers.is_empty());
}

#[test]
fn adding_registers_tracks_distinct_widths() {
    let mut fam = RegisterFamily::new(String::from("chip"));
    fam.add_register(register("A", 8));
    fam.add_register(register("B", 16));
    fam.add_register(register("C", 8));
    assert_eq!(fam.register_family_widths, vec![8, 16]);
    assert_eq!(fam.registers.len(), 3);
    assert_eq!(fam.registers[2].name, "C");
}

#[test]
fn size_argument_validation() {
    assert_eq!(register_size_supported("8"), Ok(8));
    assert_eq!(register_size_supported("16"), Ok(16));
    assert_eq!(register_size_supported("32"), Ok(32));
    assert_eq!(register_size_supported("64"), Ok(64));
    assert_eq!(
        register_size_supported("9"),
        Err(String::from(
            "Unsupported size. Supported register sizes are: 8, 16, 32, 64"
        ))
    );
    assert_eq!(
        register_size_supported("4096"),
        Err(String::from(
            "Unsupported size. Supported register sizes are: 8, 16, 32, 64"
        ))
    );
    assert_eq!(
        register_size_supported("eight"),
        Err(String::from("`eight` isn't a number"))
    );
    assert_eq!(
        register_size_supported(""),
        Err(String::from("`` isn't a number"))
    );
}

#[test]
fn decimal_parsing() {
    assert_eq!(parse_u8("0"), Some(0));
    assert_eq!(parse_u8("255"), Some(255));
    assert_eq!(parse_u8("256"), None);
    assert_eq!(parse_u8("+42"), Some(42));
    assert_eq!(parse_u8("007"), Some(7));
    assert_eq!(parse_u8(""), None);
    assert_eq!(parse_u8("+"), None);
    assert_eq!(parse_u8("-1"), None);
    assert_eq!(parse_u8("1 2"), None);
    assert_eq!(parse_u8("4.2"), None);
    assert_eq!(parse_u64("18446744073709551615"), Some(u64::MAX));
    assert_eq!(parse_u64("18446744073709551616"), None);
    assert_eq!(parse_u64("99999999999999999999999999"), None);
}

#[test]
fn boolean_parsing() {
    assert_eq!(parse_bool("true"), Some(true));
    assert_eq!(parse_bool("false"), Some(false));
    assert_eq!(parse_bool("TRUE"), None);
    assert_eq!(parse_bool("1"), None);
    assert_eq!(parse_bool(""), None);
    assert_eq!(parse_bool(" true"), None);
}

#[test]
fn trimming() {
    assert_eq!(trim("  12 \t\n"), "12");
    assert_eq!(trim(""), "");
    assert_eq!(trim(" \t "), "");
    assert_eq!(trim("a b"), "a b");
    assert_eq!(parse_u8(trim(" 12 ")), Some(12));
}

#[test]
fn rendering_numbers_and_booleans() {
    assert_eq!(u8_to_string(0), "0");
    assert_eq!(u8_to_string(7), "7");
    assert_eq!(u8_to_string(10), "10");
    assert_eq!(u8_to_string(64), "64");
    assert_eq!(u8_to_string(255), "255");
    assert_eq!(bool_to_string(true), "true");
    assert_eq!(bool_to_string(false), "false");
}
