use reg_gen::register::{Field, Register};

fn field(name: &str, lsb: u8, msb: u8, negative: Option<bool>) -> Field {
    Field {
        name: String::from(name),
        lsb,
        msb,
        read: true,
        write: true,
        negative,
    }
}

#[test]
fn unsigned_getter_text() {
    let f = field("X", 2, 4, Some(false));
    let expected = "\tinline uint8_t get_X() const {\n\
                    \t\tuint8_t buffer = register_raw >> 2;\n\
                    \t\treturn buffer & (UINT8_MAX >> (8 - 1 - (4 - 2)));\n\
                    \t}\n";
    assert_eq!(f.create_get_method(8), expected);
}

#[test]
fn absent_negative_marker_means_unsigned() {
    let explicit = field("X", 2, 4, Some(false));
    let absent = field("X", 2, 4, None);
    assert_eq!(explicit.create_get_method(8), absent.create_get_method(8));
    assert_eq!(explicit.create_set_method(8), absent.create_set_method(8));
}

#[test]
fn unsigned_setter_text() {
    let f = field("X", 2, 4, None);
    let expected = "\tinline bool set_X(uint8_t value) {\n\
                    \t\tif (value >= ((uint8_t)1 << (4 - (2 - 1)))) {\n\
                    \t\t\treturn false;\n\
                    \t\t}\n\
                    \t\tuint8_t mask = static_cast<uint8_t>(~((UINT8_MAX >> (8 - 1 - (4 - 2))) << 2));\n\
                    \t\tregister_raw &= mask;\n\
                    \t\tvalue = value << 2;\n\
                    \t\tregister_raw |= value;\n\
                    \t\treturn true;\n\
                    \t}\n";
    assert_eq!(f.create_set_method(8), expected);
}

#[test]
fn signed_getter_text() {
    let f = field("S", 0, 3, Some(true));
    let expected = "\tinline int16_t get_S() const {\n\
                    \t\tuint16_t buffer = register_raw >> 0;\n\
                    \t\tuint16_t field_raw = buffer & (UINT16_MAX >> (16 - 1 - (3 - 0)));\n\
                    \t\tif (field_raw & (1 << (3 - 0))) {\n\
                    \t\t\tfield_raw |= (UINT16_MAX << (3 - 0 + 1));\n\
                    \t\t}\n\
                    \t\treturn field_raw;\n\
                    \t}\n";
    assert_eq!(f.create_get_method(16), expected);
}

#[test]
fn signed_setter_text() {
    let f = field("S", 0, 3, Some(true));
    let expected = "\tinline bool set_S(int16_t value) {\n\
                    \t\tif (value < 0) {\n\
                    \t\t\tif (-value > ((int16_t)1 << (3 - 0))) {\n\
                    \t\t\t\treturn false;\n\
                    \t\t\t}\n\
                    \t\t} else {\n\
                    \t\t\tif (value >= ((int16_t)1 << (3 - 0))) {\n\
                    \t\t\t\treturn false;\n\
                    \t\t\t}\n\
                    \t\t}\n\
                    \t\tuint16_t mask = static_cast<uint16_t>(~((UINT16_MAX >> (16 - 1 - (3 - 0))) << 0));\n\
                    \t\tregister_raw &= mask;\n\
                    \t\tvalue &= (UINT16_MAX >> (16 - 1 - (3 - 0)));\n\
                    \t\tvalue = value << 0;\n\
                    \t\tregister_raw |= value;\n\
                    \t\treturn true;\n\
                    \t}\n";
    assert_eq!(f.create_set_method(16), expected);
}

#[test]
fn generation_is_deterministic() {
    let f = field("ctrl", 5, 9, Some(true));
    assert_eq!(f.create_get_method(32), f.create_get_method(32));
    assert_eq!(f.create_set_method(32), f.create_set_method(32));
}

#[test]
fn register_block_concatenates_in_declaration_order() {
    let reg = Register {
        name: String::from("STATUS"),
        size: 8,
        fields: vec![field("a", 0, 1, None), field("b", 2, 4, Some(true))],
    };
    let expected = format!(
        "{}{}{}{}",
        reg.fields[0].create_get_method(8),
        reg.fields[0].create_set_method(8),
        reg.fields[1].create_get_method(8),
        reg.fields[1].create_set_method(8)
    );
    assert_eq!(reg.generate_methods(), expected);
}

#[test]
fn generate_handler_emits_one_block_per_register() {
    let family = reg_gen::register::RegisterFamily {
        register_family: String::from("chip"),
        register_family_widths: vec![8, 16],
        registers: vec![
            Register {
                name: String::from("A"),
                size: 8,
                fields: vec![field("x", 0, 3, None)],
            },
            Register {
                name: String::from("B"),
                size: 16,
                fields: vec![field("y", 4, 7, Some(true))],
            },
        ],
    };
    let blocks = reg_gen::codegen::generate_handler(&family);
    assert_eq!(blocks.len(), 2);
    assert_eq!(blocks[0], family.registers[0].generate_methods());
    assert_eq!(blocks[1], family.registers[1].generate_methods());
}
