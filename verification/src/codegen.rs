//! The accessor code generator: for one field of a register of a given
//! width it emits the text of a C getter and setter over a single raw
//! storage word.  Generation is pure text assembly — the same field and
//! width always give the identical text, pinned character by character by
//! the spec functions here.  The numeric behaviour the emitted code is
//! meant to have is the one `crate::bitfield` defines and proves.

use crate::register::{Field, Register, RegisterFamily};
use crate::textparse::{spec_u8_digits, u8_to_string};
use vstd::prelude::*;
use vstd::string::StringExecFns;

verus! {

/// The text of the unsigned getter: shift the raw word down to the field,
/// mask to the field's width, return the result as an unsigned word.
pub open spec fn spec_unsigned_get_text(name: Seq<char>, lsb: u8, msb: u8, size: u8) -> Seq<
    char,
> {
    "\tinline uint"@ + spec_u8_digits(size) + "_t get_"@ + name + "() const {\n\t\tuint"@
        + spec_u8_digits(size) + "_t buffer = register_raw >> "@ + spec_u8_digits(lsb)
        + ";\n\t\treturn buffer & (UINT"@ + spec_u8_digits(size) + "_MAX >> ("@ + spec_u8_digits(
        size,
    ) + " - 1 - ("@ + spec_u8_digits(msb) + " - "@ + spec_u8_digits(lsb) + ")));\n\t}\n"@
}

/// The text of the signed getter: extract as the unsigned getter does, then
/// sign-extend by ORing all bits above the field when its sign bit is set.
pub open spec fn spec_signed_get_text(name: Seq<char>, lsb: u8, msb: u8, size: u8) -> Seq<char> {
    "\tinline int"@ + spec_u8_digits(size) + "_t get_"@ + name + "() const {\n\t\tuint"@
        + spec_u8_digits(size) + "_t buffer = register_raw >> "@ + spec_u8_digits(lsb)
        + ";\n\t\tuint"@ + spec_u8_digits(size) + "_t field_raw = buffer & (UINT"@
        + spec_u8_digits(size) + "_MAX >> ("@ + spec_u8_digits(size) + " - 1 - ("@
        + spec_u8_digits(msb) + " - "@ + spec_u8_digits(lsb) + ")));\n\t\tif (field_raw & (1 << ("@
        + spec_u8_digits(msb) + " - "@ + spec_u8_digits(lsb) + "))) {\n\t\t\tfield_raw |= (UINT"@
        + spec_u8_digits(size) + "_MAX << ("@ + spec_u8_digits(msb) + " - "@ + spec_u8_digits(lsb)
        + " + 1));\n\t\t}\n\t\treturn field_raw;\n\t}\n"@
}

/// The text of the unsigned setter: reject values at or above two to the
/// field's width, else clear the field's bit range and OR the shifted value
/// in.
pub open spec fn spec_unsigned_set_text(name: Seq<char>, lsb: u8, msb: u8, size: u8) -> Seq<
    char,
> {
    "\tinline bool set_"@ + name + "(uint"@ + spec_u8_digits(size)
        + "_t value) {\n\t\tif (value >= ((uint"@ + spec_u8_digits(size) + "_t)1 << ("@
        + spec_u8_digits(msb) + " - ("@ + spec_u8_digits(lsb)
        + " - 1)))) {\n\t\t\treturn false;\n\t\t}\n\t\tuint"@ + spec_u8_digits(size)
        + "_t mask = static_cast<uint"@ + spec_u8_digits(size) + "_t>(~((UINT"@ + spec_u8_digits(
        size,
    ) + "_MAX >> ("@ + spec_u8_digits(size) + " - 1 - ("@ + spec_u8_digits(msb) + " - "@
        + spec_u8_digits(lsb) + "))) << "@ + spec_u8_digits(lsb)
        + "));\n\t\tregister_raw &= mask;\n\t\tvalue = value << "@ + spec_u8_digits(lsb)
        + ";\n\t\tregister_raw |= value;\n\t\treturn true;\n\t}\n"@
}

/// The text of the signed setter: bounds-check against the field's signed
/// range (negative and non-negative values separately), truncate to the
/// field's width, then clear the bit range and OR the shifted value in.
pub open spec fn spec_signed_set_text(name: Seq<char>, lsb: u8, msb: u8, size: u8) -> Seq<char> {
    "\tinline bool set_"@ + name + "(int"@ + spec_u8_digits(size)
        + "_t value) {\n\t\tif (value < 0) {\n\t\t\tif (-value > ((int"@ + spec_u8_digits(size)
        + "_t)1 << ("@ + spec_u8_digits(msb) + " - "@ + spec_u8_digits(lsb)
        + "))) {\n\t\t\t\treturn false;\n\t\t\t}\n\t\t} else {\n\t\t\tif (value >= ((int"@
        + spec_u8_digits(size) + "_t)1 << ("@ + spec_u8_digits(msb) + " - "@ + spec_u8_digits(lsb)
        + "))) {\n\t\t\t\treturn false;\n\t\t\t}\n\t\t}\n\t\tuint"@ + spec_u8_digits(size)
        + "_t mask = static_cast<uint"@ + spec_u8_digits(size) + "_t>(~((UINT"@ + spec_u8_digits(
        size,
    ) + "_MAX >> ("@ + spec_u8_digits(size) + " - 1 - ("@ + spec_u8_digits(msb) + " - "@
        + spec_u8_digits(lsb) + "))) << "@ + spec_u8_digits(lsb)
        + "));\n\t\tregister_raw &= mask;\n\t\tvalue &= (UINT"@ + spec_u8_digits(size)
        + "_MAX >> ("@ + spec_u8_digits(size) + " - 1 - ("@ + spec_u8_digits(msb) + " - "@
        + spec_u8_digits(lsb) + ")));\n\t\tvalue = value << "@ + spec_u8_digits(lsb)
        + ";\n\t\tregister_raw |= value;\n\t\treturn true;\n\t}\n"@
}

/// The getter text of a field: signed form for `negative = Some(true)`,
/// unsigned form otherwise.
pub open spec fn spec_get_method_text(f: Field, register_width: u8) -> Seq<char> {
    if f.spec_is_signed() {
        spec_signed_get_text(f.name@, f.lsb, f.msb, register_width)
    } else {
        spec_unsigned_get_text(f.name@, f.lsb, f.msb, register_width)
    }
}

/// The setter text of a field: signed form for `negative = Some(true)`,
/// unsigned form otherwise.
pub open spec fn spec_set_method_text(f: Field, register_width: u8) -> Seq<char> {
    if f.spec_is_signed() {
        spec_signed_set_text(f.name@, f.lsb, f.msb, register_width)
    } else {
        spec_unsigned_set_text(f.name@, f.lsb, f.msb, register_width)
    }
}

impl Field {
    /// Emit the getter for this field of a `register_width`-bit register.
    pub fn create_get_method(&self, register_width: u8) -> (r: String)
        ensures
            r@ == spec_get_method_text(*self, register_width),
    {
        let w = u8_to_string(register_width);
        let l = u8_to_string(self.lsb);
        let m = u8_to_string(self.msb);
        let signed = match self.negative {
            Some(true) => true,
            _ => false,
        };
        let mut s = String::new();
        if signed {
            s.append("\tinline int");
            s.append(w.as_str());
            s.append("_t get_");
            s.append(self.name.as_str());
            s.append("() const {\n\t\tuint");
            s.append(w.as_str());
            s.append("_t buffer = register_raw >> ");
            s.append(l.as_str());
            s.append(";\n\t\tuint");
            s.append(w.as_str());
            s.append("_t field_raw = buffer & (UINT");
            s.append(w.as_str());
            s.append("_MAX >> (");
            s.append(w.as_str());
            s.append(" - 1 - (");
            s.append(m.as_str());
            s.append(" - ");
            s.append(l.as_str());
            s.append(")));\n\t\tif (field_raw & (1 << (");
            s.append(m.as_str());
            s.append(" - ");
            s.append(l.as_str());
            s.append("))) {\n\t\t\tfield_raw |= (UINT");
            s.append(w.as_str());
            s.append("_MAX << (");
            s.append(m.as_str());
            s.append(" - ");
            s.append(l.as_str());
            s.append(" + 1));\n\t\t}\n\t\treturn field_raw;\n\t}\n");
        } else {
            s.append("\tinline uint");
            s.append(w.as_str());
            s.append("_t get_");
            s.append(self.name.as_str());
            s.append("() const {\n\t\tuint");
            s.append(w.as_str());
            s.append("_t buffer = register_raw >> ");
            s.append(l.as_str());
            s.append(";\n\t\treturn buffer & (UINT");
            s.append(w.as_str());
            s.append("_MAX >> (");
            s.append(w.as_str());
            s.append(" - 1 - (");
            s.append(m.as_str());
            s.append(" - ");
            s.append(l.as_str());
            s.append(")));\n\t}\n");
        }
        s
    }

    /// Emit the setter for this field of a `register_width`-bit register.
    pub fn create_set_method(&self, register_width: u8) -> (r: String)
        ensures
            r@ == spec_set_method_text(*self, register_width),
    {
        let w = u8_to_string(register_width);
        let l = u8_to_string(self.lsb);
        let m = u8_to_string(self.msb);
        let signed = match self.negative {
            Some(true) => true,
            _ => false,
        };
        let mut s = String::new();
        if signed {
            s.append("\tinline bool set_");
            s.append(self.name.as_str());
            s.append("(int");
            s.append(w.as_str());
            s.append("_t value) {\n\t\tif (value < 0) {\n\t\t\tif (-value > ((int");
            s.append(w.as_str());
            s.append("_t)1 << (");
            s.append(m.as_str());
            s.append(" - ");
            s.append(l.as_str());
            s.append("))) {\n\t\t\t\treturn false;\n\t\t\t}\n\t\t} else {\n\t\t\tif (value >= ((int");
            s.append(w.as_str());
            s.append("_t)1 << (");
            s.append(m.as_str());
            s.append(" - ");
            s.append(l.as_str());
            s.append("))) {\n\t\t\t\treturn false;\n\t\t\t}\n\t\t}\n\t\tuint");
            s.append(w.as_str());
            s.append("_t mask = static_cast<uint");
            s.append(w.as_str());
            s.append("_t>(~((UINT");
            s.append(w.as_str());
            s.append("_MAX >> (");
            s.append(w.as_str());
            s.append(" - 1 - (");
            s.append(m.as_str());
            s.append(" - ");
            s.append(l.as_str());
            s.append("))) << ");
            s.append(l.as_str());
            s.append("));\n\t\tregister_raw &= mask;\n\t\tvalue &= (UINT");
            s.append(w.as_str());
            s.append("_MAX >> (");
            s.append(w.as_str());
            s.append(" - 1 - (");
            s.append(m.as_str());
            s.append(" - ");
            s.append(l.as_str());
            s.append(")));\n\t\tvalue = value << ");
            s.append(l.as_str());
            s.append(";\n\t\tregister_raw |= value;\n\t\treturn true;\n\t}\n");
        } else {
            s.append("\tinline bool set_");
            s.append(self.name.as_str());
            s.append("(uint");
            s.append(w.as_str());
            s.append("_t value) {\n\t\tif (value >= ((uint");
            s.append(w.as_str());
            s.append("_t)1 << (");
            s.append(m.as_str());
            s.append(" - (");
            s.append(l.as_str());
            s.append(" - 1)))) {\n\t\t\treturn false;\n\t\t}\n\t\tuint");
            s.append(w.as_str());
            s.append("_t mask = static_cast<uint");
            s.append(w.as_str());
            s.append("_t>(~((UINT");
            s.append(w.as_str());
            s.append("_MAX >> (");
            s.append(w.as_str());
            s.append(" - 1 - (");
            s.append(m.as_str());
            s.append(" - ");
            s.append(l.as_str());
            s.append("))) << ");
            s.append(l.as_str());
            s.append("));\n\t\tregister_raw &= mask;\n\t\tvalue = value << ");
            s.append(l.as_str());
            s.append(";\n\t\tregister_raw |= value;\n\t\treturn true;\n\t}\n");
        }
        s
    }
}

/// The accessor text of a register: for each field, in declaration order,
/// its getter followed by its setter.
pub open spec fn spec_register_methods_text(fields: Seq<Field>, size: u8) -> Seq<char>
    decreases fields.len(),
{
    if fields.len() == 0 {
        Seq::empty()
    } else {
        spec_register_methods_text(fields.drop_last(), size) + spec_get_method_text(
            fields.last(),
            size,
        ) + spec_set_method_text(fields.last(), size)
    }
}

impl Register {
    /// Emit the accessor block of this register: every field's getter and
    /// setter, in order.
    pub fn generate_methods(&self) -> (r: String)
        ensures
            r@ == spec_register_methods_text(self.fields@, self.size),
    {
        let mut s = String::new();
        let mut i: usize = 0;
        while i < self.fields.len()
            invariant
                i <= self.fields@.len(),
                s@ == spec_register_methods_text(self.fields@.subrange(0, i as int), self.size),
            decreases self.fields@.len() - i,
        {
            let g = self.fields[i].create_get_method(self.size);
            s.append(g.as_str());
            let t = self.fields[i].create_set_method(self.size);
            s.append(t.as_str());
            i = i + 1;
            proof {
                let pre = self.fields@.subrange(0, i as int);
                assert(pre.drop_last() =~= self.fields@.subrange(0, i as int - 1));
                assert(pre.last() == self.fields@[i as int - 1]);
            }
        }
        proof {
            assert(self.fields@.subrange(0, self.fields@.len() as int) =~= self.fields@);
        }
        s
    }
}

/// The generation pass over a whole family: one accessor block per
/// register, in family order.  Writing the blocks into output artifacts is
/// the caller's business.
pub fn generate_handler(family: &RegisterFamily) -> (r: Vec<String>)
    ensures
        r@.len() == family.registers@.len(),
        forall|i: int|
            0 <= i < r@.len() ==> (#[trigger] r@[i])@ == spec_register_methods_text(
                family.registers@[i].fields@,
                family.registers@[i].size,
            ),
{
    let mut out: Vec<String> = Vec::new();
    let mut i: usize = 0;
    while i < family.registers.len()
        invariant
            i <= family.registers@.len(),
            out@.len() == i,
            forall|j: int|
                0 <= j < i ==> (#[trigger] out@[j])@ == spec_register_methods_text(
                    family.registers@[j].fields@,
                    family.registers@[j].size,
                ),
        decreases family.registers@.len() - i,
    {
        let block = family.registers[i].generate_methods();
        out.push(block);
        i = i + 1;
    }
    out
}

} // verus!
