//! The register model: a family of named registers, each a fixed-width
//! storage word carved into named bit-fields.

use crate::bitfield::supported_width;
use vstd::prelude::*;
use vstd::string::StringExecFns;

verus! {

/// A contiguous bit range `[lsb, msb]` of a register, with access flags and
/// an optional signedness marker (`None` means unsigned, as does
/// `Some(false)`).
pub struct Field {
    pub name: String,
    pub lsb: u8,
    pub msb: u8,
    pub read: bool,
    pub write: bool,
    pub negative: Option<bool>,
}

/// A named storage word of 8, 16, 32 or 64 bits holding an ordered list of
/// fields.  Overlapping field ranges are deliberately not rejected.
pub struct Register {
    pub name: String,
    pub size: u8,
    pub fields: Vec<Field>,
}

/// The top-level named collection of registers, with the distinct storage
/// widths seen across them kept as explicit bookkeeping.
pub struct RegisterFamily {
    pub register_family: String,
    pub register_family_widths: Vec<u8>,
    pub registers: Vec<Register>,
}

impl Field {
    /// Whether the field stores a two's-complement signed value.
    pub open spec fn spec_is_signed(self) -> bool {
        self.negative == Some(true)
    }
}

/// What `Register::is_valid` accepts: a named register of a supported width.
pub open spec fn spec_register_valid(r: Register) -> bool {
    r.name@.len() > 0 && supported_width(r.size)
}

impl Register {
    /// Check the register's own validity rules: the name must be non-empty
    /// and the width one of the supported ones.  Field bit ranges are not
    /// checked here.
    pub fn is_valid(&self) -> (r: Result<(), String>)
        ensures
            r is Ok <==> spec_register_valid(*self),
            self.name@.len() == 0 ==> (r matches Err(m) && m@ == "No name provided"@),
            self.name@.len() > 0 && !supported_width(self.size) ==> (r matches Err(m) && m@
                == "No or invalid register width"@),
    {
        if self.name.as_str().is_empty() {
            return Err(String::from_str("No name provided"));
        }
        if !(self.size == 8 || self.size == 16 || self.size == 32 || self.size == 64) {
            return Err(String::from_str("No or invalid register width"));
        }
        Ok(())
    }

    /// Append a field built from its plain attribute values; the register's
    /// other fields and its own attributes are untouched.
    pub fn add_register_field(
        &mut self,
        name: String,
        lsb: u8,
        msb: u8,
        read: bool,
        write: bool,
        negative: bool,
    )
        ensures
            final(self).name == old(self).name,
            final(self).size == old(self).size,
            final(self).fields@ == old(self).fields@.push(
                (Field { name, lsb, msb, read, write, negative: Some(negative) }),
            ),
    {
        self.fields.push(Field { name, lsb, msb, read, write, negative: Some(negative) });
    }
}

impl RegisterFamily {
    /// A fresh family with the given name and nothing in it yet.
    pub fn new(family_name: String) -> (r: RegisterFamily)
        ensures
            r.register_family == family_name,
            r.register_family_widths@ == Seq::<u8>::empty(),
            r.registers@ == Seq::<Register>::empty(),
    {
        RegisterFamily {
            register_family: family_name,
            register_family_widths: Vec::new(),
            registers: Vec::new(),
        }
    }

    /// Append a register, recording its width in the family's width
    /// bookkeeping if it is not there yet.
    pub fn add_register(&mut self, register: Register)
        ensures
            final(self).register_family == old(self).register_family,
            final(self).registers@ == old(self).registers@.push(register),
            old(self).register_family_widths@.contains(register.size)
                ==> final(self).register_family_widths@ == old(self).register_family_widths@,
            !old(self).register_family_widths@.contains(register.size)
                ==> final(self).register_family_widths@
                == old(self).register_family_widths@.push(register.size),
    {
        let mut found = false;
        let mut i: usize = 0;
        while i < self.register_family_widths.len()
            invariant
                *self == *old(self),
                i <= self.register_family_widths.len(),
                found <==> exists|j: int|
                    0 <= j < i && self.register_family_widths@[j] == register.size,
            decreases self.register_family_widths.len() - i,
        {
            if self.register_family_widths[i] == register.size {
                found = true;
            }
            i = i + 1;
        }
        if !found {
            self.register_family_widths.push(register.size);
        }
        self.registers.push(register);
    }
}

} // verus!
