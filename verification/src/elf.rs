//! Types of the program headers of an ELF image.

use vstd::prelude::*;

verus! {

pub const PT_NULL: u32 = 0x0;
pub const PT_LOAD: u32 = 0x1;
pub const PT_DYNAMIC: u32 = 0x2;
pub const PT_INTERP: u32 = 0x3;
pub const PT_NOTE: u32 = 0x4;
pub const PT_SHLIB: u32 = 0x5;
pub const PT_PHDR: u32 = 0x6;
pub const PT_TLS: u32 = 0x7;
pub const PT_NUM: u32 = 0x8;
pub const PT_SCE_DYNLIBDATA: u32 = 0x61000000;
pub const PT_SCE_PROCPARAM: u32 = 0x61000001;
pub const PT_SCE_MODULEPARAM: u32 = 0x61000002;
pub const PT_SCE_RELRO: u32 = 0x61000010;
pub const PT_GNU_EH_FRAME: u32 = 0x6474e550;
pub const PT_GNU_STACK: u32 = 0x6474e551;
pub const PT_SCE_COMMENT: u32 = 0x6fffff00;
pub const PT_SCE_VERSION: u32 = 0x6fffff01;
pub const PT_HIOS: u32 = 0x6fffffff;
pub const PT_LOPROC: u32 = 0x70000000;
pub const PT_SCE_SEGSYM: u32 = 0x700000A8;
pub const PT_HIPROC: u32 = 0x7FFFFFFF;

/// Type of an ELF program (the `p_type` field of a program header).
#[derive(Debug, Clone, Copy, PartialEq, Eq, Structural)]
pub struct ProgramType(u32);

impl ProgramType {
    /// The raw value behind this type.
    pub closed spec fn view(&self) -> u32 {
        self.0
    }

    /// Whether a program of this type occupies memory of the mapped image.
    pub open spec fn spec_is_mapped(&self) -> bool {
        self@ == PT_LOAD || self@ == PT_SCE_RELRO
    }

    /// The type with the raw value `v`.
    pub closed spec fn spec_new(v: u32) -> Self {
        Self(v)
    }

    pub fn new(v: u32) -> (ty: Self)
        ensures
            ty == Self::spec_new(v),
            ty@ == v,
    {
        Self(v)
    }

    /// The raw value of `p_type`.
    pub fn value(&self) -> (v: u32)
        ensures
            v == self@,
    {
        self.0
    }

    /// Whether a program of this type occupies memory of the mapped image:
    /// only loadable programs and the read-only relocation program do.
    pub fn is_mapped(&self) -> (b: bool)
        ensures
            b == self.spec_is_mapped(),
    {
        self.0 == PT_LOAD || self.0 == PT_SCE_RELRO
    }

    /// The name of the type, if it has one.
    pub open spec fn spec_name(&self) -> Option<Seq<char>> {
        let v = self@;
        if v == PT_NULL {
            Some("PT_NULL"@)
        } else if v == PT_LOAD {
            Some("PT_LOAD"@)
        } else if v == PT_DYNAMIC {
            Some("PT_DYNAMIC"@)
        } else if v == PT_INTERP {
            Some("PT_INTERP"@)
        } else if v == PT_NOTE {
            Some("PT_NOTE"@)
        } else if v == PT_SHLIB {
            Some("PT_SHLIB"@)
        } else if v == PT_PHDR {
            Some("PT_PHDR"@)
        } else if v == PT_TLS {
            Some("PT_TLS"@)
        } else if v == PT_NUM {
            Some("PT_NUM"@)
        } else if v == PT_SCE_DYNLIBDATA {
            Some("PT_SCE_DYNLIBDATA"@)
        } else if v == PT_SCE_PROCPARAM {
            Some("PT_SCE_PROCPARAM"@)
        } else if v == PT_SCE_MODULEPARAM {
            Some("PT_SCE_MODULEPARAM"@)
        } else if v == PT_SCE_RELRO {
            Some("PT_SCE_RELRO"@)
        } else if v == PT_GNU_EH_FRAME {
            Some("PT_GNU_EH_FRAME"@)
        } else if v == PT_GNU_STACK {
            Some("PT_GNU_STACK"@)
        } else if v == PT_SCE_COMMENT {
            Some("PT_SCE_COMMENT"@)
        } else if v == PT_SCE_VERSION {
            Some("PT_SCE_VERSION"@)
        } else if v == PT_HIOS {
            Some("PT_HIOS"@)
        } else if v == PT_LOPROC {
            Some("PT_LOPROC"@)
        } else if v == PT_SCE_SEGSYM {
            Some("PT_SCE_SEGSYM"@)
        } else if v == PT_HIPROC {
            Some("PT_HIPROC"@)
        } else {
            None
        }
    }

    /// The name of the type, if it has one.
    pub fn name(&self) -> (name: Option<&'static str>)
        ensures
            name is Some <==> self.spec_name() is Some,
            name is Some ==> name->Some_0@ == self.spec_name()->Some_0,
    {
        let v = self.0;
        if v == PT_NULL {
            Some("PT_NULL")
        } else if v == PT_LOAD {
            Some("PT_LOAD")
        } else if v == PT_DYNAMIC {
            Some("PT_DYNAMIC")
        } else if v == PT_INTERP {
            Some("PT_INTERP")
        } else if v == PT_NOTE {
            Some("PT_NOTE")
        } else if v == PT_SHLIB {
            Some("PT_SHLIB")
        } else if v == PT_PHDR {
            Some("PT_PHDR")
        } else if v == PT_TLS {
            Some("PT_TLS")
        } else if v == PT_NUM {
            Some("PT_NUM")
        } else if v == PT_SCE_DYNLIBDATA {
            Some("PT_SCE_DYNLIBDATA")
        } else if v == PT_SCE_PROCPARAM {
            Some("PT_SCE_PROCPARAM")
        } else if v == PT_SCE_MODULEPARAM {
            Some("PT_SCE_MODULEPARAM")
        } else if v == PT_SCE_RELRO {
            Some("PT_SCE_RELRO")
        } else if v == PT_GNU_EH_FRAME {
            Some("PT_GNU_EH_FRAME")
        } else if v == PT_GNU_STACK {
            Some("PT_GNU_STACK")
        } else if v == PT_SCE_COMMENT {
            Some("PT_SCE_COMMENT")
        } else if v == PT_SCE_VERSION {
            Some("PT_SCE_VERSION")
        } else if v == PT_HIOS {
            Some("PT_HIOS")
        } else if v == PT_LOPROC {
            Some("PT_LOPROC")
        } else if v == PT_SCE_SEGSYM {
            Some("PT_SCE_SEGSYM")
        } else if v == PT_HIPROC {
            Some("PT_HIPROC")
        } else {
            None
        }
    }

    /// How the type is shown: by its name, and a type without a name by its
    /// value in hexadecimal.
    pub open spec fn spec_to_string(&self) -> Seq<char> {
        match self.spec_name() {
            Some(name) => name,
            None => hex_text(self@),
        }
    }

    /// Shows the type: by its name, and a type without a name by its value
    /// in hexadecimal.
    pub fn to_string(&self) -> (s: String)
        ensures
            s@ == self.spec_to_string(),
    {
        match self.name() {
            Some(name) => name.to_owned(),
            None => format_hex(self.0),
        }
    }
}

/// The hexadecimal digit of a number below sixteen, in lower case.
pub open spec fn hex_digit(d: int) -> char {
    if d < 10 {
        ('0' as int + d) as char
    } else {
        ('a' as int + d - 10) as char
    }
}

/// The digit of `v` that counts the multiples of sixteen to the power of
/// `place`.
pub open spec fn hex_place(v: u32, place: nat) -> int
    decreases place,
{
    if place == 0 {
        v as int % 16
    } else {
        hex_place((v / 16) as u32, (place - 1) as nat)
    }
}

/// A 32-bit number in hexadecimal: `0x`, then its eight digits, the highest
/// first.
pub open spec fn hex_text(v: u32) -> Seq<char> {
    seq!['0', 'x'] + Seq::new(8, |i: int| hex_digit(hex_place(v, (7 - i) as nat)))
}

/// `format!` with `{:#010x}`: the number in hexadecimal, lower case, with
/// the prefix `0x` and filled up with zeros to ten characters in all. A
/// 32-bit number has eight digits at most, so that is always `0x` and eight
/// digits.
#[verifier::external_body]
fn format_hex(v: u32) -> (s: String)
    ensures
        s@ == hex_text(v),
{
    format!("{:#010x}", v)
}

} // verus!
