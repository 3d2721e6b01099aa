use vstd::prelude::*;

verus! {

/// Runtime identity of a concrete type that can be erased.
///
/// Two tags are equal exactly when they stand for the same type.
#[derive(PartialEq, Eq, Structural, Clone, Copy, Debug)]
pub enum TypeTag {
    Bool,
    Char,
    U8,
    U16,
    U32,
    U64,
    U128,
    Usize,
    I8,
    I16,
    I32,
    I64,
    I128,
    Isize,
    String,
}

impl TypeTag {
    /// The canonical name of the type, as the standard library spells it.
    pub open spec fn spec_name(self) -> Seq<char> {
        match self {
            TypeTag::Bool => "bool"@,
            TypeTag::Char => "char"@,
            TypeTag::U8 => "u8"@,
            TypeTag::U16 => "u16"@,
            TypeTag::U32 => "u32"@,
            TypeTag::U64 => "u64"@,
            TypeTag::U128 => "u128"@,
            TypeTag::Usize => "usize"@,
            TypeTag::I8 => "i8"@,
            TypeTag::I16 => "i16"@,
            TypeTag::I32 => "i32"@,
            TypeTag::I64 => "i64"@,
            TypeTag::I128 => "i128"@,
            TypeTag::Isize => "isize"@,
            TypeTag::String => "alloc::string::String"@,
        }
    }

    pub fn name(self) -> (r: &'static str)
        ensures
            r@ == self.spec_name(),
    {
        match self {
            TypeTag::Bool => "bool",
            TypeTag::Char => "char",
            TypeTag::U8 => "u8",
            TypeTag::U16 => "u16",
            TypeTag::U32 => "u32",
            TypeTag::U64 => "u64",
            TypeTag::U128 => "u128",
            TypeTag::Usize => "usize",
            TypeTag::I8 => "i8",
            TypeTag::I16 => "i16",
            TypeTag::I32 => "i32",
            TypeTag::I64 => "i64",
            TypeTag::I128 => "i128",
            TypeTag::Isize => "isize",
            TypeTag::String => "alloc::string::String",
        }
    }
}

} // verus!
