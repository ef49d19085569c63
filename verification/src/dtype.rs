use vstd::prelude::*;

verus! {

/// Compares two string slices with `str`'s `==`: they are equal when they
/// hold the same characters.
#[verifier::external_body]
pub(crate) fn str_eq(a: &str, b: &str) -> (res: bool)
    ensures
        res == (a@ == b@),
{
    a == b
}

/// The tag of a column: which primitive element type it holds.
#[derive(Clone, Copy, Debug, PartialEq, Eq, Structural)]
pub enum DType {
    Int8,
    Int16,
    Int32,
    Int64,
    UInt8,
    UInt16,
    UInt32,
    UInt64,
    Float32,
    Float64,
    Str,
}

impl DType {
    /// The name under which callers ask for the tag.
    pub open spec fn spec_name(self) -> Seq<char> {
        match self {
            DType::Int8 => "Int8"@,
            DType::Int16 => "Int16"@,
            DType::Int32 => "Int32"@,
            DType::Int64 => "Int64"@,
            DType::UInt8 => "UInt8"@,
            DType::UInt16 => "UInt16"@,
            DType::UInt32 => "UInt32"@,
            DType::UInt64 => "UInt64"@,
            DType::Float32 => "Float32"@,
            DType::Float64 => "Float64"@,
            DType::Str => "Str"@,
        }
    }

    /// The name of the Rust type of one element.
    pub open spec fn spec_primitive_name(self) -> Seq<char> {
        match self {
            DType::Int8 => "i8"@,
            DType::Int16 => "i16"@,
            DType::Int32 => "i32"@,
            DType::Int64 => "i64"@,
            DType::UInt8 => "u8"@,
            DType::UInt16 => "u16"@,
            DType::UInt32 => "u32"@,
            DType::UInt64 => "u64"@,
            DType::Float32 => "f32"@,
            DType::Float64 => "f64"@,
            DType::Str => "String"@,
        }
    }

    /// The tag that goes by `name`, if there is one.
    pub open spec fn spec_from_name(name: Seq<char>) -> Option<DType> {
        if exists|t: DType| t.spec_name() == name {
            Some(choose|t: DType| t.spec_name() == name)
        } else {
            None
        }
    }

    /// Whether the elements are integers.
    pub open spec fn is_integer(self) -> bool {
        !(self is Float32 || self is Float64 || self is Str)
    }

    /// Whether the elements are signed integers.
    pub open spec fn is_signed(self) -> bool {
        self is Int8 || self is Int16 || self is Int32 || self is Int64
    }

    /// The number of values of an integer element type: two to the power of
    /// its width.
    pub open spec fn modulus(self) -> int {
        match self {
            DType::Int8 | DType::UInt8 => 0x100,
            DType::Int16 | DType::UInt16 => 0x1_0000,
            DType::Int32 | DType::UInt32 => 0x1_0000_0000,
            DType::Int64 | DType::UInt64 => 0x1_0000_0000_0000_0000,
            _ => 1,
        }
    }

    pub fn name(self) -> (res: &'static str)
        ensures
            res@ == self.spec_name(),
    {
        match self {
            DType::Int8 => "Int8",
            DType::Int16 => "Int16",
            DType::Int32 => "Int32",
            DType::Int64 => "Int64",
            DType::UInt8 => "UInt8",
            DType::UInt16 => "UInt16",
            DType::UInt32 => "UInt32",
            DType::UInt64 => "UInt64",
            DType::Float32 => "Float32",
            DType::Float64 => "Float64",
            DType::Str => "Str",
        }
    }

    pub fn primitive_name(self) -> (res: &'static str)
        ensures
            res@ == self.spec_primitive_name(),
    {
        match self {
            DType::Int8 => "i8",
            DType::Int16 => "i16",
            DType::Int32 => "i32",
            DType::Int64 => "i64",
            DType::UInt8 => "u8",
            DType::UInt16 => "u16",
            DType::UInt32 => "u32",
            DType::UInt64 => "u64",
            DType::Float32 => "f32",
            DType::Float64 => "f64",
            DType::Str => "String",
        }
    }

    /// The tag named `name`; `None` where `name` is none of the eleven names.
    pub fn from_name(name: &str) -> (res: Option<DType>)
        ensures
            res == DType::spec_from_name(name@),
            res matches Some(t) ==> t.spec_name() == name@,
            res is None ==> forall|t: DType| t.spec_name() != name@,
    {
        let res = if str_eq(name, "Int8") {
            Some(DType::Int8)
        } else if str_eq(name, "Int16") {
            Some(DType::Int16)
        } else if str_eq(name, "Int32") {
            Some(DType::Int32)
        } else if str_eq(name, "Int64") {
            Some(DType::Int64)
        } else if str_eq(name, "UInt8") {
            Some(DType::UInt8)
        } else if str_eq(name, "UInt16") {
            Some(DType::UInt16)
        } else if str_eq(name, "UInt32") {
            Some(DType::UInt32)
        } else if str_eq(name, "UInt64") {
            Some(DType::UInt64)
        } else if str_eq(name, "Float32") {
            Some(DType::Float32)
        } else if str_eq(name, "Float64") {
            Some(DType::Float64)
        } else if str_eq(name, "Str") {
            Some(DType::Str)
        } else {
            None
        };
        proof {
            lemma_names_differ();
            match res {
                Some(t) => {
                    assert(t.spec_name() == name@);
                },
                None => {
                    assert forall|t: DType| t.spec_name() != name@ by {
                        match t {
                            DType::Int8 => {},
                            _ => {},
                        }
                    }
                },
            }
        }
        res
    }

    pub fn is_int(self) -> (res: bool)
        ensures
            res == self.is_integer(),
    {
        match self {
            DType::Float32 | DType::Float64 | DType::Str => false,
            _ => true,
        }
    }
}

/// No two tags share a name.
pub proof fn lemma_names_differ()
    ensures
        forall|a: DType, b: DType| a.spec_name() == b.spec_name() ==> a == b,
{
    reveal_strlit("Int8");
    reveal_strlit("Int16");
    reveal_strlit("Int32");
    reveal_strlit("Int64");
    reveal_strlit("UInt8");
    reveal_strlit("UInt16");
    reveal_strlit("UInt32");
    reveal_strlit("UInt64");
    reveal_strlit("Float32");
    reveal_strlit("Float64");
    reveal_strlit("Str");
    assert forall|a: DType, b: DType| a.spec_name() == b.spec_name() implies a == b by {
        if a != b {
            let x = a.spec_name();
            let y = b.spec_name();
            assert(x.len() != y.len() || x[0] != y[0] || x[3] != y[3] || x[4] != y[4] || x[5]
                != y[5]);
        }
    }
}

/// A tag is found again by its name.
pub proof fn lemma_name_round_trip(t: DType)
    ensures
        DType::spec_from_name(t.spec_name()) == Some(t),
{
    lemma_names_differ();
}

} // verus!
