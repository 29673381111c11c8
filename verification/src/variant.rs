//! Tagged values: what crosses the boundary to the automation object.

use vstd::prelude::*;

verus! {

/// Type code of a value that was never set.
pub const VT_EMPTY: u16 = 0;

/// Type code of a 32-bit signed integer.
pub const VT_I4: u16 = 3;

/// Type code of a 64-bit float.
pub const VT_R8: u16 = 5;

/// Type code of a string.
pub const VT_BSTR: u16 = 8;

/// Type code of a tagged value itself; on the wire it only occurs together with
/// [`VT_BYREF`].
pub const VT_VARIANT: u16 = 12;

/// Type code of a machine integer, which the calling convention fixes at 32 bits.
pub const VT_INT: u16 = 22;

/// Flag of a type code: the value is passed by reference.
pub const VT_BYREF: u16 = 0x4000;

/// Type code of a reference to a tagged value: [`VT_VARIANT`] with the flag [`VT_BYREF`].
pub const VT_BYREF_VARIANT: u16 = 0x400c;

/// The code of a reference to a tagged value is the code of a tagged value with the
/// by-reference flag set, and no other code of this binding carries that flag.
pub proof fn lemma_by_ref_code()
    ensures
        VT_BYREF_VARIANT == VT_VARIANT | VT_BYREF,
        VT_BYREF_VARIANT & VT_BYREF == VT_BYREF,
        VT_EMPTY & VT_BYREF == 0,
        VT_I4 & VT_BYREF == 0,
        VT_INT & VT_BYREF == 0,
        VT_R8 & VT_BYREF == 0,
        VT_BSTR & VT_BYREF == 0,
{
    assert(0x400cu16 == 12u16 | 0x4000u16) by (bit_vector);
    assert(0x400cu16 & 0x4000u16 == 0x4000u16) by (bit_vector);
    assert(0u16 & 0x4000u16 == 0) by (bit_vector);
    assert(3u16 & 0x4000u16 == 0) by (bit_vector);
    assert(22u16 & 0x4000u16 == 0) by (bit_vector);
    assert(5u16 & 0x4000u16 == 0) by (bit_vector);
    assert(8u16 & 0x4000u16 == 0) by (bit_vector);
}

/// The kinds of value that the calling convention of this binding knows.
#[derive(Debug, Clone, Copy, PartialEq, Eq, Structural)]
pub enum VarType {
    /// No value.
    Empty,
    /// A 32-bit signed integer.
    Long,
    /// A 64-bit float.
    Double,
    /// A string.
    Str,
    /// A reference to an output slot that holds a tagged value.
    Ref,
}

impl VarType {
    /// The type code that the calling convention writes for this kind.
    pub open spec fn spec_code(self) -> u16 {
        match self {
            VarType::Empty => VT_EMPTY,
            VarType::Long => VT_I4,
            VarType::Double => VT_R8,
            VarType::Str => VT_BSTR,
            VarType::Ref => VT_BYREF_VARIANT,
        }
    }

    /// The kind that a type code stands for, if it is one of this binding's kinds. Both
    /// integer codes of 32 bits read as `Long`.
    pub open spec fn spec_from_code(code: u16) -> Option<VarType> {
        if code == VT_EMPTY {
            Some(VarType::Empty)
        } else if code == VT_I4 || code == VT_INT {
            Some(VarType::Long)
        } else if code == VT_R8 {
            Some(VarType::Double)
        } else if code == VT_BSTR {
            Some(VarType::Str)
        } else if code == VT_BYREF_VARIANT {
            Some(VarType::Ref)
        } else {
            None
        }
    }

    /// The type code that the calling convention writes for this kind.
    pub fn code(self) -> (code: u16)
        ensures
            code == self.spec_code(),
    {
        proof {
            lemma_by_ref_code();
        }
        match self {
            VarType::Empty => VT_EMPTY,
            VarType::Long => VT_I4,
            VarType::Double => VT_R8,
            VarType::Str => VT_BSTR,
            VarType::Ref => VT_VARIANT | VT_BYREF,
        }
    }

    /// Reads a type code. `None` for every code outside this binding's kinds.
    pub fn from_code(code: u16) -> (kind: Option<VarType>)
        ensures
            kind == VarType::spec_from_code(code),
    {
        proof {
            lemma_by_ref_code();
        }
        if code == VT_EMPTY {
            Some(VarType::Empty)
        } else if code == VT_I4 || code == VT_INT {
            Some(VarType::Long)
        } else if code == VT_R8 {
            Some(VarType::Double)
        } else if code == VT_BSTR {
            Some(VarType::Str)
        } else if code == VT_VARIANT | VT_BYREF {
            Some(VarType::Ref)
        } else {
            None
        }
    }

    /// Every kind is read back from the code that is written for it.
    pub proof fn lemma_code_round_trip(self)
        ensures
            VarType::spec_from_code(self.spec_code()) == Some(self),
    {
    }

    /// A code reads as a kind only if it is the code written for that kind, or the second
    /// code of a 32-bit integer.
    pub proof fn lemma_from_code_sound(code: u16, kind: VarType)
        requires
            VarType::spec_from_code(code) == Some(kind),
        ensures
            kind.spec_code() == code || (kind == VarType::Long && code == VT_INT),
    {
    }
}

/// A tagged value.
#[derive(Debug, PartialEq, Eq)]
pub enum Variant {
    /// No value.
    Empty,
    /// A 32-bit signed integer.
    Long(i32),
    /// A 64-bit float, held as the bit pattern of its IEEE 754 encoding.
    Double(u64),
    /// A string.
    Str(String),
    /// An output slot: the callee writes the value it holds during the call.
    Ref(Box<Variant>),
}

/// What a [`Variant`] holds, as a mathematical value.
pub enum Value {
    /// No value.
    Empty,
    /// A 32-bit signed integer.
    Long(i32),
    /// The bit pattern of a 64-bit float.
    Double(u64),
    /// The characters of a string.
    Str(Seq<char>),
    /// An output slot and the value it holds.
    Ref(Box<Value>),
}

impl Value {
    /// The kind of the value.
    pub open spec fn var_type(self) -> VarType {
        match self {
            Value::Empty => VarType::Empty,
            Value::Long(_) => VarType::Long,
            Value::Double(_) => VarType::Double,
            Value::Str(_) => VarType::Str,
            Value::Ref(_) => VarType::Ref,
        }
    }

    /// The integer, if the value is tagged as one.
    pub open spec fn long(self) -> Option<i32> {
        match self {
            Value::Long(n) => Some(n),
            _ => None,
        }
    }

    /// The bit pattern of the float, if the value is tagged as one.
    pub open spec fn double(self) -> Option<u64> {
        match self {
            Value::Double(bits) => Some(bits),
            _ => None,
        }
    }

    /// The string, if the value is tagged as one.
    pub open spec fn text(self) -> Option<Seq<char>> {
        match self {
            Value::Str(text) => Some(text),
            _ => None,
        }
    }

    /// The value in the output slot, if the value is a reference to one.
    pub open spec fn target(self) -> Option<Value> {
        match self {
            Value::Ref(held) => Some(*held),
            _ => None,
        }
    }

    /// Whether the calling convention can pass the value: an output slot holds a value of
    /// any kind but another output slot.
    pub open spec fn passable(self) -> bool {
        match self {
            Value::Ref(held) => !(*held is Ref),
            _ => true,
        }
    }
}

impl View for Variant {
    type V = Value;

    open spec fn view(&self) -> Value
        decreases self,
    {
        match self {
            Variant::Empty => Value::Empty,
            Variant::Long(n) => Value::Long(*n),
            Variant::Double(bits) => Value::Double(*bits),
            Variant::Str(s) => Value::Str(s@),
            Variant::Ref(slot) => Value::Ref(Box::new((**slot).view())),
        }
    }
}

/// A string that went into a tagged value is read back from it unchanged, and through no
/// other tag.
pub proof fn lemma_text_round_trip(text: Seq<char>)
    ensures
        Value::Str(text).var_type() == VarType::Str,
        Value::Str(text).text() == Some(text),
        Value::Str(text).long() is None,
        Value::Str(text).double() is None,
        Value::Str(text).target() is None,
{
}

/// What a list of tagged values holds, value by value.
pub open spec fn values(list: Seq<Variant>) -> Seq<Value> {
    list.map_values(|v: Variant| v@)
}

impl Variant {
    /// The kind of the value.
    pub fn var_type(&self) -> (kind: VarType)
        ensures
            kind == self@.var_type(),
    {
        match self {
            Variant::Empty => VarType::Empty,
            Variant::Long(_) => VarType::Long,
            Variant::Double(_) => VarType::Double,
            Variant::Str(_) => VarType::Str,
            Variant::Ref(_) => VarType::Ref,
        }
    }

    /// The type code under which the value crosses the boundary.
    pub fn vt(&self) -> (code: u16)
        ensures
            code == self@.var_type().spec_code(),
    {
        self.var_type().code()
    }

    /// Whether the calling convention can pass the value: an output slot holds a value of
    /// any kind but another output slot.
    pub fn passable(&self) -> (ok: bool)
        ensures
            ok == self@.passable(),
    {
        match self.target() {
            Some(held) => match held {
                Variant::Ref(_) => false,
                _ => true,
            },
            None => true,
        }
    }

    /// The integer, if the value is tagged as one.
    pub fn as_long(&self) -> (n: Option<i32>)
        ensures
            n == self@.long(),
    {
        match self {
            Variant::Long(n) => Some(*n),
            _ => None,
        }
    }

    /// The bit pattern of the float, if the value is tagged as one.
    pub fn as_double(&self) -> (bits: Option<u64>)
        ensures
            bits == self@.double(),
    {
        match self {
            Variant::Double(bits) => Some(*bits),
            _ => None,
        }
    }

    /// The string, if the value is tagged as one.
    pub fn as_str(&self) -> (s: Option<&str>)
        ensures
            match self@.text() {
                Some(text) => s matches Some(r) && r@ == text,
                None => s is None,
            },
    {
        match self {
            Variant::Str(s) => Some(s.as_str()),
            _ => None,
        }
    }

    /// The value in the output slot, if the value is a reference to one.
    pub fn target(&self) -> (slot: Option<&Variant>)
        ensures
            match self@.target() {
                Some(held) => slot matches Some(v) && v@ == held,
                None => slot is None,
            },
    {
        match self {
            Variant::Ref(slot) => Some(&**slot),
            _ => None,
        }
    }
}

} // verus!
