//! Object tags and the values that heap walks hand to their visitors.

use core::ops::ControlFlow;

use vstd::prelude::*;
use vstd::std_specs::convert::FromSpec;
use vstd::std_specs::convert::TryFromSpec;

use crate::errors::InvalidVariant;
use crate::nonzero::NonZeroI64;

verus! {

/// An object tag: never zero, since zero marks an untagged object.
pub type JTag = NonZeroI64;

/// What a search for tagged objects should hand back.
#[derive(Debug, Clone, Copy, PartialEq, Eq, Structural, PartialOrd, Ord, Hash)]
pub enum TagRequest {
    Objects,
    Tags,
    Both,
}

impl TagRequest {
    /// Whether the objects are asked for.
    pub fn wants_objects(self) -> (res: bool)
        ensures
            res == (self is Objects || self is Both),
    {
        matches!(self, TagRequest::Both | TagRequest::Objects)
    }

    /// Whether the tags are asked for.
    pub fn wants_tags(self) -> (res: bool)
        ensures
            res == (self is Tags || self is Both),
    {
        matches!(self, TagRequest::Both | TagRequest::Tags)
    }
}

/// The kind of a reference that a heap walk follows.
#[derive(Debug, Clone, Copy, PartialEq, Eq, Structural, PartialOrd, Ord, Hash)]
pub enum ReferenceKind {
    Class,
    Field,
    ArrayElement,
    ClassLoader,
    Signers,
    ProtectionDomain,
    Interface,
    StaticField,
    ConstantPool,
    Superclass,
    JniGlobal,
    SystemClass,
    Monitor,
    StackLocal,
    JniLocal,
    Thread,
    Other,
}

impl ReferenceKind {
    /// The JVM TI code of this value.
    pub open spec fn spec_code(self) -> u32 {
        match self {
            ReferenceKind::Class => 1,
            ReferenceKind::Field => 2,
            ReferenceKind::ArrayElement => 3,
            ReferenceKind::ClassLoader => 4,
            ReferenceKind::Signers => 5,
            ReferenceKind::ProtectionDomain => 6,
            ReferenceKind::Interface => 7,
            ReferenceKind::StaticField => 8,
            ReferenceKind::ConstantPool => 9,
            ReferenceKind::Superclass => 10,
            ReferenceKind::JniGlobal => 21,
            ReferenceKind::SystemClass => 22,
            ReferenceKind::Monitor => 23,
            ReferenceKind::StackLocal => 24,
            ReferenceKind::JniLocal => 25,
            ReferenceKind::Thread => 26,
            ReferenceKind::Other => 27,
        }
    }

    /// The value with JVM TI code `code`, if there is one.
    pub open spec fn spec_from_code(code: u32) -> Option<Self> {
        if code == 1 {
            Some(ReferenceKind::Class)
        } else if code == 2 {
            Some(ReferenceKind::Field)
        } else if code == 3 {
            Some(ReferenceKind::ArrayElement)
        } else if code == 4 {
            Some(ReferenceKind::ClassLoader)
        } else if code == 5 {
            Some(ReferenceKind::Signers)
        } else if code == 6 {
            Some(ReferenceKind::ProtectionDomain)
        } else if code == 7 {
            Some(ReferenceKind::Interface)
        } else if code == 8 {
            Some(ReferenceKind::StaticField)
        } else if code == 9 {
            Some(ReferenceKind::ConstantPool)
        } else if code == 10 {
            Some(ReferenceKind::Superclass)
        } else if code == 21 {
            Some(ReferenceKind::JniGlobal)
        } else if code == 22 {
            Some(ReferenceKind::SystemClass)
        } else if code == 23 {
            Some(ReferenceKind::Monitor)
        } else if code == 24 {
            Some(ReferenceKind::StackLocal)
        } else if code == 25 {
            Some(ReferenceKind::JniLocal)
        } else if code == 26 {
            Some(ReferenceKind::Thread)
        } else if code == 27 {
            Some(ReferenceKind::Other)
        } else {
            None
        }
    }

    /// The JVM TI code of this value.
    pub fn code(self) -> (res: u32)
        ensures
            res == self.spec_code(),
    {
        match self {
            ReferenceKind::Class => 1,
            ReferenceKind::Field => 2,
            ReferenceKind::ArrayElement => 3,
            ReferenceKind::ClassLoader => 4,
            ReferenceKind::Signers => 5,
            ReferenceKind::ProtectionDomain => 6,
            ReferenceKind::Interface => 7,
            ReferenceKind::StaticField => 8,
            ReferenceKind::ConstantPool => 9,
            ReferenceKind::Superclass => 10,
            ReferenceKind::JniGlobal => 21,
            ReferenceKind::SystemClass => 22,
            ReferenceKind::Monitor => 23,
            ReferenceKind::StackLocal => 24,
            ReferenceKind::JniLocal => 25,
            ReferenceKind::Thread => 26,
            ReferenceKind::Other => 27,
        }
    }

    /// The value with JVM TI code `code`; the code itself as the error when there is none.
    pub fn try_from_code(code: u32) -> (res: Result<Self, InvalidVariant<u32>>)
        ensures
            res == (match Self::spec_from_code(code) {
                Some(v) => Ok(v),
                None => Err(InvalidVariant(code)),
            }),
    {
        match code {
            1 => Ok(ReferenceKind::Class),
            2 => Ok(ReferenceKind::Field),
            3 => Ok(ReferenceKind::ArrayElement),
            4 => Ok(ReferenceKind::ClassLoader),
            5 => Ok(ReferenceKind::Signers),
            6 => Ok(ReferenceKind::ProtectionDomain),
            7 => Ok(ReferenceKind::Interface),
            8 => Ok(ReferenceKind::StaticField),
            9 => Ok(ReferenceKind::ConstantPool),
            10 => Ok(ReferenceKind::Superclass),
            21 => Ok(ReferenceKind::JniGlobal),
            22 => Ok(ReferenceKind::SystemClass),
            23 => Ok(ReferenceKind::Monitor),
            24 => Ok(ReferenceKind::StackLocal),
            25 => Ok(ReferenceKind::JniLocal),
            26 => Ok(ReferenceKind::Thread),
            27 => Ok(ReferenceKind::Other),
            _ => Err(InvalidVariant(code)),
        }
    }

    /// Reading back the code of a value gives the value.
    pub proof fn lemma_code_roundtrip(self)
        ensures
            Self::spec_from_code(self.spec_code()) == Some(self),
            0 < self.spec_code() < 256,
    {
    }

    /// A code that names a value is that value's code.
    pub proof fn lemma_from_code_inverse(code: u32)
        ensures
            Self::spec_from_code(code) matches Some(v) ==> v.spec_code() == code,
    {
    }
}

impl From<ReferenceKind> for u32 {
    fn from(value: ReferenceKind) -> (res: u32)
        ensures
            res == value.spec_code(),
    {
        value.code()
    }
}

impl vstd::std_specs::convert::FromSpecImpl<ReferenceKind> for u32 {
    open spec fn obeys_from_spec() -> bool {
        true
    }

    open spec fn from_spec(v: ReferenceKind) -> u32 {
        v.spec_code()
    }
}

impl TryFrom<u32> for ReferenceKind {
    type Error = InvalidVariant<u32>;

    fn try_from(value: u32) -> (res: Result<Self, InvalidVariant<u32>>)
        ensures
            res == (match Self::spec_from_code(value) {
                Some(v) => Ok(v),
                None => Err(InvalidVariant(value)),
            }),
    {
        Self::try_from_code(value)
    }
}

impl vstd::std_specs::convert::TryFromSpecImpl<u32> for ReferenceKind {
    open spec fn obeys_try_from_spec() -> bool {
        true
    }

    open spec fn try_from_spec(v: u32) -> Result<Self, InvalidVariant<u32>> {
        match Self::spec_from_code(v) {
            Some(e) => Ok(e),
            None => Err(InvalidVariant(v)),
        }
    }
}

/// Converting a `ReferenceKind` to its code and reading the code back gives the
/// value again, and a code that reads as a value is that value's code.
pub proof fn lemma_reference_kind_conversions(v: ReferenceKind, code: u32)
    ensures
        <u32 as FromSpec<ReferenceKind>>::from_spec(v) == v.spec_code(),
        ReferenceKind::spec_from_code(<u32 as FromSpec<ReferenceKind>>::from_spec(v)) == Some(v),
        <ReferenceKind as TryFromSpec<u32>>::try_from_spec(<u32 as FromSpec<ReferenceKind>>::from_spec(v)) == Ok::<
            ReferenceKind,
            InvalidVariant<u32>,
        >(v),
        <ReferenceKind as TryFromSpec<u32>>::try_from_spec(code) matches Ok(w) ==> <u32 as FromSpec<
            ReferenceKind,
        >>::from_spec(w) == code,
        <ReferenceKind as TryFromSpec<u32>>::try_from_spec(code) matches Err(e) ==> e == InvalidVariant(
            code,
        ) && (forall|w: ReferenceKind| #[trigger] w.spec_code() != code),
{
    v.lemma_code_roundtrip();
    ReferenceKind::lemma_from_code_inverse(code);
    assert forall|w: ReferenceKind| <ReferenceKind as TryFromSpec<u32>>::try_from_spec(code) is Err implies #[trigger] w.spec_code() != code by {
        w.lemma_code_roundtrip();
    }
}

/// The type of a primitive value that a heap walk reports.
#[derive(Debug, Clone, Copy, PartialEq, Eq, Structural, PartialOrd, Ord, Hash)]
pub enum PrimitiveType {
    Boolean,
    Byte,
    Char,
    Short,
    Int,
    Long,
    Float,
    Double,
}

impl PrimitiveType {
    /// The JVM TI code of this value.
    pub open spec fn spec_code(self) -> u32 {
        match self {
            PrimitiveType::Boolean => 90,
            PrimitiveType::Byte => 66,
            PrimitiveType::Char => 67,
            PrimitiveType::Short => 83,
            PrimitiveType::Int => 73,
            PrimitiveType::Long => 74,
            PrimitiveType::Float => 70,
            PrimitiveType::Double => 68,
        }
    }

    /// The value with JVM TI code `code`, if there is one.
    pub open spec fn spec_from_code(code: u32) -> Option<Self> {
        if code == 90 {
            Some(PrimitiveType::Boolean)
        } else if code == 66 {
            Some(PrimitiveType::Byte)
        } else if code == 67 {
            Some(PrimitiveType::Char)
        } else if code == 83 {
            Some(PrimitiveType::Short)
        } else if code == 73 {
            Some(PrimitiveType::Int)
        } else if code == 74 {
            Some(PrimitiveType::Long)
        } else if code == 70 {
            Some(PrimitiveType::Float)
        } else if code == 68 {
            Some(PrimitiveType::Double)
        } else {
            None
        }
    }

    /// The JVM TI code of this value.
    pub fn code(self) -> (res: u32)
        ensures
            res == self.spec_code(),
    {
        match self {
            PrimitiveType::Boolean => 90,
            PrimitiveType::Byte => 66,
            PrimitiveType::Char => 67,
            PrimitiveType::Short => 83,
            PrimitiveType::Int => 73,
            PrimitiveType::Long => 74,
            PrimitiveType::Float => 70,
            PrimitiveType::Double => 68,
        }
    }

    /// The value with JVM TI code `code`; the code itself as the error when there is none.
    pub fn try_from_code(code: u32) -> (res: Result<Self, InvalidVariant<u32>>)
        ensures
            res == (match Self::spec_from_code(code) {
                Some(v) => Ok(v),
                None => Err(InvalidVariant(code)),
            }),
    {
        match code {
            90 => Ok(PrimitiveType::Boolean),
            66 => Ok(PrimitiveType::Byte),
            67 => Ok(PrimitiveType::Char),
            83 => Ok(PrimitiveType::Short),
            73 => Ok(PrimitiveType::Int),
            74 => Ok(PrimitiveType::Long),
            70 => Ok(PrimitiveType::Float),
            68 => Ok(PrimitiveType::Double),
            _ => Err(InvalidVariant(code)),
        }
    }

    /// Reading back the code of a value gives the value.
    pub proof fn lemma_code_roundtrip(self)
        ensures
            Self::spec_from_code(self.spec_code()) == Some(self),
            0 < self.spec_code() < 256,
    {
    }

    /// A code that names a value is that value's code.
    pub proof fn lemma_from_code_inverse(code: u32)
        ensures
            Self::spec_from_code(code) matches Some(v) ==> v.spec_code() == code,
    {
    }
}

impl From<PrimitiveType> for u32 {
    fn from(value: PrimitiveType) -> (res: u32)
        ensures
            res == value.spec_code(),
    {
        value.code()
    }
}

impl vstd::std_specs::convert::FromSpecImpl<PrimitiveType> for u32 {
    open spec fn obeys_from_spec() -> bool {
        true
    }

    open spec fn from_spec(v: PrimitiveType) -> u32 {
        v.spec_code()
    }
}

impl TryFrom<u32> for PrimitiveType {
    type Error = InvalidVariant<u32>;

    fn try_from(value: u32) -> (res: Result<Self, InvalidVariant<u32>>)
        ensures
            res == (match Self::spec_from_code(value) {
                Some(v) => Ok(v),
                None => Err(InvalidVariant(value)),
            }),
    {
        Self::try_from_code(value)
    }
}

impl vstd::std_specs::convert::TryFromSpecImpl<u32> for PrimitiveType {
    open spec fn obeys_try_from_spec() -> bool {
        true
    }

    open spec fn try_from_spec(v: u32) -> Result<Self, InvalidVariant<u32>> {
        match Self::spec_from_code(v) {
            Some(e) => Ok(e),
            None => Err(InvalidVariant(v)),
        }
    }
}

/// Converting a `PrimitiveType` to its code and reading the code back gives the
/// value again, and a code that reads as a value is that value's code.
pub proof fn lemma_primitive_type_conversions(v: PrimitiveType, code: u32)
    ensures
        <u32 as FromSpec<PrimitiveType>>::from_spec(v) == v.spec_code(),
        PrimitiveType::spec_from_code(<u32 as FromSpec<PrimitiveType>>::from_spec(v)) == Some(v),
        <PrimitiveType as TryFromSpec<u32>>::try_from_spec(<u32 as FromSpec<PrimitiveType>>::from_spec(v)) == Ok::<
            PrimitiveType,
            InvalidVariant<u32>,
        >(v),
        <PrimitiveType as TryFromSpec<u32>>::try_from_spec(code) matches Ok(w) ==> <u32 as FromSpec<
            PrimitiveType,
        >>::from_spec(w) == code,
        <PrimitiveType as TryFromSpec<u32>>::try_from_spec(code) matches Err(e) ==> e == InvalidVariant(
            code,
        ) && (forall|w: PrimitiveType| #[trigger] w.spec_code() != code),
{
    v.lemma_code_roundtrip();
    PrimitiveType::lemma_from_code_inverse(code);
    assert forall|w: PrimitiveType| <PrimitiveType as TryFromSpec<u32>>::try_from_spec(code) is Err implies #[trigger] w.spec_code() != code by {
        w.lemma_code_roundtrip();
    }
}

/// Whether a primitive field is an instance or a static field.
#[derive(Debug, Clone, Copy, PartialEq, Eq, Structural, PartialOrd, Ord, Hash)]
pub enum FieldKind {
    Instance,
    Static,
}

impl FieldKind {
    /// The kind of field that a reference of kind `kind` reaches; `None` for
    /// references that do not reach a field.
    pub fn of_reference(kind: ReferenceKind) -> (res: Option<FieldKind>)
        ensures
            res == (match kind {
                ReferenceKind::Field => Some(FieldKind::Instance),
                ReferenceKind::StaticField => Some(FieldKind::Static),
                _ => None,
            }),
    {
        match kind {
            ReferenceKind::Field => Some(FieldKind::Instance),
            ReferenceKind::StaticField => Some(FieldKind::Static),
            _ => None,
        }
    }
}

/// Which part of the reference information describes a reference.
#[derive(Debug, Clone, Copy, PartialEq, Eq, Structural, PartialOrd, Ord, Hash)]
pub enum InfoSource {
    /// The index of the field.
    FieldIndex,
    /// The index of the array element.
    ArrayIndex,
    /// The index in the constant pool.
    ConstantPoolIndex,
    /// The stack local that holds the reference.
    StackLocal,
    /// The JNI local that holds the reference.
    JniLocal,
    /// Nothing describes the reference.
    Nothing,
}

impl ReferenceKind {
    /// Which part of the reference information describes a reference of this kind.
    pub fn info_source(self) -> (res: InfoSource)
        ensures
            res == (match self {
                ReferenceKind::Field | ReferenceKind::StaticField => InfoSource::FieldIndex,
                ReferenceKind::ArrayElement => InfoSource::ArrayIndex,
                ReferenceKind::ConstantPool => InfoSource::ConstantPoolIndex,
                ReferenceKind::StackLocal => InfoSource::StackLocal,
                ReferenceKind::JniLocal => InfoSource::JniLocal,
                _ => InfoSource::Nothing,
            }),
    {
        match self {
            ReferenceKind::Field | ReferenceKind::StaticField => InfoSource::FieldIndex,
            ReferenceKind::ArrayElement => InfoSource::ArrayIndex,
            ReferenceKind::ConstantPool => InfoSource::ConstantPoolIndex,
            ReferenceKind::StackLocal => InfoSource::StackLocal,
            ReferenceKind::JniLocal => InfoSource::JniLocal,
            _ => InfoSource::Nothing,
        }
    }
}

/// Where a reference comes from.
#[derive(Debug, Clone, Copy, PartialEq, Eq, Structural, PartialOrd, Ord, Hash)]
pub enum ReferrerKind {
    /// A root of the heap refers to the object.
    HeapRoot,
    /// The object refers to itself.
    SelfReference,
    /// Another object refers to the object.
    Object,
}

impl ReferrerKind {
    /// Where a reference comes from: no referrer tag means a heap root, the
    /// object's own tag means the object itself.
    pub fn classify(referrer_is_null: bool, referrer_is_object: bool) -> (res: ReferrerKind)
        ensures
            res == (if referrer_is_null {
                ReferrerKind::HeapRoot
            } else if referrer_is_object {
                ReferrerKind::SelfReference
            } else {
                ReferrerKind::Object
            }),
    {
        if referrer_is_null {
            ReferrerKind::HeapRoot
        } else if referrer_is_object {
            ReferrerKind::SelfReference
        } else {
            ReferrerKind::Object
        }
    }
}

/// The length of an array, from the length a heap walk reports (negative for
/// objects that are not arrays).
pub fn array_length(length: i32) -> (res: Option<usize>)
    ensures
        res == (if length >= 0 {
            Some(length as usize)
        } else {
            None::<usize>
        }),
{
    if length >= 0 {
        Some(length as usize)
    } else {
        None
    }
}

/// The objects that a heap walk leaves out.
#[derive(Debug, Clone, Copy, PartialEq, Eq, Structural, PartialOrd, Ord, Hash)]
pub struct HeapFilter {
    bits: u32,
}

impl View for HeapFilter {
    type V = u32;

    closed spec fn view(&self) -> u32 {
        self.bits
    }
}

impl HeapFilter {
    #[allow(non_snake_case)]
    pub fn TAGGED() -> (res: Self)
        ensures
            res@ == 0x4u32,
    {
        Self { bits: 0x4u32 }
    }

    #[allow(non_snake_case)]
    pub fn UNTAGGED() -> (res: Self)
        ensures
            res@ == 0x8u32,
    {
        Self { bits: 0x8u32 }
    }

    #[allow(non_snake_case)]
    pub fn CLASS_TAGGED() -> (res: Self)
        ensures
            res@ == 0x10u32,
    {
        Self { bits: 0x10u32 }
    }

    #[allow(non_snake_case)]
    pub fn CLASS_UNTAGGED() -> (res: Self)
        ensures
            res@ == 0x20u32,
    {
        Self { bits: 0x20u32 }
    }

    /// The set holding exactly `bits`, as a specification.
    pub closed spec fn spec_from_bits(bits: u32) -> Self {
        Self { bits }
    }

    /// The set built by `spec_from_bits` holds the bits it was given.
    pub broadcast proof fn lemma_spec_from_bits(bits: u32)
        ensures
            #[trigger] Self::spec_from_bits(bits)@ == bits,
    {
    }

    /// A set is determined by its bits.
    pub proof fn lemma_view_determines(a: Self, b: Self)
        ensures
            a@ == b@ ==> a == b,
    {
    }

    /// The set holding exactly the bits of `bits`, known or not.
    pub fn from_bits_retain(bits: u32) -> (res: Self)
        ensures
            res@ == bits,
    {
        Self { bits }
    }

    /// The set holding the bits of `bits`; every bit is a known flag, so this never fails.
    pub fn from_bits(bits: u32) -> (res: Option<Self>)
        ensures
            res matches Some(f) && f@ == bits,
    {
        Some(Self { bits })
    }

    /// The set holding the known bits of `bits`, which are all of them.
    pub fn from_bits_truncate(bits: u32) -> (res: Self)
        ensures
            res@ == bits,
    {
        Self { bits }
    }

    /// The raw bits of the set.
    pub fn bits(&self) -> (res: u32)
        ensures
            res == self@,
    {
        self.bits
    }

    /// The set with no flag.
    pub fn empty() -> (res: Self)
        ensures
            res@ == 0,
    {
        Self { bits: 0 }
    }

    /// The set with every flag.
    pub fn all() -> (res: Self)
        ensures
            res@ == 0xffff_ffffu32,
    {
        Self { bits: 0xffff_ffffu32 }
    }

    /// Whether no flag is set.
    pub fn is_empty(&self) -> (res: bool)
        ensures
            res == (self@ == 0),
    {
        self.bits == 0
    }

    /// Whether every flag is set.
    pub fn is_all(&self) -> (res: bool)
        ensures
            res == (self@ == 0xffff_ffffu32),
    {
        self.bits == 0xffff_ffffu32
    }

    /// Whether every flag of `other` is set in `self`.
    pub fn contains(&self, other: Self) -> (res: bool)
        ensures
            res == (self@ & other@ == other@),
    {
        self.bits & other.bits == other.bits
    }

    /// Whether some flag of `other` is set in `self`.
    pub fn intersects(&self, other: Self) -> (res: bool)
        ensures
            res == (self@ & other@ != 0),
    {
        self.bits & other.bits != 0
    }

    /// The flags set in either.
    pub fn union(self, other: Self) -> (res: Self)
        ensures
            res@ == self@ | other@,
    {
        Self { bits: self.bits | other.bits }
    }

    /// The flags set in both.
    pub fn intersection(self, other: Self) -> (res: Self)
        ensures
            res@ == self@ & other@,
    {
        Self { bits: self.bits & other.bits }
    }

    /// The flags of `self` that are not in `other`.
    pub fn difference(self, other: Self) -> (res: Self)
        ensures
            res@ == self@ & !other@,
    {
        Self { bits: self.bits & !other.bits }
    }

    /// The flags set in exactly one of the two.
    pub fn symmetric_difference(self, other: Self) -> (res: Self)
        ensures
            res@ == self@ ^ other@,
    {
        Self { bits: self.bits ^ other.bits }
    }

    /// The flags not set in `self`.
    pub fn complement(self) -> (res: Self)
        ensures
            res@ == !self@,
    {
        Self { bits: !self.bits }
    }

    /// Sets the flags of `other`.
    pub fn insert(&mut self, other: Self)
        ensures
            final(self)@ == old(self)@ | other@,
    {
        self.bits = self.bits | other.bits;
    }

    /// Clears the flags of `other`.
    pub fn remove(&mut self, other: Self)
        ensures
            final(self)@ == old(self)@ & !other@,
    {
        self.bits = self.bits & !other.bits;
    }

    /// Flips the flags of `other`.
    pub fn toggle(&mut self, other: Self)
        ensures
            final(self)@ == old(self)@ ^ other@,
    {
        self.bits = self.bits ^ other.bits;
    }

    /// Sets the flags of `other` when `value` holds, clears them otherwise.
    pub fn set(&mut self, other: Self, value: bool)
        ensures
            final(self)@ == (if value {
                old(self)@ | other@
            } else {
                old(self)@ & !other@
            }),
    {
        if value {
            self.insert(other);
        } else {
            self.remove(other);
        }
    }
}

/// What a heap visitor asks the walk to do next.
#[derive(Debug, Clone, Copy, PartialEq, Eq, Structural, PartialOrd, Ord, Hash)]
pub struct VisitControl {
    bits: u32,
}

impl View for VisitControl {
    type V = u32;

    closed spec fn view(&self) -> u32 {
        self.bits
    }
}

impl VisitControl {
    #[allow(non_snake_case)]
    pub fn OBJECTS() -> (res: Self)
        ensures
            res@ == 0x100u32,
    {
        Self { bits: 0x100u32 }
    }

    #[allow(non_snake_case)]
    pub fn ABORT() -> (res: Self)
        ensures
            res@ == 0x8000u32,
    {
        Self { bits: 0x8000u32 }
    }

    /// The set holding exactly `bits`, as a specification.
    pub closed spec fn spec_from_bits(bits: u32) -> Self {
        Self { bits }
    }

    /// The set built by `spec_from_bits` holds the bits it was given.
    pub broadcast proof fn lemma_spec_from_bits(bits: u32)
        ensures
            #[trigger] Self::spec_from_bits(bits)@ == bits,
    {
    }

    /// A set is determined by its bits.
    pub proof fn lemma_view_determines(a: Self, b: Self)
        ensures
            a@ == b@ ==> a == b,
    {
    }

    /// The set holding exactly the bits of `bits`, known or not.
    pub fn from_bits_retain(bits: u32) -> (res: Self)
        ensures
            res@ == bits,
    {
        Self { bits }
    }

    /// The set holding the bits of `bits`; every bit is a known flag, so this never fails.
    pub fn from_bits(bits: u32) -> (res: Option<Self>)
        ensures
            res matches Some(f) && f@ == bits,
    {
        Some(Self { bits })
    }

    /// The set holding the known bits of `bits`, which are all of them.
    pub fn from_bits_truncate(bits: u32) -> (res: Self)
        ensures
            res@ == bits,
    {
        Self { bits }
    }

    /// The raw bits of the set.
    pub fn bits(&self) -> (res: u32)
        ensures
            res == self@,
    {
        self.bits
    }

    /// The set with no flag.
    pub fn empty() -> (res: Self)
        ensures
            res@ == 0,
    {
        Self { bits: 0 }
    }

    /// The set with every flag.
    pub fn all() -> (res: Self)
        ensures
            res@ == 0xffff_ffffu32,
    {
        Self { bits: 0xffff_ffffu32 }
    }

    /// Whether no flag is set.
    pub fn is_empty(&self) -> (res: bool)
        ensures
            res == (self@ == 0),
    {
        self.bits == 0
    }

    /// Whether every flag is set.
    pub fn is_all(&self) -> (res: bool)
        ensures
            res == (self@ == 0xffff_ffffu32),
    {
        self.bits == 0xffff_ffffu32
    }

    /// Whether every flag of `other` is set in `self`.
    pub fn contains(&self, other: Self) -> (res: bool)
        ensures
            res == (self@ & other@ == other@),
    {
        self.bits & other.bits == other.bits
    }

    /// Whether some flag of `other` is set in `self`.
    pub fn intersects(&self, other: Self) -> (res: bool)
        ensures
            res == (self@ & other@ != 0),
    {
        self.bits & other.bits != 0
    }

    /// The flags set in either.
    pub fn union(self, other: Self) -> (res: Self)
        ensures
            res@ == self@ | other@,
    {
        Self { bits: self.bits | other.bits }
    }

    /// The flags set in both.
    pub fn intersection(self, other: Self) -> (res: Self)
        ensures
            res@ == self@ & other@,
    {
        Self { bits: self.bits & other.bits }
    }

    /// The flags of `self` that are not in `other`.
    pub fn difference(self, other: Self) -> (res: Self)
        ensures
            res@ == self@ & !other@,
    {
        Self { bits: self.bits & !other.bits }
    }

    /// The flags set in exactly one of the two.
    pub fn symmetric_difference(self, other: Self) -> (res: Self)
        ensures
            res@ == self@ ^ other@,
    {
        Self { bits: self.bits ^ other.bits }
    }

    /// The flags not set in `self`.
    pub fn complement(self) -> (res: Self)
        ensures
            res@ == !self@,
    {
        Self { bits: !self.bits }
    }

    /// Sets the flags of `other`.
    pub fn insert(&mut self, other: Self)
        ensures
            final(self)@ == old(self)@ | other@,
    {
        self.bits = self.bits | other.bits;
    }

    /// Clears the flags of `other`.
    pub fn remove(&mut self, other: Self)
        ensures
            final(self)@ == old(self)@ & !other@,
    {
        self.bits = self.bits & !other.bits;
    }

    /// Flips the flags of `other`.
    pub fn toggle(&mut self, other: Self)
        ensures
            final(self)@ == old(self)@ ^ other@,
    {
        self.bits = self.bits ^ other.bits;
    }

    /// Sets the flags of `other` when `value` holds, clears them otherwise.
    pub fn set(&mut self, other: Self, value: bool)
        ensures
            final(self)@ == (if value {
                old(self)@ | other@
            } else {
                old(self)@ & !other@
            }),
    {
        if value {
            self.insert(other);
        } else {
            self.remove(other);
        }
    }
}

impl From<ControlFlow<()>> for VisitControl {
    fn from(value: ControlFlow<()>) -> (res: Self) {
        match value {
            ControlFlow::Continue(()) => Self { bits: 0 },
            ControlFlow::Break(()) => Self { bits: 0x8000 },
        }
    }
}

impl vstd::std_specs::convert::FromSpecImpl<ControlFlow<()>> for VisitControl {
    open spec fn obeys_from_spec() -> bool {
        true
    }

    open spec fn from_spec(v: ControlFlow<()>) -> VisitControl {
        VisitControl::spec_from_bits(if v is Break { 0x8000u32 } else { 0u32 })
    }
}

impl From<ControlFlow<(), bool>> for VisitControl {
    fn from(value: ControlFlow<(), bool>) -> (res: Self) {
        match value {
            ControlFlow::Continue(false) => Self { bits: 0 },
            ControlFlow::Continue(true) => Self { bits: 0x100 },
            ControlFlow::Break(()) => Self { bits: 0x8000 },
        }
    }
}

impl vstd::std_specs::convert::FromSpecImpl<ControlFlow<(), bool>> for VisitControl {
    open spec fn obeys_from_spec() -> bool {
        true
    }

    open spec fn from_spec(v: ControlFlow<(), bool>) -> VisitControl {
        VisitControl::spec_from_bits(
            match v {
                ControlFlow::Continue(false) => 0u32,
                ControlFlow::Continue(true) => 0x100u32,
                ControlFlow::Break(()) => 0x8000u32,
            },
        )
    }
}

} // verus!
