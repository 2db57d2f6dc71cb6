//! Events that a JVM TI environment can report, and the values that event
//! callbacks receive.

use core::marker::PhantomData;

use vstd::prelude::*;
use vstd::std_specs::convert::FromSpec;
use vstd::std_specs::convert::TryFromSpec;

use crate::errors::InvalidVariant;
use crate::heap::PrimitiveType;

verus! {

/// An event that a JVM TI environment can report.
#[derive(Debug, Clone, Copy, PartialEq, Eq, Structural, PartialOrd, Ord, Hash)]
pub enum Event {
    Breakpoint,
    ClassFileLoadHook,
    ClassLoad,
    ClassPrepare,
    CompiledMethodLoad,
    CompiledMethodUnload,
    DataDumpRequest,
    DynamicCodeGenerated,
    Exception,
    ExceptionCatch,
    FieldAccess,
    FieldModification,
    FramePop,
    GarbageCollectionStart,
    GarbageCollectionFinish,
    MethodEntry,
    MethodExit,
    MonitorContendedEnter,
    MonitorContendedEntered,
    MonitorWait,
    MonitorWaited,
    NativeMethodBind,
    ObjectFree,
    ResourceExhausted,
    SampledObjectAlloc,
    SingleStep,
    ThreadStart,
    ThreadEnd,
    VirtualThreadStart,
    VirtualThreadEnd,
    VmObjectAlloc,
    VmInit,
    VmStart,
    VmDeath,
}

impl Event {
    /// The JVM TI code of this value.
    pub open spec fn spec_code(self) -> u32 {
        match self {
            Event::Breakpoint => 62,
            Event::ClassFileLoadHook => 54,
            Event::ClassLoad => 55,
            Event::ClassPrepare => 56,
            Event::CompiledMethodLoad => 68,
            Event::CompiledMethodUnload => 69,
            Event::DataDumpRequest => 71,
            Event::DynamicCodeGenerated => 70,
            Event::Exception => 58,
            Event::ExceptionCatch => 59,
            Event::FieldAccess => 63,
            Event::FieldModification => 64,
            Event::FramePop => 61,
            Event::GarbageCollectionStart => 81,
            Event::GarbageCollectionFinish => 82,
            Event::MethodEntry => 65,
            Event::MethodExit => 66,
            Event::MonitorContendedEnter => 75,
            Event::MonitorContendedEntered => 76,
            Event::MonitorWait => 73,
            Event::MonitorWaited => 74,
            Event::NativeMethodBind => 67,
            Event::ObjectFree => 83,
            Event::ResourceExhausted => 80,
            Event::SampledObjectAlloc => 86,
            Event::SingleStep => 60,
            Event::ThreadStart => 52,
            Event::ThreadEnd => 53,
            Event::VirtualThreadStart => 87,
            Event::VirtualThreadEnd => 88,
            Event::VmObjectAlloc => 84,
            Event::VmInit => 50,
            Event::VmStart => 57,
            Event::VmDeath => 51,
        }
    }

    /// The value with JVM TI code `code`, if there is one.
    pub open spec fn spec_from_code(code: u32) -> Option<Self> {
        if code == 62 {
            Some(Event::Breakpoint)
        } else if code == 54 {
            Some(Event::ClassFileLoadHook)
        } else if code == 55 {
            Some(Event::ClassLoad)
        } else if code == 56 {
            Some(Event::ClassPrepare)
        } else if code == 68 {
            Some(Event::CompiledMethodLoad)
        } else if code == 69 {
            Some(Event::CompiledMethodUnload)
        } else if code == 71 {
            Some(Event::DataDumpRequest)
        } else if code == 70 {
            Some(Event::DynamicCodeGenerated)
        } else if code == 58 {
            Some(Event::Exception)
        } else if code == 59 {
            Some(Event::ExceptionCatch)
        } else if code == 63 {
            Some(Event::FieldAccess)
        } else if code == 64 {
            Some(Event::FieldModification)
        } else if code == 61 {
            Some(Event::FramePop)
        } else if code == 81 {
            Some(Event::GarbageCollectionStart)
        } else if code == 82 {
            Some(Event::GarbageCollectionFinish)
        } else if code == 65 {
            Some(Event::MethodEntry)
        } else if code == 66 {
            Some(Event::MethodExit)
        } else if code == 75 {
            Some(Event::MonitorContendedEnter)
        } else if code == 76 {
            Some(Event::MonitorContendedEntered)
        } else if code == 73 {
            Some(Event::MonitorWait)
        } else if code == 74 {
            Some(Event::MonitorWaited)
        } else if code == 67 {
            Some(Event::NativeMethodBind)
        } else if code == 83 {
            Some(Event::ObjectFree)
        } else if code == 80 {
            Some(Event::ResourceExhausted)
        } else if code == 86 {
            Some(Event::SampledObjectAlloc)
        } else if code == 60 {
            Some(Event::SingleStep)
        } else if code == 52 {
            Some(Event::ThreadStart)
        } else if code == 53 {
            Some(Event::ThreadEnd)
        } else if code == 87 {
            Some(Event::VirtualThreadStart)
        } else if code == 88 {
            Some(Event::VirtualThreadEnd)
        } else if code == 84 {
            Some(Event::VmObjectAlloc)
        } else if code == 50 {
            Some(Event::VmInit)
        } else if code == 57 {
            Some(Event::VmStart)
        } else if code == 51 {
            Some(Event::VmDeath)
        } else {
            None
        }
    }

    /// The JVM TI code of this value.
    pub fn code(self) -> (res: u32)
        ensures
            res == self.spec_code(),
    {
        match self {
            Event::Breakpoint => 62,
            Event::ClassFileLoadHook => 54,
            Event::ClassLoad => 55,
            Event::ClassPrepare => 56,
            Event::CompiledMethodLoad => 68,
            Event::CompiledMethodUnload => 69,
            Event::DataDumpRequest => 71,
            Event::DynamicCodeGenerated => 70,
            Event::Exception => 58,
            Event::ExceptionCatch => 59,
            Event::FieldAccess => 63,
            Event::FieldModification => 64,
            Event::FramePop => 61,
            Event::GarbageCollectionStart => 81,
            Event::GarbageCollectionFinish => 82,
            Event::MethodEntry => 65,
            Event::MethodExit => 66,
            Event::MonitorContendedEnter => 75,
            Event::MonitorContendedEntered => 76,
            Event::MonitorWait => 73,
            Event::MonitorWaited => 74,
            Event::NativeMethodBind => 67,
            Event::ObjectFree => 83,
            Event::ResourceExhausted => 80,
            Event::SampledObjectAlloc => 86,
            Event::SingleStep => 60,
            Event::ThreadStart => 52,
            Event::ThreadEnd => 53,
            Event::VirtualThreadStart => 87,
            Event::VirtualThreadEnd => 88,
            Event::VmObjectAlloc => 84,
            Event::VmInit => 50,
            Event::VmStart => 57,
            Event::VmDeath => 51,
        }
    }

    /// The value with JVM TI code `code`; the code itself as the error when there is none.
    pub fn try_from_code(code: u32) -> (res: Result<Self, InvalidVariant<u32>>)
        ensures
            res == (match Self::spec_from_code(code) {
                Some(v) => Ok(v),
                None => Err(InvalidVariant(code)),
            }),
    {
        match code {
            62 => Ok(Event::Breakpoint),
            54 => Ok(Event::ClassFileLoadHook),
            55 => Ok(Event::ClassLoad),
            56 => Ok(Event::ClassPrepare),
            68 => Ok(Event::CompiledMethodLoad),
            69 => Ok(Event::CompiledMethodUnload),
            71 => Ok(Event::DataDumpRequest),
            70 => Ok(Event::DynamicCodeGenerated),
            58 => Ok(Event::Exception),
            59 => Ok(Event::ExceptionCatch),
            63 => Ok(Event::FieldAccess),
            64 => Ok(Event::FieldModification),
            61 => Ok(Event::FramePop),
            81 => Ok(Event::GarbageCollectionStart),
            82 => Ok(Event::GarbageCollectionFinish),
            65 => Ok(Event::MethodEntry),
            66 => Ok(Event::MethodExit),
            75 => Ok(Event::MonitorContendedEnter),
            76 => Ok(Event::MonitorContendedEntered),
            73 => Ok(Event::MonitorWait),
            74 => Ok(Event::MonitorWaited),
            67 => Ok(Event::NativeMethodBind),
            83 => Ok(Event::ObjectFree),
            80 => Ok(Event::ResourceExhausted),
            86 => Ok(Event::SampledObjectAlloc),
            60 => Ok(Event::SingleStep),
            52 => Ok(Event::ThreadStart),
            53 => Ok(Event::ThreadEnd),
            87 => Ok(Event::VirtualThreadStart),
            88 => Ok(Event::VirtualThreadEnd),
            84 => Ok(Event::VmObjectAlloc),
            50 => Ok(Event::VmInit),
            57 => Ok(Event::VmStart),
            51 => Ok(Event::VmDeath),
            _ => Err(InvalidVariant(code)),
        }
    }

    /// Reading back the code of a value gives the value.
    pub proof fn lemma_code_roundtrip(self)
        ensures
            Self::spec_from_code(self.spec_code()) == Some(self),
            0 < self.spec_code() < 256,
    {
    }

    /// A code that names a value is that value's code.
    pub proof fn lemma_from_code_inverse(code: u32)
        ensures
            Self::spec_from_code(code) matches Some(v) ==> v.spec_code() == code,
    {
    }
}

impl From<Event> for u32 {
    fn from(value: Event) -> (res: u32)
        ensures
            res == value.spec_code(),
    {
        value.code()
    }
}

impl vstd::std_specs::convert::FromSpecImpl<Event> for u32 {
    open spec fn obeys_from_spec() -> bool {
        true
    }

    open spec fn from_spec(v: Event) -> u32 {
        v.spec_code()
    }
}

impl TryFrom<u32> for Event {
    type Error = InvalidVariant<u32>;

    fn try_from(value: u32) -> (res: Result<Self, InvalidVariant<u32>>)
        ensures
            res == (match Self::spec_from_code(value) {
                Some(v) => Ok(v),
                None => Err(InvalidVariant(value)),
            }),
    {
        Self::try_from_code(value)
    }
}

impl vstd::std_specs::convert::TryFromSpecImpl<u32> for Event {
    open spec fn obeys_try_from_spec() -> bool {
        true
    }

    open spec fn try_from_spec(v: u32) -> Result<Self, InvalidVariant<u32>> {
        match Self::spec_from_code(v) {
            Some(e) => Ok(e),
            None => Err(InvalidVariant(v)),
        }
    }
}

/// Converting a `Event` to its code and reading the code back gives the
/// value again, and a code that reads as a value is that value's code.
pub proof fn lemma_event_conversions(v: Event, code: u32)
    ensures
        <u32 as FromSpec<Event>>::from_spec(v) == v.spec_code(),
        Event::spec_from_code(<u32 as FromSpec<Event>>::from_spec(v)) == Some(v),
        <Event as TryFromSpec<u32>>::try_from_spec(<u32 as FromSpec<Event>>::from_spec(v)) == Ok::<
            Event,
            InvalidVariant<u32>,
        >(v),
        <Event as TryFromSpec<u32>>::try_from_spec(code) matches Ok(w) ==> <u32 as FromSpec<
            Event,
        >>::from_spec(w) == code,
        <Event as TryFromSpec<u32>>::try_from_spec(code) matches Err(e) ==> e == InvalidVariant(
            code,
        ) && (forall|w: Event| #[trigger] w.spec_code() != code),
{
    v.lemma_code_roundtrip();
    Event::lemma_from_code_inverse(code);
    assert forall|w: Event| <Event as TryFromSpec<u32>>::try_from_spec(code) is Err implies #[trigger] w.spec_code() != code by {
        w.lemma_code_roundtrip();
    }
}

/// What ran out, as reported by a `ResourceExhausted` event.
#[derive(Debug, Clone, Copy, PartialEq, Eq, Structural, PartialOrd, Ord, Hash)]
pub struct ResourceExhaustionFlags {
    bits: u32,
}

impl View for ResourceExhaustionFlags {
    type V = u32;

    closed spec fn view(&self) -> u32 {
        self.bits
    }
}

impl ResourceExhaustionFlags {
    #[allow(non_snake_case)]
    pub fn OOM() -> (res: Self)
        ensures
            res@ == 0x1u32,
    {
        Self { bits: 0x1u32 }
    }

    #[allow(non_snake_case)]
    pub fn HEAP() -> (res: Self)
        ensures
            res@ == 0x2u32,
    {
        Self { bits: 0x2u32 }
    }

    #[allow(non_snake_case)]
    pub fn THREADS() -> (res: Self)
        ensures
            res@ == 0x4u32,
    {
        Self { bits: 0x4u32 }
    }

    /// The set holding exactly `bits`, as a specification.
    pub closed spec fn spec_from_bits(bits: u32) -> Self {
        Self { bits }
    }

    /// The set built by `spec_from_bits` holds the bits it was given.
    pub broadcast proof fn lemma_spec_from_bits(bits: u32)
        ensures
            #[trigger] Self::spec_from_bits(bits)@ == bits,
    {
    }

    /// A set is determined by its bits.
    pub proof fn lemma_view_determines(a: Self, b: Self)
        ensures
            a@ == b@ ==> a == b,
    {
    }

    /// The set holding exactly the bits of `bits`, known or not.
    pub fn from_bits_retain(bits: u32) -> (res: Self)
        ensures
            res@ == bits,
    {
        Self { bits }
    }

    /// The set holding the bits of `bits`; every bit is a known flag, so this never fails.
    pub fn from_bits(bits: u32) -> (res: Option<Self>)
        ensures
            res matches Some(f) && f@ == bits,
    {
        Some(Self { bits })
    }

    /// The set holding the known bits of `bits`, which are all of them.
    pub fn from_bits_truncate(bits: u32) -> (res: Self)
        ensures
            res@ == bits,
    {
        Self { bits }
    }

    /// The raw bits of the set.
    pub fn bits(&self) -> (res: u32)
        ensures
            res == self@,
    {
        self.bits
    }

    /// The set with no flag.
    pub fn empty() -> (res: Self)
        ensures
            res@ == 0,
    {
        Self { bits: 0 }
    }

    /// The set with every flag.
    pub fn all() -> (res: Self)
        ensures
            res@ == 0xffff_ffffu32,
    {
        Self { bits: 0xffff_ffffu32 }
    }

    /// Whether no flag is set.
    pub fn is_empty(&self) -> (res: bool)
        ensures
            res == (self@ == 0),
    {
        self.bits == 0
    }

    /// Whether every flag is set.
    pub fn is_all(&self) -> (res: bool)
        ensures
            res == (self@ == 0xffff_ffffu32),
    {
        self.bits == 0xffff_ffffu32
    }

    /// Whether every flag of `other` is set in `self`.
    pub fn contains(&self, other: Self) -> (res: bool)
        ensures
            res == (self@ & other@ == other@),
    {
        self.bits & other.bits == other.bits
    }

    /// Whether some flag of `other` is set in `self`.
    pub fn intersects(&self, other: Self) -> (res: bool)
        ensures
            res == (self@ & other@ != 0),
    {
        self.bits & other.bits != 0
    }

    /// The flags set in either.
    pub fn union(self, other: Self) -> (res: Self)
        ensures
            res@ == self@ | other@,
    {
        Self { bits: self.bits | other.bits }
    }

    /// The flags set in both.
    pub fn intersection(self, other: Self) -> (res: Self)
        ensures
            res@ == self@ & other@,
    {
        Self { bits: self.bits & other.bits }
    }

    /// The flags of `self` that are not in `other`.
    pub fn difference(self, other: Self) -> (res: Self)
        ensures
            res@ == self@ & !other@,
    {
        Self { bits: self.bits & !other.bits }
    }

    /// The flags set in exactly one of the two.
    pub fn symmetric_difference(self, other: Self) -> (res: Self)
        ensures
            res@ == self@ ^ other@,
    {
        Self { bits: self.bits ^ other.bits }
    }

    /// The flags not set in `self`.
    pub fn complement(self) -> (res: Self)
        ensures
            res@ == !self@,
    {
        Self { bits: !self.bits }
    }

    /// Sets the flags of `other`.
    pub fn insert(&mut self, other: Self)
        ensures
            final(self)@ == old(self)@ | other@,
    {
        self.bits = self.bits | other.bits;
    }

    /// Clears the flags of `other`.
    pub fn remove(&mut self, other: Self)
        ensures
            final(self)@ == old(self)@ & !other@,
    {
        self.bits = self.bits & !other.bits;
    }

    /// Flips the flags of `other`.
    pub fn toggle(&mut self, other: Self)
        ensures
            final(self)@ == old(self)@ ^ other@,
    {
        self.bits = self.bits ^ other.bits;
    }

    /// Sets the flags of `other` when `value` holds, clears them otherwise.
    pub fn set(&mut self, other: Self, value: bool)
        ensures
            final(self)@ == (if value {
                old(self)@ | other@
            } else {
                old(self)@ & !other@
            }),
    {
        if value {
            self.insert(other);
        } else {
            self.remove(other);
        }
    }
}

/// The JVM TI mode that enables an event.
pub const JVMTI_ENABLE: u32 = 1;

/// The JVM TI mode that disables an event.
pub const JVMTI_DISABLE: u32 = 0;

/// The JVM TI notification mode that enables (`true`) or disables an event.
pub fn notification_mode(enable: bool) -> (res: u32)
    ensures
        res == (if enable {
            JVMTI_ENABLE
        } else {
            JVMTI_DISABLE
        }),
{
    if enable {
        JVMTI_ENABLE
    } else {
        JVMTI_DISABLE
    }
}

/// The kind of value that a field modification event carries, by the type
/// character of the field's signature.
#[derive(Debug, Clone, Copy, PartialEq, Eq, Structural, PartialOrd, Ord, Hash)]
pub enum FieldValueKind {
    /// A primitive value; its type character is its primitive type code.
    Primitive(PrimitiveType),
    /// An object or array reference (type character `L` or `[`).
    Object,
}

impl FieldValueKind {
    /// The kind of value that the signature type character `sig` stands for;
    /// `None` for a character that starts no field signature.
    pub fn from_signature(sig: u8) -> (res: Option<FieldValueKind>)
        ensures
            res == (match PrimitiveType::spec_from_code(sig as u32) {
                Some(p) => Some(FieldValueKind::Primitive(p)),
                None => if sig == 0x4Cu8 || sig == 0x5Bu8 {
                    Some(FieldValueKind::Object)
                } else {
                    None::<FieldValueKind>
                },
            }),
    {
        match PrimitiveType::try_from_code(sig as u32) {
            Ok(p) => Some(FieldValueKind::Primitive(p)),
            Err(_) => if sig == 0x4C || sig == 0x5B {
                Some(FieldValueKind::Object)
            } else {
                None
            },
        }
    }
}

/// The address of compiled native code, as an event reports it.
#[derive(Debug)]
pub struct NativeCode(usize);

impl View for NativeCode {
    type V = usize;

    closed spec fn view(&self) -> usize {
        self.0
    }
}

impl NativeCode {
    /// Takes over the native code at `addr`.
    pub fn new(addr: usize) -> (res: Self)
        ensures
            res@ == addr,
    {
        Self(addr)
    }

    /// The address of the code.
    pub fn get(self) -> (res: usize)
        ensures
            res == self@,
    {
        self.0
    }
}

/// The address of a native method implementation, which an agent may replace.
#[derive(Debug)]
pub struct NativeCodeMut(usize);

impl View for NativeCodeMut {
    type V = usize;

    closed spec fn view(&self) -> usize {
        self.0
    }
}

impl NativeCodeMut {
    /// Takes over the native method implementation at `addr`.
    pub fn new(addr: usize) -> (res: Self)
        ensures
            res@ == addr,
    {
        Self(addr)
    }

    /// The address of the implementation.
    pub fn get(self) -> (res: usize)
        ensures
            res == self@,
    {
        self.0
    }
}

/// The table of callbacks that serve the events and heap visits of `T`.
#[derive(Debug)]
pub struct CallbackBuilder<T: ?Sized>(PhantomData<T>);

} // verus!
