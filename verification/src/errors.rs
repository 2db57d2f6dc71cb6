//! Errors reported by JVM TI, and their numeric codes.

use vstd::prelude::*;
use vstd::std_specs::convert::FromSpec;
use vstd::std_specs::convert::TryFromSpec;
use vstd::string::StringSliceAdditionalSpecFns;
use vstd::string::StringExecFns;
use vstd::utf8::encode_utf8;

use jni::errors::Error as JniError;

use crate::nonzero::NonZeroU8;
use crate::text::errormsg;
use crate::text::message_of;

verus! {

broadcast use crate::nonzero::group_nonzero;

/// A raw value that names no variant of the type it was read as.
#[derive(Debug)]
pub struct InvalidVariant<T>(pub T);

/// General JVMTI failure
#[derive(Debug, Clone, Copy, PartialEq, Eq, Structural, PartialOrd, Ord, Hash)]
pub enum UniversalError {
    /// Pointer is unexpectedly null
    NullPointer,
    /// The function attempted to allocate memory and no more memory was available for allocation
    OutOfMemory,
    /// The desired functionality has not been enabled in this virtual machine
    AccessDenied,
    /// The thread being used to call this function is not attached to the virtual machine. Calls must be made from attached threads. See AttachCurrentThread in the JNI invocation API
    UnattachedThread,
    /// The JVM TI environment provided is no longer connected or is not an environment
    InvalidEnvironment,
    /// The desired functionality is not available in the current phase
    WrongPhase,
    /// An unexpected internal error has occurred
    Internal,
}

impl UniversalError {
    /// The JVM TI code of this value.
    pub open spec fn spec_code(self) -> u32 {
        match self {
            UniversalError::NullPointer => 100,
            UniversalError::OutOfMemory => 110,
            UniversalError::AccessDenied => 111,
            UniversalError::UnattachedThread => 115,
            UniversalError::InvalidEnvironment => 116,
            UniversalError::WrongPhase => 112,
            UniversalError::Internal => 113,
        }
    }

    /// The value with JVM TI code `code`, if there is one.
    pub open spec fn spec_from_code(code: u32) -> Option<Self> {
        if code == 100 {
            Some(UniversalError::NullPointer)
        } else if code == 110 {
            Some(UniversalError::OutOfMemory)
        } else if code == 111 {
            Some(UniversalError::AccessDenied)
        } else if code == 115 {
            Some(UniversalError::UnattachedThread)
        } else if code == 116 {
            Some(UniversalError::InvalidEnvironment)
        } else if code == 112 {
            Some(UniversalError::WrongPhase)
        } else if code == 113 {
            Some(UniversalError::Internal)
        } else {
            None
        }
    }

    /// The JVM TI code of this value.
    pub fn code(self) -> (res: u32)
        ensures
            res == self.spec_code(),
    {
        match self {
            UniversalError::NullPointer => 100,
            UniversalError::OutOfMemory => 110,
            UniversalError::AccessDenied => 111,
            UniversalError::UnattachedThread => 115,
            UniversalError::InvalidEnvironment => 116,
            UniversalError::WrongPhase => 112,
            UniversalError::Internal => 113,
        }
    }

    /// The value with JVM TI code `code`; the code itself as the error when there is none.
    pub fn try_from_code(code: u32) -> (res: Result<Self, InvalidVariant<u32>>)
        ensures
            res == (match Self::spec_from_code(code) {
                Some(v) => Ok(v),
                None => Err(InvalidVariant(code)),
            }),
    {
        match code {
            100 => Ok(UniversalError::NullPointer),
            110 => Ok(UniversalError::OutOfMemory),
            111 => Ok(UniversalError::AccessDenied),
            115 => Ok(UniversalError::UnattachedThread),
            116 => Ok(UniversalError::InvalidEnvironment),
            112 => Ok(UniversalError::WrongPhase),
            113 => Ok(UniversalError::Internal),
            _ => Err(InvalidVariant(code)),
        }
    }

    /// The documentation text of this value, as written on the variant.
    #[verifier::allow_in_spec]
    pub fn doc(self) -> &'static str
        returns
            (match self {
                UniversalError::NullPointer => " Pointer is unexpectedly null\n",
                UniversalError::OutOfMemory => " The function attempted to allocate memory and no more memory was available for allocation\n",
                UniversalError::AccessDenied => " The desired functionality has not been enabled in this virtual machine\n",
                UniversalError::UnattachedThread => " The thread being used to call this function is not attached to the virtual machine. Calls must be made from attached threads. See AttachCurrentThread in the JNI invocation API\n",
                UniversalError::InvalidEnvironment => " The JVM TI environment provided is no longer connected or is not an environment\n",
                UniversalError::WrongPhase => " The desired functionality is not available in the current phase\n",
                UniversalError::Internal => " An unexpected internal error has occurred\n",
            }),
    {
        match self {
            UniversalError::NullPointer => " Pointer is unexpectedly null\n",
            UniversalError::OutOfMemory => " The function attempted to allocate memory and no more memory was available for allocation\n",
            UniversalError::AccessDenied => " The desired functionality has not been enabled in this virtual machine\n",
            UniversalError::UnattachedThread => " The thread being used to call this function is not attached to the virtual machine. Calls must be made from attached threads. See AttachCurrentThread in the JNI invocation API\n",
            UniversalError::InvalidEnvironment => " The JVM TI environment provided is no longer connected or is not an environment\n",
            UniversalError::WrongPhase => " The desired functionality is not available in the current phase\n",
            UniversalError::Internal => " An unexpected internal error has occurred\n",
        }
    }

    /// The short message of this value: the first sentence of its documentation.
    pub fn message(self) -> (res: &'static str)
        ensures
            res.spec_bytes() == message_of(self.doc().spec_bytes()),
    {
        errormsg(self.doc())
    }

    /// The documentation text of this kind of error.
    #[verifier::allow_in_spec]
    pub fn kind_doc() -> &'static str
        returns
            " General JVMTI failure\n",
    {
        " General JVMTI failure\n"
    }

    /// The short message of this kind of error.
    pub fn kind_message() -> (res: &'static str)
        ensures
            res.spec_bytes() == message_of(Self::kind_doc().spec_bytes()),
    {
        errormsg(Self::kind_doc())
    }

    /// Reading back the code of a value gives the value.
    pub proof fn lemma_code_roundtrip(self)
        ensures
            Self::spec_from_code(self.spec_code()) == Some(self),
            0 < self.spec_code() < 256,
    {
    }

    /// A code that names a value is that value's code.
    pub proof fn lemma_from_code_inverse(code: u32)
        ensures
            Self::spec_from_code(code) matches Some(v) ==> v.spec_code() == code,
    {
    }
}

impl From<UniversalError> for u32 {
    fn from(value: UniversalError) -> (res: u32)
        ensures
            res == value.spec_code(),
    {
        value.code()
    }
}

impl vstd::std_specs::convert::FromSpecImpl<UniversalError> for u32 {
    open spec fn obeys_from_spec() -> bool {
        true
    }

    open spec fn from_spec(v: UniversalError) -> u32 {
        v.spec_code()
    }
}

impl TryFrom<u32> for UniversalError {
    type Error = InvalidVariant<u32>;

    fn try_from(value: u32) -> (res: Result<Self, InvalidVariant<u32>>)
        ensures
            res == (match Self::spec_from_code(value) {
                Some(v) => Ok(v),
                None => Err(InvalidVariant(value)),
            }),
    {
        Self::try_from_code(value)
    }
}

impl vstd::std_specs::convert::TryFromSpecImpl<u32> for UniversalError {
    open spec fn obeys_try_from_spec() -> bool {
        true
    }

    open spec fn try_from_spec(v: u32) -> Result<Self, InvalidVariant<u32>> {
        match Self::spec_from_code(v) {
            Some(e) => Ok(e),
            None => Err(InvalidVariant(v)),
        }
    }
}

/// Converting a `UniversalError` to its code and reading the code back gives the
/// value again, and a code that reads as a value is that value's code.
pub proof fn lemma_universal_error_conversions(v: UniversalError, code: u32)
    ensures
        <u32 as FromSpec<UniversalError>>::from_spec(v) == v.spec_code(),
        UniversalError::spec_from_code(<u32 as FromSpec<UniversalError>>::from_spec(v)) == Some(v),
        <UniversalError as TryFromSpec<u32>>::try_from_spec(<u32 as FromSpec<UniversalError>>::from_spec(v)) == Ok::<
            UniversalError,
            InvalidVariant<u32>,
        >(v),
        <UniversalError as TryFromSpec<u32>>::try_from_spec(code) matches Ok(w) ==> <u32 as FromSpec<
            UniversalError,
        >>::from_spec(w) == code,
        <UniversalError as TryFromSpec<u32>>::try_from_spec(code) matches Err(e) ==> e == InvalidVariant(
            code,
        ) && (forall|w: UniversalError| #[trigger] w.spec_code() != code),
{
    v.lemma_code_roundtrip();
    UniversalError::lemma_from_code_inverse(code);
    assert forall|w: UniversalError| <UniversalError as TryFromSpec<u32>>::try_from_spec(code) is Err implies #[trigger] w.spec_code() != code by {
        w.lemma_code_roundtrip();
    }
}

/// Thread error
#[derive(Debug, Clone, Copy, PartialEq, Eq, Structural, PartialOrd, Ord, Hash)]
pub enum ThreadError {
    /// Thread was not suspended
    NotSuspended,
    /// Thread already suspended
    Suspended,
    /// This operation requires the thread to be alive
    NotAlive,
    /// The state of the thread has been modified, and is now inconsistent
    InvalidTypestate,
}

impl ThreadError {
    /// The JVM TI code of this value.
    pub open spec fn spec_code(self) -> u32 {
        match self {
            ThreadError::NotSuspended => 13,
            ThreadError::Suspended => 14,
            ThreadError::NotAlive => 15,
            ThreadError::InvalidTypestate => 65,
        }
    }

    /// The value with JVM TI code `code`, if there is one.
    pub open spec fn spec_from_code(code: u32) -> Option<Self> {
        if code == 13 {
            Some(ThreadError::NotSuspended)
        } else if code == 14 {
            Some(ThreadError::Suspended)
        } else if code == 15 {
            Some(ThreadError::NotAlive)
        } else if code == 65 {
            Some(ThreadError::InvalidTypestate)
        } else {
            None
        }
    }

    /// The JVM TI code of this value.
    pub fn code(self) -> (res: u32)
        ensures
            res == self.spec_code(),
    {
        match self {
            ThreadError::NotSuspended => 13,
            ThreadError::Suspended => 14,
            ThreadError::NotAlive => 15,
            ThreadError::InvalidTypestate => 65,
        }
    }

    /// The value with JVM TI code `code`; the code itself as the error when there is none.
    pub fn try_from_code(code: u32) -> (res: Result<Self, InvalidVariant<u32>>)
        ensures
            res == (match Self::spec_from_code(code) {
                Some(v) => Ok(v),
                None => Err(InvalidVariant(code)),
            }),
    {
        match code {
            13 => Ok(ThreadError::NotSuspended),
            14 => Ok(ThreadError::Suspended),
            15 => Ok(ThreadError::NotAlive),
            65 => Ok(ThreadError::InvalidTypestate),
            _ => Err(InvalidVariant(code)),
        }
    }

    /// The documentation text of this value, as written on the variant.
    #[verifier::allow_in_spec]
    pub fn doc(self) -> &'static str
        returns
            (match self {
                ThreadError::NotSuspended => " Thread was not suspended\n",
                ThreadError::Suspended => " Thread already suspended\n",
                ThreadError::NotAlive => " This operation requires the thread to be alive\n",
                ThreadError::InvalidTypestate => " The state of the thread has been modified, and is now inconsistent\n",
            }),
    {
        match self {
            ThreadError::NotSuspended => " Thread was not suspended\n",
            ThreadError::Suspended => " Thread already suspended\n",
            ThreadError::NotAlive => " This operation requires the thread to be alive\n",
            ThreadError::InvalidTypestate => " The state of the thread has been modified, and is now inconsistent\n",
        }
    }

    /// The short message of this value: the first sentence of its documentation.
    pub fn message(self) -> (res: &'static str)
        ensures
            res.spec_bytes() == message_of(self.doc().spec_bytes()),
    {
        errormsg(self.doc())
    }

    /// The documentation text of this kind of error.
    #[verifier::allow_in_spec]
    pub fn kind_doc() -> &'static str
        returns
            " Thread error\n",
    {
        " Thread error\n"
    }

    /// The short message of this kind of error.
    pub fn kind_message() -> (res: &'static str)
        ensures
            res.spec_bytes() == message_of(Self::kind_doc().spec_bytes()),
    {
        errormsg(Self::kind_doc())
    }

    /// Reading back the code of a value gives the value.
    pub proof fn lemma_code_roundtrip(self)
        ensures
            Self::spec_from_code(self.spec_code()) == Some(self),
            0 < self.spec_code() < 256,
    {
    }

    /// A code that names a value is that value's code.
    pub proof fn lemma_from_code_inverse(code: u32)
        ensures
            Self::spec_from_code(code) matches Some(v) ==> v.spec_code() == code,
    {
    }
}

impl From<ThreadError> for u32 {
    fn from(value: ThreadError) -> (res: u32)
        ensures
            res == value.spec_code(),
    {
        value.code()
    }
}

impl vstd::std_specs::convert::FromSpecImpl<ThreadError> for u32 {
    open spec fn obeys_from_spec() -> bool {
        true
    }

    open spec fn from_spec(v: ThreadError) -> u32 {
        v.spec_code()
    }
}

impl TryFrom<u32> for ThreadError {
    type Error = InvalidVariant<u32>;

    fn try_from(value: u32) -> (res: Result<Self, InvalidVariant<u32>>)
        ensures
            res == (match Self::spec_from_code(value) {
                Some(v) => Ok(v),
                None => Err(InvalidVariant(value)),
            }),
    {
        Self::try_from_code(value)
    }
}

impl vstd::std_specs::convert::TryFromSpecImpl<u32> for ThreadError {
    open spec fn obeys_try_from_spec() -> bool {
        true
    }

    open spec fn try_from_spec(v: u32) -> Result<Self, InvalidVariant<u32>> {
        match Self::spec_from_code(v) {
            Some(e) => Ok(e),
            None => Err(InvalidVariant(v)),
        }
    }
}

/// Converting a `ThreadError` to its code and reading the code back gives the
/// value again, and a code that reads as a value is that value's code.
pub proof fn lemma_thread_error_conversions(v: ThreadError, code: u32)
    ensures
        <u32 as FromSpec<ThreadError>>::from_spec(v) == v.spec_code(),
        ThreadError::spec_from_code(<u32 as FromSpec<ThreadError>>::from_spec(v)) == Some(v),
        <ThreadError as TryFromSpec<u32>>::try_from_spec(<u32 as FromSpec<ThreadError>>::from_spec(v)) == Ok::<
            ThreadError,
            InvalidVariant<u32>,
        >(v),
        <ThreadError as TryFromSpec<u32>>::try_from_spec(code) matches Ok(w) ==> <u32 as FromSpec<
            ThreadError,
        >>::from_spec(w) == code,
        <ThreadError as TryFromSpec<u32>>::try_from_spec(code) matches Err(e) ==> e == InvalidVariant(
            code,
        ) && (forall|w: ThreadError| #[trigger] w.spec_code() != code),
{
    v.lemma_code_roundtrip();
    ThreadError::lemma_from_code_inverse(code);
    assert forall|w: ThreadError| <ThreadError as TryFromSpec<u32>>::try_from_spec(code) is Err implies #[trigger] w.spec_code() != code by {
        w.lemma_code_roundtrip();
    }
}

/// Class (re)definition error
#[derive(Debug, Clone, Copy, PartialEq, Eq, Structural, PartialOrd, Ord, Hash)]
pub enum ClassError {
    /// A new class file is malformed (the VM would return a ClassFormatError)
    InvalidFormat,
    /// The new class file definitions would lead to a circular definition (the VM would return a ClassCircularityError)
    CircularDefinition,
    /// The class bytes fail verification
    FailsVerification,
    /// A new class file has a version number not supported by this VM
    UnsupportedVersion,
    /// The class has been loaded but not yet prepared
    NotPrepared,
    /// The class name defined in the new class file is different from the name in the old class object
    NamesDontMatch,
    /// The class cannot be modified
    UnmodifiableClass,
    /// The module cannot be modified
    UnmodifiableModule,
    /// A new class file would require adding a method
    MethodAdded,
    /// A new class version does not declare a method declared in the old class version
    MethodDeleted,
    /// A new class version changes a field
    SchemaChanged,
    /// A direct superclass is different for the new class version, or the set of directly implemented interfaces is different
    HierarchyChanged,
    /// A new class version has different modifiers
    ClassModifiersChanged,
    /// A method in the new class version has different modifiers than its counterpart in the old class version
    MethodModifiersChanged,
    /// A new class version has unsupported differences in class attributes
    ClassAttributeChanged,
}

impl ClassError {
    /// The JVM TI code of this value.
    pub open spec fn spec_code(self) -> u32 {
        match self {
            ClassError::InvalidFormat => 60,
            ClassError::CircularDefinition => 61,
            ClassError::FailsVerification => 62,
            ClassError::UnsupportedVersion => 68,
            ClassError::NotPrepared => 22,
            ClassError::NamesDontMatch => 69,
            ClassError::UnmodifiableClass => 79,
            ClassError::UnmodifiableModule => 80,
            ClassError::MethodAdded => 63,
            ClassError::MethodDeleted => 67,
            ClassError::SchemaChanged => 64,
            ClassError::HierarchyChanged => 66,
            ClassError::ClassModifiersChanged => 70,
            ClassError::MethodModifiersChanged => 71,
            ClassError::ClassAttributeChanged => 72,
        }
    }

    /// The value with JVM TI code `code`, if there is one.
    pub open spec fn spec_from_code(code: u32) -> Option<Self> {
        if code == 60 {
            Some(ClassError::InvalidFormat)
        } else if code == 61 {
            Some(ClassError::CircularDefinition)
        } else if code == 62 {
            Some(ClassError::FailsVerification)
        } else if code == 68 {
            Some(ClassError::UnsupportedVersion)
        } else if code == 22 {
            Some(ClassError::NotPrepared)
        } else if code == 69 {
            Some(ClassError::NamesDontMatch)
        } else if code == 79 {
            Some(ClassError::UnmodifiableClass)
        } else if code == 80 {
            Some(ClassError::UnmodifiableModule)
        } else if code == 63 {
            Some(ClassError::MethodAdded)
        } else if code == 67 {
            Some(ClassError::MethodDeleted)
        } else if code == 64 {
            Some(ClassError::SchemaChanged)
        } else if code == 66 {
            Some(ClassError::HierarchyChanged)
        } else if code == 70 {
            Some(ClassError::ClassModifiersChanged)
        } else if code == 71 {
            Some(ClassError::MethodModifiersChanged)
        } else if code == 72 {
            Some(ClassError::ClassAttributeChanged)
        } else {
            None
        }
    }

    /// The JVM TI code of this value.
    pub fn code(self) -> (res: u32)
        ensures
            res == self.spec_code(),
    {
        match self {
            ClassError::InvalidFormat => 60,
            ClassError::CircularDefinition => 61,
            ClassError::FailsVerification => 62,
            ClassError::UnsupportedVersion => 68,
            ClassError::NotPrepared => 22,
            ClassError::NamesDontMatch => 69,
            ClassError::UnmodifiableClass => 79,
            ClassError::UnmodifiableModule => 80,
            ClassError::MethodAdded => 63,
            ClassError::MethodDeleted => 67,
            ClassError::SchemaChanged => 64,
            ClassError::HierarchyChanged => 66,
            ClassError::ClassModifiersChanged => 70,
            ClassError::MethodModifiersChanged => 71,
            ClassError::ClassAttributeChanged => 72,
        }
    }

    /// The value with JVM TI code `code`; the code itself as the error when there is none.
    pub fn try_from_code(code: u32) -> (res: Result<Self, InvalidVariant<u32>>)
        ensures
            res == (match Self::spec_from_code(code) {
                Some(v) => Ok(v),
                None => Err(InvalidVariant(code)),
            }),
    {
        match code {
            60 => Ok(ClassError::InvalidFormat),
            61 => Ok(ClassError::CircularDefinition),
            62 => Ok(ClassError::FailsVerification),
            68 => Ok(ClassError::UnsupportedVersion),
            22 => Ok(ClassError::NotPrepared),
            69 => Ok(ClassError::NamesDontMatch),
            79 => Ok(ClassError::UnmodifiableClass),
            80 => Ok(ClassError::UnmodifiableModule),
            63 => Ok(ClassError::MethodAdded),
            67 => Ok(ClassError::MethodDeleted),
            64 => Ok(ClassError::SchemaChanged),
            66 => Ok(ClassError::HierarchyChanged),
            70 => Ok(ClassError::ClassModifiersChanged),
            71 => Ok(ClassError::MethodModifiersChanged),
            72 => Ok(ClassError::ClassAttributeChanged),
            _ => Err(InvalidVariant(code)),
        }
    }

    /// The documentation text of this value, as written on the variant.
    #[verifier::allow_in_spec]
    pub fn doc(self) -> &'static str
        returns
            (match self {
                ClassError::InvalidFormat => " A new class file is malformed (the VM would return a ClassFormatError)\n",
                ClassError::CircularDefinition => " The new class file definitions would lead to a circular definition (the VM would return a ClassCircularityError)\n",
                ClassError::FailsVerification => " The class bytes fail verification\n",
                ClassError::UnsupportedVersion => " A new class file has a version number not supported by this VM\n",
                ClassError::NotPrepared => " The class has been loaded but not yet prepared\n",
                ClassError::NamesDontMatch => " The class name defined in the new class file is different from the name in the old class object\n",
                ClassError::UnmodifiableClass => " The class cannot be modified\n",
                ClassError::UnmodifiableModule => " The module cannot be modified\n",
                ClassError::MethodAdded => " A new class file would require adding a method\n",
                ClassError::MethodDeleted => " A new class version does not declare a method declared in the old class version\n",
                ClassError::SchemaChanged => " A new class version changes a field\n",
                ClassError::HierarchyChanged => " A direct superclass is different for the new class version, or the set of directly implemented interfaces is different\n",
                ClassError::ClassModifiersChanged => " A new class version has different modifiers\n",
                ClassError::MethodModifiersChanged => " A method in the new class version has different modifiers than its counterpart in the old class version\n",
                ClassError::ClassAttributeChanged => " A new class version has unsupported differences in class attributes\n",
            }),
    {
        match self {
            ClassError::InvalidFormat => " A new class file is malformed (the VM would return a ClassFormatError)\n",
            ClassError::CircularDefinition => " The new class file definitions would lead to a circular definition (the VM would return a ClassCircularityError)\n",
            ClassError::FailsVerification => " The class bytes fail verification\n",
            ClassError::UnsupportedVersion => " A new class file has a version number not supported by this VM\n",
            ClassError::NotPrepared => " The class has been loaded but not yet prepared\n",
            ClassError::NamesDontMatch => " The class name defined in the new class file is different from the name in the old class object\n",
            ClassError::UnmodifiableClass => " The class cannot be modified\n",
            ClassError::UnmodifiableModule => " The module cannot be modified\n",
            ClassError::MethodAdded => " A new class file would require adding a method\n",
            ClassError::MethodDeleted => " A new class version does not declare a method declared in the old class version\n",
            ClassError::SchemaChanged => " A new class version changes a field\n",
            ClassError::HierarchyChanged => " A direct superclass is different for the new class version, or the set of directly implemented interfaces is different\n",
            ClassError::ClassModifiersChanged => " A new class version has different modifiers\n",
            ClassError::MethodModifiersChanged => " A method in the new class version has different modifiers than its counterpart in the old class version\n",
            ClassError::ClassAttributeChanged => " A new class version has unsupported differences in class attributes\n",
        }
    }

    /// The short message of this value: the first sentence of its documentation.
    pub fn message(self) -> (res: &'static str)
        ensures
            res.spec_bytes() == message_of(self.doc().spec_bytes()),
    {
        errormsg(self.doc())
    }

    /// The documentation text of this kind of error.
    #[verifier::allow_in_spec]
    pub fn kind_doc() -> &'static str
        returns
            " Class (re)definition error\n",
    {
        " Class (re)definition error\n"
    }

    /// The short message of this kind of error.
    pub fn kind_message() -> (res: &'static str)
        ensures
            res.spec_bytes() == message_of(Self::kind_doc().spec_bytes()),
    {
        errormsg(Self::kind_doc())
    }

    /// Reading back the code of a value gives the value.
    pub proof fn lemma_code_roundtrip(self)
        ensures
            Self::spec_from_code(self.spec_code()) == Some(self),
            0 < self.spec_code() < 256,
    {
    }

    /// A code that names a value is that value's code.
    pub proof fn lemma_from_code_inverse(code: u32)
        ensures
            Self::spec_from_code(code) matches Some(v) ==> v.spec_code() == code,
    {
    }
}

impl From<ClassError> for u32 {
    fn from(value: ClassError) -> (res: u32)
        ensures
            res == value.spec_code(),
    {
        value.code()
    }
}

impl vstd::std_specs::convert::FromSpecImpl<ClassError> for u32 {
    open spec fn obeys_from_spec() -> bool {
        true
    }

    open spec fn from_spec(v: ClassError) -> u32 {
        v.spec_code()
    }
}

impl TryFrom<u32> for ClassError {
    type Error = InvalidVariant<u32>;

    fn try_from(value: u32) -> (res: Result<Self, InvalidVariant<u32>>)
        ensures
            res == (match Self::spec_from_code(value) {
                Some(v) => Ok(v),
                None => Err(InvalidVariant(value)),
            }),
    {
        Self::try_from_code(value)
    }
}

impl vstd::std_specs::convert::TryFromSpecImpl<u32> for ClassError {
    open spec fn obeys_try_from_spec() -> bool {
        true
    }

    open spec fn try_from_spec(v: u32) -> Result<Self, InvalidVariant<u32>> {
        match Self::spec_from_code(v) {
            Some(e) => Ok(e),
            None => Err(InvalidVariant(v)),
        }
    }
}

/// Converting a `ClassError` to its code and reading the code back gives the
/// value again, and a code that reads as a value is that value's code.
pub proof fn lemma_class_error_conversions(v: ClassError, code: u32)
    ensures
        <u32 as FromSpec<ClassError>>::from_spec(v) == v.spec_code(),
        ClassError::spec_from_code(<u32 as FromSpec<ClassError>>::from_spec(v)) == Some(v),
        <ClassError as TryFromSpec<u32>>::try_from_spec(<u32 as FromSpec<ClassError>>::from_spec(v)) == Ok::<
            ClassError,
            InvalidVariant<u32>,
        >(v),
        <ClassError as TryFromSpec<u32>>::try_from_spec(code) matches Ok(w) ==> <u32 as FromSpec<
            ClassError,
        >>::from_spec(w) == code,
        <ClassError as TryFromSpec<u32>>::try_from_spec(code) matches Err(e) ==> e == InvalidVariant(
            code,
        ) && (forall|w: ClassError| #[trigger] w.spec_code() != code),
{
    v.lemma_code_roundtrip();
    ClassError::lemma_from_code_inverse(code);
    assert forall|w: ClassError| <ClassError as TryFromSpec<u32>>::try_from_spec(code) is Err implies #[trigger] w.spec_code() != code by {
        w.lemma_code_roundtrip();
    }
}

/// Invalid JVMTI object data
#[derive(Debug, Clone, Copy, PartialEq, Eq, Structural, PartialOrd, Ord, Hash)]
pub enum DataError {
    /// Invalid thread
    Thread,
    /// Invalid thread jenum
    ThreadGroup,
    /// Invalid thread priority
    ThreadPriority,
    /// Invalid raw monitor
    Monitor,
    /// Invalid field
    FieldID,
    /// Invalid method
    MethodID,
    /// Invalid module
    Module,
    /// Invalid location
    Location,
    /// Invalid object
    Object,
    /// Invalid class
    Class,
    /// Invalid slot
    Slot,
    /// The specified event type ID is not recognized
    EventType,
    /// The variable is not an appropriate type for the function used
    TypeMismatch,
    /// Illegal argument
    IllegalArgument,
}

impl DataError {
    /// The JVM TI code of this value.
    pub open spec fn spec_code(self) -> u32 {
        match self {
            DataError::Thread => 10,
            DataError::ThreadGroup => 11,
            DataError::ThreadPriority => 12,
            DataError::Monitor => 50,
            DataError::FieldID => 25,
            DataError::MethodID => 23,
            DataError::Module => 26,
            DataError::Location => 24,
            DataError::Object => 20,
            DataError::Class => 21,
            DataError::Slot => 35,
            DataError::EventType => 102,
            DataError::TypeMismatch => 34,
            DataError::IllegalArgument => 103,
        }
    }

    /// The value with JVM TI code `code`, if there is one.
    pub open spec fn spec_from_code(code: u32) -> Option<Self> {
        if code == 10 {
            Some(DataError::Thread)
        } else if code == 11 {
            Some(DataError::ThreadGroup)
        } else if code == 12 {
            Some(DataError::ThreadPriority)
        } else if code == 50 {
            Some(DataError::Monitor)
        } else if code == 25 {
            Some(DataError::FieldID)
        } else if code == 23 {
            Some(DataError::MethodID)
        } else if code == 26 {
            Some(DataError::Module)
        } else if code == 24 {
            Some(DataError::Location)
        } else if code == 20 {
            Some(DataError::Object)
        } else if code == 21 {
            Some(DataError::Class)
        } else if code == 35 {
            Some(DataError::Slot)
        } else if code == 102 {
            Some(DataError::EventType)
        } else if code == 34 {
            Some(DataError::TypeMismatch)
        } else if code == 103 {
            Some(DataError::IllegalArgument)
        } else {
            None
        }
    }

    /// The JVM TI code of this value.
    pub fn code(self) -> (res: u32)
        ensures
            res == self.spec_code(),
    {
        match self {
            DataError::Thread => 10,
            DataError::ThreadGroup => 11,
            DataError::ThreadPriority => 12,
            DataError::Monitor => 50,
            DataError::FieldID => 25,
            DataError::MethodID => 23,
            DataError::Module => 26,
            DataError::Location => 24,
            DataError::Object => 20,
            DataError::Class => 21,
            DataError::Slot => 35,
            DataError::EventType => 102,
            DataError::TypeMismatch => 34,
            DataError::IllegalArgument => 103,
        }
    }

    /// The value with JVM TI code `code`; the code itself as the error when there is none.
    pub fn try_from_code(code: u32) -> (res: Result<Self, InvalidVariant<u32>>)
        ensures
            res == (match Self::spec_from_code(code) {
                Some(v) => Ok(v),
                None => Err(InvalidVariant(code)),
            }),
    {
        match code {
            10 => Ok(DataError::Thread),
            11 => Ok(DataError::ThreadGroup),
            12 => Ok(DataError::ThreadPriority),
            50 => Ok(DataError::Monitor),
            25 => Ok(DataError::FieldID),
            23 => Ok(DataError::MethodID),
            26 => Ok(DataError::Module),
            24 => Ok(DataError::Location),
            20 => Ok(DataError::Object),
            21 => Ok(DataError::Class),
            35 => Ok(DataError::Slot),
            102 => Ok(DataError::EventType),
            34 => Ok(DataError::TypeMismatch),
            103 => Ok(DataError::IllegalArgument),
            _ => Err(InvalidVariant(code)),
        }
    }

    /// The documentation text of this value, as written on the variant.
    #[verifier::allow_in_spec]
    pub fn doc(self) -> &'static str
        returns
            (match self {
                DataError::Thread => " Invalid thread\n",
                DataError::ThreadGroup => " Invalid thread jenum\n",
                DataError::ThreadPriority => " Invalid thread priority\n",
                DataError::Monitor => " Invalid raw monitor\n",
                DataError::FieldID => " Invalid field\n",
                DataError::MethodID => " Invalid method\n",
                DataError::Module => " Invalid module\n",
                DataError::Location => " Invalid location\n",
                DataError::Object => " Invalid object\n",
                DataError::Class => " Invalid class\n",
                DataError::Slot => " Invalid slot\n",
                DataError::EventType => " The specified event type ID is not recognized\n",
                DataError::TypeMismatch => " The variable is not an appropriate type for the function used\n",
                DataError::IllegalArgument => " Illegal argument\n",
            }),
    {
        match self {
            DataError::Thread => " Invalid thread\n",
            DataError::ThreadGroup => " Invalid thread jenum\n",
            DataError::ThreadPriority => " Invalid thread priority\n",
            DataError::Monitor => " Invalid raw monitor\n",
            DataError::FieldID => " Invalid field\n",
            DataError::MethodID => " Invalid method\n",
            DataError::Module => " Invalid module\n",
            DataError::Location => " Invalid location\n",
            DataError::Object => " Invalid object\n",
            DataError::Class => " Invalid class\n",
            DataError::Slot => " Invalid slot\n",
            DataError::EventType => " The specified event type ID is not recognized\n",
            DataError::TypeMismatch => " The variable is not an appropriate type for the function used\n",
            DataError::IllegalArgument => " Illegal argument\n",
        }
    }

    /// The short message of this value: the first sentence of its documentation.
    pub fn message(self) -> (res: &'static str)
        ensures
            res.spec_bytes() == message_of(self.doc().spec_bytes()),
    {
        errormsg(self.doc())
    }

    /// The documentation text of this kind of error.
    #[verifier::allow_in_spec]
    pub fn kind_doc() -> &'static str
        returns
            " Invalid JVMTI object data\n",
    {
        " Invalid JVMTI object data\n"
    }

    /// The short message of this kind of error.
    pub fn kind_message() -> (res: &'static str)
        ensures
            res.spec_bytes() == message_of(Self::kind_doc().spec_bytes()),
    {
        errormsg(Self::kind_doc())
    }

    /// Reading back the code of a value gives the value.
    pub proof fn lemma_code_roundtrip(self)
        ensures
            Self::spec_from_code(self.spec_code()) == Some(self),
            0 < self.spec_code() < 256,
    {
    }

    /// A code that names a value is that value's code.
    pub proof fn lemma_from_code_inverse(code: u32)
        ensures
            Self::spec_from_code(code) matches Some(v) ==> v.spec_code() == code,
    {
    }
}

impl From<DataError> for u32 {
    fn from(value: DataError) -> (res: u32)
        ensures
            res == value.spec_code(),
    {
        value.code()
    }
}

impl vstd::std_specs::convert::FromSpecImpl<DataError> for u32 {
    open spec fn obeys_from_spec() -> bool {
        true
    }

    open spec fn from_spec(v: DataError) -> u32 {
        v.spec_code()
    }
}

impl TryFrom<u32> for DataError {
    type Error = InvalidVariant<u32>;

    fn try_from(value: u32) -> (res: Result<Self, InvalidVariant<u32>>)
        ensures
            res == (match Self::spec_from_code(value) {
                Some(v) => Ok(v),
                None => Err(InvalidVariant(value)),
            }),
    {
        Self::try_from_code(value)
    }
}

impl vstd::std_specs::convert::TryFromSpecImpl<u32> for DataError {
    open spec fn obeys_try_from_spec() -> bool {
        true
    }

    open spec fn try_from_spec(v: u32) -> Result<Self, InvalidVariant<u32>> {
        match Self::spec_from_code(v) {
            Some(e) => Ok(e),
            None => Err(InvalidVariant(v)),
        }
    }
}

/// Converting a `DataError` to its code and reading the code back gives the
/// value again, and a code that reads as a value is that value's code.
pub proof fn lemma_data_error_conversions(v: DataError, code: u32)
    ensures
        <u32 as FromSpec<DataError>>::from_spec(v) == v.spec_code(),
        DataError::spec_from_code(<u32 as FromSpec<DataError>>::from_spec(v)) == Some(v),
        <DataError as TryFromSpec<u32>>::try_from_spec(<u32 as FromSpec<DataError>>::from_spec(v)) == Ok::<
            DataError,
            InvalidVariant<u32>,
        >(v),
        <DataError as TryFromSpec<u32>>::try_from_spec(code) matches Ok(w) ==> <u32 as FromSpec<
            DataError,
        >>::from_spec(w) == code,
        <DataError as TryFromSpec<u32>>::try_from_spec(code) matches Err(e) ==> e == InvalidVariant(
            code,
        ) && (forall|w: DataError| #[trigger] w.spec_code() != code),
{
    v.lemma_code_roundtrip();
    DataError::lemma_from_code_inverse(code);
    assert forall|w: DataError| <DataError as TryFromSpec<u32>>::try_from_spec(code) is Err implies #[trigger] w.spec_code() != code by {
        w.lemma_code_roundtrip();
    }
}

/// Missing support for action
#[derive(Debug, Clone, Copy, PartialEq, Eq, Structural, PartialOrd, Ord, Hash)]
pub enum SupportError {
    /// The capability being used is false in this environment
    MissingCapability,
    /// The class loader does not support this operation
    ClassLoaderUnsupported,
    /// Functionality is unsupported in this implementation
    OperationUnsupported,
    /// The functionality is not available in this virtual machine
    NotAvailable,
}

impl SupportError {
    /// The JVM TI code of this value.
    pub open spec fn spec_code(self) -> u32 {
        match self {
            SupportError::MissingCapability => 99,
            SupportError::ClassLoaderUnsupported => 106,
            SupportError::OperationUnsupported => 73,
            SupportError::NotAvailable => 98,
        }
    }

    /// The value with JVM TI code `code`, if there is one.
    pub open spec fn spec_from_code(code: u32) -> Option<Self> {
        if code == 99 {
            Some(SupportError::MissingCapability)
        } else if code == 106 {
            Some(SupportError::ClassLoaderUnsupported)
        } else if code == 73 {
            Some(SupportError::OperationUnsupported)
        } else if code == 98 {
            Some(SupportError::NotAvailable)
        } else {
            None
        }
    }

    /// The JVM TI code of this value.
    pub fn code(self) -> (res: u32)
        ensures
            res == self.spec_code(),
    {
        match self {
            SupportError::MissingCapability => 99,
            SupportError::ClassLoaderUnsupported => 106,
            SupportError::OperationUnsupported => 73,
            SupportError::NotAvailable => 98,
        }
    }

    /// The value with JVM TI code `code`; the code itself as the error when there is none.
    pub fn try_from_code(code: u32) -> (res: Result<Self, InvalidVariant<u32>>)
        ensures
            res == (match Self::spec_from_code(code) {
                Some(v) => Ok(v),
                None => Err(InvalidVariant(code)),
            }),
    {
        match code {
            99 => Ok(SupportError::MissingCapability),
            106 => Ok(SupportError::ClassLoaderUnsupported),
            73 => Ok(SupportError::OperationUnsupported),
            98 => Ok(SupportError::NotAvailable),
            _ => Err(InvalidVariant(code)),
        }
    }

    /// The documentation text of this value, as written on the variant.
    #[verifier::allow_in_spec]
    pub fn doc(self) -> &'static str
        returns
            (match self {
                SupportError::MissingCapability => " The capability being used is false in this environment\n",
                SupportError::ClassLoaderUnsupported => " The class loader does not support this operation\n",
                SupportError::OperationUnsupported => " Functionality is unsupported in this implementation\n",
                SupportError::NotAvailable => " The functionality is not available in this virtual machine\n",
            }),
    {
        match self {
            SupportError::MissingCapability => " The capability being used is false in this environment\n",
            SupportError::ClassLoaderUnsupported => " The class loader does not support this operation\n",
            SupportError::OperationUnsupported => " Functionality is unsupported in this implementation\n",
            SupportError::NotAvailable => " The functionality is not available in this virtual machine\n",
        }
    }

    /// The short message of this value: the first sentence of its documentation.
    pub fn message(self) -> (res: &'static str)
        ensures
            res.spec_bytes() == message_of(self.doc().spec_bytes()),
    {
        errormsg(self.doc())
    }

    /// The documentation text of this kind of error.
    #[verifier::allow_in_spec]
    pub fn kind_doc() -> &'static str
        returns
            " Missing support for action\n",
    {
        " Missing support for action\n"
    }

    /// The short message of this kind of error.
    pub fn kind_message() -> (res: &'static str)
        ensures
            res.spec_bytes() == message_of(Self::kind_doc().spec_bytes()),
    {
        errormsg(Self::kind_doc())
    }

    /// Reading back the code of a value gives the value.
    pub proof fn lemma_code_roundtrip(self)
        ensures
            Self::spec_from_code(self.spec_code()) == Some(self),
            0 < self.spec_code() < 256,
    {
    }

    /// A code that names a value is that value's code.
    pub proof fn lemma_from_code_inverse(code: u32)
        ensures
            Self::spec_from_code(code) matches Some(v) ==> v.spec_code() == code,
    {
    }
}

impl From<SupportError> for u32 {
    fn from(value: SupportError) -> (res: u32)
        ensures
            res == value.spec_code(),
    {
        value.code()
    }
}

impl vstd::std_specs::convert::FromSpecImpl<SupportError> for u32 {
    open spec fn obeys_from_spec() -> bool {
        true
    }

    open spec fn from_spec(v: SupportError) -> u32 {
        v.spec_code()
    }
}

impl TryFrom<u32> for SupportError {
    type Error = InvalidVariant<u32>;

    fn try_from(value: u32) -> (res: Result<Self, InvalidVariant<u32>>)
        ensures
            res == (match Self::spec_from_code(value) {
                Some(v) => Ok(v),
                None => Err(InvalidVariant(value)),
            }),
    {
        Self::try_from_code(value)
    }
}

impl vstd::std_specs::convert::TryFromSpecImpl<u32> for SupportError {
    open spec fn obeys_try_from_spec() -> bool {
        true
    }

    open spec fn try_from_spec(v: u32) -> Result<Self, InvalidVariant<u32>> {
        match Self::spec_from_code(v) {
            Some(e) => Ok(e),
            None => Err(InvalidVariant(v)),
        }
    }
}

/// Converting a `SupportError` to its code and reading the code back gives the
/// value again, and a code that reads as a value is that value's code.
pub proof fn lemma_support_error_conversions(v: SupportError, code: u32)
    ensures
        <u32 as FromSpec<SupportError>>::from_spec(v) == v.spec_code(),
        SupportError::spec_from_code(<u32 as FromSpec<SupportError>>::from_spec(v)) == Some(v),
        <SupportError as TryFromSpec<u32>>::try_from_spec(<u32 as FromSpec<SupportError>>::from_spec(v)) == Ok::<
            SupportError,
            InvalidVariant<u32>,
        >(v),
        <SupportError as TryFromSpec<u32>>::try_from_spec(code) matches Ok(w) ==> <u32 as FromSpec<
            SupportError,
        >>::from_spec(w) == code,
        <SupportError as TryFromSpec<u32>>::try_from_spec(code) matches Err(e) ==> e == InvalidVariant(
            code,
        ) && (forall|w: SupportError| #[trigger] w.spec_code() != code),
{
    v.lemma_code_roundtrip();
    SupportError::lemma_from_code_inverse(code);
    assert forall|w: SupportError| <SupportError as TryFromSpec<u32>>::try_from_spec(code) is Err implies #[trigger] w.spec_code() != code by {
        w.lemma_code_roundtrip();
    }
}

/// Monitor operation failed
#[derive(Debug, Clone, Copy, PartialEq, Eq, Structural, PartialOrd, Ord, Hash)]
pub enum MonitorError {
    /// This thread doesn't own the raw monitor
    NotMonitorOwner,
    /// The call has been interrupted before completion
    Interrupt,
}

impl MonitorError {
    /// The JVM TI code of this value.
    pub open spec fn spec_code(self) -> u32 {
        match self {
            MonitorError::NotMonitorOwner => 51,
            MonitorError::Interrupt => 52,
        }
    }

    /// The value with JVM TI code `code`, if there is one.
    pub open spec fn spec_from_code(code: u32) -> Option<Self> {
        if code == 51 {
            Some(MonitorError::NotMonitorOwner)
        } else if code == 52 {
            Some(MonitorError::Interrupt)
        } else {
            None
        }
    }

    /// The JVM TI code of this value.
    pub fn code(self) -> (res: u32)
        ensures
            res == self.spec_code(),
    {
        match self {
            MonitorError::NotMonitorOwner => 51,
            MonitorError::Interrupt => 52,
        }
    }

    /// The value with JVM TI code `code`; the code itself as the error when there is none.
    pub fn try_from_code(code: u32) -> (res: Result<Self, InvalidVariant<u32>>)
        ensures
            res == (match Self::spec_from_code(code) {
                Some(v) => Ok(v),
                None => Err(InvalidVariant(code)),
            }),
    {
        match code {
            51 => Ok(MonitorError::NotMonitorOwner),
            52 => Ok(MonitorError::Interrupt),
            _ => Err(InvalidVariant(code)),
        }
    }

    /// The documentation text of this value, as written on the variant.
    #[verifier::allow_in_spec]
    pub fn doc(self) -> &'static str
        returns
            (match self {
                MonitorError::NotMonitorOwner => " This thread doesn't own the raw monitor\n",
                MonitorError::Interrupt => " The call has been interrupted before completion\n",
            }),
    {
        match self {
            MonitorError::NotMonitorOwner => " This thread doesn't own the raw monitor\n",
            MonitorError::Interrupt => " The call has been interrupted before completion\n",
        }
    }

    /// The short message of this value: the first sentence of its documentation.
    pub fn message(self) -> (res: &'static str)
        ensures
            res.spec_bytes() == message_of(self.doc().spec_bytes()),
    {
        errormsg(self.doc())
    }

    /// The documentation text of this kind of error.
    #[verifier::allow_in_spec]
    pub fn kind_doc() -> &'static str
        returns
            " Monitor operation failed\n",
    {
        " Monitor operation failed\n"
    }

    /// The short message of this kind of error.
    pub fn kind_message() -> (res: &'static str)
        ensures
            res.spec_bytes() == message_of(Self::kind_doc().spec_bytes()),
    {
        errormsg(Self::kind_doc())
    }

    /// Reading back the code of a value gives the value.
    pub proof fn lemma_code_roundtrip(self)
        ensures
            Self::spec_from_code(self.spec_code()) == Some(self),
            0 < self.spec_code() < 256,
    {
    }

    /// A code that names a value is that value's code.
    pub proof fn lemma_from_code_inverse(code: u32)
        ensures
            Self::spec_from_code(code) matches Some(v) ==> v.spec_code() == code,
    {
    }
}

impl From<MonitorError> for u32 {
    fn from(value: MonitorError) -> (res: u32)
        ensures
            res == value.spec_code(),
    {
        value.code()
    }
}

impl vstd::std_specs::convert::FromSpecImpl<MonitorError> for u32 {
    open spec fn obeys_from_spec() -> bool {
        true
    }

    open spec fn from_spec(v: MonitorError) -> u32 {
        v.spec_code()
    }
}

impl TryFrom<u32> for MonitorError {
    type Error = InvalidVariant<u32>;

    fn try_from(value: u32) -> (res: Result<Self, InvalidVariant<u32>>)
        ensures
            res == (match Self::spec_from_code(value) {
                Some(v) => Ok(v),
                None => Err(InvalidVariant(value)),
            }),
    {
        Self::try_from_code(value)
    }
}

impl vstd::std_specs::convert::TryFromSpecImpl<u32> for MonitorError {
    open spec fn obeys_try_from_spec() -> bool {
        true
    }

    open spec fn try_from_spec(v: u32) -> Result<Self, InvalidVariant<u32>> {
        match Self::spec_from_code(v) {
            Some(e) => Ok(e),
            None => Err(InvalidVariant(v)),
        }
    }
}

/// Converting a `MonitorError` to its code and reading the code back gives the
/// value again, and a code that reads as a value is that value's code.
pub proof fn lemma_monitor_error_conversions(v: MonitorError, code: u32)
    ensures
        <u32 as FromSpec<MonitorError>>::from_spec(v) == v.spec_code(),
        MonitorError::spec_from_code(<u32 as FromSpec<MonitorError>>::from_spec(v)) == Some(v),
        <MonitorError as TryFromSpec<u32>>::try_from_spec(<u32 as FromSpec<MonitorError>>::from_spec(v)) == Ok::<
            MonitorError,
            InvalidVariant<u32>,
        >(v),
        <MonitorError as TryFromSpec<u32>>::try_from_spec(code) matches Ok(w) ==> <u32 as FromSpec<
            MonitorError,
        >>::from_spec(w) == code,
        <MonitorError as TryFromSpec<u32>>::try_from_spec(code) matches Err(e) ==> e == InvalidVariant(
            code,
        ) && (forall|w: MonitorError| #[trigger] w.spec_code() != code),
{
    v.lemma_code_roundtrip();
    MonitorError::lemma_from_code_inverse(code);
    assert forall|w: MonitorError| <MonitorError as TryFromSpec<u32>>::try_from_spec(code) is Err implies #[trigger] w.spec_code() != code by {
        w.lemma_code_roundtrip();
    }
}

/// Frame operation failed
#[derive(Debug, Clone, Copy, PartialEq, Eq, Structural, PartialOrd, Ord, Hash)]
pub enum FrameError {
    /// There are no Java programming language or JNI stack frames at the specified depth
    NoMoreFrames,
    /// Information about the frame is not available (e.g. for native frames), or the function cannot be performed on the thread's current frame
    OpaqueFrame,
}

impl FrameError {
    /// The JVM TI code of this value.
    pub open spec fn spec_code(self) -> u32 {
        match self {
            FrameError::NoMoreFrames => 31,
            FrameError::OpaqueFrame => 32,
        }
    }

    /// The value with JVM TI code `code`, if there is one.
    pub open spec fn spec_from_code(code: u32) -> Option<Self> {
        if code == 31 {
            Some(FrameError::NoMoreFrames)
        } else if code == 32 {
            Some(FrameError::OpaqueFrame)
        } else {
            None
        }
    }

    /// The JVM TI code of this value.
    pub fn code(self) -> (res: u32)
        ensures
            res == self.spec_code(),
    {
        match self {
            FrameError::NoMoreFrames => 31,
            FrameError::OpaqueFrame => 32,
        }
    }

    /// The value with JVM TI code `code`; the code itself as the error when there is none.
    pub fn try_from_code(code: u32) -> (res: Result<Self, InvalidVariant<u32>>)
        ensures
            res == (match Self::spec_from_code(code) {
                Some(v) => Ok(v),
                None => Err(InvalidVariant(code)),
            }),
    {
        match code {
            31 => Ok(FrameError::NoMoreFrames),
            32 => Ok(FrameError::OpaqueFrame),
            _ => Err(InvalidVariant(code)),
        }
    }

    /// The documentation text of this value, as written on the variant.
    #[verifier::allow_in_spec]
    pub fn doc(self) -> &'static str
        returns
            (match self {
                FrameError::NoMoreFrames => " There are no Java programming language or JNI stack frames at the specified depth\n",
                FrameError::OpaqueFrame => " Information about the frame is not available (e.g. for native frames), or the function cannot be performed on the thread's current frame\n",
            }),
    {
        match self {
            FrameError::NoMoreFrames => " There are no Java programming language or JNI stack frames at the specified depth\n",
            FrameError::OpaqueFrame => " Information about the frame is not available (e.g. for native frames), or the function cannot be performed on the thread's current frame\n",
        }
    }

    /// The short message of this value: the first sentence of its documentation.
    pub fn message(self) -> (res: &'static str)
        ensures
            res.spec_bytes() == message_of(self.doc().spec_bytes()),
    {
        errormsg(self.doc())
    }

    /// The documentation text of this kind of error.
    #[verifier::allow_in_spec]
    pub fn kind_doc() -> &'static str
        returns
            " Frame operation failed\n",
    {
        " Frame operation failed\n"
    }

    /// The short message of this kind of error.
    pub fn kind_message() -> (res: &'static str)
        ensures
            res.spec_bytes() == message_of(Self::kind_doc().spec_bytes()),
    {
        errormsg(Self::kind_doc())
    }

    /// Reading back the code of a value gives the value.
    pub proof fn lemma_code_roundtrip(self)
        ensures
            Self::spec_from_code(self.spec_code()) == Some(self),
            0 < self.spec_code() < 256,
    {
    }

    /// A code that names a value is that value's code.
    pub proof fn lemma_from_code_inverse(code: u32)
        ensures
            Self::spec_from_code(code) matches Some(v) ==> v.spec_code() == code,
    {
    }
}

impl From<FrameError> for u32 {
    fn from(value: FrameError) -> (res: u32)
        ensures
            res == value.spec_code(),
    {
        value.code()
    }
}

impl vstd::std_specs::convert::FromSpecImpl<FrameError> for u32 {
    open spec fn obeys_from_spec() -> bool {
        true
    }

    open spec fn from_spec(v: FrameError) -> u32 {
        v.spec_code()
    }
}

impl TryFrom<u32> for FrameError {
    type Error = InvalidVariant<u32>;

    fn try_from(value: u32) -> (res: Result<Self, InvalidVariant<u32>>)
        ensures
            res == (match Self::spec_from_code(value) {
                Some(v) => Ok(v),
                None => Err(InvalidVariant(value)),
            }),
    {
        Self::try_from_code(value)
    }
}

impl vstd::std_specs::convert::TryFromSpecImpl<u32> for FrameError {
    open spec fn obeys_try_from_spec() -> bool {
        true
    }

    open spec fn try_from_spec(v: u32) -> Result<Self, InvalidVariant<u32>> {
        match Self::spec_from_code(v) {
            Some(e) => Ok(e),
            None => Err(InvalidVariant(v)),
        }
    }
}

/// Converting a `FrameError` to its code and reading the code back gives the
/// value again, and a code that reads as a value is that value's code.
pub proof fn lemma_frame_error_conversions(v: FrameError, code: u32)
    ensures
        <u32 as FromSpec<FrameError>>::from_spec(v) == v.spec_code(),
        FrameError::spec_from_code(<u32 as FromSpec<FrameError>>::from_spec(v)) == Some(v),
        <FrameError as TryFromSpec<u32>>::try_from_spec(<u32 as FromSpec<FrameError>>::from_spec(v)) == Ok::<
            FrameError,
            InvalidVariant<u32>,
        >(v),
        <FrameError as TryFromSpec<u32>>::try_from_spec(code) matches Ok(w) ==> <u32 as FromSpec<
            FrameError,
        >>::from_spec(w) == code,
        <FrameError as TryFromSpec<u32>>::try_from_spec(code) matches Err(e) ==> e == InvalidVariant(
            code,
        ) && (forall|w: FrameError| #[trigger] w.spec_code() != code),
{
    v.lemma_code_roundtrip();
    FrameError::lemma_from_code_inverse(code);
    assert forall|w: FrameError| <FrameError as TryFromSpec<u32>>::try_from_spec(code) is Err implies #[trigger] w.spec_code() != code by {
        w.lemma_code_roundtrip();
    }
}

/// Miscellaneous query and set error
#[derive(Debug, Clone, Copy, PartialEq, Eq, Structural, PartialOrd, Ord, Hash)]
pub enum ItemError {
    /// Item already set
    Duplicate,
    /// Desired element (e.g. field or breakpoint) not found
    NotFound,
    /// The requested information is not available
    AbsentInformation,
    /// The requested information is not available for native method
    NativeMethod,
}

impl ItemError {
    /// The JVM TI code of this value.
    pub open spec fn spec_code(self) -> u32 {
        match self {
            ItemError::Duplicate => 40,
            ItemError::NotFound => 41,
            ItemError::AbsentInformation => 101,
            ItemError::NativeMethod => 104,
        }
    }

    /// The value with JVM TI code `code`, if there is one.
    pub open spec fn spec_from_code(code: u32) -> Option<Self> {
        if code == 40 {
            Some(ItemError::Duplicate)
        } else if code == 41 {
            Some(ItemError::NotFound)
        } else if code == 101 {
            Some(ItemError::AbsentInformation)
        } else if code == 104 {
            Some(ItemError::NativeMethod)
        } else {
            None
        }
    }

    /// The JVM TI code of this value.
    pub fn code(self) -> (res: u32)
        ensures
            res == self.spec_code(),
    {
        match self {
            ItemError::Duplicate => 40,
            ItemError::NotFound => 41,
            ItemError::AbsentInformation => 101,
            ItemError::NativeMethod => 104,
        }
    }

    /// The value with JVM TI code `code`; the code itself as the error when there is none.
    pub fn try_from_code(code: u32) -> (res: Result<Self, InvalidVariant<u32>>)
        ensures
            res == (match Self::spec_from_code(code) {
                Some(v) => Ok(v),
                None => Err(InvalidVariant(code)),
            }),
    {
        match code {
            40 => Ok(ItemError::Duplicate),
            41 => Ok(ItemError::NotFound),
            101 => Ok(ItemError::AbsentInformation),
            104 => Ok(ItemError::NativeMethod),
            _ => Err(InvalidVariant(code)),
        }
    }

    /// The documentation text of this value, as written on the variant.
    #[verifier::allow_in_spec]
    pub fn doc(self) -> &'static str
        returns
            (match self {
                ItemError::Duplicate => " Item already set\n",
                ItemError::NotFound => " Desired element (e.g. field or breakpoint) not found\n",
                ItemError::AbsentInformation => " The requested information is not available\n",
                ItemError::NativeMethod => " The requested information is not available for native method\n",
            }),
    {
        match self {
            ItemError::Duplicate => " Item already set\n",
            ItemError::NotFound => " Desired element (e.g. field or breakpoint) not found\n",
            ItemError::AbsentInformation => " The requested information is not available\n",
            ItemError::NativeMethod => " The requested information is not available for native method\n",
        }
    }

    /// The short message of this value: the first sentence of its documentation.
    pub fn message(self) -> (res: &'static str)
        ensures
            res.spec_bytes() == message_of(self.doc().spec_bytes()),
    {
        errormsg(self.doc())
    }

    /// The documentation text of this kind of error.
    #[verifier::allow_in_spec]
    pub fn kind_doc() -> &'static str
        returns
            " Miscellaneous query and set error\n",
    {
        " Miscellaneous query and set error\n"
    }

    /// The short message of this kind of error.
    pub fn kind_message() -> (res: &'static str)
        ensures
            res.spec_bytes() == message_of(Self::kind_doc().spec_bytes()),
    {
        errormsg(Self::kind_doc())
    }

    /// Reading back the code of a value gives the value.
    pub proof fn lemma_code_roundtrip(self)
        ensures
            Self::spec_from_code(self.spec_code()) == Some(self),
            0 < self.spec_code() < 256,
    {
    }

    /// A code that names a value is that value's code.
    pub proof fn lemma_from_code_inverse(code: u32)
        ensures
            Self::spec_from_code(code) matches Some(v) ==> v.spec_code() == code,
    {
    }
}

impl From<ItemError> for u32 {
    fn from(value: ItemError) -> (res: u32)
        ensures
            res == value.spec_code(),
    {
        value.code()
    }
}

impl vstd::std_specs::convert::FromSpecImpl<ItemError> for u32 {
    open spec fn obeys_from_spec() -> bool {
        true
    }

    open spec fn from_spec(v: ItemError) -> u32 {
        v.spec_code()
    }
}

impl TryFrom<u32> for ItemError {
    type Error = InvalidVariant<u32>;

    fn try_from(value: u32) -> (res: Result<Self, InvalidVariant<u32>>)
        ensures
            res == (match Self::spec_from_code(value) {
                Some(v) => Ok(v),
                None => Err(InvalidVariant(value)),
            }),
    {
        Self::try_from_code(value)
    }
}

impl vstd::std_specs::convert::TryFromSpecImpl<u32> for ItemError {
    open spec fn obeys_try_from_spec() -> bool {
        true
    }

    open spec fn try_from_spec(v: u32) -> Result<Self, InvalidVariant<u32>> {
        match Self::spec_from_code(v) {
            Some(e) => Ok(e),
            None => Err(InvalidVariant(v)),
        }
    }
}

/// Converting a `ItemError` to its code and reading the code back gives the
/// value again, and a code that reads as a value is that value's code.
pub proof fn lemma_item_error_conversions(v: ItemError, code: u32)
    ensures
        <u32 as FromSpec<ItemError>>::from_spec(v) == v.spec_code(),
        ItemError::spec_from_code(<u32 as FromSpec<ItemError>>::from_spec(v)) == Some(v),
        <ItemError as TryFromSpec<u32>>::try_from_spec(<u32 as FromSpec<ItemError>>::from_spec(v)) == Ok::<
            ItemError,
            InvalidVariant<u32>,
        >(v),
        <ItemError as TryFromSpec<u32>>::try_from_spec(code) matches Ok(w) ==> <u32 as FromSpec<
            ItemError,
        >>::from_spec(w) == code,
        <ItemError as TryFromSpec<u32>>::try_from_spec(code) matches Err(e) ==> e == InvalidVariant(
            code,
        ) && (forall|w: ItemError| #[trigger] w.spec_code() != code),
{
    v.lemma_code_roundtrip();
    ItemError::lemma_from_code_inverse(code);
    assert forall|w: ItemError| <ItemError as TryFromSpec<u32>>::try_from_spec(code) is Err implies #[trigger] w.spec_code() != code by {
        w.lemma_code_roundtrip();
    }
}

/// Error produced by JVMTI
#[derive(Debug, Clone, Copy, PartialEq, Eq, Structural, PartialOrd, Ord, Hash)]
pub enum Error {
    Universal(UniversalError),
    Thread(ThreadError),
    Class(ClassError),
    Data(DataError),
    Support(SupportError),
    Monitor(MonitorError),
    Frame(FrameError),
    Item(ItemError),
    /// Unknown error value (likely missing binding from `jvmti.h`)
    Unknown(NonZeroU8),
}

impl Error {
    /// The error that a known, non-zero JVM TI error code names.
    pub open spec fn known_from_code(code: u32) -> Option<Error> {
        if UniversalError::spec_from_code(code) is Some {
            Some(Error::Universal(UniversalError::spec_from_code(code).unwrap()))
        } else if ThreadError::spec_from_code(code) is Some {
            Some(Error::Thread(ThreadError::spec_from_code(code).unwrap()))
        } else if ClassError::spec_from_code(code) is Some {
            Some(Error::Class(ClassError::spec_from_code(code).unwrap()))
        } else if DataError::spec_from_code(code) is Some {
            Some(Error::Data(DataError::spec_from_code(code).unwrap()))
        } else if SupportError::spec_from_code(code) is Some {
            Some(Error::Support(SupportError::spec_from_code(code).unwrap()))
        } else if MonitorError::spec_from_code(code) is Some {
            Some(Error::Monitor(MonitorError::spec_from_code(code).unwrap()))
        } else if FrameError::spec_from_code(code) is Some {
            Some(Error::Frame(FrameError::spec_from_code(code).unwrap()))
        } else if ItemError::spec_from_code(code) is Some {
            Some(Error::Item(ItemError::spec_from_code(code).unwrap()))
        } else {
            None
        }
    }

    /// The codes that can be read as an outcome: zero, or a code whose low
    /// byte is not zero (an unknown code is kept by its low byte).
    pub open spec fn readable_code(code: u32) -> bool {
        code == 0 || code % 256 != 0
    }

    /// The error that a JVM TI error code reports; `None` for the code of success.
    pub open spec fn spec_from_code(code: u32) -> Option<Error> {
        if code == 0 {
            None
        } else if Self::known_from_code(code) is Some {
            Self::known_from_code(code)
        } else {
            Some(Error::Unknown(NonZeroU8::spec_new((code % 256) as u8)))
        }
    }

    /// The outcome that a JVM TI error code reports.
    pub open spec fn spec_result(code: u32) -> Result<(), Error> {
        match Self::spec_from_code(code) {
            None => Ok(()),
            Some(e) => Err(e),
        }
    }

    /// The JVM TI error code of this error.
    pub open spec fn spec_code(self) -> u32 {
        match self {
            Error::Universal(e) => e.spec_code(),
            Error::Thread(e) => e.spec_code(),
            Error::Class(e) => e.spec_code(),
            Error::Data(e) => e.spec_code(),
            Error::Support(e) => e.spec_code(),
            Error::Monitor(e) => e.spec_code(),
            Error::Frame(e) => e.spec_code(),
            Error::Item(e) => e.spec_code(),
            Error::Unknown(n) => n@ as u32,
        }
    }

    /// The JVM TI error code of this error.
    pub fn code(self) -> (res: u32)
        ensures
            res == self.spec_code(),
    {
        match self {
            Error::Universal(e) => e.code(),
            Error::Thread(e) => e.code(),
            Error::Class(e) => e.code(),
            Error::Data(e) => e.code(),
            Error::Support(e) => e.code(),
            Error::Monitor(e) => e.code(),
            Error::Frame(e) => e.code(),
            Error::Item(e) => e.code(),
            Error::Unknown(n) => n.get() as u32,
        }
    }

    /// Whether `code` can be read by `try_from_code`.
    pub fn is_readable_code(code: u32) -> (res: bool)
        ensures
            res == Self::readable_code(code),
    {
        code == 0 || code % 256 != 0
    }

    /// The error that `code` reports, or the code itself when it reports success.
    pub fn try_from_code(code: u32) -> (res: Result<Error, InvalidVariant<u32>>)
        requires
            Self::readable_code(code),
        ensures
            res == (match Self::spec_from_code(code) {
                Some(e) => Ok(e),
                None => Err(InvalidVariant(code)),
            }),
    {
        if code == 0 {
            return Err(InvalidVariant(code));
        }
        if let Ok(e) = UniversalError::try_from_code(code) {
            return Ok(Error::Universal(e));
        }
        if let Ok(e) = ThreadError::try_from_code(code) {
            return Ok(Error::Thread(e));
        }
        if let Ok(e) = ClassError::try_from_code(code) {
            return Ok(Error::Class(e));
        }
        if let Ok(e) = DataError::try_from_code(code) {
            return Ok(Error::Data(e));
        }
        if let Ok(e) = SupportError::try_from_code(code) {
            return Ok(Error::Support(e));
        }
        if let Ok(e) = MonitorError::try_from_code(code) {
            return Ok(Error::Monitor(e));
        }
        if let Ok(e) = FrameError::try_from_code(code) {
            return Ok(Error::Frame(e));
        }
        if let Ok(e) = ItemError::try_from_code(code) {
            return Ok(Error::Item(e));
        }
        Ok(Error::Unknown(NonZeroU8::new_unchecked((code % 256) as u8)))
    }

    /// `Ok` for the code of success, the reported error otherwise.
    pub fn code_to_result(code: u32) -> (res: Result<(), Self>)
        requires
            Self::readable_code(code),
        ensures
            res == Self::spec_result(code),
            res is Ok <==> code == 0,
    {
        match Self::try_from_code(code) {
            Err(_) => Ok(()),
            Ok(res) => Err(res),
        }
    }

    /// What the error says, as text: the short message of its kind, or the
    /// unknown code in decimal.
    pub open spec fn spec_to_string(self, s: Seq<char>) -> bool {
        match self {
            Error::Universal(_) => encode_utf8(s) == message_of(UniversalError::kind_doc().spec_bytes()),
            Error::Thread(_) => encode_utf8(s) == message_of(ThreadError::kind_doc().spec_bytes()),
            Error::Class(_) => encode_utf8(s) == message_of(ClassError::kind_doc().spec_bytes()),
            Error::Data(_) => encode_utf8(s) == message_of(DataError::kind_doc().spec_bytes()),
            Error::Support(_) => encode_utf8(s) == message_of(SupportError::kind_doc().spec_bytes()),
            Error::Monitor(_) => encode_utf8(s) == message_of(MonitorError::kind_doc().spec_bytes()),
            Error::Frame(_) => encode_utf8(s) == message_of(FrameError::kind_doc().spec_bytes()),
            Error::Item(_) => encode_utf8(s) == message_of(ItemError::kind_doc().spec_bytes()),
            Error::Unknown(n) => s == "unknown error code: "@ + decimal_digits(n@ as nat),
        }
    }

    /// What the error says, as text.
    pub fn to_string(&self) -> (res: String)
        ensures
            self.spec_to_string(res@),
    {
        match self {
            Error::Universal(_) => String::from_str(UniversalError::kind_message()),
            Error::Thread(_) => String::from_str(ThreadError::kind_message()),
            Error::Class(_) => String::from_str(ClassError::kind_message()),
            Error::Data(_) => String::from_str(DataError::kind_message()),
            Error::Support(_) => String::from_str(SupportError::kind_message()),
            Error::Monitor(_) => String::from_str(MonitorError::kind_message()),
            Error::Frame(_) => String::from_str(FrameError::kind_message()),
            Error::Item(_) => String::from_str(ItemError::kind_message()),
            Error::Unknown(code) => {
                let mut s = String::from_str("unknown error code: ");
                push_decimal(&mut s, code.get());
                s
            },
        }
    }
}

/// The kinds of errors have codes that no two kinds share.
pub proof fn lemma_known_codes(code: u32)
    ensures
        UniversalError::spec_from_code(code) matches Some(e) ==> e.spec_code() == code,
        ThreadError::spec_from_code(code) matches Some(e) ==> e.spec_code() == code,
        ClassError::spec_from_code(code) matches Some(e) ==> e.spec_code() == code,
        DataError::spec_from_code(code) matches Some(e) ==> e.spec_code() == code,
        SupportError::spec_from_code(code) matches Some(e) ==> e.spec_code() == code,
        MonitorError::spec_from_code(code) matches Some(e) ==> e.spec_code() == code,
        FrameError::spec_from_code(code) matches Some(e) ==> e.spec_code() == code,
        ItemError::spec_from_code(code) matches Some(e) ==> e.spec_code() == code,
        Error::known_from_code(code) is Some ==> 0 < code < 256,
{
}

/// An error code that can be read gives back, read and written again, the
/// code itself: every non-zero code below 256 stands for exactly one error.
pub proof fn lemma_code_error_roundtrip(code: u32)
    requires
        0 < code < 256,
    ensures
        Error::readable_code(code),
        Error::spec_from_code(code) matches Some(e) && e.spec_code() == code,
{
    lemma_known_codes(code);
}

/// Writing an error as its code and reading it back gives the error, for
/// every error but an unknown one that holds the code of a known error.
pub proof fn lemma_error_code_roundtrip(e: Error)
    requires
        e matches Error::Unknown(n) ==> n@ != 0 && Error::known_from_code(n@ as u32) is None,
    ensures
        Error::readable_code(e.spec_code()),
        Error::spec_from_code(e.spec_code()) == Some(e),
{
    match e {
        Error::Universal(x) => {
            x.lemma_code_roundtrip();
            lemma_known_codes(x.spec_code());
        },
        Error::Thread(x) => {
            x.lemma_code_roundtrip();
            lemma_known_codes(x.spec_code());
        },
        Error::Class(x) => {
            x.lemma_code_roundtrip();
            lemma_known_codes(x.spec_code());
        },
        Error::Data(x) => {
            x.lemma_code_roundtrip();
            lemma_known_codes(x.spec_code());
        },
        Error::Support(x) => {
            x.lemma_code_roundtrip();
            lemma_known_codes(x.spec_code());
        },
        Error::Monitor(x) => {
            x.lemma_code_roundtrip();
            lemma_known_codes(x.spec_code());
        },
        Error::Frame(x) => {
            x.lemma_code_roundtrip();
            lemma_known_codes(x.spec_code());
        },
        Error::Item(x) => {
            x.lemma_code_roundtrip();
            lemma_known_codes(x.spec_code());
        },
        Error::Unknown(n) => {},
    }
}

impl From<UniversalError> for Error {
    fn from(value: UniversalError) -> (res: Error)
        ensures
            res == Error::Universal(value),
    {
        Error::Universal(value)
    }
}

impl vstd::std_specs::convert::FromSpecImpl<UniversalError> for Error {
    open spec fn obeys_from_spec() -> bool {
        true
    }

    open spec fn from_spec(v: UniversalError) -> Error {
        Error::Universal(v)
    }
}

/// Lifting a `UniversalError` into `Error` keeps it: the result is the `Universal` error
/// holding it, has its code, and is what that code reads as.
pub proof fn lemma_lift_universal_error(x: UniversalError)
    ensures
        <Error as FromSpec<UniversalError>>::from_spec(x) matches Error::Universal(y) && y == x,
        <Error as FromSpec<UniversalError>>::from_spec(x).spec_code() == x.spec_code(),
        Error::spec_from_code(<Error as FromSpec<UniversalError>>::from_spec(x).spec_code()) == Some(
            <Error as FromSpec<UniversalError>>::from_spec(x),
        ),
{
    x.lemma_code_roundtrip();
    lemma_error_code_roundtrip(<Error as FromSpec<UniversalError>>::from_spec(x));
}

impl From<ThreadError> for Error {
    fn from(value: ThreadError) -> (res: Error)
        ensures
            res == Error::Thread(value),
    {
        Error::Thread(value)
    }
}

impl vstd::std_specs::convert::FromSpecImpl<ThreadError> for Error {
    open spec fn obeys_from_spec() -> bool {
        true
    }

    open spec fn from_spec(v: ThreadError) -> Error {
        Error::Thread(v)
    }
}

/// Lifting a `ThreadError` into `Error` keeps it: the result is the `Thread` error
/// holding it, has its code, and is what that code reads as.
pub proof fn lemma_lift_thread_error(x: ThreadError)
    ensures
        <Error as FromSpec<ThreadError>>::from_spec(x) matches Error::Thread(y) && y == x,
        <Error as FromSpec<ThreadError>>::from_spec(x).spec_code() == x.spec_code(),
        Error::spec_from_code(<Error as FromSpec<ThreadError>>::from_spec(x).spec_code()) == Some(
            <Error as FromSpec<ThreadError>>::from_spec(x),
        ),
{
    x.lemma_code_roundtrip();
    lemma_error_code_roundtrip(<Error as FromSpec<ThreadError>>::from_spec(x));
}

impl From<ClassError> for Error {
    fn from(value: ClassError) -> (res: Error)
        ensures
            res == Error::Class(value),
    {
        Error::Class(value)
    }
}

impl vstd::std_specs::convert::FromSpecImpl<ClassError> for Error {
    open spec fn obeys_from_spec() -> bool {
        true
    }

    open spec fn from_spec(v: ClassError) -> Error {
        Error::Class(v)
    }
}

/// Lifting a `ClassError` into `Error` keeps it: the result is the `Class` error
/// holding it, has its code, and is what that code reads as.
pub proof fn lemma_lift_class_error(x: ClassError)
    ensures
        <Error as FromSpec<ClassError>>::from_spec(x) matches Error::Class(y) && y == x,
        <Error as FromSpec<ClassError>>::from_spec(x).spec_code() == x.spec_code(),
        Error::spec_from_code(<Error as FromSpec<ClassError>>::from_spec(x).spec_code()) == Some(
            <Error as FromSpec<ClassError>>::from_spec(x),
        ),
{
    x.lemma_code_roundtrip();
    lemma_error_code_roundtrip(<Error as FromSpec<ClassError>>::from_spec(x));
}

impl From<DataError> for Error {
    fn from(value: DataError) -> (res: Error)
        ensures
            res == Error::Data(value),
    {
        Error::Data(value)
    }
}

impl vstd::std_specs::convert::FromSpecImpl<DataError> for Error {
    open spec fn obeys_from_spec() -> bool {
        true
    }

    open spec fn from_spec(v: DataError) -> Error {
        Error::Data(v)
    }
}

/// Lifting a `DataError` into `Error` keeps it: the result is the `Data` error
/// holding it, has its code, and is what that code reads as.
pub proof fn lemma_lift_data_error(x: DataError)
    ensures
        <Error as FromSpec<DataError>>::from_spec(x) matches Error::Data(y) && y == x,
        <Error as FromSpec<DataError>>::from_spec(x).spec_code() == x.spec_code(),
        Error::spec_from_code(<Error as FromSpec<DataError>>::from_spec(x).spec_code()) == Some(
            <Error as FromSpec<DataError>>::from_spec(x),
        ),
{
    x.lemma_code_roundtrip();
    lemma_error_code_roundtrip(<Error as FromSpec<DataError>>::from_spec(x));
}

impl From<SupportError> for Error {
    fn from(value: SupportError) -> (res: Error)
        ensures
            res == Error::Support(value),
    {
        Error::Support(value)
    }
}

impl vstd::std_specs::convert::FromSpecImpl<SupportError> for Error {
    open spec fn obeys_from_spec() -> bool {
        true
    }

    open spec fn from_spec(v: SupportError) -> Error {
        Error::Support(v)
    }
}

/// Lifting a `SupportError` into `Error` keeps it: the result is the `Support` error
/// holding it, has its code, and is what that code reads as.
pub proof fn lemma_lift_support_error(x: SupportError)
    ensures
        <Error as FromSpec<SupportError>>::from_spec(x) matches Error::Support(y) && y == x,
        <Error as FromSpec<SupportError>>::from_spec(x).spec_code() == x.spec_code(),
        Error::spec_from_code(<Error as FromSpec<SupportError>>::from_spec(x).spec_code()) == Some(
            <Error as FromSpec<SupportError>>::from_spec(x),
        ),
{
    x.lemma_code_roundtrip();
    lemma_error_code_roundtrip(<Error as FromSpec<SupportError>>::from_spec(x));
}

impl From<MonitorError> for Error {
    fn from(value: MonitorError) -> (res: Error)
        ensures
            res == Error::Monitor(value),
    {
        Error::Monitor(value)
    }
}

impl vstd::std_specs::convert::FromSpecImpl<MonitorError> for Error {
    open spec fn obeys_from_spec() -> bool {
        true
    }

    open spec fn from_spec(v: MonitorError) -> Error {
        Error::Monitor(v)
    }
}

/// Lifting a `MonitorError` into `Error` keeps it: the result is the `Monitor` error
/// holding it, has its code, and is what that code reads as.
pub proof fn lemma_lift_monitor_error(x: MonitorError)
    ensures
        <Error as FromSpec<MonitorError>>::from_spec(x) matches Error::Monitor(y) && y == x,
        <Error as FromSpec<MonitorError>>::from_spec(x).spec_code() == x.spec_code(),
        Error::spec_from_code(<Error as FromSpec<MonitorError>>::from_spec(x).spec_code()) == Some(
            <Error as FromSpec<MonitorError>>::from_spec(x),
        ),
{
    x.lemma_code_roundtrip();
    lemma_error_code_roundtrip(<Error as FromSpec<MonitorError>>::from_spec(x));
}

impl From<FrameError> for Error {
    fn from(value: FrameError) -> (res: Error)
        ensures
            res == Error::Frame(value),
    {
        Error::Frame(value)
    }
}

impl vstd::std_specs::convert::FromSpecImpl<FrameError> for Error {
    open spec fn obeys_from_spec() -> bool {
        true
    }

    open spec fn from_spec(v: FrameError) -> Error {
        Error::Frame(v)
    }
}

/// Lifting a `FrameError` into `Error` keeps it: the result is the `Frame` error
/// holding it, has its code, and is what that code reads as.
pub proof fn lemma_lift_frame_error(x: FrameError)
    ensures
        <Error as FromSpec<FrameError>>::from_spec(x) matches Error::Frame(y) && y == x,
        <Error as FromSpec<FrameError>>::from_spec(x).spec_code() == x.spec_code(),
        Error::spec_from_code(<Error as FromSpec<FrameError>>::from_spec(x).spec_code()) == Some(
            <Error as FromSpec<FrameError>>::from_spec(x),
        ),
{
    x.lemma_code_roundtrip();
    lemma_error_code_roundtrip(<Error as FromSpec<FrameError>>::from_spec(x));
}

impl From<ItemError> for Error {
    fn from(value: ItemError) -> (res: Error)
        ensures
            res == Error::Item(value),
    {
        Error::Item(value)
    }
}

impl vstd::std_specs::convert::FromSpecImpl<ItemError> for Error {
    open spec fn obeys_from_spec() -> bool {
        true
    }

    open spec fn from_spec(v: ItemError) -> Error {
        Error::Item(v)
    }
}

/// Lifting a `ItemError` into `Error` keeps it: the result is the `Item` error
/// holding it, has its code, and is what that code reads as.
pub proof fn lemma_lift_item_error(x: ItemError)
    ensures
        <Error as FromSpec<ItemError>>::from_spec(x) matches Error::Item(y) && y == x,
        <Error as FromSpec<ItemError>>::from_spec(x).spec_code() == x.spec_code(),
        Error::spec_from_code(<Error as FromSpec<ItemError>>::from_spec(x).spec_code()) == Some(
            <Error as FromSpec<ItemError>>::from_spec(x),
        ),
{
    x.lemma_code_roundtrip();
    lemma_error_code_roundtrip(<Error as FromSpec<ItemError>>::from_spec(x));
}

impl From<Error> for u32 {
    fn from(value: Error) -> (res: u32)
        ensures
            res == value.spec_code(),
    {
        value.code()
    }
}

impl vstd::std_specs::convert::FromSpecImpl<Error> for u32 {
    open spec fn obeys_from_spec() -> bool {
        true
    }

    open spec fn from_spec(v: Error) -> u32 {
        v.spec_code()
    }
}

/// The raw code of an error is its JVM TI code: never the code of success,
/// always readable, and read back it reports the same error (for every error
/// but an unknown one that holds the code of a known error).
pub proof fn lemma_error_to_code(e: Error)
    requires
        e matches Error::Unknown(n) ==> n@ != 0,
    ensures
        <u32 as FromSpec<Error>>::from_spec(e) == e.spec_code(),
        <u32 as FromSpec<Error>>::from_spec(e) != 0,
        Error::readable_code(<u32 as FromSpec<Error>>::from_spec(e)),
        !(e matches Error::Unknown(n) && Error::known_from_code(n@ as u32) is Some) ==> Error::spec_result(
            <u32 as FromSpec<Error>>::from_spec(e),
        ) == Err::<(), Error>(e),
{
    match e {
        Error::Universal(x) => {
            x.lemma_code_roundtrip();
        },
        Error::Thread(x) => {
            x.lemma_code_roundtrip();
        },
        Error::Class(x) => {
            x.lemma_code_roundtrip();
        },
        Error::Data(x) => {
            x.lemma_code_roundtrip();
        },
        Error::Support(x) => {
            x.lemma_code_roundtrip();
        },
        Error::Monitor(x) => {
            x.lemma_code_roundtrip();
        },
        Error::Frame(x) => {
            x.lemma_code_roundtrip();
        },
        Error::Item(x) => {
            x.lemma_code_roundtrip();
        },
        Error::Unknown(n) => {},
    }
    if !(e matches Error::Unknown(n) && Error::known_from_code(n@ as u32) is Some) {
        lemma_error_code_roundtrip(e);
    }
}

/// The decimal digit character for `d`.
pub open spec fn digit_char(d: nat) -> char {
    (48 + d) as char
}

/// `n` written in decimal, most significant digit first.
pub open spec fn decimal_digits(n: nat) -> Seq<char>
    decreases n,
{
    if n < 10 {
        seq![digit_char(n)]
    } else {
        decimal_digits(n / 10) + seq![digit_char(n % 10)]
    }
}

fn digit_str(d: u8) -> (res: &'static str)
    requires
        d < 10,
    ensures
        res@ == seq![digit_char(d as nat)],
{
    proof {
        reveal_strlit("0");
        reveal_strlit("1");
        reveal_strlit("2");
        reveal_strlit("3");
        reveal_strlit("4");
        reveal_strlit("5");
        reveal_strlit("6");
        reveal_strlit("7");
        reveal_strlit("8");
        reveal_strlit("9");
    }
    match d {
        0 => "0",
        1 => "1",
        2 => "2",
        3 => "3",
        4 => "4",
        5 => "5",
        6 => "6",
        7 => "7",
        8 => "8",
        _ => "9",
    }
}

fn push_decimal(s: &mut String, n: u8)
    ensures
        final(s)@ == old(s)@ + decimal_digits(n as nat),
{
    if n >= 100 {
        s.append(digit_str(n / 100));
        s.append(digit_str(n / 10 % 10));
        s.append(digit_str(n % 10));
        assert(decimal_digits(n as nat) =~= seq![digit_char((n / 100) as nat), digit_char((n / 10 % 10) as nat), digit_char((n % 10) as nat)]) by {
            reveal_with_fuel(decimal_digits, 3);
        }
    } else if n >= 10 {
        s.append(digit_str(n / 10));
        s.append(digit_str(n % 10));
        assert(decimal_digits(n as nat) =~= seq![digit_char((n / 10) as nat), digit_char((n % 10) as nat)]) by {
            reveal_with_fuel(decimal_digits, 2);
        }
    } else {
        s.append(digit_str(n));
    }
}

#[verifier::external_type_specification]
#[verifier::external_body]
pub struct ExJniError(JniError);

/// An error from either of the two interfaces an agent talks to.
#[derive(Debug)]
pub enum JError {
    JNI(JniError),
    JVMTI(Error),
}

impl JError {
    /// What the error says, as text.
    pub fn to_string(&self) -> (res: String)
        ensures
            res@ == (match self {
                JError::JNI(_) => "JNI error"@,
                JError::JVMTI(_) => "JVMTI error"@,
            }),
    {
        match self {
            JError::JNI(_) => String::from_str("JNI error"),
            JError::JVMTI(_) => String::from_str("JVMTI error"),
        }
    }
}

impl From<JniError> for JError {
    fn from(value: JniError) -> (res: JError)
        ensures
            res == JError::JNI(value),
    {
        JError::JNI(value)
    }
}

impl vstd::std_specs::convert::FromSpecImpl<JniError> for JError {
    open spec fn obeys_from_spec() -> bool {
        true
    }

    open spec fn from_spec(v: JniError) -> JError {
        JError::JNI(v)
    }
}

impl From<Error> for JError {
    fn from(value: Error) -> (res: JError)
        ensures
            res == JError::JVMTI(value),
    {
        JError::JVMTI(value)
    }
}

impl vstd::std_specs::convert::FromSpecImpl<Error> for JError {
    open spec fn obeys_from_spec() -> bool {
        true
    }

    open spec fn from_spec(v: Error) -> JError {
        JError::JVMTI(v)
    }
}

/// Turning an error of either interface into a `JError` keeps it, under the
/// interface it came from.
pub proof fn lemma_jerror_from(jni: JniError, jvmti: Error)
    ensures
        <JError as FromSpec<JniError>>::from_spec(jni) matches JError::JNI(e) && e == jni,
        <JError as FromSpec<Error>>::from_spec(jvmti) matches JError::JVMTI(e) && e == jvmti,
{
}

/// An error together with the data that the failed operation did not consume.
#[derive(Debug)]
pub struct ContextError<T, E> {
    pub data: T,
    pub error: E,
}

impl<T, E> ContextError<T, E> {
    /// The error, without its data.
    pub fn plain(self) -> (res: E)
        ensures
            res == self.error,
    {
        self.error
    }
}

} // verus!
