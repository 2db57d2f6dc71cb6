//! JVM TI interface version numbers.

use vstd::prelude::*;
use vstd::std_specs::convert::FromSpec;

verus! {

/// Mask selecting the interface type bits of a version number.
pub const VERSION_MASK_INTERFACE_TYPE: u32 = 0x7000_0000;

/// Interface type bits that mark a JVM TI (as opposed to JNI) version.
pub const VERSION_INTERFACE_JVMTI: u32 = 0x3000_0000;

/// Mask selecting the major component.
pub const VERSION_MASK_MAJOR: u32 = 0x0FFF_0000;

/// Mask selecting the minor component.
pub const VERSION_MASK_MINOR: u32 = 0x0000_FF00;

/// Mask selecting the micro component.
pub const VERSION_MASK_MICRO: u32 = 0x0000_00FF;

/// Position of the major component.
pub const VERSION_SHIFT_MAJOR: u32 = 16;

/// Position of the minor component.
pub const VERSION_SHIFT_MINOR: u32 = 8;

/// Position of the micro component.
pub const VERSION_SHIFT_MICRO: u32 = 0;

/// A raw value is a JVM TI version number when its interface type bits say so.
pub open spec fn is_jvmti_version(ver: u32) -> bool {
    ver & VERSION_MASK_INTERFACE_TYPE == VERSION_INTERFACE_JVMTI
}

/// The component of `ver` selected by `mask`, moved down by `shift`.
pub open spec fn version_part(ver: u32, mask: u32, shift: u32) -> u32 {
    (ver & mask) >> shift
}

/// A JVM TI interface version number.
#[derive(Debug, Copy, Clone, PartialEq, Eq, Structural, PartialOrd, Ord, Hash)]
pub struct JVMTIVersion(u32);

impl View for JVMTIVersion {
    type V = u32;

    closed spec fn view(&self) -> u32 {
        self.0
    }
}

/// The named versions are JVM TI version numbers.
proof fn lemma_named_versions()
    ensures
        is_jvmti_version(0x3001_0000u32),
        is_jvmti_version(0x3001_0100u32),
        is_jvmti_version(0x3001_0200u32),
        is_jvmti_version(0x3009_0000u32),
        is_jvmti_version(0x300B_0000u32),
        is_jvmti_version(0x3013_0000u32),
        is_jvmti_version(0x3015_0000u32),
{
    assert(0x3001_0000u32 & 0x7000_0000u32 == 0x3000_0000u32 && 0x3001_0100u32 & 0x7000_0000u32
        == 0x3000_0000u32 && 0x3001_0200u32 & 0x7000_0000u32 == 0x3000_0000u32 && 0x3009_0000u32
        & 0x7000_0000u32 == 0x3000_0000u32 && 0x300B_0000u32 & 0x7000_0000u32 == 0x3000_0000u32
        && 0x3013_0000u32 & 0x7000_0000u32 == 0x3000_0000u32 && 0x3015_0000u32 & 0x7000_0000u32
        == 0x3000_0000u32) by (bit_vector);
}

impl JVMTIVersion {
    #[verifier::type_invariant]
    spec fn inv(self) -> bool {
        is_jvmti_version(self.0)
    }

    /// A version is determined by its raw value, so reading back the raw
    /// value of a version (which `raw` shows to be a JVM TI version number)
    /// with `new` gives the same version.
    pub proof fn lemma_view_determines(a: Self, b: Self)
        ensures
            a@ == b@ ==> a == b,
    {
    }

    /// JVM TI version 1.0.
    #[allow(non_snake_case)]
    pub fn V1() -> (res: Self)
        ensures
            res@ == 0x3001_0000u32,
    {
        proof {
            lemma_named_versions();
        }
        Self(0x3001_0000)
    }

    /// JVM TI version 1.0.
    #[allow(non_snake_case)]
    pub fn V1_0() -> (res: Self)
        ensures
            res@ == 0x3001_0000u32,
    {
        proof {
            lemma_named_versions();
        }
        Self(0x3001_0000)
    }

    /// JVM TI version 1.1.
    #[allow(non_snake_case)]
    pub fn V1_1() -> (res: Self)
        ensures
            res@ == 0x3001_0100u32,
    {
        proof {
            lemma_named_versions();
        }
        Self(0x3001_0100)
    }

    /// JVM TI version 1.2.
    #[allow(non_snake_case)]
    pub fn V1_2() -> (res: Self)
        ensures
            res@ == 0x3001_0200u32,
    {
        proof {
            lemma_named_versions();
        }
        Self(0x3001_0200)
    }

    /// JVM TI version 9.
    #[allow(non_snake_case)]
    pub fn V9() -> (res: Self)
        ensures
            res@ == 0x3009_0000u32,
    {
        proof {
            lemma_named_versions();
        }
        Self(0x3009_0000)
    }

    /// JVM TI version 11.
    #[allow(non_snake_case)]
    pub fn V11() -> (res: Self)
        ensures
            res@ == 0x300B_0000u32,
    {
        proof {
            lemma_named_versions();
        }
        Self(0x300B_0000)
    }

    /// JVM TI version 19.
    #[allow(non_snake_case)]
    pub fn V19() -> (res: Self)
        ensures
            res@ == 0x3013_0000u32,
    {
        proof {
            lemma_named_versions();
        }
        Self(0x3013_0000)
    }

    /// JVM TI version 21.
    #[allow(non_snake_case)]
    pub fn V21() -> (res: Self)
        ensures
            res@ == 0x3015_0000u32,
    {
        proof {
            lemma_named_versions();
        }
        Self(0x3015_0000)
    }

    /// The version with raw value `ver`, if `ver` is a JVM TI version number.
    pub fn new(ver: u32) -> (res: Option<Self>)
        ensures
            res is Some <==> is_jvmti_version(ver),
            res matches Some(v) ==> v@ == ver,
    {
        if ver & VERSION_MASK_INTERFACE_TYPE == VERSION_INTERFACE_JVMTI {
            Some(Self(ver))
        } else {
            None
        }
    }

    /// The version with raw value `ver`, which must be a JVM TI version number.
    pub fn new_unchecked(ver: u32) -> (res: Self)
        requires
            is_jvmti_version(ver),
        ensures
            res@ == ver,
    {
        Self(ver)
    }

    /// The raw version number, always a JVM TI version number.
    pub fn raw(self) -> (res: u32)
        ensures
            res == self@,
            is_jvmti_version(res),
    {
        proof {
            use_type_invariant(&self);
        }
        self.0
    }

    fn part(&self, mask: u32, shift: u32) -> (res: u16)
        requires
            shift < 32,
            version_part(self@, mask, shift) <= u16::MAX,
        ensures
            res == version_part(self@, mask, shift),
    {
        let mut res = self.0;
        res &= mask;
        res >>= shift;
        res as u16
    }

    /// The major component of the version number.
    pub fn major(&self) -> (res: u16)
        ensures
            res == version_part(self@, VERSION_MASK_MAJOR, VERSION_SHIFT_MAJOR),
    {
        let v = self.0;
        assert((v & 0x0FFF_0000u32) >> 16u32 <= 0xFFFFu32) by (bit_vector);
        self.part(VERSION_MASK_MAJOR, VERSION_SHIFT_MAJOR)
    }

    /// The minor component of the version number.
    pub fn minor(&self) -> (res: u16)
        ensures
            res == version_part(self@, VERSION_MASK_MINOR, VERSION_SHIFT_MINOR),
    {
        let v = self.0;
        assert((v & 0x0000_FF00u32) >> 8u32 <= 0xFFFFu32) by (bit_vector);
        self.part(VERSION_MASK_MINOR, VERSION_SHIFT_MINOR)
    }

    /// The micro component of the version number.
    pub fn micro(&self) -> (res: u16)
        ensures
            res == version_part(self@, VERSION_MASK_MICRO, VERSION_SHIFT_MICRO),
    {
        let v = self.0;
        assert((v & 0x0000_00FFu32) >> 0u32 <= 0xFFFFu32) by (bit_vector);
        self.part(VERSION_MASK_MICRO, VERSION_SHIFT_MICRO)
    }
}

/// A JVM TI version number whose top bit is clear is exactly its interface
/// bits followed by its major, minor and micro components.
pub proof fn lemma_version_components(ver: u32)
    requires
        is_jvmti_version(ver),
        ver < 0x8000_0000,
    ensures
        ver == VERSION_INTERFACE_JVMTI
            | (version_part(ver, VERSION_MASK_MAJOR, VERSION_SHIFT_MAJOR) << VERSION_SHIFT_MAJOR)
            | (version_part(ver, VERSION_MASK_MINOR, VERSION_SHIFT_MINOR) << VERSION_SHIFT_MINOR)
            | (version_part(ver, VERSION_MASK_MICRO, VERSION_SHIFT_MICRO) << VERSION_SHIFT_MICRO),
{
    assert(ver == 0x3000_0000u32 | (((ver & 0x0FFF_0000u32) >> 16u32) << 16u32) | (((ver
        & 0x0000_FF00u32) >> 8u32) << 8u32) | (((ver & 0x0000_00FFu32) >> 0u32) << 0u32))
        by (bit_vector)
        requires
            ver & 0x7000_0000u32 == 0x3000_0000u32,
            ver < 0x8000_0000u32,
    ;
}

/// Reading back the raw value of a version gives the same version: what
/// `new(x.raw())` returns (`raw` gives a JVM TI version number, so `new`
/// returns `Some` of a version with that raw value) is `Some(x)`.
pub proof fn lemma_version_round_trip(x: JVMTIVersion, read: Option<JVMTIVersion>)
    requires
        read matches Some(y) && y@ == x@,
    ensures
        read == Some(x),
{
    if let Some(y) = read {
        JVMTIVersion::lemma_view_determines(x, y);
    }
}

proof fn lemma_jint_bits(x: u32)
    ensures
        (x as i32) as u32 == x,
{
    assert((x as i32) as u32 == x) by (bit_vector);
}

/// A version becomes a JNI `jint` bit for bit: read back as unsigned, the
/// `jint` is the raw version number.
pub proof fn lemma_version_to_jint(v: JVMTIVersion)
    ensures
        (<i32 as FromSpec<JVMTIVersion>>::from_spec(v)) as u32 == v@,
{
    lemma_jint_bits(v@);
}

impl From<JVMTIVersion> for i32 {
    /// The version number as a JNI `jint`, bit for bit.
    fn from(value: JVMTIVersion) -> (res: i32)
        ensures
            res as u32 == value@,
    {
        let raw = value.0;
        proof {
            lemma_jint_bits(raw);
        }
        raw as i32
    }
}

impl vstd::std_specs::convert::FromSpecImpl<JVMTIVersion> for i32 {
    open spec fn obeys_from_spec() -> bool {
        true
    }

    open spec fn from_spec(v: JVMTIVersion) -> i32 {
        v@ as i32
    }
}

} // verus!
