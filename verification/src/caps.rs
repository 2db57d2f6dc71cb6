//! The capabilities that a JVM TI environment can possess.

use vstd::arithmetic::power::pow;
use vstd::prelude::*;

verus! {

/// The number that 16 bytes stand for, least significant byte first.
pub open spec fn le_value(bytes: Seq<u8>) -> nat
    decreases bytes.len(),
{
    if bytes.len() == 0 {
        0
    } else {
        bytes[0] as nat + 256 * le_value(bytes.drop_first())
    }
}

/// The number that bytes stand for, most significant byte first.
pub open spec fn be_value(bytes: Seq<u8>) -> nat {
    le_value(bytes.reverse())
}

/// The `n` bytes of `x`, least significant byte first.
pub open spec fn le_bytes(x: nat, n: nat) -> Seq<u8>
    decreases n,
{
    if n == 0 {
        seq![]
    } else {
        seq![(x % 256) as u8] + le_bytes(x / 256, (n - 1) as nat)
    }
}

/// The `n` bytes of `x`, most significant byte first.
pub open spec fn be_bytes(x: nat, n: nat) -> Seq<u8> {
    le_bytes(x, n).reverse()
}

proof fn lemma_le_round_trip(x: nat, n: nat)
    requires
        x < pow(256, n),
    ensures
        le_bytes(x, n).len() == n,
        le_value(le_bytes(x, n)) == x,
    decreases n,
{
    if n == 0 {
        assert(pow(256, 0) == 1) by {
            reveal(pow);
        }
    } else {
        assert(pow(256, n) == 256 * pow(256, (n - 1) as nat)) by {
            reveal(pow);
        }
        lemma_le_round_trip(x / 256, (n - 1) as nat);
        let s = le_bytes(x, n);
        let r = le_bytes(x / 256, (n - 1) as nat);
        assert(s.drop_first() =~= r);
    }
}

/// Each byte order that `raw` may use gives 16 bytes that `new`, reading in
/// the same order, turns back into the same capabilities.
pub proof fn lemma_byte_orders_round_trip(x: u128)
    ensures
        le_bytes(x as nat, 16).len() == 16,
        be_bytes(x as nat, 16).len() == 16,
        le_value(le_bytes(x as nat, 16)) == x,
        be_value(be_bytes(x as nat, 16)) == x,
{
    assert(pow(256, 16) == 0x1_0000_0000_0000_0000_0000_0000_0000_0000) by {
        reveal_with_fuel(pow, 17);
    }
    lemma_le_round_trip(x as nat, 16);
    let s = le_bytes(x as nat, 16);
    assert(s.reverse().reverse() =~= s);
}

/// Calls `u128::from_ne_bytes`: the number that the bytes stand for in the
/// machine's byte order, which is little or big endian.
#[verifier::external_body]
fn u128_from_ne_bytes(bytes: [u8; 16]) -> (res: u128)
    ensures
        res == le_value(bytes@) || res == be_value(bytes@),
{
    u128::from_ne_bytes(bytes)
}

/// Calls `u128::to_ne_bytes`: the bytes of the number in the machine's byte
/// order, which is little or big endian.
#[verifier::external_body]
fn u128_to_ne_bytes(value: u128) -> (res: [u8; 16])
    ensures
        res@ == le_bytes(value as nat, 16) || res@ == be_bytes(value as nat, 16),
{
    value.to_ne_bytes()
}

/// A set of JVM TI capabilities, one bit per capability in the order of `jvmtiCapabilities`.
#[derive(Debug, Clone, Copy, PartialEq, Eq, Structural, PartialOrd, Ord, Hash)]
pub struct Capabilities {
    bits: u128,
}

impl View for Capabilities {
    type V = u128;

    closed spec fn view(&self) -> u128 {
        self.bits
    }
}

impl Capabilities {
    /// The `can_tag_objects` capability (bit 0).
    #[allow(non_snake_case)]
    pub fn TAG_OBJECTS() -> (res: Self)
        ensures
            res@ == 0x1u128,
    {
        Self { bits: 0x1u128 }
    }

    /// The `can_generate_field_modification_events` capability (bit 1).
    #[allow(non_snake_case)]
    pub fn GENERATE_FIELD_MODIFICATION_EVENTS() -> (res: Self)
        ensures
            res@ == 0x2u128,
    {
        Self { bits: 0x2u128 }
    }

    /// The `can_generate_field_access_events` capability (bit 2).
    #[allow(non_snake_case)]
    pub fn GENERATE_FIELD_ACCESS_EVENTS() -> (res: Self)
        ensures
            res@ == 0x4u128,
    {
        Self { bits: 0x4u128 }
    }

    /// The `can_get_bytecodes` capability (bit 3).
    #[allow(non_snake_case)]
    pub fn GET_BYTECODES() -> (res: Self)
        ensures
            res@ == 0x8u128,
    {
        Self { bits: 0x8u128 }
    }

    /// The `can_get_synthetic_attribute` capability (bit 4).
    #[allow(non_snake_case)]
    pub fn GET_SYNTHETIC_ATTRIBUTE() -> (res: Self)
        ensures
            res@ == 0x10u128,
    {
        Self { bits: 0x10u128 }
    }

    /// The `can_get_owned_monitor_info` capability (bit 5).
    #[allow(non_snake_case)]
    pub fn GET_OWNED_MONITOR_INFO() -> (res: Self)
        ensures
            res@ == 0x20u128,
    {
        Self { bits: 0x20u128 }
    }

    /// The `can_get_current_contended_monitor` capability (bit 6).
    #[allow(non_snake_case)]
    pub fn GET_CURRENT_CONTENDED_MONITOR() -> (res: Self)
        ensures
            res@ == 0x40u128,
    {
        Self { bits: 0x40u128 }
    }

    /// The `can_get_monitor_info` capability (bit 7).
    #[allow(non_snake_case)]
    pub fn GET_MONITOR_INFO() -> (res: Self)
        ensures
            res@ == 0x80u128,
    {
        Self { bits: 0x80u128 }
    }

    /// The `can_pop_frame` capability (bit 8).
    #[allow(non_snake_case)]
    pub fn POP_FRAME() -> (res: Self)
        ensures
            res@ == 0x100u128,
    {
        Self { bits: 0x100u128 }
    }

    /// The `can_redefine_classes` capability (bit 9).
    #[allow(non_snake_case)]
    pub fn REDEFINE_CLASSES() -> (res: Self)
        ensures
            res@ == 0x200u128,
    {
        Self { bits: 0x200u128 }
    }

    /// The `can_signal_thread` capability (bit 10).
    #[allow(non_snake_case)]
    pub fn SIGNAL_THREAD() -> (res: Self)
        ensures
            res@ == 0x400u128,
    {
        Self { bits: 0x400u128 }
    }

    /// The `can_get_source_file_name` capability (bit 11).
    #[allow(non_snake_case)]
    pub fn GET_SOURCE_FILE_NAME() -> (res: Self)
        ensures
            res@ == 0x800u128,
    {
        Self { bits: 0x800u128 }
    }

    /// The `can_get_line_numbers` capability (bit 12).
    #[allow(non_snake_case)]
    pub fn GET_LINE_NUMBERS() -> (res: Self)
        ensures
            res@ == 0x1000u128,
    {
        Self { bits: 0x1000u128 }
    }

    /// The `can_get_source_debug_extension` capability (bit 13).
    #[allow(non_snake_case)]
    pub fn GET_SOURCE_DEBUG_EXTENSION() -> (res: Self)
        ensures
            res@ == 0x2000u128,
    {
        Self { bits: 0x2000u128 }
    }

    /// The `can_access_local_variables` capability (bit 14).
    #[allow(non_snake_case)]
    pub fn ACCESS_LOCAL_VARIABLES() -> (res: Self)
        ensures
            res@ == 0x4000u128,
    {
        Self { bits: 0x4000u128 }
    }

    /// The `can_maintain_original_method_order` capability (bit 15).
    #[allow(non_snake_case)]
    pub fn MAINTAIN_ORIGINAL_METHOD_ORDER() -> (res: Self)
        ensures
            res@ == 0x8000u128,
    {
        Self { bits: 0x8000u128 }
    }

    /// The `can_generate_single_step_events` capability (bit 16).
    #[allow(non_snake_case)]
    pub fn GENERATE_SINGLE_STEP_EVENTS() -> (res: Self)
        ensures
            res@ == 0x10000u128,
    {
        Self { bits: 0x10000u128 }
    }

    /// The `can_generate_exception_events` capability (bit 17).
    #[allow(non_snake_case)]
    pub fn GENERATE_EXCEPTION_EVENTS() -> (res: Self)
        ensures
            res@ == 0x20000u128,
    {
        Self { bits: 0x20000u128 }
    }

    /// The `can_generate_frame_pop_events` capability (bit 18).
    #[allow(non_snake_case)]
    pub fn GENERATE_FRAME_POP_EVENTS() -> (res: Self)
        ensures
            res@ == 0x40000u128,
    {
        Self { bits: 0x40000u128 }
    }

    /// The `can_generate_breakpoint_events` capability (bit 19).
    #[allow(non_snake_case)]
    pub fn GENERATE_BREAKPOINT_EVENTS() -> (res: Self)
        ensures
            res@ == 0x80000u128,
    {
        Self { bits: 0x80000u128 }
    }

    /// The `can_suspend` capability (bit 20).
    #[allow(non_snake_case)]
    pub fn SUSPEND() -> (res: Self)
        ensures
            res@ == 0x100000u128,
    {
        Self { bits: 0x100000u128 }
    }

    /// The `can_redefine_any_class` capability (bit 21).
    #[allow(non_snake_case)]
    pub fn REDEFINE_ANY_CLASS() -> (res: Self)
        ensures
            res@ == 0x200000u128,
    {
        Self { bits: 0x200000u128 }
    }

    /// The `can_get_current_thread_cpu_time` capability (bit 22).
    #[allow(non_snake_case)]
    pub fn GET_CURRENT_THREAD_CPU_TIME() -> (res: Self)
        ensures
            res@ == 0x400000u128,
    {
        Self { bits: 0x400000u128 }
    }

    /// The `can_get_thread_cpu_time` capability (bit 23).
    #[allow(non_snake_case)]
    pub fn GET_THREAD_CPU_TIME() -> (res: Self)
        ensures
            res@ == 0x800000u128,
    {
        Self { bits: 0x800000u128 }
    }

    /// The `can_generate_method_entry_events` capability (bit 24).
    #[allow(non_snake_case)]
    pub fn GENERATE_METHOD_ENTRY_EVENTS() -> (res: Self)
        ensures
            res@ == 0x1000000u128,
    {
        Self { bits: 0x1000000u128 }
    }

    /// The `can_generate_method_exit_events` capability (bit 25).
    #[allow(non_snake_case)]
    pub fn GENERATE_METHOD_EXIT_EVENTS() -> (res: Self)
        ensures
            res@ == 0x2000000u128,
    {
        Self { bits: 0x2000000u128 }
    }

    /// The `can_generate_all_class_hook_events` capability (bit 26).
    #[allow(non_snake_case)]
    pub fn GENERATE_ALL_CLASS_HOOK_EVENTS() -> (res: Self)
        ensures
            res@ == 0x4000000u128,
    {
        Self { bits: 0x4000000u128 }
    }

    /// The `can_generate_compiled_method_load_events` capability (bit 27).
    #[allow(non_snake_case)]
    pub fn GENERATE_COMPILED_METHOD_LOAD_EVENTS() -> (res: Self)
        ensures
            res@ == 0x8000000u128,
    {
        Self { bits: 0x8000000u128 }
    }

    /// The `can_generate_monitor_events` capability (bit 28).
    #[allow(non_snake_case)]
    pub fn GENERATE_MONITOR_EVENTS() -> (res: Self)
        ensures
            res@ == 0x10000000u128,
    {
        Self { bits: 0x10000000u128 }
    }

    /// The `can_generate_vm_object_alloc_events` capability (bit 29).
    #[allow(non_snake_case)]
    pub fn GENERATE_VM_OBJECT_ALLOC_EVENTS() -> (res: Self)
        ensures
            res@ == 0x20000000u128,
    {
        Self { bits: 0x20000000u128 }
    }

    /// The `can_generate_native_method_bind_events` capability (bit 30).
    #[allow(non_snake_case)]
    pub fn GENERATE_NATIVE_METHOD_BIND_EVENTS() -> (res: Self)
        ensures
            res@ == 0x40000000u128,
    {
        Self { bits: 0x40000000u128 }
    }

    /// The `can_generate_garbage_collection_events` capability (bit 31).
    #[allow(non_snake_case)]
    pub fn GENERATE_GARBAGE_COLLECTION_EVENTS() -> (res: Self)
        ensures
            res@ == 0x80000000u128,
    {
        Self { bits: 0x80000000u128 }
    }

    /// The `can_generate_object_free_events` capability (bit 32).
    #[allow(non_snake_case)]
    pub fn GENERATE_OBJECT_FREE_EVENTS() -> (res: Self)
        ensures
            res@ == 0x100000000u128,
    {
        Self { bits: 0x100000000u128 }
    }

    /// The `can_force_early_return` capability (bit 33).
    #[allow(non_snake_case)]
    pub fn FORCE_EARLY_RETURN() -> (res: Self)
        ensures
            res@ == 0x200000000u128,
    {
        Self { bits: 0x200000000u128 }
    }

    /// The `can_get_owned_monitor_stack_depth_info` capability (bit 34).
    #[allow(non_snake_case)]
    pub fn GET_OWNED_MONITOR_STACK_DEPTH_INFO() -> (res: Self)
        ensures
            res@ == 0x400000000u128,
    {
        Self { bits: 0x400000000u128 }
    }

    /// The `can_get_constant_pool` capability (bit 35).
    #[allow(non_snake_case)]
    pub fn GET_CONSTANT_POOL() -> (res: Self)
        ensures
            res@ == 0x800000000u128,
    {
        Self { bits: 0x800000000u128 }
    }

    /// The `can_set_native_method_prefix` capability (bit 36).
    #[allow(non_snake_case)]
    pub fn SET_NATIVE_METHOD_PREFIX() -> (res: Self)
        ensures
            res@ == 0x1000000000u128,
    {
        Self { bits: 0x1000000000u128 }
    }

    /// The `can_retransform_classes` capability (bit 37).
    #[allow(non_snake_case)]
    pub fn RETRANSFORM_CLASSES() -> (res: Self)
        ensures
            res@ == 0x2000000000u128,
    {
        Self { bits: 0x2000000000u128 }
    }

    /// The `can_retransform_any_class` capability (bit 38).
    #[allow(non_snake_case)]
    pub fn RETRANSFORM_ANY_CLASS() -> (res: Self)
        ensures
            res@ == 0x4000000000u128,
    {
        Self { bits: 0x4000000000u128 }
    }

    /// The `can_generate_resource_exhaustion_heap_events` capability (bit 39).
    #[allow(non_snake_case)]
    pub fn GENERATE_RESOURCE_EXHAUSTION_HEAP_EVENTS() -> (res: Self)
        ensures
            res@ == 0x8000000000u128,
    {
        Self { bits: 0x8000000000u128 }
    }

    /// The `can_generate_resource_exhaustion_threads_events` capability (bit 40).
    #[allow(non_snake_case)]
    pub fn GENERATE_RESOURCE_EXHAUSTION_THREADS_EVENTS() -> (res: Self)
        ensures
            res@ == 0x10000000000u128,
    {
        Self { bits: 0x10000000000u128 }
    }

    /// The `can_generate_early_vmstart` capability (bit 41).
    #[allow(non_snake_case)]
    pub fn GENERATE_EARLY_VMSTART() -> (res: Self)
        ensures
            res@ == 0x20000000000u128,
    {
        Self { bits: 0x20000000000u128 }
    }

    /// The `can_generate_early_class_hook_events` capability (bit 42).
    #[allow(non_snake_case)]
    pub fn GENERATE_EARLY_CLASS_HOOK_EVENTS() -> (res: Self)
        ensures
            res@ == 0x40000000000u128,
    {
        Self { bits: 0x40000000000u128 }
    }

    /// The `can_generate_sampled_object_alloc_events` capability (bit 43).
    #[allow(non_snake_case)]
    pub fn GENERATE_SAMPLED_OBJECT_ALLOC_EVENTS() -> (res: Self)
        ensures
            res@ == 0x80000000000u128,
    {
        Self { bits: 0x80000000000u128 }
    }

    /// The `can_support_virtual_threads` capability (bit 44).
    #[allow(non_snake_case)]
    pub fn SUPPORT_VIRTUAL_THREADS() -> (res: Self)
        ensures
            res@ == 0x100000000000u128,
    {
        Self { bits: 0x100000000000u128 }
    }

    /// The set holding exactly `bits`, as a specification.
    pub closed spec fn spec_from_bits(bits: u128) -> Self {
        Self { bits }
    }

    /// The set built by `spec_from_bits` holds the bits it was given.
    pub broadcast proof fn lemma_spec_from_bits(bits: u128)
        ensures
            #[trigger] Self::spec_from_bits(bits)@ == bits,
    {
    }

    /// A set is determined by its bits.
    pub proof fn lemma_view_determines(a: Self, b: Self)
        ensures
            a@ == b@ ==> a == b,
    {
    }

    /// The set holding exactly the bits of `bits`, known or not.
    pub fn from_bits_retain(bits: u128) -> (res: Self)
        ensures
            res@ == bits,
    {
        Self { bits }
    }

    /// The set holding the bits of `bits`; every bit is a known flag, so this never fails.
    pub fn from_bits(bits: u128) -> (res: Option<Self>)
        ensures
            res matches Some(f) && f@ == bits,
    {
        Some(Self { bits })
    }

    /// The set holding the known bits of `bits`, which are all of them.
    pub fn from_bits_truncate(bits: u128) -> (res: Self)
        ensures
            res@ == bits,
    {
        Self { bits }
    }

    /// The raw bits of the set.
    pub fn bits(&self) -> (res: u128)
        ensures
            res == self@,
    {
        self.bits
    }

    /// The set with no flag.
    pub fn empty() -> (res: Self)
        ensures
            res@ == 0,
    {
        Self { bits: 0 }
    }

    /// The set with every flag.
    pub fn all() -> (res: Self)
        ensures
            res@ == 0xffff_ffff_ffff_ffff_ffff_ffff_ffff_ffffu128,
    {
        Self { bits: 0xffff_ffff_ffff_ffff_ffff_ffff_ffff_ffffu128 }
    }

    /// Whether no flag is set.
    pub fn is_empty(&self) -> (res: bool)
        ensures
            res == (self@ == 0),
    {
        self.bits == 0
    }

    /// Whether every flag is set.
    pub fn is_all(&self) -> (res: bool)
        ensures
            res == (self@ == 0xffff_ffff_ffff_ffff_ffff_ffff_ffff_ffffu128),
    {
        self.bits == 0xffff_ffff_ffff_ffff_ffff_ffff_ffff_ffffu128
    }

    /// Whether every flag of `other` is set in `self`.
    pub fn contains(&self, other: Self) -> (res: bool)
        ensures
            res == (self@ & other@ == other@),
    {
        self.bits & other.bits == other.bits
    }

    /// Whether some flag of `other` is set in `self`.
    pub fn intersects(&self, other: Self) -> (res: bool)
        ensures
            res == (self@ & other@ != 0),
    {
        self.bits & other.bits != 0
    }

    /// The flags set in either.
    pub fn union(self, other: Self) -> (res: Self)
        ensures
            res@ == self@ | other@,
    {
        Self { bits: self.bits | other.bits }
    }

    /// The flags set in both.
    pub fn intersection(self, other: Self) -> (res: Self)
        ensures
            res@ == self@ & other@,
    {
        Self { bits: self.bits & other.bits }
    }

    /// The flags of `self` that are not in `other`.
    pub fn difference(self, other: Self) -> (res: Self)
        ensures
            res@ == self@ & !other@,
    {
        Self { bits: self.bits & !other.bits }
    }

    /// The flags set in exactly one of the two.
    pub fn symmetric_difference(self, other: Self) -> (res: Self)
        ensures
            res@ == self@ ^ other@,
    {
        Self { bits: self.bits ^ other.bits }
    }

    /// The flags not set in `self`.
    pub fn complement(self) -> (res: Self)
        ensures
            res@ == !self@,
    {
        Self { bits: !self.bits }
    }

    /// Sets the flags of `other`.
    pub fn insert(&mut self, other: Self)
        ensures
            final(self)@ == old(self)@ | other@,
    {
        self.bits = self.bits | other.bits;
    }

    /// Clears the flags of `other`.
    pub fn remove(&mut self, other: Self)
        ensures
            final(self)@ == old(self)@ & !other@,
    {
        self.bits = self.bits & !other.bits;
    }

    /// Flips the flags of `other`.
    pub fn toggle(&mut self, other: Self)
        ensures
            final(self)@ == old(self)@ ^ other@,
    {
        self.bits = self.bits ^ other.bits;
    }

    /// Sets the flags of `other` when `value` holds, clears them otherwise.
    pub fn set(&mut self, other: Self, value: bool)
        ensures
            final(self)@ == (if value {
                old(self)@ | other@
            } else {
                old(self)@ & !other@
            }),
    {
        if value {
            self.insert(other);
        } else {
            self.remove(other);
        }
    }
}

impl Capabilities {
    /// The capabilities that the 16 bytes of a `jvmtiCapabilities` hold, read
    /// in the machine's byte order.
    pub fn new(raw: [u8; 16]) -> (res: Self)
        ensures
            res@ == le_value(raw@) || res@ == be_value(raw@),
    {
        Self::from_bits_retain(u128_from_ne_bytes(raw))
    }

    /// The 16 bytes of a `jvmtiCapabilities` that hold these capabilities, in
    /// the machine's byte order.
    pub fn raw(self) -> (res: [u8; 16])
        ensures
            res@ == le_bytes(self@ as nat, 16) || res@ == be_bytes(self@ as nat, 16),
    {
        u128_to_ne_bytes(self.bits())
    }
}

} // verus!
