//! Attribute fields of translation table descriptors.
use vstd::prelude::*;

verus! {

/// Non-secure bit of a table descriptor.
pub const NS_TABLE: u64 = 0x8000_0000_0000_0000;
/// Access permission bits of a table descriptor (the value `11 << 61`, truncated to 64 bits).
pub const AP_TABLE: u64 = 0x6000_0000_0000_0000;
/// Execute-never bit of a table descriptor.
pub const XN_TABLE: u64 = 0x1000_0000_0000_0000;
/// Privileged execute-never bit of a table descriptor.
pub const PXN_TABLE: u64 = 0x0800_0000_0000_0000;

/// Execute-never bit of a block or page descriptor.
pub const EXECUTE_NEVER: u64 = 0x0040_0000_0000_0000;
/// Access flag of a block or page descriptor.
pub const ACCESS_FLAG: u64 = 0x400;
/// Shareability field (bits 8..9) of a block or page descriptor.
pub const SHAREABILITY: u64 = 0x300;
/// Memory attribute index field (bits 2..4) of a block or page descriptor.
pub const ATTR_INDEX: u64 = 0x1c;

/// The attribute fields of a table descriptor.
pub trait TableDescriptorAttributes {
}

#[derive(Clone, Copy, Debug, PartialEq, Eq, Structural)]
pub enum ShareabilityAttribute {
    NonShareable,
    OuterShareable,
    InnerShareable,
}

impl ShareabilityAttribute {
    /// The field value: non-shareable 0b00, outer shareable 0b10, inner shareable 0b11.
    pub open spec fn spec_bits(self) -> u64 {
        match self {
            ShareabilityAttribute::NonShareable => 0,
            ShareabilityAttribute::OuterShareable => 2,
            ShareabilityAttribute::InnerShareable => 3,
        }
    }

    pub fn bits(self) -> (b: u64)
        ensures
            b == self.spec_bits(),
    {
        match self {
            ShareabilityAttribute::NonShareable => 0,
            ShareabilityAttribute::OuterShareable => 2,
            ShareabilityAttribute::InnerShareable => 3,
        }
    }
}

/// Memory region attribute index for `MAIR_EL1` register.
///
/// The indices must match the `MAIR_EL1` configuration written at boot:
/// Attr0 Device-nGnRnE, Attr1 Normal non-cacheable, Attr2 Normal write-back.
#[derive(Clone, Copy, Debug, PartialEq, Eq, Structural)]
pub enum MemoryRegionAttrIndex {
    DeviceNgnRnE,
    NormalNonCacheable,
    NormalWriteBackNonTransientReadWriteAlloc,
}

impl MemoryRegionAttrIndex {
    pub open spec fn spec_bits(self) -> u64 {
        match self {
            MemoryRegionAttrIndex::DeviceNgnRnE => 0,
            MemoryRegionAttrIndex::NormalNonCacheable => 1,
            MemoryRegionAttrIndex::NormalWriteBackNonTransientReadWriteAlloc => 2,
        }
    }

    pub fn bits(self) -> (b: u64)
        ensures
            b == self.spec_bits(),
    {
        match self {
            MemoryRegionAttrIndex::DeviceNgnRnE => 0,
            MemoryRegionAttrIndex::NormalNonCacheable => 1,
            MemoryRegionAttrIndex::NormalWriteBackNonTransientReadWriteAlloc => 2,
        }
    }
}

/// `v` with the execute-never bit set or cleared.
pub open spec fn with_execute_never(v: u64, xn: bool) -> u64 {
    if xn {
        v | EXECUTE_NEVER
    } else {
        v & !EXECUTE_NEVER
    }
}

/// `v` with the access flag set or cleared.
pub open spec fn with_accessed(v: u64, accessed: bool) -> u64 {
    if accessed {
        v | ACCESS_FLAG
    } else {
        v & !ACCESS_FLAG
    }
}

/// `v` with the shareability field replaced.
pub open spec fn with_shareability(v: u64, attr: ShareabilityAttribute) -> u64 {
    (v & !SHAREABILITY) | (attr.spec_bits() << 8u64)
}

/// `v` with the memory attribute index replaced.
pub open spec fn with_mem_attr_index(v: u64, index: MemoryRegionAttrIndex) -> u64 {
    (v & !ATTR_INDEX) | (index.spec_bits() << 2u64)
}

/// The attribute fields of block and page descriptors, set in place; each setter returns the
/// descriptor so that calls can be chained.
pub trait BlockAndPageDescriptorAttributes: Sized {
    /// The raw descriptor value.
    spec fn value(&self) -> u64;

    fn raw(&self) -> (v: u64)
        ensures
            v == self.value(),
    ;

    fn set_raw(&mut self, v: u64)
        ensures
            final(self).value() == v,
    ;

    fn set_execute_never(&mut self, xn: bool) -> (r: &mut Self)
        ensures
            r.value() == with_execute_never(old(self).value(), xn),
            *final(self) == *final(r),
    {
        let v = self.raw();
        if xn {
            self.set_raw(v | EXECUTE_NEVER);
        } else {
            self.set_raw(v & !EXECUTE_NEVER);
        }
        self
    }

    fn set_accessed(&mut self, accessed: bool) -> (r: &mut Self)
        ensures
            r.value() == with_accessed(old(self).value(), accessed),
            *final(self) == *final(r),
    {
        let v = self.raw();
        if accessed {
            self.set_raw(v | ACCESS_FLAG);
        } else {
            self.set_raw(v & !ACCESS_FLAG);
        }
        self
    }

    fn set_shareability(&mut self, attr: ShareabilityAttribute) -> (r: &mut Self)
        ensures
            r.value() == with_shareability(old(self).value(), attr),
            *final(self) == *final(r),
    {
        let v = self.raw() & !SHAREABILITY;
        self.set_raw(v | (attr.bits() << 8u64));
        self
    }

    fn set_mem_attr_index(&mut self, index: MemoryRegionAttrIndex) -> (r: &mut Self)
        ensures
            r.value() == with_mem_attr_index(old(self).value(), index),
            *final(self) == *final(r),
    {
        let v = self.raw() & !ATTR_INDEX;
        self.set_raw(v | (index.bits() << 2u64));
        self
    }
}

/// Setting an attribute twice keeps the second value, and each setter leaves the bits outside
/// its field as they were.
pub proof fn lemma_attribute_setters(
    v: u64,
    xn1: bool,
    xn2: bool,
    af1: bool,
    af2: bool,
    sh1: ShareabilityAttribute,
    sh2: ShareabilityAttribute,
    ix1: MemoryRegionAttrIndex,
    ix2: MemoryRegionAttrIndex,
)
    ensures
        with_execute_never(with_execute_never(v, xn1), xn2) == with_execute_never(v, xn2),
        with_accessed(with_accessed(v, af1), af2) == with_accessed(v, af2),
        with_shareability(with_shareability(v, sh1), sh2) == with_shareability(v, sh2),
        with_mem_attr_index(with_mem_attr_index(v, ix1), ix2) == with_mem_attr_index(v, ix2),
        with_execute_never(v, xn1) & !EXECUTE_NEVER == v & !EXECUTE_NEVER,
        with_accessed(v, af1) & !ACCESS_FLAG == v & !ACCESS_FLAG,
        with_shareability(v, sh1) & !SHAREABILITY == v & !SHAREABILITY,
        with_mem_attr_index(v, ix1) & !ATTR_INDEX == v & !ATTR_INDEX,
{
    let e = 0x0040_0000_0000_0000u64;
    let f = 0x400u64;
    assert((v | e) | e == v | e && (v & !e) | e == v | e && (v | e) & !e == v & !e && (v & !e) & !e
        == v & !e) by (bit_vector);
    assert((v | f) | f == v | f && (v & !f) | f == v | f && (v | f) & !f == v & !f && (v & !f) & !f
        == v & !f) by (bit_vector);
    assert((v | e) & !e == v & !e && (v & !e) & !e == v & !e) by (bit_vector);
    assert((v | f) & !f == v & !f && (v & !f) & !f == v & !f) by (bit_vector);
    let s1 = sh1.spec_bits();
    let s2 = sh2.spec_bits();
    assert(((((v & !0x300u64) | (s1 << 8u64)) & !0x300u64) | (s2 << 8u64)) == (v & !0x300u64) | (s2
        << 8u64) && ((v & !0x300u64) | (s1 << 8u64)) & !0x300u64 == v & !0x300u64) by (bit_vector)
        requires
            s1 <= 3,
            s2 <= 3,
    ;
    let m1 = ix1.spec_bits();
    let m2 = ix2.spec_bits();
    assert(((((v & !0x1cu64) | (m1 << 2u64)) & !0x1cu64) | (m2 << 2u64)) == (v & !0x1cu64) | (m2
        << 2u64) && ((v & !0x1cu64) | (m1 << 2u64)) & !0x1cu64 == v & !0x1cu64) by (bit_vector)
        requires
            m1 <= 7,
            m2 <= 7,
    ;
}

} // verus!
