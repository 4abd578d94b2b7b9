//! Classification of a raw descriptor by its type bits and translation level.
use vstd::prelude::*;

use super::TranslationLevel;

verus! {

/// The kind of a descriptor.
#[derive(Clone, Copy, Debug, PartialEq, Eq, Structural)]
pub enum Descriptor {
    Table,
    Block,
    Page,
    Invalid,
}

/// The kind of a descriptor value at a level: 0b11 is a table above level 3 and a page at level
/// 3; 0b01 is a block at levels 1 and 2; everything else is invalid.
pub open spec fn descriptor_kind(value: u64, level: TranslationLevel) -> Descriptor {
    if value & 0b11 == 0b11 {
        if level == TranslationLevel::Level3 {
            Descriptor::Page
        } else {
            Descriptor::Table
        }
    } else if value & 0b11 == 0b01 {
        Descriptor::Block
    } else {
        Descriptor::Invalid
    }
}

impl Descriptor {
    /// Classifies `value` at `level`. A block descriptor is not valid at levels 0 and 3.
    pub fn from(value: u64, level: &TranslationLevel) -> (d: Self)
        requires
            value & 0b11 == 0b01 ==> *level != TranslationLevel::Level0 && *level
                != TranslationLevel::Level3,
        ensures
            d == descriptor_kind(value, *level),
    {
        let bits = value & 0b11;
        if bits == 0b11 {
            match level {
                TranslationLevel::Level0 | TranslationLevel::Level1 | TranslationLevel::Level2 => {
                    Descriptor::Table
                },
                TranslationLevel::Level3 => Descriptor::Page,
            }
        } else if bits == 0b01 {
            Descriptor::Block
        } else {
            Descriptor::Invalid
        }
    }
}

/// An invalid descriptor (its type bits are not 0b01 or 0b11).
#[derive(Clone, Copy, Debug, PartialEq, Eq, Structural)]
pub struct InvalidDescriptor(pub u64);

} // verus!
