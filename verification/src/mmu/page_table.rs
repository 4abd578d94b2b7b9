//! Translation tables and the tree they form.
//!
//! A table is a page of 512 descriptors at some physical address. A table descriptor of a
//! table above level 3 points to the physical address of the next-level table; here the
//! next-level table is also held as the child of that entry, so the tables of an address space
//! form a tree whose shape matches the table descriptors.
use vstd::prelude::*;

use super::table_desc::TableDescriptor;
use super::block_desc::BlockDescriptor;
use super::page_desc::PageDescriptor;
use super::desc::Descriptor;
use super::{ADDR_MASK, PAGE_TABLE_ENTRIES, TranslationLevel, table_index};

verus! {

/// The table index of `va` at `level` (0 to 3).
pub open spec fn index_at(va: usize, level: int) -> usize {
    table_index(va, (39 - 9 * level) as u64)
}

/// `va` and `va2` have the same table index at every level from `level` down to 3.
pub open spec fn same_slots_from(va: usize, va2: usize, level: int) -> bool {
    forall|l: int| level <= l <= 3 ==> #[trigger] index_at(va, l) == index_at(va2, l)
}

/// A physical page address that a table descriptor can hold: page-aligned, below 2^48.
pub open spec fn is_table_address(phys: usize) -> bool {
    phys % 4096 == 0 && phys < 0x1_0000_0000_0000
}

/// A translation table: 512 descriptors, the physical address of the page that holds them,
/// and the next-level table of each table descriptor.
pub struct PageTable {
    descriptors: [u64; 512],
    phys: usize,
    children: Vec<Option<Box<PageTable>>>,
}

/// The table index of `va` at `level`.
fn index_of(va: usize, level: u8) -> (i: usize)
    requires
        level <= 3,
    ensures
        i == index_at(va, level as int),
        i < 512,
{
    if level == 0 {
        super::level_0_index(va)
    } else if level == 1 {
        super::level_1_index(va)
    } else if level == 2 {
        super::level_2_index(va)
    } else {
        super::level_3_index(va)
    }
}

/// A table index is below 512.
proof fn lemma_index_bound(va: usize, level: int)
    requires
        0 <= level <= 3,
    ensures
        index_at(va, level) < 512,
{
    let s: u64 = (39 - 9 * level) as u64;
    let v: u64 = va as u64;
    assert((v >> s) & 0x1FF <= 0x1FF) by (bit_vector);
}

proof fn lemma_table_descriptor_address(phys: usize)
    requires
        is_table_address(phys),
    ensures
        (phys as u64 | 0b11) & ADDR_MASK == phys as u64,
        (phys as u64 | 0b11) & 0b11 == 0b11,
{
    let p = phys as u64;
    assert(p % 4096 == 0 && p < 0x1_0000_0000_0000);
    assert((p | 0b11) & 0x0000_ffff_ffff_f000u64 == p && (p | 0b11) & 0b11 == 0b11) by (bit_vector)
        requires
            p % 4096 == 0,
            p < 0x1_0000_0000_0000,
    ;
}

impl PageTable {
    /// The descriptors of the table.
    pub closed spec fn view(&self) -> Seq<u64> {
        self.descriptors@
    }

    /// A table always holds 512 descriptors.
    pub proof fn lemma_view_len(&self)
        ensures
            self@.len() == 512,
    {
        vstd::array::array_len_matches_n(&self.descriptors);
    }

    /// The physical address of the table.
    pub closed spec fn spec_phys(&self) -> usize {
        self.phys
    }

    /// The descriptors of the next-level table of entry `i`, if it is a table descriptor.
    pub closed spec fn child_view(&self, i: int) -> Option<Seq<u64>> {
        match self.children@[i] {
            Some(c) => Some(c.descriptors@),
            None => None,
        }
    }

    /// The table has a (possibly empty) next-level slot for each of its 512 entries.
    pub closed spec fn has_slots(&self) -> bool {
        &&& self.children@.len() == 512
        &&& self.descriptors@.len() == 512
    }

    /// The table is a well-formed table of `level`: a table descriptor (type 0b11 above level
    /// 3) in each entry that has a next-level table, that table at the address it names, and
    /// no next-level table elsewhere.
    pub closed spec fn wf(&self, level: int) -> bool
        decreases self,
    {
        &&& 0 <= level <= 3
        &&& self.children@.len() == 512
        &&& is_table_address(self.phys)
        &&& forall|i: int|
            0 <= i < 512 ==> match #[trigger] self.children@[i] {
                Some(c) => {
                    &&& level < 3
                    &&& self.descriptors@[i] & 0b11 == 0b11
                    &&& self.descriptors@[i] & ADDR_MASK == c.phys as u64
                    &&& c.wf(level + 1)
                },
                None => !(level < 3 && self.descriptors@[i] & 0b11 == 0b11),
            }
    }

    /// The level-3 descriptor of `va` reached from this table of `level` through table
    /// descriptors; 0 (invalid) where the walk meets an entry that is not a table descriptor.
    pub closed spec fn walk(&self, level: int, va: usize) -> u64
        decreases self,
    {
        let i = index_at(va, level) as int;
        if level >= 3 || level < 0 {
            self.descriptors@[i]
        } else if i >= self.children@.len() {
            0
        } else {
            match self.children@[i] {
                Some(c) => c.walk(level + 1, va),
                None => 0,
            }
        }
    }

    /// No entry on the walk of `va` from this table of `level` is a block descriptor (type 0b01
    /// above level 3).
    pub closed spec fn path_has_no_block(&self, level: int, va: usize) -> bool
        decreases self,
    {
        let i = index_at(va, level) as int;
        if level >= 3 || level < 0 {
            true
        } else {
            &&& self.descriptors@[i] & 0b11 != 0b01
            &&& (i < self.children@.len() ==> match self.children@[i] {
                Some(c) => c.path_has_no_block(level + 1, va),
                None => true,
            })
        }
    }

    /// An empty table at `phys`: every descriptor invalid (0).
    pub fn new(phys: usize) -> (t: Self)
        requires
            is_table_address(phys),
        ensures
            t@ == Seq::new(512, |_i: int| 0u64),
            t.spec_phys() == phys,
            forall|i: int| 0 <= i < 512 ==> #[trigger] t.child_view(i) is None,
            t.wf(0) && t.wf(1) && t.wf(2) && t.wf(3),
            t.has_slots(),
    {
        let mut children: Vec<Option<Box<PageTable>>> = Vec::new();
        let mut i: usize = 0;
        while i < PAGE_TABLE_ENTRIES
            invariant
                0 <= i <= 512,
                children@.len() == i,
                forall|k: int| 0 <= k < i ==> children@[k] is None,
            decreases 512 - i,
        {
            children.push(None);
            i += 1;
        }
        let t = Self { descriptors: [0u64; 512], phys, children };
        assert(t@ =~= Seq::new(512, |_i: int| 0u64));
        assert forall|i: int| 0 <= i < 512 implies (t.descriptors@[i] & 0b11 != 0b11) by {
            assert(t.descriptors@[i] == 0);
            assert(0u64 & 0b11 == 0) by (bit_vector);
        }
        t
    }

    /// The physical address of the table.
    pub fn phys_addr(&self) -> (a: usize)
        ensures
            a == self.spec_phys(),
    {
        self.phys
    }

    pub fn get_descriptor(&self, index: usize) -> (d: u64)
        requires
            index < 512,
        ensures
            d == self@[index as int],
    {
        self.descriptors[index]
    }

    /// Sets entry `index` to a descriptor that is not a table descriptor (a block, a page, or
    /// an invalid entry), dropping the next-level table it had.
    pub fn set_descriptor(&mut self, index: usize, desc: u64)
        requires
            index < 512,
            old(self).has_slots(),
        ensures
            final(self)@ == old(self)@.update(index as int, desc),
            final(self)@.len() == 512,
            final(self)@[index as int] == desc,
            forall|j: int| 0 <= j < 512 && j != index ==> #[trigger] final(self)@[j] == old(self)@[j],
            final(self).spec_phys() == old(self).spec_phys(),
            final(self).child_view(index as int) is None,
            final(self).has_slots(),
            forall|i: int|
                0 <= i < 512 && i != index ==> #[trigger] final(self).child_view(i) == old(self).child_view(i),
    {
        proof {
            self.lemma_view_len();
        }
        self.descriptors[index] = desc;
        self.children.set(index, None);
    }

    pub fn as_table_descriptor(&self, index: usize) -> (d: TableDescriptor)
        requires
            index < 512,
        ensures
            d.0 == self@[index as int],
    {
        TableDescriptor(self.descriptors[index])
    }

    pub fn as_block_descriptor(&self, index: usize) -> (d: BlockDescriptor)
        requires
            index < 512,
        ensures
            d.0 == self@[index as int],
    {
        BlockDescriptor(self.descriptors[index])
    }

    pub fn as_page_descriptor(&self, index: usize) -> (d: PageDescriptor)
        requires
            index < 512,
        ensures
            d.0 == self@[index as int],
    {
        PageDescriptor(self.descriptors[index])
    }

    /// Links the table `child` (of the next level) into entry `index` with a table descriptor
    /// of its address.
    pub fn set_table(&mut self, index: usize, child: PageTable, level: u8)
        requires
            index < 512,
            old(self).wf(level as int),
            level < 3,
            child.wf(level + 1),
        ensures
            final(self).wf(level as int),
            final(self)@ == old(self)@.update(index as int, child.spec_phys() as u64 | 0b11),
            final(self).spec_phys() == old(self).spec_phys(),
            final(self).child_view(index as int) == Some(child@),
            forall|i: int|
                0 <= i < 512 && i != index ==> #[trigger] final(self).child_view(i) == old(self).child_view(i),
            forall|va2: usize|
                index_at(va2, level as int) != index ==> #[trigger] final(self).walk(level as int, va2) == old(self).walk(level as int, va2),
            forall|va2: usize|
                index_at(va2, level as int) == index ==> #[trigger] final(self).walk(level as int, va2)
                    == child.walk(level + 1, va2),
    {
        proof {
            lemma_table_descriptor_address(child.phys);
        }
        let desc = TableDescriptor::new(child.phys);
        let ghost old_self = *self;
        self.descriptors[index] = desc.0;
        self.children.set(index, Some(Box::new(child)));
        assert forall|i: int| 0 <= i < 512 implies match #[trigger] self.children@[i] {
            Some(c) => {
                &&& level < 3
                &&& self.descriptors@[i] & 0b11 == 0b11
                &&& self.descriptors@[i] & ADDR_MASK == c.phys as u64
                &&& c.wf(level + 1)
            },
            None => !(level < 3 && self.descriptors@[i] & 0b11 == 0b11),
        } by {
            if i != index {
                assert(old_self.children@[i] == self.children@[i]);
            }
        }
        assert forall|va2: usize| index_at(va2, level as int) != index implies #[trigger] self.walk(
            level as int,
            va2,
        ) == old_self.walk(level as int, va2) by {
            lemma_index_bound(va2, level as int);
            assert(old_self.children@[index_at(va2, level as int) as int] == self.children@[index_at(va2, level as int) as int]);
        }
    }
}

impl PageTable {
    /// A table has 512 entries.
    pub proof fn lemma_len(&self)
        ensures
            self@.len() == 512,
    {
    }

    /// A table none of whose entries is a table descriptor (or any table of level 3) is a
    /// well-formed table of its level once it has no next-level tables.
    pub proof fn lemma_wf_leaf(&self, level: int)
        requires
            0 <= level <= 3,
            self.has_slots(),
            is_table_address(self.spec_phys()),
            forall|i: int| 0 <= i < 512 ==> #[trigger] self.child_view(i) is None,
            forall|i: int| 0 <= i < 512 && level < 3 ==> #[trigger] self@[i] & 0b11 != 0b11,
        ensures
            self.wf(level),
    {
        assert forall|i: int| 0 <= i < 512 implies match #[trigger] self.children@[i] {
            Some(c) => {
                &&& level < 3
                &&& self.descriptors@[i] & 0b11 == 0b11
                &&& self.descriptors@[i] & ADDR_MASK == c.phys as u64
                &&& c.wf(level + 1)
            },
            None => !(level < 3 && self.descriptors@[i] & 0b11 == 0b11),
        } by {
            assert(self.child_view(i) is None);
            assert(self@[i] == self.descriptors@[i]);
        }
    }
}

/// Every page in `pages` can hold a table.
pub open spec fn all_table_addresses(pages: Seq<usize>) -> bool {
    forall|k: int| 0 <= k < pages.len() ==> is_table_address(#[trigger] pages[k])
}

/// The translation level of a table level number.
fn translation_level(level: u8) -> (l: TranslationLevel)
    requires
        level <= 3,
    ensures
        level == 0 ==> l == TranslationLevel::Level0,
        level == 1 ==> l == TranslationLevel::Level1,
        level == 2 ==> l == TranslationLevel::Level2,
        level == 3 ==> l == TranslationLevel::Level3,
{
    if level == 0 {
        TranslationLevel::Level0
    } else if level == 1 {
        TranslationLevel::Level1
    } else if level == 2 {
        TranslationLevel::Level2
    } else {
        TranslationLevel::Level3
    }
}

impl PageTable {
    /// Every walk through an empty table ends at an invalid entry, and meets no block.
    proof fn lemma_empty_walk(&self, level: int, va: usize)
        requires
            self@ == Seq::new(512, |_i: int| 0u64),
            forall|i: int| 0 <= i < 512 ==> #[trigger] self.child_view(i) is None,
            self.children@.len() == 512,
            0 <= level <= 3,
        ensures
            self.walk(level, va) == 0,
            self.path_has_no_block(level, va),
    {
        let i = index_at(va, level) as int;
        lemma_index_bound(va, level);
        assert(self.child_view(i) is None);
        assert(0u64 & 0b11 != 0b01) by (bit_vector);
    }

    /// Writes `desc` into the level-3 entry of `va` below this table of `level`, creating the
    /// missing intermediate tables on the way from the pages at the end of `free_pages`.
    pub fn map_in(&mut self, level: u8, va: usize, desc: u64, free_pages: &mut Vec<usize>)
        requires
            level <= 3,
            old(self).wf(level as int),
            old(self).path_has_no_block(level as int, va),
            old(free_pages)@.len() >= 3 - level,
            all_table_addresses(old(free_pages)@),
        ensures
            final(self).wf(level as int),
            final(self).walk(level as int, va) == desc,
            forall|va2: usize|
                !same_slots_from(va, va2, level as int) ==> #[trigger] final(self).walk(
                    level as int,
                    va2,
                ) == old(self).walk(level as int, va2),
            final(self).spec_phys() == old(self).spec_phys(),
            final(free_pages)@.len() <= old(free_pages)@.len(),
            final(free_pages)@.len() + 3 - level >= old(free_pages)@.len(),
            final(free_pages)@ == old(free_pages)@.take(final(free_pages)@.len() as int),
        decreases 3 - level,
    {
        let i = index_of(va, level);
        if level == 3 {
            self.descriptors[i] = desc;
            assert forall|va2: usize| !same_slots_from(va, va2, level as int) implies #[trigger] self.walk(
                level as int,
                va2,
            ) == old(self).walk(level as int, va2) by {
                assert(index_at(va2, 3) != index_at(va, 3));
                lemma_index_bound(va2, 3);
            }
            return;
        }

        let d = self.descriptors[i];
        let kind = Descriptor::from(d, &translation_level(level));
        let ghost old_self = *self;
        match kind {
            Descriptor::Table => {
                let slot = self.children.remove(i);
                let mut child = match slot {
                    Some(b) => *b,
                    None => {
                        proof {
                            assert(false);
                        }
                        return;
                    },
                };
                let ghost old_child = child;
                child.map_in(level + 1, va, desc, free_pages);
                self.children.insert(i, Some(Box::new(child)));
                assert(self.children@ =~= old_self.children@.update(i as int, Some(Box::new(child))));
                proof {
                    assert forall|j: int| 0 <= j < 512 implies match #[trigger] self.children@[j] {
                        Some(c) => {
                            &&& level < 3
                            &&& self.descriptors@[j] & 0b11 == 0b11
                            &&& self.descriptors@[j] & ADDR_MASK == c.phys as u64
                            &&& c.wf(level + 1)
                        },
                        None => !(level < 3 && self.descriptors@[j] & 0b11 == 0b11),
                    } by {
                        if j != i {
                            assert(old_self.children@[j] == self.children@[j]);
                        }
                    }
                    assert forall|va2: usize| !same_slots_from(va, va2, level as int) implies #[trigger] self.walk(
                        level as int,
                        va2,
                    ) == old(self).walk(level as int, va2) by {
                        let i2 = index_at(va2, level as int) as int;
                        lemma_index_bound(va2, level as int);
                        if i2 == i {
                            assert(!same_slots_from(va, va2, level + 1));
                            assert(child.walk(level + 1, va2) == old_child.walk(level + 1, va2));
                        } else {
                            assert(old_self.children@[i2] == self.children@[i2]);
                        }
                    }
                }
            },
            Descriptor::Invalid => {
                let page = free_pages.pop().unwrap();
                let mut child = PageTable::new(page);
                let ghost fresh = child;
                proof {
                    fresh.lemma_empty_walk(level + 1, va);
                }
                child.map_in(level + 1, va, desc, free_pages);
                self.set_table(i, child, level);
                proof {
                    assert forall|va2: usize| !same_slots_from(va, va2, level as int) implies #[trigger] self.walk(
                        level as int,
                        va2,
                    ) == old(self).walk(level as int, va2) by {
                        let i2 = index_at(va2, level as int) as int;
                        if i2 == i {
                            assert(!same_slots_from(va, va2, level + 1));
                            fresh.lemma_empty_walk(level + 1, va2);
                            assert(child.walk(level + 1, va2) == fresh.walk(level + 1, va2));
                        }
                    }
                }
            },
            _ => {
                proof {
                    assert(false);
                }
            },
        }
    }

    /// The level-3 descriptor of `va` below this table of `level`, following table
    /// descriptors; 0 where the walk meets any other entry.
    pub fn lookup(&self, level: u8, va: usize) -> (d: u64)
        requires
            level <= 3,
            self.wf(level as int),
        ensures
            d == self.walk(level as int, va),
        decreases 3 - level,
    {
        let i = index_of(va, level);
        if level == 3 {
            return self.descriptors[i];
        }
        match &self.children[i] {
            Some(child) => child.lookup(level + 1, va),
            None => 0,
        }
    }
}

} // verus!
