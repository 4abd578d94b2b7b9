//! Finding the mini UART before the device tree is unflattened: its unit address, translated
//! through the `ranges` of its ancestors into a CPU physical address.
use vstd::prelude::*;

verus! {

/// One `ranges` entry: `size` bytes at `child` in the child bus map to `parent` in the parent
/// bus.
pub type Range = (usize, usize, usize);

/// The first range of `ranges` that contains `addr`.
pub open spec fn first_range(ranges: Seq<Range>, addr: int) -> Option<Range>
    decreases ranges.len(),
{
    if ranges.len() == 0 {
        None
    } else if ranges[0].0 <= addr < ranges[0].0 + ranges[0].2 {
        Some(ranges[0])
    } else {
        first_range(ranges.drop_first(), addr)
    }
}

/// `addr` moved through one bus: by the first range that contains it, else unchanged.
pub open spec fn translate_once(ranges: Seq<Range>, addr: int) -> int {
    match first_range(ranges, addr) {
        Some(r) => addr - r.0 + r.1,
        None => addr,
    }
}

/// `addr` moved through the buses of `levels`, the nearest ancestor first.
pub open spec fn translate_through(addr: int, levels: Seq<Seq<Range>>) -> int
    decreases levels.len(),
{
    if levels.len() == 0 {
        addr
    } else {
        translate_through(translate_once(levels[0], addr), levels.drop_first())
    }
}

/// The range found contains the address.
proof fn lemma_first_range_contains(ranges: Seq<Range>, addr: int)
    ensures
        first_range(ranges, addr) matches Some(r) ==> r.0 <= addr < r.0 + r.2,
    decreases ranges.len(),
{
    if ranges.len() > 0 {
        lemma_first_range_contains(ranges.drop_first(), addr);
    }
}

/// No range ends past the address space.
pub open spec fn ranges_fit(ranges: Seq<Range>) -> bool {
    forall|k: int| 0 <= k < ranges.len() ==> #[trigger] ranges[k].0 + ranges[k].2 <= usize::MAX
}

/// Every address along the translation lies in the address space.
pub open spec fn translation_fits(addr: int, levels: Seq<Seq<Range>>) -> bool
    decreases levels.len(),
{
    if levels.len() == 0 {
        true
    } else {
        &&& ranges_fit(levels[0])
        &&& 0 <= translate_once(levels[0], addr) <= usize::MAX
        &&& translation_fits(translate_once(levels[0], addr), levels.drop_first())
    }
}

/// The first range of `ranges` that contains `addr`.
fn find_range(ranges: &Vec<Range>, addr: usize) -> (r: Option<Range>)
    requires
        ranges_fit(ranges@),
    ensures
        r == first_range(ranges@, addr as int),
{
    let mut k: usize = 0;
    assert(ranges@.skip(0) =~= ranges@);
    while k < ranges.len()
        invariant
            0 <= k <= ranges@.len(),
            ranges_fit(ranges@),
            first_range(ranges@, addr as int) == first_range(ranges@.skip(k as int), addr as int),
        decreases ranges@.len() - k,
    {
        let (child, parent, size) = ranges[k];
        assert(ranges@.skip(k as int)[0] == ranges@[k as int]);
        assert(ranges@.skip(k as int).drop_first() =~= ranges@.skip(k + 1));
        assert(child + size <= usize::MAX) by {
            assert(ranges@[k as int].0 + ranges@[k as int].2 <= usize::MAX);
        }
        if addr >= child && addr < child + size {
            return Some((child, parent, size));
        }
        k += 1;
    }
    assert(ranges@.skip(k as int).len() == 0);
    None
}

/// The mini UART as the platform finds it before the drivers run.
pub struct MiniUart;

impl MiniUart {
    /// The compatible string of the mini UART.
    pub fn compatible(&self) -> (c: &'static str)
        ensures
            c@ == "brcm,bcm2835-aux-uart"@,
    {
        "brcm,bcm2835-aux-uart"
    }

    /// The register base of the UART: its unit address translated to a CPU physical address
    /// (see [`static_init`]).
    pub fn static_init(&self, unit_address: usize, levels: &Vec<Vec<Range>>) -> (addr: usize)
        requires
            translation_fits(unit_address as int, levels@.map_values(|v: Vec<Range>| v@)),
        ensures
            addr == translate_through(unit_address as int, levels@.map_values(|v: Vec<Range>| v@)),
    {
        static_init(unit_address, levels)
    }
}

/// The CPU physical address of `unit_address`, translated through the `ranges` of the node's
/// ancestors in `levels`, from its parent up to the root (an ancestor without `ranges` has an
/// empty list): in each bus, by the first range that contains the address.
pub fn static_init(unit_address: usize, levels: &Vec<Vec<Range>>) -> (addr: usize)
    requires
        translation_fits(unit_address as int, levels@.map_values(|v: Vec<Range>| v@)),
    ensures
        addr == translate_through(unit_address as int, levels@.map_values(|v: Vec<Range>| v@)),
{
    let ghost all = levels@.map_values(|v: Vec<Range>| v@);
    let mut reg_base_addr = unit_address;
    let mut i: usize = 0;
    proof {
        assert(all.skip(0) =~= all);
    }
    while i < levels.len()
        invariant
            0 <= i <= levels@.len(),
            all == levels@.map_values(|v: Vec<Range>| v@),
            translate_through(unit_address as int, all) == translate_through(
                reg_base_addr as int,
                all.skip(i as int),
            ),
            translation_fits(reg_base_addr as int, all.skip(i as int)),
        decreases levels@.len() - i,
    {
        let ghost rest = all.skip(i as int);
        assert(rest[0] == levels@[i as int]@);
        assert(rest.drop_first() =~= all.skip(i + 1));
        proof {
            lemma_first_range_contains(rest[0], reg_base_addr as int);
        }
        if let Some((child, parent, _size)) = find_range(&levels[i], reg_base_addr) {
            reg_base_addr = reg_base_addr - child + parent;
        }
        i += 1;
    }
    assert(all.skip(i as int).len() == 0);
    reg_base_addr
}

/// Buses without ranges leave the address as it is.
pub proof fn lemma_translate_without_ranges(addr: int, levels: Seq<Seq<Range>>)
    requires
        forall|k: int| 0 <= k < levels.len() ==> #[trigger] levels[k].len() == 0,
    ensures
        translate_through(addr, levels) == addr,
    decreases levels.len(),
{
    if levels.len() > 0 {
        assert(first_range(levels[0], addr) is None);
        assert forall|k: int| 0 <= k < levels.drop_first().len() implies #[trigger] levels.drop_first()[k].len() == 0 by {
            assert(levels.drop_first()[k] == levels[k + 1]);
        }
        lemma_translate_without_ranges(addr, levels.drop_first());
    }
}

} // verus!
