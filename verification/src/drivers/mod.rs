//! Platform device drivers.
pub mod clock_controller;
pub mod display;
pub mod dma_controller;
pub mod interrupt_controller;
pub mod mailbox;
pub mod mini_uart;
pub mod platform;
pub mod rng;
pub mod serial;
pub mod syscon;
pub mod timer;
pub mod watchdog;
pub mod usb;
pub mod video;

use vstd::prelude::*;

verus! {

/// Why a driver could not bring up a device.
#[derive(Debug, Copy, Clone, PartialEq, Eq, Structural)]
pub enum DriverInitError {
    DeviceReserved,
    DeviceDisabled,
    DeviceFailed,
    Retry,
    DeviceTreeError,
    ToDo,
}

/// A device instance created by a platform driver.
pub trait Device {
    /// One-time setup of the device, run once on the boot core.
    fn global_setup(&self);

    /// Per-core setup of the device.
    fn local_setup(&self);

    /// The device tree path of the device.
    fn path(&self) -> &str;
}

/// The devices of a registry as a map from device tree path to device: a later entry for a
/// path replaces an earlier one.
pub open spec fn device_map<T>(entries: Seq<(String, T)>) -> Map<Seq<char>, T>
    decreases entries.len(),
{
    if entries.len() == 0 {
        Map::empty()
    } else {
        device_map(entries.drop_last()).insert(entries.last().0@, entries.last().1)
    }
}

/// Entries past `i` that do not name `k` leave the device of `k` as the first `i` entries have it.
proof fn lemma_device_map_prefix<T>(entries: Seq<(String, T)>, i: int, k: Seq<char>)
    requires
        0 <= i <= entries.len(),
        forall|j: int| i <= j < entries.len() ==> #[trigger] entries[j].0@ != k,
    ensures
        device_map(entries).dom().contains(k) == device_map(entries.take(i)).dom().contains(k),
        device_map(entries)[k] == device_map(entries.take(i))[k],
    decreases entries.len() - i,
{
    if i < entries.len() {
        let s = entries.drop_last();
        assert(s.take(i) =~= entries.take(i));
        lemma_device_map_prefix(s, i, k);
    } else {
        assert(entries.take(i) =~= entries);
    }
}

/// Removing an entry that names `k` does not change the devices of other paths.
proof fn lemma_device_map_remove<T>(entries: Seq<(String, T)>, i: int, k: Seq<char>)
    requires
        0 <= i < entries.len(),
        entries[i].0@ == k,
    ensures
        device_map(entries.remove(i)).remove(k) =~= device_map(entries).remove(k),
    decreases entries.len(),
{
    let r = entries.remove(i);
    let s = entries.drop_last();
    assert(device_map(entries) == device_map(s).insert(entries.last().0@, entries.last().1));
    if i == entries.len() - 1 {
        assert(r =~= s);
        assert(device_map(entries).remove(k) =~= device_map(s).remove(k));
    } else {
        assert(r.len() == entries.len() - 1);
        assert(r.drop_last() =~= s.remove(i));
        assert(r.last() == entries.last());
        assert(device_map(r) == device_map(s.remove(i)).insert(r.last().0@, r.last().1));
        lemma_device_map_remove(s, i, k);
        let a = device_map(s.remove(i));
        let b = device_map(s);
        assert(a.remove(k) =~= b.remove(k));
        assert(a.insert(r.last().0@, r.last().1).remove(k) =~= b.insert(r.last().0@, r.last().1).remove(k)) by {
            assert forall|x| #[trigger] a.insert(r.last().0@, r.last().1).remove(k).dom().contains(x) implies
                b.insert(r.last().0@, r.last().1).remove(k).dom().contains(x) by {
                if x != r.last().0@ {
                    assert(a.remove(k).dom().contains(x));
                }
            }
            assert forall|x| #[trigger] b.insert(r.last().0@, r.last().1).remove(k).dom().contains(x) implies
                a.insert(r.last().0@, r.last().1).remove(k).dom().contains(x) by {
                if x != r.last().0@ {
                    assert(b.remove(k).dom().contains(x));
                }
            }
            assert forall|x| #[trigger] a.insert(r.last().0@, r.last().1).remove(k).dom().contains(x) implies
                a.insert(r.last().0@, r.last().1).remove(k)[x] == b.insert(r.last().0@, r.last().1).remove(k)[x] by {
                if x != r.last().0@ {
                    assert(a.remove(k)[x] == b.remove(k)[x]);
                }
            }
        }
    }
}

/// The devices that a platform driver brought up, by device tree path.
pub struct DriverRegistry<T> {
    devices: Vec<(String, T)>,
}

impl<T> DriverRegistry<T> {
    /// The devices by path.
    pub closed spec fn view(&self) -> Map<Seq<char>, T> {
        device_map(self.devices@)
    }

    /// An empty registry.
    pub fn new() -> (r: Self)
        ensures
            r.view() == Map::<Seq<char>, T>::empty(),
    {
        DriverRegistry { devices: Vec::new() }
    }

    /// Adds `device` under `path`, replacing the device registered there before.
    pub fn add_device(&mut self, path: String, device: T)
        ensures
            final(self).view() == old(self).view().insert(path@, device),
    {
        let _ = self.remove_device(&path);
        let ghost before = self.devices@;
        self.devices.push((path, device));
        assert(self.devices@.drop_last() =~= before);
    }

    /// Removes and returns the device registered under `path`.
    pub fn remove_device(&mut self, path: &String) -> (d: Option<T>)
        ensures
            d == (if old(self).view().dom().contains(path@) {
                Some(old(self).view()[path@])
            } else {
                None
            }),
            final(self).view() == old(self).view().remove(path@),
    {
        let ghost k = path@;
        let ghost orig = self.devices@;
        let mut found: Option<T> = None;
        let mut i = self.devices.len();
        while i > 0
            invariant
                k == path@,
                0 <= i <= self.devices@.len(),
                device_map(self.devices@).remove(k) =~= device_map(orig).remove(k),
                forall|j: int| i <= j < self.devices@.len() ==> #[trigger] self.devices@[j].0@ != k,
                found is None ==> (device_map(self.devices@).dom().contains(k) == device_map(
                    orig,
                ).dom().contains(k) && device_map(self.devices@)[k] == device_map(orig)[k]),
                found matches Some(v) ==> device_map(orig).dom().contains(k) && device_map(
                    orig,
                )[k] == v,
            decreases i,
        {
            i -= 1;
            if self.devices[i].0 == *path {
                let ghost before = self.devices@;
                proof {
                    lemma_device_map_prefix(before, i + 1, k);
                    assert(before.take(i + 1).drop_last() =~= before.take(i as int));
                    assert(device_map(before.take(i + 1)) == device_map(before.take(i as int)).insert(
                        before[i as int].0@,
                        before[i as int].1,
                    ));
                    lemma_device_map_remove(before, i as int, k);
                }
                let (_, dev) = self.devices.remove(i);
                proof {
                    assert forall|j: int| i <= j < self.devices@.len() implies #[trigger] self.devices@[j].0@
                        != k by {
                        assert(self.devices@[j] == before[j + 1]);
                    }
                }
                if found.is_none() {
                    found = Some(dev);
                }
            }
        }
        proof {
            lemma_device_map_prefix(self.devices@, 0, k);
            assert(self.devices@.take(0) =~= Seq::<(String, T)>::empty());
            assert(!device_map(self.devices@).dom().contains(k));
            assert(device_map(self.devices@) =~= device_map(self.devices@).remove(k));
        }
        found
    }

    /// The device registered under `path`.
    pub fn get_device(&self, path: &String) -> (d: Option<&T>)
        ensures
            d == (if self.view().dom().contains(path@) {
                Some(&self.view()[path@])
            } else {
                None
            }),
    {
        let ghost k = path@;
        let mut i = self.devices.len();
        while i > 0
            invariant
                k == path@,
                0 <= i <= self.devices@.len(),
                forall|j: int| i <= j < self.devices@.len() ==> #[trigger] self.devices@[j].0@ != k,
            decreases i,
        {
            i -= 1;
            if self.devices[i].0 == *path {
                proof {
                    let e = self.devices@;
                    lemma_device_map_prefix(e, i + 1, k);
                    assert(e.take(i + 1).drop_last() =~= e.take(i as int));
                    assert(device_map(e.take(i + 1)) == device_map(e.take(i as int)).insert(
                        e[i as int].0@,
                        e[i as int].1,
                    ));
                }
                return Some(&self.devices[i].1);
            }
        }
        proof {
            lemma_device_map_prefix(self.devices@, 0, k);
            assert(self.devices@.take(0) =~= Seq::<(String, T)>::empty());
        }
        None
    }

    /// The device registered under `path`, for callers that need it only as a [`Device`].
    pub fn get_device_opaque(&self, path: &String) -> (d: Option<&T>)
        ensures
            d == (if self.view().dom().contains(path@) {
                Some(&self.view()[path@])
            } else {
                None
            }),
    {
        self.get_device(path)
    }
}

/// The `status` property of a device tree node.
#[derive(Debug)]
pub enum StatusValue {
    Okay,
    Disabled,
    Reserved,
    Fail(String),
}

/// What the driver core reads of a device tree node: its path, its `compatible` list and its
/// `status`.
pub struct DeviceNode {
    pub path: String,
    pub compatible: Option<Vec<String>>,
    pub status: Option<StatusValue>,
}

/// A driver for the devices of one `compatible` string.
pub trait PlatformDriver {
    /// `c` is the compatible string of this driver. A driver states here what it supports;
    /// where it states nothing, any string may come.
    open spec fn compatible_is(&self, c: Seq<char>) -> bool {
        true
    }

    /// This driver may answer the bring-up of `node` with `failure` (`None` where the device
    /// came up). A driver states here what it does; where it states nothing, any answer may
    /// come.
    open spec fn init_outcome(&self, node: DeviceNode, failure: Option<DriverInitError>) -> bool {
        true
    }

    /// The compatible string that this driver supports.
    fn compatible(&self) -> (c: &str)
        ensures
            self.compatible_is(c@),
    ;

    /// Brings up a device instance for a device tree node.
    fn try_init(&self, node: &DeviceNode) -> (r: Result<(), DriverInitError>)
        ensures
            self.init_outcome(
                *node,
                match r {
                    Ok(_) => None,
                    Err(e) => Some(e),
                },
            ),
    ;
}

/// A node takes part in driver matching: it names a compatible string, and its status, where
/// it has one, is `okay`.
pub open spec fn node_enabled(node: &DeviceNode) -> bool {
    &&& node.compatible is Some
    &&& match node.status {
        None => true,
        Some(StatusValue::Okay) => true,
        Some(_) => false,
    }
}

/// The first driver in `drivers` whose compatible string is `c`.
pub open spec fn first_driver_for(drivers: Seq<Seq<char>>, c: Seq<char>) -> Option<int>
    decreases drivers.len(),
{
    if drivers.len() == 0 {
        None
    } else {
        match first_driver_for(drivers.drop_last(), c) {
            Some(i) => Some(i),
            None => if drivers.last() == c {
                Some(drivers.len() - 1)
            } else {
                None
            },
        }
    }
}

/// The driver of a node: for the first of its compatible strings that some driver supports,
/// the first such driver.
pub open spec fn matching_driver(compatible: Seq<Seq<char>>, drivers: Seq<Seq<char>>) -> Option<int>
    decreases compatible.len(),
{
    if compatible.len() == 0 {
        None
    } else {
        match first_driver_for(drivers, compatible[0]) {
            Some(i) => Some(i),
            None => matching_driver(compatible.drop_first(), drivers),
        }
    }
}

/// The strings of a list of `String`s.
pub open spec fn string_views(v: Seq<String>) -> Seq<Seq<char>> {
    v.map_values(|s: String| s@)
}

proof fn lemma_first_driver_step(drivers: Seq<Seq<char>>, c: Seq<char>, i: int)
    requires
        0 <= i < drivers.len(),
        first_driver_for(drivers.take(i), c) is None,
    ensures
        first_driver_for(drivers.take(i + 1), c) == (if drivers[i] == c {
            Some(i)
        } else {
            None::<int>
        }),
{
    assert(drivers.take(i + 1).drop_last() =~= drivers.take(i));
}

proof fn lemma_first_driver_prefix(drivers: Seq<Seq<char>>, c: Seq<char>, i: int)
    requires
        0 <= i <= drivers.len(),
        first_driver_for(drivers.take(i), c) is Some,
    ensures
        first_driver_for(drivers, c) == first_driver_for(drivers.take(i), c),
    decreases drivers.len() - i,
{
    if i < drivers.len() {
        let d = drivers.drop_last();
        assert(d.take(i) =~= drivers.take(i));
        lemma_first_driver_prefix(d, c, i);
    } else {
        assert(drivers.take(i) =~= drivers);
    }
}

proof fn lemma_first_driver_bound(drivers: Seq<Seq<char>>, c: Seq<char>)
    ensures
        first_driver_for(drivers, c) matches Some(i) ==> 0 <= i < drivers.len(),
    decreases drivers.len(),
{
    if drivers.len() > 0 {
        lemma_first_driver_bound(drivers.drop_last(), c);
    }
}

/// The first of `drivers` whose compatible string is `c`.
fn find_driver(drivers: &Vec<String>, c: &String) -> (r: Option<usize>)
    ensures
        r is Some <==> first_driver_for(string_views(drivers@), c@) is Some,
        r matches Some(i) ==> first_driver_for(string_views(drivers@), c@) == Some(i as int),
{
    let ghost ds = string_views(drivers@);
    let mut i: usize = 0;
    while i < drivers.len()
        invariant
            ds == string_views(drivers@),
            0 <= i <= drivers.len(),
            first_driver_for(ds.take(i as int), c@) is None,
        decreases drivers.len() - i,
    {
        proof {
            lemma_first_driver_step(ds, c@, i as int);
        }
        if drivers[i] == *c {
            proof {
                lemma_first_driver_prefix(ds, c@, i + 1);
            }
            return Some(i);
        }
        i += 1;
    }
    assert(ds.take(i as int) =~= ds);
    None
}

proof fn lemma_matching_driver_bound(compatible: Seq<Seq<char>>, drivers: Seq<Seq<char>>)
    ensures
        matching_driver(compatible, drivers) matches Some(i) ==> 0 <= i < drivers.len(),
    decreases compatible.len(),
{
    if compatible.len() > 0 {
        lemma_first_driver_bound(drivers, compatible[0]);
        lemma_matching_driver_bound(compatible.drop_first(), drivers);
    }
}

/// The driver for `node` among the drivers whose compatible strings are `drivers`: for the
/// first compatible string of the node that a driver supports, the first such driver.
pub fn match_driver(node: &DeviceNode, drivers: &Vec<String>) -> (r: Option<usize>)
    ensures
        r is Some <==> (node.compatible matches Some(c) && matching_driver(
            string_views(c@),
            string_views(drivers@),
        ) is Some),
        r matches Some(i) ==> (node.compatible matches Some(c) && matching_driver(
            string_views(c@),
            string_views(drivers@),
        ) == Some(i as int)),
{
    let compatible = match &node.compatible {
        Some(c) => c,
        None => {
            return None;
        },
    };
    let ghost cs = string_views(compatible@);
    let ghost ds = string_views(drivers@);
    proof {
        assert(cs.skip(0) =~= cs);
        lemma_matching_driver_bound(cs, ds);
    }
    let mut j: usize = 0;
    while j < compatible.len()
        invariant
            node.compatible == Some(*compatible),
            cs == string_views(compatible@),
            ds == string_views(drivers@),
            0 <= j <= compatible.len(),
            matching_driver(cs, ds) == matching_driver(cs.skip(j as int), ds),
        decreases compatible.len() - j,
    {
        let ghost rest = cs.skip(j as int);
        assert(rest[0] == cs[j as int]);
        assert(cs[j as int] == compatible@[j as int]@);
        assert(rest.drop_first() =~= cs.skip(j + 1));
        assert(matching_driver(rest, ds) == match first_driver_for(ds, rest[0]) {
            Some(i) => Some(i),
            None => matching_driver(rest.drop_first(), ds),
        });
        let cj = &compatible[j];
        assert(cj@ == rest[0]);
        let found = find_driver(drivers, cj);
        if let Some(i) = found {
            proof {
                assert(first_driver_for(ds, rest[0]) == Some(i as int));
                assert(matching_driver(rest, ds) == Some(i as int));
                assert(matching_driver(cs, ds) == Some(i as int));
                assert(node.compatible == Some(*compatible));
            }
            return Some(i);
        }
        j += 1;
    }
    assert(cs.skip(j as int).len() == 0);
    None
}

/// `x` is one of the nodes of `all`.
pub open spec fn is_one_of(all: Seq<DeviceNode>, x: DeviceNode) -> bool {
    exists|m: int| 0 <= m < all.len() && #[trigger] all[m] == x
}

/// What a bring-up round did with a node: `None` where no driver supports it, else what its
/// driver's `try_init` returned.
pub type InitOutcome = Option<Result<(), DriverInitError>>;

/// The node waits for the next round: its driver asked for a retry.
pub open spec fn retried(o: InitOutcome) -> bool {
    o matches Some(Err(DriverInitError::Retry))
}

/// The node's driver brought its device up.
pub open spec fn brought_up(o: InitOutcome) -> bool {
    o matches Some(Ok(_))
}

/// The nodes of `nodes`, in order, whose outcome in `outcomes` is a retry.
pub open spec fn kept_nodes(nodes: Seq<DeviceNode>, outcomes: Seq<InitOutcome>) -> Seq<DeviceNode>
    decreases nodes.len(),
{
    if nodes.len() == 0 {
        Seq::empty()
    } else {
        let rest = kept_nodes(nodes.drop_last(), outcomes.take(nodes.len() - 1));
        if retried(outcomes[nodes.len() - 1]) {
            rest.push(nodes.last())
        } else {
            rest
        }
    }
}

/// The retried nodes are among the nodes, and fewer where one of them came up.
proof fn lemma_kept_nodes(nodes: Seq<DeviceNode>, outcomes: Seq<InitOutcome>)
    requires
        nodes.len() == outcomes.len(),
    ensures
        kept_nodes(nodes, outcomes).len() <= nodes.len(),
        (exists|i: int| 0 <= i < outcomes.len() && brought_up(#[trigger] outcomes[i]))
            ==> kept_nodes(nodes, outcomes).len() < nodes.len(),
        forall|k: int|
            0 <= k < kept_nodes(nodes, outcomes).len() ==> is_one_of(nodes, #[trigger] kept_nodes(nodes, outcomes)[k]),
    decreases nodes.len(),
{
    if nodes.len() > 0 {
        let n = nodes.len() - 1;
        let init = nodes.drop_last();
        let prefix = outcomes.take(n);
        lemma_kept_nodes(init, prefix);
        let rest = kept_nodes(init, prefix);
        assert forall|k: int| 0 <= k < kept_nodes(nodes, outcomes).len() implies is_one_of(
            nodes,
            #[trigger] kept_nodes(nodes, outcomes)[k],
        ) by {
            if k < rest.len() {
                let x = rest[k];
                assert(is_one_of(init, x));
                let m = choose|m: int| 0 <= m < init.len() && init[m] == x;
                assert(nodes[m] == x);
            } else {
                assert(nodes[n] == nodes.last());
            }
        }
        if exists|i: int| 0 <= i < outcomes.len() && brought_up(#[trigger] outcomes[i]) {
            let i = choose|i: int| 0 <= i < outcomes.len() && brought_up(#[trigger] outcomes[i]);
            if i < n {
                assert(prefix[i] == outcomes[i]);
            }
        }
    }
}

/// A property of every retried node holds of every node kept.
proof fn lemma_kept_nodes_have(nodes: Seq<DeviceNode>, outcomes: Seq<InitOutcome>, p: spec_fn(DeviceNode) -> bool)
    requires
        nodes.len() == outcomes.len(),
        forall|j: int| 0 <= j < nodes.len() && retried(#[trigger] outcomes[j]) ==> p(nodes[j]),
    ensures
        forall|k: int| 0 <= k < kept_nodes(nodes, outcomes).len() ==> p(#[trigger] kept_nodes(nodes, outcomes)[k]),
    decreases nodes.len(),
{
    if nodes.len() > 0 {
        let n = nodes.len() - 1;
        let prefix = outcomes.take(n);
        assert forall|j: int| 0 <= j < n && retried(#[trigger] prefix[j]) implies p(nodes.drop_last()[j]) by {
            assert(prefix[j] == outcomes[j]);
        }
        lemma_kept_nodes_have(nodes.drop_last(), prefix, p);
        let rest = kept_nodes(nodes.drop_last(), prefix);
        assert forall|k: int| 0 <= k < kept_nodes(nodes, outcomes).len() implies p(
            #[trigger] kept_nodes(nodes, outcomes)[k],
        ) by {
            if k < rest.len() {
                assert(kept_nodes(nodes, outcomes)[k] == rest[k]);
            } else {
                assert(retried(outcomes[n]));
                assert(kept_nodes(nodes, outcomes)[k] == nodes[n]);
            }
        }
    }
}

/// The failure a bring-up answered with (`None` for success).
pub open spec fn failure_of(r: Result<(), DriverInitError>) -> Option<DriverInitError> {
    match r {
        Ok(_) => None,
        Err(e) => Some(e),
    }
}

/// The compatible strings of a node (none where it has no `compatible` property).
pub open spec fn compat_views(node: DeviceNode) -> Seq<Seq<char>> {
    match node.compatible {
        Some(c) => string_views(c@),
        None => Seq::empty(),
    }
}

/// `table` holds the compatible strings of `drivers`, in order.
pub open spec fn driver_table<D: PlatformDriver>(drivers: Seq<D>, table: Seq<Seq<char>>) -> bool {
    &&& table.len() == drivers.len()
    &&& forall|d: int| 0 <= d < drivers.len() ==> #[trigger] drivers[d].compatible_is(table[d])
}

/// What a round did with `node`: where a driver of `table` matches it, that driver was asked and
/// answered `o`; where none matches, nothing was asked.
pub open spec fn outcome_recorded<D: PlatformDriver>(
    drivers: Seq<D>,
    table: Seq<Seq<char>>,
    node: DeviceNode,
    o: InitOutcome,
) -> bool {
    match matching_driver(compat_views(node), table) {
        None => o is None,
        Some(i) => 0 <= i < drivers.len() && (o matches Some(r) && drivers[i].init_outcome(node, failure_of(r))),
    }
}

/// The enabled nodes of `nodes`, in order.
pub open spec fn enabled_of(nodes: Seq<DeviceNode>) -> Seq<DeviceNode> {
    nodes.filter(|n: DeviceNode| node_enabled(&n))
}

/// The nodes of `nodes` that take part in driver matching (see [`node_enabled`]), in order.
pub fn enabled_nodes(nodes: Vec<DeviceNode>) -> (r: Vec<DeviceNode>)
    ensures
        r@ == enabled_of(nodes@),
{
    let ghost all = nodes@;
    let mut pending: Vec<DeviceNode> = Vec::new();
    let mut nodes = nodes;
    let ghost mut taken: int = 0;
    while nodes.len() > 0
        invariant
            0 <= taken <= all.len(),
            nodes@ == all.skip(taken),
            pending@ == enabled_of(all.take(taken)),
        decreases nodes@.len(),
    {
        let node = nodes.remove(0);
        proof {
            assert(node == all[taken]);
            assert(nodes@ =~= all.skip(taken + 1));
            assert(all.take(taken + 1).drop_last() =~= all.take(taken));
            assert(all.take(taken + 1).last() == node);
            reveal(Seq::filter);
            taken = taken + 1;
        }
        let enabled = match &node.status {
            None => true,
            Some(StatusValue::Okay) => true,
            Some(_) => false,
        };
        if node.compatible.is_some() && enabled {
            pending.push(node);
        }
    }
    assert(all.take(taken) =~= all);
    pending
}

/// Where no node was handed to a driver, no node is retried.
proof fn lemma_kept_nodes_none(nodes: Seq<DeviceNode>, outcomes: Seq<InitOutcome>)
    requires
        nodes.len() == outcomes.len(),
        forall|k: int| 0 <= k < outcomes.len() ==> #[trigger] outcomes[k] is None,
    ensures
        kept_nodes(nodes, outcomes).len() == 0,
    decreases nodes.len(),
{
    if nodes.len() > 0 {
        let prefix = outcomes.take(nodes.len() - 1);
        assert forall|k: int| 0 <= k < prefix.len() implies #[trigger] prefix[k] is None by {
            assert(prefix[k] == outcomes[k]);
        }
        lemma_kept_nodes_none(nodes.drop_last(), prefix);
        assert(outcomes[nodes.len() - 1] is None);
    }
}

/// The end of a bring-up round: the nodes whose driver asked for a retry stay, in order, and
/// the round made progress when some driver brought its device up.
pub fn finish_round(nodes: Vec<DeviceNode>, outcomes: &Vec<InitOutcome>) -> (r: (Vec<DeviceNode>, bool))
    requires
        nodes@.len() == outcomes@.len(),
    ensures
        r.0@ == kept_nodes(nodes@, outcomes@),
        r.1 == exists|i: int| 0 <= i < outcomes@.len() && brought_up(#[trigger] outcomes@[i]),
{
    let ghost all = nodes@;
    let mut nodes = nodes;
    let mut still: Vec<DeviceNode> = Vec::new();
    let mut progress = false;
    let mut i: usize = 0;
    while nodes.len() > 0
        invariant
            all.len() == outcomes@.len(),
            0 <= i <= all.len(),
            nodes@ == all.skip(i as int),
            still@ == kept_nodes(all.take(i as int), outcomes@.take(i as int)),
            progress == exists|j: int| 0 <= j < i && brought_up(#[trigger] outcomes@[j]),
        decreases nodes@.len(),
    {
        assert(i < all.len());
        assert(i < outcomes.len());
        let node = nodes.remove(0);
        proof {
            assert(node == all[i as int]);
            assert(nodes@ =~= all.skip(i + 1));
            let t = all.take(i + 1);
            assert(t.drop_last() =~= all.take(i as int));
            assert(outcomes@.take(i + 1).take(i as int) =~= outcomes@.take(i as int));
            assert(outcomes@.take(i + 1)[i as int] == outcomes@[i as int]);
        }
        let o = outcomes[i];
        match o {
            Some(Err(DriverInitError::Retry)) => {
                still.push(node);
            },
            Some(Ok(())) => {
                progress = true;
            },
            _ => {},
        }
        i += 1;
    }
    assert(all.take(i as int) =~= all);
    assert(outcomes@.take(i as int) =~= outcomes@);
    (still, progress)
}

/// Some driver brought its device up in a round that ended with `outcomes`.
pub open spec fn round_progress(outcomes: Seq<InitOutcome>) -> bool {
    exists|i: int| 0 <= i < outcomes.len() && brought_up(#[trigger] outcomes[i])
}

/// A round handed each node of `round` to the driver of `table` that matches it, and `outcomes`
/// records what each answered (see [`outcome_recorded`]).
pub open spec fn round_recorded<D: PlatformDriver>(
    drivers: Seq<D>,
    table: Seq<Seq<char>>,
    round: Seq<DeviceNode>,
    outcomes: Seq<InitOutcome>,
) -> bool {
    &&& outcomes.len() == round.len()
    &&& forall|m: int| 0 <= m < round.len() ==> outcome_recorded(drivers, table, round[m], #[trigger] outcomes[m])
}

/// Round `k + 1` followed round `k`: round `k` brought some device up and left nodes that asked
/// for a retry, and exactly those nodes, in order, were tried again.
pub open spec fn round_followed(rounds: Seq<Seq<DeviceNode>>, outs: Seq<Seq<InitOutcome>>, k: int) -> bool {
    &&& round_progress(outs[k])
    &&& kept_nodes(rounds[k], outs[k]).len() > 0
    &&& rounds[k + 1] == kept_nodes(rounds[k], outs[k])
}

/// The bring-up of the nodes `start` went through the rounds `rounds` (the nodes each round
/// tried) with the answers `outs`, and left `waiting`: the first round tries every node of
/// `start`; a round follows only a round that made progress and left nodes to retry; the last
/// round made no progress or left nothing; `waiting` are the nodes the last round kept.
pub open spec fn bring_up_trace<D: PlatformDriver>(
    drivers: Seq<D>,
    table: Seq<Seq<char>>,
    start: Seq<DeviceNode>,
    rounds: Seq<Seq<DeviceNode>>,
    outs: Seq<Seq<InitOutcome>>,
    waiting: Seq<DeviceNode>,
) -> bool {
    &&& rounds.len() == outs.len()
    &&& forall|k: int| 0 <= k < rounds.len() ==> round_recorded(drivers, table, #[trigger] rounds[k], outs[k])
    &&& forall|k: int| 0 <= k < rounds.len() - 1 ==> #[trigger] round_followed(rounds, outs, k)
    &&& rounds.len() == 0 ==> start.len() == 0 && waiting == start
    &&& rounds.len() > 0 ==> {
        &&& rounds[0] == start
        &&& waiting == kept_nodes(rounds.last(), outs.last())
        &&& (!round_progress(outs.last()) || waiting.len() == 0)
    }
}

/// Brings up the drivers of the enabled nodes among `nodes` (see [`enabled_nodes`]), with
/// `drivers` in the order of the driver table. In each round every waiting node is handed to
/// the driver that [`match_driver`] picks; nodes that no driver supports, and nodes whose driver
/// fails for good, are dropped, and the nodes whose driver asks for a retry wait for the next
/// round (see [`finish_round`]), until a round brings up no device. Returns the nodes still
/// waiting then.
pub fn init_platform_drivers<D: PlatformDriver>(nodes: Vec<DeviceNode>, drivers: &Vec<D>) -> (waiting: Vec<
    DeviceNode,
>)
    ensures
        waiting@.len() <= nodes@.len(),
        forall|k: int|
            0 <= k < waiting@.len() ==> node_enabled(&#[trigger] waiting@[k]) && is_one_of(
                nodes@,
                waiting@[k],
            ),
        drivers@.len() == 0 ==> waiting@.len() == 0,
        exists|table: Seq<Seq<char>>|
            #![trigger driver_table(drivers@, table)]
            {
                &&& driver_table(drivers@, table)
                &&& forall|m: int|
                    0 <= m < enabled_of(nodes@).len() ==> (matching_driver(
                        compat_views(#[trigger] enabled_of(nodes@)[m]),
                        table,
                    ) matches Some(i) ==> exists|o: Option<DriverInitError>|
                        drivers@[i].init_outcome(enabled_of(nodes@)[m], o))
                &&& forall|k: int|
                    0 <= k < waiting@.len() ==> (matching_driver(compat_views(#[trigger] waiting@[k]), table) matches Some(
                        i,
                    ) && 0 <= i < drivers@.len() && drivers@[i].init_outcome(
                        waiting@[k],
                        Some(DriverInitError::Retry),
                    ))
                &&& exists|rounds: Seq<Seq<DeviceNode>>, outs: Seq<Seq<InitOutcome>>|
                    bring_up_trace(drivers@, table, enabled_of(nodes@), rounds, outs, waiting@)
            },
{
    let mut table: Vec<String> = Vec::new();
    let mut d: usize = 0;
    while d < drivers.len()
        invariant
            0 <= d <= drivers.len(),
            table@.len() == d,
            forall|k: int| 0 <= k < d ==> #[trigger] drivers@[k].compatible_is(table@[k]@),
        decreases drivers.len() - d,
    {
        let c = drivers[d].compatible();
        table.push(c.to_owned());
        d += 1;
    }
    let ghost tbl = string_views(table@);
    assert(driver_table(drivers@, tbl)) by {
        assert forall|k: int| 0 <= k < drivers@.len() implies #[trigger] drivers@[k].compatible_is(tbl[k]) by {
            assert(tbl[k] == table@[k]@);
        }
    }

    let ghost all = nodes@;
    let ghost filtered = enabled_of(all);
    let mut pending = enabled_nodes(nodes);
    proof {
        assert forall|k: int| 0 <= k < pending@.len() implies node_enabled(&#[trigger] pending@[k]) && is_one_of(
            all,
            pending@[k],
        ) by {
            let pred = |n: DeviceNode| node_enabled(&n);
            assert(filtered == all.filter(pred));
            all.lemma_filter_pred(pred, k);
            assert(filtered.contains(pending@[k]));
            all.lemma_filter_contains_rev(pred, pending@[k]);
            let m = choose|m: int| 0 <= m < all.len() && all[m] == pending@[k];
            assert(all[m] == pending@[k]);
        }
        all.lemma_filter_len(|n: DeviceNode| node_enabled(&n));
    }
    let ghost mut first_done = false;
    let ghost mut rounds: Seq<Seq<DeviceNode>> = Seq::empty();
    let ghost mut outs: Seq<Seq<InitOutcome>> = Seq::empty();
    let mut progress = true;
    while progress && pending.len() > 0
        invariant
            pending@.len() <= all.len(),
            forall|k: int|
                0 <= k < pending@.len() ==> node_enabled(&#[trigger] pending@[k]) && is_one_of(
                    all,
                    pending@[k],
                ),
            drivers@.len() == 0 ==> progress || pending@.len() == 0,
            driver_table(drivers@, tbl),
            tbl == string_views(table@),
            filtered == enabled_of(all),
            !first_done ==> progress && pending@ == filtered,
            first_done ==> forall|m: int|
                0 <= m < filtered.len() ==> (matching_driver(compat_views(#[trigger] filtered[m]), tbl) matches Some(i)
                    ==> exists|o: Option<DriverInitError>| drivers@[i].init_outcome(filtered[m], o)),
            first_done ==> forall|k: int|
                0 <= k < pending@.len() ==> (matching_driver(compat_views(#[trigger] pending@[k]), tbl) matches Some(
                    i,
                ) && 0 <= i < drivers@.len() && drivers@[i].init_outcome(pending@[k], Some(DriverInitError::Retry))),
            first_done == (rounds.len() > 0),
            rounds.len() == outs.len(),
            forall|k: int| 0 <= k < rounds.len() ==> round_recorded(drivers@, tbl, #[trigger] rounds[k], outs[k]),
            forall|k: int| 0 <= k < rounds.len() - 1 ==> #[trigger] round_followed(rounds, outs, k),
            rounds.len() > 0 ==> {
                &&& rounds[0] == filtered
                &&& pending@ == kept_nodes(rounds.last(), outs.last())
                &&& progress == round_progress(outs.last())
            },
        decreases pending@.len() + if progress { 1int } else { 0int },
    {
        let mut outcomes: Vec<InitOutcome> = Vec::new();
        let mut j: usize = 0;
        while j < pending.len()
            invariant
                0 <= j <= pending@.len(),
                outcomes@.len() == j,
                drivers@.len() == 0 ==> forall|k: int| 0 <= k < j ==> #[trigger] outcomes@[k] is None,
                driver_table(drivers@, tbl),
                tbl == string_views(table@),
                forall|k: int| 0 <= k < j ==> outcome_recorded(drivers@, tbl, pending@[k], #[trigger] outcomes@[k]),
            decreases pending@.len() - j,
        {
            let node = &pending[j];
            proof {
                lemma_matching_driver_bound(compat_views(*node), tbl);
            }
            let outcome = match match_driver(node, &table) {
                Some(i) => {
                    if i < drivers.len() {
                        Some(drivers[i].try_init(node))
                    } else {
                        None
                    }
                },
                None => None,
            };
            outcomes.push(outcome);
            proof {
                assert(outcomes@[j as int] == outcome);
                assert(outcome_recorded(drivers@, tbl, pending@[j as int], outcome));
            }
            j += 1;
        }
        let ghost before = pending@;
        proof {
            lemma_kept_nodes(before, outcomes@);
            if drivers@.len() == 0 {
                lemma_kept_nodes_none(before, outcomes@);
            }
            let p = |n: DeviceNode|
                matching_driver(compat_views(n), tbl) matches Some(i) && 0 <= i < drivers@.len()
                    && drivers@[i].init_outcome(n, Some(DriverInitError::Retry));
            assert forall|jj: int| 0 <= jj < before.len() && retried(#[trigger] outcomes@[jj]) implies p(before[jj]) by {
                assert(outcome_recorded(drivers@, tbl, before[jj], outcomes@[jj]));
            }
            lemma_kept_nodes_have(before, outcomes@, p);
            if !first_done {
                assert forall|m: int|
                    0 <= m < filtered.len() implies (matching_driver(compat_views(#[trigger] filtered[m]), tbl) matches Some(i)
                        ==> exists|o: Option<DriverInitError>| drivers@[i].init_outcome(filtered[m], o)) by {
                    assert(outcome_recorded(drivers@, tbl, before[m], outcomes@[m]));
                    match matching_driver(compat_views(filtered[m]), tbl) {
                        Some(i) => {
                            let r = outcomes@[m]->0;
                            assert(drivers@[i].init_outcome(filtered[m], failure_of(r)));
                        },
                        None => {},
                    }
                }
            }
        }
        let (still, round_progress) = finish_round(pending, &outcomes);
        proof {
            assert(round_recorded(drivers@, tbl, before, outcomes@));
            let old_rounds = rounds;
            let old_outs = outs;
            rounds = rounds.push(before);
            outs = outs.push(outcomes@);
            assert forall|k: int| 0 <= k < rounds.len() implies round_recorded(drivers@, tbl, #[trigger] rounds[k], outs[k]) by {
                if k < old_rounds.len() {
                    assert(rounds[k] == old_rounds[k]);
                    assert(outs[k] == old_outs[k]);
                }
            }
            assert forall|k: int| 0 <= k < rounds.len() - 1 implies #[trigger] round_followed(rounds, outs, k) by {
                assert(rounds[k] == old_rounds[k]);
                assert(outs[k] == old_outs[k]);
                if k < old_rounds.len() - 1 {
                    assert(round_followed(old_rounds, old_outs, k));
                    assert(rounds[k + 1] == old_rounds[k + 1]);
                } else {
                    assert(rounds[k + 1] == before);
                }
            }
            if old_rounds.len() == 0 {
                assert(rounds[0] == before);
            } else {
                assert(rounds[0] == old_rounds[0]);
            }
            assert(rounds.last() == before);
            assert(outs.last() == outcomes@);
            assert forall|k: int| 0 <= k < still@.len() implies node_enabled(&#[trigger] still@[k])
                && is_one_of(all, still@[k]) by {
                let x = still@[k];
                assert(is_one_of(before, x));
                let m = choose|m: int| 0 <= m < before.len() && before[m] == x;
                assert(node_enabled(&before[m]) && is_one_of(all, before[m]));
            }
            first_done = true;
        }
        pending = still;
        progress = round_progress;
    }
    proof {
        if rounds.len() == 0 {
            assert(pending@ == filtered);
        }
        assert(bring_up_trace(drivers@, tbl, filtered, rounds, outs, pending@));
    }
    pending
}

} // verus!
