use vstd::prelude::*;

verus! {

/// The kind of a resource whose lifetime a device tracks.
#[derive(Clone, Copy, Debug, PartialEq, Eq, Structural)]
pub enum ResourceKind {
    Buffer,
    Image,
    ImageView,
    Sampler,
}

/// One resource of a device: its kind, its native id, and how many
/// references to it are held. A resource with no reference left has been
/// destroyed, and stays so.
#[derive(Clone, Copy, Debug)]
pub struct Slot {
    pub kind: ResourceKind,
    pub id: u64,
    pub refs: u64,
}

/// The abstract state of a device: its native handle, how many `Device`
/// references its users hold, every resource created from it, and whether
/// the native device has been destroyed.
pub struct DeviceView {
    pub handle: u64,
    pub holders: nat,
    pub slots: Seq<Slot>,
    pub destroyed: bool,
}

/// A teardown that the ledger decides on: a resource, by its slot, or the device.
pub enum Teardown {
    Resource(nat),
    Device,
}

/// A reference-count operation on a device or on one of its resources.
pub enum Op {
    AcquireDevice,
    ReleaseDevice,
    CloneResource(nat),
    DropResource(nat),
}

/// How many resources of `slots` are still live.
pub open spec fn live_count(slots: Seq<Slot>) -> nat
    decreases slots.len(),
{
    if slots.len() == 0 {
        0
    } else {
        live_count(slots.drop_last()) + if slots.last().refs > 0 {
            1nat
        } else {
            0nat
        }
    }
}

/// How many times `t` occurs in `s`.
pub open spec fn occurrences(s: Seq<Teardown>, t: Teardown) -> nat
    decreases s.len(),
{
    if s.len() == 0 {
        0
    } else {
        occurrences(s.drop_last(), t) + if s.last() == t {
            1nat
        } else {
            0nat
        }
    }
}

impl DeviceView {
    /// The native device is destroyed exactly when no reference to it is
    /// left: neither a `Device` held by a user nor a live resource.
    pub open spec fn valid(self) -> bool {
        self.destroyed <==> (self.holders == 0 && live_count(self.slots) == 0)
    }

    /// Whether slot `s` is a live resource of kind `kind` with native id `id`.
    pub open spec fn holds(self, s: nat, kind: ResourceKind, id: u64) -> bool {
        &&& s < self.slots.len()
        &&& self.slots[s as int].kind == kind
        &&& self.slots[s as int].id == id
        &&& self.slots[s as int].refs > 0
    }

    /// Whether slot `s` is a live resource.
    pub open spec fn is_live(self, s: nat) -> bool {
        s < self.slots.len() && self.slots[s as int].refs > 0
    }

    /// The state after slot `s` has gone to `refs` references.
    pub open spec fn with_refs(self, s: nat, refs: u64) -> DeviceView {
        let slots = self.slots.update(s as int, Slot { refs: refs, ..self.slots[s as int] });
        DeviceView {
            handle: self.handle,
            holders: self.holders,
            slots: slots,
            destroyed: self.holders == 0 && live_count(slots) == 0,
        }
    }

    /// The state after a resource of kind `kind` and id `id` was created,
    /// with one reference.
    pub open spec fn with_resource(self, kind: ResourceKind, id: u64) -> DeviceView {
        DeviceView {
            handle: self.handle,
            holders: self.holders,
            slots: self.slots.push(Slot { kind: kind, id: id, refs: 1 }),
            destroyed: self.destroyed,
        }
    }
}

/// Whether `op` may be applied in state `m`: a `Device` reference is held
/// to clone or release one, and a resource is live to clone or drop it.
pub open spec fn enabled(m: DeviceView, op: Op) -> bool {
    match op {
        Op::AcquireDevice => m.holders > 0,
        Op::ReleaseDevice => m.holders > 0,
        Op::CloneResource(s) => m.is_live(s) && m.slots[s as int].refs < u64::MAX,
        Op::DropResource(s) => m.is_live(s),
    }
}

/// The state after `op`.
pub open spec fn next(m: DeviceView, op: Op) -> DeviceView {
    match op {
        Op::AcquireDevice => DeviceView {
            handle: m.handle,
            holders: m.holders + 1,
            slots: m.slots,
            destroyed: m.destroyed,
        },
        Op::ReleaseDevice => DeviceView {
            handle: m.handle,
            holders: (m.holders - 1) as nat,
            slots: m.slots,
            destroyed: m.holders == 1 && live_count(m.slots) == 0,
        },
        Op::CloneResource(s) => m.with_refs(s, (m.slots[s as int].refs + 1) as u64),
        Op::DropResource(s) => m.with_refs(s, (m.slots[s as int].refs - 1) as u64),
    }
}

/// The teardowns that `op` decides on in state `m`, in the order in which
/// they are to run: a resource before the device it was created from.
pub open spec fn teardowns(m: DeviceView, op: Op) -> Seq<Teardown> {
    match op {
        Op::ReleaseDevice => if m.holders == 1 && live_count(m.slots) == 0 {
            seq![Teardown::Device]
        } else {
            seq![]
        },
        Op::DropResource(s) => if m.slots[s as int].refs == 1 {
            if m.holders == 0 && live_count(m.slots) == 1 {
                seq![Teardown::Resource(s), Teardown::Device]
            } else {
                seq![Teardown::Resource(s)]
            }
        } else {
            seq![]
        },
        _ => seq![],
    }
}

/// Whether every operation of `ops` is enabled in turn from `m`.
pub open spec fn runnable(m: DeviceView, ops: Seq<Op>) -> bool
    decreases ops.len(),
{
    if ops.len() == 0 {
        true
    } else {
        runnable(m, ops.drop_last()) && enabled(run(m, ops.drop_last()), ops.last())
    }
}

/// The state after the operations of `ops`, in order.
pub open spec fn run(m: DeviceView, ops: Seq<Op>) -> DeviceView
    decreases ops.len(),
{
    if ops.len() == 0 {
        m
    } else {
        next(run(m, ops.drop_last()), ops.last())
    }
}

/// Every teardown decided on while the operations of `ops` run, in order.
pub open spec fn run_teardowns(m: DeviceView, ops: Seq<Op>) -> Seq<Teardown>
    decreases ops.len(),
{
    if ops.len() == 0 {
        seq![]
    } else {
        run_teardowns(m, ops.drop_last()) + teardowns(run(m, ops.drop_last()), ops.last())
    }
}

pub proof fn lemma_live_count_update(slots: Seq<Slot>, i: int, v: Slot)
    requires
        0 <= i < slots.len(),
    ensures
        live_count(slots.update(i, v)) + (if slots[i].refs > 0 { 1int } else { 0int })
            == live_count(slots) + (if v.refs > 0 { 1int } else { 0int }),
    decreases slots.len(),
{
    let u = slots.update(i, v);
    if i == slots.len() - 1 {
        assert(u.drop_last() =~= slots.drop_last());
    } else {
        lemma_live_count_update(slots.drop_last(), i, v);
        assert(u.drop_last() =~= slots.drop_last().update(i, v));
    }
}

pub proof fn lemma_live_count_push(slots: Seq<Slot>, v: Slot)
    ensures
        live_count(slots.push(v)) == live_count(slots) + if v.refs > 0 { 1nat } else { 0nat },
{
    assert(slots.push(v).drop_last() =~= slots);
}

pub proof fn lemma_live_count_bound(slots: Seq<Slot>)
    ensures
        live_count(slots) <= slots.len(),
    decreases slots.len(),
{
    if slots.len() > 0 {
        lemma_live_count_bound(slots.drop_last());
    }
}

/// A live slot counts among the live resources.
pub proof fn lemma_live_count_positive(slots: Seq<Slot>, i: int)
    requires
        0 <= i < slots.len(),
        slots[i].refs > 0,
    ensures
        live_count(slots) >= 1,
{
    lemma_live_count_update(slots, i, slots[i]);
    assert(slots.update(i, slots[i]) =~= slots);
    lemma_live_count_update(slots, i, Slot { refs: 0, ..slots[i] });
}

pub proof fn lemma_occurrences_append(a: Seq<Teardown>, b: Seq<Teardown>, t: Teardown)
    ensures
        occurrences(a + b, t) == occurrences(a, t) + occurrences(b, t),
    decreases b.len(),
{
    if b.len() == 0 {
        assert(a + b =~= a);
    } else {
        lemma_occurrences_append(a, b.drop_last(), t);
        assert((a + b).drop_last() =~= a + b.drop_last());
    }
}

pub proof fn lemma_occurrences_pair(a: Teardown, b: Teardown, t: Teardown)
    ensures
        occurrences(seq![a], t) == if a == t { 1nat } else { 0nat },
        occurrences(seq![a, b], t) == occurrences(seq![a], t) + if b == t { 1nat } else { 0nat },
{
    assert(seq![a].drop_last() =~= Seq::<Teardown>::empty());
    assert(occurrences(Seq::<Teardown>::empty(), t) == 0);
    assert(seq![a, b].drop_last() =~= seq![a]);
}

/// Each operation keeps the device's state valid, keeps its resources'
/// kinds and ids, and never brings a destroyed resource or device back.
pub proof fn lemma_step(m: DeviceView, op: Op)
    requires
        m.valid(),
        enabled(m, op),
    ensures
        next(m, op).valid(),
        next(m, op).handle == m.handle,
        next(m, op).slots.len() == m.slots.len(),
        forall|i: int|
            0 <= i < m.slots.len() ==> {
                &&& #[trigger] next(m, op).slots[i].kind == m.slots[i].kind
                &&& next(m, op).slots[i].id == m.slots[i].id
                &&& (m.slots[i].refs == 0 ==> next(m, op).slots[i].refs == 0)
            },
        m.destroyed ==> next(m, op).destroyed,
{
    match op {
        Op::CloneResource(s) => {
            lemma_live_count_update(m.slots, s as int, Slot { refs: (m.slots[s as int].refs + 1) as u64, ..m.slots[s as int] });
        },
        Op::DropResource(s) => {
            lemma_live_count_positive(m.slots, s as int);
            lemma_live_count_update(m.slots, s as int, Slot { refs: (m.slots[s as int].refs - 1) as u64, ..m.slots[s as int] });
        },
        _ => {},
    }
}

/// One operation decides on the teardown of resource `s` exactly when it
/// drops the last reference to it, and on the teardown of the device
/// exactly when no reference to the device is left afterwards.
pub proof fn lemma_step_teardowns(m: DeviceView, op: Op, s: nat)
    requires
        m.valid(),
        enabled(m, op),
        s < m.slots.len(),
    ensures
        occurrences(teardowns(m, op), Teardown::Resource(s)) == if m.is_live(s) && !next(m, op).is_live(s) { 1nat } else { 0nat },
        occurrences(teardowns(m, op), Teardown::Resource(s)) == 1 ==> op == Op::DropResource(s) && m.slots[s as int].refs == 1,
        occurrences(teardowns(m, op), Teardown::Device) == if !m.destroyed && next(m, op).destroyed { 1nat } else { 0nat },
{
    lemma_step(m, op);
    let t = teardowns(m, op);
    assert(t.len() == 0 ==> occurrences(t, Teardown::Resource(s)) == 0);
    assert(t.len() == 0 ==> occurrences(t, Teardown::Device) == 0);
    match op {
        Op::DropResource(d) => {
            if m.slots[d as int].refs == 1 {
                lemma_occurrences_pair(Teardown::Resource(d), Teardown::Device, Teardown::Resource(s));
                lemma_occurrences_pair(Teardown::Resource(d), Teardown::Device, Teardown::Device);
            }
            lemma_live_count_positive(m.slots, d as int);
            lemma_live_count_update(m.slots, d as int, Slot { refs: (m.slots[d as int].refs - 1) as u64, ..m.slots[d as int] });
        },
        Op::ReleaseDevice => {
            lemma_occurrences_pair(Teardown::Device, Teardown::Device, Teardown::Resource(s));
            lemma_occurrences_pair(Teardown::Device, Teardown::Device, Teardown::Device);
        },
        Op::CloneResource(d) => {
            lemma_live_count_update(m.slots, d as int, Slot { refs: (m.slots[d as int].refs + 1) as u64, ..m.slots[d as int] });
        },
        Op::AcquireDevice => {},
    }
}

/// One operation decides on the teardown of the device exactly when no
/// reference to the device is left afterwards.
pub proof fn lemma_step_teardowns_device(m: DeviceView, op: Op)
    requires
        m.valid(),
        enabled(m, op),
    ensures
        occurrences(teardowns(m, op), Teardown::Device) == if !m.destroyed && next(m, op).destroyed { 1nat } else { 0nat },
{
    match op {
        Op::ReleaseDevice => {
            lemma_occurrences_pair(Teardown::Device, Teardown::Device, Teardown::Device);
        },
        Op::AcquireDevice => {
            assert(occurrences(teardowns(m, op), Teardown::Device) == 0);
        },
        Op::CloneResource(s) => {
            lemma_step_teardowns(m, op, s);
        },
        Op::DropResource(s) => {
            lemma_step_teardowns(m, op, s);
        },
    }
}

/// A run of operations keeps the device's state valid, keeps its handle and
/// its resources' kinds and ids, and never brings a destroyed resource or
/// device back.
pub proof fn lemma_run(m: DeviceView, ops: Seq<Op>)
    requires
        m.valid(),
        runnable(m, ops),
    ensures
        run(m, ops).valid(),
        run(m, ops).handle == m.handle,
        run(m, ops).slots.len() == m.slots.len(),
        forall|i: int|
            0 <= i < m.slots.len() ==> {
                &&& #[trigger] run(m, ops).slots[i].kind == m.slots[i].kind
                &&& run(m, ops).slots[i].id == m.slots[i].id
                &&& (m.slots[i].refs == 0 ==> run(m, ops).slots[i].refs == 0)
            },
        m.destroyed ==> run(m, ops).destroyed,
    decreases ops.len(),
{
    if ops.len() > 0 {
        let front = ops.drop_last();
        lemma_run(m, front);
        lemma_step(run(m, front), ops.last());
    }
}

/// Whatever clones and drops run, the native destroy of a resource is
/// decided on exactly once if its last reference was dropped during the
/// run, and never otherwise: never early, never twice, never skipped.
pub proof fn lemma_resource_destroyed_once(m: DeviceView, ops: Seq<Op>, s: nat)
    requires
        m.valid(),
        runnable(m, ops),
        s < m.slots.len(),
    ensures
        occurrences(run_teardowns(m, ops), Teardown::Resource(s)) == if m.is_live(s) && !run(m, ops).is_live(s) { 1nat } else { 0nat },
    decreases ops.len(),
{
    if ops.len() > 0 {
        let front = ops.drop_last();
        let mid = run(m, front);
        lemma_resource_destroyed_once(m, front, s);
        lemma_run(m, front);
        lemma_step(mid, ops.last());
        lemma_step_teardowns(mid, ops.last(), s);
        lemma_occurrences_append(run_teardowns(m, front), teardowns(mid, ops.last()), Teardown::Resource(s));
    } else {
        assert(occurrences(run_teardowns(m, ops), Teardown::Resource(s)) == 0);
    }
}

/// Whatever clones and drops run, the native destroy of the device is
/// decided on exactly once if its last reference went during the run, and
/// never otherwise.
pub proof fn lemma_device_destroyed_once(m: DeviceView, ops: Seq<Op>)
    requires
        m.valid(),
        runnable(m, ops),
    ensures
        occurrences(run_teardowns(m, ops), Teardown::Device) == if !m.destroyed && run(m, ops).destroyed { 1nat } else { 0nat },
        run(m, ops).destroyed <==> (run(m, ops).holders == 0 && live_count(run(m, ops).slots) == 0),
    decreases ops.len(),
{
    lemma_run(m, ops);
    if ops.len() > 0 {
        let front = ops.drop_last();
        let mid = run(m, front);
        lemma_device_destroyed_once(m, front);
        lemma_run(m, front);
        lemma_step(mid, ops.last());
        lemma_step_teardowns_device(mid, ops.last());
        lemma_occurrences_append(run_teardowns(m, front), teardowns(mid, ops.last()), Teardown::Device);
    } else {
        assert(occurrences(run_teardowns(m, ops), Teardown::Device) == 0);
    }
}

/// While a `Device` reference is still held, no run of clones and drops,
/// dropping every resource included, destroys the device.
pub proof fn lemma_device_outlives_resources(m: DeviceView, ops: Seq<Op>)
    requires
        m.valid(),
        !m.destroyed,
        runnable(m, ops),
        run(m, ops).holders > 0,
    ensures
        occurrences(run_teardowns(m, ops), Teardown::Device) == 0,
        !run(m, ops).destroyed,
{
    lemma_device_destroyed_once(m, ops);
}

/// `k` drops of resource `s`, one after another.
pub open spec fn drops(s: nat, k: nat) -> Seq<Op> {
    Seq::new(k, |i: int| Op::DropResource(s))
}

pub proof fn lemma_drops_run(m: DeviceView, s: nat, k: nat)
    requires
        m.valid(),
        m.is_live(s),
        k <= m.slots[s as int].refs,
    ensures
        runnable(m, drops(s, k)),
        run(m, drops(s, k)).slots[s as int].refs == m.slots[s as int].refs - k,
    decreases k,
{
    if k > 0 {
        let front = drops(s, (k - 1) as nat);
        assert(drops(s, k).drop_last() =~= front);
        lemma_drops_run(m, s, (k - 1) as nat);
        lemma_run(m, front);
    } else {
        assert(drops(s, k) =~= Seq::<Op>::empty());
    }
}

/// Dropping every one of the `n` references to a resource, in whatever
/// order their holders release them, destroys it exactly once.
pub proof fn lemma_all_drops_destroy_once(m: DeviceView, s: nat)
    requires
        m.valid(),
        m.is_live(s),
    ensures
        runnable(m, drops(s, m.slots[s as int].refs as nat)),
        occurrences(run_teardowns(m, drops(s, m.slots[s as int].refs as nat)), Teardown::Resource(s)) == 1,
{
    let n = m.slots[s as int].refs as nat;
    lemma_drops_run(m, s, n);
    lemma_resource_destroyed_once(m, drops(s, n), s);
}

} // verus!
