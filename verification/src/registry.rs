//! Type-erased, ordered-destruction container for renderer objects.
//!
//! Every GPU object created after the base API handle is owned by a
//! [`Registry`], keyed by [`VulkanObjectType`]. The kind's ordinal encodes
//! the mandatory destruction order: on teardown all entries are collected and
//! handed out sorted ascending by ordinal, so that no object is destroyed
//! before an object that depends on it, whatever order they were inserted in.

use vstd::prelude::*;

verus! {

/// A kind of renderer object that is destroyed in order of its ordinal.
///
/// Every kind must be declared before the kinds it depends on, because
/// entries are destroyed in ascending ordinal order.
#[derive(Clone, Copy, PartialEq, Eq, Structural, Debug)]
pub enum VulkanObjectType {
    TriangleShader,
    DrawImage,
    Framebuffer,
    Swapchain,
    Surface,
    Device,
    DebugUtilsMessenger,
}

impl VulkanObjectType {
    /// The destruction rank of this kind: lower ordinals are destroyed first.
    pub open spec fn ordinal_spec(self) -> int {
        match self {
            VulkanObjectType::TriangleShader => 0,
            VulkanObjectType::DrawImage => 1,
            VulkanObjectType::Framebuffer => 2,
            VulkanObjectType::Swapchain => 3,
            VulkanObjectType::Surface => 4,
            VulkanObjectType::Device => 5,
            VulkanObjectType::DebugUtilsMessenger => 6,
        }
    }

    /// Executable form of [`Self::ordinal_spec`].
    pub fn ordinal(&self) -> (r: u32)
        ensures
            r as int == self.ordinal_spec(),
    {
        match self {
            VulkanObjectType::TriangleShader => 0,
            VulkanObjectType::DrawImage => 1,
            VulkanObjectType::Framebuffer => 2,
            VulkanObjectType::Swapchain => 3,
            VulkanObjectType::Surface => 4,
            VulkanObjectType::Device => 5,
            VulkanObjectType::DebugUtilsMessenger => 6,
        }
    }
}

/// Distinct kinds have distinct ordinals, so sorting by ordinal fixes one
/// destruction order for any set of distinct kinds.
pub proof fn lemma_ordinal_injective(a: VulkanObjectType, b: VulkanObjectType)
    ensures
        a.ordinal_spec() == b.ordinal_spec() ==> a == b,
{
}

/// An object paired with the data its destructor needs, such as the handle
/// of the device that created it.
pub struct VulkanObject<T, D> {
    pub object: T,
    pub data: D,
}

impl<T, D> VulkanObject<T, D> {
    /// Pair an object with its destruction data.
    pub fn new(object: T, data: D) -> (r: Self)
        ensures
            r.object == object,
            r.data == data,
    {
        VulkanObject { object, data }
    }
}

impl<T, D> VulkanObject<T, Option<D>> {
    /// An object that no destructor will run for, such as a presentable
    /// image whose lifetime the presentation engine owns.
    pub fn undropped(object: T) -> (r: Self)
        ensures
            r.object == object,
            r.data is None,
    {
        VulkanObject { object, data: None }
    }
}

/// One registry entry: a kind, a tag standing for the stored object's
/// runtime type, and the object itself.
pub struct RegistryEntry<T> {
    pub kind: VulkanObjectType,
    pub type_tag: u64,
    pub object: T,
}

/// `s` holds at most one entry per kind.
pub open spec fn kinds_distinct<T>(s: Seq<RegistryEntry<T>>) -> bool {
    forall|i: int, j: int|
        0 <= i < j < s.len() ==> (#[trigger] s[i]).kind != (#[trigger] s[j]).kind
}

/// `s` holds an entry of kind `k`.
pub open spec fn seq_has_kind<T>(s: Seq<RegistryEntry<T>>, k: VulkanObjectType) -> bool {
    exists|i: int| 0 <= i < s.len() && (#[trigger] s[i]).kind == k
}

/// `s` is strictly ascending in kind ordinal.
pub open spec fn sorted_by_ordinal<T>(s: Seq<RegistryEntry<T>>) -> bool {
    forall|i: int, j: int|
        0 <= i < j < s.len() ==> (#[trigger] s[i]).kind.ordinal_spec() < (#[trigger] s[j]).kind.ordinal_spec()
}

/// Every entry of `a` appears in `b`.
pub open spec fn entries_subset<T>(a: Seq<RegistryEntry<T>>, b: Seq<RegistryEntry<T>>) -> bool {
    forall|i: int| 0 <= i < a.len() ==> b.contains(#[trigger] a[i])
}

/// The destruction order is a function of the registry's contents alone:
/// any two strictly-ordinal-sorted arrangements of the same entries are the
/// same sequence. Together with the contract of [`Registry::teardown`], this
/// says that however the entries were inserted, teardown destroys them in
/// one and the same non-decreasing ordinal order.
pub proof fn lemma_teardown_order_canonical<T>(a: Seq<RegistryEntry<T>>, b: Seq<RegistryEntry<T>>)
    requires
        sorted_by_ordinal(a),
        sorted_by_ordinal(b),
        entries_subset(a, b),
        entries_subset(b, a),
    ensures
        a =~= b,
    decreases a.len(),
{
    if a.len() == 0 {
        if b.len() > 0 {
            assert(a.contains(b[0]));
        }
    } else {
        assert(b.contains(a[0]));
        assert(a.contains(b[0]));
        let j = choose|j: int| 0 <= j < b.len() && b[j] == a[0];
        let k = choose|k: int| 0 <= k < a.len() && a[k] == b[0];
        // both heads carry the minimum ordinal of the shared contents
        if j > 0 {
            assert(b[0].kind.ordinal_spec() < b[j].kind.ordinal_spec());
            assert(a[0].kind.ordinal_spec() <= a[k].kind.ordinal_spec());
            assert(false);
        }
        assert(a[0] == b[0]);
        let at = a.subrange(1, a.len() as int);
        let bt = b.subrange(1, b.len() as int);
        assert forall|i: int| 0 <= i < at.len() implies bt.contains(#[trigger] at[i]) by {
            assert(at[i] == a[i + 1]);
            assert(b.contains(a[i + 1]));
            let w = choose|w: int| 0 <= w < b.len() && b[w] == a[i + 1];
            assert(a[0].kind.ordinal_spec() < a[i + 1].kind.ordinal_spec());
            assert(w != 0);
            assert(bt[w - 1] == a[i + 1]);
        }
        assert forall|i: int| 0 <= i < bt.len() implies at.contains(#[trigger] bt[i]) by {
            assert(bt[i] == b[i + 1]);
            assert(a.contains(b[i + 1]));
            let w = choose|w: int| 0 <= w < a.len() && a[w] == b[i + 1];
            assert(b[0].kind.ordinal_spec() < b[i + 1].kind.ordinal_spec());
            assert(w != 0);
            assert(at[w - 1] == b[i + 1]);
        }
        lemma_teardown_order_canonical(at, bt);
        assert(a.len() == b.len());
        assert forall|i: int| 0 <= i < a.len() implies a[i] == b[i] by {
            if i > 0 {
                assert(at[i - 1] == bt[i - 1]);
            }
        }
    }
}

/// The ordered-destruction container: owns every renderer object created
/// after the base handle, at most one per kind.
pub struct Registry<T> {
    entries: Vec<RegistryEntry<T>>,
}

impl<T> Registry<T> {
    /// The entries in insertion order.
    pub closed spec fn view(&self) -> Seq<RegistryEntry<T>> {
        self.entries@
    }

    /// Well-formed: at most one entry per kind.
    pub open spec fn wf(&self) -> bool {
        kinds_distinct(self@)
    }

    /// The registry holds an entry of kind `k`.
    pub open spec fn has_kind(&self, k: VulkanObjectType) -> bool {
        seq_has_kind(self@, k)
    }

    /// An empty registry.
    pub fn new() -> (r: Self)
        ensures
            r@ =~= Seq::<RegistryEntry<T>>::empty(),
            r.wf(),
    {
        Registry { entries: Vec::new() }
    }

    /// Insert or replace the entry for `kind`. Replacing assigns over the
    /// slot, so the previous object is dropped here, before the new entry
    /// takes its place.
    pub fn set_object(&mut self, kind: VulkanObjectType, type_tag: u64, object: T)
        requires
            old(self).wf(),
        ensures
            final(self).wf(),
            old(self).has_kind(kind) ==> exists|i: int|
                0 <= i < old(self)@.len() && (#[trigger] old(self)@[i]).kind == kind
                    && final(self)@ == old(self)@.update(
                    i,
                    RegistryEntry { kind, type_tag, object },
                ),
            !old(self).has_kind(kind) ==> final(self)@ == old(self)@.push(
                RegistryEntry { kind, type_tag, object },
            ),
    {
        let n = self.entries.len();
        let mut i: usize = 0;
        while i < n
            invariant
                old(self).wf(),
                self.entries@ == old(self)@,
                n == self.entries.len(),
                i <= n,
                forall|j: int| 0 <= j < i ==> (#[trigger] self.entries@[j]).kind != kind,
            decreases n - i,
        {
            if self.entries[i].kind == kind {
                let ghost pre = self.entries@;
                self.entries[i] = RegistryEntry { kind, type_tag, object };
                proof {
                    let e = RegistryEntry { kind, type_tag, object };
                    assert(self.entries@ == pre.update(i as int, e));
                    assert forall|p: int, q: int|
                        0 <= p < q < self.entries@.len() implies (#[trigger] self.entries@[p]).kind
                        != (#[trigger] self.entries@[q]).kind by {
                        assert(pre[p].kind != pre[q].kind);
                    }
                    assert(0 <= (i as int) < old(self)@.len() && old(self)@[i as int].kind
                        == kind);
                }
                return ;
            }
            i += 1;
        }
        self.entries.push(RegistryEntry { kind, type_tag, object });
        proof {
            assert(!seq_has_kind(old(self)@, kind));
            assert forall|p: int, q: int|
                0 <= p < q < self.entries@.len() implies (#[trigger] self.entries@[p]).kind != (
            #[trigger] self.entries@[q]).kind by {
                if q < old(self)@.len() {
                    assert(old(self)@[p].kind != old(self)@[q].kind);
                }
            }
        }
    }

    /// Checked lookup: `Some` exactly when an entry of `kind` exists and its
    /// tag matches the caller's expected type, as a downcast would check.
    /// Absence or a tag mismatch yields `None`, never another entry's object.
    pub fn get_object(&self, kind: VulkanObjectType, type_tag: u64) -> (r: Option<&T>)
        requires
            self.wf(),
        ensures
            match r {
                Some(v) => exists|i: int|
                    0 <= i < self@.len() && (#[trigger] self@[i]).kind == kind && self@[i].type_tag
                        == type_tag && *v == self@[i].object,
                None => forall|i: int|
                    0 <= i < self@.len() ==> !((#[trigger] self@[i]).kind == kind
                        && self@[i].type_tag == type_tag),
            },
    {
        let n = self.entries.len();
        let mut i: usize = 0;
        while i < n
            invariant
                self.wf(),
                n == self.entries.len(),
                i <= n,
                forall|j: int| 0 <= j < i ==> !((#[trigger] self.entries@[j]).kind == kind
                    && self.entries@[j].type_tag == type_tag),
            decreases n - i,
        {
            if self.entries[i].kind == kind && self.entries[i].type_tag == type_tag {
                return Some(&self.entries[i].object);
            }
            i += 1;
        }
        None
    }

    /// Mutable checked lookup, with the same presence contract as
    /// [`Self::get_object`].
    pub fn get_object_mut(&mut self, kind: VulkanObjectType, type_tag: u64) -> (r: Option<
        &mut T,
    >)
        requires
            old(self).wf(),
        ensures
            final(self).wf(),
            match r {
                Some(v) => exists|i: int|
                    0 <= i < old(self)@.len() && (#[trigger] old(self)@[i]).kind == kind
                        && old(self)@[i].type_tag == type_tag && *v == old(self)@[i].object
                        && final(self)@ == old(self)@.update(
                        i,
                        RegistryEntry { kind, type_tag, object: *final(v) },
                    ),
                None => final(self)@ == old(self)@ && forall|i: int|
                    0 <= i < old(self)@.len() ==> !((#[trigger] old(self)@[i]).kind == kind
                        && old(self)@[i].type_tag == type_tag),
            },
    {
        let n = self.entries.len();
        let mut i: usize = 0;
        while i < n
            invariant
                old(self) == self,
                old(self).wf(),
                n == self.entries.len(),
                i <= n,
                forall|j: int| 0 <= j < i ==> !((#[trigger] self.entries@[j]).kind == kind
                    && self.entries@[j].type_tag == type_tag),
            decreases n - i,
        {
            if self.entries[i].kind == kind && self.entries[i].type_tag == type_tag {
                return Some(&mut self.entries[i].object);
            }
            i += 1;
        }
        None
    }

    /// Consume the registry and hand back its entries sorted ascending by
    /// kind ordinal: the exact order in which their objects must be
    /// destroyed. The result holds the same entries, whatever order they
    /// were inserted in.
    ///
    /// Destroying an object the GPU still references is undefined behavior
    /// at the API level, so the caller must first have blocked until the
    /// device is idle; `device_idle` attests to that, and tearing down
    /// without it is a hard precondition violation, not an option.
    pub fn teardown(self, device_idle: bool) -> (r: Vec<RegistryEntry<T>>)
        requires
            device_idle,
            self.wf(),
        ensures
            r@.len() == self@.len(),
            sorted_by_ordinal(r@),
            entries_subset(r@, self@),
            entries_subset(self@, r@),
    {
        let Registry { entries: mut rest } = self;
        let ghost orig = rest@;
        let mut out: Vec<RegistryEntry<T>> = Vec::new();
        while rest.len() > 0
            invariant
                out@.len() + rest@.len() == orig.len(),
                kinds_distinct(rest@),
                sorted_by_ordinal(out@),
                entries_subset(out@, orig),
                entries_subset(rest@, orig),
                entries_subset(orig, out@ + rest@),
                forall|i: int, j: int|
                    0 <= i < out@.len() && 0 <= j < rest@.len() ==> (#[trigger] out@[i]).kind.ordinal_spec()
                        < (#[trigger] rest@[j]).kind.ordinal_spec(),
            decreases rest@.len(),
        {
            let mut min_i: usize = 0;
            let mut j: usize = 1;
            while j < rest.len()
                invariant
                    rest@.len() > 0,
                    min_i < j,
                    j <= rest@.len(),
                    forall|k: int| 0 <= k < j ==> rest@[min_i as int].kind.ordinal_spec() <= (
                    #[trigger] rest@[k]).kind.ordinal_spec(),
                decreases rest@.len() - j,
            {
                if rest[j].kind.ordinal() < rest[min_i].kind.ordinal() {
                    min_i = j;
                }
                j += 1;
            }
            let ghost prev_rest = rest@;
            let ghost prev_out = out@;
            let e = rest.remove(min_i);
            out.push(e);
            proof {
                // indices of the shrunk remainder map back into the previous one
                assert forall|p: int| 0 <= p < rest@.len() implies rest@[p] == prev_rest[
                    if p < min_i as int {
                        p
                    } else {
                        p + 1
                    }
                ] by {}
                assert(kinds_distinct(rest@));
                assert(entries_subset(rest@, orig));
                assert forall|i: int| 0 <= i < orig.len() implies (out@ + rest@).contains(
                    #[trigger] orig[i],
                ) by {
                    assert((prev_out + prev_rest).contains(orig[i]));
                    let w = choose|w: int|
                        0 <= w < (prev_out + prev_rest).len() && (prev_out + prev_rest)[w]
                            == orig[i];
                    if w < prev_out.len() {
                        assert(out@[w] == prev_out[w]);
                        assert((out@ + rest@)[w] == orig[i]);
                    } else {
                        let p = w - prev_out.len();
                        if p == min_i as int {
                            assert((out@ + rest@)[prev_out.len() as int] == e);
                        } else if p < min_i as int {
                            assert((out@ + rest@)[out@.len() + p] == rest@[p]);
                        } else {
                            assert((out@ + rest@)[out@.len() + p - 1] == rest@[p - 1]);
                        }
                    }
                }
                assert forall|i: int, j2: int|
                    0 <= i < out@.len() && 0 <= j2 < rest@.len() implies (#[trigger] out@[i]).kind.ordinal_spec()
                    < (#[trigger] rest@[j2]).kind.ordinal_spec() by {
                    let ghost pi = if j2 < min_i as int {
                        j2
                    } else {
                        j2 + 1
                    };
                    assert(rest@[j2] == prev_rest[pi]);
                    if i < prev_out.len() {
                        assert(out@[i] == prev_out[i]);
                    } else {
                        // the pushed minimum: strictly below everything left,
                        // because the remainder held distinct kinds
                        assert(out@[i] == e);
                        let r2 = rest@[j2];
                        assert(e.kind.ordinal_spec() <= r2.kind.ordinal_spec());
                        if e.kind.ordinal_spec() == r2.kind.ordinal_spec() {
                            lemma_ordinal_injective(e.kind, r2.kind);
                            assert(prev_rest[min_i as int].kind == prev_rest[pi].kind);
                            assert(false);
                        }
                    }
                }
            }
        }
        out
    }
}

} // verus!
