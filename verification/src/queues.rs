//! Queue family allocation.
//!
//! Maps required queue capability flags to concrete `(family, index)` pairs
//! on the chosen device, deduplicating families, and builds the per-family
//! queue descriptors (with priorities) that device creation needs.

use vstd::prelude::*;

use crate::constants;

verus! {

/// One assignment: a requested capability key mapped to a concrete queue.
#[derive(Clone, Copy, PartialEq, Eq, Structural, Debug)]
pub struct QueueAssignment {
    /// The requested capability bits, the lookup key.
    pub flags: u32,
    pub family_index: u32,
    pub queue_index: u32,
}

/// Family `fi` offers all capability bits of `f`.
pub open spec fn spec_family_supports(families: Seq<u32>, fi: int, f: u32) -> bool {
    0 <= fi < families.len() && families[fi] & f == f
}

/// Some family offers all capability bits of `f`.
pub open spec fn spec_some_family_supports(families: Seq<u32>, f: u32) -> bool {
    exists|fi: int| spec_family_supports(families, fi, f)
}

/// The position of the first occurrence of `f` in `qf`.
pub open spec fn spec_first_occ(qf: Seq<u32>, f: u32) -> int
    decreases qf.len(),
{
    if qf.len() == 0 {
        0
    } else if qf[0] == f {
        0
    } else {
        1 + spec_first_occ(qf.drop_first(), f)
    }
}

/// If `f` first appears in `qf` at position `p`, then `spec_first_occ` says so.
pub proof fn lemma_first_occ_at(qf: Seq<u32>, f: u32, p: int)
    requires
        0 <= p < qf.len(),
        qf[p] == f,
        forall|q: int| 0 <= q < p ==> qf[q] != f,
    ensures
        spec_first_occ(qf, f) == p,
    decreases p,
{
    if p == 0 {
    } else {
        lemma_first_occ_at(qf.drop_first(), f, p - 1);
    }
}

/// The index of the first family that offers all capability bits of `f`.
pub open spec fn spec_first_supporting_family(families: Seq<u32>, f: u32) -> int
    decreases families.len(),
{
    if families.len() == 0 {
        0
    } else if families[0] & f == f {
        0
    } else {
        1 + spec_first_supporting_family(families.drop_first(), f)
    }
}

/// When some family supports `f`, the first supporting family is a real
/// index, supports `f`, and no earlier family does.
pub proof fn lemma_first_supporting_family(families: Seq<u32>, f: u32)
    requires
        spec_some_family_supports(families, f),
    ensures
        0 <= spec_first_supporting_family(families, f) < families.len(),
        spec_family_supports(families, spec_first_supporting_family(families, f), f),
        forall|fj: int|
            0 <= fj < spec_first_supporting_family(families, f) ==> !spec_family_supports(
                families,
                fj,
                f,
            ),
    decreases families.len(),
{
    if families[0] & f == f {
    } else {
        let tail = families.drop_first();
        let fi = choose|fi: int| spec_family_supports(families, fi, f);
        assert(fi >= 1);
        assert(tail[fi - 1] == families[fi]);
        assert(spec_family_supports(tail, fi - 1, f));
        lemma_first_supporting_family(tail, f);
        let ft = spec_first_supporting_family(tail, f);
        assert(families[ft + 1] == tail[ft]);
        assert forall|fj: int|
            0 <= fj < spec_first_supporting_family(families, f) implies !spec_family_supports(
            families,
            fj,
            f,
        ) by {
            if fj >= 1 {
                assert(tail[fj - 1] == families[fj]);
                assert(fj - 1 < ft);
                assert(!spec_family_supports(tail, fj - 1, f));
            }
        }
    }
}

/// How many of the first `upto` assignments sit in family `fi`.
pub open spec fn count_in_family(s: Seq<QueueAssignment>, fi: u32, upto: int) -> int
    recommends
        0 <= upto <= s.len(),
    decreases upto,
{
    if upto <= 0 {
        0
    } else {
        count_in_family(s, fi, upto - 1) + if s[upto - 1].family_index == fi {
            1int
        } else {
            0int
        }
    }
}

/// Counting ignores entries past `upto`, so pushing does not disturb it.
pub proof fn lemma_count_in_family_push(s: Seq<QueueAssignment>, e: QueueAssignment, fi: u32, upto: int)
    requires
        0 <= upto <= s.len(),
    ensures
        count_in_family(s.push(e), fi, upto) == count_in_family(s, fi, upto),
    decreases upto,
{
    if upto > 0 {
        lemma_count_in_family_push(s, e, fi, upto - 1);
    }
}

/// The count never decreases as the prefix grows, and strictly grows past an
/// index whose entry sits in the family.
pub proof fn lemma_count_in_family_mono(s: Seq<QueueAssignment>, fi: u32, i: int, j: int)
    requires
        0 <= i <= j <= s.len(),
    ensures
        count_in_family(s, fi, i) <= count_in_family(s, fi, j),
        i < j && s[i].family_index == fi ==> count_in_family(s, fi, i) < count_in_family(s, fi, j),
    decreases j - i,
{
    if i < j {
        lemma_count_in_family_mono(s, fi, i + 1, j);
    }
}

/// The largest queue index assigned in family `fi` among the first `upto`
/// entries, or -1 when the family has none.
pub open spec fn spec_max_queue_index(s: Seq<QueueAssignment>, fi: u32, upto: int) -> int
    recommends
        0 <= upto <= s.len(),
    decreases upto,
{
    if upto <= 0 {
        -1
    } else if s[upto - 1].family_index == fi && s[upto - 1].queue_index
        > spec_max_queue_index(s, fi, upto - 1) {
        s[upto - 1].queue_index as int
    } else {
        spec_max_queue_index(s, fi, upto - 1)
    }
}

/// What the maximum means: it bounds every entry of the family and is
/// attained by one of them.
pub proof fn lemma_max_queue_index_facts(s: Seq<QueueAssignment>, fi: u32, upto: int)
    requires
        0 <= upto <= s.len(),
    ensures
        forall|i: int|
            0 <= i < upto && (#[trigger] s[i]).family_index == fi ==> s[i].queue_index
                <= spec_max_queue_index(s, fi, upto),
        (exists|i: int| 0 <= i < upto && (#[trigger] s[i]).family_index == fi)
            <==> spec_max_queue_index(s, fi, upto) >= 0,
        spec_max_queue_index(s, fi, upto) >= 0 ==> exists|i: int|
            0 <= i < upto && (#[trigger] s[i]).family_index == fi && s[i].queue_index
                == spec_max_queue_index(s, fi, upto),
    decreases upto,
{
    if upto > 0 {
        lemma_max_queue_index_facts(s, fi, upto - 1);
    }
}

/// The map entries hold pairwise distinct keys.
pub open spec fn spec_keys_distinct(s: Seq<QueueAssignment>) -> bool {
    forall|i: int, j: int|
        0 <= i < j < s.len() ==> (#[trigger] s[i]).flags != (#[trigger] s[j]).flags
}

/// No two assignments share a `(family, index)` pair.
pub open spec fn spec_pairs_distinct(s: Seq<QueueAssignment>) -> bool {
    forall|i: int, j: int|
        0 <= i < j < s.len() ==> !((#[trigger] s[i]).family_index == (
        #[trigger] s[j]).family_index && s[i].queue_index == s[j].queue_index)
}

/// The map holds an assignment keyed by `f`.
pub open spec fn spec_has_flags(s: Seq<QueueAssignment>, f: u32) -> bool {
    exists|i: int| 0 <= i < s.len() && (#[trigger] s[i]).flags == f
}

/// The finished queue family map: every requested capability that some
/// family can serve, mapped to its `(family, index)` pair.
pub open spec fn spec_map_wf(
    s: Seq<QueueAssignment>,
    families: Seq<u32>,
    qf: Seq<u32>,
) -> bool {
    // at most one assignment per requested key, and per concrete queue
    &&& spec_keys_distinct(s)
    &&& spec_pairs_distinct(s)
    // one entry needs one requested flag: never more entries than requests
    &&& s.len() <= qf.len()
    // every key was requested and its family is the first that supports it
    &&& forall|i: int|
        0 <= i < s.len() ==> qf.contains((#[trigger] s[i]).flags) && spec_family_supports(
            families,
            s[i].family_index as int,
            s[i].flags,
        ) && (forall|fi: int|
            spec_family_supports(families, fi, s[i].flags) ==> s[i].family_index <= fi)
    // a requested key is assigned exactly when some family supports it
    &&& forall|p: int|
        0 <= p < qf.len() ==> (spec_some_family_supports(families, #[trigger] qf[p])
            <==> spec_has_flags(s, qf[p]))
    // queue indices within a family count up from zero in entry order
    &&& forall|i: int|
        0 <= i < s.len() ==> (#[trigger] s[i]).queue_index == count_in_family(
            s,
            s[i].family_index,
            i,
        )
    // entries stand in the order the keys were first requested
    &&& forall|i: int, j: int|
        0 <= i < j < s.len() ==> spec_first_occ(qf, (#[trigger] s[i]).flags) < spec_first_occ(
            qf,
            (#[trigger] s[j]).flags,
        )
}

/// The mapping from requested capability flags to concrete queues.
#[derive(Clone, PartialEq, Debug)]
pub struct QueueFamilyMap {
    entries: Vec<QueueAssignment>,
}

impl QueueFamilyMap {
    /// The assignments in the order their keys were first requested.
    pub closed spec fn view(&self) -> Seq<QueueAssignment> {
        self.entries@
    }

    /// The assignments as a vector.
    pub fn inner(&self) -> (r: &Vec<QueueAssignment>)
        ensures
            r@ == self@,
    {
        &self.entries
    }

    /// Look a requested capability key up. Returns its `(family, index)`
    /// pair exactly when the key was assigned.
    pub fn get_queue_info(&self, queue_flags: u32) -> (r: Option<(u32, u32)>)
        ensures
            match r {
                Some(pair) => exists|i: int|
                    0 <= i < self@.len() && (#[trigger] self@[i]).flags == queue_flags
                        && self@[i].family_index == pair.0 && self@[i].queue_index == pair.1,
                None => !spec_has_flags(self@, queue_flags),
            },
    {
        let n = self.entries.len();
        let mut i: usize = 0;
        while i < n
            invariant
                n == self.entries@.len(),
                i <= n,
                forall|j: int| 0 <= j < i ==> (#[trigger] self.entries@[j]).flags != queue_flags,
            decreases n - i,
        {
            if self.entries[i].flags == queue_flags {
                proof {
                    assert(0 <= (i as int) < self@.len() && (self@[i as int]).flags == queue_flags);
                }
                return Some((self.entries[i].family_index, self.entries[i].queue_index));
            }
            i += 1;
        }
        None
    }
}

/// Build the queue family map: walk the requested capability flags in order
/// and assign each not-yet-assigned key to the first family that supports
/// it, at that family's next free queue index. A key that no family
/// supports is left out. Multi-bit keys are permitted when the caller wants
/// one family serving several roles under one key.
pub fn get_queue_family_map(families: &Vec<u32>, queue_flags: &Vec<u32>) -> (r: QueueFamilyMap)
    requires
        families@.len() <= u32::MAX,
        queue_flags@.len() <= u32::MAX,
    ensures
        spec_map_wf(r@, families@, queue_flags@),
{
    let mut entries: Vec<QueueAssignment> = Vec::new();
    let n = queue_flags.len();
    let n_fam = families.len();
    let mut p: usize = 0;
    while p < n
        invariant
            n == queue_flags@.len(),
            n <= u32::MAX,
            n_fam == families@.len(),
            n_fam <= u32::MAX,
            p <= n,
            entries@.len() <= p,
            spec_keys_distinct(entries@),
            spec_pairs_distinct(entries@),
            forall|i: int|
                0 <= i < entries@.len() ==> queue_flags@.contains((#[trigger] entries@[i]).flags)
                    && spec_family_supports(
                    families@,
                    entries@[i].family_index as int,
                    entries@[i].flags,
                ) && (forall|fi: int|
                    spec_family_supports(families@, fi, entries@[i].flags) ==> entries@[i].family_index
                        <= fi),
            forall|q: int|
                0 <= q < p ==> (spec_some_family_supports(families@, #[trigger] queue_flags@[q])
                    <==> spec_has_flags(entries@, queue_flags@[q])),
            forall|i: int|
                0 <= i < entries@.len() ==> (#[trigger] entries@[i]).queue_index == count_in_family(
                    entries@,
                    entries@[i].family_index,
                    i,
                ),
            forall|i: int|
                0 <= i < entries@.len() ==> spec_first_occ(
                    queue_flags@,
                    (#[trigger] entries@[i]).flags,
                ) < p,
            forall|i: int, j: int|
                0 <= i < j < entries@.len() ==> spec_first_occ(
                    queue_flags@,
                    (#[trigger] entries@[i]).flags,
                ) < spec_first_occ(queue_flags@, (#[trigger] entries@[j]).flags),
        decreases n - p,
    {
        let f = queue_flags[p];

        // is the key already assigned?
        let mut assigned = false;
        let n_e = entries.len();
        let mut i: usize = 0;
        while i < n_e
            invariant
                n_e == entries@.len(),
                i <= n_e,
                assigned == (exists|j: int| 0 <= j < i && (#[trigger] entries@[j]).flags == f),
            decreases n_e - i,
        {
            if entries[i].flags == f {
                assigned = true;
            }
            i += 1;
        }

        if assigned {
            proof {
                // the key is present, and its entry's family supports it
                let j = choose|j: int| 0 <= j < entries@.len() && (#[trigger] entries@[j]).flags == f;
                assert(spec_family_supports(families@, entries@[j].family_index as int, f));
                assert(spec_some_family_supports(families@, f));
                assert(spec_has_flags(entries@, f));
            }
        } else {
            // first family that supports the key
            let mut fam: usize = 0;
            let mut found = false;
            while fam < n_fam && !found
                invariant
                    n_fam == families@.len(),
                    fam <= n_fam,
                    found ==> fam < n_fam && spec_family_supports(families@, fam as int, f),
                    forall|fi: int| 0 <= fi < fam ==> !spec_family_supports(families@, fi, f),
                decreases n_fam - fam + if found {
                    0int
                } else {
                    1int
                },
            {
                if families[fam] & f == f {
                    found = true;
                } else {
                    fam += 1;
                }
            }
            if found {
                // next free index within the chosen family
                let mut cnt: u32 = 0;
                let mut j: usize = 0;
                while j < n_e
                    invariant
                        n_e == entries@.len(),
                        n_e <= n,
                        n <= u32::MAX,
                        j <= n_e,
                        cnt as int == count_in_family(entries@, fam as u32, j as int),
                        cnt as int <= j,
                    decreases n_e - j,
                {
                    if entries[j].family_index == fam as u32 {
                        cnt += 1;
                    }
                    j += 1;
                }
                let e = QueueAssignment {
                    flags: f,
                    family_index: fam as u32,
                    queue_index: cnt,
                };
                let ghost pre = entries@;
                entries.push(e);
                proof {
                    let post = entries@;
                    let qf = queue_flags@;
                    let last = pre.len() as int;
                    assert(post[last] == e);
                    assert(forall|i2: int| 0 <= i2 < last ==> post[i2] == pre[i2]);
                    // the key was not assigned, so by completeness of the
                    // prefix it never occurred before position p
                    assert forall|q: int| 0 <= q < p implies qf[q] != f by {
                        if qf[q] == f {
                            assert(spec_some_family_supports(families@, qf[q]));
                            assert(spec_has_flags(pre, f));
                        }
                    }
                    lemma_first_occ_at(qf, f, p as int);
                    assert(qf.contains(f)) by {
                        assert(qf[p as int] == f);
                    }
                    // counts over the old prefix carry over to the new one
                    assert forall|i2: int, fi2: u32| 0 <= i2 <= last implies (
                    #[trigger] count_in_family(post, fi2, i2)) == count_in_family(
                        pre,
                        fi2,
                        i2,
                    ) by {
                        lemma_count_in_family_push(pre, e, fi2, i2);
                    }
                    // the pushed pair is fresh: any prior entry of the same
                    // family has a strictly smaller queue index
                    assert forall|i2: int|
                        0 <= i2 < last && (#[trigger] pre[i2]).family_index == e.family_index
                            implies pre[i2].queue_index < e.queue_index by {
                        lemma_count_in_family_mono(pre, e.family_index, i2, last);
                    }
                    assert(spec_pairs_distinct(post));
                    assert(spec_keys_distinct(post));
                    // a key other than f is in the new map exactly when it
                    // was in the old one
                    assert forall|g: u32| g != f implies (spec_has_flags(post, g) == spec_has_flags(
                        pre,
                        g,
                    )) by {
                        if spec_has_flags(post, g) {
                            let w = choose|w: int|
                                0 <= w < post.len() && (#[trigger] post[w]).flags == g;
                            assert(w != last);
                            assert(pre[w].flags == g);
                        }
                        if spec_has_flags(pre, g) {
                            let w = choose|w: int|
                                0 <= w < pre.len() && (#[trigger] pre[w]).flags == g;
                            assert(post[w].flags == g);
                        }
                    }
                    assert(spec_has_flags(post, f)) by {
                        assert(post[last].flags == f);
                    }
                    assert(spec_some_family_supports(families@, f)) by {
                        assert(spec_family_supports(families@, fam as int, f));
                    }
                }
            } else {
                proof {
                    // no family supports the key: it stays out of the map
                    assert(forall|fi: int|
                        0 <= fi < families@.len() ==> !spec_family_supports(families@, fi, f));
                    assert(!spec_some_family_supports(families@, f));
                    assert(!spec_has_flags(entries@, f));
                }
            }
        }
        p += 1;
    }
    QueueFamilyMap { entries }
}

/// The map holds an assignment in family `fam`.
pub open spec fn spec_has_family(s: Seq<QueueAssignment>, fam: u32) -> bool {
    exists|i: int| 0 <= i < s.len() && (#[trigger] s[i]).family_index == fam
}

/// `pair` is one of the `(family, index)` pairs assigned in the map.
pub open spec fn spec_is_pair_of(s: Seq<QueueAssignment>, pair: (u32, u32)) -> bool {
    exists|i: int|
        0 <= i < s.len() && (#[trigger] s[i]).family_index == pair.0 && s[i].queue_index == pair.1
}

/// The role a queue serves in the renderer.
#[derive(Clone, Copy, PartialEq, Eq, Structural, Debug, Hash)]
pub enum QueueType {
    Graphics,
    PresentMode,
}

/// A queue role resolved to a concrete queue: its `(family, index)` pair,
/// its priority in hundredths, and the native handle once populated.
/// Reading the handle before population is a logic error.
#[derive(Clone, Copy, PartialEq, Eq, Debug)]
pub struct Queue {
    pub queue_info: (u32, u32),
    pub handle: Option<u64>,
    pub priority: u32,
}

impl Queue {
    /// A queue with no native handle yet.
    pub fn new_empty(queue_info: (u32, u32), priority: u32) -> (r: Self)
        ensures
            r.queue_info == queue_info,
            r.handle is None,
            r.priority == priority,
    {
        Queue { queue_info, handle: None, priority }
    }

    /// Store the native handle retrieved after device creation.
    pub fn populate_handle(&mut self, handle: u64)
        ensures
            *final(self) == (Queue { handle: Some(handle), ..*old(self) }),
    {
        self.handle = Some(handle);
    }

    /// The `(family, index)` pair this queue was assigned.
    pub fn queue_info(&self) -> (r: &(u32, u32))
        ensures
            *r == self.queue_info,
    {
        &self.queue_info
    }

    /// The native handle; populating it first is the caller's obligation.
    pub fn handle(&self) -> (r: u64)
        requires
            self.handle is Some,
        ensures
            Some(r) == self.handle,
    {
        self.handle.unwrap()
    }
}


/// One device-queue-creation descriptor: a family and the priorities of the
/// queues created in it, in hundredths.
#[derive(Clone, PartialEq, Debug)]
pub struct QueueCreateInfo {
    pub family_index: u32,
    pub priorities: Vec<u32>,
}

/// Entry `i` of the map sits in a family that can present to the surface,
/// according to the per-family support table `sup`.
pub open spec fn spec_supported_entry(s: Seq<QueueAssignment>, sup: Seq<bool>, i: int) -> bool {
    0 <= i < s.len() && 0 <= s[i].family_index < sup.len() && sup[s[i].family_index as int]
}

/// The queue roles of the renderer resolved to concrete queues: the graphics
/// queue, and the present queue once a present-capable family is known.
#[derive(Clone, PartialEq, Debug)]
pub struct QueueFamilies {
    graphics: Queue,
    present_mode: Option<Queue>,
}

impl QueueFamilies {
    /// The graphics role's queue.
    pub closed spec fn graphics_spec(&self) -> Queue {
        self.graphics
    }

    /// The present role's queue, once resolved.
    pub closed spec fn present_mode_spec(&self) -> Option<Queue> {
        self.present_mode
    }

    /// The priority that the finished descriptor assigns to queue `idx` of
    /// family `fam`: the present role's where it sits there, else the
    /// graphics role's where it sits there, else zero.
    pub open spec fn spec_role_priority(&self, fam: u32, idx: int) -> u32 {
        if self.present_mode_spec() is Some && self.present_mode_spec()->0.queue_info == (
        fam,
        idx as u32,
        ) && idx < u32::MAX {
            self.present_mode_spec()->0.priority
        } else if self.graphics_spec().queue_info == (fam, idx as u32) && idx < u32::MAX {
            self.graphics_spec().priority
        } else {
            0
        }
    }

    /// Resolve the graphics role from the queue family map, at full
    /// priority. The map must hold a graphics assignment: a device without
    /// one was never selected.
    pub fn new_empty(queue_family_map: &QueueFamilyMap) -> (r: Self)
        requires
            spec_has_flags(queue_family_map@, constants::QUEUE_GRAPHICS),
        ensures
            r.present_mode_spec() is None,
            r.graphics_spec().handle is None,
            r.graphics_spec().priority == constants::QUEUE_PRIORITY_UNIT,
            exists|i: int|
                0 <= i < queue_family_map@.len() && (#[trigger] queue_family_map@[i]).flags
                    == constants::QUEUE_GRAPHICS && r.graphics_spec().queue_info == (
                queue_family_map@[i].family_index,
                queue_family_map@[i].queue_index,
            ),
    {
        let info = queue_family_map.get_queue_info(constants::QUEUE_GRAPHICS);
        match info {
            Some(pair) => QueueFamilies {
                graphics: Queue::new_empty(pair, constants::QUEUE_PRIORITY_UNIT),
                present_mode: None,
            },
            None => vstd::pervasive::unreached(),
        }
    }

    /// Resolve the present role: scan the map's assignments and keep the
    /// last one whose family can present to the surface. Present support
    /// need not coincide with the graphics family, so the two roles may
    /// resolve to the same or different families.
    pub fn query_present_mode_queue(self, queue_family_map: &QueueFamilyMap, present_support: &Vec<
        bool,
    >) -> (r: Self)
        requires
            forall|i: int|
                0 <= i < queue_family_map@.len() ==> (#[trigger] queue_family_map@[i]).family_index
                    < present_support@.len(),
        ensures
            r.graphics_spec() == self.graphics_spec(),
            (exists|i: int| spec_supported_entry(queue_family_map@, present_support@, i))
                ==> match r.present_mode_spec() {
                Some(q) => exists|i: int|
                    #[trigger] spec_supported_entry(queue_family_map@, present_support@, i)
                        && q.queue_info == (
                    queue_family_map@[i].family_index,
                    queue_family_map@[i].queue_index,
                    ) && q.priority == constants::QUEUE_PRIORITY_UNIT && q.handle is None && (
                    forall|j: int|
                        i < j < queue_family_map@.len() ==> !spec_supported_entry(
                            queue_family_map@,
                            present_support@,
                            j,
                        )),
                None => false,
            },
            !(exists|i: int| spec_supported_entry(queue_family_map@, present_support@, i))
                ==> r.present_mode_spec() == self.present_mode_spec(),
    {
        let mut result = self;
        let n = queue_family_map.inner().len();
        let mut i: usize = 0;
        while i < n
            invariant
                n == queue_family_map@.len(),
                i <= n,
                forall|k: int|
                    0 <= k < queue_family_map@.len() ==> (
                    #[trigger] queue_family_map@[k]).family_index < present_support@.len(),
                result.graphics_spec() == self.graphics_spec(),
                (exists|k: int|
                    0 <= k < i && spec_supported_entry(queue_family_map@, present_support@, k))
                    ==> match result.present_mode_spec() {
                    Some(q) => exists|k: int|
                        0 <= k < i && #[trigger] spec_supported_entry(
                            queue_family_map@,
                            present_support@,
                            k,
                        ) && q.queue_info == (
                        queue_family_map@[k].family_index,
                        queue_family_map@[k].queue_index,
                        ) && q.priority == constants::QUEUE_PRIORITY_UNIT && q.handle is None && (
                        forall|j: int|
                            k < j < i ==> !spec_supported_entry(
                                queue_family_map@,
                                present_support@,
                                j,
                            )),
                    None => false,
                },
                !(exists|k: int|
                    0 <= k < i && spec_supported_entry(queue_family_map@, present_support@, k))
                    ==> result.present_mode_spec() == self.present_mode_spec(),
            decreases n - i,
        {
            let entry = queue_family_map.inner()[i];
            if present_support[entry.family_index as usize] {
                result.present_mode = Some(
                    Queue::new_empty(
                        (entry.family_index, entry.queue_index),
                        constants::QUEUE_PRIORITY_UNIT,
                    ),
                );
                proof {
                    assert(spec_supported_entry(queue_family_map@, present_support@, i as int));
                }
            }
            i += 1;
        }
        result
    }

    /// Store the native queue handles retrieved after device creation, one
    /// per resolved role.
    pub fn populate_handles(&mut self, graphics_handle: u64, present_handle: Option<u64>)
        requires
            old(self).present_mode_spec() is Some <==> present_handle is Some,
        ensures
            final(self).graphics_spec() == (Queue {
                handle: Some(graphics_handle),
                ..old(self).graphics_spec()
            }),
            match present_handle {
                Some(h) => final(self).present_mode_spec() == Some(
                    Queue { handle: Some(h), ..old(self).present_mode_spec()->0 },
                ),
                None => final(self).present_mode_spec() is None,
            },
    {
        self.graphics.populate_handle(graphics_handle);
        match present_handle {
            Some(h) => {
                match &mut self.present_mode {
                    Some(q) => {
                        q.populate_handle(h);
                    },
                    None => {
                        proof {
                            assert(false);
                        }
                    },
                }
            },
            None => {},
        }
    }

    /// The graphics role's queue.
    pub fn graphics(&self) -> (r: &Queue)
        ensures
            *r == self.graphics_spec(),
    {
        &self.graphics
    }

    /// Whether the present role has been resolved.
    pub fn has_present_mode(&self) -> (r: bool)
        ensures
            r == (self.present_mode_spec() is Some),
    {
        self.present_mode.is_some()
    }

    /// The present role's queue; resolving it first is the caller's
    /// obligation.
    pub fn present_mode(&self) -> (r: &Queue)
        requires
            self.present_mode_spec() is Some,
        ensures
            Some(*r) == self.present_mode_spec(),
    {
        match &self.present_mode {
            Some(q) => q,
            None => vstd::pervasive::unreached(),
        }
    }

    /// Build one device-queue-creation descriptor per distinct family of the
    /// map. A family's priority array has one slot per assigned queue, that
    /// is the family's largest assigned index plus one; every slot defaults
    /// to zero and each role's slot carries that role's priority, the
    /// present role winning where both roles share a queue.
    pub fn get_queue_create_infos(&self, queue_family_map: &QueueFamilyMap) -> (r: Vec<
        QueueCreateInfo,
    >)
        requires
            spec_is_pair_of(queue_family_map@, self.graphics_spec().queue_info),
            self.present_mode_spec() is Some ==> spec_is_pair_of(
                queue_family_map@,
                self.present_mode_spec()->0.queue_info,
            ),
            forall|i: int|
                0 <= i < queue_family_map@.len() ==> (#[trigger] queue_family_map@[i]).queue_index
                    < u32::MAX,
        ensures
            forall|k1: int, k2: int|
                0 <= k1 < k2 < r@.len() ==> (#[trigger] r@[k1]).family_index != (
                #[trigger] r@[k2]).family_index,
            forall|k: int|
                0 <= k < r@.len() ==> spec_has_family(
                    queue_family_map@,
                    (#[trigger] r@[k]).family_index,
                ),
            forall|i: int|
                0 <= i < queue_family_map@.len() ==> exists|k: int|
                    0 <= k < r@.len() && (#[trigger] r@[k]).family_index == (
                    #[trigger] queue_family_map@[i]).family_index,
            forall|k: int|
                0 <= k < r@.len() ==> (#[trigger] r@[k]).priorities@.len()
                    == spec_max_queue_index(
                    queue_family_map@,
                    r@[k].family_index,
                    queue_family_map@.len() as int,
                ) + 1,
            forall|k: int, x: int|
                0 <= k < r@.len() && 0 <= x < r@[k].priorities@.len() ==> (
                #[trigger] r@[k].priorities@[x]) == self.spec_role_priority(
                    r@[k].family_index,
                    x,
                ),
    {
        let entries = queue_family_map.inner();
        let n = entries.len();
        let mut result: Vec<QueueCreateInfo> = Vec::new();
        let mut i: usize = 0;
        while i < n
            invariant
                entries@ == queue_family_map@,
                n == queue_family_map@.len(),
                i <= n,
                spec_is_pair_of(queue_family_map@, self.graphics_spec().queue_info),
                self.present_mode_spec() is Some ==> spec_is_pair_of(
                    queue_family_map@,
                    self.present_mode_spec()->0.queue_info,
                ),
                forall|t: int|
                    0 <= t < queue_family_map@.len() ==> (
                    #[trigger] queue_family_map@[t]).queue_index < u32::MAX,
                forall|k1: int, k2: int|
                    0 <= k1 < k2 < result@.len() ==> (#[trigger] result@[k1]).family_index != (
                    #[trigger] result@[k2]).family_index,
                forall|k: int|
                    0 <= k < result@.len() ==> spec_has_family(
                        queue_family_map@,
                        (#[trigger] result@[k]).family_index,
                    ),
                forall|t: int|
                    0 <= t < i ==> exists|k: int|
                        0 <= k < result@.len() && (#[trigger] result@[k]).family_index == (
                        #[trigger] queue_family_map@[t]).family_index,
                forall|k: int|
                    0 <= k < result@.len() ==> (#[trigger] result@[k]).priorities@.len()
                        == spec_max_queue_index(
                        queue_family_map@,
                        result@[k].family_index,
                        queue_family_map@.len() as int,
                    ) + 1,
                forall|k: int, x: int|
                    0 <= k < result@.len() && 0 <= x < result@[k].priorities@.len() ==> (
                    #[trigger] result@[k].priorities@[x]) == self.spec_role_priority(
                        result@[k].family_index,
                        x,
                    ),
            decreases n - i,
        {
            let f = entries[i].family_index;

            // has this family been emitted already?
            let mut seen = false;
            let m = result.len();
            let mut k: usize = 0;
            while k < m
                invariant
                    m == result@.len(),
                    k <= m,
                    seen == (exists|t: int|
                        0 <= t < k && (#[trigger] result@[t]).family_index == f),
                decreases m - k,
            {
                if result[k].family_index == f {
                    seen = true;
                }
                k += 1;
            }

            let ghost pre_result = result@;
            if !seen {
                // the family's largest assigned queue index
                let mut maxi: u32 = 0;
                let mut any = false;
                let mut j: usize = 0;
                while j < n
                    invariant
                        entries@ == queue_family_map@,
                        n == queue_family_map@.len(),
                        j <= n,
                        any == (exists|t: int|
                            0 <= t < j && (#[trigger] queue_family_map@[t]).family_index == f),
                        any ==> maxi as int == spec_max_queue_index(
                            queue_family_map@,
                            f,
                            j as int,
                        ),
                        !any ==> maxi == 0 && spec_max_queue_index(queue_family_map@, f, j as int)
                            == -1,
                    decreases n - j,
                {
                    if entries[j].family_index == f {
                        if !any || entries[j].queue_index > maxi {
                            maxi = entries[j].queue_index;
                        }
                        any = true;
                        proof {
                            assert(queue_family_map@[j as int].family_index == f);
                        }
                    }
                    j += 1;
                }
                proof {
                    assert(queue_family_map@[i as int].family_index == f);
                    lemma_max_queue_index_facts(queue_family_map@, f, n as int);
                }

                // one slot per assigned queue, all defaulting to zero
                let slots = maxi + 1;
                let mut priorities: Vec<u32> = Vec::new();
                let mut z: u32 = 0;
                while z < slots
                    invariant
                        z <= slots,
                        priorities@.len() == z,
                        forall|x: int| 0 <= x < z ==> priorities@[x] == 0u32,
                    decreases slots - z,
                {
                    priorities.push(0);
                    z += 1;
                }

                // each role's slot gets that role's priority; the present
                // role writes last and so wins a shared queue
                if self.graphics.queue_info.0 == f {
                    let idx = self.graphics.queue_info.1;
                    proof {
                        let t = choose|t: int|
                            0 <= t < queue_family_map@.len() && (
                            #[trigger] queue_family_map@[t]).family_index
                                == self.graphics_spec().queue_info.0
                                && queue_family_map@[t].queue_index
                                == self.graphics_spec().queue_info.1;
                        assert(queue_family_map@[t].queue_index <= maxi);
                    }
                    priorities[idx as usize] = self.graphics.priority;
                }
                match &self.present_mode {
                    Some(q) => {
                        if q.queue_info.0 == f {
                            let idx = q.queue_info.1;
                            proof {
                                let t = choose|t: int|
                                    0 <= t < queue_family_map@.len() && (
                                    #[trigger] queue_family_map@[t]).family_index
                                        == self.present_mode_spec()->0.queue_info.0
                                        && queue_family_map@[t].queue_index
                                        == self.present_mode_spec()->0.queue_info.1;
                                assert(queue_family_map@[t].queue_index <= maxi);
                            }
                            priorities[idx as usize] = q.priority;
                        }
                    },
                    None => {},
                }
                proof {
                    assert forall|x: int| 0 <= x < priorities@.len() implies priorities@[x]
                        == self.spec_role_priority(f, x) by {}
                }
                result.push(QueueCreateInfo { family_index: f, priorities });
            }
            proof {
                assert(queue_family_map@[i as int].family_index == f);
                assert forall|t: int| 0 <= t <= i as int implies exists|k2: int|
                    0 <= k2 < result@.len() && (#[trigger] result@[k2]).family_index == (
                    #[trigger] queue_family_map@[t]).family_index by {
                    if t < i as int {
                        let k0 = choose|k0: int|
                            0 <= k0 < pre_result.len() && (#[trigger] pre_result[k0]).family_index
                                == queue_family_map@[t].family_index;
                        assert(result@[k0].family_index == queue_family_map@[t].family_index);
                    } else {
                        if seen {
                            let k0 = choose|k0: int|
                                0 <= k0 < pre_result.len() && (
                                #[trigger] pre_result[k0]).family_index == f;
                            assert(result@[k0].family_index == f);
                        } else {
                            assert(result@[result@.len() - 1].family_index == f);
                        }
                    }
                }
            }
            i += 1;
        }
        result
    }
}

} // verus!
