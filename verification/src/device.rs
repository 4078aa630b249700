//! Physical device selection and ranking.
//!
//! Candidates are filtered by a hard-requirement predicate and the survivors
//! are ranked; the highest-scoring survivor wins, with ties kept by the
//! later-enumerated device. With no survivor, selection fails with a
//! dedicated unsupported-device error.

use vstd::prelude::*;

use crate::error::RenderError;
use crate::swapchain::SwapchainSupport;

verus! {

/// The category a physical device reports itself as.
#[derive(Clone, Copy, PartialEq, Eq, Structural, Debug)]
pub enum DeviceType {
    Other,
    IntegratedGpu,
    DiscreteGpu,
    VirtualGpu,
    Cpu,
}

/// Everything queried about one candidate physical device, as plain values.
#[derive(Clone, PartialEq, Debug)]
pub struct PhysicalDeviceInfo {
    pub device_type: DeviceType,
    pub api_version_major: u32,
    pub api_version_minor: u32,
    pub max_image_dimension_2d: u32,
    pub supports_geometry_shader: bool,
    /// Per queue family, the family's capability bitmask.
    pub queue_family_flags: Vec<u32>,
    /// Per queue family, whether it can present to the surface.
    pub present_support: Vec<bool>,
    /// Names of the device extensions the candidate offers.
    pub extensions: Vec<String>,
    /// The surface support snapshot queried against this candidate.
    pub support: SwapchainSupport,
}

/// The hard requirements a candidate must meet.
#[derive(Clone, PartialEq, Debug)]
pub struct DeviceRequirements {
    pub api_version_major: u32,
    pub api_version_minor: u32,
    /// Capability bits that must be present across some combination of the
    /// candidate's queue families.
    pub required_queue_flags: u32,
    /// Device extensions that must all be offered.
    pub required_extensions: Vec<String>,
}

/// A candidate paired with its score.
#[derive(Clone, Copy, PartialEq, Eq, Structural, Debug)]
pub struct RankedDevice {
    pub rank: u32,
    /// The candidate's position in enumeration order.
    pub index: usize,
}

/// The union of the capability bits of all queue families in `flags`.
pub open spec fn spec_queue_flags_union(flags: Seq<u32>) -> u32
    decreases flags.len(),
{
    if flags.len() == 0 {
        0u32
    } else {
        spec_queue_flags_union(flags.drop_last()) | flags.last()
    }
}

/// A required capability bit present in the union of all families' bits is
/// present in some single family: capability bits do not appear from
/// nowhere. The requirement must be one single bit, `1` shifted by `k`.
pub proof fn lemma_union_single_bit(flags: Seq<u32>, f: u32, k: u32)
    requires
        k < 32,
        f == 1u32 << k,
        spec_queue_flags_union(flags) & f == f,
    ensures
        exists|fi: int| 0 <= fi < flags.len() && (#[trigger] flags[fi]) & f == f,
    decreases flags.len(),
{
    if flags.len() == 0 {
        assert(spec_queue_flags_union(flags) == 0);
        assert(!(0u32 & f == f)) by (bit_vector)
            requires
                k < 32,
                f == 1u32 << k,
        ;
    } else {
        let u = spec_queue_flags_union(flags.drop_last());
        let l = flags.last();
        assert((u & f == f) || (l & f == f)) by (bit_vector)
            requires
                k < 32,
                f == 1u32 << k,
                (u | l) & f == f,
        ;
        if l & f == f {
            assert(flags[flags.len() - 1] & f == f);
        } else {
            lemma_union_single_bit(flags.drop_last(), f, k);
            let fi = choose|fi: int|
                0 <= fi < flags.drop_last().len() && (#[trigger] flags.drop_last()[fi]) & f == f;
            assert(flags[fi] & f == f);
        }
    }
}

/// Only discrete and integrated GPUs are eligible.
pub open spec fn spec_supported_gpu(t: DeviceType) -> bool {
    t == DeviceType::DiscreteGpu || t == DeviceType::IntegratedGpu
}

/// The version rule: the device's API version is at least the required
/// minimum.
pub open spec fn spec_version_ok(d: PhysicalDeviceInfo, req: DeviceRequirements) -> bool {
    d.api_version_major > req.api_version_major || (d.api_version_major == req.api_version_major
        && d.api_version_minor >= req.api_version_minor)
}

/// `available` holds a string with the characters of `name`.
pub open spec fn spec_contains_string(available: Seq<String>, name: Seq<char>) -> bool {
    exists|q: int| 0 <= q < available.len() && (#[trigger] available[q])@ == name
}

/// Every required extension name appears among the available ones.
pub open spec fn spec_extensions_supported(available: Seq<String>, required: Seq<String>) -> bool {
    forall|i: int|
        0 <= i < required.len() ==> spec_contains_string(available, (#[trigger] required[i])@)
}

/// The hard-requirement predicate: device category, API version, required
/// features, required queue capabilities across some families, required
/// extensions, and a surface with at least one format and one present mode.
pub open spec fn spec_device_suitable(d: PhysicalDeviceInfo, req: DeviceRequirements) -> bool {
    &&& spec_supported_gpu(d.device_type)
    &&& spec_version_ok(d, req)
    &&& d.supports_geometry_shader
    &&& spec_queue_flags_union(d.queue_family_flags@) & req.required_queue_flags
        == req.required_queue_flags
    &&& spec_extensions_supported(d.extensions@, req.required_extensions@)
    &&& d.support.formats@.len() > 0
    &&& d.support.present_modes@.len() > 0
}

/// The score of a candidate: a thousand points for a discrete GPU plus its
/// maximum two-dimensional image dimension.
pub open spec fn spec_rank(d: PhysicalDeviceInfo) -> int {
    (if d.device_type == DeviceType::DiscreteGpu {
        1000int
    } else {
        0int
    }) + d.max_image_dimension_2d
}

/// `i` is the selected winner among `devices`: suitable, of maximal rank,
/// and after every other suitable candidate of the same rank.
pub open spec fn spec_winner(
    devices: Seq<PhysicalDeviceInfo>,
    req: DeviceRequirements,
    i: int,
) -> bool {
    &&& 0 <= i < devices.len()
    &&& spec_device_suitable(devices[i], req)
    &&& forall|j: int|
        0 <= j < devices.len() && spec_device_suitable(#[trigger] devices[j], req) ==> spec_rank(
            devices[j],
        ) <= spec_rank(devices[i])
    &&& forall|j: int|
        i < j < devices.len() && spec_device_suitable(#[trigger] devices[j], req) ==> spec_rank(
            devices[j],
        ) < spec_rank(devices[i])
}

/// Ranking is a total order and the last maximum wins, so at most one index
/// is the winner: selection is deterministic for a fixed enumeration order.
pub proof fn lemma_winner_unique(
    devices: Seq<PhysicalDeviceInfo>,
    req: DeviceRequirements,
    i1: int,
    i2: int,
)
    requires
        spec_winner(devices, req, i1),
        spec_winner(devices, req, i2),
    ensures
        i1 == i2,
{
    if i1 < i2 {
        assert(spec_rank(devices[i2]) < spec_rank(devices[i1]));
        assert(spec_rank(devices[i1]) <= spec_rank(devices[i2]));
    } else if i2 < i1 {
        assert(spec_rank(devices[i1]) < spec_rank(devices[i2]));
        assert(spec_rank(devices[i2]) <= spec_rank(devices[i1]));
    }
}

/// Whether two strings hold the same characters.
fn string_eq(a: &String, b: &String) -> (r: bool)
    ensures
        r == (a@ == b@),
{
    *a == *b
}

/// Evaluate the hard-requirement predicate for one candidate.
pub fn check_device_capabilities(d: &PhysicalDeviceInfo, req: &DeviceRequirements) -> (r: bool)
    ensures
        r == spec_device_suitable(*d, *req),
{
    let supported_gpu = match d.device_type {
        DeviceType::DiscreteGpu => true,
        DeviceType::IntegratedGpu => true,
        _ => false,
    };
    let version_ok = d.api_version_major > req.api_version_major || (d.api_version_major
        == req.api_version_major && d.api_version_minor >= req.api_version_minor);

    // union of the capability bits over all queue families
    let mut available_flags: u32 = 0;
    let n_fam = d.queue_family_flags.len();
    let mut i: usize = 0;
    while i < n_fam
        invariant
            n_fam == d.queue_family_flags@.len(),
            i <= n_fam,
            available_flags == spec_queue_flags_union(d.queue_family_flags@.take(i as int)),
        decreases n_fam - i,
    {
        proof {
            assert(d.queue_family_flags@.take(i + 1).drop_last() == d.queue_family_flags@.take(
                i as int,
            ));
        }
        available_flags = available_flags | d.queue_family_flags[i];
        i += 1;
    }
    proof {
        assert(d.queue_family_flags@.take(n_fam as int) == d.queue_family_flags@);
    }
    let queues_ok = available_flags & req.required_queue_flags == req.required_queue_flags;

    // every required extension must be offered
    let mut extensions_ok = true;
    let n_req = req.required_extensions.len();
    let mut k: usize = 0;
    while k < n_req
        invariant
            n_req == req.required_extensions@.len(),
            k <= n_req,
            extensions_ok == (forall|p: int|
                0 <= p < k ==> spec_contains_string(
                    d.extensions@,
                    (#[trigger] req.required_extensions@[p])@,
                )),
        decreases n_req - k,
    {
        let mut found = false;
        let n_av = d.extensions.len();
        let mut m: usize = 0;
        while m < n_av
            invariant
                n_av == d.extensions@.len(),
                m <= n_av,
                k < n_req,
                n_req == req.required_extensions@.len(),
                found == (exists|q: int|
                    0 <= q < m && (#[trigger] d.extensions@[q])@ == req.required_extensions@[
                        k as int
                    ]@),
            decreases n_av - m,
        {
            if string_eq(&d.extensions[m], &req.required_extensions[k]) {
                found = true;
            }
            m += 1;
        }
        proof {
            assert(found == spec_contains_string(
                d.extensions@,
                req.required_extensions@[k as int]@,
            ));
        }
        extensions_ok = extensions_ok && found;
        k += 1;
    }

    let surface_ok = d.support.formats.len() > 0 && d.support.present_modes.len() > 0;

    supported_gpu && version_ok && d.supports_geometry_shader && queues_ok && extensions_ok
        && surface_ok
}

/// Score one candidate: a thousand points for a discrete GPU plus its
/// maximum two-dimensional image dimension, a proxy for raw capability.
pub fn rank_device_capabilities(d: &PhysicalDeviceInfo) -> (r: u32)
    requires
        d.max_image_dimension_2d <= u32::MAX - 1000,
    ensures
        r as int == spec_rank(*d),
{
    let mut score: u32 = 0;
    if let DeviceType::DiscreteGpu = d.device_type {
        score += 1000;
    }
    score + d.max_image_dimension_2d
}

/// Select the most suitable device: filter by the hard requirements, rank
/// the survivors, and pick the highest score, keeping the later-enumerated
/// candidate on ties. Fails with the unsupported-device error exactly when
/// no candidate is suitable.
pub fn find_suitable_device(devices: &Vec<PhysicalDeviceInfo>, req: &DeviceRequirements) -> (r:
    Result<RankedDevice, RenderError>)
    requires
        forall|i: int|
            0 <= i < devices@.len() ==> (#[trigger] devices@[i]).max_image_dimension_2d <= u32::MAX
                - 1000,
    ensures
        match r {
            Ok(w) => spec_winner(devices@, *req, w.index as int) && w.rank as int == spec_rank(
                devices@[w.index as int],
            ),
            Err(e) => e == RenderError::UnsupportedDevice && forall|j: int|
                0 <= j < devices@.len() ==> !spec_device_suitable(#[trigger] devices@[j], *req),
        },
{
    let n = devices.len();
    let mut best: Option<RankedDevice> = None;
    let mut i: usize = 0;
    while i < n
        invariant
            n == devices@.len(),
            i <= n,
            forall|j: int|
                0 <= j < devices@.len() ==> (#[trigger] devices@[j]).max_image_dimension_2d
                    <= u32::MAX - 1000,
            match best {
                Some(b) => b.index < i && spec_device_suitable(devices@[b.index as int], *req) && (
                b.rank as int) == spec_rank(devices@[b.index as int]) && (forall|j: int|
                    0 <= j < i && spec_device_suitable(#[trigger] devices@[j], *req) ==> spec_rank(
                        devices@[j],
                    ) <= b.rank as int) && (forall|j: int|
                    b.index < j < i && spec_device_suitable(#[trigger] devices@[j], *req)
                        ==> spec_rank(devices@[j]) < b.rank as int),
                None => forall|j: int|
                    0 <= j < i ==> !spec_device_suitable(#[trigger] devices@[j], *req),
            },
        decreases n - i,
    {
        if check_device_capabilities(&devices[i], req) {
            let rank = rank_device_capabilities(&devices[i]);
            best = match best {
                Some(b) => {
                    if rank >= b.rank {
                        Some(RankedDevice { rank, index: i })
                    } else {
                        Some(b)
                    }
                },
                None => Some(RankedDevice { rank, index: i }),
            };
        }
        i += 1;
    }
    match best {
        Some(b) => Ok(b),
        None => Err(RenderError::UnsupportedDevice),
    }
}

} // verus!
