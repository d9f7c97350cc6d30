//! The choice of the physical device and queue family to run on.

use vstd::prelude::*;

verus! {

/// The kind of a physical device, as the driver reports it.
#[derive(Debug, Clone, Copy, PartialEq, Eq, Structural)]
pub enum DeviceKind {
    DiscreteGpu,
    IntegratedGpu,
    VirtualGpu,
    Cpu,
    Other,
}

/// What is known of one physical device before a choice is made.
#[derive(Debug, PartialEq, Eq)]
pub struct DeviceCandidate {
    /// The device's kind.
    pub kind: DeviceKind,
    /// Whether the device supports every extension that the kernels need.
    pub supports_extensions: bool,
    /// For each of the device's queue families, whether it supports compute.
    pub compute_support: Vec<bool>,
}

/// The device, and the queue family on it, that the work is submitted to.
#[derive(Debug, Clone, Copy, PartialEq, Eq, Structural)]
pub struct DeviceChoice {
    /// Position of the device among the candidates.
    pub device: usize,
    /// Position of the queue family among the device's families.
    pub queue_family: usize,
}

/// The order of preference among device kinds: the lower, the better.
pub open spec fn rank_spec(kind: DeviceKind) -> int {
    match kind {
        DeviceKind::DiscreteGpu => 0,
        DeviceKind::IntegratedGpu => 1,
        DeviceKind::VirtualGpu => 2,
        DeviceKind::Cpu => 3,
        DeviceKind::Other => 4,
    }
}

/// Whether `family` is the first family that supports compute.
pub open spec fn is_first_compute_family(families: Seq<bool>, family: int) -> bool {
    &&& 0 <= family < families.len()
    &&& families[family]
    &&& forall|j: int| 0 <= j < family ==> !families[j]
}

/// Whether a device can be used at all: it supports the extensions and has
/// a queue family that supports compute.
pub open spec fn eligible(candidate: DeviceCandidate) -> bool {
    &&& candidate.supports_extensions
    &&& exists|j: int| 0 <= j < candidate.compute_support@.len() && candidate.compute_support@[j]
}

/// Whether `choice` is the choice among `candidates`: the first of the
/// eligible devices of the best kind, with its first compute family.
pub open spec fn is_choice_among(choice: DeviceChoice, candidates: Seq<DeviceCandidate>) -> bool {
    &&& choice.device < candidates.len()
    &&& candidates[choice.device as int].supports_extensions
    &&& is_first_compute_family(
        candidates[choice.device as int].compute_support@,
        choice.queue_family as int,
    )
    &&& forall|j: int|
        0 <= j < candidates.len() && eligible(#[trigger] candidates[j]) ==> rank_spec(
            candidates[choice.device as int].kind,
        ) <= rank_spec(candidates[j].kind)
    &&& forall|j: int|
        0 <= j < choice.device && eligible(#[trigger] candidates[j]) ==> rank_spec(
            candidates[choice.device as int].kind,
        ) < rank_spec(candidates[j].kind)
}

/// The order of preference among device kinds: the lower, the better.
pub fn rank(kind: DeviceKind) -> (r: u8)
    ensures
        r == rank_spec(kind),
{
    match kind {
        DeviceKind::DiscreteGpu => 0,
        DeviceKind::IntegratedGpu => 1,
        DeviceKind::VirtualGpu => 2,
        DeviceKind::Cpu => 3,
        DeviceKind::Other => 4,
    }
}

/// The first queue family that supports compute, if there is one.
pub fn first_compute_family(families: &Vec<bool>) -> (r: Option<usize>)
    ensures
        match r {
            Some(family) => is_first_compute_family(families@, family as int),
            None => forall|j: int| 0 <= j < families@.len() ==> !families@[j],
        },
{
    let mut i: usize = 0;
    while i < families.len()
        invariant
            0 <= i <= families.len(),
            forall|j: int| 0 <= j < i ==> !families@[j],
        decreases families.len() - i,
    {
        if families[i] {
            return Some(i);
        }
        i += 1;
    }
    None
}

/// Chooses the device to run on: among the devices that support the needed
/// extensions and have a compute queue family, the first of the best kind.
/// `None` means that no device can be used.
pub fn choose_device(candidates: &Vec<DeviceCandidate>) -> (r: Option<DeviceChoice>)
    ensures
        match r {
            Some(choice) => is_choice_among(choice, candidates@),
            None => forall|j: int| 0 <= j < candidates@.len() ==> !eligible(candidates@[j]),
        },
{
    let mut best: Option<DeviceChoice> = None;
    let mut best_rank: u8 = 0;
    let mut i: usize = 0;
    while i < candidates.len()
        invariant
            0 <= i <= candidates.len(),
            match best {
                Some(choice) => is_choice_among(choice, candidates@.take(i as int))
                    && best_rank == rank_spec(candidates@[choice.device as int].kind),
                None => forall|j: int| 0 <= j < i ==> !eligible(candidates@[j]),
            },
        decreases candidates.len() - i,
    {
        let candidate = &candidates[i];
        let ghost seen = candidates@.take(i as int);
        let ghost next = candidates@.take(i + 1);
        assert(forall|j: int| 0 <= j < i ==> next[j] == seen[j]);
        assert(next[i as int] == candidates@[i as int]);
        let family = if candidate.supports_extensions {
            first_compute_family(&candidate.compute_support)
        } else {
            None
        };
        match family {
            Some(queue_family) => {
                assert(eligible(*candidate));
                let r = rank(candidate.kind);
                let better = match best {
                    Some(_) => r < best_rank,
                    None => true,
                };
                if better {
                    best = Some(DeviceChoice { device: i, queue_family });
                    best_rank = r;
                }
                assert(is_choice_among(best.unwrap(), next));
            },
            None => {
                assert(!eligible(*candidate));
                assert(best is Some ==> is_choice_among(best.unwrap(), next));
            },
        }
        i += 1;
    }
    assert(candidates@.take(candidates.len() as int) =~= candidates@);
    best
}

} // verus!
