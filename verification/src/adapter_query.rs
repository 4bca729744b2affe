//! Ranking and selection of physical GPUs.
//!
//! The embedding enumerates the adapters the native API offers and
//! reduces each to an [`AdapterProfile`]: its device category, its
//! capability limits, its device identity, and whether it can present
//! to the target surface. The selection here then picks the single
//! most capable adapter passing the query's filters: first by device
//! category tier, then, among adapters tied on tier, by the
//! lexicographically greatest tuple of capability limits in a fixed
//! priority order.

use core::cmp::Ordering;

use vstd::prelude::*;

use crate::limits::Limits;

verus! {

/// The coarse category of a physical GPU, as the native API reports
/// it.
#[derive(Debug, Clone, Copy, PartialEq, Eq, Structural)]
pub enum DeviceType {
    /// Something other than the categories below; if it can run
    /// graphics at all it is probably better than a plain CPU.
    Other,
    IntegratedGpu,
    DiscreteGpu,
    VirtualGpu,
    Cpu,
}

/// The capability tier of a device category: a discrete GPU beats an
/// integrated one, which beats a virtual one, which beats anything
/// unidentified, which beats the CPU.
pub open spec fn spec_device_type_ranking(dt: DeviceType) -> int {
    match dt {
        DeviceType::DiscreteGpu => 4,
        DeviceType::IntegratedGpu => 3,
        DeviceType::VirtualGpu => 2,
        DeviceType::Other => 1,
        DeviceType::Cpu => 0,
    }
}

pub fn device_type_ranking(dt: &DeviceType) -> (r: usize)
    ensures
        r == spec_device_type_ranking(*dt),
{
    match dt {
        DeviceType::DiscreteGpu => 4,
        DeviceType::IntegratedGpu => 3,
        DeviceType::VirtualGpu => 2,
        DeviceType::Other => 1,
        DeviceType::Cpu => 0,
    }
}

/// The category ranking is strictly ordered: discrete above
/// integrated, integrated above virtual, virtual above other, other
/// above CPU.
pub proof fn lemma_device_type_ranking_order()
    ensures
        spec_device_type_ranking(DeviceType::DiscreteGpu) > spec_device_type_ranking(
            DeviceType::IntegratedGpu,
        ),
        spec_device_type_ranking(DeviceType::IntegratedGpu) > spec_device_type_ranking(
            DeviceType::VirtualGpu,
        ),
        spec_device_type_ranking(DeviceType::VirtualGpu) > spec_device_type_ranking(
            DeviceType::Other,
        ),
        spec_device_type_ranking(DeviceType::Other) > spec_device_type_ranking(DeviceType::Cpu),
{
}

/// What the selection reads of one enumerated adapter.
#[derive(Debug, Clone, Copy, PartialEq, Eq, Structural)]
pub struct AdapterProfile {
    /// The adapter's device category.
    pub device_type: DeviceType,
    /// The capability limits the adapter guarantees.
    pub limits: Limits,
    /// The platform identity of the physical device, used to exclude
    /// blacklisted devices.
    pub device: u32,
    /// Whether the adapter can present to the target surface.
    pub surface_compatible: bool,
}

/// A filter on enumerated adapters.
pub struct AdapterQuery {
    /// Only admit adapters that can present to the target surface.
    pub require_compatible_surface: bool,
    /// Physical devices to exclude, by device identity.
    pub physical_blacklist: Vec<u32>,
    /// If set, only admit adapters of exactly this category.
    pub force_adapter_type: Option<DeviceType>,
}

impl Default for AdapterQuery {
    /// No filter at all: every adapter qualifies.
    fn default() -> (r: Self)
        ensures
            !r.require_compatible_surface,
            r.physical_blacklist@ == Seq::<u32>::empty(),
            r.force_adapter_type is None,
    {
        AdapterQuery {
            require_compatible_surface: false,
            physical_blacklist: Vec::new(),
            force_adapter_type: None,
        }
    }
}

impl AdapterQuery {
    /// Whether an adapter passes all three filters.
    pub open spec fn spec_allowed(self, adapter: AdapterProfile) -> bool {
        &&& match self.force_adapter_type {
            Some(forced) => adapter.device_type == forced,
            None => true,
        }
        &&& (self.require_compatible_surface ==> adapter.surface_compatible)
        &&& !self.physical_blacklist@.contains(adapter.device)
    }

    pub fn is_adapter_allowed(&self, adapter: &AdapterProfile) -> (r: bool)
        ensures
            r == self.spec_allowed(*adapter),
    {
        if let Some(forced) = self.force_adapter_type {
            if forced != adapter.device_type {
                return false;
            }
        }
        if self.require_compatible_surface && !adapter.surface_compatible {
            return false;
        }
        let mut i: usize = 0;
        while i < self.physical_blacklist.len()
            invariant
                i <= self.physical_blacklist@.len(),
                forall|j: int| 0 <= j < i ==> self.physical_blacklist@[j] != adapter.device,
            decreases self.physical_blacklist@.len() - i,
        {
            if self.physical_blacklist[i] == adapter.device {
                return false;
            }
            i += 1;
        }
        proof {
            if self.physical_blacklist@.contains(adapter.device) {
                let j = choose|j: int|
                    0 <= j < self.physical_blacklist@.len() && self.physical_blacklist@[j]
                        == adapter.device;
                assert(false);
            }
        }
        true
    }
}

/// The fixed priority order in which capability limits break ties
/// between adapters of the same category: buffer size first, then
/// compute-workgroup storage, push-constant size, and the 2D, 1D and
/// 3D texture dimensions; each field only decides what the previous
/// fields left tied.
pub open spec fn spec_compare_limits(a: Limits, b: Limits) -> Ordering {
    if a.max_buffer_size != b.max_buffer_size {
        if a.max_buffer_size < b.max_buffer_size {
            Ordering::Less
        } else {
            Ordering::Greater
        }
    } else if a.max_compute_workgroup_storage_size != b.max_compute_workgroup_storage_size {
        if a.max_compute_workgroup_storage_size < b.max_compute_workgroup_storage_size {
            Ordering::Less
        } else {
            Ordering::Greater
        }
    } else if a.max_push_constant_size != b.max_push_constant_size {
        if a.max_push_constant_size < b.max_push_constant_size {
            Ordering::Less
        } else {
            Ordering::Greater
        }
    } else if a.max_texture_dimension_2d != b.max_texture_dimension_2d {
        if a.max_texture_dimension_2d < b.max_texture_dimension_2d {
            Ordering::Less
        } else {
            Ordering::Greater
        }
    } else if a.max_texture_dimension_1d != b.max_texture_dimension_1d {
        if a.max_texture_dimension_1d < b.max_texture_dimension_1d {
            Ordering::Less
        } else {
            Ordering::Greater
        }
    } else if a.max_texture_dimension_3d != b.max_texture_dimension_3d {
        if a.max_texture_dimension_3d < b.max_texture_dimension_3d {
            Ordering::Less
        } else {
            Ordering::Greater
        }
    } else {
        Ordering::Equal
    }
}

fn compare_limits(a: &Limits, b: &Limits) -> (o: Ordering)
    ensures
        o == spec_compare_limits(*a, *b),
{
    if a.max_buffer_size != b.max_buffer_size {
        if a.max_buffer_size < b.max_buffer_size {
            Ordering::Less
        } else {
            Ordering::Greater
        }
    } else if a.max_compute_workgroup_storage_size != b.max_compute_workgroup_storage_size {
        if a.max_compute_workgroup_storage_size < b.max_compute_workgroup_storage_size {
            Ordering::Less
        } else {
            Ordering::Greater
        }
    } else if a.max_push_constant_size != b.max_push_constant_size {
        if a.max_push_constant_size < b.max_push_constant_size {
            Ordering::Less
        } else {
            Ordering::Greater
        }
    } else if a.max_texture_dimension_2d != b.max_texture_dimension_2d {
        if a.max_texture_dimension_2d < b.max_texture_dimension_2d {
            Ordering::Less
        } else {
            Ordering::Greater
        }
    } else if a.max_texture_dimension_1d != b.max_texture_dimension_1d {
        if a.max_texture_dimension_1d < b.max_texture_dimension_1d {
            Ordering::Less
        } else {
            Ordering::Greater
        }
    } else if a.max_texture_dimension_3d != b.max_texture_dimension_3d {
        if a.max_texture_dimension_3d < b.max_texture_dimension_3d {
            Ordering::Less
        } else {
            Ordering::Greater
        }
    } else {
        Ordering::Equal
    }
}

/// The tie-break order behaves as an order: comparing a set with
/// itself ties, swapping the operands mirrors the answer, and the
/// order composes transitively.
pub proof fn lemma_compare_limits_order(a: Limits, b: Limits, c: Limits)
    ensures
        spec_compare_limits(a, a) == Ordering::Equal,
        (spec_compare_limits(a, b) == Ordering::Less) <==> (spec_compare_limits(b, a)
            == Ordering::Greater),
        (spec_compare_limits(a, b) == Ordering::Equal) <==> (spec_compare_limits(b, a)
            == Ordering::Equal),
        spec_compare_limits(a, b) != Ordering::Greater && spec_compare_limits(b, c)
            != Ordering::Greater ==> spec_compare_limits(a, c) != Ordering::Greater,
        spec_compare_limits(a, b) == Ordering::Equal && spec_compare_limits(b, c)
            == Ordering::Equal ==> spec_compare_limits(a, c) == Ordering::Equal,
{
}

/// Picks the most capable adapter that passes the query: the highest
/// device-category tier first, and among adapters tied on tier the
/// lexicographically greatest capability limits; an adapter appearing
/// later in the enumeration wins any remaining tie. `None` exactly
/// when no adapter passes the filters.
pub fn request_powerful_adapter(adapters: &Vec<AdapterProfile>, query: &AdapterQuery) -> (r:
    Option<usize>)
    ensures
        (r is None) <==> (forall|j: int|
            0 <= j < adapters@.len() ==> !query.spec_allowed(adapters@[j])),
        r matches Some(i) ==> {
            &&& i < adapters@.len()
            &&& query.spec_allowed(adapters@[i as int])
            &&& forall|j: int|
                0 <= j < adapters@.len() && query.spec_allowed(adapters@[j])
                    ==> spec_device_type_ranking(adapters@[j].device_type)
                    <= spec_device_type_ranking(adapters@[i as int].device_type)
            &&& forall|j: int|
                0 <= j < adapters@.len() && query.spec_allowed(adapters@[j])
                    && spec_device_type_ranking(adapters@[j].device_type)
                    == spec_device_type_ranking(adapters@[i as int].device_type)
                    ==> (spec_compare_limits(adapters@[j].limits, adapters@[i as int].limits)
                    == Ordering::Less || (spec_compare_limits(
                    adapters@[j].limits,
                    adapters@[i as int].limits,
                ) == Ordering::Equal && j <= i))
        },
{
    let mut best: Option<usize> = None;
    let mut i: usize = 0;
    while i < adapters.len()
        invariant
            i <= adapters@.len(),
            match best {
                None => forall|j: int| 0 <= j < i ==> !query.spec_allowed(adapters@[j]),
                Some(b) => {
                    &&& b < i
                    &&& query.spec_allowed(adapters@[b as int])
                    &&& forall|j: int|
                        0 <= j < i && query.spec_allowed(adapters@[j])
                            ==> spec_device_type_ranking(adapters@[j].device_type)
                            <= spec_device_type_ranking(adapters@[b as int].device_type)
                    &&& forall|j: int|
                        0 <= j < i && query.spec_allowed(adapters@[j])
                            && spec_device_type_ranking(adapters@[j].device_type)
                            == spec_device_type_ranking(adapters@[b as int].device_type)
                            ==> (spec_compare_limits(adapters@[j].limits, adapters@[b as int].limits)
                            == Ordering::Less || (spec_compare_limits(
                            adapters@[j].limits,
                            adapters@[b as int].limits,
                        ) == Ordering::Equal && j <= b))
                },
            },
        decreases adapters@.len() - i,
    {
        if query.is_adapter_allowed(&adapters[i]) {
            match best {
                None => {
                    best = Some(i);
                },
                Some(b) => {
                    let rank_b = device_type_ranking(&adapters[b].device_type);
                    let rank_i = device_type_ranking(&adapters[i].device_type);
                    let limits_not_less = matches!(
                        compare_limits(&adapters[i].limits, &adapters[b].limits),
                        Ordering::Equal | Ordering::Greater
                    );
                    if rank_i > rank_b || (rank_i == rank_b && limits_not_less) {
                        proof {
                            assert forall|j: int|
                                0 <= j < i + 1 && query.spec_allowed(adapters@[j])
                                    && spec_device_type_ranking(adapters@[j].device_type)
                                    == spec_device_type_ranking(adapters@[i as int].device_type)
                                implies (spec_compare_limits(
                                adapters@[j].limits,
                                adapters@[i as int].limits,
                            ) == Ordering::Less || (spec_compare_limits(
                                adapters@[j].limits,
                                adapters@[i as int].limits,
                            ) == Ordering::Equal && j <= i)) by {
                                if j < i {
                                    lemma_compare_limits_order(
                                        adapters@[j].limits,
                                        adapters@[b as int].limits,
                                        adapters@[i as int].limits,
                                    );
                                    lemma_compare_limits_order(
                                        adapters@[b as int].limits,
                                        adapters@[i as int].limits,
                                        adapters@[i as int].limits,
                                    );
                                } else {
                                    lemma_compare_limits_order(
                                        adapters@[i as int].limits,
                                        adapters@[i as int].limits,
                                        adapters@[i as int].limits,
                                    );
                                }
                            }
                        }
                        best = Some(i);
                    }
                },
            }
        }
        i += 1;
    }
    best
}

} // verus!
