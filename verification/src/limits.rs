//! The capability-limits algebra: field-wise intersection and union of
//! limit sets.
//!
//! A limit set mixes two kinds of field. The capacity ceilings (the
//! `max_*` fields) are more permissive the larger they are, while the
//! required alignments (the `min_*` fields) express a divisor
//! constraint and are more restrictive the larger they are. The
//! intersection of two sets is therefore the field-wise minimum of the
//! ceilings together with the field-wise maximum of the alignments,
//! and the union is the opposite.

use vstd::prelude::*;

verus! {

/// A structured set of numeric ceilings and alignments a GPU backend
/// guarantees to support.
#[derive(Debug, Clone, Copy, PartialEq, Eq, Structural)]
pub struct Limits {
    pub max_texture_dimension_1d: u32,
    pub max_texture_dimension_2d: u32,
    pub max_texture_dimension_3d: u32,
    pub max_texture_array_layers: u32,
    pub max_bind_groups: u32,
    pub max_bindings_per_bind_group: u32,
    pub max_dynamic_uniform_buffers_per_pipeline_layout: u32,
    pub max_dynamic_storage_buffers_per_pipeline_layout: u32,
    pub max_sampled_textures_per_shader_stage: u32,
    pub max_samplers_per_shader_stage: u32,
    pub max_storage_buffers_per_shader_stage: u32,
    pub max_storage_textures_per_shader_stage: u32,
    pub max_uniform_buffers_per_shader_stage: u32,
    pub max_uniform_buffer_binding_size: u32,
    pub max_storage_buffer_binding_size: u32,
    pub max_vertex_buffers: u32,
    pub max_buffer_size: u64,
    pub max_vertex_attributes: u32,
    pub max_vertex_buffer_array_stride: u32,
    pub max_inter_stage_shader_components: u32,
    pub max_compute_workgroup_storage_size: u32,
    pub max_compute_invocations_per_workgroup: u32,
    pub max_compute_workgroup_size_x: u32,
    pub max_compute_workgroup_size_y: u32,
    pub max_compute_workgroup_size_z: u32,
    pub max_compute_workgroups_per_dimension: u32,
    pub max_push_constant_size: u32,
    pub min_uniform_buffer_offset_alignment: u32,
    pub min_storage_buffer_offset_alignment: u32,
}

fn min_u32(a: u32, b: u32) -> (r: u32)
    ensures
        r == if a <= b { a } else { b },
{
    if a <= b {
        a
    } else {
        b
    }
}

fn max_u32(a: u32, b: u32) -> (r: u32)
    ensures
        r == if a >= b { a } else { b },
{
    if a >= b {
        a
    } else {
        b
    }
}

fn min_u64(a: u64, b: u64) -> (r: u64)
    ensures
        r == if a <= b { a } else { b },
{
    if a <= b {
        a
    } else {
        b
    }
}

fn max_u64(a: u64, b: u64) -> (r: u64)
    ensures
        r == if a >= b { a } else { b },
{
    if a >= b {
        a
    } else {
        b
    }
}

impl Limits {
    /// The set of limits supported under both `self` and `other`:
    /// the smaller of each pair of ceilings, the stricter (larger) of
    /// each pair of alignments.
    pub open spec fn spec_intersection(self, other: Limits) -> Limits {
        Limits {
            max_texture_dimension_1d: if self.max_texture_dimension_1d <= other.max_texture_dimension_1d { self.max_texture_dimension_1d } else { other.max_texture_dimension_1d },
            max_texture_dimension_2d: if self.max_texture_dimension_2d <= other.max_texture_dimension_2d { self.max_texture_dimension_2d } else { other.max_texture_dimension_2d },
            max_texture_dimension_3d: if self.max_texture_dimension_3d <= other.max_texture_dimension_3d { self.max_texture_dimension_3d } else { other.max_texture_dimension_3d },
            max_texture_array_layers: if self.max_texture_array_layers <= other.max_texture_array_layers { self.max_texture_array_layers } else { other.max_texture_array_layers },
            max_bind_groups: if self.max_bind_groups <= other.max_bind_groups { self.max_bind_groups } else { other.max_bind_groups },
            max_bindings_per_bind_group: if self.max_bindings_per_bind_group <= other.max_bindings_per_bind_group { self.max_bindings_per_bind_group } else { other.max_bindings_per_bind_group },
            max_dynamic_uniform_buffers_per_pipeline_layout: if self.max_dynamic_uniform_buffers_per_pipeline_layout <= other.max_dynamic_uniform_buffers_per_pipeline_layout { self.max_dynamic_uniform_buffers_per_pipeline_layout } else { other.max_dynamic_uniform_buffers_per_pipeline_layout },
            max_dynamic_storage_buffers_per_pipeline_layout: if self.max_dynamic_storage_buffers_per_pipeline_layout <= other.max_dynamic_storage_buffers_per_pipeline_layout { self.max_dynamic_storage_buffers_per_pipeline_layout } else { other.max_dynamic_storage_buffers_per_pipeline_layout },
            max_sampled_textures_per_shader_stage: if self.max_sampled_textures_per_shader_stage <= other.max_sampled_textures_per_shader_stage { self.max_sampled_textures_per_shader_stage } else { other.max_sampled_textures_per_shader_stage },
            max_samplers_per_shader_stage: if self.max_samplers_per_shader_stage <= other.max_samplers_per_shader_stage { self.max_samplers_per_shader_stage } else { other.max_samplers_per_shader_stage },
            max_storage_buffers_per_shader_stage: if self.max_storage_buffers_per_shader_stage <= other.max_storage_buffers_per_shader_stage { self.max_storage_buffers_per_shader_stage } else { other.max_storage_buffers_per_shader_stage },
            max_storage_textures_per_shader_stage: if self.max_storage_textures_per_shader_stage <= other.max_storage_textures_per_shader_stage { self.max_storage_textures_per_shader_stage } else { other.max_storage_textures_per_shader_stage },
            max_uniform_buffers_per_shader_stage: if self.max_uniform_buffers_per_shader_stage <= other.max_uniform_buffers_per_shader_stage { self.max_uniform_buffers_per_shader_stage } else { other.max_uniform_buffers_per_shader_stage },
            max_uniform_buffer_binding_size: if self.max_uniform_buffer_binding_size <= other.max_uniform_buffer_binding_size { self.max_uniform_buffer_binding_size } else { other.max_uniform_buffer_binding_size },
            max_storage_buffer_binding_size: if self.max_storage_buffer_binding_size <= other.max_storage_buffer_binding_size { self.max_storage_buffer_binding_size } else { other.max_storage_buffer_binding_size },
            max_vertex_buffers: if self.max_vertex_buffers <= other.max_vertex_buffers { self.max_vertex_buffers } else { other.max_vertex_buffers },
            max_buffer_size: if self.max_buffer_size <= other.max_buffer_size { self.max_buffer_size } else { other.max_buffer_size },
            max_vertex_attributes: if self.max_vertex_attributes <= other.max_vertex_attributes { self.max_vertex_attributes } else { other.max_vertex_attributes },
            max_vertex_buffer_array_stride: if self.max_vertex_buffer_array_stride <= other.max_vertex_buffer_array_stride { self.max_vertex_buffer_array_stride } else { other.max_vertex_buffer_array_stride },
            max_inter_stage_shader_components: if self.max_inter_stage_shader_components <= other.max_inter_stage_shader_components { self.max_inter_stage_shader_components } else { other.max_inter_stage_shader_components },
            max_compute_workgroup_storage_size: if self.max_compute_workgroup_storage_size <= other.max_compute_workgroup_storage_size { self.max_compute_workgroup_storage_size } else { other.max_compute_workgroup_storage_size },
            max_compute_invocations_per_workgroup: if self.max_compute_invocations_per_workgroup <= other.max_compute_invocations_per_workgroup { self.max_compute_invocations_per_workgroup } else { other.max_compute_invocations_per_workgroup },
            max_compute_workgroup_size_x: if self.max_compute_workgroup_size_x <= other.max_compute_workgroup_size_x { self.max_compute_workgroup_size_x } else { other.max_compute_workgroup_size_x },
            max_compute_workgroup_size_y: if self.max_compute_workgroup_size_y <= other.max_compute_workgroup_size_y { self.max_compute_workgroup_size_y } else { other.max_compute_workgroup_size_y },
            max_compute_workgroup_size_z: if self.max_compute_workgroup_size_z <= other.max_compute_workgroup_size_z { self.max_compute_workgroup_size_z } else { other.max_compute_workgroup_size_z },
            max_compute_workgroups_per_dimension: if self.max_compute_workgroups_per_dimension <= other.max_compute_workgroups_per_dimension { self.max_compute_workgroups_per_dimension } else { other.max_compute_workgroups_per_dimension },
            max_push_constant_size: if self.max_push_constant_size <= other.max_push_constant_size { self.max_push_constant_size } else { other.max_push_constant_size },
            min_uniform_buffer_offset_alignment: if self.min_uniform_buffer_offset_alignment >= other.min_uniform_buffer_offset_alignment { self.min_uniform_buffer_offset_alignment } else { other.min_uniform_buffer_offset_alignment },
            min_storage_buffer_offset_alignment: if self.min_storage_buffer_offset_alignment >= other.min_storage_buffer_offset_alignment { self.min_storage_buffer_offset_alignment } else { other.min_storage_buffer_offset_alignment },
        }
    }

    /// The set of limits supported under either of `self` and `other`:
    /// the larger of each pair of ceilings, the laxer (smaller) of
    /// each pair of alignments.
    pub open spec fn spec_union(self, other: Limits) -> Limits {
        Limits {
            max_texture_dimension_1d: if self.max_texture_dimension_1d >= other.max_texture_dimension_1d { self.max_texture_dimension_1d } else { other.max_texture_dimension_1d },
            max_texture_dimension_2d: if self.max_texture_dimension_2d >= other.max_texture_dimension_2d { self.max_texture_dimension_2d } else { other.max_texture_dimension_2d },
            max_texture_dimension_3d: if self.max_texture_dimension_3d >= other.max_texture_dimension_3d { self.max_texture_dimension_3d } else { other.max_texture_dimension_3d },
            max_texture_array_layers: if self.max_texture_array_layers >= other.max_texture_array_layers { self.max_texture_array_layers } else { other.max_texture_array_layers },
            max_bind_groups: if self.max_bind_groups >= other.max_bind_groups { self.max_bind_groups } else { other.max_bind_groups },
            max_bindings_per_bind_group: if self.max_bindings_per_bind_group >= other.max_bindings_per_bind_group { self.max_bindings_per_bind_group } else { other.max_bindings_per_bind_group },
            max_dynamic_uniform_buffers_per_pipeline_layout: if self.max_dynamic_uniform_buffers_per_pipeline_layout >= other.max_dynamic_uniform_buffers_per_pipeline_layout { self.max_dynamic_uniform_buffers_per_pipeline_layout } else { other.max_dynamic_uniform_buffers_per_pipeline_layout },
            max_dynamic_storage_buffers_per_pipeline_layout: if self.max_dynamic_storage_buffers_per_pipeline_layout >= other.max_dynamic_storage_buffers_per_pipeline_layout { self.max_dynamic_storage_buffers_per_pipeline_layout } else { other.max_dynamic_storage_buffers_per_pipeline_layout },
            max_sampled_textures_per_shader_stage: if self.max_sampled_textures_per_shader_stage >= other.max_sampled_textures_per_shader_stage { self.max_sampled_textures_per_shader_stage } else { other.max_sampled_textures_per_shader_stage },
            max_samplers_per_shader_stage: if self.max_samplers_per_shader_stage >= other.max_samplers_per_shader_stage { self.max_samplers_per_shader_stage } else { other.max_samplers_per_shader_stage },
            max_storage_buffers_per_shader_stage: if self.max_storage_buffers_per_shader_stage >= other.max_storage_buffers_per_shader_stage { self.max_storage_buffers_per_shader_stage } else { other.max_storage_buffers_per_shader_stage },
            max_storage_textures_per_shader_stage: if self.max_storage_textures_per_shader_stage >= other.max_storage_textures_per_shader_stage { self.max_storage_textures_per_shader_stage } else { other.max_storage_textures_per_shader_stage },
            max_uniform_buffers_per_shader_stage: if self.max_uniform_buffers_per_shader_stage >= other.max_uniform_buffers_per_shader_stage { self.max_uniform_buffers_per_shader_stage } else { other.max_uniform_buffers_per_shader_stage },
            max_uniform_buffer_binding_size: if self.max_uniform_buffer_binding_size >= other.max_uniform_buffer_binding_size { self.max_uniform_buffer_binding_size } else { other.max_uniform_buffer_binding_size },
            max_storage_buffer_binding_size: if self.max_storage_buffer_binding_size >= other.max_storage_buffer_binding_size { self.max_storage_buffer_binding_size } else { other.max_storage_buffer_binding_size },
            max_vertex_buffers: if self.max_vertex_buffers >= other.max_vertex_buffers { self.max_vertex_buffers } else { other.max_vertex_buffers },
            max_buffer_size: if self.max_buffer_size >= other.max_buffer_size { self.max_buffer_size } else { other.max_buffer_size },
            max_vertex_attributes: if self.max_vertex_attributes >= other.max_vertex_attributes { self.max_vertex_attributes } else { other.max_vertex_attributes },
            max_vertex_buffer_array_stride: if self.max_vertex_buffer_array_stride >= other.max_vertex_buffer_array_stride { self.max_vertex_buffer_array_stride } else { other.max_vertex_buffer_array_stride },
            max_inter_stage_shader_components: if self.max_inter_stage_shader_components >= other.max_inter_stage_shader_components { self.max_inter_stage_shader_components } else { other.max_inter_stage_shader_components },
            max_compute_workgroup_storage_size: if self.max_compute_workgroup_storage_size >= other.max_compute_workgroup_storage_size { self.max_compute_workgroup_storage_size } else { other.max_compute_workgroup_storage_size },
            max_compute_invocations_per_workgroup: if self.max_compute_invocations_per_workgroup >= other.max_compute_invocations_per_workgroup { self.max_compute_invocations_per_workgroup } else { other.max_compute_invocations_per_workgroup },
            max_compute_workgroup_size_x: if self.max_compute_workgroup_size_x >= other.max_compute_workgroup_size_x { self.max_compute_workgroup_size_x } else { other.max_compute_workgroup_size_x },
            max_compute_workgroup_size_y: if self.max_compute_workgroup_size_y >= other.max_compute_workgroup_size_y { self.max_compute_workgroup_size_y } else { other.max_compute_workgroup_size_y },
            max_compute_workgroup_size_z: if self.max_compute_workgroup_size_z >= other.max_compute_workgroup_size_z { self.max_compute_workgroup_size_z } else { other.max_compute_workgroup_size_z },
            max_compute_workgroups_per_dimension: if self.max_compute_workgroups_per_dimension >= other.max_compute_workgroups_per_dimension { self.max_compute_workgroups_per_dimension } else { other.max_compute_workgroups_per_dimension },
            max_push_constant_size: if self.max_push_constant_size >= other.max_push_constant_size { self.max_push_constant_size } else { other.max_push_constant_size },
            min_uniform_buffer_offset_alignment: if self.min_uniform_buffer_offset_alignment <= other.min_uniform_buffer_offset_alignment { self.min_uniform_buffer_offset_alignment } else { other.min_uniform_buffer_offset_alignment },
            min_storage_buffer_offset_alignment: if self.min_storage_buffer_offset_alignment <= other.min_storage_buffer_offset_alignment { self.min_storage_buffer_offset_alignment } else { other.min_storage_buffer_offset_alignment },
        }
    }

    /// `self` asks no more than `other`: every ceiling of `self` is
    /// within `other`'s, and every alignment of `self` is at least as
    /// strict. This is the component-wise order by each field's
    /// permissive direction.
    pub open spec fn spec_within(self, other: Limits) -> bool {
        &&& self.max_texture_dimension_1d <= other.max_texture_dimension_1d
        &&& self.max_texture_dimension_2d <= other.max_texture_dimension_2d
        &&& self.max_texture_dimension_3d <= other.max_texture_dimension_3d
        &&& self.max_texture_array_layers <= other.max_texture_array_layers
        &&& self.max_bind_groups <= other.max_bind_groups
        &&& self.max_bindings_per_bind_group <= other.max_bindings_per_bind_group
        &&& self.max_dynamic_uniform_buffers_per_pipeline_layout <= other.max_dynamic_uniform_buffers_per_pipeline_layout
        &&& self.max_dynamic_storage_buffers_per_pipeline_layout <= other.max_dynamic_storage_buffers_per_pipeline_layout
        &&& self.max_sampled_textures_per_shader_stage <= other.max_sampled_textures_per_shader_stage
        &&& self.max_samplers_per_shader_stage <= other.max_samplers_per_shader_stage
        &&& self.max_storage_buffers_per_shader_stage <= other.max_storage_buffers_per_shader_stage
        &&& self.max_storage_textures_per_shader_stage <= other.max_storage_textures_per_shader_stage
        &&& self.max_uniform_buffers_per_shader_stage <= other.max_uniform_buffers_per_shader_stage
        &&& self.max_uniform_buffer_binding_size <= other.max_uniform_buffer_binding_size
        &&& self.max_storage_buffer_binding_size <= other.max_storage_buffer_binding_size
        &&& self.max_vertex_buffers <= other.max_vertex_buffers
        &&& self.max_buffer_size <= other.max_buffer_size
        &&& self.max_vertex_attributes <= other.max_vertex_attributes
        &&& self.max_vertex_buffer_array_stride <= other.max_vertex_buffer_array_stride
        &&& self.max_inter_stage_shader_components <= other.max_inter_stage_shader_components
        &&& self.max_compute_workgroup_storage_size <= other.max_compute_workgroup_storage_size
        &&& self.max_compute_invocations_per_workgroup <= other.max_compute_invocations_per_workgroup
        &&& self.max_compute_workgroup_size_x <= other.max_compute_workgroup_size_x
        &&& self.max_compute_workgroup_size_y <= other.max_compute_workgroup_size_y
        &&& self.max_compute_workgroup_size_z <= other.max_compute_workgroup_size_z
        &&& self.max_compute_workgroups_per_dimension <= other.max_compute_workgroups_per_dimension
        &&& self.max_push_constant_size <= other.max_push_constant_size
        &&& self.min_uniform_buffer_offset_alignment >= other.min_uniform_buffer_offset_alignment
        &&& self.min_storage_buffer_offset_alignment >= other.min_storage_buffer_offset_alignment
    }

    /// Gets the set of limits supported both by this and the other
    /// limits.
    pub fn intersection(&self, other: &Limits) -> (r: Limits)
        ensures
            r == self.spec_intersection(*other),
    {
        Limits {
            max_texture_dimension_1d: min_u32(self.max_texture_dimension_1d, other.max_texture_dimension_1d),
            max_texture_dimension_2d: min_u32(self.max_texture_dimension_2d, other.max_texture_dimension_2d),
            max_texture_dimension_3d: min_u32(self.max_texture_dimension_3d, other.max_texture_dimension_3d),
            max_texture_array_layers: min_u32(self.max_texture_array_layers, other.max_texture_array_layers),
            max_bind_groups: min_u32(self.max_bind_groups, other.max_bind_groups),
            max_bindings_per_bind_group: min_u32(self.max_bindings_per_bind_group, other.max_bindings_per_bind_group),
            max_dynamic_uniform_buffers_per_pipeline_layout: min_u32(self.max_dynamic_uniform_buffers_per_pipeline_layout, other.max_dynamic_uniform_buffers_per_pipeline_layout),
            max_dynamic_storage_buffers_per_pipeline_layout: min_u32(self.max_dynamic_storage_buffers_per_pipeline_layout, other.max_dynamic_storage_buffers_per_pipeline_layout),
            max_sampled_textures_per_shader_stage: min_u32(self.max_sampled_textures_per_shader_stage, other.max_sampled_textures_per_shader_stage),
            max_samplers_per_shader_stage: min_u32(self.max_samplers_per_shader_stage, other.max_samplers_per_shader_stage),
            max_storage_buffers_per_shader_stage: min_u32(self.max_storage_buffers_per_shader_stage, other.max_storage_buffers_per_shader_stage),
            max_storage_textures_per_shader_stage: min_u32(self.max_storage_textures_per_shader_stage, other.max_storage_textures_per_shader_stage),
            max_uniform_buffers_per_shader_stage: min_u32(self.max_uniform_buffers_per_shader_stage, other.max_uniform_buffers_per_shader_stage),
            max_uniform_buffer_binding_size: min_u32(self.max_uniform_buffer_binding_size, other.max_uniform_buffer_binding_size),
            max_storage_buffer_binding_size: min_u32(self.max_storage_buffer_binding_size, other.max_storage_buffer_binding_size),
            max_vertex_buffers: min_u32(self.max_vertex_buffers, other.max_vertex_buffers),
            max_buffer_size: min_u64(self.max_buffer_size, other.max_buffer_size),
            max_vertex_attributes: min_u32(self.max_vertex_attributes, other.max_vertex_attributes),
            max_vertex_buffer_array_stride: min_u32(self.max_vertex_buffer_array_stride, other.max_vertex_buffer_array_stride),
            max_inter_stage_shader_components: min_u32(self.max_inter_stage_shader_components, other.max_inter_stage_shader_components),
            max_compute_workgroup_storage_size: min_u32(self.max_compute_workgroup_storage_size, other.max_compute_workgroup_storage_size),
            max_compute_invocations_per_workgroup: min_u32(self.max_compute_invocations_per_workgroup, other.max_compute_invocations_per_workgroup),
            max_compute_workgroup_size_x: min_u32(self.max_compute_workgroup_size_x, other.max_compute_workgroup_size_x),
            max_compute_workgroup_size_y: min_u32(self.max_compute_workgroup_size_y, other.max_compute_workgroup_size_y),
            max_compute_workgroup_size_z: min_u32(self.max_compute_workgroup_size_z, other.max_compute_workgroup_size_z),
            max_compute_workgroups_per_dimension: min_u32(self.max_compute_workgroups_per_dimension, other.max_compute_workgroups_per_dimension),
            max_push_constant_size: min_u32(self.max_push_constant_size, other.max_push_constant_size),
            min_uniform_buffer_offset_alignment: max_u32(self.min_uniform_buffer_offset_alignment, other.min_uniform_buffer_offset_alignment),
            min_storage_buffer_offset_alignment: max_u32(self.min_storage_buffer_offset_alignment, other.min_storage_buffer_offset_alignment),
        }
    }

    /// Gets the set of limits supported by either this or the other
    /// limits.
    pub fn union(&self, other: &Limits) -> (r: Limits)
        ensures
            r == self.spec_union(*other),
    {
        Limits {
            max_texture_dimension_1d: max_u32(self.max_texture_dimension_1d, other.max_texture_dimension_1d),
            max_texture_dimension_2d: max_u32(self.max_texture_dimension_2d, other.max_texture_dimension_2d),
            max_texture_dimension_3d: max_u32(self.max_texture_dimension_3d, other.max_texture_dimension_3d),
            max_texture_array_layers: max_u32(self.max_texture_array_layers, other.max_texture_array_layers),
            max_bind_groups: max_u32(self.max_bind_groups, other.max_bind_groups),
            max_bindings_per_bind_group: max_u32(self.max_bindings_per_bind_group, other.max_bindings_per_bind_group),
            max_dynamic_uniform_buffers_per_pipeline_layout: max_u32(self.max_dynamic_uniform_buffers_per_pipeline_layout, other.max_dynamic_uniform_buffers_per_pipeline_layout),
            max_dynamic_storage_buffers_per_pipeline_layout: max_u32(self.max_dynamic_storage_buffers_per_pipeline_layout, other.max_dynamic_storage_buffers_per_pipeline_layout),
            max_sampled_textures_per_shader_stage: max_u32(self.max_sampled_textures_per_shader_stage, other.max_sampled_textures_per_shader_stage),
            max_samplers_per_shader_stage: max_u32(self.max_samplers_per_shader_stage, other.max_samplers_per_shader_stage),
            max_storage_buffers_per_shader_stage: max_u32(self.max_storage_buffers_per_shader_stage, other.max_storage_buffers_per_shader_stage),
            max_storage_textures_per_shader_stage: max_u32(self.max_storage_textures_per_shader_stage, other.max_storage_textures_per_shader_stage),
            max_uniform_buffers_per_shader_stage: max_u32(self.max_uniform_buffers_per_shader_stage, other.max_uniform_buffers_per_shader_stage),
            max_uniform_buffer_binding_size: max_u32(self.max_uniform_buffer_binding_size, other.max_uniform_buffer_binding_size),
            max_storage_buffer_binding_size: max_u32(self.max_storage_buffer_binding_size, other.max_storage_buffer_binding_size),
            max_vertex_buffers: max_u32(self.max_vertex_buffers, other.max_vertex_buffers),
            max_buffer_size: max_u64(self.max_buffer_size, other.max_buffer_size),
            max_vertex_attributes: max_u32(self.max_vertex_attributes, other.max_vertex_attributes),
            max_vertex_buffer_array_stride: max_u32(self.max_vertex_buffer_array_stride, other.max_vertex_buffer_array_stride),
            max_inter_stage_shader_components: max_u32(self.max_inter_stage_shader_components, other.max_inter_stage_shader_components),
            max_compute_workgroup_storage_size: max_u32(self.max_compute_workgroup_storage_size, other.max_compute_workgroup_storage_size),
            max_compute_invocations_per_workgroup: max_u32(self.max_compute_invocations_per_workgroup, other.max_compute_invocations_per_workgroup),
            max_compute_workgroup_size_x: max_u32(self.max_compute_workgroup_size_x, other.max_compute_workgroup_size_x),
            max_compute_workgroup_size_y: max_u32(self.max_compute_workgroup_size_y, other.max_compute_workgroup_size_y),
            max_compute_workgroup_size_z: max_u32(self.max_compute_workgroup_size_z, other.max_compute_workgroup_size_z),
            max_compute_workgroups_per_dimension: max_u32(self.max_compute_workgroups_per_dimension, other.max_compute_workgroups_per_dimension),
            max_push_constant_size: max_u32(self.max_push_constant_size, other.max_push_constant_size),
            min_uniform_buffer_offset_alignment: min_u32(self.min_uniform_buffer_offset_alignment, other.min_uniform_buffer_offset_alignment),
            min_storage_buffer_offset_alignment: min_u32(self.min_storage_buffer_offset_alignment, other.min_storage_buffer_offset_alignment),
        }
    }
}

/// An intersection asks no more than either of its operands, by each
/// field's permissive direction.
pub proof fn lemma_intersection_within(a: Limits, b: Limits)
    ensures
        a.spec_intersection(b).spec_within(a),
        a.spec_intersection(b).spec_within(b),
{
}

/// A union grants at least as much as either of its operands, by each
/// field's permissive direction.
pub proof fn lemma_union_contains(a: Limits, b: Limits)
    ensures
        a.spec_within(a.spec_union(b)),
        b.spec_within(a.spec_union(b)),
{
}

/// Intersecting a limit set with itself changes nothing.
pub proof fn lemma_intersection_idempotent(a: Limits)
    ensures
        a.spec_intersection(a) == a,
{
}

/// Uniting a limit set with itself changes nothing.
pub proof fn lemma_union_idempotent(a: Limits)
    ensures
        a.spec_union(a) == a,
{
}

} // verus!
