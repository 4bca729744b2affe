use loopframe::limits::Limits;

/// A limit set with every ceiling and alignment equal to `v`.
fn uniform(v: u32) -> Limits {
    Limits {
        max_texture_dimension_1d: v,
        max_texture_dimension_2d: v,
        max_texture_dimension_3d: v,
        max_texture_array_layers: v,
        max_bind_groups: v,
        max_bindings_per_bind_group: v,
        max_dynamic_uniform_buffers_per_pipeline_layout: v,
        max_dynamic_storage_buffers_per_pipeline_layout: v,
        max_sampled_textures_per_shader_stage: v,
        max_samplers_per_shader_stage: v,
        max_storage_buffers_per_shader_stage: v,
        max_storage_textures_per_shader_stage: v,
        max_uniform_buffers_per_shader_stage: v,
        max_uniform_buffer_binding_size: v,
        max_storage_buffer_binding_size: v,
        max_vertex_buffers: v,
        max_buffer_size: v as u64,
        max_vertex_attributes: v,
        max_vertex_buffer_array_stride: v,
        max_inter_stage_shader_components: v,
        max_compute_workgroup_storage_size: v,
        max_compute_invocations_per_workgroup: v,
        max_compute_workgroup_size_x: v,
        max_compute_workgroup_size_y: v,
        max_compute_workgroup_size_z: v,
        max_compute_workgroups_per_dimension: v,
        max_push_constant_size: v,
        min_uniform_buffer_offset_alignment: v,
        min_storage_buffer_offset_alignment: v,
    }
}

#[test]
fn intersection_takes_min_of_ceilings_and_max_of_alignments() {
    let mut a = uniform(100);
    let mut b = uniform(100);
    a.max_buffer_size = 4096;
    b.max_buffer_size = 1024;
    a.max_texture_dimension_2d = 50;
    b.max_texture_dimension_2d = 800;
    a.min_uniform_buffer_offset_alignment = 64;
    b.min_uniform_buffer_offset_alignment = 256;
    let meet = a.intersection(&b);
    assert_eq!(meet.max_buffer_size, 1024);
    assert_eq!(meet.max_texture_dimension_2d, 50);
    // The stricter (larger) alignment requirement is honored.
    assert_eq!(meet.min_uniform_buffer_offset_alignment, 256);
    assert_eq!(meet.max_bind_groups, 100);
}

#[test]
fn union_takes_max_of_ceilings_and_min_of_alignments() {
    let mut a = uniform(100);
    let mut b = uniform(100);
    a.max_buffer_size = 4096;
    b.max_buffer_size = 1024;
    a.max_push_constant_size = 0;
    b.max_push_constant_size = 128;
    a.min_storage_buffer_offset_alignment = 64;
    b.min_storage_buffer_offset_alignment = 256;
    let join = a.union(&b);
    assert_eq!(join.max_buffer_size, 4096);
    assert_eq!(join.max_push_constant_size, 128);
    assert_eq!(join.min_storage_buffer_offset_alignment, 64);
}

#[test]
fn intersection_and_union_with_self_change_nothing() {
    let mut a = uniform(7);
    a.max_buffer_size = 123_456;
    a.min_uniform_buffer_offset_alignment = 32;
    assert_eq!(a.intersection(&a), a);
    assert_eq!(a.union(&a), a);
}

#[test]
fn intersection_is_within_both_operands() {
    let mut a = uniform(10);
    let mut b = uniform(20);
    a.min_uniform_buffer_offset_alignment = 256;
    b.max_buffer_size = 5;
    let meet = a.intersection(&b);
    let join = a.union(&b);
    assert!(meet.max_texture_dimension_1d <= a.max_texture_dimension_1d && meet.max_texture_dimension_1d <= b.max_texture_dimension_1d);
    assert!(join.max_texture_dimension_1d >= a.max_texture_dimension_1d && join.max_texture_dimension_1d >= b.max_texture_dimension_1d);
    assert!(meet.max_texture_dimension_2d <= a.max_texture_dimension_2d && meet.max_texture_dimension_2d <= b.max_texture_dimension_2d);
    assert!(join.max_texture_dimension_2d >= a.max_texture_dimension_2d && join.max_texture_dimension_2d >= b.max_texture_dimension_2d);
    assert!(meet.max_texture_dimension_3d <= a.max_texture_dimension_3d && meet.max_texture_dimension_3d <= b.max_texture_dimension_3d);
    assert!(join.max_texture_dimension_3d >= a.max_texture_dimension_3d && join.max_texture_dimension_3d >= b.max_texture_dimension_3d);
    assert!(meet.max_texture_array_layers <= a.max_texture_array_layers && meet.max_texture_array_layers <= b.max_texture_array_layers);
    assert!(join.max_texture_array_layers >= a.max_texture_array_layers && join.max_texture_array_layers >= b.max_texture_array_layers);
    assert!(meet.max_bind_groups <= a.max_bind_groups && meet.max_bind_groups <= b.max_bind_groups);
    assert!(join.max_bind_groups >= a.max_bind_groups && join.max_bind_groups >= b.max_bind_groups);
    assert!(meet.max_bindings_per_bind_group <= a.max_bindings_per_bind_group && meet.max_bindings_per_bind_group <= b.max_bindings_per_bind_group);
    assert!(join.max_bindings_per_bind_group >= a.max_bindings_per_bind_group && join.max_bindings_per_bind_group >= b.max_bindings_per_bind_group);
    assert!(meet.max_dynamic_uniform_buffers_per_pipeline_layout <= a.max_dynamic_uniform_buffers_per_pipeline_layout && meet.max_dynamic_uniform_buffers_per_pipeline_layout <= b.max_dynamic_uniform_buffers_per_pipeline_layout);
    assert!(join.max_dynamic_uniform_buffers_per_pipeline_layout >= a.max_dynamic_uniform_buffers_per_pipeline_layout && join.max_dynamic_uniform_buffers_per_pipeline_layout >= b.max_dynamic_uniform_buffers_per_pipeline_layout);
    assert!(meet.max_dynamic_storage_buffers_per_pipeline_layout <= a.max_dynamic_storage_buffers_per_pipeline_layout && meet.max_dynamic_storage_buffers_per_pipeline_layout <= b.max_dynamic_storage_buffers_per_pipeline_layout);
    assert!(join.max_dynamic_storage_buffers_per_pipeline_layout >= a.max_dynamic_storage_buffers_per_pipeline_layout && join.max_dynamic_storage_buffers_per_pipeline_layout >= b.max_dynamic_storage_buffers_per_pipeline_layout);
    assert!(meet.max_sampled_textures_per_shader_stage <= a.max_sampled_textures_per_shader_stage && meet.max_sampled_textures_per_shader_stage <= b.max_sampled_textures_per_shader_stage);
    assert!(join.max_sampled_textures_per_shader_stage >= a.max_sampled_textures_per_shader_stage && join.max_sampled_textures_per_shader_stage >= b.max_sampled_textures_per_shader_stage);
    assert!(meet.max_samplers_per_shader_stage <= a.max_samplers_per_shader_stage && meet.max_samplers_per_shader_stage <= b.max_samplers_per_shader_stage);
    assert!(join.max_samplers_per_shader_stage >= a.max_samplers_per_shader_stage && join.max_samplers_per_shader_stage >= b.max_samplers_per_shader_stage);
    assert!(meet.max_storage_buffers_per_shader_stage <= a.max_storage_buffers_per_shader_stage && meet.max_storage_buffers_per_shader_stage <= b.max_storage_buffers_per_shader_stage);
    assert!(join.max_storage_buffers_per_shader_stage >= a.max_storage_buffers_per_shader_stage && join.max_storage_buffers_per_shader_stage >= b.max_storage_buffers_per_shader_stage);
    assert!(meet.max_storage_textures_per_shader_stage <= a.max_storage_textures_per_shader_stage && meet.max_storage_textures_per_shader_stage <= b.max_storage_textures_per_shader_stage);
    assert!(join.max_storage_textures_per_shader_stage >= a.max_storage_textures_per_shader_stage && join.max_storage_textures_per_shader_stage >= b.max_storage_textures_per_shader_stage);
    assert!(meet.max_uniform_buffers_per_shader_stage <= a.max_uniform_buffers_per_shader_stage && meet.max_uniform_buffers_per_shader_stage <= b.max_uniform_buffers_per_shader_stage);
    assert!(join.max_uniform_buffers_per_shader_stage >= a.max_uniform_buffers_per_shader_stage && join.max_uniform_buffers_per_shader_stage >= b.max_uniform_buffers_per_shader_stage);
    assert!(meet.max_uniform_buffer_binding_size <= a.max_uniform_buffer_binding_size && meet.max_uniform_buffer_binding_size <= b.max_uniform_buffer_binding_size);
    assert!(join.max_uniform_buffer_binding_size >= a.max_uniform_buffer_binding_size && join.max_uniform_buffer_binding_size >= b.max_uniform_buffer_binding_size);
    assert!(meet.max_storage_buffer_binding_size <= a.max_storage_buffer_binding_size && meet.max_storage_buffer_binding_size <= b.max_storage_buffer_binding_size);
    assert!(join.max_storage_buffer_binding_size >= a.max_storage_buffer_binding_size && join.max_storage_buffer_binding_size >= b.max_storage_buffer_binding_size);
    assert!(meet.max_vertex_buffers <= a.max_vertex_buffers && meet.max_vertex_buffers <= b.max_vertex_buffers);
    assert!(join.max_vertex_buffers >= a.max_vertex_buffers && join.max_vertex_buffers >= b.max_vertex_buffers);
    assert!(meet.max_buffer_size <= a.max_buffer_size && meet.max_buffer_size <= b.max_buffer_size);
    assert!(join.max_buffer_size >= a.max_buffer_size && join.max_buffer_size >= b.max_buffer_size);
    assert!(meet.max_vertex_attributes <= a.max_vertex_attributes && meet.max_vertex_attributes <= b.max_vertex_attributes);
    assert!(join.max_vertex_attributes >= a.max_vertex_attributes && join.max_vertex_attributes >= b.max_vertex_attributes);
    assert!(meet.max_vertex_buffer_array_stride <= a.max_vertex_buffer_array_stride && meet.max_vertex_buffer_array_stride <= b.max_vertex_buffer_array_stride);
    assert!(join.max_vertex_buffer_array_stride >= a.max_vertex_buffer_array_stride && join.max_vertex_buffer_array_stride >= b.max_vertex_buffer_array_stride);
    assert!(meet.max_inter_stage_shader_components <= a.max_inter_stage_shader_components && meet.max_inter_stage_shader_components <= b.max_inter_stage_shader_components);
    assert!(join.max_inter_stage_shader_components >= a.max_inter_stage_shader_components && join.max_inter_stage_shader_components >= b.max_inter_stage_shader_components);
    assert!(meet.max_compute_workgroup_storage_size <= a.max_compute_workgroup_storage_size && meet.max_compute_workgroup_storage_size <= b.max_compute_workgroup_storage_size);
    assert!(join.max_compute_workgroup_storage_size >= a.max_compute_workgroup_storage_size && join.max_compute_workgroup_storage_size >= b.max_compute_workgroup_storage_size);
    assert!(meet.max_compute_invocations_per_workgroup <= a.max_compute_invocations_per_workgroup && meet.max_compute_invocations_per_workgroup <= b.max_compute_invocations_per_workgroup);
    assert!(join.max_compute_invocations_per_workgroup >= a.max_compute_invocations_per_workgroup && join.max_compute_invocations_per_workgroup >= b.max_compute_invocations_per_workgroup);
    assert!(meet.max_compute_workgroup_size_x <= a.max_compute_workgroup_size_x && meet.max_compute_workgroup_size_x <= b.max_compute_workgroup_size_x);
    assert!(join.max_compute_workgroup_size_x >= a.max_compute_workgroup_size_x && join.max_compute_workgroup_size_x >= b.max_compute_workgroup_size_x);
    assert!(meet.max_compute_workgroup_size_y <= a.max_compute_workgroup_size_y && meet.max_compute_workgroup_size_y <= b.max_compute_workgroup_size_y);
    assert!(join.max_compute_workgroup_size_y >= a.max_compute_workgroup_size_y && join.max_compute_workgroup_size_y >= b.max_compute_workgroup_size_y);
    assert!(meet.max_compute_workgroup_size_z <= a.max_compute_workgroup_size_z && meet.max_compute_workgroup_size_z <= b.max_compute_workgroup_size_z);
    assert!(join.max_compute_workgroup_size_z >= a.max_compute_workgroup_size_z && join.max_compute_workgroup_size_z >= b.max_compute_workgroup_size_z);
    assert!(meet.max_compute_workgroups_per_dimension <= a.max_compute_workgroups_per_dimension && meet.max_compute_workgroups_per_dimension <= b.max_compute_workgroups_per_dimension);
    assert!(join.max_compute_workgroups_per_dimension >= a.max_compute_workgroups_per_dimension && join.max_compute_workgroups_per_dimension >= b.max_compute_workgroups_per_dimension);
    assert!(meet.max_push_constant_size <= a.max_push_constant_size && meet.max_push_constant_size <= b.max_push_constant_size);
    assert!(join.max_push_constant_size >= a.max_push_constant_size && join.max_push_constant_size >= b.max_push_constant_size);
    assert!(meet.min_uniform_buffer_offset_alignment >= a.min_uniform_buffer_offset_alignment && meet.min_uniform_buffer_offset_alignment >= b.min_uniform_buffer_offset_alignment);
    assert!(join.min_uniform_buffer_offset_alignment <= a.min_uniform_buffer_offset_alignment && join.min_uniform_buffer_offset_alignment <= b.min_uniform_buffer_offset_alignment);
    assert!(meet.min_storage_buffer_offset_alignment >= a.min_storage_buffer_offset_alignment && meet.min_storage_buffer_offset_alignment >= b.min_storage_buffer_offset_alignment);
    assert!(join.min_storage_buffer_offset_alignment <= a.min_storage_buffer_offset_alignment && join.min_storage_buffer_offset_alignment <= b.min_storage_buffer_offset_alignment);
}
