use loopframe::adapter_query::device_type_ranking;
use loopframe::adapter_query::request_powerful_adapter;
use loopframe::adapter_query::AdapterProfile;
use loopframe::adapter_query::AdapterQuery;
use loopframe::adapter_query::DeviceType;
use loopframe::limits::Limits;

fn limits(buffer: u64) -> Limits {
    Limits {
        max_texture_dimension_1d: 2048,
        max_texture_dimension_2d: 2048,
        max_texture_dimension_3d: 256,
        max_texture_array_layers: 256,
        max_bind_groups: 4,
        max_bindings_per_bind_group: 640,
        max_dynamic_uniform_buffers_per_pipeline_layout: 8,
        max_dynamic_storage_buffers_per_pipeline_layout: 4,
        max_sampled_textures_per_shader_stage: 16,
        max_samplers_per_shader_stage: 16,
        max_storage_buffers_per_shader_stage: 8,
        max_storage_textures_per_shader_stage: 4,
        max_uniform_buffers_per_shader_stage: 12,
        max_uniform_buffer_binding_size: 65536,
        max_storage_buffer_binding_size: 134217728,
        max_vertex_buffers: 8,
        max_buffer_size: buffer,
        max_vertex_attributes: 16,
        max_vertex_buffer_array_stride: 2048,
        max_inter_stage_shader_components: 60,
        max_compute_workgroup_storage_size: 16384,
        max_compute_invocations_per_workgroup: 256,
        max_compute_workgroup_size_x: 256,
        max_compute_workgroup_size_y: 256,
        max_compute_workgroup_size_z: 64,
        max_compute_workgroups_per_dimension: 65535,
        max_push_constant_size: 0,
        min_uniform_buffer_offset_alignment: 256,
        min_storage_buffer_offset_alignment: 256,
    }
}

fn profile(device: u32, device_type: DeviceType, buffer: u64) -> AdapterProfile {
    AdapterProfile { device_type, limits: limits(buffer), device, surface_compatible: true }
}

#[test]
fn category_ranking_is_strictly_ordered() {
    assert_eq!(device_type_ranking(&DeviceType::DiscreteGpu), 4);
    assert_eq!(device_type_ranking(&DeviceType::IntegratedGpu), 3);
    assert_eq!(device_type_ranking(&DeviceType::VirtualGpu), 2);
    assert_eq!(device_type_ranking(&DeviceType::Other), 1);
    assert_eq!(device_type_ranking(&DeviceType::Cpu), 0);
    assert!(device_type_ranking(&DeviceType::DiscreteGpu)
        > device_type_ranking(&DeviceType::IntegratedGpu));
    assert!(device_type_ranking(&DeviceType::IntegratedGpu)
        > device_type_ranking(&DeviceType::VirtualGpu));
    assert!(device_type_ranking(&DeviceType::VirtualGpu)
        > device_type_ranking(&DeviceType::Other));
    assert!(device_type_ranking(&DeviceType::Other) > device_type_ranking(&DeviceType::Cpu));
}

#[test]
fn best_category_wins_regardless_of_limits() {
    let adapters = vec![
        profile(1, DeviceType::Cpu, 1 << 40),
        profile(2, DeviceType::IntegratedGpu, 1 << 20),
        profile(3, DeviceType::VirtualGpu, 1 << 30),
    ];
    let query = AdapterQuery::default();
    assert_eq!(request_powerful_adapter(&adapters, &query), Some(1));
}

#[test]
fn limits_break_category_ties() {
    let adapters = vec![
        profile(1, DeviceType::DiscreteGpu, 1 << 20),
        profile(2, DeviceType::DiscreteGpu, 1 << 30),
        profile(3, DeviceType::DiscreteGpu, 1 << 25),
        profile(4, DeviceType::IntegratedGpu, 1 << 40),
    ];
    let query = AdapterQuery::default();
    assert_eq!(request_powerful_adapter(&adapters, &query), Some(1));
}

#[test]
fn exact_ties_keep_the_later_adapter() {
    let adapters = vec![
        profile(1, DeviceType::DiscreteGpu, 1 << 20),
        profile(2, DeviceType::DiscreteGpu, 1 << 20),
    ];
    let query = AdapterQuery::default();
    assert_eq!(request_powerful_adapter(&adapters, &query), Some(1));
}

#[test]
fn no_matching_adapter_yields_none() {
    let query = AdapterQuery::default();
    assert_eq!(request_powerful_adapter(&Vec::new(), &query), None);
    let adapters = vec![profile(1, DeviceType::Cpu, 1 << 20)];
    let forced = AdapterQuery {
        force_adapter_type: Some(DeviceType::DiscreteGpu),
        ..AdapterQuery::default()
    };
    assert_eq!(request_powerful_adapter(&adapters, &forced), None);
}

#[test]
fn blacklisted_devices_are_excluded() {
    let adapters = vec![
        profile(7, DeviceType::DiscreteGpu, 1 << 30),
        profile(8, DeviceType::IntegratedGpu, 1 << 20),
    ];
    let query = AdapterQuery { physical_blacklist: vec![7], ..AdapterQuery::default() };
    assert_eq!(request_powerful_adapter(&adapters, &query), Some(1));
}

#[test]
fn surface_compatibility_filter() {
    let mut incompatible = profile(1, DeviceType::DiscreteGpu, 1 << 30);
    incompatible.surface_compatible = false;
    let adapters = vec![incompatible, profile(2, DeviceType::VirtualGpu, 1 << 20)];
    let query = AdapterQuery { require_compatible_surface: true, ..AdapterQuery::default() };
    assert_eq!(request_powerful_adapter(&adapters, &query), Some(1));
    // Without the requirement the discrete adapter wins.
    let lax = AdapterQuery::default();
    assert_eq!(request_powerful_adapter(&adapters, &lax), Some(0));
}

#[test]
fn is_adapter_allowed_checks_all_filters() {
    let adapter = profile(5, DeviceType::IntegratedGpu, 1 << 20);
    let query = AdapterQuery::default();
    assert!(query.is_adapter_allowed(&adapter));
    let forced = AdapterQuery {
        force_adapter_type: Some(DeviceType::DiscreteGpu),
        ..AdapterQuery::default()
    };
    assert!(!forced.is_adapter_allowed(&adapter));
    let blacklisted = AdapterQuery { physical_blacklist: vec![5], ..AdapterQuery::default() };
    assert!(!blacklisted.is_adapter_allowed(&adapter));
    let mut hidden = adapter;
    hidden.surface_compatible = false;
    let strict = AdapterQuery { require_compatible_surface: true, ..AdapterQuery::default() };
    assert!(!strict.is_adapter_allowed(&hidden));
}
