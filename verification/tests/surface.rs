use app_core::surface::{
    choose_surface_format, clamp_edge, clamp_surface_size, surface_format_flags, Extent, Gpu,
    Renderer, TargetCache, MAX_SURFACE_EDGE, MIN_SURFACE_EDGE,
};

#[test]
fn edge_inside_the_range_is_kept() {
    assert_eq!(clamp_edge(1), 1);
    assert_eq!(clamp_edge(800), 800);
    assert_eq!(clamp_edge(2048), 2048);
}

#[test]
fn edge_outside_the_range_goes_to_the_nearest_bound() {
    assert_eq!(clamp_edge(0), 1);
    assert_eq!(clamp_edge(2049), 2048);
    assert_eq!(clamp_edge(u32::MAX), 2048);
}

#[test]
fn range_bounds_are_one_and_2048() {
    assert_eq!(MIN_SURFACE_EDGE, 1);
    assert_eq!(MAX_SURFACE_EDGE, 2048);
}

#[test]
fn size_is_clamped_edge_by_edge() {
    assert_eq!(clamp_surface_size(0, 5000), (1, 2048));
    assert_eq!(clamp_surface_size(1280, 720), (1280, 720));
    assert_eq!(clamp_surface_size(4096, 0), (2048, 1));
}

#[test]
fn clamping_agrees_with_the_standard_clamp() {
    for edge in [0u32, 1, 2, 17, 2047, 2048, 2049, 100_000, u32::MAX] {
        assert_eq!(clamp_edge(edge), edge.clamp(1, 2048));
    }
}

#[test]
fn formats_are_flagged_in_their_order() {
    let formats = vec![
        wgpu::TextureFormat::Bgra8UnormSrgb,
        wgpu::TextureFormat::Bgra8Unorm,
        wgpu::TextureFormat::Rgba8UnormSrgb,
        wgpu::TextureFormat::Rgba16Float,
    ];
    assert_eq!(surface_format_flags(&formats), vec![true, false, true, false]);
    assert_eq!(surface_format_flags(&vec![]), Vec::<bool>::new());
}

#[test]
fn linear_format_is_picked_from_what_a_surface_offers() {
    let formats = vec![
        wgpu::TextureFormat::Bgra8UnormSrgb,
        wgpu::TextureFormat::Rgba8UnormSrgb,
        wgpu::TextureFormat::Bgra8Unorm,
        wgpu::TextureFormat::Rgba8Unorm,
    ];
    let gpu = Gpu::new_async(&surface_format_flags(&formats), 800, 600);
    assert_eq!(formats[gpu.surface_format], wgpu::TextureFormat::Bgra8Unorm);
    let only_srgb = vec![wgpu::TextureFormat::Rgba8UnormSrgb, wgpu::TextureFormat::Bgra8UnormSrgb];
    let gpu = Gpu::new_async(&surface_format_flags(&only_srgb), 800, 600);
    assert_eq!(only_srgb[gpu.surface_format], wgpu::TextureFormat::Rgba8UnormSrgb);
}

#[test]
fn first_linear_format_is_chosen() {
    assert_eq!(choose_surface_format(&vec![true, true, false, false]), 2);
    assert_eq!(choose_surface_format(&vec![false, true]), 0);
    assert_eq!(choose_surface_format(&vec![true, false]), 1);
}

#[test]
fn first_format_is_chosen_when_all_are_srgb() {
    assert_eq!(choose_surface_format(&vec![true]), 0);
    assert_eq!(choose_surface_format(&vec![true, true, true]), 0);
}

#[test]
fn single_linear_format_is_chosen() {
    assert_eq!(choose_surface_format(&vec![false]), 0);
}

#[test]
fn gpu_takes_the_first_configuration() {
    let gpu = Gpu::new_async(&vec![true, false], 640, 480);
    assert_eq!(gpu, Gpu { surface_width: 640, surface_height: 480, surface_format: 1 });
}

#[test]
fn gpu_resize_keeps_the_format() {
    let mut gpu = Gpu::new_async(&vec![true, true, false], 640, 480);
    gpu.resize(1024, 768);
    assert_eq!(gpu, Gpu { surface_width: 1024, surface_height: 768, surface_format: 2 });
}

#[test]
fn aspect_ratio_is_width_over_height() {
    let gpu = Gpu { surface_width: 1920, surface_height: 1080, surface_format: 0 };
    assert_eq!(gpu.aspect_ratio(), (1920, 1080));
}

#[test]
fn aspect_ratio_of_a_flat_surface_has_denominator_one() {
    let gpu = Gpu { surface_width: 300, surface_height: 0, surface_format: 0 };
    assert_eq!(gpu.aspect_ratio(), (300, 1));
    let gpu = Gpu { surface_width: 0, surface_height: 0, surface_format: 0 };
    assert_eq!(gpu.aspect_ratio(), (0, 1));
}

#[test]
fn depth_texture_has_one_layer_of_the_asked_size() {
    let gpu = Gpu { surface_width: 1, surface_height: 1, surface_format: 0 };
    assert_eq!(gpu.create_depth_texture(800, 600), Extent { width: 800, height: 600, layers: 1 });
}

#[test]
fn renderer_starts_with_matching_attachments() {
    let renderer = Renderer::new(&vec![true, false], 800, 600);
    assert_eq!(
        renderer.context(),
        Gpu { surface_width: 800, surface_height: 600, surface_format: 1 }
    );
    assert_eq!(renderer.depth_extent(), Extent { width: 800, height: 600, layers: 1 });
}

#[test]
fn renderer_around_a_context_matches_its_surface() {
    let gpu = Gpu { surface_width: 321, surface_height: 123, surface_format: 4 };
    let renderer = Renderer::from_gpu(gpu);
    assert_eq!(renderer.context(), gpu);
    assert_eq!(renderer.depth_extent(), Extent { width: 321, height: 123, layers: 1 });
}

#[test]
fn renderer_resize_replaces_both_attachments() {
    let mut renderer = Renderer::new(&vec![false], 800, 600);
    renderer.resize(1024, 512);
    assert_eq!(
        renderer.context(),
        Gpu { surface_width: 1024, surface_height: 512, surface_format: 0 }
    );
    assert_eq!(renderer.depth_extent(), Extent { width: 1024, height: 512, layers: 1 });
    renderer.resize(1, 1);
    assert_eq!(renderer.depth_extent(), Extent { width: 1, height: 1, layers: 1 });
    assert_eq!(renderer.context().surface_width, 1);
}

#[test]
fn empty_cache_misses() {
    let mut cache = TargetCache::new();
    assert_eq!(cache.size, None);
    assert!(cache.request(1832, 1920));
    assert_eq!(cache.size, Some((1832, 1920)));
}

#[test]
fn cache_hits_on_the_same_size() {
    let mut cache = TargetCache::new();
    assert!(cache.request(1832, 1920));
    assert!(!cache.request(1832, 1920));
    assert!(!cache.request(1832, 1920));
    assert_eq!(cache.size, Some((1832, 1920)));
}

#[test]
fn cache_misses_when_either_edge_changes() {
    let mut cache = TargetCache::new();
    assert!(cache.request(100, 200));
    assert!(cache.request(100, 201));
    assert!(cache.request(101, 201));
    assert!(!cache.request(101, 201));
    assert!(cache.request(201, 101));
    assert_eq!(cache.size, Some((201, 101)));
}

#[test]
fn cache_keeps_no_older_size() {
    let mut cache = TargetCache::new();
    assert!(cache.request(10, 10));
    assert!(cache.request(20, 20));
    assert!(cache.request(10, 10));
}
