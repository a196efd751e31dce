use ember::scene_state::{
    build_buffers, build_render_pass, AttachmentImage, Extent, ImageFormat, Pipeline,
    PipelineKind, PipelineTable, SceneState, DIFFUSE_PASS, LIGHTING_PASS, UI_PASS,
};

fn extent(width: u32, height: u32) -> Extent {
    Extent { width, height }
}

const ALL_KINDS: [PipelineKind; 4] = [
    PipelineKind::DirectionalLighting,
    PipelineKind::AmbientLighting,
    PipelineKind::RenderableDraw,
    PipelineKind::TerrainDraw,
];

#[test]
fn render_pass_has_three_steps_over_four_attachments() {
    let r = build_render_pass(ImageFormat::B8G8R8A8Srgb);
    let formats: Vec<ImageFormat> = r.attachments.iter().map(|a| a.format).collect();
    assert_eq!(
        formats,
        vec![
            ImageFormat::B8G8R8A8Srgb,
            ImageFormat::A2B10G10R10UnormPack32,
            ImageFormat::R16G16B16A16Sfloat,
            ImageFormat::D16Unorm,
        ]
    );
    let stored: Vec<bool> = r.attachments.iter().map(|a| a.store).collect();
    assert_eq!(stored, vec![true, false, false, false]);
    assert!(r.attachments.iter().all(|a| a.clear_on_load && a.samples == 1));
    assert_eq!(r.subpasses.len(), 3);
    assert_eq!(r.subpasses[0].color, vec![1, 2]);
    assert_eq!(r.subpasses[0].depth_stencil, Some(3));
    assert!(r.subpasses[0].input.is_empty());
    assert_eq!(r.subpasses[1].color, vec![0]);
    assert_eq!(r.subpasses[1].depth_stencil, None);
    assert_eq!(r.subpasses[1].input, vec![1, 2, 3]);
    assert_eq!(r.subpasses[2].color, vec![0]);
    assert!(r.subpasses[2].input.is_empty());
}

#[test]
fn buffers_start_at_one_pixel() {
    let (d, n, z) = build_buffers();
    assert_eq!(d, AttachmentImage { format: ImageFormat::B8G8R8A8Srgb, extent: extent(1, 1) });
    assert_eq!(n, AttachmentImage { format: ImageFormat::R16G16B16A16Sfloat, extent: extent(1, 1) });
    assert_eq!(z, AttachmentImage { format: ImageFormat::D16Unorm, extent: extent(1, 1) });
}

#[test]
fn new_scene_state_has_no_framebuffer() {
    let s = SceneState::new(ImageFormat::B8G8R8A8Srgb);
    assert_eq!(s.diffuse_pass, DIFFUSE_PASS);
    assert_eq!(s.lighting_pass, LIGHTING_PASS);
    assert_eq!(s.ui_pass, UI_PASS);
    assert_eq!(s.viewport(), extent(1, 1));
    assert!(s.framebuffers.is_empty());
    for kind in ALL_KINDS {
        assert_eq!(s.get_pipeline_for_system(kind), Some(Pipeline { kind, viewport: extent(1, 1) }));
    }
}

#[test]
fn scaling_fits_everything_to_the_first_image() {
    let mut s = SceneState::new(ImageFormat::B8G8R8A8Srgb);
    let images = vec![extent(800, 600), extent(800, 600), extent(800, 600)];
    s.scale_scene_state_to_images(&images);
    let size = extent(800, 600);
    assert_eq!(s.diffuse_buffer(), AttachmentImage { format: ImageFormat::A2B10G10R10UnormPack32, extent: size });
    assert_eq!(s.normals_buffer(), AttachmentImage { format: ImageFormat::R16G16B16A16Sfloat, extent: size });
    assert_eq!(s.depth_buffer(), AttachmentImage { format: ImageFormat::D16Unorm, extent: size });
    assert_eq!(s.viewport(), size);
    assert_eq!(s.framebuffers.len(), 3);
    for i in 0..3u32 {
        let f = s.get_framebuffer(i);
        assert_eq!(f.image_index, i as usize);
        assert_eq!(f.image_extent, size);
        assert_eq!(f.diffuse, s.diffuse_buffer());
        assert_eq!(f.depth, s.depth_buffer());
    }
    for kind in ALL_KINDS {
        assert_eq!(s.get_pipeline_for_system(kind), Some(Pipeline { kind, viewport: size }));
    }
}

#[test]
fn scaling_to_one_pixel_keeps_the_first_buffers() {
    let mut s = SceneState::new(ImageFormat::B8G8R8A8Srgb);
    s.scale_scene_state_to_images(&vec![extent(1, 1)]);
    assert_eq!(s.diffuse_buffer().format, ImageFormat::B8G8R8A8Srgb);
    assert_eq!(s.framebuffers.len(), 1);
}

#[test]
fn scaling_twice_to_the_same_images_changes_nothing() {
    let mut s = SceneState::new(ImageFormat::B8G8R8A8Srgb);
    let images = vec![extent(1024, 768), extent(640, 480)];
    s.scale_scene_state_to_images(&images);
    let framebuffers = s.framebuffers.clone();
    let diffuse = s.diffuse_buffer();
    let viewport = s.viewport();
    s.scale_scene_state_to_images(&images);
    assert_eq!(s.framebuffers, framebuffers);
    assert_eq!(s.diffuse_buffer(), diffuse);
    assert_eq!(s.viewport(), viewport);
    assert_eq!(s.framebuffers[1].image_extent, extent(640, 480));
}

#[test]
fn setting_a_pipeline_replaces_only_that_system() {
    let mut s = SceneState::new(ImageFormat::B8G8R8A8Srgb);
    let p = Pipeline { kind: PipelineKind::TerrainDraw, viewport: extent(5, 7) };
    s.set_pipeline_for_system(p);
    assert_eq!(s.get_pipeline_for_system(PipelineKind::TerrainDraw), Some(p));
    assert_eq!(
        s.get_pipeline_for_system(PipelineKind::AmbientLighting),
        Some(Pipeline { kind: PipelineKind::AmbientLighting, viewport: extent(1, 1) })
    );
}

#[test]
fn pipeline_table_insert_get_clear() {
    let mut t = PipelineTable::empty();
    assert_eq!(t.get(PipelineKind::RenderableDraw), None);
    let p = Pipeline { kind: PipelineKind::RenderableDraw, viewport: extent(2, 3) };
    t.insert(p);
    assert_eq!(t.get(PipelineKind::RenderableDraw), Some(p));
    assert_eq!(t.get(PipelineKind::TerrainDraw), None);
    t.clear();
    assert_eq!(t.get(PipelineKind::RenderableDraw), None);
}
