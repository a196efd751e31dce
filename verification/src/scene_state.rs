use vstd::prelude::*;

verus! {

/// The pixel formats of the images that the deferred renderer draws into.
#[derive(Clone, Copy, PartialEq, Eq, Structural, Debug)]
pub enum ImageFormat {
    B8G8R8A8Srgb,
    A2B10G10R10UnormPack32,
    R16G16B16A16Sfloat,
    D16Unorm,
}

/// Whether images of format `f` hold depth rather than colour.
pub open spec fn is_depth_format(f: ImageFormat) -> bool {
    f == ImageFormat::D16Unorm
}

/// The width and height of an image, in pixels.
#[derive(Clone, Copy, PartialEq, Eq, Structural, Debug)]
pub struct Extent {
    pub width: u32,
    pub height: u32,
}

/// An image that a render pass attaches: its format and its size.
#[derive(Clone, Copy, PartialEq, Eq, Structural, Debug)]
pub struct AttachmentImage {
    pub format: ImageFormat,
    pub extent: Extent,
}

/// How a render pass treats one of its attachments.
#[derive(Clone, Copy, PartialEq, Eq, Structural, Debug)]
pub struct AttachmentDescription {
    pub format: ImageFormat,
    /// Cleared when the pass begins.
    pub clear_on_load: bool,
    /// Kept when the pass ends; otherwise its contents are discarded.
    pub store: bool,
    pub samples: u32,
}

/// One step of a render pass: the attachments it writes colour to, the one it tests depth
/// against, and those it reads.
pub struct SubpassDescription {
    pub color: Vec<usize>,
    pub depth_stencil: Option<usize>,
    pub input: Vec<usize>,
}

/// The attachments and steps of a render pass.
pub struct RenderPassLayout {
    pub attachments: Vec<AttachmentDescription>,
    pub subpasses: Vec<SubpassDescription>,
}

/// The attachment that receives the finished picture (the swapchain image).
pub const FINAL_COLOR_ATTACHMENT: usize = 0;

/// The attachment of surface colours.
pub const DIFFUSE_ATTACHMENT: usize = 1;

/// The attachment of surface normals.
pub const NORMALS_ATTACHMENT: usize = 2;

/// The depth attachment.
pub const DEPTH_ATTACHMENT: usize = 3;

/// The step that draws geometry into the diffuse, normals and depth attachments.
pub const DIFFUSE_PASS: usize = 0;

/// The step that lights the picture from the diffuse, normals and depth attachments.
pub const LIGHTING_PASS: usize = 1;

/// The step that draws the user interface over the picture.
pub const UI_PASS: usize = 2;

/// Whether an attachment is cleared on load, has one sample and has format `format`,
/// and whether it is kept.
pub open spec fn describes(d: AttachmentDescription, format: ImageFormat, store: bool) -> bool {
    &&& d.format == format
    &&& d.clear_on_load
    &&& d.store == store
    &&& d.samples == 1
}

/// Whether subpass `s` writes colour to `color`, tests depth against `depth` and reads `input`.
pub open spec fn subpass_is(
    s: SubpassDescription,
    color: Seq<usize>,
    depth: Option<usize>,
    input: Seq<usize>,
) -> bool {
    &&& s.color@ == color
    &&& s.depth_stencil == depth
    &&& s.input@ == input
}

/// The deferred render pass whose finished picture has format `final_format`: geometry is
/// drawn into diffuse, normals and depth attachments (discarded afterwards), then lit into
/// the final picture (kept), then the user interface is drawn over it.
pub open spec fn is_deferred_layout(r: RenderPassLayout, final_format: ImageFormat) -> bool {
    &&& r.attachments@.len() == 4
    &&& describes(r.attachments@[0], final_format, true)
    &&& describes(r.attachments@[1], ImageFormat::A2B10G10R10UnormPack32, false)
    &&& describes(r.attachments@[2], ImageFormat::R16G16B16A16Sfloat, false)
    &&& describes(r.attachments@[3], ImageFormat::D16Unorm, false)
    &&& r.subpasses@.len() == 3
    &&& subpass_is(r.subpasses@[0], seq![1usize, 2usize], Some(3usize), Seq::empty())
    &&& subpass_is(r.subpasses@[1], seq![0usize], None, seq![1usize, 2usize, 3usize])
    &&& subpass_is(r.subpasses@[2], seq![0usize], None, Seq::empty())
}

/// Whether every step of a render pass names attachments that exist, writes colour only to
/// colour attachments, and tests depth only against a depth attachment.
pub open spec fn layout_well_formed(r: RenderPassLayout) -> bool {
    forall|p: int|
        0 <= p < r.subpasses@.len() ==> {
            let s = #[trigger] r.subpasses@[p];
            &&& forall|k: int|
                0 <= k < s.color@.len() ==> {
                    &&& s.color@[k] < r.attachments@.len()
                    &&& !is_depth_format(r.attachments@[s.color@[k] as int].format)
                }
            &&& forall|k: int| 0 <= k < s.input@.len() ==> s.input@[k] < r.attachments@.len()
            &&& match s.depth_stencil {
                Some(a) => a < r.attachments@.len() && is_depth_format(
                    r.attachments@[a as int].format,
                ),
                None => true,
            }
        }
}

/// The deferred render pass is well formed whenever its finished picture is a colour image.
pub proof fn lemma_deferred_layout_well_formed(r: RenderPassLayout, final_format: ImageFormat)
    requires
        is_deferred_layout(r, final_format),
        !is_depth_format(final_format),
    ensures
        layout_well_formed(r),
{
    assert forall|p: int| 0 <= p < r.subpasses@.len() implies {
        let s = #[trigger] r.subpasses@[p];
        &&& forall|k: int|
            0 <= k < s.color@.len() ==> {
                &&& s.color@[k] < r.attachments@.len()
                &&& !is_depth_format(r.attachments@[s.color@[k] as int].format)
            }
        &&& forall|k: int| 0 <= k < s.input@.len() ==> s.input@[k] < r.attachments@.len()
        &&& match s.depth_stencil {
            Some(a) => a < r.attachments@.len() && is_depth_format(
                r.attachments@[a as int].format,
            ),
            None => true,
        }
    } by {
        if p == 0 {
            assert(r.subpasses@[0].color@ == seq![1usize, 2usize]);
        } else if p == 1 {
            assert(r.subpasses@[1].color@ == seq![0usize]);
            assert(r.subpasses@[1].input@ == seq![1usize, 2usize, 3usize]);
        } else {
            assert(r.subpasses@[2].color@ == seq![0usize]);
        }
    }
}

fn subpass(color: Vec<usize>, depth_stencil: Option<usize>, input: Vec<usize>) -> (s:
    SubpassDescription)
    ensures
        s.color@ == color@,
        s.depth_stencil == depth_stencil,
        s.input@ == input@,
{
    SubpassDescription { color, depth_stencil, input }
}

fn attachment(format: ImageFormat, store: bool) -> (d: AttachmentDescription)
    ensures
        describes(d, format, store),
{
    AttachmentDescription { format, clear_on_load: true, store, samples: 1 }
}

/// Builds the deferred render pass whose finished picture has format `swapchain_format`.
pub fn build_render_pass(swapchain_format: ImageFormat) -> (r: RenderPassLayout)
    ensures
        is_deferred_layout(r, swapchain_format),
{
    let mut attachments: Vec<AttachmentDescription> = Vec::new();
    attachments.push(attachment(swapchain_format, true));
    attachments.push(attachment(ImageFormat::A2B10G10R10UnormPack32, false));
    attachments.push(attachment(ImageFormat::R16G16B16A16Sfloat, false));
    attachments.push(attachment(ImageFormat::D16Unorm, false));

    let mut geometry_color: Vec<usize> = Vec::new();
    geometry_color.push(DIFFUSE_ATTACHMENT);
    geometry_color.push(NORMALS_ATTACHMENT);
    let mut lighting_color: Vec<usize> = Vec::new();
    lighting_color.push(FINAL_COLOR_ATTACHMENT);
    let mut lighting_input: Vec<usize> = Vec::new();
    lighting_input.push(DIFFUSE_ATTACHMENT);
    lighting_input.push(NORMALS_ATTACHMENT);
    lighting_input.push(DEPTH_ATTACHMENT);
    let mut ui_color: Vec<usize> = Vec::new();
    ui_color.push(FINAL_COLOR_ATTACHMENT);

    let mut subpasses: Vec<SubpassDescription> = Vec::new();
    subpasses.push(subpass(geometry_color, Some(DEPTH_ATTACHMENT), Vec::new()));
    subpasses.push(subpass(lighting_color, None, lighting_input));
    subpasses.push(subpass(ui_color, None, Vec::new()));
    let r = RenderPassLayout { attachments, subpasses };
    assert(r.subpasses@[0].color@ =~= seq![1usize, 2usize]);
    assert(r.subpasses@[1].color@ =~= seq![0usize]);
    assert(r.subpasses@[1].input@ =~= seq![1usize, 2usize, 3usize]);
    assert(r.subpasses@[2].color@ =~= seq![0usize]);
    r
}

/// The graphics pipelines that the render systems draw with.
#[derive(Clone, Copy, PartialEq, Eq, Structural, Debug)]
pub enum PipelineKind {
    DirectionalLighting,
    AmbientLighting,
    RenderableDraw,
    TerrainDraw,
}

/// A graphics pipeline: which system it serves and the viewport it was built for.
#[derive(Clone, Copy, PartialEq, Eq, Structural, Debug)]
pub struct Pipeline {
    pub kind: PipelineKind,
    pub viewport: Extent,
}

/// The pipelines of a scene, at most one for each system.
pub struct PipelineTable {
    directional_lighting: Option<Pipeline>,
    ambient_lighting: Option<Pipeline>,
    renderable_draw: Option<Pipeline>,
    terrain_draw: Option<Pipeline>,
}

impl PipelineTable {
    /// The pipeline held for `kind`.
    pub closed spec fn entry(self, kind: PipelineKind) -> Option<Pipeline> {
        match kind {
            PipelineKind::DirectionalLighting => self.directional_lighting,
            PipelineKind::AmbientLighting => self.ambient_lighting,
            PipelineKind::RenderableDraw => self.renderable_draw,
            PipelineKind::TerrainDraw => self.terrain_draw,
        }
    }

    /// A table with no pipeline.
    pub fn empty() -> (t: Self)
        ensures
            forall|k: PipelineKind| #[trigger] t.entry(k) is None,
    {
        PipelineTable {
            directional_lighting: None,
            ambient_lighting: None,
            renderable_draw: None,
            terrain_draw: None,
        }
    }

    /// The pipeline held for `kind`, if any.
    pub fn get(&self, kind: PipelineKind) -> (r: Option<Pipeline>)
        ensures
            r == self.entry(kind),
    {
        match kind {
            PipelineKind::DirectionalLighting => self.directional_lighting,
            PipelineKind::AmbientLighting => self.ambient_lighting,
            PipelineKind::RenderableDraw => self.renderable_draw,
            PipelineKind::TerrainDraw => self.terrain_draw,
        }
    }

    /// Holds `pipeline` for its system, in place of any pipeline held for it before; the
    /// others stay.
    pub fn insert(&mut self, pipeline: Pipeline)
        ensures
            forall|k: PipelineKind|
                #[trigger] final(self).entry(k) == if k == pipeline.kind {
                    Some(pipeline)
                } else {
                    old(self).entry(k)
                },
    {
        match pipeline.kind {
            PipelineKind::DirectionalLighting => {
                self.directional_lighting = Some(pipeline);
            },
            PipelineKind::AmbientLighting => {
                self.ambient_lighting = Some(pipeline);
            },
            PipelineKind::RenderableDraw => {
                self.renderable_draw = Some(pipeline);
            },
            PipelineKind::TerrainDraw => {
                self.terrain_draw = Some(pipeline);
            },
        }
    }

    /// Drops every pipeline.
    pub fn clear(&mut self)
        ensures
            forall|k: PipelineKind| #[trigger] final(self).entry(k) is None,
    {
        self.directional_lighting = None;
        self.ambient_lighting = None;
        self.renderable_draw = None;
        self.terrain_draw = None;
    }
}

/// Whether `t` holds, for every system, a pipeline built for `viewport`.
pub open spec fn pipelines_built_for(t: PipelineTable, viewport: Extent) -> bool {
    forall|k: PipelineKind| #[trigger] t.entry(k) == Some(Pipeline { kind: k, viewport })
}

/// A framebuffer: the swapchain image it draws into, and the attachments bound beside it.
#[derive(Clone, Copy, PartialEq, Eq, Structural, Debug)]
pub struct Framebuffer {
    pub image_index: usize,
    pub image_extent: Extent,
    pub diffuse: AttachmentImage,
    pub normals: AttachmentImage,
    pub depth: AttachmentImage,
}

/// One framebuffer for each of `images`, in their order, each binding the given attachments.
pub open spec fn framebuffers_for(
    images: Seq<Extent>,
    diffuse: AttachmentImage,
    normals: AttachmentImage,
    depth: AttachmentImage,
) -> Seq<Framebuffer> {
    Seq::new(
        images.len(),
        |i: int|
            Framebuffer { image_index: i as usize, image_extent: images[i], diffuse, normals, depth },
    )
}

/// The attachment images a scene starts with: one pixel each.
pub open spec fn initial_buffers() -> (AttachmentImage, AttachmentImage, AttachmentImage) {
    (
        AttachmentImage {
            format: ImageFormat::B8G8R8A8Srgb,
            extent: Extent { width: 1, height: 1 },
        },
        AttachmentImage {
            format: ImageFormat::R16G16B16A16Sfloat,
            extent: Extent { width: 1, height: 1 },
        },
        AttachmentImage { format: ImageFormat::D16Unorm, extent: Extent { width: 1, height: 1 } },
    )
}

/// The attachment images rebuilt for images of size `extent`.
pub open spec fn resized_buffers(extent: Extent) -> (
    AttachmentImage,
    AttachmentImage,
    AttachmentImage,
) {
    (
        AttachmentImage { format: ImageFormat::A2B10G10R10UnormPack32, extent },
        AttachmentImage { format: ImageFormat::R16G16B16A16Sfloat, extent },
        AttachmentImage { format: ImageFormat::D16Unorm, extent },
    )
}

/// Builds the diffuse, normals and depth attachment images a scene starts with.
pub fn build_buffers() -> (r: (AttachmentImage, AttachmentImage, AttachmentImage))
    ensures
        r == initial_buffers(),
{
    let one = Extent { width: 1, height: 1 };
    (
        AttachmentImage { format: ImageFormat::B8G8R8A8Srgb, extent: one },
        AttachmentImage { format: ImageFormat::R16G16B16A16Sfloat, extent: one },
        AttachmentImage { format: ImageFormat::D16Unorm, extent: one },
    )
}

/// What the deferred renderer keeps for a scene: its render pass, its pipelines, the
/// attachment images, the viewport, and one framebuffer for each swapchain image.
pub struct SceneState {
    pub render_pass: RenderPassLayout,
    pub pipelines: PipelineTable,
    pub diffuse_buffer: AttachmentImage,
    pub normals_buffer: AttachmentImage,
    pub depth_buffer: AttachmentImage,
    pub viewport: Extent,
    pub framebuffers: Vec<Framebuffer>,
    pub diffuse_pass: usize,
    pub lighting_pass: usize,
    pub ui_pass: usize,
}

/// Whether `new` is `old` fitted to swapchain images of sizes `images`: the attachment
/// images are rebuilt at the size of the first image unless they already have it, one
/// framebuffer is made for each image, and the viewport and every pipeline take the size of
/// the first image; the render pass and its steps stay.
pub open spec fn scaled_to_images(old: SceneState, new: SceneState, images: Seq<Extent>) -> bool {
    let e = images[0];
    &&& if old.diffuse_buffer.extent == e {
        &&& new.diffuse_buffer == old.diffuse_buffer
        &&& new.normals_buffer == old.normals_buffer
        &&& new.depth_buffer == old.depth_buffer
    } else {
        (new.diffuse_buffer, new.normals_buffer, new.depth_buffer) == resized_buffers(e)
    }
    &&& new.framebuffers@ == framebuffers_for(
        images,
        new.diffuse_buffer,
        new.normals_buffer,
        new.depth_buffer,
    )
    &&& new.viewport == e
    &&& pipelines_built_for(new.pipelines, e)
    &&& new.render_pass == old.render_pass
    &&& new.diffuse_pass == old.diffuse_pass
    &&& new.lighting_pass == old.lighting_pass
    &&& new.ui_pass == old.ui_pass
}

/// Fitting a scene to the same images twice changes nothing the second time.
pub proof fn lemma_scaling_is_idempotent(
    s0: SceneState,
    s1: SceneState,
    s2: SceneState,
    images: Seq<Extent>,
)
    requires
        images.len() > 0,
        scaled_to_images(s0, s1, images),
        scaled_to_images(s1, s2, images),
    ensures
        s2.diffuse_buffer == s1.diffuse_buffer,
        s2.normals_buffer == s1.normals_buffer,
        s2.depth_buffer == s1.depth_buffer,
        s2.framebuffers@ == s1.framebuffers@,
        s2.viewport == s1.viewport,
        forall|k: PipelineKind| #[trigger] s2.pipelines.entry(k) == s1.pipelines.entry(k),
        s2.render_pass == s1.render_pass,
{
    let e = images[0];
    assert(s1.diffuse_buffer.extent == e);
    assert forall|k: PipelineKind| #[trigger] s2.pipelines.entry(k) == s1.pipelines.entry(k) by {
        assert(s2.pipelines.entry(k) == Some(Pipeline { kind: k, viewport: e }));
        assert(s1.pipelines.entry(k) == Some(Pipeline { kind: k, viewport: e }));
    }
}

/// Builds every pipeline for `viewport`.
fn build_pipelines(table: &mut PipelineTable, viewport: Extent)
    ensures
        pipelines_built_for(*final(table), viewport),
{
    table.clear();
    table.insert(Pipeline { kind: PipelineKind::DirectionalLighting, viewport });
    table.insert(Pipeline { kind: PipelineKind::RenderableDraw, viewport });
    table.insert(Pipeline { kind: PipelineKind::AmbientLighting, viewport });
    table.insert(Pipeline { kind: PipelineKind::TerrainDraw, viewport });
}

impl SceneState {
    /// The state for a swapchain whose images have format `swapchain_format`: the deferred
    /// render pass and its three steps, every pipeline built for a one-pixel viewport,
    /// one-pixel attachment images, and no framebuffer yet.
    pub fn new(swapchain_format: ImageFormat) -> (s: Self)
        ensures
            is_deferred_layout(s.render_pass, swapchain_format),
            s.diffuse_pass == DIFFUSE_PASS,
            s.lighting_pass == LIGHTING_PASS,
            s.ui_pass == UI_PASS,
            s.viewport == (Extent { width: 1, height: 1 }),
            pipelines_built_for(s.pipelines, Extent { width: 1, height: 1 }),
            (s.diffuse_buffer, s.normals_buffer, s.depth_buffer) == initial_buffers(),
            s.framebuffers@.len() == 0,
    {
        let viewport = Extent { width: 1, height: 1 };
        let render_pass = build_render_pass(swapchain_format);
        let mut pipelines = PipelineTable::empty();
        build_pipelines(&mut pipelines, viewport);
        let (diffuse_buffer, normals_buffer, depth_buffer) = build_buffers();
        SceneState {
            render_pass,
            pipelines,
            diffuse_buffer,
            normals_buffer,
            depth_buffer,
            viewport,
            framebuffers: Vec::new(),
            diffuse_pass: DIFFUSE_PASS,
            lighting_pass: LIGHTING_PASS,
            ui_pass: UI_PASS,
        }
    }

    /// Fits the attachment images, the framebuffers, the viewport and the pipelines to
    /// swapchain images of sizes `images`.
    pub fn scale_scene_state_to_images(&mut self, images: &Vec<Extent>)
        requires
            images@.len() > 0,
        ensures
            scaled_to_images(*old(self), *final(self), images@),
    {
        self.scale_image_views_to_images(images);
        self.recreate_framebuffers(images);
        self.rescale_viewport(images);
    }

    /// Rebuilds the attachment images at the size of the first image, unless they have it.
    fn scale_image_views_to_images(&mut self, images: &Vec<Extent>)
        requires
            images@.len() > 0,
        ensures
            if old(self).diffuse_buffer.extent == images@[0] {
                &&& final(self).diffuse_buffer == old(self).diffuse_buffer
                &&& final(self).normals_buffer == old(self).normals_buffer
                &&& final(self).depth_buffer == old(self).depth_buffer
            } else {
                (final(self).diffuse_buffer, final(self).normals_buffer, final(self).depth_buffer)
                    == resized_buffers(images@[0])
            },
            final(self).framebuffers@ == old(self).framebuffers@,
            final(self).viewport == old(self).viewport,
            final(self).pipelines == old(self).pipelines,
            final(self).render_pass == old(self).render_pass,
            final(self).diffuse_pass == old(self).diffuse_pass,
            final(self).lighting_pass == old(self).lighting_pass,
            final(self).ui_pass == old(self).ui_pass,
    {
        let extent = images[0];
        if self.diffuse_buffer.extent != extent {
            self.diffuse_buffer = AttachmentImage {
                format: ImageFormat::A2B10G10R10UnormPack32,
                extent,
            };
            self.normals_buffer = AttachmentImage { format: ImageFormat::R16G16B16A16Sfloat, extent };
            self.depth_buffer = AttachmentImage { format: ImageFormat::D16Unorm, extent };
        }
    }

    /// Makes one framebuffer for each image, binding the current attachment images.
    fn recreate_framebuffers(&mut self, images: &Vec<Extent>)
        ensures
            final(self).framebuffers@ == framebuffers_for(
                images@,
                old(self).diffuse_buffer,
                old(self).normals_buffer,
                old(self).depth_buffer,
            ),
            final(self).diffuse_buffer == old(self).diffuse_buffer,
            final(self).normals_buffer == old(self).normals_buffer,
            final(self).depth_buffer == old(self).depth_buffer,
            final(self).viewport == old(self).viewport,
            final(self).pipelines == old(self).pipelines,
            final(self).render_pass == old(self).render_pass,
            final(self).diffuse_pass == old(self).diffuse_pass,
            final(self).lighting_pass == old(self).lighting_pass,
            final(self).ui_pass == old(self).ui_pass,
    {
        let mut framebuffers: Vec<Framebuffer> = Vec::new();
        let mut i: usize = 0;
        while i < images.len()
            invariant
                i <= images@.len(),
                framebuffers@ == framebuffers_for(
                    images@.take(i as int),
                    self.diffuse_buffer,
                    self.normals_buffer,
                    self.depth_buffer,
                ),
            decreases images@.len() - i,
        {
            framebuffers.push(
                Framebuffer {
                    image_index: i,
                    image_extent: images[i],
                    diffuse: self.diffuse_buffer,
                    normals: self.normals_buffer,
                    depth: self.depth_buffer,
                },
            );
            i = i + 1;
            assert(framebuffers@ =~= framebuffers_for(
                images@.take(i as int),
                self.diffuse_buffer,
                self.normals_buffer,
                self.depth_buffer,
            ));
        }
        assert(images@.take(i as int) =~= images@);
        self.framebuffers = framebuffers;
    }

    /// Gives the viewport the size of the first image and rebuilds every pipeline for it.
    fn rescale_viewport(&mut self, images: &Vec<Extent>)
        requires
            images@.len() > 0,
        ensures
            final(self).viewport == images@[0],
            pipelines_built_for(final(self).pipelines, images@[0]),
            final(self).framebuffers@ == old(self).framebuffers@,
            final(self).diffuse_buffer == old(self).diffuse_buffer,
            final(self).normals_buffer == old(self).normals_buffer,
            final(self).depth_buffer == old(self).depth_buffer,
            final(self).render_pass == old(self).render_pass,
            final(self).diffuse_pass == old(self).diffuse_pass,
            final(self).lighting_pass == old(self).lighting_pass,
            final(self).ui_pass == old(self).ui_pass,
    {
        self.viewport = images[0];
        let viewport = self.viewport;
        self.match_pipelines_to_viewport_state(viewport);
    }

    /// Rebuilds every pipeline for `viewport`.
    fn match_pipelines_to_viewport_state(&mut self, viewport: Extent)
        ensures
            pipelines_built_for(final(self).pipelines, viewport),
            final(self).viewport == old(self).viewport,
            final(self).framebuffers@ == old(self).framebuffers@,
            final(self).diffuse_buffer == old(self).diffuse_buffer,
            final(self).normals_buffer == old(self).normals_buffer,
            final(self).depth_buffer == old(self).depth_buffer,
            final(self).render_pass == old(self).render_pass,
            final(self).diffuse_pass == old(self).diffuse_pass,
            final(self).lighting_pass == old(self).lighting_pass,
            final(self).ui_pass == old(self).ui_pass,
    {
        build_pipelines(&mut self.pipelines, viewport);
    }

    /// The pipeline of system `kind`, if one is held.
    pub fn get_pipeline_for_system(&self, kind: PipelineKind) -> (r: Option<Pipeline>)
        ensures
            r == self.pipelines.entry(kind),
    {
        self.pipelines.get(kind)
    }

    /// Holds `pipeline` for its system in place of the one held before.
    pub fn set_pipeline_for_system(&mut self, pipeline: Pipeline)
        ensures
            forall|k: PipelineKind|
                #[trigger] final(self).pipelines.entry(k) == if k == pipeline.kind {
                    Some(pipeline)
                } else {
                    old(self).pipelines.entry(k)
                },
            final(self).viewport == old(self).viewport,
            final(self).framebuffers@ == old(self).framebuffers@,
    {
        self.pipelines.insert(pipeline);
    }

    /// The framebuffer that draws into swapchain image `image_index`.
    pub fn get_framebuffer(&self, image_index: u32) -> (f: Framebuffer)
        requires
            image_index < self.framebuffers@.len(),
        ensures
            f == self.framebuffers@[image_index as int],
    {
        self.framebuffers[image_index as usize]
    }

    /// The viewport.
    pub fn viewport(&self) -> (v: Extent)
        ensures
            v == self.viewport,
    {
        self.viewport
    }

    /// The attachment image of surface colours.
    pub fn diffuse_buffer(&self) -> (b: AttachmentImage)
        ensures
            b == self.diffuse_buffer,
    {
        self.diffuse_buffer
    }

    /// The attachment image of surface normals.
    pub fn normals_buffer(&self) -> (b: AttachmentImage)
        ensures
            b == self.normals_buffer,
    {
        self.normals_buffer
    }

    /// The depth attachment image.
    pub fn depth_buffer(&self) -> (b: AttachmentImage)
        ensures
            b == self.depth_buffer,
    {
        self.depth_buffer
    }
}

} // verus!
