use vstd::prelude::*;

verus! {

/// The stencil value that the mask pass writes inside the mirror's footprint,
/// and that every pass drawing "inside the mirror" compares against.
pub const STENCIL_REFERENCE: u32 = 1;

/// The value the stencil aspect is cleared to at the start of each frame.
pub const STENCIL_CLEAR: u32 = 0;

/// Full 8-bit stencil mask.
pub const STENCIL_MASK_ALL: u32 = 0xFF;

/// One step of the per-frame pipeline; each pipeline serves exactly one pass.
#[derive(Clone, Copy, Debug, PartialEq, Eq, Structural)]
pub enum Stage {
    StencilMask,
    DebugOverlay,
    Reflection,
    MainScene,
    MirrorSurface,
}

#[derive(Clone, Copy, Debug, PartialEq, Eq, Structural)]
pub enum CompareFunction {
    Never,
    Less,
    Equal,
    LessEqual,
    Greater,
    NotEqual,
    GreaterEqual,
    Always,
}

#[derive(Clone, Copy, Debug, PartialEq, Eq, Structural)]
pub enum StencilOperation {
    Keep,
    Zero,
    Replace,
    Invert,
    IncrementClamp,
    DecrementClamp,
    IncrementWrap,
    DecrementWrap,
}

#[derive(Clone, Copy, Debug, PartialEq, Eq, Structural)]
pub struct StencilFaceState {
    pub compare: CompareFunction,
    pub fail_op: StencilOperation,
    pub depth_fail_op: StencilOperation,
    pub pass_op: StencilOperation,
}

#[derive(Clone, Copy, Debug, PartialEq, Eq, Structural)]
pub struct StencilState {
    pub front: StencilFaceState,
    pub back: StencilFaceState,
    pub read_mask: u32,
    pub write_mask: u32,
}

/// Depth/stencil state of a pipeline; the attachment format is always a
/// combined 24-bit depth and 8-bit stencil format.
#[derive(Clone, Copy, Debug, PartialEq, Eq, Structural)]
pub struct DepthStencilState {
    pub depth_write_enabled: bool,
    pub depth_compare: CompareFunction,
    pub stencil: StencilState,
}

pub open spec fn face_ignore() -> StencilFaceState {
    StencilFaceState {
        compare: CompareFunction::Always,
        fail_op: StencilOperation::Keep,
        depth_fail_op: StencilOperation::Keep,
        pass_op: StencilOperation::Keep,
    }
}

/// A stencil face that keeps the buffer and passes only where it holds `compare`
/// against the reference.
pub open spec fn face_test(compare: CompareFunction) -> StencilFaceState {
    StencilFaceState {
        compare,
        fail_op: StencilOperation::Keep,
        depth_fail_op: StencilOperation::Keep,
        pass_op: StencilOperation::Keep,
    }
}

/// Stencil state that neither reads nor writes the stencil aspect.
pub open spec fn stencil_disabled() -> StencilState {
    StencilState { front: face_ignore(), back: face_ignore(), read_mask: 0, write_mask: 0 }
}

/// Stencil state that lets a fragment through only where the buffer equals
/// the reference, on front and back faces alike, and writes nothing.
pub open spec fn stencil_equal_reference() -> StencilState {
    StencilState {
        front: face_test(CompareFunction::Equal),
        back: face_test(CompareFunction::Equal),
        read_mask: STENCIL_MASK_ALL as u32,
        write_mask: 0,
    }
}

/// Stencil state that writes the reference wherever geometry is rasterised.
pub open spec fn stencil_replace_reference() -> StencilState {
    let face = StencilFaceState {
        compare: CompareFunction::Always,
        fail_op: StencilOperation::Keep,
        depth_fail_op: StencilOperation::Keep,
        pass_op: StencilOperation::Replace,
    };
    StencilState { front: face, back: face, read_mask: STENCIL_MASK_ALL as u32, write_mask: STENCIL_MASK_ALL as u32 }
}

/// The depth/stencil column of the pipeline table, one row per stage.
pub open spec fn stage_depth_stencil(stage: Stage) -> DepthStencilState {
    match stage {
        Stage::StencilMask => DepthStencilState {
            depth_write_enabled: false,
            depth_compare: CompareFunction::Always,
            stencil: stencil_replace_reference(),
        },
        Stage::DebugOverlay => DepthStencilState {
            depth_write_enabled: false,
            depth_compare: CompareFunction::Always,
            stencil: stencil_equal_reference(),
        },
        Stage::Reflection => DepthStencilState {
            depth_write_enabled: true,
            depth_compare: CompareFunction::Less,
            stencil: stencil_equal_reference(),
        },
        Stage::MainScene => DepthStencilState {
            depth_write_enabled: true,
            depth_compare: CompareFunction::Less,
            stencil: stencil_disabled(),
        },
        Stage::MirrorSurface => DepthStencilState {
            depth_write_enabled: false,
            depth_compare: CompareFunction::Less,
            stencil: stencil_disabled(),
        },
    }
}

/// Whether a pipeline's stencil test can reject a fragment, i.e. it reads the
/// stencil aspect.
pub open spec fn tests_stencil(ds: DepthStencilState) -> bool {
    ds.stencil.read_mask != 0 && (ds.stencil.front.compare != CompareFunction::Always
        || ds.stencil.back.compare != CompareFunction::Always)
}

pub open spec fn face_writes(f: StencilFaceState) -> bool {
    f.fail_op != StencilOperation::Keep || f.depth_fail_op != StencilOperation::Keep
        || f.pass_op != StencilOperation::Keep
}

/// Whether a pipeline can change the stencil aspect.
pub open spec fn writes_stencil(ds: DepthStencilState) -> bool {
    ds.stencil.write_mask != 0 && (face_writes(ds.stencil.front) || face_writes(ds.stencil.back))
}

/// Whether a pipeline's depth test can reject a fragment, i.e. it reads depth.
pub open spec fn tests_depth(ds: DepthStencilState) -> bool {
    ds.depth_compare != CompareFunction::Always
}

/// Whether a pipeline can change the depth aspect.
pub open spec fn writes_depth(ds: DepthStencilState) -> bool {
    ds.depth_write_enabled
}

fn face_ignore_exec() -> (r: StencilFaceState)
    ensures
        r == face_ignore(),
{
    StencilFaceState {
        compare: CompareFunction::Always,
        fail_op: StencilOperation::Keep,
        depth_fail_op: StencilOperation::Keep,
        pass_op: StencilOperation::Keep,
    }
}

fn face_test_exec(compare: CompareFunction) -> (r: StencilFaceState)
    ensures
        r == face_test(compare),
{
    StencilFaceState {
        compare,
        fail_op: StencilOperation::Keep,
        depth_fail_op: StencilOperation::Keep,
        pass_op: StencilOperation::Keep,
    }
}

/// Builds the depth/stencil state of a stage as the pipeline table gives it.
pub fn depth_stencil_for(stage: Stage) -> (r: DepthStencilState)
    ensures
        r == stage_depth_stencil(stage),
{
    let disabled = StencilState {
        front: face_ignore_exec(),
        back: face_ignore_exec(),
        read_mask: 0,
        write_mask: 0,
    };
    let equal_reference = StencilState {
        front: face_test_exec(CompareFunction::Equal),
        back: face_test_exec(CompareFunction::Equal),
        read_mask: STENCIL_MASK_ALL,
        write_mask: 0,
    };
    match stage {
        Stage::StencilMask => {
            let face = StencilFaceState {
                compare: CompareFunction::Always,
                fail_op: StencilOperation::Keep,
                depth_fail_op: StencilOperation::Keep,
                pass_op: StencilOperation::Replace,
            };
            DepthStencilState {
                depth_write_enabled: false,
                depth_compare: CompareFunction::Always,
                stencil: StencilState {
                    front: face,
                    back: face,
                    read_mask: STENCIL_MASK_ALL,
                    write_mask: STENCIL_MASK_ALL,
                },
            }
        },
        Stage::DebugOverlay => DepthStencilState {
            depth_write_enabled: false,
            depth_compare: CompareFunction::Always,
            stencil: equal_reference,
        },
        Stage::Reflection => DepthStencilState {
            depth_write_enabled: true,
            depth_compare: CompareFunction::Less,
            stencil: equal_reference,
        },
        Stage::MainScene => DepthStencilState {
            depth_write_enabled: true,
            depth_compare: CompareFunction::Less,
            stencil: disabled,
        },
        Stage::MirrorSurface => DepthStencilState {
            depth_write_enabled: false,
            depth_compare: CompareFunction::Less,
            stencil: disabled,
        },
    }
}


/// Every stage, in the order its pipeline is built.
pub open spec fn all_stages() -> Seq<Stage> {
    seq![Stage::StencilMask, Stage::DebugOverlay, Stage::Reflection, Stage::MainScene, Stage::MirrorSurface]
}

/// A bind group layout a pipeline expects, in slot order.
#[derive(Clone, Copy, Debug, PartialEq, Eq, Structural)]
pub enum BindGroupKind {
    /// Diffuse texture and its sampler.
    Texture,
    /// A view-projection matrix (primary or reflected camera).
    Camera,
    /// The per-object spin model matrix.
    Spin,
    /// The mirror plane's world point and normal.
    MirrorPlane,
}

/// A vertex buffer layout a pipeline expects, in slot order.
#[derive(Clone, Copy, Debug, PartialEq, Eq, Structural)]
pub enum VertexBufferKind {
    /// Interleaved position and texture coordinates, stepped per vertex.
    Vertex,
    /// A 4x4 model matrix over four attribute slots, stepped per instance.
    Instance,
}

/// What a pipeline writes to the colour target.
#[derive(Clone, Copy, Debug, PartialEq, Eq, Structural)]
pub enum ColorOutput {
    /// No fragment stage and no colour target.
    Disabled,
    /// Colour written with no blend state.
    Opaque,
    /// Colour written with the replace blend state.
    Replace,
    /// Colour blended over the target by source alpha.
    AlphaBlend,
}

#[derive(Clone, Copy, Debug, PartialEq, Eq, Structural)]
pub enum CullMode {
    Off,
    Back,
}

/// The full fixed-function description of one pipeline. Front faces are
/// counter-clockwise, topology is a triangle list and the depth/stencil
/// attachment format is combined depth 24 / stencil 8 for all of them.
#[derive(Clone, Debug)]
pub struct Pipeline {
    pub stage: Stage,
    pub bind_groups: Vec<BindGroupKind>,
    pub vertex_buffers: Vec<VertexBufferKind>,
    pub color: ColorOutput,
    pub cull_mode: CullMode,
    pub depth_stencil: DepthStencilState,
    pub sample_count: u32,
}

pub open spec fn stage_bind_groups(stage: Stage) -> Seq<BindGroupKind> {
    match stage {
        Stage::StencilMask => seq![BindGroupKind::Camera],
        Stage::DebugOverlay => seq![],
        Stage::Reflection => seq![
            BindGroupKind::Texture,
            BindGroupKind::Camera,
            BindGroupKind::Spin,
            BindGroupKind::MirrorPlane,
        ],
        Stage::MainScene => seq![
            BindGroupKind::Texture,
            BindGroupKind::Camera,
            BindGroupKind::Spin,
            BindGroupKind::MirrorPlane,
        ],
        Stage::MirrorSurface => seq![BindGroupKind::Camera],
    }
}

/// The debug overlay draws a full-screen triangle from the vertex index
/// alone; every other stage reads mesh vertices and per-instance matrices.
pub open spec fn stage_vertex_buffers(stage: Stage) -> Seq<VertexBufferKind> {
    match stage {
        Stage::DebugOverlay => seq![],
        _ => seq![VertexBufferKind::Vertex, VertexBufferKind::Instance],
    }
}

pub open spec fn stage_color(stage: Stage) -> ColorOutput {
    match stage {
        Stage::StencilMask => ColorOutput::Disabled,
        Stage::DebugOverlay => ColorOutput::Opaque,
        Stage::Reflection => ColorOutput::Replace,
        Stage::MainScene => ColorOutput::Replace,
        Stage::MirrorSurface => ColorOutput::AlphaBlend,
    }
}

/// Only the opaque scene culls back faces: the reflection flips winding, and
/// the mask, overlay and mirror quad must be drawn from either side.
pub open spec fn stage_cull_mode(stage: Stage) -> CullMode {
    match stage {
        Stage::MainScene => CullMode::Back,
        _ => CullMode::Off,
    }
}

pub open spec fn has_color_target(stage: Stage) -> bool {
    stage_color(stage) != ColorOutput::Disabled
}

impl Pipeline {
    /// This pipeline is the one the table gives for `stage`, built for
    /// attachments with `sample_count` samples.
    pub open spec fn describes(&self, stage: Stage, sample_count: u32) -> bool {
        &&& self.stage == stage
        &&& self.bind_groups@ == stage_bind_groups(stage)
        &&& self.vertex_buffers@ == stage_vertex_buffers(stage)
        &&& self.color == stage_color(stage)
        &&& self.cull_mode == stage_cull_mode(stage)
        &&& self.depth_stencil == stage_depth_stencil(stage)
        &&& self.sample_count == sample_count
    }

    /// Describes the pipeline of any stage.
    pub fn for_stage(stage: Stage, sample_count: u32) -> (r: Pipeline)
        ensures
            r.describes(stage, sample_count),
    {
        let bind_groups = match stage {
            Stage::StencilMask => vec![BindGroupKind::Camera],
            Stage::DebugOverlay => vec![],
            Stage::Reflection | Stage::MainScene => vec![
                BindGroupKind::Texture,
                BindGroupKind::Camera,
                BindGroupKind::Spin,
                BindGroupKind::MirrorPlane,
            ],
            Stage::MirrorSurface => vec![BindGroupKind::Camera],
        };
        let vertex_buffers = match stage {
            Stage::DebugOverlay => vec![],
            _ => vec![VertexBufferKind::Vertex, VertexBufferKind::Instance],
        };
        let color = match stage {
            Stage::StencilMask => ColorOutput::Disabled,
            Stage::DebugOverlay => ColorOutput::Opaque,
            Stage::Reflection | Stage::MainScene => ColorOutput::Replace,
            Stage::MirrorSurface => ColorOutput::AlphaBlend,
        };
        let cull_mode = match stage {
            Stage::MainScene => CullMode::Back,
            _ => CullMode::Off,
        };
        proof {
            assert(bind_groups@ =~= stage_bind_groups(stage));
            assert(vertex_buffers@ =~= stage_vertex_buffers(stage));
        }
        Pipeline {
            stage,
            bind_groups,
            vertex_buffers,
            color,
            cull_mode,
            depth_stencil: depth_stencil_for(stage),
            sample_count,
        }
    }

    /// The opaque scene: depth test less with depth writes, stencil off,
    /// back faces culled, colour replaced.
    pub fn build_render_pipeline(sample_count: u32) -> (r: Pipeline)
        ensures
            r.describes(Stage::MainScene, sample_count),
            tests_depth(r.depth_stencil) && writes_depth(r.depth_stencil),
            !tests_stencil(r.depth_stencil) && !writes_stencil(r.depth_stencil),
    {
        Self::for_stage(Stage::MainScene, sample_count)
    }

    /// The stencil mask: no colour output, depth always passes and is not
    /// written, and the stencil takes the reference wherever the mirror is
    /// rasterised.
    pub fn mask_render_pipeline(sample_count: u32) -> (r: Pipeline)
        ensures
            r.describes(Stage::StencilMask, sample_count),
            !tests_depth(r.depth_stencil) && !writes_depth(r.depth_stencil),
            !tests_stencil(r.depth_stencil) && writes_stencil(r.depth_stencil),
            r.depth_stencil.stencil.front.pass_op == StencilOperation::Replace,
            r.depth_stencil.stencil.back.pass_op == StencilOperation::Replace,
    {
        Self::for_stage(Stage::StencilMask, sample_count)
    }

    /// The reflected scene: depth test less with depth writes, drawn only
    /// where the stencil equals the reference, without culling.
    pub fn reflection_render_pipeline(sample_count: u32) -> (r: Pipeline)
        ensures
            r.describes(Stage::Reflection, sample_count),
            tests_depth(r.depth_stencil) && writes_depth(r.depth_stencil),
            tests_stencil(r.depth_stencil) && !writes_stencil(r.depth_stencil),
            r.depth_stencil.stencil.front.compare == CompareFunction::Equal,
            r.depth_stencil.stencil.back.compare == CompareFunction::Equal,
            r.cull_mode == CullMode::Off,
    {
        Self::for_stage(Stage::Reflection, sample_count)
    }

    /// The translucent mirror quad: depth test less without depth writes,
    /// stencil off, alpha blended over the target.
    pub fn mirror_surface_render_pipeline(sample_count: u32) -> (r: Pipeline)
        ensures
            r.describes(Stage::MirrorSurface, sample_count),
            tests_depth(r.depth_stencil) && !writes_depth(r.depth_stencil),
            !tests_stencil(r.depth_stencil) && !writes_stencil(r.depth_stencil),
            r.color == ColorOutput::AlphaBlend,
    {
        Self::for_stage(Stage::MirrorSurface, sample_count)
    }

    /// The stencil visualisation: a full-screen triangle, depth ignored,
    /// drawn only where the stencil equals the reference.
    pub fn debug_render_pipeline(sample_count: u32) -> (r: Pipeline)
        ensures
            r.describes(Stage::DebugOverlay, sample_count),
            !tests_depth(r.depth_stencil) && !writes_depth(r.depth_stencil),
            tests_stencil(r.depth_stencil) && !writes_stencil(r.depth_stencil),
            r.depth_stencil.stencil.front.compare == CompareFunction::Equal,
    {
        Self::for_stage(Stage::DebugOverlay, sample_count)
    }
}


/// The shader stages that can see a binding.
#[derive(Clone, Copy, Debug, PartialEq, Eq, Structural)]
pub enum Visibility {
    Vertex,
    Fragment,
    VertexFragment,
}

#[derive(Clone, Copy, Debug, PartialEq, Eq, Structural)]
pub enum BindingType {
    /// A uniform buffer bound whole, without a dynamic offset.
    UniformBuffer,
    /// A filterable 2D float texture, not multisampled.
    Texture2d,
    /// A filtering sampler.
    FilteringSampler,
}

#[derive(Clone, Copy, Debug, PartialEq, Eq, Structural)]
pub struct BindingEntry {
    pub binding: u32,
    pub visibility: Visibility,
    pub ty: BindingType,
}

pub open spec fn entry(binding: u32, visibility: Visibility, ty: BindingType) -> BindingEntry {
    BindingEntry { binding, visibility, ty }
}

/// The entries of each bind group layout: the camera and spin matrices are
/// read by the vertex stage, the texture and its sampler by the fragment
/// stage, and the mirror plane by both.
pub open spec fn layout_entries(kind: BindGroupKind) -> Seq<BindingEntry> {
    match kind {
        BindGroupKind::Texture => seq![
            entry(0, Visibility::Fragment, BindingType::Texture2d),
            entry(1, Visibility::Fragment, BindingType::FilteringSampler),
        ],
        BindGroupKind::Camera => seq![entry(0, Visibility::Vertex, BindingType::UniformBuffer)],
        BindGroupKind::Spin => seq![entry(0, Visibility::Vertex, BindingType::UniformBuffer)],
        BindGroupKind::MirrorPlane => seq![entry(0, Visibility::VertexFragment, BindingType::UniformBuffer)],
    }
}

/// Describes the bind group layout of `kind`.
pub fn bind_group_layout_entries(kind: BindGroupKind) -> (r: Vec<BindingEntry>)
    ensures
        r@ == layout_entries(kind),
{
    let r = match kind {
        BindGroupKind::Texture => vec![
            BindingEntry { binding: 0, visibility: Visibility::Fragment, ty: BindingType::Texture2d },
            BindingEntry { binding: 1, visibility: Visibility::Fragment, ty: BindingType::FilteringSampler },
        ],
        BindGroupKind::Camera => vec![
            BindingEntry { binding: 0, visibility: Visibility::Vertex, ty: BindingType::UniformBuffer },
        ],
        BindGroupKind::Spin => vec![
            BindingEntry { binding: 0, visibility: Visibility::Vertex, ty: BindingType::UniformBuffer },
        ],
        BindGroupKind::MirrorPlane => vec![
            BindingEntry { binding: 0, visibility: Visibility::VertexFragment, ty: BindingType::UniformBuffer },
        ],
    };
    proof {
        assert(r@ =~= layout_entries(kind));
    }
    r
}

} // verus!
