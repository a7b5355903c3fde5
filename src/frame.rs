use vstd::prelude::*;
use crate::pipeline::{
    has_color_target, stage_bind_groups, stage_depth_stencil, stage_vertex_buffers, tests_depth,
    tests_stencil, writes_depth, writes_stencil, BindGroupKind, Stage, STENCIL_REFERENCE,
};

verus! {

/// Whether a pass starts from a cleared aspect or from what the previous
/// pass stored. Colour clears to opaque black, depth to the far plane and
/// stencil to `STENCIL_CLEAR`.
#[derive(Clone, Copy, Debug, PartialEq, Eq, Structural)]
pub enum LoadOp {
    Clear,
    Load,
}

#[derive(Clone, Copy, Debug, PartialEq, Eq, Structural)]
pub enum StoreOp {
    Store,
    Discard,
}

#[derive(Clone, Copy, Debug, PartialEq, Eq, Structural)]
pub struct AttachmentOps {
    pub load: LoadOp,
    pub store: StoreOp,
}

/// Which camera uniform a pass binds.
#[derive(Clone, Copy, Debug, PartialEq, Eq, Structural)]
pub enum CameraSource {
    Primary,
    Reflected,
}

/// What a pass draws.
#[derive(Clone, Copy, Debug, PartialEq, Eq, Structural)]
pub enum Draw {
    /// The mirror footprint mesh with the single, scaled mirror instance.
    MirrorQuad,
    /// The scene mesh over the whole instance grid.
    SceneInstances,
    /// Three vertices generated in the shader, covering the target.
    FullscreenTriangle,
}

/// One render pass of a frame. An aspect whose operations are `None` is not
/// bound (colour) or bound read-only (depth, stencil) and keeps its content.
#[derive(Clone, Copy, Debug, PartialEq, Eq, Structural)]
pub struct PassPlan {
    pub stage: Stage,
    pub color: Option<AttachmentOps>,
    pub depth: Option<AttachmentOps>,
    pub stencil: Option<AttachmentOps>,
    pub stencil_reference: Option<u32>,
    pub camera: Option<CameraSource>,
    pub draw: Draw,
}

pub open spec fn kept(load: LoadOp) -> AttachmentOps {
    AttachmentOps { load, store: StoreOp::Store }
}

pub open spec fn spec_stencil_mask_pass() -> PassPlan {
    PassPlan {
        stage: Stage::StencilMask,
        color: None,
        depth: None,
        stencil: Some(kept(LoadOp::Clear)),
        stencil_reference: Some(STENCIL_REFERENCE),
        camera: Some(CameraSource::Primary),
        draw: Draw::MirrorQuad,
    }
}

pub open spec fn spec_debug_overlay_pass() -> PassPlan {
    PassPlan {
        stage: Stage::DebugOverlay,
        color: Some(kept(LoadOp::Clear)),
        depth: None,
        stencil: Some(kept(LoadOp::Load)),
        stencil_reference: Some(STENCIL_REFERENCE),
        camera: None,
        draw: Draw::FullscreenTriangle,
    }
}

/// The reflection pass clears colour only when no earlier pass of the frame
/// has drawn to it.
pub open spec fn spec_reflection_pass(clear_color: bool) -> PassPlan {
    PassPlan {
        stage: Stage::Reflection,
        color: Some(kept(if clear_color { LoadOp::Clear } else { LoadOp::Load })),
        depth: Some(kept(LoadOp::Clear)),
        stencil: Some(kept(LoadOp::Load)),
        stencil_reference: Some(STENCIL_REFERENCE),
        camera: Some(CameraSource::Reflected),
        draw: Draw::SceneInstances,
    }
}

pub open spec fn spec_main_scene_pass() -> PassPlan {
    PassPlan {
        stage: Stage::MainScene,
        color: Some(kept(LoadOp::Load)),
        depth: Some(kept(LoadOp::Load)),
        stencil: None,
        stencil_reference: None,
        camera: Some(CameraSource::Primary),
        draw: Draw::SceneInstances,
    }
}

pub open spec fn spec_mirror_surface_pass() -> PassPlan {
    PassPlan {
        stage: Stage::MirrorSurface,
        color: Some(kept(LoadOp::Load)),
        depth: Some(kept(LoadOp::Load)),
        stencil: None,
        stencil_reference: None,
        camera: Some(CameraSource::Primary),
        draw: Draw::MirrorQuad,
    }
}

/// The passes of one frame, in the order they are recorded.
pub open spec fn frame_plan(debug_overlay: bool) -> Seq<PassPlan> {
    if debug_overlay {
        seq![
            spec_stencil_mask_pass(),
            spec_debug_overlay_pass(),
            spec_reflection_pass(false),
            spec_main_scene_pass(),
            spec_mirror_surface_pass(),
        ]
    } else {
        seq![
            spec_stencil_mask_pass(),
            spec_reflection_pass(true),
            spec_main_scene_pass(),
            spec_mirror_surface_pass(),
        ]
    }
}

fn kept_ops(load: LoadOp) -> (r: AttachmentOps)
    ensures
        r == kept(load),
{
    AttachmentOps { load, store: StoreOp::Store }
}

/// Pass 1: clear the stencil and paint the mirror footprint with the
/// reference; colour and depth are not touched.
pub fn stencil_mask_pass() -> (r: PassPlan)
    ensures
        r == spec_stencil_mask_pass(),
{
    PassPlan {
        stage: Stage::StencilMask,
        color: None,
        depth: None,
        stencil: Some(kept_ops(LoadOp::Clear)),
        stencil_reference: Some(STENCIL_REFERENCE),
        camera: Some(CameraSource::Primary),
        draw: Draw::MirrorQuad,
    }
}

/// Optional pass 2: clear colour and show the mask, keeping the stencil.
pub fn debug_overlay_pass() -> (r: PassPlan)
    ensures
        r == spec_debug_overlay_pass(),
{
    PassPlan {
        stage: Stage::DebugOverlay,
        color: Some(kept_ops(LoadOp::Clear)),
        depth: None,
        stencil: Some(kept_ops(LoadOp::Load)),
        stencil_reference: Some(STENCIL_REFERENCE),
        camera: None,
        draw: Draw::FullscreenTriangle,
    }
}

/// Draws the scene through the reflected camera inside the mask, on a
/// freshly cleared depth aspect.
pub fn reflection_pass(clear_color: bool) -> (r: PassPlan)
    ensures
        r == spec_reflection_pass(clear_color),
{
    let color_load = if clear_color { LoadOp::Clear } else { LoadOp::Load };
    PassPlan {
        stage: Stage::Reflection,
        color: Some(kept_ops(color_load)),
        depth: Some(kept_ops(LoadOp::Clear)),
        stencil: Some(kept_ops(LoadOp::Load)),
        stencil_reference: Some(STENCIL_REFERENCE),
        camera: Some(CameraSource::Reflected),
        draw: Draw::SceneInstances,
    }
}

/// Draws the real instance grid over what the reflection left, keeping its
/// depth; the stencil is not used.
pub fn main_scene_pass() -> (r: PassPlan)
    ensures
        r == spec_main_scene_pass(),
{
    PassPlan {
        stage: Stage::MainScene,
        color: Some(kept_ops(LoadOp::Load)),
        depth: Some(kept_ops(LoadOp::Load)),
        stencil: None,
        stencil_reference: None,
        camera: Some(CameraSource::Primary),
        draw: Draw::SceneInstances,
    }
}

/// Blends the translucent mirror quad over everything drawn before it.
pub fn mirror_surface_pass() -> (r: PassPlan)
    ensures
        r == spec_mirror_surface_pass(),
{
    PassPlan {
        stage: Stage::MirrorSurface,
        color: Some(kept_ops(LoadOp::Load)),
        depth: Some(kept_ops(LoadOp::Load)),
        stencil: None,
        stencil_reference: None,
        camera: Some(CameraSource::Primary),
        draw: Draw::MirrorQuad,
    }
}

/// The full pass sequence of one frame, with or without the stencil overlay.
pub fn frame_passes(debug_overlay: bool) -> (r: Vec<PassPlan>)
    ensures
        r@ == frame_plan(debug_overlay),
{
    let mut passes: Vec<PassPlan> = Vec::new();
    passes.push(stencil_mask_pass());
    if debug_overlay {
        passes.push(debug_overlay_pass());
    }
    passes.push(reflection_pass(!debug_overlay));
    passes.push(main_scene_pass());
    passes.push(mirror_surface_pass());
    proof {
        assert(passes@ =~= frame_plan(debug_overlay));
    }
    passes
}


/// What one aspect of an attachment holds: `None` when its content is not
/// defined by this frame (left over from an earlier frame, or discarded);
/// `Some(s)` when it was cleared in this frame and then drawn to by the
/// stages of `s`, in order.
pub type Contents = Option<Seq<Stage>>;

/// The three aspects the passes of a frame share.
pub struct Attachments {
    pub color: Contents,
    pub depth: Contents,
    pub stencil: Contents,
}

/// What a pass with operations `ops` reads from an aspect that held `c`.
pub open spec fn loaded(c: Contents, ops: Option<AttachmentOps>) -> Contents {
    match ops {
        Some(o) => if o.load == LoadOp::Clear { Some(Seq::empty()) } else { c },
        None => c,
    }
}

/// An aspect after a pass with operations `ops` that draws to it when
/// `writes` holds.
pub open spec fn apply_aspect(c: Contents, ops: Option<AttachmentOps>, writes: bool, stage: Stage) -> Contents {
    match ops {
        None => c,
        Some(o) => {
            let start = loaded(c, ops);
            let drawn: Contents = if writes {
                match start {
                    Some(s) => Some(s.push(stage)),
                    None => None,
                }
            } else {
                start
            };
            if o.store == StoreOp::Store { drawn } else { None }
        },
    }
}

pub open spec fn after_pass(a: Attachments, p: PassPlan) -> Attachments {
    let ds = stage_depth_stencil(p.stage);
    Attachments {
        color: apply_aspect(a.color, p.color, has_color_target(p.stage), p.stage),
        depth: apply_aspect(a.depth, p.depth, writes_depth(ds), p.stage),
        stencil: apply_aspect(a.stencil, p.stencil, writes_stencil(ds), p.stage),
    }
}

/// The attachments after running `passes` in order, starting from `a`.
pub open spec fn run_passes(a: Attachments, passes: Seq<PassPlan>) -> Attachments
    decreases passes.len(),
{
    if passes.len() == 0 {
        a
    } else {
        after_pass(run_passes(a, passes.drop_last()), passes.last())
    }
}

/// The attachments as pass `i` of `passes` finds them.
pub open spec fn before_pass(a: Attachments, passes: Seq<PassPlan>, i: int) -> Attachments {
    run_passes(a, passes.take(i))
}

/// A pass is recorded consistently with its stage's pipeline: a colour
/// target exactly when the pipeline has one, every aspect the pipeline
/// writes bound writable, the shared reference set exactly when the
/// pipeline uses the stencil, a camera exactly when the pipeline binds one,
/// and vertex buffers exactly when the draw needs them.
pub open spec fn pass_fits_pipeline(p: PassPlan) -> bool {
    let ds = stage_depth_stencil(p.stage);
    &&& (p.color is Some <==> has_color_target(p.stage))
    &&& (writes_depth(ds) ==> p.depth is Some)
    &&& ((tests_stencil(ds) || writes_stencil(ds)) ==> p.stencil is Some)
    &&& ((tests_stencil(ds) || writes_stencil(ds)) <==> p.stencil_reference is Some)
    &&& (p.stencil_reference is Some ==> p.stencil_reference == Some(STENCIL_REFERENCE))
    &&& (stage_bind_groups(p.stage).contains(BindGroupKind::Camera) <==> p.camera is Some)
    &&& (p.draw == Draw::FullscreenTriangle <==> stage_vertex_buffers(p.stage).len() == 0)
}

/// The stages whose colour output makes up the presented frame, in the
/// order they are composited.
pub open spec fn composited_stages(debug_overlay: bool) -> Seq<Stage> {
    if debug_overlay {
        seq![Stage::DebugOverlay, Stage::Reflection, Stage::MainScene, Stage::MirrorSurface]
    } else {
        seq![Stage::Reflection, Stage::MainScene, Stage::MirrorSurface]
    }
}

/// Running one more pass extends the run by that pass.
pub proof fn lemma_before_next(a: Attachments, passes: Seq<PassPlan>, i: int)
    requires
        0 <= i < passes.len(),
    ensures
        before_pass(a, passes, i + 1) == after_pass(before_pass(a, passes, i), passes[i]),
{
    assert(passes.take(i + 1).drop_last() =~= passes.take(i));
}

/// Running every pass is the same as the state before a pass past the end.
pub proof fn lemma_before_end(a: Attachments, passes: Seq<PassPlan>)
    ensures
        before_pass(a, passes, passes.len() as int) == run_passes(a, passes),
{
    assert(passes.take(passes.len() as int) =~= passes);
}

/// The attachments at each step of a frame, from any prior content.
proof fn lemma_frame_steps(debug_overlay: bool, prior: Attachments)
    ensures
        ({
            let f = frame_plan(debug_overlay);
            let mask = Some(seq![Stage::StencilMask]);
            let c0: Contents = if debug_overlay { Some(seq![Stage::DebugOverlay]) } else { Some(Seq::empty()) };
            let k = if debug_overlay { 1int } else { 0int };
            &&& before_pass(prior, f, 0) == prior
            &&& before_pass(prior, f, 1) == (Attachments { color: prior.color, depth: prior.depth, stencil: mask })
            &&& debug_overlay ==> before_pass(prior, f, 2) == (Attachments { color: c0, depth: prior.depth, stencil: mask })
            &&& before_pass(prior, f, k + 2) == (Attachments {
                color: Some(c0.unwrap().push(Stage::Reflection)),
                depth: Some(seq![Stage::Reflection]),
                stencil: mask,
            })
            &&& before_pass(prior, f, k + 3) == (Attachments {
                color: Some(c0.unwrap().push(Stage::Reflection).push(Stage::MainScene)),
                depth: Some(seq![Stage::Reflection, Stage::MainScene]),
                stencil: mask,
            })
            &&& run_passes(prior, f) == (Attachments {
                color: Some(c0.unwrap().push(Stage::Reflection).push(Stage::MainScene).push(Stage::MirrorSurface)),
                depth: Some(seq![Stage::Reflection, Stage::MainScene]),
                stencil: mask,
            })
        }),
{
    let f = frame_plan(debug_overlay);
    assert(f.take(0) =~= Seq::<PassPlan>::empty());
    lemma_before_next(prior, f, 0);
    lemma_before_next(prior, f, 1);
    lemma_before_next(prior, f, 2);
    lemma_before_next(prior, f, 3);
    if debug_overlay {
        lemma_before_next(prior, f, 4);
    }
    lemma_before_end(prior, f);
    assert(Seq::<Stage>::empty().push(Stage::StencilMask) =~= seq![Stage::StencilMask]);
    assert(Seq::<Stage>::empty().push(Stage::Reflection) =~= seq![Stage::Reflection]);
    assert(seq![Stage::Reflection].push(Stage::MainScene) =~= seq![Stage::Reflection, Stage::MainScene]);
    assert(Seq::<Stage>::empty().push(Stage::DebugOverlay) =~= seq![Stage::DebugOverlay]);
}


/// Every pass that tests the stencil reads exactly the mask that the stencil
/// pass of the same frame wrote, whatever the overlay setting: no pass in
/// between clears, discards or writes the stencil.
pub proof fn lemma_stencil_tests_read_mask(debug_overlay: bool, prior: Attachments)
    ensures
        forall|i: int|
            0 <= i < frame_plan(debug_overlay).len() && #[trigger] tests_stencil(
                stage_depth_stencil(frame_plan(debug_overlay)[i].stage),
            ) ==> loaded(before_pass(prior, frame_plan(debug_overlay), i).stencil, frame_plan(debug_overlay)[i].stencil)
                == Some(seq![Stage::StencilMask]),
{
    lemma_frame_steps(debug_overlay, prior);
}

/// Every pass that tests depth reads a depth aspect cleared in the same
/// frame, never one left over from an earlier frame.
pub proof fn lemma_depth_tests_read_this_frame(debug_overlay: bool, prior: Attachments)
    ensures
        forall|i: int|
            0 <= i < frame_plan(debug_overlay).len() && #[trigger] tests_depth(
                stage_depth_stencil(frame_plan(debug_overlay)[i].stage),
            ) ==> loaded(before_pass(prior, frame_plan(debug_overlay), i).depth, frame_plan(debug_overlay)[i].depth) is Some,
{
    lemma_frame_steps(debug_overlay, prior);
}

/// The presented colour is cleared once per frame and then holds the output
/// of each drawing stage in order: reflection under the scene, and the
/// mirror surface blended last over both.
pub proof fn lemma_frame_composites_in_order(debug_overlay: bool, prior: Attachments)
    ensures
        run_passes(prior, frame_plan(debug_overlay)).color == Some(composited_stages(debug_overlay)),
{
    lemma_frame_steps(debug_overlay, prior);
    assert(seq![Stage::DebugOverlay].push(Stage::Reflection).push(Stage::MainScene).push(Stage::MirrorSurface)
        =~= composited_stages(true));
    assert(Seq::<Stage>::empty().push(Stage::Reflection).push(Stage::MainScene).push(Stage::MirrorSurface)
        =~= composited_stages(false));
}

/// A frame carries no state over from the previous one: whatever the
/// attachments held before, every pass reads the same colour, depth and
/// stencil content, and the same frame is presented.
pub proof fn lemma_frame_ignores_prior(debug_overlay: bool, p1: Attachments, p2: Attachments)
    ensures
        forall|i: int|
            0 <= i < frame_plan(debug_overlay).len() ==> {
                let p = #[trigger] frame_plan(debug_overlay)[i];
                let ds = stage_depth_stencil(p.stage);
                let b1 = before_pass(p1, frame_plan(debug_overlay), i);
                let b2 = before_pass(p2, frame_plan(debug_overlay), i);
                &&& (p.color is Some ==> loaded(b1.color, p.color) == loaded(b2.color, p.color))
                &&& (tests_depth(ds) ==> loaded(b1.depth, p.depth) == loaded(b2.depth, p.depth))
                &&& (tests_stencil(ds) ==> loaded(b1.stencil, p.stencil) == loaded(b2.stencil, p.stencil))
            },
        run_passes(p1, frame_plan(debug_overlay)).color == run_passes(p2, frame_plan(debug_overlay)).color,
{
    lemma_frame_steps(debug_overlay, p1);
    lemma_frame_steps(debug_overlay, p2);
}

/// Every pass of a frame is recorded consistently with its stage's pipeline.
pub proof fn lemma_passes_fit_pipelines(debug_overlay: bool)
    ensures
        forall|i: int|
            0 <= i < frame_plan(debug_overlay).len() ==> pass_fits_pipeline(#[trigger] frame_plan(debug_overlay)[i]),
{
    assert(stage_bind_groups(Stage::StencilMask)[0] == BindGroupKind::Camera);
    assert(stage_bind_groups(Stage::Reflection)[1] == BindGroupKind::Camera);
    assert(stage_bind_groups(Stage::MainScene)[1] == BindGroupKind::Camera);
    assert(stage_bind_groups(Stage::MirrorSurface)[0] == BindGroupKind::Camera);
}

} // verus!
