//! The blit pipeline: a fixed GPU pipeline that samples one input texture
//! and writes it over the whole surface with a single full-screen triangle —
//! no vertex buffers, no per-frame geometry. Its state is built once at
//! startup and is immutable afterwards; each draw builds only a transient
//! binding that dies with the draw.
//!
//! The pipeline state and the command stream of a draw are modelled as plain
//! data, so a harness that mocks the device can inspect exactly what one
//! presentation encodes.

use vstd::prelude::*;

use crate::surface::TextureFormat;

verus! {

/// The two fixed bindings of the blit pipeline's layout.
#[derive(Clone, Copy, Debug, PartialEq, Eq, Structural)]
pub enum BindingKind {
    /// A filterable, non-multisampled 2D texture, sampled by the fragment
    /// stage.
    SampledTexture,
    /// A filtering sampler.
    FilteringSampler,
}

/// One entry of the binding layout.
#[derive(Clone, Copy, Debug, PartialEq, Eq, Structural)]
pub struct LayoutEntry {
    pub binding: u32,
    pub fragment_visible: bool,
    pub kind: BindingKind,
}

/// The fixed two-entry binding layout: the sampled texture at binding 0 and
/// the sampler at binding 1, both visible to the fragment stage.
pub open spec fn blit_layout() -> Seq<LayoutEntry> {
    seq![
        LayoutEntry { binding: 0, fragment_visible: true, kind: BindingKind::SampledTexture },
        LayoutEntry { binding: 1, fragment_visible: true, kind: BindingKind::FilteringSampler },
    ]
}

/// The immutable state of the blit pipeline: render pipeline descriptor,
/// binding layout and sampler, all fixed after construction and shared
/// read-only by every frame's draw call.
#[derive(Clone, Debug, PartialEq, Eq)]
pub struct BlitPipeline {
    /// The binding layout the transient per-frame binding is built against.
    pub layout: Vec<LayoutEntry>,
    /// The colour target format: the surface's own format.
    pub target_format: TextureFormat,
    /// The full-screen triangle takes no vertex input.
    pub vertex_buffer_count: u32,
    /// Triangle-list topology, no culling.
    pub triangle_list: bool,
    /// Replace blending over all colour channels.
    pub blend_replace: bool,
    /// No multisampling.
    pub multisample_count: u32,
    /// The one immutable sampler: default linear filtering ...
    pub sampler_linear: bool,
    /// ... with clamping addressing.
    pub sampler_clamp: bool,
}

impl BlitPipeline {
    /// All the fixed startup choices, in one place.
    pub open spec fn wf(self) -> bool {
        &&& self.layout@ == blit_layout()
        &&& self.vertex_buffer_count == 0
        &&& self.triangle_list
        &&& self.blend_replace
        &&& self.multisample_count == 1
        &&& self.sampler_linear
        &&& self.sampler_clamp
    }

    /// Build the fixed pipeline state for the startup-selected surface
    /// format: compile-time shader pair, two-binding layout, full-screen
    /// triangle with no vertex buffers, one colour target with replace
    /// blending, no multisampling, and one default (linear, clamp) sampler.
    pub fn new(surface_format: TextureFormat) -> (p: Self)
        ensures
            p.wf(),
            p.target_format == surface_format,
    {
        let mut layout: Vec<LayoutEntry> = Vec::new();
        layout.push(LayoutEntry { binding: 0, fragment_visible: true, kind: BindingKind::SampledTexture });
        layout.push(LayoutEntry { binding: 1, fragment_visible: true, kind: BindingKind::FilteringSampler });
        let p = BlitPipeline {
            layout,
            target_format: surface_format,
            vertex_buffer_count: 0,
            triangle_list: true,
            blend_replace: true,
            multisample_count: 1,
            sampler_linear: true,
            sampler_clamp: true,
        };
        proof {
            assert(p.layout@ =~= blit_layout());
        }
        p
    }

    /// Encode one blit of `texture`: the transient binding, one render pass
    /// that clears then stores, the fixed pipeline, and the single
    /// three-vertex, one-instance draw.
    pub fn draw(&self, texture: u64) -> (cmds: Vec<GpuCommand>)
        ensures
            cmds@ == blit_commands(texture),
    {
        let mut cmds: Vec<GpuCommand> = Vec::new();
        cmds.push(GpuCommand::CreateBindGroup { texture });
        cmds.push(GpuCommand::BeginRenderPass { clear: true, store: true });
        cmds.push(GpuCommand::SetPipeline);
        cmds.push(GpuCommand::SetBindGroup);
        cmds.push(GpuCommand::Draw { vertices: 3, instances: 1 });
        cmds.push(GpuCommand::EndRenderPass);
        proof {
            assert(cmds@ =~= blit_commands(texture));
        }
        cmds
    }

    /// Encode one full, successful presentation of `texture`: acquire the
    /// next presentable image, blit onto it, submit, present — strictly in
    /// that order. (Acquisition may fail transiently right after a resize;
    /// the embedder then drops the whole attempt, and the next iteration
    /// retries.)
    pub fn encode_present(&self, texture: u64) -> (cmds: Vec<GpuCommand>)
        ensures
            cmds@ == present_commands(texture),
    {
        let mut cmds: Vec<GpuCommand> = Vec::new();
        cmds.push(GpuCommand::AcquireImage);
        let mut blit: Vec<GpuCommand> = self.draw(texture);
        cmds.append(&mut blit);
        cmds.push(GpuCommand::Submit);
        cmds.push(GpuCommand::Present);
        proof {
            assert(cmds@ =~= present_commands(texture));
        }
        cmds
    }
}

/// One step of the GPU command stream that presenting a frame produces.
#[derive(Clone, Copy, Debug, PartialEq, Eq, Structural)]
pub enum GpuCommand {
    /// Acquire the next presentable image of the surface.
    AcquireImage,
    /// Build the transient bind group pairing the frame's texture with the
    /// fixed sampler against the fixed layout.
    CreateBindGroup { texture: u64 },
    /// Open a render pass targeting the acquired image, with a
    /// clear-then-store colour operation.
    BeginRenderPass { clear: bool, store: bool },
    /// Bind the fixed render pipeline.
    SetPipeline,
    /// Bind the transient bind group.
    SetBindGroup,
    /// The draw call itself.
    Draw { vertices: u32, instances: u32 },
    /// Close the render pass.
    EndRenderPass,
    /// Submit the encoded commands to the queue.
    Submit,
    /// Present the acquired image.
    Present,
}

/// The commands one blit of `texture` encodes.
pub open spec fn blit_commands(texture: u64) -> Seq<GpuCommand> {
    seq![
        GpuCommand::CreateBindGroup { texture },
        GpuCommand::BeginRenderPass { clear: true, store: true },
        GpuCommand::SetPipeline,
        GpuCommand::SetBindGroup,
        GpuCommand::Draw { vertices: 3, instances: 1 },
        GpuCommand::EndRenderPass,
    ]
}

/// The full command stream of one successful presentation.
pub open spec fn present_commands(texture: u64) -> Seq<GpuCommand> {
    seq![GpuCommand::AcquireImage] + blit_commands(texture) + seq![
        GpuCommand::Submit,
        GpuCommand::Present,
    ]
}

/// Drawing one frame is exactly one render pass, one transient bind-group
/// creation, and one draw call — of three vertices and one instance, the
/// full-screen triangle: what a command-stream inspection of one
/// presentation must find.
pub proof fn lemma_present_single_draw(texture: u64)
    ensures
        present_commands(texture).len() == 9,
        forall|i: int| 0 <= i < 9 ==> ((present_commands(texture)[i] is Draw) <==> i == 5),
        present_commands(texture)[5] == (GpuCommand::Draw { vertices: 3, instances: 1 }),
        forall|i: int| 0 <= i < 9 ==> ((present_commands(texture)[i] is BeginRenderPass) <==> i
            == 2),
        forall|i: int| 0 <= i < 9 ==> ((present_commands(texture)[i] is CreateBindGroup) <==> i
            == 1),
        // acquisition, drawing and presentation happen strictly in that order
        present_commands(texture)[0] is AcquireImage,
        forall|i: int| 0 <= i < 9 ==> ((present_commands(texture)[i] is Present) <==> i == 8),
{
    let s = present_commands(texture);
    assert(s =~= seq![
        GpuCommand::AcquireImage,
        GpuCommand::CreateBindGroup { texture },
        GpuCommand::BeginRenderPass { clear: true, store: true },
        GpuCommand::SetPipeline,
        GpuCommand::SetBindGroup,
        GpuCommand::Draw { vertices: 3, instances: 1 },
        GpuCommand::EndRenderPass,
        GpuCommand::Submit,
        GpuCommand::Present,
    ]);
}

} // verus!
