//! The renderer façade.
//!
//! A `Renderer` owns the device-level bookkeeping: the fixed pipeline and
//! root-signature descriptions, the published font texture identifier,
//! one `RenderBuffers` slot per frame in flight, and a monotonically
//! advancing frame counter.  Device objects are absent until the first
//! `new_frame` and after `invalidate_device_objects`, and are never
//! partially constructed.  Rendering a frame selects the slot
//! `counter % frames_in_flight`; the caller guarantees that at most
//! `frames_in_flight` submissions are in flight at once, so a slot is
//! never rewritten while the GPU may still read it.

use vstd::prelude::*;

verus! {

use crate::buffers::RenderBuffers;
use crate::buffers::spec_frame_ops;
use crate::buffers::spec_grow;
use crate::buffers::totals_fit;
use crate::context::enable_vtx_offset_flag;
use crate::context::publish_font_texture_id;
use crate::context::read_font_atlas;
use crate::context::set_renderer_name;
use crate::draw_data::DrawData;
use crate::draw_data::merged_indices;
use crate::draw_data::merged_vtx_bytes;
use crate::font::FontAtlas;
use crate::font::FontTexturePlan;
use crate::font::FontUpload;
use crate::font::build_font_upload;
use crate::font::font_texture_plan;
use crate::font::spec_aligned_pitch;
use crate::font::spec_atlas_fits;
use crate::font::spec_font_texture_plan;
use crate::font::spec_padded_rows;
use crate::ops::FrameSubmission;
use crate::pipeline::PipelineStateDesc;
use crate::pipeline::RootSignatureDesc;
use crate::pipeline::pipeline_state_desc;
use crate::pipeline::root_signature_desc;
use crate::pipeline::spec_pipeline_state_desc;
use crate::pipeline::spec_root_signature_desc;

/// The published font texture identifier while no texture exists.
pub const FONT_TEXTURE_ID_UNSET: u64 = 0;

/// A fresh, empty buffer slot.
pub open spec fn spec_empty_buffers() -> RenderBuffers {
    RenderBuffers {
        vertex_buffer_allocated: false,
        index_buffer_allocated: false,
        vertex_buffer_size: 0,
        index_buffer_size: 0,
        vbcount: 0,
        ibcount: 0,
    }
}

/// The device-level objects, built together on first use and released
/// together: the root signature and pipeline descriptions, the font
/// texture identifier (the texture itself lives with the host and must
/// outlive every frame that references its shader view), and one buffer
/// slot per frame in flight.
pub struct DeviceObjects {
    pub root_signature: RootSignatureDesc,
    pub pipeline_state: PipelineStateDesc,
    pub font_texture_id: u64,
    pub frame_resources: Vec<RenderBuffers>,
}

impl DeviceObjects {
    pub open spec fn wf(self, num_frames_in_flight: usize, rtv_format: i32, font_id: u64) -> bool {
        &&& self.frame_resources@.len() == num_frames_in_flight
        &&& forall|i: int|
            0 <= i < self.frame_resources@.len() ==> (#[trigger] self.frame_resources@[i]).wf()
        &&& self.root_signature == spec_root_signature_desc()
        &&& self.pipeline_state == spec_pipeline_state_desc(rtv_format)
        &&& self.font_texture_id == font_id
    }

    /// Serve one frame from slot `frame_index`.
    pub fn render_draw_data(&mut self, frame_index: usize, draw_data: &DrawData) -> (sub:
        FrameSubmission)
        requires
            frame_index < old(self).frame_resources@.len(),
            old(self).frame_resources@[frame_index as int].wf(),
            draw_data.wf(),
            totals_fit(draw_data.total_vtx_count, draw_data.total_idx_count),
        ensures
            final(self).frame_resources@ == old(self).frame_resources@.update(
                frame_index as int,
                spec_grow(
                    old(self).frame_resources@[frame_index as int],
                    draw_data.total_vtx_count,
                    draw_data.total_idx_count,
                ),
            ),
            final(self).frame_resources@[frame_index as int].wf(),
            final(self).root_signature == old(self).root_signature,
            final(self).pipeline_state == old(self).pipeline_state,
            final(self).font_texture_id == old(self).font_texture_id,
            sub.vertex_bytes@ == merged_vtx_bytes(draw_data.lists@),
            sub.indices@ == merged_indices(draw_data.lists@),
            sub.ops@ == spec_frame_ops(
                old(self).frame_resources@[frame_index as int],
                frame_index,
                *draw_data,
            ),
    {
        let slot = &mut self.frame_resources[frame_index];
        slot.render_draw_data(frame_index, draw_data)
    }
}

/// What `new_frame` and `create_device_objects` decided, and what the
/// host must now create on the device.
pub enum DeviceObjectsOutcome {
    /// Device objects already exist; nothing to do.
    AlreadyPrepared,
    /// Device objects were just (re)built; the host creates the GPU
    /// objects this plan describes.
    Prepared(DeviceObjectsPlan),
    /// The font atlas is too large for addressable memory; no objects
    /// were built.
    AtlasTooLarge,
}

/// Everything the host creates when device objects are (re)built, in
/// order: serialize and create the root signature, compile the fixed
/// shader pair and create the pipeline state, then perform the one-shot
/// font upload and publish `font_texture_id` as its shader view.
pub struct DeviceObjectsPlan {
    pub root_signature: RootSignatureDesc,
    pub pipeline_state: PipelineStateDesc,
    pub font_upload: FontUpload,
    pub font_texture: FontTexturePlan,
    pub font_texture_id: u64,
}

/// The renderer after its device objects are released.
pub open spec fn spec_invalidated(r: Renderer) -> Renderer {
    Renderer {
        device_objects: None,
        published_font_texture_id: FONT_TEXTURE_ID_UNSET,
        ..r
    }
}

/// The next value of the frame counter; the counter wraps around.
pub open spec fn spec_next_frame_index(i: usize) -> usize {
    if i == usize::MAX {
        0
    } else {
        (i + 1) as usize
    }
}

/// The frame counter after `k` rendered frames, starting fresh.
pub open spec fn spec_frame_index_after(k: nat) -> usize
    decreases k,
{
    if k == 0 {
        usize::MAX
    } else {
        spec_next_frame_index(spec_frame_index_after((k - 1) as nat))
    }
}

/// Rotation: the `k`-th rendered frame (counting from 1, renderer
/// fresh) uses buffer slot `(k - 1) % frames_in_flight`.  With two
/// frames in flight, three consecutive frames use slots 0, 1, 0.
pub proof fn lemma_slot_rotation(k: nat, n: usize)
    requires
        1 <= k <= usize::MAX,
        n >= 1,
    ensures
        spec_next_frame_index(spec_frame_index_after((k - 1) as nat)) as int == k - 1,
        (spec_next_frame_index(spec_frame_index_after((k - 1) as nat)) % n) as int == (k - 1) % (
        n as int),
    decreases k,
{
    if k > 1 {
        lemma_slot_rotation((k - 1) as nat, n);
    }
}

/// The renderer façade.
pub struct Renderer {
    /// Render-target color format, as the caller's raw format code.
    pub rtv_format: i32,
    /// CPU descriptor-heap location reserved for the font shader view.
    pub font_srv_cpu_desc_handle: u64,
    /// GPU descriptor-heap location reserved for the font shader view;
    /// doubles as the font texture identifier handed to the UI library.
    pub font_srv_gpu_desc_handle: u64,
    pub num_frames_in_flight: usize,
    /// Frame counter; starts at the all-ones sentinel so the first frame
    /// uses slot 0.
    pub frame_index: usize,
    /// The font texture identifier last published to the UI library;
    /// `FONT_TEXTURE_ID_UNSET` while no texture exists.
    pub published_font_texture_id: u64,
    pub device_objects: Option<DeviceObjects>,
}

impl Renderer {
    pub open spec fn wf(self) -> bool {
        &&& self.num_frames_in_flight >= 1
        &&& match self.device_objects {
            Some(d) => d.wf(
                self.num_frames_in_flight,
                self.rtv_format,
                self.font_srv_gpu_desc_handle,
            ),
            None => true,
        }
    }

    /// Are the device objects currently built?
    pub fn device_objects_built(&self) -> (b: bool)
        ensures
            b == self.device_objects is Some,
    {
        self.device_objects.is_some()
    }

    /// Pure construction: no GPU object is created.  Records the
    /// renderer's name and the vertex-offset capability with the UI
    /// library, so it emits merged-buffer-compatible draw commands.
    pub fn new(
        context: &mut imgui::Context,
        num_frames_in_flight: usize,
        rtv_format: i32,
        font_srv_cpu_desc_handle: u64,
        font_srv_gpu_desc_handle: u64,
    ) -> (r: Renderer)
        requires
            num_frames_in_flight >= 1,
        ensures
            r.wf(),
            r.rtv_format == rtv_format,
            r.font_srv_cpu_desc_handle == font_srv_cpu_desc_handle,
            r.font_srv_gpu_desc_handle == font_srv_gpu_desc_handle,
            r.num_frames_in_flight == num_frames_in_flight,
            r.frame_index == usize::MAX,
            r.published_font_texture_id == FONT_TEXTURE_ID_UNSET,
            r.device_objects is None,
    {
        set_renderer_name(context);
        enable_vtx_offset_flag(context);
        Renderer {
            rtv_format,
            font_srv_cpu_desc_handle,
            font_srv_gpu_desc_handle,
            num_frames_in_flight,
            frame_index: usize::MAX,
            published_font_texture_id: FONT_TEXTURE_ID_UNSET,
            device_objects: None,
        }
    }

    /// Build the device objects if they are absent; observably a no-op
    /// otherwise, so calling it twice without an intervening
    /// `invalidate_device_objects` performs construction exactly once.
    pub fn new_frame(&mut self, context: &mut imgui::Context) -> (r: DeviceObjectsOutcome)
        requires
            old(self).wf(),
        ensures
            final(self).wf(),
            old(self).device_objects is Some ==> *final(self) == *old(self)
                && r is AlreadyPrepared,
            old(self).device_objects is None ==> !(r is AlreadyPrepared),
            r is AtlasTooLarge ==> *final(self) == spec_invalidated(*old(self)),
            r matches DeviceObjectsOutcome::Prepared(plan) ==> final(self).device_objects is Some
                && spec_prepared(*old(self), *final(self), plan),
    {
        if self.device_objects.is_some() {
            return DeviceObjectsOutcome::AlreadyPrepared;
        }
        self.create_device_objects(context)
    }

    /// Release the device objects, if any, and reset the font texture
    /// identifier published to the UI library to the unset sentinel.
    pub fn invalidate_device_objects(&mut self, context: &mut imgui::Context)
        ensures
            *final(self) == spec_invalidated(*old(self)),
    {
        publish_font_texture_id(context, FONT_TEXTURE_ID_UNSET);
        self.published_font_texture_id = FONT_TEXTURE_ID_UNSET;
        self.device_objects = None;
    }

    /// Release any current device objects, then build a fresh set from
    /// the UI library's font atlas.
    pub fn create_device_objects(&mut self, context: &mut imgui::Context) -> (r:
        DeviceObjectsOutcome)
        requires
            old(self).wf(),
        ensures
            final(self).wf(),
            !(r is AlreadyPrepared),
            r is AtlasTooLarge ==> *final(self) == spec_invalidated(*old(self)),
            r matches DeviceObjectsOutcome::Prepared(plan) ==> final(self).device_objects is Some
                && spec_prepared(*old(self), *final(self), plan),
    {
        if self.device_objects.is_some() {
            self.invalidate_device_objects(context);
        }
        let atlas = read_font_atlas(context);
        let outcome = self.create_device_objects_from_atlas(&atlas);
        if let DeviceObjectsOutcome::Prepared(_) = &outcome {
            publish_font_texture_id(context, self.font_srv_gpu_desc_handle);
        }
        outcome
    }

    /// Build a fresh set of device objects for this atlas: exact
    /// descriptions for the root signature and pipeline, the padded font
    /// upload, empty buffer slots for every frame in flight.  Succeeds
    /// for every atlas whose padded upload fits in addressable memory,
    /// and otherwise leaves the renderer invalidated.
    pub fn create_device_objects_from_atlas(&mut self, atlas: &FontAtlas) -> (r:
        DeviceObjectsOutcome)
        requires
            old(self).wf(),
            atlas.wf(),
        ensures
            final(self).wf(),
            r is Prepared <==> spec_atlas_fits(*atlas),
            !(r is AlreadyPrepared),
            r is AtlasTooLarge ==> *final(self) == spec_invalidated(*old(self)),
            r matches DeviceObjectsOutcome::Prepared(plan) ==> final(self).device_objects is Some
                && spec_prepared(*old(self), *final(self), plan) && plan.font_upload.pitch
                == spec_aligned_pitch(atlas.width * 4) && plan.font_upload.bytes@
                == spec_padded_rows(
                atlas.data@,
                atlas.width * 4,
                plan.font_upload.pitch as int,
                atlas.height as int,
            ) && plan.font_texture == spec_font_texture_plan(
                atlas.width,
                atlas.height,
                plan.font_upload.pitch,
                plan.font_upload.bytes@.len() as usize,
            ),
    {
        self.device_objects = None;
        self.published_font_texture_id = FONT_TEXTURE_ID_UNSET;
        match build_font_upload(atlas) {
            None => DeviceObjectsOutcome::AtlasTooLarge,
            Some(font_upload) => {
                let font_texture = font_texture_plan(atlas, &font_upload);
                let root_signature = root_signature_desc();
                let pipeline_state = pipeline_state_desc(self.rtv_format);
                let mut frame_resources: Vec<RenderBuffers> = Vec::new();
                let mut i: usize = 0;
                while i < self.num_frames_in_flight
                    invariant
                        i <= self.num_frames_in_flight,
                        frame_resources@.len() == i,
                        forall|k: int|
                            0 <= k < i ==> #[trigger] frame_resources@[k] == spec_empty_buffers(),
                    decreases self.num_frames_in_flight - i,
                {
                    frame_resources.push(RenderBuffers::empty());
                    i = i + 1;
                }
                self.device_objects = Some(DeviceObjects {
                    root_signature,
                    pipeline_state,
                    font_texture_id: self.font_srv_gpu_desc_handle,
                    frame_resources,
                });
                self.published_font_texture_id = self.font_srv_gpu_desc_handle;
                DeviceObjectsOutcome::Prepared(DeviceObjectsPlan {
                    root_signature,
                    pipeline_state,
                    font_upload,
                    font_texture,
                    font_texture_id: self.font_srv_gpu_desc_handle,
                })
            },
        }
    }

    /// Render one frame of draw data.  A degenerate display is a no-op;
    /// otherwise, if device objects exist, the frame counter advances and
    /// slot `counter % frames_in_flight` serves the frame.
    pub fn render_draw_data(&mut self, draw_data: &DrawData) -> (sub: FrameSubmission)
        requires
            old(self).wf(),
            draw_data.wf(),
            totals_fit(draw_data.total_vtx_count, draw_data.total_idx_count),
        ensures
            final(self).wf(),
            draw_data.degenerate() ==> *final(self) == *old(self) && sub.ops@.len() == 0
                && sub.vertex_bytes@.len() == 0 && sub.indices@.len() == 0,
            !draw_data.degenerate() && old(self).device_objects is None ==> *final(self) == *old(
                self,
            ) && sub.ops@.len() == 0,
            !draw_data.degenerate() && old(self).device_objects is Some ==> ({
                let d = old(self).device_objects.unwrap();
                let next = spec_next_frame_index(old(self).frame_index);
                let slot = (next % old(self).num_frames_in_flight) as int;
                &&& final(self).frame_index == next
                &&& final(self).rtv_format == old(self).rtv_format
                &&& final(self).font_srv_cpu_desc_handle == old(self).font_srv_cpu_desc_handle
                &&& final(self).font_srv_gpu_desc_handle == old(self).font_srv_gpu_desc_handle
                &&& final(self).num_frames_in_flight == old(self).num_frames_in_flight
                &&& final(self).published_font_texture_id == old(
                    self,
                ).published_font_texture_id
                &&& final(self).device_objects matches Some(d2) && d2.frame_resources@
                    == d.frame_resources@.update(
                    slot,
                    spec_grow(
                        d.frame_resources@[slot],
                        draw_data.total_vtx_count,
                        draw_data.total_idx_count,
                    ),
                ) && d2.root_signature == d.root_signature && d2.pipeline_state
                    == d.pipeline_state && d2.font_texture_id == d.font_texture_id
                &&& sub.ops@ == spec_frame_ops(
                    d.frame_resources@[slot],
                    (next % old(self).num_frames_in_flight) as usize,
                    *draw_data,
                )
                &&& sub.vertex_bytes@ == merged_vtx_bytes(draw_data.lists@)
                &&& sub.indices@ == merged_indices(draw_data.lists@)
            }),
    {
        if draw_data.display_size.x <= 0 || draw_data.display_size.y <= 0 {
            return FrameSubmission { vertex_bytes: Vec::new(), indices: Vec::new(), ops: Vec::new() };
        }
        let next: usize = if self.frame_index == usize::MAX {
            0
        } else {
            self.frame_index + 1
        };
        let slot: usize = next % self.num_frames_in_flight;
        match &mut self.device_objects {
            Some(d) => {
                self.frame_index = next;
                d.render_draw_data(slot, draw_data)
            },
            None => FrameSubmission {
                vertex_bytes: Vec::new(),
                indices: Vec::new(),
                ops: Vec::new(),
            },
        }
    }
}

/// What holds of the renderer after device objects were freshly built:
/// everything but the objects and the published identifier is unchanged,
/// every buffer slot is fresh, and the plan carries exactly the fixed
/// descriptions and the published identifier.
pub open spec fn spec_prepared(before: Renderer, after: Renderer, plan: DeviceObjectsPlan) -> bool {
    &&& after.rtv_format == before.rtv_format
    &&& after.font_srv_cpu_desc_handle == before.font_srv_cpu_desc_handle
    &&& after.font_srv_gpu_desc_handle == before.font_srv_gpu_desc_handle
    &&& after.num_frames_in_flight == before.num_frames_in_flight
    &&& after.frame_index == before.frame_index
    &&& after.published_font_texture_id == before.font_srv_gpu_desc_handle
    &&& match after.device_objects {
        Some(d) => {
            &&& d.root_signature == spec_root_signature_desc()
            &&& d.pipeline_state == spec_pipeline_state_desc(before.rtv_format)
            &&& d.font_texture_id == before.font_srv_gpu_desc_handle
            &&& d.frame_resources@ =~= Seq::new(
                before.num_frames_in_flight as nat,
                |i: int| spec_empty_buffers(),
            )
        },
        None => false,
    }
    &&& plan.root_signature == spec_root_signature_desc()
    &&& plan.pipeline_state == spec_pipeline_state_desc(before.rtv_format)
    &&& plan.font_texture_id == before.font_srv_gpu_desc_handle
}

} // verus!
