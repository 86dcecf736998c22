//! The render state: the top-level owner of the GPU device and presentation
//! surface, the pipeline, the depth attachment, the loaded model, the
//! instance data, the per-frame uniform buffer, and the camera with its
//! controller. It exposes the frame lifecycle: resize (which atomically
//! reconfigures the surface and rebuilds the depth attachment), the
//! per-tick camera update and uniform upload, frame acquisition with its
//! recovery decisions, and the draw-submission plan.

use vstd::prelude::*;

use crate::SCALE;
use crate::bytes::copy_bytes;
use crate::camera::{
    angle_delta, key_applied, moved_eye, near_unit, start_camera, Camera, CameraController, Key,
    Vec3,
};
use crate::fixed::{clamp_i, sat_i64};
use crate::gpu;
use crate::gpu::{BufferKind, FrameError};
use crate::instance::{build_instances, grid_seq, Instance, INSTANCES_PER_ROW};
use crate::model::Model;
use crate::texture::TextureBundle;

verus! {

/// The camera's movement speed: two units per second (fixed point).
pub const CAMERA_SPEED: i64 = 2 * SCALE;

/// The camera's mouse sensitivity: eight thousandths of a radian of
/// rotation per pixel of pointer motion (fixed point).
pub const CAMERA_SENSITIVITY: i64 = 8_000;

/// The presentation geometry: the configured surface dimensions and the
/// dimensions of the depth attachment that must track them. `reconfigure`
/// replaces both together, so no caller can observe one updated alone.
#[derive(Clone, Copy, PartialEq, Eq, Structural, Debug)]
pub struct FrameGeometry {
    pub width: u32,
    pub height: u32,
    pub depth_width: u32,
    pub depth_height: u32,
}

impl FrameGeometry {
    /// The depth attachment is sized to the surface, and neither dimension
    /// is zero.
    pub open spec fn wf(self) -> bool {
        &&& self.depth_width == self.width
        &&& self.depth_height == self.height
        &&& self.width > 0
        &&& self.height > 0
    }

    /// Geometry for a fresh surface of the given dimensions.
    pub fn new(width: u32, height: u32) -> (g: FrameGeometry)
        requires
            width > 0,
            height > 0,
        ensures
            g == (FrameGeometry { width, height, depth_width: width, depth_height: height }),
            g.wf(),
    {
        FrameGeometry { width, height, depth_width: width, depth_height: height }
    }

    /// Applies a resize: surface and depth dimensions move together to the
    /// new size. Repeating a call with the same size leaves the geometry
    /// exactly as it was after the first.
    pub fn reconfigure(&mut self, width: u32, height: u32)
        requires
            width > 0,
            height > 0,
        ensures
            *final(self) == (FrameGeometry {
                width,
                height,
                depth_width: width,
                depth_height: height,
            }),
            final(self).wf(),
    {
        self.width = width;
        self.height = height;
        self.depth_width = width;
        self.depth_height = height;
    }
}

/// What the application should do when no frame could be acquired.
#[derive(Clone, Copy, PartialEq, Eq, Structural, Debug)]
pub enum RecoveryAction {
    /// Reconfigure the surface at the current size, then continue.
    Reconfigure,
    /// Skip this frame's render and continue with the next tick.
    SkipFrame,
}

/// The recovery rule: a lost surface is reconfigured at the current size;
/// every other acquisition failure only skips the frame.
pub open spec fn recovery_of(e: FrameError) -> RecoveryAction {
    match e {
        FrameError::Lost => RecoveryAction::Reconfigure,
        _ => RecoveryAction::SkipFrame,
    }
}

/// Decides how to go on after a failed frame acquisition.
pub fn recovery_for(e: FrameError) -> (a: RecoveryAction)
    ensures
        a == recovery_of(e),
{
    match e {
        FrameError::Lost => RecoveryAction::Reconfigure,
        _ => RecoveryAction::SkipFrame,
    }
}

/// One indexed, instanced draw of the render pass: which mesh, with which
/// material's bind group, how many indices, over how many instances
/// (starting at instance zero).
#[derive(Clone, Copy, PartialEq, Eq, Structural, Debug)]
pub struct DrawCall {
    pub mesh_index: usize,
    pub material_index: usize,
    pub index_count: u32,
    pub instance_count: u32,
}

/// The top-level render state.
pub struct State {
    pub surface: wgpu::Surface<'static>,
    pub device: wgpu::Device,
    pub queue: wgpu::Queue,
    pub render_pipeline: wgpu::RenderPipeline,
    pub uniform_buffer: wgpu::Buffer,
    pub uniform_bind_group: wgpu::BindGroup,
    pub depth_texture: TextureBundle,
    pub model: Model,
    pub instances: Vec<Instance>,
    pub instance_buffer: wgpu::Buffer,
    /// The CPU copy of the 64 uniform bytes (the view-projection matrix)
    /// last written to the uniform buffer.
    pub uniforms: Vec<u8>,
    pub geometry: FrameGeometry,
    pub camera: Camera,
    pub camera_controller: CameraController,
}

/// The GPU handles `b` carries are the very ones `a` carried: no mutator
/// but `resize` (which replaces the depth attachment) touches any of them.
pub open spec fn same_handles(a: State, b: State) -> bool {
    &&& b.surface == a.surface
    &&& b.device == a.device
    &&& b.queue == a.queue
    &&& b.render_pipeline == a.render_pipeline
    &&& b.uniform_buffer == a.uniform_buffer
    &&& b.uniform_bind_group == a.uniform_bind_group
    &&& b.instance_buffer == a.instance_buffer
}

impl State {
    /// The state's invariant: the geometry is consistent and the depth
    /// attachment really has the configured dimensions (so a render never
    /// sees a depth texture of a stale size), the camera and controller are
    /// well formed, every mesh's material index is valid, the uniform copy
    /// is one whole matrix, and the instance list is the full grid.
    pub open spec fn wf(self) -> bool {
        &&& self.geometry.wf()
        &&& self.depth_texture.width == self.geometry.depth_width
        &&& self.depth_texture.height == self.geometry.depth_height
        &&& self.camera.wf()
        &&& self.camera_controller.wf()
        &&& self.model.wf()
        &&& self.uniforms@.len() == 64
        &&& self.instances@.len() == INSTANCES_PER_ROW * INSTANCES_PER_ROW
    }

    /// Depth-attachment dimensions always match the configured surface: a
    /// well-formed state cannot pair a resized surface with a stale depth
    /// texture.
    pub proof fn lemma_depth_matches_surface(self)
        requires
            self.wf(),
        ensures
            self.depth_texture.width == self.geometry.width,
            self.depth_texture.height == self.geometry.height,
    {
    }

    /// Assembles the render state around an already-acquired device and
    /// surface and an already-built pipeline and model: configures the
    /// surface at the window size, builds the depth attachment at that same
    /// size, seeds camera and controller with the fixed startup values,
    /// uploads the initial view-projection matrix and the instance data,
    /// and builds the per-frame bind group.
    pub fn new(
        surface: wgpu::Surface<'static>,
        device: wgpu::Device,
        queue: wgpu::Queue,
        render_pipeline: wgpu::RenderPipeline,
        uniform_layout: &wgpu::BindGroupLayout,
        model: Model,
        width: u32,
        height: u32,
        instance_bytes: &[u8],
        initial_view_proj: &[u8],
    ) -> (s: State)
        requires
            width > 0,
            height > 0,
            model.wf(),
            initial_view_proj@.len() == 64,
            instance_bytes@.len() == 64 * INSTANCES_PER_ROW * INSTANCES_PER_ROW,
        ensures
            s.wf(),
            s.geometry == (FrameGeometry { width, height, depth_width: width, depth_height: height }),
            s.camera == start_camera(width, height),
            s.camera_controller.speed == CAMERA_SPEED,
            s.camera_controller.sensitivity == CAMERA_SENSITIVITY,
            s.model == model,
            s.uniforms@ == initial_view_proj@,
            s.instances@ == grid_seq(),
    {
        gpu::configure_surface(&surface, &device, width, height);
        let depth_texture = TextureBundle::depth_attachment(&device, width, height);
        let camera = Camera::start(width, height);
        let camera_controller = CameraController::new(CAMERA_SPEED, CAMERA_SENSITIVITY);
        let uniform_buffer = gpu::create_buffer_with_bytes(
            &device,
            BufferKind::Uniform,
            initial_view_proj,
        );
        let uniform_bind_group = gpu::create_uniform_bind_group(
            &device,
            uniform_layout,
            &uniform_buffer,
        );
        let instances = build_instances();
        let instance_buffer = gpu::create_buffer_with_bytes(
            &device,
            BufferKind::Vertex,
            instance_bytes,
        );
        let uniforms = copy_bytes(initial_view_proj);
        State {
            surface,
            device,
            queue,
            render_pipeline,
            uniform_buffer,
            uniform_bind_group,
            depth_texture,
            model,
            instances,
            instance_buffer,
            uniforms,
            geometry: FrameGeometry::new(width, height),
            camera,
            camera_controller,
        }
    }

    /// Applies a resize: reconfigures the presentation surface at the new
    /// dimensions and rebuilds the depth attachment at those same
    /// dimensions, atomically as far as any caller can observe. Repeating
    /// the call with the same size is harmless and leaves the same
    /// geometry.
    pub fn resize(&mut self, width: u32, height: u32)
        requires
            old(self).wf(),
            width > 0,
            height > 0,
        ensures
            final(self).wf(),
            final(self).geometry == (FrameGeometry {
                width,
                height,
                depth_width: width,
                depth_height: height,
            }),
            final(self).depth_texture.width == width,
            final(self).depth_texture.height == height,
            final(self).camera == old(self).camera,
            final(self).camera_controller == old(self).camera_controller,
            final(self).model == old(self).model,
            final(self).uniforms == old(self).uniforms,
            final(self).instances == old(self).instances,
            same_handles(*old(self), *final(self)),
    {
        self.geometry.reconfigure(width, height);
        gpu::configure_surface(&self.surface, &self.device, width, height);
        self.depth_texture = TextureBundle::depth_attachment(&self.device, width, height);
    }

    /// Feeds one key press or release to the camera controller; reports
    /// whether the controller consumed it (an unconsumed key falls through
    /// to the application, for example to close on escape).
    pub fn handle_window_event(&mut self, key: Key, pressed: bool) -> (handled: bool)
        requires
            old(self).wf(),
        ensures
            final(self).wf(),
            handled == !(crate::camera::key_action(key) is Unbound),
            final(self).camera_controller == key_applied(old(self).camera_controller, key, pressed),
            final(self).camera == old(self).camera,
            final(self).geometry == old(self).geometry,
            final(self).depth_texture.width == old(self).depth_texture.width,
            final(self).depth_texture.height == old(self).depth_texture.height,
            final(self).model == old(self).model,
            final(self).uniforms == old(self).uniforms,
            final(self).instances == old(self).instances,
            final(self).depth_texture == old(self).depth_texture,
            same_handles(*old(self), *final(self)),
    {
        self.camera_controller.process_window_event(key, pressed)
    }

    /// Feeds one relative mouse motion (fixed-point pixels) to the camera
    /// controller: yaw accumulates without bound, pitch is clamped to a
    /// right angle either way. Always consumed.
    pub fn handle_device_event(&mut self, dx: i64, dy: i64) -> (handled: bool)
        requires
            old(self).wf(),
            i64::MIN < dx,
            i64::MIN < dy,
        ensures
            final(self).wf(),
            handled,
            final(self).camera_controller.speed == old(self).camera_controller.speed,
            final(self).camera_controller.sensitivity == old(self).camera_controller.sensitivity,
            final(self).camera_controller.is_up_pressed == old(self).camera_controller.is_up_pressed,
            final(self).camera_controller.is_down_pressed == old(self).camera_controller.is_down_pressed,
            final(self).camera_controller.is_forward_pressed == old(self).camera_controller.is_forward_pressed,
            final(self).camera_controller.is_backward_pressed == old(self).camera_controller.is_backward_pressed,
            final(self).camera_controller.is_left_pressed == old(self).camera_controller.is_left_pressed,
            final(self).camera_controller.is_right_pressed == old(self).camera_controller.is_right_pressed,
            final(self).camera_controller.yaw as int == sat_i64(
                old(self).camera_controller.yaw + angle_delta(
                    dx as int,
                    old(self).camera_controller.sensitivity as int,
                ),
            ),
            final(self).camera_controller.pitch == clamp_i(
                old(self).camera_controller.pitch - angle_delta(
                    dy as int,
                    old(self).camera_controller.sensitivity as int,
                ),
                -crate::camera::PITCH_LIMIT as int,
                crate::camera::PITCH_LIMIT as int,
            ),
            final(self).camera == old(self).camera,
            final(self).geometry == old(self).geometry,
            final(self).model == old(self).model,
            final(self).uniforms == old(self).uniforms,
            final(self).instances == old(self).instances,
            final(self).depth_texture == old(self).depth_texture,
            same_handles(*old(self), *final(self)),
    {
        self.camera_controller.process_device_event(dx, dy)
    }

    /// Advances the camera by one tick: movement along the held directions
    /// scaled by `speed * dt_ms / 1000`, then the new viewing direction.
    /// `right` and `new_front` are the near-unit vectors the application
    /// derived (by floating-point trigonometry) from the camera's front and
    /// up and from the controller's yaw and pitch.
    pub fn update(&mut self, dt_ms: u32, right: Vec3, new_front: Vec3)
        requires
            old(self).wf(),
            near_unit(right),
            near_unit(new_front),
        ensures
            final(self).wf(),
            final(self).camera.eye == moved_eye(
                old(self).camera_controller,
                old(self).camera.eye,
                old(self).camera.front,
                right,
                old(self).camera.up,
                crate::camera::step_of(old(self).camera_controller.speed as int, dt_ms as int),
            ),
            final(self).camera.front == new_front,
            final(self).camera.up == old(self).camera.up,
            final(self).camera.aspect == old(self).camera.aspect,
            final(self).camera.fovy == old(self).camera.fovy,
            final(self).camera.znear == old(self).camera.znear,
            final(self).camera.zfar == old(self).camera.zfar,
            final(self).camera_controller == old(self).camera_controller,
            final(self).geometry == old(self).geometry,
            final(self).model == old(self).model,
            final(self).uniforms == old(self).uniforms,
            final(self).instances == old(self).instances,
            final(self).depth_texture == old(self).depth_texture,
            same_handles(*old(self), *final(self)),
    {
        self.camera_controller.update_camera(&mut self.camera, dt_ms, right, new_front);
    }

    /// Stores and uploads this frame's view-projection matrix (64 bytes,
    /// computed by the application from the updated camera). The write is
    /// scheduled on the queue before any later submission, so the render
    /// that follows sees this frame's matrix.
    pub fn upload_view_proj(&mut self, view_proj: &[u8])
        requires
            old(self).wf(),
            view_proj@.len() == 64,
        ensures
            final(self).wf(),
            final(self).uniforms@ == view_proj@,
            final(self).camera == old(self).camera,
            final(self).camera_controller == old(self).camera_controller,
            final(self).geometry == old(self).geometry,
            final(self).model == old(self).model,
            final(self).instances == old(self).instances,
            final(self).depth_texture == old(self).depth_texture,
            same_handles(*old(self), *final(self)),
    {
        self.uniforms = copy_bytes(view_proj);
        gpu::write_buffer_start(&self.queue, &self.uniform_buffer, view_proj);
    }

    /// Acquires the next presentable frame, or says why there is none;
    /// which outcome comes back depends on the window system. The state,
    /// including the depth attachment the render pass will pair with this
    /// frame, is untouched either way.
    pub fn begin_frame(&self) -> (r: Result<wgpu::SurfaceTexture, FrameError>) {
        gpu::acquire_frame(&self.surface)
    }

    /// The draw submissions of one frame, in mesh order: every mesh is
    /// drawn once, indexed, with its own material, over the whole instance
    /// grid.
    pub fn draw_plan(&self) -> (plan: Vec<DrawCall>)
        requires
            self.wf(),
        ensures
            plan@.len() == self.model.meshes@.len(),
            forall|i: int|
                0 <= i < plan@.len() ==> #[trigger] plan@[i] == (DrawCall {
                    mesh_index: i as usize,
                    material_index: self.model.meshes@[i].material_index,
                    index_count: self.model.meshes@[i].index_count,
                    instance_count: (INSTANCES_PER_ROW * INSTANCES_PER_ROW) as u32,
                }),
            forall|i: int|
                0 <= i < plan@.len() ==> #[trigger] plan@[i].material_index
                    < self.model.materials@.len(),
    {
        let mut plan: Vec<DrawCall> = Vec::new();
        let mut i: usize = 0;
        let n = self.model.meshes.len();
        while i < n
            invariant
                0 <= i <= n,
                n == self.model.meshes@.len(),
                self.wf(),
                plan@.len() == i,
                forall|j: int|
                    0 <= j < i ==> #[trigger] plan@[j] == (DrawCall {
                        mesh_index: j as usize,
                        material_index: self.model.meshes@[j].material_index,
                        index_count: self.model.meshes@[j].index_count,
                        instance_count: (INSTANCES_PER_ROW * INSTANCES_PER_ROW) as u32,
                    }),
            decreases n - i,
        {
            let mesh = &self.model.meshes[i];
            plan.push(DrawCall {
                mesh_index: i,
                material_index: mesh.material_index,
                index_count: mesh.index_count,
                instance_count: (INSTANCES_PER_ROW * INSTANCES_PER_ROW) as u32,
            });
            i = i + 1;
        }
        proof {
            assert forall|i2: int| 0 <= i2 < plan@.len() implies #[trigger] plan@[i2].material_index
                < self.model.materials@.len() by {
                assert(self.model.meshes@[i2].material_index < self.model.materials@.len());
            };
        }
        plan
    }

    /// Hands the finished command buffer of one frame to the queue and
    /// schedules the frame for presentation, in that order.
    pub fn finish_frame(&self, commands: wgpu::CommandBuffer, frame: wgpu::SurfaceTexture) {
        gpu::submit_commands(&self.queue, commands);
        gpu::present_frame(frame);
    }
}

} // verus!
