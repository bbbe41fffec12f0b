//! The orchestrator: one tick is an update of every part in a fixed order,
//! then a render that brings the device up to date.
//!
//! The host drives it. It reads the input, calls `update`, carries out what
//! the returned [`Tick`] says, calls `render` once the surface has given it a
//! render pass, writes the buffers that the [`RenderPlan`] names, draws, and
//! calls `end_frame`.

use vstd::prelude::*;
use crate::camera::{Camera, CameraInput, CameraMotion, CameraView};
use crate::clock::{Clock, ClockView};
use crate::cursor_lock::{CursorAction, CursorLock, LockState, WindowEvent};
use crate::object::{motion_result, ObjectView, RenderedObject};
use crate::signal::{PyramidModelUpdate, PyramidTransformUpdate, Resize, Signal};

verus! {

/// The options that the pipeline is made with.
pub struct Args<T, M> {
    /// A ceiling on the frame rate, in frames per second.
    pub fps_limit: Option<u32>,
    /// The object's first transform.
    pub pyramid_transform: T,
    /// The object's first model.
    pub pyramid_model: M,
}

/// What the host has to do after the update of a tick.
#[derive(Clone, Copy, Debug, PartialEq, Eq, Structural)]
pub struct Tick {
    /// The time since the tick before, as every part saw it on this one.
    pub delta: u64,
    /// What to do with the pointer.
    pub cursor: CursorAction,
    /// The object's own motion gave it a new transform.
    pub pyramid_moved: bool,
    /// What the input asked of the camera, or `None` where the pointer is
    /// not locked and the camera read no input.
    pub motion: Option<CameraMotion>,
    /// Outbound signals may be sent now: a channel is attached.
    pub emit_signals: bool,
}

/// What the host has to write to the device during a render, the camera's
/// buffer first, before it draws.
#[derive(Clone, Copy, Debug, PartialEq, Eq, Structural)]
pub struct RenderPlan {
    /// Write the camera's buffer.
    pub camera_upload: bool,
    /// Write the object's buffer.
    pub pyramid_upload: bool,
}

/// What a [`Pipeline`] holds.
pub struct PipelineView<C, T, M> {
    pub time: ClockView,
    pub cursor_lock: LockState,
    pub camera: CameraView<C>,
    pub pyramid: ObjectView<T, M>,
}

impl<C, T, M> PipelineView<C, T, M> {
    /// Camera and object are each in step with the device unless dirty.
    pub open spec fn wf(self) -> bool {
        self.camera.wf() && self.pyramid.wf()
    }

    /// The pipeline as `init` makes it: the pointer locked, camera and object
    /// clean.
    pub open spec fn created(args: Args<T, M>, camera_model: C) -> PipelineView<C, T, M> {
        PipelineView {
            time: ClockView::start(args.fps_limit),
            cursor_lock: LockState::initial(true),
            camera: CameraView::created(camera_model),
            pyramid: ObjectView::created(args.pyramid_transform, args.pyramid_model),
        }
    }

    /// The pipeline with the pointer lock in `state`.
    pub open spec fn with_cursor_lock(self, state: LockState) -> PipelineView<C, T, M> {
        PipelineView { cursor_lock: state, ..self }
    }

    /// The pipeline after a window event, which only the pointer lock reads.
    pub open spec fn after_window_event(self, event: WindowEvent) -> PipelineView<C, T, M> {
        PipelineView { cursor_lock: self.cursor_lock.after_window_event(event), ..self }
    }

    /// Whether the camera reads the input on a tick: only while the pointer
    /// is locked.
    pub open spec fn camera_reads_input(self) -> bool {
        self.cursor_lock == LockState::Locked
    }

    /// What the camera makes of `input` on a tick: the motion that it asks
    /// for while the pointer is locked, and nothing while it is not.
    pub open spec fn camera_motion(self, input: CameraInput) -> Option<CameraMotion> {
        if self.camera_reads_input() {
            Some(CameraMotion::of(input))
        } else {
            None
        }
    }

    /// Whether the host's camera step runs on a tick: where the camera reads
    /// the input and the input asks for any motion.
    pub open spec fn camera_steps(self, input: CameraInput) -> bool {
        self.camera_reads_input() && !CameraMotion::of(input).is_idle()
    }

    /// The pipeline after the update of a tick that begins at `now`, where
    /// the object's own motion gives `pyramid_moved` and the host's camera
    /// step gives `camera_moved`.
    pub open spec fn after_update(
        self,
        now: u64,
        input: CameraInput,
        pyramid_moved: Option<T>,
        camera_moved: C,
    ) -> PipelineView<C, T, M> {
        PipelineView {
            time: self.time.tick(now as nat),
            cursor_lock: self.cursor_lock,
            pyramid: self.pyramid.after_update(pyramid_moved),
            camera: if self.camera_reads_input() {
                self.camera.after_update(input, camera_moved)
            } else {
                self.camera
            },
        }
    }

    /// What a render writes.
    pub open spec fn render_plan(self, resized: bool) -> RenderPlan {
        RenderPlan {
            camera_upload: self.camera.uploads(resized),
            pyramid_upload: self.pyramid.uploads(),
        }
    }

    /// The pipeline after a render.
    pub open spec fn after_render(self) -> PipelineView<C, T, M> {
        PipelineView {
            camera: self.camera.after_render(),
            pyramid: self.pyramid.after_render(),
            ..self
        }
    }

    /// The pipeline after an inbound signal.
    pub open spec fn after_signal(self, signal: Signal<T, M>) -> PipelineView<C, T, M> {
        match signal {
            Signal::Resize(_) => self,
            Signal::PyramidTransformUpdate(update) => PipelineView {
                pyramid: self.pyramid.with_transform(update.transform),
                ..self
            },
            Signal::PyramidModelUpdate(update) => PipelineView {
                pyramid: self.pyramid.with_model(update.model),
                ..self
            },
        }
    }
}

/// The size that an inbound signal asks the host to give the window.
pub open spec fn requested_size<T, M>(signal: Signal<T, M>) -> Option<Resize> {
    match signal {
        Signal::Resize(resize) => Some(resize),
        _ => None,
    }
}

/// The pipeline: clock, pointer lock, camera and object.
pub struct Pipeline<C, T, M> {
    time: Clock,
    cursor_lock: CursorLock,
    camera: Camera<C>,
    pyramid: RenderedObject<T, M>,
}

impl<C, T, M> View for Pipeline<C, T, M> {
    type V = PipelineView<C, T, M>;

    closed spec fn view(&self) -> PipelineView<C, T, M> {
        PipelineView {
            time: self.time@,
            cursor_lock: self.cursor_lock@,
            camera: self.camera@,
            pyramid: self.pyramid@,
        }
    }
}

impl<C, T, M> Pipeline<C, T, M> {
    /// Makes the parts in the order in which they depend on each other:
    /// clock, pointer lock, camera, object. The pointer lock is asked for
    /// from the start. The host makes the two uniform buffers with
    /// `camera_model` and with the transform and model of `args`.
    pub fn init(args: Args<T, M>, camera_model: C) -> (pipeline: Self)
        ensures
            pipeline@ == PipelineView::created(args, camera_model),
            pipeline@.wf(),
    {
        let time = Clock::new(args.fps_limit);
        let cursor_lock = CursorLock::new(true);
        let camera = Camera::new(camera_model);
        let pyramid = RenderedObject::new(args.pyramid_transform, args.pyramid_model);
        Pipeline { time, cursor_lock, camera, pyramid }
    }

    pub fn time(&self) -> (time: &Clock)
        ensures
            time@ == self@.time,
    {
        &self.time
    }

    pub fn cursor_lock(&self) -> (cursor_lock: &CursorLock)
        ensures
            cursor_lock@ == self@.cursor_lock,
    {
        &self.cursor_lock
    }

    pub fn camera(&self) -> (camera: &Camera<C>)
        ensures
            camera@ == self@.camera,
    {
        &self.camera
    }

    pub fn pyramid(&self) -> (pyramid: &RenderedObject<T, M>)
        ensures
            pyramid@ == self@.pyramid,
    {
        &self.pyramid
    }

    /// The application asks for the pointer lock.
    pub fn lock_cursor(&mut self) -> (action: CursorAction)
        ensures
            final(self)@ == old(self)@.with_cursor_lock(LockState::Locked),
            action == CursorAction::Capture,
            final(self)@.wf(),
    {
        proof {
            use_type_invariant(&self.camera);
            use_type_invariant(&self.pyramid);
        }
        self.cursor_lock.lock()
    }

    /// The application gives the pointer lock up, or the host reports it
    /// lost.
    pub fn unlock_cursor(&mut self) -> (action: CursorAction)
        ensures
            final(self)@ == old(self)@.with_cursor_lock(LockState::Unlocked),
            action == old(self)@.cursor_lock.released_into(LockState::Unlocked),
            final(self)@.wf(),
    {
        proof {
            use_type_invariant(&self.camera);
            use_type_invariant(&self.pyramid);
        }
        self.cursor_lock.unlock()
    }

    /// Hands a window event to the pointer lock, the only part that reads
    /// one.
    pub fn window_event(&mut self, event: &WindowEvent) -> (action: CursorAction)
        ensures
            final(self)@ == old(self)@.after_window_event(*event),
            action == old(self)@.cursor_lock.released_into(final(self)@.cursor_lock),
            final(self)@.wf(),
    {
        proof {
            use_type_invariant(&self.camera);
            use_type_invariant(&self.pyramid);
        }
        self.cursor_lock.window_event(event)
    }

    /// The update of one tick that begins at `now`, in this order: the clock;
    /// the pointer lock; the object, with its own motion; the camera, which
    /// reads `input` only while the pointer is locked. Nothing is written to
    /// the device.
    ///
    /// `pyramid_motion` is the object's own motion (see
    /// [`RenderedObject::update`]), `camera_step` the host's camera step
    /// (see [`Camera::update`]). `sender_attached` says whether a channel
    /// for outbound signals is attached.
    pub fn update<FP, FC>(
        &mut self,
        now: u64,
        input: &CameraInput,
        sender_attached: bool,
        pyramid_motion: FP,
        camera_step: FC,
    ) -> (tick: Tick)
        where FP: FnOnce(&T, u64) -> Option<T>, FC: FnOnce(&C, CameraMotion, u64) -> C
        requires
            pyramid_motion.requires(
                (&old(self)@.pyramid.transform, old(self)@.time.tick(now as nat).delta as u64),
            ),
            old(self)@.camera_steps(*input) ==> camera_step.requires(
                (
                    &old(self)@.camera.model,
                    CameraMotion::of(*input),
                    old(self)@.time.tick(now as nat).delta as u64,
                ),
            ),
        ensures
            final(self)@ == old(self)@.after_update(
                now,
                *input,
                motion_result(tick.pyramid_moved, final(self)@.pyramid.transform),
                final(self)@.camera.model,
            ),
            tick.delta == final(self)@.time.delta,
            tick.cursor == old(self)@.cursor_lock.reassert(),
            tick.motion == old(self)@.camera_motion(*input),
            tick.emit_signals == sender_attached,
            pyramid_motion.ensures(
                (&old(self)@.pyramid.transform, tick.delta),
                motion_result(tick.pyramid_moved, final(self)@.pyramid.transform),
            ),
            old(self)@.camera_steps(*input) ==> camera_step.ensures(
                (&old(self)@.camera.model, CameraMotion::of(*input), tick.delta),
                final(self)@.camera.model,
            ),
            final(self)@.wf(),
    {
        self.time.update(now);
        let cursor = self.cursor_lock.update();
        let delta: u64 = self.time.delta();
        let pyramid_moved = self.pyramid.update(delta, pyramid_motion);
        let motion = if self.cursor_lock.is_cursor_locked() {
            Some(self.camera.update(delta, input, camera_step))
        } else {
            proof {
                use_type_invariant(&self.camera);
            }
            None
        };
        Tick { delta, cursor, pyramid_moved, motion, emit_signals: sender_attached }
    }

    /// The render of one tick, to be called once the surface has given the
    /// host a render pass. `resized` says whether the surface was resized on
    /// this tick. The camera comes first, so that the object is drawn against
    /// the camera's current buffer. Both are clean afterwards.
    pub fn render(&mut self, resized: bool) -> (plan: RenderPlan)
        ensures
            plan == old(self)@.render_plan(resized),
            final(self)@ == old(self)@.after_render(),
            final(self)@.wf(),
    {
        let camera_upload = self.camera.render(resized);
        let pyramid_upload = self.pyramid.render();
        RenderPlan { camera_upload, pyramid_upload }
    }

    /// Ends the frame at `now`. The host waits for the returned time, then
    /// asks for the next redraw.
    pub fn end_frame(&self, now: u64) -> (wait: u64)
        ensures
            wait == self@.time.pause(now as nat),
    {
        self.time.end_frame(now)
    }

    /// Takes an inbound signal. A new transform or model goes to the object,
    /// which is dirty at once. A resize is for the window: the size comes
    /// back for the host to ask for, and the pipeline does not change.
    pub fn in_signal(&mut self, signal: Signal<T, M>) -> (request: Option<Resize>)
        ensures
            final(self)@ == old(self)@.after_signal(signal),
            request == requested_size(signal),
            final(self)@.wf(),
    {
        proof {
            use_type_invariant(&self.camera);
            use_type_invariant(&self.pyramid);
        }
        match signal {
            Signal::Resize(resize) => Some(resize),
            Signal::PyramidTransformUpdate(update) => {
                self.pyramid.set_transform(update.transform);
                None
            },
            Signal::PyramidModelUpdate(update) => {
                self.pyramid.set_model(update.model);
                None
            },
        }
    }
}

/// The lock gate: while the pointer is not locked, the update of a tick
/// leaves the camera as it was, whatever the input holds and whatever the
/// host's camera step would have made of it.
pub proof fn lemma_unlocked_camera_ignores_input<C, T, M>(
    pipeline: PipelineView<C, T, M>,
    now: u64,
    input: CameraInput,
    pyramid_moved: Option<T>,
    camera_moved: C,
)
    requires
        pipeline.cursor_lock == LockState::Unlocked,
    ensures
        pipeline.after_update(now, input, pyramid_moved, camera_moved).camera == pipeline.camera,
{
}

/// A resize alone makes the render write the camera's buffer: after a tick
/// on which the camera did not move, and with a clean camera before it, the
/// plan of a render that saw a resize still names the camera.
pub proof fn lemma_resize_forces_camera_upload<C, T, M>(
    pipeline: PipelineView<C, T, M>,
    now: u64,
    input: CameraInput,
    pyramid_moved: Option<T>,
    camera_moved: C,
)
    requires
        !pipeline.camera.dirty,
        !pipeline.camera_reads_input() || CameraMotion::of(input).is_idle(),
    ensures
        !pipeline.after_update(now, input, pyramid_moved, camera_moved).camera.dirty,
        pipeline.after_update(now, input, pyramid_moved, camera_moved).render_plan(
            true,
        ).camera_upload,
        !pipeline.after_update(now, input, pyramid_moved, camera_moved).render_plan(
            false,
        ).camera_upload,
{
}

/// A transform sent by signal reaches the device on the next render: the
/// render writes the object's buffer, and what the device then holds is
/// exactly the transform that was sent, beside the model that the object
/// had.
pub proof fn lemma_transform_signal_reaches_device<C, T, M>(
    pipeline: PipelineView<C, T, M>,
    transform: T,
    resized: bool,
)
    ensures
        ({
            let signalled = pipeline.after_signal(
                Signal::PyramidTransformUpdate(PyramidTransformUpdate { transform }),
            );
            &&& signalled.render_plan(resized).pyramid_upload
            &&& signalled.after_render().pyramid.transform == transform
            &&& signalled.after_render().pyramid.uploaded == (transform, pipeline.pyramid.model)
        }),
{
}

/// A model sent by signal reaches the device on the next render: the render
/// writes the object's buffer, and what the device then holds is exactly the
/// model that was sent, beside the transform that the object had.
pub proof fn lemma_model_signal_reaches_device<C, T, M>(
    pipeline: PipelineView<C, T, M>,
    model: M,
    resized: bool,
)
    ensures
        ({
            let signalled = pipeline.after_signal(
                Signal::PyramidModelUpdate(PyramidModelUpdate { model }),
            );
            &&& signalled.render_plan(resized).pyramid_upload
            &&& signalled.after_render().pyramid.model == model
            &&& signalled.after_render().pyramid.uploaded == (pipeline.pyramid.transform, model)
        }),
{
}

/// Every step keeps camera and object in step with the device unless dirty.
pub proof fn lemma_every_step_keeps_wf<C, T, M>(
    pipeline: PipelineView<C, T, M>,
    now: u64,
    input: CameraInput,
    pyramid_moved: Option<T>,
    camera_moved: C,
    event: WindowEvent,
    state: LockState,
    signal: Signal<T, M>,
)
    requires
        pipeline.wf(),
    ensures
        pipeline.after_update(now, input, pyramid_moved, camera_moved).wf(),
        pipeline.after_render().wf(),
        pipeline.after_window_event(event).wf(),
        pipeline.with_cursor_lock(state).wf(),
        pipeline.after_signal(signal).wf(),
{
}

/// A render brings the device up to date: afterwards camera and object are
/// clean, the device holds exactly what they hold, and a second render
/// without a resize writes nothing.
pub proof fn lemma_render_brings_device_up_to_date<C, T, M>(pipeline: PipelineView<C, T, M>)
    ensures
        !pipeline.after_render().camera.dirty,
        !pipeline.after_render().pyramid.dirty,
        pipeline.after_render().camera.uploaded == pipeline.camera.model,
        pipeline.after_render().pyramid.uploaded == (
            pipeline.pyramid.transform,
            pipeline.pyramid.model,
        ),
        pipeline.after_render().render_plan(false) == (RenderPlan {
            camera_upload: false,
            pyramid_upload: false,
        }),
{
}

} // verus!
