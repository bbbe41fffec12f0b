//! The first-person camera: what the input asks of it on a tick, and when
//! its model has to be written to the device again.
//!
//! The model itself is the host's: a value of a type `M` that this module
//! stores, hands to the host's step function and never reads.

use vstd::prelude::*;

verus! {

/// What the camera reads of the input on one tick.
#[derive(Clone, Copy, Debug, PartialEq, Eq, Structural)]
pub struct CameraInput {
    /// The key for moving forward is held.
    pub forward: bool,
    /// The key for moving backward is held.
    pub backward: bool,
    /// The key for moving left is held.
    pub left: bool,
    /// The key for moving right is held.
    pub right: bool,
    /// The key for moving up is held.
    pub up: bool,
    /// The key for moving down is held.
    pub down: bool,
    /// The mouse has moved since the last poll.
    pub mouse_moved: bool,
}

/// Movement along one axis.
#[derive(Clone, Copy, Debug, PartialEq, Eq, Structural)]
pub enum Thrust {
    /// Against the axis.
    Negative,
    /// None.
    Neutral,
    /// Along the axis.
    Positive,
}

impl Thrust {
    /// The movement for two keys that pull opposite ways, where the key
    /// `preferred` wins when both are held and pulls towards `direction`.
    pub open spec fn of_keys(preferred: bool, opposite: bool, direction: Thrust) -> Thrust {
        if preferred {
            direction
        } else if opposite {
            direction.reversed()
        } else {
            Thrust::Neutral
        }
    }

    /// The same movement the other way.
    pub open spec fn reversed(self) -> Thrust {
        match self {
            Thrust::Negative => Thrust::Positive,
            Thrust::Neutral => Thrust::Neutral,
            Thrust::Positive => Thrust::Negative,
        }
    }
}

/// What one tick asks of the camera: a movement along each of its three
/// axes, scaled by the host with speed and elapsed time, and whether it
/// turns with the mouse.
#[derive(Clone, Copy, Debug, PartialEq, Eq, Structural)]
pub struct CameraMotion {
    /// Along the look direction, flattened to the horizontal plane.
    pub forward: Thrust,
    /// Along the camera's right.
    pub right: Thrust,
    /// Along the world's up.
    pub up: Thrust,
    /// Yaw and pitch follow the mouse.
    pub rotate: bool,
}

impl CameraMotion {
    /// The motion that `input` asks for. On each axis the first of the two
    /// keys wins when both are held: forward over backward, left over right,
    /// up over down.
    pub open spec fn of(input: CameraInput) -> CameraMotion {
        CameraMotion {
            forward: Thrust::of_keys(input.forward, input.backward, Thrust::Positive),
            right: Thrust::of_keys(input.left, input.right, Thrust::Negative),
            up: Thrust::of_keys(input.up, input.down, Thrust::Positive),
            rotate: input.mouse_moved,
        }
    }

    /// Nothing moves and nothing turns.
    pub open spec fn is_idle(self) -> bool {
        &&& self.forward == Thrust::Neutral
        &&& self.right == Thrust::Neutral
        &&& self.up == Thrust::Neutral
        &&& !self.rotate
    }

    pub fn from_input(input: &CameraInput) -> (motion: CameraMotion)
        ensures
            motion == CameraMotion::of(*input),
    {
        let forward = if input.forward {
            Thrust::Positive
        } else if input.backward {
            Thrust::Negative
        } else {
            Thrust::Neutral
        };
        let right = if input.left {
            Thrust::Negative
        } else if input.right {
            Thrust::Positive
        } else {
            Thrust::Neutral
        };
        let up = if input.up {
            Thrust::Positive
        } else if input.down {
            Thrust::Negative
        } else {
            Thrust::Neutral
        };
        CameraMotion { forward, right, up, rotate: input.mouse_moved }
    }

    pub fn idle(&self) -> (idle: bool)
        ensures
            idle == self.is_idle(),
    {
        let still = match (self.forward, self.right, self.up) {
            (Thrust::Neutral, Thrust::Neutral, Thrust::Neutral) => true,
            _ => false,
        };
        still && !self.rotate
    }
}

/// What a [`Camera`] holds, and what the device holds of it.
pub struct CameraView<M> {
    /// The current model.
    pub model: M,
    /// The model may differ from what the device holds.
    pub dirty: bool,
    /// The model as the device holds it: the one the buffer was made with, or
    /// the one of the latest write that `render` called for.
    pub uploaded: M,
}

impl<M> CameraView<M> {
    /// A clean camera is in step with the device.
    pub open spec fn wf(self) -> bool {
        !self.dirty ==> self.uploaded == self.model
    }

    /// A camera made with `model`, which the buffer holds from the start.
    pub open spec fn created(model: M) -> CameraView<M> {
        CameraView { model, dirty: false, uploaded: model }
    }

    /// The camera after a tick with `input`, where `moved` is the model that
    /// the host's step gives. Idle input leaves everything as it is.
    pub open spec fn after_update(self, input: CameraInput, moved: M) -> CameraView<M> {
        if CameraMotion::of(input).is_idle() {
            self
        } else {
            CameraView { model: moved, dirty: true, uploaded: self.uploaded }
        }
    }

    /// Whether a render writes the buffer: after any change, and whenever the
    /// surface was resized, which changes the projection.
    pub open spec fn uploads(self, resized: bool) -> bool {
        self.dirty || resized
    }

    /// The camera after a render.
    pub open spec fn after_render(self) -> CameraView<M> {
        CameraView { model: self.model, dirty: false, uploaded: self.model }
    }

    /// The camera after one tick for each of `inputs`, the host's step giving
    /// `models[i]` on the tick with `inputs[i]`, and no render in between.
    pub open spec fn after_updates(self, inputs: Seq<CameraInput>, models: Seq<M>) -> CameraView<M>
        recommends
            inputs.len() == models.len(),
        decreases inputs.len(),
    {
        if inputs.len() == 0 || models.len() == 0 {
            self
        } else {
            self.after_updates(inputs.drop_last(), models.drop_last()).after_update(
                inputs.last(),
                models.last(),
            )
        }
    }
}

/// The camera: its model and the flag that defers the upload to the render.
pub struct Camera<M> {
    model: M,
    is_model_dirty: bool,
    uploaded: Ghost<M>,
}

impl<M> View for Camera<M> {
    type V = CameraView<M>;

    closed spec fn view(&self) -> CameraView<M> {
        CameraView { model: self.model, dirty: self.is_model_dirty, uploaded: self.uploaded@ }
    }
}

impl<M> Camera<M> {
    /// Holds of every camera: it is in step with the device unless dirty.
    #[verifier::type_invariant]
    pub open spec fn in_step(self) -> bool {
        self@.wf()
    }

    /// A camera for `model`. The host makes the uniform buffer with the same
    /// model, so the camera starts clean.
    pub fn new(model: M) -> (camera: Self)
        ensures
            camera@ == CameraView::created(model),
    {
        Camera { uploaded: Ghost(model), model, is_model_dirty: false }
    }

    pub fn model(&self) -> (model: &M)
        ensures
            *model == self@.model,
            self@.wf(),
    {
        proof {
            use_type_invariant(self);
        }
        &self.model
    }

    /// Whether the model has changed since the device last had it.
    pub fn is_model_dirty(&self) -> (dirty: bool)
        ensures
            dirty == self@.dirty,
            self@.wf(),
    {
        proof {
            use_type_invariant(self);
        }
        self.is_model_dirty
    }

    /// One tick of the camera. Where `input` asks for any motion, the model
    /// becomes what `step` makes of it and the camera is dirty; the device is
    /// not written. Idle input changes nothing and `step` is not called.
    ///
    /// `step` takes the model, the motion and the time since the last tick.
    pub fn update<F>(&mut self, dt: u64, input: &CameraInput, step: F) -> (motion: CameraMotion)
        where F: FnOnce(&M, CameraMotion, u64) -> M
        requires
            !CameraMotion::of(*input).is_idle() ==> step.requires(
                (&old(self)@.model, CameraMotion::of(*input), dt),
            ),
        ensures
            motion == CameraMotion::of(*input),
            final(self)@ == old(self)@.after_update(*input, final(self)@.model),
            !motion.is_idle() ==> step.ensures((&old(self)@.model, motion, dt), final(self)@.model),
            final(self)@.wf(),
    {
        proof {
            use_type_invariant(&*self);
        }
        let motion = CameraMotion::from_input(input);
        if !motion.idle() {
            let moved = step(&self.model, motion, dt);
            self.is_model_dirty = true;
            self.model = moved;
        }
        motion
    }

    /// The camera's part of a render. Returns whether the host has to write
    /// the buffer, with the current model and the current aspect ratio: after
    /// any change since the last render, and whenever `resized` is set. The
    /// camera is clean afterwards.
    pub fn render(&mut self, resized: bool) -> (upload: bool)
        ensures
            upload == old(self)@.uploads(resized),
            final(self)@ == old(self)@.after_render(),
            final(self)@.wf(),
    {
        proof {
            use_type_invariant(&*self);
        }
        let upload = self.is_model_dirty || resized;
        if upload {
            self.uploaded = Ghost(self.model);
            self.is_model_dirty = false;
        }
        upload
    }
}

/// Ticks alone never write the device: however many of them pass without a
/// render, the device holds what it held.
pub proof fn lemma_updates_write_nothing<M>(
    camera: CameraView<M>,
    inputs: Seq<CameraInput>,
    models: Seq<M>,
)
    requires
        inputs.len() == models.len(),
    ensures
        camera.after_updates(inputs, models).uploaded == camera.uploaded,
        camera.wf() ==> camera.after_updates(inputs, models).wf(),
    decreases inputs.len(),
{
    if inputs.len() > 0 {
        lemma_updates_write_nothing(camera, inputs.drop_last(), models.drop_last());
    }
}

/// The model is the host's alone: after any number of ticks it is the model
/// from before them or one that the host's step gave. So whatever holds of
/// the first model and of every model that the step gives, holds of the
/// camera's model throughout.
pub proof fn lemma_updates_keep_what_steps_keep<M>(
    camera: CameraView<M>,
    inputs: Seq<CameraInput>,
    models: Seq<M>,
    kept: spec_fn(M) -> bool,
)
    requires
        inputs.len() == models.len(),
        kept(camera.model),
        forall|i: int| 0 <= i < models.len() ==> kept(#[trigger] models[i]),
    ensures
        kept(camera.after_updates(inputs, models).model),
    decreases inputs.len(),
{
    if inputs.len() > 0 {
        lemma_updates_keep_what_steps_keep(camera, inputs.drop_last(), models.drop_last(), kept);
    }
}

/// Changes are batched: after any number of ticks that each change the
/// camera, with no render in between, the next render writes the buffer
/// once, with the model of the last tick, and a render straight after it
/// writes nothing.
pub proof fn lemma_updates_batch_into_one_upload<M>(
    camera: CameraView<M>,
    inputs: Seq<CameraInput>,
    models: Seq<M>,
)
    requires
        inputs.len() == models.len(),
        inputs.len() > 0,
        forall|i: int| 0 <= i < inputs.len() ==> !CameraMotion::of(#[trigger] inputs[i]).is_idle(),
    ensures
        camera.after_updates(inputs, models).uploaded == camera.uploaded,
        camera.after_updates(inputs, models).uploads(false),
        camera.after_updates(inputs, models).after_render().uploaded == models.last(),
        !camera.after_updates(inputs, models).after_render().uploads(false),
{
    lemma_updates_write_nothing(camera, inputs, models);
}

/// A resize forces the write: a render that saw one writes the buffer,
/// whether or not the camera has changed.
pub proof fn lemma_resize_forces_upload<M>(camera: CameraView<M>)
    ensures
        camera.uploads(true),
{
}

} // verus!
