//! The rendered object: its transform and model, and when they have to be
//! written to the device again.
//!
//! Transform and model are the host's: values of types `T` and `M` that this
//! module stores and never reads.

use vstd::prelude::*;

verus! {

/// What the object's own motion gave on a tick: `transform` where it
/// `moved`, and nothing where it stood still.
pub open spec fn motion_result<T>(moved: bool, transform: T) -> Option<T> {
    if moved {
        Some(transform)
    } else {
        None
    }
}

/// What a [`RenderedObject`] holds, and what the device holds of it.
pub struct ObjectView<T, M> {
    /// The current transform.
    pub transform: T,
    /// The current model.
    pub model: M,
    /// Transform or model may differ from what the device holds.
    pub dirty: bool,
    /// Transform and model as the device holds them: those the buffer was
    /// made with, or those of the latest write that `render` called for.
    pub uploaded: (T, M),
}

impl<T, M> ObjectView<T, M> {
    /// A clean object is in step with the device.
    pub open spec fn wf(self) -> bool {
        !self.dirty ==> self.uploaded == (self.transform, self.model)
    }

    /// An object made with `transform` and `model`, which the buffer holds
    /// from the start.
    pub open spec fn created(transform: T, model: M) -> ObjectView<T, M> {
        ObjectView { transform, model, dirty: false, uploaded: (transform, model) }
    }

    /// The object with its transform replaced.
    pub open spec fn with_transform(self, transform: T) -> ObjectView<T, M> {
        ObjectView { transform, model: self.model, dirty: true, uploaded: self.uploaded }
    }

    /// The object with its model replaced.
    pub open spec fn with_model(self, model: M) -> ObjectView<T, M> {
        ObjectView { transform: self.transform, model, dirty: true, uploaded: self.uploaded }
    }

    /// The object after a tick on which its own motion gave `moved`: a new
    /// transform, or none where the object stands still.
    pub open spec fn after_update(self, moved: Option<T>) -> ObjectView<T, M> {
        match moved {
            Some(transform) => self.with_transform(transform),
            None => self,
        }
    }

    /// Whether a render writes the buffer: after any change.
    pub open spec fn uploads(self) -> bool {
        self.dirty
    }

    /// The object after a render.
    pub open spec fn after_render(self) -> ObjectView<T, M> {
        ObjectView {
            transform: self.transform,
            model: self.model,
            dirty: false,
            uploaded: (self.transform, self.model),
        }
    }
}

/// The object that the viewer draws: its transform, its model and the flag
/// that defers the upload to the render.
pub struct RenderedObject<T, M> {
    transform: T,
    model: M,
    is_dirty: bool,
    uploaded: Ghost<(T, M)>,
}

impl<T, M> View for RenderedObject<T, M> {
    type V = ObjectView<T, M>;

    closed spec fn view(&self) -> ObjectView<T, M> {
        ObjectView {
            transform: self.transform,
            model: self.model,
            dirty: self.is_dirty,
            uploaded: self.uploaded@,
        }
    }
}

impl<T, M> RenderedObject<T, M> {
    /// Holds of every object: it is in step with the device unless dirty.
    #[verifier::type_invariant]
    pub open spec fn in_step(self) -> bool {
        self@.wf()
    }

    /// An object for `transform` and `model`. The host makes the uniform
    /// buffer with the same two values, so the object starts clean.
    pub fn new(transform: T, model: M) -> (object: Self)
        ensures
            object@ == ObjectView::created(transform, model),
    {
        RenderedObject { uploaded: Ghost((transform, model)), transform, model, is_dirty: false }
    }

    pub fn transform(&self) -> (transform: &T)
        ensures
            *transform == self@.transform,
            self@.wf(),
    {
        proof {
            use_type_invariant(self);
        }
        &self.transform
    }

    pub fn model(&self) -> (model: &M)
        ensures
            *model == self@.model,
            self@.wf(),
    {
        proof {
            use_type_invariant(self);
        }
        &self.model
    }

    /// Whether transform or model have changed since the device last had
    /// them.
    pub fn is_dirty(&self) -> (dirty: bool)
        ensures
            dirty == self@.dirty,
            self@.wf(),
    {
        proof {
            use_type_invariant(self);
        }
        self.is_dirty
    }

    /// Replaces the transform from outside the tick. The object is dirty at
    /// once; the device is written on the next render.
    pub fn set_transform(&mut self, transform: T)
        ensures
            final(self)@ == old(self)@.with_transform(transform),
            final(self)@.wf(),
    {
        proof {
            use_type_invariant(&*self);
        }
        self.is_dirty = true;
        self.transform = transform;
    }

    /// Replaces the model from outside the tick. The object is dirty at once;
    /// the device is written on the next render.
    pub fn set_model(&mut self, model: M)
        ensures
            final(self)@ == old(self)@.with_model(model),
            final(self)@.wf(),
    {
        proof {
            use_type_invariant(&*self);
        }
        self.is_dirty = true;
        self.model = model;
    }

    /// One tick of the object. `motion` takes the transform and the time
    /// since the last tick and gives the transform that the object's own
    /// motion leads to, or `None` where it stands still. A new transform is
    /// stored and makes the object dirty; the device is not written.
    pub fn update<F>(&mut self, dt: u64, motion: F) -> (moved: bool)
        where F: FnOnce(&T, u64) -> Option<T>
        requires
            motion.requires((&old(self)@.transform, dt)),
        ensures
            motion.ensures(
                (&old(self)@.transform, dt),
                motion_result(moved, final(self)@.transform),
            ),
            final(self)@ == old(self)@.after_update(motion_result(moved, final(self)@.transform)),
            final(self)@.wf(),
    {
        proof {
            use_type_invariant(&*self);
        }
        match motion(&self.transform, dt) {
            Some(transform) => {
                self.is_dirty = true;
                self.transform = transform;
                true
            },
            None => false,
        }
    }

    /// The object's part of a render. Returns whether the host has to write
    /// the buffer, with the current transform and model, before it draws:
    /// after any change since the last render. The object is clean
    /// afterwards.
    pub fn render(&mut self) -> (upload: bool)
        ensures
            upload == old(self)@.uploads(),
            final(self)@ == old(self)@.after_render(),
            final(self)@.wf(),
    {
        proof {
            use_type_invariant(&*self);
        }
        let upload = self.is_dirty;
        if upload {
            self.uploaded = Ghost((self.transform, self.model));
            self.is_dirty = false;
        }
        upload
    }
}

} // verus!
