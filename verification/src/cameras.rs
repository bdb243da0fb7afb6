use vstd::prelude::*;

use crate::errors::UiError;

verus! {

/// The scene's cameras and which of them renders. The camera type is a parameter:
/// nothing here looks inside a camera.
#[derive(Clone, Debug)]
pub struct Cameras<C> {
    pub active_camera_idx: usize,
    pub cameras: Vec<C>,
}

impl<C> Default for Cameras<C> {
    /// No cameras.
    fn default() -> (r: Self)
        ensures
            r.wf(),
            r.cameras@ == Seq::<C>::empty(),
            r.active_camera_idx == 0,
    {
        Cameras { active_camera_idx: 0, cameras: Vec::new() }
    }
}

impl<C> Cameras<C> {
    /// The active index names a camera whenever there is one, and is 0 when there
    /// is none.
    pub open spec fn wf(&self) -> bool {
        self.active_camera_idx == 0 || self.active_camera_idx < self.cameras@.len()
    }

    /// The given cameras, the first of them active.
    pub fn new(cameras: Vec<C>) -> (r: Self)
        ensures
            r.wf(),
            r.cameras@ == cameras@,
            r.active_camera_idx == 0,
    {
        Cameras { active_camera_idx: 0, cameras }
    }

    /// Makes camera `active_camera_idx` the active one; refuses a number that names
    /// no camera and then changes nothing.
    pub fn set_active_camera(&mut self, active_camera_idx: usize) -> (r: Result<(), UiError>)
        requires
            old(self).wf(),
        ensures
            final(self).wf(),
            final(self).cameras@ == old(self).cameras@,
            active_camera_idx >= old(self).cameras@.len() ==> r == Err::<(), UiError>(
                UiError::CameraNotPresentedError,
            ) && final(self).active_camera_idx == old(self).active_camera_idx,
            active_camera_idx < old(self).cameras@.len() ==> r == Ok::<(), UiError>(())
                && final(self).active_camera_idx == active_camera_idx,
    {
        if active_camera_idx >= self.cameras.len() {
            return Err(UiError::CameraNotPresentedError);
        }
        self.active_camera_idx = active_camera_idx;
        Ok(())
    }

    /// Adds a camera at the end; the active camera stays the same.
    pub fn add_camera(&mut self, camera: C)
        requires
            old(self).wf(),
        ensures
            final(self).wf(),
            final(self).cameras@ == old(self).cameras@.push(camera),
            final(self).active_camera_idx == old(self).active_camera_idx,
    {
        self.cameras.push(camera);
    }

    /// The active camera; there must be one.
    pub fn active_camera(&self) -> (r: &C)
        requires
            self.wf(),
            self.cameras@.len() > 0,
        ensures
            *r == self.cameras@[self.active_camera_idx as int],
    {
        &self.cameras[self.active_camera_idx]
    }

    /// The active camera, or `None` when there are no cameras.
    pub fn active(&self) -> (r: Option<&C>)
        requires
            self.wf(),
        ensures
            self.cameras@.len() == 0 ==> r is None,
            self.cameras@.len() > 0 ==> r == Some(&self.cameras@[self.active_camera_idx as int]),
    {
        if self.cameras.is_empty() {
            return None;
        }
        Some(&self.cameras[self.active_camera_idx])
    }

    /// Replaces the active camera by what `change` makes of it; with no cameras,
    /// nothing happens. This is how a camera is moved, turned or given another
    /// field of view.
    pub fn update_active<F: FnOnce(C) -> C>(&mut self, change: F)
        requires
            old(self).wf(),
            forall|c: C| change.requires((c,)),
        ensures
            final(self).wf(),
            final(self).active_camera_idx == old(self).active_camera_idx,
            old(self).cameras@.len() == 0 ==> final(self).cameras@ == old(self).cameras@,
            old(self).cameras@.len() > 0 ==> exists|c: C|
                change.ensures((old(self).cameras@[old(self).active_camera_idx as int],), c)
                    && final(self).cameras@ == old(self).cameras@.update(
                    old(self).active_camera_idx as int,
                    c,
                ),
    {
        if self.cameras.is_empty() {
            return;
        }
        let idx = self.active_camera_idx;
        let ghost before = self.cameras@;
        let camera = self.cameras.remove(idx);
        let changed = change(camera);
        self.cameras.insert(idx, changed);
        assert(self.cameras@ =~= before.update(idx as int, changed));
    }
}

/// Whenever there is a camera, the active index names one of them (every operation
/// above keeps `wf`).
pub proof fn lemma_active_camera_exists<C>(cameras: Cameras<C>)
    requires
        cameras.wf(),
        cameras.cameras@.len() > 0,
    ensures
        0 <= cameras.active_camera_idx < cameras.cameras@.len(),
{
}

} // verus!
