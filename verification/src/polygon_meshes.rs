use vstd::prelude::*;

use crate::errors::UiError;

verus! {

/// The objects of a scene, numbered from 0 in the order they were added. The mesh
/// type is a parameter: nothing here looks inside a mesh.
#[derive(Clone, Debug)]
pub struct PolygonMeshes<M> {
    pub meshes: Vec<M>,
}

impl<M> Default for PolygonMeshes<M> {
    /// No objects.
    fn default() -> (r: Self)
        ensures
            r.meshes@ == Seq::<M>::empty(),
    {
        PolygonMeshes { meshes: Vec::new() }
    }
}

impl<M> PolygonMeshes<M> {
    pub fn new(objects: Vec<M>) -> (r: Self)
        ensures
            r.meshes@ == objects@,
    {
        PolygonMeshes { meshes: objects }
    }

    /// The number of objects.
    pub fn length(&self) -> (r: usize)
        ensures
            r == self.meshes@.len(),
    {
        self.meshes.len()
    }

    /// Adds an object at the end; it gets the next number.
    pub fn add(&mut self, polygon_mesh: M)
        ensures
            final(self).meshes@ == old(self).meshes@.push(polygon_mesh),
    {
        self.meshes.push(polygon_mesh);
    }

    /// Removes object `id`; the objects after it move down by one.
    pub fn remove(&mut self, id: usize)
        requires
            id < old(self).meshes@.len(),
        ensures
            final(self).meshes@ == old(self).meshes@.remove(id as int),
    {
        self.meshes.remove(id);
    }

    /// Removes object `id`, as `remove` does.
    pub fn remove_objects(&mut self, id: usize)
        requires
            id < old(self).meshes@.len(),
        ensures
            final(self).meshes@ == old(self).meshes@.remove(id as int),
    {
        self.meshes.remove(id);
    }

    /// Refuses an object number that names no object.
    pub fn check_id(&self, id: usize) -> (r: Result<(), UiError>)
        ensures
            r == if id < self.meshes@.len() {
                Ok::<(), UiError>(())
            } else {
                Err(UiError::ObjectNotFoundError)
            },
    {
        if id >= self.meshes.len() {
            return Err(UiError::ObjectNotFoundError);
        }
        Ok(())
    }

    /// Removes object `id`, or refuses a number that names no object and changes
    /// nothing.
    pub fn remove_object(&mut self, id: usize) -> (r: Result<(), UiError>)
        ensures
            id >= old(self).meshes@.len() ==> r == Err::<(), UiError>(UiError::ObjectNotFoundError)
                && final(self).meshes@ == old(self).meshes@,
            id < old(self).meshes@.len() ==> r == Ok::<(), UiError>(()) && final(self).meshes@
                == old(self).meshes@.remove(id as int),
    {
        if id >= self.meshes.len() {
            return Err(UiError::ObjectNotFoundError);
        }
        self.meshes.remove(id);
        Ok(())
    }

    /// Replaces object `id` by what `change` makes of it. This is how an object is
    /// moved, turned, scaled, or given other material properties.
    pub fn update<F: FnOnce(M) -> M>(&mut self, id: usize, change: F)
        requires
            id < old(self).meshes@.len(),
            change.requires((old(self).meshes@[id as int],)),
        ensures
            exists|m: M|
                change.ensures((old(self).meshes@[id as int],), m) && final(self).meshes@ == old(
                    self,
                ).meshes@.update(id as int, m),
    {
        let ghost before = self.meshes@;
        let mesh = self.meshes.remove(id);
        let changed = change(mesh);
        self.meshes.insert(id, changed);
        assert(self.meshes@ =~= before.update(id as int, changed));
    }
}

impl<M: Clone> PolygonMeshes<M> {
    /// A copy of object `id`.
    pub fn get_object(&self, id: usize) -> (r: M)
        requires
            id < self.meshes@.len(),
        ensures
            cloned(self.meshes@[id as int], r),
    {
        self.meshes[id].clone()
    }
}

/// Adding an object and then removing the last one gives back the objects there were.
pub proof fn lemma_add_then_remove_last<M>(before: Seq<M>, m: M)
    ensures
        before.push(m).remove(before.len() as int) == before,
{
    assert(before.push(m).remove(before.len() as int) =~= before);
}

/// Removing object `id` keeps every object before it where it was and moves every
/// object after it down by one.
pub proof fn lemma_remove_renumbers<M>(before: Seq<M>, id: int)
    requires
        0 <= id < before.len(),
    ensures
        before.remove(id).len() == before.len() - 1,
        forall|j: int| 0 <= j < id ==> before.remove(id)[j] == before[j],
        forall|j: int| id <= j < before.len() - 1 ==> before.remove(id)[j] == before[j + 1],
{
}

} // verus!
