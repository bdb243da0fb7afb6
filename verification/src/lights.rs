use vstd::prelude::*;

use crate::errors::UiError;

verus! {

/// A point light. `P` is the type of its position and `S` that of its intensities
/// and ambient constant; the library never computes with either, it stores and
/// replaces them. The color is an RGB triple.
#[derive(Clone, Debug)]
pub struct DistantLight<P, S> {
    pub origin: P,
    pub intensity: S,
    pub back_intensity: S,
    pub ka: S,
    pub color: Vec<u8>,
}

impl<P, S> DistantLight<P, S> {
    /// Sets the intensity of the light.
    pub fn change_light_intensity(&mut self, intensity: S)
        ensures
            final(self).intensity == intensity,
            final(self).origin == old(self).origin,
            final(self).back_intensity == old(self).back_intensity,
            final(self).ka == old(self).ka,
            final(self).color@ == old(self).color@,
    {
        self.intensity = intensity;
    }

    /// Sets the light's intensity: this operation writes the same field as
    /// `change_light_intensity`, and leaves `back_intensity` as it was.
    pub fn change_light_back_intensity(&mut self, intensity: S)
        ensures
            final(self).intensity == intensity,
            final(self).origin == old(self).origin,
            final(self).back_intensity == old(self).back_intensity,
            final(self).ka == old(self).ka,
            final(self).color@ == old(self).color@,
    {
        self.intensity = intensity;
    }

    /// Sets the ambient constant of the light.
    pub fn change_ka(&mut self, ka: S)
        ensures
            final(self).ka == ka,
            final(self).origin == old(self).origin,
            final(self).intensity == old(self).intensity,
            final(self).back_intensity == old(self).back_intensity,
            final(self).color@ == old(self).color@,
    {
        self.ka = ka;
    }

    /// Sets the color of the light.
    pub fn change_color(&mut self, color: Vec<u8>)
        ensures
            final(self).color@ == color@,
            final(self).origin == old(self).origin,
            final(self).intensity == old(self).intensity,
            final(self).back_intensity == old(self).back_intensity,
            final(self).ka == old(self).ka,
    {
        self.color = color;
    }
}

/// The lights of a scene with the scene's ambient light: its intensity, its constant
/// and its color.
#[derive(Clone, Debug)]
pub struct Lights<P, S> {
    pub back_intensity: S,
    pub ka: S,
    pub back_color: Vec<u8>,
    pub lights: Vec<DistantLight<P, S>>,
}

impl<P, S> Lights<P, S> {
    pub fn new(back_intensity: S, ka: S, back_color: Vec<u8>, lights: Vec<DistantLight<P, S>>) -> (r:
        Self)
        ensures
            r.back_intensity == back_intensity,
            r.ka == ka,
            r.back_color@ == back_color@,
            r.lights@ == lights@,
    {
        Lights { back_intensity, ka, back_color, lights }
    }

    /// Refuses a light number that names no light.
    pub fn check_id(&self, id: usize) -> (r: Result<(), UiError>)
        ensures
            r == if id < self.lights@.len() {
                Ok::<(), UiError>(())
            } else {
                Err(UiError::ObjectNotFoundError)
            },
    {
        if id >= self.lights.len() {
            return Err(UiError::ObjectNotFoundError);
        }
        Ok(())
    }

    /// Replaces light `id` by what `change` makes of it, or refuses a number that
    /// names no light and changes nothing. This is how a light is moved.
    pub fn update_light<F: FnOnce(DistantLight<P, S>) -> DistantLight<P, S>>(
        &mut self,
        id: usize,
        change: F,
    ) -> (r: Result<(), UiError>)
        requires
            forall|l: DistantLight<P, S>| change.requires((l,)),
        ensures
            final(self).back_intensity == old(self).back_intensity,
            final(self).ka == old(self).ka,
            final(self).back_color@ == old(self).back_color@,
            id >= old(self).lights@.len() ==> r == Err::<(), UiError>(UiError::ObjectNotFoundError)
                && final(self).lights@ == old(self).lights@,
            id < old(self).lights@.len() ==> r == Ok::<(), UiError>(()) && exists|l: DistantLight<
                P,
                S,
            >|
                change.ensures((old(self).lights@[id as int],), l) && final(self).lights@ == old(
                    self,
                ).lights@.update(id as int, l),
    {
        if id >= self.lights.len() {
            return Err(UiError::ObjectNotFoundError);
        }
        let ghost before = self.lights@;
        let light = self.lights.remove(id);
        let changed = change(light);
        self.lights.insert(id, changed);
        assert(self.lights@ =~= before.update(id as int, changed));
        Ok(())
    }

    /// Sets the intensity of light `id`, or refuses a number that names no light and
    /// changes nothing.
    pub fn change_light_intensity(&mut self, intensity: S, id: usize) -> (r: Result<(), UiError>)
        ensures
            final(self).back_intensity == old(self).back_intensity,
            final(self).ka == old(self).ka,
            final(self).back_color@ == old(self).back_color@,
            final(self).lights@.len() == old(self).lights@.len(),
            id >= old(self).lights@.len() ==> r == Err::<(), UiError>(UiError::ObjectNotFoundError)
                && final(self).lights@ == old(self).lights@,
            id < old(self).lights@.len() ==> {
                &&& r == Ok::<(), UiError>(())
                &&& final(self).lights@[id as int].intensity == intensity
                &&& final(self).lights@[id as int].origin == old(self).lights@[id as int].origin
                &&& final(self).lights@[id as int].back_intensity == old(
                    self,
                ).lights@[id as int].back_intensity
                &&& final(self).lights@[id as int].ka == old(self).lights@[id as int].ka
                &&& final(self).lights@[id as int].color@ == old(self).lights@[id as int].color@
                &&& forall|j: int|
                    0 <= j < old(self).lights@.len() && j != id ==> final(self).lights@[j] == old(
                        self,
                    ).lights@[j]
            },
    {
        if id >= self.lights.len() {
            return Err(UiError::ObjectNotFoundError);
        }
        self.lights[id].change_light_intensity(intensity);
        Ok(())
    }

    /// Sets the color of light `id`, or refuses a number that names no light and
    /// changes nothing.
    pub fn change_color(&mut self, color: Vec<u8>, id: usize) -> (r: Result<(), UiError>)
        ensures
            final(self).back_intensity == old(self).back_intensity,
            final(self).ka == old(self).ka,
            final(self).back_color@ == old(self).back_color@,
            final(self).lights@.len() == old(self).lights@.len(),
            id >= old(self).lights@.len() ==> r == Err::<(), UiError>(UiError::ObjectNotFoundError)
                && final(self).lights@ == old(self).lights@,
            id < old(self).lights@.len() ==> {
                &&& r == Ok::<(), UiError>(())
                &&& final(self).lights@[id as int].color@ == color@
                &&& final(self).lights@[id as int].origin == old(self).lights@[id as int].origin
                &&& final(self).lights@[id as int].intensity == old(
                    self,
                ).lights@[id as int].intensity
                &&& final(self).lights@[id as int].back_intensity == old(
                    self,
                ).lights@[id as int].back_intensity
                &&& final(self).lights@[id as int].ka == old(self).lights@[id as int].ka
                &&& forall|j: int|
                    0 <= j < old(self).lights@.len() && j != id ==> final(self).lights@[j] == old(
                        self,
                    ).lights@[j]
            },
    {
        if id >= self.lights.len() {
            return Err(UiError::ObjectNotFoundError);
        }
        self.lights[id].change_color(color);
        Ok(())
    }

    /// Sets the ambient constant of the scene.
    pub fn change_ka(&mut self, ka: S)
        ensures
            final(self).ka == ka,
            final(self).back_intensity == old(self).back_intensity,
            final(self).back_color@ == old(self).back_color@,
            final(self).lights@ == old(self).lights@,
    {
        self.ka = ka;
    }

    /// Sets the intensity of the ambient light.
    pub fn change_light_back_intensity(&mut self, intensity: S)
        ensures
            final(self).back_intensity == intensity,
            final(self).ka == old(self).ka,
            final(self).back_color@ == old(self).back_color@,
            final(self).lights@ == old(self).lights@,
    {
        self.back_intensity = intensity;
    }

    /// Sets the color of the ambient light.
    pub fn change_light_back_color(&mut self, color: Vec<u8>)
        ensures
            final(self).back_color@ == color@,
            final(self).back_intensity == old(self).back_intensity,
            final(self).ka == old(self).ka,
            final(self).lights@ == old(self).lights@,
    {
        self.back_color = color;
    }

    /// Adds a light at the end.
    pub fn add(&mut self, light: DistantLight<P, S>)
        ensures
            final(self).lights@ == old(self).lights@.push(light),
            final(self).back_intensity == old(self).back_intensity,
            final(self).ka == old(self).ka,
            final(self).back_color@ == old(self).back_color@,
    {
        self.lights.push(light);
    }
}

impl<P: Copy, S> Lights<P, S> {
    /// The position of every light, in order.
    pub fn lights_positions(&self) -> (r: Vec<P>)
        ensures
            r@ == self.lights@.map_values(|l: DistantLight<P, S>| l.origin),
    {
        let mut positions: Vec<P> = Vec::new();
        let n = self.lights.len();
        let mut i: usize = 0;
        while i < n
            invariant
                n == self.lights@.len(),
                i <= n,
                positions@ == self.lights@.subrange(0, i as int).map_values(
                    |l: DistantLight<P, S>| l.origin,
                ),
            decreases n - i,
        {
            positions.push(self.lights[i].origin);
            i = i + 1;
            assert(self.lights@.subrange(0, i as int).map_values(|l: DistantLight<P, S>| l.origin)
                =~= positions@);
        }
        assert(self.lights@.subrange(0, n as int) =~= self.lights@);
        positions
    }
}

} // verus!
