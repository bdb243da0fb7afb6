use vstd::prelude::*;

use crate::move_input::UserMove;

verus! {

/// What the user typed to move and turn the camera and to change its field of view.
#[derive(Clone, Debug)]
pub struct CameraCommand {
    pub translation: UserMove,
    pub rotation: UserMove,
    pub fov: String,
}

impl Default for CameraCommand {
    /// Displacements and angles read `0`; the field of view is empty.
    fn default() -> (r: Self)
        ensures
            r.translation.dx@ == "0"@ && r.translation.dy@ == "0"@ && r.translation.dz@ == "0"@,
            r.rotation.dx@ == "0"@ && r.rotation.dy@ == "0"@ && r.rotation.dz@ == "0"@,
            r.fov@ == Seq::<char>::empty(),
    {
        CameraCommand {
            translation: UserMove::default(),
            rotation: UserMove::default(),
            fov: String::new(),
        }
    }
}

} // verus!
