use vstd::prelude::*;

verus! {

/// Three displacements (or angles, or scale factors) as the user typed them.
#[derive(Debug, Clone)]
pub struct UserMove {
    pub dx: String,
    pub dy: String,
    pub dz: String,
}

/// What the user typed to move, turn and scale an object.
#[derive(Clone, Debug)]
pub struct ObjectMove {
    pub translation: UserMove,
    pub rotation: UserMove,
    pub scale: UserMove,
}

impl Default for UserMove {
    /// Every component reads `0`.
    fn default() -> (r: Self)
        ensures
            r.dx@ == "0"@,
            r.dy@ == "0"@,
            r.dz@ == "0"@,
    {
        UserMove { dx: "0".to_owned(), dy: "0".to_owned(), dz: "0".to_owned() }
    }
}

impl Default for ObjectMove {
    /// Every field of the three inputs reads `0`.
    fn default() -> (r: Self)
        ensures
            r.translation.dx@ == "0"@ && r.translation.dy@ == "0"@ && r.translation.dz@ == "0"@,
            r.rotation.dx@ == "0"@ && r.rotation.dy@ == "0"@ && r.rotation.dz@ == "0"@,
            r.scale.dx@ == "0"@ && r.scale.dy@ == "0"@ && r.scale.dz@ == "0"@,
    {
        ObjectMove {
            translation: UserMove::default(),
            rotation: UserMove::default(),
            scale: UserMove::default(),
        }
    }
}

} // verus!
