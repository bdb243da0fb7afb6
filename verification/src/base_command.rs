use vstd::prelude::*;

use crate::errors::UiError;

verus! {

/// An action of the user interface on the scene, carried out by `execute`.
pub trait Command {
    fn execute(&mut self) -> Result<(), UiError>;
}

} // verus!
