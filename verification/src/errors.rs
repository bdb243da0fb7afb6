use vstd::prelude::*;

verus! {

/// The errors that the operations of the ray tracer report to the user.
#[derive(Clone, Copy, Debug, PartialEq, Eq, Structural)]
pub enum UiError {
    MoveDataFormatError,
    BadUvError,
    BadStlError,
    NoPathError,
    ObjectNotFoundError,
    NumberNotFoundError,
    NoUnwrapError,
    NoTextureError,
    LoadTextureError,
    LoadNormalsError,
    BadUVError,
    BadFovError,
    LightIntensityError,
    ColorError,
    ScaleError,
    RenderError,
    ColorPropertiesError,
    ColorPropsSignError,
    LuminosityError,
    BackConstError,
    CameraNotPresentedError,
}

} // verus!
