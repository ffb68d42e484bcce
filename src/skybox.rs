use vstd::prelude::*;

verus! {

/// Faces of a cubemap.
pub const CUBEMAP_FACES: u32 = 6;

/// What to do with the skybox image this frame.
#[derive(Clone, Copy, Debug, PartialEq, Eq, Structural)]
pub enum SkyboxAction {
    /// Nothing yet, or nothing any more.
    Wait,
    /// Hand the image to every skybox, first turning a single stacked image
    /// into `CUBEMAP_FACES` layers viewed as a cube when `reinterpret` holds.
    Install { reinterpret: bool },
}

/// Whether the skybox image has been installed.
#[derive(Clone, Copy, Debug, PartialEq, Eq, Structural)]
pub struct CubemapState {
    pub is_loaded: bool,
}

impl CubemapState {
    pub fn new() -> (r: CubemapState)
        ensures
            !r.is_loaded,
    {
        CubemapState { is_loaded: false }
    }

    /// Installs the skybox image once, on the first frame its asset is
    /// loaded; an image of one layer is a stacked cubemap and is
    /// reinterpreted first.
    pub fn on_frame(&mut self, image_loaded: bool, layer_count: u32) -> (r: SkyboxAction)
        ensures
            old(self).is_loaded || !image_loaded ==> r == SkyboxAction::Wait && *final(self) == *old(self),
            !old(self).is_loaded && image_loaded ==> r == (SkyboxAction::Install { reinterpret: layer_count == 1 })
                && final(self).is_loaded,
    {
        if !self.is_loaded && image_loaded {
            self.is_loaded = true;
            SkyboxAction::Install { reinterpret: layer_count == 1 }
        } else {
            SkyboxAction::Wait
        }
    }
}

} // verus!
