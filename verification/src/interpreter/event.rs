//! What the interpreter asks of the user interface it runs under.
use vstd::prelude::*;

use crate::interpreter::util::error::LogoError;

verus! {

/// The user interface a program runs under: it redraws on request and
/// loads the images that programs name.
pub trait UiContext: Send + Sync {
    /// Redraws the user interface.
    fn update_ui(&self);

    /// Loads the image at `path` under the name `name`.
    fn load_image(&self, name: String, path: String) -> Result<(), LogoError>;
}

} // verus!
