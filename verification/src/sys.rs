//! Platform signals as they behave on a desktop build: no loading screen to
//! dismiss, no mobile touch layout, no crash overlay. Web builds route these
//! through a browser bridge in the application shell instead.

use vstd::prelude::*;

verus! {

/// Tells the platform that assets are loaded and play can begin. A desktop
/// window needs no such signal, so this does nothing.
pub fn done_loading() {
}

/// Whether the game runs on a mobile device and should show touch controls.
pub fn on_mobile() -> (r: bool)
    ensures
        r == false,
{
    false
}

/// Shows a fatal-error overlay. A desktop build has no overlay to show.
pub fn panic_screen(msg: &str) {
    let _ = msg;
}

} // verus!
