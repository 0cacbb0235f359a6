//! Textures: pixels handed over to the renderer, which gives back a handle.

use vstd::prelude::*;

verus! {

/// `egui::TextureHandle`: the renderer's handle to an uploaded texture. An
/// image keeps it and hands it back; the library looks at nothing inside.
#[verifier::external_type_specification]
#[verifier::external_body]
pub struct ExTextureHandle(egui::TextureHandle);

/// `egui::Context`: the renderer that textures are uploaded to.
#[verifier::external_type_specification]
#[verifier::external_body]
pub struct ExContext(egui::Context);

/// Builds an `egui::ColorImage` with `ColorImage::from_rgba_unmultiplied` and
/// hands it to `egui::Context::load_texture` under the given name, with the
/// default texture options. The first of the two panics unless the buffer
/// holds `width * height * 4` bytes, which `requires` therefore demands.
/// Nothing is claimed of the handle that comes back: which texture id it
/// carries depends on what the context has allocated before.
#[verifier::external_body]
pub(crate) fn upload(
    ctx: &egui::Context,
    name: &str,
    width: usize,
    height: usize,
    rgba: &[u8],
) -> (handle: egui::TextureHandle)
    requires
        rgba@.len() == width * height * 4,
{
    let picture = egui::ColorImage::from_rgba_unmultiplied([width, height], rgba);
    ctx.load_texture(name, picture, egui::TextureOptions::default())
}

} // verus!
