//! The image entity: one raster with its identity, its name, where it came
//! from, and the texture made of it, if any.

use crate::codec::decode_png;
use crate::codec::encode_png;
use crate::codec::png_decoding;
use crate::codec::png_encoding;
use crate::error::SpriteError;
use crate::ids::IdAllocator;
use crate::paths::display_name;
use crate::paths::name_of;
use crate::paths::name_view;
use crate::pixels::Pixels;
use crate::raster::Raster;
use crate::texture::upload;
use std::path::PathBuf;
use vstd::prelude::*;

verus! {

/// An image as a value: what its accessors show.
pub struct ImageView {
    pub id: usize,
    pub name: Seq<char>,
    pub path: Option<PathBuf>,
    pub pixels: Raster,
    pub texture: Option<egui::TextureHandle>,
}

/// An image held by this tool: pixel data and the metadata that goes with it.
///
/// The id is given at construction and never changes. The texture is absent
/// at first; once made it stays, and is never made again.
#[derive(Clone, PartialEq)]
pub struct Image {
    id: usize,
    name: String,
    path: Option<PathBuf>,
    data: Pixels,
    texture: Option<egui::TextureHandle>,
}

impl View for Image {
    type V = ImageView;

    closed spec fn view(&self) -> ImageView {
        ImageView {
            id: self.id,
            name: self.name@,
            path: self.path,
            pixels: self.data@,
            texture: self.texture,
        }
    }
}

/// The image that construction yields: no texture yet, everything else as given.
pub open spec fn fresh_image(
    id: nat,
    name: Seq<char>,
    path: Option<PathBuf>,
    pixels: Raster,
) -> ImageView {
    ImageView { id: id as usize, name, path, pixels, texture: None }
}

/// The raster that a decoder's word (width, height, bytes) describes.
pub open spec fn raster_of(decoded: (u32, u32, Seq<u8>)) -> Raster {
    Raster { width: decoded.0 as nat, height: decoded.1 as nat, bytes: decoded.2 }
}

/// What is wrong with the decoder's word on a file, if anything: there is
/// none, or its buffer does not match its own dimensions.
pub open spec fn content_failure(decoded: Option<(u32, u32, Seq<u8>)>) -> Option<SpriteError> {
    match decoded {
        None => Some(SpriteError::Decode),
        Some(d) => if raster_of(d).wf() {
            None
        } else {
            Some(SpriteError::SizeMismatch)
        },
    }
}

/// Why an import fails, if it does, given the display name that the path
/// yielded and what the decoder made of the file. A missing name is reported
/// before anything that is wrong with the content.
pub open spec fn import_failure(
    name: Option<Seq<char>>,
    decoded: Option<(u32, u32, Seq<u8>)>,
) -> Option<SpriteError> {
    if name is None {
        Some(SpriteError::InvalidName)
    } else {
        content_failure(decoded)
    }
}

/// Why the import of the file `filename` with the content `contents` fails,
/// if it does: the path gives no display name, or the content does not decode.
pub open spec fn file_failure(filename: PathBuf, contents: Seq<u8>) -> Option<SpriteError> {
    import_failure(name_of(filename), png_decoding(contents))
}

/// The image that a successful import of the file yields when it is stamped
/// with `id`: named after the final segment of the path, remembering the
/// path, holding the decoded pixels.
pub open spec fn imported_image(id: nat, filename: PathBuf, contents: Seq<u8>) -> ImageView {
    fresh_image(
        id,
        name_of(filename)->0,
        Some(filename),
        raster_of(png_decoding(contents)->0),
    )
}

/// `decoded`, with the buffer taken by its view.
pub open spec fn decoded_view(decoded: Option<(u32, u32, Vec<u8>)>) -> Option<(u32, u32, Seq<u8>)> {
    match decoded {
        Some(d) => Some((d.0, d.1, d.2@)),
        None => None,
    }
}

impl Image {
    /// Wraps pixels that are already decoded under an explicit name. The image
    /// has no file behind it. Fails with `SizeMismatch`, and issues no id,
    /// unless `pixels` holds `width * height * 4` bytes.
    pub fn from_raw(
        ids: &mut IdAllocator,
        name: String,
        width: u32,
        height: u32,
        pixels: Vec<u8>,
    ) -> (r: Result<Image, SpriteError>)
        requires
            !old(ids).is_exhausted(),
        ensures
            pixels@.len() == width * height * 4 ==> (r matches Ok(img) && img@ == fresh_image(
                old(ids).peek(),
                name@,
                None,
                raster_of((width, height, pixels@)),
            ) && final(ids).peek() == old(ids).peek() + 1),
            pixels@.len() != width * height * 4 ==> (r matches Err(e) && e
                == SpriteError::SizeMismatch && final(ids).peek() == old(ids).peek()),
    {
        match Pixels::new(width, height, pixels) {
            Ok(data) => Ok(Image::from_dynamic(ids, name, data)),
            Err(e) => Err(e),
        }
    }

    /// Wraps a raster under an explicit name. The image has no file behind it.
    pub fn from_dynamic(ids: &mut IdAllocator, name: String, data: Pixels) -> (img: Image)
        requires
            !old(ids).is_exhausted(),
        ensures
            img@ == fresh_image(old(ids).peek(), name@, None, data@),
            final(ids).peek() == old(ids).peek() + 1,
    {
        let id = ids.next_id();
        Image { id, name, path: None, data, texture: None }
    }

    /// Builds the image of a file from what the path and the decoder yielded:
    /// `name` is the display name taken from `path`, `decoded` the width, the
    /// height and the RGBA bytes. An id is issued only on success.
    pub fn from_parts(
        ids: &mut IdAllocator,
        path: PathBuf,
        name: Option<String>,
        decoded: Option<(u32, u32, Vec<u8>)>,
    ) -> (r: Result<Image, SpriteError>)
        requires
            !old(ids).is_exhausted(),
        ensures
            match import_failure(name_view(name), decoded_view(decoded)) {
                Some(failure) => r matches Err(e) && e == failure
                    && final(ids).peek() == old(ids).peek(),
                None => r matches Ok(img) && img@ == fresh_image(
                    old(ids).peek(),
                    name_view(name)->0,
                    Some(path),
                    raster_of(decoded_view(decoded)->0),
                ) && final(ids).peek() == old(ids).peek() + 1,
            },
    {
        let name = match name {
            Some(name) => name,
            None => {
                return Err(SpriteError::InvalidName);
            },
        };
        let (width, height, bytes) = match decoded {
            Some(d) => d,
            None => {
                return Err(SpriteError::Decode);
            },
        };
        match Pixels::new(width, height, bytes) {
            Ok(data) => {
                let id = ids.next_id();
                Ok(Image { id, name, path: Some(path), data, texture: None })
            },
            Err(e) => Err(e),
        }
    }

    /// Imports the file whose path is `filename` and whose content is
    /// `contents`. The display name is the final segment of the path; the
    /// content is decoded as PNG to RGBA. Fails with `InvalidName` where the
    /// path has no final segment or that segment is not valid text, and
    /// otherwise with `Decode` where the content is no PNG image. An id is
    /// issued only on success.
    pub fn from_path(ids: &mut IdAllocator, filename: PathBuf, contents: &[u8]) -> (r: Result<
        Image,
        SpriteError,
    >)
        requires
            !old(ids).is_exhausted(),
        ensures
            match file_failure(filename, contents@) {
                Some(failure) => r matches Err(e) && e == failure
                    && final(ids).peek() == old(ids).peek(),
                None => r matches Ok(img) && img@ == imported_image(
                    old(ids).peek(),
                    filename,
                    contents@,
                ) && final(ids).peek() == old(ids).peek() + 1,
            },
    {
        let name = display_name(&filename);
        if name.is_none() {
            return Err(SpriteError::InvalidName);
        }
        let decoded = match decode_png(contents) {
            Ok(d) => Some(d),
            Err(_) => None,
        };
        Image::from_parts(ids, filename, name, decoded)
    }

    /// Makes the texture of this image, unless it has one already: then
    /// nothing at all changes. Safe to call on every frame.
    pub fn load_texture(&mut self, ctx: &egui::Context)
        ensures
            final(self)@.texture is Some,
            old(self)@.texture is Some ==> final(self)@ == old(self)@,
            final(self)@.id == old(self)@.id,
            final(self)@.name == old(self)@.name,
            final(self)@.path == old(self)@.path,
            final(self)@.pixels == old(self)@.pixels,
    {
        if self.texture.is_none() {
            let width = self.data.width() as usize;
            let height = self.data.height() as usize;
            let handle = upload(ctx, self.name.as_str(), width, height, self.data.as_bytes().as_slice());
            self.texture = Some(handle);
        }
    }

    /// The PNG file of this image's pixels, as bytes for the caller to write
    /// wherever it likes. Fails with `Encode` where the encoder refuses.
    pub fn export(&self) -> (r: Result<Vec<u8>, SpriteError>)
        ensures
            match png_encoding(
                self@.pixels.width as u32,
                self@.pixels.height as u32,
                self@.pixels.bytes,
            ) {
                Some(file) => r matches Ok(bytes) && bytes@ == file,
                None => r matches Err(e) && e == SpriteError::Encode,
            },
    {
        let width = self.data.width();
        let height = self.data.height();
        match encode_png(width, height, self.data.as_bytes().as_slice()) {
            Ok(file) => Ok(file),
            Err(_) => Err(SpriteError::Encode),
        }
    }

    /// The id, unique among all images made with one allocator.
    pub fn id(&self) -> (id: usize)
        ensures
            id == self@.id,
    {
        self.id
    }

    /// The display name.
    pub fn name(&self) -> (name: &str)
        ensures
            name@ == self@.name,
    {
        self.name.as_str()
    }

    /// The file that the image was read from; `None` for a made image.
    pub fn path(&self) -> (path: Option<&PathBuf>)
        ensures
            match path {
                Some(p) => self@.path == Some(*p),
                None => self@.path is None,
            },
    {
        self.path.as_ref()
    }

    /// The pixels.
    pub fn data(&self) -> (data: &Pixels)
        ensures
            data@ == self@.pixels,
    {
        &self.data
    }

    /// The texture, once [`Image::load_texture`] has made it.
    pub fn texture(&self) -> (texture: &Option<egui::TextureHandle>)
        ensures
            *texture == self@.texture,
    {
        &self.texture
    }
}

} // verus!
