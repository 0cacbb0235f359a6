//! The image registry: the working set of images, in the order in which they
//! came. That order is the order of display and of composition.

use crate::entity::file_failure;
use crate::entity::imported_image;
use crate::entity::Image;
use crate::error::SpriteError;
use crate::ids::lemma_next_is_fresh;
use crate::ids::IdAllocator;
use std::path::PathBuf;
use vstd::prelude::*;

verus! {

/// An ordered collection of images. Nothing is ever reordered or dropped
/// silently: an image leaves only when the whole registry is cleared.
pub struct Registry {
    images: Vec<Image>,
}

impl View for Registry {
    type V = Seq<Image>;

    closed spec fn view(&self) -> Seq<Image> {
        self.images@
    }
}

/// No two of the images share an id.
pub open spec fn distinct_ids(images: Seq<Image>) -> bool {
    forall|i: int, j: int|
        0 <= i < j < images.len() ==> (#[trigger] images[i])@.id != (#[trigger] images[j])@.id
}

/// The ids grow strictly along the sequence.
pub open spec fn increasing_ids(images: Seq<Image>) -> bool {
    forall|i: int, j: int|
        0 <= i < j < images.len() ==> (#[trigger] images[i])@.id < (#[trigger] images[j])@.id
}

/// Every image bears an id that `ids` has handed out.
pub open spec fn issued_by(images: Seq<Image>, ids: IdAllocator) -> bool {
    forall|i: int| 0 <= i < images.len() ==> ids.has_issued((#[trigger] images[i])@.id as nat)
}

/// Ids that grow along the sequence are all different.
pub proof fn lemma_increasing_ids_distinct(images: Seq<Image>)
    requires
        increasing_ids(images),
    ensures
        distinct_ids(images),
{
}

/// Appending an image that bears the id just issued keeps the order of ids:
/// where every image so far was stamped by the allocator before the issue,
/// the new one has a greater id than all of them, and all are stamped by the
/// allocator after it.
pub proof fn lemma_push_fresh(images: Seq<Image>, image: Image, before: IdAllocator, after: IdAllocator)
    requires
        issued_by(images, before),
        image@.id == before.peek(),
        after.peek() == before.peek() + 1,
    ensures
        issued_by(images.push(image), after),
        increasing_ids(images) ==> increasing_ids(images.push(image)),
        distinct_ids(images) ==> distinct_ids(images.push(image)),
{
    let longer = images.push(image);
    lemma_next_is_fresh(before);
    assert forall|i: int| 0 <= i < longer.len() implies after.has_issued(
        (#[trigger] longer[i])@.id as nat,
    ) by {
        if i < images.len() {
            assert(longer[i] == images[i]);
        }
    }
    if increasing_ids(images) {
        assert forall|i: int, j: int| 0 <= i < j < longer.len() implies (#[trigger] longer[i])@.id
            < (#[trigger] longer[j])@.id by {
            assert(longer[i] == images[i]);
            if j < images.len() {
                assert(longer[j] == images[j]);
            }
        }
    }
    if distinct_ids(images) {
        assert forall|i: int, j: int| 0 <= i < j < longer.len() implies (#[trigger] longer[i])@.id
            != (#[trigger] longer[j])@.id by {
            assert(longer[i] == images[i]);
            if j < images.len() {
                assert(longer[j] == images[j]);
            }
        }
    }
}

impl Registry {
    /// An empty registry.
    pub fn new() -> (registry: Registry)
        ensures
            registry@ == Seq::<Image>::empty(),
    {
        Registry { images: Vec::new() }
    }

    /// Appends the image. Whether the same file is already there is not
    /// looked at: a file imported twice is two images.
    pub fn add(&mut self, image: Image)
        ensures
            final(self)@ == old(self)@.push(image),
    {
        self.images.push(image);
    }

    /// Lets go of every image.
    pub fn clear(&mut self)
        ensures
            final(self)@ == Seq::<Image>::empty(),
    {
        self.images.clear();
    }

    /// Whether the registry holds no image.
    pub fn is_empty(&self) -> (b: bool)
        ensures
            b == (self@.len() == 0),
    {
        self.images.len() == 0
    }

    /// The number of images.
    pub fn len(&self) -> (n: usize)
        ensures
            n == self@.len(),
    {
        self.images.len()
    }

    /// The image at place `i` in insertion order, if there are that many.
    pub fn get(&self, i: usize) -> (image: Option<&Image>)
        ensures
            i < self@.len() ==> image == Some(&self@[i as int]),
            i >= self@.len() ==> image is None,
    {
        if i < self.images.len() {
            Some(&self.images[i])
        } else {
            None
        }
    }

    /// All the images, in insertion order.
    pub fn images(&self) -> (images: &[Image])
        ensures
            images@ == self@,
    {
        self.images.as_slice()
    }

    /// An iterator over the images, in insertion order.
    pub fn iter(&self) -> (it: core::slice::Iter<'_, Image>)
        ensures
            vstd::std_specs::slice::into_iter_elts(it) == self@,
    {
        let images = self.images.as_slice();
        let it = images.iter();
        proof {
            vstd::std_specs::slice::axiom_spec_slice_iter(images);
            assert(images@.as_ref().unref() =~= images@);
        }
        it
    }

    /// Makes the texture of every image that has none yet, and leaves the
    /// others alone.
    pub fn load_textures(&mut self, ctx: &egui::Context)
        ensures
            final(self)@.len() == old(self)@.len(),
            forall|i: int|
                0 <= i < old(self)@.len() ==> {
                    let before = (#[trigger] old(self)@[i])@;
                    let after = final(self)@[i]@;
                    &&& after.texture is Some
                    &&& before.texture is Some ==> after == before
                    &&& after.id == before.id
                    &&& after.name == before.name
                    &&& after.path == before.path
                    &&& after.pixels == before.pixels
                },
    {
        let n = self.images.len();
        let mut k: usize = 0;
        while k < n
            invariant
                k <= n,
                n == self.images@.len(),
                n == old(self)@.len(),
                forall|i: int|
                    k <= i < n ==> self.images@[i] == old(self)@[i],
                forall|i: int|
                    0 <= i < k ==> {
                        let before = (#[trigger] old(self)@[i])@;
                        let after = self.images@[i]@;
                        &&& after.texture is Some
                        &&& before.texture is Some ==> after == before
                        &&& after.id == before.id
                        &&& after.name == before.name
                        &&& after.path == before.path
                        &&& after.pixels == before.pixels
                    },
            decreases n - k,
        {
            self.images[k].load_texture(ctx);
            k = k + 1;
        }
    }

    /// Imports one file: on success its image is appended, stamped with the
    /// next id; on failure the registry stays as it was and the failure is
    /// reported, so that the caller can go on with the next file.
    pub fn import(&mut self, ids: &mut IdAllocator, filename: PathBuf, contents: &[u8]) -> (r:
        Result<(), SpriteError>)
        requires
            !old(ids).is_exhausted(),
        ensures
            match file_failure(filename, contents@) {
                Some(failure) => r matches Err(e) && e == failure && final(self)@ == old(self)@
                    && final(ids).peek() == old(ids).peek(),
                None => r is Ok && final(self)@.len() == old(self)@.len() + 1 && final(self)@
                    == old(self)@.push(final(self)@.last()) && final(self)@.last()@
                    == imported_image(old(ids).peek(), filename, contents@)
                    && final(ids).peek() == old(ids).peek() + 1,
            },
            issued_by(old(self)@, *old(ids)) ==> issued_by(final(self)@, *final(ids)),
            issued_by(old(self)@, *old(ids)) && increasing_ids(old(self)@) ==> increasing_ids(
                final(self)@,
            ),
    {
        match Image::from_path(ids, filename, contents) {
            Ok(image) => {
                proof {
                    if issued_by(old(self)@, *old(ids)) {
                        lemma_push_fresh(old(self)@, image, *old(ids), *ids);
                    }
                }
                self.images.push(image);
                Ok(())
            },
            Err(e) => Err(e),
        }
    }
}

} // verus!
