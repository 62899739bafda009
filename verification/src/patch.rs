//! The table inside a disc image: where it lies, how it is read and how it is
//! overwritten. Nothing but the bytes of the table is ever changed.

use vstd::prelude::*;
use vstd::slice::slice_subrange;
use crate::chances::VegetableChances;
use crate::codec::{lemma_decode_encode, lemma_encode_decode, TABLE_LEN};
use crate::error::Error;

verus! {

/// Position of the table in an image of GALE01, NTSC v1.02.
pub const NTSC_V102_TABLE_OFFSET: usize = 0x0047_3c40;

/// The revisions of the disc in which the position of the table is known.
#[derive(Clone, Copy, Debug, PartialEq, Eq)]
pub enum Revision {
    /// GALE01, NTSC v1.02.
    NtscV102,
}

impl Revision {
    pub open spec fn spec_table_offset(self) -> usize {
        match self {
            Revision::NtscV102 => NTSC_V102_TABLE_OFFSET,
        }
    }

    /// Position of the table in an image of this revision.
    #[verifier::when_used_as_spec(spec_table_offset)]
    pub fn table_offset(self) -> (offset: usize)
        ensures
            offset == self.spec_table_offset(),
    {
        match self {
            Revision::NtscV102 => NTSC_V102_TABLE_OFFSET,
        }
    }
}

/// The image holds a whole table at `offset`.
pub open spec fn holds_table(image: Seq<u8>, offset: int) -> bool {
    0 <= offset && offset + TABLE_LEN <= image.len()
}

/// The bytes of the table at `offset`.
pub open spec fn table_of(image: Seq<u8>, offset: int) -> Seq<u8>
    recommends
        holds_table(image, offset),
{
    image.subrange(offset, offset + TABLE_LEN)
}

/// The image with `block` written over the bytes from `offset` on, and every
/// other byte as it was.
pub open spec fn with_block(image: Seq<u8>, offset: int, block: Seq<u8>) -> Seq<u8>
    recommends
        0 <= offset,
        offset + block.len() <= image.len(),
{
    Seq::new(
        image.len(),
        |i: int|
            if offset <= i < offset + block.len() {
                block[i - offset]
            } else {
                image[i]
            },
    )
}

/// Writes `block` over the bytes of `image` from `offset` on.
fn overwrite(image: &mut Vec<u8>, offset: usize, block: &Vec<u8>)
    requires
        offset + block@.len() <= old(image)@.len(),
    ensures
        final(image)@ == with_block(old(image)@, offset as int, block@),
{
    let ghost before = image@;
    let len: usize = image.len();
    let mut i: usize = 0;
    while i < block.len()
        invariant
            i <= block@.len(),
            offset + block@.len() <= len == before.len(),
            image@.len() == len,
            forall|j: int|
                0 <= j < before.len() ==> image@[j] == if offset <= j < offset + i {
                    block@[j - offset]
                } else {
                    before[j]
                },
        decreases block@.len() - i,
    {
        image[offset + i] = block[i];
        i += 1;
    }
    assert(image@ =~= with_block(before, offset as int, block@));
}

impl VegetableChances {
    /// What `set_at` answers for this model and an image.
    pub open spec fn set_outcome(self, image: Seq<u8>, offset: int) -> Result<(), Error> {
        match self.width_violation() {
            Some(rule) => Err(Error::Validation(rule)),
            None => if holds_table(image, offset) {
                Ok(())
            } else {
                Err(Error::Io)
            },
        }
    }

    /// Reads the table at `offset` of `image`. Fails if the image ends before
    /// the end of the table.
    pub fn get_at(image: &[u8], offset: usize) -> (r: Result<VegetableChances, Error>)
        ensures
            r is Ok <==> holds_table(image@, offset as int),
            r matches Ok(model) ==> model == Self::decoded(table_of(image@, offset as int)),
            r matches Err(e) ==> e == Error::Io,
    {
        if image.len() < TABLE_LEN || offset > image.len() - TABLE_LEN {
            return Err(Error::Io);
        }
        match Self::decode(slice_subrange(image, offset, offset + TABLE_LEN)) {
            Ok(model) => Ok(model),
            Err(_) => Err(Error::Io),
        }
    }

    /// Writes this model over the table at `offset` of `image`.
    ///
    /// The model is validated first, so a model that cannot be written leaves
    /// the image as it was. So does an image that ends before the end of the
    /// table: an image never grows. On success the bytes of the table are
    /// those of the model, and every other byte is as it was.
    pub fn set_at(&self, image: &mut Vec<u8>, offset: usize) -> (r: Result<(), Error>)
        ensures
            r is Ok <==> self.fits() && holds_table(old(image)@, offset as int),
            r == self.set_outcome(old(image)@, offset as int),
            r is Ok ==> final(image)@ == with_block(old(image)@, offset as int, self.encoded()),
            r is Err ==> final(image)@ == old(image)@,
    {
        let block = match self.encode() {
            Ok(block) => block,
            Err(e) => { return Err(e); },
        };
        if image.len() < TABLE_LEN || offset > image.len() - TABLE_LEN {
            return Err(Error::Io);
        }
        overwrite(image, offset, &block);
        Ok(())
    }

    /// Read chances from GALE01 NTSC v1.02 disk image.
    pub fn get(image: &[u8]) -> (r: Result<VegetableChances, Error>)
        ensures
            r is Ok <==> holds_table(image@, NTSC_V102_TABLE_OFFSET as int),
            r matches Ok(model) ==> model == Self::decoded(
                table_of(image@, NTSC_V102_TABLE_OFFSET as int),
            ),
            r matches Err(e) ==> e == Error::Io,
    {
        Self::get_at(image, Revision::NtscV102.table_offset())
    }

    /// Modify GALE01 NTSC v1.02 disk image Peach Vegetable probabilities.
    pub fn set(&self, image: &mut Vec<u8>) -> (r: Result<(), Error>)
        ensures
            r is Ok <==> self.fits() && holds_table(old(image)@, NTSC_V102_TABLE_OFFSET as int),
            r == self.set_outcome(old(image)@, NTSC_V102_TABLE_OFFSET as int),
            r is Ok ==> final(image)@ == with_block(
                old(image)@,
                NTSC_V102_TABLE_OFFSET as int,
                self.encoded(),
            ),
            r is Err ==> final(image)@ == old(image)@,
    {
        self.set_at(image, Revision::NtscV102.table_offset())
    }
}

/// A patch is local: the image keeps its length, the bytes from `offset` on are
/// those of the block, and every other byte is as it was.
pub proof fn lemma_patch_is_local(image: Seq<u8>, offset: int, block: Seq<u8>)
    requires
        0 <= offset,
        offset + block.len() <= image.len(),
    ensures
        with_block(image, offset, block).len() == image.len(),
        with_block(image, offset, block).subrange(offset, offset + block.len()) == block,
        forall|i: int|
            0 <= i < image.len() && !(offset <= i < offset + block.len()) ==> with_block(
                image,
                offset,
                block,
            )[i] == image[i],
{
    assert(with_block(image, offset, block).subrange(offset, offset + block.len()) =~= block);
}

/// Writing the same model a second time changes nothing: the image after the
/// second write is, byte for byte, the image after the first.
pub proof fn lemma_set_twice(image: Seq<u8>, offset: int, model: VegetableChances)
    requires
        model.fits(),
        holds_table(image, offset),
    ensures
        model.set_outcome(with_block(image, offset, model.encoded()), offset) == Ok::<(), Error>(()),
        with_block(with_block(image, offset, model.encoded()), offset, model.encoded())
            == with_block(image, offset, model.encoded()),
{
    lemma_decode_encode(model);
    let once = with_block(image, offset, model.encoded());
    assert(with_block(once, offset, model.encoded()) =~= once);
}

/// Reading after writing gives back what was written: the counts of the model
/// and its second bytes, and the model itself if it came with second bytes of
/// its own.
pub proof fn lemma_get_after_set(image: Seq<u8>, offset: int, model: VegetableChances)
    requires
        model.fits(),
        holds_table(image, offset),
    ensures
        holds_table(with_block(image, offset, model.encoded()), offset),
        table_of(with_block(image, offset, model.encoded()), offset) == model.encoded(),
        VegetableChances::decoded(
            table_of(with_block(image, offset, model.encoded()), offset),
        ).same_counts(model),
        model.turnip_face_chances.secondary is Some ==> VegetableChances::decoded(
            table_of(with_block(image, offset, model.encoded()), offset),
        ) == model,
{
    lemma_decode_encode(model);
    lemma_patch_is_local(image, offset, model.encoded());
}

/// Writing back what was read changes nothing, whatever the second bytes of
/// the table are.
pub proof fn lemma_set_after_get(image: Seq<u8>, offset: int)
    requires
        holds_table(image, offset),
    ensures
        VegetableChances::decoded(table_of(image, offset)).fits(),
        with_block(image, offset, VegetableChances::decoded(table_of(image, offset)).encoded())
            == image,
{
    let block = table_of(image, offset);
    lemma_encode_decode(block);
    assert(with_block(image, offset, block) =~= image);
}

} // verus!
