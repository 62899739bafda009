//! The table as bytes.
//!
//! A table is one block of `TABLE_LEN` bytes:
//!
//! | bytes    | content                                                  |
//! |----------|----------------------------------------------------------|
//! | 0 .. 16  | the eight faces, by face ID, two bytes each: the count,  |
//! |          | then a second byte that is stored as it is given         |
//! | 16 .. 19 | the three item counts, one byte each                     |
//! | 19 .. 21 | the count for an item, then the count for a turnip       |
//!
//! Every block of that length is a table, and the two directions undo each
//! other: see `lemma_decode_encode` and `lemma_encode_decode`.

use vstd::prelude::*;
use crate::chances::{ItemChances, TurnipFaceChances, VegetableChances};
use crate::error::Error;

verus! {

/// Position of the face entries in the table.
pub const FACES_AT: usize = 0;

/// Position of the item counts in the table.
pub const ITEMS_AT: usize = 16;

/// Position of the item/turnip split in the table.
pub const SPLIT_AT: usize = 19;

/// Length of the table in bytes.
pub const TABLE_LEN: usize = 21;

impl TurnipFaceChances {
    /// The sixteen bytes of the face entries: for each face its count, then
    /// its second byte.
    pub open spec fn encoded(self) -> Seq<u8> {
        Seq::new(
            16,
            |i: int|
                if i % 2 == 0 {
                    self.counts()[i / 2] as u8
                } else {
                    self.secondary_bytes()[i / 2]
                },
        )
    }

    /// The face entries that sixteen bytes spell out. The second bytes are
    /// kept as they are.
    pub open spec fn decoded(bytes: Seq<u8>) -> Self
        recommends
            bytes.len() >= 16,
    {
        TurnipFaceChances {
            normal: bytes[0] as u32,
            unamused: bytes[2] as u32,
            line_eyes: bytes[4] as u32,
            circle_eyes: bytes[6] as u32,
            super_happy: bytes[8] as u32,
            winky: bytes[10] as u32,
            dot_eyes: bytes[12] as u32,
            stitch: bytes[14] as u32,
            secondary: Some(
                [
                    bytes[1],
                    bytes[3],
                    bytes[5],
                    bytes[7],
                    bytes[9],
                    bytes[11],
                    bytes[13],
                    bytes[15],
                ],
            ),
        }
    }
}

impl ItemChances {
    /// The three bytes of the item counts.
    pub open spec fn encoded(self) -> Seq<u8> {
        seq![self.bobomb as u8, self.mr_saturn as u8, self.beamsword as u8]
    }

    /// The item counts that three bytes spell out.
    pub open spec fn decoded(bytes: Seq<u8>) -> Self
        recommends
            bytes.len() >= 3,
    {
        ItemChances {
            bobomb: bytes[0] as u32,
            mr_saturn: bytes[1] as u32,
            beamsword: bytes[2] as u32,
        }
    }
}

impl VegetableChances {
    /// The bytes of the table that holds this model.
    pub open spec fn encoded(self) -> Seq<u8> {
        self.turnip_face_chances.encoded() + self.item_chances.encoded() + seq![
            self.chance_of_item as u8,
            self.chance_of_turnip as u8,
        ]
    }

    /// The model that the first `TABLE_LEN` bytes of `block` spell out.
    pub open spec fn decoded(block: Seq<u8>) -> Self
        recommends
            block.len() >= TABLE_LEN,
    {
        VegetableChances {
            chance_of_item: block[SPLIT_AT as int] as u32,
            chance_of_turnip: block[SPLIT_AT + 1] as u32,
            turnip_face_chances: TurnipFaceChances::decoded(
                block.subrange(FACES_AT as int, ITEMS_AT as int),
            ),
            item_chances: ItemChances::decoded(block.subrange(ITEMS_AT as int, SPLIT_AT as int)),
        }
    }

    /// Two models hold the same counts, whatever their second bytes.
    pub open spec fn same_counts(self, other: Self) -> bool {
        &&& self.chance_of_item == other.chance_of_item
        &&& self.chance_of_turnip == other.chance_of_turnip
        &&& self.turnip_face_chances.counts() == other.turnip_face_chances.counts()
        &&& self.item_chances == other.item_chances
    }

    /// The bytes of the table for this model. Fails, with the rule that
    /// `validate` reports, if a count does not fit in one byte.
    pub fn encode(&self) -> (r: Result<Vec<u8>, Error>)
        ensures
            r is Ok <==> self.fits(),
            r matches Ok(block) ==> block@ == self.encoded() && block@.len() == TABLE_LEN,
            r matches Err(e) ==> (self.width_violation() matches Some(rule) && e
                == Error::Validation(rule)),
    {
        match self.validate() {
            Err(e) => Err(Error::Validation(e)),
            Ok(()) => {
                let faces = &self.turnip_face_chances;
                let items = &self.item_chances;
                let mut block: Vec<u8> = Vec::with_capacity(TABLE_LEN);
                block.push(faces.normal as u8);
                block.push(faces.secondary_byte(0));
                block.push(faces.unamused as u8);
                block.push(faces.secondary_byte(1));
                block.push(faces.line_eyes as u8);
                block.push(faces.secondary_byte(2));
                block.push(faces.circle_eyes as u8);
                block.push(faces.secondary_byte(3));
                block.push(faces.super_happy as u8);
                block.push(faces.secondary_byte(4));
                block.push(faces.winky as u8);
                block.push(faces.secondary_byte(5));
                block.push(faces.dot_eyes as u8);
                block.push(faces.secondary_byte(6));
                block.push(faces.stitch as u8);
                block.push(faces.secondary_byte(7));
                block.push(items.bobomb as u8);
                block.push(items.mr_saturn as u8);
                block.push(items.beamsword as u8);
                block.push(self.chance_of_item as u8);
                block.push(self.chance_of_turnip as u8);
                assert(block@ =~= self.encoded());
                Ok(block)
            },
        }
    }

    /// The model that `block` spells out. Fails if the block is shorter than a
    /// table; bytes after the table are not read.
    pub fn decode(block: &[u8]) -> (r: Result<VegetableChances, Error>)
        ensures
            r is Ok <==> block@.len() >= TABLE_LEN,
            r matches Ok(model) ==> model == Self::decoded(block@),
            r matches Err(e) ==> e == Error::Decode,
    {
        if block.len() < TABLE_LEN {
            return Err(Error::Decode);
        }
        let turnip_face_chances = TurnipFaceChances {
            normal: block[0] as u32,
            unamused: block[2] as u32,
            line_eyes: block[4] as u32,
            circle_eyes: block[6] as u32,
            super_happy: block[8] as u32,
            winky: block[10] as u32,
            dot_eyes: block[12] as u32,
            stitch: block[14] as u32,
            secondary: Some(
                [
                    block[1],
                    block[3],
                    block[5],
                    block[7],
                    block[9],
                    block[11],
                    block[13],
                    block[15],
                ],
            ),
        };
        let item_chances = ItemChances {
            bobomb: block[ITEMS_AT] as u32,
            mr_saturn: block[ITEMS_AT + 1] as u32,
            beamsword: block[ITEMS_AT + 2] as u32,
        };
        Ok(
            VegetableChances {
                chance_of_item: block[SPLIT_AT] as u32,
                chance_of_turnip: block[SPLIT_AT + 1] as u32,
                turnip_face_chances,
                item_chances,
            },
        )
    }
}

/// Round trip from a model: decoding the bytes of a model that can be written
/// gives back its counts and the second bytes that were written, and gives back
/// the model itself if it came with second bytes of its own.
pub proof fn lemma_decode_encode(model: VegetableChances)
    requires
        model.fits(),
    ensures
        model.encoded().len() == TABLE_LEN,
        VegetableChances::decoded(model.encoded()).same_counts(model),
        VegetableChances::decoded(model.encoded()).turnip_face_chances.secondary_bytes()
            == model.turnip_face_chances.secondary_bytes(),
        model.turnip_face_chances.secondary is Some ==> VegetableChances::decoded(model.encoded())
            == model,
{
    let block = model.encoded();
    let faces = model.turnip_face_chances;
    let back = VegetableChances::decoded(block);
    let c = faces.counts();
    assert(block.subrange(FACES_AT as int, ITEMS_AT as int) =~= faces.encoded());
    assert(block.subrange(ITEMS_AT as int, SPLIT_AT as int) =~= model.item_chances.encoded());
    assert(back.turnip_face_chances.counts() =~= c);
    assert(back.turnip_face_chances.secondary_bytes() =~= faces.secondary_bytes());
    if faces.secondary is Some {
        let kept = back.turnip_face_chances.secondary->Some_0;
        assert(kept@ =~= faces.secondary->Some_0@);
        assert(kept == faces.secondary->Some_0);
    }
}

/// Round trip from bytes: every block of `TABLE_LEN` bytes spells out a model
/// that can be written, and writing it gives the same bytes.
pub proof fn lemma_encode_decode(block: Seq<u8>)
    requires
        block.len() == TABLE_LEN,
    ensures
        VegetableChances::decoded(block).fits(),
        VegetableChances::decoded(block).encoded() == block,
{
    let model = VegetableChances::decoded(block);
    assert(model.encoded() =~= block);
}

} // verus!
