//! The probability model. A chance is a count out of the sum of its group, so a
//! group of counts 35/6/5/3/3/4/1/1 gives the first face 35 chances in 58.

use vstd::prelude::*;
use crate::error::{verdict, Group, ValidationError};

verus! {

/// The largest count that the table can store: each count takes one byte.
pub const COUNT_MAX: u32 = 255;

/// Denominator of the item/turnip split as the game ships it.
pub const SPLIT_DENOMINATOR: u64 = 128;

/// Denominator of the face chances as the game ships them.
pub const FACE_DENOMINATOR: u64 = 58;

/// Denominator of the item chances as the game ships them.
pub const ITEM_DENOMINATOR: u64 = 6;

/// The byte that the game ships after each face count, by face ID. What the
/// game makes of it is not known, so it is kept as it is and never computed.
pub open spec fn shipped_secondary() -> Seq<u8> {
    seq![0x02u8, 0x02, 0x02, 0x02, 0x02, 0x06, 0x0c, 0x1e]
}

/// Chances of the eight faces of a turnip.
#[derive(Clone, Copy, Debug, PartialEq, Eq)]
pub struct TurnipFaceChances {
    /// Face ID == 0, default 35/58 chance.
    pub normal: u32,
    /// Face ID == 1, default 6/58 chance.
    pub unamused: u32,
    /// Face ID == 2, default 5/58 chance.
    pub line_eyes: u32,
    /// Face ID == 3, default 3/58 chance.
    pub circle_eyes: u32,
    /// Face ID == 4, default 3/58 chance.
    pub super_happy: u32,
    /// Face ID == 5, default 4/58 chance.
    pub winky: u32,
    /// Face ID == 6, default 1/58 chance.
    pub dot_eyes: u32,
    /// Face ID == 7, default 1/58 chance.
    pub stitch: u32,
    /// The byte stored after each count, by face ID. `None` stands for the
    /// bytes that the game ships with.
    pub secondary: Option<[u8; 8]>,
}

impl TurnipFaceChances {
    /// The chances that the game ships with.
    pub open spec fn shipped() -> Self {
        TurnipFaceChances {
            normal: 35,
            unamused: 6,
            line_eyes: 5,
            circle_eyes: 3,
            super_happy: 3,
            winky: 4,
            dot_eyes: 1,
            stitch: 1,
            secondary: None,
        }
    }

    /// The eight counts, by face ID.
    pub open spec fn counts(self) -> Seq<u32> {
        seq![
            self.normal,
            self.unamused,
            self.line_eyes,
            self.circle_eyes,
            self.super_happy,
            self.winky,
            self.dot_eyes,
            self.stitch,
        ]
    }

    /// The eight bytes that are stored after the counts, by face ID.
    pub open spec fn secondary_bytes(self) -> Seq<u8> {
        match self.secondary {
            Some(bytes) => bytes@,
            None => shipped_secondary(),
        }
    }

    /// Sum of the counts, out of which each chance is taken.
    pub open spec fn denominator(self) -> int {
        self.normal + self.unamused + self.line_eyes + self.circle_eyes + self.super_happy
            + self.winky + self.dot_eyes + self.stitch
    }

    /// Every count can be stored in one byte.
    pub open spec fn fits(self) -> bool {
        &&& self.normal <= COUNT_MAX
        &&& self.unamused <= COUNT_MAX
        &&& self.line_eyes <= COUNT_MAX
        &&& self.circle_eyes <= COUNT_MAX
        &&& self.super_happy <= COUNT_MAX
        &&& self.winky <= COUNT_MAX
        &&& self.dot_eyes <= COUNT_MAX
        &&& self.stitch <= COUNT_MAX
    }

    pub fn sum(&self) -> (s: u64)
        ensures
            s == self.denominator(),
    {
        self.normal as u64 + self.unamused as u64 + self.line_eyes as u64
            + self.circle_eyes as u64 + self.super_happy as u64 + self.winky as u64
            + self.dot_eyes as u64 + self.stitch as u64
    }

    pub fn fits_in_bytes(&self) -> (b: bool)
        ensures
            b == self.fits(),
    {
        self.normal <= COUNT_MAX && self.unamused <= COUNT_MAX && self.line_eyes <= COUNT_MAX
            && self.circle_eyes <= COUNT_MAX && self.super_happy <= COUNT_MAX && self.winky
            <= COUNT_MAX && self.dot_eyes <= COUNT_MAX && self.stitch <= COUNT_MAX
    }

    /// The byte stored after the count of face `face`.
    pub(crate) fn secondary_byte(&self, face: usize) -> (b: u8)
        requires
            face < 8,
        ensures
            b == self.secondary_bytes()[face as int],
    {
        match self.secondary {
            Some(bytes) => bytes[face],
            None => {
                let shipped: [u8; 8] = [0x02, 0x02, 0x02, 0x02, 0x02, 0x06, 0x0c, 0x1e];
                shipped[face]
            },
        }
    }
}

impl Default for TurnipFaceChances {
    fn default() -> (r: Self)
        ensures
            r == Self::shipped(),
            r.denominator() == FACE_DENOMINATOR,
    {
        Self {
            normal: 35,
            unamused: 6,
            line_eyes: 5,
            circle_eyes: 3,
            super_happy: 3,
            winky: 4,
            dot_eyes: 1,
            stitch: 1,
            secondary: None,
        }
    }
}

/// Chances of the three items that can come in place of a turnip.
#[derive(Clone, Copy, Debug, PartialEq, Eq)]
pub struct ItemChances {
    /// Default 2/6 chance.
    pub bobomb: u32,
    /// Default 3/6 chance.
    pub mr_saturn: u32,
    /// Default 1/6 chance.
    pub beamsword: u32,
}

impl ItemChances {
    /// The chances that the game ships with.
    pub open spec fn shipped() -> Self {
        ItemChances { bobomb: 2, mr_saturn: 3, beamsword: 1 }
    }

    /// Sum of the counts, out of which each chance is taken.
    pub open spec fn denominator(self) -> int {
        self.bobomb + self.mr_saturn + self.beamsword
    }

    /// Every count can be stored in one byte.
    pub open spec fn fits(self) -> bool {
        self.bobomb <= COUNT_MAX && self.mr_saturn <= COUNT_MAX && self.beamsword <= COUNT_MAX
    }

    pub fn sum(&self) -> (s: u64)
        ensures
            s == self.denominator(),
    {
        self.bobomb as u64 + self.mr_saturn as u64 + self.beamsword as u64
    }

    pub fn fits_in_bytes(&self) -> (b: bool)
        ensures
            b == self.fits(),
    {
        self.bobomb <= COUNT_MAX && self.mr_saturn <= COUNT_MAX && self.beamsword <= COUNT_MAX
    }
}

impl Default for ItemChances {
    fn default() -> (r: Self)
        ensures
            r == Self::shipped(),
            r.denominator() == ITEM_DENOMINATOR,
    {
        Self { bobomb: 2, mr_saturn: 3, beamsword: 1 }
    }
}

/// What Peach may pull out of the ground, and how likely each outcome is.
#[derive(Clone, Copy, Debug, PartialEq, Eq)]
pub struct VegetableChances {
    /// Default 1/128 chance.
    pub chance_of_item: u32,
    /// Default 127/128 chance.
    pub chance_of_turnip: u32,
    pub turnip_face_chances: TurnipFaceChances,
    pub item_chances: ItemChances,
}

impl VegetableChances {
    /// The chances that the game ships with.
    pub open spec fn shipped() -> Self {
        VegetableChances {
            chance_of_item: 1,
            chance_of_turnip: 127,
            turnip_face_chances: TurnipFaceChances::shipped(),
            item_chances: ItemChances::shipped(),
        }
    }

    /// Sum of the two counts of the item/turnip split.
    pub open spec fn split_denominator(self) -> int {
        self.chance_of_item + self.chance_of_turnip
    }

    /// Both counts of the item/turnip split can be stored in one byte.
    pub open spec fn split_fits(self) -> bool {
        self.chance_of_item <= COUNT_MAX && self.chance_of_turnip <= COUNT_MAX
    }

    /// Every count of every group can be stored in one byte. This is all that a
    /// model needs to be written: the denominator of a group is whatever its
    /// counts add up to.
    pub open spec fn fits(self) -> bool {
        self.split_fits() && self.turnip_face_chances.fits() && self.item_chances.fits()
    }

    /// Every group adds up to the denominator that the game ships with.
    pub open spec fn has_shipped_denominators(self) -> bool {
        &&& self.split_denominator() == SPLIT_DENOMINATOR
        &&& self.turnip_face_chances.denominator() == FACE_DENOMINATOR
        &&& self.item_chances.denominator() == ITEM_DENOMINATOR
    }

    /// The first group, in the order split, faces, items, that has a count too
    /// large for one byte.
    pub open spec fn width_violation(self) -> Option<ValidationError> {
        if !self.split_fits() {
            Some(ValidationError::CountTooLarge(Group::Split))
        } else if !self.turnip_face_chances.fits() {
            Some(ValidationError::CountTooLarge(Group::Faces))
        } else if !self.item_chances.fits() {
            Some(ValidationError::CountTooLarge(Group::Items))
        } else {
            None
        }
    }

    /// The first group, in the order split, faces, items, that does not add up
    /// to the denominator that the game ships with.
    pub open spec fn sum_violation(self) -> Option<ValidationError> {
        if self.split_denominator() != SPLIT_DENOMINATOR {
            Some(ValidationError::WrongSum(Group::Split))
        } else if self.turnip_face_chances.denominator() != FACE_DENOMINATOR {
            Some(ValidationError::WrongSum(Group::Faces))
        } else if self.item_chances.denominator() != ITEM_DENOMINATOR {
            Some(ValidationError::WrongSum(Group::Items))
        } else {
            None
        }
    }

    /// What strict validation reports: a count that is too large comes before
    /// a wrong sum.
    pub open spec fn strict_violation(self) -> Option<ValidationError> {
        if self.width_violation() is Some {
            self.width_violation()
        } else {
            self.sum_violation()
        }
    }

    /// Sum of the two counts of the item/turnip split.
    pub fn split_sum(&self) -> (s: u64)
        ensures
            s == self.split_denominator(),
    {
        self.chance_of_item as u64 + self.chance_of_turnip as u64
    }

    /// Checks that the model can be written: every count fits in one byte. The
    /// sums are free, so that a caller can choose new denominators.
    pub fn validate(&self) -> (r: Result<(), ValidationError>)
        ensures
            r is Ok <==> self.fits(),
            r == verdict(self.width_violation()),
    {
        if !(self.chance_of_item <= COUNT_MAX && self.chance_of_turnip <= COUNT_MAX) {
            Err(ValidationError::CountTooLarge(Group::Split))
        } else if !self.turnip_face_chances.fits_in_bytes() {
            Err(ValidationError::CountTooLarge(Group::Faces))
        } else if !self.item_chances.fits_in_bytes() {
            Err(ValidationError::CountTooLarge(Group::Items))
        } else {
            Ok(())
        }
    }

    /// Checks what `validate` checks, and also that every group adds up to the
    /// denominator that the game ships with: 128, 58 and 6.
    pub fn validate_strict(&self) -> (r: Result<(), ValidationError>)
        ensures
            r is Ok <==> self.fits() && self.has_shipped_denominators(),
            r == verdict(self.strict_violation()),
    {
        match self.validate() {
            Err(e) => Err(e),
            Ok(()) => {
                if self.split_sum() != SPLIT_DENOMINATOR {
                    Err(ValidationError::WrongSum(Group::Split))
                } else if self.turnip_face_chances.sum() != FACE_DENOMINATOR {
                    Err(ValidationError::WrongSum(Group::Faces))
                } else if self.item_chances.sum() != ITEM_DENOMINATOR {
                    Err(ValidationError::WrongSum(Group::Items))
                } else {
                    Ok(())
                }
            },
        }
    }
}

impl Default for VegetableChances {
    fn default() -> (r: Self)
        ensures
            r == Self::shipped(),
            r.fits(),
            r.has_shipped_denominators(),
    {
        Self {
            chance_of_item: 1,
            chance_of_turnip: 127,
            turnip_face_chances: Default::default(),
            item_chances: Default::default(),
        }
    }
}

} // verus!
