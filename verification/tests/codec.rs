use vegetable_chances::codec::{FACES_AT, ITEMS_AT, SPLIT_AT, TABLE_LEN};
use vegetable_chances::{
    Error, Group, ItemChances, TurnipFaceChances, ValidationError, VegetableChances,
};

const TURNIP_CHANCE_BYTES: [u8; 16] = [
    0x23, 0x02, // normal
    0x06, 0x02, // unamused
    0x05, 0x02, // line eyes
    0x03, 0x02, // circle eyes
    0x03, 0x02, // super happy
    0x04, 0x06, // winky
    0x01, 0x0c, // dot eyes
    0x01, 0x1e, // stitch
];

const SHIPPED_SECONDARY: [u8; 8] = [0x02, 0x02, 0x02, 0x02, 0x02, 0x06, 0x0c, 0x1e];

fn custom() -> VegetableChances {
    VegetableChances {
        chance_of_item: 100,
        chance_of_turnip: 28,
        turnip_face_chances: TurnipFaceChances {
            normal: 10,
            unamused: 20,
            line_eyes: 30,
            circle_eyes: 40,
            super_happy: 50,
            winky: 60,
            dot_eyes: 70,
            stitch: 255,
            secondary: Some([0xa0, 0xa1, 0xa2, 0xa3, 0xa4, 0xa5, 0xa6, 0xa7]),
        },
        item_chances: ItemChances { bobomb: 0, mr_saturn: 7, beamsword: 200 },
    }
}

#[test]
fn layout_of_the_table() {
    assert_eq!(FACES_AT, 0);
    assert_eq!(ITEMS_AT, 16);
    assert_eq!(SPLIT_AT, 19);
    assert_eq!(TABLE_LEN, 21);
}

#[test]
fn default_table_bytes() {
    let block = VegetableChances::default().encode().unwrap();
    assert_eq!(block.len(), TABLE_LEN);
    assert_eq!(&block[..16], &TURNIP_CHANCE_BYTES[..]);
    assert_eq!(&block[16..19], &[2u8, 3, 1][..]);
    assert_eq!(&block[19..], &[1u8, 127][..]);
}

#[test]
fn custom_table_bytes() {
    let block = custom().encode().unwrap();
    let expected: Vec<u8> = vec![
        10, 0xa0, 20, 0xa1, 30, 0xa2, 40, 0xa3, 50, 0xa4, 60, 0xa5, 70, 0xa6, 255, 0xa7, 0, 7, 200,
        100, 28,
    ];
    assert_eq!(block, expected);
}

#[test]
fn counts_alone_fall_back_to_the_shipped_second_bytes() {
    let chances = VegetableChances {
        turnip_face_chances: TurnipFaceChances { secondary: None, ..custom().turnip_face_chances },
        ..custom()
    };
    let block = chances.encode().unwrap();
    let expected: Vec<u8> = vec![
        10, 0x02, 20, 0x02, 30, 0x02, 40, 0x02, 50, 0x02, 60, 0x06, 70, 0x0c, 255, 0x1e, 0, 7,
        200, 100, 28,
    ];
    assert_eq!(block, expected);
}

#[test]
fn encode_rejects_a_count_that_does_not_fit() {
    let split = VegetableChances { chance_of_turnip: 256, ..custom() };
    assert_eq!(
        split.encode(),
        Err(Error::Validation(ValidationError::CountTooLarge(Group::Split)))
    );
    let faces = VegetableChances {
        turnip_face_chances: TurnipFaceChances { stitch: 257, ..custom().turnip_face_chances },
        ..custom()
    };
    assert_eq!(
        faces.encode(),
        Err(Error::Validation(ValidationError::CountTooLarge(Group::Faces)))
    );
    let items = VegetableChances {
        item_chances: ItemChances { bobomb: 0, mr_saturn: 7, beamsword: 0x1_00c8 },
        ..custom()
    };
    assert_eq!(
        items.encode(),
        Err(Error::Validation(ValidationError::CountTooLarge(Group::Items)))
    );
}

#[test]
fn encode_takes_any_sums() {
    let zeros = VegetableChances {
        chance_of_item: 0,
        chance_of_turnip: 0,
        turnip_face_chances: TurnipFaceChances {
            normal: 0,
            unamused: 0,
            line_eyes: 0,
            circle_eyes: 0,
            super_happy: 0,
            winky: 0,
            dot_eyes: 0,
            stitch: 0,
            secondary: Some([0; 8]),
        },
        item_chances: ItemChances { bobomb: 0, mr_saturn: 0, beamsword: 0 },
    };
    assert_eq!(zeros.encode(), Ok(vec![0u8; 21]));
}

#[test]
fn decode_default_table() {
    let mut block: Vec<u8> = TURNIP_CHANCE_BYTES.to_vec();
    block.extend_from_slice(&[2, 3, 1, 1, 127]);
    let chances = VegetableChances::decode(&block).unwrap();
    let shipped = VegetableChances::default();
    assert_eq!(chances.chance_of_item, 1);
    assert_eq!(chances.chance_of_turnip, 127);
    assert_eq!(chances.item_chances, shipped.item_chances);
    assert_eq!(
        chances.turnip_face_chances,
        TurnipFaceChances { secondary: Some(SHIPPED_SECONDARY), ..shipped.turnip_face_chances }
    );
}

#[test]
fn decode_reads_each_byte_into_its_field() {
    let block: Vec<u8> = (100u8..121).collect();
    let chances = VegetableChances::decode(&block).unwrap();
    let expected = VegetableChances {
        chance_of_item: 119,
        chance_of_turnip: 120,
        turnip_face_chances: TurnipFaceChances {
            normal: 100,
            unamused: 102,
            line_eyes: 104,
            circle_eyes: 106,
            super_happy: 108,
            winky: 110,
            dot_eyes: 112,
            stitch: 114,
            secondary: Some([101, 103, 105, 107, 109, 111, 113, 115]),
        },
        item_chances: ItemChances { bobomb: 116, mr_saturn: 117, beamsword: 118 },
    };
    assert_eq!(chances, expected);
}

#[test]
fn decode_of_short_block_is_decode_error() {
    let block = VegetableChances::default().encode().unwrap();
    assert_eq!(VegetableChances::decode(&block[..20]), Err(Error::Decode));
    assert_eq!(VegetableChances::decode(&block[..16]), Err(Error::Decode));
    assert_eq!(VegetableChances::decode(&block[..1]), Err(Error::Decode));
    assert_eq!(VegetableChances::decode(&[]), Err(Error::Decode));
}

#[test]
fn decode_does_not_read_past_the_table() {
    let mut block = custom().encode().unwrap();
    block.extend_from_slice(&[0xff, 0xff, 0xff]);
    assert_eq!(VegetableChances::decode(&block), Ok(custom()));
}

#[test]
fn round_trip_with_second_bytes() {
    let chances = custom();
    let block = chances.encode().unwrap();
    assert_eq!(VegetableChances::decode(&block), Ok(chances));
}

#[test]
fn round_trip_of_counts_alone() {
    let chances = VegetableChances::default();
    let block = chances.encode().unwrap();
    let back = VegetableChances::decode(&block).unwrap();
    assert_eq!(back.chance_of_item, chances.chance_of_item);
    assert_eq!(back.chance_of_turnip, chances.chance_of_turnip);
    assert_eq!(back.item_chances, chances.item_chances);
    assert_eq!(
        TurnipFaceChances { secondary: None, ..back.turnip_face_chances },
        chances.turnip_face_chances
    );
    assert_eq!(back.turnip_face_chances.secondary, Some(SHIPPED_SECONDARY));
    assert_eq!(back.encode().unwrap(), block);
}

#[test]
fn round_trip_at_the_ends_of_the_range() {
    for count in [0u32, 1, 127, 128, 254, 255] {
        let chances = VegetableChances {
            chance_of_item: count,
            chance_of_turnip: 255 - count,
            turnip_face_chances: TurnipFaceChances {
                normal: count,
                unamused: 255 - count,
                line_eyes: count,
                circle_eyes: 255 - count,
                super_happy: count,
                winky: 255 - count,
                dot_eyes: count,
                stitch: 255 - count,
                secondary: Some([0, 1, 2, 0xfd, 0xfe, 0xff, 0x80, 0x7f]),
            },
            item_chances: ItemChances { bobomb: count, mr_saturn: 255 - count, beamsword: count },
        };
        let block = chances.encode().unwrap();
        assert_eq!(block.len(), 21);
        assert_eq!(VegetableChances::decode(&block), Ok(chances));
    }
}

#[test]
fn round_trip_from_bytes() {
    let mut block: Vec<u8> = Vec::new();
    for i in 0u32..21 {
        block.push((i * 37 % 256) as u8);
    }
    let chances = VegetableChances::decode(&block).unwrap();
    assert_eq!(chances.validate(), Ok(()));
    assert_eq!(chances.encode(), Ok(block));
    assert_eq!(VegetableChances::decode(&[0xff; 21]).unwrap().encode(), Ok(vec![0xffu8; 21]));
}
