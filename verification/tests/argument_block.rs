use event_hook::abi::{le_bytes, le_value, signed_bits, signed_value};
use event_hook::sdk::array::TArray;
use event_hook::sdk::fstring::FString;
use event_hook::sdk::sfxgame::{
    ArrayHeader, FSFXOnlineMOTDInfo, NotificationBlock,
    USFXOnlineComponentUI_eventOnDisplayNotification_Parms, ARRAY_HEADER_SIZE,
    NOTIFICATION_BLOCK_SIZE,
};

fn block() -> NotificationBlock {
    NotificationBlock {
        message: ArrayHeader { data: 0x1122_3344, count: 3, capacity: 8 },
        title: ArrayHeader { data: 0x5566_7788, count: 0, capacity: 0 },
        image: ArrayHeader { data: 0, count: -1, capacity: 1 },
        tracking_id: 7,
        priority: -2,
        bw_ent_id: 0x0102_0304,
        offer_id: i32::MIN,
        ty: 9,
    }
}

const BYTES: [u8; 56] = [
    0x44, 0x33, 0x22, 0x11, 0x03, 0x00, 0x00, 0x00, 0x08, 0x00, 0x00, 0x00, // message
    0x88, 0x77, 0x66, 0x55, 0x00, 0x00, 0x00, 0x00, 0x00, 0x00, 0x00, 0x00, // title
    0x00, 0x00, 0x00, 0x00, 0xFF, 0xFF, 0xFF, 0xFF, 0x01, 0x00, 0x00, 0x00, // image
    0x07, 0x00, 0x00, 0x00, // tracking number
    0xFE, 0xFF, 0xFF, 0xFF, // priority
    0x04, 0x03, 0x02, 0x01, // entitlement
    0x00, 0x00, 0x00, 0x80, // offer
    0x09, 0x00, 0x00, 0x00, // type
];

#[test]
fn sizes_match_the_foreign_layout() {
    assert_eq!(ARRAY_HEADER_SIZE, 12);
    assert_eq!(NOTIFICATION_BLOCK_SIZE, 56);
}

#[test]
fn le_value_joins_what_le_bytes_splits() {
    assert_eq!(le_value(&[0x78, 0x56, 0x34, 0x12]), 0x1234_5678);
    assert_eq!(le_value(&[0xFF, 0xFF, 0xFF, 0xFF]), u32::MAX);
    assert_eq!(le_value(&[0, 0, 0, 0]), 0);
    for value in [0, 1, 0xFF, 0x100, 0x1234_5678, 0x8000_0000, u32::MAX] {
        assert_eq!(le_value(&le_bytes(value)), value);
    }
}

#[test]
fn signed_numbers_are_stored_in_twos_complement() {
    assert_eq!(signed_bits(0), 0);
    assert_eq!(signed_bits(7), 7);
    assert_eq!(signed_bits(-1), 0xFFFF_FFFF);
    assert_eq!(signed_bits(-2), 0xFFFF_FFFE);
    assert_eq!(signed_bits(i32::MAX), 0x7FFF_FFFF);
    assert_eq!(signed_bits(i32::MIN), 0x8000_0000);
    assert_eq!(signed_value(0xFFFF_FFFF), -1);
    assert_eq!(signed_value(0x8000_0000), i32::MIN);
    assert_eq!(signed_value(0x7FFF_FFFF), i32::MAX);
    for value in [0, 1, -1, 12345, -12345, i32::MAX, i32::MIN] {
        assert_eq!(signed_value(signed_bits(value)), value);
    }
}

#[test]
fn block_is_laid_out_field_by_field() {
    assert_eq!(block().to_bytes(), BYTES.to_vec());
}

#[test]
fn empty_block_is_all_zero() {
    assert_eq!(NotificationBlock::default().to_bytes(), vec![0u8; 56]);
}

#[test]
fn block_is_read_field_by_field() {
    assert_eq!(NotificationBlock::from_bytes(&BYTES), block());
}

#[test]
fn bytes_behind_the_type_are_not_read() {
    let mut bytes = BYTES;
    bytes[53] = 0xAA;
    bytes[54] = 0xBB;
    bytes[55] = 0xCC;
    assert_eq!(NotificationBlock::from_bytes(&bytes), block());
}

#[test]
fn block_round_trips_through_its_bytes() {
    let blocks = [
        block(),
        NotificationBlock::default(),
        NotificationBlock {
            message: ArrayHeader { data: u32::MAX, count: i32::MAX, capacity: i32::MAX },
            title: ArrayHeader { data: 1, count: i32::MIN, capacity: -1 },
            image: ArrayHeader { data: 0x8000_0000, count: 1, capacity: 2 },
            tracking_id: -1,
            priority: 1,
            bw_ent_id: i32::MAX,
            offer_id: i32::MIN,
            ty: 255,
        },
    ];
    for block in blocks {
        let bytes: [u8; 56] = block.to_bytes().try_into().expect("a block has 56 bytes");
        assert_eq!(NotificationBlock::from_bytes(&bytes), block);
    }
}

#[test]
fn live_elements_are_those_below_a_positive_count() {
    assert_eq!(ArrayHeader { data: 1, count: 3, capacity: 8 }.live(), 3);
    assert_eq!(ArrayHeader { data: 1, count: 0, capacity: 8 }.live(), 0);
    assert_eq!(ArrayHeader { data: 1, count: -1, capacity: 8 }.live(), 0);
    assert_eq!(ArrayHeader { data: 1, count: i32::MIN, capacity: 8 }.live(), 0);
    assert_eq!(ArrayHeader { data: 1, count: i32::MAX, capacity: 0 }.live(), 0x7FFF_FFFF);
}

#[test]
fn header_of_an_array_tells_count_and_capacity() {
    let mut values = Vec::with_capacity(10);
    values.push(5i16);
    values.push(6i16);
    let array = TArray::from(values);
    let header = ArrayHeader::of(&array);
    assert_eq!(header.data, 0);
    assert_eq!(header.count, 2);
    assert_eq!(header.capacity as usize, array.capacity());
    assert!(header.capacity >= 10);
}

#[test]
fn placed_block_points_at_its_strings() {
    let placed = block().placed(0x1000, 0x2000, 0x3000);
    assert_eq!(placed.message, ArrayHeader { data: 0x1000, count: 3, capacity: 8 });
    assert_eq!(placed.title, ArrayHeader { data: 0x2000, count: 0, capacity: 0 });
    assert_eq!(placed.image, ArrayHeader { data: 0x3000, count: -1, capacity: 1 });
    assert_eq!(placed.tracking_id, 7);
    assert_eq!(placed.priority, -2);
    assert_eq!(placed.bw_ent_id, 0x0102_0304);
    assert_eq!(placed.offer_id, i32::MIN);
    assert_eq!(placed.ty, 9);
}

#[test]
fn record_splits_into_block_and_words() {
    let params = USFXOnlineComponentUI_eventOnDisplayNotification_Parms {
        info: FSFXOnlineMOTDInfo {
            message: FString::from_string("Hi".to_string()),
            title: FString::from_string(String::new()),
            image: FString::from_string("\u{1f600}".to_string()),
            tracking_id: 7,
            priority: -2,
            bw_ent_id: 3,
            offer_id: 4,
            ty: 5,
        },
    };
    let (block, message, title, image) = params.into_block();
    assert_eq!(message, vec![72, 105, 0]);
    assert_eq!(title, vec![0]);
    assert_eq!(image, vec![-10179, -8704, 0]);
    assert_eq!(block.message.data, 0);
    assert_eq!(block.message.count, 3);
    assert!(block.message.capacity >= 3);
    assert_eq!(block.title.data, 0);
    assert_eq!(block.title.count, 1);
    assert!(block.title.capacity >= 1);
    assert_eq!(block.image.data, 0);
    assert_eq!(block.image.count, 3);
    assert!(block.image.capacity >= 3);
    assert_eq!(block.tracking_id, 7);
    assert_eq!(block.priority, -2);
    assert_eq!(block.bw_ent_id, 3);
    assert_eq!(block.offer_id, 4);
    assert_eq!(block.ty, 5);
}

#[test]
fn block_and_words_join_into_a_record() {
    let header = |count: i32| ArrayHeader { data: 0x1000, count, capacity: 64 };
    let block = NotificationBlock {
        message: header(3),
        title: header(0),
        image: header(-5),
        tracking_id: 7,
        priority: -2,
        bw_ent_id: 3,
        offer_id: 4,
        ty: 5,
    };
    let params = block.into_params(vec![72, 105, 0], Vec::new(), Vec::new());
    assert_eq!(params.info.message.decode(), Ok("Hi\0".to_string()));
    assert_eq!(params.info.title.decode(), Ok(String::new()));
    assert_eq!(params.info.image.decode(), Ok(String::new()));
    assert_eq!(params.info.message.0.len(), 3);
    assert_eq!(params.info.tracking_id, 7);
    assert_eq!(params.info.priority, -2);
    assert_eq!(params.info.bw_ent_id, 3);
    assert_eq!(params.info.offer_id, 4);
    assert_eq!(params.info.ty, 5);
}

#[test]
fn array_gives_its_elements_up() {
    let array = TArray::from(vec![1u8, 2, 3]);
    assert_eq!(array.into_vec(), vec![1, 2, 3]);
}

#[test]
fn header_is_read_from_its_twelve_bytes() {
    let bytes = [0x44, 0x33, 0x22, 0x11, 0x03, 0, 0, 0, 0xFF, 0xFF, 0xFF, 0xFF];
    assert_eq!(
        ArrayHeader::from_bytes(&bytes),
        ArrayHeader { data: 0x1122_3344, count: 3, capacity: -1 }
    );
    assert_eq!(ArrayHeader::from_bytes(&[0; 12]), ArrayHeader::default());
}

#[test]
fn element_is_found_below_the_live_count() {
    let header = ArrayHeader { data: 0x0100_0000, count: 3, capacity: 8 };
    assert_eq!(header.element_address(0, 60), Some(0x0100_0000));
    assert_eq!(header.element_address(1, 60), Some(0x0100_003C));
    assert_eq!(header.element_address(2, 60), Some(0x0100_0078));
    assert_eq!(header.element_address(2, 4), Some(0x0100_0008));
}

#[test]
fn element_beyond_the_count_is_not_reached() {
    let header = ArrayHeader { data: 0x0100_0000, count: 3, capacity: 8 };
    assert_eq!(header.element_address(3, 60), None);
    assert_eq!(header.element_address(7, 60), None);
    assert_eq!(header.element_address(usize::MAX, 60), None);
}

#[test]
fn array_with_a_count_that_is_not_positive_has_no_element() {
    let empty = ArrayHeader { data: 0x0100_0000, count: 0, capacity: 8 };
    assert_eq!(empty.element_address(0, 60), None);
    let negative = ArrayHeader { data: 0x0100_0000, count: -1, capacity: 8 };
    assert_eq!(negative.element_address(0, 60), None);
    assert_eq!(negative.element_address(61401, 60), None);
    let lowest = ArrayHeader { data: 0x0100_0000, count: i32::MIN, capacity: 8 };
    assert_eq!(lowest.element_address(78599, 60), None);
}

#[test]
fn element_at_the_null_address_is_not_reached() {
    let null = ArrayHeader { data: 0, count: 3, capacity: 3 };
    assert_eq!(null.element_address(0, 60), None);
    assert_eq!(null.element_address(1, 60), Some(60));
    let wrapped = ArrayHeader { data: 0xFFFF_FFC4, count: 3, capacity: 3 };
    assert_eq!(wrapped.element_address(1, 60), None);
    assert_eq!(wrapped.element_address(2, 60), Some(60));
}

#[test]
fn element_address_wraps_with_the_address_space() {
    let header = ArrayHeader { data: 0xFFFF_FFF0, count: i32::MAX, capacity: i32::MAX };
    assert_eq!(header.element_address(1, 0x20), Some(0x10));
    assert_eq!(header.element_address(0x7FFF_FFFE, 0xFFFF_FFFF), Some(0x7FFF_FFF2));
}
