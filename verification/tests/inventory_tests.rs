use invelion::error::Error;
use invelion::error::ProgramError;
use invelion::inventory::InventoryItem;
use invelion::inventory::InventoryResult;

fn tag(first: u8, epc: &[u8], rssi: u8) -> Vec<u8> {
    let mut data = vec![first, 0x30, 0x00];
    data.extend_from_slice(epc);
    data.push(rssi);
    data
}

#[test]
fn tag_record_fields() {
    let data = tag(0x15, &[0xE2, 0x00, 0x10, 0x01, 0x02, 0x03, 0x04, 0x05], 90);
    let item = InventoryItem::from_bytes(&data).unwrap();
    assert_eq!(
        item,
        InventoryItem {
            frequency: 867_500_000,
            antenna: 1,
            pc: vec![0x30, 0x00],
            epc: vec![0xE2, 0x00, 0x10, 0x01, 0x02, 0x03, 0x04, 0x05],
            rssi: -39,
        }
    );
}

#[test]
fn tag_record_packed_byte() {
    let item = InventoryItem::from_bytes(&tag(0b0001_1111, &[1, 2], 89)).unwrap();
    assert_eq!(item.frequency, 902_000_000);
    assert_eq!(item.antenna, 3);
    assert_eq!(item.rssi, -41);
    let item = InventoryItem::from_bytes(&tag(0b1110_1100, &[1, 2], 200)).unwrap();
    assert_eq!(item.frequency, 928_000_000);
    assert_eq!(item.antenna, 0);
    assert_eq!(item.rssi, 71);
    let item = InventoryItem::from_bytes(&tag(0b1111_1110, &[], 130)).unwrap();
    assert_eq!(item.frequency, 930_000_000);
    assert_eq!(item.antenna, 2);
    let item = InventoryItem::from_bytes(&tag(0x00, &[], 130)).unwrap();
    assert_eq!(item.frequency, 865_000_000);
    assert_eq!(item.antenna, 0);
}

#[test]
fn tag_record_of_the_shortest_size() {
    let item = InventoryItem::from_bytes(&[0x04, 0xAA, 0xBB, 100]).unwrap();
    assert_eq!(item.frequency, 865_500_000);
    assert_eq!(item.antenna, 0);
    assert_eq!(item.pc, vec![0xAA, 0xBB]);
    assert_eq!(item.epc, Vec::<u8>::new());
    assert_eq!(item.rssi, -29);
}

#[test]
fn short_tag_record_is_refused() {
    for len in 0..4usize {
        let data = vec![0x15u8; len];
        assert!(matches!(
            InventoryItem::from_bytes(&data),
            Err(Error::Program(ProgramError::Bitfield))
        ));
    }
}

#[test]
fn summary_fields() {
    let result =
        InventoryResult::from_bytes(&[0x02, 0x01, 0x2C, 0x00, 0x00, 0x01, 0x00], vec![]).unwrap();
    assert_eq!(
        result,
        InventoryResult { items: vec![], antenna: 2, read_rate: 300, total_read: 256 }
    );
    let result =
        InventoryResult::from_bytes(&[0xFF, 0xFF, 0xFE, 0x12, 0x34, 0x56, 0x78], vec![]).unwrap();
    assert_eq!(result.antenna, 255);
    assert_eq!(result.read_rate, 0xFFFE);
    assert_eq!(result.total_read, 0x1234_5678);
}

#[test]
fn summary_keeps_the_items_in_order() {
    let first = InventoryItem::from_bytes(&tag(0x15, &[1], 90)).unwrap();
    let second = InventoryItem::from_bytes(&tag(0x16, &[2], 91)).unwrap();
    let result = InventoryResult::from_bytes(
        &[0, 0, 2, 0, 0, 0, 2],
        vec![first.clone(), second.clone()],
    )
    .unwrap();
    assert_eq!(result.items, vec![first, second]);
    assert_eq!(result.read_rate, 2);
    assert_eq!(result.total_read, 2);
}

#[test]
fn summary_looks_at_seven_bytes() {
    let result =
        InventoryResult::from_bytes(&[1, 0, 5, 0, 0, 0, 9, 0xEE, 0xEE], vec![]).unwrap();
    assert_eq!(result.antenna, 1);
    assert_eq!(result.read_rate, 5);
    assert_eq!(result.total_read, 9);
}

#[test]
fn short_summary_is_refused() {
    for len in 0..7usize {
        let data = vec![1u8; len];
        assert!(matches!(
            InventoryResult::from_bytes(&data, vec![]),
            Err(Error::Program(ProgramError::Bitfield))
        ));
    }
}
