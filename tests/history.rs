use scannit_core::en1545date::from_en1545_date_and_time;
use scannit_core::history::{create_history_entries, create_history_entry, History, TransactionType};

fn put_bits(buf: &mut [u8], off: usize, len: usize, value: u64) {
    for k in 0..len {
        if (value >> (len - 1 - k)) & 1 == 1 {
            let i = off + k;
            buf[i / 8] |= 0x80 >> (i % 8);
        }
    }
}

fn entry(kind: u64, board: (u64, u64), end: (u64, u64), fare: u64, group: u64, remaining: u64) -> [u8; 12] {
    let mut e = [0u8; 12];
    put_bits(&mut e, 0, 1, kind);
    put_bits(&mut e, 1, 14, board.0);
    put_bits(&mut e, 15, 11, board.1);
    put_bits(&mut e, 26, 14, end.0);
    put_bits(&mut e, 40, 11, end.1);
    put_bits(&mut e, 51, 14, fare);
    put_bits(&mut e, 65, 6, group);
    put_bits(&mut e, 71, 20, remaining);
    e
}

fn expected(kind: TransactionType, board: (u16, u16), end: (u16, u16), fare: u16, group: u8, remaining: u32) -> History {
    History {
        transaction_type: kind,
        boarding_datetime: from_en1545_date_and_time(board.0, board.1).unwrap(),
        transfer_end_datetime: from_en1545_date_and_time(end.0, end.1).unwrap(),
        ticket_fare_cents: fare,
        group_size: group,
        remaining_value: remaining,
    }
}

#[test]
fn empty_slot_after_an_entry_is_left_out() {
    let mut buf = Vec::new();
    buf.extend_from_slice(&entry(1, (8000, 600), (8000, 690), 280, 1, 1234));
    buf.extend_from_slice(&[0u8; 12]);
    assert_eq!(buf.len(), 24);
    let entries = create_history_entries(&buf).unwrap();
    assert_eq!(entries.len(), 1);
    assert_eq!(entries[0], expected(TransactionType::ValueTicket, (8000, 600), (8000, 690), 280, 1, 1234));
}

#[test]
fn entries_keep_their_order_around_empty_slots() {
    let mut buf = Vec::new();
    buf.extend_from_slice(&[0u8; 12]);
    buf.extend_from_slice(&entry(0, (7000, 60), (7000, 120), 0, 1, 0));
    buf.extend_from_slice(&[0u8; 12]);
    buf.extend_from_slice(&entry(1, (7100, 61), (7100, 121), 320, 3, 99));
    let entries = create_history_entries(&buf).unwrap();
    assert_eq!(
        entries,
        vec![
            expected(TransactionType::SeasonPass, (7000, 60), (7000, 120), 0, 1, 0),
            expected(TransactionType::ValueTicket, (7100, 61), (7100, 121), 320, 3, 99),
        ]
    );
}

#[test]
fn an_empty_log_has_no_entries() {
    assert_eq!(create_history_entries(&[]), Ok(vec![]));
    assert_eq!(create_history_entries(&[0u8; 96]), Ok(vec![]));
}

#[test]
fn bytes_past_the_last_whole_slot_are_ignored() {
    let mut buf = entry(1, (8000, 600), (8000, 690), 280, 1, 1234).to_vec();
    buf.extend_from_slice(&[0xFFu8; 5]);
    assert_eq!(create_history_entries(&buf).unwrap().len(), 1);
}

#[test]
fn a_single_slot_decodes_its_fields() {
    let e = entry(0, (6000, 1439), (6001, 5), 16383, 63, 1048575);
    assert_eq!(
        create_history_entry(&e),
        Ok(expected(TransactionType::SeasonPass, (6000, 1439), (6001, 5), 16383, 63, 1048575))
    );
}
