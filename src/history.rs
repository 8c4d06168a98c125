use vstd::arithmetic::div_mod::lemma_fundamental_div_mod;
use vstd::prelude::*;
use vstd::slice::slice_subrange;

use crate::conversion::{bits_u16, bits_u32, bits_u8, read_u16, read_u32, read_u8};
use crate::en1545date::{en1545_instant, from_en1545_date_and_time, UtcDateTime};
use crate::error::DecodeError;

verus! {

/// How a recorded trip was paid for.
#[derive(Debug, Clone, Copy, PartialEq, Eq, Structural)]
pub enum TransactionType {
    SeasonPass,
    ValueTicket,
}

pub open spec fn transaction_type_of(value: u8) -> Result<TransactionType, DecodeError> {
    match value {
        0 => Ok(TransactionType::SeasonPass),
        1 => Ok(TransactionType::ValueTicket),
        _ => Err(DecodeError::UnsupportedVariant),
    }
}

impl TransactionType {
    pub fn new(value: u8) -> (r: Result<TransactionType, DecodeError>)
        ensures
            r == transaction_type_of(value),
    {
        match value {
            0 => Ok(TransactionType::SeasonPass),
            1 => Ok(TransactionType::ValueTicket),
            _ => Err(DecodeError::UnsupportedVariant),
        }
    }
}

/// One entry of the card's transaction log.
#[derive(Debug, Clone, Copy, PartialEq, Eq, Structural)]
pub struct History {
    pub transaction_type: TransactionType,
    pub boarding_datetime: UtcDateTime,
    pub transfer_end_datetime: UtcDateTime,
    pub ticket_fare_cents: u16,
    pub group_size: u8,
    /// The value left on the card after this trip; 0 for a season pass trip.
    pub remaining_value: u32,
}

/// The number of bytes of one log entry.
pub const HISTORY_ENTRY_BYTES: usize = 12;

/// Whether a 12-byte log slot holds an entry. The card zero-fills unused
/// slots, and a used one is far enough from the EN1545 epoch that bytes 1
/// to 3 are never all zero.
pub open spec fn entry_present(entry: Seq<u8>) -> bool {
    !(entry[1] == 0 && entry[2] == 0 && entry[3] == 0)
}

/// The entry that a 12-byte log slot encodes.
pub open spec fn history_entry_of(e: Seq<u8>) -> Result<History, DecodeError> {
    match transaction_type_of(bits_u8(e, 0, 1)) {
        Err(err) => Err(err),
        Ok(t) => match en1545_instant(bits_u16(e, 1, 14), bits_u16(e, 15, 11)) {
            Err(err) => Err(err),
            Ok(boarding) => match en1545_instant(bits_u16(e, 26, 14), bits_u16(e, 40, 11)) {
                Err(err) => Err(err),
                Ok(transfer_end) => Ok(
                    History {
                        transaction_type: t,
                        boarding_datetime: boarding,
                        transfer_end_datetime: transfer_end,
                        ticket_fare_cents: bits_u16(e, 51, 14),
                        group_size: bits_u8(e, 65, 6),
                        remaining_value: bits_u32(e, 71, 20),
                    },
                ),
            },
        },
    }
}

/// Slot `i` of the log.
pub open spec fn slot(s: Seq<u8>, i: int) -> Seq<u8> {
    s.subrange(i * 12, i * 12 + 12)
}

/// The entries of the first `n` slots of the log, in order, empty slots
/// left out; or the error of the first entry that cannot be decoded.
pub open spec fn history_of(s: Seq<u8>, n: nat) -> Result<Seq<History>, DecodeError>
    decreases n,
{
    if n == 0 {
        Ok(Seq::empty())
    } else {
        match history_of(s, (n - 1) as nat) {
            Err(err) => Err(err),
            Ok(prev) => if !entry_present(slot(s, n - 1)) {
                Ok(prev)
            } else {
                match history_entry_of(slot(s, n - 1)) {
                    Err(err) => Err(err),
                    Ok(h) => Ok(prev.push(h)),
                }
            },
        }
    }
}

/// Once a slot cannot be decoded, the whole log cannot, with that error.
pub proof fn lemma_history_error_stays(s: Seq<u8>, n: nat, m: nat, e: DecodeError)
    requires
        n <= m,
        history_of(s, n) == Err::<Seq<History>, DecodeError>(e),
    ensures
        history_of(s, m) == Err::<Seq<History>, DecodeError>(e),
    decreases m - n,
{
    if n < m {
        lemma_history_error_stays(s, n, (m - 1) as nat, e);
    }
}

/// Decodes one 12-byte log slot.
pub fn create_history_entry(entry: &[u8]) -> (r: Result<History, DecodeError>)
    requires
        entry@.len() == HISTORY_ENTRY_BYTES,
    ensures
        r == history_entry_of(entry@),
{
    let transaction_type = read_u8(entry, 0, 1);
    let boarding_date = read_u16(entry, 1, 14);
    let boarding_time = read_u16(entry, 15, 11);
    let end_date = read_u16(entry, 26, 14);
    let end_time = read_u16(entry, 40, 11);
    let ticket_fare = read_u16(entry, 51, 14);
    let group_size = read_u8(entry, 65, 6);
    let remaining_value = read_u32(entry, 71, 20);
    let transaction_type = match TransactionType::new(transaction_type) {
        Ok(v) => v,
        Err(e) => return Err(e),
    };
    let boarding_datetime = match from_en1545_date_and_time(boarding_date, boarding_time) {
        Ok(v) => v,
        Err(e) => return Err(e),
    };
    let transfer_end_datetime = match from_en1545_date_and_time(end_date, end_time) {
        Ok(v) => v,
        Err(e) => return Err(e),
    };
    Ok(History {
        transaction_type,
        boarding_datetime,
        transfer_end_datetime,
        ticket_fare_cents: ticket_fare,
        group_size,
        remaining_value,
    })
}

/// Decodes the transaction log: one entry per whole 12-byte slot, in the
/// order of the slots, with the empty slots left out.
pub fn create_history_entries(history_bytes: &[u8]) -> (r: Result<Vec<History>, DecodeError>)
    ensures
        r matches Ok(v) ==> history_of(history_bytes@, history_bytes@.len() / 12) == Ok::<
            Seq<History>,
            DecodeError,
        >(v@),
        r matches Err(e) ==> history_of(history_bytes@, history_bytes@.len() / 12) == Err::<
            Seq<History>,
            DecodeError,
        >(e),
{
    let ghost s = history_bytes@;
    let num_entries = history_bytes.len() / HISTORY_ENTRY_BYTES;
    let mut entries: Vec<History> = Vec::new();
    let mut i: usize = 0;
    let mut start: usize = 0;
    proof {
        lemma_fundamental_div_mod(s.len() as int, 12);
    }
    while i < num_entries
        invariant
            0 <= i <= num_entries,
            start == i * 12,
            num_entries * 12 <= s.len(),
            s.len() == history_bytes.len(),
            num_entries == s.len() / 12,
            s == history_bytes@,
            history_of(s, i as nat) == Ok::<Seq<History>, DecodeError>(entries@),
        decreases num_entries - i,
    {
        let entry = slice_subrange(history_bytes, start, start + HISTORY_ENTRY_BYTES);
        assert(entry@ == slot(s, i as int));
        if entry[1] == 0 && entry[2] == 0 && entry[3] == 0 {
            i = i + 1;
            start = start + HISTORY_ENTRY_BYTES;
            continue;
        }
        match create_history_entry(entry) {
            Ok(h) => entries.push(h),
            Err(e) => {
                proof {
                    lemma_history_error_stays(s, (i + 1) as nat, num_entries as nat, e);
                }
                return Err(e);
            },
        }
        i = i + 1;
        start = start + HISTORY_ENTRY_BYTES;
    }
    Ok(entries)
}

/// A log of one used slot followed by an empty one decodes to exactly the
/// entry of the used slot.
pub proof fn lemma_empty_slot_left_out(s: Seq<u8>)
    requires
        s.len() == 24,
        forall|i: int| 12 <= i < 24 ==> s[i] == 0,
        entry_present(slot(s, 0)),
    ensures
        history_entry_of(slot(s, 0)) matches Ok(h) ==> history_of(s, s.len() / 12) == Ok::<
            Seq<History>,
            DecodeError,
        >(seq![h]),
        history_entry_of(slot(s, 0)) matches Err(e) ==> history_of(s, s.len() / 12) == Err::<
            Seq<History>,
            DecodeError,
        >(e),
{
    assert(s.len() / 12 == 2);
    assert(!entry_present(slot(s, 1)));
    assert(history_of(s, 0) == Ok::<Seq<History>, DecodeError>(Seq::empty()));
    assert(history_of(s, 1) == history_of(s, 2));
    if let Ok(h) = history_entry_of(slot(s, 0)) {
        assert(Seq::<History>::empty().push(h) =~= seq![h]);
    }
}

} // verus!
