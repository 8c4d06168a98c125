use vstd::prelude::*;
use vstd::slice::slice_subrange;

use crate::conversion::{as_hex_string, bits_u16, bits_u32, bits_u8, hex_of, read_flag, read_u16, read_u32, read_u8};
use crate::en1545date::{en1545_instant, from_en1545_date, from_en1545_date_and_time, utc_day, UtcDate, UtcDateTime};
use crate::error::{first_failure, DecodeError};
use crate::eticket::{create_e_ticket, e_ticket_error, is_e_ticket_of, ETicket};
use crate::history::{create_history_entries, history_of, History};
use crate::models::{
    boarding_area_of, boarding_direction_of, boarding_location_of, product_code_of, validity_area_of,
    BoardingArea, BoardingDirection, BoardingLocation, ProductCode, ValidityArea, ValidityAreaView,
};

verus! {

/// The fields of the application info file.
#[derive(Debug, Clone)]
pub struct ApplicationInfo {
    pub application_version: u8,
    pub application_key_version: u8,
    /// The card's unique id, in hexadecimal.
    pub application_instance_id: String,
    pub platform_type: u8,
    pub is_mac_protected: bool,
}

/// The fields of the control info file.
#[derive(Debug, Clone, Copy, PartialEq, Eq, Structural)]
pub struct ControlInfo {
    pub application_issuing_date: UtcDateTime,
    pub application_status: bool,
    pub application_unblocking_number: u8,
    pub application_transaction_counter: u32,
    pub action_list_counter: u32,
}

/// The fields of the stored value file.
#[derive(Debug, Clone, Copy, PartialEq, Eq, Structural)]
pub struct StoredValue {
    pub cents: u32,
    pub last_load_datetime: UtcDateTime,
    pub last_load_value: u32,
    pub last_load_organization_id: u16,
    pub last_load_device_num: u16,
}

/// The season pass file: two product slots (the current one and the one
/// from before the change of card format), the last load and the last
/// boarding.
#[derive(Debug, Clone)]
pub struct PeriodPass {
    pub product_code_1: ProductCode,
    pub validity_area_1: ValidityArea,
    pub period_start_date_1: UtcDate,
    pub period_end_date_1: UtcDate,
    pub product_code_2: ProductCode,
    pub validity_area_2: ValidityArea,
    pub period_start_date_2: UtcDate,
    pub period_end_date_2: UtcDate,
    pub loaded_period_product: ProductCode,
    pub loaded_period_datetime: UtcDateTime,
    pub loaded_period_length: u16,
    /// In cents.
    pub loaded_period_price: u32,
    pub loading_organization: u16,
    pub loading_device_number: u16,
    pub last_board_datetime: UtcDateTime,
    pub last_board_vehicle_number: u16,
    pub last_board_location: BoardingLocation,
    pub last_board_direction: BoardingDirection,
    pub last_board_area: BoardingArea,
}

/// Everything that the card's files hold.
#[derive(Debug, Clone)]
pub struct TravelCard {
    pub application_version: u8,
    pub application_key_version: u8,
    pub application_instance_id: String,
    pub platform_type: u8,
    pub is_mac_protected: bool,
    pub application_issuing_date: UtcDateTime,
    pub application_status: bool,
    pub application_unblocking_number: u8,
    pub application_transaction_counter: u32,
    pub action_list_counter: u32,
    pub period_pass: PeriodPass,
    pub stored_value_cents: u32,
    pub last_load_datetime: UtcDateTime,
    pub last_load_value: u32,
    pub last_load_organization_id: u16,
    pub last_load_device_num: u16,
    pub e_ticket: ETicket,
    pub history: Vec<History>,
}

/// The numbers of bits that the layouts of the files cover.
pub const APPLICATION_INFO_BITS: usize = 84;

pub const CONTROL_INFO_BITS: usize = 80;

pub const PERIOD_PASS_BITS: usize = 272;

pub const STORED_VALUE_BITS: usize = 93;

pub open spec fn application_info_error(s: Seq<u8>) -> Option<DecodeError> {
    first_failure(s.len() * 8 >= APPLICATION_INFO_BITS, true, true)
}

pub open spec fn is_application_info_of(i: ApplicationInfo, s: Seq<u8>) -> bool {
    &&& i.application_version == bits_u8(s, 0, 4)
    &&& i.application_key_version == bits_u8(s, 4, 4)
    &&& i.application_instance_id@ == hex_of(s.subrange(1, 10))
    &&& i.platform_type == bits_u8(s, 80, 3)
    &&& i.is_mac_protected == (bits_u8(s, 83, 1) != 0)
}

/// Decodes the application info file.
pub fn read_application_info(app_info: &[u8]) -> (r: Result<ApplicationInfo, DecodeError>)
    ensures
        r matches Ok(i) ==> application_info_error(app_info@) is None && is_application_info_of(i, app_info@),
        r matches Err(e) ==> application_info_error(app_info@) == Some(e),
{
    if app_info.len() < 11 {
        return Err(DecodeError::OutOfRange);
    }
    Ok(ApplicationInfo {
        application_version: read_u8(app_info, 0, 4),
        application_key_version: read_u8(app_info, 4, 4),
        application_instance_id: as_hex_string(slice_subrange(app_info, 1, 10)),
        platform_type: read_u8(app_info, 80, 3),
        is_mac_protected: read_flag(app_info, 83),
    })
}

pub open spec fn control_info_error(s: Seq<u8>) -> Option<DecodeError> {
    first_failure(s.len() * 8 >= CONTROL_INFO_BITS, true, en1545_instant(bits_u16(s, 0, 14), 0) is Ok)
}

pub open spec fn is_control_info_of(i: ControlInfo, s: Seq<u8>) -> bool {
    &&& en1545_instant(bits_u16(s, 0, 14), 0) == Ok::<UtcDateTime, DecodeError>(i.application_issuing_date)
    &&& i.application_status == (bits_u8(s, 14, 1) != 0)
    &&& i.application_unblocking_number == bits_u8(s, 16, 8)
    &&& i.application_transaction_counter == bits_u32(s, 24, 24)
    &&& i.action_list_counter == bits_u32(s, 48, 32)
}

/// Decodes the control info file.
pub fn read_control_info(control_info: &[u8]) -> (r: Result<ControlInfo, DecodeError>)
    ensures
        r matches Ok(i) ==> control_info_error(control_info@) is None && is_control_info_of(i, control_info@),
        r matches Err(e) ==> control_info_error(control_info@) == Some(e),
{
    if control_info.len() < 10 {
        return Err(DecodeError::OutOfRange);
    }
    let issuing_date = read_u16(control_info, 0, 14);
    let application_status = read_flag(control_info, 14);
    // Bit 15 is reserved.
    let application_unblocking_number = read_u8(control_info, 16, 8);
    let application_transaction_counter = read_u32(control_info, 24, 24);
    let action_list_counter = read_u32(control_info, 48, 32);
    let application_issuing_date = match from_en1545_date(issuing_date) {
        Ok(v) => v,
        Err(e) => return Err(e),
    };
    Ok(ControlInfo {
        application_issuing_date,
        application_status,
        application_unblocking_number,
        application_transaction_counter,
        action_list_counter,
    })
}

pub open spec fn stored_value_error(s: Seq<u8>) -> Option<DecodeError> {
    first_failure(
        s.len() * 8 >= STORED_VALUE_BITS,
        true,
        en1545_instant(bits_u16(s, 20, 14), bits_u16(s, 34, 11)) is Ok,
    )
}

pub open spec fn is_stored_value_of(v: StoredValue, s: Seq<u8>) -> bool {
    &&& v.cents == bits_u32(s, 0, 20)
    &&& en1545_instant(bits_u16(s, 20, 14), bits_u16(s, 34, 11)) == Ok::<UtcDateTime, DecodeError>(
        v.last_load_datetime,
    )
    &&& v.last_load_value == bits_u32(s, 45, 20)
    &&& v.last_load_organization_id == bits_u16(s, 65, 14)
    &&& v.last_load_device_num == bits_u16(s, 79, 14)
}

/// Decodes the stored value file.
pub fn read_stored_value(stored_value: &[u8]) -> (r: Result<StoredValue, DecodeError>)
    ensures
        r matches Ok(v) ==> stored_value_error(stored_value@) is None && is_stored_value_of(v, stored_value@),
        r matches Err(e) ==> stored_value_error(stored_value@) == Some(e),
{
    if stored_value.len() < 12 {
        return Err(DecodeError::OutOfRange);
    }
    let cents = read_u32(stored_value, 0, 20);
    let last_load_date = read_u16(stored_value, 20, 14);
    let last_load_time = read_u16(stored_value, 34, 11);
    let last_load_value = read_u32(stored_value, 45, 20);
    let last_load_organization_id = read_u16(stored_value, 65, 14);
    let last_load_device_num = read_u16(stored_value, 79, 14);
    let last_load_datetime = match from_en1545_date_and_time(last_load_date, last_load_time) {
        Ok(v) => v,
        Err(e) => return Err(e),
    };
    Ok(StoredValue {
        cents,
        last_load_datetime,
        last_load_value,
        last_load_organization_id,
        last_load_device_num,
    })
}

/// The UTC calendar day of Helsinki midnight starting EN1545 day `days`.
pub open spec fn en1545_utc_date(days: u16) -> Result<UtcDate, DecodeError> {
    match en1545_instant(days, 0) {
        Ok(t) => Ok(UtcDate { unix_days: utc_day(t.unix_seconds) as i64 }),
        Err(e) => Err(e),
    }
}

fn utc_date_of_en1545(days: u16) -> (r: Result<UtcDate, DecodeError>)
    ensures
        r == en1545_utc_date(days),
{
    match from_en1545_date(days) {
        Ok(t) => Ok(t.date()),
        Err(e) => Err(e),
    }
}

pub open spec fn period_pass_tags_known(s: Seq<u8>) -> bool {
    &&& validity_area_of(bits_u8(s, 15, 2), bits_u8(s, 17, 6)) is Ok
    &&& validity_area_of(bits_u8(s, 71, 2), bits_u8(s, 73, 6)) is Ok
    &&& boarding_location_of(bits_u8(s, 247, 2), bits_u16(s, 249, 14)) is Ok
    &&& boarding_direction_of(bits_u8(s, 263, 1)) is Ok
    &&& boarding_area_of(bits_u8(s, 264, 2), bits_u8(s, 266, 6)) is Ok
}

pub open spec fn period_pass_dates_valid(s: Seq<u8>) -> bool {
    &&& en1545_utc_date(bits_u16(s, 23, 14)) is Ok
    &&& en1545_utc_date(bits_u16(s, 37, 14)) is Ok
    &&& en1545_utc_date(bits_u16(s, 79, 14)) is Ok
    &&& en1545_utc_date(bits_u16(s, 93, 14)) is Ok
    &&& en1545_instant(bits_u16(s, 127, 14), bits_u16(s, 141, 11)) is Ok
    &&& en1545_instant(bits_u16(s, 208, 14), bits_u16(s, 222, 11)) is Ok
}

pub open spec fn period_pass_error(s: Seq<u8>) -> Option<DecodeError> {
    first_failure(s.len() * 8 >= PERIOD_PASS_BITS, period_pass_tags_known(s), period_pass_dates_valid(s))
}

pub open spec fn is_period_pass_of(p: PeriodPass, s: Seq<u8>) -> bool {
    &&& p.product_code_1 == product_code_of(bits_u8(s, 0, 1), bits_u16(s, 1, 14))
    &&& validity_area_of(bits_u8(s, 15, 2), bits_u8(s, 17, 6)) == Ok::<ValidityAreaView, DecodeError>(
        p.validity_area_1@,
    )
    &&& en1545_utc_date(bits_u16(s, 23, 14)) == Ok::<UtcDate, DecodeError>(p.period_start_date_1)
    &&& en1545_utc_date(bits_u16(s, 37, 14)) == Ok::<UtcDate, DecodeError>(p.period_end_date_1)
    &&& p.product_code_2 == product_code_of(bits_u8(s, 56, 1), bits_u16(s, 57, 14))
    &&& validity_area_of(bits_u8(s, 71, 2), bits_u8(s, 73, 6)) == Ok::<ValidityAreaView, DecodeError>(
        p.validity_area_2@,
    )
    &&& en1545_utc_date(bits_u16(s, 79, 14)) == Ok::<UtcDate, DecodeError>(p.period_start_date_2)
    &&& en1545_utc_date(bits_u16(s, 93, 14)) == Ok::<UtcDate, DecodeError>(p.period_end_date_2)
    &&& p.loaded_period_product == product_code_of(bits_u8(s, 112, 1), bits_u16(s, 113, 14))
    &&& en1545_instant(bits_u16(s, 127, 14), bits_u16(s, 141, 11)) == Ok::<UtcDateTime, DecodeError>(
        p.loaded_period_datetime,
    )
    &&& p.loaded_period_length == bits_u16(s, 152, 9)
    &&& p.loaded_period_price == bits_u32(s, 161, 20)
    &&& p.loading_organization == bits_u16(s, 181, 14)
    &&& p.loading_device_number == bits_u16(s, 195, 13)
    &&& en1545_instant(bits_u16(s, 208, 14), bits_u16(s, 222, 11)) == Ok::<UtcDateTime, DecodeError>(
        p.last_board_datetime,
    )
    &&& p.last_board_vehicle_number == bits_u16(s, 233, 14)
    &&& boarding_location_of(bits_u8(s, 247, 2), bits_u16(s, 249, 14)) == Ok::<
        BoardingLocation,
        DecodeError,
    >(p.last_board_location)
    &&& boarding_direction_of(bits_u8(s, 263, 1)) == Ok::<BoardingDirection, DecodeError>(
        p.last_board_direction,
    )
    &&& boarding_area_of(bits_u8(s, 264, 2), bits_u8(s, 266, 6)) == Ok::<BoardingArea, DecodeError>(
        p.last_board_area,
    )
}

/// Decodes the period pass file.
pub fn read_period_pass(period_pass: &[u8]) -> (r: Result<PeriodPass, DecodeError>)
    ensures
        r matches Ok(p) ==> period_pass_error(period_pass@) is None && is_period_pass_of(p, period_pass@),
        r matches Err(e) ==> period_pass_error(period_pass@) == Some(e),
{
    if period_pass.len() < 34 {
        return Err(DecodeError::OutOfRange);
    }
    let product_code_type_1 = read_u8(period_pass, 0, 1);
    let product_code_1 = read_u16(period_pass, 1, 14);
    let validity_area_type_1 = read_u8(period_pass, 15, 2);
    let validity_area_1 = read_u8(period_pass, 17, 6);
    let start_date_1 = read_u16(period_pass, 23, 14);
    let end_date_1 = read_u16(period_pass, 37, 14);
    let product_code_type_2 = read_u8(period_pass, 56, 1);
    let product_code_2 = read_u16(period_pass, 57, 14);
    let validity_area_type_2 = read_u8(period_pass, 71, 2);
    let validity_area_2 = read_u8(period_pass, 73, 6);
    let start_date_2 = read_u16(period_pass, 79, 14);
    let end_date_2 = read_u16(period_pass, 93, 14);

    let loaded_period_product_type = read_u8(period_pass, 112, 1);
    let loaded_period_product = read_u16(period_pass, 113, 14);
    let loaded_period_date = read_u16(period_pass, 127, 14);
    let loaded_period_time = read_u16(period_pass, 141, 11);
    let loaded_period_length = read_u16(period_pass, 152, 9);
    let loaded_period_price = read_u32(period_pass, 161, 20);
    let loading_organization = read_u16(period_pass, 181, 14);
    let loading_device_number = read_u16(period_pass, 195, 13);

    let last_board_date = read_u16(period_pass, 208, 14);
    let last_board_time = read_u16(period_pass, 222, 11);
    let last_board_vehicle_number = read_u16(period_pass, 233, 14);
    let last_board_location_type = read_u8(period_pass, 247, 2);
    let last_board_location_number = read_u16(period_pass, 249, 14);
    let last_board_direction = read_u8(period_pass, 263, 1);
    let last_board_area_type = read_u8(period_pass, 264, 2);
    let last_board_area = read_u8(period_pass, 266, 6);

    let validity_area_1 = match ValidityArea::new(validity_area_type_1, validity_area_1) {
        Ok(v) => v,
        Err(e) => return Err(e),
    };
    let validity_area_2 = match ValidityArea::new(validity_area_type_2, validity_area_2) {
        Ok(v) => v,
        Err(e) => return Err(e),
    };
    let last_board_location = match BoardingLocation::new(last_board_location_type, last_board_location_number) {
        Ok(v) => v,
        Err(e) => return Err(e),
    };
    let last_board_direction = match BoardingDirection::new(last_board_direction) {
        Ok(v) => v,
        Err(e) => return Err(e),
    };
    let last_board_area = match BoardingArea::new(last_board_area_type, last_board_area) {
        Ok(v) => v,
        Err(e) => return Err(e),
    };

    let period_start_date_1 = match utc_date_of_en1545(start_date_1) {
        Ok(v) => v,
        Err(e) => return Err(e),
    };
    let period_end_date_1 = match utc_date_of_en1545(end_date_1) {
        Ok(v) => v,
        Err(e) => return Err(e),
    };
    let period_start_date_2 = match utc_date_of_en1545(start_date_2) {
        Ok(v) => v,
        Err(e) => return Err(e),
    };
    let period_end_date_2 = match utc_date_of_en1545(end_date_2) {
        Ok(v) => v,
        Err(e) => return Err(e),
    };
    let loaded_period_datetime = match from_en1545_date_and_time(loaded_period_date, loaded_period_time) {
        Ok(v) => v,
        Err(e) => return Err(e),
    };
    let last_board_datetime = match from_en1545_date_and_time(last_board_date, last_board_time) {
        Ok(v) => v,
        Err(e) => return Err(e),
    };

    Ok(PeriodPass {
        product_code_1: ProductCode::new(product_code_type_1, product_code_1),
        validity_area_1,
        period_start_date_1,
        period_end_date_1,
        product_code_2: ProductCode::new(product_code_type_2, product_code_2),
        validity_area_2,
        period_start_date_2,
        period_end_date_2,
        loaded_period_product: ProductCode::new(loaded_period_product_type, loaded_period_product),
        loaded_period_datetime,
        loaded_period_length,
        loaded_period_price,
        loading_organization,
        loading_device_number,
        last_board_datetime,
        last_board_vehicle_number,
        last_board_location,
        last_board_direction,
        last_board_area,
    })
}

/// Why the card's files do not decode, if they do not: the error of the
/// first file that fails, in the order application info, control info,
/// period pass, stored value, e-ticket, history.
pub open spec fn travel_card_error(
    app_info: Seq<u8>,
    control_info: Seq<u8>,
    period_pass: Seq<u8>,
    stored_value: Seq<u8>,
    e_ticket: Seq<u8>,
    history: Seq<u8>,
) -> Option<DecodeError> {
    if application_info_error(app_info) is Some {
        application_info_error(app_info)
    } else if control_info_error(control_info) is Some {
        control_info_error(control_info)
    } else if period_pass_error(period_pass) is Some {
        period_pass_error(period_pass)
    } else if stored_value_error(stored_value) is Some {
        stored_value_error(stored_value)
    } else if e_ticket_error(e_ticket) is Some {
        e_ticket_error(e_ticket)
    } else {
        match history_of(history, history.len() / 12) {
            Ok(_) => None,
            Err(e) => Some(e),
        }
    }
}

/// `c` holds what the card's files encode.
pub open spec fn is_travel_card_of(
    c: TravelCard,
    app_info: Seq<u8>,
    control_info: Seq<u8>,
    period_pass: Seq<u8>,
    stored_value: Seq<u8>,
    e_ticket: Seq<u8>,
    history: Seq<u8>,
) -> bool {
    &&& is_application_info_of(
        ApplicationInfo {
            application_version: c.application_version,
            application_key_version: c.application_key_version,
            application_instance_id: c.application_instance_id,
            platform_type: c.platform_type,
            is_mac_protected: c.is_mac_protected,
        },
        app_info,
    )
    &&& is_control_info_of(
        ControlInfo {
            application_issuing_date: c.application_issuing_date,
            application_status: c.application_status,
            application_unblocking_number: c.application_unblocking_number,
            application_transaction_counter: c.application_transaction_counter,
            action_list_counter: c.action_list_counter,
        },
        control_info,
    )
    &&& is_period_pass_of(c.period_pass, period_pass)
    &&& is_stored_value_of(
        StoredValue {
            cents: c.stored_value_cents,
            last_load_datetime: c.last_load_datetime,
            last_load_value: c.last_load_value,
            last_load_organization_id: c.last_load_organization_id,
            last_load_device_num: c.last_load_device_num,
        },
        stored_value,
    )
    &&& is_e_ticket_of(c.e_ticket, e_ticket)
    &&& history_of(history, history.len() / 12) == Ok::<Seq<History>, DecodeError>(c.history@)
}

/// Decodes each of the card's files once and puts the records together. The
/// history is the buffer that the frame assembler stitched.
pub fn create_travel_card(
    app_info: &[u8],
    control_info: &[u8],
    period_pass: &[u8],
    stored_value: &[u8],
    e_ticket: &[u8],
    history: &[u8],
) -> (r: Result<TravelCard, DecodeError>)
    ensures
        r matches Ok(c) ==> travel_card_error(app_info@, control_info@, period_pass@, stored_value@, e_ticket@, history@) is None
            && is_travel_card_of(c, app_info@, control_info@, period_pass@, stored_value@, e_ticket@, history@),
        r matches Err(e) ==> travel_card_error(app_info@, control_info@, period_pass@, stored_value@, e_ticket@, history@) == Some(e),
{
    let app = match read_application_info(app_info) {
        Ok(v) => v,
        Err(e) => return Err(e),
    };
    let control = match read_control_info(control_info) {
        Ok(v) => v,
        Err(e) => return Err(e),
    };
    let period_pass = match read_period_pass(period_pass) {
        Ok(v) => v,
        Err(e) => return Err(e),
    };
    let stored = match read_stored_value(stored_value) {
        Ok(v) => v,
        Err(e) => return Err(e),
    };
    let e_ticket = match create_e_ticket(e_ticket) {
        Ok(v) => v,
        Err(e) => return Err(e),
    };
    let history = match create_history_entries(history) {
        Ok(v) => v,
        Err(e) => return Err(e),
    };
    Ok(TravelCard {
        application_version: app.application_version,
        application_key_version: app.application_key_version,
        application_instance_id: app.application_instance_id,
        platform_type: app.platform_type,
        is_mac_protected: app.is_mac_protected,
        application_issuing_date: control.application_issuing_date,
        application_status: control.application_status,
        application_unblocking_number: control.application_unblocking_number,
        application_transaction_counter: control.application_transaction_counter,
        action_list_counter: control.action_list_counter,
        period_pass,
        stored_value_cents: stored.cents,
        last_load_datetime: stored.last_load_datetime,
        last_load_value: stored.last_load_value,
        last_load_organization_id: stored.last_load_organization_id,
        last_load_device_num: stored.last_load_device_num,
        e_ticket,
        history,
    })
}

} // verus!
