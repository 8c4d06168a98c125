use vstd::arithmetic::power2::lemma2_to64;
use vstd::prelude::*;

use crate::conversion::{bits_u16, bits_u8, lemma_bits_value_bound, read_flag, read_u16, read_u8};
use crate::en1545date::{en1545_instant, from_en1545_date_and_time, UtcDateTime};
use crate::error::{first_failure, group_or_single, DecodeError};
use crate::models::{
    boarding_area_of, boarding_direction_of, boarding_location_of, language_of, product_code_of,
    sale_device_of, validity_area_of, validity_length_of, BoardingArea, BoardingDirection,
    BoardingLocation, Language, ProductCode, SaleDevice, ValidityArea, ValidityAreaView,
    ValidityLength,
};

verus! {

/// The active single-use ticket on the card.
#[derive(Debug, Clone)]
pub struct ETicket {
    /// The group's product code when it is set, else the traveller's.
    pub product_code: ProductCode,
    /// The group's customer profile when it is set, else the traveller's.
    pub customer_profile: u8,
    pub language: Language,
    /// The group's validity length when it is set, else the traveller's.
    pub validity_length: ValidityLength,
    pub validity_area: ValidityArea,
    /// The hour of sale: the card keeps no minutes for it.
    pub sale_datetime: UtcDateTime,
    pub sale_device: SaleDevice,
    /// The group's fare when it is set, else the traveller's.
    pub ticket_fare_cents: u16,
    pub group_size: u8,
    /// Whether this ticket adds a zone to a period pass.
    pub extra_zone: bool,
    /// The validity area of the period pass that the extra zone extends.
    pub period_pass_validity_area: ValidityArea,
    pub extension_product_code: ProductCode,
    pub extension_1_validity_area: ValidityArea,
    pub extension_1_fare_cents: u16,
    pub extension_2_validity_area: ValidityArea,
    pub extension_2_fare_cents: u16,
    pub sale_status: bool,
    pub validity_start_datetime: UtcDateTime,
    /// The group's end date and time where they are set, else the traveller's.
    pub validity_end_datetime: UtcDateTime,
    /// Whether the ticket is valid now.
    pub validity_status: bool,
    pub boarding_datetime: UtcDateTime,
    pub boarding_vehicle: u16,
    pub boarding_location: BoardingLocation,
    pub boarding_direction: BoardingDirection,
    pub boarding_area: BoardingArea,
}

/// The number of bits that the e-ticket layout covers.
pub const E_TICKET_BITS: usize = 350;

/// Resolves a field stored once for a traveller and once for a group.
pub fn single_or_group(single: u16, group: u16) -> (r: u16)
    ensures
        r == group_or_single(single as int, group as int),
{
    if group > 0 {
        group
    } else {
        single
    }
}

/// `single_or_group` for 8-bit fields.
pub fn single_or_group_u8(single: u8, group: u8) -> (r: u8)
    ensures
        r == group_or_single(single as int, group as int),
{
    if group > 0 {
        group
    } else {
        single
    }
}

pub open spec fn e_ticket_length_type(s: Seq<u8>) -> u8 {
    group_or_single(bits_u8(s, 41, 2) as int, bits_u8(s, 51, 2) as int) as u8
}

pub open spec fn e_ticket_length_value(s: Seq<u8>) -> u8 {
    group_or_single(bits_u8(s, 43, 8) as int, bits_u8(s, 53, 8) as int) as u8
}

pub open spec fn e_ticket_sale_instant(s: Seq<u8>) -> Result<UtcDateTime, DecodeError> {
    en1545_instant(bits_u16(s, 69, 14), (bits_u16(s, 83, 5) * 60) as u16)
}

pub open spec fn e_ticket_start_instant(s: Seq<u8>) -> Result<UtcDateTime, DecodeError> {
    en1545_instant(bits_u16(s, 205, 14), bits_u16(s, 219, 11))
}

pub open spec fn e_ticket_end_instant(s: Seq<u8>) -> Result<UtcDateTime, DecodeError> {
    en1545_instant(
        group_or_single(bits_u16(s, 230, 14) as int, bits_u16(s, 255, 14) as int) as u16,
        group_or_single(bits_u16(s, 244, 11) as int, bits_u16(s, 269, 11) as int) as u16,
    )
}

pub open spec fn e_ticket_boarding_instant(s: Seq<u8>) -> Result<UtcDateTime, DecodeError> {
    en1545_instant(bits_u16(s, 286, 14), bits_u16(s, 300, 11))
}

/// Every tag field of the e-ticket has a known variant.
pub open spec fn e_ticket_tags_known(s: Seq<u8>) -> bool {
    &&& language_of(bits_u8(s, 39, 2)) is Ok
    &&& validity_length_of(e_ticket_length_type(s), e_ticket_length_value(s)) is Ok
    &&& validity_area_of(bits_u8(s, 61, 2), bits_u8(s, 63, 6)) is Ok
    &&& sale_device_of(bits_u8(s, 88, 3), bits_u16(s, 91, 14)) is Ok
    &&& boarding_location_of(bits_u8(s, 325, 2), bits_u16(s, 327, 14)) is Ok
    &&& boarding_direction_of(bits_u8(s, 341, 1)) is Ok
    &&& boarding_area_of(bits_u8(s, 342, 2), bits_u8(s, 344, 6)) is Ok
}

/// Every day and time of the e-ticket stands for an instant.
pub open spec fn e_ticket_dates_valid(s: Seq<u8>) -> bool {
    &&& e_ticket_sale_instant(s) is Ok
    &&& e_ticket_start_instant(s) is Ok
    &&& e_ticket_end_instant(s) is Ok
    &&& e_ticket_boarding_instant(s) is Ok
}

/// Why `s` is no e-ticket, if it is not one.
pub open spec fn e_ticket_error(s: Seq<u8>) -> Option<DecodeError> {
    first_failure(s.len() * 8 >= E_TICKET_BITS, e_ticket_tags_known(s), e_ticket_dates_valid(s))
}

/// `t` holds the fields that `s` encodes.
pub open spec fn is_e_ticket_of(t: ETicket, s: Seq<u8>) -> bool {
    &&& t.product_code == product_code_of(
        bits_u8(s, 0, 1),
        group_or_single(bits_u16(s, 1, 14) as int, bits_u16(s, 15, 14) as int) as u16,
    )
    &&& t.customer_profile == group_or_single(bits_u8(s, 29, 5) as int, bits_u8(s, 34, 5) as int) as u8
    &&& language_of(bits_u8(s, 39, 2)) == Ok::<Language, DecodeError>(t.language)
    &&& validity_length_of(e_ticket_length_type(s), e_ticket_length_value(s)) == Ok::<
        ValidityLength,
        DecodeError,
    >(t.validity_length)
    &&& validity_area_of(bits_u8(s, 61, 2), bits_u8(s, 63, 6)) == Ok::<ValidityAreaView, DecodeError>(
        t.validity_area@,
    )
    &&& e_ticket_sale_instant(s) == Ok::<UtcDateTime, DecodeError>(t.sale_datetime)
    &&& sale_device_of(bits_u8(s, 88, 3), bits_u16(s, 91, 14)) == Ok::<SaleDevice, DecodeError>(
        t.sale_device,
    )
    &&& t.ticket_fare_cents == group_or_single(bits_u16(s, 105, 14) as int, bits_u16(s, 119, 14) as int) as u16
    &&& t.group_size == bits_u8(s, 133, 6)
    &&& t.extra_zone == (bits_u8(s, 139, 1) != 0)
    &&& t.period_pass_validity_area@ == ValidityAreaView::OldZone(bits_u8(s, 140, 6))
    &&& t.extension_product_code == ProductCode::FaresFor2014(bits_u16(s, 146, 14))
    &&& t.extension_1_validity_area@ == ValidityAreaView::OldZone(bits_u8(s, 160, 6))
    &&& t.extension_1_fare_cents == bits_u16(s, 166, 14)
    &&& t.extension_2_validity_area@ == ValidityAreaView::OldZone(bits_u8(s, 180, 6))
    &&& t.extension_2_fare_cents == bits_u16(s, 186, 14)
    &&& t.sale_status == (bits_u8(s, 200, 1) != 0)
    &&& e_ticket_start_instant(s) == Ok::<UtcDateTime, DecodeError>(t.validity_start_datetime)
    &&& e_ticket_end_instant(s) == Ok::<UtcDateTime, DecodeError>(t.validity_end_datetime)
    &&& t.validity_status == (bits_u8(s, 285, 1) != 0)
    &&& e_ticket_boarding_instant(s) == Ok::<UtcDateTime, DecodeError>(t.boarding_datetime)
    &&& t.boarding_vehicle == bits_u16(s, 311, 14)
    &&& boarding_location_of(bits_u8(s, 325, 2), bits_u16(s, 327, 14)) == Ok::<
        BoardingLocation,
        DecodeError,
    >(t.boarding_location)
    &&& boarding_direction_of(bits_u8(s, 341, 1)) == Ok::<BoardingDirection, DecodeError>(
        t.boarding_direction,
    )
    &&& boarding_area_of(bits_u8(s, 342, 2), bits_u8(s, 344, 6)) == Ok::<BoardingArea, DecodeError>(
        t.boarding_area,
    )
}

/// Decodes the e-ticket file.
pub fn create_e_ticket(e_ticket: &[u8]) -> (r: Result<ETicket, DecodeError>)
    ensures
        r matches Ok(t) ==> e_ticket_error(e_ticket@) is None && is_e_ticket_of(t, e_ticket@),
        r matches Err(e) ==> e_ticket_error(e_ticket@) == Some(e),
{
    let ghost s = e_ticket@;
    if e_ticket.len() < 44 {
        return Err(DecodeError::OutOfRange);
    }
    let product_code_type = read_u8(e_ticket, 0, 1);
    let product_code_value = read_u16(e_ticket, 1, 14);
    let product_code_group_value = read_u16(e_ticket, 15, 14);
    let product_code = single_or_group(product_code_value, product_code_group_value);

    let customer_profile_value = read_u8(e_ticket, 29, 5);
    let customer_profile_group_value = read_u8(e_ticket, 34, 5);
    let customer_profile = single_or_group_u8(customer_profile_value, customer_profile_group_value);
    let language_code = read_u8(e_ticket, 39, 2);

    let length_type_value = read_u8(e_ticket, 41, 2);
    let length_value = read_u8(e_ticket, 43, 8);
    let length_type_group_value = read_u8(e_ticket, 51, 2);
    let length_group_value = read_u8(e_ticket, 53, 8);
    let length_type = single_or_group_u8(length_type_value, length_type_group_value);
    let length = single_or_group_u8(length_value, length_group_value);
    let area_type = read_u8(e_ticket, 61, 2);
    let area_value = read_u8(e_ticket, 63, 6);

    let sale_date = read_u16(e_ticket, 69, 14);
    let sale_hour = read_u16(e_ticket, 83, 5);
    proof {
        lemma_bits_value_bound(s, 83, 5);
        lemma2_to64();
    }
    // Only the hour of sale is kept; it is handed on as minutes.
    let sale_minutes = sale_hour * 60;
    let sale_device_type = read_u8(e_ticket, 88, 3);
    let sale_device_number = read_u16(e_ticket, 91, 14);

    let fare_value = read_u16(e_ticket, 105, 14);
    let fare_group_value = read_u16(e_ticket, 119, 14);
    let ticket_fare = single_or_group(fare_value, fare_group_value);
    let group_size = read_u8(e_ticket, 133, 6);
    let extra_zone = read_flag(e_ticket, 139);

    let period_pass_area = read_u8(e_ticket, 140, 6);
    let extension_product_code = read_u16(e_ticket, 146, 14);
    let extension_1_area = read_u8(e_ticket, 160, 6);
    let extension_1_fare_cents = read_u16(e_ticket, 166, 14);
    let extension_2_area = read_u8(e_ticket, 180, 6);
    let extension_2_fare_cents = read_u16(e_ticket, 186, 14);
    let sale_status = read_flag(e_ticket, 200);

    let start_date = read_u16(e_ticket, 205, 14);
    let start_time = read_u16(e_ticket, 219, 11);
    let end_date_value = read_u16(e_ticket, 230, 14);
    let end_time_value = read_u16(e_ticket, 244, 11);
    let end_date_group_value = read_u16(e_ticket, 255, 14);
    let end_time_group_value = read_u16(e_ticket, 269, 11);
    let validity_status = read_flag(e_ticket, 285);

    let boarding_date = read_u16(e_ticket, 286, 14);
    let boarding_time = read_u16(e_ticket, 300, 11);
    let boarding_vehicle = read_u16(e_ticket, 311, 14);
    let boarding_location_type = read_u8(e_ticket, 325, 2);
    let boarding_location_number = read_u16(e_ticket, 327, 14);
    let boarding_direction = read_u8(e_ticket, 341, 1);
    let boarding_area_type = read_u8(e_ticket, 342, 2);
    let boarding_area_value = read_u8(e_ticket, 344, 6);

    let language = match Language::from_code(language_code) {
        Ok(v) => v,
        Err(e) => return Err(e),
    };
    let validity_length = match ValidityLength::new(length_type, length) {
        Ok(v) => v,
        Err(e) => return Err(e),
    };
    let validity_area = match ValidityArea::new(area_type, area_value) {
        Ok(v) => v,
        Err(e) => return Err(e),
    };
    let sale_device = match SaleDevice::new(sale_device_type, sale_device_number) {
        Ok(v) => v,
        Err(e) => return Err(e),
    };
    let boarding_location = match BoardingLocation::new(boarding_location_type, boarding_location_number) {
        Ok(v) => v,
        Err(e) => return Err(e),
    };
    let boarding_direction = match BoardingDirection::new(boarding_direction) {
        Ok(v) => v,
        Err(e) => return Err(e),
    };
    let boarding_area = match BoardingArea::new(boarding_area_type, boarding_area_value) {
        Ok(v) => v,
        Err(e) => return Err(e),
    };

    let sale_datetime = match from_en1545_date_and_time(sale_date, sale_minutes) {
        Ok(v) => v,
        Err(e) => return Err(e),
    };
    let validity_start_datetime = match from_en1545_date_and_time(start_date, start_time) {
        Ok(v) => v,
        Err(e) => return Err(e),
    };
    let validity_end_datetime = match from_en1545_date_and_time(
        single_or_group(end_date_value, end_date_group_value),
        single_or_group(end_time_value, end_time_group_value),
    ) {
        Ok(v) => v,
        Err(e) => return Err(e),
    };
    let boarding_datetime = match from_en1545_date_and_time(boarding_date, boarding_time) {
        Ok(v) => v,
        Err(e) => return Err(e),
    };

    Ok(ETicket {
        product_code: ProductCode::new(product_code_type, product_code),
        customer_profile,
        language,
        validity_length,
        validity_area,
        sale_datetime,
        sale_device,
        ticket_fare_cents: ticket_fare,
        group_size,
        extra_zone,
        period_pass_validity_area: ValidityArea::OldZone(period_pass_area),
        extension_product_code: ProductCode::FaresFor2014(extension_product_code),
        extension_1_validity_area: ValidityArea::OldZone(extension_1_area),
        extension_1_fare_cents,
        extension_2_validity_area: ValidityArea::OldZone(extension_2_area),
        extension_2_fare_cents,
        sale_status,
        validity_start_datetime,
        validity_end_datetime,
        validity_status,
        boarding_datetime,
        boarding_vehicle,
        boarding_location,
        boarding_direction,
        boarding_area,
    })
}

} // verus!
