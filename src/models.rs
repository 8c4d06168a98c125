use vstd::prelude::*;

use crate::error::DecodeError;

verus! {

/// Whether a product uses the fares and zones of 2010 or of 2014.
#[derive(Debug, Clone, Copy, PartialEq, Eq, Structural)]
pub enum ProductCode {
    FaresFor2010(u16),
    FaresFor2014(u16),
}

/// The tag value of `ProductCode::FaresFor2010`.
pub const FARES_2010_TYPE: u8 = 0;

/// The tag value of `ProductCode::FaresFor2014`.
pub const FARES_2014_TYPE: u8 = 1;

/// The product code for a 1-bit tag and its value: 0 is the 2010 fare
/// system, anything else the 2014 one.
pub open spec fn product_code_of(code_type: u8, value: u16) -> ProductCode {
    if code_type == FARES_2010_TYPE {
        ProductCode::FaresFor2010(value)
    } else {
        ProductCode::FaresFor2014(value)
    }
}

impl ProductCode {
    pub fn new(code_type: u8, value: u16) -> (r: ProductCode)
        ensures
            r == product_code_of(code_type, value),
    {
        if code_type == FARES_2010_TYPE {
            ProductCode::FaresFor2010(value)
        } else {
            ProductCode::FaresFor2014(value)
        }
    }

    /// The code itself, whichever fare system it belongs to.
    pub fn value(&self) -> (r: u16)
        ensures
            r == match *self {
                ProductCode::FaresFor2010(v) => v,
                ProductCode::FaresFor2014(v) => v,
            },
    {
        match *self {
            ProductCode::FaresFor2010(v) => v,
            ProductCode::FaresFor2014(v) => v,
        }
    }
}

/// The kind and number of the element that was boarded.
#[derive(Debug, Clone, Copy, PartialEq, Eq, Structural)]
pub enum BoardingLocation {
    NoneOrReserved,
    BusNumber(u16),
    TrainNumber(u16),
    PlatformNumber(u16),
}

/// The boarding location for a 2-bit tag and a number.
pub open spec fn boarding_location_of(tag: u8, value: u16) -> Result<BoardingLocation, DecodeError> {
    match tag {
        0 => Ok(BoardingLocation::NoneOrReserved),
        1 => Ok(BoardingLocation::BusNumber(value)),
        2 => Ok(BoardingLocation::TrainNumber(value)),
        3 => Ok(BoardingLocation::PlatformNumber(value)),
        _ => Err(DecodeError::UnsupportedVariant),
    }
}

impl BoardingLocation {
    pub fn new(tag: u8, value: u16) -> (r: Result<BoardingLocation, DecodeError>)
        ensures
            r == boarding_location_of(tag, value),
    {
        match tag {
            0 => Ok(BoardingLocation::NoneOrReserved),
            1 => Ok(BoardingLocation::BusNumber(value)),
            2 => Ok(BoardingLocation::TrainNumber(value)),
            3 => Ok(BoardingLocation::PlatformNumber(value)),
            _ => Err(DecodeError::UnsupportedVariant),
        }
    }
}

/// The 1-bit direction recorded at boarding. What the two values mean on
/// the road is not documented; the names are a guess.
#[derive(Debug, Clone, Copy, PartialEq, Eq, Structural)]
pub enum BoardingDirection {
    /// Bit value 0: the vehicle was heading toward the end of its route.
    TowardEnd,
    /// Bit value 1: the vehicle was heading toward the start of its route.
    TowardStart,
}

pub open spec fn boarding_direction_of(value: u8) -> Result<BoardingDirection, DecodeError> {
    match value {
        0 => Ok(BoardingDirection::TowardEnd),
        1 => Ok(BoardingDirection::TowardStart),
        _ => Err(DecodeError::UnsupportedVariant),
    }
}

impl BoardingDirection {
    pub fn new(value: u8) -> (r: Result<BoardingDirection, DecodeError>)
        ensures
            r == boarding_direction_of(value),
    {
        match value {
            0 => Ok(BoardingDirection::TowardEnd),
            1 => Ok(BoardingDirection::TowardStart),
            _ => Err(DecodeError::UnsupportedVariant),
        }
    }
}

/// One of the eight fare zones, A to H.
#[derive(Debug, Clone, Copy, PartialEq, Eq, Structural)]
pub enum ValidityZone {
    ZoneA,
    ZoneB,
    ZoneC,
    ZoneD,
    ZoneE,
    ZoneF,
    ZoneG,
    ZoneH,
}

/// The zone with index `i` (0 is A); only meaningful for `i < 8`.
pub open spec fn zone_at(i: int) -> ValidityZone {
    if i == 0 {
        ValidityZone::ZoneA
    } else if i == 1 {
        ValidityZone::ZoneB
    } else if i == 2 {
        ValidityZone::ZoneC
    } else if i == 3 {
        ValidityZone::ZoneD
    } else if i == 4 {
        ValidityZone::ZoneE
    } else if i == 5 {
        ValidityZone::ZoneF
    } else if i == 6 {
        ValidityZone::ZoneG
    } else {
        ValidityZone::ZoneH
    }
}

pub open spec fn zone_of(value: u8) -> Result<ValidityZone, DecodeError> {
    if value < 8 {
        Ok(zone_at(value as int))
    } else {
        Err(DecodeError::UnsupportedVariant)
    }
}

impl ValidityZone {
    pub fn from_index(value: u8) -> (r: Result<ValidityZone, DecodeError>)
        ensures
            r == zone_of(value),
    {
        match value {
            0 => Ok(ValidityZone::ZoneA),
            1 => Ok(ValidityZone::ZoneB),
            2 => Ok(ValidityZone::ZoneC),
            3 => Ok(ValidityZone::ZoneD),
            4 => Ok(ValidityZone::ZoneE),
            5 => Ok(ValidityZone::ZoneF),
            6 => Ok(ValidityZone::ZoneG),
            7 => Ok(ValidityZone::ZoneH),
            _ => Err(DecodeError::UnsupportedVariant),
        }
    }

    /// The zone's index, 0 for A to 7 for H.
    pub fn index(&self) -> (r: u8)
        ensures
            r < 8,
            zone_at(r as int) == *self,
    {
        match *self {
            ValidityZone::ZoneA => 0,
            ValidityZone::ZoneB => 1,
            ValidityZone::ZoneC => 2,
            ValidityZone::ZoneD => 3,
            ValidityZone::ZoneE => 4,
            ValidityZone::ZoneF => 5,
            ValidityZone::ZoneG => 6,
            ValidityZone::ZoneH => 7,
        }
    }
}

/// The vehicle type on which a ticket is valid. The card codes them
/// 0, 1, 5, 6, 7, 8 and 9, in this order.
#[derive(Debug, Clone, Copy, PartialEq, Eq, Structural)]
pub enum VehicleType {
    Undefined,
    Bus,
    Tram,
    Metro,
    Train,
    Ferry,
    ULine,
}

pub open spec fn vehicle_type_of(code: u8) -> Result<VehicleType, DecodeError> {
    match code {
        0 => Ok(VehicleType::Undefined),
        1 => Ok(VehicleType::Bus),
        5 => Ok(VehicleType::Tram),
        6 => Ok(VehicleType::Metro),
        7 => Ok(VehicleType::Train),
        8 => Ok(VehicleType::Ferry),
        9 => Ok(VehicleType::ULine),
        _ => Err(DecodeError::UnsupportedVariant),
    }
}

impl VehicleType {
    pub fn from_code(code: u8) -> (r: Result<VehicleType, DecodeError>)
        ensures
            r == vehicle_type_of(code),
    {
        match code {
            0 => Ok(VehicleType::Undefined),
            1 => Ok(VehicleType::Bus),
            5 => Ok(VehicleType::Tram),
            6 => Ok(VehicleType::Metro),
            7 => Ok(VehicleType::Train),
            8 => Ok(VehicleType::Ferry),
            9 => Ok(VehicleType::ULine),
            _ => Err(DecodeError::UnsupportedVariant),
        }
    }

    /// The vehicle type's code on the card.
    pub fn code(&self) -> (r: u8)
        ensures
            vehicle_type_of(r) == Ok::<VehicleType, DecodeError>(*self),
    {
        match *self {
            VehicleType::Undefined => 0,
            VehicleType::Bus => 1,
            VehicleType::Tram => 5,
            VehicleType::Metro => 6,
            VehicleType::Train => 7,
            VehicleType::Ferry => 8,
            VehicleType::ULine => 9,
        }
    }
}

/// Where, or on what, a ticket is valid.
#[derive(Debug, Clone, PartialEq, Eq)]
pub enum ValidityArea {
    /// A zone of the fare system of 2010, as its raw code.
    OldZone(u8),
    /// The zones of the fare system of 2014 that the ticket covers, in order.
    Zone(Vec<ValidityZone>),
    Vehicle(VehicleType),
}

/// A `ValidityArea` with its zones as a sequence.
pub enum ValidityAreaView {
    OldZone(u8),
    Zone(Seq<ValidityZone>),
    Vehicle(VehicleType),
}

impl View for ValidityArea {
    type V = ValidityAreaView;

    open spec fn view(&self) -> ValidityAreaView {
        match *self {
            ValidityArea::OldZone(z) => ValidityAreaView::OldZone(z),
            ValidityArea::Zone(zones) => ValidityAreaView::Zone(zones@),
            ValidityArea::Vehicle(v) => ValidityAreaView::Vehicle(v),
        }
    }
}

/// The tag value of `ValidityArea::OldZone`.
pub const OLD_ZONE_TYPE: u8 = 0;

/// The tag value of `ValidityArea::Vehicle`.
pub const VEHICLE_TYPE: u8 = 1;

/// The tag value of `ValidityArea::Zone`.
pub const NEW_ZONE_TYPE: u8 = 2;

/// The zones from index `from` to index `to`, both included; none when
/// `from > to`.
pub open spec fn zone_range(from: int, to: int) -> Seq<ValidityZone> {
    Seq::new(if from <= to { (to - from + 1) as nat } else { 0 }, |i: int| zone_at(from + i))
}

/// The first zone of a 6-bit zone range: its upper three bits.
pub open spec fn range_start(value: u8) -> int {
    (value as int / 8) % 8
}

/// The last zone of a 6-bit zone range: its lower three bits.
pub open spec fn range_end(value: u8) -> int {
    value as int % 8
}

/// The validity area for a 2-bit tag and a 6-bit value.
pub open spec fn validity_area_of(tag: u8, value: u8) -> Result<ValidityAreaView, DecodeError> {
    if tag == OLD_ZONE_TYPE {
        Ok(ValidityAreaView::OldZone(value))
    } else if tag == VEHICLE_TYPE {
        match vehicle_type_of(value) {
            Ok(v) => Ok(ValidityAreaView::Vehicle(v)),
            Err(e) => Err(e),
        }
    } else if tag == NEW_ZONE_TYPE {
        Ok(ValidityAreaView::Zone(zone_range(range_start(value), range_end(value))))
    } else {
        Err(DecodeError::UnsupportedVariant)
    }
}

/// A validity area whose 2-bit tag has no variant is never decoded: the
/// result is `UnsupportedVariant`, whatever the value.
pub proof fn lemma_unknown_area_tag_rejected(tag: u8, value: u8)
    requires
        tag == 3,
    ensures
        validity_area_of(tag, value) == Err::<ValidityAreaView, DecodeError>(DecodeError::UnsupportedVariant),
{
}

/// The view of a decoded validity area, or its error.
pub open spec fn area_result_view(r: Result<ValidityArea, DecodeError>) -> Result<ValidityAreaView, DecodeError> {
    match r {
        Ok(a) => Ok(a@),
        Err(e) => Err(e),
    }
}

impl ValidityArea {
    pub fn new(tag: u8, value: u8) -> (r: Result<ValidityArea, DecodeError>)
        ensures
            area_result_view(r) == validity_area_of(tag, value),
    {
        if tag == OLD_ZONE_TYPE {
            Ok(ValidityArea::OldZone(value))
        } else if tag == VEHICLE_TYPE {
            match VehicleType::from_code(value) {
                Ok(v) => Ok(ValidityArea::Vehicle(v)),
                Err(e) => Err(e),
            }
        } else if tag == NEW_ZONE_TYPE {
            let from = (value & 0b0011_1000) >> 3;
            let to = value & 0b0000_0111;
            assert(from as int == range_start(value) && to as int == range_end(value)) by (bit_vector)
                requires
                    from == (value & 0b0011_1000) >> 3,
                    to == value & 0b0000_0111,
            ;
            let mut zones: Vec<ValidityZone> = Vec::new();
            let mut v = from;
            while v <= to
                invariant
                    from <= v,
                    to < 8,
                    from <= to ==> v <= to + 1,
                    from > to ==> v == from,
                    zones@ =~= Seq::new((v - from) as nat, |j: int| zone_at(from + j)),
                decreases 8 - v,
            {
                match ValidityZone::from_index(v) {
                    Ok(z) => zones.push(z),
                    Err(e) => return Err(e),
                }
                v = v + 1;
            }
            assert(zones@ =~= zone_range(range_start(value), range_end(value)));
            Ok(ValidityArea::Zone(zones))
        } else {
            Err(DecodeError::UnsupportedVariant)
        }
    }
}

/// How long a ticket is valid: a unit and a count of it.
#[derive(Debug, Clone, Copy, PartialEq, Eq, Structural)]
pub enum ValidityLength {
    Minutes(u8),
    Hours(u8),
    TwentyFourHourPeriods(u8),
    Days(u8),
}

pub open spec fn validity_length_of(tag: u8, value: u8) -> Result<ValidityLength, DecodeError> {
    match tag {
        0 => Ok(ValidityLength::Minutes(value)),
        1 => Ok(ValidityLength::Hours(value)),
        2 => Ok(ValidityLength::TwentyFourHourPeriods(value)),
        3 => Ok(ValidityLength::Days(value)),
        _ => Err(DecodeError::UnsupportedVariant),
    }
}

impl ValidityLength {
    pub fn new(tag: u8, value: u8) -> (r: Result<ValidityLength, DecodeError>)
        ensures
            r == validity_length_of(tag, value),
    {
        match tag {
            0 => Ok(ValidityLength::Minutes(value)),
            1 => Ok(ValidityLength::Hours(value)),
            2 => Ok(ValidityLength::TwentyFourHourPeriods(value)),
            3 => Ok(ValidityLength::Days(value)),
            _ => Err(DecodeError::UnsupportedVariant),
        }
    }
}

/// The language of the card's holder.
#[derive(Debug, Clone, Copy, PartialEq, Eq, Structural)]
pub enum Language {
    Finnish,
    Swedish,
    English,
}

pub open spec fn language_of(code: u8) -> Result<Language, DecodeError> {
    match code {
        0 => Ok(Language::Finnish),
        1 => Ok(Language::Swedish),
        2 => Ok(Language::English),
        _ => Err(DecodeError::UnsupportedVariant),
    }
}

impl Language {
    pub fn from_code(code: u8) -> (r: Result<Language, DecodeError>)
        ensures
            r == language_of(code),
    {
        match code {
            0 => Ok(Language::Finnish),
            1 => Ok(Language::Swedish),
            2 => Ok(Language::English),
            _ => Err(DecodeError::UnsupportedVariant),
        }
    }
}

/// The kind of device that sold a ticket or loaded the card, with its number.
#[derive(Debug, Clone, Copy, PartialEq, Eq, Structural)]
pub enum SaleDevice {
    ServicePointSalesDevice(u16),
    DriverTicketMachine(u16),
    CardReader(u16),
    TicketMachine(u16),
    Server(u16),
    HSLSmallEquipment(u16),
    ExternalServiceEquipment(u16),
    Reserved(u16),
}

pub open spec fn sale_device_of(tag: u8, number: u16) -> Result<SaleDevice, DecodeError> {
    match tag {
        0 => Ok(SaleDevice::ServicePointSalesDevice(number)),
        1 => Ok(SaleDevice::DriverTicketMachine(number)),
        2 => Ok(SaleDevice::CardReader(number)),
        3 => Ok(SaleDevice::TicketMachine(number)),
        4 => Ok(SaleDevice::Server(number)),
        5 => Ok(SaleDevice::HSLSmallEquipment(number)),
        6 => Ok(SaleDevice::ExternalServiceEquipment(number)),
        7 => Ok(SaleDevice::Reserved(number)),
        _ => Err(DecodeError::UnsupportedVariant),
    }
}

impl SaleDevice {
    pub fn new(tag: u8, number: u16) -> (r: Result<SaleDevice, DecodeError>)
        ensures
            r == sale_device_of(tag, number),
    {
        match tag {
            0 => Ok(SaleDevice::ServicePointSalesDevice(number)),
            1 => Ok(SaleDevice::DriverTicketMachine(number)),
            2 => Ok(SaleDevice::CardReader(number)),
            3 => Ok(SaleDevice::TicketMachine(number)),
            4 => Ok(SaleDevice::Server(number)),
            5 => Ok(SaleDevice::HSLSmallEquipment(number)),
            6 => Ok(SaleDevice::ExternalServiceEquipment(number)),
            7 => Ok(SaleDevice::Reserved(number)),
            _ => Err(DecodeError::UnsupportedVariant),
        }
    }
}

/// The area where the last boarding happened.
#[derive(Debug, Clone, Copy, PartialEq, Eq, Structural)]
pub enum BoardingArea {
    Zone(ValidityZone),
    Vehicle(VehicleType),
    /// A raw area code whose meaning is not known.
    ZoneCircle(u8),
}

pub open spec fn boarding_area_of(tag: u8, value: u8) -> Result<BoardingArea, DecodeError> {
    match tag {
        0 => match zone_of(value) {
            Ok(z) => Ok(BoardingArea::Zone(z)),
            Err(e) => Err(e),
        },
        1 => match vehicle_type_of(value) {
            Ok(v) => Ok(BoardingArea::Vehicle(v)),
            Err(e) => Err(e),
        },
        2 => Ok(BoardingArea::ZoneCircle(value)),
        _ => Err(DecodeError::UnsupportedVariant),
    }
}

impl BoardingArea {
    pub fn new(tag: u8, value: u8) -> (r: Result<BoardingArea, DecodeError>)
        ensures
            r == boarding_area_of(tag, value),
    {
        match tag {
            0 => match ValidityZone::from_index(value) {
                Ok(z) => Ok(BoardingArea::Zone(z)),
                Err(e) => Err(e),
            },
            1 => match VehicleType::from_code(value) {
                Ok(v) => Ok(BoardingArea::Vehicle(v)),
                Err(e) => Err(e),
            },
            2 => Ok(BoardingArea::ZoneCircle(value)),
            _ => Err(DecodeError::UnsupportedVariant),
        }
    }
}

} // verus!
