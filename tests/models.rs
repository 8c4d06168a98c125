use scannit_core::error::DecodeError;
use scannit_core::models::{
    BoardingArea, BoardingDirection, BoardingLocation, Language, ProductCode, SaleDevice, ValidityArea,
    ValidityLength, ValidityZone, VehicleType,
};

#[test]
fn product_code_uses_the_fare_system_tag() {
    assert_eq!(ProductCode::new(0, 1234), ProductCode::FaresFor2010(1234));
    assert_eq!(ProductCode::new(1, 1234), ProductCode::FaresFor2014(1234));
    assert_eq!(ProductCode::new(1, 77).value(), 77);
}

#[test]
fn validity_area_rejects_an_unknown_tag() {
    for value in 0..64u8 {
        assert_eq!(ValidityArea::new(3, value), Err(DecodeError::UnsupportedVariant));
    }
}

#[test]
fn validity_area_decodes_each_kind() {
    assert_eq!(ValidityArea::new(0, 17), Ok(ValidityArea::OldZone(17)));
    assert_eq!(ValidityArea::new(1, 6), Ok(ValidityArea::Vehicle(VehicleType::Metro)));
    assert_eq!(ValidityArea::new(1, 2), Err(DecodeError::UnsupportedVariant));
    // From zone A (0) to zone C (2).
    assert_eq!(
        ValidityArea::new(2, 0b000_010),
        Ok(ValidityArea::Zone(vec![ValidityZone::ZoneA, ValidityZone::ZoneB, ValidityZone::ZoneC]))
    );
    // From zone D to zone D.
    assert_eq!(ValidityArea::new(2, 0b011_011), Ok(ValidityArea::Zone(vec![ValidityZone::ZoneD])));
}

#[test]
fn validity_area_with_reversed_zones_is_empty() {
    assert_eq!(ValidityArea::new(2, 0b101_001), Ok(ValidityArea::Zone(vec![])));
}

#[test]
fn validity_area_covers_all_zones() {
    match ValidityArea::new(2, 0b000_111) {
        Ok(ValidityArea::Zone(zones)) => {
            assert_eq!(zones.len(), 8);
            assert_eq!(zones[7], ValidityZone::ZoneH);
        }
        other => panic!("unexpected {:?}", other),
    }
}

#[test]
fn validity_length_units() {
    assert_eq!(ValidityLength::new(0, 80), Ok(ValidityLength::Minutes(80)));
    assert_eq!(ValidityLength::new(1, 2), Ok(ValidityLength::Hours(2)));
    assert_eq!(ValidityLength::new(2, 3), Ok(ValidityLength::TwentyFourHourPeriods(3)));
    assert_eq!(ValidityLength::new(3, 30), Ok(ValidityLength::Days(30)));
    assert_eq!(ValidityLength::new(4, 30), Err(DecodeError::UnsupportedVariant));
}

#[test]
fn boarding_location_kinds() {
    assert_eq!(BoardingLocation::new(0, 9), Ok(BoardingLocation::NoneOrReserved));
    assert_eq!(BoardingLocation::new(1, 9), Ok(BoardingLocation::BusNumber(9)));
    assert_eq!(BoardingLocation::new(2, 9), Ok(BoardingLocation::TrainNumber(9)));
    assert_eq!(BoardingLocation::new(3, 9), Ok(BoardingLocation::PlatformNumber(9)));
    assert_eq!(BoardingLocation::new(4, 9), Err(DecodeError::UnsupportedVariant));
}

#[test]
fn boarding_direction_bits() {
    assert_eq!(BoardingDirection::new(0), Ok(BoardingDirection::TowardEnd));
    assert_eq!(BoardingDirection::new(1), Ok(BoardingDirection::TowardStart));
    assert_eq!(BoardingDirection::new(2), Err(DecodeError::UnsupportedVariant));
}

#[test]
fn language_codes() {
    assert_eq!(Language::from_code(0), Ok(Language::Finnish));
    assert_eq!(Language::from_code(1), Ok(Language::Swedish));
    assert_eq!(Language::from_code(2), Ok(Language::English));
    assert_eq!(Language::from_code(3), Err(DecodeError::UnsupportedVariant));
}

#[test]
fn sale_device_kinds() {
    assert_eq!(SaleDevice::new(0, 5), Ok(SaleDevice::ServicePointSalesDevice(5)));
    assert_eq!(SaleDevice::new(3, 5), Ok(SaleDevice::TicketMachine(5)));
    assert_eq!(SaleDevice::new(7, 5), Ok(SaleDevice::Reserved(5)));
    assert_eq!(SaleDevice::new(8, 5), Err(DecodeError::UnsupportedVariant));
}

#[test]
fn boarding_area_kinds() {
    assert_eq!(BoardingArea::new(0, 4), Ok(BoardingArea::Zone(ValidityZone::ZoneE)));
    assert_eq!(BoardingArea::new(0, 8), Err(DecodeError::UnsupportedVariant));
    assert_eq!(BoardingArea::new(1, 7), Ok(BoardingArea::Vehicle(VehicleType::Train)));
    assert_eq!(BoardingArea::new(1, 3), Err(DecodeError::UnsupportedVariant));
    assert_eq!(BoardingArea::new(2, 42), Ok(BoardingArea::ZoneCircle(42)));
    assert_eq!(BoardingArea::new(3, 0), Err(DecodeError::UnsupportedVariant));
}

#[test]
fn vehicle_codes_round_trip() {
    for code in 0..=255u8 {
        match VehicleType::from_code(code) {
            Ok(v) => assert_eq!(v.code(), code),
            Err(e) => {
                assert_eq!(e, DecodeError::UnsupportedVariant);
                assert!(![0, 1, 5, 6, 7, 8, 9].contains(&code));
            }
        }
    }
}

#[test]
fn zone_indices_round_trip() {
    for i in 0..8u8 {
        assert_eq!(ValidityZone::from_index(i).unwrap().index(), i);
    }
    assert_eq!(ValidityZone::from_index(8), Err(DecodeError::UnsupportedVariant));
}
