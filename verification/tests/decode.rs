use ws2300::decode::{
    direction_label, forecast, humidity, pressure, rain, round, temperature, tendency, wind_dir,
    wind_direction, wind_speed,
};
use ws2300::error::Error;
use ws2300::snapshot::{decode_all, RawReadings};

// The rounding cases of the original, carried at five decimal places:
// 100.0 -> 100.00, 100.12345 -> 100.12, -100.12345 -> -100.12, and a
// rounding that keeps every digit is the identity.
#[test]
fn lib_test_round() {
    assert_eq!(round(10000000, 5, 2), 10000);
    assert_eq!(round(10012345, 5, 2), 10012);
    assert_eq!(round(-10012345, 5, 2), -10012);
    assert_eq!(round(10012345, 5, 5), 10012345);
}

#[test]
fn ws2300_test_round() {
    assert_eq!(round(10000000, 5, 2), 10000);
    assert_eq!(round(10012345, 5, 2), 10012);
    assert_eq!(round(-10012345, 5, 2), -10012);
    assert_eq!(round(10012345, 5, 5), 10012345);
}

#[test]
fn round_half_goes_away_from_zero() {
    assert_eq!(round(25, 2, 1), 3);
    assert_eq!(round(-25, 2, 1), -3);
    assert_eq!(round(24, 2, 1), 2);
    assert_eq!(round(-24, 2, 1), -2);
}

#[test]
fn temperature_zero_point() {
    // thirty degrees raw, shifted down thirty: 0.0
    assert_eq!(temperature(&vec![0x00, 0x30]), 0);
}

#[test]
fn temperature_hand_computed() {
    // raw 32.5 before the offset decodes to 2.5
    assert_eq!(temperature(&vec![0x50, 0x32]), 25);
    // raw 2.95 decodes to -27.05, whose half rounds away from zero
    assert_eq!(temperature(&vec![0x95, 0x02]), -271);
}

#[test]
fn humidity_two_digits() {
    assert_eq!(humidity(&vec![0x45]), 45);
    assert_eq!(humidity(&vec![0x00]), 0);
    assert_eq!(humidity(&vec![0x99]), 99);
}

#[test]
fn wind_speed_twelve_bits() {
    // the low nibble of the second byte carries the high four bits
    assert_eq!(wind_speed(&vec![0x12, 0xA3, 0x00]), 3 * 256 + 0x12);
    assert_eq!(wind_speed(&vec![0x00, 0x00, 0x00]), 0);
}

#[test]
fn wind_dir_sectors() {
    assert_eq!(wind_dir(&vec![0x40]), 900);
    assert_eq!(wind_dir(&vec![0xF0]), 3375);
}

#[test]
fn wind_direction_labels() {
    assert_eq!(direction_label(4), Ok("E"));
    assert_eq!(direction_label(15), Ok("NNW"));
    assert_eq!(direction_label(16), Err(Error::Index));
    assert_eq!(wind_direction(&vec![0x40]), "E");
    assert_eq!(wind_direction(&vec![0xF0]), "NNW");
}

#[test]
fn tendency_and_forecast_share_one_cell() {
    assert_eq!(tendency(&vec![0x12]), Ok("Rising"));
    assert_eq!(forecast(&vec![0x12]), Ok("Sunny"));
    assert_eq!(tendency(&vec![0x00]), Ok("Steady"));
    assert_eq!(forecast(&vec![0x00]), Ok("Rainy"));
    assert_eq!(tendency(&vec![0x21]), Ok("Falling"));
    assert_eq!(forecast(&vec![0x21]), Ok("Cloudy"));
}

#[test]
fn tendency_and_forecast_index_faults() {
    assert_eq!(tendency(&vec![0x30]), Err(Error::Index));
    assert_eq!(forecast(&vec![0x03]), Err(Error::Index));
    assert_eq!(tendency(&vec![0xF2]), Err(Error::Index));
    assert_eq!(forecast(&vec![0x2F]), Err(Error::Index));
}

#[test]
fn rain_three_bytes() {
    // 6543.21 raw rounds to 6543.2
    assert_eq!(rain(&vec![0x21, 0x43, 0x65]), 65432);
    assert_eq!(rain(&vec![0x00, 0x00, 0x00]), 0);
    // 0.25 rounds half away from zero to 0.3
    assert_eq!(rain(&vec![0x25, 0x00, 0x00]), 3);
}

#[test]
fn pressure_three_bytes() {
    assert_eq!(pressure(&vec![0x21, 0x43, 0x65]), 54321);
    assert_eq!(pressure(&vec![0x00, 0x00, 0x00]), 0);
}

fn readings(tendency_byte: u8) -> RawReadings {
    RawReadings {
        temperature_indoor: vec![0x50, 0x32],
        temperature_outdoor: vec![0x00, 0x30],
        dewpoint: vec![0x95, 0x02],
        humidity_indoor: vec![0x45],
        humidity_outdoor: vec![0x99],
        wind_speed: vec![0x12, 0xA3, 0x00],
        wind_dir: vec![0x40],
        wind_chill: vec![0x50, 0x32],
        rain_1h: vec![0x25, 0x00, 0x00],
        rain_24h: vec![0x21, 0x43, 0x65],
        rain_total: vec![0x00, 0x00, 0x00],
        pressure: vec![0x21, 0x43, 0x65],
        tendency: vec![tendency_byte],
    }
}

#[test]
fn decode_all_builds_the_snapshot() {
    let data = decode_all(&readings(0x12)).unwrap();
    assert_eq!(data.temperature_indoor, 25);
    assert_eq!(data.temperature_outdoor, 0);
    assert_eq!(data.dewpoint, -271);
    assert_eq!(data.humidity_indoor, 45);
    assert_eq!(data.humidity_outdoor, 99);
    assert_eq!(data.wind_speed, 786);
    assert_eq!(data.wind_dir, 900);
    assert_eq!(data.wind_direction, "E");
    assert_eq!(data.wind_chill, 25);
    assert_eq!(data.rain_1h, 3);
    assert_eq!(data.rain_24h, 65432);
    assert_eq!(data.rain_total, 0);
    assert_eq!(data.pressure, 54321);
    assert_eq!(data.tendency, "Rising");
    assert_eq!(data.forecast, "Sunny");
}

#[test]
fn decode_all_propagates_an_index_fault() {
    assert_eq!(decode_all(&readings(0x30)).unwrap_err(), Error::Index);
    assert_eq!(decode_all(&readings(0x03)).unwrap_err(), Error::Index);
}
