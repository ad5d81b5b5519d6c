//! The aggregate snapshot: every measurement decoded from one full read.

use vstd::prelude::*;

use crate::decode::direction_name;
use crate::decode::forecast_name;
use crate::decode::hi;
use crate::decode::humidity_value;
use crate::decode::lo;
use crate::decode::pressure_tenths;
use crate::decode::rain_tenths;
use crate::decode::temperature_tenths;
use crate::decode::tendency_name;
use crate::decode::wind_dir_tenths;
use crate::decode::wind_speed_tenths;
use crate::error::Error;

verus! {

/// One decoded snapshot of every measurement. Fractional quantities are
/// scaled integers in tenths of their unit — temperatures in tenths of a
/// degree, wind speed in tenths, wind angle in tenths of a degree, rain in
/// tenths of a millimetre, pressure in tenths — while humidities are whole
/// percentages.
#[derive(Clone, Copy, Debug)]
pub struct Data {
    pub temperature_indoor: i32,
    pub temperature_outdoor: i32,
    pub dewpoint: i32,
    pub humidity_indoor: u32,
    pub humidity_outdoor: u32,
    pub wind_speed: u32,
    pub wind_dir: u32,
    pub wind_direction: &'static str,
    pub wind_chill: i32,
    pub rain_1h: u32,
    pub rain_24h: u32,
    pub rain_total: u32,
    pub pressure: u32,
    pub tendency: &'static str,
    pub forecast: &'static str,
}

/// The raw payloads of every distinct memory cell, as one full read of the
/// station collects them. The shared tendency cell yields both the
/// tendency and the forecast field.
pub struct RawReadings {
    pub temperature_indoor: Vec<u8>,
    pub temperature_outdoor: Vec<u8>,
    pub dewpoint: Vec<u8>,
    pub humidity_indoor: Vec<u8>,
    pub humidity_outdoor: Vec<u8>,
    pub wind_speed: Vec<u8>,
    pub wind_dir: Vec<u8>,
    pub wind_chill: Vec<u8>,
    pub rain_1h: Vec<u8>,
    pub rain_24h: Vec<u8>,
    pub rain_total: Vec<u8>,
    pub pressure: Vec<u8>,
    pub tendency: Vec<u8>,
}

impl RawReadings {
    /// Every payload has the byte width of its cell.
    pub open spec fn wf(self) -> bool {
        &&& self.temperature_indoor@.len() == 2
        &&& self.temperature_outdoor@.len() == 2
        &&& self.dewpoint@.len() == 2
        &&& self.humidity_indoor@.len() == 1
        &&& self.humidity_outdoor@.len() == 1
        &&& self.wind_speed@.len() == 3
        &&& self.wind_dir@.len() == 1
        &&& self.wind_chill@.len() == 2
        &&& self.rain_1h@.len() == 3
        &&& self.rain_24h@.len() == 3
        &&& self.rain_total@.len() == 3
        &&& self.pressure@.len() == 3
        &&& self.tendency@.len() == 1
    }
}

/// Decode one full set of raw payloads into a snapshot. The only decoding
/// fault is a tendency or forecast nibble beyond its three-entry table; it
/// propagates, and no partial snapshot is returned.
pub fn decode_all(raw: &RawReadings) -> (r: Result<Data, Error>)
    requires
        raw.wf(),
    ensures
        match r {
            Ok(d) => {
                &&& hi(raw.tendency@[0]) < 3
                &&& lo(raw.tendency@[0]) < 3
                &&& d.temperature_indoor == temperature_tenths(raw.temperature_indoor@)
                &&& d.temperature_outdoor == temperature_tenths(raw.temperature_outdoor@)
                &&& d.dewpoint == temperature_tenths(raw.dewpoint@)
                &&& d.humidity_indoor == humidity_value(raw.humidity_indoor@)
                &&& d.humidity_outdoor == humidity_value(raw.humidity_outdoor@)
                &&& d.wind_speed == wind_speed_tenths(raw.wind_speed@)
                &&& d.wind_dir == wind_dir_tenths(raw.wind_dir@)
                &&& d.wind_direction@ == direction_name(hi(raw.wind_dir@[0]))
                &&& d.wind_chill == temperature_tenths(raw.wind_chill@)
                &&& d.rain_1h == rain_tenths(raw.rain_1h@)
                &&& d.rain_24h == rain_tenths(raw.rain_24h@)
                &&& d.rain_total == rain_tenths(raw.rain_total@)
                &&& d.pressure == pressure_tenths(raw.pressure@)
                &&& d.tendency@ == tendency_name(hi(raw.tendency@[0]))
                &&& d.forecast@ == forecast_name(lo(raw.tendency@[0]))
            },
            Err(e) => {
                &&& hi(raw.tendency@[0]) >= 3 || lo(raw.tendency@[0]) >= 3
                &&& e == Error::Index
            },
        },
{
    let tendency_text: &'static str = match crate::decode::tendency(&raw.tendency) {
        Ok(s) => s,
        Err(e) => { return Err(e) },
    };
    let forecast_text: &'static str = match crate::decode::forecast(&raw.tendency) {
        Ok(s) => s,
        Err(e) => { return Err(e) },
    };

    Ok(
        Data {
            temperature_indoor: crate::decode::temperature(&raw.temperature_indoor),
            temperature_outdoor: crate::decode::temperature(&raw.temperature_outdoor),
            dewpoint: crate::decode::temperature(&raw.dewpoint),
            humidity_indoor: crate::decode::humidity(&raw.humidity_indoor),
            humidity_outdoor: crate::decode::humidity(&raw.humidity_outdoor),
            wind_speed: crate::decode::wind_speed(&raw.wind_speed),
            wind_dir: crate::decode::wind_dir(&raw.wind_dir),
            wind_direction: crate::decode::wind_direction(&raw.wind_dir),
            wind_chill: crate::decode::temperature(&raw.wind_chill),
            rain_1h: crate::decode::rain(&raw.rain_1h),
            rain_24h: crate::decode::rain(&raw.rain_24h),
            rain_total: crate::decode::rain(&raw.rain_total),
            pressure: crate::decode::pressure(&raw.pressure),
            tendency: tendency_text,
            forecast: forecast_text,
        },
    )
}

} // verus!
