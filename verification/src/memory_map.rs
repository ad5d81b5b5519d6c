//! The fixed table of memory cells, one per logical measurement.

use vstd::prelude::*;

use crate::codec::Memory;

verus! {

/// The device address and byte width of every measurement cell. The
/// tendency cell is shared: its high nibble yields the tendency label and
/// its low nibble the forecast label.
#[derive(Clone, Copy, Debug, PartialEq, Eq, Structural)]
pub struct MemoryMap {
    pub temperature_indoor: Memory,
    pub temperature_outdoor: Memory,
    pub dewpoint: Memory,
    pub humidity_indoor: Memory,
    pub humidity_outdoor: Memory,
    pub wind_speed: Memory,
    pub wind_dir: Memory,
    pub wind_chill: Memory,
    pub rain_1h: Memory,
    pub rain_24h: Memory,
    pub rain_total: Memory,
    pub pressure: Memory,
    pub tendency: Memory,
}

impl MemoryMap {
    /// Every cell of the map is one the protocol can address.
    pub open spec fn wf(self) -> bool {
        &&& self.temperature_indoor.wf()
        &&& self.temperature_outdoor.wf()
        &&& self.dewpoint.wf()
        &&& self.humidity_indoor.wf()
        &&& self.humidity_outdoor.wf()
        &&& self.wind_speed.wf()
        &&& self.wind_dir.wf()
        &&& self.wind_chill.wf()
        &&& self.rain_1h.wf()
        &&& self.rain_24h.wf()
        &&& self.rain_total.wf()
        &&& self.pressure.wf()
        &&& self.tendency.wf()
    }

    /// The station's memory layout.
    pub fn new() -> (r: MemoryMap)
        ensures
            r.wf(),
            r.temperature_indoor == (Memory { address: 0x346, size: 2 }),
            r.temperature_outdoor == (Memory { address: 0x373, size: 2 }),
            r.dewpoint == (Memory { address: 0x3CE, size: 2 }),
            r.humidity_indoor == (Memory { address: 0x3FB, size: 1 }),
            r.humidity_outdoor == (Memory { address: 0x419, size: 1 }),
            r.wind_speed == (Memory { address: 0x529, size: 3 }),
            r.wind_dir == (Memory { address: 0x52C, size: 1 }),
            r.wind_chill == (Memory { address: 0x3A0, size: 2 }),
            r.rain_1h == (Memory { address: 0x4B4, size: 3 }),
            r.rain_24h == (Memory { address: 0x497, size: 3 }),
            r.rain_total == (Memory { address: 0x4D2, size: 3 }),
            r.pressure == (Memory { address: 0x5E2, size: 3 }),
            r.tendency == (Memory { address: 0x26B, size: 1 }),
    {
        MemoryMap {
            temperature_indoor: Memory { address: 0x346, size: 2 },
            temperature_outdoor: Memory { address: 0x373, size: 2 },
            dewpoint: Memory { address: 0x3CE, size: 2 },
            humidity_indoor: Memory { address: 0x3FB, size: 1 },
            humidity_outdoor: Memory { address: 0x419, size: 1 },
            wind_speed: Memory { address: 0x529, size: 3 },
            wind_dir: Memory { address: 0x52C, size: 1 },
            wind_chill: Memory { address: 0x3A0, size: 2 },
            rain_1h: Memory { address: 0x4B4, size: 3 },
            rain_24h: Memory { address: 0x497, size: 3 },
            rain_total: Memory { address: 0x4D2, size: 3 },
            pressure: Memory { address: 0x5E2, size: 3 },
            tendency: Memory { address: 0x26B, size: 1 },
        }
    }
}

} // verus!
