use ws2300::codec::{check, check_data, encode_address, Memory};
use ws2300::error::Error;

#[test]
fn lib_test_address_encode() {
    assert_eq!(
        encode_address(&Memory {
            address: 0x06,
            size: 2
        }),
        &[0x06]
    );
    assert_eq!(
        encode_address(&Memory {
            address: 0x346,
            size: 2
        }),
        &[130, 142, 146, 154, 202]
    );
}

#[test]
fn ws2300_test_address_encode() {
    assert_eq!(
        encode_address(&Memory {
            address: 0x06,
            size: 2
        }),
        &[0x06]
    );
    assert_eq!(
        encode_address(&Memory {
            address: 0x346,
            size: 2
        }),
        &[130, 142, 146, 154, 202]
    );
}

#[test]
fn encode_length_byte_caps_at_fe() {
    let command = encode_address(&Memory {
        address: 0x346,
        size: 100,
    });
    assert_eq!(command[4], 0xFE);
    let command = encode_address(&Memory {
        address: 0x346,
        size: 15,
    });
    assert_eq!(command[4], 0xFE);
    let command = encode_address(&Memory {
        address: 0x346,
        size: 14,
    });
    assert_eq!(command[4], 0xC2 + 56);
}

#[test]
fn check_accepts_the_implied_echoes() {
    // encode, then self-check: the echo each command byte implies passes
    let command = encode_address(&Memory {
        address: 0x346,
        size: 2,
    });
    let echoes: [u8; 5] = [0x00, 0x13, 0x24, 0x36, 0x32];
    for (i, (&c, &e)) in command.iter().zip(echoes.iter()).enumerate() {
        assert_eq!(check(c, i, e), Ok(()));
    }
}

#[test]
fn check_rejects_a_wrong_echo() {
    assert_eq!(check(130, 0, 0x01), Err(Error::Check));
    assert_eq!(check(202, 4, 0x33), Err(Error::Check));
    // the same echo at the wrong position fails too
    assert_eq!(check(142, 0, 0x13), Err(Error::Check));
}

#[test]
fn check_data_accepts_iff_masked_sum_matches() {
    assert_eq!(check_data(0x82, &vec![0x50, 0x32]), Ok(()));
    assert_eq!(check_data(0x83, &vec![0x50, 0x32]), Err(Error::CheckData));
    // the sum is masked to eight bits
    assert_eq!(check_data(0x01, &vec![0xFF, 0x02]), Ok(()));
    // the empty payload sums to zero
    assert_eq!(check_data(0x00, &vec![]), Ok(()));
    assert_eq!(check_data(0x01, &vec![]), Err(Error::CheckData));
}

#[test]
fn check_data_detects_one_corrupted_byte() {
    let payload: Vec<u8> = vec![0x12, 0x34, 0x56];
    let trailer: u8 = 0x12u8.wrapping_add(0x34).wrapping_add(0x56);
    assert_eq!(check_data(trailer, &payload), Ok(()));
    for i in 0..payload.len() {
        for wrong in 0..=255u8 {
            if wrong == payload[i] {
                continue;
            }
            let mut corrupted = payload.clone();
            corrupted[i] = wrong;
            assert_eq!(check_data(trailer, &corrupted), Err(Error::CheckData));
        }
    }
}

#[test]
fn memory_map_layout() {
    let map = ws2300::memory_map::MemoryMap::new();
    assert_eq!(map.temperature_indoor, Memory { address: 0x346, size: 2 });
    assert_eq!(map.temperature_outdoor, Memory { address: 0x373, size: 2 });
    assert_eq!(map.dewpoint, Memory { address: 0x3CE, size: 2 });
    assert_eq!(map.humidity_indoor, Memory { address: 0x3FB, size: 1 });
    assert_eq!(map.humidity_outdoor, Memory { address: 0x419, size: 1 });
    assert_eq!(map.wind_speed, Memory { address: 0x529, size: 3 });
    assert_eq!(map.wind_dir, Memory { address: 0x52C, size: 1 });
    assert_eq!(map.wind_chill, Memory { address: 0x3A0, size: 2 });
    assert_eq!(map.rain_1h, Memory { address: 0x4B4, size: 3 });
    assert_eq!(map.rain_24h, Memory { address: 0x497, size: 3 });
    assert_eq!(map.rain_total, Memory { address: 0x4D2, size: 3 });
    assert_eq!(map.pressure, Memory { address: 0x5E2, size: 3 });
    assert_eq!(map.tendency, Memory { address: 0x26B, size: 1 });
}

#[test]
fn errors_have_messages() {
    assert_eq!(Error::Check.message(), "Check error");
    assert_eq!(Error::CheckData.message(), "Check data error");
    assert_eq!(Error::TryRead.message(), "Try read error");
    assert_eq!(Error::Index.message(), "Index error");
}
