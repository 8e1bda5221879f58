use cc1101::lowlevel::convert::{
    from_chanbw, from_deviation, from_drate, from_frequency, to_chanbw, to_deviation, to_drate,
    to_frequency,
};
use cc1101::lowlevel::FXOSC;
use cc1101::rssi::rssi_to_dbm;

#[test]
fn frequency_of_common_carriers() {
    assert_eq!(from_frequency(433_000_000), (0x62, 0xA7, 0x10));
    assert_eq!(from_frequency(868_000_000), (0x76, 0x62, 0x21));
    assert_eq!(from_frequency(902_000_000), (0x3B, 0xB1, 0x22));
    assert_eq!(from_frequency(433_920_000), (0x71, 0xB0, 0x10));
    assert_eq!(from_frequency(300_000_000), (0xD9, 0x89, 0x0B));
}

#[test]
fn frequency_rounds_to_nearest_word() {
    // 918 MHz lies at 2313924.92 units: the nearest word is one above
    // the truncated quotient.
    assert_eq!(from_frequency(918_000_000), (0xC5, 0x4E, 0x23));
    assert_eq!(from_frequency(0), (0, 0, 0));
    assert_eq!(from_frequency(FXOSC), (0x00, 0x00, 0x01));
    // Half a unit is 198.36 Hz: 198 Hz rounds down, 199 Hz up.
    assert_eq!(from_frequency(198), (0, 0, 0));
    assert_eq!(from_frequency(199), (1, 0, 0));
}

#[test]
fn frequency_beyond_the_registers_wraps() {
    // The last carrier whose word fits 24 bits, and the first whose word
    // does not.
    assert_eq!(from_frequency(6_655_999_801), (0xFF, 0xFF, 0xFF));
    assert_eq!(from_frequency(6_655_999_802), (0, 0, 0));
    // 256 crystal frequencies are exactly 2^24 units.
    assert_eq!(from_frequency(256 * FXOSC), (0, 0, 0));
    assert_eq!(from_frequency(256 * FXOSC + FXOSC), (0, 0, 1));
    let (_, _, _) = from_frequency(u64::MAX);
}

#[test]
fn frequency_decodes() {
    assert_eq!(to_frequency(0x62, 0xA7, 0x10), 432_999_816);
    assert_eq!(to_frequency(0x00, 0x00, 0x01), 26_000_000);
    assert_eq!(to_frequency(0xFF, 0xFF, 0xFF), 6_655_999_603);
    assert_eq!(to_frequency(0, 0, 0), 0);
}

#[test]
fn frequency_round_trip_stays_within_one_step() {
    let mut hz: u64 = 300_000_000;
    while hz <= 928_000_000 {
        let (freq0, freq1, freq2) = from_frequency(hz);
        let back = to_frequency(freq0, freq1, freq2);
        let miss = if back > hz { back - hz } else { hz - back };
        assert!(miss * 65536 <= FXOSC, "{} came back as {}", hz, back);
        assert_eq!(from_frequency(back), (freq0, freq1, freq2));
        hz += 1_234_567;
    }
}

#[test]
fn data_rate_of_common_rates() {
    assert_eq!(from_drate(1_200), (131, 5));
    assert_eq!(from_drate(2_400), (131, 6));
    assert_eq!(from_drate(9_600), (131, 8));
    assert_eq!(from_drate(38_400), (131, 10));
    assert_eq!(from_drate(115_200), (34, 12));
    assert_eq!(from_drate(250_000), (59, 13));
    assert_eq!(from_drate(500_000), (59, 14));
    assert_eq!(from_drate(100_000), (248, 11));
}

#[test]
fn data_rate_saturates() {
    assert_eq!(from_drate(0), (0, 0));
    assert_eq!(from_drate(24), (0, 0));
    assert_eq!(from_drate(1_621_826), (255, 15));
    assert_eq!(from_drate(10_000_000), (255, 15));
    assert_eq!(from_drate(u64::MAX), (255, 15));
}

#[test]
fn data_rate_decodes() {
    assert_eq!(to_drate(131, 8), 9_595);
    assert_eq!(to_drate(34, 12), 115_051);
    assert_eq!(to_drate(0, 0), 24);
    assert_eq!(to_drate(255, 15), 1_621_826);
}

#[test]
fn data_rate_round_trip_above_one_baud_steps() {
    // From exponent 6 on, two neighbouring encodings are more than six
    // baud apart, so the decoded rate, which is rounded down to a whole
    // baud, encodes to the same pair.
    for e in 6..=15u8 {
        for m in 0..=255u8 {
            assert_eq!(from_drate(to_drate(m, e)), (m, e));
        }
    }
}

#[test]
fn deviation_of_common_values() {
    assert_eq!(from_deviation(5_157), (5, 1));
    assert_eq!(from_deviation(20_630), (5, 3));
    assert_eq!(from_deviation(47_607), (7, 4));
    assert_eq!(from_deviation(47_000), (7, 4));
    assert_eq!(from_deviation(127_000), (2, 6));
    assert_eq!(from_deviation(25_390), (0, 4));
}

#[test]
fn deviation_saturates() {
    assert_eq!(from_deviation(0), (0, 0));
    assert_eq!(from_deviation(1_586), (0, 0));
    assert_eq!(from_deviation(380_859), (7, 7));
    assert_eq!(from_deviation(400_000), (7, 7));
    assert_eq!(from_deviation(u64::MAX), (7, 7));
}

#[test]
fn deviation_round_trip() {
    for e in 0..=7u8 {
        for m in 0..=7u8 {
            assert_eq!(from_deviation(to_deviation(m, e)), (m, e));
            assert_eq!(from_deviation(to_deviation(m, e) + 1), (m, e));
        }
    }
}

#[test]
fn deviation_decodes() {
    assert_eq!(to_deviation(0, 0), 1_586);
    assert_eq!(to_deviation(7, 4), 47_607);
    assert_eq!(to_deviation(7, 7), 380_859);
}

#[test]
fn channel_bandwidth_covers_the_request() {
    assert_eq!(from_chanbw(58_035), (3, 3));
    assert_eq!(from_chanbw(58_036), (2, 3));
    assert_eq!(from_chanbw(60_000), (2, 3));
    assert_eq!(from_chanbw(100_000), (0, 3));
    assert_eq!(from_chanbw(101_563), (3, 2));
    assert_eq!(from_chanbw(203_125), (0, 2));
    assert_eq!(from_chanbw(203_126), (3, 1));
    assert_eq!(from_chanbw(325_000), (1, 1));
    assert_eq!(from_chanbw(541_666), (2, 0));
    assert_eq!(from_chanbw(812_500), (0, 0));
}

#[test]
fn channel_bandwidth_saturates() {
    assert_eq!(from_chanbw(0), (3, 3));
    assert_eq!(from_chanbw(1), (3, 3));
    assert_eq!(from_chanbw(812_501), (0, 0));
    assert_eq!(from_chanbw(u64::MAX), (0, 0));
}

#[test]
fn channel_bandwidth_round_trip() {
    for e in 0..=3u8 {
        for m in 0..=3u8 {
            let hz = to_chanbw(m, e);
            assert_eq!(from_chanbw(hz), (m, e));
            let (wider_m, wider_e) = from_chanbw(hz + 1);
            assert!(to_chanbw(wider_m, wider_e) >= hz);
        }
    }
    assert_eq!(to_chanbw(0, 0), 812_500);
    assert_eq!(to_chanbw(3, 3), 58_035);
    assert_eq!(to_chanbw(0, 2), 203_125);
}

#[test]
fn rssi_of_both_segments() {
    assert_eq!(rssi_to_dbm(0), -74);
    assert_eq!(rssi_to_dbm(1), -74);
    assert_eq!(rssi_to_dbm(2), -73);
    assert_eq!(rssi_to_dbm(127), -11);
    assert_eq!(rssi_to_dbm(128), -138);
    assert_eq!(rssi_to_dbm(129), -137);
    assert_eq!(rssi_to_dbm(204), -100);
    assert_eq!(rssi_to_dbm(254), -75);
    assert_eq!(rssi_to_dbm(255), -74);
}

#[test]
fn rssi_is_monotonic_within_each_segment() {
    for raw in 0..127u8 {
        assert!(rssi_to_dbm(raw) <= rssi_to_dbm(raw + 1));
    }
    for raw in 128..255u8 {
        assert!(rssi_to_dbm(raw) <= rssi_to_dbm(raw + 1));
    }
}
