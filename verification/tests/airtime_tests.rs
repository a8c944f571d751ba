use magic_loc_protocol::util::BitRate;
use magic_loc_protocol::util::PreambleLength;
use magic_loc_protocol::util::PulseRepetitionFrequency;
use magic_loc_protocol::util::RadioConfig;
use magic_loc_protocol::util::checked_frame_tx_time;
use magic_loc_protocol::util::frame_tx_time;

#[test]
fn preamble_only_airtime_is_deterministic() {
    let config = RadioConfig {
        pulse_repetition_frequency: PulseRepetitionFrequency::Mhz16,
        preamble_length: PreambleLength::Symbols128,
        bitrate: BitRate::Kbps6800,
    };

    let first = frame_tx_time(0, &config, false);
    let second = frame_tx_time(0, &config, false);

    assert_eq!(first, second);
    // SHR time alone: 128 preamble symbols at 994 each; the 8-symbol
    // extension applies only at the lower bitrate.
    assert_eq!(first, 128 * 994);
}

#[test]
fn airtime_with_body_matches_hand_computation() {
    // 12 data bytes = 96 bits, one started 330-bit block: 48 parity bits.
    let config = RadioConfig {
        pulse_repetition_frequency: PulseRepetitionFrequency::Mhz64,
        preamble_length: PreambleLength::Symbols64,
        bitrate: BitRate::Kbps6800,
    };
    let expected = 64 * 1018 + 21 * 1026 + (96 + 48) * 129;
    assert_eq!(frame_tx_time(12, &config, true), expected);

    // 50 bytes = 400 bits, two started blocks: 96 parity bits.
    let config = RadioConfig {
        pulse_repetition_frequency: PulseRepetitionFrequency::Mhz16,
        preamble_length: PreambleLength::Symbols32,
        bitrate: BitRate::Kbps850,
    };
    let expected = (32 + 8) * 994 + 21 * 1026 + (400 + 96) * 1026;
    assert_eq!(frame_tx_time(50, &config, true), expected);
}

#[test]
fn zero_length_body_adds_only_the_phy_header() {
    let config = RadioConfig {
        pulse_repetition_frequency: PulseRepetitionFrequency::Mhz16,
        preamble_length: PreambleLength::Symbols128,
        bitrate: BitRate::Kbps6800,
    };
    // 0 bits need 0 parity blocks, so only the PHY header is added.
    assert_eq!(
        frame_tx_time(0, &config, true),
        frame_tx_time(0, &config, false) + 21 * 1026
    );
}

#[test]
fn checked_airtime_agrees_and_rejects_overflow() {
    let config = RadioConfig {
        pulse_repetition_frequency: PulseRepetitionFrequency::Mhz64,
        preamble_length: PreambleLength::Symbols4096,
        bitrate: BitRate::Kbps850,
    };

    assert_eq!(
        checked_frame_tx_time(127, &config, true),
        Some(frame_tx_time(127, &config, true))
    );

    // A frame this long cannot be timed in 32 bits.
    assert_eq!(checked_frame_tx_time(u32::MAX, &config, true), None);
}
