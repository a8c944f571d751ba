//! Frame airtime calculation for time-division slot sizing.
//!
//! The transmit time of a frame is the sum of three segments, each a symbol
//! count times a symbol-timing constant chosen by the radio configuration:
//! the synchronisation header (the configured preamble, extended by 8
//! symbols at the lower bitrate), the fixed 21-bit PHY header, and the data
//! segment, whose bit count is the frame length inflated by Reed-Solomon
//! parity at 48 bits per started 330-bit data block.

use vstd::prelude::*;

verus! {

/// The pulse repetition frequency the radio is configured for.
#[derive(Clone, Copy, PartialEq, Eq, Structural, Debug)]
pub enum PulseRepetitionFrequency {
    Mhz16,
    Mhz64,
}

/// The configured preamble length in symbols.
#[derive(Clone, Copy, PartialEq, Eq, Structural, Debug)]
pub enum PreambleLength {
    Symbols32,
    Symbols64,
    Symbols72,
    Symbols128,
    Symbols256,
    Symbols512,
    Symbols1024,
    Symbols1536,
    Symbols2048,
    Symbols4096,
}

/// The configured data bitrate.
#[derive(Clone, Copy, PartialEq, Eq, Structural, Debug)]
pub enum BitRate {
    Kbps850,
    Kbps6800,
}

/// The slice of the radio configuration that the airtime of a frame depends
/// on.
#[derive(Clone, Copy, PartialEq, Eq, Structural, Debug)]
pub struct RadioConfig {
    pub pulse_repetition_frequency: PulseRepetitionFrequency,
    pub preamble_length: PreambleLength,
    pub bitrate: BitRate,
}

/// The preamble length as a symbol count.
pub open spec fn spec_preamble_symbols(p: PreambleLength) -> int {
    match p {
        PreambleLength::Symbols32 => 32,
        PreambleLength::Symbols64 => 64,
        PreambleLength::Symbols72 => 72,
        PreambleLength::Symbols128 => 128,
        PreambleLength::Symbols256 => 256,
        PreambleLength::Symbols512 => 512,
        PreambleLength::Symbols1024 => 1024,
        PreambleLength::Symbols1536 => 1536,
        PreambleLength::Symbols2048 => 2048,
        PreambleLength::Symbols4096 => 4096,
    }
}

/// Length of the synchronisation header in symbols: the configured preamble,
/// extended by 8 symbols when the lower bitrate is used.
pub open spec fn spec_shr_symbols(c: RadioConfig) -> int {
    match c.bitrate {
        BitRate::Kbps850 => spec_preamble_symbols(c.preamble_length) + 8,
        BitRate::Kbps6800 => spec_preamble_symbols(c.preamble_length),
    }
}

/// Symbol-timing constant of the synchronisation header.
pub open spec fn spec_sym_shr(prf: PulseRepetitionFrequency) -> int {
    match prf {
        PulseRepetitionFrequency::Mhz16 => 994,
        PulseRepetitionFrequency::Mhz64 => 1018,
    }
}

/// Symbol-timing constant of the data segment.
pub open spec fn spec_sym_dat(b: BitRate) -> int {
    match b {
        BitRate::Kbps850 => 1026,
        BitRate::Kbps6800 => 129,
    }
}

/// Reed-Solomon parity overhead: 48 parity bits for every started or partial
/// 330-bit data block.
pub open spec fn spec_parity_bits(bits: int) -> int {
    48 * ((bits + 329) / 330)
}

/// Transmit time of a frame in symbol-clock units. Without the body only the
/// synchronisation header counts; with it, the fixed 21-bit PHY header and
/// the parity-inflated data bits are added.
pub open spec fn spec_frame_tx_time(frame_len: int, c: RadioConfig, include_body: bool) -> int {
    let shr_time = spec_shr_symbols(c) * spec_sym_shr(c.pulse_repetition_frequency);
    if include_body {
        let bits = frame_len * 8;
        let data_bits = bits + spec_parity_bits(bits);
        shr_time + 21 * 1026 + data_bits * spec_sym_dat(c.bitrate)
    } else {
        shr_time
    }
}

/// Sign and ordering facts about the terms of the airtime sum, used to rule
/// out overflow of the 32-bit computation.
proof fn lemma_airtime_bounds(frame_len: int, c: RadioConfig)
    requires
        frame_len >= 0,
    ensures
        ({
            let bits = frame_len * 8;
            let data_bits = bits + spec_parity_bits(bits);
            let shr_time = spec_shr_symbols(c) * spec_sym_shr(c.pulse_repetition_frequency);
            &&& 0 <= bits
            &&& 0 <= spec_parity_bits(bits)
            &&& data_bits <= data_bits * spec_sym_dat(c.bitrate)
            &&& 31808 <= shr_time
            &&& shr_time <= 4104 * 1018
        }),
{
    let bits = frame_len * 8;
    let q = (bits + 329) / 330;
    assert(0 <= q);
    let data_bits = bits + spec_parity_bits(bits);
    let dat = spec_sym_dat(c.bitrate);
    assert(data_bits * 1 <= data_bits * dat) by (nonlinear_arith)
        requires
            0 <= data_bits,
            1 <= dat,
    ;
    let shr = spec_shr_symbols(c);
    let sym = spec_sym_shr(c.pulse_repetition_frequency);
    assert(32 * 994 <= shr * sym && shr * sym <= 4104 * 1018) by (nonlinear_arith)
        requires
            32 <= shr <= 4104,
            994 <= sym <= 1018,
    ;
}

/// Transmit time of a frame of `frame_len` bytes, in symbol-clock units.
///
/// When `include_body` is false only the synchronisation-header time is
/// returned, for preamble-only estimates. The result is a pure function of
/// the arguments; the caller guarantees that it fits the 32-bit result, as
/// `checked_frame_tx_time` does.
pub fn frame_tx_time(frame_len: u32, config: &RadioConfig, include_body: bool) -> (r: u32)
    requires
        spec_frame_tx_time(frame_len as int, *config, include_body) <= u32::MAX,
    ensures
        r == spec_frame_tx_time(frame_len as int, *config, include_body),
{
    let preamble: u32 = match config.preamble_length {
        PreambleLength::Symbols32 => 32,
        PreambleLength::Symbols64 => 64,
        PreambleLength::Symbols72 => 72,
        PreambleLength::Symbols128 => 128,
        PreambleLength::Symbols256 => 256,
        PreambleLength::Symbols512 => 512,
        PreambleLength::Symbols1024 => 1024,
        PreambleLength::Symbols1536 => 1536,
        PreambleLength::Symbols2048 => 2048,
        PreambleLength::Symbols4096 => 4096,
    };
    let shr_len: u32 = match config.bitrate {
        BitRate::Kbps850 => preamble + 8,
        BitRate::Kbps6800 => preamble,
    };
    let sym_shr: u32 = match config.pulse_repetition_frequency {
        PulseRepetitionFrequency::Mhz16 => 994,
        PulseRepetitionFrequency::Mhz64 => 1018,
    };
    proof {
        lemma_airtime_bounds(frame_len as int, *config);
    }
    let tx_time: u32 = shr_len * sym_shr;
    if !include_body {
        return tx_time;
    }
    let bits: u32 = frame_len * 8;
    let parity: u32 = 48 * ((bits + 329) / 330);
    let data_bits: u32 = bits + parity;
    let sym_dat: u32 = match config.bitrate {
        BitRate::Kbps850 => 1026,
        BitRate::Kbps6800 => 129,
    };
    tx_time + 21 * 1026 + data_bits * sym_dat
}

/// `frame_tx_time`, guarded: `None` exactly when the airtime does not fit
/// the 32-bit result.
pub fn checked_frame_tx_time(frame_len: u32, config: &RadioConfig, include_body: bool) -> (r:
    Option<u32>)
    ensures
        match r {
            Some(t) => t == spec_frame_tx_time(frame_len as int, *config, include_body),
            None => spec_frame_tx_time(frame_len as int, *config, include_body) > u32::MAX,
        },
{
    let preamble: u32 = match config.preamble_length {
        PreambleLength::Symbols32 => 32,
        PreambleLength::Symbols64 => 64,
        PreambleLength::Symbols72 => 72,
        PreambleLength::Symbols128 => 128,
        PreambleLength::Symbols256 => 256,
        PreambleLength::Symbols512 => 512,
        PreambleLength::Symbols1024 => 1024,
        PreambleLength::Symbols1536 => 1536,
        PreambleLength::Symbols2048 => 2048,
        PreambleLength::Symbols4096 => 4096,
    };
    let sym_shr: u64 = match config.pulse_repetition_frequency {
        PulseRepetitionFrequency::Mhz16 => 994,
        PulseRepetitionFrequency::Mhz64 => 1018,
    };
    let shr_len: u32 = match config.bitrate {
        BitRate::Kbps850 => preamble + 8,
        BitRate::Kbps6800 => preamble,
    };
    let shr_time: u64 = (shr_len as u64) * sym_shr;
    proof {
        lemma_airtime_bounds(frame_len as int, *config);
    }
    let total: u64 = if include_body {
        let bits: u64 = (frame_len as u64) * 8;
        let parity: u64 = 48 * ((bits + 329) / 330);
        let sym_dat: u64 = match config.bitrate {
            BitRate::Kbps850 => 1026,
            BitRate::Kbps6800 => 129,
        };
        proof {
            assert(bits <= 0x8_0000_0000);
            assert((bits + 329) as u64 / 330 <= bits + 329);
            assert(bits + parity <= 0x700_0000_0000);
            assert((bits + parity) * sym_dat <= 0x700_0000_0000 * 1026) by (nonlinear_arith)
                requires
                    0 <= bits + parity <= 0x700_0000_0000,
                    0 <= sym_dat <= 1026,
            ;
        }
        shr_time + 21 * 1026 + (bits + parity) * sym_dat
    } else {
        shr_time
    };
    if total <= 0xffff_ffff {
        Some(frame_tx_time(frame_len, config, include_body))
    } else {
        None
    }
}

} // verus!
