//! Fixed-layout section structures composing the shared status block.
//!
//! Field order and width inside every section is a wire contract with the
//! host: the block is projected byte for byte onto a host-readable window
//! (see `wire`), so the declaration order below fixes the documented byte
//! offsets. Reserved fields are load-bearing padding: later fields' offsets
//! depend on them.

use vstd::prelude::*;

verus! {

/// Firmware version: four single-byte fields, written once at startup.
#[derive(Clone, Copy, PartialEq, Eq, Structural, Debug)]
pub struct Version {
    pub major: u8,
    pub minor: u8,
    pub spin: u8,
    pub res0: u8,
}

/// Capability section: feature masks and identity of the device.
#[derive(Clone, Copy, PartialEq, Eq, Structural, Debug)]
pub struct Capabilities {
    pub events: u16,
    pub res1: u16,
    pub fw_version: Version,
    pub secure_state: u8,
    pub boot_status: u8,
    pub fan_mask: u8,
    pub battery_mask: u8,
    pub temp_mask: u16,
    pub key_mask: u16,
    pub debug_mask: u16,
    pub res0: u16,
}

/// Battery section: charge state, rates, limits and telemetry counters.
#[derive(Clone, Copy, PartialEq, Eq, Structural, Debug)]
pub struct Battery {
    pub events: u16,
    pub res1: u16,
    pub status: u32,
    pub last_full_charge: u32,
    pub cycle_count: u32,
    pub state: u32,
    pub present_rate: u32,
    pub remain_cap: u32,
    pub present_volt: u32,
    pub psr_state: u32,
    pub psr_max_out: u32,
    pub psr_max_in: u32,
    pub peak_level: u32,
    pub peak_power: u32,
    pub sus_level: u32,
    pub sus_power: u32,
    pub peak_thres: u32,
    pub sus_thres: u32,
    pub trip_thres: u32,
    pub bmc_data: u32,
    pub bmd_data: u32,
    pub bmd_flags: u32,
    pub bmd_count: u32,
    pub charge_time: u32,
    pub run_time: u32,
    pub sample_time: u32,
}

/// Thermal section: cooling mode, limits and one fan/sensor channel.
#[derive(Clone, Copy, PartialEq, Eq, Structural, Debug)]
pub struct Thermal {
    pub events: u16,
    pub res1: u16,
    pub cool_mode: u32,
    pub dba_limit: u32,
    pub sonne_limit: u32,
    pub ma_limit: u32,
    pub fan1_on_temp: u32,
    pub fan1_ramp_temp: u32,
    pub fan1_max_temp: u32,
    pub fan1_crt_temp: u32,
    pub fan1_hot_temp: u32,
    pub fan1_max_rpm: u32,
    pub fan1_cur_rpm: u32,
    pub tmp1_val: u32,
    pub tmp1_timeout: u32,
    pub tmp1_low: u32,
    pub tmp1_high: u32,
}

/// Time and alarm section: calendar fields, flags and alarm timestamps.
#[derive(Clone, Copy, PartialEq, Eq, Structural, Debug)]
pub struct TimeAlarm {
    pub events: u16,
    pub res0: u16,
    pub capability: u32,
    pub year: u16,
    pub month: u8,
    pub day: u8,
    pub hour: u8,
    pub minute: u8,
    pub second: u8,
    pub valid: u8,
    pub daylight: u8,
    pub res1: u8,
    pub milli: u16,
    pub time_zone: u16,
    pub res2: u16,
    pub alarm_status: u32,
    pub ac_time_val: u32,
    pub dc_time_val: u32,
}

/// The whole shared status block: the five parts concatenated in this fixed
/// order with no padding between or within them.
#[derive(Clone, Copy, PartialEq, Eq, Structural, Debug)]
pub struct MemoryMap {
    pub ver: Version,
    pub caps: Capabilities,
    pub tas: TimeAlarm,
    pub batt: Battery,
    pub therm: Thermal,
}

/// Byte width of `Version` on the wire.
pub const VERSION_SIZE: usize = 4;

/// Byte width of `Capabilities` on the wire.
pub const CAPABILITIES_SIZE: usize = 20;

/// Byte width of `TimeAlarm` on the wire.
pub const TIME_ALARM_SIZE: usize = 36;

/// Byte width of `Battery` on the wire.
pub const BATTERY_SIZE: usize = 100;

/// Byte width of `Thermal` on the wire.
pub const THERMAL_SIZE: usize = 64;

/// Byte width of the whole shared status block on the wire.
pub const MEMORY_MAP_SIZE: usize = 224;

/// Byte offset of `Version` inside the block.
pub const VERSION_OFFSET: usize = 0;

/// Byte offset of `Capabilities` inside the block.
pub const CAPABILITIES_OFFSET: usize = 4;

/// Byte offset of `TimeAlarm` inside the block.
pub const TIME_ALARM_OFFSET: usize = 24;

/// Byte offset of `Battery` inside the block.
pub const BATTERY_OFFSET: usize = 60;

/// Byte offset of `Thermal` inside the block.
pub const THERMAL_OFFSET: usize = 160;

impl Version {
    /// The version stamped into the block right after installation.
    pub open spec fn firmware() -> Version {
        Version { major: 0, minor: 1, spin: 0, res0: 0 }
    }
}

impl MemoryMap {
    /// The block as it stands right after installation: the buffer was
    /// zero-filled, then the version fields were set, so every field is
    /// zero except `ver`.
    pub open spec fn initial() -> MemoryMap {
        MemoryMap {
            ver: Version::firmware(),
            caps: Capabilities {
                events: 0,
                res1: 0,
                fw_version: Version { major: 0, minor: 0, spin: 0, res0: 0 },
                secure_state: 0,
                boot_status: 0,
                fan_mask: 0,
                battery_mask: 0,
                temp_mask: 0,
                key_mask: 0,
                debug_mask: 0,
                res0: 0,
            },
            tas: TimeAlarm {
                events: 0,
                res0: 0,
                capability: 0,
                year: 0,
                month: 0,
                day: 0,
                hour: 0,
                minute: 0,
                second: 0,
                valid: 0,
                daylight: 0,
                res1: 0,
                milli: 0,
                time_zone: 0,
                res2: 0,
                alarm_status: 0,
                ac_time_val: 0,
                dc_time_val: 0,
            },
            batt: Battery {
                events: 0,
                res1: 0,
                status: 0,
                last_full_charge: 0,
                cycle_count: 0,
                state: 0,
                present_rate: 0,
                remain_cap: 0,
                present_volt: 0,
                psr_state: 0,
                psr_max_out: 0,
                psr_max_in: 0,
                peak_level: 0,
                peak_power: 0,
                sus_level: 0,
                sus_power: 0,
                peak_thres: 0,
                sus_thres: 0,
                trip_thres: 0,
                bmc_data: 0,
                bmd_data: 0,
                bmd_flags: 0,
                bmd_count: 0,
                charge_time: 0,
                run_time: 0,
                sample_time: 0,
            },
            therm: Thermal {
                events: 0,
                res1: 0,
                cool_mode: 0,
                dba_limit: 0,
                sonne_limit: 0,
                ma_limit: 0,
                fan1_on_temp: 0,
                fan1_ramp_temp: 0,
                fan1_max_temp: 0,
                fan1_crt_temp: 0,
                fan1_hot_temp: 0,
                fan1_max_rpm: 0,
                fan1_cur_rpm: 0,
                tmp1_val: 0,
                tmp1_timeout: 0,
                tmp1_low: 0,
                tmp1_high: 0,
            },
        }
    }

    /// Build the freshly installed block: all fields zero, then the version
    /// stamped in, exactly as the startup path leaves the region.
    pub fn new_installed() -> (m: MemoryMap)
        ensures
            m == MemoryMap::initial(),
    {
        let mut m = MemoryMap {
            ver: Version { major: 0, minor: 0, spin: 0, res0: 0 },
            caps: Capabilities {
                events: 0,
                res1: 0,
                fw_version: Version { major: 0, minor: 0, spin: 0, res0: 0 },
                secure_state: 0,
                boot_status: 0,
                fan_mask: 0,
                battery_mask: 0,
                temp_mask: 0,
                key_mask: 0,
                debug_mask: 0,
                res0: 0,
            },
            tas: TimeAlarm {
                events: 0,
                res0: 0,
                capability: 0,
                year: 0,
                month: 0,
                day: 0,
                hour: 0,
                minute: 0,
                second: 0,
                valid: 0,
                daylight: 0,
                res1: 0,
                milli: 0,
                time_zone: 0,
                res2: 0,
                alarm_status: 0,
                ac_time_val: 0,
                dc_time_val: 0,
            },
            batt: Battery {
                events: 0,
                res1: 0,
                status: 0,
                last_full_charge: 0,
                cycle_count: 0,
                state: 0,
                present_rate: 0,
                remain_cap: 0,
                present_volt: 0,
                psr_state: 0,
                psr_max_out: 0,
                psr_max_in: 0,
                peak_level: 0,
                peak_power: 0,
                sus_level: 0,
                sus_power: 0,
                peak_thres: 0,
                sus_thres: 0,
                trip_thres: 0,
                bmc_data: 0,
                bmd_data: 0,
                bmd_flags: 0,
                bmd_count: 0,
                charge_time: 0,
                run_time: 0,
                sample_time: 0,
            },
            therm: Thermal {
                events: 0,
                res1: 0,
                cool_mode: 0,
                dba_limit: 0,
                sonne_limit: 0,
                ma_limit: 0,
                fan1_on_temp: 0,
                fan1_ramp_temp: 0,
                fan1_max_temp: 0,
                fan1_crt_temp: 0,
                fan1_hot_temp: 0,
                fan1_max_rpm: 0,
                fan1_cur_rpm: 0,
                tmp1_val: 0,
                tmp1_timeout: 0,
                tmp1_low: 0,
                tmp1_high: 0,
            },
        };
        m.ver.major = 0;
        m.ver.minor = 1;
        m.ver.spin = 0;
        m.ver.res0 = 0;
        m
    }
}

} // verus!
