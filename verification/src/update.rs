//! Per-field update protocol: one command overwrites exactly one field.
//!
//! Each section has a specification-level `*_apply` function saying which
//! field a command targets, and an executable update function proved to
//! change the block by exactly that application: the targeted section takes
//! the applied value and every other section of the block stays as it was.

use vstd::prelude::*;

use crate::layout::{Battery, Capabilities, MemoryMap, Thermal, TimeAlarm};
use crate::messages::{BatteryMessage, CapabilitiesMessage, ThermalMessage, TimeAlarmMessage};

verus! {

/// The capabilities section after one command: the targeted field holds the
/// carried value, every other field is unchanged.
pub open spec fn capabilities_apply(c: Capabilities, m: CapabilitiesMessage) -> Capabilities {
    match m {
        CapabilitiesMessage::Events(v) => Capabilities { events: v, ..c },
        CapabilitiesMessage::FwVersion(v) => Capabilities { fw_version: v, ..c },
        CapabilitiesMessage::SecureState(v) => Capabilities { secure_state: v, ..c },
        CapabilitiesMessage::BootStatus(v) => Capabilities { boot_status: v, ..c },
        CapabilitiesMessage::FanMask(v) => Capabilities { fan_mask: v, ..c },
        CapabilitiesMessage::BatteryMask(v) => Capabilities { battery_mask: v, ..c },
        CapabilitiesMessage::TempMask(v) => Capabilities { temp_mask: v, ..c },
        CapabilitiesMessage::KeyMask(v) => Capabilities { key_mask: v, ..c },
        CapabilitiesMessage::DebugMask(v) => Capabilities { debug_mask: v, ..c },
    }
}

/// The battery section after one command.
pub open spec fn battery_apply(b: Battery, m: BatteryMessage) -> Battery {
    match m {
        BatteryMessage::Events(v) => Battery { events: v, ..b },
        BatteryMessage::LastFullCharge(v) => Battery { last_full_charge: v, ..b },
        BatteryMessage::CycleCount(v) => Battery { cycle_count: v, ..b },
        BatteryMessage::State(v) => Battery { state: v, ..b },
        BatteryMessage::PresentRate(v) => Battery { present_rate: v, ..b },
        BatteryMessage::RemainCap(v) => Battery { remain_cap: v, ..b },
        BatteryMessage::PresentVolt(v) => Battery { present_volt: v, ..b },
        BatteryMessage::PsrState(v) => Battery { psr_state: v, ..b },
        BatteryMessage::PsrMaxOut(v) => Battery { psr_max_out: v, ..b },
        BatteryMessage::PsrMaxIn(v) => Battery { psr_max_in: v, ..b },
        BatteryMessage::PeakLevel(v) => Battery { peak_level: v, ..b },
        BatteryMessage::PeakPower(v) => Battery { peak_power: v, ..b },
        BatteryMessage::SusLevel(v) => Battery { sus_level: v, ..b },
        BatteryMessage::SusPower(v) => Battery { sus_power: v, ..b },
        BatteryMessage::PeakThres(v) => Battery { peak_thres: v, ..b },
        BatteryMessage::SusThres(v) => Battery { sus_thres: v, ..b },
        BatteryMessage::TripThres(v) => Battery { trip_thres: v, ..b },
        BatteryMessage::BmcData(v) => Battery { bmc_data: v, ..b },
        BatteryMessage::BmdData(v) => Battery { bmd_data: v, ..b },
        BatteryMessage::BmdFlags(v) => Battery { bmd_flags: v, ..b },
        BatteryMessage::BmdCount(v) => Battery { bmd_count: v, ..b },
        BatteryMessage::ChargeTime(v) => Battery { charge_time: v, ..b },
        BatteryMessage::RunTime(v) => Battery { run_time: v, ..b },
        BatteryMessage::SampleTime(v) => Battery { sample_time: v, ..b },
    }
}

/// The thermal section after one command.
pub open spec fn thermal_apply(t: Thermal, m: ThermalMessage) -> Thermal {
    match m {
        ThermalMessage::Events(v) => Thermal { events: v, ..t },
        ThermalMessage::CoolMode(v) => Thermal { cool_mode: v, ..t },
        ThermalMessage::DbaLimit(v) => Thermal { dba_limit: v, ..t },
        ThermalMessage::SonneLimit(v) => Thermal { sonne_limit: v, ..t },
        ThermalMessage::MaLimit(v) => Thermal { ma_limit: v, ..t },
        ThermalMessage::Fan1OnTemp(v) => Thermal { fan1_on_temp: v, ..t },
        ThermalMessage::Fan1RampTemp(v) => Thermal { fan1_ramp_temp: v, ..t },
        ThermalMessage::Fan1MaxTemp(v) => Thermal { fan1_max_temp: v, ..t },
        ThermalMessage::Fan1CrtTemp(v) => Thermal { fan1_crt_temp: v, ..t },
        ThermalMessage::Fan1HotTemp(v) => Thermal { fan1_hot_temp: v, ..t },
        ThermalMessage::Fan1MaxRpm(v) => Thermal { fan1_max_rpm: v, ..t },
        ThermalMessage::Fan1CurRpm(v) => Thermal { fan1_cur_rpm: v, ..t },
        ThermalMessage::Tmp1Val(v) => Thermal { tmp1_val: v, ..t },
        ThermalMessage::Tmp1Timeout(v) => Thermal { tmp1_timeout: v, ..t },
        ThermalMessage::Tmp1Low(v) => Thermal { tmp1_low: v, ..t },
        ThermalMessage::Tmp1High(v) => Thermal { tmp1_high: v, ..t },
    }
}

/// The time/alarm section after one command.
pub open spec fn time_alarm_apply(t: TimeAlarm, m: TimeAlarmMessage) -> TimeAlarm {
    match m {
        TimeAlarmMessage::Events(v) => TimeAlarm { events: v, ..t },
        TimeAlarmMessage::Capability(v) => TimeAlarm { capability: v, ..t },
        TimeAlarmMessage::Year(v) => TimeAlarm { year: v, ..t },
        TimeAlarmMessage::Month(v) => TimeAlarm { month: v, ..t },
        TimeAlarmMessage::Day(v) => TimeAlarm { day: v, ..t },
        TimeAlarmMessage::Hour(v) => TimeAlarm { hour: v, ..t },
        TimeAlarmMessage::Minute(v) => TimeAlarm { minute: v, ..t },
        TimeAlarmMessage::Second(v) => TimeAlarm { second: v, ..t },
        TimeAlarmMessage::Valid(v) => TimeAlarm { valid: v, ..t },
        TimeAlarmMessage::Daylight(v) => TimeAlarm { daylight: v, ..t },
        TimeAlarmMessage::Res1(v) => TimeAlarm { res1: v, ..t },
        TimeAlarmMessage::Milli(v) => TimeAlarm { milli: v, ..t },
        TimeAlarmMessage::TimeZone(v) => TimeAlarm { time_zone: v, ..t },
        TimeAlarmMessage::Res2(v) => TimeAlarm { res2: v, ..t },
        TimeAlarmMessage::AlarmStatus(v) => TimeAlarm { alarm_status: v, ..t },
        TimeAlarmMessage::AcTimeVal(v) => TimeAlarm { ac_time_val: v, ..t },
        TimeAlarmMessage::DcTimeVal(v) => TimeAlarm { dc_time_val: v, ..t },
    }
}

/// Write one capabilities command into the block: the capabilities section
/// takes the applied value, the four other parts stay untouched.
pub fn update_capabilities_section(map: &mut MemoryMap, msg: &CapabilitiesMessage)
    ensures
        final(map).caps == capabilities_apply(old(map).caps, *msg),
        final(map).ver == old(map).ver,
        final(map).tas == old(map).tas,
        final(map).batt == old(map).batt,
        final(map).therm == old(map).therm,
{
    match *msg {
        CapabilitiesMessage::Events(v) => map.caps.events = v,
        CapabilitiesMessage::FwVersion(v) => map.caps.fw_version = v,
        CapabilitiesMessage::SecureState(v) => map.caps.secure_state = v,
        CapabilitiesMessage::BootStatus(v) => map.caps.boot_status = v,
        CapabilitiesMessage::FanMask(v) => map.caps.fan_mask = v,
        CapabilitiesMessage::BatteryMask(v) => map.caps.battery_mask = v,
        CapabilitiesMessage::TempMask(v) => map.caps.temp_mask = v,
        CapabilitiesMessage::KeyMask(v) => map.caps.key_mask = v,
        CapabilitiesMessage::DebugMask(v) => map.caps.debug_mask = v,
    }
}

/// Write one battery command into the block.
pub fn update_battery_section(map: &mut MemoryMap, msg: &BatteryMessage)
    ensures
        final(map).batt == battery_apply(old(map).batt, *msg),
        final(map).ver == old(map).ver,
        final(map).caps == old(map).caps,
        final(map).tas == old(map).tas,
        final(map).therm == old(map).therm,
{
    match *msg {
        BatteryMessage::Events(v) => map.batt.events = v,
        BatteryMessage::LastFullCharge(v) => map.batt.last_full_charge = v,
        BatteryMessage::CycleCount(v) => map.batt.cycle_count = v,
        BatteryMessage::State(v) => map.batt.state = v,
        BatteryMessage::PresentRate(v) => map.batt.present_rate = v,
        BatteryMessage::RemainCap(v) => map.batt.remain_cap = v,
        BatteryMessage::PresentVolt(v) => map.batt.present_volt = v,
        BatteryMessage::PsrState(v) => map.batt.psr_state = v,
        BatteryMessage::PsrMaxOut(v) => map.batt.psr_max_out = v,
        BatteryMessage::PsrMaxIn(v) => map.batt.psr_max_in = v,
        BatteryMessage::PeakLevel(v) => map.batt.peak_level = v,
        BatteryMessage::PeakPower(v) => map.batt.peak_power = v,
        BatteryMessage::SusLevel(v) => map.batt.sus_level = v,
        BatteryMessage::SusPower(v) => map.batt.sus_power = v,
        BatteryMessage::PeakThres(v) => map.batt.peak_thres = v,
        BatteryMessage::SusThres(v) => map.batt.sus_thres = v,
        BatteryMessage::TripThres(v) => map.batt.trip_thres = v,
        BatteryMessage::BmcData(v) => map.batt.bmc_data = v,
        BatteryMessage::BmdData(v) => map.batt.bmd_data = v,
        BatteryMessage::BmdFlags(v) => map.batt.bmd_flags = v,
        BatteryMessage::BmdCount(v) => map.batt.bmd_count = v,
        BatteryMessage::ChargeTime(v) => map.batt.charge_time = v,
        BatteryMessage::RunTime(v) => map.batt.run_time = v,
        BatteryMessage::SampleTime(v) => map.batt.sample_time = v,
    }
}

/// Write one thermal command into the block.
pub fn update_thermal_section(map: &mut MemoryMap, msg: &ThermalMessage)
    ensures
        final(map).therm == thermal_apply(old(map).therm, *msg),
        final(map).ver == old(map).ver,
        final(map).caps == old(map).caps,
        final(map).tas == old(map).tas,
        final(map).batt == old(map).batt,
{
    match *msg {
        ThermalMessage::Events(v) => map.therm.events = v,
        ThermalMessage::CoolMode(v) => map.therm.cool_mode = v,
        ThermalMessage::DbaLimit(v) => map.therm.dba_limit = v,
        ThermalMessage::SonneLimit(v) => map.therm.sonne_limit = v,
        ThermalMessage::MaLimit(v) => map.therm.ma_limit = v,
        ThermalMessage::Fan1OnTemp(v) => map.therm.fan1_on_temp = v,
        ThermalMessage::Fan1RampTemp(v) => map.therm.fan1_ramp_temp = v,
        ThermalMessage::Fan1MaxTemp(v) => map.therm.fan1_max_temp = v,
        ThermalMessage::Fan1CrtTemp(v) => map.therm.fan1_crt_temp = v,
        ThermalMessage::Fan1HotTemp(v) => map.therm.fan1_hot_temp = v,
        ThermalMessage::Fan1MaxRpm(v) => map.therm.fan1_max_rpm = v,
        ThermalMessage::Fan1CurRpm(v) => map.therm.fan1_cur_rpm = v,
        ThermalMessage::Tmp1Val(v) => map.therm.tmp1_val = v,
        ThermalMessage::Tmp1Timeout(v) => map.therm.tmp1_timeout = v,
        ThermalMessage::Tmp1Low(v) => map.therm.tmp1_low = v,
        ThermalMessage::Tmp1High(v) => map.therm.tmp1_high = v,
    }
}

/// Write one time/alarm command into the block.
pub fn update_time_alarm_section(map: &mut MemoryMap, msg: &TimeAlarmMessage)
    ensures
        final(map).tas == time_alarm_apply(old(map).tas, *msg),
        final(map).ver == old(map).ver,
        final(map).caps == old(map).caps,
        final(map).batt == old(map).batt,
        final(map).therm == old(map).therm,
{
    match *msg {
        TimeAlarmMessage::Events(v) => map.tas.events = v,
        TimeAlarmMessage::Capability(v) => map.tas.capability = v,
        TimeAlarmMessage::Year(v) => map.tas.year = v,
        TimeAlarmMessage::Month(v) => map.tas.month = v,
        TimeAlarmMessage::Day(v) => map.tas.day = v,
        TimeAlarmMessage::Hour(v) => map.tas.hour = v,
        TimeAlarmMessage::Minute(v) => map.tas.minute = v,
        TimeAlarmMessage::Second(v) => map.tas.second = v,
        TimeAlarmMessage::Valid(v) => map.tas.valid = v,
        TimeAlarmMessage::Daylight(v) => map.tas.daylight = v,
        TimeAlarmMessage::Res1(v) => map.tas.res1 = v,
        TimeAlarmMessage::Milli(v) => map.tas.milli = v,
        TimeAlarmMessage::TimeZone(v) => map.tas.time_zone = v,
        TimeAlarmMessage::Res2(v) => map.tas.res2 = v,
        TimeAlarmMessage::AlarmStatus(v) => map.tas.alarm_status = v,
        TimeAlarmMessage::AcTimeVal(v) => map.tas.ac_time_val = v,
        TimeAlarmMessage::DcTimeVal(v) => map.tas.dc_time_val = v,
    }
}

} // verus!
