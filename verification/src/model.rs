//! Mathematical view of the block: each section as a sequence of its field
//! values, in declaration (wire) order, and the index and value that each
//! update command targets in that view.
//!
//! The view turns the per-field update protocol into plain sequence updates,
//! so the general laws (write/read round trip, idempotence, independence of
//! commands on distinct fields) become statements about `Seq::update`.

use vstd::prelude::*;

use crate::layout::{Battery, Capabilities, MemoryMap, Thermal, TimeAlarm, Version};
use crate::messages::{BatteryMessage, CapabilitiesMessage, ThermalMessage, TimeAlarmMessage};

verus! {

/// Number of entries in the whole-block view.
pub const MEMORY_MAP_FIELDS: usize = 76;

/// The four version bytes packed into one value, little-endian; injective on
/// its byte-sized fields, so one view entry determines the whole `Version`.
pub open spec fn version_word(v: Version) -> int {
    v.major + 0x100 * v.minor + 0x10000 * v.spin + 0x1000000 * v.res0
}

/// The capabilities section as a sequence of field values in wire order.
pub open spec fn capabilities_model(c: Capabilities) -> Seq<int> {
    seq![
        c.events as int,
        c.res1 as int,
        version_word(c.fw_version),
        c.secure_state as int,
        c.boot_status as int,
        c.fan_mask as int,
        c.battery_mask as int,
        c.temp_mask as int,
        c.key_mask as int,
        c.debug_mask as int,
        c.res0 as int,
    ]
}

/// The time/alarm section as a sequence of field values in wire order.
pub open spec fn time_alarm_model(t: TimeAlarm) -> Seq<int> {
    seq![
        t.events as int,
        t.res0 as int,
        t.capability as int,
        t.year as int,
        t.month as int,
        t.day as int,
        t.hour as int,
        t.minute as int,
        t.second as int,
        t.valid as int,
        t.daylight as int,
        t.res1 as int,
        t.milli as int,
        t.time_zone as int,
        t.res2 as int,
        t.alarm_status as int,
        t.ac_time_val as int,
        t.dc_time_val as int,
    ]
}

/// The battery section as a sequence of field values in wire order.
pub open spec fn battery_model(b: Battery) -> Seq<int> {
    seq![
        b.events as int,
        b.res1 as int,
        b.status as int,
        b.last_full_charge as int,
        b.cycle_count as int,
        b.state as int,
        b.present_rate as int,
        b.remain_cap as int,
        b.present_volt as int,
        b.psr_state as int,
        b.psr_max_out as int,
        b.psr_max_in as int,
        b.peak_level as int,
        b.peak_power as int,
        b.sus_level as int,
        b.sus_power as int,
        b.peak_thres as int,
        b.sus_thres as int,
        b.trip_thres as int,
        b.bmc_data as int,
        b.bmd_data as int,
        b.bmd_flags as int,
        b.bmd_count as int,
        b.charge_time as int,
        b.run_time as int,
        b.sample_time as int,
    ]
}

/// The thermal section as a sequence of field values in wire order.
pub open spec fn thermal_model(t: Thermal) -> Seq<int> {
    seq![
        t.events as int,
        t.res1 as int,
        t.cool_mode as int,
        t.dba_limit as int,
        t.sonne_limit as int,
        t.ma_limit as int,
        t.fan1_on_temp as int,
        t.fan1_ramp_temp as int,
        t.fan1_max_temp as int,
        t.fan1_crt_temp as int,
        t.fan1_hot_temp as int,
        t.fan1_max_rpm as int,
        t.fan1_cur_rpm as int,
        t.tmp1_val as int,
        t.tmp1_timeout as int,
        t.tmp1_low as int,
        t.tmp1_high as int,
    ]
}

/// The whole block as one sequence: the version bytes followed by the four
/// section views, in the block's wire order.
pub open spec fn memory_map_model(m: MemoryMap) -> Seq<int> {
    seq![m.ver.major as int, m.ver.minor as int, m.ver.spin as int, m.ver.res0 as int]
        + capabilities_model(m.caps) + time_alarm_model(m.tas) + battery_model(m.batt)
        + thermal_model(m.therm)
}

/// View index targeted by a capabilities command.
pub open spec fn capabilities_index(m: CapabilitiesMessage) -> int {
    match m {
        CapabilitiesMessage::Events(_) => 0,
        CapabilitiesMessage::FwVersion(_) => 2,
        CapabilitiesMessage::SecureState(_) => 3,
        CapabilitiesMessage::BootStatus(_) => 4,
        CapabilitiesMessage::FanMask(_) => 5,
        CapabilitiesMessage::BatteryMask(_) => 6,
        CapabilitiesMessage::TempMask(_) => 7,
        CapabilitiesMessage::KeyMask(_) => 8,
        CapabilitiesMessage::DebugMask(_) => 9,
    }
}

/// Value carried by a capabilities command, as it lands in the view.
pub open spec fn capabilities_value(m: CapabilitiesMessage) -> int {
    match m {
        CapabilitiesMessage::Events(v) => v as int,
        CapabilitiesMessage::FwVersion(v) => version_word(v),
        CapabilitiesMessage::SecureState(v) => v as int,
        CapabilitiesMessage::BootStatus(v) => v as int,
        CapabilitiesMessage::FanMask(v) => v as int,
        CapabilitiesMessage::BatteryMask(v) => v as int,
        CapabilitiesMessage::TempMask(v) => v as int,
        CapabilitiesMessage::KeyMask(v) => v as int,
        CapabilitiesMessage::DebugMask(v) => v as int,
    }
}

/// View index targeted by a time/alarm command.
pub open spec fn time_alarm_index(m: TimeAlarmMessage) -> int {
    match m {
        TimeAlarmMessage::Events(_) => 0,
        TimeAlarmMessage::Capability(_) => 2,
        TimeAlarmMessage::Year(_) => 3,
        TimeAlarmMessage::Month(_) => 4,
        TimeAlarmMessage::Day(_) => 5,
        TimeAlarmMessage::Hour(_) => 6,
        TimeAlarmMessage::Minute(_) => 7,
        TimeAlarmMessage::Second(_) => 8,
        TimeAlarmMessage::Valid(_) => 9,
        TimeAlarmMessage::Daylight(_) => 10,
        TimeAlarmMessage::Res1(_) => 11,
        TimeAlarmMessage::Milli(_) => 12,
        TimeAlarmMessage::TimeZone(_) => 13,
        TimeAlarmMessage::Res2(_) => 14,
        TimeAlarmMessage::AlarmStatus(_) => 15,
        TimeAlarmMessage::AcTimeVal(_) => 16,
        TimeAlarmMessage::DcTimeVal(_) => 17,
    }
}

/// Value carried by a time/alarm command.
pub open spec fn time_alarm_value(m: TimeAlarmMessage) -> int {
    match m {
        TimeAlarmMessage::Events(v) => v as int,
        TimeAlarmMessage::Capability(v) => v as int,
        TimeAlarmMessage::Year(v) => v as int,
        TimeAlarmMessage::Month(v) => v as int,
        TimeAlarmMessage::Day(v) => v as int,
        TimeAlarmMessage::Hour(v) => v as int,
        TimeAlarmMessage::Minute(v) => v as int,
        TimeAlarmMessage::Second(v) => v as int,
        TimeAlarmMessage::Valid(v) => v as int,
        TimeAlarmMessage::Daylight(v) => v as int,
        TimeAlarmMessage::Res1(v) => v as int,
        TimeAlarmMessage::Milli(v) => v as int,
        TimeAlarmMessage::TimeZone(v) => v as int,
        TimeAlarmMessage::Res2(v) => v as int,
        TimeAlarmMessage::AlarmStatus(v) => v as int,
        TimeAlarmMessage::AcTimeVal(v) => v as int,
        TimeAlarmMessage::DcTimeVal(v) => v as int,
    }
}

/// View index targeted by a battery command.
pub open spec fn battery_index(m: BatteryMessage) -> int {
    match m {
        BatteryMessage::Events(_) => 0,
        BatteryMessage::LastFullCharge(_) => 3,
        BatteryMessage::CycleCount(_) => 4,
        BatteryMessage::State(_) => 5,
        BatteryMessage::PresentRate(_) => 6,
        BatteryMessage::RemainCap(_) => 7,
        BatteryMessage::PresentVolt(_) => 8,
        BatteryMessage::PsrState(_) => 9,
        BatteryMessage::PsrMaxOut(_) => 10,
        BatteryMessage::PsrMaxIn(_) => 11,
        BatteryMessage::PeakLevel(_) => 12,
        BatteryMessage::PeakPower(_) => 13,
        BatteryMessage::SusLevel(_) => 14,
        BatteryMessage::SusPower(_) => 15,
        BatteryMessage::PeakThres(_) => 16,
        BatteryMessage::SusThres(_) => 17,
        BatteryMessage::TripThres(_) => 18,
        BatteryMessage::BmcData(_) => 19,
        BatteryMessage::BmdData(_) => 20,
        BatteryMessage::BmdFlags(_) => 21,
        BatteryMessage::BmdCount(_) => 22,
        BatteryMessage::ChargeTime(_) => 23,
        BatteryMessage::RunTime(_) => 24,
        BatteryMessage::SampleTime(_) => 25,
    }
}

/// Value carried by a battery command.
pub open spec fn battery_value(m: BatteryMessage) -> int {
    match m {
        BatteryMessage::Events(v) => v as int,
        BatteryMessage::LastFullCharge(v) => v as int,
        BatteryMessage::CycleCount(v) => v as int,
        BatteryMessage::State(v) => v as int,
        BatteryMessage::PresentRate(v) => v as int,
        BatteryMessage::RemainCap(v) => v as int,
        BatteryMessage::PresentVolt(v) => v as int,
        BatteryMessage::PsrState(v) => v as int,
        BatteryMessage::PsrMaxOut(v) => v as int,
        BatteryMessage::PsrMaxIn(v) => v as int,
        BatteryMessage::PeakLevel(v) => v as int,
        BatteryMessage::PeakPower(v) => v as int,
        BatteryMessage::SusLevel(v) => v as int,
        BatteryMessage::SusPower(v) => v as int,
        BatteryMessage::PeakThres(v) => v as int,
        BatteryMessage::SusThres(v) => v as int,
        BatteryMessage::TripThres(v) => v as int,
        BatteryMessage::BmcData(v) => v as int,
        BatteryMessage::BmdData(v) => v as int,
        BatteryMessage::BmdFlags(v) => v as int,
        BatteryMessage::BmdCount(v) => v as int,
        BatteryMessage::ChargeTime(v) => v as int,
        BatteryMessage::RunTime(v) => v as int,
        BatteryMessage::SampleTime(v) => v as int,
    }
}

/// View index targeted by a thermal command.
pub open spec fn thermal_index(m: ThermalMessage) -> int {
    match m {
        ThermalMessage::Events(_) => 0,
        ThermalMessage::CoolMode(_) => 2,
        ThermalMessage::DbaLimit(_) => 3,
        ThermalMessage::SonneLimit(_) => 4,
        ThermalMessage::MaLimit(_) => 5,
        ThermalMessage::Fan1OnTemp(_) => 6,
        ThermalMessage::Fan1RampTemp(_) => 7,
        ThermalMessage::Fan1MaxTemp(_) => 8,
        ThermalMessage::Fan1CrtTemp(_) => 9,
        ThermalMessage::Fan1HotTemp(_) => 10,
        ThermalMessage::Fan1MaxRpm(_) => 11,
        ThermalMessage::Fan1CurRpm(_) => 12,
        ThermalMessage::Tmp1Val(_) => 13,
        ThermalMessage::Tmp1Timeout(_) => 14,
        ThermalMessage::Tmp1Low(_) => 15,
        ThermalMessage::Tmp1High(_) => 16,
    }
}

/// Value carried by a thermal command.
pub open spec fn thermal_value(m: ThermalMessage) -> int {
    match m {
        ThermalMessage::Events(v) => v as int,
        ThermalMessage::CoolMode(v) => v as int,
        ThermalMessage::DbaLimit(v) => v as int,
        ThermalMessage::SonneLimit(v) => v as int,
        ThermalMessage::MaLimit(v) => v as int,
        ThermalMessage::Fan1OnTemp(v) => v as int,
        ThermalMessage::Fan1RampTemp(v) => v as int,
        ThermalMessage::Fan1MaxTemp(v) => v as int,
        ThermalMessage::Fan1CrtTemp(v) => v as int,
        ThermalMessage::Fan1HotTemp(v) => v as int,
        ThermalMessage::Fan1MaxRpm(v) => v as int,
        ThermalMessage::Fan1CurRpm(v) => v as int,
        ThermalMessage::Tmp1Val(v) => v as int,
        ThermalMessage::Tmp1Timeout(v) => v as int,
        ThermalMessage::Tmp1Low(v) => v as int,
        ThermalMessage::Tmp1High(v) => v as int,
    }
}

/// Packing the version bytes into one word loses nothing: equal words mean
/// equal versions.
pub proof fn lemma_version_word_injective(a: Version, b: Version)
    requires
        version_word(a) == version_word(b),
    ensures
        a == b,
{
    let rest_a = a.minor + 0x100 * a.spin + 0x10000 * a.res0;
    let rest_b = b.minor + 0x100 * b.spin + 0x10000 * b.res0;
    assert(a.major - b.major == 0x100 * (rest_b - rest_a));
    if rest_b - rest_a >= 1 {
        assert(a.major - b.major >= 0x100);
    }
    if rest_b - rest_a <= -1 {
        assert(a.major - b.major <= -0x100);
    }
    assert(a.major == b.major);
    assert(a.minor - b.minor == 0x100 * ((b.spin + 0x100 * b.res0) - (a.spin + 0x100 * a.res0)));
    if (b.spin + 0x100 * b.res0) - (a.spin + 0x100 * a.res0) >= 1 {
        assert(a.minor - b.minor >= 0x100);
    }
    if (b.spin + 0x100 * b.res0) - (a.spin + 0x100 * a.res0) <= -1 {
        assert(a.minor - b.minor <= -0x100);
    }
    assert(a.minor == b.minor);
    assert(a.spin - b.spin == 0x100 * (b.res0 - a.res0));
    if b.res0 - a.res0 >= 1 {
        assert(a.spin - b.spin >= 0x100);
    }
    if b.res0 - a.res0 <= -1 {
        assert(a.spin - b.spin <= -0x100);
    }
    assert(a.spin == b.spin);
    assert(a.res0 == b.res0);
}

/// The capabilities view determines the section.
pub proof fn lemma_capabilities_model_injective(x: Capabilities, y: Capabilities)
    requires
        capabilities_model(x) == capabilities_model(y),
    ensures
        x == y,
{
    assert(capabilities_model(x)[0] == capabilities_model(y)[0]);
    assert(capabilities_model(x)[1] == capabilities_model(y)[1]);
    assert(capabilities_model(x)[2] == capabilities_model(y)[2]);
    assert(capabilities_model(x)[3] == capabilities_model(y)[3]);
    assert(capabilities_model(x)[4] == capabilities_model(y)[4]);
    assert(capabilities_model(x)[5] == capabilities_model(y)[5]);
    assert(capabilities_model(x)[6] == capabilities_model(y)[6]);
    assert(capabilities_model(x)[7] == capabilities_model(y)[7]);
    assert(capabilities_model(x)[8] == capabilities_model(y)[8]);
    assert(capabilities_model(x)[9] == capabilities_model(y)[9]);
    assert(capabilities_model(x)[10] == capabilities_model(y)[10]);
    lemma_version_word_injective(x.fw_version, y.fw_version);
}

/// The time/alarm view determines the section.
pub proof fn lemma_time_alarm_model_injective(x: TimeAlarm, y: TimeAlarm)
    requires
        time_alarm_model(x) == time_alarm_model(y),
    ensures
        x == y,
{
    assert(time_alarm_model(x)[0] == time_alarm_model(y)[0]);
    assert(time_alarm_model(x)[1] == time_alarm_model(y)[1]);
    assert(time_alarm_model(x)[2] == time_alarm_model(y)[2]);
    assert(time_alarm_model(x)[3] == time_alarm_model(y)[3]);
    assert(time_alarm_model(x)[4] == time_alarm_model(y)[4]);
    assert(time_alarm_model(x)[5] == time_alarm_model(y)[5]);
    assert(time_alarm_model(x)[6] == time_alarm_model(y)[6]);
    assert(time_alarm_model(x)[7] == time_alarm_model(y)[7]);
    assert(time_alarm_model(x)[8] == time_alarm_model(y)[8]);
    assert(time_alarm_model(x)[9] == time_alarm_model(y)[9]);
    assert(time_alarm_model(x)[10] == time_alarm_model(y)[10]);
    assert(time_alarm_model(x)[11] == time_alarm_model(y)[11]);
    assert(time_alarm_model(x)[12] == time_alarm_model(y)[12]);
    assert(time_alarm_model(x)[13] == time_alarm_model(y)[13]);
    assert(time_alarm_model(x)[14] == time_alarm_model(y)[14]);
    assert(time_alarm_model(x)[15] == time_alarm_model(y)[15]);
    assert(time_alarm_model(x)[16] == time_alarm_model(y)[16]);
    assert(time_alarm_model(x)[17] == time_alarm_model(y)[17]);
}

/// The battery view determines the section.
pub proof fn lemma_battery_model_injective(x: Battery, y: Battery)
    requires
        battery_model(x) == battery_model(y),
    ensures
        x == y,
{
    assert(battery_model(x)[0] == battery_model(y)[0]);
    assert(battery_model(x)[1] == battery_model(y)[1]);
    assert(battery_model(x)[2] == battery_model(y)[2]);
    assert(battery_model(x)[3] == battery_model(y)[3]);
    assert(battery_model(x)[4] == battery_model(y)[4]);
    assert(battery_model(x)[5] == battery_model(y)[5]);
    assert(battery_model(x)[6] == battery_model(y)[6]);
    assert(battery_model(x)[7] == battery_model(y)[7]);
    assert(battery_model(x)[8] == battery_model(y)[8]);
    assert(battery_model(x)[9] == battery_model(y)[9]);
    assert(battery_model(x)[10] == battery_model(y)[10]);
    assert(battery_model(x)[11] == battery_model(y)[11]);
    assert(battery_model(x)[12] == battery_model(y)[12]);
    assert(battery_model(x)[13] == battery_model(y)[13]);
    assert(battery_model(x)[14] == battery_model(y)[14]);
    assert(battery_model(x)[15] == battery_model(y)[15]);
    assert(battery_model(x)[16] == battery_model(y)[16]);
    assert(battery_model(x)[17] == battery_model(y)[17]);
    assert(battery_model(x)[18] == battery_model(y)[18]);
    assert(battery_model(x)[19] == battery_model(y)[19]);
    assert(battery_model(x)[20] == battery_model(y)[20]);
    assert(battery_model(x)[21] == battery_model(y)[21]);
    assert(battery_model(x)[22] == battery_model(y)[22]);
    assert(battery_model(x)[23] == battery_model(y)[23]);
    assert(battery_model(x)[24] == battery_model(y)[24]);
    assert(battery_model(x)[25] == battery_model(y)[25]);
}

/// The thermal view determines the section.
pub proof fn lemma_thermal_model_injective(x: Thermal, y: Thermal)
    requires
        thermal_model(x) == thermal_model(y),
    ensures
        x == y,
{
    assert(thermal_model(x)[0] == thermal_model(y)[0]);
    assert(thermal_model(x)[1] == thermal_model(y)[1]);
    assert(thermal_model(x)[2] == thermal_model(y)[2]);
    assert(thermal_model(x)[3] == thermal_model(y)[3]);
    assert(thermal_model(x)[4] == thermal_model(y)[4]);
    assert(thermal_model(x)[5] == thermal_model(y)[5]);
    assert(thermal_model(x)[6] == thermal_model(y)[6]);
    assert(thermal_model(x)[7] == thermal_model(y)[7]);
    assert(thermal_model(x)[8] == thermal_model(y)[8]);
    assert(thermal_model(x)[9] == thermal_model(y)[9]);
    assert(thermal_model(x)[10] == thermal_model(y)[10]);
    assert(thermal_model(x)[11] == thermal_model(y)[11]);
    assert(thermal_model(x)[12] == thermal_model(y)[12]);
    assert(thermal_model(x)[13] == thermal_model(y)[13]);
    assert(thermal_model(x)[14] == thermal_model(y)[14]);
    assert(thermal_model(x)[15] == thermal_model(y)[15]);
    assert(thermal_model(x)[16] == thermal_model(y)[16]);
}

/// The whole-block view splits at the documented bases into the version
/// bytes and the four section views.
pub proof fn lemma_memory_map_model_sections(m: MemoryMap)
    ensures
        memory_map_model(m).subrange(0, 4) == seq![
            m.ver.major as int,
            m.ver.minor as int,
            m.ver.spin as int,
            m.ver.res0 as int,
        ],
        memory_map_model(m).subrange(4, 15) == capabilities_model(m.caps),
        memory_map_model(m).subrange(15, 33) == time_alarm_model(m.tas),
        memory_map_model(m).subrange(33, 59) == battery_model(m.batt),
        memory_map_model(m).subrange(59, 76) == thermal_model(m.therm),
{
    assert(memory_map_model(m).subrange(0, 4) =~= seq![
        m.ver.major as int,
        m.ver.minor as int,
        m.ver.spin as int,
        m.ver.res0 as int,
    ]);
    assert(memory_map_model(m).subrange(4, 15) =~= capabilities_model(m.caps));
    assert(memory_map_model(m).subrange(15, 33) =~= time_alarm_model(m.tas));
    assert(memory_map_model(m).subrange(33, 59) =~= battery_model(m.batt));
    assert(memory_map_model(m).subrange(59, 76) =~= thermal_model(m.therm));
}

/// The whole-block view determines the block: two blocks with the same view
/// are equal field for field.
pub proof fn lemma_memory_map_model_injective(a: MemoryMap, b: MemoryMap)
    requires
        memory_map_model(a) == memory_map_model(b),
    ensures
        a == b,
{
    lemma_memory_map_model_sections(a);
    lemma_memory_map_model_sections(b);
    lemma_capabilities_model_injective(a.caps, b.caps);
    lemma_time_alarm_model_injective(a.tas, b.tas);
    lemma_battery_model_injective(a.batt, b.batt);
    lemma_thermal_model_injective(a.therm, b.therm);
    let va = memory_map_model(a).subrange(0, 4);
    let vb = memory_map_model(b).subrange(0, 4);
    assert(va[0] == vb[0]);
    assert(va[1] == vb[1]);
    assert(va[2] == vb[2]);
    assert(va[3] == vb[3]);
    assert(a.ver == b.ver);
}

/// Applying a capabilities command moves the view by exactly one
/// `Seq::update` at the command's index, with the command's value.
pub proof fn lemma_capabilities_apply_model(c: Capabilities, m: CapabilitiesMessage)
    ensures
        capabilities_model(crate::update::capabilities_apply(c, m))
            == capabilities_model(c).update(capabilities_index(m), capabilities_value(m)),
{
    assert(capabilities_model(crate::update::capabilities_apply(c, m))
        =~= capabilities_model(c).update(capabilities_index(m), capabilities_value(m)));
}

/// Applying a time/alarm command moves the view by one `Seq::update`.
pub proof fn lemma_time_alarm_apply_model(t: TimeAlarm, m: TimeAlarmMessage)
    ensures
        time_alarm_model(crate::update::time_alarm_apply(t, m))
            == time_alarm_model(t).update(time_alarm_index(m), time_alarm_value(m)),
{
    assert(time_alarm_model(crate::update::time_alarm_apply(t, m))
        =~= time_alarm_model(t).update(time_alarm_index(m), time_alarm_value(m)));
}

/// Applying a battery command moves the view by one `Seq::update`.
pub proof fn lemma_battery_apply_model(b: Battery, m: BatteryMessage)
    ensures
        battery_model(crate::update::battery_apply(b, m))
            == battery_model(b).update(battery_index(m), battery_value(m)),
{
    assert(battery_model(crate::update::battery_apply(b, m))
        =~= battery_model(b).update(battery_index(m), battery_value(m)));
}

/// Applying a thermal command moves the view by one `Seq::update`.
pub proof fn lemma_thermal_apply_model(t: Thermal, m: ThermalMessage)
    ensures
        thermal_model(crate::update::thermal_apply(t, m))
            == thermal_model(t).update(thermal_index(m), thermal_value(m)),
{
    assert(thermal_model(crate::update::thermal_apply(t, m))
        =~= thermal_model(t).update(thermal_index(m), thermal_value(m)));
}

} // verus!
