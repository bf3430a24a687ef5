//! Host-visible byte layout of the shared status block.
//!
//! The host reads the shared region as a raw byte window keyed by documented
//! offsets, so the layout is a wire contract: every field sits at a fixed
//! offset, little-endian, with no padding between or within sections. The
//! specification functions below state that layout byte for byte, and
//! `MemoryMap::encode` is proved to produce exactly those bytes, replacing
//! the raw overlay of a packed structure with a checked projection.

use vstd::prelude::*;

use crate::layout::{
    Battery, Capabilities, MemoryMap, Thermal, TimeAlarm, Version, BATTERY_OFFSET,
    BATTERY_SIZE, CAPABILITIES_OFFSET, CAPABILITIES_SIZE, MEMORY_MAP_SIZE, THERMAL_OFFSET,
    THERMAL_SIZE, TIME_ALARM_OFFSET, TIME_ALARM_SIZE, VERSION_OFFSET, VERSION_SIZE,
};

verus! {

/// A halfword on the wire: two bytes, little-endian.
pub open spec fn le16_bytes(v: u16) -> Seq<u8> {
    seq![(v & 0xff) as u8, ((v >> 8) & 0xff) as u8]
}

/// A word on the wire: four bytes, little-endian.
pub open spec fn le32_bytes(v: u32) -> Seq<u8> {
    seq![
        (v & 0xff) as u8,
        ((v >> 8) & 0xff) as u8,
        ((v >> 16) & 0xff) as u8,
        ((v >> 24) & 0xff) as u8,
    ]
}

/// The version on the wire: its four byte fields in declaration order.
pub open spec fn version_bytes(v: Version) -> Seq<u8> {
    seq![v.major, v.minor, v.spin, v.res0]
}

/// The capabilities section on the wire.
pub open spec fn capabilities_bytes(c: Capabilities) -> Seq<u8> {
    le16_bytes(c.events) + le16_bytes(c.res1) + version_bytes(c.fw_version) + seq![
        c.secure_state,
        c.boot_status,
        c.fan_mask,
        c.battery_mask,
    ] + le16_bytes(c.temp_mask) + le16_bytes(c.key_mask) + le16_bytes(c.debug_mask) + le16_bytes(
        c.res0,
    )
}

/// The time/alarm section on the wire. The reserved fields stay in place:
/// later fields' offsets depend on them.
pub open spec fn time_alarm_bytes(t: TimeAlarm) -> Seq<u8> {
    le16_bytes(t.events) + le16_bytes(t.res0) + le32_bytes(t.capability) + le16_bytes(t.year)
        + seq![t.month, t.day, t.hour, t.minute, t.second, t.valid, t.daylight, t.res1]
        + le16_bytes(t.milli) + le16_bytes(t.time_zone) + le16_bytes(t.res2) + le32_bytes(
        t.alarm_status,
    ) + le32_bytes(t.ac_time_val) + le32_bytes(t.dc_time_val)
}

/// The battery section on the wire.
pub open spec fn battery_bytes(b: Battery) -> Seq<u8> {
    le16_bytes(b.events) + le16_bytes(b.res1) + le32_bytes(b.status) + le32_bytes(
        b.last_full_charge,
    ) + le32_bytes(b.cycle_count) + le32_bytes(b.state) + le32_bytes(b.present_rate) + le32_bytes(
        b.remain_cap,
    ) + le32_bytes(b.present_volt) + le32_bytes(b.psr_state) + le32_bytes(b.psr_max_out)
        + le32_bytes(b.psr_max_in) + le32_bytes(b.peak_level) + le32_bytes(b.peak_power)
        + le32_bytes(b.sus_level) + le32_bytes(b.sus_power) + le32_bytes(b.peak_thres)
        + le32_bytes(b.sus_thres) + le32_bytes(b.trip_thres) + le32_bytes(b.bmc_data)
        + le32_bytes(b.bmd_data) + le32_bytes(b.bmd_flags) + le32_bytes(b.bmd_count) + le32_bytes(
        b.charge_time,
    ) + le32_bytes(b.run_time) + le32_bytes(b.sample_time)
}

/// The thermal section on the wire.
pub open spec fn thermal_bytes(t: Thermal) -> Seq<u8> {
    le16_bytes(t.events) + le16_bytes(t.res1) + le32_bytes(t.cool_mode) + le32_bytes(t.dba_limit)
        + le32_bytes(t.sonne_limit) + le32_bytes(t.ma_limit) + le32_bytes(t.fan1_on_temp)
        + le32_bytes(t.fan1_ramp_temp) + le32_bytes(t.fan1_max_temp) + le32_bytes(t.fan1_crt_temp)
        + le32_bytes(t.fan1_hot_temp) + le32_bytes(t.fan1_max_rpm) + le32_bytes(t.fan1_cur_rpm)
        + le32_bytes(t.tmp1_val) + le32_bytes(t.tmp1_timeout) + le32_bytes(t.tmp1_low)
        + le32_bytes(t.tmp1_high)
}

/// The whole block on the wire: the five parts concatenated in order.
pub open spec fn memory_map_bytes(m: MemoryMap) -> Seq<u8> {
    version_bytes(m.ver) + capabilities_bytes(m.caps) + time_alarm_bytes(m.tas) + battery_bytes(
        m.batt,
    ) + thermal_bytes(m.therm)
}

/// Append a halfword to the wire image, little-endian.
fn push_u16(out: &mut Vec<u8>, v: u16)
    ensures
        final(out)@ == old(out)@ + le16_bytes(v),
{
    out.push((v & 0xff) as u8);
    out.push(((v >> 8) & 0xff) as u8);
    proof {
        assert(out@ =~= old(out)@ + le16_bytes(v));
    }
}

/// Append a word to the wire image, little-endian.
fn push_u32(out: &mut Vec<u8>, v: u32)
    ensures
        final(out)@ == old(out)@ + le32_bytes(v),
{
    out.push((v & 0xff) as u8);
    out.push(((v >> 8) & 0xff) as u8);
    out.push(((v >> 16) & 0xff) as u8);
    out.push(((v >> 24) & 0xff) as u8);
    proof {
        assert(out@ =~= old(out)@ + le32_bytes(v));
    }
}

impl Version {
    /// Append this version's wire image.
    pub fn write_to(&self, out: &mut Vec<u8>)
        ensures
            final(out)@ == old(out)@ + version_bytes(*self),
    {
        out.push(self.major);
        out.push(self.minor);
        out.push(self.spin);
        out.push(self.res0);
        proof {
            assert(out@ =~= old(out)@ + version_bytes(*self));
        }
    }
}

impl Capabilities {
    /// Append this section's wire image.
    pub fn write_to(&self, out: &mut Vec<u8>)
        ensures
            final(out)@ == old(out)@ + capabilities_bytes(*self),
    {
        push_u16(out, self.events);
        push_u16(out, self.res1);
        self.fw_version.write_to(out);
        out.push(self.secure_state);
        out.push(self.boot_status);
        out.push(self.fan_mask);
        out.push(self.battery_mask);
        push_u16(out, self.temp_mask);
        push_u16(out, self.key_mask);
        push_u16(out, self.debug_mask);
        push_u16(out, self.res0);
        proof {
            assert(out@ =~= old(out)@ + capabilities_bytes(*self));
        }
    }
}

impl TimeAlarm {
    /// Append this section's wire image.
    pub fn write_to(&self, out: &mut Vec<u8>)
        ensures
            final(out)@ == old(out)@ + time_alarm_bytes(*self),
    {
        push_u16(out, self.events);
        push_u16(out, self.res0);
        push_u32(out, self.capability);
        push_u16(out, self.year);
        out.push(self.month);
        out.push(self.day);
        out.push(self.hour);
        out.push(self.minute);
        out.push(self.second);
        out.push(self.valid);
        out.push(self.daylight);
        out.push(self.res1);
        push_u16(out, self.milli);
        push_u16(out, self.time_zone);
        push_u16(out, self.res2);
        push_u32(out, self.alarm_status);
        push_u32(out, self.ac_time_val);
        push_u32(out, self.dc_time_val);
        proof {
            assert(out@ =~= old(out)@ + time_alarm_bytes(*self));
        }
    }
}

impl Battery {
    /// Append this section's wire image.
    #[verifier::rlimit(60)]
    pub fn write_to(&self, out: &mut Vec<u8>)
        ensures
            final(out)@ == old(out)@ + battery_bytes(*self),
    {
        push_u16(out, self.events);
        push_u16(out, self.res1);
        push_u32(out, self.status);
        push_u32(out, self.last_full_charge);
        push_u32(out, self.cycle_count);
        push_u32(out, self.state);
        push_u32(out, self.present_rate);
        push_u32(out, self.remain_cap);
        push_u32(out, self.present_volt);
        push_u32(out, self.psr_state);
        push_u32(out, self.psr_max_out);
        push_u32(out, self.psr_max_in);
        push_u32(out, self.peak_level);
        push_u32(out, self.peak_power);
        push_u32(out, self.sus_level);
        push_u32(out, self.sus_power);
        push_u32(out, self.peak_thres);
        push_u32(out, self.sus_thres);
        push_u32(out, self.trip_thres);
        push_u32(out, self.bmc_data);
        push_u32(out, self.bmd_data);
        push_u32(out, self.bmd_flags);
        push_u32(out, self.bmd_count);
        push_u32(out, self.charge_time);
        push_u32(out, self.run_time);
        push_u32(out, self.sample_time);
        proof {
            assert(out@ =~= old(out)@ + battery_bytes(*self));
        }
    }
}

impl Thermal {
    /// Append this section's wire image.
    #[verifier::rlimit(60)]
    pub fn write_to(&self, out: &mut Vec<u8>)
        ensures
            final(out)@ == old(out)@ + thermal_bytes(*self),
    {
        push_u16(out, self.events);
        push_u16(out, self.res1);
        push_u32(out, self.cool_mode);
        push_u32(out, self.dba_limit);
        push_u32(out, self.sonne_limit);
        push_u32(out, self.ma_limit);
        push_u32(out, self.fan1_on_temp);
        push_u32(out, self.fan1_ramp_temp);
        push_u32(out, self.fan1_max_temp);
        push_u32(out, self.fan1_crt_temp);
        push_u32(out, self.fan1_hot_temp);
        push_u32(out, self.fan1_max_rpm);
        push_u32(out, self.fan1_cur_rpm);
        push_u32(out, self.tmp1_val);
        push_u32(out, self.tmp1_timeout);
        push_u32(out, self.tmp1_low);
        push_u32(out, self.tmp1_high);
        proof {
            assert(out@ =~= old(out)@ + thermal_bytes(*self));
        }
    }
}

impl MemoryMap {
    /// Project the block onto its host-visible wire image: exactly the bytes
    /// the host reads through the shared region, section by section at the
    /// documented offsets.
    pub fn encode(&self) -> (r: Vec<u8>)
        ensures
            r@ == memory_map_bytes(*self),
            r@.len() == MEMORY_MAP_SIZE,
    {
        let mut out: Vec<u8> = Vec::new();
        self.ver.write_to(&mut out);
        self.caps.write_to(&mut out);
        self.tas.write_to(&mut out);
        self.batt.write_to(&mut out);
        self.therm.write_to(&mut out);
        proof {
            assert(out@ =~= memory_map_bytes(*self));
            lemma_memory_map_bytes_len(*self);
        }
        out
    }
}

/// Each section's wire width, and the block's: the size the startup check
/// holds the reserved buffer against.
pub proof fn lemma_memory_map_bytes_len(m: MemoryMap)
    ensures
        version_bytes(m.ver).len() == VERSION_SIZE,
        capabilities_bytes(m.caps).len() == CAPABILITIES_SIZE,
        time_alarm_bytes(m.tas).len() == TIME_ALARM_SIZE,
        battery_bytes(m.batt).len() == BATTERY_SIZE,
        thermal_bytes(m.therm).len() == THERMAL_SIZE,
        memory_map_bytes(m).len() == MEMORY_MAP_SIZE,
{
}

/// The wire image of the freshly installed block: the buffer is zero-filled
/// and then the version is stamped in, so every byte is zero except the
/// minor-version byte, which reads 1.
pub proof fn lemma_initial_block_bytes()
    ensures
        memory_map_bytes(MemoryMap::initial()).len() == MEMORY_MAP_SIZE,
        memory_map_bytes(MemoryMap::initial())[1] == 1,
        forall|j: int|
            0 <= j < MEMORY_MAP_SIZE && j != 1 ==> memory_map_bytes(MemoryMap::initial())[j]
                == 0,
{
    lemma_memory_map_bytes_len(MemoryMap::initial());
    assert((0u16 & 0xff) as u8 == 0 && ((0u16 >> 8) & 0xff) as u8 == 0) by (bit_vector);
    assert((0u32 & 0xff) as u8 == 0 && ((0u32 >> 8) & 0xff) as u8 == 0 && ((0u32 >> 16)
        & 0xff) as u8 == 0 && ((0u32 >> 24) & 0xff) as u8 == 0) by (bit_vector);
    assert(memory_map_bytes(MemoryMap::initial()) =~= Seq::new(
        MEMORY_MAP_SIZE as nat,
        |j: int| if j == 1 { 1u8 } else { 0u8 },
    ));
}

/// Each section sits at its documented offset inside the block's wire
/// image: the layout has no padding between sections.
pub proof fn lemma_section_offsets(m: MemoryMap)
    ensures
        memory_map_bytes(m).subrange(
            VERSION_OFFSET as int,
            VERSION_OFFSET + VERSION_SIZE,
        ) == version_bytes(m.ver),
        memory_map_bytes(m).subrange(
            CAPABILITIES_OFFSET as int,
            CAPABILITIES_OFFSET + CAPABILITIES_SIZE,
        ) == capabilities_bytes(m.caps),
        memory_map_bytes(m).subrange(
            TIME_ALARM_OFFSET as int,
            TIME_ALARM_OFFSET + TIME_ALARM_SIZE,
        ) == time_alarm_bytes(m.tas),
        memory_map_bytes(m).subrange(
            BATTERY_OFFSET as int,
            BATTERY_OFFSET + BATTERY_SIZE,
        ) == battery_bytes(m.batt),
        memory_map_bytes(m).subrange(
            THERMAL_OFFSET as int,
            THERMAL_OFFSET + THERMAL_SIZE,
        ) == thermal_bytes(m.therm),
{
    lemma_memory_map_bytes_len(m);
    assert(memory_map_bytes(m).subrange(VERSION_OFFSET as int, VERSION_OFFSET + VERSION_SIZE)
        =~= version_bytes(m.ver));
    assert(memory_map_bytes(m).subrange(
        CAPABILITIES_OFFSET as int,
        CAPABILITIES_OFFSET + CAPABILITIES_SIZE,
    ) =~= capabilities_bytes(m.caps));
    assert(memory_map_bytes(m).subrange(
        TIME_ALARM_OFFSET as int,
        TIME_ALARM_OFFSET + TIME_ALARM_SIZE,
    ) =~= time_alarm_bytes(m.tas));
    assert(memory_map_bytes(m).subrange(BATTERY_OFFSET as int, BATTERY_OFFSET + BATTERY_SIZE)
        =~= battery_bytes(m.batt));
    assert(memory_map_bytes(m).subrange(THERMAL_OFFSET as int, THERMAL_OFFSET + THERMAL_SIZE)
        =~= thermal_bytes(m.therm));
}

} // verus!
