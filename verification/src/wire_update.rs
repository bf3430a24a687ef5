//! The update protocol projected onto the wire: applying one recognized
//! command rewrites exactly the targeted field's bytes, little-endian, at
//! the field's documented offset in the host-visible image, and no other
//! byte of the shared region — in particular never the version bytes at the
//! front. This is the byte-exact form of the single-field atomicity the
//! host relies on.

use vstd::prelude::*;

use crate::dispatch::{is_update, memory_map_apply, MailboxMessage};
use crate::layout::{Battery, Capabilities, MemoryMap, Thermal, TimeAlarm, MEMORY_MAP_SIZE};
use crate::messages::{BatteryMessage, CapabilitiesMessage, ThermalMessage, TimeAlarmMessage};
use crate::update::{battery_apply, capabilities_apply, thermal_apply, time_alarm_apply};
use crate::wire::{
    battery_bytes, capabilities_bytes, le16_bytes, le32_bytes, memory_map_bytes, thermal_bytes,
    time_alarm_bytes, version_bytes,
};

verus! {

/// `s` with `repl` written over its bytes from `off` on.
pub open spec fn splice(s: Seq<u8>, off: int, repl: Seq<u8>) -> Seq<u8> {
    s.subrange(0, off) + repl + s.subrange(off + repl.len(), s.len() as int)
}

/// Byte offset, inside the capabilities section, of the field a command
/// targets.
pub open spec fn capabilities_byte_offset(m: CapabilitiesMessage) -> int {
    match m {
        CapabilitiesMessage::Events(_) => 0,
        CapabilitiesMessage::FwVersion(_) => 4,
        CapabilitiesMessage::SecureState(_) => 8,
        CapabilitiesMessage::BootStatus(_) => 9,
        CapabilitiesMessage::FanMask(_) => 10,
        CapabilitiesMessage::BatteryMask(_) => 11,
        CapabilitiesMessage::TempMask(_) => 12,
        CapabilitiesMessage::KeyMask(_) => 14,
        CapabilitiesMessage::DebugMask(_) => 16,
    }
}

/// Wire encoding of the value a capabilities command carries.
pub open spec fn capabilities_field_bytes(m: CapabilitiesMessage) -> Seq<u8> {
    match m {
        CapabilitiesMessage::Events(v) => le16_bytes(v),
        CapabilitiesMessage::FwVersion(v) => version_bytes(v),
        CapabilitiesMessage::SecureState(v) => seq![v],
        CapabilitiesMessage::BootStatus(v) => seq![v],
        CapabilitiesMessage::FanMask(v) => seq![v],
        CapabilitiesMessage::BatteryMask(v) => seq![v],
        CapabilitiesMessage::TempMask(v) => le16_bytes(v),
        CapabilitiesMessage::KeyMask(v) => le16_bytes(v),
        CapabilitiesMessage::DebugMask(v) => le16_bytes(v),
    }
}

/// Byte offset, inside the time/alarm section, of the field a command
/// targets.
pub open spec fn time_alarm_byte_offset(m: TimeAlarmMessage) -> int {
    match m {
        TimeAlarmMessage::Events(_) => 0,
        TimeAlarmMessage::Capability(_) => 4,
        TimeAlarmMessage::Year(_) => 8,
        TimeAlarmMessage::Month(_) => 10,
        TimeAlarmMessage::Day(_) => 11,
        TimeAlarmMessage::Hour(_) => 12,
        TimeAlarmMessage::Minute(_) => 13,
        TimeAlarmMessage::Second(_) => 14,
        TimeAlarmMessage::Valid(_) => 15,
        TimeAlarmMessage::Daylight(_) => 16,
        TimeAlarmMessage::Res1(_) => 17,
        TimeAlarmMessage::Milli(_) => 18,
        TimeAlarmMessage::TimeZone(_) => 20,
        TimeAlarmMessage::Res2(_) => 22,
        TimeAlarmMessage::AlarmStatus(_) => 24,
        TimeAlarmMessage::AcTimeVal(_) => 28,
        TimeAlarmMessage::DcTimeVal(_) => 32,
    }
}

/// Wire encoding of the value a time/alarm command carries.
pub open spec fn time_alarm_field_bytes(m: TimeAlarmMessage) -> Seq<u8> {
    match m {
        TimeAlarmMessage::Events(v) => le16_bytes(v),
        TimeAlarmMessage::Capability(v) => le32_bytes(v),
        TimeAlarmMessage::Year(v) => le16_bytes(v),
        TimeAlarmMessage::Month(v) => seq![v],
        TimeAlarmMessage::Day(v) => seq![v],
        TimeAlarmMessage::Hour(v) => seq![v],
        TimeAlarmMessage::Minute(v) => seq![v],
        TimeAlarmMessage::Second(v) => seq![v],
        TimeAlarmMessage::Valid(v) => seq![v],
        TimeAlarmMessage::Daylight(v) => seq![v],
        TimeAlarmMessage::Res1(v) => seq![v],
        TimeAlarmMessage::Milli(v) => le16_bytes(v),
        TimeAlarmMessage::TimeZone(v) => le16_bytes(v),
        TimeAlarmMessage::Res2(v) => le16_bytes(v),
        TimeAlarmMessage::AlarmStatus(v) => le32_bytes(v),
        TimeAlarmMessage::AcTimeVal(v) => le32_bytes(v),
        TimeAlarmMessage::DcTimeVal(v) => le32_bytes(v),
    }
}

/// Byte offset, inside the battery section, of the field a command targets.
pub open spec fn battery_byte_offset(m: BatteryMessage) -> int {
    match m {
        BatteryMessage::Events(_) => 0,
        BatteryMessage::LastFullCharge(_) => 8,
        BatteryMessage::CycleCount(_) => 12,
        BatteryMessage::State(_) => 16,
        BatteryMessage::PresentRate(_) => 20,
        BatteryMessage::RemainCap(_) => 24,
        BatteryMessage::PresentVolt(_) => 28,
        BatteryMessage::PsrState(_) => 32,
        BatteryMessage::PsrMaxOut(_) => 36,
        BatteryMessage::PsrMaxIn(_) => 40,
        BatteryMessage::PeakLevel(_) => 44,
        BatteryMessage::PeakPower(_) => 48,
        BatteryMessage::SusLevel(_) => 52,
        BatteryMessage::SusPower(_) => 56,
        BatteryMessage::PeakThres(_) => 60,
        BatteryMessage::SusThres(_) => 64,
        BatteryMessage::TripThres(_) => 68,
        BatteryMessage::BmcData(_) => 72,
        BatteryMessage::BmdData(_) => 76,
        BatteryMessage::BmdFlags(_) => 80,
        BatteryMessage::BmdCount(_) => 84,
        BatteryMessage::ChargeTime(_) => 88,
        BatteryMessage::RunTime(_) => 92,
        BatteryMessage::SampleTime(_) => 96,
    }
}

/// Wire encoding of the value a battery command carries.
pub open spec fn battery_field_bytes(m: BatteryMessage) -> Seq<u8> {
    match m {
        BatteryMessage::Events(v) => le16_bytes(v),
        BatteryMessage::LastFullCharge(v) => le32_bytes(v),
        BatteryMessage::CycleCount(v) => le32_bytes(v),
        BatteryMessage::State(v) => le32_bytes(v),
        BatteryMessage::PresentRate(v) => le32_bytes(v),
        BatteryMessage::RemainCap(v) => le32_bytes(v),
        BatteryMessage::PresentVolt(v) => le32_bytes(v),
        BatteryMessage::PsrState(v) => le32_bytes(v),
        BatteryMessage::PsrMaxOut(v) => le32_bytes(v),
        BatteryMessage::PsrMaxIn(v) => le32_bytes(v),
        BatteryMessage::PeakLevel(v) => le32_bytes(v),
        BatteryMessage::PeakPower(v) => le32_bytes(v),
        BatteryMessage::SusLevel(v) => le32_bytes(v),
        BatteryMessage::SusPower(v) => le32_bytes(v),
        BatteryMessage::PeakThres(v) => le32_bytes(v),
        BatteryMessage::SusThres(v) => le32_bytes(v),
        BatteryMessage::TripThres(v) => le32_bytes(v),
        BatteryMessage::BmcData(v) => le32_bytes(v),
        BatteryMessage::BmdData(v) => le32_bytes(v),
        BatteryMessage::BmdFlags(v) => le32_bytes(v),
        BatteryMessage::BmdCount(v) => le32_bytes(v),
        BatteryMessage::ChargeTime(v) => le32_bytes(v),
        BatteryMessage::RunTime(v) => le32_bytes(v),
        BatteryMessage::SampleTime(v) => le32_bytes(v),
    }
}

/// Byte offset, inside the thermal section, of the field a command targets.
pub open spec fn thermal_byte_offset(m: ThermalMessage) -> int {
    match m {
        ThermalMessage::Events(_) => 0,
        ThermalMessage::CoolMode(_) => 4,
        ThermalMessage::DbaLimit(_) => 8,
        ThermalMessage::SonneLimit(_) => 12,
        ThermalMessage::MaLimit(_) => 16,
        ThermalMessage::Fan1OnTemp(_) => 20,
        ThermalMessage::Fan1RampTemp(_) => 24,
        ThermalMessage::Fan1MaxTemp(_) => 28,
        ThermalMessage::Fan1CrtTemp(_) => 32,
        ThermalMessage::Fan1HotTemp(_) => 36,
        ThermalMessage::Fan1MaxRpm(_) => 40,
        ThermalMessage::Fan1CurRpm(_) => 44,
        ThermalMessage::Tmp1Val(_) => 48,
        ThermalMessage::Tmp1Timeout(_) => 52,
        ThermalMessage::Tmp1Low(_) => 56,
        ThermalMessage::Tmp1High(_) => 60,
    }
}

/// Wire encoding of the value a thermal command carries.
pub open spec fn thermal_field_bytes(m: ThermalMessage) -> Seq<u8> {
    match m {
        ThermalMessage::Events(v) => le16_bytes(v),
        ThermalMessage::CoolMode(v) => le32_bytes(v),
        ThermalMessage::DbaLimit(v) => le32_bytes(v),
        ThermalMessage::SonneLimit(v) => le32_bytes(v),
        ThermalMessage::MaLimit(v) => le32_bytes(v),
        ThermalMessage::Fan1OnTemp(v) => le32_bytes(v),
        ThermalMessage::Fan1RampTemp(v) => le32_bytes(v),
        ThermalMessage::Fan1MaxTemp(v) => le32_bytes(v),
        ThermalMessage::Fan1CrtTemp(v) => le32_bytes(v),
        ThermalMessage::Fan1HotTemp(v) => le32_bytes(v),
        ThermalMessage::Fan1MaxRpm(v) => le32_bytes(v),
        ThermalMessage::Fan1CurRpm(v) => le32_bytes(v),
        ThermalMessage::Tmp1Val(v) => le32_bytes(v),
        ThermalMessage::Tmp1Timeout(v) => le32_bytes(v),
        ThermalMessage::Tmp1Low(v) => le32_bytes(v),
        ThermalMessage::Tmp1High(v) => le32_bytes(v),
    }
}

/// Absolute byte offset in the block of the field a recognized message
/// targets: the section's documented offset plus the field's offset within
/// the section.
pub open spec fn message_byte_offset(msg: MailboxMessage) -> int {
    match msg {
        MailboxMessage::Capabilities(c) => 4 + capabilities_byte_offset(c),
        MailboxMessage::Battery(b) => 60 + battery_byte_offset(b),
        MailboxMessage::Thermal(t) => 160 + thermal_byte_offset(t),
        MailboxMessage::TimeAlarm(t) => 24 + time_alarm_byte_offset(t),
        MailboxMessage::Unrecognized => -1,
    }
}

/// Wire encoding of the value a recognized message carries.
pub open spec fn message_field_bytes(msg: MailboxMessage) -> Seq<u8> {
    match msg {
        MailboxMessage::Capabilities(c) => capabilities_field_bytes(c),
        MailboxMessage::Battery(b) => battery_field_bytes(b),
        MailboxMessage::Thermal(t) => thermal_field_bytes(t),
        MailboxMessage::TimeAlarm(t) => time_alarm_field_bytes(t),
        MailboxMessage::Unrecognized => Seq::empty(),
    }
}

/// One capabilities command rewrites exactly its field's bytes at the
/// field's offset inside the section's wire image.
#[verifier::rlimit(100)]
pub proof fn lemma_capabilities_wire(c: Capabilities, m: CapabilitiesMessage)
    ensures
        capabilities_bytes(capabilities_apply(c, m)) == splice(
            capabilities_bytes(c),
            capabilities_byte_offset(m),
            capabilities_field_bytes(m),
        ),
{
    assert(capabilities_bytes(capabilities_apply(c, m)) =~= splice(
        capabilities_bytes(c),
        capabilities_byte_offset(m),
        capabilities_field_bytes(m),
    ));
}

/// One time/alarm command rewrites exactly its field's bytes at the field's
/// offset inside the section's wire image.
#[verifier::rlimit(100)]
pub proof fn lemma_time_alarm_wire(t: TimeAlarm, m: TimeAlarmMessage)
    ensures
        time_alarm_bytes(time_alarm_apply(t, m)) == splice(
            time_alarm_bytes(t),
            time_alarm_byte_offset(m),
            time_alarm_field_bytes(m),
        ),
{
    assert(time_alarm_bytes(time_alarm_apply(t, m)) =~= splice(
        time_alarm_bytes(t),
        time_alarm_byte_offset(m),
        time_alarm_field_bytes(m),
    ));
}

/// One battery command rewrites exactly its field's bytes at the field's
/// offset inside the section's wire image.
#[verifier::rlimit(100)]
pub proof fn lemma_battery_wire(b: Battery, m: BatteryMessage)
    ensures
        battery_bytes(battery_apply(b, m)) == splice(
            battery_bytes(b),
            battery_byte_offset(m),
            battery_field_bytes(m),
        ),
{
    assert(battery_bytes(battery_apply(b, m)) =~= splice(
        battery_bytes(b),
        battery_byte_offset(m),
        battery_field_bytes(m),
    ));
}

/// One thermal command rewrites exactly its field's bytes at the field's
/// offset inside the section's wire image.
#[verifier::rlimit(100)]
pub proof fn lemma_thermal_wire(t: Thermal, m: ThermalMessage)
    ensures
        thermal_bytes(thermal_apply(t, m)) == splice(
            thermal_bytes(t),
            thermal_byte_offset(m),
            thermal_field_bytes(m),
        ),
{
    assert(thermal_bytes(thermal_apply(t, m)) =~= splice(
        thermal_bytes(t),
        thermal_byte_offset(m),
        thermal_field_bytes(m),
    ));
}

/// A recognized message targets a byte range that lies inside the block and
/// behind the version bytes, which no message can reach.
pub proof fn lemma_message_byte_offset_in_range(msg: MailboxMessage)
    requires
        is_update(msg),
    ensures
        4 <= message_byte_offset(msg),
        message_byte_offset(msg) + message_field_bytes(msg).len() <= MEMORY_MAP_SIZE,
        1 <= message_field_bytes(msg).len() <= 4,
{
}

/// Applying one recognized message turns the block's wire image into the
/// old image with exactly the carried value's bytes spliced in at the
/// field's documented offset.
#[verifier::rlimit(100)]
pub proof fn lemma_update_wire(m: MemoryMap, msg: MailboxMessage)
    requires
        is_update(msg),
    ensures
        memory_map_bytes(memory_map_apply(m, msg)) == splice(
            memory_map_bytes(m),
            message_byte_offset(msg),
            message_field_bytes(msg),
        ),
{
    crate::wire::lemma_memory_map_bytes_len(m);
    lemma_message_byte_offset_in_range(msg);
    match msg {
        MailboxMessage::Capabilities(c) => {
            lemma_capabilities_wire(m.caps, c);
            assert(memory_map_bytes(memory_map_apply(m, msg)) =~= splice(
                memory_map_bytes(m),
                message_byte_offset(msg),
                message_field_bytes(msg),
            ));
        },
        MailboxMessage::Battery(b) => {
            lemma_battery_wire(m.batt, b);
            assert(memory_map_bytes(memory_map_apply(m, msg)) =~= splice(
                memory_map_bytes(m),
                message_byte_offset(msg),
                message_field_bytes(msg),
            ));
        },
        MailboxMessage::Thermal(t) => {
            lemma_thermal_wire(m.therm, t);
            assert(memory_map_bytes(memory_map_apply(m, msg)) =~= splice(
                memory_map_bytes(m),
                message_byte_offset(msg),
                message_field_bytes(msg),
            ));
        },
        MailboxMessage::TimeAlarm(t) => {
            lemma_time_alarm_wire(m.tas, t);
            assert(memory_map_bytes(memory_map_apply(m, msg)) =~= splice(
                memory_map_bytes(m),
                message_byte_offset(msg),
                message_field_bytes(msg),
            ));
        },
        MailboxMessage::Unrecognized => {},
    }
}

/// What a splice does, stated once over abstract byte strings: the length
/// is kept, the replacement sits at its offset, everything else is as it
/// was.
pub proof fn lemma_splice_facts(s: Seq<u8>, off: int, repl: Seq<u8>)
    requires
        0 <= off,
        off + repl.len() <= s.len(),
    ensures
        splice(s, off, repl).len() == s.len(),
        splice(s, off, repl).subrange(off, off + repl.len()) == repl,
        forall|j: int|
            0 <= j < s.len() && !(off <= j < off + repl.len()) ==> splice(s, off, repl)[j] == s[j],
{
    assert(splice(s, off, repl).subrange(off, off + repl.len()) =~= repl);
}

/// The byte-level round trip the host sees: after one recognized message,
/// the bytes at the targeted field's offset hold exactly the carried
/// value's wire encoding, and every other byte of the region — the version
/// bytes included — is untouched.
pub proof fn lemma_update_wire_round_trip(m: MemoryMap, msg: MailboxMessage)
    requires
        is_update(msg),
    ensures
        memory_map_bytes(memory_map_apply(m, msg)).subrange(
            message_byte_offset(msg),
            message_byte_offset(msg) + message_field_bytes(msg).len(),
        ) == message_field_bytes(msg),
        forall|j: int|
            0 <= j < MEMORY_MAP_SIZE && !(message_byte_offset(msg) <= j < message_byte_offset(msg)
                + message_field_bytes(msg).len()) ==> memory_map_bytes(memory_map_apply(m, msg))[j]
                == memory_map_bytes(m)[j],
{
    crate::wire::lemma_memory_map_bytes_len(m);
    lemma_message_byte_offset_in_range(msg);
    lemma_update_wire(m, msg);
    lemma_splice_facts(memory_map_bytes(m), message_byte_offset(msg), message_field_bytes(msg));
}

} // verus!
