//! Dispatch adapter: narrow an incoming mailbox message to one of the four
//! known command sets and apply it to the block; anything else is discarded
//! silently, since the mailbox may carry unrelated traffic.
//!
//! The general laws of the update protocol live here as proof functions:
//! write/read round trip, idempotence of re-delivery, and independence of
//! commands that target distinct fields.

use vstd::prelude::*;

use crate::layout::MemoryMap;
use crate::messages::{BatteryMessage, CapabilitiesMessage, ThermalMessage, TimeAlarmMessage};
use crate::model::{
    battery_index, battery_value, capabilities_index, capabilities_value, memory_map_model,
    thermal_index, thermal_value, time_alarm_index, time_alarm_value, MEMORY_MAP_FIELDS,
};
use crate::update::{
    battery_apply, capabilities_apply, thermal_apply, time_alarm_apply, update_battery_section,
    update_capabilities_section, update_thermal_section, update_time_alarm_section,
};

verus! {

/// Everything the mailbox can deliver: one of the four known command sets,
/// or traffic this service does not recognize.
#[derive(Clone, Copy, Debug)]
pub enum MailboxMessage {
    Capabilities(CapabilitiesMessage),
    Battery(BatteryMessage),
    Thermal(ThermalMessage),
    TimeAlarm(TimeAlarmMessage),
    Unrecognized,
}

/// Whether the message belongs to one of the four known command sets.
pub open spec fn is_update(msg: MailboxMessage) -> bool {
    !(msg is Unrecognized)
}

/// The block after one delivered message: the targeted section takes the
/// applied command; an unrecognized message leaves the block as it was.
pub open spec fn memory_map_apply(m: MemoryMap, msg: MailboxMessage) -> MemoryMap {
    match msg {
        MailboxMessage::Capabilities(c) => MemoryMap { caps: capabilities_apply(m.caps, c), ..m },
        MailboxMessage::Battery(b) => MemoryMap { batt: battery_apply(m.batt, b), ..m },
        MailboxMessage::Thermal(t) => MemoryMap { therm: thermal_apply(m.therm, t), ..m },
        MailboxMessage::TimeAlarm(t) => MemoryMap { tas: time_alarm_apply(m.tas, t), ..m },
        MailboxMessage::Unrecognized => m,
    }
}

/// Whole-block view index targeted by a recognized message: the section's
/// base in the view plus the command's index within the section.
pub open spec fn message_index(msg: MailboxMessage) -> int {
    match msg {
        MailboxMessage::Capabilities(c) => 4 + capabilities_index(c),
        MailboxMessage::Battery(b) => 33 + battery_index(b),
        MailboxMessage::Thermal(t) => 59 + thermal_index(t),
        MailboxMessage::TimeAlarm(t) => 15 + time_alarm_index(t),
        MailboxMessage::Unrecognized => -1,
    }
}

/// Value carried by a recognized message, as it lands in the view.
pub open spec fn message_value(msg: MailboxMessage) -> int {
    match msg {
        MailboxMessage::Capabilities(c) => capabilities_value(c),
        MailboxMessage::Battery(b) => battery_value(b),
        MailboxMessage::Thermal(t) => thermal_value(t),
        MailboxMessage::TimeAlarm(t) => time_alarm_value(t),
        MailboxMessage::Unrecognized => -1,
    }
}

/// Apply one delivered message to the block under the store's lock: a
/// recognized command overwrites exactly its one field, an unrecognized
/// message changes nothing and is not an error.
pub fn dispatch_message(map: &mut MemoryMap, msg: &MailboxMessage)
    ensures
        *final(map) == memory_map_apply(*old(map), *msg),
        !is_update(*msg) ==> *final(map) == *old(map),
{
    match msg {
        MailboxMessage::Capabilities(m) => update_capabilities_section(map, m),
        MailboxMessage::Battery(m) => update_battery_section(map, m),
        MailboxMessage::Thermal(m) => update_thermal_section(map, m),
        MailboxMessage::TimeAlarm(m) => update_time_alarm_section(map, m),
        MailboxMessage::Unrecognized => {},
    }
}

/// The whole-block view has one entry per field.
pub proof fn lemma_memory_map_model_len(m: MemoryMap)
    ensures
        memory_map_model(m).len() == MEMORY_MAP_FIELDS,
{
}

/// A recognized message targets a view index inside the block, and never one
/// of the four read-only version bytes at the front.
pub proof fn lemma_message_index_in_range(msg: MailboxMessage)
    requires
        is_update(msg),
    ensures
        4 <= message_index(msg) < MEMORY_MAP_FIELDS,
{
}

/// Applying one recognized message moves the whole-block view by exactly one
/// `Seq::update` at the message's index, with the message's value.
pub proof fn lemma_dispatch_model(m: MemoryMap, msg: MailboxMessage)
    requires
        is_update(msg),
    ensures
        memory_map_model(memory_map_apply(m, msg))
            == memory_map_model(m).update(message_index(msg), message_value(msg)),
{
    lemma_message_index_in_range(msg);
    match msg {
        MailboxMessage::Capabilities(c) => {
            crate::model::lemma_capabilities_apply_model(m.caps, c);
            assert(memory_map_model(memory_map_apply(m, msg))
                =~= memory_map_model(m).update(message_index(msg), message_value(msg)));
        },
        MailboxMessage::Battery(b) => {
            crate::model::lemma_battery_apply_model(m.batt, b);
            assert(memory_map_model(memory_map_apply(m, msg))
                =~= memory_map_model(m).update(message_index(msg), message_value(msg)));
        },
        MailboxMessage::Thermal(t) => {
            crate::model::lemma_thermal_apply_model(m.therm, t);
            assert(memory_map_model(memory_map_apply(m, msg))
                =~= memory_map_model(m).update(message_index(msg), message_value(msg)));
        },
        MailboxMessage::TimeAlarm(t) => {
            crate::model::lemma_time_alarm_apply_model(m.tas, t);
            assert(memory_map_model(memory_map_apply(m, msg))
                =~= memory_map_model(m).update(message_index(msg), message_value(msg)));
        },
        MailboxMessage::Unrecognized => {},
    }
}

/// Write/read round trip: after applying a recognized command once, reading
/// the targeted field yields exactly the carried value, and every other
/// field of the block is unchanged.
pub proof fn lemma_update_round_trip(m: MemoryMap, msg: MailboxMessage)
    requires
        is_update(msg),
    ensures
        memory_map_model(memory_map_apply(m, msg))[message_index(msg)] == message_value(msg),
        forall|j: int|
            0 <= j < MEMORY_MAP_FIELDS && j != message_index(msg)
                ==> memory_map_model(memory_map_apply(m, msg))[j] == memory_map_model(m)[j],
{
    lemma_dispatch_model(m, msg);
    lemma_message_index_in_range(msg);
    lemma_memory_map_model_len(m);
}

/// Idempotence: delivering the same message twice in a row leaves the block
/// exactly as delivering it once does.
pub proof fn lemma_update_idempotent(m: MemoryMap, msg: MailboxMessage)
    ensures
        memory_map_apply(memory_map_apply(m, msg), msg) == memory_map_apply(m, msg),
{
}

/// Independence: two recognized commands that target different fields can be
/// applied in either order; each field resolves to its own last-applied
/// value and the resulting block is the same either way.
pub proof fn lemma_independent_updates(m: MemoryMap, m1: MailboxMessage, m2: MailboxMessage)
    requires
        is_update(m1),
        is_update(m2),
        message_index(m1) != message_index(m2),
    ensures
        memory_map_model(memory_map_apply(memory_map_apply(m, m1), m2))[message_index(m1)]
            == message_value(m1),
        memory_map_model(memory_map_apply(memory_map_apply(m, m1), m2))[message_index(m2)]
            == message_value(m2),
        memory_map_apply(memory_map_apply(m, m1), m2) == memory_map_apply(
            memory_map_apply(m, m2),
            m1,
        ),
{
    lemma_dispatch_model(m, m1);
    lemma_dispatch_model(memory_map_apply(m, m1), m2);
    lemma_dispatch_model(m, m2);
    lemma_dispatch_model(memory_map_apply(m, m2), m1);
    lemma_message_index_in_range(m1);
    lemma_message_index_in_range(m2);
    lemma_memory_map_model_len(m);
    assert(memory_map_model(memory_map_apply(memory_map_apply(m, m1), m2))
        =~= memory_map_model(memory_map_apply(memory_map_apply(m, m2), m1)));
    crate::model::lemma_memory_map_model_injective(
        memory_map_apply(memory_map_apply(m, m1), m2),
        memory_map_apply(memory_map_apply(m, m2), m1),
    );
}

} // verus!
