//! Shared status block engine for an eSPI-attached host interface.
//!
//! The host platform reads a fixed-layout memory region (the shared status
//! block) to learn device capabilities, battery, thermal and time/alarm
//! status. Internal subsystems push single-field updates into the block
//! through a closed set of typed messages; a peripheral event loop arbitrates
//! host accesses to the region. This crate holds the verified core: the
//! byte-exact layout, the per-field update protocol, the install-once store
//! and the event-arbitration decisions.

pub mod dispatch;
pub mod events;
pub mod layout;
pub mod messages;
pub mod model;
pub mod store;
pub mod update;
pub mod wire;
pub mod wire_update;

pub use dispatch::{dispatch_message, MailboxMessage};
pub use events::{service_event, AccessEvent, EspiEvent, EventAction, WaitError};
pub use layout::{Battery, Capabilities, MemoryMap, Thermal, TimeAlarm, Version};
pub use messages::{BatteryMessage, CapabilitiesMessage, ThermalMessage, TimeAlarmMessage};
pub use store::{InitError, SharedStatusStore, StoreError};
pub use update::{
    update_battery_section, update_capabilities_section, update_thermal_section,
    update_time_alarm_section,
};
