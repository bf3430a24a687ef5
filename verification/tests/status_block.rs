use espi_service::{
    dispatch_message, service_event, update_battery_section, update_capabilities_section,
    update_thermal_section, update_time_alarm_section, AccessEvent, BatteryMessage,
    CapabilitiesMessage, EspiEvent, EventAction, InitError, MailboxMessage, MemoryMap,
    SharedStatusStore, StoreError, ThermalMessage, TimeAlarmMessage, Version, WaitError,
};
use espi_service::layout::MEMORY_MAP_SIZE;

fn installed_block(store: &SharedStatusStore) -> MemoryMap {
    store.snapshot().unwrap()
}

#[test]
fn install_succeeds_on_big_enough_buffer() {
    let mut store = SharedStatusStore::new();
    assert!(store.install(MEMORY_MAP_SIZE).is_ok());
    let m = installed_block(&store);
    assert_eq!(m.ver.major, 0);
    assert_eq!(m.ver.minor, 1);
    assert_eq!(m.ver.spin, 0);
    assert_eq!(m.ver.res0, 0);
    assert_eq!(m.caps.events, 0);
    assert_eq!(m.caps.debug_mask, 0);
    assert_eq!(m.tas.year, 0);
    assert_eq!(m.batt.cycle_count, 0);
    assert_eq!(m.batt.sample_time, 0);
    assert_eq!(m.therm.tmp1_high, 0);

    let mut roomy = SharedStatusStore::new();
    assert!(roomy.install(4096).is_ok());
}

#[test]
fn install_aborts_on_small_buffer() {
    let mut store = SharedStatusStore::new();
    assert_eq!(store.install(MEMORY_MAP_SIZE - 1), Err(InitError::BufferTooSmall));
    assert_eq!(store.install(0), Err(InitError::BufferTooSmall));
    // Nothing was written: the store still has no block.
    assert_eq!(store.snapshot(), Err(StoreError::NotInstalled));
}

#[test]
fn install_refuses_second_installation() {
    let mut store = SharedStatusStore::new();
    assert!(store.install(MEMORY_MAP_SIZE).is_ok());
    assert_eq!(store.install(MEMORY_MAP_SIZE), Err(InitError::AlreadyInstalled));
}

#[test]
fn update_before_install_is_refused() {
    let mut store = SharedStatusStore::new();
    let msg = MailboxMessage::Battery(BatteryMessage::CycleCount(7));
    assert_eq!(store.apply(&msg), Err(StoreError::NotInstalled));
    assert_eq!(store.snapshot(), Err(StoreError::NotInstalled));
}

#[test]
fn capabilities_round_trip_touches_only_its_field() {
    let mut m = MemoryMap::new_installed();
    update_capabilities_section(&mut m, &CapabilitiesMessage::Events(0x0101));
    update_capabilities_section(
        &mut m,
        &CapabilitiesMessage::FwVersion(Version { major: 2, minor: 3, spin: 4, res0: 5 }),
    );
    update_capabilities_section(&mut m, &CapabilitiesMessage::SecureState(11));
    update_capabilities_section(&mut m, &CapabilitiesMessage::BootStatus(12));
    update_capabilities_section(&mut m, &CapabilitiesMessage::FanMask(13));
    update_capabilities_section(&mut m, &CapabilitiesMessage::BatteryMask(14));
    update_capabilities_section(&mut m, &CapabilitiesMessage::TempMask(0x0f0f));
    update_capabilities_section(&mut m, &CapabilitiesMessage::KeyMask(0x1616));
    update_capabilities_section(&mut m, &CapabilitiesMessage::DebugMask(0x1717));
    assert_eq!(m.caps.events, 0x0101);
    assert_eq!(m.caps.fw_version, Version { major: 2, minor: 3, spin: 4, res0: 5 });
    assert_eq!(m.caps.secure_state, 11);
    assert_eq!(m.caps.boot_status, 12);
    assert_eq!(m.caps.fan_mask, 13);
    assert_eq!(m.caps.battery_mask, 14);
    assert_eq!(m.caps.temp_mask, 0x0f0f);
    assert_eq!(m.caps.key_mask, 0x1616);
    assert_eq!(m.caps.debug_mask, 0x1717);
    // Reserved fields and every other part of the block stay untouched.
    assert_eq!(m.caps.res0, 0);
    assert_eq!(m.caps.res1, 0);
    assert_eq!(m.ver.minor, 1);
    assert_eq!(m.tas, MemoryMap::new_installed().tas);
    assert_eq!(m.batt, MemoryMap::new_installed().batt);
    assert_eq!(m.therm, MemoryMap::new_installed().therm);
}

#[test]
fn battery_round_trip_touches_only_its_field() {
    let mut m = MemoryMap::new_installed();
    update_battery_section(&mut m, &BatteryMessage::Events(0x0202));
    update_battery_section(&mut m, &BatteryMessage::LastFullCharge(101));
    update_battery_section(&mut m, &BatteryMessage::CycleCount(102));
    update_battery_section(&mut m, &BatteryMessage::State(103));
    update_battery_section(&mut m, &BatteryMessage::PresentRate(104));
    update_battery_section(&mut m, &BatteryMessage::RemainCap(105));
    update_battery_section(&mut m, &BatteryMessage::PresentVolt(106));
    update_battery_section(&mut m, &BatteryMessage::PsrState(107));
    update_battery_section(&mut m, &BatteryMessage::PsrMaxOut(108));
    update_battery_section(&mut m, &BatteryMessage::PsrMaxIn(109));
    update_battery_section(&mut m, &BatteryMessage::PeakLevel(110));
    update_battery_section(&mut m, &BatteryMessage::PeakPower(111));
    update_battery_section(&mut m, &BatteryMessage::SusLevel(112));
    update_battery_section(&mut m, &BatteryMessage::SusPower(113));
    update_battery_section(&mut m, &BatteryMessage::PeakThres(114));
    update_battery_section(&mut m, &BatteryMessage::SusThres(115));
    update_battery_section(&mut m, &BatteryMessage::TripThres(116));
    update_battery_section(&mut m, &BatteryMessage::BmcData(117));
    update_battery_section(&mut m, &BatteryMessage::BmdData(118));
    update_battery_section(&mut m, &BatteryMessage::BmdFlags(119));
    update_battery_section(&mut m, &BatteryMessage::BmdCount(120));
    update_battery_section(&mut m, &BatteryMessage::ChargeTime(121));
    update_battery_section(&mut m, &BatteryMessage::RunTime(122));
    update_battery_section(&mut m, &BatteryMessage::SampleTime(123));
    assert_eq!(m.batt.events, 0x0202);
    assert_eq!(m.batt.last_full_charge, 101);
    assert_eq!(m.batt.cycle_count, 102);
    assert_eq!(m.batt.state, 103);
    assert_eq!(m.batt.present_rate, 104);
    assert_eq!(m.batt.remain_cap, 105);
    assert_eq!(m.batt.present_volt, 106);
    assert_eq!(m.batt.psr_state, 107);
    assert_eq!(m.batt.psr_max_out, 108);
    assert_eq!(m.batt.psr_max_in, 109);
    assert_eq!(m.batt.peak_level, 110);
    assert_eq!(m.batt.peak_power, 111);
    assert_eq!(m.batt.sus_level, 112);
    assert_eq!(m.batt.sus_power, 113);
    assert_eq!(m.batt.peak_thres, 114);
    assert_eq!(m.batt.sus_thres, 115);
    assert_eq!(m.batt.trip_thres, 116);
    assert_eq!(m.batt.bmc_data, 117);
    assert_eq!(m.batt.bmd_data, 118);
    assert_eq!(m.batt.bmd_flags, 119);
    assert_eq!(m.batt.bmd_count, 120);
    assert_eq!(m.batt.charge_time, 121);
    assert_eq!(m.batt.run_time, 122);
    assert_eq!(m.batt.sample_time, 123);
    // No command targets these, and no command leaks across sections.
    assert_eq!(m.batt.res1, 0);
    assert_eq!(m.batt.status, 0);
    assert_eq!(m.caps, MemoryMap::new_installed().caps);
    assert_eq!(m.therm, MemoryMap::new_installed().therm);
}

#[test]
fn thermal_round_trip_touches_only_its_field() {
    let mut m = MemoryMap::new_installed();
    update_thermal_section(&mut m, &ThermalMessage::Events(0x0303));
    update_thermal_section(&mut m, &ThermalMessage::CoolMode(201));
    update_thermal_section(&mut m, &ThermalMessage::DbaLimit(202));
    update_thermal_section(&mut m, &ThermalMessage::SonneLimit(203));
    update_thermal_section(&mut m, &ThermalMessage::MaLimit(204));
    update_thermal_section(&mut m, &ThermalMessage::Fan1OnTemp(205));
    update_thermal_section(&mut m, &ThermalMessage::Fan1RampTemp(206));
    update_thermal_section(&mut m, &ThermalMessage::Fan1MaxTemp(207));
    update_thermal_section(&mut m, &ThermalMessage::Fan1CrtTemp(208));
    update_thermal_section(&mut m, &ThermalMessage::Fan1HotTemp(209));
    update_thermal_section(&mut m, &ThermalMessage::Fan1MaxRpm(210));
    update_thermal_section(&mut m, &ThermalMessage::Fan1CurRpm(211));
    update_thermal_section(&mut m, &ThermalMessage::Tmp1Val(212));
    update_thermal_section(&mut m, &ThermalMessage::Tmp1Timeout(213));
    update_thermal_section(&mut m, &ThermalMessage::Tmp1Low(214));
    update_thermal_section(&mut m, &ThermalMessage::Tmp1High(215));
    assert_eq!(m.therm.events, 0x0303);
    assert_eq!(m.therm.cool_mode, 201);
    assert_eq!(m.therm.dba_limit, 202);
    assert_eq!(m.therm.sonne_limit, 203);
    assert_eq!(m.therm.ma_limit, 204);
    assert_eq!(m.therm.fan1_on_temp, 205);
    assert_eq!(m.therm.fan1_ramp_temp, 206);
    assert_eq!(m.therm.fan1_max_temp, 207);
    assert_eq!(m.therm.fan1_crt_temp, 208);
    assert_eq!(m.therm.fan1_hot_temp, 209);
    assert_eq!(m.therm.fan1_max_rpm, 210);
    assert_eq!(m.therm.fan1_cur_rpm, 211);
    assert_eq!(m.therm.tmp1_val, 212);
    assert_eq!(m.therm.tmp1_timeout, 213);
    assert_eq!(m.therm.tmp1_low, 214);
    assert_eq!(m.therm.tmp1_high, 215);
    assert_eq!(m.therm.res1, 0);
    assert_eq!(m.batt, MemoryMap::new_installed().batt);
    assert_eq!(m.tas, MemoryMap::new_installed().tas);
}

#[test]
fn time_alarm_round_trip_touches_only_its_field() {
    let mut m = MemoryMap::new_installed();
    update_time_alarm_section(&mut m, &TimeAlarmMessage::Events(0x0404));
    update_time_alarm_section(&mut m, &TimeAlarmMessage::Capability(301));
    update_time_alarm_section(&mut m, &TimeAlarmMessage::Year(2024));
    update_time_alarm_section(&mut m, &TimeAlarmMessage::Month(12));
    update_time_alarm_section(&mut m, &TimeAlarmMessage::Day(31));
    update_time_alarm_section(&mut m, &TimeAlarmMessage::Hour(23));
    update_time_alarm_section(&mut m, &TimeAlarmMessage::Minute(59));
    update_time_alarm_section(&mut m, &TimeAlarmMessage::Second(58));
    update_time_alarm_section(&mut m, &TimeAlarmMessage::Valid(1));
    update_time_alarm_section(&mut m, &TimeAlarmMessage::Daylight(2));
    update_time_alarm_section(&mut m, &TimeAlarmMessage::Res1(3));
    update_time_alarm_section(&mut m, &TimeAlarmMessage::Milli(500));
    update_time_alarm_section(&mut m, &TimeAlarmMessage::TimeZone(120));
    update_time_alarm_section(&mut m, &TimeAlarmMessage::Res2(4));
    update_time_alarm_section(&mut m, &TimeAlarmMessage::AlarmStatus(302));
    update_time_alarm_section(&mut m, &TimeAlarmMessage::AcTimeVal(303));
    update_time_alarm_section(&mut m, &TimeAlarmMessage::DcTimeVal(304));
    assert_eq!(m.tas.events, 0x0404);
    assert_eq!(m.tas.capability, 301);
    assert_eq!(m.tas.year, 2024);
    assert_eq!(m.tas.month, 12);
    assert_eq!(m.tas.day, 31);
    assert_eq!(m.tas.hour, 23);
    assert_eq!(m.tas.minute, 59);
    assert_eq!(m.tas.second, 58);
    assert_eq!(m.tas.valid, 1);
    assert_eq!(m.tas.daylight, 2);
    assert_eq!(m.tas.res1, 3);
    assert_eq!(m.tas.milli, 500);
    assert_eq!(m.tas.time_zone, 120);
    assert_eq!(m.tas.res2, 4);
    assert_eq!(m.tas.alarm_status, 302);
    assert_eq!(m.tas.ac_time_val, 303);
    assert_eq!(m.tas.dc_time_val, 304);
    assert_eq!(m.tas.res0, 0);
    assert_eq!(m.caps, MemoryMap::new_installed().caps);
    assert_eq!(m.ver.minor, 1);
}

#[test]
fn reapplying_a_command_is_idempotent() {
    let mut once = MemoryMap::new_installed();
    update_battery_section(&mut once, &BatteryMessage::CycleCount(42));
    let mut twice = MemoryMap::new_installed();
    update_battery_section(&mut twice, &BatteryMessage::CycleCount(42));
    update_battery_section(&mut twice, &BatteryMessage::CycleCount(42));
    assert_eq!(once, twice);
}

#[test]
fn interleaved_commands_on_distinct_fields_do_not_corrupt() {
    let first = MailboxMessage::Battery(BatteryMessage::CycleCount(42));
    let second = MailboxMessage::Capabilities(CapabilitiesMessage::TempMask(0x0a0a));
    let third = MailboxMessage::Battery(BatteryMessage::RemainCap(1000));

    let mut one = MemoryMap::new_installed();
    dispatch_message(&mut one, &first);
    dispatch_message(&mut one, &second);
    dispatch_message(&mut one, &third);

    let mut other = MemoryMap::new_installed();
    dispatch_message(&mut other, &third);
    dispatch_message(&mut other, &first);
    dispatch_message(&mut other, &second);

    assert_eq!(one, other);
    assert_eq!(one.batt.cycle_count, 42);
    assert_eq!(one.caps.temp_mask, 0x0a0a);
    assert_eq!(one.batt.remain_cap, 1000);
}

#[test]
fn dispatch_routes_each_command_set_to_its_section() {
    let mut m = MemoryMap::new_installed();
    dispatch_message(&mut m, &MailboxMessage::Capabilities(CapabilitiesMessage::BootStatus(5)));
    dispatch_message(&mut m, &MailboxMessage::Battery(BatteryMessage::PresentVolt(11800)));
    dispatch_message(&mut m, &MailboxMessage::Thermal(ThermalMessage::Fan1CurRpm(3200)));
    dispatch_message(&mut m, &MailboxMessage::TimeAlarm(TimeAlarmMessage::Hour(17)));
    assert_eq!(m.caps.boot_status, 5);
    assert_eq!(m.batt.present_volt, 11800);
    assert_eq!(m.therm.fan1_cur_rpm, 3200);
    assert_eq!(m.tas.hour, 17);
}

#[test]
fn unrecognized_message_changes_nothing() {
    let mut m = MemoryMap::new_installed();
    update_battery_section(&mut m, &BatteryMessage::CycleCount(42));
    let before = m;
    dispatch_message(&mut m, &MailboxMessage::Unrecognized);
    assert_eq!(m, before);
}

#[test]
fn battery_scenario_keeps_last_applied_values() {
    let mut store = SharedStatusStore::new();
    store.install(MEMORY_MAP_SIZE).unwrap();
    let prior = installed_block(&store);
    store.apply(&MailboxMessage::Battery(BatteryMessage::CycleCount(42))).unwrap();
    store.apply(&MailboxMessage::Battery(BatteryMessage::RemainCap(1000))).unwrap();
    store.apply(&MailboxMessage::Battery(BatteryMessage::CycleCount(43))).unwrap();
    let m = installed_block(&store);
    assert_eq!(m.batt.cycle_count, 43);
    assert_eq!(m.batt.remain_cap, 1000);
    assert_eq!(m.batt.events, prior.batt.events);
    assert_eq!(m.batt.state, prior.batt.state);
    assert_eq!(m.batt.last_full_charge, prior.batt.last_full_charge);
    assert_eq!(m.batt.sample_time, prior.batt.sample_time);
    assert_eq!(m.caps, prior.caps);
    assert_eq!(m.tas, prior.tas);
    assert_eq!(m.therm, prior.therm);
}

#[test]
fn channel0_access_gets_exactly_one_completion() {
    let access = AccessEvent { write: false, length: 4, offset: 72 };
    let action = service_event(&Ok(EspiEvent::Channel0(access)));
    assert_eq!(action, EventAction::Complete(0));
    // Every other outcome yields no completion and keeps the loop alive.
    assert_eq!(service_event(&Ok(EspiEvent::Channel1(access))), EventAction::Observe);
    assert_eq!(service_event(&Ok(EspiEvent::Channel2(access))), EventAction::Observe);
    assert_eq!(service_event(&Ok(EspiEvent::Channel3(access))), EventAction::Observe);
    assert_eq!(service_event(&Ok(EspiEvent::Channel4(access))), EventAction::Observe);
    assert_eq!(service_event(&Ok(EspiEvent::DiagnosticPort)), EventAction::Observe);
    assert_eq!(service_event(&Ok(EspiEvent::WireChange)), EventAction::Observe);
    assert_eq!(service_event(&Err(WaitError)), EventAction::Recover);
}

#[test]
fn encoded_initial_block_is_zero_except_version() {
    let bytes = MemoryMap::new_installed().encode();
    assert_eq!(bytes.len(), MEMORY_MAP_SIZE);
    for (i, b) in bytes.iter().enumerate() {
        if i == 1 {
            assert_eq!(*b, 1, "minor version byte");
        } else {
            assert_eq!(*b, 0, "byte {} of a fresh block", i);
        }
    }
}

#[test]
fn encoded_fields_sit_at_documented_offsets() {
    let mut m = MemoryMap::new_installed();
    update_capabilities_section(&mut m, &CapabilitiesMessage::Events(0xabcd));
    update_capabilities_section(
        &mut m,
        &CapabilitiesMessage::FwVersion(Version { major: 9, minor: 8, spin: 7, res0: 6 }),
    );
    update_time_alarm_section(&mut m, &TimeAlarmMessage::Year(2024));
    update_battery_section(&mut m, &BatteryMessage::CycleCount(0x01020304));
    update_thermal_section(&mut m, &ThermalMessage::Events(0x1122));
    let bytes = m.encode();
    // Capabilities events: offset 4, little-endian halfword.
    assert_eq!(&bytes[4..6], &[0xcd, 0xab]);
    // Embedded firmware version: offset 8, four bytes in order.
    assert_eq!(&bytes[8..12], &[9, 8, 7, 6]);
    // Time/alarm year: section offset 24, two halfwords and a word before it.
    assert_eq!(&bytes[32..34], &[0xe8, 0x07]);
    // Battery cycle count: section offset 60, twelve bytes into the section.
    assert_eq!(&bytes[72..76], &[0x04, 0x03, 0x02, 0x01]);
    // Thermal events: section offset 160.
    assert_eq!(&bytes[160..162], &[0x22, 0x11]);
    // The device version leads the block.
    assert_eq!(&bytes[0..4], &[0, 1, 0, 0]);
}
