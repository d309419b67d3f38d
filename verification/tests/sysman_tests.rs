use wtg::providers::intel_level_zero::{
    sysman_domain_facts, sysman_domains, typed_sysman_facts, BufferOutcome, DecimalText, DeltaTracker, FactRaw, FactScalar,
    HandleReading, IntelFact, StateOutcome, SysmanDomain, SysmanEnumOutcome,
};

const DEVICE_KEY: &str = "driver=0,device=0,vendor=0x8086,device=0x4c8b";

fn text(v: f64) -> DecimalText {
    DecimalText {
        json: serde_json::Value::from(v).to_string(),
        one_decimal: format!("{v:.1}"),
        two_decimals: format!("{v:.2}"),
    }
}

fn float_text(bits: u64) -> Option<DecimalText> {
    let v = f64::from_bits(bits);
    if v >= 0.0 {
        Some(text(v))
    } else {
        None
    }
}

fn quotient(amount: u64, over: u64, scale: u64) -> DecimalText {
    text((amount as f64 * scale as f64) / over as f64)
}

fn buffer(fields: &[(usize, Vec<u8>)]) -> Vec<u8> {
    let mut b = vec![0u8; 528];
    for (offset, bytes) in fields {
        b[*offset..*offset + bytes.len()].copy_from_slice(bytes);
    }
    b
}

fn u64_at(offset: usize, v: u64) -> (usize, Vec<u8>) {
    (offset, v.to_le_bytes().to_vec())
}

fn u32_at(offset: usize, v: u32) -> (usize, Vec<u8>) {
    (offset, v.to_le_bytes().to_vec())
}

fn f64_at(offset: usize, v: f64) -> (usize, Vec<u8>) {
    (offset, v.to_bits().to_le_bytes().to_vec())
}

fn counter(value: u64, timestamp: u64) -> Vec<u8> {
    buffer(&[u64_at(0, value), u64_at(8, timestamp)])
}

fn typed(
    tracker: &mut DeltaTracker,
    domain: &str,
    property_api: &'static str,
    property: Option<&Vec<u8>>,
    state_api: &'static str,
    state: Option<&Vec<u8>>,
) -> Vec<IntelFact> {
    typed_sysman_facts(tracker, &float_text, &quotient, DEVICE_KEY, domain, 0, property_api, property, state_api, state)
}

fn find_fact<'a>(facts: &'a [IntelFact], key: &str) -> &'a IntelFact {
    facts.iter().find(|f| f.metric_key == key).unwrap_or_else(|| panic!("no fact {key}"))
}

fn uint(f: &IntelFact) -> u64 {
    match &f.raw {
        FactRaw::Plain(FactScalar::UInt(n)) => *n,
        _ => panic!("not a whole number: {}", f.metric_key),
    }
}

fn json(f: &IntelFact) -> String {
    match &f.raw {
        FactRaw::Plain(FactScalar::Decimal(d)) => d.json.clone(),
        _ => panic!("not a decimal: {}", f.metric_key),
    }
}

#[test]
fn typed_sysman_facts_are_provider_scoped_and_first_sample_deltas_are_not_available() {
    let mut tracker = DeltaTracker::new();
    let mem_props = buffer(&[u64_at(32, 1024), u32_at(40, 128), u32_at(44, 2)]);
    let mem_state = buffer(&[u32_at(16, 1), u64_at(24, 384), u64_at(32, 1024)]);
    let freq_props = buffer(&[u32_at(28, 1), f64_at(40, 300.0), f64_at(48, 1300.0)]);
    let freq_state = buffer(&[f64_at(16, 0.9), f64_at(24, 1100.0), f64_at(32, 1200.0), f64_at(40, 600.0), f64_at(48, 1050.0)]);
    let power_state = counter(2_500_000, 50_000);
    let engine_state = counter(4_000, 10_000);

    let mut facts = Vec::new();
    facts.extend(typed(&mut tracker, "memory_modules", "zesMemoryGetProperties", Some(&mem_props), "zesMemoryGetState", Some(&mem_state)));
    facts.extend(typed(&mut tracker, "frequency_domains", "zesFrequencyGetProperties", Some(&freq_props), "zesFrequencyGetState", Some(&freq_state)));
    facts.extend(typed(&mut tracker, "power_domains", "zesPowerGetProperties", None, "zesPowerGetEnergyCounter", Some(&power_state)));
    facts.extend(typed(&mut tracker, "engine_groups", "zesEngineGetProperties", None, "zesEngineGetActivity", Some(&engine_state)));

    assert_eq!(uint(find_fact(&facts, "sysman.memory_modules.0.size_bytes")), 1024);
    assert_eq!(uint(find_fact(&facts, "sysman.memory_modules.0.free_bytes")), 384);
    assert_eq!(uint(find_fact(&facts, "sysman.memory_modules.0.used_bytes")), 640);
    assert!(matches!(&find_fact(&facts, "sysman.memory_modules.0.health").raw, FactRaw::Plain(FactScalar::Text(t)) if t == "ok"));
    assert_eq!(json(find_fact(&facts, "sysman.frequency_domains.0.min_mhz")), "300.0");
    assert_eq!(json(find_fact(&facts, "sysman.frequency_domains.0.max_mhz")), "1300.0");
    assert_eq!(json(find_fact(&facts, "sysman.frequency_domains.0.request_mhz")), "1100.0");
    assert_eq!(json(find_fact(&facts, "sysman.frequency_domains.0.actual_mhz")), "1050.0");
    assert_eq!(json(find_fact(&facts, "sysman.power_domains.0.energy_j")), "2.5");
    assert_eq!(uint(find_fact(&facts, "sysman.power_domains.0.timestamp_ns")), 50_000_000);
    assert_eq!(uint(find_fact(&facts, "sysman.engine_groups.0.active_time_ns")), 4_000);
    assert_eq!(uint(find_fact(&facts, "sysman.engine_groups.0.timestamp_ns")), 10_000);

    let watts_delta = find_fact(&facts, "sysman.power_domains.0.watts_delta");
    assert_eq!(watts_delta.state, "not_available");
    assert_eq!(watts_delta.error_message.as_deref(), Some("requires previous sample."));
    let utilization_delta = find_fact(&facts, "sysman.engine_groups.0.utilization_pct_delta");
    assert_eq!(utilization_delta.state, "not_available");
    assert_eq!(utilization_delta.error_message.as_deref(), Some("requires previous sample."));
}

#[test]
fn watch_style_second_sample_produces_power_and_engine_deltas() {
    let mut tracker = DeltaTracker::new();
    typed(&mut tracker, "power_domains", "zesPowerGetProperties", None, "zesPowerGetEnergyCounter", Some(&counter(1_000_000, 10_000)));
    let second_power = typed(&mut tracker, "power_domains", "zesPowerGetProperties", None, "zesPowerGetEnergyCounter", Some(&counter(2_000_000, 20_000)));
    typed(&mut tracker, "engine_groups", "zesEngineGetProperties", None, "zesEngineGetActivity", Some(&counter(1_000, 10_000)));
    let second_engine = typed(&mut tracker, "engine_groups", "zesEngineGetProperties", None, "zesEngineGetActivity", Some(&counter(4_000, 20_000)));

    assert_eq!(json(find_fact(&second_power, "sysman.power_domains.0.watts_delta")), "100.0");
    assert_eq!(json(find_fact(&second_engine, "sysman.engine_groups.0.utilization_pct_delta")), "30.0");
}

#[test]
fn power_delta_requires_positive_timestamp_delta() {
    let mut tracker = DeltaTracker::new();
    typed(&mut tracker, "power_domains", "zesPowerGetProperties", None, "zesPowerGetEnergyCounter", Some(&counter(1_000_000, 10_000)));
    let second = typed(&mut tracker, "power_domains", "zesPowerGetProperties", None, "zesPowerGetEnergyCounter", Some(&counter(2_000_000, 10_000)));
    let watts_delta = find_fact(&second, "sysman.power_domains.0.watts_delta");
    assert_eq!(watts_delta.state, "not_available");
    assert_eq!(watts_delta.error_message.as_deref(), Some("requires positive timestamp delta."));
}

#[test]
fn power_delta_marks_counter_reset_as_not_available() {
    let mut tracker = DeltaTracker::new();
    typed(&mut tracker, "power_domains", "zesPowerGetProperties", None, "zesPowerGetEnergyCounter", Some(&counter(900_000, 10_000)));
    let second = typed(&mut tracker, "power_domains", "zesPowerGetProperties", None, "zesPowerGetEnergyCounter", Some(&counter(1_000, 20_000)));
    let watts_delta = find_fact(&second, "sysman.power_domains.0.watts_delta");
    assert_eq!(watts_delta.state, "not_available");
    assert_eq!(watts_delta.error_message.as_deref(), Some("counter reset detected."));
    assert!(matches!(watts_delta.raw, FactRaw::Plain(FactScalar::Null)));
}

#[test]
fn engine_delta_requires_positive_timestamp_delta() {
    let mut tracker = DeltaTracker::new();
    typed(&mut tracker, "engine_groups", "zesEngineGetProperties", None, "zesEngineGetActivity", Some(&counter(1_000, 10_000)));
    let second = typed(&mut tracker, "engine_groups", "zesEngineGetProperties", None, "zesEngineGetActivity", Some(&counter(4_000, 10_000)));
    let delta = find_fact(&second, "sysman.engine_groups.0.utilization_pct_delta");
    assert_eq!(delta.state, "not_available");
    assert_eq!(delta.error_message.as_deref(), Some("requires positive timestamp delta."));
}

#[test]
fn engine_delta_marks_counter_reset_as_not_available() {
    let mut tracker = DeltaTracker::new();
    typed(&mut tracker, "engine_groups", "zesEngineGetProperties", None, "zesEngineGetActivity", Some(&counter(9_000, 10_000)));
    let second = typed(&mut tracker, "engine_groups", "zesEngineGetProperties", None, "zesEngineGetActivity", Some(&counter(1_000, 20_000)));
    let delta = find_fact(&second, "sysman.engine_groups.0.utilization_pct_delta");
    assert_eq!(delta.state, "not_available");
    assert_eq!(delta.error_message.as_deref(), Some("counter reset detected."));
    assert!(matches!(delta.raw, FactRaw::Plain(FactScalar::Null)));
}

#[test]
fn memory_size_falls_back_to_state_and_negative_frequencies_are_dropped() {
    let mut tracker = DeltaTracker::new();
    let props = buffer(&[u64_at(32, 0)]);
    let state = buffer(&[u32_at(16, 9), u64_at(24, 100), u64_at(32, 4096)]);
    let facts = typed(&mut tracker, "memory_modules", "zesMemoryGetProperties", Some(&props), "zesMemoryGetState", Some(&state));
    let keys: Vec<&str> = facts.iter().map(|f| f.metric_key.as_str()).collect();
    assert_eq!(keys, vec!["sysman.memory_modules.0.size_bytes", "sysman.memory_modules.0.free_bytes", "sysman.memory_modules.0.used_bytes"]);
    assert_eq!(facts[0].source_api, "zesMemoryGetProperties");
    assert_eq!(uint(&facts[2]), 3996);

    let freq = buffer(&[f64_at(40, -1.0), f64_at(48, 1300.0)]);
    let facts = typed(&mut tracker, "frequency_domains", "zesFrequencyGetProperties", Some(&freq), "zesFrequencyGetState", None);
    assert_eq!(facts.len(), 1);
    assert_eq!(facts[0].metric_key, "sysman.frequency_domains.0.max_mhz");
    assert_eq!(facts[0].unit, Some("mhz"));
    assert!(typed(&mut tracker, "temperature_sensors", "a", None, "b", None).is_empty());
}

fn engine_domain() -> SysmanDomain {
    SysmanDomain {
        domain_key: "engine_groups",
        unavailable_label: "activity",
        enum_api: "zesDeviceEnumEngineGroups",
        property_api: "zesEngineGetProperties",
        state_api: "zesEngineGetActivity",
    }
}

#[test]
fn domain_facts_list_each_handle_then_its_typed_facts() {
    let mut tracker = DeltaTracker::new();
    let handles = vec![
        HandleReading {
            handle_ptr: "0x1234".to_string(),
            property: BufferOutcome::Missing,
            state: StateOutcome::Buffer { stype: 11, bytes: counter(0xabcd, 10_000) },
        },
        HandleReading {
            handle_ptr: "0x5678".to_string(),
            property: BufferOutcome::Failed(-3),
            state: StateOutcome::Failed(-3),
        },
    ];
    let (facts, unavailable) =
        sysman_domain_facts(&mut tracker, &float_text, &quotient, DEVICE_KEY, &engine_domain(), SysmanEnumOutcome::Listed(2), &handles);
    let keys: Vec<&str> = facts.iter().map(|f| f.metric_key.as_str()).collect();
    assert_eq!(
        keys,
        vec![
            "sysman.engine_groups.count",
            "sysman.engine_groups.status",
            "sysman.engine_groups.0.handle",
            "sysman.engine_groups.0.properties",
            "sysman.engine_groups.0.state",
            "sysman.engine_groups.0.active_time_ns",
            "sysman.engine_groups.0.timestamp_ns",
            "sysman.engine_groups.0.utilization_pct_delta",
            "sysman.engine_groups.1.handle",
            "sysman.engine_groups.1.properties",
            "sysman.engine_groups.1.state",
        ]
    );
    assert!(unavailable.is_empty());
    let state = find_fact(&facts, "sysman.engine_groups.0.state");
    match &state.raw {
        FactRaw::Object(members) => {
            let names: Vec<&str> = members.iter().map(|m| m.0.as_str()).collect();
            assert_eq!(names, vec!["buffer_hex", "handle_index", "handle_ptr", "stype"]);
            assert!(matches!(&members[0].1, FactScalar::Text(t) if t.starts_with("cdab") && t.ends_with("1027")));
            assert!(matches!(&members[2].1, FactScalar::Text(t) if t == "0x1234"));
            assert!(matches!(members[3].1, FactScalar::UInt(11)));
        }
        _ => panic!("state is an object"),
    }
    assert_eq!(
        find_fact(&facts, "sysman.engine_groups.0.properties").error_message.as_deref(),
        Some("missing optional Sysman symbol zesEngineGetProperties.")
    );
    assert_eq!(
        find_fact(&facts, "sysman.engine_groups.1.state").error_message.as_deref(),
        Some("zesEngineGetActivity failed for handle index 1 with status -3.")
    );

    let (_, unavailable) = sysman_domain_facts(
        &mut tracker,
        &float_text,
        &quotient,
        DEVICE_KEY,
        &engine_domain(),
        SysmanEnumOutcome::Listed(1),
        &vec![HandleReading { handle_ptr: "0x1".to_string(), property: BufferOutcome::Failed(1), state: StateOutcome::Missing }],
    );
    assert_eq!(unavailable, vec!["activity"]);

    let (facts, unavailable) =
        sysman_domain_facts(&mut tracker, &float_text, &quotient, DEVICE_KEY, &engine_domain(), SysmanEnumOutcome::NotReady, &Vec::new());
    assert_eq!(facts.len(), 2);
    assert_eq!(unavailable, vec!["activity"]);
}

#[test]
fn temperature_state_is_an_object_with_the_reading() {
    let mut tracker = DeltaTracker::new();
    let domain = SysmanDomain {
        domain_key: "temperature_sensors",
        unavailable_label: "temperature",
        enum_api: "zesDeviceEnumTemperatureSensors",
        property_api: "zesTemperatureGetProperties",
        state_api: "zesTemperatureGetState",
    };
    let handles = vec![HandleReading { handle_ptr: "0x9".to_string(), property: BufferOutcome::Missing, state: StateOutcome::Temperature(text(45.5)) }];
    let (facts, unavailable) = sysman_domain_facts(&mut tracker, &float_text, &quotient, DEVICE_KEY, &domain, SysmanEnumOutcome::Listed(1), &handles);
    assert_eq!(facts.len(), 5);
    assert!(unavailable.is_empty());
    match &facts[4].raw {
        FactRaw::Object(members) => {
            assert_eq!(members[2].0, "temperature_c");
            assert!(matches!(&members[2].1, FactScalar::Decimal(d) if d.json == "45.5"));
        }
        _ => panic!("temperature state is an object"),
    }
}

#[test]
fn sysman_domains_are_listed_in_order() {
    let keys: Vec<(&str, &str)> = sysman_domains().iter().map(|d| (d.domain_key, d.unavailable_label)).collect();
    assert_eq!(
        keys,
        vec![
            ("engine_groups", "activity"),
            ("memory_modules", "memory"),
            ("power_domains", "power"),
            ("temperature_sensors", "temperature"),
            ("frequency_domains", "frequency"),
        ]
    );
    assert_eq!(sysman_domains()[2].state_api, "zesPowerGetEnergyCounter");
}
