use wtg::json::JsonValue;
use wtg::providers::amd_adl::{
    call_plan, count_failure, empty_enumeration, enumeration_result, finish_adapter_record,
    group_adapters, info_failure, sample_from_outcome, AdlCallPlan, AdlOutcome,
    adapter_active_value, duplicate_extended_discovery_call, format_snapshot, range_json,
    unsupported_call, AdlAdapterRecord, AdlApiCall, AdlOdParameterRange, AdlRawIdentity,
    PhysicalAdapterGroup, ProviderSample, SampleReturnCodes,
};

fn identity(index: i32, name: &str) -> AdlRawIdentity {
    AdlRawIdentity {
        adl_adapter_index: index,
        adl_udid: String::new(),
        adl_adapter_name: name.to_string(),
        adl_display_name: String::new(),
        adl_vendor_id: 1002,
        adl_present: true,
        adl_exists: true,
        adl_bus_number: 6,
        adl_device_number: 0,
        adl_function_number: 0,
        adl_driver_path: String::new(),
        adl_driver_path_ext: String::new(),
        adl_pnp_string: String::new(),
        adl_os_display_index: 0,
    }
}

fn active_call(active: bool) -> AdlApiCall {
    AdlApiCall {
        metric_key: "adapter_active",
        source_api: "ADL_Adapter_Active_Get",
        state: "ok",
        adl_return_code: Some(0),
        raw: JsonValue::Object(vec![("value".to_string(), JsonValue::Bool(active))]),
        unit: None,
        error_message: None,
    }
}

fn adapter(index: i32, name: &str, calls: Vec<AdlApiCall>) -> AdlAdapterRecord {
    AdlAdapterRecord {
        adl_raw_identity: identity(index, name),
        physical_adapter_key: "vendor=1002,bus=6,device=0,function=0".to_string(),
        physical_adapter_role: "primary",
        physical_adapter_primary_index: index,
        logical_record_kind: "adl_adapter_record",
        adl_calls: calls,
        provider_warnings: Vec::new(),
        provider_errors: Vec::new(),
    }
}

fn group(key: &str, vendor: i32, primary: i32, indices: Vec<i32>, extended: bool) -> PhysicalAdapterGroup {
    PhysicalAdapterGroup {
        physical_adapter_key: key.to_string(),
        physical_vendor_id: vendor,
        physical_adapter_primary_index: primary,
        logical_record_kind: "adl_adapter_record",
        logical_record_count: indices.len(),
        logical_adapter_indices: indices,
        extended_amd_discovery_attempted: extended,
    }
}

fn sample(status: &'static str, groups: Vec<PhysicalAdapterGroup>, adapters: Vec<AdlAdapterRecord>, errors: Vec<String>) -> ProviderSample {
    ProviderSample {
        wtg_version: "0.3.0",
        source: "wtg.provider.amd.adl",
        telemetry_class: "provider_telemetry",
        provider: "amd.adl",
        provider_authority: "AMD ADL",
        status,
        sample_seq: 1,
        timestamp_unix_ms: 0,
        dll_name: Some("atiadlxx.dll".to_string()),
        dll_path: None,
        adl_initialized: true,
        adl_return_codes: SampleReturnCodes {
            adl_main_control_create: Some(0),
            adl_adapter_number_of_adapters_get: Some(0),
            adl_adapter_adapter_info_get: Some(0),
        },
        physical_adapter_group_count: groups.len(),
        amd_physical_adapter_count: 1,
        non_amd_physical_adapter_count: 1,
        extended_amd_discovery_run_count: 1,
        physical_adapter_groups: groups,
        adapters,
        errors,
    }
}

#[test]
fn duplicate_extended_discovery_call_is_explicit() {
    let call = duplicate_extended_discovery_call(0);

    assert_eq!(call.metric_key, "extended_discovery");
    assert_eq!(call.source_api, "WTG_ADL_PROVIDER_DEDUP");
    assert_eq!(call.state, "not_available");
    assert_eq!(
        call.raw,
        JsonValue::Object(vec![
            ("reason".to_string(), JsonValue::Text("duplicate_physical_adapter_record".to_string())),
            ("primary_adapter_index".to_string(), JsonValue::Int(0)),
        ])
    );
}

#[test]
fn adl_snapshot_lists_physical_groups() {
    let adapters = vec![
        adapter(0, "AMD Radeon RX 7900", vec![active_call(true)]),
        adapter(3, "Microsoft Basic", vec![]),
    ];
    let groups = vec![
        group("vendor=1002,bus=6,device=0,function=0", 1002, 0, vec![0, 1, 2], true),
        group("vendor=5140,bus=0,device=0,function=0", 5140, 3, vec![3], false),
    ];
    let rendered = format_snapshot(&sample("ok", groups, adapters, Vec::new()));
    assert_eq!(
        rendered,
        "WTG snapshot (AMD ADL)\n\nADL adapter records returned: 2\nPhysical adapter groups: 2\nAMD physical adapters: 1\nNon-AMD physical adapters seen through ADL: 1\nExtended AMD discovery ran: 1\n\nPhysical adapter group vendor=1002,bus=6,device=0,function=0\n  Adapter name: AMD Radeon RX 7900\n  Vendor kind: AMD\n  Primary ADL adapter index: 0\n  Logical ADL record indexes: 0, 1, 2\n  Extended AMD discovery attempted: yes\n  Active: yes\n\nPhysical adapter group vendor=5140,bus=0,device=0,function=0\n  Adapter name: Microsoft Basic\n  Vendor kind: non-AMD\n  Primary ADL adapter index: 3\n  Logical ADL record indexes: 3\n  Extended AMD discovery attempted: no\n  Active: no"
    );
}

#[test]
fn adl_snapshot_without_groups_or_ok_status() {
    let empty = format_snapshot(&sample("ok", Vec::new(), Vec::new(), Vec::new()));
    assert!(empty.ends_with("Extended AMD discovery ran: 1\n\nNo physical adapter groups returned by ADL."));
    let missing = group("k", 1002, 9, vec![], false);
    let orphan = format_snapshot(&sample("ok", vec![missing], Vec::new(), Vec::new()));
    assert!(orphan.contains("  Adapter name: unknown\n"));
    assert!(orphan.ends_with("  Logical ADL record indexes: \n  Extended AMD discovery attempted: no\n  Active: no"));
    assert_eq!(
        format_snapshot(&sample("unavailable", Vec::new(), Vec::new(), vec!["no dll".to_string()])),
        "WTG snapshot (AMD ADL)\n\n  Status: unavailable\n  Reason: no dll"
    );
    assert_eq!(
        format_snapshot(&sample("error", Vec::new(), Vec::new(), Vec::new())),
        "WTG snapshot (AMD ADL)\n\n  Status: error\n  Reason: provider returned no additional details"
    );
}

#[test]
fn adl_active_value_reads_first_active_call() {
    assert_eq!(adapter_active_value(&adapter(0, "a", vec![active_call(false), active_call(true)])), Some(false));
    assert_eq!(adapter_active_value(&adapter(0, "a", vec![])), None);
    let odd = AdlApiCall { raw: JsonValue::Object(vec![("value".to_string(), JsonValue::Int(1))]), ..active_call(true) };
    assert_eq!(adapter_active_value(&adapter(0, "a", vec![odd])), None);
    let unsupported = unsupported_call("adapter_active", "ADL_Adapter_Active_Get", "missing symbol");
    assert_eq!(unsupported.state, "unsupported");
    assert_eq!(unsupported.raw, JsonValue::Null);
    assert_eq!(unsupported.error_message.as_deref(), Some("missing symbol"));
    assert_eq!(adapter_active_value(&adapter(0, "a", vec![unsupported])), None);
}

#[test]
fn adl_range_members_are_ordered() {
    assert_eq!(
        range_json(&AdlOdParameterRange { min: 300, max: 1200, step: 5 }),
        JsonValue::Object(vec![
            ("min".to_string(), JsonValue::Int(300)),
            ("max".to_string(), JsonValue::Int(1200)),
            ("step".to_string(), JsonValue::Int(5)),
        ])
    );
}

fn info(index: i32, vendor: i32, bus: i32, name: &str) -> wtg::providers::amd_adl::AdapterInfo {
    wtg::providers::amd_adl::AdapterInfo {
        i_size: 0,
        i_adapter_index: index,
        str_udid: String::new(),
        i_bus_number: bus,
        i_device_number: 0,
        i_function_number: 0,
        i_vendor_id: vendor,
        str_adapter_name: name.to_string(),
        str_display_name: String::new(),
        i_present: 1,
        i_exist: 0,
        str_driver_path: String::new(),
        str_driver_path_ext: String::new(),
        str_pnp_string: String::new(),
        i_os_display_index: 2,
    }
}

#[test]
fn adl_records_group_by_physical_adapter() {
    let infos = vec![
        info(0, 1002, 6, "AMD Radeon RX 7900"),
        info(1, 1002, 6, "AMD Radeon RX 7900"),
        info(2, 5140, 0, "Basic"),
        info(3, 1002, 6, "AMD Radeon RX 7900"),
        info(4, 1002, 9, "AMD Radeon iGPU"),
    ];
    let g = group_adapters(&infos);
    assert_eq!(g.groups.len(), 3);
    assert_eq!(g.groups[0].physical_adapter_key, "vendor=1002,bus=6,device=0,function=0");
    assert_eq!(g.groups[0].logical_adapter_indices, vec![0, 1, 3]);
    assert_eq!(g.groups[0].logical_record_count, 3);
    assert!(g.groups[0].extended_amd_discovery_attempted);
    assert!(!g.groups[1].extended_amd_discovery_attempted);
    assert_eq!(g.groups[2].physical_adapter_primary_index, 4);
    assert_eq!(g.extended_amd_discovery_run_count, 2);
    assert_eq!(g.placements.len(), 5);
    assert_eq!(g.placements[1].physical_adapter_role, "duplicate_logical_record");
    assert_eq!(g.placements[1].physical_adapter_primary_index, 0);
    assert!(g.placements[3].duplicate_amd_record);
    assert_eq!(g.placements[2].physical_adapter_role, "primary_physical_record");
    assert!(!g.placements[2].duplicate_amd_record);
    assert!(matches!(call_plan(&infos[2], false), AdlCallPlan::ActiveOnly));
    assert!(matches!(call_plan(&infos[1], true), AdlCallPlan::ActiveThenDuplicate));
    assert!(matches!(call_plan(&infos[0], false), AdlCallPlan::Full));
}

#[test]
fn adl_sample_follows_outcome() {
    let missing = sample_from_outcome(3, 11, AdlOutcome::LoadFailed("AMD ADL DLL not found via atiadlxx.dll or atiadlxy.dll.".to_string()));
    assert_eq!(missing.status, "unavailable");
    assert_eq!(missing.sample_seq, 3);
    assert!(missing.dll_name.is_none());
    assert_eq!(
        format_snapshot(&missing),
        "WTG snapshot (AMD ADL)\n\n  Status: unavailable\n  Reason: AMD ADL DLL not found via atiadlxx.dll or atiadlxy.dll."
    );
    let create = sample_from_outcome(
        0,
        0,
        AdlOutcome::CreateFailed { dll_name: "atiadlxx.dll".to_string(), dll_path: "C:\\a".to_string(), code: -1, message: "create failed".to_string() },
    );
    assert_eq!(create.status, "error");
    assert_eq!(create.adl_return_codes.adl_main_control_create, Some(-1));
    assert!(!create.adl_initialized);
    let err = count_failure(-3);
    assert_eq!(err.message, "ADL_Adapter_NumberOfAdapters_Get failed with status -3.");
    let listed = sample_from_outcome(
        0,
        0,
        AdlOutcome::EnumerationFailed { dll_name: "a".to_string(), dll_path: "b".to_string(), error: info_failure(0, -5) },
    );
    assert_eq!(listed.errors, vec!["ADL_Adapter_AdapterInfo_Get failed with status -5.".to_string()]);
    assert_eq!(listed.adl_return_codes.adl_adapter_adapter_info_get, Some(-5));
    let none = sample_from_outcome(0, 0, AdlOutcome::Enumerated { dll_name: "a".to_string(), dll_path: "b".to_string(), enumeration: empty_enumeration(0) });
    assert_eq!(none.status, "unavailable");
    assert_eq!(none.errors, vec!["ADL initialized but returned zero adapters.".to_string()]);

    let infos = vec![info(0, 1002, 6, "AMD Radeon RX 7900"), info(1, 4318, 1, "Other")];
    let grouping = group_adapters(&infos);
    let mut records = Vec::new();
    let placements = grouping.placements.iter().map(|p| wtg::providers::amd_adl::AdapterPlacement {
        physical_adapter_key: p.physical_adapter_key.clone(),
        physical_adapter_role: p.physical_adapter_role,
        physical_adapter_primary_index: p.physical_adapter_primary_index,
        duplicate_amd_record: p.duplicate_amd_record,
    }).collect::<Vec<_>>();
    for (i, p) in infos.into_iter().zip(placements) {
        let calls = vec![
            active_call(true),
            unsupported_call("overdrive_caps", "ADL_Overdrive_Caps", "not supported here"),
            wtg::providers::amd_adl::call_from_error("temperature", "ADL_Overdrive5_Temperature_Get", -1, "failed".to_string()),
        ];
        records.push(finish_adapter_record(i, p, calls));
    }
    assert_eq!(records[0].provider_warnings, vec!["not supported here".to_string()]);
    assert_eq!(records[0].provider_errors, vec!["failed".to_string()]);
    assert_eq!(records[1].provider_warnings.len(), 2);
    assert!(records[1].provider_warnings[0].starts_with("ADL returned non-AMD adapter identity"));
    assert!(!records[0].adl_raw_identity.adl_exists);
    assert_eq!(records[0].adl_raw_identity.adl_os_display_index, 2);
    let enumeration = enumeration_result(0, 0, grouping, records);
    assert_eq!(enumeration.amd_physical_adapter_count, 1);
    assert_eq!(enumeration.non_amd_physical_adapter_count, 1);
    let ok = sample_from_outcome(1, 2, AdlOutcome::Enumerated { dll_name: "a".to_string(), dll_path: "b".to_string(), enumeration });
    assert_eq!(ok.status, "ok");
    assert!(ok.errors.is_empty());
    let rendered = format_snapshot(&ok);
    assert!(rendered.contains("Physical adapter group vendor=1002,bus=6,device=0,function=0\n  Adapter name: AMD Radeon RX 7900\n  Vendor kind: AMD\n  Primary ADL adapter index: 0\n  Logical ADL record indexes: 0\n  Extended AMD discovery attempted: yes\n  Active: yes"));
    assert!(rendered.contains("  Vendor kind: non-AMD"));
}
