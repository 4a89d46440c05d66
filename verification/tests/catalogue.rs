use std::cell::RefCell;

use metrics_service::catalogue::{Family, GaugeSpec, PrometheusMetrics, ValueKind, FAMILY_COUNT};

const FAMILIES: [Family; 18] = [
    Family::BuildInfo,
    Family::NodeRoles,
    Family::LoadAvg,
    Family::MemoryUsageBytes,
    Family::CpuUsagePercentage,
    Family::Netstat,
    Family::Threads,
    Family::OpenFiles,
    Family::BlockHeightNumber,
    Family::ReadyTransactionsNumber,
    Family::BlockImport,
    Family::NetworkPerSecBytes,
    Family::DatabaseCache,
    Family::StateCache,
    Family::StateDb,
    Family::Tokio,
    Family::Internals,
    Family::UnboundedChannels,
];

#[test]
fn catalogue_lists_every_gauge_once() {
    assert_eq!(FAMILY_COUNT, 18);
    for (i, family) in FAMILIES.iter().enumerate() {
        assert_eq!(Family::at(i), Some(*family));
        assert_eq!(family.index(), i);
    }
    assert_eq!(Family::at(18), None);
    assert_eq!(Family::at(usize::MAX), None);
}

#[test]
fn gauges_are_exported_under_their_names() {
    let names: Vec<&str> = FAMILIES.iter().map(|f| f.name()).collect();
    assert_eq!(
        names,
        vec![
            "build_info",
            "node_roles",
            "load_avg",
            "memory_usage_bytes",
            "cpu_usage_percentage",
            "netstat_tcp",
            "threads",
            "open_file_handles",
            "block_height_number",
            "ready_transactions_number",
            "block_import",
            "network_per_sec_bytes",
            "database_cache_bytes",
            "state_cache_bytes",
            "state_db_cache_bytes",
            "tokio",
            "internals",
            "internals_unbounded_channels",
        ]
    );
}

#[test]
fn gauges_are_split_by_their_label() {
    let axes: Vec<Option<&str>> = FAMILIES.iter().map(|f| f.axis()).collect();
    assert_eq!(
        axes,
        vec![
            None,
            None,
            Some("over"),
            None,
            None,
            Some("status"),
            None,
            Some("fd_type"),
            Some("status"),
            None,
            Some("subtype"),
            Some("direction"),
            None,
            None,
            Some("subtype"),
            Some("entity"),
            Some("entity"),
            Some("entity"),
        ]
    );
}

#[test]
fn only_load_and_cpu_hold_real_numbers() {
    for family in FAMILIES.iter() {
        let expected = match family {
            Family::LoadAvg | Family::CpuUsagePercentage => ValueKind::Real,
            _ => ValueKind::Unsigned,
        };
        assert_eq!(family.kind(), expected);
    }
}

#[test]
fn every_gauge_has_a_line_of_help() {
    for family in FAMILIES.iter() {
        assert!(!family.help().is_empty());
    }
}

#[test]
fn build_information_carries_name_and_version() {
    let spec = GaugeSpec::of(Family::BuildInfo, "node", "1.2.3", 4);
    assert_eq!(
        spec,
        GaugeSpec {
            family: Family::BuildInfo,
            const_labels: vec![
                ("name".to_string(), "node".to_string()),
                ("version".to_string(), "1.2.3".to_string()),
            ],
            initial: Some(1),
        }
    );
}

#[test]
fn roles_gauge_starts_at_the_roles() {
    let spec = GaugeSpec::of(Family::NodeRoles, "node", "1.2.3", 4);
    assert_eq!(spec, GaugeSpec { family: Family::NodeRoles, const_labels: vec![], initial: Some(4) });
}

#[test]
fn other_gauges_start_unset() {
    for family in FAMILIES.iter().skip(2) {
        let spec = GaugeSpec::of(*family, "node", "1.2.3", 4);
        assert_eq!(spec, GaugeSpec { family: *family, const_labels: vec![], initial: None });
    }
}

#[test]
fn setup_creates_every_gauge_in_order() {
    let seen: RefCell<Vec<GaugeSpec>> = RefCell::new(Vec::new());
    let create = |spec: &GaugeSpec| -> Result<usize, String> {
        seen.borrow_mut().push(spec.clone());
        Ok(seen.borrow().len() - 1)
    };
    let metrics = match PrometheusMetrics::setup(create, "n", "v", 9) {
        Ok(metrics) => metrics,
        Err(e) => panic!("{}", e),
    };
    let seen = seen.into_inner();
    assert_eq!(seen.len(), 18);
    for (i, family) in FAMILIES.iter().enumerate() {
        assert_eq!(seen[i], GaugeSpec::of(*family, "n", "v", 9));
        assert_eq!(*metrics.handle(*family), i);
    }
}

#[test]
fn setup_fails_with_the_first_failure() {
    for failing in 0..18usize {
        let calls: RefCell<Vec<Family>> = RefCell::new(Vec::new());
        let create = |spec: &GaugeSpec| -> Result<usize, String> {
            calls.borrow_mut().push(spec.family);
            if spec.family.index() >= failing {
                Err(format!("no {}", spec.family.name()))
            } else {
                Ok(spec.family.index())
            }
        };
        let outcome = PrometheusMetrics::setup(create, "n", "v", 0);
        match outcome {
            Ok(_) => panic!("setup went through"),
            Err(e) => assert_eq!(e, format!("no {}", FAMILIES[failing].name())),
        }
        assert_eq!(calls.into_inner(), FAMILIES[..failing + 1].to_vec());
    }
}
