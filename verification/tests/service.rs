use metrics_service::catalogue::{Family, GaugeSpec};
use metrics_service::connections::{Protocol, SocketInfo, TcpState};
use metrics_service::events::EventBuffer;
use metrics_service::gauges::{GaugeUpdate, GaugeValue};
use metrics_service::process::{Binary64, FdTarget, LoadAvg, ProcessDetails, ProcessUsage};
use metrics_service::service::{MetricsService, SystemSample, TickOutput};
use metrics_service::status::{
    ChainInfo, ClientInfo, Counter, IoInfo, MemoryInfo, NetworkStatus, PoolStatus, StateDbMemoryInfo,
    UsageInfo,
};
use metrics_service::telemetry::TelemetryEvent;

fn bits(value: f64) -> Binary64 {
    Binary64 { bits: value.to_bits() }
}

fn labeled(family: Family, label: &str, value: u64) -> GaugeUpdate {
    GaugeUpdate { family, label: Some(label.to_string()), value: GaugeValue::Unsigned(value) }
}

fn info(usage: Option<UsageInfo>) -> ClientInfo {
    ClientInfo {
        chain: ChainInfo {
            best_number: 1200,
            best_hash: vec![0xbe; 32],
            finalized_number: 1190,
            finalized_hash: vec![0xf1; 32],
        },
        usage,
    }
}

fn usage() -> UsageInfo {
    UsageInfo {
        memory: MemoryInfo {
            state_cache: 64,
            database_cache: 128,
            state_db: StateDbMemoryInfo { non_canonical: 1, pruning: Some(2), pinned: 3 },
        },
        io: IoInfo { bytes_read: 555, bytes_written: 777 },
    }
}

fn pool() -> PoolStatus {
    PoolStatus { ready: 17 }
}

fn net() -> NetworkStatus {
    NetworkStatus {
        num_connected_peers: 25,
        average_download_per_sec: 1000,
        average_upload_per_sec: 2000,
        best_seen_block: Some(1300),
    }
}

fn sample() -> SystemSample {
    SystemSample {
        usage: Some(ProcessUsage { cpu_usage: bits(12.5), memory: 4096 }),
        details: Some(ProcessDetails {
            num_threads: Some(6),
            descriptors: Some(vec![FdTarget::Path, FdTarget::Socket]),
        }),
        load: LoadAvg { one: bits(1.0), five: bits(2.0), fifteen: bits(3.0) },
        sockets: Some(vec![
            Some(SocketInfo { associated_pids: vec![42], protocol: Protocol::Tcp(TcpState::Listen) }),
            None,
            Some(SocketInfo { associated_pids: vec![43], protocol: Protocol::Tcp(TcpState::Listen) }),
        ]),
    }
}

fn with_sink(pid: Option<i32>) -> MetricsService<Family> {
    let create = |spec: &GaugeSpec| -> Result<Family, String> { Ok(spec.family) };
    match MetricsService::with_prometheus(create, "node", "0.1", 1, pid) {
        Ok(service) => service,
        Err(e) => panic!("{}", e),
    }
}

fn block_import_updates(output: &TickOutput) -> Vec<GaugeUpdate> {
    match &output.gauges {
        Some(updates) => {
            updates.iter().filter(|u| u.family == Family::BlockImport).cloned().collect()
        },
        None => panic!("no gauges"),
    }
}

#[test]
fn sampler_without_a_sink_has_no_gauges() {
    let service = MetricsService::<Family>::new(Some(42));
    assert!(service.metrics().is_none());
    assert_eq!(service.pid(), Some(42));
}

#[test]
fn sampler_with_a_sink_holds_a_handle_for_each_gauge() {
    let service = with_sink(Some(42));
    assert_eq!(service.pid(), Some(42));
    match service.metrics() {
        Some(metrics) => {
            for i in 0..18usize {
                let family = Family::at(i).unwrap();
                assert_eq!(*metrics.handle(family), family);
            }
        },
        None => panic!("no sink"),
    }
}

#[test]
fn construction_fails_where_a_gauge_cannot_be_created() {
    let create = |spec: &GaugeSpec| -> Result<Family, String> {
        if spec.family == Family::Threads {
            Err("threads".to_string())
        } else {
            Ok(spec.family)
        }
    };
    match MetricsService::with_prometheus(create, "node", "0.1", 1, Some(1)) {
        Ok(_) => panic!("built a sampler"),
        Err(e) => assert_eq!(e, "threads"),
    }
}

#[test]
fn tick_without_a_sink_still_reports_and_drains() {
    let service = MetricsService::<Family>::new(Some(42));
    let mut events = EventBuffer::new();
    events.record("block_imports", 5);
    events.record("other", 6);
    let counters = vec![Counter { key: "tokio_x".to_string(), value: 1 }];
    let output = service.tick(&info(Some(usage())), &pool(), &net(), &sample(), &counters, &mut events);
    assert_eq!(output.gauges, None);
    assert_eq!(events.len(), 0);
    assert_eq!(
        output.telemetry,
        TelemetryEvent {
            peers: 25,
            height: 1200,
            txcount: 17,
            cpu: bits(12.5),
            memory: 4096,
            finalized_height: 1190,
            finalized_hash: vec![0xf1; 32],
            bandwidth_download: 1000,
            bandwidth_upload: 2000,
            used_state_cache_size: 64,
            used_db_cache_size: 128,
            disk_read_per_sec: 555,
            disk_write_per_sec: 777,
        }
    );
}

#[test]
fn telemetry_reports_zero_where_usage_is_unknown() {
    let service = MetricsService::<Family>::new(Some(42));
    let mut events = EventBuffer::new();
    let output = service.tick(&info(None), &pool(), &net(), &sample(), &vec![], &mut events);
    assert_eq!(output.telemetry.used_state_cache_size, 0);
    assert_eq!(output.telemetry.used_db_cache_size, 0);
    assert_eq!(output.telemetry.disk_read_per_sec, 0);
    assert_eq!(output.telemetry.disk_write_per_sec, 0);
}

#[test]
fn telemetry_of_an_unknown_process_is_blank() {
    let service = MetricsService::<Family>::new(None);
    let mut events = EventBuffer::new();
    let output = service.tick(&info(None), &pool(), &net(), &sample(), &vec![], &mut events);
    assert_eq!(output.telemetry.cpu, bits(0.0));
    assert_eq!(output.telemetry.memory, 0);
    assert_eq!(output.telemetry.peers, 25);
}

#[test]
fn tick_with_a_sink_lists_the_gauges() {
    let service = with_sink(Some(42));
    let mut events = EventBuffer::new();
    events.record("block_imports", 30);
    events.record("block_imports", 10);
    events.record("sync", 7);
    let counters = vec![
        Counter { key: "mpsc_x".to_string(), value: 3 },
        Counter { key: "y".to_string(), value: 4 },
    ];
    let output = service.tick(&info(Some(usage())), &pool(), &net(), &sample(), &counters, &mut events);
    assert_eq!(events.len(), 0);
    let expected = vec![
        GaugeUpdate { family: Family::CpuUsagePercentage, label: None, value: GaugeValue::Real(bits(12.5)) },
        GaugeUpdate { family: Family::MemoryUsageBytes, label: None, value: GaugeValue::Unsigned(4096) },
        GaugeUpdate { family: Family::Threads, label: None, value: GaugeValue::Unsigned(6) },
        labeled(Family::OpenFiles, "paths", 1),
        labeled(Family::OpenFiles, "mem", 0),
        labeled(Family::OpenFiles, "sockets", 1),
        labeled(Family::OpenFiles, "net", 0),
        labeled(Family::OpenFiles, "pipes", 0),
        labeled(Family::OpenFiles, "anon_inode", 0),
        labeled(Family::OpenFiles, "other", 0),
        GaugeUpdate {
            family: Family::LoadAvg,
            label: Some("1min".to_string()),
            value: GaugeValue::Real(bits(1.0)),
        },
        GaugeUpdate {
            family: Family::LoadAvg,
            label: Some("5min".to_string()),
            value: GaugeValue::Real(bits(2.0)),
        },
        GaugeUpdate {
            family: Family::LoadAvg,
            label: Some("15min".to_string()),
            value: GaugeValue::Real(bits(3.0)),
        },
        labeled(Family::NetworkPerSecBytes, "download", 1000),
        labeled(Family::NetworkPerSecBytes, "upload", 2000),
        labeled(Family::BlockHeightNumber, "finalized", 1190),
        labeled(Family::BlockHeightNumber, "best", 1200),
        GaugeUpdate {
            family: Family::ReadyTransactionsNumber,
            label: None,
            value: GaugeValue::Unsigned(17),
        },
        labeled(Family::BlockHeightNumber, "sync_target", 1300),
        GaugeUpdate { family: Family::DatabaseCache, label: None, value: GaugeValue::Unsigned(128) },
        GaugeUpdate { family: Family::StateCache, label: None, value: GaugeValue::Unsigned(64) },
        labeled(Family::StateDb, "non_canonical", 1),
        labeled(Family::StateDb, "pruning", 2),
        labeled(Family::StateDb, "pinned", 3),
        labeled(Family::Netstat, "listen", 1),
        labeled(Family::Netstat, "established", 0),
        labeled(Family::Netstat, "starting", 0),
        labeled(Family::Netstat, "closing", 0),
        labeled(Family::Netstat, "closed", 0),
        labeled(Family::Netstat, "other", 0),
        labeled(Family::UnboundedChannels, "x", 3),
        labeled(Family::Internals, "y", 4),
        labeled(Family::BlockImport, "count", 2),
        labeled(Family::BlockImport, "time_average", 20),
        labeled(Family::BlockImport, "time_median", 30),
        labeled(Family::BlockImport, "time_lower_median", 30),
        labeled(Family::BlockImport, "time_higher_median", 30),
        labeled(Family::Internals, "sync_count", 1),
        labeled(Family::Internals, "sync_average", 7),
        labeled(Family::Internals, "sync_median", 7),
        labeled(Family::Internals, "sync_lower_median", 7),
        labeled(Family::Internals, "sync_higher_median", 7),
    ];
    assert_eq!(output.gauges, Some(expected));
}

#[test]
fn tick_leaves_connection_gauges_alone_without_a_socket_table() {
    let service = with_sink(Some(42));
    let mut events = EventBuffer::new();
    let mut reading = sample();
    reading.sockets = None;
    let output = service.tick(&info(None), &pool(), &net(), &reading, &vec![], &mut events);
    match output.gauges {
        Some(updates) => assert!(updates.iter().all(|u| u.family != Family::Netstat)),
        None => panic!("no gauges"),
    }
}

#[test]
fn consecutive_ticks_summarise_their_own_interval() {
    let service = with_sink(Some(42));
    let mut events = EventBuffer::new();

    events.record("block_imports", 100);
    let first = service.tick(&info(None), &pool(), &net(), &sample(), &vec![], &mut events);
    assert_eq!(events.len(), 0);
    assert_eq!(
        block_import_updates(&first),
        vec![
            labeled(Family::BlockImport, "count", 1),
            labeled(Family::BlockImport, "time_average", 100),
            labeled(Family::BlockImport, "time_median", 100),
            labeled(Family::BlockImport, "time_lower_median", 100),
            labeled(Family::BlockImport, "time_higher_median", 100),
        ]
    );

    events.record("block_imports", 300);
    let second = service.tick(&info(None), &pool(), &net(), &sample(), &vec![], &mut events);
    assert_eq!(events.len(), 0);
    assert_eq!(
        block_import_updates(&second),
        vec![
            labeled(Family::BlockImport, "count", 1),
            labeled(Family::BlockImport, "time_average", 300),
            labeled(Family::BlockImport, "time_median", 300),
            labeled(Family::BlockImport, "time_lower_median", 300),
            labeled(Family::BlockImport, "time_higher_median", 300),
        ]
    );

    let third = service.tick(&info(None), &pool(), &net(), &sample(), &vec![], &mut events);
    assert_eq!(block_import_updates(&third), vec![]);
}

#[test]
fn consecutive_ticks_without_a_sink_drain_each_interval() {
    let service = MetricsService::<Family>::new(Some(42));
    let mut events = EventBuffer::new();
    events.record("k", 1);
    let first = service.tick(&info(None), &pool(), &net(), &sample(), &vec![], &mut events);
    assert_eq!(first.gauges, None);
    assert_eq!(events.len(), 0);
    events.record("k", 2);
    assert_eq!(events.len(), 1);
    let second = service.tick(&info(None), &pool(), &net(), &sample(), &vec![], &mut events);
    assert_eq!(second.gauges, None);
    assert_eq!(events.len(), 0);
}
