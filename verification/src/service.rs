//! The sampler: one pass per tick over everything that was read.

use vstd::prelude::*;

use crate::catalogue::{setup_creates, setup_fails, GaugeSpec, PrometheusMetrics};
use crate::connections::{connection_counts, ConnectionsCount, SocketInfo};
use crate::events::{group_series, grouped, EventBuffer};
use crate::gauges::{collect_updates, gauge_updates, updates_of, GaugeUpdate};
use crate::process::{
    blank_sample, referent, sample_of, LoadAvg, ProcessDetails, ProcessInfo, ProcessUsage,
};
use crate::status::{counters_of, ClientInfo, Counter, NetworkStatus, PoolStatus};
use crate::telemetry::{telemetry_of, TelemetryEvent};

verus! {

/// What was read from the operating system for one tick. Each part is absent
/// where reading it failed or where the platform does not offer it.
#[derive(Clone, Debug, PartialEq, Eq)]
pub struct SystemSample {
    /// The process's usage, where its refresh succeeded.
    pub usage: Option<ProcessUsage>,
    /// Threads and descriptors, on platforms that expose them.
    pub details: Option<ProcessDetails>,
    pub load: LoadAvg,
    /// The host's socket table, where it could be enumerated; an entry that
    /// could not be read is `None`.
    pub sockets: Option<Vec<Option<SocketInfo>>>,
}

/// What a tick asks to be published.
#[derive(Clone, Debug, PartialEq, Eq)]
pub struct TickOutput {
    /// The event to push to the telemetry stream.
    pub telemetry: TelemetryEvent,
    /// The gauges to set, in order; none where no sink is configured.
    pub gauges: Option<Vec<GaugeUpdate>>,
}

/// The sampler. It either carries the gauges of a metrics sink, for the
/// whole of its life, or none.
pub struct MetricsService<G> {
    metrics: Option<PrometheusMetrics<G>>,
    pid: Option<i32>,
}

/// The process identifier as the socket table writes it.
pub open spec fn netstat_pid(pid: i32) -> u32 {
    pid as u32
}

/// The sample of a sampler that knows its process as `pid`: a blank one
/// where it does not know it.
pub open spec fn sample_for(
    pid: Option<i32>,
    usage: Option<ProcessUsage>,
    details: Option<ProcessDetails>,
) -> ProcessInfo {
    if pid is Some {
        sample_of(usage, details)
    } else {
        blank_sample()
    }
}

/// The connection counts of a sampler that knows its process as `pid`:
/// absent where it does not know it and where the socket table could not be
/// enumerated.
pub open spec fn connections_for(
    pid: Option<i32>,
    sockets: Option<Vec<Option<SocketInfo>>>,
) -> Option<ConnectionsCount> {
    match (pid, sockets) {
        (Some(p), Some(table)) => Some(connection_counts(table@, netstat_pid(p))),
        _ => None,
    }
}

impl<G> MetricsService<G> {
    /// Whether the sampler carries the gauges of a sink.
    pub closed spec fn has_sink(&self) -> bool {
        self.metrics is Some
    }

    /// The gauges of the sink, where there is one.
    pub closed spec fn sink(&self) -> Seq<G> {
        self.metrics->0@
    }

    /// The process that the sampler samples.
    pub closed spec fn spec_pid(&self) -> Option<i32> {
        self.pid
    }

    fn inner_new(metrics: Option<PrometheusMetrics<G>>, pid: Option<i32>) -> (service: Self)
        ensures
            service.has_sink() == metrics is Some,
            metrics matches Some(m) ==> service.sink() == m@,
            service.spec_pid() == pid,
    {
        MetricsService { metrics, pid }
    }

    /// A sampler with a sink, whose gauges are created one by one by
    /// `create`. If one creation fails, so does the construction, with the
    /// error of that creation.
    pub fn with_prometheus<E, F: Fn(&GaugeSpec) -> Result<G, E>>(
        create: F,
        name: &str,
        version: &str,
        roles: u64,
        pid: Option<i32>,
    ) -> (service: Result<Self, E>)
        requires
            forall|spec: GaugeSpec| call_requires(create, (&spec,)),
        ensures
            service matches Ok(s) ==> s.has_sink() && s.spec_pid() == pid && setup_creates::<
                G,
                E,
                F,
            >(create, name@, version@, roles, s.sink()),
            service matches Err(e) ==> setup_fails::<G, E, F>(create, name@, version@, roles, e),
    {
        match PrometheusMetrics::setup(create, name, version, roles) {
            Ok(metrics) => Ok(Self::inner_new(Some(metrics), pid)),
            Err(e) => Err(e),
        }
    }

    /// A sampler without a sink.
    pub fn new(pid: Option<i32>) -> (service: Self)
        ensures
            !service.has_sink(),
            service.spec_pid() == pid,
    {
        Self::inner_new(None, pid)
    }

    /// The process that the sampler samples, where it could be determined.
    pub fn pid(&self) -> (pid: Option<i32>)
        ensures
            pid == self.spec_pid(),
    {
        self.pid
    }

    /// The gauges of the sink, where there is one.
    pub fn metrics(&self) -> (metrics: Option<&PrometheusMetrics<G>>)
        ensures
            metrics is Some <==> self.has_sink(),
            metrics matches Some(m) ==> m@ == self.sink(),
    {
        self.metrics.as_ref()
    }

    /// The sample of the process from what was read of it.
    pub fn process_info(&self, usage: Option<ProcessUsage>, details: Option<&ProcessDetails>) -> (info:
        ProcessInfo)
        ensures
            info == sample_for(self.spec_pid(), usage, referent(details)),
    {
        match self.pid {
            Some(_) => ProcessInfo::from_readings(usage, details),
            None => ProcessInfo::default(),
        }
    }

    /// The connections of the process by category, from the host's socket
    /// table.
    pub fn connections_info(&self, sockets: Option<&Vec<Option<SocketInfo>>>) -> (count: Option<
        ConnectionsCount,
    >)
        ensures
            count == connections_for(self.spec_pid(), referent(sockets)),
    {
        match self.pid {
            Some(pid) => match sockets {
                Some(table) => Some(ConnectionsCount::tally(table, pid as u32)),
                None => None,
            },
            None => None,
        }
    }

    /// One sampling pass. Drains `events`, whether or not there is a sink;
    /// puts the telemetry event together; and, where there is a sink, lists
    /// the gauges to set.
    pub fn tick(
        &self,
        info: &ClientInfo,
        txpool_status: &PoolStatus,
        net_status: &NetworkStatus,
        sample: &SystemSample,
        counters: &Vec<Counter>,
        events: &mut EventBuffer,
    ) -> (output: TickOutput)
        ensures
            final(events)@ == Seq::<(Seq<char>, u64)>::empty(),
            output.telemetry@ == telemetry_of(
                *info,
                *txpool_status,
                *net_status,
                sample_for(self.spec_pid(), sample.usage, sample.details),
            ),
            output.gauges is Some <==> self.has_sink(),
            output.gauges matches Some(updates) ==> updates_of(updates@) == gauge_updates(
                sample_for(self.spec_pid(), sample.usage, sample.details),
                sample.load,
                *info,
                *txpool_status,
                *net_status,
                connections_for(self.spec_pid(), sample.sockets),
                counters_of(counters@),
                grouped(old(events)@),
            ),
    {
        let process_info = self.process_info(sample.usage, sample.details.as_ref());
        let telemetry = TelemetryEvent::assemble(info, txpool_status, net_status, &process_info);
        let series = events.flush_series();
        let gauges = match &self.metrics {
            Some(_) => {
                let connections = self.connections_info(sample.sockets.as_ref());
                let groups = group_series(&series);
                Some(
                    collect_updates(
                        &process_info,
                        &sample.load,
                        info,
                        txpool_status,
                        net_status,
                        &connections,
                        counters,
                        &groups,
                    ),
                )
            },
            None => None,
        };
        TickOutput { telemetry, gauges }
    }
}

} // verus!
