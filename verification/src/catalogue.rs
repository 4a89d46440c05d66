//! The gauges of the metrics surface and their creation.

use vstd::prelude::*;
use vstd::string::*;

verus! {

/// The gauges that a sink carries, in the order of their creation.
#[derive(Clone, Copy, Debug, PartialEq, Eq, Structural)]
pub enum Family {
    BuildInfo,
    NodeRoles,
    LoadAvg,
    MemoryUsageBytes,
    CpuUsagePercentage,
    Netstat,
    Threads,
    OpenFiles,
    BlockHeightNumber,
    ReadyTransactionsNumber,
    BlockImport,
    NetworkPerSecBytes,
    DatabaseCache,
    StateCache,
    StateDb,
    Tokio,
    Internals,
    UnboundedChannels,
}

/// What kind of number a gauge holds.
#[derive(Clone, Copy, Debug, PartialEq, Eq, Structural)]
pub enum ValueKind {
    /// An unsigned integer.
    Unsigned,
    /// A double-precision number.
    Real,
}

/// Number of gauges.
pub const FAMILY_COUNT: usize = 18;

/// The gauges in the order of their creation.
pub open spec fn family_at(index: int) -> Family {
    if index == 0 {
        Family::BuildInfo
    } else if index == 1 {
        Family::NodeRoles
    } else if index == 2 {
        Family::LoadAvg
    } else if index == 3 {
        Family::MemoryUsageBytes
    } else if index == 4 {
        Family::CpuUsagePercentage
    } else if index == 5 {
        Family::Netstat
    } else if index == 6 {
        Family::Threads
    } else if index == 7 {
        Family::OpenFiles
    } else if index == 8 {
        Family::BlockHeightNumber
    } else if index == 9 {
        Family::ReadyTransactionsNumber
    } else if index == 10 {
        Family::BlockImport
    } else if index == 11 {
        Family::NetworkPerSecBytes
    } else if index == 12 {
        Family::DatabaseCache
    } else if index == 13 {
        Family::StateCache
    } else if index == 14 {
        Family::StateDb
    } else if index == 15 {
        Family::Tokio
    } else if index == 16 {
        Family::Internals
    } else {
        Family::UnboundedChannels
    }
}

impl Family {
    /// The place of the gauge in the order of creation.
    pub open spec fn spec_index(self) -> int {
        match self {
            Family::BuildInfo => 0,
            Family::NodeRoles => 1,
            Family::LoadAvg => 2,
            Family::MemoryUsageBytes => 3,
            Family::CpuUsagePercentage => 4,
            Family::Netstat => 5,
            Family::Threads => 6,
            Family::OpenFiles => 7,
            Family::BlockHeightNumber => 8,
            Family::ReadyTransactionsNumber => 9,
            Family::BlockImport => 10,
            Family::NetworkPerSecBytes => 11,
            Family::DatabaseCache => 12,
            Family::StateCache => 13,
            Family::StateDb => 14,
            Family::Tokio => 15,
            Family::Internals => 16,
            Family::UnboundedChannels => 17,
        }
    }

    /// The name under which the gauge is exported.
    pub open spec fn spec_name(self) -> Seq<char> {
        match self {
            Family::BuildInfo => "build_info"@,
            Family::NodeRoles => "node_roles"@,
            Family::LoadAvg => "load_avg"@,
            Family::MemoryUsageBytes => "memory_usage_bytes"@,
            Family::CpuUsagePercentage => "cpu_usage_percentage"@,
            Family::Netstat => "netstat_tcp"@,
            Family::Threads => "threads"@,
            Family::OpenFiles => "open_file_handles"@,
            Family::BlockHeightNumber => "block_height_number"@,
            Family::ReadyTransactionsNumber => "ready_transactions_number"@,
            Family::BlockImport => "block_import"@,
            Family::NetworkPerSecBytes => "network_per_sec_bytes"@,
            Family::DatabaseCache => "database_cache_bytes"@,
            Family::StateCache => "state_cache_bytes"@,
            Family::StateDb => "state_db_cache_bytes"@,
            Family::Tokio => "tokio"@,
            Family::Internals => "internals"@,
            Family::UnboundedChannels => "internals_unbounded_channels"@,
        }
    }

    /// A line of help for readers of the exported gauge.
    pub open spec fn spec_help(self) -> Seq<char> {
        match self {
            Family::BuildInfo => "A metric with a constant '1' value labeled by name, version"@,
            Family::NodeRoles => "The roles the node is running as"@,
            Family::LoadAvg => "System load average"@,
            Family::MemoryUsageBytes => "Node memory usage"@,
            Family::CpuUsagePercentage => "Node CPU usage"@,
            Family::Netstat => "Current TCP connections "@,
            Family::Threads => "Number of threads used by the process"@,
            Family::OpenFiles => "hold by the process"@,
            Family::BlockHeightNumber => "Height of the chain"@,
            Family::ReadyTransactionsNumber => "Number of transactions in the ready queue"@,
            Family::BlockImport => "Block Import"@,
            Family::NetworkPerSecBytes => "Networking bytes per second"@,
            Family::DatabaseCache => "RocksDB cache size in bytes"@,
            Family::StateCache => "State cache size in bytes"@,
            Family::StateDb => "State DB cache in bytes"@,
            Family::Tokio => "Tokio internals"@,
            Family::Internals => "Other unspecified internals"@,
            Family::UnboundedChannels => "items in each mpsc::unbounded instance"@,
        }
    }

    /// The label by which the gauge is split, for those that are.
    pub open spec fn spec_axis(self) -> Option<Seq<char>> {
        match self {
            Family::LoadAvg => Some("over"@),
            Family::Netstat => Some("status"@),
            Family::OpenFiles => Some("fd_type"@),
            Family::BlockHeightNumber => Some("status"@),
            Family::BlockImport => Some("subtype"@),
            Family::NetworkPerSecBytes => Some("direction"@),
            Family::StateDb => Some("subtype"@),
            Family::Tokio => Some("entity"@),
            Family::Internals => Some("entity"@),
            Family::UnboundedChannels => Some("entity"@),
            _ => None,
        }
    }

    /// The kind of number that the gauge holds.
    pub open spec fn spec_kind(self) -> ValueKind {
        match self {
            Family::LoadAvg | Family::CpuUsagePercentage => ValueKind::Real,
            _ => ValueKind::Unsigned,
        }
    }

    /// The place of the gauge in the order of creation.
    pub fn index(self) -> (i: usize)
        ensures
            i == self.spec_index(),
            i < FAMILY_COUNT,
            family_at(i as int) == self,
    {
        match self {
            Family::BuildInfo => 0,
            Family::NodeRoles => 1,
            Family::LoadAvg => 2,
            Family::MemoryUsageBytes => 3,
            Family::CpuUsagePercentage => 4,
            Family::Netstat => 5,
            Family::Threads => 6,
            Family::OpenFiles => 7,
            Family::BlockHeightNumber => 8,
            Family::ReadyTransactionsNumber => 9,
            Family::BlockImport => 10,
            Family::NetworkPerSecBytes => 11,
            Family::DatabaseCache => 12,
            Family::StateCache => 13,
            Family::StateDb => 14,
            Family::Tokio => 15,
            Family::Internals => 16,
            Family::UnboundedChannels => 17,
        }
    }

    /// The gauge at a place in the order of creation.
    pub fn at(index: usize) -> (family: Option<Family>)
        ensures
            family is Some <==> index < FAMILY_COUNT,
            family matches Some(f) ==> f == family_at(index as int) && f.spec_index() == index,
    {
        if index == 0 {
            Some(Family::BuildInfo)
        } else if index == 1 {
            Some(Family::NodeRoles)
        } else if index == 2 {
            Some(Family::LoadAvg)
        } else if index == 3 {
            Some(Family::MemoryUsageBytes)
        } else if index == 4 {
            Some(Family::CpuUsagePercentage)
        } else if index == 5 {
            Some(Family::Netstat)
        } else if index == 6 {
            Some(Family::Threads)
        } else if index == 7 {
            Some(Family::OpenFiles)
        } else if index == 8 {
            Some(Family::BlockHeightNumber)
        } else if index == 9 {
            Some(Family::ReadyTransactionsNumber)
        } else if index == 10 {
            Some(Family::BlockImport)
        } else if index == 11 {
            Some(Family::NetworkPerSecBytes)
        } else if index == 12 {
            Some(Family::DatabaseCache)
        } else if index == 13 {
            Some(Family::StateCache)
        } else if index == 14 {
            Some(Family::StateDb)
        } else if index == 15 {
            Some(Family::Tokio)
        } else if index == 16 {
            Some(Family::Internals)
        } else if index == 17 {
            Some(Family::UnboundedChannels)
        } else {
            None
        }
    }

    /// The name under which the gauge is exported.
    pub fn name(self) -> (name: &'static str)
        ensures
            name@ == self.spec_name(),
    {
        match self {
            Family::BuildInfo => "build_info",
            Family::NodeRoles => "node_roles",
            Family::LoadAvg => "load_avg",
            Family::MemoryUsageBytes => "memory_usage_bytes",
            Family::CpuUsagePercentage => "cpu_usage_percentage",
            Family::Netstat => "netstat_tcp",
            Family::Threads => "threads",
            Family::OpenFiles => "open_file_handles",
            Family::BlockHeightNumber => "block_height_number",
            Family::ReadyTransactionsNumber => "ready_transactions_number",
            Family::BlockImport => "block_import",
            Family::NetworkPerSecBytes => "network_per_sec_bytes",
            Family::DatabaseCache => "database_cache_bytes",
            Family::StateCache => "state_cache_bytes",
            Family::StateDb => "state_db_cache_bytes",
            Family::Tokio => "tokio",
            Family::Internals => "internals",
            Family::UnboundedChannels => "internals_unbounded_channels",
        }
    }

    /// A line of help for readers of the exported gauge.
    pub fn help(self) -> (help: &'static str)
        ensures
            help@ == self.spec_help(),
    {
        match self {
            Family::BuildInfo => "A metric with a constant '1' value labeled by name, version",
            Family::NodeRoles => "The roles the node is running as",
            Family::LoadAvg => "System load average",
            Family::MemoryUsageBytes => "Node memory usage",
            Family::CpuUsagePercentage => "Node CPU usage",
            Family::Netstat => "Current TCP connections ",
            Family::Threads => "Number of threads used by the process",
            Family::OpenFiles => "hold by the process",
            Family::BlockHeightNumber => "Height of the chain",
            Family::ReadyTransactionsNumber => "Number of transactions in the ready queue",
            Family::BlockImport => "Block Import",
            Family::NetworkPerSecBytes => "Networking bytes per second",
            Family::DatabaseCache => "RocksDB cache size in bytes",
            Family::StateCache => "State cache size in bytes",
            Family::StateDb => "State DB cache in bytes",
            Family::Tokio => "Tokio internals",
            Family::Internals => "Other unspecified internals",
            Family::UnboundedChannels => "items in each mpsc::unbounded instance",
        }
    }

    /// The label by which the gauge is split, for those that are.
    pub fn axis(self) -> (axis: Option<&'static str>)
        ensures
            axis is Some <==> self.spec_axis() is Some,
            axis matches Some(a) ==> Some(a@) == self.spec_axis(),
    {
        match self {
            Family::LoadAvg => Some("over"),
            Family::Netstat => Some("status"),
            Family::OpenFiles => Some("fd_type"),
            Family::BlockHeightNumber => Some("status"),
            Family::BlockImport => Some("subtype"),
            Family::NetworkPerSecBytes => Some("direction"),
            Family::StateDb => Some("subtype"),
            Family::Tokio => Some("entity"),
            Family::Internals => Some("entity"),
            Family::UnboundedChannels => Some("entity"),
            _ => None,
        }
    }

    /// The kind of number that the gauge holds.
    pub fn kind(self) -> (kind: ValueKind)
        ensures
            kind == self.spec_kind(),
    {
        match self {
            Family::LoadAvg | Family::CpuUsagePercentage => ValueKind::Real,
            _ => ValueKind::Unsigned,
        }
    }
}

/// What is needed to create one gauge.
#[derive(Clone, Debug, PartialEq, Eq)]
pub struct GaugeSpec {
    pub family: Family,
    /// Labels that the gauge carries with fixed values.
    pub const_labels: Vec<(String, String)>,
    /// The value that the gauge is set to once, when it is created.
    pub initial: Option<u64>,
}

/// What a `GaugeSpec` holds.
pub struct GaugeSpecView {
    pub family: Family,
    pub const_labels: Seq<(Seq<char>, Seq<char>)>,
    pub initial: Option<u64>,
}

impl View for GaugeSpec {
    type V = GaugeSpecView;

    open spec fn view(&self) -> GaugeSpecView {
        GaugeSpecView {
            family: self.family,
            const_labels: self.const_labels@.map_values(|l: (String, String)| (l.0@, l.1@)),
            initial: self.initial,
        }
    }
}

/// What the gauge of `family` is created with: the build information carries
/// the node's name and version as fixed labels and stands at one, the roles
/// gauge stands at the node's roles, and every other gauge starts unset.
pub open spec fn gauge_spec(family: Family, name: Seq<char>, version: Seq<char>, roles: u64) -> GaugeSpecView {
    match family {
        Family::BuildInfo => GaugeSpecView {
            family,
            const_labels: seq![("name"@, name), ("version"@, version)],
            initial: Some(1),
        },
        Family::NodeRoles => GaugeSpecView { family, const_labels: seq![], initial: Some(roles) },
        _ => GaugeSpecView { family, const_labels: seq![], initial: None },
    }
}

impl GaugeSpec {
    /// What the gauge of `family` is created with.
    pub fn of(family: Family, name: &str, version: &str, roles: u64) -> (spec: GaugeSpec)
        ensures
            spec@ == gauge_spec(family, name@, version@, roles),
    {
        let mut const_labels: Vec<(String, String)> = Vec::new();
        let initial = match family {
            Family::BuildInfo => {
                const_labels.push((String::from_str("name"), String::from_str(name)));
                const_labels.push((String::from_str("version"), String::from_str(version)));
                Some(1)
            },
            Family::NodeRoles => Some(roles),
            _ => None,
        };
        let spec = GaugeSpec { family, const_labels, initial };
        assert(spec@.const_labels =~= gauge_spec(family, name@, version@, roles).const_labels);
        spec
    }
}

/// Whether `create`, handed a specification that holds `spec`, can have
/// answered with the handle `handle`.
pub open spec fn creates<G, E, F: Fn(&GaugeSpec) -> Result<G, E>>(
    create: F,
    spec: GaugeSpecView,
    handle: G,
) -> bool {
    exists|given: GaugeSpec| given@ == spec && call_ensures(create, (&given,), Ok::<G, E>(handle))
}

/// Whether `create`, handed a specification that holds `spec`, can have
/// failed with `error`.
pub open spec fn fails<G, E, F: Fn(&GaugeSpec) -> Result<G, E>>(
    create: F,
    spec: GaugeSpecView,
    error: E,
) -> bool {
    exists|given: GaugeSpec| given@ == spec && call_ensures(create, (&given,), Err::<G, E>(error))
}

/// Whether `create`, handed a specification that holds `spec`, can have
/// answered with a handle.
pub open spec fn succeeds<G, E, F: Fn(&GaugeSpec) -> Result<G, E>>(
    create: F,
    spec: GaugeSpecView,
) -> bool {
    exists|handle: G| creates::<G, E, F>(create, spec, handle)
}

/// Whether `handles` are handles that `create` answered with, one for each
/// gauge of the catalogue, in its order.
pub open spec fn setup_creates<G, E, F: Fn(&GaugeSpec) -> Result<G, E>>(
    create: F,
    name: Seq<char>,
    version: Seq<char>,
    roles: u64,
    handles: Seq<G>,
) -> bool {
    &&& handles.len() == FAMILY_COUNT
    &&& forall|i: int|
        0 <= i < FAMILY_COUNT ==> creates::<G, E, F>(
            create,
            gauge_spec(family_at(i), name, version, roles),
            #[trigger] handles[i],
        )
}

/// Whether `error` is what `create` failed with at the gauge at place `at`
/// of the catalogue, after it had answered with a handle for every gauge
/// before that one.
pub open spec fn setup_fails_at<G, E, F: Fn(&GaugeSpec) -> Result<G, E>>(
    create: F,
    name: Seq<char>,
    version: Seq<char>,
    roles: u64,
    at: int,
    error: E,
) -> bool {
    &&& 0 <= at < FAMILY_COUNT
    &&& fails::<G, E, F>(create, gauge_spec(family_at(at), name, version, roles), error)
    &&& forall|j: int|
        0 <= j < at ==> #[trigger] succeeds::<G, E, F>(
            create,
            gauge_spec(family_at(j), name, version, roles),
        )
}

/// Whether `error` is what `create` failed with at the first gauge of the
/// catalogue for which it failed.
pub open spec fn setup_fails<G, E, F: Fn(&GaugeSpec) -> Result<G, E>>(
    create: F,
    name: Seq<char>,
    version: Seq<char>,
    roles: u64,
    error: E,
) -> bool {
    exists|at: int| #[trigger] setup_fails_at::<G, E, F>(create, name, version, roles, at, error)
}

/// The gauges of a sink: one handle for each family.
pub struct PrometheusMetrics<G> {
    handles: Vec<G>,
}

impl<G> View for PrometheusMetrics<G> {
    type V = Seq<G>;

    closed spec fn view(&self) -> Seq<G> {
        self.handles@
    }
}

impl<G> PrometheusMetrics<G> {
    #[verifier::type_invariant]
    spec fn complete(self) -> bool {
        self.handles@.len() == FAMILY_COUNT
    }

    /// Creates every gauge, in the order of the catalogue, by a call of
    /// `create`. The first failure ends the setup with that error, and no
    /// sink comes to be.
    pub fn setup<E, F: Fn(&GaugeSpec) -> Result<G, E>>(
        create: F,
        name: &str,
        version: &str,
        roles: u64,
    ) -> (metrics: Result<Self, E>)
        requires
            forall|spec: GaugeSpec| call_requires(create, (&spec,)),
        ensures
            metrics matches Ok(m) ==> setup_creates::<G, E, F>(create, name@, version@, roles, m@),
            metrics matches Err(e) ==> setup_fails::<G, E, F>(create, name@, version@, roles, e),
    {
        let mut handles: Vec<G> = Vec::new();
        let mut i: usize = 0;
        loop
            invariant
                i <= FAMILY_COUNT,
                handles@.len() == i,
                forall|spec: GaugeSpec| call_requires(create, (&spec,)),
                forall|j: int|
                    0 <= j < i ==> creates::<G, E, F>(
                        create,
                        gauge_spec(family_at(j), name@, version@, roles),
                        #[trigger] handles@[j],
                    ),
            ensures
                i == FAMILY_COUNT,
            decreases FAMILY_COUNT - i,
        {
            let family = match Family::at(i) {
                Some(family) => family,
                None => break,
            };
            let spec = GaugeSpec::of(family, name, version, roles);
            match create(&spec) {
                Ok(handle) => {
                    assert(creates::<G, E, F>(
                        create,
                        gauge_spec(family_at(i as int), name@, version@, roles),
                        handle,
                    ));
                    handles.push(handle);
                },
                Err(e) => {
                    assert(fails::<G, E, F>(
                        create,
                        gauge_spec(family_at(i as int), name@, version@, roles),
                        e,
                    ));
                    assert forall|j: int| 0 <= j < i implies #[trigger] succeeds::<G, E, F>(
                        create,
                        gauge_spec(family_at(j), name@, version@, roles),
                    ) by {
                        assert(creates::<G, E, F>(
                            create,
                            gauge_spec(family_at(j), name@, version@, roles),
                            handles@[j],
                        ));
                    }
                    assert(setup_fails_at::<G, E, F>(
                        create,
                        name@,
                        version@,
                        roles,
                        i as int,
                        e,
                    ));
                    return Err(e);
                },
            }
            i = i + 1;
        }
        Ok(PrometheusMetrics { handles })
    }

    /// The handle of the gauge of `family`.
    pub fn handle(&self, family: Family) -> (handle: &G)
        ensures
            self@.len() == FAMILY_COUNT,
            *handle == self@[family.spec_index()],
    {
        proof {
            use_type_invariant(self);
        }
        &self.handles[family.index()]
    }
}

} // verus!
