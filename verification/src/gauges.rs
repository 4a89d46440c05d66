//! Which gauge receives which value at a tick.

use vstd::prelude::*;
use vstd::string::*;

use crate::catalogue::{Family, ValueKind};
use crate::connections::ConnectionsCount;
use crate::events::{series_of, Series};
use crate::process::{Binary64, FdCounter, LoadAvg, ProcessInfo};
use crate::series::{summary, TimeSeriesInfo};
use crate::status::{counters_of, ClientInfo, Counter, NetworkStatus, PoolStatus, UsageInfo};
use crate::text::{strip_prefix, with_suffix};

verus! {

/// The number that a gauge is set to.
#[derive(Clone, Copy, Debug, PartialEq, Eq, Structural)]
pub enum GaugeValue {
    Unsigned(u64),
    Real(Binary64),
}

/// One gauge to set: the family, the value of its label where the family is
/// split by one, and the number.
#[derive(Clone, Debug, PartialEq, Eq)]
pub struct GaugeUpdate {
    pub family: Family,
    pub label: Option<String>,
    pub value: GaugeValue,
}

/// What a `GaugeUpdate` holds.
pub struct GaugeUpdateView {
    pub family: Family,
    pub label: Option<Seq<char>>,
    pub value: GaugeValue,
}

impl View for GaugeUpdate {
    type V = GaugeUpdateView;

    open spec fn view(&self) -> GaugeUpdateView {
        GaugeUpdateView {
            family: self.family,
            label: match self.label {
                Some(l) => Some(l@),
                None => None,
            },
            value: self.value,
        }
    }
}

/// The updates that a list of updates stands for.
pub open spec fn updates_of(updates: Seq<GaugeUpdate>) -> Seq<GaugeUpdateView> {
    updates.map_values(|u: GaugeUpdate| u@)
}

/// Sets a gauge that has no label.
pub open spec fn scalar(family: Family, value: u64) -> GaugeUpdateView {
    GaugeUpdateView { family, label: None, value: GaugeValue::Unsigned(value) }
}

/// Sets the gauge of a family under one value of its label.
pub open spec fn labeled(family: Family, label: Seq<char>, value: u64) -> GaugeUpdateView {
    GaugeUpdateView { family, label: Some(label), value: GaugeValue::Unsigned(value) }
}

/// Sets a gauge that has no label and holds a real number.
pub open spec fn real_scalar(family: Family, value: Binary64) -> GaugeUpdateView {
    GaugeUpdateView { family, label: None, value: GaugeValue::Real(value) }
}

/// Sets the gauge of a family of real numbers under one value of its label.
pub open spec fn real_labeled(family: Family, label: Seq<char>, value: Binary64) -> GaugeUpdateView {
    GaugeUpdateView { family, label: Some(label), value: GaugeValue::Real(value) }
}

/// The key under which the durations of block imports are recorded.
pub open spec fn block_imports_key() -> Seq<char> {
    "block_imports"@
}

/// The prefix of the counters that the async runtime keeps.
pub open spec fn tokio_prefix() -> Seq<char> {
    "tokio_"@
}

/// The prefix of the counters that tell the depth of unbounded channels.
pub open spec fn mpsc_prefix() -> Seq<char> {
    "mpsc_"@
}

/// Thread count: set where the platform reports one.
pub open spec fn thread_updates(threads: Option<u64>) -> Seq<GaugeUpdateView> {
    match threads {
        Some(n) => seq![scalar(Family::Threads, n)],
        None => seq![],
    }
}

/// Open descriptors by target: set where the platform reports them.
pub open spec fn open_fd_updates(open_fd: Option<FdCounter>) -> Seq<GaugeUpdateView> {
    match open_fd {
        Some(fd) => seq![
            labeled(Family::OpenFiles, "paths"@, fd.paths),
            labeled(Family::OpenFiles, "mem"@, fd.mem),
            labeled(Family::OpenFiles, "sockets"@, fd.sockets),
            labeled(Family::OpenFiles, "net"@, fd.net),
            labeled(Family::OpenFiles, "pipes"@, fd.pipes),
            labeled(Family::OpenFiles, "anon_inode"@, fd.anon_inode),
            labeled(Family::OpenFiles, "other"@, fd.other),
        ],
        None => seq![],
    }
}

/// The gauges of the process sample.
pub open spec fn process_updates(info: ProcessInfo) -> Seq<GaugeUpdateView> {
    seq![
        real_scalar(Family::CpuUsagePercentage, info.cpu_usage),
        scalar(Family::MemoryUsageBytes, info.memory),
    ] + thread_updates(info.threads) + open_fd_updates(info.open_fd)
}

/// The gauges of the host's load.
pub open spec fn load_updates(load: LoadAvg) -> Seq<GaugeUpdateView> {
    seq![
        real_labeled(Family::LoadAvg, "1min"@, load.one),
        real_labeled(Family::LoadAvg, "5min"@, load.five),
        real_labeled(Family::LoadAvg, "15min"@, load.fifteen),
    ]
}

/// The gauges of the network's bandwidth.
pub open spec fn network_updates(net_status: NetworkStatus) -> Seq<GaugeUpdateView> {
    seq![
        labeled(Family::NetworkPerSecBytes, "download"@, net_status.average_download_per_sec),
        labeled(Family::NetworkPerSecBytes, "upload"@, net_status.average_upload_per_sec),
    ]
}

/// The height that the network is syncing to: set where a peer announced one.
pub open spec fn sync_target_updates(best_seen_block: Option<u64>) -> Seq<GaugeUpdateView> {
    match best_seen_block {
        Some(n) => seq![labeled(Family::BlockHeightNumber, "sync_target"@, n)],
        None => seq![],
    }
}

/// The gauges of the chain's heights and of the transaction queue.
pub open spec fn chain_updates(
    info: ClientInfo,
    txpool_status: PoolStatus,
    net_status: NetworkStatus,
) -> Seq<GaugeUpdateView> {
    seq![
        labeled(Family::BlockHeightNumber, "finalized"@, info.chain.finalized_number),
        labeled(Family::BlockHeightNumber, "best"@, info.chain.best_number),
        scalar(Family::ReadyTransactionsNumber, txpool_status.ready as u64),
    ] + sync_target_updates(net_status.best_seen_block)
}

/// Memory held for pruning: set where pruning is on.
pub open spec fn pruning_updates(pruning: Option<usize>) -> Seq<GaugeUpdateView> {
    match pruning {
        Some(bytes) => seq![labeled(Family::StateDb, "pruning"@, bytes as u64)],
        None => seq![],
    }
}

/// The gauges of the client's caches: set where the client reports its usage.
pub open spec fn usage_updates(usage: Option<UsageInfo>) -> Seq<GaugeUpdateView> {
    match usage {
        Some(u) => seq![
            scalar(Family::DatabaseCache, u.memory.database_cache as u64),
            scalar(Family::StateCache, u.memory.state_cache as u64),
            labeled(Family::StateDb, "non_canonical"@, u.memory.state_db.non_canonical as u64),
        ] + pruning_updates(u.memory.state_db.pruning) + seq![
            labeled(Family::StateDb, "pinned"@, u.memory.state_db.pinned as u64),
        ],
        None => seq![],
    }
}

/// The gauges of the connection counts: set where the sockets could be
/// enumerated.
pub open spec fn connection_updates(connections: Option<ConnectionsCount>) -> Seq<GaugeUpdateView> {
    match connections {
        Some(c) => seq![
            labeled(Family::Netstat, "listen"@, c.listen),
            labeled(Family::Netstat, "established"@, c.established),
            labeled(Family::Netstat, "starting"@, c.starting),
            labeled(Family::Netstat, "closing"@, c.closing),
            labeled(Family::Netstat, "closed"@, c.closed),
            labeled(Family::Netstat, "other"@, c.other),
        ],
        None => seq![],
    }
}

/// The gauge of one low-level counter: the runtime's counters and the depths
/// of channels go to families of their own, under the key without its
/// prefix, and every other counter to the general family under its key.
pub open spec fn counter_update(counter: (Seq<char>, u64)) -> GaugeUpdateView {
    let (key, value) = counter;
    if tokio_prefix().is_prefix_of(key) {
        labeled(Family::Tokio, key.skip(tokio_prefix().len() as int), value)
    } else if mpsc_prefix().is_prefix_of(key) {
        labeled(Family::UnboundedChannels, key.skip(mpsc_prefix().len() as int), value)
    } else {
        labeled(Family::Internals, key, value)
    }
}

/// The gauges of the low-level counters, one for each, in their order.
pub open spec fn counter_updates(counters: Seq<(Seq<char>, u64)>) -> Seq<GaugeUpdateView> {
    counters.map_values(|c: (Seq<char>, u64)| counter_update(c))
}

/// The five gauges of the block import series.
pub open spec fn block_import_gauges(info: TimeSeriesInfo) -> Seq<GaugeUpdateView> {
    seq![
        labeled(Family::BlockImport, "count"@, info.count),
        labeled(Family::BlockImport, "time_average"@, info.average),
        labeled(Family::BlockImport, "time_median"@, info.median),
        labeled(Family::BlockImport, "time_lower_median"@, info.lower_median),
        labeled(Family::BlockImport, "time_higher_median"@, info.higher_median),
    ]
}

/// The five gauges of a series under any other key, named after the key.
pub open spec fn named_gauges(key: Seq<char>, info: TimeSeriesInfo) -> Seq<GaugeUpdateView> {
    seq![
        labeled(Family::Internals, key + "_count"@, info.count),
        labeled(Family::Internals, key + "_average"@, info.average),
        labeled(Family::Internals, key + "_median"@, info.median),
        labeled(Family::Internals, key + "_lower_median"@, info.lower_median),
        labeled(Family::Internals, key + "_higher_median"@, info.higher_median),
    ]
}

/// The keys of a list of series.
pub open spec fn series_keys(groups: Seq<(Seq<char>, Seq<u64>)>) -> Seq<Seq<char>> {
    groups.map_values(|g: (Seq<char>, Seq<u64>)| g.0)
}

/// The gauges of block imports: those of the first series recorded under
/// the reserved key, if there is one.
pub open spec fn block_import_updates(groups: Seq<(Seq<char>, Seq<u64>)>) -> Seq<GaugeUpdateView> {
    match series_keys(groups).index_of_first(block_imports_key()) {
        Some(i) => block_import_gauges(summary(groups[i].1)),
        None => seq![],
    }
}

/// The gauges of every series that is not recorded under the reserved key,
/// series by series.
pub open spec fn named_updates(groups: Seq<(Seq<char>, Seq<u64>)>) -> Seq<GaugeUpdateView>
    decreases groups.len(),
{
    if groups.len() == 0 {
        seq![]
    } else {
        named_updates(groups.drop_last()) + if groups.last().0 == block_imports_key() {
            seq![]
        } else {
            named_gauges(groups.last().0, summary(groups.last().1))
        }
    }
}

/// The gauges of the timing series: block imports first, then the others.
pub open spec fn series_updates(groups: Seq<(Seq<char>, Seq<u64>)>) -> Seq<GaugeUpdateView> {
    block_import_updates(groups) + named_updates(groups)
}

/// Every gauge that a tick sets, in the order in which it sets them.
pub open spec fn gauge_updates(
    process_info: ProcessInfo,
    load: LoadAvg,
    info: ClientInfo,
    txpool_status: PoolStatus,
    net_status: NetworkStatus,
    connections: Option<ConnectionsCount>,
    counters: Seq<(Seq<char>, u64)>,
    groups: Seq<(Seq<char>, Seq<u64>)>,
) -> Seq<GaugeUpdateView> {
    process_updates(process_info) + load_updates(load) + network_updates(net_status)
        + chain_updates(info, txpool_status, net_status) + usage_updates(info.usage)
        + connection_updates(connections) + counter_updates(counters) + series_updates(groups)
}

/// The prefixes part the counters in three: a counter goes to the runtime's
/// family exactly if its key begins with the one prefix, to the channels'
/// family exactly if it begins with the other, and to the general family
/// exactly if it begins with neither; and in each case the label is the key
/// without that prefix.
pub proof fn lemma_counter_partition(key: Seq<char>, value: u64)
    ensures
        ({
            let update = counter_update((key, value));
            &&& update.value == GaugeValue::Unsigned(value)
            &&& update.label is Some
            &&& update.family == Family::Tokio <==> tokio_prefix().is_prefix_of(key)
            &&& update.family == Family::UnboundedChannels <==> mpsc_prefix().is_prefix_of(key)
            &&& update.family == Family::Internals <==> !tokio_prefix().is_prefix_of(key)
                && !mpsc_prefix().is_prefix_of(key)
            &&& update.family == Family::Tokio ==> tokio_prefix() + update.label->0 == key
            &&& update.family == Family::UnboundedChannels ==> mpsc_prefix() + update.label->0
                == key
            &&& update.family == Family::Internals ==> update.label->0 == key
        }),
{
    reveal_strlit("tokio_");
    reveal_strlit("mpsc_");
    if tokio_prefix().is_prefix_of(key) {
        assert(key[0] == tokio_prefix()[0]);
        if mpsc_prefix().is_prefix_of(key) {
            assert(key[0] == mpsc_prefix()[0]);
        }
        assert(tokio_prefix() + key.skip(tokio_prefix().len() as int) =~= key);
    } else if mpsc_prefix().is_prefix_of(key) {
        assert(mpsc_prefix() + key.skip(mpsc_prefix().len() as int) =~= key);
    }
}

/// Whether an update suits the gauge of its family: it names a label exactly
/// where the family is split by one, and its number is of the kind that the
/// family holds.
pub open spec fn fits(update: GaugeUpdateView) -> bool {
    &&& update.label is Some <==> update.family.spec_axis() is Some
    &&& update.value is Real <==> update.family.spec_kind() == ValueKind::Real
}

/// Whether every update of a list suits its gauge.
pub open spec fn all_fit(updates: Seq<GaugeUpdateView>) -> bool {
    forall|i: int| 0 <= i < updates.len() ==> fits(#[trigger] updates[i])
}

proof fn lemma_all_fit_concat(a: Seq<GaugeUpdateView>, b: Seq<GaugeUpdateView>)
    requires
        all_fit(a),
        all_fit(b),
    ensures
        all_fit(a + b),
{
    assert forall|i: int| 0 <= i < (a + b).len() implies fits(#[trigger] (a + b)[i]) by {
        if i < a.len() {
            assert((a + b)[i] == a[i]);
        } else {
            assert((a + b)[i] == b[i - a.len()]);
        }
    }
}

proof fn lemma_named_updates_fit(groups: Seq<(Seq<char>, Seq<u64>)>)
    ensures
        all_fit(named_updates(groups)),
    decreases groups.len(),
{
    if groups.len() > 0 {
        lemma_named_updates_fit(groups.drop_last());
        let last = if groups.last().0 == block_imports_key() {
            seq![]
        } else {
            named_gauges(groups.last().0, summary(groups.last().1))
        };
        lemma_all_fit_concat(named_updates(groups.drop_last()), last);
    }
}

/// Every update that a tick lists suits the gauge of its family.
pub proof fn lemma_updates_fit(
    process_info: ProcessInfo,
    load: LoadAvg,
    info: ClientInfo,
    txpool_status: PoolStatus,
    net_status: NetworkStatus,
    connections: Option<ConnectionsCount>,
    counters: Seq<(Seq<char>, u64)>,
    groups: Seq<(Seq<char>, Seq<u64>)>,
)
    ensures
        all_fit(
            gauge_updates(
                process_info,
                load,
                info,
                txpool_status,
                net_status,
                connections,
                counters,
                groups,
            ),
        ),
{
    let process = process_updates(process_info);
    assert(all_fit(process)) by {
        let head = seq![
            real_scalar(Family::CpuUsagePercentage, process_info.cpu_usage),
            scalar(Family::MemoryUsageBytes, process_info.memory),
        ];
        lemma_all_fit_concat(head, thread_updates(process_info.threads));
        lemma_all_fit_concat(
            head + thread_updates(process_info.threads),
            open_fd_updates(process_info.open_fd),
        );
    }
    let chain = chain_updates(info, txpool_status, net_status);
    assert(all_fit(chain)) by {
        let head = seq![
            labeled(Family::BlockHeightNumber, "finalized"@, info.chain.finalized_number),
            labeled(Family::BlockHeightNumber, "best"@, info.chain.best_number),
            scalar(Family::ReadyTransactionsNumber, txpool_status.ready as u64),
        ];
        lemma_all_fit_concat(head, sync_target_updates(net_status.best_seen_block));
    }
    let usage = usage_updates(info.usage);
    assert(all_fit(usage)) by {
        if let Some(u) = info.usage {
            let head = seq![
                scalar(Family::DatabaseCache, u.memory.database_cache as u64),
                scalar(Family::StateCache, u.memory.state_cache as u64),
                labeled(Family::StateDb, "non_canonical"@, u.memory.state_db.non_canonical as u64),
            ];
            let tail = seq![labeled(Family::StateDb, "pinned"@, u.memory.state_db.pinned as u64)];
            lemma_all_fit_concat(head, pruning_updates(u.memory.state_db.pruning));
            lemma_all_fit_concat(head + pruning_updates(u.memory.state_db.pruning), tail);
        }
    }
    let series = series_updates(groups);
    assert(all_fit(series)) by {
        lemma_named_updates_fit(groups);
        lemma_all_fit_concat(block_import_updates(groups), named_updates(groups));
    }
    assert(all_fit(load_updates(load)));
    assert(all_fit(network_updates(net_status)));
    assert(all_fit(connection_updates(connections)));
    assert(all_fit(counter_updates(counters)));
    lemma_all_fit_concat(process, load_updates(load));
    lemma_all_fit_concat(process + load_updates(load), network_updates(net_status));
    lemma_all_fit_concat(process + load_updates(load) + network_updates(net_status), chain);
    lemma_all_fit_concat(process + load_updates(load) + network_updates(net_status) + chain, usage);
    lemma_all_fit_concat(
        process + load_updates(load) + network_updates(net_status) + chain + usage,
        connection_updates(connections),
    );
    lemma_all_fit_concat(
        process + load_updates(load) + network_updates(net_status) + chain + usage
            + connection_updates(connections),
        counter_updates(counters),
    );
    lemma_all_fit_concat(
        process + load_updates(load) + network_updates(net_status) + chain + usage
            + connection_updates(connections) + counter_updates(counters),
        series,
    );
}

fn push_scalar(out: &mut Vec<GaugeUpdate>, family: Family, value: u64)
    ensures
        updates_of(final(out)@) == updates_of(old(out)@).push(scalar(family, value)),
{
    out.push(GaugeUpdate { family, label: None, value: GaugeValue::Unsigned(value) });
    assert(updates_of(out@) =~= updates_of(old(out)@).push(scalar(family, value)));
}

fn push_labeled(out: &mut Vec<GaugeUpdate>, family: Family, label: String, value: u64)
    ensures
        updates_of(final(out)@) == updates_of(old(out)@).push(labeled(family, label@, value)),
{
    out.push(GaugeUpdate { family, label: Some(label), value: GaugeValue::Unsigned(value) });
    assert(updates_of(out@) =~= updates_of(old(out)@).push(labeled(family, label@, value)));
}

fn push_named(out: &mut Vec<GaugeUpdate>, family: Family, label: &str, value: u64)
    ensures
        updates_of(final(out)@) == updates_of(old(out)@).push(labeled(family, label@, value)),
{
    push_labeled(out, family, String::from_str(label), value);
}

fn push_real_scalar(out: &mut Vec<GaugeUpdate>, family: Family, value: Binary64)
    ensures
        updates_of(final(out)@) == updates_of(old(out)@).push(real_scalar(family, value)),
{
    out.push(GaugeUpdate { family, label: None, value: GaugeValue::Real(value) });
    assert(updates_of(out@) =~= updates_of(old(out)@).push(real_scalar(family, value)));
}

fn push_real_named(out: &mut Vec<GaugeUpdate>, family: Family, label: &str, value: Binary64)
    ensures
        updates_of(final(out)@) == updates_of(old(out)@).push(real_labeled(family, label@, value)),
{
    let label = String::from_str(label);
    out.push(GaugeUpdate { family, label: Some(label), value: GaugeValue::Real(value) });
    assert(updates_of(out@) =~= updates_of(old(out)@).push(real_labeled(family, label@, value)));
}

fn push_process(out: &mut Vec<GaugeUpdate>, info: &ProcessInfo)
    ensures
        updates_of(final(out)@) == updates_of(old(out)@) + process_updates(*info),
{
    push_real_scalar(out, Family::CpuUsagePercentage, info.cpu_usage);
    push_scalar(out, Family::MemoryUsageBytes, info.memory);
    if let Some(threads) = info.threads {
        push_scalar(out, Family::Threads, threads);
    }
    if let Some(fd_info) = info.open_fd {
        push_named(out, Family::OpenFiles, "paths", fd_info.paths);
        push_named(out, Family::OpenFiles, "mem", fd_info.mem);
        push_named(out, Family::OpenFiles, "sockets", fd_info.sockets);
        push_named(out, Family::OpenFiles, "net", fd_info.net);
        push_named(out, Family::OpenFiles, "pipes", fd_info.pipes);
        push_named(out, Family::OpenFiles, "anon_inode", fd_info.anon_inode);
        push_named(out, Family::OpenFiles, "other", fd_info.other);
    }
    assert(updates_of(out@) =~= updates_of(old(out)@) + process_updates(*info));
}

fn push_load(out: &mut Vec<GaugeUpdate>, load: &LoadAvg)
    ensures
        updates_of(final(out)@) == updates_of(old(out)@) + load_updates(*load),
{
    push_real_named(out, Family::LoadAvg, "1min", load.one);
    push_real_named(out, Family::LoadAvg, "5min", load.five);
    push_real_named(out, Family::LoadAvg, "15min", load.fifteen);
    assert(updates_of(out@) =~= updates_of(old(out)@) + load_updates(*load));
}

fn push_network(out: &mut Vec<GaugeUpdate>, net_status: &NetworkStatus)
    ensures
        updates_of(final(out)@) == updates_of(old(out)@) + network_updates(*net_status),
{
    push_named(out, Family::NetworkPerSecBytes, "download", net_status.average_download_per_sec);
    push_named(out, Family::NetworkPerSecBytes, "upload", net_status.average_upload_per_sec);
    assert(updates_of(out@) =~= updates_of(old(out)@) + network_updates(*net_status));
}

fn push_chain(
    out: &mut Vec<GaugeUpdate>,
    info: &ClientInfo,
    txpool_status: &PoolStatus,
    net_status: &NetworkStatus,
)
    ensures
        updates_of(final(out)@) == updates_of(old(out)@) + chain_updates(
            *info,
            *txpool_status,
            *net_status,
        ),
{
    push_named(out, Family::BlockHeightNumber, "finalized", info.chain.finalized_number);
    push_named(out, Family::BlockHeightNumber, "best", info.chain.best_number);
    push_scalar(out, Family::ReadyTransactionsNumber, txpool_status.ready as u64);
    if let Some(best_seen_block) = net_status.best_seen_block {
        push_named(out, Family::BlockHeightNumber, "sync_target", best_seen_block);
    }
    assert(updates_of(out@) =~= updates_of(old(out)@) + chain_updates(
        *info,
        *txpool_status,
        *net_status,
    ));
}

fn push_usage(out: &mut Vec<GaugeUpdate>, usage: &Option<UsageInfo>)
    ensures
        updates_of(final(out)@) == updates_of(old(out)@) + usage_updates(*usage),
{
    if let Some(u) = usage {
        push_scalar(out, Family::DatabaseCache, u.memory.database_cache as u64);
        push_scalar(out, Family::StateCache, u.memory.state_cache as u64);
        push_named(out, Family::StateDb, "non_canonical", u.memory.state_db.non_canonical as u64);
        if let Some(pruning) = u.memory.state_db.pruning {
            push_named(out, Family::StateDb, "pruning", pruning as u64);
        }
        push_named(out, Family::StateDb, "pinned", u.memory.state_db.pinned as u64);
    }
    assert(updates_of(out@) =~= updates_of(old(out)@) + usage_updates(*usage));
}

fn push_connections(out: &mut Vec<GaugeUpdate>, connections: &Option<ConnectionsCount>)
    ensures
        updates_of(final(out)@) == updates_of(old(out)@) + connection_updates(*connections),
{
    if let Some(conns) = connections {
        push_named(out, Family::Netstat, "listen", conns.listen);
        push_named(out, Family::Netstat, "established", conns.established);
        push_named(out, Family::Netstat, "starting", conns.starting);
        push_named(out, Family::Netstat, "closing", conns.closing);
        push_named(out, Family::Netstat, "closed", conns.closed);
        push_named(out, Family::Netstat, "other", conns.other);
    }
    assert(updates_of(out@) =~= updates_of(old(out)@) + connection_updates(*connections));
}

fn push_counter(out: &mut Vec<GaugeUpdate>, counter: &Counter)
    ensures
        updates_of(final(out)@) == updates_of(old(out)@).push(counter_update(counter@)),
{
    proof {
        reveal_strlit("tokio_");
        reveal_strlit("mpsc_");
    }
    match strip_prefix(counter.key.as_str(), "tokio_") {
        Some(entity) => push_labeled(out, Family::Tokio, entity, counter.value),
        None => match strip_prefix(counter.key.as_str(), "mpsc_") {
            Some(entity) => push_labeled(out, Family::UnboundedChannels, entity, counter.value),
            None => push_labeled(out, Family::Internals, counter.key.clone(), counter.value),
        },
    }
}

fn push_counters(out: &mut Vec<GaugeUpdate>, counters: &Vec<Counter>)
    ensures
        updates_of(final(out)@) == updates_of(old(out)@) + counter_updates(counters_of(counters@)),
{
    let mut i: usize = 0;
    assert(updates_of(out@) =~= updates_of(old(out)@) + counter_updates(
        counters_of(counters@).take(0),
    ));
    while i < counters.len()
        invariant
            i <= counters.len(),
            updates_of(out@) == updates_of(old(out)@) + counter_updates(
                counters_of(counters@).take(i as int),
            ),
        decreases counters.len() - i,
    {
        push_counter(out, &counters[i]);
        assert(updates_of(out@) =~= updates_of(old(out)@) + counter_updates(
            counters_of(counters@).take(i + 1),
        ));
        i = i + 1;
    }
    assert(counters_of(counters@).take(i as int) =~= counters_of(counters@));
}

fn push_block_import(out: &mut Vec<GaugeUpdate>, info: &TimeSeriesInfo)
    ensures
        updates_of(final(out)@) == updates_of(old(out)@) + block_import_gauges(*info),
{
    push_named(out, Family::BlockImport, "count", info.count);
    push_named(out, Family::BlockImport, "time_average", info.average);
    push_named(out, Family::BlockImport, "time_median", info.median);
    push_named(out, Family::BlockImport, "time_lower_median", info.lower_median);
    push_named(out, Family::BlockImport, "time_higher_median", info.higher_median);
    assert(updates_of(out@) =~= updates_of(old(out)@) + block_import_gauges(*info));
}

fn push_named_series(out: &mut Vec<GaugeUpdate>, key: &str, info: &TimeSeriesInfo)
    ensures
        updates_of(final(out)@) == updates_of(old(out)@) + named_gauges(key@, *info),
{
    push_labeled(out, Family::Internals, with_suffix(key, "_count"), info.count);
    push_labeled(out, Family::Internals, with_suffix(key, "_average"), info.average);
    push_labeled(out, Family::Internals, with_suffix(key, "_median"), info.median);
    push_labeled(out, Family::Internals, with_suffix(key, "_lower_median"), info.lower_median);
    push_labeled(out, Family::Internals, with_suffix(key, "_higher_median"), info.higher_median);
    assert(updates_of(out@) =~= updates_of(old(out)@) + named_gauges(key@, *info));
}

/// Where the first series of block imports stands, if there is one.
fn find_block_imports(groups: &Vec<Series>, reserved: &String) -> (found: Option<usize>)
    requires
        reserved@ == block_imports_key(),
    ensures
        found matches Some(at) ==> at < groups@.len() && series_keys(
            series_of(groups@),
        ).index_of_first(block_imports_key()) == Some(at as int),
        found is None ==> series_keys(series_of(groups@)).index_of_first(block_imports_key())
            is None,
{
    let ghost keys = series_keys(series_of(groups@));
    let mut i: usize = 0;
    while i < groups.len()
        invariant
            i <= groups.len(),
            reserved@ == block_imports_key(),
            keys == series_keys(series_of(groups@)),
            forall|j: int| 0 <= j < i ==> keys[j] != block_imports_key(),
        decreases groups.len() - i,
    {
        assert(keys[i as int] == groups@[i as int].key@);
        if groups[i].key == *reserved {
            proof {
                assert(keys.contains(block_imports_key()));
                keys.index_of_first_ensures(block_imports_key());
            }
            return Some(i);
        }
        i = i + 1;
    }
    proof {
        keys.index_of_first_ensures(block_imports_key());
    }
    None
}

fn push_series(out: &mut Vec<GaugeUpdate>, groups: &Vec<Series>)
    ensures
        updates_of(final(out)@) == updates_of(old(out)@) + series_updates(series_of(groups@)),
{
    let reserved = String::from_str("block_imports");
    let ghost all = series_of(groups@);
    if let Some(at) = find_block_imports(groups, &reserved) {
        let info = TimeSeriesInfo::from(groups[at].values.clone());
        push_block_import(out, &info);
    }
    assert(updates_of(out@) =~= updates_of(old(out)@) + block_import_updates(all));
    let ghost mid = updates_of(out@);
    let mut k: usize = 0;
    assert(all.take(0) =~= Seq::empty());
    assert(updates_of(out@) =~= mid + named_updates(all.take(0)));
    while k < groups.len()
        invariant
            k <= groups.len(),
            all == series_of(groups@),
            reserved@ == block_imports_key(),
            updates_of(out@) == mid + named_updates(all.take(k as int)),
        decreases groups.len() - k,
    {
        proof {
            assert(all.take(k + 1).drop_last() =~= all.take(k as int));
            assert(all.take(k + 1).last() == groups@[k as int]@);
        }
        if !(groups[k].key == reserved) {
            let info = TimeSeriesInfo::from(groups[k].values.clone());
            push_named_series(out, groups[k].key.as_str(), &info);
        }
        assert(updates_of(out@) =~= mid + named_updates(all.take(k + 1)));
        k = k + 1;
    }
    assert(all.take(k as int) =~= all);
    assert(updates_of(out@) =~= updates_of(old(out)@) + series_updates(all));
}

/// Lists every gauge that a tick sets, in the order in which it sets them.
pub fn collect_updates(
    process_info: &ProcessInfo,
    load: &LoadAvg,
    info: &ClientInfo,
    txpool_status: &PoolStatus,
    net_status: &NetworkStatus,
    connections: &Option<ConnectionsCount>,
    counters: &Vec<Counter>,
    groups: &Vec<Series>,
) -> (updates: Vec<GaugeUpdate>)
    ensures
        updates_of(updates@) == gauge_updates(
            *process_info,
            *load,
            *info,
            *txpool_status,
            *net_status,
            *connections,
            counters_of(counters@),
            series_of(groups@),
        ),
{
    let mut out: Vec<GaugeUpdate> = Vec::new();
    assert(updates_of(out@) =~= Seq::empty());
    push_process(&mut out, process_info);
    push_load(&mut out, load);
    push_network(&mut out, net_status);
    push_chain(&mut out, info, txpool_status, net_status);
    push_usage(&mut out, &info.usage);
    push_connections(&mut out, connections);
    push_counters(&mut out, counters);
    push_series(&mut out, groups);
    assert(updates_of(out@) =~= gauge_updates(
        *process_info,
        *load,
        *info,
        *txpool_status,
        *net_status,
        *connections,
        counters_of(counters@),
        series_of(groups@),
    ));
    out
}

} // verus!
