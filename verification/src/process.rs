//! The resource usage of the sampled process.

use vstd::prelude::*;

verus! {

/// A double-precision number, carried by its IEEE 754 bit pattern so that it
/// can pass through integer-only code unchanged.
#[derive(Clone, Copy, Debug, PartialEq, Eq, Structural)]
pub struct Binary64 {
    pub bits: u64,
}

impl Binary64 {
    /// Positive zero.
    pub fn zero() -> (z: Binary64)
        ensures
            z.bits == 0,
    {
        Binary64 { bits: 0 }
    }
}

/// The host's load averages over the last one, five and fifteen minutes.
#[derive(Clone, Copy, Debug, PartialEq, Eq, Structural)]
pub struct LoadAvg {
    pub one: Binary64,
    pub five: Binary64,
    pub fifteen: Binary64,
}

/// What an open descriptor points to.
#[derive(Clone, Copy, Debug, PartialEq, Eq, Structural)]
pub enum FdTarget {
    Path,
    Socket,
    Net,
    Pipe,
    AnonInode,
    MemFd,
    Other,
}

/// Number of open descriptors by target.
#[derive(Clone, Copy, Debug, PartialEq, Eq, Structural)]
pub struct FdCounter {
    pub paths: u64,
    pub sockets: u64,
    pub net: u64,
    pub pipes: u64,
    pub anon_inode: u64,
    pub mem: u64,
    pub other: u64,
}

/// How many of `targets` are `target`.
pub open spec fn count_target(targets: Seq<FdTarget>, target: FdTarget) -> nat
    decreases targets.len(),
{
    if targets.len() == 0 {
        0
    } else {
        count_target(targets.drop_last(), target) + if targets.last() == target {
            1nat
        } else {
            0nat
        }
    }
}

/// The breakdown of a list of descriptors.
pub open spec fn fd_counts(targets: Seq<FdTarget>) -> FdCounter {
    FdCounter {
        paths: count_target(targets, FdTarget::Path) as u64,
        sockets: count_target(targets, FdTarget::Socket) as u64,
        net: count_target(targets, FdTarget::Net) as u64,
        pipes: count_target(targets, FdTarget::Pipe) as u64,
        anon_inode: count_target(targets, FdTarget::AnonInode) as u64,
        mem: count_target(targets, FdTarget::MemFd) as u64,
        other: count_target(targets, FdTarget::Other) as u64,
    }
}

/// No target occurs more often than there are descriptors.
pub proof fn lemma_count_target_bound(targets: Seq<FdTarget>, target: FdTarget)
    ensures
        count_target(targets, target) <= targets.len(),
    decreases targets.len(),
{
    if targets.len() > 0 {
        lemma_count_target_bound(targets.drop_last(), target);
    }
}

/// Every descriptor is counted under exactly one target: the seven counts
/// add up to the number of descriptors.
pub proof fn lemma_fd_counts_partition(targets: Seq<FdTarget>)
    ensures
        count_target(targets, FdTarget::Path) + count_target(targets, FdTarget::Socket)
            + count_target(targets, FdTarget::Net) + count_target(targets, FdTarget::Pipe)
            + count_target(targets, FdTarget::AnonInode) + count_target(targets, FdTarget::MemFd)
            + count_target(targets, FdTarget::Other) == targets.len(),
    decreases targets.len(),
{
    if targets.len() > 0 {
        lemma_fd_counts_partition(targets.drop_last());
    }
}

impl Default for FdCounter {
    fn default() -> (count: Self)
        ensures
            count == (FdCounter {
                paths: 0,
                sockets: 0,
                net: 0,
                pipes: 0,
                anon_inode: 0,
                mem: 0,
                other: 0,
            }),
    {
        FdCounter { paths: 0, sockets: 0, net: 0, pipes: 0, anon_inode: 0, mem: 0, other: 0 }
    }
}

impl FdCounter {
    /// The sum of the seven counts.
    pub open spec fn sum(self) -> nat {
        (self.paths + self.sockets + self.net + self.pipes + self.anon_inode + self.mem
            + self.other) as nat
    }

    /// Counts the descriptors of a process by target.
    pub fn tally(targets: &Vec<FdTarget>) -> (count: FdCounter)
        ensures
            count == fd_counts(targets@),
            count.sum() == targets@.len(),
    {
        let mut count = FdCounter::default();
        let mut i: usize = 0;
        while i < targets.len()
            invariant
                i <= targets.len(),
                count == fd_counts(targets@.take(i as int)),
            decreases targets.len() - i,
        {
            proof {
                let seen = targets@.take(i as int);
                assert(targets@.take(i + 1).drop_last() =~= seen);
                assert(targets@.take(i + 1).last() == targets@[i as int]);
                lemma_fd_counts_partition(seen);
            }
            match targets[i] {
                FdTarget::Path => count.paths = count.paths + 1,
                FdTarget::Socket => count.sockets = count.sockets + 1,
                FdTarget::Net => count.net = count.net + 1,
                FdTarget::Pipe => count.pipes = count.pipes + 1,
                FdTarget::AnonInode => count.anon_inode = count.anon_inode + 1,
                FdTarget::MemFd => count.mem = count.mem + 1,
                FdTarget::Other => count.other = count.other + 1,
            }
            i = i + 1;
        }
        proof {
            assert(targets@.take(i as int) =~= targets@);
            lemma_fd_counts_partition(targets@);
        }
        count
    }
}

/// What a successful refresh of the process reports.
#[derive(Clone, Copy, Debug, PartialEq, Eq, Structural)]
pub struct ProcessUsage {
    /// Share of processor time, in percent.
    pub cpu_usage: Binary64,
    pub memory: u64,
}

/// What a platform that exposes per-process detail reports beside the usage.
/// Each part is absent where reading it failed.
#[derive(Clone, Debug, PartialEq, Eq)]
pub struct ProcessDetails {
    pub num_threads: Option<i64>,
    pub descriptors: Option<Vec<FdTarget>>,
}

/// The sample of one tick.
#[derive(Clone, Copy, Debug, PartialEq, Eq, Structural)]
pub struct ProcessInfo {
    pub cpu_usage: Binary64,
    pub memory: u64,
    pub threads: Option<u64>,
    pub open_fd: Option<FdCounter>,
}

/// The sample of a process of which nothing could be read.
pub open spec fn blank_sample() -> ProcessInfo {
    ProcessInfo { cpu_usage: Binary64 { bits: 0 }, memory: 0, threads: None, open_fd: None }
}

/// The thread count that a reading stands for: a reading below zero is no
/// count.
pub open spec fn thread_count(reading: Option<i64>) -> Option<u64> {
    match reading {
        Some(n) => if n >= 0 {
            Some(n as u64)
        } else {
            None
        },
        None => None,
    }
}

/// The descriptor breakdown that a list of descriptors stands for.
pub open spec fn descriptor_breakdown(descriptors: Option<Vec<FdTarget>>) -> Option<FdCounter> {
    match descriptors {
        Some(targets) => Some(fd_counts(targets@)),
        None => None,
    }
}

/// The sample that the readings of one tick give: usage from the refresh, or
/// zero where it failed; thread count and descriptor breakdown from the
/// detail, each absent where the detail or that part of it is.
pub open spec fn sample_of(usage: Option<ProcessUsage>, details: Option<ProcessDetails>) -> ProcessInfo {
    ProcessInfo {
        cpu_usage: match usage {
            Some(u) => u.cpu_usage,
            None => Binary64 { bits: 0 },
        },
        memory: match usage {
            Some(u) => u.memory,
            None => 0,
        },
        threads: match details {
            Some(d) => thread_count(d.num_threads),
            None => None,
        },
        open_fd: match details {
            Some(d) => descriptor_breakdown(d.descriptors),
            None => None,
        },
    }
}

impl Default for ProcessInfo {
    fn default() -> (info: Self)
        ensures
            info == blank_sample(),
    {
        ProcessInfo { cpu_usage: Binary64::zero(), memory: 0, threads: None, open_fd: None }
    }
}

/// What a reference that may be missing refers to.
pub open spec fn referent<T>(reference: Option<&T>) -> Option<T> {
    match reference {
        Some(value) => Some(*value),
        None => None,
    }
}

impl ProcessInfo {
    /// Puts the readings of one tick together.
    pub fn from_readings(usage: Option<ProcessUsage>, details: Option<&ProcessDetails>) -> (info:
        ProcessInfo)
        ensures
            info == sample_of(usage, referent(details)),
    {
        let mut info = ProcessInfo::default();
        if let Some(u) = usage {
            info.cpu_usage = u.cpu_usage;
            info.memory = u.memory;
        }
        if let Some(d) = details {
            if let Some(n) = d.num_threads {
                if n >= 0 {
                    info.threads = Some(n as u64);
                }
            }
            if let Some(targets) = &d.descriptors {
                info.open_fd = Some(FdCounter::tally(targets));
            }
        }
        info
    }
}

} // verus!
