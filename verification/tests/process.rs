use metrics_service::process::{Binary64, FdCounter, FdTarget, ProcessDetails, ProcessInfo, ProcessUsage};
use metrics_service::service::MetricsService;

fn fd(paths: u64, sockets: u64, net: u64, pipes: u64, anon_inode: u64, mem: u64, other: u64) -> FdCounter {
    FdCounter { paths, sockets, net, pipes, anon_inode, mem, other }
}

fn usage(cpu: f64, memory: u64) -> ProcessUsage {
    ProcessUsage { cpu_usage: Binary64 { bits: cpu.to_bits() }, memory }
}

#[test]
fn zero_is_positive_zero() {
    assert_eq!(Binary64::zero().bits, 0);
    assert_eq!(f64::from_bits(Binary64::zero().bits), 0.0);
}

#[test]
fn tally_counts_each_target() {
    let targets = vec![
        FdTarget::Path,
        FdTarget::Socket,
        FdTarget::Path,
        FdTarget::Pipe,
        FdTarget::AnonInode,
        FdTarget::Path,
        FdTarget::MemFd,
        FdTarget::Other,
        FdTarget::Net,
        FdTarget::Socket,
        FdTarget::Other,
    ];
    assert_eq!(FdCounter::tally(&targets), fd(3, 2, 1, 1, 1, 1, 2));
}

#[test]
fn tally_of_no_descriptors_is_zero() {
    assert_eq!(FdCounter::tally(&vec![]), fd(0, 0, 0, 0, 0, 0, 0));
    assert_eq!(FdCounter::default(), fd(0, 0, 0, 0, 0, 0, 0));
}

#[test]
fn breakdown_adds_up_to_the_number_of_descriptors() {
    let kinds = [
        FdTarget::Path,
        FdTarget::Socket,
        FdTarget::Net,
        FdTarget::Pipe,
        FdTarget::AnonInode,
        FdTarget::MemFd,
        FdTarget::Other,
    ];
    for n in 0..50usize {
        let targets: Vec<FdTarget> = (0..n).map(|i| kinds[(i * i + 3 * i) % 7]).collect();
        let c = FdCounter::tally(&targets);
        let sum = c.paths + c.sockets + c.net + c.pipes + c.anon_inode + c.mem + c.other;
        assert_eq!(sum, n as u64);
    }
}

#[test]
fn sample_without_readings_is_blank() {
    let blank = ProcessInfo { cpu_usage: Binary64 { bits: 0 }, memory: 0, threads: None, open_fd: None };
    assert_eq!(ProcessInfo::from_readings(None, None), blank);
    assert_eq!(ProcessInfo::default(), blank);
}

#[test]
fn sample_takes_usage_from_the_refresh() {
    let info = ProcessInfo::from_readings(Some(usage(12.5, 4096)), None);
    assert_eq!(f64::from_bits(info.cpu_usage.bits), 12.5);
    assert_eq!(info.memory, 4096);
    assert_eq!(info.threads, None);
    assert_eq!(info.open_fd, None);
}

#[test]
fn sample_of_a_failed_refresh_keeps_the_detail() {
    let details = ProcessDetails {
        num_threads: Some(8),
        descriptors: Some(vec![FdTarget::Socket, FdTarget::Socket, FdTarget::Pipe]),
    };
    let info = ProcessInfo::from_readings(None, Some(&details));
    assert_eq!(info.cpu_usage.bits, 0);
    assert_eq!(info.memory, 0);
    assert_eq!(info.threads, Some(8));
    assert_eq!(info.open_fd, Some(fd(0, 2, 0, 1, 0, 0, 0)));
}

#[test]
fn sample_where_descriptors_could_not_be_read() {
    let details = ProcessDetails { num_threads: Some(3), descriptors: None };
    let info = ProcessInfo::from_readings(Some(usage(1.0, 10)), Some(&details));
    assert_eq!(info.threads, Some(3));
    assert_eq!(info.open_fd, None);
}

#[test]
fn sample_where_threads_could_not_be_read() {
    let details = ProcessDetails { num_threads: None, descriptors: Some(vec![]) };
    let info = ProcessInfo::from_readings(Some(usage(1.0, 10)), Some(&details));
    assert_eq!(info.threads, None);
    assert_eq!(info.open_fd, Some(fd(0, 0, 0, 0, 0, 0, 0)));
}

#[test]
fn thread_reading_below_zero_is_no_count() {
    let details = ProcessDetails { num_threads: Some(-1), descriptors: None };
    assert_eq!(ProcessInfo::from_readings(None, Some(&details)).threads, None);
    let details = ProcessDetails { num_threads: Some(i64::MIN), descriptors: None };
    assert_eq!(ProcessInfo::from_readings(None, Some(&details)).threads, None);
    let details = ProcessDetails { num_threads: Some(0), descriptors: None };
    assert_eq!(ProcessInfo::from_readings(None, Some(&details)).threads, Some(0));
    let details = ProcessDetails { num_threads: Some(i64::MAX), descriptors: None };
    assert_eq!(ProcessInfo::from_readings(None, Some(&details)).threads, Some(i64::MAX as u64));
}

#[test]
fn sampler_without_a_process_gives_a_blank_sample() {
    let service = MetricsService::<u8>::new(None);
    let details = ProcessDetails { num_threads: Some(4), descriptors: Some(vec![FdTarget::Path]) };
    let info = service.process_info(Some(usage(50.0, 1 << 20)), Some(&details));
    assert_eq!(info, ProcessInfo::default());
}

#[test]
fn sampler_with_a_process_puts_the_readings_together() {
    let service = MetricsService::<u8>::new(Some(77));
    assert_eq!(service.pid(), Some(77));
    let details = ProcessDetails { num_threads: Some(4), descriptors: Some(vec![FdTarget::Path]) };
    let info = service.process_info(Some(usage(50.0, 1 << 20)), Some(&details));
    assert_eq!(f64::from_bits(info.cpu_usage.bits), 50.0);
    assert_eq!(info.memory, 1 << 20);
    assert_eq!(info.threads, Some(4));
    assert_eq!(info.open_fd, Some(fd(1, 0, 0, 0, 0, 0, 0)));
}
