use system_monitor::collector::{collect, Answer, Collector, Progress, Query, Readings};
use system_monitor::error::CollectorError;
use system_monitor::readings::{Statistics, Volume};

const MEGABYTE: u64 = 1024 * 1024;
const GIGABYTE: u64 = 1024 * 1024 * 1024;

fn nominal_statistics() -> Statistics {
    Statistics {
        cpu_usage_hundredths: 1250,
        used_memory_bytes: 512 * MEGABYTE,
        total_memory_bytes: 1024 * MEGABYTE,
        volumes: vec![Volume { total_bytes: 100 * GIGABYTE, available_bytes: 90 * GIGABYTE }],
        os_name: Some(String::from("Linux")),
        kernel_version: Some(String::from("6.1.0")),
        architecture_descriptor: Some(String::from("Linux 12 Debian GNU/Linux")),
        physical_core_count: Some(4),
        process_count: 200,
    }
}

fn nominal_readings() -> Readings {
    Readings {
        statistics: Ok(nominal_statistics()),
        uptime_seconds: Ok(3661),
        hostname: Ok(String::from("host1")),
        current_user: Ok(String::from("alice")),
        home_directory: Ok(String::from("/home/alice")),
    }
}

#[test]
fn nominal_sources_give_a_complete_snapshot() {
    let snapshot = collect(nominal_readings()).expect("every source answered");
    assert_eq!(snapshot.hostname, "host1");
    assert_eq!(snapshot.uptime_seconds, 3661);
    assert_eq!(snapshot.current_user, "alice");
    assert_eq!(snapshot.cpu_usage_hundredths, 1250);
    assert_eq!(snapshot.memory_usage_ratio.part(), 512 * MEGABYTE);
    assert_eq!(snapshot.memory_usage_ratio.whole(), 1024 * MEGABYTE);
    assert_eq!(snapshot.total_memory_bytes(), 1024 * MEGABYTE);
    assert_eq!(snapshot.disk_usage_ratio.part(), 10 * GIGABYTE);
    assert_eq!(snapshot.disk_usage_ratio.whole(), 100 * GIGABYTE);
    assert_eq!(snapshot.total_disk_bytes(), 100 * GIGABYTE);
    assert_eq!(snapshot.home_directory, "/home/alice");
    assert_eq!(snapshot.os_name, "Linux");
    assert_eq!(snapshot.kernel_version, "6.1.0");
    assert_eq!(snapshot.architecture_descriptor, "Linux 12 Debian GNU/Linux");
    assert_eq!(snapshot.physical_core_count, 4);
    assert_eq!(snapshot.process_count, 200);
}

#[test]
fn nominal_ratios_are_one_half_and_one_tenth() {
    let snapshot = collect(nominal_readings()).expect("every source answered");
    let memory = snapshot.memory_usage_ratio;
    let disk = snapshot.disk_usage_ratio;
    assert_eq!(memory.part() as f64 / memory.whole() as f64, 0.5);
    assert_eq!(disk.part() as f64 / disk.whole() as f64, 0.1);
    assert_eq!(memory.hundredths_of_percent(), 5000);
    assert_eq!(disk.hundredths_of_percent(), 1000);
}

#[test]
fn ratios_of_a_snapshot_lie_between_zero_and_one() {
    let snapshot = collect(nominal_readings()).expect("every source answered");
    assert!(snapshot.memory_usage_ratio.whole() > 0);
    assert!(snapshot.memory_usage_ratio.part() <= snapshot.memory_usage_ratio.whole());
    assert!(snapshot.disk_usage_ratio.whole() > 0);
    assert!(snapshot.disk_usage_ratio.part() <= snapshot.disk_usage_ratio.whole());
}

#[test]
fn zero_total_memory_is_a_platform_query_failure() {
    let mut statistics = nominal_statistics();
    statistics.used_memory_bytes = 0;
    statistics.total_memory_bytes = 0;
    let readings = Readings { statistics: Ok(statistics), ..nominal_readings() };
    assert_eq!(
        collect(readings),
        Err(CollectorError::PlatformQueryFailure(String::from("total memory is zero")))
    );
}

#[test]
fn zero_total_memory_fails_whatever_is_in_use() {
    let mut statistics = nominal_statistics();
    statistics.used_memory_bytes = 7;
    statistics.total_memory_bytes = 0;
    let readings = Readings { statistics: Ok(statistics), ..nominal_readings() };
    assert!(matches!(collect(readings), Err(CollectorError::PlatformQueryFailure(_))));
}

#[test]
fn no_volumes_is_a_platform_query_failure() {
    let mut statistics = nominal_statistics();
    statistics.volumes = Vec::new();
    let readings = Readings { statistics: Ok(statistics), ..nominal_readings() };
    assert_eq!(
        collect(readings),
        Err(CollectorError::PlatformQueryFailure(String::from("total disk space is zero")))
    );
}

#[test]
fn volumes_without_bytes_are_a_platform_query_failure() {
    let mut statistics = nominal_statistics();
    statistics.volumes = vec![
        Volume { total_bytes: 0, available_bytes: 0 },
        Volume { total_bytes: 0, available_bytes: 5 },
    ];
    let readings = Readings { statistics: Ok(statistics), ..nominal_readings() };
    assert_eq!(
        collect(readings),
        Err(CollectorError::PlatformQueryFailure(String::from("total disk space is zero")))
    );
}

#[test]
fn zero_memory_is_reported_before_zero_disk() {
    let mut statistics = nominal_statistics();
    statistics.total_memory_bytes = 0;
    statistics.volumes = Vec::new();
    let readings = Readings { statistics: Ok(statistics), ..nominal_readings() };
    assert_eq!(
        collect(readings),
        Err(CollectorError::PlatformQueryFailure(String::from("total memory is zero")))
    );
}

#[test]
fn missing_user_is_an_io_failure() {
    let readings = Readings {
        current_user: Err(String::from("environment variable not found")),
        ..nominal_readings()
    };
    assert_eq!(
        collect(readings),
        Err(CollectorError::IOFailure(String::from("environment variable not found")))
    );
}

#[test]
fn failed_statistics_are_a_platform_query_failure() {
    let readings =
        Readings { statistics: Err(String::from("counters unavailable")), ..nominal_readings() };
    assert_eq!(
        collect(readings),
        Err(CollectorError::PlatformQueryFailure(String::from("counters unavailable")))
    );
}

#[test]
fn failed_kernel_facility_is_a_kernel_facility_failure() {
    let readings = Readings { uptime_seconds: Err(String::from("EFAULT")), ..nominal_readings() };
    assert_eq!(
        collect(readings),
        Err(CollectorError::KernelFacilityFailure(String::from("EFAULT")))
    );
}

#[test]
fn failed_hostname_is_an_io_failure() {
    let readings = Readings { hostname: Err(String::from("name too long")), ..nominal_readings() };
    assert_eq!(collect(readings), Err(CollectorError::IOFailure(String::from("name too long"))));
}

#[test]
fn missing_home_directory_is_an_io_failure() {
    let readings =
        Readings { home_directory: Err(String::from("no such entry")), ..nominal_readings() };
    assert_eq!(collect(readings), Err(CollectorError::IOFailure(String::from("no such entry"))));
}

#[test]
fn the_first_failure_in_the_order_of_the_queries_decides() {
    let all_failed = Readings {
        statistics: Err(String::from("a")),
        uptime_seconds: Err(String::from("b")),
        hostname: Err(String::from("c")),
        current_user: Err(String::from("d")),
        home_directory: Err(String::from("e")),
    };
    assert_eq!(collect(all_failed), Err(CollectorError::PlatformQueryFailure(String::from("a"))));

    let from_kernel = Readings {
        uptime_seconds: Err(String::from("b")),
        hostname: Err(String::from("c")),
        current_user: Err(String::from("d")),
        home_directory: Err(String::from("e")),
        ..nominal_readings()
    };
    assert_eq!(
        collect(from_kernel),
        Err(CollectorError::KernelFacilityFailure(String::from("b")))
    );

    let from_hostname = Readings {
        hostname: Err(String::from("c")),
        current_user: Err(String::from("d")),
        home_directory: Err(String::from("e")),
        ..nominal_readings()
    };
    assert_eq!(collect(from_hostname), Err(CollectorError::IOFailure(String::from("c"))));

    let from_user = Readings {
        current_user: Err(String::from("d")),
        home_directory: Err(String::from("e")),
        ..nominal_readings()
    };
    assert_eq!(collect(from_user), Err(CollectorError::IOFailure(String::from("d"))));
}

#[test]
fn missing_user_is_reported_before_a_zero_total() {
    let mut statistics = nominal_statistics();
    statistics.total_memory_bytes = 0;
    let readings = Readings {
        statistics: Ok(statistics),
        current_user: Err(String::from("not set")),
        ..nominal_readings()
    };
    assert_eq!(collect(readings), Err(CollectorError::IOFailure(String::from("not set"))));
}

#[test]
fn a_zero_total_is_reported_before_a_missing_home_directory() {
    let mut statistics = nominal_statistics();
    statistics.volumes = Vec::new();
    let readings = Readings {
        statistics: Ok(statistics),
        home_directory: Err(String::from("no such entry")),
        ..nominal_readings()
    };
    assert_eq!(
        collect(readings),
        Err(CollectorError::PlatformQueryFailure(String::from("total disk space is zero")))
    );
}

#[test]
fn missing_descriptions_become_the_placeholder() {
    let mut statistics = nominal_statistics();
    statistics.os_name = None;
    statistics.kernel_version = None;
    statistics.architecture_descriptor = None;
    let readings = Readings { statistics: Ok(statistics), ..nominal_readings() };
    let snapshot = collect(readings).expect("descriptions are not required");
    assert_eq!(snapshot.os_name, "unknown");
    assert_eq!(snapshot.kernel_version, "unknown");
    assert_eq!(snapshot.architecture_descriptor, "unknown");
}

#[test]
fn an_unknown_core_count_is_recorded_as_zero() {
    let mut statistics = nominal_statistics();
    statistics.physical_core_count = None;
    let readings = Readings { statistics: Ok(statistics), ..nominal_readings() };
    let snapshot = collect(readings).expect("the core count is not required");
    assert_eq!(snapshot.physical_core_count, 0);
}

#[test]
fn a_core_count_of_zero_is_no_failure() {
    let mut statistics = nominal_statistics();
    statistics.physical_core_count = Some(0);
    let readings = Readings { statistics: Ok(statistics), ..nominal_readings() };
    let snapshot = collect(readings).expect("a count of zero is kept");
    assert_eq!(snapshot.physical_core_count, 0);
}

#[test]
fn more_memory_in_use_than_installed_is_kept_as_reported() {
    let mut statistics = nominal_statistics();
    statistics.used_memory_bytes = 3;
    statistics.total_memory_bytes = 2;
    let readings = Readings { statistics: Ok(statistics), ..nominal_readings() };
    let snapshot = collect(readings).expect("the total is not zero");
    assert_eq!(snapshot.memory_usage_ratio.part(), 3);
    assert_eq!(snapshot.memory_usage_ratio.whole(), 2);
    assert_eq!(snapshot.memory_usage_ratio.hundredths_of_percent(), 15000);
}

#[test]
fn the_process_count_of_a_snapshot_is_the_one_enumerated() {
    let mut statistics = nominal_statistics();
    statistics.process_count = 1;
    let readings = Readings { statistics: Ok(statistics), ..nominal_readings() };
    let snapshot = collect(readings).expect("every source answered");
    assert!(snapshot.process_count >= 1);
    assert_eq!(snapshot.process_count, 1);
}

#[test]
fn two_collections_agree_on_what_does_not_vary() {
    let first = collect(nominal_readings()).expect("every source answered");
    let later = Readings { uptime_seconds: Ok(3700), ..nominal_readings() };
    let second = collect(later).expect("every source answered");
    assert_eq!(first.os_name, second.os_name);
    assert_eq!(first.kernel_version, second.kernel_version);
    assert_eq!(first.architecture_descriptor, second.architecture_descriptor);
    assert_eq!(first.physical_core_count, second.physical_core_count);
    assert_eq!(first.home_directory, second.home_directory);
    assert!(second.uptime_seconds >= first.uptime_seconds);
}

#[test]
fn the_same_readings_give_the_same_snapshot() {
    assert_eq!(collect(nominal_readings()), collect(nominal_readings()));
}

#[test]
fn a_collection_asks_its_queries_in_order() {
    let state = Collector::start();
    assert_eq!(state, Collector::AwaitingStatistics);
    assert_eq!(state.pending(), Query::Statistics);

    let state = match state.advance(Answer::Statistics(Ok(nominal_statistics()))) {
        Progress::Continue(state) => state,
        Progress::Finished(result) => panic!("finished early: {:?}", result),
    };
    assert_eq!(state.pending(), Query::KernelInfo);

    let state = match state.advance(Answer::KernelInfo(Ok(3661))) {
        Progress::Continue(state) => state,
        Progress::Finished(result) => panic!("finished early: {:?}", result),
    };
    assert_eq!(state.pending(), Query::Hostname);

    let state = match state.advance(Answer::Hostname(Ok(String::from("host1")))) {
        Progress::Continue(state) => state,
        Progress::Finished(result) => panic!("finished early: {:?}", result),
    };
    assert_eq!(state.pending(), Query::CurrentUser);

    let state = match state.advance(Answer::CurrentUser(Ok(String::from("alice")))) {
        Progress::Continue(state) => state,
        Progress::Finished(result) => panic!("finished early: {:?}", result),
    };
    assert_eq!(state.pending(), Query::HomeDirectory);

    let finished = state.advance(Answer::HomeDirectory(Ok(String::from("/home/alice"))));
    assert_eq!(finished, Progress::Finished(collect(nominal_readings())));
}

#[test]
fn a_failure_ends_the_collection_at_once() {
    let state = Collector::start();
    let progress = state.advance(Answer::Statistics(Err(String::from("counters unavailable"))));
    assert_eq!(
        progress,
        Progress::Finished(Err(CollectorError::PlatformQueryFailure(String::from(
            "counters unavailable"
        ))))
    );

    let state = Collector::AwaitingKernelInfo { statistics: nominal_statistics() };
    let progress = state.advance(Answer::KernelInfo(Err(String::from("EFAULT"))));
    assert_eq!(
        progress,
        Progress::Finished(Err(CollectorError::KernelFacilityFailure(String::from("EFAULT"))))
    );

    let state =
        Collector::AwaitingHostname { statistics: nominal_statistics(), uptime_seconds: 1 };
    let progress = state.advance(Answer::Hostname(Err(String::from("name too long"))));
    assert_eq!(
        progress,
        Progress::Finished(Err(CollectorError::IOFailure(String::from("name too long"))))
    );
}

#[test]
fn a_missing_user_ends_the_collection_before_the_home_directory_is_asked_for() {
    let state = Collector::AwaitingCurrentUser {
        statistics: nominal_statistics(),
        uptime_seconds: 3661,
        hostname: String::from("host1"),
    };
    let progress = state.advance(Answer::CurrentUser(Err(String::from("not set"))));
    assert_eq!(
        progress,
        Progress::Finished(Err(CollectorError::IOFailure(String::from("not set"))))
    );
}

#[test]
fn a_zero_total_ends_the_collection_once_the_user_is_known() {
    let mut statistics = nominal_statistics();
    statistics.total_memory_bytes = 0;
    let state = Collector::AwaitingCurrentUser {
        statistics,
        uptime_seconds: 3661,
        hostname: String::from("host1"),
    };
    let progress = state.advance(Answer::CurrentUser(Ok(String::from("alice"))));
    assert_eq!(
        progress,
        Progress::Finished(Err(CollectorError::PlatformQueryFailure(String::from(
            "total memory is zero"
        ))))
    );
}

#[test]
fn an_answer_to_another_query_changes_nothing() {
    let state = Collector::start();
    let progress = state.advance(Answer::Hostname(Ok(String::from("host1"))));
    assert_eq!(progress, Progress::Continue(Collector::AwaitingStatistics));

    let state = Collector::AwaitingKernelInfo { statistics: nominal_statistics() };
    let progress = state.advance(Answer::HomeDirectory(Err(String::from("no such entry"))));
    assert_eq!(
        progress,
        Progress::Continue(Collector::AwaitingKernelInfo { statistics: nominal_statistics() })
    );

    let state = Collector::AwaitingCurrentUser {
        statistics: nominal_statistics(),
        uptime_seconds: 3661,
        hostname: String::from("host1"),
    };
    let progress = state.advance(Answer::Statistics(Err(String::from("late"))));
    assert_eq!(
        progress,
        Progress::Continue(Collector::AwaitingCurrentUser {
            statistics: nominal_statistics(),
            uptime_seconds: 3661,
            hostname: String::from("host1"),
        })
    );
}

#[test]
fn a_process_count_of_zero_is_kept_as_reported() {
    let mut statistics = nominal_statistics();
    statistics.process_count = 0;
    let readings = Readings { statistics: Ok(statistics), ..nominal_readings() };
    let snapshot = collect(readings).expect("the process count is not examined");
    assert_eq!(snapshot.process_count, 0);
}
