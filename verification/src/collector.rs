//! The collection itself: which question is put to the machine next, and what
//! each answer leads to.
//!
//! A collection asks five questions in a fixed order.  The first failure ends
//! it: no later question is asked, and no snapshot is made.

use crate::error::{CollectorError, Failure};
use crate::ratio::Ratio;
use crate::readings::{disk_totals, Statistics};
use crate::snapshot::{SnapshotModel, SystemSnapshot};
use vstd::pervasive::unreached;
use vstd::prelude::*;
use vstd::string::*;

verus! {

/// A question that a driver puts to the machine on the collector's behalf.
#[derive(Clone, Copy, Debug, PartialEq, Eq, Structural)]
pub enum Query {
    /// Set up the statistics subsystem and refresh all of its counters.
    Statistics,
    /// Ask the kernel's system-information facility for the uptime.
    KernelInfo,
    /// Resolve the name of the host.
    Hostname,
    /// Look up the current user in the environment of the process.
    CurrentUser,
    /// Resolve the home directory of the current user.
    HomeDirectory,
}

/// What the machine gave in reply to a [`Query`]: the value, or the reason
/// why there is none.
#[derive(Debug, PartialEq, Eq)]
pub enum Answer {
    /// The reply to [`Query::Statistics`].
    Statistics(Result<Statistics, String>),
    /// The reply to [`Query::KernelInfo`]: the uptime in seconds.
    KernelInfo(Result<u64, String>),
    /// The reply to [`Query::Hostname`].
    Hostname(Result<String, String>),
    /// The reply to [`Query::CurrentUser`].
    CurrentUser(Result<String, String>),
    /// The reply to [`Query::HomeDirectory`].
    HomeDirectory(Result<String, String>),
}

/// A collection under way: the answers accepted so far.  Each state waits for
/// the answer to exactly one query.
#[derive(Clone, Debug, PartialEq, Eq)]
pub enum Collector {
    /// Nothing has been asked yet.
    AwaitingStatistics,
    /// The statistics are in hand.
    AwaitingKernelInfo { statistics: Statistics },
    /// The statistics and the uptime are in hand.
    AwaitingHostname { statistics: Statistics, uptime_seconds: u64 },
    /// The statistics, the uptime and the host name are in hand.
    AwaitingCurrentUser { statistics: Statistics, uptime_seconds: u64, hostname: String },
    /// Everything but the home directory is in hand, and both usage
    /// fractions have been formed from the statistics.
    AwaitingHomeDirectory {
        statistics: Statistics,
        memory_usage_ratio: Ratio,
        disk_usage_ratio: Ratio,
        uptime_seconds: u64,
        hostname: String,
        current_user: String,
    },
}

/// Where a collection stands after an answer.
#[derive(Debug, PartialEq, Eq)]
pub enum Progress {
    /// The collection goes on: the driver performs the pending query of the
    /// new state.
    Continue(Collector),
    /// The collection is over.
    Finished(Result<SystemSnapshot, CollectorError>),
}

/// The mathematical value of a [`Progress`].
pub enum ProgressModel {
    /// The collection goes on from this state.
    Continue(Collector),
    /// The collection is over, with this result.
    Finished(Result<SnapshotModel, Failure>),
}

/// The mathematical value of the result of a collection.
pub open spec fn outcome(result: Result<SystemSnapshot, CollectorError>) -> Result<
    SnapshotModel,
    Failure,
> {
    match result {
        Ok(snapshot) => Ok(snapshot@),
        Err(error) => Err(error@),
    }
}

impl View for Progress {
    type V = ProgressModel;

    open spec fn view(&self) -> ProgressModel {
        match self {
            Progress::Continue(state) => ProgressModel::Continue(*state),
            Progress::Finished(result) => ProgressModel::Finished(outcome(*result)),
        }
    }
}

/// The reason given where the statistics report no memory at all.
pub open spec fn zero_memory_detail() -> Seq<char> {
    "total memory is zero"@
}

/// The reason given where the volumes hold no bytes at all.
pub open spec fn zero_disk_detail() -> Seq<char> {
    "total disk space is zero"@
}

/// The text that stands for a description the platform could not supply.
pub open spec fn placeholder() -> Seq<char> {
    "unknown"@
}

/// A description of the platform, or the placeholder where there is none.
pub open spec fn described(text: Option<String>) -> Seq<char> {
    match text {
        Some(text) => text@,
        None => placeholder(),
    }
}

/// A count, or 0 where the platform could not tell.
pub open spec fn counted(count: Option<u64>) -> nat {
    match count {
        Some(count) => count as nat,
        None => 0,
    }
}

/// The snapshot that the gathered facts make up.
pub open spec fn assembled(
    statistics: Statistics,
    used_memory_bytes: nat,
    total_memory_bytes: nat,
    used_disk_bytes: nat,
    total_disk_bytes: nat,
    uptime_seconds: u64,
    hostname: Seq<char>,
    current_user: Seq<char>,
    home_directory: Seq<char>,
) -> SnapshotModel {
    SnapshotModel {
        hostname,
        uptime_seconds: uptime_seconds as nat,
        current_user,
        cpu_usage_hundredths: statistics.cpu_usage_hundredths as nat,
        used_memory_bytes,
        total_memory_bytes,
        used_disk_bytes,
        total_disk_bytes,
        home_directory,
        os_name: described(statistics.os_name),
        kernel_version: described(statistics.kernel_version),
        architecture_descriptor: described(statistics.architecture_descriptor),
        physical_core_count: counted(statistics.physical_core_count),
        process_count: statistics.process_count as nat,
    }
}

fn description(text: Option<String>) -> (result: String)
    ensures
        result@ == described(text),
{
    match text {
        Some(text) => text,
        None => String::from_str("unknown"),
    }
}

impl Collector {
    /// The query whose answer the collection waits for.
    pub open spec fn spec_pending(&self) -> Query {
        match self {
            Collector::AwaitingStatistics => Query::Statistics,
            Collector::AwaitingKernelInfo { .. } => Query::KernelInfo,
            Collector::AwaitingHostname { .. } => Query::Hostname,
            Collector::AwaitingCurrentUser { .. } => Query::CurrentUser,
            Collector::AwaitingHomeDirectory { .. } => Query::HomeDirectory,
        }
    }

    /// What an answer leads to.
    ///
    /// An answer to the pending query either ends the collection with the
    /// failure that the answer reports, or is kept and moves the collection
    /// on.  The user's name in hand, the totals of memory and disk are
    /// examined before the home directory is asked for: a total of zero ends
    /// the collection, since no usage fraction can be formed from it.  The
    /// home directory completes the snapshot.  An answer to any other query
    /// than the pending one changes nothing.
    pub open spec fn spec_advance(self, answer: Answer) -> ProgressModel {
        match (self, answer) {
            (Collector::AwaitingStatistics, Answer::Statistics(Err(detail))) => {
                ProgressModel::Finished(Err(Failure::PlatformQueryFailure(detail@)))
            },
            (Collector::AwaitingStatistics, Answer::Statistics(Ok(statistics))) => {
                ProgressModel::Continue(Collector::AwaitingKernelInfo { statistics })
            },
            (Collector::AwaitingKernelInfo { statistics }, Answer::KernelInfo(Err(detail))) => {
                ProgressModel::Finished(Err(Failure::KernelFacilityFailure(detail@)))
            },
            (
                Collector::AwaitingKernelInfo { statistics },
                Answer::KernelInfo(Ok(uptime_seconds)),
            ) => ProgressModel::Continue(
                Collector::AwaitingHostname { statistics, uptime_seconds },
            ),
            (Collector::AwaitingHostname { .. }, Answer::Hostname(Err(detail))) => {
                ProgressModel::Finished(Err(Failure::IOFailure(detail@)))
            },
            (
                Collector::AwaitingHostname { statistics, uptime_seconds },
                Answer::Hostname(Ok(hostname)),
            ) => ProgressModel::Continue(
                Collector::AwaitingCurrentUser { statistics, uptime_seconds, hostname },
            ),
            (Collector::AwaitingCurrentUser { .. }, Answer::CurrentUser(Err(detail))) => {
                ProgressModel::Finished(Err(Failure::IOFailure(detail@)))
            },
            (
                Collector::AwaitingCurrentUser { statistics, uptime_seconds, hostname },
                Answer::CurrentUser(Ok(current_user)),
            ) => {
                if statistics.total_memory_bytes == 0 {
                    ProgressModel::Finished(
                        Err(Failure::PlatformQueryFailure(zero_memory_detail())),
                    )
                } else if statistics.total_disk_bytes() == 0 {
                    ProgressModel::Finished(Err(Failure::PlatformQueryFailure(zero_disk_detail())))
                } else {
                    ProgressModel::Continue(
                        Collector::AwaitingHomeDirectory {
                            statistics,
                            memory_usage_ratio: Ratio::of(
                                statistics.used_memory_bytes,
                                statistics.total_memory_bytes,
                            ),
                            disk_usage_ratio: Ratio::of(
                                statistics.used_disk_bytes(),
                                statistics.total_disk_bytes(),
                            ),
                            uptime_seconds,
                            hostname,
                            current_user,
                        },
                    )
                }
            },
            (Collector::AwaitingHomeDirectory { .. }, Answer::HomeDirectory(Err(detail))) => {
                ProgressModel::Finished(Err(Failure::IOFailure(detail@)))
            },
            (
                Collector::AwaitingHomeDirectory {
                    statistics,
                    memory_usage_ratio,
                    disk_usage_ratio,
                    uptime_seconds,
                    hostname,
                    current_user,
                },
                Answer::HomeDirectory(Ok(home_directory)),
            ) => ProgressModel::Finished(
                Ok(
                    assembled(
                        statistics,
                        memory_usage_ratio.part() as nat,
                        memory_usage_ratio.whole() as nat,
                        disk_usage_ratio.part() as nat,
                        disk_usage_ratio.whole() as nat,
                        uptime_seconds,
                        hostname@,
                        current_user@,
                        home_directory@,
                    ),
                ),
            ),
            (state, _) => ProgressModel::Continue(state),
        }
    }

    /// A collection that has asked nothing yet.
    pub fn start() -> (state: Collector)
        ensures
            state == Collector::AwaitingStatistics,
    {
        Collector::AwaitingStatistics
    }

    /// The query that the driver must perform next.
    #[verifier::when_used_as_spec(spec_pending)]
    pub fn pending(&self) -> (query: Query)
        ensures
            query == self.spec_pending(),
    {
        match self {
            Collector::AwaitingStatistics => Query::Statistics,
            Collector::AwaitingKernelInfo { .. } => Query::KernelInfo,
            Collector::AwaitingHostname { .. } => Query::Hostname,
            Collector::AwaitingCurrentUser { .. } => Query::CurrentUser,
            Collector::AwaitingHomeDirectory { .. } => Query::HomeDirectory,
        }
    }

    /// Takes the answer to the pending query and says how the collection goes
    /// on: with the next query, with a failure, or with the snapshot.
    pub fn advance(self, answer: Answer) -> (progress: Progress)
        ensures
            progress@ == self.spec_advance(answer),
    {
        match self {
            Collector::AwaitingStatistics => match answer {
                Answer::Statistics(Err(detail)) => Progress::Finished(
                    Err(CollectorError::PlatformQueryFailure(detail)),
                ),
                Answer::Statistics(Ok(statistics)) => Progress::Continue(
                    Collector::AwaitingKernelInfo { statistics },
                ),
                _ => Progress::Continue(Collector::AwaitingStatistics),
            },
            Collector::AwaitingKernelInfo { statistics } => match answer {
                Answer::KernelInfo(Err(detail)) => Progress::Finished(
                    Err(CollectorError::KernelFacilityFailure(detail)),
                ),
                Answer::KernelInfo(Ok(uptime_seconds)) => Progress::Continue(
                    Collector::AwaitingHostname { statistics, uptime_seconds },
                ),
                _ => Progress::Continue(Collector::AwaitingKernelInfo { statistics }),
            },
            Collector::AwaitingHostname { statistics, uptime_seconds } => match answer {
                Answer::Hostname(Err(detail)) => Progress::Finished(
                    Err(CollectorError::IOFailure(detail)),
                ),
                Answer::Hostname(Ok(hostname)) => Progress::Continue(
                    Collector::AwaitingCurrentUser { statistics, uptime_seconds, hostname },
                ),
                _ => Progress::Continue(Collector::AwaitingHostname { statistics, uptime_seconds }),
            },
            Collector::AwaitingCurrentUser { statistics, uptime_seconds, hostname } => match answer {
                Answer::CurrentUser(Err(detail)) => Progress::Finished(
                    Err(CollectorError::IOFailure(detail)),
                ),
                Answer::CurrentUser(Ok(current_user)) => {
                    let (used_disk_bytes, total_disk_bytes) = disk_totals(&statistics.volumes);
                    let memory = Ratio::new(
                        statistics.used_memory_bytes,
                        statistics.total_memory_bytes,
                    );
                    let disk = Ratio::new(used_disk_bytes, total_disk_bytes);
                    match (memory, disk) {
                        (None, _) => Progress::Finished(
                            Err(
                                CollectorError::PlatformQueryFailure(
                                    String::from_str("total memory is zero"),
                                ),
                            ),
                        ),
                        (Some(_), None) => Progress::Finished(
                            Err(
                                CollectorError::PlatformQueryFailure(
                                    String::from_str("total disk space is zero"),
                                ),
                            ),
                        ),
                        (Some(memory_usage_ratio), Some(disk_usage_ratio)) => Progress::Continue(
                            Collector::AwaitingHomeDirectory {
                                statistics,
                                memory_usage_ratio,
                                disk_usage_ratio,
                                uptime_seconds,
                                hostname,
                                current_user,
                            },
                        ),
                    }
                },
                _ => Progress::Continue(
                    Collector::AwaitingCurrentUser { statistics, uptime_seconds, hostname },
                ),
            },
            Collector::AwaitingHomeDirectory {
                statistics,
                memory_usage_ratio,
                disk_usage_ratio,
                uptime_seconds,
                hostname,
                current_user,
            } => match answer {
                Answer::HomeDirectory(Err(detail)) => Progress::Finished(
                    Err(CollectorError::IOFailure(detail)),
                ),
                Answer::HomeDirectory(Ok(home_directory)) => {
                    let physical_core_count: u64 = match statistics.physical_core_count {
                        Some(count) => count,
                        None => 0,
                    };
                    Progress::Finished(
                        Ok(
                            SystemSnapshot {
                                hostname,
                                uptime_seconds,
                                current_user,
                                cpu_usage_hundredths: statistics.cpu_usage_hundredths,
                                memory_usage_ratio,
                                disk_usage_ratio,
                                home_directory,
                                os_name: description(statistics.os_name),
                                kernel_version: description(statistics.kernel_version),
                                architecture_descriptor: description(
                                    statistics.architecture_descriptor,
                                ),
                                physical_core_count,
                                process_count: statistics.process_count,
                            },
                        ),
                    )
                },
                _ => Progress::Continue(
                    Collector::AwaitingHomeDirectory {
                        statistics,
                        memory_usage_ratio,
                        disk_usage_ratio,
                        uptime_seconds,
                        hostname,
                        current_user,
                    },
                ),
            },
        }
    }
}

/// The answers of all five sources, each already in hand.
#[derive(Debug, PartialEq, Eq)]
pub struct Readings {
    /// The reply of the statistics subsystem.
    pub statistics: Result<Statistics, String>,
    /// The uptime in seconds, from the kernel's system-information facility.
    pub uptime_seconds: Result<u64, String>,
    /// The name of the host.
    pub hostname: Result<String, String>,
    /// The current user, from the environment of the process.
    pub current_user: Result<String, String>,
    /// The home directory of the current user.
    pub home_directory: Result<String, String>,
}

impl Readings {
    /// Every source gave a value, and neither total is zero.
    pub open spec fn usable(self) -> bool {
        &&& self.statistics matches Ok(statistics)
        &&& self.uptime_seconds is Ok
        &&& self.hostname is Ok
        &&& self.current_user is Ok
        &&& statistics.total_memory_bytes != 0
        &&& statistics.total_disk_bytes() != 0
        &&& self.home_directory is Ok
    }
}

/// The result of a collection over the given answers.
///
/// The sources are examined in the order in which a collection asks for
/// them, and the first that fails decides the result: the statistics
/// subsystem, the kernel's facility, the host name, the current user, the
/// total of memory, the total of disk space, the home directory.  Where none
/// fails the result is the snapshot that the answers make up.
pub open spec fn spec_collect(readings: Readings) -> Result<SnapshotModel, Failure> {
    match readings.statistics {
        Err(detail) => Err(Failure::PlatformQueryFailure(detail@)),
        Ok(statistics) => match readings.uptime_seconds {
            Err(detail) => Err(Failure::KernelFacilityFailure(detail@)),
            Ok(uptime_seconds) => match readings.hostname {
                Err(detail) => Err(Failure::IOFailure(detail@)),
                Ok(hostname) => match readings.current_user {
                    Err(detail) => Err(Failure::IOFailure(detail@)),
                    Ok(current_user) => if statistics.total_memory_bytes == 0 {
                        Err(Failure::PlatformQueryFailure(zero_memory_detail()))
                    } else if statistics.total_disk_bytes() == 0 {
                        Err(Failure::PlatformQueryFailure(zero_disk_detail()))
                    } else {
                        match readings.home_directory {
                            Err(detail) => Err(Failure::IOFailure(detail@)),
                            Ok(home_directory) => Ok(
                                assembled(
                                    statistics,
                                    statistics.used_memory_bytes as nat,
                                    statistics.total_memory_bytes as nat,
                                    statistics.used_disk_bytes() as nat,
                                    statistics.total_disk_bytes() as nat,
                                    uptime_seconds,
                                    hostname@,
                                    current_user@,
                                    home_directory@,
                                ),
                            ),
                        }
                    },
                },
            },
        },
    }
}

/// Where a collection stands after one more answer: a finished collection
/// stays as it is.
pub open spec fn spec_then(progress: ProgressModel, answer: Answer) -> ProgressModel {
    match progress {
        ProgressModel::Continue(state) => state.spec_advance(answer),
        ProgressModel::Finished(result) => ProgressModel::Finished(result),
    }
}

/// Where a collection stands once a driver has put each pending query to
/// sources that answer as `readings` says.
pub open spec fn spec_run(readings: Readings) -> ProgressModel {
    let asked_statistics = Collector::AwaitingStatistics.spec_advance(
        Answer::Statistics(readings.statistics),
    );
    let asked_kernel = spec_then(asked_statistics, Answer::KernelInfo(readings.uptime_seconds));
    let asked_hostname = spec_then(asked_kernel, Answer::Hostname(readings.hostname));
    let asked_user = spec_then(asked_hostname, Answer::CurrentUser(readings.current_user));
    spec_then(asked_user, Answer::HomeDirectory(readings.home_directory))
}

/// Collects a snapshot from answers that are all in hand.
///
/// The result is that of a collection which asks each source in turn: the
/// first failure in the order of the queries, or the complete snapshot.
pub fn collect(readings: Readings) -> (result: Result<SystemSnapshot, CollectorError>)
    ensures
        outcome(result) == spec_collect(readings),
        result is Ok <==> readings.usable(),
{
    broadcast use Ratio::lemma_of_parts;

    let Readings { statistics, uptime_seconds, hostname, current_user, home_directory } = readings;
    let state = match Collector::start().advance(Answer::Statistics(statistics)) {
        Progress::Finished(result) => {
            return result;
        },
        Progress::Continue(state) => state,
    };
    let state = match state.advance(Answer::KernelInfo(uptime_seconds)) {
        Progress::Finished(result) => {
            return result;
        },
        Progress::Continue(state) => state,
    };
    let state = match state.advance(Answer::Hostname(hostname)) {
        Progress::Finished(result) => {
            return result;
        },
        Progress::Continue(state) => state,
    };
    let state = match state.advance(Answer::CurrentUser(current_user)) {
        Progress::Finished(result) => {
            return result;
        },
        Progress::Continue(state) => state,
    };
    match state.advance(Answer::HomeDirectory(home_directory)) {
        Progress::Finished(result) => result,
        Progress::Continue(_) => unreached(),
    }
}

/// A driver that performs each pending query in turn ends with the result
/// that `spec_collect` gives for the answers it met, after no more than the
/// five queries.
pub proof fn lemma_run_yields_collect(readings: Readings)
    ensures
        spec_run(readings) == ProgressModel::Finished(spec_collect(readings)),
{
    broadcast use Ratio::lemma_of_parts;

}

/// A collection succeeds exactly where every source gave a value and neither
/// total is zero, and its snapshot then holds each answer in full.
pub proof fn lemma_snapshot_is_complete(readings: Readings)
    ensures
        spec_collect(readings) is Ok <==> readings.usable(),
        spec_collect(readings) matches Ok(snapshot) ==> {
            &&& snapshot.hostname == readings.hostname->Ok_0@
            &&& snapshot.uptime_seconds == readings.uptime_seconds->Ok_0
            &&& snapshot.current_user == readings.current_user->Ok_0@
            &&& snapshot.home_directory == readings.home_directory->Ok_0@
            &&& snapshot.cpu_usage_hundredths == readings.statistics->Ok_0.cpu_usage_hundredths
            &&& snapshot.used_memory_bytes == readings.statistics->Ok_0.used_memory_bytes
            &&& snapshot.total_memory_bytes == readings.statistics->Ok_0.total_memory_bytes
            &&& snapshot.used_disk_bytes == readings.statistics->Ok_0.used_disk_bytes()
            &&& snapshot.total_disk_bytes == readings.statistics->Ok_0.total_disk_bytes()
            &&& snapshot.os_name == described(readings.statistics->Ok_0.os_name)
            &&& snapshot.kernel_version == described(readings.statistics->Ok_0.kernel_version)
            &&& snapshot.architecture_descriptor == described(
                readings.statistics->Ok_0.architecture_descriptor,
            )
            &&& snapshot.physical_core_count == counted(
                readings.statistics->Ok_0.physical_core_count,
            )
            &&& snapshot.process_count == readings.statistics->Ok_0.process_count
        },
{
}

/// In a snapshot both totals are above zero and the disk usage fraction lies
/// between 0 and 1; so does the memory usage fraction, where the statistics
/// report no more memory in use than installed.  Where the statistics report
/// a total of zero, for memory or for disk, the collection fails.
pub proof fn lemma_ratios_in_unit_interval(readings: Readings)
    ensures
        spec_collect(readings) matches Ok(snapshot) ==> {
            &&& snapshot.has_defined_ratios()
            &&& snapshot.disk_ratio_in_unit_interval()
            &&& readings.statistics->Ok_0.used_memory_bytes
                <= readings.statistics->Ok_0.total_memory_bytes
                ==> snapshot.memory_ratio_in_unit_interval()
        },
        readings.statistics matches Ok(statistics) && (statistics.total_memory_bytes == 0
            || statistics.total_disk_bytes() == 0) ==> spec_collect(readings) is Err,
{
    if let Ok(statistics) = readings.statistics {
        crate::readings::lemma_sums_bounded(statistics.volumes@);
    }
}

/// Without the name of the current user a collection fails; it fails as an
/// `IOFailure` where the statistics subsystem and the kernel's facility,
/// which are asked before, both answered.
pub proof fn lemma_missing_user_fails(readings: Readings)
    requires
        readings.current_user is Err,
    ensures
        spec_collect(readings) is Err,
        readings.statistics is Ok && readings.uptime_seconds is Ok ==> spec_collect(
            readings,
        ) matches Err(Failure::IOFailure(_)),
{
}

/// A snapshot counts the processes that the statistics subsystem enumerated:
/// at least one, where the subsystem enumerated at least the process that
/// asked.
pub proof fn lemma_process_count_kept(readings: Readings)
    requires
        readings.statistics matches Ok(statistics) && statistics.process_count >= 1,
    ensures
        spec_collect(readings) matches Ok(snapshot) ==> snapshot.process_count >= 1,
{
}

/// Two collections agree on what the sources agree on: where both succeed and
/// the platform described itself, counted its cores and resolved the home
/// directory alike both times, the two snapshots hold the same values there;
/// and where the uptime did not go back between them, neither does it in the
/// snapshots.
pub proof fn lemma_repeated_collection(first: Readings, second: Readings)
    requires
        spec_collect(first) is Ok,
        spec_collect(second) is Ok,
        described(first.statistics->Ok_0.os_name) == described(second.statistics->Ok_0.os_name),
        described(first.statistics->Ok_0.kernel_version) == described(
            second.statistics->Ok_0.kernel_version,
        ),
        described(first.statistics->Ok_0.architecture_descriptor) == described(
            second.statistics->Ok_0.architecture_descriptor,
        ),
        first.statistics->Ok_0.physical_core_count == second.statistics->Ok_0.physical_core_count,
        first.home_directory->Ok_0@ == second.home_directory->Ok_0@,
        first.uptime_seconds->Ok_0 <= second.uptime_seconds->Ok_0,
    ensures
        spec_collect(first)->Ok_0.os_name == spec_collect(second)->Ok_0.os_name,
        spec_collect(first)->Ok_0.kernel_version == spec_collect(second)->Ok_0.kernel_version,
        spec_collect(first)->Ok_0.architecture_descriptor == spec_collect(
            second,
        )->Ok_0.architecture_descriptor,
        spec_collect(first)->Ok_0.physical_core_count == spec_collect(
            second,
        )->Ok_0.physical_core_count,
        spec_collect(first)->Ok_0.home_directory == spec_collect(second)->Ok_0.home_directory,
        spec_collect(first)->Ok_0.uptime_seconds <= spec_collect(second)->Ok_0.uptime_seconds,
{
}

} // verus!
