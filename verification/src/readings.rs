//! What the statistics subsystem reports, and the totals formed from it.

use vstd::prelude::*;

verus! {

/// An amount as 64 bits hold it: the amount itself, or the largest value of
/// 64 bits where the amount exceeds it.
pub open spec fn clamp_to_u64(amount: nat) -> u64 {
    if amount > u64::MAX {
        u64::MAX
    } else {
        amount as u64
    }
}

/// One mounted volume, as the statistics subsystem reports it.
#[derive(Clone, Copy, Debug, PartialEq, Eq)]
pub struct Volume {
    /// The size of the volume in bytes.
    pub total_bytes: u64,
    /// The bytes of the volume that are still free.
    pub available_bytes: u64,
}

impl Volume {
    /// The bytes of the volume that are taken: its size less what is free,
    /// and nothing where more is reported free than the volume holds.
    pub open spec fn spec_used_bytes(&self) -> u64 {
        if self.available_bytes <= self.total_bytes {
            (self.total_bytes - self.available_bytes) as u64
        } else {
            0
        }
    }

    /// The bytes of the volume that are taken.
    #[verifier::when_used_as_spec(spec_used_bytes)]
    pub fn used_bytes(&self) -> (used: u64)
        ensures
            used == self.spec_used_bytes(),
            used <= self.total_bytes,
    {
        if self.available_bytes <= self.total_bytes {
            self.total_bytes - self.available_bytes
        } else {
            0
        }
    }
}

/// The sizes of all the volumes, added up.
pub open spec fn sum_of_total_bytes(volumes: Seq<Volume>) -> nat
    decreases volumes.len(),
{
    if volumes.len() == 0 {
        0
    } else {
        sum_of_total_bytes(volumes.drop_last()) + volumes.last().total_bytes as nat
    }
}

/// The taken bytes of all the volumes, added up.
pub open spec fn sum_of_used_bytes(volumes: Seq<Volume>) -> nat
    decreases volumes.len(),
{
    if volumes.len() == 0 {
        0
    } else {
        sum_of_used_bytes(volumes.drop_last()) + volumes.last().used_bytes() as nat
    }
}

/// Over any volumes, no more is taken than there is, and each sum is at most
/// the number of volumes times the largest size a volume can report.
pub proof fn lemma_sums_bounded(volumes: Seq<Volume>)
    ensures
        sum_of_used_bytes(volumes) <= sum_of_total_bytes(volumes),
        sum_of_total_bytes(volumes) <= volumes.len() * u64::MAX,
    decreases volumes.len(),
{
    if volumes.len() > 0 {
        lemma_sums_bounded(volumes.drop_last());
    }
}

/// The bytes taken and the bytes in total over all the volumes, in that
/// order, each held at the largest representable amount where the sum
/// exceeds it.
pub fn disk_totals(volumes: &Vec<Volume>) -> (totals: (u64, u64))
    ensures
        totals.0 == clamp_to_u64(sum_of_used_bytes(volumes@)),
        totals.1 == clamp_to_u64(sum_of_total_bytes(volumes@)),
        totals.0 <= totals.1,
{
    let mut used: u128 = 0;
    let mut total: u128 = 0;
    let mut index: usize = 0;
    while index < volumes.len()
        invariant
            index <= volumes.len(),
            used == sum_of_used_bytes(volumes@.take(index as int)),
            total == sum_of_total_bytes(volumes@.take(index as int)),
        decreases volumes.len() - index,
    {
        proof {
            let seen = volumes@.take(index as int);
            let next = volumes@.take(index + 1);
            assert(next.drop_last() =~= seen);
            lemma_sums_bounded(seen);
        }
        let volume = volumes[index];
        used = used + volume.used_bytes() as u128;
        total = total + volume.total_bytes as u128;
        index = index + 1;
    }
    proof {
        assert(volumes@.take(index as int) =~= volumes@);
        lemma_sums_bounded(volumes@);
    }
    let used_clamped: u64 = if used > u64::MAX as u128 {
        u64::MAX
    } else {
        used as u64
    };
    let total_clamped: u64 = if total > u64::MAX as u128 {
        u64::MAX
    } else {
        total as u64
    };
    (used_clamped, total_clamped)
}

/// An amount of memory in bytes, given in the kilobytes of 1000 bytes in
/// which the statistics subsystem counts it; held at the largest
/// representable amount where the product exceeds it.
pub fn kilobytes_to_bytes(kilobytes: u64) -> (bytes: u64)
    ensures
        bytes == clamp_to_u64(kilobytes as nat * 1000),
{
    if kilobytes > u64::MAX / 1000 {
        u64::MAX
    } else {
        kilobytes * 1000
    }
}

/// One reading of the statistics subsystem, with every counter refreshed.
#[derive(Clone, Debug, PartialEq, Eq)]
pub struct Statistics {
    /// The utilisation of all processors together, in hundredths of a
    /// percent; the source may report more than 100 percent.
    pub cpu_usage_hundredths: u64,
    /// The memory in use, in bytes.
    pub used_memory_bytes: u64,
    /// The memory installed, in bytes.
    pub total_memory_bytes: u64,
    /// Every mounted volume.
    pub volumes: Vec<Volume>,
    /// The name of the operating system, where the platform knows it.
    pub os_name: Option<String>,
    /// The version of the kernel, where the platform knows it.
    pub kernel_version: Option<String>,
    /// The long description of the platform, where the platform knows it.
    pub architecture_descriptor: Option<String>,
    /// The number of physical cores, where the platform can tell.
    pub physical_core_count: Option<u64>,
    /// The number of processes that the subsystem enumerated.
    pub process_count: u64,
}

impl Statistics {
    /// The bytes taken over all the volumes, as the snapshot holds them.
    pub open spec fn used_disk_bytes(&self) -> u64 {
        clamp_to_u64(sum_of_used_bytes(self.volumes@))
    }

    /// The bytes in total over all the volumes, as the snapshot holds them.
    pub open spec fn total_disk_bytes(&self) -> u64 {
        clamp_to_u64(sum_of_total_bytes(self.volumes@))
    }
}

} // verus!
