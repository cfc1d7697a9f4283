//! Figures about the machine, computed from what the host's probes report.

use vstd::prelude::*;

verus! {

/// Memory of the machine in bytes.
#[derive(Copy, Clone, Debug, PartialEq, Eq, Structural)]
pub struct MemInfo {
    total: u64,
    free: u64,
}

impl MemInfo {
    pub closed spec fn total_bytes(&self) -> u64 {
        self.total
    }

    pub closed spec fn free_bytes(&self) -> u64 {
        self.free
    }

    /// The figures for a machine with `total` bytes of memory, `free` of them available.
    pub fn new(total: u64, free: u64) -> (info: MemInfo)
        ensures
            info.total_bytes() == total,
            info.free_bytes() == free,
    {
        MemInfo { total, free }
    }

    pub fn total(&self) -> (bytes: u64)
        ensures
            bytes == self.total_bytes(),
    {
        self.total
    }

    pub fn free(&self) -> (bytes: u64)
        ensures
            bytes == self.free_bytes(),
    {
        self.free
    }
}

/// Space of one disk in bytes.
#[derive(Copy, Clone, Debug, PartialEq, Eq, Structural)]
pub struct DiskSpace {
    pub total: u64,
    pub available: u64,
}

/// Disk space of the machine in bytes, over all its disks.
#[derive(Copy, Clone, Debug, PartialEq, Eq, Structural)]
pub struct DiskInfo {
    total: u64,
    free: u64,
}

/// The sum of the total sizes of `disks`.
pub open spec fn total_space(disks: Seq<DiskSpace>) -> nat
    decreases disks.len(),
{
    if disks.len() == 0 {
        0
    } else {
        total_space(disks.drop_last()) + disks.last().total as nat
    }
}

/// The sum of the available sizes of `disks`.
pub open spec fn available_space(disks: Seq<DiskSpace>) -> nat
    decreases disks.len(),
{
    if disks.len() == 0 {
        0
    } else {
        available_space(disks.drop_last()) + disks.last().available as nat
    }
}

/// The sum of `values`.
pub open spec fn sum_of(values: Seq<u64>) -> nat
    decreases values.len(),
{
    if values.len() == 0 {
        0
    } else {
        sum_of(values.drop_last()) + values.last() as nat
    }
}

/// The sums over a longer stretch of disks are at least those over a shorter one.
proof fn lemma_space_grows(disks: Seq<DiskSpace>, n: int)
    requires
        0 <= n <= disks.len(),
    ensures
        total_space(disks.take(n)) <= total_space(disks),
        available_space(disks.take(n)) <= available_space(disks),
    decreases disks.len() - n,
{
    if n < disks.len() {
        lemma_space_grows(disks, n + 1);
        assert(disks.take(n + 1).drop_last() =~= disks.take(n));
    } else {
        assert(disks.take(n) =~= disks);
    }
}

/// The sum over a longer stretch of values is at least that over a shorter one.
proof fn lemma_sum_grows(values: Seq<u64>, n: int)
    requires
        0 <= n <= values.len(),
    ensures
        sum_of(values.take(n)) <= sum_of(values),
    decreases values.len() - n,
{
    if n < values.len() {
        lemma_sum_grows(values, n + 1);
        assert(values.take(n + 1).drop_last() =~= values.take(n));
    } else {
        assert(values.take(n) =~= values);
    }
}

impl DiskInfo {
    pub closed spec fn total_bytes(&self) -> u64 {
        self.total
    }

    pub closed spec fn free_bytes(&self) -> u64 {
        self.free
    }

    /// Adds up the disks of a machine.
    pub fn from_disks(disks: &Vec<DiskSpace>) -> (info: DiskInfo)
        requires
            total_space(disks@) <= u64::MAX,
            available_space(disks@) <= u64::MAX,
        ensures
            info.total_bytes() == total_space(disks@),
            info.free_bytes() == available_space(disks@),
    {
        let mut total: u64 = 0;
        let mut free: u64 = 0;
        let mut i: usize = 0;
        assert(disks@.take(0) =~= Seq::<DiskSpace>::empty());
        while i < disks.len()
            invariant
                i <= disks.len(),
                total == total_space(disks@.take(i as int)),
                free == available_space(disks@.take(i as int)),
                total_space(disks@) <= u64::MAX,
                available_space(disks@) <= u64::MAX,
            decreases disks.len() - i,
        {
            proof {
                lemma_space_grows(disks@, i + 1);
                assert(disks@.take(i + 1).drop_last() =~= disks@.take(i as int));
            }
            total = total + disks[i].total;
            free = free + disks[i].available;
            i += 1;
        }
        assert(disks@.take(disks.len() as int) =~= disks@);
        DiskInfo { total, free }
    }

    pub fn total(&self) -> (bytes: u64)
        ensures
            bytes == self.total_bytes(),
    {
        self.total
    }

    pub fn free(&self) -> (bytes: u64)
        ensures
            bytes == self.free_bytes(),
    {
        self.free
    }
}

/// The mean clock frequency over the processors of a machine, rounded down.
pub fn average_frequency(frequencies: &Vec<u64>) -> (mean: u64)
    requires
        frequencies.len() > 0,
        sum_of(frequencies@) <= u64::MAX,
    ensures
        mean == sum_of(frequencies@) / frequencies.len() as nat,
{
    let mut sum: u64 = 0;
    let mut i: usize = 0;
    assert(frequencies@.take(0) =~= Seq::<u64>::empty());
    while i < frequencies.len()
        invariant
            i <= frequencies.len(),
            sum == sum_of(frequencies@.take(i as int)),
            sum_of(frequencies@) <= u64::MAX,
        decreases frequencies.len() - i,
    {
        proof {
            lemma_sum_grows(frequencies@, i + 1);
            assert(frequencies@.take(i + 1).drop_last() =~= frequencies@.take(i as int));
        }
        sum = sum + frequencies[i];
        i += 1;
    }
    assert(frequencies@.take(frequencies.len() as int) =~= frequencies@);
    sum / (frequencies.len() as u64)
}

/// The processor name to show: the brand of the first processor, or `Unknown CPU` where
/// there is no processor or its brand is empty.
pub open spec fn cpu_label_of(first_brand: Option<Seq<char>>) -> Seq<char> {
    match first_brand {
        Some(brand) => if brand.len() == 0 {
            "Unknown CPU"@
        } else {
            brand
        },
        None => "Unknown CPU"@,
    }
}

/// The processor name to show for a machine whose first processor has the given brand.
pub fn cpu_label(first_brand: Option<&str>) -> (label: String)
    ensures
        label@ == cpu_label_of(
            match first_brand {
                Some(b) => Some(b@),
                None => None,
            },
        ),
{
    match first_brand {
        Some(brand) => {
            if brand.unicode_len() == 0 {
                String::from_str("Unknown CPU")
            } else {
                String::from_str(brand)
            }
        },
        None => String::from_str("Unknown CPU"),
    }
}

/// The host name to show: the machine's, or `Unknown Hostname` where it has none.
pub fn host_label(host_name: Option<String>) -> (label: String)
    ensures
        label@ == match host_name {
            Some(name) => name@,
            None => "Unknown Hostname"@,
        },
{
    match host_name {
        Some(name) => name,
        None => String::from_str("Unknown Hostname"),
    }
}

} // verus!
