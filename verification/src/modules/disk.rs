//! The capacity of the drives of the host.
use vstd::prelude::*;
use crate::chars::str_equal;
use crate::fetch::{one_line, single_line, Fetch, Line, LineView};
use crate::numbers::{fixed_point, push_fixed_point};
use crate::{GIGABYTE, TERABYTE};

verus! {

/// The capacity of all drives together, in bytes.
pub struct Disk {
    pub capacity: u64,
}

/// The identifiers and the sizes of drives as sequences and numbers.
pub open spec fn drive_views(drives: Seq<(String, u64)>) -> Seq<(Seq<char>, nat)> {
    Seq::new(drives.len(), |i: int| (drives[i].0@, drives[i].1 as nat))
}

/// Whether the drive at position `i` is reported again behind it.
pub open spec fn reported_again(drives: Seq<(Seq<char>, nat)>, i: int) -> bool {
    exists|j: int| i < j < drives.len() && #[trigger] drives[j].0 == drives[i].0
}

/// The sizes of the first `n` drives together, each drive counted once
/// however often it is reported: it counts with the size of its last
/// report.
pub open spec fn total_capacity(drives: Seq<(Seq<char>, nat)>, n: nat) -> nat
    decreases n,
{
    if n == 0 {
        0
    } else {
        total_capacity(drives, (n - 1) as nat) + if reported_again(drives, n - 1) {
            0
        } else {
            drives[n - 1].1
        }
    }
}

/// A capacity as it is shown: in terabytes from one terabyte on and in
/// gigabytes below, with one digit behind the point.
pub open spec fn capacity_text(capacity: nat) -> Seq<char> {
    if capacity < TERABYTE {
        fixed_point(capacity, GIGABYTE as nat, 1) + " GB"@
    } else {
        fixed_point(capacity, TERABYTE as nat, 1) + " TB"@
    }
}

impl Disk {
    /// The capacity of the drives `drives`, each given by its identifier
    /// and its size in bytes. A drive that is reported more than once, as
    /// it is once for each of its partitions, counts once.
    pub fn new(drives: &Vec<(String, u64)>) -> (disk: Disk)
        requires
            total_capacity(drive_views(drives@), drives@.len()) <= u64::MAX,
        ensures
            disk.capacity == total_capacity(drive_views(drives@), drives@.len()),
    {
        let ghost views = drive_views(drives@);
        let mut capacity: u64 = 0;
        let mut i: usize = 0;
        while i < drives.len()
            invariant
                i <= drives.len(),
                views == drive_views(drives@),
                total_capacity(views, drives@.len()) <= u64::MAX,
                capacity == total_capacity(views, i as nat),
            decreases drives.len() - i,
        {
            let again = Self::reported_later(drives, i);
            proof {
                lemma_total_capacity_grows(views, (i + 1) as nat, drives@.len());
            }
            if !again {
                capacity = capacity + drives[i].1;
            }
            i = i + 1;
        }
        Disk { capacity }
    }

    /// The capacity of the drives `drives`, where a `u64` can hold it.
    pub fn try_new(drives: &Vec<(String, u64)>) -> (disk: Option<Disk>)
        ensures
            disk is Some <==> total_capacity(drive_views(drives@), drives@.len()) <= u64::MAX,
            disk matches Some(d) ==> d.capacity == total_capacity(
                drive_views(drives@),
                drives@.len(),
            ),
    {
        let ghost views = drive_views(drives@);
        let mut capacity: u64 = 0;
        let mut i: usize = 0;
        while i < drives.len()
            invariant
                i <= drives.len(),
                views == drive_views(drives@),
                capacity == total_capacity(views, i as nat),
            decreases drives.len() - i,
        {
            proof {
                lemma_total_capacity_grows(views, (i + 1) as nat, drives@.len());
            }
            if !Self::reported_later(drives, i) {
                match capacity.checked_add(drives[i].1) {
                    Some(sum) => {
                        capacity = sum;
                    },
                    None => {
                        return None;
                    },
                }
            }
            i = i + 1;
        }
        Some(Disk { capacity })
    }

    /// Whether the drive at position `i` is reported again behind it.
    fn reported_later(drives: &Vec<(String, u64)>, i: usize) -> (again: bool)
        requires
            i < drives.len(),
        ensures
            again == reported_again(drive_views(drives@), i as int),
    {
        let ghost views = drive_views(drives@);
        let mut j: usize = i + 1;
        while j < drives.len()
            invariant
                i < j <= drives.len(),
                views == drive_views(drives@),
                forall|k: int| i < k < j ==> #[trigger] views[k].0 != views[i as int].0,
            decreases drives.len() - j,
        {
            if str_equal(drives[j].0.as_str(), drives[i].0.as_str()) {
                assert(views[j as int].0 == views[i as int].0);
                return true;
            }
            j = j + 1;
        }
        false
    }

    /// The capacity in gigabytes or, from one terabyte on, in terabytes.
    pub fn to_string(&self) -> (text: String)
        ensures
            text@ == capacity_text(self.capacity as nat),
    {
        let mut text = String::new();
        if self.capacity < TERABYTE {
            push_fixed_point(&mut text, self.capacity, GIGABYTE, 1);
            text.append(" GB");
        } else {
            push_fixed_point(&mut text, self.capacity, TERABYTE, 1);
            text.append(" TB");
        }
        text
    }
}

/// The capacity of more drives is no smaller.
pub proof fn lemma_total_capacity_grows(drives: Seq<(Seq<char>, nat)>, n: nat, m: nat)
    requires
        n <= m,
    ensures
        total_capacity(drives, n) <= total_capacity(drives, m),
    decreases m - n,
{
    if n < m {
        lemma_total_capacity_grows(drives, n, (m - 1) as nat);
    }
}

impl Fetch for Disk {
    open spec fn fetchable(&self) -> bool {
        true
    }

    open spec fn name_view(&self) -> Seq<char> {
        "Disk"@
    }

    open spec fn content_view(&self) -> Seq<char> {
        capacity_text(self.capacity as nat)
    }

    open spec fn lines_view(&self) -> Seq<LineView> {
        single_line(self.name_view(), self.content_view())
    }

    fn name(&self) -> (name: &'static str) {
        "Disk"
    }

    fn content(&self) -> (content: String) {
        self.to_string()
    }

    fn as_fetchlines(&self) -> (lines: Vec<Line>) {
        one_line(self.as_fetchsection())
    }
}

} // verus!
