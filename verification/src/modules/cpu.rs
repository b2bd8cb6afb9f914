//! The processor of the host.
use vstd::prelude::*;
use crate::chars::{before_char, find_char, push_chars, to_chars, trim, trim_bounds};
use crate::fetch::{one_line, single_line, Fetch, Line, LineView};
use crate::numbers::{fixed_point, parse_decimal, parse_usize, push_fixed_point, round_half_even};
use crate::text::{decimal, option_view, push_decimal};

verus! {

/// One logical core: its clock in kilohertz, the number of the physical
/// core it belongs to, and the name of its model, each as far as known.
pub struct Core {
    pub frequency: Option<u64>,
    pub id: Option<usize>,
    pub model: Option<String>,
}

/// The logical cores of the host.
pub struct Cpu {
    pub cores: Vec<Core>,
}

/// What stands for the model of a core that names none.
pub const UNKNOWN_MODEL: &'static str = "Unknown Model";

/// The kilohertz of a gigahertz.
pub const KILOHERTZ_PER_GIGAHERTZ: u64 = 1_000_000;

/// Whether each of the cores knows its physical core.
pub open spec fn ids_known(cores: Seq<Core>) -> bool {
    forall|i: int| 0 <= i < cores.len() ==> (#[trigger] cores[i]).id is Some
}

/// The physical cores that the cores belong to.
pub open spec fn core_ids(cores: Seq<Core>) -> Set<usize> {
    Set::new(|id: usize| exists|i: int| 0 <= i < cores.len() && (#[trigger] cores[i]).id == Some(id))
}

/// The clocks of the first `n` cores that know their clock, added up.
pub open spec fn frequency_sum(cores: Seq<Core>, n: nat) -> nat
    decreases n,
{
    if n == 0 {
        0
    } else {
        frequency_sum(cores, (n - 1) as nat) + match cores[n - 1].frequency {
            Some(f) => f as nat,
            None => 0,
        }
    }
}

/// How many of the first `n` cores know their clock.
pub open spec fn frequency_count(cores: Seq<Core>, n: nat) -> nat
    decreases n,
{
    if n == 0 {
        0
    } else {
        frequency_count(cores, (n - 1) as nat) + if cores[n - 1].frequency is Some {
            1nat
        } else {
            0
        }
    }
}

/// The mean of the clocks that are known, in whole kilohertz, and no
/// clock where none is known.
pub open spec fn mean_frequency(cores: Seq<Core>) -> Option<nat> {
    if frequency_count(cores, cores.len()) > 0 {
        Some(round_half_even(frequency_sum(cores, cores.len()), frequency_count(cores, cores.len())))
    } else {
        None
    }
}

/// The name of the model as it is shown: what stands in front of the
/// first `@`, without the white space around it.
pub open spec fn model_name(model: Option<Seq<char>>) -> Seq<char> {
    trim(
        before_char(
            match model {
                Some(m) => m,
                None => UNKNOWN_MODEL@,
            },
            '@',
        ),
    )
}

/// The numbers of cores as they are shown: in round brackets the logical
/// cores and, where they are known, behind a slash the physical cores.
pub open spec fn cores_text(logical: nat, physical: Option<nat>) -> Seq<char> {
    match physical {
        Some(p) => seq!['('] + decimal(logical) + seq!['/'] + decimal(p) + seq![')'],
        None => seq!['('] + decimal(logical) + seq![')'],
    }
}

/// A clock as it is shown, where it is known: in gigahertz with three
/// digits behind the point.
pub open spec fn frequency_text(frequency: Option<nat>) -> Seq<char> {
    match frequency {
        Some(f) => " @ "@ + fixed_point(f, KILOHERTZ_PER_GIGAHERTZ as nat, 3) + " GHz"@,
        None => Seq::empty(),
    }
}

/// The number of physical cores, where every core knows its own.
pub open spec fn physical_cores(cores: Seq<Core>) -> Option<nat> {
    if ids_known(cores) {
        Some(core_ids(cores).len())
    } else {
        None
    }
}

/// A processor as it is shown: the model of its first core, the numbers
/// of its cores and their mean clock.
pub open spec fn cpu_text(cores: Seq<Core>) -> Seq<char> {
    model_name(option_view(cores[0].model)) + seq![' '] + cores_text(
        cores.len(),
        physical_cores(cores),
    ) + frequency_text(mean_frequency(cores))
}

/// The sum of clocks is bounded by their number.
pub proof fn lemma_frequency_sum_bound(cores: Seq<Core>, n: nat)
    requires
        n <= cores.len(),
    ensures
        frequency_sum(cores, n) <= frequency_count(cores, n) * u64::MAX,
        frequency_count(cores, n) <= n,
    decreases n,
{
    if n > 0 {
        lemma_frequency_sum_bound(cores, (n - 1) as nat);
        assert((frequency_count(cores, (n - 1) as nat) + 1) * u64::MAX == frequency_count(
            cores,
            (n - 1) as nat,
        ) * u64::MAX + u64::MAX) by (nonlinear_arith);
    }
}

/// The mean of numbers that a `u64` holds is held by a `u64`.
pub proof fn lemma_mean_bound(sum: nat, count: nat)
    requires
        count > 0,
        sum <= count * u64::MAX,
    ensures
        round_half_even(sum, count) <= u64::MAX,
{
    let q = sum / count;
    let r = sum % count;
    assert(sum == count * q + r) by {
        vstd::arithmetic::div_mod::lemma_fundamental_div_mod(sum as int, count as int);
    }
    assert(q <= u64::MAX && (q == u64::MAX ==> r == 0)) by (nonlinear_arith)
        requires
            sum == count * q + r,
            0 <= r < count,
            sum <= count * u64::MAX,
            count > 0,
    ;
}

impl Core {
    /// The core with the clock `frequency`, in kilohertz, the physical
    /// core that `core_id` writes as a decimal number, and the model
    /// `model`.
    pub fn new(frequency: Option<u64>, core_id: Option<&str>, model: Option<&str>) -> (core: Core)
        ensures
            core.frequency == frequency,
            option_view(core.model) == match model {
                Some(m) => Some(m@),
                None => None,
            },
            core.id == match core_id {
                Some(text) => match parse_decimal(text@) {
                    Some(n) => if n <= usize::MAX {
                        Some(n as usize)
                    } else {
                        None
                    },
                    None => None,
                },
                None => None,
            },
    {
        Core {
            frequency,
            id: match core_id {
                Some(text) => parse_usize(text),
                None => None,
            },
            model: match model {
                Some(m) => Some(m.to_owned()),
                None => None,
            },
        }
    }
}

impl Cpu {
    /// The number of logical cores.
    pub fn logical_core_count(&self) -> (count: usize)
        ensures
            count == self.cores@.len(),
    {
        self.cores.len()
    }

    /// The mean clock of the cores that know their clock, in kilohertz.
    pub fn frequency_avg(&self) -> (mean: Option<u64>)
        ensures
            mean is Some <==> mean_frequency(self.cores@) is Some,
            mean matches Some(f) ==> mean_frequency(self.cores@) == Some(f as nat),
    {
        let mut sum: u128 = 0;
        let mut count: u128 = 0;
        let mut i: usize = 0;
        while i < self.cores.len()
            invariant
                i <= self.cores.len(),
                sum == frequency_sum(self.cores@, i as nat),
                count == frequency_count(self.cores@, i as nat),
            decreases self.cores.len() - i,
        {
            proof {
                lemma_frequency_sum_bound(self.cores@, i as nat);
                assert(count * u64::MAX <= usize::MAX * u64::MAX) by (nonlinear_arith)
                    requires
                        count <= usize::MAX,
                ;
            }
            if let Some(f) = self.cores[i].frequency {
                count = count + 1;
                sum = sum + f as u128;
            }
            i = i + 1;
        }
        if count > 0 {
            proof {
                lemma_frequency_sum_bound(self.cores@, i as nat);
                lemma_mean_bound(sum as nat, count as nat);
            }
            let q = sum / count;
            let r = sum % count;
            let mean = if 2 * r < count {
                q
            } else if 2 * r > count {
                q + 1
            } else if q % 2 == 0 {
                q
            } else {
                q + 1
            };
            Some(mean as u64)
        } else {
            None
        }
    }

    /// The number of physical cores, where every core knows its own.
    pub fn physical_core_count(&self) -> (count: Option<usize>)
        ensures
            count is Some <==> ids_known(self.cores@),
            count matches Some(n) ==> n == core_ids(self.cores@).len(),
    {
        let mut seen: Vec<usize> = Vec::new();
        let mut i: usize = 0;
        while i < self.cores.len()
            invariant
                i <= self.cores.len(),
                seen@.no_duplicates(),
                seen@.len() <= i,
                ids_known(self.cores@.take(i as int)),
                seen@.to_set() == core_ids(self.cores@.take(i as int)),
            decreases self.cores.len() - i,
        {
            let ghost before = self.cores@.take(i as int);
            let ghost now = self.cores@.take(i + 1);
            if let Some(v) = self.cores[i].id {
                let mut known = false;
                let mut k: usize = 0;
                while k < seen.len()
                    invariant
                        k <= seen.len(),
                        known == exists|j: int| 0 <= j < k && seen@[j] == v,
                    decreases seen.len() - k,
                {
                    if seen[k] == v {
                        known = true;
                    }
                    k = k + 1;
                }
                let ghost old_seen = seen@;
                if !known {
                    seen.push(v);
                }
                proof {
                    assert forall|j: int| 0 <= j < now.len() implies (#[trigger] now[j]).id is Some by {
                        if j < i {
                            assert(now[j] == before[j]);
                        }
                    }
                    assert forall|id: usize| seen@.to_set().contains(id) <==> core_ids(now).contains(
                        id,
                    ) by {
                        if seen@.to_set().contains(id) {
                            if old_seen.contains(id) {
                                assert(old_seen.to_set().contains(id));
                                let j = choose|j: int|
                                    0 <= j < before.len() && (#[trigger] before[j]).id == Some(id);
                            } else {
                                assert(now[i as int].id == Some(id));
                            }
                        }
                        if core_ids(now).contains(id) {
                            let j = choose|j: int|
                                0 <= j < now.len() && (#[trigger] now[j]).id == Some(id);
                            if j < i {
                                assert(old_seen.to_set().contains(id));
                                let w = choose|w: int| 0 <= w < old_seen.len() && old_seen[w] == id;
                                assert(seen@[w] == id);
                            } else {
                                if known {
                                    let w = choose|w: int| 0 <= w < old_seen.len() && old_seen[w] == v;
                                } else {
                                    assert(seen@[seen@.len() - 1] == v);
                                }
                            }
                        }
                    }
                }
            } else {
                return None;
            }
            i = i + 1;
        }
        proof {
            assert(self.cores@.take(i as int) =~= self.cores@);
            seen@.unique_seq_to_set();
        }
        Some(seen.len())
    }

    /// The name of the model of the first core.
    pub fn model(&self) -> (name: String)
        requires
            self.cores@.len() > 0,
        ensures
            name@ == model_name(option_view(self.cores@[0].model)),
    {
        let chars = match &self.cores[0].model {
            Some(m) => to_chars(m.as_str()),
            None => to_chars(UNKNOWN_MODEL),
        };
        assert(chars@.skip(0) =~= chars@);
        let at = find_char(&chars, '@', 0);
        let (start, end) = trim_bounds(&chars, 0, at);
        let mut name = String::new();
        push_chars(&mut name, &chars, start, end);
        name
    }

    /// The model, the numbers of cores and the mean clock.
    pub fn to_string(&self) -> (text: String)
        requires
            self.cores@.len() > 0,
        ensures
            text@ == cpu_text(self.cores@),
    {
        let mut text = self.model();
        text.push(' ');
        text.push('(');
        push_decimal(&mut text, self.logical_core_count() as u128);
        if let Some(v) = self.physical_core_count() {
            text.push('/');
            push_decimal(&mut text, v as u128);
        }
        text.push(')');
        if let Some(f) = self.frequency_avg() {
            text.append(" @ ");
            push_fixed_point(&mut text, f, KILOHERTZ_PER_GIGAHERTZ, 3);
            text.append(" GHz");
        }
        text
    }
}

impl Fetch for Cpu {
    open spec fn fetchable(&self) -> bool {
        self.cores@.len() > 0
    }

    open spec fn name_view(&self) -> Seq<char> {
        "CPU"@
    }

    open spec fn content_view(&self) -> Seq<char> {
        cpu_text(self.cores@)
    }

    open spec fn lines_view(&self) -> Seq<LineView> {
        single_line(self.name_view(), self.content_view())
    }

    fn name(&self) -> (name: &'static str) {
        "CPU"
    }

    fn content(&self) -> (content: String) {
        self.to_string()
    }

    fn as_fetchlines(&self) -> (lines: Vec<Line>) {
        one_line(self.as_fetchsection())
    }
}

} // verus!
