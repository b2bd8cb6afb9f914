//! The memory of the host: how much of it is in use, and what the
//! firmware tells of the modules it is made of.
use vstd::prelude::*;
use crate::chars::{contains, matches_at, occurs_at, push_chars, str_contains, str_equal, to_chars};
use crate::error::Error;
use crate::fetch::{line_views, Fetch, Line, LineView};
use crate::memunit::MemUnits;
use crate::numbers::{fixed_point, parse_decimal, parse_usize, push_fixed_point};
use crate::text::{decimal, join_strings, join_with, push_decimal, string_views};
use crate::{GIBIBYTE, KIBIBYTE, MEBIBYTE};

verus! {

/// The amounts of memory that the kernel reports, in bytes.
pub struct MemStats {
    pub total: u64,
    pub free: u64,
    pub avail: u64,
    pub buffers: u64,
    pub cached: u64,
    pub swap_total: u64,
    pub swap_free: u64,
}

/// What the firmware tells of one memory module, as pairs of the name of
/// a property and its value.
pub struct MemDevice {
    pub properties: Vec<(String, String)>,
}

/// The memory of the host.
pub struct Memory {
    pub display_unit: Option<MemUnits>,
    pub meminfo: MemStats,
    pub devices: Option<Vec<MemDevice>>,
}

/// The property that holds the number of memory modules.
pub const DEVICE_COUNT: &'static str = "MEMORY_ARRAY_NUM_DEVICE";

/// Pairs of a name and a value as sequences of characters.
pub open spec fn pair_views(pairs: Seq<(String, String)>) -> Seq<(Seq<char>, Seq<char>)> {
    Seq::new(pairs.len(), |i: int| (pairs[i].0@, pairs[i].1@))
}

/// The properties of memory modules as sequences of characters.
pub open spec fn device_views(devices: Seq<MemDevice>) -> Seq<Seq<(Seq<char>, Seq<char>)>> {
    Seq::new(devices.len(), |i: int| pair_views(devices[i].properties@))
}

/// The value of the property `name`: that of the last pair with this
/// name, and none where no pair has it.
pub open spec fn property(properties: Seq<(Seq<char>, Seq<char>)>, name: Seq<char>) -> Option<
    Seq<char>,
>
    decreases properties.len(),
{
    if properties.len() == 0 {
        None
    } else if properties.last().0 == name {
        Some(properties.last().1)
    } else {
        property(properties.drop_last(), name)
    }
}

/// What stands in front of the names of the properties of module `index`.
pub open spec fn device_prefix(index: nat) -> Seq<char> {
    "MEMORY_DEVICE_"@ + decimal(index) + seq!['_']
}

/// The properties whose names start with `prefix`, in their order, the
/// names without the prefix.
pub open spec fn with_prefix(properties: Seq<(Seq<char>, Seq<char>)>, prefix: Seq<char>) -> Seq<
    (Seq<char>, Seq<char>),
>
    decreases properties.len(),
{
    if properties.len() == 0 {
        Seq::empty()
    } else {
        let rest = with_prefix(properties.drop_last(), prefix);
        let last = properties.last();
        if occurs_at(last.0, prefix, 0) {
            rest.push((last.0.skip(prefix.len() as int), last.1))
        } else {
            rest
        }
    }
}

/// The properties of the first `count` memory modules.
pub open spec fn devices_of(properties: Seq<(Seq<char>, Seq<char>)>, count: nat) -> Seq<
    Seq<(Seq<char>, Seq<char>)>,
> {
    Seq::new(count, |i: int| with_prefix(properties, device_prefix(i as nat)))
}

/// The position of the first property whose name holds `pattern`, and the
/// number of properties where there is none.
pub open spec fn first_named(properties: Seq<(Seq<char>, Seq<char>)>, pattern: Seq<char>) -> int
    decreases properties.len(),
{
    if properties.len() == 0 {
        0
    } else if contains(properties[0].0, pattern) {
        0
    } else {
        1 + first_named(properties.skip(1), pattern)
    }
}

/// The values that the modules have for the property `name`, in the order
/// of the modules; a module without the property has none.
pub open spec fn values_of(devices: Seq<Seq<(Seq<char>, Seq<char>)>>, name: Seq<char>) -> Seq<
    Seq<char>,
>
    decreases devices.len(),
{
    if devices.len() == 0 {
        Seq::empty()
    } else {
        let rest = values_of(devices.drop_last(), name);
        match property(devices.last(), name) {
            Some(value) => rest.push(value),
            None => rest,
        }
    }
}

/// The texts of `texts` in the order in which each occurs first, each of
/// them once.
pub open spec fn distinct(texts: Seq<Seq<char>>) -> Seq<Seq<char>>
    decreases texts.len(),
{
    if texts.len() == 0 {
        Seq::empty()
    } else {
        let rest = distinct(texts.drop_last());
        if rest.contains(texts.last()) {
            rest
        } else {
            rest.push(texts.last())
        }
    }
}

/// The number that a text writes, where it writes one that a `usize`
/// holds.
pub open spec fn parsed(text: Seq<char>) -> Option<usize> {
    match parse_decimal(text) {
        Some(n) => if n <= usize::MAX {
            Some(n as usize)
        } else {
            None
        },
        None => None,
    }
}

/// The speeds of the modules that tell their speed as a number, in the
/// order of the modules.
pub open spec fn speeds_of(devices: Seq<Seq<(Seq<char>, Seq<char>)>>) -> Seq<usize>
    decreases devices.len(),
{
    if devices.len() == 0 {
        Seq::empty()
    } else {
        let rest = speeds_of(devices.drop_last());
        match property(devices.last(), "CONFIGURED_SPEED_MTS"@) {
            Some(value) => match parsed(value) {
                Some(speed) => rest.push(speed),
                None => rest,
            },
            None => rest,
        }
    }
}

/// The numbers of `numbers` added up.
pub open spec fn sum_of(numbers: Seq<usize>) -> nat
    decreases numbers.len(),
{
    if numbers.len() == 0 {
        0
    } else {
        sum_of(numbers.drop_last()) + numbers.last() as nat
    }
}

/// The mean of `numbers`, rounded down, and 0 where there is no number.
pub open spec fn mean_of(numbers: Seq<usize>) -> nat {
    if numbers.len() > 0 {
        sum_of(numbers) / numbers.len()
    } else {
        0
    }
}

/// A list of texts as it is shown: the texts with a comma and a blank
/// between each two, and nothing to show where there is no text.
pub open spec fn listed(texts: Seq<Seq<char>>) -> Option<Seq<char>> {
    if texts.len() == 0 {
        None
    } else {
        Some(join_with(texts, seq![',', ' ']))
    }
}

/// An amount in use and the amount in total as they are shown: each in
/// units of `unit_bytes` bytes with two digits behind the point and the
/// name of the unit, and a slash between them.
pub open spec fn amounts_text(used: nat, total: nat, unit_bytes: nat, unit: Seq<char>) -> Seq<
    char,
> {
    fixed_point(used, unit_bytes, 2) + unit + seq![' ', '/', ' '] + fixed_point(
        total,
        unit_bytes,
        2,
    ) + unit
}

/// What the modules add to the amounts: their types, in round brackets
/// their form factors, and their mean speed where it is above 0.
pub open spec fn modules_text(devices: Seq<Seq<(Seq<char>, Seq<char>)>>) -> Seq<char> {
    (match listed(distinct(values_of(devices, "TYPE"@))) {
        Some(types) => seq![' '] + types,
        None => Seq::empty(),
    }) + (match listed(distinct(values_of(devices, "FORM_FACTOR"@))) {
        Some(factors) => seq![' ', '('] + factors + seq![')'],
        None => Seq::empty(),
    }) + (if mean_of(speeds_of(devices)) > 0 {
        " @ "@ + decimal(mean_of(speeds_of(devices))) + " MHz"@
    } else {
        Seq::empty()
    })
}

/// The modules of a memory, and no module where the firmware tells of
/// none.
pub open spec fn modules_of(devices: Option<Vec<MemDevice>>) -> Seq<Seq<(Seq<char>, Seq<char>)>> {
    match devices {
        Some(d) => device_views(d@),
        None => Seq::empty(),
    }
}

/// The list `strings` as it is shown.
pub fn print_strings(strings: Vec<String>) -> (list: Option<String>)
    ensures
        crate::text::option_view(list) == listed(string_views(strings@)),
{
    if strings.len() == 0 {
        None
    } else {
        proof {
            reveal_strlit(", ");
            assert(", "@ =~= seq![',', ' ']);
        }
        Some(join_strings(&strings, ", "))
    }
}

/// The numbers of `f` added up.
pub fn sum_frequency(f: Vec<usize>) -> (sum: usize)
    requires
        sum_of(f@) <= usize::MAX,
    ensures
        sum == sum_of(f@),
{
    let mut sum: usize = 0;
    let mut i: usize = 0;
    while i < f.len()
        invariant
            i <= f.len(),
            sum_of(f@) <= usize::MAX,
            sum == sum_of(f@.take(i as int)),
        decreases f.len() - i,
    {
        proof {
            assert(f@.take(i + 1).drop_last() =~= f@.take(i as int));
            lemma_sum_of_grows(f@, i + 1);
        }
        sum = sum + f[i];
        i = i + 1;
    }
    assert(f@.take(i as int) =~= f@);
    sum
}

/// The sum of the first numbers is no larger than the sum of all.
pub proof fn lemma_sum_of_grows(numbers: Seq<usize>, k: int)
    requires
        0 <= k <= numbers.len(),
    ensures
        sum_of(numbers.take(k)) <= sum_of(numbers),
    decreases numbers.len() - k,
{
    if k < numbers.len() {
        lemma_sum_of_grows(numbers, k + 1);
        assert(numbers.take(k + 1).drop_last() =~= numbers.take(k));
    } else {
        assert(numbers.take(k) =~= numbers);
    }
}

/// The mean of the numbers of `f`, rounded down, and 0 for no number.
pub fn avg_frequency(f: Vec<usize>) -> (mean: usize)
    requires
        sum_of(f@) <= usize::MAX,
    ensures
        mean == mean_of(f@),
{
    let count = f.len();
    if count > 0 {
        sum_frequency(f) / count
    } else {
        0
    }
}

/// The amounts `used` and `total`, in units of `unit_bytes` bytes.
pub fn display_mem_unit(used: u64, total: u64, unit_bytes: u64, unit: &str) -> (text: String)
    requires
        unit_bytes > 0,
    ensures
        text@ == amounts_text(used as nat, total as nat, unit_bytes as nat, unit@),
{
    let mut text = String::new();
    push_fixed_point(&mut text, used, unit_bytes, 2);
    text.append(unit);
    text.push(' ');
    text.push('/');
    text.push(' ');
    push_fixed_point(&mut text, total, unit_bytes, 2);
    text.append(unit);
    text
}

/// The texts of `texts` in the order in which each occurs first, each of
/// them once.
pub fn distinct_strings(texts: Vec<String>) -> (kept: Vec<String>)
    ensures
        string_views(kept@) == distinct(string_views(texts@)),
{
    let ghost views = string_views(texts@);
    let mut kept: Vec<String> = Vec::new();
    let mut i: usize = 0;
    while i < texts.len()
        invariant
            i <= texts.len(),
            views == string_views(texts@),
            string_views(kept@) == distinct(views.take(i as int)),
        decreases texts.len() - i,
    {
        let ghost before = string_views(kept@);
        let mut known = false;
        let mut k: usize = 0;
        while k < kept.len()
            invariant
                k <= kept.len(),
                i < texts.len(),
                before == string_views(kept@),
                known == exists|j: int| 0 <= j < k && before[j] == texts@[i as int]@,
            decreases kept.len() - k,
        {
            if str_equal(kept[k].as_str(), texts[i].as_str()) {
                assert(before[k as int] == texts@[i as int]@);
                known = true;
            }
            k = k + 1;
        }
        assert(views.take(i + 1).drop_last() =~= views.take(i as int));
        if !known {
            kept.push(texts[i].clone());
        }
        i = i + 1;
    }
    assert(views.take(i as int) =~= views);
    kept
}

impl MemStats {
    /// The amounts of memory that the kernel reports in kibibytes.
    pub fn new(
        total: u64,
        free: u64,
        avail: u64,
        buffers: u64,
        cached: u64,
        swap_total: u64,
        swap_free: u64,
    ) -> (stats: MemStats)
        requires
            total * KIBIBYTE <= u64::MAX,
            free * KIBIBYTE <= u64::MAX,
            avail * KIBIBYTE <= u64::MAX,
            buffers * KIBIBYTE <= u64::MAX,
            cached * KIBIBYTE <= u64::MAX,
            swap_total * KIBIBYTE <= u64::MAX,
            swap_free * KIBIBYTE <= u64::MAX,
        ensures
            stats.total == total * KIBIBYTE,
            stats.free == free * KIBIBYTE,
            stats.avail == avail * KIBIBYTE,
            stats.buffers == buffers * KIBIBYTE,
            stats.cached == cached * KIBIBYTE,
            stats.swap_total == swap_total * KIBIBYTE,
            stats.swap_free == swap_free * KIBIBYTE,
    {
        MemStats {
            total: total * KIBIBYTE,
            free: free * KIBIBYTE,
            avail: avail * KIBIBYTE,
            buffers: buffers * KIBIBYTE,
            cached: cached * KIBIBYTE,
            swap_total: swap_total * KIBIBYTE,
            swap_free: swap_free * KIBIBYTE,
        }
    }
}

impl MemDevice {
    /// The memory module `index`, as the properties of the firmware
    /// describe it: the properties whose names start with the prefix of
    /// the module, the names without the prefix.
    pub fn new(index: usize, properties: &Vec<(String, String)>) -> (device: MemDevice)
        ensures
            pair_views(device.properties@) == with_prefix(
                pair_views(properties@),
                device_prefix(index as nat),
            ),
    {
        let mut prefix = String::new();
        prefix.append("MEMORY_DEVICE_");
        push_decimal(&mut prefix, index as u128);
        prefix.push('_');
        assert(prefix@ =~= device_prefix(index as nat));
        let prefix = to_chars(prefix.as_str());
        let ghost views = pair_views(properties@);
        let mut kept: Vec<(String, String)> = Vec::new();
        let mut i: usize = 0;
        while i < properties.len()
            invariant
                i <= properties.len(),
                views == pair_views(properties@),
                pair_views(kept@) == with_prefix(views.take(i as int), prefix@),
            decreases properties.len() - i,
        {
            let ghost before = pair_views(kept@);
            let name = to_chars(properties[i].0.as_str());
            assert(views.take(i + 1).drop_last() =~= views.take(i as int));
            if matches_at(&name, &prefix, 0) {
                let mut clean_name = String::new();
                push_chars(&mut clean_name, &name, prefix.len(), name.len());
                kept.push((clean_name, properties[i].1.clone()));
                assert(pair_views(kept@) =~= before.push(
                    (name@.skip(prefix@.len() as int), views[i as int].1),
                ));
            }
            i = i + 1;
        }
        assert(views.take(i as int) =~= views);
        MemDevice { properties: kept }
    }

    /// The speed of the module, where it tells one as a number.
    pub fn frequency(&self) -> (speed: Option<usize>)
        ensures
            speed == match property(pair_views(self.properties@), "CONFIGURED_SPEED_MTS"@) {
                Some(value) => parsed(value),
                None => None,
            },
    {
        match self.pull_value("CONFIGURED_SPEED_MTS") {
            Some(v) => parse_usize(v.as_str()),
            None => None,
        }
    }

    /// The maker of the module, where it tells one.
    pub fn manufactuer(&self) -> (maker: Option<String>)
        ensures
            crate::text::option_view(maker) == property(
                pair_views(self.properties@),
                "MANUFACTURER"@,
            ),
    {
        self.pull_value("MANUFACTURER")
    }

    /// The form factor of the module, where it tells one.
    pub fn form_factor(&self) -> (factor: Option<String>)
        ensures
            crate::text::option_view(factor) == property(
                pair_views(self.properties@),
                "FORM_FACTOR"@,
            ),
    {
        self.pull_value("FORM_FACTOR")
    }

    /// The type of the module, where it tells one.
    pub fn get_type(&self) -> (kind: Option<String>)
        ensures
            crate::text::option_view(kind) == property(pair_views(self.properties@), "TYPE"@),
    {
        self.pull_value("TYPE")
    }

    /// The value of the property `name`, where the module has it.
    pub fn pull_value(&self, name: &str) -> (value: Option<String>)
        ensures
            crate::text::option_view(value) == property(pair_views(self.properties@), name@),
    {
        let ghost views = pair_views(self.properties@);
        let mut i: usize = self.properties.len();
        assert(views.take(i as int) =~= views);
        while i > 0
            invariant
                i <= self.properties.len(),
                views == pair_views(self.properties@),
                property(views.take(i as int), name@) == property(views, name@),
            decreases i,
        {
            assert(views.take(i as int).drop_last() =~= views.take(i - 1));
            if str_equal(self.properties[i - 1].0.as_str(), name) {
                return Some(self.properties[i - 1].1.clone());
            }
            i = i - 1;
        }
        None
    }
}

/// The values that the modules have for the property `name`.
fn collect_values(devices: &Option<Vec<MemDevice>>, name: &str) -> (values: Vec<String>)
    ensures
        string_views(values@) == values_of(modules_of(*devices), name@),
{
    let mut values: Vec<String> = Vec::new();
    if let Some(v) = devices {
        let ghost views = device_views(v@);
        let mut i: usize = 0;
        while i < v.len()
            invariant
                i <= v.len(),
                views == device_views(v@),
                string_views(values@) == values_of(views.take(i as int), name@),
            decreases v.len() - i,
        {
            let ghost before = string_views(values@);
            assert(views.take(i + 1).drop_last() =~= views.take(i as int));
            if let Some(x) = v[i].pull_value(name) {
                values.push(x);
                assert(string_views(values@) =~= before.push(x@));
            }
            i = i + 1;
        }
        assert(views.take(i as int) =~= views);
    } else {
        assert(string_views(values@) =~= values_of(modules_of(*devices), name@));
    }
    values
}

impl Memory {
    /// The memory with the amounts `meminfo` and the modules that the
    /// properties of the firmware describe. The property whose name holds
    /// `DEVICE_COUNT` tells how many modules there are.
    pub fn new(
        display_unit: Option<MemUnits>,
        meminfo: MemStats,
        properties: &Vec<(String, String)>,
    ) -> (memory: Result<Memory, Error>)
        ensures
            ({
                let views = pair_views(properties@);
                let at = first_named(views, DEVICE_COUNT@);
                if at >= views.len() {
                    memory == Err::<Memory, Error>(Error::OsStr)
                } else {
                    match parsed(views[at].1) {
                        None => memory == Err::<Memory, Error>(Error::ParseInt),
                        Some(count) => {
                            &&& memory matches Ok(m)
                            &&& m.meminfo == meminfo
                            &&& m.display_unit == display_unit
                            &&& m.devices is Some
                            &&& modules_of(m.devices) == devices_of(views, count as nat)
                        },
                    }
                }
            }),
    {
        let ghost views = pair_views(properties@);
        let mut at: usize = 0;
        assert(views.skip(0) =~= views);
        while at < properties.len() && !str_contains(properties[at].0.as_str(), DEVICE_COUNT)
            invariant
                at <= properties.len(),
                views == pair_views(properties@),
                first_named(views, DEVICE_COUNT@) == at + first_named(
                    views.skip(at as int),
                    DEVICE_COUNT@,
                ),
            decreases properties.len() - at,
        {
            assert(views.skip(at as int)[0] == views[at as int]);
            assert(views.skip(at as int).skip(1) =~= views.skip(at + 1));
            at = at + 1;
        }
        if at == properties.len() {
            assert(views.skip(at as int).len() == 0);
            return Err(Error::OsStr);
        }
        assert(views.skip(at as int)[0] == views[at as int]);
        let count = match parse_usize(properties[at].1.as_str()) {
            Some(count) => count,
            None => {
                return Err(Error::ParseInt);
            },
        };
        let mut devs: Vec<MemDevice> = Vec::new();
        let mut i: usize = 0;
        while i < count
            invariant
                i <= count,
                views == pair_views(properties@),
                device_views(devs@) == devices_of(views, i as nat),
            decreases count - i,
        {
            let ghost before = device_views(devs@);
            let device = MemDevice::new(i, properties);
            devs.push(device);
            assert(device_views(devs@) =~= before.push(pair_views(device.properties@)));
            i = i + 1;
            assert(device_views(devs@) =~= devices_of(views, i as nat));
        }
        Ok(Memory { display_unit, meminfo, devices: Some(devs) })
    }

    /// Whether the amounts and the speeds can be put into numbers: no
    /// more memory is available than there is, and the speeds of the
    /// modules can be added up.
    pub open spec fn displayable(&self) -> bool {
        &&& self.meminfo.avail <= self.meminfo.total
        &&& self.meminfo.swap_free <= self.meminfo.swap_total
        &&& sum_of(speeds_of(modules_of(self.devices))) <= usize::MAX
    }

    /// Whether the amounts and the speeds can be put into numbers.
    pub fn is_displayable(&self) -> (displayable: bool)
        ensures
            displayable == self.displayable(),
    {
        if self.meminfo.avail > self.meminfo.total || self.meminfo.swap_free
            > self.meminfo.swap_total {
            return false;
        }
        let speeds = self.get_speed();
        let mut sum: usize = 0;
        let mut i: usize = 0;
        while i < speeds.len()
            invariant
                i <= speeds.len(),
                speeds@ == speeds_of(modules_of(self.devices)),
                self.meminfo.avail <= self.meminfo.total,
                self.meminfo.swap_free <= self.meminfo.swap_total,
                sum == sum_of(speeds@.take(i as int)),
            decreases speeds.len() - i,
        {
            proof {
                assert(speeds@.take(i + 1).drop_last() =~= speeds@.take(i as int));
                lemma_sum_of_grows(speeds@, i + 1);
            }
            match sum.checked_add(speeds[i]) {
                Some(next) => {
                    sum = next;
                },
                None => {
                    return false;
                },
            }
            i = i + 1;
        }
        assert(speeds@.take(i as int) =~= speeds@);
        true
    }

    /// The memory in use, in bytes.
    pub fn used(&self) -> (used: u64)
        requires
            self.meminfo.avail <= self.meminfo.total,
        ensures
            used == self.meminfo.total - self.meminfo.avail,
    {
        self.meminfo.total - self.meminfo.avail
    }

    /// The swap space in use, in bytes.
    pub fn swap_used(&self) -> (used: u64)
        requires
            self.meminfo.swap_free <= self.meminfo.swap_total,
        ensures
            used == self.meminfo.swap_total - self.meminfo.swap_free,
    {
        self.meminfo.swap_total - self.meminfo.swap_free
    }

    /// The memory in use and in total, in the unit chosen for the memory,
    /// which is gibibytes where none is chosen, and what the modules add.
    pub fn display(&self) -> (text: String)
        requires
            self.displayable(),
        ensures
            text@ == self.memory_text(),
    {
        match self.display_unit {
            None | Some(MemUnits::GiB) => self.display_gb(),
            Some(MemUnits::MiB) => self.display_mb(),
        }
    }

    /// The text of `display`.
    pub open spec fn memory_text(&self) -> Seq<char> {
        match self.display_unit {
            Some(MemUnits::MiB) => self.unit_text(MEBIBYTE as nat, "MiB"@),
            _ => self.unit_text(GIBIBYTE as nat, "GiB"@),
        }
    }

    /// The memory in use and in total in units of `unit_bytes` bytes, and
    /// what the modules add.
    pub open spec fn unit_text(&self, unit_bytes: nat, unit: Seq<char>) -> Seq<char> {
        amounts_text(
            (self.meminfo.total - self.meminfo.avail) as nat,
            self.meminfo.total as nat,
            unit_bytes,
            unit,
        ) + modules_text(modules_of(self.devices))
    }

    /// The text of `display_swap`.
    pub open spec fn swap_text(&self) -> Seq<char> {
        amounts_text(
            (self.meminfo.swap_total - self.meminfo.swap_free) as nat,
            self.meminfo.swap_total as nat,
            GIBIBYTE as nat,
            "GiB"@,
        )
    }

    /// The memory in use and in total in gibibytes, and what the modules
    /// add.
    pub fn display_gb(&self) -> (text: String)
        requires
            self.displayable(),
        ensures
            text@ == self.unit_text(GIBIBYTE as nat, "GiB"@),
    {
        self.display_unit(self.used(), self.meminfo.total, GIBIBYTE, "GiB")
    }

    /// The memory in use and in total in mebibytes, and what the modules
    /// add.
    pub fn display_mb(&self) -> (text: String)
        requires
            self.displayable(),
        ensures
            text@ == self.unit_text(MEBIBYTE as nat, "MiB"@),
    {
        self.display_unit(self.used(), self.meminfo.total, MEBIBYTE, "MiB")
    }

    /// The swap space in use and in total, in gibibytes.
    pub fn display_swap(&self) -> (text: String)
        requires
            self.meminfo.swap_free <= self.meminfo.swap_total,
        ensures
            text@ == self.swap_text(),
    {
        display_mem_unit(self.swap_used(), self.meminfo.swap_total, GIBIBYTE, "GiB")
    }

    /// The types of the modules, each once.
    pub fn get_type(&self) -> (types: Vec<String>)
        ensures
            string_views(types@) == distinct(values_of(modules_of(self.devices), "TYPE"@)),
    {
        distinct_strings(collect_values(&self.devices, "TYPE"))
    }

    /// The form factors of the modules, each once.
    pub fn get_formfactor(&self) -> (factors: Vec<String>)
        ensures
            string_views(factors@) == distinct(
                values_of(modules_of(self.devices), "FORM_FACTOR"@),
            ),
    {
        distinct_strings(collect_values(&self.devices, "FORM_FACTOR"))
    }

    /// The speeds of the modules that tell their speed.
    pub fn get_speed(&self) -> (speeds: Vec<usize>)
        ensures
            speeds@ == speeds_of(modules_of(self.devices)),
    {
        let mut speeds: Vec<usize> = Vec::new();
        if let Some(v) = &self.devices {
            let ghost views = device_views(v@);
            let mut i: usize = 0;
            while i < v.len()
                invariant
                    i <= v.len(),
                    views == device_views(v@),
                    speeds@ == speeds_of(views.take(i as int)),
                decreases v.len() - i,
            {
                assert(views.take(i + 1).drop_last() =~= views.take(i as int));
                if let Some(x) = v[i].frequency() {
                    speeds.push(x);
                }
                i = i + 1;
            }
            assert(views.take(i as int) =~= views);
        } else {
            assert(speeds@ =~= speeds_of(modules_of(self.devices)));
        }
        speeds
    }

    /// The amounts `used` and `total` in units of `unit_bytes` bytes, and
    /// what the modules add.
    pub fn display_unit(&self, used: u64, total: u64, unit_bytes: u64, unit: &str) -> (text: String)
        requires
            unit_bytes > 0,
            sum_of(speeds_of(modules_of(self.devices))) <= usize::MAX,
        ensures
            text@ == amounts_text(used as nat, total as nat, unit_bytes as nat, unit@)
                + modules_text(modules_of(self.devices)),
    {
        let typestring = print_strings(self.get_type());
        let avg_freq = avg_frequency(self.get_speed());
        let formfactors = print_strings(self.get_formfactor());
        let mut s = display_mem_unit(used, total, unit_bytes, unit);
        if let Some(v) = typestring {
            s.push(' ');
            s.append(v.as_str());
        }
        if let Some(v) = formfactors {
            s.push(' ');
            s.push('(');
            s.append(v.as_str());
            s.push(')');
        }
        if avg_freq > 0 {
            s.append(" @ ");
            push_decimal(&mut s, avg_freq as u128);
            s.append(" MHz");
        }
        s
    }

    /// The memory, as `display` shows it.
    pub fn to_string(&self) -> (text: String)
        requires
            self.displayable(),
        ensures
            text@ == self.memory_text(),
    {
        self.display()
    }
}

impl Fetch for Memory {
    open spec fn fetchable(&self) -> bool {
        self.displayable()
    }

    open spec fn name_view(&self) -> Seq<char> {
        "Memory"@
    }

    open spec fn content_view(&self) -> Seq<char> {
        self.memory_text()
    }

    /// Two lines: the memory, and the swap space below it.
    open spec fn lines_view(&self) -> Seq<LineView> {
        seq![
            LineView { name: "Memory"@, content: self.memory_text() },
            LineView { name: "Swap"@, content: self.swap_text() },
        ]
    }

    fn name(&self) -> (name: &'static str) {
        "Memory"
    }

    fn content(&self) -> (content: String) {
        self.to_string()
    }

    fn as_fetchlines(&self) -> (lines: Vec<Line>) {
        let mut lines: Vec<Line> = Vec::new();
        lines.push(self.as_fetchsection());
        let swap = self.display_swap();
        lines.push(Line::new("Swap", swap.as_str()));
        lines
    }
}

} // verus!
