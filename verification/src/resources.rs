//! Compute resources of a job and their rendering as cluster quantities.
//!
//! CPU is held in thousandths of a core, the finest grain a cluster accepts,
//! so that fractional cores need no floating point: 2000 is two cores, 500 is
//! half a core. Memory and disk are whole megabytes.

use vstd::prelude::*;
use crate::text::{decimal, digit_char, push_decimal};

verus! {

/// Thousandths in one core.
pub const MILLIS_PER_CORE: u64 = 1000;

/// A request or a limit: CPU, memory and scratch disk.
#[derive(Clone, Copy, Debug, PartialEq, Eq, Structural)]
pub struct JobResources {
    cpus: u64,
    ram: u32,
    disk: u32,
}

/// What a `JobResources` value holds.
pub struct JobResourcesView {
    /// CPU in thousandths of a core.
    pub cpu_millis: nat,
    /// Memory in megabytes.
    pub ram: nat,
    /// Disk in megabytes.
    pub disk: nat,
}

impl DeepView for JobResources {
    type V = JobResourcesView;

    closed spec fn deep_view(&self) -> JobResourcesView {
        JobResourcesView {
            cpu_millis: self.cpus as nat,
            ram: self.ram as nat,
            disk: self.disk as nat,
        }
    }
}

/// The digits after the decimal point of `frac` thousandths, `0 < frac < 1000`,
/// without trailing zeros: 500 gives "5", 250 gives "25", 1 gives "001".
pub open spec fn fraction_digits(frac: nat) -> Seq<char>
    recommends
        0 < frac < 1000,
{
    if frac % 100 == 0 {
        seq![digit_char(frac / 100)]
    } else if frac % 10 == 0 {
        seq![digit_char(frac / 100), digit_char((frac / 10) % 10)]
    } else {
        seq![digit_char(frac / 100), digit_char((frac / 10) % 10), digit_char(frac % 10)]
    }
}

/// CPU quantity of `millis` thousandths of a core: a bare number of cores,
/// with a decimal point only where the number is not whole.
pub open spec fn cpu_quantity(millis: nat) -> Seq<char> {
    if millis % 1000 == 0 {
        decimal(millis / 1000)
    } else {
        decimal(millis / 1000) + seq!['.'] + fraction_digits(millis % 1000)
    }
}

/// Quantity of `n` megabytes: the number followed by `M`.
pub open spec fn megabytes(n: nat) -> Seq<char> {
    decimal(n).push('M')
}

/// The quantities of `r`, one entry per resource, ordered by name.
pub open spec fn quantities(r: JobResourcesView) -> Seq<(Seq<char>, Seq<char>)> {
    seq![
        ("cpu"@, cpu_quantity(r.cpu_millis)),
        ("ephemeral-storage"@, megabytes(r.disk)),
        ("memory"@, megabytes(r.ram)),
    ]
}

/// The map that a list of named quantities stands for. Where a name occurs
/// twice, the later entry holds.
pub open spec fn quantity_map(entries: Seq<(Seq<char>, Seq<char>)>) -> Map<Seq<char>, Seq<char>>
    decreases entries.len(),
{
    if entries.len() == 0 {
        Map::empty()
    } else {
        quantity_map(entries.drop_last()).insert(entries.last().0, entries.last().1)
    }
}

/// Renders a CPU quantity.
pub fn cpu_text(millis: u64) -> (text: String)
    ensures
        text@ == cpu_quantity(millis as nat),
{
    let mut text = String::new();
    push_decimal(&mut text, millis / MILLIS_PER_CORE);
    let frac: u64 = millis % MILLIS_PER_CORE;
    if frac != 0 {
        text.append(".");
        let hundreds: u64 = frac / 100;
        let tens: u64 = (frac / 10) % 10;
        let ones: u64 = frac % 10;
        push_decimal(&mut text, hundreds);
        if tens != 0 || ones != 0 {
            push_decimal(&mut text, tens);
        }
        if ones != 0 {
            push_decimal(&mut text, ones);
        }
        proof {
            reveal_strlit(".");
            assert("."@ =~= seq!['.']);
            reveal_with_fuel(decimal, 2);
            assert(text@ =~= cpu_quantity(millis as nat));
        }
    } else {
        assert(text@ =~= cpu_quantity(millis as nat));
    }
    text
}

/// Renders a quantity of megabytes.
pub fn megabytes_text(n: u32) -> (text: String)
    ensures
        text@ == megabytes(n as nat),
{
    let mut text = String::new();
    push_decimal(&mut text, n as u64);
    text.append("M");
    proof {
        reveal_strlit("M");
        assert(text@ =~= megabytes(n as nat));
    }
    text
}

impl JobResources {
    /// Resources of `cpus` thousandths of a core, `ram` megabytes of memory
    /// and `disk` megabytes of disk.
    pub fn new(cpus: u64, ram: u32, disk: u32) -> (r: Self)
        ensures
            r.deep_view() == (JobResourcesView {
                cpu_millis: cpus as nat,
                ram: ram as nat,
                disk: disk as nat,
            }),
    {
        JobResources { cpus, ram, disk }
    }

    /// CPU in thousandths of a core.
    pub fn cpu_millis(&self) -> (cpus: u64)
        ensures
            cpus == self.deep_view().cpu_millis,
    {
        self.cpus
    }

    /// Memory in megabytes.
    pub fn ram(&self) -> (ram: u32)
        ensures
            ram == self.deep_view().ram,
    {
        self.ram
    }

    /// Disk in megabytes.
    pub fn disk(&self) -> (disk: u32)
        ensures
            disk == self.deep_view().disk,
    {
        self.disk
    }

    /// Whether these resources, taken as a limit, leave room for `request`:
    /// no less CPU, memory and disk than is asked for. Nothing in the
    /// library turns a request down on this account; the test is there for
    /// callers that want to.
    pub fn covers(&self, request: &JobResources) -> (enough: bool)
        ensures
            enough == (self.deep_view().cpu_millis >= request.deep_view().cpu_millis
                && self.deep_view().ram >= request.deep_view().ram && self.deep_view().disk
                >= request.deep_view().disk),
    {
        self.cpus >= request.cpus && self.ram >= request.ram && self.disk >= request.disk
    }

    /// The cluster quantities of these resources, ordered by name: `cpu` as a
    /// bare number of cores, `ephemeral-storage` and `memory` in megabytes.
    pub fn to_dict(&self) -> (entries: Vec<(String, String)>)
        ensures
            entries.deep_view() == quantities(self.deep_view()),
    {
        let mut entries: Vec<(String, String)> = Vec::new();
        entries.push(("cpu".to_string(), cpu_text(self.cpus)));
        entries.push(("ephemeral-storage".to_string(), megabytes_text(self.disk)));
        entries.push(("memory".to_string(), megabytes_text(self.ram)));
        assert(entries.deep_view() =~= quantities(self.deep_view()));
        entries
    }
}

/// A rendered list of quantities names exactly `cpu`, `ephemeral-storage` and
/// `memory`, each once, and maps each to the quantity of its resource.
pub proof fn lemma_quantities_map(r: JobResourcesView)
    ensures
        quantity_map(quantities(r)).dom() == set!["cpu"@, "ephemeral-storage"@, "memory"@],
        quantity_map(quantities(r))["cpu"@] == cpu_quantity(r.cpu_millis),
        quantity_map(quantities(r))["ephemeral-storage"@] == megabytes(r.disk),
        quantity_map(quantities(r))["memory"@] == megabytes(r.ram),
        quantities(r).len() == 3,
{
    reveal_strlit("cpu");
    reveal_strlit("ephemeral-storage");
    reveal_strlit("memory");
    let q = quantities(r);
    reveal_with_fuel(quantity_map, 4);
    assert(q.drop_last().drop_last().drop_last() =~= Seq::empty());
    assert(q.drop_last().last() == q[1]);
    assert(q.drop_last().drop_last().last() == q[0]);
    assert("cpu"@.len() != "memory"@.len());
    assert("cpu"@.len() != "ephemeral-storage"@.len());
    assert("memory"@.len() != "ephemeral-storage"@.len());
    assert(quantity_map(q).dom() =~= set!["cpu"@, "ephemeral-storage"@, "memory"@]);
}

} // verus!
