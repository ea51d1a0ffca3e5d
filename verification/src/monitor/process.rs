//! Snapshots of running processes and the ordered, limited listings that a
//! process query answers with.

use vstd::prelude::*;
use crate::util::data_container::{DataContainer, DataValue, Float64, InfoMap};
use crate::util::text::chars_of;

verus! {

/// What the engine keeps of one running process.
pub struct ProcessSnapshot {
    pub pid: u32,
    pub parent: Option<u32>,
    pub name: String,
    pub cmd: Vec<String>,
    pub exe: Option<String>,
    pub cwd: Option<String>,
    pub root: Option<String>,
    pub environ: Vec<String>,
    pub status: String,
    pub start_time: u64,
    pub run_time: u64,
    pub cpu_usage: Float64,
    pub memory: u64,
    pub virtual_memory: u64,
    pub total_read_bytes: u64,
    pub read_bytes: u64,
    pub total_written_bytes: u64,
    pub written_bytes: u64,
}

/// Two snapshots describe the same process in every field.
pub open spec fn same_process(a: ProcessSnapshot, b: ProcessSnapshot) -> bool {
    &&& a.pid == b.pid
    &&& a.parent == b.parent
    &&& a.name@ == b.name@
    &&& a.cmd@.map_values(|s: String| s@) == b.cmd@.map_values(|s: String| s@)
    &&& opt_text_value(a.exe) == opt_text_value(b.exe)
    &&& opt_text_value(a.cwd) == opt_text_value(b.cwd)
    &&& opt_text_value(a.root) == opt_text_value(b.root)
    &&& a.environ@.map_values(|s: String| s@) == b.environ@.map_values(|s: String| s@)
    &&& a.status@ == b.status@
    &&& a.start_time == b.start_time
    &&& a.run_time == b.run_time
    &&& a.cpu_usage == b.cpu_usage
    &&& a.memory == b.memory
    &&& a.virtual_memory == b.virtual_memory
    &&& a.total_read_bytes == b.total_read_bytes
    &&& a.read_bytes == b.read_bytes
    &&& a.total_written_bytes == b.total_written_bytes
    &&& a.written_bytes == b.written_bytes
}

/// A list of texts as a value.
pub open spec fn texts_value(v: Seq<String>) -> DataValue {
    DataValue::Array(Seq::new(v.len(), |i: int| DataValue::Text(v[i]@)))
}

/// An optional text as a value: the text, or null.
pub open spec fn opt_text_value(o: Option<String>) -> DataValue {
    match o {
        Some(s) => DataValue::Text(s@),
        None => DataValue::Null,
    }
}

/// The value a process is answered with: an object of its fields.
pub open spec fn process_value(p: ProcessSnapshot) -> DataValue {
    DataValue::Object(
        seq![
            ("pid"@, DataValue::UnsignedLong(p.pid as u64)),
            ("parent"@, match p.parent {
                Some(pid) => DataValue::UnsignedLong(pid as u64),
                None => DataValue::Null,
            }),
            ("name"@, DataValue::Text(p.name@)),
            ("cmd"@, texts_value(p.cmd@)),
            ("exe"@, opt_text_value(p.exe)),
            ("cwd"@, opt_text_value(p.cwd)),
            ("root"@, opt_text_value(p.root)),
            ("environ"@, texts_value(p.environ@)),
            ("status"@, DataValue::Text(p.status@)),
            ("start_time"@, DataValue::UnsignedLong(p.start_time)),
            ("run_time"@, DataValue::UnsignedLong(p.run_time)),
            ("cpu_usage"@, DataValue::Float(p.cpu_usage.bits)),
            ("memory"@, DataValue::UnsignedLong(p.memory)),
            ("virtual_memory"@, DataValue::UnsignedLong(p.virtual_memory)),
            ("total_read_bytes"@, DataValue::UnsignedLong(p.total_read_bytes)),
            ("read_bytes"@, DataValue::UnsignedLong(p.read_bytes)),
            ("total_written_bytes"@, DataValue::UnsignedLong(p.total_written_bytes)),
            ("written_bytes"@, DataValue::UnsignedLong(p.written_bytes)),
        ],
    )
}

fn copy_strings(v: &Vec<String>) -> (r: Vec<String>)
    ensures
        r@ == v@,
{
    let mut r: Vec<String> = Vec::new();
    let mut i: usize = 0;
    while i < v.len()
        invariant
            i <= v@.len(),
            r@ == v@.subrange(0, i as int),
        decreases v@.len() - i,
    {
        r.push(v[i].clone());
        i = i + 1;
    }
    r
}

fn copy_opt_string(o: &Option<String>) -> (r: Option<String>)
    ensures
        r == *o,
{
    match o {
        Some(s) => Some(s.clone()),
        None => None,
    }
}

fn texts_container(v: &Vec<String>) -> (d: DataContainer)
    ensures
        d@ == texts_value(v@),
{
    let mut items: Vec<DataContainer> = Vec::new();
    let mut i: usize = 0;
    while i < v.len()
        invariant
            i <= v@.len(),
            items@.len() == i,
            forall|j: int| 0 <= j < i ==> #[trigger] items@[j]@ == DataValue::Text(v@[j]@),
        decreases v@.len() - i,
    {
        items.push(DataContainer::Text(v[i].clone()));
        i = i + 1;
    }
    let ghost iv = items@;
    let d = DataContainer::Array(items);
    assert(d@ == texts_value(v@)) by {
        assert forall|j: int| 0 <= j < v@.len() implies #[trigger] d@->Array_0[j] == texts_value(v@)->Array_0[j] by {
            assert(iv[j]@ == DataValue::Text(v@[j]@));
        }
        assert(d@->Array_0 =~= texts_value(v@)->Array_0);
    }
    d
}

fn opt_text_container(o: &Option<String>) -> (d: DataContainer)
    ensures
        d@ == opt_text_value(*o),
{
    match o {
        Some(s) => DataContainer::Text(s.clone()),
        None => DataContainer::Null,
    }
}

impl ProcessSnapshot {
    /// A copy of this snapshot.
    pub fn duplicate(&self) -> (r: Self)
        ensures
            same_process(r, *self),
    {
        let r = ProcessSnapshot {
            pid: self.pid,
            parent: self.parent,
            name: self.name.clone(),
            cmd: copy_strings(&self.cmd),
            exe: copy_opt_string(&self.exe),
            cwd: copy_opt_string(&self.cwd),
            root: copy_opt_string(&self.root),
            environ: copy_strings(&self.environ),
            status: self.status.clone(),
            start_time: self.start_time,
            run_time: self.run_time,
            cpu_usage: self.cpu_usage,
            memory: self.memory,
            virtual_memory: self.virtual_memory,
            total_read_bytes: self.total_read_bytes,
            read_bytes: self.read_bytes,
            total_written_bytes: self.total_written_bytes,
            written_bytes: self.written_bytes,
        };
        r
    }

    /// The value this process is answered with.
    pub fn to_data_container(&self) -> (d: DataContainer)
        ensures
            d@ == process_value(*self),
    {
        let mut m = InfoMap::new();
        m.push(String::from_str("pid"), DataContainer::UnsignedLong(self.pid as u64));
        let parent = match self.parent {
            Some(pid) => DataContainer::UnsignedLong(pid as u64),
            None => DataContainer::Null,
        };
        m.push(String::from_str("parent"), parent);
        m.push(String::from_str("name"), DataContainer::Text(self.name.clone()));
        m.push(String::from_str("cmd"), texts_container(&self.cmd));
        m.push(String::from_str("exe"), opt_text_container(&self.exe));
        m.push(String::from_str("cwd"), opt_text_container(&self.cwd));
        m.push(String::from_str("root"), opt_text_container(&self.root));
        m.push(String::from_str("environ"), texts_container(&self.environ));
        m.push(String::from_str("status"), DataContainer::Text(self.status.clone()));
        m.push(String::from_str("start_time"), DataContainer::UnsignedLong(self.start_time));
        m.push(String::from_str("run_time"), DataContainer::UnsignedLong(self.run_time));
        m.push(String::from_str("cpu_usage"), DataContainer::Float(self.cpu_usage));
        m.push(String::from_str("memory"), DataContainer::UnsignedLong(self.memory));
        m.push(String::from_str("virtual_memory"), DataContainer::UnsignedLong(self.virtual_memory));
        m.push(String::from_str("total_read_bytes"), DataContainer::UnsignedLong(self.total_read_bytes));
        m.push(String::from_str("read_bytes"), DataContainer::UnsignedLong(self.read_bytes));
        m.push(String::from_str("total_written_bytes"), DataContainer::UnsignedLong(self.total_written_bytes));
        m.push(String::from_str("written_bytes"), DataContainer::UnsignedLong(self.written_bytes));
        let ghost mv = m@;
        let d = DataContainer::Object(m);
        assert(d@ == process_value(*self)) by {
            assert(d@->Object_0 =~= mv);
            assert(mv =~= process_value(*self)->Object_0);
        }
        d
    }
}

/// The field that a process listing is ordered by.
#[derive(Debug, Clone, Copy, PartialEq, Eq, Structural)]
pub enum ProcessSortKey {
    Pid,
    Name,
    Memory,
    VirtualMemory,
    CpuUsage,
}

/// How a process listing is ordered and cut: by which field, whether
/// largest first, and how many processes to keep at most.
#[derive(Debug, Clone, Copy, PartialEq, Eq, Structural)]
pub struct ConditionQueryStrategy {
    pub sort_by: ProcessSortKey,
    pub descending: bool,
    pub limit: Option<usize>,
}

impl Default for ConditionQueryStrategy {
    /// Every process, by CPU usage, smallest first.
    fn default() -> (s: Self)
        ensures
            s == (ConditionQueryStrategy { sort_by: ProcessSortKey::CpuUsage, descending: false, limit: None }),
    {
        ConditionQueryStrategy { sort_by: ProcessSortKey::CpuUsage, descending: false, limit: None }
    }
}

/// The position of a 64-bit float in the IEEE-754 total order (negative NaNs
/// first, then negative numbers, -0, +0, positive numbers, positive NaNs),
/// as `f64::total_cmp` ranks it.
pub open spec fn float_total_key(bits: u64) -> int {
    if bits < 0x8000_0000_0000_0000u64 {
        bits as int
    } else {
        -1 - (bits - 0x8000_0000_0000_0000u64)
    }
}

/// -1, 0 or 1 as `x` is below, equal to or above `y`.
pub open spec fn int_order(x: int, y: int) -> int {
    if x < y { -1 } else if x == y { 0 } else { 1 }
}

/// Lexicographic order of two texts, character by character.
pub open spec fn lex_order(a: Seq<char>, b: Seq<char>) -> int
    decreases a.len(),
{
    if a.len() == 0 {
        if b.len() == 0 { 0 } else { -1 }
    } else if b.len() == 0 {
        1
    } else if (a[0] as u32) < (b[0] as u32) {
        -1
    } else if (a[0] as u32) > (b[0] as u32) {
        1
    } else {
        lex_order(a.drop_first(), b.drop_first())
    }
}

/// How two processes compare on one field.
pub open spec fn key_order(a: ProcessSnapshot, b: ProcessSnapshot, by: ProcessSortKey) -> int {
    match by {
        ProcessSortKey::Pid => int_order(a.pid as int, b.pid as int),
        ProcessSortKey::Name => lex_order(a.name@, b.name@),
        ProcessSortKey::Memory => int_order(a.memory as int, b.memory as int),
        ProcessSortKey::VirtualMemory => int_order(a.virtual_memory as int, b.virtual_memory as int),
        ProcessSortKey::CpuUsage => int_order(
            float_total_key(a.cpu_usage.bits),
            float_total_key(b.cpu_usage.bits),
        ),
    }
}

/// How two processes compare under a strategy: negative when `a` comes first.
pub open spec fn strategy_order(a: ProcessSnapshot, b: ProcessSnapshot, s: ConditionQueryStrategy) -> int {
    if s.descending {
        key_order(b, a, s.sort_by)
    } else {
        key_order(a, b, s.sort_by)
    }
}

/// `perm` lists each index below `n` exactly once.
pub open spec fn is_permutation(perm: Seq<int>, n: int) -> bool {
    &&& perm.len() == n
    &&& forall|i: int| 0 <= i < perm.len() ==> 0 <= #[trigger] perm[i] < n
    &&& forall|i: int, j: int| 0 <= i < j < perm.len() ==> perm[i] != perm[j]
}

/// Taking the processes in the order `perm` gives a listing that is ordered
/// under the strategy, and in which processes that compare equal keep their
/// relative order from the input.
pub open spec fn is_stable_sort(ps: Seq<ProcessSnapshot>, perm: Seq<int>, s: ConditionQueryStrategy) -> bool {
    &&& is_permutation(perm, ps.len() as int)
    &&& forall|i: int, j: int| #![trigger perm[i], perm[j]]
        0 <= i < j < perm.len() ==> strategy_order(ps[perm[i]], ps[perm[j]], s) <= 0
    &&& forall|i: int, j: int| #![trigger perm[i], perm[j]]
        0 <= i < j < perm.len() && strategy_order(ps[perm[i]], ps[perm[j]], s) == 0 ==> perm[i] < perm[j]
}

/// How many processes a strategy keeps out of `n`.
pub open spec fn kept_count(n: int, limit: Option<usize>) -> int {
    match limit {
        Some(l) => if (l as int) < n { l as int } else { n },
        None => n,
    }
}

proof fn lemma_lex_refl(a: Seq<char>)
    ensures
        lex_order(a, a) == 0,
    decreases a.len(),
{
    if a.len() > 0 {
        lemma_lex_refl(a.drop_first());
    }
}

/// Every process ties with itself.
pub proof fn lemma_order_refl(a: ProcessSnapshot, s: ConditionQueryStrategy)
    ensures
        strategy_order(a, a, s) == 0,
{
    lemma_lex_refl(a.name@);
}

proof fn lemma_lex_antisym(a: Seq<char>, b: Seq<char>)
    ensures
        lex_order(a, b) == -lex_order(b, a),
    decreases a.len(),
{
    if a.len() > 0 && b.len() > 0 && (a[0] as u32) == (b[0] as u32) {
        lemma_lex_antisym(a.drop_first(), b.drop_first());
    }
}

proof fn lemma_lex_trans(a: Seq<char>, b: Seq<char>, c: Seq<char>)
    requires
        lex_order(a, b) <= 0,
        lex_order(b, c) <= 0,
    ensures
        lex_order(a, c) <= 0,
    decreases a.len(),
{
    if a.len() > 0 && b.len() > 0 && c.len() > 0 && (a[0] as u32) == (b[0] as u32)
        && (b[0] as u32) == (c[0] as u32) {
        lemma_lex_trans(a.drop_first(), b.drop_first(), c.drop_first());
    }
}

/// Comparing under a strategy is antisymmetric.
pub proof fn lemma_order_antisym(a: ProcessSnapshot, b: ProcessSnapshot, s: ConditionQueryStrategy)
    ensures
        strategy_order(a, b, s) == -strategy_order(b, a, s),
{
    lemma_lex_antisym(a.name@, b.name@);
}

/// Comparing under a strategy is transitive.
pub proof fn lemma_order_trans(a: ProcessSnapshot, b: ProcessSnapshot, c: ProcessSnapshot, s: ConditionQueryStrategy)
    requires
        strategy_order(a, b, s) <= 0,
        strategy_order(b, c, s) <= 0,
    ensures
        strategy_order(a, c, s) <= 0,
{
    if s.sort_by == ProcessSortKey::Name {
        if s.descending {
            lemma_lex_trans(c.name@, b.name@, a.name@);
        } else {
            lemma_lex_trans(a.name@, b.name@, c.name@);
        }
    }
}

proof fn lemma_order_strict(a: ProcessSnapshot, b: ProcessSnapshot, c: ProcessSnapshot, s: ConditionQueryStrategy)
    requires
        strategy_order(a, b, s) < 0,
        strategy_order(b, c, s) <= 0,
    ensures
        strategy_order(a, c, s) < 0,
{
    if strategy_order(a, c, s) >= 0 {
        lemma_order_antisym(a, c, s);
        lemma_order_trans(b, c, a, s);
        lemma_order_antisym(a, b, s);
    }
}

fn float_key(bits: u64) -> (k: i128)
    ensures
        k as int == float_total_key(bits),
{
    if bits < 0x8000_0000_0000_0000u64 {
        bits as i128
    } else {
        -1i128 - ((bits - 0x8000_0000_0000_0000u64) as i128)
    }
}

fn order_ints(x: i128, y: i128) -> (r: i8)
    ensures
        r as int == int_order(x as int, y as int),
{
    if x < y { -1 } else if x == y { 0 } else { 1 }
}

fn lex_order_exec(a: &String, b: &String) -> (r: i8)
    ensures
        r as int == lex_order(a@, b@),
{
    let x = chars_of(a.as_str());
    let y = chars_of(b.as_str());
    let mut i: usize = 0;
    assert(x@.skip(0) =~= x@);
    assert(y@.skip(0) =~= y@);
    while i < x.len() && i < y.len()
        invariant
            x@ == a@,
            y@ == b@,
            i <= x@.len(),
            i <= y@.len(),
            lex_order(a@, b@) == lex_order(x@.skip(i as int), y@.skip(i as int)),
        decreases x@.len() - i,
    {
        let cx = x[i] as u32;
        let cy = y[i] as u32;
        assert(x@.skip(i as int)[0] == x@[i as int]);
        assert(y@.skip(i as int)[0] == y@[i as int]);
        if cx < cy {
            return -1;
        }
        if cx > cy {
            return 1;
        }
        assert(x@.skip(i as int).drop_first() =~= x@.skip(i + 1));
        assert(y@.skip(i as int).drop_first() =~= y@.skip(i + 1));
        i = i + 1;
    }
    if i == x.len() && i == y.len() {
        0
    } else if i == x.len() {
        -1
    } else {
        1
    }
}

fn key_order_exec(a: &ProcessSnapshot, b: &ProcessSnapshot, by: ProcessSortKey) -> (r: i8)
    ensures
        r as int == key_order(*a, *b, by),
{
    match by {
        ProcessSortKey::Pid => order_ints(a.pid as i128, b.pid as i128),
        ProcessSortKey::Name => lex_order_exec(&a.name, &b.name),
        ProcessSortKey::Memory => order_ints(a.memory as i128, b.memory as i128),
        ProcessSortKey::VirtualMemory => order_ints(a.virtual_memory as i128, b.virtual_memory as i128),
        ProcessSortKey::CpuUsage => order_ints(float_key(a.cpu_usage.bits), float_key(b.cpu_usage.bits)),
    }
}

/// How two processes compare under a strategy: negative when `a` comes
/// first, zero when they tie.
pub fn compare_processes(a: &ProcessSnapshot, b: &ProcessSnapshot, s: &ConditionQueryStrategy) -> (r: i8)
    ensures
        r as int == strategy_order(*a, *b, *s),
{
    if s.descending {
        key_order_exec(b, a, s.sort_by)
    } else {
        key_order_exec(a, b, s.sort_by)
    }
}

/// The indices of `out` as integers.
pub open spec fn as_ints(out: Seq<usize>) -> Seq<int> {
    out.map_values(|x: usize| x as int)
}

/// Where insertion places process `x` into the listing `out`: before the
/// first process at or after position `p` that comes after `x`.
pub open spec fn insert_position(ps: Seq<ProcessSnapshot>, out: Seq<int>, x: int, s: ConditionQueryStrategy, p: int) -> int
    decreases out.len() - p,
{
    if p < 0 || p >= out.len() {
        out.len() as int
    } else if strategy_order(ps[out[p]], ps[x], s) > 0 {
        p
    } else {
        insert_position(ps, out, x, s, p + 1)
    }
}

/// The order in which the first `i` processes are listed: each process in
/// turn is placed after every process listed before it that does not come
/// after it.
pub open spec fn listing_order(ps: Seq<ProcessSnapshot>, s: ConditionQueryStrategy, i: nat) -> Seq<int>
    decreases i,
{
    if i == 0 {
        Seq::empty()
    } else {
        let out = listing_order(ps, s, (i - 1) as nat);
        out.insert(insert_position(ps, out, i - 1, s, 0), i - 1)
    }
}

/// The values of the processes a strategy lists, in order.
pub open spec fn process_listing(ps: Seq<ProcessSnapshot>, s: ConditionQueryStrategy) -> Seq<DataValue> {
    let order = listing_order(ps, s, ps.len());
    Seq::new(kept_count(ps.len() as int, s.limit) as nat, |j: int| process_value(ps[order[j]]))
}

/// Snapshots that agree in every field are answered with the same value.
pub proof fn lemma_same_process_value(a: ProcessSnapshot, b: ProcessSnapshot)
    requires
        same_process(a, b),
    ensures
        process_value(a) == process_value(b),
{
    let ac = a.cmd@.map_values(|x: String| x@);
    let bc = b.cmd@.map_values(|x: String| x@);
    assert(ac.len() == a.cmd@.len() && bc.len() == b.cmd@.len());
    assert(texts_value(a.cmd@)->Array_0 =~= texts_value(b.cmd@)->Array_0) by {
        assert forall|i: int| 0 <= i < a.cmd@.len() implies a.cmd@[i]@ == b.cmd@[i]@ by {
            assert(ac[i] == a.cmd@[i]@ && bc[i] == b.cmd@[i]@);
        }
    }
    let ae = a.environ@.map_values(|x: String| x@);
    let be = b.environ@.map_values(|x: String| x@);
    assert(ae.len() == a.environ@.len() && be.len() == b.environ@.len());
    assert(texts_value(a.environ@)->Array_0 =~= texts_value(b.environ@)->Array_0) by {
        assert forall|i: int| 0 <= i < a.environ@.len() implies a.environ@[i]@ == b.environ@[i]@ by {
            assert(ae[i] == a.environ@[i]@ && be[i] == b.environ@[i]@);
        }
    }
    assert(process_value(a)->Object_0 =~= process_value(b)->Object_0);
}

/// The order in which a stable sort under the strategy lists the processes.
fn stable_sort_order(ps: &Vec<ProcessSnapshot>, s: &ConditionQueryStrategy) -> (out: Vec<usize>)
    ensures
        is_stable_sort(ps@, as_ints(out@), *s),
        as_ints(out@) == listing_order(ps@, *s, ps@.len()),
{
    let n = ps.len();
    let mut out: Vec<usize> = Vec::new();
    let mut i: usize = 0;
    while i < n
        invariant
            n == ps@.len(),
            i <= n,
            out@.len() == i,
            as_ints(out@) == listing_order(ps@, *s, i as nat),
            forall|a: int| 0 <= a < out@.len() ==> (#[trigger] out@[a]) < i,
            forall|a: int, b: int| 0 <= a < b < out@.len() ==> out@[a] != out@[b],
            forall|a: int, b: int| #![trigger out@[a], out@[b]]
                0 <= a < b < out@.len() ==> strategy_order(ps@[out@[a] as int], ps@[out@[b] as int], *s) <= 0,
            forall|a: int, b: int| #![trigger out@[a], out@[b]]
                0 <= a < b < out@.len() && strategy_order(ps@[out@[a] as int], ps@[out@[b] as int], *s) == 0
                    ==> out@[a] < out@[b],
        decreases n - i,
    {
        let mut p: usize = 0;
        while p < out.len() && compare_processes(&ps[out[p]], &ps[i], s) <= 0
            invariant
                n == ps@.len(),
                i < n,
                p <= out@.len(),
                insert_position(ps@, as_ints(out@), i as int, *s, 0) == insert_position(ps@, as_ints(out@), i as int, *s, p as int),
                forall|a: int| 0 <= a < out@.len() ==> (#[trigger] out@[a]) < i,
                forall|q: int| 0 <= q < p ==> strategy_order(ps@[#[trigger] out@[q] as int], ps@[i as int], *s) <= 0,
            decreases out@.len() - p,
        {
            assert(as_ints(out@)[p as int] == out@[p as int] as int);
            p = p + 1;
        }
        let ghost old_out = out@;
        proof {
            if p < old_out.len() {
                assert(as_ints(out@)[p as int] == out@[p as int] as int);
            }
            assert(insert_position(ps@, as_ints(old_out), i as int, *s, p as int) == p);
        }
        let ghost x = ps@[i as int];
        proof {
            if p < old_out.len() {
                assert(strategy_order(ps@[old_out[p as int] as int], x, *s) > 0);
            }
        }
        out.insert(p, i);
        proof {
            assert(out@ == old_out.insert(p as int, i));
            assert(as_ints(out@) =~= as_ints(old_out).insert(p as int, i as int));
            assert forall|a: int, b: int| #![trigger out@[a], out@[b]]
                0 <= a < b < out@.len() implies
                    strategy_order(ps@[out@[a] as int], ps@[out@[b] as int], *s) <= 0
                    && (strategy_order(ps@[out@[a] as int], ps@[out@[b] as int], *s) == 0 ==> out@[a] < out@[b])
            by {
                if a < p as int && b < p as int {
                    assert(out@[a] == old_out[a] && out@[b] == old_out[b]);
                } else if a < p as int && b == p as int {
                    assert(out@[a] == old_out[a]);
                    assert(strategy_order(ps@[old_out[a] as int], x, *s) <= 0);
                } else if a < p as int {
                    assert(out@[a] == old_out[a] && out@[b] == old_out[b - 1]);
                } else if a == p as int {
                    assert(out@[b] == old_out[b - 1]);
                    let y = ps@[old_out[p as int] as int];
                    let z = ps@[old_out[b - 1] as int];
                    lemma_order_antisym(y, x, *s);
                    if b - 1 > p as int {
                        assert(strategy_order(y, z, *s) <= 0);
                    } else {
                        lemma_order_refl(y, *s);
                    }
                    lemma_order_strict(x, y, z, *s);
                } else {
                    assert(out@[a] == old_out[a - 1] && out@[b] == old_out[b - 1]);
                }
            }
            assert forall|a: int, b: int| 0 <= a < b < out@.len() implies out@[a] != out@[b] by {
                if a < p as int && b < p as int {
                } else if a < p as int && b == p as int {
                    assert(old_out[a] < i);
                } else if a < p as int {
                } else if a == p as int {
                    assert(old_out[b - 1] < i);
                } else {
                }
            }
        }
        i = i + 1;
    }
    proof {
        let perm = as_ints(out@);
        assert forall|a: int, b: int| #![trigger perm[a], perm[b]]
            0 <= a < b < perm.len() implies strategy_order(ps@[perm[a]], ps@[perm[b]], *s) <= 0
            && (strategy_order(ps@[perm[a]], ps@[perm[b]], *s) == 0 ==> perm[a] < perm[b]) by {
            assert(perm[a] == out@[a] as int && perm[b] == out@[b] as int);
        }
        assert forall|a: int| 0 <= a < perm.len() implies 0 <= #[trigger] perm[a] < n by {
            assert(perm[a] == out@[a] as int);
        }
        assert forall|a: int, b: int| 0 <= a < b < perm.len() implies perm[a] != perm[b] by {
            assert(perm[a] == out@[a] as int && perm[b] == out@[b] as int);
        }
    }
    out
}

/// Orders the processes as the strategy says, keeping the given order
/// among processes that tie, and keeps at most `limit` of them.
pub fn query_process(processes: &Vec<ProcessSnapshot>, strategy: &ConditionQueryStrategy) -> (r: Vec<ProcessSnapshot>)
    ensures
        r@.len() == kept_count(processes@.len() as int, strategy.limit),
        is_stable_sort(processes@, listing_order(processes@, *strategy, processes@.len()), *strategy),
        forall|k: int| 0 <= k < r@.len() ==> same_process(
            #[trigger] r@[k],
            processes@[listing_order(processes@, *strategy, processes@.len())[k]],
        ),
{
    let order = stable_sort_order(processes, strategy);
    let ghost perm = as_ints(order@);
    let n = processes.len();
    let m = match strategy.limit {
        Some(l) => if l < n { l } else { n },
        None => n,
    };
    let mut r: Vec<ProcessSnapshot> = Vec::new();
    let mut k: usize = 0;
    while k < m
        invariant
            m <= n,
            n == processes@.len(),
            order@.len() == n,
            perm == as_ints(order@),
            is_stable_sort(processes@, perm, *strategy),
            k <= m,
            r@.len() == k,
            forall|j: int| 0 <= j < k ==> same_process(#[trigger] r@[j], processes@[perm[j]]),
        decreases m - k,
    {
        assert(perm[k as int] == order@[k as int] as int);
        r.push(processes[order[k]].duplicate());
        k = k + 1;
    }
    r
}

/// A list of processes as a value: the list of their values.
pub fn processes_to_data_container(ps: &Vec<ProcessSnapshot>) -> (d: DataContainer)
    ensures
        d@ == DataValue::Array(Seq::new(ps@.len(), |j: int| process_value(ps@[j]))),
{
    let mut items: Vec<DataContainer> = Vec::new();
    let mut i: usize = 0;
    while i < ps.len()
        invariant
            i <= ps@.len(),
            items@.len() == i,
            forall|j: int| 0 <= j < i ==> #[trigger] items@[j]@ == process_value(ps@[j]),
        decreases ps@.len() - i,
    {
        items.push(ps[i].to_data_container());
        i = i + 1;
    }
    let ghost iv = items@;
    let d = DataContainer::Array(items);
    assert(d@->Array_0 =~= Seq::new(ps@.len(), |j: int| process_value(ps@[j]))) by {
        assert forall|j: int| 0 <= j < ps@.len() implies #[trigger] d@->Array_0[j] == process_value(ps@[j]) by {
            assert(iv[j]@ == process_value(ps@[j]));
        }
    }
    d
}

/// The listing a strategy gives of the processes, as a value.
pub fn process_listing_container(processes: &Vec<ProcessSnapshot>, strategy: &ConditionQueryStrategy) -> (d: DataContainer)
    ensures
        d@ == DataValue::Array(process_listing(processes@, *strategy)),
{
    let listed = query_process(processes, strategy);
    let d = processes_to_data_container(&listed);
    proof {
        let order = listing_order(processes@, *strategy, processes@.len());
        assert forall|j: int| 0 <= j < listed@.len() implies
            #[trigger] process_value(listed@[j]) == process_value(processes@[order[j]]) by {
            lemma_same_process_value(listed@[j], processes@[order[j]]);
        }
        assert(d@->Array_0 =~= process_listing(processes@, *strategy));
    }
    d
}

} // verus!
