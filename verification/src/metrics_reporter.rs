//! Metric handles and labels for the metrics reporters, and the in-memory
//! counters with their Prometheus text export.
use vstd::prelude::*;
use vstd::string::*;
use crate::decimal::{decimal, push_decimal};

verus! {

/// Opaque handle to a pre-registered metric.
#[derive(Debug, Clone, Copy, PartialEq, Eq, Hash)]
pub struct MetricId(pub u64);

impl MetricId {
    /// The handle of no metric; operations on it do nothing.
    pub fn null() -> (id: MetricId)
        ensures
            id.0 == u64::MAX,
    {
        MetricId(0xFFFF_FFFF_FFFF_FFFF)
    }

    /// Whether this is the handle of no metric.
    pub fn is_null(&self) -> (r: bool)
        ensures
            r == (self.0 == u64::MAX),
    {
        self.0 == 0xFFFF_FFFF_FFFF_FFFF
    }
}

/// A metric label.
#[derive(Debug, Clone)]
pub struct Label {
    pub key: &'static str,
    pub value: String,
}

impl Label {
    /// A label with the given key and value.
    pub fn new(key: &'static str, value: String) -> (l: Self)
        ensures
            l.key == key,
            l.value == value,
    {
        Label { key, value }
    }
}

/// No-op metrics reporter for tests and minimal builds.
#[derive(Debug, Clone, Copy)]
pub struct NoOpMetricsReporter;

impl NoOpMetricsReporter {
    /// Registration hands out the null handle.
    pub fn register_null(&self) -> (id: MetricId)
        ensures
            id.0 == u64::MAX,
    {
        MetricId::null()
    }
}

/// The bits of a metric handle that give its position among the metrics of
/// its kind; the top bits tell histograms and gauges apart.
pub open spec fn metric_index_mask() -> u64 {
    0x0FFF_FFFF_FFFF_FFFF
}

/// A registered counter: its name, help text, labels and value.
#[derive(Debug, Clone)]
pub struct CounterEntry {
    pub name: &'static str,
    pub help: &'static str,
    pub labels: Vec<Label>,
    pub value: u64,
}

/// `key="value"` for one label.
pub open spec fn label_text(l: Label) -> Seq<char> {
    l.key@ + "=\""@ + l.value@ + "\""@
}

/// The labels of a metric, each as `key="value"`, joined by commas.
pub open spec fn labels_text(ls: Seq<Label>) -> Seq<char>
    decreases ls.len(),
{
    if ls.len() == 0 {
        Seq::empty()
    } else if ls.len() == 1 {
        label_text(ls[0])
    } else {
        labels_text(ls.drop_last()) + ","@ + label_text(ls.last())
    }
}

/// The Prometheus text of one counter: help and type lines, then the sample
/// (with its labels in braces when it has any) and a blank line.
pub open spec fn counter_text(c: CounterEntry) -> Seq<char> {
    "# HELP "@ + c.name@ + " "@ + c.help@ + "\n"@ + "# TYPE "@ + c.name@ + " counter\n"@ + (if c.labels@.len()
        == 0 {
        c.name@
    } else {
        c.name@ + "{"@ + labels_text(c.labels@) + "}"@
    }) + " "@ + decimal(c.value as nat) + "\n\n"@
}

/// The Prometheus text of counters, in registration order.
pub open spec fn counters_text(cs: Seq<CounterEntry>) -> Seq<char>
    decreases cs.len(),
{
    if cs.len() == 0 {
        Seq::empty()
    } else {
        counters_text(cs.drop_last()) + counter_text(cs.last())
    }
}

/// The first counter named `name`, if any.
pub open spec fn first_named(cs: Seq<CounterEntry>, name: Seq<char>) -> Option<int> {
    if exists|i: int| 0 <= i < cs.len() && (#[trigger] cs[i]).name@ == name {
        Some(choose|i: int| 0 <= i < cs.len() && (#[trigger] cs[i]).name@ == name
            && forall|j: int| 0 <= j < i ==> (#[trigger] cs[j]).name@ != name)
    } else {
        None
    }
}

/// In-memory counters, as the in-memory metrics reporter keeps them: each
/// registered counter gets the handle of its position.
#[derive(Debug)]
pub struct CounterRegistry {
    counters: Vec<CounterEntry>,
}

/// Whether two texts are equal.
fn same_text(a: &str, b: &str) -> (r: bool)
    ensures
        r == (a@ == b@),
{
    let a2 = a.to_owned();
    let b2 = b.to_owned();
    a2 == b2
}

impl CounterRegistry {
    /// The registered counters, in registration order.
    pub closed spec fn entries(&self) -> Seq<CounterEntry> {
        self.counters@
    }

    /// No counters.
    pub fn new() -> (r: Self)
        ensures
            r.entries().len() == 0,
    {
        CounterRegistry { counters: Vec::new() }
    }

    /// Register a counter starting at zero; its handle is its position.
    pub fn register(&mut self, name: &'static str, help: &'static str, labels: Vec<Label>) -> (id: MetricId)
        requires
            old(self).entries().len() < u64::MAX,
        ensures
            id.0 == old(self).entries().len(),
            final(self).entries() == old(self).entries().push(
                CounterEntry { name, help, labels, value: 0 },
            ),
    {
        let idx = self.counters.len() as u64;
        self.counters.push(CounterEntry { name, help, labels, value: 0 });
        MetricId(idx)
    }

    /// Add to a counter, wrapping at 64 bits. The null handle, and a handle
    /// whose position bits name no counter, change nothing.
    pub fn counter_inc(&mut self, id: MetricId, value: u64)
        ensures
            ({
                let idx = id.0 & metric_index_mask();
                if id.0 != u64::MAX && idx < old(self).entries().len() {
                    final(self).entries() == old(self).entries().update(
                        idx as int,
                        CounterEntry {
                            value: old(self).entries()[idx as int].value.wrapping_add(value),
                            ..old(self).entries()[idx as int]
                        },
                    )
                } else {
                    final(self).entries() == old(self).entries()
                }
            }),
    {
        if id.0 == 0xFFFF_FFFF_FFFF_FFFF {
            return;
        }
        let idx = id.0 & 0x0FFF_FFFF_FFFF_FFFF;
        if idx < self.counters.len() as u64 {
            let i = idx as usize;
            let v = self.counters[i].value.wrapping_add(value);
            self.counters[i].value = v;
        }
    }

    /// The value of the first counter with the given name.
    pub fn counter_value(&self, name: &str) -> (r: Option<u64>)
        ensures
            r == (match first_named(self.entries(), name@) {
                Some(i) => Some(self.entries()[i].value),
                None => None,
            }),
    {
        let mut i: usize = 0;
        while i < self.counters.len()
            invariant
                i <= self.counters@.len(),
                forall|j: int| 0 <= j < i ==> (#[trigger] self.counters@[j]).name@ != name@,
            decreases self.counters@.len() - i,
        {
            if same_text(self.counters[i].name, name) {
                proof {
                    let k = choose|k: int| 0 <= k < self.counters@.len() && (#[trigger] self.counters@[k]).name@ == name@
                        && forall|j: int| 0 <= j < k ==> (#[trigger] self.counters@[j]).name@ != name@;
                    if k < i {
                    } else if k > i {
                        assert(self.counters@[i as int].name@ != name@);
                    }
                }
                return Some(self.counters[i].value);
            }
            i = i + 1;
        }
        None
    }

    /// The counters in the Prometheus text format.
    pub fn export_prometheus(&self) -> (r: String)
        ensures
            r@ == counters_text(self.entries()),
    {
        let mut out = String::new();
        let mut i: usize = 0;
        while i < self.counters.len()
            invariant
                i <= self.counters@.len(),
                out@ == counters_text(self.counters@.take(i as int)),
            decreases self.counters@.len() - i,
        {
            push_counter(&mut out, &self.counters[i]);
            assert(self.counters@.take(i + 1).drop_last() =~= self.counters@.take(i as int));
            i = i + 1;
        }
        assert(self.counters@.take(self.counters@.len() as int) =~= self.counters@);
        out
    }
}

/// Appends the labels of a metric, joined by commas.
fn push_labels(out: &mut String, labels: &Vec<Label>)
    ensures
        final(out)@ == old(out)@ + labels_text(labels@),
{
    let mut j: usize = 0;
    while j < labels.len()
        invariant
            j <= labels@.len(),
            out@ == old(out)@ + labels_text(labels@.take(j as int)),
        decreases labels@.len() - j,
    {
        if j > 0 {
            out.append(",");
        }
        let l = &labels[j];
        out.append(l.key);
        out.append("=\"");
        out.append(l.value.as_str());
        out.append("\"");
        assert(labels@.take(j + 1).drop_last() =~= labels@.take(j as int));
        assert(labels@.take(j + 1).last() == labels@[j as int]);
        if j == 0 {
            assert(labels_text(labels@.take(0)) =~= Seq::<char>::empty());
            assert(out@ =~= old(out)@ + labels_text(labels@.take(1)));
        } else {
            assert(out@ =~= old(out)@ + labels_text(labels@.take(j + 1)));
        }
        j = j + 1;
    }
    assert(labels@.take(labels@.len() as int) =~= labels@);
}

/// Appends the Prometheus text of one counter.
fn push_counter(out: &mut String, c: &CounterEntry)
    ensures
        final(out)@ == old(out)@ + counter_text(*c),
{
    out.append("# HELP ");
    out.append(c.name);
    out.append(" ");
    out.append(c.help);
    out.append("\n");
    out.append("# TYPE ");
    out.append(c.name);
    out.append(" counter\n");
    out.append(c.name);
    if c.labels.len() > 0 {
        out.append("{");
        push_labels(out, &c.labels);
        out.append("}");
    }
    out.append(" ");
    push_decimal(out, c.value as u128);
    out.append("\n\n");
    assert(out@ =~= old(out)@ + counter_text(*c));
}

} // verus!
