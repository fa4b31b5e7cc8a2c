//! The bounded registry of named metrics.
//!
//! Names are unique, at most [`MAX_NAME_LEN`] bytes long, and there are at
//! most [`MAX_METRICS`] of them. The registry is plain data: a process-wide
//! instance is shared behind a lock by the application.
use vstd::prelude::*;
use vstd::pervasive::cloned;
use crate::observability::error::ObsError;
use crate::observability::metrics::{Counter, Gauge, Label};
use crate::text::text;

verus! {

/// Maximum number of metrics that can be registered.
pub const MAX_METRICS: usize = 1_024;

/// Maximum label string length (bytes).
pub const MAX_LABEL_LEN: usize = 64;

/// Maximum metric name length (bytes).
pub const MAX_NAME_LEN: usize = 64;

/// A single registered metric, discriminated by kind; `H` is the histogram
/// handle type.
#[derive(Debug, Clone)]
pub enum MetricEntry<H> {
    /// A counter.
    Counter(Counter),
    /// A gauge.
    Gauge(Gauge),
    /// A histogram.
    Histogram(H),
}

/// The bounded registry of named metrics, in registration order.
#[derive(Debug)]
pub struct Registry<H> {
    entries: Vec<(String, MetricEntry<H>)>,
}

/// Whether `b` is a clone of the handle `a`: a handle of the same kind, to
/// the same metric.
pub open spec fn spec_entry_cloned<H: Clone>(a: MetricEntry<H>, b: MetricEntry<H>) -> bool {
    match (a, b) {
        (MetricEntry::Counter(x), MetricEntry::Counter(y)) => cloned::<Counter>(x, y),
        (MetricEntry::Gauge(x), MetricEntry::Gauge(y)) => cloned::<Gauge>(x, y),
        (MetricEntry::Histogram(x), MetricEntry::Histogram(y)) => cloned::<H>(x, y),
        _ => false,
    }
}

/// Whether `names` holds no name twice.
pub open spec fn names_unique(names: Seq<Seq<char>>) -> bool {
    forall|i: int, j: int| 0 <= i < j < names.len() ==> names[i] != names[j]
}

/// Why a registration is refused before the metric itself is built.
#[derive(Debug, Clone, Copy, PartialEq, Eq, Structural)]
pub enum Refusal {
    /// The name is longer than [`MAX_NAME_LEN`] bytes.
    NameTooLong,
    /// A metric with the name is already registered.
    Duplicate,
    /// The registry holds [`MAX_METRICS`] metrics.
    Full,
}

/// Whether, and why, a registration of a metric named `name` (`name_len`
/// bytes long) is refused by a registry whose names are `names`: the
/// length of the name is checked first, then a duplicate, then the
/// capacity.
pub open spec fn spec_refusal(names: Seq<Seq<char>>, name: Seq<char>, name_len: usize) -> Option<
    Refusal,
> {
    if name_len > MAX_NAME_LEN {
        Some(Refusal::NameTooLong)
    } else if names.contains(name) {
        Some(Refusal::Duplicate)
    } else if names.len() >= MAX_METRICS {
        Some(Refusal::Full)
    } else {
        None
    }
}

/// Whether `e` is the error that reports `refusal` of the name `name`
/// (`name_len` bytes long).
pub open spec fn spec_refusal_error(e: ObsError, refusal: Refusal, name: Seq<char>, name_len: usize) -> bool {
    match refusal {
        Refusal::NameTooLong => e == ObsError::NameTooLong { len: name_len },
        Refusal::Duplicate => e matches ObsError::DuplicateMetric { name: n } && n@ == name,
        Refusal::Full => e == ObsError::RegistryFull,
    }
}

/// The length of a name is refused exactly when it is over 64 bytes: a
/// name of at most 64 bytes is never refused for its length, and one that
/// is not registered yet, in a registry holding fewer than 1024 metrics, is
/// accepted. A registered name is refused as a duplicate, and a new name in
/// a full registry as over capacity.
pub proof fn lemma_refusal_exactly_when(names: Seq<Seq<char>>, name: Seq<char>, name_len: usize)
    ensures
        spec_refusal(names, name, name_len) == Some(Refusal::NameTooLong) <==> name_len > 64,
        name_len <= 64 && !names.contains(name) && names.len() < 1024 ==> spec_refusal(
            names,
            name,
            name_len,
        ) is None,
        name_len <= 64 && names.contains(name) ==> spec_refusal(names, name, name_len) == Some(
            Refusal::Duplicate,
        ),
        name_len <= 64 && !names.contains(name) && names.len() >= 1024 ==> spec_refusal(
            names,
            name,
            name_len,
        ) == Some(Refusal::Full),
{
}

impl<H> Registry<H> {
    /// The names of the registered metrics, in registration order.
    pub closed spec fn names(&self) -> Seq<Seq<char>> {
        self.entries@.map_values(|e: (String, MetricEntry<H>)| e.0@)
    }

    /// The registered metrics, in registration order.
    pub closed spec fn metrics(&self) -> Seq<MetricEntry<H>> {
        self.entries@.map_values(|e: (String, MetricEntry<H>)| e.1)
    }

    #[verifier::type_invariant]
    spec fn inv(&self) -> bool {
        &&& names_unique(self.names())
        &&& self.names().len() <= MAX_METRICS
    }

    /// Create an empty registry.
    pub fn new() -> (r: Self)
        ensures
            r.names() == Seq::<Seq<char>>::empty(),
            r.metrics() == Seq::<MetricEntry<H>>::empty(),
    {
        let r = Registry { entries: Vec::new() };
        assert(r.names() =~= Seq::<Seq<char>>::empty());
        assert(r.metrics() =~= Seq::<MetricEntry<H>>::empty());
        r
    }

    /// The position of the metric named `name`, if it is registered.
    fn find(&self, name: &String) -> (r: Option<usize>)
        ensures
            match r {
                Some(i) => i < self.names().len() && self.names()[i as int] == name@,
                None => !self.names().contains(name@),
            },
    {
        let mut i: usize = 0;
        while i < self.entries.len()
            invariant
                i <= self.entries@.len(),
                self.names().len() == self.entries@.len(),
                forall|k: int| 0 <= k < i ==> self.names()[k] != name@,
            decreases self.entries@.len() - i,
        {
            if self.entries[i].0 == *name {
                return Some(i);
            }
            i = i + 1;
        }
        None
    }

    /// The checks that every registration makes before building the
    /// metric: the name's length, a duplicate, the capacity.
    fn check_new_name(&self, name: &str) -> (r: Result<String, ObsError>)
        ensures
            match r {
                Ok(n) => n@ == name@ && spec_refusal(self.names(), name@, name.len()) is None,
                Err(e) => spec_refusal(self.names(), name@, name.len()) matches Some(refusal)
                    && spec_refusal_error(e, refusal, name@, name.len()),
            },
    {
        proof {
            use_type_invariant(self);
        }
        if name.len() > MAX_NAME_LEN {
            return Err(ObsError::NameTooLong { len: name.len() });
        }
        let owned = text(name);
        if let Some(_) = self.find(&owned) {
            return Err(ObsError::DuplicateMetric { name: owned });
        }
        if self.entries.len() >= MAX_METRICS {
            return Err(ObsError::RegistryFull);
        }
        Ok(owned)
    }

    /// Append a metric whose name passed the checks.
    fn insert_new(&mut self, name: String, entry: MetricEntry<H>)
        requires
            !old(self).names().contains(name@),
            old(self).names().len() < MAX_METRICS,
        ensures
            final(self).names() == old(self).names().push(name@),
            final(self).metrics() == old(self).metrics().push(entry),
    {
        proof {
            use_type_invariant(&*self);
        }
        let ghost old_names = self.names();
        let ghost old_metrics = self.metrics();
        let ghost name_view = name@;
        let mut entries: Vec<(String, MetricEntry<H>)> = Vec::new();
        std::mem::swap(&mut entries, &mut self.entries);
        entries.push((name, entry));
        proof {
            let new_names = old_names.push(name_view);
            assert(entries@.map_values(|e: (String, MetricEntry<H>)| e.0@) =~= new_names);
            assert forall|i: int, j: int| 0 <= i < j < new_names.len() implies new_names[i]
                != new_names[j] by {
                if j == old_names.len() {
                    assert(old_names[i] != name_view);
                }
            }
        }
        self.entries = entries;
        assert(self.names() =~= old_names.push(name_view));
        assert(self.metrics() =~= old_metrics.push(entry));
    }

    /// Register a counter named `name`: returns its handle, or an error if
    /// the name is too long, already registered, or the registry is full.
    pub fn register_counter(&mut self, name: &str, labels: Vec<Label>) -> (r: Result<
        Counter,
        ObsError,
    >)
        ensures
            match spec_refusal(old(self).names(), name@, name.len()) {
                Some(refusal) => r matches Err(e) && spec_refusal_error(e, refusal, name@, name.len())
                    && final(self).names() == old(self).names() && final(self).metrics() == old(
                    self,
                ).metrics(),
                None => r matches Ok(c) && c.spec_labels() == labels@ && final(self).names() == old(
                    self,
                ).names().push(name@) && final(self).metrics().len() == old(self).metrics().len()
                    + 1 && (final(self).metrics().last() matches MetricEntry::Counter(stored) && cloned::<
                    Counter,
                >(c, stored)) && final(self).metrics().subrange(
                    0,
                    old(self).metrics().len() as int,
                ) == old(self).metrics(),
            },
            name.len() <= 64 && !old(self).names().contains(name@) && old(self).names().len()
                < 1024 ==> r is Ok && final(self).names() == old(self).names().push(name@),
            name.len() > 64 ==> (r matches Err(e) && e == ObsError::NameTooLong { len: name.len() })
                && final(self).names() == old(self).names(),
    {
        let owned = self.check_new_name(name)?;
        let counter = Counter::new(labels);
        let stored = counter.clone();
        self.insert_new(owned, MetricEntry::Counter(stored));
        assert(self.metrics().subrange(0, self.metrics().len() - 1) =~= old(self).metrics());
        Ok(counter)
    }

    /// Register a gauge named `name`: returns its handle, or an error if the
    /// name is too long, already registered, or the registry is full.
    pub fn register_gauge(&mut self, name: &str, labels: Vec<Label>) -> (r: Result<
        Gauge,
        ObsError,
    >)
        ensures
            match spec_refusal(old(self).names(), name@, name.len()) {
                Some(refusal) => r matches Err(e) && spec_refusal_error(e, refusal, name@, name.len())
                    && final(self).names() == old(self).names() && final(self).metrics() == old(
                    self,
                ).metrics(),
                None => r matches Ok(g) && g.spec_labels() == labels@ && final(self).names() == old(
                    self,
                ).names().push(name@) && final(self).metrics().len() == old(self).metrics().len()
                    + 1 && (final(self).metrics().last() matches MetricEntry::Gauge(stored) && cloned::<
                    Gauge,
                >(g, stored)) && final(self).metrics().subrange(
                    0,
                    old(self).metrics().len() as int,
                ) == old(self).metrics(),
            },
            name.len() <= 64 && !old(self).names().contains(name@) && old(self).names().len()
                < 1024 ==> r is Ok && final(self).names() == old(self).names().push(name@),
            name.len() > 64 ==> (r matches Err(e) && e == ObsError::NameTooLong { len: name.len() })
                && final(self).names() == old(self).names(),
    {
        let owned = self.check_new_name(name)?;
        let gauge = Gauge::new(labels);
        let stored = gauge.clone();
        self.insert_new(owned, MetricEntry::Gauge(stored));
        assert(self.metrics().subrange(0, self.metrics().len() - 1) =~= old(self).metrics());
        Ok(gauge)
    }

    /// Register a histogram named `name`, given the histogram built from
    /// the requested bucket bounds (`None` when the bounds were invalid):
    /// returns its handle, or an error if the name is too long, already
    /// registered, the registry is full, or (checked last) the bounds were
    /// invalid.
    pub fn register_histogram(&mut self, name: &str, histogram: Option<H>) -> (r: Result<
        H,
        ObsError,
    >) where H: Clone
        ensures
            match spec_refusal(old(self).names(), name@, name.len()) {
                Some(refusal) => r matches Err(e) && spec_refusal_error(e, refusal, name@, name.len())
                    && final(self).names() == old(self).names() && final(self).metrics() == old(
                    self,
                ).metrics(),
                None => match histogram {
                    None => r matches Err(e) && e is InvalidBuckets && final(self).names() == old(
                        self,
                    ).names() && final(self).metrics() == old(self).metrics(),
                    Some(h) => r matches Ok(x) && cloned::<H>(h, x) && final(self).names() == old(
                        self,
                    ).names().push(name@)
                        && final(self).metrics() == old(self).metrics().push(
                        MetricEntry::Histogram(h),
                    ),
                },
            },
            name.len() <= 64 && !old(self).names().contains(name@) && old(self).names().len()
                < 1024 && histogram is Some ==> r is Ok && final(self).names() == old(self).names().push(name@),
            name.len() > 64 ==> (r matches Err(e) && e == ObsError::NameTooLong { len: name.len() })
                && final(self).names() == old(self).names(),
    {
        let owned = self.check_new_name(name)?;
        match histogram {
            None => Err(ObsError::InvalidBuckets),
            Some(h) => {
                let handle = h.clone();
                self.insert_new(owned, MetricEntry::Histogram(h));
                Ok(handle)
            },
        }
    }

    /// A copy of the handle `e`, of the same kind.
    fn copy_entry(e: &MetricEntry<H>) -> (r: MetricEntry<H>) where H: Clone
        ensures
            spec_entry_cloned(*e, r),
    {
        match e {
            MetricEntry::Counter(c) => MetricEntry::Counter(c.clone()),
            MetricEntry::Gauge(g) => MetricEntry::Gauge(g.clone()),
            MetricEntry::Histogram(h) => MetricEntry::Histogram(h.clone()),
        }
    }

    /// Look up a metric by name: a clone of the handle registered under
    /// `name`, if any.
    pub fn get(&self, name: &str) -> (r: Option<MetricEntry<H>>) where H: Clone
        ensures
            match r {
                Some(e) => exists|i: int|
                    0 <= i < self.names().len() && self.names()[i] == name@ && spec_entry_cloned(
                        #[trigger] self.metrics()[i],
                        e,
                    ),
                None => !self.names().contains(name@),
            },
    {
        let owned = text(name);
        match self.find(&owned) {
            Some(i) => {
                let e = Self::copy_entry(&self.entries[i].1);
                assert(self.metrics()[i as int] == self.entries@[i as int].1);
                Some(e)
            },
            None => None,
        }
    }

    /// Number of registered metrics.
    ///
    /// Every registry, whatever was registered into it, holds each name
    /// once and at most [`MAX_METRICS`] names.
    pub fn len(&self) -> (n: usize)
        ensures
            n == self.names().len(),
            n <= MAX_METRICS,
            names_unique(self.names()),
    {
        proof {
            use_type_invariant(self);
        }
        self.entries.len()
    }

    /// Whether no metric is registered.
    pub fn is_empty(&self) -> (b: bool)
        ensures
            b == (self.names().len() == 0),
    {
        self.len() == 0
    }

    /// A snapshot of all registered metrics: their names, in registration
    /// order, each with a clone of its handle.
    pub fn snapshot(&self) -> (r: Vec<(String, MetricEntry<H>)>) where H: Clone
        ensures
            r@.len() == self.names().len(),
            forall|i: int|
                0 <= i < r@.len() ==> #[trigger] r@[i].0@ == self.names()[i] && spec_entry_cloned(
                    self.metrics()[i],
                    r@[i].1,
                ),
    {
        let mut out: Vec<(String, MetricEntry<H>)> = Vec::new();
        let mut i: usize = 0;
        while i < self.entries.len()
            invariant
                i <= self.entries@.len(),
                self.names().len() == self.entries@.len(),
                self.metrics().len() == self.entries@.len(),
                out@.len() == i,
                forall|k: int|
                    0 <= k < i ==> #[trigger] out@[k].0@ == self.names()[k] && spec_entry_cloned(
                        self.metrics()[k],
                        out@[k].1,
                    ),
            decreases self.entries@.len() - i,
        {
            let name = self.entries[i].0.clone();
            let e = Self::copy_entry(&self.entries[i].1);
            assert(self.names()[i as int] == self.entries@[i as int].0@);
            assert(self.metrics()[i as int] == self.entries@[i as int].1);
            out.push((name, e));
            i = i + 1;
        }
        out
    }
}

} // verus!
