use vstd::prelude::*;

use prometheus_client::registry::Metric;
use prometheus_client::registry::Registry;

use crate::encoding::{blocks_in_order, encode, ends_with_eof, eof_marker, metric_names, extras};
use crate::error::MetricsError;
use crate::registry::{add_name, HistogramRegistry};

verus! {

/// Relies on `prometheus_client::registry::Registry::default`: a registry
/// without metrics, collectors, sub-registries or prefix.
#[verifier::external_body]
fn empty_registry() -> (r: Registry)
    ensures
        metric_names(r) == Seq::<Seq<char>>::empty(),
        extras(r) == 0,
{
    Registry::default()
}

/// Relies on `prometheus_client::registry::Registry::register`: it appends
/// the metric, under the name as given and without a unit, to the metrics to
/// be encoded, and adds no collector, sub-registry or prefix.
#[verifier::external_body]
fn register_metric<M: Metric>(registry: &mut Registry, name: &str, help: &str, metric: M)
    ensures
        metric_names(*final(registry)) == metric_names(*old(registry)).push(name@),
        extras(*final(registry)) == extras(*old(registry)),
{
    registry.register(name, help, metric)
}

/// The histogram families of a process, both as a catalog for lookups and as
/// a `prometheus_client` registry for encoding.
///
/// Every family is registered in both under the same name, in the same order,
/// and only through `histogram_add`, so that the encoder holds each name once,
/// in registration order, and nothing else.
pub struct MetricsRegistry<F> {
    histograms: HistogramRegistry<F>,
    registry: Registry,
}

impl<F: Metric + Clone> MetricsRegistry<F> {
    /// The catalog of registered families.
    pub closed spec fn catalog(&self) -> HistogramRegistry<F> {
        self.histograms
    }

    /// The `prometheus_client` registry that the text is encoded from.
    pub closed spec fn encoder(&self) -> Registry {
        self.registry
    }

    /// The registered names, in registration order.
    pub open spec fn names(&self) -> Seq<Seq<char>> {
        self.catalog().names()
    }

    /// Names are unique, and the encoder holds the same names in the same
    /// order as the catalog, and no other source of metrics.
    pub open spec fn wf(&self) -> bool {
        &&& self.catalog().wf()
        &&& metric_names(self.encoder()) == self.names()
        &&& extras(self.encoder()) == 0
    }

    /// A registry without any histogram.
    pub fn new() -> (r: Self)
        ensures
            r.wf(),
            r.names().len() == 0,
    {
        let r = MetricsRegistry { histograms: HistogramRegistry::new(), registry: empty_registry() };
        proof {
            assert(r.names() =~= Seq::<Seq<char>>::empty());
        }
        r
    }

    /// Whether a histogram named `name` is registered.
    pub fn contains(&self, name: &str) -> (r: bool)
        ensures
            r == self.names().contains(name@),
    {
        self.histograms.contains(name)
    }

    /// Registers `family` under `name` with its help text.
    ///
    /// A name that is already registered is refused with `DuplicateName` and
    /// nothing changes; a new name is appended to the catalog and to the
    /// metrics to be encoded.
    pub fn histogram_add(&mut self, name: &str, help: &str, family: F) -> (r: Result<(), MetricsError>)
        requires
            old(self).wf(),
        ensures
            final(self).wf(),
            final(self).names() == add_name(old(self).names(), name@),
            r is Ok <==> !old(self).names().contains(name@),
            r is Ok ==> final(self).catalog().helps() == old(self).catalog().helps().push(help@),
            r is Ok ==> final(self).catalog().families() == old(self).catalog().families().push(
                family,
            ),
            !(r is Ok) ==> final(self).catalog() == old(self).catalog(),
            !(r is Ok) ==> final(self).encoder() == old(self).encoder(),
            !(r is Ok) ==> (r matches Err(MetricsError::DuplicateName(n)) && n@ == name@),
    {
        if self.histograms.contains(name) {
            return Err(MetricsError::DuplicateName(name.to_owned()));
        }
        let encoded = family.clone();
        let r = self.histograms.histogram_add(name, help, family);
        register_metric(&mut self.registry, name, help, encoded);
        r
    }

    /// The family registered under `name`, or `UnknownMetric`.
    pub fn histogram_family(&self, name: &str) -> (r: Result<&F, MetricsError>)
        ensures
            r is Ok <==> self.names().contains(name@),
            match r {
                Ok(f) => exists|i: int|
                    0 <= i < self.names().len() && self.names()[i] == name@ && *f
                        == self.catalog().families()[i],
                Err(e) => e matches MetricsError::UnknownMetric(n) && n@ == name@,
            },
    {
        let r = self.histograms.histogram_family(name);
        proof {
            assert(self.catalog() == self.histograms);
        }
        r
    }

    /// The registered names, in registration order.
    pub fn histogram_list(&self) -> (r: Vec<String>)
        ensures
            r@.map_values(|s: String| s@) == self.names(),
    {
        self.histograms.histogram_list()
    }

    /// The text exposition of the registered histograms, or `EncodeIO`.
    ///
    /// The text is one block per histogram family, in registration order,
    /// closed by the end-of-exposition marker; a family with no observed
    /// label-set yet produces no block. A registry without histograms gives
    /// the marker alone.
    pub fn encode(&self) -> (r: Result<String, MetricsError>)
        requires
            self.wf(),
        ensures
            r matches Ok(text) ==> ends_with_eof(text@),
            r matches Ok(text) ==> blocks_in_order(text@, self.names()),
            self.names().len() == 0 ==> (r is Ok && r->Ok_0@ == eof_marker()),
            r is Err ==> r == Err::<String, MetricsError>(MetricsError::EncodeIO),
    {
        encode(&self.registry)
    }
}

} // verus!
