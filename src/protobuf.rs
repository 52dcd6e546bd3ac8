//! Binary backend: builds the metric-set message.
use vstd::prelude::*;
use crate::encoding::{
    bucket_exemplar, buckets_model, BucketModel, EncodeMetric, Entry, MetricEncoderInner,
    double_exemplar_model, double_model, into_protobuf, u64_exemplar_model, Double,
    EncodeLabelSet, Exemplar, ExemplarModel, LabelPair, LabelSetEncoderInner, MetricType,
    NumberModel, SampleModel, ValueModel,
};

verus! {

/// A label of the binary message.
pub struct Label {
    pub name: String,
    pub value: String,
}

/// The labels of a message as text pairs.
pub open spec fn label_views(v: Seq<Label>) -> Seq<LabelPair> {
    v.map_values(|l: Label| (l.name@, l.value@))
}

pub proof fn lemma_label_views_push(v: Seq<Label>, l: Label)
    ensures
        label_views(v.push(l)) == label_views(v).push((l.name@, l.value@)),
{
    assert(label_views(v.push(l)) =~= label_views(v).push((l.name@, l.value@)));
}

/// Binary label-set encoder: collects the labels.
pub struct LabelSetEncoder {
    pub labels: Vec<Label>,
}

impl LabelSetEncoder {
    pub fn new() -> (r: Self)
        ensures
            label_views(r.labels@) == Seq::<LabelPair>::empty(),
    {
        let r = LabelSetEncoder { labels: Vec::new() };
        assert(label_views(r.labels@) =~= Seq::<LabelPair>::empty());
        r
    }

    pub fn encode_label(self) -> (r: LabelEncoder)
        ensures
            r.labels@ == self.labels@,
    {
        LabelEncoder { labels: self.labels }
    }
}

/// Binary label encoder: the next label is about to start.
pub struct LabelEncoder {
    pub labels: Vec<Label>,
}

impl LabelEncoder {
    pub fn encode_label_key(self) -> (r: LabelKeyEncoder)
        ensures
            r.labels@ == self.labels@,
            r.key@ == Seq::<char>::empty(),
    {
        LabelKeyEncoder { labels: self.labels, key: String::new() }
    }
}

/// Binary label-key encoder: the key is being written.
pub struct LabelKeyEncoder {
    pub labels: Vec<Label>,
    pub key: String,
}

impl LabelKeyEncoder {
    pub fn write_str(&mut self, s: &str)
        ensures
            final(self).labels@ == old(self).labels@,
            final(self).key@ == old(self).key@ + s@,
    {
        self.key.append(s);
    }

    pub fn encode_label_value(self) -> (r: LabelValueEncoder)
        ensures
            r.labels@ == self.labels@,
            r.key@ == self.key@,
            r.value@ == Seq::<char>::empty(),
    {
        LabelValueEncoder { labels: self.labels, key: self.key, value: String::new() }
    }
}

/// Binary label-value encoder: the value is being written, as it is.
pub struct LabelValueEncoder {
    pub labels: Vec<Label>,
    pub key: String,
    pub value: String,
}

impl LabelValueEncoder {
    pub fn write_str(&mut self, s: &str)
        ensures
            final(self).labels@ == old(self).labels@,
            final(self).key@ == old(self).key@,
            final(self).value@ == old(self).value@ + s@,
    {
        self.value.append(s);
    }

    pub fn finish(self) -> (r: LabelSetEncoder)
        ensures
            label_views(r.labels@) == label_views(self.labels@).push((self.key@, self.value@)),
    {
        let mut labels = self.labels;
        let l = Label { name: self.key, value: self.value };
        proof {
            lemma_label_views_push(labels@, l);
        }
        labels.push(l);
        LabelSetEncoder { labels }
    }
}

/// A copy of a list of labels.
pub fn clone_labels(v: &Vec<Label>) -> (r: Vec<Label>)
    ensures
        label_views(r@) == label_views(v@),
{
    let mut r: Vec<Label> = Vec::new();
    let mut i: usize = 0;
    while i < v.len()
        invariant
            i <= v@.len(),
            label_views(r@) == label_views(v@.subrange(0, i as int)),
        decreases v@.len() - i,
    {
        let l = Label { name: v[i].name.clone(), value: v[i].value.clone() };
        proof {
            lemma_label_views_push(r@, l);
        }
        r.push(l);
        assert(label_views(v@.subrange(0, i as int + 1)) =~= label_views(
            v@.subrange(0, i as int),
        ).push((v@[i as int].name@, v@[i as int].value@)));
        i = i + 1;
    }
    assert(v@.subrange(0, v@.len() as int) =~= v@);
    r
}

/// The labels of `extra` as binary labels, after a copy of `base`.
fn labels_with<S: EncodeLabelSet>(base: &Vec<Label>, extra: &S) -> (r: Vec<Label>)
    ensures
        label_views(r@) == label_views(base@) + extra.label_pairs(),
{
    let copy = LabelSetEncoder { labels: clone_labels(base) };
    let e = crate::encoding::LabelSetEncoder(LabelSetEncoderInner::Protobuf(copy));
    match extra.encode(e) {
        Ok(done) => into_protobuf(done).labels,
        Err(_) => Vec::new(),
    }
}

/// A number of the binary message.
pub enum Number {
    Unsigned(u64),
    Signed(i64),
    Double(Double),
}

pub open spec fn number_view(n: Number) -> NumberModel {
    match n {
        Number::Unsigned(u) => NumberModel::Int(u as int),
        Number::Signed(i) => NumberModel::Int(i as int),
        Number::Double(d) => double_model(d),
    }
}

/// An exemplar of the binary message.
pub struct ExemplarPoint {
    pub labels: Vec<Label>,
    pub value: Number,
}

pub open spec fn exemplar_view(e: Option<ExemplarPoint>) -> Option<ExemplarModel> {
    match e {
        Some(x) => Some(ExemplarModel { labels: label_views(x.labels@), value: number_view(x.value) }),
        None => None,
    }
}

/// The kind-specific payload of a metric message.
pub enum MetricPoint {
    Counter(Number, Option<ExemplarPoint>),
    Gauge(Number),
    Info(Vec<Label>),
    /// Sum, count and buckets.
    Histogram(Double, u64, Vec<BucketPoint>),
}

/// A histogram bucket of the binary message.
pub struct BucketPoint {
    pub upper_bound: Double,
    pub count: u64,
    pub exemplar: Option<ExemplarPoint>,
}

pub open spec fn bucket_view(b: BucketPoint) -> BucketModel {
    BucketModel {
        bound: double_model(b.upper_bound),
        count: b.count as int,
        exemplar: exemplar_view(b.exemplar),
    }
}

pub open spec fn bucket_views(v: Seq<BucketPoint>) -> Seq<BucketModel> {
    v.map_values(|b: BucketPoint| bucket_view(b))
}

/// A metric message: its labels and its payload.
pub struct Metric {
    pub labels: Vec<Label>,
    pub point: MetricPoint,
}

pub open spec fn metric_view(m: Metric) -> SampleModel {
    SampleModel {
        labels: label_views(m.labels@),
        value: match m.point {
            MetricPoint::Counter(v, e) => ValueModel::Counter(number_view(v), exemplar_view(e)),
            MetricPoint::Gauge(v) => ValueModel::Gauge(number_view(v)),
            MetricPoint::Info(ls) => ValueModel::Info(label_views(ls@)),
            MetricPoint::Histogram(sum, count, bs) => ValueModel::Histogram(
                double_model(sum),
                count as int,
                bucket_views(bs@),
            ),
        },
    }
}

pub open spec fn metric_views(v: Seq<Metric>) -> Seq<SampleModel> {
    v.map_values(|m: Metric| metric_view(m))
}

/// A metric-family message.
pub struct MetricFamily {
    pub name: String,
    pub help: String,
    pub kind: MetricType,
    pub metrics: Vec<Metric>,
}

/// The whole message: one family per registered metric.
pub struct MetricSet {
    pub families: Vec<MetricFamily>,
}

/// Binary metric encoder: collects the metric messages of one family.
pub struct MetricEncoder {
    pub metrics: Vec<Metric>,
    /// The labels of the family scope that every metric carries.
    pub family: Vec<Label>,
}

impl MetricEncoder {
    pub open spec fn samples(&self) -> Seq<SampleModel> {
        metric_views(self.metrics@)
    }

    pub fn new() -> (r: Self)
        ensures
            r.samples() == Seq::<SampleModel>::empty(),
            label_views(r.family@) == Seq::<LabelPair>::empty(),
    {
        let r = MetricEncoder { metrics: Vec::new(), family: Vec::new() };
        assert(r.samples() =~= Seq::<SampleModel>::empty());
        assert(label_views(r.family@) =~= Seq::<LabelPair>::empty());
        r
    }

    fn push_metric(&mut self, point: MetricPoint) -> (ghost_sample: Ghost<SampleModel>)
        ensures
            final(self).family == old(self).family,
            ghost_sample@ == metric_view(Metric { labels: old(self).family, point }),
            final(self).samples() == old(self).samples().push(
                SampleModel { labels: label_views(old(self).family@), value: ghost_sample@.value },
            ),
    {
        let m = Metric { labels: clone_labels(&self.family), point };
        let ghost view = metric_view(m);
        self.metrics.push(m);
        assert(self.samples() =~= old(self).samples().push(view));
        Ghost(metric_view(Metric { labels: old(self).family, point }))
    }

    pub fn encode_counter_u64<S: EncodeLabelSet>(
        &mut self,
        v: u64,
        exemplar: Option<&Exemplar<S, u64>>,
    )
        ensures
            final(self).family == old(self).family,
            final(self).samples() == old(self).samples().push(
                SampleModel {
                    labels: label_views(old(self).family@),
                    value: ValueModel::Counter(
                        NumberModel::Int(v as int),
                        u64_exemplar_model(exemplar),
                    ),
                },
            ),
    {
        let e = match exemplar {
            Some(x) => {
                let labels = labels_with(&Vec::new(), &x.label_set);
                assert(label_views(Seq::<Label>::empty()) =~= Seq::<LabelPair>::empty());
                assert(Seq::<LabelPair>::empty() + x.label_set.label_pairs()
                    =~= x.label_set.label_pairs());
                Some(ExemplarPoint { labels, value: Number::Unsigned(x.value) })
            },
            None => None,
        };
        self.push_metric(MetricPoint::Counter(Number::Unsigned(v), e));
    }

    pub fn encode_counter_f64<S: EncodeLabelSet>(
        &mut self,
        v: &Double,
        exemplar: Option<&Exemplar<S, Double>>,
    )
        ensures
            final(self).family == old(self).family,
            final(self).samples() == old(self).samples().push(
                SampleModel {
                    labels: label_views(old(self).family@),
                    value: ValueModel::Counter(double_model(*v), double_exemplar_model(exemplar)),
                },
            ),
    {
        let e = match exemplar {
            Some(x) => {
                let labels = labels_with(&Vec::new(), &x.label_set);
                assert(label_views(Seq::<Label>::empty()) =~= Seq::<LabelPair>::empty());
                assert(Seq::<LabelPair>::empty() + x.label_set.label_pairs()
                    =~= x.label_set.label_pairs());
                Some(ExemplarPoint { labels, value: Number::Double(copy_double(&x.value)) })
            },
            None => None,
        };
        self.push_metric(MetricPoint::Counter(Number::Double(copy_double(v)), e));
    }

    pub fn encode_gauge_i64(&mut self, v: i64)
        ensures
            final(self).family == old(self).family,
            final(self).samples() == old(self).samples().push(
                SampleModel {
                    labels: label_views(old(self).family@),
                    value: ValueModel::Gauge(NumberModel::Int(v as int)),
                },
            ),
    {
        self.push_metric(MetricPoint::Gauge(Number::Signed(v)));
    }

    pub fn encode_gauge_f64(&mut self, v: &Double)
        ensures
            final(self).family == old(self).family,
            final(self).samples() == old(self).samples().push(
                SampleModel {
                    labels: label_views(old(self).family@),
                    value: ValueModel::Gauge(double_model(*v)),
                },
            ),
    {
        self.push_metric(MetricPoint::Gauge(Number::Double(copy_double(v))));
    }

    pub fn encode_info<S: EncodeLabelSet>(&mut self, label_set: &S)
        ensures
            final(self).family == old(self).family,
            final(self).samples() == old(self).samples().push(
                SampleModel {
                    labels: label_views(old(self).family@),
                    value: ValueModel::Info(label_set.label_pairs()),
                },
            ),
    {
        let labels = labels_with(&Vec::new(), label_set);
        assert(label_views(Seq::<Label>::empty()) =~= Seq::<LabelPair>::empty());
        assert(Seq::<LabelPair>::empty() + label_set.label_pairs() =~= label_set.label_pairs());
        self.push_metric(MetricPoint::Info(labels));
    }

    pub fn encode_histogram<S: EncodeLabelSet>(
        &mut self,
        sum: &Double,
        count: u64,
        buckets: &[(Double, u64)],
        exemplars: Option<&std::collections::HashMap<usize, Exemplar<S, Double>>>,
    )
        ensures
            final(self).family == old(self).family,
            final(self).samples() == old(self).samples().push(
                SampleModel {
                    labels: label_views(old(self).family@),
                    value: ValueModel::Histogram(
                        double_model(*sum),
                        count as int,
                        buckets_model(buckets@, exemplars),
                    ),
                },
            ),
    {
        let ghost bs = buckets_model(buckets@, exemplars);
        let mut points: Vec<BucketPoint> = Vec::new();
        let mut i: usize = 0;
        while i < buckets.len()
            invariant
                i <= buckets@.len(),
                bs == buckets_model(buckets@, exemplars),
                bucket_views(points@) == bs.subrange(0, i as int),
            decreases buckets@.len() - i,
        {
            let found = crate::text::lookup_exemplar(exemplars, i);
            let exemplar = match found {
                Some(x) => {
                    let labels = labels_with(&Vec::new(), &x.label_set);
                    assert(label_views(Seq::<Label>::empty()) =~= Seq::<LabelPair>::empty());
                    assert(Seq::<LabelPair>::empty() + x.label_set.label_pairs()
                        =~= x.label_set.label_pairs());
                    Some(ExemplarPoint { labels, value: Number::Double(copy_double(&x.value)) })
                },
                None => None,
            };
            let b = BucketPoint {
                upper_bound: copy_double(&buckets[i].0),
                count: buckets[i].1,
                exemplar,
            };
            assert(bucket_view(b) == bs[i as int]);
            let ghost prev = points@;
            points.push(b);
            assert(points@ == prev.push(b));
            assert(bucket_views(points@) =~= bucket_views(prev).push(bucket_view(b)));
            assert(bucket_views(points@) =~= bs.subrange(0, i as int + 1));
            i = i + 1;
        }
        assert(bs.subrange(0, buckets@.len() as int) =~= bs);
        self.push_metric(MetricPoint::Histogram(copy_double(sum), count, points));
    }

    /// Scope the metrics that follow to the labels of `label_set`.
    pub fn encode_family<S: EncodeLabelSet>(&mut self, label_set: &S)
        ensures
            final(self).metrics == old(self).metrics,
            label_views(final(self).family@) == label_set.label_pairs(),
    {
        let labels = labels_with(&Vec::new(), label_set);
        assert(label_views(Seq::<Label>::empty()) =~= Seq::<LabelPair>::empty());
        assert(Seq::<LabelPair>::empty() + label_set.label_pairs() =~= label_set.label_pairs());
        self.family = labels;
    }
}

/// A copy of a double.
pub fn copy_double(d: &Double) -> (r: Double)
    ensures
        r == *d,
{
    Double { bits: d.bits, text: d.text.clone() }
}

/// A family message carries the name, help, kind and samples of a registry entry.
pub open spec fn family_matches<M: EncodeMetric>(f: MetricFamily, e: Entry<M>) -> bool {
    &&& f.name@ == e.name@
    &&& f.help@ == e.help@
    &&& f.kind == e.metric.kind()
    &&& metric_views(f.metrics@) == e.metric.samples_of(Seq::empty())
}

/// The message holds one family per registry entry, in registry order.
pub open spec fn set_matches<M: EncodeMetric>(m: MetricSet, registry: Seq<Entry<M>>) -> bool {
    &&& m.families@.len() == registry.len()
    &&& forall|i: int|
        0 <= i < registry.len() ==> #[trigger] family_matches(m.families@[i], registry[i])
}

/// Encode the registry as a binary metric-set message.
pub fn encode<M: EncodeMetric>(registry: &[Entry<M>]) -> (r: Result<MetricSet, std::fmt::Error>)
    ensures
        r is Ok,
        set_matches(r->Ok_0, registry@),
{
    let mut families: Vec<MetricFamily> = Vec::new();
    let mut i: usize = 0;
    while i < registry.len()
        invariant
            i <= registry@.len(),
            families@.len() == i,
            forall|j: int| 0 <= j < i ==> #[trigger] family_matches(families@[j], registry@[j]),
        decreases registry@.len() - i,
    {
        let e = &registry[i];
        let mut enc = crate::encoding::MetricEncoder(
            MetricEncoderInner::Protobuf(MetricEncoder::new()),
        );
        e.metric.encode(&mut enc)?;
        assert(Seq::<SampleModel>::empty() + e.metric.samples_of(Seq::empty())
            =~= e.metric.samples_of(Seq::empty()));
        let metrics = match enc.0 {
            MetricEncoderInner::Protobuf(p) => p.metrics,
            MetricEncoderInner::Text(_) => Vec::new(),
        };
        let f = MetricFamily {
            name: e.name.clone(),
            help: e.help.clone(),
            kind: e.metric.metric_type(),
            metrics,
        };
        families.push(f);
        i = i + 1;
    }
    Ok(MetricSet { families })
}

} // verus!
