//! Snapshots of metric values, ready to be encoded.
use vstd::prelude::*;
use crate::encoding::{
    buckets_model, double_exemplar_model, double_model, u64_exemplar_model, Double,
    EncodeLabelSet, EncodeMetric, Exemplar, LabelPair, MetricEncoder, MetricType, NumberModel,
    SampleModel, ValueModel,
};
use crate::protobuf::copy_double;
use std::collections::HashMap;

verus! {

/// The value of one metric at the time of encoding.
pub enum Snapshot {
    /// A counter with an integer value and an optional exemplar.
    Counter(u64, Option<Exemplar<Vec<(String, String)>, u64>>),
    /// A counter with a double value and an optional exemplar.
    CounterF64(Double, Option<Exemplar<Vec<(String, String)>, Double>>),
    Gauge(i64),
    GaugeF64(Double),
    /// An info metric: its label set.
    Info(Vec<(String, String)>),
    /// A histogram: sum, count, buckets as (upper bound, cumulative count),
    /// and the exemplars by bucket position.
    Histogram(Double, u64, Vec<(Double, u64)>, HashMap<usize, Exemplar<Vec<(String, String)>, Double>>),
}

impl Snapshot {
    /// What the single sample of the snapshot carries.
    pub open spec fn value_model(&self) -> ValueModel {
        match self {
            Snapshot::Counter(v, e) => ValueModel::Counter(
                NumberModel::Int(*v as int),
                match e {
                    Some(x) => u64_exemplar_model(Some(x)),
                    None => None,
                },
            ),
            Snapshot::CounterF64(v, e) => ValueModel::Counter(
                double_model(*v),
                match e {
                    Some(x) => double_exemplar_model(Some(x)),
                    None => None,
                },
            ),
            Snapshot::Gauge(v) => ValueModel::Gauge(NumberModel::Int(*v as int)),
            Snapshot::GaugeF64(v) => ValueModel::Gauge(double_model(*v)),
            Snapshot::Info(ls) => ValueModel::Info(ls.label_pairs()),
            Snapshot::Histogram(sum, count, buckets, exemplars) => ValueModel::Histogram(
                double_model(*sum),
                *count as int,
                buckets_model(buckets@, Some(exemplars)),
            ),
        }
    }
}

impl EncodeMetric for Snapshot {
    open spec fn samples_of(&self, scope: Seq<LabelPair>) -> Seq<SampleModel> {
        seq![SampleModel { labels: scope, value: self.value_model() }]
    }

    open spec fn kind(&self) -> MetricType {
        match self {
            Snapshot::Counter(..) | Snapshot::CounterF64(..) => MetricType::Counter,
            Snapshot::Gauge(_) | Snapshot::GaugeF64(_) => MetricType::Gauge,
            Snapshot::Info(_) => MetricType::Info,
            Snapshot::Histogram(..) => MetricType::Histogram,
        }
    }

    fn encode(&self, encoder: &mut MetricEncoder) -> (r: Result<(), std::fmt::Error>) {
        let ghost before = encoder.samples();
        let ghost scope = encoder.family_labels();
        let r = match self {
            Snapshot::Counter(v, e) => match e {
                Some(x) => encoder.encode_counter_u64(*v, Some(x)),
                None => encoder.encode_counter_u64::<Vec<(String, String)>>(*v, None),
            },
            Snapshot::CounterF64(v, e) => match e {
                Some(x) => encoder.encode_counter_f64(copy_double(v), Some(x)),
                None => encoder.encode_counter_f64::<Vec<(String, String)>>(copy_double(v), None),
            },
            Snapshot::Gauge(v) => encoder.encode_gauge_i64(*v),
            Snapshot::GaugeF64(v) => encoder.encode_gauge_f64(copy_double(v)),
            Snapshot::Info(ls) => encoder.encode_info(ls),
            Snapshot::Histogram(sum, count, buckets, exemplars) => encoder.encode_histogram(
                copy_double(sum),
                *count,
                buckets.as_slice(),
                Some(exemplars),
            ),
        };
        assert(encoder.samples() =~= before + self.samples_of(scope));
        r
    }

    fn metric_type(&self) -> (r: MetricType) {
        match self {
            Snapshot::Counter(..) | Snapshot::CounterF64(..) => MetricType::Counter,
            Snapshot::Gauge(_) | Snapshot::GaugeF64(_) => MetricType::Gauge,
            Snapshot::Info(_) => MetricType::Info,
            Snapshot::Histogram(..) => MetricType::Histogram,
        }
    }
}

/// A family of metrics under one name: each metric with its own label set.
pub struct Family<S, M> {
    pub kind: MetricType,
    pub metrics: Vec<(S, M)>,
}

/// The samples of a family's metrics, each scoped to its own label set.
pub open spec fn family_samples<S: EncodeLabelSet, M: EncodeMetric>(ms: Seq<(S, M)>) -> Seq<
    SampleModel,
>
    decreases ms.len(),
{
    if ms.len() == 0 {
        Seq::empty()
    } else {
        family_samples(ms.drop_last()) + ms.last().1.samples_of(ms.last().0.label_pairs())
    }
}

impl<S: EncodeLabelSet, M: EncodeMetric> EncodeMetric for Family<S, M> {
    open spec fn samples_of(&self, scope: Seq<LabelPair>) -> Seq<SampleModel> {
        family_samples(self.metrics@)
    }

    open spec fn kind(&self) -> MetricType {
        self.kind
    }

    fn encode(&self, encoder: &mut MetricEncoder) -> (r: Result<(), std::fmt::Error>) {
        let ghost start = encoder.samples();
        let ghost text = encoder.is_text();
        let ghost frame = encoder.frame();
        let mut i: usize = 0;
        assert(start + family_samples(self.metrics@.subrange(0, 0)) =~= start);
        while i < self.metrics.len()
            invariant
                i <= self.metrics@.len(),
                encoder.wf(),
                encoder.is_text() == text,
                encoder.frame() == frame,
                encoder.samples() == start + family_samples(self.metrics@.subrange(0, i as int)),
            decreases self.metrics@.len() - i,
        {
            let entry = &self.metrics[i];
            let ghost at = encoder.samples();
            encoder.encode_family(&entry.0)?;
            entry.1.encode(encoder)?;
            proof {
                let sub = self.metrics@.subrange(0, i as int + 1);
                assert(sub.len() > 0);
                assert(sub.drop_last() =~= self.metrics@.subrange(0, i as int));
                assert(sub.last() == *entry);
                assert(encoder.samples() =~= start + family_samples(sub));
            }
            i = i + 1;
        }
        assert(self.metrics@.subrange(0, self.metrics@.len() as int) =~= self.metrics@);
        Ok(())
    }

    fn metric_type(&self) -> (r: MetricType) {
        self.kind
    }
}

} // verus!
