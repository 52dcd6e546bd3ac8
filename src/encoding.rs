//! Format-independent encoders and the label traits.
//!
//! Each encoder stage is consumed by the call that advances it: a label set
//! hands out a label encoder, which becomes a key encoder, which becomes a
//! value encoder, which must be finished to give the label set back.
use vstd::prelude::*;
use crate::decimal::{decimal, u64_text};
use crate::protobuf;
use crate::protobuf::label_views;
use crate::text;

verus! {

/// A label as text: its key and its value.
pub type LabelPair = (Seq<char>, Seq<char>);

/// Declares `std::fmt::Error`, the error type of every encoder call, so that
/// signatures can name it; no verified function constructs one.
#[verifier::external_type_specification]
#[verifier::external_body]
pub struct ExFmtError(std::fmt::Error);

/// Encoder for a label set, in either format.
pub struct LabelSetEncoder(pub LabelSetEncoderInner);

pub enum LabelSetEncoderInner {
    Text(text::LabelSetEncoder),
    Protobuf(protobuf::LabelSetEncoder),
}

impl LabelSetEncoder {
    pub open spec fn wf(&self) -> bool {
        match self.0 {
            LabelSetEncoderInner::Text(e) => e.wf(),
            LabelSetEncoderInner::Protobuf(_) => true,
        }
    }

    /// The labels written so far.
    pub open spec fn labels(&self) -> Seq<LabelPair> {
        match self.0 {
            LabelSetEncoderInner::Text(e) => e.labels@,
            LabelSetEncoderInner::Protobuf(e) => label_views(e.labels@),
        }
    }

    pub open spec fn is_text(&self) -> bool {
        self.0 is Text
    }

    /// An empty label set in the text format.
    pub fn new_text() -> (r: Self)
        ensures
            r.wf(),
            r.is_text(),
            r.labels() == Seq::<LabelPair>::empty(),
    {
        LabelSetEncoder(LabelSetEncoderInner::Text(text::LabelSetEncoder::new()))
    }

    /// An empty label set in the binary format.
    pub fn new_protobuf() -> (r: Self)
        ensures
            r.wf(),
            !r.is_text(),
            r.labels() == Seq::<LabelPair>::empty(),
    {
        LabelSetEncoder(LabelSetEncoderInner::Protobuf(protobuf::LabelSetEncoder::new()))
    }

    /// Start the next label.
    pub fn encode_label(self) -> (r: LabelEncoder)
        requires
            self.wf(),
        ensures
            r.wf(),
            r.is_text() == self.is_text(),
            r.labels() == self.labels(),
    {
        match self.0 {
            LabelSetEncoderInner::Text(e) => LabelEncoder(LabelEncoderInner::Text(e.encode_label())),
            LabelSetEncoderInner::Protobuf(e) => LabelEncoder(
                LabelEncoderInner::Protobuf(e.encode_label()),
            ),
        }
    }
}

/// Encoder for one label, in either format.
pub struct LabelEncoder(pub LabelEncoderInner);

pub enum LabelEncoderInner {
    Text(text::LabelEncoder),
    Protobuf(protobuf::LabelEncoder),
}

impl LabelEncoder {
    pub open spec fn wf(&self) -> bool {
        match self.0 {
            LabelEncoderInner::Text(e) => e.wf(),
            LabelEncoderInner::Protobuf(_) => true,
        }
    }

    pub open spec fn labels(&self) -> Seq<LabelPair> {
        match self.0 {
            LabelEncoderInner::Text(e) => e.labels@,
            LabelEncoderInner::Protobuf(e) => label_views(e.labels@),
        }
    }

    pub open spec fn is_text(&self) -> bool {
        self.0 is Text
    }

    /// Start the label's key.
    pub fn encode_label_key(self) -> (r: Result<LabelKeyEncoder, std::fmt::Error>)
        requires
            self.wf(),
        ensures
            r is Ok,
            r->Ok_0.wf(),
            r->Ok_0.is_text() == self.is_text(),
            r->Ok_0.labels() == self.labels(),
            r->Ok_0.key() == Seq::<char>::empty(),
    {
        match self.0 {
            LabelEncoderInner::Text(e) => Ok(
                LabelKeyEncoder(LabelKeyEncoderInner::Text(e.encode_label_key())),
            ),
            LabelEncoderInner::Protobuf(e) => Ok(
                LabelKeyEncoder(LabelKeyEncoderInner::Protobuf(e.encode_label_key())),
            ),
        }
    }
}

/// Encoder for a label key, in either format.
pub struct LabelKeyEncoder(pub LabelKeyEncoderInner);

pub enum LabelKeyEncoderInner {
    Text(text::LabelKeyEncoder),
    Protobuf(protobuf::LabelKeyEncoder),
}

impl LabelKeyEncoder {
    pub open spec fn wf(&self) -> bool {
        match self.0 {
            LabelKeyEncoderInner::Text(e) => e.wf(),
            LabelKeyEncoderInner::Protobuf(_) => true,
        }
    }

    pub open spec fn labels(&self) -> Seq<LabelPair> {
        match self.0 {
            LabelKeyEncoderInner::Text(e) => e.labels@,
            LabelKeyEncoderInner::Protobuf(e) => label_views(e.labels@),
        }
    }

    /// The key written so far.
    pub open spec fn key(&self) -> Seq<char> {
        match self.0 {
            LabelKeyEncoderInner::Text(e) => e.key@,
            LabelKeyEncoderInner::Protobuf(e) => e.key@,
        }
    }

    pub open spec fn is_text(&self) -> bool {
        self.0 is Text
    }

    /// Append text to the key.
    pub fn write_str(&mut self, s: &str) -> (r: Result<(), std::fmt::Error>)
        requires
            old(self).wf(),
        ensures
            r is Ok,
            final(self).wf(),
            final(self).is_text() == old(self).is_text(),
            final(self).labels() == old(self).labels(),
            final(self).key() == old(self).key() + s@,
    {
        match &mut self.0 {
            LabelKeyEncoderInner::Text(e) => e.write_str(s),
            LabelKeyEncoderInner::Protobuf(e) => e.write_str(s),
        }
        Ok(())
    }

    /// End the key and start the value.
    pub fn encode_label_value(self) -> (r: Result<LabelValueEncoder, std::fmt::Error>)
        requires
            self.wf(),
        ensures
            r is Ok,
            r->Ok_0.wf(),
            r->Ok_0.is_text() == self.is_text(),
            r->Ok_0.labels() == self.labels(),
            r->Ok_0.key() == self.key(),
            r->Ok_0.value() == Seq::<char>::empty(),
    {
        match self.0 {
            LabelKeyEncoderInner::Text(e) => Ok(
                LabelValueEncoder(LabelValueEncoderInner::Text(e.encode_label_value())),
            ),
            LabelKeyEncoderInner::Protobuf(e) => Ok(
                LabelValueEncoder(LabelValueEncoderInner::Protobuf(e.encode_label_value())),
            ),
        }
    }
}

/// Encoder for a label value, in either format.
pub struct LabelValueEncoder(pub LabelValueEncoderInner);

pub enum LabelValueEncoderInner {
    Text(text::LabelValueEncoder),
    Protobuf(protobuf::LabelValueEncoder),
}

impl LabelValueEncoder {
    pub open spec fn wf(&self) -> bool {
        match self.0 {
            LabelValueEncoderInner::Text(e) => e.wf(),
            LabelValueEncoderInner::Protobuf(_) => true,
        }
    }

    pub open spec fn labels(&self) -> Seq<LabelPair> {
        match self.0 {
            LabelValueEncoderInner::Text(e) => e.labels@,
            LabelValueEncoderInner::Protobuf(e) => label_views(e.labels@),
        }
    }

    pub open spec fn key(&self) -> Seq<char> {
        match self.0 {
            LabelValueEncoderInner::Text(e) => e.key@,
            LabelValueEncoderInner::Protobuf(e) => e.key@,
        }
    }

    /// The value written so far.
    pub open spec fn value(&self) -> Seq<char> {
        match self.0 {
            LabelValueEncoderInner::Text(e) => e.value@,
            LabelValueEncoderInner::Protobuf(e) => e.value@,
        }
    }

    pub open spec fn is_text(&self) -> bool {
        self.0 is Text
    }

    /// Append text to the value.
    pub fn write_str(&mut self, s: &str) -> (r: Result<(), std::fmt::Error>)
        requires
            old(self).wf(),
        ensures
            r is Ok,
            final(self).wf(),
            final(self).is_text() == old(self).is_text(),
            final(self).labels() == old(self).labels(),
            final(self).key() == old(self).key(),
            final(self).value() == old(self).value() + s@,
    {
        match &mut self.0 {
            LabelValueEncoderInner::Text(e) => e.write_str(s),
            LabelValueEncoderInner::Protobuf(e) => e.write_str(s),
        }
        Ok(())
    }

    /// End the value: the label joins the set, which is handed back.
    pub fn finish(self) -> (r: Result<LabelSetEncoder, std::fmt::Error>)
        requires
            self.wf(),
        ensures
            r is Ok,
            r->Ok_0.wf(),
            r->Ok_0.is_text() == self.is_text(),
            r->Ok_0.labels() == self.labels().push((self.key(), self.value())),
    {
        match self.0 {
            LabelValueEncoderInner::Text(e) => Ok(
                LabelSetEncoder(LabelSetEncoderInner::Text(e.finish())),
            ),
            LabelValueEncoderInner::Protobuf(e) => Ok(
                LabelSetEncoder(LabelSetEncoderInner::Protobuf(e.finish())),
            ),
        }
    }
}

/// An encodable label key.
pub trait EncodeLabelKey {
    /// The text of the key.
    spec fn key_text(&self) -> Seq<char>;

    /// Encode oneself into the given encoder.
    fn encode(&self, encoder: &mut LabelKeyEncoder) -> (r: Result<(), std::fmt::Error>)
        requires
            old(encoder).wf(),
        ensures
            r is Ok,
            final(encoder).wf(),
            final(encoder).is_text() == old(encoder).is_text(),
            final(encoder).labels() == old(encoder).labels(),
            final(encoder).key() == old(encoder).key() + self.key_text(),
    ;
}

/// An encodable label value.
pub trait EncodeLabelValue {
    /// The text of the value.
    spec fn value_text(&self) -> Seq<char>;

    /// Encode oneself into the given encoder.
    fn encode(&self, encoder: &mut LabelValueEncoder) -> (r: Result<(), std::fmt::Error>)
        requires
            old(encoder).wf(),
        ensures
            r is Ok,
            final(encoder).wf(),
            final(encoder).is_text() == old(encoder).is_text(),
            final(encoder).labels() == old(encoder).labels(),
            final(encoder).key() == old(encoder).key(),
            final(encoder).value() == old(encoder).value() + self.value_text(),
    ;
}

/// An encodable label.
pub trait EncodeLabel {
    /// The label as key and value text.
    spec fn label_pair(&self) -> LabelPair;

    /// Encode oneself into the given encoder; the label set is handed back.
    fn encode(&self, encoder: LabelEncoder) -> (r: Result<LabelSetEncoder, std::fmt::Error>)
        requires
            encoder.wf(),
        ensures
            r is Ok,
            r->Ok_0.wf(),
            r->Ok_0.is_text() == encoder.is_text(),
            r->Ok_0.labels() == encoder.labels().push(self.label_pair()),
    ;
}

/// An encodable label set.
pub trait EncodeLabelSet {
    /// The labels of the set, in order.
    spec fn label_pairs(&self) -> Seq<LabelPair>;

    /// Encode oneself into the given encoder, which is handed back.
    fn encode(&self, encoder: LabelSetEncoder) -> (r: Result<LabelSetEncoder, std::fmt::Error>)
        requires
            encoder.wf(),
        ensures
            r is Ok,
            r->Ok_0.wf(),
            r->Ok_0.is_text() == encoder.is_text(),
            r->Ok_0.labels() == encoder.labels() + self.label_pairs(),
    ;
}

impl<'a> EncodeLabelKey for &'a str {
    open spec fn key_text(&self) -> Seq<char> {
        (**self)@
    }

    fn encode(&self, encoder: &mut LabelKeyEncoder) -> (r: Result<(), std::fmt::Error>) {
        encoder.write_str(*self)
    }
}

impl<'a> EncodeLabelValue for &'a str {
    open spec fn value_text(&self) -> Seq<char> {
        (**self)@
    }

    fn encode(&self, encoder: &mut LabelValueEncoder) -> (r: Result<(), std::fmt::Error>) {
        encoder.write_str(*self)
    }
}

impl EncodeLabelKey for String {
    open spec fn key_text(&self) -> Seq<char> {
        self@
    }

    fn encode(&self, encoder: &mut LabelKeyEncoder) -> (r: Result<(), std::fmt::Error>) {
        encoder.write_str(self.as_str())
    }
}

impl EncodeLabelValue for String {
    open spec fn value_text(&self) -> Seq<char> {
        self@
    }

    fn encode(&self, encoder: &mut LabelValueEncoder) -> (r: Result<(), std::fmt::Error>) {
        encoder.write_str(self.as_str())
    }
}

impl<'a> EncodeLabelKey for std::borrow::Cow<'a, str> {
    open spec fn key_text(&self) -> Seq<char> {
        self@
    }

    fn encode(&self, encoder: &mut LabelKeyEncoder) -> (r: Result<(), std::fmt::Error>) {
        match self {
            std::borrow::Cow::Borrowed(b) => encoder.write_str(*b),
            std::borrow::Cow::Owned(o) => encoder.write_str(o.as_str()),
        }
    }
}

impl<'a> EncodeLabelValue for std::borrow::Cow<'a, str> {
    open spec fn value_text(&self) -> Seq<char> {
        self@
    }

    fn encode(&self, encoder: &mut LabelValueEncoder) -> (r: Result<(), std::fmt::Error>) {
        match self {
            std::borrow::Cow::Borrowed(b) => encoder.write_str(*b),
            std::borrow::Cow::Owned(o) => encoder.write_str(o.as_str()),
        }
    }
}

impl EncodeLabelValue for u64 {
    open spec fn value_text(&self) -> Seq<char> {
        decimal(*self as nat)
    }

    fn encode(&self, encoder: &mut LabelValueEncoder) -> (r: Result<(), std::fmt::Error>) {
        let digits = u64_text(*self);
        encoder.write_str(digits.as_str())
    }
}

impl<K: EncodeLabelKey, V: EncodeLabelValue> EncodeLabel for (K, V) {
    open spec fn label_pair(&self) -> LabelPair {
        (self.0.key_text(), self.1.value_text())
    }

    fn encode(&self, encoder: LabelEncoder) -> (r: Result<LabelSetEncoder, std::fmt::Error>) {
        let (key, value) = self;
        let mut label_key_encoder = encoder.encode_label_key()?;
        key.encode(&mut label_key_encoder)?;
        let mut label_value_encoder = label_key_encoder.encode_label_value()?;
        value.encode(&mut label_value_encoder)?;
        assert(label_value_encoder.key() =~= key.key_text());
        assert(label_value_encoder.value() =~= value.value_text());
        label_value_encoder.finish()
    }
}

/// The labels of a sequence of encodable labels.
pub open spec fn pairs_of<T: EncodeLabel>(s: Seq<T>) -> Seq<LabelPair> {
    s.map_values(|t: T| t.label_pair())
}

/// Encode each label of a slice in turn; an empty slice writes nothing.
pub fn encode_labels<T: EncodeLabel>(labels: &[T], encoder: LabelSetEncoder) -> (r: Result<
    LabelSetEncoder,
    std::fmt::Error,
>)
    requires
        encoder.wf(),
    ensures
        r is Ok,
        r->Ok_0.wf(),
        r->Ok_0.is_text() == encoder.is_text(),
        r->Ok_0.labels() == encoder.labels() + pairs_of(labels@),
{
    let mut encoder = encoder;
    let ghost start = encoder.labels();
    let ghost text = encoder.is_text();
    let mut i: usize = 0;
    assert(pairs_of(labels@.subrange(0, 0)) =~= Seq::<LabelPair>::empty());
    assert(start + Seq::<LabelPair>::empty() =~= start);
    while i < labels.len()
        invariant
            i <= labels@.len(),
            encoder.wf(),
            encoder.is_text() == text,
            encoder.labels() == start + pairs_of(labels@.subrange(0, i as int)),
        decreases labels@.len() - i,
    {
        let next = labels[i].encode(encoder.encode_label())?;
        assert(pairs_of(labels@.subrange(0, i as int + 1)) =~= pairs_of(
            labels@.subrange(0, i as int),
        ).push(labels@[i as int].label_pair()));
        assert(start + pairs_of(labels@.subrange(0, i as int + 1)) =~= start + pairs_of(
            labels@.subrange(0, i as int),
        ).push(labels@[i as int].label_pair()));
        encoder = next;
        i = i + 1;
    }
    assert(labels@.subrange(0, labels@.len() as int) =~= labels@);
    Ok(encoder)
}

impl<'a, T: EncodeLabel> EncodeLabelSet for &'a [T] {
    open spec fn label_pairs(&self) -> Seq<LabelPair> {
        pairs_of((**self)@)
    }

    fn encode(&self, encoder: LabelSetEncoder) -> (r: Result<LabelSetEncoder, std::fmt::Error>) {
        encode_labels(*self, encoder)
    }
}

impl<T: EncodeLabel> EncodeLabelSet for Vec<T> {
    open spec fn label_pairs(&self) -> Seq<LabelPair> {
        pairs_of(self@)
    }

    fn encode(&self, encoder: LabelSetEncoder) -> (r: Result<LabelSetEncoder, std::fmt::Error>) {
        encode_labels(self.as_slice(), encoder)
    }
}

impl<T: EncodeLabel, const N: usize> EncodeLabelSet for [T; N] {
    open spec fn label_pairs(&self) -> Seq<LabelPair> {
        pairs_of(self@)
    }

    fn encode(&self, encoder: LabelSetEncoder) -> (r: Result<LabelSetEncoder, std::fmt::Error>) {
        encode_labels(self.as_slice(), encoder)
    }
}

impl EncodeLabelSet for () {
    open spec fn label_pairs(&self) -> Seq<LabelPair> {
        Seq::empty()
    }

    fn encode(&self, encoder: LabelSetEncoder) -> (r: Result<LabelSetEncoder, std::fmt::Error>) {
        assert(encoder.labels() + Seq::<LabelPair>::empty() =~= encoder.labels());
        Ok(encoder)
    }
}

/// The kind of a metric family.
#[derive(PartialEq, Eq, Structural, Clone, Copy, Debug)]
pub enum MetricType {
    Counter,
    Gauge,
    Histogram,
    Info,
    Unknown,
}

impl MetricType {
    pub open spec fn name_of(self) -> Seq<char> {
        match self {
            MetricType::Counter => seq!['c', 'o', 'u', 'n', 't', 'e', 'r'],
            MetricType::Gauge => seq!['g', 'a', 'u', 'g', 'e'],
            MetricType::Histogram => seq!['h', 'i', 's', 't', 'o', 'g', 'r', 'a', 'm'],
            MetricType::Info => seq!['i', 'n', 'f', 'o'],
            MetricType::Unknown => seq!['u', 'n', 'k', 'n', 'o', 'w', 'n'],
        }
    }

    /// The name of the kind as the text format writes it.
    pub fn as_str(&self) -> (r: &'static str)
        ensures
            r@ == self.name_of(),
    {
        proof {
            reveal_strlit("counter");
            reveal_strlit("gauge");
            reveal_strlit("histogram");
            reveal_strlit("info");
            reveal_strlit("unknown");
        }
        match self {
            MetricType::Counter => "counter",
            MetricType::Gauge => "gauge",
            MetricType::Histogram => "histogram",
            MetricType::Info => "info",
            MetricType::Unknown => "unknown",
        }
    }
}

/// A double-precision value as the encoders take it: its IEEE-754 bits, which
/// the binary format carries, and its shortest round-trip decimal text
/// (`+Inf`, `-Inf` or `NaN` where it is not finite), which the text format
/// carries.
pub struct Double {
    pub bits: u64,
    pub text: String,
}

/// An exemplar: a label set and a value attached to one observation.
pub struct Exemplar<S, V> {
    pub label_set: S,
    pub value: V,
}

/// A number of a sample.
pub enum NumberModel {
    Int(int),
    Float(u64, Seq<char>),
}

pub open spec fn double_model(d: Double) -> NumberModel {
    NumberModel::Float(d.bits, d.text@)
}

/// An exemplar as labels and a number.
pub struct ExemplarModel {
    pub labels: Seq<LabelPair>,
    pub value: NumberModel,
}

/// What a sample carries, by metric kind.
pub enum ValueModel {
    Counter(NumberModel, Option<ExemplarModel>),
    Gauge(NumberModel),
    Info(Seq<LabelPair>),
    /// Sum, count and buckets.
    Histogram(NumberModel, int, Seq<BucketModel>),
}

/// A histogram bucket: its upper bound, its cumulative count and its exemplar.
pub struct BucketModel {
    pub bound: NumberModel,
    pub count: int,
    pub exemplar: Option<ExemplarModel>,
}

/// The exemplar kept for bucket `i`, if any.
pub open spec fn bucket_exemplar<S: EncodeLabelSet>(
    exemplars: Option<&std::collections::HashMap<usize, Exemplar<S, Double>>>,
    i: int,
) -> Option<ExemplarModel> {
    match exemplars {
        Some(m) => if 0 <= i && m@.contains_key(i as usize) {
            double_exemplar_model(Some(&m@[i as usize]))
        } else {
            None
        },
        None => None,
    }
}

/// The buckets as given, each with the exemplar kept for its position.
pub open spec fn buckets_model<S: EncodeLabelSet>(
    buckets: Seq<(Double, u64)>,
    exemplars: Option<&std::collections::HashMap<usize, Exemplar<S, Double>>>,
) -> Seq<BucketModel> {
    Seq::new(
        buckets.len(),
        |i: int|
            BucketModel {
                bound: double_model(buckets[i].0),
                count: buckets[i].1 as int,
                exemplar: bucket_exemplar(exemplars, i),
            },
    )
}

/// One sample of a metric family: its own labels and its value.
pub struct SampleModel {
    pub labels: Seq<LabelPair>,
    pub value: ValueModel,
}

pub open spec fn u64_exemplar_model<S: EncodeLabelSet>(
    e: Option<&Exemplar<S, u64>>,
) -> Option<ExemplarModel> {
    match e {
        Some(x) => Some(
            ExemplarModel {
                labels: x.label_set.label_pairs(),
                value: NumberModel::Int(x.value as int),
            },
        ),
        None => None,
    }
}

pub open spec fn double_exemplar_model<S: EncodeLabelSet>(
    e: Option<&Exemplar<S, Double>>,
) -> Option<ExemplarModel> {
    match e {
        Some(x) => Some(
            ExemplarModel { labels: x.label_set.label_pairs(), value: double_model(x.value) },
        ),
        None => None,
    }
}

/// Unwraps a text label set; the binary arm is never taken.
pub fn into_text(e: LabelSetEncoder) -> (r: text::LabelSetEncoder)
    requires
        e.wf(),
        e.is_text(),
    ensures
        r.wf(),
        r.labels@ == e.labels(),
{
    match e.0 {
        LabelSetEncoderInner::Text(t) => t,
        LabelSetEncoderInner::Protobuf(_) => text::LabelSetEncoder::new(),
    }
}

/// Unwraps a binary label set; the text arm is never taken.
pub fn into_protobuf(e: LabelSetEncoder) -> (r: protobuf::LabelSetEncoder)
    requires
        !e.is_text(),
    ensures
        label_views(r.labels@) == e.labels(),
{
    match e.0 {
        LabelSetEncoderInner::Protobuf(p) => p,
        LabelSetEncoderInner::Text(_) => protobuf::LabelSetEncoder::new(),
    }
}

/// Encoder for the samples of one metric family, in either format.
pub struct MetricEncoder(pub MetricEncoderInner);

pub enum MetricEncoderInner {
    Text(text::MetricEncoder),
    Protobuf(protobuf::MetricEncoder),
}

impl MetricEncoder {
    pub open spec fn wf(&self) -> bool {
        match self.0 {
            MetricEncoderInner::Text(e) => e.wf(),
            MetricEncoderInner::Protobuf(_) => true,
        }
    }

    pub open spec fn is_text(&self) -> bool {
        self.0 is Text
    }

    /// The samples written so far.
    pub open spec fn samples(&self) -> Seq<SampleModel> {
        match self.0 {
            MetricEncoderInner::Text(e) => e.samples@,
            MetricEncoderInner::Protobuf(e) => e.samples(),
        }
    }

    /// The labels of the current family scope.
    pub open spec fn family_labels(&self) -> Seq<LabelPair> {
        match self.0 {
            MetricEncoderInner::Text(e) => e.family.labels@,
            MetricEncoderInner::Protobuf(e) => label_views(e.family@),
        }
    }

    /// For the text format: the metric name and the output before the first sample.
    pub open spec fn frame(&self) -> (Seq<char>, Seq<char>) {
        match self.0 {
            MetricEncoderInner::Text(e) => (e.name@, e.start@),
            MetricEncoderInner::Protobuf(_) => (Seq::empty(), Seq::empty()),
        }
    }

    /// What every sample-writing call keeps and adds.
    pub open spec fn pushed(&self, old: &MetricEncoder, value: ValueModel) -> bool {
        &&& self.wf()
        &&& self.is_text() == old.is_text()
        &&& self.frame() == old.frame()
        &&& self.family_labels() == old.family_labels()
        &&& self.samples() == old.samples().push(
            SampleModel { labels: old.family_labels(), value },
        )
    }

    /// Encode a counter with a double value.
    pub fn encode_counter_f64<S: EncodeLabelSet>(
        &mut self,
        v: Double,
        exemplar: Option<&Exemplar<S, Double>>,
    ) -> (r: Result<(), std::fmt::Error>)
        requires
            old(self).wf(),
        ensures
            r is Ok,
            final(self).pushed(
                old(self),
                ValueModel::Counter(double_model(v), double_exemplar_model(exemplar)),
            ),
    {
        match &mut self.0 {
            MetricEncoderInner::Text(e) => e.encode_counter_f64(&v, exemplar),
            MetricEncoderInner::Protobuf(e) => e.encode_counter_f64(&v, exemplar),
        }
        Ok(())
    }

    /// Encode a counter with an integer value.
    pub fn encode_counter_u64<S: EncodeLabelSet>(
        &mut self,
        v: u64,
        exemplar: Option<&Exemplar<S, u64>>,
    ) -> (r: Result<(), std::fmt::Error>)
        requires
            old(self).wf(),
        ensures
            r is Ok,
            final(self).pushed(
                old(self),
                ValueModel::Counter(NumberModel::Int(v as int), u64_exemplar_model(exemplar)),
            ),
    {
        match &mut self.0 {
            MetricEncoderInner::Text(e) => e.encode_counter_u64(v, exemplar),
            MetricEncoderInner::Protobuf(e) => e.encode_counter_u64(v, exemplar),
        }
        Ok(())
    }

    /// Encode a gauge with an integer value.
    pub fn encode_gauge_i64(&mut self, v: i64) -> (r: Result<(), std::fmt::Error>)
        requires
            old(self).wf(),
        ensures
            r is Ok,
            final(self).pushed(old(self), ValueModel::Gauge(NumberModel::Int(v as int))),
    {
        match &mut self.0 {
            MetricEncoderInner::Text(e) => e.encode_gauge_i64(v),
            MetricEncoderInner::Protobuf(e) => e.encode_gauge_i64(v),
        }
        Ok(())
    }

    /// Encode a gauge with a double value.
    pub fn encode_gauge_f64(&mut self, v: Double) -> (r: Result<(), std::fmt::Error>)
        requires
            old(self).wf(),
        ensures
            r is Ok,
            final(self).pushed(old(self), ValueModel::Gauge(double_model(v))),
    {
        match &mut self.0 {
            MetricEncoderInner::Text(e) => e.encode_gauge_f64(&v),
            MetricEncoderInner::Protobuf(e) => e.encode_gauge_f64(&v),
        }
        Ok(())
    }

    /// Encode an info.
    pub fn encode_info<S: EncodeLabelSet>(&mut self, label_set: &S) -> (r: Result<
        (),
        std::fmt::Error,
    >)
        requires
            old(self).wf(),
        ensures
            r is Ok,
            final(self).pushed(old(self), ValueModel::Info(label_set.label_pairs())),
    {
        match &mut self.0 {
            MetricEncoderInner::Text(e) => e.encode_info(label_set),
            MetricEncoderInner::Protobuf(e) => e.encode_info(label_set),
        }
        Ok(())
    }

    /// Encode a histogram: sum, count, then the buckets in the order given,
    /// each with the exemplar kept for its position.
    pub fn encode_histogram<S: EncodeLabelSet>(
        &mut self,
        sum: Double,
        count: u64,
        buckets: &[(Double, u64)],
        exemplars: Option<&std::collections::HashMap<usize, Exemplar<S, Double>>>,
    ) -> (r: Result<(), std::fmt::Error>)
        requires
            old(self).wf(),
        ensures
            r is Ok,
            final(self).pushed(
                old(self),
                ValueModel::Histogram(
                    double_model(sum),
                    count as int,
                    buckets_model(buckets@, exemplars),
                ),
            ),
    {
        match &mut self.0 {
            MetricEncoderInner::Text(e) => e.encode_histogram(&sum, count, buckets, exemplars),
            MetricEncoderInner::Protobuf(e) => e.encode_histogram(&sum, count, buckets, exemplars),
        }
        Ok(())
    }

    /// Scope the samples that follow to one label set of the family.
    pub fn encode_family<S: EncodeLabelSet>(&mut self, label_set: &S) -> (r: Result<
        (),
        std::fmt::Error,
    >)
        requires
            old(self).wf(),
        ensures
            r is Ok,
            final(self).wf(),
            final(self).is_text() == old(self).is_text(),
            final(self).frame() == old(self).frame(),
            final(self).samples() == old(self).samples(),
            final(self).family_labels() == label_set.label_pairs(),
    {
        match &mut self.0 {
            MetricEncoderInner::Text(e) => e.encode_family(label_set),
            MetricEncoderInner::Protobuf(e) => e.encode_family(label_set),
        }
        Ok(())
    }
}

/// Implemented by each metric type to encode its samples in either format.
pub trait EncodeMetric {
    /// The samples that `encode` writes, in order, when the encoder is scoped
    /// to the family labels `scope`.
    spec fn samples_of(&self, scope: Seq<LabelPair>) -> Seq<SampleModel>;

    /// The kind that `metric_type` reports.
    spec fn kind(&self) -> MetricType;

    /// Encode the samples of the instance.
    fn encode(&self, encoder: &mut MetricEncoder) -> (r: Result<(), std::fmt::Error>)
        requires
            old(encoder).wf(),
        ensures
            r is Ok,
            final(encoder).wf(),
            final(encoder).is_text() == old(encoder).is_text(),
            final(encoder).frame() == old(encoder).frame(),
            final(encoder).samples() == old(encoder).samples() + self.samples_of(
                old(encoder).family_labels(),
            ),
    ;

    /// The kind of the instance.
    fn metric_type(&self) -> (r: MetricType)
        ensures
            r == self.kind(),
    ;
}

impl<M: EncodeMetric> EncodeMetric for Box<M> {
    open spec fn samples_of(&self, scope: Seq<LabelPair>) -> Seq<SampleModel> {
        (**self).samples_of(scope)
    }

    open spec fn kind(&self) -> MetricType {
        (**self).kind()
    }

    fn encode(&self, encoder: &mut MetricEncoder) -> (r: Result<(), std::fmt::Error>) {
        (**self).encode(encoder)
    }

    fn metric_type(&self) -> (r: MetricType) {
        (**self).metric_type()
    }
}

/// One registered metric family: its name, its help text and the metric.
pub struct Entry<M> {
    pub name: String,
    pub help: String,
    pub metric: M,
}

} // verus!
