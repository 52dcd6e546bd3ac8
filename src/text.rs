//! OpenMetrics text exposition backend.
use vstd::prelude::*;
use vstd::string::*;
use crate::decimal::{i64_text, signed_decimal, u64_text};
use crate::encoding::{
    bucket_exemplar, buckets_model, BucketModel, EncodeMetric, Entry, MetricEncoderInner, MetricType,
    double_exemplar_model, double_model, into_text, u64_exemplar_model, Double, EncodeLabelSet,
    Exemplar, ExemplarModel, LabelPair, LabelSetEncoderInner, NumberModel, SampleModel,
    ValueModel,
};

verus! {

/// The text form of one character of a label value: backslash, double quote
/// and newline are escaped, any other character stands for itself.
pub open spec fn escape_char(c: char) -> Seq<char> {
    if c == '\\' {
        seq!['\\', '\\']
    } else if c == '"' {
        seq!['\\', '"']
    } else if c == '\n' {
        seq!['\\', 'n']
    } else {
        seq![c]
    }
}

/// The escaped form of a whole label value.
pub open spec fn escape(s: Seq<char>) -> Seq<char>
    decreases s.len(),
{
    if s.len() == 0 {
        Seq::empty()
    } else {
        escape(s.drop_last()) + escape_char(s.last())
    }
}

/// `key="value"` with the value escaped.
pub open spec fn label_text(l: LabelPair) -> Seq<char> {
    l.0 + seq!['=', '"'] + escape(l.1) + seq!['"']
}

/// The labels of a set, each as `key="value"`, separated by commas.
pub open spec fn labels_text(ls: Seq<LabelPair>) -> Seq<char>
    decreases ls.len(),
{
    if ls.len() == 0 {
        Seq::empty()
    } else if ls.len() == 1 {
        label_text(ls[0])
    } else {
        labels_text(ls.drop_last()) + seq![','] + label_text(ls.last())
    }
}

/// What stands between the labels already written and the next one.
pub open spec fn separator(ls: Seq<LabelPair>) -> Seq<char> {
    if ls.len() == 0 {
        Seq::empty()
    } else {
        seq![',']
    }
}

pub proof fn lemma_labels_text_push(ls: Seq<LabelPair>, l: LabelPair)
    ensures
        labels_text(ls.push(l)) == labels_text(ls) + separator(ls) + label_text(l),
{
    assert(ls.push(l).drop_last() =~= ls);
    if ls.len() == 0 {
        assert(labels_text(ls) =~= Seq::<char>::empty());
        assert(labels_text(ls) + separator(ls) + label_text(l) =~= label_text(l));
    }
}

pub proof fn lemma_escape_push(s: Seq<char>, c: char)
    ensures
        escape(s.push(c)) == escape(s) + escape_char(c),
{
    assert(s.push(c).drop_last() =~= s);
}

/// Relies on `String::push`: appends one character.
#[verifier::external_body]
fn push_char(s: &mut String, c: char)
    ensures
        final(s)@ == old(s)@.push(c),
{
    s.push(c)
}

/// Appends the escaped form of `c`.
fn push_escaped(out: &mut String, c: char)
    ensures
        final(out)@ == old(out)@ + escape_char(c),
{
    proof {
        reveal_strlit("\\\\");
        reveal_strlit("\\\"");
        reveal_strlit("\\n");
    }
    if c == '\\' {
        out.append("\\\\");
    } else if c == '"' {
        out.append("\\\"");
    } else if c == '\n' {
        out.append("\\n");
    } else {
        push_char(out, c);
        assert(old(out)@.push(c) =~= old(out)@ + seq![c]);
    }
}

/// Appends the escaped form of `s`.
pub fn push_escaped_str(out: &mut String, s: &str)
    ensures
        final(out)@ == old(out)@ + escape(s@),
{
    let n = s.unicode_len();
    let mut i: usize = 0;
    let ghost start = out@;
    assert(s@.subrange(0, 0) =~= Seq::<char>::empty());
    while i < n
        invariant
            n == s@.len(),
            i <= n,
            out@ == start + escape(s@.subrange(0, i as int)),
        decreases n - i,
    {
        let c = s.get_char(i);
        push_escaped(out, c);
        proof {
            lemma_escape_push(s@.subrange(0, i as int), c);
            assert(s@.subrange(0, i as int).push(c) =~= s@.subrange(0, i as int + 1));
        }
        i = i + 1;
    }
    assert(s@.subrange(0, n as int) =~= s@);
}

/// Text label-set encoder: holds the labels written so far.
pub struct LabelSetEncoder {
    pub out: String,
    pub labels: Ghost<Seq<LabelPair>>,
}

impl LabelSetEncoder {
    pub open spec fn wf(&self) -> bool {
        self.out@ == labels_text(self.labels@)
    }

    pub fn new() -> (r: Self)
        ensures
            r.wf(),
            r.labels@ == Seq::<LabelPair>::empty(),
    {
        LabelSetEncoder { out: String::new(), labels: Ghost(Seq::empty()) }
    }

    pub fn encode_label(self) -> (r: LabelEncoder)
        requires
            self.wf(),
        ensures
            r.wf(),
            r.labels@ == self.labels@,
    {
        LabelEncoder { out: self.out, labels: self.labels }
    }
}

/// Text label encoder: the next label is about to start.
pub struct LabelEncoder {
    pub out: String,
    pub labels: Ghost<Seq<LabelPair>>,
}

impl LabelEncoder {
    pub open spec fn wf(&self) -> bool {
        self.out@ == labels_text(self.labels@)
    }

    pub fn encode_label_key(self) -> (r: LabelKeyEncoder)
        requires
            self.wf(),
        ensures
            r.wf(),
            r.labels@ == self.labels@,
            r.key@ == Seq::<char>::empty(),
    {
        let mut out = self.out;
        proof {
            reveal_strlit(",");
        }
        if out.as_str().is_empty() {
            assert(self.labels@.len() == 0) by {
                if self.labels@.len() > 0 {
                    lemma_labels_text_nonempty(self.labels@);
                }
            }
        } else {
            out.append(",");
        }
        assert(out@ =~= labels_text(self.labels@) + separator(self.labels@) + Seq::<char>::empty());
        LabelKeyEncoder { out, labels: self.labels, key: Ghost(Seq::empty()) }
    }
}

pub proof fn lemma_labels_text_nonempty(ls: Seq<LabelPair>)
    requires
        ls.len() > 0,
    ensures
        labels_text(ls).len() > 0,
    decreases ls.len(),
{
    if ls.len() > 1 {
        lemma_labels_text_nonempty(ls.drop_last());
    }
}

/// Text label-key encoder: the key is being written.
pub struct LabelKeyEncoder {
    pub out: String,
    pub labels: Ghost<Seq<LabelPair>>,
    pub key: Ghost<Seq<char>>,
}

impl LabelKeyEncoder {
    pub open spec fn wf(&self) -> bool {
        self.out@ == labels_text(self.labels@) + separator(self.labels@) + self.key@
    }

    pub fn write_str(&mut self, s: &str)
        requires
            old(self).wf(),
        ensures
            final(self).wf(),
            final(self).labels@ == old(self).labels@,
            final(self).key@ == old(self).key@ + s@,
    {
        let ghost prefix = labels_text(self.labels@) + separator(self.labels@);
        self.out.append(s);
        assert(self.out@ =~= prefix + (self.key@ + s@));
        self.key = Ghost(self.key@ + s@);
    }

    pub fn encode_label_value(self) -> (r: LabelValueEncoder)
        requires
            self.wf(),
        ensures
            r.wf(),
            r.labels@ == self.labels@,
            r.key@ == self.key@,
            r.value@ == Seq::<char>::empty(),
    {
        let mut out = self.out;
        proof {
            reveal_strlit("=\"");
        }
        out.append("=\"");
        assert(escape(Seq::<char>::empty()) =~= Seq::<char>::empty());
        assert(out@ =~= labels_text(self.labels@) + separator(self.labels@) + self.key@ + seq![
            '=',
            '"',
        ] + escape(Seq::<char>::empty()));
        LabelValueEncoder { out, labels: self.labels, key: self.key, value: Ghost(Seq::empty()) }
    }
}

/// Text label-value encoder: the value is being written, escaped.
pub struct LabelValueEncoder {
    pub out: String,
    pub labels: Ghost<Seq<LabelPair>>,
    pub key: Ghost<Seq<char>>,
    pub value: Ghost<Seq<char>>,
}

impl LabelValueEncoder {
    pub open spec fn wf(&self) -> bool {
        self.out@ == labels_text(self.labels@) + separator(self.labels@) + self.key@ + seq![
            '=',
            '"',
        ] + escape(self.value@)
    }

    pub fn write_str(&mut self, s: &str)
        requires
            old(self).wf(),
        ensures
            final(self).wf(),
            final(self).labels@ == old(self).labels@,
            final(self).key@ == old(self).key@,
            final(self).value@ == old(self).value@ + s@,
    {
        let ghost prefix = labels_text(self.labels@) + separator(self.labels@) + self.key@ + seq![
            '=',
            '"',
        ];
        push_escaped_str(&mut self.out, s);
        proof {
            lemma_escape_concat(self.value@, s@);
        }
        assert(self.out@ =~= prefix + escape(self.value@ + s@));
        self.value = Ghost(self.value@ + s@);
    }

    pub fn finish(self) -> (r: LabelSetEncoder)
        requires
            self.wf(),
        ensures
            r.wf(),
            r.labels@ == self.labels@.push((self.key@, self.value@)),
    {
        let mut out = self.out;
        proof {
            reveal_strlit("\"");
        }
        out.append("\"");
        proof {
            lemma_labels_text_push(self.labels@, (self.key@, self.value@));
        }
        assert(out@ =~= labels_text(self.labels@) + separator(self.labels@) + label_text(
            (self.key@, self.value@),
        ));
        LabelSetEncoder { out, labels: Ghost(self.labels@.push((self.key@, self.value@))) }
    }
}

pub proof fn lemma_escape_concat(a: Seq<char>, b: Seq<char>)
    ensures
        escape(a + b) == escape(a) + escape(b),
    decreases b.len(),
{
    if b.len() == 0 {
        assert(a + b =~= a);
        assert(escape(b) =~= Seq::<char>::empty());
    } else {
        lemma_escape_concat(a, b.drop_last());
        assert((a + b).drop_last() =~= a + b.drop_last());
        assert((a + b).last() == b.last());
    }
}

/// Text of a number: decimal digits for an integer, the given text for a double.
pub open spec fn number_text(n: NumberModel) -> Seq<char> {
    match n {
        NumberModel::Int(i) => signed_decimal(i),
        NumberModel::Float(_, t) => t,
    }
}

/// `{labels}`, or nothing at all for an empty label set.
pub open spec fn labels_block(ls: Seq<LabelPair>) -> Seq<char> {
    if ls.len() == 0 {
        Seq::empty()
    } else {
        seq!['{'] + labels_text(ls) + seq!['}']
    }
}

/// The trailing ` # {labels} value` annotation of an exemplar.
pub open spec fn exemplar_text(e: Option<ExemplarModel>) -> Seq<char> {
    match e {
        None => Seq::empty(),
        Some(x) => seq![' ', '#', ' ', '{'] + labels_text(x.labels) + seq!['}', ' '] + number_text(
            x.value,
        ),
    }
}

/// The line of one sample of the metric `name`.
pub open spec fn sample_text(name: Seq<char>, s: SampleModel) -> Seq<char> {
    match s.value {
        ValueModel::Counter(v, e) => name + labels_block(s.labels) + seq![' '] + number_text(v)
            + exemplar_text(e) + seq!['\n'],
        ValueModel::Gauge(v) => name + labels_block(s.labels) + seq![' '] + number_text(v) + seq![
            '\n',
        ],
        ValueModel::Info(ls) => name + seq!['_', 'i', 'n', 'f', 'o'] + labels_block(s.labels + ls)
            + seq![' ', '1', '\n'],
        ValueModel::Histogram(sum, count, bs) => name + seq!['_', 's', 'u', 'm'] + labels_block(
            s.labels,
        ) + seq![' '] + number_text(sum) + seq!['\n'] + name + seq!['_', 'c', 'o', 'u', 'n', 't']
            + labels_block(s.labels) + seq![' '] + number_text(NumberModel::Int(count)) + seq!['\n']
            + buckets_text(name, s.labels, bs),
    }
}

/// The `le` label of a bucket: its upper bound.
pub open spec fn le_label(b: BucketModel) -> LabelPair {
    (seq!['l', 'e'], number_text(b.bound))
}

/// The line of one histogram bucket.
pub open spec fn bucket_text(name: Seq<char>, labels: Seq<LabelPair>, b: BucketModel) -> Seq<char> {
    name + seq!['_', 'b', 'u', 'c', 'k', 'e', 't'] + labels_block(labels.push(le_label(b))) + seq![
        ' ',
    ] + number_text(NumberModel::Int(b.count)) + exemplar_text(b.exemplar) + seq!['\n']
}

/// The lines of the buckets, in the order given.
pub open spec fn buckets_text(name: Seq<char>, labels: Seq<LabelPair>, bs: Seq<BucketModel>) -> Seq<
    char,
>
    decreases bs.len(),
{
    if bs.len() == 0 {
        Seq::empty()
    } else {
        buckets_text(name, labels, bs.drop_last()) + bucket_text(name, labels, bs.last())
    }
}

/// A copy of a text label set with the `le` label of `bound` added.
fn with_le(base: &LabelSetEncoder, bound: &Double) -> (r: LabelSetEncoder)
    requires
        base.wf(),
    ensures
        r.wf(),
        r.labels@ == base.labels@.push((seq!['l', 'e'], bound.text@)),
{
    proof {
        reveal_strlit("le");
    }
    let copy = LabelSetEncoder { out: base.out.clone(), labels: base.labels };
    let mut k = copy.encode_label().encode_label_key();
    k.write_str("le");
    let mut v = k.encode_label_value();
    v.write_str(bound.text.as_str());
    assert(v.key@ =~= seq!['l', 'e']);
    assert(v.value@ =~= bound.text@);
    v.finish()
}

/// The lines of a sequence of samples, in order.
pub open spec fn samples_text(name: Seq<char>, ss: Seq<SampleModel>) -> Seq<char>
    decreases ss.len(),
{
    if ss.len() == 0 {
        Seq::empty()
    } else {
        samples_text(name, ss.drop_last()) + sample_text(name, ss.last())
    }
}

pub proof fn lemma_samples_text_push(name: Seq<char>, ss: Seq<SampleModel>, s: SampleModel)
    ensures
        samples_text(name, ss.push(s)) == samples_text(name, ss) + sample_text(name, s),
{
    assert(ss.push(s).drop_last() =~= ss);
}

/// A copy of a text label set extended by the labels of `extra`.
fn labels_with<S: EncodeLabelSet>(base: &LabelSetEncoder, extra: &S) -> (r: LabelSetEncoder)
    requires
        base.wf(),
    ensures
        r.wf(),
        r.labels@ == base.labels@ + extra.label_pairs(),
{
    let copy = LabelSetEncoder { out: base.out.clone(), labels: base.labels };
    let e = crate::encoding::LabelSetEncoder(LabelSetEncoderInner::Text(copy));
    match extra.encode(e) {
        Ok(done) => into_text(done),
        Err(_) => LabelSetEncoder::new(),
    }
}

/// Appends `{labels}`, or nothing for an empty set.
fn push_block(out: &mut String, ls: &LabelSetEncoder)
    requires
        ls.wf(),
    ensures
        final(out)@ == old(out)@ + labels_block(ls.labels@),
{
    proof {
        reveal_strlit("{");
        reveal_strlit("}");
    }
    if ls.out.as_str().is_empty() {
        proof {
            if ls.labels@.len() > 0 {
                lemma_labels_text_nonempty(ls.labels@);
            }
        }
        assert(old(out)@ + labels_block(ls.labels@) =~= old(out)@);
    } else {
        out.append("{");
        out.append(ls.out.as_str());
        out.append("}");
        assert(final(out)@ =~= old(out)@ + labels_block(ls.labels@));
    }
}

/// Appends a double's text.
fn push_double(out: &mut String, d: &Double)
    ensures
        final(out)@ == old(out)@ + number_text(double_model(*d)),
{
    out.append(d.text.as_str());
}

/// Appends an unsigned integer's decimal text.
fn push_u64(out: &mut String, v: u64)
    ensures
        final(out)@ == old(out)@ + number_text(NumberModel::Int(v as int)),
{
    let t = u64_text(v);
    out.append(t.as_str());
}

/// Appends a signed integer's decimal text.
fn push_i64(out: &mut String, v: i64)
    ensures
        final(out)@ == old(out)@ + number_text(NumberModel::Int(v as int)),
{
    let t = i64_text(v);
    out.append(t.as_str());
}

/// The exemplar kept for bucket `i`, if any.
pub fn lookup_exemplar<'a, S: EncodeLabelSet>(
    exemplars: Option<&'a std::collections::HashMap<usize, Exemplar<S, Double>>>,
    i: usize,
) -> (r: Option<&'a Exemplar<S, Double>>)
    ensures
        double_exemplar_model(r) == bucket_exemplar(exemplars, i as int),
{
    broadcast use vstd::std_specs::hash::group_hash_axioms;

    match exemplars {
        Some(m) => m.get(&i),
        None => None,
    }
}

/// Appends the `_sum` and `_count` lines of a histogram.
fn push_totals(out: &mut String, name: &String, family: &LabelSetEncoder, sum: &Double, count: u64)
    requires
        family.wf(),
    ensures
        final(out)@ == old(out)@ + name@ + seq!['_', 's', 'u', 'm'] + labels_block(family.labels@)
            + seq![' '] + number_text(double_model(*sum)) + seq!['\n'] + name@ + seq![
            '_',
            'c',
            'o',
            'u',
            'n',
            't',
        ] + labels_block(family.labels@) + seq![' '] + number_text(NumberModel::Int(count as int))
            + seq!['\n'],
{
    proof {
        reveal_strlit(" ");
        reveal_strlit("\n");
        reveal_strlit("_sum");
        reveal_strlit("_count");
    }
    out.append(name.as_str());
    out.append("_sum");
    push_block(out, family);
    out.append(" ");
    push_double(out, sum);
    out.append("\n");
    out.append(name.as_str());
    out.append("_count");
    push_block(out, family);
    out.append(" ");
    push_u64(out, count);
    out.append("\n");
    assert(final(out)@ =~= old(out)@ + name@ + seq!['_', 's', 'u', 'm'] + labels_block(
        family.labels@,
    ) + seq![' '] + number_text(double_model(*sum)) + seq!['\n'] + name@ + seq![
        '_',
        'c',
        'o',
        'u',
        'n',
        't',
    ] + labels_block(family.labels@) + seq![' '] + number_text(NumberModel::Int(count as int))
        + seq!['\n']);
}

/// Appends the line of one bucket.
fn push_bucket<S: EncodeLabelSet>(
    out: &mut String,
    name: &String,
    family: &LabelSetEncoder,
    bound: &Double,
    count: u64,
    exemplar: Option<&Exemplar<S, Double>>,
)
    requires
        family.wf(),
    ensures
        final(out)@ == old(out)@ + bucket_text(
            name@,
            family.labels@,
            BucketModel {
                bound: double_model(*bound),
                count: count as int,
                exemplar: double_exemplar_model(exemplar),
            },
        ),
{
    proof {
        reveal_strlit(" ");
        reveal_strlit("\n");
        reveal_strlit("_bucket");
        reveal_strlit(" # {");
        reveal_strlit("} ");
    }
    let ghost b = BucketModel {
        bound: double_model(*bound),
        count: count as int,
        exemplar: double_exemplar_model(exemplar),
    };
    out.append(name.as_str());
    out.append("_bucket");
    let ls = with_le(family, bound);
    push_block(out, &ls);
    out.append(" ");
    push_u64(out, count);
    let ghost pre = out@;
    match exemplar {
        Some(x) => {
            let el = labels_with(&LabelSetEncoder::new(), &x.label_set);
            assert(Seq::<LabelPair>::empty() + x.label_set.label_pairs()
                =~= x.label_set.label_pairs());
            out.append(" # {");
            out.append(el.out.as_str());
            out.append("} ");
            push_double(out, &x.value);
            assert(out@ =~= pre + exemplar_text(b.exemplar));
        },
        None => {
            assert(out@ =~= pre + exemplar_text(b.exemplar));
        },
    }
    out.append("\n");
    assert(final(out)@ =~= old(out)@ + bucket_text(name@, family.labels@, b));
}

pub proof fn lemma_histogram_text(
    name: Seq<char>,
    labels: Seq<LabelPair>,
    sum: NumberModel,
    count: int,
    bs: Seq<BucketModel>,
)
    ensures
        sample_text(name, SampleModel { labels, value: ValueModel::Histogram(sum, count, bs) })
            == name + seq!['_', 's', 'u', 'm'] + labels_block(labels) + seq![' '] + number_text(sum)
            + seq!['\n'] + name + seq!['_', 'c', 'o', 'u', 'n', 't'] + labels_block(labels) + seq![
            ' ',
        ] + number_text(NumberModel::Int(count)) + seq!['\n'] + buckets_text(name, labels, bs),
{
}

/// Text metric encoder: writes the sample lines of one metric family.
pub struct MetricEncoder {
    pub out: String,
    pub name: String,
    /// The labels of the family scope that every sample carries.
    pub family: LabelSetEncoder,
    /// What the output held before the first sample.
    pub start: Ghost<Seq<char>>,
    pub samples: Ghost<Seq<SampleModel>>,
}

impl MetricEncoder {
    pub open spec fn wf(&self) -> bool {
        &&& self.family.wf()
        &&& self.out@ == self.start@ + samples_text(self.name@, self.samples@)
    }

    /// A metric encoder that appends to `out`, with no family labels.
    pub fn new(out: String, name: String) -> (r: Self)
        ensures
            r.wf(),
            r.start@ == out@,
            r.name@ == name@,
            r.family.labels@ == Seq::<LabelPair>::empty(),
            r.samples@ == Seq::<SampleModel>::empty(),
    {
        let ghost start = out@;
        assert(out@ =~= start + samples_text(name@, Seq::<SampleModel>::empty()));
        MetricEncoder {
            out,
            name,
            family: LabelSetEncoder::new(),
            start: Ghost(start),
            samples: Ghost(Seq::empty()),
        }
    }

    pub fn encode_counter_u64<S: EncodeLabelSet>(
        &mut self,
        v: u64,
        exemplar: Option<&Exemplar<S, u64>>,
    )
        requires
            old(self).wf(),
        ensures
            final(self).wf(),
            final(self).name == old(self).name,
            final(self).start == old(self).start,
            final(self).family == old(self).family,
            final(self).samples@ == old(self).samples@.push(
                SampleModel {
                    labels: old(self).family.labels@,
                    value: ValueModel::Counter(
                        NumberModel::Int(v as int),
                        u64_exemplar_model(exemplar),
                    ),
                },
            ),
    {
        let ghost s = SampleModel {
            labels: self.family.labels@,
            value: ValueModel::Counter(NumberModel::Int(v as int), u64_exemplar_model(exemplar)),
        };
        let ghost before = self.out@;
        proof {
            reveal_strlit(" ");
            reveal_strlit("\n");
            reveal_strlit(" # {");
            reveal_strlit("} ");
        }
        self.out.append(self.name.as_str());
        push_block(&mut self.out, &self.family);
        self.out.append(" ");
        push_u64(&mut self.out, v);
        let ghost mid = self.out@;
        match exemplar {
            Some(x) => {
                let ls = labels_with(&LabelSetEncoder::new(), &x.label_set);
                assert(Seq::<LabelPair>::empty() + x.label_set.label_pairs()
                    =~= x.label_set.label_pairs());
                self.out.append(" # {");
                self.out.append(ls.out.as_str());
                self.out.append("} ");
                push_u64(&mut self.out, x.value);
                assert(self.out@ =~= mid + exemplar_text(u64_exemplar_model(exemplar)));
            },
            None => {
                assert(self.out@ =~= mid + exemplar_text(u64_exemplar_model(exemplar)));
            },
        }
        self.out.append("\n");
        assert(self.out@ =~= before + sample_text(self.name@, s));
        self.record(Ghost(before), Ghost(s));
    }

    /// Notes that the line of `s` was appended after `before`.
    fn record(&mut self, before: Ghost<Seq<char>>, s: Ghost<SampleModel>)
        requires
            old(self).family.wf(),
            before@ == old(self).start@ + samples_text(old(self).name@, old(self).samples@),
            old(self).out@ == before@ + sample_text(old(self).name@, s@),
        ensures
            final(self).wf(),
            final(self).out == old(self).out,
            final(self).name == old(self).name,
            final(self).start == old(self).start,
            final(self).family == old(self).family,
            final(self).samples@ == old(self).samples@.push(s@),
    {
        proof {
            lemma_samples_text_push(self.name@, self.samples@, s@);
        }
        assert(self.out@ =~= self.start@ + samples_text(self.name@, self.samples@.push(s@)));
        self.samples = Ghost(self.samples@.push(s@));
    }

    pub fn encode_counter_f64<S: EncodeLabelSet>(
        &mut self,
        v: &Double,
        exemplar: Option<&Exemplar<S, Double>>,
    )
        requires
            old(self).wf(),
        ensures
            final(self).wf(),
            final(self).name == old(self).name,
            final(self).start == old(self).start,
            final(self).family == old(self).family,
            final(self).samples@ == old(self).samples@.push(
                SampleModel {
                    labels: old(self).family.labels@,
                    value: ValueModel::Counter(double_model(*v), double_exemplar_model(exemplar)),
                },
            ),
    {
        let ghost s = SampleModel {
            labels: self.family.labels@,
            value: ValueModel::Counter(double_model(*v), double_exemplar_model(exemplar)),
        };
        let ghost before = self.out@;
        proof {
            reveal_strlit(" ");
            reveal_strlit("\n");
            reveal_strlit(" # {");
            reveal_strlit("} ");
        }
        self.out.append(self.name.as_str());
        push_block(&mut self.out, &self.family);
        self.out.append(" ");
        push_double(&mut self.out, v);
        let ghost mid = self.out@;
        match exemplar {
            Some(x) => {
                let ls = labels_with(&LabelSetEncoder::new(), &x.label_set);
                assert(Seq::<LabelPair>::empty() + x.label_set.label_pairs()
                    =~= x.label_set.label_pairs());
                self.out.append(" # {");
                self.out.append(ls.out.as_str());
                self.out.append("} ");
                push_double(&mut self.out, &x.value);
                assert(self.out@ =~= mid + exemplar_text(double_exemplar_model(exemplar)));
            },
            None => {
                assert(self.out@ =~= mid + exemplar_text(double_exemplar_model(exemplar)));
            },
        }
        self.out.append("\n");
        assert(self.out@ =~= before + sample_text(self.name@, s));
        self.record(Ghost(before), Ghost(s));
    }

    pub fn encode_gauge_i64(&mut self, v: i64)
        requires
            old(self).wf(),
        ensures
            final(self).wf(),
            final(self).name == old(self).name,
            final(self).start == old(self).start,
            final(self).family == old(self).family,
            final(self).samples@ == old(self).samples@.push(
                SampleModel {
                    labels: old(self).family.labels@,
                    value: ValueModel::Gauge(NumberModel::Int(v as int)),
                },
            ),
    {
        let ghost s = SampleModel {
            labels: self.family.labels@,
            value: ValueModel::Gauge(NumberModel::Int(v as int)),
        };
        let ghost before = self.out@;
        proof {
            reveal_strlit(" ");
            reveal_strlit("\n");
        }
        self.out.append(self.name.as_str());
        push_block(&mut self.out, &self.family);
        self.out.append(" ");
        push_i64(&mut self.out, v);
        self.out.append("\n");
        assert(self.out@ =~= before + sample_text(self.name@, s));
        self.record(Ghost(before), Ghost(s));
    }

    pub fn encode_gauge_f64(&mut self, v: &Double)
        requires
            old(self).wf(),
        ensures
            final(self).wf(),
            final(self).name == old(self).name,
            final(self).start == old(self).start,
            final(self).family == old(self).family,
            final(self).samples@ == old(self).samples@.push(
                SampleModel {
                    labels: old(self).family.labels@,
                    value: ValueModel::Gauge(double_model(*v)),
                },
            ),
    {
        let ghost s = SampleModel {
            labels: self.family.labels@,
            value: ValueModel::Gauge(double_model(*v)),
        };
        let ghost before = self.out@;
        proof {
            reveal_strlit(" ");
            reveal_strlit("\n");
        }
        self.out.append(self.name.as_str());
        push_block(&mut self.out, &self.family);
        self.out.append(" ");
        push_double(&mut self.out, v);
        self.out.append("\n");
        assert(self.out@ =~= before + sample_text(self.name@, s));
        self.record(Ghost(before), Ghost(s));
    }

    pub fn encode_info<S: EncodeLabelSet>(&mut self, label_set: &S)
        requires
            old(self).wf(),
        ensures
            final(self).wf(),
            final(self).name == old(self).name,
            final(self).start == old(self).start,
            final(self).family == old(self).family,
            final(self).samples@ == old(self).samples@.push(
                SampleModel {
                    labels: old(self).family.labels@,
                    value: ValueModel::Info(label_set.label_pairs()),
                },
            ),
    {
        let ghost s = SampleModel {
            labels: self.family.labels@,
            value: ValueModel::Info(label_set.label_pairs()),
        };
        let ghost before = self.out@;
        proof {
            reveal_strlit("_info");
            reveal_strlit(" 1\n");
        }
        self.out.append(self.name.as_str());
        self.out.append("_info");
        let ls = labels_with(&self.family, label_set);
        push_block(&mut self.out, &ls);
        self.out.append(" 1\n");
        assert(self.out@ =~= before + sample_text(self.name@, s));
        self.record(Ghost(before), Ghost(s));
    }


    #[verifier::rlimit(40)]
    pub fn encode_histogram<S: EncodeLabelSet>(
        &mut self,
        sum: &Double,
        count: u64,
        buckets: &[(Double, u64)],
        exemplars: Option<&std::collections::HashMap<usize, Exemplar<S, Double>>>,
    )
        requires
            old(self).wf(),
        ensures
            final(self).wf(),
            final(self).name == old(self).name,
            final(self).start == old(self).start,
            final(self).family == old(self).family,
            final(self).samples@ == old(self).samples@.push(
                SampleModel {
                    labels: old(self).family.labels@,
                    value: ValueModel::Histogram(
                        double_model(*sum),
                        count as int,
                        buckets_model(buckets@, exemplars),
                    ),
                },
            ),
    {
        let ghost bs = buckets_model(buckets@, exemplars);
        let ghost s = SampleModel {
            labels: self.family.labels@,
            value: ValueModel::Histogram(double_model(*sum), count as int, bs),
        };
        let ghost before = self.out@;
        let ghost fam = self.family.labels@;
        push_totals(&mut self.out, &self.name, &self.family, sum, count);
        let ghost mid = self.out@;
        let mut i: usize = 0;
        assert(buckets_text(self.name@, fam, bs.subrange(0, 0)) =~= Seq::<char>::empty());
        while i < buckets.len()
            invariant
                i <= buckets@.len(),
                bs == buckets_model(buckets@, exemplars),
                self.family == old(self).family,
                self.family.wf(),
                fam == self.family.labels@,
                self.name == old(self).name,
                self.start == old(self).start,
                self.samples == old(self).samples,
                self.out@ == mid + buckets_text(self.name@, fam, bs.subrange(0, i as int)),
            decreases buckets@.len() - i,
        {
            let ghost at = self.out@;
            let found = lookup_exemplar(exemplars, i);
            push_bucket(&mut self.out, &self.name, &self.family, &buckets[i].0, buckets[i].1, found);
            assert(bs[i as int] == BucketModel {
                bound: double_model(buckets@[i as int].0),
                count: buckets@[i as int].1 as int,
                exemplar: double_exemplar_model(found),
            });
            proof {
                let sub = bs.subrange(0, i as int + 1);
                assert(sub.len() > 0);
                assert(sub.drop_last() =~= bs.subrange(0, i as int));
                assert(sub.last() == bs[i as int]);
            }
            i = i + 1;
        }
        assert(bs.subrange(0, buckets@.len() as int) =~= bs);
        proof {
            lemma_histogram_text(self.name@, fam, double_model(*sum), count as int, bs);
        }
        assert(self.out@ =~= before + sample_text(self.name@, s));
        self.record(Ghost(before), Ghost(s));
    }

    /// Scope the samples that follow to the labels of `label_set`.
    pub fn encode_family<S: EncodeLabelSet>(&mut self, label_set: &S)
        requires
            old(self).wf(),
        ensures
            final(self).wf(),
            final(self).out == old(self).out,
            final(self).name == old(self).name,
            final(self).start == old(self).start,
            final(self).samples == old(self).samples,
            final(self).family.labels@ == label_set.label_pairs(),
    {
        let ls = labels_with(&LabelSetEncoder::new(), label_set);
        assert(Seq::<LabelPair>::empty() + label_set.label_pairs() =~= label_set.label_pairs());
        self.family = ls;
    }
}

/// `# HELP name help` and `# TYPE name kind`, one line each.
pub open spec fn header_text(name: Seq<char>, help: Seq<char>, kind: MetricType) -> Seq<char> {
    seq!['#', ' ', 'H', 'E', 'L', 'P', ' '] + name + seq![' '] + help + seq!['\n']
        + seq!['#', ' ', 'T', 'Y', 'P', 'E', ' '] + name + seq![' '] + kind.name_of() + seq!['\n']
}

/// The header of a family followed by the lines of its samples.
pub open spec fn family_text<M: EncodeMetric>(e: Entry<M>) -> Seq<char> {
    header_text(e.name@, e.help@, e.metric.kind()) + samples_text(
        e.name@,
        e.metric.samples_of(Seq::empty()),
    )
}

/// The families of a registry, in order.
pub open spec fn families_text<M: EncodeMetric>(es: Seq<Entry<M>>) -> Seq<char>
    decreases es.len(),
{
    if es.len() == 0 {
        Seq::empty()
    } else {
        families_text(es.drop_last()) + family_text(es.last())
    }
}

/// The line that ends an exposition.
pub open spec fn eof_text() -> Seq<char> {
    seq!['#', ' ', 'E', 'O', 'F', '\n']
}

/// Encode the registry in the OpenMetrics text format, appending to `writer`.
pub fn encode<M: EncodeMetric>(writer: &mut String, registry: &[Entry<M>]) -> (r: Result<
    (),
    std::fmt::Error,
>)
    ensures
        r is Ok,
        final(writer)@ == old(writer)@ + families_text(registry@) + eof_text(),
{
    let mut out = String::new();
    let mut i: usize = 0;
    proof {
        assert(families_text(registry@.subrange(0, 0)) =~= Seq::<char>::empty());
    }
    while i < registry.len()
        invariant
            i <= registry@.len(),
            out@ == families_text(registry@.subrange(0, i as int)),
        decreases registry@.len() - i,
    {
        proof {
            reveal_strlit("# HELP ");
            reveal_strlit(" ");
            reveal_strlit("\n");
            reveal_strlit("# TYPE ");
        }
        let e = &registry[i];
        let ghost before = out@;
        let kind = e.metric.metric_type();
        out.append("# HELP ");
        out.append(e.name.as_str());
        out.append(" ");
        out.append(e.help.as_str());
        out.append("\n");
        out.append("# TYPE ");
        out.append(e.name.as_str());
        out.append(" ");
        out.append(kind.as_str());
        out.append("\n");
        assert(out@ =~= before + header_text(e.name@, e.help@, e.metric.kind()));
        let ghost headed = out@;
        let mut enc = crate::encoding::MetricEncoder(
            MetricEncoderInner::Text(MetricEncoder::new(out, e.name.clone())),
        );
        assert(enc.samples() =~= Seq::<SampleModel>::empty());
        e.metric.encode(&mut enc)?;
        assert(Seq::<SampleModel>::empty() + e.metric.samples_of(Seq::empty())
            =~= e.metric.samples_of(Seq::empty()));
        out = match enc.0 {
            MetricEncoderInner::Text(t) => t.out,
            MetricEncoderInner::Protobuf(_) => String::new(),
        };
        assert(out@ =~= before + family_text(*e));
        proof {
            let es = registry@.subrange(0, i as int + 1);
            assert(es.len() > 0);
            assert(es.drop_last() =~= registry@.subrange(0, i as int));
            assert(es.last() == *e);
        }
        i = i + 1;
    }
    assert(registry@.subrange(0, registry@.len() as int) =~= registry@);
    proof {
        reveal_strlit("# EOF\n");
    }
    writer.append(out.as_str());
    writer.append("# EOF\n");
    assert(final(writer)@ =~= old(writer)@ + families_text(registry@) + eof_text());
    Ok(())
}

pub proof fn lemma_families_text_concat<M: EncodeMetric>(a: Seq<Entry<M>>, b: Seq<Entry<M>>)
    ensures
        families_text(a + b) == families_text(a) + families_text(b),
    decreases b.len(),
{
    if b.len() == 0 {
        assert(a + b =~= a);
        assert(families_text(a) + families_text(b) =~= families_text(a));
    } else {
        lemma_families_text_concat(a, b.drop_last());
        assert((a + b).drop_last() =~= a + b.drop_last());
        assert((a + b).last() == b.last());
        assert(families_text(a + b) =~= families_text(a) + families_text(b));
    }
}

/// The text of a registry holds, for each family in registry order, exactly
/// one `# HELP`/`# TYPE` header followed by that family's samples: the text
/// splits at family `i` into what the earlier families wrote, the header and
/// samples of family `i`, and what the later families wrote.
pub proof fn lemma_one_header_per_family<M: EncodeMetric>(registry: Seq<Entry<M>>, i: int)
    requires
        0 <= i < registry.len(),
    ensures
        families_text(registry) == families_text(registry.subrange(0, i)) + header_text(
            registry[i].name@,
            registry[i].help@,
            registry[i].metric.kind(),
        ) + samples_text(registry[i].name@, registry[i].metric.samples_of(Seq::empty())) + families_text(
            registry.subrange(i + 1, registry.len() as int),
        ),
{
    let front = registry.subrange(0, i + 1);
    let back = registry.subrange(i + 1, registry.len() as int);
    assert(registry =~= front + back);
    lemma_families_text_concat(front, back);
    assert(front.drop_last() =~= registry.subrange(0, i));
    assert(front.last() == registry[i]);
}

/// Two counter or gauge samples with the same labels write the same label
/// text: each line starts with the metric name and the same label block.
pub proof fn lemma_same_labels_same_text(name: Seq<char>, a: SampleModel, b: SampleModel)
    requires
        a.labels == b.labels,
        a.value is Counter || a.value is Gauge,
        b.value is Counter || b.value is Gauge,
    ensures
        ({
            let k: int = (name.len() + labels_block(a.labels).len()) as int;
            &&& sample_text(name, a).subrange(0, k) == name + labels_block(a.labels)
            &&& sample_text(name, b).subrange(0, k) == name + labels_block(b.labels)
        }),
{
    let k: int = (name.len() + labels_block(a.labels).len()) as int;
    assert(sample_text(name, a).subrange(0, k) =~= name + labels_block(a.labels));
    assert(sample_text(name, b).subrange(0, k) =~= name + labels_block(b.labels));
}

/// An empty label set writes no label block: a sample without labels is the
/// name, a space, the value and (for a counter) its exemplar.
pub proof fn lemma_empty_labels_no_block(name: Seq<char>, v: NumberModel, e: Option<ExemplarModel>)
    ensures
        labels_block(Seq::<LabelPair>::empty()) == Seq::<char>::empty(),
        sample_text(name, SampleModel { labels: Seq::empty(), value: ValueModel::Gauge(v) })
            == name + seq![' '] + number_text(v) + seq!['\n'],
        sample_text(name, SampleModel { labels: Seq::empty(), value: ValueModel::Counter(v, e) })
            == name + seq![' '] + number_text(v) + exemplar_text(e) + seq!['\n'],
{
    let empty = Seq::<char>::empty();
    assert(name + empty =~= name);
}

} // verus!
