use prometheus_client::decimal::{i64_text, u64_text};
use prometheus_client::encoding::{
    Double, EncodeLabelSet, EncodeMetric, Entry, Exemplar, LabelSetEncoder, LabelSetEncoderInner,
    MetricType,
};
use prometheus_client::metrics::{Family, Snapshot};
use prometheus_client::protobuf::{self, MetricPoint, Number};
use prometheus_client::text;
use std::borrow::Cow;
use std::collections::HashMap;

fn double(v: f64) -> Double {
    let text = if v.is_nan() {
        "NaN".to_string()
    } else if v == f64::INFINITY {
        "+Inf".to_string()
    } else if v == f64::NEG_INFINITY {
        "-Inf".to_string()
    } else {
        dtoa::Buffer::new().format(v).to_string()
    };
    Double { bits: v.to_bits(), text }
}

fn labels(pairs: &[(&str, &str)]) -> Vec<(String, String)> {
    pairs.iter().map(|(k, v)| (k.to_string(), v.to_string())).collect()
}

fn entry<M>(name: &str, help: &str, metric: M) -> Entry<M> {
    Entry { name: name.to_string(), help: help.to_string(), metric }
}

type Labels = Vec<(String, String)>;

fn counter(l: Labels, value: u64, exemplar: Option<Exemplar<Labels, u64>>) -> Family<Labels, Snapshot> {
    Family { kind: MetricType::Counter, metrics: vec![(l, Snapshot::Counter(value, exemplar))] }
}

fn histogram(
    sum: f64,
    count: u64,
    buckets: Vec<(f64, u64)>,
    exemplars: HashMap<usize, Exemplar<Labels, Double>>,
) -> Snapshot {
    let buckets = buckets.iter().map(|(b, c)| (double(*b), *c)).collect();
    Snapshot::Histogram(double(sum), count, buckets, exemplars)
}

fn to_text<M: EncodeMetric>(registry: &[Entry<M>]) -> String {
    let mut out = String::new();
    text::encode(&mut out, registry).unwrap();
    out
}

#[test]
fn counter_family_scenario() {
    let registry = vec![entry(
        "requests_total",
        "count",
        counter(labels(&[("method", "GET")]), 42, None),
    )];
    let out = to_text(&registry);
    assert!(out.contains("# TYPE requests_total counter\n"));
    assert!(out.contains("\nrequests_total{method=\"GET\"} 42\n"));
    assert_eq!(
        out,
        "# HELP requests_total count\n# TYPE requests_total counter\nrequests_total{method=\"GET\"} 42\n# EOF\n"
    );
}

#[test]
fn histogram_scenario() {
    let registry = vec![entry(
        "latency",
        "request latency",
        histogram(4.2, 5, vec![(1.0, 3), (2.0, 5), (f64::INFINITY, 5)], HashMap::new()),
    )];
    let out = to_text(&registry);
    assert_eq!(
        out,
        "# HELP latency request latency\n# TYPE latency histogram\n\
         latency_sum 4.2\nlatency_count 5\n\
         latency_bucket{le=\"1.0\"} 3\nlatency_bucket{le=\"2.0\"} 5\nlatency_bucket{le=\"+Inf\"} 5\n# EOF\n"
    );
}

#[test]
fn histogram_bucket_exemplar_by_position() {
    let mut exemplars = HashMap::new();
    exemplars.insert(1, Exemplar { label_set: labels(&[("trace_id", "xyz")]), value: double(1.5) });
    let registry = vec![entry(
        "h",
        "x",
        histogram(3.0, 2, vec![(1.0, 1), (2.0, 2)], exemplars),
    )];
    let out = to_text(&registry);
    assert!(out.contains("h_bucket{le=\"1.0\"} 1\n"));
    assert!(out.contains("h_bucket{le=\"2.0\"} 2 # {trace_id=\"xyz\"} 1.5\n"));
    let set = protobuf::encode(&registry).unwrap();
    match &set.families[0].metrics[0].point {
        MetricPoint::Histogram(_, count, buckets) => {
            assert_eq!(*count, 2);
            assert_eq!(buckets.len(), 2);
            assert!(buckets[0].exemplar.is_none());
            let e = buckets[1].exemplar.as_ref().unwrap();
            assert_eq!(e.labels[0].name, "trace_id");
            assert_eq!(e.labels[0].value, "xyz");
        }
        _ => panic!("expected a histogram"),
    }
}

#[test]
fn exemplar_scenario_text_and_binary() {
    let registry = vec![entry(
        "c",
        "with exemplar",
        Snapshot::CounterF64(
            double(1.0),
            Some(Exemplar { label_set: labels(&[("trace_id", "abc")]), value: double(1.0) }),
        ),
    )];
    let out = to_text(&registry);
    assert!(out.contains("\nc 1.0 # {trace_id=\"abc\"} 1.0\n"));
    let set = protobuf::encode(&registry).unwrap();
    let metric = &set.families[0].metrics[0];
    assert!(metric.labels.is_empty());
    match &metric.point {
        MetricPoint::Counter(Number::Double(v), Some(e)) => {
            assert_eq!(v.bits, 1.0f64.to_bits());
            assert_eq!(e.labels.len(), 1);
            assert_eq!(e.labels[0].name, "trace_id");
            assert_eq!(e.labels[0].value, "abc");
        }
        _ => panic!("expected a counter with an exemplar"),
    }
}

#[test]
fn integer_exemplar_text() {
    let registry = vec![entry(
        "c",
        "h",
        counter(
            labels(&[("a", "b")]),
            7,
            Some(Exemplar { label_set: labels(&[("trace_id", "abc")]), value: 3 }),
        ),
    )];
    let out = to_text(&registry);
    assert!(out.contains("\nc{a=\"b\"} 7 # {trace_id=\"abc\"} 3\n"));
}

#[test]
fn empty_label_set_writes_no_block() {
    let registry = vec![entry("metric_name", "h", counter(vec![], 1, None))];
    let out = to_text(&registry);
    assert!(out.contains("\nmetric_name 1\n"));
    assert!(!out.contains("{}"));
    let set = protobuf::encode(&registry).unwrap();
    assert!(set.families[0].metrics[0].labels.is_empty());
}

#[test]
fn one_header_pair_per_family_in_order() {
    let registry = vec![
        entry("a", "first", Snapshot::Gauge(-3)),
        entry("b", "second", Snapshot::Gauge(0)),
        entry("c", "third", Snapshot::Gauge(12)),
    ];
    let out = to_text(&registry);
    assert_eq!(out.matches("# HELP ").count(), 3);
    assert_eq!(out.matches("# TYPE ").count(), 3);
    assert_eq!(
        out,
        "# HELP a first\n# TYPE a gauge\na -3\n# HELP b second\n# TYPE b gauge\nb 0\n\
         # HELP c third\n# TYPE c gauge\nc 12\n# EOF\n"
    );
}

#[test]
fn same_label_set_same_text() {
    let registry = vec![
        entry("x", "h", counter(labels(&[("k", "v"), ("z", "1")]), 1, None)),
        entry("y", "h", counter(labels(&[("k", "v"), ("z", "1")]), 2, None)),
    ];
    let out = to_text(&registry);
    assert!(out.contains("\nx{k=\"v\",z=\"1\"} 1\n"));
    assert!(out.contains("\ny{k=\"v\",z=\"1\"} 2\n"));
}

#[test]
fn label_values_are_escaped() {
    let registry = vec![entry(
        "m",
        "h",
        counter(labels(&[("path", "a\"b\\c\nd")]), 5, None),
    )];
    let out = to_text(&registry);
    assert!(out.contains("\nm{path=\"a\\\"b\\\\c\\nd\"} 5\n"));
    let set = protobuf::encode(&registry).unwrap();
    assert_eq!(set.families[0].metrics[0].labels[0].value, "a\"b\\c\nd");
}

#[test]
fn info_metric() {
    let registry = vec![entry("build", "build info", Snapshot::Info(labels(&[("version", "1.2")])))];
    let out = to_text(&registry);
    assert_eq!(
        out,
        "# HELP build build info\n# TYPE build info\nbuild_info{version=\"1.2\"} 1\n# EOF\n"
    );
}

#[test]
fn binary_message_matches_registry() {
    let registry = vec![
        entry("a", "first", Snapshot::Gauge(-3)),
        entry("b", "second", Snapshot::Gauge(9)),
    ];
    let set = protobuf::encode(&registry).unwrap();
    assert_eq!(set.families.len(), 2);
    assert_eq!(set.families[0].name, "a");
    assert_eq!(set.families[1].help, "second");
    assert!(set.families[1].kind == MetricType::Gauge);
    match &set.families[0].metrics[0].point {
        MetricPoint::Gauge(Number::Signed(v)) => assert_eq!(*v, -3),
        _ => panic!("expected a gauge"),
    }
    match &set.families[1].metrics[0].point {
        MetricPoint::Gauge(Number::Signed(v)) => assert_eq!(*v, 9),
        _ => panic!("expected a gauge"),
    }
}

#[test]
fn unsigned_decimal_text() {
    assert_eq!(u64_text(0), "0");
    assert_eq!(u64_text(7), "7");
    assert_eq!(u64_text(1234567890), "1234567890");
    assert_eq!(u64_text(u64::MAX), u64::MAX.to_string());
}

#[test]
fn signed_decimal_text() {
    assert_eq!(i64_text(0), "0");
    assert_eq!(i64_text(-42), "-42");
    assert_eq!(i64_text(i64::MIN), i64::MIN.to_string());
    assert_eq!(i64_text(i64::MAX), i64::MAX.to_string());
}

#[test]
fn label_protocol_text() {
    let set = LabelSetEncoder::new_text();
    let key = set.encode_label().encode_label_key().unwrap();
    let mut key = key;
    key.write_str("a").unwrap();
    let mut value = key.encode_label_value().unwrap();
    value.write_str("x").unwrap();
    value.write_str("y").unwrap();
    let set = value.finish().unwrap();
    let set = vec![("b", 5u64)].encode(set).unwrap();
    match set.0 {
        LabelSetEncoderInner::Text(t) => assert_eq!(t.out, "a=\"xy\",b=\"5\""),
        _ => panic!("expected text"),
    }
}

#[test]
fn label_protocol_binary() {
    let set = LabelSetEncoder::new_protobuf();
    let set = [("k", "v"), ("l", "w")].encode(set).unwrap();
    let set = ().encode(set).unwrap();
    match set.0 {
        LabelSetEncoderInner::Protobuf(p) => {
            assert_eq!(p.labels.len(), 2);
            assert_eq!(p.labels[1].name, "l");
            assert_eq!(p.labels[1].value, "w");
        }
        _ => panic!("expected binary"),
    }
}

#[test]
fn metric_type_names() {
    assert_eq!(MetricType::Counter.as_str(), "counter");
    assert_eq!(MetricType::Histogram.as_str(), "histogram");
    assert_eq!(MetricType::Unknown.as_str(), "unknown");
}

#[test]
fn family_of_metrics_in_both_formats() {
    let family = Family {
        kind: MetricType::Counter,
        metrics: vec![
            (labels(&[("method", "GET")]), Snapshot::Counter(3, None)),
            (labels(&[("method", "PUT")]), Snapshot::Counter(4, None)),
        ],
    };
    let registry = vec![entry("requests_total", "count", family)];
    let out = to_text(&registry);
    assert_eq!(
        out,
        "# HELP requests_total count\n# TYPE requests_total counter\n\
         requests_total{method=\"GET\"} 3\nrequests_total{method=\"PUT\"} 4\n# EOF\n"
    );
    let set = protobuf::encode(&registry).unwrap();
    let metrics = &set.families[0].metrics;
    assert_eq!(metrics.len(), 2);
    assert_eq!(metrics[1].labels[0].value, "PUT");
    match &metrics[1].point {
        MetricPoint::Counter(Number::Unsigned(v), None) => assert_eq!(*v, 4),
        _ => panic!("expected a counter"),
    }
}

#[test]
fn boxed_metric_forwards() {
    let registry = vec![entry("g", "h", Box::new(Snapshot::Gauge(5)))];
    assert!(registry[0].metric.metric_type() == MetricType::Gauge);
    assert_eq!(to_text(&registry), "# HELP g h\n# TYPE g gauge\ng 5\n# EOF\n");
}

#[test]
fn cow_and_integer_label_values() {
    let set = LabelSetEncoder::new_protobuf();
    let set = vec![(Cow::Borrowed("k"), Cow::<str>::Owned("v".to_string()))].encode(set).unwrap();
    let set = vec![("n", 18446744073709551615u64)].encode(set).unwrap();
    match set.0 {
        LabelSetEncoderInner::Protobuf(p) => {
            assert_eq!(p.labels[0].name, "k");
            assert_eq!(p.labels[0].value, "v");
            assert_eq!(p.labels[1].value, "18446744073709551615");
        }
        _ => panic!("expected binary"),
    }
}
