use redis_ts::{
    Integer, TsAggregationType, TsAlign, TsBucketTimestamp, TsDuplicatePolicy, TsFilterOptions,
    TsOptions, TsRangeQuery,
};

fn texts(tokens: Vec<Vec<u8>>) -> Vec<String> {
    tokens
        .into_iter()
        .map(|t| String::from_utf8(t).unwrap())
        .collect()
}

fn aggregation_texts(a: TsAggregationType) -> Vec<String> {
    let mut out = Vec::new();
    a.write_args(&mut out);
    texts(out)
}

#[test]
fn aggregation_clause_for_each_kind() {
    let cases = vec![
        (TsAggregationType::Avg(5000), "avg", "5000"),
        (TsAggregationType::Sum(1), "sum", "1"),
        (TsAggregationType::Min(0), "min", "0"),
        (TsAggregationType::Max(10), "max", "10"),
        (TsAggregationType::Range(99), "range", "99"),
        (TsAggregationType::Count(100), "count", "100"),
        (TsAggregationType::First(7), "first", "7"),
        (TsAggregationType::Last(8), "last", "8"),
        (TsAggregationType::StdP(9), "std.p", "9"),
        (TsAggregationType::StdS(11), "std.s", "11"),
        (TsAggregationType::VarP(12), "var.p", "12"),
        (TsAggregationType::VarS(13), "var.s", "13"),
        (TsAggregationType::Twa(u64::MAX), "twa", "18446744073709551615"),
    ];
    for (a, kind, bucket) in cases {
        assert_eq!(aggregation_texts(a), vec!["AGGREGATION", kind, bucket]);
    }
}

#[test]
fn align_and_bucket_timestamp_clauses() {
    let mut out = Vec::new();
    TsAlign::Start.write_args(&mut out);
    TsAlign::End.write_args(&mut out);
    TsAlign::Ts(1234).write_args(&mut out);
    TsBucketTimestamp::Low.write_args(&mut out);
    TsBucketTimestamp::High.write_args(&mut out);
    TsBucketTimestamp::Mid.write_args(&mut out);
    assert_eq!(
        texts(out),
        vec![
            "ALIGN",
            "-",
            "ALIGN",
            "+",
            "ALIGN",
            "1234",
            "BUCKETTIMESTAMP",
            "-",
            "BUCKETTIMESTAMP",
            "+",
            "BUCKETTIMESTAMP",
            "~"
        ]
    );
}

#[test]
fn integers_encode_in_decimal() {
    let mut out = Vec::new();
    Integer::from(0u8).write_args(&mut out);
    Integer::from(65535u16).write_args(&mut out);
    Integer::from(4294967295u32).write_args(&mut out);
    Integer::from(1234567890u64).write_args(&mut out);
    Integer::from(usize::MAX).write_args(&mut out);
    Integer::from(-128i8).write_args(&mut out);
    Integer::from(-300i16).write_args(&mut out);
    Integer::from(-42i32).write_args(&mut out);
    Integer::from(i64::MIN).write_args(&mut out);
    Integer::from(7isize).write_args(&mut out);
    assert_eq!(
        texts(out),
        vec![
            "0".to_string(),
            "65535".to_string(),
            "4294967295".to_string(),
            "1234567890".to_string(),
            usize::MAX.to_string(),
            "-128".to_string(),
            "-300".to_string(),
            "-42".to_string(),
            "-9223372036854775808".to_string(),
            "7".to_string(),
        ]
    );
}

#[test]
fn duplicate_policy_clause() {
    let cases = vec![
        (TsDuplicatePolicy::Block, "BLOCK"),
        (TsDuplicatePolicy::First, "FIRST"),
        (TsDuplicatePolicy::Last, "LAST"),
        (TsDuplicatePolicy::Min, "MIN"),
        (TsDuplicatePolicy::Max, "MAX"),
        (TsDuplicatePolicy::Other("sum".to_string()), "sum"),
    ];
    for (p, name) in cases {
        let mut out = Vec::new();
        p.write_args(&mut out);
        assert_eq!(texts(out), vec!["DUPLICATE_POLICY", name]);
    }
}

#[test]
fn options_scenario_tokens() {
    let opts = TsOptions::default()
        .retention_time(60000)
        .uncompressed(false)
        .duplicate_policy(TsDuplicatePolicy::Last)
        .chunk_size(8192)
        .label("component", "engine");
    assert_eq!(
        texts(opts.to_args()),
        vec![
            "RETENTION",
            "60000",
            "DUPLICATE_POLICY",
            "LAST",
            "CHUNK_SIZE",
            "8192",
            "LABELS",
            "component",
            "engine"
        ]
    );
}

#[test]
fn options_order_is_fixed_whatever_the_call_order() {
    let opts = TsOptions::default()
        .label("a", "b")
        .chunk_size(16000)
        .uncompressed(true)
        .duplicate_policy(TsDuplicatePolicy::Min)
        .retention_time(5);
    assert_eq!(
        texts(opts.to_args()),
        vec![
            "RETENTION",
            "5",
            "UNCOMPRESSED",
            "DUPLICATE_POLICY",
            "MIN",
            "CHUNK_SIZE",
            "16000",
            "LABELS",
            "a",
            "b"
        ]
    );
}

#[test]
fn default_options_encode_to_nothing() {
    assert!(TsOptions::default().to_args().is_empty());
}

#[test]
fn labels_keep_append_order_and_duplicates() {
    let opts = TsOptions::default()
        .label("z", "1")
        .label("a", "2")
        .label("z", "3");
    assert_eq!(
        texts(opts.to_args()),
        vec!["LABELS", "z", "1", "a", "2", "z", "3"]
    );
}

#[test]
fn labels_replace_and_clear() {
    let opts = TsOptions::default()
        .label("old", "x")
        .labels(vec![("a", "b"), ("c", "d")]);
    assert_eq!(texts(opts.to_args()), vec!["LABELS", "a", "b", "c", "d"]);
    let cleared = opts.labels(vec![]);
    assert!(cleared.to_args().is_empty());
}

#[test]
fn options_write_after_existing_tokens() {
    let mut out = vec![b"TS.CREATE".to_vec(), b"key".to_vec()];
    TsOptions::default().retention_time(1).write_args(&mut out);
    assert_eq!(texts(out), vec!["TS.CREATE", "key", "RETENTION", "1"]);
}

#[test]
fn range_query_defaults_to_open_bounds() {
    assert_eq!(texts(TsRangeQuery::default().to_args()), vec!["-", "+"]);
}

#[test]
fn range_query_without_aggregation_drops_sub_clauses() {
    let q = TsRangeQuery::default()
        .align(TsAlign::End)
        .bucket_timestamp(TsBucketTimestamp::Mid)
        .empty(true);
    let t = texts(q.to_args());
    assert_eq!(t, vec!["-", "+"]);
    assert!(!t.iter().any(|x| x == "ALIGN" || x == "BUCKETTIMESTAMP" || x == "EMPTY"));
}

#[test]
fn range_query_full_clause_order() {
    let q = TsRangeQuery::default()
        .empty(true)
        .bucket_timestamp(TsBucketTimestamp::High)
        .align(TsAlign::Start)
        .aggregation_type(TsAggregationType::Avg(5000))
        .count(10)
        .filter_by_value("1.0", "5.0")
        .filter_by_ts(vec![12u64, 123])
        .latest(true)
        .to(5678u64)
        .from(1234u64);
    assert_eq!(
        texts(q.to_args()),
        vec![
            "1234",
            "5678",
            "LATEST",
            "FILTER_BY_TS",
            "12",
            "123",
            "FILTER_BY_VALUE",
            "1.0",
            "5.0",
            "COUNT",
            "10",
            "ALIGN",
            "-",
            "AGGREGATION",
            "avg",
            "5000",
            "BUCKETTIMESTAMP",
            "+",
            "EMPTY"
        ]
    );
}

#[test]
fn range_query_signed_bounds_and_empty_ts_filter() {
    let q = TsRangeQuery::default()
        .from(-5i64)
        .to(Integer::I32(70))
        .filter_by_ts(Vec::<u32>::new())
        .aggregation_type(TsAggregationType::Sum(10));
    assert_eq!(
        texts(q.to_args()),
        vec!["-5", "70", "AGGREGATION", "sum", "10"]
    );
}

#[test]
fn filter_rendering_scenario() {
    let f = TsFilterOptions::default()
        .equals("sensor", "temperature")
        .in_set("region", vec!["us", "eu"]);
    assert_eq!(
        texts(f.to_args()),
        vec!["FILTER", "sensor=temperature", "region=(us,eu)"]
    );
    let g = TsFilterOptions::default()
        .with_labels(true)
        .equals("sensor", "temperature")
        .in_set("region", vec!["us", "eu"]);
    assert_eq!(
        texts(g.to_args()),
        vec!["WITHLABELS", "FILTER", "sensor=temperature", "region=(us,eu)"]
    );
}

#[test]
fn filter_predicates_of_every_kind() {
    let f = TsFilterOptions::default()
        .with_labels(true)
        .equals("label_1", "value_1")
        .not_equals("label_2", "hello")
        .in_set("label_3", vec!["a", "b", "c"])
        .not_in_set("label_3", vec!["d", "e"])
        .has_label("some_other")
        .not_has_label("unwanted")
        .in_set("one", vec!["x"])
        .in_set("none", vec![]);
    assert_eq!(
        texts(f.to_args()),
        vec![
            "WITHLABELS",
            "FILTER",
            "label_1=value_1",
            "label_2!=hello",
            "label_3=(a,b,c)",
            "label_3!=(d,e)",
            "some_other!=",
            "unwanted=",
            "one=(x)",
            "none=()"
        ]
    );
}

#[test]
fn with_labels_false_leaves_flag_out() {
    let f = TsFilterOptions::default()
        .with_labels(true)
        .with_labels(false)
        .equals("a", "b");
    assert_eq!(texts(f.to_args()), vec!["FILTER", "a=b"]);
}

#[test]
fn get_filters_keeps_order() {
    let fs = TsFilterOptions::default()
        .equals("a", "1")
        .has_label("b")
        .get_filters();
    assert_eq!(fs.len(), 2);
    let mut out = Vec::new();
    for f in fs.iter() {
        f.write_args(&mut out);
    }
    assert_eq!(texts(out), vec!["a=1", "b!="]);
}
