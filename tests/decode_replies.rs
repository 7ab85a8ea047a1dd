use redis_ts::{
    latest_sample, FromReply, Reply, TsDuplicatePolicy, TsError, TsInfo, TsMget, TsMrange,
    TsOptions, TsRange,
};

fn data(s: &str) -> Reply {
    Reply::Data(s.as_bytes().to_vec())
}

fn bulk(items: Vec<Reply>) -> Reply {
    Reply::Bulk(items)
}

fn sample(ts: i64, v: &str) -> Reply {
    bulk(vec![Reply::Int(ts), Reply::Status(v.to_string())])
}

fn label(n: &str, v: &str) -> Reply {
    bulk(vec![data(n), data(v)])
}

#[test]
fn duplicate_policy_fallback_and_known_names() {
    assert_eq!(
        TsDuplicatePolicy::from_reply(&data("xyz")),
        Ok(TsDuplicatePolicy::Other("xyz".to_string()))
    );
    assert_eq!(
        TsDuplicatePolicy::from_reply(&data("last")),
        Ok(TsDuplicatePolicy::Last)
    );
    assert_eq!(
        TsDuplicatePolicy::from_reply(&Reply::Status("block".to_string())),
        Ok(TsDuplicatePolicy::Block)
    );
    assert_eq!(
        TsDuplicatePolicy::from_reply(&data("first")),
        Ok(TsDuplicatePolicy::First)
    );
    assert_eq!(
        TsDuplicatePolicy::from_reply(&data("min")),
        Ok(TsDuplicatePolicy::Min)
    );
    assert_eq!(
        TsDuplicatePolicy::from_reply(&data("max")),
        Ok(TsDuplicatePolicy::Max)
    );
}

#[test]
fn duplicate_policy_matches_any_case() {
    assert_eq!(
        TsDuplicatePolicy::from_reply(&data("LAST")),
        Ok(TsDuplicatePolicy::Last)
    );
    assert_eq!(
        TsDuplicatePolicy::from_reply(&data("MaX")),
        Ok(TsDuplicatePolicy::Max)
    );
    assert_eq!(
        TsDuplicatePolicy::from_reply(&data("Lastly")),
        Ok(TsDuplicatePolicy::Other("Lastly".to_string()))
    );
}

#[test]
fn duplicate_policy_needs_text() {
    assert_eq!(
        TsDuplicatePolicy::from_reply(&Reply::Int(3)),
        Err(TsError::MalformedReply)
    );
    assert_eq!(
        TsDuplicatePolicy::from_reply(&Reply::Data(vec![0xff, 0xfe])),
        Err(TsError::MalformedReply)
    );
}

#[test]
fn scalar_reads() {
    assert_eq!(u64::from_reply(&Reply::Int(42)), Some(42));
    assert_eq!(u64::from_reply(&data("123")), Some(123));
    assert_eq!(u64::from_reply(&Reply::Status("+5".to_string())), Some(5));
    assert_eq!(u64::from_reply(&data("12a")), None);
    assert_eq!(u64::from_reply(&data("")), None);
    assert_eq!(u64::from_reply(&data("-1")), None);
    assert_eq!(u64::from_reply(&Reply::Nil), None);
    assert_eq!(u16::from_reply(&data("65536")), None);
    assert_eq!(u16::from_reply(&data("4096")), Some(4096));
    assert_eq!(String::from_reply(&data("héllo")), Some("héllo".to_string()));
    assert_eq!(String::from_reply(&Reply::Okay), Some("OK".to_string()));
    assert_eq!(String::from_reply(&Reply::Data(vec![0xc3])), None);
    assert_eq!(String::from_reply(&Reply::Int(1)), None);
}

#[test]
fn info_with_only_total_samples() {
    let info = TsInfo::from_reply(&bulk(vec![data("totalSamples"), Reply::Int(17)])).unwrap();
    assert_eq!(info.total_samples, 17);
    assert_eq!(info.memory_usage, 0);
    assert_eq!(info.first_timestamp, 0);
    assert_eq!(info.last_timestamp, 0);
    assert_eq!(info.retention_time, 0);
    assert_eq!(info.chunk_count, 0);
    assert_eq!(info.max_samples_per_chunk, 0);
    assert_eq!(info.chunk_size, 0);
    assert_eq!(info.duplicate_policy, None);
    assert!(info.labels.is_empty());
    assert_eq!(info.source_key, None);
    assert!(info.rules.is_empty());
}

#[test]
fn info_full_reply() {
    let reply = bulk(vec![
        data("totalSamples"),
        Reply::Int(2),
        data("memoryUsage"),
        Reply::Int(4184),
        data("firstTimestamp"),
        Reply::Int(1234),
        data("lastTimestamp"),
        Reply::Int(1235),
        data("retentionTime"),
        Reply::Int(60000),
        data("chunkCount"),
        Reply::Int(1),
        data("maxSamplesPerChunk"),
        Reply::Int(256),
        data("chunkSize"),
        Reply::Int(4096),
        data("duplicatePolicy"),
        data("min"),
        data("labels"),
        bulk(vec![label("a", "b"), label("c", "d")]),
        data("sourceKey"),
        data("src"),
        data("rules"),
        bulk(vec![bulk(vec![data("dest"), Reply::Int(5000), data("AVG")])]),
    ]);
    let info = TsInfo::from_reply(&reply).unwrap();
    assert_eq!(info.total_samples, 2);
    assert_eq!(info.memory_usage, 4184);
    assert_eq!(info.first_timestamp, 1234);
    assert_eq!(info.last_timestamp, 1235);
    assert_eq!(info.retention_time, 60000);
    assert_eq!(info.chunk_count, 1);
    assert_eq!(info.max_samples_per_chunk, 256);
    assert_eq!(info.chunk_size, 4096);
    assert_eq!(info.duplicate_policy, Some(TsDuplicatePolicy::Min));
    assert_eq!(
        info.labels,
        vec![
            ("a".to_string(), "b".to_string()),
            ("c".to_string(), "d".to_string())
        ]
    );
    assert_eq!(info.source_key, Some("src".to_string()));
    assert_eq!(
        info.rules,
        vec![("dest".to_string(), 5000, "AVG".to_string())]
    );
}

#[test]
fn info_skips_malformed_labels_and_rules() {
    let reply = bulk(vec![
        data("labels"),
        bulk(vec![
            label("a", "b"),
            Reply::Int(1),
            bulk(vec![data("only")]),
            label("c", "d"),
        ]),
        data("rules"),
        bulk(vec![
            bulk(vec![data("x"), data("nan"), data("avg")]),
            Reply::Nil,
            bulk(vec![data("y"), Reply::Int(10), data("sum")]),
        ]),
    ]);
    let info = TsInfo::from_reply(&reply).unwrap();
    assert_eq!(
        info.labels,
        vec![
            ("a".to_string(), "b".to_string()),
            ("c".to_string(), "d".to_string())
        ]
    );
    assert_eq!(info.rules, vec![("y".to_string(), 10, "sum".to_string())]);
}

#[test]
fn info_tolerates_nil_and_unreadable_fields() {
    let reply = bulk(vec![
        data("sourceKey"),
        Reply::Nil,
        data("duplicatePolicy"),
        Reply::Nil,
        data("retentionTime"),
        data("soon"),
        data("chunkSize"),
        data("2048"),
        data("dangling"),
    ]);
    let info = TsInfo::from_reply(&reply).unwrap();
    assert_eq!(info.source_key, None);
    assert_eq!(info.duplicate_policy, None);
    assert_eq!(info.retention_time, 0);
    assert_eq!(info.chunk_size, 2048);
}

#[test]
fn info_last_occurrence_of_a_field_wins() {
    let reply = bulk(vec![
        data("totalSamples"),
        Reply::Int(1),
        data("totalSamples"),
        Reply::Int(2),
    ]);
    assert_eq!(TsInfo::from_reply(&reply).unwrap().total_samples, 2);
}

#[test]
fn info_needs_a_sequence() {
    assert!(matches!(
        TsInfo::from_reply(&Reply::Nil),
        Err(TsError::MalformedReply)
    ));
    assert!(matches!(
        TsInfo::from_reply(&data("x")),
        Err(TsError::MalformedReply)
    ));
}

#[test]
fn info_labels_round_trip_with_options() {
    let opts = TsOptions::default()
        .label("b", "1")
        .label("a", "2")
        .label("b", "3");
    let tokens = opts.to_args();
    let mut nodes = Vec::new();
    let mut i = 1;
    while i + 1 < tokens.len() {
        nodes.push(bulk(vec![
            Reply::Data(tokens[i].clone()),
            Reply::Data(tokens[i + 1].clone()),
        ]));
        i += 2;
    }
    let info = TsInfo::from_reply(&bulk(vec![data("labels"), bulk(nodes)])).unwrap();
    assert_eq!(
        info.labels,
        vec![
            ("b".to_string(), "1".to_string()),
            ("a".to_string(), "2".to_string()),
            ("b".to_string(), "3".to_string())
        ]
    );
}

#[test]
fn range_keeps_server_order() {
    let reply = bulk(vec![sample(1234, "5"), sample(12, "3"), sample(123, "4")]);
    let r: TsRange<u64, String> = TsRange::from_reply(&reply).unwrap();
    assert_eq!(
        r.values,
        vec![
            (1234, "5".to_string()),
            (12, "3".to_string()),
            (123, "4".to_string())
        ]
    );
}

#[test]
fn range_empty_reply() {
    let r: TsRange<u64, u64> = TsRange::from_reply(&bulk(vec![])).unwrap();
    assert!(r.values.is_empty());
}

#[test]
fn range_fails_on_any_malformed_sample() {
    let wrong_arity = bulk(vec![
        sample(1, "1"),
        bulk(vec![Reply::Int(2)]),
    ]);
    assert!(matches!(
        TsRange::<u64, String>::from_reply(&wrong_arity),
        Err(TsError::MalformedReply)
    ));
    let unreadable = bulk(vec![sample(1, "x")]);
    assert!(matches!(
        TsRange::<u64, u64>::from_reply(&unreadable),
        Err(TsError::MalformedReply)
    ));
    assert!(matches!(
        TsRange::<u64, u64>::from_reply(&Reply::Nil),
        Err(TsError::MalformedReply)
    ));
}

#[test]
fn multi_range_two_series() {
    let reply = bulk(vec![
        bulk(vec![
            data("mrange1"),
            bulk(vec![label("l", "mrange"), label("c", "existing")]),
            bulk(vec![sample(1234, "1"), sample(12, "2"), sample(123, "3")]),
        ]),
        bulk(vec![
            data("mrange2"),
            bulk(vec![]),
            bulk(vec![sample(21, "1.0"), sample(321, "2.0"), sample(4321, "3.0")]),
        ]),
    ]);
    let r: TsMrange<u64, String> = TsMrange::from_reply(&reply).unwrap();
    assert_eq!(r.values.len(), 2);
    assert_eq!(r.values[0].key, "mrange1");
    assert_eq!(
        r.values[0].labels,
        vec![
            ("l".to_string(), "mrange".to_string()),
            ("c".to_string(), "existing".to_string())
        ]
    );
    assert_eq!(r.values[1].key, "mrange2");
    assert!(r.values[1].labels.is_empty());
    assert_eq!(
        r.values[1].values,
        vec![
            (21, "1.0".to_string()),
            (321, "2.0".to_string()),
            (4321, "3.0".to_string())
        ]
    );
    let floats: Vec<(u64, f64)> = r.values[1]
        .values
        .iter()
        .map(|(t, v)| (*t, v.parse::<f64>().unwrap()))
        .collect();
    assert_eq!(floats, vec![(21, 1.0), (321, 2.0), (4321, 3.0)]);
}

#[test]
fn multi_range_fails_on_malformed_entry() {
    let short = bulk(vec![bulk(vec![data("k"), bulk(vec![])])]);
    assert!(matches!(
        TsMrange::<u64, String>::from_reply(&short),
        Err(TsError::MalformedReply)
    ));
    let bad_sample = bulk(vec![bulk(vec![
        data("k"),
        bulk(vec![]),
        bulk(vec![Reply::Int(1)]),
    ])]);
    assert!(matches!(
        TsMrange::<u64, String>::from_reply(&bad_sample),
        Err(TsError::MalformedReply)
    ));
}

#[test]
fn multi_get_with_and_without_values() {
    let reply = bulk(vec![
        bulk(vec![data("mget1"), bulk(vec![label("l", "mget")]), sample(1234, "3")]),
        bulk(vec![data("mget2"), bulk(vec![]), bulk(vec![])]),
        bulk(vec![data("mget3"), Reply::Nil, Reply::Nil]),
    ]);
    let r: TsMget<u64, String> = TsMget::from_reply(&reply).unwrap();
    assert_eq!(r.values.len(), 3);
    assert_eq!(r.values[0].key, "mget1");
    assert_eq!(
        r.values[0].labels,
        vec![("l".to_string(), "mget".to_string())]
    );
    assert_eq!(r.values[0].value, Some((1234, "3".to_string())));
    assert_eq!(r.values[1].value, None);
    assert_eq!(r.values[2].value, None);
    assert!(r.values[2].labels.is_empty());
}

#[test]
fn multi_get_fails_on_malformed_value() {
    let reply = bulk(vec![bulk(vec![
        data("k"),
        bulk(vec![]),
        bulk(vec![Reply::Int(1)]),
    ])]);
    assert!(matches!(
        TsMget::<u64, String>::from_reply(&reply),
        Err(TsError::MalformedReply)
    ));
    assert!(matches!(
        TsMget::<u64, String>::from_reply(&Reply::Okay),
        Err(TsError::MalformedReply)
    ));
}

#[test]
fn get_absent_value_is_none() {
    assert_eq!(latest_sample::<u64, String>(&Reply::Nil), None);
    assert_eq!(latest_sample::<u64, String>(&bulk(vec![])), None);
    assert_eq!(latest_sample::<u64, u64>(&data("oops")), None);
    assert_eq!(
        latest_sample::<u64, String>(&sample(1234, "2.2")),
        Some((1234, "2.2".to_string()))
    );
}
