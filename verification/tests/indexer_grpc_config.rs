use aptos_secure_net::IndexerGrpcConfig;

fn config(
    enabled: bool,
    address: Option<&str>,
    task_count: Option<u16>,
    processor_batch: Option<u16>,
    output_batch: Option<u16>,
) -> IndexerGrpcConfig {
    IndexerGrpcConfig {
        enabled,
        address: address.map(|a| a.to_string()),
        processor_task_count: task_count,
        processor_batch_size: processor_batch,
        output_batch_size: output_batch,
    }
}

#[test]
fn default_config_is_disabled_and_empty() {
    let c = IndexerGrpcConfig::default();
    assert_eq!(c, config(false, None, None, None, None));
}

#[test]
fn optimize_leaves_disabled_indexer_untouched() {
    let mut c = config(false, None, Some(3), None, None);
    assert!(!c.optimize());
    assert_eq!(c, config(false, None, Some(3), None, None));
}

#[test]
fn optimize_fills_every_default_of_enabled_indexer() {
    let mut c = config(true, None, None, None, None);
    assert!(c.optimize());
    assert_eq!(c, config(true, Some("0.0.0.0:50051"), Some(20), Some(1000), Some(100)));
}

#[test]
fn optimize_keeps_values_the_node_config_sets() {
    let mut c = config(true, Some("127.0.0.1:9000"), Some(4), None, Some(7));
    assert!(c.optimize());
    assert_eq!(c, config(true, Some("127.0.0.1:9000"), Some(4), Some(1000), Some(7)));
}

#[test]
fn optimize_twice_equals_optimize_once() {
    let mut once = config(true, None, Some(8), None, None);
    assert!(once.optimize());
    let mut twice = once.clone();
    assert!(twice.optimize());
    assert_eq!(once, twice);
}

#[test]
fn optimized_enabled_indexer_has_every_value_set() {
    let mut c = config(true, Some("10.0.0.1:1"), None, Some(1), None);
    c.optimize();
    assert!(c.address.is_some());
    assert!(c.processor_task_count.is_some());
    assert!(c.processor_batch_size.is_some());
    assert!(c.output_batch_size.is_some());
}
