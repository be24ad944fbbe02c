use simple_rust_server::config::{parse_config, Config, Limit};

fn args(list: &[&str]) -> Vec<String> {
    list.iter().map(|s| s.to_string()).collect()
}

#[test]
fn default_config() {
    let c = Config::default();
    assert_eq!(c.ip, "127.0.0.1");
    assert_eq!(c.port, "7878");
    assert_eq!(c.requests_limit, Limit::Unbounded);
    assert_eq!(c.thread_pool_size, 4);
}

#[test]
fn no_arguments_keep_the_defaults() {
    let c = parse_config(args(&["server"]));
    assert_eq!(c.ip, "127.0.0.1");
    assert_eq!(c.port, "7878");
    assert_eq!(c.requests_limit, Limit::Unbounded);
    assert_eq!(c.thread_pool_size, 4);
}

#[test]
fn empty_argument_list_keeps_the_defaults() {
    let c = parse_config(Vec::new());
    assert_eq!(c.ip, "127.0.0.1");
    assert_eq!(c.thread_pool_size, 4);
}

#[test]
fn every_key_is_read() {
    let c = parse_config(args(&["server", "ip=0.0.0.0", "port=8080", "limit=10", "pool=2"]));
    assert_eq!(c.ip, "0.0.0.0");
    assert_eq!(c.port, "8080");
    assert_eq!(c.requests_limit, Limit::Of(10));
    assert_eq!(c.thread_pool_size, 2);
}

#[test]
fn limit_zero_means_unbounded() {
    let c = parse_config(args(&["server", "limit=0"]));
    assert_eq!(c.requests_limit, Limit::Unbounded);
}

#[test]
fn earliest_occurrence_of_a_key_wins() {
    let c = parse_config(args(&["server", "pool=2", "pool=9", "port=1111", "port=2222"]));
    assert_eq!(c.thread_pool_size, 2);
    assert_eq!(c.port, "1111");
}

#[test]
fn value_stops_at_the_second_separator() {
    let c = parse_config(args(&["server", "ip=a=b"]));
    assert_eq!(c.ip, "a");
}

#[test]
fn empty_value_is_kept() {
    let c = parse_config(args(&["server", "ip="]));
    assert_eq!(c.ip, "");
}

#[test]
fn large_pool_value_is_read_exactly() {
    let c = parse_config(args(&["server", "pool=1234567890"]));
    assert_eq!(c.thread_pool_size, 1234567890);
}
