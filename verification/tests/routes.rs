use actix_rate_limiter::error::ConfigError;
use actix_rate_limiter::limit::Limit;
use actix_rate_limiter::limiter::RateLimiterBuilder;
use actix_rate_limiter::route::RouteBuilder;

#[test]
fn literal_route_takes_its_own_path_only() {
    let route = RouteBuilder::new().set_path("/greeting").build().unwrap();
    assert!(route.is_match("/greeting", "GET"));
    assert!(route.is_match("/greeting", "POST"));
    assert!(!route.is_match("/greeting/", "GET"));
    assert!(!route.is_match("/greetin", "GET"));
    assert!(!route.is_match("", "GET"));
}

#[test]
fn new_route_is_the_empty_path() {
    let route = RouteBuilder::new().build().unwrap();
    assert!(route.is_match("", "GET"));
    assert!(!route.is_match("/", "GET"));
    let by_default = RouteBuilder::default().build().unwrap();
    assert!(by_default.is_match("", "DELETE"));
}

#[test]
fn literal_route_does_not_read_its_path_as_an_expression() {
    let route = RouteBuilder::new().set_path("/a.c").build().unwrap();
    assert!(route.is_match("/a.c", "GET"));
    assert!(!route.is_match("/abc", "GET"));
}

#[test]
fn method_scoped_route_takes_no_other_method() {
    let route = RouteBuilder::new().set_path("/greeting").set_method("POST").build().unwrap();
    assert!(route.is_match("/greeting", "POST"));
    assert!(!route.is_match("/greeting", "GET"));
    assert!(!route.is_match("/greeting", "post"));
    assert!(!route.is_match("/greeting", ""));
}

#[test]
fn expression_matches_whole_paths_only() {
    let route = RouteBuilder::new()
        .set_path("/greeting/[a-zA-Z0-9]*")
        .enable_regex()
        .build()
        .unwrap();
    assert!(route.is_match("/greeting/alice", "GET"));
    assert!(route.is_match("/greeting/", "GET"));
    assert!(!route.is_match("/greeting/alice/photos", "GET"));
    assert!(!route.is_match("/api/greeting/alice", "GET"));
    assert!(!route.is_match("/greeting", "GET"));
    assert!(!route.is_match("/greeting/[a-zA-Z0-9]*", "GET"));
}

#[test]
fn alternation_is_anchored_as_a_whole() {
    let route = RouteBuilder::new().set_path("/a|/b").enable_regex().build().unwrap();
    assert!(route.is_match("/a", "GET"));
    assert!(route.is_match("/b", "GET"));
    assert!(!route.is_match("/a/more", "GET"));
    assert!(!route.is_match("more/b", "GET"));
}

#[test]
fn expression_route_with_method() {
    let route = RouteBuilder::new()
        .set_method("POST")
        .set_path("/greeting/[a-zA-Z0-9]*")
        .enable_regex()
        .build()
        .unwrap();
    assert!(route.is_match("/greeting/alice", "POST"));
    assert!(!route.is_match("/greeting/alice", "GET"));
    assert!(!route.is_match("/farewell/alice", "POST"));
}

#[test]
fn malformed_expression_is_refused_when_the_route_is_built() {
    let mut builder = RouteBuilder::new();
    builder.set_path("/greeting/(").enable_regex();
    assert_eq!(builder.build().err(), Some(ConfigError::InvalidPattern));
    let mut other = RouteBuilder::new();
    assert_eq!(other.enable_regex().set_path("/[a-").build().err(), Some(ConfigError::InvalidPattern));
}

#[test]
fn malformed_expression_is_a_fine_literal_path() {
    let route = RouteBuilder::new().set_path("/greeting/(").build().unwrap();
    assert!(route.is_match("/greeting/(", "GET"));
    assert!(!route.is_match("/greeting/", "GET"));
}

#[test]
fn refused_builder_can_be_mended() {
    let mut builder = RouteBuilder::new();
    builder.set_path("/greeting/(").enable_regex();
    assert!(builder.build().is_err());
    let route = builder.set_path("/greeting/(a|b)").build().unwrap();
    assert!(route.is_match("/greeting/a", "GET"));
    assert!(!route.is_match("/greeting/c", "GET"));
}

#[test]
fn expression_is_compiled_from_the_path_set_last() {
    let mut builder = RouteBuilder::new();
    builder.set_path("/old/[0-9]+").enable_regex().set_path("/new/[0-9]+");
    let route = builder.build().unwrap();
    assert!(route.is_match("/new/42", "GET"));
    assert!(!route.is_match("/old/42", "GET"));
}

#[test]
fn flag_given_before_the_path_applies_to_it() {
    let mut builder = RouteBuilder::new();
    builder.enable_regex();
    builder.set_path("/greeting/[a-z]*");
    let route = builder.build().unwrap();
    assert!(route.is_match("/greeting/bob", "GET"));
    assert!(route.is_match("/greeting/bob", "POST"));
    assert!(!route.is_match("", "GET"));
    assert!(!route.is_match("/greeting/Bob", "GET"));
}

#[test]
fn empty_expression_takes_the_empty_path_only() {
    let route = RouteBuilder::new().enable_regex().build().unwrap();
    assert!(route.is_match("", "GET"));
    assert!(!route.is_match("/", "GET"));
}

#[test]
fn builder_can_build_more_than_once() {
    let mut builder = RouteBuilder::new();
    builder.set_path("/v[12]").enable_regex();
    let first = builder.build().unwrap();
    let second = builder.clone().build().unwrap();
    let third = first.clone();
    for route in [first, second, third] {
        assert!(route.is_match("/v1", "GET"));
        assert!(route.is_match("/v2", "GET"));
        assert!(!route.is_match("/v3", "GET"));
    }
}

#[test]
fn earlier_rule_wins_over_later_one() {
    let narrow = Limit::new(5, 1).unwrap();
    let wide = Limit::new(1, 100).unwrap();
    let any = RouteBuilder::new().set_path("/greeting/.*").enable_regex().build().unwrap();
    let alice = RouteBuilder::new().set_path("/greeting/alice").build().unwrap();
    let narrow_first = RateLimiterBuilder::new()
        .add_route(alice.clone(), narrow)
        .add_route(any.clone(), wide)
        .build();
    assert_eq!(narrow_first.get_limit("/greeting/alice", "GET"), narrow);
    assert_eq!(narrow_first.get_limit("/greeting/bob", "GET"), wide);
    let wide_first = RateLimiterBuilder::new().add_route(any, wide).add_route(alice, narrow).build();
    assert_eq!(wide_first.get_limit("/greeting/alice", "GET"), wide);
    assert_eq!(wide_first.get_limit("/greeting/bob", "GET"), wide);
}

#[test]
fn default_applies_where_no_rule_matches() {
    let special = Limit::new(5, 1).unwrap();
    let fallback = Limit::new(2, 7).unwrap();
    let limiter = RateLimiterBuilder::new()
        .set_default(fallback)
        .add_route(RouteBuilder::new().set_path("/").build().unwrap(), special)
        .build();
    assert_eq!(limiter.get_limit("/", "GET"), special);
    assert_eq!(limiter.get_limit("/unknown", "GET"), fallback);
    assert_eq!(limiter.get_limit("", "GET"), fallback);
}

#[test]
fn table_without_rules_gives_the_default() {
    let limiter = RateLimiterBuilder::new().build();
    assert_eq!(limiter.get_limit("/anything", "GET"), Limit::default());
    let by_default = RateLimiterBuilder::default().build();
    assert_eq!(by_default.get_limit("/", "PUT"), Limit::default());
}

#[test]
fn rule_of_another_method_is_passed_over() {
    let posts = Limit::new(5, 1).unwrap();
    let gets = Limit::new(1, 5).unwrap();
    let fallback = Limit::new(9, 9).unwrap();
    let limiter = RateLimiterBuilder::new()
        .set_default(fallback)
        .add_route(
            RouteBuilder::new()
                .set_method("POST")
                .set_path("/greeting/[a-zA-Z0-9]*")
                .enable_regex()
                .build()
                .unwrap(),
            posts,
        )
        .add_route(
            RouteBuilder::new()
                .set_method("GET")
                .set_path("/greeting/[a-zA-Z0-9]*")
                .enable_regex()
                .build()
                .unwrap(),
            gets,
        )
        .build();
    assert_eq!(limiter.get_limit("/greeting/alice", "POST"), posts);
    assert_eq!(limiter.get_limit("/greeting/alice", "GET"), gets);
    assert_eq!(limiter.get_limit("/greeting/alice", "DELETE"), fallback);
}

#[test]
fn built_table_is_a_copy() {
    let special = Limit::new(5, 1).unwrap();
    let mut builder = RateLimiterBuilder::new();
    builder.add_route(RouteBuilder::new().set_path("/a").build().unwrap(), special);
    let first = builder.build();
    builder.add_route(RouteBuilder::new().set_path("/b").build().unwrap(), special);
    let second = builder.clone().build();
    let third = second.clone();
    assert_eq!(first.get_limit("/a", "GET"), special);
    assert_eq!(first.get_limit("/b", "GET"), Limit::default());
    assert_eq!(second.get_limit("/b", "GET"), special);
    assert_eq!(third.get_limit("/a", "GET"), special);
    assert_eq!(third.get_limit("/b", "GET"), special);
}
