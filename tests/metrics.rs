use prometheus_client::metrics::family::Family;
use prometheus_client::metrics::histogram::Histogram;
use pyotheus::error::MetricsError;
use pyotheus::metrics::MetricsRegistry;

type Labels = Vec<(String, String)>;

fn family(buckets: Vec<f64>) -> Family<Labels, Histogram, impl Fn() -> Histogram + Clone> {
    Family::new_with_constructor(move || Histogram::new(buckets.clone()))
}

#[test]
fn registry_round_trip_through_encoding() {
    let mut registry = MetricsRegistry::new();
    assert_eq!(registry.histogram_add("h", "latency", family(vec![1.0, 2.0, 5.0])), Ok(()));
    let labels: Labels = vec![("r".to_string(), "GET".to_string())];
    registry.histogram_family("h").unwrap().get_or_create(&labels).observe(3.0);
    let text = registry.encode().unwrap();
    assert!(text.contains("h_bucket{le=\"5.0\",r=\"GET\"} 1\n"), "{text}");
    assert!(text.contains("h_sum{r=\"GET\"} 3.0\n"), "{text}");
    assert!(text.contains("h_count{r=\"GET\"} 1\n"), "{text}");
    assert!(text.ends_with("# EOF\n"));
}

#[test]
fn duplicate_registration_leaves_first_usable() {
    let mut registry = MetricsRegistry::new();
    assert_eq!(registry.histogram_add("h", "first", family(vec![1.0])), Ok(()));
    assert_eq!(
        registry.histogram_add("h", "second", family(vec![2.0])),
        Err(MetricsError::DuplicateName("h".to_string()))
    );
    let labels: Labels = Vec::new();
    registry.histogram_family("h").unwrap().get_or_create(&labels).observe(0.5);
    let text = registry.encode().unwrap();
    assert_eq!(text.matches("# TYPE h histogram").count(), 1, "{text}");
    assert!(text.contains("# HELP h first.\n"), "{text}");
    assert!(text.contains("h_bucket{le=\"1.0\"} 1\n"), "{text}");
}

#[test]
fn observe_on_unknown_name_fails() {
    let mut registry = MetricsRegistry::new();
    assert!(registry.histogram_family("missing").is_err());
    assert_eq!(registry.histogram_add("h", "help", family(vec![1.0])), Ok(()));
    assert_eq!(
        registry.histogram_family("missing").err(),
        Some(MetricsError::UnknownMetric("missing".to_string()))
    );
    assert!(registry.contains("h"));
    assert!(!registry.contains("missing"));
    assert_eq!(registry.histogram_list(), vec!["h".to_string()]);
}

#[test]
fn encode_of_empty_registry() {
    let registry: MetricsRegistry<Family<Labels, Histogram>> = MetricsRegistry::new();
    assert_eq!(registry.encode(), Ok("# EOF\n".to_string()));
    assert!(registry.histogram_list().is_empty());
}

#[test]
fn unobserved_family_is_left_out_and_order_kept() {
    let mut registry = MetricsRegistry::new();
    for name in ["first", "skipped", "last"] {
        assert_eq!(registry.histogram_add(name, "help", family(vec![1.0])), Ok(()));
    }
    let labels: Labels = Vec::new();
    for name in ["last", "first"] {
        registry.histogram_family(name).unwrap().get_or_create(&labels).observe(0.5);
    }
    let text = registry.encode().unwrap();
    assert!(!text.contains("# HELP skipped "), "{text}");
    let first = text.find("# HELP first ").unwrap();
    let last = text.find("# HELP last ").unwrap();
    assert!(text.starts_with("# HELP first ") && first < last, "{text}");
    assert!(text.ends_with("# EOF\n"));
}
