use pyotheus::error::MetricsError;
use pyotheus::registry::HistogramRegistry;

#[test]
fn test_histogram_list_len() {
    let mut registry = HistogramRegistry::new();
    let add1 = registry.histogram_add("hist0", "help str", vec![100.0, 200.0, 300.0]);
    let add2 = registry.histogram_add("hist1", "help str", vec![100.0, 200.0, 400.0]);
    assert!(add1.is_ok());
    assert!(add2.is_ok());
    let mut hist_list = registry.histogram_list();
    hist_list.sort();
    let mut hist_expected = vec!["hist0", "hist1"];
    hist_expected.sort();
    assert_eq!(hist_list, hist_expected);
}

#[test]
fn test_histogram_exists() {
    let mut registry = HistogramRegistry::new();
    let add1 = registry.histogram_add("hist0", "help str", vec![100.0, 200.0, 300.0]);
    assert!(add1.is_ok());
    let add2 = registry.histogram_add("hist0", "help str", vec![100.0, 200.0]);
    assert!(add2.is_err());
}

#[test]
fn duplicate_name_keeps_first_registration() {
    let mut registry = HistogramRegistry::new();
    assert_eq!(registry.histogram_add("h", "first", vec![1.0, 2.0]), Ok(()));
    assert_eq!(
        registry.histogram_add("h", "second", vec![5.0]),
        Err(MetricsError::DuplicateName("h".to_string()))
    );
    assert_eq!(registry.len(), 1);
    assert_eq!(registry.histogram_family("h"), Ok(&vec![1.0, 2.0]));
}

#[test]
fn unknown_metric_is_reported_and_changes_nothing() {
    let mut registry: HistogramRegistry<u32> = HistogramRegistry::new();
    assert_eq!(registry.histogram_add("h", "help", 7), Ok(()));
    assert_eq!(
        registry.histogram_family("missing"),
        Err(MetricsError::UnknownMetric("missing".to_string()))
    );
    assert_eq!(registry.len(), 1);
    assert_eq!(registry.histogram_list(), vec!["h".to_string()]);
}

#[test]
fn lookup_before_and_after_registration() {
    let mut registry: HistogramRegistry<u32> = HistogramRegistry::new();
    assert!(registry.histogram_family("h").is_err());
    assert!(!registry.contains("h"));
    assert_eq!(registry.histogram_add("h", "help", 3), Ok(()));
    assert_eq!(registry.histogram_family("h"), Ok(&3));
    assert!(registry.contains("h"));
}

#[test]
fn list_keeps_registration_order() {
    let mut registry: HistogramRegistry<u32> = HistogramRegistry::new();
    assert!(registry.histogram_list().is_empty());
    for (i, name) in ["zeta", "alpha", "mid"].iter().enumerate() {
        assert_eq!(registry.histogram_add(name, "help", i as u32), Ok(()));
    }
    assert!(registry.histogram_add("alpha", "again", 9).is_err());
    assert_eq!(registry.histogram_list(), vec!["zeta", "alpha", "mid"]);
    assert_eq!(registry.position("mid"), Some(2));
    assert_eq!(registry.position("nope"), None);
}

#[test]
fn successes_count_distinct_names() {
    let mut registry: HistogramRegistry<u32> = HistogramRegistry::new();
    let calls = ["a", "b", "a", "c", "b", "a", "d"];
    let mut ok = 0;
    for name in calls.iter() {
        if registry.histogram_add(name, "help", 0).is_ok() {
            ok += 1;
        }
    }
    assert_eq!(ok, 4);
    assert_eq!(registry.len(), 4);
    assert_eq!(registry.histogram_list(), vec!["a", "b", "c", "d"]);
}

#[test]
fn empty_name_is_an_ordinary_key() {
    let mut registry: HistogramRegistry<u32> = HistogramRegistry::new();
    assert_eq!(registry.histogram_add("", "help", 1), Ok(()));
    assert_eq!(
        registry.histogram_add("", "help", 2),
        Err(MetricsError::DuplicateName(String::new()))
    );
    assert_eq!(registry.histogram_family(""), Ok(&1));
}
