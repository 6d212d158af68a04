use aliapis::sign::RequestHeader;
use ordermap::OrderMap;

fn descriptor_with(params: OrderMap<String, String>) -> RequestHeader {
    RequestHeader::new_with(
        "example.aliyuncs.com".to_string(),
        "DescribeDomains".to_string(),
        "2015-01-09".to_string(),
        "2024-01-01T00:00:00Z".to_string(),
        "00000000-0000-0000-0000-000000000000".to_string(),
        params,
    )
}

#[test]
fn insertion_order_does_not_change_the_canonical_query() {
    let pairs = [("Zebra", "1"), ("Alpha", "2"), ("Mango", "3"), ("Kiwi", "4")];
    let mut forward = OrderMap::new();
    for (k, v) in pairs {
        forward.insert_sorted(k.to_string(), v.to_string());
    }
    let mut backward = OrderMap::new();
    for (k, v) in pairs.iter().rev() {
        backward.insert_sorted(k.to_string(), v.to_string());
    }
    let a = descriptor_with(forward).canonical_query_string();
    let b = descriptor_with(backward).canonical_query_string();
    assert_eq!(a, b);
    assert_eq!(a, "Alpha=2&Kiwi=4&Mango=3&Zebra=1");
}

#[test]
fn query_parameters_come_back_in_ascending_key_order() {
    let mut params = OrderMap::new();
    for k in ["b", "a", "d", "c"] {
        params.insert_sorted(k.to_string(), "v".to_string());
    }
    let r = descriptor_with(params);
    let keys: Vec<String> = r.query_params().into_iter().map(|(k, _)| k).collect();
    assert_eq!(keys, vec!["a", "b", "c", "d"]);
}

#[test]
fn reinserting_a_key_replaces_its_value_in_place() {
    let mut params = OrderMap::new();
    params.insert_sorted("a".to_string(), "1".to_string());
    params.insert_sorted("b".to_string(), "2".to_string());
    params.insert_sorted("a".to_string(), "3".to_string());
    let r = descriptor_with(params);
    let entries = r.query_params();
    assert_eq!(
        entries,
        vec![("a".to_string(), "3".to_string()), ("b".to_string(), "2".to_string())]
    );
}

#[test]
fn empty_query_yields_an_empty_canonical_query_string() {
    let r = descriptor_with(OrderMap::new());
    assert_eq!(r.canonical_query_string(), "");
}

#[test]
fn single_parameter_has_no_separator() {
    let mut params = OrderMap::new();
    params.insert_sorted("only".to_string(), "one".to_string());
    let r = descriptor_with(params);
    assert_eq!(r.canonical_query_string(), "only=one");
}
