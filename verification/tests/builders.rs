use aliapis::arms::ListSyntheticDetail;
use aliapis::billing::{DescribeInstanceBill, QueryAccountBalance};
use aliapis::dns::{AddDomainRecord, DescribeDomainRecords, DescribeDomains, SetDomainRecordStatus};
use aliapis::sign::{Api, RequestHeader};
use aliapis::sls::GetLogsV2;
use aliapis::sms::QuerySendStatistics;

fn query_pairs(r: &RequestHeader) -> Vec<(String, String)> {
    r.query_params()
}

#[test]
fn add_domain_record_builds_its_parameters() {
    let api = AddDomainRecord::new()
        .set_domain_name("123clouddrive.cn")
        .set_rr("test")
        .set_type("cname")
        .set_value("www.123pan.com");
    assert_eq!(api.name(), "AddDomainRecord");
    let r = api.canonical_request();
    assert_eq!(r.http_method(), "GET");
    assert_eq!(r.host(), "alidns.cn-hangzhou.aliyuncs.com");
    assert_eq!(
        query_pairs(&r),
        vec![
            ("DomainName".to_string(), "123clouddrive.cn".to_string()),
            ("PageSize".to_string(), "100".to_string()),
            ("RR".to_string(), "test".to_string()),
            ("Type".to_string(), "CNAME".to_string()),
            ("Value".to_string(), "www.123pan.com".to_string()),
        ]
    );
}

#[test]
fn describe_domains_posts_with_its_default_page_size() {
    let api = DescribeDomains::new();
    assert_eq!(api.name(), "DescribeDomains");
    let r = api.canonical_request();
    assert_eq!(r.http_method(), "POST");
    assert_eq!(query_pairs(&r), vec![("PageSize".to_string(), "100".to_string())]);
}

#[test]
fn describe_domain_records_formats_numeric_parameters() {
    let api = DescribeDomainRecords::new()
        .set_domain_name("123pan.cn")
        .set_page_number(2)
        .set_page_size(50);
    let r = api.canonical_request();
    assert_eq!(
        query_pairs(&r),
        vec![
            ("DomainName".to_string(), "123pan.cn".to_string()),
            ("PageNumber".to_string(), "2".to_string()),
            ("PageSize".to_string(), "50".to_string()),
        ]
    );
}

#[test]
fn set_domain_record_status_builds_its_parameters() {
    let api = SetDomainRecordStatus::new()
        .set_record_id("802585887865966592")
        .set_status("Enable");
    let r = api.canonical_request();
    assert_eq!(
        query_pairs(&r),
        vec![
            ("PageSize".to_string(), "100".to_string()),
            ("RecordId".to_string(), "802585887865966592".to_string()),
            ("Status".to_string(), "Enable".to_string()),
        ]
    );
}

#[test]
fn query_account_balance_has_no_parameters() {
    let api = QueryAccountBalance::new();
    assert_eq!(api.name(), "QueryAccountBalance");
    let r = api.canonical_request();
    assert_eq!(r.host(), "business.aliyuncs.com");
    assert!(query_pairs(&r).is_empty());
}

#[test]
fn describe_instance_bill_starts_empty() {
    let api = DescribeInstanceBill::new().set_billing_cycle("2024-01");
    let r = api.canonical_request();
    assert_eq!(query_pairs(&r), vec![("BillingCycle".to_string(), "2024-01".to_string())]);
}

#[test]
fn query_send_statistics_has_paging_defaults() {
    let api = QuerySendStatistics::new().set_start_date("20240101").set_end_date("20240101");
    let r = api.canonical_request();
    assert_eq!(r.http_method(), "POST");
    assert_eq!(
        query_pairs(&r),
        vec![
            ("EndDate".to_string(), "20240101".to_string()),
            ("PageIndex".to_string(), "1".to_string()),
            ("PageSize".to_string(), "50".to_string()),
            ("StartDate".to_string(), "20240101".to_string()),
        ]
    );
}

#[test]
fn list_synthetic_detail_builds_filter_strings() {
    let api = ListSyntheticDetail::new()
        .set_detail("DOWNLOAD_LIST")
        .set_filters("f124d885bcbc4d78a7fcb3a020b6ad66");
    let r = api.canonical_request();
    let pairs = query_pairs(&r);
    assert!(pairs.contains(&(
        "Filters".to_string(),
        "{\"taskId\": \"f124d885bcbc4d78a7fcb3a020b6ad66\"}".to_string()
    )));
    assert!(pairs.contains(&("Category".to_string(), "SYNTHETIC".to_string())));
    assert!(pairs.contains(&("PageSize".to_string(), "300".to_string())));
    assert!(pairs.contains(&("RegionId".to_string(), "cn-hangzhou".to_string())));
}

#[test]
fn get_logs_v2_builds_path_and_json_body() {
    let api = GetLogsV2::new()
        .set_logstore("123pan-gateway")
        .set_from(1700000000)
        .set_to(1700003600);
    let r = api.canonical_request();
    assert_eq!(r.http_method(), "POST");
    assert_eq!(r.canonical_uri(), "/logstores/123pan-gateway/logs");
    assert_eq!(r.body(), "{\"from\":\"1700000000\",\"to\":\"1700003600\"}");
    let accept = r
        .headers()
        .into_iter()
        .find(|(k, _)| k == "Accept-Encoding")
        .map(|(_, v)| v);
    assert_eq!(accept.as_deref(), Some("gzip"));
}

#[test]
fn get_logs_v2_escapes_json_strings() {
    let api = GetLogsV2::new().set_query("say \"hi\"\n\t\\");
    let r = api.canonical_request();
    assert_eq!(r.body(), "{\"query\":\"say \\\"hi\\\"\\n\\t\\\\\"}");
}

#[test]
fn get_logs_v2_body_members_come_sorted() {
    let api = GetLogsV2::new()
        .set_topic("t")
        .set_from(1)
        .set_reverse(true)
        .set_line(100);
    let r = api.canonical_request();
    assert_eq!(
        r.body(),
        "{\"from\":\"1\",\"line\":\"100\",\"reverse\":\"true\",\"topic\":\"t\"}"
    );
}

#[test]
fn advanced_filters_use_the_original_empty_key() {
    let api = ListSyntheticDetail::new().set_advanced_filters("dataId", "eq", "abc");
    let r = api.canonical_request();
    let pairs = query_pairs(&r);
    // the empty key sorts before every other key
    assert_eq!(pairs[0].0, "");
    assert_eq!(pairs[0].1, "[{\"Key\":\"dataId\",\"OpType\":\"eq\",\"Value\":\"abc\"}]");
}

#[test]
fn get_order_detail_builds_its_parameter() {
    let api = aliapis::billing::GetOrderDetail::new().set_order_id("2024010100000001");
    let r = api.canonical_request();
    assert_eq!(query_pairs(&r), vec![("OrderId".to_string(), "2024010100000001".to_string())]);
}

#[test]
fn query_orders_builds_its_parameters() {
    let api = aliapis::billing::QueryOrders::new()
        .set_create_time_start("2024-01-01T00:00:00Z")
        .set_page_size("300");
    let r = api.canonical_request();
    assert_eq!(
        query_pairs(&r),
        vec![
            ("CreateTimeStart".to_string(), "2024-01-01T00:00:00Z".to_string()),
            ("PageSize".to_string(), "300".to_string()),
        ]
    );
}

#[test]
fn query_dp_utilization_detail_builds_its_parameters() {
    let api = aliapis::billing::QueryDPUtilizationDetail::new()
        .set_start_time("2024-01-1 00:00:00")
        .set_include_share("true");
    let r = api.canonical_request();
    assert_eq!(
        query_pairs(&r),
        vec![
            ("IncludeShare".to_string(), "true".to_string()),
            ("StartTime".to_string(), "2024-01-1 00:00:00".to_string()),
        ]
    );
}

#[test]
fn query_resource_package_instances_has_its_default() {
    let api = aliapis::billing::QueryResourcePackageInstances::new();
    let r = api.canonical_request();
    assert_eq!(query_pairs(&r), vec![("PageSize".to_string(), "300".to_string())]);
}
