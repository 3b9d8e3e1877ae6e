use billing_notify::metrics::{
    dimension_values, scalar_statistic, service_cost_query, service_list_query, total_cost_query,
};
use billing_notify::model::{
    Billing, Datapoint, Dimension, DimensionFilter, ListResponse, MetricInfo, ParameterInfo,
    PipelineError, SecretResponse, ServiceBilling, Statistic, StatisticsResponse, TimeWindow,
};
use billing_notify::notify::compose_message;
use billing_notify::secret::resolve_secret;
use billing_notify::text::{decimal_digits, format_dollars};

fn dim(name: &str, value: &str) -> Dimension {
    Dimension { name: name.to_string(), value: value.to_string() }
}

#[test]
fn decimal_digits_exact() {
    assert_eq!(decimal_digits(0), "0");
    assert_eq!(decimal_digits(7), "7");
    assert_eq!(decimal_digits(10), "10");
    assert_eq!(decimal_digits(1234), "1234");
    assert_eq!(decimal_digits(u64::MAX), "18446744073709551615");
}

#[test]
fn format_dollars_exact() {
    assert_eq!(format_dollars(1234), "$12.34");
    assert_eq!(format_dollars(500), "$5.00");
    assert_eq!(format_dollars(734), "$7.34");
    assert_eq!(format_dollars(0), "$0.00");
    assert_eq!(format_dollars(7), "$0.07");
    assert_eq!(format_dollars(100000), "$1000.00");
}

#[test]
fn scalar_of_present_datapoint_is_its_value() {
    let resp = StatisticsResponse {
        datapoints: Some(vec![Datapoint { maximum_cents: Some(1234) }]),
    };
    assert_eq!(scalar_statistic(&resp), 1234);
}

#[test]
fn scalar_of_first_datapoint_wins() {
    let resp = StatisticsResponse {
        datapoints: Some(vec![
            Datapoint { maximum_cents: Some(55) },
            Datapoint { maximum_cents: Some(99) },
        ]),
    };
    assert_eq!(scalar_statistic(&resp), 55);
}

#[test]
fn scalar_of_absent_data_is_zero() {
    assert_eq!(scalar_statistic(&StatisticsResponse { datapoints: None }), 0);
    assert_eq!(scalar_statistic(&StatisticsResponse { datapoints: Some(vec![]) }), 0);
    assert_eq!(
        scalar_statistic(
            &StatisticsResponse { datapoints: Some(vec![Datapoint { maximum_cents: None }]) }
        ),
        0
    );
}

#[test]
fn dimension_values_keeps_order_and_duplicates() {
    let resp = ListResponse {
        metrics: Some(vec![
            MetricInfo {
                dimensions: Some(vec![
                    dim("Currency", "USD"),
                    dim("ServiceName", "AmazonEC2"),
                ]),
            },
            MetricInfo { dimensions: None },
            MetricInfo {
                dimensions: Some(vec![
                    dim("ServiceName", "AWSLambda"),
                    dim("ServiceName", "AmazonEC2"),
                ]),
            },
        ]),
    };
    let names = dimension_values(&resp, &"ServiceName".to_string());
    assert_eq!(names, vec!["AmazonEC2", "AWSLambda", "AmazonEC2"]);
}

#[test]
fn dimension_values_of_empty_reply() {
    assert_eq!(
        dimension_values(&ListResponse { metrics: None }, &"ServiceName".to_string()),
        Vec::<String>::new()
    );
    assert_eq!(
        dimension_values(&ListResponse { metrics: Some(vec![]) }, &"ServiceName".to_string()),
        Vec::<String>::new()
    );
}

#[test]
fn total_query_shape() {
    let w = TimeWindow::last_day(1700000000);
    assert_eq!(w.start, 1699913600);
    assert_eq!(w.end, 1700000000);
    assert_eq!(w.period_seconds, 86400);
    let q = total_cost_query(w);
    assert_eq!(q.namespace, "AWS/Billing");
    assert_eq!(q.metric_name, "EstimatedCharges");
    assert_eq!(q.statistic, Statistic::Maximum);
    assert_eq!(q.dimensions, vec![dim("Currency", "USD")]);
    assert_eq!(q.window, w);
    assert_eq!(q.start_text, "2023-11-13T22:13:20Z");
    assert_eq!(q.end_text, "2023-11-14T22:13:20Z");
}

#[test]
fn service_query_shape() {
    let w = TimeWindow::last_day(86400);
    let q = service_cost_query(w, "AWSLambda".to_string());
    assert_eq!(
        q.dimensions,
        vec![dim("Currency", "USD"), dim("ServiceName", "AWSLambda")]
    );
    assert_eq!(q.start_text, "1970-01-01T00:00:00Z");
    assert_eq!(q.end_text, "1970-01-02T00:00:00Z");
}

#[test]
fn list_query_uses_wildcard_filter() {
    let q = service_list_query();
    assert_eq!(q.namespace, "AWS/Billing");
    assert_eq!(q.metric_name, None);
    assert_eq!(
        q.filters,
        vec![DimensionFilter { name: "ServiceName".to_string(), value: None }]
    );
}

#[test]
fn resolve_secret_found() {
    let resp = SecretResponse {
        parameter: Some(ParameterInfo { value: Some("https://hooks.example/x".to_string()) }),
    };
    assert_eq!(resolve_secret(resp), Ok("https://hooks.example/x".to_string()));
}

#[test]
fn resolve_secret_missing_entry() {
    let resp = SecretResponse { parameter: None };
    assert_eq!(resolve_secret(resp), Err(PipelineError::SecretNotFound));
}

#[test]
fn resolve_secret_missing_value() {
    let resp = SecretResponse { parameter: Some(ParameterInfo { value: None }) };
    assert_eq!(resolve_secret(resp), Err(PipelineError::SecretNotFound));
}

#[test]
fn composed_message_shape() {
    let billing = Billing {
        total_cents: 1234,
        services: vec![
            ServiceBilling { name: "AmazonEC2".to_string(), cost_cents: 500 },
            ServiceBilling { name: "AWSLambda".to_string(), cost_cents: 734 },
        ],
    };
    let m = compose_message(&billing);
    assert_eq!(m.display_name, "AWS Billing Notification");
    assert_eq!(m.icon_hint, ":money_with_wings:");
    assert_eq!(m.text, "今月の請求額は $12.34 です");
    assert!(m.text.contains("$12.34"));
    assert_eq!(m.attachments.len(), 1);
    assert_eq!(m.attachments[0].title, "each service");
    let rows: Vec<(String, String)> = m.attachments[0]
        .fields
        .iter()
        .map(|f| (f.label.clone(), f.value.clone()))
        .collect();
    assert_eq!(
        rows,
        vec![
            ("AmazonEC2".to_string(), "$5.00".to_string()),
            ("AWSLambda".to_string(), "$7.34".to_string()),
        ]
    );
}
