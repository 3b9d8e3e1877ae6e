use billing_notify::model::{
    Datapoint, Dimension, ListResponse, MetricInfo, ParameterInfo, PipelineError, SecretResponse,
    StatisticsResponse,
};
use billing_notify::pipeline::{run, Action, Event};

const NOW: i64 = 1700000000;

fn secret_ok(url: &str) -> Event {
    Event::SecretReply(Ok(SecretResponse {
        parameter: Some(ParameterInfo { value: Some(url.to_string()) }),
    }))
}

fn stat_ok(cents: Option<u64>) -> Event {
    Event::StatisticReply(Ok(StatisticsResponse {
        datapoints: Some(vec![Datapoint { maximum_cents: cents }]),
    }))
}

fn list_ok(names: &[&str]) -> Event {
    let metrics = names
        .iter()
        .map(|n| MetricInfo {
            dimensions: Some(vec![Dimension {
                name: "ServiceName".to_string(),
                value: n.to_string(),
            }]),
        })
        .collect();
    Event::ListReply(Ok(ListResponse { metrics: Some(metrics) }))
}

fn scenario_a_script() -> Vec<Event> {
    vec![
        secret_ok("https://hooks.example/T000/B000"),
        stat_ok(Some(1234)),
        list_ok(&["AmazonEC2", "AWSLambda"]),
        stat_ok(Some(500)),
        stat_ok(Some(734)),
        Event::DeliveryReply(Ok(())),
    ]
}

#[test]
fn scenario_full_run_delivers_breakdown() {
    let report = run(NOW, scenario_a_script());
    assert_eq!(report.outcome, Ok(()));
    assert_eq!(report.actions.len(), 6);
    match &report.actions[0] {
        Action::FetchSecret { name, with_decryption } => {
            assert_eq!(name, "/billing-notification/slack-webhook-url");
            assert!(*with_decryption);
        }
        other => panic!("unexpected first action: {:?}", other),
    }
    match &report.actions[1] {
        Action::GetStatistic { query } => {
            assert_eq!(query.namespace, "AWS/Billing");
            assert_eq!(query.metric_name, "EstimatedCharges");
            assert_eq!(query.dimensions.len(), 1);
            assert_eq!(query.dimensions[0].name, "Currency");
            assert_eq!(query.dimensions[0].value, "USD");
        }
        other => panic!("unexpected second action: {:?}", other),
    }
    match &report.actions[2] {
        Action::ListServices { query } => {
            assert_eq!(query.namespace, "AWS/Billing");
            assert_eq!(query.filters.len(), 1);
            assert_eq!(query.filters[0].name, "ServiceName");
            assert_eq!(query.filters[0].value, None);
        }
        other => panic!("unexpected third action: {:?}", other),
    }
    for (i, service) in ["AmazonEC2", "AWSLambda"].iter().enumerate() {
        match &report.actions[3 + i] {
            Action::GetStatistic { query } => {
                assert_eq!(query.dimensions.len(), 2);
                assert_eq!(query.dimensions[0].name, "Currency");
                assert_eq!(query.dimensions[0].value, "USD");
                assert_eq!(query.dimensions[1].name, "ServiceName");
                assert_eq!(&query.dimensions[1].value, service);
            }
            other => panic!("unexpected per-service action: {:?}", other),
        }
    }
    match &report.actions[5] {
        Action::Deliver { webhook, message } => {
            assert_eq!(webhook, "https://hooks.example/T000/B000");
            assert!(message.text.contains("$12.34"));
            assert_eq!(message.attachments.len(), 1);
            let rows: Vec<(String, String)> = message.attachments[0]
                .fields
                .iter()
                .map(|f| (f.label.clone(), f.value.clone()))
                .collect();
            assert_eq!(
                rows,
                vec![
                    ("AmazonEC2".to_string(), "$5.00".to_string()),
                    ("AWSLambda".to_string(), "$7.34".to_string()),
                ]
            );
        }
        other => panic!("unexpected delivery action: {:?}", other),
    }
}

#[test]
fn scenario_empty_service_list_sends_empty_table() {
    let script = vec![
        secret_ok("https://hooks.example/w"),
        stat_ok(Some(999)),
        list_ok(&[]),
        Event::DeliveryReply(Ok(())),
    ];
    let report = run(NOW, script);
    assert_eq!(report.outcome, Ok(()));
    assert_eq!(report.actions.len(), 4);
    match &report.actions[3] {
        Action::Deliver { message, .. } => {
            assert!(message.text.contains("$9.99"));
            assert_eq!(message.attachments.len(), 1);
            assert_eq!(message.attachments[0].fields.len(), 0);
        }
        other => panic!("unexpected action: {:?}", other),
    }
}

#[test]
fn scenario_secret_not_found_sends_nothing() {
    let script = vec![
        Event::SecretReply(Ok(SecretResponse { parameter: None })),
        stat_ok(Some(1)),
    ];
    let report = run(NOW, script);
    assert_eq!(report.outcome, Err(PipelineError::SecretNotFound));
    assert_eq!(report.actions.len(), 1);
    assert!(matches!(report.actions[0], Action::FetchSecret { .. }));
}

#[test]
fn scenario_secret_backend_failure_sends_nothing() {
    let script = vec![Event::SecretReply(Err("ssm unavailable".to_string()))];
    let report = run(NOW, script);
    assert_eq!(
        report.outcome,
        Err(PipelineError::SecretBackend("ssm unavailable".to_string()))
    );
    assert_eq!(report.actions.len(), 1);
}

#[test]
fn scenario_per_service_failure_aborts_run() {
    let script = vec![
        secret_ok("https://hooks.example/w"),
        stat_ok(Some(1234)),
        list_ok(&["AmazonEC2", "AWSLambda"]),
        stat_ok(Some(500)),
        Event::StatisticReply(Err("throttled".to_string())),
    ];
    let report = run(NOW, script);
    assert_eq!(
        report.outcome,
        Err(PipelineError::MetricsBackend("throttled".to_string()))
    );
    assert!(report
        .actions
        .iter()
        .all(|a| !matches!(a, Action::Deliver { .. })));
    assert_eq!(report.actions.len(), 5);
}

#[test]
fn scenario_total_failure_aborts_run() {
    let script = vec![
        secret_ok("https://hooks.example/w"),
        Event::StatisticReply(Err("auth".to_string())),
    ];
    let report = run(NOW, script);
    assert_eq!(report.outcome, Err(PipelineError::MetricsBackend("auth".to_string())));
    assert_eq!(report.actions.len(), 2);
}

#[test]
fn scenario_list_failure_aborts_run() {
    let script = vec![
        secret_ok("https://hooks.example/w"),
        stat_ok(Some(1234)),
        Event::ListReply(Err("boom".to_string())),
    ];
    let report = run(NOW, script);
    assert_eq!(report.outcome, Err(PipelineError::MetricsBackend("boom".to_string())));
    assert!(report
        .actions
        .iter()
        .all(|a| !matches!(a, Action::Deliver { .. })));
}

#[test]
fn scenario_delivery_failure_is_reported() {
    let script = vec![
        secret_ok("https://hooks.example/w"),
        stat_ok(Some(1234)),
        list_ok(&[]),
        Event::DeliveryReply(Err("410 gone".to_string())),
    ];
    let report = run(NOW, script);
    assert_eq!(report.outcome, Err(PipelineError::Delivery("410 gone".to_string())));
}

#[test]
fn empty_script_is_a_configuration_error() {
    let report = run(NOW, vec![]);
    assert_eq!(report.outcome, Err(PipelineError::Configuration));
    assert_eq!(report.actions.len(), 1);
}

#[test]
fn mismatched_reply_is_a_configuration_error() {
    let script = vec![Event::DeliveryReply(Ok(()))];
    let report = run(NOW, script);
    assert_eq!(report.outcome, Err(PipelineError::Configuration));
}

#[test]
fn identical_scripts_give_identical_reports() {
    let first = run(NOW, scenario_a_script());
    let second = run(NOW, scenario_a_script());
    assert_eq!(first, second);
    let payload = |r: &billing_notify::pipeline::Report| match r.actions.last().unwrap() {
        Action::Deliver { webhook, message } => (webhook.clone(), message.clone()),
        other => panic!("unexpected last action: {:?}", other),
    };
    assert_eq!(payload(&first), payload(&second));
}

#[test]
fn absent_total_counts_as_zero_in_message() {
    let script = vec![
        secret_ok("https://hooks.example/w"),
        stat_ok(None),
        list_ok(&[]),
        Event::DeliveryReply(Ok(())),
    ];
    let report = run(NOW, script);
    assert_eq!(report.outcome, Ok(()));
    match &report.actions[3] {
        Action::Deliver { message, .. } => assert!(message.text.contains("$0.00")),
        other => panic!("unexpected action: {:?}", other),
    }
}
