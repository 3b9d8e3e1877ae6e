//! The pipeline driver: resolve the webhook secret, compute the billing
//! aggregate, deliver the notification.
//!
//! The driver is a pure function of the invocation time and of the
//! sequence of collaborator replies, consumed in the order the requests
//! are issued.  `run_model` is the specification-level account of a run:
//! which requests go out and what the single outcome is, the first
//! failing step aborting the whole run.  `run` is the executable driver,
//! proved to report exactly what `run_model` says.

use vstd::prelude::*;
use vstd::string::*;
use crate::metrics::{
    list_query_model, listed_values, model_of_list_query, model_of_query, scalar_model,
    scalar_statistic, service_cost_query, service_list_query, service_query_model,
    total_cost_query, total_query_model, views_of_strings, ListQueryModel, QueryModel,
    dimension_values,
};
use crate::model::{
    Billing, ListQuery, ListResponse, MetricQuery, NotificationMessage, PipelineError,
    ServiceBilling, SecretResponse, StatisticsResponse, TimeWindow, MAX_EPOCH_SECS, WINDOW_SECS,
    window_for,
};
use crate::notify::{
    compose_message, composed_message, model_of_message, rows_of_services, MessageModel,
};
use crate::secret::{resolve_secret, secret_value};

verus! {

/// One backend request the pipeline issues.
#[derive(Clone, Debug, PartialEq, Eq)]
pub enum Action {
    /// Look the webhook endpoint up in the secret store, decrypting it.
    FetchSecret { name: String, with_decryption: bool },
    /// Ask the metrics backend for a scalar statistic.
    GetStatistic { query: MetricQuery },
    /// Ask the metrics backend which metrics carry the service dimension.
    ListServices { query: ListQuery },
    /// Hand the composed message to the notification transport.
    Deliver { webhook: String, message: NotificationMessage },
}

/// One collaborator reply, fed back in the order requested.  An `Err`
/// carries the backend's own description of a failed call.
#[derive(Debug, PartialEq, Eq)]
pub enum Event {
    SecretReply(Result<SecretResponse, String>),
    StatisticReply(Result<StatisticsResponse, String>),
    ListReply(Result<ListResponse, String>),
    DeliveryReply(Result<(), String>),
}

/// What one run did: every request issued, in order, and the single
/// outcome.
#[derive(Debug, PartialEq, Eq)]
pub struct Report {
    pub actions: Vec<Action>,
    pub outcome: Result<(), PipelineError>,
}

// ---------------------------------------------------------------------------
// Ghost views of requests, errors and whole runs.
// ---------------------------------------------------------------------------

/// What one request says, with every string read as its character
/// sequence.
#[verifier::ext_equal]
pub ghost enum ActionModel {
    FetchSecret { name: Seq<char>, with_decryption: bool },
    GetStatistic { query: QueryModel },
    ListServices { query: ListQueryModel },
    Deliver { webhook: Seq<char>, message: MessageModel },
}

/// The failure taxonomy, over character sequences.
#[verifier::ext_equal]
pub ghost enum ErrorModel {
    MetricsBackend { cause: Seq<char> },
    SecretNotFound,
    SecretBackend { cause: Seq<char> },
    Delivery { cause: Seq<char> },
    Configuration,
}

/// Success, or the single failure that aborted the run.
#[verifier::ext_equal]
pub ghost enum OutcomeModel {
    Success,
    Failure { error: ErrorModel },
}

/// The requests a run issues, in order, and its outcome.
#[verifier::ext_equal]
pub ghost struct RunModel {
    pub actions: Seq<ActionModel>,
    pub outcome: OutcomeModel,
}

pub open spec fn model_of_action(a: Action) -> ActionModel {
    match a {
        Action::FetchSecret { name, with_decryption } => ActionModel::FetchSecret {
            name: name@,
            with_decryption,
        },
        Action::GetStatistic { query } => ActionModel::GetStatistic {
            query: model_of_query(query),
        },
        Action::ListServices { query } => ActionModel::ListServices {
            query: model_of_list_query(query),
        },
        Action::Deliver { webhook, message } => ActionModel::Deliver {
            webhook: webhook@,
            message: model_of_message(message),
        },
    }
}

pub open spec fn models_of_actions(s: Seq<Action>) -> Seq<ActionModel> {
    s.map_values(|a: Action| model_of_action(a))
}

pub open spec fn model_of_error(e: PipelineError) -> ErrorModel {
    match e {
        PipelineError::MetricsBackend(m) => ErrorModel::MetricsBackend { cause: m@ },
        PipelineError::SecretNotFound => ErrorModel::SecretNotFound,
        PipelineError::SecretBackend(m) => ErrorModel::SecretBackend { cause: m@ },
        PipelineError::Delivery(m) => ErrorModel::Delivery { cause: m@ },
        PipelineError::Configuration => ErrorModel::Configuration,
    }
}

pub open spec fn model_of_outcome(o: Result<(), PipelineError>) -> OutcomeModel {
    match o {
        Result::Ok(_) => OutcomeModel::Success,
        Result::Err(e) => OutcomeModel::Failure { error: model_of_error(e) },
    }
}

/// The fixed store name under which the webhook endpoint is kept.
pub open spec fn secret_name_text() -> Seq<char> {
    "/billing-notification/slack-webhook-url"@
}

/// The dimension name under which billed services appear.
pub open spec fn service_dimension_text() -> Seq<char> {
    "ServiceName"@
}

pub open spec fn failed(actions: Seq<ActionModel>, error: ErrorModel) -> RunModel {
    RunModel { actions, outcome: OutcomeModel::Failure { error } }
}

pub open spec fn prefixed(first: Seq<ActionModel>, rest: RunModel) -> RunModel {
    RunModel { actions: first + rest.actions, outcome: rest.outcome }
}

/// Delivery: the composed message goes out whatever the transport then
/// says; the reply alone decides between success and a delivery failure.
pub open spec fn deliver_model(
    webhook: Seq<char>,
    total: u64,
    rows: Seq<(Seq<char>, u64)>,
    script: Seq<Event>,
) -> RunModel {
    let first = seq![
        ActionModel::Deliver { webhook, message: composed_message(total, rows) },
    ];
    if script.len() == 0 {
        failed(first, ErrorModel::Configuration)
    } else {
        match script[0] {
            Event::DeliveryReply(res) => match res {
                Result::Ok(_) => RunModel { actions: first, outcome: OutcomeModel::Success },
                Result::Err(m) => failed(first, ErrorModel::Delivery { cause: m@ }),
            },
            _ => failed(first, ErrorModel::Configuration),
        }
    }
}

/// The per-service fan-out from name `idx` on: one query per remaining
/// name, in listed order, the first failing query aborting everything;
/// when all names are costed, delivery follows.
pub open spec fn services_model(
    now: i64,
    webhook: Seq<char>,
    total: u64,
    names: Seq<Seq<char>>,
    idx: int,
    rows: Seq<(Seq<char>, u64)>,
    script: Seq<Event>,
) -> RunModel
    decreases names.len() - idx,
{
    if !(0 <= idx < names.len()) {
        deliver_model(webhook, total, rows, script)
    } else {
        let first = seq![
            ActionModel::GetStatistic {
                query: service_query_model(window_for(now), names[idx]),
            },
        ];
        if script.len() == 0 {
            failed(first, ErrorModel::Configuration)
        } else {
            match script[0] {
                Event::StatisticReply(res) => match res {
                    Result::Err(m) => failed(first, ErrorModel::MetricsBackend { cause: m@ }),
                    Result::Ok(resp) => prefixed(
                        first,
                        services_model(
                            now,
                            webhook,
                            total,
                            names,
                            idx + 1,
                            rows.push((names[idx], scalar_model(resp))),
                            script.skip(1),
                        ),
                    ),
                },
                _ => failed(first, ErrorModel::Configuration),
            }
        }
    }
}

/// Discovery: the list query goes out; its reply names the services to
/// cost, in the order received.
pub open spec fn list_model(now: i64, webhook: Seq<char>, total: u64, script: Seq<Event>) -> RunModel {
    let first = seq![ActionModel::ListServices { query: list_query_model() }];
    if script.len() == 0 {
        failed(first, ErrorModel::Configuration)
    } else {
        match script[0] {
            Event::ListReply(res) => match res {
                Result::Err(m) => failed(first, ErrorModel::MetricsBackend { cause: m@ }),
                Result::Ok(resp) => prefixed(
                    first,
                    services_model(
                        now,
                        webhook,
                        total,
                        listed_values(resp, service_dimension_text()),
                        0,
                        Seq::empty(),
                        script.skip(1),
                    ),
                ),
            },
            _ => failed(first, ErrorModel::Configuration),
        }
    }
}

/// The total step: the account-wide query goes out; its reply is the
/// total, absence counting as zero.
pub open spec fn total_model(now: i64, webhook: Seq<char>, script: Seq<Event>) -> RunModel {
    let first = seq![
        ActionModel::GetStatistic { query: total_query_model(window_for(now)) },
    ];
    if script.len() == 0 {
        failed(first, ErrorModel::Configuration)
    } else {
        match script[0] {
            Event::StatisticReply(res) => match res {
                Result::Err(m) => failed(first, ErrorModel::MetricsBackend { cause: m@ }),
                Result::Ok(resp) => prefixed(
                    first,
                    list_model(now, webhook, scalar_model(resp), script.skip(1)),
                ),
            },
            _ => failed(first, ErrorModel::Configuration),
        }
    }
}

/// A whole run: resolve the webhook secret first, then compute the
/// billing, then deliver; any step's failure is terminal and nothing
/// after it happens.
pub open spec fn run_model(now: i64, script: Seq<Event>) -> RunModel {
    let first = seq![
        ActionModel::FetchSecret { name: secret_name_text(), with_decryption: true },
    ];
    if script.len() == 0 {
        failed(first, ErrorModel::Configuration)
    } else {
        match script[0] {
            Event::SecretReply(res) => match res {
                Result::Err(m) => failed(first, ErrorModel::SecretBackend { cause: m@ }),
                Result::Ok(resp) => match secret_value(resp) {
                    Option::None => failed(first, ErrorModel::SecretNotFound),
                    Option::Some(url) => prefixed(first, total_model(now, url, script.skip(1))),
                },
            },
            _ => failed(first, ErrorModel::Configuration),
        }
    }
}

// ---------------------------------------------------------------------------
// The executable driver.
// ---------------------------------------------------------------------------

/// The fixed store name under which the webhook endpoint is kept.
pub fn webhook_secret_name() -> (s: String)
    ensures
        s@ == secret_name_text(),
{
    "/billing-notification/slack-webhook-url".to_owned()
}

/// Delivery: composes the billing's message and hands it to the
/// transport; the reply alone decides the outcome.
fn run_deliver(
    webhook: String,
    total: u64,
    rows: Vec<ServiceBilling>,
    actions: Vec<Action>,
    script: Vec<Event>,
) -> (r: Report)
    ensures
        models_of_actions(r.actions@) == models_of_actions(actions@) + deliver_model(
            webhook@,
            total,
            rows_of_services(rows@),
            script@,
        ).actions,
        model_of_outcome(r.outcome) == deliver_model(
            webhook@,
            total,
            rows_of_services(rows@),
            script@,
        ).outcome,
{
    let ghost wh = webhook@;
    let billing = Billing { total_cents: total, services: rows };
    let message = compose_message(&billing);
    let ghost actions0 = actions@;
    let mut actions = actions;
    actions.push(Action::Deliver { webhook, message });
    proof {
        assert(models_of_actions(actions@) =~= models_of_actions(actions0) + seq![
            ActionModel::Deliver {
                webhook: wh,
                message: composed_message(total, rows_of_services(rows@)),
            },
        ]);
    }
    if script.len() == 0 {
        return Report { actions, outcome: Err(PipelineError::Configuration) };
    }
    let mut script = script;
    let ev = script.remove(0);
    match ev {
        Event::DeliveryReply(res) => match res {
            Ok(_) => Report { actions, outcome: Ok(()) },
            Err(m) => Report { actions, outcome: Err(PipelineError::Delivery(m)) },
        },
        _ => Report { actions, outcome: Err(PipelineError::Configuration) },
    }
}

/// The aggregation's per-service fan-out: costs each listed name in
/// order, the first failing query aborting the whole run.
fn run_services(
    now: i64,
    webhook: String,
    total: u64,
    names: Vec<String>,
    idx: usize,
    rows: Vec<ServiceBilling>,
    actions: Vec<Action>,
    script: Vec<Event>,
) -> (r: Report)
    requires
        WINDOW_SECS <= now <= MAX_EPOCH_SECS,
        idx <= names@.len(),
    ensures
        models_of_actions(r.actions@) == models_of_actions(actions@) + services_model(
            now,
            webhook@,
            total,
            views_of_strings(names@),
            idx as int,
            rows_of_services(rows@),
            script@,
        ).actions,
        model_of_outcome(r.outcome) == services_model(
            now,
            webhook@,
            total,
            views_of_strings(names@),
            idx as int,
            rows_of_services(rows@),
            script@,
        ).outcome,
    decreases names@.len() - idx,
{
    if idx == names.len() {
        let r = run_deliver(webhook, total, rows, actions, script);
        return r;
    }
    let w = TimeWindow::last_day(now);
    let name = names[idx].clone();
    let q = service_cost_query(w, name);
    let ghost actions0 = actions@;
    let mut actions = actions;
    actions.push(Action::GetStatistic { query: q });
    proof {
        assert(views_of_strings(names@)[idx as int] == names@[idx as int]@);
        assert(models_of_actions(actions@) =~= models_of_actions(actions0) + seq![
            ActionModel::GetStatistic {
                query: service_query_model(window_for(now), views_of_strings(names@)[idx as int]),
            },
        ]);
    }
    if script.len() == 0 {
        return Report { actions, outcome: Err(PipelineError::Configuration) };
    }
    let ghost script0 = script@;
    let mut script = script;
    let ev = script.remove(0);
    proof {
        assert(script@ =~= script0.skip(1));
    }
    match ev {
        Event::StatisticReply(res) => match res {
            Err(m) => Report { actions, outcome: Err(PipelineError::MetricsBackend(m)) },
            Ok(resp) => {
                let cents = scalar_statistic(&resp);
                let ghost rows0 = rows@;
                let mut rows = rows;
                rows.push(ServiceBilling { name: names[idx].clone(), cost_cents: cents });
                proof {
                    assert(rows_of_services(rows@) =~= rows_of_services(rows0).push(
                        (views_of_strings(names@)[idx as int], scalar_model(resp)),
                    ));
                }
                let r = run_services(now, webhook, total, names, idx + 1, rows, actions, script);
                proof {
                    assert(models_of_actions(r.actions@) =~= models_of_actions(actions0)
                        + services_model(
                        now,
                        webhook@,
                        total,
                        views_of_strings(names@),
                        idx as int,
                        rows_of_services(rows0),
                        script0,
                    ).actions);
                }
                r
            },
        },
        _ => Report { actions, outcome: Err(PipelineError::Configuration) },
    }
}

/// The aggregation's discovery step: lists the billed service names.
fn run_list(now: i64, webhook: String, total: u64, actions: Vec<Action>, script: Vec<Event>) -> (r:
    Report)
    requires
        WINDOW_SECS <= now <= MAX_EPOCH_SECS,
    ensures
        models_of_actions(r.actions@) == models_of_actions(actions@) + list_model(
            now,
            webhook@,
            total,
            script@,
        ).actions,
        model_of_outcome(r.outcome) == list_model(now, webhook@, total, script@).outcome,
{
    let q = service_list_query();
    let ghost actions0 = actions@;
    let mut actions = actions;
    actions.push(Action::ListServices { query: q });
    proof {
        assert(models_of_actions(actions@) =~= models_of_actions(actions0) + seq![
            ActionModel::ListServices { query: list_query_model() },
        ]);
    }
    if script.len() == 0 {
        return Report { actions, outcome: Err(PipelineError::Configuration) };
    }
    let ghost script0 = script@;
    let mut script = script;
    let ev = script.remove(0);
    proof {
        assert(script@ =~= script0.skip(1));
    }
    match ev {
        Event::ListReply(res) => match res {
            Err(m) => Report { actions, outcome: Err(PipelineError::MetricsBackend(m)) },
            Ok(resp) => {
                let key = "ServiceName".to_owned();
                let names = dimension_values(&resp, &key);
                let rows: Vec<ServiceBilling> = Vec::new();
                proof {
                    assert(rows_of_services(rows@) =~= Seq::<(Seq<char>, u64)>::empty());
                }
                let r = run_services(now, webhook, total, names, 0, rows, actions, script);
                r
            },
        },
        _ => Report { actions, outcome: Err(PipelineError::Configuration) },
    }
}

/// The aggregation's first step: the account-wide total over the window.
fn run_total(now: i64, webhook: String, actions: Vec<Action>, script: Vec<Event>) -> (r: Report)
    requires
        WINDOW_SECS <= now <= MAX_EPOCH_SECS,
    ensures
        models_of_actions(r.actions@) == models_of_actions(actions@) + total_model(
            now,
            webhook@,
            script@,
        ).actions,
        model_of_outcome(r.outcome) == total_model(now, webhook@, script@).outcome,
{
    let w = TimeWindow::last_day(now);
    let q = total_cost_query(w);
    let ghost actions0 = actions@;
    let mut actions = actions;
    actions.push(Action::GetStatistic { query: q });
    proof {
        assert(models_of_actions(actions@) =~= models_of_actions(actions0) + seq![
            ActionModel::GetStatistic { query: total_query_model(window_for(now)) },
        ]);
    }
    if script.len() == 0 {
        return Report { actions, outcome: Err(PipelineError::Configuration) };
    }
    let ghost script0 = script@;
    let mut script = script;
    let ev = script.remove(0);
    proof {
        assert(script@ =~= script0.skip(1));
    }
    match ev {
        Event::StatisticReply(res) => match res {
            Err(m) => Report { actions, outcome: Err(PipelineError::MetricsBackend(m)) },
            Ok(resp) => {
                let total = scalar_statistic(&resp);
                let r = run_list(now, webhook, total, actions, script);
                r
            },
        },
        _ => Report { actions, outcome: Err(PipelineError::Configuration) },
    }
}

/// Runs the whole pipeline against a script of collaborator replies.
/// The report holds every request issued, in order, and the outcome;
/// both are exactly what `run_model` says of the script.
pub fn run(now: i64, script: Vec<Event>) -> (r: Report)
    requires
        WINDOW_SECS <= now <= MAX_EPOCH_SECS,
    ensures
        models_of_actions(r.actions@) == run_model(now, script@).actions,
        model_of_outcome(r.outcome) == run_model(now, script@).outcome,
{
    let mut actions: Vec<Action> = Vec::new();
    actions.push(
        Action::FetchSecret { name: webhook_secret_name(), with_decryption: true },
    );
    proof {
        assert(models_of_actions(actions@) =~= seq![
            ActionModel::FetchSecret { name: secret_name_text(), with_decryption: true },
        ]);
    }
    if script.len() == 0 {
        return Report { actions, outcome: Err(PipelineError::Configuration) };
    }
    let ghost script0 = script@;
    let mut script = script;
    let ev = script.remove(0);
    proof {
        assert(script@ =~= script0.skip(1));
    }
    match ev {
        Event::SecretReply(res) => match res {
            Err(m) => Report { actions, outcome: Err(PipelineError::SecretBackend(m)) },
            Ok(resp) => match resolve_secret(resp) {
                Err(e) => Report { actions, outcome: Err(e) },
                Ok(url) => {
                    let r = run_total(now, url, actions, script);
                    r
                },
            },
        },
        _ => Report { actions, outcome: Err(PipelineError::Configuration) },
    }
}

} // verus!
