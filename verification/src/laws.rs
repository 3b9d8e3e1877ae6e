//! The pipeline's cross-cutting guarantees, proved over the run model.

use vstd::prelude::*;
use crate::metrics::{list_query_model, listed_values, scalar_model, service_query_model, total_query_model};
use crate::model::{window_for, ListResponse, SecretResponse, StatisticsResponse};
use crate::pipeline::{
    deliver_model, list_model, run_model, secret_name_text, service_dimension_text,
    services_model, total_model, ActionModel, ErrorModel, Event, OutcomeModel, RunModel,
};
use crate::notify::composed_message;
use crate::secret::secret_value;

verus! {

/// A reply that lets a statistic step proceed.
pub open spec fn stat_ok(e: Event) -> bool {
    e matches Event::StatisticReply(r) && r is Ok
}

/// The per-service fan-out issues exactly one query per remaining name,
/// in listed order, and then exactly one delivery, when every reply lets
/// it proceed.
pub proof fn lemma_services_fanout(
    now: i64,
    webhook: Seq<char>,
    total: u64,
    names: Seq<Seq<char>>,
    idx: int,
    rows: Seq<(Seq<char>, u64)>,
    script: Seq<Event>,
)
    requires
        0 <= idx <= names.len(),
        script.len() >= names.len() - idx,
        forall|j: int| 0 <= j < names.len() - idx ==> #[trigger] stat_ok(script[j]),
    ensures
        ({
            let r = services_model(now, webhook, total, names, idx, rows, script);
            &&& r.actions.len() == names.len() - idx + 1
            &&& forall|j: int|
                0 <= j < names.len() - idx ==> #[trigger] r.actions[j] == (ActionModel::GetStatistic {
                    query: service_query_model(window_for(now), names[idx + j]),
                })
            &&& r.actions[names.len() - idx] is Deliver
        }),
    decreases names.len() - idx,
{
    let r = services_model(now, webhook, total, names, idx, rows, script);
    if idx == names.len() {
        assert(r == deliver_model(webhook, total, rows, script));
    } else {
        assert(stat_ok(script[0]));
        match script[0] {
            Event::StatisticReply(res) => match res {
                Result::Ok(resp) => {
                    let rows2 = rows.push((names[idx], scalar_model(resp)));
                    assert(forall|j: int|
                        0 <= j < names.len() - (idx + 1) ==> #[trigger] stat_ok(
                            script.skip(1)[j],
                        )) by {
                        assert forall|j: int| 0 <= j < names.len() - (idx + 1) implies #[trigger] stat_ok(
                            script.skip(1)[j],
                        ) by {
                            assert(script.skip(1)[j] == script[j + 1]);
                            assert(stat_ok(script[j + 1]));
                        }
                    }
                    lemma_services_fanout(
                        now,
                        webhook,
                        total,
                        names,
                        idx + 1,
                        rows2,
                        script.skip(1),
                    );
                    let rec = services_model(
                        now,
                        webhook,
                        total,
                        names,
                        idx + 1,
                        rows2,
                        script.skip(1),
                    );
                    let first = seq![
                        ActionModel::GetStatistic {
                            query: service_query_model(window_for(now), names[idx]),
                        },
                    ];
                    assert(r.actions == first + rec.actions);
                    assert forall|j: int| 0 <= j < names.len() - idx implies #[trigger] r.actions[j]
                        == (ActionModel::GetStatistic {
                        query: service_query_model(window_for(now), names[idx + j]),
                    }) by {
                        if j == 0 {
                            assert(r.actions[0] == first[0]);
                        } else {
                            assert(r.actions[j] == rec.actions[j - 1]);
                            assert(rec.actions[j - 1] == (ActionModel::GetStatistic {
                                query: service_query_model(window_for(now), names[idx + 1 + (j - 1)]),
                            }));
                        }
                    }
                    assert(r.actions[names.len() - idx] == rec.actions[names.len() - idx - 1]);
                },
                Result::Err(m) => {
                    assert(false);
                },
            },
            _ => {
                assert(false);
            },
        }
    }
}

/// If any remaining per-service query fails, the fan-out's outcome is
/// that backend failure, and no delivery request is ever issued.
pub proof fn lemma_service_failure_aborts(
    now: i64,
    webhook: Seq<char>,
    total: u64,
    names: Seq<Seq<char>>,
    idx: int,
    rows: Seq<(Seq<char>, u64)>,
    script: Seq<Event>,
    k: int,
    m: String,
)
    requires
        0 <= idx <= names.len(),
        0 <= k < names.len() - idx,
        k < script.len(),
        forall|j: int| 0 <= j < k ==> #[trigger] stat_ok(script[j]),
        script[k] == Event::StatisticReply(Result::<StatisticsResponse, String>::Err(m)),
    ensures
        ({
            let r = services_model(now, webhook, total, names, idx, rows, script);
            &&& r.outcome == (OutcomeModel::Failure {
                error: ErrorModel::MetricsBackend { cause: m@ },
            })
            &&& forall|i: int| 0 <= i < r.actions.len() ==> !(#[trigger] r.actions[i] is Deliver)
        }),
    decreases k,
{
    let r = services_model(now, webhook, total, names, idx, rows, script);
    if k == 0 {
        assert(r.actions.len() == 1);
    } else {
        assert(stat_ok(script[0]));
        match script[0] {
            Event::StatisticReply(res) => match res {
                Result::Ok(resp) => {
                    let rows2 = rows.push((names[idx], scalar_model(resp)));
                    assert(script.skip(1)[k - 1] == script[k]);
                    assert(forall|j: int| 0 <= j < k - 1 ==> #[trigger] stat_ok(
                        script.skip(1)[j],
                    )) by {
                        assert forall|j: int| 0 <= j < k - 1 implies #[trigger] stat_ok(
                            script.skip(1)[j],
                        ) by {
                            assert(script.skip(1)[j] == script[j + 1]);
                            assert(stat_ok(script[j + 1]));
                        }
                    }
                    lemma_service_failure_aborts(
                        now,
                        webhook,
                        total,
                        names,
                        idx + 1,
                        rows2,
                        script.skip(1),
                        k - 1,
                        m,
                    );
                    let rec = services_model(
                        now,
                        webhook,
                        total,
                        names,
                        idx + 1,
                        rows2,
                        script.skip(1),
                    );
                    assert forall|i: int| 0 <= i < r.actions.len() implies !(#[trigger] r.actions[i]
                        is Deliver) by {
                        if i > 0 {
                            assert(r.actions[i] == rec.actions[i - 1]);
                        }
                    }
                },
                Result::Err(m2) => {
                    assert(false);
                },
            },
            _ => {
                assert(false);
            },
        }
    }
}

/// A run whose first three replies succeed reaches the per-service
/// fan-out: its requests are the secret fetch, the total query and the
/// list query followed by the fan-out's requests, and its outcome is the
/// fan-out's.
pub proof fn lemma_run_reaches_services(
    now: i64,
    sresp: SecretResponse,
    url: Seq<char>,
    tresp: StatisticsResponse,
    lresp: ListResponse,
    script: Seq<Event>,
)
    requires
        script.len() >= 3,
        script[0] == Event::SecretReply(Result::<SecretResponse, String>::Ok(sresp)),
        secret_value(sresp) == Option::Some(url),
        script[1] == Event::StatisticReply(Result::<StatisticsResponse, String>::Ok(tresp)),
        script[2] == Event::ListReply(Result::<ListResponse, String>::Ok(lresp)),
    ensures
        ({
            let names = listed_values(lresp, service_dimension_text());
            let sec = services_model(
                now,
                url,
                scalar_model(tresp),
                names,
                0,
                Seq::empty(),
                script.skip(3),
            );
            let r = run_model(now, script);
            &&& r.actions == seq![
                ActionModel::FetchSecret { name: secret_name_text(), with_decryption: true },
                ActionModel::GetStatistic { query: total_query_model(window_for(now)) },
                ActionModel::ListServices { query: list_query_model() },
            ] + sec.actions
            &&& r.outcome == sec.outcome
        }),
{
    assert(script.skip(1)[0] == script[1]);
    assert(script.skip(1).skip(1) =~= script.skip(2));
    assert(script.skip(2)[0] == script[2]);
    assert(script.skip(2).skip(1) =~= script.skip(3));
    let names = listed_values(lresp, service_dimension_text());
    let sec = services_model(now, url, scalar_model(tresp), names, 0, Seq::empty(), script.skip(3));
    let r = run_model(now, script);
    assert(r.actions =~= seq![
        ActionModel::FetchSecret { name: secret_name_text(), with_decryption: true },
        ActionModel::GetStatistic { query: total_query_model(window_for(now)) },
        ActionModel::ListServices { query: list_query_model() },
    ] + sec.actions);
}

/// The aggregation's query discipline: a run whose replies let it finish
/// issues exactly one secret fetch, one total query, one list query, one
/// per-service query per listed name in listed order, and one delivery,
/// and nothing else.  The queries' dimensions stand pinned in
/// `total_query_model` and `service_query_model`: `Currency=USD`, plus
/// `ServiceName=<name>` on the per-service queries.
pub proof fn lemma_query_discipline(
    now: i64,
    sresp: SecretResponse,
    url: Seq<char>,
    tresp: StatisticsResponse,
    lresp: ListResponse,
    script: Seq<Event>,
)
    requires
        script.len() >= 3 + listed_values(lresp, service_dimension_text()).len(),
        script[0] == Event::SecretReply(Result::<SecretResponse, String>::Ok(sresp)),
        secret_value(sresp) == Option::Some(url),
        script[1] == Event::StatisticReply(Result::<StatisticsResponse, String>::Ok(tresp)),
        script[2] == Event::ListReply(Result::<ListResponse, String>::Ok(lresp)),
        forall|j: int|
            0 <= j < listed_values(lresp, service_dimension_text()).len() ==> #[trigger] stat_ok(
                script[3 + j],
            ),
    ensures
        ({
            let names = listed_values(lresp, service_dimension_text());
            let r = run_model(now, script);
            &&& r.actions.len() == 4 + names.len()
            &&& r.actions[0] == (ActionModel::FetchSecret {
                name: secret_name_text(),
                with_decryption: true,
            })
            &&& r.actions[1] == (ActionModel::GetStatistic {
                query: total_query_model(window_for(now)),
            })
            &&& r.actions[2] == (ActionModel::ListServices { query: list_query_model() })
            &&& forall|j: int|
                0 <= j < names.len() ==> #[trigger] r.actions[3 + j] == (ActionModel::GetStatistic {
                    query: service_query_model(window_for(now), names[j]),
                })
            &&& r.actions[3 + names.len() as int] is Deliver
        }),
{
    lemma_run_reaches_services(now, sresp, url, tresp, lresp, script);
    let names = listed_values(lresp, service_dimension_text());
    assert(forall|j: int| 0 <= j < names.len() ==> #[trigger] stat_ok(script.skip(3)[j])) by {
        assert forall|j: int| 0 <= j < names.len() implies #[trigger] stat_ok(
            script.skip(3)[j],
        ) by {
            assert(script.skip(3)[j] == script[j + 3]);
            assert(stat_ok(script[3 + j]));
        }
    }
    lemma_services_fanout(
        now,
        url,
        scalar_model(tresp),
        names,
        0,
        Seq::empty(),
        script.skip(3),
    );
    let sec = services_model(now, url, scalar_model(tresp), names, 0, Seq::empty(), script.skip(3));
    let r = run_model(now, script);
    assert forall|j: int| 0 <= j < names.len() implies #[trigger] r.actions[3 + j]
        == (ActionModel::GetStatistic {
        query: service_query_model(window_for(now), names[j]),
    }) by {
        assert(r.actions[3 + j] == sec.actions[j]);
        assert(sec.actions[j] == (ActionModel::GetStatistic {
            query: service_query_model(window_for(now), names[0 + j]),
        }));
    }
    assert(r.actions[3 + names.len() as int] == sec.actions[names.len() as int]);
}

/// If any per-service query fails, the whole run fails with that backend
/// error and no delivery request is ever issued: no partial billing is
/// observable.
pub proof fn lemma_per_service_failure_aborts_run(
    now: i64,
    sresp: SecretResponse,
    url: Seq<char>,
    tresp: StatisticsResponse,
    lresp: ListResponse,
    script: Seq<Event>,
    k: int,
    m: String,
)
    requires
        script.len() > 3 + k,
        script[0] == Event::SecretReply(Result::<SecretResponse, String>::Ok(sresp)),
        secret_value(sresp) == Option::Some(url),
        script[1] == Event::StatisticReply(Result::<StatisticsResponse, String>::Ok(tresp)),
        script[2] == Event::ListReply(Result::<ListResponse, String>::Ok(lresp)),
        0 <= k < listed_values(lresp, service_dimension_text()).len(),
        forall|j: int| 0 <= j < k ==> #[trigger] stat_ok(script[3 + j]),
        script[3 + k] == Event::StatisticReply(Result::<StatisticsResponse, String>::Err(m)),
    ensures
        ({
            let r = run_model(now, script);
            &&& r.outcome == (OutcomeModel::Failure {
                error: ErrorModel::MetricsBackend { cause: m@ },
            })
            &&& forall|i: int| 0 <= i < r.actions.len() ==> !(#[trigger] r.actions[i] is Deliver)
        }),
{
    lemma_run_reaches_services(now, sresp, url, tresp, lresp, script);
    let names = listed_values(lresp, service_dimension_text());
    assert(forall|j: int| 0 <= j < k ==> #[trigger] stat_ok(script.skip(3)[j])) by {
        assert forall|j: int| 0 <= j < k implies #[trigger] stat_ok(script.skip(3)[j]) by {
            assert(script.skip(3)[j] == script[j + 3]);
            assert(stat_ok(script[3 + j]));
        }
    }
    assert(script.skip(3)[k] == script[3 + k]);
    lemma_service_failure_aborts(
        now,
        url,
        scalar_model(tresp),
        names,
        0,
        Seq::empty(),
        script.skip(3),
        k,
        m,
    );
    let sec = services_model(now, url, scalar_model(tresp), names, 0, Seq::empty(), script.skip(3));
    let r = run_model(now, script);
    assert forall|i: int| 0 <= i < r.actions.len() implies !(#[trigger] r.actions[i] is Deliver) by {
        if i >= 3 {
            assert(r.actions[i] == sec.actions[i - 3]);
        }
    }
}

/// The secret is resolved before any metrics work: when the secret step
/// fails, the run's only request is the secret fetch itself -- no metrics
/// query and no delivery -- and the outcome is that failure.
pub proof fn lemma_secret_failure_stops_run(now: i64, script: Seq<Event>)
    requires
        script.len() >= 1,
        script[0] matches Event::SecretReply(res) && (res is Err || (res matches Ok(resp)
            && secret_value(resp) is None)),
    ensures
        ({
            let r = run_model(now, script);
            &&& r.actions.len() == 1
            &&& r.actions[0] is FetchSecret
            &&& r.outcome is Failure
            &&& (script[0] matches Event::SecretReply(res) && match res {
                Result::Err(m) => r.outcome == (OutcomeModel::Failure {
                    error: ErrorModel::SecretBackend { cause: m@ },
                }),
                Result::Ok(resp) => r.outcome == (OutcomeModel::Failure {
                    error: ErrorModel::SecretNotFound,
                }),
            })
        }),
{
}

/// How many delivery requests a trace holds.
pub open spec fn deliver_count(s: Seq<ActionModel>) -> nat
    decreases s.len(),
{
    if s.len() == 0 {
        0
    } else {
        deliver_count(s.drop_first()) + if s[0] is Deliver {
            1nat
        } else {
            0nat
        }
    }
}

proof fn lemma_deliver_count_singleton(a: ActionModel)
    ensures
        deliver_count(seq![a]) == if a is Deliver {
            1nat
        } else {
            0nat
        },
{
    assert(seq![a].drop_first() =~= Seq::<ActionModel>::empty());
    assert(deliver_count(Seq::<ActionModel>::empty()) == 0);
}

proof fn lemma_deliver_count_append(a: Seq<ActionModel>, b: Seq<ActionModel>)
    ensures
        deliver_count(a + b) == deliver_count(a) + deliver_count(b),
    decreases a.len(),
{
    if a.len() == 0 {
        assert(a + b =~= b);
    } else {
        assert((a + b).drop_first() =~= a.drop_first() + b);
        assert((a + b)[0] == a[0]);
        lemma_deliver_count_append(a.drop_first(), b);
    }
}

/// Whether an outcome is a failure of a step before delivery.
pub open spec fn failed_before_delivery(o: OutcomeModel) -> bool {
    o matches OutcomeModel::Failure { error } && (error is MetricsBackend || error is SecretNotFound
        || error is SecretBackend)
}

proof fn lemma_services_delivery_discipline(
    now: i64,
    webhook: Seq<char>,
    total: u64,
    names: Seq<Seq<char>>,
    idx: int,
    rows: Seq<(Seq<char>, u64)>,
    script: Seq<Event>,
)
    requires
        0 <= idx <= names.len(),
    ensures
        ({
            let r = services_model(now, webhook, total, names, idx, rows, script);
            &&& deliver_count(r.actions) <= 1
            &&& (r.outcome is Success ==> deliver_count(r.actions) == 1)
            &&& (r.outcome matches OutcomeModel::Failure { error } && error is Delivery
                ==> deliver_count(r.actions) == 1)
            &&& (failed_before_delivery(r.outcome) ==> deliver_count(r.actions) == 0)
        }),
    decreases names.len() - idx,
{
    let r = services_model(now, webhook, total, names, idx, rows, script);
    if !(0 <= idx < names.len()) {
        lemma_deliver_count_singleton(
            ActionModel::Deliver { webhook, message: composed_message(total, rows) },
        );
    } else {
        let first_action = ActionModel::GetStatistic {
            query: service_query_model(window_for(now), names[idx]),
        };
        lemma_deliver_count_singleton(first_action);
        if script.len() > 0 {
            match script[0] {
                Event::StatisticReply(res) => match res {
                    Result::Ok(resp) => {
                        let rows2 = rows.push((names[idx], scalar_model(resp)));
                        lemma_services_delivery_discipline(
                            now,
                            webhook,
                            total,
                            names,
                            idx + 1,
                            rows2,
                            script.skip(1),
                        );
                        let rec = services_model(
                            now,
                            webhook,
                            total,
                            names,
                            idx + 1,
                            rows2,
                            script.skip(1),
                        );
                        lemma_deliver_count_append(seq![first_action], rec.actions);
                    },
                    Result::Err(m) => {},
                },
                _ => {},
            }
        }
    }
}

/// On success exactly one notification goes out; when any step before
/// delivery fails -- the secret lookup, the total query, the list query
/// or any per-service query -- none does; when the transport itself
/// refuses the message, exactly the one attempt was made; and no run
/// ever issues more than one delivery.
pub proof fn lemma_single_notification(now: i64, script: Seq<Event>)
    ensures
        ({
            let r = run_model(now, script);
            &&& deliver_count(r.actions) <= 1
            &&& (r.outcome is Success ==> deliver_count(r.actions) == 1)
            &&& (r.outcome matches OutcomeModel::Failure { error } && error is Delivery
                ==> deliver_count(r.actions) == 1)
            &&& (failed_before_delivery(r.outcome) ==> deliver_count(r.actions) == 0)
        }),
{
    let fetch = ActionModel::FetchSecret { name: secret_name_text(), with_decryption: true };
    lemma_deliver_count_singleton(fetch);
    if script.len() > 0 {
        match script[0] {
            Event::SecretReply(res) => match res {
                Result::Ok(resp) => match secret_value(resp) {
                    Option::Some(url) => {
                        lemma_total_delivery_discipline(now, url, script.skip(1));
                        let rest = total_model(now, url, script.skip(1));
                        lemma_deliver_count_append(seq![fetch], rest.actions);
                    },
                    Option::None => {},
                },
                Result::Err(m) => {},
            },
            _ => {},
        }
    }
}

proof fn lemma_total_delivery_discipline(now: i64, webhook: Seq<char>, script: Seq<Event>)
    ensures
        ({
            let r = total_model(now, webhook, script);
            &&& deliver_count(r.actions) <= 1
            &&& (r.outcome is Success ==> deliver_count(r.actions) == 1)
            &&& (r.outcome matches OutcomeModel::Failure { error } && error is Delivery
                ==> deliver_count(r.actions) == 1)
            &&& (failed_before_delivery(r.outcome) ==> deliver_count(r.actions) == 0)
        }),
{
    let first_action = ActionModel::GetStatistic { query: total_query_model(window_for(now)) };
    lemma_deliver_count_singleton(first_action);
    if script.len() > 0 {
        match script[0] {
            Event::StatisticReply(res) => match res {
                Result::Ok(resp) => {
                    lemma_list_delivery_discipline(
                        now,
                        webhook,
                        scalar_model(resp),
                        script.skip(1),
                    );
                    let rest = list_model(now, webhook, scalar_model(resp), script.skip(1));
                    lemma_deliver_count_append(seq![first_action], rest.actions);
                },
                Result::Err(m) => {},
            },
            _ => {},
        }
    }
}

proof fn lemma_list_delivery_discipline(now: i64, webhook: Seq<char>, total: u64, script: Seq<Event>)
    ensures
        ({
            let r = list_model(now, webhook, total, script);
            &&& deliver_count(r.actions) <= 1
            &&& (r.outcome is Success ==> deliver_count(r.actions) == 1)
            &&& (r.outcome matches OutcomeModel::Failure { error } && error is Delivery
                ==> deliver_count(r.actions) == 1)
            &&& (failed_before_delivery(r.outcome) ==> deliver_count(r.actions) == 0)
        }),
{
    let first_action = ActionModel::ListServices { query: list_query_model() };
    lemma_deliver_count_singleton(first_action);
    if script.len() > 0 {
        match script[0] {
            Event::ListReply(res) => match res {
                Result::Ok(resp) => {
                    let names = listed_values(resp, service_dimension_text());
                    lemma_services_delivery_discipline(
                        now,
                        webhook,
                        total,
                        names,
                        0,
                        Seq::empty(),
                        script.skip(1),
                    );
                    let rest = services_model(
                        now,
                        webhook,
                        total,
                        names,
                        0,
                        Seq::empty(),
                        script.skip(1),
                    );
                    lemma_deliver_count_append(seq![first_action], rest.actions);
                },
                Result::Err(m) => {},
            },
            _ => {},
        }
    }
}

/// Identical invocation time and identical replies describe identical
/// runs: the requests issued -- the outgoing message payload among them --
/// and the outcome are a function of the two alone.
pub proof fn lemma_run_deterministic(
    now: i64,
    script: Seq<Event>,
    first_run: RunModel,
    second_run: RunModel,
)
    requires
        first_run == run_model(now, script),
        second_run == run_model(now, script),
    ensures
        first_run.actions == second_run.actions,
        first_run.outcome == second_run.outcome,
{
}

} // verus!
