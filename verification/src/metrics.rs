//! The metrics side of the pipeline: building the three kinds of queries
//! the aggregation issues, and interpreting the backend's replies.

use vstd::prelude::*;
use crate::model::{
    Dimension, DimensionFilter, ListQuery, ListResponse, MetricInfo, MetricQuery, Statistic,
    StatisticsResponse, TimeWindow,
};
use crate::timefmt::{rfc3339_of, rfc3339_utc};

verus! {

// ---------------------------------------------------------------------------
// Ghost views of queries.
// ---------------------------------------------------------------------------

/// What a scalar-statistic query says, with every string read as its
/// character sequence.
#[verifier::ext_equal]
pub ghost struct QueryModel {
    pub namespace: Seq<char>,
    pub metric_name: Seq<char>,
    pub dimensions: Seq<(Seq<char>, Seq<char>)>,
    pub statistic: Statistic,
    pub window: TimeWindow,
    pub start_text: Seq<char>,
    pub end_text: Seq<char>,
}

/// What a list-metrics query says.
#[verifier::ext_equal]
pub ghost struct ListQueryModel {
    pub namespace: Seq<char>,
    pub metric_name: Option<Seq<char>>,
    pub filters: Seq<(Seq<char>, Option<Seq<char>>)>,
}

pub open spec fn model_of_dimension(d: Dimension) -> (Seq<char>, Seq<char>) {
    (d.name@, d.value@)
}

pub open spec fn models_of_dimensions(ds: Seq<Dimension>) -> Seq<(Seq<char>, Seq<char>)> {
    ds.map_values(|d: Dimension| model_of_dimension(d))
}

pub open spec fn model_of_query(q: MetricQuery) -> QueryModel {
    QueryModel {
        namespace: q.namespace@,
        metric_name: q.metric_name@,
        dimensions: models_of_dimensions(q.dimensions@),
        statistic: q.statistic,
        window: q.window,
        start_text: q.start_text@,
        end_text: q.end_text@,
    }
}

pub open spec fn model_of_filter(f: DimensionFilter) -> (Seq<char>, Option<Seq<char>>) {
    (
        f.name@,
        match f.value {
            Option::Some(v) => Option::Some(v@),
            Option::None => Option::None,
        },
    )
}

pub open spec fn model_of_list_query(q: ListQuery) -> ListQueryModel {
    ListQueryModel {
        namespace: q.namespace@,
        metric_name: match q.metric_name {
            Option::Some(m) => Option::Some(m@),
            Option::None => Option::None,
        },
        filters: q.filters@.map_values(|f: DimensionFilter| model_of_filter(f)),
    }
}

/// The account-wide total query: maximum of `EstimatedCharges` under
/// `AWS/Billing`, narrowed to `Currency=USD`, over the given window.
pub open spec fn total_query_model(w: TimeWindow) -> QueryModel {
    QueryModel {
        namespace: "AWS/Billing"@,
        metric_name: "EstimatedCharges"@,
        dimensions: seq![("Currency"@, "USD"@)],
        statistic: Statistic::Maximum,
        window: w,
        start_text: rfc3339_of(w.start as int),
        end_text: rfc3339_of(w.end as int),
    }
}

/// The per-service query: as the total query, further narrowed to
/// `ServiceName=name`.
pub open spec fn service_query_model(w: TimeWindow, name: Seq<char>) -> QueryModel {
    QueryModel {
        namespace: "AWS/Billing"@,
        metric_name: "EstimatedCharges"@,
        dimensions: seq![("Currency"@, "USD"@), ("ServiceName"@, name)],
        statistic: Statistic::Maximum,
        window: w,
        start_text: rfc3339_of(w.start as int),
        end_text: rfc3339_of(w.end as int),
    }
}

/// The service-discovery query: metrics of `AWS/Billing` carrying a
/// `ServiceName` dimension of any value (an absent filter value is a
/// wildcard), with no metric-name restriction.
pub open spec fn list_query_model() -> ListQueryModel {
    ListQueryModel {
        namespace: "AWS/Billing"@,
        metric_name: Option::None,
        filters: seq![("ServiceName"@, Option::None)],
    }
}

// ---------------------------------------------------------------------------
// Query builders.
// ---------------------------------------------------------------------------

pub fn total_cost_query(window: TimeWindow) -> (q: MetricQuery)
    requires
        window.well_formed(),
    ensures
        model_of_query(q) == total_query_model(window),
{
    let start_text = rfc3339_utc(window.start);
    let end_text = rfc3339_utc(window.end);
    let mut dimensions: Vec<Dimension> = Vec::new();
    dimensions.push(Dimension { name: "Currency".to_owned(), value: "USD".to_owned() });
    let q = MetricQuery {
        namespace: "AWS/Billing".to_owned(),
        metric_name: "EstimatedCharges".to_owned(),
        dimensions,
        statistic: Statistic::Maximum,
        window,
        start_text,
        end_text,
    };
    proof {
        assert(models_of_dimensions(q.dimensions@) =~= total_query_model(window).dimensions);
        assert(model_of_query(q) =~= total_query_model(window));
    }
    q
}

pub fn service_cost_query(window: TimeWindow, name: String) -> (q: MetricQuery)
    requires
        window.well_formed(),
    ensures
        model_of_query(q) == service_query_model(window, name@),
{
    let start_text = rfc3339_utc(window.start);
    let end_text = rfc3339_utc(window.end);
    let mut dimensions: Vec<Dimension> = Vec::new();
    dimensions.push(Dimension { name: "Currency".to_owned(), value: "USD".to_owned() });
    dimensions.push(Dimension { name: "ServiceName".to_owned(), value: name });
    let q = MetricQuery {
        namespace: "AWS/Billing".to_owned(),
        metric_name: "EstimatedCharges".to_owned(),
        dimensions,
        statistic: Statistic::Maximum,
        window,
        start_text,
        end_text,
    };
    proof {
        assert(models_of_dimensions(q.dimensions@) =~= service_query_model(
            window,
            name@,
        ).dimensions);
        assert(model_of_query(q) =~= service_query_model(window, name@));
    }
    q
}

pub fn service_list_query() -> (q: ListQuery)
    ensures
        model_of_list_query(q) == list_query_model(),
{
    let mut filters: Vec<DimensionFilter> = Vec::new();
    filters.push(DimensionFilter { name: "ServiceName".to_owned(), value: None });
    let q = ListQuery { namespace: "AWS/Billing".to_owned(), metric_name: None, filters };
    proof {
        assert(q.filters@.map_values(|f: DimensionFilter| model_of_filter(f)) =~= list_query_model()
            .filters);
        assert(model_of_list_query(q) =~= list_query_model());
    }
    q
}

// ---------------------------------------------------------------------------
// Interpreting a scalar-statistic reply.
// ---------------------------------------------------------------------------

/// The scalar a statistics reply carries: the first datapoint's value, or
/// zero when there is no datapoint or the value is absent.  Treating
/// absence as zero is the pipeline's deliberate default.
pub open spec fn scalar_model(resp: StatisticsResponse) -> u64 {
    match resp.datapoints {
        Option::None => 0,
        Option::Some(dps) => if dps@.len() == 0 {
            0
        } else {
            match dps@[0].maximum_cents {
                Option::None => 0,
                Option::Some(c) => c,
            }
        },
    }
}

/// Reads the scalar statistic out of a reply, in cents.
pub fn scalar_statistic(resp: &StatisticsResponse) -> (cents: u64)
    ensures
        cents == scalar_model(*resp),
{
    match &resp.datapoints {
        None => 0,
        Some(dps) => {
            if dps.len() == 0 {
                0
            } else {
                match dps[0].maximum_cents {
                    None => 0,
                    Some(c) => c,
                }
            }
        },
    }
}

/// A well-formed reply holding one datapoint with a present value yields
/// exactly that value.
pub proof fn lemma_scalar_present(resp: StatisticsResponse, v: u64)
    requires
        resp.datapoints matches Some(dps) && dps@.len() == 1 && dps@[0].maximum_cents == Some(v),
    ensures
        scalar_model(resp) == v,
{
}

/// A reply with zero datapoints, or whose datapoint carries no value,
/// yields zero.
pub proof fn lemma_scalar_absent(resp: StatisticsResponse)
    requires
        resp.datapoints is None || (resp.datapoints matches Some(dps) && dps@.len() == 0) || (
        resp.datapoints matches Some(dps) && dps@.len() > 0 && dps@[0].maximum_cents is None),
    ensures
        scalar_model(resp) == 0,
{
}

// ---------------------------------------------------------------------------
// Interpreting a list-metrics reply.
// ---------------------------------------------------------------------------

/// The values contributed by one dimension: its value if its name matches
/// the key, nothing otherwise.
pub open spec fn unit_dimension(d: Dimension, key: Seq<char>) -> Seq<Seq<char>> {
    if d.name@ == key {
        seq![d.value@]
    } else {
        Seq::empty()
    }
}

/// The matching dimension values of a dimension list, in order.
pub open spec fn values_in_dimensions(ds: Seq<Dimension>, key: Seq<char>) -> Seq<Seq<char>>
    decreases ds.len(),
{
    if ds.len() == 0 {
        Seq::empty()
    } else {
        values_in_dimensions(ds.drop_last(), key) + unit_dimension(ds.last(), key)
    }
}

/// The values contributed by one listed metric.
pub open spec fn unit_metric(m: MetricInfo, key: Seq<char>) -> Seq<Seq<char>> {
    match m.dimensions {
        Option::None => Seq::empty(),
        Option::Some(ds) => values_in_dimensions(ds@, key),
    }
}

/// The matching dimension values of a metric list, metric by metric, in
/// the order received: no deduplication, no sorting.
pub open spec fn values_in_metrics(ms: Seq<MetricInfo>, key: Seq<char>) -> Seq<Seq<char>>
    decreases ms.len(),
{
    if ms.len() == 0 {
        Seq::empty()
    } else {
        values_in_metrics(ms.drop_last(), key) + unit_metric(ms.last(), key)
    }
}

/// What a whole list reply yields for a dimension key; an absent metric
/// list counts as empty.
pub open spec fn listed_values(resp: ListResponse, key: Seq<char>) -> Seq<Seq<char>> {
    match resp.metrics {
        Option::None => Seq::empty(),
        Option::Some(ms) => values_in_metrics(ms@, key),
    }
}

/// The character sequences of a string list.
pub open spec fn views_of_strings(s: Seq<String>) -> Seq<Seq<char>> {
    s.map_values(|x: String| x@)
}

proof fn lemma_values_in_dimensions_step(ds: Seq<Dimension>, key: Seq<char>, j: int)
    requires
        0 <= j < ds.len(),
    ensures
        values_in_dimensions(ds.take(j + 1), key) == values_in_dimensions(ds.take(j), key)
            + unit_dimension(ds[j], key),
{
    assert(ds.take(j + 1).drop_last() =~= ds.take(j));
    assert(ds.take(j + 1).last() == ds[j]);
}

proof fn lemma_values_in_metrics_step(ms: Seq<MetricInfo>, key: Seq<char>, i: int)
    requires
        0 <= i < ms.len(),
    ensures
        values_in_metrics(ms.take(i + 1), key) == values_in_metrics(ms.take(i), key) + unit_metric(
            ms[i],
            key,
        ),
{
    assert(ms.take(i + 1).drop_last() =~= ms.take(i));
    assert(ms.take(i + 1).last() == ms[i]);
}

/// Lists the values of the dimension named `key` in the order the reply
/// carries them: metric by metric, dimension by dimension, passed through
/// without deduplication or sorting.
pub fn dimension_values(resp: &ListResponse, key: &String) -> (names: Vec<String>)
    ensures
        views_of_strings(names@) == listed_values(*resp, key@),
{
    let mut names: Vec<String> = Vec::new();
    match &resp.metrics {
        None => {
            proof {
                assert(views_of_strings(names@) =~= listed_values(*resp, key@));
            }
        },
        Some(ms) => {
            let mut i: usize = 0;
            proof {
                assert(views_of_strings(names@) =~= values_in_metrics(ms@.take(0), key@));
            }
            while i < ms.len()
                invariant
                    i <= ms.len(),
                    views_of_strings(names@) == values_in_metrics(ms@.take(i as int), key@),
                decreases ms.len() - i,
            {
                let ghost before = names@;
                match &ms[i].dimensions {
                    None => {
                        proof {
                            lemma_values_in_metrics_step(ms@, key@, i as int);
                            assert(values_in_metrics(ms@.take(i as int), key@) + Seq::<
                                Seq<char>,
                            >::empty() =~= values_in_metrics(ms@.take(i as int), key@));
                        }
                    },
                    Some(ds) => {
                        let mut j: usize = 0;
                        proof {
                            assert(values_in_dimensions(ds@.take(0), key@) =~= Seq::<
                                Seq<char>,
                            >::empty());
                            assert(views_of_strings(names@) =~= values_in_metrics(
                                ms@.take(i as int),
                                key@,
                            ) + values_in_dimensions(ds@.take(0), key@));
                        }
                        while j < ds.len()
                            invariant
                                j <= ds.len(),
                                i < ms.len(),
                                ms@[i as int].dimensions == Some(*ds),
                                views_of_strings(names@) == values_in_metrics(
                                    ms@.take(i as int),
                                    key@,
                                ) + values_in_dimensions(ds@.take(j as int), key@),
                            decreases ds.len() - j,
                        {
                            let d = &ds[j];
                            let ghost mid = names@;
                            if d.name == *key {
                                names.push(d.value.clone());
                                proof {
                                    assert(views_of_strings(names@) =~= views_of_strings(mid).push(
                                        d.value@,
                                    ));
                                }
                            }
                            proof {
                                lemma_values_in_dimensions_step(ds@, key@, j as int);
                                assert(views_of_strings(names@) =~= values_in_metrics(
                                    ms@.take(i as int),
                                    key@,
                                ) + values_in_dimensions(ds@.take(j as int + 1), key@));
                            }
                            j += 1;
                        }
                        proof {
                            assert(ds@.take(ds@.len() as int) =~= ds@);
                            lemma_values_in_metrics_step(ms@, key@, i as int);
                        }
                    },
                }
                proof {
                    lemma_values_in_metrics_step(ms@, key@, i as int);
                    assert(views_of_strings(names@) =~= values_in_metrics(
                        ms@.take(i as int + 1),
                        key@,
                    ));
                }
                i += 1;
            }
            proof {
                assert(ms@.take(ms@.len() as int) =~= ms@);
            }
        },
    }
    names
}

/// Listing is pass-through: the values of two reply halves, taken
/// together, are the concatenation of each half's values, in order.
pub proof fn lemma_values_in_metrics_append(a: Seq<MetricInfo>, b: Seq<MetricInfo>, key: Seq<char>)
    ensures
        values_in_metrics(a + b, key) == values_in_metrics(a, key) + values_in_metrics(b, key),
    decreases b.len(),
{
    if b.len() == 0 {
        assert(a + b =~= a);
        assert(values_in_metrics(a, key) + values_in_metrics(b, key) =~= values_in_metrics(a, key));
    } else {
        lemma_values_in_metrics_append(a, b.drop_last(), key);
        assert((a + b).drop_last() =~= a + b.drop_last());
        assert((a + b).last() == b.last());
        assert(values_in_metrics(a, key) + (values_in_metrics(b.drop_last(), key) + unit_metric(
            b.last(),
            key,
        )) =~= (values_in_metrics(a, key) + values_in_metrics(b.drop_last(), key)) + unit_metric(
            b.last(),
            key,
        ));
    }
}

} // verus!
