//! Rendering tests: every step shape, the condition tree, and the quoting and
//! escaping rules, checked against fixed expected texts for both dialects.

use prql_translator::aggregate::{AggregateStep, Aggregation, AggregationFn};
use prql_translator::domain::DomainStep;
use prql_translator::filter::{
    ComparisonCondition, ComparisonOperator, Condition, FilterStep, InclusionCondition,
    InclusionOperator, MatchesCondition, MatchesOperator, NullabilityCondition,
    NullabilityOperator,
};
use prql_translator::pipeline::{Pipeline, PipelineStep};
use prql_translator::translate::{BuildError, Column, Dialect, ToPrql, ToSString, Value};

fn col(name: &str) -> Column {
    Column(name.to_string())
}

fn city_first() -> Aggregation {
    Aggregation::new(vec![col("City")], vec![col("City")], AggregationFn::First).unwrap()
}

fn price_qty_sum() -> Aggregation {
    Aggregation::new(
        vec![col("Price"), col("Quantity")],
        vec![col("Price_sum"), col("Somme des quantités")],
        AggregationFn::Sum,
    )
    .unwrap()
}

#[test]
fn domain_no_space() {
    let step = DomainStep { domain: "albums".to_string(), table: true };
    assert_eq!(step.to_prql(&Dialect::Postgres), "from `albums`");
    assert_eq!(step.to_prql(&Dialect::BigQuery), "from `albums`");
}

#[test]
fn domain_with_space() {
    let step = DomainStep { domain: "alb ums".to_string(), table: true };
    assert_eq!(step.to_prql(&Dialect::Postgres), "from `alb ums`");
    assert_eq!(step.to_prql(&Dialect::BigQuery), "from `alb ums`");
}

#[test]
fn domain_raw_query() {
    let step = DomainStep { domain: "SELECT * FROM sales".to_string(), table: false };
    assert_eq!(step.to_prql(&Dialect::Postgres), r#"from s"SELECT * FROM sales""#);
    assert_eq!(step.to_prql(&Dialect::BigQuery), r#"from s"SELECT * FROM sales""#);
}

#[test]
fn no_group_no_keep_columns() {
    let step = AggregateStep {
        on: vec![],
        aggregations: vec![price_qty_sum()],
        keep_original_granularity: false,
    };
    for dialect in [Dialect::Postgres, Dialect::BigQuery] {
        assert_eq!(
            step.to_prql(&dialect),
            "aggregate { `Price_sum` = sum `Price`, `Somme des quantités` = sum `Quantity` }"
        );
    }
}

#[test]
fn no_group_with_keep_columns() {
    let step = AggregateStep {
        on: vec![],
        aggregations: vec![price_qty_sum()],
        keep_original_granularity: true,
    };
    for dialect in [Dialect::Postgres, Dialect::BigQuery] {
        assert_eq!(
            step.to_prql(&dialect),
            "derive { `Price_sum` = sum `Price`, `Somme des quantités` = sum `Quantity` }"
        );
    }
}

#[test]
fn with_group_no_keep_columns() {
    let step = AggregateStep {
        on: vec![col("col"), col("other col")],
        aggregations: vec![price_qty_sum()],
        keep_original_granularity: false,
    };
    for dialect in [Dialect::Postgres, Dialect::BigQuery] {
        assert_eq!(
            step.to_prql(&dialect),
            "group { `col`, `other col` } ( aggregate { `Price_sum` = sum `Price`, `Somme des quantités` = sum `Quantity` } )"
        );
    }
}

#[test]
fn with_group_with_keep_columns() {
    let step = AggregateStep {
        on: vec![col("col"), col("other col")],
        aggregations: vec![price_qty_sum()],
        keep_original_granularity: true,
    };
    for dialect in [Dialect::Postgres, Dialect::BigQuery] {
        assert_eq!(
            step.to_prql(&dialect),
            "group { `col`, `other col` } ( window rows:.. ( derive { `Price_sum` = sum `Price`, `Somme des quantités` = sum `Quantity` } ) )"
        );
    }
}

#[test]
fn aggregate_matrix_city_first() {
    // The four (grouping x keep) shapes on the two-aggregation input whose
    // first/last functions fall back to min/max.
    let aggs = || vec![city_first(), price_qty_sum()];
    let list = "`City` = min `City`, `Price_sum` = sum `Price`, `Somme des quantités` = sum `Quantity`";
    let no_group_no_keep = AggregateStep {
        on: vec![],
        aggregations: aggs(),
        keep_original_granularity: false,
    };
    assert_eq!(no_group_no_keep.to_prql(&Dialect::Postgres), format!("aggregate {{ {} }}", list));
    let no_group_keep = AggregateStep {
        on: vec![],
        aggregations: aggs(),
        keep_original_granularity: true,
    };
    assert_eq!(no_group_keep.to_prql(&Dialect::Postgres), format!("derive {{ {} }}", list));
    let group_no_keep = AggregateStep {
        on: vec![col("col"), col("other col")],
        aggregations: aggs(),
        keep_original_granularity: false,
    };
    assert_eq!(
        group_no_keep.to_prql(&Dialect::Postgres),
        format!("group {{ `col`, `other col` }} ( aggregate {{ {} }} )", list)
    );
    let group_keep = AggregateStep {
        on: vec![col("col"), col("other col")],
        aggregations: aggs(),
        keep_original_granularity: true,
    };
    assert_eq!(
        group_keep.to_prql(&Dialect::Postgres),
        format!("group {{ `col`, `other col` }} ( window rows:.. ( derive {{ {} }} ) )", list)
    );
}

#[test]
fn aggregation_functions_render_to_their_tokens() {
    let cases = [
        (AggregationFn::Min, "min"),
        (AggregationFn::Max, "max"),
        (AggregationFn::Count, "count"),
        (AggregationFn::Avg, "avg"),
        (AggregationFn::Sum, "sum"),
        (AggregationFn::CountDistinct, "count_distinct"),
        (AggregationFn::First, "min"),
        (AggregationFn::Last, "max"),
    ];
    for (function, token) in cases {
        assert_eq!(function.to_prql(&Dialect::Postgres), token);
    }
}

#[test]
fn mismatched_aggregation_is_a_construction_error() {
    let r = Aggregation::new(
        vec![col("Price"), col("Quantity")],
        vec![col("Price_sum")],
        AggregationFn::Sum,
    );
    assert_eq!(r.unwrap_err(), BuildError::MismatchedAggregation);
}

#[test]
fn filter_basic() {
    let step = FilterStep {
        condition: Condition::Comparison(ComparisonCondition {
            column: col("City"),
            operator: ComparisonOperator::Eq,
            value: Value::Str("Paris".to_string()),
        }),
    };
    for dialect in [Dialect::Postgres, Dialect::BigQuery] {
        assert_eq!(step.to_prql(&dialect), r#"filter `City` == "Paris""#);
    }
}

#[test]
fn filter_or() {
    let step = FilterStep {
        condition: Condition::disjunction(vec![
            Condition::Comparison(ComparisonCondition {
                column: col("my value"),
                operator: ComparisonOperator::Lt,
                value: Value::Num("42".to_string()),
            }),
            Condition::Comparison(ComparisonCondition {
                column: col("my other value"),
                operator: ComparisonOperator::Gte,
                value: Value::Num("53".to_string()),
            }),
        ])
        .unwrap(),
    };
    for dialect in [Dialect::Postgres, Dialect::BigQuery] {
        assert_eq!(
            step.to_prql(&dialect),
            r#"filter (`my value` < 42 || `my other value` >= 53)"#
        );
    }
}

#[test]
fn filter_and() {
    let step = FilterStep {
        condition: Condition::conjunction(vec![
            Condition::Comparison(ComparisonCondition {
                column: col("my value"),
                operator: ComparisonOperator::Lt,
                value: Value::Num("42".to_string()),
            }),
            Condition::Comparison(ComparisonCondition {
                column: col("my other value"),
                operator: ComparisonOperator::Gte,
                value: Value::Num("53".to_string()),
            }),
        ])
        .unwrap(),
    };
    for dialect in [Dialect::Postgres, Dialect::BigQuery] {
        assert_eq!(
            step.to_prql(&dialect),
            r#"filter `my value` < 42 && `my other value` >= 53"#
        );
    }
}

fn complex_condition() -> Condition {
    Condition::conjunction(vec![
        Condition::Nullability(NullabilityCondition {
            column: col("val1"),
            operator: NullabilityOperator::NotNull,
        }),
        Condition::Nullability(NullabilityCondition {
            column: col("val2"),
            operator: NullabilityOperator::IsNull,
        }),
        Condition::disjunction(vec![
            Condition::Inclusion(InclusionCondition {
                column: col("color"),
                operator: InclusionOperator::In,
                value: vec![
                    Value::Str("blue".to_string()),
                    Value::Str("red".to_string()),
                ],
            }),
            Condition::Inclusion(InclusionCondition {
                column: col("ma destination"),
                operator: InclusionOperator::Nin,
                value: vec![
                    Value::Str("l'aéroport".to_string()),
                    Value::Str("la gare".to_string()),
                ],
            }),
            Condition::Inclusion(InclusionCondition {
                column: col("my value"),
                operator: InclusionOperator::In,
                value: vec![Value::Num("1".to_string()), Value::Null],
            }),
            Condition::Comparison(ComparisonCondition {
                column: col("color3"),
                operator: ComparisonOperator::Eq,
                value: Value::Str("green".to_string()),
            }),
        ])
        .unwrap(),
    ])
    .unwrap()
}

#[test]
fn filter_complex() {
    let step = FilterStep { condition: complex_condition() };
    assert_eq!(
        step.to_prql(&Dialect::Postgres),
        r#"filter `val1` != null && `val2` == null && (s"\"color\" IN ('blue', 'red')" || s"\"ma destination\" NOT IN ('l''aéroport', 'la gare')" || s"\"my value\" IN (1, null)" || `color3` == "green")"#
    );
    assert_eq!(
        step.to_prql(&Dialect::BigQuery),
        r#"filter `val1` != null && `val2` == null && (s"`color` IN ('blue', 'red')" || s"`ma destination` NOT IN ('l\\'aéroport', 'la gare')" || s"`my value` IN (1, null)" || `color3` == "green")"#
    );
}

#[test]
fn filter_complex_2() {
    let step = FilterStep {
        condition: Condition::conjunction(vec![
            Condition::Matches(MatchesCondition {
                column: col("val1"),
                operator: MatchesOperator::Matches,
                value: "pika".to_string(),
            }),
            Condition::Matches(MatchesCondition {
                column: col("val2"),
                operator: MatchesOperator::NotMatches,
                value: "chu".to_string(),
            }),
        ])
        .unwrap(),
    };
    assert_eq!(
        step.to_prql(&Dialect::Postgres),
        r#"filter s"\"val1\" SIMILAR TO 'pika'" && s"\"val2\" NOT SIMILAR TO 'chu'""#
    );
    assert_eq!(
        step.to_prql(&Dialect::BigQuery),
        r#"filter s"REGEXP_CONTAINS(`val1`,'pika')" && s"NOT REGEXP_CONTAINS(`val2`,'chu')""#
    );
}

#[test]
fn inclusion_dialect_quoting() {
    let condition = InclusionCondition {
        column: col("color"),
        operator: InclusionOperator::In,
        value: vec![
            Value::Str("blue".to_string()),
            Value::Str("red".to_string()),
        ],
    };
    assert_eq!(
        condition.to_prql(&Dialect::Postgres),
        r#"s"\"color\" IN ('blue', 'red')""#
    );
    assert_eq!(condition.to_prql(&Dialect::BigQuery), r#"s"`color` IN ('blue', 'red')""#);
}

#[test]
fn inclusion_escapes_quotes_per_dialect() {
    let condition = InclusionCondition {
        column: col("dest"),
        operator: InclusionOperator::Nin,
        value: vec![Value::Str("l'aéroport".to_string())],
    };
    assert_eq!(
        condition.to_prql(&Dialect::Postgres),
        r#"s"\"dest\" NOT IN ('l''aéroport')""#
    );
    assert_eq!(
        condition.to_prql(&Dialect::BigQuery),
        r#"s"`dest` NOT IN ('l\\'aéroport')""#
    );
}

#[test]
fn empty_composite_is_a_construction_error() {
    assert_eq!(Condition::conjunction(vec![]).unwrap_err(), BuildError::EmptyComposite);
    assert_eq!(Condition::disjunction(vec![]).unwrap_err(), BuildError::EmptyComposite);
    let non_empty = Condition::conjunction(vec![Condition::Nullability(NullabilityCondition {
        column: col("a"),
        operator: NullabilityOperator::IsNull,
    })]);
    assert!(non_empty.is_ok());
}

#[test]
fn literal_escape_round_trip() {
    // Escaping then un-escaping by the dialect's rule recovers the original.
    let original = "l'aé''roport\\'";
    let pg = Value::Str(original.to_string()).to_s_string(&Dialect::Postgres);
    let pg_body = &pg[1..pg.len() - 1];
    assert_eq!(pg_body.replace("''", "'"), original);
    let bq = Value::Str(original.to_string()).to_s_string(&Dialect::BigQuery);
    let bq_body = &bq[1..bq.len() - 1];
    assert_eq!(bq_body.replace("\\\\'", "'"), original);
}

#[test]
fn quote_identifier_single_pair() {
    // A name with internal whitespace gets exactly one pair of delimiters.
    let quoted = col("alb ums").to_prql(&Dialect::Postgres);
    assert_eq!(quoted, "`alb ums`");
    assert_eq!(quoted.matches('`').count(), 2);
}

#[test]
fn comparison_value_forms() {
    for (value, text) in [
        (Value::Num("42".to_string()), "42"),
        (Value::Bool(true), "true"),
        (Value::Bool(false), "false"),
        (Value::Null, "null"),
        (Value::Str("it \"is\"\n".to_string()), r#""it \"is\"\n""#),
    ] {
        let condition = ComparisonCondition {
            column: col("c"),
            operator: ComparisonOperator::Ne,
            value,
        };
        assert_eq!(
            condition.to_prql(&Dialect::BigQuery),
            format!("`c` != {}", text)
        );
    }
}

#[test]
fn comparison_escapes_control_characters() {
    let condition = ComparisonCondition {
        column: col("c"),
        operator: ComparisonOperator::Eq,
        value: Value::Str("a\u{1f}b".to_string()),
    };
    assert_eq!(
        condition.to_prql(&Dialect::Postgres),
        r#"`c` == "a\u001fb""#
    );
}

#[test]
fn decimal_number_text_passes_through() {
    let condition = ComparisonCondition {
        column: col("price"),
        operator: ComparisonOperator::Gt,
        value: Value::Num("4.25".to_string()),
    };
    assert_eq!(condition.to_prql(&Dialect::Postgres), "`price` > 4.25");
}

#[test]
fn pipeline_joins_steps_in_order() {
    let pipeline = Pipeline(vec![
        PipelineStep::Domain(DomainStep { domain: "al bums".to_string(), table: true }),
        PipelineStep::Filter(FilterStep {
            condition: Condition::Comparison(ComparisonCondition {
                column: col("City"),
                operator: ComparisonOperator::Eq,
                value: Value::Str("Paris".to_string()),
            }),
        }),
        PipelineStep::Aggregate(AggregateStep {
            on: vec![],
            aggregations: vec![price_qty_sum()],
            keep_original_granularity: false,
        }),
    ]);
    assert_eq!(
        pipeline.to_prql(&Dialect::Postgres),
        r#"from `al bums` | filter `City` == "Paris" | aggregate { `Price_sum` = sum `Price`, `Somme des quantités` = sum `Quantity` }"#
    );
}

#[test]
fn empty_pipeline_renders_to_nothing() {
    let pipeline = Pipeline(vec![]);
    assert_eq!(pipeline.to_prql(&Dialect::BigQuery), "");
}
