use connpass_rs::errors::{ConnpassCliError, ValidationError};
use connpass_rs::query::builder::{push_or_create, QueryBuilder};
use connpass_rs::query::types::OrderOption;
use connpass_rs::query::Query;

#[derive(Default)]
struct Expected {
    event_id: Option<Vec<u32>>,
    keyword: Option<Vec<String>>,
    keyword_or: Option<Vec<String>>,
    ym: Option<Vec<u32>>,
    ymd: Option<Vec<u32>>,
    nickname: Option<Vec<String>>,
    owner_nickname: Option<Vec<String>>,
    series_id: Option<Vec<u32>>,
    start: Option<u32>,
    order: Option<OrderOption>,
    count: Option<u8>,
    format: Option<String>,
}

fn assert_query(query: &Query, expected: Expected) {
    assert_eq!(query.event_id(), &expected.event_id);
    assert_eq!(query.keyword(), &expected.keyword);
    assert_eq!(query.keyword_or(), &expected.keyword_or);
    assert_eq!(query.ym(), &expected.ym);
    assert_eq!(query.ymd(), &expected.ymd);
    assert_eq!(query.nickname(), &expected.nickname);
    assert_eq!(query.owner_nickname(), &expected.owner_nickname);
    assert_eq!(query.series_id(), &expected.series_id);
    assert_eq!(query.start(), expected.start);
    assert_eq!(query.order(), expected.order);
    assert_eq!(query.count(), expected.count);
    assert_eq!(query.format(), &expected.format);
}

#[test]
fn test_add_event_ids() {
    let builder = QueryBuilder::begin().event_ids(vec![1, 2, 3]);
    assert_query(
        &builder.build().unwrap(),
        Expected {
            event_id: Some(vec![1, 2, 3]),
            ..Default::default()
        },
    );
}

#[test]
fn test_add_event_id() {
    let builder = QueryBuilder::begin().event_id(1);
    assert_query(
        &builder.build().unwrap(),
        Expected {
            event_id: Some(vec![1]),
            ..Default::default()
        },
    );
}

#[test]
fn test_call_multiple_time_event_id() {
    let builder = QueryBuilder::begin().event_id(1).event_id(2).event_id(3);
    assert_query(
        &builder.build().unwrap(),
        Expected {
            event_id: Some(vec![1, 2, 3]),
            ..Default::default()
        },
    );
}

#[test]
fn test_add_keywords() {
    let builder = QueryBuilder::begin().keywords(vec![
        "Python".to_string(),
        "Rust".to_string(),
        "Swift".to_string(),
    ]);
    assert_query(
        &builder.build().unwrap(),
        Expected {
            keyword: Some(vec![
                "Python".to_string(),
                "Rust".to_string(),
                "Swift".to_string()
            ]),
            ..Default::default()
        },
    );
}

#[test]
fn test_add_keyword() {
    let builder = QueryBuilder::begin().keyword("Rust".to_string());
    assert_query(
        &builder.build().unwrap(),
        Expected {
            keyword: Some(vec!["Rust".to_string()]),
            ..Default::default()
        },
    );
}

#[test]
fn test_call_multiple_time_keyword() {
    let builder = QueryBuilder::begin()
        .keyword("Python".to_string())
        .keyword("Rust".to_string())
        .keyword("Swift".to_string());
    assert_query(
        &builder.build().unwrap(),
        Expected {
            keyword: Some(vec![
                "Python".to_string(),
                "Rust".to_string(),
                "Swift".to_string()
            ]),
            ..Default::default()
        },
    );
}

#[test]
fn test_add_keywords_or() {
    let builder = QueryBuilder::begin().keywords_or(vec![
        "Python".to_string(),
        "Rust".to_string(),
        "Swift".to_string(),
    ]);
    assert_query(
        &builder.build().unwrap(),
        Expected {
            keyword_or: Some(vec![
                "Python".to_string(),
                "Rust".to_string(),
                "Swift".to_string()
            ]),
            ..Default::default()
        },
    );
}

#[test]
fn test_add_keyword_or() {
    let builder = QueryBuilder::begin().keyword_or("Rust".to_string());
    assert_query(
        &builder.build().unwrap(),
        Expected {
            keyword_or: Some(vec!["Rust".to_string()]),
            ..Default::default()
        },
    );
}

#[test]
fn test_call_multiple_time_keyword_or() {
    let builder = QueryBuilder::begin()
        .keyword_or("Python".to_string())
        .keyword_or("Rust".to_string())
        .keyword_or("Swift".to_string());
    assert_query(
        &builder.build().unwrap(),
        Expected {
            keyword_or: Some(vec![
                "Python".to_string(),
                "Rust".to_string(),
                "Swift".to_string()
            ]),
            ..Default::default()
        },
    );
}

#[test]
fn test_add_yms() {
    let builder = QueryBuilder::begin().yms(vec![202101, 202102, 202103]);
    assert_query(
        &builder.build().unwrap(),
        Expected {
            ym: Some(vec![202101, 202102, 202103]),
            ..Default::default()
        },
    );
}

#[test]
fn test_add_ym() {
    let builder = QueryBuilder::begin().ym(202101);
    assert_query(
        &builder.build().unwrap(),
        Expected {
            ym: Some(vec![202101]),
            ..Default::default()
        },
    );
}

#[test]
fn test_call_multiple_time_ym() {
    let builder = QueryBuilder::begin().ym(202101).ym(202102).ym(202103);
    assert_query(
        &builder.build().unwrap(),
        Expected {
            ym: Some(vec![202101, 202102, 202103]),
            ..Default::default()
        },
    );
}

#[test]
fn test_add_ymds() {
    let builder = QueryBuilder::begin().ymds(vec![20210101, 20210201, 20210301]);
    assert_query(
        &builder.build().unwrap(),
        Expected {
            ymd: Some(vec![20210101, 20210201, 20210301]),
            ..Default::default()
        },
    );
}

#[test]
fn test_add_ymd() {
    let builder = QueryBuilder::begin().ymd(20210101);
    assert_query(
        &builder.build().unwrap(),
        Expected {
            ymd: Some(vec![20210101]),
            ..Default::default()
        },
    );
}

#[test]
fn test_call_multiple_time_ymd() {
    let builder = QueryBuilder::begin()
        .ymd(20210101)
        .ymd(20210201)
        .ymd(20210301);
    assert_query(
        &builder.build().unwrap(),
        Expected {
            ymd: Some(vec![20210101, 20210201, 20210301]),
            ..Default::default()
        },
    );
}

#[test]
fn test_add_nicknames() {
    let builder = QueryBuilder::begin().nicknames(vec![
        "Harry".to_string(),
        "Ron".to_string(),
        "Hermione".to_string(),
    ]);
    assert_query(
        &builder.build().unwrap(),
        Expected {
            nickname: Some(vec![
                "Harry".to_string(),
                "Ron".to_string(),
                "Hermione".to_string()
            ]),
            ..Default::default()
        },
    );
}

#[test]
fn test_add_nickname() {
    let builder = QueryBuilder::begin().nickname("Harry".to_string());
    assert_query(
        &builder.build().unwrap(),
        Expected {
            nickname: Some(vec!["Harry".to_string()]),
            ..Default::default()
        },
    );
}

#[test]
fn test_call_multiple_time_nickname() {
    let builder = QueryBuilder::begin()
        .nickname("Harry".to_string())
        .nickname("Ron".to_string())
        .nickname("Hermione".to_string());
    assert_query(
        &builder.build().unwrap(),
        Expected {
            nickname: Some(vec![
                "Harry".to_string(),
                "Ron".to_string(),
                "Hermione".to_string()
            ]),
            ..Default::default()
        },
    );
}

#[test]
fn test_add_owner_nicknames() {
    let builder = QueryBuilder::begin().owner_nicknames(vec![
        "Harry".to_string(),
        "Ron".to_string(),
        "Hermione".to_string(),
    ]);
    assert_query(
        &builder.build().unwrap(),
        Expected {
            owner_nickname: Some(vec![
                "Harry".to_string(),
                "Ron".to_string(),
                "Hermione".to_string()
            ]),
            ..Default::default()
        },
    );
}

#[test]
fn test_add_owner_nickname() {
    let builder = QueryBuilder::begin().owner_nickname("Harry".to_string());
    assert_query(
        &builder.build().unwrap(),
        Expected {
            owner_nickname: Some(vec!["Harry".to_string()]),
            ..Default::default()
        },
    );
}

#[test]
fn test_call_multiple_time_owner_nickname() {
    let builder = QueryBuilder::begin()
        .owner_nickname("Harry".to_string())
        .owner_nickname("Ron".to_string())
        .owner_nickname("Hermione".to_string());
    assert_query(
        &builder.build().unwrap(),
        Expected {
            owner_nickname: Some(vec![
                "Harry".to_string(),
                "Ron".to_string(),
                "Hermione".to_string()
            ]),
            ..Default::default()
        },
    );
}

#[test]
fn test_add_series_ids() {
    let builder = QueryBuilder::begin().series_ids(vec![1, 2, 3]);
    assert_query(
        &builder.build().unwrap(),
        Expected {
            series_id: Some(vec![1, 2, 3]),
            ..Default::default()
        },
    );
}

#[test]
fn test_add_series_id() {
    let builder = QueryBuilder::begin().series_id(1);
    assert_query(
        &builder.build().unwrap(),
        Expected {
            series_id: Some(vec![1]),
            ..Default::default()
        },
    );
}

#[test]
fn test_call_multiple_time_series_id() {
    let builder = QueryBuilder::begin().series_id(1).series_id(2).series_id(3);
    assert_query(
        &builder.build().unwrap(),
        Expected {
            series_id: Some(vec![1, 2, 3]),
            ..Default::default()
        },
    );
}

#[test]
fn test_call_start() {
    let builder = QueryBuilder::begin().start(1);
    assert_query(
        &builder.build().unwrap(),
        Expected {
            start: Some(1),
            ..Default::default()
        },
    );
}

#[test]
fn test_call_order() {
    let builder = QueryBuilder::begin().order(OrderOption::LastModifiedDate);
    assert_query(
        &builder.build().unwrap(),
        Expected {
            order: Some(OrderOption::LastModifiedDate),
            ..Default::default()
        },
    );
}

#[test]
fn test_call_count() {
    let builder = QueryBuilder::begin().count(50);
    assert_query(
        &builder.build().unwrap(),
        Expected {
            count: Some(50),
            ..Default::default()
        },
    );
}

#[test]
fn test_validation_count_range() {
    let builder = QueryBuilder::begin().count(0);
    assert!(matches!(
        builder.build(),
        Err(ConnpassCliError::Validation(ValidationError::OutOfRange {
            msg: _
        }))
    ));

    let builder = QueryBuilder::begin().count(101);
    assert!(matches!(
        builder.build(),
        Err(ConnpassCliError::Validation(ValidationError::OutOfRange {
            msg: _
        }))
    ));
}

#[test]
fn test_call_format() {
    let builder = QueryBuilder::begin().format("json".to_string());
    assert_query(
        &builder.build().unwrap(),
        Expected {
            format: Some("json".to_string()),
            ..Default::default()
        },
    );
}

#[test]
fn test_validation_format() {
    let builder = QueryBuilder::begin().format("yaml".to_string());
    assert!(matches!(
        builder.build(),
        Err(ConnpassCliError::Validation(
            ValidationError::InvalidToken { msg: _ }
        ))
    ));
}

#[test]
fn test_begin_is_empty() {
    let query = QueryBuilder::begin().build().unwrap();
    assert_query(&query, Expected::default());
    assert_eq!(query, Query::default());
}

#[test]
fn test_plural_replaces_singular() {
    let builder = QueryBuilder::begin()
        .event_id(1)
        .event_id(2)
        .event_ids(vec![7, 8])
        .keyword("Python".to_string())
        .keywords(vec!["Rust".to_string()])
        .ym(202101)
        .yms(vec![])
        .nickname("Harry".to_string())
        .nicknames(vec!["Ron".to_string(), "Hermione".to_string()]);
    assert_query(
        &builder.build().unwrap(),
        Expected {
            event_id: Some(vec![7, 8]),
            keyword: Some(vec!["Rust".to_string()]),
            ym: Some(vec![]),
            nickname: Some(vec!["Ron".to_string(), "Hermione".to_string()]),
            ..Default::default()
        },
    );
}

#[test]
fn test_singular_after_plural_appends() {
    let builder = QueryBuilder::begin()
        .series_ids(vec![1, 2])
        .series_id(3)
        .keywords_or(vec!["Python".to_string()])
        .keyword_or("Rust".to_string())
        .ymds(vec![20210101])
        .ymd(20210201)
        .owner_nicknames(vec!["Harry".to_string()])
        .owner_nickname("Ron".to_string());
    assert_query(
        &builder.build().unwrap(),
        Expected {
            series_id: Some(vec![1, 2, 3]),
            keyword_or: Some(vec!["Python".to_string(), "Rust".to_string()]),
            ymd: Some(vec![20210101, 20210201]),
            owner_nickname: Some(vec!["Harry".to_string(), "Ron".to_string()]),
            ..Default::default()
        },
    );
}

#[test]
fn test_scalar_setters_keep_the_last_value() {
    let builder = QueryBuilder::begin()
        .start(1)
        .start(11)
        .order(OrderOption::EventDate)
        .order(OrderOption::Newer)
        .count(0)
        .count(100)
        .format("yaml".to_string())
        .format("json".to_string());
    assert_query(
        &builder.build().unwrap(),
        Expected {
            start: Some(11),
            order: Some(OrderOption::Newer),
            count: Some(100),
            format: Some("json".to_string()),
            ..Default::default()
        },
    );
}

#[test]
fn test_fields_are_independent() {
    let builder = QueryBuilder::begin()
        .event_id(1)
        .keyword("Rust".to_string())
        .keyword_or("Python".to_string())
        .ym(202101)
        .ymd(20210101)
        .nickname("Harry".to_string())
        .owner_nickname("Ron".to_string())
        .series_id(9)
        .start(1)
        .order(OrderOption::LastModifiedDate)
        .count(1)
        .format("json".to_string());
    assert_query(
        &builder.build().unwrap(),
        Expected {
            event_id: Some(vec![1]),
            keyword: Some(vec!["Rust".to_string()]),
            keyword_or: Some(vec!["Python".to_string()]),
            ym: Some(vec![202101]),
            ymd: Some(vec![20210101]),
            nickname: Some(vec!["Harry".to_string()]),
            owner_nickname: Some(vec!["Ron".to_string()]),
            series_id: Some(vec![9]),
            start: Some(1),
            order: Some(OrderOption::LastModifiedDate),
            count: Some(1),
            format: Some("json".to_string()),
        },
    );
}

#[test]
fn test_count_bounds_build() {
    assert_eq!(QueryBuilder::begin().count(1).build().unwrap().count(), Some(1));
    assert_eq!(QueryBuilder::begin().count(100).build().unwrap().count(), Some(100));
}

#[test]
fn test_count_is_checked_before_format() {
    let result = QueryBuilder::begin()
        .event_id(1)
        .format("yaml".to_string())
        .count(101)
        .build();
    match result {
        Err(ConnpassCliError::Validation(ValidationError::OutOfRange { msg })) => assert_eq!(
            msg,
            "`count` should be greater than or equal to 1 or less than or equals to 100. See more details: https://connpass.com/about/api/"
        ),
        other => panic!("unexpected result: {:?}", other),
    }
}

#[test]
fn test_invalid_format_gives_no_query() {
    let result = QueryBuilder::begin()
        .event_id(1)
        .count(50)
        .format("JSON".to_string())
        .build();
    match result {
        Err(ConnpassCliError::Validation(ValidationError::InvalidToken { msg })) => assert_eq!(
            msg,
            "`format` can just accept the string \"json\". See more details: https://connpass.com/about/api/"
        ),
        other => panic!("unexpected result: {:?}", other),
    }
}

#[test]
fn test_push_or_create() {
    assert_eq!(push_or_create(None, 1), Some(vec![1]));
    assert_eq!(push_or_create(Some(vec![1, 2]), 3), Some(vec![1, 2, 3]));
    assert_eq!(push_or_create(Some(vec![]), "a"), Some(vec!["a"]));
}
