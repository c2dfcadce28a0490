use swiftide_pgvector::config::PgVector;
use swiftide_pgvector::error::PersistError;
use swiftide_pgvector::fields::{MetadataConfig, VectorConfig};
use swiftide_pgvector::persist::{find, store_one_result, store_result, BulkColumn, Node};
use swiftide_pgvector::transaction::{Action, Outcome, Transaction};

type TestNode = Node<f32, String>;

fn test_store(dimension: i32) -> PgVector {
    PgVector::builder()
        .vector_size(dimension)
        .with_vector(VectorConfig::new("Combined"))
        .with_metadata(MetadataConfig::new("filter"))
        .table_name("swiftide_pgvector_test".to_string())
        .build()
        .unwrap()
}

fn node(id: u128, chunk: &str, filter: &str, vector: Vec<f32>) -> TestNode {
    Node {
        id,
        chunk: chunk.to_string(),
        vectors: vec![("Combined".to_string(), vector)],
        metadata: vec![("filter".to_string(), filter.to_string())],
    }
}

#[test]
fn upsert_statement() {
    assert_eq!(
        test_store(384).generate_unnest_upsert_sql(),
        "INSERT INTO swiftide_pgvector_test (id, chunk, vector_combined, meta_filter) \
         SELECT t.id, t.chunk, t.vector_combined, t.meta_filter \
         FROM UNNEST($1::UUID[], $2::TEXT[], $3::VECTOR[], $4::JSONB[]) \
         AS t(id, chunk, vector_combined, meta_filter) \
         ON CONFLICT (id) DO UPDATE SET chunk = EXCLUDED.chunk, \
         vector_combined = EXCLUDED.vector_combined, meta_filter = EXCLUDED.meta_filter"
    );
}

#[test]
fn upsert_statement_of_the_default_store() {
    let store = PgVector::builder().build().unwrap();
    assert_eq!(
        store.generate_unnest_upsert_sql(),
        "INSERT INTO swiftide_pgv_store (id, chunk) SELECT t.id, t.chunk \
         FROM UNNEST($1::UUID[], $2::TEXT[]) AS t(id, chunk) \
         ON CONFLICT (id) DO UPDATE SET chunk = EXCLUDED.chunk"
    );
}

#[test]
fn upsert_numbers_parameters_beyond_nine() {
    let mut builder = PgVector::builder();
    for key in ["a", "b", "c", "d", "e", "f", "g", "h", "i"] {
        builder.with_metadata(MetadataConfig::new(key));
    }
    let sql = builder.build().unwrap().generate_unnest_upsert_sql();
    assert!(sql.contains("$9::JSONB[], $10::JSONB[], $11::JSONB[]) AS t("));
    assert!(!sql.contains("$12"));
}

#[test]
fn upsert_overwrites_every_column_but_the_identifier() {
    let sql = test_store(384).generate_unnest_upsert_sql();
    let updates = sql.split(" DO UPDATE SET ").nth(1).unwrap();
    let updates: Vec<&str> = updates.split(", ").collect();
    assert_eq!(
        updates,
        vec![
            "chunk = EXCLUDED.chunk",
            "vector_combined = EXCLUDED.vector_combined",
            "meta_filter = EXCLUDED.meta_filter",
        ]
    );
    assert!(sql.contains(" ON CONFLICT (id) DO UPDATE SET "));
}

#[test]
fn find_takes_the_first_entry() {
    let entries = vec![
        ("a".to_string(), 1),
        ("b".to_string(), 2),
        ("a".to_string(), 3),
    ];
    assert_eq!(find(&entries, &"a".to_string()), Some(&1));
    assert_eq!(find(&entries, &"b".to_string()), Some(&2));
    assert_eq!(find(&entries, &"c".to_string()), None);
    assert_eq!(find(&entries, &"A".to_string()), None);
}

#[test]
fn bulk_data_has_one_column_for_each_field() {
    let store = test_store(2);
    let mut bare = node(3, "third", "", vec![]);
    bare.vectors.clear();
    bare.metadata.clear();
    let nodes = vec![
        node(1, "first", "true", vec![1.0, 2.0]),
        node(2, "second", "false", vec![3.0, 4.0]),
        bare,
    ];
    let columns = store.prepare_bulk_data(&nodes).unwrap();
    assert_eq!(columns.len(), 4);
    match &columns[0] {
        BulkColumn::Ids(ids) => assert_eq!(ids, &vec![1, 2, 3]),
        other => panic!("{other:?}"),
    }
    match &columns[1] {
        BulkColumn::Chunks(chunks) => assert_eq!(chunks, &vec!["first", "second", "third"]),
        other => panic!("{other:?}"),
    }
    match &columns[2] {
        BulkColumn::Vectors(vectors) => assert_eq!(
            vectors,
            &vec![Some(&vec![1.0, 2.0]), Some(&vec![3.0, 4.0]), None]
        ),
        other => panic!("{other:?}"),
    }
    match &columns[3] {
        BulkColumn::Metadata { key, values } => {
            assert_eq!(*key, "filter");
            assert_eq!(
                values,
                &vec![Some(&"true".to_string()), Some(&"false".to_string()), None]
            );
        }
        other => panic!("{other:?}"),
    }
}

#[test]
fn bulk_data_of_an_empty_batch() {
    let store = test_store(2);
    let nodes: Vec<TestNode> = vec![];
    let columns = store.prepare_bulk_data(&nodes).unwrap();
    assert_eq!(columns.len(), 4);
    match &columns[0] {
        BulkColumn::Ids(ids) => assert!(ids.is_empty()),
        other => panic!("{other:?}"),
    }
}

#[test]
fn vectors_are_found_by_their_logical_name() {
    let store = test_store(1);
    let mut stranger = node(1, "first", "true", vec![1.0, 2.0, 3.0]);
    stranger.vectors[0].0 = "combined".to_string();
    let nodes = vec![stranger];
    let columns = store.prepare_bulk_data(&nodes).unwrap();
    match &columns[2] {
        BulkColumn::Vectors(vectors) => assert_eq!(vectors, &vec![None]),
        other => panic!("{other:?}"),
    }
}

#[test]
fn dimension_mismatch_fails_the_batch() {
    let store = test_store(3);
    let nodes = vec![
        node(1, "first", "true", vec![1.0, 2.0, 3.0]),
        node(2, "second", "true", vec![1.0, 2.0]),
    ];
    assert_eq!(
        store.prepare_bulk_data(&nodes).unwrap_err(),
        PersistError::DimensionMismatch
    );
    assert_eq!(
        store.store_request(&nodes).unwrap_err(),
        PersistError::DimensionMismatch
    );
    let longer = vec![node(1, "first", "true", vec![1.0, 2.0, 3.0, 4.0])];
    assert_eq!(
        store.store_request(&longer).unwrap_err(),
        PersistError::DimensionMismatch
    );
    let empty = vec![node(1, "first", "true", vec![])];
    assert_eq!(
        store.store_request(&empty).unwrap_err(),
        PersistError::DimensionMismatch
    );
    let fitting = vec![node(1, "first", "true", vec![1.0, 2.0, 3.0])];
    assert!(store.store_request(&fitting).is_ok());
}

#[test]
fn field_dimension_is_checked_before_the_default() {
    let store = PgVector::builder()
        .vector_size(3)
        .with_vector(VectorConfig::with_dimension("Combined", 2))
        .build()
        .unwrap();
    let two = vec![node(1, "first", "true", vec![1.0, 2.0])];
    assert!(store.store_request(&two).is_ok());
    let three = vec![node(1, "first", "true", vec![1.0, 2.0, 3.0])];
    assert_eq!(
        store.store_request(&three).unwrap_err(),
        PersistError::DimensionMismatch
    );
}

#[test]
fn store_request_is_one_statement_for_the_whole_batch() {
    let store = test_store(1);
    let nodes: Vec<TestNode> = (0..5)
        .map(|i| node(i, "chunk", "true", vec![1.0]))
        .collect();
    let request = store.store_request(&nodes).unwrap();
    assert_eq!(request.sql, store.generate_unnest_upsert_sql());
    assert_eq!(request.columns.len(), 4);
    match &request.columns[0] {
        BulkColumn::Ids(ids) => assert_eq!(ids, &vec![0, 1, 2, 3, 4]),
        other => panic!("{other:?}"),
    }
}

#[test]
fn stored_nodes_come_back_in_input_order() {
    let nodes = vec![
        node(2, "second", "true", vec![1.0]),
        node(1, "first", "true", vec![1.0]),
    ];
    assert_eq!(store_result(nodes.clone(), Outcome::Committed), Ok(nodes));
    let single = node(9, "only", "true", vec![1.0]);
    assert_eq!(store_one_result(single.clone(), Outcome::Committed), Ok(single));
}

#[test]
fn failed_write_stores_no_node() {
    let nodes: Vec<TestNode> = (0..5)
        .map(|i| node(i, "chunk", "true", vec![1.0]))
        .collect();
    for outcome in [
        Outcome::BeginFailed,
        Outcome::StatementFailed(0),
        Outcome::CommitFailed,
    ] {
        assert_eq!(
            store_result(nodes.clone(), outcome),
            Err(PersistError::WriteFailed)
        );
        assert_eq!(
            store_one_result(nodes[0].clone(), outcome),
            Err(PersistError::WriteFailed)
        );
    }
}

#[test]
fn failing_write_is_rolled_back_and_reported() {
    let store = test_store(1);
    let nodes: Vec<TestNode> = (0..5)
        .map(|i| node(i, "chunk", "true", vec![1.0]))
        .collect();
    let request = store.store_request(&nodes).unwrap();
    assert!(!request.sql.is_empty());
    let mut transaction = Transaction::new(1);
    assert_eq!(transaction.action(), Action::Begin);
    transaction.report(true);
    assert_eq!(transaction.action(), Action::Execute(0));
    transaction.report(false);
    assert_eq!(transaction.action(), Action::Rollback);
    transaction.report(true);
    let outcome = transaction.outcome().unwrap();
    assert_eq!(outcome, Outcome::StatementFailed(0));
    assert_eq!(store_result(nodes, outcome), Err(PersistError::WriteFailed));
}
