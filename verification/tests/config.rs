use swiftide_pgvector::config::{validate, PgVector, PgVectorBuilder};
use swiftide_pgvector::error::{ConfigError, ConnectionError, ConnectionState};
use swiftide_pgvector::fields::{FieldConfig, MetadataConfig, VectorConfig};

fn test_builder() -> PgVectorBuilder {
    let mut builder = PgVector::builder();
    builder
        .vector_size(384)
        .with_vector(VectorConfig::new("Combined"))
        .with_metadata(MetadataConfig::new("filter"))
        .table_name("swiftide_pgvector_test".to_string());
    builder
}

#[test]
fn default_fields_are_id_and_chunk() {
    assert_eq!(
        PgVectorBuilder::default_fields(),
        vec![FieldConfig::ID, FieldConfig::Chunk]
    );
}

#[test]
fn builder_defaults() {
    let store = PgVector::builder().build().unwrap();
    assert_eq!(store.table_name(), "swiftide_pgv_store");
    assert_eq!(store.batch_size(), Some(50));
    assert_eq!(store.vector_size(), None);
    assert_eq!(store.fields(), &vec![FieldConfig::ID, FieldConfig::Chunk]);
}

#[test]
fn builder_collects_fields_in_order() {
    let store = test_builder().build().unwrap();
    assert_eq!(store.table_name(), "swiftide_pgvector_test");
    assert_eq!(store.vector_size(), Some(384));
    assert_eq!(
        store.fields(),
        &vec![
            FieldConfig::ID,
            FieldConfig::Chunk,
            FieldConfig::Vector(VectorConfig::new("Combined")),
            FieldConfig::Metadata(MetadataConfig::new("filter")),
        ]
    );
    assert_eq!(store.dimension(2), Some(384));
    assert_eq!(store.dimension(0), None);
    assert_eq!(store.dimension(3), None);
    assert_eq!(store.dimension(4), None);
}

#[test]
fn builder_setters_replace() {
    let mut builder = PgVector::builder();
    builder.batch_size(7).batch_size(9).vector_size(3).vector_size(5);
    builder.fields(vec![FieldConfig::Chunk, FieldConfig::ID]);
    builder.with_vector(VectorConfig::with_dimension("title", 12));
    let store = builder.build().unwrap();
    assert_eq!(store.batch_size(), Some(9));
    assert_eq!(store.vector_size(), Some(5));
    assert_eq!(store.fields().len(), 3);
    assert_eq!(store.dimension(2), Some(12));
}

#[test]
fn build_leaves_the_builder_usable() {
    let builder = test_builder();
    let first = builder.build().unwrap();
    let second = builder.build().unwrap();
    assert_eq!(first.fields(), second.fields());
    assert_eq!(first.table_name(), second.table_name());
}

#[test]
fn column_names() {
    assert_eq!(FieldConfig::ID.field_name(), "id");
    assert_eq!(FieldConfig::Chunk.field_name(), "chunk");
    assert_eq!(VectorConfig::new("Combined").field(), "vector_combined");
    assert_eq!(VectorConfig::new("Metadata: Title").field(), "vector_metadata__title");
    assert_eq!(MetadataConfig::new("filter").field(), "meta_filter");
    assert_eq!(MetadataConfig::new("Other Key-9").field(), "meta_other_key_9");
    assert_eq!(MetadataConfig::new("").field(), "meta_");
    assert_eq!(MetadataConfig::new("é").field(), "meta__");
}

#[test]
fn invalid_table_name_is_rejected() {
    for name in ["", "1table", "my table", "drop;--", "tab\"le", "täble"] {
        let mut builder = test_builder();
        builder.table_name(name.to_string());
        assert_eq!(builder.build().unwrap_err(), ConfigError::InvalidTableName);
    }
    let mut builder = test_builder();
    builder.table_name("a".repeat(64));
    assert_eq!(builder.build().unwrap_err(), ConfigError::InvalidTableName);
    builder.table_name("a".repeat(63));
    assert!(builder.build().is_ok());
    builder.table_name("_Table_9".to_string());
    assert!(builder.build().is_ok());
}

#[test]
fn zero_batch_size_is_rejected() {
    let mut builder = test_builder();
    builder.batch_size(0);
    assert_eq!(builder.build().unwrap_err(), ConfigError::InvalidBatchSize);
    builder.batch_size(1);
    assert_eq!(builder.build().unwrap().batch_size(), Some(1));
}

#[test]
fn identity_must_be_declared_once() {
    let mut builder = PgVector::builder();
    builder.fields(vec![FieldConfig::Chunk]);
    assert_eq!(builder.build().unwrap_err(), ConfigError::MissingIdentity);
    builder.fields(vec![FieldConfig::ID, FieldConfig::Chunk, FieldConfig::ID]);
    assert_eq!(builder.build().unwrap_err(), ConfigError::DuplicateIdentity);
    builder.fields(vec![]);
    assert_eq!(builder.build().unwrap_err(), ConfigError::MissingIdentity);
}

#[test]
fn content_must_be_declared_once() {
    let mut builder = PgVector::builder();
    builder.fields(vec![FieldConfig::ID]);
    assert_eq!(builder.build().unwrap_err(), ConfigError::MissingContent);
    builder.fields(vec![FieldConfig::Chunk, FieldConfig::ID, FieldConfig::Chunk]);
    assert_eq!(builder.build().unwrap_err(), ConfigError::DuplicateContent);
}

#[test]
fn vector_needs_a_dimension() {
    let mut builder = PgVector::builder();
    builder.with_vector(VectorConfig::new("Combined"));
    assert_eq!(builder.build().unwrap_err(), ConfigError::MissingDimension);
    builder.vector_size(0);
    assert_eq!(builder.build().unwrap_err(), ConfigError::InvalidDimension);
    builder.vector_size(-4);
    assert_eq!(builder.build().unwrap_err(), ConfigError::InvalidDimension);
    builder.vector_size(1);
    assert!(builder.build().is_ok());

    let mut own = PgVector::builder();
    own.with_vector(VectorConfig::with_dimension("Combined", 16));
    assert_eq!(own.build().unwrap().dimension(2), Some(16));
    let mut bad = PgVector::builder();
    bad.vector_size(8).with_vector(VectorConfig::with_dimension("Combined", 0));
    assert_eq!(bad.build().unwrap_err(), ConfigError::InvalidDimension);
}

#[test]
fn long_column_is_rejected() {
    let mut builder = PgVector::builder();
    builder.with_metadata(MetadataConfig::new(&"k".repeat(59)));
    assert_eq!(builder.build().unwrap_err(), ConfigError::InvalidColumnName);
    let mut fits = PgVector::builder();
    fits.with_metadata(MetadataConfig::new(&"k".repeat(58)));
    assert!(fits.build().is_ok());
}

#[test]
fn duplicate_columns_are_rejected() {
    let mut builder = PgVector::builder();
    builder
        .with_metadata(MetadataConfig::new("filter"))
        .with_metadata(MetadataConfig::new("FILTER"));
    assert_eq!(builder.build().unwrap_err(), ConfigError::DuplicateColumn);

    let mut vectors = PgVector::builder();
    vectors
        .vector_size(4)
        .with_vector(VectorConfig::new("a b"))
        .with_vector(VectorConfig::new("a-b"));
    assert_eq!(vectors.build().unwrap_err(), ConfigError::DuplicateColumn);

    let mut apart = PgVector::builder();
    apart
        .vector_size(4)
        .with_vector(VectorConfig::new("title"))
        .with_metadata(MetadataConfig::new("title"))
        .with_metadata(MetadataConfig::new("id"))
        .with_metadata(MetadataConfig::new("chunk"));
    assert!(apart.build().is_ok());
}

#[test]
fn first_error_in_order_is_reported() {
    let fields = vec![FieldConfig::Vector(VectorConfig::new("x"))];
    assert_eq!(
        validate("bad name", None, 0, &fields),
        Some(ConfigError::InvalidTableName)
    );
    assert_eq!(validate("good", None, 0, &fields), Some(ConfigError::InvalidBatchSize));
    assert_eq!(validate("good", None, 1, &fields), Some(ConfigError::MissingIdentity));
    let fields = vec![
        FieldConfig::ID,
        FieldConfig::ID,
        FieldConfig::Vector(VectorConfig::new("x")),
    ];
    assert_eq!(validate("good", None, 1, &fields), Some(ConfigError::DuplicateIdentity));
    let fields = vec![
        FieldConfig::ID,
        FieldConfig::Chunk,
        FieldConfig::Vector(VectorConfig::with_dimension("x", 0)),
        FieldConfig::Vector(VectorConfig::new("x")),
    ];
    assert_eq!(validate("good", None, 1, &fields), Some(ConfigError::MissingDimension));
    assert_eq!(validate("good", Some(3), 1, &fields), Some(ConfigError::InvalidDimension));
    let fields = vec![
        FieldConfig::ID,
        FieldConfig::Chunk,
        FieldConfig::Vector(VectorConfig::with_dimension("x", 2)),
        FieldConfig::Vector(VectorConfig::new("x")),
    ];
    assert_eq!(validate("good", Some(3), 1, &fields), Some(ConfigError::DuplicateColumn));
    assert_eq!(validate("good", Some(3), 1, &fields[..3].to_vec()), None);
}

#[test]
fn only_a_connected_pool_gives_a_handle() {
    assert_eq!(ConnectionState::Connected.handle(), Ok(()));
    assert_eq!(
        ConnectionState::Uninitialized.handle(),
        Err(ConnectionError::PoolNotInitialized)
    );
    assert_eq!(
        ConnectionState::Failed.handle(),
        Err(ConnectionError::PoolNotInitialized)
    );
}
