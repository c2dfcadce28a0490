use swiftide_pgvector::config::PgVector;
use swiftide_pgvector::error::QueryError;
use swiftide_pgvector::fields::{MetadataConfig, VectorConfig};
use swiftide_pgvector::retrieve::{
    MetadataFilter, PendingQuery, SimilaritySingleEmbedding, VectorSearchResult,
};

fn test_store() -> PgVector {
    PgVector::builder()
        .vector_size(384)
        .with_vector(VectorConfig::new("Combined"))
        .with_metadata(MetadataConfig::new("filter"))
        .table_name("swiftide_pgvector_test".to_string())
        .build()
        .unwrap()
}

fn test_query() -> PendingQuery<f32> {
    let mut query = PendingQuery::new("test_query");
    query.embedding = Some(vec![1.0; 384]);
    query
}

fn row(id: u128, chunk: &str) -> VectorSearchResult {
    VectorSearchResult { id, chunk: chunk.to_string() }
}

#[test]
fn strategy_defaults() {
    let strategy = SimilaritySingleEmbedding::default();
    assert_eq!(strategy.top_k(), 10);
    assert_eq!(strategy.filter(), &None);
    let mut filtered = SimilaritySingleEmbedding::from_filter("a = b".to_string());
    assert_eq!(filtered.top_k(), 10);
    assert_eq!(filtered.filter(), &Some("a = b".to_string()));
    filtered.with_top_k(3);
    assert_eq!(filtered.top_k(), 3);
    assert_eq!(filtered.filter(), &Some("a = b".to_string()));
}

#[test]
fn filter_is_key_equals_quoted_value() {
    let parsed = MetadataFilter::parse("filter = \"true\"").unwrap();
    assert_eq!(parsed.key, "filter");
    assert_eq!(parsed.value, "true");
    assert_eq!(parsed.clause(), " WHERE meta_filter->>'filter' = 'true'");
}

#[test]
fn filter_parts_are_trimmed() {
    let parsed = MetadataFilter::parse(" \t Some Key \n=\u{a0} \"\"a \"b\" \"\" \u{3000}").unwrap();
    assert_eq!(parsed.key, "Some Key");
    assert_eq!(parsed.value, "a \"b\" ");
    assert_eq!(parsed.clause(), " WHERE meta_some_key->>'Some Key' = 'a \"b\" '");

    let bare = MetadataFilter::parse("k=v").unwrap();
    assert_eq!((bare.key.as_str(), bare.value.as_str()), ("k", "v"));
    let empty = MetadataFilter::parse("=").unwrap();
    assert_eq!((empty.key.as_str(), empty.value.as_str()), ("", ""));
    let quotes = MetadataFilter::parse("k = \"\"\"").unwrap();
    assert_eq!(quotes.value, "");
    let inner = MetadataFilter::parse("k = \" v \"").unwrap();
    assert_eq!(inner.value, " v ");
}

#[test]
fn malformed_filter_is_rejected() {
    for filter in ["nofilterhere", "a=b=c", "", "   ", "a == b", "=a=", "a = \"b=c\""] {
        assert_eq!(
            MetadataFilter::parse(filter).unwrap_err(),
            QueryError::InvalidFilter
        );
        let strategy = SimilaritySingleEmbedding::from_filter(filter.to_string());
        assert_eq!(
            test_store().similarity_request(&strategy, &test_query()).unwrap_err(),
            QueryError::InvalidFilter
        );
        assert_eq!(
            test_store()
                .retrieval_request("Combined", &strategy, &test_query())
                .unwrap_err(),
            QueryError::InvalidFilter
        );
    }
}

#[test]
fn query_without_filter() {
    let query = test_query();
    let request = test_store()
        .similarity_request(&SimilaritySingleEmbedding::default(), &query)
        .unwrap();
    assert_eq!(
        request.sql,
        "SELECT id, chunk FROM swiftide_pgvector_test ORDER BY vector_combined <=> $1 LIMIT $2"
    );
    assert_eq!(request.limit, 10);
    assert_eq!(request.embedding, &vec![1.0; 384]);
}

#[test]
fn query_with_filter() {
    let query = test_query();
    let strategy = SimilaritySingleEmbedding::from_filter("filter = \"true\"".to_string());
    let request = test_store().similarity_request(&strategy, &query).unwrap();
    assert_eq!(
        request.sql,
        "SELECT id, chunk FROM swiftide_pgvector_test WHERE meta_filter->>'filter' = 'true' ORDER BY vector_combined <=> $1 LIMIT $2"
    );
    let strategy = SimilaritySingleEmbedding::from_filter("filter = \"banana\"".to_string());
    let request = test_store().similarity_request(&strategy, &query).unwrap();
    assert_eq!(
        request.sql,
        "SELECT id, chunk FROM swiftide_pgvector_test WHERE meta_filter->>'filter' = 'banana' ORDER BY vector_combined <=> $1 LIMIT $2"
    );
}

#[test]
fn query_for_a_named_vector_field() {
    let store = PgVector::builder()
        .vector_size(2)
        .with_vector(VectorConfig::new("Combined"))
        .with_vector(VectorConfig::new("title"))
        .table_name("docs".to_string())
        .build()
        .unwrap();
    let mut query = PendingQuery::new("q");
    query.embedding = Some(vec![0.5f32, 0.25]);
    let mut strategy = SimilaritySingleEmbedding::default();
    strategy.with_top_k(3);
    let request = store.retrieval_request("Title", &strategy, &query).unwrap();
    assert_eq!(
        request.sql,
        "SELECT id, chunk FROM docs ORDER BY vector_title <=> $1 LIMIT $2"
    );
    assert_eq!(request.limit, 3);
    assert_eq!(request.embedding, &vec![0.5, 0.25]);
    assert_eq!(
        store.retrieval_request("body", &strategy, &query).unwrap_err(),
        QueryError::UnknownVectorField
    );
    assert_eq!(
        store.similarity_request(&strategy, &query).unwrap_err(),
        QueryError::AmbiguousVectorField
    );
    assert_eq!(store.vector_column_name("combined").unwrap(), "vector_combined");
    assert_eq!(
        store.get_vector_column_name().unwrap_err(),
        QueryError::AmbiguousVectorField
    );
}

#[test]
fn store_without_vector_field_cannot_be_queried() {
    let store = PgVector::builder()
        .with_metadata(MetadataConfig::new("vector_combined"))
        .build()
        .unwrap();
    assert_eq!(
        store.get_vector_column_name().unwrap_err(),
        QueryError::NoVectorField
    );
    assert_eq!(
        store.vector_column_name("Combined").unwrap_err(),
        QueryError::UnknownVectorField
    );
    assert_eq!(
        store
            .similarity_request(&SimilaritySingleEmbedding::default(), &test_query())
            .unwrap_err(),
        QueryError::NoVectorField
    );
    assert_eq!(test_store().get_vector_column_name().unwrap(), "vector_combined");
}

#[test]
fn query_needs_an_embedding() {
    let query: PendingQuery<f32> = PendingQuery::new("test_query");
    let bad = SimilaritySingleEmbedding::from_filter("a=b=c".to_string());
    assert_eq!(
        test_store().similarity_request(&bad, &query).unwrap_err(),
        QueryError::MissingEmbedding
    );
    assert_eq!(
        test_store().retrieval_request("nowhere", &bad, &query).unwrap_err(),
        QueryError::MissingEmbedding
    );
    assert_eq!(
        query.retrieved_documents(vec![row(1, "a")]).unwrap_err(),
        QueryError::MissingEmbedding
    );
}

#[test]
fn top_k_must_fit_the_row_limit() {
    let query = test_query();
    let mut strategy = SimilaritySingleEmbedding::default();
    strategy.with_top_k(2147483647);
    assert_eq!(
        test_store().similarity_request(&strategy, &query).unwrap().limit,
        2147483647
    );
    strategy.with_top_k(2147483648);
    assert_eq!(
        test_store().similarity_request(&strategy, &query).unwrap_err(),
        QueryError::TopKOutOfRange
    );
    strategy.with_top_k(u64::MAX);
    assert_eq!(
        test_store().similarity_request(&strategy, &query).unwrap_err(),
        QueryError::TopKOutOfRange
    );
    strategy.with_top_k(0);
    assert_eq!(test_store().similarity_request(&strategy, &query).unwrap().limit, 0);
    let mut both = SimilaritySingleEmbedding::from_filter("broken".to_string());
    both.with_top_k(u64::MAX);
    assert_eq!(
        test_store().similarity_request(&both, &query).unwrap_err(),
        QueryError::InvalidFilter
    );
}

#[test]
fn documents_keep_the_order_of_the_rows() {
    let rows = vec![
        row(3, "test_query3"),
        row(1, "test_query1"),
        row(2, "test_query2"),
    ];
    let retrieved = test_query().retrieved_documents(rows).unwrap();
    assert_eq!(retrieved.documents, vec!["test_query3", "test_query1", "test_query2"]);
    assert_eq!(retrieved.text, "test_query");
    assert_eq!(retrieved.embedding, Some(vec![1.0; 384]));
    let none = test_query().retrieved_documents(vec![]).unwrap();
    assert!(none.documents.is_empty());
}
