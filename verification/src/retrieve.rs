//! Similarity retrieval: from a search strategy and a pending query to the
//! parameterized statement that finds the nearest chunks, and from the rows
//! that come back to the retrieved query.

use crate::config::{PgVector, StoreModel};
use crate::error::QueryError;
use crate::fields::{field_models, metadata_column, vector_column, FieldConfig, FieldModel};
use crate::text::{
    chars_of, count_char, normalize_field_name, position, push_range, scan_for, strip_range, trim,
    trim_quotes, Strip,
};
use vstd::prelude::*;

verus! {

/// The number of chunks a strategy asks for when none is set.
pub const DEFAULT_TOP_K: u64 = 10;

/// A search by the similarity of one embedding: the `top_k` nearest chunks,
/// among those that pass the filter if there is one.
///
/// A filter is one equality on a metadata attribute, written
/// `key = "value"`.
#[derive(Debug, Clone, PartialEq, Eq)]
pub struct SimilaritySingleEmbedding {
    pub top_k: u64,
    pub filter: Option<String>,
}

impl Default for SimilaritySingleEmbedding {
    fn default() -> (out: Self)
        ensures
            out.top_k == DEFAULT_TOP_K,
            out.filter is None,
    {
        SimilaritySingleEmbedding { top_k: DEFAULT_TOP_K, filter: None }
    }
}

impl SimilaritySingleEmbedding {
    /// The default strategy, restricted by `filter`.
    pub fn from_filter(filter: String) -> (out: Self)
        ensures
            out.top_k == DEFAULT_TOP_K,
            out.filter == Some(filter),
    {
        SimilaritySingleEmbedding { top_k: DEFAULT_TOP_K, filter: Some(filter) }
    }

    /// Sets the number of chunks to return.
    pub fn with_top_k(&mut self, top_k: u64) -> (out: &mut Self)
        ensures
            out.top_k == top_k,
            out.filter == old(self).filter,
            *final(self) == *final(out),
    {
        self.top_k = top_k;
        self
    }

    /// The number of chunks to return.
    pub fn top_k(&self) -> (out: u64)
        ensures
            out == self.top_k,
    {
        self.top_k
    }

    /// The filter, if there is one.
    pub fn filter(&self) -> (out: &Option<String>)
        ensures
            *out == self.filter,
    {
        &self.filter
    }

    /// The filter as characters.
    pub open spec fn filter_text(&self) -> Option<Seq<char>> {
        match self.filter {
            Some(filter) => Some(filter@),
            None => None,
        }
    }
}

/// One equality on a metadata attribute: the rows pass whose attribute
/// `key` has the text `value`.
#[derive(Debug, Clone, PartialEq, Eq)]
pub struct MetadataFilter {
    pub key: String,
    pub value: String,
}

/// The key and the value of a filter `key = value`: the text before the
/// equals sign and the text after it, both trimmed, the value also without
/// the quotes around it. A text with no equals sign, or with more than one,
/// is no filter.
pub open spec fn filter_parts(filter: Seq<char>) -> Option<(Seq<char>, Seq<char>)> {
    if count_char(filter, '=') == 1 {
        let at = position(filter, '=') as int;
        Some((trim(filter.take(at)), trim_quotes(trim(filter.skip(at + 1)))))
    } else {
        None
    }
}

/// The condition that keeps the rows whose metadata attribute `key` is
/// `value`.
///
/// Key and value stand in the condition as literals and are not escaped: a
/// single quote in either ends its literal early. A filter must therefore
/// never be built from text that the caller does not trust.
pub open spec fn filter_clause(key: Seq<char>, value: Seq<char>) -> Seq<char> {
    " WHERE "@ + metadata_column(key) + "->>'"@ + key + "' = '"@ + value + "'"@
}

/// The condition for an optional filter that is well formed; nothing for
/// none.
pub open spec fn where_clause(filter: Option<Seq<char>>) -> Seq<char> {
    match filter {
        Some(text) => match filter_parts(text) {
            Some((key, value)) => filter_clause(key, value),
            None => Seq::empty(),
        },
        None => Seq::empty(),
    }
}

/// The statement that selects identifier and chunk of the rows that meet
/// `condition`, nearest first by the cosine distance between `column` and
/// the first parameter, and at most as many as the second parameter says.
pub open spec fn select_sql(table: Seq<char>, condition: Seq<char>, column: Seq<char>) -> Seq<
    char,
> {
    "SELECT id, chunk FROM "@ + table + condition + " ORDER BY "@ + column + " <=> $1 LIMIT $2"@
}

/// Some vector field is stored in the column of the logical name `name`.
pub open spec fn has_vector_field(fields: Seq<FieldModel>, name: Seq<char>) -> bool {
    exists|i: int|
        0 <= i < fields.len() && (#[trigger] fields[i]) is Vector && fields[i].column()
            == vector_column(name)
}

/// Some field is a vector field.
pub open spec fn has_vector(fields: Seq<FieldModel>) -> bool {
    exists|i: int| 0 <= i < fields.len() && (#[trigger] fields[i]) is Vector
}

/// Two fields are vector fields.
pub open spec fn has_vectors(fields: Seq<FieldModel>) -> bool {
    exists|i: int, j: int|
        0 <= i < j < fields.len() && (#[trigger] fields[i]) is Vector && (
        #[trigger] fields[j]) is Vector
}

/// The place of the first vector field.
pub open spec fn first_vector(fields: Seq<FieldModel>) -> int {
    choose|i: int| 0 <= i < fields.len() && (#[trigger] fields[i]) is Vector && forall|j: int|
        0 <= j < i ==> !((#[trigger] fields[j]) is Vector)
}

/// Why a filter and a number of rows cannot go into a query, if they cannot.
pub open spec fn strategy_error(filter: Option<Seq<char>>, top_k: u64) -> Option<QueryError> {
    if filter is Some && filter_parts(filter->0) is None {
        Some(QueryError::InvalidFilter)
    } else if top_k > i32::MAX {
        Some(QueryError::TopKOutOfRange)
    } else {
        None
    }
}

/// A query ready to be sent: the statement, and the values of its two
/// parameters.
#[derive(Debug)]
pub struct RetrievalRequest<'a, E> {
    /// The statement.
    pub sql: String,
    /// The first parameter, the embedding to measure the distance from.
    pub embedding: &'a Vec<E>,
    /// The second parameter, the greatest number of rows.
    pub limit: i32,
}

/// A query whose documents are still to be retrieved.
#[derive(Debug, Clone, PartialEq)]
pub struct PendingQuery<E> {
    pub text: String,
    pub embedding: Option<Vec<E>>,
}

/// A query with the documents retrieved for it, nearest first.
#[derive(Debug, Clone, PartialEq)]
pub struct RetrievedQuery<E> {
    pub text: String,
    pub embedding: Option<Vec<E>>,
    pub documents: Vec<String>,
}

/// One row of a similarity search.
#[derive(Debug, Clone, PartialEq, Eq)]
pub struct VectorSearchResult {
    pub id: u128,
    pub chunk: String,
}

/// The chunks of the rows, in the order of the rows.
pub open spec fn chunks_of(rows: Seq<VectorSearchResult>) -> Seq<Seq<char>> {
    rows.map_values(|row: VectorSearchResult| row.chunk@)
}

/// The views of the documents, in their order.
pub open spec fn document_texts(documents: Seq<String>) -> Seq<Seq<char>> {
    documents.map_values(|d: String| d@)
}

impl<E> PendingQuery<E> {
    /// A query for `text`, without an embedding yet.
    pub fn new(text: &str) -> (out: Self)
        ensures
            out.text@ == text@,
            out.embedding is None,
    {
        PendingQuery { text: String::from_str(text), embedding: None }
    }

    /// The query after retrieval: what it was, with the chunks of `rows` as
    /// its documents, in the order of the rows. A query without an embedding
    /// cannot have been sent and is not moved on.
    pub fn retrieved_documents(self, rows: Vec<VectorSearchResult>) -> (out: Result<
        RetrievedQuery<E>,
        QueryError,
    >)
        ensures
            match self.embedding {
                None => out == Err::<RetrievedQuery<E>, QueryError>(QueryError::MissingEmbedding),
                Some(_) => out is Ok && out->Ok_0.text == self.text && out->Ok_0.embedding
                    == self.embedding && document_texts(out->Ok_0.documents@) == chunks_of(rows@),
            },
    {
        if self.embedding.is_none() {
            return Err(QueryError::MissingEmbedding);
        }
        let mut documents: Vec<String> = Vec::new();
        for row in it: rows
            invariant
                it.seq() == rows@,
                documents.len() == it.index(),
                forall|j: int| 0 <= j < it.index() ==> (#[trigger] documents@[j])@ == rows@[j].chunk@,
        {
            documents.push(row.chunk);
        }
        assert(document_texts(documents@) =~= chunks_of(rows@));
        Ok(RetrievedQuery { text: self.text, embedding: self.embedding, documents })
    }
}

impl MetadataFilter {
    /// Reads a filter of the form `key = "value"`.
    pub fn parse(filter: &str) -> (out: Result<MetadataFilter, QueryError>)
        ensures
            match filter_parts(filter@) {
                Some((key, value)) => out is Ok && out->Ok_0.key@ == key && out->Ok_0.value@
                    == value,
                None => out == Err::<MetadataFilter, QueryError>(QueryError::InvalidFilter),
            },
            out is Ok <==> count_char(filter@, '=') == 1,
    {
        let chars = chars_of(filter);
        let (count, at) = scan_for(&chars, '=');
        if count != 1 {
            return Err(QueryError::InvalidFilter);
        }
        let (key_from, key_to) = strip_range(&chars, 0, at, Strip::Whitespace);
        let (from, to) = strip_range(&chars, at + 1, chars.len(), Strip::Whitespace);
        let (value_from, value_to) = strip_range(&chars, from, to, Strip::Quotes);
        let mut key = String::new();
        push_range(&mut key, &chars, key_from, key_to);
        let mut value = String::new();
        push_range(&mut value, &chars, value_from, value_to);
        proof {
            assert(chars@.subrange(0, at as int) =~= filter@.take(at as int));
            assert(chars@.subrange(at + 1, chars.len() as int) =~= filter@.skip(at + 1));
            assert(key@ =~= chars@.subrange(key_from as int, key_to as int));
            assert(value@ =~= chars@.subrange(value_from as int, value_to as int));
        }
        Ok(MetadataFilter { key, value })
    }

    /// The condition of the filter, as it stands in a query.
    pub fn clause(&self) -> (out: String)
        ensures
            out@ == filter_clause(self.key@, self.value@),
    {
        let mut out = String::from_str(" WHERE ");
        out.append("meta_");
        out.append(normalize_field_name(self.key.as_str()).as_str());
        out.append("->>'");
        out.append(self.key.as_str());
        out.append("' = '");
        out.append(self.value.as_str());
        out.append("'");
        assert(out@ =~= filter_clause(self.key@, self.value@));
        out
    }
}

/// Why no query can be made for the vector field of the given name, if
/// none can. The first reason that applies is given.
pub open spec fn request_error(
    store: StoreModel,
    name: Seq<char>,
    has_embedding: bool,
    filter: Option<Seq<char>>,
    top_k: u64,
) -> Option<QueryError> {
    if !has_embedding {
        Some(QueryError::MissingEmbedding)
    } else if !has_vector_field(store.fields, name) {
        Some(QueryError::UnknownVectorField)
    } else {
        strategy_error(filter, top_k)
    }
}

/// Why no query can be made for the only vector field of the store, if
/// none can. The first reason that applies is given.
pub open spec fn sole_request_error(
    store: StoreModel,
    has_embedding: bool,
    filter: Option<Seq<char>>,
    top_k: u64,
) -> Option<QueryError> {
    if !has_embedding {
        Some(QueryError::MissingEmbedding)
    } else if !has_vector(store.fields) {
        Some(QueryError::NoVectorField)
    } else if has_vectors(store.fields) {
        Some(QueryError::AmbiguousVectorField)
    } else {
        strategy_error(filter, top_k)
    }
}

impl PgVector {
    /// The column of the vector field with the logical name `name`.
    pub fn vector_column_name(&self, name: &str) -> (out: Result<String, QueryError>)
        ensures
            match out {
                Ok(column) => has_vector_field(self@.fields, name@) && column@ == vector_column(
                    name@,
                ),
                Err(e) => !has_vector_field(self@.fields, name@) && e
                    == QueryError::UnknownVectorField,
            },
    {
        let fields = self.fields();
        let ghost models = self@.fields;
        let mut wanted = String::from_str("vector_");
        wanted.append(normalize_field_name(name).as_str());
        let mut i: usize = 0;
        while i < fields.len()
            invariant
                i <= fields.len(),
                models == field_models(fields@),
                models == self@.fields,
                wanted@ == vector_column(name@),
                forall|j: int|
                    0 <= j < i ==> !((#[trigger] models[j]) is Vector && models[j].column()
                        == vector_column(name@)),
            decreases fields.len() - i,
        {
            if let FieldConfig::Vector(config) = &fields[i] {
                if config.field() == wanted {
                    assert(models[i as int] == config@);
                    return Ok(wanted);
                }
            }
            i += 1;
        }
        Err(QueryError::UnknownVectorField)
    }

    /// The column of the only vector field of the store.
    pub fn get_vector_column_name(&self) -> (out: Result<String, QueryError>)
        ensures
            match out {
                Ok(column) => has_vector(self@.fields) && !has_vectors(self@.fields) && column@
                    == self@.fields[first_vector(self@.fields)].column(),
                Err(e) => e == if has_vector(self@.fields) {
                    QueryError::AmbiguousVectorField
                } else {
                    QueryError::NoVectorField
                } && (has_vector(self@.fields) ==> has_vectors(self@.fields)),
            },
    {
        let fields = self.fields();
        let ghost models = self@.fields;
        let mut found: Option<usize> = None;
        let mut i: usize = 0;
        while i < fields.len()
            invariant
                i <= fields.len(),
                models == field_models(fields@),
                models == self@.fields,
                match found {
                    Some(at) => at < i && models[at as int] is Vector && forall|j: int|
                        0 <= j < i && j != at ==> !((#[trigger] models[j]) is Vector),
                    None => forall|j: int| 0 <= j < i ==> !((#[trigger] models[j]) is Vector),
                },
            decreases fields.len() - i,
        {
            if let FieldConfig::Vector(_) = &fields[i] {
                assert(models[i as int] is Vector);
                if let Some(at) = found {
                    assert(models[at as int] is Vector && models[i as int] is Vector);
                    return Err(QueryError::AmbiguousVectorField);
                }
                found = Some(i);
            }
            i += 1;
        }
        match found {
            Some(at) => {
                assert(models[at as int] is Vector);
                assert(first_vector(models) == at);
                Ok(fields[at].field_name())
            },
            None => Err(QueryError::NoVectorField),
        }
    }

    /// The query for the rows nearest to `embedding` in `column`, as the
    /// strategy restricts them.
    fn compose<'a, E>(
        &self,
        column: &str,
        strategy: &SimilaritySingleEmbedding,
        embedding: &'a Vec<E>,
    ) -> (out: Result<RetrievalRequest<'a, E>, QueryError>)
        ensures
            match strategy_error(strategy.filter_text(), strategy.top_k) {
                Some(e) => out == Err::<RetrievalRequest<'a, E>, QueryError>(e),
                None => out is Ok && out->Ok_0.sql@ == select_sql(
                    self@.table_name,
                    where_clause(strategy.filter_text()),
                    column@,
                ) && out->Ok_0.embedding == embedding && out->Ok_0.limit == strategy.top_k,
            },
    {
        let mut sql = String::from_str("SELECT id, chunk FROM ");
        sql.append(self.table_name());
        if let Some(filter) = &strategy.filter {
            match MetadataFilter::parse(filter.as_str()) {
                Ok(parsed) => {
                    sql.append(parsed.clause().as_str());
                },
                Err(e) => {
                    return Err(e);
                },
            }
        }
        sql.append(" ORDER BY ");
        sql.append(column);
        sql.append(" <=> $1 LIMIT $2");
        if strategy.top_k > 0x7fff_ffff {
            return Err(QueryError::TopKOutOfRange);
        }
        assert(sql@ =~= select_sql(
            self@.table_name,
            where_clause(strategy.filter_text()),
            column@,
        ));
        Ok(RetrievalRequest { sql, embedding, limit: strategy.top_k as i32 })
    }

    /// The query that retrieves, for a pending query, the chunks nearest to
    /// its embedding in the vector field named `vector_name`.
    pub fn retrieval_request<'a, E>(
        &self,
        vector_name: &str,
        strategy: &SimilaritySingleEmbedding,
        query: &'a PendingQuery<E>,
    ) -> (out: Result<RetrievalRequest<'a, E>, QueryError>)
        ensures
            match request_error(
                self@,
                vector_name@,
                query.embedding is Some,
                strategy.filter_text(),
                strategy.top_k,
            ) {
                Some(e) => out == Err::<RetrievalRequest<'a, E>, QueryError>(e),
                None => out is Ok && out->Ok_0.sql@ == select_sql(
                    self@.table_name,
                    where_clause(strategy.filter_text()),
                    vector_column(vector_name@),
                ) && out->Ok_0.embedding == query.embedding->0 && out->Ok_0.limit
                    == strategy.top_k,
            },
    {
        match &query.embedding {
            None => Err(QueryError::MissingEmbedding),
            Some(embedding) => match self.vector_column_name(vector_name) {
                Err(e) => Err(e),
                Ok(column) => self.compose(column.as_str(), strategy, embedding),
            },
        }
    }

    /// The query that retrieves, for a pending query, the chunks nearest to
    /// its embedding in the only vector field of the store.
    pub fn similarity_request<'a, E>(
        &self,
        strategy: &SimilaritySingleEmbedding,
        query: &'a PendingQuery<E>,
    ) -> (out: Result<RetrievalRequest<'a, E>, QueryError>)
        ensures
            match sole_request_error(
                self@,
                query.embedding is Some,
                strategy.filter_text(),
                strategy.top_k,
            ) {
                Some(e) => out == Err::<RetrievalRequest<'a, E>, QueryError>(e),
                None => out is Ok && out->Ok_0.sql@ == select_sql(
                    self@.table_name,
                    where_clause(strategy.filter_text()),
                    self@.fields[first_vector(self@.fields)].column(),
                ) && out->Ok_0.embedding == query.embedding->0 && out->Ok_0.limit
                    == strategy.top_k,
            },
    {
        match &query.embedding {
            None => Err(QueryError::MissingEmbedding),
            Some(embedding) => match self.get_vector_column_name() {
                Err(e) => Err(e),
                Ok(column) => self.compose(column.as_str(), strategy, embedding),
            },
        }
    }
}

} // verus!
