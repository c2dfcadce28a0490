//! The schema compiler: from a configuration to the statements that make
//! the table ready for use.
//!
//! Every statement creates its object only if it does not exist yet, so the
//! whole sequence can be run again on a database that was set up before.

use crate::config::{resolved_dimension, PgVector, StoreModel};
use crate::error::SchemaError;
use crate::fields::{field_models, FieldConfig, FieldModel};
use crate::text::{decimal, join, join_texts, lemma_filter_map_keeps, push_decimal, texts};
use crate::transaction::Outcome;
use vstd::prelude::*;

verus! {

/// The statement that enables the vector column type.
pub open spec fn extension_sql() -> Seq<char> {
    "CREATE EXTENSION IF NOT EXISTS vector"@
}

/// The definition of the column of `field`: a UUID for the identifier, text
/// for the chunk, JSONB for a metadata attribute, a vector of the field's
/// dimension for an embedding.
pub open spec fn column_definition(field: FieldModel, default: Option<i32>) -> Seq<char> {
    match field {
        FieldModel::Id => "id UUID NOT NULL"@,
        FieldModel::Chunk => "chunk TEXT NOT NULL"@,
        FieldModel::Metadata { .. } => field.column() + " JSONB"@,
        FieldModel::Vector { .. } => field.column() + " VECTOR("@ + decimal(
            resolved_dimension(field, default)->0 as nat,
        ) + ")"@,
    }
}

/// The definitions of all columns, in the order of the fields.
pub open spec fn column_definitions(store: StoreModel) -> Seq<Seq<char>> {
    store.fields.map_values(|f: FieldModel| column_definition(f, store.vector_size))
}

/// The statement that creates the table, with one column for each field and
/// the identifier as primary key.
pub open spec fn create_table_sql(store: StoreModel) -> Seq<char> {
    "CREATE TABLE IF NOT EXISTS "@ + store.table_name + " (\n  "@ + join(
        column_definitions(store).push("PRIMARY KEY (id)"@),
        ",\n  "@,
    ) + "\n)"@
}

/// The statement that creates the index for nearest-neighbour search by
/// cosine distance on one vector column.
pub open spec fn index_sql(table: Seq<char>, column: Seq<char>) -> Seq<char> {
    "CREATE INDEX IF NOT EXISTS "@ + table + "_"@ + column + "_idx ON "@ + table
        + " USING hnsw ("@ + column + " vector_cosine_ops)"@
}

/// The index statement for a vector field of `table`; none for another
/// field.
pub open spec fn index_for(table: Seq<char>) -> spec_fn(FieldModel) -> Option<Seq<char>> {
    |f: FieldModel|
        if f is Vector {
            Some(index_sql(table, f.column()))
        } else {
            None
        }
}

/// One index statement for each vector field, in the order of the fields.
pub open spec fn index_statements(store: StoreModel) -> Seq<Seq<char>> {
    store.fields.filter_map(index_for(store.table_name))
}

/// All statements of the setup, in the order in which they are run: the
/// extension, the table, the indexes.
pub open spec fn setup_statements(store: StoreModel) -> Seq<Seq<char>> {
    seq![extension_sql(), create_table_sql(store)] + index_statements(store)
}

impl PgVector {
    /// The statement that enables the vector column type.
    pub fn create_extension_sql() -> (out: String)
        ensures
            out@ == extension_sql(),
    {
        String::from_str("CREATE EXTENSION IF NOT EXISTS vector")
    }

    /// The statement that creates the table.
    pub fn generate_create_table_sql(&self) -> (out: String)
        ensures
            out@ == create_table_sql(self@),
    {
        let fields = self.fields();
        let ghost models = self@.fields;
        let mut definitions: Vec<String> = Vec::new();
        let mut i: usize = 0;
        while i < fields.len()
            invariant
                i <= fields.len(),
                models == field_models(fields@),
                models == self@.fields,
                definitions.len() == i,
                forall|j: int|
                    0 <= j < i ==> (#[trigger] definitions@[j])@ == column_definition(
                        models[j],
                        self@.vector_size,
                    ),
            decreases fields.len() - i,
        {
            assert(models[i as int] == fields@[i as int]@);
            let definition = match &fields[i] {
                FieldConfig::ID => String::from_str("id UUID NOT NULL"),
                FieldConfig::Chunk => String::from_str("chunk TEXT NOT NULL"),
                FieldConfig::Metadata(config) => {
                    let mut text = config.field();
                    text.append(" JSONB");
                    text
                },
                FieldConfig::Vector(config) => {
                    let mut text = config.field();
                    text.append(" VECTOR(");
                    if let Some(d) = self.dimension(i) {
                        push_decimal(&mut text, d as u64);
                    }
                    text.append(")");
                    text
                },
            };
            definitions.push(definition);
            i += 1;
        }
        definitions.push(String::from_str("PRIMARY KEY (id)"));
        assert(texts(definitions@) =~= column_definitions(self@).push("PRIMARY KEY (id)"@));
        let mut out = String::from_str("CREATE TABLE IF NOT EXISTS ");
        out.append(self.table_name());
        out.append(" (\n  ");
        out.append(join_texts(&definitions, ",\n  ").as_str());
        out.append("\n)");
        out
    }

    /// The statements that create the indexes, one for each vector field.
    pub fn create_index_sql(&self) -> (out: Vec<String>)
        ensures
            texts(out@) == index_statements(self@),
    {
        let fields = self.fields();
        let table = self.table_name();
        let ghost models = self@.fields;
        let ghost pick = index_for(self@.table_name);
        let mut out: Vec<String> = Vec::new();
        let mut i: usize = 0;
        assert(models.take(0).filter_map(pick) =~= Seq::<Seq<char>>::empty());
        while i < fields.len()
            invariant
                i <= fields.len(),
                models == field_models(fields@),
                models == self@.fields,
                table@ == self@.table_name,
                pick == index_for(self@.table_name),
                texts(out@) == models.take(i as int).filter_map(pick),
            decreases fields.len() - i,
        {
            proof {
                models.lemma_filter_map_take_succ(pick, i as int);
                assert(models[i as int] == fields@[i as int]@);
            }
            if let FieldConfig::Vector(config) = &fields[i] {
                let column = config.field();
                let mut text = String::from_str("CREATE INDEX IF NOT EXISTS ");
                text.append(table);
                text.append("_");
                text.append(column.as_str());
                text.append("_idx ON ");
                text.append(table);
                text.append(" USING hnsw (");
                text.append(column.as_str());
                text.append(" vector_cosine_ops)");
                assert(pick(models[i as int]) == Some(text@));
                let ghost before = texts(out@);
                out.push(text);
                assert(texts(out@) =~= before + seq![text@]);
            }
            i += 1;
        }
        assert(models.take(models.len() as int) =~= models);
        out
    }

    /// All statements of the setup, in the order in which they are to be
    /// run inside one transaction.
    pub fn setup_statements(&self) -> (out: Vec<String>)
        ensures
            texts(out@) == setup_statements(self@),
    {
        let mut out: Vec<String> = Vec::new();
        out.push(Self::create_extension_sql());
        out.push(self.generate_create_table_sql());
        let mut indexes = self.create_index_sql();
        let ghost head = texts(out@);
        let ghost tail = texts(indexes@);
        out.append(&mut indexes);
        assert(texts(out@) =~= head + tail);
        assert(head =~= seq![extension_sql(), create_table_sql(self@)]);
        out
    }
}

/// What a finished setup transaction means for the schema: it is in place
/// if the transaction was committed; otherwise nothing of it is, and the
/// error names the statement that failed.
pub open spec fn setup_outcome(outcome: Outcome) -> Result<(), SchemaError> {
    match outcome {
        Outcome::Committed => Ok(()),
        Outcome::BeginFailed => Err(SchemaError::Transaction),
        Outcome::CommitFailed => Err(SchemaError::Transaction),
        Outcome::StatementFailed(k) => if k == 0 {
            Err(SchemaError::Extension)
        } else if k == 1 {
            Err(SchemaError::Table)
        } else {
            Err(SchemaError::Index)
        },
    }
}

/// The result of a setup whose transaction ended with `outcome`.
pub fn setup_result(outcome: Outcome) -> (out: Result<(), SchemaError>)
    ensures
        out == setup_outcome(outcome),
{
    match outcome {
        Outcome::Committed => Ok(()),
        Outcome::BeginFailed => Err(SchemaError::Transaction),
        Outcome::CommitFailed => Err(SchemaError::Transaction),
        Outcome::StatementFailed(k) => if k == 0 {
            Err(SchemaError::Extension)
        } else if k == 1 {
            Err(SchemaError::Table)
        } else {
            Err(SchemaError::Index)
        },
    }
}

/// A statement that creates its object only where it does not exist yet.
pub open spec fn is_guarded(statement: Seq<char>) -> bool {
    ||| "CREATE EXTENSION IF NOT EXISTS "@.is_prefix_of(statement)
    ||| "CREATE TABLE IF NOT EXISTS "@.is_prefix_of(statement)
    ||| "CREATE INDEX IF NOT EXISTS "@.is_prefix_of(statement)
}

/// Every statement of the setup creates its object only where it does not
/// exist yet, so that a setup can be run again on a database that was set
/// up before.
pub proof fn lemma_setup_is_guarded(store: StoreModel, k: int)
    requires
        0 <= k < setup_statements(store).len(),
    ensures
        is_guarded(setup_statements(store)[k]),
{
    let statement = setup_statements(store)[k];
    if k == 0 {
        reveal_strlit("CREATE EXTENSION IF NOT EXISTS vector");
        reveal_strlit("CREATE EXTENSION IF NOT EXISTS ");
        assert("CREATE EXTENSION IF NOT EXISTS "@.is_prefix_of(statement));
    } else if k == 1 {
        assert("CREATE TABLE IF NOT EXISTS "@.is_prefix_of(statement));
    } else {
        let indexes = index_statements(store);
        assert(statement == indexes[k - 2]);
        assert(indexes.contains(statement));
        store.fields.lemma_filter_map_contains(index_for(store.table_name), statement);
        let field = choose|t: FieldModel| #[trigger]
            store.fields.contains(t) && (index_for(store.table_name))(t) == Some(statement);
        assert(statement == index_sql(store.table_name, field.column()));
        assert("CREATE INDEX IF NOT EXISTS "@.is_prefix_of(statement));
    }
}

/// The setup has one statement for the extension, one for the table and
/// one for each vector field, and none besides.
pub proof fn lemma_one_index_for_each_vector(store: StoreModel)
    ensures
        setup_statements(store).len() == 2 + index_statements(store).len(),
        forall|i: int|
            0 <= i < store.fields.len() && (#[trigger] store.fields[i]) is Vector
                ==> index_statements(store).contains(
                index_sql(store.table_name, store.fields[i].column()),
            ),
        forall|statement: Seq<char>| #[trigger]
            index_statements(store).contains(statement) ==> exists|i: int|
                0 <= i < store.fields.len() && (#[trigger] store.fields[i]) is Vector && statement
                    == index_sql(store.table_name, store.fields[i].column()),
{
    let pick = index_for(store.table_name);
    assert forall|i: int|
        0 <= i < store.fields.len() && (#[trigger] store.fields[i]) is Vector implies index_statements(
        store,
    ).contains(index_sql(store.table_name, store.fields[i].column())) by {
        let statement = index_sql(store.table_name, store.fields[i].column());
        assert(pick(store.fields[i]) == Some(statement));
        lemma_filter_map_keeps(store.fields, pick, i);
    }
    assert forall|statement: Seq<char>| #[trigger]
        index_statements(store).contains(statement) implies exists|i: int|
        0 <= i < store.fields.len() && (#[trigger] store.fields[i]) is Vector && statement
            == index_sql(store.table_name, store.fields[i].column()) by {
        store.fields.lemma_filter_map_contains(pick, statement);
        let field = choose|t: FieldModel| #[trigger]
            store.fields.contains(t) && pick(t) == Some(statement);
        let i = choose|i: int| 0 <= i < store.fields.len() && store.fields[i] == field;
        assert(store.fields[i] is Vector);
    }
}

} // verus!
