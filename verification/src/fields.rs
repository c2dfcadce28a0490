//! The field model: the logical columns of a table.

use crate::text::{is_ascii_lower, is_column_char, normalize, normalize_char, normalize_field_name};
use vstd::prelude::*;

verus! {

/// One embedding column. `name` tells the embedding spaces of a node apart;
/// `dimension`, where given, overrides the store's default.
#[derive(Debug, PartialEq, Eq)]
pub struct VectorConfig {
    pub name: String,
    pub dimension: Option<i32>,
}

/// One metadata column, holding the attribute stored under `key`.
#[derive(Debug, PartialEq, Eq)]
pub struct MetadataConfig {
    pub key: String,
}

/// One logical column of the table.
#[derive(Debug, PartialEq, Eq)]
pub enum FieldConfig {
    /// An embedding.
    Vector(VectorConfig),
    /// A metadata attribute.
    Metadata(MetadataConfig),
    /// The text of the chunk.
    Chunk,
    /// The unique identifier, the table's primary key.
    ID,
}

/// What a field is, as a mathematical value.
pub enum FieldModel {
    Vector { name: Seq<char>, dimension: Option<i32> },
    Metadata { key: Seq<char> },
    Chunk,
    Id,
}

/// The column that holds the vector of the given logical name.
pub open spec fn vector_column(name: Seq<char>) -> Seq<char> {
    "vector_"@ + normalize(name)
}

/// The column that holds the metadata stored under the given key.
pub open spec fn metadata_column(key: Seq<char>) -> Seq<char> {
    "meta_"@ + normalize(key)
}

impl FieldModel {
    /// The name of the column that stores the field.
    pub open spec fn column(self) -> Seq<char> {
        match self {
            FieldModel::Vector { name, .. } => vector_column(name),
            FieldModel::Metadata { key } => metadata_column(key),
            FieldModel::Chunk => "chunk"@,
            FieldModel::Id => "id"@,
        }
    }
}

impl View for VectorConfig {
    type V = FieldModel;

    open spec fn view(&self) -> FieldModel {
        FieldModel::Vector { name: self.name@, dimension: self.dimension }
    }
}

impl View for MetadataConfig {
    type V = FieldModel;

    open spec fn view(&self) -> FieldModel {
        FieldModel::Metadata { key: self.key@ }
    }
}

impl View for FieldConfig {
    type V = FieldModel;

    open spec fn view(&self) -> FieldModel {
        match self {
            FieldConfig::Vector(config) => config@,
            FieldConfig::Metadata(config) => config@,
            FieldConfig::Chunk => FieldModel::Chunk,
            FieldConfig::ID => FieldModel::Id,
        }
    }
}

/// The models of a list of fields, in their order.
pub open spec fn field_models(fields: Seq<FieldConfig>) -> Seq<FieldModel> {
    fields.map_values(|f: FieldConfig| f@)
}

impl VectorConfig {
    /// A vector field of the store's default dimension.
    pub fn new(name: &str) -> (out: Self)
        ensures
            out@ == (FieldModel::Vector { name: name@, dimension: None }),
    {
        VectorConfig { name: String::from_str(name), dimension: None }
    }

    /// A vector field of a dimension of its own.
    pub fn with_dimension(name: &str, dimension: i32) -> (out: Self)
        ensures
            out@ == (FieldModel::Vector { name: name@, dimension: Some(dimension) }),
    {
        VectorConfig { name: String::from_str(name), dimension: Some(dimension) }
    }

    /// The name of the column that stores the vector.
    pub fn field(&self) -> (out: String)
        ensures
            out@ == self@.column(),
    {
        let mut out = String::from_str("vector_");
        let tail = normalize_field_name(self.name.as_str());
        out.append(tail.as_str());
        out
    }
}

impl Clone for VectorConfig {
    fn clone(&self) -> (out: Self)
        ensures
            out@ == self@,
    {
        VectorConfig { name: self.name.clone(), dimension: self.dimension }
    }
}

impl MetadataConfig {
    /// The metadata field for the attribute stored under `key`.
    pub fn new(key: &str) -> (out: Self)
        ensures
            out@ == (FieldModel::Metadata { key: key@ }),
    {
        MetadataConfig { key: String::from_str(key) }
    }

    /// The name of the column that stores the attribute.
    pub fn field(&self) -> (out: String)
        ensures
            out@ == self@.column(),
    {
        let mut out = String::from_str("meta_");
        let tail = normalize_field_name(self.key.as_str());
        out.append(tail.as_str());
        out
    }
}

impl Clone for MetadataConfig {
    fn clone(&self) -> (out: Self)
        ensures
            out@ == self@,
    {
        MetadataConfig { key: self.key.clone() }
    }
}

impl FieldConfig {
    /// The name of the column that stores the field.
    pub fn field_name(&self) -> (out: String)
        ensures
            out@ == self@.column(),
    {
        match self {
            FieldConfig::Vector(config) => config.field(),
            FieldConfig::Metadata(config) => config.field(),
            FieldConfig::Chunk => String::from_str("chunk"),
            FieldConfig::ID => String::from_str("id"),
        }
    }
}

impl Clone for FieldConfig {
    fn clone(&self) -> (out: Self)
        ensures
            out@ == self@,
    {
        match self {
            FieldConfig::Vector(config) => FieldConfig::Vector(config.clone()),
            FieldConfig::Metadata(config) => FieldConfig::Metadata(config.clone()),
            FieldConfig::Chunk => FieldConfig::Chunk,
            FieldConfig::ID => FieldConfig::ID,
        }
    }
}

/// A copy of the fields, one by one.
pub fn clone_fields(fields: &Vec<FieldConfig>) -> (out: Vec<FieldConfig>)
    ensures
        field_models(out@) == field_models(fields@),
{
    let mut out: Vec<FieldConfig> = Vec::new();
    let mut i: usize = 0;
    while i < fields.len()
        invariant
            i <= fields.len(),
            out.len() == i,
            forall|j: int| 0 <= j < i ==> out@[j]@ == fields@[j]@,
        decreases fields.len() - i,
    {
        out.push(fields[i].clone());
        i += 1;
    }
    assert(field_models(out@) =~= field_models(fields@));
    out
}

/// Fields of different kinds never share a column: the name of a column
/// tells whether it holds the identifier, the chunk, a vector or a metadata
/// attribute.
pub proof fn lemma_kinds_have_columns_apart(a: FieldModel, b: FieldModel)
    requires
        a.column() == b.column(),
    ensures
        a is Id <==> b is Id,
        a is Chunk <==> b is Chunk,
        a is Vector <==> b is Vector,
        a is Metadata <==> b is Metadata,
{
    reveal_strlit("id");
    reveal_strlit("chunk");
    reveal_strlit("vector_");
    reveal_strlit("meta_");
    assert(a.column().len() > 0 && b.column().len() > 0);
    assert(a.column()[0] == b.column()[0]);
    assert(a is Id <==> a.column()[0] == 'i');
    assert(b is Id <==> b.column()[0] == 'i');
    assert(a is Chunk <==> a.column()[0] == 'c');
    assert(b is Chunk <==> b.column()[0] == 'c');
    assert(a is Vector <==> a.column()[0] == 'v');
    assert(b is Vector <==> b.column()[0] == 'v');
}

/// A column name consists of lower-case ASCII letters, ASCII digits and
/// underscores only, and begins with a letter, whatever the logical name of
/// the field holds.
pub proof fn lemma_column_is_plain(field: FieldModel)
    ensures
        field.column().len() >= 2,
        is_ascii_lower(field.column()[0]),
        forall|i: int| 0 <= i < field.column().len() ==> is_column_char(#[trigger] field.column()[i]),
{
    reveal_strlit("id");
    reveal_strlit("chunk");
    reveal_strlit("vector_");
    reveal_strlit("meta_");
    let column = field.column();
    assert forall|i: int| 0 <= i < column.len() implies is_column_char(#[trigger] column[i]) by {
        match field {
            FieldModel::Vector { name, .. } => {
                if i >= 7 {
                    assert(column[i] == normalize_char(name[i - 7]));
                }
            },
            FieldModel::Metadata { key } => {
                if i >= 5 {
                    assert(column[i] == normalize_char(key[i - 5]));
                }
            },
            _ => {},
        }
    }
}

} // verus!
