//! The store's configuration: what it holds, when it is valid, and the
//! builder that makes one.

use crate::error::ConfigError;
use crate::fields::{
    clone_fields, field_models, lemma_column_is_plain, FieldConfig, FieldModel, MetadataConfig,
    VectorConfig,
};
use crate::text::{is_valid_identifier, is_valid_identifier_text, MAX_IDENTIFIER_LEN};
use vstd::prelude::*;

verus! {

/// The table that is used when none is named.
pub const DEFAULT_TABLE_NAME: &'static str = "swiftide_pgv_store";

/// The number of nodes sent per write when none is set.
pub const DEFAULT_BATCH_SIZE: usize = 50;

/// A configuration as a mathematical value.
pub struct StoreModel {
    pub table_name: Seq<char>,
    pub vector_size: Option<i32>,
    pub batch_size: usize,
    pub fields: Seq<FieldModel>,
}

/// The dimension of a field's vectors: its own, else the store's default.
/// A field that is no vector has none.
pub open spec fn resolved_dimension(field: FieldModel, default: Option<i32>) -> Option<i32> {
    match field {
        FieldModel::Vector { dimension: Some(d), .. } => Some(d),
        FieldModel::Vector { dimension: None, .. } => default,
        _ => None,
    }
}

/// Some field is `kind`.
pub open spec fn occurs(fields: Seq<FieldModel>, kind: FieldModel) -> bool {
    exists|i: int| 0 <= i < fields.len() && #[trigger] fields[i] == kind
}

/// Two fields are `kind`.
pub open spec fn occurs_twice(fields: Seq<FieldModel>, kind: FieldModel) -> bool {
    exists|i: int, j: int|
        0 <= i < j < fields.len() && #[trigger] fields[i] == kind && #[trigger] fields[j] == kind
}

/// Some vector field has neither a dimension of its own nor a default.
pub open spec fn lacks_dimension(fields: Seq<FieldModel>, default: Option<i32>) -> bool {
    exists|i: int|
        0 <= i < fields.len() && (#[trigger] fields[i]) is Vector && resolved_dimension(
            fields[i],
            default,
        ) is None
}

/// Some vector field has a dimension below one.
pub open spec fn has_bad_dimension(fields: Seq<FieldModel>, default: Option<i32>) -> bool {
    exists|i: int|
        0 <= i < fields.len() && resolved_dimension(#[trigger] fields[i], default) is Some
            && resolved_dimension(fields[i], default)->0 < 1
}

/// Some field's column name is too long for an identifier.
pub open spec fn has_long_column(fields: Seq<FieldModel>) -> bool {
    exists|i: int| 0 <= i < fields.len() && (#[trigger] fields[i]).column().len() > MAX_IDENTIFIER_LEN
}

/// Two fields share a column name.
pub open spec fn repeats_column(fields: Seq<FieldModel>) -> bool {
    exists|i: int, j: int|
        0 <= i < j < fields.len() && (#[trigger] fields[i]).column() == (
        #[trigger] fields[j]).column()
}

impl StoreModel {
    /// What is wrong with the configuration, if anything. Where several
    /// things are, the one listed first here is reported.
    pub open spec fn error(self) -> Option<ConfigError> {
        if !is_valid_identifier(self.table_name) {
            Some(ConfigError::InvalidTableName)
        } else if self.batch_size == 0 {
            Some(ConfigError::InvalidBatchSize)
        } else if !occurs(self.fields, FieldModel::Id) {
            Some(ConfigError::MissingIdentity)
        } else if occurs_twice(self.fields, FieldModel::Id) {
            Some(ConfigError::DuplicateIdentity)
        } else if !occurs(self.fields, FieldModel::Chunk) {
            Some(ConfigError::MissingContent)
        } else if occurs_twice(self.fields, FieldModel::Chunk) {
            Some(ConfigError::DuplicateContent)
        } else if lacks_dimension(self.fields, self.vector_size) {
            Some(ConfigError::MissingDimension)
        } else if has_bad_dimension(self.fields, self.vector_size) {
            Some(ConfigError::InvalidDimension)
        } else if has_long_column(self.fields) {
            Some(ConfigError::InvalidColumnName)
        } else if repeats_column(self.fields) {
            Some(ConfigError::DuplicateColumn)
        } else {
            None
        }
    }

    /// A configuration that a table can be derived from.
    pub open spec fn valid(self) -> bool {
        self.error() is None
    }

    /// The dimension of the vectors of field `i`.
    pub open spec fn dimension(self, i: int) -> Option<i32> {
        resolved_dimension(self.fields[i], self.vector_size)
    }
}

/// The names of the columns of the given fields, in their order.
pub open spec fn columns(fields: Seq<FieldModel>) -> Seq<Seq<char>> {
    fields.map_values(|f: FieldModel| f.column())
}

/// How often the identifier (`identity`) or else the chunk is declared:
/// 0, 1, or 2 for more than once.
fn occurrences(fields: &Vec<FieldConfig>, identity: bool) -> (n: u8)
    ensures
        n <= 2,
        n >= 1 <==> occurs(
            field_models(fields@),
            if identity {
                FieldModel::Id
            } else {
                FieldModel::Chunk
            },
        ),
        n == 2 <==> occurs_twice(
            field_models(fields@),
            if identity {
                FieldModel::Id
            } else {
                FieldModel::Chunk
            },
        ),
{
    let ghost kind = if identity {
        FieldModel::Id
    } else {
        FieldModel::Chunk
    };
    let ghost models = field_models(fields@);
    let ghost mut first: int = -1;
    let ghost mut second: int = -1;
    let mut n: u8 = 0;
    let mut i: usize = 0;
    while i < fields.len()
        invariant
            i <= fields.len(),
            models == field_models(fields@),
            kind == if identity {
                FieldModel::Id
            } else {
                FieldModel::Chunk
            },
            n <= 2,
            n == 0 ==> forall|j: int| 0 <= j < i ==> models[j] != kind,
            n >= 1 ==> 0 <= first < i && models[first] == kind,
            n == 1 ==> forall|j: int| 0 <= j < i && j != first ==> models[j] != kind,
            n == 2 ==> first < second < i && models[second] == kind,
        decreases fields.len() - i,
    {
        let hit = match &fields[i] {
            FieldConfig::ID => identity,
            FieldConfig::Chunk => !identity,
            _ => false,
        };
        assert(hit == (models[i as int] == kind));
        if hit {
            if n == 0 {
                proof {
                    first = i as int;
                }
                n = 1;
            } else if n == 1 {
                proof {
                    second = i as int;
                }
                n = 2;
            }
        }
        i += 1;
    }
    n
}

/// The first of the ways in which the parts of a configuration are wrong.
#[verifier::loop_isolation(false)]
pub fn validate(
    table_name: &str,
    vector_size: Option<i32>,
    batch_size: usize,
    fields: &Vec<FieldConfig>,
) -> (out: Option<ConfigError>)
    ensures
        out == (StoreModel {
            table_name: table_name@,
            vector_size,
            batch_size,
            fields: field_models(fields@),
        }).error(),
{
    let ghost models = field_models(fields@);
    if !is_valid_identifier_text(table_name) {
        return Some(ConfigError::InvalidTableName);
    }
    if batch_size == 0 {
        return Some(ConfigError::InvalidBatchSize);
    }
    let ids = occurrences(fields, true);
    if ids == 0 {
        return Some(ConfigError::MissingIdentity);
    }
    if ids == 2 {
        return Some(ConfigError::DuplicateIdentity);
    }
    let chunks = occurrences(fields, false);
    if chunks == 0 {
        return Some(ConfigError::MissingContent);
    }
    if chunks == 2 {
        return Some(ConfigError::DuplicateContent);
    }
    let mut i: usize = 0;
    while i < fields.len()
        invariant
            i <= fields.len(),
            models == field_models(fields@),
            forall|j: int|
                0 <= j < i ==> !((#[trigger] models[j]) is Vector && resolved_dimension(
                    models[j],
                    vector_size,
                ) is None),
        decreases fields.len() - i,
    {
        if let FieldConfig::Vector(config) = &fields[i] {
            if config.dimension.is_none() && vector_size.is_none() {
                assert(models[i as int] is Vector);
                return Some(ConfigError::MissingDimension);
            }
        }
        i += 1;
    }
    let mut i: usize = 0;
    while i < fields.len()
        invariant
            i <= fields.len(),
            models == field_models(fields@),
            forall|j: int|
                0 <= j < i ==> !(resolved_dimension(#[trigger] models[j], vector_size) is Some
                    && resolved_dimension(models[j], vector_size)->0 < 1),
        decreases fields.len() - i,
    {
        if let FieldConfig::Vector(config) = &fields[i] {
            let dimension = match config.dimension {
                Some(d) => Some(d),
                None => vector_size,
            };
            if let Some(d) = dimension {
                if d < 1 {
                    assert(resolved_dimension(models[i as int], vector_size) == Some(d));
                    return Some(ConfigError::InvalidDimension);
                }
            }
        }
        i += 1;
    }
    let mut names: Vec<String> = Vec::new();
    let mut i: usize = 0;
    while i < fields.len()
        invariant
            i <= fields.len(),
            models == field_models(fields@),
            names.len() == i,
            forall|j: int| 0 <= j < i ==> (#[trigger] names@[j])@ == models[j].column(),
            forall|j: int| 0 <= j < i ==> (#[trigger] models[j]).column().len() <= MAX_IDENTIFIER_LEN,
        decreases fields.len() - i,
    {
        let name = fields[i].field_name();
        if name.as_str().unicode_len() > MAX_IDENTIFIER_LEN {
            assert(models[i as int].column().len() > MAX_IDENTIFIER_LEN);
            return Some(ConfigError::InvalidColumnName);
        }
        names.push(name);
        i += 1;
    }
    let mut i: usize = 0;
    while i < names.len()
        invariant
            i <= names.len(),
            names.len() == fields.len(),
            models == field_models(fields@),
            forall|j: int| 0 <= j < names.len() ==> (#[trigger] names@[j])@ == models[j].column(),
            forall|a: int, b: int|
                0 <= a < b < names.len() && a < i ==> (#[trigger] models[a]).column() != (
                #[trigger] models[b]).column(),
        decreases names.len() - i,
    {
        let mut k: usize = i + 1;
        while k < names.len()
            invariant
                i < k <= names.len(),
                names.len() == fields.len(),
                models == field_models(fields@),
                forall|j: int|
                    0 <= j < names.len() ==> (#[trigger] names@[j])@ == models[j].column(),
                forall|b: int|
                    i < b < k ==> models[i as int].column() != (#[trigger] models[b]).column(),
            decreases names.len() - k,
        {
            if names[i] == names[k] {
                assert(models[i as int].column() == models[k as int].column());
                return Some(ConfigError::DuplicateColumn);
            }
            k += 1;
        }
        i += 1;
    }
    None
}

/// A store of embedded chunks in one PostgreSQL table.
///
/// The value is the validated configuration of the store: the statements
/// that set the table up, write to it and query it are derived from it. It
/// is made by [`PgVectorBuilder::build`] and never changes afterwards.
#[derive(Debug)]
pub struct PgVector {
    table_name: String,
    vector_size: Option<i32>,
    batch_size: usize,
    fields: Vec<FieldConfig>,
}

impl View for PgVector {
    type V = StoreModel;

    closed spec fn view(&self) -> StoreModel {
        StoreModel {
            table_name: self.table_name@,
            vector_size: self.vector_size,
            batch_size: self.batch_size,
            fields: field_models(self.fields@),
        }
    }
}

impl PgVector {
    #[verifier::type_invariant]
    spec fn well_formed(&self) -> bool {
        self@.valid()
    }

    /// A builder with nothing set.
    pub fn builder() -> (out: PgVectorBuilder)
        ensures
            out@ == BuilderModel::unset(),
    {
        PgVectorBuilder::default()
    }

    /// The table the store writes to.
    pub fn table_name(&self) -> (out: &str)
        ensures
            out@ == self@.table_name,
            is_valid_identifier(out@),
    {
        proof {
            use_type_invariant(self);
        }
        self.table_name.as_str()
    }

    /// The dimension of the vector fields that name none of their own.
    pub fn vector_size(&self) -> (out: Option<i32>)
        ensures
            out == self@.vector_size,
    {
        self.vector_size
    }

    /// The number of nodes a caller should hand over per write.
    pub fn batch_size(&self) -> (out: Option<usize>)
        ensures
            out == Some(self@.batch_size),
            self@.batch_size >= 1,
    {
        proof {
            use_type_invariant(self);
        }
        Some(self.batch_size)
    }

    /// The dimension of the vectors of the field at place `i`. A field that
    /// is no vector has none, nor has a place beyond the last field.
    pub fn dimension(&self, i: usize) -> (out: Option<i32>)
        ensures
            out == if i < self@.fields.len() {
                self@.dimension(i as int)
            } else {
                None
            },
            out is Some ==> out->0 >= 1,
            i < self@.fields.len() && self@.fields[i as int] is Vector ==> out is Some,
    {
        proof {
            use_type_invariant(self);
        }
        if i >= self.fields.len() {
            return None;
        }
        assert(self@.fields[i as int] == self.fields@[i as int]@);
        match &self.fields[i] {
            FieldConfig::Vector(config) => match config.dimension {
                Some(d) => Some(d),
                None => self.vector_size,
            },
            _ => None,
        }
    }

    /// The fields of the table, in the order of their declaration.
    pub fn fields(&self) -> (out: &Vec<FieldConfig>)
        ensures
            field_models(out@) == self@.fields,
            self@.valid(),
    {
        proof {
            use_type_invariant(self);
        }
        &self.fields
    }
}

impl Clone for PgVector {
    fn clone(&self) -> (out: Self)
        ensures
            out@ == self@,
    {
        proof {
            use_type_invariant(self);
        }
        PgVector {
            table_name: self.table_name.clone(),
            vector_size: self.vector_size,
            batch_size: self.batch_size,
            fields: clone_fields(&self.fields),
        }
    }
}

/// A configuration in the making, as a mathematical value. `None` stands
/// for a part that was not set.
pub struct BuilderModel {
    pub table_name: Option<Seq<char>>,
    pub vector_size: Option<i32>,
    pub batch_size: Option<usize>,
    pub fields: Option<Seq<FieldModel>>,
}

/// The fields of a table for which none were declared: the identifier and
/// the chunk.
pub open spec fn default_field_models() -> Seq<FieldModel> {
    seq![FieldModel::Id, FieldModel::Chunk]
}

impl BuilderModel {
    /// The builder with nothing set.
    pub open spec fn unset() -> BuilderModel {
        BuilderModel { table_name: None, vector_size: None, batch_size: None, fields: None }
    }

    /// The fields declared so far; the default ones if none were.
    pub open spec fn declared(self) -> Seq<FieldModel> {
        match self.fields {
            Some(fields) => fields,
            None => default_field_models(),
        }
    }

    /// The configuration the builder stands for, with the default put in
    /// for every part that was not set.
    pub open spec fn resolve(self) -> StoreModel {
        StoreModel {
            table_name: match self.table_name {
                Some(name) => name,
                None => DEFAULT_TABLE_NAME@,
            },
            vector_size: self.vector_size,
            batch_size: match self.batch_size {
                Some(n) => n,
                None => DEFAULT_BATCH_SIZE,
            },
            fields: self.declared(),
        }
    }
}

/// Collects the parts of a [`PgVector`] and validates them in
/// [`build`](PgVectorBuilder::build).
#[derive(Debug, Clone)]
pub struct PgVectorBuilder {
    table_name: Option<String>,
    vector_size: Option<i32>,
    batch_size: Option<usize>,
    fields: Option<Vec<FieldConfig>>,
}

impl View for PgVectorBuilder {
    type V = BuilderModel;

    closed spec fn view(&self) -> BuilderModel {
        BuilderModel {
            table_name: match self.table_name {
                Some(name) => Some(name@),
                None => None,
            },
            vector_size: self.vector_size,
            batch_size: self.batch_size,
            fields: match self.fields {
                Some(fields) => Some(field_models(fields@)),
                None => None,
            },
        }
    }
}

impl Default for PgVectorBuilder {
    fn default() -> (out: Self)
        ensures
            out@ == BuilderModel::unset(),
    {
        PgVectorBuilder { table_name: None, vector_size: None, batch_size: None, fields: None }
    }
}

impl PgVectorBuilder {
    /// The fields of a table for which none were declared.
    pub fn default_fields() -> (out: Vec<FieldConfig>)
        ensures
            field_models(out@) == default_field_models(),
    {
        let mut out: Vec<FieldConfig> = Vec::new();
        out.push(FieldConfig::ID);
        out.push(FieldConfig::Chunk);
        assert(field_models(out@) =~= default_field_models());
        out
    }

    /// Names the table.
    pub fn table_name(&mut self, value: String) -> (out: &mut Self)
        ensures
            out@ == (BuilderModel { table_name: Some(value@), ..old(self)@ }),
            *final(self) == *final(out),
    {
        self.table_name = Some(value);
        self
    }

    /// Sets the dimension of the vector fields that name none of their own.
    pub fn vector_size(&mut self, value: i32) -> (out: &mut Self)
        ensures
            out@ == (BuilderModel { vector_size: Some(value), ..old(self)@ }),
            *final(self) == *final(out),
    {
        self.vector_size = Some(value);
        self
    }

    /// Sets the number of nodes per write.
    pub fn batch_size(&mut self, value: usize) -> (out: &mut Self)
        ensures
            out@ == (BuilderModel { batch_size: Some(value), ..old(self)@ }),
            *final(self) == *final(out),
    {
        self.batch_size = Some(value);
        self
    }

    /// Replaces the fields declared so far.
    pub fn fields(&mut self, value: Vec<FieldConfig>) -> (out: &mut Self)
        ensures
            out@ == (BuilderModel { fields: Some(field_models(value@)), ..old(self)@ }),
            *final(self) == *final(out),
    {
        self.fields = Some(value);
        self
    }

    fn push_field(&mut self, field: FieldConfig)
        ensures
            final(self)@ == (BuilderModel {
                fields: Some(old(self)@.declared().push(field@)),
                ..old(self)@
            }),
    {
        let mut fields = match self.fields.take() {
            Some(fields) => fields,
            None => Self::default_fields(),
        };
        assert(field_models(fields@) == old(self)@.declared());
        fields.push(field);
        assert(field_models(fields@) =~= old(self)@.declared().push(field@));
        self.fields = Some(fields);
    }

    /// Declares one more vector field, after those declared so far. The
    /// first declaration is added to the default fields.
    pub fn with_vector(&mut self, config: VectorConfig) -> (out: &mut Self)
        ensures
            out@ == (BuilderModel {
                fields: Some(old(self)@.declared().push(config@)),
                ..old(self)@
            }),
            *final(self) == *final(out),
    {
        self.push_field(FieldConfig::Vector(config));
        self
    }

    /// Declares one more metadata field, after those declared so far. The
    /// first declaration is added to the default fields.
    pub fn with_metadata(&mut self, config: MetadataConfig) -> (out: &mut Self)
        ensures
            out@ == (BuilderModel {
                fields: Some(old(self)@.declared().push(config@)),
                ..old(self)@
            }),
            *final(self) == *final(out),
    {
        self.push_field(FieldConfig::Metadata(config));
        self
    }

    /// Makes the store, or says what is wrong with the configuration.
    pub fn build(&self) -> (out: Result<PgVector, ConfigError>)
        ensures
            match self@.resolve().error() {
                Some(e) => out == Err::<PgVector, ConfigError>(e),
                None => out is Ok && out->Ok_0@ == self@.resolve(),
            },
    {
        let table_name = match &self.table_name {
            Some(name) => name.clone(),
            None => String::from_str(DEFAULT_TABLE_NAME),
        };
        let batch_size = match self.batch_size {
            Some(n) => n,
            None => DEFAULT_BATCH_SIZE,
        };
        let fields = match &self.fields {
            Some(fields) => clone_fields(fields),
            None => Self::default_fields(),
        };
        match validate(table_name.as_str(), self.vector_size, batch_size, &fields) {
            Some(e) => Err(e),
            None => Ok(PgVector { table_name, vector_size: self.vector_size, batch_size, fields }),
        }
    }
}

/// Every name that a valid configuration gives to a statement is a valid
/// identifier: the table name and the column name of each field. No
/// character of a logical field name reaches a statement unchanged unless
/// it is a lower-case ASCII letter or an ASCII digit.
pub proof fn lemma_names_are_identifiers(store: StoreModel)
    requires
        store.valid(),
    ensures
        is_valid_identifier(store.table_name),
        forall|k: int|
            0 <= k < store.fields.len() ==> is_valid_identifier(
                (#[trigger] store.fields[k]).column(),
            ),
{
    assert forall|k: int| 0 <= k < store.fields.len() implies is_valid_identifier(
        (#[trigger] store.fields[k]).column(),
    ) by {
        lemma_column_is_plain(store.fields[k]);
    }
}

/// In a valid configuration no two fields are stored in the same column.
/// So exactly one field is the identifier and exactly one the chunk, no two
/// vector fields have the same logical name and no two metadata fields the
/// same key.
pub proof fn lemma_valid_fields(store: StoreModel)
    requires
        store.valid(),
    ensures
        forall|i: int, j: int|
            0 <= i < store.fields.len() && 0 <= j < store.fields.len() && i != j ==> (
            #[trigger] store.fields[i]).column() != (#[trigger] store.fields[j]).column(),
        forall|i: int, j: int|
            0 <= i < store.fields.len() && 0 <= j < store.fields.len() && i != j ==> (
            #[trigger] store.fields[i]) != (#[trigger] store.fields[j]),
        exists|i: int| 0 <= i < store.fields.len() && #[trigger] store.fields[i] == FieldModel::Id,
        exists|i: int|
            0 <= i < store.fields.len() && #[trigger] store.fields[i] == FieldModel::Chunk,
        forall|i: int, j: int|
            0 <= i < store.fields.len() && 0 <= j < store.fields.len() && i != j ==> match (
                #[trigger] store.fields[i],
                #[trigger] store.fields[j],
            ) {
                (
                    FieldModel::Vector { name: a, .. },
                    FieldModel::Vector { name: b, .. },
                ) => a != b,
                (FieldModel::Metadata { key: a }, FieldModel::Metadata { key: b }) => a != b,
                _ => true,
            },
{
    assert forall|i: int, j: int|
        0 <= i < store.fields.len() && 0 <= j < store.fields.len() && i != j implies (
    #[trigger] store.fields[i]).column() != (#[trigger] store.fields[j]).column() by {
        if i < j {
            assert(!(store.fields[i].column() == store.fields[j].column()));
        } else {
            assert(!(store.fields[j].column() == store.fields[i].column()));
        }
    }
}

} // verus!
