//! The persistence engine: from a batch of nodes to the one statement that
//! writes them and the arrays bound to its parameters.

use crate::config::{columns, resolved_dimension, PgVector, StoreModel};
use crate::error::PersistError;
use crate::fields::{field_models, FieldConfig, FieldModel};
use crate::text::{decimal, join, join_texts, lemma_filter_map_keeps, push_decimal, texts};
use crate::transaction::Outcome;
use vstd::pervasive::unreached;
use vstd::prelude::*;

verus! {

/// A chunk of a document with what was derived from it.
///
/// `E` is the type of a vector's components and `M` that of a metadata
/// value; the store looks into neither. Where a name occurs twice among the
/// vectors or the metadata, the first entry counts.
#[derive(Debug, Clone, PartialEq)]
pub struct Node<E, M> {
    /// The identifier, the key under which the node is stored.
    pub id: u128,
    /// The text of the chunk.
    pub chunk: String,
    /// The embeddings, each under the logical name of its vector field.
    pub vectors: Vec<(String, Vec<E>)>,
    /// The metadata attributes, each under its key.
    pub metadata: Vec<(String, M)>,
}

/// The value stored under `name`: that of the first entry with this name.
pub open spec fn lookup<V>(entries: Seq<(String, V)>, name: Seq<char>) -> Option<V>
    decreases entries.len(),
{
    if entries.len() == 0 {
        None
    } else if entries[0].0@ == name {
        Some(entries[0].1)
    } else {
        lookup(entries.drop_first(), name)
    }
}

/// A reference to what `value` holds.
pub open spec fn borrowed<'a, V>(value: Option<V>) -> Option<&'a V> {
    match value {
        Some(v) => Some(&v),
        None => None,
    }
}

/// The value stored under `name`.
pub fn find<'a, V>(entries: &'a Vec<(String, V)>, name: &String) -> (out: Option<&'a V>)
    ensures
        out == borrowed(lookup(entries@, name@)),
{
    let mut i: usize = 0;
    assert(entries@.skip(0) =~= entries@);
    while i < entries.len()
        invariant
            i <= entries.len(),
            lookup(entries@, name@) == lookup(entries@.skip(i as int), name@),
        decreases entries.len() - i,
    {
        proof {
            assert(entries@.skip(i as int).drop_first() =~= entries@.skip(i + 1));
            assert(entries@.skip(i as int)[0] == entries@[i as int]);
        }
        if entries[i].0 == *name {
            return Some(&entries[i].1);
        }
        i += 1;
    }
    None
}

/// The values bound to one parameter of the write: one array with an
/// element for each node of the batch, in the order of the batch.
#[derive(Debug)]
pub enum BulkColumn<'a, E, M> {
    /// The identifiers.
    Ids(Vec<u128>),
    /// The chunks.
    Chunks(Vec<&'a str>),
    /// The values of the metadata attribute `key`; `None` for a node that
    /// has no such attribute. Each value is stored as a document with the
    /// one member `key`.
    Metadata { key: &'a str, values: Vec<Option<&'a M>> },
    /// The vectors of one vector field; `None` for a node that has none
    /// for this field.
    Vectors(Vec<Option<&'a Vec<E>>>),
}

/// The identifiers of the nodes.
pub open spec fn ids_of<E, M>(nodes: Seq<Node<E, M>>) -> Seq<u128> {
    nodes.map_values(|n: Node<E, M>| n.id)
}

/// The chunks of the nodes.
pub open spec fn chunk_texts<E, M>(nodes: Seq<Node<E, M>>) -> Seq<Seq<char>> {
    nodes.map_values(|n: Node<E, M>| n.chunk@)
}

/// For each node the value of its metadata attribute `key`.
pub open spec fn metadata_of<'a, E, M>(nodes: Seq<Node<E, M>>, key: Seq<char>) -> Seq<
    Option<&'a M>,
> {
    nodes.map_values(|n: Node<E, M>| borrowed(lookup(n.metadata@, key)))
}

/// For each node its vector of the logical name `name`.
pub open spec fn vectors_of<'a, E, M>(nodes: Seq<Node<E, M>>, name: Seq<char>) -> Seq<
    Option<&'a Vec<E>>,
> {
    nodes.map_values(|n: Node<E, M>| borrowed(lookup(n.vectors@, name)))
}

/// `column` holds, for each node, what the node has for `field`.
pub open spec fn column_holds<E, M>(
    column: BulkColumn<E, M>,
    field: FieldModel,
    nodes: Seq<Node<E, M>>,
) -> bool {
    match field {
        FieldModel::Id => column matches BulkColumn::Ids(ids) && ids@ == ids_of(nodes),
        FieldModel::Chunk => column matches BulkColumn::Chunks(chunks) && chunks@.map_values(
            |c: &str| c@,
        ) == chunk_texts(nodes),
        FieldModel::Metadata { key } => column matches BulkColumn::Metadata { key: k, values }
            && k@ == key && values@ == metadata_of(nodes, key),
        FieldModel::Vector { name, .. } => column matches BulkColumn::Vectors(values) && values@
            == vectors_of(nodes, name),
    }
}

/// The vectors hold one for `field` whose length is not the dimension of
/// `field`.
pub open spec fn vector_mismatch<E>(
    vectors: Seq<(String, Vec<E>)>,
    field: FieldModel,
    default: Option<i32>,
) -> bool {
    match field {
        FieldModel::Vector { name, .. } => match lookup(vectors, name) {
            Some(v) => v.len() != resolved_dimension(field, default)->0,
            None => false,
        },
        _ => false,
    }
}

/// Some node of the batch has, for some vector field, a vector of another
/// length than the field's dimension.
pub open spec fn has_mismatch<E, M>(store: StoreModel, nodes: Seq<Node<E, M>>) -> bool {
    exists|i: int, k: int|
        0 <= i < nodes.len() && 0 <= k < store.fields.len() && #[trigger] vector_mismatch(
            nodes[i].vectors@,
            store.fields[k],
            store.vector_size,
        )
}

fn id_column<E, M>(nodes: &Vec<Node<E, M>>) -> (out: Vec<u128>)
    ensures
        out@ == ids_of(nodes@),
{
    let mut out: Vec<u128> = Vec::new();
    let mut i: usize = 0;
    while i < nodes.len()
        invariant
            i <= nodes.len(),
            out.len() == i,
            forall|j: int| 0 <= j < i ==> out@[j] == nodes@[j].id,
        decreases nodes.len() - i,
    {
        out.push(nodes[i].id);
        i += 1;
    }
    assert(out@ =~= ids_of(nodes@));
    out
}

fn chunk_column<'a, E, M>(nodes: &'a Vec<Node<E, M>>) -> (out: Vec<&'a str>)
    ensures
        out@.map_values(|c: &str| c@) == chunk_texts(nodes@),
{
    let mut out: Vec<&'a str> = Vec::new();
    let mut i: usize = 0;
    while i < nodes.len()
        invariant
            i <= nodes.len(),
            out.len() == i,
            forall|j: int| 0 <= j < i ==> (#[trigger] out@[j])@ == nodes@[j].chunk@,
        decreases nodes.len() - i,
    {
        out.push(nodes[i].chunk.as_str());
        i += 1;
    }
    assert(out@.map_values(|c: &str| c@) =~= chunk_texts(nodes@));
    out
}

fn metadata_values<'a, E, M>(nodes: &'a Vec<Node<E, M>>, key: &String) -> (out: Vec<
    Option<&'a M>,
>)
    ensures
        out@ == metadata_of(nodes@, key@),
{
    let mut out: Vec<Option<&'a M>> = Vec::new();
    let mut i: usize = 0;
    while i < nodes.len()
        invariant
            i <= nodes.len(),
            out.len() == i,
            forall|j: int|
                0 <= j < i ==> out@[j] == borrowed(lookup((#[trigger] nodes@[j]).metadata@, key@)),
        decreases nodes.len() - i,
    {
        out.push(find(&nodes[i].metadata, key));
        i += 1;
    }
    assert(out@ =~= metadata_of(nodes@, key@));
    out
}

fn vector_values<'a, E, M>(nodes: &'a Vec<Node<E, M>>, name: &String, dimension: i32) -> (out:
    Result<Vec<Option<&'a Vec<E>>>, usize>)
    requires
        dimension >= 1,
    ensures
        match out {
            Ok(values) => values@ == vectors_of(nodes@, name@) && forall|i: int|
                0 <= i < nodes.len() ==> match lookup((#[trigger] nodes@[i]).vectors@, name@) {
                    Some(v) => v.len() == dimension,
                    None => true,
                },
            Err(i) => i < nodes.len() && match lookup(nodes@[i as int].vectors@, name@) {
                Some(v) => v.len() != dimension,
                None => false,
            },
        },
{
    let mut out: Vec<Option<&'a Vec<E>>> = Vec::new();
    let mut i: usize = 0;
    while i < nodes.len()
        invariant
            i <= nodes.len(),
            out.len() == i,
            dimension >= 1,
            forall|j: int|
                0 <= j < i ==> out@[j] == borrowed(lookup((#[trigger] nodes@[j]).vectors@, name@)),
            forall|j: int|
                0 <= j < i ==> match lookup((#[trigger] nodes@[j]).vectors@, name@) {
                    Some(v) => v.len() == dimension,
                    None => true,
                },
        decreases nodes.len() - i,
    {
        let vector = find(&nodes[i].vectors, name);
        if let Some(v) = vector {
            if v.len() != dimension as usize {
                return Err(i);
            }
        }
        out.push(vector);
        i += 1;
    }
    assert(out@ =~= vectors_of(nodes@, name@));
    Ok(out)
}

/// The type of the array bound for `field`.
pub open spec fn array_type(field: FieldModel) -> Seq<char> {
    match field {
        FieldModel::Id => "UUID[]"@,
        FieldModel::Chunk => "TEXT[]"@,
        FieldModel::Metadata { .. } => "JSONB[]"@,
        FieldModel::Vector { .. } => "VECTOR[]"@,
    }
}

/// The parameter that carries the array for the field at place `k`.
pub open spec fn unnest_item(field: FieldModel, k: int) -> Seq<char> {
    "$"@ + decimal((k + 1) as nat) + "::"@ + array_type(field)
}

/// The parameters of all fields, in the order of the fields.
pub open spec fn unnest_items(fields: Seq<FieldModel>) -> Seq<Seq<char>> {
    Seq::new(fields.len(), |k: int| unnest_item(fields[k], k))
}

/// The columns as they are read from the unnested arrays.
pub open spec fn select_items(fields: Seq<FieldModel>) -> Seq<Seq<char>> {
    fields.map_values(|f: FieldModel| "t."@ + f.column())
}

/// The assignment that overwrites the column of `field` with the incoming
/// value; none for the identifier, which is the key of the conflict.
pub open spec fn update_for() -> spec_fn(FieldModel) -> Option<Seq<char>> {
    |f: FieldModel|
        if f is Id {
            None
        } else {
            Some(f.column() + " = EXCLUDED."@ + f.column())
        }
}

/// The assignments for all fields but the identifier.
pub open spec fn update_items(fields: Seq<FieldModel>) -> Seq<Seq<char>> {
    fields.filter_map(update_for())
}

/// The statement that writes a batch: one row for each element of the
/// arrays bound to its parameters, and for a row whose identifier is stored
/// already, every other column overwritten.
pub open spec fn upsert_sql(store: StoreModel) -> Seq<char> {
    "INSERT INTO "@ + store.table_name + " ("@ + join(columns(store.fields), ", "@) + ") SELECT "@
        + join(select_items(store.fields), ", "@) + " FROM UNNEST("@ + join(
        unnest_items(store.fields),
        ", "@,
    ) + ") AS t("@ + join(columns(store.fields), ", "@) + ") ON CONFLICT (id) DO UPDATE SET "@
        + join(update_items(store.fields), ", "@)
}

/// A write ready to be sent: the statement and, for each of its
/// parameters, the array bound to it.
#[derive(Debug)]
pub struct StoreRequest<'a, E, M> {
    /// The statement.
    pub sql: String,
    /// The arrays; the one at place `k` belongs to parameter `k + 1`.
    pub columns: Vec<BulkColumn<'a, E, M>>,
}

/// The arrays hold the batch: one array for each field, in the order of
/// the fields.
pub open spec fn columns_hold<E, M>(
    data: Seq<BulkColumn<E, M>>,
    fields: Seq<FieldModel>,
    nodes: Seq<Node<E, M>>,
) -> bool {
    &&& data.len() == fields.len()
    &&& forall|k: int| 0 <= k < fields.len() ==> column_holds(#[trigger] data[k], fields[k], nodes)
}

impl PgVector {
    /// The statement that writes a batch.
    pub fn generate_unnest_upsert_sql(&self) -> (out: String)
        ensures
            out@ == upsert_sql(self@),
    {
        let fields = self.fields();
        let ghost models = self@.fields;
        let mut names: Vec<String> = Vec::new();
        let mut selected: Vec<String> = Vec::new();
        let mut parameters: Vec<String> = Vec::new();
        let mut updates: Vec<String> = Vec::new();
        let mut k: usize = 0;
        assert(models.take(0).filter_map(update_for()) =~= Seq::<Seq<char>>::empty());
        while k < fields.len()
            invariant
                k <= fields.len(),
                models == field_models(fields@),
                names.len() == k,
                selected.len() == k,
                parameters.len() == k,
                forall|j: int| 0 <= j < k ==> (#[trigger] names@[j])@ == models[j].column(),
                forall|j: int|
                    0 <= j < k ==> (#[trigger] selected@[j])@ == "t."@ + models[j].column(),
                forall|j: int|
                    0 <= j < k ==> (#[trigger] parameters@[j])@ == unnest_item(models[j], j),
                texts(updates@) == models.take(k as int).filter_map(update_for()),
            decreases fields.len() - k,
        {
            proof {
                models.lemma_filter_map_take_succ(update_for(), k as int);
                assert(models[k as int] == fields@[k as int]@);
            }
            let field = &fields[k];
            let name = field.field_name();
            let mut item = String::from_str("t.");
            item.append(name.as_str());
            selected.push(item);
            let mut parameter = String::from_str("$");
            push_decimal(&mut parameter, (k + 1) as u64);
            parameter.append("::");
            parameter.append(
                match field {
                    FieldConfig::ID => "UUID[]",
                    FieldConfig::Chunk => "TEXT[]",
                    FieldConfig::Metadata(_) => "JSONB[]",
                    FieldConfig::Vector(_) => "VECTOR[]",
                },
            );
            parameters.push(parameter);
            let is_id = match field {
                FieldConfig::ID => true,
                _ => false,
            };
            if !is_id {
                let mut update = name.clone();
                update.append(" = EXCLUDED.");
                update.append(name.as_str());
                assert((update_for())(models[k as int]) == Some(update@));
                let ghost before = texts(updates@);
                updates.push(update);
                assert(texts(updates@) =~= before + seq![update@]);
            }
            names.push(name);
            k += 1;
        }
        proof {
            assert(models.take(models.len() as int) =~= models);
            assert(texts(names@) =~= columns(models));
            assert(texts(selected@) =~= select_items(models));
            assert(texts(parameters@) =~= unnest_items(models));
        }
        let column_list = join_texts(&names, ", ");
        let mut out = String::from_str("INSERT INTO ");
        out.append(self.table_name());
        out.append(" (");
        out.append(column_list.as_str());
        out.append(") SELECT ");
        out.append(join_texts(&selected, ", ").as_str());
        out.append(" FROM UNNEST(");
        out.append(join_texts(&parameters, ", ").as_str());
        out.append(") AS t(");
        out.append(column_list.as_str());
        out.append(") ON CONFLICT (id) DO UPDATE SET ");
        out.append(join_texts(&updates, ", ").as_str());
        out
    }

    /// The arrays that carry a batch: for each field, in the order of the
    /// fields, what each node has for it. A vector whose length is not the
    /// dimension of its field makes the whole batch fail.
    pub fn prepare_bulk_data<'a, E, M>(&'a self, nodes: &'a Vec<Node<E, M>>) -> (out: Result<
        Vec<BulkColumn<'a, E, M>>,
        PersistError,
    >)
        ensures
            match out {
                Ok(data) => !has_mismatch(self@, nodes@) && columns_hold(
                    data@,
                    self@.fields,
                    nodes@,
                ),
                Err(e) => e == PersistError::DimensionMismatch && has_mismatch(self@, nodes@),
            },
    {
        let fields = self.fields();
        let ghost models = self@.fields;
        let mut data: Vec<BulkColumn<'a, E, M>> = Vec::new();
        let mut k: usize = 0;
        while k < fields.len()
            invariant
                k <= fields.len(),
                models == field_models(fields@),
                models == self@.fields,
                data.len() == k,
                forall|j: int| 0 <= j < k ==> column_holds(#[trigger] data@[j], models[j], nodes@),
                forall|i: int, j: int|
                    0 <= i < nodes.len() && 0 <= j < k ==> !#[trigger] vector_mismatch(
                        nodes@[i].vectors@,
                        models[j],
                        self@.vector_size,
                    ),
            decreases fields.len() - k,
        {
            assert(models[k as int] == fields@[k as int]@);
            let column = match &fields[k] {
                FieldConfig::ID => BulkColumn::Ids(id_column(nodes)),
                FieldConfig::Chunk => BulkColumn::Chunks(chunk_column(nodes)),
                FieldConfig::Metadata(config) => BulkColumn::Metadata {
                    key: config.key.as_str(),
                    values: metadata_values(nodes, &config.key),
                },
                FieldConfig::Vector(config) => match self.dimension(k) {
                    Some(dimension) => match vector_values(nodes, &config.name, dimension) {
                        Ok(values) => BulkColumn::Vectors(values),
                        Err(i) => {
                            assert(vector_mismatch(
                                nodes@[i as int].vectors@,
                                models[k as int],
                                self@.vector_size,
                            ));
                            return Err(PersistError::DimensionMismatch);
                        },
                    },
                    None => unreached(),
                },
            };
            data.push(column);
            k += 1;
        }
        Ok(data)
    }

    /// The write of a batch: the statement and the arrays for its
    /// parameters. The whole batch goes into this one statement, so either
    /// all of its nodes are stored or none is.
    pub fn store_request<'a, E, M>(&'a self, nodes: &'a Vec<Node<E, M>>) -> (out: Result<
        StoreRequest<'a, E, M>,
        PersistError,
    >)
        ensures
            match out {
                Ok(request) => !has_mismatch(self@, nodes@) && request.sql@ == upsert_sql(self@)
                    && columns_hold(request.columns@, self@.fields, nodes@),
                Err(e) => e == PersistError::DimensionMismatch && has_mismatch(self@, nodes@),
            },
    {
        match self.prepare_bulk_data(nodes) {
            Ok(columns) => Ok(StoreRequest { sql: self.generate_unnest_upsert_sql(), columns }),
            Err(e) => Err(e),
        }
    }
}

/// What a finished write transaction means for the batch: its nodes are
/// stored if the transaction was committed, and none of them is otherwise.
pub fn store_result<E, M>(nodes: Vec<Node<E, M>>, outcome: Outcome) -> (out: Result<
    Vec<Node<E, M>>,
    PersistError,
>)
    ensures
        out == if outcome == Outcome::Committed {
            Ok::<Vec<Node<E, M>>, PersistError>(nodes)
        } else {
            Err::<Vec<Node<E, M>>, PersistError>(PersistError::WriteFailed)
        },
{
    match outcome {
        Outcome::Committed => Ok(nodes),
        _ => Err(PersistError::WriteFailed),
    }
}

/// What a finished write transaction means for a single node, written as a
/// batch of one: the node is handed back if it was stored.
pub fn store_one_result<E, M>(node: Node<E, M>, outcome: Outcome) -> (out: Result<
    Node<E, M>,
    PersistError,
>)
    ensures
        out == if outcome == Outcome::Committed {
            Ok::<Node<E, M>, PersistError>(node)
        } else {
            Err::<Node<E, M>, PersistError>(PersistError::WriteFailed)
        },
{
    match outcome {
        Outcome::Committed => Ok(node),
        _ => Err(PersistError::WriteFailed),
    }
}

/// A write overwrites every column but the identifier: for each field that
/// is not the identifier, the statement assigns the incoming value to the
/// field's column, and it assigns nothing to the identifier.
pub proof fn lemma_upsert_overwrites(store: StoreModel)
    ensures
        forall|k: int|
            0 <= k < store.fields.len() && !((#[trigger] store.fields[k]) is Id) ==> update_items(
                store.fields,
            ).contains(store.fields[k].column() + " = EXCLUDED."@ + store.fields[k].column()),
        forall|item: Seq<char>| #[trigger]
            update_items(store.fields).contains(item) ==> exists|k: int|
                0 <= k < store.fields.len() && !((#[trigger] store.fields[k]) is Id) && item
                    == store.fields[k].column() + " = EXCLUDED."@ + store.fields[k].column(),
{
    let fields = store.fields;
    assert forall|k: int|
        0 <= k < fields.len() && !((#[trigger] fields[k]) is Id) implies update_items(
        fields,
    ).contains(fields[k].column() + " = EXCLUDED."@ + fields[k].column()) by {
        lemma_filter_map_keeps(fields, update_for(), k);
    }
    assert forall|item: Seq<char>| #[trigger] update_items(fields).contains(item) implies exists|
        k: int,
    |
        0 <= k < fields.len() && !((#[trigger] fields[k]) is Id) && item == fields[k].column()
            + " = EXCLUDED."@ + fields[k].column() by {
        fields.lemma_filter_map_contains(update_for(), item);
        let field = choose|t: FieldModel| #[trigger]
            fields.contains(t) && (update_for())(t) == Some(item);
        let k = choose|k: int| 0 <= k < fields.len() && fields[k] == field;
        assert(!(fields[k] is Id));
    }
}

} // verus!
