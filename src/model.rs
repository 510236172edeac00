use vstd::prelude::*;
use crate::error::MappingError;
use crate::value::{row_view, SqlValue, Value};

verus! {

/// A named many-to-many association, told apart in the junction table by
/// this discriminator.
#[derive(Clone, Copy, Debug, PartialEq, Eq, Structural)]
pub enum Relation {
    Proficiencies,
    Languages,
}

/// The discriminator stored for a relation.
pub open spec fn relation_name(rel: Relation) -> Seq<char> {
    match rel {
        Relation::Proficiencies => "proficiencies"@,
        Relation::Languages => "languages"@,
    }
}

impl Relation {
    /// The discriminator stored in the junction table for this relation.
    pub fn name(&self) -> (r: String)
        ensures
            r@ == relation_name(*self),
    {
        match self {
            Relation::Proficiencies => "proficiencies".to_owned(),
            Relation::Languages => "languages".to_owned(),
        }
    }
}

/// What a record type states about itself so that the generic repository can
/// persist it: its table, its columns, how it becomes a row and how it is
/// rebuilt from one, its identity and the relations it declares.
///
/// The first column of every table is the record's identifier.
pub trait Model: Sized + View {
    /// The row that a record binds, column by column.
    spec fn encode(v: Self::V) -> Seq<Value>;

    /// The record that a row rebuilds, or the first column's error.
    spec fn decode(row: Seq<Value>) -> Result<Self::V, MappingError>;

    /// Every field fits the store's column types.
    spec fn storable(v: Self::V) -> bool;

    /// The record's identifier, if it was persisted.
    spec fn key(v: Self::V) -> Option<i64>;

    /// The name of the primary table.
    spec fn table() -> Seq<char>;

    /// The column definitions of the primary table.
    spec fn schema_text() -> Seq<char>;

    /// The column names, comma-separated, in row order.
    spec fn columns() -> Seq<char>;

    /// One positional placeholder per column, comma-separated.
    spec fn placeholders() -> Seq<char>;

    /// The same record under the identifier `id`.
    spec fn with_key(v: Self::V, id: i64) -> Self::V;

    /// The number of columns.
    spec fn arity() -> nat;

    /// Whether the type declares the relation.
    spec fn declares(rel: Relation) -> bool;

    /// The related identifiers a record declares for a relation.
    spec fn related(&self, rel: Relation) -> Seq<i64>;

    /// A storable record's row rebuilds the same record; the row has one
    /// value per column and starts with the identifier.
    proof fn lemma_round_trip(v: Self::V)
        requires
            Self::storable(v),
        ensures
            Self::decode(Self::encode(v)) == Ok::<Self::V, MappingError>(v),
            Self::encode(v).len() == Self::arity(),
            Self::encode(v).len() > 0,
            Self::encode(v)[0] == key_value(Self::key(v)),
    ;

    /// Giving a record an identifier changes its row in the first column only.
    proof fn lemma_with_key(v: Self::V, id: i64)
        ensures
            Self::encode(Self::with_key(v, id)) == Self::encode(v).update(0, Value::Integer(id)),
            Self::key(Self::with_key(v, id)) == Some(id),
            Self::storable(v) ==> Self::storable(Self::with_key(v, id)),
    ;

    /// A row that decodes starts with the decoded record's identifier.
    proof fn lemma_decoded_key(row: Seq<Value>)
        requires
            Self::decode(row) is Ok,
        ensures
            row.len() > 0,
            row[0] == key_value(Self::key(Self::decode(row)->Ok_0)),
    ;

    fn table_name() -> (r: String)
        ensures
            r@ == Self::table(),
    ;

    fn schema() -> (r: String)
        ensures
            r@ == Self::schema_text(),
    ;

    fn column_list() -> (r: String)
        ensures
            r@ == Self::columns(),
    ;

    fn placeholder_list() -> (r: String)
        ensures
            r@ == Self::placeholders(),
    ;

    fn is_storable(&self) -> (r: bool)
        ensures
            r == Self::storable(self@),
    ;

    fn bound_parameters(&self) -> (r: Vec<SqlValue>)
        requires
            Self::storable(self@),
        ensures
            row_view(r@) == Self::encode(self@),
    ;

    fn from_row(row: &Vec<SqlValue>) -> (r: Result<Self, MappingError>)
        ensures
            match r {
                Ok(x) => Self::decode(row_view(row@)) == Ok::<Self::V, MappingError>(x@),
                Err(e) => Self::decode(row_view(row@)) == Err::<Self::V, MappingError>(e),
            },
    ;

    fn identifier(&self) -> (r: Option<i64>)
        ensures
            r == Self::key(self@),
    ;

    fn declares_relation(rel: Relation) -> (r: bool)
        ensures
            r == Self::declares(rel),
    ;

    fn related_ids(&self, rel: Relation) -> (r: Option<Vec<i64>>)
        ensures
            r is Some <==> Self::declares(rel),
            r is Some ==> r->Some_0@ == self.related(rel),
    ;
}

/// How an identifier is stored in the first column.
pub open spec fn key_value(k: Option<i64>) -> Value {
    match k {
        Some(i) => Value::Integer(i),
        None => Value::Null,
    }
}

/// For every record type, a storable record survives the trip through its
/// row: rebuilding from the row bound for `v` gives back `v` in every field.
pub proof fn lemma_row_round_trip<T: Model>(v: T::V)
    requires
        T::storable(v),
    ensures
        T::decode(T::encode(v)) == Ok::<T::V, MappingError>(v),
{
    T::lemma_round_trip(v);
}

} // verus!
