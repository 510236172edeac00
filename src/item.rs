use vstd::prelude::*;
use crate::error::MappingError;
use crate::model::{key_value, Model, Relation};
use crate::value::{
    col_opt_i64, col_text, col_unsigned, opt_i64_value, read_opt_i64, read_text, read_u16,
    read_u64, text_value, SqlValue, Value,
};

verus! {

/// How rare an item is.
#[derive(Clone, Copy, Debug, PartialEq, Eq, Structural)]
pub enum ItemRarity {
    Common,
    Uncommon,
    Rare,
    VeryRare,
    Legendary,
    Unknown,
}

/// The canonical name of a rarity.
pub open spec fn rarity_name(r: ItemRarity) -> Seq<char> {
    match r {
        ItemRarity::Common => "Common"@,
        ItemRarity::Uncommon => "Uncommon"@,
        ItemRarity::Rare => "Rare"@,
        ItemRarity::VeryRare => "VeryRare"@,
        ItemRarity::Legendary => "Legendary"@,
        ItemRarity::Unknown => "Unknown"@,
    }
}

/// The rarity whose canonical name is `s`.
pub open spec fn rarity_of(s: Seq<char>) -> Result<ItemRarity, MappingError> {
    if s == "Common"@ {
        Ok(ItemRarity::Common)
    } else if s == "Uncommon"@ {
        Ok(ItemRarity::Uncommon)
    } else if s == "Rare"@ {
        Ok(ItemRarity::Rare)
    } else if s == "VeryRare"@ {
        Ok(ItemRarity::VeryRare)
    } else if s == "Legendary"@ {
        Ok(ItemRarity::Legendary)
    } else if s == "Unknown"@ {
        Ok(ItemRarity::Unknown)
    } else {
        Err(MappingError::UnknownEnumValue)
    }
}

/// Every rarity parses back from its name, and a string parses exactly when
/// it is the name of some rarity; any other string is an unknown value.
pub proof fn lemma_rarity_round_trip(r: ItemRarity, s: Seq<char>)
    ensures
        rarity_of(rarity_name(r)) == Ok::<ItemRarity, MappingError>(r),
        rarity_of(s) is Ok ==> rarity_name(rarity_of(s)->Ok_0) == s,
        rarity_of(s) is Err ==> rarity_of(s) == Err::<ItemRarity, MappingError>(
            MappingError::UnknownEnumValue,
        ),
{
    reveal_strlit("Common");
    reveal_strlit("Uncommon");
    reveal_strlit("Rare");
    reveal_strlit("VeryRare");
    reveal_strlit("Legendary");
    reveal_strlit("Unknown");
    assert("Common"@.len() == 6 && "Common"@[0] == 'C');
    assert("Uncommon"@.len() == 8 && "Uncommon"@[0] == 'U');
    assert("Rare"@.len() == 4 && "Rare"@[0] == 'R');
    assert("VeryRare"@.len() == 8 && "VeryRare"@[0] == 'V');
    assert("Legendary"@.len() == 9 && "Legendary"@[0] == 'L');
    assert("Unknown"@.len() == 7 && "Unknown"@[0] == 'U');
}

impl ItemRarity {
    /// The canonical name, as stored in the rarity column.
    pub fn name(&self) -> (r: String)
        ensures
            r@ == rarity_name(*self),
    {
        match self {
            ItemRarity::Common => "Common".to_owned(),
            ItemRarity::Uncommon => "Uncommon".to_owned(),
            ItemRarity::Rare => "Rare".to_owned(),
            ItemRarity::VeryRare => "VeryRare".to_owned(),
            ItemRarity::Legendary => "Legendary".to_owned(),
            ItemRarity::Unknown => "Unknown".to_owned(),
        }
    }

    /// The rarity named `s`; an unrecognised name is an error, never a default.
    pub fn parse(s: &str) -> (r: Result<ItemRarity, MappingError>)
        ensures
            r == rarity_of(s@),
    {
        let s = s.to_owned();
        if s == "Common".to_owned() {
            Ok(ItemRarity::Common)
        } else if s == "Uncommon".to_owned() {
            Ok(ItemRarity::Uncommon)
        } else if s == "Rare".to_owned() {
            Ok(ItemRarity::Rare)
        } else if s == "VeryRare".to_owned() {
            Ok(ItemRarity::VeryRare)
        } else if s == "Legendary".to_owned() {
            Ok(ItemRarity::Legendary)
        } else if s == "Unknown".to_owned() {
            Ok(ItemRarity::Unknown)
        } else {
            Err(MappingError::UnknownEnumValue)
        }
    }
}

/// An item of equipment.
#[derive(Clone, Debug)]
pub struct Item {
    pub id: Option<i64>,
    pub name: String,
    pub class: String,
    pub quantity: u16,
    pub rarity: Option<ItemRarity>,
    pub value: u16,
    pub weight: u64,
    pub properties: String,
    pub description: String,
}

/// The fields of an item, with text as characters.
pub struct ItemView {
    pub id: Option<i64>,
    pub name: Seq<char>,
    pub class: Seq<char>,
    pub quantity: u16,
    pub rarity: Option<ItemRarity>,
    pub value: u16,
    pub weight: u64,
    pub properties: Seq<char>,
    pub description: Seq<char>,
}

impl View for Item {
    type V = ItemView;

    open spec fn view(&self) -> ItemView {
        ItemView {
            id: self.id,
            name: self.name@,
            class: self.class@,
            quantity: self.quantity,
            rarity: self.rarity,
            value: self.value,
            weight: self.weight,
            properties: self.properties@,
            description: self.description@,
        }
    }
}

/// The rarity column: null when unset, otherwise the variant's name.
pub open spec fn rarity_value(r: Option<ItemRarity>) -> Value {
    match r {
        Some(x) => Value::Text(rarity_name(x)),
        None => Value::Null,
    }
}

pub open spec fn col_rarity(v: Value) -> Result<Option<ItemRarity>, MappingError> {
    match v {
        Value::Null => Ok(None),
        Value::Text(s) => match rarity_of(s) {
            Ok(r) => Ok(Some(r)),
            Err(e) => Err(e),
        },
        _ => Err(MappingError::TypeMismatch),
    }
}

fn read_rarity(v: &SqlValue) -> (r: Result<Option<ItemRarity>, MappingError>)
    ensures
        r == col_rarity(v@),
{
    match v {
        SqlValue::Null => Ok(None),
        SqlValue::Text(s) => match ItemRarity::parse(s.as_str()) {
            Ok(x) => Ok(Some(x)),
            Err(e) => Err(e),
        },
        _ => Err(MappingError::TypeMismatch),
    }
}

fn rarity_param(r: Option<ItemRarity>) -> (v: SqlValue)
    ensures
        v@ == rarity_value(r),
{
    match r {
        Some(x) => SqlValue::Text(x.name()),
        None => SqlValue::Null,
    }
}

pub open spec fn item_row(v: ItemView) -> Seq<Value> {
    seq![
        key_value(v.id),
        Value::Text(v.name),
        Value::Text(v.class),
        Value::Integer(v.quantity as i64),
        rarity_value(v.rarity),
        Value::Integer(v.value as i64),
        Value::Integer(v.weight as i64),
        Value::Text(v.properties),
        Value::Text(v.description),
    ]
}

pub open spec fn item_of_row(row: Seq<Value>) -> Result<ItemView, MappingError> {
    if row.len() != 9 {
        Err(MappingError::TypeMismatch)
    } else {
        match col_opt_i64(row[0]) {
            Err(e) => Err(e),
            Ok(id) => match col_text(row[1]) {
                Err(e) => Err(e),
                Ok(name) => match col_text(row[2]) {
                    Err(e) => Err(e),
                    Ok(class) => match col_unsigned(row[3], u16::MAX as int) {
                        Err(e) => Err(e),
                        Ok(quantity) => match col_rarity(row[4]) {
                            Err(e) => Err(e),
                            Ok(rarity) => match col_unsigned(row[5], u16::MAX as int) {
                                Err(e) => Err(e),
                                Ok(value) => match col_unsigned(row[6], u64::MAX as int) {
                                    Err(e) => Err(e),
                                    Ok(weight) => match col_text(row[7]) {
                                        Err(e) => Err(e),
                                        Ok(properties) => match col_text(row[8]) {
                                            Err(e) => Err(e),
                                            Ok(description) => Ok(
                                                ItemView {
                                                    id,
                                                    name,
                                                    class,
                                                    quantity: quantity as u16,
                                                    rarity,
                                                    value: value as u16,
                                                    weight: weight as u64,
                                                    properties,
                                                    description,
                                                },
                                            ),
                                        },
                                    },
                                },
                            },
                        },
                    },
                },
            },
        }
    }
}

impl Item {
    /// An empty item: no identifier, empty text, zero amounts, no rarity.
    pub fn new() -> (r: Item)
        ensures
            r.id is None,
            r.name@.len() == 0,
            r.class@.len() == 0,
            r.quantity == 0,
            r.rarity is None,
            r.value == 0,
            r.weight == 0,
            r.properties@.len() == 0,
            r.description@.len() == 0,
    {
        Item {
            id: None,
            name: String::new(),
            class: String::new(),
            quantity: 0,
            rarity: None,
            value: 0,
            weight: 0,
            properties: String::new(),
            description: String::new(),
        }
    }
}

impl Model for Item {
    open spec fn encode(v: ItemView) -> Seq<Value> {
        item_row(v)
    }

    open spec fn decode(row: Seq<Value>) -> Result<ItemView, MappingError> {
        item_of_row(row)
    }

    open spec fn storable(v: ItemView) -> bool {
        v.weight <= i64::MAX
    }

    open spec fn key(v: ItemView) -> Option<i64> {
        v.id
    }

    open spec fn table() -> Seq<char> {
        "items"@
    }

    open spec fn schema_text() -> Seq<char> {
        "id INTEGER PRIMARY KEY, name TEXT NOT NULL, class TEXT NOT NULL, quantity INTEGER, rarity TEXT, value INTEGER, weight INTEGER, properties TEXT NOT NULL, description TEXT NOT NULL"@
    }

    open spec fn columns() -> Seq<char> {
        "id, name, class, quantity, rarity, value, weight, properties, description"@
    }

    open spec fn placeholders() -> Seq<char> {
        "?1, ?2, ?3, ?4, ?5, ?6, ?7, ?8, ?9"@
    }

    open spec fn with_key(v: ItemView, id: i64) -> ItemView {
        ItemView { id: Some(id), ..v }
    }

    open spec fn arity() -> nat {
        9
    }

    open spec fn declares(rel: Relation) -> bool {
        false
    }

    open spec fn related(&self, rel: Relation) -> Seq<i64> {
        Seq::empty()
    }

    proof fn lemma_round_trip(v: ItemView) {
        lemma_rarity_round_trip(ItemRarity::Common, Seq::empty());
        if let Some(x) = v.rarity {
            lemma_rarity_round_trip(x, Seq::empty());
        }
        let row = item_row(v);
        assert(item_of_row(row) == Ok::<ItemView, MappingError>(v));
    }

    proof fn lemma_with_key(v: ItemView, id: i64) {
        assert(Self::encode(Self::with_key(v, id)) =~= Self::encode(v).update(0, Value::Integer(id)));
    }

    proof fn lemma_decoded_key(row: Seq<Value>) {
    }

    fn table_name() -> (r: String) {
        "items".to_owned()
    }

    fn schema() -> (r: String) {
        "id INTEGER PRIMARY KEY, name TEXT NOT NULL, class TEXT NOT NULL, quantity INTEGER, rarity TEXT, value INTEGER, weight INTEGER, properties TEXT NOT NULL, description TEXT NOT NULL".to_owned()
    }

    fn column_list() -> (r: String) {
        "id, name, class, quantity, rarity, value, weight, properties, description".to_owned()
    }

    fn placeholder_list() -> (r: String) {
        "?1, ?2, ?3, ?4, ?5, ?6, ?7, ?8, ?9".to_owned()
    }

    fn is_storable(&self) -> (r: bool) {
        self.weight <= i64::MAX as u64
    }

    fn bound_parameters(&self) -> (r: Vec<SqlValue>) {
        let mut params: Vec<SqlValue> = Vec::new();
        params.push(opt_i64_value(self.id));
        params.push(text_value(&self.name));
        params.push(text_value(&self.class));
        params.push(SqlValue::Integer(self.quantity as i64));
        params.push(rarity_param(self.rarity));
        params.push(SqlValue::Integer(self.value as i64));
        params.push(SqlValue::Integer(self.weight as i64));
        params.push(text_value(&self.properties));
        params.push(text_value(&self.description));
        assert(crate::value::row_view(params@) =~= item_row(self@));
        params
    }

    fn from_row(row: &Vec<SqlValue>) -> (r: Result<Item, MappingError>) {
        if row.len() != 9 {
            return Err(MappingError::TypeMismatch);
        }
        let ghost rv = crate::value::row_view(row@);
        assert(rv[0] == row@[0]@ && rv[1] == row@[1]@ && rv[2] == row@[2]@ && rv[3] == row@[3]@);
        assert(rv[4] == row@[4]@ && rv[5] == row@[5]@ && rv[6] == row@[6]@ && rv[7] == row@[7]@);
        assert(rv[8] == row@[8]@);
        let id = read_opt_i64(&row[0])?;
        let name = read_text(&row[1])?;
        let class = read_text(&row[2])?;
        let quantity = read_u16(&row[3])?;
        let rarity = read_rarity(&row[4])?;
        let value = read_u16(&row[5])?;
        let weight = read_u64(&row[6])?;
        let properties = read_text(&row[7])?;
        let description = read_text(&row[8])?;
        Ok(Item { id, name, class, quantity, rarity, value, weight, properties, description })
    }

    fn identifier(&self) -> (r: Option<i64>) {
        self.id
    }

    fn declares_relation(rel: Relation) -> (r: bool) {
        false
    }

    fn related_ids(&self, rel: Relation) -> (r: Option<Vec<i64>>) {
        None
    }
}

} // verus!
