use vstd::prelude::*;
use crate::error::MappingError;
use crate::model::{key_value, Model, Relation};
use crate::value::{col_opt_i64, col_opt_text, opt_i64_value, read_opt_i64, read_opt_text, SqlValue, Value};

verus! {

/// What a proficiency applies to.
#[derive(Clone, Copy, Debug, PartialEq, Eq, Structural)]
pub enum ProficiencyClass {
    Skill,
    Armor,
    Weapon,
    Tool,
}

/// The canonical name of a proficiency class.
pub open spec fn class_name(c: ProficiencyClass) -> Seq<char> {
    match c {
        ProficiencyClass::Skill => "Skill"@,
        ProficiencyClass::Armor => "Armor"@,
        ProficiencyClass::Weapon => "Weapon"@,
        ProficiencyClass::Tool => "Tool"@,
    }
}

/// The proficiency class whose canonical name is `s`.
pub open spec fn class_of(s: Seq<char>) -> Result<ProficiencyClass, MappingError> {
    if s == "Skill"@ {
        Ok(ProficiencyClass::Skill)
    } else if s == "Armor"@ {
        Ok(ProficiencyClass::Armor)
    } else if s == "Weapon"@ {
        Ok(ProficiencyClass::Weapon)
    } else if s == "Tool"@ {
        Ok(ProficiencyClass::Tool)
    } else {
        Err(MappingError::UnknownEnumValue)
    }
}

/// Every class parses back from its name, and a string parses exactly when
/// it is the name of some class; any other string is an unknown value.
pub proof fn lemma_class_round_trip(c: ProficiencyClass, s: Seq<char>)
    ensures
        class_of(class_name(c)) == Ok::<ProficiencyClass, MappingError>(c),
        class_of(s) is Ok ==> class_name(class_of(s)->Ok_0) == s,
        class_of(s) is Err ==> class_of(s) == Err::<ProficiencyClass, MappingError>(
            MappingError::UnknownEnumValue,
        ),
{
    reveal_strlit("Skill");
    reveal_strlit("Armor");
    reveal_strlit("Weapon");
    reveal_strlit("Tool");
    assert("Skill"@.len() == 5 && "Skill"@[0] == 'S');
    assert("Armor"@.len() == 5 && "Armor"@[0] == 'A');
    assert("Weapon"@.len() == 6 && "Weapon"@[0] == 'W');
    assert("Tool"@.len() == 4 && "Tool"@[0] == 'T');
}

impl ProficiencyClass {
    /// The canonical name, as stored in the class column.
    pub fn name(&self) -> (r: String)
        ensures
            r@ == class_name(*self),
    {
        match self {
            ProficiencyClass::Skill => "Skill".to_owned(),
            ProficiencyClass::Armor => "Armor".to_owned(),
            ProficiencyClass::Weapon => "Weapon".to_owned(),
            ProficiencyClass::Tool => "Tool".to_owned(),
        }
    }

    /// The class named `s`; an unrecognised name is an error, never a default.
    pub fn parse(s: &str) -> (r: Result<ProficiencyClass, MappingError>)
        ensures
            r == class_of(s@),
    {
        let s = s.to_owned();
        if s == "Skill".to_owned() {
            Ok(ProficiencyClass::Skill)
        } else if s == "Armor".to_owned() {
            Ok(ProficiencyClass::Armor)
        } else if s == "Weapon".to_owned() {
            Ok(ProficiencyClass::Weapon)
        } else if s == "Tool".to_owned() {
            Ok(ProficiencyClass::Tool)
        } else {
            Err(MappingError::UnknownEnumValue)
        }
    }
}

/// Something a character can be proficient in.
#[derive(Clone, Debug)]
pub struct Proficiency {
    pub id: Option<i64>,
    pub name: Option<String>,
    pub class: Option<ProficiencyClass>,
}

/// The fields of a proficiency, with text as characters.
pub struct ProficiencyView {
    pub id: Option<i64>,
    pub name: Option<Seq<char>>,
    pub class: Option<ProficiencyClass>,
}

impl View for Proficiency {
    type V = ProficiencyView;

    open spec fn view(&self) -> ProficiencyView {
        ProficiencyView {
            id: self.id,
            name: match self.name {
                Some(s) => Some(s@),
                None => None,
            },
            class: self.class,
        }
    }
}

pub open spec fn opt_text_value(s: Option<Seq<char>>) -> Value {
    match s {
        Some(t) => Value::Text(t),
        None => Value::Null,
    }
}

pub open spec fn class_value(c: Option<ProficiencyClass>) -> Value {
    match c {
        Some(x) => Value::Text(class_name(x)),
        None => Value::Null,
    }
}

pub open spec fn col_class(v: Value) -> Result<Option<ProficiencyClass>, MappingError> {
    match v {
        Value::Null => Ok(None),
        Value::Text(s) => match class_of(s) {
            Ok(c) => Ok(Some(c)),
            Err(e) => Err(e),
        },
        _ => Err(MappingError::TypeMismatch),
    }
}

pub open spec fn proficiency_row(v: ProficiencyView) -> Seq<Value> {
    seq![key_value(v.id), opt_text_value(v.name), class_value(v.class)]
}

pub open spec fn proficiency_of_row(row: Seq<Value>) -> Result<ProficiencyView, MappingError> {
    if row.len() != 3 {
        Err(MappingError::TypeMismatch)
    } else {
        match col_opt_i64(row[0]) {
            Err(e) => Err(e),
            Ok(id) => match col_opt_text(row[1]) {
                Err(e) => Err(e),
                Ok(name) => match col_class(row[2]) {
                    Err(e) => Err(e),
                    Ok(class) => Ok(ProficiencyView { id, name, class }),
                },
            },
        }
    }
}

fn read_class(v: &SqlValue) -> (r: Result<Option<ProficiencyClass>, MappingError>)
    ensures
        r == col_class(v@),
{
    match v {
        SqlValue::Null => Ok(None),
        SqlValue::Text(s) => match ProficiencyClass::parse(s.as_str()) {
            Ok(x) => Ok(Some(x)),
            Err(e) => Err(e),
        },
        _ => Err(MappingError::TypeMismatch),
    }
}

impl Proficiency {
    /// An empty proficiency: no identifier, no name, no class.
    pub fn new() -> (r: Proficiency)
        ensures
            r.id is None,
            r.name is None,
            r.class is None,
    {
        Proficiency { id: None, name: None, class: None }
    }
}

impl Model for Proficiency {
    open spec fn encode(v: ProficiencyView) -> Seq<Value> {
        proficiency_row(v)
    }

    open spec fn decode(row: Seq<Value>) -> Result<ProficiencyView, MappingError> {
        proficiency_of_row(row)
    }

    open spec fn storable(v: ProficiencyView) -> bool {
        true
    }

    open spec fn key(v: ProficiencyView) -> Option<i64> {
        v.id
    }

    open spec fn table() -> Seq<char> {
        "proficiencies"@
    }

    open spec fn schema_text() -> Seq<char> {
        "id INTEGER PRIMARY KEY, name TEXT, class TEXT"@
    }

    open spec fn columns() -> Seq<char> {
        "id, name, class"@
    }

    open spec fn placeholders() -> Seq<char> {
        "?1, ?2, ?3"@
    }

    open spec fn with_key(v: ProficiencyView, id: i64) -> ProficiencyView {
        ProficiencyView { id: Some(id), ..v }
    }

    open spec fn arity() -> nat {
        3
    }

    open spec fn declares(rel: Relation) -> bool {
        false
    }

    open spec fn related(&self, rel: Relation) -> Seq<i64> {
        Seq::empty()
    }

    proof fn lemma_round_trip(v: ProficiencyView) {
        if let Some(x) = v.class {
            lemma_class_round_trip(x, Seq::empty());
        }
        assert(proficiency_of_row(proficiency_row(v)) == Ok::<ProficiencyView, MappingError>(v));
    }

    proof fn lemma_with_key(v: ProficiencyView, id: i64) {
        assert(Self::encode(Self::with_key(v, id)) =~= Self::encode(v).update(0, Value::Integer(id)));
    }

    proof fn lemma_decoded_key(row: Seq<Value>) {
    }

    fn table_name() -> (r: String) {
        "proficiencies".to_owned()
    }

    fn schema() -> (r: String) {
        "id INTEGER PRIMARY KEY, name TEXT, class TEXT".to_owned()
    }

    fn column_list() -> (r: String) {
        "id, name, class".to_owned()
    }

    fn placeholder_list() -> (r: String) {
        "?1, ?2, ?3".to_owned()
    }

    fn is_storable(&self) -> (r: bool) {
        true
    }

    fn bound_parameters(&self) -> (r: Vec<SqlValue>) {
        let mut params: Vec<SqlValue> = Vec::new();
        params.push(opt_i64_value(self.id));
        params.push(
            match &self.name {
                Some(s) => SqlValue::Text(s.clone()),
                None => SqlValue::Null,
            },
        );
        params.push(
            match self.class {
                Some(c) => SqlValue::Text(c.name()),
                None => SqlValue::Null,
            },
        );
        assert(crate::value::row_view(params@) =~= proficiency_row(self@));
        params
    }

    fn from_row(row: &Vec<SqlValue>) -> (r: Result<Proficiency, MappingError>) {
        if row.len() != 3 {
            return Err(MappingError::TypeMismatch);
        }
        let ghost rv = crate::value::row_view(row@);
        assert(rv[0] == row@[0]@ && rv[1] == row@[1]@ && rv[2] == row@[2]@);
        let id = read_opt_i64(&row[0])?;
        let name = read_opt_text(&row[1])?;
        let class = read_class(&row[2])?;
        Ok(Proficiency { id, name, class })
    }

    fn identifier(&self) -> (r: Option<i64>) {
        self.id
    }

    fn declares_relation(rel: Relation) -> (r: bool) {
        false
    }

    fn related_ids(&self, rel: Relation) -> (r: Option<Vec<i64>>) {
        None
    }
}

} // verus!
