use vstd::prelude::*;
use crate::error::MappingError;
use crate::language::Language;
use crate::model::{key_value, Model, Relation};
use crate::value::{
    col_bool, col_opt_i64, col_text, col_unsigned, opt_i64_value, read_bool, read_opt_i64,
    read_text, read_u16, read_u64, read_u8, text_value, SqlValue, Value,
};

verus! {

/// A player character. The scalar fields are its row; the proficiencies and
/// languages it has are relations, kept in the junction table.
#[derive(Clone, Debug)]
pub struct Character {
    pub id: Option<i64>,
    pub name: String,
    pub alignment: String,
    pub proficiency_bonus: u8,
    pub passive_perception: u8,
    pub inspiration: bool,
    pub speed: u8,
    pub gender: String,
    pub height: u8,
    pub weight: u8,
    pub age: u8,
    pub armor_class: u8,
    pub initiative: u8,
    pub hit_points: u16,
    pub temp_hit_points: u16,
    pub level: u8,
    pub xp: u64,
    pub proficiency_ids: Vec<i64>,
    pub languages: Vec<Language>,
}

/// The columns of a character, with text as characters.
pub struct CharacterColumns {
    pub id: Option<i64>,
    pub name: Seq<char>,
    pub alignment: Seq<char>,
    pub proficiency_bonus: u8,
    pub passive_perception: u8,
    pub inspiration: bool,
    pub speed: u8,
    pub gender: Seq<char>,
    pub height: u8,
    pub weight: u8,
    pub age: u8,
    pub armor_class: u8,
    pub initiative: u8,
    pub hit_points: u16,
    pub temp_hit_points: u16,
    pub level: u8,
    pub xp: u64,
}

impl View for Character {
    type V = CharacterColumns;

    open spec fn view(&self) -> CharacterColumns {
        CharacterColumns {
            id: self.id,
            name: self.name@,
            alignment: self.alignment@,
            proficiency_bonus: self.proficiency_bonus,
            passive_perception: self.passive_perception,
            inspiration: self.inspiration,
            speed: self.speed,
            gender: self.gender@,
            height: self.height,
            weight: self.weight,
            age: self.age,
            armor_class: self.armor_class,
            initiative: self.initiative,
            hit_points: self.hit_points,
            temp_hit_points: self.temp_hit_points,
            level: self.level,
            xp: self.xp,
        }
    }
}

/// A boolean column holds 1 for true and 0 for false.
pub open spec fn character_row(v: CharacterColumns) -> Seq<Value> {
    seq![
        key_value(v.id),
        Value::Text(v.name),
        Value::Text(v.alignment),
        Value::Integer(v.proficiency_bonus as i64),
        Value::Integer(v.passive_perception as i64),
        Value::Integer(if v.inspiration { 1 } else { 0 }),
        Value::Integer(v.speed as i64),
        Value::Text(v.gender),
        Value::Integer(v.height as i64),
        Value::Integer(v.weight as i64),
        Value::Integer(v.age as i64),
        Value::Integer(v.armor_class as i64),
        Value::Integer(v.initiative as i64),
        Value::Integer(v.hit_points as i64),
        Value::Integer(v.temp_hit_points as i64),
        Value::Integer(v.level as i64),
        Value::Integer(v.xp as i64),
    ]
}

pub open spec fn character_of_row(row: Seq<Value>) -> Result<CharacterColumns, MappingError> {
    if row.len() != 17 {
        Err(MappingError::TypeMismatch)
    } else {
        match col_opt_i64(row[0]) {
            Err(e) => Err(e),
            Ok(id) => match col_text(row[1]) {
                Err(e) => Err(e),
                Ok(name) => match col_text(row[2]) {
                    Err(e) => Err(e),
                    Ok(alignment) => match col_unsigned(row[3], u8::MAX as int) {
                        Err(e) => Err(e),
                        Ok(proficiency_bonus) => match col_unsigned(row[4], u8::MAX as int) {
                            Err(e) => Err(e),
                            Ok(passive_perception) => match col_bool(row[5]) {
                                Err(e) => Err(e),
                                Ok(inspiration) => match col_unsigned(row[6], u8::MAX as int) {
                                    Err(e) => Err(e),
                                    Ok(speed) => match col_text(row[7]) {
                                        Err(e) => Err(e),
                                        Ok(gender) => match col_unsigned(row[8], u8::MAX as int) {
                                            Err(e) => Err(e),
                                            Ok(height) => match col_unsigned(row[9], u8::MAX as int) {
                                                Err(e) => Err(e),
                                                Ok(weight) => match col_unsigned(row[10], u8::MAX as int) {
                                                    Err(e) => Err(e),
                                                    Ok(age) => match col_unsigned(row[11], u8::MAX as int) {
                                                        Err(e) => Err(e),
                                                        Ok(armor_class) => match col_unsigned(row[12], u8::MAX as int) {
                                                            Err(e) => Err(e),
                                                            Ok(initiative) => match col_unsigned(row[13], u16::MAX as int) {
                                                                Err(e) => Err(e),
                                                                Ok(hit_points) => match col_unsigned(row[14], u16::MAX as int) {
                                                                    Err(e) => Err(e),
                                                                    Ok(temp_hit_points) => match col_unsigned(row[15], u8::MAX as int) {
                                                                        Err(e) => Err(e),
                                                                        Ok(level) => match col_unsigned(row[16], u64::MAX as int) {
                                                                            Err(e) => Err(e),
                                                                            Ok(xp) => Ok(CharacterColumns { id, name, alignment, proficiency_bonus: proficiency_bonus as u8, passive_perception: passive_perception as u8, inspiration, speed: speed as u8, gender, height: height as u8, weight: weight as u8, age: age as u8, armor_class: armor_class as u8, initiative: initiative as u8, hit_points: hit_points as u16, temp_hit_points: temp_hit_points as u16, level: level as u8, xp: xp as u64 }),
                                                                        },
                                                                    },
                                                                },
                                                            },
                                                        },
                                                    },
                                                },
                                            },
                                        },
                                    },
                                },
                            },
                        },
                    },
                },
            },
        }
    }
}

/// The identifiers of the given languages, in order.
pub open spec fn language_ids(langs: Seq<Language>) -> Seq<i64> {
    langs.map_values(|l: Language| l.id)
}

impl Character {
    /// An empty character: no identifier, empty text, zero values, no relations.
    pub fn new() -> (r: Character)
        ensures
            r.id is None,
            r.name@.len() == 0,
            r.alignment@.len() == 0,
            r.proficiency_bonus == 0,
            r.passive_perception == 0,
            r.inspiration == false,
            r.speed == 0,
            r.gender@.len() == 0,
            r.height == 0,
            r.weight == 0,
            r.age == 0,
            r.armor_class == 0,
            r.initiative == 0,
            r.hit_points == 0,
            r.temp_hit_points == 0,
            r.level == 0,
            r.xp == 0,
            r.proficiency_ids@.len() == 0,
            r.languages@.len() == 0,
    {
        Character {
            id: None,
            name: String::new(),
            alignment: String::new(),
            proficiency_bonus: 0,
            passive_perception: 0,
            inspiration: false,
            speed: 0,
            gender: String::new(),
            height: 0,
            weight: 0,
            age: 0,
            armor_class: 0,
            initiative: 0,
            hit_points: 0,
            temp_hit_points: 0,
            level: 0,
            xp: 0,
            proficiency_ids: Vec::new(),
            languages: Vec::new(),
        }
    }

    /// A sample first-level neutral character named Frank.
    pub fn test_character_frank() -> (r: Character)
        ensures
            r.id is None,
            r.name@ == "Frank"@,
            r.alignment@ == "Neutral"@,
            r.proficiency_bonus == 2,
            r.passive_perception == 12,
            r.inspiration == false,
            r.speed == 30,
            r.gender@ == "Male"@,
            r.height == 6,
            r.weight == 100,
            r.age == 30,
            r.armor_class == 13,
            r.initiative == 3,
            r.hit_points == 10,
            r.temp_hit_points == 0,
            r.level == 1,
            r.xp == 0,
            r.proficiency_ids@.len() == 0,
            r.languages@.len() == 0,
    {
        Character {
            id: None,
            name: "Frank".to_owned(),
            alignment: "Neutral".to_owned(),
            proficiency_bonus: 2,
            passive_perception: 12,
            inspiration: false,
            speed: 30,
            gender: "Male".to_owned(),
            height: 6,
            weight: 100,
            age: 30,
            armor_class: 13,
            initiative: 3,
            hit_points: 10,
            temp_hit_points: 0,
            level: 1,
            xp: 0,
            proficiency_ids: Vec::new(),
            languages: Vec::new(),
        }
    }

    /// A sample first-level evil character named Kevin.
    pub fn test_character_kevin() -> (r: Character)
        ensures
            r.id is None,
            r.name@ == "Kevin"@,
            r.alignment@ == "Evil"@,
            r.proficiency_bonus == 2,
            r.passive_perception == 12,
            r.inspiration == false,
            r.speed == 30,
            r.gender@ == "Female"@,
            r.height == 6,
            r.weight == 100,
            r.age == 30,
            r.armor_class == 13,
            r.initiative == 3,
            r.hit_points == 10,
            r.temp_hit_points == 0,
            r.level == 1,
            r.xp == 0,
            r.proficiency_ids@.len() == 0,
            r.languages@.len() == 0,
    {
        Character {
            id: None,
            name: "Kevin".to_owned(),
            alignment: "Evil".to_owned(),
            proficiency_bonus: 2,
            passive_perception: 12,
            inspiration: false,
            speed: 30,
            gender: "Female".to_owned(),
            height: 6,
            weight: 100,
            age: 30,
            armor_class: 13,
            initiative: 3,
            hit_points: 10,
            temp_hit_points: 0,
            level: 1,
            xp: 0,
            proficiency_ids: Vec::new(),
            languages: Vec::new(),
        }
    }
}

impl Model for Character {
    open spec fn encode(v: CharacterColumns) -> Seq<Value> {
        character_row(v)
    }

    open spec fn decode(row: Seq<Value>) -> Result<CharacterColumns, MappingError> {
        character_of_row(row)
    }

    open spec fn storable(v: CharacterColumns) -> bool {
        v.xp <= i64::MAX
    }

    open spec fn key(v: CharacterColumns) -> Option<i64> {
        v.id
    }

    open spec fn table() -> Seq<char> {
        "characters"@
    }

    open spec fn schema_text() -> Seq<char> {
        "id INTEGER PRIMARY KEY, name TEXT NOT NULL, alignment TEXT NOT NULL, proficiency_bonus INTEGER NOT NULL, passive_perception INTEGER NOT NULL, inspiration INTEGER NOT NULL, speed INTEGER NOT NULL, gender TEXT NOT NULL, height INTEGER NOT NULL, weight INTEGER NOT NULL, age INTEGER NOT NULL, armor_class INTEGER NOT NULL, initiative INTEGER NOT NULL, hit_points INTEGER NOT NULL, temp_hit_points INTEGER NOT NULL, level INTEGER NOT NULL, xp INTEGER NOT NULL"@
    }

    open spec fn columns() -> Seq<char> {
        "id, name, alignment, proficiency_bonus, passive_perception, inspiration, speed, gender, height, weight, age, armor_class, initiative, hit_points, temp_hit_points, level, xp"@
    }

    open spec fn placeholders() -> Seq<char> {
        "?1, ?2, ?3, ?4, ?5, ?6, ?7, ?8, ?9, ?10, ?11, ?12, ?13, ?14, ?15, ?16, ?17"@
    }

    open spec fn with_key(v: CharacterColumns, id: i64) -> CharacterColumns {
        CharacterColumns { id: Some(id), ..v }
    }

    open spec fn arity() -> nat {
        17
    }

    open spec fn declares(rel: Relation) -> bool {
        true
    }

    open spec fn related(&self, rel: Relation) -> Seq<i64> {
        match rel {
            Relation::Proficiencies => self.proficiency_ids@,
            Relation::Languages => language_ids(self.languages@),
        }
    }

    proof fn lemma_round_trip(v: CharacterColumns) {
        assert(character_of_row(character_row(v)) == Ok::<CharacterColumns, MappingError>(v));
    }

    proof fn lemma_with_key(v: CharacterColumns, id: i64) {
        assert(Self::encode(Self::with_key(v, id)) =~= Self::encode(v).update(0, Value::Integer(id)));
    }

    proof fn lemma_decoded_key(row: Seq<Value>) {
    }

    fn table_name() -> (r: String) {
        "characters".to_owned()
    }

    fn schema() -> (r: String) {
        "id INTEGER PRIMARY KEY, name TEXT NOT NULL, alignment TEXT NOT NULL, proficiency_bonus INTEGER NOT NULL, passive_perception INTEGER NOT NULL, inspiration INTEGER NOT NULL, speed INTEGER NOT NULL, gender TEXT NOT NULL, height INTEGER NOT NULL, weight INTEGER NOT NULL, age INTEGER NOT NULL, armor_class INTEGER NOT NULL, initiative INTEGER NOT NULL, hit_points INTEGER NOT NULL, temp_hit_points INTEGER NOT NULL, level INTEGER NOT NULL, xp INTEGER NOT NULL".to_owned()
    }

    fn column_list() -> (r: String) {
        "id, name, alignment, proficiency_bonus, passive_perception, inspiration, speed, gender, height, weight, age, armor_class, initiative, hit_points, temp_hit_points, level, xp".to_owned()
    }

    fn placeholder_list() -> (r: String) {
        "?1, ?2, ?3, ?4, ?5, ?6, ?7, ?8, ?9, ?10, ?11, ?12, ?13, ?14, ?15, ?16, ?17".to_owned()
    }

    fn is_storable(&self) -> (r: bool) {
        self.xp <= i64::MAX as u64
    }

    fn bound_parameters(&self) -> (r: Vec<SqlValue>) {
        let mut params: Vec<SqlValue> = Vec::new();
        params.push(opt_i64_value(self.id));
        params.push(text_value(&self.name));
        params.push(text_value(&self.alignment));
        params.push(SqlValue::Integer(self.proficiency_bonus as i64));
        params.push(SqlValue::Integer(self.passive_perception as i64));
        params.push(SqlValue::Integer(if self.inspiration { 1 } else { 0 }));
        params.push(SqlValue::Integer(self.speed as i64));
        params.push(text_value(&self.gender));
        params.push(SqlValue::Integer(self.height as i64));
        params.push(SqlValue::Integer(self.weight as i64));
        params.push(SqlValue::Integer(self.age as i64));
        params.push(SqlValue::Integer(self.armor_class as i64));
        params.push(SqlValue::Integer(self.initiative as i64));
        params.push(SqlValue::Integer(self.hit_points as i64));
        params.push(SqlValue::Integer(self.temp_hit_points as i64));
        params.push(SqlValue::Integer(self.level as i64));
        params.push(SqlValue::Integer(self.xp as i64));
        assert(crate::value::row_view(params@) =~= character_row(self@));
        params
    }

    #[verifier::rlimit(50)]
    fn from_row(row: &Vec<SqlValue>) -> (r: Result<Character, MappingError>) {
        if row.len() != 17 {
            return Err(MappingError::TypeMismatch);
        }
        let ghost rv = crate::value::row_view(row@);
        assert(rv[0] == row@[0]@);
        assert(rv[1] == row@[1]@);
        assert(rv[2] == row@[2]@);
        assert(rv[3] == row@[3]@);
        assert(rv[4] == row@[4]@);
        assert(rv[5] == row@[5]@);
        assert(rv[6] == row@[6]@);
        assert(rv[7] == row@[7]@);
        assert(rv[8] == row@[8]@);
        assert(rv[9] == row@[9]@);
        assert(rv[10] == row@[10]@);
        assert(rv[11] == row@[11]@);
        assert(rv[12] == row@[12]@);
        assert(rv[13] == row@[13]@);
        assert(rv[14] == row@[14]@);
        assert(rv[15] == row@[15]@);
        assert(rv[16] == row@[16]@);
        let id = read_opt_i64(&row[0])?;
        let name = read_text(&row[1])?;
        let alignment = read_text(&row[2])?;
        let proficiency_bonus = read_u8(&row[3])?;
        let passive_perception = read_u8(&row[4])?;
        let inspiration = read_bool(&row[5])?;
        let speed = read_u8(&row[6])?;
        let gender = read_text(&row[7])?;
        let height = read_u8(&row[8])?;
        let weight = read_u8(&row[9])?;
        let age = read_u8(&row[10])?;
        let armor_class = read_u8(&row[11])?;
        let initiative = read_u8(&row[12])?;
        let hit_points = read_u16(&row[13])?;
        let temp_hit_points = read_u16(&row[14])?;
        let level = read_u8(&row[15])?;
        let xp = read_u64(&row[16])?;
        Ok(Character {
            id, name, alignment, proficiency_bonus, passive_perception, inspiration, speed, gender, height, weight, age, armor_class, initiative, hit_points, temp_hit_points, level, xp,
            proficiency_ids: Vec::new(),
            languages: Vec::new(),
        })
    }

    fn identifier(&self) -> (r: Option<i64>) {
        self.id
    }

    fn declares_relation(rel: Relation) -> (r: bool) {
        true
    }

    fn related_ids(&self, rel: Relation) -> (r: Option<Vec<i64>>) {
        match rel {
            Relation::Proficiencies => Some(self.proficiency_ids.clone()),
            Relation::Languages => {
                let mut ids: Vec<i64> = Vec::new();
                let mut i: usize = 0;
                while i < self.languages.len()
                    invariant
                        i <= self.languages@.len(),
                        ids@ == language_ids(self.languages@.take(i as int)),
                    decreases self.languages@.len() - i,
                {
                    ids.push(self.languages[i].id);
                    i += 1;
                    assert(language_ids(self.languages@.take(i as int)) =~= ids@);
                }
                assert(self.languages@.take(i as int) =~= self.languages@);
                Some(ids)
            },
        }
    }
}

/// A short summary of a saved character, as listed for selection.
#[derive(Clone, Debug)]
pub struct SavedCharacter {
    pub id: Option<u64>,
    pub name: String,
    pub race: String,
    pub class: String,
}

impl SavedCharacter {
    /// An empty summary: no identifier and empty text.
    pub fn new() -> (r: SavedCharacter)
        ensures
            r.id is None,
            r.name@.len() == 0,
            r.race@.len() == 0,
            r.class@.len() == 0,
    {
        SavedCharacter {
            id: None,
            name: String::new(),
            race: String::new(),
            class: String::new(),
        }
    }
}

} // verus!
