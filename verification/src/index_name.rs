//! The name of a new index: the one the caller gives, or one made of the
//! index's keys, as `<field>_<direction>` parts joined by `_`.
use vstd::prelude::*;

use crate::decimal::{
    decimal_string, decimal_text, is_decimal_digit, lemma_decimal_text_denotes, signed_decimal_value,
};

verus! {

/// The direction value of one index key. Integers are written in decimal;
/// any other BSON value arrives already written as BSON's text of it.
pub enum IndexDirection {
    Int32(i32),
    Int64(i64),
    Text(String),
}

/// One key of an index specification: a field and its direction.
pub struct IndexKey {
    pub field: String,
    pub direction: IndexDirection,
}

/// The text of a direction.
pub open spec fn direction_text(direction: IndexDirection) -> Seq<char> {
    match direction {
        IndexDirection::Int32(v) => decimal_text(v as int),
        IndexDirection::Int64(v) => decimal_text(v as int),
        IndexDirection::Text(text) => text@,
    }
}

/// The part of a generated name for one key: `<field>_<direction>`.
pub open spec fn key_part(key: IndexKey) -> Seq<char> {
    key.field@ + seq!['_'] + direction_text(key.direction)
}

/// The generated name: the parts of all keys, in order, joined by `_`.
pub open spec fn generated_index_name(keys: Seq<IndexKey>) -> Seq<char>
    decreases keys.len(),
{
    if keys.len() == 0 {
        Seq::empty()
    } else if keys.len() == 1 {
        key_part(keys[0])
    } else {
        generated_index_name(keys.drop_last()) + seq!['_'] + key_part(keys.last())
    }
}

/// The text of a direction.
pub fn direction_string(direction: &IndexDirection) -> (text: String)
    ensures
        text@ == direction_text(*direction),
        direction_reads_back(*direction, text@),
{
    proof {
        lemma_direction_text_denotes(*direction);
    }
    match direction {
        IndexDirection::Int32(v) => decimal_string(*v as i64),
        IndexDirection::Int64(v) => decimal_string(*v),
        IndexDirection::Text(text) => text.clone(),
    }
}

/// The name made of the keys: `<field>_<direction>` for each key, in
/// order, joined by `_`.
pub fn generate_index_name(keys: &Vec<IndexKey>) -> (name: String)
    ensures
        name@ == generated_index_name(keys@),
{
    let mut name = String::new();
    let mut i: usize = 0;
    assert(keys@.take(0) =~= Seq::<IndexKey>::empty());
    while i < keys.len()
        invariant
            i <= keys@.len(),
            name@ == generated_index_name(keys@.take(i as int)),
        decreases keys@.len() - i,
    {
        proof {
            reveal_strlit("_");
        }
        let ghost before = name@;
        let key = &keys[i];
        if i > 0 {
            name.append("_");
        }
        name.append(key.field.as_str());
        name.append("_");
        let direction = direction_string(&key.direction);
        name.append(direction.as_str());
        proof {
            let prefix = keys@.take(i + 1);
            assert(prefix.drop_last() =~= keys@.take(i as int));
            assert(prefix.last() == keys@[i as int]);
            if i == 0 {
                assert(before =~= Seq::<char>::empty());
                assert(name@ =~= key_part(keys@[0]));
            } else {
                assert(name@ =~= before + seq!['_'] + key_part(keys@[i as int]));
            }
        }
        i = i + 1;
    }
    assert(keys@.take(keys@.len() as int) =~= keys@);
    name
}

/// The name of a new index: the given name when there is one, else the
/// name made of the keys.
pub fn index_name(name: Option<String>, keys: &Vec<IndexKey>) -> (chosen: String)
    ensures
        chosen@ == match name {
            Some(given) => given@,
            None => generated_index_name(keys@),
        },
{
    match name {
        Some(given) => given,
        None => generate_index_name(keys),
    }
}

/// What the text of an integer direction says: it reads back as the
/// integer, starts with `-` exactly when the integer is negative, and is
/// otherwise made of digits. Text directions are their own text.
pub open spec fn direction_reads_back(direction: IndexDirection, text: Seq<char>) -> bool {
    match direction {
        IndexDirection::Int32(v) => integer_text(v as int, text),
        IndexDirection::Int64(v) => integer_text(v as int, text),
        IndexDirection::Text(given) => text == given@,
    }
}

/// `text` is decimal text that denotes `v`.
pub open spec fn integer_text(v: int, text: Seq<char>) -> bool {
    &&& signed_decimal_value(text) == v
    &&& text.len() > 0
    &&& (text[0] == '-') == (v < 0)
    &&& forall|i: int|
        (if v < 0 {
            1int
        } else {
            0int
        }) <= i < text.len() ==> is_decimal_digit(#[trigger] text[i])
}

/// The text of every direction reads back as the direction: an integer
/// direction, ascending or descending, is written with its sign, so two
/// integer directions with different values never share a text.
pub proof fn lemma_direction_text_denotes(direction: IndexDirection)
    ensures
        direction_reads_back(direction, direction_text(direction)),
{
    match direction {
        IndexDirection::Int32(v) => lemma_decimal_text_denotes(v as int),
        IndexDirection::Int64(v) => lemma_decimal_text_denotes(v as int),
        IndexDirection::Text(_) => {},
    }
}

/// Two integer directions of different value give different texts, so
/// ascending and descending indexes on a field get different names.
pub proof fn lemma_direction_texts_differ(a: i64, b: i64)
    requires
        a != b,
    ensures
        direction_text(IndexDirection::Int64(a)) != direction_text(IndexDirection::Int64(b)),
{
    lemma_direction_text_denotes(IndexDirection::Int64(a));
    lemma_direction_text_denotes(IndexDirection::Int64(b));
}

/// A name made of one key is `<field>_<direction>`, and adding a key adds
/// `_<field>_<direction>` at the end.
pub proof fn lemma_index_name_parts(keys: Seq<IndexKey>, key: IndexKey)
    ensures
        generated_index_name(seq![key]) == key.field@ + seq!['_'] + direction_text(key.direction),
        keys.len() > 0 ==> generated_index_name(keys.push(key)) == generated_index_name(keys)
            + seq!['_'] + key.field@ + seq!['_'] + direction_text(key.direction),
{
    assert(keys.push(key).drop_last() =~= keys);
    if keys.len() > 0 {
        assert(generated_index_name(keys) + seq!['_'] + key.field@ + seq!['_'] + direction_text(
            key.direction,
        ) =~= generated_index_name(keys) + seq!['_'] + key_part(key));
    }
}

} // verus!
