//! Reading text and lists of text out of script values.

use vstd::prelude::*;
use crate::value::{lemma_table_view, LuaTable, LuaValue, ValueModel};

verus! {

/// The text that `value` is, if it is text.
pub open spec fn text_in(value: ValueModel) -> Option<Seq<char>> {
    match value {
        ValueModel::Text(text) => Some(text),
        _ => None,
    }
}

/// The text that an optional field holds: `Some(None)` where nothing was
/// assigned, `None` where what was assigned is not text.
pub open spec fn optional_text_in(value: ValueModel) -> Option<Option<Seq<char>>> {
    match value {
        ValueModel::Nil => Some(None),
        ValueModel::Text(text) => Some(Some(text)),
        _ => None,
    }
}

/// The texts that `value` lists, if it is a table whose items are all text.
pub open spec fn text_list_in(value: ValueModel) -> Option<Seq<Seq<char>>> {
    match value {
        ValueModel::Table(table) => if forall|i: int|
            0 <= i < table.items.len() ==> (#[trigger] table.items[i]) is Text {
            Some(Seq::new(table.items.len(), |i: int| table.items[i]->Text_0))
        } else {
            None
        },
        _ => None,
    }
}

/// The texts that an optional list holds: none where nothing was assigned.
pub open spec fn optional_text_list_in(value: ValueModel) -> Option<Seq<Seq<char>>> {
    match value {
        ValueModel::Nil => Some(Seq::empty()),
        _ => text_list_in(value),
    }
}

/// The truth value that an optional field holds, `default` where nothing was
/// assigned.
pub open spec fn flag_in(value: ValueModel, default: bool) -> Option<bool> {
    match value {
        ValueModel::Nil => Some(default),
        ValueModel::Boolean(flag) => Some(flag),
        _ => None,
    }
}

/// What `value` is for a reader: `Nil` where there is no value.
pub open spec fn held(value: Option<&LuaValue>) -> ValueModel {
    match value {
        Some(value) => value@,
        None => ValueModel::Nil,
    }
}

/// The text that `value` is; `None` where it is not text.
pub fn read_text(value: &LuaValue) -> (text: Option<String>)
    ensures
        text.deep_view() == text_in(value@),
{
    match value {
        LuaValue::Text(text) => Some(text.clone()),
        _ => None,
    }
}

/// The text of an optional field; `None` where what was assigned is not text.
pub fn read_optional_text(value: Option<&LuaValue>) -> (text: Option<Option<String>>)
    ensures
        text.deep_view() == optional_text_in(held(value)),
{
    match value {
        None => Some(None),
        Some(LuaValue::Nil) => Some(None),
        Some(LuaValue::Text(text)) => Some(Some(text.clone())),
        Some(_) => None,
    }
}

/// The texts that `value` lists; `None` where it is not a list of text.
pub fn read_text_list(value: &LuaValue) -> (texts: Option<Vec<String>>)
    ensures
        texts.deep_view() == text_list_in(value@),
{
    match value {
        LuaValue::Table(table) => {
            proof {
                lemma_table_view(*table);
            }
            let mut texts: Vec<String> = Vec::new();
            let mut i: usize = 0;
            while i < table.items.len()
                invariant
                    i <= table.items.len(),
                    texts@.len() == i,
                    value@ == ValueModel::Table(table@),
                    forall|k: int| 0 <= k < i ==> (#[trigger] table@.items[k]) is Text,
                    forall|k: int| 0 <= k < i ==> (#[trigger] texts@[k])@ == table@.items[k]->Text_0,
                decreases table.items.len() - i,
            {
                match &table.items[i] {
                    LuaValue::Text(text) => {
                        texts.push(text.clone());
                    },
                    _ => {
                        assert(!(table@.items[i as int] is Text));
                        return None;
                    },
                }
                i += 1;
            }
            assert(texts.deep_view() =~= text_list_in(value@)->0);
            Some(texts)
        },
        _ => None,
    }
}

/// The texts of an optional list; `None` where what was assigned is not a list
/// of text.
pub fn read_optional_text_list(value: Option<&LuaValue>) -> (texts: Option<Vec<String>>)
    ensures
        texts.deep_view() == optional_text_list_in(held(value)),
{
    match value {
        None => {
            let texts: Vec<String> = Vec::new();
            assert(texts.deep_view() =~= Seq::<Seq<char>>::empty());
            Some(texts)
        },
        Some(LuaValue::Nil) => {
            let texts: Vec<String> = Vec::new();
            assert(texts.deep_view() =~= Seq::<Seq<char>>::empty());
            Some(texts)
        },
        Some(value) => read_text_list(value),
    }
}

/// The truth value of an optional field; `None` where what was assigned is not
/// a truth value.
pub fn read_flag(value: Option<&LuaValue>, default: bool) -> (flag: Option<bool>)
    ensures
        flag == flag_in(held(value), default),
{
    match value {
        None => Some(default),
        Some(LuaValue::Nil) => Some(default),
        Some(LuaValue::Boolean(flag)) => Some(*flag),
        Some(_) => None,
    }
}

/// The table that `value` is, if it is one.
pub fn read_table(value: &LuaValue) -> (table: Option<&LuaTable>)
    ensures
        match table {
            Some(table) => value@ == ValueModel::Table(table@),
            None => !(value@ is Table),
        },
{
    match value {
        LuaValue::Table(table) => {
            proof {
                lemma_table_view(*table);
            }
            Some(table)
        },
        _ => None,
    }
}

} // verus!
