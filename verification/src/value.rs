//! What evaluating a rockspec leaves behind, as plain values.

use vstd::prelude::*;
use crate::text::same_text;

verus! {

/// A value that a script assigned.
#[derive(Debug, PartialEq, Eq)]
pub enum LuaValue {
    /// `nil`: nothing was assigned.
    Nil,
    Boolean(bool),
    Text(String),
    Table(LuaTable),
    /// A value that no rockspec field can hold: a number, a function, a
    /// table nested too deeply, and so on.
    Other,
}

/// One entry of a table under a string key.
#[derive(Debug, PartialEq, Eq)]
pub struct LuaField {
    pub name: String,
    pub value: LuaValue,
}

/// A table: the values under the keys 1, 2, 3 and so on, and the values
/// under string keys.
#[derive(Debug, PartialEq, Eq)]
pub struct LuaTable {
    pub items: Vec<LuaValue>,
    pub fields: Vec<LuaField>,
}

/// The mathematical model of [`LuaValue`].
pub ghost enum ValueModel {
    Nil,
    Boolean(bool),
    Text(Seq<char>),
    Table(TableModel),
    Other,
}

/// The mathematical model of [`LuaField`].
pub ghost struct FieldModel {
    pub name: Seq<char>,
    pub value: ValueModel,
}

/// The mathematical model of [`LuaTable`].
pub ghost struct TableModel {
    pub items: Seq<ValueModel>,
    pub fields: Seq<FieldModel>,
}

impl View for LuaValue {
    type V = ValueModel;

    open spec fn view(&self) -> ValueModel
        decreases self,
    {
        match self {
            LuaValue::Nil => ValueModel::Nil,
            LuaValue::Boolean(b) => ValueModel::Boolean(*b),
            LuaValue::Text(text) => ValueModel::Text(text@),
            LuaValue::Table(table) => ValueModel::Table(
                TableModel {
                    items: Seq::new(
                        table.items.len() as nat,
                        |i: int|
                            if 0 <= i < table.items.len() {
                                table.items[i]@
                            } else {
                                ValueModel::Nil
                            },
                    ),
                    fields: Seq::new(
                        table.fields.len() as nat,
                        |i: int|
                            if 0 <= i < table.fields.len() {
                                FieldModel {
                                    name: table.fields[i].name@,
                                    value: table.fields[i].value@,
                                }
                            } else {
                                FieldModel { name: Seq::empty(), value: ValueModel::Nil }
                            },
                    ),
                },
            ),
            LuaValue::Other => ValueModel::Other,
        }
    }
}

impl View for LuaField {
    type V = FieldModel;

    open spec fn view(&self) -> FieldModel {
        FieldModel { name: self.name@, value: self.value@ }
    }
}

impl View for LuaTable {
    type V = TableModel;

    open spec fn view(&self) -> TableModel {
        TableModel {
            items: Seq::new(self.items.len() as nat, |i: int| self.items[i]@),
            fields: Seq::new(self.fields.len() as nat, |i: int| self.fields[i]@),
        }
    }
}

/// The view of a table value is the view of its table.
pub proof fn lemma_table_view(table: LuaTable)
    ensures
        LuaValue::Table(table)@ == ValueModel::Table(table@),
{
    let inner = LuaValue::Table(table)@->Table_0;
    assert(inner.items =~= table@.items);
    assert(inner.fields =~= table@.fields);
}

/// The value of the first of `fields` named `name`; `Nil` if there is none.
pub open spec fn field_value(fields: Seq<FieldModel>, name: Seq<char>) -> ValueModel
    decreases fields.len(),
{
    if fields.len() == 0 {
        ValueModel::Nil
    } else if fields[0].name == name {
        fields[0].value
    } else {
        field_value(fields.skip(1), name)
    }
}

impl TableModel {
    /// What the table holds under the string key `name`, `Nil` where it
    /// holds nothing.
    pub open spec fn get(self, name: Seq<char>) -> ValueModel {
        field_value(self.fields, name)
    }

    /// Whether the table holds something under the string key `name`.
    pub open spec fn has(self, name: Seq<char>) -> bool {
        !(self.get(name) is Nil)
    }

    /// The table without anything in it.
    pub open spec fn empty() -> TableModel {
        TableModel { items: Seq::empty(), fields: Seq::empty() }
    }
}

impl LuaTable {
    /// The table without anything in it.
    pub fn new() -> (table: LuaTable)
        ensures
            table@ == TableModel::empty(),
            table.items@.len() == 0,
            table.fields@.len() == 0,
    {
        let table = LuaTable { items: Vec::new(), fields: Vec::new() };
        assert(table@.items =~= Seq::empty());
        assert(table@.fields =~= Seq::empty());
        table
    }

    /// What the table holds under the string key `name`.
    pub fn get(&self, name: &str) -> (value: Option<&LuaValue>)
        ensures
            match value {
                Some(value) => value@ == self@.get(name@),
                None => self@.get(name@) is Nil,
            },
    {
        let mut i: usize = 0;
        assert(self@.fields.skip(0) == self@.fields);
        while i < self.fields.len()
            invariant
                i <= self.fields.len(),
                self@.get(name@) == field_value(self@.fields.skip(i as int), name@),
            decreases self.fields.len() - i,
        {
            proof {
                let rest = self@.fields.skip(i as int);
                assert(rest[0] == self.fields[i as int]@);
                assert(rest.skip(1) == self@.fields.skip(i + 1));
            }
            if same_text(self.fields[i].name.as_str(), name) {
                return Some(&self.fields[i].value);
            }
            i += 1;
        }
        None
    }

    /// Whether the table holds something under the string key `name`.
    pub fn has(&self, name: &str) -> (held: bool)
        ensures
            held == self@.has(name@),
    {
        match self.get(name) {
            None => false,
            Some(LuaValue::Nil) => false,
            Some(_) => true,
        }
    }
}

} // verus!
