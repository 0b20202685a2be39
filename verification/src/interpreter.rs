//! Evaluating a rockspec: the document is a script, and what it declares is
//! what it leaves in its global variables.

use vstd::prelude::*;
use crate::error::RockspecError;
use crate::value::{
    lemma_table_view, FieldModel, LuaField, LuaTable, LuaValue, TableModel, ValueModel,
};

verus! {

/// An interpreter of the scripting language.
#[verifier::external_type_specification]
#[verifier::external_body]
pub struct ExLua(mlua::Lua);

/// A table that lives inside an interpreter.
#[verifier::external_type_specification]
#[verifier::external_body]
pub struct ExTable(mlua::Table);

/// A value that lives inside an interpreter.
#[verifier::external_type_specification]
#[verifier::external_body]
pub struct ExValue(mlua::Value);

/// The interpreter's own error.
#[verifier::external_type_specification]
#[verifier::external_body]
pub struct ExError(mlua::Error);

/// Tables nested deeper than this are not read.
pub const MAX_TABLE_DEPTH: usize = 16;

/// A fresh interpreter with the safe part of the standard library.
///
/// Trusted: this is `mlua::Lua::new`. Nothing is claimed of the interpreter.
/// It gives up only where the machine has no memory left for a new state.
#[verifier::external_body]
fn new_interpreter() -> mlua::Lua {
    mlua::Lua::new()
}

/// Runs `script` in `lua`.
///
/// Trusted: this is `mlua::Lua::load` followed by `mlua::Chunk::exec`. What a
/// script does depends on more than its text, so nothing is claimed of the
/// outcome. The call returns when the script ends; a script that never ends
/// keeps it from returning.
#[verifier::external_body]
fn run_script(lua: &mlua::Lua, script: &str) -> Result<(), mlua::Error> {
    lua.load(script).exec()
}

/// The table of the global variables of `lua`.
///
/// Trusted: this is `mlua::Lua::globals`.
#[verifier::external_body]
fn global_table(lua: &mlua::Lua) -> mlua::Table {
    lua.globals()
}

/// Takes away what `table` holds under the string key `name`.
///
/// Trusted: this is `mlua::Table::set` with `nil` as the value.
#[verifier::external_body]
fn clear_key(table: &mlua::Table, name: &str) -> Result<(), mlua::Error> {
    table.set(name, mlua::Value::Nil)
}

/// What `table` holds under the string key `name`.
///
/// Trusted: this is `mlua::Table::get`.
#[verifier::external_body]
fn value_under(table: &mlua::Table, name: &str) -> Result<mlua::Value, mlua::Error> {
    table.get::<mlua::Value>(name)
}

/// The interpreter's error in words.
///
/// Trusted: this is the `Display` of `mlua::Error`.
#[verifier::external_body]
fn error_text(error: &mlua::Error) -> String {
    error.to_string()
}

/// What a value of the interpreter is, one level deep: what it holds where
/// it is `nil`, a truth value or text, and the table itself where it is one.
pub enum ValueKind {
    Nil,
    Boolean(bool),
    /// A string, with bytes that are not UTF-8 replaced.
    Text(String),
    Table(mlua::Table),
    /// A number, a function, or anything else.
    Other,
}

/// Tells what `value` is.
///
/// Trusted: this tells the variants of `mlua::Value` apart and moves out
/// what they hold; a string is read with `mlua::String::to_string_lossy`.
/// Nothing is claimed of the result.
#[verifier::external_body]
fn kind_of(value: &mlua::Value) -> ValueKind {
    match value {
        mlua::Value::Nil => ValueKind::Nil,
        mlua::Value::Boolean(flag) => ValueKind::Boolean(*flag),
        mlua::Value::String(text) => ValueKind::Text(text.to_string_lossy()),
        mlua::Value::Table(table) => ValueKind::Table(table.clone()),
        _ => ValueKind::Other,
    }
}

/// The values that `table` holds under the keys 1, 2, 3 and so on, up to the
/// first key under which it holds nothing.
///
/// Trusted: this is `mlua::Table::sequence_values`, collected.
#[verifier::external_body]
fn sequence_of(table: &mlua::Table) -> Result<Vec<mlua::Value>, mlua::Error> {
    table.sequence_values::<mlua::Value>().collect()
}

/// Every key of `table` with the value under it, in the interpreter's order.
///
/// Trusted: this is `mlua::Table::pairs`, collected.
#[verifier::external_body]
fn pairs_of(table: &mlua::Table) -> Result<Vec<(mlua::Value, mlua::Value)>, mlua::Error> {
    table.pairs::<mlua::Value, mlua::Value>().collect()
}

/// The failure of a script, from the interpreter's words for it.
fn script_error(message: String) -> (failure: RockspecError)
    ensures
        failure == (RockspecError::Script { message }),
{
    RockspecError::Script { message }
}

/// Whether the tables of `value` lie at most `depth` levels deep: a value
/// that is no table always does, and a table does where `depth` is not
/// spent and what it holds lies at most one level less deep.
pub open spec fn within_depth(value: ValueModel, depth: nat) -> bool
    decreases depth,
{
    match value {
        ValueModel::Table(table) => {
            &&& depth > 0
            &&& forall|i: int|
                0 <= i < table.items.len() ==> within_depth(
                    #[trigger] table.items[i],
                    (depth - 1) as nat,
                )
            &&& forall|i: int|
                0 <= i < table.fields.len() ==> within_depth(
                    (#[trigger] table.fields[i]).value,
                    (depth - 1) as nat,
                )
        },
        _ => true,
    }
}

/// Whether `copy` is what copying a value of kind `kind` yields when tables
/// are followed `depth` levels down: `nil`, truth values and text are
/// copied as they are, a table is copied as a table of at most `depth`
/// levels while `depth` lasts and as `Other` beyond, and every other value
/// as `Other`.
pub open spec fn lowers(kind: ValueKind, depth: nat, copy: ValueModel) -> bool {
    match kind {
        ValueKind::Nil => copy == ValueModel::Nil,
        ValueKind::Boolean(flag) => copy == ValueModel::Boolean(flag),
        ValueKind::Text(text) => copy == ValueModel::Text(text@),
        ValueKind::Table(_) => if depth == 0 {
            copy == ValueModel::Other
        } else {
            copy is Table && within_depth(copy, depth)
        },
        ValueKind::Other => copy == ValueModel::Other,
    }
}

/// A copy made `depth` levels down holds no table that lies deeper.
proof fn lemma_copy_within_depth(kind: ValueKind, depth: nat, copy: ValueModel)
    requires
        lowers(kind, depth, copy),
    ensures
        within_depth(copy, depth),
{
}

/// Whether copying a value of kind `kind` reads a table, which the
/// interpreter may refuse.
pub open spec fn reads_table(kind: ValueKind, depth: nat) -> bool {
    kind is Table && depth > 0
}

/// The entries of `pairs` whose key is text, in order, each as the key's
/// text and the kind of the value.
pub open spec fn named_pairs(pairs: Seq<(ValueKind, ValueKind)>) -> Seq<(Seq<char>, ValueKind)>
    decreases pairs.len(),
{
    if pairs.len() == 0 {
        Seq::empty()
    } else {
        let before = named_pairs(pairs.drop_last());
        match pairs.last().0 {
            ValueKind::Text(name) => before.push((name@, pairs.last().1)),
            _ => before,
        }
    }
}

/// Whether `copy` is what copying a table yields whose sequence holds
/// values of the kinds `items` and whose entries are of the kinds `pairs`:
/// one item for each value of the sequence, and one field for each entry
/// under a text key, in order.
pub open spec fn lowers_table(
    items: Seq<ValueKind>,
    pairs: Seq<(ValueKind, ValueKind)>,
    depth: nat,
    copy: TableModel,
) -> bool {
    &&& copy.items.len() == items.len()
    &&& forall|i: int| 0 <= i < items.len() ==> lowers(items[i], depth, #[trigger] copy.items[i])
    &&& copy.fields.len() == named_pairs(pairs).len()
    &&& forall|i: int|
        0 <= i < copy.fields.len() ==> (#[trigger] copy.fields[i]).name == named_pairs(pairs)[i].0
            && lowers(named_pairs(pairs)[i].1, depth, copy.fields[i].value)
}

/// The kinds of `values`, in order.
fn kinds_of(values: &Vec<mlua::Value>) -> (kinds: Vec<ValueKind>)
    ensures
        kinds@.len() == values@.len(),
{
    let mut kinds: Vec<ValueKind> = Vec::new();
    let mut i: usize = 0;
    while i < values.len()
        invariant
            i <= values.len(),
            kinds@.len() == i,
        decreases values.len() - i,
    {
        kinds.push(kind_of(&values[i]));
        i += 1;
    }
    kinds
}

/// The kinds of the keys and values of `pairs`, in order.
fn pair_kinds_of(pairs: &Vec<(mlua::Value, mlua::Value)>) -> (kinds: Vec<(ValueKind, ValueKind)>)
    ensures
        kinds@.len() == pairs@.len(),
{
    let mut kinds: Vec<(ValueKind, ValueKind)> = Vec::new();
    let mut i: usize = 0;
    while i < pairs.len()
        invariant
            i <= pairs.len(),
            kinds@.len() == i,
        decreases pairs.len() - i,
    {
        kinds.push((kind_of(&pairs[i].0), kind_of(&pairs[i].1)));
        i += 1;
    }
    kinds
}

/// Copies a value of kind `kind` out of the interpreter. Tables are followed
/// `depth` levels down; one that lies deeper is copied as `Other`, as is
/// every value that is neither `nil`, a truth value, text nor a table.
///
/// Only reading a table can fail.
fn lower(kind: &ValueKind, depth: usize) -> (copy: Result<LuaValue, RockspecError>)
    ensures
        copy matches Ok(value) ==> lowers(*kind, depth as nat, value@),
        !reads_table(*kind, depth as nat) ==> copy is Ok,
        copy matches Err(failure) ==> failure is Script,
    decreases depth, 0nat,
{
    match kind {
        ValueKind::Nil => Ok(LuaValue::Nil),
        ValueKind::Boolean(flag) => Ok(LuaValue::Boolean(*flag)),
        ValueKind::Text(text) => Ok(LuaValue::Text(text.clone())),
        ValueKind::Other => Ok(LuaValue::Other),
        ValueKind::Table(table) => {
            if depth == 0 {
                return Ok(LuaValue::Other);
            }
            let sequence = match sequence_of(table) {
                Ok(sequence) => sequence,
                Err(error) => return Err(script_error(error_text(&error))),
            };
            let pairs = match pairs_of(table) {
                Ok(pairs) => pairs,
                Err(error) => return Err(script_error(error_text(&error))),
            };
            let items = kinds_of(&sequence);
            let entries = pair_kinds_of(&pairs);
            match lower_table(&items, &entries, depth - 1) {
                Ok(copy) => {
                    proof {
                        lemma_table_view(copy);
                        let below = (depth - 1) as nat;
                        assert forall|i: int| 0 <= i < copy@.items.len() implies within_depth(
                            #[trigger] copy@.items[i],
                            below,
                        ) by {
                            lemma_copy_within_depth(items@[i], below, copy@.items[i]);
                        }
                        assert forall|i: int| 0 <= i < copy@.fields.len() implies within_depth(
                            (#[trigger] copy@.fields[i]).value,
                            below,
                        ) by {
                            lemma_copy_within_depth(
                                named_pairs(entries@)[i].1,
                                below,
                                copy@.fields[i].value,
                            );
                        }
                    }
                    Ok(LuaValue::Table(copy))
                },
                Err(failure) => Err(failure),
            }
        },
    }
}

/// Copies a table out of the interpreter, from the kinds `items` of the
/// values of its sequence and the kinds `pairs` of its entries: every value
/// of the sequence is copied, and every entry under a text key. What the
/// table holds under other keys is left behind.
///
/// Only reading a table that lies inside can fail.
fn lower_table(items: &Vec<ValueKind>, pairs: &Vec<(ValueKind, ValueKind)>, depth: usize) -> (copy:
    Result<LuaTable, RockspecError>)
    ensures
        copy matches Ok(table) ==> lowers_table(items@, pairs@, depth as nat, table@),
        (forall|i: int| 0 <= i < items@.len() ==> !reads_table(#[trigger] items@[i], depth as nat))
            && (forall|i: int|
            0 <= i < pairs@.len() ==> !reads_table((#[trigger] pairs@[i]).1, depth as nat))
            ==> copy is Ok,
        copy matches Err(failure) ==> failure is Script,
    decreases depth, 1nat,
{
    let mut copied: Vec<LuaValue> = Vec::new();
    let mut i: usize = 0;
    while i < items.len()
        invariant
            i <= items.len(),
            copied@.len() == i,
            forall|n: int| 0 <= n < i ==> lowers(items@[n], depth as nat, (#[trigger] copied@[n])@),
        decreases items.len() - i,
    {
        match lower(&items[i], depth) {
            Ok(item) => copied.push(item),
            Err(failure) => return Err(failure),
        }
        i += 1;
    }
    let mut fields: Vec<LuaField> = Vec::new();
    let mut k: usize = 0;
    assert(pairs@.take(0) == Seq::<(ValueKind, ValueKind)>::empty());
    while k < pairs.len()
        invariant
            k <= pairs.len(),
            fields@.len() == named_pairs(pairs@.take(k as int)).len(),
            forall|n: int|
                0 <= n < fields@.len() ==> (#[trigger] fields@[n]).name@ == named_pairs(
                    pairs@.take(k as int),
                )[n].0 && lowers(
                    named_pairs(pairs@.take(k as int))[n].1,
                    depth as nat,
                    fields@[n].value@,
                ),
        decreases pairs.len() - k,
    {
        proof {
            let next = pairs@.take(k + 1);
            assert(next.drop_last() == pairs@.take(k as int));
            assert(next.last() == pairs@[k as int]);
        }
        if let ValueKind::Text(name) = &pairs[k].0 {
            match lower(&pairs[k].1, depth) {
                Ok(value) => fields.push(LuaField { name: name.clone(), value }),
                Err(failure) => return Err(failure),
            }
        }
        k += 1;
    }
    assert(pairs@.take(pairs@.len() as int) == pairs@);
    let table = LuaTable { items: copied, fields };
    Ok(table)
}

/// A document that was evaluated, with the globals that it left behind.
pub struct Document {
    lua: mlua::Lua,
}

impl Document {
    /// Evaluates `script` in an interpreter of its own.
    ///
    /// The global variables called `names` hold nothing when the script
    /// starts, so that what they hold afterwards is what the script assigned:
    /// the interpreter's library keeps a table of its own under `package`.
    pub fn evaluate(script: &str, names: &[&str]) -> (document: Result<Document, RockspecError>)
        ensures
            document matches Err(failure) ==> failure is Script,
    {
        let lua = new_interpreter();
        let globals = global_table(&lua);
        let mut i: usize = 0;
        while i < names.len()
            invariant
                i <= names.len(),
            decreases names.len() - i,
        {
            if let Err(error) = clear_key(&globals, names[i]) {
                return Err(script_error(error_text(&error)));
            }
            i += 1;
        }
        match run_script(&lua, script) {
            Ok(_) => Ok(Document { lua }),
            Err(error) => Err(script_error(error_text(&error))),
        }
    }

    /// What the document assigned to the global variable `name`, copied out
    /// of the interpreter with its tables followed [`MAX_TABLE_DEPTH`] levels
    /// down.
    pub fn global(&self, name: &str) -> (value: Result<LuaValue, RockspecError>)
        ensures
            value matches Ok(value) ==> within_depth(value@, MAX_TABLE_DEPTH as nat),
            value matches Err(failure) ==> failure is Script,
    {
        match value_under(&global_table(&self.lua), name) {
            Ok(value) => {
                let kind = kind_of(&value);
                let copy = lower(&kind, MAX_TABLE_DEPTH);
                proof {
                    if copy is Ok {
                        lemma_copy_within_depth(kind, MAX_TABLE_DEPTH as nat, copy->Ok_0@);
                    }
                }
                copy
            },
            Err(error) => Err(script_error(error_text(&error))),
        }
    }

    /// The global variables called `names`, as a table: one field for each
    /// name to which the document assigned something, in the order of
    /// `names`.
    ///
    /// What a variable holds is the interpreter's to say, so the table is
    /// stated over the values that were read, whatever they are. Where no
    /// name is asked for, nothing is read and the table is empty.
    pub fn globals(&self, names: &[&str]) -> (table: Result<LuaTable, RockspecError>)
        ensures
            table matches Ok(table) ==> table@.items.len() == 0 && exists|values: Seq<ValueModel>|
                values.len() == names@.len() && table@.fields == #[trigger] gathered(
                    names@,
                    values,
                ) && forall|i: int|
                    0 <= i < values.len() ==> within_depth(
                        #[trigger] values[i],
                        MAX_TABLE_DEPTH as nat,
                    ),
            names@.len() == 0 ==> table is Ok,
            table matches Err(failure) ==> failure is Script,
    {
        let mut table = LuaTable::new();
        let mut i: usize = 0;
        let ghost mut values: Seq<ValueModel> = Seq::empty();
        assert(names@.take(0) == Seq::<&str>::empty());
        assert(table@.fields =~= gathered(names@.take(0), values));
        while i < names.len()
            invariant
                i <= names.len(),
                table.items@.len() == 0,
                values.len() == i,
                table@.fields == gathered(names@.take(i as int), values),
                forall|n: int|
                    0 <= n < values.len() ==> within_depth(
                        #[trigger] values[n],
                        MAX_TABLE_DEPTH as nat,
                    ),
            decreases names.len() - i,
        {
            let ghost before = table@.fields;
            let ghost read = values;
            proof {
                let next = names@.take(i + 1);
                assert(next.drop_last() == names@.take(i as int));
                assert(next.last() == names@[i as int]);
            }
            match self.global(names[i]) {
                Ok(LuaValue::Nil) => {
                    proof {
                        values = read.push(ValueModel::Nil);
                        assert(values.drop_last() == read);
                    }
                },
                Ok(value) => {
                    let field = LuaField { name: String::from_str(names[i]), value };
                    proof {
                        values = read.push(field.value@);
                        assert(values.drop_last() == read);
                    }
                    table.fields.push(field);
                    assert(table@.fields =~= before.push(field@));
                },
                Err(failure) => return Err(failure),
            }
            i += 1;
        }
        assert(names@.take(names@.len() as int) == names@);
        Ok(table)
    }
}

/// The fields that the variables called `names` make when they hold
/// `values`: one for each variable that holds something, in order.
pub open spec fn gathered(names: Seq<&str>, values: Seq<ValueModel>) -> Seq<FieldModel>
    decreases names.len(),
{
    if names.len() == 0 || values.len() != names.len() {
        Seq::empty()
    } else {
        let before = gathered(names.drop_last(), values.drop_last());
        if values.last() is Nil {
            before
        } else {
            before.push(FieldModel { name: names.last()@, value: values.last() })
        }
    }
}

} // verus!
