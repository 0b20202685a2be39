use lux_lib::error::RockspecError;
use lux_lib::interpreter::{Document, MAX_TABLE_DEPTH};
use lux_lib::value::{LuaField, LuaTable, LuaValue};

fn text(value: &str) -> LuaValue {
    LuaValue::Text(value.to_string())
}

#[test]
fn globals_are_copied_out_as_plain_values() {
    let document = Document::evaluate(
        "name = 'foo'\nflag = true\ncount = 3\nhalf = 0.5\nf = function() end",
        &[],
    )
    .unwrap();
    assert_eq!(document.global("name"), Ok(text("foo")));
    assert_eq!(document.global("flag"), Ok(LuaValue::Boolean(true)));
    assert_eq!(document.global("count"), Ok(LuaValue::Other));
    assert_eq!(document.global("half"), Ok(LuaValue::Other));
    assert_eq!(document.global("f"), Ok(LuaValue::Other));
    assert_eq!(document.global("missing"), Ok(LuaValue::Nil));
}

#[test]
fn tables_keep_their_sequence_and_their_string_keys() {
    let document =
        Document::evaluate("t = { 'a', 'b', k = 'v', [true] = 'x', [10] = 'far' }", &[]).unwrap();
    assert_eq!(
        document.global("t"),
        Ok(LuaValue::Table(LuaTable {
            items: vec![text("a"), text("b")],
            fields: vec![LuaField { name: "k".to_string(), value: text("v") }],
        }))
    );
}

#[test]
fn a_sequence_ends_at_the_first_gap() {
    let document = Document::evaluate("t = { 'a', nil, 'c' }", &[]).unwrap();
    assert_eq!(
        document.global("t"),
        Ok(LuaValue::Table(LuaTable { items: vec![text("a")], fields: Vec::new() }))
    );
}

#[test]
fn tables_are_followed_to_a_fixed_depth() {
    let mut script = String::from("t = ");
    for _ in 0..MAX_TABLE_DEPTH + 1 {
        script.push_str("{ ");
    }
    for _ in 0..MAX_TABLE_DEPTH + 1 {
        script.push_str(" }");
    }
    let document = Document::evaluate(&script, &[]).unwrap();
    let mut value = document.global("t").unwrap();
    let mut depth = 0;
    while let LuaValue::Table(mut table) = value {
        depth += 1;
        value = match table.items.pop() {
            Some(inner) => inner,
            None => LuaValue::Nil,
        };
    }
    assert_eq!(depth, MAX_TABLE_DEPTH);
    assert_eq!(value, LuaValue::Other);
}

#[test]
fn a_table_that_holds_itself_is_read_to_the_same_depth() {
    let document = Document::evaluate("t = {}\nt.me = t", &[]).unwrap();
    let mut value = document.global("t").unwrap();
    let mut depth = 0;
    while let LuaValue::Table(mut table) = value {
        depth += 1;
        assert_eq!(table.fields.len(), 1);
        assert_eq!(table.fields[0].name, "me");
        value = table.fields.pop().unwrap().value;
    }
    assert_eq!(depth, MAX_TABLE_DEPTH);
    assert_eq!(value, LuaValue::Other);
}

#[test]
fn text_that_is_not_utf8_is_read_leniently() {
    let document = Document::evaluate("s = 'a\\xffb'", &[]).unwrap();
    assert_eq!(document.global("s"), Ok(text("a\u{fffd}b")));
}

#[test]
fn named_globals_start_out_empty() {
    let untouched = Document::evaluate("", &[]).unwrap();
    assert!(matches!(untouched.global("package"), Ok(LuaValue::Table(_))));
    let cleared = Document::evaluate("", &["package"]).unwrap();
    assert_eq!(cleared.global("package"), Ok(LuaValue::Nil));
    let assigned = Document::evaluate("package = 'p'", &["package"]).unwrap();
    assert_eq!(assigned.global("package"), Ok(text("p")));
}

#[test]
fn globals_are_gathered_in_the_order_asked() {
    let document = Document::evaluate("b = 'two'\na = 'one'\nc = nil", &["a", "b", "c"]).unwrap();
    assert_eq!(
        document.globals(&["a", "c", "b", "d"]),
        Ok(LuaTable {
            items: Vec::new(),
            fields: vec![
                LuaField { name: "a".to_string(), value: text("one") },
                LuaField { name: "b".to_string(), value: text("two") },
            ],
        })
    );
    assert_eq!(document.globals(&[]), Ok(LuaTable::new()));
}

#[test]
fn a_script_that_cannot_run_is_reported() {
    assert!(matches!(
        Document::evaluate("this is not a script", &[]),
        Err(RockspecError::Script { .. })
    ));
    match Document::evaluate("error('stop here')", &[]) {
        Err(RockspecError::Script { message }) => assert!(message.contains("stop here")),
        Ok(_) => panic!("the script ran"),
        Err(other) => panic!("unexpected error: {:?}", other),
    }
}

#[test]
fn the_library_is_the_safe_one() {
    let document = Document::evaluate("has_debug = debug ~= nil\nhas_string = string ~= nil", &[])
        .unwrap();
    assert_eq!(document.global("has_debug"), Ok(LuaValue::Boolean(false)));
    assert_eq!(document.global("has_string"), Ok(LuaValue::Boolean(true)));
}
