use wmrust::script_converter::{
    actions_to_lua, convert_script_data, parse_script, val_expr, ConvertError, Converted, ScriptAction,
    ScriptEntry,
};

#[test]
fn test_parse_empty_script() {
    // A script with 0 actions: just a 4-byte i32 = 0
    let data = 0i32.to_le_bytes();
    let actions = parse_script(&data).unwrap();
    assert!(actions.is_empty());
}

const HEADER: &str = "-- Auto-converted from .script binary format\nlocal vars = {}\nfor i = 0, 19 do vars[i] = 0 end\n\n";

fn push_i32(out: &mut Vec<u8>, v: i32) {
    out.extend_from_slice(&v.to_le_bytes());
}

fn dialog_then_end(text: &[u8]) -> Vec<u8> {
    let mut d = Vec::new();
    push_i32(&mut d, 2);
    // action 0: dialog with one text entry
    push_i32(&mut d, 0);
    push_i32(&mut d, 1);
    push_i32(&mut d, 1);
    push_i32(&mut d, text.len() as i32);
    d.push(0);
    d.extend_from_slice(text);
    // action 3: end of script
    push_i32(&mut d, 3);
    push_i32(&mut d, 0);
    d
}

#[test]
fn parse_dialog_script() {
    let data = dialog_then_end(b"Hello\0\0");
    let actions = parse_script(&data).unwrap();
    assert_eq!(actions.len(), 2);
    assert_eq!(actions[0].action_type, 0);
    assert_eq!(actions[0].entries.len(), 1);
    assert_eq!(actions[0].entries[0].value, 7);
    let text: String = actions[0].entries[0].text.clone().unwrap().into_iter().collect();
    assert_eq!(text, "Hello");
    assert_eq!(actions[1].action_type, 3);
}

#[test]
fn truncated_script_is_an_error() {
    let mut data = dialog_then_end(b"Hello");
    data.truncate(data.len() - 2);
    assert_eq!(parse_script(&data).err(), Some(ConvertError::UnexpectedEof));
    assert_eq!(parse_script(&[1, 0]).err(), Some(ConvertError::UnexpectedEof));
}

#[test]
fn converts_dialog_to_lua() {
    let data = dialog_then_end(b"Say \"hi\"\n");
    match convert_script_data(&data) {
        Converted::Done(lua) => {
            let expected = format!("{}wm.message(\"Say \\\"hi\\\"\\n\", 0)\nreturn -- end script\n", HEADER);
            assert_eq!(lua, expected);
            assert!(lua.starts_with("-- Auto-converted"));
        }
        _ => panic!("conversion failed"),
    }
}

#[test]
fn empty_script_gives_header_only() {
    match convert_script_data(&0i32.to_le_bytes()) {
        Converted::Done(lua) => assert_eq!(lua, HEADER),
        _ => panic!("conversion failed"),
    }
    let actions = parse_script(&0i32.to_le_bytes()).unwrap();
    assert_eq!(actions_to_lua(&actions).unwrap(), HEADER);
}

#[test]
fn unknown_opcode_is_reported() {
    let mut d = Vec::new();
    push_i32(&mut d, 1);
    push_i32(&mut d, 300);
    push_i32(&mut d, 0);
    let actions = parse_script(&d).unwrap();
    assert_eq!(actions_to_lua(&actions).err(), Some(ConvertError::UnknownOpcode(44)));
}

#[test]
fn negative_action_count_is_refused() {
    let data = (-1i32).to_le_bytes();
    assert!(matches!(convert_script_data(&data), Converted::Panics));
}

#[test]
fn value_expressions() {
    let plain = ScriptEntry { entry_type: 0, value: 42, var: 0, text: None };
    assert_eq!(val_expr(&plain), "42");
    let var = ScriptEntry { entry_type: 0, value: 3, var: 1, text: None };
    assert_eq!(val_expr(&var), "vars[3]");
    let neg = ScriptEntry { entry_type: 0, value: -7, var: 0, text: None };
    assert_eq!(val_expr(&neg), "-7");
}

fn number(value: i32) -> ScriptEntry {
    ScriptEntry { entry_type: 0, value, var: 0, text: None }
}

#[test]
fn only_reached_codes_decide_conversion() {
    let skipping = vec![
        ScriptAction { action_type: 5, entries: vec![number(0), number(1)] },
        ScriptAction { action_type: 300, entries: vec![] },
    ];
    let lua = actions_to_lua(&skipping).unwrap();
    assert!(lua.starts_with(HEADER));
    let reaching = vec![
        ScriptAction { action_type: 5, entries: vec![number(0), number(0)] },
        ScriptAction { action_type: 300, entries: vec![] },
    ];
    assert_eq!(actions_to_lua(&reaching).err(), Some(ConvertError::UnknownOpcode(44)));
}
