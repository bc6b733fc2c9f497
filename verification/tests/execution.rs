use lua_runner::discover::{discover, DirEntry, EntryData, PathData, ReadOutcome};
use lua_runner::runner::{execute_all, unit_failure, ExecOutcome, Phase};
use lua_runner::ScriptUnit;
use rlua::Lua;

fn bytes(s: &str) -> Vec<u8> {
    s.as_bytes().to_vec()
}

fn unit(path: &str, source: &str) -> ScriptUnit {
    ScriptUnit::new(bytes(path), String::from(source))
}

fn global_i64(lua: &Lua, name: &str) -> Option<i64> {
    lua.globals().get(name).unwrap()
}

#[test]
fn empty_sequence_succeeds() {
    let lua = Lua::new();
    let units: Vec<ScriptUnit> = Vec::new();
    assert!(execute_all(&lua, &units).is_ok());
}

#[test]
fn state_is_shared_across_scripts() {
    let lua = Lua::new();
    let units = vec![
        unit("a.lua", "counter = 1"),
        unit("b.lua", "counter = counter + 1; assert(counter == 2)"),
    ];
    assert!(execute_all(&lua, &units).is_ok());
    assert_eq!(global_i64(&lua, "counter"), Some(2));
}

#[test]
fn first_failure_stops_the_run() {
    let lua = Lua::new();
    let units = vec![
        unit("a.lua", "first_ran = 1"),
        unit("b.lua", "boom()"),
        unit("c.lua", "third_ran = 1"),
    ];
    let err = execute_all(&lua, &units).unwrap_err();
    assert_eq!(err.index, 1);
    assert_eq!(err.path, bytes("b.lua"));
    assert_eq!(err.phase, Phase::Run);
    // the diagnostic names the failing script by its display label
    assert!(err.detail.contains("b.lua"));
    // the script before the failure ran; the one after it was never attempted
    assert_eq!(global_i64(&lua, "first_ran"), Some(1));
    assert_eq!(global_i64(&lua, "third_ran"), None);
}

#[test]
fn syntax_error_is_a_compile_failure() {
    let lua = Lua::new();
    let units = vec![unit("broken.lua", "this is not lua")];
    let err = execute_all(&lua, &units).unwrap_err();
    assert_eq!(err.index, 0);
    assert_eq!(err.path, bytes("broken.lua"));
    assert_eq!(err.phase, Phase::Compile);
}

#[test]
fn runtime_error_is_distinguished_from_a_compile_failure() {
    let lua = Lua::new();
    let units = vec![unit("t.lua", "local t = nil; t()")];
    let err = execute_all(&lua, &units).unwrap_err();
    assert_eq!(err.index, 0);
    assert_eq!(err.phase, Phase::Run);
    assert_ne!(err.phase, Phase::Compile);
}

#[test]
fn label_that_is_not_text_fails_at_the_label_phase() {
    let lua = Lua::new();
    let mut path = vec![0xffu8];
    path.extend_from_slice(b".lua");
    let units = vec![ScriptUnit::new(path.clone(), String::from("x = 1"))];
    let err = execute_all(&lua, &units).unwrap_err();
    assert_eq!(err.index, 0);
    assert_eq!(err.path, path);
    assert_eq!(err.phase, Phase::Label);
    // nothing was executed
    assert_eq!(global_i64(&lua, "x"), None);
}

#[test]
fn label_with_an_interior_nul_fails_at_the_label_phase() {
    let lua = Lua::new();
    let units = vec![unit("a\0b.lua", "x = 1")];
    let err = execute_all(&lua, &units).unwrap_err();
    assert_eq!(err.index, 0);
    assert_eq!(err.phase, Phase::Label);
    // nothing was executed
    assert_eq!(global_i64(&lua, "x"), None);
}

#[test]
fn scripts_run_in_the_order_given() {
    let lua = Lua::new();
    let units = vec![
        unit("a.lua", "out = (out or '') .. '1'"),
        unit("b.lua", "out = (out or '') .. '2'"),
    ];
    assert!(execute_all(&lua, &units).is_ok());
    let out: String = lua.globals().get("out").unwrap();
    assert_eq!(out, "12");
}

#[test]
fn directory_scenario_runs_exactly_the_script_entries() {
    let lua = Lua::new();
    let listing = PathData::Directory(Some(vec![
        EntryData::Present(DirEntry {
            path: bytes("d/a.lua"),
            read: ReadOutcome::Text(String::from("out = (out or '') .. '1'")),
        }),
        EntryData::Present(DirEntry {
            path: bytes("d/readme.txt"),
            read: ReadOutcome::Text(String::from("ignored")),
        }),
        EntryData::Present(DirEntry {
            path: bytes("d/b.lua"),
            read: ReadOutcome::Text(String::from("out = (out or '') .. '2'")),
        }),
    ]));
    let units = discover(&bytes("d"), &listing).unwrap();
    assert_eq!(units.len(), 2);
    assert!(execute_all(&lua, &units).is_ok());
    let out: String = lua.globals().get("out").unwrap();
    assert_eq!(out, "12");
}

#[test]
fn unit_failure_reports_each_phase() {
    let path = bytes("p.lua");
    assert!(unit_failure(ExecOutcome::Completed, &path, 0).is_none());
    let e = unit_failure(ExecOutcome::LabelInvalid(String::from("bad label")), &path, 4).unwrap();
    assert_eq!(e.index, 4);
    assert_eq!(e.path, path);
    assert_eq!(e.phase, Phase::Label);
    assert_eq!(e.detail, "bad label");
    let e = unit_failure(ExecOutcome::CompileRejected(String::from("oops")), &path, 1).unwrap();
    assert_eq!(e.phase, Phase::Compile);
    assert_eq!(e.detail, "oops");
    let e = unit_failure(ExecOutcome::RunFailed(String::from("kaput")), &path, 2).unwrap();
    assert_eq!(e.phase, Phase::Run);
    assert_eq!(e.detail, "kaput");
}
