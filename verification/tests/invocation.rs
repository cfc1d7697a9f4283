use lodestone_core::executor::MacroExecutor;
use lodestone_core::invocation::candidate;
use lodestone_core::invocation::choose_macro;
use lodestone_core::invocation::macro_probe_paths;
use lodestone_core::invocation::resolve_macro_invocation;
use lodestone_core::invocation::MacroChoice;
use lodestone_core::invocation::MacroProbe;
use lodestone_core::pid::MacroPID;
use std::io::Write;

fn probe(ts: bool, js: bool, folder: bool, index_ts: bool, index_js: bool) -> MacroProbe {
    MacroProbe {
        ts_is_file: ts,
        js_is_file: js,
        folder_is_dir: folder,
        index_ts_exists: index_ts,
        index_js_exists: index_js,
    }
}

fn write_file(dir: &std::path::Path, name: &str, content: &str) {
    let mut file =
        tempfile::Builder::new().prefix(name).rand_bytes(0).tempfile_in(dir).unwrap();
    file.write_all(content.as_bytes()).unwrap();
    file.keep().unwrap();
}

fn make_dir(dir: &std::path::Path, name: &str) -> std::path::PathBuf {
    tempfile::Builder::new().prefix(name).rand_bytes(0).tempdir_in(dir).unwrap().keep()
}

#[test]
fn the_typescript_file_wins_over_everything() {
    assert_eq!(choose_macro(probe(true, true, true, true, true), false), MacroChoice::TsFile);
    assert_eq!(choose_macro(probe(false, true, true, true, true), false), MacroChoice::JsFile);
    assert_eq!(choose_macro(probe(false, false, true, true, true), true), MacroChoice::IndexTs);
    assert_eq!(choose_macro(probe(false, false, true, false, true), true), MacroChoice::IndexJs);
}

#[test]
fn a_folder_without_index_ends_the_search() {
    assert_eq!(choose_macro(probe(false, false, true, false, false), false), MacroChoice::Nothing);
    assert_eq!(choose_macro(probe(false, false, true, false, false), true), MacroChoice::Nothing);
}

#[test]
fn without_a_folder_the_search_goes_in_game_once() {
    assert_eq!(
        choose_macro(probe(false, false, false, true, true), false),
        MacroChoice::LookInGame
    );
    assert_eq!(choose_macro(probe(false, false, false, true, true), true), MacroChoice::Nothing);
}

#[test]
fn the_probed_paths_are_built_from_base_and_name() {
    let paths = macro_probe_paths("/m", "basic");
    assert_eq!(paths.folder, "/m/basic");
    assert_eq!(paths.ts, "/m/basic.ts");
    assert_eq!(paths.js, "/m/basic.js");
    assert_eq!(paths.index_ts, "/m/basic/index.ts");
    assert_eq!(paths.index_js, "/m/basic/index.js");
    let paths = macro_probe_paths("/m/in_game/", "v1.2");
    assert_eq!(paths.folder, "/m/in_game/v1.2");
    assert_eq!(paths.ts, "/m/in_game/v1.ts");
    assert_eq!(paths.js, "/m/in_game/v1.js");
    assert_eq!(paths.index_ts, "/m/in_game/v1.2/index.ts");
}

#[test]
fn only_the_javascript_file_on_disk_resolves_to_it() {
    let dir = tempfile::tempdir().unwrap();
    let root = dir.path().to_str().unwrap().to_string();
    write_file(dir.path(), "only.js", "");
    assert_eq!(resolve_macro_invocation(&root, "only", false), Some(format!("{root}/only.js")));
    write_file(dir.path(), "other.ts", "");
    assert_eq!(resolve_macro_invocation(&root, "other", false), Some(format!("{root}/other.ts")));
}

#[test]
fn candidates_are_built_from_base_and_name() {
    assert_eq!(candidate("/m", "basic", MacroChoice::TsFile).as_deref(), Some("/m/basic.ts"));
    assert_eq!(candidate("/m", "basic", MacroChoice::JsFile).as_deref(), Some("/m/basic.js"));
    assert_eq!(
        candidate("/m", "basic", MacroChoice::IndexTs).as_deref(),
        Some("/m/basic/index.ts")
    );
    assert_eq!(
        candidate("/m/", "basic", MacroChoice::IndexJs).as_deref(),
        Some("/m/basic/index.js")
    );
    assert_eq!(candidate("/m", "v1.2", MacroChoice::TsFile).as_deref(), Some("/m/v1.ts"));
    assert_eq!(candidate("/m", "basic", MacroChoice::LookInGame), None);
    assert_eq!(candidate("/m", "basic", MacroChoice::Nothing), None);
}

#[test]
fn test_macro_executor() {
    let mut executor = MacroExecutor::new();
    let path_to_macros = tempfile::Builder::new()
        .prefix("macro_executor_test")
        .tempdir()
        .unwrap()
        .keep();
    let root = path_to_macros.to_str().unwrap().to_string();

    write_file(&path_to_macros, "basic.js", "console.log('hello world')");
    let path_to_main_module = resolve_macro_invocation(&root, "basic", false)
        .expect("Failed to resolve macro invocation");
    assert_eq!(path_to_main_module, format!("{root}/basic.js"));
    let plan = executor.spawn(path_to_main_module, vec![], None, None);
    assert_eq!(plan.macro_pid, MacroPID(0));

    write_file(
        &path_to_macros,
        "loop.js",
        "
            console.log('starting loop');
            for (let i = 0; i < 1000; i++) {
                // await new Promise(r => setTimeout(r, 0));
                console.log(i);
            }",
    );
    for i in 0..1000 {
        let path_to_main_module = resolve_macro_invocation(&root, "loop", false)
            .expect("Failed to resolve macro invocation");
        assert_eq!(path_to_main_module, format!("{root}/loop.js"));
        let plan = executor.spawn(path_to_main_module, vec![], None, None);
        assert_eq!(plan.macro_pid, MacroPID(i + 1));
    }
}

#[test]
fn macros_resolve_on_disk() {
    let dir = tempfile::tempdir().unwrap();
    let root = dir.path().to_str().unwrap().to_string();

    write_file(dir.path(), "both.ts", "");
    write_file(dir.path(), "both.js", "");
    assert_eq!(
        resolve_macro_invocation(&root, "both", false),
        Some(format!("{root}/both.ts"))
    );

    let folder = make_dir(dir.path(), "folder");
    write_file(&folder, "index.js", "");
    assert_eq!(
        resolve_macro_invocation(&root, "folder", false),
        Some(format!("{root}/folder/index.js"))
    );
    write_file(&folder, "index.ts", "");
    assert_eq!(
        resolve_macro_invocation(&root, "folder", false),
        Some(format!("{root}/folder/index.ts"))
    );

    make_dir(dir.path(), "hollow");
    assert_eq!(resolve_macro_invocation(&root, "hollow", false), None);
    assert_eq!(resolve_macro_invocation(&root, "missing", false), None);
    assert_eq!(resolve_macro_invocation(&root, "missing", true), None);
}

#[test]
fn in_game_macros_are_looked_for_below_in_game() {
    let dir = tempfile::tempdir().unwrap();
    let root = dir.path().to_str().unwrap().to_string();
    let in_game = make_dir(dir.path(), "in_game");
    write_file(&in_game, "greet.ts", "");
    assert_eq!(
        resolve_macro_invocation(&root, "greet", true),
        Some(format!("{root}/in_game/greet.ts"))
    );
    // A search from the top that finds nothing is made again as an in-game search
    // from `in_game/`, which looks one level further down.
    assert_eq!(resolve_macro_invocation(&root, "greet", false), None);
    let nested = make_dir(&in_game, "in_game");
    write_file(&nested, "deep.js", "");
    assert_eq!(
        resolve_macro_invocation(&root, "deep", false),
        Some(format!("{root}/in_game/in_game/deep.js"))
    );
}
