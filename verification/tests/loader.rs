use lodestone_core::loader::finish_module;
use lodestone_core::loader::index_ts_path;
use lodestone_core::loader::sibling_paths;
use lodestone_core::loader::kind_for_file;
use lodestone_core::loader::kind_for_response;
use lodestone_core::loader::module_kind;
use lodestone_core::loader::module_source;
use lodestone_core::loader::with_index_file;
use lodestone_core::loader::with_inferred_extension;
use lodestone_core::loader::LoadError;
use lodestone_core::loader::LoadRoute;
use lodestone_core::loader::MediaType;
use lodestone_core::loader::ModuleKind;
use lodestone_core::loader::ModuleSpecifier;
use lodestone_core::loader::ModuleType;
use lodestone_core::loader::RemoteResponse;
use lodestone_core::loader::TypescriptModuleLoader;
use std::io::Write;

fn file_specifier(path: &str) -> ModuleSpecifier {
    ModuleSpecifier {
        text: format!("file://{}", path),
        scheme: "file".to_string(),
        file_path: Some(path.to_string()),
    }
}

fn remote_specifier(url: &str) -> ModuleSpecifier {
    let scheme = url.split(':').next().unwrap().to_string();
    ModuleSpecifier { text: url.to_string(), scheme, file_path: None }
}

fn response(content_type: Option<&str>, body: &str) -> RemoteResponse {
    RemoteResponse {
        status_is_success: true,
        content_type: content_type.map(|c| c.to_string()),
        body: Ok(body.to_string()),
    }
}

#[test]
fn media_types_map_to_module_kinds() {
    for media_type in [MediaType::JavaScript, MediaType::Mjs, MediaType::Cjs] {
        assert_eq!(
            module_kind(media_type),
            Some(ModuleKind {
                media_type,
                module_type: ModuleType::JavaScript,
                should_transpile: false
            })
        );
    }
    for media_type in [
        MediaType::Jsx,
        MediaType::TypeScript,
        MediaType::Mts,
        MediaType::Cts,
        MediaType::Tsx,
        MediaType::Dts,
        MediaType::Dmts,
        MediaType::Dcts,
    ] {
        assert_eq!(
            module_kind(media_type),
            Some(ModuleKind {
                media_type,
                module_type: ModuleType::JavaScript,
                should_transpile: true
            })
        );
    }
    assert_eq!(
        module_kind(MediaType::Json),
        Some(ModuleKind {
            media_type: MediaType::Json,
            module_type: ModuleType::Json,
            should_transpile: false
        })
    );
    for media_type in [
        MediaType::Css,
        MediaType::Jsonc,
        MediaType::Json5,
        MediaType::Html,
        MediaType::Markdown,
        MediaType::Sql,
        MediaType::Wasm,
        MediaType::SourceMap,
        MediaType::Unknown,
    ] {
        assert_eq!(module_kind(media_type), None);
    }
}

#[test]
fn the_kind_of_a_file_follows_its_media_type() {
    let kind = kind_for_file(MediaType::Tsx, Some("tsx".to_string())).unwrap();
    assert_eq!(kind, module_kind(MediaType::Tsx).unwrap());
    assert!(kind.should_transpile);
    let kind = kind_for_file(MediaType::Json, None).unwrap();
    assert_eq!(kind.module_type, ModuleType::Json);
    match kind_for_file(MediaType::Wasm, Some("wasm".to_string())).unwrap_err() {
        LoadError::UnknownExtension { extension } => assert_eq!(extension.as_deref(), Some("wasm")),
        other => panic!("unexpected error {:?}", other),
    }
    assert!(matches!(
        kind_for_file(MediaType::Unknown, None).unwrap_err(),
        LoadError::UnknownExtension { extension: None }
    ));
}

#[test]
fn the_kind_of_a_response_is_checked_in_order() {
    let url = "https://example.invalid/mod.ts";
    let ts = Some("text/typescript".to_string());
    assert!(matches!(
        kind_for_response(url, false, ts.clone(), Some(MediaType::TypeScript)).unwrap_err(),
        LoadError::FetchFailed { .. }
    ));
    assert!(matches!(
        kind_for_response(url, true, None, Some(MediaType::TypeScript)).unwrap_err(),
        LoadError::NoContentType
    ));
    assert!(matches!(
        kind_for_response(url, true, ts.clone(), None).unwrap_err(),
        LoadError::UnsupportedSpecifier { .. }
    ));
    match kind_for_response(url, true, Some("text/css".to_string()), Some(MediaType::Css))
        .unwrap_err()
    {
        LoadError::UnknownContentType { content_type } => assert_eq!(content_type, "text/css"),
        other => panic!("unexpected error {:?}", other),
    }
    let kind = kind_for_response(url, true, ts, Some(MediaType::TypeScript)).unwrap();
    assert_eq!(kind.media_type, MediaType::TypeScript);
    assert_eq!(kind.module_type, ModuleType::JavaScript);
    assert!(kind.should_transpile);
    let kind =
        kind_for_response(url, true, Some("x".to_string()), Some(MediaType::Mjs)).unwrap();
    assert!(!kind.should_transpile);
}

#[test]
fn finished_modules_carry_code_and_specifier() {
    let module =
        finish_module("file:///m/a.ts", ModuleType::JavaScript, Ok("let a = 1;".to_string()))
            .unwrap();
    assert_eq!(module.module_type, ModuleType::JavaScript);
    assert_eq!(module.code, "let a = 1;");
    assert_eq!(module.specifier, "file:///m/a.ts");
    let error =
        finish_module("file:///m/a.ts", ModuleType::JavaScript, Err("Expected ident".to_string()))
            .unwrap_err();
    match &error {
        LoadError::Transpile { message } => assert_eq!(message, "Expected ident"),
        other => panic!("unexpected error {:?}", other),
    }
    assert_eq!(error.to_string(), "Expected ident");
}

#[test]
fn specifiers_are_routed_by_scheme() {
    let loader = TypescriptModuleLoader;
    match loader.route(&file_specifier("/srv/macros/main.ts")).unwrap() {
        LoadRoute::File { path } => assert_eq!(path, "/srv/macros/main.ts"),
        other => panic!("unexpected route {:?}", other),
    }
    for url in ["http://example.invalid/mod.ts", "https://example.invalid/mod.ts"] {
        match loader.route(&remote_specifier(url)).unwrap() {
            LoadRoute::Remote { url: fetched } => assert_eq!(fetched, url),
            other => panic!("unexpected route {:?}", other),
        }
    }
    let error = loader.route(&remote_specifier("ftp://example.invalid/mod.ts")).unwrap_err();
    assert!(matches!(error, LoadError::UnsupportedSpecifier { .. }));
    assert_eq!(error.to_string(), "Unsupported module specifier: ftp://example.invalid/mod.ts");
    let error = loader.route(&remote_specifier("httpx://example.invalid/")).unwrap_err();
    assert_eq!(error.to_string(), "Unsupported module specifier: httpx://example.invalid/");
}

#[test]
fn typescript_is_transpiled_to_javascript() {
    let loader = TypescriptModuleLoader;
    let source = "const x: number = 1; console.log(x+1)";
    let module = loader
        .load_file(
            &file_specifier("/srv/macros/main.ts"),
            "/srv/macros/main.ts",
            Ok(source.to_string()),
        )
        .unwrap();
    assert_eq!(module.module_type, ModuleType::JavaScript);
    assert_eq!(module.specifier, "file:///srv/macros/main.ts");
    assert_ne!(module.code, source);
    assert!(module.code.contains("const x = 1;"));
    assert!(module.code.contains("console.log(x + 1)"));
    assert!(!module.code.contains("number"));
}

#[test]
fn javascript_and_json_pass_unchanged() {
    let loader = TypescriptModuleLoader;
    let script = "console.log('hello world')";
    let module = loader
        .load_file(&file_specifier("/m/basic.js"), "/m/basic.js", Ok(script.to_string()))
        .unwrap();
    assert_eq!(module.module_type, ModuleType::JavaScript);
    assert_eq!(module.code, script);
    assert_eq!(module.specifier, "file:///m/basic.js");

    let data = "{ \"a\": [1, 2] }";
    let module = loader
        .load_file(&file_specifier("/m/data.json"), "/m/data.json", Ok(data.to_string()))
        .unwrap();
    assert_eq!(module.module_type, ModuleType::Json);
    assert_eq!(module.code, data);

    let module = loader
        .load_file(&file_specifier("/m/lib.MJS"), "/m/lib.MJS", Ok("export {}".to_string()))
        .unwrap();
    assert_eq!(module.module_type, ModuleType::JavaScript);
    assert_eq!(module.code, "export {}");
}

#[test]
fn declaration_files_go_through_the_transpiler() {
    let loader = TypescriptModuleLoader;
    let module = loader
        .load_file(
            &file_specifier("/m/types.d.ts"),
            "/m/types.d.ts",
            Ok("export declare const x: number;".to_string()),
        )
        .unwrap();
    assert_eq!(module.module_type, ModuleType::JavaScript);
    assert!(!module.code.contains("declare"));
}

#[test]
fn jsx_is_transpiled() {
    let loader = TypescriptModuleLoader;
    let module = loader
        .load_file(
            &file_specifier("/m/view.jsx"),
            "/m/view.jsx",
            Ok("const a = <div>hi</div>;".to_string()),
        )
        .unwrap();
    assert_eq!(module.module_type, ModuleType::JavaScript);
    assert!(!module.code.contains("<div>"));
}

#[test]
fn loading_twice_gives_the_same_bytes() {
    let loader = TypescriptModuleLoader;
    let source = "export function f(a: string): string { return a + '!'; }";
    let load = || {
        loader
            .load_file(&file_specifier("/m/f.ts"), "/m/f.ts", Ok(source.to_string()))
            .unwrap()
    };
    let first = load();
    let second = load();
    assert_eq!(first.code.as_bytes(), second.code.as_bytes());
    assert_eq!(first.module_type, second.module_type);
    assert_eq!(first.specifier, second.specifier);
}

#[test]
fn unknown_extensions_fail_before_the_read_is_looked_at() {
    let loader = TypescriptModuleLoader;
    let error = loader
        .load_file(&file_specifier("/m/notes.txt"), "/m/notes.txt", Ok("hi".to_string()))
        .unwrap_err();
    match &error {
        LoadError::UnknownExtension { extension } => {
            assert_eq!(extension.as_deref(), Some("txt"))
        }
        other => panic!("unexpected error {:?}", other),
    }
    assert_eq!(error.to_string(), "Unknown extension Some(\"txt\")");

    let error = loader
        .load_file(&file_specifier("/m/README"), "/m/README", Err("gone".to_string()))
        .unwrap_err();
    assert!(matches!(error, LoadError::UnknownExtension { extension: None }));
    assert_eq!(error.to_string(), "Unknown extension None");

    let error = loader
        .load_file(&file_specifier("/m/page.html"), "/m/page.html", Ok(String::new()))
        .unwrap_err();
    assert_eq!(error.to_string(), "Unknown extension Some(\"html\")");
}

#[test]
fn a_failed_read_is_an_io_error() {
    let loader = TypescriptModuleLoader;
    let error = loader
        .load_file(
            &file_specifier("/m/main.ts"),
            "/m/main.ts",
            Err("No such file or directory (os error 2)".to_string()),
        )
        .unwrap_err();
    match &error {
        LoadError::Io { message } => assert_eq!(message, "No such file or directory (os error 2)"),
        other => panic!("unexpected error {:?}", other),
    }
    assert_eq!(error.to_string(), "No such file or directory (os error 2)");
}

#[test]
fn a_syntax_error_is_a_transpile_error() {
    let loader = TypescriptModuleLoader;
    let error = loader
        .load_file(
            &file_specifier("/m/broken.ts"),
            "/m/broken.ts",
            Ok("const = = ;".to_string()),
        )
        .unwrap_err();
    match &error {
        LoadError::Transpile { message } => {
            assert!(!message.is_empty());
            assert_eq!(&error.to_string(), message);
        }
        other => panic!("unexpected error {:?}", other),
    }
}

#[test]
fn a_specifier_that_is_no_url_cannot_be_transpiled() {
    let kind = module_kind(MediaType::TypeScript).unwrap();
    let error = module_source("not a url", kind, "let a: number = 1;".to_string()).unwrap_err();
    assert!(matches!(error, LoadError::Transpile { .. }));
    let kind = module_kind(MediaType::JavaScript).unwrap();
    let module = module_source("not a url", kind, "let a = 1;".to_string()).unwrap();
    assert_eq!(module.code, "let a = 1;");
    assert_eq!(module.specifier, "not a url");
}

#[test]
fn leading_byte_order_marks_are_dropped_before_transpiling() {
    let loader = TypescriptModuleLoader;
    let plain = loader
        .load_file(&file_specifier("/m/a.ts"), "/m/a.ts", Ok("let a: number = 1;".to_string()))
        .unwrap();
    let marked = loader
        .load_file(
            &file_specifier("/m/a.ts"),
            "/m/a.ts",
            Ok("\u{feff}\u{feff}let a: number = 1;".to_string()),
        )
        .unwrap();
    assert_eq!(plain.code, marked.code);
    let untouched = loader
        .load_file(&file_specifier("/m/a.js"), "/m/a.js", Ok("\u{feff}let a = 1;".to_string()))
        .unwrap();
    assert_eq!(untouched.code, "\u{feff}let a = 1;");
}

#[test]
fn remote_typescript_is_transpiled() {
    let loader = TypescriptModuleLoader;
    let specifier = remote_specifier("https://example.invalid/mod.ts");
    let module = loader
        .load_remote(
            &specifier,
            response(Some("application/typescript"), "export const n: number = 2;"),
        )
        .unwrap();
    assert_eq!(module.module_type, ModuleType::JavaScript);
    assert_eq!(module.specifier, "https://example.invalid/mod.ts");
    assert!(module.code.contains("export const n = 2;"));
    assert!(!module.code.contains("number"));
}

#[test]
fn the_content_type_is_read_up_to_the_first_semicolon() {
    let loader = TypescriptModuleLoader;
    let specifier = remote_specifier("https://example.invalid/data");
    let module = loader
        .load_remote(&specifier, response(Some("Application/JSON; charset=utf-8"), "{}"))
        .unwrap();
    assert_eq!(module.module_type, ModuleType::Json);
    assert_eq!(module.code, "{}");
    let module = loader
        .load_remote(&specifier, response(Some(" text/javascript ;x=y"), "let a = 1"))
        .unwrap();
    assert_eq!(module.module_type, ModuleType::JavaScript);
    assert_eq!(module.code, "let a = 1");
}

#[test]
fn remote_failures_come_in_order() {
    let loader = TypescriptModuleLoader;
    let specifier = remote_specifier("https://example.invalid/mod.ts");

    let not_found = RemoteResponse {
        status_is_success: false,
        content_type: None,
        body: Err("closed".to_string()),
    };
    let error = loader.load_remote(&specifier, not_found).unwrap_err();
    assert!(matches!(error, LoadError::FetchFailed { .. }));
    assert_eq!(error.to_string(), "Failed to fetch module: https://example.invalid/mod.ts");

    let error = loader.load_remote(&specifier, response(None, "x")).unwrap_err();
    assert!(matches!(error, LoadError::NoContentType));
    assert_eq!(error.to_string(), "No content-type header");

    let error = loader.load_remote(&specifier, response(Some("image/png"), "x")).unwrap_err();
    match &error {
        LoadError::UnknownContentType { content_type } => assert_eq!(content_type, "image/png"),
        other => panic!("unexpected error {:?}", other),
    }
    assert_eq!(error.to_string(), "Unknown content-type \"image/png\"");

    let unread = RemoteResponse {
        status_is_success: true,
        content_type: Some("text/typescript".to_string()),
        body: Err("connection reset".to_string()),
    };
    let error = loader.load_remote(&specifier, unread).unwrap_err();
    assert_eq!(error.to_string(), "connection reset");
    assert!(matches!(error, LoadError::Io { .. }));

    let no_url = ModuleSpecifier {
        text: "no url".to_string(),
        scheme: "https".to_string(),
        file_path: None,
    };
    let error = loader.load_remote(&no_url, response(Some("text/typescript"), "x")).unwrap_err();
    assert!(matches!(error, LoadError::UnsupportedSpecifier { .. }));
}

#[test]
fn the_typescript_sibling_is_tried_before_the_javascript_one() {
    assert_eq!(with_inferred_extension("/m/mod", true, true), "/m/mod.ts");
    assert_eq!(with_inferred_extension("/m/mod", false, true), "/m/mod.js");
    assert_eq!(with_inferred_extension("/m/mod", true, false), "/m/mod.ts");
    assert_eq!(with_inferred_extension("/m/mod", false, false), "/m/mod");
    assert_eq!(with_inferred_extension("/m/mod.js", true, true), "/m/mod.js");
    assert_eq!(with_inferred_extension("/m/mod.json", true, false), "/m/mod.json");
}

#[test]
fn the_typescript_index_is_tried_before_the_javascript_one() {
    assert_eq!(with_index_file("/m/pkg", true, true), "/m/pkg/index.ts");
    assert_eq!(with_index_file("/m/pkg", true, false), "/m/pkg/index.js");
    assert_eq!(with_index_file("/m/pkg", false, true), "/m/pkg");
    assert_eq!(with_index_file("/m/pkg.ts", false, false), "/m/pkg.ts");
}

#[test]
fn the_paths_looked_for_on_disk() {
    assert_eq!(sibling_paths("/m/mod"), ("/m/mod.ts".to_string(), "/m/mod.js".to_string()));
    assert_eq!(sibling_paths("/m/a.b"), ("/m/a.ts".to_string(), "/m/a.js".to_string()));
    assert_eq!(index_ts_path("/m/pkg"), "/m/pkg/index.ts");
    assert_eq!(index_ts_path("/m/pkg/"), "/m/pkg/index.ts");
}

#[test]
fn paths_with_an_extension_are_kept() {
    let loader = TypescriptModuleLoader;
    assert_eq!(
        loader.infer_path("/nonexistent-dir-for-tests/main.ts"),
        "/nonexistent-dir-for-tests/main.ts"
    );
    assert_eq!(
        loader.infer_path("/nonexistent-dir-for-tests/main"),
        "/nonexistent-dir-for-tests/main"
    );
}

#[test]
fn extensionless_and_directory_imports_are_inferred() {
    let loader = TypescriptModuleLoader;
    let root = tempfile::tempdir().unwrap();
    let make = |dir: &std::path::Path, name: &str| {
        let mut file = tempfile::Builder::new()
            .prefix(name)
            .rand_bytes(0)
            .tempfile_in(dir)
            .unwrap();
        file.write_all(b"export {}").unwrap();
        file.keep().unwrap();
    };
    let base = root.path().to_str().unwrap().to_string();

    make(root.path(), "both.ts");
    make(root.path(), "both.js");
    make(root.path(), "only.js");
    assert_eq!(loader.infer_path(&format!("{base}/both")), format!("{base}/both.ts"));
    assert_eq!(loader.infer_path(&format!("{base}/only")), format!("{base}/only.js"));
    assert_eq!(loader.infer_path(&format!("{base}/none")), format!("{base}/none"));
    assert_eq!(loader.infer_path(&format!("{base}/both.js")), format!("{base}/both.js"));

    let with_ts = tempfile::Builder::new().prefix("pkg").rand_bytes(0).tempdir_in(root.path()).unwrap();
    make(with_ts.path(), "index.ts");
    make(with_ts.path(), "index.js");
    assert_eq!(loader.infer_path(&format!("{base}/pkg")), format!("{base}/pkg/index.ts"));

    let with_js = tempfile::Builder::new().prefix("lib").rand_bytes(0).tempdir_in(root.path()).unwrap();
    make(with_js.path(), "index.js");
    assert_eq!(loader.infer_path(&format!("{base}/lib")), format!("{base}/lib/index.js"));

    let empty = tempfile::Builder::new().prefix("bare").rand_bytes(0).tempdir_in(root.path()).unwrap();
    assert_eq!(loader.infer_path(&format!("{base}/bare")), format!("{base}/bare/index.js"));
    drop((with_ts, with_js, empty));
}
