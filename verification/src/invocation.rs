//! Finding the file that a macro's name stands for.
//!
//! A macro `name` below a directory is its `name.ts`, else its `name.js`, else the index
//! file of its folder `name/`. A search that finds nothing at the top is made once more
//! as an in-game search from the `in_game/` directory.

use vstd::prelude::*;

use crate::events::optional_text;
use crate::paths::extension_replaced;
use crate::paths::joined_path;
use crate::paths::path_exists;
use crate::paths::path_is_dir;
use crate::paths::path_is_file;
use crate::paths::path_join;
use crate::paths::path_with_extension;

verus! {

/// What the disk holds for one macro name below one directory.
#[derive(Copy, Clone, Debug, PartialEq, Eq, Structural)]
pub struct MacroProbe {
    /// `name.ts` is a file.
    pub ts_is_file: bool,
    /// `name.js` is a file.
    pub js_is_file: bool,
    /// `name/` is a directory.
    pub folder_is_dir: bool,
    /// `name/index.ts` exists.
    pub index_ts_exists: bool,
    /// `name/index.js` exists.
    pub index_js_exists: bool,
}

/// Which candidate stands for a macro.
#[derive(Copy, Clone, Debug, PartialEq, Eq, Structural)]
pub enum MacroChoice {
    TsFile,
    JsFile,
    IndexTs,
    IndexJs,
    /// Nothing here; look below `in_game/`.
    LookInGame,
    /// Nothing at all.
    Nothing,
}

/// The candidate that a probe selects. The TypeScript file wins over the JavaScript
/// file, which wins over the folder. A folder without an index file ends the search;
/// without a folder the search goes on below `in_game/` unless it is already there.
pub open spec fn choice_of(probe: MacroProbe, is_in_game: bool) -> MacroChoice {
    if probe.ts_is_file {
        MacroChoice::TsFile
    } else if probe.js_is_file {
        MacroChoice::JsFile
    } else if probe.folder_is_dir {
        if probe.index_ts_exists {
            MacroChoice::IndexTs
        } else if probe.index_js_exists {
            MacroChoice::IndexJs
        } else {
            MacroChoice::Nothing
        }
    } else if !is_in_game {
        MacroChoice::LookInGame
    } else {
        MacroChoice::Nothing
    }
}

/// Selects the candidate for a probe.
pub fn choose_macro(probe: MacroProbe, is_in_game: bool) -> (choice: MacroChoice)
    ensures
        choice == choice_of(probe, is_in_game),
{
    if probe.ts_is_file {
        MacroChoice::TsFile
    } else if probe.js_is_file {
        MacroChoice::JsFile
    } else if probe.folder_is_dir {
        if probe.index_ts_exists {
            MacroChoice::IndexTs
        } else if probe.index_js_exists {
            MacroChoice::IndexJs
        } else {
            MacroChoice::Nothing
        }
    } else if !is_in_game {
        MacroChoice::LookInGame
    } else {
        MacroChoice::Nothing
    }
}

/// The directory in which a macro is looked for first.
pub open spec fn search_base(path_to_macro: Seq<char>, is_in_game: bool) -> Seq<char> {
    if is_in_game {
        joined_path(path_to_macro, "in_game"@)
    } else {
        path_to_macro
    }
}

/// The path of the chosen candidate for `name` below `base`.
pub open spec fn candidate_path(base: Seq<char>, name: Seq<char>, choice: MacroChoice) -> Option<
    Seq<char>,
> {
    let folder = joined_path(base, name);
    match choice {
        MacroChoice::TsFile => Some(extension_replaced(folder, "ts"@)),
        MacroChoice::JsFile => Some(extension_replaced(folder, "js"@)),
        MacroChoice::IndexTs => Some(joined_path(folder, "index.ts"@)),
        MacroChoice::IndexJs => Some(joined_path(folder, "index.js"@)),
        MacroChoice::LookInGame => None,
        MacroChoice::Nothing => None,
    }
}

/// The file for macro `name`, given what the disk holds at the first place of search
/// (`here`) and at the place of the second, in-game search (`below`). The second search
/// starts from `in_game/` below the first place and is itself an in-game search.
pub open spec fn resolution_of(
    path_to_macro: Seq<char>,
    name: Seq<char>,
    is_in_game: bool,
    here: MacroProbe,
    below: MacroProbe,
) -> Option<Seq<char>> {
    let base = search_base(path_to_macro, is_in_game);
    match choice_of(here, is_in_game) {
        MacroChoice::LookInGame => candidate_path(
            search_base(joined_path(base, "in_game"@), true),
            name,
            choice_of(below, true),
        ),
        choice => candidate_path(base, name, choice),
    }
}

/// The paths that are looked at for one macro name below one directory.
#[derive(Debug)]
pub struct MacroProbePaths {
    /// `name/`, the macro's folder.
    pub folder: String,
    /// `name.ts`.
    pub ts: String,
    /// `name.js`.
    pub js: String,
    /// `name/index.ts`.
    pub index_ts: String,
    /// `name/index.js`.
    pub index_js: String,
}

/// Builds the paths that are looked at for `macro_name` below `base`: the folder is the
/// name adjoined to the base, the two files are the folder with the extension replaced,
/// and the two index files lie in the folder.
pub fn macro_probe_paths(base: &str, macro_name: &str) -> (paths: MacroProbePaths)
    ensures
        paths.folder@ == joined_path(base@, macro_name@),
        paths.ts@ == extension_replaced(joined_path(base@, macro_name@), "ts"@),
        paths.js@ == extension_replaced(joined_path(base@, macro_name@), "js"@),
        paths.index_ts@ == joined_path(joined_path(base@, macro_name@), "index.ts"@),
        paths.index_js@ == joined_path(joined_path(base@, macro_name@), "index.js"@),
{
    proof {
        reveal_strlit("ts");
        reveal_strlit("js");
    }
    let folder: String = path_join(base, macro_name);
    let ts: String = path_with_extension(folder.as_str(), "ts");
    let js: String = path_with_extension(folder.as_str(), "js");
    let index_ts: String = path_join(folder.as_str(), "index.ts");
    let index_js: String = path_join(folder.as_str(), "index.js");
    MacroProbePaths { folder, ts, js, index_ts, index_js }
}

/// Asks the disk about the candidates for `name` below `base`: each answer is the disk's
/// on the path of that candidate.
fn probe_macro(base: &str, macro_name: &str) -> (probe: MacroProbe) {
    let paths: MacroProbePaths = macro_probe_paths(base, macro_name);
    MacroProbe {
        ts_is_file: path_is_file(paths.ts.as_str()),
        js_is_file: path_is_file(paths.js.as_str()),
        folder_is_dir: path_is_dir(paths.folder.as_str()),
        index_ts_exists: path_exists(paths.index_ts.as_str()),
        index_js_exists: path_exists(paths.index_js.as_str()),
    }
}

/// Builds the path of the chosen candidate for `name` below `base`.
pub fn candidate(base: &str, macro_name: &str, choice: MacroChoice) -> (path: Option<String>)
    ensures
        optional_text(path) == candidate_path(base@, macro_name@, choice),
{
    proof {
        reveal_strlit("ts");
        reveal_strlit("js");
    }
    let folder: String = path_join(base, macro_name);
    match choice {
        MacroChoice::TsFile => Some(path_with_extension(folder.as_str(), "ts")),
        MacroChoice::JsFile => Some(path_with_extension(folder.as_str(), "js")),
        MacroChoice::IndexTs => Some(path_join(folder.as_str(), "index.ts")),
        MacroChoice::IndexJs => Some(path_join(folder.as_str(), "index.js")),
        MacroChoice::LookInGame => None,
        MacroChoice::Nothing => None,
    }
}

/// Finds the file that macro `macro_name` stands for below `path_to_macro`, asking the
/// disk what exists. Whatever the disk answers, the result is the resolution for those
/// answers.
pub fn resolve_macro_invocation(path_to_macro: &str, macro_name: &str, is_in_game: bool) -> (found:
    Option<String>)
    ensures
        exists|here: MacroProbe, below: MacroProbe|
            optional_text(found) == resolution_of(
                path_to_macro@,
                macro_name@,
                is_in_game,
                here,
                below,
            ),
    decreases
            (if is_in_game {
                0nat
            } else {
                1nat
            }),
{
    let base: String = if is_in_game {
        path_join(path_to_macro, "in_game")
    } else {
        String::from_str(path_to_macro)
    };
    let here: MacroProbe = probe_macro(base.as_str(), macro_name);
    match choose_macro(here, is_in_game) {
        MacroChoice::LookInGame => {
            let inner: String = path_join(base.as_str(), "in_game");
            let found: Option<String> = resolve_macro_invocation(inner.as_str(), macro_name, true);
            proof {
                let (h, b) = choose|h: MacroProbe, b: MacroProbe|
                    optional_text(found) == resolution_of(inner@, macro_name@, true, h, b);
                assert(optional_text(found) == resolution_of(
                    path_to_macro@,
                    macro_name@,
                    is_in_game,
                    here,
                    h,
                ));
            }
            found
        },
        choice => {
            let found: Option<String> = candidate(base.as_str(), macro_name, choice);
            assert(optional_text(found) == resolution_of(
                path_to_macro@,
                macro_name@,
                is_in_game,
                here,
                here,
            ));
            found
        },
    }
}

} // verus!
