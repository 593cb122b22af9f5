//! The rules of the project-content dump: which files of a source tree it
//! collects and how it writes each into one Markdown document.
use vstd::prelude::*;
use vstd::string::StringExecFns;

use crate::text::same_text;

verus! {

/// The largest file that is collected, in bytes (2 MiB).
pub const MAX_FILE_SIZE: u64 = 2097152;

/// Whether a directory named `name` is skipped with everything below it.
pub open spec fn ignored_dir_spec(name: Seq<char>) -> bool {
    ||| name == "node_modules"@
    ||| name == ".git"@
    ||| name == ".expo"@
    ||| name == "android"@
    ||| name == "dist"@
    ||| name == "build"@
    ||| name == "scripts"@
    ||| name == "postman-collections"@
    ||| name == "blueprints"@
    ||| name == "assets"@
    ||| name == "target"@
}

/// Whether a file named `name` is skipped.
pub open spec fn ignored_file_spec(name: Seq<char>) -> bool {
    ||| name == "full-project-content.md"@
    ||| name == ".env"@
    ||| name == "package-lock.json"@
    ||| name == "eslint.config.mts"@
    ||| name == "tsconfig.json"@
    ||| name == "README.md"@
    ||| name == "nodemon.json"@
    ||| name == ".gitignore"@
    ||| name == ".sentryclirc"@
    ||| name == "Cargo.lock"@
}

/// Whether the walk descends into a directory named `name`.
pub fn descends_into(name: &str) -> (r: bool)
    ensures
        r == !ignored_dir_spec(name@),
        r <==> !(name@ == "node_modules"@ || name@ == ".git"@ || name@ == ".expo"@ || name@
            == "android"@ || name@ == "dist"@ || name@ == "build"@ || name@ == "scripts"@ || name@
            == "postman-collections"@ || name@ == "blueprints"@ || name@ == "assets"@ || name@
            == "target"@),
{
    !(same_text(name, "node_modules") || same_text(name, ".git") || same_text(name, ".expo")
        || same_text(name, "android") || same_text(name, "dist") || same_text(name, "build")
        || same_text(name, "scripts") || same_text(name, "postman-collections") || same_text(
        name,
        "blueprints",
    ) || same_text(name, "assets") || same_text(name, "target"))
}

/// Whether a file named `name` whose size is `size` (none when its metadata
/// could not be read) is collected: it is not an ignored file and not larger
/// than `MAX_FILE_SIZE`.
pub fn collects_file(name: &str, size: Option<u64>) -> (r: bool)
    ensures
        r == (!ignored_file_spec(name@) && !(size matches Some(s) && s > MAX_FILE_SIZE)),
        r <==> !(name@ == "full-project-content.md"@ || name@ == ".env"@ || name@
            == "package-lock.json"@ || name@ == "eslint.config.mts"@ || name@ == "tsconfig.json"@
            || name@ == "README.md"@ || name@ == "nodemon.json"@ || name@ == ".gitignore"@ || name@
            == ".sentryclirc"@ || name@ == "Cargo.lock"@) && (size is None || size->0
            <= 2097152),
{
    let ignored = same_text(name, "full-project-content.md") || same_text(name, ".env")
        || same_text(name, "package-lock.json") || same_text(name, "eslint.config.mts")
        || same_text(name, "tsconfig.json") || same_text(name, "README.md") || same_text(
        name,
        "nodemon.json",
    ) || same_text(name, ".gitignore") || same_text(name, ".sentryclirc") || same_text(
        name,
        "Cargo.lock",
    );
    if ignored {
        return false;
    }
    match size {
        Some(s) => s <= MAX_FILE_SIZE,
        None => true,
    }
}

/// The Markdown section for the file at `relative_path` holding `content`:
/// the path, the content in a code fence, and a rule.
pub open spec fn markdown_section_spec(relative_path: Seq<char>, content: Seq<char>) -> Seq<char> {
    relative_path + "\n```\n"@ + content + "\n```\n-----\n"@
}

/// The Markdown section for the file at `relative_path` holding `content`.
pub fn markdown_section(relative_path: &str, content: &str) -> (r: String)
    ensures
        r@ == markdown_section_spec(relative_path@, content@),
{
    let mut out = String::from_str(relative_path);
    out.append("\n```\n");
    out.append(content);
    out.append("\n```\n-----\n");
    out
}

/// The walk skips exactly the directories named `node_modules`, `.git`,
/// `.expo`, `android`, `dist`, `build`, `scripts`, `postman-collections`,
/// `blueprints`, `assets` and `target`.
pub proof fn lemma_skipped_directories(name: Seq<char>)
    ensures
        ignored_dir_spec(name) <==> (name == "node_modules"@ || name == ".git"@ || name
            == ".expo"@ || name == "android"@ || name == "dist"@ || name == "build"@ || name
            == "scripts"@ || name == "postman-collections"@ || name == "blueprints"@ || name
            == "assets"@ || name == "target"@),
{
}

/// A file is collected exactly when it is none of `full-project-content.md`,
/// `.env`, `package-lock.json`, `eslint.config.mts`, `tsconfig.json`,
/// `README.md`, `nodemon.json`, `.gitignore`, `.sentryclirc` and
/// `Cargo.lock`, and is not known to be larger than 2 MiB.
pub proof fn lemma_collected_files(name: Seq<char>, size: Option<u64>)
    ensures
        (!ignored_file_spec(name) && !(size matches Some(s) && s > MAX_FILE_SIZE)) <==> (!(name
            == "full-project-content.md"@ || name == ".env"@ || name == "package-lock.json"@ || name
            == "eslint.config.mts"@ || name == "tsconfig.json"@ || name == "README.md"@ || name
            == "nodemon.json"@ || name == ".gitignore"@ || name == ".sentryclirc"@ || name
            == "Cargo.lock"@) && (size is None || size->0 <= 2097152)),
{
}

} // verus!
