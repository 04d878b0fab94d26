//! Discovers release-mode Loom models per workspace package.

use vstd::prelude::*;

use crate::json::{json_array, json_field, json_str, JsonValue};
use crate::metadata::{
    fault, is_member, is_member_exec, lemma_names_error_sticks, names_upto, selected_names,
    workspace_arrays_of, Fault, MetadataError, MetadataErrorKind,
};
use crate::plan::strings;
use crate::text::{chars_of, ends_with, ends_with_chars, lines, lines_of, same_text, trim_end, trim_end_chars};

verus! {

/// Whether one of `deps` is a dependency named `loom`.
pub open spec fn has_loom_dependency(deps: Seq<JsonValue>) -> bool {
    exists|i: int| 0 <= i < deps.len() && #[trigger] json_str(json_field(deps[i], "name"@)) == Some(
        "loom"@,
    )
}

/// What one package contributes to the Loom packages: its name, nothing,
/// or an error.
pub open spec fn loom_package_of(members: Seq<JsonValue>, package: JsonValue) -> Result<
    Option<Seq<char>>,
    Fault,
> {
    if !is_member(members, package) {
        Ok(None)
    } else {
        match json_array(json_field(package, "dependencies"@)) {
            None => Err(fault(MetadataErrorKind::MissingDependencies, Seq::empty())),
            Some(deps) => if has_loom_dependency(deps) {
                match json_str(json_field(package, "name"@)) {
                    None => Err(fault(MetadataErrorKind::MissingPackageName, Seq::empty())),
                    Some(name) => Ok(Some(name)),
                }
            } else {
                Ok(None)
            },
        }
    }
}

/// The workspace members with a direct dependency named `loom`.
pub open spec fn loom_packages(metadata: JsonValue) -> Result<Seq<Seq<char>>, Fault> {
    selected_names(metadata, |m: Seq<JsonValue>, p: JsonValue| loom_package_of(m, p))
}

/// Returns what one package contributes to the Loom packages.
pub fn loom_package(members: &Vec<JsonValue>, package: &JsonValue) -> (r: Result<
    Option<String>,
    MetadataError,
>)
    ensures
        match loom_package_of(members@, *package) {
            Ok(Some(n)) => r matches Ok(Some(s)) && s@ == n,
            Ok(None) => r matches Ok(None),
            Err(e) => r matches Err(err) && err@ == e,
        },
{
    if !is_member_exec(members, package) {
        return Ok(None);
    }
    let deps = match package.field("dependencies").as_array() {
        Some(d) => d,
        None => return Err(MetadataError::plain(MetadataErrorKind::MissingDependencies)),
    };
    let mut found = false;
    let mut i: usize = 0;
    while i < deps.len()
        invariant
            i <= deps@.len(),
            found == exists|k: int|
                0 <= k < i && #[trigger] json_str(json_field(deps@[k], "name"@)) == Some("loom"@),
        decreases deps.len() - i,
    {
        match deps[i].field("name").as_str() {
            Some(n) => {
                if same_text(n, "loom") {
                    found = true;
                }
            },
            None => {},
        }
        i += 1;
    }
    if !found {
        return Ok(None);
    }
    match package.field("name").as_str() {
        Some(n) => Ok(Some(n.to_owned())),
        None => Err(MetadataError::plain(MetadataErrorKind::MissingPackageName)),
    }
}

/// Finds the workspace members of a `cargo metadata` document with a
/// direct dependency named `loom` (dev, optional or renamed included).
pub fn packages(metadata: &JsonValue) -> (r: Result<Vec<String>, MetadataError>)
    ensures
        match loom_packages(*metadata) {
            Ok(names) => r matches Ok(v) && strings(v@) == names,
            Err(e) => r matches Err(err) && err@ == e,
        },
{
    let ghost pick = |m: Seq<JsonValue>, p: JsonValue| loom_package_of(m, p);
    let (members, all_packages) = match workspace_arrays_of(metadata) {
        Ok(arrays) => arrays,
        Err(e) => return Err(e),
    };
    let mut selected: Vec<String> = Vec::new();
    let mut i: usize = 0;
    assert(strings(selected@) =~= Seq::<Seq<char>>::empty());
    while i < all_packages.len()
        invariant
            i <= all_packages@.len(),
            forall|m: Seq<JsonValue>, p: JsonValue| #[trigger] pick(m, p) == loom_package_of(m, p),
            loom_packages(*metadata) == names_upto(
                members@,
                all_packages@,
                all_packages@.len() as int,
                pick,
            ),
            names_upto(members@, all_packages@, i as int, pick) == Ok::<Seq<Seq<char>>, Fault>(
                strings(selected@),
            ),
        decreases all_packages.len() - i,
    {
        proof {
            if names_upto(members@, all_packages@, i + 1, pick) is Err {
                lemma_names_error_sticks(members@, all_packages@, i + 1, all_packages@.len() as int, pick);
            }
        }
        match loom_package(members, &all_packages[i]) {
            Ok(Some(name)) => {
                let ghost before = selected@;
                selected.push(name);
                assert(strings(selected@) =~= strings(before).push(selected@[selected@.len() - 1]@));
            },
            Ok(None) => {},
            Err(e) => return Err(e),
        }
        i += 1;
    }
    Ok(selected)
}

/// The Cargo arguments common to discovering and running one package's
/// Loom models: a release, all-features test run of the package.
pub open spec fn loom_test_args(name: Seq<char>) -> Seq<Seq<char>> {
    seq!["test"@, "--locked"@, "--package"@, name, "--release"@, "--all-features"@]
}

/// Returns the Cargo arguments common to discovering and running one
/// package's Loom models.
pub fn loom_test_arguments(name: &str) -> (r: Vec<String>)
    ensures
        strings(r@) == loom_test_args(name@),
{
    let mut r: Vec<String> = Vec::new();
    r.push("test".to_owned());
    r.push("--locked".to_owned());
    r.push("--package".to_owned());
    r.push(name.to_owned());
    r.push("--release".to_owned());
    r.push("--all-features".to_owned());
    assert(strings(r@) =~= loom_test_args(name@));
    r
}

/// Whether a line of a test listing names a model: it ends with `: test`
/// once trailing whitespace is removed.
pub open spec fn is_model_line(line: Seq<char>) -> bool {
    ends_with(trim_end(line), ": test"@)
}

/// How many of the first `n` lines name models.
pub open spec fn models_upto(ls: Seq<Seq<char>>, n: int) -> nat
    decreases n,
{
    if n <= 0 {
        0
    } else {
        models_upto(ls, n - 1) + if is_model_line(ls[n - 1]) {
            1nat
        } else {
            0nat
        }
    }
}

/// How many lines of a test listing name models.
pub open spec fn model_count(listing: Seq<char>) -> nat {
    models_upto(lines(listing), lines(listing).len() as int)
}

/// Counts the lines of a `--list` test listing that name models.
pub fn count_models(listing: &str) -> (r: usize)
    ensures
        r == model_count(listing@),
{
    let ls = lines_of(&chars_of(listing));
    let suffix = chars_of(": test");
    let mut count: usize = 0;
    let mut i: usize = 0;
    while i < ls.len()
        invariant
            i <= ls@.len(),
            ls@.len() == lines(listing@).len(),
            forall|j: int| 0 <= j < ls@.len() ==> #[trigger] ls@[j]@ == lines(listing@)[j],
            suffix@ == ": test"@,
            count == models_upto(lines(listing@), i as int),
            count <= i,
        decreases ls.len() - i,
    {
        let trimmed = trim_end_chars(&ls[i]);
        if ends_with_chars(&trimmed, &suffix) {
            count += 1;
        }
        i += 1;
    }
    count
}

} // verus!

verus! {

/// Why checking one package's Loom models failed.
#[derive(Debug, Clone, PartialEq, Eq)]
pub enum LoomError {
    /// Listing the package's models failed; holds the package name and what
    /// Cargo wrote to standard error.
    DiscoveryFailed(String, String),
    /// The listing named no model; holds the package name.
    NoModels(String),
    /// Running the package's models failed; holds the package name.
    ChecksFailed(String),
}

/// The message of a Loom error.
pub open spec fn loom_error_message(e: LoomError) -> Seq<char> {
    match e {
        LoomError::DiscoveryFailed(name, stderr) => "Loom model discovery failed for "@ + name@ + ": "@
            + stderr@,
        LoomError::NoModels(name) => "no Loom model tests were discovered for "@ + name@
            + "; model test names must contain 'loom'"@,
        LoomError::ChecksFailed(name) => "Loom model checks failed for package "@ + name@,
    }
}

impl LoomError {
    /// The error's message.
    pub fn message(&self) -> (r: String)
        ensures
            r@ == loom_error_message(*self),
    {
        match self {
            LoomError::DiscoveryFailed(name, stderr) => {
                let mut r = "Loom model discovery failed for ".to_owned();
                r.append(name.as_str());
                r.append(": ");
                r.append(stderr.as_str());
                r
            },
            LoomError::NoModels(name) => {
                let mut r = "no Loom model tests were discovered for ".to_owned();
                r.append(name.as_str());
                r.append("; model test names must contain 'loom'");
                r
            },
            LoomError::ChecksFailed(name) => {
                let mut r = "Loom model checks failed for package ".to_owned();
                r.append(name.as_str());
                r
            },
        }
    }
}

/// Decides what a model listing of the package `name` gives: the number of
/// models to run, or why the package fails. `success` tells whether the
/// listing command succeeded.
pub fn discovery_outcome(name: &str, success: bool, stdout: &str, stderr: &str) -> (r: Result<
    usize,
    LoomError,
>)
    ensures
        !success ==> (r matches Err(LoomError::DiscoveryFailed(n, e)) && n@ == name@ && e@
            == stderr@),
        success && model_count(stdout@) == 0 ==> (r matches Err(LoomError::NoModels(n)) && n@
            == name@),
        success && model_count(stdout@) > 0 ==> r == Ok::<usize, LoomError>(
            model_count(stdout@) as usize,
        ),
{
    if !success {
        return Err(LoomError::DiscoveryFailed(name.to_owned(), stderr.to_owned()));
    }
    let count = count_models(stdout);
    if count == 0 {
        return Err(LoomError::NoModels(name.to_owned()));
    }
    Ok(count)
}

} // verus!
