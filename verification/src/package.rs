//! Plans `cargo package` runs for publishable workspace members, patching
//! local path dependencies so that unpublished siblings resolve.

use vstd::prelude::*;

use crate::json::{json_array, json_field, json_str, JsonValue};
use crate::metadata::{fault, is_member, is_member_exec, Fault, MetadataError, MetadataErrorKind};
use crate::plan::strings;
use crate::text::{decimal, decimal_text};

verus! {

// ---------------------------------------------------------------------------
// JSON string quoting (serde_json)
// ---------------------------------------------------------------------------

#[verifier::external_type_specification]
#[verifier::external_body]
pub struct ExJsonError(serde_json::Error);

/// The lowercase hexadecimal digit of `d` (`0 <= d < 16`).
pub open spec fn hex_digit(d: int) -> char {
    if d < 10 {
        crate::text::digit_char(d)
    } else if d == 10 {
        'a'
    } else if d == 11 {
        'b'
    } else if d == 12 {
        'c'
    } else if d == 13 {
        'd'
    } else if d == 14 {
        'e'
    } else {
        'f'
    }
}

/// How JSON writes the character `c` inside a string: `"` and `\` and the
/// control characters escaped, everything else as it is.
pub open spec fn json_escape(c: char) -> Seq<char> {
    if c == '"' {
        seq!['\\', '"']
    } else if c == '\\' {
        seq!['\\', '\\']
    } else if c == '\u{8}' {
        seq!['\\', 'b']
    } else if c == '\t' {
        seq!['\\', 't']
    } else if c == '\n' {
        seq!['\\', 'n']
    } else if c == '\u{c}' {
        seq!['\\', 'f']
    } else if c == '\r' {
        seq!['\\', 'r']
    } else if (c as int) < 32 {
        seq!['\\', 'u', '0', '0', hex_digit((c as int) / 16), hex_digit((c as int) % 16)]
    } else {
        seq![c]
    }
}

/// The escaped characters of `s`.
pub open spec fn json_escaped(s: Seq<char>) -> Seq<char>
    decreases s.len(),
{
    if s.len() == 0 {
        Seq::empty()
    } else {
        json_escaped(s.drop_last()) + json_escape(s.last())
    }
}

/// `s` as a JSON string literal, which is also a TOML basic string.
pub open spec fn json_quoted(s: Seq<char>) -> Seq<char> {
    seq!['"'] + json_escaped(s) + seq!['"']
}

/// Serialises `s` as a JSON string with `serde_json::to_string`. For a
/// string slice the serialiser writes into a byte vector, which cannot
/// fail, so the result is always `Ok`.
#[verifier::external_body]
fn json_string(s: &str) -> (r: Result<String, serde_json::Error>)
    ensures
        match r {
            Ok(q) => q@ == json_quoted(s@),
            Err(_) => false,
        },
{
    serde_json::to_string(s)
}

// ---------------------------------------------------------------------------
// Lexicographic order of names
// ---------------------------------------------------------------------------

/// Whether `a` sorts strictly before `b`, character by character (the
/// order of `str`, since UTF-8 preserves code-point order).
pub open spec fn lex_lt(a: Seq<char>, b: Seq<char>) -> bool
    decreases a.len(),
{
    if b.len() == 0 {
        false
    } else if a.len() == 0 {
        true
    } else if a[0] < b[0] {
        true
    } else if a[0] > b[0] {
        false
    } else {
        lex_lt(a.drop_first(), b.drop_first())
    }
}

proof fn lemma_lex_irreflexive(a: Seq<char>)
    ensures
        !lex_lt(a, a),
    decreases a.len(),
{
    if a.len() > 0 {
        lemma_lex_irreflexive(a.drop_first());
    }
}

proof fn lemma_lex_total(a: Seq<char>, b: Seq<char>)
    ensures
        a == b || lex_lt(a, b) || lex_lt(b, a),
    decreases a.len(),
{
    if a.len() > 0 && b.len() > 0 && a[0] == b[0] {
        lemma_lex_total(a.drop_first(), b.drop_first());
        if a.drop_first() == b.drop_first() {
            assert(a =~= seq![a[0]] + a.drop_first());
            assert(b =~= seq![b[0]] + b.drop_first());
        }
    } else if a.len() == 0 && b.len() == 0 {
        assert(a =~= b);
    }
}

proof fn lemma_lex_asymmetric(a: Seq<char>, b: Seq<char>)
    ensures
        !(lex_lt(a, b) && lex_lt(b, a)),
    decreases a.len(),
{
    if a.len() > 0 && b.len() > 0 && a[0] == b[0] {
        lemma_lex_asymmetric(a.drop_first(), b.drop_first());
    }
}

proof fn lemma_lex_transitive(a: Seq<char>, b: Seq<char>, c: Seq<char>)
    requires
        lex_lt(a, b),
        lex_lt(b, c),
    ensures
        lex_lt(a, c),
    decreases a.len(),
{
    if a.len() > 0 && b.len() > 0 && c.len() > 0 && a[0] == b[0] && b[0] == c[0] {
        lemma_lex_transitive(a.drop_first(), b.drop_first(), c.drop_first());
    }
}

/// Returns whether `a` sorts strictly before `b`.
fn lex_less(a: &String, b: &String) -> (r: bool)
    ensures
        r == lex_lt(a@, b@),
{
    let x = crate::text::chars_of(a.as_str());
    let y = crate::text::chars_of(b.as_str());
    let mut i: usize = 0;
    assert(x@.subrange(0, x@.len() as int) =~= x@);
    assert(y@.subrange(0, y@.len() as int) =~= y@);
    while i < x.len() && i < y.len() && x[i] == y[i]
        invariant
            i <= x@.len(),
            i <= y@.len(),
            lex_lt(x@, y@) == lex_lt(x@.subrange(i as int, x@.len() as int), y@.subrange(i as int, y@.len() as int)),
        decreases x.len() - i,
    {
        let ghost xs = x@.subrange(i as int, x@.len() as int);
        let ghost ys = y@.subrange(i as int, y@.len() as int);
        assert(xs.drop_first() =~= x@.subrange(i + 1, x@.len() as int));
        assert(ys.drop_first() =~= y@.subrange(i + 1, y@.len() as int));
        i += 1;
    }
    let ghost xs = x@.subrange(i as int, x@.len() as int);
    let ghost ys = y@.subrange(i as int, y@.len() as int);
    if i >= y.len() {
        assert(ys.len() == 0);
        false
    } else if i >= x.len() {
        assert(xs.len() == 0);
        true
    } else {
        assert(xs[0] == x@[i as int] && ys[0] == y@[i as int]);
        x[i] < y[i]
    }
}

// ---------------------------------------------------------------------------
// Patches
// ---------------------------------------------------------------------------

/// A (name, path) pair of views.
pub type NamedPath = (Seq<char>, Seq<char>);

/// The views of (name, path) string pairs.
pub open spec fn named_paths(v: Seq<(String, String)>) -> Seq<NamedPath> {
    v.map_values(|p: (String, String)| (p.0@, p.1@))
}

/// The path dependencies among the first `n` dependencies whose path is
/// one of the directories `dirs`, as (name, path) in order; a dependency
/// there without a string name is an error.
pub open spec fn candidates_upto(deps: Seq<JsonValue>, dirs: Seq<Seq<char>>, n: int) -> Result<
    Seq<NamedPath>,
    Fault,
>
    decreases n,
{
    if n <= 0 {
        Ok(Seq::empty())
    } else {
        match candidates_upto(deps, dirs, n - 1) {
            Err(e) => Err(e),
            Ok(found) => match json_str(json_field(deps[n - 1], "path"@)) {
                Some(p) if dirs.contains(p) => match json_str(json_field(deps[n - 1], "name"@)) {
                    None => Err(fault(MetadataErrorKind::MissingDependencyName, Seq::empty())),
                    Some(name) => Ok(found.push((name, p))),
                },
                _ => Ok(found),
            },
        }
    }
}

/// The path of the first of `cands` named `name`.
pub open spec fn first_path(cands: Seq<NamedPath>, name: Seq<char>) -> Option<Seq<char>>
    decreases cands.len(),
{
    if cands.len() == 0 {
        None
    } else if cands[0].0 == name {
        Some(cands[0].1)
    } else {
        first_path(cands.drop_first(), name)
    }
}

/// Whether `patches` holds one entry per name of `cands`, with the path of
/// its first occurrence, sorted by name (what a `BTreeMap` filled with
/// `entry(name).or_insert(path)` yields).
pub open spec fn is_patch_list(patches: Seq<NamedPath>, cands: Seq<NamedPath>) -> bool {
    &&& forall|i: int, j: int|
        0 <= i < j < patches.len() ==> lex_lt(#[trigger] patches[i].0, #[trigger] patches[j].0)
    &&& forall|i: int|
        0 <= i < patches.len() ==> first_path(cands, #[trigger] patches[i].0) == Some(
            patches[i].1,
        )
    &&& forall|k: int|
        0 <= k < cands.len() ==> exists|i: int|
            0 <= i < patches.len() && #[trigger] patches[i].0 == #[trigger] cands[k].0
}

proof fn lemma_first_path_push(cands: Seq<NamedPath>, c: NamedPath, name: Seq<char>)
    ensures
        first_path(cands.push(c), name) == match first_path(cands, name) {
            Some(p) => Some(p),
            None => if c.0 == name {
                Some(c.1)
            } else {
                None
            },
        },
    decreases cands.len(),
{
    if cands.len() > 0 {
        assert(cands.push(c)[0] == cands[0]);
        assert(cands.push(c).drop_first() =~= cands.drop_first().push(c));
        lemma_first_path_push(cands.drop_first(), c, name);
    } else {
        assert(cands.push(c)[0] == c);
        assert(cands.push(c).drop_first() =~= Seq::<NamedPath>::empty());
        assert(first_path(Seq::<NamedPath>::empty(), name) is None);
        assert(first_path(cands, name) is None);
    }
}

proof fn lemma_first_path_absent(cands: Seq<NamedPath>, name: Seq<char>)
    requires
        forall|k: int| 0 <= k < cands.len() ==> cands[k].0 != name,
    ensures
        first_path(cands, name) is None,
    decreases cands.len(),
{
    if cands.len() > 0 {
        assert forall|k: int| 0 <= k < cands.drop_first().len() implies cands.drop_first()[k].0
            != name by {
            assert(cands.drop_first()[k] == cands[k + 1]);
        }
        lemma_first_path_absent(cands.drop_first(), name);
    }
}

/// Sorts the candidates into a patch list: one entry per name, the first
/// path for it, in name order.
fn patch_list(cands: &Vec<(String, String)>) -> (r: Vec<(String, String)>)
    ensures
        is_patch_list(named_paths(r@), named_paths(cands@)),
{
    let ghost cv = named_paths(cands@);
    let mut r: Vec<(String, String)> = Vec::new();
    let mut k: usize = 0;
    while k < cands.len()
        invariant
            k <= cands@.len(),
            cv == named_paths(cands@),
            is_patch_list(named_paths(r@), cv.subrange(0, k as int)),
        decreases cands.len() - k,
    {
        let ghost before = named_paths(r@);
        let ghost prefix = cv.subrange(0, k as int);
        let ghost next = cv.subrange(0, k + 1);
        assert(next =~= prefix.push(cv[k as int]));
        let name = &cands[k].0;
        let mut pos: usize = 0;
        while pos < r.len() && lex_less(&r[pos].0, name)
            invariant
                pos <= r@.len(),
                named_paths(r@) == before,
                forall|i: int| 0 <= i < pos ==> lex_lt(#[trigger] before[i].0, name@),
            decreases r.len() - pos,
        {
            pos += 1;
        }
        let present = pos < r.len() && r[pos].0 == *name;
        proof {
            if pos < before.len() && !present {
                assert(!lex_lt(before[pos as int].0, name@));
                lemma_lex_total(before[pos as int].0, name@);
                assert(lex_lt(name@, before[pos as int].0));
            }
            assert forall|i: int| 0 <= i < before.len() && before[i].0 == name@ implies present
                && i == pos by {
                if i < pos {
                    lemma_lex_irreflexive(name@);
                } else if i > pos {
                    lemma_lex_asymmetric(before[pos as int].0, name@);
                    if !present {
                        lemma_lex_transitive(name@, before[pos as int].0, before[i].0);
                        lemma_lex_irreflexive(name@);
                    }
                }
            }
            assert forall|j: int| #![auto] 0 <= j < before.len() implies first_path(next, before[j].0)
                == first_path(prefix, before[j].0) by {
                lemma_first_path_push(prefix, cv[k as int], before[j].0);
            }
        }
        if !present {
            let entry = (cands[k].0.clone(), cands[k].1.clone());
            r.insert(pos, entry);
            proof {
                let after = named_paths(r@);
                assert(after =~= before.insert(pos as int, cv[k as int]));
                assert(forall|j: int|
                    0 <= j < prefix.len() ==> #[trigger] prefix[j].0 != name@) by {
                    assert forall|j: int| 0 <= j < prefix.len() implies #[trigger] prefix[j].0 != name@ by {
                        if prefix[j].0 == name@ {
                            let i = choose|i: int| 0 <= i < before.len() && #[trigger] before[i].0 == #[trigger] prefix[j].0;
                        }
                    }
                }
                lemma_first_path_absent(prefix, name@);
                lemma_first_path_push(prefix, cv[k as int], name@);
                assert forall|i: int, j: int|
                    0 <= i < j < after.len() implies lex_lt(#[trigger] after[i].0, #[trigger] after[j].0) by {
                    if j < pos {
                    } else if i < pos && j == pos {
                    } else if i < pos && j > pos {
                        if pos < before.len() {
                            lemma_lex_transitive(before[i].0, name@, before[pos as int].0);
                            if j - 1 > pos {
                                lemma_lex_transitive(before[i].0, before[pos as int].0, before[j - 1].0);
                            }
                        }
                    } else if i == pos {
                        if j - 1 > pos {
                            lemma_lex_transitive(name@, before[pos as int].0, before[j - 1].0);
                        }
                    }
                }
                assert forall|i: int|
                    0 <= i < after.len() implies first_path(next, #[trigger] after[i].0) == Some(after[i].1) by {
                    if i < pos {
                        lemma_first_path_push(prefix, cv[k as int], before[i].0);
                    } else if i > pos {
                        lemma_first_path_push(prefix, cv[k as int], before[i - 1].0);
                    }
                }
                assert forall|m: int| 0 <= m < next.len() implies exists|i: int|
                    0 <= i < after.len() && #[trigger] after[i].0 == #[trigger] next[m].0 by {
                    if m < prefix.len() {
                        let i = choose|i: int| 0 <= i < before.len() && #[trigger] before[i].0 == #[trigger] prefix[m].0;
                        if i < pos {
                            assert(after[i].0 == next[m].0);
                        } else {
                            assert(after[i + 1].0 == next[m].0);
                        }
                    } else {
                        assert(after[pos as int].0 == next[m].0);
                    }
                }
            }
        } else {
            proof {
                assert forall|m: int| 0 <= m < next.len() implies exists|i: int|
                    0 <= i < before.len() && #[trigger] before[i].0 == #[trigger] next[m].0 by {
                    if m < prefix.len() {
                        let i = choose|i: int| 0 <= i < before.len() && #[trigger] before[i].0 == #[trigger] prefix[m].0;
                        assert(before[i].0 == next[m].0);
                    } else {
                        assert(before[pos as int].0 == next[m].0);
                    }
                }
            }
        }
        k += 1;
    }
    assert(cv.subrange(0, cands@.len() as int) =~= cv);
    r
}

// ---------------------------------------------------------------------------
// Package runs
// ---------------------------------------------------------------------------

/// The `--config` arguments of the first `n` patches.
pub open spec fn config_args(patches: Seq<NamedPath>, n: int) -> Seq<Seq<char>>
    decreases n,
{
    if n <= 0 {
        Seq::empty()
    } else {
        config_args(patches, n - 1) + seq![
            "--config"@,
            "patch.crates-io."@ + json_quoted(patches[n - 1].0) + ".path="@ + json_quoted(
                patches[n - 1].1,
            ),
        ]
    }
}

/// The Cargo arguments that package and verify `name` with `patches`.
pub open spec fn package_args(name: Seq<char>, patches: Seq<NamedPath>) -> Seq<Seq<char>> {
    config_args(patches, patches.len() as int) + seq![
        "package"@,
        "--package"@,
        name,
        "--allow-dirty"@,
    ]
}

/// What one package contributes: nothing when it is not a publishable
/// workspace member (not a member, or `publish` is an empty array), else its
/// name and its patch candidates, or an error.
pub open spec fn package_plan_of(
    members: Seq<JsonValue>,
    package: JsonValue,
    dirs: Seq<Seq<char>>,
) -> Result<Option<(Seq<char>, Seq<NamedPath>)>, Fault> {
    if !is_member(members, package) || (json_array(json_field(package, "publish"@)) matches Some(
        a,
    ) && a.len() == 0) {
        Ok(None)
    } else {
        match json_str(json_field(package, "name"@)) {
            None => Err(fault(MetadataErrorKind::MissingPackageName, Seq::empty())),
            Some(name) => match json_array(json_field(package, "dependencies"@)) {
                None => Err(fault(MetadataErrorKind::MissingDependencies, Seq::empty())),
                Some(deps) => match candidates_upto(deps, dirs, deps.len() as int) {
                    Err(e) => Err(e),
                    Ok(cands) => Ok(Some((name, cands))),
                },
            },
        }
    }
}

/// A planned `cargo package` run.
#[derive(Debug, Clone, PartialEq, Eq)]
pub struct PackageRun {
    /// The package name.
    pub name: String,
    /// The path patches, one per dependency name, sorted by name.
    pub patches: Vec<(String, String)>,
    /// The Cargo arguments.
    pub args: Vec<String>,
}

proof fn lemma_candidates_error_sticks(deps: Seq<JsonValue>, dirs: Seq<Seq<char>>, n: int, m: int)
    requires
        n <= m,
        candidates_upto(deps, dirs, n) is Err,
    ensures
        candidates_upto(deps, dirs, m) == candidates_upto(deps, dirs, n),
    decreases m - n,
{
    if n < m {
        lemma_candidates_error_sticks(deps, dirs, n, m - 1);
    }
}

/// Returns whether `dirs` holds `path`.
fn contains_text(dirs: &Vec<String>, path: &str) -> (r: bool)
    ensures
        r == strings(dirs@).contains(path@),
{
    let mut i: usize = 0;
    while i < dirs.len()
        invariant
            i <= dirs@.len(),
            forall|k: int| 0 <= k < i ==> dirs@[k]@ != path@,
        decreases dirs.len() - i,
    {
        if crate::text::same_text(dirs[i].as_str(), path) {
            assert(strings(dirs@)[i as int] == path@);
            return true;
        }
        i += 1;
    }
    false
}

/// Returns the `--config` and package arguments for `name` with `patches`.
fn package_arguments(name: &str, patches: &Vec<(String, String)>) -> (r: Vec<String>)
    ensures
        strings(r@) == package_args(name@, named_paths(patches@)),
{
    let ghost pv = named_paths(patches@);
    let mut r: Vec<String> = Vec::new();
    let mut i: usize = 0;
    while i < patches.len()
        invariant
            i <= patches@.len(),
            pv == named_paths(patches@),
            strings(r@) == config_args(pv, i as int),
        decreases patches.len() - i,
    {
        let n = match json_string(patches[i].0.as_str()) {
            Ok(q) => q,
            Err(_) => {
                assert(false);
                String::new()
            },
        };
        let p = match json_string(patches[i].1.as_str()) {
            Ok(q) => q,
            Err(_) => {
                assert(false);
                String::new()
            },
        };
        let mut config = "patch.crates-io.".to_owned();
        config.append(n.as_str());
        config.append(".path=");
        config.append(p.as_str());
        let ghost before = r@;
        r.push("--config".to_owned());
        r.push(config);
        assert(strings(r@) =~= strings(before) + seq![
            "--config"@,
            "patch.crates-io."@ + json_quoted(pv[i as int].0) + ".path="@ + json_quoted(pv[i as int].1),
        ]);
        i += 1;
    }
    let ghost before = r@;
    r.push("package".to_owned());
    r.push("--package".to_owned());
    r.push(name.to_owned());
    r.push("--allow-dirty".to_owned());
    assert(strings(r@) =~= strings(before) + seq!["package"@, "--package"@, name@, "--allow-dirty"@]);
    r
}

/// Plans the `cargo package` run of one package, given the workspace
/// `members` and the dependency paths `dirs` that are directories. Returns
/// nothing for a package that is not a publishable workspace member.
pub fn package_run(members: &Vec<JsonValue>, package: &JsonValue, dirs: &Vec<String>) -> (r: Result<
    Option<PackageRun>,
    MetadataError,
>)
    ensures
        match package_plan_of(members@, *package, strings(dirs@)) {
            Ok(None) => r matches Ok(None),
            Ok(Some((name, cands))) => r matches Ok(Some(run)) && run.name@ == name
                && is_patch_list(named_paths(run.patches@), cands) && strings(run.args@)
                == package_args(name, named_paths(run.patches@)),
            Err(e) => r matches Err(err) && err@ == e,
        },
{
    if !is_member_exec(members, package) {
        return Ok(None);
    }
    match package.field("publish").as_array() {
        Some(a) => {
            if a.len() == 0 {
                return Ok(None);
            }
        },
        None => {},
    }
    let name = match package.field("name").as_str() {
        Some(n) => n,
        None => return Err(MetadataError::plain(MetadataErrorKind::MissingPackageName)),
    };
    let deps = match package.field("dependencies").as_array() {
        Some(d) => d,
        None => return Err(MetadataError::plain(MetadataErrorKind::MissingDependencies)),
    };
    let ghost dv = strings(dirs@);
    let mut cands: Vec<(String, String)> = Vec::new();
    let mut i: usize = 0;
    assert(named_paths(cands@) =~= Seq::<NamedPath>::empty());
    while i < deps.len()
        invariant
            i <= deps@.len(),
            dv == strings(dirs@),
            package_plan_of(members@, *package, dv) == match candidates_upto(
                deps@,
                dv,
                deps@.len() as int,
            ) {
                Err(e) => Err(e),
                Ok(c) => Ok(Some((name@, c))),
            },
            candidates_upto(deps@, dv, i as int) == Ok::<Seq<NamedPath>, Fault>(named_paths(cands@)),
        decreases deps.len() - i,
    {
        proof {
            if candidates_upto(deps@, dv, i + 1) is Err {
                lemma_candidates_error_sticks(deps@, dv, i + 1, deps@.len() as int);
            }
        }
        let dep = &deps[i];
        match dep.field("path").as_str() {
            Some(path) => {
                if contains_text(dirs, path) {
                    let dep_name = match dep.field("name").as_str() {
                        Some(n) => n,
                        None => return Err(MetadataError::plain(MetadataErrorKind::MissingDependencyName)),
                    };
                    let ghost before = named_paths(cands@);
                    cands.push((dep_name.to_owned(), path.to_owned()));
                    assert(named_paths(cands@) =~= before.push((dep_name@, path@)));
                }
            },
            None => {},
        }
        i += 1;
    }
    let patches = patch_list(&cands);
    let args = package_arguments(name, &patches);
    Ok(Some(PackageRun { name: name.to_owned(), patches, args }))
}

/// The `path` strings of the first `n` dependencies, in order.
pub open spec fn paths_upto(deps: Seq<JsonValue>, n: int) -> Seq<Seq<char>>
    decreases n,
{
    if n <= 0 {
        Seq::empty()
    } else {
        match json_str(json_field(deps[n - 1], "path"@)) {
            Some(p) => paths_upto(deps, n - 1).push(p),
            None => paths_upto(deps, n - 1),
        }
    }
}

/// The `path` strings of a package's dependencies, in order; empty when its
/// `dependencies` is not an array. These are the paths whose directories
/// decide which dependencies are patched.
pub open spec fn dependency_paths_of(package: JsonValue) -> Seq<Seq<char>> {
    match json_array(json_field(package, "dependencies"@)) {
        None => Seq::empty(),
        Some(deps) => paths_upto(deps, deps.len() as int),
    }
}

/// Returns the `path` strings of a package's dependencies.
pub fn dependency_paths(package: &JsonValue) -> (r: Vec<String>)
    ensures
        strings(r@) == dependency_paths_of(*package),
{
    let mut r: Vec<String> = Vec::new();
    assert(strings(r@) =~= Seq::<Seq<char>>::empty());
    let deps = match package.field("dependencies").as_array() {
        Some(d) => d,
        None => return r,
    };
    let mut i: usize = 0;
    while i < deps.len()
        invariant
            i <= deps@.len(),
            strings(r@) == paths_upto(deps@, i as int),
        decreases deps.len() - i,
    {
        let ghost before = r@;
        match deps[i].field("path").as_str() {
            Some(p) => {
                r.push(p.to_owned());
                assert(strings(r@) =~= strings(before).push(p@));
            },
            None => {},
        }
        i += 1;
    }
    r
}

/// The message for a package whose verification failed.
pub fn package_failure_message(name: &str) -> (r: String)
    ensures
        r@ == "Cargo package verification failed for package "@ + name@,
{
    let mut r = "Cargo package verification failed for package ".to_owned();
    r.append(name);
    r
}

/// The closing message after `checked` packages passed.
pub open spec fn package_summary_of(checked: nat) -> Seq<char> {
    if checked == 0 {
        "No publishable workspace packages found; skipping Cargo package verification."@
    } else {
        "Cargo package verification passed for "@ + decimal(checked) + " workspace package(s)."@
    }
}

/// Returns the closing message after `checked` packages passed.
pub fn package_summary(checked: u64) -> (r: String)
    ensures
        r@ == package_summary_of(checked as nat),
{
    if checked == 0 {
        "No publishable workspace packages found; skipping Cargo package verification.".to_owned()
    } else {
        let mut r = "Cargo package verification passed for ".to_owned();
        r.append(decimal_text(checked).as_str());
        r.append(" workspace package(s).");
        r
    }
}

} // verus!
