//! Reading `cargo metadata` output: workspace members and the packages that
//! opt into Miri.

use vstd::prelude::*;

use crate::json::{
    json_array, json_bool, json_contains, json_field, json_get, json_is_object, json_str,
    json_vec_contains, parse_json, parsed_json, JsonValue,
};
use crate::plan::strings;

verus! {

/// What is wrong with a `cargo metadata` document.
#[derive(Debug, Clone, Copy, PartialEq, Eq, Structural)]
pub enum MetadataErrorKind {
    /// `workspace_members` is missing or not an array (Miri reader).
    NoWorkspaceMembersArray,
    /// `packages` is missing or not an array (Miri reader).
    NoPackagesArray,
    /// A package has no string `id`.
    PackageWithoutStringId,
    /// A package's `miri` setting is not a boolean.
    MiriNotBoolean,
    /// A Miri-enabled package has no string `name`.
    MiriPackageWithoutName,
    /// A package's `miri-test-args` setting is not an array.
    TestArgsNotArray,
    /// A package's `miri-test-args` holds a non-string entry.
    TestArgNotString,
    /// `workspace_members` is missing or not an array.
    MissingWorkspaceMembers,
    /// `packages` is missing or not an array.
    MissingPackages,
    /// A package has no string `name`.
    MissingPackageName,
    /// A package has no `dependencies` array.
    MissingDependencies,
    /// A path dependency has no string `name`.
    MissingDependencyName,
    /// A package has no string `manifest_path`.
    MissingManifestPath,
    /// A package has no string `version`.
    MissingPackageVersion,
    /// No package of the document is a workspace member.
    NoWorkspacePackages,
    /// A package's sanitizer configuration is not an object.
    SanitizerConfigNotObject,
    /// A package's `sanitizers` setting is not an array.
    SanitizersNotArray,
    /// A package's `sanitizers` holds a non-string entry.
    SanitizerNotString,
    /// A package's `sanitizers` names a sanitizer other than `address`.
    UnsupportedSanitizer,
    /// A package's `sanitizers` names `address` twice.
    DuplicateSanitizer,
    /// The output of `cargo metadata` is not one JSON document.
    InvalidJson,
}

/// An error found in a `cargo metadata` document: its kind, and the
/// package (by id or name) or the value it concerns, empty when none.
#[derive(Debug, Clone, PartialEq, Eq)]
pub struct MetadataError {
    /// What is wrong.
    pub kind: MetadataErrorKind,
    /// The package id or name, or for an unsupported sanitizer the package
    /// name; empty when the error concerns no package.
    pub subject: String,
    /// For an unsupported sanitizer, its name; otherwise empty.
    pub detail: String,
}

impl View for MetadataError {
    type V = (MetadataErrorKind, Seq<char>, Seq<char>);

    open spec fn view(&self) -> (MetadataErrorKind, Seq<char>, Seq<char>) {
        (self.kind, self.subject@, self.detail@)
    }
}

/// An error of `kind` about `subject`, with no further detail.
pub open spec fn fault(kind: MetadataErrorKind, subject: Seq<char>) -> (
    MetadataErrorKind,
    Seq<char>,
    Seq<char>,
) {
    (kind, subject, Seq::empty())
}

/// The message of a metadata error.
pub open spec fn metadata_error_message(e: (MetadataErrorKind, Seq<char>, Seq<char>)) -> Seq<char> {
    let (kind, subject, detail) = e;
    match kind {
        MetadataErrorKind::NoWorkspaceMembersArray => "cargo metadata has no workspace_members array"@,
        MetadataErrorKind::NoPackagesArray => "cargo metadata has no packages array"@,
        MetadataErrorKind::PackageWithoutStringId => "cargo metadata package has no string id"@,
        MetadataErrorKind::MiriNotBoolean => "package "@ + subject + ": miri must be a boolean"@,
        MetadataErrorKind::MiriPackageWithoutName => "Miri-enabled Cargo package has no string name"@,
        MetadataErrorKind::TestArgsNotArray => "package "@ + subject
            + ": miri-test-args must be an array"@,
        MetadataErrorKind::TestArgNotString => "package "@ + subject
            + ": miri-test-args entries must be strings"@,
        MetadataErrorKind::MissingWorkspaceMembers => "missing workspace members"@,
        MetadataErrorKind::MissingPackages => "missing packages"@,
        MetadataErrorKind::MissingPackageName => "missing package name"@,
        MetadataErrorKind::MissingDependencies => "missing dependencies"@,
        MetadataErrorKind::MissingDependencyName => "missing dependency name"@,
        MetadataErrorKind::MissingManifestPath => "missing manifest path"@,
        MetadataErrorKind::MissingPackageVersion => "missing package version"@,
        MetadataErrorKind::NoWorkspacePackages => "Cargo metadata did not report any workspace packages"@,
        MetadataErrorKind::SanitizerConfigNotObject => "package "@ + subject
            + ": sanitizer metadata must be an object"@,
        MetadataErrorKind::SanitizersNotArray => "package "@ + subject
            + ": sanitizers must be an array"@,
        MetadataErrorKind::SanitizerNotString => "package "@ + subject
            + ": sanitizers entries must be strings"@,
        MetadataErrorKind::UnsupportedSanitizer => "package "@ + subject
            + ": sanitizers contains unsupported sanitizer "@ + detail,
        MetadataErrorKind::DuplicateSanitizer => "package "@ + subject
            + ": sanitizers contains a duplicate entry"@,
        MetadataErrorKind::InvalidJson => "cargo metadata returned invalid JSON"@,
    }
}

impl MetadataError {
    /// An error of `kind` about `subject`.
    pub fn new(kind: MetadataErrorKind, subject: &str) -> (r: MetadataError)
        ensures
            r@ == fault(kind, subject@),
    {
        MetadataError { kind, subject: subject.to_owned(), detail: String::new() }
    }

    /// An error of `kind` that concerns no package.
    pub fn plain(kind: MetadataErrorKind) -> (r: MetadataError)
        ensures
            r@ == fault(kind, Seq::empty()),
    {
        MetadataError { kind, subject: String::new(), detail: String::new() }
    }

    /// The error's message.
    pub fn message(&self) -> (r: String)
        ensures
            r@ == metadata_error_message(self@),
    {
        let s = self.subject.as_str();
        match self.kind {
            MetadataErrorKind::NoWorkspaceMembersArray => "cargo metadata has no workspace_members array".to_owned(),
            MetadataErrorKind::NoPackagesArray => "cargo metadata has no packages array".to_owned(),
            MetadataErrorKind::PackageWithoutStringId => "cargo metadata package has no string id".to_owned(),
            MetadataErrorKind::MiriNotBoolean => about(s, ": miri must be a boolean"),
            MetadataErrorKind::MiriPackageWithoutName => "Miri-enabled Cargo package has no string name".to_owned(),
            MetadataErrorKind::TestArgsNotArray => about(s, ": miri-test-args must be an array"),
            MetadataErrorKind::TestArgNotString => about(s, ": miri-test-args entries must be strings"),
            MetadataErrorKind::MissingWorkspaceMembers => "missing workspace members".to_owned(),
            MetadataErrorKind::MissingPackages => "missing packages".to_owned(),
            MetadataErrorKind::MissingPackageName => "missing package name".to_owned(),
            MetadataErrorKind::MissingDependencies => "missing dependencies".to_owned(),
            MetadataErrorKind::MissingDependencyName => "missing dependency name".to_owned(),
            MetadataErrorKind::MissingManifestPath => "missing manifest path".to_owned(),
            MetadataErrorKind::MissingPackageVersion => "missing package version".to_owned(),
            MetadataErrorKind::NoWorkspacePackages => "Cargo metadata did not report any workspace packages".to_owned(),
            MetadataErrorKind::SanitizerConfigNotObject => about(s, ": sanitizer metadata must be an object"),
            MetadataErrorKind::SanitizersNotArray => about(s, ": sanitizers must be an array"),
            MetadataErrorKind::SanitizerNotString => about(s, ": sanitizers entries must be strings"),
            MetadataErrorKind::UnsupportedSanitizer => {
                let mut r = about(s, ": sanitizers contains unsupported sanitizer ");
                r.append(self.detail.as_str());
                r
            },
            MetadataErrorKind::DuplicateSanitizer => about(s, ": sanitizers contains a duplicate entry"),
            MetadataErrorKind::InvalidJson => "cargo metadata returned invalid JSON".to_owned(),
        }
    }
}

/// `package {subject}{tail}`.
fn about(subject: &str, tail: &str) -> (r: String)
    ensures
        r@ == "package "@ + subject@ + tail@,
{
    let mut r = "package ".to_owned();
    r.append(subject);
    r.append(tail);
    r
}

/// Reads the standard output of `cargo metadata` as a JSON document.
pub fn workspace_document(output: &[u8]) -> (r: Result<JsonValue, MetadataError>)
    ensures
        match parsed_json(output@) {
            Some(v) => r matches Ok(d) && d == v,
            None => r matches Err(e) && e@ == fault(MetadataErrorKind::InvalidJson, Seq::empty()),
        },
{
    match parse_json(output) {
        Some(document) => Ok(document),
        None => Err(MetadataError::plain(MetadataErrorKind::InvalidJson)),
    }
}

/// Configuration for running one Cargo package under Miri.
#[derive(Debug, PartialEq, Eq)]
pub struct MiriPackage {
    /// Cargo package name passed to `--package`.
    pub name: String,
    /// Optional Cargo test target and name filters.
    pub test_args: Vec<String>,
}

impl View for MiriPackage {
    type V = (Seq<char>, Seq<Seq<char>>);

    open spec fn view(&self) -> (Seq<char>, Seq<Seq<char>>) {
        (self.name@, strings(self.test_args@))
    }
}

/// The package's `rs-infra` table, else its `rs-ci` table, under an object
/// `metadata` member.
pub open spec fn infra_config(package: JsonValue) -> Option<JsonValue> {
    match json_get(package, "metadata"@) {
        Some(m) => if json_is_object(m) {
            match json_get(m, "rs-infra"@) {
                Some(x) => Some(x),
                None => json_get(m, "rs-ci"@),
            }
        } else {
            None
        },
        None => None,
    }
}

/// Whether every element of `items` is a string.
pub open spec fn all_strings(items: Seq<JsonValue>) -> bool {
    forall|i: int| 0 <= i < items.len() ==> #[trigger] json_str(items[i]) is Some
}

/// The texts of string elements.
pub open spec fn string_items(items: Seq<JsonValue>) -> Seq<Seq<char>> {
    items.map_values(|v: JsonValue| json_str(v)->Some_0)
}

/// The Miri test arguments configured in `infra` for the package `id`.
pub open spec fn miri_test_args(infra: JsonValue, id: Seq<char>) -> Result<
    Seq<Seq<char>>,
    (MetadataErrorKind, Seq<char>, Seq<char>),
> {
    match json_get(infra, "miri-test-args"@) {
        None => Ok(Seq::empty()),
        Some(args) => match json_array(args) {
            None => Err(fault(MetadataErrorKind::TestArgsNotArray, id)),
            Some(items) => if all_strings(items) {
                Ok(string_items(items))
            } else {
                Err(fault(MetadataErrorKind::TestArgNotString, id))
            },
        },
    }
}

/// Whether some element of `members` is the string `id`.
pub open spec fn has_member_id(members: Seq<JsonValue>, id: Seq<char>) -> bool {
    exists|i: int| 0 <= i < members.len() && #[trigger] json_str(members[i]) == Some(id)
}

/// What one package contributes to the Miri packages: nothing, a package,
/// or an error.
pub open spec fn miri_package_of(members: Seq<JsonValue>, package: JsonValue) -> Result<
    Option<(Seq<char>, Seq<Seq<char>>)>,
    (MetadataErrorKind, Seq<char>, Seq<char>),
> {
    match json_get(package, "id"@) {
        None => Err(fault(MetadataErrorKind::PackageWithoutStringId, Seq::empty())),
        Some(idv) => match json_str(idv) {
            None => Err(fault(MetadataErrorKind::PackageWithoutStringId, Seq::empty())),
            Some(id) => if !has_member_id(members, id) {
                Ok(None)
            } else {
                match infra_config(package) {
                    None => Ok(None),
                    Some(infra) => match json_get(infra, "miri"@) {
                        None => Ok(None),
                        Some(miri) => match json_bool(miri) {
                            None => Err(fault(MetadataErrorKind::MiriNotBoolean, id)),
                            Some(false) => Ok(None),
                            Some(true) => match json_get(package, "name"@) {
                                Some(n) if json_str(n) is Some => match miri_test_args(infra, id) {
                                    Ok(args) => Ok(Some((json_str(n)->Some_0, args))),
                                    Err(e) => Err(e),
                                },
                                _ => Err(
                                    fault(MetadataErrorKind::MiriPackageWithoutName, Seq::empty()),
                                ),
                            },
                        },
                    },
                }
            },
        },
    }
}

/// The Miri packages of the first `n` packages, in order, or the first
/// error among them.
pub open spec fn miri_packages_upto(members: Seq<JsonValue>, packages: Seq<JsonValue>, n: int) -> Result<
    Seq<(Seq<char>, Seq<Seq<char>>)>,
    (MetadataErrorKind, Seq<char>, Seq<char>),
>
    decreases n,
{
    if n <= 0 {
        Ok(Seq::empty())
    } else {
        match miri_packages_upto(members, packages, n - 1) {
            Err(e) => Err(e),
            Ok(found) => match miri_package_of(members, packages[n - 1]) {
                Err(e) => Err(e),
                Ok(None) => Ok(found),
                Ok(Some(p)) => Ok(found.push(p)),
            },
        }
    }
}

/// The Miri-enabled workspace packages of a `cargo metadata` document.
pub open spec fn miri_packages_of(metadata: JsonValue) -> Result<
    Seq<(Seq<char>, Seq<Seq<char>>)>,
    (MetadataErrorKind, Seq<char>, Seq<char>),
> {
    match json_get(metadata, "workspace_members"@) {
        Some(m) if json_array(m) is Some => match json_get(metadata, "packages"@) {
            Some(p) if json_array(p) is Some => miri_packages_upto(
                json_array(m)->Some_0,
                json_array(p)->Some_0,
                json_array(p)->Some_0.len() as int,
            ),
            _ => Err(fault(MetadataErrorKind::NoPackagesArray, Seq::empty())),
        },
        _ => Err(fault(MetadataErrorKind::NoWorkspaceMembersArray, Seq::empty())),
    }
}

/// Returns whether some element of `members` is the string `id`.
fn has_member_id_exec(members: &Vec<JsonValue>, id: &str) -> (r: bool)
    ensures
        r == has_member_id(members@, id@),
{
    let mut i: usize = 0;
    while i < members.len()
        invariant
            i <= members@.len(),
            forall|k: int| 0 <= k < i ==> #[trigger] json_str(members@[k]) != Some(id@),
        decreases members.len() - i,
    {
        match members[i].as_str() {
            Some(s) => {
                if crate::text::same_text(s, id) {
                    return true;
                }
            },
            None => {},
        }
        i += 1;
    }
    false
}

/// Parses one package's optional Miri test-selection arguments from its
/// configuration table `infra`; `package_id` names it in errors.
pub fn parse_miri_test_args(infra: &JsonValue, package_id: &str) -> (r: Result<
    Vec<String>,
    MetadataError,
>)
    ensures
        match miri_test_args(*infra, package_id@) {
            Ok(args) => r matches Ok(v) && strings(v@) == args,
            Err(e) => r matches Err(err) && err@ == e,
        },
{
    let arguments = match infra.get("miri-test-args") {
        None => return Ok(Vec::new()),
        Some(a) => a,
    };
    let items = match arguments.as_array() {
        None => return Err(MetadataError::new(MetadataErrorKind::TestArgsNotArray, package_id)),
        Some(items) => items,
    };
    let mut r: Vec<String> = Vec::new();
    let mut i: usize = 0;
    while i < items.len()
        invariant
            json_get(*infra, "miri-test-args"@) == Some(*arguments),
            json_array(*arguments) == Some(items@),
            i <= items@.len(),
            r@.len() == i,
            forall|k: int| 0 <= k < i ==> #[trigger] json_str(items@[k]) is Some,
            forall|k: int|
                0 <= k < i ==> #[trigger] r@[k]@ == json_str(items@[k])->Some_0,
        decreases items.len() - i,
    {
        match items[i].as_str() {
            Some(s) => r.push(s.to_owned()),
            None => {
                assert(!all_strings(items@)) by {
                    assert(json_str(items@[i as int]) is None);
                }
                return Err(MetadataError::new(MetadataErrorKind::TestArgNotString, package_id));
            },
        }
        i += 1;
    }
    assert(strings(r@) =~= string_items(items@));
    Ok(r)
}

/// Extracts the Miri-enabled workspace packages, and their optional
/// test-selection arguments, from a `cargo metadata` document.
pub fn miri_packages(metadata: &JsonValue) -> (r: Result<Vec<MiriPackage>, MetadataError>)
    ensures
        match miri_packages_of(*metadata) {
            Ok(found) => r matches Ok(v) && v@.map_values(|p: MiriPackage| p@) == found,
            Err(e) => r matches Err(err) && err@ == e,
        },
{
    let members = match metadata.get("workspace_members") {
        Some(m) => match m.as_array() {
            Some(a) => a,
            None => return Err(MetadataError::plain(MetadataErrorKind::NoWorkspaceMembersArray)),
        },
        None => return Err(MetadataError::plain(MetadataErrorKind::NoWorkspaceMembersArray)),
    };
    let packages = match metadata.get("packages") {
        Some(p) => match p.as_array() {
            Some(a) => a,
            None => return Err(MetadataError::plain(MetadataErrorKind::NoPackagesArray)),
        },
        None => return Err(MetadataError::plain(MetadataErrorKind::NoPackagesArray)),
    };
    let mut found: Vec<MiriPackage> = Vec::new();
    let mut i: usize = 0;
    assert(found@.map_values(|p: MiriPackage| p@) =~= Seq::<(Seq<char>, Seq<Seq<char>>)>::empty());
    while i < packages.len()
        invariant
            i <= packages@.len(),
            miri_packages_of(*metadata) == miri_packages_upto(
                members@,
                packages@,
                packages@.len() as int,
            ),
            miri_packages_upto(members@, packages@, i as int) == Ok::<
                Seq<(Seq<char>, Seq<Seq<char>>)>,
                (MetadataErrorKind, Seq<char>, Seq<char>),
            >(found@.map_values(|p: MiriPackage| p@)),
        decreases packages.len() - i,
    {
        proof {
            if miri_packages_upto(members@, packages@, i as int + 1) is Err {
                lemma_upto_error_sticks(members@, packages@, i as int + 1, packages@.len() as int);
            }
        }
        let package = &packages[i];
        let package_id = match package.get("id") {
            Some(v) => match v.as_str() {
                Some(s) => s,
                None => return Err(MetadataError::plain(MetadataErrorKind::PackageWithoutStringId)),
            },
            None => return Err(MetadataError::plain(MetadataErrorKind::PackageWithoutStringId)),
        };
        if !has_member_id_exec(members, package_id) {
            i += 1;
            continue;
        }
        let package_metadata = match package.get("metadata") {
            Some(m) => if m.is_object() {
                Some(m)
            } else {
                None
            },
            None => None,
        };
        let infra = match package_metadata {
            Some(m) => match m.get("rs-infra") {
                Some(x) => x,
                None => match m.get("rs-ci") {
                    Some(x) => x,
                    None => {
                        i += 1;
                        continue;
                    },
                },
            },
            None => {
                i += 1;
                continue;
            },
        };
        let miri = match infra.get("miri") {
            Some(m) => m,
            None => {
                i += 1;
                continue;
            },
        };
        match miri.as_bool() {
            Some(true) => {},
            Some(false) => {
                i += 1;
                continue;
            },
            None => return Err(MetadataError::new(MetadataErrorKind::MiriNotBoolean, package_id)),
        }
        let name = match package.get("name") {
            Some(n) => match n.as_str() {
                Some(s) => s.to_owned(),
                None => return Err(MetadataError::plain(MetadataErrorKind::MiriPackageWithoutName)),
            },
            None => return Err(MetadataError::plain(MetadataErrorKind::MiriPackageWithoutName)),
        };
        let test_args = match parse_miri_test_args(infra, package_id) {
            Ok(a) => a,
            Err(e) => return Err(e),
        };
        let ghost before = found@;
        found.push(MiriPackage { name, test_args });
        assert(found@.map_values(|p: MiriPackage| p@) =~= before.map_values(|p: MiriPackage| p@).push(
            found@[found@.len() - 1]@,
        ));
        i += 1;
    }
    Ok(found)
}

/// Once the packages read so far hold an error, every longer prefix gives
/// that same error.
pub proof fn lemma_upto_error_sticks(
    members: Seq<JsonValue>,
    packages: Seq<JsonValue>,
    n: int,
    m: int,
)
    requires
        n <= m,
        miri_packages_upto(members, packages, n) is Err,
    ensures
        miri_packages_upto(members, packages, m) == miri_packages_upto(members, packages, n),
    decreases m - n,
{
    if n < m {
        lemma_upto_error_sticks(members, packages, n, m - 1);
    }
}

/// A metadata error as a value: kind, subject, detail.
pub type Fault = (MetadataErrorKind, Seq<char>, Seq<char>);

/// The `workspace_members` and `packages` arrays of a document, as
/// `metadata["workspace_members"].as_array()` and
/// `metadata["packages"].as_array()` read them.
pub open spec fn workspace_arrays(metadata: JsonValue) -> Result<(Seq<JsonValue>, Seq<JsonValue>), Fault> {
    match json_array(json_field(metadata, "workspace_members"@)) {
        None => Err(fault(MetadataErrorKind::MissingWorkspaceMembers, Seq::empty())),
        Some(members) => match json_array(json_field(metadata, "packages"@)) {
            None => Err(fault(MetadataErrorKind::MissingPackages, Seq::empty())),
            Some(packages) => Ok((members, packages)),
        },
    }
}

/// Returns the `workspace_members` and `packages` arrays of a document.
pub fn workspace_arrays_of(metadata: &JsonValue) -> (r: Result<(&Vec<JsonValue>, &Vec<JsonValue>), MetadataError>)
    ensures
        match workspace_arrays(*metadata) {
            Ok((m, p)) => r matches Ok((mv, pv)) && mv@ == m && pv@ == p,
            Err(e) => r matches Err(err) && err@ == e,
        },
{
    let members = match metadata.field("workspace_members").as_array() {
        Some(m) => m,
        None => return Err(MetadataError::plain(MetadataErrorKind::MissingWorkspaceMembers)),
    };
    let packages = match metadata.field("packages").as_array() {
        Some(p) => p,
        None => return Err(MetadataError::plain(MetadataErrorKind::MissingPackages)),
    };
    Ok((members, packages))
}

/// Whether `package` is a workspace member: its `id` (or `null`) equals an
/// element of `members`.
pub open spec fn is_member(members: Seq<JsonValue>, package: JsonValue) -> bool {
    json_contains(members, json_field(package, "id"@))
}

/// Returns whether `package` is a workspace member.
pub fn is_member_exec(members: &Vec<JsonValue>, package: &JsonValue) -> (r: bool)
    ensures
        r == is_member(members@, *package),
{
    json_vec_contains(members, package.field("id"))
}

/// The names that `pick` selects from the first `n` packages, in order, or
/// the first error among them.
pub open spec fn names_upto(
    members: Seq<JsonValue>,
    packages: Seq<JsonValue>,
    n: int,
    pick: spec_fn(Seq<JsonValue>, JsonValue) -> Result<Option<Seq<char>>, Fault>,
) -> Result<Seq<Seq<char>>, Fault>
    decreases n,
{
    if n <= 0 {
        Ok(Seq::empty())
    } else {
        match names_upto(members, packages, n - 1, pick) {
            Err(e) => Err(e),
            Ok(found) => match pick(members, packages[n - 1]) {
                Err(e) => Err(e),
                Ok(None) => Ok(found),
                Ok(Some(name)) => Ok(found.push(name)),
            },
        }
    }
}

/// Once the names read so far hold an error, every longer prefix gives that
/// same error.
pub proof fn lemma_names_error_sticks(
    members: Seq<JsonValue>,
    packages: Seq<JsonValue>,
    n: int,
    m: int,
    pick: spec_fn(Seq<JsonValue>, JsonValue) -> Result<Option<Seq<char>>, Fault>,
)
    requires
        n <= m,
        names_upto(members, packages, n, pick) is Err,
    ensures
        names_upto(members, packages, m, pick) == names_upto(members, packages, n, pick),
    decreases m - n,
{
    if n < m {
        lemma_names_error_sticks(members, packages, n, m - 1, pick);
    }
}

/// The names of the workspace packages of a document that `pick` selects.
pub open spec fn selected_names(
    metadata: JsonValue,
    pick: spec_fn(Seq<JsonValue>, JsonValue) -> Result<Option<Seq<char>>, Fault>,
) -> Result<Seq<Seq<char>>, Fault> {
    match workspace_arrays(metadata) {
        Err(e) => Err(e),
        Ok((members, packages)) => names_upto(members, packages, packages.len() as int, pick),
    }
}

} // verus!
