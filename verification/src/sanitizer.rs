//! Package-scoped AddressSanitizer checks on supported host platforms.

use vstd::prelude::*;

use crate::json::{json_array, json_field, json_get, json_is_object, json_str, JsonValue};
use crate::metadata::{
    fault, is_member, is_member_exec, lemma_names_error_sticks, names_upto, selected_names,
    workspace_arrays_of, Fault, MetadataError, MetadataErrorKind,
};
use crate::plan::strings;
use crate::text::same_text;

verus! {

/// The package's sanitizer configuration: `metadata["rs-infra"]`, else
/// `metadata["rs-ci"]`; the modern table takes precedence.
pub open spec fn sanitizer_config(package: JsonValue) -> Option<JsonValue> {
    let m = json_field(package, "metadata"@);
    match json_get(m, "rs-infra"@) {
        Some(x) => Some(x),
        None => json_get(m, "rs-ci"@),
    }
}

/// Whether the first `n` entries of a `sanitizers` array enable
/// AddressSanitizer, or the first error among them: an entry that is not a
/// string, a sanitizer other than `address`, or a second `address`.
pub open spec fn sanitizer_scan(items: Seq<JsonValue>, name: Seq<char>, n: int) -> Result<bool, Fault>
    decreases n,
{
    if n <= 0 {
        Ok(false)
    } else {
        match sanitizer_scan(items, name, n - 1) {
            Err(e) => Err(e),
            Ok(enabled) => match json_str(items[n - 1]) {
                None => Err(fault(MetadataErrorKind::SanitizerNotString, name)),
                Some(s) => if s != "address"@ {
                    Err((MetadataErrorKind::UnsupportedSanitizer, name, s))
                } else if enabled {
                    Err(fault(MetadataErrorKind::DuplicateSanitizer, name))
                } else {
                    Ok(true)
                },
            },
        }
    }
}

/// What one package contributes to the AddressSanitizer packages: its
/// name, nothing, or an error.
pub open spec fn sanitizer_package_of(members: Seq<JsonValue>, package: JsonValue) -> Result<
    Option<Seq<char>>,
    Fault,
> {
    if !is_member(members, package) {
        Ok(None)
    } else {
        match json_str(json_field(package, "name"@)) {
            None => Err(fault(MetadataErrorKind::MissingPackageName, Seq::empty())),
            Some(name) => match sanitizer_config(package) {
                None => Ok(None),
                Some(config) => if !json_is_object(config) {
                    Err(fault(MetadataErrorKind::SanitizerConfigNotObject, name))
                } else {
                    match json_get(config, "sanitizers"@) {
                        None => Ok(None),
                        Some(list) => match json_array(list) {
                            None => Err(fault(MetadataErrorKind::SanitizersNotArray, name)),
                            Some(items) => match sanitizer_scan(items, name, items.len() as int) {
                                Err(e) => Err(e),
                                Ok(true) => Ok(Some(name)),
                                Ok(false) => Ok(None),
                            },
                        },
                    }
                },
            },
        }
    }
}

/// The workspace packages that opt into AddressSanitizer.
pub open spec fn sanitizer_packages(metadata: JsonValue) -> Result<Seq<Seq<char>>, Fault> {
    selected_names(metadata, |m: Seq<JsonValue>, p: JsonValue| sanitizer_package_of(m, p))
}

proof fn lemma_scan_error_sticks(items: Seq<JsonValue>, name: Seq<char>, n: int, m: int)
    requires
        n <= m,
        sanitizer_scan(items, name, n) is Err,
    ensures
        sanitizer_scan(items, name, m) == sanitizer_scan(items, name, n),
    decreases m - n,
{
    if n < m {
        lemma_scan_error_sticks(items, name, n, m - 1);
    }
}

/// Returns what one package contributes to the AddressSanitizer packages.
pub fn sanitizer_package(members: &Vec<JsonValue>, package: &JsonValue) -> (r: Result<
    Option<String>,
    MetadataError,
>)
    ensures
        match sanitizer_package_of(members@, *package) {
            Ok(Some(n)) => r matches Ok(Some(s)) && s@ == n,
            Ok(None) => r matches Ok(None),
            Err(e) => r matches Err(err) && err@ == e,
        },
{
    if !is_member_exec(members, package) {
        return Ok(None);
    }
    let name = match package.field("name").as_str() {
        Some(n) => n,
        None => return Err(MetadataError::plain(MetadataErrorKind::MissingPackageName)),
    };
    let metadata = package.field("metadata");
    let config = match metadata.get("rs-infra") {
        Some(c) => c,
        None => match metadata.get("rs-ci") {
            Some(c) => c,
            None => return Ok(None),
        },
    };
    if !config.is_object() {
        return Err(MetadataError::new(MetadataErrorKind::SanitizerConfigNotObject, name));
    }
    let list = match config.get("sanitizers") {
        Some(l) => l,
        None => return Ok(None),
    };
    let items = match list.as_array() {
        Some(items) => items,
        None => return Err(MetadataError::new(MetadataErrorKind::SanitizersNotArray, name)),
    };
    let mut enabled = false;
    let mut i: usize = 0;
    while i < items.len()
        invariant
            i <= items@.len(),
            sanitizer_scan(items@, name@, i as int) == Ok::<bool, Fault>(enabled),
            sanitizer_package_of(members@, *package) == match sanitizer_scan(
                items@,
                name@,
                items@.len() as int,
            ) {
                Err(e) => Err(e),
                Ok(true) => Ok(Some(name@)),
                Ok(false) => Ok(None::<Seq<char>>),
            },
        decreases items.len() - i,
    {
        proof {
            if sanitizer_scan(items@, name@, i + 1) is Err {
                lemma_scan_error_sticks(items@, name@, i + 1, items@.len() as int);
            }
        }
        let sanitizer = match items[i].as_str() {
            Some(s) => s,
            None => return Err(MetadataError::new(MetadataErrorKind::SanitizerNotString, name)),
        };
        if !same_text(sanitizer, "address") {
            return Err(
                MetadataError {
                    kind: MetadataErrorKind::UnsupportedSanitizer,
                    subject: name.to_owned(),
                    detail: sanitizer.to_owned(),
                },
            );
        }
        if enabled {
            return Err(MetadataError::new(MetadataErrorKind::DuplicateSanitizer, name));
        }
        enabled = true;
        i += 1;
    }
    if enabled {
        Ok(Some(name.to_owned()))
    } else {
        Ok(None)
    }
}

/// Resolves the workspace packages of a `cargo metadata` document that
/// declare `sanitizers = ["address"]` under `package.metadata.rs-infra`, or
/// else under the legacy `package.metadata.rs-ci`.
pub fn packages(metadata: &JsonValue) -> (r: Result<Vec<String>, MetadataError>)
    ensures
        match sanitizer_packages(*metadata) {
            Ok(names) => r matches Ok(v) && strings(v@) == names,
            Err(e) => r matches Err(err) && err@ == e,
        },
{
    let ghost pick = |m: Seq<JsonValue>, p: JsonValue| sanitizer_package_of(m, p);
    let (members, all_packages) = match workspace_arrays_of(metadata) {
        Ok(arrays) => arrays,
        Err(e) => return Err(e),
    };
    let mut selected: Vec<String> = Vec::new();
    let mut i: usize = 0;
    assert(strings(selected@) =~= Seq::<Seq<char>>::empty());
    while i < all_packages.len()
        invariant
            i <= all_packages@.len(),
            forall|m: Seq<JsonValue>, p: JsonValue| #[trigger]
                pick(m, p) == sanitizer_package_of(m, p),
            sanitizer_packages(*metadata) == names_upto(
                members@,
                all_packages@,
                all_packages@.len() as int,
                pick,
            ),
            names_upto(members@, all_packages@, i as int, pick) == Ok::<Seq<Seq<char>>, Fault>(
                strings(selected@),
            ),
        decreases all_packages.len() - i,
    {
        proof {
            if names_upto(members@, all_packages@, i + 1, pick) is Err {
                lemma_names_error_sticks(members@, all_packages@, i + 1, all_packages@.len() as int, pick);
            }
        }
        match sanitizer_package(members, &all_packages[i]) {
            Ok(Some(name)) => {
                let ghost before = selected@;
                selected.push(name);
                assert(strings(selected@) =~= strings(before).push(selected@[selected@.len() - 1]@));
            },
            Ok(None) => {},
            Err(e) => return Err(e),
        }
        i += 1;
    }
    Ok(selected)
}

/// The native target that AddressSanitizer runs on for a host operating
/// system and architecture, when the host is supported.
pub open spec fn host_target_of(os: Seq<char>, arch: Seq<char>) -> Option<Seq<char>> {
    if os == "linux"@ && arch == "x86_64"@ {
        Some("x86_64-unknown-linux-gnu"@)
    } else if os == "macos"@ && arch == "aarch64"@ {
        Some("aarch64-apple-darwin"@)
    } else if os == "macos"@ && arch == "x86_64"@ {
        Some("x86_64-apple-darwin"@)
    } else {
        None
    }
}

/// Maps runtime OS and architecture names to the supported native targets;
/// `None` for every other combination.
pub fn host_target(os: &str, arch: &str) -> (r: Option<&'static str>)
    ensures
        match host_target_of(os@, arch@) {
            Some(t) => r matches Some(s) && s@ == t,
            None => r is None,
        },
{
    if same_text(os, "linux") && same_text(arch, "x86_64") {
        Some("x86_64-unknown-linux-gnu")
    } else if same_text(os, "macos") && same_text(arch, "aarch64") {
        Some("aarch64-apple-darwin")
    } else if same_text(os, "macos") && same_text(arch, "x86_64") {
        Some("x86_64-apple-darwin")
    } else {
        None
    }
}

/// The address-instrumentation flag.
pub open spec fn sanitizer_flag() -> Seq<char> {
    "-Zsanitizer=address"@
}

/// Compiler or rustdoc flags with address instrumentation appended.
pub open spec fn instrumented(current: Seq<char>) -> Seq<char> {
    if current.len() == 0 {
        sanitizer_flag()
    } else {
        current + " "@ + sanitizer_flag()
    }
}

/// Appends address instrumentation to existing compiler or rustdoc flags,
/// keeping the caller's options first.
pub fn instrumented_flags(current: &str) -> (r: String)
    ensures
        r@ == instrumented(current@),
{
    if current.is_empty() {
        "-Zsanitizer=address".to_owned()
    } else {
        let mut r = current.to_owned();
        r.append(" -Zsanitizer=address");
        proof {
            reveal_strlit(" -Zsanitizer=address");
            reveal_strlit(" ");
            reveal_strlit("-Zsanitizer=address");
        }
        assert(r@ =~= current@ + " "@ + sanitizer_flag());
        r
    }
}

/// The Cargo arguments that run one package's tests with AddressSanitizer.
pub open spec fn sanitizer_args(nightly: Seq<char>, target: Seq<char>, name: Seq<char>) -> Seq<
    Seq<char>,
> {
    seq![
        nightly,
        "test"@,
        "--locked"@,
        "-Zbuild-std"@,
        "--target"@,
        target,
        "--all-features"@,
        "--package"@,
        name,
    ]
}

/// Returns the Cargo arguments that run one package's tests with
/// AddressSanitizer on `target` under the toolchain argument `nightly`.
pub fn sanitizer_arguments(nightly: &str, target: &str, name: &str) -> (r: Vec<String>)
    ensures
        strings(r@) == sanitizer_args(nightly@, target@, name@),
{
    let mut r: Vec<String> = Vec::new();
    r.push(nightly.to_owned());
    r.push("test".to_owned());
    r.push("--locked".to_owned());
    r.push("-Zbuild-std".to_owned());
    r.push("--target".to_owned());
    r.push(target.to_owned());
    r.push("--all-features".to_owned());
    r.push("--package".to_owned());
    r.push(name.to_owned());
    assert(strings(r@) =~= sanitizer_args(nightly@, target@, name@));
    r
}

} // verus!
