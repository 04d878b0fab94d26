//! Checks README dependency snippets against workspace package versions.
//!
//! A declaration of a workspace package in a README must carry the
//! package's exact `major.minor` version. Matching a line against a
//! declaration, and reading the version out of it, is done with the `regex`
//! crate; the contracts below speak of what it matches through
//! [`regex_captures`].

use vstd::prelude::*;

use crate::json::{json_field, json_str, JsonValue};
use crate::metadata::{fault, Fault, MetadataError, MetadataErrorKind};
use crate::plan::strings;
use crate::text::{chars_of, decimal, decimal_text, lines, lines_of, string_of, trim, trim_chars};

verus! {

// ---------------------------------------------------------------------------
// The regex crate
// ---------------------------------------------------------------------------

#[verifier::external_type_specification]
#[verifier::external_body]
pub struct ExRegex(regex::Regex);

#[verifier::external_type_specification]
#[verifier::external_body]
pub struct ExRegexError(regex::Error);

/// Whether `regex::Regex::new` accepts `pattern`.
pub uninterp spec fn regex_compiles(pattern: Seq<char>) -> bool;

/// What `Regex::captures` gives for the regular expression `pattern` on
/// `text`: nothing when it does not match, else the text of each capture
/// group (group 0 being the whole match), or nothing for a group that took
/// no part in the match.
pub uninterp spec fn regex_captures(pattern: Seq<char>, text: Seq<char>) -> Option<
    Seq<Option<Seq<char>>>,
>;

/// Whether `regex::escape` escapes `c`.
pub open spec fn is_regex_meta(c: char) -> bool {
    ||| c == '\\'
    ||| c == '.'
    ||| c == '+'
    ||| c == '*'
    ||| c == '?'
    ||| c == '('
    ||| c == ')'
    ||| c == '|'
    ||| c == '['
    ||| c == ']'
    ||| c == '{'
    ||| c == '}'
    ||| c == '^'
    ||| c == '$'
    ||| c == '#'
    ||| c == '&'
    ||| c == '-'
    ||| c == '~'
}

/// `text` with a backslash in front of each regex meta character
/// (`regex::escape`).
pub open spec fn regex_escaped(text: Seq<char>) -> Seq<char>
    decreases text.len(),
{
    if text.len() == 0 {
        Seq::empty()
    } else {
        let c = text.last();
        regex_escaped(text.drop_last()) + if is_regex_meta(c) {
            seq!['\\', c]
        } else {
            seq![c]
        }
    }
}

/// A compiled regular expression and its source text.
pub struct Pattern {
    source: String,
    compiled: regex::Regex,
}

impl Pattern {
    /// The source text of the regular expression.
    pub closed spec fn source(&self) -> Seq<char> {
        self.source@
    }
}

/// Compiles `pattern` with `regex::Regex::new`, which succeeds exactly when
/// the pattern is a valid regular expression.
#[verifier::external_body]
fn compile(pattern: &str) -> (r: Result<Pattern, regex::Error>)
    ensures
        r is Ok <==> regex_compiles(pattern@),
        r matches Ok(p) ==> p.source() == pattern@,
{
    match regex::Regex::new(pattern) {
        Ok(compiled) => Ok(Pattern { source: pattern.to_owned(), compiled }),
        Err(e) => Err(e),
    }
}

/// The texts of capture groups, as values.
pub open spec fn group_views(groups: Seq<Option<String>>) -> Seq<Option<Seq<char>>> {
    groups.map_values(
        |g: Option<String>|
            match g {
                Some(s) => Some(s@),
                None => None,
            },
    )
}

/// The capture groups of a match, as values.
pub open spec fn match_views(m: Option<Vec<Option<String>>>) -> Option<Seq<Option<Seq<char>>>> {
    match m {
        Some(v) => Some(group_views(v@)),
        None => None,
    }
}

/// Matches `pattern` against `text` with `Regex::captures`, giving the text
/// of every capture group.
#[verifier::external_body]
fn captures(pattern: &Pattern, text: &str) -> (r: Option<Vec<Option<String>>>)
    ensures
        match_views(r) == regex_captures(pattern.source(), text@),
{
    pattern.compiled.captures(text).map(
        |caps| caps.iter().map(|m| m.map(|m| m.as_str().to_owned())).collect(),
    )
}

/// Escapes the regex meta characters of `text` (`regex::escape`).
#[verifier::external_body]
fn escape(text: &str) -> (r: String)
    ensures
        r@ == regex_escaped(text@),
{
    regex::escape(text)
}

/// The text of capture group `i`; empty when the group took no part.
pub open spec fn group(groups: Seq<Option<Seq<char>>>, i: int) -> Seq<char> {
    if 0 <= i < groups.len() && groups[i] is Some {
        groups[i]->Some_0
    } else {
        Seq::empty()
    }
}

/// Returns the text of capture group `i`; empty when the group took no
/// part.
pub fn group_text(groups: &Vec<Option<String>>, i: usize) -> (r: String)
    ensures
        r@ == group(group_views(groups@), i as int),
{
    if i < groups.len() {
        match &groups[i] {
            Some(s) => s.clone(),
            None => String::new(),
        }
    } else {
        String::new()
    }
}

// ---------------------------------------------------------------------------
// The patterns
// ---------------------------------------------------------------------------

/// A version's leading `major.minor`.
pub open spec fn minor_pattern() -> Seq<char> {
    r"^(\d+)\.(\d+)(?:[.\-+]|$)"@
}

/// A bare version string value.
pub open spec fn string_pattern() -> Seq<char> {
    r#"^"([^"]+)"\s*$"#@
}

/// A `version = "..."` entry of an inline table.
pub open spec fn inline_pattern() -> Seq<char> {
    r#"\bversion\s*=\s*"([^"]+)""#@
}

/// A declaration of the dependency `name`, with its value in group 1.
pub open spec fn declaration_pattern(name: Seq<char>) -> Seq<char> {
    r"^\s*"@ + regex_escaped(name) + r"\s*=\s*(?P<value>.+?)\s*(?:#.*)?$"@
}

/// The compiled patterns that every README check uses.
pub struct ReadmePatterns {
    minor: Pattern,
    string: Pattern,
    inline: Pattern,
}

impl ReadmePatterns {
    /// Whether the patterns are the ones their names say.
    pub closed spec fn wf(&self) -> bool {
        &&& self.minor.source() == minor_pattern()
        &&& self.string.source() == string_pattern()
        &&& self.inline.source() == inline_pattern()
    }

    /// Compiles the patterns.
    pub fn new() -> (r: Result<ReadmePatterns, ReadmeError>)
        ensures
            regex_compiles(minor_pattern()) && regex_compiles(string_pattern()) && regex_compiles(
                inline_pattern(),
            ) <==> r is Ok,
            r matches Ok(p) ==> p.wf(),
    {
        let minor = match compile(r"^(\d+)\.(\d+)(?:[.\-+]|$)") {
            Ok(p) => p,
            Err(_) => return Err(ReadmeError::InvalidPattern),
        };
        let string = match compile(r#"^"([^"]+)"\s*$"#) {
            Ok(p) => p,
            Err(_) => return Err(ReadmeError::InvalidPattern),
        };
        let inline = match compile(r#"\bversion\s*=\s*"([^"]+)""#) {
            Ok(p) => p,
            Err(_) => return Err(ReadmeError::InvalidPattern),
        };
        Ok(ReadmePatterns { minor, string, inline })
    }
}

// ---------------------------------------------------------------------------
// Errors
// ---------------------------------------------------------------------------

/// Why a README check could not run.
#[derive(Debug, Clone, PartialEq, Eq)]
pub enum ReadmeError {
    /// The metadata of a package is malformed.
    Metadata(MetadataError),
    /// A package version does not start with `major.minor`.
    VersionNotMajorMinor,
    /// A pattern could not be compiled.
    InvalidPattern,
}

/// A README check error as a value.
pub enum ReadmeFault {
    /// The metadata of a package is malformed.
    Metadata(Fault),
    /// A package version does not start with `major.minor`.
    VersionNotMajorMinor,
    /// A pattern could not be compiled.
    InvalidPattern,
}

impl View for ReadmeError {
    type V = ReadmeFault;

    open spec fn view(&self) -> ReadmeFault {
        match self {
            ReadmeError::Metadata(e) => ReadmeFault::Metadata(e@),
            ReadmeError::VersionNotMajorMinor => ReadmeFault::VersionNotMajorMinor,
            ReadmeError::InvalidPattern => ReadmeFault::InvalidPattern,
        }
    }
}

/// The message of a README check error.
pub open spec fn readme_error_message(e: ReadmeFault) -> Seq<char> {
    match e {
        ReadmeFault::Metadata(f) => crate::metadata::metadata_error_message(f),
        ReadmeFault::VersionNotMajorMinor => "package version does not start with major.minor"@,
        ReadmeFault::InvalidPattern => "invalid README dependency pattern"@,
    }
}

impl ReadmeError {
    /// The error's message.
    pub fn message(&self) -> (r: String)
        ensures
            r@ == readme_error_message(self@),
    {
        match self {
            ReadmeError::Metadata(e) => e.message(),
            ReadmeError::VersionNotMajorMinor => "package version does not start with major.minor".to_owned(),
            ReadmeError::InvalidPattern => "invalid README dependency pattern".to_owned(),
        }
    }
}

// ---------------------------------------------------------------------------
// Checking one README
// ---------------------------------------------------------------------------

/// The `major.minor` that a declaration of a package of version `version`
/// must carry: the first two groups of the version's leading numbers.
pub open spec fn expected_version(version: Seq<char>) -> Option<Seq<char>> {
    match regex_captures(minor_pattern(), version) {
        None => None,
        Some(c) => Some(expected_from(c)),
    }
}

/// The `major.minor` read from the capture groups of a version's match:
/// group 1, a dot, group 2.
pub open spec fn expected_from(groups: Seq<Option<Seq<char>>>) -> Seq<char> {
    group(groups, 1) + "."@ + group(groups, 2)
}

/// The version a declaration's value carries, given how the bare-string
/// pattern matched it and, when that did not match, how the inline-table
/// pattern did: group 1 of the first that matched.
pub open spec fn declared_from(
    string_match: Option<Seq<Option<Seq<char>>>>,
    inline_match: Option<Seq<Option<Seq<char>>>>,
) -> Option<Seq<char>> {
    match string_match {
        Some(c) => Some(group(c, 1)),
        None => match inline_match {
            Some(c) => Some(group(c, 1)),
            None => None,
        },
    }
}

/// The version that a declaration's value carries: a bare string, else the
/// `version` entry of an inline table.
pub open spec fn declared_version(value: Seq<char>) -> Option<Seq<char>> {
    declared_from(regex_captures(string_pattern(), value), regex_captures(inline_pattern(), value))
}

/// What a line tells about the dependency `name`: nothing when it does not
/// declare it, else the declared version, if any.
pub open spec fn line_declaration(name: Seq<char>, line: Seq<char>) -> Option<Option<Seq<char>>> {
    match regex_captures(declaration_pattern(name), line) {
        None => None,
        Some(c) => Some(declared_version(trim(group(c, 1)))),
    }
}

/// `{display}:{number}: `
pub open spec fn location(display: Seq<char>, number: nat) -> Seq<char> {
    display + ":"@ + decimal(number) + ": "@
}

/// The error reported for line `number` declaring `name` with `declared`
/// instead of `expected`: nothing when they agree.
pub open spec fn declaration_error(
    display: Seq<char>,
    number: nat,
    name: Seq<char>,
    expected: Seq<char>,
    declared: Option<Seq<char>>,
) -> Option<Seq<char>> {
    match declared {
        Some(found) => if found == expected {
            None
        } else {
            Some(
                location(display, number) + "expected \""@ + expected + "\" for "@ + name
                    + ", found \""@ + found + "\""@,
            )
        },
        None => Some(
            location(display, number) + "dependency declaration for "@ + name
                + " must include version = \""@ + expected + "\""@,
        ),
    }
}

/// The errors and the number of declarations of `name` among the first `n`
/// lines.
pub open spec fn declarations_upto(
    display: Seq<char>,
    ls: Seq<Seq<char>>,
    name: Seq<char>,
    expected: Seq<char>,
    n: int,
) -> (Seq<Seq<char>>, nat)
    decreases n,
{
    if n <= 0 {
        (Seq::empty(), 0)
    } else {
        let (errors, checked) = declarations_upto(display, ls, name, expected, n - 1);
        match line_declaration(name, ls[n - 1]) {
            None => (errors, checked),
            Some(declared) => match declaration_error(display, n as nat, name, expected, declared) {
                None => (errors, checked + 1),
                Some(e) => (errors.push(e), checked + 1),
            },
        }
    }
}

/// The name and the expected `major.minor` of a package, or why they cannot
/// be read.
pub open spec fn package_expectation(package: JsonValue) -> Result<(Seq<char>, Seq<char>), ReadmeFault> {
    match json_str(json_field(package, "name"@)) {
        None => Err(ReadmeFault::Metadata(fault(MetadataErrorKind::MissingPackageName, Seq::empty()))),
        Some(name) => match json_str(json_field(package, "version"@)) {
            None => Err(
                ReadmeFault::Metadata(fault(MetadataErrorKind::MissingPackageVersion, Seq::empty())),
            ),
            Some(version) => match expected_version(version) {
                None => Err(ReadmeFault::VersionNotMajorMinor),
                Some(expected) => if regex_compiles(declaration_pattern(name)) {
                    Ok((name, expected))
                } else {
                    Err(ReadmeFault::InvalidPattern)
                },
            },
        },
    }
}

/// The errors and the number of declarations that the first `k` packages
/// find in the lines `ls` of the README shown as `display`, or the first
/// error that stops the check.
pub open spec fn readme_upto(
    display: Seq<char>,
    ls: Seq<Seq<char>>,
    packages: Seq<JsonValue>,
    k: int,
) -> Result<(Seq<Seq<char>>, nat), ReadmeFault>
    decreases k,
{
    if k <= 0 {
        Ok((Seq::empty(), 0))
    } else {
        match readme_upto(display, ls, packages, k - 1) {
            Err(e) => Err(e),
            Ok((errors, checked)) => match package_expectation(packages[k - 1]) {
                Err(e) => Err(e),
                Ok((name, expected)) => {
                    let (more, count) = declarations_upto(
                        display,
                        ls,
                        name,
                        expected,
                        ls.len() as int,
                    );
                    Ok((errors + more, checked + count))
                },
            },
        }
    }
}

/// What checking the README shown as `display`, with text `content`,
/// against `packages` finds: the errors, in package then line order, and
/// the number of declarations checked.
pub open spec fn readme_check(display: Seq<char>, content: Seq<char>, packages: Seq<JsonValue>) -> Result<
    (Seq<Seq<char>>, nat),
    ReadmeFault,
> {
    readme_upto(display, lines(content), packages, packages.len() as int)
}

/// The running totals of a README check.
#[derive(Debug, Clone, PartialEq, Eq)]
pub struct ReadmeReport {
    /// Errors, with file and line.
    pub errors: Vec<String>,
    /// Number of dependency declarations checked.
    pub checked: u64,
}

/// `{display}:{number}: ` as text.
fn location_text(display: &str, number: u64) -> (r: String)
    ensures
        r@ == location(display@, number as nat),
{
    let mut r = display.to_owned();
    r.append(":");
    r.append(decimal_text(number).as_str());
    r.append(": ");
    r
}

/// Returns the error for line `number` of the README shown as `display`,
/// which declares `name` with the version `declared` (read from the line's
/// captures) where `expected` is owed: nothing when they agree.
pub fn declaration_error_text(
    display: &str,
    number: u64,
    name: &str,
    expected: &str,
    declared: &Option<String>,
) -> (r: Option<String>)
    ensures
        match declaration_error(
            display@,
            number as nat,
            name@,
            expected@,
            match declared {
                Some(d) => Some(d@),
                None => None,
            },
        ) {
            None => r is None,
            Some(e) => r matches Some(s) && s@ == e,
        },
{
    match declared {
        Some(found) => {
            if found.as_str().to_owned() == expected.to_owned() {
                None
            } else {
                let mut r = location_text(display, number);
                r.append("expected \"");
                r.append(expected);
                r.append("\" for ");
                r.append(name);
                r.append(", found \"");
                r.append(found.as_str());
                r.append("\"");
                Some(r)
            }
        },
        None => {
            let mut r = location_text(display, number);
            r.append("dependency declaration for ");
            r.append(name);
            r.append(" must include version = \"");
            r.append(expected);
            r.append("\"");
            Some(r)
        },
    }
}

/// Returns the `major.minor` read from the capture groups of a version's
/// match.
pub fn expected_version_text(groups: &Vec<Option<String>>) -> (r: String)
    ensures
        r@ == expected_from(group_views(groups@)),
{
    let mut r = group_text(groups, 1);
    r.append(".");
    r.append(group_text(groups, 2).as_str());
    r
}

/// Returns the version a declaration's value carries, given the captures of
/// the bare-string pattern and, when that did not match, of the
/// inline-table pattern.
pub fn declared_version_of(
    string_match: &Option<Vec<Option<String>>>,
    inline_match: &Option<Vec<Option<String>>>,
) -> (r: Option<String>)
    ensures
        match declared_from(match_views(*string_match), match_views(*inline_match)) {
            None => r is None,
            Some(v) => r matches Some(s) && s@ == v,
        },
{
    match string_match {
        Some(c) => Some(group_text(c, 1)),
        None => match inline_match {
            Some(c) => Some(group_text(c, 1)),
            None => None,
        },
    }
}

/// Reads the version that a declaration's value carries.
fn declared_version_exec(patterns: &ReadmePatterns, value: &str) -> (r: Option<String>)
    requires
        patterns.wf(),
    ensures
        match declared_version(value@) {
            None => r is None,
            Some(v) => r matches Some(s) && s@ == v,
        },
{
    let string_match = captures(&patterns.string, value);
    let inline_match = match &string_match {
        Some(_) => None,
        None => captures(&patterns.inline, value),
    };
    declared_version_of(&string_match, &inline_match)
}

impl ReadmePatterns {
    /// Checks the README shown as `display`, with text `content`, against
    /// the workspace packages `packages`, adding its errors and the number
    /// of declarations it checked to `report`. Each line that declares a
    /// package must give its exact `major.minor` version, as a bare string
    /// or as the `version` of an inline table. The count saturates at
    /// `u64::MAX`.
    pub fn check_readme(
        &self,
        display: &str,
        content: &str,
        packages: &Vec<&JsonValue>,
        report: &mut ReadmeReport,
    ) -> (r: Result<(), ReadmeError>)
        requires
            self.wf(),
        ensures
            match readme_check(
                display@,
                content@,
                packages@.map_values(|p: &JsonValue| *p),
            ) {
                Err(e) => r matches Err(err) && err@ == e,
                Ok((errors, checked)) => r is Ok && strings(final(report).errors@) == strings(
                    old(report).errors@,
                ) + errors && final(report).checked == if old(report).checked + checked
                    > u64::MAX {
                    u64::MAX as int
                } else {
                    old(report).checked + checked
                },
            },
    {
        let ghost pkgs = packages@.map_values(|p: &JsonValue| *p);
        let ghost start_errors = strings(report.errors@);
        let ghost start_checked = report.checked as int;
        let ls = lines_of(&chars_of(content));
        let mut total: u64 = report.checked;
        let mut k: usize = 0;
        while k < packages.len()
            invariant
                self.wf(),
                pkgs == packages@.map_values(|p: &JsonValue| *p),
                k <= packages@.len(),
                ls@.len() == lines(content@).len(),
                forall|j: int| 0 <= j < ls@.len() ==> #[trigger] ls@[j]@ == lines(content@)[j],
                readme_check(display@, content@, pkgs) == readme_upto(
                    display@,
                    lines(content@),
                    pkgs,
                    pkgs.len() as int,
                ),
                readme_upto(display@, lines(content@), pkgs, k as int) matches Ok((errors, checked))
                    && strings(report.errors@) == start_errors + errors && total == if start_checked
                    + checked > u64::MAX {
                    u64::MAX as int
                } else {
                    start_checked + checked
                },
                report.checked == start_checked,
            decreases packages.len() - k,
        {
            proof {
                if readme_upto(display@, lines(content@), pkgs, k + 1) is Err {
                    lemma_readme_error_sticks(
                        display@,
                        lines(content@),
                        pkgs,
                        k + 1,
                        pkgs.len() as int,
                    );
                }
            }
            let package: &JsonValue = packages[k];
            assert(*package == pkgs[k as int]);
            let name = match package.field("name").as_str() {
                Some(n) => n,
                None => {
                    return Err(
                        ReadmeError::Metadata(
                            MetadataError::plain(MetadataErrorKind::MissingPackageName),
                        ),
                    )
                },
            };
            let version = match package.field("version").as_str() {
                Some(v) => v,
                None => {
                    return Err(
                        ReadmeError::Metadata(
                            MetadataError::plain(MetadataErrorKind::MissingPackageVersion),
                        ),
                    )
                },
            };
            let parts = match captures(&self.minor, version) {
                Some(c) => c,
                None => return Err(ReadmeError::VersionNotMajorMinor),
            };
            let expected = expected_version_text(&parts);
            let mut source = r"^\s*".to_owned();
            source.append(escape(name).as_str());
            source.append(r"\s*=\s*(?P<value>.+?)\s*(?:#.*)?$");
            let declaration = match compile(source.as_str()) {
                Ok(p) => p,
                Err(_) => return Err(ReadmeError::InvalidPattern),
            };
            let ghost before_errors = strings(report.errors@);
            let ghost before_total = total as int;
            let ghost prev = readme_upto(display@, lines(content@), pkgs, k as int)->Ok_0;
            let mut j: usize = 0;
            while j < ls.len()
                invariant
                    k < packages@.len(),
                    ls@.len() == lines(content@).len(),
                    forall|m: int| 0 <= m < ls@.len() ==> #[trigger] ls@[m]@ == lines(content@)[m],
                    declaration.source() == declaration_pattern(name@),
                    self.wf(),
                    j <= ls@.len(),
                    ({
                        let (errors, checked) = declarations_upto(
                            display@,
                            lines(content@),
                            name@,
                            expected@,
                            j as int,
                        );
                        &&& strings(report.errors@) == before_errors + errors
                        &&& total == if before_total + checked > u64::MAX {
                            u64::MAX as int
                        } else {
                            before_total + checked
                        }
                    }),
                    report.checked == start_checked,
                decreases ls.len() - j,
            {
                let line = string_of(&ls[j]);
                match captures(&declaration, line.as_str()) {
                    None => {},
                    Some(c) => {
                        let value = group_text(&c, 1);
                        let trimmed = string_of(&trim_chars(&chars_of(value.as_str())));
                        let declared = declared_version_exec(self, trimmed.as_str());
                        total = if total == u64::MAX {
                            u64::MAX
                        } else {
                            total + 1
                        };
                        let number: u64 = if j as u64 == u64::MAX { u64::MAX } else { j as u64 + 1 };
                        assert(number == j + 1);
                        match declaration_error_text(display, number, name, expected.as_str(), &declared) {
                            None => {},
                            Some(e) => {
                                let ghost b = report.errors@;
                                report.errors.push(e);
                                assert(strings(report.errors@) =~= strings(b).push(
                                    report.errors@[report.errors@.len() - 1]@,
                                ));
                            },
                        }
                    },
                }
                j += 1;
            }
            k += 1;
        }
        report.checked = total;
        Ok(())
    }
}

/// Once the packages checked so far hold an error, every longer prefix
/// gives that same error.
pub proof fn lemma_readme_error_sticks(
    display: Seq<char>,
    ls: Seq<Seq<char>>,
    packages: Seq<JsonValue>,
    n: int,
    m: int,
)
    requires
        n <= m,
        readme_upto(display, ls, packages, n) is Err,
    ensures
        readme_upto(display, ls, packages, m) == readme_upto(display, ls, packages, n),
    decreases m - n,
{
    if n < m {
        lemma_readme_error_sticks(display, ls, packages, n, m - 1);
    }
}

} // verus!

verus! {

/// The packages of the first `n` that are workspace members.
pub open spec fn members_upto(members: Seq<JsonValue>, packages: Seq<JsonValue>, n: int) -> Seq<
    JsonValue,
>
    decreases n,
{
    if n <= 0 {
        Seq::empty()
    } else if crate::metadata::is_member(members, packages[n - 1]) {
        members_upto(members, packages, n - 1).push(packages[n - 1])
    } else {
        members_upto(members, packages, n - 1)
    }
}

/// The workspace packages of a document, in order; it is an error when
/// there are none.
pub open spec fn readme_packages_of(metadata: JsonValue) -> Result<Seq<JsonValue>, Fault> {
    match crate::metadata::workspace_arrays(metadata) {
        Err(e) => Err(e),
        Ok((members, packages)) => {
            let found = members_upto(members, packages, packages.len() as int);
            if found.len() == 0 {
                Err(fault(MetadataErrorKind::NoWorkspacePackages, Seq::empty()))
            } else {
                Ok(found)
            }
        },
    }
}

/// Returns the workspace packages of a `cargo metadata` document whose
/// READMEs are checked.
pub fn readme_packages(metadata: &JsonValue) -> (r: Result<Vec<&JsonValue>, MetadataError>)
    ensures
        match readme_packages_of(*metadata) {
            Ok(found) => r matches Ok(v) && v@.map_values(|p: &JsonValue| *p) == found,
            Err(e) => r matches Err(err) && err@ == e,
        },
{
    let (members, packages) = match crate::metadata::workspace_arrays_of(metadata) {
        Ok(arrays) => arrays,
        Err(e) => return Err(e),
    };
    let mut found: Vec<&JsonValue> = Vec::new();
    let mut i: usize = 0;
    assert(found@.map_values(|p: &JsonValue| *p) =~= Seq::<JsonValue>::empty());
    while i < packages.len()
        invariant
            i <= packages@.len(),
            found@.map_values(|p: &JsonValue| *p) == members_upto(members@, packages@, i as int),
        decreases packages.len() - i,
    {
        if crate::metadata::is_member_exec(members, &packages[i]) {
            let ghost before = found@;
            found.push(&packages[i]);
            assert(found@.map_values(|p: &JsonValue| *p) =~= before.map_values(
                |p: &JsonValue| *p,
            ).push(packages@[i as int]));
        }
        i += 1;
    }
    if found.len() == 0 {
        return Err(MetadataError::plain(MetadataErrorKind::NoWorkspacePackages));
    }
    Ok(found)
}

/// Where a package's READMEs are: its manifest path, and the name of its
/// declared README (`README.md` when none is declared). The Chinese
/// `README.zh_CN.md` beside the manifest is checked as well.
pub open spec fn readme_location_of(package: JsonValue) -> Result<(Seq<char>, Seq<char>), Fault> {
    match json_str(json_field(package, "manifest_path"@)) {
        None => Err(fault(MetadataErrorKind::MissingManifestPath, Seq::empty())),
        Some(manifest) => Ok(
            (
                manifest,
                match json_str(json_field(package, "readme"@)) {
                    Some(r) => r,
                    None => "README.md"@,
                },
            ),
        ),
    }
}

/// Returns a package's manifest path and the name of its declared README.
pub fn readme_location(package: &JsonValue) -> (r: Result<(String, String), MetadataError>)
    ensures
        match readme_location_of(*package) {
            Ok((m, n)) => r matches Ok((ms, ns)) && ms@ == m && ns@ == n,
            Err(e) => r matches Err(err) && err@ == e,
        },
{
    let manifest = match package.field("manifest_path").as_str() {
        Some(m) => m.to_owned(),
        None => return Err(MetadataError::plain(MetadataErrorKind::MissingManifestPath)),
    };
    let readme = match package.field("readme").as_str() {
        Some(r) => r.to_owned(),
        None => "README.md".to_owned(),
    };
    Ok((manifest, readme))
}

/// The errors joined by newlines.
pub open spec fn joined_lines(errors: Seq<Seq<char>>) -> Seq<char>
    decreases errors.len(),
{
    if errors.len() == 0 {
        Seq::empty()
    } else if errors.len() == 1 {
        errors[0]
    } else {
        joined_lines(errors.drop_last()) + "\n"@ + errors.last()
    }
}

/// Joins `errors` with newlines.
pub fn join_lines(errors: &Vec<String>) -> (r: String)
    ensures
        r@ == joined_lines(strings(errors@)),
{
    let mut r = String::new();
    let mut i: usize = 0;
    while i < errors.len()
        invariant
            i <= errors@.len(),
            r@ == joined_lines(strings(errors@).subrange(0, i as int)),
        decreases errors.len() - i,
    {
        let ghost prefix = strings(errors@).subrange(0, i + 1);
        assert(prefix.drop_last() =~= strings(errors@).subrange(0, i as int));
        if i > 0 {
            r.append("\n");
        }
        r.append(errors[i].as_str());
        proof {
            if i == 0 {
                assert(r@ =~= joined_lines(prefix));
            }
        }
        i += 1;
    }
    assert(strings(errors@).subrange(0, errors@.len() as int) =~= strings(errors@));
    r
}

/// What a README check ends with, given its totals and how many README
/// files were found: the joined errors when there are any; otherwise a
/// message that no file was found, that no declaration was found, or that
/// all declarations match.
pub open spec fn readme_outcome_of(errors: Seq<Seq<char>>, files: nat, checked: nat) -> Result<
    Seq<char>,
    Seq<char>,
> {
    if errors.len() > 0 {
        Err(joined_lines(errors))
    } else if files == 0 {
        Ok("No README files found; skipping README dependency version check."@)
    } else if checked == 0 {
        Ok(
            "No README dependency declarations found for workspace packages; skipping README dependency version check."@,
        )
    } else {
        Ok(
            "README dependency versions match workspace package versions ("@ + decimal(checked)
                + " declarations)."@,
        )
    }
}

/// Decides what a README check ends with.
pub fn readme_outcome(report: &ReadmeReport, files: usize) -> (r: Result<String, String>)
    ensures
        match readme_outcome_of(strings(report.errors@), files as nat, report.checked as nat) {
            Ok(m) => r matches Ok(s) && s@ == m,
            Err(m) => r matches Err(s) && s@ == m,
        },
{
    if report.errors.len() > 0 {
        return Err(join_lines(&report.errors));
    }
    if files == 0 {
        Ok("No README files found; skipping README dependency version check.".to_owned())
    } else if report.checked == 0 {
        Ok(
            "No README dependency declarations found for workspace packages; skipping README dependency version check.".to_owned(),
        )
    } else {
        let mut m = "README dependency versions match workspace package versions (".to_owned();
        m.append(decimal_text(report.checked).as_str());
        m.append(" declarations).");
        Ok(m)
    }
}

} // verus!
