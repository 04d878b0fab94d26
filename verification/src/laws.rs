//! Properties that hold across the library's operations.

use vstd::prelude::*;

use crate::cli::{suite_arg_name, suite_of_arg, SuiteArg};
use crate::json::{json_array, json_equal, json_field, json_get, json_is_object, json_str, JsonValue};
use crate::fuzz::{listed_targets, listed_upto};
use crate::loom::{is_model_line, loom_package_of, model_count, models_upto};
use crate::metadata::{has_member_id, is_member, Fault};
use crate::readme::{
    declaration_error, declarations_upto, line_declaration, package_expectation, readme_check,
    readme_upto, ReadmeFault,
};
use crate::suite::texts;
use crate::metadata::infra_config;
use crate::package::package_plan_of;
use crate::sanitizer::{sanitizer_config, sanitizer_scan};
use crate::plan::{
    answers, configured_by, fuzz_opted_in, is_configuration_check, is_planned_entry, skip_reason,
    ConfigurationAnswer, ConfigurationCheck,
};
use crate::sequence::{first_failure, lemma_run_stops_at_first_failure, run_of};
use crate::plan_entry::PlanEntry;
use crate::plan_entry::status_message;
use crate::plan_status::PlanStatus;
use crate::suite::{all_suites, suite_command, suite_name, Suite};
use crate::runner::{
    is_suite_action, isolation_flag, miri_flags_of, reports_tests, reports_tests_line,
    running_prefix, SuiteAction,
};
use crate::text::{
    contains, is_space, trim, lemma_next_char, lemma_next_space, lemma_skip_spaces, lines, lines_from,
    next_char, next_space, skip_spaces, starts_with, strip_cr, tokens, tokens_from,
};

verus! {

/// Every suite appears in [`all_suites`], exactly once.
pub proof fn lemma_all_suites_once(s: Suite)
    ensures
        all_suites().contains(s),
        forall|i: int, j: int|
            0 <= i < j < all_suites().len() ==> all_suites()[i] != all_suites()[j],
{
    let a = all_suites();
    match s {
        Suite::Lock => assert(a[0] == s),
        Suite::Build => assert(a[1] == s),
        Suite::Test => assert(a[2] == s),
        Suite::Doc => assert(a[3] == s),
        Suite::Package => assert(a[4] == s),
        Suite::Readme => assert(a[5] == s),
        Suite::Clippy => assert(a[6] == s),
        Suite::FeatureMatrix => assert(a[7] == s),
        Suite::Cross => assert(a[8] == s),
        Suite::Platform => assert(a[9] == s),
        Suite::Miri => assert(a[10] == s),
        Suite::AddressSanitizer => assert(a[11] == s),
        Suite::Loom => assert(a[12] == s),
        Suite::Fuzz => assert(a[13] == s),
        Suite::Audit => assert(a[14] == s),
    }
}

/// Only the README suite has an empty command: it runs inside the tool.
pub proof fn lemma_only_readme_has_no_command(s: Suite)
    ensures
        suite_command(s).len() == 0 <==> s == Suite::Readme,
{
}

/// Every command-line suite other than `all` is spelled as the name of the
/// suite it selects, and every suite is selected by one of them.
pub proof fn lemma_cli_names_agree(arg: SuiteArg, s: Suite)
    ensures
        arg != SuiteArg::All ==> suite_arg_name(arg) == suite_name(suite_of_arg(arg)),
        exists|a: SuiteArg| a != SuiteArg::All && #[trigger] suite_of_arg(a) == s,
{
    let a = match s {
        Suite::Lock => SuiteArg::Lock,
        Suite::Build => SuiteArg::Build,
        Suite::Test => SuiteArg::Test,
        Suite::Doc => SuiteArg::Doc,
        Suite::Package => SuiteArg::Package,
        Suite::Readme => SuiteArg::Readme,
        Suite::Clippy => SuiteArg::Clippy,
        Suite::FeatureMatrix => SuiteArg::FeatureMatrix,
        Suite::Cross => SuiteArg::Cross,
        Suite::Platform => SuiteArg::Platform,
        Suite::Miri => SuiteArg::Miri,
        Suite::AddressSanitizer => SuiteArg::AddressSanitizer,
        Suite::Loom => SuiteArg::Loom,
        Suite::Fuzz => SuiteArg::Fuzz,
        Suite::Audit => SuiteArg::Audit,
    };
    assert(suite_of_arg(a) == s);
}

/// The command-line names of distinct suites are distinct.
pub proof fn lemma_suite_names_distinct(a: Suite, b: Suite)
    ensures
        suite_name(a) == suite_name(b) ==> a == b,
{
    reveal_strlit("lock");
    reveal_strlit("build");
    reveal_strlit("test");
    reveal_strlit("doc");
    reveal_strlit("package");
    reveal_strlit("readme");
    reveal_strlit("clippy");
    reveal_strlit("feature-matrix");
    reveal_strlit("cross");
    reveal_strlit("platform");
    reveal_strlit("miri");
    reveal_strlit("address-sanitizer");
    reveal_strlit("loom");
    reveal_strlit("fuzz");
    reveal_strlit("audit");
    if suite_name(a) == suite_name(b) && a != b {
        let x = suite_name(a);
        let y = suite_name(b);
        assert(x.len() == y.len());
        assert(x[0] == y[0]);
        if x.len() > 1 {
            assert(x[1] == y[1]);
        }
        if x.len() > 2 {
            assert(x[2] == y[2]);
        }
    }
}

/// A suite is planned as ready exactly when the project configures it:
/// the core suites always; the file-configured suites when one of their
/// files exists; Miri, AddressSanitizer and Loom when at least one
/// workspace member opts in; fuzz when `fuzz/Cargo.toml` is readable and
/// one of its lines reads `cargo-fuzz = true`.
pub proof fn lemma_plan_follows_configuration(
    suite: Suite,
    check: ConfigurationCheck,
    answer: ConfigurationAnswer,
    entry: PlanEntry,
    project: Seq<char>,
    toolchain: Seq<char>,
)
    requires
        is_configuration_check(suite, check),
        answers(check, answer),
        is_planned_entry(entry, suite, configured_by(answer), project, toolchain),
    ensures
        entry.status is Ready <==> configured_by(answer),
        check is Always ==> entry.status is Ready,
        check matches ConfigurationCheck::AnyFile(_) ==> (entry.status is Ready <==> (
        answer matches ConfigurationAnswer::Files(p) && p@.contains(true))),
        (suite == Suite::Miri || suite == Suite::AddressSanitizer || suite == Suite::Loom) ==> (
        entry.status is Ready <==> (answer matches ConfigurationAnswer::Packages(n) && n > 0)),
        suite == Suite::Fuzz ==> (entry.status is Ready <==> (answer matches ConfigurationAnswer::FuzzManifest(
            Some(t),
        ) && fuzz_opted_in(t@))),
{
}

/// `lock sync` runs the lockfile check only after `cargo generate-lockfile`
/// succeeded: a failed regeneration ends it with that error after one
/// step; otherwise its result is the check's.
pub proof fn lemma_lock_sync_checks_after_regenerating<E>(generate: Result<(), E>, check: Result<(), E>)
    ensures
        run_of(seq![generate, check]) == if generate is Err {
            (1nat, generate)
        } else {
            (2nat, check)
        },
{
    let outcomes = seq![generate, check];
    assert(outcomes[0] == generate && outcomes[1] == check && outcomes.len() == 2);
    lemma_run_stops_at_first_failure(outcomes, 0);
    lemma_run_stops_at_first_failure(outcomes, 1);
    if generate is Err {
        assert(first_failure(outcomes, 0));
    } else if check is Err {
        assert(first_failure(outcomes, 1));
    } else {
        assert forall|m: int| 0 <= m < outcomes.len() implies #[trigger] outcomes[m] is Ok by {
            if m == 0 {
            } else {
                assert(m == 1);
            }
        }
        match check {
            Ok(u) => assert(u == ()),
            Err(_) => {},
        }
    }
}

/// Running a planned suite skips it exactly when the project does not
/// configure it: a configured suite is never silently ignored.
pub proof fn lemma_configured_suite_runs(
    entry: PlanEntry,
    suite: Suite,
    configured: bool,
    project: Seq<char>,
    toolchain: Seq<char>,
    action: SuiteAction,
)
    requires
        is_planned_entry(entry, suite, configured, project, toolchain),
        is_suite_action(entry, action),
    ensures
        action is Skip <==> !configured,
{
}

/// The message of an entry that a plan skips tells why:
/// it reads `<suite>: skipped: not configured in <project>`.
pub proof fn lemma_skipped_message_explains(suite: Suite, project: Seq<char>, reason: String)
    requires
        reason@ == skip_reason(project),
    ensures
        status_message(suite, PlanStatus::Skipped(reason)) == suite_name(suite) + ": skipped: "@
            + "not configured in "@ + project,
        contains(status_message(suite, PlanStatus::Skipped(reason)), "skipped: not configured"@),
{
    let name = suite_name(suite);
    let m = status_message(suite, PlanStatus::Skipped(reason));
    assert(m =~= name + ": skipped: "@ + "not configured in "@ + project);
    reveal_strlit(": skipped: ");
    reveal_strlit("not configured in ");
    reveal_strlit("skipped: not configured");
    let i: int = name.len() + 2int;
    assert(m.subrange(i, i + 23) =~= "skipped: not configured"@);
    assert(crate::text::occurs_at(m, "skipped: not configured"@, i));
}

/// A run of non-whitespace characters that ends the text and starts it or
/// follows whitespace is one of its tokens, as read from any index at or
/// before the run.
proof fn lemma_last_token(s: Seq<char>, i: int, j: int)
    requires
        0 <= i <= j < s.len(),
        j == 0 || is_space(s[j - 1]),
        forall|k: int| j <= k < s.len() ==> !is_space(#[trigger] s[k]),
    ensures
        tokens_from(s, i).contains(s.subrange(j, s.len() as int)),
    decreases j - i,
{
    lemma_skip_spaces(s, i);
    let a = skip_spaces(s, i);
    if a > j {
        assert(is_space(s[j]));
    }
    lemma_next_space(s, a);
    let k = next_space(s, a);
    if a == j {
        if k < s.len() {
            assert(is_space(s[k]));
        }
        assert(tokens_from(s, i)[0] == s.subrange(j, s.len() as int));
    } else {
        assert(a < j - 1) by {
            if a == j - 1 {
                assert(is_space(s[j - 1]));
            }
        }
        assert(k <= j - 1) by {
            if k > j - 1 {
                assert(!is_space(s[j - 1]));
            }
        }
        lemma_last_token(s, k, j);
        let rest = tokens_from(s, k);
        let w = choose|m: int| 0 <= m < rest.len() && rest[m] == s.subrange(j, s.len() as int);
        assert(tokens_from(s, i) == seq![s.subrange(a, k)] + rest);
        assert(tokens_from(s, i)[w + 1] == rest[w]);
    }
}

/// `MIRIFLAGS` with filesystem access allowed keeps the caller's flags in
/// front, always holds `-Zmiri-disable-isolation` as a token, and allowing
/// it twice changes nothing.
pub proof fn lemma_miri_flags_allow_once(current: Seq<char>)
    ensures
        starts_with(miri_flags_of(current), current),
        tokens(miri_flags_of(current)).contains(isolation_flag()),
        miri_flags_of(miri_flags_of(current)) == miri_flags_of(current),
{
    let f = isolation_flag();
    reveal_strlit("-Zmiri-disable-isolation");
    reveal_strlit(" ");
    assert(forall|k: int| 0 <= k < f.len() ==> !is_space(#[trigger] f[k]));
    let r = miri_flags_of(current);
    if tokens(current).contains(f) {
        assert(current.subrange(0, current.len() as int) =~= current);
    } else if current.len() == 0 {
        assert(r == f);
        lemma_last_token(r, 0, 0);
        assert(r.subrange(0, r.len() as int) =~= f);
        assert(r.subrange(0, 0) =~= current);
    } else {
        let j: int = current.len() + 1int;
        assert(r =~= current + seq![' '] + f);
        assert(r[j - 1] == ' ');
        assert forall|k: int| j <= k < r.len() implies !is_space(#[trigger] r[k]) by {
            assert(r[k] == f[k - j]);
        }
        lemma_last_token(r, 0, j);
        assert(r.subrange(j, r.len() as int) =~= f);
        assert(r.subrange(0, current.len() as int) =~= current);
    }
}

/// Searching `t + u` for a character from inside `u` finds it where
/// searching `u` does, shifted by `t`'s length.
proof fn lemma_next_char_shift(t: Seq<char>, u: Seq<char>, c: char, i: int)
    requires
        0 <= i <= u.len(),
    ensures
        next_char(t + u, c, t.len() + i) == t.len() + next_char(u, c, i),
    decreases u.len() - i,
{
    if i < u.len() {
        assert((t + u)[t.len() + i] == u[i]);
        if u[i] != c {
            lemma_next_char_shift(t, u, c, i + 1);
        }
    }
}

/// The lines of `t + u` read from inside `u` are the lines of `u`.
proof fn lemma_lines_shift(t: Seq<char>, u: Seq<char>, i: int)
    requires
        0 <= i <= u.len(),
    ensures
        lines_from(t + u, t.len() + i) == lines_from(u, i),
    decreases u.len() - i,
{
    let s = t + u;
    if i < u.len() {
        lemma_next_char_shift(t, u, '\n', i);
        lemma_next_char(u, '\n', i);
        let k = next_char(u, '\n', i);
        if k >= u.len() {
            assert(s.subrange(t.len() + i, s.len() as int) =~= u.subrange(i, u.len() as int));
        } else {
            assert(s.subrange(t.len() + i, t.len() + k) =~= u.subrange(i, k));
            lemma_lines_shift(t, u, k + 1);
        }
    }
}

/// Every line read from a line start `p` (just after a newline) is among
/// the lines read from any earlier index.
proof fn lemma_lines_suffix(s: Seq<char>, i: int, p: int)
    requires
        0 <= i <= p <= s.len(),
        p > 0 ==> s[p - 1] == '\n',
    ensures
        forall|x: Seq<char>| lines_from(s, p).contains(x) ==> lines_from(s, i).contains(x),
    decreases p - i,
{
    if i < p {
        lemma_next_char(s, '\n', i);
        let k = next_char(s, '\n', i);
        assert(k <= p - 1) by {
            if k > p - 1 {
                assert(s[p - 1] != '\n');
            }
        }
        lemma_lines_suffix(s, k + 1, p);
        let head = strip_cr(s.subrange(i, k));
        assert(lines_from(s, i) == seq![head] + lines_from(s, k + 1));
        assert forall|x: Seq<char>| lines_from(s, p).contains(x) implies lines_from(s, i).contains(x) by {
            let w = choose|m: int| 0 <= m < lines_from(s, k + 1).len() && #[trigger] lines_from(s, k + 1)[m] == x;
            assert(lines_from(s, i)[w + 1] == x);
        }
    }
}

/// A line that reports tests does not end with a carriage return.
proof fn lemma_reporting_line_has_no_cr(line: Seq<char>)
    requires
        reports_tests_line(line),
    ensures
        strip_cr(line) == line,
{
    reveal_strlit("running ");
    reveal_strlit("test");
    reveal_strlit("tests");
    let rest = line.subrange(running_prefix().len() as int, line.len() as int);
    let k = next_char(rest, ' ', 0);
    lemma_next_char(rest, ' ', 0);
    let unit = rest.subrange(k + 1, rest.len() as int);
    assert(unit == "test"@ || unit == "tests"@);
    assert(unit.len() > 0);
    assert(unit[unit.len() - 1] == rest[rest.len() - 1]);
    assert(rest[rest.len() - 1] == line[line.len() - 1]);
    assert(unit[unit.len() - 1] != '\r');
}

/// Every reporting line of `a`, read from index `i`, is among the lines of
/// `a`, a newline, then `b`, read from the same index.
proof fn lemma_lines_prefix(a: Seq<char>, b: Seq<char>, i: int)
    requires
        0 <= i <= a.len(),
    ensures
        forall|x: Seq<char>|
            lines_from(a, i).contains(x) && reports_tests_line(x) ==> lines_from(
                a + seq!['\n'] + b,
                i,
            ).contains(x),
    decreases a.len() - i,
{
    let s = a + seq!['\n'] + b;
    if i < a.len() {
        lemma_next_char(a, '\n', i);
        lemma_next_char(s, '\n', i);
        let ka = next_char(a, '\n', i);
        let ks = next_char(s, '\n', i);
        assert(s[a.len() as int] == '\n');
        assert forall|m: int| i <= m < a.len() implies s[m] == a[m] by {}
        assert(ks == ka || (ka == a.len() && ks == a.len())) by {
            if ks < ka {
                assert(s[ks] == a[ks]);
            }
            if ka < a.len() && ks > ka {
                assert(s[ka] == a[ka]);
            }
            if ka == a.len() && ks > a.len() {
                assert(s[a.len() as int] == '\n');
            }
        }
        assert(s.subrange(i, ka) =~= a.subrange(i, ka));
        if ka < a.len() {
            lemma_lines_prefix(a, b, ka + 1);
            assert forall|x: Seq<char>|
                lines_from(a, i).contains(x) && reports_tests_line(x) implies lines_from(s, i).contains(x) by {
                let w = choose|m: int| 0 <= m < lines_from(a, i).len() && #[trigger] lines_from(a, i)[m] == x;
                if w > 0 {
                    assert(lines_from(a, ka + 1)[w - 1] == x);
                    let v = choose|m: int| 0 <= m < lines_from(s, ka + 1).len() && #[trigger] lines_from(s, ka + 1)[m] == x;
                    assert(lines_from(s, i)[v + 1] == x);
                } else {
                    assert(lines_from(s, i)[0] == x);
                }
            }
        } else {
            assert forall|x: Seq<char>|
                lines_from(a, i).contains(x) && reports_tests_line(x) implies lines_from(s, i).contains(x) by {
                assert(lines_from(a, i)[0] == x);
                assert(x == a.subrange(i, a.len() as int));
                lemma_reporting_line_has_no_cr(x);
                assert(lines_from(s, i)[0] == x);
            }
        }
    }
}

/// Output that reports tests on either of two streams still reports them
/// when the streams are read together, joined by a newline.
pub proof fn lemma_reports_tests_combined(out: Seq<char>, err: Seq<char>)
    requires
        reports_tests(out) || reports_tests(err),
    ensures
        reports_tests(out + "\n"@ + err),
{
    reveal_strlit("\n");
    let s = out + "\n"@ + err;
    assert(s =~= out + seq!['\n'] + err);
    if reports_tests(out) {
        let j = choose|j: int| 0 <= j < lines(out).len() && reports_tests_line(#[trigger] lines(out)[j]);
        let x = lines(out)[j];
        lemma_lines_prefix(out, err, 0);
        assert(lines_from(out, 0).contains(x));
        let w = choose|m: int| 0 <= m < lines(s).len() && #[trigger] lines(s)[m] == x;
        assert(reports_tests_line(lines(s)[w]));
    } else {
        let j = choose|j: int| 0 <= j < lines(err).len() && reports_tests_line(#[trigger] lines(err)[j]);
        let x = lines(err)[j];
        let t = out + seq!['\n'];
        assert(s =~= t + err);
        lemma_lines_shift(t, err, 0);
        lemma_lines_suffix(s, 0, t.len() as int);
        assert(lines_from(s, t.len() as int).contains(x));
        let w = choose|m: int| 0 <= m < lines(s).len() && #[trigger] lines(s)[m] == x;
        assert(reports_tests_line(lines(s)[w]));
    }
}

/// When a package has both configuration tables, the modern `rs-infra`
/// table is the one read, for AddressSanitizer and for Miri alike.
pub proof fn lemma_modern_configuration_wins(package: JsonValue)
    requires
        json_get(json_field(package, "metadata"@), "rs-infra"@) is Some,
    ensures
        sanitizer_config(package) == json_get(json_field(package, "metadata"@), "rs-infra"@),
        json_is_object(json_field(package, "metadata"@)) ==> infra_config(package) == json_get(
            json_field(package, "metadata"@),
            "rs-infra"@,
        ),
{
}

/// A package whose `publish` is an empty array is never packaged.
pub proof fn lemma_unpublishable_package_skipped(
    members: Seq<JsonValue>,
    package: JsonValue,
    dirs: Seq<Seq<char>>,
)
    requires
        json_array(json_field(package, "publish"@)) == Some(Seq::<JsonValue>::empty()),
    ensures
        package_plan_of(members, package, dirs) == Ok::<
            Option<(Seq<char>, Seq<crate::package::NamedPath>)>,
            crate::metadata::Fault,
        >(None),
{
}

// ---------------------------------------------------------------------------
// README checks collect the errors of every package
// ---------------------------------------------------------------------------

/// Checking one more package keeps what the packages before it found.
proof fn lemma_readme_prefix(
    display: Seq<char>,
    ls: Seq<Seq<char>>,
    packages: Seq<JsonValue>,
    p: JsonValue,
    k: int,
)
    requires
        0 <= k <= packages.len(),
    ensures
        readme_upto(display, ls, packages.push(p), k) == readme_upto(display, ls, packages, k),
    decreases k,
{
    if k > 0 {
        lemma_readme_prefix(display, ls, packages, p, k - 1);
        assert(packages.push(p)[k - 1] == packages[k - 1]);
    }
}

/// A README check over some packages and then one more reports every error
/// of the packages before it, followed by the errors of the last one, and
/// counts the declarations of both; a check that stops, stops with the
/// first error that stops it. No package's errors are ever lost.
pub proof fn lemma_readme_errors_accumulate(
    display: Seq<char>,
    content: Seq<char>,
    packages: Seq<JsonValue>,
    p: JsonValue,
)
    ensures
        match (readme_check(display, content, packages), readme_check(display, content, seq![p])) {
            (Err(e), _) => readme_check(display, content, packages.push(p)) == Err::<
                (Seq<Seq<char>>, nat),
                ReadmeFault,
            >(e),
            (Ok(_), Err(e)) => readme_check(display, content, packages.push(p)) == Err::<
                (Seq<Seq<char>>, nat),
                ReadmeFault,
            >(e),
            (Ok((before, n)), Ok((last, m))) => readme_check(display, content, packages.push(p))
                == Ok::<(Seq<Seq<char>>, nat), ReadmeFault>((before + last, n + m)),
        },
{
    let ls = lines(content);
    let all = packages.push(p);
    let n = packages.len() as int;
    lemma_readme_prefix(display, ls, packages, p, n);
    let one = seq![p];
    assert(one[0] == p);
    assert(all[n] == p);
    assert(all.len() == n + 1);
    assert(readme_check(display, content, all) == readme_upto(display, ls, all, n + 1));
    assert(readme_check(display, content, packages) == readme_upto(display, ls, packages, n));
    assert(readme_check(display, content, one) == readme_upto(display, ls, one, 1));
    assert(readme_upto(display, ls, one, 0) == Ok::<(Seq<Seq<char>>, nat), ReadmeFault>(
        (Seq::<Seq<char>>::empty(), 0nat),
    ));
    match package_expectation(p) {
        Ok((name, expected)) => {
            let (more, count) = declarations_upto(display, ls, name, expected, ls.len() as int);
            assert(Seq::<Seq<char>>::empty() + more =~= more);
            assert(readme_upto(display, ls, one, 1) == Ok::<(Seq<Seq<char>>, nat), ReadmeFault>(
                (more, count),
            ));
        },
        Err(e) => {
            assert(readme_upto(display, ls, one, 1) == Err::<(Seq<Seq<char>>, nat), ReadmeFault>(e));
        },
    }
}

// ---------------------------------------------------------------------------
// Workspace membership looks at every member
// ---------------------------------------------------------------------------

/// A package id is a workspace member (as the Miri reader decides) exactly
/// when some entry of `workspace_members`, at any position, is that id;
/// adding an entry at either end adds exactly that entry's id.
pub proof fn lemma_member_id_anywhere(members: Seq<JsonValue>, id: Seq<char>, x: JsonValue, i: int)
    ensures
        0 <= i < members.len() && json_str(members[i]) == Some(id) ==> has_member_id(members, id),
        has_member_id(members, id) ==> exists|k: int|
            0 <= k < members.len() && json_str(#[trigger] members[k]) == Some(id),
        has_member_id(members.push(x), id) <==> (has_member_id(members, id) || json_str(x) == Some(
            id,
        )),
        has_member_id(seq![x] + members, id) <==> (json_str(x) == Some(id) || has_member_id(
            members,
            id,
        )),
{
    let pushed = members.push(x);
    let front = seq![x] + members;
    assert(pushed[members.len() as int] == x);
    assert(front[0] == x);
    if 0 <= i < members.len() && json_str(members[i]) == Some(id) {
        assert(json_str(members[i]) == Some(id));
    }
    if has_member_id(members, id) {
        let k = choose|k: int| 0 <= k < members.len() && #[trigger] json_str(members[k]) == Some(id);
        assert(pushed[k] == members[k]);
        assert(front[k + 1] == members[k]);
        assert(json_str(pushed[k]) == Some(id));
        assert(json_str(front[k + 1]) == Some(id));
    }
    if json_str(x) == Some(id) {
        assert(json_str(pushed[members.len() as int]) == Some(id));
        assert(json_str(front[0]) == Some(id));
    }
    if has_member_id(pushed, id) {
        let k = choose|k: int| 0 <= k < pushed.len() && #[trigger] json_str(pushed[k]) == Some(id);
        if k < members.len() {
            assert(pushed[k] == members[k]);
            assert(json_str(members[k]) == Some(id));
        }
    }
    if has_member_id(front, id) {
        let k = choose|k: int| 0 <= k < front.len() && #[trigger] json_str(front[k]) == Some(id);
        if k > 0 {
            assert(front[k] == members[k - 1]);
            assert(json_str(members[k - 1]) == Some(id));
        }
    }
}

/// A package is a workspace member (as the package, sanitizer, Loom and
/// README readers decide) when its `id` equals an entry of
/// `workspace_members` at any position, and only then.
pub proof fn lemma_member_anywhere(members: Seq<JsonValue>, package: JsonValue, i: int)
    ensures
        0 <= i < members.len() && json_equal(members[i], json_field(package, "id"@)) ==> is_member(
            members,
            package,
        ),
        is_member(members, package) ==> exists|k: int|
            0 <= k < members.len() && json_equal(#[trigger] members[k], json_field(package, "id"@)),
{
    if 0 <= i < members.len() && json_equal(members[i], json_field(package, "id"@)) {
        assert(json_equal(members[i], json_field(package, "id"@)));
    }
}

// ---------------------------------------------------------------------------
// Loom opt-in looks at every dependency
// ---------------------------------------------------------------------------

/// A workspace member with a string name is selected for Loom when one of
/// its dependencies, at any position, is named `loom`, and is passed over
/// when none is; the choice does not depend on where in the list the
/// dependency stands.
pub proof fn lemma_loom_dependency_anywhere(
    members: Seq<JsonValue>,
    package: JsonValue,
    deps: Seq<JsonValue>,
    name: Seq<char>,
    i: int,
)
    requires
        is_member(members, package),
        json_array(json_field(package, "dependencies"@)) == Some(deps),
        json_str(json_field(package, "name"@)) == Some(name),
    ensures
        0 <= i < deps.len() && json_str(json_field(deps[i], "name"@)) == Some("loom"@)
            ==> loom_package_of(members, package) == Ok::<Option<Seq<char>>, Fault>(Some(name)),
        (forall|k: int|
            0 <= k < deps.len() ==> json_str(json_field(#[trigger] deps[k], "name"@)) != Some(
                "loom"@,
            )) ==> loom_package_of(members, package) == Ok::<Option<Seq<char>>, Fault>(None),
{
    if 0 <= i < deps.len() && json_str(json_field(deps[i], "name"@)) == Some("loom"@) {
        assert(json_str(json_field(deps[i], "name"@)) == Some("loom"@));
    }
}

// ---------------------------------------------------------------------------
// Configuration files
// ---------------------------------------------------------------------------

/// Any one of a suite's configuration files, when it exists, configures the
/// suite; and every file that the documentation names for feature-matrix,
/// cross and platform is among them (`.rs-ci-cargo-matrix.json`,
/// `Cross.toml`, `.rs-ci-cross.toml`, `.rs-ci-platform.toml`, and their
/// `.infra/ci/` counterparts).
pub proof fn lemma_configuration_files(suite: Suite, check: ConfigurationCheck, present: Vec<bool>, i: int)
    requires
        is_configuration_check(suite, check),
    ensures
        (check matches ConfigurationCheck::AnyFile(files) && present@.len() == files@.len() && 0
            <= i < present@.len() && present@[i]) ==> configured_by(
            ConfigurationAnswer::Files(present),
        ),
        suite == Suite::Platform ==> (check matches ConfigurationCheck::AnyFile(files) && texts(
            files@,
        ).contains(".infra/ci/platform.toml"@) && texts(files@).contains(".rs-ci-platform.toml"@)),
        suite == Suite::Cross ==> (check matches ConfigurationCheck::AnyFile(files) && texts(
            files@,
        ).contains(".infra/ci/cross.toml"@) && texts(files@).contains("Cross.toml"@) && texts(
            files@,
        ).contains(".rs-ci-cross.toml"@)),
        suite == Suite::FeatureMatrix ==> (check matches ConfigurationCheck::AnyFile(files) && texts(
            files@,
        ).contains(".infra/ci/cargo-matrix.json"@) && texts(files@).contains(
            ".rs-ci-cargo-matrix.json"@,
        )),
{
    if 0 <= i < present@.len() && present@[i] {
        assert(present@[i] == true);
    }
    match check {
        ConfigurationCheck::AnyFile(files) => {
            let t = texts(files@);
            if suite == Suite::Platform {
                assert(t[0] == ".infra/ci/platform.toml"@);
                assert(t[1] == ".rs-ci-platform.toml"@);
            } else if suite == Suite::Cross {
                assert(t[0] == ".infra/ci/cross.toml"@);
                assert(t[1] == "Cross.toml"@);
                assert(t[2] == ".rs-ci-cross.toml"@);
            } else if suite == Suite::FeatureMatrix {
                assert(t[0] == ".infra/ci/cargo-matrix.json"@);
                assert(t[1] == ".rs-ci-cargo-matrix.json"@);
            }
        },
        _ => {},
    }
}

// ---------------------------------------------------------------------------
// Suite commands
// ---------------------------------------------------------------------------

/// Whether `suite` runs over the whole workspace with every feature.
pub open spec fn workspace_wide(suite: Suite) -> bool {
    ||| suite == Suite::Build
    ||| suite == Suite::Test
    ||| suite == Suite::Doc
    ||| suite == Suite::Clippy
    ||| suite == Suite::FeatureMatrix
    ||| suite == Suite::Cross
    ||| suite == Suite::Platform
    ||| suite == Suite::AddressSanitizer
    ||| suite == Suite::Loom
}

/// Every workspace-wide suite command covers the whole workspace
/// (`--workspace`), every feature (`--all-features`) and the committed
/// lockfile (`--locked`); build, test and clippy cover all targets; and the
/// build, test, doc and clippy commands start with the Cargo subcommand of
/// the same name.
pub proof fn lemma_workspace_commands(suite: Suite)
    ensures
        workspace_wide(suite) ==> suite_command(suite).contains("--workspace"@) && suite_command(
            suite,
        ).contains("--all-features"@) && suite_command(suite).contains("--locked"@),
        (suite == Suite::Build || suite == Suite::Test || suite == Suite::Clippy) ==> suite_command(
            suite,
        ).contains("--all-targets"@),
        (suite == Suite::Build || suite == Suite::Test || suite == Suite::Doc || suite
            == Suite::Clippy) ==> suite_command(suite).len() > 0 && suite_command(suite)[0]
            == suite_name(suite),
{
    let c = suite_command(suite);
    match suite {
        Suite::Build => {
            assert(c[0] == suite_name(suite) && c[1] == "--locked"@ && c[2] == "--workspace"@
                && c[3] == "--all-targets"@ && c[4] == "--all-features"@);
        },
        Suite::Test => {
            assert(c[0] == suite_name(suite) && c[1] == "--locked"@ && c[2] == "--workspace"@
                && c[3] == "--all-targets"@ && c[4] == "--all-features"@);
        },
        Suite::Doc => {
            assert(c[0] == suite_name(suite) && c[1] == "--locked"@ && c[2] == "--workspace"@
                && c[3] == "--all-features"@);
        },
        Suite::Clippy => {
            assert(c[0] == suite_name(suite) && c[1] == "--locked"@ && c[2] == "--workspace"@
                && c[3] == "--all-targets"@ && c[4] == "--all-features"@);
        },
        Suite::FeatureMatrix => {
            assert(c[1] == "--locked"@ && c[2] == "--workspace"@ && c[3] == "--all-features"@);
        },
        Suite::Cross => {
            assert(c[2] == "--locked"@ && c[3] == "--workspace"@ && c[4] == "--all-features"@);
        },
        Suite::Platform => {
            assert(c[1] == "--locked"@ && c[2] == "--workspace"@ && c[3] == "--all-features"@);
        },
        Suite::AddressSanitizer => {
            assert(c[1] == "--locked"@ && c[5] == "--workspace"@ && c[6] == "--all-features"@);
        },
        Suite::Loom => {
            assert(c[1] == "--locked"@ && c[2] == "--workspace"@ && c[3] == "--all-features"@);
        },
        _ => {},
    }
}

// ---------------------------------------------------------------------------
// README lines: every declaration of every line is checked
// ---------------------------------------------------------------------------

/// Checking the lines before a further line gives the same as before.
proof fn lemma_declarations_prefix(
    display: Seq<char>,
    ls: Seq<Seq<char>>,
    l: Seq<char>,
    name: Seq<char>,
    expected: Seq<char>,
    k: int,
)
    requires
        0 <= k <= ls.len(),
    ensures
        declarations_upto(display, ls.push(l), name, expected, k) == declarations_upto(
            display,
            ls,
            name,
            expected,
            k,
        ),
    decreases k,
{
    if k > 0 {
        lemma_declarations_prefix(display, ls, l, name, expected, k - 1);
        assert(ls.push(l)[k - 1] == ls[k - 1]);
    }
}

/// One more README line keeps every error and count of the lines before
/// it: a line that declares nothing adds nothing; a declaring line adds one
/// to the count, and its error, if any, after the earlier errors.
pub proof fn lemma_declarations_accumulate(
    display: Seq<char>,
    ls: Seq<Seq<char>>,
    l: Seq<char>,
    name: Seq<char>,
    expected: Seq<char>,
)
    ensures
        ({
            let (before, n) = declarations_upto(display, ls, name, expected, ls.len() as int);
            let (after, m) = declarations_upto(
                display,
                ls.push(l),
                name,
                expected,
                ls.len() as int + 1,
            );
            &&& after.subrange(0, before.len() as int) == before
            &&& after.len() <= before.len() + 1
            &&& (line_declaration(name, l) is None ==> after == before && m == n)
            &&& (line_declaration(name, l) is Some ==> m == n + 1)
            &&& (line_declaration(name, l) matches Some(Some(v)) && v == expected ==> after
                == before)
            &&& (line_declaration(name, l) matches Some(None) ==> after.len() == before.len() + 1)
            &&& (line_declaration(name, l) matches Some(Some(v)) && v != expected ==> after.len()
                == before.len() + 1)
        }),
{
    let k = ls.len() as int;
    lemma_declarations_prefix(display, ls, l, name, expected, k);
    assert(ls.push(l)[k] == l);
    let (before, n) = declarations_upto(display, ls, name, expected, k);
    assert(before.push(Seq::<char>::empty()).subrange(0, before.len() as int) =~= before);
    match line_declaration(name, l) {
        Some(declared) => match declaration_error(display, (k + 1) as nat, name, expected, declared) {
            Some(e) => {
                assert(before.push(e).subrange(0, before.len() as int) =~= before);
            },
            None => {
                assert(before.subrange(0, before.len() as int) =~= before);
            },
        },
        None => {
            assert(before.subrange(0, before.len() as int) =~= before);
        },
    }
}

// ---------------------------------------------------------------------------
// Sanitizer lists
// ---------------------------------------------------------------------------

proof fn lemma_sanitizer_scan_ok(items: Seq<JsonValue>, name: Seq<char>, n: int)
    requires
        0 <= n <= items.len(),
    ensures
        sanitizer_scan(items, name, n) matches Ok(b) ==> (n <= 1 && (b <==> n == 1) && (n == 1
            ==> json_str(items[0]) == Some("address"@))),
        n == 0 ==> sanitizer_scan(items, name, n) == Ok::<bool, Fault>(false),
        n == 1 && json_str(items[0]) == Some("address"@) ==> sanitizer_scan(items, name, n) == Ok::<
            bool,
            Fault,
        >(true),
    decreases n,
{
    if n > 0 {
        lemma_sanitizer_scan_ok(items, name, n - 1);
    }
}

/// A package's `sanitizers` list enables AddressSanitizer exactly when it is
/// `["address"]`, leaves it off exactly when it is empty, and is an error
/// otherwise: any entry that is not a string or not `address`, at any
/// position, or `address` twice.
pub proof fn lemma_sanitizer_list(items: Seq<JsonValue>, name: Seq<char>)
    ensures
        sanitizer_scan(items, name, items.len() as int) == Ok::<bool, Fault>(false) <==> items.len()
            == 0,
        sanitizer_scan(items, name, items.len() as int) == Ok::<bool, Fault>(true) <==> (items.len()
            == 1 && json_str(items[0]) == Some("address"@)),
        items.len() >= 2 ==> sanitizer_scan(items, name, items.len() as int) is Err,
        (exists|i: int|
            0 <= i < items.len() && json_str(#[trigger] items[i]) != Some("address"@))
            ==> sanitizer_scan(items, name, items.len() as int) is Err,
{
    lemma_sanitizer_scan_ok(items, name, items.len() as int);
}

// ---------------------------------------------------------------------------
// Loom model counts and fuzz target listings look at every line
// ---------------------------------------------------------------------------

/// Whether a line of a test listing names a Loom model, as a predicate.
pub open spec fn model_line() -> spec_fn(Seq<char>) -> bool {
    |line: Seq<char>| is_model_line(line)
}

proof fn lemma_models_upto_filter(ls: Seq<Seq<char>>, n: int)
    requires
        0 <= n <= ls.len(),
    ensures
        models_upto(ls, n) == ls.subrange(0, n).filter(model_line()).len(),
    decreases n,
{
    reveal(Seq::filter);
    if n > 0 {
        lemma_models_upto_filter(ls, n - 1);
        let s = ls.subrange(0, n);
        assert(s.drop_last() =~= ls.subrange(0, n - 1));
        assert(s.last() == ls[n - 1]);
    } else {
        assert(ls.subrange(0, 0).len() == 0);
    }
}

/// The number of Loom models in a test listing is the number of its lines,
/// wherever they stand, that name a model (end with `: test` once trailing
/// whitespace is removed).
pub proof fn lemma_model_count_counts_every_line(listing: Seq<char>)
    ensures
        model_count(listing) == lines(listing).filter(model_line()).len(),
{
    let ls = lines(listing);
    lemma_models_upto_filter(ls, ls.len() as int);
    assert(ls.subrange(0, ls.len() as int) =~= ls);
}

/// Whether a trimmed line names a target, as a predicate.
pub open spec fn nonempty_text() -> spec_fn(Seq<char>) -> bool {
    |t: Seq<char>| t.len() > 0
}

/// The trimmed lines of `ls`.
pub open spec fn trimmed_lines(ls: Seq<Seq<char>>) -> Seq<Seq<char>> {
    ls.map_values(|l: Seq<char>| trim(l))
}

proof fn lemma_listed_upto_filter(ls: Seq<Seq<char>>, n: int)
    requires
        0 <= n <= ls.len(),
    ensures
        listed_upto(ls, n) == trimmed_lines(ls.subrange(0, n)).filter(nonempty_text()),
    decreases n,
{
    reveal(Seq::filter);
    let t = trimmed_lines(ls.subrange(0, n));
    if n > 0 {
        lemma_listed_upto_filter(ls, n - 1);
        assert(t.drop_last() =~= trimmed_lines(ls.subrange(0, n - 1)));
        assert(t.last() == trim(ls[n - 1]));
    } else {
        assert(t.len() == 0);
    }
}

/// The fuzz targets of a `cargo fuzz list` output are its lines, trimmed,
/// in order, without the empty ones: no line is skipped or reordered.
pub proof fn lemma_listed_targets_keep_every_line(listed: Seq<char>)
    ensures
        listed_targets(listed) == trimmed_lines(lines(listed)).filter(nonempty_text()),
{
    let ls = lines(listed);
    lemma_listed_upto_filter(ls, ls.len() as int);
    assert(ls.subrange(0, ls.len() as int) =~= ls);
}

} // verus!
