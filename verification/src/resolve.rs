//! From a glob pattern and a working directory to the paths to watch.
//!
//! Resolution takes two steps around the filesystem work of the caller:
//! `plan` splits the pattern and says which path has to be canonicalized;
//! `ResolvedTargets::finish` takes the canonical path and the outcome of the
//! directory walk and yields the targets.

use crate::errors::WatchError;
use vstd::prelude::*;
use vstd::string::StrSliceExecFns;

verus! {

/// The most `{` and `<` characters a pattern may hold.
pub const MAX_BRANCH_MARKS: usize = 32;

/// The most digits that the repetition bounds of a pattern may hold together.
pub const MAX_BOUND_DIGITS: usize = 6;

/// The most characters that a pattern with a repetition may hold.
pub const MAX_REPEATED_LEN: usize = 256;

/// How often a character occurs in a text.
pub open spec fn occurrences(s: Seq<char>, c: char) -> nat
    decreases s.len(),
{
    if s.len() == 0 {
        0
    } else {
        let last: nat = if s.last() == c {
            1
        } else {
            0
        };
        occurrences(s.drop_last(), c) + last
    }
}

/// Whether a character is one of the ten decimal digits.
pub open spec fn is_digit(c: char) -> bool {
    c == '0' || c == '1' || c == '2' || c == '3' || c == '4' || c == '5' || c == '6' || c == '7'
        || c == '8' || c == '9'
}

/// Whether a character is one of the two after which a repetition bound is
/// written.
pub open spec fn opens_bound(c: char) -> bool {
    c == ':' || c == ','
}

/// Whether a text ends in a run of digits that directly follows a `:` or a
/// `,`, as every repetition bound does.
pub open spec fn ends_in_bound(s: Seq<char>) -> bool
    decreases s.len(),
{
    if s.len() == 0 || !is_digit(s.last()) {
        false
    } else {
        let front = s.drop_last();
        ends_in_bound(front) || (front.len() > 0 && opens_bound(front.last()))
    }
}

/// The number of digits of a text that stand in such runs.
pub open spec fn bound_digits(s: Seq<char>) -> nat
    decreases s.len(),
{
    if s.len() == 0 {
        0
    } else {
        let last: nat = if ends_in_bound(s) {
            1
        } else {
            0
        };
        bound_digits(s.drop_last()) + last
    }
}

/// The patterns that are handed to the glob builder. Every alternative opens
/// with `{` and every repetition with `<`, so the first bound limits how
/// deeply the two can nest. The second keeps the product of all repetition
/// bounds below a million and, with it, every size that the builder computes
/// from the bounds and the length of the text within 32 bits. Patterns beyond
/// either bound are treated as malformed.
pub open spec fn within_limits(pattern: Seq<char>) -> bool {
    &&& occurrences(pattern, '{') + occurrences(pattern, '<') <= MAX_BRANCH_MARKS
    &&& occurrences(pattern, '<') == 0 || (bound_digits(pattern) <= MAX_BOUND_DIGITS
        && pattern.len() <= MAX_REPEATED_LEN)
}

/// What a pattern is split into: nothing for a pattern beyond the limits or
/// one that does not build, else the parts that the glob builder names.
pub open spec fn pattern_parts(pattern: Seq<char>) -> Option<(Seq<char>, Option<Seq<char>>)> {
    if within_limits(pattern) {
        glob_parts(pattern)
    } else {
        None
    }
}

/// What `wax` makes of a glob expression: `None` where the expression does
/// not build, else its invariant prefix as a path and, where something
/// variant is left, the expression of the remaining glob.
pub uninterp spec fn glob_parts(pattern: Seq<char>) -> Option<(Seq<char>, Option<Seq<char>>)>;

/// The path that `std::path::Path::join` gives for `base` and `rel`, on the
/// platform the crate is built for.
pub uninterp spec fn joined_path(base: Seq<char>, rel: Seq<char>) -> Seq<char>;

/// The lexically cleaned form of a path as `clean_path::clean` computes it,
/// on the platform the crate is built for.
pub uninterp spec fn cleaned_path(path: Seq<char>) -> Seq<char>;

/// The text of an optional string.
pub open spec fn opt_text(s: Option<String>) -> Option<Seq<char>> {
    match s {
        Some(s) => Some(s@),
        None => None,
    }
}

/// The texts of a partition result.
pub open spec fn parts_text(parts: Option<(String, Option<String>)>) -> Option<
    (Seq<char>, Option<Seq<char>>),
> {
    match parts {
        Some((prefix, rest)) => Some((prefix@, opt_text(rest))),
        None => None,
    }
}

/// Calls `wax::Glob::new` and, where it succeeds, `wax::Glob::partition`.
/// The contract only names the outcome: whether the expression builds, and the
/// prefix path and remaining expression that the partition yields. `wax`
/// gives up with a panic where the regular expression that it compiles a glob
/// to is nested too deeply or counts beyond 32 bits, and where the sizes that
/// it works out from nested repetition bounds overflow; the precondition
/// leaves such patterns out.
#[verifier::external_body]
fn glob_partition(pattern: &str) -> (r: Option<(String, Option<String>)>)
    requires
        within_limits(pattern@),
    ensures
        parts_text(r) == glob_parts(pattern@),
{
    match wax::Glob::new(pattern) {
        Ok(glob) => {
            let (prefix, rest) = glob.partition();
            Some((prefix.to_string_lossy().into_owned(), rest.map(|g| g.to_string())))
        },
        Err(_) => None,
    }
}

/// Calls `std::path::Path::join`. The contract only names the result.
#[verifier::external_body]
fn join_paths(base: &str, rel: &str) -> (r: String)
    ensures
        r@ == joined_path(base@, rel@),
{
    std::path::Path::new(base).join(rel).to_string_lossy().into_owned()
}

/// Calls `clean_path::clean`. The contract only names the result.
#[verifier::external_body]
fn clean_text(path: &str) -> (r: String)
    ensures
        r@ == cleaned_path(path@),
{
    clean_path::clean(path).to_string_lossy().into_owned()
}

/// A pattern split into the path to look up and the glob to walk with.
pub struct ResolvePlan {
    /// The literal prefix of the pattern, joined to the working directory.
    pub lookup: String,
    /// The wildcard part of the pattern; `None` for a pattern without one.
    pub suffix: Option<String>,
}

/// The plan that a partition result gives in a working directory.
pub open spec fn plan_matches(plan: ResolvePlan, cwd: Seq<char>, prefix: Seq<char>, rest: Option<Seq<char>>) -> bool {
    plan.lookup@ == joined_path(cwd, prefix) && opt_text(plan.suffix) == rest
}

/// Builds the plan from an already partitioned pattern: a pattern that did not
/// build is rejected, otherwise the prefix is joined to the working directory.
pub fn plan_from_parts(parts: Option<(String, Option<String>)>, cwd: &str) -> (r: Result<
    ResolvePlan,
    WatchError,
>)
    ensures
        match parts {
            None => r == Err::<ResolvePlan, WatchError>(WatchError::InvalidPattern),
            Some((prefix, rest)) => r is Ok && plan_matches(
                r->Ok_0,
                cwd@,
                prefix@,
                opt_text(rest),
            ),
        },
{
    match parts {
        None => Err(WatchError::InvalidPattern),
        Some((prefix, rest)) => {
            let lookup = join_paths(cwd, prefix.as_str());
            Ok(ResolvePlan { lookup, suffix: rest })
        },
    }
}

/// Whether a pattern is within the limits under which it is handed to the
/// glob builder.
pub fn pattern_within_limits(pattern: &str) -> (r: bool)
    ensures
        r == within_limits(pattern@),
{
    let n = pattern.unicode_len();
    let mut braces: usize = 0;
    let mut angles: usize = 0;
    let mut digits: usize = 0;
    let mut in_bound = false;
    let mut after_opener = false;
    let mut i: usize = 0;
    assert(pattern@.take(0) =~= Seq::empty());
    while i < n
        invariant
            i <= n,
            n == pattern@.len(),
            braces == occurrences(pattern@.take(i as int), '{'),
            angles == occurrences(pattern@.take(i as int), '<'),
            digits == bound_digits(pattern@.take(i as int)),
            in_bound == ends_in_bound(pattern@.take(i as int)),
            after_opener == (i > 0 && opens_bound(pattern@[i - 1])),
            braces <= i,
            angles <= i,
            digits <= i,
        decreases n - i,
    {
        let c = pattern.get_char(i);
        proof {
            assert(pattern@.take(i + 1).drop_last() =~= pattern@.take(i as int));
            assert(pattern@.take(i + 1).last() == c);
            if i > 0 {
                assert(pattern@.take(i as int).last() == pattern@[i - 1]);
            }
        }
        if c == '{' {
            braces += 1;
        }
        if c == '<' {
            angles += 1;
        }
        let digit = c == '0' || c == '1' || c == '2' || c == '3' || c == '4' || c == '5' || c
            == '6' || c == '7' || c == '8' || c == '9';
        in_bound = digit && (in_bound || after_opener);
        if in_bound {
            digits += 1;
        }
        after_opener = c == ':' || c == ',';
        i += 1;
    }
    assert(pattern@.take(n as int) =~= pattern@);
    angles <= MAX_BRANCH_MARKS && braces <= MAX_BRANCH_MARKS - angles && (angles == 0 || (digits
        <= MAX_BOUND_DIGITS && n <= MAX_REPEATED_LEN))
}

/// Splits a glob pattern and plans its resolution in `cwd`. Fails with
/// `InvalidPattern` exactly when the pattern is beyond the limits or does not
/// build.
pub fn plan(pattern: &str, cwd: &str) -> (r: Result<ResolvePlan, WatchError>)
    ensures
        match pattern_parts(pattern@) {
            None => r == Err::<ResolvePlan, WatchError>(WatchError::InvalidPattern),
            Some((prefix, rest)) => r is Ok && plan_matches(r->Ok_0, cwd@, prefix, rest),
        },
{
    if !pattern_within_limits(pattern) {
        return Err(WatchError::InvalidPattern);
    }
    plan_from_parts(glob_partition(pattern), cwd)
}

/// Confirms the working directory. `canonical` is its canonical form, `None`
/// where it does not exist. Fails with `PathResolution` exactly when there is
/// none; otherwise the canonical form is the directory to resolve and run in.
pub fn confirm_working_dir(canonical: Option<String>) -> (r: Result<String, WatchError>)
    ensures
        match canonical {
            None => r == Err::<String, WatchError>(WatchError::PathResolution),
            Some(dir) => r == Ok::<String, WatchError>(dir),
        },
{
    match canonical {
        None => Err(WatchError::PathResolution),
        Some(dir) => Ok(dir),
    }
}

/// The directory to start the walk from: the canonical prefix taken relative
/// to the working directory, lexically cleaned.
pub fn walk_root(cwd: &str, canonical: &str) -> (r: String)
    ensures
        r@ == cleaned_path(joined_path(cwd@, canonical@)),
{
    let joined = join_paths(cwd, canonical);
    clean_text(joined.as_str())
}

/// The texts of a list of walk outcomes.
pub open spec fn outcomes(walked: Seq<Option<String>>) -> Seq<Option<Seq<char>>> {
    Seq::new(walked.len(), |i: int| opt_text(walked[i]))
}

/// The texts of a list of paths.
pub open spec fn texts(paths: Seq<String>) -> Seq<Seq<char>> {
    Seq::new(paths.len(), |i: int| paths[i]@)
}

/// The entries of a walk that were read successfully, in walk order.
pub open spec fn successes(walked: Seq<Option<Seq<char>>>) -> Seq<Seq<char>>
    decreases walked.len(),
{
    if walked.len() == 0 {
        Seq::empty()
    } else {
        let head = successes(walked.drop_last());
        match walked.last() {
            Some(path) => head.push(path),
            None => head,
        }
    }
}

/// The targets that a canonical path and a walk give for a pattern with the
/// given wildcard part: without a wildcard part the canonical path alone,
/// otherwise what the walk read successfully.
pub open spec fn matched_of(
    suffix: Option<Seq<char>>,
    canonical: Seq<char>,
    walked: Seq<Option<Seq<char>>>,
) -> Seq<Seq<char>> {
    if suffix is None {
        seq![canonical]
    } else {
        successes(walked)
    }
}

/// The mathematical content of the resolved targets.
pub struct TargetsModel {
    pub base_dir: Seq<char>,
    pub matched: Seq<Seq<char>>,
}

/// The canonical base directory of a pattern and the paths that match it.
pub struct ResolvedTargets {
    base_dir: String,
    matched: Vec<String>,
}

impl View for ResolvedTargets {
    type V = TargetsModel;

    closed spec fn view(&self) -> TargetsModel {
        TargetsModel { base_dir: self.base_dir@, matched: texts(self.matched@) }
    }
}

/// A pattern without a wildcard part resolves to exactly one target, the
/// canonical form of its literal path, whatever the walk returned.
pub proof fn literal_pattern_has_one_target(canonical: Seq<char>, walked: Seq<Option<Seq<char>>>)
    ensures
        matched_of(None, canonical, walked) == seq![canonical],
        matched_of(None, canonical, walked).len() == 1,
{
}

/// Every successfully read entry of a walk is among its successes, and
/// nothing else is.
pub proof fn successes_are_the_read_entries(walked: Seq<Option<Seq<char>>>, path: Seq<char>)
    ensures
        successes(walked).contains(path) <==> walked.contains(Some(path)),
        successes(walked).len() <= walked.len(),
    decreases walked.len(),
{
    if walked.len() > 0 {
        let front = walked.drop_last();
        successes_are_the_read_entries(front, path);
        let head = successes(front);
        if walked.contains(Some(path)) {
            let i = choose|i: int| 0 <= i < walked.len() && walked[i] == Some(path);
            if i < walked.len() - 1 {
                assert(front[i] == Some(path));
                let j = choose|j: int| 0 <= j < head.len() && head[j] == path;
                assert(successes(walked)[j] == path);
            } else {
                assert(successes(walked).last() == path);
            }
        }
        if successes(walked).contains(path) {
            let j = choose|j: int| 0 <= j < successes(walked).len() && successes(walked)[j] == path;
            if j < head.len() {
                assert(head[j] == path);
                let i = choose|i: int| 0 <= i < front.len() && front[i] == Some(path);
                assert(walked[i] == Some(path));
            } else {
                assert(walked[walked.len() - 1] == Some(path));
            }
        }
    }
}

impl ResolvedTargets {
    /// Completes a resolution. `canonical` is the canonical form of the
    /// plan's lookup path, `None` where it does not exist; `walked` holds the
    /// entries of the walk in order, `None` for an entry that could not be
    /// read. Fails with `PathResolution` exactly when there is no canonical
    /// path. A pattern without a wildcard part has the canonical path as its
    /// one target; otherwise the targets are the entries that were read.
    pub fn finish(plan: &ResolvePlan, canonical: Option<String>, walked: &Vec<Option<String>>) -> (r:
        Result<ResolvedTargets, WatchError>)
        ensures
            canonical is None ==> r == Err::<ResolvedTargets, WatchError>(
                WatchError::PathResolution,
            ),
            canonical is Some ==> r is Ok && r->Ok_0@ == (TargetsModel {
                base_dir: canonical->0@,
                matched: matched_of(opt_text(plan.suffix), canonical->0@, outcomes(walked@)),
            }),
    {
        match canonical {
            None => Err(WatchError::PathResolution),
            Some(base_dir) => {
                let mut matched: Vec<String> = Vec::new();
                if plan.suffix.is_none() {
                    matched.push(base_dir.clone());
                    assert(texts(matched@) =~= seq![base_dir@]);
                } else {
                    let mut i: usize = 0;
                    assert(outcomes(walked@).take(0) =~= Seq::empty());
                    assert(texts(matched@) =~= Seq::empty());
                    while i < walked.len()
                        invariant
                            i <= walked.len(),
                            texts(matched@) == successes(outcomes(walked@).take(i as int)),
                        decreases walked.len() - i,
                    {
                        let ghost before = outcomes(walked@).take(i as int);
                        let ghost upto = outcomes(walked@).take(i + 1);
                        assert(upto.drop_last() =~= before);
                        assert(upto.last() == opt_text(walked@[i as int]));
                        let ghost old_texts = texts(matched@);
                        match &walked[i] {
                            Some(path) => {
                                matched.push(path.clone());
                                assert(texts(matched@) =~= old_texts.push(path@));
                            },
                            None => {},
                        }
                        i += 1;
                    }
                    assert(outcomes(walked@).take(i as int) =~= outcomes(walked@));
                }
                Ok(ResolvedTargets { base_dir, matched })
            },
        }
    }

    /// The canonical base directory.
    pub fn base_dir(&self) -> (r: &str)
        ensures
            r@ == self@.base_dir,
    {
        self.base_dir.as_str()
    }

    /// The number of matched paths.
    pub fn count(&self) -> (r: usize)
        ensures
            r == self@.matched.len(),
    {
        self.matched.len()
    }

    /// The matched path at position `i`, in walk order.
    pub fn path(&self, i: usize) -> (r: &str)
        requires
            i < self@.matched.len(),
        ensures
            r@ == self@.matched[i as int],
    {
        self.matched[i].as_str()
    }

    /// The matched paths, in walk order.
    pub fn matched_paths(&self) -> (r: Vec<String>)
        ensures
            texts(r@) == self@.matched,
    {
        let r = self.matched.clone();
        assert(texts(r@) =~= texts(self.matched@));
        r
    }
}

} // verus!
