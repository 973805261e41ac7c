//! Version comparison for the update check, the GitHub addresses it uses,
//! and the decisions around one check.
use vstd::prelude::*;

use crate::text::{is_white_space, lacks, lemma_before_any_concat, lemma_before_any_whole, lemma_trim_back_concat, lemma_trimmed_ends, lemma_trim_start_char_concat, lemma_trim_start_char_tail, trim_ws_back, trim_ws_front, trim_end_char, trim_end_seq, starts_with, has_prefix, has_suffix, string_of, before_any, chars_of, find_stop, parse_decimal, parse_unsigned, skip_char, trim_bounds, trim_start_char, trim_ws};

verus! {

broadcast use vstd::string::group_string_axioms;

/// The current app version.
pub const VERSION: &'static str = "2.2.0";

/// The project repository URL.
pub const REPO_URL: &'static str = "https://github.com/junglivre/TypeBridge";

/// The `k`-th field (from 0) of a text split at `.`, if it has that many.
pub open spec fn field_at(s: Seq<char>, k: nat) -> Option<Seq<char>>
    decreases k,
{
    let h = before_any(s, '.', '.');
    if k == 0 {
        Some(h)
    } else if h.len() < s.len() {
        field_at(s.skip(h.len() + 1int), (k - 1) as nat)
    } else {
        None
    }
}

/// A missing field, or one that is not a number, counts as 0.
pub open spec fn field_number(f: Option<Seq<char>>) -> u64 {
    match f {
        Some(x) => match parse_unsigned(x, u64::MAX as nat) {
            Some(n) => n as u64,
            None => 0,
        },
        None => 0,
    }
}

/// What is left of a version text to read numbers from: trimmed, without
/// leading `v`s, and cut at the first `-` or `+` (a pre-release or build
/// suffix).
pub open spec fn version_core(v: Seq<char>) -> Seq<char> {
    before_any(trim_start_char(trim_ws(v), 'v'), '-', '+')
}

/// The (major, minor, patch) triple a version text stands for.
pub open spec fn version_of(v: Seq<char>) -> (u64, u64, u64) {
    let c = version_core(v);
    (field_number(field_at(c, 0)), field_number(field_at(c, 1)), field_number(field_at(c, 2)))
}

/// Lexicographic order on version triples.
pub open spec fn triple_less(a: (u64, u64, u64), b: (u64, u64, u64)) -> bool {
    ||| a.0 < b.0
    ||| a.0 == b.0 && a.1 < b.1
    ||| a.0 == b.0 && a.1 == b.1 && a.2 < b.2
}

/// Whether version text `latest` names a later release than `current`.
pub open spec fn newer(latest: Seq<char>, current: Seq<char>) -> bool {
    triple_less(version_of(current), version_of(latest))
}

/// The field `k` of `v[p..end]`, where `None` stands for "no text left".
pub open spec fn field_from(v: Seq<char>, p: Option<usize>, end: usize, k: nat) -> Option<
    Seq<char>,
> {
    match p {
        Some(x) => field_at(v.subrange(x as int, end as int), k),
        None => None,
    }
}

/// Reads the number in the first field of `v[p..end]` and says where the
/// next field starts.
fn take_field(v: &Vec<char>, p: Option<usize>, end: usize) -> (r: (u64, Option<usize>))
    requires
        end <= v.len(),
        p matches Some(x) ==> x <= end,
    ensures
        r.0 == field_number(field_from(v@, p, end, 0)),
        r.1 matches Some(y) ==> y <= end,
        forall|k: nat| #[trigger]
            field_from(v@, r.1, end, k) == field_from(v@, p, end, k + 1),
{
    match p {
        None => (0, None),
        Some(x) => {
            let e = find_stop(v, x, end, '.', '.');
            let ghost s = v@.subrange(x as int, end as int);
            let ghost h = before_any(s, '.', '.');
            assert(h == v@.subrange(x as int, e as int));
            let n = match parse_decimal(v, x, e, u64::MAX) {
                Some(n) => n,
                None => 0,
            };
            let next = if e < end {
                Some(e + 1)
            } else {
                None
            };
            proof {
                assert forall|k: nat| #[trigger]
                    field_from(v@, next, end, k) == field_from(v@, p, end, k + 1) by {
                    if e < end {
                        assert(s.skip(h.len() + 1int) == v@.subrange(e + 1, end as int));
                    }
                }
            }
            (n, next)
        },
    }
}

/// The (major, minor, patch) numbers of a version text such as `v1.2.3` or
/// `1.0.0-rc1`: white space at the ends, leading `v`s and anything from the
/// first `-` or `+` on are ignored; a missing or non-numeric field is 0.
pub fn parse(v: &str) -> (r: (u64, u64, u64))
    ensures
        r == version_of(v@),
{
    let cs = chars_of(v);
    let n = cs.len();
    let (a, b) = trim_bounds(&cs, 0, n);
    assert(cs@.subrange(0, n as int) == v@);
    let a2 = skip_char(&cs, a, b, 'v');
    let e = find_stop(&cs, a2, b, '-', '+');
    let ghost core = cs@.subrange(a2 as int, e as int);
    assert(core == version_core(v@));
    let (major, p1) = take_field(&cs, Some(a2), e);
    let (minor, p2) = take_field(&cs, p1, e);
    let (patch, _p3) = take_field(&cs, p2, e);
    assert(field_from(cs@, p1, e, 0) == field_from(cs@, Some(a2), e, 1));
    assert(field_from(cs@, p2, e, 0) == field_from(cs@, p1, e, 1));
    assert(field_from(cs@, p1, e, 1) == field_from(cs@, Some(a2), e, 2));
    (major, minor, patch)
}

/// Compares dotted versions, ignoring a leading `v` and any pre-release
/// suffix: true when `latest` is a later (major, minor, patch) than
/// `current`.
pub fn is_newer(latest: &str, current: &str) -> (b: bool)
    ensures
        b == newer(latest@, current@),
{
    let l = parse(latest);
    let c = parse(current);
    c.0 < l.0 || (c.0 == l.0 && c.1 < l.1) || (c.0 == l.0 && c.1 == l.1 && c.2 < l.2)
}


/// No version is newer than itself.
pub proof fn lemma_newer_irreflexive(v: Seq<char>)
    ensures
        !newer(v, v),
{
}

/// Of two versions, at most one is newer than the other.
pub proof fn lemma_newer_asymmetric(a: Seq<char>, b: Seq<char>)
    ensures
        newer(a, b) ==> !newer(b, a),
{
}

/// "Newer than" is transitive.
pub proof fn lemma_newer_transitive(a: Seq<char>, b: Seq<char>, c: Seq<char>)
    ensures
        newer(a, b) && newer(b, c) ==> newer(a, c),
{
}

/// Two versions that read as different numbers are ordered one way or the
/// other; two that read as the same numbers are not.
pub proof fn lemma_newer_total(a: Seq<char>, b: Seq<char>)
    ensures
        version_of(a) != version_of(b) <==> (newer(a, b) || newer(b, a)),
{
}

/// A pre-release or build suffix is ignored: `s-t` and `s+t` read as the
/// same version as `s`, for any version text `s` that has no white space at
/// its ends and no `-` or `+`.
pub proof fn lemma_suffix_ignored(s: Seq<char>, sep: char, t: Seq<char>)
    requires
        sep == '-' || sep == '+',
        trim_ws(s) == s,
        lacks(s, '-', '+'),
    ensures
        version_of(s + seq![sep] + t) == version_of(s),
{
    let q = seq![sep] + trim_ws_back(t);
    let x = s + seq![sep] + t;
    // white space is trimmed from the end of `t` only
    assert(x == (s + seq![sep]) + t);
    assert((s + seq![sep]).last() == sep);
    lemma_trim_back_concat(s + seq![sep], t);
    assert(!is_white_space(x[0])) by {
        if s.len() > 0 {
            lemma_trimmed_ends(s);
            assert(x[0] == s[0]);
        } else {
            assert(x[0] == sep);
        }
    }
    assert(trim_ws_front(x) == x);
    assert(trim_ws(x) == s + q);
    // then the leading `v`s come off `s`
    lemma_trim_start_char_concat(s, q, 'v');
    lemma_trim_start_char_tail(s, 'v');
    let j = choose|j: int| 0 <= j <= s.len() && trim_start_char(s, 'v') == #[trigger] s.skip(j);
    let r = trim_start_char(s, 'v');
    assert forall|i: int| 0 <= i < r.len() implies #[trigger] r[i] != '-' && r[i] != '+' by {
        assert(r[i] == s[i + j]);
    }
    lemma_before_any_concat(r, q, '-', '+');
    assert(version_core(x) == r);
    lemma_before_any_whole(r, '-', '+');
    assert(version_core(s) == r);
}

/// A leading `v` is ignored: `vs` reads as the same version as `s`, for any
/// version text `s` that has no white space at its ends.
pub proof fn lemma_v_prefix_ignored(s: Seq<char>)
    requires
        trim_ws(s) == s,
    ensures
        version_of(seq!['v'] + s) == version_of(s),
{
    let y = seq!['v'] + s;
    assert(y[0] == 'v');
    assert(trim_ws_front(y) == y);
    if s.len() > 0 {
        lemma_trimmed_ends(s);
        assert(y.last() == s.last());
    } else {
        assert(y.last() == 'v');
    }
    assert(trim_ws_back(y) == y);
    assert(trim_ws(y) == y);
    assert(y.drop_first() == s);
    assert(trim_start_char(y, 'v') == trim_start_char(s, 'v'));
}

/// Comparing versions, a leading `v` and a pre-release suffix are ignored,
/// on either side: for a version text `x` without white space at its ends
/// and without `-` or `+`, `vx` and `x-s` compare with any `y` as `x` does.
pub proof fn lemma_newer_ignores_prefix_and_suffix(x: Seq<char>, s: Seq<char>, y: Seq<char>)
    requires
        trim_ws(x) == x,
        lacks(x, '-', '+'),
    ensures
        newer(seq!['v'] + x, y) == newer(x, y),
        newer(y, seq!['v'] + x) == newer(y, x),
        newer(x + seq!['-'] + s, y) == newer(x, y),
        newer(y, x + seq!['-'] + s) == newer(y, x),
        newer(x + seq!['+'] + s, y) == newer(x, y),
        newer(y, x + seq!['+'] + s) == newer(y, x),
{
    lemma_v_prefix_ignored(x);
    lemma_suffix_ignored(x, '-', s);
    lemma_suffix_ignored(x, '+', s);
}

/// The address prefix of repositories on GitHub.
pub open spec fn github_prefix() -> Seq<char> {
    "https://github.com/"@
}

/// `owner/repo` read from a GitHub repository address: trailing `/`s, then
/// trailing `.git`s, are dropped, and the rest must start with
/// `https://github.com/`.
pub open spec fn owner_repo_spec(url: Seq<char>) -> Option<Seq<char>> {
    let t = trim_end_seq(trim_end_char(url, '/'), ".git"@);
    if starts_with(t, github_prefix()) {
        Some(t.skip(github_prefix().len() as int))
    } else {
        None
    }
}

/// `owner/repo` parsed from a repository URL.
pub fn owner_repo_of(url: &str) -> (r: Option<String>)
    ensures
        r matches Some(s) ==> owner_repo_spec(url@) == Some(s@),
        r is None ==> owner_repo_spec(url@) is None,
{
    let v = chars_of(url);
    let mut b = v.len();
    assert(v@.take(b as int) == url@);
    while b > 0 && v[b - 1] == '/'
        invariant
            b <= v.len(),
            trim_end_char(url@, '/') == trim_end_char(v@.take(b as int), '/'),
        decreases b,
    {
        assert(v@.take(b as int).drop_last() == v@.take(b - 1));
        b = b - 1;
    }
    assert(trim_end_char(v@.take(b as int), '/') == v@.take(b as int));
    let git = chars_of(".git");
    let ghost t0 = v@.take(b as int);
    while git.len() > 0 && has_suffix(&v, 0, b, &git)
        invariant
            b <= v.len(),
            git@ == ".git"@,
            trim_end_seq(t0, ".git"@) == trim_end_seq(v@.take(b as int), ".git"@),
        decreases b,
    {
        assert(v@.subrange(0, b as int) == v@.take(b as int));
        assert(v@.take(b as int).take(b - git.len()) == v@.take(b - git.len()));
        b = b - git.len();
    }
    assert(v@.subrange(0, b as int) == v@.take(b as int));
    let ghost t = v@.take(b as int);
    assert(trim_end_seq(t, ".git"@) == t);
    let prefix = chars_of("https://github.com/");
    if has_prefix(&v, 0, b, &prefix) {
        let s = string_of(&v, prefix.len(), b);
        assert(t.skip(prefix.len() as int) == v@.subrange(prefix.len() as int, b as int));
        Some(s)
    } else {
        None
    }
}

/// `owner/repo` parsed from [`REPO_URL`].
pub fn owner_repo() -> (r: Option<String>)
    ensures
        r matches Some(s) ==> owner_repo_spec(REPO_URL@) == Some(s@),
        r is None ==> owner_repo_spec(REPO_URL@) is None,
{
    owner_repo_of(REPO_URL)
}

/// The GitHub API address of the latest release of `owner/repo`.
pub open spec fn latest_release_url(owner_repo: Seq<char>) -> Seq<char> {
    "https://api.github.com/repos/"@ + owner_repo + "/releases/latest"@
}

/// The GitHub API address of the latest release of this project.
pub fn api_latest_url() -> (r: Option<String>)
    ensures
        r matches Some(s) ==> (owner_repo_spec(REPO_URL@) matches Some(o) && s@
            == latest_release_url(o)),
        r is None ==> owner_repo_spec(REPO_URL@) is None,
{
    match owner_repo() {
        Some(or) => {
            let mut s = String::new();
            s.append("https://api.github.com/repos/");
            s.append(or.as_str());
            s.append("/releases/latest");
            Some(s)
        },
        None => None,
    }
}


/// Details of the latest published release.
#[derive(Clone)]
pub struct Release {
    pub tag: String,
    pub version: String,
    pub notes: String,
    pub url: String,
}

/// Outcome of an update check.
#[derive(Clone)]
pub enum UpdateState {
    Idle,
    Checking,
    UpToDate,
    Available(Release),
    Failed,
}

/// The release described by the API's `tag_name`, `body` and `html_url`:
/// its version is the tag without leading `v`s, and a missing body gives
/// empty notes.
pub fn release_from_api(tag_name: String, body: Option<String>, html_url: String) -> (r: Release)
    ensures
        r.tag@ == tag_name@,
        r.version@ == trim_start_char(tag_name@, 'v'),
        r.notes@ == (match body {
            Some(b) => b@,
            None => Seq::<char>::empty(),
        }),
        r.url@ == html_url@,
{
    let cs = chars_of(tag_name.as_str());
    let a = skip_char(&cs, 0, cs.len(), 'v');
    assert(cs@.subrange(0, cs.len() as int) == tag_name@);
    let version = string_of(&cs, a, cs.len());
    let notes = match body {
        Some(b) => b,
        None => String::new(),
    };
    Release { tag: tag_name, version, notes, url: html_url }
}

/// What one check found: the fetched release when it is newer than
/// [`VERSION`], "up to date" for any other release, and "failed" when
/// nothing could be fetched.
pub fn check_outcome(fetched: Result<Release, ()>) -> (r: UpdateState)
    ensures
        match fetched {
            Ok(rel) => if newer(rel.version@, VERSION@) {
                r == UpdateState::Available(rel)
            } else {
                r is UpToDate
            },
            Err(()) => r is Failed,
        },
{
    match fetched {
        Ok(rel) => {
            if is_newer(rel.version.as_str(), VERSION) {
                UpdateState::Available(rel)
            } else {
                UpdateState::UpToDate
            }
        },
        Err(()) => UpdateState::Failed,
    }
}

/// Marks a check as started, unless one is already running: returns
/// whether the caller should start it.
pub fn begin_check(state: &mut UpdateState) -> (start: bool)
    ensures
        *old(state) is Checking ==> !start && *final(state) == *old(state),
        !(*old(state) is Checking) ==> start && *final(state) is Checking,
{
    if let UpdateState::Checking = state {
        false
    } else {
        *state = UpdateState::Checking;
        true
    }
}

} // verus!
