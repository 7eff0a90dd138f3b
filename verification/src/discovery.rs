//! Finding the Ruby installations in a rubies directory.
//!
//! An installation is a directory named `ruby-<major>.<minor>.<patch>`. The
//! program reads the directory; this module decides which entries are
//! installations and in which order they are offered (latest first).
use vstd::prelude::*;
use crate::path::{join, path_join};
use crate::ruby::{RubyRuntime, RubyType, RuntimeParts};
use crate::text::{concat, owned};
use crate::version::{
    dotted3, is_digit, is_release, newest_among, release_parse, semver_lt, semver_parse, triple_lt,
    version_lt,
    RubyVersion, VersionParts,
};

verus! {

broadcast use vstd::seq_lib::group_to_multiset_ensures;

/// Errors of Ruby discovery.
#[derive(Debug, Clone, PartialEq, Eq)]
pub enum RubyDiscoveryError {
    /// The rubies directory does not exist.
    DirectoryNotFound(String),
    /// The directory or one of its entries could not be read.
    IoError(String),
}

impl RubyDiscoveryError {
    /// The error's message, as it is displayed.
    pub fn message(&self) -> (r: String)
        ensures
            self matches RubyDiscoveryError::DirectoryNotFound(p) ==> r@ == "Directory not found: "@
                + p@,
            self matches RubyDiscoveryError::IoError(m) ==> r@ == "I/O error: "@ + m@,
    {
        match self {
            RubyDiscoveryError::DirectoryNotFound(p) => concat("Directory not found: ", p.as_str()),
            RubyDiscoveryError::IoError(m) => concat("I/O error: ", m.as_str()),
        }
    }
}

/// One entry of a directory as it was read: its name and whether it is a
/// directory, or the message of the error that reading it gave.
#[derive(Debug, Clone, PartialEq, Eq)]
pub enum EntryRead {
    Entry { name: String, is_dir: bool },
    Failed(String),
}

/// What reading the rubies directory gave.
#[derive(Debug, Clone, PartialEq, Eq)]
pub enum DirListing {
    /// The directory does not exist.
    Missing,
    /// The directory could not be opened; the system's message.
    Unreadable(String),
    /// The entries, in the order the system listed them.
    Read(Vec<EntryRead>),
}

/// A character that `\d` matches: an ASCII digit or a non-ASCII decimal digit.
pub open spec fn digit_like(c: char) -> bool {
    is_digit(c) || c > '\u{7f}'
}

/// Every character of `s` is [`digit_like`].
pub open spec fn all_digit_like(s: Seq<char>) -> bool {
    forall|i: int| 0 <= i < s.len() ==> digit_like(#[trigger] s[i])
}

/// The three groups that `^ruby-(\d+)\.(\d+)\.(\d+)$` captures in a name.
pub uninterp spec fn ruby_dir_captures(name: Seq<char>) -> Option<(Seq<char>, Seq<char>, Seq<char>)>;

/// The views of an optional triple of strings.
pub open spec fn opt_triple(t: Option<(String, String, String)>) -> Option<(Seq<char>, Seq<char>, Seq<char>)> {
    match t {
        Some(x) => Some((x.0@, x.1@, x.2@)),
        None => None,
    }
}

/// Matches a directory name against `^ruby-(\d+)\.(\d+)\.(\d+)$` with the
/// `regex` crate (`Regex::new` on the fixed pattern, then `captures`).
///
/// Claims: the result is the named [`ruby_dir_captures`] of the name; when
/// it matches, the name is `ruby-` and the three groups joined by dots, each
/// group non-empty and made of characters that `\d` matches (ASCII digits or
/// non-ASCII ones); and a name made that way of ASCII digit runs always
/// matches, with those runs as its groups.
#[verifier::external_body]
fn match_ruby_dir_name(name: &str) -> (r: Option<(String, String, String)>)
    ensures
        opt_triple(r) == ruby_dir_captures(name@),
        r matches Some(t) ==> name@ == "ruby-"@ + dotted3(t.0@, t.1@, t.2@),
        r matches Some(t) ==> t.0@.len() > 0 && t.1@.len() > 0 && t.2@.len() > 0,
        r matches Some(t) ==> all_digit_like(t.0@) && all_digit_like(t.1@) && all_digit_like(t.2@),
        forall|a: Seq<char>, b: Seq<char>, c: Seq<char>|
            crate::version::is_digits(a) && crate::version::is_digits(b)
                && crate::version::is_digits(c) && name@ == "ruby-"@ + #[trigger] dotted3(a, b, c)
                ==> opt_triple(r) == Some((a, b, c)),
{
    let re = regex::Regex::new(r"^ruby-(\d+)\.(\d+)\.(\d+)$").expect("fixed pattern");
    match re.captures(name) {
        Some(c) => Some((c[1].to_string(), c[2].to_string(), c[3].to_string())),
        None => None,
    }
}

/// The installation an entry of `root` stands for, if it stands for one: a
/// directory whose name matches the pattern and whose dotted version text
/// `semver` accepts.
pub open spec fn entry_runtime(root: Seq<char>, name: Seq<char>, is_dir: bool) -> Option<RuntimeParts> {
    if !is_dir {
        None
    } else {
        match ruby_dir_captures(name) {
            Some(t) => match semver_parse(dotted3(t.0, t.1, t.2)) {
                Some(v) => Some((RubyType::CRuby, v, path_join(root, name))),
                None => None,
            },
            None => None,
        }
    }
}

/// The installations found among `entries`, in listing order.
pub open spec fn accepted(root: Seq<char>, entries: Seq<EntryRead>) -> Seq<RuntimeParts>
    decreases entries.len(),
{
    if entries.len() == 0 {
        Seq::empty()
    } else {
        let rest = accepted(root, entries.drop_last());
        match entries.last() {
            EntryRead::Entry { name, is_dir } => match entry_runtime(root, name@, is_dir) {
                Some(r) => rest.push(r),
                None => rest,
            },
            EntryRead::Failed(_) => rest,
        }
    }
}

/// The message of the first failed entry, if one failed.
pub open spec fn first_failure(entries: Seq<EntryRead>) -> Option<Seq<char>>
    decreases entries.len(),
{
    if entries.len() == 0 {
        None
    } else {
        match entries[0] {
            EntryRead::Failed(m) => Some(m@),
            EntryRead::Entry { .. } => first_failure(entries.drop_first()),
        }
    }
}

/// `s` is ordered latest first: no installation is preceded by an older one.
pub open spec fn latest_first(s: Seq<RuntimeParts>) -> bool {
    forall|i: int, j: int| 0 <= i < j < s.len() ==> !triple_lt(#[trigger] s[i].1, #[trigger] s[j].1)
}

/// The views of a vector of installations.
pub open spec fn runtime_views(v: Seq<RubyRuntime>) -> Seq<RuntimeParts> {
    v.map_values(|r: RubyRuntime| r@)
}

/// The index that `Iterator::max_by` picks by the version order: the
/// maximum, the last of several equal ones.
pub open spec fn last_max_index(s: Seq<VersionParts>) -> int
    decreases s.len(),
{
    if s.len() <= 1 {
        0
    } else {
        let i = last_max_index(s.drop_last());
        if version_lt(s.last(), s[i]) {
            i
        } else {
            s.len() - 1
        }
    }
}

/// The versions of a sequence of installations.
pub open spec fn versions_of(s: Seq<RuntimeParts>) -> Seq<VersionParts> {
    s.map_values(|r: RuntimeParts| r.1)
}

/// The error message of an unreadable rubies directory.
pub open spec fn unreadable_message(root: Seq<char>, msg: Seq<char>) -> Seq<char> {
    "Failed to read directory "@ + root + ": "@ + msg
}

/// The text `a.b.c`.
fn dotted_text(a: &str, b: &str, c: &str) -> (r: String)
    ensures
        r@ == dotted3(a@, b@, c@),
{
    let ab = concat(a, ".");
    let abd = concat(ab.as_str(), b);
    let abdd = concat(abd.as_str(), ".");
    proof {
        reveal_strlit(".");
    }
    concat(abdd.as_str(), c)
}

/// The installation an entry stands for (see [`entry_runtime`]).
fn runtime_of_entry(root: &str, name: &str, is_dir: bool) -> (r: Option<RubyRuntime>)
    ensures
        match r {
            Some(x) => entry_runtime(root@, name@, is_dir) == Some(x@),
            None => entry_runtime(root@, name@, is_dir) is None,
        },
        r matches Some(x) ==> is_release(x.version@),
{
    if !is_dir {
        return None;
    }
    match match_ruby_dir_name(name) {
        Some((a, b, c)) => {
            let text = dotted_text(a.as_str(), b.as_str(), c.as_str());
            proof {
                lemma_dotted_no_pre_build(a@, b@, c@);
            }
            match RubyVersion::parse(text.as_str()) {
                Some(version) => {
                    let path = join(root, name);
                    Some(RubyRuntime { kind: RubyType::CRuby, version, root: path })
                },
                None => None,
            }
        },
        None => None,
    }
}

/// No character of `s` is one of the separators `.`, `-`, `+`.
proof fn lemma_digit_like_no_separators(s: Seq<char>)
    requires
        all_digit_like(s),
    ensures
        !s.contains('-'),
        !s.contains('+'),
        !s.contains('.'),
{
    if s.contains('-') {
        let i = choose|i: int| 0 <= i < s.len() && s[i] == '-';
        assert(digit_like(s[i]));
    }
    if s.contains('+') {
        let i = choose|i: int| 0 <= i < s.len() && s[i] == '+';
        assert(digit_like(s[i]));
    }
    if s.contains('.') {
        let i = choose|i: int| 0 <= i < s.len() && s[i] == '.';
        assert(digit_like(s[i]));
    }
}

/// A dotted text of digit-like groups has no `-` and no `+`.
proof fn lemma_dotted_no_pre_build(a: Seq<char>, b: Seq<char>, c: Seq<char>)
    requires
        all_digit_like(a),
        all_digit_like(b),
        all_digit_like(c),
    ensures
        !dotted3(a, b, c).contains('-'),
        !dotted3(a, b, c).contains('+'),
{
    lemma_digit_like_no_separators(a);
    lemma_digit_like_no_separators(b);
    lemma_digit_like_no_separators(c);
    let d = dotted3(a, b, c);
    assert forall|i: int| 0 <= i < d.len() implies d[i] != '-' && d[i] != '+' by {
        if i < a.len() {
            assert(d[i] == a[i]);
            assert(a.contains(a[i]));
        } else if i == a.len() {
        } else if i < a.len() + 1 + b.len() {
            assert(d[i] == b[i - a.len() - 1]);
            assert(b.contains(b[i - a.len() - 1]));
        } else if i == a.len() + 1 + b.len() {
        } else {
            assert(d[i] == c[i - a.len() - 2 - b.len()]);
            assert(c.contains(c[i - a.len() - 2 - b.len()]));
        }
    }
}

/// Inserts `x` into `list`, which is ordered latest first, after every
/// installation that is not older than it.
fn insert_latest_first(list: &mut Vec<RubyRuntime>, x: RubyRuntime)
    requires
        latest_first(runtime_views(old(list)@)),
        forall|i: int| 0 <= i < old(list)@.len() ==> is_release(#[trigger] old(list)@[i].version@),
        is_release(x.version@),
    ensures
        latest_first(runtime_views(final(list)@)),
        forall|i: int| 0 <= i < final(list)@.len() ==> is_release(#[trigger] final(list)@[i].version@),
        runtime_views(final(list)@).to_multiset() == runtime_views(old(list)@).to_multiset().insert(
            x@,
        ),
{
    let ghost before = runtime_views(list@);
    let mut k: usize = 0;
    while k < list.len() && !list[k].version.precedes(&x.version)
        invariant
            k <= list@.len(),
            list@ == old(list)@,
            before == runtime_views(list@),
            forall|i: int| 0 <= i < list@.len() ==> is_release(#[trigger] list@[i].version@),
            is_release(x.version@),
            forall|i: int| 0 <= i < k ==> !triple_lt(#[trigger] list@[i].version@, x.version@),
        decreases list.len() - k,
    {
        k = k + 1;
    }
    let ghost xv = x@;
    proof {
        if k < list@.len() {
            assert(triple_lt(list@[k as int].version@, x.version@));
        }
    }
    list.insert(k, x);
    proof {
        let after = runtime_views(list@);
        assert(after =~= before.insert(k as int, xv));
        vstd::seq_lib::to_multiset_insert(before, k as int, xv);
        assert forall|i: int, j: int| 0 <= i < j < after.len() implies !triple_lt(
            #[trigger] after[i].1,
            #[trigger] after[j].1,
        ) by {
            if j < k {
                assert(after[i] == before[i] && after[j] == before[j]);
            } else if j == k {
                assert(after[i] == before[i]);
            } else if i < k {
                assert(after[i] == before[i] && after[j] == before[j - 1]);
                assert(!triple_lt(before[i].1, xv.1));
                if k < before.len() {
                    assert(!triple_lt(before[k as int].1, before[j - 1].1) || k == j - 1);
                }
            } else if i == k {
                assert(after[j] == before[j - 1]);
                assert(k < before.len());
                assert(triple_lt(before[k as int].1, xv.1));
                assert(!triple_lt(before[k as int].1, before[j - 1].1) || k == j - 1);
            } else {
                assert(after[i] == before[i - 1] && after[j] == before[j - 1]);
            }
        }
    }
}

/// Index of the installation that `max_by` on versions picks in a non-empty
/// slice.
fn last_max_position(list: &[RubyRuntime]) -> (k: usize)
    requires
        list@.len() > 0,
    ensures
        k < list@.len(),
        k == last_max_index(versions_of(runtime_views(list@))),
        newest_among(list@[k as int].version@, versions_of(runtime_views(list@))),
{
    let ghost vs = versions_of(runtime_views(list@));
    let mut best: usize = 0;
    let mut i: usize = 1;
    proof {
        assert(vs[0] == list@[0].version@);
    }
    while i < list.len()
        invariant
            1 <= i <= list@.len(),
            best < i,
            vs == versions_of(runtime_views(list@)),
            vs.len() == list@.len(),
            forall|j: int| 0 <= j < list@.len() ==> #[trigger] vs[j] == list@[j].version@,
            best == last_max_index(vs.subrange(0, i as int)),
            forall|j: int| 0 <= j < i ==> #[trigger] vs[j] == vs[best as int] || !semver_lt(vs[best as int], vs[j]),
        decreases list.len() - i,
    {
        proof {
            let s = vs.subrange(0, i + 1);
            assert(s.drop_last() =~= vs.subrange(0, i as int));
            assert(s[best as int] == vs[best as int]);
            assert(s.last() == vs[i as int]);
        }
        let ghost old_best = best;
        if !list[i].version.precedes(&list[best].version) {
            best = i;
            proof {
                assert forall|j: int| 0 <= j < i + 1 implies #[trigger] vs[j] == vs[best as int] || !semver_lt(
                    vs[best as int],
                    vs[j],
                ) by {
                    if j < i && vs[j] != vs[old_best as int] && semver_lt(vs[i as int], vs[j]) {
                        assert(semver_lt(vs[old_best as int], vs[j]));
                    }
                }
            }
        }
        i = i + 1;
    }
    assert(vs.subrange(0, list@.len() as int) =~= vs);
    best
}

/// The index [`last_max_index`] picks lies within a non-empty sequence.
pub proof fn lemma_last_max_in_range(s: Seq<VersionParts>)
    ensures
        s.len() > 0 ==> 0 <= last_max_index(s) < s.len(),
    decreases s.len(),
{
    if s.len() > 1 {
        lemma_last_max_in_range(s.drop_last());
    }
}

/// Among release versions, the index [`last_max_index`] picks holds a
/// maximum, and every later version is strictly older.
pub proof fn lemma_last_max_is_latest(s: Seq<VersionParts>)
    requires
        s.len() > 0,
        forall|i: int| 0 <= i < s.len() ==> is_release(#[trigger] s[i]),
    ensures
        0 <= last_max_index(s) < s.len(),
        forall|j: int| 0 <= j < s.len() ==> !triple_lt(s[last_max_index(s)], #[trigger] s[j]),
        forall|j: int| last_max_index(s) < j < s.len() ==> triple_lt(#[trigger] s[j], s[last_max_index(s)]),
    decreases s.len(),
{
    if s.len() > 1 {
        let t = s.drop_last();
        lemma_last_max_is_latest(t);
        let i = last_max_index(t);
        assert(s[i] == t[i]);
        assert(is_release(s.last()) && is_release(s[i]));
        assert forall|j: int| 0 <= j < s.len() implies !triple_lt(
            s[last_max_index(s)],
            #[trigger] s[j],
        ) by {
            if j < s.len() - 1 {
                assert(s[j] == t[j]);
            }
        }
        assert forall|j: int| last_max_index(s) < j < s.len() implies triple_lt(
            #[trigger] s[j],
            s[last_max_index(s)],
        ) by {
            if j < s.len() - 1 {
                assert(s[j] == t[j]);
            }
        }
    }
}

/// Finds Ruby installations in a rubies directory.
pub struct RubyRuntimeDetector;

impl RubyRuntimeDetector {
    /// The installations in `root_dir`, latest first, from what reading the
    /// directory gave.
    ///
    /// A missing directory is `DirectoryNotFound`; a directory that could not
    /// be opened, or an entry that could not be read, is an `IoError` (the
    /// first such entry decides). Otherwise every directory entry named
    /// `ruby-<a>.<b>.<c>` whose version `semver` accepts is an installation,
    /// rooted at `root_dir` joined with the entry's name.
    pub fn discover(root_dir: &str, listing: &DirListing) -> (r: Result<
        Vec<RubyRuntime>,
        RubyDiscoveryError,
    >)
        ensures
            listing matches DirListing::Missing ==> (r matches Err(
                RubyDiscoveryError::DirectoryNotFound(p),
            ) && p@ == root_dir@),
            listing matches DirListing::Unreadable(m) ==> (r matches Err(
                RubyDiscoveryError::IoError(e),
            ) && e@ == unreadable_message(root_dir@, m@)),
            listing matches DirListing::Read(entries) ==> match first_failure(entries@) {
                Some(m) => r matches Err(RubyDiscoveryError::IoError(e)) && e@ == m,
                None => r matches Ok(v) && runtime_views(v@).to_multiset() == accepted(
                    root_dir@,
                    entries@,
                ).to_multiset() && latest_first(runtime_views(v@)),
            },
            r matches Ok(v) ==> forall|i: int|
                0 <= i < v@.len() ==> is_release(#[trigger] v@[i].version@),
    {
        match listing {
            DirListing::Missing => Err(RubyDiscoveryError::DirectoryNotFound(owned(root_dir))),
            DirListing::Unreadable(m) => {
                let a = concat("Failed to read directory ", root_dir);
                let b = concat(a.as_str(), ": ");
                proof {
                    reveal_strlit("Failed to read directory ");
                    reveal_strlit(": ");
                }
                Err(RubyDiscoveryError::IoError(concat(b.as_str(), m.as_str())))
            },
            DirListing::Read(entries) => {
                let mut out: Vec<RubyRuntime> = Vec::new();
                let mut i: usize = 0;
                proof {
                    assert(entries@.subrange(0, entries@.len() as int) =~= entries@);
                    assert(entries@.subrange(0, 0) =~= Seq::<EntryRead>::empty());
                }
                while i < entries.len()
                    invariant
                        listing matches DirListing::Read(e) && e@ == entries@,
                        i <= entries@.len(),
                        first_failure(entries@) == first_failure(entries@.subrange(i as int, entries@.len() as int)),
                        runtime_views(out@).to_multiset() == accepted(
                            root_dir@,
                            entries@.subrange(0, i as int),
                        ).to_multiset(),
                        latest_first(runtime_views(out@)),
                        forall|j: int| 0 <= j < out@.len() ==> is_release(#[trigger] out@[j].version@),
                    decreases entries.len() - i,
                {
                    let ghost pre = entries@.subrange(0, i as int);
                    let ghost post = entries@.subrange(0, i + 1);
                    proof {
                        assert(post.drop_last() =~= pre);
                        let rest = entries@.subrange(i as int, entries@.len() as int);
                        assert(rest[0] == entries@[i as int]);
                        assert(rest.drop_first() =~= entries@.subrange(i + 1, entries@.len() as int));
                    }
                    match &entries[i] {
                        EntryRead::Failed(m) => {
                            return Err(RubyDiscoveryError::IoError(m.clone()));
                        },
                        EntryRead::Entry { name, is_dir } => {
                            let found = runtime_of_entry(root_dir, name.as_str(), *is_dir);
                            match found {
                                Some(rt) => {
                                    insert_latest_first(&mut out, rt);
                                },
                                None => {},
                            }
                        },
                    }
                    i = i + 1;
                }
                proof {
                    assert(entries@.subrange(0, entries@.len() as int) =~= entries@);
                }
                Ok(out)
            },
        }
    }

    /// The latest installation of `list`, by the version order (the last of
    /// several equal ones), or `None` for an empty list.
    pub fn latest(list: &[RubyRuntime]) -> (r: Option<RubyRuntime>)
        ensures
            list@.len() == 0 <==> r is None,
            r matches Some(x) ==> x@ == list@[last_max_index(
                versions_of(runtime_views(list@)),
            )]@,
            r matches Some(x) ==> newest_among(x.version@, versions_of(runtime_views(list@))),
    {
        if list.len() == 0 {
            return None;
        }
        let k = last_max_position(list);
        Some(list[k].duplicate())
    }
}

} // verus!
