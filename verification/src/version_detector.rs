//! Reading the Ruby version a project asks for, from its `.ruby-version`
//! file or from the `ruby` line of its Gemfile.
//!
//! The program reads the files; the detectors here decide what the texts say.
use vstd::prelude::*;
use crate::text::{chars_of, has_prefix_at, slice_string, starts_with, trim, trim_str};
use crate::version::{opt_parts, semver_parse, RubyVersion, VersionParts};

verus! {

/// The version files of a project directory as they were read: the text of
/// `.ruby-version` and of `Gemfile`, `None` where a file could not be read.
#[derive(Debug, Clone, PartialEq, Eq)]
pub struct VersionSources {
    pub ruby_version_file: Option<String>,
    pub gemfile: Option<String>,
}

/// The text of an optional string.
pub open spec fn opt_view(o: Option<String>) -> Option<Seq<char>> {
    match o {
        Some(s) => Some(s@),
        None => None,
    }
}

/// `s` up to (not including) its first `q`; all of `s` when it has none.
pub open spec fn take_until(s: Seq<char>, q: char) -> Seq<char>
    decreases s.len(),
{
    if s.len() == 0 {
        s
    } else if s[0] == q {
        Seq::empty()
    } else {
        seq![s[0]] + take_until(s.drop_first(), q)
    }
}

/// The text between `rest`'s opening quote `q` and the next `q`, if `rest`
/// opens with `q` and the quote is closed.
pub open spec fn quoted_with(rest: Seq<char>, q: char) -> Option<Seq<char>> {
    if rest.len() > 0 && rest[0] == q && rest.drop_first().contains(q) {
        Some(take_until(rest.drop_first(), q))
    } else {
        None
    }
}

/// The version text of a Gemfile line `ruby '<v>'` or `ruby "<v>"`: after
/// the `ruby ` prefix and surrounding whitespace, the text between a leading
/// single (tried first) or double quote and the next same quote.
pub open spec fn quoted_version(line: Seq<char>) -> Option<Seq<char>> {
    if starts_with(line, "ruby "@) {
        let rest = trim(line.subrange(5, line.len() as int));
        match quoted_with(rest, '\'') {
            Some(v) => Some(v),
            None => quoted_with(rest, '"'),
        }
    } else {
        None
    }
}

/// The version a Gemfile line declares: a `ruby` line, trimmed, whose quoted
/// text `semver` accepts.
pub open spec fn line_version(line: Seq<char>) -> Option<VersionParts> {
    let t = trim(line);
    if starts_with(t, "ruby "@) {
        match quoted_version(t) {
            Some(v) => semver_parse(v),
            None => None,
        }
    } else {
        None
    }
}

/// The lines of `s`: the pieces between newlines. (A carriage return ending
/// a line is whitespace, which every use here trims; a final empty piece
/// declares nothing.)
pub open spec fn split_lines(s: Seq<char>) -> Seq<Seq<char>>
    decreases s.len(),
{
    if s.len() == 0 {
        seq![Seq::<char>::empty()]
    } else {
        let rest = split_lines(s.drop_last());
        if s.last() == '\n' {
            rest.push(Seq::<char>::empty())
        } else {
            rest.update(rest.len() - 1, rest.last().push(s.last()))
        }
    }
}

/// The version the first declaring line of `lines` declares.
pub open spec fn first_declared(lines: Seq<Seq<char>>) -> Option<VersionParts>
    decreases lines.len(),
{
    if lines.len() == 0 {
        None
    } else {
        match line_version(lines[0]) {
            Some(v) => Some(v),
            None => first_declared(lines.drop_first()),
        }
    }
}

/// The version a Gemfile's text declares.
pub open spec fn gemfile_version(content: Seq<char>) -> Option<VersionParts> {
    first_declared(split_lines(content))
}

/// The version a `.ruby-version` file's text holds: the trimmed text, read
/// by `semver`.
pub open spec fn ruby_version_file_version(content: Seq<char>) -> Option<VersionParts> {
    semver_parse(trim(content))
}

/// Index of the first `q` in `s[from..]`, or `s.len()`.
fn find_char(s: &[char], from: usize, q: char) -> (k: usize)
    requires
        from <= s@.len(),
    ensures
        from <= k <= s@.len(),
        forall|j: int| from <= j < k ==> s@[j] != q,
        k < s@.len() ==> s@[k as int] == q,
{
    let mut k = from;
    while k < s.len() && s[k] != q
        invariant
            from <= k <= s@.len(),
            forall|j: int| from <= j < k ==> s@[j] != q,
        decreases s.len() - k,
    {
        k = k + 1;
    }
    k
}

/// `take_until` of a suffix, given where the first quote stands.
proof fn lemma_take_until(s: Seq<char>, from: int, k: int, q: char)
    requires
        0 <= from <= k <= s.len(),
        forall|j: int| from <= j < k ==> s[j] != q,
        k < s.len() ==> s[k] == q,
    ensures
        take_until(s.subrange(from, s.len() as int), q) == s.subrange(from, k),
        s.subrange(from, s.len() as int).contains(q) <==> k < s.len(),
    decreases k - from,
{
    let t = s.subrange(from, s.len() as int);
    if from == k {
        if k < s.len() {
            assert(t[0] == q);
        } else {
            assert(t.len() == 0);
        }
        assert(s.subrange(from, k) =~= Seq::<char>::empty());
    } else {
        assert(t.drop_first() =~= s.subrange(from + 1, s.len() as int));
        lemma_take_until(s, from + 1, k, q);
        assert(s.subrange(from, k) =~= seq![s[from]] + s.subrange(from + 1, k));
        if t.contains(q) {
            let i = choose|i: int| 0 <= i < t.len() && t[i] == q;
            assert(i > 0);
            assert(t.drop_first()[i - 1] == q);
        }
        if k < s.len() {
            assert(t.drop_first()[k - from - 1] == q);
        }
    }
}

/// The quoted text of `rest` opened by `q` (see [`quoted_with`]).
fn quoted_text(rest: &[char], q: char) -> (r: Option<String>)
    ensures
        opt_view(r) == quoted_with(rest@, q),
{
    if rest.len() == 0 || rest[0] != q {
        return None;
    }
    let k = find_char(rest, 1, q);
    proof {
        lemma_take_until(rest@, 1, k as int, q);
        assert(rest@.drop_first() =~= rest@.subrange(1, rest@.len() as int));
    }
    if k == rest.len() {
        None
    } else {
        Some(slice_string(rest, 1, k))
    }
}

/// Reads the Ruby version from the `ruby` line of a Gemfile.
pub struct GemfileDetector;

impl GemfileDetector {
    /// The version text of a line `ruby '<v>'` or `ruby "<v>"` (see
    /// [`quoted_version`]); `None` for any other line.
    pub fn extract_quoted_version(line: &str) -> (r: Option<String>)
        ensures
            opt_view(r) == quoted_version(line@),
    {
        let v = chars_of(line);
        let prefix = chars_of("ruby ");
        let prefixed = has_prefix_at(v.as_slice(), 0, prefix.as_slice());
        proof {
            assert(v@.subrange(0, v@.len() as int) =~= v@);
        }
        if !prefixed {
            return None;
        }
        proof {
            reveal_strlit("ruby ");
        }
        let after = slice_string(v.as_slice(), 5, v.len());
        let rest = trim_str(after.as_str());
        let rv = chars_of(rest.as_str());
        match quoted_text(rv.as_slice(), '\'') {
            Some(s) => Some(s),
            None => quoted_text(rv.as_slice(), '"'),
        }
    }

    /// The version a Gemfile line declares (see [`line_version`]).
    pub fn line_version(line: &str) -> (r: Option<RubyVersion>)
        ensures
            opt_parts(r) == line_version(line@),
    {
        let t = trim_str(line);
        if !crate::text::str_starts_with(t.as_str(), "ruby ") {
            return None;
        }
        match Self::extract_quoted_version(t.as_str()) {
            Some(v) => RubyVersion::parse(v.as_str()),
            None => None,
        }
    }

    /// The version a Gemfile's text declares: that of its first line that
    /// declares one.
    pub fn detect_in(content: &str) -> (r: Option<RubyVersion>)
        ensures
            opt_parts(r) == gemfile_version(content@),
    {
        let lines = split_lines_of(content);
        let mut i: usize = 0;
        proof {
            assert(lines@.len() == split_lines(content@).len());
            assert(split_lines(content@).subrange(0, lines@.len() as int) =~= split_lines(content@));
        }
        while i < lines.len()
            invariant
                i <= lines@.len(),
                strings_view(lines@) == split_lines(content@),
                first_declared(split_lines(content@)) == first_declared(
                    split_lines(content@).subrange(i as int, lines@.len() as int),
                ),
            decreases lines.len() - i,
        {
            let ghost all = split_lines(content@);
            proof {
                let rest = all.subrange(i as int, all.len() as int);
                assert(rest[0] == all[i as int]);
                assert(rest.drop_first() =~= all.subrange(i + 1, all.len() as int));
                assert(all[i as int] == lines@[i as int]@);
            }
            let found = Self::line_version(lines[i].as_str());
            if found.is_some() {
                return found;
            }
            i = i + 1;
        }
        proof {
            assert(split_lines(content@).subrange(i as int, lines@.len() as int) =~= Seq::<
                Seq<char>,
            >::empty());
        }
        None
    }

    /// The version the project's Gemfile declares, if it was read and
    /// declares one.
    pub fn detect(&self, sources: &VersionSources) -> (r: Option<RubyVersion>)
        ensures
            opt_parts(r) == match sources.gemfile {
                Some(c) => gemfile_version(c@),
                None => None,
            },
    {
        match &sources.gemfile {
            Some(c) => Self::detect_in(c.as_str()),
            None => None,
        }
    }

    /// The detector's name.
    pub fn name(&self) -> (r: &'static str)
        ensures
            r@ == "Gemfile"@,
    {
        "Gemfile"
    }
}

/// The texts of a sequence of strings.
pub open spec fn strings_view(v: Seq<String>) -> Seq<Seq<char>> {
    v.map_values(|s: String| s@)
}

/// The lines of a text (see [`split_lines`]).
pub fn split_lines_of(content: &str) -> (r: Vec<String>)
    ensures
        strings_view(r@) == split_lines(content@),
{
    let v = chars_of(content);
    let mut done: Vec<String> = Vec::new();
    let mut start: usize = 0;
    let mut i: usize = 0;
    proof {
        assert(strings_view(done@) =~= Seq::<Seq<char>>::empty());
        assert(v@.subrange(0, 0) =~= Seq::<char>::empty());
        assert(strings_view(done@).push(v@.subrange(0, 0)) =~= seq![Seq::<char>::empty()]);
    }
    while i < v.len()
        invariant
            start <= i <= v@.len(),
            v@ == content@,
            strings_view(done@).push(v@.subrange(start as int, i as int)) == split_lines(
                v@.subrange(0, i as int),
            ),
        decreases v.len() - i,
    {
        let ghost pre = v@.subrange(0, i as int);
        let ghost cur = v@.subrange(start as int, i as int);
        proof {
            assert(v@.subrange(0, i + 1).drop_last() =~= pre);
            assert(v@.subrange(0, i + 1).last() == v@[i as int]);
        }
        if v[i] == '\n' {
            let line = slice_string(v.as_slice(), start, i);
            done.push(line);
            start = i + 1;
            proof {
                assert(v@.subrange(start as int, i + 1) =~= Seq::<char>::empty());
                assert(strings_view(done@) =~= strings_view(done@.drop_last()).push(cur));
            }
        } else {
            proof {
                let s = strings_view(done@).push(cur);
                assert(cur.push(v@[i as int]) =~= v@.subrange(start as int, i + 1));
                assert(s.update(s.len() - 1, cur.push(v@[i as int])) =~= strings_view(done@).push(
                    v@.subrange(start as int, i + 1),
                ));
            }
        }
        i = i + 1;
    }
    let last = slice_string(v.as_slice(), start, v.len());
    done.push(last);
    proof {
        assert(v@.subrange(0, v@.len() as int) =~= v@);
        assert(strings_view(done@) =~= strings_view(done@.drop_last()).push(last@));
    }
    done
}

/// Reads the Ruby version from a `.ruby-version` file.
pub struct RubyVersionFileDetector;

impl RubyVersionFileDetector {
    /// The version a `.ruby-version` text holds: the trimmed text, read by
    /// `semver`.
    pub fn detect_in(content: &str) -> (r: Option<RubyVersion>)
        ensures
            opt_parts(r) == ruby_version_file_version(content@),
    {
        let t = trim_str(content);
        RubyVersion::parse(t.as_str())
    }

    /// The version the project's `.ruby-version` file holds, if it was read
    /// and holds one.
    pub fn detect(&self, sources: &VersionSources) -> (r: Option<RubyVersion>)
        ensures
            opt_parts(r) == match sources.ruby_version_file {
                Some(c) => ruby_version_file_version(c@),
                None => None,
            },
    {
        match &sources.ruby_version_file {
            Some(c) => Self::detect_in(c.as_str()),
            None => None,
        }
    }

    /// The detector's name.
    pub fn name(&self) -> (r: &'static str)
        ensures
            r@ == ".ruby-version"@,
    {
        ".ruby-version"
    }
}

/// A source of a project's Ruby version requirement.
#[derive(Debug, Clone, Copy, PartialEq, Eq, Structural)]
pub enum RubyVersionDetector {
    /// The `.ruby-version` file.
    RubyVersionFile,
    /// The `ruby` line of the Gemfile.
    Gemfile,
}

/// The version a detector finds in the sources.
pub open spec fn detected_by(d: RubyVersionDetector, sources: VersionSources) -> Option<VersionParts> {
    match d {
        RubyVersionDetector::RubyVersionFile => match sources.ruby_version_file {
            Some(c) => ruby_version_file_version(c@),
            None => None,
        },
        RubyVersionDetector::Gemfile => match sources.gemfile {
            Some(c) => gemfile_version(c@),
            None => None,
        },
    }
}

/// The version the first detector of `ds` that finds one finds.
pub open spec fn first_detected(ds: Seq<RubyVersionDetector>, sources: VersionSources) -> Option<VersionParts>
    decreases ds.len(),
{
    if ds.len() == 0 {
        None
    } else {
        match detected_by(ds[0], sources) {
            Some(v) => Some(v),
            None => first_detected(ds.drop_first(), sources),
        }
    }
}

impl RubyVersionDetector {
    /// The version this detector finds in the sources.
    pub fn detect(&self, sources: &VersionSources) -> (r: Option<RubyVersion>)
        ensures
            opt_parts(r) == detected_by(*self, *sources),
    {
        match self {
            RubyVersionDetector::RubyVersionFile => RubyVersionFileDetector.detect(sources),
            RubyVersionDetector::Gemfile => GemfileDetector.detect(sources),
        }
    }

    /// The detector's name.
    pub fn name(&self) -> (r: &'static str)
        ensures
            *self == RubyVersionDetector::RubyVersionFile ==> r@ == ".ruby-version"@,
            *self == RubyVersionDetector::Gemfile ==> r@ == "Gemfile"@,
    {
        match self {
            RubyVersionDetector::RubyVersionFile => RubyVersionFileDetector.name(),
            RubyVersionDetector::Gemfile => GemfileDetector.name(),
        }
    }
}

/// Detectors tried in order; the first that finds a version decides.
#[derive(Debug, Clone)]
pub struct CompositeDetector {
    pub detectors: Vec<RubyVersionDetector>,
}

impl CompositeDetector {
    /// A composite of the given detectors, in priority order.
    pub fn new(detectors: Vec<RubyVersionDetector>) -> (r: CompositeDetector)
        ensures
            r.detectors@ == detectors@,
    {
        CompositeDetector { detectors }
    }

    /// The standard order: `.ruby-version` first, then the Gemfile.
    pub fn standard() -> (r: CompositeDetector)
        ensures
            r.detectors@ == seq![RubyVersionDetector::RubyVersionFile, RubyVersionDetector::Gemfile],
    {
        let mut v: Vec<RubyVersionDetector> = Vec::new();
        v.push(RubyVersionDetector::RubyVersionFile);
        v.push(RubyVersionDetector::Gemfile);
        proof {
            assert(v@ =~= seq![RubyVersionDetector::RubyVersionFile, RubyVersionDetector::Gemfile]);
        }
        CompositeDetector { detectors: v }
    }

    /// The version the first detector that finds one finds.
    pub fn detect(&self, sources: &VersionSources) -> (r: Option<RubyVersion>)
        ensures
            opt_parts(r) == first_detected(self.detectors@, *sources),
    {
        let mut i: usize = 0;
        proof {
            assert(self.detectors@.subrange(0, self.detectors@.len() as int) =~= self.detectors@);
        }
        while i < self.detectors.len()
            invariant
                i <= self.detectors@.len(),
                first_detected(self.detectors@, *sources) == first_detected(
                    self.detectors@.subrange(i as int, self.detectors@.len() as int),
                    *sources,
                ),
            decreases self.detectors.len() - i,
        {
            proof {
                let ds = self.detectors@;
                let rest = ds.subrange(i as int, ds.len() as int);
                assert(rest[0] == ds[i as int]);
                assert(rest.drop_first() =~= ds.subrange(i + 1, ds.len() as int));
            }
            let found = self.detectors[i].detect(sources);
            if found.is_some() {
                return found;
            }
            i = i + 1;
        }
        proof {
            assert(self.detectors@.subrange(i as int, self.detectors@.len() as int) =~= Seq::<
                RubyVersionDetector,
            >::empty());
        }
        None
    }

    /// Appends a detector to the chain.
    pub fn add_detector(&mut self, detector: RubyVersionDetector)
        ensures
            final(self).detectors@ == old(self).detectors@.push(detector),
    {
        self.detectors.push(detector);
    }
}

} // verus!
