//! Parsing of commit messages: the subject line into type, scope and
//! description, and the lines after it into body and footers.

use vstd::prelude::*;

use crate::footers::Footers;
use crate::text::{
    chars_of, is_white_space, is_word_char, line_ranges, lines, pieces, push_char, push_range,
    string_of, string_views, strip_cr, strip_cr_string, trim, trimmed_range, white_space,
    word_char,
};

verus! {

/// The end of the run of word characters that starts at index `i` of `s`.
pub open spec fn word_end(s: Seq<char>, i: int) -> int
    decreases s.len() - i,
{
    if 0 <= i < s.len() && word_char(s[i]) {
        word_end(s, i + 1)
    } else {
        i
    }
}

/// The index of the first `c` at or after index `i` of `s`, or `s.len()`.
pub open spec fn index_of(s: Seq<char>, c: char, i: int) -> int
    decreases s.len() - i,
{
    if 0 <= i < s.len() && s[i] != c {
        index_of(s, c, i + 1)
    } else {
        i
    }
}

/// The parts of a subject of the shape `type(scope)!: description`, if it
/// has that shape: a non-empty run of word characters; optionally a scope in
/// parentheses that holds no `)`, where `()` gives a scope that is present but
/// empty; optionally `!`; a colon; optionally one whitespace character; then a
/// description that holds no line feed.
/// These are the captures of the regular expression
/// `^(\w+)(?:\(([^)]*)\))?(?:!)?:\s?(.*)$` under leftmost-first matching:
/// since none of `(`, `!` and `:` is a word character, each optional part is
/// taken exactly when it is there.
pub open spec fn subject_parts(s: Seq<char>) -> Option<(Seq<char>, Option<Seq<char>>, Seq<char>)> {
    let k = word_end(s, 0);
    let has_scope = k < s.len() && s[k] == '(';
    let j = index_of(s, ')', k + 1);
    let p = if has_scope { j + 1 } else { k };
    let q = if p < s.len() && s[p] == '!' { p + 1 } else { p };
    let d = if q + 1 < s.len() && white_space(s[q + 1]) { q + 2 } else { q + 1 };
    let description = s.subrange(d, s.len() as int);
    if k == 0 {
        None
    } else if has_scope && j >= s.len() {
        None
    } else if q >= s.len() || s[q] != ':' {
        None
    } else if description.contains('\n') {
        None
    } else {
        Some(
            (
                s.subrange(0, k),
                if has_scope { Some(s.subrange(k + 1, j)) } else { None },
                description,
            ),
        )
    }
}

/// Type, scope and description of a subject line. A subject without the
/// conventional shape has neither type nor scope, and is its own description.
pub open spec fn subject_fields(s: Seq<char>) -> (Option<Seq<char>>, Option<Seq<char>>, Option<Seq<char>>) {
    match subject_parts(s) {
        Some((t, scope, description)) => (Some(t), scope, Some(description)),
        None => (None, None, Some(s)),
    }
}

proof fn lemma_word_end(s: Seq<char>, i: int, e: int)
    requires
        0 <= i <= e <= s.len(),
        forall|m: int| i <= m < e ==> word_char(#[trigger] s[m]),
        e == s.len() || !word_char(s[e]),
    ensures
        word_end(s, i) == e,
    decreases e - i,
{
    if i < e {
        lemma_word_end(s, i + 1, e);
    }
}

proof fn lemma_index_of(s: Seq<char>, c: char, i: int, e: int)
    requires
        0 <= i <= e < s.len(),
        forall|m: int| i <= m < e ==> #[trigger] s[m] != c,
        s[e] == c,
    ensures
        index_of(s, c, i) == e,
    decreases e - i,
{
    if i < e {
        lemma_index_of(s, c, i + 1, e);
    }
}

/// Reparsing the subject `{type}({scope}): {description}` gives back the
/// three parts, for every type that is a run of word characters, every
/// scope without `)` (the empty one included) and every description on one
/// line.
pub proof fn subject_round_trip(t: Seq<char>, scope: Seq<char>, description: Seq<char>)
    requires
        t.len() > 0,
        forall|i: int| 0 <= i < t.len() ==> word_char(#[trigger] t[i]),
        !scope.contains(')'),
        !description.contains('\n'),
    ensures
        subject_fields(t + seq!['('] + scope + seq![')', ':', ' '] + description) == (
            Some(t),
            Some(scope),
            Some(description),
        ),
{
    let s = t + seq!['('] + scope + seq![')', ':', ' '] + description;
    let k = t.len() as int;
    let j = k + 1 + scope.len();
    assert(s[k] == '(');
    assert forall|m: int| 0 <= m < k implies word_char(#[trigger] s[m]) by {
        assert(s[m] == t[m]);
    }
    lemma_word_end(s, 0, k);
    assert forall|m: int| k + 1 <= m < j implies #[trigger] s[m] != ')' by {
        assert(s[m] == scope[m - k - 1]);
    }
    assert(s[j] == ')');
    lemma_index_of(s, ')', k + 1, j);
    assert(s[j + 1] == ':');
    assert(s[j + 2] == ' ');
    assert(s.subrange(0, k) =~= t);
    assert(s.subrange(k + 1, j) =~= scope);
    assert(s.subrange(j + 3, s.len() as int) =~= description);
}

/// Which commits to read messages from, in the manner of `git log`.
#[derive(Clone, Debug)]
pub struct ReadCommitMessageOptions {
    /// The commit the range starts after.
    pub from: Option<String>,
    /// The path whose history is read.
    pub path: String,
    /// The commit the range ends at.
    pub to: Option<String>,
}

/// The revision range of `git log` for the given ends: `from..to`, with
/// `HEAD` for a missing end, or just `HEAD` when both are missing.
pub open spec fn range_text(from: Option<String>, to: Option<String>) -> Seq<char> {
    match (from, to) {
        (Some(f), Some(t)) => f@ + ".."@ + t@,
        (Some(f), None) => f@ + "..HEAD"@,
        (None, Some(t)) => "HEAD.."@ + t@,
        (None, None) => "HEAD"@,
    }
}

impl ReadCommitMessageOptions {
    /// The revision range to read.
    pub fn revision_range(&self) -> (r: String)
        ensures
            r@ == range_text(self.from, self.to),
    {
        match (&self.from, &self.to) {
            (Some(f), Some(t)) => {
                let mut r = f.clone();
                r.append("..");
                r.append(t.as_str());
                r
            },
            (Some(f), None) => {
                let mut r = f.clone();
                r.append("..HEAD");
                r
            },
            (None, Some(t)) => {
                let mut r = "HEAD..".to_owned();
                r.append(t.as_str());
                r
            },
            (None, None) => "HEAD".to_owned(),
        }
    }
}

/// The characters of an optional string.
pub open spec fn opt_view(o: Option<String>) -> Option<Seq<char>> {
    match o {
        Some(s) => Some(s@),
        None => None,
    }
}

/// Parses a commit subject into type, scope and description.
///
/// The `!` that marks a breaking change is accepted after the type or scope
/// and otherwise ignored.
pub fn parse_subject(subject: &str) -> (r: (Option<String>, Option<String>, Option<String>))
    ensures
        (opt_view(r.0), opt_view(r.1), opt_view(r.2)) == subject_fields(subject@),
        r.2 is Some,
{
    let s = chars_of(subject);
    let n = s.len();
    let ghost sv = subject@;
    let mut k: usize = 0;
    while k < n && is_word_char(s[k])
        invariant
            s@ == sv,
            n == sv.len(),
            0 <= k <= n,
            word_end(sv, 0) == word_end(sv, k as int),
        decreases n - k,
    {
        k += 1;
    }
    if k == 0 {
        return (None, None, Some(subject.to_owned()));
    }
    let has_scope = k < n && s[k] == '(';
    let mut p: usize = k;
    let mut scope: Option<String> = None;
    if has_scope {
        let mut j: usize = k + 1;
        while j < n && s[j] != ')'
            invariant
                s@ == sv,
                n == sv.len(),
                k + 1 <= j <= n,
                index_of(sv, ')', k + 1) == index_of(sv, ')', j as int),
            decreases n - j,
        {
            j += 1;
        }
        if j >= n {
            return (None, None, Some(subject.to_owned()));
        }
        scope = Some(string_of(&s, k + 1, j));
        p = j + 1;
    }
    let q: usize = if p < n && s[p] == '!' { p + 1 } else { p };
    if q >= n || s[q] != ':' {
        return (None, None, Some(subject.to_owned()));
    }
    let d: usize = if q + 1 < n && is_white_space(s[q + 1]) { q + 2 } else { q + 1 };
    let mut e: usize = d;
    while e < n && s[e] != '\n'
        invariant
            s@ == sv,
            n == sv.len(),
            d <= e <= n,
            forall|t: int| d <= t < e ==> sv[t] != '\n',
        decreases n - e,
    {
        e += 1;
    }
    let ghost description = sv.subrange(d as int, n as int);
    if e < n {
        assert(description[e - d] == '\n');
        return (None, None, Some(subject.to_owned()));
    }
    assert(!description.contains('\n')) by {
        if description.contains('\n') {
            let t = choose|t: int| 0 <= t < description.len() && description[t] == '\n';
            assert(sv[t + d] == '\n');
        }
    }
    (Some(string_of(&s, 0, k)), scope, Some(string_of(&s, d, n)))
}

/// Where the scan of the lines after the subject stands.
#[derive(Clone, Copy, Debug, PartialEq, Eq, Structural)]
pub enum Section {
    /// No body line seen yet.
    BeforeBody,
    /// Collecting body lines.
    InBody,
    /// Past the blank line that ends the body: reading footers.
    InFooter,
}

/// What the scan has gathered: where it stands, the body and the footers.
pub type ScanState = (Section, Option<Seq<char>>, Option<Map<Seq<char>, Seq<char>>>);

/// The key and value of a footer line: the text before and after its first
/// colon, each trimmed. A line without a colon is no footer.
pub open spec fn footer_entry(line: Seq<char>) -> Option<(Seq<char>, Seq<char>)> {
    let c = index_of(line, ':', 0);
    if c < line.len() {
        Some((trim(line.subrange(0, c)), trim(line.subrange(c + 1, line.len() as int))))
    } else {
        None
    }
}

/// One step of the scan. A blank line ends the body and otherwise changes
/// nothing; the first non-blank line starts the body; later non-blank lines
/// extend it, one line feed between lines, until the body has ended; after
/// that each footer line sets its key, and other lines are passed over.
pub open spec fn scan_line(st: ScanState, line: Seq<char>) -> ScanState {
    let (section, body, footers) = st;
    let text = trim(line);
    if text.len() == 0 {
        if section == Section::InBody {
            (Section::InFooter, body, footers)
        } else {
            st
        }
    } else if section == Section::InFooter {
        match footer_entry(line) {
            Some((k, v)) => (
                section,
                body,
                Some(footers.unwrap_or(Map::empty()).insert(k, v)),
            ),
            None => st,
        }
    } else if section == Section::BeforeBody {
        (Section::InBody, Some(text), footers)
    } else {
        (section, Some(body.unwrap_or(Seq::empty()) + seq!['\n'] + text), footers)
    }
}

/// The scan of a sequence of lines, from the first to the last.
pub open spec fn scan_lines(ls: Seq<Seq<char>>) -> ScanState
    decreases ls.len(),
{
    if ls.len() == 0 {
        (Section::BeforeBody, None, None)
    } else {
        scan_line(scan_lines(ls.drop_last()), ls.last())
    }
}

/// Subject, body and footers of a commit message: the subject is its first
/// line, trimmed (empty for an empty message); body and footers come from
/// the scan of the lines after it.
pub open spec fn commit_parts(m: Seq<char>) -> (Seq<char>, Option<Seq<char>>, Option<Map<Seq<char>, Seq<char>>>) {
    let ls = lines(m);
    if ls.len() == 0 {
        (Seq::empty(), None, None)
    } else {
        let st = scan_lines(ls.subrange(1, ls.len() as int));
        (trim(ls[0]), st.1, st.2)
    }
}

/// The mapping of optional footers.
pub open spec fn footers_view(o: Option<Footers>) -> Option<Map<Seq<char>, Seq<char>>> {
    match o {
        Some(f) => Some(f@),
        None => None,
    }
}

/// The first colon in `v[lo..hi]`, or `hi`.
fn colon_in(v: &Vec<char>, lo: usize, hi: usize) -> (r: usize)
    requires
        lo <= hi <= v@.len(),
    ensures
        lo <= r <= hi,
        r - lo == index_of(v@.subrange(lo as int, hi as int), ':', 0),
{
    let ghost line = v@.subrange(lo as int, hi as int);
    let mut c: usize = lo;
    while c < hi && v[c] != ':'
        invariant
            lo <= c <= hi <= v@.len(),
            line == v@.subrange(lo as int, hi as int),
            index_of(line, ':', 0) == index_of(line, ':', c - lo),
        decreases hi - c,
    {
        assert(line[c - lo] == v@[c as int]);
        c += 1;
    }
    if c < hi {
        assert(line[c - lo] == v@[c as int]);
    }
    c
}

/// Splits a commit message into its subject, body and footers.
///
/// The subject is the first line, trimmed. After it, the first non-blank
/// line starts the body and each further non-blank line is added to it, each
/// line trimmed; a blank line ends the body for good. After that, lines of
/// the form `key: value` are footers; a later value for a key replaces an
/// earlier one.
pub fn parse_commit_message(message: &str) -> (r: (String, Option<String>, Option<Footers>))
    ensures
        (r.0@, opt_view(r.1), footers_view(r.2)) == commit_parts(message@),
{
    let v = chars_of(message);
    let ranges = line_ranges(&v);
    let ghost ls = lines(v@);
    if ranges.len() == 0 {
        return (String::new(), None, None);
    }
    assert(ls[0] == v@.subrange(ranges@[0].0 as int, ranges@[0].1 as int));
    let (sa, sb) = trimmed_range(&v, ranges[0].0, ranges[0].1);
    let subject = string_of(&v, sa, sb);
    let mut section = Section::BeforeBody;
    let mut body: Option<String> = None;
    let mut footers: Option<Footers> = None;
    let mut i: usize = 1;
    assert(ls.subrange(1, 1) =~= Seq::<Seq<char>>::empty());
    while i < ranges.len()
        invariant
            1 <= i <= ranges@.len(),
            ls == pieces(v@, ranges@),
            forall|k: int| 0 <= k < ranges@.len() ==> #[trigger] ranges@[k].0 <= ranges@[k].1 <= v@.len(),
            (section, opt_view(body), footers_view(footers)) == scan_lines(ls.subrange(1, i as int)),
        decreases ranges@.len() - i,
    {
        let (lo, hi) = ranges[i];
        let ghost line = v@.subrange(lo as int, hi as int);
        assert(ls[i as int] == line);
        assert(ls.subrange(1, i + 1).drop_last() =~= ls.subrange(1, i as int));
        assert(ls.subrange(1, i + 1).last() == line);
        let (ta, tb) = trimmed_range(&v, lo, hi);
        if ta == tb {
            if section == Section::InBody {
                section = Section::InFooter;
            }
        } else if section == Section::InFooter {
            let c = colon_in(&v, lo, hi);
            if c < hi {
                let (ka, kb) = trimmed_range(&v, lo, c);
                let (va, vb) = trimmed_range(&v, c + 1, hi);
                assert(v@.subrange(lo as int, c as int) =~= line.subrange(0, c - lo));
                assert(v@.subrange(c + 1, hi as int) =~= line.subrange(c - lo + 1, line.len() as int));
                let key = string_of(&v, ka, kb);
                let value = string_of(&v, va, vb);
                let mut f = match footers {
                    Some(f) => f,
                    None => Footers::new(),
                };
                f.insert(key, value);
                footers = Some(f);
            }
        } else if section == Section::BeforeBody {
            section = Section::InBody;
            body = Some(string_of(&v, ta, tb));
        } else {
            let mut text = match body {
                Some(b) => b,
                None => String::new(),
            };
            push_char(&mut text, '\n');
            push_range(&mut text, &v, ta, tb);
            body = Some(text);
        }
        i += 1;
    }
    assert(ls.subrange(1, ls.len() as int) == ls.subrange(1, i as int));
    (subject, body, footers)
}

/// A lower-case hexadecimal digit.
pub open spec fn hex_digit(c: char) -> bool {
    ('0' <= c && c <= '9') || ('a' <= c && c <= 'f')
}

/// A line `commit <hash>` of `git log`: the word `commit`, a space and 40
/// lower-case hexadecimal digits, and nothing else.
pub open spec fn is_commit_header(line: Seq<char>) -> bool {
    &&& line.len() == 47
    &&& line.subrange(0, 7) == seq!['c', 'o', 'm', 'm', 'i', 't', ' ']
    &&& forall|i: int| 7 <= i < 47 ==> hex_digit(#[trigger] line[i])
}

/// The text between commit header lines, from the first line to the last:
/// one piece more than there are headers, each line of a piece followed by a
/// line feed.
pub open spec fn commit_groups(ls: Seq<Seq<char>>) -> Seq<Seq<char>>
    decreases ls.len(),
{
    if ls.len() == 0 {
        seq![Seq::<char>::empty()]
    } else {
        let g = commit_groups(ls.drop_last());
        if is_commit_header(ls.last()) {
            g.push(Seq::<char>::empty())
        } else {
            g.update(g.len() - 1, g.last() + ls.last() + seq!['\n'])
        }
    }
}

/// The messages in the output of `git log`: the text between its commit
/// header lines, each piece trimmed and with its line endings made line
/// feeds. These are the pieces that splitting at `(?m)^commit [0-9a-f]{40}$`
/// leaves, trimmed, their lines joined by line feeds.
pub open spec fn commit_messages(s: Seq<char>) -> Seq<Seq<char>> {
    commit_groups(lines(s)).map_values(|g: Seq<char>| strip_cr(trim(g)))
}

proof fn lemma_commit_groups_nonempty(ls: Seq<Seq<char>>)
    ensures
        commit_groups(ls).len() >= 1,
    decreases ls.len(),
{
    if ls.len() > 0 {
        lemma_commit_groups_nonempty(ls.drop_last());
    }
}

/// Whether `v[lo..hi]` is a commit header line.
fn is_header(v: &Vec<char>, lo: usize, hi: usize) -> (r: bool)
    requires
        lo <= hi <= v@.len(),
    ensures
        r == is_commit_header(v@.subrange(lo as int, hi as int)),
{
    let ghost line = v@.subrange(lo as int, hi as int);
    if hi - lo != 47 {
        return false;
    }
    let word: [char; 7] = ['c', 'o', 'm', 'm', 'i', 't', ' '];
    assert(word@ == seq!['c', 'o', 'm', 'm', 'i', 't', ' ']);
    let mut k: usize = 0;
    while k < 7
        invariant
            k <= 7,
            hi - lo == 47,
            lo <= hi <= v@.len(),
            line == v@.subrange(lo as int, hi as int),
            word@ == seq!['c', 'o', 'm', 'm', 'i', 't', ' '],
            forall|j: int| 0 <= j < k ==> line[j] == word@[j],
        decreases 7 - k,
    {
        if v[lo + k] != word[k] {
            assert(line.subrange(0, 7)[k as int] != word@[k as int]);
            return false;
        }
        k += 1;
    }
    assert(line.subrange(0, 7) =~= word@);
    while k < 47
        invariant
            7 <= k <= 47,
            hi - lo == 47,
            lo <= hi <= v@.len(),
            line == v@.subrange(lo as int, hi as int),
            forall|j: int| 7 <= j < k ==> hex_digit(#[trigger] line[j]),
        decreases 47 - k,
    {
        let c = v[lo + k];
        if !(('0' <= c && c <= '9') || ('a' <= c && c <= 'f')) {
            assert(line[k as int] == c);
            return false;
        }
        k += 1;
    }
    true
}

/// Splits the output of `git log` into commit messages: the text between
/// lines `commit <hash>`, trimmed, with `\r\n` line endings made `\n`.
pub fn extract_commit_messages(input: &str) -> (r: Vec<String>)
    ensures
        string_views(r@) == commit_messages(input@),
{
    let v = chars_of(input);
    let ranges = line_ranges(&v);
    let ghost ls = lines(v@);
    let mut groups: Vec<String> = Vec::new();
    let mut current = String::new();
    let mut i: usize = 0;
    assert(ls.take(0) =~= Seq::<Seq<char>>::empty());
    assert(string_views(groups@).push(current@) =~= seq![Seq::<char>::empty()]);
    while i < ranges.len()
        invariant
            i <= ranges@.len(),
            ls == pieces(v@, ranges@),
            forall|k: int| 0 <= k < ranges@.len() ==> #[trigger] ranges@[k].0 <= ranges@[k].1 <= v@.len(),
            commit_groups(ls.take(i as int)) == string_views(groups@).push(current@),
        decreases ranges@.len() - i,
    {
        let (lo, hi) = ranges[i];
        let ghost line = v@.subrange(lo as int, hi as int);
        assert(ls[i as int] == line);
        assert(ls.take(i + 1).drop_last() =~= ls.take(i as int));
        assert(ls.take(i + 1).last() == line);
        if is_header(&v, lo, hi) {
            let ghost before = string_views(groups@).push(current@);
            let done = current;
            groups.push(done);
            current = String::new();
            assert(string_views(groups@).push(current@) =~= before.push(Seq::<char>::empty()));
        } else {
            let ghost before = current@;
            push_range(&mut current, &v, lo, hi);
            push_char(&mut current, '\n');
            assert(current@ =~= before + line + seq!['\n']);
            assert(string_views(groups@).push(current@) =~= string_views(groups@).push(before).update(
                groups@.len() as int,
                before + line + seq!['\n'],
            ));
        }
        i += 1;
    }
    assert(ls.take(ranges@.len() as int) =~= ls);
    groups.push(current);
    let ghost all = commit_groups(ls);
    assert(string_views(groups@) =~= all);
    let mut r: Vec<String> = Vec::new();
    let mut j: usize = 0;
    while j < groups.len()
        invariant
            j <= groups@.len(),
            string_views(groups@) == all,
            string_views(r@) == all.take(j as int).map_values(|g: Seq<char>| strip_cr(trim(g))),
        decreases groups@.len() - j,
    {
        let gv = chars_of(groups[j].as_str());
        let (a, b) = trimmed_range(&gv, 0, gv.len());
        assert(gv@.subrange(0, gv@.len() as int) =~= gv@);
        let m = strip_cr_string(&gv, a, b);
        assert(string_views(groups@)[j as int] == groups@[j as int]@);
        assert(m@ == strip_cr(trim(all[j as int])));
        r.push(m);
        assert(string_views(r@) =~= string_views(r@).drop_last().push(m@));
        assert(string_views(r@).drop_last() =~= all.take(j as int).map_values(|g: Seq<char>| strip_cr(trim(g))));
        assert(string_views(r@) =~= all.take(j + 1).map_values(|g: Seq<char>| strip_cr(trim(g))));
        j += 1;
    }
    assert(all.take(groups@.len() as int) =~= all);
    r
}

} // verus!
