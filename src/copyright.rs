use vstd::prelude::*;
use vstd::string::*;

use crate::report::LicenseError;
use crate::text::{contains, seq_contains, strings_view};

verus! {

/// Whether a character is white space, as `char::is_whitespace` tells.
pub uninterp spec fn white_space(c: char) -> bool;

/// A text in lower case, as `str::to_lowercase` gives it.
pub uninterp spec fn lowercase_of(s: Seq<char>) -> Seq<char>;

/// Relies on `char::is_whitespace`: whether the character has the Unicode
/// `White_Space` property.
#[verifier::external_body]
fn is_white_space(c: char) -> (r: bool)
    ensures
        r == white_space(c),
{
    c.is_whitespace()
}

/// A text without its leading white space.
pub open spec fn trim_start(s: Seq<char>) -> Seq<char>
    decreases s.len(),
{
    if s.len() > 0 && white_space(s[0]) {
        trim_start(s.drop_first())
    } else {
        s
    }
}

/// A text without its trailing white space.
pub open spec fn trim_end(s: Seq<char>) -> Seq<char>
    decreases s.len(),
{
    if s.len() > 0 && white_space(s.last()) {
        trim_end(s.drop_last())
    } else {
        s
    }
}

/// A text without its leading and trailing white space.
pub open spec fn trimmed_of(s: Seq<char>) -> Seq<char> {
    trim_end(trim_start(s))
}

/// A text without leading and trailing white space, as `str::trim` gives it.
pub fn trim(s: &str) -> (r: String)
    ensures
        r@ == trimmed_of(s@),
{
    let c = crate::text::chars_of(s);
    let n = c.len();
    let mut a: usize = 0;
    assert(s@.skip(0) =~= s@);
    while a < n && is_white_space(c[a])
        invariant
            c@ == s@,
            n == s@.len(),
            a <= n,
            trim_start(s@) == trim_start(s@.skip(a as int)),
        decreases n - a,
    {
        assert(s@.skip(a as int).drop_first() =~= s@.skip(a as int + 1));
        a = a + 1;
    }
    assert(trim_start(s@.skip(a as int)) == s@.skip(a as int));
    let mut b: usize = n;
    while b > a && is_white_space(c[b - 1])
        invariant
            c@ == s@,
            n == s@.len(),
            a <= b <= n,
            trim_end(s@.skip(a as int)) == trim_end(s@.subrange(a as int, b as int)),
        decreases b,
    {
        assert(s@.subrange(a as int, b as int).drop_last() =~= s@.subrange(a as int, b - 1));
        b = b - 1;
    }
    assert(s@.skip(a as int) =~= s@.subrange(a as int, n as int));
    s.substring_char(a, b).to_string()
}

/// Relies on `str::to_lowercase`: the lower-case form of the text.
#[verifier::external_body]
fn lowercase(s: &str) -> (r: String)
    ensures
        r@ == lowercase_of(s@),
{
    s.to_lowercase()
}

/// The position of the first line feed of `s` at or after `i`, or the length
/// of `s` where there is none.
pub open spec fn next_line_feed(s: Seq<char>, i: int) -> int
    decreases s.len() - i,
{
    if i < 0 || i >= s.len() {
        s.len() as int
    } else if s[i] == '\n' {
        i
    } else {
        next_line_feed(s, i + 1)
    }
}

/// A line without one trailing carriage return.
pub open spec fn drop_cr(l: Seq<char>) -> Seq<char> {
    if l.len() > 0 && l.last() == '\r' {
        l.drop_last()
    } else {
        l
    }
}

/// The lines of `s` from position `i` on: split at each line feed, each line
/// ended by one losing a trailing carriage return; the text after the last
/// line feed is a line where it is not empty.
pub open spec fn lines_from(s: Seq<char>, i: int) -> Seq<Seq<char>>
    decreases s.len() - i,
{
    if i < 0 || i >= s.len() {
        seq![]
    } else {
        let j = next_line_feed(s, i);
        if i <= j < s.len() {
            seq![drop_cr(s.subrange(i, j))] + lines_from(s, j + 1)
        } else {
            seq![s.subrange(i, s.len() as int)]
        }
    }
}

/// The lines of a text, as `str::lines` splits it.
pub open spec fn lines_of(s: Seq<char>) -> Seq<Seq<char>> {
    lines_from(s, 0)
}

proof fn lemma_next_line_feed_bounds(s: Seq<char>, i: int)
    requires
        0 <= i <= s.len(),
    ensures
        i <= next_line_feed(s, i) <= s.len(),
        next_line_feed(s, i) < s.len() ==> s[next_line_feed(s, i)] == '\n',
    decreases s.len() - i,
{
    if i < s.len() && s[i] != '\n' {
        lemma_next_line_feed_bounds(s, i + 1);
    }
}

proof fn lemma_no_line_feed(s: Seq<char>, i: int)
    requires
        0 <= i <= s.len(),
        forall|k: int| 0 <= k < s.len() ==> s[k] != '\n',
    ensures
        next_line_feed(s, i) == s.len(),
    decreases s.len() - i,
{
    if i < s.len() {
        lemma_no_line_feed(s, i + 1);
    }
}

/// Splits a text into lines at line feeds, as `str::lines` does: a carriage
/// return before a line feed is dropped, and a final line ending adds no
/// empty line.
pub fn text_lines(s: &str) -> (r: Vec<String>)
    ensures
        strings_view(r@) == lines_of(s@),
{
    let c = crate::text::chars_of(s);
    let n = c.len();
    let mut r: Vec<String> = Vec::new();
    let mut i: usize = 0;
    while i < n
        invariant
            c@ == s@,
            n == s@.len(),
            i <= n,
            strings_view(r@) + lines_from(s@, i as int) == lines_of(s@),
        decreases n - i,
    {
        let mut j: usize = i;
        while j < n && c[j] != '\n'
            invariant
                c@ == s@,
                n == s@.len(),
                i <= j <= n,
                next_line_feed(s@, i as int) == next_line_feed(s@, j as int),
            decreases n - j,
        {
            j = j + 1;
        }
        proof {
            lemma_next_line_feed_bounds(s@, j as int);
        }
        let ghost prev = r@;
        if j < n {
            let end: usize = if j > i && c[j - 1] == '\r' { j - 1 } else { j };
            let line = s.substring_char(i, end).to_string();
            proof {
                assert(drop_cr(s@.subrange(i as int, j as int)) =~= line@);
            }
            r.push(line);
            assert(strings_view(r@) =~= strings_view(prev).push(line@));
            assert(strings_view(r@) + lines_from(s@, j + 1) =~= strings_view(prev)
                + lines_from(s@, i as int));
            i = j + 1;
        } else {
            let line = s.substring_char(i, n).to_string();
            r.push(line);
            assert(strings_view(r@) =~= strings_view(prev).push(line@));
            assert(lines_from(s@, n as int) =~= seq![]);
            assert(strings_view(r@) + lines_from(s@, n as int) =~= strings_view(prev)
                + lines_from(s@, i as int));
            i = n;
        }
    }
    assert(lines_from(s@, i as int) =~= seq![]);
    assert(strings_view(r@) =~= lines_of(s@));
    r
}

/// A line without a leading `//` comment marker.
pub open spec fn strip_comment(l: Seq<char>) -> Seq<char> {
    if l.len() >= 2 && l[0] == '/' && l[1] == '/' {
        l.skip(2)
    } else {
        l
    }
}

/// A line with its comment marker and surrounding white space removed.
pub open spec fn clean_line(l: Seq<char>) -> Seq<char> {
    trimmed_of(strip_comment(l))
}

/// Merging lines from the first on: the paragraphs already closed and the one
/// in progress. An empty line closes the paragraph in progress and starts an
/// empty one; a non-empty line replaces an empty paragraph in progress, or is
/// joined to a non-empty one with a single space.
pub open spec fn merge_state(ls: Seq<Seq<char>>) -> (Seq<Seq<char>>, Seq<char>)
    recommends
        ls.len() > 0,
    decreases ls.len(),
{
    if ls.len() <= 1 {
        (seq![], if ls.len() == 1 { ls[0] } else { seq![] })
    } else {
        let (done, acc) = merge_state(ls.drop_last());
        let b = ls.last();
        if b.len() == 0 {
            (done.push(acc), b)
        } else if acc.len() == 0 {
            (done, b)
        } else {
            (done, acc + seq![' '] + b)
        }
    }
}

/// The paragraphs of a sequence of lines: adjacent non-empty lines joined by
/// single spaces.
pub open spec fn paragraphs(ls: Seq<Seq<char>>) -> Seq<Seq<char>> {
    if ls.len() == 0 {
        seq![]
    } else {
        merge_state(ls).0.push(merge_state(ls).1)
    }
}

/// The paragraphs of a license text.
pub open spec fn paragraphs_of(text: Seq<char>) -> Seq<Seq<char>> {
    paragraphs(lines_of(text).map_values(|l: Seq<char>| clean_line(l)))
}

/// The first of `ps` whose lower-case form, given at the same index in
/// `lowered`, mentions "copyright".
pub open spec fn first_notice(ps: Seq<Seq<char>>, lowered: Seq<Seq<char>>) -> Option<Seq<char>>
    decreases ps.len(),
{
    if ps.len() == 0 || lowered.len() == 0 {
        None
    } else if seq_contains(lowered[0], "copyright"@) {
        Some(ps[0])
    } else {
        first_notice(ps.drop_first(), lowered.drop_first())
    }
}

/// The copyright notice of a license text: its first paragraph that mentions
/// "copyright" in any case.
pub open spec fn notice_of(text: Seq<char>) -> Option<Seq<char>> {
    first_notice(
        paragraphs_of(text),
        paragraphs_of(text).map_values(|p: Seq<char>| lowercase_of(p)),
    )
}

/// A line without a leading `//` comment marker.
pub fn strip_comment_marker(l: &str) -> (r: &str)
    ensures
        r@ == strip_comment(l@),
{
    let n = l.unicode_len();
    if n >= 2 && l.get_char(0) == '/' && l.get_char(1) == '/' {
        l.substring_char(2, n)
    } else {
        l
    }
}

/// Joins adjacent non-empty lines into paragraphs; empty lines separate
/// paragraphs and are dropped, though an empty paragraph may remain where
/// several empty lines follow one another.
pub fn merge_paragraphs(lines: &Vec<String>) -> (r: Vec<String>)
    ensures
        strings_view(r@) == paragraphs(strings_view(lines@)),
{
    let ghost ls = strings_view(lines@);
    if lines.len() == 0 {
        let r: Vec<String> = Vec::new();
        assert(strings_view(r@) =~= paragraphs(ls));
        return r;
    }
    let mut done: Vec<String> = Vec::new();
    let mut acc: String = lines[0].clone();
    assert(ls.take(1).len() == 1);
    assert(strings_view(done@) =~= merge_state(ls.take(1)).0);
    let mut i: usize = 1;
    while i < lines.len()
        invariant
            ls == strings_view(lines@),
            1 <= i <= lines@.len(),
            strings_view(done@) == merge_state(ls.take(i as int)).0,
            acc@ == merge_state(ls.take(i as int)).1,
        decreases lines.len() - i,
    {
        let b = &lines[i];
        let ghost t = ls.take(i as int + 1);
        proof {
            assert(t.drop_last() =~= ls.take(i as int));
            assert(t.last() == b@);
        }
        let bn = b.as_str().unicode_len();
        let an = acc.as_str().unicode_len();
        if bn == 0 {
            let ghost prev = done@;
            done.push(acc);
            acc = b.clone();
            proof {
                assert(strings_view(done@) =~= strings_view(prev).push(merge_state(ls.take(i as int)).1));
            }
        } else if an == 0 {
            acc = b.clone();
        } else {
            let ghost a0 = acc@;
            acc.append(" ");
            acc.append(b.as_str());
            proof {
                reveal_strlit(" ");
            }
            assert(acc@ =~= a0 + seq![' '] + b@);
            assert(acc@ =~= merge_state(ls.take(i as int)).1 + seq![' '] + b@);
        }
        i = i + 1;
    }
    assert(ls.take(i as int) =~= ls);
    let ghost prev = done@;
    done.push(acc);
    assert(strings_view(done@) =~= strings_view(prev).push(merge_state(ls).1));
    done
}

/// The first paragraph whose lower-case form mentions "copyright", where
/// `lowered` holds the lower-case form of each paragraph at the same index.
pub fn select_notice(paragraphs: &Vec<String>, lowered: &Vec<String>) -> (r: Option<String>)
    ensures
        match first_notice(strings_view(paragraphs@), strings_view(lowered@)) {
            Some(p) => r matches Some(s) && s@ == p,
            None => r is None,
        },
{
    let ghost ps = strings_view(paragraphs@);
    let ghost ls = strings_view(lowered@);
    let mut i: usize = 0;
    assert(ps.skip(0) =~= ps);
    assert(ls.skip(0) =~= ls);
    while i < paragraphs.len() && i < lowered.len()
        invariant
            ps == strings_view(paragraphs@),
            ls == strings_view(lowered@),
            i <= paragraphs@.len(),
            i <= lowered@.len(),
            first_notice(ps, ls) == first_notice(ps.skip(i as int), ls.skip(i as int)),
        decreases paragraphs.len() - i,
    {
        if contains(lowered[i].as_str(), "copyright") {
            assert(ps.skip(i as int)[0] == paragraphs@[i as int]@);
            return Some(paragraphs[i].clone());
        }
        assert(ps.skip(i as int).drop_first() =~= ps.skip(i as int + 1));
        assert(ls.skip(i as int).drop_first() =~= ls.skip(i as int + 1));
        i = i + 1;
    }
    None
}

/// Recovers the copyright line of a license text: each line loses a leading
/// `//` and surrounding white space, adjacent non-empty lines are merged, and
/// the first merged paragraph that mentions "copyright" in any case is the
/// result. Fails with the whole text where none does.
pub fn recover_copyright_notice(license_text: &str) -> (r: Result<String, LicenseError>)
    ensures
        match notice_of(license_text@) {
            Some(n) => r matches Ok(s) && s@ == n,
            None => r matches Err(LicenseError::UnableToRecoverAttribution(t)) && t@
                == license_text@,
        },
{
    let raw = text_lines(license_text);
    let mut cleaned: Vec<String> = Vec::new();
    let mut i: usize = 0;
    while i < raw.len()
        invariant
            i <= raw@.len(),
            strings_view(cleaned@) == strings_view(raw@).take(i as int).map_values(
                |l: Seq<char>| clean_line(l),
            ),
        decreases raw.len() - i,
    {
        let c = trim(strip_comment_marker(raw[i].as_str()));
        let ghost prev = cleaned@;
        cleaned.push(c);
        assert(strings_view(raw@)[i as int] == raw@[i as int]@);
        assert(strings_view(cleaned@) =~= strings_view(prev).push(c@));
        assert(strings_view(cleaned@) =~= strings_view(raw@).take(i as int + 1).map_values(
            |l: Seq<char>| clean_line(l),
        ));
        i = i + 1;
    }
    assert(strings_view(raw@).take(i as int) =~= strings_view(raw@));
    let paras = merge_paragraphs(&cleaned);
    let mut lowered: Vec<String> = Vec::new();
    let mut k: usize = 0;
    while k < paras.len()
        invariant
            k <= paras@.len(),
            strings_view(lowered@) == strings_view(paras@).take(k as int).map_values(
                |p: Seq<char>| lowercase_of(p),
            ),
        decreases paras.len() - k,
    {
        let low = lowercase(paras[k].as_str());
        let ghost prev = lowered@;
        let ghost lv = low@;
        lowered.push(low);
        assert(strings_view(paras@)[k as int] == paras@[k as int]@);
        assert(strings_view(lowered@) =~= strings_view(prev).push(lv));
        assert(strings_view(lowered@) =~= strings_view(paras@).take(k as int + 1).map_values(
            |p: Seq<char>| lowercase_of(p),
        ));
        k = k + 1;
    }
    assert(strings_view(paras@).take(k as int) =~= strings_view(paras@));
    match select_notice(&paras, &lowered) {
        Some(n) => Ok(n),
        None => Err(LicenseError::UnableToRecoverAttribution(license_text.to_string())),
    }
}

/// A single line that is already clean (no line feed, no comment marker, no
/// surrounding white space) and mentions "copyright" in any case is its own
/// copyright notice: extraction gives it back unchanged.
pub proof fn lemma_single_line_notice(l: Seq<char>)
    requires
        l.len() > 0,
        forall|k: int| 0 <= k < l.len() ==> l[k] != '\n',
        !white_space(l[0]),
        !white_space(l.last()),
        !(l.len() >= 2 && l[0] == '/' && l[1] == '/'),
        seq_contains(lowercase_of(l), "copyright"@),
    ensures
        notice_of(l) == Some(l),
{
    lemma_no_line_feed(l, 0);
    assert(l.subrange(0, l.len() as int) =~= l);
    assert(lines_of(l) =~= seq![l]);
    assert(strip_comment(l) == l);
    assert(trim_start(l) == l);
    assert(trim_end(l) == l);
    let cleaned = lines_of(l).map_values(|x: Seq<char>| clean_line(x));
    assert(cleaned =~= seq![l]);
    assert(merge_state(cleaned) == (Seq::<Seq<char>>::empty(), l));
    assert(paragraphs_of(l) =~= seq![l]);
    let lowered = paragraphs_of(l).map_values(|p: Seq<char>| lowercase_of(p));
    assert(lowered =~= seq![lowercase_of(l)]);
}

} // verus!
