//! The snap declaration that the daemon returns for a snap id, and how it is read.
use vstd::prelude::*;

use std::borrow::Cow;

use vstd::utf8::{decode_utf8, valid_utf8};

use super::json::ParseError;
use super::Payload;
use super::snap::{SnapId, SnapName};

verus! {

/// Why no snap name could be found for an id.
#[derive(Debug, Clone, Copy, PartialEq, Eq)]
pub enum SnapDeclarationError {
    /// No snap has that id.
    NoSnapsFound,
}

/// What a snap declaration says: a snap's id and its name.
#[derive(Debug, Hash, PartialEq, Eq, Default)]
pub struct SnapDeclaration<'a> {
    pub snap_id: SnapId<'a>,
    pub snap_name: SnapName<'a>,
}

/// Index `i` holds the first `c` of `s`.
pub open spec fn is_first_of(s: Seq<char>, c: char, i: int) -> bool {
    &&& 0 <= i < s.len()
    &&& s[i] == c
    &&& forall|j: int| 0 <= j < i ==> s[j] != c
}

/// The first index of `c` in `s`, if it holds one.
pub open spec fn first_of(s: Seq<char>, c: char) -> Option<int> {
    if exists|i: int| is_first_of(s, c, i) {
        Some(choose|i: int| is_first_of(s, c, i))
    } else {
        None
    }
}

/// `l` without a final carriage return.
pub open spec fn strip_cr(l: Seq<char>) -> Seq<char> {
    if l.len() > 0 && l.last() == '\r' {
        l.drop_last()
    } else {
        l
    }
}

/// The lines of `t`: split at each line feed, with a carriage return before it dropped; a text
/// that ends with a line feed has no empty last line.
pub open spec fn text_lines(t: Seq<char>) -> Seq<Seq<char>>
    decreases t.len(),
{
    if t.len() == 0 {
        Seq::empty()
    } else {
        match first_of(t, '\n') {
            Some(i) => if 0 <= i < t.len() {
                seq![strip_cr(t.subrange(0, i))] + text_lines(t.subrange(i + 1, t.len() as int))
            } else {
                Seq::empty()
            },
            None => seq![strip_cr(t)],
        }
    }
}

/// Whether `c` has the Unicode property White_Space.
pub open spec fn is_white_space(c: char) -> bool {
    ('\u{9}' <= c <= '\u{d}') || c == ' ' || c == '\u{85}' || c == '\u{a0}' || c == '\u{1680}'
        || ('\u{2000}' <= c <= '\u{200a}') || c == '\u{2028}' || c == '\u{2029}' || c
        == '\u{202f}' || c == '\u{205f}' || c == '\u{3000}'
}

/// `s` without its leading white space.
pub open spec fn trimmed_start(s: Seq<char>) -> Seq<char>
    decreases s.len(),
{
    if s.len() > 0 && is_white_space(s[0]) {
        trimmed_start(s.drop_first())
    } else {
        s
    }
}

/// `s` without its trailing white space.
pub open spec fn trimmed_end(s: Seq<char>) -> Seq<char>
    decreases s.len(),
{
    if s.len() > 0 && is_white_space(s.last()) {
        trimmed_end(s.drop_last())
    } else {
        s
    }
}

/// `s` without the white space at either end.
pub open spec fn trimmed(s: Seq<char>) -> Seq<char> {
    trimmed_end(trimmed_start(s))
}

/// Whether `s` begins with `p`.
pub open spec fn begins_with(s: Seq<char>, p: Seq<char>) -> bool {
    s.len() >= p.len() && s.subrange(0, p.len() as int) == p
}

/// The trimmed text after the first `:` of `line`, if it holds one.
pub open spec fn value_of(line: Seq<char>) -> Option<Seq<char>> {
    match first_of(line, ':') {
        Some(i) => Some(trimmed(line.subrange(i + 1, line.len() as int))),
        None => None,
    }
}

/// Whether `line` is meant to set a field: it begins with `snap-name` or `snap-id`.
pub open spec fn sets_field(line: Seq<char>) -> bool {
    begins_with(line, "snap-name"@) || begins_with(line, "snap-id"@)
}

/// The id and name read so far, after one more line: a line that begins with `snap-name` or
/// `snap-id` sets that field to the trimmed text after its first `:`; such a line without a
/// `:` is malformed.
pub open spec fn apply_line(acc: (Seq<char>, Seq<char>), line: Seq<char>) -> Option<(Seq<char>, Seq<char>)> {
    if sets_field(line) && value_of(line).is_none() {
        None
    } else {
        let named = if begins_with(line, "snap-name"@) {
            (acc.0, value_of(line)->Some_0)
        } else {
            acc
        };
        if begins_with(line, "snap-id"@) {
            Some((value_of(line)->Some_0, named.1))
        } else {
            Some(named)
        }
    }
}

/// The id and name that `lines` give, each empty where no line sets it, or `None` where a line
/// is malformed.
pub open spec fn declaration_of(lines: Seq<Seq<char>>) -> Option<(Seq<char>, Seq<char>)>
    decreases lines.len(),
{
    if lines.len() == 0 {
        Some((Seq::empty(), Seq::empty()))
    } else {
        match declaration_of(lines.drop_last()) {
            Some(acc) => apply_line(acc, lines.last()),
            None => None,
        }
    }
}

/// Where some first lines are malformed, so are all the lines.
pub proof fn lemma_declaration_malformed_prefix(done: Seq<Seq<char>>, rest: Seq<Seq<char>>)
    requires
        declaration_of(done).is_none(),
    ensures
        declaration_of(done + rest).is_none(),
    decreases rest.len(),
{
    if rest.len() == 0 {
        assert(done + rest =~= done);
    } else {
        lemma_declaration_malformed_prefix(done, rest.drop_last());
        assert((done + rest).drop_last() =~= done + rest.drop_last());
    }
}

/// Relies on `std::str::from_utf8`: the text that `bytes` encode, where they are valid UTF-8.
#[verifier::external_body]
fn utf8_text(bytes: &[u8]) -> (r: Option<&str>)
    ensures
        r is Some <==> valid_utf8(bytes@),
        r matches Some(t) ==> t@ == decode_utf8(bytes@),
{
    std::str::from_utf8(bytes).ok()
}

/// Relies on `str::trim`: the text without its leading and trailing characters that have the
/// White_Space property.
#[verifier::external_body]
fn trim(s: &str) -> (r: &str)
    ensures
        r@ == trimmed(s@),
{
    s.trim()
}

/// Finds the first `c` of `s`.
pub fn find_char(s: &str, c: char) -> (r: Option<usize>)
    ensures
        match r {
            Some(i) => is_first_of(s@, c, i as int) && first_of(s@, c) == Some(i as int),
            None => first_of(s@, c).is_none(),
        },
{
    let n = s.unicode_len();
    let mut i: usize = 0;
    while i < n
        invariant
            n == s@.len(),
            i <= n,
            forall|j: int| 0 <= j < i ==> s@[j] != c,
        decreases n - i,
    {
        if s.get_char(i) == c {
            proof {
                assert(is_first_of(s@, c, i as int));
                let k = choose|k: int| is_first_of(s@, c, k);
                if k < i {
                } else if k > i {
                    assert(s@[i as int] == c);
                }
            }
            return Some(i);
        }
        i = i + 1;
    }
    None
}

/// Whether `s` begins with `p`.
pub fn starts_with(s: &str, p: &str) -> (r: bool)
    ensures
        r == begins_with(s@, p@),
{
    let n = s.unicode_len();
    let m = p.unicode_len();
    if n < m {
        return false;
    }
    let mut i: usize = 0;
    while i < m
        invariant
            n == s@.len(),
            m == p@.len(),
            m <= n,
            i <= m,
            forall|j: int| 0 <= j < i ==> s@[j] == p@[j],
        decreases m - i,
    {
        if s.get_char(i) != p.get_char(i) {
            assert(s@.subrange(0, m as int)[i as int] != p@[i as int]);
            return false;
        }
        i = i + 1;
    }
    assert(s@.subrange(0, m as int) =~= p@);
    true
}

/// The trimmed text after the first `:` of `line`.
fn line_value(line: &str) -> (r: Option<&str>)
    ensures
        match r {
            Some(v) => value_of(line@) == Some(v@),
            None => value_of(line@).is_none(),
        },
{
    match find_char(line, ':') {
        Some(i) => {
            let n = line.unicode_len();
            Some(trim(line.substring_char(i + 1, n)))
        },
        None => None,
    }
}

/// `line` without a final carriage return.
fn without_cr(line: &str) -> (r: &str)
    ensures
        r@ == strip_cr(line@),
{
    let n = line.unicode_len();
    if n > 0 && line.get_char(n - 1) == '\r' {
        line.substring_char(0, n - 1)
    } else {
        line
    }
}

/// The lines of the rest of a text, from a line feed at `i` on.
proof fn lemma_lines_step(t: Seq<char>, start: int, i: int)
    requires
        0 <= start <= i < t.len(),
        t[i] == '\n',
        forall|j: int| start <= j < i ==> t[j] != '\n',
    ensures
        text_lines(t.subrange(start, t.len() as int)) == seq![strip_cr(t.subrange(start, i))]
            + text_lines(t.subrange(i + 1, t.len() as int)),
{
    let rest = t.subrange(start, t.len() as int);
    let k = i - start;
    assert(is_first_of(rest, '\n', k));
    let c = choose|c: int| is_first_of(rest, '\n', c);
    assert(c == k) by {
        if c < k {
            assert(rest[c] == t[start + c]);
        } else if c > k {
            assert(rest[k] == '\n');
        }
    }
    assert(rest.subrange(0, k) =~= t.subrange(start, i));
    assert(rest.subrange(k + 1, rest.len() as int) =~= t.subrange(i + 1, t.len() as int));
}

/// The lines of the last part of a text, which holds no line feed.
proof fn lemma_lines_last(t: Seq<char>, start: int)
    requires
        0 <= start <= t.len(),
        forall|j: int| start <= j < t.len() ==> t[j] != '\n',
    ensures
        start < t.len() ==> text_lines(t.subrange(start, t.len() as int)) == seq![
            strip_cr(t.subrange(start, t.len() as int)),
        ],
        start == t.len() ==> text_lines(t.subrange(start, t.len() as int)) == Seq::<
            Seq<char>,
        >::empty(),
{
    let rest = t.subrange(start, t.len() as int);
    if exists|c: int| is_first_of(rest, '\n', c) {
        let c = choose|c: int| is_first_of(rest, '\n', c);
        assert(rest[c] == t[start + c]);
    }
}

/// The contents of an answer to a request for a snap declaration: lines of `key: value`.
pub struct DeclarationAssertionPayload {
    pub data: Vec<u8>,
}

impl DeclarationAssertionPayload {
    /// Reads the snap's id and name from the declaration's lines: the last line that begins
    /// with `snap-id`, or `snap-name`, gives that field, the trimmed text after its first `:`;
    /// a field that no line gives is empty. Data that is not UTF-8 is malformed, and a line
    /// that would give a field but holds no `:` does not have the expected shape.
    pub fn parse(&self) -> (r: Result<SnapDeclaration<'static>, ParseError>)
        ensures
            !valid_utf8(self.data@) ==> r == Err::<SnapDeclaration<'static>, ParseError>(
                ParseError::Malformed,
            ),
            valid_utf8(self.data@) ==> match declaration_of(text_lines(decode_utf8(self.data@))) {
                Some(fields) => r matches Ok(d) && (d.snap_id@, d.snap_name@) == fields,
                None => r == Err::<SnapDeclaration<'static>, ParseError>(ParseError::Shape),
            },
    {
        let text = match utf8_text(self.data.as_slice()) {
            Some(t) => t,
            None => {
                return Err(ParseError::Malformed);
            },
        };
        let n = text.unicode_len();
        let mut id = String::new();
        let mut name = String::new();
        let mut start: usize = 0;
        let mut i: usize = 0;
        let ghost mut done: Seq<Seq<char>> = Seq::empty();
        proof {
            assert(text@.subrange(0, text@.len() as int) =~= text@);
        }
        while i < n
            invariant
                n == text@.len(),
                start <= i <= n,
                forall|j: int| start <= j < i ==> text@[j] != '\n',
                text_lines(text@) == done + text_lines(text@.subrange(start as int, n as int)),
                declaration_of(done) == Some((id@, name@)),
                valid_utf8(self.data@),
                text@ == decode_utf8(self.data@),
            decreases n - i,
        {
            if text.get_char(i) == '\n' {
                proof {
                    lemma_lines_step(text@, start as int, i as int);
                }
                let line = without_cr(text.substring_char(start, i));
                let ghost before = done;
                proof {
                    done = done.push(line@);
                    assert(done.drop_last() =~= before);
                    assert(text_lines(text@) =~= done + text_lines(
                        text@.subrange(i + 1, n as int),
                    ));
                }
                if !self.apply(line, &mut id, &mut name) {
                    proof {
                        lemma_declaration_malformed_prefix(
                            done,
                            text_lines(text@.subrange(i + 1, n as int)),
                        );
                    }
                    return Err(ParseError::Shape);
                }
                start = i + 1;
            }
            i = i + 1;
        }
        proof {
            lemma_lines_last(text@, start as int);
        }
        if start < n {
            let line = without_cr(text.substring_char(start, n));
            let ghost before = done;
            proof {
                done = done.push(line@);
                assert(done.drop_last() =~= before);
            }
            if !self.apply(line, &mut id, &mut name) {
                proof {
                    assert(text_lines(text@) =~= done);
                }
                return Err(ParseError::Shape);
            }
        }
        proof {
            assert(text_lines(text@) =~= done);
        }
        Ok(SnapDeclaration { snap_id: SnapId(Cow::Owned(id)), snap_name: SnapName(Cow::Owned(name)) })
    }

    /// Applies one line to the id and name read so far; `false`, with both left as they were,
    /// where the line is malformed.
    fn apply(&self, line: &str, id: &mut String, name: &mut String) -> (r: bool)
        ensures
            r == apply_line((old(id)@, old(name)@), line@).is_some(),
            r ==> apply_line((old(id)@, old(name)@), line@) == Some((final(id)@, final(name)@)),
    {
        let is_name = starts_with(line, "snap-name");
        let is_id = starts_with(line, "snap-id");
        if !is_name && !is_id {
            return true;
        }
        let value = match line_value(line) {
            Some(v) => v,
            None => {
                return false;
            },
        };
        if is_name {
            *name = String::from_str(value);
        }
        if is_id {
            *id = String::from_str(value);
        }
        true
    }
}

impl From<Vec<u8>> for DeclarationAssertionPayload {
    fn from(data: Vec<u8>) -> (r: DeclarationAssertionPayload) {
        DeclarationAssertionPayload { data }
    }
}

impl vstd::std_specs::convert::FromSpecImpl<Vec<u8>> for DeclarationAssertionPayload {
    open spec fn obeys_from_spec() -> bool {
        true
    }

    open spec fn from_spec(data: Vec<u8>) -> DeclarationAssertionPayload {
        DeclarationAssertionPayload { data }
    }
}

impl Payload for DeclarationAssertionPayload {
    type Parsed = Result<SnapDeclaration<'static>, ParseError>;

    fn parse(&self) -> Result<SnapDeclaration<'static>, ParseError> {
        DeclarationAssertionPayload::parse(self)
    }
}

} // verus!
