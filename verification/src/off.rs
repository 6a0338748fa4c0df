//! Parser for the structure of an OFF mesh file.
//!
//! An OFF file is plain text: a first line holding exactly `OFF`, a second
//! line whose first two tokens are the vertex and face counts in decimal,
//! then one line per vertex whose first three tokens are its coordinates,
//! then one line per face whose second to fourth tokens are vertex indices.
//! Lines are separated by a carriage return directly followed by a line
//! feed, and tokens within a line by runs of ASCII whitespace.
//!
//! The parser checks this structure completely: it validates the header,
//! the counts, the presence and shape of every vertex and face line, and
//! that every face index refers to an existing vertex.  Coordinate tokens
//! are handed back as raw bytes; turning them into numbers of a caller's
//! chosen scalar type is the caller's business.
//!
//! The whole parse is specified by `spec_parse_off`, a mathematical parser
//! over byte sequences; `parse_off` returns exactly its result.

use vstd::prelude::*;

verus! {

/// Why a byte sequence is not a well-formed OFF file.
#[derive(Clone, Copy, Debug, PartialEq, Eq, Structural)]
pub enum OffError {
    /// The first line is not exactly `OFF`.
    MissingHeader,
    /// The count line is missing, has fewer than two tokens, or its first
    /// two tokens are not decimal numbers that fit a signed 32-bit integer.
    BadCounts,
    /// A vertex line is missing or has fewer than three tokens.
    BadVertex,
    /// A face line is missing, has fewer than four tokens, or one of its
    /// second to fourth tokens is not a decimal number.
    BadFace,
    /// A face names a vertex index at or beyond the vertex count.
    IndexOutOfRange,
}

/// The structure of a parsed OFF file: the declared counts, the raw
/// coordinate tokens (three per vertex, flattened), and the face vertex
/// indices (three per face, flattened), each proved in range.
#[derive(Debug, PartialEq, Eq)]
pub struct OffModel {
    /// Number of vertices the file declares.
    pub vertex_count: usize,
    /// Number of faces the file declares.
    pub face_count: usize,
    /// Coordinate tokens, three per vertex: entry `3 * v + c` is coordinate
    /// `c` of vertex `v`, as the raw bytes that stood in the file.
    pub coords: Vec<Vec<u8>>,
    /// Face vertex indices, three per face: entry `3 * f + k` is the `k`-th
    /// corner of face `f`, always below `vertex_count`.
    pub faces: Vec<usize>,
}

/// The views of a sequence of byte vectors.
pub open spec fn line_views(s: Seq<Vec<u8>>) -> Seq<Seq<u8>> {
    s.map_values(|v: Vec<u8>| v@)
}

proof fn lemma_line_views_push(s: Seq<Vec<u8>>, v: Vec<u8>)
    ensures
        line_views(s.push(v)) == line_views(s).push(v@),
{
    assert(line_views(s.push(v)) =~= line_views(s).push(v@));
}

/// The byte is one of the ASCII whitespace characters that separate tokens.
pub open spec fn is_space(c: u8) -> bool {
    c == 32 || c == 9 || c == 10 || c == 13 || c == 11 || c == 12
}

fn byte_is_space(c: u8) -> (b: bool)
    ensures
        b == is_space(c),
{
    c == 32 || c == 9 || c == 10 || c == 13 || c == 11 || c == 12
}

/// Splitting `s` into lines on carriage-return line-feed pairs, having
/// already read up to position `i` with `cur` the partial current line and
/// `acc` the finished lines.
pub open spec fn spec_lines_rec(s: Seq<u8>, i: int, cur: Seq<u8>, acc: Seq<Seq<u8>>) -> Seq<
    Seq<u8>,
>
    decreases s.len() - i,
    when 0 <= i <= s.len()
{
    if i >= s.len() {
        acc.push(cur)
    } else if s[i] == 13 && i + 1 < s.len() && s[i + 1] == 10 {
        spec_lines_rec(s, i + 2, Seq::empty(), acc.push(cur))
    } else {
        spec_lines_rec(s, i + 1, cur.push(s[i]), acc)
    }
}

/// The lines of a byte sequence: the pieces between carriage-return
/// line-feed pairs.  There is always at least one piece; a trailing pair
/// yields a final empty line.
pub open spec fn spec_lines(s: Seq<u8>) -> Seq<Seq<u8>> {
    spec_lines_rec(s, 0, Seq::empty(), Seq::empty())
}

proof fn lemma_lines_rec_len(s: Seq<u8>, i: int, cur: Seq<u8>, acc: Seq<Seq<u8>>)
    requires
        0 <= i <= s.len(),
    ensures
        spec_lines_rec(s, i, cur, acc).len() > acc.len(),
    decreases s.len() - i,
{
    if i >= s.len() {
    } else if s[i] == 13 && i + 1 < s.len() && s[i + 1] == 10 {
        lemma_lines_rec_len(s, i + 2, Seq::empty(), acc.push(cur));
    } else {
        lemma_lines_rec_len(s, i + 1, cur.push(s[i]), acc);
    }
}

/// A byte sequence has at least one line.
pub proof fn lemma_lines_nonempty(s: Seq<u8>)
    ensures
        spec_lines(s).len() >= 1,
{
    lemma_lines_rec_len(s, 0, Seq::empty(), Seq::empty());
}

/// Split a byte slice into its lines.
pub fn split_lines(data: &[u8]) -> (lines: Vec<Vec<u8>>)
    ensures
        line_views(lines@) == spec_lines(data@),
        lines@.len() >= 1,
{
    let mut i: usize = 0;
    let mut cur: Vec<u8> = Vec::new();
    let mut acc: Vec<Vec<u8>> = Vec::new();
    proof {
        assert(line_views(acc@) =~= Seq::<Seq<u8>>::empty());
    }
    while i < data.len()
        invariant
            i <= data@.len(),
            spec_lines_rec(data@, i as int, cur@, line_views(acc@)) == spec_lines(data@),
        decreases data@.len() - i,
    {
        if data[i] == 13 && i + 1 < data.len() && data[i + 1] == 10 {
            let ghost old_acc = acc@;
            acc.push(cur);
            proof {
                lemma_line_views_push(old_acc, acc@[acc@.len() - 1]);
            }
            cur = Vec::new();
            i = i + 2;
        } else {
            cur.push(data[i]);
            i = i + 1;
        }
    }
    let ghost old_acc = acc@;
    acc.push(cur);
    proof {
        lemma_line_views_push(old_acc, acc@[acc@.len() - 1]);
        lemma_lines_nonempty(data@);
    }
    acc
}

/// The lines joined back together with a carriage-return line-feed pair
/// between each two.
pub open spec fn spec_join_crlf(lines: Seq<Seq<u8>>) -> Seq<u8>
    decreases lines.len(),
{
    if lines.len() == 0 {
        Seq::empty()
    } else if lines.len() == 1 {
        lines[0]
    } else {
        lines[0] + seq![13u8, 10u8] + spec_join_crlf(lines.drop_first())
    }
}

proof fn lemma_join_push(lines: Seq<Seq<u8>>, l: Seq<u8>)
    requires
        lines.len() >= 1,
    ensures
        spec_join_crlf(lines.push(l)) == spec_join_crlf(lines) + seq![13u8, 10u8] + l,
    decreases lines.len(),
{
    if lines.len() == 1 {
        assert(lines.push(l)[0] == lines[0]);
        assert(lines.push(l).drop_first() =~= seq![l]);
        assert(spec_join_crlf(seq![l]) == l);
    } else {
        lemma_join_push(lines.drop_first(), l);
        assert(lines.push(l).drop_first() =~= lines.drop_first().push(l));
        assert(spec_join_crlf(lines) + seq![13u8, 10u8] + l =~= lines[0] + seq![13u8, 10u8] + (
        spec_join_crlf(lines.drop_first()) + seq![13u8, 10u8] + l));
    }
}

proof fn lemma_lines_rec_join(s: Seq<u8>, i: int, cur: Seq<u8>, acc: Seq<Seq<u8>>)
    requires
        0 <= i <= s.len(),
    ensures
        spec_join_crlf(spec_lines_rec(s, i, cur, acc)) == spec_join_crlf(
            acc.push(cur + s.subrange(i, s.len() as int)),
        ),
    decreases s.len() - i,
{
    if i >= s.len() {
        assert(cur + s.subrange(i, s.len() as int) =~= cur);
    } else if s[i] == 13 && i + 1 < s.len() && s[i + 1] == 10 {
        lemma_lines_rec_join(s, i + 2, Seq::empty(), acc.push(cur));
        let tail = s.subrange(i + 2, s.len() as int);
        assert(Seq::<u8>::empty() + tail =~= tail);
        lemma_join_push(acc.push(cur), tail);
        if acc.len() == 0 {
            assert(acc.push(cur) =~= seq![cur]);
            assert(acc.push(cur + s.subrange(i, s.len() as int)) =~= seq![
                cur + s.subrange(i, s.len() as int),
            ]);
            assert(cur + s.subrange(i, s.len() as int) =~= cur + seq![13u8, 10u8] + tail);
        } else {
            lemma_join_push(acc, cur);
            lemma_join_push(acc, cur + s.subrange(i, s.len() as int));
            assert(spec_join_crlf(acc) + seq![13u8, 10u8] + (cur + s.subrange(
                i,
                s.len() as int,
            )) =~= spec_join_crlf(acc) + seq![13u8, 10u8] + cur + seq![13u8, 10u8] + tail);
        }
    } else {
        lemma_lines_rec_join(s, i + 1, cur.push(s[i]), acc);
        assert(cur.push(s[i]) + s.subrange(i + 1, s.len() as int) =~= cur + s.subrange(
            i,
            s.len() as int,
        ));
    }
}

/// Splitting into lines loses nothing: joining the lines back with a
/// carriage-return line-feed pair between each two restores the input.
pub proof fn lemma_lines_lossless(s: Seq<u8>)
    ensures
        spec_join_crlf(spec_lines(s)) == s,
{
    lemma_lines_rec_join(s, 0, Seq::empty(), Seq::empty());
    assert(Seq::<Seq<u8>>::empty().push(Seq::<u8>::empty() + s.subrange(0, s.len() as int)) =~= seq![
        Seq::<u8>::empty() + s.subrange(0, s.len() as int),
    ]);
    assert(Seq::<u8>::empty() + s.subrange(0, s.len() as int) =~= s);
}

/// Splitting a line into whitespace-separated tokens, having already read
/// up to position `i` with `cur` the partial current token and `acc` the
/// finished tokens.
pub open spec fn spec_tokens_rec(line: Seq<u8>, i: int, cur: Seq<u8>, acc: Seq<Seq<u8>>) -> Seq<
    Seq<u8>,
>
    decreases line.len() - i,
    when 0 <= i <= line.len()
{
    if i >= line.len() {
        if cur.len() > 0 {
            acc.push(cur)
        } else {
            acc
        }
    } else if is_space(line[i]) {
        if cur.len() > 0 {
            spec_tokens_rec(line, i + 1, Seq::empty(), acc.push(cur))
        } else {
            spec_tokens_rec(line, i + 1, Seq::empty(), acc)
        }
    } else {
        spec_tokens_rec(line, i + 1, cur.push(line[i]), acc)
    }
}

/// The whitespace-separated tokens of a line: its maximal runs of
/// non-whitespace bytes.
pub open spec fn spec_tokens(line: Seq<u8>) -> Seq<Seq<u8>> {
    spec_tokens_rec(line, 0, Seq::empty(), Seq::empty())
}

/// Split a line into its whitespace-separated tokens.
pub fn split_tokens(line: &Vec<u8>) -> (toks: Vec<Vec<u8>>)
    ensures
        line_views(toks@) == spec_tokens(line@),
{
    let mut i: usize = 0;
    let mut cur: Vec<u8> = Vec::new();
    let mut acc: Vec<Vec<u8>> = Vec::new();
    proof {
        assert(line_views(acc@) =~= Seq::<Seq<u8>>::empty());
    }
    while i < line.len()
        invariant
            i <= line@.len(),
            spec_tokens_rec(line@, i as int, cur@, line_views(acc@)) == spec_tokens(line@),
        decreases line@.len() - i,
    {
        if byte_is_space(line[i]) {
            if cur.len() > 0 {
                let ghost old_acc = acc@;
                acc.push(cur);
                proof {
                    lemma_line_views_push(old_acc, acc@[acc@.len() - 1]);
                }
                cur = Vec::new();
            } else {
                proof {
                    assert(cur@ =~= Seq::<u8>::empty());
                }
            }
            i = i + 1;
        } else {
            cur.push(line[i]);
            i = i + 1;
        }
    }
    if cur.len() > 0 {
        let ghost old_acc = acc@;
        acc.push(cur);
        proof {
            lemma_line_views_push(old_acc, acc@[acc@.len() - 1]);
        }
    }
    acc
}

/// The token is nonempty and free of whitespace.
pub open spec fn token_wf(t: Seq<u8>) -> bool {
    t.len() >= 1 && forall|k: int| 0 <= k < t.len() ==> !is_space(#[trigger] t[k])
}

proof fn lemma_tokens_rec_wf(line: Seq<u8>, i: int, cur: Seq<u8>, acc: Seq<Seq<u8>>)
    requires
        0 <= i <= line.len(),
        forall|k: int| 0 <= k < cur.len() ==> !is_space(#[trigger] cur[k]),
        forall|j: int| 0 <= j < acc.len() ==> token_wf(#[trigger] acc[j]),
    ensures
        forall|j: int|
            0 <= j < spec_tokens_rec(line, i, cur, acc).len() ==> token_wf(
                #[trigger] spec_tokens_rec(line, i, cur, acc)[j],
            ),
    decreases line.len() - i,
{
    if i >= line.len() {
        if cur.len() > 0 {
            assert forall|j: int| 0 <= j < acc.push(cur).len() implies token_wf(
                #[trigger] acc.push(cur)[j],
            ) by {
                if j < acc.len() {
                    assert(acc.push(cur)[j] == acc[j]);
                } else {
                    assert(acc.push(cur)[j] == cur);
                }
            }
        }
    } else if is_space(line[i]) {
        if cur.len() > 0 {
            assert forall|j: int| 0 <= j < acc.push(cur).len() implies token_wf(
                #[trigger] acc.push(cur)[j],
            ) by {
                if j < acc.len() {
                    assert(acc.push(cur)[j] == acc[j]);
                } else {
                    assert(acc.push(cur)[j] == cur);
                }
            }
            lemma_tokens_rec_wf(line, i + 1, Seq::empty(), acc.push(cur));
            let r = spec_tokens_rec(line, i, cur, acc);
            assert forall|j: int| 0 <= j < r.len() implies token_wf(#[trigger] r[j]) by {
                assert(r[j] == spec_tokens_rec(line, i + 1, Seq::empty(), acc.push(cur))[j]);
            }
        } else {
            lemma_tokens_rec_wf(line, i + 1, Seq::empty(), acc);
            let r = spec_tokens_rec(line, i, cur, acc);
            assert forall|j: int| 0 <= j < r.len() implies token_wf(#[trigger] r[j]) by {
                assert(r[j] == spec_tokens_rec(line, i + 1, Seq::empty(), acc)[j]);
            }
        }
    } else {
        lemma_tokens_rec_wf(line, i + 1, cur.push(line[i]), acc);
        let r = spec_tokens_rec(line, i, cur, acc);
        assert forall|j: int| 0 <= j < r.len() implies token_wf(#[trigger] r[j]) by {
            assert(r[j] == spec_tokens_rec(line, i + 1, cur.push(line[i]), acc)[j]);
        }
    }
}

/// Every token of a line is nonempty and free of whitespace.
pub proof fn lemma_tokens_wf(line: Seq<u8>)
    ensures
        forall|j: int|
            0 <= j < spec_tokens(line).len() ==> token_wf(#[trigger] spec_tokens(line)[j]),
{
    lemma_tokens_rec_wf(line, 0, Seq::empty(), Seq::empty());
}

/// The token is one or more decimal digits and nothing else.
pub open spec fn is_uint_token(t: Seq<u8>) -> bool {
    t.len() >= 1 && forall|k: int| 0 <= k < t.len() ==> 48 <= #[trigger] t[k] <= 57
}

/// The number a run of decimal digits denotes.
pub open spec fn spec_uint_val(t: Seq<u8>) -> int
    decreases t.len(),
{
    if t.len() == 0 {
        0
    } else {
        spec_uint_val(t.drop_last()) * 10 + (t.last() - 48)
    }
}

/// A run of decimal digits denotes a non-negative number.
proof fn lemma_uint_val_nonneg(t: Seq<u8>)
    requires
        forall|k: int| 0 <= k < t.len() ==> 48 <= #[trigger] t[k] <= 57,
    ensures
        spec_uint_val(t) >= 0,
    decreases t.len(),
{
    if t.len() > 0 {
        lemma_uint_val_nonneg(t.drop_last());
    }
}

/// A prefix of a run of decimal digits denotes at most what the whole run
/// denotes.
proof fn lemma_uint_val_prefix_le(t: Seq<u8>, k: int)
    requires
        0 <= k <= t.len(),
        forall|j: int| 0 <= j < t.len() ==> 48 <= #[trigger] t[j] <= 57,
    ensures
        spec_uint_val(t.subrange(0, k)) <= spec_uint_val(t),
    decreases t.len() - k,
{
    if k == t.len() {
        assert(t.subrange(0, k) =~= t);
    } else {
        lemma_uint_val_prefix_le(t, k + 1);
        let p = t.subrange(0, k + 1);
        assert(p.drop_last() =~= t.subrange(0, k));
        lemma_uint_val_nonneg(t.subrange(0, k));
    }
}

/// The vertex or face count a token denotes: its value, when the token is
/// all decimal digits and the value fits a signed 32-bit integer.
pub open spec fn spec_count(t: Seq<u8>) -> Option<int> {
    if is_uint_token(t) && 0 <= spec_uint_val(t) <= 0x7FFF_FFFF {
        Some(spec_uint_val(t))
    } else {
        None
    }
}

/// Parse a vertex or face count token.
pub fn parse_count(tok: &Vec<u8>) -> (r: Option<usize>)
    ensures
        r is Some <==> spec_count(tok@) is Some,
        r is Some ==> r->0 as int == spec_uint_val(tok@),
{
    if tok.len() == 0 {
        return None;
    }
    let mut k: usize = 0;
    let mut val: u64 = 0;
    while k < tok.len()
        invariant
            k <= tok@.len(),
            tok@.len() >= 1,
            forall|j: int| 0 <= j < k ==> 48 <= #[trigger] tok@[j] <= 57,
            val as int == spec_uint_val(tok@.subrange(0, k as int)),
            val <= 0x7FFF_FFFF,
        decreases tok@.len() - k,
    {
        let c = tok[k];
        if c < 48 || c > 57 {
            return None;
        }
        let d = (c - 48) as u64;
        proof {
            let p = tok@.subrange(0, k as int + 1);
            assert(p.drop_last() =~= tok@.subrange(0, k as int));
        }
        val = val * 10 + d;
        k = k + 1;
        if val > 0x7FFF_FFFF {
            proof {
                if is_uint_token(tok@) {
                    lemma_uint_val_prefix_le(tok@, k as int);
                }
            }
            return None;
        }
    }
    proof {
        assert(tok@.subrange(0, tok@.len() as int) =~= tok@);
    }
    Some(val as usize)
}

/// Parse one face-index token against the vertex count: a token that is not
/// all digits is a bad face, a value at or beyond the count is out of
/// range.
pub fn parse_face_index(tok: &Vec<u8>, vertex_count: usize) -> (r: Result<usize, OffError>)
    requires
        vertex_count as int <= 0x7FFF_FFFF,
    ensures
        !is_uint_token(tok@) ==> r == Err::<usize, OffError>(OffError::BadFace),
        is_uint_token(tok@) && spec_uint_val(tok@) >= vertex_count as int ==> r == Err::<
            usize,
            OffError,
        >(OffError::IndexOutOfRange),
        is_uint_token(tok@) && spec_uint_val(tok@) < vertex_count as int ==> r is Ok
            && r->Ok_0 as int == spec_uint_val(tok@),
{
    if tok.len() == 0 {
        return Err(OffError::BadFace);
    }
    let mut k: usize = 0;
    while k < tok.len()
        invariant
            k <= tok@.len(),
            forall|j: int| 0 <= j < k ==> 48 <= #[trigger] tok@[j] <= 57,
        decreases tok@.len() - k,
    {
        let c = tok[k];
        if c < 48 || c > 57 {
            return Err(OffError::BadFace);
        }
        k = k + 1;
    }
    if vertex_count == 0 {
        proof {
            lemma_uint_val_nonneg(tok@);
        }
        return Err(OffError::IndexOutOfRange);
    }
    let mut j: usize = 0;
    let mut val: u64 = 0;
    while j < tok.len()
        invariant
            j <= tok@.len(),
            tok@.len() >= 1,
            is_uint_token(tok@),
            vertex_count as int <= 0x7FFF_FFFF,
            val as int == spec_uint_val(tok@.subrange(0, j as int)),
            val < vertex_count as u64,
        decreases tok@.len() - j,
    {
        let c = tok[j];
        let d = (c - 48) as u64;
        proof {
            let p = tok@.subrange(0, j as int + 1);
            assert(p.drop_last() =~= tok@.subrange(0, j as int));
        }
        val = val * 10 + d;
        j = j + 1;
        if val >= vertex_count as u64 {
            proof {
                lemma_uint_val_prefix_le(tok@, j as int);
            }
            return Err(OffError::IndexOutOfRange);
        }
    }
    proof {
        assert(tok@.subrange(0, tok@.len() as int) =~= tok@);
    }
    Ok(val as usize)
}

/// The coordinate tokens of `n` vertex lines starting at line `start`:
/// three tokens from each line, or nothing when a line is missing or too
/// short.
pub open spec fn spec_vertices(lines: Seq<Seq<u8>>, start: int, n: int) -> Option<Seq<Seq<u8>>>
    decreases n,
    when n >= 0
{
    if n == 0 {
        Some(Seq::empty())
    } else if start >= lines.len() {
        None
    } else {
        let toks = spec_tokens(lines[start]);
        if toks.len() < 3 {
            None
        } else {
            match spec_vertices(lines, start + 1, n - 1) {
                Some(rest) => Some(seq![toks[0], toks[1], toks[2]] + rest),
                None => None,
            }
        }
    }
}

/// The vertex indices of `n` face lines starting at line `start`, each
/// checked against the vertex count: three indices from each line, taken
/// from its second to fourth tokens.
pub open spec fn spec_faces(lines: Seq<Seq<u8>>, start: int, n: int, vc: int) -> Result<
    Seq<int>,
    OffError,
>
    decreases n,
    when n >= 0
{
    if n == 0 {
        Ok(Seq::empty())
    } else if start >= lines.len() {
        Err(OffError::BadFace)
    } else {
        let toks = spec_tokens(lines[start]);
        if toks.len() < 4 {
            Err(OffError::BadFace)
        } else if !is_uint_token(toks[1]) || !is_uint_token(toks[2]) || !is_uint_token(toks[3]) {
            Err(OffError::BadFace)
        } else if spec_uint_val(toks[1]) >= vc {
            Err(OffError::IndexOutOfRange)
        } else if spec_uint_val(toks[2]) >= vc {
            Err(OffError::IndexOutOfRange)
        } else if spec_uint_val(toks[3]) >= vc {
            Err(OffError::IndexOutOfRange)
        } else {
            match spec_faces(lines, start + 1, n - 1, vc) {
                Ok(rest) => Ok(
                    seq![spec_uint_val(toks[1]), spec_uint_val(toks[2]), spec_uint_val(toks[3])]
                        + rest,
                ),
                Err(e) => Err(e),
            }
        }
    }
}

/// What parsing a byte sequence as an OFF file yields: the vertex and face
/// counts, the coordinate tokens and the face indices, or the first error
/// the structure shows.
pub open spec fn spec_parse_off(s: Seq<u8>) -> Result<
    (int, int, Seq<Seq<u8>>, Seq<int>),
    OffError,
> {
    let lines = spec_lines(s);
    if !(lines.len() >= 1 && lines[0] =~= seq![79u8, 70u8, 70u8]) {
        Err(OffError::MissingHeader)
    } else if lines.len() < 2 {
        Err(OffError::BadCounts)
    } else {
        let toks = spec_tokens(lines[1]);
        if toks.len() < 2 {
            Err(OffError::BadCounts)
        } else {
            match (spec_count(toks[0]), spec_count(toks[1])) {
                (Some(vc), Some(fc)) => match spec_vertices(lines, 2, vc) {
                    Some(coords) => match spec_faces(lines, 2 + vc, fc, vc) {
                        Ok(faces) => Ok((vc, fc, coords, faces)),
                        Err(e) => Err(e),
                    },
                    None => Err(OffError::BadVertex),
                },
                _ => Err(OffError::BadCounts),
            }
        }
    }
}

/// The values of a sequence of machine integers, as unbounded integers.
pub open spec fn int_views(s: Seq<usize>) -> Seq<int> {
    s.map_values(|x: usize| x as int)
}

/// Parse a byte slice as an OFF file.
///
/// The result is exactly what the specification-level parser
/// `spec_parse_off` yields on the same bytes.  On success the model in
/// addition carries three coordinate tokens per declared vertex and three
/// in-range vertex indices per declared face.
#[verifier::loop_isolation(false)]
pub fn parse_off(data: &[u8]) -> (r: Result<OffModel, OffError>)
    ensures
        r is Ok <==> spec_parse_off(data@) is Ok,
        r is Ok ==> {
            let m = r->Ok_0;
            let sp = spec_parse_off(data@)->Ok_0;
            &&& m.vertex_count as int == sp.0
            &&& m.face_count as int == sp.1
            &&& line_views(m.coords@) == sp.2
            &&& int_views(m.faces@) == sp.3
        },
        r is Err ==> r->Err_0 == spec_parse_off(data@)->Err_0,
        r is Ok ==> {
            let m = r->Ok_0;
            &&& m.coords@.len() == 3 * m.vertex_count
            &&& m.faces@.len() == 3 * m.face_count
            &&& forall|i: int|
                0 <= i < m.faces@.len() ==> (#[trigger] m.faces@[i]) < m.vertex_count
            &&& forall|i: int| 0 <= i < m.coords@.len() ==> token_wf((#[trigger] m.coords@[i])@)
        },
{
    let lines = split_lines(data);
    let ghost gl = spec_lines(data@);

    // Header line.
    let header_ok = lines[0].len() == 3 && lines[0][0] == 79 && lines[0][1] == 70 && lines[0][2]
        == 70;
    proof {
        assert(gl[0] == lines@[0]@);
        if header_ok {
            assert(lines@[0]@ =~= seq![79u8, 70u8, 70u8]);
        }
    }
    if !header_ok {
        return Err(OffError::MissingHeader);
    }
    // Count line.
    if lines.len() < 2 {
        return Err(OffError::BadCounts);
    }
    let count_toks = split_tokens(&lines[1]);
    proof {
        assert(gl[1] == lines@[1]@);
    }
    if count_toks.len() < 2 {
        return Err(OffError::BadCounts);
    }
    proof {
        assert(line_views(count_toks@)[0] == count_toks@[0]@);
        assert(line_views(count_toks@)[1] == count_toks@[1]@);
    }
    let vertex_count = match parse_count(&count_toks[0]) {
        Some(v) => v,
        None => {
            return Err(OffError::BadCounts);
        },
    };
    let face_count = match parse_count(&count_toks[1]) {
        Some(v) => v,
        None => {
            return Err(OffError::BadCounts);
        },
    };

    // Vertex lines.
    let mut coords: Vec<Vec<u8>> = Vec::new();
    let mut k: usize = 0;
    proof {
        assert(line_views(coords@) =~= Seq::<Seq<u8>>::empty());
        assert(line_views(coords@) + spec_vertices(gl, 2, vertex_count as int)->0
            =~= spec_vertices(gl, 2, vertex_count as int)->0);
    }
    while k < vertex_count
        invariant
            k <= vertex_count,
            vertex_count <= 0x7FFF_FFFF,
            gl == line_views(lines@),
            gl.len() == lines@.len(),
            coords@.len() == 3 * k,
            forall|j: int| 0 <= j < coords@.len() ==> token_wf((#[trigger] coords@[j])@),
            spec_vertices(gl, 2, vertex_count as int) == match spec_vertices(
                gl,
                2 + k,
                vertex_count - k,
            ) {
                Some(rest) => Some(line_views(coords@) + rest),
                None => None::<Seq<Seq<u8>>>,
            },
        decreases vertex_count - k,
    {
        if lines.len() < 2 || k >= lines.len() - 2 {
            return Err(OffError::BadVertex);
        }
        let idx = 2 + k;
        let mut toks = split_tokens(&lines[idx]);
        proof {
            assert(gl[idx as int] == lines@[idx as int]@);
        }
        if toks.len() < 3 {
            return Err(OffError::BadVertex);
        }
        proof {
            assert(line_views(toks@)[0] == toks@[0]@);
            assert(line_views(toks@)[1] == toks@[1]@);
            assert(line_views(toks@)[2] == toks@[2]@);
        }
        let ghost old_coords = coords@;
        let ghost gtoks = spec_tokens(gl[idx as int]);
        proof {
            lemma_tokens_wf(gl[idx as int]);
        }
        let t0 = toks.remove(0);
        let t1 = toks.remove(0);
        let t2 = toks.remove(0);
        coords.push(t0);
        coords.push(t1);
        coords.push(t2);
        proof {
            assert(line_views(coords@) =~= line_views(old_coords)
                + seq![gtoks[0], gtoks[1], gtoks[2]]);
            if spec_vertices(gl, 2 + k + 1, vertex_count - k - 1) is Some {
                let rest = spec_vertices(gl, 2 + k + 1, vertex_count - k - 1)->0;
                assert(line_views(old_coords) + (seq![gtoks[0], gtoks[1], gtoks[2]] + rest)
                    =~= line_views(coords@) + rest);
            }
        }
        k = k + 1;
    }
    proof {
        assert(spec_vertices(gl, 2 + vertex_count as int, 0) == Some(Seq::<Seq<u8>>::empty()));
        assert(line_views(coords@) + Seq::<Seq<u8>>::empty() =~= line_views(coords@));
    }

    // Face lines.
    let mut faces: Vec<usize> = Vec::new();
    let mut f: usize = 0;
    proof {
        assert(int_views(faces@) =~= Seq::<int>::empty());
        let whole = spec_faces(gl, 2 + vertex_count as int, face_count as int, vertex_count as int);
        if whole is Ok {
            assert(int_views(faces@) + whole->Ok_0 =~= whole->Ok_0);
        }
    }
    while f < face_count
        invariant
            f <= face_count,
            face_count <= 0x7FFF_FFFF,
            vertex_count <= 0x7FFF_FFFF,
            gl == line_views(lines@),
            gl.len() == lines@.len(),
            faces@.len() == 3 * f,
            forall|i: int| 0 <= i < faces@.len() ==> (#[trigger] faces@[i]) < vertex_count,
            spec_faces(gl, 2 + vertex_count as int, face_count as int, vertex_count as int)
                == match spec_faces(
                gl,
                2 + vertex_count + f,
                face_count - f,
                vertex_count as int,
            ) {
                Ok(rest) => Ok(int_views(faces@) + rest),
                Err(e) => Err::<Seq<int>, OffError>(e),
            },
        decreases face_count - f,
    {
        if lines.len() < 2 || vertex_count >= lines.len() - 2 || f >= lines.len() - 2
            - vertex_count {
            return Err(OffError::BadFace);
        }
        let idx = 2 + vertex_count + f;
        let mut toks = split_tokens(&lines[idx]);
        proof {
            assert(gl[idx as int] == lines@[idx as int]@);
        }
        if toks.len() < 4 {
            return Err(OffError::BadFace);
        }
        proof {
            assert(line_views(toks@)[1] == toks@[1]@);
            assert(line_views(toks@)[2] == toks@[2]@);
            assert(line_views(toks@)[3] == toks@[3]@);
        }
        let r1 = parse_face_index(&toks[1], vertex_count);
        let r2 = parse_face_index(&toks[2], vertex_count);
        let r3 = parse_face_index(&toks[3], vertex_count);
        let (v1, v2, v3) = match (r1, r2, r3) {
            (Ok(v1), Ok(v2), Ok(v3)) => (v1, v2, v3),
            _ => {
                if matches!(r1, Err(OffError::BadFace)) || matches!(r2, Err(OffError::BadFace))
                    || matches!(r3, Err(OffError::BadFace)) {
                    return Err(OffError::BadFace);
                }
                return Err(OffError::IndexOutOfRange);
            },
        };
        let ghost old_faces = faces@;
        let ghost gtoks = spec_tokens(gl[idx as int]);
        faces.push(v1);
        faces.push(v2);
        faces.push(v3);
        proof {
            assert(int_views(faces@) =~= int_views(old_faces)
                + seq![spec_uint_val(gtoks[1]), spec_uint_val(gtoks[2]), spec_uint_val(gtoks[3])]);
            let next = spec_faces(
                gl,
                2 + vertex_count + f + 1,
                face_count - f - 1,
                vertex_count as int,
            );
            if next is Ok {
                let rest = next->Ok_0;
                assert(int_views(old_faces) + (seq![
                    spec_uint_val(gtoks[1]),
                    spec_uint_val(gtoks[2]),
                    spec_uint_val(gtoks[3]),
                ] + rest) =~= int_views(faces@) + rest);
            }
        }
        f = f + 1;
    }
    proof {
        assert(spec_faces(gl, 2 + vertex_count + face_count, 0, vertex_count as int) == Ok::<
            Seq<int>,
            OffError,
        >(Seq::<int>::empty()));
        assert(int_views(faces@) + Seq::<int>::empty() =~= int_views(faces@));
    }

    Ok(OffModel { vertex_count, face_count, coords, faces })
}

} // verus!
