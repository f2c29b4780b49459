//! Text-building and text-reading primitives for the state file and the
//! interactive display: character buffers, decimal rendering of counters,
//! and the column padding the display lines use.

use vstd::prelude::*;
use vstd::string::*;

verus! {

/// The characters of a string slice, in order, as an indexable buffer.
pub fn str_to_chars(s: &str) -> (r: Vec<char>)
    ensures
        r@ == s@,
{
    let len = s.unicode_len();
    let mut r: Vec<char> = Vec::new();
    let mut i: usize = 0;
    while i < len
        invariant
            len == s@.len(),
            i <= len,
            r@ == s@.subrange(0, i as int),
        decreases len - i,
    {
        r.push(s.get_char(i));
        proof {
            assert(r@ =~= s@.subrange(0, i + 1));
        }
        i += 1;
    }
    proof {
        assert(r@ =~= s@);
    }
    r
}

/// Relies on `String`'s `FromIterator<char>`: collecting characters yields
/// the string of exactly those characters, in order.
#[verifier::external_body]
pub fn chars_to_string(v: &Vec<char>) -> (r: String)
    ensures
        r@ == v@,
{
    v.iter().collect()
}

/// Append every character of `s` to the buffer.
pub fn push_str_chars(out: &mut Vec<char>, s: &str)
    ensures
        final(out)@ == old(out)@ + s@,
{
    let len = s.unicode_len();
    let mut i: usize = 0;
    while i < len
        invariant
            len == s@.len(),
            i <= len,
            out@ == old(out)@ + s@.subrange(0, i as int),
        decreases len - i,
    {
        out.push(s.get_char(i));
        proof {
            assert(out@ =~= old(out)@ + s@.subrange(0, i + 1));
        }
        i += 1;
    }
    proof {
        assert(out@ =~= old(out)@ + s@);
    }
}

/// The decimal digit character for `d`.
pub open spec fn digit_char(d: int) -> char {
    if d == 0 {
        '0'
    } else if d == 1 {
        '1'
    } else if d == 2 {
        '2'
    } else if d == 3 {
        '3'
    } else if d == 4 {
        '4'
    } else if d == 5 {
        '5'
    } else if d == 6 {
        '6'
    } else if d == 7 {
        '7'
    } else if d == 8 {
        '8'
    } else {
        '9'
    }
}

/// The decimal rendering of `n`, most significant digit first, without
/// leading zeros (a single zero for `n == 0`).
pub open spec fn dec(n: nat) -> Seq<char>
    decreases n,
{
    if n < 10 {
        seq![digit_char(n as int)]
    } else {
        dec(n / 10) + seq![digit_char((n % 10) as int)]
    }
}

/// `dec` emits one digit below ten, two below one hundred, and at least
/// three from one hundred up.
pub proof fn lemma_dec_len(n: nat)
    ensures
        dec(n).len() >= 1,
        n < 10 ==> dec(n).len() == 1,
        10 <= n < 100 ==> dec(n).len() == 2,
        n >= 100 ==> dec(n).len() >= 3,
{
    if 10 <= n {
        assert(dec(n).len() == dec(n / 10).len() + 1);
        if n >= 100 {
            assert(dec(n / 10).len() == dec(n / 10 / 10).len() + 1);
        }
    }
}

fn digit_of(d: u64) -> (c: char)
    requires
        d < 10,
    ensures
        c == digit_char(d as int),
{
    if d == 0 {
        '0'
    } else if d == 1 {
        '1'
    } else if d == 2 {
        '2'
    } else if d == 3 {
        '3'
    } else if d == 4 {
        '4'
    } else if d == 5 {
        '5'
    } else if d == 6 {
        '6'
    } else if d == 7 {
        '7'
    } else if d == 8 {
        '8'
    } else {
        '9'
    }
}

/// Append the decimal rendering of `n` to the buffer.
pub fn push_u64(out: &mut Vec<char>, n: u64)
    ensures
        final(out)@ == old(out)@ + dec(n as nat),
    decreases n,
{
    if n < 10 {
        out.push(digit_of(n));
        proof {
            assert(out@ =~= old(out)@ + dec(n as nat));
        }
    } else {
        push_u64(out, n / 10);
        out.push(digit_of(n % 10));
        proof {
            assert(out@ =~= old(out)@ + dec(n as nat));
        }
    }
}

/// `s` padded on the left with spaces to at least three columns, as the
/// interactive listing aligns scan indices.
pub open spec fn pad3(s: Seq<char>) -> Seq<char> {
    if s.len() >= 3 {
        s
    } else {
        Seq::new((3 - s.len()) as nat, |i: int| ' ') + s
    }
}

/// Append the decimal rendering of `n`, left-padded to three columns.
pub fn push_index3(out: &mut Vec<char>, n: u64)
    ensures
        final(out)@ == old(out)@ + pad3(dec(n as nat)),
{
    proof {
        lemma_dec_len(n as nat);
    }
    if n < 10 {
        out.push(' ');
        out.push(' ');
    } else if n < 100 {
        out.push(' ');
    }
    push_u64(out, n);
    proof {
        assert(out@ =~= old(out)@ + pad3(dec(n as nat)));
    }
}

} // verus!

verus! {

/// The text from `pos` to the end of the buffer.
pub open spec fn suffix(v: Seq<char>, pos: int) -> Seq<char> {
    v.subrange(pos, v.len() as int)
}

/// One character as it stands inside a quoted string: quote and backslash
/// are preceded by a backslash, everything else stands as itself.
pub open spec fn esc_char(c: char) -> Seq<char> {
    if c == '"' || c == '\\' {
        seq!['\\', c]
    } else {
        seq![c]
    }
}

/// A string's characters with the quoting escapes applied.
pub open spec fn esc(s: Seq<char>) -> Seq<char>
    decreases s.len(),
{
    if s.len() == 0 {
        Seq::empty()
    } else {
        esc_char(s[0]) + esc(s.drop_first())
    }
}

/// A quoted string: the escaped characters between two quotes.
pub open spec fn jstr(s: Seq<char>) -> Seq<char> {
    seq!['"'] + esc(s) + seq!['"']
}

/// Escaping distributes over appending one character.
pub proof fn lemma_esc_snoc(s: Seq<char>, c: char)
    ensures
        esc(s.push(c)) == esc(s) + esc_char(c),
    decreases s.len(),
{
    if s.len() == 0 {
        assert(s.push(c) =~= seq![c]);
        assert(seq![c].drop_first() =~= Seq::<char>::empty());
        assert(seq![c][0] == c);
        assert(esc(seq![c]) == esc_char(c) + esc(seq![c].drop_first()));
        assert(esc(s) == Seq::<char>::empty());
        assert(esc(s.push(c)) =~= esc(s) + esc_char(c));
    } else {
        assert(s.push(c).drop_first() =~= s.drop_first().push(c));
        lemma_esc_snoc(s.drop_first(), c);
        assert(s.push(c)[0] == s[0]);
        assert(esc(s.push(c)) =~= esc(s) + esc_char(c));
    }
}

/// Append `s` as a quoted string to the buffer.
pub fn push_jstr(out: &mut Vec<char>, s: &str)
    ensures
        final(out)@ == old(out)@ + jstr(s@),
{
    out.push('"');
    proof {
        assert(out@ =~= old(out)@ + seq!['"'] + esc(s@.subrange(0, 0)));
    }
    let len = s.unicode_len();
    let mut i: usize = 0;
    while i < len
        invariant
            len == s@.len(),
            i <= len,
            out@ == old(out)@ + seq!['"'] + esc(s@.subrange(0, i as int)),
        decreases len - i,
    {
        let c = s.get_char(i);
        if c == '"' || c == '\\' {
            out.push('\\');
            out.push(c);
        } else {
            out.push(c);
        }
        proof {
            assert(s@.subrange(0, i as int).push(s@[i as int]) =~= s@.subrange(0, i + 1));
            lemma_esc_snoc(s@.subrange(0, i as int), s@[i as int]);
            assert(out@ =~= old(out)@ + seq!['"'] + esc(s@.subrange(0, i + 1)));
        }
        i += 1;
    }
    out.push('"');
    proof {
        assert(s@.subrange(0, s@.len() as int) =~= s@);
        assert(out@ =~= old(out)@ + jstr(s@));
    }
}

/// Read a string body up to its closing quote, undoing the escapes: the
/// parsed characters and the rest of the input, or nothing when the input
/// ends before an unescaped closing quote.
pub open spec fn sparse_str(v: Seq<char>) -> Option<(Seq<char>, Seq<char>)>
    decreases v.len(),
{
    if v.len() == 0 {
        None
    } else if v[0] == '"' {
        Some((Seq::empty(), v.drop_first()))
    } else if v[0] == '\\' {
        if v.len() < 2 {
            None
        } else {
            match sparse_str(v.subrange(2, v.len() as int)) {
                Some(p) => Some((seq![v[1]] + p.0, p.1)),
                None => None,
            }
        }
    } else {
        match sparse_str(v.drop_first()) {
            Some(p) => Some((seq![v[0]] + p.0, p.1)),
            None => None,
        }
    }
}

/// A parsed string body leaves strictly less input than it was given.
pub proof fn lemma_sparse_str_shrinks(v: Seq<char>)
    ensures
        sparse_str(v) is Some ==> sparse_str(v).unwrap().1.len() < v.len(),
    decreases v.len(),
{
    if v.len() == 0 {
    } else if v[0] == '"' {
    } else if v[0] == '\\' {
        if v.len() >= 2 {
            lemma_sparse_str_shrinks(v.subrange(2, v.len() as int));
        }
    } else {
        lemma_sparse_str_shrinks(v.drop_first());
    }
}

/// Reading a string body inverts escaping: the escaped characters followed
/// by the closing quote parse back to the characters themselves.
pub proof fn lemma_sparse_str_esc(s: Seq<char>, rest: Seq<char>)
    ensures
        sparse_str(esc(s) + seq!['"'] + rest) == Some((s, rest)),
    decreases s.len(),
{
    let v = esc(s) + seq!['"'] + rest;
    if s.len() == 0 {
        assert(v =~= seq!['"'] + rest);
        assert(v[0] == '"');
        assert(v.drop_first() =~= rest);
        assert(s =~= Seq::<char>::empty());
    } else {
        let c = s[0];
        let s1 = s.drop_first();
        lemma_sparse_str_esc(s1, rest);
        let v1 = esc(s1) + seq!['"'] + rest;
        if c == '"' || c == '\\' {
            assert(v =~= seq!['\\', c] + v1);
            assert(v[0] == '\\' && v[1] == c);
            assert(v.subrange(2, v.len() as int) =~= v1);
            assert(seq![c] + s1 =~= s);
        } else {
            assert(v =~= seq![c] + v1);
            assert(v[0] == c);
            assert(v.drop_first() =~= v1);
            assert(seq![c] + s1 =~= s);
        }
    }
}

/// Read a quoted string: an opening quote, the escaped body, the closing
/// quote.
pub open spec fn sparse_jstr(v: Seq<char>) -> Option<(Seq<char>, Seq<char>)> {
    if v.len() > 0 && v[0] == '"' {
        sparse_str(v.drop_first())
    } else {
        None
    }
}

/// A parsed quoted string leaves strictly less input than it was given.
pub proof fn lemma_sparse_jstr_shrinks(v: Seq<char>)
    ensures
        sparse_jstr(v) is Some ==> sparse_jstr(v).unwrap().1.len() < v.len(),
{
    if v.len() > 0 && v[0] == '"' {
        lemma_sparse_str_shrinks(v.drop_first());
    }
}

/// Reading a quoted string inverts writing one.
pub proof fn lemma_sparse_jstr_of(s: Seq<char>, rest: Seq<char>)
    ensures
        sparse_jstr(jstr(s) + rest) == Some((s, rest)),
{
    let v = jstr(s) + rest;
    assert(v[0] == '"');
    assert(v.drop_first() =~= esc(s) + seq!['"'] + rest);
    lemma_sparse_str_esc(s, rest);
}

/// Read an expected literal: the rest of the input when `v` starts with
/// `lit`, nothing otherwise.
pub open spec fn sparse_lit(v: Seq<char>, lit: Seq<char>) -> Option<Seq<char>> {
    if lit.len() <= v.len() && v.subrange(0, lit.len() as int) == lit {
        Some(v.subrange(lit.len() as int, v.len() as int))
    } else {
        None
    }
}

/// Reading a literal it was given back succeeds and leaves the rest.
pub proof fn lemma_sparse_lit_prefix(lit: Seq<char>, rest: Seq<char>)
    ensures
        sparse_lit(lit + rest, lit) == Some(rest),
{
    let v = lit + rest;
    assert(v.subrange(0, lit.len() as int) =~= lit);
    assert(v.subrange(lit.len() as int, v.len() as int) =~= rest);
}

/// Match the literal `lit` at `pos`; the position just after it, or
/// nothing when the buffer reads otherwise there.
pub fn parse_lit_at(v: &Vec<char>, pos: usize, lit: &str) -> (r: Option<usize>)
    requires
        pos <= v@.len(),
    ensures
        match sparse_lit(suffix(v@, pos as int), lit@) {
            None => r is None,
            Some(rest) => r is Some && r.unwrap() <= v@.len() && suffix(v@, r.unwrap() as int)
                == rest,
        },
{
    let llen = lit.unicode_len();
    let n = v.len();
    if n - pos < llen {
        return None;
    }
    let mut i: usize = 0;
    while i < llen
        invariant
            llen == lit@.len(),
            n == v@.len(),
            pos + llen <= n,
            i <= llen,
            forall|k: int| 0 <= k < i ==> v@[pos + k] == lit@[k],
        decreases llen - i,
    {
        if v[pos + i] != lit.get_char(i) {
            proof {
                let suf = suffix(v@, pos as int);
                assert(suf.subrange(0, lit@.len() as int)[i as int] != lit@[i as int]);
                assert(suf.subrange(0, lit@.len() as int) != lit@);
            }
            return None;
        }
        i += 1;
    }
    proof {
        let suf = suffix(v@, pos as int);
        assert(suf.subrange(0, lit@.len() as int) =~= lit@);
        assert(suffix(v@, (pos + llen) as int) =~= suf.subrange(
            lit@.len() as int,
            suf.len() as int,
        ));
    }
    Some(pos + llen)
}

/// Read a quoted string at `pos`; the unescaped content and the position
/// just after the closing quote, or nothing when no well-formed quoted
/// string stands there.
pub fn parse_jstr_at(v: &Vec<char>, pos: usize) -> (r: Option<(String, usize)>)
    requires
        pos <= v@.len(),
    ensures
        match sparse_jstr(suffix(v@, pos as int)) {
            None => r is None,
            Some(p) => r is Some && r.unwrap().0@ == p.0 && r.unwrap().1 <= v@.len() && suffix(
                v@,
                r.unwrap().1 as int,
            ) == p.1,
        },
{
    if pos >= v.len() || v[pos] != '"' {
        return None;
    }
    let mut content: Vec<char> = Vec::new();
    let mut i: usize = pos + 1;
    proof {
        assert(suffix(v@, pos as int)[0] == '"');
        assert(suffix(v@, pos as int).drop_first() =~= suffix(v@, pos + 1));
        let full = sparse_str(suffix(v@, pos + 1));
        if full is Some {
            assert(content@ + full.unwrap().0 =~= full.unwrap().0);
        }
    }
    loop
        invariant
            pos + 1 <= i <= v@.len(),
            sparse_jstr(suffix(v@, pos as int)) == sparse_str(suffix(v@, pos + 1)),
            ({
                let full = sparse_str(suffix(v@, pos + 1));
                let cur = sparse_str(suffix(v@, i as int));
                match cur {
                    Some(p) => full == Some((content@ + p.0, p.1)),
                    None => full is None,
                }
            }),
        decreases v@.len() - i,
    {
        if i >= v.len() {
            proof {
                assert(suffix(v@, i as int).len() == 0);
            }
            return None;
        }
        let c = v[i];
        if c == '"' {
            proof {
                let suf = suffix(v@, i as int);
                assert(suf[0] == '"');
                assert(suf.drop_first() =~= suffix(v@, i + 1));
                assert(content@ + Seq::<char>::empty() =~= content@);
            }
            let s = chars_to_string(&content);
            return Some((s, i + 1));
        } else if c == '\\' {
            if i + 1 >= v.len() {
                proof {
                    assert(suffix(v@, i as int).len() < 2);
                }
                return None;
            }
            let c2 = v[i + 1];
            proof {
                let suf = suffix(v@, i as int);
                assert(suf[0] == '\\' && suf.len() >= 2 && suf[1] == c2);
                assert(suf.subrange(2, suf.len() as int) =~= suffix(v@, i + 2));
            }
            let ghost content0 = content@;
            content.push(c2);
            proof {
                let nxt = sparse_str(suffix(v@, i + 2));
                if nxt is Some {
                    let p = nxt.unwrap();
                    assert(content0 + (seq![c2] + p.0) =~= content@ + p.0);
                }
            }
            i += 2;
        } else {
            proof {
                let suf = suffix(v@, i as int);
                assert(suf[0] == c && c != '"' && c != '\\');
                assert(suf.drop_first() =~= suffix(v@, i + 1));
            }
            let ghost content0 = content@;
            content.push(c);
            proof {
                let nxt = sparse_str(suffix(v@, i + 1));
                if nxt is Some {
                    let p = nxt.unwrap();
                    assert(content0 + (seq![c] + p.0) =~= content@ + p.0);
                }
            }
            i += 1;
        }
    }
}

} // verus!
