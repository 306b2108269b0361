//! Text helpers of the generator: decimal printing of integers, and the
//! splitting of a template at every occurrence of a marker, as `str::replace`
//! does it (left to right, occurrences do not overlap).
use vstd::prelude::*;
use crate::code::{ChunkView, Code, txt};

verus! {

/// The decimal digit `d` (for `d < 10`).
pub open spec fn digit_char(d: nat) -> char {
    if d == 0 {
        '0'
    } else if d == 1 {
        '1'
    } else if d == 2 {
        '2'
    } else if d == 3 {
        '3'
    } else if d == 4 {
        '4'
    } else if d == 5 {
        '5'
    } else if d == 6 {
        '6'
    } else if d == 7 {
        '7'
    } else if d == 8 {
        '8'
    } else {
        '9'
    }
}

/// The decimal notation of `n`, without sign or leading zeros.
pub open spec fn decimal(n: nat) -> Seq<char>
    decreases n,
{
    if n < 10 {
        seq![digit_char(n)]
    } else {
        decimal(n / 10).push(digit_char(n % 10))
    }
}

fn digit_str(d: u32) -> (r: &'static str)
    requires
        d < 10,
    ensures
        r@ == seq![digit_char(d as nat)],
{
    if d == 0 {
        proof {
            reveal_strlit("0");
        }
        "0"
    } else if d == 1 {
        proof {
            reveal_strlit("1");
        }
        "1"
    } else if d == 2 {
        proof {
            reveal_strlit("2");
        }
        "2"
    } else if d == 3 {
        proof {
            reveal_strlit("3");
        }
        "3"
    } else if d == 4 {
        proof {
            reveal_strlit("4");
        }
        "4"
    } else if d == 5 {
        proof {
            reveal_strlit("5");
        }
        "5"
    } else if d == 6 {
        proof {
            reveal_strlit("6");
        }
        "6"
    } else if d == 7 {
        proof {
            reveal_strlit("7");
        }
        "7"
    } else if d == 8 {
        proof {
            reveal_strlit("8");
        }
        "8"
    } else {
        proof {
            reveal_strlit("9");
        }
        "9"
    }
}

/// `n` printed in decimal, as `format!("{}", n)` prints a `u32`.
pub fn decimal_string(n: u32) -> (s: String)
    ensures
        s@ == decimal(n as nat),
    decreases n,
{
    let mut s = if n >= 10 {
        decimal_string(n / 10)
    } else {
        String::new()
    };
    s.append(digit_str(n % 10));
    proof {
        if n < 10 {
            assert(s@ =~= seq![digit_char(n as nat)]);
        }
    }
    s
}

/// The characters of `s`, in order.
pub fn chars_of(s: &str) -> (v: Vec<char>)
    ensures
        v@ == s@,
{
    let mut v: Vec<char> = Vec::new();
    for c in it: s.chars()
        invariant
            v@ == it.seq().take(it.index() as int),
    {
        v.push(c);
    }
    v
}

/// `pat` occurs in `s` starting at position `i`.
pub open spec fn occurs_at(s: Seq<char>, pat: Seq<char>, i: int) -> bool {
    0 <= i && i + pat.len() <= s.len() && s.subrange(i, i + pat.len()) == pat
}

/// The pieces of `s[start..]` between the occurrences of `pat`, scanning for
/// the next occurrence from position `i` on; an occurrence is skipped over
/// whole before the scan goes on, so occurrences do not overlap.
pub open spec fn split_scan(s: Seq<char>, pat: Seq<char>, start: int, i: int) -> Seq<Seq<char>>
    decreases s.len() - i,
{
    if pat.len() == 0 || i < 0 || i + pat.len() > s.len() {
        seq![s.subrange(start, s.len() as int)]
    } else if occurs_at(s, pat, i) {
        seq![s.subrange(start, i)] + split_scan(s, pat, i + pat.len(), i + pat.len())
    } else {
        split_scan(s, pat, start, i + 1)
    }
}

/// The pieces of `s` between the occurrences of a non-empty `pat`, found left
/// to right without overlap: the parts that `str::replace` keeps.
pub open spec fn split_pieces(s: Seq<char>, pat: Seq<char>) -> Seq<Seq<char>> {
    split_scan(s, pat, 0, 0)
}

/// The pieces joined with `sep` between each two neighbours.
pub open spec fn join(pieces: Seq<Seq<char>>, sep: Seq<char>) -> Seq<char>
    decreases pieces.len(),
{
    if pieces.len() == 0 {
        Seq::<char>::empty()
    } else if pieces.len() == 1 {
        pieces[0]
    } else {
        join(pieces.drop_last(), sep) + sep + pieces.last()
    }
}

/// The pieces as text chunks, with `code` between each two neighbours.
pub open spec fn interleave(pieces: Seq<Seq<char>>, code: Seq<ChunkView>) -> Seq<ChunkView>
    decreases pieces.len(),
{
    if pieces.len() == 0 {
        Seq::<ChunkView>::empty()
    } else if pieces.len() == 1 {
        txt(pieces[0])
    } else {
        interleave(pieces.drop_last(), code) + code + txt(pieces.last())
    }
}

/// `replace(s, pat, rep)` of `str`, for a non-empty `pat`.
pub open spec fn replace_all(s: Seq<char>, pat: Seq<char>, rep: Seq<char>) -> Seq<char> {
    join(split_pieces(s, pat), rep)
}

/// `s` holds `pat` somewhere.
pub open spec fn contains(s: Seq<char>, pat: Seq<char>) -> bool {
    exists|i: int| occurs_at(s, pat, i)
}

/// Splitting always yields at least one piece.
pub proof fn lemma_split_scan_nonempty(s: Seq<char>, pat: Seq<char>, start: int, i: int)
    ensures
        split_scan(s, pat, start, i).len() >= 1,
    decreases s.len() - i,
{
    if pat.len() == 0 || i < 0 || i + pat.len() > s.len() {
    } else if occurs_at(s, pat, i) {
        lemma_split_scan_nonempty(s, pat, i + pat.len(), i + pat.len());
    } else {
        lemma_split_scan_nonempty(s, pat, start, i + 1);
    }
}

/// Interleaving a first piece in front of a non-empty list of pieces.
proof fn lemma_interleave_cons(p: Seq<char>, rest: Seq<Seq<char>>, code: Seq<ChunkView>)
    requires
        rest.len() >= 1,
    ensures
        interleave(seq![p] + rest, code) == txt(p) + code + interleave(rest, code),
    decreases rest.len(),
{
    let all = seq![p] + rest;
    assert(all.last() == rest.last());
    if rest.len() == 1 {
        assert(all.drop_last() =~= seq![p]);
        assert(interleave(rest, code) == txt(rest[0]));
        assert(interleave(seq![p], code) == txt(p));
        assert(interleave(all, code) == txt(p) + code + txt(rest[0]));
    } else {
        assert(all.drop_last() =~= seq![p] + rest.drop_last());
        lemma_interleave_cons(p, rest.drop_last(), code);
        let mid = interleave(rest.drop_last(), code);
        assert(interleave(all, code) == (txt(p) + code + mid) + code + txt(rest.last()));
        assert(interleave(rest, code) == mid + code + txt(rest.last()));
        assert((txt(p) + code + mid) + code + txt(rest.last()) =~= txt(p) + code + (mid + code
            + txt(rest.last())));
    }
}

/// Whether `pat` occurs in `s` at position `i`.
fn occurs_at_exec(s: &Vec<char>, pat: &Vec<char>, i: usize) -> (r: bool)
    requires
        i + pat@.len() <= s@.len(),
    ensures
        r == occurs_at(s@, pat@, i as int),
{
    let m = pat.len();
    let n = s.len();
    let mut j: usize = 0;
    while j < m
        invariant
            m == pat@.len(),
            n == s@.len(),
            i + m <= n,
            j <= m,
            forall|k: int| 0 <= k < j ==> s@[i + k] == pat@[k],
        decreases m - j,
    {
        if s[i + j] != pat[j] {
            assert(s@.subrange(i as int, i + m)[j as int] != pat@[j as int]);
            return false;
        }
        j += 1;
    }
    assert(s@.subrange(i as int, i + m) =~= pat@);
    true
}

/// `template` with every occurrence of the non-empty `marker` replaced by
/// `code`, as `str::replace` does it: the pieces between the occurrences,
/// found left to right without overlap, become text chunks with `code`
/// between each two of them.
pub fn replace_marker(template: &str, marker: &str, code: &Code) -> (r: Code)
    requires
        marker@.len() > 0,
    ensures
        r@ == interleave(split_pieces(template@, marker@), code@),
{
    let s = chars_of(template);
    let pat = chars_of(marker);
    let n = s.len();
    let m = pat.len();
    let ghost target = interleave(split_pieces(template@, marker@), code@);
    let mut out = Code::new();
    let mut start: usize = 0;
    let mut i: usize = 0;
    proof {
        assert(out@ + interleave(split_scan(s@, pat@, 0, 0), code@) =~= target);
    }
    while m <= n - i
        invariant
            s@ == template@,
            pat@ == marker@,
            n == s@.len(),
            m == pat@.len(),
            m > 0,
            start <= i <= n,
            target == interleave(split_pieces(template@, marker@), code@),
            out@ + interleave(split_scan(s@, pat@, start as int, i as int), code@) == target,
        decreases n - i,
    {
        if occurs_at_exec(&s, &pat, i) {
            let piece = template.substring_char(start, i);
            let ghost pv = s@.subrange(start as int, i as int);
            let ghost rest = split_scan(s@, pat@, (i + m) as int, (i + m) as int);
            proof {
                lemma_split_scan_nonempty(s@, pat@, (i + m) as int, (i + m) as int);
                lemma_interleave_cons(pv, rest, code@);
                assert(split_scan(s@, pat@, start as int, i as int) == seq![pv] + rest);
            }
            let ghost before = out@;
            out.push_string(String::from_str(piece));
            out.append_copy(code);
            i = i + m;
            start = i;
            proof {
                assert(out@ + interleave(rest, code@) =~= before + (txt(pv) + code@ + interleave(
                    rest,
                    code@,
                )));
            }
        } else {
            i = i + 1;
        }
    }
    let tail = template.substring_char(start, n);
    proof {
        assert(split_scan(s@, pat@, start as int, i as int) == seq![
            s@.subrange(start as int, n as int),
        ]);
    }
    out.push_string(String::from_str(tail));
    out
}

} // verus!
