//! Comparison of an encoded exposition with an expected one, where the values
//! of some series cannot be known in advance.
//!
//! Texts are read as their UTF-8 bytes. Every byte that the comparison looks
//! for (`\n`, `\r`, ` `, `#` and the patterns `_ratio` and `_seconds`) is ASCII,
//! so the byte-level reading agrees with the character-level one.
use vstd::prelude::*;
use vstd::string::StringSliceAdditionalSpecFns;

verus! {

/// The index of the first `x` in `s`, or the length of `s` where there is none.
pub open spec fn first_index_of(s: Seq<u8>, x: u8) -> int
    decreases s.len(),
{
    if s.len() == 0 {
        0
    } else if s[0] == x {
        0
    } else {
        1 + first_index_of(s.drop_first(), x)
    }
}

/// `first_index_of` is the least index holding `x`, or the length.
pub proof fn lemma_first_index_of(s: Seq<u8>, x: u8)
    ensures
        0 <= first_index_of(s, x) <= s.len(),
        forall|j: int| 0 <= j < first_index_of(s, x) ==> s[j] != x,
        first_index_of(s, x) < s.len() ==> s[first_index_of(s, x)] == x,
    decreases s.len(),
{
    if s.len() > 0 && s[0] != x {
        lemma_first_index_of(s.drop_first(), x);
        assert forall|j: int| 0 <= j < first_index_of(s, x) implies s[j] != x by {
            if j > 0 {
                assert(s[j] == s.drop_first()[j - 1]);
            }
        }
    }
}

/// A line without the `\r` that precedes its `\n`, where it has one.
pub open spec fn strip_cr(line: Seq<u8>) -> Seq<u8> {
    if line.len() > 0 && line.last() == 13u8 {
        line.drop_last()
    } else {
        line
    }
}

/// The first line of a non-empty text: up to its first `\n`, without the `\r`
/// before that `\n`; or the whole text where it holds no `\n`.
pub open spec fn first_line(s: Seq<u8>) -> Seq<u8> {
    let i = first_index_of(s, 10u8);
    if i == s.len() {
        s
    } else {
        strip_cr(s.take(i))
    }
}

/// What follows the first line of a text and its `\n`.
pub open spec fn after_first_line(s: Seq<u8>) -> Seq<u8> {
    let i = first_index_of(s, 10u8);
    if i == s.len() {
        Seq::empty()
    } else {
        s.skip(i + 1)
    }
}

/// The lines of a text, as `str::lines` gives them: split at each `\n`, a `\r`
/// before the `\n` dropped, and no empty line after a final `\n`.
pub open spec fn text_lines(s: Seq<u8>) -> Seq<Seq<u8>>
    decreases s.len(),
{
    if s.len() == 0 {
        Seq::empty()
    } else {
        proof {
            lemma_first_index_of(s, 10u8);
        }
        seq![first_line(s)] + text_lines(after_first_line(s))
    }
}

/// Whether `p` occurs in `line` at index `k`.
pub open spec fn occurs_at(line: Seq<u8>, p: Seq<u8>, k: int) -> bool {
    0 <= k && k + p.len() <= line.len() && line.subrange(k, k + p.len()) == p
}

/// Whether `p` occurs in `line`.
pub open spec fn occurs_in(line: Seq<u8>, p: Seq<u8>) -> bool {
    exists|k: int| occurs_at(line, p, k)
}

/// The bytes of `_ratio`.
pub open spec fn ratio_pattern() -> Seq<u8> {
    seq![95u8, 114u8, 97u8, 116u8, 105u8, 111u8]
}

/// The bytes of `_seconds`.
pub open spec fn seconds_pattern() -> Seq<u8> {
    seq![95u8, 115u8, 101u8, 99u8, 111u8, 110u8, 100u8, 115u8]
}

/// Whether a line of the actual output is compared by its series alone: it is
/// not a comment (it does not start with `#`) and its text holds `_ratio` or
/// `_seconds`, so that its value cannot be known in advance.
pub open spec fn is_approx_line(line: Seq<u8>) -> bool {
    &&& !(line.len() > 0 && line[0] == 35u8)
    &&& (occurs_in(line, ratio_pattern()) || occurs_in(line, seconds_pattern()))
}

/// Whether a line holds a space.
pub open spec fn has_space(line: Seq<u8>) -> bool {
    first_index_of(line, 32u8) < line.len()
}

/// The series of a line: what precedes its first space.
pub open spec fn series_of(line: Seq<u8>) -> Seq<u8> {
    line.take(first_index_of(line, 32u8))
}

/// The value of a line: what follows its first space.
pub open spec fn value_of(line: Seq<u8>) -> Seq<u8> {
    line.skip(first_index_of(line, 32u8) + 1)
}

/// Whether an actual line agrees with the expected one: by the series, where
/// the actual line is compared approximately (and then both lines must hold a
/// space); otherwise exactly.
pub open spec fn lines_agree(actual: Seq<u8>, expected: Seq<u8>) -> bool {
    if is_approx_line(actual) {
        &&& has_space(actual)
        &&& has_space(expected)
        &&& series_of(actual) == series_of(expected)
    } else {
        actual == expected
    }
}

/// The number of line pairs that are compared: the lines of the shorter text.
pub open spec fn compared_lines(actual: Seq<u8>, expected: Seq<u8>) -> int {
    let n = text_lines(actual).len();
    let m = text_lines(expected).len();
    if n <= m {
        n as int
    } else {
        m as int
    }
}

/// The values of the approximately compared lines among the first `n` lines.
pub open spec fn approx_values(lines: Seq<Seq<u8>>, n: int) -> Seq<Seq<u8>>
    decreases n,
{
    if n <= 0 {
        Seq::empty()
    } else if is_approx_line(lines[n - 1]) {
        approx_values(lines, n - 1).push(value_of(lines[n - 1]))
    } else {
        approx_values(lines, n - 1)
    }
}

/// The index of the first `x` in `b[from..to]`, or `to` where there is none.
fn find_byte(b: &[u8], from: usize, to: usize, x: u8) -> (r: usize)
    requires
        from <= to <= b@.len(),
    ensures
        r - from == first_index_of(b@.subrange(from as int, to as int), x),
        from <= r <= to,
{
    let mut i = from;
    while i < to && b[i] != x
        invariant
            from <= i <= to <= b@.len(),
            forall|j: int| from <= j < i ==> b@[j] != x,
        decreases to - i,
    {
        i = i + 1;
    }
    proof {
        let s = b@.subrange(from as int, to as int);
        lemma_first_index_of(s, x);
        let f = first_index_of(s, x);
        if f < i - from {
            assert(s[f] == b@[from + f]);
        }
        if i - from < f {
            assert(s[i - from] == b@[i as int]);
        }
    }
    i
}

/// Whether `a[alo..ahi]` and `b[blo..bhi]` hold the same bytes.
fn ranges_equal(a: &[u8], alo: usize, ahi: usize, b: &[u8], blo: usize, bhi: usize) -> (r: bool)
    requires
        alo <= ahi <= a@.len(),
        blo <= bhi <= b@.len(),
    ensures
        r == (a@.subrange(alo as int, ahi as int) == b@.subrange(blo as int, bhi as int)),
{
    if ahi - alo != bhi - blo {
        assert(a@.subrange(alo as int, ahi as int).len() != b@.subrange(blo as int, bhi as int).len());
        return false;
    }
    let len = ahi - alo;
    let mut i: usize = 0;
    while i < len
        invariant
            alo <= ahi <= a@.len(),
            blo <= bhi <= b@.len(),
            len == ahi - alo,
            len == bhi - blo,
            i <= len,
            forall|j: int|
                0 <= j < i ==> #[trigger] a@.subrange(alo as int, ahi as int)[j] == b@.subrange(
                    blo as int,
                    bhi as int,
                )[j],
        decreases len - i,
    {
        if a[alo + i] != b[blo + i] {
            assert(a@.subrange(alo as int, ahi as int)[i as int] != b@.subrange(blo as int, bhi as int)[i as int]);
            return false;
        }
        i = i + 1;
    }
    assert(a@.subrange(alo as int, ahi as int) =~= b@.subrange(blo as int, bhi as int));
    true
}

/// Whether `p` occurs in `b[lo..hi]`.
fn range_holds(b: &[u8], lo: usize, hi: usize, p: &Vec<u8>) -> (r: bool)
    requires
        lo <= hi <= b@.len(),
        p@.len() > 0,
    ensures
        r == occurs_in(b@.subrange(lo as int, hi as int), p@),
{
    let ghost line = b@.subrange(lo as int, hi as int);
    let plen = p.len();
    if hi - lo < plen {
        assert forall|k: int| !occurs_at(line, p@, k) by {}
        return false;
    }
    let mut k: usize = lo;
    while k <= hi - plen
        invariant
            lo <= k <= hi - plen + 1,
            0 < plen <= hi - lo,
            hi <= b@.len(),
            plen == p@.len(),
            line == b@.subrange(lo as int, hi as int),
            forall|j: int| 0 <= j < k - lo ==> !occurs_at(line, p@, j),
        decreases hi - plen + 1 - k,
    {
        let found = ranges_equal(b, k, k + plen, p.as_slice(), 0, plen);
        assert(p@.subrange(0, plen as int) =~= p@);
        assert(line.subrange(k - lo, k - lo + plen) =~= b@.subrange(k as int, k + plen));
        if found {
            assert(occurs_at(line, p@, k - lo));
            return true;
        }
        k = k + 1;
    }
    assert forall|j: int| !occurs_at(line, p@, j) by {}
    false
}

/// Copies `b[lo..hi]`.
fn copy_range(b: &[u8], lo: usize, hi: usize) -> (r: Vec<u8>)
    requires
        lo <= hi <= b@.len(),
    ensures
        r@ == b@.subrange(lo as int, hi as int),
{
    let mut r: Vec<u8> = Vec::new();
    let mut i = lo;
    while i < hi
        invariant
            lo <= i <= hi <= b@.len(),
            r@ == b@.subrange(lo as int, i as int),
        decreases hi - i,
    {
        r.push(b[i]);
        i = i + 1;
        assert(r@ =~= b@.subrange(lo as int, i as int));
    }
    r
}

/// The bounds of the first line of `b[from..]`: the line is `b[from..end]`, and
/// the text after it starts at `next`.
fn next_line(b: &[u8], from: usize) -> (r: (usize, usize))
    requires
        from < b@.len(),
    ensures
        from <= r.0 <= b@.len(),
        from < r.1 <= b@.len(),
        b@.subrange(from as int, r.0 as int) == first_line(b@.skip(from as int)),
        b@.skip(r.1 as int) == after_first_line(b@.skip(from as int)),
{
    let len = b.len();
    let nl = find_byte(b, from, len, 10u8);
    let ghost s = b@.skip(from as int);
    assert(b@.subrange(from as int, len as int) =~= s);
    if nl == len {
        assert(b@.subrange(from as int, len as int) =~= s);
        assert(b@.skip(len as int) =~= Seq::<u8>::empty());
        (len, len)
    } else {
        assert(s.take(nl - from) =~= b@.subrange(from as int, nl as int));
        assert(s.skip(nl - from + 1) =~= b@.skip(nl + 1));
        if nl > from && b[nl - 1] == 13u8 {
            assert(b@.subrange(from as int, nl as int).drop_last() =~= b@.subrange(
                from as int,
                nl - 1,
            ));
            (nl - 1, nl + 1)
        } else {
            (nl, nl + 1)
        }
    }
}

/// Whether the line `b[lo..hi]` is compared approximately.
fn line_is_approx(b: &[u8], lo: usize, hi: usize) -> (r: bool)
    requires
        lo <= hi <= b@.len(),
    ensures
        r == is_approx_line(b@.subrange(lo as int, hi as int)),
{
    if hi > lo && b[lo] == 35u8 {
        return false;
    }
    let ratio: Vec<u8> = vec![95u8, 114u8, 97u8, 116u8, 105u8, 111u8];
    let seconds: Vec<u8> = vec![95u8, 115u8, 101u8, 99u8, 111u8, 110u8, 100u8, 115u8];
    assert(ratio@ =~= ratio_pattern());
    assert(seconds@ =~= seconds_pattern());
    range_holds(b, lo, hi, &ratio) || range_holds(b, lo, hi, &seconds)
}

/// Whether every compared pair of lines of `actual` and `expected` agrees.
pub open spec fn outputs_agree(actual: Seq<u8>, expected: Seq<u8>) -> bool {
    forall|i: int|
        0 <= i < compared_lines(actual, expected) ==> lines_agree(
            #[trigger] text_lines(actual)[i],
            text_lines(expected)[i],
        )
}

/// Asserts that the actual output of an encoding agrees with the expected one,
/// line by line, over as many lines as the shorter text has, and hands back
/// the values of the approximately compared lines, in order.
///
/// A line of the actual output that is not a comment and whose text holds
/// `_ratio` or `_seconds` has a value that cannot be known in advance: it must
/// name the same series as the expected line (what precedes the first space),
/// and its value is handed back, for the caller to check that it is a non-zero
/// number. Every other line must equal the expected one. Outputs that do not
/// agree are left out by `requires`; `compare_approx_output` tells which
/// outputs agree.
pub fn assert_approx_output(actual: &str, expected: &str) -> (r: Vec<Vec<u8>>)
    requires
        outputs_agree(actual.spec_bytes(), expected.spec_bytes()),
    ensures
        r.deep_view() == approx_values(
            text_lines(actual.spec_bytes()),
            compared_lines(actual.spec_bytes(), expected.spec_bytes()),
        ),
{
    match compare_approx_output(actual, expected) {
        Ok(values) => values,
        Err(i) => {
            proof {
                assert(lines_agree(
                    text_lines(actual.spec_bytes())[i as int],
                    text_lines(expected.spec_bytes())[i as int],
                ));
            }
            Vec::new()
        },
    }
}

/// Compares the actual output of an encoding with the expected one, line by
/// line, over as many lines as the shorter text has, as `assert_approx_output`
/// does.
///
/// Returns the values of the approximately compared lines, in order, or the
/// index of the first pair of lines that does not agree.
pub fn compare_approx_output(actual: &str, expected: &str) -> (r: Result<Vec<Vec<u8>>, usize>)
    ensures
        ({
            let la = text_lines(actual.spec_bytes());
            let le = text_lines(expected.spec_bytes());
            let n = compared_lines(actual.spec_bytes(), expected.spec_bytes());
            match r {
                Ok(values) => {
                    &&& forall|i: int| 0 <= i < n ==> lines_agree(#[trigger] la[i], le[i])
                    &&& values.deep_view() == approx_values(la, n)
                },
                Err(i) => {
                    &&& i < n
                    &&& !lines_agree(la[i as int], le[i as int])
                    &&& forall|j: int| 0 <= j < i ==> lines_agree(#[trigger] la[j], le[j])
                },
            }
        }),
{
    let a = actual.as_bytes();
    let e = expected.as_bytes();
    let ghost la = text_lines(a@);
    let ghost le = text_lines(e@);
    let mut pa: usize = 0;
    let mut pe: usize = 0;
    let mut k: usize = 0;
    let mut values: Vec<Vec<u8>> = Vec::new();
    assert(a@.skip(0) =~= a@);
    assert(e@.skip(0) =~= e@);
    while pa < a.len() && pe < e.len()
        invariant
            pa <= a@.len(),
            pe <= e@.len(),
            k <= la.len(),
            k <= le.len(),
            k <= pa,
            a@ == actual.spec_bytes(),
            e@ == expected.spec_bytes(),
            la == text_lines(actual.spec_bytes()),
            le == text_lines(expected.spec_bytes()),
            text_lines(a@.skip(pa as int)) == la.skip(k as int),
            text_lines(e@.skip(pe as int)) == le.skip(k as int),
            forall|j: int| 0 <= j < k ==> lines_agree(#[trigger] la[j], le[j]),
            values.deep_view() == approx_values(la, k as int),
        decreases a@.len() - pa,
    {
        let ghost sa = a@.skip(pa as int);
        let ghost se = e@.skip(pe as int);
        let (a_end, a_next) = next_line(a, pa);
        let (e_end, e_next) = next_line(e, pe);
        proof {
            assert(text_lines(sa) == seq![first_line(sa)] + text_lines(after_first_line(sa)));
            assert(text_lines(se) == seq![first_line(se)] + text_lines(after_first_line(se)));
            assert(la.skip(k as int)[0] == la[k as int]);
            assert(le.skip(k as int)[0] == le[k as int]);
            assert(la.skip(k + 1) =~= la.skip(k as int).drop_first());
            assert(le.skip(k + 1) =~= le.skip(k as int).drop_first());
            assert(text_lines(after_first_line(sa)) =~= text_lines(sa).drop_first());
            assert(text_lines(after_first_line(se)) =~= text_lines(se).drop_first());
        }
        assert(k < la.len() && k < le.len());
        let ghost al = la[k as int];
        let ghost el = le[k as int];
        assert(al == a@.subrange(pa as int, a_end as int));
        assert(el == e@.subrange(pe as int, e_end as int));
        if line_is_approx(a, pa, a_end) {
            let a_space = find_byte(a, pa, a_end, 32u8);
            let e_space = find_byte(e, pe, e_end, 32u8);
            if a_space == a_end || e_space == e_end {
                return Err(k);
            }
            assert(series_of(al) =~= a@.subrange(pa as int, a_space as int));
            assert(series_of(el) =~= e@.subrange(pe as int, e_space as int));
            if !ranges_equal(a, pa, a_space, e, pe, e_space) {
                return Err(k);
            }
            let value = copy_range(a, a_space + 1, a_end);
            assert(value_of(al) =~= a@.subrange(a_space + 1, a_end as int));
            assert(value.deep_view() =~= value@);
            let ghost before = values.deep_view();
            values.push(value);
            assert(values.deep_view() =~= before.push(value_of(al)));
        } else {
            if !ranges_equal(a, pa, a_end, e, pe, e_end) {
                return Err(k);
            }
            assert(values.deep_view() =~= approx_values(la, k + 1));
        }
        pa = a_next;
        pe = e_next;
        k = k + 1;
    }
    proof {
        if pa == a@.len() {
            assert(a@.skip(pa as int) =~= Seq::<u8>::empty());
            assert(la.skip(k as int).len() == 0);
        } else {
            assert(e@.skip(pe as int) =~= Seq::<u8>::empty());
            assert(le.skip(k as int).len() == 0);
        }
    }
    Ok(values)
}

} // verus!
