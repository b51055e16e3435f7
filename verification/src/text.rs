//! Character-sequence helpers shared by the text components.
//!
//! Texts are held as vectors of `char`; their model is the `Seq<char>` that
//! `String::view` also uses, so a `String` and its character vector share one
//! model.
use vstd::prelude::*;
use vstd::string::StrSliceExecFns;
use vstd::string::StringExecFns;

verus! {

/// Number of bytes the UTF-8 encoding of `c` takes.
pub open spec fn char_utf8_len(c: char) -> nat {
    if (c as u32) < 0x80 {
        1
    } else if (c as u32) < 0x800 {
        2
    } else if (c as u32) < 0x10000 {
        3
    } else {
        4
    }
}

/// Number of bytes the UTF-8 encoding of the whole sequence takes.
pub open spec fn utf8_len(s: Seq<char>) -> nat
    decreases s.len(),
{
    if s.len() == 0 {
        0
    } else {
        utf8_len(s.drop_last()) + char_utf8_len(s.last())
    }
}

/// The encoded length of a concatenation is the sum of the encoded lengths.
pub proof fn lemma_utf8_len_concat(a: Seq<char>, b: Seq<char>)
    ensures
        utf8_len(a + b) == utf8_len(a) + utf8_len(b),
    decreases b.len(),
{
    if b.len() == 0 {
        assert(a + b =~= a);
    } else {
        lemma_utf8_len_concat(a, b.drop_last());
        assert((a + b).drop_last() =~= a + b.drop_last());
        assert((a + b).last() == b.last());
    }
}

/// A prefix is never longer, in bytes, than the whole sequence.
pub proof fn lemma_utf8_len_prefix(s: Seq<char>, i: int)
    requires
        0 <= i <= s.len(),
    ensures
        utf8_len(s.take(i)) <= utf8_len(s),
{
    lemma_utf8_len_concat(s.take(i), s.skip(i));
    assert(s.take(i) + s.skip(i) =~= s);
}

/// The byte offset of the character index `k` in the UTF-8 encoding of `l`.
pub open spec fn byte_offset(l: Seq<char>, k: int) -> nat {
    utf8_len(l.take(k))
}

/// Whether the byte offset `b` falls between two characters of `l` (or at an end).
pub open spec fn is_char_boundary(l: Seq<char>, b: nat) -> bool {
    exists|k: int| 0 <= k <= l.len() && #[trigger] byte_offset(l, k) == b
}

/// The character index at the byte offset `b` of `l`, where that offset is a
/// character boundary.
pub open spec fn index_at_byte(l: Seq<char>, b: nat) -> nat {
    (choose|k: int| 0 <= k <= l.len() && #[trigger] byte_offset(l, k) == b) as nat
}

/// One more character adds its encoded length to the byte offset.
pub proof fn lemma_byte_offset_step(l: Seq<char>, k: int)
    requires
        0 <= k < l.len(),
    ensures
        byte_offset(l, k + 1) == byte_offset(l, k) + char_utf8_len(l[k]),
{
    assert(l.take(k + 1).drop_last() =~= l.take(k));
    assert(l.take(k + 1).last() == l[k]);
}

/// Byte offsets grow strictly with the character index.
pub proof fn lemma_byte_offset_strict(l: Seq<char>, i: int, j: int)
    requires
        0 <= i < j <= l.len(),
    ensures
        byte_offset(l, i) < byte_offset(l, j),
    decreases j - i,
{
    lemma_byte_offset_step(l, j - 1);
    if i < j - 1 {
        lemma_byte_offset_strict(l, i, j - 1);
    }
}

/// The byte offset past the last character is the encoded length.
pub proof fn lemma_byte_offset_end(l: Seq<char>)
    ensures
        byte_offset(l, l.len() as int) == utf8_len(l),
{
    assert(l.take(l.len() as int) =~= l);
}

/// At a boundary, `index_at_byte` is the one index with that byte offset.
pub proof fn lemma_index_at_byte(l: Seq<char>, k: int)
    requires
        0 <= k <= l.len(),
    ensures
        is_char_boundary(l, byte_offset(l, k)),
        index_at_byte(l, byte_offset(l, k)) == k,
{
    let b = byte_offset(l, k);
    assert(0 <= k <= l.len() && byte_offset(l, k) == b);
    let c = choose|c: int| 0 <= c <= l.len() && #[trigger] byte_offset(l, c) == b;
    if c < k {
        lemma_byte_offset_strict(l, c, k);
    } else if k < c {
        lemma_byte_offset_strict(l, k, c);
    }
}

/// The character index in `dst` at the byte offset of index `col` of `src`,
/// that offset cut to the encoded length of `dst`; `None` when that offset
/// falls inside a character of `dst`.
pub fn index_at_clamped_byte(src: &Vec<char>, col: usize, dst: &Vec<char>) -> (r: Option<usize>)
    requires
        col <= src@.len(),
    ensures
        ({
            let t = if byte_offset(src@, col as int) <= utf8_len(dst@) {
                byte_offset(src@, col as int)
            } else {
                utf8_len(dst@)
            };
            &&& r is Some <==> is_char_boundary(dst@, t)
            &&& r matches Some(k) ==> k <= dst@.len() && byte_offset(dst@, k as int) == t && k == index_at_byte(dst@, t)
        }),
{
    let mut i: usize = 0;
    let mut j: usize = 0;
    let mut d: i32 = 0;
    while (i < col && d <= 0) || (j < dst.len() && d > 0)
        invariant
            i <= col <= src@.len(),
            j <= dst@.len(),
            d == byte_offset(src@, i as int) - byte_offset(dst@, j as int),
            -4 <= d <= 4,
            j > 0 ==> byte_offset(dst@, j - 1) < byte_offset(src@, i as int),
        decreases (col - i) + (dst@.len() - j),
    {
        if i < col && d <= 0 {
            proof {
                lemma_byte_offset_step(src@, i as int);
                lemma_byte_offset_strict(src@, i as int, i + 1);
            }
            let n = char_len_utf8(src[i]);
            d = d + n as i32;
            i = i + 1;
        } else {
            proof {
                lemma_byte_offset_step(dst@, j as int);
            }
            let n = char_len_utf8(dst[j]);
            d = d - n as i32;
            j = j + 1;
        }
    }
    let ghost b = byte_offset(src@, col as int);
    let ghost t = if b <= utf8_len(dst@) { b } else { utf8_len(dst@) };
    proof {
        lemma_byte_offset_end(dst@);
        if i < col {
            lemma_byte_offset_strict(src@, i as int, col as int);
        }
    }
    if d > 0 {
        proof {
            lemma_index_at_byte(dst@, dst@.len() as int);
        }
        Some(dst.len())
    } else if d == 0 {
        proof {
            if j < dst@.len() {
                lemma_byte_offset_strict(dst@, j as int, dst@.len() as int);
            }
            lemma_index_at_byte(dst@, j as int);
        }
        Some(j)
    } else {
        proof {
            if j < dst@.len() {
                lemma_byte_offset_strict(dst@, j as int, dst@.len() as int);
            }
            assert(t == b);
            assert forall|k: int| 0 <= k <= dst@.len() implies #[trigger] byte_offset(dst@, k) != t by {
                if k < j {
                    if k < j - 1 {
                        lemma_byte_offset_strict(dst@, k, j - 1);
                    }
                } else if k > j {
                    lemma_byte_offset_strict(dst@, j as int, k);
                }
            }
        }
        None
    }
}

/// Whether the UTF-8 encoding of `v` takes at least `limit` bytes.
pub fn utf8_len_at_least(v: &Vec<char>, limit: usize) -> (b: bool)
    ensures
        b == (utf8_len(v@) >= limit),
{
    let mut acc: usize = 0;
    let mut i: usize = 0;
    while i < v.len()
        invariant
            i <= v@.len(),
            acc == utf8_len(v@.take(i as int)),
            acc < limit || (i == 0 && limit == 0),
        decreases v@.len() - i,
    {
        if acc >= limit {
            proof {
                lemma_utf8_len_prefix(v@, i as int);
            }
            return true;
        }
        let n = char_len_utf8(v[i]);
        assert(v@.take(i + 1).drop_last() =~= v@.take(i as int));
        if n >= limit - acc {
            proof {
                lemma_utf8_len_prefix(v@, i + 1);
            }
            return true;
        }
        acc = acc + n;
        i = i + 1;
    }
    assert(v@.take(i as int) =~= v@);
    acc >= limit
}

/// The number of bytes of the UTF-8 encoding of `v`, counted up to `cap`.
pub fn utf8_len_capped(v: &Vec<char>, cap: usize) -> (r: usize)
    ensures
        r == (if utf8_len(v@) < cap {
            utf8_len(v@)
        } else {
            cap as nat
        }),
{
    let mut acc: usize = 0;
    let mut i: usize = 0;
    while i < v.len()
        invariant
            i <= v@.len(),
            acc == utf8_len(v@.take(i as int)),
            acc < cap || (i == 0 && cap == 0),
        decreases v@.len() - i,
    {
        if acc >= cap {
            proof {
                lemma_utf8_len_prefix(v@, i as int);
            }
            return cap;
        }
        let n = char_len_utf8(v[i]);
        assert(v@.take(i + 1).drop_last() =~= v@.take(i as int));
        if n >= cap - acc {
            proof {
                lemma_utf8_len_prefix(v@, i + 1);
            }
            return cap;
        }
        acc = acc + n;
        i = i + 1;
    }
    assert(v@.take(i as int) =~= v@);
    if acc >= cap {
        return cap;
    }
    acc
}

/// The lines of `ls` joined by newline characters.
pub open spec fn join_lines(ls: Seq<Seq<char>>) -> Seq<char>
    decreases ls.len(),
{
    if ls.len() == 0 {
        Seq::empty()
    } else if ls.len() == 1 {
        ls[0]
    } else {
        join_lines(ls.drop_last()) + seq!['\n'] + ls.last()
    }
}

/// The line with one trailing carriage return removed, if it has one.
pub open spec fn strip_cr(l: Seq<char>) -> Seq<char> {
    if l.len() > 0 && l.last() == '\r' {
        l.drop_last()
    } else {
        l
    }
}

/// The completed lines and the pending line after reading `s` from the left.
pub open spec fn lines_scan(s: Seq<char>) -> (Seq<Seq<char>>, Seq<char>)
    decreases s.len(),
{
    if s.len() == 0 {
        (Seq::empty(), Seq::empty())
    } else {
        let (done, cur) = lines_scan(s.drop_last());
        if s.last() == '\n' {
            (done.push(strip_cr(cur)), Seq::empty())
        } else {
            (done, cur.push(s.last()))
        }
    }
}

/// The lines of `s` as `str::lines` documents them: split at `\n` or `\r\n`,
/// the final line ending optional, an empty text holding no line.
pub open spec fn lines_of(s: Seq<char>) -> Seq<Seq<char>> {
    let (done, cur) = lines_scan(s);
    if cur.len() > 0 {
        done.push(cur)
    } else {
        done
    }
}

/// Reading a text without carriage returns, the completed lines and the
/// pending one joined by newlines give the text back.
pub proof fn lemma_lines_scan_join(s: Seq<char>)
    requires
        forall|i: int| 0 <= i < s.len() ==> s[i] != '\r',
    ensures
        join_lines(lines_scan(s).0.push(lines_scan(s).1)) == s,
        lines_scan(s).1.len() > 0 ==> lines_scan(s).1.last() == s.last(),
        s.len() > 0 && s.last() != '\n' ==> lines_scan(s).1.len() > 0,
    decreases s.len(),
{
    if s.len() > 0 {
        let t = s.drop_last();
        assert forall|i: int| 0 <= i < t.len() implies t[i] != '\r' by {
            assert(t[i] == s[i]);
        }
        lemma_lines_scan_join(t);
        let (d, c) = lines_scan(t);
        assert(d.push(c).drop_last() =~= d);
        if s.last() == '\n' {
            if c.len() > 0 {
                assert(c.last() == s[s.len() - 2]);
            }
            assert(strip_cr(c) == c);
            let e = d.push(c).push(Seq::<char>::empty());
            assert(e.drop_last() =~= d.push(c));
            assert(join_lines(e) =~= t + seq!['\n'] + Seq::<char>::empty());
            assert(t + seq!['\n'] + Seq::<char>::empty() =~= s);
        } else {
            let c2 = c.push(s.last());
            let e = d.push(c2);
            assert(e.drop_last() =~= d);
            if d.len() == 0 {
                assert(join_lines(d.push(c)) == c);
                assert(join_lines(e) == c2);
                assert(c2 =~= s);
            } else {
                assert(join_lines(d.push(c)) == join_lines(d) + seq!['\n'] + c);
                assert(join_lines(e) == join_lines(d) + seq!['\n'] + c2);
                assert(join_lines(d) + seq!['\n'] + c2 =~= (join_lines(d) + seq!['\n'] + c).push(s.last()));
                assert(t.push(s.last()) =~= s);
            }
        }
    } else {
        assert(Seq::<Seq<char>>::empty().push(Seq::<char>::empty()).len() == 1);
    }
}

/// Joining the lines of a text without carriage returns that does not end
/// with a newline gives the text back.
pub proof fn lemma_join_lines_of(s: Seq<char>)
    requires
        forall|i: int| 0 <= i < s.len() ==> s[i] != '\r',
        s.len() > 0,
        s.last() != '\n',
    ensures
        join_lines(lines_of(s)) == s,
{
    lemma_lines_scan_join(s);
}

/// Splits `v` into lines as `str::lines` does.
pub fn split_lines(v: &Vec<char>) -> (r: Vec<Vec<char>>)
    ensures
        r@.map_values(|l: Vec<char>| l@) == lines_of(v@),
{
    let mut done: Vec<Vec<char>> = Vec::new();
    let mut cur: Vec<char> = Vec::new();
    let mut i: usize = 0;
    while i < v.len()
        invariant
            i <= v@.len(),
            (done@.map_values(|l: Vec<char>| l@), cur@) == lines_scan(v@.take(i as int)),
        decreases v@.len() - i,
    {
        let c = v[i];
        assert(v@.take(i + 1).drop_last() =~= v@.take(i as int));
        assert(v@.take(i + 1).last() == c);
        if c == '\n' {
            if cur.len() > 0 && cur[cur.len() - 1] == '\r' {
                cur.pop();
            }
            let ghost old_done = done@;
            done.push(cur);
            assert(done@.map_values(|l: Vec<char>| l@) =~= old_done.map_values(|l: Vec<char>| l@).push(
                done@.last()@));
            cur = Vec::new();
        } else {
            cur.push(c);
        }
        i = i + 1;
    }
    assert(v@.take(i as int) =~= v@);
    if cur.len() > 0 {
        let ghost old_done = done@;
        done.push(cur);
        assert(done@.map_values(|l: Vec<char>| l@) =~= old_done.map_values(|l: Vec<char>| l@).push(
            done@.last()@));
    }
    done
}

/// Joins the lines with newline characters.
pub fn join_with_newlines(ls: &Vec<Vec<char>>) -> (r: Vec<char>)
    ensures
        r@ == join_lines(ls@.map_values(|l: Vec<char>| l@)),
{
    let ghost lv = ls@.map_values(|l: Vec<char>| l@);
    let mut r: Vec<char> = Vec::new();
    let mut i: usize = 0;
    while i < ls.len()
        invariant
            i <= ls@.len(),
            lv == ls@.map_values(|l: Vec<char>| l@),
            r@ == join_lines(lv.take(i as int)),
        decreases ls@.len() - i,
    {
        assert(lv.take(i + 1).drop_last() =~= lv.take(i as int));
        if i > 0 {
            r.push('\n');
        }
        let mut j: usize = 0;
        let ghost base = r@;
        while j < ls[i].len()
            invariant
                i < ls@.len(),
                j <= ls@[i as int]@.len(),
                r@ == base + ls@[i as int]@.take(j as int),
            decreases ls@[i as int]@.len() - j,
        {
            r.push(ls[i][j]);
            j = j + 1;
            assert(r@ =~= base + ls@[i as int]@.take(j as int));
        }
        assert(ls@[i as int]@.take(j as int) =~= ls@[i as int]@);
        if i == 0 {
            assert(r@ =~= lv.take(1)[0]);
        } else {
            assert(r@ =~= join_lines(lv.take(i as int)) + seq!['\n'] + lv.take(i + 1).last());
        }
        i = i + 1;
    }
    assert(lv.take(i as int) =~= lv);
    r
}

/// Byte length of one character, as `char::len_utf8` documents it.
pub fn char_len_utf8(c: char) -> (n: usize)
    ensures
        n == char_utf8_len(c),
{
    let v = c as u32;
    if v < 0x80 {
        1
    } else if v < 0x800 {
        2
    } else if v < 0x10000 {
        3
    } else {
        4
    }
}

/// Appends one character to a string (`String::push`).
#[verifier::external_body]
pub(crate) fn push_char(s: &mut String, c: char)
    ensures
        final(s)@ == old(s)@.push(c),
{
    s.push(c);
}

/// Appends the given characters to a string.
pub fn push_chars(s: &mut String, v: &Vec<char>)
    ensures
        final(s)@ == old(s)@ + v@,
{
    let mut i: usize = 0;
    while i < v.len()
        invariant
            i <= v@.len(),
            s@ == old(s)@ + v@.take(i as int),
        decreases v@.len() - i,
    {
        push_char(s, v[i]);
        i = i + 1;
        assert(v@.take(i as int) =~= v@.take(i - 1).push(v@[i - 1]));
        assert(old(s)@ + v@.take(i as int) =~= (old(s)@ + v@.take(i - 1)).push(v@[i - 1]));
    }
    assert(v@.take(i as int) =~= v@);
}

/// Builds a `String` holding exactly the given characters.
pub fn string_from_chars(v: &Vec<char>) -> (s: String)
    ensures
        s@ == v@,
{
    let mut s = String::new();
    push_chars(&mut s, v);
    assert(Seq::<char>::empty() + v@ =~= v@);
    s
}

/// The character of the decimal digit `d`.
pub open spec fn digit_char(d: nat) -> char {
    (48 + d) as char
}

/// Decimal notation of `n`, without leading zeros.
pub open spec fn decimal(n: nat) -> Seq<char>
    decreases n,
{
    if n < 10 {
        seq![digit_char(n)]
    } else {
        decimal(n / 10).push(digit_char(n % 10))
    }
}

/// Whether `s` starts with `p`.
pub open spec fn starts_with(s: Seq<char>, p: Seq<char>) -> bool {
    p.len() <= s.len() && s.take(p.len() as int) == p
}

/// Whether the characters `s` start with the characters `p`.
pub fn has_prefix(s: &Vec<char>, p: &Vec<char>) -> (r: bool)
    ensures
        r == starts_with(s@, p@),
{
    if p.len() > s.len() {
        return false;
    }
    let mut i: usize = 0;
    while i < p.len()
        invariant
            p@.len() <= s@.len(),
            i <= p@.len(),
            forall|k: int| 0 <= k < i ==> s@[k] == p@[k],
        decreases p@.len() - i,
    {
        if s[i] != p[i] {
            assert(s@.take(p@.len() as int)[i as int] != p@[i as int]);
            return false;
        }
        i = i + 1;
    }
    assert(s@.take(p@.len() as int) =~= p@);
    true
}

/// Whether two string slices hold the same characters.
pub fn str_eq(a: &str, b: &str) -> (r: bool)
    ensures
        r == (a@ == b@),
{
    let x = String::from_str(a);
    let y = String::from_str(b);
    x == y
}

/// Appends the decimal notation of `n` to `s`.
pub fn push_decimal(s: &mut String, n: usize)
    ensures
        final(s)@ == old(s)@ + decimal(n as nat),
    decreases n,
{
    if n >= 10 {
        push_decimal(s, n / 10);
    }
    let d: u8 = (n % 10) as u8;
    let c: char = (48u8 + d) as char;
    assert(c == digit_char((n % 10) as nat));
    push_char(s, c);
    if n >= 10 {
        assert(old(s)@ + decimal(n as nat) =~= (old(s)@ + decimal((n / 10) as nat)).push(c));
    } else {
        assert(old(s)@ + decimal(n as nat) =~= old(s)@.push(c));
    }
}

/// Appends the decimal notation of a 64-bit `n` to `s`.
pub fn push_decimal_u64(s: &mut String, n: u64)
    ensures
        final(s)@ == old(s)@ + decimal(n as nat),
    decreases n,
{
    if n >= 10 {
        push_decimal_u64(s, n / 10);
    }
    let d: u8 = (n % 10) as u8;
    let c: char = (48u8 + d) as char;
    assert(c == digit_char((n % 10) as nat));
    push_char(s, c);
    if n >= 10 {
        assert(old(s)@ + decimal(n as nat) =~= (old(s)@ + decimal((n / 10) as nat)).push(c));
    } else {
        assert(old(s)@ + decimal(n as nat) =~= old(s)@.push(c));
    }
}

/// Appends a string slice to a string.
pub fn push_str(s: &mut String, t: &str)
    ensures
        final(s)@ == old(s)@ + t@,
{
    s.append(t);
}

/// The characters of a string slice, in order.
pub fn chars_of(s: &str) -> (v: Vec<char>)
    ensures
        v@ == s@,
{
    let n = s.unicode_len();
    let mut v: Vec<char> = Vec::new();
    let mut i: usize = 0;
    while i < n
        invariant
            n == s@.len(),
            i <= n,
            v@ == s@.take(i as int),
        decreases n - i,
    {
        let c = s.get_char(i);
        assert(s@.take(i + 1) =~= s@.take(i as int).push(c));
        v.push(c);
        i = i + 1;
    }
    assert(s@.take(n as int) =~= s@);
    v
}

} // verus!

verus! {

/// Whether `c` has the Unicode `White_Space` property, which
/// `char::is_whitespace` documents as its meaning.
pub open spec fn is_white_space(c: char) -> bool {
    let u = c as u32;
    ||| (0x09 <= u && u <= 0x0d)
    ||| u == 0x20
    ||| u == 0x85
    ||| u == 0xa0
    ||| u == 0x1680
    ||| (0x2000 <= u && u <= 0x200a)
    ||| u == 0x2028
    ||| u == 0x2029
    ||| u == 0x202f
    ||| u == 0x205f
    ||| u == 0x3000
}

/// Whether `c` is white space.
pub fn white_space(c: char) -> (b: bool)
    ensures
        b == is_white_space(c),
{
    let u = c as u32;
    (0x09 <= u && u <= 0x0d) || u == 0x20 || u == 0x85 || u == 0xa0 || u == 0x1680 || (0x2000 <= u && u
        <= 0x200a) || u == 0x2028 || u == 0x2029 || u == 0x202f || u == 0x205f || u == 0x3000
}

/// `s` without its leading white space.
pub open spec fn trim_start(s: Seq<char>) -> Seq<char>
    decreases s.len(),
{
    if s.len() > 0 && is_white_space(s[0]) {
        trim_start(s.drop_first())
    } else {
        s
    }
}

/// `s` without its trailing white space.
pub open spec fn trim_end(s: Seq<char>) -> Seq<char>
    decreases s.len(),
{
    if s.len() > 0 && is_white_space(s.last()) {
        trim_end(s.drop_last())
    } else {
        s
    }
}

/// `s` without leading and trailing white space, as `str::trim` documents it.
pub open spec fn trimmed(s: Seq<char>) -> Seq<char> {
    trim_end(trim_start(s))
}

proof fn lemma_trim_start_skip(s: Seq<char>, i: int)
    requires
        0 <= i <= s.len(),
        forall|k: int| 0 <= k < i ==> is_white_space(#[trigger] s[k]),
    ensures
        trim_start(s) == trim_start(s.skip(i)),
    decreases i,
{
    if i > 0 {
        assert(s.drop_first().skip(i - 1) =~= s.skip(i));
        assert forall|k: int| 0 <= k < i - 1 implies is_white_space(#[trigger] s.drop_first()[k]) by {
            assert(s.drop_first()[k] == s[k + 1]);
        }
        lemma_trim_start_skip(s.drop_first(), i - 1);
    } else {
        assert(s.skip(0) =~= s);
    }
}

proof fn lemma_trim_end_take(s: Seq<char>, j: int)
    requires
        0 <= j <= s.len(),
        forall|k: int| j <= k < s.len() ==> is_white_space(#[trigger] s[k]),
    ensures
        trim_end(s) == trim_end(s.take(j)),
    decreases s.len() - j,
{
    if j < s.len() {
        assert(s.drop_last().take(j) =~= s.take(j));
        lemma_trim_end_take(s.drop_last(), j);
    } else {
        assert(s.take(j) =~= s);
    }
}

/// The characters of `s` without leading and trailing white space.
pub fn trim_chars(s: &str) -> (r: Vec<char>)
    ensures
        r@ == trimmed(s@),
{
    let v = chars_of(s);
    let mut i: usize = 0;
    while i < v.len() && white_space(v[i])
        invariant
            v@ == s@,
            i <= v@.len(),
            forall|k: int| 0 <= k < i ==> is_white_space(#[trigger] v@[k]),
        decreases v@.len() - i,
    {
        i = i + 1;
    }
    proof {
        lemma_trim_start_skip(v@, i as int);
    }
    let ghost t = v@.skip(i as int);
    assert(t.len() == 0 || !is_white_space(t[0]));
    assert(trim_start(t) == t);
    let mut j: usize = v.len();
    while j > i && white_space(v[j - 1])
        invariant
            v@ == s@,
            i <= j <= v@.len(),
            forall|k: int| j <= k < v@.len() ==> is_white_space(#[trigger] v@[k]),
        decreases j,
    {
        j = j - 1;
    }
    let ghost jt = (j - i) as int;
    assert forall|k: int| jt <= k < t.len() implies is_white_space(#[trigger] t[k]) by {
        assert(t[k] == v@[k + i]);
    }
    proof {
        lemma_trim_end_take(t, jt);
    }
    let ghost u = t.take(jt);
    assert(u.len() == 0 || !is_white_space(u.last())) by {
        if u.len() > 0 {
            assert(u.last() == v@[j - 1]);
        }
    }
    assert(trim_end(u) == u);
    let mut r: Vec<char> = Vec::new();
    let mut k: usize = i;
    while k < j
        invariant
            v@ == s@,
            i <= k <= j <= v@.len(),
            r@ == v@.subrange(i as int, k as int),
        decreases j - k,
    {
        r.push(v[k]);
        k = k + 1;
        assert(r@ =~= v@.subrange(i as int, k as int));
    }
    assert(r@ =~= u);
    r
}

} // verus!

verus! {

/// Whether `needle` occurs in `hay` as a contiguous run of characters.
pub open spec fn contains_sub(hay: Seq<char>, needle: Seq<char>) -> bool {
    exists|i: int| 0 <= i && i + needle.len() <= hay.len() && #[trigger] hay.subrange(i, i + needle.len()) == needle
}

/// Whether `needle` occurs in `hay` at position `i`.
fn occurs_at(hay: &Vec<char>, needle: &Vec<char>, i: usize) -> (b: bool)
    requires
        i + needle@.len() <= hay@.len(),
    ensures
        b == (hay@.subrange(i as int, i + needle@.len()) == needle@),
{
    let n = hay.len();
    let mut k: usize = 0;
    while k < needle.len()
        invariant
            n == hay@.len(),
            i + needle@.len() <= hay@.len(),
            k <= needle@.len(),
            forall|j: int| 0 <= j < k ==> hay@[i + j] == needle@[j],
        decreases needle@.len() - k,
    {
        if hay[i + k] != needle[k] {
            assert(hay@.subrange(i as int, i + needle@.len())[k as int] != needle@[k as int]);
            return false;
        }
        k = k + 1;
    }
    assert(hay@.subrange(i as int, i + needle@.len()) =~= needle@);
    true
}

/// Whether `needle` occurs in `hay`, as `str::contains` decides for a string pattern.
pub fn contains_chars(hay: &Vec<char>, needle: &Vec<char>) -> (b: bool)
    ensures
        b == contains_sub(hay@, needle@),
{
    if needle.len() > hay.len() {
        return false;
    }
    let last = hay.len() - needle.len();
    let mut i: usize = 0;
    loop
        invariant
            last + needle@.len() == hay@.len(),
            i <= last,
            forall|j: int| 0 <= j < i ==> #[trigger] hay@.subrange(j, j + needle@.len()) != needle@,
        decreases last - i,
    {
        if occurs_at(hay, needle, i) {
            return true;
        }
        if i == last {
            return false;
        }
        i = i + 1;
    }
}

/// What `str::to_lowercase` returns for a string with the characters `s`.
pub uninterp spec fn lowercase(s: Seq<char>) -> Seq<char>;

/// Calls `str::to_lowercase`. Claimed: the result is the named lower-case
/// form of the argument.
#[verifier::external_body]
pub(crate) fn to_lowercase(s: &str) -> (r: String)
    ensures
        r@ == lowercase(s@),
{
    s.to_lowercase()
}

/// The lower-case form of the given characters.
pub fn lowercase_chars(v: &Vec<char>) -> (r: Vec<char>)
    ensures
        r@ == lowercase(v@),
{
    let s = string_from_chars(v);
    let l = to_lowercase(s.as_str());
    chars_of(l.as_str())
}

} // verus!

verus! {

/// Where the leading white space ends and the trailing white space begins,
/// the characters between are the trimmed text.
pub proof fn lemma_trimmed_bounds(s: Seq<char>, i: int, j: int)
    requires
        0 <= i <= j <= s.len(),
        forall|k: int| 0 <= k < i ==> is_white_space(#[trigger] s[k]),
        forall|k: int| j <= k < s.len() ==> is_white_space(#[trigger] s[k]),
        i == j || (!is_white_space(s[i]) && !is_white_space(s[j - 1])),
        i < j || i == s.len() || !is_white_space(s[i]),
    ensures
        s.subrange(i, j) == trimmed(s),
{
    lemma_trim_start_skip(s, i);
    let t = s.skip(i);
    assert(t.len() == 0 || !is_white_space(t[0]));
    assert(trim_start(t) == t);
    let jt = j - i;
    assert forall|k: int| jt <= k < t.len() implies is_white_space(#[trigger] t[k]) by {
        assert(t[k] == s[k + i]);
    }
    lemma_trim_end_take(t, jt);
    let u = t.take(jt);
    assert(u.len() == 0 || !is_white_space(u.last())) by {
        if u.len() > 0 {
            assert(u.last() == s[j - 1]);
        }
    }
    assert(trim_end(u) == u);
    assert(u =~= s.subrange(i, j));
}

} // verus!
