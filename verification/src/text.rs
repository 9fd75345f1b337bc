//! Verified text building blocks: whitespace trimming, line splitting,
//! joining with a separator, and decimal and hexadecimal rendering.

use vstd::prelude::*;

verus! {

/// Whether `c` has the Unicode `White_Space` property, the set of characters
/// that Rust's `str::trim` removes.
pub open spec fn is_ws(c: char) -> bool {
    c == ' ' || c == '\u{9}' || c == '\u{a}' || c == '\u{b}' || c == '\u{c}' || c == '\u{d}'
        || c == '\u{85}' || c == '\u{a0}' || c == '\u{1680}' || ('\u{2000}' <= c && c
        <= '\u{200a}') || c == '\u{2028}' || c == '\u{2029}' || c == '\u{202f}' || c == '\u{205f}'
        || c == '\u{3000}'
}

/// Whether `c` has the Unicode `White_Space` property.
pub fn is_whitespace_char(c: char) -> (r: bool)
    ensures
        r == is_ws(c),
{
    c == ' ' || c == '\u{9}' || c == '\u{a}' || c == '\u{b}' || c == '\u{c}' || c == '\u{d}'
        || c == '\u{85}' || c == '\u{a0}' || c == '\u{1680}' || ('\u{2000}' <= c && c
        <= '\u{200a}') || c == '\u{2028}' || c == '\u{2029}' || c == '\u{202f}' || c == '\u{205f}'
        || c == '\u{3000}'
}

/// The number of leading whitespace characters.
pub open spec fn ws_prefix(s: Seq<char>) -> int
    decreases s.len(),
{
    if s.len() > 0 && is_ws(s[0]) {
        1 + ws_prefix(s.drop_first())
    } else {
        0
    }
}

/// The number of trailing whitespace characters.
pub open spec fn ws_suffix(s: Seq<char>) -> int
    decreases s.len(),
{
    if s.len() > 0 && is_ws(s.last()) {
        1 + ws_suffix(s.drop_last())
    } else {
        0
    }
}

/// What trimming leading and trailing whitespace from `s` leaves.
pub open spec fn trim_model(s: Seq<char>) -> Seq<char> {
    if ws_prefix(s) == s.len() {
        Seq::<char>::empty()
    } else {
        s.subrange(ws_prefix(s), s.len() - ws_suffix(s))
    }
}

proof fn lemma_ws_prefix_unique(s: Seq<char>, i: int)
    requires
        0 <= i <= s.len(),
        forall|k: int| 0 <= k < i ==> is_ws(s[k]),
        i < s.len() ==> !is_ws(s[i]),
    ensures
        ws_prefix(s) == i,
    decreases s.len(),
{
    if i == 0 {
        if s.len() > 0 {
            assert(!is_ws(s[0]));
        }
    } else {
        assert(is_ws(s[0]));
        let t = s.drop_first();
        assert(forall|k: int| 0 <= k < i - 1 ==> is_ws(#[trigger] t[k]) && t[k] == s[k + 1]);
        lemma_ws_prefix_unique(t, i - 1);
    }
}

proof fn lemma_ws_suffix_unique(s: Seq<char>, j: int)
    requires
        0 <= j <= s.len(),
        forall|k: int| s.len() - j <= k < s.len() ==> is_ws(s[k]),
        j < s.len() ==> !is_ws(s[s.len() - j - 1]),
    ensures
        ws_suffix(s) == j,
    decreases s.len(),
{
    if j == 0 {
        if s.len() > 0 {
            assert(!is_ws(s.last()));
        }
    } else {
        assert(is_ws(s.last()));
        let t = s.drop_last();
        assert(forall|k: int| t.len() - (j - 1) <= k < t.len() ==> is_ws(#[trigger] t[k]) && t[k]
            == s[k]);
        lemma_ws_suffix_unique(t, j - 1);
    }
}

/// Removes leading and trailing whitespace.
pub fn trim_str(s: &str) -> (r: &str)
    ensures
        r@ == trim_model(s@),
{
    let n = s.unicode_len();
    let mut i: usize = 0;
    while i < n && is_whitespace_char(s.get_char(i))
        invariant
            n == s@.len(),
            0 <= i <= n,
            forall|k: int| 0 <= k < i ==> is_ws(s@[k]),
        decreases n - i,
    {
        i += 1;
    }
    proof {
        lemma_ws_prefix_unique(s@, i as int);
    }
    if i == n {
        proof {
            assert(trim_model(s@) =~= Seq::<char>::empty());
            assert(s@.subrange(0, 0) =~= Seq::<char>::empty());
        }
        return s.substring_char(0, 0);
    }
    let mut j: usize = 0;
    while j < n - i && is_whitespace_char(s.get_char(n - 1 - j))
        invariant
            n == s@.len(),
            0 <= i < n,
            0 <= j <= n - i,
            !is_ws(s@[i as int]),
            forall|k: int| n - j <= k < n ==> is_ws(s@[k]),
        decreases n - i - j,
    {
        j += 1;
    }
    proof {
        if j == n - i {
            // impossible: the non-whitespace character at i would lie in the
            // counted suffix
            assert(is_ws(s@[i as int]));
            assert(false);
        }
        assert(!is_ws(s@[n - j - 1]));
        lemma_ws_suffix_unique(s@, j as int);
    }
    s.substring_char(i, n - j)
}

/// The index of the first line feed, or the length when there is none.
pub open spec fn nl_prefix(s: Seq<char>) -> int
    decreases s.len(),
{
    if s.len() > 0 && s[0] != '\n' {
        1 + nl_prefix(s.drop_first())
    } else {
        0
    }
}

proof fn lemma_nl_prefix_range(s: Seq<char>)
    ensures
        0 <= nl_prefix(s) <= s.len(),
    decreases s.len(),
{
    if s.len() > 0 && s[0] != '\n' {
        lemma_nl_prefix_range(s.drop_first());
    }
}

proof fn lemma_nl_prefix_unique(s: Seq<char>, i: int)
    requires
        0 <= i <= s.len(),
        forall|k: int| 0 <= k < i ==> s[k] != '\n',
        i < s.len() ==> s[i] == '\n',
    ensures
        nl_prefix(s) == i,
    decreases s.len(),
{
    if i == 0 {
    } else {
        let t = s.drop_first();
        assert(forall|k: int| 0 <= k < i - 1 ==> #[trigger] t[k] == s[k + 1]);
        lemma_nl_prefix_unique(t, i - 1);
    }
}

/// The content of a line that ends right before index `k`: a carriage return
/// that precedes the line feed is dropped.
pub open spec fn line_chunk(s: Seq<char>, k: int) -> Seq<char> {
    if k > 0 && s[k - 1] == '\r' {
        s.subrange(0, k - 1)
    } else {
        s.subrange(0, k)
    }
}

/// The lines of `s`, split at `\n` or `\r\n`, as Rust's `str::lines` yields
/// them: the final line ending is optional, and a carriage return not
/// followed by a line feed stays in its line.
pub open spec fn lines_model(s: Seq<char>) -> Seq<Seq<char>>
    decreases s.len(),
    via lines_model_decreases
{
    if s.len() == 0 {
        Seq::<Seq<char>>::empty()
    } else {
        let k = nl_prefix(s);
        if k == s.len() {
            seq![s]
        } else {
            seq![line_chunk(s, k)] + lines_model(s.skip(k + 1))
        }
    }
}

#[via_fn]
proof fn lines_model_decreases(s: Seq<char>) {
    lemma_nl_prefix_range(s);
}

/// Splits `s` into its lines, as `lines_model` describes.
pub fn split_lines(s: &str) -> (r: Vec<String>)
    ensures
        r@.map_values(|l: String| l@) == lines_model(s@),
    decreases s@.len(),
{
    let n = s.unicode_len();
    if n == 0 {
        let r: Vec<String> = Vec::new();
        proof {
            assert(r@.map_values(|l: String| l@) =~= lines_model(s@));
        }
        return r;
    }
    let mut k: usize = 0;
    while k < n && s.get_char(k) != '\n'
        invariant
            n == s@.len(),
            0 <= k <= n,
            forall|j: int| 0 <= j < k ==> s@[j] != '\n',
        decreases n - k,
    {
        k += 1;
    }
    proof {
        lemma_nl_prefix_unique(s@, k as int);
    }
    if k == n {
        let line = s.to_owned();
        let mut r: Vec<String> = Vec::new();
        r.push(line);
        proof {
            assert(r@.map_values(|l: String| l@) =~= lines_model(s@));
        }
        return r;
    }
    let chunk_end = if k > 0 && s.get_char(k - 1) == '\r' {
        k - 1
    } else {
        k
    };
    let line = s.substring_char(0, chunk_end).to_owned();
    let rest = s.substring_char(k + 1, n);
    proof {
        assert(rest@ =~= s@.skip(k + 1));
        assert(rest@.len() < s@.len());
    }
    let mut r: Vec<String> = Vec::new();
    r.push(line);
    let mut tail = split_lines(rest);
    r.append(&mut tail);
    proof {
        assert(line@ == line_chunk(s@, k as int));
        assert(r@.map_values(|l: String| l@) =~= seq![line_chunk(s@, k as int)] + lines_model(
            s@.skip(k as int + 1),
        ));
    }
    r
}

/// The lines joined with the HTML line-break marker.
pub open spec fn join_br(lines: Seq<Seq<char>>) -> Seq<char>
    decreases lines.len(),
{
    if lines.len() == 0 {
        Seq::<char>::empty()
    } else if lines.len() == 1 {
        lines[0]
    } else {
        lines[0] + "<br/>"@ + join_br(lines.drop_first())
    }
}

proof fn lemma_join_br_push(lines: Seq<Seq<char>>, x: Seq<char>)
    ensures
        join_br(lines.push(x)) == if lines.len() == 0 {
            x
        } else {
            join_br(lines) + "<br/>"@ + x
        },
    decreases lines.len(),
{
    if lines.len() == 0 {
        assert(lines.push(x)[0] == x);
        assert(lines.push(x).len() == 1);
    } else {
        lemma_join_br_push(lines.drop_first(), x);
        assert(lines.push(x).drop_first() =~= lines.drop_first().push(x));
        if lines.len() == 1 {
            assert(lines.drop_first().len() == 0);
            assert(join_br(lines.push(x)) == lines[0] + "<br/>"@ + x);
            assert(join_br(lines) == lines[0]);
        } else {
            assert(join_br(lines.push(x)) == lines[0] + "<br/>"@ + join_br(
                lines.drop_first().push(x),
            ));
            assert(join_br(lines.drop_first().push(x)) == join_br(lines.drop_first()) + "<br/>"@
                + x);
            assert(lines[0] + "<br/>"@ + (join_br(lines.drop_first()) + "<br/>"@ + x) =~= (lines[0]
                + "<br/>"@ + join_br(lines.drop_first())) + "<br/>"@ + x);
        }
    }
}

/// What the description body is rendered to: the trimmed text, split into
/// lines, each line trimmed again, joined with the line-break marker.
pub open spec fn desc_body_model(s: Seq<char>) -> Seq<char> {
    join_br(lines_model(trim_model(s)).map_values(|l: Seq<char>| trim_model(l)))
}

/// Renders a free-text description: trims it, splits it into lines, trims
/// each line, and joins them with the HTML line-break marker.
pub fn render_description(s: &str) -> (r: String)
    ensures
        r@ == desc_body_model(s@),
{
    let trimmed = trim_str(s);
    let lines = split_lines(trimmed);
    let mut out = String::new();
    let n = lines.len();
    let mut i: usize = 0;
    while i < n
        invariant
            n == lines@.len(),
            0 <= i <= n,
            out@ == join_br(
                lines@.subrange(0, i as int).map_values(|l: String| l@).map_values(
                    |l: Seq<char>| trim_model(l),
                ),
            ),
        decreases n - i,
    {
        let t = trim_str(lines[i].as_str());
        if i > 0 {
            out.append("<br/>");
        }
        out.append(t);
        proof {
            let prev = lines@.subrange(0, i as int).map_values(|l: String| l@).map_values(
                |l: Seq<char>| trim_model(l),
            );
            let cur = lines@.subrange(0, i as int + 1).map_values(|l: String| l@).map_values(
                |l: Seq<char>| trim_model(l),
            );
            assert(cur =~= prev.push(trim_model(lines@[i as int]@)));
            lemma_join_br_push(prev, trim_model(lines@[i as int]@));
            if i == 0 {
                assert(out@ =~= join_br(cur));
            } else {
                assert(out@ =~= join_br(cur));
            }
        }
        i += 1;
    }
    proof {
        assert(lines@.subrange(0, n as int) =~= lines@);
        assert(lines@.map_values(|l: String| l@).map_values(|l: Seq<char>| trim_model(l))
            == lines_model(trimmed@).map_values(|l: Seq<char>| trim_model(l)));
    }
    out
}

/// Relies on `String::push`: appends one character.
#[verifier::external_body]
pub(crate) fn push_char(s: &mut String, c: char) -> (r: ())
    ensures
        final(s)@ == old(s)@.push(c),
{
    s.push(c)
}

/// The decimal digit character for `d`.
pub open spec fn dec_digit(d: int) -> char {
    if d == 0 {
        '0'
    } else if d == 1 {
        '1'
    } else if d == 2 {
        '2'
    } else if d == 3 {
        '3'
    } else if d == 4 {
        '4'
    } else if d == 5 {
        '5'
    } else if d == 6 {
        '6'
    } else if d == 7 {
        '7'
    } else if d == 8 {
        '8'
    } else {
        '9'
    }
}

fn dec_digit_char(d: u64) -> (r: char)
    requires
        d < 10,
    ensures
        r == dec_digit(d as int),
{
    if d == 0 {
        '0'
    } else if d == 1 {
        '1'
    } else if d == 2 {
        '2'
    } else if d == 3 {
        '3'
    } else if d == 4 {
        '4'
    } else if d == 5 {
        '5'
    } else if d == 6 {
        '6'
    } else if d == 7 {
        '7'
    } else if d == 8 {
        '8'
    } else {
        '9'
    }
}

/// The decimal rendering of a nonnegative number.
pub open spec fn dec_nat(n: int) -> Seq<char>
    decreases n,
{
    if n < 10 {
        seq![dec_digit(n)]
    } else {
        dec_nat(n / 10).push(dec_digit(n % 10))
    }
}

/// The decimal rendering of a possibly negative number.
pub open spec fn dec_int(n: int) -> Seq<char> {
    if n < 0 {
        seq!['-'] + dec_nat(-n)
    } else {
        dec_nat(n)
    }
}

/// Renders a nonnegative number in decimal.
pub fn u64_to_dec(n: u64) -> (r: String)
    ensures
        r@ == dec_nat(n as int),
    decreases n,
{
    if n < 10 {
        let mut r = String::new();
        push_char(&mut r, dec_digit_char(n));
        proof {
            assert(r@ =~= seq![dec_digit(n as int)]);
        }
        r
    } else {
        let mut r = u64_to_dec(n / 10);
        push_char(&mut r, dec_digit_char(n % 10));
        r
    }
}

/// Renders a number in decimal, with a leading minus sign when negative.
pub fn i64_to_dec(n: i64) -> (r: String)
    ensures
        r@ == dec_int(n as int),
{
    if n >= 0 {
        u64_to_dec(n as u64)
    } else {
        let mag: u64 = (-(n as i128)) as u64;
        let mut r = String::new();
        push_char(&mut r, '-');
        let digits = u64_to_dec(mag);
        r.append(digits.as_str());
        proof {
            assert(r@ =~= seq!['-'] + dec_nat(mag as int));
        }
        r
    }
}

/// The rendering of a number padded with zeros to at least two characters,
/// as Rust's `{:02}` formatting yields it.
pub open spec fn pad2_model(n: int) -> Seq<char> {
    if 0 <= n <= 9 {
        seq!['0', dec_digit(n)]
    } else {
        dec_int(n)
    }
}

/// Renders a number in decimal, zero-padded to at least two characters.
pub fn pad2(n: i64) -> (r: String)
    ensures
        r@ == pad2_model(n as int),
{
    if 0 <= n && n <= 9 {
        let mut r = String::new();
        push_char(&mut r, '0');
        push_char(&mut r, dec_digit_char(n as u64));
        proof {
            assert(r@ =~= seq!['0', dec_digit(n as int)]);
        }
        r
    } else {
        i64_to_dec(n)
    }
}

/// The lower-case hexadecimal digit character for `d`.
pub open spec fn hex_digit(d: int) -> char {
    if d < 10 {
        dec_digit(d)
    } else if d == 10 {
        'a'
    } else if d == 11 {
        'b'
    } else if d == 12 {
        'c'
    } else if d == 13 {
        'd'
    } else if d == 14 {
        'e'
    } else {
        'f'
    }
}

fn hex_digit_char(d: u64) -> (r: char)
    requires
        d < 16,
    ensures
        r == hex_digit(d as int),
{
    if d < 10 {
        dec_digit_char(d)
    } else if d == 10 {
        'a'
    } else if d == 11 {
        'b'
    } else if d == 12 {
        'c'
    } else if d == 13 {
        'd'
    } else if d == 14 {
        'e'
    } else {
        'f'
    }
}

/// The `i`-th hexadecimal digit, counted from the most significant of the
/// 32 digits of a 128-bit value.
pub open spec fn nibble(v: u128, i: int) -> int {
    ((v >> (((31 - i) * 4) as u128)) & 0xf) as int
}

proof fn lemma_nibble_bound(v: u128, sh: u128)
    ensures
        (v >> sh) & 0xf < 16,
{
    assert((v >> sh) & 0xf < 16) by (bit_vector);
}

/// The hexadecimal rendering of digits `from` up to `from + len` of a
/// 128-bit value.
pub open spec fn hex_group_model(v: u128, from: int, len: nat) -> Seq<char> {
    Seq::new(len, |k: int| hex_digit(nibble(v, from + k)))
}

/// Renders hexadecimal digits `from` up to `from + len` of `v`.
pub fn hex_group(v: u128, from: usize, len: usize) -> (r: String)
    requires
        from + len <= 32,
    ensures
        r@ == hex_group_model(v, from as int, len as nat),
{
    let mut r = String::new();
    let mut k: usize = 0;
    while k < len
        invariant
            from + len <= 32,
            0 <= k <= len,
            r@ == hex_group_model(v, from as int, k as nat),
        decreases len - k,
    {
        let idx = from + k;
        let sh: u128 = ((31 - idx) as u128) * 4;
        proof {
            lemma_nibble_bound(v, sh);
        }
        let d: u128 = (v >> sh) & 0xf;
        push_char(&mut r, hex_digit_char(d as u64));
        proof {
            assert(r@ =~= hex_group_model(v, from as int, (k + 1) as nat));
        }
        k += 1;
    }
    r
}

} // verus!
