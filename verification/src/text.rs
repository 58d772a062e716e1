//! Character-level text handling: searching, splitting, trimming and
//! building strings, with their meaning stated over `Seq<char>`.
use vstd::prelude::*;

verus! {

// ---------------------------------------------------------------------
// Searching
// ---------------------------------------------------------------------

/// `p` stands in `h` starting at position `i`.
pub open spec fn occurs_at(h: Seq<char>, p: Seq<char>, i: int) -> bool {
    0 <= i && i + p.len() <= h.len() && h.subrange(i, i + p.len()) == p
}

/// The first position at or after `from` where `p` stands in `h`
/// (what `str::find` gives on the text that starts at `from`).
pub open spec fn find_from(h: Seq<char>, p: Seq<char>, from: int) -> Option<int>
    decreases h.len() + 1 - from,
{
    if from < 0 || from + p.len() > h.len() {
        None
    } else if occurs_at(h, p, from) {
        Some(from)
    } else {
        find_from(h, p, from + 1)
    }
}

/// `p` stands somewhere in `h`.
pub open spec fn contains_seq(h: Seq<char>, p: Seq<char>) -> bool {
    find_from(h, p, 0) is Some
}

/// `p` stands in `t` as a piece: `t` is some text, then `p`, then some
/// text.
pub open spec fn holds_piece(t: Seq<char>, p: Seq<char>) -> bool {
    exists|x: Seq<char>, y: Seq<char>| t == #[trigger] ((x + p) + y)
}

/// What `find_from` gives is the least occurrence at or after `from`.
pub proof fn lemma_find_from(h: Seq<char>, p: Seq<char>, from: int)
    requires
        0 <= from,
    ensures
        match find_from(h, p, from) {
            Some(i) => from <= i && occurs_at(h, p, i) && forall|j: int|
                from <= j < i ==> !occurs_at(h, p, j),
            None => forall|j: int| from <= j ==> !occurs_at(h, p, j),
        },
    decreases h.len() + 1 - from,
{
    if from + p.len() > h.len() {
    } else if occurs_at(h, p, from) {
    } else {
        lemma_find_from(h, p, from + 1);
    }
}

/// The first occurrence at or after `from` is the one at `k` when `p`
/// stands at `k` and nowhere between `from` and `k`.
pub proof fn lemma_find_is(h: Seq<char>, p: Seq<char>, from: int, k: int)
    requires
        0 <= from <= k,
        occurs_at(h, p, k),
        forall|j: int| from <= j < k ==> !occurs_at(h, p, j),
    ensures
        find_from(h, p, from) == Some(k),
    decreases k - from,
{
    if from < k {
        lemma_find_is(h, p, from + 1, k);
    }
}

/// Whether `p` stands in `h` at position `i`.
pub fn matches_at(h: &[char], p: &[char], i: usize) -> (r: bool)
    ensures
        r == occurs_at(h@, p@, i as int),
{
    if i > h.len() || p.len() > h.len() - i {
        return false;
    }
    let mut k: usize = 0;
    while k < p.len()
        invariant
            i + p@.len() <= h@.len(),
            i + p.len() <= h.len(),
            k <= p@.len(),
            forall|j: int| 0 <= j < k ==> h@[i + j] == p@[j],
        decreases p.len() - k,
    {
        if h[i + k] != p[k] {
            assert(h@.subrange(i as int, i + p@.len())[k as int] != p@[k as int]);
            return false;
        }
        k = k + 1;
    }
    assert(h@.subrange(i as int, i + p@.len()) =~= p@);
    true
}

/// The first position at or after `from` where `p` stands in `h`.
pub fn find_chars(h: &[char], p: &[char], from: usize) -> (r: Option<usize>)
    ensures
        r matches Some(i) ==> from <= i && i + p.len() <= h.len(),
        match r {
            Some(i) => find_from(h@, p@, from as int) == Some(i as int),
            None => find_from(h@, p@, from as int) is None,
        },
{
    if p.len() > h.len() {
        return None;
    }
    let last = h.len() - p.len();
    let mut i = from;
    while i <= last
        invariant
            last + p@.len() == h@.len(),
            last + p.len() == h.len(),
            from <= i,
            find_from(h@, p@, from as int) == find_from(h@, p@, i as int),
        decreases last + 1 - i,
    {
        if matches_at(h, p, i) {
            return Some(i);
        }
        if i == last {
            assert(find_from(h@, p@, i + 1) is None);
            return None;
        }
        i = i + 1;
    }
    None
}

// ---------------------------------------------------------------------
// Splitting
// ---------------------------------------------------------------------

/// The pieces of `h` from position `pos` on, cut at each occurrence of
/// `p` (what `str::split` yields on that text, in order).
pub open spec fn split_from(h: Seq<char>, p: Seq<char>, pos: int) -> Seq<Seq<char>>
    decreases h.len() + 1 - pos,
{
    if p.len() == 0 || pos < 0 || pos > h.len() {
        Seq::empty()
    } else {
        match find_from(h, p, pos) {
            Some(i) => if pos <= i && i + p.len() <= h.len() {
                seq![h.subrange(pos, i)] + split_from(h, p, i + p.len())
            } else {
                Seq::empty()
            },
            None => seq![h.subrange(pos, h.len() as int)],
        }
    }
}

/// The pieces of `h` cut at each occurrence of the non-empty `p`.
pub open spec fn split_seq(h: Seq<char>, p: Seq<char>) -> Seq<Seq<char>> {
    split_from(h, p, 0)
}

/// One step of `split_from`: the first piece, then the rest.
pub proof fn lemma_split_step(h: Seq<char>, p: Seq<char>, pos: int)
    requires
        p.len() > 0,
        0 <= pos <= h.len(),
    ensures
        match find_from(h, p, pos) {
            Some(i) => pos <= i && i + p.len() <= h.len() && split_from(h, p, pos) == seq![
                h.subrange(pos, i),
            ] + split_from(h, p, i + p.len()),
            None => split_from(h, p, pos) == seq![h.subrange(pos, h.len() as int)],
        },
{
    lemma_find_from(h, p, pos);
}

// ---------------------------------------------------------------------
// Prefixes, copies, trimming
// ---------------------------------------------------------------------

/// `s` without the prefix `p`, when `s` starts with `p`
/// (what `str::strip_prefix` gives).
pub open spec fn strip_prefix_seq(s: Seq<char>, p: Seq<char>) -> Option<Seq<char>> {
    if p.len() <= s.len() && s.subrange(0, p.len() as int) == p {
        Some(s.subrange(p.len() as int, s.len() as int))
    } else {
        None
    }
}

/// The characters of `h` from `a` up to `b`.
pub fn copy_range(h: &[char], a: usize, b: usize) -> (r: Vec<char>)
    requires
        a <= b <= h@.len(),
    ensures
        r@ == h@.subrange(a as int, b as int),
{
    let mut r: Vec<char> = Vec::new();
    let mut i = a;
    while i < b
        invariant
            a <= i <= b <= h@.len(),
            r@ == h@.subrange(a as int, i as int),
        decreases b - i,
    {
        r.push(h[i]);
        proof {
            assert(h@.subrange(a as int, i + 1) =~= h@.subrange(a as int, i as int).push(h@[i as int]));
        }
        i = i + 1;
    }
    r
}

/// `s` without the prefix `p`, when `s` starts with `p`.
pub fn strip_prefix(s: &[char], p: &[char]) -> (r: Option<Vec<char>>)
    ensures
        match r {
            Some(v) => strip_prefix_seq(s@, p@) == Some(v@),
            None => strip_prefix_seq(s@, p@) is None,
        },
{
    if matches_at(s, p, 0) {
        proof {
            assert(s@.subrange(0, p@.len() as int) == p@);
        }
        Some(copy_range(s, p.len(), s.len()))
    } else {
        None
    }
}

/// The characters with the Unicode `White_Space` property, which is what
/// `char::is_whitespace` tests.
pub open spec fn is_white_space(c: char) -> bool {
    let u = c as u32;
    ||| 0x9 <= u <= 0xD
    ||| u == 0x20
    ||| u == 0x85
    ||| u == 0xA0
    ||| u == 0x1680
    ||| 0x2000 <= u <= 0x200A
    ||| u == 0x2028
    ||| u == 0x2029
    ||| u == 0x202F
    ||| u == 0x205F
    ||| u == 0x3000
}

/// Whether `c` has the Unicode `White_Space` property.
pub fn white_space(c: char) -> (r: bool)
    ensures
        r == is_white_space(c),
{
    let u = c as u32;
    (0x9 <= u && u <= 0xD) || u == 0x20 || u == 0x85 || u == 0xA0 || u == 0x1680 || (0x2000
        <= u && u <= 0x200A) || u == 0x2028 || u == 0x2029 || u == 0x202F || u == 0x205F || u
        == 0x3000
}

/// `s` without its leading white space.
pub open spec fn trim_start_seq(s: Seq<char>) -> Seq<char>
    decreases s.len(),
{
    if s.len() > 0 && is_white_space(s[0]) {
        trim_start_seq(s.drop_first())
    } else {
        s
    }
}

/// `s` without its trailing white space.
pub open spec fn trim_end_seq(s: Seq<char>) -> Seq<char>
    decreases s.len(),
{
    if s.len() > 0 && is_white_space(s.last()) {
        trim_end_seq(s.drop_last())
    } else {
        s
    }
}

/// `s` without leading and trailing white space (what `str::trim` gives).
pub open spec fn trim_seq(s: Seq<char>) -> Seq<char> {
    trim_end_seq(trim_start_seq(s))
}

/// `s` without leading and trailing white space.
pub fn trim(s: &[char]) -> (r: Vec<char>)
    ensures
        r@ == trim_seq(s@),
{
    let n = s.len();
    let mut a: usize = 0;
    assert(s@.subrange(0, n as int) =~= s@);
    while a < n && white_space(s[a])
        invariant
            a <= n == s@.len(),
            trim_start_seq(s@) == trim_start_seq(s@.subrange(a as int, n as int)),
        decreases n - a,
    {
        proof {
            let t = s@.subrange(a as int, n as int);
            assert(t.drop_first() =~= s@.subrange(a + 1, n as int));
        }
        a = a + 1;
    }
    proof {
        let t = s@.subrange(a as int, n as int);
        assert(trim_start_seq(t) == t);
    }
    let mut b: usize = n;
    while b > a && white_space(s[b - 1])
        invariant
            a <= b <= n == s@.len(),
            trim_seq(s@) == trim_end_seq(s@.subrange(a as int, b as int)),
        decreases b,
    {
        proof {
            let t = s@.subrange(a as int, b as int);
            assert(t.drop_last() =~= s@.subrange(a as int, b - 1));
        }
        b = b - 1;
    }
    copy_range(s, a, b)
}

// ---------------------------------------------------------------------
// Strings
// ---------------------------------------------------------------------

/// The characters of `s`, in order.
pub fn chars_of(s: &str) -> (v: Vec<char>)
    ensures
        v@ == s@,
{
    broadcast use vstd::string::group_string_axioms;

    let mut v: Vec<char> = Vec::new();
    for c in it: s.chars()
        invariant
            v@ == it.seq().take(it.index() as int),
            it.seq() == s@,
    {
        v.push(c);
    }
    v
}

/// Appends `c` to `s`; `String::push`.
#[verifier::external_body]
pub(crate) fn push_char(s: &mut String, c: char)
    ensures
        final(s)@ == old(s)@.push(c),
{
    s.push(c);
}

/// Appends the characters of `v` to `s`.
pub fn push_chars(s: &mut String, v: &[char])
    ensures
        final(s)@ == old(s)@ + v@,
{
    let mut i: usize = 0;
    while i < v.len()
        invariant
            i <= v@.len(),
            s@ == old(s)@ + v@.subrange(0, i as int),
        decreases v.len() - i,
    {
        push_char(s, v[i]);
        proof {
            assert(v@.subrange(0, i + 1) =~= v@.subrange(0, i as int).push(v@[i as int]));
        }
        i = i + 1;
    }
    proof {
        assert(v@.subrange(0, v@.len() as int) =~= v@);
    }
}

/// A `String` holding the characters of `v`.
pub fn string_of(v: &[char]) -> (s: String)
    ensures
        s@ == v@,
{
    let mut s = String::new();
    push_chars(&mut s, v);
    s
}

/// A `String` holding the characters of `t`.
pub fn string_of_str(t: &str) -> (s: String)
    ensures
        s@ == t@,
{
    let mut s = String::new();
    push_text(&mut s, t);
    assert(s@ =~= t@);
    s
}

/// Appends `t` to `s`.
pub fn push_text(s: &mut String, t: &str)
    ensures
        final(s)@ == old(s)@ + t@,
{
    let v = chars_of(t);
    push_chars(s, v.as_slice());
}

// ---------------------------------------------------------------------
// Numbers
// ---------------------------------------------------------------------

/// The decimal digit for `d`.
pub open spec fn digit_char(d: nat) -> char {
    (48 + d) as char
}

/// The decimal numeral of `n`, as `{}` writes it.
pub open spec fn decimal(n: nat) -> Seq<char>
    decreases n,
{
    if n < 10 {
        seq![digit_char(n)]
    } else {
        decimal(n / 10).push(digit_char(n % 10))
    }
}

/// The decimal numeral of the signed `n`, as `{}` writes it.
pub open spec fn signed_decimal(n: int) -> Seq<char> {
    if n < 0 {
        seq!['-'] + decimal((-n) as nat)
    } else {
        decimal(n as nat)
    }
}

/// The upper-case hexadecimal digit for `d`.
pub open spec fn hex_char(d: nat) -> char {
    if d < 10 {
        (48 + d) as char
    } else {
        (55 + d) as char
    }
}

/// The upper-case hexadecimal numeral of `n`, as `{:X}` writes it.
pub open spec fn hex(n: nat) -> Seq<char>
    decreases n,
{
    if n < 16 {
        seq![hex_char(n)]
    } else {
        hex(n / 16).push(hex_char(n % 16))
    }
}

/// The upper-case hexadecimal numeral of `n` with at least two digits,
/// as `{:02X}` writes it.
pub open spec fn hex2(n: nat) -> Seq<char> {
    if n < 16 {
        seq!['0', hex_char(n)]
    } else {
        hex(n)
    }
}

fn digit(d: u64) -> (c: char)
    requires
        d < 10,
    ensures
        c == digit_char(d as nat),
{
    let b: u8 = 48 + d as u8;
    b as char
}

fn hex_digit(d: u32) -> (c: char)
    requires
        d < 16,
    ensures
        c == hex_char(d as nat),
{
    if d < 10 {
        let b: u8 = 48 + d as u8;
        b as char
    } else {
        let b: u8 = 55 + d as u8;
        b as char
    }
}

/// Appends the decimal numeral of `n` to `s`.
pub fn push_decimal(s: &mut String, n: u64)
    ensures
        final(s)@ == old(s)@ + decimal(n as nat),
    decreases n,
{
    if n >= 10 {
        push_decimal(s, n / 10);
    }
    push_char(s, digit(n % 10));
    proof {
        if n < 10 {
            assert(decimal(n as nat) == seq![digit_char(n as nat)]);
            assert(old(s)@.push(digit_char(n as nat)) =~= old(s)@ + seq![digit_char(n as nat)]);
        } else {
            assert(old(s)@ + decimal(n as nat) =~= (old(s)@ + decimal((n / 10) as nat)).push(
                digit_char((n % 10) as nat),
            ));
        }
    }
}

/// Appends the decimal numeral of the signed `n` to `s`.
pub fn push_signed_decimal(s: &mut String, n: i64)
    ensures
        final(s)@ == old(s)@ + signed_decimal(n as int),
{
    if n < 0 {
        push_char(s, '-');
        let m: u64 = if n == i64::MIN {
            9223372036854775808u64
        } else {
            (-n) as u64
        };
        push_decimal(s, m);
        proof {
            assert(old(s)@ + signed_decimal(n as int) =~= old(s)@.push('-') + decimal(
                m as nat,
            ));
        }
    } else {
        push_decimal(s, n as u64);
    }
}

/// Appends the upper-case hexadecimal numeral of `n` to `s`.
pub fn push_hex(s: &mut String, n: u32)
    ensures
        final(s)@ == old(s)@ + hex(n as nat),
    decreases n,
{
    if n >= 16 {
        push_hex(s, n / 16);
    }
    push_char(s, hex_digit(n % 16));
    proof {
        if n < 16 {
            assert(old(s)@.push(hex_char(n as nat)) =~= old(s)@ + seq![hex_char(n as nat)]);
        } else {
            assert(old(s)@ + hex(n as nat) =~= (old(s)@ + hex((n / 16) as nat)).push(
                hex_char((n % 16) as nat),
            ));
        }
    }
}

/// Appends the hexadecimal numeral of `n`, at least two digits, to `s`.
pub fn push_hex2(s: &mut String, n: u32)
    ensures
        final(s)@ == old(s)@ + hex2(n as nat),
{
    if n < 16 {
        push_char(s, '0');
        push_char(s, hex_digit(n));
        proof {
            assert(old(s)@.push('0').push(hex_char(n as nat)) =~= old(s)@ + seq![
                '0',
                hex_char(n as nat),
            ]);
        }
    } else {
        push_hex(s, n);
    }
}

} // verus!
