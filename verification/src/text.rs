//! Text primitives: whitespace, trimming, searching, joining, decimal and hex.
//!
//! Each operation is stated over `Seq<char>` views so that contracts elsewhere in
//! the library can speak of the exact text a record holds.
use vstd::prelude::*;
use vstd::std_specs::iter::IteratorSpec;
use vstd::utf8::{encode_scalar, encode_utf8};

verus! {

// ---------------------------------------------------------------------------
// std calls that vstd does not specify
// ---------------------------------------------------------------------------

/// The `char`s of `s` in order, collected from `str::chars`.
pub fn chars_of(s: &str) -> (out: Vec<char>)
    ensures
        out@ == s@,
{
    let mut it = s.chars();
    proof {
        vstd::string::axiom_spec_iter(s);
    }
    let mut out: Vec<char> = Vec::new();
    assert(out@ + it.remaining() =~= s@);
    loop
        invariant
            out@ + it.remaining() == s@,
            it.decrease() is Some,
        ensures
            out@ == s@,
        decreases it.decrease()->0,
    {
        let ghost before = it.remaining();
        match it.next() {
            Some(c) => {
                out.push(c);
                assert(out@ + it.remaining() =~= s@) by {
                    assert(before == seq![c] + it.remaining());
                }
            },
            None => {
                assert(out@ =~= s@);
                break;
            },
        }
    }
    out
}

/// Appends one `char` to a `String` (`String::push`).
#[verifier::external_body]
pub fn push_char(s: &mut String, c: char)
    ensures
        final(s)@ == old(s)@.push(c),
{
    s.push(c)
}

/// The Unicode lowercase mapping of a string, as `str::to_lowercase` computes it.
pub uninterp spec fn lowercase_of(s: Seq<char>) -> Seq<char>;

/// Calls `str::to_lowercase`. Unicode case mapping takes tables to state, so the
/// result is only named: it is `lowercase_of` of the argument's characters.
#[verifier::external_body]
pub fn to_lowercase(s: &str) -> (out: String)
    ensures
        out@ == lowercase_of(s@),
{
    s.to_lowercase()
}

// ---------------------------------------------------------------------------
// Whitespace and trimming
// ---------------------------------------------------------------------------

/// The Unicode `White_Space` property, which `char::is_whitespace` reports.
pub open spec fn is_ws(c: char) -> bool {
    let u = c as u32;
    ||| 0x09 <= u <= 0x0d
    ||| u == 0x20
    ||| u == 0x85
    ||| u == 0xa0
    ||| u == 0x1680
    ||| 0x2000 <= u <= 0x200a
    ||| u == 0x2028
    ||| u == 0x2029
    ||| u == 0x202f
    ||| u == 0x205f
    ||| u == 0x3000
}

pub fn char_is_whitespace(c: char) -> (b: bool)
    ensures
        b == is_ws(c),
{
    let u = c as u32;
    (0x09 <= u && u <= 0x0d) || u == 0x20 || u == 0x85 || u == 0xa0 || u == 0x1680 || (0x2000
        <= u && u <= 0x200a) || u == 0x2028 || u == 0x2029 || u == 0x202f || u == 0x205f || u
        == 0x3000
}

/// A text is blank when it holds whitespace only (its trimmed form is empty).
pub open spec fn is_blank(s: Seq<char>) -> bool {
    forall|i: int| 0 <= i < s.len() ==> is_ws(#[trigger] s[i])
}

/// Drops leading whitespace.
pub open spec fn trim_start(s: Seq<char>) -> Seq<char>
    decreases s.len(),
{
    if s.len() > 0 && is_ws(s[0]) {
        trim_start(s.drop_first())
    } else {
        s
    }
}

/// Drops trailing whitespace.
pub open spec fn trim_end(s: Seq<char>) -> Seq<char>
    decreases s.len(),
{
    if s.len() > 0 && is_ws(s.last()) {
        trim_end(s.drop_last())
    } else {
        s
    }
}

/// Drops leading and trailing whitespace (`str::trim`).
pub open spec fn trim(s: Seq<char>) -> Seq<char> {
    trim_end(trim_start(s))
}

pub fn str_is_blank(s: &str) -> (b: bool)
    ensures
        b == is_blank(s@),
{
    let cs = chars_of(s);
    let mut i: usize = 0;
    while i < cs.len()
        invariant
            cs@ == s@,
            i <= cs.len(),
            forall|j: int| 0 <= j < i ==> is_ws(#[trigger] s@[j]),
        decreases cs.len() - i,
    {
        if !char_is_whitespace(cs[i]) {
            return false;
        }
        i += 1;
    }
    true
}

proof fn lemma_trim_start_skip(s: Seq<char>, i: int)
    requires
        0 <= i <= s.len(),
        forall|j: int| 0 <= j < i ==> is_ws(#[trigger] s[j]),
    ensures
        trim_start(s) == trim_start(s.subrange(i, s.len() as int)),
    decreases i,
{
    if i > 0 {
        assert(s.drop_first() =~= s.subrange(1, s.len() as int));
        lemma_trim_start_skip(s.drop_first(), i - 1);
        assert(s.drop_first().subrange(i - 1, s.drop_first().len() as int) =~= s.subrange(
            i,
            s.len() as int,
        ));
    } else {
        assert(s.subrange(0, s.len() as int) =~= s);
    }
}

proof fn lemma_trim_end_skip(s: Seq<char>, k: int)
    requires
        0 <= k <= s.len(),
        forall|j: int| k <= j < s.len() ==> is_ws(#[trigger] s[j]),
    ensures
        trim_end(s) == trim_end(s.subrange(0, k)),
    decreases s.len() - k,
{
    if k < s.len() {
        assert(s.drop_last() =~= s.subrange(0, s.len() - 1));
        lemma_trim_end_skip(s.drop_last(), k);
        assert(s.drop_last().subrange(0, k) =~= s.subrange(0, k));
    } else {
        assert(s.subrange(0, k) =~= s);
    }
}

/// `str::trim`, computed over characters.
pub fn trim_str(s: &str) -> (out: String)
    ensures
        out@ == trim(s@),
{
    let cs = chars_of(s);
    let n = cs.len();
    let mut i: usize = 0;
    while i < n && char_is_whitespace(cs[i])
        invariant
            cs@ == s@,
            n == cs.len(),
            i <= n,
            forall|j: int| 0 <= j < i ==> is_ws(#[trigger] s@[j]),
        decreases n - i,
    {
        i += 1;
    }
    proof {
        lemma_trim_start_skip(s@, i as int);
    }
    let ghost rest = s@.subrange(i as int, n as int);
    assert(rest.len() == 0 || !is_ws(rest[0]));
    assert(trim_start(rest) == rest);
    let mut k: usize = n;
    while k > i && char_is_whitespace(cs[k - 1])
        invariant
            cs@ == s@,
            n == cs.len(),
            i <= k <= n,
            forall|j: int| k <= j < n ==> is_ws(#[trigger] s@[j]),
        decreases k,
    {
        k -= 1;
    }
    proof {
        let r = s@.subrange(i as int, n as int);
        assert forall|j: int| (k - i) <= j < r.len() implies is_ws(#[trigger] r[j]) by {
            assert(r[j] == s@[j + i]);
        }
        lemma_trim_end_skip(r, k - i);
        assert(r.subrange(0, k - i) =~= s@.subrange(i as int, k as int));
        let t = s@.subrange(i as int, k as int);
        assert(t.len() == 0 || !is_ws(t.last()));
    }
    let mut out = String::new();
    let mut j: usize = i;
    while j < k
        invariant
            cs@ == s@,
            i <= j <= k <= n,
            n == cs.len(),
            out@ == s@.subrange(i as int, j as int),
        decreases k - j,
    {
        push_char(&mut out, cs[j]);
        j += 1;
        assert(out@ =~= s@.subrange(i as int, j as int));
    }
    out
}

// ---------------------------------------------------------------------------
// Cutting text by its UTF-8 length
// ---------------------------------------------------------------------------

/// The number of bytes `c` takes in UTF-8.
pub open spec fn utf8_width(c: char) -> int {
    encode_scalar(c as u32).len() as int
}

/// The longest prefix of `s` whose UTF-8 encoding takes at most `limit` bytes:
/// the text up to the last character boundary at or below `limit`.
pub open spec fn utf8_prefix(s: Seq<char>, limit: int) -> Seq<char>
    decreases s.len(),
{
    if s.len() == 0 || utf8_width(s[0]) > limit {
        Seq::empty()
    } else {
        seq![s[0]] + utf8_prefix(s.drop_first(), limit - utf8_width(s[0]))
    }
}

/// `utf8_prefix` is a prefix of the text, it fits the limit, and it stops only
/// where the next character would not fit.
pub proof fn lemma_utf8_prefix(s: Seq<char>, limit: int)
    requires
        0 <= limit,
    ensures
        utf8_prefix(s, limit).len() <= s.len(),
        utf8_prefix(s, limit) == s.subrange(0, utf8_prefix(s, limit).len() as int),
        encode_utf8(utf8_prefix(s, limit)).len() <= limit,
        utf8_prefix(s, limit).len() < s.len() ==> encode_utf8(
            s.subrange(0, utf8_prefix(s, limit).len() as int + 1),
        ).len() > limit,
    decreases s.len(),
{
    let p = utf8_prefix(s, limit);
    if s.len() == 0 {
        assert(s.subrange(0, 0) =~= p);
    } else if utf8_width(s[0]) > limit {
        assert(s.subrange(0, 0) =~= p);
        assert(s.subrange(0, 1).drop_first() =~= Seq::<char>::empty());
        assert(encode_utf8(s.subrange(0, 1)) == encode_scalar(s[0] as u32) + encode_utf8(Seq::<char>::empty()));
    } else {
        let rest = s.drop_first();
        let l2 = limit - utf8_width(s[0]);
        lemma_utf8_prefix(rest, l2);
        let q = utf8_prefix(rest, l2);
        assert(p == seq![s[0]] + q);
        assert(p =~= s.subrange(0, p.len() as int));
        assert(p.drop_first() =~= q);
        assert(encode_utf8(p) == encode_scalar(s[0] as u32) + encode_utf8(q));
        if p.len() < s.len() {
            let t = s.subrange(0, p.len() as int + 1);
            assert(t.drop_first() =~= rest.subrange(0, q.len() as int + 1));
            assert(encode_utf8(t) == encode_scalar(s[0] as u32) + encode_utf8(t.drop_first()));
        }
    }
}

/// The number of bytes `c` takes in UTF-8 (`char::len_utf8`).
pub fn char_utf8_width(c: char) -> (w: usize)
    ensures
        w as int == utf8_width(c),
        1 <= w <= 4,
{
    proof {
        vstd::utf8::char_is_scalar(c);
    }
    let v = c as u32;
    if v <= 0x7F {
        1
    } else if v <= 0x7FF {
        2
    } else if v <= 0xFFFF {
        3
    } else {
        4
    }
}

/// The longest prefix of `cs` that takes at most `limit` bytes in UTF-8.
pub fn utf8_prefix_string(cs: &Vec<char>, limit: usize) -> (out: String)
    ensures
        out@ == utf8_prefix(cs@, limit as int),
{
    let mut out = String::new();
    let mut budget: usize = limit;
    let mut i: usize = 0;
    assert(cs@.skip(0) =~= cs@);
    assert(out@ + utf8_prefix(cs@.skip(0), budget as int) =~= utf8_prefix(cs@, limit as int));
    loop
        invariant
            i <= cs.len(),
            out@ + utf8_prefix(cs@.skip(i as int), budget as int) == utf8_prefix(cs@, limit as int),
        ensures
            out@ == utf8_prefix(cs@, limit as int),
        decreases cs.len() - i,
    {
        if i == cs.len() {
            assert(cs@.skip(i as int).len() == 0);
            assert(out@ =~= out@ + utf8_prefix(cs@.skip(i as int), budget as int));
            break;
        }
        let c = cs[i];
        let w = char_utf8_width(c);
        assert(cs@.skip(i as int)[0] == c);
        if w > budget {
            assert(out@ =~= out@ + utf8_prefix(cs@.skip(i as int), budget as int));
            break;
        }
        let ghost before = out@;
        push_char(&mut out, c);
        assert(cs@.skip(i as int).drop_first() =~= cs@.skip(i + 1));
        budget = budget - w;
        i = i + 1;
        assert(out@ + utf8_prefix(cs@.skip(i as int), budget as int) =~= before + utf8_prefix(
            cs@.skip(i - 1),
            budget + w,
        ));
    }
    out
}

// ---------------------------------------------------------------------------
// Searching
// ---------------------------------------------------------------------------

/// `needle` occurs in `hay` starting at position `i`.
pub open spec fn occurs_at(hay: Seq<char>, needle: Seq<char>, i: int) -> bool {
    0 <= i && i + needle.len() <= hay.len() && hay.subrange(i, i + needle.len()) == needle
}

/// `needle` occurs somewhere in `hay` (`str::contains` with a string pattern).
pub open spec fn has_substring(hay: Seq<char>, needle: Seq<char>) -> bool {
    exists|i: int| #[trigger] occurs_at(hay, needle, i)
}

/// `hay` begins with `prefix` (`str::starts_with`).
pub open spec fn has_prefix(hay: Seq<char>, prefix: Seq<char>) -> bool {
    occurs_at(hay, prefix, 0)
}

fn occurs_at_exec(hay: &Vec<char>, needle: &Vec<char>, i: usize) -> (b: bool)
    requires
        i + needle.len() <= hay.len(),
    ensures
        b == occurs_at(hay@, needle@, i as int),
{
    let mut j: usize = 0;
    while j < needle.len()
        invariant
            i + needle.len() <= hay.len(),
            j <= needle.len(),
            forall|t: int| 0 <= t < j ==> hay@[i + t] == needle@[t],
        decreases needle.len() - j,
    {
        if hay[i + j] != needle[j] {
            assert(hay@.subrange(i as int, i + needle.len())[j as int] != needle@[j as int]);
            return false;
        }
        j += 1;
    }
    assert(hay@.subrange(i as int, i + needle.len()) =~= needle@);
    true
}

pub fn seq_contains_str(hay: &Vec<char>, needle: &Vec<char>) -> (b: bool)
    ensures
        b == has_substring(hay@, needle@),
{
    if needle.len() > hay.len() {
        assert forall|i: int| !occurs_at(hay@, needle@, i) by {}
        return false;
    }
    let last = hay.len() - needle.len();
    let mut i: usize = 0;
    while i <= last
        invariant
            last == hay.len() - needle.len(),
            needle.len() <= hay.len(),
            i <= last + 1,
            forall|t: int| 0 <= t < i ==> !#[trigger] occurs_at(hay@, needle@, t),
        decreases last + 1 - i,
    {
        if occurs_at_exec(hay, needle, i) {
            return true;
        }
        if i == last {
            assert forall|t: int| !#[trigger] occurs_at(hay@, needle@, t) by {
                if 0 <= t <= i {
                }
            }
            return false;
        }
        i += 1;
    }
    assert forall|t: int| !#[trigger] occurs_at(hay@, needle@, t) by {
        if 0 <= t < i {
        }
    }
    false
}

/// `str::contains` with a string pattern.
pub fn str_contains(hay: &str, needle: &str) -> (b: bool)
    ensures
        b == has_substring(hay@, needle@),
{
    let h = chars_of(hay);
    let n = chars_of(needle);
    seq_contains_str(&h, &n)
}

/// `str::starts_with` with a string pattern.
pub fn str_starts_with(hay: &str, prefix: &str) -> (b: bool)
    ensures
        b == has_prefix(hay@, prefix@),
{
    let h = chars_of(hay);
    let p = chars_of(prefix);
    if p.len() > h.len() {
        return false;
    }
    occurs_at_exec(&h, &p, 0)
}

/// `str::contains` with a `char` pattern.
pub fn str_contains_char(hay: &str, c: char) -> (b: bool)
    ensures
        b == hay@.contains(c),
{
    let h = chars_of(hay);
    let mut i: usize = 0;
    while i < h.len()
        invariant
            h@ == hay@,
            i <= h.len(),
            forall|t: int| 0 <= t < i ==> h@[t] != c,
        decreases h.len() - i,
    {
        if h[i] == c {
            return true;
        }
        i += 1;
    }
    false
}

// ---------------------------------------------------------------------------
// Building text
// ---------------------------------------------------------------------------

/// The parts joined with `sep` between neighbours (`[String]::join`).
pub open spec fn join(parts: Seq<Seq<char>>, sep: Seq<char>) -> Seq<char>
    decreases parts.len(),
{
    if parts.len() == 0 {
        Seq::empty()
    } else if parts.len() == 1 {
        parts[0]
    } else {
        join(parts.drop_last(), sep) + sep + parts.last()
    }
}

/// The views of a vector of strings.
pub open spec fn views(v: Seq<String>) -> Seq<Seq<char>> {
    v.map_values(|s: String| s@)
}

pub fn join_strings(parts: &Vec<String>, sep: &str) -> (out: String)
    ensures
        out@ == join(views(parts@), sep@),
{
    let mut out = String::new();
    let mut i: usize = 0;
    while i < parts.len()
        invariant
            i <= parts.len(),
            out@ == join(views(parts@.subrange(0, i as int)), sep@),
        decreases parts.len() - i,
    {
        let ghost before = views(parts@.subrange(0, i as int));
        if i > 0 {
            out.append(sep);
        }
        out.append(parts[i].as_str());
        i += 1;
        proof {
            let now = views(parts@.subrange(0, i as int));
            assert(now.drop_last() =~= before);
            assert(now.last() == parts@[i - 1]@);
            if i == 1 {
                assert(before =~= Seq::<Seq<char>>::empty());
            }
        }
    }
    assert(parts@.subrange(0, parts.len() as int) =~= parts@);
    out
}

/// The ASCII digit of `d` (for `d < 10`).
pub open spec fn digit_char(d: nat) -> char {
    if d == 0 {
        '0'
    } else if d == 1 {
        '1'
    } else if d == 2 {
        '2'
    } else if d == 3 {
        '3'
    } else if d == 4 {
        '4'
    } else if d == 5 {
        '5'
    } else if d == 6 {
        '6'
    } else if d == 7 {
        '7'
    } else if d == 8 {
        '8'
    } else {
        '9'
    }
}

fn digit(d: usize) -> (c: char)
    requires
        d < 10,
    ensures
        c == digit_char(d as nat),
{
    if d == 0 {
        '0'
    } else if d == 1 {
        '1'
    } else if d == 2 {
        '2'
    } else if d == 3 {
        '3'
    } else if d == 4 {
        '4'
    } else if d == 5 {
        '5'
    } else if d == 6 {
        '6'
    } else if d == 7 {
        '7'
    } else if d == 8 {
        '8'
    } else {
        '9'
    }
}

/// The decimal text of `n`, as `Display` prints an unsigned integer.
pub open spec fn decimal(n: nat) -> Seq<char>
    decreases n,
{
    if n < 10 {
        seq![digit_char(n)]
    } else {
        decimal(n / 10).push(digit_char(n % 10))
    }
}

/// Appends the decimal text of `n`.
pub fn push_decimal(s: &mut String, n: usize)
    ensures
        final(s)@ == old(s)@ + decimal(n as nat),
    decreases n,
{
    if n >= 10 {
        push_decimal(s, n / 10);
    }
    push_char(s, digit(n % 10));
    assert(s@ =~= old(s)@ + decimal(n as nat));
}

/// Appends the decimal text of a `u64`.
pub fn push_decimal_u64(s: &mut String, n: u64)
    ensures
        final(s)@ == old(s)@ + decimal(n as nat),
    decreases n,
{
    if n >= 10 {
        push_decimal_u64(s, n / 10);
    }
    push_char(s, digit((n % 10) as usize));
    assert(s@ =~= old(s)@ + decimal(n as nat));
}

/// Appends the decimal text of a `u128`.
pub fn push_decimal_u128(s: &mut String, n: u128)
    ensures
        final(s)@ == old(s)@ + decimal(n as nat),
    decreases n,
{
    if n >= 10 {
        push_decimal_u128(s, n / 10);
    }
    push_char(s, digit((n % 10) as usize));
    assert(s@ =~= old(s)@ + decimal(n as nat));
}

/// The lowercase hex digit of a nibble.
pub open spec fn hex_digit(n: u8) -> char {
    if n < 10 {
        digit_char(n as nat)
    } else if n == 10 {
        'a'
    } else if n == 11 {
        'b'
    } else if n == 12 {
        'c'
    } else if n == 13 {
        'd'
    } else if n == 14 {
        'e'
    } else {
        'f'
    }
}

fn hex_digit_exec(n: u8) -> (c: char)
    requires
        n < 16,
    ensures
        c == hex_digit(n),
{
    if n < 10 {
        digit(n as usize)
    } else if n == 10 {
        'a'
    } else if n == 11 {
        'b'
    } else if n == 12 {
        'c'
    } else if n == 13 {
        'd'
    } else if n == 14 {
        'e'
    } else {
        'f'
    }
}

/// Lowercase hexadecimal text of bytes, two digits per byte, high nibble first.
pub open spec fn hex_lower(bytes: Seq<u8>) -> Seq<char>
    decreases bytes.len(),
{
    if bytes.len() == 0 {
        Seq::empty()
    } else {
        hex_lower(bytes.drop_last()) + seq![
            hex_digit(bytes.last() / 16),
            hex_digit(bytes.last() % 16),
        ]
    }
}

pub proof fn lemma_hex_lower_len(bytes: Seq<u8>)
    ensures
        hex_lower(bytes).len() == 2 * bytes.len(),
    decreases bytes.len(),
{
    if bytes.len() > 0 {
        lemma_hex_lower_len(bytes.drop_last());
    }
}

/// Appends the hex text of the first `count` bytes.
pub fn push_hex(s: &mut String, bytes: &Vec<u8>, count: usize)
    requires
        count <= bytes.len(),
    ensures
        final(s)@ == old(s)@ + hex_lower(bytes@.subrange(0, count as int)),
{
    let mut i: usize = 0;
    assert(bytes@.subrange(0, 0) =~= Seq::<u8>::empty());
    while i < count
        invariant
            count <= bytes.len(),
            i <= count,
            s@ == old(s)@ + hex_lower(bytes@.subrange(0, i as int)),
        decreases count - i,
    {
        let b = bytes[i];
        push_char(s, hex_digit_exec(b / 16));
        push_char(s, hex_digit_exec(b % 16));
        i += 1;
        assert(bytes@.subrange(0, i as int).drop_last() =~= bytes@.subrange(0, i - 1));
        assert(s@ =~= old(s)@ + hex_lower(bytes@.subrange(0, i as int)));
    }
}

/// Appends the UTF-8 bytes of `s` to `out`.
pub fn push_utf8(out: &mut Vec<u8>, s: &str)
    ensures
        final(out)@ == old(out)@ + encode_utf8(s@),
{
    let b = s.as_bytes();
    let mut i: usize = 0;
    while i < b.len()
        invariant
            b@ == encode_utf8(s@),
            i <= b@.len(),
            out@ == old(out)@ + b@.subrange(0, i as int),
        decreases b@.len() - i,
    {
        out.push(b[i]);
        i += 1;
        assert(out@ =~= old(out)@ + b@.subrange(0, i as int));
    }
    assert(b@.subrange(0, b@.len() as int) =~= b@);
}

/// The position of the first `c` in `s`, or -1 when `s` holds none.
pub open spec fn first_index_of(s: Seq<char>, c: char) -> int
    decreases s.len(),
{
    if s.len() == 0 {
        -1
    } else if s[0] == c {
        0
    } else {
        let r = first_index_of(s.drop_first(), c);
        if r < 0 {
            -1
        } else {
            r + 1
        }
    }
}

proof fn lemma_first_index_of(s: Seq<char>, c: char, i: int)
    requires
        0 <= i <= s.len(),
        forall|j: int| 0 <= j < i ==> s[j] != c,
    ensures
        i < s.len() && s[i] == c ==> first_index_of(s, c) == i,
        i == s.len() ==> first_index_of(s, c) == -1,
    decreases i,
{
    if i > 0 {
        lemma_first_index_of(s.drop_first(), c, i - 1);
    }
}

/// Finds the first `c` among the characters `cs`.
pub fn find_char(cs: &Vec<char>, c: char) -> (r: Option<usize>)
    ensures
        r matches Some(p) ==> p < cs@.len() && first_index_of(cs@, c) == p as int,
        r is None ==> first_index_of(cs@, c) == -1,
{
    let mut i: usize = 0;
    while i < cs.len()
        invariant
            i <= cs.len(),
            forall|j: int| 0 <= j < i ==> cs@[j] != c,
        decreases cs.len() - i,
    {
        if cs[i] == c {
            proof {
                lemma_first_index_of(cs@, c, i as int);
            }
            return Some(i);
        }
        i += 1;
    }
    proof {
        lemma_first_index_of(cs@, c, i as int);
    }
    None
}

/// The text of `cs[from..to]`.
pub fn string_of_range(cs: &Vec<char>, from: usize, to: usize) -> (out: String)
    requires
        from <= to <= cs@.len(),
    ensures
        out@ == cs@.subrange(from as int, to as int),
{
    let mut out = String::new();
    let mut j: usize = from;
    while j < to
        invariant
            from <= j <= to <= cs@.len(),
            out@ == cs@.subrange(from as int, j as int),
        decreases to - j,
    {
        push_char(&mut out, cs[j]);
        j += 1;
        assert(out@ =~= cs@.subrange(from as int, j as int));
    }
    out
}

/// Mapping commutes with `push`.
pub proof fn lemma_map_push<A, B>(s: Seq<A>, x: A, f: spec_fn(A) -> B)
    ensures
        s.push(x).map_values(f) == s.map_values(f).push(f(x)),
{
    assert(s.push(x).map_values(f) =~= s.map_values(f).push(f(x)));
}

/// A prefix one longer is the shorter prefix with the next element pushed.
pub proof fn lemma_prefix_push<A>(s: Seq<A>, i: int)
    requires
        0 <= i < s.len(),
    ensures
        s.subrange(0, i + 1) == s.subrange(0, i).push(s[i]),
{
    assert(s.subrange(0, i + 1) =~= s.subrange(0, i).push(s[i]));
}

/// Mapping a prefix one longer pushes the mapped next element.
pub proof fn lemma_map_prefix_push<A, B>(s: Seq<A>, i: int, f: spec_fn(A) -> B)
    requires
        0 <= i < s.len(),
    ensures
        s.subrange(0, i + 1).map_values(f) == s.subrange(0, i).map_values(f).push(f(s[i])),
{
    lemma_prefix_push(s, i);
    lemma_map_push(s.subrange(0, i), s[i], f);
}

/// Equality of two texts, character by character.
pub fn str_eq(a: &str, b: &str) -> (r: bool)
    ensures
        r == (a@ == b@),
{
    let x = chars_of(a);
    let y = chars_of(b);
    if x.len() != y.len() {
        return false;
    }
    let mut i: usize = 0;
    while i < x.len()
        invariant
            x@ == a@,
            y@ == b@,
            x.len() == y.len(),
            i <= x.len(),
            forall|k: int| 0 <= k < i ==> x@[k] == y@[k],
        decreases x.len() - i,
    {
        if x[i] != y[i] {
            return false;
        }
        i += 1;
    }
    assert(a@ =~= b@);
    true
}

/// An optional text as an optional character sequence.
pub open spec fn opt_view(o: Option<String>) -> Option<Seq<char>> {
    match o {
        Some(s) => Some(s@),
        None => None,
    }
}

/// A copy of an optional text.
pub fn copy_opt(o: &Option<String>) -> (r: Option<String>)
    ensures
        opt_view(r) == opt_view(*o),
{
    match o {
        Some(s) => Some(s.clone()),
        None => None,
    }
}

/// A copy of a vector of texts.
pub fn copy_strings(v: &Vec<String>) -> (out: Vec<String>)
    ensures
        views(out@) == views(v@),
{
    let mut out: Vec<String> = Vec::new();
    let mut i: usize = 0;
    while i < v.len()
        invariant
            i <= v.len(),
            out@.len() == i,
            views(out@) == views(v@.subrange(0, i as int)),
        decreases v.len() - i,
    {
        let ghost before = out@;
        let x = v[i].clone();
        out.push(x);
        proof {
            lemma_map_push(before, x, |s: String| s@);
            lemma_map_prefix_push(v@, i as int, |s: String| s@);
        }
        i += 1;
    }
    assert(v@.subrange(0, v.len() as int) =~= v@);
    out
}

/// The decimal text of an integer, with a leading `-` when it is negative.
pub open spec fn int_text(n: int) -> Seq<char> {
    if n < 0 {
        "-"@ + decimal((-n) as nat)
    } else {
        decimal(n as nat)
    }
}

/// Appends the decimal text of an `i128`.
pub fn push_i128_decimal(s: &mut String, n: i128)
    ensures
        final(s)@ == old(s)@ + int_text(n as int),
{
    if n < 0 {
        s.append("-");
        let m: u128 = ((-(n + 1)) as u128) + 1;
        assert(m == -(n as int));
        push_decimal_u128(s, m);
    } else {
        push_decimal_u128(s, n as u128);
    }
}

} // verus!
