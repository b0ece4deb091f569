//! Plain-text utilities: character classes, whitespace tokenization,
//! line splitting, decimal integer parsing and rendering, and
//! case-insensitive substring search.

use vstd::prelude::*;

verus! {

// ---------------------------------------------------------------------------
// Character classes and decimal digits
// ---------------------------------------------------------------------------

/// ASCII whitespace: the separators recognised when tokenizing.
pub open spec fn is_space(c: char) -> bool {
    c == ' ' || c == '\t' || c == '\n' || c == '\r' || c == '\x0b' || c == '\x0c'
}

pub fn space_char(c: char) -> (r: bool)
    ensures
        r == is_space(c),
{
    c == ' ' || c == '\t' || c == '\n' || c == '\r' || c == '\x0b' || c == '\x0c'
}

pub open spec fn is_digit(c: char) -> bool {
    '0' <= c && c <= '9'
}

pub open spec fn digit_val(c: char) -> int {
    (c as u32) as int - 48
}

pub open spec fn digit_char(d: int) -> char {
    if d == 0 {
        '0'
    } else if d == 1 {
        '1'
    } else if d == 2 {
        '2'
    } else if d == 3 {
        '3'
    } else if d == 4 {
        '4'
    } else if d == 5 {
        '5'
    } else if d == 6 {
        '6'
    } else if d == 7 {
        '7'
    } else if d == 8 {
        '8'
    } else {
        '9'
    }
}

pub open spec fn all_digits(s: Seq<char>) -> bool {
    forall|i: int| 0 <= i < s.len() ==> is_digit(#[trigger] s[i])
}

/// Value of a run of decimal digits, most significant first.
pub open spec fn dec_val(s: Seq<char>) -> int
    decreases s.len(),
{
    if s.len() == 0 {
        0
    } else {
        dec_val(s.drop_last()) * 10 + digit_val(s.last())
    }
}

pub proof fn lemma_dec_val_nonneg(s: Seq<char>)
    requires
        all_digits(s),
    ensures
        dec_val(s) >= 0,
    decreases s.len(),
{
    if s.len() > 0 {
        assert(all_digits(s.drop_last()));
        lemma_dec_val_nonneg(s.drop_last());
        assert(is_digit(s.last()));
    }
}

/// A digit run is worth at least as much as any of its prefixes.
pub proof fn lemma_dec_val_prefix(s: Seq<char>, m: int)
    requires
        all_digits(s),
        0 <= m <= s.len(),
    ensures
        dec_val(s.take(m)) <= dec_val(s),
    decreases s.len() - m,
{
    if m == s.len() {
        assert(s.take(m) =~= s);
    } else {
        lemma_dec_val_prefix(s, m + 1);
        let t = s.take(m + 1);
        assert(t.drop_last() =~= s.take(m));
        assert(t.last() == s[m]);
        assert(all_digits(s.take(m)));
        lemma_dec_val_nonneg(s.take(m));
        assert(is_digit(s[m]));
        assert(dec_val(s.take(m)) <= dec_val(t));
    }
}

// ---------------------------------------------------------------------------
// Decimal parsing, with the lenient defaults the loader applies
// ---------------------------------------------------------------------------

/// Digits of an unsigned decimal text, after an optional leading plus.
pub open spec fn unsigned_digits(s: Seq<char>) -> Seq<char> {
    if s.len() > 0 && s[0] == '+' {
        s.drop_first()
    } else {
        s
    }
}

/// Whether `s` is accepted as a `u32` by strict decimal parsing:
/// an optional plus, then at least one digit, value within range.
pub open spec fn parses_as_u32(s: Seq<char>) -> bool {
    let t = unsigned_digits(s);
    t.len() > 0 && all_digits(t) && dec_val(t) <= u32::MAX
}

/// Lenient `u32` parse: the strict value, or `default` when `s` is
/// rejected.
pub open spec fn parse_u32_or(s: Seq<char>, default: u32) -> u32 {
    if parses_as_u32(s) {
        dec_val(unsigned_digits(s)) as u32
    } else {
        default
    }
}

/// Digits of a signed decimal text, after an optional sign.
pub open spec fn signed_digits(s: Seq<char>) -> Seq<char> {
    if s.len() > 0 && (s[0] == '+' || s[0] == '-') {
        s.drop_first()
    } else {
        s
    }
}

pub open spec fn sign_of(s: Seq<char>) -> int {
    if s.len() > 0 && s[0] == '-' {
        -1
    } else {
        1
    }
}

pub open spec fn signed_val(s: Seq<char>) -> int {
    sign_of(s) * dec_val(signed_digits(s))
}

/// Whether `s` is accepted as an `i32` by strict decimal parsing:
/// an optional sign, then at least one digit, value within range.
pub open spec fn parses_as_i32(s: Seq<char>) -> bool {
    let t = signed_digits(s);
    t.len() > 0 && all_digits(t) && i32::MIN <= signed_val(s) <= i32::MAX
}

/// Lenient `i32` parse: the strict value, or `default` when `s` is
/// rejected.
pub open spec fn parse_i32_or(s: Seq<char>, default: i32) -> i32 {
    if parses_as_i32(s) {
        signed_val(s) as i32
    } else {
        default
    }
}

/// Reads the digit run `s[from..]` into `acc`, or reports that its value
/// exceeds `bound` or that a non-digit occurs.
fn read_digits(s: &str, from: usize, n: usize, bound: u64) -> (r: Option<u64>)
    requires
        from <= n,
        n == s@.len(),
        bound <= u32::MAX as u64 + 1,
    ensures
        (match r {
            Some(acc) => all_digits(s@.skip(from as int)) && acc == dec_val(s@.skip(from as int))
                && acc <= bound,
            None => !(all_digits(s@.skip(from as int)) && dec_val(s@.skip(from as int))
                <= bound),
        }),
{
    let ghost t = s@.skip(from as int);
    let mut acc: u64 = 0;
    let mut j: usize = from;
    while j < n
        invariant
            from <= j <= n,
            n == s@.len(),
            bound <= u32::MAX as u64 + 1,
            t == s@.skip(from as int),
            forall|k: int| from <= k < j ==> is_digit(#[trigger] s@[k]),
            acc == dec_val(s@.subrange(from as int, j as int)),
            acc <= bound,
        decreases n - j,
    {
        let c = s.get_char(j);
        if !(c >= '0' && c <= '9') {
            proof {
                assert(t[j - from] == s@[j as int]);
                assert(!all_digits(t));
            }
            return None;
        }
        let d: u64 = (c as u32 - 48) as u64;
        proof {
            let pre = s@.subrange(from as int, j as int);
            let ext = s@.subrange(from as int, j + 1);
            assert(ext.drop_last() =~= pre);
            assert(ext.last() == s@[j as int]);
        }
        acc = acc * 10 + d;
        j = j + 1;
        if acc > bound {
            proof {
                let ext = s@.subrange(from as int, j as int);
                assert(ext =~= t.take(j - from));
                assert(forall|k: int| 0 <= k < t.len() ==> t[k] == s@[#[trigger] (k + from)]);
                if all_digits(t) {
                    lemma_dec_val_prefix(t, j - from);
                }
            }
            return None;
        }
    }
    proof {
        assert(s@.subrange(from as int, n as int) =~= t);
        assert(forall|k: int| 0 <= k < t.len() ==> t[k] == s@[#[trigger] (k + from)]);
    }
    Some(acc)
}

/// Parses `s` as an unsigned decimal count, substituting `default` when
/// `s` is not a well-formed in-range number.
pub fn parse_u32_or_default(s: &str, default: u32) -> (r: u32)
    ensures
        r == parse_u32_or(s@, default),
{
    let n = s.unicode_len();
    let mut start: usize = 0;
    if n > 0 && s.get_char(0) == '+' {
        start = 1;
    }
    proof {
        assert(unsigned_digits(s@) =~= s@.skip(start as int));
    }
    if start >= n {
        proof {
            assert(s@.skip(start as int).len() == 0);
        }
        return default;
    }
    match read_digits(s, start, n, u32::MAX as u64) {
        Some(acc) => acc as u32,
        None => default,
    }
}

/// Parses `s` as a signed decimal offset, substituting `default` when
/// `s` is not a well-formed in-range number.
pub fn parse_i32_or_default(s: &str, default: i32) -> (r: i32)
    ensures
        r == parse_i32_or(s@, default),
{
    let n = s.unicode_len();
    let mut start: usize = 0;
    let mut neg = false;
    if n > 0 {
        let c0 = s.get_char(0);
        if c0 == '+' {
            start = 1;
        } else if c0 == '-' {
            start = 1;
            neg = true;
        }
    }
    proof {
        assert(signed_digits(s@) =~= s@.skip(start as int));
        assert(neg == (sign_of(s@) == -1));
    }
    if start >= n {
        proof {
            assert(s@.skip(start as int).len() == 0);
        }
        return default;
    }
    match read_digits(s, start, n, 0x8000_0000u64) {
        Some(mag) => {
            proof {
                lemma_dec_val_nonneg(s@.skip(start as int));
            }
            if neg {
                if mag == 0x8000_0000u64 {
                    i32::MIN
                } else {
                    -(mag as i32)
                }
            } else {
                if mag > i32::MAX as u64 {
                    default
                } else {
                    mag as i32
                }
            }
        },
        None => default,
    }
}

// ---------------------------------------------------------------------------
// Decimal rendering
// ---------------------------------------------------------------------------

/// Decimal digits of a nonnegative number, most significant first.
pub open spec fn dec_str(n: int) -> Seq<char>
    decreases n,
{
    if n < 0 {
        Seq::empty()
    } else if n < 10 {
        seq![digit_char(n)]
    } else {
        dec_str(n / 10).push(digit_char(n % 10))
    }
}

/// Decimal text of a signed number: a minus sign for negatives, then the
/// digits of the magnitude.
pub open spec fn dec_str_signed(v: int) -> Seq<char> {
    if v < 0 {
        seq!['-'] + dec_str(-v)
    } else {
        dec_str(v)
    }
}

fn digit_str(d: u32) -> (r: &'static str)
    requires
        d < 10,
    ensures
        r@ =~= seq![digit_char(d as int)],
{
    let r: &'static str = if d == 0 {
        "0"
    } else if d == 1 {
        "1"
    } else if d == 2 {
        "2"
    } else if d == 3 {
        "3"
    } else if d == 4 {
        "4"
    } else if d == 5 {
        "5"
    } else if d == 6 {
        "6"
    } else if d == 7 {
        "7"
    } else if d == 8 {
        "8"
    } else {
        "9"
    };
    proof {
        reveal_strlit("0");
        reveal_strlit("1");
        reveal_strlit("2");
        reveal_strlit("3");
        reveal_strlit("4");
        reveal_strlit("5");
        reveal_strlit("6");
        reveal_strlit("7");
        reveal_strlit("8");
        reveal_strlit("9");
        assert(r@ =~= seq![digit_char(d as int)]);
    }
    r
}

fn push_dec_digits(n: u32, out: &mut String)
    ensures
        final(out)@ == old(out)@ + dec_str(n as int),
    decreases n,
{
    if n >= 10 {
        push_dec_digits(n / 10, out);
    }
    out.append(digit_str(n % 10));
    proof {
        if n >= 10 {
            assert(old(out)@ + dec_str((n / 10) as int) + seq![digit_char((n % 10) as int)]
                =~= old(out)@ + dec_str(n as int));
        } else {
            assert(old(out)@ + seq![digit_char(n as int)] =~= old(out)@ + dec_str(n as int));
        }
    }
}

/// Renders an unsigned number as decimal text.
pub fn u32_to_string(n: u32) -> (r: String)
    ensures
        r@ == dec_str(n as int),
{
    let mut out = String::new();
    push_dec_digits(n, &mut out);
    proof {
        assert(Seq::<char>::empty() + dec_str(n as int) =~= dec_str(n as int));
    }
    out
}

/// Renders a signed number as decimal text.
pub fn i32_to_string(v: i32) -> (r: String)
    ensures
        r@ == dec_str_signed(v as int),
{
    let mut out = String::new();
    if v < 0 {
        let mag: u32 = (-(v as i64)) as u32;
        proof {
            reveal_strlit("-");
        }
        out.append("-");
        push_dec_digits(mag, &mut out);
        proof {
            assert(Seq::<char>::empty() + "-"@ + dec_str(mag as int) =~= dec_str_signed(
                v as int,
            ));
        }
    } else {
        push_dec_digits(v as u32, &mut out);
        proof {
            assert(Seq::<char>::empty() + dec_str(v as int) =~= dec_str_signed(v as int));
        }
    }
    out
}

// ---------------------------------------------------------------------------
// Splitting on whitespace runs and on line breaks
// ---------------------------------------------------------------------------

/// Views of a sequence of owned strings.
pub open spec fn str_views(ss: Seq<String>) -> Seq<Seq<char>> {
    ss.map_values(|t: String| t@)
}

/// Tokens of `s` on runs of whitespace, read left to right with `cur`
/// the partial token gathered so far.
pub open spec fn split_ws_from(s: Seq<char>, cur: Seq<char>) -> Seq<Seq<char>>
    decreases s.len(),
{
    if s.len() == 0 {
        if cur.len() == 0 {
            Seq::empty()
        } else {
            seq![cur]
        }
    } else if is_space(s[0]) {
        if cur.len() == 0 {
            split_ws_from(s.drop_first(), Seq::empty())
        } else {
            seq![cur] + split_ws_from(s.drop_first(), Seq::empty())
        }
    } else {
        split_ws_from(s.drop_first(), cur.push(s[0]))
    }
}

/// The whitespace-separated tokens of `s`, in order, empties collapsed.
pub open spec fn split_ws(s: Seq<char>) -> Seq<Seq<char>> {
    split_ws_from(s, Seq::empty())
}

/// Splits `s` into whitespace-separated tokens.
pub fn tokenize(s: &str) -> (r: Vec<String>)
    ensures
        str_views(r@) == split_ws(s@),
{
    let n = s.unicode_len();
    let mut toks: Vec<String> = Vec::new();
    let mut cur = String::new();
    let mut i: usize = 0;
    proof {
        assert(s@.skip(0) =~= s@);
        assert(str_views(toks@) =~= Seq::<Seq<char>>::empty());
        assert(str_views(toks@) + split_ws(s@) =~= split_ws(s@));
    }
    while i < n
        invariant
            i <= n,
            n == s@.len(),
            str_views(toks@) + split_ws_from(s@.skip(i as int), cur@) == split_ws(s@),
        decreases n - i,
    {
        let c = s.get_char(i);
        proof {
            assert(s@.skip(i as int).drop_first() =~= s@.skip(i + 1));
            assert(s@.skip(i as int)[0] == s@[i as int]);
        }
        if space_char(c) {
            if !cur.as_str().is_empty() {
                proof {
                    assert(str_views(toks@.push(cur)) =~= str_views(toks@) + seq![cur@]);
                    assert(str_views(toks@) + (seq![cur@] + split_ws_from(
                        s@.skip(i + 1),
                        Seq::empty(),
                    )) =~= (str_views(toks@) + seq![cur@]) + split_ws_from(
                        s@.skip(i + 1),
                        Seq::empty(),
                    ));
                }
                toks.push(cur);
                cur = String::new();
            } else {
                proof {
                    assert(cur@ =~= Seq::<char>::empty());
                }
            }
        } else {
            let ghost cur0 = cur@;
            cur.append(s.substring_char(i, i + 1));
            proof {
                assert(cur0.push(s@[i as int]) =~= cur0 + s@.subrange(i as int, i + 1));
            }
        }
        i = i + 1;
    }
    proof {
        assert(s@.skip(n as int).len() == 0);
    }
    if !cur.as_str().is_empty() {
        proof {
            assert(str_views(toks@.push(cur)) =~= str_views(toks@) + seq![cur@]);
        }
        toks.push(cur);
    }
    proof {
        assert(str_views(toks@) + Seq::<Seq<char>>::empty() =~= str_views(toks@));
    }
    toks
}

/// Lines of `s` split at newline characters, read left to right with
/// `cur` the partial line gathered so far. Every segment is kept, the
/// empty ones included.
pub open spec fn split_lines_from(s: Seq<char>, cur: Seq<char>) -> Seq<Seq<char>>
    decreases s.len(),
{
    if s.len() == 0 {
        seq![cur]
    } else if s[0] == '\n' {
        seq![cur] + split_lines_from(s.drop_first(), Seq::empty())
    } else {
        split_lines_from(s.drop_first(), cur.push(s[0]))
    }
}

/// The newline-separated segments of `s`, in order.
pub open spec fn split_lines(s: Seq<char>) -> Seq<Seq<char>> {
    split_lines_from(s, Seq::empty())
}

/// Splits `s` at newline characters, keeping every segment.
pub fn lines_of(s: &str) -> (r: Vec<String>)
    ensures
        str_views(r@) == split_lines(s@),
{
    let n = s.unicode_len();
    let mut segs: Vec<String> = Vec::new();
    let mut cur = String::new();
    let mut i: usize = 0;
    proof {
        assert(s@.skip(0) =~= s@);
        assert(str_views(segs@) =~= Seq::<Seq<char>>::empty());
        assert(str_views(segs@) + split_lines(s@) =~= split_lines(s@));
    }
    while i < n
        invariant
            i <= n,
            n == s@.len(),
            str_views(segs@) + split_lines_from(s@.skip(i as int), cur@) == split_lines(s@),
        decreases n - i,
    {
        let c = s.get_char(i);
        proof {
            assert(s@.skip(i as int).drop_first() =~= s@.skip(i + 1));
            assert(s@.skip(i as int)[0] == s@[i as int]);
        }
        if c == '\n' {
            proof {
                assert(str_views(segs@.push(cur)) =~= str_views(segs@) + seq![cur@]);
                assert(str_views(segs@) + (seq![cur@] + split_lines_from(
                    s@.skip(i + 1),
                    Seq::empty(),
                )) =~= (str_views(segs@) + seq![cur@]) + split_lines_from(
                    s@.skip(i + 1),
                    Seq::empty(),
                ));
            }
            segs.push(cur);
            cur = String::new();
        } else {
            let ghost cur0 = cur@;
            cur.append(s.substring_char(i, i + 1));
            proof {
                assert(cur0.push(s@[i as int]) =~= cur0 + s@.subrange(i as int, i + 1));
            }
        }
        i = i + 1;
    }
    proof {
        assert(s@.skip(n as int).len() == 0);
        assert(str_views(segs@.push(cur)) =~= str_views(segs@) + seq![cur@]);
    }
    segs.push(cur);
    segs
}

/// Whether every character of `s` is whitespace.
pub open spec fn all_space(s: Seq<char>) -> bool {
    forall|i: int| 0 <= i < s.len() ==> is_space(#[trigger] s[i])
}

/// Whether `s` consists of whitespace alone.
pub fn is_blank(s: &str) -> (r: bool)
    ensures
        r == all_space(s@),
{
    let n = s.unicode_len();
    let mut i: usize = 0;
    while i < n
        invariant
            i <= n,
            n == s@.len(),
            forall|k: int| 0 <= k < i ==> is_space(#[trigger] s@[k]),
        decreases n - i,
    {
        if !space_char(s.get_char(i)) {
            return false;
        }
        i = i + 1;
    }
    true
}

// ---------------------------------------------------------------------------
// Substring search
// ---------------------------------------------------------------------------

/// Whether `needle` occurs in `hay` starting at position `i`.
pub open spec fn match_at(hay: Seq<char>, needle: Seq<char>, i: int) -> bool {
    0 <= i && i + needle.len() <= hay.len() && (forall|k: int|
        0 <= k < needle.len() ==> hay[i + k] == #[trigger] needle[k])
}

/// Whether `needle` occurs somewhere in `hay`.
pub open spec fn is_substring(needle: Seq<char>, hay: Seq<char>) -> bool {
    exists|i: int| match_at(hay, needle, i)
}

/// Whether `needle` occurs in `hay`, by direct search.
pub fn str_contains(hay: &str, needle: &str) -> (r: bool)
    ensures
        r == is_substring(needle@, hay@),
{
    let nh = hay.unicode_len();
    let nn = needle.unicode_len();
    if nn > nh {
        proof {
            assert forall|i: int| !match_at(hay@, needle@, i) by {}
        }
        return false;
    }
    let mut i: usize = 0;
    while i <= nh - nn
        invariant
            nn <= nh,
            nh == hay@.len(),
            nn == needle@.len(),
            i <= nh - nn + 1,
            forall|i2: int| 0 <= i2 < i ==> !match_at(hay@, needle@, i2),
        decreases nh - nn + 1 - i,
    {
        let mut j: usize = 0;
        let mut ok = true;
        while j < nn && ok
            invariant
                j <= nn,
                nh == hay@.len(),
                nn == needle@.len(),
                i + nn <= nh,
                ok ==> forall|k: int| 0 <= k < j ==> hay@[i + k] == #[trigger] needle@[k],
                !ok ==> !match_at(hay@, needle@, i as int),
            decreases nn - j, (if ok { 1int } else { 0int }),
        {
            if hay.get_char(i + j) != needle.get_char(j) {
                ok = false;
            } else {
                j = j + 1;
            }
        }
        if ok {
            proof {
                assert(match_at(hay@, needle@, i as int));
            }
            return true;
        }
        i = i + 1;
    }
    proof {
        assert forall|i2: int| !match_at(hay@, needle@, i2) by {
            if i2 >= i {
                assert(i2 + needle@.len() > hay@.len());
            }
        }
    }
    false
}

// ---------------------------------------------------------------------------
// Case folding
// ---------------------------------------------------------------------------

/// The lowercase image of a character sequence, as Unicode case folding
/// defines it.
pub uninterp spec fn lower_of(s: Seq<char>) -> Seq<char>;

/// Relies on str::to_lowercase: the result depends on the characters of
/// the input alone, and an empty input gives an empty result.
#[verifier::external_body]
pub(crate) fn to_lowercase(s: &str) -> (r: String)
    ensures
        r@ == lower_of(s@),
        s@.len() == 0 ==> r@.len() == 0,
{
    s.to_lowercase()
}

} // verus!
