//! UTF-8 text in packet bodies.
use vstd::prelude::*;
use vstd::string::{StrSliceExecFns, StringSliceAdditionalSpecFns};
use vstd::utf8::{encode_utf8, valid_utf8};
use crate::bytes::{cstring_at, read_cstring_bytes};

verus! {

/// Calls `std::str::from_utf8`, which std documents as succeeding exactly where the bytes
/// are valid UTF-8, and then gives a string slice holding those same bytes.
#[verifier::external_body]
fn str_from_utf8(bytes: &[u8]) -> (r: Option<&str>)
    ensures
        r is Some <==> valid_utf8(bytes@),
        r matches Some(s) ==> s.spec_bytes() == bytes@,
{
    std::str::from_utf8(bytes).ok()
}

/// The text of the C string at `offset` and the position after its terminator, where the
/// string is valid UTF-8.
pub open spec fn text_at(body: Seq<u8>, offset: int) -> Option<(Seq<u8>, int)> {
    match cstring_at(body, offset) {
        Some((t, next)) => if valid_utf8(t) { Some((t, next)) } else { None },
        None => None,
    }
}

/// Read the UTF-8 C string at `offset`: the text and the position after the terminator;
/// `None` where no terminator follows or the bytes are not UTF-8.
pub fn read_cstring(body: &[u8], offset: usize) -> (r: Option<(String, usize)>)
    ensures
        match r {
            Some((s, next)) => text_at(body@, offset as int) == Some((encode_utf8(s@), next as int)) && offset < next <= body@.len(),
            None => text_at(body@, offset as int) is None,
        },
{
    let (bytes, next) = match read_cstring_bytes(body, offset) {
        Some(p) => p,
        None => return None,
    };
    match str_from_utf8(bytes.as_slice()) {
        Some(s) => Some((s.to_owned(), next)),
        None => None,
    }
}


// ----- characters -----

/// Whether a character has the Unicode White_Space property: tab, line feed, vertical tab,
/// form feed, carriage return, space, next line, no-break space, ogham space mark, the
/// spaces from en quad to hair space, line and paragraph separators, narrow no-break
/// space, medium mathematical space and ideographic space.
pub open spec fn unicode_whitespace(c: char) -> bool {
    let x = c as u32;
    ||| 0x09 <= x <= 0x0D
    ||| x == 0x20
    ||| x == 0x85
    ||| x == 0xA0
    ||| x == 0x1680
    ||| 0x2000 <= x <= 0x200A
    ||| x == 0x2028
    ||| x == 0x2029
    ||| x == 0x202F
    ||| x == 0x205F
    ||| x == 0x3000
}

/// Whether a character is whitespace, as `char::is_whitespace` decides: the White_Space
/// property.
pub fn is_whitespace(c: char) -> (r: bool)
    ensures
        r == unicode_whitespace(c),
{
    let x = c as u32;
    (0x09 <= x && x <= 0x0D) || x == 0x20 || x == 0x85 || x == 0xA0 || x == 0x1680 || (0x2000 <= x && x <= 0x200A)
        || x == 0x2028 || x == 0x2029 || x == 0x202F || x == 0x205F || x == 0x3000
}

/// The ASCII-lowercase code of a character: ASCII capitals map to their small letters,
/// everything else to itself.
pub open spec fn lower_code(c: char) -> u32 {
    if 65 <= (c as u32) <= 90 { (c as u32 + 32) as u32 } else { c as u32 }
}

/// The ASCII-lowercase code of a character.
pub fn char_lower_code(c: char) -> (r: u32)
    ensures
        r == lower_code(c),
{
    let x = c as u32;
    if 65 <= x && x <= 90 { x + 32 } else { x }
}

/// Whether two texts are equal ignoring ASCII case.
pub open spec fn eq_ignore_case(a: Seq<char>, b: Seq<char>) -> bool {
    a.len() == b.len() && forall|i: int| 0 <= i < a.len() ==> lower_code(#[trigger] a[i]) == lower_code(b[i])
}

/// Whether `s` begins, ignoring ASCII case, with `prefix`.
pub open spec fn starts_with_ignore_case(s: Seq<char>, prefix: Seq<char>) -> bool {
    prefix.len() <= s.len() && eq_ignore_case(s.subrange(0, prefix.len() as int), prefix)
}

/// Whether `a` and `b` are equal ignoring ASCII case.
pub fn str_eq_ignore_case(a: &str, b: &str) -> (r: bool)
    ensures
        r == eq_ignore_case(a@, b@),
{
    let n = a.unicode_len();
    if n != b.unicode_len() {
        return false;
    }
    let mut i: usize = 0;
    while i < n
        invariant
            n == a@.len(),
            n == b@.len(),
            i <= n,
            forall|j: int| 0 <= j < i ==> lower_code(#[trigger] a@[j]) == lower_code(b@[j]),
        decreases n - i,
    {
        if char_lower_code(a.get_char(i)) != char_lower_code(b.get_char(i)) {
            return false;
        }
        i = i + 1;
    }
    true
}

/// Whether `s` begins with `prefix`, ignoring ASCII case.
pub fn str_starts_with_ignore_case(s: &str, prefix: &str) -> (r: bool)
    ensures
        r == starts_with_ignore_case(s@, prefix@),
{
    let n = prefix.unicode_len();
    if n > s.unicode_len() {
        return false;
    }
    let head = s.substring_char(0, n);
    str_eq_ignore_case(head, prefix)
}

// ----- trimming -----

/// The first position at or after `i` that does not hold whitespace.
pub open spec fn skip_whitespace(s: Seq<char>, i: int) -> int
    decreases s.len() - i,
{
    if i < 0 || i >= s.len() || !unicode_whitespace(s[i]) { i } else { skip_whitespace(s, i + 1) }
}

/// The end of `s[..j]` without its trailing whitespace.
pub open spec fn drop_trailing_whitespace(s: Seq<char>, j: int) -> int
    decreases j,
{
    if j <= 0 || j > s.len() || !unicode_whitespace(s[j - 1]) { j } else { drop_trailing_whitespace(s, j - 1) }
}

/// `s` without leading whitespace.
pub open spec fn trim_start_of(s: Seq<char>) -> Seq<char> {
    s.subrange(skip_whitespace(s, 0), s.len() as int)
}

/// `s` without leading or trailing whitespace.
pub open spec fn trim_of(s: Seq<char>) -> Seq<char> {
    let a = skip_whitespace(s, 0);
    let b = drop_trailing_whitespace(s, s.len() as int);
    if b <= a { Seq::empty() } else { s.subrange(a, b) }
}

fn skip_ws_from(s: &str, start: usize) -> (r: usize)
    requires
        start <= s@.len(),
    ensures
        r == skip_whitespace(s@, start as int),
        start <= r <= s@.len(),
{
    let n = s.unicode_len();
    let mut i = start;
    while i < n && is_whitespace(s.get_char(i))
        invariant
            n == s@.len(),
            start <= i <= n,
            skip_whitespace(s@, start as int) == skip_whitespace(s@, i as int),
        decreases n - i,
    {
        i = i + 1;
    }
    i
}

fn drop_ws_before(s: &str, end: usize) -> (r: usize)
    requires
        end <= s@.len(),
    ensures
        r == drop_trailing_whitespace(s@, end as int),
        r <= end,
{
    let mut j = end;
    while j > 0 && is_whitespace(s.get_char(j - 1))
        invariant
            j <= end <= s@.len(),
            drop_trailing_whitespace(s@, end as int) == drop_trailing_whitespace(s@, j as int),
        decreases j,
    {
        j = j - 1;
    }
    j
}

/// `s` without leading whitespace.
pub fn trim_start(s: &str) -> (r: &str)
    ensures
        r@ == trim_start_of(s@),
{
    let a = skip_ws_from(s, 0);
    s.substring_char(a, s.unicode_len())
}

/// `s` without leading or trailing whitespace.
pub fn trim(s: &str) -> (r: &str)
    ensures
        r@ == trim_of(s@),
{
    let n = s.unicode_len();
    let a = skip_ws_from(s, 0);
    let b = drop_ws_before(s, n);
    if b <= a {
        let e = s.substring_char(0, 0);
        assert(e@ =~= Seq::<char>::empty());
        e
    } else {
        s.substring_char(a, b)
    }
}

/// The first position at or after `i` that does not hold a double quote.
pub open spec fn skip_quotes(s: Seq<char>, i: int) -> int
    decreases s.len() - i,
{
    if i < 0 || i >= s.len() || s[i] != '"' { i } else { skip_quotes(s, i + 1) }
}

/// The end of `s[..j]` without its trailing double quotes, not before `lo`.
pub open spec fn drop_trailing_quotes(s: Seq<char>, lo: int, j: int) -> int
    decreases j - lo,
{
    if j <= lo || j > s.len() || s[j - 1] != '"' { j } else { drop_trailing_quotes(s, lo, j - 1) }
}

/// `s` without leading or trailing double quotes.
pub open spec fn strip_quotes_of(s: Seq<char>) -> Seq<char> {
    let a = skip_quotes(s, 0);
    s.subrange(a, drop_trailing_quotes(s, a, s.len() as int))
}

/// `s` without leading or trailing double quotes.
pub fn strip_quotes(s: &str) -> (r: &str)
    ensures
        r@ == strip_quotes_of(s@),
{
    let n = s.unicode_len();
    let mut a: usize = 0;
    while a < n && s.get_char(a) == '"'
        invariant
            n == s@.len(),
            a <= n,
            skip_quotes(s@, 0) == skip_quotes(s@, a as int),
        decreases n - a,
    {
        a = a + 1;
    }
    let mut b: usize = n;
    while b > a && s.get_char(b - 1) == '"'
        invariant
            n == s@.len(),
            a <= b <= n,
            a == skip_quotes(s@, 0),
            drop_trailing_quotes(s@, a as int, n as int) == drop_trailing_quotes(s@, a as int, b as int),
        decreases b,
    {
        b = b - 1;
    }
    s.substring_char(a, b)
}


/// Whether two texts are equal, character by character.
pub fn str_eq(a: &str, b: &str) -> (r: bool)
    ensures
        r == (a@ == b@),
{
    let n = a.unicode_len();
    if n != b.unicode_len() {
        return false;
    }
    let mut i: usize = 0;
    while i < n
        invariant
            n == a@.len(),
            n == b@.len(),
            i <= n,
            forall|j: int| 0 <= j < i ==> a@[j] == b@[j],
        decreases n - i,
    {
        if a.get_char(i) != b.get_char(i) {
            return false;
        }
        i = i + 1;
    }
    assert(a@ =~= b@);
    true
}

/// Whether a text holds a character.
pub fn str_contains_char(s: &str, c: char) -> (r: bool)
    ensures
        r == s@.contains(c),
{
    let n = s.unicode_len();
    let mut i: usize = 0;
    while i < n
        invariant
            n == s@.len(),
            i <= n,
            forall|j: int| 0 <= j < i ==> s@[j] != c,
        decreases n - i,
    {
        if s.get_char(i) == c {
            assert(s@[i as int] == c);
            return true;
        }
        i = i + 1;
    }
    false
}

/// The decimal digits of a number.
pub open spec fn decimal(n: nat) -> Seq<char>
    decreases n,
{
    if n < 10 {
        seq![(48 + n) as char]
    } else {
        decimal(n / 10).push((48 + n % 10) as char)
    }
}

/// The text of one decimal digit.
fn digit_text(d: u64) -> (r: &'static str)
    requires
        d < 10,
    ensures
        r@ == seq![(48 + d) as char],
{
    proof {
        reveal_strlit("0");
        reveal_strlit("1");
        reveal_strlit("2");
        reveal_strlit("3");
        reveal_strlit("4");
        reveal_strlit("5");
        reveal_strlit("6");
        reveal_strlit("7");
        reveal_strlit("8");
        reveal_strlit("9");
    }
    match d {
        0 => "0",
        1 => "1",
        2 => "2",
        3 => "3",
        4 => "4",
        5 => "5",
        6 => "6",
        7 => "7",
        8 => "8",
        _ => "9",
    }
}

/// Appends the decimal digits of `n`.
pub fn push_decimal(out: &mut String, n: u64)
    ensures
        final(out)@ == old(out)@ + decimal(n as nat),
    decreases n,
{
    if n >= 10 {
        push_decimal(out, n / 10);
    }
    out.append(digit_text(n % 10));
    assert(out@ =~= old(out)@ + decimal(n as nat));
}

} // verus!
