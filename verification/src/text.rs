use vstd::prelude::*;
use vstd::string::*;
use vstd::utf8::*;

verus! {

/// Whether `c` has the Unicode `White_Space` property, as `char::is_whitespace`
/// tests it.
pub open spec fn is_white_space(c: char) -> bool {
    let v = c as u32;
    ||| 0x09 <= v <= 0x0d
    ||| v == 0x20
    ||| v == 0x85
    ||| v == 0xa0
    ||| v == 0x1680
    ||| 0x2000 <= v <= 0x200a
    ||| v == 0x2028
    ||| v == 0x2029
    ||| v == 0x202f
    ||| v == 0x205f
    ||| v == 0x3000
}

/// Whether the text is empty once surrounding white space is trimmed, that is,
/// whether every character is white space.
pub open spec fn blank(s: Seq<char>) -> bool {
    forall|i: int| 0 <= i < s.len() ==> #[trigger] is_white_space(s[i])
}

/// The text of an optional string, as an optional sequence of characters.
pub open spec fn text_of(s: Option<String>) -> Option<Seq<char>> {
    match s {
        Some(t) => Some(t@),
        None => None,
    }
}

/// Whether two texts are the same.
pub fn text_equals(a: &str, b: &str) -> (r: bool)
    ensures
        r == (a@ == b@),
{
    let x = a.to_owned();
    let y = b.to_owned();
    x == y
}

/// `char::is_whitespace`.
pub fn char_is_whitespace(c: char) -> (r: bool)
    ensures
        r == is_white_space(c),
{
    let v = c as u32;
    (0x09 <= v && v <= 0x0d) || v == 0x20 || v == 0x85 || v == 0xa0 || v == 0x1680 || (0x2000 <= v
        && v <= 0x200a) || v == 0x2028 || v == 0x2029 || v == 0x202f || v == 0x205f || v == 0x3000
}

/// Whether `s.trim()` is empty.
pub fn is_blank(s: &str) -> (r: bool)
    ensures
        r == blank(s@),
{
    let n = s.unicode_len();
    let mut i: usize = 0;
    while i < n
        invariant
            n == s@.len(),
            0 <= i <= n,
            forall|j: int| 0 <= j < i ==> #[trigger] is_white_space(s@[j]),
        decreases n - i,
    {
        if !char_is_whitespace(s.get_char(i)) {
            return false;
        }
        i += 1;
    }
    true
}

/// The number of characters of `s`.
pub fn char_count(s: &str) -> (r: usize)
    ensures
        r == s@.len(),
{
    s.unicode_len()
}

/// The lowercase hexadecimal digit of `d`.
pub open spec fn hex_char(d: nat) -> char {
    if d < 10 {
        (('0' as nat) + d) as char
    } else {
        (('a' as nat) + d - 10) as char
    }
}

/// The decimal numeral of `n`, without leading zeros.
pub open spec fn decimal(n: nat) -> Seq<char>
    decreases n,
{
    if n < 10 {
        seq![hex_char(n)]
    } else {
        decimal(n / 10).push(hex_char(n % 10))
    }
}

/// The last `k` hexadecimal digits of `n`, most significant first.
pub open spec fn hex_digits(n: nat, k: nat) -> Seq<char>
    decreases k,
{
    if k == 0 {
        Seq::empty()
    } else {
        hex_digits(n / 16, (k - 1) as nat).push(hex_char(n % 16))
    }
}

/// The one-character text of the hexadecimal digit `d`.
fn digit_text(d: u64) -> (r: &'static str)
    requires
        d < 16,
    ensures
        r@ == seq![hex_char(d as nat)],
{
    proof {
        reveal_strlit("0");
        reveal_strlit("1");
        reveal_strlit("2");
        reveal_strlit("3");
        reveal_strlit("4");
        reveal_strlit("5");
        reveal_strlit("6");
        reveal_strlit("7");
        reveal_strlit("8");
        reveal_strlit("9");
        reveal_strlit("a");
        reveal_strlit("b");
        reveal_strlit("c");
        reveal_strlit("d");
        reveal_strlit("e");
        reveal_strlit("f");
    }
    let r = match d {
        0 => "0",
        1 => "1",
        2 => "2",
        3 => "3",
        4 => "4",
        5 => "5",
        6 => "6",
        7 => "7",
        8 => "8",
        9 => "9",
        10 => "a",
        11 => "b",
        12 => "c",
        13 => "d",
        14 => "e",
        _ => "f",
    };
    assert(r@ =~= seq![hex_char(d as nat)]);
    r
}

/// Appends the decimal numeral of `n` to `out`.
pub fn push_decimal(out: &mut String, n: u64)
    ensures
        final(out)@ == old(out)@ + decimal(n as nat),
    decreases n,
{
    if n >= 10 {
        push_decimal(out, n / 10);
    }
    out.append(digit_text(n % 10));
    proof {
        assert(final(out)@ =~= old(out)@ + decimal(n as nat));
    }
}

/// Appends the decimal numeral of `n` to `out`, for numbers wider than 64
/// bits.
pub fn push_decimal_wide(out: &mut String, n: u128)
    ensures
        final(out)@ == old(out)@ + decimal(n as nat),
    decreases n,
{
    if n >= 10 {
        push_decimal_wide(out, n / 10);
    }
    let d = (n % 10) as u64;
    out.append(digit_text(d));
    proof {
        assert(final(out)@ =~= old(out)@ + decimal(n as nat));
    }
}

/// The texts joined by `separator`.
pub open spec fn joined(texts: Seq<Seq<char>>, separator: Seq<char>) -> Seq<char>
    decreases texts.len(),
{
    if texts.len() == 0 {
        Seq::empty()
    } else if texts.len() == 1 {
        texts[0]
    } else {
        joined(texts.drop_last(), separator) + separator + texts.last()
    }
}

/// Appends the texts joined by `separator` to `out`.
pub fn push_joined(out: &mut String, texts: &Vec<String>, separator: &str)
    ensures
        final(out)@ == old(out)@ + joined(texts@.map_values(|t: String| t@), separator@),
{
    let ghost views = texts@.map_values(|t: String| t@);
    let ghost start = out@;
    let mut i: usize = 0;
    while i < texts.len()
        invariant
            0 <= i <= texts@.len(),
            views == texts@.map_values(|t: String| t@),
            out@ == start + joined(views.subrange(0, i as int), separator@),
        decreases texts@.len() - i,
    {
        proof {
            let next = views.subrange(0, i + 1);
            assert(next.drop_last() =~= views.subrange(0, i as int));
        }
        if i > 0 {
            out.append(separator);
        }
        out.append(texts[i].as_str());
        i += 1;
        proof {
            let prev = views.subrange(0, i - 1);
            if i == 1 {
                assert(prev.len() == 0);
                assert(out@ =~= start + joined(views.subrange(0, i as int), separator@));
            } else {
                assert(out@ =~= start + joined(views.subrange(0, i as int), separator@));
            }
        }
    }
    assert(views.subrange(0, texts@.len() as int) =~= views);
}

/// Appends the last `k` hexadecimal digits of `n` to `out`.
pub fn push_hex_digits(out: &mut String, n: u64, k: u32)
    ensures
        final(out)@ == old(out)@ + hex_digits(n as nat, k as nat),
    decreases k,
{
    if k > 0 {
        push_hex_digits(out, n / 16, k - 1);
        out.append(digit_text(n % 16));
        proof {
            assert(final(out)@ =~= old(out)@ + hex_digits(n as nat, k as nat));
        }
    } else {
        assert(final(out)@ =~= old(out)@ + hex_digits(n as nat, k as nat));
    }
}

/// `b` with an ASCII capital letter turned into its small letter.
pub open spec fn ascii_lower(b: u8) -> u8 {
    if 0x41 <= b <= 0x5a {
        (b + 0x20) as u8
    } else {
        b
    }
}

/// The bytes of `s` with ASCII capitals lowered, as `to_ascii_lowercase`
/// followed by `as_bytes` gives them.
pub open spec fn ascii_lower_bytes(s: Seq<char>) -> Seq<u8> {
    encode_utf8(s).map_values(|b: u8| ascii_lower(b))
}

/// `ascii_lower`.
pub fn lower_byte(b: u8) -> (r: u8)
    ensures
        r == ascii_lower(b),
{
    if 0x41 <= b && b <= 0x5a {
        b + 0x20
    } else {
        b
    }
}

/// Appends the bytes of `s`, ASCII capitals lowered, to `out`.
pub fn push_lowercase_bytes(out: &mut Vec<u8>, s: &str)
    ensures
        final(out)@ == old(out)@ + ascii_lower_bytes(s@),
{
    let bytes = s.as_bytes();
    let mut i: usize = 0;
    while i < bytes.len()
        invariant
            bytes@ == encode_utf8(s@),
            0 <= i <= bytes@.len(),
            out@ == old(out)@ + bytes@.subrange(0, i as int).map_values(|b: u8| ascii_lower(b)),
        decreases bytes@.len() - i,
    {
        out.push(lower_byte(bytes[i]));
        i += 1;
        assert(bytes@.subrange(0, i as int).map_values(|b: u8| ascii_lower(b)) =~= bytes@.subrange(
            0,
            i - 1,
        ).map_values(|b: u8| ascii_lower(b)).push(ascii_lower(bytes@[i - 1])));
    }
    assert(bytes@.subrange(0, bytes@.len() as int) =~= bytes@);
}

/// Whether two texts are equal once ASCII capitals are lowered, as
/// `str::eq_ignore_ascii_case` compares them.
pub open spec fn equal_ignoring_ascii_case(a: Seq<char>, b: Seq<char>) -> bool {
    ascii_lower_bytes(a) == ascii_lower_bytes(b)
}

/// `str::eq_ignore_ascii_case`.
pub fn eq_ignore_ascii_case(a: &str, b: &str) -> (r: bool)
    ensures
        r == equal_ignoring_ascii_case(a@, b@),
{
    let x = a.as_bytes();
    let y = b.as_bytes();
    if x.len() != y.len() {
        assert(ascii_lower_bytes(a@).len() != ascii_lower_bytes(b@).len());
        return false;
    }
    let mut i: usize = 0;
    while i < x.len()
        invariant
            x@ == encode_utf8(a@),
            y@ == encode_utf8(b@),
            x@.len() == y@.len(),
            0 <= i <= x@.len(),
            forall|j: int| 0 <= j < i ==> #[trigger] ascii_lower(x@[j]) == ascii_lower(y@[j]),
        decreases x@.len() - i,
    {
        if lower_byte(x[i]) != lower_byte(y[i]) {
            assert(ascii_lower_bytes(a@)[i as int] != ascii_lower_bytes(b@)[i as int]);
            return false;
        }
        i += 1;
    }
    assert(ascii_lower_bytes(a@) =~= ascii_lower_bytes(b@));
    true
}

/// The FNV-1a offset basis.
pub const FNV_OFFSET: u64 = 0xcbf29ce484222325;

/// The FNV-1a prime.
pub const FNV_PRIME: u64 = 0x100000001b3;

/// The 64-bit FNV-1a hash of `bytes`.
pub open spec fn fnv1a(bytes: Seq<u8>) -> u64
    decreases bytes.len(),
{
    if bytes.len() == 0 {
        FNV_OFFSET
    } else {
        (((fnv1a(bytes.drop_last()) ^ (bytes.last() as u64)) as nat * FNV_PRIME as nat)
            % 0x1_0000_0000_0000_0000) as u64
    }
}

/// The 64-bit FNV-1a hash of `bytes`.
pub fn fnv1a64(bytes: &[u8]) -> (r: u64)
    ensures
        r == fnv1a(bytes@),
{
    let mut hash: u64 = FNV_OFFSET;
    let mut i: usize = 0;
    while i < bytes.len()
        invariant
            0 <= i <= bytes@.len(),
            hash == fnv1a(bytes@.subrange(0, i as int)),
        decreases bytes@.len() - i,
    {
        proof {
            assert(bytes@.subrange(0, i + 1).drop_last() =~= bytes@.subrange(0, i as int));
        }
        hash = (hash ^ (bytes[i] as u64)).wrapping_mul(FNV_PRIME);
        i += 1;
    }
    assert(bytes@.subrange(0, bytes@.len() as int) =~= bytes@);
    hash
}

/// Whether a cut of the UTF-8 text `bytes` after `k` bytes falls between
/// two characters: at either end, or before a byte that does not continue
/// a character.
pub open spec fn char_boundary(bytes: Seq<u8>, k: int) -> bool {
    k == 0 || k == bytes.len() || (0 < k < bytes.len() && !(0x80 <= bytes[k] < 0xc0))
}

/// The length of the UTF-8 text `bytes` cut to at most `maximum_bytes`
/// bytes without splitting a character: the whole text when it fits,
/// otherwise the longest prefix within the limit that ends between two
/// characters.
pub fn truncate_utf8(bytes: &[u8], maximum_bytes: usize) -> (r: usize)
    ensures
        bytes@.len() <= maximum_bytes ==> r == bytes@.len(),
        bytes@.len() > maximum_bytes ==> {
            &&& r <= maximum_bytes
            &&& char_boundary(bytes@, r as int)
            &&& forall|k: int| r < k <= maximum_bytes ==> !#[trigger] char_boundary(bytes@, k)
        },
{
    if bytes.len() <= maximum_bytes {
        return bytes.len();
    }
    let mut end = maximum_bytes;
    while end > 0 && 0x80 <= bytes[end] && bytes[end] < 0xc0
        invariant
            end <= maximum_bytes < bytes@.len(),
            forall|k: int| end < k <= maximum_bytes ==> !#[trigger] char_boundary(bytes@, k),
        decreases end,
    {
        end -= 1;
    }
    end
}

} // verus!
