//! Character-level helpers shared by the command builders and parsers.

use vstd::prelude::*;
use vstd::string::StringSliceAdditionalSpecFns;

verus! {

/// The characters for which `char::is_whitespace` holds: the Unicode
/// `White_Space` property.
pub open spec fn is_space(c: char) -> bool {
    let u = c as u32;
    ||| 0x09 <= u <= 0x0D
    ||| u == 0x20
    ||| u == 0x85
    ||| u == 0xA0
    ||| u == 0x1680
    ||| 0x2000 <= u <= 0x200A
    ||| u == 0x2028
    ||| u == 0x2029
    ||| u == 0x202F
    ||| u == 0x205F
    ||| u == 0x3000
}

/// Executable form of `is_space`.
pub fn space(c: char) -> (r: bool)
    ensures
        r == is_space(c),
{
    let u = c as u32;
    (0x09 <= u && u <= 0x0D) || u == 0x20 || u == 0x85 || u == 0xA0 || u == 0x1680 || (0x2000
        <= u && u <= 0x200A) || u == 0x2028 || u == 0x2029 || u == 0x202F || u == 0x205F || u
        == 0x3000
}

/// `s` without its leading white space.
pub open spec fn trim_start(s: Seq<char>) -> Seq<char>
    decreases s.len(),
{
    if s.len() > 0 && is_space(s[0]) {
        trim_start(s.drop_first())
    } else {
        s
    }
}

/// `s` without its trailing white space.
pub open spec fn trim_end(s: Seq<char>) -> Seq<char>
    decreases s.len(),
{
    if s.len() > 0 && is_space(s.last()) {
        trim_end(s.drop_last())
    } else {
        s
    }
}

/// `s` without leading and trailing white space, as `str::trim` gives it.
pub open spec fn trim(s: Seq<char>) -> Seq<char> {
    trim_end(trim_start(s))
}

proof fn lemma_trim_start_skip(s: Seq<char>, i: int)
    requires
        0 <= i <= s.len(),
        forall|k: int| 0 <= k < i ==> is_space(#[trigger] s[k]),
    ensures
        trim_start(s) == trim_start(s.subrange(i, s.len() as int)),
    decreases i,
{
    if i > 0 {
        assert(s.drop_first() == s.subrange(1, s.len() as int));
        let t = s.drop_first();
        assert forall|k: int| 0 <= k < i - 1 implies is_space(#[trigger] t[k]) by {
            assert(t[k] == s[k + 1]);
        }
        lemma_trim_start_skip(t, i - 1);
        assert(t.subrange(i - 1, t.len() as int) == s.subrange(i, s.len() as int));
    } else {
        assert(s.subrange(0, s.len() as int) == s);
    }
}

proof fn lemma_trim_end_cut(s: Seq<char>, j: int)
    requires
        0 <= j <= s.len(),
        forall|k: int| j <= k < s.len() ==> is_space(#[trigger] s[k]),
    ensures
        trim_end(s) == trim_end(s.subrange(0, j)),
    decreases s.len() - j,
{
    if j < s.len() {
        let t = s.drop_last();
        assert forall|k: int| j <= k < t.len() implies is_space(#[trigger] t[k]) by {
            assert(t[k] == s[k]);
        }
        lemma_trim_end_cut(t, j);
        assert(t.subrange(0, j) == s.subrange(0, j));
    } else {
        assert(s.subrange(0, j) == s);
    }
}

/// `str::trim`: the string without leading and trailing white space.
pub fn trim_str(s: &str) -> (r: String)
    ensures
        r@ == trim(s@),
{
    let n = s.unicode_len();
    let mut i: usize = 0;
    while i < n && space(s.get_char(i))
        invariant
            n == s@.len(),
            0 <= i <= n,
            forall|k: int| 0 <= k < i ==> is_space(#[trigger] s@[k]),
        decreases n - i,
    {
        i = i + 1;
    }
    proof {
        lemma_trim_start_skip(s@, i as int);
    }
    let ghost t = s@.subrange(i as int, n as int);
    assert(trim_start(s@) == t);
    let mut j: usize = n;
    while j > i && space(s.get_char(j - 1))
        invariant
            n == s@.len(),
            0 <= i <= j <= n,
            t == s@.subrange(i as int, n as int),
            forall|k: int| j <= k < n ==> is_space(#[trigger] s@[k]),
        decreases j,
    {
        j = j - 1;
    }
    proof {
        assert forall|k: int| j - i <= k < t.len() implies is_space(#[trigger] t[k]) by {
            assert(t[k] == s@[k + i]);
        }
        lemma_trim_end_cut(t, j - i);
        let u = t.subrange(0, j - i);
        if u.len() > 0 {
            assert(u.last() == s@[j - 1]);
        }
        assert(u == s@.subrange(i as int, j as int));
    }
    String::from_str(s.substring_char(i, j))
}

/// Characters equal, one by one.
pub fn same(a: &str, b: &str) -> (r: bool)
    ensures
        r == (a@ == b@),
{
    let n = a.unicode_len();
    if n != b.unicode_len() {
        return false;
    }
    let mut i: usize = 0;
    while i < n
        invariant
            n == a@.len(),
            n == b@.len(),
            0 <= i <= n,
            forall|k: int| 0 <= k < i ==> a@[k] == b@[k],
        decreases n - i,
    {
        if a.get_char(i) != b.get_char(i) {
            return false;
        }
        i = i + 1;
    }
    assert(a@ =~= b@);
    true
}

/// `a` followed by `b`.
pub fn cat(a: &str, b: &str) -> (r: String)
    ensures
        r@ == a@ + b@,
{
    let mut r = String::from_str(a);
    r.append(b);
    r
}

/// `a`, `b` and `c` in a row.
pub fn cat3(a: &str, b: &str, c: &str) -> (r: String)
    ensures
        r@ == a@ + b@ + c@,
{
    let mut r = String::from_str(a);
    r.append(b);
    r.append(c);
    r
}

/// The character of a decimal digit.
pub open spec fn digit_char(d: nat) -> char {
    if d == 0 {
        '0'
    } else if d == 1 {
        '1'
    } else if d == 2 {
        '2'
    } else if d == 3 {
        '3'
    } else if d == 4 {
        '4'
    } else if d == 5 {
        '5'
    } else if d == 6 {
        '6'
    } else if d == 7 {
        '7'
    } else if d == 8 {
        '8'
    } else {
        '9'
    }
}

/// The decimal form of `n`, without sign or leading zeros (`n.to_string()`).
pub open spec fn decimal(n: nat) -> Seq<char>
    decreases n,
{
    if n < 10 {
        seq![digit_char(n)]
    } else {
        decimal(n / 10).push(digit_char(n % 10))
    }
}

fn digit_str(d: u128) -> (r: &'static str)
    requires
        d < 10,
    ensures
        r@ == seq![digit_char(d as nat)],
{
    proof {
        reveal_strlit("0");
        reveal_strlit("1");
        reveal_strlit("2");
        reveal_strlit("3");
        reveal_strlit("4");
        reveal_strlit("5");
        reveal_strlit("6");
        reveal_strlit("7");
        reveal_strlit("8");
        reveal_strlit("9");
    }
    let r = if d == 0 {
        "0"
    } else if d == 1 {
        "1"
    } else if d == 2 {
        "2"
    } else if d == 3 {
        "3"
    } else if d == 4 {
        "4"
    } else if d == 5 {
        "5"
    } else if d == 6 {
        "6"
    } else if d == 7 {
        "7"
    } else if d == 8 {
        "8"
    } else {
        "9"
    };
    assert(r@ =~= seq![digit_char(d as nat)]);
    r
}

/// The decimal form of a number, as `to_string` writes an unsigned integer.
pub fn decimal_string(n: u128) -> (r: String)
    ensures
        r@ == decimal(n as nat),
    decreases n,
{
    if n < 10 {
        String::from_str(digit_str(n))
    } else {
        let mut r = decimal_string(n / 10);
        r.append(digit_str(n % 10));
        assert(r@ =~= decimal(n as nat));
        r
    }
}

/// The decimal form of a signed number, as `to_string` writes an `i32`.
pub open spec fn signed_decimal(n: int) -> Seq<char> {
    if n < 0 {
        seq!['-'] + decimal((-n) as nat)
    } else {
        decimal(n as nat)
    }
}

/// Executable form of `signed_decimal` for an `i32`.
pub fn signed_decimal_string(n: i32) -> (r: String)
    ensures
        r@ == signed_decimal(n as int),
{
    if n < 0 {
        let m: i64 = -(n as i64);
        let digits = decimal_string(m as u128);
        proof {
            reveal_strlit("-");
        }
        let r = cat("-", digits.as_str());
        assert(r@ =~= signed_decimal(n as int));
        r
    } else {
        decimal_string(n as u128)
    }
}

/// Whether `c` is an ASCII decimal digit.
pub open spec fn is_digit(c: char) -> bool {
    48 <= c as u32 <= 57
}

/// The value of a digit character.
pub open spec fn digit_value(c: char) -> nat {
    ((c as u32) - 48) as nat
}

/// The value of a string of digits read in base ten.
pub open spec fn digits_value(s: Seq<char>) -> nat
    decreases s.len(),
{
    if s.len() == 0 {
        0
    } else {
        digits_value(s.drop_last()) * 10 + digit_value(s.last())
    }
}

/// The digits that `from_str` reads: the string without one leading `+`.
pub open spec fn unsigned_digits(s: Seq<char>) -> Seq<char> {
    if s.len() > 0 && s[0] == '+' {
        s.drop_first()
    } else {
        s
    }
}

/// What `from_str` gives for an unsigned integer type whose largest value is
/// `max`: an optional `+` followed by at least one digit, and nothing else,
/// whose value does not exceed `max`.
pub open spec fn parse_unsigned(s: Seq<char>, max: nat) -> Option<nat> {
    let d = unsigned_digits(s);
    if d.len() > 0 && (forall|i: int| 0 <= i < d.len() ==> is_digit(#[trigger] d[i]))
        && digits_value(d) <= max {
        Some(digits_value(d))
    } else {
        None
    }
}

proof fn lemma_digits_value_grows(s: Seq<char>, i: int, j: int)
    requires
        0 <= i <= j <= s.len(),
    ensures
        digits_value(s.subrange(0, i)) <= digits_value(s.subrange(0, j)),
    decreases j - i,
{
    if i < j {
        lemma_digits_value_grows(s, i, j - 1);
        assert(s.subrange(0, j).drop_last() == s.subrange(0, j - 1));
    }
}

/// `from_str` for an unsigned integer whose largest value is `max`.
pub fn parse_unsigned_str(s: &str, max: u64) -> (r: Option<u64>)
    ensures
        r matches Some(v) ==> parse_unsigned(s@, max as nat) == Some(v as nat),
        r is None ==> parse_unsigned(s@, max as nat) is None,
{
    let n = s.unicode_len();
    let start: usize = if n > 0 && s.get_char(0) == '+' {
        1
    } else {
        0
    };
    let ghost d = unsigned_digits(s@);
    assert(d == s@.subrange(start as int, n as int));
    if start >= n {
        return None;
    }
    let mut value: u64 = 0;
    let mut i: usize = start;
    while i < n
        invariant
            n == s@.len(),
            start <= i <= n,
            start < n,
            d == s@.subrange(start as int, n as int),
            d == unsigned_digits(s@),
            value <= max,
            forall|k: int| 0 <= k < i - start ==> is_digit(#[trigger] d[k]),
            value as nat == digits_value(d.subrange(0, i - start)),
        decreases n - i,
    {
        let c = s.get_char(i);
        let cu = c as u32;
        assert(d[i - start] == c);
        if !(48 <= cu && cu <= 57) {
            assert(!is_digit(d[i - start]));
            return None;
        }
        let dv: u64 = (cu - 48) as u64;
        let ghost prefix = d.subrange(0, i + 1 - start);
        assert(prefix.drop_last() == d.subrange(0, i - start));
        assert(prefix.last() == c);
        assert(digits_value(prefix) == value * 10 + dv);
        let next: u128 = value as u128 * 10 + dv as u128;
        if next > max as u128 {
            proof {
                lemma_digits_value_grows(d, i + 1 - start, d.len() as int);
                assert(d.subrange(0, d.len() as int) == d);
            }
            return None;
        }
        value = next as u64;
        i = i + 1;
    }
    assert(d.subrange(0, n - start) == d);
    Some(value)
}


proof fn lemma_digit_char(d: nat)
    requires
        d < 10,
    ensures
        is_digit(digit_char(d)),
        digit_value(digit_char(d)) == d,
        digit_char(d) != '+',
{
}

proof fn lemma_decimal_digits(n: nat)
    ensures
        decimal(n).len() > 0,
        forall|i: int| 0 <= i < decimal(n).len() ==> is_digit(#[trigger] decimal(n)[i]),
        digits_value(decimal(n)) == n,
        decimal(n)[0] != '+',
    decreases n,
{
    lemma_digit_char(n % 10);
    if n >= 10 {
        lemma_decimal_digits(n / 10);
        let p = decimal(n / 10);
        assert(decimal(n).drop_last() == p);
        assert forall|i: int| 0 <= i < decimal(n).len() implies is_digit(#[trigger] decimal(n)[i]) by {
            if i < p.len() {
                assert(decimal(n)[i] == p[i]);
            }
        }
        assert(decimal(n)[0] == p[0]);
        assert(decimal(n).last() == digit_char(n % 10));
        assert(digits_value(decimal(n)) == digits_value(p) * 10 + n % 10);
        assert((n / 10) * 10 + n % 10 == n);
    } else {
        assert(decimal(n).drop_last() =~= Seq::<char>::empty());
        assert(digits_value(Seq::<char>::empty()) == 0);
    }
}

/// Reading back what `decimal` wrote gives the number again, for every
/// number that fits the type read.
pub proof fn lemma_parse_decimal(n: nat, max: nat)
    requires
        n <= max,
    ensures
        parse_unsigned(decimal(n), max) == Some(n),
{
    lemma_decimal_digits(n);
    assert(unsigned_digits(decimal(n)) == decimal(n));
}

/// `i` is the first place in `s` that holds `c`.
pub open spec fn first_char_at(s: Seq<char>, c: char, i: int) -> bool {
    &&& 0 <= i < s.len()
    &&& s[i] == c
    &&& forall|k: int| 0 <= k < i ==> s[k] != c
}

/// The first place in `s` that holds `c`, if any.
pub open spec fn find_char(s: Seq<char>, c: char) -> Option<int> {
    if exists|i: int| first_char_at(s, c, i) {
        Some(choose|i: int| first_char_at(s, c, i))
    } else {
        None
    }
}

/// Executable form of `find_char`.
pub fn find_char_in(s: &str, c: char) -> (r: Option<usize>)
    ensures
        r matches Some(i) ==> find_char(s@, c) == Some(i as int),
        r is None ==> find_char(s@, c) is None,
{
    let n = s.unicode_len();
    let mut i: usize = 0;
    while i < n
        invariant
            n == s@.len(),
            0 <= i <= n,
            forall|k: int| 0 <= k < i ==> s@[k] != c,
        decreases n - i,
    {
        if s.get_char(i) == c {
            assert(first_char_at(s@, c, i as int));
            let ghost j = choose|j: int| first_char_at(s@, c, j);
            assert(j == i) by {
                if j < i {
                    assert(s@[j] != c);
                }
                if j > i {
                    assert(s@[i as int] != c);
                }
            }
            return Some(i);
        }
        i = i + 1;
    }
    assert(!exists|j: int| first_char_at(s@, c, j));
    None
}

/// `i` is the first place in `s` that holds white space.
pub open spec fn first_space_at(s: Seq<char>, i: int) -> bool {
    &&& 0 <= i < s.len()
    &&& is_space(s[i])
    &&& forall|k: int| 0 <= k < i ==> !is_space(s[k])
}

/// The first place in `s` that holds white space, if any.
pub open spec fn find_space(s: Seq<char>) -> Option<int> {
    if exists|i: int| first_space_at(s, i) {
        Some(choose|i: int| first_space_at(s, i))
    } else {
        None
    }
}

/// Executable form of `find_space`.
pub fn find_space_in(s: &str) -> (r: Option<usize>)
    ensures
        r matches Some(i) ==> find_space(s@) == Some(i as int),
        r is None ==> find_space(s@) is None,
{
    let n = s.unicode_len();
    let mut i: usize = 0;
    while i < n
        invariant
            n == s@.len(),
            0 <= i <= n,
            forall|k: int| 0 <= k < i ==> !is_space(#[trigger] s@[k]),
        decreases n - i,
    {
        if space(s.get_char(i)) {
            assert(first_space_at(s@, i as int));
            let ghost j = choose|j: int| first_space_at(s@, j);
            assert(j == i) by {
                if j < i {
                    assert(!is_space(s@[j]));
                }
                if j > i {
                    assert(!is_space(s@[i as int]));
                }
            }
            return Some(i);
        }
        i = i + 1;
    }
    assert(!exists|j: int| first_space_at(s@, j));
    None
}

/// The characters of `s` from `from` up to `to`, as an owned string.
pub fn slice(s: &str, from: usize, to: usize) -> (r: String)
    requires
        from <= to <= s@.len(),
    ensures
        r@ == s@.subrange(from as int, to as int),
{
    String::from_str(s.substring_char(from, to))
}

/// `needle` occurs in `hay` starting at `i`.
pub open spec fn occurs_at(hay: Seq<char>, needle: Seq<char>, i: int) -> bool {
    0 <= i && i + needle.len() <= hay.len() && hay.subrange(i, i + needle.len()) == needle
}

/// `needle` occurs somewhere in `hay` (`str::contains`).
pub open spec fn contains(hay: Seq<char>, needle: Seq<char>) -> bool {
    exists|i: int| occurs_at(hay, needle, i)
}

/// Executable form of `contains`.
pub fn contains_str(hay: &str, needle: &str) -> (r: bool)
    ensures
        r == contains(hay@, needle@),
{
    let n = hay.unicode_len();
    let m = needle.unicode_len();
    if m > n {
        assert forall|i: int| !occurs_at(hay@, needle@, i) by {}
        return false;
    }
    let mut i: usize = 0;
    while i <= n - m
        invariant
            n == hay@.len(),
            m == needle@.len(),
            m <= n,
            0 <= i <= n - m + 1,
            forall|k: int| 0 <= k < i ==> !occurs_at(hay@, needle@, k),
        decreases n - m + 1 - i,
    {
        let mut j: usize = 0;
        while j < m && hay.get_char(i + j) == needle.get_char(j)
            invariant
                n == hay@.len(),
                m == needle@.len(),
                i + m <= n,
                0 <= j <= m,
                forall|k: int| 0 <= k < j ==> hay@[i + k] == needle@[k],
            decreases m - j,
        {
            j = j + 1;
        }
        if j == m {
            assert(hay@.subrange(i as int, i + m) =~= needle@);
            assert(occurs_at(hay@, needle@, i as int));
            return true;
        }
        assert(hay@.subrange(i as int, i + m)[j as int] != needle@[j as int]);
        i = i + 1;
    }
    assert forall|k: int| !occurs_at(hay@, needle@, k) by {
        if 0 <= k && k + m <= n {
            assert(k < i);
        }
    }
    false
}

/// `c` with an ASCII upper-case letter turned lower-case.
pub open spec fn ascii_lower(c: char) -> char {
    if 65 <= c as u32 <= 90 {
        ((c as u32) + 32) as char
    } else {
        c
    }
}

/// `str::to_ascii_lowercase`.
pub open spec fn to_ascii_lowercase(s: Seq<char>) -> Seq<char> {
    s.map_values(|c: char| ascii_lower(c))
}

/// Every character of `s` is an ASCII lower-case letter.
pub open spec fn lower_letters(s: Seq<char>) -> bool {
    forall|i: int| 0 <= i < s.len() ==> 97 <= #[trigger] s[i] as u32 <= 122
}

/// Whether `s`, lower-cased, is `target`.
pub fn lowercase_is(s: &str, target: &str) -> (r: bool)
    requires
        lower_letters(target@),
    ensures
        r == (to_ascii_lowercase(s@) == target@),
{
    let n = s.unicode_len();
    if n != target.unicode_len() {
        assert(to_ascii_lowercase(s@).len() != target@.len());
        return false;
    }
    let mut i: usize = 0;
    while i < n
        invariant
            n == s@.len(),
            n == target@.len(),
            lower_letters(target@),
            0 <= i <= n,
            forall|k: int| 0 <= k < i ==> ascii_lower(s@[k]) == target@[k],
        decreases n - i,
    {
        let c = s.get_char(i);
        let t = target.get_char(i);
        let cu = c as u32;
        let tu = t as u32;
        assert(97 <= target@[i as int] as u32 <= 122);
        let same_char = if 65 <= cu && cu <= 90 {
            cu + 32 == tu
        } else {
            cu == tu
        };
        proof {
            if 65 <= cu <= 90 {
                assert(ascii_lower(c) as u32 == cu + 32);
            }
            assert(same_char == (ascii_lower(c) as u32 == t as u32));
        }
        if !same_char {
            assert(to_ascii_lowercase(s@)[i as int] != target@[i as int]);
            return false;
        }
        i = i + 1;
    }
    assert(to_ascii_lowercase(s@) =~= target@);
    true
}

/// The character for a hexadecimal digit, lower-case.
pub open spec fn hex_char(v: nat) -> char {
    if v < 10 {
        digit_char(v)
    } else if v == 10 {
        'a'
    } else if v == 11 {
        'b'
    } else if v == 12 {
        'c'
    } else if v == 13 {
        'd'
    } else if v == 14 {
        'e'
    } else {
        'f'
    }
}

/// Each byte as two lower-case hexadecimal digits (`format!("{b:02x}")`).
pub open spec fn hex(bytes: Seq<u8>) -> Seq<char>
    decreases bytes.len(),
{
    if bytes.len() == 0 {
        Seq::empty()
    } else {
        hex(bytes.drop_last()) + seq![
            hex_char(bytes.last() as nat / 16),
            hex_char(bytes.last() as nat % 16),
        ]
    }
}

fn hex_str(v: u8) -> (r: &'static str)
    requires
        v < 16,
    ensures
        r@ == seq![hex_char(v as nat)],
{
    if v < 10 {
        digit_str(v as u128)
    } else {
        proof {
            reveal_strlit("a");
            reveal_strlit("b");
            reveal_strlit("c");
            reveal_strlit("d");
            reveal_strlit("e");
            reveal_strlit("f");
        }
        let r = if v == 10 {
            "a"
        } else if v == 11 {
            "b"
        } else if v == 12 {
            "c"
        } else if v == 13 {
            "d"
        } else if v == 14 {
            "e"
        } else {
            "f"
        };
        assert(r@ =~= seq![hex_char(v as nat)]);
        r
    }
}

/// The UTF-8 bytes of `s`, each as two lower-case hexadecimal digits.
pub fn hex_string(s: &str) -> (r: String)
    ensures
        r@ == hex(s.spec_bytes()),
{
    let b = s.as_bytes();
    let mut r = String::new();
    let mut i: usize = 0;
    while i < b.len()
        invariant
            b@ == s.spec_bytes(),
            0 <= i <= b@.len(),
            r@ == hex(b@.subrange(0, i as int)),
        decreases b@.len() - i,
    {
        let v = b[i];
        r.append(hex_str(v / 16));
        r.append(hex_str(v % 16));
        assert(b@.subrange(0, i + 1).drop_last() == b@.subrange(0, i as int));
        assert(r@ =~= hex(b@.subrange(0, i + 1)));
        i = i + 1;
    }
    assert(b@.subrange(0, b@.len() as int) == b@);
    r
}

/// The pieces of `list` with `sep` between each two (`join`).
pub open spec fn join(list: Seq<Seq<char>>, sep: Seq<char>) -> Seq<char>
    decreases list.len(),
{
    if list.len() == 0 {
        Seq::empty()
    } else if list.len() == 1 {
        list[0]
    } else {
        join(list.drop_last(), sep) + sep + list.last()
    }
}

/// Executable form of `join`.
pub fn join_strings(list: &Vec<String>, sep: &str) -> (r: String)
    ensures
        r@ == join(list.deep_view(), sep@),
{
    let mut r = String::new();
    let mut i: usize = 0;
    while i < list.len()
        invariant
            0 <= i <= list@.len(),
            r@ == join(list.deep_view().subrange(0, i as int), sep@),
        decreases list@.len() - i,
    {
        let ghost before = list.deep_view().subrange(0, i as int);
        let ghost after = list.deep_view().subrange(0, i + 1);
        assert(after.drop_last() == before);
        if i > 0 {
            r.append(sep);
        }
        r.append(list[i].as_str());
        assert(after.last() == list[i as int]@);
        assert(r@ =~= join(after, sep@));
        i = i + 1;
    }
    assert(list.deep_view().subrange(0, list@.len() as int) == list.deep_view());
    r
}


/// Every character of a decimal form is a digit: no white space, no colon.
pub proof fn lemma_decimal_shape(n: nat)
    ensures
        decimal(n).len() > 0,
        forall|i: int|
            0 <= i < decimal(n).len() ==> is_digit(#[trigger] decimal(n)[i]) && !is_space(
                decimal(n)[i],
            ) && decimal(n)[i] != ':',
{
    lemma_decimal_digits(n);
}

/// A string that neither starts nor ends with white space trims to itself.
pub proof fn lemma_trim_unspaced(s: Seq<char>)
    requires
        s.len() > 0 ==> !is_space(s[0]) && !is_space(s.last()),
    ensures
        trim(s) == s,
{
}

/// A string that neither starts nor ends with white space, padded with white
/// space on either side, trims back to itself.
pub proof fn lemma_trim_padded(before: Seq<char>, s: Seq<char>, after: Seq<char>)
    requires
        s.len() > 0,
        !is_space(s[0]),
        !is_space(s.last()),
        forall|k: int| 0 <= k < before.len() ==> is_space(#[trigger] before[k]),
        forall|k: int| 0 <= k < after.len() ==> is_space(#[trigger] after[k]),
    ensures
        trim(before + s + after) == s,
{
    let whole = before + s + after;
    let rest = s + after;
    assert forall|k: int| 0 <= k < before.len() implies is_space(#[trigger] whole[k]) by {
        assert(whole[k] == before[k]);
    }
    lemma_trim_start_skip(whole, before.len() as int);
    assert(whole.subrange(before.len() as int, whole.len() as int) =~= rest);
    assert(rest[0] == s[0]);
    assert(trim_start(rest) == rest);
    assert forall|k: int| s.len() <= k < rest.len() implies is_space(#[trigger] rest[k]) by {
        assert(rest[k] == after[k - s.len()]);
    }
    lemma_trim_end_cut(rest, s.len() as int);
    assert(rest.subrange(0, s.len() as int) =~= s);
    assert(s.last() == s[s.len() - 1]);
    assert(trim_end(s) == s);
}

/// The first occurrence that `find_char` reports is the one that is first.
pub proof fn lemma_find_char_is(s: Seq<char>, c: char, i: int)
    requires
        first_char_at(s, c, i),
    ensures
        find_char(s, c) == Some(i),
{
    let j = choose|j: int| first_char_at(s, c, j);
    if j < i {
        assert(s[j] != c);
    }
    if j > i {
        assert(s[i] != c);
    }
}

} // verus!
