use vstd::prelude::*;

verus! {

/// Relies on std's String::push: appends exactly the given character.
#[verifier::external_body]
pub(crate) fn push_char(s: &mut String, c: char)
    ensures
        final(s)@ == old(s)@ + seq![c],
{
    s.push(c);
}

/// The whitespace characters stripped from the edges of gateway output.
pub open spec fn is_ws_char(c: char) -> bool {
    c == ' ' || c == '\t' || c == '\n' || c == '\r' || c == '\u{c}'
}

fn is_ws(c: char) -> (r: bool)
    ensures
        r == is_ws_char(c),
{
    c == ' ' || c == '\t' || c == '\n' || c == '\r' || c == '\u{c}'
}

/// The text with its leading whitespace removed.
pub open spec fn trim_front(s: Seq<char>) -> Seq<char>
    decreases s.len(),
{
    if s.len() > 0 && is_ws_char(s[0]) {
        trim_front(s.skip(1))
    } else {
        s
    }
}

/// The text with its trailing whitespace removed.
pub open spec fn trim_back(s: Seq<char>) -> Seq<char>
    decreases s.len(),
{
    if s.len() > 0 && is_ws_char(s[s.len() - 1]) {
        trim_back(s.take(s.len() - 1))
    } else {
        s
    }
}

/// The text with whitespace removed from both edges.
pub open spec fn trimmed(s: Seq<char>) -> Seq<char> {
    trim_back(trim_front(s))
}

proof fn lemma_trim_front_at(s: Seq<char>, i: int)
    requires
        0 <= i <= s.len(),
        forall|j: int| 0 <= j < i ==> is_ws_char(s[j]),
        i < s.len() ==> !is_ws_char(s[i]),
    ensures
        trim_front(s) == s.skip(i),
    decreases i,
{
    if i == 0 {
        assert(s.skip(0) =~= s);
    } else {
        lemma_trim_front_at(s.skip(1), i - 1);
        assert(s.skip(1).skip(i - 1) =~= s.skip(i));
    }
}

proof fn lemma_trim_back_at(s: Seq<char>, i: int)
    requires
        0 <= i <= s.len(),
        forall|j: int| i <= j < s.len() ==> is_ws_char(s[j]),
        i > 0 ==> !is_ws_char(s[i - 1]),
    ensures
        trim_back(s) == s.take(i),
    decreases s.len() - i,
{
    if i == s.len() {
        assert(s.take(i) =~= s);
    } else {
        assert(is_ws_char(s[s.len() - 1]));
        lemma_trim_back_at(s.take(s.len() - 1), i);
        assert(s.take(s.len() - 1).take(i) =~= s.take(i));
    }
}

fn first_non_ws(s: &str, n: usize) -> (a: usize)
    requires
        n == s@.len(),
    ensures
        a <= n,
        forall|j: int| 0 <= j < a ==> is_ws_char(s@[j]),
        a < n ==> !is_ws_char(s@[a as int]),
{
    let mut a: usize = 0;
    while a < n
        invariant
            a <= n,
            n == s@.len(),
            forall|j: int| 0 <= j < a ==> is_ws_char(s@[j]),
        decreases n - a,
    {
        if !is_ws(s.get_char(a)) {
            return a;
        }
        a += 1;
    }
    a
}

fn last_non_ws_end(s: &str, a: usize, n: usize) -> (b: usize)
    requires
        a <= n,
        n == s@.len(),
    ensures
        a <= b <= n,
        forall|j: int| b <= j < n ==> is_ws_char(s@[j]),
        b > a ==> !is_ws_char(s@[b - 1]),
{
    let mut b: usize = n;
    while b > a
        invariant
            a <= b <= n,
            n == s@.len(),
            forall|j: int| b <= j < n ==> is_ws_char(s@[j]),
        decreases b,
    {
        if !is_ws(s.get_char(b - 1)) {
            return b;
        }
        b -= 1;
    }
    b
}

/// A copy of the text with leading and trailing whitespace removed; the kept
/// middle is untouched.
pub fn trim_str(s: &str) -> (r: String)
    ensures
        r@ == trimmed(s@),
{
    let n: usize = s.unicode_len();
    let a = first_non_ws(s, n);
    let b = last_non_ws_end(s, a, n);
    proof {
        lemma_trim_front_at(s@, a as int);
        lemma_trim_back_at(s@.skip(a as int), b - a);
        assert(s@.skip(a as int).take(b - a) =~= s@.subrange(a as int, b as int));
    }
    let sub = s.substring_char(a, b);
    sub.to_owned()
}

/// Whether the text holds nothing but whitespace.
pub fn is_blank(s: &str) -> (r: bool)
    ensures
        r == (trimmed(s@).len() == 0),
{
    let t = trim_str(s);
    t.as_str().is_empty()
}

/// The affirmative health marker stands at position `i`: the letters "ok" in
/// either case.
pub open spec fn marker_at(s: Seq<char>, i: int) -> bool {
    0 <= i && i + 2 <= s.len() && (s[i] == 'o' || s[i] == 'O') && (s[i + 1] == 'k' || s[i + 1]
        == 'K')
}

/// The text contains the affirmative health marker.
pub open spec fn affirms(s: Seq<char>) -> bool {
    exists|i: int| marker_at(s, i)
}

/// Case-insensitive search for the affirmative marker "ok".
pub fn contains_affirmative(s: &str) -> (r: bool)
    ensures
        r == affirms(s@),
{
    let n = s.unicode_len();
    if n < 2 {
        return false;
    }
    let mut i: usize = 0;
    while i + 1 < n
        invariant
            n == s@.len(),
            i < n,
            forall|j: int| 0 <= j < i ==> !marker_at(s@, j),
        decreases n - i,
    {
        let c = s.get_char(i);
        let d = s.get_char(i + 1);
        if (c == 'o' || c == 'O') && (d == 'k' || d == 'K') {
            proof {
                assert(marker_at(s@, i as int));
            }
            return true;
        }
        i += 1;
    }
    proof {
        assert forall|j: int| !marker_at(s@, j) by {
            if 0 <= j && j < i as int {
                assert(!marker_at(s@, j));
            }
        }
    }
    false
}

/// The lower-case hexadecimal digit for a value below sixteen.
pub open spec fn hex_digit(d: nat) -> char {
    if d == 0 {
        '0'
    } else if d == 1 {
        '1'
    } else if d == 2 {
        '2'
    } else if d == 3 {
        '3'
    } else if d == 4 {
        '4'
    } else if d == 5 {
        '5'
    } else if d == 6 {
        '6'
    } else if d == 7 {
        '7'
    } else if d == 8 {
        '8'
    } else if d == 9 {
        '9'
    } else if d == 10 {
        'a'
    } else if d == 11 {
        'b'
    } else if d == 12 {
        'c'
    } else if d == 13 {
        'd'
    } else if d == 14 {
        'e'
    } else {
        'f'
    }
}

fn hex_digit_exec(d: u128) -> (c: char)
    requires
        d < 16,
    ensures
        c == hex_digit(d as nat),
{
    if d == 0 {
        '0'
    } else if d == 1 {
        '1'
    } else if d == 2 {
        '2'
    } else if d == 3 {
        '3'
    } else if d == 4 {
        '4'
    } else if d == 5 {
        '5'
    } else if d == 6 {
        '6'
    } else if d == 7 {
        '7'
    } else if d == 8 {
        '8'
    } else if d == 9 {
        '9'
    } else if d == 10 {
        'a'
    } else if d == 11 {
        'b'
    } else if d == 12 {
        'c'
    } else if d == 13 {
        'd'
    } else if d == 14 {
        'e'
    } else {
        'f'
    }
}

pub(crate) fn hex_digit_of_u32(d: u32) -> (c: char)
    requires
        d < 16,
    ensures
        c == hex_digit(d as nat),
{
    hex_digit_exec(d as u128)
}

/// The lower-case hexadecimal text of a number, without leading zeros.
pub open spec fn hex_text(n: nat) -> Seq<char>
    decreases n,
{
    if n < 16 {
        seq![hex_digit(n)]
    } else {
        hex_text(n / 16) + seq![hex_digit(n % 16)]
    }
}

/// Formats a number the way the `{:x}` formatter would.
pub fn hex_u128(n: u128) -> (r: String)
    ensures
        r@ == hex_text(n as nat),
{
    let mut digits: Vec<char> = Vec::new();
    let mut m: u128 = n;
    proof {
        assert(hex_text(n as nat) =~= hex_text(n as nat) + digits@);
    }
    while m >= 16
        invariant
            hex_text(n as nat) == hex_text(m as nat) + digits@,
        decreases m,
    {
        let ghost pre = digits@;
        let d = hex_digit_exec(m % 16);
        digits.insert(0, d);
        proof {
            assert(hex_text(m as nat) == hex_text(m as nat / 16) + seq![
                hex_digit(m as nat % 16),
            ]);
            assert(hex_text((m / 16) as nat) + digits@ =~= hex_text(m as nat) + pre);
        }
        m = m / 16;
    }
    let ghost pre = digits@;
    let d = hex_digit_exec(m);
    digits.insert(0, d);
    proof {
        assert(hex_text(m as nat) + pre =~= digits@);
        assert(hex_text(n as nat) =~= digits@);
    }
    chars_to_string(&digits)
}

/// The decimal digit character for a value below ten.
pub open spec fn dec_digit(d: nat) -> char {
    if d == 0 {
        '0'
    } else if d == 1 {
        '1'
    } else if d == 2 {
        '2'
    } else if d == 3 {
        '3'
    } else if d == 4 {
        '4'
    } else if d == 5 {
        '5'
    } else if d == 6 {
        '6'
    } else if d == 7 {
        '7'
    } else if d == 8 {
        '8'
    } else {
        '9'
    }
}

fn dec_digit_exec(d: u128) -> (c: char)
    requires
        d < 10,
    ensures
        c == dec_digit(d as nat),
{
    if d == 0 {
        '0'
    } else if d == 1 {
        '1'
    } else if d == 2 {
        '2'
    } else if d == 3 {
        '3'
    } else if d == 4 {
        '4'
    } else if d == 5 {
        '5'
    } else if d == 6 {
        '6'
    } else if d == 7 {
        '7'
    } else if d == 8 {
        '8'
    } else {
        '9'
    }
}

/// The decimal text of a number, without leading zeros.
pub open spec fn dec_text(n: nat) -> Seq<char>
    decreases n,
{
    if n < 10 {
        seq![dec_digit(n)]
    } else {
        dec_text(n / 10) + seq![dec_digit(n % 10)]
    }
}

/// Formats a number the way the `{}` formatter would.
pub fn dec_u128(n: u128) -> (r: String)
    ensures
        r@ == dec_text(n as nat),
{
    let mut digits: Vec<char> = Vec::new();
    let mut m: u128 = n;
    proof {
        assert(dec_text(n as nat) =~= dec_text(n as nat) + digits@);
    }
    while m >= 10
        invariant
            dec_text(n as nat) == dec_text(m as nat) + digits@,
        decreases m,
    {
        let ghost pre = digits@;
        let d = dec_digit_exec(m % 10);
        digits.insert(0, d);
        proof {
            assert(dec_text(m as nat) == dec_text(m as nat / 10) + seq![
                dec_digit(m as nat % 10),
            ]);
            assert(dec_text((m / 10) as nat) + digits@ =~= dec_text(m as nat) + pre);
        }
        m = m / 10;
    }
    let ghost pre = digits@;
    let d = dec_digit_exec(m);
    digits.insert(0, d);
    proof {
        assert(dec_text(m as nat) + pre =~= digits@);
        assert(dec_text(n as nat) =~= digits@);
    }
    chars_to_string(&digits)
}

fn chars_to_string(digits: &Vec<char>) -> (r: String)
    ensures
        r@ == digits@,
{
    let mut out = String::new();
    proof {
        assert(out@ =~= digits@.take(0));
    }
    let mut i: usize = 0;
    while i < digits.len()
        invariant
            i <= digits@.len(),
            out@ == digits@.take(i as int),
        decreases digits@.len() - i,
    {
        push_char(&mut out, digits[i]);
        proof {
            assert(digits@.take(i + 1) =~= digits@.take(i as int) + seq![digits@[i as int]]);
        }
        i += 1;
    }
    proof {
        assert(digits@.take(digits@.len() as int) =~= digits@);
    }
    out
}

} // verus!
