//! Decimal text and character-level helpers shared by every message the library composes.
use vstd::prelude::*;
use vstd::utf8::{encode_scalar, encode_utf8};

verus! {

/// The character for a decimal digit.
pub open spec fn digit_char(d: int) -> char {
    if d == 0 { '0' }
    else if d == 1 { '1' }
    else if d == 2 { '2' }
    else if d == 3 { '3' }
    else if d == 4 { '4' }
    else if d == 5 { '5' }
    else if d == 6 { '6' }
    else if d == 7 { '7' }
    else if d == 8 { '8' }
    else { '9' }
}

/// Decimal digits of a natural number, most significant first, without leading zeros.
pub open spec fn nat_digits(n: nat) -> Seq<char>
    decreases n,
{
    if n < 10 {
        seq![digit_char(n as int)]
    } else {
        nat_digits(n / 10).push(digit_char((n % 10) as int))
    }
}

/// Decimal text of an integer, as `Display` writes it: a `-` before negative values.
pub open spec fn int_text(n: int) -> Seq<char> {
    if n < 0 {
        seq!['-'] + nat_digits((-n) as nat)
    } else {
        nat_digits(n as nat)
    }
}

/// The characters of a string slice, in order.
pub fn chars_of(s: &str) -> (v: Vec<char>)
    ensures
        v@ == s@,
{
    let mut v: Vec<char> = Vec::new();
    for c in it: s.chars()
        invariant
            v@ == it.seq().take(it.index() as int),
    {
        v.push(c);
    }
    v
}


/// Appends the character of one decimal digit.
fn push_digit(out: &mut String, d: u64)
    requires
        d < 10,
    ensures
        final(out)@ == old(out)@.push(digit_char(d as int)),
{
    let t: &str = if d == 0 { "0" } else if d == 1 { "1" } else if d == 2 { "2" } else if d == 3 {
        "3"
    } else if d == 4 { "4" } else if d == 5 { "5" } else if d == 6 { "6" } else if d == 7 {
        "7"
    } else if d == 8 { "8" } else { "9" };
    proof {
        reveal_strlit("0");
        reveal_strlit("1");
        reveal_strlit("2");
        reveal_strlit("3");
        reveal_strlit("4");
        reveal_strlit("5");
        reveal_strlit("6");
        reveal_strlit("7");
        reveal_strlit("8");
        reveal_strlit("9");
    }
    assert(t@ =~= seq![digit_char(d as int)]);
    out.append(t);
}

/// Appends the decimal digits of `n`.
pub fn push_nat(out: &mut String, n: u64)
    ensures
        final(out)@ == old(out)@ + nat_digits(n as nat),
    decreases n,
{
    if n >= 10 {
        push_nat(out, n / 10);
        push_digit(out, n % 10);
        assert(final(out)@ =~= old(out)@ + nat_digits(n as nat));
    } else {
        push_digit(out, n);
        assert(final(out)@ =~= old(out)@ + nat_digits(n as nat));
    }
}

/// Appends the decimal text of `n`, as `Display` writes an `i64`.
pub fn push_i64(out: &mut String, n: i64)
    ensures
        final(out)@ == old(out)@ + int_text(n as int),
{
    if n < 0 {
        out.append("-");
        proof { reveal_strlit("-"); }
        let m: u64 = if n == i64::MIN { 9223372036854775808u64 } else { (-n) as u64 };
        push_nat(out, m);
        assert(final(out)@ =~= old(out)@ + int_text(n as int));
    } else {
        push_nat(out, n as u64);
    }
}

/// The decimal text of `n`.
pub fn i64_text(n: i64) -> (s: String)
    ensures
        s@ == int_text(n as int),
{
    let mut s = String::new();
    push_i64(&mut s, n);
    assert(s@ =~= int_text(n as int));
    s
}


/// Whether `c` is one of the ASCII digits `0`..`9`.
pub open spec fn is_digit(c: char) -> bool {
    48 <= (c as u32) && (c as u32) <= 57
}

/// The value of a decimal digit character.
pub open spec fn digit_value(c: char) -> int {
    (c as u32) - 48
}

/// Whether every character of `s` is a decimal digit.
pub open spec fn all_digits(s: Seq<char>) -> bool {
    forall|i: int| 0 <= i < s.len() ==> #[trigger] is_digit(s[i])
}

/// The value of a run of decimal digits, read left to right.
pub open spec fn digits_value(s: Seq<char>) -> int
    decreases s.len(),
{
    if s.len() == 0 {
        0
    } else {
        digits_value(s.drop_last()) * 10 + digit_value(s.last())
    }
}

/// The integer that Rust's `FromStr` for integers reads from `s`, before the range check:
/// an optional `+` or `-`, then one or more decimal digits and nothing else.
pub open spec fn signed_decimal(s: Seq<char>) -> Option<int> {
    if s.len() > 0 && (s[0] == '+' || s[0] == '-') {
        let body = s.drop_first();
        if body.len() > 0 && all_digits(body) {
            Some(if s[0] == '-' { -digits_value(body) } else { digits_value(body) })
        } else {
            None
        }
    } else if s.len() > 0 && all_digits(s) {
        Some(digits_value(s))
    } else {
        None
    }
}

/// What `str::parse::<i32>` gives back: the value when the text is a decimal integer in range.
pub open spec fn parsed_i32(s: Seq<char>) -> Option<i32> {
    match signed_decimal(s) {
        Some(v) => if i32::MIN <= v <= i32::MAX { Some(v as i32) } else { None },
        None => None,
    }
}

/// What `str::parse::<u64>` gives back: an unsigned type accepts a `+` sign but no `-`.
pub open spec fn parsed_u64(s: Seq<char>) -> Option<u64> {
    if s.len() > 0 && s[0] == '-' {
        None
    } else {
        match signed_decimal(s) {
            Some(v) => if 0 <= v <= u64::MAX { Some(v as u64) } else { None },
            None => None,
        }
    }
}

proof fn lemma_digits_value_nonneg(s: Seq<char>)
    requires
        all_digits(s),
    ensures
        digits_value(s) >= 0,
    decreases s.len(),
{
    if s.len() > 0 {
        assert(is_digit(s[s.len() - 1]));
        assert(all_digits(s.drop_last())) by {
            assert forall|i: int| 0 <= i < s.drop_last().len() implies #[trigger] is_digit(
                s.drop_last()[i],
            ) by {
                assert(is_digit(s[i]));
            }
        }
        lemma_digits_value_nonneg(s.drop_last());
    }
}

proof fn lemma_digits_value_prefix(s: Seq<char>, k: int)
    requires
        all_digits(s),
        0 <= k <= s.len(),
    ensures
        digits_value(s.take(k)) <= digits_value(s),
    decreases s.len(),
{
    if k < s.len() {
        let d = s.drop_last();
        assert(all_digits(d)) by {
            assert forall|i: int| 0 <= i < d.len() implies #[trigger] is_digit(d[i]) by {
                assert(is_digit(s[i]));
            }
        }
        assert(is_digit(s[s.len() - 1]));
        lemma_digits_value_prefix(d, k);
        lemma_digits_value_nonneg(d);
        assert(d.take(k) =~= s.take(k));
    } else {
        assert(s.take(k) =~= s);
    }
}

proof fn lemma_digits_value_step(s: Seq<char>, i: int)
    requires
        0 <= i < s.len(),
    ensures
        digits_value(s.take(i + 1)) == digits_value(s.take(i)) * 10 + digit_value(s[i]),
{
    assert(s.take(i + 1).drop_last() =~= s.take(i));
}

/// Reads the digits `cs[start..end]` as a number no greater than `bound`.
fn read_digits(cs: &Vec<char>, start: usize, end: usize, bound: u128) -> (r: Option<u128>)
    requires
        start <= end <= cs.len(),
        bound <= u64::MAX as u128 + 1,
    ensures
        r matches Some(v) ==> {
            &&& start < end
            &&& all_digits(cs@.subrange(start as int, end as int))
            &&& v == digits_value(cs@.subrange(start as int, end as int))
            &&& v <= bound
        },
        r is None ==> !{
            &&& start < end
            &&& all_digits(cs@.subrange(start as int, end as int))
            &&& digits_value(cs@.subrange(start as int, end as int)) <= bound
        },
{
    let ghost body = cs@.subrange(start as int, end as int);
    if start >= end {
        return None;
    }
    let mut acc: u128 = 0;
    let mut i: usize = start;
    while i < end
        invariant
            start <= i <= end <= cs.len(),
            body == cs@.subrange(start as int, end as int),
            all_digits(body.take(i - start)),
            acc == digits_value(body.take(i - start)),
            acc <= bound,
            bound <= u64::MAX as u128 + 1,
        decreases end - i,
    {
        let c = cs[i];
        let code = c as u32;
        if code < 48 || code > 57 {
            proof {
                assert(body[i - start] == c);
                assert(!is_digit(body[i - start]));
            }
            return None;
        }
        proof {
            lemma_digits_value_step(body, i - start);
            assert(body[i - start] == c);
        }
        let next: u128 = acc * 10 + (code - 48) as u128;
        proof {
            assert(all_digits(body.take(i + 1 - start))) by {
                assert forall|j: int| 0 <= j < body.take(i + 1 - start).len() implies #[trigger] is_digit(
                    body.take(i + 1 - start)[j],
                ) by {
                    if j < i - start {
                        assert(body.take(i + 1 - start)[j] == body.take(i - start)[j]);
                    }
                }
            }
        }
        if next > bound {
            proof {
                if all_digits(body) {
                    lemma_digits_value_prefix(body, i + 1 - start);
                }
            }
            return None;
        }
        acc = next;
        i = i + 1;
    }
    proof {
        assert(body.take(i - start) =~= body);
    }
    Some(acc)
}

/// `str::parse::<i32>` on the characters `cs[lo..hi]`: an optional sign, then decimal digits.
pub fn parse_i32_in(cs: &Vec<char>, lo: usize, hi: usize) -> (r: Option<i32>)
    requires
        lo <= hi <= cs.len(),
    ensures
        r == parsed_i32(cs@.subrange(lo as int, hi as int)),
{
    let ghost t = cs@.subrange(lo as int, hi as int);
    if lo < hi && (cs[lo] == '+' || cs[lo] == '-') {
        let negative = cs[lo] == '-';
        let bound: u128 = if negative { 2147483648 } else { 2147483647 };
        proof {
            assert(cs@.subrange(lo + 1, hi as int) =~= t.drop_first());
        }
        match read_digits(cs, lo + 1, hi, bound) {
            Some(v) => {
                if negative {
                    Some((0i128 - v as i128) as i32)
                } else {
                    Some(v as i32)
                }
            },
            None => {
                proof {
                    let body = t.drop_first();
                    if body.len() > 0 && all_digits(body) {
                        lemma_digits_value_nonneg(body);
                    }
                }
                None
            },
        }
    } else {
        match read_digits(cs, lo, hi, 2147483647) {
            Some(v) => Some(v as i32),
            None => {
                proof {
                    if t.len() > 0 && all_digits(t) {
                        lemma_digits_value_nonneg(t);
                    }
                }
                None
            },
        }
    }
}

/// `str::parse::<u64>` on the characters `cs[lo..hi]`: an optional `+`, then decimal digits.
pub fn parse_u64_in(cs: &Vec<char>, lo: usize, hi: usize) -> (r: Option<u64>)
    requires
        lo <= hi <= cs.len(),
    ensures
        r == parsed_u64(cs@.subrange(lo as int, hi as int)),
{
    let ghost t = cs@.subrange(lo as int, hi as int);
    if lo < hi && cs[lo] == '-' {
        return None;
    }
    let start: usize = if lo < hi && cs[lo] == '+' { lo + 1 } else { lo };
    proof {
        if start == lo + 1 {
            assert(cs@.subrange(start as int, hi as int) =~= t.drop_first());
        }
    }
    match read_digits(cs, start, hi, u64::MAX as u128) {
        Some(v) => Some(v as u64),
        None => {
            proof {
                let body = cs@.subrange(start as int, hi as int);
                if body.len() > 0 && all_digits(body) {
                    lemma_digits_value_nonneg(body);
                }
            }
            None
        },
    }
}

/// `str::parse::<i32>`, written out.
pub fn parse_i32(s: &str) -> (r: Option<i32>)
    ensures
        r == parsed_i32(s@),
{
    let cs = chars_of(s);
    proof {
        assert(cs@.subrange(0, cs@.len() as int) =~= s@);
    }
    parse_i32_in(&cs, 0, cs.len())
}

/// `str::parse::<u64>`, written out.
pub fn parse_u64(s: &str) -> (r: Option<u64>)
    ensures
        r == parsed_u64(s@),
{
    let cs = chars_of(s);
    proof {
        assert(cs@.subrange(0, cs@.len() as int) =~= s@);
    }
    parse_u64_in(&cs, 0, cs.len())
}

proof fn lemma_digit_char_value(d: int)
    requires
        0 <= d < 10,
    ensures
        is_digit(digit_char(d)),
        digit_value(digit_char(d)) == d,
{
}

/// The digits of a number are all decimal digits and read back as the number.
pub proof fn lemma_nat_digits_read_back(n: nat)
    ensures
        nat_digits(n).len() > 0,
        all_digits(nat_digits(n)),
        digits_value(nat_digits(n)) == n,
    decreases n,
{
    lemma_digit_char_value((n % 10) as int);
    if n >= 10 {
        lemma_nat_digits_read_back(n / 10);
        let d = nat_digits(n);
        assert(d.drop_last() =~= nat_digits(n / 10));
        assert(d.last() == digit_char((n % 10) as int));
        assert(digits_value(d) == digits_value(nat_digits(n / 10)) * 10 + (n % 10));
        assert((n / 10) * 10 + n % 10 == n);
        assert forall|i: int| 0 <= i < d.len() implies #[trigger] is_digit(d[i]) by {
            if i < d.len() - 1 {
                assert(d[i] == nat_digits(n / 10)[i]);
            }
        }
    } else {
        let d = nat_digits(n);
        assert(d.drop_last() =~= Seq::<char>::empty());
        assert(n % 10 == n);
        assert(d.last() == digit_char(n as int));
        assert(digits_value(d.drop_last()) == 0);
    }
}

/// Decimal text read back by `str::parse::<i32>` gives the number that was written.
pub proof fn lemma_i32_text_parses_back(n: i32)
    ensures
        parsed_i32(int_text(n as int)) == Some(n),
{
    if n < 0 {
        let m = (-n) as nat;
        lemma_nat_digits_read_back(m);
        let t = int_text(n as int);
        assert(t.drop_first() =~= nat_digits(m));
    } else {
        lemma_nat_digits_read_back(n as nat);
        let d = nat_digits(n as nat);
        assert(is_digit(d[0]));
    }
}

/// Decimal text read back by `str::parse::<u64>` gives the number that was written.
pub proof fn lemma_u64_text_parses_back(n: u64)
    ensures
        parsed_u64(int_text(n as int)) == Some(n),
{
    lemma_nat_digits_read_back(n as nat);
    let d = nat_digits(n as nat);
    assert(is_digit(d[0]));
}

/// Whether `s` begins with `p`.
pub open spec fn has_prefix(s: Seq<char>, p: Seq<char>) -> bool {
    p.len() <= s.len() && s.take(p.len() as int) == p
}

/// `i` is the position of the first `_` in `t`.
pub open spec fn is_first_separator(t: Seq<char>, i: int) -> bool {
    &&& 0 <= i < t.len()
    &&& t[i] == '_'
    &&& forall|j: int| 0 <= j < i ==> t[j] != '_'
}

/// Where the first `_`-separated field of `t` ends: at the first `_`, or at the end of `t`.
pub open spec fn field_end(t: Seq<char>) -> int {
    if exists|i: int| is_first_separator(t, i) {
        choose|i: int| is_first_separator(t, i)
    } else {
        t.len() as int
    }
}

/// The first field of `t` when it is split at `_`, as `str::split('_')` yields it first.
pub open spec fn first_field(t: Seq<char>) -> Seq<char> {
    t.take(field_end(t))
}

/// Whether the characters of `cs` begin with those of `prefix`.
pub fn starts_with(cs: &Vec<char>, prefix: &str) -> (r: bool)
    ensures
        r == has_prefix(cs@, prefix@),
{
    let p = chars_of(prefix);
    if p.len() > cs.len() {
        return false;
    }
    let mut i: usize = 0;
    while i < p.len()
        invariant
            p.len() <= cs.len(),
            i <= p.len(),
            p@ == prefix@,
            forall|j: int| 0 <= j < i ==> cs@[j] == p@[j],
        decreases p.len() - i,
    {
        if cs[i] != p[i] {
            assert(cs@.take(p.len() as int)[i as int] != p@[i as int]);
            return false;
        }
        i = i + 1;
    }
    assert(cs@.take(p.len() as int) =~= p@);
    true
}

/// Whether two texts are equal, character for character.
pub fn same_text(a: &str, b: &str) -> (r: bool)
    ensures
        r == (a@ == b@),
{
    let x = chars_of(a);
    let y = chars_of(b);
    if x.len() != y.len() {
        return false;
    }
    let mut i: usize = 0;
    while i < x.len()
        invariant
            x.len() == y.len(),
            i <= x.len(),
            x@ == a@,
            y@ == b@,
            forall|j: int| 0 <= j < i ==> x@[j] == y@[j],
        decreases x.len() - i,
    {
        if x[i] != y[i] {
            return false;
        }
        i = i + 1;
    }
    assert(x@ =~= y@);
    true
}

/// The position in `cs` where the `_`-separated field that starts at `start` ends.
pub fn find_field_end(cs: &Vec<char>, start: usize) -> (k: usize)
    requires
        start <= cs.len(),
    ensures
        start <= k <= cs.len(),
        k - start == field_end(cs@.subrange(start as int, cs.len() as int)),
{
    let ghost t = cs@.subrange(start as int, cs.len() as int);
    let mut k: usize = start;
    while k < cs.len() && cs[k] != '_'
        invariant
            start <= k <= cs.len(),
            t == cs@.subrange(start as int, cs.len() as int),
            forall|j: int| 0 <= j < k - start ==> t[j] != '_',
        decreases cs.len() - k,
    {
        assert(t[k - start] == cs@[k as int]);
        k = k + 1;
    }
    proof {
        if k < cs.len() {
            assert(t[k - start] == cs@[k as int]);
            assert(is_first_separator(t, k - start));
            let c = choose|i: int| is_first_separator(t, i);
            assert(c == k - start) by {
                if c < k - start {
                    assert(t[c] != '_');
                } else if c > k - start {
                    assert(t[k - start] != '_');
                }
            }
        } else {
            assert(!exists|i: int| is_first_separator(t, i));
        }
    }
    k
}

/// The texts of a list of strings.
pub open spec fn texts(v: Seq<String>) -> Seq<Seq<char>> {
    v.map_values(|s: String| s@)
}

/// Texts joined with `sep` between neighbours, as `[String]::join` joins them.
pub open spec fn joined(lines: Seq<Seq<char>>, sep: Seq<char>) -> Seq<char>
    decreases lines.len(),
{
    if lines.len() == 0 {
        Seq::empty()
    } else if lines.len() == 1 {
        lines[0]
    } else {
        joined(lines.drop_last(), sep) + sep + lines.last()
    }
}

/// The lines joined by newlines.
pub fn join_lines(lines: &Vec<String>) -> (r: String)
    ensures
        r@ == joined(texts(lines@), "\n"@),
{
    let mut r = String::new();
    let ghost all = texts(lines@);
    let mut i: usize = 0;
    while i < lines.len()
        invariant
            i <= lines.len(),
            all == texts(lines@),
            r@ == joined(all.take(i as int), "\n"@),
        decreases lines.len() - i,
    {
        if i > 0 {
            r.append("\n");
        }
        r.append(lines[i].as_str());
        proof {
            assert(all.take(i + 1).drop_last() =~= all.take(i as int));
            assert(all.take(i + 1).last() == lines@[i as int]@);
            if i == 0 {
                assert(all.take(0) =~= Seq::<Seq<char>>::empty());
            }
        }
        i = i + 1;
    }
    assert(all.take(lines.len() as int) =~= all);
    r
}

/// The number of bytes of the UTF-8 encoding of one character.
fn utf8_width(c: char) -> (w: usize)
    ensures
        w == encode_scalar(c as u32).len(),
{
    proof {
        vstd::utf8::char_is_scalar(c);
    }
    let code = c as u32;
    if code <= 0x7f {
        1
    } else if code <= 0x7ff {
        2
    } else if code <= 0xffff {
        3
    } else {
        4
    }
}

/// Whether the UTF-8 encoding of `s` is longer than `limit` bytes.
pub fn utf8_len_exceeds(s: &str, limit: usize) -> (b: bool)
    requires
        limit <= usize::MAX - 4,
    ensures
        b == (encode_utf8(s@).len() > limit),
{
    let cs = chars_of(s);
    let ghost all = encode_utf8(cs@);
    let mut count: usize = 0;
    let mut i: usize = 0;
    proof {
        assert(cs@.skip(0) =~= cs@);
    }
    while i < cs.len()
        invariant
            i <= cs.len(),
            count <= limit,
            limit <= usize::MAX - 4,
            all == encode_utf8(cs@),
            cs@ == s@,
            count + encode_utf8(cs@.skip(i as int)).len() == all.len(),
        decreases cs.len() - i,
    {
        let w = utf8_width(cs[i]);
        proof {
            let rest = cs@.skip(i as int);
            assert(rest[0] == cs@[i as int]);
            assert(rest.drop_first() =~= cs@.skip(i + 1));
            assert(encode_utf8(rest) == encode_scalar(rest[0] as u32) + encode_utf8(rest.drop_first()));
        }
        count = count + w;
        i = i + 1;
        assert(count + encode_utf8(cs@.skip(i as int)).len() == all.len());
        assert(all == encode_utf8(s@));
        if count > limit {
            return true;
        }
    }
    proof {
        assert(cs@.skip(i as int).len() == 0);
    }
    false
}

} // verus!
