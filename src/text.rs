//! Character-level helpers shared by the text protocols: decimal and
//! hexadecimal digits, and conversion between `str` and character vectors.
use vstd::prelude::*;

verus! {

/// The character of a decimal digit.
pub open spec fn dec_char(d: nat) -> char {
    if d == 0 {
        '0'
    } else if d == 1 {
        '1'
    } else if d == 2 {
        '2'
    } else if d == 3 {
        '3'
    } else if d == 4 {
        '4'
    } else if d == 5 {
        '5'
    } else if d == 6 {
        '6'
    } else if d == 7 {
        '7'
    } else if d == 8 {
        '8'
    } else {
        '9'
    }
}

/// The shortest decimal rendering of `n`, without sign or leading zeros.
pub open spec fn dec_text(n: nat) -> Seq<char>
    decreases n,
{
    if n < 10 {
        seq![dec_char(n)]
    } else {
        dec_text(n / 10).push(dec_char(n % 10))
    }
}

/// The value of a decimal digit character, if it is one.
pub open spec fn dec_value(c: char) -> Option<nat> {
    if '0' <= c && c <= '9' {
        Some((c as nat - '0' as nat) as nat)
    } else {
        None
    }
}

/// Whether every character of `s` is a decimal digit.
pub open spec fn all_dec(s: Seq<char>) -> bool {
    forall|i: int| 0 <= i < s.len() ==> dec_value(#[trigger] s[i]).is_some()
}

/// The number written by the decimal digits `s` (most significant first).
pub open spec fn dec_number(s: Seq<char>) -> nat
    decreases s.len(),
{
    if s.len() == 0 {
        0
    } else {
        dec_number(s.drop_last()) * 10 + dec_value(s.last()).unwrap_or(0)
    }
}

/// The number written by `s` in the form std's integer parsing accepts:
/// an optional `+` followed by at least one decimal digit.
pub open spec fn unsigned_text_value(s: Seq<char>) -> Option<nat> {
    let digits = if s.len() > 0 && s[0] == '+' {
        s.drop_first()
    } else {
        s
    };
    if digits.len() > 0 && all_dec(digits) {
        Some(dec_number(digits))
    } else {
        None
    }
}

/// The lowercase character of a hexadecimal digit.
pub open spec fn hex_char(d: nat) -> char {
    if d < 10 {
        dec_char(d)
    } else if d == 10 {
        'a'
    } else if d == 11 {
        'b'
    } else if d == 12 {
        'c'
    } else if d == 13 {
        'd'
    } else if d == 14 {
        'e'
    } else {
        'f'
    }
}

/// The value of a hexadecimal digit character of either case, if it is one.
pub open spec fn hex_value(c: char) -> Option<nat> {
    if '0' <= c && c <= '9' {
        Some((c as nat - '0' as nat) as nat)
    } else if 'a' <= c && c <= 'f' {
        Some((c as nat - 'a' as nat + 10) as nat)
    } else if 'A' <= c && c <= 'F' {
        Some((c as nat - 'A' as nat + 10) as nat)
    } else {
        None
    }
}

/// Two lowercase hexadecimal digits of a byte.
pub open spec fn hex_pair(b: u8) -> Seq<char> {
    seq![hex_char(b as nat / 16), hex_char(b as nat % 16)]
}

/// Lowercase hexadecimal text of a byte sequence, two digits per byte.
pub open spec fn hex_text(bytes: Seq<u8>) -> Seq<char>
    decreases bytes.len(),
{
    if bytes.len() == 0 {
        Seq::empty()
    } else {
        hex_text(bytes.drop_last()) + hex_pair(bytes.last())
    }
}

/// Relies on `String::push`: the character is appended at the end.
#[verifier::external_body]
pub(crate) fn push_char(s: &mut String, c: char)
    ensures
        final(s)@ == old(s)@.push(c),
{
    s.push(c)
}

/// The characters of `s`, in order.
pub fn chars_of(s: &str) -> (r: Vec<char>)
    ensures
        r@ == s@,
{
    let n = s.unicode_len();
    let mut r: Vec<char> = Vec::new();
    let mut i: usize = 0;
    while i < n
        invariant
            n == s@.len(),
            i <= n,
            r@ == s@.subrange(0, i as int),
        decreases n - i,
    {
        r.push(s.get_char(i));
        i = i + 1;
    }
    r
}

/// A string holding the characters `cs`.
pub fn string_of(cs: &Vec<char>) -> (r: String)
    ensures
        r@ == cs@,
{
    let mut r = String::new();
    let mut i: usize = 0;
    while i < cs.len()
        invariant
            i <= cs@.len(),
            r@ == cs@.subrange(0, i as int),
        decreases cs.len() - i,
    {
        push_char(&mut r, cs[i]);
        i = i + 1;
    }
    r
}

/// Appends the characters of `s` to `out`.
pub fn append_str(out: &mut Vec<char>, s: &str)
    ensures
        final(out)@ == old(out)@ + s@,
{
    let n = s.unicode_len();
    let mut i: usize = 0;
    while i < n
        invariant
            n == s@.len(),
            i <= n,
            out@ == old(out)@ + s@.subrange(0, i as int),
        decreases n - i,
    {
        out.push(s.get_char(i));
        i = i + 1;
        proof {
            assert(s@.subrange(0, i as int) == s@.subrange(0, i - 1).push(s@[i - 1]));
        }
    }
    proof {
        assert(s@.subrange(0, n as int) == s@);
    }
}

/// Appends the characters of `s` to `out`.
pub fn append_chars(out: &mut Vec<char>, s: &Vec<char>)
    ensures
        final(out)@ == old(out)@ + s@,
{
    let mut i: usize = 0;
    while i < s.len()
        invariant
            i <= s@.len(),
            out@ == old(out)@ + s@.subrange(0, i as int),
        decreases s.len() - i,
    {
        out.push(s[i]);
        i = i + 1;
        proof {
            assert(s@.subrange(0, i as int) == s@.subrange(0, i - 1).push(s@[i - 1]));
        }
    }
    proof {
        assert(s@.subrange(0, s@.len() as int) == s@);
    }
}

/// The character of the decimal digit `d`.
pub fn dec_digit(d: u32) -> (c: char)
    requires
        d < 10,
    ensures
        c == dec_char(d as nat),
        dec_value(c) == Some(d as nat),
{
    if d == 0 {
        '0'
    } else if d == 1 {
        '1'
    } else if d == 2 {
        '2'
    } else if d == 3 {
        '3'
    } else if d == 4 {
        '4'
    } else if d == 5 {
        '5'
    } else if d == 6 {
        '6'
    } else if d == 7 {
        '7'
    } else if d == 8 {
        '8'
    } else {
        '9'
    }
}

/// Appends the decimal rendering of `n` to `out`.
pub fn append_dec(out: &mut Vec<char>, n: u32)
    ensures
        final(out)@ == old(out)@ + dec_text(n as nat),
    decreases n,
{
    if n < 10 {
        out.push(dec_digit(n));
        proof {
            assert(dec_text(n as nat) == seq![dec_char(n as nat)]);
        }
    } else {
        append_dec(out, n / 10);
        out.push(dec_digit(n % 10));
        proof {
            assert(dec_text(n as nat) == dec_text((n / 10) as nat).push(dec_char((n % 10) as nat)));
        }
    }
}

/// The value of the hexadecimal digit `c`, if it is one.
pub fn hex_digit_value(c: char) -> (r: Option<u8>)
    ensures
        r is Some <==> hex_value(c) is Some,
        r is Some ==> r->0 as nat == hex_value(c)->0 && r->0 < 16,
{
    if '0' <= c && c <= '9' {
        Some(((c as u32) - ('0' as u32)) as u8)
    } else if 'a' <= c && c <= 'f' {
        Some(((c as u32) - ('a' as u32) + 10) as u8)
    } else if 'A' <= c && c <= 'F' {
        Some(((c as u32) - ('A' as u32) + 10) as u8)
    } else {
        None
    }
}

/// The lowercase character of the hexadecimal digit `d`.
pub fn hex_digit(d: u8) -> (c: char)
    requires
        d < 16,
    ensures
        c == hex_char(d as nat),
{
    if d < 10 {
        dec_digit(d as u32)
    } else if d == 10 {
        'a'
    } else if d == 11 {
        'b'
    } else if d == 12 {
        'c'
    } else if d == 13 {
        'd'
    } else if d == 14 {
        'e'
    } else {
        'f'
    }
}

/// Parses `s` as an unsigned decimal number no larger than `max`, the way
/// std parses an unsigned integer type whose largest value is `max`.
pub fn parse_unsigned(s: &Vec<char>, max: u32) -> (r: Option<u32>)
    ensures
        r is Some <==> (unsigned_text_value(s@) is Some && unsigned_text_value(s@)->0 <= max),
        r is Some ==> r->0 as nat == unsigned_text_value(s@)->0,
{
    let start: usize = if s.len() > 0 && s[0] == '+' {
        1
    } else {
        0
    };
    let ghost digits = if s@.len() > 0 && s@[0] == '+' {
        s@.drop_first()
    } else {
        s@
    };
    proof {
        assert(digits == s@.subrange(start as int, s@.len() as int));
        assert(unsigned_text_value(s@) == if digits.len() > 0 && all_dec(digits) {
            Some(dec_number(digits))
        } else {
            None
        });
    }
    if start >= s.len() {
        return None;
    }
    let mut value: u32 = 0;
    let mut i: usize = start;
    while i < s.len()
        invariant
            start <= i <= s@.len(),
            digits == s@.subrange(start as int, s@.len() as int),
            digits.len() > 0,
            unsigned_text_value(s@) == if all_dec(digits) {
                Some(dec_number(digits))
            } else {
                None
            },
            all_dec(s@.subrange(start as int, i as int)),
            value as nat == dec_number(s@.subrange(start as int, i as int)),
            value <= max,
        decreases s.len() - i,
    {
        let c = s[i];
        let ghost prev = s@.subrange(start as int, i as int);
        let ghost next = s@.subrange(start as int, i + 1);
        proof {
            assert(next.drop_last() == prev);
            assert(next.last() == c);
        }
        if c < '0' || c > '9' {
            proof {
                assert(digits[i - start] == c);
                assert(dec_value(digits[i - start]) is None);
                assert(!all_dec(digits));
                assert(unsigned_text_value(s@) is None);
            }
            return None;
        }
        let d = (c as u32) - ('0' as u32);
        let nv: u64 = value as u64 * 10 + d as u64;
        proof {
            assert(dec_number(next) == dec_number(prev) * 10 + d);
        }
        if nv > max as u64 {
            proof {
                if all_dec(digits) {
                    lemma_dec_number_prefix_monotone(digits, (i + 1 - start) as int);
                    assert(digits.subrange(0, (i + 1 - start) as int) == next);
                    assert(dec_number(digits) > max);
                }
                assert(unsigned_text_value(s@) is None || unsigned_text_value(s@)->0 > max);
            }
            return None;
        }
        value = nv as u32;
        i = i + 1;
        proof {
            assert forall|j: int| 0 <= j < next.len() implies dec_value(#[trigger] next[j]) is Some by {
                if j < prev.len() {
                    assert(next[j] == prev[j]);
                }
            }
        }
    }
    proof {
        assert(s@.subrange(start as int, i as int) == digits);
    }
    Some(value)
}

/// A number written with more digits is at least the number written by a prefix of them.
pub proof fn lemma_dec_number_prefix_monotone(s: Seq<char>, k: int)
    requires
        0 <= k <= s.len(),
        all_dec(s),
    ensures
        dec_number(s.subrange(0, k)) <= dec_number(s),
    decreases s.len() - k,
{
    if k < s.len() {
        lemma_dec_number_prefix_monotone(s, k + 1);
        let a = s.subrange(0, k + 1);
        assert(a.drop_last() == s.subrange(0, k));
    } else {
        assert(s.subrange(0, k) == s);
    }
}

/// The pieces of `s` between occurrences of `sep`, as std's `split` gives
/// them: one more piece than there are separators, empty pieces kept.
pub open spec fn split_on(s: Seq<char>, sep: char) -> Seq<Seq<char>>
    decreases s.len(),
{
    if s.len() == 0 {
        seq![Seq::empty()]
    } else {
        let p = split_on(s.drop_last(), sep);
        if s.last() == sep {
            p.push(Seq::empty())
        } else {
            p.update(p.len() - 1, p.last().push(s.last()))
        }
    }
}

/// `split_on` never yields an empty list of pieces.
pub proof fn lemma_split_nonempty(s: Seq<char>, sep: char)
    ensures
        split_on(s, sep).len() >= 1,
    decreases s.len(),
{
    if s.len() > 0 {
        lemma_split_nonempty(s.drop_last(), sep);
    }
}

/// What is left of `s` once every leading copy of `p` is removed, as std's
/// `trim_start_matches` leaves it.
pub open spec fn trim_prefixes(s: Seq<char>, p: Seq<char>) -> Seq<char>
    decreases s.len(),
{
    if p.len() > 0 && p.len() <= s.len() && s.subrange(0, p.len() as int) == p {
        trim_prefixes(s.subrange(p.len() as int, s.len() as int), p)
    } else {
        s
    }
}

/// Whether `p` is a prefix of `s`.
pub open spec fn has_prefix(s: Seq<char>, p: Seq<char>) -> bool {
    p.len() <= s.len() && s.subrange(0, p.len() as int) == p
}

/// Whether the characters `s` equal those of `t`.
pub fn eq_text(s: &Vec<char>, t: &str) -> (r: bool)
    ensures
        r == (s@ == t@),
{
    let n = t.unicode_len();
    if s.len() != n {
        return false;
    }
    let mut i: usize = 0;
    while i < n
        invariant
            n == t@.len(),
            n == s@.len(),
            i <= n,
            forall|j: int| 0 <= j < i ==> s@[j] == t@[j],
        decreases n - i,
    {
        if s[i] != t.get_char(i) {
            return false;
        }
        i = i + 1;
    }
    assert(s@ =~= t@);
    true
}

/// Whether `s`, from position `at`, starts with the characters of `p`.
pub fn starts_with_at(s: &Vec<char>, at: usize, p: &str) -> (r: bool)
    requires
        at <= s@.len(),
    ensures
        r == has_prefix(s@.subrange(at as int, s@.len() as int), p@),
{
    let n = p.unicode_len();
    let ghost rest = s@.subrange(at as int, s@.len() as int);
    if n > s.len() - at {
        return false;
    }
    let len = s.len();
    let mut i: usize = 0;
    while i < n
        invariant
            n == p@.len(),
            len == s@.len(),
            at + n <= s@.len(),
            rest == s@.subrange(at as int, s@.len() as int),
            i <= n,
            forall|j: int| 0 <= j < i ==> rest[j] == p@[j],
        decreases n - i,
    {
        assert(at + i < s@.len());
        if s[at + i] != p.get_char(i) {
            assert(rest.subrange(0, n as int)[i as int] != p@[i as int]);
            return false;
        }
        i = i + 1;
    }
    assert(rest.subrange(0, n as int) =~= p@);
    true
}

/// The characters of `s` from position `from` on.
pub fn tail_from(s: &Vec<char>, from: usize) -> (r: Vec<char>)
    requires
        from <= s@.len(),
    ensures
        r@ == s@.subrange(from as int, s@.len() as int),
{
    let mut r: Vec<char> = Vec::new();
    let mut i: usize = from;
    while i < s.len()
        invariant
            from <= i <= s@.len(),
            r@ == s@.subrange(from as int, i as int),
        decreases s.len() - i,
    {
        r.push(s[i]);
        i = i + 1;
    }
    r
}

/// The characters of `s` between positions `from` and `to`.
pub fn slice_chars(s: &Vec<char>, from: usize, to: usize) -> (r: Vec<char>)
    requires
        from <= to <= s@.len(),
    ensures
        r@ == s@.subrange(from as int, to as int),
{
    let mut r: Vec<char> = Vec::new();
    let mut i: usize = from;
    while i < to
        invariant
            from <= i <= to,
            to <= s@.len(),
            r@ == s@.subrange(from as int, i as int),
        decreases to - i,
    {
        r.push(s[i]);
        i = i + 1;
    }
    r
}

/// Removes every leading copy of `p` from `s`.
pub fn trim_start_all(s: &Vec<char>, p: &str) -> (r: Vec<char>)
    ensures
        r@ == trim_prefixes(s@, p@),
{
    let n = p.unicode_len();
    if n == 0 {
        return tail_from(s, 0);
    }
    let mut at: usize = 0;
    assert(s@.subrange(0, s@.len() as int) =~= s@);
    while at <= s.len() && starts_with_at(s, at, p)
        invariant
            n == p@.len(),
            n > 0,
            at <= s@.len(),
            trim_prefixes(s@.subrange(at as int, s@.len() as int), p@) == trim_prefixes(s@, p@),
        decreases s@.len() - at,
    {
        proof {
            let rest = s@.subrange(at as int, s@.len() as int);
            assert(rest.subrange(n as int, rest.len() as int) =~= s@.subrange(
                at + n,
                s@.len() as int,
            ));
        }
        at = at + n;
    }
    tail_from(s, at)
}

/// The pieces of `s` between occurrences of `sep`.
pub fn split_chars(s: &Vec<char>, sep: char) -> (r: Vec<Vec<char>>)
    ensures
        r@.len() == split_on(s@, sep).len(),
        forall|j: int| 0 <= j < r@.len() ==> #[trigger] r@[j]@ == split_on(s@, sep)[j],
{
    let mut done: Vec<Vec<char>> = Vec::new();
    let mut cur: Vec<char> = Vec::new();
    let mut i: usize = 0;
    while i < s.len()
        invariant
            i <= s@.len(),
            done@.len() + 1 == split_on(s@.subrange(0, i as int), sep).len(),
            forall|j: int|
                0 <= j < done@.len() ==> #[trigger] done@[j]@ == split_on(
                    s@.subrange(0, i as int),
                    sep,
                )[j],
            cur@ == split_on(s@.subrange(0, i as int), sep).last(),
        decreases s.len() - i,
    {
        let c = s[i];
        proof {
            let next = s@.subrange(0, i + 1);
            assert(next.drop_last() == s@.subrange(0, i as int));
            lemma_split_nonempty(s@.subrange(0, i as int), sep);
        }
        if c == sep {
            let piece = cur;
            done.push(piece);
            cur = Vec::new();
        } else {
            cur.push(c);
        }
        i = i + 1;
    }
    assert(s@.subrange(0, s@.len() as int) == s@);
    done.push(cur);
    done
}

/// What `str::to_lowercase` makes of the characters `s`.
pub uninterp spec fn lower_of(s: Seq<char>) -> Seq<char>;

/// Relies on `str::to_lowercase`: the result depends on the characters
/// alone, and an empty string stays empty.
#[verifier::external_body]
pub(crate) fn lowercase(s: &str) -> (r: String)
    ensures
        r@ == lower_of(s@),
        s@.len() == 0 ==> r@.len() == 0,
{
    s.to_lowercase()
}

/// Whether `p` occurs in `s` as a contiguous run.
pub open spec fn contains_run(s: Seq<char>, p: Seq<char>) -> bool {
    exists|k: int| 0 <= k && k + p.len() <= s.len() && #[trigger] s.subrange(k, k + p.len()) == p
}

/// Whether the characters `p` occur in `s` as a contiguous run.
pub fn contains_text(s: &Vec<char>, p: &Vec<char>) -> (r: bool)
    ensures
        r == contains_run(s@, p@),
{
    if p.len() > s.len() {
        return false;
    }
    let slen = s.len();
    let last = slen - p.len();
    let mut k: usize = 0;
    loop
        invariant
            slen == s@.len(),
            last + p@.len() == slen,
            k <= last,
            forall|j: int| 0 <= j < k ==> #[trigger] s@.subrange(j, j + p@.len()) != p@,
        decreases last - k,
    {
        let mut i: usize = 0;
        let mut same = true;
        while i < p.len()
            invariant
                slen == s@.len(),
                last + p@.len() == slen,
                k <= last,
                i <= p@.len(),
                same == (forall|m: int| 0 <= m < i ==> s@[k + m] == p@[m]),
            decreases p.len() - i,
        {
            if s[k + i] != p[i] {
                same = false;
            }
            i = i + 1;
        }
        if same {
            assert(s@.subrange(k as int, k + p@.len()) =~= p@);
            return true;
        }
        proof {
            let w = s@.subrange(k as int, k + p@.len());
            if w == p@ {
                assert forall|m: int| 0 <= m < p@.len() implies s@[k + m] == p@[m] by {
                    assert(w[m] == s@[k + m]);
                }
            }
        }
        if k == last {
            return false;
        }
        k = k + 1;
    }
}

/// Whether two character vectors are equal.
pub fn eq_chars(s: &Vec<char>, t: &Vec<char>) -> (r: bool)
    ensures
        r == (s@ == t@),
{
    if s.len() != t.len() {
        return false;
    }
    let mut i: usize = 0;
    while i < s.len()
        invariant
            s@.len() == t@.len(),
            i <= s@.len(),
            forall|j: int| 0 <= j < i ==> s@[j] == t@[j],
        decreases s.len() - i,
    {
        if s[i] != t[i] {
            return false;
        }
        i = i + 1;
    }
    assert(s@ =~= t@);
    true
}

/// The decimal rendering of a number is a non-empty run of digits that
/// reads back as the number.
pub proof fn lemma_dec_text(n: nat)
    ensures
        dec_text(n).len() > 0,
        all_dec(dec_text(n)),
        dec_number(dec_text(n)) == n,
        unsigned_text_value(dec_text(n)) == Some(n),
    decreases n,
{
    let t = dec_text(n);
    if n < 10 {
        assert(t == seq![dec_char(n)]);
        assert(dec_value(dec_char(n)) == Some(n));
        assert(t.drop_last() =~= Seq::<char>::empty());
        assert(dec_number(t) == dec_number(t.drop_last()) * 10 + dec_value(t.last()).unwrap_or(0));
        assert(dec_number(Seq::<char>::empty()) == 0);
    } else {
        lemma_dec_text(n / 10);
        let p = dec_text(n / 10);
        assert(t == p.push(dec_char(n % 10)));
        assert(dec_value(dec_char(n % 10)) == Some(n % 10));
        assert(t.drop_last() =~= p);
        assert forall|i: int| 0 <= i < t.len() implies dec_value(#[trigger] t[i]).is_some() by {
            if i < p.len() {
                assert(t[i] == p[i]);
            }
        }
        assert(dec_number(t) == dec_number(p) * 10 + (n % 10));
        assert(n == (n / 10) * 10 + n % 10);
    }
    assert(dec_value(t[0]) is Some);
    assert(t[0] != '+');
}

/// Appending text without separators extends the last piece.
pub proof fn lemma_split_extend(p: Seq<char>, t: Seq<char>, sep: char)
    requires
        forall|i: int| 0 <= i < t.len() ==> t[i] != sep,
    ensures
        split_on(p + t, sep) == split_on(p, sep).update(
            split_on(p, sep).len() - 1,
            split_on(p, sep).last() + t,
        ),
    decreases t.len(),
{
    lemma_split_nonempty(p, sep);
    if t.len() == 0 {
        assert(p + t =~= p);
        assert(split_on(p, sep).last() + t =~= split_on(p, sep).last());
        assert(split_on(p, sep).update(split_on(p, sep).len() - 1, split_on(p, sep).last())
            =~= split_on(p, sep));
    } else {
        let t0 = t.drop_last();
        lemma_split_extend(p, t0, sep);
        let q = p + t;
        assert(q.drop_last() =~= p + t0);
        assert(q.last() == t.last());
        let sp = split_on(p, sep);
        let s0 = split_on(p + t0, sep);
        assert(s0.last() == sp.last() + t0);
        assert(s0.last().push(t.last()) =~= sp.last() + t);
        assert(split_on(q, sep) =~= sp.update(sp.len() - 1, sp.last() + t));
    }
}

/// A text without separators is a single piece.
pub proof fn lemma_split_single(t: Seq<char>, sep: char)
    requires
        forall|i: int| 0 <= i < t.len() ==> t[i] != sep,
    ensures
        split_on(t, sep) == seq![t],
{
    lemma_split_extend(Seq::empty(), t, sep);
    assert(Seq::<char>::empty() + t =~= t);
    assert(seq![Seq::<char>::empty()].update(0, Seq::<char>::empty() + t) =~= seq![t]);
}

/// A separator followed by text without separators starts a new last piece.
pub proof fn lemma_split_append_piece(p: Seq<char>, t: Seq<char>, sep: char)
    requires
        forall|i: int| 0 <= i < t.len() ==> t[i] != sep,
    ensures
        split_on(p + seq![sep] + t, sep) == split_on(p, sep).push(t),
{
    let q = p + seq![sep];
    assert(q.drop_last() =~= p);
    assert(split_on(q, sep) == split_on(p, sep).push(Seq::empty()));
    lemma_split_extend(q, t, sep);
    assert(Seq::<char>::empty() + t =~= t);
    assert(split_on(p, sep).push(Seq::empty()).update(split_on(p, sep).len() as int, t)
        =~= split_on(p, sep).push(t));
}

/// Digits contain no `+`.
pub proof fn lemma_digits_no_plus(t: Seq<char>)
    requires
        all_dec(t),
    ensures
        forall|i: int| 0 <= i < t.len() ==> t[i] != '+',
{
    assert forall|i: int| 0 <= i < t.len() implies t[i] != '+' by {
        assert(dec_value(t[i]) is Some);
    }
}

/// Prefixing `p` once, in front of text that does not itself start with
/// the first character of `p`, is undone by removing leading copies of `p`.
pub proof fn lemma_trim_once(p: Seq<char>, rest: Seq<char>)
    requires
        p.len() > 0,
        rest.len() > 0,
        rest[0] != p[0],
    ensures
        trim_prefixes(p + rest, p) == rest,
{
    let s = p + rest;
    assert(s.subrange(0, p.len() as int) =~= p);
    assert(s.subrange(p.len() as int, s.len() as int) =~= rest);
    if p.len() <= rest.len() {
        assert(rest.subrange(0, p.len() as int)[0] != p[0]);
    }
    assert(trim_prefixes(rest, p) == rest);
    assert(trim_prefixes(s, p) == trim_prefixes(rest, p));
}

} // verus!
