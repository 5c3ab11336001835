//! Character-level string utilities with exact specifications.
use vstd::prelude::*;

verus! {

/// The character for a decimal digit value.
pub open spec fn digit_char_spec(d: nat) -> char {
    if d == 0 { '0' }
    else if d == 1 { '1' }
    else if d == 2 { '2' }
    else if d == 3 { '3' }
    else if d == 4 { '4' }
    else if d == 5 { '5' }
    else if d == 6 { '6' }
    else if d == 7 { '7' }
    else if d == 8 { '8' }
    else { '9' }
}

/// The decimal representation of a natural number, without sign or padding.
pub open spec fn dec_digits(n: nat) -> Seq<char>
    decreases n,
{
    if n < 10 {
        seq![digit_char_spec(n)]
    } else {
        dec_digits(n / 10).push(digit_char_spec(n % 10))
    }
}

fn digit_char(d: u64) -> (c: char)
    requires
        d < 10,
    ensures
        c == digit_char_spec(d as nat),
{
    match d {
        0 => '0',
        1 => '1',
        2 => '2',
        3 => '3',
        4 => '4',
        5 => '5',
        6 => '6',
        7 => '7',
        8 => '8',
        _ => '9',
    }
}

/// Appends the decimal digits of `n` to `out`.
pub fn push_decimal(out: &mut Vec<char>, n: u64)
    ensures
        final(out)@ == old(out)@ + dec_digits(n as nat),
    decreases n,
{
    if n >= 10 {
        push_decimal(out, n / 10);
    }
    let d = digit_char(n % 10);
    out.push(d);
    proof {
        assert(old(out)@ + dec_digits(n as nat) =~= (if n >= 10 {
            old(out)@ + dec_digits((n / 10) as nat)
        } else {
            old(out)@
        }).push(d));
    }
}


/// Appends one character to a `String` (std's `String::push`).
#[verifier::external_body]
pub(crate) fn push_char(s: &mut String, c: char)
    ensures
        final(s)@ == old(s)@.push(c),
{
    s.push(c)
}

/// The characters of a string slice, in order.
pub fn chars_of(s: &str) -> (r: Vec<char>)
    ensures
        r@ == s@,
{
    broadcast use vstd::string::group_string_axioms;
    let mut r: Vec<char> = Vec::new();
    for c in it: s.chars()
        invariant
            it.seq() == s@,
            r@ == s@.take(it.index()),
    {
        proof {
            assert(s@.take(it.index()).push(c) =~= s@.take(it.index() + 1));
        }
        r.push(c);
    }
    proof {
        assert(r@ =~= s@);
    }
    r
}

/// The string made of the given characters.
pub fn string_of(cs: &[char]) -> (r: String)
    ensures
        r@ == cs@,
{
    let mut r = String::new();
    let mut i: usize = 0;
    while i < cs.len()
        invariant
            i <= cs@.len(),
            r@ == cs@.take(i as int),
        decreases cs@.len() - i,
    {
        push_char(&mut r, cs[i]);
        proof {
            assert(cs@.take(i as int).push(cs@[i as int]) =~= cs@.take(i + 1));
        }
        i = i + 1;
    }
    proof {
        assert(cs@.take(cs@.len() as int) =~= cs@);
    }
    r
}

/// The decimal text of an unsigned integer, as `to_string` writes it.
pub fn u64_to_text(n: u64) -> (r: String)
    ensures
        r@ == dec_digits(n as nat),
{
    let mut v: Vec<char> = Vec::new();
    push_decimal(&mut v, n);
    proof {
        assert(v@ =~= dec_digits(n as nat));
    }
    string_of(v.as_slice())
}

/// The decimal text of a signed integer: a leading `-` for negative values.
pub open spec fn int_text(n: int) -> Seq<char> {
    if n < 0 {
        seq!['-'] + dec_digits((-n) as nat)
    } else {
        dec_digits(n as nat)
    }
}

/// The decimal text of an `i64`, as `to_string` writes it.
pub fn i64_to_text(n: i64) -> (r: String)
    ensures
        r@ == int_text(n as int),
{
    let mut v: Vec<char> = Vec::new();
    if n < 0 {
        v.push('-');
        let m: u64 = if n == i64::MIN {
            9223372036854775808u64
        } else {
            (-n) as u64
        };
        push_decimal(&mut v, m);
    } else {
        push_decimal(&mut v, n as u64);
    }
    proof {
        assert(v@ =~= int_text(n as int));
    }
    string_of(v.as_slice())
}

/// The value of a digit character in radix 36 (`char::to_digit`'s table),
/// or `None` when it is not an ASCII letter or digit.
pub open spec fn digit_value(c: char) -> Option<nat> {
    if '0' <= c && c <= '9' {
        Some((c as int - '0' as int) as nat)
    } else if 'a' <= c && c <= 'z' {
        Some((c as int - 'a' as int + 10) as nat)
    } else if 'A' <= c && c <= 'Z' {
        Some((c as int - 'A' as int + 10) as nat)
    } else {
        None
    }
}

/// Every character is a digit of the given radix.
pub open spec fn all_digits(s: Seq<char>, radix: nat) -> bool {
    forall|i: int| 0 <= i < s.len() ==> #[trigger] digit_value(s[i]) is Some && digit_value(s[i])->0 < radix
}

/// The number that a sequence of digits denotes in the given radix.
pub open spec fn digits_number(s: Seq<char>, radix: nat) -> nat
    decreases s.len(),
{
    if s.len() == 0 {
        0
    } else {
        digits_number(s.drop_last(), radix) * radix + digit_value(s.last()).unwrap_or(0)
    }
}

/// What `from_str_radix` gives for an unsigned type whose largest value is `max`:
/// an optional leading `+`, then at least one digit, with a value no larger than `max`.
pub open spec fn parse_unsigned(s: Seq<char>, radix: nat, max: nat) -> Option<nat> {
    let digits = if s.len() > 0 && s[0] == '+' { s.drop_first() } else { s };
    if digits.len() == 0 || !all_digits(digits, radix) || digits_number(digits, radix) > max {
        None
    } else {
        Some(digits_number(digits, radix))
    }
}

proof fn lemma_digits_number_prefix_le(s: Seq<char>, radix: nat, k: int)
    requires
        0 <= k <= s.len(),
        radix >= 1,
    ensures
        digits_number(s.take(k), radix) <= digits_number(s, radix),
    decreases s.len(),
{
    if k < s.len() {
        lemma_digits_number_prefix_le(s.drop_last(), radix, k);
        assert(s.drop_last().take(k) =~= s.take(k));
        let a = digits_number(s.drop_last(), radix);
        assert(a <= a * radix) by (nonlinear_arith)
            requires
                radix >= 1,
        ;
    } else {
        assert(s.take(k) =~= s);
    }
}

fn char_digit_value(c: char) -> (r: Option<u64>)
    ensures
        r is Some <==> digit_value(c) is Some,
        r is Some ==> r->0 == digit_value(c)->0,
{
    if '0' <= c && c <= '9' {
        Some((c as u64) - ('0' as u64))
    } else if 'a' <= c && c <= 'z' {
        Some((c as u64) - ('a' as u64) + 10)
    } else if 'A' <= c && c <= 'Z' {
        Some((c as u64) - ('A' as u64) + 10)
    } else {
        None
    }
}

/// Parses an unsigned number in the given radix, with the rules of
/// `from_str_radix`, refusing values above `max`.
pub fn parse_unsigned_chars(s: &[char], radix: u64, max: u64) -> (r: Option<u64>)
    requires
        2 <= radix <= 36,
    ensures
        r matches Some(v) ==> parse_unsigned(s@, radix as nat, max as nat) == Some(v as nat),
        r is None ==> parse_unsigned(s@, radix as nat, max as nat) is None,
{
    let ghost digits = if s@.len() > 0 && s@[0] == '+' { s@.drop_first() } else { s@ };
    let start: usize = if s.len() > 0 && s[0] == '+' { 1 } else { 0 };
    if start >= s.len() {
        return None;
    }
    let mut acc: u64 = 0;
    let mut i: usize = start;
    while i < s.len()
        invariant
            start <= i <= s@.len(),
            2 <= radix <= 36,
            digits == s@.skip(start as int),
            digits == (if s@.len() > 0 && s@[0] == '+' { s@.drop_first() } else { s@ }),
            all_digits(digits.take(i - start), radix as nat),
            acc as nat == digits_number(digits.take(i - start), radix as nat),
            acc <= max,
        decreases s@.len() - i,
    {
        let ghost pre = digits.take(i - start);
        let ghost next = digits.take(i - start + 1);
        assert(next.drop_last() =~= pre);
        assert(next.last() == s@[i as int]);
        match char_digit_value(s[i]) {
            None => {
                assert(!all_digits(digits, radix as nat)) by {
                    assert(digits[i - start] == s@[i as int]);
                }
                return None;
            }
            Some(d) => {
                if d >= radix {
                    assert(!all_digits(digits, radix as nat)) by {
                        assert(digits[i - start] == s@[i as int]);
                    }
                    return None;
                }
                let m = acc.checked_mul(radix);
                let m = match m {
                    None => {
                        proof {
                            if all_digits(digits, radix as nat) {
                                lemma_digits_number_prefix_le(digits, radix as nat, i - start + 1);
                                assert(digits_number(next, radix as nat) >= acc * radix) by (nonlinear_arith)
                                    requires
                                        digits_number(next, radix as nat) == acc * radix + d,
                                ;
                            }
                        }
                        return None;
                    }
                    Some(m) => m,
                };
                let n = m.checked_add(d);
                match n {
                    None => {
                        proof {
                            if all_digits(digits, radix as nat) {
                                lemma_digits_number_prefix_le(digits, radix as nat, i - start + 1);
                            }
                        }
                        return None;
                    }
                    Some(n) => {
                        if n > max {
                            proof {
                                if all_digits(digits, radix as nat) {
                                    lemma_digits_number_prefix_le(digits, radix as nat, i - start + 1);
                                }
                            }
                            return None;
                        }
                        assert(all_digits(next, radix as nat)) by {
                            assert forall|j: int| 0 <= j < next.len() implies #[trigger] digit_value(next[j]) is Some && digit_value(next[j])->0 < radix as nat by {
                                if j < next.len() - 1 {
                                    assert(next[j] == pre[j]);
                                }
                            }
                        }
                        acc = n;
                    }
                }
            }
        }
        i = i + 1;
    }
    assert(digits.take(i - start) =~= digits);
    Some(acc)
}


/// Characters with the Unicode `White_Space` property (`char::is_whitespace`).
pub open spec fn is_whitespace_spec(c: char) -> bool {
    ||| '\t' <= c && c <= '\r'
    ||| c == ' '
    ||| c == '\u{85}'
    ||| c == '\u{A0}'
    ||| c == '\u{1680}'
    ||| '\u{2000}' <= c && c <= '\u{200A}'
    ||| c == '\u{2028}'
    ||| c == '\u{2029}'
    ||| c == '\u{202F}'
    ||| c == '\u{205F}'
    ||| c == '\u{3000}'
}

/// Whether a character is whitespace (`char::is_whitespace`).
pub fn is_whitespace(c: char) -> (r: bool)
    ensures
        r == is_whitespace_spec(c),
{
    ('\t' <= c && c <= '\r') || c == ' ' || c == '\u{85}' || c == '\u{A0}' || c == '\u{1680}'
        || ('\u{2000}' <= c && c <= '\u{200A}') || c == '\u{2028}' || c == '\u{2029}'
        || c == '\u{202F}' || c == '\u{205F}' || c == '\u{3000}'
}

/// `s` without its leading whitespace.
pub open spec fn trim_start_spec(s: Seq<char>) -> Seq<char>
    decreases s.len(),
{
    if s.len() > 0 && is_whitespace_spec(s[0]) {
        trim_start_spec(s.drop_first())
    } else {
        s
    }
}

/// `s` without its trailing whitespace.
pub open spec fn trim_end_spec(s: Seq<char>) -> Seq<char>
    decreases s.len(),
{
    if s.len() > 0 && is_whitespace_spec(s.last()) {
        trim_end_spec(s.drop_last())
    } else {
        s
    }
}

/// `s` without leading and trailing whitespace (`str::trim`).
pub open spec fn trim_spec(s: Seq<char>) -> Seq<char> {
    trim_end_spec(trim_start_spec(s))
}

/// Removes leading and trailing whitespace.
pub fn trim(s: &[char]) -> (r: Vec<char>)
    ensures
        r@ == trim_spec(s@),
{
    let mut i: usize = 0;
    proof {
        assert(s@.skip(0) =~= s@);
    }
    while i < s.len() && is_whitespace(s[i])
        invariant
            i <= s@.len(),
            trim_start_spec(s@) == trim_start_spec(s@.skip(i as int)),
        decreases s@.len() - i,
    {
        proof {
            assert(s@.skip(i as int).drop_first() =~= s@.skip(i + 1));
        }
        i = i + 1;
    }
    let mut j: usize = s.len();
    proof {
        assert(s@.skip(i as int).len() == 0 || !is_whitespace_spec(s@.skip(i as int)[0]));
        assert(trim_start_spec(s@.skip(i as int)) == s@.skip(i as int));
        assert(s@.subrange(i as int, j as int) =~= s@.skip(i as int));
    }
    while j > i && is_whitespace(s[j - 1])
        invariant
            i <= j <= s@.len(),
            trim_spec(s@) == trim_end_spec(s@.subrange(i as int, j as int)),
        decreases j,
    {
        proof {
            assert(s@.subrange(i as int, j as int).drop_last() =~= s@.subrange(i as int, j - 1));
        }
        j = j - 1;
    }
    let mut r: Vec<char> = Vec::new();
    let mut k: usize = i;
    while k < j
        invariant
            i <= k <= j <= s@.len(),
            r@ == s@.subrange(i as int, k as int),
        decreases j - k,
    {
        r.push(s[k]);
        proof {
            assert(s@.subrange(i as int, k as int).push(s@[k as int]) =~= s@.subrange(i as int, k + 1));
        }
        k = k + 1;
    }
    r
}

/// The pieces of `s` between occurrences of `sep` (`str::split` with a
/// character pattern); there is always at least one piece.
pub open spec fn split_spec(s: Seq<char>, sep: char) -> Seq<Seq<char>>
    decreases s.len(),
{
    if s.len() == 0 {
        seq![Seq::<char>::empty()]
    } else {
        let p = split_spec(s.drop_last(), sep);
        if s.last() == sep {
            p.push(Seq::<char>::empty())
        } else {
            p.update(p.len() - 1, p.last().push(s.last()))
        }
    }
}

pub proof fn lemma_split_nonempty(s: Seq<char>, sep: char)
    ensures
        split_spec(s, sep).len() >= 1,
    decreases s.len(),
{
    if s.len() > 0 {
        lemma_split_nonempty(s.drop_last(), sep);
    }
}

/// The character sequences held by a vector of character vectors.
pub open spec fn views(v: Seq<Vec<char>>) -> Seq<Seq<char>> {
    v.map_values(|x: Vec<char>| x@)
}

/// Splits `s` at every occurrence of `sep`.
pub fn split(s: &[char], sep: char) -> (r: Vec<Vec<char>>)
    ensures
        views(r@) == split_spec(s@, sep),
{
    let mut done: Vec<Vec<char>> = Vec::new();
    let mut cur: Vec<char> = Vec::new();
    let mut i: usize = 0;
    while i < s.len()
        invariant
            i <= s@.len(),
            views(done@).push(cur@) == split_spec(s@.take(i as int), sep),
        decreases s@.len() - i,
    {
        let ghost before = s@.take(i as int);
        proof {
            assert(s@.take(i + 1).drop_last() =~= before);
            lemma_split_nonempty(before, sep);
        }
        let ghost d0 = views(done@);
        let ghost c0 = cur@;
        let ghost p = split_spec(before, sep);
        assert(s@.take(i + 1).last() == s@[i as int]);
        assert(p == d0.push(c0));
        if s[i] == sep {
            let finished = cur;
            done.push(finished);
            cur = Vec::new();
            proof {
                assert(views(done@) =~= d0.push(c0));
                assert(split_spec(s@.take(i + 1), sep) == p.push(Seq::<char>::empty()));
                assert(views(done@).push(cur@) =~= split_spec(s@.take(i + 1), sep));
            }
        } else {
            cur.push(s[i]);
            proof {
                assert(views(done@) =~= d0);
                assert(split_spec(s@.take(i + 1), sep) == p.update(p.len() - 1, p.last().push(s@[i as int])));
                assert(views(done@).push(cur@) =~= split_spec(s@.take(i + 1), sep));
            }
        }
        i = i + 1;
    }
    let ghost d0 = views(done@);
    let ghost c0 = cur@;
    done.push(cur);
    proof {
        assert(s@.take(s@.len() as int) =~= s@);
        assert(views(done@) =~= d0.push(c0));
    }
    done
}

/// The pieces joined with `sep` between each two of them (`join`).
pub open spec fn join_spec(pieces: Seq<Seq<char>>, sep: Seq<char>) -> Seq<char>
    decreases pieces.len(),
{
    if pieces.len() == 0 {
        Seq::<char>::empty()
    } else if pieces.len() == 1 {
        pieces[0]
    } else {
        join_spec(pieces.drop_last(), sep) + sep + pieces.last()
    }
}

/// Appends `t` to `out`.
pub fn append_chars(out: &mut Vec<char>, t: &[char])
    ensures
        final(out)@ == old(out)@ + t@,
{
    let mut i: usize = 0;
    while i < t.len()
        invariant
            i <= t@.len(),
            out@ == old(out)@ + t@.take(i as int),
        decreases t@.len() - i,
    {
        out.push(t[i]);
        proof {
            assert(old(out)@ + t@.take(i as int).push(t@[i as int]) =~= old(out)@ + t@.take(i + 1));
        }
        i = i + 1;
    }
    proof {
        assert(t@.take(t@.len() as int) =~= t@);
    }
}

/// Joins the pieces with `sep` between each two of them.
pub fn join(pieces: &Vec<Vec<char>>, sep: &[char]) -> (r: Vec<char>)
    ensures
        r@ == join_spec(views(pieces@), sep@),
{
    let mut r: Vec<char> = Vec::new();
    let mut i: usize = 0;
    while i < pieces.len()
        invariant
            i <= pieces@.len(),
            r@ == join_spec(views(pieces@).take(i as int), sep@),
        decreases pieces@.len() - i,
    {
        let ghost pv = views(pieces@);
        proof {
            assert(pv.take(i + 1).drop_last() =~= pv.take(i as int));
            assert(pv.take(i + 1).last() == pieces@[i as int]@);
        }
        if i > 0 {
            append_chars(&mut r, sep);
        } else {
            proof {
                assert(pv.take(i + 1) =~= seq![pieces@[0]@]);
            }
        }
        append_chars(&mut r, pieces[i].as_slice());
        i = i + 1;
    }
    proof {
        assert(views(pieces@).take(pieces@.len() as int) =~= views(pieces@));
    }
    r
}

/// `s` with every leftmost, non-overlapping occurrence of `from` replaced by
/// `to`, scanning from the left (`str::replace`); an empty `from` matches
/// before every character and at the end.
pub open spec fn replace_spec(s: Seq<char>, from: Seq<char>, to: Seq<char>) -> Seq<char>
    decreases s.len(),
{
    if from.len() == 0 {
        if s.len() == 0 {
            to
        } else {
            to + seq![s[0]] + replace_spec(s.drop_first(), from, to)
        }
    } else if s.len() < from.len() {
        s
    } else if s.take(from.len() as int) == from {
        to + replace_spec(s.skip(from.len() as int), from, to)
    } else {
        seq![s[0]] + replace_spec(s.drop_first(), from, to)
    }
}

/// Whether `pat` occurs in `s` at position `i`.
pub open spec fn occurs_at(s: Seq<char>, pat: Seq<char>, i: int) -> bool {
    0 <= i && i + pat.len() <= s.len() && s.subrange(i, i + pat.len()) == pat
}

/// Whether `pat` occurs in `s` at position `i`.
pub fn matches_at(s: &[char], pat: &[char], i: usize) -> (r: bool)
    ensures
        r == occurs_at(s@, pat@, i as int),
{
    if i > s.len() || pat.len() > s.len() - i {
        return false;
    }
    let n: usize = s.len();
    let mut k: usize = 0;
    while k < pat.len()
        invariant
            k <= pat@.len(),
            n == s@.len(),
            i + pat@.len() <= n,
            forall|j: int| 0 <= j < k ==> s@[i + j] == pat@[j],
        decreases pat@.len() - k,
    {
        assert(i + k < s@.len());
        let sk = s[i + k];
        if sk != pat[k] {
            proof {
                assert(s@.subrange(i as int, i + pat@.len())[k as int] != pat@[k as int]);
            }
            return false;
        }
        k = k + 1;
    }
    proof {
        assert(s@.subrange(i as int, i + pat@.len()) =~= pat@);
    }
    true
}

/// Replaces every leftmost, non-overlapping occurrence of `from` by `to`.
pub fn replace_all(s: &[char], from: &[char], to: &[char]) -> (r: Vec<char>)
    ensures
        r@ == replace_spec(s@, from@, to@),
{
    let mut out: Vec<char> = Vec::new();
    if from.len() == 0 {
        let mut i: usize = 0;
        proof {
            assert(s@.skip(0) =~= s@);
            assert(out@ + replace_spec(s@, from@, to@) =~= replace_spec(s@, from@, to@));
        }
        while i < s.len()
            invariant
                i <= s@.len(),
                from@.len() == 0,
                out@ + replace_spec(s@.skip(i as int), from@, to@) == replace_spec(s@, from@, to@),
            decreases s@.len() - i,
        {
            proof {
                assert(s@.skip(i as int).drop_first() =~= s@.skip(i + 1));
                assert(s@.skip(i as int)[0] == s@[i as int]);
                assert(out@ + (to@ + seq![s@[i as int]] + replace_spec(s@.skip(i + 1), from@, to@))
                    =~= (out@ + to@).push(s@[i as int]) + replace_spec(s@.skip(i + 1), from@, to@));
            }
            append_chars(&mut out, to);
            out.push(s[i]);
            i = i + 1;
        }
        proof {
            assert(s@.skip(i as int) =~= Seq::<char>::empty());
        }
        append_chars(&mut out, to);
        return out;
    }
    let mut i: usize = 0;
    proof {
        assert(s@.skip(0) =~= s@);
        assert(out@ + replace_spec(s@, from@, to@) =~= replace_spec(s@, from@, to@));
    }
    while i < s.len()
        invariant
            i <= s@.len(),
            from@.len() > 0,
            out@ + replace_spec(s@.skip(i as int), from@, to@) == replace_spec(s@, from@, to@),
        decreases s@.len() - i,
    {
        let ghost rest = s@.skip(i as int);
        if matches_at(s, from, i) {
            proof {
                assert(rest.take(from@.len() as int) =~= s@.subrange(i as int, i + from@.len()));
                assert(rest.skip(from@.len() as int) =~= s@.skip(i + from@.len()));
            }
            append_chars(&mut out, to);
            i = i + from.len();
        } else {
            proof {
                if rest.len() >= from@.len() {
                    assert(rest.take(from@.len() as int) =~= s@.subrange(i as int, i + from@.len()));
                    assert(rest.drop_first() =~= s@.skip(i + 1));
                } else {
                    assert(replace_spec(rest, from@, to@) == rest);
                    assert(seq![s@[i as int]] + s@.skip(i + 1) =~= rest);
                    assert(replace_spec(s@.skip(i + 1), from@, to@) == s@.skip(i + 1));
                }
            }
            out.push(s[i]);
            i = i + 1;
        }
    }
    proof {
        assert(s@.skip(i as int) =~= Seq::<char>::empty());
        assert(out@ + Seq::<char>::empty() =~= out@);
    }
    out
}


/// Every character of a decimal text is an ASCII digit.
pub proof fn lemma_dec_digits_ascii(n: nat)
    ensures
        dec_digits(n).len() >= 1,
        forall|i: int| 0 <= i < dec_digits(n).len() ==> '0' <= #[trigger] dec_digits(n)[i] && dec_digits(n)[i] <= '9',
    decreases n,
{
    if n >= 10 {
        lemma_dec_digits_ascii(n / 10);
        let p = dec_digits(n / 10);
        assert forall|i: int| 0 <= i < dec_digits(n).len() implies '0' <= #[trigger] dec_digits(n)[i] && dec_digits(n)[i] <= '9' by {
            if i < p.len() {
                assert(dec_digits(n)[i] == p[i]);
            }
        }
    }
}

proof fn lemma_digit_char_value(d: nat)
    requires
        d < 10,
    ensures
        digit_value(digit_char_spec(d)) == Some(d),
{
}

/// Reading a decimal text back gives the number it was written from.
pub proof fn lemma_dec_digits_number(n: nat)
    ensures
        all_digits(dec_digits(n), 10),
        digits_number(dec_digits(n), 10) == n,
    decreases n,
{
    lemma_dec_digits_ascii(n);
    if n < 10 {
        lemma_digit_char_value(n);
        assert(dec_digits(n).drop_last() =~= Seq::<char>::empty());
        assert(dec_digits(n).last() == digit_char_spec(n));
        assert(digits_number(Seq::<char>::empty(), 10) == 0);
    } else {
        lemma_dec_digits_number(n / 10);
        lemma_digit_char_value(n % 10);
        assert(dec_digits(n).drop_last() =~= dec_digits(n / 10));
        assert(dec_digits(n).last() == digit_char_spec(n % 10));
        assert(n == (n / 10) * 10 + n % 10);
    }
}

/// A decimal text parses back to its number, and trimming leaves it unchanged.
pub proof fn lemma_dec_digits_parse(n: nat)
    ensures
        parse_unsigned(dec_digits(n), 10, n) == Some(n),
        trim_spec(dec_digits(n)) == dec_digits(n),
        !dec_digits(n).contains(','),
{
    lemma_dec_digits_ascii(n);
    lemma_dec_digits_number(n);
    let d = dec_digits(n);
    assert(d[0] != '+');
    assert(!is_whitespace_spec(d[0]));
    assert(trim_start_spec(d) == d);
    assert(!is_whitespace_spec(d.last()));
    assert(trim_end_spec(d) == d);
    assert(!d.contains(',')) by {
        if d.contains(',') {
            let i = choose|i: int| 0 <= i < d.len() && d[i] == ',';
            assert('0' <= d[i]);
        }
    }
}

/// Parsing is monotone in the bound: a text that parses under `m` parses to
/// the same number under any larger bound.
pub proof fn lemma_parse_unsigned_bound(s: Seq<char>, radix: nat, m: nat, big: nat)
    requires
        parse_unsigned(s, radix, m) is Some,
        m <= big,
    ensures
        parse_unsigned(s, radix, big) == parse_unsigned(s, radix, m),
{
}

proof fn lemma_split_append_plain(a: Seq<char>, x: Seq<char>, sep: char)
    requires
        !x.contains(sep),
    ensures
        split_spec(a + x, sep) == split_spec(a, sep).update(
            split_spec(a, sep).len() - 1,
            split_spec(a, sep).last() + x,
        ),
    decreases x.len(),
{
    lemma_split_nonempty(a, sep);
    let p = split_spec(a, sep);
    if x.len() == 0 {
        assert(a + x =~= a);
        assert(p.last() + x =~= p.last());
        assert(p.update(p.len() - 1, p.last() + x) =~= p);
    } else {
        let y = x.drop_last();
        assert(!y.contains(sep)) by {
            if y.contains(sep) {
                let i = choose|i: int| 0 <= i < y.len() && y[i] == sep;
                assert(x[i] == sep);
            }
        }
        lemma_split_append_plain(a, y, sep);
        assert((a + x).drop_last() =~= a + y);
        assert((a + x).last() == x.last());
        assert(x.last() != sep) by {
            assert(x[x.len() - 1] == x.last());
        }
        let q = split_spec(a + y, sep);
        assert(q.last() == p.last() + y);
        assert(q.last().push(x.last()) =~= p.last() + x);
        assert(q.update(q.len() - 1, q.last().push(x.last())) =~= p.update(p.len() - 1, p.last() + x));
    }
}

/// Splitting a joined list at the separator gives back the list, when no
/// piece holds the separator.
pub proof fn lemma_split_join(pieces: Seq<Seq<char>>, sep: char)
    requires
        pieces.len() >= 1,
        forall|i: int| 0 <= i < pieces.len() ==> !(#[trigger] pieces[i]).contains(sep),
    ensures
        split_spec(join_spec(pieces, seq![sep]), sep) == pieces,
    decreases pieces.len(),
{
    if pieces.len() == 1 {
        lemma_split_append_plain(Seq::<char>::empty(), pieces[0], sep);
        assert(Seq::<char>::empty() + pieces[0] =~= pieces[0]);
        assert(split_spec(Seq::<char>::empty(), sep) =~= seq![Seq::<char>::empty()]);
        assert(Seq::<char>::empty() + pieces[0] =~= pieces[0]);
        assert(seq![Seq::<char>::empty()].update(0, Seq::<char>::empty() + pieces[0]) =~= pieces);
    } else {
        let init = pieces.drop_last();
        assert forall|i: int| 0 <= i < init.len() implies !(#[trigger] init[i]).contains(sep) by {
            assert(init[i] == pieces[i]);
        }
        lemma_split_join(init, sep);
        let a = join_spec(init, seq![sep]);
        let last = pieces.last();
        assert(!last.contains(sep)) by {
            assert(pieces[pieces.len() - 1] == last);
        }
        assert(join_spec(pieces, seq![sep]) == a + seq![sep] + last);
        let b = a + seq![sep];
        assert(b.drop_last() =~= a);
        assert(b.last() == sep);
        lemma_split_nonempty(a, sep);
        let pb = split_spec(b, sep);
        assert(pb == init.push(Seq::<char>::empty()));
        lemma_split_append_plain(b, last, sep);
        assert(Seq::<char>::empty() + last =~= last);
        assert(pb.update(pb.len() - 1, pb.last() + last) =~= pieces);
    }
}


/// Whether two strings hold the same characters.
pub fn same_text(a: &str, b: &str) -> (r: bool)
    ensures
        r == (a@ == b@),
{
    let x = chars_of(a);
    let y = chars_of(b);
    same_chars(x.as_slice(), y.as_slice())
}

/// Whether two character slices are equal.
pub fn same_chars(x: &[char], y: &[char]) -> (r: bool)
    ensures
        r == (x@ == y@),
{
    if x.len() != y.len() {
        return false;
    }
    let mut i: usize = 0;
    while i < x.len()
        invariant
            i <= x@.len(),
            x@.len() == y@.len(),
            forall|j: int| 0 <= j < i ==> x@[j] == y@[j],
        decreases x@.len() - i,
    {
        if x[i] != y[i] {
            return false;
        }
        i = i + 1;
    }
    proof {
        assert(x@ =~= y@);
    }
    true
}

/// The concatenation of two strings.
pub fn concat(a: &str, b: &str) -> (r: String)
    ensures
        r@ == a@ + b@,
{
    let mut v = chars_of(a);
    let w = chars_of(b);
    append_chars(&mut v, w.as_slice());
    string_of(v.as_slice())
}

/// Whether `s` begins with `prefix` (`str::starts_with`).
pub open spec fn starts_with_spec(s: Seq<char>, prefix: Seq<char>) -> bool {
    prefix.len() <= s.len() && s.take(prefix.len() as int) == prefix
}

/// Whether `s` begins with `prefix`.
pub fn starts_with(s: &str, prefix: &str) -> (r: bool)
    ensures
        r == starts_with_spec(s@, prefix@),
{
    let x = chars_of(s);
    let p = chars_of(prefix);
    let r = matches_at(x.as_slice(), p.as_slice(), 0);
    proof {
        assert(x@.subrange(0, p@.len() as int) =~= x@.take(p@.len() as int));
    }
    r
}

/// Whether `pat` occurs anywhere in `s` (`str::contains`).
pub open spec fn contains_spec(s: Seq<char>, pat: Seq<char>) -> bool {
    exists|i: int| occurs_at(s, pat, i)
}

/// Whether `pat` occurs anywhere in `s`.
pub fn contains_text(s: &str, pat: &str) -> (r: bool)
    ensures
        r == contains_spec(s@, pat@),
{
    let x = chars_of(s);
    let p = chars_of(pat);
    if p.len() > x.len() {
        return false;
    }
    let last: usize = x.len() - p.len();
    let mut i: usize = 0;
    while i < last
        invariant
            x@ == s@,
            p@ == pat@,
            last == x@.len() - p@.len(),
            i <= last,
            forall|j: int| 0 <= j < i ==> !occurs_at(x@, p@, j),
        decreases last - i,
    {
        if matches_at(x.as_slice(), p.as_slice(), i) {
            assert(occurs_at(x@, p@, i as int));
            return true;
        }
        i = i + 1;
    }
    if matches_at(x.as_slice(), p.as_slice(), last) {
        assert(occurs_at(x@, p@, last as int));
        return true;
    }
    proof {
        assert forall|j: int| !occurs_at(x@, p@, j) by {
            if 0 <= j < last {
            } else {
            }
        }
    }
    false
}


/// The concatenation of the given strings.
pub open spec fn concat_views(parts: Seq<&str>) -> Seq<char>
    decreases parts.len(),
{
    if parts.len() == 0 {
        Seq::<char>::empty()
    } else {
        concat_views(parts.drop_last()) + parts.last()@
    }
}

/// Concatenates the given strings in order.
pub fn concat_all(parts: &Vec<&str>) -> (r: String)
    ensures
        r@ == concat_views(parts@),
{
    let mut out: Vec<char> = Vec::new();
    let mut i: usize = 0;
    while i < parts.len()
        invariant
            i <= parts@.len(),
            out@ == concat_views(parts@.take(i as int)),
        decreases parts@.len() - i,
    {
        let p = chars_of(parts[i]);
        append_chars(&mut out, p.as_slice());
        proof {
            assert(parts@.take(i + 1).drop_last() =~= parts@.take(i as int));
        }
        i = i + 1;
    }
    proof {
        assert(parts@.take(parts@.len() as int) =~= parts@);
    }
    string_of(out.as_slice())
}


/// The empty literal holds no characters.
pub proof fn lemma_empty_literal()
    ensures
        ""@ == Seq::<char>::empty(),
{
    reveal_strlit("");
    assert(""@ =~= Seq::<char>::empty());
}


/// Names what std's `str::to_uppercase` gives: the Unicode uppercase mapping
/// of each character, in order.
pub uninterp spec fn uppercase_of(s: Seq<char>) -> Seq<char>;

/// Calls std's `str::to_uppercase`. Its result is believed to be
/// `uppercase_of` of its argument; the Unicode case tables are not stated.
#[verifier::external_body]
pub(crate) fn to_uppercase(s: &str) -> (r: String)
    ensures
        r@ == uppercase_of(s@),
{
    s.to_uppercase()
}

/// Names what std's `str::to_lowercase` gives: the Unicode lowercase mapping
/// of the text.
pub uninterp spec fn lowercase_of(s: Seq<char>) -> Seq<char>;

/// Calls std's `str::to_lowercase`. Its result is believed to be
/// `lowercase_of` of its argument; the Unicode case tables are not stated.
#[verifier::external_body]
pub(crate) fn to_lowercase(s: &str) -> (r: String)
    ensures
        r@ == lowercase_of(s@),
{
    s.to_lowercase()
}

} // verus!
