//! Text helpers: joining, rewriting and reading runs of characters.

use vstd::prelude::*;
use vstd::std_specs::iter::IteratorSpec;
use vstd::string::StringExecFns;

verus! {

/// `String::push` appends one character.
pub assume_specification[ String::push ](s: &mut String, c: char)
    ensures
        final(s)@ == old(s)@.push(c),
;

/// The characters of `s` that are not `c`, in order.
pub open spec fn without_char(s: Seq<char>, c: char) -> Seq<char>
    decreases s.len(),
{
    if s.len() == 0 {
        Seq::empty()
    } else if s.last() == c {
        without_char(s.drop_last(), c)
    } else {
        without_char(s.drop_last(), c).push(s.last())
    }
}

/// A copy of `s` with every occurrence of `c` left out.
pub fn remove_char(s: &str, c: char) -> (r: String)
    ensures
        r@ == without_char(s@, c),
{
    let mut out = String::new();
    for x in it: s.chars()
        invariant
            it.seq() == s@,
            out@ == without_char(s@.take(it.index() as int), c),
    {
        proof {
            let k = it.index() as int;
            assert(s@.take(k + 1).drop_last() == s@.take(k));
            assert(s@.take(k + 1).last() == x);
        }
        if x != c {
            out.push(x);
        }
    }
    proof {
        assert(s@.take(s@.len() as int) == s@);
    }
    out
}

/// `s` read from the left, each pair of adjacent spaces replaced by one space.
/// A pair that has been replaced is not looked at again: four spaces become two.
pub open spec fn halved_spaces(s: Seq<char>) -> Seq<char>
    decreases s.len(),
{
    if s.len() == 0 {
        s
    } else if s.len() >= 2 && s[0] == ' ' && s[1] == ' ' {
        seq![' '] + halved_spaces(s.skip(2))
    } else {
        seq![s[0]] + halved_spaces(s.skip(1))
    }
}

/// The space that has been read and not yet written, if there is one.
spec fn held_space(pending: bool) -> Seq<char> {
    if pending {
        seq![' ']
    } else {
        Seq::empty()
    }
}

/// A copy of `s` in which each pair of adjacent spaces, found from the left,
/// is one space.
pub fn halve_spaces(s: &str) -> (r: String)
    ensures
        r@ == halved_spaces(s@),
{
    let mut out = String::new();
    let mut pending = false;
    proof {
        assert(held_space(false) + s@.skip(0) =~= s@);
        assert(out@ + halved_spaces(s@) =~= halved_spaces(s@));
    }
    for x in it: s.chars()
        invariant
            it.seq() == s@,
            halved_spaces(s@) == out@ + halved_spaces(held_space(pending) + s@.skip(it.index() as int)),
    {
        let ghost before = out@;
        let ghost k = it.index() as int;
        let ghost rest = s@.skip(k);
        let ghost next = s@.skip(k + 1);
        proof {
            assert(rest[0] == x);
            assert(rest.skip(1) =~= next);
            assert(held_space(false) + next =~= next);
            assert(held_space(false) + rest =~= rest);
            if pending {
                let both = seq![' '] + rest;
                assert(both[0] == ' ' && both[1] == x);
                assert(both.skip(2) =~= next);
                assert(both.skip(1) =~= rest);
            } else if x == ' ' {
                assert(seq![' '] + next =~= rest);
            }
        }
        if pending {
            out.push(' ');
            if x != ' ' {
                out.push(x);
                proof {
                    let both = seq![' '] + rest;
                    assert(halved_spaces(both) == seq![' '] + halved_spaces(both.skip(1)));
                    assert(halved_spaces(rest) == seq![x] + halved_spaces(rest.skip(1)));
                    assert(out@ + halved_spaces(next) =~= before + (seq![' '] + (seq![x]
                        + halved_spaces(next))));
                }
            } else {
                proof {
                    let both = seq![' '] + rest;
                    assert(halved_spaces(both) == seq![' '] + halved_spaces(both.skip(2)));
                    assert(out@ + halved_spaces(next) =~= before + (seq![' '] + halved_spaces(next)));
                }
            }
            pending = false;
        } else if x == ' ' {
            pending = true;
        } else {
            out.push(x);
            proof {
                assert(halved_spaces(rest) == seq![x] + halved_spaces(rest.skip(1)));
                assert(out@ + halved_spaces(next) =~= before + (seq![x] + halved_spaces(next)));
            }
        }
    }
    proof {
        let tail = held_space(pending) + s@.skip(s@.len() as int);
        assert(tail =~= held_space(pending));
        if pending {
            assert(tail.skip(1) =~= Seq::<char>::empty());
            assert(halved_spaces(tail.skip(1)) =~= Seq::<char>::empty());
            assert(halved_spaces(tail) =~= seq![' ']);
            assert(out@ + halved_spaces(tail) =~= out@.push(' '));
        } else {
            assert(out@ + halved_spaces(tail) =~= out@);
        }
    }
    if pending {
        out.push(' ');
    }
    out
}

/// A query text on one line: the line feeds taken out, then the spaces halved.
pub open spec fn compacted(s: Seq<char>) -> Seq<char> {
    halved_spaces(without_char(s, '\n'))
}

/// `s` on one line, as `compacted` states it.
pub fn compact(s: &str) -> (r: String)
    ensures
        r@ == compacted(s@),
{
    let joined = remove_char(s, '\n');
    halve_spaces(joined.as_str())
}

/// The decimal digit that stands for `d`.
pub open spec fn digit_char(d: int) -> char {
    if d == 0 {
        '0'
    } else if d == 1 {
        '1'
    } else if d == 2 {
        '2'
    } else if d == 3 {
        '3'
    } else if d == 4 {
        '4'
    } else if d == 5 {
        '5'
    } else if d == 6 {
        '6'
    } else if d == 7 {
        '7'
    } else if d == 8 {
        '8'
    } else {
        '9'
    }
}

/// The decimal digits of `n`, without leading zeros.
pub open spec fn digits(n: nat) -> Seq<char>
    decreases n,
{
    if n < 10 {
        seq![digit_char(n as int)]
    } else {
        digits(n / 10).push(digit_char((n % 10) as int))
    }
}

/// `n` in decimal, with a minus sign where it is negative.
pub open spec fn decimal(n: int) -> Seq<char> {
    if n < 0 {
        seq!['-'] + digits((-n) as nat)
    } else {
        digits(n as nat)
    }
}

fn digit_of(d: u64) -> (c: char)
    requires
        d < 10,
    ensures
        c == digit_char(d as int),
{
    if d == 0 {
        '0'
    } else if d == 1 {
        '1'
    } else if d == 2 {
        '2'
    } else if d == 3 {
        '3'
    } else if d == 4 {
        '4'
    } else if d == 5 {
        '5'
    } else if d == 6 {
        '6'
    } else if d == 7 {
        '7'
    } else if d == 8 {
        '8'
    } else {
        '9'
    }
}

fn push_digits(out: &mut String, n: u64)
    ensures
        final(out)@ == old(out)@ + digits(n as nat),
    decreases n,
{
    if n >= 10 {
        push_digits(out, n / 10);
    }
    out.push(digit_of(n % 10));
}

/// Appends `n` in decimal to `out`.
pub fn push_decimal(out: &mut String, n: i64)
    ensures
        final(out)@ == old(out)@ + decimal(n as int),
{
    if n < 0 {
        out.push('-');
        let magnitude: u64 = if n == i64::MIN {
            9223372036854775808u64
        } else {
            (-n) as u64
        };
        push_digits(out, magnitude);
    } else {
        push_digits(out, n as u64);
    }
}

/// `n` in decimal.
pub fn render_decimal(n: i64) -> (r: String)
    ensures
        r@ == decimal(n as int),
{
    let mut out = String::new();
    push_decimal(&mut out, n);
    out
}

/// Whether two texts hold the same characters.
pub fn same_text(a: &str, b: &str) -> (r: bool)
    ensures
        r == (a@ == b@),
{
    let mut other = b.chars();
    for x in it: a.chars()
        invariant
            it.seq() == a@,
            other.obeys_prophetic_iter_laws(),
            it.index() <= b@.len(),
            other.remaining() == b@.skip(it.index() as int),
            a@.take(it.index() as int) == b@.take(it.index() as int),
    {
        let ghost k = it.index() as int;
        match other.next() {
            Some(y) => {
                if x != y {
                    proof {
                        assert(a@[k] != b@[k]);
                    }
                    return false;
                }
                proof {
                    assert(b@.skip(k).drop_first() =~= b@.skip(k + 1));
                    assert(a@.take(k + 1) =~= a@.take(k).push(x));
                    assert(b@.take(k + 1) =~= b@.take(k).push(y));
                }
            },
            None => {
                proof {
                    assert(b@.skip(k).len() == 0);
                    assert(a@.len() > b@.len());
                }
                return false;
            },
        }
    }
    proof {
        assert(a@.take(a@.len() as int) =~= a@);
        if b@.len() == a@.len() {
            assert(b@.take(a@.len() as int) =~= b@);
        }
    }
    other.next().is_none()
}

/// A copy of `a` followed by a copy of `b`.
pub fn join(a: &str, b: &str) -> (r: String)
    ensures
        r@ == a@ + b@,
{
    let mut out = a.to_owned();
    out.append(b);
    out
}

/// The runs of `s` between occurrences of `sep`: one more run than there are
/// occurrences, empty runs included.
pub open spec fn pieces(s: Seq<char>, sep: char) -> Seq<Seq<char>>
    decreases s.len(),
{
    if s.len() == 0 {
        seq![Seq::empty()]
    } else {
        let before = pieces(s.drop_last(), sep);
        if s.last() == sep {
            before.push(Seq::empty())
        } else {
            before.drop_last().push(before.last().push(s.last()))
        }
    }
}

/// The runs of `s` between occurrences of `sep`.
pub fn split(s: &str, sep: char) -> (r: Vec<String>)
    ensures
        r.deep_view() == pieces(s@, sep),
        r@.len() >= 1,
{
    let mut done: Vec<String> = Vec::new();
    let mut current = String::new();
    for x in it: s.chars()
        invariant
            it.seq() == s@,
            pieces(s@.take(it.index() as int), sep) == done.deep_view().push(current@),
    {
        let ghost k = it.index() as int;
        let ghost before = done.deep_view();
        let ghost run = current@;
        proof {
            assert(s@.take(k + 1).drop_last() =~= s@.take(k));
            assert(s@.take(k + 1).last() == x);
            assert(before.push(run).drop_last() =~= before);
        }
        if x == sep {
            done.push(current);
            current = String::new();
            proof {
                assert(done.deep_view() =~= before.push(run));
            }
        } else {
            current.push(x);
        }
    }
    let ghost before = done.deep_view();
    proof {
        assert(s@.take(s@.len() as int) =~= s@);
    }
    done.push(current);
    proof {
        assert(done.deep_view() =~= before.push(current@));
    }
    done
}

/// The value of a decimal digit, where `c` is one.
pub open spec fn digit_value(c: char) -> Option<int> {
    if c == '0' {
        Some(0)
    } else if c == '1' {
        Some(1)
    } else if c == '2' {
        Some(2)
    } else if c == '3' {
        Some(3)
    } else if c == '4' {
        Some(4)
    } else if c == '5' {
        Some(5)
    } else if c == '6' {
        Some(6)
    } else if c == '7' {
        Some(7)
    } else if c == '8' {
        Some(8)
    } else if c == '9' {
        Some(9)
    } else {
        None
    }
}

/// The number that a run of decimal digits stands for; nothing where a
/// character is no digit. The empty run stands for zero.
pub open spec fn digits_value(s: Seq<char>) -> Option<int>
    decreases s.len(),
{
    if s.len() == 0 {
        Some(0)
    } else {
        match (digits_value(s.drop_last()), digit_value(s.last())) {
            (Some(high), Some(low)) => Some(high * 10 + low),
            _ => None,
        }
    }
}

/// Whether `s` starts with a sign.
pub open spec fn has_sign(s: Seq<char>) -> bool {
    s.len() > 0 && (s[0] == '-' || s[0] == '+')
}

/// The integer that `s` stands for: an optional sign, then one digit or more.
pub open spec fn integer_value(s: Seq<char>) -> Option<int> {
    let body = if has_sign(s) {
        s.skip(1)
    } else {
        s
    };
    if body.len() == 0 {
        None
    } else {
        match digits_value(body) {
            Some(v) => Some(
                if has_sign(s) && s[0] == '-' {
                    -v
                } else {
                    v
                },
            ),
            None => None,
        }
    }
}

/// The `i32` that `s` stands for; nothing where `s` is no integer or the
/// integer does not fit.
pub open spec fn i32_value(s: Seq<char>) -> Option<i32> {
    match integer_value(s) {
        Some(v) => if -2147483648 <= v <= 2147483647 {
            Some(v as i32)
        } else {
            None
        },
        None => None,
    }
}

fn value_of_digit(c: char) -> (r: Option<i64>)
    ensures
        match r {
            Some(d) => digit_value(c) == Some(d as int) && 0 <= d <= 9,
            None => digit_value(c) is None,
        },
{
    if c == '0' {
        Some(0)
    } else if c == '1' {
        Some(1)
    } else if c == '2' {
        Some(2)
    } else if c == '3' {
        Some(3)
    } else if c == '4' {
        Some(4)
    } else if c == '5' {
        Some(5)
    } else if c == '6' {
        Some(6)
    } else if c == '7' {
        Some(7)
    } else if c == '8' {
        Some(8)
    } else if c == '9' {
        Some(9)
    } else {
        None
    }
}

/// Reads an `i32` written in decimal, as `i32_value` states it.
pub fn parse_i32(s: &str) -> (r: Option<i32>)
    ensures
        r == i32_value(s@),
{
    let mut signed = false;
    let mut negative = false;
    let ghost mut count: int = 0;
    let mut any = false;
    // The digits read so far stand for `value` unless `large` is set; then
    // they stand for more than any `i32` holds.
    let mut value: i64 = 0;
    let mut large = false;
    let mut valid = true;
    let mut first = true;
    let ghost body = if has_sign(s@) { s@.skip(1) } else { s@ };
    proof {
        assert(body.take(0) =~= Seq::<char>::empty());
    }
    for x in it: s.chars()
        invariant
            it.seq() == s@,
            body == (if has_sign(s@) { s@.skip(1) } else { s@ }),
            it.index() > 0 ==> signed == has_sign(s@),
            it.index() == 0 ==> !signed,
            first == (it.index() == 0),
            signed ==> negative == (s@[0] == '-'),
            !signed ==> !negative,
            0 <= count <= it.index(),
            any == (count > 0),
            it.index() > 0 ==> count == it.index() - (if signed { 1int } else { 0int }),
            it.index() == 0 ==> count == 0,
            valid ==> match digits_value(body.take(count)) {
                Some(v) => if large { v > 2147483648 } else { v == value && 0 <= value <= 2147483648 },
                None => false,
            },
            !valid ==> digits_value(body.take(count)) is None,
    {
        if first && (x == '-' || x == '+') {
            signed = true;
            negative = x == '-';
        } else {
            proof {
                assert(body[count] == x);
                assert(body.take(count + 1).drop_last() =~= body.take(count));
                assert(body.take(count + 1).last() == x);
            }
            match value_of_digit(x) {
                Some(d) => {
                    if valid && !large {
                        let next = value * 10 + d;
                        if next > 2147483648 {
                            large = true;
                        } else {
                            value = next;
                        }
                    }
                },
                None => {
                    valid = false;
                },
            }
            proof {
                count = count + 1;
            }
            any = true;
        }
        first = false;
    }
    proof {
        assert(body.take(body.len() as int) =~= body);
        if s@.len() > 0 {
            assert(count == body.len());
        }
    }
    if !any || !valid || large {
        None
    } else if negative {
        Some((-value) as i32)
    } else if value > 2147483647 {
        None
    } else {
        Some(value as i32)
    }
}

} // verus!
