//! Text helpers: decimal numbers, readings, and whether two texts are the same or in order.

use vstd::prelude::*;

verus! {

/// The ASCII digit for `d`, which is below ten.
pub open spec fn digit_char(d: nat) -> char {
    ('0' as nat + d) as char
}

/// The decimal form of `n`, without leading zeros.
pub open spec fn decimal(n: nat) -> Seq<char>
    decreases n,
{
    if n < 10 {
        seq![digit_char(n)]
    } else {
        decimal(n / 10).push(digit_char(n % 10))
    }
}

/// Whether `a` comes before `b` when text is ordered by code points, the first difference deciding
/// and a proper prefix coming first.
pub open spec fn text_before(a: Seq<char>, b: Seq<char>) -> bool
    decreases a.len(),
{
    if b.len() == 0 {
        false
    } else if a.len() == 0 {
        true
    } else if a[0] != b[0] {
        a[0] < b[0]
    } else {
        text_before(a.drop_first(), b.drop_first())
    }
}

/// No text comes before itself, and of two texts at most one comes before the other.
pub proof fn text_before_is_asymmetric(a: Seq<char>, b: Seq<char>)
    ensures
        !(text_before(a, b) && text_before(b, a)),
    decreases a.len(),
{
    if a.len() > 0 && b.len() > 0 && a[0] == b[0] {
        text_before_is_asymmetric(a.drop_first(), b.drop_first());
    }
}

/// Of two different texts, one comes before the other.
pub proof fn text_before_is_total(a: Seq<char>, b: Seq<char>)
    ensures
        a == b || text_before(a, b) || text_before(b, a),
    decreases a.len(),
{
    if a.len() == 0 && b.len() == 0 {
        assert(a =~= b);
    } else if a.len() > 0 && b.len() > 0 && a[0] == b[0] {
        text_before_is_total(a.drop_first(), b.drop_first());
        if a.drop_first() == b.drop_first() {
            assert(a =~= seq![a[0]] + a.drop_first());
            assert(b =~= seq![b[0]] + b.drop_first());
        }
    }
}

/// The order on texts is transitive.
pub proof fn text_before_is_transitive(a: Seq<char>, b: Seq<char>, c: Seq<char>)
    requires
        text_before(a, b),
        text_before(b, c),
    ensures
        text_before(a, c),
    decreases a.len(),
{
    if a.len() > 0 && b.len() > 0 && c.len() > 0 && a[0] == b[0] && b[0] == c[0] {
        text_before_is_transitive(a.drop_first(), b.drop_first(), c.drop_first());
    }
}

/// The characters of a text.
pub fn chars_of(s: &str) -> (chars: Vec<char>)
    ensures
        chars@ == s@,
{
    let mut chars: Vec<char> = Vec::new();
    for c in it: s.chars()
        invariant
            chars@ == it.seq().take(it.index()),
            it.seq() == s@,
    {
        chars.push(c);
        assert(it.seq().take(it.index() + 1) =~= it.seq().take(it.index()).push(c));
    }
    assert(s@.take(s@.len() as int) =~= s@);
    chars
}

/// Whether two texts are the same.
pub fn same_text(a: &str, b: &str) -> (same: bool)
    ensures
        same == (a@ == b@),
{
    a.to_string() == b.to_string()
}

/// Whether `a` comes before `b`.
pub fn comes_before(a: &str, b: &str) -> (before: bool)
    ensures
        before == text_before(a@, b@),
{
    let left: Vec<char> = chars_of(a);
    let right: Vec<char> = chars_of(b);
    let mut i: usize = 0;
    assert(left@.skip(0) =~= left@);
    assert(right@.skip(0) =~= right@);
    while i < left.len() && i < right.len()
        invariant
            i <= left.len(),
            i <= right.len(),
            left@ == a@,
            right@ == b@,
            text_before(left@, right@) == text_before(left@.skip(i as int), right@.skip(i as int)),
        decreases left.len() - i,
    {
        if left[i] != right[i] {
            return left[i] < right[i];
        }
        assert(left@.skip(i as int).drop_first() =~= left@.skip(i + 1));
        assert(right@.skip(i as int).drop_first() =~= right@.skip(i + 1));
        i += 1;
    }
    left.len() < right.len()
}

/// Whether `read` can be what `parse` makes of a text.
pub open spec fn reads_as<T, P: Fn(&str) -> Option<T>>(
    parse: P,
    text: Seq<char>,
    read: Option<T>,
) -> bool {
    exists|t: &str| t@ == text && #[trigger] call_ensures(parse, (t,), read)
}

fn digit_text(d: u64) -> (t: &'static str)
    requires
        d < 10,
    ensures
        t@ == seq![digit_char(d as nat)],
{
    proof {
        reveal_strlit("0");
        reveal_strlit("1");
        reveal_strlit("2");
        reveal_strlit("3");
        reveal_strlit("4");
        reveal_strlit("5");
        reveal_strlit("6");
        reveal_strlit("7");
        reveal_strlit("8");
        reveal_strlit("9");
    }
    match d {
        0 => "0",
        1 => "1",
        2 => "2",
        3 => "3",
        4 => "4",
        5 => "5",
        6 => "6",
        7 => "7",
        8 => "8",
        _ => "9",
    }
}

/// Writes `n` in decimal.
pub fn decimal_text(n: u64) -> (t: String)
    ensures
        t@ == decimal(n as nat),
    decreases n,
{
    if n < 10 {
        digit_text(n).to_string()
    } else {
        let mut t: String = decimal_text(n / 10);
        t.append(digit_text(n % 10));
        assert(t@ =~= decimal((n / 10) as nat).push(digit_char((n % 10) as nat)));
        t
    }
}

/// The first difference decides which text comes first, by the code points of the two characters, and
/// whatever follows it does not matter; a text comes before every longer one that it begins.
pub proof fn first_difference_decides(
    common: Seq<char>,
    x: char,
    y: char,
    left: Seq<char>,
    right: Seq<char>,
)
    requires
        x as u32 != y as u32,
    ensures
        text_before(common + seq![x] + left, common + seq![y] + right) == ((x as u32) < (y as u32)),
        text_before(common, common + seq![y] + right),
        !text_before(common + seq![x] + left, common),
    decreases common.len(),
{
    let a = common + seq![x] + left;
    let b = common + seq![y] + right;
    if common.len() > 0 {
        let rest = common.drop_first();
        first_difference_decides(rest, x, y, left, right);
        assert(a.drop_first() =~= rest + seq![x] + left);
        assert(b.drop_first() =~= rest + seq![y] + right);
        assert(a[0] == common[0] && b[0] == common[0]);
    } else {
        assert(a[0] == x && b[0] == y);
    }
}

/// A number in decimal consists of ASCII digits, reads back as the number from left to right, and has
/// no zero in front unless it is zero.
pub proof fn decimal_reads_back(n: nat)
    ensures
        decimal(n).fold_left(0int, |value: int, c: char| value * 10 + (c as int - 48)) == n,
        forall|i: int| 0 <= i < decimal(n).len() ==> 48 <= (#[trigger] decimal(n)[i]) as u32 <= 57,
        decimal(n).len() >= 1,
        n > 0 ==> decimal(n)[0] as u32 != 48,
        n == 0 ==> decimal(n).len() == 1,
    decreases n,
{
    let d = decimal(n);
    reveal_with_fuel(Seq::fold_left, 2);
    if n < 10 {
        assert(d.drop_last() =~= Seq::<char>::empty());
    } else {
        decimal_reads_back(n / 10);
        assert(d.drop_last() =~= decimal(n / 10));
    }
}

/// What can be read from a text depends on that text alone: where `parse` makes `want` of it, nothing
/// else can be read.
pub proof fn readings_are_of_the_text<T, P: Fn(&str) -> Option<T>>(
    parse: P,
    text: Seq<char>,
    read: Option<T>,
    want: Option<T>,
)
    requires
        forall|t: &str, r: Option<T>|
            t@ == text && #[trigger] call_ensures(parse, (t,), r) ==> r == want,
        reads_as(parse, text, read),
    ensures
        read == want,
{
}

} // verus!
