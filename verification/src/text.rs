//! Text helpers: the order of table names, decimal numbers and path joining.
use vstd::prelude::*;
use vstd::string::*;

verus! {

/// `a` comes strictly before `b` in lexicographic order of code points.
/// This is the order of `String` in std, since UTF-8 preserves code point order.
pub open spec fn chars_lt(a: Seq<char>, b: Seq<char>) -> bool
    decreases a.len(),
{
    if a.len() == 0 {
        b.len() > 0
    } else if b.len() == 0 {
        false
    } else if a[0] != b[0] {
        (a[0] as int) < (b[0] as int)
    } else {
        chars_lt(a.drop_first(), b.drop_first())
    }
}

/// No name comes before itself.
pub proof fn lemma_chars_lt_irreflexive(a: Seq<char>)
    ensures
        !chars_lt(a, a),
    decreases a.len(),
{
    if a.len() > 0 {
        lemma_chars_lt_irreflexive(a.drop_first());
    }
}

/// Of two different names exactly one comes first.
pub proof fn lemma_chars_lt_total(a: Seq<char>, b: Seq<char>)
    requires
        a != b,
    ensures
        chars_lt(a, b) != chars_lt(b, a),
    decreases a.len(),
{
    if a.len() > 0 && b.len() > 0 && a[0] == b[0] {
        if a.drop_first() == b.drop_first() {
            assert(a =~= seq![a[0]] + a.drop_first());
            assert(b =~= seq![b[0]] + b.drop_first());
        }
        lemma_chars_lt_total(a.drop_first(), b.drop_first());
    } else if a.len() > 0 && b.len() > 0 {
        assert((a[0] as int) != (b[0] as int));
    } else if a.len() == 0 && b.len() == 0 {
        assert(a =~= b);
    }
}

/// The order is transitive.
pub proof fn lemma_chars_lt_transitive(a: Seq<char>, b: Seq<char>, c: Seq<char>)
    requires
        chars_lt(a, b),
        chars_lt(b, c),
    ensures
        chars_lt(a, c),
    decreases a.len(),
{
    if a.len() > 0 && b.len() > 0 && c.len() > 0 && a[0] == b[0] && b[0] == c[0] {
        lemma_chars_lt_transitive(a.drop_first(), b.drop_first(), c.drop_first());
    }
}

/// Whether `a` comes strictly before `b` in the order of `String`.
pub fn name_precedes(a: &str, b: &str) -> (r: bool)
    ensures
        r == chars_lt(a@, b@),
{
    let la = a.unicode_len();
    let lb = b.unicode_len();
    let mut i: usize = 0;
    assert(a@.skip(0) =~= a@);
    assert(b@.skip(0) =~= b@);
    while i < la && i < lb
        invariant
            la == a@.len(),
            lb == b@.len(),
            i <= la,
            i <= lb,
            chars_lt(a@, b@) == chars_lt(a@.skip(i as int), b@.skip(i as int)),
        decreases la - i,
    {
        let ca = a.get_char(i);
        let cb = b.get_char(i);
        if ca != cb {
            return ca < cb;
        }
        assert(a@.skip(i as int).drop_first() =~= a@.skip(i + 1));
        assert(b@.skip(i as int).drop_first() =~= b@.skip(i + 1));
        i = i + 1;
    }
    la < lb
}

/// The decimal digit for `d`, which is below ten.
pub open spec fn digit_char(d: nat) -> char {
    if d == 0 {
        '0'
    } else if d == 1 {
        '1'
    } else if d == 2 {
        '2'
    } else if d == 3 {
        '3'
    } else if d == 4 {
        '4'
    } else if d == 5 {
        '5'
    } else if d == 6 {
        '6'
    } else if d == 7 {
        '7'
    } else if d == 8 {
        '8'
    } else {
        '9'
    }
}

/// The decimal notation of `n`, without leading zeros, as `Display` writes it.
pub open spec fn decimal(n: nat) -> Seq<char>
    decreases n,
{
    if n < 10 {
        seq![digit_char(n)]
    } else {
        decimal(n / 10).push(digit_char(n % 10))
    }
}

fn digit_str(d: u16) -> (r: &'static str)
    requires
        d < 10,
    ensures
        r@ == seq![digit_char(d as nat)],
{
    proof {
        reveal_strlit("0");
        reveal_strlit("1");
        reveal_strlit("2");
        reveal_strlit("3");
        reveal_strlit("4");
        reveal_strlit("5");
        reveal_strlit("6");
        reveal_strlit("7");
        reveal_strlit("8");
        reveal_strlit("9");
    }
    if d == 0 {
        "0"
    } else if d == 1 {
        "1"
    } else if d == 2 {
        "2"
    } else if d == 3 {
        "3"
    } else if d == 4 {
        "4"
    } else if d == 5 {
        "5"
    } else if d == 6 {
        "6"
    } else if d == 7 {
        "7"
    } else if d == 8 {
        "8"
    } else {
        "9"
    }
}

/// Writes `n` in decimal notation.
pub fn decimal_string(n: u16) -> (r: String)
    ensures
        r@ == decimal(n as nat),
    decreases n,
{
    if n < 10 {
        String::from_str(digit_str(n))
    } else {
        let mut s = decimal_string(n / 10);
        s.append(digit_str(n % 10));
        s
    }
}

/// The path of `part` inside the directory `base`, as `Path::join` writes it
/// for a relative `part` on Unix: a separator goes between them unless `base`
/// is empty or already ends in one.
pub open spec fn path_join(base: Seq<char>, part: Seq<char>) -> Seq<char> {
    if base.len() == 0 {
        part
    } else if base.last() == '/' {
        base + part
    } else {
        base + seq!['/'] + part
    }
}

/// Joins `part` to the directory `base`.
pub fn join_path(base: &str, part: &str) -> (r: String)
    ensures
        r@ == path_join(base@, part@),
{
    proof {
        reveal_strlit("/");
    }
    let n = base.unicode_len();
    if n == 0 {
        String::from_str(part)
    } else if base.get_char(n - 1) == '/' {
        let mut s = String::from_str(base);
        s.append(part);
        s
    } else {
        let mut s = String::from_str(base);
        s.append("/");
        s.append(part);
        assert(s@ =~= base@ + seq!['/'] + part@);
        s
    }
}

/// The number that a string of decimal digits denotes, most significant digit first.
pub open spec fn digits_value(s: Seq<char>) -> int
    decreases s.len(),
{
    if s.len() == 0 {
        0
    } else {
        digits_value(s.drop_last()) * 10 + ((s.last() as int) - ('0' as int))
    }
}

/// Each digit stands for its code point less that of '0'.
pub proof fn law_digit_char_value(d: nat)
    requires
        d < 10,
    ensures
        (digit_char(d) as int) == ('0' as int) + d,
{
}

/// `decimal(n)` is written in the digits '0' to '9' only, and reads back as `n`:
/// each digit stands for its code point less that of '0'.
pub proof fn law_decimal_reads_back(n: nat)
    ensures
        digits_value(decimal(n)) == n,
        decimal(n).len() > 0,
        forall|k: int|
            0 <= k < decimal(n).len() ==> ('0' as int) <= (#[trigger] decimal(n)[k] as int) <= (
            '9' as int),
    decreases n,
{
    if n < 10 {
        law_digit_char_value(n);
        assert(decimal(n).drop_last() =~= Seq::<char>::empty());
        assert(decimal(n).last() == digit_char(n));
        assert(digits_value(decimal(n)) == digits_value(decimal(n).drop_last()) * 10 + ((
        decimal(n).last() as int) - ('0' as int)));
    } else {
        law_digit_char_value(n % 10);
        law_decimal_reads_back(n / 10);
        let d = decimal(n);
        assert(d.drop_last() =~= decimal(n / 10));
        assert(d.last() == digit_char(n % 10));
        assert((n / 10) * 10 + n % 10 == n) by (nonlinear_arith);
        assert(digits_value(d) == digits_value(d.drop_last()) * 10 + ((d.last() as int) - (
        '0' as int)));
        assert(digits_value(d) == (n / 10) * 10 + n % 10);
        assert forall|k: int| 0 <= k < d.len() implies ('0' as int) <= (#[trigger] d[k] as int) <= (
        '9' as int) by {
            if k < d.len() - 1 {
                assert(d[k] == decimal(n / 10)[k]);
            }
        }
    }
}

/// Different numbers are written differently, so different table ids get
/// different file names.
pub proof fn law_decimal_injective(a: nat, b: nat)
    ensures
        decimal(a) == decimal(b) ==> a == b,
{
    law_decimal_reads_back(a);
    law_decimal_reads_back(b);
}

/// `b` is `a` followed by more characters.
pub open spec fn proper_prefix(a: Seq<char>, b: Seq<char>) -> bool {
    a.len() < b.len() && b.take(a.len() as int) == a
}

/// `a` and `b` agree before position `i`, and at `i` the character of `a` has
/// the lower code point.
pub open spec fn first_difference_below(a: Seq<char>, b: Seq<char>, i: int) -> bool {
    &&& 0 <= i < a.len()
    &&& i < b.len()
    &&& a.take(i) == b.take(i)
    &&& (a[i] as int) < (b[i] as int)
}

/// The order of names is the lexicographic order of code points, which is
/// the order of `String`: `a` comes before `b` exactly when `a` is a proper
/// prefix of `b`, or at the first position where they differ the character
/// of `a` has the lower code point.
pub proof fn law_name_order_is_code_point_order(a: Seq<char>, b: Seq<char>)
    ensures
        chars_lt(a, b) <==> proper_prefix(a, b) || exists|i: int|
            #[trigger] first_difference_below(a, b, i),
    decreases a.len(),
{
    if a.len() == 0 {
        if b.len() > 0 {
            assert(b.take(0) =~= a);
        }
    } else if b.len() == 0 {
    } else if a[0] != b[0] {
        if proper_prefix(a, b) {
            assert(b.take(a.len() as int)[0] == b[0]);
        }
        if exists|i: int| #[trigger] first_difference_below(a, b, i) {
            let i = choose|i: int| #[trigger] first_difference_below(a, b, i);
            if i > 0 {
                assert(a.take(i)[0] == b.take(i)[0]);
            }
        }
        if (a[0] as int) < (b[0] as int) {
            assert(a.take(0) =~= b.take(0));
            assert(first_difference_below(a, b, 0));
        }
    } else {
        let a2 = a.drop_first();
        let b2 = b.drop_first();
        law_name_order_is_code_point_order(a2, b2);
        if proper_prefix(a, b) {
            assert(b2.take(a2.len() as int) =~= b.take(a.len() as int).drop_first());
        }
        if proper_prefix(a2, b2) {
            assert(b.take(a.len() as int) =~= seq![b[0]] + b2.take(a2.len() as int));
            assert(a =~= seq![a[0]] + a2);
        }
        if exists|i: int| #[trigger] first_difference_below(a, b, i) {
            let i = choose|i: int| #[trigger] first_difference_below(a, b, i);
            assert(i > 0);
            assert(a2.take(i - 1) =~= a.take(i).drop_first());
            assert(b2.take(i - 1) =~= b.take(i).drop_first());
            assert(first_difference_below(a2, b2, i - 1));
        }
        if exists|i: int| #[trigger] first_difference_below(a2, b2, i) {
            let i = choose|i: int| #[trigger] first_difference_below(a2, b2, i);
            assert(a.take(i + 1) =~= seq![a[0]] + a2.take(i));
            assert(b.take(i + 1) =~= seq![b[0]] + b2.take(i));
            assert(first_difference_below(a, b, i + 1));
        }
    }
}

/// Of two one-character names, the one of the lower code point comes first.
pub proof fn law_name_order_of_characters(x: char, y: char)
    ensures
        chars_lt(seq![x], seq![y]) <==> (x as int) < (y as int),
{
    reveal_with_fuel(chars_lt, 2);
    assert(seq![x].drop_first() =~= Seq::<char>::empty());
    assert(seq![y].drop_first() =~= Seq::<char>::empty());
}

/// Joining different parts to the same directory gives different paths.
pub proof fn law_path_join_injective(base: Seq<char>, x: Seq<char>, y: Seq<char>)
    ensures
        path_join(base, x) == path_join(base, y) ==> x == y,
{
    if path_join(base, x) == path_join(base, y) {
        let p = if base.len() == 0 {
            Seq::<char>::empty()
        } else if base.last() == '/' {
            base
        } else {
            base + seq!['/']
        };
        assert(path_join(base, x) =~= p + x);
        assert(path_join(base, y) =~= p + y);
        assert(x =~= (p + x).skip(p.len() as int));
        assert(y =~= (p + y).skip(p.len() as int));
    }
}

/// Different numbers followed by the same suffix are different names.
pub proof fn law_decimal_with_suffix_injective(a: nat, b: nat, suffix: Seq<char>)
    ensures
        decimal(a) + suffix == decimal(b) + suffix ==> a == b,
{
    if decimal(a) + suffix == decimal(b) + suffix {
        let sa = decimal(a) + suffix;
        assert(decimal(a) =~= sa.take(decimal(a).len() as int));
        assert(decimal(b) =~= sa.take(decimal(b).len() as int));
        law_decimal_injective(a, b);
    }
}

} // verus!
