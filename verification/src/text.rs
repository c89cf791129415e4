//! Helpers on text: comparing, joining, numbers in digits, names by segments,
//! and looking a name up in a list of names.
use vstd::prelude::*;
use vstd::string::StringExecFns;
use vstd::string::StrSliceExecFns;

verus! {

/// True exactly when the two strings hold the same characters.
pub fn same_text(a: &str, b: &str) -> (r: bool)
    ensures
        r == (a@ == b@),
{
    let x = a.to_owned();
    let y = b.to_owned();
    x == y
}

/// The concatenation of `a` and `b`.
pub fn join2(a: &str, b: &str) -> (r: String)
    ensures
        r@ == a@ + b@,
{
    let mut out = a.to_owned();
    out.append(b);
    out
}

/// The characters of each string of a list.
pub open spec fn texts(items: Seq<String>) -> Seq<Seq<char>> {
    Seq::new(items.len(), |i: int| items[i]@)
}

/// The character that stands for a digit.
pub open spec fn digit_char(d: nat) -> char {
    if d == 0 {
        '0'
    } else if d == 1 {
        '1'
    } else if d == 2 {
        '2'
    } else if d == 3 {
        '3'
    } else if d == 4 {
        '4'
    } else if d == 5 {
        '5'
    } else if d == 6 {
        '6'
    } else if d == 7 {
        '7'
    } else if d == 8 {
        '8'
    } else {
        '9'
    }
}

/// The decimal digits of a number, without leading zeros.
pub open spec fn decimal(n: nat) -> Seq<char>
    decreases n,
{
    if n < 10 {
        seq![digit_char(n)]
    } else {
        decimal(n / 10).push(digit_char(n % 10))
    }
}

/// The text of one digit.
fn digit_text(d: u64) -> (r: &'static str)
    requires
        d < 10,
    ensures
        r@ == seq![digit_char(d as nat)],
{
    proof {
        reveal_strlit("0");
        reveal_strlit("1");
        reveal_strlit("2");
        reveal_strlit("3");
        reveal_strlit("4");
        reveal_strlit("5");
        reveal_strlit("6");
        reveal_strlit("7");
        reveal_strlit("8");
        reveal_strlit("9");
    }
    let r = if d == 0 {
        "0"
    } else if d == 1 {
        "1"
    } else if d == 2 {
        "2"
    } else if d == 3 {
        "3"
    } else if d == 4 {
        "4"
    } else if d == 5 {
        "5"
    } else if d == 6 {
        "6"
    } else if d == 7 {
        "7"
    } else if d == 8 {
        "8"
    } else {
        "9"
    };
    assert(r@ =~= seq![digit_char(d as nat)]);
    r
}

/// A number in decimal digits.
pub fn decimal_text(n: u64) -> (r: String)
    ensures
        r@ == decimal(n as nat),
    decreases n,
{
    if n < 10 {
        digit_text(n).to_owned()
    } else {
        let mut out = decimal_text(n / 10);
        let last = digit_text(n % 10);
        out.append(last);
        assert(out@ =~= decimal((n / 10) as nat).push(digit_char((n % 10) as nat)));
        out
    }
}

/// Every number has at least one digit, and a number from ten on has at least
/// two.
pub proof fn lemma_decimal_len(n: nat)
    ensures
        decimal(n).len() >= 1,
        n >= 10 ==> decimal(n).len() >= 2,
    decreases n,
{
    if n >= 10 {
        lemma_decimal_len(n / 10);
    }
}

/// Different numbers are written with different digits.
pub proof fn lemma_decimal_injective(a: nat, b: nat)
    requires
        decimal(a) == decimal(b),
    ensures
        a == b,
    decreases a,
{
    lemma_decimal_len(a);
    lemma_decimal_len(b);
    if a < 10 && b < 10 {
        assert(decimal(a)[0] == digit_char(a));
        assert(decimal(b)[0] == digit_char(b));
    } else if a >= 10 && b >= 10 {
        let da = decimal(a / 10);
        let db = decimal(b / 10);
        assert(decimal(a).drop_last() =~= da);
        assert(decimal(b).drop_last() =~= db);
        assert(decimal(a).last() == digit_char(a % 10));
        assert(decimal(b).last() == digit_char(b % 10));
        lemma_decimal_injective(a / 10, b / 10);
        assert(a % 10 == b % 10);
    } else {
        assert(decimal(a).len() == decimal(b).len());
    }
}

/// Where the last segment of a path-like name begins: behind the last `::`
/// that ends at or before `upto`, or at the start where there is none.
pub open spec fn segment_start(name: Seq<char>, upto: int) -> int
    decreases upto,
{
    if upto < 2 {
        0
    } else if name[upto - 2] == ':' && name[upto - 1] == ':' {
        upto
    } else {
        segment_start(name, upto - 1)
    }
}

/// The last segment of a name whose segments are separated by `::`: what
/// follows the last `::`, or the whole name where it holds no `::`.
pub open spec fn last_segment(name: Seq<char>) -> Seq<char> {
    name.subrange(segment_start(name, name.len() as int), name.len() as int)
}

/// The short form of a name: its last segment.
pub fn short_name_of(name: &str) -> (r: &str)
    ensures
        r@ == last_segment(name@),
{
    let len = name.unicode_len();
    let mut i: usize = len;
    while i >= 2
        invariant
            i <= len,
            len == name@.len(),
            segment_start(name@, len as int) == segment_start(name@, i as int),
        decreases i,
    {
        if name.get_char(i - 2) == ':' && name.get_char(i - 1) == ':' {
            return name.substring_char(i, len);
        }
        i = i - 1;
    }
    name.substring_char(0, len)
}

/// The position of the last of `names` that is `name`, if there is one.
pub open spec fn last_index(names: Seq<Seq<char>>, name: Seq<char>) -> Option<int>
    decreases names.len(),
{
    if names.len() == 0 {
        None
    } else if names.last() == name {
        Some(names.len() - 1)
    } else {
        last_index(names.drop_last(), name)
    }
}

/// What `last_index` finds is a position of the name, and the name stands at
/// no later position.
pub proof fn lemma_last_index(names: Seq<Seq<char>>, name: Seq<char>)
    ensures
        match last_index(names, name) {
            Some(i) => 0 <= i < names.len() && names[i] == name && forall|j: int|
                i < j < names.len() ==> names[j] != name,
            None => forall|j: int| 0 <= j < names.len() ==> names[j] != name,
        },
    decreases names.len(),
{
    if names.len() > 0 && names.last() != name {
        let shorter = names.drop_last();
        lemma_last_index(shorter, name);
        assert(forall|j: int| 0 <= j < shorter.len() ==> shorter[j] == names[j]);
    }
}

/// A position of the name with no later position of it is the one that
/// `last_index` finds.
pub proof fn lemma_last_index_is(names: Seq<Seq<char>>, name: Seq<char>, i: int)
    requires
        0 <= i < names.len(),
        names[i] == name,
        forall|j: int| i < j < names.len() ==> names[j] != name,
    ensures
        last_index(names, name) == Some(i),
    decreases names.len(),
{
    if i < names.len() - 1 {
        lemma_last_index_is(names.drop_last(), name, i);
    }
}

/// Where the name stands at no position, `last_index` finds nothing.
pub proof fn lemma_last_index_none(names: Seq<Seq<char>>, name: Seq<char>)
    requires
        forall|j: int| 0 <= j < names.len() ==> names[j] != name,
    ensures
        last_index(names, name) is None,
    decreases names.len(),
{
    if names.len() > 0 {
        lemma_last_index_none(names.drop_last(), name);
    }
}

} // verus!
