//! Text helpers: leading marks and blanks, decimal numerals, file extensions.

use vstd::prelude::*;
use vstd::string::*;

verus! {

/// The byte-order mark as a character.
pub const BOM: char = '\u{feff}';

/// Whether `c` is a blank: a character with the Unicode `White_Space` property.
pub open spec fn is_blank(c: char) -> bool {
    let n = c as u32;
    ||| 0x09 <= n <= 0x0d
    ||| n == 0x20
    ||| n == 0x85
    ||| n == 0xa0
    ||| n == 0x1680
    ||| 0x2000 <= n <= 0x200a
    ||| n == 0x2028
    ||| n == 0x2029
    ||| n == 0x202f
    ||| n == 0x205f
    ||| n == 0x3000
}

/// Tells whether a character is a blank.
pub fn blank(c: char) -> (r: bool)
    ensures
        r == is_blank(c),
{
    let n: u32 = c as u32;
    (0x09 <= n && n <= 0x0d) || n == 0x20 || n == 0x85 || n == 0xa0 || n == 0x1680 || (0x2000 <= n
        && n <= 0x200a) || n == 0x2028 || n == 0x2029 || n == 0x202f || n == 0x205f || n == 0x3000
}

/// How many leading characters of `s` are the mark.
pub open spec fn leading_marks(s: Seq<char>) -> nat
    decreases s.len(),
{
    if s.len() > 0 && s[0] == BOM {
        1 + leading_marks(s.drop_first())
    } else {
        0
    }
}

/// How many leading characters of `s` are blanks.
pub open spec fn leading_blanks(s: Seq<char>) -> nat
    decreases s.len(),
{
    if s.len() > 0 && is_blank(s[0]) {
        1 + leading_blanks(s.drop_first())
    } else {
        0
    }
}

/// `s` without its leading marks, and then without the blanks that follow them.
pub open spec fn normalized(s: Seq<char>) -> Seq<char> {
    let t = s.skip(leading_marks(s) as int);
    t.skip(leading_blanks(t) as int)
}

/// The character for a decimal digit.
pub open spec fn digit_of(d: nat) -> char {
    if d == 0 {
        '0'
    } else if d == 1 {
        '1'
    } else if d == 2 {
        '2'
    } else if d == 3 {
        '3'
    } else if d == 4 {
        '4'
    } else if d == 5 {
        '5'
    } else if d == 6 {
        '6'
    } else if d == 7 {
        '7'
    } else if d == 8 {
        '8'
    } else {
        '9'
    }
}

/// The decimal numeral of `n`, without leading zeros.
pub open spec fn decimal_of(n: nat) -> Seq<char>
    decreases n,
{
    if n < 10 {
        seq![digit_of(n)]
    } else {
        decimal_of(n / 10).push(digit_of(n % 10))
    }
}

/// The one-character text of a decimal digit.
fn digit(d: u64) -> (r: &'static str)
    requires
        d < 10,
    ensures
        r@ == seq![digit_of(d as nat)],
{
    proof {
        reveal_strlit("0");
        reveal_strlit("1");
        reveal_strlit("2");
        reveal_strlit("3");
        reveal_strlit("4");
        reveal_strlit("5");
        reveal_strlit("6");
        reveal_strlit("7");
        reveal_strlit("8");
        reveal_strlit("9");
    }
    let r: &'static str = if d == 0 {
        "0"
    } else if d == 1 {
        "1"
    } else if d == 2 {
        "2"
    } else if d == 3 {
        "3"
    } else if d == 4 {
        "4"
    } else if d == 5 {
        "5"
    } else if d == 6 {
        "6"
    } else if d == 7 {
        "7"
    } else if d == 8 {
        "8"
    } else {
        "9"
    };
    assert(r@ =~= seq![digit_of(d as nat)]);
    r
}

/// Writes `n` as a decimal numeral.
pub fn decimal(n: u64) -> (r: String)
    ensures
        r@ == decimal_of(n as nat),
    decreases n,
{
    if n < 10 {
        digit(n).to_owned()
    } else {
        let mut r: String = decimal(n / 10);
        r.append(digit(n % 10));
        r
    }
}

/// Tells whether two texts hold the same characters.
pub fn same_text(a: &str, b: &str) -> (r: bool)
    ensures
        r == (a@ == b@),
{
    let left: String = a.to_owned();
    let right: String = b.to_owned();
    left == right
}

/// The index of the last `.` in a file name.
pub open spec fn last_dot(name: Seq<char>) -> Option<int>
    decreases name.len(),
{
    if name.len() == 0 {
        None
    } else if name.last() == '.' {
        Some(name.len() - 1)
    } else {
        last_dot(name.drop_last())
    }
}

/// The extension of a file name: what follows its last `.`, unless the name
/// has no `.` or only one that it starts with.
pub open spec fn extension_of(name: Seq<char>) -> Option<Seq<char>> {
    match last_dot(name) {
        Some(i) => if i == 0 {
            None
        } else {
            Some(name.skip(i + 1))
        },
        None => None,
    }
}

/// The last `.` of a name is found by looking past a tail without one.
proof fn lemma_last_dot(name: Seq<char>, i: int)
    requires
        0 <= i <= name.len(),
        forall|j: int| i <= j < name.len() ==> name[j] != '.',
    ensures
        last_dot(name) == last_dot(name.take(i)),
        i > 0 && name[i - 1] == '.' ==> last_dot(name) == Some(i - 1),
        i == 0 ==> last_dot(name) is None,
    decreases name.len() - i,
{
    if i < name.len() {
        let shorter = name.drop_last();
        lemma_last_dot(shorter, i);
        assert(shorter.take(i) =~= name.take(i));
    } else {
        assert(name.take(i) =~= name);
    }
}

/// The extension of a file name, if it has one.
pub fn extension(name: &str) -> (r: Option<&str>)
    ensures
        match r {
            Some(ext) => extension_of(name@) == Some(ext@),
            None => extension_of(name@) is None,
        },
{
    let n: usize = name.unicode_len();
    let mut i: usize = n;
    while i > 0 && name.get_char(i - 1) != '.'
        invariant
            i <= n,
            n == name@.len(),
            forall|j: int| i <= j < n ==> name@[j] != '.',
        decreases i,
    {
        i = i - 1;
    }
    proof {
        lemma_last_dot(name@, i as int);
        assert(name@.skip(i as int) =~= name@.subrange(i as int, n as int));
    }
    if i <= 1 {
        None
    } else {
        Some(name.substring_char(i, n))
    }
}

/// No more characters are counted than `s` holds.
pub proof fn lemma_leading_bounds(s: Seq<char>)
    ensures
        leading_marks(s) <= s.len(),
        leading_blanks(s) <= s.len(),
    decreases s.len(),
{
    if s.len() > 0 {
        lemma_leading_bounds(s.drop_first());
    }
}

/// Counting the leading marks stops at the first character that is none.
proof fn lemma_leading_marks(s: Seq<char>, i: int)
    requires
        0 <= i <= s.len(),
        forall|j: int| 0 <= j < i ==> s[j] == BOM,
        i < s.len() ==> s[i] != BOM,
    ensures
        leading_marks(s) == i,
    decreases i,
{
    if i > 0 {
        let t = s.drop_first();
        assert forall|j: int| 0 <= j < i - 1 implies t[j] == BOM by {
            assert(t[j] == s[j + 1]);
        }
        lemma_leading_marks(t, i - 1);
    }
}

/// Counting the leading blanks stops at the first character that is none.
proof fn lemma_leading_blanks(s: Seq<char>, i: int)
    requires
        0 <= i <= s.len(),
        forall|j: int| 0 <= j < i ==> is_blank(s[j]),
        i < s.len() ==> !is_blank(s[i]),
    ensures
        leading_blanks(s) == i,
    decreases i,
{
    if i > 0 {
        let t = s.drop_first();
        assert forall|j: int| 0 <= j < i - 1 implies is_blank(t[j]) by {
            assert(t[j] == s[j + 1]);
        }
        lemma_leading_blanks(t, i - 1);
    }
}

/// Drops the leading marks of `text` and the blanks that follow them.
pub fn strip_prologue(text: &str) -> (r: &str)
    ensures
        r@ == normalized(text@),
{
    let n: usize = text.unicode_len();
    let mut i: usize = 0;
    while i < n && text.get_char(i) == BOM
        invariant
            i <= n,
            n == text@.len(),
            forall|j: int| 0 <= j < i ==> text@[j] == BOM,
        decreases n - i,
    {
        i = i + 1;
    }
    proof {
        lemma_leading_marks(text@, i as int);
    }
    let ghost rest = text@.skip(i as int);
    let mut k: usize = i;
    while k < n && blank(text.get_char(k))
        invariant
            i <= k <= n,
            n == text@.len(),
            rest == text@.skip(i as int),
            forall|j: int| 0 <= j < k - i ==> is_blank(rest[j]),
        decreases n - k,
    {
        k = k + 1;
    }
    proof {
        lemma_leading_blanks(rest, k - i);
        assert(rest.skip(k - i) =~= text@.subrange(k as int, n as int));
    }
    text.substring_char(k, n)
}

/// A leading mark does not change what is left after stripping.
pub proof fn lemma_mark_is_dropped(s: Seq<char>)
    ensures
        normalized(seq![BOM] + s) == normalized(s),
{
    let t = seq![BOM] + s;
    assert(t.drop_first() =~= s);
    assert(leading_marks(t) == 1 + leading_marks(s));
    lemma_leading_bounds(s);
    assert(t.skip(leading_marks(t) as int) =~= s.skip(leading_marks(s) as int));
}

} // verus!
