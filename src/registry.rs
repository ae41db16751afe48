//! The member states that have a VAT ID format, and the grammar of the
//! local part of each.
use vstd::prelude::*;
use crate::chars::{digit, is_alnum, is_digit, is_letter, upper};

verus! {

/// A state whose VAT IDs this library knows.
#[derive(Clone, Copy, Debug, PartialEq, Eq, Structural)]
pub enum Country {
    Austria,
    Belgium,
    Bulgaria,
    Cyprus,
    Czechia,
    Germany,
    Denmark,
    Estonia,
    Greece,
    Spain,
    Finland,
    France,
    UnitedKingdom,
    Croatia,
    Italy,
    Hungary,
    Ireland,
    Lithuania,
    Luxembourg,
    Latvia,
    Malta,
    Netherlands,
    Poland,
    Portugal,
    Romania,
    Sweden,
    Slovenia,
    Slovakia,
}

/// The state with the (upper-case) code `a b`, if there is one.
pub open spec fn country_of(a: char, b: char) -> Option<Country> {
    match (a, b) {
        ('A', 'T') => Some(Country::Austria),
        ('B', 'E') => Some(Country::Belgium),
        ('B', 'G') => Some(Country::Bulgaria),
        ('C', 'Y') => Some(Country::Cyprus),
        ('C', 'Z') => Some(Country::Czechia),
        ('D', 'E') => Some(Country::Germany),
        ('D', 'K') => Some(Country::Denmark),
        ('E', 'E') => Some(Country::Estonia),
        ('E', 'L') => Some(Country::Greece),
        ('E', 'S') => Some(Country::Spain),
        ('F', 'I') => Some(Country::Finland),
        ('F', 'R') => Some(Country::France),
        ('G', 'B') => Some(Country::UnitedKingdom),
        ('H', 'R') => Some(Country::Croatia),
        ('I', 'T') => Some(Country::Italy),
        ('H', 'U') => Some(Country::Hungary),
        ('I', 'E') => Some(Country::Ireland),
        ('L', 'T') => Some(Country::Lithuania),
        ('L', 'U') => Some(Country::Luxembourg),
        ('L', 'V') => Some(Country::Latvia),
        ('M', 'T') => Some(Country::Malta),
        ('N', 'L') => Some(Country::Netherlands),
        ('P', 'L') => Some(Country::Poland),
        ('P', 'T') => Some(Country::Portugal),
        ('R', 'O') => Some(Country::Romania),
        ('S', 'E') => Some(Country::Sweden),
        ('S', 'I') => Some(Country::Slovenia),
        ('S', 'K') => Some(Country::Slovakia),
        _ => None,
    }
}

/// Looks up the state with the code `a b`.
pub fn lookup_country(a: char, b: char) -> (r: Option<Country>)
    ensures
        r == country_of(a, b),
{
    match (a, b) {
        ('A', 'T') => Some(Country::Austria),
        ('B', 'E') => Some(Country::Belgium),
        ('B', 'G') => Some(Country::Bulgaria),
        ('C', 'Y') => Some(Country::Cyprus),
        ('C', 'Z') => Some(Country::Czechia),
        ('D', 'E') => Some(Country::Germany),
        ('D', 'K') => Some(Country::Denmark),
        ('E', 'E') => Some(Country::Estonia),
        ('E', 'L') => Some(Country::Greece),
        ('E', 'S') => Some(Country::Spain),
        ('F', 'I') => Some(Country::Finland),
        ('F', 'R') => Some(Country::France),
        ('G', 'B') => Some(Country::UnitedKingdom),
        ('H', 'R') => Some(Country::Croatia),
        ('I', 'T') => Some(Country::Italy),
        ('H', 'U') => Some(Country::Hungary),
        ('I', 'E') => Some(Country::Ireland),
        ('L', 'T') => Some(Country::Lithuania),
        ('L', 'U') => Some(Country::Luxembourg),
        ('L', 'V') => Some(Country::Latvia),
        ('M', 'T') => Some(Country::Malta),
        ('N', 'L') => Some(Country::Netherlands),
        ('P', 'L') => Some(Country::Poland),
        ('P', 'T') => Some(Country::Portugal),
        ('R', 'O') => Some(Country::Romania),
        ('S', 'E') => Some(Country::Sweden),
        ('S', 'I') => Some(Country::Slovenia),
        ('S', 'K') => Some(Country::Slovakia),
        _ => None,
    }
}

/// Every character of `s` at a position in `[from, to)` is a digit.
pub open spec fn digits_in(s: Seq<char>, from: int, to: int) -> bool {
    forall|i: int| from <= i < to ==> #[trigger] is_digit(s[i])
}

/// Every character of `s` at a position in `[from, to)` is an ASCII letter.
pub open spec fn letters_in(s: Seq<char>, from: int, to: int) -> bool {
    forall|i: int| from <= i < to ==> #[trigger] is_letter(s[i])
}

/// `s` is exactly `n` digits.
pub open spec fn digit_run(s: Seq<char>, n: int) -> bool {
    s.len() == n && digits_in(s, 0, n)
}

/// From position `pos` to its end, `s` is groups of digits with the sizes in
/// `g`, in order, where a single space may stand between two groups.
pub open spec fn spaced_from(s: Seq<char>, pos: int, g: Seq<usize>) -> bool
    decreases g.len(),
{
    if g.len() == 0 {
        pos == s.len()
    } else {
        let end = pos + g[0];
        &&& end <= s.len()
        &&& digits_in(s, pos, end)
        &&& spaced_from(s, end, g.skip(1)) || (g.len() > 1 && end < s.len() && s[end] == ' '
            && spaced_from(s, end + 1, g.skip(1)))
    }
}

/// `s` is `ab` followed by three digits.
pub open spec fn prefixed_three(s: Seq<char>, a: char, b: char) -> bool {
    s.len() == 5 && s[0] == a && s[1] == b && digits_in(s, 2, 5)
}

/// Whether `s` is a well-formed local part of a VAT ID of state `c`.
pub open spec fn local_ok(c: Country, s: Seq<char>) -> bool {
    match c {
        Country::Austria => s.len() == 9 && s[0] == 'U' && digits_in(s, 1, 9),
        Country::Belgium => s.len() == 10 && s[0] == '0' && digits_in(s, 1, 10),
        Country::Bulgaria => digit_run(s, 9) || digit_run(s, 10),
        Country::Cyprus => s.len() == 9 && digits_in(s, 0, 8) && is_letter(s[8]),
        Country::Czechia => 8 <= s.len() <= 10 && digits_in(s, 0, s.len() as int),
        Country::Germany | Country::Estonia | Country::Greece | Country::Portugal => digit_run(
            s,
            9,
        ),
        Country::Denmark => spaced_from(s, 0, seq![2, 2, 2, 2]),
        Country::Spain => s.len() == 9 && is_alnum(s[0]) && digits_in(s, 1, 8) && is_alnum(s[8]),
        Country::Finland | Country::Hungary | Country::Luxembourg | Country::Malta
        | Country::Slovenia => digit_run(s, 8),
        Country::France => s.len() >= 2 && is_alnum(s[0]) && is_alnum(s[1]) && ((s.len() == 11
            && digits_in(s, 2, 11)) || (s.len() == 12 && s[2] == ' ' && digits_in(s, 3, 12))),
        Country::UnitedKingdom => spaced_from(s, 0, seq![3, 4, 2]) || spaced_from(
            s,
            0,
            seq![3, 4, 2, 3],
        ) || prefixed_three(s, 'G', 'D') || prefixed_three(s, 'H', 'A'),
        Country::Croatia | Country::Italy | Country::Latvia => digit_run(s, 11),
        Country::Ireland => 8 <= s.len() <= 9 && is_digit(s[0]) && (is_alnum(s[1]) || s[1] == '+'
            || s[1] == '*') && digits_in(s, 2, 7) && letters_in(s, 7, s.len() as int),
        Country::Lithuania => digit_run(s, 9) || digit_run(s, 12),
        Country::Netherlands => s.len() == 12 && digits_in(s, 0, 9) && s[9] == 'B' && digits_in(
            s,
            10,
            12,
        ),
        Country::Poland | Country::Slovakia => digit_run(s, 10),
        Country::Romania => 2 <= s.len() <= 10 && digits_in(s, 0, s.len() as int),
        Country::Sweden => digit_run(s, 12),
    }
}

fn letter(c: char) -> (r: bool)
    ensures
        r == is_letter(c),
{
    upper(c) || ('a' <= c && c <= 'z')
}

fn alnum(c: char) -> (r: bool)
    ensures
        r == is_alnum(c),
{
    letter(c) || digit(c)
}

fn digits_between(s: &Vec<char>, from: usize, to: usize) -> (r: bool)
    requires
        from <= to <= s.len(),
    ensures
        r == digits_in(s@, from as int, to as int),
{
    let mut i = from;
    while i < to
        invariant
            from <= i <= to <= s.len(),
            digits_in(s@, from as int, i as int),
        decreases to - i,
    {
        if !digit(s[i]) {
            return false;
        }
        i += 1;
    }
    true
}

fn letters_between(s: &Vec<char>, from: usize, to: usize) -> (r: bool)
    requires
        from <= to <= s.len(),
    ensures
        r == letters_in(s@, from as int, to as int),
{
    let mut i = from;
    while i < to
        invariant
            from <= i <= to <= s.len(),
            letters_in(s@, from as int, i as int),
        decreases to - i,
    {
        if !letter(s[i]) {
            return false;
        }
        i += 1;
    }
    true
}

fn exact_digits(s: &Vec<char>, n: usize) -> (r: bool)
    ensures
        r == digit_run(s@, n as int),
{
    s.len() == n && digits_between(s, 0, n)
}

/// Matches the groups `g[gi..]` against `s` from position `pos` on.
fn spaced_at(s: &Vec<char>, pos: usize, g: &[usize], gi: usize) -> (r: bool)
    requires
        pos <= s.len(),
        gi <= g.len(),
        forall|k: int| 0 <= k < g.len() ==> g@[k] > 0,
    ensures
        r == spaced_from(s@, pos as int, g@.skip(gi as int)),
    decreases g.len() - gi,
{
    let ghost rest = g@.skip(gi as int);
    if gi == g.len() {
        return pos == s.len();
    }
    let n = g[gi];
    if n > s.len() - pos {
        return false;
    }
    let end = pos + n;
    if !digits_between(s, pos, end) {
        return false;
    }
    assert(rest.skip(1) =~= g@.skip(gi + 1));
    if gi + 1 < g.len() && end < s.len() && s[end] == ' ' {
        let ghost next = g@.skip(gi + 1);
        assert(next[0] > 0);
        assert(!is_digit(s@[end as int]));
        assert(!spaced_from(s@, end as int, next));
        spaced_at(s, end + 1, g, gi + 1)
    } else {
        spaced_at(s, end, g, gi + 1)
    }
}

fn prefixed_three_digits(s: &Vec<char>, a: char, b: char) -> (r: bool)
    ensures
        r == prefixed_three(s@, a, b),
{
    s.len() == 5 && s[0] == a && s[1] == b && digits_between(s, 2, 5)
}

/// Whether `s` is a well-formed local part of a VAT ID of state `c`.
pub fn local_matches(c: Country, s: &Vec<char>) -> (r: bool)
    ensures
        r == local_ok(c, s@),
{
    let n = s.len();
    match c {
        Country::Austria => n == 9 && s[0] == 'U' && digits_between(s, 1, 9),
        Country::Belgium => n == 10 && s[0] == '0' && digits_between(s, 1, 10),
        Country::Bulgaria => exact_digits(s, 9) || exact_digits(s, 10),
        Country::Cyprus => n == 9 && digits_between(s, 0, 8) && letter(s[8]),
        Country::Czechia => 8 <= n && n <= 10 && digits_between(s, 0, n),
        Country::Germany | Country::Estonia | Country::Greece | Country::Portugal => exact_digits(
            s,
            9,
        ),
        Country::Denmark => {
            let groups: [usize; 4] = [2, 2, 2, 2];
            let g = groups.as_slice();
            assert(g@.skip(0) =~= seq![2usize, 2, 2, 2]);
            spaced_at(s, 0, g, 0)
        },
        Country::Spain => n == 9 && alnum(s[0]) && digits_between(s, 1, 8) && alnum(s[8]),
        Country::Finland | Country::Hungary | Country::Luxembourg | Country::Malta
        | Country::Slovenia => exact_digits(s, 8),
        Country::France => n >= 2 && alnum(s[0]) && alnum(s[1]) && ((n == 11 && digits_between(
            s,
            2,
            11,
        )) || (n == 12 && s[2] == ' ' && digits_between(s, 3, 12))),
        Country::UnitedKingdom => {
            let short: [usize; 3] = [3, 4, 2];
            let long: [usize; 4] = [3, 4, 2, 3];
            let (gs, gl) = (short.as_slice(), long.as_slice());
            assert(gs@.skip(0) =~= seq![3usize, 4, 2]);
            assert(gl@.skip(0) =~= seq![3usize, 4, 2, 3]);
            spaced_at(s, 0, gs, 0) || spaced_at(s, 0, gl, 0)
                || prefixed_three_digits(s, 'G', 'D') || prefixed_three_digits(s, 'H', 'A')
        },
        Country::Croatia | Country::Italy | Country::Latvia => exact_digits(s, 11),
        Country::Ireland => 8 <= n && n <= 9 && digit(s[0]) && (alnum(s[1]) || s[1] == '+' || s[1]
            == '*') && digits_between(s, 2, 7) && letters_between(s, 7, n),
        Country::Lithuania => exact_digits(s, 9) || exact_digits(s, 12),
        Country::Netherlands => n == 12 && digits_between(s, 0, 9) && s[9] == 'B'
            && digits_between(s, 10, 12),
        Country::Poland | Country::Slovakia => exact_digits(s, 10),
        Country::Romania => 2 <= n && n <= 10 && digits_between(s, 0, n),
        Country::Sweden => exact_digits(s, 12),
    }
}

/// The most characters that a group layout `g` spans, a space after each group.
pub open spec fn groups_width(g: Seq<usize>) -> int
    decreases g.len(),
{
    if g.len() == 0 {
        0
    } else {
        g[0] + 1 + groups_width(g.skip(1))
    }
}

proof fn lemma_spaced_width(s: Seq<char>, pos: int, g: Seq<usize>)
    requires
        spaced_from(s, pos, g),
    ensures
        s.len() <= pos + groups_width(g),
    decreases g.len(),
{
    if g.len() > 0 {
        let end = pos + g[0];
        if spaced_from(s, end, g.skip(1)) {
            lemma_spaced_width(s, end, g.skip(1));
        } else {
            lemma_spaced_width(s, end + 1, g.skip(1));
        }
    }
}

/// A bound on the length of the local part of every state.
pub const MAX_LOCAL_LEN: usize = 16;

/// No local part is longer than [`MAX_LOCAL_LEN`] characters.
pub proof fn lemma_local_len(c: Country, s: Seq<char>)
    requires
        local_ok(c, s),
    ensures
        s.len() <= MAX_LOCAL_LEN,
{
    let dk = seq![2usize, 2, 2, 2];
    let gb = seq![3usize, 4, 2];
    let gb_long = seq![3usize, 4, 2, 3];
    assert(dk.skip(1) =~= seq![2usize, 2, 2]);
    assert(dk.skip(1).skip(1) =~= seq![2usize, 2]);
    assert(dk.skip(1).skip(1).skip(1) =~= seq![2usize]);
    assert(dk.skip(1).skip(1).skip(1).skip(1) =~= Seq::<usize>::empty());
    assert(gb.skip(1) =~= seq![4usize, 2]);
    assert(gb.skip(1).skip(1) =~= seq![2usize]);
    assert(gb.skip(1).skip(1).skip(1) =~= Seq::<usize>::empty());
    assert(gb_long.skip(1) =~= seq![4usize, 2, 3]);
    assert(gb_long.skip(1).skip(1) =~= seq![2usize, 3]);
    assert(gb_long.skip(1).skip(1).skip(1) =~= seq![3usize]);
    assert(gb_long.skip(1).skip(1).skip(1).skip(1) =~= Seq::<usize>::empty());
    reveal_with_fuel(groups_width, 5);
    match c {
        Country::Denmark => lemma_spaced_width(s, 0, dk),
        Country::UnitedKingdom => {
            if spaced_from(s, 0, gb) {
                lemma_spaced_width(s, 0, gb);
            } else if spaced_from(s, 0, gb_long) {
                lemma_spaced_width(s, 0, gb_long);
            }
        },
        _ => {},
    }
}

} // verus!
