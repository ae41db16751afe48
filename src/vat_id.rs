//! Parsing and checking whole VAT IDs.
use vstd::prelude::*;
use crate::chars::{ascii_upper, is_letter, is_upper, lemma_upper_char, to_ascii_upper, upper, upper_char};
use crate::registry::{
    Country, country_of, lemma_local_len, local_matches, local_ok, lookup_country, MAX_LOCAL_LEN,
};

verus! {

/// A VAT ID that has a valid syntax, split into the state's ISO code and the
/// local part, both in upper case.
#[derive(Debug, PartialEq)]
pub struct VATID {
    pub state_iso: String,
    pub local_vat_id: String,
}

impl View for VATID {
    type V = (Seq<char>, Seq<char>);

    open spec fn view(&self) -> (Seq<char>, Seq<char>) {
        (self.state_iso@, self.local_vat_id@)
    }
}

/// Why a string is not a syntactically valid VAT ID.
#[derive(Clone, Copy, Debug, PartialEq, Eq, Structural)]
pub enum VatIdError {
    /// The string is not two letters followed by at least one character.
    InvalidBaseStructure,
    /// The two letters are not the code of a known state.
    InvalidState,
    /// The rest does not have the form of a local VAT ID of that state.
    InvalidLocalVatId,
}

impl VatIdError {
    /// The short text that names the error.
    pub open spec fn text(self) -> Seq<char> {
        match self {
            VatIdError::InvalidBaseStructure => "invalid-base-structure"@,
            VatIdError::InvalidState => "invalid-state"@,
            VatIdError::InvalidLocalVatId => "invalid-local_vat_id"@,
        }
    }

    /// A short text that names the error.
    pub fn as_str(&self) -> (r: &'static str)
        ensures
            r@ == self.text(),
    {
        match self {
            VatIdError::InvalidBaseStructure => "invalid-base-structure",
            VatIdError::InvalidState => "invalid-state",
            VatIdError::InvalidLocalVatId => "invalid-local_vat_id",
        }
    }
}

/// An upper-case string has the base structure when it is two letters
/// followed by at least one more character.
pub open spec fn base_ok(u: Seq<char>) -> bool {
    u.len() >= 3 && is_upper(u[0]) && is_upper(u[1])
}

/// The outcome of parsing an upper-case string: its state code and local
/// part, or the first check that fails.
pub open spec fn parse_upper(u: Seq<char>) -> Result<(Seq<char>, Seq<char>), VatIdError> {
    if !base_ok(u) {
        Err(VatIdError::InvalidBaseStructure)
    } else {
        match country_of(u[0], u[1]) {
            None => Err(VatIdError::InvalidState),
            Some(c) => if local_ok(c, u.skip(2)) {
                Ok((u.take(2), u.skip(2)))
            } else {
                Err(VatIdError::InvalidLocalVatId)
            },
        }
    }
}

/// The outcome of parsing any string: it is first brought to upper case.
pub open spec fn parse_spec(s: Seq<char>) -> Result<(Seq<char>, Seq<char>), VatIdError> {
    parse_upper(ascii_upper(s))
}

/// What a parse result says, with a `VATID` seen as its two parts.
pub open spec fn result_view(r: Result<VATID, VatIdError>) -> Result<
    (Seq<char>, Seq<char>),
    VatIdError,
> {
    match r {
        Ok(v) => Ok(v@),
        Err(e) => Err(e),
    }
}

fn chars_between(s: &str, from: usize, to: usize) -> (v: Vec<char>)
    requires
        from <= to <= s@.len(),
    ensures
        v@ == s@.subrange(from as int, to as int),
{
    let mut v: Vec<char> = Vec::new();
    let mut i = from;
    while i < to
        invariant
            from <= i <= to <= s@.len(),
            v@ == s@.subrange(from as int, i as int),
        decreases to - i,
    {
        v.push(s.get_char(i));
        i += 1;
        assert(v@ =~= s@.subrange(from as int, i as int));
    }
    v
}

/// Parses a VAT ID, ignoring the case of its letters. On success the result
/// holds the upper-case state code and local part; otherwise it names the
/// first check that failed: the base structure, the state, the local part.
pub fn parse(vat_id: &str) -> (r: Result<VATID, VatIdError>)
    ensures
        result_view(r) == parse_spec(vat_id@),
{
    let upper_id = to_ascii_upper(vat_id);
    let u = upper_id.as_str();
    let n = u.unicode_len();
    if n < 3 || !upper(u.get_char(0)) || !upper(u.get_char(1)) {
        return Err(VatIdError::InvalidBaseStructure);
    }
    let country = match lookup_country(u.get_char(0), u.get_char(1)) {
        Some(c) => c,
        None => return Err(VatIdError::InvalidState),
    };
    if n - 2 > MAX_LOCAL_LEN {
        proof {
            if local_ok(country, u@.skip(2)) {
                lemma_local_len(country, u@.skip(2));
            }
        }
        return Err(VatIdError::InvalidLocalVatId);
    }
    let local = chars_between(u, 2, n);
    assert(local@ =~= u@.skip(2));
    if !local_matches(country, &local) {
        return Err(VatIdError::InvalidLocalVatId);
    }
    let state_iso = String::from_str(u.substring_char(0, 2));
    let local_vat_id = String::from_str(u.substring_char(2, n));
    assert(state_iso@ =~= u@.take(2));
    assert(local_vat_id@ =~= u@.skip(2));
    Ok(VATID { state_iso, local_vat_id })
}

/// Whether a VAT ID has a valid syntax, ignoring the case of its letters.
pub fn check(vat_id: &str) -> (r: bool)
    ensures
        r == (parse_spec(vat_id@) is Ok),
{
    match parse(vat_id) {
        Ok(_) => true,
        Err(_) => false,
    }
}

/// Whether the state code `state` followed by the local part `local_vat_id`
/// is a VAT ID with a valid syntax.
pub fn check_by_state(local_vat_id: &str, state: &str) -> (r: bool)
    ensures
        r == (parse_spec(state@ + local_vat_id@) is Ok),
{
    let id = String::from_str(state).concat(local_vat_id);
    check(id.as_str())
}

proof fn lemma_ascii_upper_index(s: Seq<char>, i: int)
    requires
        0 <= i < s.len(),
    ensures
        ascii_upper(s).len() == s.len(),
        ascii_upper(s)[i] == upper_char(s[i]),
{
}

proof fn lemma_ascii_upper_skip(s: Seq<char>, k: int)
    requires
        0 <= k <= s.len(),
    ensures
        ascii_upper(s).skip(k) == ascii_upper(s.skip(k)),
{
    assert(ascii_upper(s).skip(k) =~= ascii_upper(s.skip(k)));
}

/// A string of fewer than three characters, or one whose first two
/// characters are not both ASCII letters, fails with `InvalidBaseStructure`.
pub proof fn lemma_base_structure_error(s: Seq<char>)
    requires
        s.len() < 3 || !is_letter(s[0]) || !is_letter(s[1]),
    ensures
        parse_spec(s) == Err::<(Seq<char>, Seq<char>), VatIdError>(
            VatIdError::InvalidBaseStructure,
        ),
{
    if s.len() >= 3 {
        lemma_ascii_upper_index(s, 0);
        lemma_ascii_upper_index(s, 1);
        lemma_upper_char(s[0]);
        lemma_upper_char(s[1]);
    }
}

/// A string that begins with two ASCII letters and at least one more
/// character, where the two letters in upper case are no known state code,
/// fails with `InvalidState`.
pub proof fn lemma_unknown_state_error(s: Seq<char>)
    requires
        s.len() >= 3,
        is_letter(s[0]),
        is_letter(s[1]),
        country_of(upper_char(s[0]), upper_char(s[1])) is None,
    ensures
        parse_spec(s) == Err::<(Seq<char>, Seq<char>), VatIdError>(VatIdError::InvalidState),
{
    lemma_ascii_upper_index(s, 0);
    lemma_ascii_upper_index(s, 1);
    lemma_upper_char(s[0]);
    lemma_upper_char(s[1]);
}

/// A string that begins with a known state code (in either case) and goes on
/// with a body that, in upper case, is no local VAT ID of that state fails
/// with `InvalidLocalVatId`.
pub proof fn lemma_local_error(s: Seq<char>, c: Country)
    requires
        s.len() >= 3,
        country_of(upper_char(s[0]), upper_char(s[1])) == Some(c),
        !local_ok(c, ascii_upper(s.skip(2))),
    ensures
        parse_spec(s) == Err::<(Seq<char>, Seq<char>), VatIdError>(
            VatIdError::InvalidLocalVatId,
        ),
{
    lemma_ascii_upper_index(s, 0);
    lemma_ascii_upper_index(s, 1);
    lemma_ascii_upper_skip(s, 2);
}

/// Parsing ignores case: a string and its upper-case form give the same
/// outcome.
pub proof fn lemma_case_insensitive(s: Seq<char>)
    ensures
        parse_spec(ascii_upper(s)) == parse_spec(s),
{
    assert forall|i: int| 0 <= i < s.len() implies #[trigger] ascii_upper(ascii_upper(s))[i]
        == ascii_upper(s)[i] by {
        lemma_upper_char(s[i]);
    }
    assert(ascii_upper(ascii_upper(s)) =~= ascii_upper(s));
}

} // verus!
