//! Turning a line of text into validated board coordinates: the
//! "row,column" move format, with each component an ASCII-digit string
//! naming an index in {0, 1, 2}.

use vstd::prelude::*;

verus! {

/// A validated pair of board coordinates, each in {0, 1, 2}.
#[derive(Clone, Copy, PartialEq, Eq, Structural, Debug)]
pub struct Position {
    pub row: usize,
    pub column: usize,
}

/// Why a line of text was rejected as a move.
#[derive(Clone, Copy, PartialEq, Eq, Structural, Debug)]
pub enum ParseError {
    /// The line holds no comma, so it is not in "row,column" form.
    MissingSeparator,
    /// A component is empty, not all ASCII digits, or names a value
    /// outside {0, 1, 2}.
    InvalidIndex,
}

/// `c` is an ASCII decimal digit.
pub open spec fn is_digit_char(c: char) -> bool {
    ('0' as int) <= (c as int) && (c as int) <= ('9' as int)
}

/// The numeric value of the ASCII digit `c`.
pub open spec fn digit_value(c: char) -> int {
    (c as int) - ('0' as int)
}

/// Every character of `s` is an ASCII decimal digit.
pub open spec fn all_digits(s: Seq<char>) -> bool {
    forall|i: int| 0 <= i < s.len() ==> is_digit_char(s[i])
}

/// The number that the digit string `s` denotes in decimal.
pub open spec fn spec_digits_value(s: Seq<char>) -> int
    decreases s.len(),
{
    if s.len() == 0 {
        0
    } else {
        spec_digits_value(s.drop_last()) * 10 + digit_value(s.last())
    }
}

proof fn lemma_digits_value_nonneg(s: Seq<char>)
    requires
        all_digits(s),
    ensures
        spec_digits_value(s) >= 0,
    decreases s.len(),
{
    if s.len() > 0 {
        assert(all_digits(s.drop_last()));
        lemma_digits_value_nonneg(s.drop_last());
    }
}

/// True iff every character of `s` is an ASCII decimal digit (an empty
/// string counts as numeric; callers reject it separately).
pub fn is_string_numeric(s: &str) -> (r: bool)
    ensures
        r == all_digits(s@),
{
    let n = s.unicode_len();
    let mut i: usize = 0;
    while i < n
        invariant
            i <= n,
            n == s@.len(),
            forall|j: int| 0 <= j < i ==> is_digit_char(s@[j]),
        decreases n - i,
    {
        let c = s.get_char(i);
        let code = c as u32;
        if code < 48 || code > 57 {
            assert(!is_digit_char(s@[i as int]));
            return false;
        }
        i += 1;
    }
    true
}

/// Parses one coordinate component: a non-empty all-digit string whose
/// value is in {0, 1, 2}. Any other text yields None.
pub fn parse_index(s: &str) -> (r: Option<usize>)
    ensures
        r is Some <==> (s@.len() > 0 && all_digits(s@) && spec_digits_value(s@) <= 2),
        r matches Some(v) ==> v == spec_digits_value(s@),
{
    let n = s.unicode_len();
    if n == 0 {
        return None;
    }
    let mut acc: usize = 0;
    let mut i: usize = 0;
    while i < n
        invariant
            i <= n,
            n == s@.len(),
            acc <= 3,
            all_digits(s@.take(i as int)),
            spec_digits_value(s@.take(i as int)) <= 2 ==> acc == spec_digits_value(
                s@.take(i as int),
            ),
            spec_digits_value(s@.take(i as int)) > 2 ==> acc == 3,
        decreases n - i,
    {
        let c = s.get_char(i);
        let code = c as u32;
        if code < 48 || code > 57 {
            assert(!is_digit_char(s@[i as int]));
            return None;
        }
        let d = (code - 48) as usize;
        proof {
            let prefix = s@.take(i as int);
            let extended = s@.take(i as int + 1);
            assert(extended.drop_last() =~= prefix);
            assert(extended.last() == s@[i as int]);
            lemma_digits_value_nonneg(prefix);
        }
        if acc > 2 {
            acc = 3;
        } else {
            acc = acc * 10 + d;
            if acc > 2 {
                acc = 3;
            }
        }
        i += 1;
    }
    proof {
        assert(s@.take(n as int) =~= s@);
    }
    if acc <= 2 {
        Some(acc)
    } else {
        None
    }
}

/// The index of the first comma in `s`, or `s.len()` when `s` holds
/// none.
pub open spec fn spec_first_comma(s: Seq<char>) -> int
    decreases s.len(),
{
    if s.len() == 0 {
        0
    } else if s[0] == ',' {
        0
    } else {
        1 + spec_first_comma(s.drop_first())
    }
}

proof fn lemma_first_comma_found(s: Seq<char>, i: int)
    requires
        0 <= i < s.len(),
        s[i] == ',',
        forall|j: int| 0 <= j < i ==> s[j] != ',',
    ensures
        spec_first_comma(s) == i,
    decreases i,
{
    if i > 0 {
        assert(s[0] != ',');
        assert(s.drop_first()[i - 1] == s[i]);
        assert(forall|j: int| 0 <= j < i - 1 ==> s.drop_first()[j] == s[j + 1]);
        lemma_first_comma_found(s.drop_first(), i - 1);
    }
}

proof fn lemma_first_comma_none(s: Seq<char>)
    requires
        forall|j: int| 0 <= j < s.len() ==> s[j] != ',',
    ensures
        spec_first_comma(s) == s.len(),
    decreases s.len(),
{
    if s.len() > 0 {
        assert(forall|j: int| 0 <= j < s.len() - 1 ==> s.drop_first()[j] == s[j + 1]);
        lemma_first_comma_none(s.drop_first());
    }
}

/// A coordinate component in valid form: non-empty, all digits, value
/// in {0, 1, 2}.
pub open spec fn spec_index_ok(s: Seq<char>) -> bool {
    s.len() > 0 && all_digits(s) && spec_digits_value(s) <= 2
}

/// The text before the first comma.
pub open spec fn spec_left_of_comma(s: Seq<char>) -> Seq<char> {
    s.take(spec_first_comma(s))
}

/// The text after the first comma.
pub open spec fn spec_right_of_comma(s: Seq<char>) -> Seq<char> {
    s.skip(spec_first_comma(s) + 1)
}

/// What parsing a move line yields: the position named by the two
/// components around the first comma, or the rejection reason.
pub open spec fn spec_parse_position(s: Seq<char>) -> Result<Position, ParseError> {
    if spec_first_comma(s) == s.len() {
        Err(ParseError::MissingSeparator)
    } else if spec_index_ok(spec_left_of_comma(s)) && spec_index_ok(spec_right_of_comma(s)) {
        Ok(
            Position {
                row: spec_digits_value(spec_left_of_comma(s)) as usize,
                column: spec_digits_value(spec_right_of_comma(s)) as usize,
            },
        )
    } else {
        Err(ParseError::InvalidIndex)
    }
}

fn find_comma(s: &str) -> (r: usize)
    ensures
        r == spec_first_comma(s@),
        r <= s@.len(),
{
    let n = s.unicode_len();
    let mut i: usize = 0;
    while i < n
        invariant
            i <= n,
            n == s@.len(),
            forall|j: int| 0 <= j < i ==> s@[j] != ',',
        decreases n - i,
    {
        if s.get_char(i) == ',' {
            proof {
                lemma_first_comma_found(s@, i as int);
            }
            return i;
        }
        i += 1;
    }
    proof {
        lemma_first_comma_none(s@);
    }
    n
}

/// Parses a move line of the form "row,column". Splits at the first
/// comma and validates both components; rejects a line without a comma,
/// and one whose components are not indices in {0, 1, 2}.
pub fn parse_position(s: &str) -> (r: Result<Position, ParseError>)
    ensures
        r == spec_parse_position(s@),
{
    let n = s.unicode_len();
    let k = find_comma(s);
    if k == n {
        return Err(ParseError::MissingSeparator);
    }
    let left = s.substring_char(0, k);
    let right = s.substring_char(k + 1, n);
    proof {
        assert(left@ =~= spec_left_of_comma(s@));
        assert(right@ =~= spec_right_of_comma(s@));
    }
    match (parse_index(left), parse_index(right)) {
        (Some(row), Some(column)) => Ok(Position { row, column }),
        _ => Err(ParseError::InvalidIndex),
    }
}

} // verus!
