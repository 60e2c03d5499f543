//! A calendar month of a budget, written `YYYY-MM`.

use crate::errors::{prefixed_number, DomainError};
use crate::text::{
    append_fixed_decimal, chars_of, fixed_decimal, is_digit, lemma_fixed_decimal_shape,
    lemma_fixed_decimal_value, number_value, parse_number, pow10, signed_decimal,
};
use core::cmp::Ordering;
use vstd::prelude::*;

verus! {

/// The years and months that a `BudgetMonth` can hold.
pub open spec fn is_budget_month(year: int, month: int) -> bool {
    2000 <= year <= 2100 && 1 <= month <= 12
}

/// The canonical text of a month: four digits of year, a dash, two digits of
/// month, zero-padded.
pub open spec fn budget_month_text(year: int, month: int) -> Seq<char> {
    fixed_decimal(year as nat, 4) + seq!['-'] + fixed_decimal(month as nat, 2)
}

/// Why a pair of numbers is no budget month: the year is tested first.
pub open spec fn range_rejection(year: int, month: int) -> Seq<char> {
    if !(2000 <= year <= 2100) {
        "year must be between 2000 and 2100, got "@ + signed_decimal(year)
    } else {
        "month must be between 1 and 12, got "@ + signed_decimal(month)
    }
}

/// `s[i]` is a dash and `s` holds no other dash.
pub open spec fn is_sole_dash(s: Seq<char>, i: int) -> bool {
    &&& 0 <= i < s.len()
    &&& s[i] == '-'
    &&& forall|j: int| 0 <= j < s.len() && j != i ==> #[trigger] s[j] != '-'
}

/// `s` holds exactly one dash, so that it splits into two parts.
pub open spec fn has_sole_dash(s: Seq<char>) -> bool {
    exists|i: int| is_sole_dash(s, i)
}

/// The place of the dash in a text that holds exactly one.
pub open spec fn sole_dash(s: Seq<char>) -> int {
    choose|i: int| is_sole_dash(s, i)
}

/// The number before the dash: an optional `+` and digits, up to the largest
/// 32-bit signed integer.
pub open spec fn year_part(s: Seq<char>) -> Option<nat> {
    match number_value(s.take(sole_dash(s))) {
        Some(n) => if n <= i32::MAX {
            Some(n)
        } else {
            None
        },
        None => None,
    }
}

/// The number after the dash: an optional `+` and digits, up to 255. It need
/// not be zero-padded.
pub open spec fn month_part(s: Seq<char>) -> Option<nat> {
    match number_value(s.skip(sole_dash(s) + 1)) {
        Some(n) => if n <= u8::MAX {
            Some(n)
        } else {
            None
        },
        None => None,
    }
}

/// The month that `s` writes, if it writes one: two numbers around a single
/// dash that form a budget month.
pub open spec fn parsed_budget_month(s: Seq<char>) -> Option<(int, int)> {
    if has_sole_dash(s) && year_part(s) is Some && month_part(s) is Some && is_budget_month(
        year_part(s)->0 as int,
        month_part(s)->0 as int,
    ) {
        Some((year_part(s)->0 as int, month_part(s)->0 as int))
    } else {
        None
    }
}

/// Why `s` writes no budget month. The tests are made in this order: the
/// number of parts, the year as a number, the month as a number, the ranges.
pub open spec fn parse_rejection(s: Seq<char>) -> Seq<char> {
    if !has_sole_dash(s) {
        "expected YYYY-MM format, got '"@ + s + "'"@
    } else if year_part(s) is None {
        "invalid year in '"@ + s + "'"@
    } else if month_part(s) is None {
        "invalid month in '"@ + s + "'"@
    } else {
        range_rejection(year_part(s)->0 as int, month_part(s)->0 as int)
    }
}

/// A calendar month between 2000-01 and 2100-12.
#[derive(Clone, Copy, Debug, PartialEq, Eq, Ord, Structural)]
pub struct BudgetMonth {
    year: i32,
    month: u8,
}

impl View for BudgetMonth {
    type V = (int, int);

    /// The year and the month.
    closed spec fn view(&self) -> (int, int) {
        (self.year as int, self.month as int)
    }
}

impl BudgetMonth {
    #[verifier::type_invariant]
    spec fn in_range(self) -> bool {
        is_budget_month(self.year as int, self.month as int)
    }

    /// Accepts exactly the years 2000 to 2100 with the months 1 to 12.
    pub fn new(year: i32, month: u8) -> (r: Result<Self, DomainError>)
        ensures
            is_budget_month(year as int, month as int) ==> r is Ok && r->Ok_0@ == (year as int, month as int),
            !is_budget_month(year as int, month as int) ==> (r matches Err(
                DomainError::InvalidBudgetMonth { reason },
            ) && reason@ == range_rejection(year as int, month as int)),
    {
        if year < 2000 || year > 2100 {
            return Err(
                DomainError::InvalidBudgetMonth {
                    reason: prefixed_number("year must be between 2000 and 2100, got ", year as i64),
                },
            );
        }
        if month < 1 || month > 12 {
            return Err(
                DomainError::InvalidBudgetMonth {
                    reason: prefixed_number("month must be between 1 and 12, got ", month as i64),
                },
            );
        }
        Ok(BudgetMonth { year, month })
    }

    pub fn year(&self) -> (y: i32)
        ensures
            y == self@.0,
            is_budget_month(self@.0, self@.1),
    {
        proof {
            use_type_invariant(self);
        }
        self.year
    }

    pub fn month(&self) -> (m: u8)
        ensures
            m == self@.1,
            is_budget_month(self@.0, self@.1),
    {
        proof {
            use_type_invariant(self);
        }
        self.month
    }

    /// The canonical text, such as `2026-02`.
    pub fn to_string(&self) -> (s: String)
        ensures
            s@ == budget_month_text(self@.0, self@.1),
            parsed_budget_month(s@) == Some(self@),
    {
        proof {
            use_type_invariant(self);
            lemma_text_round_trip(self@.0, self@.1);
        }
        let year: u64 = self.year as u64;
        let mut s = String::new();
        append_fixed_decimal(&mut s, year, 4);
        s.push('-');
        append_fixed_decimal(&mut s, self.month as u64, 2);
        s
    }

    /// Reads a month from its text. Accepts exactly the texts that
    /// `parsed_budget_month` reads; a rejected text comes back with the first
    /// test that it fails.
    pub fn parse(s: &str) -> (r: Result<Self, DomainError>)
        ensures
            match parsed_budget_month(s@) {
                Some(month) => r is Ok && r->Ok_0@ == month,
                None => r matches Err(DomainError::InvalidBudgetMonth { reason }) && reason@
                    == parse_rejection(s@),
            },
    {
        let v = chars_of(s);
        let n = v.len();
        let dash = match find_sole_dash(&v) {
            Some(dash) => dash,
            None => {
                return Err(
                    DomainError::InvalidBudgetMonth {
                        reason: quoted("expected YYYY-MM format, got '", s),
                    },
                );
            },
        };
        proof {
            lemma_sole_dash_is_unique(s@, dash as int);
            assert(v@.subrange(0, dash as int) =~= s@.take(dash as int));
            assert(v@.subrange(dash + 1, n as int) =~= s@.skip(dash + 1));
        }
        let year = match parse_number(&v, 0, dash, 2147483647) {
            Some(year) => year,
            None => {
                return Err(
                    DomainError::InvalidBudgetMonth { reason: quoted("invalid year in '", s) },
                );
            },
        };
        let month = match parse_number(&v, dash + 1, n, 255) {
            Some(month) => month,
            None => {
                return Err(
                    DomainError::InvalidBudgetMonth { reason: quoted("invalid month in '", s) },
                );
            },
        };
        let year: i32 = year as i32;
        let month: u8 = month as u8;
        BudgetMonth::new(year, month)
    }
}

/// `prefix`, then `s`, then a closing quote.
fn quoted(prefix: &str, s: &str) -> (r: String)
    ensures
        r@ == prefix@ + s@ + "'"@,
{
    prefix.to_owned().concat(s).concat("'")
}

/// The place of the dash where `v` holds exactly one.
fn find_sole_dash(v: &Vec<char>) -> (r: Option<usize>)
    ensures
        match r {
            Some(i) => is_sole_dash(v@, i as int),
            None => !has_sole_dash(v@),
        },
{
    let n = v.len();
    let mut first: usize = 0;
    while first < n && v[first] != '-'
        invariant
            first <= n == v@.len(),
            forall|j: int| 0 <= j < first ==> #[trigger] v@[j] != '-',
        decreases n - first,
    {
        first = first + 1;
    }
    if first == n {
        return None;
    }
    let mut i: usize = first + 1;
    while i < n
        invariant
            first < i <= n == v@.len(),
            v@[first as int] == '-',
            forall|j: int| 0 <= j < i && j != first ==> #[trigger] v@[j] != '-',
        decreases n - i,
    {
        if v[i] == '-' {
            assert forall|k: int| !is_sole_dash(v@, k) by {
                if k == first {
                    assert(v@[i as int] == '-');
                } else {
                    assert(v@[first as int] == '-');
                }
            }
            return None;
        }
        i = i + 1;
    }
    Some(first)
}

/// A text has at most one sole dash.
pub proof fn lemma_sole_dash_is_unique(s: Seq<char>, i: int)
    requires
        is_sole_dash(s, i),
    ensures
        has_sole_dash(s),
        sole_dash(s) == i,
{
    let k = sole_dash(s);
    if k != i {
        assert(s[i] == '-');
    }
}

/// Writing a budget month and reading the text back gives the same month.
pub proof fn lemma_text_round_trip(year: int, month: int)
    requires
        is_budget_month(year, month),
    ensures
        parsed_budget_month(budget_month_text(year, month)) == Some((year, month)),
{
    let y = fixed_decimal(year as nat, 4);
    let m = fixed_decimal(month as nat, 2);
    let t = budget_month_text(year, month);
    lemma_fixed_decimal_shape(year as nat, 4);
    lemma_fixed_decimal_shape(month as nat, 2);
    reveal_with_fuel(pow10, 5);
    lemma_fixed_decimal_value(year as nat, 4);
    lemma_fixed_decimal_value(month as nat, 2);
    assert(t.len() == 7);
    assert(t[4] == '-');
    assert forall|j: int| 0 <= j < t.len() && j != 4 implies #[trigger] t[j] != '-' by {
        if j < 4 {
            assert(t[j] == y[j]);
            assert(is_digit(y[j]));
        } else {
            assert(t[j] == m[j - 5]);
            assert(is_digit(m[j - 5]));
        }
    }
    lemma_sole_dash_is_unique(t, 4);
    assert(t.take(4) =~= y);
    assert(t.skip(5) =~= m);
    assert(is_digit(y[0]));
    assert(is_digit(m[0]));
    assert(number_value(y) == Some(year as nat));
    assert(number_value(m) == Some(month as nat));
}

/// Only two numbers around a single dash, within the ranges of a budget
/// month, are read as a month: a text with no dash or several, a part that is
/// no number, a year outside 2000 to 2100 or a month outside 1 to 12 is
/// rejected.
pub proof fn lemma_parse_rejects_malformed(s: Seq<char>)
    ensures
        !has_sole_dash(s) ==> parsed_budget_month(s) is None,
        has_sole_dash(s) && number_value(s.take(sole_dash(s))) is None ==> parsed_budget_month(s)
            is None,
        has_sole_dash(s) && number_value(s.skip(sole_dash(s) + 1)) is None ==> parsed_budget_month(
            s,
        ) is None,
        parsed_budget_month(s) matches Some(month) ==> is_budget_month(month.0, month.1),
{
}

impl core::str::FromStr for BudgetMonth {
    type Err = DomainError;

    /// Reads a month from its text, as `parse` does.
    fn from_str(s: &str) -> (r: Result<Self, DomainError>)
        ensures
            match parsed_budget_month(s@) {
                Some(month) => r is Ok && r->Ok_0@ == month,
                None => r matches Err(DomainError::InvalidBudgetMonth { reason }) && reason@
                    == parse_rejection(s@),
            },
    {
        BudgetMonth::parse(s)
    }
}

impl PartialOrd for BudgetMonth {
    /// Earlier years come first, and within a year earlier months.
    fn partial_cmp(&self, other: &BudgetMonth) -> (r: Option<Ordering>) {
        if self.year < other.year {
            Some(Ordering::Less)
        } else if self.year > other.year {
            Some(Ordering::Greater)
        } else if self.month < other.month {
            Some(Ordering::Less)
        } else if self.month > other.month {
            Some(Ordering::Greater)
        } else {
            Some(Ordering::Equal)
        }
    }
}

impl vstd::std_specs::cmp::PartialOrdSpecImpl for BudgetMonth {
    open spec fn obeys_partial_cmp_spec() -> bool {
        true
    }

    open spec fn partial_cmp_spec(&self, other: &BudgetMonth) -> Option<Ordering> {
        if self@.0 < other@.0 || (self@.0 == other@.0 && self@.1 < other@.1) {
            Some(Ordering::Less)
        } else if self@.0 == other@.0 && self@.1 == other@.1 {
            Some(Ordering::Equal)
        } else {
            Some(Ordering::Greater)
        }
    }
}

} // verus!
