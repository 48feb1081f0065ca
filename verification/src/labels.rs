//! Default header labels: spreadsheet column names (A..Z, AA..AZ, ...) and
//! decimal row numbers.

use vstd::prelude::*;
use vstd::string::*;

verus! {

/// The letter for digit `i` (0..26) of a column name.
pub open spec fn column_letter(i: int) -> char {
    "ABCDEFGHIJKLMNOPQRSTUVWXYZ"@[i]
}

/// The spreadsheet name of 1-based column `n`: bijective base 26 over
/// `A..Z`, so 1 is `A`, 26 is `Z`, 27 is `AA`. Empty for `n <= 0`.
pub open spec fn column_name(n: int) -> Seq<char>
    decreases n,
{
    if n <= 0 {
        Seq::empty()
    } else {
        column_name((n - 1) / 26).push(column_letter((n - 1) % 26))
    }
}

/// The character for decimal digit `i` (0..10).
pub open spec fn decimal_char(i: int) -> char {
    "0123456789"@[i]
}

/// Decimal digits of `n >= 0`, most significant first, with no leading
/// zero; empty for 0.
pub open spec fn digits_of(n: int) -> Seq<char>
    decreases n,
{
    if n <= 0 {
        Seq::empty()
    } else {
        digits_of(n / 10).push(decimal_char(n % 10))
    }
}

/// The decimal text of `v`: a minus sign for a negative value, `0` for
/// zero.
pub open spec fn decimal_text(v: int) -> Seq<char> {
    if v == 0 {
        seq!['0']
    } else if v < 0 {
        seq!['-'] + digits_of(-v)
    } else {
        digits_of(v)
    }
}

fn push_column_name(n: i64, out: &mut String)
    requires
        0 <= n <= i32::MAX,
    ensures
        final(out)@ == old(out)@ + column_name(n as int),
    decreases n,
{
    if n > 0 {
        push_column_name((n - 1) / 26, out);
        let letters = "ABCDEFGHIJKLMNOPQRSTUVWXYZ";
        proof {
            reveal_strlit("ABCDEFGHIJKLMNOPQRSTUVWXYZ");
        }
        let r = ((n - 1) % 26) as usize;
        let letter = letters.substring_ascii(r, r + 1);
        let ghost before = out@;
        out.append(letter);
        proof {
            assert(letter@ =~= seq![column_letter(r as int)]);
            assert(out@ =~= before + seq![column_letter(r as int)]);
        }
    }
}

fn push_digits(n: i64, out: &mut String)
    requires
        0 <= n,
    ensures
        final(out)@ == old(out)@ + digits_of(n as int),
    decreases n,
{
    if n > 0 {
        push_digits(n / 10, out);
        let digits = "0123456789";
        proof {
            reveal_strlit("0123456789");
        }
        let r = (n % 10) as usize;
        let digit = digits.substring_ascii(r, r + 1);
        let ghost before = out@;
        out.append(digit);
        proof {
            assert(digit@ =~= seq![decimal_char(r as int)]);
            assert(out@ =~= before + seq![decimal_char(r as int)]);
        }
    }
}

/// The spreadsheet name of a 1-based column: `A..Z`, `AA..AZ`, ...; empty
/// for a column below 1.
pub fn col_name(col: i32) -> (s: String)
    ensures
        s@ == column_name(col as int),
{
    let mut out = String::new();
    if col > 0 {
        push_column_name(col as i64, &mut out);
    } else {
        proof {
            assert(column_name(col as int) =~= Seq::<char>::empty());
        }
    }
    proof {
        assert(out@ =~= Seq::<char>::empty() + column_name(col as int));
    }
    out
}

/// The default row-header text: the row number in decimal.
pub fn row_number_text(row: i32) -> (s: String)
    ensures
        s@ == decimal_text(row as int),
{
    let mut out = String::new();
    if row == 0 {
        out.append("0");
        proof {
            reveal_strlit("0");
        }
    } else if row < 0 {
        out.append("-");
        proof {
            reveal_strlit("-");
        }
        push_digits(-(row as i64), &mut out);
    } else {
        push_digits(row as i64, &mut out);
        proof {
            assert(out@ =~= Seq::<char>::empty() + digits_of(row as int));
        }
    }
    out
}

} // verus!
