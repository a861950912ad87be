//! Rendering a record into the device's line format.
//!
//! An accepted record becomes exactly one line,
//! `<priority>target[pid]: message` followed by a single newline, where
//! `priority` and `pid` are rendered in decimal.

use vstd::prelude::*;
use vstd::string::StringExecFns;

use crate::level::{priority, priority_spec, Severity};

verus! {

/// The decimal digit character for `d`.
pub open spec fn digit_char(d: int) -> char {
    if d == 0 {
        '0'
    } else if d == 1 {
        '1'
    } else if d == 2 {
        '2'
    } else if d == 3 {
        '3'
    } else if d == 4 {
        '4'
    } else if d == 5 {
        '5'
    } else if d == 6 {
        '6'
    } else if d == 7 {
        '7'
    } else if d == 8 {
        '8'
    } else {
        '9'
    }
}

/// The decimal rendering of `n`, most significant digit first, with no
/// leading zero except for `n == 0` itself.
pub open spec fn dec_digits(n: nat) -> Seq<char>
    decreases n,
{
    if n < 10 {
        seq![digit_char(n as int)]
    } else {
        dec_digits(n / 10).push(digit_char((n % 10) as int))
    }
}

/// The exact line the device receives for a record: the priority code in
/// angle brackets, the target verbatim, the process id in square
/// brackets, a colon and one space, the message verbatim, one newline.
pub open spec fn line_spec(s: Severity, target: Seq<char>, pid: nat, msg: Seq<char>) -> Seq<char> {
    seq!['<'] + dec_digits(priority_spec(s) as nat) + seq!['>'] + target + seq!['[']
        + dec_digits(pid) + seq![']', ':', ' '] + msg + seq!['\n']
}

/// The digits of `ds` read back to front, as characters: `ds` holds a
/// number's digits least significant first, the result reads most
/// significant first.
spec fn digits_rev_chars(ds: Seq<u8>) -> Seq<char> {
    Seq::new(ds.len(), |i: int| digit_char(ds[ds.len() - 1 - i] as int))
}

proof fn lemma_rev_push(ds: Seq<u8>, d: u8)
    ensures
        digits_rev_chars(ds.push(d)) =~= seq![digit_char(d as int)] + digits_rev_chars(ds),
{
}

/// Appends the single decimal digit `d` to `out`.
fn append_digit(out: &mut String, d: u8)
    requires
        d < 10,
    ensures
        final(out)@ == old(out)@ + seq![digit_char(d as int)],
{
    proof {
        reveal_strlit("0");
        reveal_strlit("1");
        reveal_strlit("2");
        reveal_strlit("3");
        reveal_strlit("4");
        reveal_strlit("5");
        reveal_strlit("6");
        reveal_strlit("7");
        reveal_strlit("8");
        reveal_strlit("9");
    }
    match d {
        0 => out.append("0"),
        1 => out.append("1"),
        2 => out.append("2"),
        3 => out.append("3"),
        4 => out.append("4"),
        5 => out.append("5"),
        6 => out.append("6"),
        7 => out.append("7"),
        8 => out.append("8"),
        _ => out.append("9"),
    }
    proof {
        assert(final(out)@ =~= old(out)@ + seq![digit_char(d as int)]);
    }
}

/// Appends the decimal rendering of `n` to `out`.
pub fn append_decimal(out: &mut String, n: u32)
    ensures
        final(out)@ == old(out)@ + dec_digits(n as nat),
{
    let mut digits: Vec<u8> = Vec::new();
    let mut m: u32 = n;
    loop
        invariant_except_break
            digits@.len() == 0 ==> m == n,
            digits@.len() > 0 ==> m > 0 && dec_digits(n as nat) == dec_digits(m as nat)
                + digits_rev_chars(digits@),
        invariant
            forall|j: int| 0 <= j < digits@.len() ==> digits@[j] < 10,
        ensures
            dec_digits(n as nat) == digits_rev_chars(digits@),
        decreases m, (if digits@.len() == 0 { 1int } else { 0int }),
    {
        let ghost digits_before = digits@;
        let ghost m_before = m;
        let d: u8 = (m % 10) as u8;
        digits.push(d);
        m = m / 10;
        proof {
            lemma_rev_push(digits_before, d);
            if digits_before.len() == 0 {
                if m_before < 10 {
                    assert(dec_digits(n as nat) =~= digits_rev_chars(digits@));
                } else {
                    assert(dec_digits(n as nat) =~= dec_digits(m as nat)
                        + digits_rev_chars(digits@));
                }
            } else {
                if m_before < 10 {
                    assert(dec_digits(n as nat) =~= digits_rev_chars(digits@));
                } else {
                    assert(dec_digits(m_before as nat) == dec_digits(m as nat).push(
                        digit_char((m_before % 10) as int)));
                    assert(dec_digits(n as nat) =~= dec_digits(m as nat)
                        + digits_rev_chars(digits@));
                }
            }
        }
        if m == 0 {
            break;
        }
    }
    let ghost out_start = out@;
    let mut i: usize = digits.len();
    while i > 0
        invariant
            i <= digits@.len(),
            forall|j: int| 0 <= j < digits@.len() ==> digits@[j] < 10,
            dec_digits(n as nat) == digits_rev_chars(digits@),
            out@ == out_start + dec_digits(n as nat).subrange(0, digits@.len() - i),
        decreases i,
    {
        let ghost k = digits@.len() - i;
        let d = digits[i - 1];
        append_digit(out, d);
        proof {
            assert(dec_digits(n as nat)[k] == digit_char(digits@[i - 1] as int));
            assert(dec_digits(n as nat).subrange(0, k + 1) =~= dec_digits(n as nat).subrange(
                0,
                k,
            ).push(dec_digits(n as nat)[k]));
        }
        i = i - 1;
    }
    proof {
        assert(dec_digits(n as nat).subrange(0, digits@.len() as int) =~= dec_digits(n as nat));
    }
}

/// Renders the line for a record of severity `s` with the given target,
/// process id and message: `<priority>target[pid]: message` and a newline.
pub fn format_line(s: Severity, target: &str, pid: u32, msg: &str) -> (line: String)
    ensures
        line@ == line_spec(s, target@, pid as nat, msg@),
{
    let mut line = String::new();
    line.append("<");
    append_decimal(&mut line, priority(s) as u32);
    line.append(">");
    line.append(target);
    line.append("[");
    append_decimal(&mut line, pid);
    line.append("]: ");
    line.append(msg);
    line.append("\n");
    proof {
        reveal_strlit("<");
        reveal_strlit(">");
        reveal_strlit("[");
        reveal_strlit("]: ");
        reveal_strlit("\n");
        assert(line@ =~= line_spec(s, target@, pid as nat, msg@));
    }
    line
}

/// Law: every rendered line leads with the opening bracket, then exactly
/// the table's priority code for its severity — a single digit, 3 through
/// 7 — then the closing bracket.
pub proof fn lemma_line_priority(s: Severity, target: Seq<char>, pid: nat, msg: Seq<char>)
    ensures
        3 <= priority_spec(s) <= 7,
        line_spec(s, target, pid, msg)[0] == '<',
        line_spec(s, target, pid, msg)[1] == digit_char(priority_spec(s)),
        line_spec(s, target, pid, msg)[2] == '>',
{
    assert(dec_digits(priority_spec(s) as nat) =~= seq![digit_char(priority_spec(s))]);
}

} // verus!
