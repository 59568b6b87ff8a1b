//! CSV output: the fixed header and one row per harvested statement.

use vstd::prelude::*;
use crate::metric::average_pay_tenths;
use crate::metric::average_pay_tenths_spec;
use crate::text::chars_of;
use crate::text::dec_chars;
use crate::text::digit_char;
use crate::text::digit_to_char;
use crate::text::push_decimal;
use crate::text::string_from_chars;

verus! {

/// Characters that force a CSV field into quotes.
pub open spec fn csv_special(c: char) -> bool {
    c == ',' || c == '"' || c == '\n' || c == '\r'
}

/// Whether a field must be quoted to survive as one CSV column.
pub open spec fn needs_quoting(s: Seq<char>) -> bool {
    exists|i: int| 0 <= i < s.len() && csv_special(s[i])
}

/// A field's text with every quote doubled.
pub open spec fn escaped(s: Seq<char>) -> Seq<char>
    decreases s.len(),
{
    if s.len() == 0 {
        Seq::<char>::empty()
    } else if s.last() == '"' {
        escaped(s.drop_last()) + seq!['"', '"']
    } else {
        escaped(s.drop_last()) + seq![s.last()]
    }
}

/// A text rendered as one CSV column: quoted, with quotes doubled, exactly
/// when it holds a delimiter, a quote or a line break.
pub open spec fn csv_field(s: Seq<char>) -> Seq<char> {
    if needs_quoting(s) {
        seq!['"'] + escaped(s) + seq!['"']
    } else {
        s
    }
}

fn char_is_special(c: char) -> (r: bool)
    ensures
        r == csv_special(c),
{
    c == ',' || c == '"' || c == '\n' || c == '\r'
}

/// Append one CSV column holding the text `s`.
pub fn push_csv_field(out: &mut Vec<char>, s: &str)
    ensures
        final(out)@ == old(out)@ + csv_field(s@),
{
    let cs = chars_of(s);
    let mut special = false;
    let mut i: usize = 0;
    while i < cs.len()
        invariant
            i <= cs.len(),
            cs@ == s@,
            special == needs_quoting(s@.take(i as int)),
        decreases cs.len() - i,
    {
        if char_is_special(cs[i]) {
            special = true;
        }
        proof {
            assert(forall|k: int| 0 <= k < i as int + 1 ==> #[trigger] s@.take(i as int + 1)[k] == s@[k]);
            assert(forall|k: int| 0 <= k < i as int ==> #[trigger] s@.take(i as int)[k] == s@[k]);
            if csv_special(s@[i as int]) {
                assert(csv_special(s@.take(i as int + 1)[i as int]));
                assert(needs_quoting(s@.take(i as int + 1)));
            }
        }
        i += 1;
    }
    proof {
        assert(s@.take(cs@.len() as int) =~= s@);
    }
    if !special {
        let mut j: usize = 0;
        while j < cs.len()
            invariant
                j <= cs.len(),
                cs@ == s@,
                !needs_quoting(s@),
                out@ == old(out)@ + s@.take(j as int),
            decreases cs.len() - j,
        {
            out.push(cs[j]);
            proof {
                assert(s@.take(j as int + 1) =~= s@.take(j as int).push(s@[j as int]));
            }
            j += 1;
        }
        proof {
            assert(s@.take(cs@.len() as int) =~= s@);
        }
    } else {
        out.push('"');
        let mut j: usize = 0;
        while j < cs.len()
            invariant
                j <= cs.len(),
                cs@ == s@,
                needs_quoting(s@),
                out@ == old(out)@ + seq!['"'] + escaped(s@.take(j as int)),
            decreases cs.len() - j,
        {
            let c = cs[j];
            out.push(c);
            if c == '"' {
                out.push('"');
            }
            proof {
                assert(s@.take(j as int + 1).drop_last() =~= s@.take(j as int));
                assert(s@.take(j as int + 1).last() == s@[j as int]);
            }
            j += 1;
        }
        out.push('"');
        proof {
            assert(s@.take(cs@.len() as int) =~= s@);
        }
    }
}

/// The seven-column header, written exactly once when the sink is opened.
pub open spec fn header_chars() -> Seq<char> {
    "name,Year,totalIncome,profit,employeeCount,netPayCosts,averagePay"@
}

/// The header row of the CSV dataset.
pub fn header_row() -> (r: String)
    ensures
        r@ == header_chars(),
{
    String::from_str("name,Year,totalIncome,profit,employeeCount,netPayCosts,averagePay")
}

/// The average-pay column: tenths rendered with one decimal place.
pub open spec fn pay_chars(tenths: int) -> Seq<char> {
    dec_chars(tenths / 10) + seq!['.', digit_char(tenths % 10)]
}

/// One CSV row, in declared column order, without a line terminator.
pub open spec fn record_row(name: Seq<char>, year: Seq<char>, total_income: u64, profit: u64, employee_count: u64, net_pay_costs: u64) -> Seq<char> {
    csv_field(name) + seq![','] + csv_field(year) + seq![','] + dec_chars(total_income as int)
        + seq![','] + dec_chars(profit as int) + seq![','] + dec_chars(employee_count as int)
        + seq![','] + dec_chars(net_pay_costs as int) + seq![',']
        + pay_chars(average_pay_tenths_spec(net_pay_costs as int, employee_count as int))
}

/// Render one result record as a CSV row.
pub fn build_row(name: &str, year: &str, total_income: u64, profit: u64, employee_count: u64, net_pay_costs: u64) -> (r: String)
    ensures
        r@ == record_row(name@, year@, total_income, profit, employee_count, net_pay_costs),
{
    let mut out: Vec<char> = Vec::new();
    push_csv_field(&mut out, name);
    out.push(',');
    push_csv_field(&mut out, year);
    out.push(',');
    push_decimal(&mut out, total_income);
    out.push(',');
    push_decimal(&mut out, profit);
    out.push(',');
    push_decimal(&mut out, employee_count);
    out.push(',');
    push_decimal(&mut out, net_pay_costs);
    out.push(',');
    let tenths = average_pay_tenths(net_pay_costs, employee_count);
    push_decimal(&mut out, tenths / 10);
    out.push('.');
    out.push(digit_to_char(tenths % 10));
    proof {
        assert(out@ =~= record_row(name@, year@, total_income, profit, employee_count, net_pay_costs));
    }
    string_from_chars(&out)
}

} // verus!
