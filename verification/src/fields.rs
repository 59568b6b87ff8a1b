//! The extracted fields and their ordered pattern rules.
//!
//! Total income carries two rules because the portal's row layout changed
//! over time: the primary rule matches the older layout, the fallback the
//! newer one. Every other field currently has a single rule, but each field
//! is an ordered list, so a future layout drift is a data change, not a code
//! change. The bracketed character classes in two patterns stand for letters
//! with diacritics in the portal's row labels, keeping the source ASCII.

use vstd::prelude::*;
use crate::extract::FieldOutcome;
use crate::extract::Rule;
use crate::extract::RuleView;
use crate::extract::extract_field;
use crate::extract::field_value;
use crate::extract::first_capture;
use crate::sink::record_row;

verus! {

/// The ordered rules for the total-income field: the original layout first,
/// then the fallback for the reworked table.
pub open spec fn total_income_rules_view() -> Seq<RuleView> {
    seq![
        RuleView {
            pattern: "<td style=\"text-align: center;\">201</td>\\s*<td></td>\\s*<td style=\"text-align: right; padding-right: 8px\">(?<totalIncome>\\d+)</td>"@,
            group: "totalIncome"@,
        },
        RuleView {
            pattern: "<tr>\\s*<td.*?>.*?</td>\\s*<td.*?>.*?</td>\\s*<td style=\"text-align: center;\">201</td>\\s*<td.*?>.*?</td>\\s*<td style=\"text-align: right; padding-right: 8px\">(?<totalIncome>\\d+)</td>"@,
            group: "totalIncome"@,
        },
    ]
}

/// The single rule for the profit field.
pub open spec fn profit_rules_view() -> Seq<RuleView> {
    seq![
        RuleView {
            pattern: "<td style=\"text-align: left\">IX\\. Neto sveobuhvatni rezultat \\(248\\+259\\)</td>\\s*<td style=\"text-align: center;\">260</td>\\s*<td></td>\\s*<td style=\"text-align: right; padding-right: 8px\">(?<profit>\\d+)</td>"@,
            group: "profit"@,
        },
    ]
}

/// The single rule for the employee-count field.
pub open spec fn employee_count_rules_view() -> Seq<RuleView> {
    seq![
        RuleView {
            pattern: "<td style=\"text-align: left\">Prosje[^<]+an broj zaposlenih[^<]+</td>\\s*<td style=\"text-align: center;\">001</td>\\s*<td></td>\\s*<td style=\"text-align: right; padding-right: 8px\">(?<employeeCount>\\d+)</td>"@,
            group: "employeeCount"@,
        },
    ]
}

/// The single rule for the net-pay-costs field.
pub open spec fn net_pay_costs_rules_view() -> Seq<RuleView> {
    seq![
        RuleView {
            pattern: "<td style=\"text-align: left\">a\\) Neto tro[^<]+kovi zarada, naknada zarada i li[^<]+ni rashodi</td>\\s*<td style=\"text-align: center;\">212</td>\\s*<td></td>\\s*<td style=\"text-align: right; padding-right: 8px\">(?<netPayCosts>\\d+)</td>"@,
            group: "netPayCosts"@,
        },
    ]
}

fn make_rule(pattern: &str, group: &str) -> (r: Rule)
    ensures
        r@ == (RuleView { pattern: pattern@, group: group@ }),
{
    Rule { pattern: String::from_str(pattern), group: String::from_str(group) }
}

/// The total-income rules as executable values.
pub fn total_income_rules() -> (r: Vec<Rule>)
    ensures
        r@.map_values(|x: Rule| x@) == total_income_rules_view(),
{
    let mut v: Vec<Rule> = Vec::new();
    v.push(make_rule(
        "<td style=\"text-align: center;\">201</td>\\s*<td></td>\\s*<td style=\"text-align: right; padding-right: 8px\">(?<totalIncome>\\d+)</td>",
        "totalIncome",
    ));
    v.push(make_rule(
        "<tr>\\s*<td.*?>.*?</td>\\s*<td.*?>.*?</td>\\s*<td style=\"text-align: center;\">201</td>\\s*<td.*?>.*?</td>\\s*<td style=\"text-align: right; padding-right: 8px\">(?<totalIncome>\\d+)</td>",
        "totalIncome",
    ));
    proof {
        assert(v@.map_values(|x: Rule| x@) =~= total_income_rules_view());
    }
    v
}

/// The profit rules as executable values.
pub fn profit_rules() -> (r: Vec<Rule>)
    ensures
        r@.map_values(|x: Rule| x@) == profit_rules_view(),
{
    let mut v: Vec<Rule> = Vec::new();
    v.push(make_rule(
        "<td style=\"text-align: left\">IX\\. Neto sveobuhvatni rezultat \\(248\\+259\\)</td>\\s*<td style=\"text-align: center;\">260</td>\\s*<td></td>\\s*<td style=\"text-align: right; padding-right: 8px\">(?<profit>\\d+)</td>",
        "profit",
    ));
    proof {
        assert(v@.map_values(|x: Rule| x@) =~= profit_rules_view());
    }
    v
}

/// The employee-count rules as executable values.
pub fn employee_count_rules() -> (r: Vec<Rule>)
    ensures
        r@.map_values(|x: Rule| x@) == employee_count_rules_view(),
{
    let mut v: Vec<Rule> = Vec::new();
    v.push(make_rule(
        "<td style=\"text-align: left\">Prosje[^<]+an broj zaposlenih[^<]+</td>\\s*<td style=\"text-align: center;\">001</td>\\s*<td></td>\\s*<td style=\"text-align: right; padding-right: 8px\">(?<employeeCount>\\d+)</td>",
        "employeeCount",
    ));
    proof {
        assert(v@.map_values(|x: Rule| x@) =~= employee_count_rules_view());
    }
    v
}

/// The net-pay-costs rules as executable values.
pub fn net_pay_costs_rules() -> (r: Vec<Rule>)
    ensures
        r@.map_values(|x: Rule| x@) == net_pay_costs_rules_view(),
{
    let mut v: Vec<Rule> = Vec::new();
    v.push(make_rule(
        "<td style=\"text-align: left\">a\\) Neto tro[^<]+kovi zarada, naknada zarada i li[^<]+ni rashodi</td>\\s*<td style=\"text-align: center;\">212</td>\\s*<td></td>\\s*<td style=\"text-align: right; padding-right: 8px\">(?<netPayCosts>\\d+)</td>",
        "netPayCosts",
    ));
    proof {
        assert(v@.map_values(|x: Rule| x@) =~= net_pay_costs_rules_view());
    }
    v
}

/// The four fields of one statement, each with its miss flag.
pub struct StatementFields {
    pub total_income: FieldOutcome,
    pub profit: FieldOutcome,
    pub employee_count: FieldOutcome,
    pub net_pay_costs: FieldOutcome,
}

/// Extract every field of one statement document.
pub fn extract_statement(doc: &str) -> (r: StatementFields)
    ensures
        r.total_income.value == field_value(doc@, total_income_rules_view()),
        r.total_income.matched == (first_capture(doc@, total_income_rules_view()) is Some),
        r.profit.value == field_value(doc@, profit_rules_view()),
        r.profit.matched == (first_capture(doc@, profit_rules_view()) is Some),
        r.employee_count.value == field_value(doc@, employee_count_rules_view()),
        r.employee_count.matched == (first_capture(doc@, employee_count_rules_view()) is Some),
        r.net_pay_costs.value == field_value(doc@, net_pay_costs_rules_view()),
        r.net_pay_costs.matched == (first_capture(doc@, net_pay_costs_rules_view()) is Some),
{
    StatementFields {
        total_income: extract_field(doc, &total_income_rules()),
        profit: extract_field(doc, &profit_rules()),
        employee_count: extract_field(doc, &employee_count_rules()),
        net_pay_costs: extract_field(doc, &net_pay_costs_rules()),
    }
}

/// The CSV row that a statement document yields for an entity and a year.
pub open spec fn statement_row(name: Seq<char>, year: Seq<char>, doc: Seq<char>) -> Seq<char> {
    record_row(
        name,
        year,
        field_value(doc, total_income_rules_view()),
        field_value(doc, profit_rules_view()),
        field_value(doc, employee_count_rules_view()),
        field_value(doc, net_pay_costs_rules_view()),
    )
}

/// The names of the fields that no rule matched in a document, in declared
/// column order: the diagnostic that tells a zero sentinel from a true zero.
pub open spec fn miss_names(doc: Seq<char>) -> Seq<Seq<char>> {
    (if first_capture(doc, total_income_rules_view()) is Some {
        Seq::<Seq<char>>::empty()
    } else {
        seq!["totalIncome"@]
    }) + (if first_capture(doc, profit_rules_view()) is Some {
        Seq::<Seq<char>>::empty()
    } else {
        seq!["profit"@]
    }) + (if first_capture(doc, employee_count_rules_view()) is Some {
        Seq::<Seq<char>>::empty()
    } else {
        seq!["employeeCount"@]
    }) + (if first_capture(doc, net_pay_costs_rules_view()) is Some {
        Seq::<Seq<char>>::empty()
    } else {
        seq!["netPayCosts"@]
    })
}

} // verus!
