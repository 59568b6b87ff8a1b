use statement_harvest::extract::extract_field;
use statement_harvest::fields::employee_count_rules;
use statement_harvest::fields::extract_statement;
use statement_harvest::fields::net_pay_costs_rules;
use statement_harvest::fields::profit_rules;
use statement_harvest::fields::total_income_rules;
use statement_harvest::metric::average_pay_tenths;
use statement_harvest::sink::build_row;
use statement_harvest::sink::header_row;
use statement_harvest::text::capture_value;
use statement_harvest::text::parse_digits;

fn primary_income_row(value: &str) -> String {
    format!(
        "<td style=\"text-align: center;\">201</td><td></td><td style=\"text-align: right; padding-right: 8px\">{}</td>",
        value
    )
}

fn secondary_income_row(value: &str) -> String {
    format!(
        "<tr><td class=\"a\">x</td><td class=\"b\">y</td><td style=\"text-align: center;\">201</td><td class=\"c\">z</td><td style=\"text-align: right; padding-right: 8px\">{}</td>",
        value
    )
}

fn profit_row(value: &str) -> String {
    format!(
        "<td style=\"text-align: left\">IX. Neto sveobuhvatni rezultat (248+259)</td><td style=\"text-align: center;\">260</td><td></td><td style=\"text-align: right; padding-right: 8px\">{}</td>",
        value
    )
}

fn employee_row(value: &str) -> String {
    format!(
        "<td style=\"text-align: left\">Prosjecan broj zaposlenih u godini</td><td style=\"text-align: center;\">001</td><td></td><td style=\"text-align: right; padding-right: 8px\">{}</td>",
        value
    )
}

fn net_pay_row(value: &str) -> String {
    format!(
        "<td style=\"text-align: left\">a) Neto troskovi zarada, naknada zarada i licni rashodi</td><td style=\"text-align: center;\">212</td><td></td><td style=\"text-align: right; padding-right: 8px\">{}</td>",
        value
    )
}

#[test]
fn parse_digits_plain() {
    assert_eq!(parse_digits("123"), Some(123));
    assert_eq!(parse_digits("0"), Some(0));
    assert_eq!(parse_digits("007"), Some(7));
}

#[test]
fn parse_digits_rejects_non_digits() {
    assert_eq!(parse_digits(""), None);
    assert_eq!(parse_digits("12a"), None);
    assert_eq!(parse_digits("-5"), None);
    assert_eq!(parse_digits(" 5"), None);
}

#[test]
fn parse_digits_at_the_limit() {
    assert_eq!(parse_digits("18446744073709551615"), Some(u64::MAX));
    assert_eq!(parse_digits("18446744073709551616"), None);
    assert_eq!(parse_digits("99999999999999999999999999"), None);
}

#[test]
fn capture_value_sentinel() {
    assert_eq!(capture_value(&None), 0);
    assert_eq!(capture_value(&Some(String::from("250"))), 250);
    assert_eq!(capture_value(&Some(String::from("not a number"))), 0);
    assert_eq!(capture_value(&Some(String::from("99999999999999999999999999"))), 0);
}

#[test]
fn primary_income_layout_wins() {
    let doc = primary_income_row("5000000");
    let out = extract_field(&doc, &total_income_rules());
    assert!(out.matched);
    assert_eq!(out.value, 5000000);
}

#[test]
fn fallback_income_layout() {
    // Markup matching only the secondary total-income layout: the extractor
    // returns the secondary rule's captured value, not 0.
    let doc = secondary_income_row("77777");
    let out = extract_field(&doc, &total_income_rules());
    assert!(out.matched);
    assert_eq!(out.value, 77777);
}

#[test]
fn no_rule_matches_resolves_to_zero() {
    let doc = "<html><body>nothing of interest</body></html>";
    let out = extract_field(doc, &total_income_rules());
    assert!(!out.matched);
    assert_eq!(out.value, 0);
    let out = extract_field(doc, &profit_rules());
    assert!(!out.matched);
    assert_eq!(out.value, 0);
    let out = extract_field(doc, &employee_count_rules());
    assert!(!out.matched);
    assert_eq!(out.value, 0);
    let out = extract_field(doc, &net_pay_costs_rules());
    assert!(!out.matched);
    assert_eq!(out.value, 0);
}

#[test]
fn matched_but_unparsable_capture_is_zero() {
    // The capture is a digit run too large for the field: the rule matches,
    // the value degrades to the sentinel.
    let doc = primary_income_row("99999999999999999999999999");
    let out = extract_field(&doc, &total_income_rules());
    assert!(out.matched);
    assert_eq!(out.value, 0);
}

#[test]
fn whole_statement_extraction() {
    let doc = format!(
        "<table>{}{}{}{}</table>",
        primary_income_row("5000000"),
        profit_row("300000"),
        employee_row("10"),
        net_pay_row("1200000")
    );
    let f = extract_statement(&doc);
    assert_eq!(f.total_income.value, 5000000);
    assert_eq!(f.profit.value, 300000);
    assert_eq!(f.employee_count.value, 10);
    assert_eq!(f.net_pay_costs.value, 1200000);
    assert!(f.total_income.matched && f.profit.matched);
    assert!(f.employee_count.matched && f.net_pay_costs.matched);
}

#[test]
fn average_pay_zero_employees() {
    // employeeCount = 0 gives averagePay = 0.0 for any netPayCosts.
    assert_eq!(average_pay_tenths(0, 0), 0);
    assert_eq!(average_pay_tenths(144000, 0), 0);
    assert_eq!(average_pay_tenths(u64::MAX, 0), 0);
}

#[test]
fn average_pay_metric_law() {
    // employeeCount = 12, netPayCosts = 144000 gives averagePay = 1000.0.
    assert_eq!(average_pay_tenths(144000, 12), 10000);
    // A division that does not come out even truncates to tenths.
    assert_eq!(average_pay_tenths(100, 3), 27);
    assert_eq!(average_pay_tenths(u64::MAX, 1), u64::MAX / 12 * 10 + (u64::MAX % 12) * 10 / 12);
}

#[test]
fn header_is_exact() {
    assert_eq!(
        header_row(),
        "name,Year,totalIncome,profit,employeeCount,netPayCosts,averagePay"
    );
}

#[test]
fn row_rendering_plain() {
    let row = build_row("Acme", "2022", 5000000, 300000, 10, 1200000);
    assert_eq!(row, "Acme,2022,5000000,300000,10,1200000,10000.0");
}

#[test]
fn row_rendering_zero_employees() {
    let row = build_row("Acme", "2021", 0, 0, 0, 777);
    assert_eq!(row, "Acme,2021,0,0,0,777,0.0");
}

#[test]
fn row_rendering_quotes_special_names() {
    let row = build_row("Ac\"me, Inc", "2022", 1, 2, 0, 0);
    assert_eq!(row, "\"Ac\"\"me, Inc\",2022,1,2,0,0,0.0");
}

#[test]
fn row_rendering_extreme_values() {
    let row = build_row("A", "Y", u64::MAX, 0, 0, 0);
    assert_eq!(row, "A,Y,18446744073709551615,0,0,0,0.0");
}

#[test]
fn row_rendering_truncated_tenths() {
    // 100 / (3 * 12) = 2.77..., kept as 2.7 tenths-truncated.
    let row = build_row("A", "2020", 0, 0, 3, 100);
    assert_eq!(row, "A,2020,0,0,3,100,2.7");
}
