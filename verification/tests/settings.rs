use lelang::arg_parser::port_in_range;
use lelang::text::decimal_string;

#[test]
fn optimize_levels_in_range() {
    assert_eq!(port_in_range("0"), Ok(0));
    assert_eq!(port_in_range("3"), Ok(3));
    assert_eq!(port_in_range("+2"), Ok(2));
    assert_eq!(port_in_range("003"), Ok(3));
}

#[test]
fn optimize_level_out_of_range() {
    assert_eq!(port_in_range("4"), Err("Optimize level can only in range 0-3".to_string()));
    assert_eq!(port_in_range("18446744073709551615"), Err("Optimize level can only in range 0-3".to_string()));
}

#[test]
fn optimize_level_not_a_number() {
    assert_eq!(port_in_range("x"), Err("`x` isn't a valid optimize level number".to_string()));
    assert_eq!(port_in_range(""), Err("`` isn't a valid optimize level number".to_string()));
    assert_eq!(port_in_range("-1"), Err("`-1` isn't a valid optimize level number".to_string()));
    assert_eq!(port_in_range("+"), Err("`+` isn't a valid optimize level number".to_string()));
    assert_eq!(port_in_range("1 "), Err("`1 ` isn't a valid optimize level number".to_string()));
    assert_eq!(port_in_range("99999999999999999999999"), Err("`99999999999999999999999` isn't a valid optimize level number".to_string()));
}

#[test]
fn decimal_text() {
    assert_eq!(decimal_string(0), "0");
    assert_eq!(decimal_string(42), "42");
    assert_eq!(decimal_string(u64::MAX), "18446744073709551615");
}
