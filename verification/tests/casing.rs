use musicxml_xsd::string_stuff::{camel_case, pascal_case, Altered, Symbol};

#[test]
fn symbol_new_is_unaltered() {
    let s = Symbol::new("above-below");
    assert_eq!(s, Symbol::Unaltered("above-below".to_string()));
    assert_eq!(s.value(), "above-below");
}

#[test]
fn symbol_value_of_altered() {
    let s = Symbol::Altered(Altered {
        value: "AboveBelow".to_string(),
        original: "above-below".to_string(),
    });
    assert_eq!(s.value(), "AboveBelow");
}

#[test]
fn altered_display() {
    let a = Altered { value: "AboveBelow".to_string(), original: "above-below".to_string() };
    assert_eq!(a.display(), "AboveBelow(above-below)");
}

#[test]
fn pascal_case_alters_dashed_words() {
    let s = pascal_case("above-below");
    assert_eq!(
        s,
        Symbol::Altered(Altered {
            value: "AboveBelow".to_string(),
            original: "above-below".to_string(),
        })
    );
}

#[test]
fn pascal_case_uppercases_first_letter() {
    assert_eq!(pascal_case("mode").value(), "Mode");
}

#[test]
fn pascal_case_keeps_existing_pascal() {
    assert_eq!(pascal_case("AboveBelow"), Symbol::Unaltered("AboveBelow".to_string()));
}

#[test]
fn pascal_case_drops_spaces() {
    assert_eq!(pascal_case("time only").value(), "TimeOnly");
}

#[test]
fn camel_case_alters_dashed_words() {
    assert_eq!(camel_case("stem-value").value(), "stemValue");
}

#[test]
fn camel_case_keeps_leading_case() {
    assert_eq!(camel_case("Mode"), Symbol::Unaltered("Mode".to_string()));
}

#[test]
fn camel_case_lowercases_single_letter() {
    let s = camel_case("S");
    assert_eq!(
        s,
        Symbol::Altered(Altered { value: "s".to_string(), original: "S".to_string() })
    );
}

#[test]
fn camel_case_keeps_single_lowercase_letter() {
    assert_eq!(camel_case("s"), Symbol::Unaltered("s".to_string()));
}

#[test]
fn symbols_order_by_value() {
    let a = Symbol::new("alto");
    let b = Symbol::Altered(Altered { value: "baritone".to_string(), original: "BARITONE".to_string() });
    assert_eq!(a.partial_cmp(&b), Some(std::cmp::Ordering::Less));
    assert!(a < b);
    assert_eq!(a.partial_cmp(&Symbol::new("alto")), Some(std::cmp::Ordering::Equal));
}

#[test]
fn altered_orders_by_value_not_original() {
    let a = Altered { value: "a".to_string(), original: "zzz".to_string() };
    let b = Altered { value: "b".to_string(), original: "aaa".to_string() };
    assert!(a < b);
    assert_eq!(b.partial_cmp(&a), Some(std::cmp::Ordering::Greater));
    let p = Altered { value: "ab".to_string(), original: "x".to_string() };
    let q = Altered { value: "abc".to_string(), original: "x".to_string() };
    assert_eq!(p.partial_cmp(&q), Some(std::cmp::Ordering::Less));
}
