use file_compressor::{compression_level_hint, parse_level};

#[test]
fn test_parse_level_valid() {
    assert_eq!(parse_level("1").unwrap(), 1);
    assert_eq!(parse_level("10").unwrap(), 10);
    assert_eq!(parse_level("21").unwrap(), 21);
}

#[test]
fn test_parse_level_invalid_range() {
    assert!(parse_level("0").is_err());
    assert!(parse_level("22").is_err());
    assert!(parse_level("-1").is_err());
}

#[test]
fn test_parse_level_invalid_format() {
    assert!(parse_level("abc").is_err());
    assert!(parse_level("").is_err());
    assert!(parse_level("3.5").is_err());
}

#[test]
fn parse_level_accepts_a_sign_and_leading_zeros() {
    assert_eq!(parse_level("+7"), Ok(7));
    assert_eq!(parse_level("007"), Ok(7));
    assert_eq!(parse_level("+021"), Ok(21));
}

#[test]
fn parse_level_names_the_integer_that_is_out_of_range() {
    assert_eq!(
        parse_level("0"),
        Err("Livello 0 fuori intervallo: usa un valore tra 1 e 21".to_string())
    );
    assert_eq!(
        parse_level("22"),
        Err("Livello 22 fuori intervallo: usa un valore tra 1 e 21".to_string())
    );
    assert_eq!(
        parse_level("-1"),
        Err("Livello -1 fuori intervallo: usa un valore tra 1 e 21".to_string())
    );
    assert_eq!(
        parse_level("-0"),
        Err("Livello 0 fuori intervallo: usa un valore tra 1 e 21".to_string())
    );
    assert_eq!(
        parse_level("2147483647"),
        Err("Livello 2147483647 fuori intervallo: usa un valore tra 1 e 21".to_string())
    );
    assert_eq!(
        parse_level("-2147483648"),
        Err("Livello -2147483648 fuori intervallo: usa un valore tra 1 e 21".to_string())
    );
}

#[test]
fn parse_level_names_the_text_that_is_no_integer() {
    for text in ["abc", "", "3.5", " 3", "3 ", "+", "-", "--1", "1e1", "2147483648", "-2147483649",
        "99999999999999999999", "٣"]
    {
        assert_eq!(
            parse_level(text),
            Err(format!("Valore '{}' non valido: specifica un intero tra 1 e 21", text)),
            "{:?}",
            text
        );
    }
}

#[test]
fn parse_level_agrees_with_the_standard_integer_parser() {
    let samples = [
        "0", "1", "21", "22", "+1", "-1", "+", "-", "", "0000000000000000000000021", "1_0", "１",
        "2147483647", "2147483648", "-2147483648", "-2147483649", "12a", "a12", "+-1", "4294967297",
    ];
    for text in samples {
        let level = match text.parse::<i32>() {
            Ok(v) if (1..=21).contains(&v) => Some(v),
            _ => None,
        };
        assert_eq!(parse_level(text).ok(), level, "{:?}", text);
    }
}

#[test]
fn compression_level_hint_names_each_band() {
    assert_eq!(compression_level_hint(1), "(veloce)");
    assert_eq!(compression_level_hint(3), "(veloce)");
    assert_eq!(compression_level_hint(4), "(bilanciato)");
    assert_eq!(compression_level_hint(9), "(bilanciato)");
    assert_eq!(compression_level_hint(10), "(lento)");
    assert_eq!(compression_level_hint(15), "(lento)");
    assert_eq!(compression_level_hint(16), "(molto lento)");
    assert_eq!(compression_level_hint(21), "(molto lento)");
    assert_eq!(compression_level_hint(0), "");
    assert_eq!(compression_level_hint(22), "");
    assert_eq!(compression_level_hint(-5), "");
}
