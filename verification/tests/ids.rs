use galaxy_graphql::ids::{i32_to_text, parse_i32, parse_id};

#[test]
fn parse_i32_accepts_what_std_accepts() {
    for text in ["0", "42", "-7", "+13", "2147483647", "-2147483648", "007", "-0"] {
        assert_eq!(parse_i32(text), text.parse::<i32>().ok(), "{}", text);
    }
}

#[test]
fn parse_i32_refuses_what_std_refuses() {
    for text in ["", "-", "+", "2147483648", "-2147483649", "1a", " 1", "1 ", "99999999999999999999", "--1", "+-1"] {
        assert_eq!(parse_i32(text), None, "{}", text);
        assert!(text.parse::<i32>().is_err());
    }
}

#[test]
fn i32_text_round_trip() {
    for n in [0, 1, 9, 10, 3, -1, -10, 12345, i32::MAX, i32::MIN] {
        let text = i32_to_text(n);
        assert_eq!(text, n.to_string());
        assert_eq!(parse_id(&text), n);
    }
}
