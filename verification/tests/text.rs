use plantbuddy::text::{
    chars_of, first_field_of, i64_to_decimal, last_field_of, parse_i32_of,
    push_terminated, split_string, wrap_text,
};

#[test]
fn wrapping_breaks_after_thirty_bytes() {
    assert_eq!(
        wrap_text("Lorem ipsum dolor sit amet, consectetur adipiscing elit."),
        "Lorem ipsum dolor sit amet, \nconsectetur adipiscing elit. "
    );
    assert_eq!(wrap_text(""), "");
    assert_eq!(wrap_text("  a \t b\n"), "a b ");
    // A single long word gets a break before it.
    assert_eq!(wrap_text("abcdefghijklmnopqrstuvwxyzabcdefg"), "\nabcdefghijklmnopqrstuvwxyzabcdefg ");
    // Bytes, not characters, are counted: 16 two-byte letters pass 30 bytes.
    assert_eq!(wrap_text("ääääääää ääääääää"), "ääääääää \nääääääää ");
}

#[test]
fn splitting_on_a_delimiter() {
    assert_eq!(split_string("a;b;;c", ';'), vec!["a", "b", "", "c"]);
    assert_eq!(split_string("", ';'), vec![""]);
    assert_eq!(split_string("tip;", ';'), vec!["tip", ""]);
    assert_eq!(first_field_of("40;10", ';'), "40");
    assert_eq!(last_field_of("40;10", ';'), "10");
    assert_eq!(first_field_of("7", ';'), "7");
    assert_eq!(last_field_of("1;2;3", ';'), "3");
}

#[test]
fn joining_with_terminators() {
    let mut s = String::from(">");
    push_terminated(&mut s, &vec!["a".to_string(), "b".to_string()], ';');
    assert_eq!(s, ">a;b;");
}

#[test]
fn parsing_numbers_like_std() {
    for text in ["0", "42", "-42", "+7", "2147483647", "-2147483648", "2147483648", "", "-", "+", "4a", " 1", "00012", "-0"] {
        assert_eq!(parse_i32_of(text), text.parse::<i32>().ok(), "{:?}", text);
    }
}

#[test]
fn decimal_numbers_like_std() {
    for n in [0i64, 7, -7, 10, 1234567890, i64::MAX, i64::MIN] {
        assert_eq!(i64_to_decimal(n), n.to_string());
    }
}

#[test]
fn characters_of_a_text() {
    assert_eq!(chars_of("aä€"), vec!['a', 'ä', '€']);
}

#[test]
fn wrapping_laws_on_examples() {
    for text in [
        "Lorem ipsum dolor sit amet, consectetur adipiscing elit.",
        "short words only",
        "  a \t b\n",
        "ääääääää ääääääää",
    ] {
        let r = wrap_text(text);
        assert_eq!(wrap_text(&r), r);
        let spaced: String = text.split_whitespace().map(|w| format!("{} ", w)).collect();
        assert_eq!(r.replace('\n', ""), spaced);
        let total: usize = text.split_whitespace().map(|w| w.len()).sum();
        assert_eq!(r.contains('\n'), total > 30);
    }
}
