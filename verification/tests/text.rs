use bellini::text::bool_str;
use bellini::text::join_with_commas;
use bellini::text::u16_dec_string;

#[test]
fn join_then_split_recovers_the_list() {
    let parts = vec![
        "a".to_owned(),
        "".to_owned(),
        "10.0.0.0/8".to_owned(),
        "fc00:0:0:0:0:0:0:0/7".to_owned(),
    ];
    let joined = join_with_commas(&parts);
    let back: Vec<String> = joined.split(',').map(|p| p.to_owned()).collect();
    assert_eq!(back, parts);
}

#[test]
fn join_of_small_lists() {
    assert_eq!(join_with_commas(&vec!["one".to_owned()]), "one");
    assert_eq!(join_with_commas(&Vec::new()), "");
    assert_eq!(join_with_commas(&vec!["".to_owned(), "".to_owned()]), ",");
}

#[test]
fn decimal_text_is_exact() {
    assert_eq!(u16_dec_string(0), "0");
    assert_eq!(u16_dec_string(9), "9");
    assert_eq!(u16_dec_string(10), "10");
    assert_eq!(u16_dec_string(800), "800");
    assert_eq!(u16_dec_string(65535), "65535");
}

#[test]
fn boolean_words() {
    assert_eq!(bool_str(true), "true");
    assert_eq!(bool_str(false), "false");
}
