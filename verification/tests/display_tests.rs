use mcd_cli::display::result_text;

#[test]
fn structured_content_is_shown_as_is() {
    assert_eq!(result_text(true, &vec![Some("x".to_string())]), None);
}

#[test]
fn text_parts_are_joined_in_order() {
    let parts = vec![Some("ab".to_string()), None, Some("cd".to_string())];
    assert_eq!(result_text(false, &parts), Some("abcd".to_string()));
    assert_eq!(result_text(false, &vec![]), Some(String::new()));
}
