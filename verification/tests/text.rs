use ldap_exporter::text::{chars_of, concat_lines, split_chars, string_of};

#[test]
fn chars_and_strings_go_back_and_forth() {
    assert_eq!(chars_of("a,b"), vec!['a', ',', 'b']);
    assert_eq!(chars_of(""), Vec::<char>::new());
    assert_eq!(chars_of("é√"), vec!['é', '√']);
    assert_eq!(string_of(&vec!['x', 'y']), "xy");
    assert_eq!(string_of(&Vec::new()), "");
    assert_eq!(string_of(&chars_of("cn=Monitor")), "cn=Monitor");
}

#[test]
fn split_gives_the_pieces_between_separators() {
    let pieces = |text: &str| -> Vec<String> {
        split_chars(&chars_of(text), ',').iter().map(string_of).collect()
    };
    assert_eq!(pieces("a,b,c"), vec!["a", "b", "c"]);
    assert_eq!(pieces("abc"), vec!["abc"]);
    assert_eq!(pieces(""), vec![""]);
    assert_eq!(pieces(","), vec!["", ""]);
    assert_eq!(pieces("a,,b,"), vec!["a", "", "b", ""]);
}

#[test]
fn split_agrees_with_the_standard_split() {
    for text in ["", ",", "cn=Total,cn=Connections,cn=Monitor", ",a", "a,", "a,,b", ",,,"] {
        let ours: Vec<String> = split_chars(&chars_of(text), ',').iter().map(string_of).collect();
        let theirs: Vec<String> = text.split(',').map(String::from).collect();
        assert_eq!(ours, theirs);
    }
}

#[test]
fn lines_are_written_one_behind_the_other() {
    assert_eq!(concat_lines(&Vec::new()), "");
    assert_eq!(concat_lines(&vec!["a 1\n".to_string(), "b 2\n".to_string()]), "a 1\nb 2\n");
    assert_eq!(concat_lines(&vec!["".to_string(), "x".to_string(), "".to_string()]), "x");
}
