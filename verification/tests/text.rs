use syqure::text::{
    chars_end_with, chars_of, chars_start_with, copy_strings, ends_with, same_chars, starts_with,
    str_eq,
};

#[test]
fn chars_of_lists_the_characters() {
    assert_eq!(chars_of(""), Vec::<char>::new());
    assert_eq!(chars_of("a/b"), vec!['a', '/', 'b']);
    assert_eq!(chars_of("é→ü"), vec!['é', '→', 'ü']);
}

#[test]
fn strings_are_equal_when_their_characters_are() {
    assert!(str_eq("", ""));
    assert!(str_eq("codon", "codon"));
    assert!(!str_eq("codon", "codom"));
    assert!(!str_eq("codon", "codo"));
    assert!(!str_eq("", "a"));
    assert!(str_eq("é", "é"));
    assert!(same_chars(&['a', 'b'], &['a', 'b']));
    assert!(!same_chars(&['a', 'b'], &['b', 'a']));
    assert!(!same_chars(&['a'], &[]));
}

#[test]
fn prefix_is_recognised() {
    assert!(starts_with("sock.1", "sock."));
    assert!(starts_with("sock.", "sock."));
    assert!(starts_with("anything", ""));
    assert!(starts_with("", ""));
    assert!(!starts_with("sock", "sock."));
    assert!(!starts_with("", "s"));
    assert!(!starts_with("xsock.", "sock."));
    assert!(starts_with("éa", "é"));
    assert!(chars_start_with(&['a', 'b', 'c'], &['a', 'b']));
    assert!(!chars_start_with(&['a', 'b', 'c'], &['b']));
}

#[test]
fn suffix_is_recognised() {
    assert!(ends_with("lib.so", ".so"));
    assert!(ends_with(".so", ".so"));
    assert!(ends_with("anything", ""));
    assert!(ends_with("", ""));
    assert!(!ends_with("so", ".so"));
    assert!(!ends_with("lib.so.1", ".so"));
    assert!(!ends_with("", "o"));
    assert!(ends_with("aé", "é"));
    assert!(chars_end_with(&['a', 'b', 'c'], &['b', 'c']));
    assert!(!chars_end_with(&['a', 'b', 'c'], &['b']));
}

#[test]
fn prefix_and_suffix_agree_with_the_standard_library() {
    let texts = ["", "a", "ab", "abc", "sock.", "sock.9", ".so", "x.so", "ééé", "éé", "aba"];
    for text in texts {
        for part in texts {
            assert_eq!(starts_with(text, part), text.starts_with(part), "{:?} {:?}", text, part);
            assert_eq!(ends_with(text, part), text.ends_with(part), "{:?} {:?}", text, part);
            assert_eq!(str_eq(text, part), text == part, "{:?} {:?}", text, part);
        }
    }
}

#[test]
fn copy_of_a_list_is_the_list() {
    let list = vec![String::from("a"), String::new(), String::from("é b")];
    assert_eq!(copy_strings(&list), list);
    assert_eq!(copy_strings(&Vec::new()), Vec::<String>::new());
}
