use super_cat::policy::{has_protected_name, protected_name_bytes};

#[test]
fn protected_name_is_flag_txt() {
    assert_eq!(protected_name_bytes(), b"flag.txt".to_vec());
}

#[test]
fn bare_protected_name_matches() {
    assert!(has_protected_name(&b"flag.txt".to_vec()));
}

#[test]
fn nested_protected_name_matches() {
    assert!(has_protected_name(&b"a/b/flag.txt".to_vec()));
    assert!(has_protected_name(&b"/srv/data/flag.txt".to_vec()));
}

#[test]
fn trailing_separators_are_ignored() {
    assert!(has_protected_name(&b"flag.txt/".to_vec()));
    assert!(has_protected_name(&b"dir/flag.txt//".to_vec()));
}

#[test]
fn longer_names_do_not_match() {
    assert!(!has_protected_name(&b"myflag.txt".to_vec()));
    assert!(!has_protected_name(&b"flag.txt.bak".to_vec()));
}

#[test]
fn other_components_do_not_match() {
    assert!(!has_protected_name(&b"flag.txt/notes.txt".to_vec()));
    assert!(!has_protected_name(&b"notes.txt".to_vec()));
}

#[test]
fn empty_and_root_do_not_match() {
    assert!(!has_protected_name(&b"".to_vec()));
    assert!(!has_protected_name(&b"/".to_vec()));
    assert!(!has_protected_name(&b"///".to_vec()));
}

#[test]
fn near_names_do_not_match() {
    assert!(!has_protected_name(&b"flag.txf".to_vec()));
    assert!(!has_protected_name(&b"glag.txt".to_vec()));
    assert!(!has_protected_name(&b"flag_txt".to_vec()));
}
