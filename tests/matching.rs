use address_finder::{address_matches, matches_lowered};

fn some(s: &str) -> Option<String> {
    Some(s.to_string())
}

#[test]
fn no_criteria_accepts_any_address() {
    for a in ["0x7e5f4552091a69125d5dfcb7b8c2659029395bdf", "", "0x", "xyz", "0XABC"] {
        assert!(address_matches(a, &None, &None));
    }
}

#[test]
fn prefix_is_compared_after_the_marker_and_without_case() {
    assert!(address_matches("0xAB12cd", &some("ab"), &None));
    assert!(address_matches("0xab12cd", &some("AB"), &None));
    assert!(address_matches("ab12cd", &some("ab"), &None));
    assert!(!address_matches("0xba12cd", &some("ab"), &None));
    assert!(!address_matches("0x", &some("ab"), &None));
}

#[test]
fn upper_case_marker_is_not_stripped() {
    assert!(!address_matches("0XAB12", &some("ab"), &None));
    assert!(address_matches("0XAB12", &some("0xab"), &None));
}

#[test]
fn suffix_is_compared_without_case() {
    assert!(address_matches("0x12cdEF", &None, &some("ef")));
    assert!(!address_matches("0x12cdEF", &None, &some("cd")));
    assert!(address_matches("0x12cdEF", &some("12"), &some("DEF")));
    assert!(!address_matches("0x12cdEF", &some("13"), &some("def")));
}

#[test]
fn longer_criteria_than_address_fail() {
    assert!(!address_matches("0xab", &some("abc"), &None));
    assert!(!address_matches("0xab", &None, &some("cab")));
}

#[test]
fn lowered_values_compare_exactly() {
    assert!(matches_lowered("ab12", &some("ab"), &some("12")));
    assert!(!matches_lowered("ab12", &some("AB"), &None));
    assert!(matches_lowered("", &some(""), &some("")));
    assert!(!matches_lowered("a", &None, &some("ba")));
}
