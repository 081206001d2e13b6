use murale::outputs::{
    available_outputs, choose_output, find_target_output, OutputChoice, OutputInfo,
};

fn named(name: &str) -> Option<OutputInfo> {
    Some(OutputInfo { name: Some(name.to_string()) })
}

fn outputs() -> Vec<Option<OutputInfo>> {
    vec![
        named("DP-1"),
        None,
        Some(OutputInfo { name: None }),
        named("HDMI-A-1"),
        named("DP-2"),
        named("DP-2"),
    ]
}

fn everything() -> Vec<String> {
    ["DP-1", "(unnamed)", "HDMI-A-1", "DP-2", "DP-2"].iter().map(|s| s.to_string()).collect()
}

#[test]
fn the_first_output_with_the_name_is_found() {
    assert_eq!(find_target_output(&outputs(), "HDMI-A-1"), Some(3));
    assert_eq!(find_target_output(&outputs(), "DP-2"), Some(4));
    assert_eq!(find_target_output(&outputs(), "DP-1"), Some(0));
}

#[test]
fn names_have_to_match_in_full() {
    assert_eq!(find_target_output(&outputs(), "DP"), None);
    assert_eq!(find_target_output(&outputs(), "dp-1"), None);
    assert_eq!(find_target_output(&outputs(), "(unnamed)"), None);
    assert_eq!(find_target_output(&vec![], "DP-1"), None);
}

#[test]
fn described_outputs_are_listed() {
    assert_eq!(available_outputs(&outputs()), everything());
    assert_eq!(available_outputs(&vec![None, None]), Vec::<String>::new());
}

#[test]
fn the_choice_follows_the_request() {
    assert_eq!(choose_output(&outputs(), &Some("DP-2".to_string())), OutputChoice::Target(4));
    assert_eq!(
        choose_output(&outputs(), &Some("VGA-1".to_string())),
        OutputChoice::NotFound { available: everything() }
    );
}

#[test]
fn only_a_found_output_is_named() {
    assert_eq!(choose_output(&outputs(), &Some("DP-2".to_string())).target(), Some(4));
    assert_eq!(choose_output(&outputs(), &Some("VGA-1".to_string())).target(), None);
    assert_eq!(choose_output(&outputs(), &None).target(), None);
}

#[test]
fn without_a_request_the_outputs_are_shown() {
    assert_eq!(
        choose_output(&outputs(), &None),
        OutputChoice::Unspecified { available: everything() }
    );
}
