use ldap_exporter::render::{last_word, render, render_labelled, render_plain};

#[test]
fn plain_line_has_name_and_value() {
    assert_eq!(render("ldap_x", "monitorCounter", "42", false), "ldap_x 42\n");
}

#[test]
fn labelled_line_has_the_stage_of_the_key() {
    assert_eq!(
        render("ldap_operations", "monitorOpInitiated", "17", true),
        "ldap_operations{stage=\"initiated\"} 17\n"
    );
    assert_eq!(
        render("ldap_operations", "monitorOpCompleted", "16", true),
        "ldap_operations{stage=\"completed\"} 16\n"
    );
}

#[test]
fn key_of_one_word_is_its_own_label() {
    assert_eq!(render("ldap_y", "counter", "1", true), "ldap_y{stage=\"counter\"} 1\n");
    assert_eq!(render("ldap_y", "Counter", "1", true), "ldap_y{stage=\"counter\"} 1\n");
}

#[test]
fn value_is_carried_through_as_it_is() {
    assert_eq!(render("ldap_t", "monitoredInfo", "not a number", false), "ldap_t not a number\n");
    assert_eq!(render("ldap_t", "monitoredInfo", "", false), "ldap_t \n");
    assert_eq!(render("ldap_t", "monitoredInfo", "0042", true), "ldap_t{stage=\"info\"} 0042\n");
}

#[test]
fn key_plays_no_part_without_label_mode() {
    assert_eq!(
        render("ldap_x", "monitorOpInitiated", "5", false),
        render("ldap_x", "somethingElse", "5", false)
    );
}

#[test]
fn last_word_is_what_follows_the_last_underscore() {
    assert_eq!(last_word("monitor_op_initiated"), "initiated");
    assert_eq!(last_word("single"), "single");
    assert_eq!(last_word(""), "");
    assert_eq!(last_word("trailing_"), "");
    assert_eq!(last_word("_x"), "x");
    assert_eq!(last_word("a__b"), "b");
}

#[test]
fn line_writers_put_the_parts_together() {
    assert_eq!(render_plain("n", "v"), "n v\n");
    assert_eq!(render_labelled("n", "l", "v"), "n{stage=\"l\"} v\n");
    assert_eq!(render_plain("", ""), " \n");
    assert_eq!(render_labelled("", "", ""), "{stage=\"\"} \n");
}
