use ldap_exporter::name::convert_dn;

#[test]
fn derives_the_documented_name() {
    assert_eq!(
        convert_dn(String::from("cn=Total,cn=Connections,cn=Monitor")),
        "ldap_monitor_connections_total"
    );
}

#[test]
fn derivation_is_repeatable() {
    let first = convert_dn(String::from("cn=Max File Descriptors,cn=Connections,cn=Monitor"));
    let second = convert_dn(String::from("cn=Max File Descriptors,cn=Connections,cn=Monitor"));
    assert_eq!(first, second);
    assert_eq!(first, "ldap_monitor_connections_max_file_descriptors");
}

#[test]
fn casing_of_the_input_does_not_survive() {
    assert_eq!(
        convert_dn(String::from("cn=TOTAL,cn=monitor")),
        convert_dn(String::from("cn=total,cn=monitor"))
    );
    assert_eq!(convert_dn(String::from("cn=TOTAL,cn=monitor")), "ldap_monitor_total");
}

#[test]
fn components_without_cn_are_kept_whole() {
    assert_eq!(
        convert_dn(String::from("ou=People,dc=Example,dc=Org")),
        "ldap_dc=org_dc=example_ou=people"
    );
}

#[test]
fn only_a_leading_cn_in_small_letters_is_stripped() {
    assert_eq!(convert_dn(String::from("CN=Total")), "ldap_cn=total");
    assert_eq!(convert_dn(String::from("cn=a cn=b")), "ldap_a_cn=b");
}

#[test]
fn empty_name_gives_one_empty_component() {
    assert_eq!(convert_dn(String::new()), "ldap_");
    assert_eq!(convert_dn(String::from(",")), "ldap__");
    assert_eq!(convert_dn(String::from("cn=a,,cn=b")), "ldap_b__a");
}

#[test]
fn text_outside_ascii_is_lowered_by_unicode_rules() {
    assert_eq!(convert_dn(String::from("cn=ÉCOLE,cn=Monitor")), "ldap_monitor_école");
    assert_eq!(convert_dn(String::from("cn=ΟΔΟΣ")), "ldap_οδος");
}

#[test]
fn names_of_the_monitor_tree_suit_the_exposition_format() {
    let names = [
        "cn=Total,cn=Connections,cn=Monitor",
        "cn=Max File Descriptors,cn=Connections,cn=Monitor",
        "cn=Max Pending,cn=Threads,cn=Monitor",
        "cn=Uptime,cn=Time,cn=Monitor",
        "cn=Database 1,cn=Databases,cn=Monitor",
    ];
    for dn in names {
        let name = convert_dn(dn.to_string());
        let mut chars = name.chars();
        assert!(chars.next().unwrap().is_ascii_lowercase());
        assert!(chars.all(|c| c.is_ascii_lowercase() || c.is_ascii_digit() || c == '_'), "{}", name);
    }
}

#[test]
fn spaces_become_underscores() {
    assert_eq!(convert_dn(String::from("cn=a b  c")), "ldap_a_b__c");
    assert_eq!(convert_dn(String::from(" cn=x")), "ldap__cn=x");
}

#[test]
fn no_capital_letter_is_left_of_an_ascii_name() {
    let name = convert_dn(String::from("CN=ABC,OU=Def Ghi,cn=JKL MNO,dc=Example"));
    assert_eq!(name, "ldap_dc=example_jkl_mno_ou=def_ghi_cn=abc");
    assert!(!name.chars().any(|c| c.is_ascii_uppercase()));
}
