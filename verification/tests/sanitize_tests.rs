use samba_mounter::sanitize::sanitize_server_name;

#[test]
fn strips_network_prefix_and_replaces_separators() {
    assert_eq!(sanitize_server_name("//myserver/share"), "myserver_share");
}

#[test]
fn replaces_each_hostile_character() {
    assert_eq!(sanitize_server_name("a\\b:c?d*e"), "a_b_c_d_e");
}

#[test]
fn empty_input_stays_empty() {
    assert_eq!(sanitize_server_name(""), "");
}

#[test]
fn consecutive_slash_pairs_are_dropped() {
    assert_eq!(sanitize_server_name("////"), "");
    assert_eq!(sanitize_server_name("a///b"), "a_b");
    assert_eq!(sanitize_server_name("///"), "_");
}

#[test]
fn sanitizing_twice_changes_nothing() {
    let once = sanitize_server_name("//host:445/share?*\\x");
    let twice = sanitize_server_name(&once);
    assert_eq!(twice, once);
}

#[test]
fn output_holds_no_hostile_characters() {
    let out = sanitize_server_name("//host:445/share?*\\x//y");
    for c in out.chars() {
        assert!(c != '/' && c != '\\' && c != ':' && c != '?' && c != '*');
    }
    assert!(!out.contains("//"));
}

#[test]
fn plain_names_are_kept() {
    assert_eq!(sanitize_server_name("myserver_share"), "myserver_share");
}
