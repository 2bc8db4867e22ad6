use ihnet::labels::{first_label, split_labels};

#[test]
fn host_name_is_split_at_its_dots() {
    assert_eq!(split_labels("a.b.c"), vec!["a", "b", "c"]);
    assert_eq!(split_labels("localhost"), vec!["localhost"]);
    assert_eq!(split_labels(""), vec![""]);
    assert_eq!(split_labels("."), vec!["", ""]);
    assert_eq!(split_labels(".a."), vec!["", "a", ""]);
    assert_eq!(split_labels("a..b"), vec!["a", "", "b"]);
    assert_eq!(split_labels("\u{e9}t\u{e9}.example:80"), vec!["\u{e9}t\u{e9}", "example:80"]);
}

#[test]
fn joined_labels_are_the_host_name() {
    let hosts: Vec<&str> = vec!["a.b.c", "", ".", "x", "..x..", "id.localhost:61608"];
    for host in hosts {
        assert_eq!(split_labels(host).join("."), host);
    }
}

#[test]
fn split_agrees_with_the_standard_library() {
    let hosts: Vec<&str> = vec!["a.b.c", "", ".", "x", "..x..", "\u{1f600}.y"];
    for host in hosts {
        assert_eq!(split_labels(host), host.split('.').collect::<Vec<&str>>());
    }
}

#[test]
fn first_label_needs_a_dot() {
    assert_eq!(first_label("node.localhost"), Some("node"));
    assert_eq!(first_label("node."), Some("node"));
    assert_eq!(first_label(".localhost"), Some(""));
    assert_eq!(first_label("a.b.c"), Some("a"));
    assert_eq!(first_label("localhost"), None);
    assert_eq!(first_label(""), None);
}
