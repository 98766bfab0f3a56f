use consul::params::Params;

fn text(s: &str) -> String {
    String::from(s)
}

fn pairs(params: &Params) -> Vec<(String, String)> {
    params.entries().clone()
}

#[test]
fn a_new_list_is_empty() {
    let params = Params::new();
    assert_eq!(params.len(), 0);
    assert!(params.entries().is_empty());
    assert_eq!(params.get(&text("dc")), None);
}

#[test]
fn names_keep_the_order_in_which_they_came() {
    let mut params = Params::new();
    params.insert(text("recurse"), text(""));
    params.insert(text("dc"), text("dc1"));
    params.insert(text("index"), text("7"));
    assert_eq!(
        pairs(&params),
        vec![
            (text("recurse"), text("")),
            (text("dc"), text("dc1")),
            (text("index"), text("7")),
        ]
    );
    assert_eq!(params.len(), 3);
}

#[test]
fn a_name_given_again_takes_the_new_value_in_place() {
    let mut params = Params::new();
    params.insert(text("dc"), text("dc1"));
    params.insert(text("wait"), text("5s"));
    params.insert(text("dc"), text("dc2"));
    assert_eq!(
        pairs(&params),
        vec![(text("dc"), text("dc2")), (text("wait"), text("5s"))]
    );
    assert_eq!(params.len(), 2);
}

#[test]
fn a_value_is_found_by_its_name() {
    let mut params = Params::new();
    params.insert(text("flags"), text("42"));
    params.insert(text("acquire"), text("session"));
    assert_eq!(params.get(&text("flags")), Some(&text("42")));
    assert_eq!(params.get(&text("acquire")), Some(&text("session")));
    assert_eq!(params.get(&text("release")), None);
    assert_eq!(params.get(&text("Flags")), None);
}

#[test]
fn setting_one_name_leaves_the_others() {
    let mut params = Params::new();
    params.insert(text("a"), text("1"));
    params.insert(text("b"), text("2"));
    params.insert(text("a"), text("3"));
    assert_eq!(params.get(&text("a")), Some(&text("3")));
    assert_eq!(params.get(&text("b")), Some(&text("2")));
}
