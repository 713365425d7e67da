use ormolu::naming::{naive_pluralize, naive_singularize, ToPlural, ToSingular};

#[test]
fn test_to_singular() {
    assert_eq!("cat".to_singular(), "cat");
    assert_eq!("dogs".to_singular(), "dog");
    assert_eq!("men".to_singular(), "man");
    assert_eq!("women".to_singular(), "woman");
    assert_eq!("studies".to_singular(), "study");

    let s = String::from("boxes");
    assert_eq!(s.to_singular(), "box");

    let t = String::from("foxes");
    assert_eq!(t.to_singular(), "fox");
}

#[test]
fn test_to_plural() {
    assert_eq!("cat".to_plural(), "cats");
    assert_eq!("dog".to_plural(), "dogs");
    assert_eq!("man".to_plural(), "men");
    assert_eq!("woman".to_plural(), "women");

    let s = String::from("cat");
    assert_eq!(s.to_plural(), "cats");

    let t = String::from("dog");
    assert_eq!(t.to_plural(), "dogs");
}

#[test]
fn plural_of_a_name_that_ends_in_s_stays() {
    assert_eq!(naive_pluralize("orders"), "orders");
    assert_eq!(naive_pluralize(""), "s");
}

#[test]
fn singular_keeps_a_double_s() {
    assert_eq!(naive_singularize("address"), "address");
    assert_eq!(naive_singularize("s"), "");
    assert_eq!(naive_singularize(""), "");
}

#[test]
fn only_the_named_words_leave_the_rule() {
    assert_eq!(naive_pluralize("human"), "humans");
    assert_eq!(naive_pluralize("fireman"), "firemans");
    assert_eq!(naive_pluralize("woman"), "women");
    assert_eq!(naive_singularize("axes"), "axe");
    assert_eq!(naive_singularize("taxes"), "taxe");
    assert_eq!(naive_singularize("omen"), "omen");
    assert_eq!(naive_singularize("boxes"), "box");
    assert_eq!(naive_singularize("foxes"), "fox");
    assert_eq!(naive_singularize("women"), "woman");
    assert_eq!(naive_singularize("ies"), "y");
    assert_eq!(naive_singularize(&naive_pluralize("order")), "order");
}
