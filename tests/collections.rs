use mail_tm::domains::Domain;
use mail_tm::hydra::HydraCollection;
use mail_tm::list::HydraMember;

fn domain(name: &str) -> Domain {
    Domain {
        id: format!("/domains/{}", name),
        type_field: "Domain".to_string(),
        context: None,
        id2: name.to_string(),
        domain: name.to_string(),
        is_active: true,
        is_private: false,
        created_at: "2022-01-01T00:00:00+00:00".to_string(),
        updated_at: "2022-01-01T00:00:00+00:00".to_string(),
    }
}

#[test]
fn any_returns_a_member() {
    let page = HydraCollection::new(vec![domain("a.com"), domain("b.com"), domain("c.com")], 3);
    for _ in 0..50 {
        let picked = page.any().unwrap();
        assert!(page.members.contains(picked));
    }
}

#[test]
fn any_on_single_member() {
    let page = HydraCollection::new(vec![domain("only.com")], 1);
    assert_eq!(page.any(), Some(&domain("only.com")));
}

#[test]
fn any_on_empty_page_fails() {
    let page: HydraCollection<Domain> = HydraCollection::new(vec![], 0);
    assert_eq!(page.any(), None);
}

#[test]
fn member_at_bounds() {
    let page = HydraCollection::new(vec![domain("a.com"), domain("b.com")], 2);
    assert_eq!(page.member_at(1), Some(&domain("b.com")));
    assert_eq!(page.member_at(2), None);
}

#[test]
fn as_list_gives_domain_names_in_order() {
    let page = HydraCollection::new(vec![domain("a.com"), domain("b.com")], 2);
    assert_eq!(page.as_list(), vec!["a.com".to_string(), "b.com".to_string()]);
}

#[test]
fn total_and_page_size_are_independent() {
    let page = HydraCollection::new(vec![domain("a.com"), domain("b.com")], 5);
    assert_eq!(page.total_items, 5);
    assert_eq!(page.members.len(), 2);
    let copy = page.clone();
    assert_eq!(copy, page);
    assert_eq!(copy.total_items, 5);
    assert_eq!(copy.members.len(), 2);
}

#[test]
fn empty_message_page() {
    let page: HydraCollection<HydraMember> = HydraCollection::new(vec![], 0);
    assert!(page.members.is_empty());
    assert_eq!(page.total_items, 0);
    assert_eq!(page.any(), None);
}
