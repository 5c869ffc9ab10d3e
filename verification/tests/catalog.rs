use n2a2ui::catalog::{
    Component, Decoration, HeadingLevel, Paragraph, RichText,
};
use n2a2ui::common::{ChildList, DynamicString};

#[test]
fn heading_level_numbers() {
    assert_eq!(u8::from(HeadingLevel::H1), 1);
    assert_eq!(u8::from(HeadingLevel::H6), 6);
    for n in 1u8..=6 {
        let level = HeadingLevel::try_from(n).unwrap();
        assert_eq!(u8::from(level), n);
    }
}

#[test]
fn heading_level_rejects_out_of_range() {
    assert_eq!(
        HeadingLevel::try_from(0),
        Err("invalid heading level 0 (expected 1..=6)".to_string())
    );
    assert_eq!(
        HeadingLevel::try_from(7),
        Err("invalid heading level 7 (expected 1..=6)".to_string())
    );
    assert_eq!(
        HeadingLevel::try_from(255),
        Err("invalid heading level 255 (expected 1..=6)".to_string())
    );
}

#[test]
fn defaults() {
    assert_eq!(ChildList::default(), ChildList::Static(Vec::new()));
    assert_eq!(DynamicString::default(), DynamicString::Literal(String::new()));
    assert_eq!(HeadingLevel::default(), HeadingLevel::H1);
}

#[test]
fn dynamic_string_from() {
    assert_eq!(DynamicString::from("hi"), DynamicString::Literal("hi".to_string()));
    assert_eq!(
        DynamicString::from("hi".to_string()),
        DynamicString::literal("hi".to_string())
    );
}

#[test]
fn child_list_from_ids_keeps_order() {
    let list = ChildList::from_ids(vec!["b".to_string(), "a".to_string()]);
    assert_eq!(list, ChildList::Static(vec!["b".to_string(), "a".to_string()]));
}

#[test]
fn component_id_and_clone() {
    let para = Component::Paragraph(Paragraph {
        id: "p1".into(),
        children: ChildList::from_ids(vec!["t1".to_string()]),
        ..Default::default()
    });
    let rich = Component::RichText(RichText {
        id: "t1".into(),
        text: "hello".into(),
        decoration: Some(vec![Decoration::Bold]),
        ..Default::default()
    });
    assert_eq!(para.id(), "p1");
    assert_eq!(rich.id(), "t1");
    assert_eq!(para.clone(), para);
    assert_eq!(rich.clone(), rich);
}
