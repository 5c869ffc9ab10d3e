use n2a2ui::catalog::{Column, Component, Paragraph, RichText};
use n2a2ui::common::ChildList;
use n2a2ui::message::{MessageBody, BLOCK_CATALOG_ID, VERSION};
use n2a2ui::surface::Surface;

fn paragraph(id: &str, children: &[&str]) -> Component {
    Component::Paragraph(Paragraph {
        id: id.into(),
        children: ChildList::from_ids(children.iter().map(|s| s.to_string()).collect()),
        ..Default::default()
    })
}

#[test]
fn surface_insert_preserves_order() {
    let mut surface = Surface::new("root".to_string());
    surface.insert(Component::Column(Column {
        id: "root".into(),
        children: ChildList::from_ids(vec!["p1".to_string()]),
        ..Default::default()
    }));
    surface.insert(paragraph("p1", &["t1"]));
    surface.insert(Component::RichText(RichText {
        id: "t1".into(),
        text: "hello".into(),
        ..Default::default()
    }));
    assert_eq!(surface.len(), 3);
    assert_eq!(surface.components.get_index(0).unwrap().0, "root");
    assert_eq!(surface.components.get_index(2).unwrap().0, "t1");
}

#[test]
fn surface_insert_replaces_in_place() {
    let mut surface = Surface::new("root".to_string());
    surface.insert(paragraph("a", &[]));
    surface.insert(paragraph("b", &[]));
    surface.insert(paragraph("a", &["x"]));
    let ids: Vec<&str> = surface.components.keys().map(|k| k.as_str()).collect();
    assert_eq!(ids, vec!["a", "b"]);
    assert_eq!(surface.components.get("a"), Some(&paragraph("a", &["x"])));
    let list = surface.component_list();
    assert_eq!(list, vec![paragraph("a", &["x"]), paragraph("b", &[])]);
}

#[test]
fn surface_to_messages_is_create_then_update() {
    let mut surface = Surface::new("root".to_string());
    surface.insert(paragraph("a", &[]));
    surface.insert(paragraph("b", &[]));
    let messages = surface.to_messages("page".to_string(), BLOCK_CATALOG_ID.to_string());
    assert_eq!(messages.len(), 2);
    assert_eq!(messages[0].version, VERSION);
    match &messages[0].body {
        MessageBody::CreateSurface(c) => {
            assert_eq!(c.surface_id, "page");
            assert_eq!(c.catalog_id, BLOCK_CATALOG_ID);
            assert_eq!(c.theme, None);
            assert_eq!(c.send_data_model, None);
        }
        other => panic!("expected createSurface, got {other:?}"),
    }
    match &messages[1].body {
        MessageBody::UpdateComponents(u) => {
            assert_eq!(u.surface_id, "page");
            assert_eq!(u.components, vec![paragraph("a", &[]), paragraph("b", &[])]);
        }
        other => panic!("expected updateComponents, got {other:?}"),
    }
}

#[test]
fn surface_default_is_empty() {
    let surface = Surface::default();
    assert_eq!(surface.root, "");
    assert_eq!(surface.len(), 0);
}

#[test]
fn lookup_after_insert_gives_the_new_component_and_keeps_others() {
    let mut surface = Surface::new("root".to_string());
    surface.insert(paragraph("a", &["x"]));
    surface.insert(paragraph("b", &["y"]));
    surface.insert(paragraph("a", &["z"]));
    assert_eq!(surface.components.get("a"), Some(&paragraph("a", &["z"])));
    assert_eq!(surface.components.get("b"), Some(&paragraph("b", &["y"])));
    let keys: Vec<&str> = surface.components.keys().map(|k| k.as_str()).collect();
    assert_eq!(keys, vec!["a", "b"]);
    surface.insert(paragraph("c", &[]));
    let keys: Vec<&str> = surface.components.keys().map(|k| k.as_str()).collect();
    assert_eq!(keys, vec!["a", "b", "c"]);
}

#[test]
fn message_new_keeps_the_body_and_sets_the_version() {
    let body = MessageBody::DeleteSurface(n2a2ui::message::DeleteSurface { surface_id: "s".to_string() });
    let m = n2a2ui::message::Message::new(body);
    assert_eq!(m.version, VERSION);
    assert_eq!(m.body, MessageBody::DeleteSurface(n2a2ui::message::DeleteSurface { surface_id: "s".to_string() }));
}
