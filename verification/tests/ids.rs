use n2a2ui::id::{child_id, list_group_id, notion_page_url, ROOT_ID};

#[test]
fn child_id_is_parent_slot_index() {
    assert_eq!(child_id("p-1", "rich_text", 0), "p-1::rich_text/0");
    assert_eq!(child_id("row-a", "cell", 12), "row-a::cell/12");
    assert_eq!(child_id("x", "todo_mark", 1024), "x::todo_mark/1024");
}

#[test]
fn child_ids_of_different_indices_differ() {
    let a = child_id("p", "rich_text", 1);
    let b = child_id("p", "rich_text", 10);
    assert_ne!(a, b);
}

#[test]
fn list_group_id_appends_list() {
    assert_eq!(list_group_id("b-1"), "b-1::list");
    assert_eq!(list_group_id(""), "::list");
}

#[test]
fn notion_page_url_strips_dashes() {
    assert_eq!(
        notion_page_url("1a2b-3c4d-5e6f"),
        "https://www.notion.so/1a2b3c4d5e6f"
    );
    assert_eq!(notion_page_url("----"), "https://www.notion.so/");
    assert_eq!(notion_page_url(""), "https://www.notion.so/");
}

#[test]
fn root_id_is_root() {
    assert_eq!(ROOT_ID, "root");
}
