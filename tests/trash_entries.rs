use flowy_workspace::trash::{trash_from_tables, AppTable, Trash, TrashType};

fn row(id: &str, name: &str, t: i64) -> AppTable {
    AppTable {
        id: id.to_string(),
        workspace_id: "ws-1".to_string(),
        name: name.to_string(),
        desc: String::new(),
        modified_time: t + 1,
        create_time: t,
    }
}

#[test]
fn row_becomes_app_trash() {
    let t = Trash::from(row("app-42", "Roadmap", 100));
    assert_eq!(
        t,
        Trash {
            id: "app-42".to_string(),
            name: "Roadmap".to_string(),
            modified_time: 101,
            create_time: 100,
            ty: TrashType::App,
        }
    );
}

#[test]
fn rows_become_trash_in_order() {
    let out = trash_from_tables(vec![row("a", "A", 1), row("b", "B", 5), row("c", "C", 9)]);
    let ids: Vec<&str> = out.iter().map(|t| t.id.as_str()).collect();
    assert_eq!(ids, vec!["a", "b", "c"]);
    assert_eq!(out[1].create_time, 5);
    assert_eq!(out[2].modified_time, 10);
    assert!(out.iter().all(|t| t.ty == TrashType::App));
}

#[test]
fn no_rows_give_no_trash() {
    assert!(trash_from_tables(vec![]).is_empty());
}
