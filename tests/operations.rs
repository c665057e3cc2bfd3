use flowy_workspace::coordinator::{
    create_app_handler, delete_app_handler, read_app_handler, resume, update_app_handler, Effect,
    Event, Stage,
};
use flowy_workspace::entities::{
    App, CreateAppRequest, QueryAppRequest, UpdateAppRequest, WorkspaceView,
};
use flowy_workspace::errors::{ValidationError, WorkspaceError};
use flowy_workspace::trash::{AppTable, Trash, TrashType};

fn roadmap(belongings: Vec<WorkspaceView>) -> App {
    App {
        id: "app-42".to_string(),
        workspace_id: "ws-1".to_string(),
        name: "Roadmap".to_string(),
        desc: String::new(),
        position: 0,
        belongings,
    }
}

fn view(id: &str) -> WorkspaceView {
    WorkspaceView {
        id: id.to_string(),
        belong_to_id: "app-42".to_string(),
        name: id.to_string(),
    }
}

fn query(id: &str) -> QueryAppRequest {
    QueryAppRequest { app_id: id.to_string() }
}

fn roadmap_row() -> AppTable {
    AppTable {
        id: "app-42".to_string(),
        workspace_id: "ws-1".to_string(),
        name: "Roadmap".to_string(),
        desc: String::new(),
        modified_time: 20,
        create_time: 10,
    }
}

#[test]
fn create_returns_store_app_unchanged() {
    let step = create_app_handler(CreateAppRequest {
        workspace_id: "ws-1".to_string(),
        name: "Roadmap".to_string(),
        desc: String::new(),
        position: None,
    });
    assert_eq!(step.stage, Stage::Creating);
    match &step.effect {
        Effect::CreateApp(p) => {
            assert_eq!(p.name(), "Roadmap");
            assert_eq!(p.workspace_id(), "ws-1");
        }
        other => panic!("unexpected effect {:?}", other),
    }
    let last = resume(step.stage, Event::AppCreated(Ok(roadmap(vec![]))));
    assert_eq!(last.stage, Stage::Finished);
    assert_eq!(last.effect, Effect::ReturnApp(roadmap(vec![])));
}

#[test]
fn create_with_empty_name_calls_no_store() {
    let step = create_app_handler(CreateAppRequest {
        workspace_id: "ws-1".to_string(),
        name: String::new(),
        desc: String::new(),
        position: None,
    });
    assert_eq!(step.stage, Stage::Finished);
    assert_eq!(
        step.effect,
        Effect::Fail(WorkspaceError::Validation(ValidationError::AppNameEmpty))
    );
}

#[test]
fn create_store_error_is_passed_on() {
    let step = create_app_handler(CreateAppRequest {
        workspace_id: "ws-1".to_string(),
        name: "Roadmap".to_string(),
        desc: String::new(),
        position: Some(2),
    });
    let err = WorkspaceError::Subsystem("duplicate name".to_string());
    let last = resume(step.stage, Event::AppCreated(Err(err.clone())));
    assert_eq!(last.stage, Stage::Finished);
    assert_eq!(last.effect, Effect::Fail(err));
}

#[test]
fn read_attaches_views_in_order() {
    let step = read_app_handler(query("app-42"));
    assert_eq!(step.stage, Stage::ReadingApp("app-42".to_string()));
    match &step.effect {
        Effect::ReadApp(id) => assert_eq!(id.app_id(), "app-42"),
        other => panic!("unexpected effect {:?}", other),
    }
    let second = resume(step.stage, Event::AppRead(Ok(roadmap(vec![]))));
    assert_eq!(second.effect, Effect::ReadViewsBelongTo("app-42".to_string()));
    let last = resume(second.stage, Event::ViewsRead(Ok(vec![view("v-1"), view("v-2")])));
    assert_eq!(last.stage, Stage::Finished);
    assert_eq!(last.effect, Effect::ReturnApp(roadmap(vec![view("v-1"), view("v-2")])));
}

#[test]
fn read_replaces_stale_belongings() {
    let step = read_app_handler(query("app-42"));
    let second = resume(step.stage, Event::AppRead(Ok(roadmap(vec![view("old")]))));
    let last = resume(second.stage, Event::ViewsRead(Ok(vec![view("v-9")])));
    assert_eq!(last.effect, Effect::ReturnApp(roadmap(vec![view("v-9")])));
}

#[test]
fn read_of_missing_app_fails_without_more_calls() {
    let step = read_app_handler(query("app-7"));
    let err = WorkspaceError::NotFound("app-7".to_string());
    let last = resume(step.stage, Event::AppRead(Err(err.clone())));
    assert_eq!(last.stage, Stage::Finished);
    assert_eq!(last.effect, Effect::Fail(err));
    assert!(!last.stage.accepts(&Event::TrashAdded(Ok(()))));
    assert!(!last.stage.accepts(&Event::ViewsRead(Ok(vec![]))));
}

#[test]
fn read_view_store_error_aborts_composition() {
    let step = read_app_handler(query("app-42"));
    let second = resume(step.stage, Event::AppRead(Ok(roadmap(vec![]))));
    let err = WorkspaceError::Subsystem("view store down".to_string());
    let last = resume(second.stage, Event::ViewsRead(Err(err.clone())));
    assert_eq!(last.stage, Stage::Finished);
    assert_eq!(last.effect, Effect::Fail(err));
}

#[test]
fn read_with_empty_id_calls_no_store() {
    let step = read_app_handler(query(""));
    assert_eq!(step.stage, Stage::Finished);
    assert_eq!(
        step.effect,
        Effect::Fail(WorkspaceError::Validation(ValidationError::AppIdEmpty))
    );
}

#[test]
fn update_hands_params_to_store() {
    let step = update_app_handler(UpdateAppRequest {
        app_id: "app-42".to_string(),
        name: Some("Plans".to_string()),
        desc: None,
        position: None,
    });
    assert_eq!(step.stage, Stage::Updating);
    match &step.effect {
        Effect::UpdateApp(p) => {
            assert_eq!(p.app_id(), "app-42");
            assert_eq!(p.name(), &Some("Plans".to_string()));
        }
        other => panic!("unexpected effect {:?}", other),
    }
    let last = resume(step.stage, Event::AppUpdated(Ok(())));
    assert_eq!(last.stage, Stage::Finished);
    assert_eq!(last.effect, Effect::ReturnNothing);
}

#[test]
fn update_with_no_fields_hands_empty_changeset() {
    let step = update_app_handler(UpdateAppRequest {
        app_id: "app-42".to_string(),
        name: None,
        desc: None,
        position: None,
    });
    match &step.effect {
        Effect::UpdateApp(p) => {
            assert!(p.changes_nothing());
            let mut app = roadmap(vec![view("v-1")]);
            p.apply_to(&mut app);
            assert_eq!(app, roadmap(vec![view("v-1")]));
        }
        other => panic!("unexpected effect {:?}", other),
    }
}

#[test]
fn update_store_error_is_passed_on() {
    let step = update_app_handler(UpdateAppRequest {
        app_id: "app-42".to_string(),
        name: None,
        desc: Some("d".to_string()),
        position: None,
    });
    let err = WorkspaceError::NotFound("app-42".to_string());
    let last = resume(step.stage, Event::AppUpdated(Err(err.clone())));
    assert_eq!(last.effect, Effect::Fail(err));
}

#[test]
fn update_with_empty_name_calls_no_store() {
    let step = update_app_handler(UpdateAppRequest {
        app_id: "app-42".to_string(),
        name: Some(String::new()),
        desc: None,
        position: None,
    });
    assert_eq!(step.stage, Stage::Finished);
    assert_eq!(
        step.effect,
        Effect::Fail(WorkspaceError::Validation(ValidationError::AppNameEmpty))
    );
}

#[test]
fn delete_sends_one_trash_entry_per_row() {
    let step = delete_app_handler(query("app-42"));
    assert_eq!(step.stage, Stage::ResolvingTables);
    assert_eq!(step.effect, Effect::ReadAppTables(vec!["app-42".to_string()]));
    let second = resume(step.stage, Event::AppTablesRead(Ok(vec![roadmap_row()])));
    assert_eq!(second.stage, Stage::AddingTrash);
    assert_eq!(
        second.effect,
        Effect::AddTrash(vec![Trash {
            id: "app-42".to_string(),
            name: "Roadmap".to_string(),
            modified_time: 20,
            create_time: 10,
            ty: TrashType::App,
        }])
    );
    let last = resume(second.stage, Event::TrashAdded(Ok(())));
    assert_eq!(last.stage, Stage::Finished);
    assert_eq!(last.effect, Effect::ReturnNothing);
}

#[test]
fn delete_with_no_rows_still_calls_trash() {
    let step = delete_app_handler(query("app-42"));
    let second = resume(step.stage, Event::AppTablesRead(Ok(vec![])));
    assert_eq!(second.stage, Stage::AddingTrash);
    assert_eq!(second.effect, Effect::AddTrash(vec![]));
}

#[test]
fn delete_of_missing_app_writes_no_trash() {
    let step = delete_app_handler(query("app-7"));
    let err = WorkspaceError::NotFound("app-7".to_string());
    let last = resume(step.stage, Event::AppTablesRead(Err(err.clone())));
    assert_eq!(last.stage, Stage::Finished);
    assert_eq!(last.effect, Effect::Fail(err));
    assert!(!last.stage.accepts(&Event::TrashAdded(Ok(()))));
}

#[test]
fn delete_trash_error_is_passed_on() {
    let step = delete_app_handler(query("app-42"));
    let second = resume(step.stage, Event::AppTablesRead(Ok(vec![roadmap_row()])));
    let err = WorkspaceError::Subsystem("trash full".to_string());
    let last = resume(second.stage, Event::TrashAdded(Err(err.clone())));
    assert_eq!(last.stage, Stage::Finished);
    assert_eq!(last.effect, Effect::Fail(err));
}

#[test]
fn delete_with_empty_id_calls_no_store() {
    let step = delete_app_handler(query(""));
    assert!(step.stage.is_finished());
    assert_eq!(
        step.effect,
        Effect::Fail(WorkspaceError::Validation(ValidationError::AppIdEmpty))
    );
}

#[test]
fn stages_accept_only_their_event() {
    assert!(Stage::Creating.accepts(&Event::AppCreated(Ok(roadmap(vec![])))));
    assert!(!Stage::Creating.accepts(&Event::AppRead(Ok(roadmap(vec![])))));
    assert!(Stage::Updating.accepts(&Event::AppUpdated(Ok(()))));
    assert!(Stage::AddingTrash.accepts(&Event::TrashAdded(Ok(()))));
    assert!(!Stage::AddingTrash.accepts(&Event::AppTablesRead(Ok(vec![]))));
    assert!(!Stage::Creating.is_finished());
}
