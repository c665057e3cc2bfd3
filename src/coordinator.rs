//! The four app operations as a step machine. Each operation starts from a
//! raw request and yields an effect for the host to perform: a call into
//! the app, view or trash store, or a final answer. The host performs the
//! call and feeds its result back as an event; the machine then decides
//! the next effect. The machine keeps no state between operations.
use vstd::prelude::*;

use crate::entities::{
    App, AppIdentifier, CreateAppParams, CreateAppRequest, QueryAppRequest, UpdateAppParams,
    UpdateAppRequest, WorkspaceView, create_request_error, query_request_error,
    update_request_error,
};
use crate::errors::WorkspaceError;
use crate::trash::{AppTable, Trash, trash_from_tables, trash_of_all};

verus! {

/// Where an operation stands between two calls into the stores.
#[derive(Debug, PartialEq, Eq)]
pub enum Stage {
    /// Waiting for the app store to create the app.
    Creating,
    /// Waiting for the app store to return the app with this id.
    ReadingApp(String),
    /// Waiting for the view store to return the views of this app.
    ReadingViews(App),
    /// Waiting for the app store to apply an update.
    Updating,
    /// Waiting for the app store to resolve the app into table rows.
    ResolvingTables,
    /// Waiting for the trash store to take the entries.
    AddingTrash,
    /// The operation has answered; no further event is taken.
    Finished,
}

/// What the host is asked to do next.
#[derive(Debug, PartialEq, Eq)]
pub enum Effect {
    CreateApp(CreateAppParams),
    ReadApp(AppIdentifier),
    ReadViewsBelongTo(String),
    UpdateApp(UpdateAppParams),
    ReadAppTables(Vec<String>),
    AddTrash(Vec<Trash>),
    /// Answer the caller with this app.
    ReturnApp(App),
    /// Answer the caller with success and no value.
    ReturnNothing,
    /// Answer the caller with this error.
    Fail(WorkspaceError),
}

/// The result of the call that an effect asked for.
#[derive(Debug, PartialEq, Eq)]
pub enum Event {
    AppCreated(Result<App, WorkspaceError>),
    AppRead(Result<App, WorkspaceError>),
    ViewsRead(Result<Vec<WorkspaceView>, WorkspaceError>),
    AppUpdated(Result<(), WorkspaceError>),
    AppTablesRead(Result<Vec<AppTable>, WorkspaceError>),
    TrashAdded(Result<(), WorkspaceError>),
}

/// The machine's answer to a request or an event.
#[derive(Debug, PartialEq, Eq)]
pub struct Step {
    pub stage: Stage,
    pub effect: Effect,
}

/// `step` ends the operation with an answer.
pub open spec fn answers(step: Step, effect: Effect) -> bool {
    step.stage is Finished && step.effect == effect
}

/// The event is the one the stage waits for.
pub open spec fn stage_accepts(stage: Stage, event: Event) -> bool {
    match stage {
        Stage::Creating => event is AppCreated,
        Stage::ReadingApp(_) => event is AppRead,
        Stage::ReadingViews(_) => event is ViewsRead,
        Stage::Updating => event is AppUpdated,
        Stage::ResolvingTables => event is AppTablesRead,
        Stage::AddingTrash => event is TrashAdded,
        Stage::Finished => false,
    }
}

/// The app composed for a read: the stored app with its views attached.
pub open spec fn with_belongings(app: App, views: Vec<WorkspaceView>) -> App {
    App { belongings: views, ..app }
}

/// The step that a create request leads to.
pub open spec fn starts_create(req: CreateAppRequest, step: Step) -> bool {
    match create_request_error(req) {
        Some(e) => answers(step, Effect::Fail(WorkspaceError::Validation(e))),
        None => {
            &&& step.stage is Creating
            &&& step.effect matches Effect::CreateApp(p)
            &&& p@ == req.params_view()
        },
    }
}

/// The step that a read request leads to.
pub open spec fn starts_read(req: QueryAppRequest, step: Step) -> bool {
    match query_request_error(req) {
        Some(e) => answers(step, Effect::Fail(WorkspaceError::Validation(e))),
        None => {
            &&& step.stage matches Stage::ReadingApp(s)
            &&& s@ == req.app_id@
            &&& step.effect matches Effect::ReadApp(id)
            &&& id@ == req.app_id@
        },
    }
}

/// The step that an update request leads to.
pub open spec fn starts_update(req: UpdateAppRequest, step: Step) -> bool {
    match update_request_error(req) {
        Some(e) => answers(step, Effect::Fail(WorkspaceError::Validation(e))),
        None => {
            &&& step.stage is Updating
            &&& step.effect matches Effect::UpdateApp(p)
            &&& p@ == req.params_view()
        },
    }
}

/// The step that a delete request leads to: one lookup of the rows for
/// exactly the one id.
pub open spec fn starts_delete(req: QueryAppRequest, step: Step) -> bool {
    match query_request_error(req) {
        Some(e) => answers(step, Effect::Fail(WorkspaceError::Validation(e))),
        None => {
            &&& step.stage is ResolvingTables
            &&& step.effect matches Effect::ReadAppTables(ids)
            &&& ids@.len() == 1
            &&& ids@[0]@ == req.app_id@
        },
    }
}

/// The step that `event` leads to from `stage`. Every store error ends the
/// operation with that error, unchanged.
pub open spec fn transition(stage: Stage, event: Event, step: Step) -> bool {
    match (stage, event) {
        (Stage::Creating, Event::AppCreated(Ok(app))) => answers(step, Effect::ReturnApp(app)),
        (Stage::ReadingApp(app_id), Event::AppRead(Ok(app))) => step.stage
            == Stage::ReadingViews(app) && step.effect == Effect::ReadViewsBelongTo(app_id),
        (Stage::ReadingViews(app), Event::ViewsRead(Ok(views))) => answers(
            step,
            Effect::ReturnApp(with_belongings(app, views)),
        ),
        (Stage::Updating, Event::AppUpdated(Ok(()))) => answers(step, Effect::ReturnNothing),
        (Stage::ResolvingTables, Event::AppTablesRead(Ok(rows))) => {
            &&& step.stage is AddingTrash
            &&& step.effect matches Effect::AddTrash(entries)
            &&& entries@ == trash_of_all(rows@)
        },
        (Stage::AddingTrash, Event::TrashAdded(Ok(()))) => answers(step, Effect::ReturnNothing),
        (Stage::Creating, Event::AppCreated(Err(e))) => answers(step, Effect::Fail(e)),
        (Stage::ReadingApp(_), Event::AppRead(Err(e))) => answers(step, Effect::Fail(e)),
        (Stage::ReadingViews(_), Event::ViewsRead(Err(e))) => answers(step, Effect::Fail(e)),
        (Stage::Updating, Event::AppUpdated(Err(e))) => answers(step, Effect::Fail(e)),
        (Stage::ResolvingTables, Event::AppTablesRead(Err(e))) => answers(step, Effect::Fail(e)),
        (Stage::AddingTrash, Event::TrashAdded(Err(e))) => answers(step, Effect::Fail(e)),
        _ => false,
    }
}

fn finish(effect: Effect) -> (r: Step)
    ensures
        answers(r, effect),
{
    Step { stage: Stage::Finished, effect }
}

/// Starts a create: validates the request, then asks the app store to
/// create the app.
pub fn create_app_handler(data: CreateAppRequest) -> (r: Step)
    ensures
        starts_create(data, r),
{
    match data.try_into_params() {
        Ok(params) => Step { stage: Stage::Creating, effect: Effect::CreateApp(params) },
        Err(e) => finish(Effect::Fail(WorkspaceError::Validation(e))),
    }
}

/// Starts a read: validates the request, then asks the app store for the
/// app; its views are asked for once the app has come back.
pub fn read_app_handler(data: QueryAppRequest) -> (r: Step)
    ensures
        starts_read(data, r),
{
    match data.try_into_identifier() {
        Ok(id) => {
            let app_id = id.app_id().clone();
            Step { stage: Stage::ReadingApp(app_id), effect: Effect::ReadApp(id) }
        },
        Err(e) => finish(Effect::Fail(WorkspaceError::Validation(e))),
    }
}

/// Starts an update: validates the request, then hands the parameters to
/// the app store.
pub fn update_app_handler(data: UpdateAppRequest) -> (r: Step)
    ensures
        starts_update(data, r),
{
    match data.try_into_params() {
        Ok(params) => Step { stage: Stage::Updating, effect: Effect::UpdateApp(params) },
        Err(e) => finish(Effect::Fail(WorkspaceError::Validation(e))),
    }
}

/// Starts a delete: validates the request, then asks the app store for the
/// table rows of that one app. Nothing is removed from the app store: the
/// rows go to the trash once they have come back.
pub fn delete_app_handler(data: QueryAppRequest) -> (r: Step)
    ensures
        starts_delete(data, r),
{
    match data.try_into_identifier() {
        Ok(id) => {
            let ids = vec![id.app_id().clone()];
            Step { stage: Stage::ResolvingTables, effect: Effect::ReadAppTables(ids) }
        },
        Err(e) => finish(Effect::Fail(WorkspaceError::Validation(e))),
    }
}

impl Stage {
    /// The event is the one this stage waits for.
    pub fn accepts(&self, event: &Event) -> (r: bool)
        ensures
            r == stage_accepts(*self, *event),
    {
        match self {
            Stage::Creating => matches!(event, Event::AppCreated(_)),
            Stage::ReadingApp(_) => matches!(event, Event::AppRead(_)),
            Stage::ReadingViews(_) => matches!(event, Event::ViewsRead(_)),
            Stage::Updating => matches!(event, Event::AppUpdated(_)),
            Stage::ResolvingTables => matches!(event, Event::AppTablesRead(_)),
            Stage::AddingTrash => matches!(event, Event::TrashAdded(_)),
            Stage::Finished => false,
        }
    }

    pub fn is_finished(&self) -> (r: bool)
        ensures
            r == (*self is Finished),
    {
        matches!(self, Stage::Finished)
    }
}

/// Decides what follows the result of a store call.
pub fn resume(stage: Stage, event: Event) -> (r: Step)
    requires
        stage_accepts(stage, event),
    ensures
        transition(stage, event, r),
{
    match stage {
        Stage::Creating => match event {
            Event::AppCreated(Ok(app)) => finish(Effect::ReturnApp(app)),
            Event::AppCreated(Err(e)) => finish(Effect::Fail(e)),
            _ => finish(Effect::ReturnNothing),
        },
        Stage::ReadingApp(app_id) => match event {
            Event::AppRead(Ok(app)) => Step {
                stage: Stage::ReadingViews(app),
                effect: Effect::ReadViewsBelongTo(app_id),
            },
            Event::AppRead(Err(e)) => finish(Effect::Fail(e)),
            _ => finish(Effect::ReturnNothing),
        },
        Stage::ReadingViews(app) => match event {
            Event::ViewsRead(Ok(views)) => {
                let mut app = app;
                app.belongings = views;
                finish(Effect::ReturnApp(app))
            },
            Event::ViewsRead(Err(e)) => finish(Effect::Fail(e)),
            _ => finish(Effect::ReturnNothing),
        },
        Stage::Updating => match event {
            Event::AppUpdated(Ok(())) => finish(Effect::ReturnNothing),
            Event::AppUpdated(Err(e)) => finish(Effect::Fail(e)),
            _ => finish(Effect::ReturnNothing),
        },
        Stage::ResolvingTables => match event {
            Event::AppTablesRead(Ok(rows)) => Step {
                stage: Stage::AddingTrash,
                effect: Effect::AddTrash(trash_from_tables(rows)),
            },
            Event::AppTablesRead(Err(e)) => finish(Effect::Fail(e)),
            _ => finish(Effect::ReturnNothing),
        },
        Stage::AddingTrash => match event {
            Event::TrashAdded(Ok(())) => finish(Effect::ReturnNothing),
            Event::TrashAdded(Err(e)) => finish(Effect::Fail(e)),
            _ => finish(Effect::ReturnNothing),
        },
        Stage::Finished => finish(Effect::ReturnNothing),
    }
}

} // verus!
