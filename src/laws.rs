//! Properties of whole operations, stated over the contracts of the
//! handlers, of `resume` and of the update changeset.
use vstd::prelude::*;

use crate::coordinator::{
    Effect, Event, Step, answers, stage_accepts, starts_create, starts_delete, starts_read,
    starts_update, transition, with_belongings,
};
use crate::entities::{
    App, CreateAppRequest, QueryAppRequest, UpdateAppParamsView, UpdateAppRequest, WorkspaceView,
    create_request_error, is_update_of, query_request_error, update_request_error,
};
use crate::errors::WorkspaceError;
use crate::trash::{AppTable, trash_of, trash_of_all};

verus! {

/// A finished operation takes no further event, so it asks for no further
/// store call.
pub proof fn lemma_finished_takes_nothing(step: Step, event: Event)
    requires
        step.stage is Finished,
    ensures
        !stage_accepts(step.stage, event),
{
}

/// A valid create hands the validated parameters to the app store once,
/// and answers with the app exactly as the store reported it: its id is
/// the one the store assigned, and its belongings are the store's, empty
/// for a freshly created app.
pub proof fn lemma_create_returns_stored_app(
    req: CreateAppRequest,
    first: Step,
    app: App,
    last: Step,
)
    requires
        create_request_error(req) is None,
        starts_create(req, first),
        transition(first.stage, Event::AppCreated(Ok(app)), last),
    ensures
        first.effect matches Effect::CreateApp(p) && p@ == req.params_view(),
        answers(last, Effect::ReturnApp(app)),
        app.belongings@.len() == 0 ==> (last.effect matches Effect::ReturnApp(a)
            && a.belongings@.len() == 0),
{
}

/// A valid read asks the app store for the app, then the view store for
/// the views of the requested id, and answers with the stored app whose
/// belongings are exactly those views, in the order the view store gave.
pub proof fn lemma_read_attaches_views(
    req: QueryAppRequest,
    first: Step,
    app: App,
    second: Step,
    views: Vec<WorkspaceView>,
    last: Step,
)
    requires
        query_request_error(req) is None,
        starts_read(req, first),
        transition(first.stage, Event::AppRead(Ok(app)), second),
        transition(second.stage, Event::ViewsRead(Ok(views)), last),
    ensures
        first.effect matches Effect::ReadApp(id) && id@ == req.app_id@,
        second.effect matches Effect::ReadViewsBelongTo(s) && s@ == req.app_id@,
        last.stage is Finished,
        last.effect matches Effect::ReturnApp(a) && {
            &&& a.belongings == views
            &&& a.belongings@ == views@
            &&& a.id == app.id
            &&& a.workspace_id == app.workspace_id
            &&& a.name == app.name
            &&& a.desc == app.desc
            &&& a.position == app.position
        },
{
    assert(last.effect == Effect::ReturnApp(with_belongings(app, views)));
}

/// When the app store does not find the app, a read ends with the store's
/// error as it came, and asks for nothing more: no views, no trash.
pub proof fn lemma_read_missing_app_fails(
    req: QueryAppRequest,
    first: Step,
    e: WorkspaceError,
    last: Step,
    event: Event,
)
    requires
        query_request_error(req) is None,
        starts_read(req, first),
        transition(first.stage, Event::AppRead(Err(e)), last),
    ensures
        answers(last, Effect::Fail(e)),
        !stage_accepts(last.stage, event),
{
}

/// When the app store cannot resolve the app, a delete ends with the
/// store's error as it came, and writes nothing to the trash.
pub proof fn lemma_delete_missing_app_fails(
    req: QueryAppRequest,
    first: Step,
    e: WorkspaceError,
    last: Step,
    event: Event,
)
    requires
        query_request_error(req) is None,
        starts_delete(req, first),
        transition(first.stage, Event::AppTablesRead(Err(e)), last),
    ensures
        !(first.effect is AddTrash),
        answers(last, Effect::Fail(e)),
        !stage_accepts(last.stage, event),
{
}

/// An update leaves every field that it does not name as it was.
pub proof fn lemma_update_keeps_absent_fields(new: App, old: App, c: UpdateAppParamsView)
    requires
        is_update_of(new, old, c),
    ensures
        new.id == old.id,
        new.workspace_id == old.workspace_id,
        new.belongings == old.belongings,
        c.name is None ==> new.name@ == old.name@,
        c.desc is None ==> new.desc@ == old.desc@,
        c.position is None ==> new.position == old.position,
{
}

/// A valid update request that names no field is handed to the app store
/// as a changeset that changes nothing: applied to any app, every field
/// keeps its value.
pub proof fn lemma_empty_update_changes_nothing(
    req: UpdateAppRequest,
    first: Step,
    new: App,
    old: App,
)
    requires
        update_request_error(req) is None,
        req.name is None,
        req.desc is None,
        req.position is None,
        starts_update(req, first),
    ensures
        first.effect matches Effect::UpdateApp(p) && {
            &&& p@.changes_nothing()
            &&& is_update_of(new, old, p@) ==> {
                &&& new.id == old.id
                &&& new.workspace_id == old.workspace_id
                &&& new.belongings == old.belongings
                &&& new.name@ == old.name@
                &&& new.desc@ == old.desc@
                &&& new.position == old.position
            }
        },
{
}

/// A delete reads the rows of exactly the requested id, then makes one
/// call to the trash store with one entry per returned row, in order, and
/// then ends, whatever the trash store answers. No step of it asks the app
/// store to update or create anything.
pub proof fn lemma_delete_trashes_each_row_once(
    req: QueryAppRequest,
    first: Step,
    rows: Vec<AppTable>,
    second: Step,
    added: Result<(), WorkspaceError>,
    last: Step,
    event: Event,
)
    requires
        query_request_error(req) is None,
        starts_delete(req, first),
        transition(first.stage, Event::AppTablesRead(Ok(rows)), second),
        transition(second.stage, Event::TrashAdded(added), last),
    ensures
        first.effect matches Effect::ReadAppTables(ids) && ids@.len() == 1 && ids@[0]@
            == req.app_id@,
        second.effect matches Effect::AddTrash(entries) && {
            &&& entries@.len() == rows@.len()
            &&& forall|i: int| 0 <= i < rows@.len() ==> entries@[i] == trash_of(rows@[i])
        },
        last.stage is Finished,
        match added {
            Ok(()) => last.effect is ReturnNothing,
            Err(e) => last.effect == Effect::Fail(e),
        },
        !stage_accepts(last.stage, event),
        !(first.effect is UpdateApp) && !(second.effect is UpdateApp) && !(
        last.effect is UpdateApp),
        !(first.effect is CreateApp) && !(second.effect is CreateApp) && !(
        last.effect is CreateApp),
{
    assert(second.effect matches Effect::AddTrash(entries) && entries@ == trash_of_all(rows@));
}

} // verus!
