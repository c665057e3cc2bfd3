use vstd::prelude::*;

use crate::errors::ValidationError;

verus! {

/// A child content unit; `belong_to_id` names the app that owns it.
#[derive(Clone, Debug, PartialEq, Eq)]
pub struct WorkspaceView {
    pub id: String,
    pub belong_to_id: String,
    pub name: String,
}

/// An app as the app store reports it. `belongings` is filled in only when
/// an app is read through the coordinator.
#[derive(Clone, Debug, PartialEq, Eq)]
pub struct App {
    pub id: String,
    pub workspace_id: String,
    pub name: String,
    pub desc: String,
    pub position: u64,
    pub belongings: Vec<WorkspaceView>,
}

/// Raw payload of a create request.
#[derive(Clone, Debug, PartialEq, Eq)]
pub struct CreateAppRequest {
    pub workspace_id: String,
    pub name: String,
    pub desc: String,
    pub position: Option<u64>,
}

/// Raw payload that names one app.
#[derive(Clone, Debug, PartialEq, Eq)]
pub struct QueryAppRequest {
    pub app_id: String,
}

/// Raw payload of a partial update; `None` means "leave as it is".
#[derive(Clone, Debug, PartialEq, Eq)]
pub struct UpdateAppRequest {
    pub app_id: String,
    pub name: Option<String>,
    pub desc: Option<String>,
    pub position: Option<u64>,
}

/// A validated app identifier: never empty.
#[derive(Debug, PartialEq, Eq)]
pub struct AppIdentifier {
    app_id: String,
}

impl View for AppIdentifier {
    type V = Seq<char>;

    closed spec fn view(&self) -> Seq<char> {
        self.app_id@
    }
}

impl AppIdentifier {
    #[verifier::type_invariant]
    spec fn inv(self) -> bool {
        self.app_id@.len() > 0
    }

    pub fn app_id(&self) -> (r: &String)
        ensures
            r@ == self@,
            r@.len() > 0,
    {
        proof {
            use_type_invariant(self);
        }
        &self.app_id
    }
}

/// What a validated create request holds.
pub struct CreateAppParamsView {
    pub workspace_id: Seq<char>,
    pub name: Seq<char>,
    pub desc: Seq<char>,
    pub position: Option<u64>,
}

/// Validated parameters of a create: workspace id and name are never empty.
#[derive(Debug, PartialEq, Eq)]
pub struct CreateAppParams {
    workspace_id: String,
    name: String,
    desc: String,
    position: Option<u64>,
}

impl View for CreateAppParams {
    type V = CreateAppParamsView;

    closed spec fn view(&self) -> CreateAppParamsView {
        CreateAppParamsView {
            workspace_id: self.workspace_id@,
            name: self.name@,
            desc: self.desc@,
            position: self.position,
        }
    }
}

impl CreateAppParams {
    #[verifier::type_invariant]
    spec fn inv(self) -> bool {
        self.workspace_id@.len() > 0 && self.name@.len() > 0
    }

    pub fn workspace_id(&self) -> (r: &String)
        ensures
            r@ == self@.workspace_id,
            r@.len() > 0,
    {
        proof {
            use_type_invariant(self);
        }
        &self.workspace_id
    }

    pub fn name(&self) -> (r: &String)
        ensures
            r@ == self@.name,
            r@.len() > 0,
    {
        proof {
            use_type_invariant(self);
        }
        &self.name
    }

    pub fn desc(&self) -> (r: &String)
        ensures
            r@ == self@.desc,
    {
        &self.desc
    }

    pub fn position(&self) -> (r: Option<u64>)
        ensures
            r == self@.position,
    {
        self.position
    }
}

/// What a validated update request holds.
pub struct UpdateAppParamsView {
    pub app_id: Seq<char>,
    pub name: Option<Seq<char>>,
    pub desc: Option<Seq<char>>,
    pub position: Option<u64>,
}

impl UpdateAppParamsView {
    /// No field is to change.
    pub open spec fn changes_nothing(self) -> bool {
        self.name is None && self.desc is None && self.position is None
    }
}

/// The view of an optional string.
pub open spec fn opt_view(s: Option<String>) -> Option<Seq<char>> {
    match s {
        Some(v) => Some(v@),
        None => None,
    }
}

/// Validated parameters of an update: the app id is never empty, and a
/// new name, where one is given, is not empty either.
#[derive(Debug, PartialEq, Eq)]
pub struct UpdateAppParams {
    app_id: String,
    name: Option<String>,
    desc: Option<String>,
    position: Option<u64>,
}

impl View for UpdateAppParams {
    type V = UpdateAppParamsView;

    closed spec fn view(&self) -> UpdateAppParamsView {
        UpdateAppParamsView {
            app_id: self.app_id@,
            name: opt_view(self.name),
            desc: opt_view(self.desc),
            position: self.position,
        }
    }
}

impl UpdateAppParams {
    #[verifier::type_invariant]
    spec fn inv(self) -> bool {
        &&& self.app_id@.len() > 0
        &&& self.name matches Some(n) ==> n@.len() > 0
    }

    pub fn app_id(&self) -> (r: &String)
        ensures
            r@ == self@.app_id,
            r@.len() > 0,
    {
        proof {
            use_type_invariant(self);
        }
        &self.app_id
    }

    pub fn name(&self) -> (r: &Option<String>)
        ensures
            opt_view(*r) == self@.name,
    {
        &self.name
    }

    pub fn desc(&self) -> (r: &Option<String>)
        ensures
            opt_view(*r) == self@.desc,
    {
        &self.desc
    }

    pub fn position(&self) -> (r: Option<u64>)
        ensures
            r == self@.position,
    {
        self.position
    }
}

/// The error a create request is refused with, if any; the name is
/// checked before the workspace id.
pub open spec fn create_request_error(req: CreateAppRequest) -> Option<ValidationError> {
    if req.name@.len() == 0 {
        Some(ValidationError::AppNameEmpty)
    } else if req.workspace_id@.len() == 0 {
        Some(ValidationError::WorkspaceIdEmpty)
    } else {
        None
    }
}

/// The error a query request is refused with, if any.
pub open spec fn query_request_error(req: QueryAppRequest) -> Option<ValidationError> {
    if req.app_id@.len() == 0 {
        Some(ValidationError::AppIdEmpty)
    } else {
        None
    }
}

/// The error an update request is refused with, if any; the app id is
/// checked before the new name.
pub open spec fn update_request_error(req: UpdateAppRequest) -> Option<ValidationError> {
    if req.app_id@.len() == 0 {
        Some(ValidationError::AppIdEmpty)
    } else if req.name matches Some(n) && n@.len() == 0 {
        Some(ValidationError::AppNameEmpty)
    } else {
        None
    }
}

impl CreateAppRequest {
    pub open spec fn params_view(self) -> CreateAppParamsView {
        CreateAppParamsView {
            workspace_id: self.workspace_id@,
            name: self.name@,
            desc: self.desc@,
            position: self.position,
        }
    }

    /// Validates the request; nothing else is done with it.
    pub fn try_into_params(self) -> (r: Result<CreateAppParams, ValidationError>)
        ensures
            match create_request_error(self) {
                Some(e) => r == Err::<CreateAppParams, ValidationError>(e),
                None => r matches Ok(p) && p@ == self.params_view(),
            },
    {
        if self.name.as_str().is_empty() {
            return Err(ValidationError::AppNameEmpty);
        }
        if self.workspace_id.as_str().is_empty() {
            return Err(ValidationError::WorkspaceIdEmpty);
        }
        Ok(
            CreateAppParams {
                workspace_id: self.workspace_id,
                name: self.name,
                desc: self.desc,
                position: self.position,
            },
        )
    }
}

impl QueryAppRequest {
    /// Validates the request; nothing else is done with it.
    pub fn try_into_identifier(self) -> (r: Result<AppIdentifier, ValidationError>)
        ensures
            match query_request_error(self) {
                Some(e) => r == Err::<AppIdentifier, ValidationError>(e),
                None => r matches Ok(id) && id@ == self.app_id@,
            },
    {
        if self.app_id.as_str().is_empty() {
            return Err(ValidationError::AppIdEmpty);
        }
        Ok(AppIdentifier { app_id: self.app_id })
    }
}

impl UpdateAppRequest {
    pub open spec fn params_view(self) -> UpdateAppParamsView {
        UpdateAppParamsView {
            app_id: self.app_id@,
            name: opt_view(self.name),
            desc: opt_view(self.desc),
            position: self.position,
        }
    }

    /// Validates the request; nothing else is done with it.
    pub fn try_into_params(self) -> (r: Result<UpdateAppParams, ValidationError>)
        ensures
            match update_request_error(self) {
                Some(e) => r == Err::<UpdateAppParams, ValidationError>(e),
                None => r matches Ok(p) && p@ == self.params_view(),
            },
    {
        if self.app_id.as_str().is_empty() {
            return Err(ValidationError::AppIdEmpty);
        }
        if let Some(n) = &self.name {
            if n.as_str().is_empty() {
                return Err(ValidationError::AppNameEmpty);
            }
        }
        Ok(
            UpdateAppParams {
                app_id: self.app_id,
                name: self.name,
                desc: self.desc,
                position: self.position,
            },
        )
    }
}

/// `new` is `old` with the changes of `c` made: each field that `c` names
/// takes its new value, and every other field keeps its old one.
pub open spec fn is_update_of(new: App, old: App, c: UpdateAppParamsView) -> bool {
    &&& new.id == old.id
    &&& new.workspace_id == old.workspace_id
    &&& new.belongings == old.belongings
    &&& new.name@ == match c.name {
        Some(n) => n,
        None => old.name@,
    }
    &&& new.desc@ == match c.desc {
        Some(d) => d,
        None => old.desc@,
    }
    &&& new.position == match c.position {
        Some(p) => p,
        None => old.position,
    }
}

impl UpdateAppParams {
    /// Makes the changes these parameters name on `app`; the app id in the
    /// parameters is not compared with the app's.
    pub fn apply_to(&self, app: &mut App)
        ensures
            is_update_of(*final(app), *old(app), self@),
    {
        if let Some(n) = &self.name {
            app.name = n.clone();
        }
        if let Some(d) = &self.desc {
            app.desc = d.clone();
        }
        if let Some(p) = self.position {
            app.position = p;
        }
    }

    /// No field is to change.
    pub fn changes_nothing(&self) -> (r: bool)
        ensures
            r == self@.changes_nothing(),
    {
        self.name.is_none() && self.desc.is_none() && self.position.is_none()
    }
}

} // verus!
