use vstd::prelude::*;

verus! {

/// A user as the API lists it.
#[derive(Debug)]
pub struct SharedUser {
    pub id: Option<i32>,
    pub name: String,
    pub email: String,
}

pub struct UserModel {
    pub id: Option<i32>,
    pub name: Seq<char>,
    pub email: Seq<char>,
}

impl View for SharedUser {
    type V = UserModel;

    open spec fn view(&self) -> UserModel {
        UserModel { id: self.id, name: self.name@, email: self.email@ }
    }
}

/// A request the page sends to the API.
#[derive(Debug)]
pub enum ApiRequest {
    Login { email: String, password: String },
    FetchUsers,
    CreateUser { name: String, email: String },
    UpdateUser { id: i32, authorization: String, name: String, email: String },
    DeleteUser { id: i32, authorization: String },
}

pub enum RequestModel {
    Login { email: Seq<char>, password: Seq<char> },
    FetchUsers,
    CreateUser { name: Seq<char>, email: Seq<char> },
    UpdateUser { id: i32, authorization: Seq<char>, name: Seq<char>, email: Seq<char> },
    DeleteUser { id: i32, authorization: Seq<char> },
}

impl View for ApiRequest {
    type V = RequestModel;

    open spec fn view(&self) -> RequestModel {
        match self {
            ApiRequest::Login { email, password } => RequestModel::Login {
                email: email@,
                password: password@,
            },
            ApiRequest::FetchUsers => RequestModel::FetchUsers,
            ApiRequest::CreateUser { name, email } => RequestModel::CreateUser {
                name: name@,
                email: email@,
            },
            ApiRequest::UpdateUser { id, authorization, name, email } => RequestModel::UpdateUser {
                id: *id,
                authorization: authorization@,
                name: name@,
                email: email@,
            },
            ApiRequest::DeleteUser { id, authorization } => RequestModel::DeleteUser {
                id: *id,
                authorization: authorization@,
            },
        }
    }
}

pub open spec fn request_view(r: Option<ApiRequest>) -> Option<RequestModel> {
    match r {
        Some(q) => Some(q@),
        None => None,
    }
}

/// State of the user-management page.
#[derive(Debug)]
pub struct Dashboard {
    pub name: String,
    pub email: String,
    pub editing: Option<i32>,
    pub login_email: String,
    pub login_password: String,
    pub message: String,
    pub users: Vec<SharedUser>,
    pub token: Option<String>,
}

pub struct DashboardModel {
    pub name: Seq<char>,
    pub email: Seq<char>,
    pub editing: Option<i32>,
    pub login_email: Seq<char>,
    pub login_password: Seq<char>,
    pub message: Seq<char>,
    pub users: Seq<UserModel>,
    pub token: Option<Seq<char>>,
}

pub open spec fn token_view(t: Option<String>) -> Option<Seq<char>> {
    match t {
        Some(s) => Some(s@),
        None => None,
    }
}

pub open spec fn users_view(users: Seq<SharedUser>) -> Seq<UserModel> {
    users.map_values(|u: SharedUser| u@)
}

impl View for Dashboard {
    type V = DashboardModel;

    open spec fn view(&self) -> DashboardModel {
        DashboardModel {
            name: self.name@,
            email: self.email@,
            editing: self.editing,
            login_email: self.login_email@,
            login_password: self.login_password@,
            message: self.message@,
            users: users_view(self.users@),
            token: token_view(self.token),
        }
    }
}

/// The `Authorization` value that carries a token.
pub open spec fn bearer(token: Seq<char>) -> Seq<char> {
    "Bearer "@ + token
}

/// The page as it first shows: everything empty, logged out.
pub open spec fn initial_model() -> DashboardModel {
    DashboardModel {
        name: Seq::empty(),
        email: Seq::empty(),
        editing: None,
        login_email: Seq::empty(),
        login_password: Seq::empty(),
        message: Seq::empty(),
        users: Seq::empty(),
        token: None,
    }
}

/// The user form emptied and out of edit mode.
pub open spec fn with_form_reset(m: DashboardModel) -> DashboardModel {
    DashboardModel { name: Seq::empty(), email: Seq::empty(), editing: None, ..m }
}

pub open spec fn with_message(m: DashboardModel, msg: Seq<char>) -> DashboardModel {
    DashboardModel { message: msg, ..m }
}

/// The login answer came back: with a token when it succeeded. Either way
/// the login fields are emptied.
pub open spec fn after_login(m: DashboardModel, token: Option<Seq<char>>) -> DashboardModel {
    let m2 = DashboardModel { login_email: Seq::empty(), login_password: Seq::empty(), ..m };
    match token {
        Some(t) => DashboardModel {
            token: Some(t),
            message: "Logged in successfully"@,
            ..m2
        },
        None => with_message(m2, "Login failed"@),
    }
}

pub open spec fn after_logout(m: DashboardModel) -> DashboardModel {
    DashboardModel { token: None, message: "Logged out"@, ..m }
}

/// The user list came back (`None` when the request failed).
pub open spec fn after_fetch(m: DashboardModel, users: Option<Seq<UserModel>>) -> DashboardModel {
    match users {
        Some(u) => DashboardModel { users: u, ..m },
        None => with_message(m, "Failed to fetch users"@),
    }
}

/// The submit button: an update of the edited user (which needs a token),
/// or a creation.
pub open spec fn after_submit(m: DashboardModel) -> (DashboardModel, Option<RequestModel>) {
    match m.editing {
        Some(id) => match m.token {
            Some(t) => (
                m,
                Some(
                    RequestModel::UpdateUser {
                        id,
                        authorization: bearer(t),
                        name: m.name,
                        email: m.email,
                    },
                ),
            ),
            None => (with_message(m, "Unauthorized to update user"@), None),
        },
        None => (m, Some(RequestModel::CreateUser { name: m.name, email: m.email })),
    }
}

/// The creation answer came back; on success the list is fetched again.
pub open spec fn after_create(m: DashboardModel, ok: bool) -> (DashboardModel, Option<RequestModel>) {
    if ok {
        (with_form_reset(with_message(m, "User created successfully"@)), Some(RequestModel::FetchUsers))
    } else {
        (with_form_reset(with_message(m, "Failed to create user"@)), None)
    }
}

/// The update answer came back; on success the list is fetched again.
pub open spec fn after_update(m: DashboardModel, ok: bool) -> (DashboardModel, Option<RequestModel>) {
    if ok {
        (with_form_reset(with_message(m, "User updated successfully"@)), Some(RequestModel::FetchUsers))
    } else {
        (with_form_reset(with_message(m, "Failed to update user"@)), None)
    }
}

/// A delete button: needs a token.
pub open spec fn after_delete_click(m: DashboardModel, id: i32) -> (DashboardModel, Option<RequestModel>) {
    match m.token {
        Some(t) => (m, Some(RequestModel::DeleteUser { id, authorization: bearer(t) })),
        None => (with_message(m, "Unauthorized to delete"@), None),
    }
}

/// The deletion answer came back; on success the list is fetched again.
pub open spec fn after_delete(m: DashboardModel, ok: bool) -> (DashboardModel, Option<RequestModel>) {
    if ok {
        (with_message(m, "User deleted successfully"@), Some(RequestModel::FetchUsers))
    } else {
        (with_message(m, "Failed to delete user"@), None)
    }
}

/// `i` is the first position of the list holding the user with this id.
pub open spec fn is_first_with_id(users: Seq<UserModel>, id: i32, i: int) -> bool {
    &&& 0 <= i < users.len()
    &&& users[i].id == Some(id)
    &&& forall|j: int| 0 <= j < i ==> users[j].id != Some(id)
}

/// An edit button: the form takes the first listed user with that id, and
/// stays as it is when there is none.
pub open spec fn after_edit(m: DashboardModel, id: i32) -> DashboardModel {
    if exists|i: int| is_first_with_id(m.users, id, i) {
        let i = choose|i: int| is_first_with_id(m.users, id, i);
        DashboardModel { name: m.users[i].name, email: m.users[i].email, editing: Some(id), ..m }
    } else {
        m
    }
}

pub open spec fn submit_label_of(m: DashboardModel) -> Seq<char> {
    if m.editing is Some {
        "Update User"@
    } else {
        "Create User"@
    }
}

fn bearer_value(token: &String) -> (r: String)
    ensures
        r@ == bearer(token@),
{
    String::from_str("Bearer ").concat(token.as_str())
}

impl Dashboard {
    pub fn new() -> (d: Dashboard)
        ensures
            d@ == initial_model(),
    {
        let d = Dashboard {
            name: String::new(),
            email: String::new(),
            editing: None,
            login_email: String::new(),
            login_password: String::new(),
            message: String::new(),
            users: Vec::new(),
            token: None,
        };
        assert(users_view(d.users@) =~= Seq::<UserModel>::empty());
        d
    }

    pub fn set_name(&mut self, value: String)
        ensures
            final(self)@ == (DashboardModel { name: value@, ..old(self)@ }),
    {
        self.name = value;
    }

    pub fn set_email(&mut self, value: String)
        ensures
            final(self)@ == (DashboardModel { email: value@, ..old(self)@ }),
    {
        self.email = value;
    }

    pub fn set_login_email(&mut self, value: String)
        ensures
            final(self)@ == (DashboardModel { login_email: value@, ..old(self)@ }),
    {
        self.login_email = value;
    }

    pub fn set_login_password(&mut self, value: String)
        ensures
            final(self)@ == (DashboardModel { login_password: value@, ..old(self)@ }),
    {
        self.login_password = value;
    }

    fn set_message(&mut self, msg: &str)
        ensures
            final(self)@ == with_message(old(self)@, msg@),
    {
        self.message = String::from_str(msg);
    }

    fn reset_form(&mut self)
        ensures
            final(self)@ == with_form_reset(old(self)@),
    {
        self.name = String::new();
        self.email = String::new();
        self.editing = None;
    }

    /// The login button: the credentials typed in.
    pub fn login_clicked(&self) -> (r: ApiRequest)
        ensures
            r@ == (RequestModel::Login { email: self.login_email@, password: self.login_password@ }),
    {
        ApiRequest::Login { email: self.login_email.clone(), password: self.login_password.clone() }
    }

    pub fn login_finished(&mut self, token: Option<String>)
        ensures
            final(self)@ == after_login(old(self)@, token_view(token)),
    {
        match token {
            Some(t) => {
                self.token = Some(t);
                self.set_message("Logged in successfully");
            },
            None => {
                self.set_message("Login failed");
            },
        }
        self.login_email = String::new();
        self.login_password = String::new();
    }

    pub fn logout(&mut self)
        ensures
            final(self)@ == after_logout(old(self)@),
    {
        self.token = None;
        self.set_message("Logged out");
    }

    /// The fetch button.
    pub fn fetch_clicked(&self) -> (r: ApiRequest)
        ensures
            r@ == RequestModel::FetchUsers,
    {
        ApiRequest::FetchUsers
    }

    pub fn users_fetched(&mut self, users: Option<Vec<SharedUser>>)
        ensures
            final(self)@ == after_fetch(
                old(self)@,
                match users {
                    Some(u) => Some(users_view(u@)),
                    None => None,
                },
            ),
    {
        match users {
            Some(u) => {
                self.users = u;
            },
            None => {
                self.set_message("Failed to fetch users");
            },
        }
    }

    pub fn submit_clicked(&mut self) -> (r: Option<ApiRequest>)
        ensures
            (final(self)@, request_view(r)) == after_submit(old(self)@),
    {
        match self.editing {
            Some(id) => match &self.token {
                Some(t) => {
                    let auth = bearer_value(t);
                    Some(
                        ApiRequest::UpdateUser {
                            id,
                            authorization: auth,
                            name: self.name.clone(),
                            email: self.email.clone(),
                        },
                    )
                },
                None => {
                    self.set_message("Unauthorized to update user");
                    None
                },
            },
            None => Some(ApiRequest::CreateUser { name: self.name.clone(), email: self.email.clone() }),
        }
    }

    pub fn create_finished(&mut self, ok: bool) -> (r: Option<ApiRequest>)
        ensures
            (final(self)@, request_view(r)) == after_create(old(self)@, ok),
    {
        let r = if ok {
            self.set_message("User created successfully");
            Some(ApiRequest::FetchUsers)
        } else {
            self.set_message("Failed to create user");
            None
        };
        self.reset_form();
        r
    }

    pub fn update_finished(&mut self, ok: bool) -> (r: Option<ApiRequest>)
        ensures
            (final(self)@, request_view(r)) == after_update(old(self)@, ok),
    {
        let r = if ok {
            self.set_message("User updated successfully");
            Some(ApiRequest::FetchUsers)
        } else {
            self.set_message("Failed to update user");
            None
        };
        self.reset_form();
        r
    }

    pub fn delete_clicked(&mut self, id: i32) -> (r: Option<ApiRequest>)
        ensures
            (final(self)@, request_view(r)) == after_delete_click(old(self)@, id),
    {
        match &self.token {
            Some(t) => Some(ApiRequest::DeleteUser { id, authorization: bearer_value(t) }),
            None => {
                self.set_message("Unauthorized to delete");
                None
            },
        }
    }

    pub fn delete_finished(&mut self, ok: bool) -> (r: Option<ApiRequest>)
        ensures
            (final(self)@, request_view(r)) == after_delete(old(self)@, ok),
    {
        if ok {
            self.set_message("User deleted successfully");
            Some(ApiRequest::FetchUsers)
        } else {
            self.set_message("Failed to delete user");
            None
        }
    }

    /// Position of the first listed user with this id.
    fn find_user(&self, id: i32) -> (r: Option<usize>)
        ensures
            match r {
                Some(i) => is_first_with_id(self@.users, id, i as int),
                None => forall|j: int| 0 <= j < self@.users.len() ==> self@.users[j].id != Some(id),
            },
    {
        let n = self.users.len();
        for i in 0..n
            invariant
                n == self.users.len(),
                forall|j: int| 0 <= j < i ==> self@.users[j].id != Some(id),
        {
            let matches = match self.users[i].id {
                Some(v) => v == id,
                None => false,
            };
            if matches {
                return Some(i);
            }
        }
        None
    }

    pub fn edit_clicked(&mut self, id: i32)
        ensures
            final(self)@ == after_edit(old(self)@, id),
    {
        let ghost m = self@;
        match self.find_user(id) {
            Some(i) => {
                proof {
                    let k = choose|k: int| is_first_with_id(m.users, id, k);
                    assert(k == i as int) by {
                        if k < i {
                            assert(m.users[k].id != Some(id));
                        } else if k > i {
                            assert(m.users[i as int].id != Some(id));
                        }
                    }
                }
                let name = self.users[i].name.clone();
                let email = self.users[i].email.clone();
                self.name = name;
                self.email = email;
                self.editing = Some(id);
            },
            None => {
                assert(!exists|i: int| is_first_with_id(m.users, id, i));
            },
        }
    }

    /// Caption of the submit button.
    pub fn submit_label(&self) -> (r: &'static str)
        ensures
            r@ == submit_label_of(self@),
    {
        match self.editing {
            Some(_) => "Update User",
            None => "Create User",
        }
    }

    /// Whether the message line is shown.
    pub fn shows_message(&self) -> (r: bool)
        ensures
            r == (self@.message.len() > 0),
    {
        !self.message.as_str().is_empty()
    }
}

/// The id a user's buttons act on: the user's id, or 0 when it has none.
pub fn button_id(user: &SharedUser) -> (r: i32)
    ensures
        r == match user.id {
            Some(v) => v,
            None => 0,
        },
{
    match user.id {
        Some(v) => v,
        None => 0,
    }
}


/// The page sends an update or a deletion only while logged in, and then
/// with the token as bearer credentials.
pub proof fn lemma_writes_carry_the_token(m: DashboardModel, id: i32)
    ensures
        after_submit(m).1 matches Some(RequestModel::UpdateUser { authorization, .. }) ==> (m.token
            matches Some(t) && authorization == bearer(t)),
        after_delete_click(m, id).1 matches Some(RequestModel::DeleteUser { authorization, .. })
            ==> (m.token matches Some(t) && authorization == bearer(t)),
        m.token is None ==> after_delete_click(m, id).1 is None,
        m.token is None && m.editing is Some ==> after_submit(m).1 is None,
{
}

/// After logging out, no deletion or update is sent until a new login.
pub proof fn lemma_logout_blocks_writes(m: DashboardModel, id: i32)
    ensures
        after_logout(m).token is None,
        after_delete_click(after_logout(m), id).1 is None,
        after_logout(m).editing is Some ==> after_submit(after_logout(m)).1 is None,
{
}

/// Editing a listed user and submitting while logged in sends an update of
/// that user with the name and e-mail shown in the list.
pub proof fn lemma_edit_then_submit(m: DashboardModel, id: i32, i: int)
    requires
        is_first_with_id(m.users, id, i),
        m.token is Some,
    ensures
        after_submit(after_edit(m, id)).1 == Some(
            RequestModel::UpdateUser {
                id,
                authorization: bearer(m.token->0),
                name: m.users[i].name,
                email: m.users[i].email,
            },
        ),
{
    let k = choose|k: int| is_first_with_id(m.users, id, k);
    assert(k == i) by {
        if k < i {
            assert(m.users[k].id != Some(id));
        } else if k > i {
            assert(m.users[i].id != Some(id));
        }
    }
}

/// Whatever the outcome, the answer to a creation or an update leaves the
/// form empty and out of edit mode, and a success asks for the list again.
pub proof fn lemma_answers_reset_the_form(m: DashboardModel, ok: bool)
    ensures
        after_create(m, ok).0.name.len() == 0 && after_create(m, ok).0.email.len() == 0
            && after_create(m, ok).0.editing is None,
        after_update(m, ok).0.name.len() == 0 && after_update(m, ok).0.email.len() == 0
            && after_update(m, ok).0.editing is None,
        ok ==> after_create(m, ok).1 == Some(RequestModel::FetchUsers),
        ok ==> after_update(m, ok).1 == Some(RequestModel::FetchUsers),
{
}

/// The typed credentials are cleared once the login answer arrives, and the
/// page holds a token exactly when the login succeeded.
pub proof fn lemma_login_answer(m: DashboardModel, token: Option<Seq<char>>)
    ensures
        after_login(m, token).login_email.len() == 0,
        after_login(m, token).login_password.len() == 0,
        token is Some ==> after_login(m, token).token == token,
        token is None ==> after_login(m, token).token == m.token,
{
}


/// The submit button, for every page state: while editing user `id` and
/// logged in with token `t`, it sends an update of `id` carrying exactly the
/// name and e-mail now in the form and `Bearer <t>`, changing nothing; while
/// editing and logged out it sends nothing and says so; otherwise it sends a
/// creation with the form's fields, changing nothing.
pub proof fn lemma_submit_sends_the_form(m: DashboardModel)
    ensures
        (m.editing matches Some(id) && m.token matches Some(t)) ==> after_submit(m) == (
            m,
            Some(
                RequestModel::UpdateUser {
                    id: m.editing->0,
                    authorization: "Bearer "@ + m.token->0,
                    name: m.name,
                    email: m.email,
                },
            ),
        ),
        (m.editing is Some && m.token is None) ==> after_submit(m).1 is None && after_submit(m).0
            == (DashboardModel { message: "Unauthorized to update user"@, ..m }),
        m.editing is None ==> after_submit(m) == (
            m,
            Some(RequestModel::CreateUser { name: m.name, email: m.email }),
        ),
{
}

/// A delete button, for every page state: logged in with token `t` it sends
/// the deletion of that id with `Bearer <t>`, changing nothing; logged out it
/// sends nothing and says so.
pub proof fn lemma_delete_click(m: DashboardModel, id: i32)
    ensures
        m.token matches Some(t) ==> after_delete_click(m, id) == (
            m,
            Some(RequestModel::DeleteUser { id, authorization: "Bearer "@ + m.token->0 }),
        ),
        m.token is None ==> after_delete_click(m, id) == (
            DashboardModel { message: "Unauthorized to delete"@, ..m },
            None::<RequestModel>,
        ),
{
}

/// An edit button, for every page state: when a listed user has that id, the
/// form shows the first such user's name and e-mail and is in edit mode for
/// `id`, everything else unchanged; when none has, nothing changes.
pub proof fn lemma_edit_fills_the_form(m: DashboardModel, id: i32, i: int)
    ensures
        is_first_with_id(m.users, id, i) ==> after_edit(m, id) == (DashboardModel {
            name: m.users[i].name,
            email: m.users[i].email,
            editing: Some(id),
            ..m
        }),
        (forall|j: int| 0 <= j < m.users.len() ==> m.users[j].id != Some(id)) ==> after_edit(m, id)
            == m,
{
    if is_first_with_id(m.users, id, i) {
        let k = choose|k: int| is_first_with_id(m.users, id, k);
        assert(k == i) by {
            if k < i {
                assert(m.users[k].id != Some(id));
            } else if k > i {
                assert(m.users[i].id != Some(id));
            }
        }
    }
}

/// The login answer, for every page state: a token is kept and greeted, a
/// failure is reported and keeps the previous token; either way the typed
/// credentials are emptied and nothing else changes.
pub proof fn lemma_login_answer_fields(m: DashboardModel, token: Option<Seq<char>>)
    ensures
        token matches Some(t) ==> after_login(m, token) == (DashboardModel {
            token: token,
            message: "Logged in successfully"@,
            login_email: Seq::empty(),
            login_password: Seq::empty(),
            ..m
        }),
        token is None ==> after_login(m, token) == (DashboardModel {
            message: "Login failed"@,
            login_email: Seq::empty(),
            login_password: Seq::empty(),
            ..m
        }),
{
}

/// The submit button reads "Update User" while editing and "Create User"
/// otherwise.
pub proof fn lemma_submit_label(m: DashboardModel)
    ensures
        m.editing is Some ==> submit_label_of(m) == "Update User"@,
        m.editing is None ==> submit_label_of(m) == "Create User"@,
{
}

/// Logging out drops the token and says so; nothing else changes.
pub proof fn lemma_logout_fields(m: DashboardModel)
    ensures
        after_logout(m) == (DashboardModel { token: None, message: "Logged out"@, ..m }),
{
}

/// A fetched list replaces the shown one; a failed fetch keeps it and says
/// so.
pub proof fn lemma_fetch_fields(m: DashboardModel, users: Option<Seq<UserModel>>)
    ensures
        users matches Some(u) ==> after_fetch(m, users) == (DashboardModel { users: users->0, ..m }),
        users is None ==> after_fetch(m, users) == (DashboardModel {
            message: "Failed to fetch users"@,
            ..m
        }),
{
}

/// The answers to a creation, an update and a deletion: each reports its
/// outcome, a success asks for the list again, and creation and update
/// empty the form and leave edit mode.
pub proof fn lemma_answer_fields(m: DashboardModel, ok: bool)
    ensures
        after_create(m, ok) == (
            DashboardModel {
                message: if ok { "User created successfully"@ } else { "Failed to create user"@ },
                name: Seq::empty(),
                email: Seq::empty(),
                editing: None,
                ..m
            },
            if ok { Some(RequestModel::FetchUsers) } else { None },
        ),
        after_update(m, ok) == (
            DashboardModel {
                message: if ok { "User updated successfully"@ } else { "Failed to update user"@ },
                name: Seq::empty(),
                email: Seq::empty(),
                editing: None,
                ..m
            },
            if ok { Some(RequestModel::FetchUsers) } else { None },
        ),
        after_delete(m, ok) == (
            DashboardModel {
                message: if ok { "User deleted successfully"@ } else { "Failed to delete user"@ },
                ..m
            },
            if ok { Some(RequestModel::FetchUsers) } else { None },
        ),
{
}

} // verus!
