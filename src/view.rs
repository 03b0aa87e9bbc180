use crate::session::{EditSession, InputState};
use crate::user::{User, UserStatus};
use vstd::prelude::*;

verus! {

/// What the form knows of its one fetch.
#[derive(Debug)]
pub enum FetchOutcome {
    /// The fetch has not resolved yet.
    Pending,
    /// The fetch resolved with a user.
    Found(User),
    /// The fetch resolved, and there is no such user.
    NotFound,
    /// The fetch failed, with a description of why.
    Failed(String),
}

/// The four branches of the form's rendering.
#[derive(Clone, Copy, Debug, PartialEq, Eq, Structural)]
pub enum Branch {
    Pending,
    Found,
    NotFound,
    Error,
}

/// The outcome that a resource cell holds: nothing yet, or the accessor's
/// result.
pub open spec fn outcome_of(res: Option<Result<Option<User>, String>>) -> FetchOutcome {
    match res {
        None => FetchOutcome::Pending,
        Some(Ok(Some(u))) => FetchOutcome::Found(u),
        Some(Ok(None)) => FetchOutcome::NotFound,
        Some(Err(e)) => FetchOutcome::Failed(e),
    }
}

/// The branch that an outcome selects.
pub open spec fn outcome_branch(o: FetchOutcome) -> Branch {
    match o {
        FetchOutcome::Pending => Branch::Pending,
        FetchOutcome::Found(_) => Branch::Found,
        FetchOutcome::NotFound => Branch::NotFound,
        FetchOutcome::Failed(_) => Branch::Error,
    }
}

impl FetchOutcome {
    /// Reads the resource cell of the fetch.
    pub fn from_resource(res: Option<Result<Option<User>, String>>) -> (o: FetchOutcome)
        ensures
            o == outcome_of(res),
    {
        match res {
            None => FetchOutcome::Pending,
            Some(Ok(Some(u))) => FetchOutcome::Found(u),
            Some(Ok(None)) => FetchOutcome::NotFound,
            Some(Err(e)) => FetchOutcome::Failed(e),
        }
    }

    /// The branch that this outcome selects.
    pub fn branch(&self) -> (b: Branch)
        ensures
            b == outcome_branch(*self),
    {
        match self {
            FetchOutcome::Pending => Branch::Pending,
            FetchOutcome::Found(_) => Branch::Found,
            FetchOutcome::NotFound => Branch::NotFound,
            FetchOutcome::Failed(_) => Branch::Error,
        }
    }
}

/// Whether the form shows branch `b` for the resource cell `res`.
pub open spec fn shows(res: Option<Result<Option<User>, String>>, b: Branch) -> bool {
    outcome_branch(outcome_of(res)) == b
}

/// How many of the four branches the form shows for `res`.
pub open spec fn branches_shown(res: Option<Result<Option<User>, String>>) -> int {
    (if shows(res, Branch::Pending) { 1int } else { 0int })
        + (if shows(res, Branch::Found) { 1int } else { 0int })
        + (if shows(res, Branch::NotFound) { 1int } else { 0int })
        + (if shows(res, Branch::Error) { 1int } else { 0int })
}

/// Whatever the fetch has yielded, the form shows exactly one of its four
/// branches: loading while pending, the profile for a user, the not-found
/// message for no user, the error message for a failure.
pub proof fn lemma_exactly_one_branch(res: Option<Result<Option<User>, String>>)
    ensures
        branches_shown(res) == 1,
        shows(res, Branch::Pending) <==> res is None,
        shows(res, Branch::Found) <==> (res matches Some(Ok(Some(_)))),
        shows(res, Branch::NotFound) <==> (res matches Some(Ok(None))),
        shows(res, Branch::Error) <==> (res matches Some(Err(_))),
{
}

/// One entry of the status selector.
#[derive(Clone, Copy, Debug, PartialEq, Eq, Structural)]
pub struct StatusOption {
    pub status: UserStatus,
    /// The option's value attribute.
    pub value: u8,
    /// Whether the option is the user's current status.
    pub selected: bool,
}

/// The numeric code of a status, in declaration order.
pub open spec fn status_code_of(s: UserStatus) -> u8 {
    match s {
        UserStatus::Active => 0,
        UserStatus::Banned => 1,
    }
}

/// The numeric code of a status.
pub fn status_code(s: UserStatus) -> (r: u8)
    ensures
        r == status_code_of(s),
{
    match s {
        UserStatus::Active => 0,
        UserStatus::Banned => 1,
    }
}

/// The selector's entry for `status` when the user's status is `current`.
pub open spec fn option_for(status: UserStatus, current: UserStatus) -> StatusOption {
    StatusOption { status, value: status_code_of(status), selected: status == current }
}

/// Every status, in declaration order.
pub open spec fn all_statuses() -> Seq<UserStatus> {
    seq![UserStatus::Active, UserStatus::Banned]
}

/// The entries of the status selector: one per status, in declaration order,
/// the user's own status selected.
pub fn status_options(current: UserStatus) -> (r: Vec<StatusOption>)
    ensures
        r@ == all_statuses().map_values(|s: UserStatus| option_for(s, current)),
{
    let mut r: Vec<StatusOption> = Vec::new();
    r.push(
        StatusOption {
            status: UserStatus::Active,
            value: status_code(UserStatus::Active),
            selected: current == UserStatus::Active,
        },
    );
    r.push(
        StatusOption {
            status: UserStatus::Banned,
            value: status_code(UserStatus::Banned),
            selected: current == UserStatus::Banned,
        },
    );
    assert(r@ =~= all_statuses().map_values(|s: UserStatus| option_for(s, current)));
    r
}

/// The profile form of a found user.
#[derive(Debug)]
pub struct ProfileView {
    pub first_name: Option<String>,
    pub last_name: Option<String>,
    pub status_options: Vec<StatusOption>,
    pub email_input: InputState,
    pub password_input: InputState,
    pub retype_password_shown: bool,
}

/// What the form renders.
#[derive(Debug)]
pub enum Rendered {
    /// The loading placeholder.
    Loading,
    /// The profile form.
    Profile(ProfileView),
    /// The not-found message.
    NotFound { text: String },
    /// The error message, shown verbatim.
    ServerError { message: String },
}

/// The branch that a rendering belongs to.
pub open spec fn rendered_branch(r: Rendered) -> Branch {
    match r {
        Rendered::Loading => Branch::Pending,
        Rendered::Profile(_) => Branch::Found,
        Rendered::NotFound { .. } => Branch::NotFound,
        Rendered::ServerError { .. } => Branch::Error,
    }
}

/// The text of the not-found branch.
pub open spec fn not_found_text() -> Seq<char> {
    "Couldn't get user"@
}

/// `p` is the profile form of user `u` in session `s`.
pub open spec fn is_profile_of(p: ProfileView, u: User, s: EditSession) -> bool {
    &&& p.first_name == u.first_name
    &&& p.last_name == u.last_name
    &&& p.status_options@ == all_statuses().map_values(|st: UserStatus| option_for(st, u.status))
    &&& p.email_input == InputState {
        disabled: s.edit_email_disabled,
        highlighted: !s.edit_email_disabled,
    }
    &&& p.password_input == InputState {
        disabled: s.edit_password_disabled,
        highlighted: !s.edit_password_disabled,
    }
    &&& p.retype_password_shown == !s.edit_password_disabled
}

/// `r` is what the form renders for outcome `o` in session `s`.
pub open spec fn renders(o: FetchOutcome, s: EditSession, r: Rendered) -> bool {
    match o {
        FetchOutcome::Pending => r is Loading,
        FetchOutcome::Found(u) => match r {
            Rendered::Profile(p) => is_profile_of(p, u, s),
            _ => false,
        },
        FetchOutcome::NotFound => match r {
            Rendered::NotFound { text } => text@ == not_found_text(),
            _ => false,
        },
        FetchOutcome::Failed(e) => match r {
            Rendered::ServerError { message } => message == e,
            _ => false,
        },
    }
}

/// Renders the form for the fetch outcome `o` and the session flags `s`.
pub fn render(o: FetchOutcome, s: &EditSession) -> (r: Rendered)
    ensures
        renders(o, *s, r),
        rendered_branch(r) == outcome_branch(o),
{
    match o {
        FetchOutcome::Pending => Rendered::Loading,
        FetchOutcome::Found(u) => {
            let status_options = status_options(u.status);
            Rendered::Profile(
                ProfileView {
                    first_name: u.first_name,
                    last_name: u.last_name,
                    status_options,
                    email_input: s.email_input(),
                    password_input: s.password_input(),
                    retype_password_shown: s.retype_password_shown(),
                },
            )
        },
        FetchOutcome::NotFound => Rendered::NotFound { text: "Couldn't get user".to_string() },
        FetchOutcome::Failed(e) => Rendered::ServerError { message: e },
    }
}

} // verus!
