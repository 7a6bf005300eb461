//! Who may do what, and where.
//!
//! An instance [`Role`] says what a person may ever do; a [`ProjectRole`] says
//! what they may do on one project. The two compose by
//! [`ProjectRole::capped_by`], and [`resolve`] is the whole of the per-project
//! authorisation policy.

use vstd::prelude::*;

use crate::domain::project::Project;
use crate::error::{AppError, AppResult};
use crate::text::{copy_str, opt_string_view, str_eq};

verus! {

/// What an account may ever do, anywhere.
#[derive(Debug, Clone, Copy, PartialEq, Eq, Hash, Structural)]
pub enum Role {
    /// Read-only, everywhere.
    Viewer,
    /// May create projects and work in the ones they are granted.
    Member,
    /// Administers the whole instance.
    Admin,
}

/// The facts about an account that ownership depends on.
#[derive(Debug, Clone)]
pub struct User {
    /// The account id.
    pub id: String,
    /// The instance role, the ceiling on every project role.
    pub role: Role,
    /// Whether the account can sign in at all.
    pub is_active: bool,
}

/// Why a project role could not be read: the text that was offered.
#[derive(Debug)]
pub struct ProjectRoleError(pub String);

/// What a user may do on one project.
///
/// Declared least- to most-privileged, so the derived `Ord` is the privilege
/// ordering: `Viewer < Member < Owner`.
#[derive(Debug, Clone, Copy, PartialEq, Eq, PartialOrd, Ord, Hash, Structural)]
pub enum ProjectRole {
    /// Read the project's cards, comments, tags and configuration.
    Viewer,
    /// Viewer, plus create/edit/move/delete cards, comment, and tag.
    Member,
    /// Member, plus settings, member management, archive, and config.
    Owner,
}

/// A project role's place in the privilege order.
pub open spec fn privilege(r: ProjectRole) -> int {
    match r {
        ProjectRole::Viewer => 0,
        ProjectRole::Member => 1,
        ProjectRole::Owner => 2,
    }
}

/// The most an instance role can ever hold on a project.
pub open spec fn ceiling(instance: Role) -> ProjectRole {
    match instance {
        Role::Viewer => ProjectRole::Viewer,
        Role::Member => ProjectRole::Owner,
        Role::Admin => ProjectRole::Owner,
    }
}

/// `r` narrowed to what `instance` permits: the less privileged of the two.
pub open spec fn capped(r: ProjectRole, instance: Role) -> ProjectRole {
    if privilege(r) <= privilege(ceiling(instance)) {
        r
    } else {
        ceiling(instance)
    }
}

/// The access rules: instance admins and the project's lead own the project,
/// otherwise a grant is taken at face value, and no grant is no access; the
/// result is then capped by the instance role.
pub open spec fn resolved(instance: Role, is_lead: bool, granted: Option<ProjectRole>) -> Option<ProjectRole> {
    let base = if instance == Role::Admin || is_lead {
        Some(ProjectRole::Owner)
    } else {
        granted
    };
    match base {
        Some(r) => Some(capped(r, instance)),
        None => None,
    }
}

/// The database and JSON spelling of each project role.
pub open spec fn project_role_name(r: ProjectRole) -> Seq<char> {
    match r {
        ProjectRole::Viewer => "viewer"@,
        ProjectRole::Member => "member"@,
        ProjectRole::Owner => "owner"@,
    }
}

/// The project role a spelling names, if any.
pub open spec fn project_role_named(s: Seq<char>) -> Option<ProjectRole> {
    if s == "viewer"@ {
        Some(ProjectRole::Viewer)
    } else if s == "member"@ {
        Some(ProjectRole::Member)
    } else if s == "owner"@ {
        Some(ProjectRole::Owner)
    } else {
        None
    }
}

impl ProjectRole {
    /// The role's database and JSON spelling.
    pub fn as_str(self) -> (s: &'static str)
        ensures
            s@ == project_role_name(self),
    {
        match self {
            ProjectRole::Viewer => "viewer",
            ProjectRole::Member => "member",
            ProjectRole::Owner => "owner",
        }
    }

    /// The role's place in the privilege order.
    pub(crate) fn privilege(self) -> (p: u8)
        ensures
            p == privilege(self),
    {
        match self {
            ProjectRole::Viewer => 0,
            ProjectRole::Member => 1,
            ProjectRole::Owner => 2,
        }
    }

    /// Whether this role is at least as privileged as `required`.
    pub fn at_least(self, required: Self) -> (b: bool)
        ensures
            b == (privilege(self) >= privilege(required)),
    {
        self.privilege() >= required.privilege()
    }

    /// This role, narrowed to what `instance` permits anywhere at all. The
    /// instance role is a ceiling, never a floor.
    pub fn capped_by(self, instance: Role) -> (r: Self)
        ensures
            r == capped(self, instance),
    {
        let ceiling = match instance {
            Role::Viewer => ProjectRole::Viewer,
            Role::Member | Role::Admin => ProjectRole::Owner,
        };
        if self.privilege() <= ceiling.privilege() {
            self
        } else {
            ceiling
        }
    }

    /// Reads a role from its spelling, refusing anything else.
    pub fn parse(s: &str) -> (res: Result<Self, ProjectRoleError>)
        ensures
            match project_role_named(s@) {
                Some(r) => res == Ok::<Self, ProjectRoleError>(r),
                None => res matches Err(ProjectRoleError(t)) && t@ == s@,
            },
    {
        if str_eq(s, "viewer") {
            Ok(ProjectRole::Viewer)
        } else if str_eq(s, "member") {
            Ok(ProjectRole::Member)
        } else if str_eq(s, "owner") {
            Ok(ProjectRole::Owner)
        } else {
            Err(ProjectRoleError(copy_str(s)))
        }
    }
}

impl std::str::FromStr for ProjectRole {
    type Err = ProjectRoleError;

    fn from_str(s: &str) -> (res: Result<Self, Self::Err>)
        ensures
            match project_role_named(s@) {
                Some(c) => res == Ok::<Self, ProjectRoleError>(c),
                None => res matches Err(ProjectRoleError(t)) && t@ == s@,
            },
    {
        Self::parse(s)
    }
}

/// Every project role reads back from its own spelling.
pub proof fn lemma_project_role_round_trip(r: ProjectRole)
    ensures
        project_role_named(project_role_name(r)) == Some(r),
{
    reveal_strlit("viewer");
    reveal_strlit("member");
    reveal_strlit("owner");
    assert("viewer"@.len() == 6 && "member"@.len() == 6 && "owner"@.len() == 5);
    assert("viewer"@[0] != "member"@[0]);
}

/// What a person may do on a project, with every lookup already done.
///
/// 1. An instance admin owns every project, with no grant needed.
/// 2. The project's lead owns it.
/// 3. Otherwise a grant is taken at face value.
/// 4. Otherwise there is no access at all.
///
/// Whatever comes out is capped by the instance role.
pub fn resolve(instance: Role, is_lead: bool, granted: Option<ProjectRole>) -> (r: Option<ProjectRole>)
    ensures
        r == resolved(instance, is_lead, granted),
{
    let base = if instance == Role::Admin || is_lead {
        Some(ProjectRole::Owner)
    } else {
        granted
    };
    match base {
        Some(role) => Some(role.capped_by(instance)),
        None => None,
    }
}

/// Whether an `owner` grant held by `user` actually makes them one: they must be
/// able to sign in, and their instance role must not cap the grant below owner.
pub fn grants_ownership(role: ProjectRole, user: &User) -> (b: bool)
    ensures
        b == (user.is_active && capped(role, user.role) == ProjectRole::Owner),
{
    user.is_active && role.capped_by(user.role) == ProjectRole::Owner
}

/// The instance role is a ceiling and never a floor: capping never raises a
/// role, never exceeds the ceiling, and leaves a role within the ceiling alone.
pub proof fn lemma_cap_is_a_ceiling(r: ProjectRole, instance: Role)
    ensures
        privilege(capped(r, instance)) <= privilege(r),
        privilege(capped(r, instance)) <= privilege(ceiling(instance)),
        privilege(r) <= privilege(ceiling(instance)) ==> capped(r, instance) == r,
{
}

/// No grant is no access, unless the person is an instance admin or the lead;
/// and an instance viewer can never resolve to more than viewer.
pub proof fn lemma_default_deny(instance: Role, is_lead: bool, granted: Option<ProjectRole>)
    ensures
        (granted is None && instance != Role::Admin && !is_lead) ==> resolved(instance, is_lead, granted) is None,
        (instance == Role::Admin || is_lead) ==> resolved(instance, is_lead, granted) == Some(ceiling(instance)),
        instance == Role::Viewer ==> (resolved(instance, is_lead, granted) matches Some(r) ==> r == ProjectRole::Viewer),
{
}

/// Whether `user` leads `project`.
pub open spec fn leads(project: Project, user: User) -> bool {
    opt_string_view(project.lead_id) == Some(user.id@)
}

/// Whether a person's grant row has to be read to decide their access to a
/// project: not for instance admins and the lead, who own it by rule, so the
/// grant could not change the answer.
pub fn needs_grant(project: &Project, user: &User) -> (b: bool)
    ensures
        b == !(user.role == Role::Admin || leads(*project, *user)),
{
    let is_lead = match &project.lead_id {
        Some(lead) => str_eq(lead.as_str(), user.id.as_str()),
        None => false,
    };
    !(user.role == Role::Admin || is_lead)
}

/// What `user` may do on `project`, given their grant row (`None` when they
/// have none, or when [`needs_grant`] said it was not read), or `None` for no
/// access at all.
pub fn effective_role(project: &Project, user: &User, granted: Option<ProjectRole>) -> (r: Option<ProjectRole>)
    ensures
        r == resolved(user.role, leads(*project, *user), granted),
{
    let is_lead = match &project.lead_id {
        Some(lead) => str_eq(lead.as_str(), user.id.as_str()),
        None => false,
    };
    resolve(user.role, is_lead, granted)
}

/// The answer to a request that needs at least `min` on a project, given what
/// the person may do there. No access at all is a 404, not a 403: to someone
/// with no grant, an inaccessible project is indistinguishable from one that
/// was never created. Access short of `min` is a 403.
pub fn require(role: Option<ProjectRole>, min: ProjectRole) -> (res: AppResult<ProjectRole>)
    ensures
        role is None ==> res matches Err(AppError::NotFound),
        role matches Some(r) ==> (privilege(r) >= privilege(min) ==> (res matches Ok(x) && x == r)),
        role matches Some(r) ==> (privilege(r) < privilege(min) ==> res matches Err(AppError::Forbidden)),
{
    match role {
        None => Err(AppError::NotFound),
        Some(r) => if r.at_least(min) {
            Ok(r)
        } else {
            Err(AppError::Forbidden)
        },
    }
}

/// A grant joined to the person holding it, as a member list shows it.
#[derive(Debug, Clone)]
pub struct MemberListing {
    /// Who holds the grant.
    pub user_id: String,
    /// What the row grants.
    pub role: ProjectRole,
    /// When it was granted.
    pub added_at: String,
    /// Who granted it; `None` for grants no person made.
    pub added_by: Option<String>,
    /// The holder's login name.
    pub username: String,
    /// The holder's display name.
    pub display_name: String,
    /// The holder's avatar.
    pub avatar_url: Option<String>,
    /// The holder's instance role, the ceiling on `role`.
    pub instance_role: Role,
    /// Whether the holder can sign in at all.
    pub is_active: bool,
    /// Whether this person is the project's lead, and so an implicit owner.
    pub is_lead: bool,
}

/// A project member as the API describes it: both what the row says and
/// what the holder can actually do.
#[derive(Debug, Clone)]
pub struct ProjectMemberDto {
    /// Who holds the grant.
    pub user_id: String,
    /// The holder's login name.
    pub username: String,
    /// The holder's display name.
    pub display_name: String,
    /// The holder's avatar.
    pub avatar_url: Option<String>,
    /// What the row says, before the instance-role ceiling.
    pub role: ProjectRole,
    /// What the holder can actually do, by the same rules every access
    /// decision goes through.
    pub effective_role: ProjectRole,
    /// The holder's instance role.
    pub instance_role: Role,
    /// Whether the holder can sign in at all.
    pub is_active: bool,
    /// When the grant was made.
    pub added_at: String,
    /// Who made it.
    pub added_by: Option<String>,
}

impl ProjectMemberDto {
    /// A listed grant as the member list shows it. Its effective role comes
    /// from [`resolve`], the same rules every access decision uses.
    pub fn from_listing(row: &MemberListing) -> (dto: Self)
        ensures
            dto.user_id@ == row.user_id@,
            dto.username@ == row.username@,
            dto.display_name@ == row.display_name@,
            opt_string_view(dto.avatar_url) == opt_string_view(row.avatar_url),
            dto.role == row.role,
            Some(dto.effective_role) == resolved(row.instance_role, row.is_lead, Some(row.role)),
            dto.instance_role == row.instance_role,
            dto.is_active == row.is_active,
            dto.added_at@ == row.added_at@,
            opt_string_view(dto.added_by) == opt_string_view(row.added_by),
    {
        let effective = match resolve(row.instance_role, row.is_lead, Some(row.role)) {
            Some(r) => r,
            None => row.role,
        };
        ProjectMemberDto {
            user_id: row.user_id.clone(),
            username: row.username.clone(),
            display_name: row.display_name.clone(),
            avatar_url: match &row.avatar_url {
                Some(a) => Some(a.clone()),
                None => None,
            },
            role: row.role,
            effective_role: effective,
            instance_role: row.instance_role,
            is_active: row.is_active,
            added_at: row.added_at.clone(),
            added_by: match &row.added_by {
                Some(a) => Some(a.clone()),
                None => None,
            },
        }
    }
}

/// The keys among `held` (each project a person holds an `owner` row on,
/// with the number of people who can own it) of which that person is the
/// only effective owner, in order.
pub open spec fn sole_keys(held: Seq<(Seq<char>, int)>) -> Seq<Seq<char>>
    decreases held.len(),
{
    if held.len() == 0 {
        Seq::empty()
    } else {
        let rest = sole_keys(held.drop_last());
        if held.last().1 <= 1 {
            rest.push(held.last().0)
        } else {
            rest
        }
    }
}

/// The projects `user` is the only effective owner of, given each project
/// they hold an `owner` row on with its count of people who can own it. An
/// account that cannot own anything (inactive, or capped below owner) is the
/// last owner of nothing; otherwise a count of one is a count of them.
pub fn projects_solely_owned_by(user: &User, held: &Vec<(String, i64)>) -> (keys: Vec<String>)
    ensures
        !(user.is_active && capped(ProjectRole::Owner, user.role) == ProjectRole::Owner) ==> keys@.len() == 0,
        (user.is_active && capped(ProjectRole::Owner, user.role) == ProjectRole::Owner) ==> keys@.map_values(
            |k: String| k@,
        ) == sole_keys(held@.map_values(|h: (String, i64)| (h.0@, h.1 as int))),
{
    let mut keys: Vec<String> = Vec::new();
    if !grants_ownership(ProjectRole::Owner, user) {
        return keys;
    }
    let ghost hv = held@.map_values(|h: (String, i64)| (h.0@, h.1 as int));
    let mut i: usize = 0;
    proof {
        assert(keys@.map_values(|k: String| k@) =~= sole_keys(hv.take(0)));
    }
    while i < held.len()
        invariant
            i <= held.len(),
            hv == held@.map_values(|h: (String, i64)| (h.0@, h.1 as int)),
            keys@.map_values(|k: String| k@) == sole_keys(hv.take(i as int)),
        decreases held.len() - i,
    {
        let ghost before = keys@;
        assert(hv.take(i as int + 1).drop_last() =~= hv.take(i as int));
        assert(hv.take(i as int + 1).last() == hv[i as int]);
        if held[i].1 <= 1 {
            keys.push(held[i].0.clone());
            assert(keys@.map_values(|k: String| k@) =~= before.map_values(|k: String| k@).push(held@[i as int].0@));
        }
        i = i + 1;
    }
    assert(hv.take(hv.len() as int) =~= hv);
    keys
}

} // verus!
