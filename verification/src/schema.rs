//! The `admin_user` table: its row type, the hooks that stamp a row before it
//! is written, the changes the admin API makes to rows, and the schema check.
use vstd::prelude::*;
use vstd::string::*;

verus! {

/// One row of the `admin_user` table.
#[derive(Debug, Clone, PartialEq)]
pub struct AdminUser {
    pub id: String,
    pub email: String,
    pub active: bool,
    pub created_at: i64,
    pub updated_at: i64,
}

/// Body of a request that creates an admin user.
#[derive(Debug, Clone, PartialEq)]
pub struct CreateParams {
    pub email: String,
    pub active: Option<bool>,
}

/// Body of a request that updates an admin user.
#[derive(Debug, Clone, PartialEq)]
pub struct UpdateParams {
    pub active: bool,
}

/// How serious a difference between the model and the database table is.
#[derive(Debug, Clone, PartialEq)]
pub enum IssueLevel {
    Critical,
    High,
    Medium,
    Low,
}

pub open spec fn is_lower_hex_digit(c: char) -> bool {
    ('0' <= c && c <= '9') || ('a' <= c && c <= 'f')
}

/// The text of a random (version 4) UUID in its lower-case hyphenated form,
/// such as `67e55044-10b1-426f-9247-bb680e5fe0c8`.
pub open spec fn is_v4_uuid_text(s: Seq<char>) -> bool {
    &&& s.len() == 36
    &&& forall|i: int|
        0 <= i < 36 ==> (if i == 8 || i == 13 || i == 18 || i == 23 {
            #[trigger] s[i] == '-'
        } else {
            is_lower_hex_digit(s[i])
        })
    &&& s[14] == '4'
    &&& (s[19] == '8' || s[19] == '9' || s[19] == 'a' || s[19] == 'b')
}

/// `chrono::Utc::now().timestamp_millis()`: the current time in milliseconds since
/// the Unix epoch, as read from the system clock. The value depends on the clock;
/// the one claim is that it is not negative: `Utc::now` stops with a panic (its
/// `expect("system time before Unix epoch")`) rather than return a time before
/// the epoch.
#[verifier::external_body]
fn current_time_millis() -> (ms: i64)
    ensures
        ms >= 0,
{
    chrono::Utc::now().timestamp_millis()
}

/// `uuid::Uuid::new_v4().to_string()`. The value is random; the claim is only its
/// shape, which `uuid`'s hyphenated lower-case `Display` and the version and
/// variant bits that `new_v4` sets give every outcome.
#[verifier::external_body]
fn new_v4_uuid_text() -> (s: String)
    ensures
        is_v4_uuid_text(s@),
{
    uuid::Uuid::new_v4().to_string()
}

/// A row that has not been stored yet: no id, and both timestamps zero.
pub open spec fn is_unstored(u: AdminUser) -> bool {
    &&& u.id@ == Seq::<char>::empty()
    &&& u.created_at == 0
    &&& u.updated_at == 0
}

impl AdminUser {
    /// A row with every field at its default value.
    pub fn new() -> (u: AdminUser)
        ensures
            u.id@ == Seq::<char>::empty(),
            u.email@ == Seq::<char>::empty(),
            !u.active,
            u.created_at == 0,
            u.updated_at == 0,
    {
        AdminUser { id: String::new(), email: String::new(), active: false, created_at: 0, updated_at: 0 }
    }
}

/// What creating a row stamps on it: a fresh id and both timestamps.
pub fn stamp_created(state: &mut AdminUser, id: String, created_at: i64, updated_at: i64)
    ensures
        final(state).id == id,
        final(state).created_at == created_at,
        final(state).updated_at == updated_at,
        final(state).email == old(state).email,
        final(state).active == old(state).active,
{
    state.id = id;
    state.created_at = created_at;
    state.updated_at = updated_at;
}

/// What updating a row stamps on it: the time of the update.
pub fn stamp_updated(state: &mut AdminUser, updated_at: i64)
    ensures
        final(state).updated_at == updated_at,
        final(state).id == old(state).id,
        final(state).email == old(state).email,
        final(state).active == old(state).active,
        final(state).created_at == old(state).created_at,
{
    state.updated_at = updated_at;
}

/// Hook run before a row is inserted: it gets a random v4 UUID as its id, and
/// the clock's time as both timestamps (each read on its own, in milliseconds
/// since the Unix epoch, so never negative). Email and active flag are kept.
pub fn fn_to_call_before_create(state: &mut AdminUser)
    ensures
        is_v4_uuid_text(final(state).id@),
        final(state).created_at >= 0,
        final(state).updated_at >= 0,
        final(state).email == old(state).email,
        final(state).active == old(state).active,
{
    let id = new_v4_uuid_text();
    let created_at = current_time_millis();
    let updated_at = current_time_millis();
    stamp_created(state, id, created_at, updated_at);
}

/// Hook run before a row is updated: only `updated_at` changes, to the clock's time
/// (milliseconds since the Unix epoch, so never negative).
pub fn fn_to_call_before_update(state: &mut AdminUser)
    ensures
        final(state).updated_at >= 0,
        final(state).id == old(state).id,
        final(state).email == old(state).email,
        final(state).active == old(state).active,
        final(state).created_at == old(state).created_at,
{
    let now = current_time_millis();
    stamp_updated(state, now);
}

/// The unsaved row that a create request asks for: the given email, active only
/// when the request says so, everything else at its default.
pub fn user_for_create(params: CreateParams) -> (u: AdminUser)
    ensures
        is_unstored(u),
        u.email == params.email,
        u.active == (params.active == Some(true)),
{
    let mut u = AdminUser::new();
    u.email = params.email;
    u.active = match params.active {
        Some(b) => b,
        None => false,
    };
    u
}

/// The row after an update request: the active flag set to the requested one.
pub open spec fn updated_row(row: AdminUser, params: UpdateParams) -> AdminUser {
    AdminUser { active: params.active, ..row }
}

/// Whether an update request changes the row, which decides whether it is written.
pub open spec fn update_changes(row: AdminUser, params: UpdateParams) -> bool {
    row.active != params.active
}

/// Applies an update request to a row; returns whether the row changed. Only a
/// changed row is written back (and so stamped by `fn_to_call_before_update`).
pub fn apply_update(row: &mut AdminUser, params: &UpdateParams) -> (changed: bool)
    ensures
        *final(row) == updated_row(*old(row), *params),
        changed == update_changes(*old(row), *params),
        final(row).active == params.active,
        final(row).id == old(row).id,
        final(row).email == old(row).email,
        final(row).created_at == old(row).created_at,
        final(row).updated_at == old(row).updated_at,
        changed == (old(row).active != params.active),
{
    if params.active != row.active {
        row.active = params.active;
        true
    } else {
        false
    }
}

/// Applying the same update twice gives the row that applying it once gives,
/// and the second application changes nothing.
pub proof fn lemma_update_idempotent(row: AdminUser, params: UpdateParams)
    ensures
        updated_row(updated_row(row, params), params) == updated_row(row, params),
        !update_changes(updated_row(row, params), params),
{
}

/// An update sets the active flag to the requested one, whatever the row, and it
/// changes the row exactly when the flag differs from the requested one.
pub proof fn lemma_update_sets_active(row: AdminUser, params: UpdateParams)
    ensures
        updated_row(row, params).active == params.active,
        update_changes(row, params) == (row.active != params.active),
{
}

/// An update never touches the id, the email or the creation time of a row.
pub proof fn lemma_update_keeps_identity(row: AdminUser, params: UpdateParams)
    ensures
        updated_row(row, params).id == row.id,
        updated_row(row, params).email == row.email,
        updated_row(row, params).created_at == row.created_at,
        updated_row(row, params).updated_at == row.updated_at,
{
}

/// The admin row created at start-up when the table is empty.
pub fn default_admin_user(email: String) -> (u: AdminUser)
    ensures
        is_unstored(u),
        u.email == email,
        u.active,
{
    let mut u = AdminUser::new();
    u.email = email;
    u.active = true;
    u
}

/// The default admin is created only when the table holds no row.
pub fn needs_default_admin(row_count: u64) -> (b: bool)
    ensures
        b == (row_count == 0),
{
    row_count == 0
}

pub open spec fn is_critical(level: IssueLevel) -> bool {
    level is Critical
}

/// The schema check fails exactly when one of the differences is critical.
pub open spec fn schema_acceptable(levels: Seq<IssueLevel>) -> bool {
    forall|i: int| 0 <= i < levels.len() ==> !is_critical(#[trigger] levels[i])
}

/// Judges the differences that the schema comparison found: `Err("Schema mismatch")`
/// exactly when one of them is critical.
pub fn check_tables(levels: &Vec<IssueLevel>) -> (r: Result<(), String>)
    ensures
        r is Ok <==> schema_acceptable(levels@),
        r is Err <==> exists|i: int| 0 <= i < levels@.len() && levels@[i] is Critical,
        r matches Err(msg) ==> msg@ == "Schema mismatch"@,
{
    let mut has_error = false;
    let n = levels.len();
    for i in 0..n
        invariant
            n == levels@.len(),
            has_error <==> exists|j: int| 0 <= j < i && is_critical(#[trigger] levels@[j]),
    {
        match &levels[i] {
            IssueLevel::Critical => {
                has_error = true;
            },
            _ => {},
        }
    }
    if has_error {
        Err(String::from_str("Schema mismatch"))
    } else {
        Ok(())
    }
}

/// The schema is refused exactly when a difference at some position, wherever it
/// stands in the list, is critical.
pub proof fn lemma_any_critical_refuses(levels: Seq<IssueLevel>)
    ensures
        !schema_acceptable(levels) <==> exists|i: int| 0 <= i < levels.len() && levels[i] is Critical,
{
    if exists|i: int| 0 <= i < levels.len() && levels[i] is Critical {
        let i = choose|i: int| 0 <= i < levels.len() && levels[i] is Critical;
        assert(is_critical(levels[i]));
    }
}

/// Differences that are not critical never make the check fail: adding one to a
/// list keeps its verdict.
pub proof fn lemma_noncritical_keeps_verdict(levels: Seq<IssueLevel>, extra: IssueLevel)
    requires
        !is_critical(extra),
    ensures
        schema_acceptable(levels.push(extra)) == schema_acceptable(levels),
{
    if schema_acceptable(levels) {
        assert forall|i: int| 0 <= i < levels.push(extra).len() implies !is_critical(
            #[trigger] levels.push(extra)[i],
        ) by {
            if i < levels.len() {
                assert(levels.push(extra)[i] == levels[i]);
            }
        }
    } else {
        let k = choose|k: int| 0 <= k < levels.len() && is_critical(#[trigger] levels[k]);
        assert(levels.push(extra)[k] == levels[k]);
    }
}

} // verus!
