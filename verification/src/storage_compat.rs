//! Schema compatibility statements that bring an existing SQLite database up to
//! date after the migrations run.
use vstd::prelude::*;

verus! {

/// Adds the execution mode column to job instances of older databases.
pub const ADD_EXECUTION_MODE_COLUMN_SQL: &'static str = "ALTER TABLE job_instances ADD COLUMN execution_mode varchar NOT NULL DEFAULT 'single'";

/// Creates the per-worker attempt table of broadcast instances.
pub const CREATE_JOB_INSTANCE_ATTEMPTS_SQL: &'static str = r"CREATE TABLE IF NOT EXISTS job_instance_attempts (
            id varchar NOT NULL PRIMARY KEY,
            instance_id varchar NOT NULL,
            worker_id varchar NOT NULL,
            status varchar NOT NULL,
            created_at varchar NOT NULL,
            updated_at varchar NOT NULL,
            FOREIGN KEY(instance_id) REFERENCES job_instances(id) ON DELETE CASCADE
        )";

/// Unique index of attempts by instance and worker.
pub const CREATE_ATTEMPTS_INSTANCE_WORKER_INDEX_SQL: &'static str = "CREATE UNIQUE INDEX IF NOT EXISTS idx_job_instance_attempts_instance_worker ON job_instance_attempts (instance_id, worker_id)";

/// Index of attempts by status.
pub const CREATE_ATTEMPTS_STATUS_INDEX_SQL: &'static str = "CREATE INDEX IF NOT EXISTS idx_job_instance_attempts_status ON job_instance_attempts (status)";

/// Creates the users table.
pub const CREATE_USERS_SQL: &'static str = r"CREATE TABLE IF NOT EXISTS users (
            id varchar NOT NULL PRIMARY KEY,
            username varchar NOT NULL,
            password_hash varchar NOT NULL,
            role varchar NOT NULL,
            created_at varchar NOT NULL
        )";

/// Unique index of users by name.
pub const CREATE_USERS_USERNAME_INDEX_SQL: &'static str = "CREATE UNIQUE INDEX IF NOT EXISTS idx_users_username ON users (username)";

/// Creates the auth sessions table.
pub const CREATE_AUTH_SESSIONS_SQL: &'static str = r"CREATE TABLE IF NOT EXISTS auth_sessions (
            id varchar NOT NULL PRIMARY KEY,
            user_id varchar NOT NULL,
            token_hash varchar NOT NULL,
            device_id varchar,
            device_name varchar,
            expires_at varchar NOT NULL,
            created_at varchar NOT NULL,
            updated_at varchar NOT NULL,
            FOREIGN KEY(user_id) REFERENCES users(id) ON DELETE CASCADE
        )";

/// Unique index of auth sessions by token hash.
pub const CREATE_AUTH_SESSIONS_TOKEN_INDEX_SQL: &'static str = "CREATE UNIQUE INDEX IF NOT EXISTS idx_auth_sessions_token_hash ON auth_sessions (token_hash)";

/// Index of auth sessions by user.
pub const CREATE_AUTH_SESSIONS_USER_INDEX_SQL: &'static str = "CREATE INDEX IF NOT EXISTS idx_auth_sessions_user ON auth_sessions (user_id)";

/// Start of the statement seeding the initial admin user; its creation time follows.
pub const SEED_ADMIN_USER_SQL_PREFIX: &'static str = "INSERT OR IGNORE INTO users (id, username, password_hash, role, created_at) VALUES ('usr-admin', 'scheduler_init', '$2b$10$/rflKev/thG2Je1e.2/7leHSg8Z/LYdSTqdpwsPKTyJMO5ajpysLW', 'admin', '";

/// End of the statement seeding the initial admin user.
pub const SEED_ADMIN_USER_SQL_SUFFIX: &'static str = "')";

/// Whether a table's column list names a column.
pub fn column_listed(names: &Vec<String>, column: &str) -> (res: bool)
    ensures
        res == names@.map_values(|n: String| n@).contains(column@),
{
    let mut i: usize = 0;
    while i < names.len()
        invariant
            i <= names.len(),
            forall|k: int| 0 <= k < i ==> names@[k]@ != column@,
        decreases names.len() - i,
    {
        if crate::text::text_eq(names[i].as_str(), column) {
            assert(names@.map_values(|n: String| n@)[i as int] == column@);
            return true;
        }
        i = i + 1;
    }
    false
}

/// Views of a list of texts.
pub open spec fn str_views(v: Seq<&'static str>) -> Seq<Seq<char>> {
    v.map_values(|s: &'static str| s@)
}

/// Statements that give an SQLite database the broadcast attempt schema: the
/// execution mode column when it is missing, then the attempt table and its indexes.
pub fn broadcast_schema_statements(has_execution_mode: bool) -> (statements: Vec<&'static str>)
    ensures
        str_views(statements@) == (if has_execution_mode {
            seq![]
        } else {
            seq![ADD_EXECUTION_MODE_COLUMN_SQL@]
        }) + seq![
            CREATE_JOB_INSTANCE_ATTEMPTS_SQL@,
            CREATE_ATTEMPTS_INSTANCE_WORKER_INDEX_SQL@,
            CREATE_ATTEMPTS_STATUS_INDEX_SQL@,
        ],
{
    let mut statements: Vec<&'static str> = Vec::new();
    if !has_execution_mode {
        statements.push(ADD_EXECUTION_MODE_COLUMN_SQL);
    }
    statements.push(CREATE_JOB_INSTANCE_ATTEMPTS_SQL);
    statements.push(CREATE_ATTEMPTS_INSTANCE_WORKER_INDEX_SQL);
    statements.push(CREATE_ATTEMPTS_STATUS_INDEX_SQL);
    assert(str_views(statements@) =~= (if has_execution_mode {
        seq![]
    } else {
        seq![ADD_EXECUTION_MODE_COLUMN_SQL@]
    }) + seq![
        CREATE_JOB_INSTANCE_ATTEMPTS_SQL@,
        CREATE_ATTEMPTS_INSTANCE_WORKER_INDEX_SQL@,
        CREATE_ATTEMPTS_STATUS_INDEX_SQL@,
    ]);
    statements
}

/// Statements that give an SQLite database the authentication schema and seed
/// the initial admin user, created at `now` unless it already exists.
pub fn auth_schema_statements(now: &str) -> (statements: Vec<String>)
    ensures
        statements@.map_values(|s: String| s@) == seq![
            CREATE_USERS_SQL@,
            CREATE_USERS_USERNAME_INDEX_SQL@,
            CREATE_AUTH_SESSIONS_SQL@,
            CREATE_AUTH_SESSIONS_TOKEN_INDEX_SQL@,
            CREATE_AUTH_SESSIONS_USER_INDEX_SQL@,
            SEED_ADMIN_USER_SQL_PREFIX@ + now@ + SEED_ADMIN_USER_SQL_SUFFIX@,
        ],
{
    let mut seed = String::from_str(SEED_ADMIN_USER_SQL_PREFIX);
    seed.append(now);
    seed.append(SEED_ADMIN_USER_SQL_SUFFIX);
    let statements = vec![
        String::from_str(CREATE_USERS_SQL),
        String::from_str(CREATE_USERS_USERNAME_INDEX_SQL),
        String::from_str(CREATE_AUTH_SESSIONS_SQL),
        String::from_str(CREATE_AUTH_SESSIONS_TOKEN_INDEX_SQL),
        String::from_str(CREATE_AUTH_SESSIONS_USER_INDEX_SQL),
        seed,
    ];
    assert(statements@.map_values(|s: String| s@) =~= seq![
        CREATE_USERS_SQL@,
        CREATE_USERS_USERNAME_INDEX_SQL@,
        CREATE_AUTH_SESSIONS_SQL@,
        CREATE_AUTH_SESSIONS_TOKEN_INDEX_SQL@,
        CREATE_AUTH_SESSIONS_USER_INDEX_SQL@,
        SEED_ADMIN_USER_SQL_PREFIX@ + now@ + SEED_ADMIN_USER_SQL_SUFFIX@,
    ]);
    statements
}

} // verus!
