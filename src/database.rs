use vstd::prelude::*;

verus! {

/// Why a query that should give exactly one row did not.
#[derive(Clone, Copy, Debug, PartialEq, Eq, Structural)]
pub enum DaoError {
    TooManyRowsReturned,
    QueryReturnedNoRows,
}

impl DaoError {
    /// A sentence that describes the error.
    pub fn message(&self) -> (r: String)
        ensures
            *self == DaoError::TooManyRowsReturned ==> r@ == "Too many rows returned"@,
            *self == DaoError::QueryReturnedNoRows ==> r@ == "Query returned no rows"@,
    {
        match self {
            DaoError::TooManyRowsReturned => String::from_str("Too many rows returned"),
            DaoError::QueryReturnedNoRows => String::from_str("Query returned no rows"),
        }
    }
}

/// The database could not be opened.
#[derive(Debug)]
pub struct ConnectionError {}

/// A stored request definition.
#[derive(Clone, Debug)]
pub struct Request {
    pub id: i32,
    pub project_id: i32,
    pub name: String,
    pub body: String,
    pub url: String,
    pub additional_data: String,
    pub headers: String,
}

/// The editor text stored for a project.
#[derive(Clone, Debug)]
pub struct EditorContent {
    pub id: i32,
    pub project_id: i32,
    pub content: String,
}

#[derive(Clone, Debug)]
pub struct Project {
    pub id: i32,
    pub name: String,
}

/// The one row that a query for a project's editor text should give: more
/// than one, or none, is an error.
pub fn single_editor_content(rows: Vec<EditorContent>) -> (r: Result<EditorContent, DaoError>)
    ensures
        rows@.len() > 1 ==> r == Err::<EditorContent, DaoError>(DaoError::TooManyRowsReturned),
        rows@.len() == 0 ==> r == Err::<EditorContent, DaoError>(DaoError::QueryReturnedNoRows),
        rows@.len() == 1 ==> r == Ok::<EditorContent, DaoError>(rows@[0]),
{
    let mut rows = rows;
    if rows.len() > 1 {
        return Err(DaoError::TooManyRowsReturned);
    }
    if rows.len() == 0 {
        return Err(DaoError::QueryReturnedNoRows);
    }
    Ok(rows.remove(0))
}

/// Something that can be run as SQL.
pub trait ToSql {
    spec fn sql_text(&self) -> Seq<char>;

    fn to_sql(&self) -> (r: String)
        ensures
            r@ == self.sql_text(),
    ;
}

/// A named schema change.
pub struct Migration {
    pub name: String,
    pub sql: String,
}

impl ToSql for Migration {
    open spec fn sql_text(&self) -> Seq<char> {
        self.sql@
    }

    fn to_sql(&self) -> (r: String) {
        self.sql.clone()
    }
}

/// The schema changes, in the order they are applied.
pub fn get_migrations() -> (r: Vec<Migration>)
    ensures
        r@.len() == 3,
        r@[0].name@ == "Create table jdiff_requests"@,
        r@[0].sql@ == "CREATE TABLE IF NOT EXISTS jdiff_requests (
                id INTEGER PRIMARY KEY,
                project_id INTEGER NOT NULL,
                name TEXT NOT NULL,
                body TEXT NOT NULL,
                url TEST NOT NULL, 
                additional_data TEXT NOT NULL,
                headers TEXT NOT NULL,
            )"@,
        r@[1].name@ == "Create table jdiff_editor_content"@,
        r@[1].sql@ == "CREATE TABLE IF NOT EXISTS jdiff_editor_content (
                id INTEGER PRIMARY KEY,
                project_id INTEGER NOT NULL,
                content TEXT NOT NULL
            )"@,
        r@[2].name@ == "Create table jdiff_projects"@,
        r@[2].sql@ == "CREATE TABLE IF NOT EXISTS jdiff_projects (
                id INTEGER PRIMARY KEY,
                name TEXT NOT NULL
            )"@,
{
    let mut r: Vec<Migration> = Vec::new();
    r.push(Migration {
        name: String::from_str("Create table jdiff_requests"),
        sql: String::from_str("CREATE TABLE IF NOT EXISTS jdiff_requests (
                id INTEGER PRIMARY KEY,
                project_id INTEGER NOT NULL,
                name TEXT NOT NULL,
                body TEXT NOT NULL,
                url TEST NOT NULL, 
                additional_data TEXT NOT NULL,
                headers TEXT NOT NULL,
            )"),
    });
    r.push(Migration {
        name: String::from_str("Create table jdiff_editor_content"),
        sql: String::from_str("CREATE TABLE IF NOT EXISTS jdiff_editor_content (
                id INTEGER PRIMARY KEY,
                project_id INTEGER NOT NULL,
                content TEXT NOT NULL
            )"),
    });
    r.push(Migration {
        name: String::from_str("Create table jdiff_projects"),
        sql: String::from_str("CREATE TABLE IF NOT EXISTS jdiff_projects (
                id INTEGER PRIMARY KEY,
                name TEXT NOT NULL
            )"),
    });
    r
}

} // verus!
