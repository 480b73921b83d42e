//! Roles on the PostgreSQL clusters: a role that exists is left alone.

use vstd::prelude::*;

use crate::postgres::{create_role, create_role_text, quoted, PgPostgresManager, PostgresManager};
use crate::text::texts;

verus! {

/// The statements that make sure that a role exists.
pub open spec fn role_plan(
    username: Seq<char>,
    password: Seq<char>,
    present: bool,
) -> Seq<Seq<char>> {
    if present {
        Seq::empty()
    } else {
        seq![create_role_text(username, password)]
    }
}

/// The statements that make sure that a role exists.
pub fn ensure_role(username: &str, password: &str, present: bool) -> (r: Vec<String>)
    ensures
        texts(r@) == role_plan(username@, password@, present),
{
    if present {
        let r: Vec<String> = Vec::new();
        assert(texts(r@) =~= Seq::empty());
        return r;
    }
    let r = vec![create_role(username, password)];
    assert(texts(r@) =~= seq![create_role_text(username@, password@)]);
    r
}

/// The statements that delete a role and the databases that it owns.
pub fn delete_role(username: &str, present: bool, databases: &Vec<String>) -> (r: Vec<String>)
    ensures
        texts(r@) == PgPostgresManager.deletion_plan(username@, present, texts(databases@)),
{
    PgPostgresManager.delete_role(username, present, databases)
}

/// A role that does not exist is created so that it can log in and make its database; one
/// that exists is left alone.
pub proof fn law_roles_are_created_once(
    username: &str,
    password: &str,
    present: bool,
    r: Vec<String>,
)
    requires
        call_ensures(ensure_role, (username, password, present), r),
    ensures
        present ==> r@.len() == 0,
        !present ==> r@.len() == 1 && r@[0]@ == "CREATE ROLE "@ + quoted(username@)
            + " WITH PASSWORD '"@ + password@ + "' CREATEDB LOGIN"@,
{
    assert(texts(r@).len() == r@.len());
    if !present {
        assert(texts(r@)[0] == r@[0]@);
    }
}

/// A role that goes takes its databases along, each of them, and goes last; one that does
/// not exist takes nothing.
pub proof fn law_roles_go_with_their_databases(
    username: &str,
    present: bool,
    databases: &Vec<String>,
    r: Vec<String>,
    i: int,
)
    requires
        call_ensures(delete_role, (username, present, databases), r),
    ensures
        !present ==> r@.len() == 0,
        present ==> {
            &&& r@.len() == databases@.len() + 1
            &&& 0 <= i < databases@.len() ==> r@[i]@ == "DROP DATABASE "@ + quoted(
                databases@[i]@,
            )
            &&& r@[r@.len() - 1]@ == "DROP ROLE "@ + quoted(username@)
        },
{
    assert(texts(r@).len() == r@.len());
    if present {
        let n = r@.len() - 1;
        assert(texts(databases@).len() == databases@.len());
        if 0 <= i < databases@.len() {
            assert(texts(databases@)[i] == databases@[i]@);
            assert(texts(r@)[i] == r@[i]@);
        }
        assert(texts(r@)[n] == r@[n]@);
    }
}

} // verus!
