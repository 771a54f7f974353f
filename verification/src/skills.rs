//! Skills: their stored records, the key under which each user's skill is stored, and
//! the rules of storing, restoring and deleting them.

use vstd::prelude::*;

use crate::db::{DbError, DbErrorView};
use crate::text::concat;

verus! {

/// Owner of skills installed in local (single-user) mode.
pub const DEFAULT_SKILL_OWNER: &'static str = "system_default_user";

/// Owner marker for built-in skills visible to every user.
pub const SHARED_SKILL_OWNER: &'static str = "__shared__";

/// A skill as stored and read back: `name` is the name users see.
pub struct SkillRow {
    pub id: String,
    pub name: String,
    pub owner_user_id: String,
    pub description: Option<String>,
    pub path: String,
    pub source: String,
    pub enabled: bool,
    pub deleted_at: Option<i64>,
    pub created_at: i64,
    pub updated_at: i64,
}

/// One recorded attempt to import a skill, with the details of its failure if any.
pub struct SkillImportRecordRow {
    pub id: String,
    pub operation_id: String,
    pub source_label: String,
    pub source_path: Option<String>,
    pub source_name: String,
    pub owner_user_id: String,
    pub skill_id: Option<String>,
    pub skill_name: Option<String>,
    pub status: String,
    pub error_code: Option<String>,
    pub error_path: Option<String>,
    pub actual_bytes: Option<i64>,
    pub limit_bytes: Option<i64>,
    pub line: Option<i64>,
    pub column: Option<i64>,
    pub created_at: i64,
}

/// Parameters for creating or updating a skill row.
pub struct UpsertSkillParams<'a> {
    pub owner_user_id: &'a str,
    pub name: &'a str,
    pub description: Option<&'a str>,
    pub path: &'a str,
    pub source: &'a str,
    pub enabled: bool,
}

/// Parameters for appending a skill import history row.
pub struct CreateSkillImportRecordParams<'a> {
    pub operation_id: &'a str,
    pub source_label: &'a str,
    pub source_path: Option<&'a str>,
    pub source_name: &'a str,
    pub owner_user_id: &'a str,
    pub skill_id: Option<&'a str>,
    pub skill_name: Option<&'a str>,
    pub status: &'a str,
    pub error_code: Option<&'a str>,
    pub error_path: Option<&'a str>,
    pub actual_bytes: Option<i64>,
    pub limit_bytes: Option<i64>,
    pub line: Option<i64>,
    pub column: Option<i64>,
}

/// The unique key under which a user's skill is stored: the owner, the unit separator
/// U+001F, and the visible name.
pub open spec fn storage_key(owner: Seq<char>, name: Seq<char>) -> Seq<char> {
    owner + seq!['\u{1f}'] + name
}

/// The unique key under which a user's skill is stored.
pub fn skill_storage_key(owner_user_id: &str, name: &str) -> (k: String)
    ensures
        k@ == storage_key(owner_user_id@, name@),
{
    let a = concat(owner_user_id, "\u{1f}");
    proof {
        reveal_strlit("\u{1f}");
    }
    let k = concat(a.as_str(), name);
    assert(owner_user_id@ + "\u{1f}"@ + name@ =~= owner_user_id@ + seq!['\u{1f}'] + name@);
    k
}

/// The id and creation time a skill is stored with: those of the skill the user
/// already has under that name, deleted or not, else a new id and the present time.
pub fn upsert_identity(existing: Option<&SkillRow>, new_id: String, now: i64) -> (r: (String, i64))
    ensures
        match existing {
            Some(row) => r.0@ == row.id@ && r.1 == row.created_at,
            None => r.0@ == new_id@ && r.1 == now,
        },
{
    match existing {
        Some(row) => (row.id.clone(), row.created_at),
        None => (new_id, now),
    }
}

/// The skill read back after it was stored; not finding it is an error.
pub fn upserted_skill(found: Option<SkillRow>, name: &str) -> (r: Result<SkillRow, DbError>)
    ensures
        match found {
            Some(row) => r matches Ok(x) && x == row,
            None => r matches Err(e) && e@ == DbErrorView::NotFound(
                "skill '"@ + name@ + "' was not found after upsert"@,
            ),
        },
{
    match found {
        Some(row) => Ok(row),
        None => {
            let a = concat("skill '", name);
            Err(DbError::NotFound(concat(a.as_str(), "' was not found after upsert")))
        },
    }
}

/// The error of a skill deletion that found nothing to delete.
pub open spec fn skill_not_found(name: Seq<char>) -> DbErrorView {
    DbErrorView::NotFound("skill '"@ + name + "'"@)
}

/// The skill a deletion reports: it fails as not found where no active user skill of
/// that name was marked deleted, or where it cannot be read back.
pub fn deleted_skill(rows_affected: u64, found: Option<SkillRow>, name: &str) -> (r: Result<SkillRow, DbError>)
    ensures
        match r {
            Ok(row) => rows_affected != 0 && found == Some(row),
            Err(e) => (rows_affected == 0 || found is None) && e@ == skill_not_found(name@),
        },
{
    if rows_affected == 0 {
        let a = concat("skill '", name);
        return Err(DbError::NotFound(concat(a.as_str(), "'")));
    }
    match found {
        Some(row) => Ok(row),
        None => {
            let a = concat("skill '", name);
            Err(DbError::NotFound(concat(a.as_str(), "'")))
        },
    }
}

/// The number of import records listed for a requested limit: negative limits list none.
pub fn import_record_limit(limit: i64) -> (n: i64)
    ensures
        n == if limit < 0 {
            0
        } else {
            limit
        },
{
    if limit < 0 {
        0
    } else {
        limit
    }
}

// ----- laws -----

/// The same visible name is isolated between users: two owners without U+001F in their
/// ids store their skills under the same key only for the same owner and name.
pub proof fn law_storage_keys_separate_owners(o1: Seq<char>, n1: Seq<char>, o2: Seq<char>, n2: Seq<char>)
    requires
        !o1.contains('\u{1f}'),
        !o2.contains('\u{1f}'),
        storage_key(o1, n1) == storage_key(o2, n2),
    ensures
        o1 == o2,
        n1 == n2,
{
    let k = storage_key(o1, n1);
    if o1.len() < o2.len() {
        assert(k[o1.len() as int] == '\u{1f}');
        assert(k[o1.len() as int] == o2[o1.len() as int]);
        assert(o2.contains('\u{1f}'));
    } else if o2.len() < o1.len() {
        assert(k[o2.len() as int] == '\u{1f}');
        assert(k[o2.len() as int] == o1[o2.len() as int]);
        assert(o1.contains('\u{1f}'));
    } else {
        assert forall|i: int| 0 <= i < o1.len() implies o1[i] == o2[i] by {
            assert(k[i] == o1[i]);
            assert(k[i] == o2[i]);
        }
        assert(o1 =~= o2);
        let k2 = storage_key(o2, n2);
        assert(k.len() == o1.len() + 1 + n1.len());
        assert(k2.len() == o2.len() + 1 + n2.len());
        assert(n1.len() == n2.len());
        assert forall|i: int| 0 <= i < n1.len() implies n1[i] == n2[i] by {
            assert(k[o1.len() + 1 + i] == n1[i]);
            assert(k2[o2.len() + 1 + i] == n2[i]);
        }
        assert(n1 =~= n2);
    }
}

} // verus!
