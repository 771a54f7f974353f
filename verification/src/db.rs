//! Rules of the persistence layer: who may see and change a stored resource, the keys
//! under which resources are stored, and how outcomes of statements are reported.

use vstd::prelude::*;

use crate::text::{chars_of, concat, string_of_range};
use vstd::string::StringSliceAdditionalSpecFns;
use vstd::utf8::encode_utf8;
use sha2::Digest;

verus! {

/// Owner used by trusted single-user/local mode and legacy rows.
pub const DEFAULT_RESOURCE_OWNER: &'static str = "system_default_user";

/// Owner marker for built-in resources readable by every authenticated user.
pub const SHARED_RESOURCE_OWNER: &'static str = "__shared__";

/// Why a persistence operation failed.
#[derive(Debug)]
pub enum DbError {
    /// The record that the operation needs does not exist.
    NotFound(String),
    /// The database reported a failure, with its message.
    Query(String),
}

/// The mathematical value of a [`DbError`].
pub enum DbErrorView {
    NotFound(Seq<char>),
    Query(Seq<char>),
}

impl View for DbError {
    type V = DbErrorView;

    open spec fn view(&self) -> DbErrorView {
        match self {
            DbError::NotFound(m) => DbErrorView::NotFound(m@),
            DbError::Query(m) => DbErrorView::Query(m@),
        }
    }
}

/// The text by which a [`DbError`] is reported.
pub open spec fn db_error_text(e: DbErrorView) -> Seq<char> {
    match e {
        DbErrorView::NotFound(m) => "Not found: "@ + m,
        DbErrorView::Query(m) => "Database error: "@ + m,
    }
}

impl DbError {
    /// The text by which this error is reported.
    pub fn describe(&self) -> (t: String)
        ensures
            t@ == db_error_text(self@),
    {
        match self {
            DbError::NotFound(m) => concat("Not found: ", m.as_str()),
            DbError::Query(m) => concat("Database error: ", m.as_str()),
        }
    }
}

/// Whether a resource owned by `owner` is visible to `user`: it is the user's own, or
/// a shared built-in one.
pub open spec fn visible_to(owner: Seq<char>, user: Seq<char>) -> bool {
    owner == user || owner == SHARED_RESOURCE_OWNER@
}

/// Whether a resource owned by `owner` is visible to `user`.
pub fn is_visible_to(owner: &str, user: &str) -> (b: bool)
    ensures
        b == visible_to(owner@, user@),
{
    crate::auth::str_eq(owner, user) || crate::auth::str_eq(owner, SHARED_RESOURCE_OWNER)
}

/// A stored record with an owner.
pub trait OwnedRecord: Sized {
    /// The owner of the record.
    spec fn owner_view(&self) -> Seq<char>;

    /// The owner of the record.
    fn owner_user_id(&self) -> (o: &str)
        ensures
            o@ == self.owner_view(),
    ;
}

/// The records of `rows` that `user` may see, in order.
pub open spec fn visible_records<T: OwnedRecord>(rows: Seq<T>, user: Seq<char>) -> Seq<T> {
    rows.filter(|r: T| visible_to(r.owner_view(), user))
}

/// The records of `rows` that `user` may see, in order.
pub fn filter_visible<T: OwnedRecord>(rows: Vec<T>, user: &str) -> (out: Vec<T>)
    ensures
        out@ == visible_records(rows@, user@),
{
    let ghost pred = |r: T| visible_to(r.owner_view(), user@);
    let mut out: Vec<T> = Vec::new();
    for row in it: rows
        invariant
            it.seq() == rows@,
            out@ == rows@.take(it.index() as int).filter(pred),
            pred == (|r: T| visible_to(r.owner_view(), user@)),
    {
        proof {
            let i = it.index() as int;
            assert(rows@.take(i + 1) =~= rows@.take(i).push(rows@[i]));
            rows@.take(i).lemma_filter_push(rows@[i], pred);
        }
        if is_visible_to(row.owner_user_id(), user) {
            out.push(row);
        }
    }
    assert(rows@.take(rows@.len() as int) =~= rows@);
    out
}

/// The record, where `user` may see it.
pub fn keep_if_visible<T: OwnedRecord>(row: Option<T>, user: &str) -> (out: Option<T>)
    ensures
        out == match row {
            Some(r) => if visible_to(r.owner_view(), user@) {
                Some(r)
            } else {
                None
            },
            None => None,
        },
{
    match row {
        Some(r) => if is_visible_to(r.owner_user_id(), user) {
            Some(r)
        } else {
            None
        },
        None => None,
    }
}

/// The guard before a user changes a stored record: the record must exist, be visible
/// to the user and be the user's own; otherwise the change fails as not found, with
/// `"<kind> '<id>' not found"`.
pub fn require_owned<T: OwnedRecord>(row: Option<T>, user: &str, kind: &str, id: &str) -> (r: Result<(), DbError>)
    ensures
        match r {
            Ok(()) => row matches Some(x) && x.owner_view() == user@,
            Err(e) => !(row matches Some(x) && x.owner_view() == user@) && e@ == DbErrorView::NotFound(
                kind@ + " '"@ + id@ + "' not found"@,
            ),
        },
{
    let visible = keep_if_visible(row, user);
    let owned = match &visible {
        Some(x) => crate::auth::str_eq(x.owner_user_id(), user),
        None => false,
    };
    if owned {
        Ok(())
    } else {
        let a = concat(kind, " '");
        let b = concat(a.as_str(), id);
        let c = concat(b.as_str(), "' not found");
        Err(DbError::NotFound(c))
    }
}

/// Whether `user` may use the OAuth tokens, which belong to the local default owner only.
pub fn may_use_oauth_tokens(user: &str) -> (b: bool)
    ensures
        b == (user@ == DEFAULT_RESOURCE_OWNER@),
{
    crate::auth::str_eq(user, DEFAULT_RESOURCE_OWNER)
}

/// The error of a user other than the default owner who stores an OAuth token.
pub fn oauth_upsert_refused() -> (e: DbError)
    ensures
        e@ == DbErrorView::NotFound("OAuth token owner not supported"@),
{
    DbError::NotFound("OAuth token owner not supported".to_owned())
}

/// The error of a user other than the default owner who deletes the OAuth token of a server.
pub fn oauth_delete_refused(server_url: &str) -> (e: DbError)
    ensures
        e@ == DbErrorView::NotFound("OAuth token for '"@ + server_url@ + "' not found"@),
{
    let a = concat("OAuth token for '", server_url);
    DbError::NotFound(concat(a.as_str(), "' not found"))
}

/// The outcome of a statement that binds a conversation or team to a workspace: it
/// fails as not found where no row was changed, with `"<kind> '<id>' not found"`.
pub fn binding_outcome(rows_affected: u64, kind: &str, id: &str) -> (r: Result<(), DbError>)
    ensures
        match r {
            Ok(()) => rows_affected != 0,
            Err(e) => rows_affected == 0 && e@ == DbErrorView::NotFound(
                kind@ + " '"@ + id@ + "' not found"@,
            ),
        },
{
    if rows_affected == 0 {
        let a = concat(kind, " '");
        let b = concat(a.as_str(), id);
        Err(DbError::NotFound(concat(b.as_str(), "' not found")))
    } else {
        Ok(())
    }
}

// ----- digests -----

/// The SHA-256 digest of `data`.
pub uninterp spec fn sha256(data: Seq<u8>) -> Seq<u8>;

/// `sha2::Sha256::digest`: the SHA-256 digest of `data`, which is 32 bytes long.
#[verifier::external_body]
fn sha256_digest(data: &[u8]) -> (d: Vec<u8>)
    ensures
        d@ == sha256(data@),
        d@.len() == 32,
{
    sha2::Sha256::digest(data).to_vec()
}

/// The lower-case hexadecimal digit of `n`.
pub open spec fn hex_digit(n: u8) -> char {
    if n < 10 {
        (('0' as u8) + n) as char
    } else {
        (('a' as u8) + (n - 10)) as char
    }
}

/// `bytes` in lower-case hexadecimal, two digits per byte, high half first.
pub open spec fn hex_lower(bytes: Seq<u8>) -> Seq<char>
    decreases bytes.len(),
{
    if bytes.len() == 0 {
        Seq::empty()
    } else {
        seq![hex_digit(bytes[0] / 16), hex_digit(bytes[0] % 16)] + hex_lower(bytes.drop_first())
    }
}

/// `hex::encode`: `bytes` in lower-case hexadecimal, two digits per byte, high half first.
#[verifier::external_body]
fn hex_encode(bytes: &[u8]) -> (s: String)
    ensures
        s@ == hex_lower(bytes@),
{
    hex::encode(bytes)
}

/// Whether `c` is a lower-case hexadecimal digit.
pub open spec fn is_lower_hex_digit(c: char) -> bool {
    ('0' <= c && c <= '9') || ('a' <= c && c <= 'f')
}

proof fn lemma_hex_digit(n: u8)
    requires
        n < 16,
    ensures
        is_lower_hex_digit(hex_digit(n)),
{
}

/// Hexadecimal text is two lower-case digits per byte.
pub proof fn lemma_hex_len(bytes: Seq<u8>)
    ensures
        hex_lower(bytes).len() == 2 * bytes.len(),
        forall|i: int| 0 <= i < hex_lower(bytes).len() ==> is_lower_hex_digit(#[trigger] hex_lower(bytes)[i]),
    decreases bytes.len(),
{
    if bytes.len() > 0 {
        lemma_hex_len(bytes.drop_first());
        lemma_hex_digit(bytes[0] / 16);
        lemma_hex_digit(bytes[0] % 16);
        let head = seq![hex_digit(bytes[0] / 16), hex_digit(bytes[0] % 16)];
        let tail = hex_lower(bytes.drop_first());
        assert forall|i: int| 0 <= i < hex_lower(bytes).len() implies is_lower_hex_digit(#[trigger] hex_lower(bytes)[i]) by {
            if i >= 2 {
                assert(hex_lower(bytes)[i] == tail[i - 2]);
            }
        }
    }
}

proof fn lemma_hex_digit_injective(n: u8, m: u8)
    requires
        n < 16,
        m < 16,
        hex_digit(n) == hex_digit(m),
    ensures
        n == m,
{
    assert(hex_digit(n) as int == (if n < 10 { 48 + n } else { 87 + n }));
    assert(hex_digit(m) as int == (if m < 10 { 48 + m } else { 87 + m }));
}

/// Different bytes have different hexadecimal texts.
pub proof fn lemma_hex_lower_injective(a: Seq<u8>, b: Seq<u8>)
    requires
        hex_lower(a) == hex_lower(b),
    ensures
        a == b,
    decreases a.len(),
{
    lemma_hex_len(a);
    lemma_hex_len(b);
    if a.len() > 0 {
        let ha = hex_lower(a);
        assert(ha[0] == hex_digit(a[0] / 16) && ha[1] == hex_digit(a[0] % 16));
        assert(ha[0] == hex_digit(b[0] / 16) && ha[1] == hex_digit(b[0] % 16));
        lemma_hex_digit_injective(a[0] / 16, b[0] / 16);
        lemma_hex_digit_injective(a[0] % 16, b[0] % 16);
        assert(a[0] == b[0]);
        assert(hex_lower(a.drop_first()) =~= ha.skip(2));
        assert(hex_lower(b.drop_first()) =~= ha.skip(2));
        lemma_hex_lower_injective(a.drop_first(), b.drop_first());
        assert(a =~= seq![a[0]] + a.drop_first());
        assert(b =~= seq![b[0]] + b.drop_first());
    } else {
        assert(a =~= b);
    }
}

/// The hexadecimal SHA-256 digest of the UTF-8 text `s`.
pub open spec fn hex_sha256_of(s: Seq<char>) -> Seq<char> {
    hex_lower(sha256(encode_utf8(s)))
}

/// The hexadecimal SHA-256 digest of the UTF-8 text `s` (64 characters).
pub fn hex_sha256(s: &str) -> (h: String)
    ensures
        h@ == hex_sha256_of(s@),
        h@.len() == 64,
        forall|i: int| 0 <= i < 64 ==> is_lower_hex_digit(#[trigger] h@[i]),
{
    let d = sha256_digest(s.as_bytes());
    proof {
        lemma_hex_len(d@);
    }
    hex_encode(d.as_slice())
}

/// The subject key under which a user is recorded in the ownership table: the first 24
/// hexadecimal digits of the SHA-256 digest of the user id.
pub open spec fn owner_subject(user_id: Seq<char>) -> Seq<char> {
    hex_sha256_of(user_id).take(24)
}

/// Stable, non-reversible subject key used by the enterprise ownership table.
pub fn resource_owner_subject(user_id: &str) -> (k: String)
    ensures
        k@ == owner_subject(user_id@),
        k@.len() == 24,
        forall|i: int| 0 <= i < 24 ==> is_lower_hex_digit(#[trigger] k@[i]),
{
    let h = hex_sha256(user_id);
    let v = chars_of(h.as_str());
    let k = string_of_range(&v, 0, 24);
    assert(v@.subrange(0, 24) =~= v@.take(24));
    assert forall|i: int| 0 <= i < 24 implies is_lower_hex_digit(#[trigger] k@[i]) by {
        assert(k@[i] == h@[i]);
    }
    k
}

// ----- stored records and the parameters that write them -----

/// A model provider as stored. API keys are stored encrypted; JSON fields are opaque text.
pub struct Provider {
    pub id: String,
    pub platform: String,
    pub name: String,
    pub base_url: String,
    pub api_key_encrypted: String,
    /// JSON array of model ids.
    pub models: String,
    pub enabled: bool,
    pub capabilities: String,
    pub context_limit: Option<i64>,
    pub model_protocols: Option<String>,
    /// JSON object from model id to whether it is enabled.
    pub model_enabled: Option<String>,
    pub model_health: Option<String>,
    pub bedrock_config: Option<String>,
    pub is_full_url: bool,
    pub owner_user_id: String,
}

impl OwnedRecord for Provider {
    open spec fn owner_view(&self) -> Seq<char> {
        self.owner_user_id@
    }

    fn owner_user_id(&self) -> (o: &str) {
        self.owner_user_id.as_str()
    }
}

/// An MCP server configuration as stored. JSON fields are opaque text.
pub struct McpServerRow {
    pub id: String,
    pub name: String,
    pub description: Option<String>,
    pub enabled: bool,
    pub transport_type: String,
    pub transport_config: String,
    pub tools: Option<String>,
    pub original_json: Option<String>,
    pub builtin: bool,
    pub owner_user_id: String,
}

impl OwnedRecord for McpServerRow {
    open spec fn owner_view(&self) -> Seq<char> {
        self.owner_user_id@
    }

    fn owner_user_id(&self) -> (o: &str) {
        self.owner_user_id.as_str()
    }
}

/// Parameters for creating a new provider.
pub struct CreateProviderParams<'a> {
    /// Optional caller-supplied id. When `None`, the repository generates one.
    pub id: Option<&'a str>,
    pub platform: &'a str,
    pub name: &'a str,
    pub base_url: &'a str,
    pub api_key_encrypted: &'a str,
    pub models: &'a str,
    pub enabled: bool,
    pub capabilities: &'a str,
    pub context_limit: Option<i64>,
    pub model_protocols: Option<&'a str>,
    pub model_enabled: Option<&'a str>,
    pub model_health: Option<&'a str>,
    pub bedrock_config: Option<&'a str>,
    pub is_full_url: bool,
}

/// Parameters for updating an existing provider; `None` keeps the current value.
pub struct UpdateProviderParams<'a> {
    pub platform: Option<&'a str>,
    pub name: Option<&'a str>,
    pub base_url: Option<&'a str>,
    pub api_key_encrypted: Option<&'a str>,
    pub models: Option<&'a str>,
    pub enabled: Option<bool>,
    pub capabilities: Option<&'a str>,
    pub context_limit: Option<Option<i64>>,
    pub model_protocols: Option<Option<&'a str>>,
    pub model_enabled: Option<Option<&'a str>>,
    pub model_health: Option<Option<&'a str>>,
    pub bedrock_config: Option<Option<&'a str>>,
    pub is_full_url: Option<bool>,
}

/// Parameters for creating a new MCP server.
pub struct CreateMcpServerParams<'a> {
    pub name: &'a str,
    pub description: Option<&'a str>,
    pub enabled: bool,
    pub transport_type: &'a str,
    pub transport_config: &'a str,
    pub tools: Option<&'a str>,
    pub original_json: Option<&'a str>,
    pub builtin: bool,
}

// ----- laws -----

/// A user's listing holds only the user's own records and shared ones, and every such
/// record of the table, in table order.
pub proof fn law_listings_hold_own_and_shared_records<T: OwnedRecord>(rows: Seq<T>, user: Seq<char>)
    ensures
        forall|i: int|
            0 <= i < visible_records(rows, user).len() ==> visible_to(
                (#[trigger] visible_records(rows, user)[i]).owner_view(),
                user,
            ),
        forall|i: int|
            0 <= i < rows.len() && visible_to((#[trigger] rows[i]).owner_view(), user)
                ==> visible_records(rows, user).contains(rows[i]),
{
    let pred = |r: T| visible_to(r.owner_view(), user);
    assert forall|i: int| 0 <= i < visible_records(rows, user).len() implies visible_to(
        (#[trigger] visible_records(rows, user)[i]).owner_view(),
        user,
    ) by {
        rows.lemma_filter_pred(pred, i);
    }
    assert forall|i: int|
        0 <= i < rows.len() && visible_to((#[trigger] rows[i]).owner_view(), user)
            implies visible_records(rows, user).contains(rows[i]) by {
        rows.lemma_filter_contains(pred, i);
    }
}

/// Shared built-in records, owned by `__shared__`, are visible to every user, as a
/// user's own records are; no other record is. So a listing keeps every shared and
/// own record of the table, and a lookup returns a shared record whoever asks.
pub proof fn law_shared_records_visible_to_everyone<T: OwnedRecord>(rows: Seq<T>, user: Seq<char>, row: T)
    ensures
        visible_to("__shared__"@, user),
        visible_to(user, user),
        forall|owner: Seq<char>| #[trigger] visible_to(owner, user) ==> owner == user || owner == "__shared__"@,
        forall|i: int|
            0 <= i < rows.len() && ((#[trigger] rows[i]).owner_view() == "__shared__"@ || rows[i].owner_view() == user)
                ==> visible_records(rows, user).contains(rows[i]),
        forall|i: int|
            0 <= i < visible_records(rows, user).len() ==> ((#[trigger] visible_records(rows, user)[i]).owner_view()
                == "__shared__"@ || visible_records(rows, user)[i].owner_view() == user),
        row.owner_view() == "__shared__"@ ==> visible_to(row.owner_view(), user),
{
    law_listings_hold_own_and_shared_records(rows, user);
}

} // verus!
