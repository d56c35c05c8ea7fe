//! User management decisions: who may do what, and the update a settings
//! change turns into.

use vstd::prelude::*;
use crate::error::AppError;
use crate::models::user::{User, UpdateUserRequest};
use crate::utils::sql_utils::{SqlValue, Statement, update_statement, update_sql_of, columns_of, values_of, count_char, all_plain, lemma_all_plain_concat, lemma_no_question_mark};

verus! {

/// Admits administrators only; others are told the operation is for
/// administrators.
pub fn admin_only(is_admin: bool) -> (r: Result<(), AppError>)
    ensures
        r is Ok <==> is_admin,
        !is_admin ==> (r matches Err(AppError::AccessDenied(m)) && m@ == "Admin only"@),
{
    if !is_admin {
        return Err(AppError::access_denied("Admin only"));
    }
    Ok(())
}

/// The user looked up by name, or `NotFound("User")`.
pub fn found_user(found: Option<User>) -> (r: Result<User, AppError>)
    ensures
        (match found {
            Some(u) => r == Ok::<User, AppError>(u),
            None => r matches Err(AppError::NotFound(m)) && m@ == "User"@,
        }),
{
    match found {
        Some(u) => Ok(u),
        None => Err(AppError::not_found("User")),
    }
}

/// Whether an administrator may create a user: not when the requester is no
/// administrator, nor when the username is taken (`exists`).
pub fn check_create_user(is_admin: bool, exists: bool) -> (r: Result<(), AppError>)
    ensures
        r is Ok <==> is_admin && !exists,
        !is_admin ==> (r matches Err(AppError::AccessDenied(m)) && m@ == "Admin only"@),
        is_admin && exists ==> (r matches Err(AppError::ValidationError(m)) && m@ == "Username already exists"@),
{
    admin_only(is_admin)?;
    if exists {
        return Err(AppError::validation_error("Username already exists"));
    }
    Ok(())
}

/// Whether `requester` may delete the user `username`: administrators only,
/// and never themselves.
pub fn check_delete_user(is_admin: bool, requester_username: &str, username: &str) -> (r: Result<(), AppError>)
    ensures
        r is Ok <==> is_admin && username@ != requester_username@,
        !is_admin ==> (r matches Err(AppError::AccessDenied(m)) && m@ == "Admin only"@),
        is_admin && username@ == requester_username@ ==> (r matches Err(AppError::ValidationError(m))
            && m@ == "Cannot delete yourself"@),
{
    admin_only(is_admin)?;
    if String::from_str(username) == String::from_str(requester_username) {
        return Err(AppError::validation_error("Cannot delete yourself"));
    }
    Ok(())
}

/// Whether `requester` may change the password of `target`: users may
/// change their own, administrators anyone's.
pub fn check_change_password(is_admin: bool, requester_username: &str, target_username: &str) -> (r: Result<(), AppError>)
    ensures
        r is Ok <==> is_admin || requester_username@ == target_username@,
        !(is_admin || requester_username@ == target_username@) ==> (r matches Err(AppError::AccessDenied(m))
            && m@ == "Cannot change other user's password"@),
{
    let can_change = is_admin || String::from_str(requester_username) == String::from_str(target_username);
    if !can_change {
        return Err(AppError::access_denied("Cannot change other user's password"));
    }
    Ok(())
}

/// The column set when an optional field is present.
pub open spec fn col_if(present: bool, col: Seq<char>) -> Seq<Seq<char>> {
    if present { seq![col] } else { Seq::empty() }
}

/// The value bound when an optional field is present.
pub open spec fn val_if(present: bool, v: SqlValue) -> Seq<SqlValue> {
    if present { seq![v] } else { Seq::empty() }
}

/// An optional text as the value bound for it.
pub open spec fn text_of(v: Option<String>) -> SqlValue {
    match v {
        Some(s) => SqlValue::Text(s),
        None => SqlValue::Null,
    }
}

/// An optional flag as the value bound for it.
pub open spec fn bool_of(v: Option<bool>) -> SqlValue {
    match v {
        Some(b) => SqlValue::Bool(b),
        None => SqlValue::Null,
    }
}

/// The columns a settings change sets, in this order: email, bitrate limit,
/// the roles, scrobbling; only those the request carries.
pub open spec fn user_update_columns(r: UpdateUserRequest) -> Seq<Seq<char>> {
    col_if(r.email is Some, "email"@)
        + col_if(r.max_bitrate is Some, "max_bitrate"@)
        + col_if(r.download_role is Some, "download_role"@)
        + col_if(r.upload_role is Some, "upload_role"@)
        + col_if(r.playlist_role is Some, "playlist_role"@)
        + col_if(r.cover_art_role is Some, "cover_art_role"@)
        + col_if(r.comment_role is Some, "comment_role"@)
        + col_if(r.podcast_role is Some, "podcast_role"@)
        + col_if(r.share_role is Some, "share_role"@)
        + col_if(r.video_conversion_role is Some, "video_conversion_role"@)
        + col_if(r.scrobbling_enabled is Some, "scrobbling_enabled"@)
}

/// The values of a settings change, in the order of its columns.
pub open spec fn user_update_values(r: UpdateUserRequest) -> Seq<SqlValue> {
    val_if(r.email is Some, text_of(r.email))
        + val_if(r.max_bitrate is Some, SqlValue::Int(match r.max_bitrate { Some(b) => b as i64, None => 0 }))
        + val_if(r.download_role is Some, bool_of(r.download_role))
        + val_if(r.upload_role is Some, bool_of(r.upload_role))
        + val_if(r.playlist_role is Some, bool_of(r.playlist_role))
        + val_if(r.cover_art_role is Some, bool_of(r.cover_art_role))
        + val_if(r.comment_role is Some, bool_of(r.comment_role))
        + val_if(r.podcast_role is Some, bool_of(r.podcast_role))
        + val_if(r.share_role is Some, bool_of(r.share_role))
        + val_if(r.video_conversion_role is Some, bool_of(r.video_conversion_role))
        + val_if(r.scrobbling_enabled is Some, bool_of(r.scrobbling_enabled))
}

/// A column list holding a single plain name, or nothing, is plain.
pub proof fn lemma_col_if_plain(present: bool, col: Seq<char>)
    requires
        forall|i: int| 0 <= i < col.len() ==> col[i] != '?',
    ensures
        all_plain(col_if(present, col)),
{
    lemma_no_question_mark(col);
    if present {
        assert(col_if(present, col)[0] == col);
    }
}

/// The columns of a settings change hold no `?`.
#[verifier::rlimit(80)]
proof fn lemma_user_columns_plain(r: UpdateUserRequest)
    ensures
        all_plain(user_update_columns(r)),
{
    reveal_strlit("email");
    reveal_strlit("max_bitrate");
    reveal_strlit("download_role");
    reveal_strlit("upload_role");
    reveal_strlit("playlist_role");
    reveal_strlit("cover_art_role");
    reveal_strlit("comment_role");
    reveal_strlit("podcast_role");
    reveal_strlit("share_role");
    reveal_strlit("video_conversion_role");
    reveal_strlit("scrobbling_enabled");
    let c0 = col_if(r.email is Some, "email"@);
    let c1 = col_if(r.max_bitrate is Some, "max_bitrate"@);
    let c2 = col_if(r.download_role is Some, "download_role"@);
    let c3 = col_if(r.upload_role is Some, "upload_role"@);
    let c4 = col_if(r.playlist_role is Some, "playlist_role"@);
    let c5 = col_if(r.cover_art_role is Some, "cover_art_role"@);
    let c6 = col_if(r.comment_role is Some, "comment_role"@);
    let c7 = col_if(r.podcast_role is Some, "podcast_role"@);
    let c8 = col_if(r.share_role is Some, "share_role"@);
    let c9 = col_if(r.video_conversion_role is Some, "video_conversion_role"@);
    let c10 = col_if(r.scrobbling_enabled is Some, "scrobbling_enabled"@);
    lemma_col_if_plain(r.email is Some, "email"@);
    lemma_col_if_plain(r.max_bitrate is Some, "max_bitrate"@);
    lemma_col_if_plain(r.download_role is Some, "download_role"@);
    lemma_col_if_plain(r.upload_role is Some, "upload_role"@);
    lemma_col_if_plain(r.playlist_role is Some, "playlist_role"@);
    lemma_col_if_plain(r.cover_art_role is Some, "cover_art_role"@);
    lemma_col_if_plain(r.comment_role is Some, "comment_role"@);
    lemma_col_if_plain(r.podcast_role is Some, "podcast_role"@);
    lemma_col_if_plain(r.share_role is Some, "share_role"@);
    lemma_col_if_plain(r.video_conversion_role is Some, "video_conversion_role"@);
    lemma_col_if_plain(r.scrobbling_enabled is Some, "scrobbling_enabled"@);
    lemma_all_plain_concat(c0, c1);
    lemma_all_plain_concat(c0 + c1, c2);
    lemma_all_plain_concat(c0 + c1 + c2, c3);
    lemma_all_plain_concat(c0 + c1 + c2 + c3, c4);
    lemma_all_plain_concat(c0 + c1 + c2 + c3 + c4, c5);
    lemma_all_plain_concat(c0 + c1 + c2 + c3 + c4 + c5, c6);
    lemma_all_plain_concat(c0 + c1 + c2 + c3 + c4 + c5 + c6, c7);
    lemma_all_plain_concat(c0 + c1 + c2 + c3 + c4 + c5 + c6 + c7, c8);
    lemma_all_plain_concat(c0 + c1 + c2 + c3 + c4 + c5 + c6 + c7 + c8, c9);
    lemma_all_plain_concat(c0 + c1 + c2 + c3 + c4 + c5 + c6 + c7 + c8 + c9, c10);
}

/// The table and key names hold no `?`.
proof fn lemma_plain_names()
    ensures
        count_char("users"@, '?') == 0,
        count_char("username"@, '?') == 0,
{
    reveal_strlit("users");
    reveal_strlit("username");
    lemma_no_question_mark("users"@);
    lemma_no_question_mark("username"@);
}

/// Adds an assignment when the field is present.
fn push_field(fields: &mut Vec<(&'static str, SqlValue)>, col: &'static str, v: Option<SqlValue>)
    ensures
        columns_of(final(fields)@) == columns_of(old(fields)@) + col_if(v is Some, col@),
        values_of(final(fields)@) == values_of(old(fields)@) + val_if(v is Some, match v { Some(x) => x, None => SqlValue::Null }),
{
    let ghost before = fields@;
    if let Some(x) = v {
        fields.push((col, x));
        assert(columns_of(fields@) =~= columns_of(before) + seq![col@]);
        assert(values_of(fields@) =~= values_of(before) + seq![fields@.last().1]);
    } else {
        assert(columns_of(fields@) =~= columns_of(before) + Seq::empty());
        assert(values_of(fields@) =~= values_of(before) + Seq::empty());
    }
}

fn opt_bool(v: Option<bool>) -> (r: Option<SqlValue>)
    ensures
        r is Some <==> v is Some,
        r matches Some(x) ==> x == bool_of(v),
{
    match v {
        Some(b) => Some(SqlValue::Bool(b)),
        None => None,
    }
}

/// The update a settings change of `username` turns into, or `None` when
/// it changes nothing. The statement sets the carried fields (see
/// `user_update_columns`) and stamps the change time; its values are the
/// carried values, then the username.
pub fn user_update(username: &str, request: UpdateUserRequest) -> (r: Option<Statement>)
    ensures
        r is None <==> user_update_columns(request).len() == 0,
        r matches Some(st) ==> st.sql@ == update_sql_of("users"@, user_update_columns(request), "username"@)
            && st.values@.len() == user_update_values(request).len() + 1
            && st.values@.take(user_update_values(request).len() as int) == user_update_values(request)
            && (st.values@.last() matches SqlValue::Text(u) && u@ == username@)
            && count_char(st.sql@, '?') == st.values.len(),
{
    let ghost req = request;
    let mut fields: Vec<(&'static str, SqlValue)> = Vec::new();
    let email = match request.email {
        Some(e) => Some(SqlValue::Text(e)),
        None => None,
    };
    push_field(&mut fields, "email", email);
    let bitrate = match request.max_bitrate {
        Some(b) => Some(SqlValue::Int(b as i64)),
        None => None,
    };
    push_field(&mut fields, "max_bitrate", bitrate);
    push_field(&mut fields, "download_role", opt_bool(request.download_role));
    push_field(&mut fields, "upload_role", opt_bool(request.upload_role));
    push_field(&mut fields, "playlist_role", opt_bool(request.playlist_role));
    push_field(&mut fields, "cover_art_role", opt_bool(request.cover_art_role));
    push_field(&mut fields, "comment_role", opt_bool(request.comment_role));
    push_field(&mut fields, "podcast_role", opt_bool(request.podcast_role));
    push_field(&mut fields, "share_role", opt_bool(request.share_role));
    push_field(&mut fields, "video_conversion_role", opt_bool(request.video_conversion_role));
    push_field(&mut fields, "scrobbling_enabled", opt_bool(request.scrobbling_enabled));
    proof {
        assert(columns_of(fields@) =~= user_update_columns(req));
        lemma_user_columns_plain(req);
        lemma_plain_names();
        assert(values_of(fields@) =~= user_update_values(req));
        assert(fields@.len() == columns_of(fields@).len());
    }
    let r = update_statement("users", fields, "username", SqlValue::Text(String::from_str(username)));
    proof {
        if r is Some {
            let st = r->0;
            assert(st.values@.take(user_update_values(req).len() as int) =~= user_update_values(req));
        }
    }
    r
}

} // verus!
