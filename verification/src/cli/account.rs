//! `account whoami`: the identity behind the stored token.
use vstd::prelude::*;

use crate::client::AccountIdentity;
use crate::error::{CliError, ErrorCategory};
use crate::output::{
    entry, field_value, has_key, json_opt_str, json_str, object_len, opt_json, str_json,
    CommandOutput, JsonValue,
};
use crate::store::statements::opt_view;
use crate::text::owned;

verus! {

pub enum AccountSubcommand {
    Whoami,
}

/// An identity as data.
pub open spec fn identity_data_ok(j: JsonValue, identity: AccountIdentity) -> bool {
    &&& object_len(j) == 3
    &&& has_key(j, 0, "account_id"@) && str_json(field_value(j, 0), identity.id@)
    &&& has_key(j, 1, "name"@) && opt_json(field_value(j, 1), opt_view(identity.name))
    &&& has_key(j, 2, "username"@) && opt_json(field_value(j, 2), opt_view(identity.username))
}

pub fn map_identity(identity: &AccountIdentity) -> (j: JsonValue)
    ensures
        identity_data_ok(j, *identity),
{
    let mut v: Vec<(String, JsonValue)> = Vec::new();
    v.push(entry("account_id", json_str(identity.id.as_str())));
    v.push(entry("name", json_opt_str(&identity.name)));
    v.push(entry("username", json_opt_str(&identity.username)));
    JsonValue::Object(v)
}

/// `whoami` needs a stored access token.
pub fn require_stored_token(token: Option<String>) -> (r: Result<String, CliError>)
    ensures
        token matches Some(t) ==> (r matches Ok(s) && s@ == t@),
        token is None ==> (r matches Err(e) && e.category == ErrorCategory::Auth && e.message@
            == "no stored access token found; run auth login first"@),
{
    match token {
        Some(t) => Ok(t),
        None => Err(
            CliError::new(ErrorCategory::Auth, "no stored access token found; run auth login first"),
        ),
    }
}

/// What `account whoami` reports for the fetched identity.
pub fn whoami_output(identity: &AccountIdentity) -> (r: CommandOutput)
    ensures
        r.command@ == "account whoami"@,
        r.human@ == "Fetched current account identity."@,
        identity_data_ok(r.data, *identity),
{
    CommandOutput {
        command: owned("account whoami"),
        human: owned("Fetched current account identity."),
        data: map_identity(identity),
    }
}

} // verus!
