//! Moving session cookies of the older format to the current one: the old
//! cookie held the user id alone; the current one holds it under a key.

use vstd::prelude::*;

use crate::ai::explain::{contains_str, is_substring};
use crate::text::{join, push_str, seq_join, to_owned_string, views};

verus! {

/// The key under which the current session format holds the user id.
pub open spec fn identity_key() -> Seq<char> {
    "actix_identity.user_id"@
}

/// The current form of a session value: the user id, quoted, under its key.
pub open spec fn migrated_value(value: Seq<char>) -> Seq<char> {
    "{\"actix_identity.user_id\":\"\\\""@ + value + "\\\"\"}"@
}

/// The new value of a session cookie: none where the value already holds
/// the key, else the value in the current form.
pub fn migrate_session_value(value: &str) -> (res: Option<String>)
    ensures
        is_substring(identity_key(), value@) ==> res is None,
        !is_substring(identity_key(), value@) ==> (res matches Some(v) && v@ == migrated_value(value@)),
{
    if contains_str(value, "actix_identity.user_id") {
        None
    } else {
        let mut v = to_owned_string("{\"actix_identity.user_id\":\"\\\"");
        push_str(&mut v, value);
        push_str(&mut v, "\\\"\"}");
        Some(v)
    }
}

/// A migrated value holds the key, so migrating it again changes nothing.
pub proof fn lemma_migration_idempotent(value: Seq<char>)
    ensures
        is_substring(identity_key(), migrated_value(value)),
{
    reveal_strlit("{\"actix_identity.user_id\":\"\\\"");
    reveal_strlit("actix_identity.user_id");
    let m = migrated_value(value);
    let k = identity_key();
    assert(m.subrange(2, 2 + k.len() as int) =~= k);
}

/// The cookie header of a request: its cookies, separated by semicolons.
pub fn cookie_header(cookies: &Vec<String>) -> (res: String)
    ensures
        res@ == seq_join(views(cookies@), ";"@),
{
    join(cookies, ";")
}

} // verus!
