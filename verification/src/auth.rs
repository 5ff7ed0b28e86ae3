//! The credential pair the bot keeps between runs, and its JSON form.
//! Acquiring and refreshing tokens, and reading or writing the file they are
//! kept in, are the caller's business.

use vstd::prelude::*;
use crate::json::{json_as_str, json_get, json_of, parse_json, spec_get_str, JsonValue};
use crate::text::{chars_to_string, json_escape_chars, json_escaped};

verus! {

/// A stored credential pair: the bearer token and the refresh token.
pub struct StoredToken {
    pub access_token: String,
    pub refresh_token: String,
}

/// The JSON form a credential pair is kept in.
pub open spec fn spec_token_json(access: Seq<char>, refresh: Seq<char>) -> Seq<char> {
    "{\"access_token\":\""@ + json_escaped(access) + "\",\"refresh_token\":\""@ + json_escaped(
        refresh,
    ) + "\"}"@
}

/// The credential fields a parsed document carries, when both are strings.
pub open spec fn spec_token_fields(parsed: Option<JsonValue>) -> Option<(Seq<char>, Seq<char>)> {
    match parsed {
        Some(v) => match spec_get_str(v, "access_token"@) {
            Some(a) => match spec_get_str(v, "refresh_token"@) {
                Some(r) => Some((a, r)),
                None => None,
            },
            None => None,
        },
        None => None,
    }
}

impl StoredToken {
    /// Packs a credential pair.
    pub fn new(access_token: String, refresh_token: String) -> (t: StoredToken)
        ensures
            t.access_token == access_token,
            t.refresh_token == refresh_token,
    {
        StoredToken { access_token, refresh_token }
    }

    /// Renders the pair in its JSON form, character for character as
    /// [`spec_token_json`] states it.
    pub fn to_json(&self) -> (r: String)
        ensures
            r@ == spec_token_json(self.access_token@, self.refresh_token@),
    {
        let mut out = String::from_str("{\"access_token\":\"");
        let mut access_chars: Vec<char> = Vec::new();
        json_escape_chars(self.access_token.as_str(), &mut access_chars);
        let access_escaped = chars_to_string(&access_chars);
        out.append(access_escaped.as_str());
        out.append("\",\"refresh_token\":\"");
        let mut refresh_chars: Vec<char> = Vec::new();
        json_escape_chars(self.refresh_token.as_str(), &mut refresh_chars);
        let refresh_escaped = chars_to_string(&refresh_chars);
        out.append(refresh_escaped.as_str());
        out.append("\"}");
        proof {
            assert(out@ =~= spec_token_json(self.access_token@, self.refresh_token@));
        }
        out
    }

    /// Reads a credential pair back from JSON text: `Some` exactly when the
    /// text parses and both token fields are strings.
    pub fn from_json(text: &str) -> (r: Option<StoredToken>)
        ensures
            match r {
                Some(t) => spec_token_fields(json_of(text@)) == Some(
                    (t.access_token@, t.refresh_token@),
                ),
                None => spec_token_fields(json_of(text@)) is None,
            },
    {
        let parsed = match parse_json(text) {
            Some(v) => v,
            None => {
                return None;
            },
        };
        let access = match json_get(&parsed, "access_token") {
            Some(a) => match json_as_str(a) {
                Some(s) => s.to_owned(),
                None => {
                    return None;
                },
            },
            None => {
                return None;
            },
        };
        let refresh = match json_get(&parsed, "refresh_token") {
            Some(t) => match json_as_str(t) {
                Some(s) => s.to_owned(),
                None => {
                    return None;
                },
            },
            None => {
                return None;
            },
        };
        Some(StoredToken { access_token: access, refresh_token: refresh })
    }
}

} // verus!
