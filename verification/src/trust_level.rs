//! The trust-level normalizer: maps free-form trust tokens, case folded, to
//! a closed trust enumeration. An unrecognized token is a data-integrity
//! defect by design, so the caller is expected to treat it as fatal.
use vstd::prelude::*;
use crate::normalize::UnrecognizedTokenError;
use crate::text::{ascii_lower, lemma_ascii_lower_idempotent, str_eq, to_ascii_lower};

verus! {

/// Trust level of a user: a platform-assigned standing tier.
#[derive(Debug, Clone, Copy, PartialEq, Eq, Hash, Structural)]
pub enum TrustLevel {
    Unknown,
    Visitor,
    NewUser,
    User,
    KnownUser,
    TrustedUser,
    VRChatTeam,
    Nuisance,
}

impl Default for TrustLevel {
    /// The default trust level is the fallback variant.
    fn default() -> (r: Self)
        ensures
            r == TrustLevel::Unknown,
    {
        TrustLevel::Unknown
    }
}

/// The recognition table: which case-folded tokens name which trust level.
/// A token outside the table names no trust level.
pub open spec fn trust_of_token(t: Seq<char>) -> Option<TrustLevel> {
    if t == "visitor"@ {
        Some(TrustLevel::Visitor)
    } else if t == "new user"@ || t == "new_user"@ {
        Some(TrustLevel::NewUser)
    } else if t == "user"@ {
        Some(TrustLevel::User)
    } else if t == "known user"@ || t == "known_user"@ {
        Some(TrustLevel::KnownUser)
    } else if t == "trusted user"@ || t == "trusted_user"@ {
        Some(TrustLevel::TrustedUser)
    } else if t == "vrchat team"@ || t == "vrchat_team"@ {
        Some(TrustLevel::VRChatTeam)
    } else if t == "nuisance"@ {
        Some(TrustLevel::Nuisance)
    } else {
        None
    }
}

/// The canonical token of each trust-level variant, already case folded.
pub open spec fn trust_token(v: TrustLevel) -> Seq<char> {
    match v {
        TrustLevel::Unknown => "unknown"@,
        TrustLevel::Visitor => "visitor"@,
        TrustLevel::NewUser => "new user"@,
        TrustLevel::User => "user"@,
        TrustLevel::KnownUser => "known user"@,
        TrustLevel::TrustedUser => "trusted user"@,
        TrustLevel::VRChatTeam => "vrchat team"@,
        TrustLevel::Nuisance => "nuisance"@,
    }
}

impl TrustLevel {
    /// Normalize a free-form trust token: case fold it and look it up in the
    /// recognition table. An unrecognized token is reported to the caller.
    pub fn normalize(token: &str) -> (r: Result<TrustLevel, UnrecognizedTokenError>)
        ensures
            trust_of_token(ascii_lower(token@)) matches Some(v) ==> r == Result::<
                TrustLevel,
                UnrecognizedTokenError,
            >::Ok(v),
            trust_of_token(ascii_lower(token@)) is None ==> (r matches Err(e) && e.token@
                == token@),
    {
        let low = to_ascii_lower(token);
        let l = low.as_str();
        if str_eq(l, "visitor") {
            Ok(TrustLevel::Visitor)
        } else if str_eq(l, "new user") || str_eq(l, "new_user") {
            Ok(TrustLevel::NewUser)
        } else if str_eq(l, "user") {
            Ok(TrustLevel::User)
        } else if str_eq(l, "known user") || str_eq(l, "known_user") {
            Ok(TrustLevel::KnownUser)
        } else if str_eq(l, "trusted user") || str_eq(l, "trusted_user") {
            Ok(TrustLevel::TrustedUser)
        } else if str_eq(l, "vrchat team") || str_eq(l, "vrchat_team") {
            Ok(TrustLevel::VRChatTeam)
        } else if str_eq(l, "nuisance") {
            Ok(TrustLevel::Nuisance)
        } else {
            Err(UnrecognizedTokenError { token: token.to_owned() })
        }
    }

    /// The canonical spelling of this trust level.
    pub fn as_token(&self) -> (r: String)
        ensures
            r@ == trust_token(*self),
    {
        match self {
            TrustLevel::Unknown => "unknown".to_owned(),
            TrustLevel::Visitor => "visitor".to_owned(),
            TrustLevel::NewUser => "new user".to_owned(),
            TrustLevel::User => "user".to_owned(),
            TrustLevel::KnownUser => "known user".to_owned(),
            TrustLevel::TrustedUser => "trusted user".to_owned(),
            TrustLevel::VRChatTeam => "vrchat team".to_owned(),
            TrustLevel::Nuisance => "nuisance".to_owned(),
        }
    }
}

/// Trust normalization is case-insensitive: an input and its case-folded
/// form normalize to the same result.
pub proof fn lemma_trust_case_insensitive(t: Seq<char>)
    ensures
        trust_of_token(ascii_lower(ascii_lower(t))) == trust_of_token(ascii_lower(t)),
{
    lemma_ascii_lower_idempotent(t);
}

/// The canonical tokens are already case folded.
proof fn lemma_trust_tokens_folded(v: TrustLevel)
    ensures
        ascii_lower(trust_token(v)) == trust_token(v),
{
    reveal_strlit("unknown");
    reveal_strlit("visitor");
    reveal_strlit("new user");
    reveal_strlit("user");
    reveal_strlit("known user");
    reveal_strlit("trusted user");
    reveal_strlit("vrchat team");
    reveal_strlit("nuisance");
    assert(ascii_lower(trust_token(v)) =~= trust_token(v));
}

/// Trust normalization is idempotent: normalizing a variant's own canonical
/// token yields the variant back. The fallback variant has no recognized
/// token, so it is the one variant left out.
pub proof fn lemma_trust_idempotent(v: TrustLevel)
    requires
        v != TrustLevel::Unknown,
    ensures
        trust_of_token(ascii_lower(trust_token(v))) == Some(v),
{
    lemma_trust_tokens_folded(v);
    reveal_strlit("unknown");
    reveal_strlit("visitor");
    reveal_strlit("new user");
    reveal_strlit("new_user");
    reveal_strlit("user");
    reveal_strlit("known user");
    reveal_strlit("known_user");
    reveal_strlit("trusted user");
    reveal_strlit("trusted_user");
    reveal_strlit("vrchat team");
    reveal_strlit("vrchat_team");
    reveal_strlit("nuisance");
    assert("visitor"@ =~= seq!['v', 'i', 's', 'i', 't', 'o', 'r']);
    assert("new user"@ =~= seq!['n', 'e', 'w', ' ', 'u', 's', 'e', 'r']);
    assert("new_user"@ =~= seq!['n', 'e', 'w', '_', 'u', 's', 'e', 'r']);
    assert("user"@ =~= seq!['u', 's', 'e', 'r']);
    assert("known user"@ =~= seq!['k', 'n', 'o', 'w', 'n', ' ', 'u', 's', 'e', 'r']);
    assert("known_user"@ =~= seq!['k', 'n', 'o', 'w', 'n', '_', 'u', 's', 'e', 'r']);
    assert("trusted user"@ =~= seq!['t', 'r', 'u', 's', 't', 'e', 'd', ' ', 'u', 's', 'e', 'r']);
    assert("trusted_user"@ =~= seq!['t', 'r', 'u', 's', 't', 'e', 'd', '_', 'u', 's', 'e', 'r']);
    assert("vrchat team"@ =~= seq!['v', 'r', 'c', 'h', 'a', 't', ' ', 't', 'e', 'a', 'm']);
    assert("vrchat_team"@ =~= seq!['v', 'r', 'c', 'h', 'a', 't', '_', 't', 'e', 'a', 'm']);
    assert("nuisance"@ =~= seq!['n', 'u', 'i', 's', 'a', 'n', 'c', 'e']);
    assert(trust_of_token("visitor"@) == Some(TrustLevel::Visitor));
    assert(trust_of_token("new user"@) == Some(TrustLevel::NewUser));
    assert(trust_of_token("user"@) == Some(TrustLevel::User));
    assert(trust_of_token("known user"@) == Some(TrustLevel::KnownUser));
    assert(trust_of_token("trusted user"@) == Some(TrustLevel::TrustedUser));
    assert(trust_of_token("vrchat team"@) == Some(TrustLevel::VRChatTeam));
    assert(trust_of_token("nuisance"@) == Some(TrustLevel::Nuisance));
}

} // verus!
