//! The hosting-region normalizer: maps free-form region tokens, case
//! folded, to a closed region enumeration with an explicit `Other` default.
use vstd::prelude::*;
use crate::normalize::UnrecognizedTokenError;
use crate::text::{ascii_lower, lemma_ascii_lower_idempotent, str_eq, to_ascii_lower};

verus! {

/// Regions where world instances are hosted.
#[derive(Debug, Clone, Copy, PartialEq, Eq, Hash, Structural)]
pub enum Regions {
    Other,
    USWest,
    US,
    USEast,
    Europe,
    Japan,
}

impl Default for Regions {
    /// The default region is the explicit fallback variant.
    fn default() -> (r: Self)
        ensures
            r == Regions::Other,
    {
        Regions::Other
    }
}

/// The recognition table: which case-folded tokens name which region.
/// A token outside the table names no region.
pub open spec fn region_of_token(t: Seq<char>) -> Option<Regions> {
    if t == "uswest"@ || t == "usw"@ || t == "us w"@ || t == "us_w"@ || t == "uw"@ {
        Some(Regions::USWest)
    } else if t == "us"@ {
        Some(Regions::US)
    } else if t == "useast"@ || t == "use"@ || t == "us e"@ || t == "us_e"@ || t == "ue"@ {
        Some(Regions::USEast)
    } else if t == "europe"@ || t == "eu"@ {
        Some(Regions::Europe)
    } else if t == "japan"@ || t == "jp"@ {
        Some(Regions::Japan)
    } else {
        None
    }
}

/// The defaulting policy: an unrecognized token falls back to `Other`.
pub open spec fn region_or_other(t: Seq<char>) -> Regions {
    match region_of_token(t) {
        Some(r) => r,
        None => Regions::Other,
    }
}

/// The canonical token of each region variant, already case folded.
pub open spec fn region_token(r: Regions) -> Seq<char> {
    match r {
        Regions::Other => "other"@,
        Regions::USWest => "uswest"@,
        Regions::US => "us"@,
        Regions::USEast => "useast"@,
        Regions::Europe => "europe"@,
        Regions::Japan => "japan"@,
    }
}

impl Regions {
    /// Normalize a free-form region token: case fold it and look it up in the
    /// recognition table. An unrecognized token is reported to the caller,
    /// who decides between failing and defaulting to `Other`.
    pub fn normalize(token: &str) -> (r: Result<Regions, UnrecognizedTokenError>)
        ensures
            region_of_token(ascii_lower(token@)) matches Some(v) ==> r == Result::<
                Regions,
                UnrecognizedTokenError,
            >::Ok(v),
            region_of_token(ascii_lower(token@)) is None ==> (r matches Err(e) && e.token@
                == token@),
    {
        let low = to_ascii_lower(token);
        let l = low.as_str();
        if str_eq(l, "uswest") || str_eq(l, "usw") || str_eq(l, "us w") || str_eq(l, "us_w")
            || str_eq(l, "uw") {
            Ok(Regions::USWest)
        } else if str_eq(l, "us") {
            Ok(Regions::US)
        } else if str_eq(l, "useast") || str_eq(l, "use") || str_eq(l, "us e") || str_eq(l, "us_e")
            || str_eq(l, "ue") {
            Ok(Regions::USEast)
        } else if str_eq(l, "europe") || str_eq(l, "eu") {
            Ok(Regions::Europe)
        } else if str_eq(l, "japan") || str_eq(l, "jp") {
            Ok(Regions::Japan)
        } else {
            Err(UnrecognizedTokenError { token: token.to_owned() })
        }
    }

    /// Normalize with the defaulting policy: an unrecognized token becomes
    /// `Other` instead of an error.
    pub fn normalize_or_other(token: &str) -> (r: Regions)
        ensures
            r == region_or_other(ascii_lower(token@)),
    {
        match Self::normalize(token) {
            Ok(v) => v,
            Err(_) => Regions::Other,
        }
    }

    /// The canonical spelling of this region.
    pub fn as_token(&self) -> (r: String)
        ensures
            r@ == region_token(*self),
    {
        match self {
            Regions::Other => "other".to_owned(),
            Regions::USWest => "uswest".to_owned(),
            Regions::US => "us".to_owned(),
            Regions::USEast => "useast".to_owned(),
            Regions::Europe => "europe".to_owned(),
            Regions::Japan => "japan".to_owned(),
        }
    }
}

/// Region normalization is case-insensitive: an input and its case-folded
/// form normalize to the same result.
pub proof fn lemma_region_case_insensitive(t: Seq<char>)
    ensures
        region_of_token(ascii_lower(ascii_lower(t))) == region_of_token(ascii_lower(t)),
{
    lemma_ascii_lower_idempotent(t);
}

/// The canonical tokens are already case folded.
proof fn lemma_region_tokens_folded(r: Regions)
    ensures
        ascii_lower(region_token(r)) == region_token(r),
{
    reveal_strlit("other");
    reveal_strlit("uswest");
    reveal_strlit("us");
    reveal_strlit("useast");
    reveal_strlit("europe");
    reveal_strlit("japan");
    assert(ascii_lower(region_token(r)) =~= region_token(r));
}

/// Region normalization is idempotent: normalizing a variant's own canonical
/// token, under the defaulting policy, yields the variant back.
pub proof fn lemma_region_idempotent(r: Regions)
    ensures
        region_or_other(ascii_lower(region_token(r))) == r,
{
    lemma_region_tokens_folded(r);
    reveal_strlit("other");
    reveal_strlit("uswest");
    reveal_strlit("us");
    reveal_strlit("useast");
    reveal_strlit("europe");
    reveal_strlit("japan");
    reveal_strlit("usw");
    reveal_strlit("us w");
    reveal_strlit("us_w");
    reveal_strlit("uw");
    reveal_strlit("use");
    reveal_strlit("us e");
    reveal_strlit("us_e");
    reveal_strlit("ue");
    reveal_strlit("eu");
    reveal_strlit("jp");
    assert("other"@ =~= seq!['o', 't', 'h', 'e', 'r']);
    assert("uswest"@ =~= seq!['u', 's', 'w', 'e', 's', 't']);
    assert("us"@ =~= seq!['u', 's']);
    assert("useast"@ =~= seq!['u', 's', 'e', 'a', 's', 't']);
    assert("europe"@ =~= seq!['e', 'u', 'r', 'o', 'p', 'e']);
    assert("japan"@ =~= seq!['j', 'a', 'p', 'a', 'n']);
    assert("usw"@ =~= seq!['u', 's', 'w']);
    assert("us w"@ =~= seq!['u', 's', ' ', 'w']);
    assert("us_w"@ =~= seq!['u', 's', '_', 'w']);
    assert("uw"@ =~= seq!['u', 'w']);
    assert("use"@ =~= seq!['u', 's', 'e']);
    assert("us e"@ =~= seq!['u', 's', ' ', 'e']);
    assert("us_e"@ =~= seq!['u', 's', '_', 'e']);
    assert("ue"@ =~= seq!['u', 'e']);
    assert("eu"@ =~= seq!['e', 'u']);
    assert("jp"@ =~= seq!['j', 'p']);
    assert(region_of_token("other"@) is None);
    assert(region_of_token("uswest"@) == Some(Regions::USWest));
    assert(region_of_token("us"@) == Some(Regions::US));
    assert(region_of_token("useast"@) == Some(Regions::USEast));
    assert(region_of_token("europe"@) == Some(Regions::Europe));
    assert(region_of_token("japan"@) == Some(Regions::Japan));
}

} // verus!
