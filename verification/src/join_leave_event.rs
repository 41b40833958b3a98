//! The event-kind normalizer: maps free-form join/leave tokens, case folded,
//! to a closed join/leave/other enumeration. An unrecognized token is a
//! data-integrity defect by design, so the caller is expected to treat it as
//! fatal.
use vstd::prelude::*;
use crate::normalize::UnrecognizedTokenError;
use crate::text::{ascii_lower, lemma_ascii_lower_idempotent, str_eq, to_ascii_lower};

verus! {

/// The kind of a join/leave log entry.
#[derive(Debug, Clone, Copy, PartialEq, Eq, Hash, Structural)]
pub enum JoinLeaveEvent {
    Join,
    Leave,
    Other,
}

impl Default for JoinLeaveEvent {
    /// The default event kind is the fallback variant.
    fn default() -> (r: Self)
        ensures
            r == JoinLeaveEvent::Other,
    {
        JoinLeaveEvent::Other
    }
}

/// The recognition table: which case-folded tokens name which event kind.
/// A token outside the table names no event kind.
pub open spec fn event_of_token(t: Seq<char>) -> Option<JoinLeaveEvent> {
    if t == "join"@ || t == "joins"@ || t == "joined"@ || t == "onplayerjoined"@ {
        Some(JoinLeaveEvent::Join)
    } else if t == "leave"@ || t == "leaves"@ || t == "left"@ || t == "onplayerleft"@ {
        Some(JoinLeaveEvent::Leave)
    } else {
        None
    }
}

/// The canonical token of each event-kind variant, already case folded.
pub open spec fn event_token(v: JoinLeaveEvent) -> Seq<char> {
    match v {
        JoinLeaveEvent::Join => "join"@,
        JoinLeaveEvent::Leave => "leave"@,
        JoinLeaveEvent::Other => "other"@,
    }
}

impl JoinLeaveEvent {
    /// Normalize a free-form event token: case fold it and look it up in the
    /// recognition table. An unrecognized token is reported to the caller.
    pub fn normalize(token: &str) -> (r: Result<JoinLeaveEvent, UnrecognizedTokenError>)
        ensures
            event_of_token(ascii_lower(token@)) matches Some(v) ==> r == Result::<
                JoinLeaveEvent,
                UnrecognizedTokenError,
            >::Ok(v),
            event_of_token(ascii_lower(token@)) is None ==> (r matches Err(e) && e.token@
                == token@),
    {
        let low = to_ascii_lower(token);
        let l = low.as_str();
        if str_eq(l, "join") || str_eq(l, "joins") || str_eq(l, "joined") || str_eq(
            l,
            "onplayerjoined",
        ) {
            Ok(JoinLeaveEvent::Join)
        } else if str_eq(l, "leave") || str_eq(l, "leaves") || str_eq(l, "left") || str_eq(
            l,
            "onplayerleft",
        ) {
            Ok(JoinLeaveEvent::Leave)
        } else {
            Err(UnrecognizedTokenError { token: token.to_owned() })
        }
    }

    /// The canonical spelling of this event kind.
    pub fn as_token(&self) -> (r: String)
        ensures
            r@ == event_token(*self),
    {
        match self {
            JoinLeaveEvent::Join => "join".to_owned(),
            JoinLeaveEvent::Leave => "leave".to_owned(),
            JoinLeaveEvent::Other => "other".to_owned(),
        }
    }
}

/// Event normalization is case-insensitive: an input and its case-folded
/// form normalize to the same result.
pub proof fn lemma_event_case_insensitive(t: Seq<char>)
    ensures
        event_of_token(ascii_lower(ascii_lower(t))) == event_of_token(ascii_lower(t)),
{
    lemma_ascii_lower_idempotent(t);
}

/// The canonical tokens are already case folded.
proof fn lemma_event_tokens_folded(v: JoinLeaveEvent)
    ensures
        ascii_lower(event_token(v)) == event_token(v),
{
    reveal_strlit("join");
    reveal_strlit("leave");
    reveal_strlit("other");
    assert(ascii_lower(event_token(v)) =~= event_token(v));
}

/// Event normalization is idempotent: normalizing a variant's own canonical
/// token yields the variant back. The fallback variant has no recognized
/// token, so it is the one variant left out.
pub proof fn lemma_event_idempotent(v: JoinLeaveEvent)
    requires
        v != JoinLeaveEvent::Other,
    ensures
        event_of_token(ascii_lower(event_token(v))) == Some(v),
{
    lemma_event_tokens_folded(v);
    reveal_strlit("join");
    reveal_strlit("joins");
    reveal_strlit("joined");
    reveal_strlit("onplayerjoined");
    reveal_strlit("leave");
    reveal_strlit("leaves");
    reveal_strlit("left");
    reveal_strlit("onplayerleft");
    assert("join"@ =~= seq!['j', 'o', 'i', 'n']);
    assert("joins"@ =~= seq!['j', 'o', 'i', 'n', 's']);
    assert("joined"@ =~= seq!['j', 'o', 'i', 'n', 'e', 'd']);
    assert("leave"@ =~= seq!['l', 'e', 'a', 'v', 'e']);
    assert("leaves"@ =~= seq!['l', 'e', 'a', 'v', 'e', 's']);
    assert("left"@ =~= seq!['l', 'e', 'f', 't']);
    assert(event_of_token("join"@) == Some(JoinLeaveEvent::Join));
    assert(event_of_token("leave"@) == Some(JoinLeaveEvent::Leave));
}

} // verus!
