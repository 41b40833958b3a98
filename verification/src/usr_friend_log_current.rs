//! The friend/trust snapshot domain record: a raw friend row with its trust
//! token normalized into the closed trust enumeration.
use vstd::prelude::*;
use crate::convert::{ConversionError, ConversionErrorView};
use crate::rows::UsrFriendLogCurrentRow;
use crate::text::ascii_lower;
use crate::trust_level::{trust_of_token, TrustLevel};

verus! {

/// A validated friend/trust snapshot record.
#[derive(Debug, Clone, PartialEq, Eq, Hash)]
pub struct UsrFriendLogCurrent {
    pub user_id: String,
    pub display_name: String,
    pub trust_level: TrustLevel,
}

/// The mathematical value of a friend/trust record.
pub ghost struct UsrFriendLogCurrentView {
    pub user_id: Seq<char>,
    pub display_name: Seq<char>,
    pub trust_level: TrustLevel,
}

impl View for UsrFriendLogCurrent {
    type V = UsrFriendLogCurrentView;

    open spec fn view(&self) -> UsrFriendLogCurrentView {
        UsrFriendLogCurrentView {
            user_id: self.user_id@,
            display_name: self.display_name@,
            trust_level: self.trust_level,
        }
    }
}

/// What converting one friend row yields: the identifiers are copied
/// verbatim and the trust token is normalized; an unrecognized trust token
/// is a data-integrity failure carrying the row's user id.
pub open spec fn spec_convert_friend(row: UsrFriendLogCurrentRow) -> Result<
    UsrFriendLogCurrentView,
    ConversionErrorView,
> {
    match trust_of_token(ascii_lower(row.trust_level@)) {
        None => Err(
            ConversionErrorView::UnrecognizedTrust {
                user_id: row.user_id@,
                token: row.trust_level@,
            },
        ),
        Some(t) => Ok(
            UsrFriendLogCurrentView {
                user_id: row.user_id@,
                display_name: row.display_name@,
                trust_level: t,
            },
        ),
    }
}

/// A conversion result under the record's view.
pub open spec fn friend_result_view(r: Result<UsrFriendLogCurrent, ConversionError>) -> Result<
    UsrFriendLogCurrentView,
    ConversionErrorView,
> {
    match r {
        Ok(x) => Ok(x@),
        Err(e) => Err(e@),
    }
}

impl UsrFriendLogCurrent {
    /// An empty record: empty identifiers and the fallback trust level.
    pub fn new() -> (r: Self)
        ensures
            r.user_id@ == Seq::<char>::empty(),
            r.display_name@ == Seq::<char>::empty(),
            r.trust_level == TrustLevel::Unknown,
    {
        UsrFriendLogCurrent {
            user_id: String::new(),
            display_name: String::new(),
            trust_level: TrustLevel::Unknown,
        }
    }

    /// Convert one raw friend row.
    pub fn from_row(row: UsrFriendLogCurrentRow) -> (r: Result<
        UsrFriendLogCurrent,
        ConversionError,
    >)
        ensures
            friend_result_view(r) == spec_convert_friend(row),
    {
        let trust_level = match TrustLevel::normalize(row.trust_level.as_str()) {
            Ok(t) => t,
            Err(e) => {
                return Err(
                    ConversionError::UnrecognizedTrust { user_id: row.user_id, token: e.token },
                );
            },
        };
        Ok(
            UsrFriendLogCurrent {
                user_id: row.user_id,
                display_name: row.display_name,
                trust_level: trust_level,
            },
        )
    }
}

impl Default for UsrFriendLogCurrent {
    /// The default record is the empty record.
    fn default() -> (r: Self)
        ensures
            r.user_id@ == Seq::<char>::empty(),
            r.display_name@ == Seq::<char>::empty(),
            r.trust_level == TrustLevel::Unknown,
    {
        UsrFriendLogCurrent::new()
    }
}

/// What converting a whole batch yields: the records of the rows that
/// convert and the failures of the rows that do not, each side in row
/// order.
pub open spec fn spec_convert_friend_all(rows: Seq<UsrFriendLogCurrentRow>) -> (
    Seq<UsrFriendLogCurrentView>,
    Seq<ConversionErrorView>,
)
    decreases rows.len(),
{
    if rows.len() == 0 {
        (Seq::empty(), Seq::empty())
    } else {
        let prior = spec_convert_friend_all(rows.drop_last());
        match spec_convert_friend(rows.last()) {
            Ok(v) => (prior.0.push(v), prior.1),
            Err(e) => (prior.0, prior.1.push(e)),
        }
    }
}

/// Convert a batch of friend rows, reporting per-row failures individually
/// while converting the remaining rows.
pub fn convert_friend_rows(rows: Vec<UsrFriendLogCurrentRow>) -> (r: (
    Vec<UsrFriendLogCurrent>,
    Vec<ConversionError>,
))
    ensures
        r.0@.len() == spec_convert_friend_all(rows@).0.len(),
        forall|k: int| 0 <= k < r.0@.len() ==> r.0@[k]@ == spec_convert_friend_all(rows@).0[k],
        r.1@.len() == spec_convert_friend_all(rows@).1.len(),
        forall|k: int| 0 <= k < r.1@.len() ==> r.1@[k]@ == spec_convert_friend_all(rows@).1[k],
{
    let ghost all = rows@;
    let mut rows = rows;
    let mut recs: Vec<UsrFriendLogCurrent> = Vec::new();
    let mut errs: Vec<ConversionError> = Vec::new();
    let ghost mut done: int = 0;
    while rows.len() > 0
        invariant
            0 <= done <= all.len(),
            rows@ == all.skip(done),
            recs@.len() == spec_convert_friend_all(all.take(done)).0.len(),
            forall|k: int|
                0 <= k < recs@.len() ==> recs@[k]@ == spec_convert_friend_all(all.take(done)).0[k],
            errs@.len() == spec_convert_friend_all(all.take(done)).1.len(),
            forall|k: int|
                0 <= k < errs@.len() ==> errs@[k]@ == spec_convert_friend_all(all.take(done)).1[k],
        decreases rows@.len(),
    {
        let row = rows.remove(0);
        proof {
            assert(row == all[done]);
            assert(rows@ =~= all.skip(done + 1));
            assert(all.take(done + 1).drop_last() =~= all.take(done));
            assert(all.take(done + 1).last() == all[done]);
        }
        match UsrFriendLogCurrent::from_row(row) {
            Ok(rec) => recs.push(rec),
            Err(e) => errs.push(e),
        }
        proof {
            done = done + 1;
        }
    }
    proof {
        assert(all.take(all.len() as int) =~= all);
    }
    (recs, errs)
}

} // verus!
