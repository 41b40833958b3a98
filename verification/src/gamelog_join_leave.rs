//! The join/leave domain record: a raw join/leave row with its event token
//! normalized, its location parsed, and its sentinel values turned into
//! absent optional fields.
use vstd::prelude::*;
use crate::convert::{
    location_field, spec_location_field, ConversionError, ConversionErrorView,
    MalformedLocationPolicy,
};
use crate::join_leave_event::{event_of_token, JoinLeaveEvent};
use crate::rows::GamelogJoinLeaveRow;
use crate::text::ascii_lower;
use crate::timestamp::Timestamp;
use crate::world_instance::{WorldInstance, WorldInstanceView};

verus! {

/// A validated join/leave log record.
#[derive(Debug, Clone, PartialEq, Eq, Hash)]
pub struct GamelogJoinLeave {
    pub id: i64,
    pub created_at: Timestamp,
    pub event: JoinLeaveEvent,
    pub display_name: String,
    pub location: Option<WorldInstance>,
    pub user_id: Option<String>,
    pub time: Option<u64>,
}

/// The mathematical value of a join/leave record.
pub ghost struct GamelogJoinLeaveView {
    pub id: i64,
    pub created_at: Timestamp,
    pub event: JoinLeaveEvent,
    pub display_name: Seq<char>,
    pub location: Option<WorldInstanceView>,
    pub user_id: Option<Seq<char>>,
    pub time: Option<u64>,
}

impl View for GamelogJoinLeave {
    type V = GamelogJoinLeaveView;

    open spec fn view(&self) -> GamelogJoinLeaveView {
        GamelogJoinLeaveView {
            id: self.id,
            created_at: self.created_at,
            event: self.event,
            display_name: self.display_name@,
            location: match self.location {
                Some(w) => Some(w@),
                None => None,
            },
            user_id: match self.user_id {
                Some(s) => Some(s@),
                None => None,
            },
            time: self.time,
        }
    }
}

/// What converting one join/leave row yields. The event token decides
/// first: an unrecognized one is a data-integrity failure. Then the
/// location field, under the given policy; this table's documented default
/// is that a malformed location is fatal. An empty user id and a
/// non-positive time are absence sentinels.
pub open spec fn spec_convert_join_leave(
    row: GamelogJoinLeaveRow,
    policy: MalformedLocationPolicy,
) -> Result<GamelogJoinLeaveView, ConversionErrorView> {
    match event_of_token(ascii_lower(row.event@)) {
        None => Err(
            ConversionErrorView::UnrecognizedEvent { row_id: row.id, token: row.event@ },
        ),
        Some(ev) => match spec_location_field(row.location@, policy) {
            Err(cause) => Err(ConversionErrorView::MalformedLocation { row_id: row.id, cause }),
            Ok(loc) => Ok(
                GamelogJoinLeaveView {
                    id: row.id,
                    created_at: row.created_at,
                    event: ev,
                    display_name: row.display_name@,
                    location: loc,
                    user_id: if row.user_id@.len() == 0 {
                        None
                    } else {
                        Some(row.user_id@)
                    },
                    time: if row.time <= 0 {
                        None
                    } else {
                        Some(row.time as u64)
                    },
                },
            ),
        },
    }
}

/// A conversion result under the record's view.
pub open spec fn join_leave_result_view(r: Result<GamelogJoinLeave, ConversionError>) -> Result<
    GamelogJoinLeaveView,
    ConversionErrorView,
> {
    match r {
        Ok(x) => Ok(x@),
        Err(e) => Err(e@),
    }
}

impl GamelogJoinLeave {
    /// An empty record: zero id, epoch timestamp, the fallback event kind,
    /// and every optional field absent.
    pub fn new() -> (r: Self)
        ensures
            r.id == 0,
            r.created_at == (Timestamp { unix_seconds: 0, subsec_nanos: 0 }),
            r.event == JoinLeaveEvent::Other,
            r.display_name@ == Seq::<char>::empty(),
            r.location is None,
            r.user_id is None,
            r.time is None,
    {
        GamelogJoinLeave {
            id: 0,
            created_at: Timestamp::epoch(),
            event: JoinLeaveEvent::Other,
            display_name: String::new(),
            location: None,
            user_id: None,
            time: None,
        }
    }

    /// Convert one raw join/leave row under an explicit tolerance policy.
    pub fn from_row_with(row: GamelogJoinLeaveRow, policy: MalformedLocationPolicy) -> (r: Result<
        GamelogJoinLeave,
        ConversionError,
    >)
        ensures
            join_leave_result_view(r) == spec_convert_join_leave(row, policy),
    {
        let event = match JoinLeaveEvent::normalize(row.event.as_str()) {
            Ok(ev) => ev,
            Err(e) => {
                return Err(ConversionError::UnrecognizedEvent { row_id: row.id, token: e.token });
            },
        };
        let location = match location_field(row.location.as_str(), policy) {
            Ok(loc) => loc,
            Err(cause) => {
                return Err(ConversionError::MalformedLocation { row_id: row.id, cause });
            },
        };
        let user_id = if row.user_id.as_str().is_empty() {
            None
        } else {
            Some(row.user_id)
        };
        let time = if row.time <= 0 {
            None
        } else {
            Some(row.time as u64)
        };
        Ok(
            GamelogJoinLeave {
                id: row.id,
                created_at: row.created_at,
                event: event,
                display_name: row.display_name,
                location: location,
                user_id: user_id,
                time: time,
            },
        )
    }

    /// Convert one raw join/leave row under this table's documented default
    /// policy: a malformed location is fatal.
    pub fn from_row(row: GamelogJoinLeaveRow) -> (r: Result<GamelogJoinLeave, ConversionError>)
        ensures
            join_leave_result_view(r) == spec_convert_join_leave(
                row,
                MalformedLocationPolicy::Fatal,
            ),
    {
        Self::from_row_with(row, MalformedLocationPolicy::Fatal)
    }
}

impl Default for GamelogJoinLeave {
    /// The default record is the empty record.
    fn default() -> (r: Self)
        ensures
            r.id == 0,
            r.event == JoinLeaveEvent::Other,
            r.location is None,
            r.user_id is None,
            r.time is None,
    {
        GamelogJoinLeave::new()
    }
}

/// The time sentinel: a converted row's time is absent exactly when the raw
/// time is non-positive, and otherwise carries the raw value unchanged.
pub proof fn lemma_join_leave_time_sentinel(
    row: GamelogJoinLeaveRow,
    policy: MalformedLocationPolicy,
)
    ensures
        spec_convert_join_leave(row, policy) matches Ok(v) ==> v.time == (if row.time <= 0 {
            None
        } else {
            Some(row.time as u64)
        }),
{
}

/// This table does not tolerate malformed identifiers: a join/leave row
/// whose non-empty location string does not parse fails to convert under
/// the table's default policy, naming the row and the parse error.
pub proof fn lemma_join_leave_malformed_fatal(row: GamelogJoinLeaveRow)
    requires
        event_of_token(ascii_lower(row.event@)) is Some,
        row.location@.len() > 0,
        crate::world_instance::spec_parse(row.location@) is Err,
    ensures
        crate::world_instance::spec_parse(row.location@) matches Err(cause)
            && spec_convert_join_leave(row, MalformedLocationPolicy::Fatal) == Err::<
            GamelogJoinLeaveView,
            ConversionErrorView,
        >(ConversionErrorView::MalformedLocation { row_id: row.id, cause }),
{
}

/// What converting a whole batch yields: the records of the rows that
/// convert and the failures of the rows that do not, each side in row
/// order. One bad row never aborts the batch.
pub open spec fn spec_convert_join_leave_all(
    rows: Seq<GamelogJoinLeaveRow>,
    policy: MalformedLocationPolicy,
) -> (Seq<GamelogJoinLeaveView>, Seq<ConversionErrorView>)
    decreases rows.len(),
{
    if rows.len() == 0 {
        (Seq::empty(), Seq::empty())
    } else {
        let prior = spec_convert_join_leave_all(rows.drop_last(), policy);
        match spec_convert_join_leave(rows.last(), policy) {
            Ok(v) => (prior.0.push(v), prior.1),
            Err(e) => (prior.0, prior.1.push(e)),
        }
    }
}

/// Convert a batch of join/leave rows, reporting per-row failures
/// individually while converting the remaining rows.
pub fn convert_join_leave_rows(
    rows: Vec<GamelogJoinLeaveRow>,
    policy: MalformedLocationPolicy,
) -> (r: (Vec<GamelogJoinLeave>, Vec<ConversionError>))
    ensures
        r.0@.len() == spec_convert_join_leave_all(rows@, policy).0.len(),
        forall|k: int|
            0 <= k < r.0@.len() ==> r.0@[k]@ == spec_convert_join_leave_all(rows@, policy).0[k],
        r.1@.len() == spec_convert_join_leave_all(rows@, policy).1.len(),
        forall|k: int|
            0 <= k < r.1@.len() ==> r.1@[k]@ == spec_convert_join_leave_all(rows@, policy).1[k],
{
    let ghost all = rows@;
    let mut rows = rows;
    let mut recs: Vec<GamelogJoinLeave> = Vec::new();
    let mut errs: Vec<ConversionError> = Vec::new();
    let ghost mut done: int = 0;
    while rows.len() > 0
        invariant
            0 <= done <= all.len(),
            rows@ == all.skip(done),
            recs@.len() == spec_convert_join_leave_all(all.take(done), policy).0.len(),
            forall|k: int|
                0 <= k < recs@.len() ==> recs@[k]@ == spec_convert_join_leave_all(
                    all.take(done),
                    policy,
                ).0[k],
            errs@.len() == spec_convert_join_leave_all(all.take(done), policy).1.len(),
            forall|k: int|
                0 <= k < errs@.len() ==> errs@[k]@ == spec_convert_join_leave_all(
                    all.take(done),
                    policy,
                ).1[k],
        decreases rows@.len(),
    {
        let row = rows.remove(0);
        proof {
            assert(row == all[done]);
            assert(rows@ =~= all.skip(done + 1));
            assert(all.take(done + 1).drop_last() =~= all.take(done));
            assert(all.take(done + 1).last() == all[done]);
        }
        match GamelogJoinLeave::from_row_with(row, policy) {
            Ok(rec) => recs.push(rec),
            Err(e) => errs.push(e),
        }
        proof {
            done = done + 1;
        }
    }
    proof {
        assert(all.take(all.len() as int) =~= all);
    }
    (recs, errs)
}

} // verus!
