//! The location-visit domain record: a raw location row with its location
//! string parsed, its world name trimmed, and its sentinel values turned
//! into absent optional fields.
use vstd::prelude::*;
use crate::convert::{
    location_field, spec_location_field, ConversionError, ConversionErrorView,
    MalformedLocationPolicy,
};
use crate::rows::GamelogLocationRow;
use crate::text::{spec_trim, trim_ascii};
use crate::timestamp::Timestamp;
use crate::world_instance::{WorldInstance, WorldInstanceView};

verus! {

/// A validated location-visit log record.
#[derive(Debug, Clone, PartialEq, Eq, Hash)]
pub struct GamelogLocation {
    pub id: i64,
    pub created_at: Timestamp,
    pub world_name: String,
    pub world_instance: Option<WorldInstance>,
    pub time: Option<u64>,
    pub group_name: Option<String>,
}

/// The mathematical value of a location-visit record.
pub ghost struct GamelogLocationView {
    pub id: i64,
    pub created_at: Timestamp,
    pub world_name: Seq<char>,
    pub world_instance: Option<WorldInstanceView>,
    pub time: Option<u64>,
    pub group_name: Option<Seq<char>>,
}

impl View for GamelogLocation {
    type V = GamelogLocationView;

    open spec fn view(&self) -> GamelogLocationView {
        GamelogLocationView {
            id: self.id,
            created_at: self.created_at,
            world_name: self.world_name@,
            world_instance: match self.world_instance {
                Some(w) => Some(w@),
                None => None,
            },
            time: self.time,
            group_name: match self.group_name {
                Some(s) => Some(s@),
                None => None,
            },
        }
    }
}

/// What converting one location row yields. The location field is handled
/// under the given policy; this table's documented default downgrades a
/// malformed location to an absent world instance. The world name is a
/// display name, so incidental whitespace is trimmed. An empty group name
/// and a non-positive time are absence sentinels.
pub open spec fn spec_convert_location(
    row: GamelogLocationRow,
    policy: MalformedLocationPolicy,
) -> Result<GamelogLocationView, ConversionErrorView> {
    match spec_location_field(row.location@, policy) {
        Err(cause) => Err(ConversionErrorView::MalformedLocation { row_id: row.id, cause }),
        Ok(loc) => Ok(
            GamelogLocationView {
                id: row.id,
                created_at: row.created_at,
                world_name: spec_trim(row.world_name@),
                world_instance: loc,
                time: if row.time <= 0 {
                    None
                } else {
                    Some(row.time as u64)
                },
                group_name: if row.group_name@.len() == 0 {
                    None
                } else {
                    Some(row.group_name@)
                },
            },
        ),
    }
}

/// A conversion result under the record's view.
pub open spec fn location_result_view(r: Result<GamelogLocation, ConversionError>) -> Result<
    GamelogLocationView,
    ConversionErrorView,
> {
    match r {
        Ok(x) => Ok(x@),
        Err(e) => Err(e@),
    }
}

impl GamelogLocation {
    /// An empty record: zero id, epoch timestamp, and every optional field
    /// absent.
    pub fn new() -> (r: Self)
        ensures
            r.id == 0,
            r.created_at == (Timestamp { unix_seconds: 0, subsec_nanos: 0 }),
            r.world_name@ == Seq::<char>::empty(),
            r.world_instance is None,
            r.time is None,
            r.group_name is None,
    {
        GamelogLocation {
            id: 0,
            created_at: Timestamp::epoch(),
            world_name: String::new(),
            world_instance: None,
            time: None,
            group_name: None,
        }
    }

    /// Convert one raw location row under an explicit tolerance policy.
    pub fn from_row_with(row: GamelogLocationRow, policy: MalformedLocationPolicy) -> (r: Result<
        GamelogLocation,
        ConversionError,
    >)
        ensures
            location_result_view(r) == spec_convert_location(row, policy),
    {
        let world_instance = match location_field(row.location.as_str(), policy) {
            Ok(loc) => loc,
            Err(cause) => {
                return Err(ConversionError::MalformedLocation { row_id: row.id, cause });
            },
        };
        let world_name = trim_ascii(row.world_name.as_str());
        let time = if row.time <= 0 {
            None
        } else {
            Some(row.time as u64)
        };
        let group_name = if row.group_name.as_str().is_empty() {
            None
        } else {
            Some(row.group_name)
        };
        Ok(
            GamelogLocation {
                id: row.id,
                created_at: row.created_at,
                world_name: world_name,
                world_instance: world_instance,
                time: time,
                group_name: group_name,
            },
        )
    }

    /// Convert one raw location row under this table's documented default
    /// policy: a malformed location becomes an absent world instance.
    pub fn from_row(row: GamelogLocationRow) -> (r: Result<GamelogLocation, ConversionError>)
        ensures
            location_result_view(r) == spec_convert_location(
                row,
                MalformedLocationPolicy::Absent,
            ),
    {
        Self::from_row_with(row, MalformedLocationPolicy::Absent)
    }
}

impl Default for GamelogLocation {
    /// The default record is the empty record.
    fn default() -> (r: Self)
        ensures
            r.id == 0,
            r.world_instance is None,
            r.time is None,
            r.group_name is None,
    {
        GamelogLocation::new()
    }
}

/// This table tolerates malformed identifiers: a location row whose
/// location string does not parse still converts under the table's default
/// policy, with the world instance absent.
pub proof fn lemma_location_malformed_tolerated(row: GamelogLocationRow)
    requires
        crate::world_instance::spec_parse(row.location@) is Err,
    ensures
        spec_convert_location(row, MalformedLocationPolicy::Absent) matches Ok(v)
            && v.world_instance is None,
{
}

/// What converting a whole batch yields: the records of the rows that
/// convert and the failures of the rows that do not, each side in row
/// order.
pub open spec fn spec_convert_location_all(
    rows: Seq<GamelogLocationRow>,
    policy: MalformedLocationPolicy,
) -> (Seq<GamelogLocationView>, Seq<ConversionErrorView>)
    decreases rows.len(),
{
    if rows.len() == 0 {
        (Seq::empty(), Seq::empty())
    } else {
        let prior = spec_convert_location_all(rows.drop_last(), policy);
        match spec_convert_location(rows.last(), policy) {
            Ok(v) => (prior.0.push(v), prior.1),
            Err(e) => (prior.0, prior.1.push(e)),
        }
    }
}

/// Convert a batch of location rows, reporting per-row failures
/// individually while converting the remaining rows.
pub fn convert_location_rows(rows: Vec<GamelogLocationRow>, policy: MalformedLocationPolicy) -> (r:
    (Vec<GamelogLocation>, Vec<ConversionError>))
    ensures
        r.0@.len() == spec_convert_location_all(rows@, policy).0.len(),
        forall|k: int|
            0 <= k < r.0@.len() ==> r.0@[k]@ == spec_convert_location_all(rows@, policy).0[k],
        r.1@.len() == spec_convert_location_all(rows@, policy).1.len(),
        forall|k: int|
            0 <= k < r.1@.len() ==> r.1@[k]@ == spec_convert_location_all(rows@, policy).1[k],
{
    let ghost all = rows@;
    let mut rows = rows;
    let mut recs: Vec<GamelogLocation> = Vec::new();
    let mut errs: Vec<ConversionError> = Vec::new();
    let ghost mut done: int = 0;
    while rows.len() > 0
        invariant
            0 <= done <= all.len(),
            rows@ == all.skip(done),
            recs@.len() == spec_convert_location_all(all.take(done), policy).0.len(),
            forall|k: int|
                0 <= k < recs@.len() ==> recs@[k]@ == spec_convert_location_all(
                    all.take(done),
                    policy,
                ).0[k],
            errs@.len() == spec_convert_location_all(all.take(done), policy).1.len(),
            forall|k: int|
                0 <= k < errs@.len() ==> errs@[k]@ == spec_convert_location_all(
                    all.take(done),
                    policy,
                ).1[k],
        decreases rows@.len(),
    {
        let row = rows.remove(0);
        proof {
            assert(row == all[done]);
            assert(rows@ =~= all.skip(done + 1));
            assert(all.take(done + 1).drop_last() =~= all.take(done));
            assert(all.take(done + 1).last() == all[done]);
        }
        match GamelogLocation::from_row_with(row, policy) {
            Ok(rec) => recs.push(rec),
            Err(e) => errs.push(e),
        }
        proof {
            done = done + 1;
        }
    }
    proof {
        assert(all.take(all.len() as int) =~= all);
    }
    (recs, errs)
}

} // verus!
