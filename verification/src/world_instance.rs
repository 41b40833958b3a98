//! The world-instance parser: turns a compact identifier string
//! `world_id ":" instance_id ( "~" modifier )*` into a structured
//! descriptor. Each modifier is a bare token, which carries no payload and
//! is ignored, or `key "(" value ")"` with a recognized key. An unknown key
//! is fatal; an unknown region payload is not — it falls back to the
//! explicit `Other` region, the policy this crate settles on since region
//! has a fallback variant for exactly that purpose.
use vstd::prelude::*;
use vstd::string::*;
use crate::text::{ascii_lower, find_char, lemma_find_spec, spec_find, spec_split, split_char, str_eq};
use crate::world_regions::{region_or_other, Regions};

verus! {

/// A parsed world-instance descriptor. The two identifying fields are
/// non-empty in every descriptor the parser constructs; the modifier fields
/// are independently optional.
#[derive(Debug, Clone, PartialEq, Eq, Hash)]
pub struct WorldInstance {
    pub world_id: String,
    pub instance_id: String,
    pub nonce: Option<String>,
    pub hidden: Option<String>,
    pub private: Option<String>,
    pub region: Option<Regions>,
    pub friends: Option<String>,
    pub group: Option<String>,
}

/// The mathematical value of a descriptor: its strings as character
/// sequences.
pub ghost struct WorldInstanceView {
    pub world_id: Seq<char>,
    pub instance_id: Seq<char>,
    pub nonce: Option<Seq<char>>,
    pub hidden: Option<Seq<char>>,
    pub private: Option<Seq<char>>,
    pub region: Option<Regions>,
    pub friends: Option<Seq<char>>,
    pub group: Option<Seq<char>>,
}

impl WorldInstanceView {
    /// The descriptor invariant: both identifying fields are non-empty.
    pub open spec fn wf(self) -> bool {
        self.world_id.len() > 0 && self.instance_id.len() > 0
    }
}

impl View for WorldInstance {
    type V = WorldInstanceView;

    open spec fn view(&self) -> WorldInstanceView {
        WorldInstanceView {
            world_id: self.world_id@,
            instance_id: self.instance_id@,
            nonce: match self.nonce {
                Some(s) => Some(s@),
                None => None,
            },
            hidden: match self.hidden {
                Some(s) => Some(s@),
                None => None,
            },
            private: match self.private {
                Some(s) => Some(s@),
                None => None,
            },
            region: self.region,
            friends: match self.friends {
                Some(s) => Some(s@),
                None => None,
            },
            group: match self.group {
                Some(s) => Some(s@),
                None => None,
            },
        }
    }
}

/// The descriptor with empty identifiers and no modifiers.
pub open spec fn empty_descriptor() -> WorldInstanceView {
    WorldInstanceView {
        world_id: Seq::empty(),
        instance_id: Seq::empty(),
        nonce: None,
        hidden: None,
        private: None,
        region: None,
        friends: None,
        group: None,
    }
}

/// Why an identifier string does not parse, in priority order.
#[derive(Debug, Clone, Copy, PartialEq, Eq, Hash, Structural)]
pub enum WorldInstanceParseError {
    Empty,
    InvalidFormat,
    InvalidWorldId,
    InvalidInstanceId,
    InvalidOptionalField,
    Other,
}

impl Default for WorldInstanceParseError {
    /// The default parse error is the catch-all variant.
    fn default() -> (r: Self)
        ensures
            r == WorldInstanceParseError::Other,
    {
        WorldInstanceParseError::Other
    }
}

/// Whether a modifier segment carries a payload: it does when it holds an
/// opening parenthesis.
pub open spec fn spec_has_payload(seg: Seq<char>) -> bool {
    spec_find(seg, '(') < seg.len()
}

/// The key of a modifier segment: everything before the first opening
/// parenthesis.
pub open spec fn spec_modifier_key(seg: Seq<char>) -> Seq<char> {
    seg.subrange(0, spec_find(seg, '(') as int)
}

/// The value of a modifier segment: what stands between the first opening
/// parenthesis and the next parenthesis of either kind (or the segment's
/// end).
pub open spec fn spec_modifier_value(seg: Seq<char>) -> Seq<char>
    recommends
        spec_has_payload(seg),
{
    let after = seg.subrange(spec_find(seg, '(') as int + 1, seg.len() as int);
    let prefix = after.subrange(0, spec_find(after, '(') as int);
    prefix.subrange(0, spec_find(prefix, ')') as int)
}

/// One modifier segment applied to a descriptor: a segment without a payload
/// changes nothing; a recognized key sets its field to the payload (a region
/// payload goes through the region normalizer under the defaulting policy);
/// an unrecognized key is fatal.
pub open spec fn spec_apply_segment(v: WorldInstanceView, seg: Seq<char>) -> Result<
    WorldInstanceView,
    WorldInstanceParseError,
> {
    if !spec_has_payload(seg) {
        Ok(v)
    } else {
        let key = spec_modifier_key(seg);
        let value = spec_modifier_value(seg);
        if key == "nonce"@ {
            Ok(WorldInstanceView { nonce: Some(value), ..v })
        } else if key == "hidden"@ {
            Ok(WorldInstanceView { hidden: Some(value), ..v })
        } else if key == "private"@ {
            Ok(WorldInstanceView { private: Some(value), ..v })
        } else if key == "region"@ {
            Ok(WorldInstanceView { region: Some(region_or_other(ascii_lower(value))), ..v })
        } else if key == "friends"@ {
            Ok(WorldInstanceView { friends: Some(value), ..v })
        } else if key == "group"@ {
            Ok(WorldInstanceView { group: Some(value), ..v })
        } else {
            Err(WorldInstanceParseError::InvalidOptionalField)
        }
    }
}

/// All modifier segments applied in order, stopping at the first fatal one.
pub open spec fn spec_apply_segments(v: WorldInstanceView, segs: Seq<Seq<char>>) -> Result<
    WorldInstanceView,
    WorldInstanceParseError,
>
    decreases segs.len(),
{
    if segs.len() == 0 {
        Ok(v)
    } else {
        match spec_apply_segment(v, segs[0]) {
            Ok(v2) => spec_apply_segments(v2, segs.drop_first()),
            Err(e) => Err(e),
        }
    }
}

/// What parsing an identifier string yields: the separator `:` must split it
/// into exactly a non-empty world id and a remainder, the remainder's first
/// `~`-segment is the non-empty instance id, and every `~`-segment (the
/// first included) is inspected as a modifier.
pub open spec fn spec_parse(s: Seq<char>) -> Result<
    WorldInstanceView,
    WorldInstanceParseError,
> {
    if s.len() == 0 {
        Err(WorldInstanceParseError::Empty)
    } else if spec_split(s, ':').len() != 2 {
        Err(WorldInstanceParseError::InvalidFormat)
    } else if spec_split(s, ':')[0].len() == 0 {
        Err(WorldInstanceParseError::InvalidWorldId)
    } else {
        let segs = spec_split(spec_split(s, ':')[1], '~');
        if segs[0].len() == 0 {
            Err(WorldInstanceParseError::InvalidInstanceId)
        } else {
            spec_apply_segments(
                WorldInstanceView {
                    world_id: spec_split(s, ':')[0],
                    instance_id: segs[0],
                    ..empty_descriptor()
                },
                segs,
            )
        }
    }
}

/// A parse result under the descriptor's view.
pub open spec fn parse_result_view(r: Result<WorldInstance, WorldInstanceParseError>) -> Result<
    WorldInstanceView,
    WorldInstanceParseError,
> {
    match r {
        Ok(w) => Ok(w@),
        Err(e) => Err(e),
    }
}

/// Applying segments never touches the identifying fields.
pub proof fn lemma_apply_segments_keeps_ids(v: WorldInstanceView, segs: Seq<Seq<char>>)
    ensures
        spec_apply_segments(v, segs) matches Ok(v2) ==> v2.world_id == v.world_id
            && v2.instance_id == v.instance_id,
    decreases segs.len(),
{
    if segs.len() > 0 {
        match spec_apply_segment(v, segs[0]) {
            Ok(v2) => {
                lemma_apply_segments_keeps_ids(v2, segs.drop_first());
            },
            Err(_) => {},
        }
    }
}

/// One modifier segment applied to a descriptor under construction.
fn apply_segment(w: WorldInstance, seg: &str) -> (r: Result<
    WorldInstance,
    WorldInstanceParseError,
>)
    ensures
        match spec_apply_segment(w@, seg@) {
            Ok(v) => r matches Ok(w2) && w2@ == v,
            Err(e) => r == Result::<WorldInstance, WorldInstanceParseError>::Err(e),
        },
{
    let n = seg.unicode_len();
    let i = find_char(seg, '(');
    proof {
        lemma_find_spec(seg@, '(');
    }
    if i >= n {
        return Ok(w);
    }
    let key = seg.substring_char(0, i);
    let after = seg.substring_char(i + 1, n);
    let j = find_char(after, '(');
    proof {
        lemma_find_spec(after@, '(');
    }
    let prefix = after.substring_char(0, j);
    let k = find_char(prefix, ')');
    proof {
        lemma_find_spec(prefix@, ')');
    }
    let value_str = prefix.substring_char(0, k);
    let mut w2 = w;
    if str_eq(key, "nonce") {
        w2.nonce = Some(value_str.to_owned());
        Ok(w2)
    } else if str_eq(key, "hidden") {
        w2.hidden = Some(value_str.to_owned());
        Ok(w2)
    } else if str_eq(key, "private") {
        w2.private = Some(value_str.to_owned());
        Ok(w2)
    } else if str_eq(key, "region") {
        w2.region = Some(Regions::normalize_or_other(value_str));
        Ok(w2)
    } else if str_eq(key, "friends") {
        w2.friends = Some(value_str.to_owned());
        Ok(w2)
    } else if str_eq(key, "group") {
        w2.group = Some(value_str.to_owned());
        Ok(w2)
    } else {
        Err(WorldInstanceParseError::InvalidOptionalField)
    }
}

impl WorldInstance {
    /// A descriptor with empty identifiers and no modifiers, as `Default`
    /// builds it.
    pub fn new() -> (w: Self)
        ensures
            w@ == empty_descriptor(),
    {
        WorldInstance {
            world_id: String::new(),
            instance_id: String::new(),
            nonce: None,
            hidden: None,
            private: None,
            region: None,
            friends: None,
            group: None,
        }
    }

    /// Parse a compact world-instance identifier.
    pub fn from_str(s: &str) -> (r: Result<WorldInstance, WorldInstanceParseError>)
        ensures
            parse_result_view(r) == spec_parse(s@),
            r matches Ok(w) ==> w@.wf(),
    {
        if s.is_empty() {
            return Err(WorldInstanceParseError::Empty);
        }
        let colon_parts = split_char(s, ':');
        if colon_parts.len() != 2 {
            return Err(WorldInstanceParseError::InvalidFormat);
        }
        let world: &String = &colon_parts[0];
        if world.as_str().is_empty() {
            return Err(WorldInstanceParseError::InvalidWorldId);
        }
        let segs = split_char(colon_parts[1].as_str(), '~');
        let ghost segs_spec = spec_split(spec_split(s@, ':')[1], '~');
        if segs[0].as_str().is_empty() {
            return Err(WorldInstanceParseError::InvalidInstanceId);
        }
        let mut ret = WorldInstance {
            world_id: world.clone(),
            instance_id: segs[0].clone(),
            nonce: None,
            hidden: None,
            private: None,
            region: None,
            friends: None,
            group: None,
        };
        let ghost base = ret@;
        proof {
            assert(spec_parse(s@) == spec_apply_segments(base, segs_spec));
            assert(segs_spec.skip(0) =~= segs_spec);
        }
        let mut k: usize = 0;
        while k < segs.len()
            invariant
                k <= segs@.len(),
                segs@.len() == segs_spec.len(),
                forall|t: int| 0 <= t < segs@.len() ==> segs@[t]@ == segs_spec[t],
                spec_apply_segments(base, segs_spec) == spec_apply_segments(
                    ret@,
                    segs_spec.skip(k as int),
                ),
                spec_parse(s@) == spec_apply_segments(base, segs_spec),
                ret@.world_id == base.world_id,
                ret@.instance_id == base.instance_id,
                base.wf(),
            decreases segs@.len() - k,
        {
            let ghost before = ret@;
            let seg: &String = &segs[k];
            proof {
                assert(segs_spec.skip(k as int)[0] == segs_spec[k as int]);
            }
            match apply_segment(ret, seg.as_str()) {
                Ok(w2) => {
                    ret = w2;
                    proof {
                        lemma_apply_segments_keeps_ids(before, segs_spec.skip(k as int));
                        assert(segs_spec.skip(k as int).drop_first() =~= segs_spec.skip(
                            k as int + 1,
                        ));
                        assert(spec_apply_segment(before, segs_spec[k as int]) == Ok::<
                            WorldInstanceView,
                            WorldInstanceParseError,
                        >(ret@));
                    }
                },
                Err(e) => {
                    proof {
                        assert(spec_apply_segments(
                            before,
                            segs_spec.skip(k as int),
                        ) == Err::<WorldInstanceView, WorldInstanceParseError>(e));
                    }
                    return Err(e);
                },
            }
            k = k + 1;
        }
        proof {
            assert(segs_spec.skip(segs_spec.len() as int) =~= Seq::<Seq<char>>::empty());
            assert(spec_apply_segments(base, segs_spec) == Ok::<
                WorldInstanceView,
                WorldInstanceParseError,
            >(ret@));
        }
        Ok(ret)
    }

    /// Parse an identifier known to be well-formed: a convenience for
    /// callers that have already validated their input. An input that does
    /// not parse is outside this function's contract.
    pub fn from(s: &str) -> (w: WorldInstance)
        requires
            spec_parse(s@) is Ok,
        ensures
            spec_parse(s@) matches Ok(v) && w@ == v,
            w@.wf(),
    {
        match Self::from_str(s) {
            Ok(w) => w,
            // unreachable: the contract admits only inputs that parse
            Err(_) => WorldInstance::new(),
        }
    }
}

/// A plain identifier — a clean world id, the separator, a clean instance
/// id and no modifiers — parses to a descriptor with exactly those two
/// fields set and every optional field absent.
pub proof fn lemma_parse_plain(world: Seq<char>, inst: Seq<char>)
    requires
        world.len() > 0,
        inst.len() > 0,
        !world.contains(':'),
        !inst.contains(':'),
        !inst.contains('~'),
        !inst.contains('('),
    ensures
        spec_parse(world + seq![':'] + inst) == Ok::<WorldInstanceView, WorldInstanceParseError>(
            WorldInstanceView { world_id: world, instance_id: inst, ..empty_descriptor() },
        ),
{
    let s = world + seq![':'] + inst;
    crate::text::lemma_split_once(world, inst, ':');
    crate::text::lemma_split_absent(inst, '~');
    crate::text::lemma_find_absent(inst, '(');
    let base = WorldInstanceView { world_id: world, instance_id: inst, ..empty_descriptor() };
    assert(spec_split(s, ':')[0] == world);
    assert(spec_split(s, ':')[1] == inst);
    assert(spec_split(inst, '~') == seq![inst]);
    assert(spec_apply_segment(base, inst) == Ok::<WorldInstanceView, WorldInstanceParseError>(
        base,
    ));
    assert(seq![inst].drop_first() =~= Seq::<Seq<char>>::empty());
    assert(seq![inst][0] == inst);
    assert(spec_apply_segments(base, Seq::<Seq<char>>::empty()) == Ok::<
        WorldInstanceView,
        WorldInstanceParseError,
    >(base));
    assert(spec_apply_segments(base, seq![inst]) == Ok::<
        WorldInstanceView,
        WorldInstanceParseError,
    >(base));
}

/// An identifier carrying a `region(token)` modifier parses to a descriptor
/// whose region is exactly the region normalizer's output for the token
/// under the defaulting policy.
pub proof fn lemma_parse_region_modifier(world: Seq<char>, inst: Seq<char>, tok: Seq<char>)
    requires
        world.len() > 0,
        inst.len() > 0,
        !world.contains(':'),
        !inst.contains(':'),
        !inst.contains('~'),
        !inst.contains('('),
        !tok.contains(':'),
        !tok.contains('~'),
        !tok.contains('('),
        !tok.contains(')'),
    ensures
        spec_parse(world + seq![':'] + inst + seq!['~'] + "region("@ + tok + seq![')']) == Ok::<
            WorldInstanceView,
            WorldInstanceParseError,
        >(
            WorldInstanceView {
                world_id: world,
                instance_id: inst,
                region: Some(region_or_other(ascii_lower(tok))),
                ..empty_descriptor()
            },
        ),
{
    reveal_strlit("region(");
    reveal_strlit("region");
    reveal_strlit("nonce");
    reveal_strlit("hidden");
    reveal_strlit("private");
    assert("region("@ =~= seq!['r', 'e', 'g', 'i', 'o', 'n', '(']);
    assert("region"@ =~= seq!['r', 'e', 'g', 'i', 'o', 'n']);
    assert("nonce"@ =~= seq!['n', 'o', 'n', 'c', 'e']);
    assert("hidden"@ =~= seq!['h', 'i', 'd', 'd', 'e', 'n']);
    assert("private"@ =~= seq!['p', 'r', 'i', 'v', 'a', 't', 'e']);
    let seg = "region("@ + tok + seq![')'];
    let rest = inst + seq!['~'] + seg;
    let s = world + seq![':'] + inst + seq!['~'] + "region("@ + tok + seq![')'];
    assert(s =~= world + seq![':'] + rest);
    assert forall|j: int| 0 <= j < tok.len() implies tok[j] != ':' && tok[j] != '~' && tok[j]
        != '(' && tok[j] != ')' by {
        if tok[j] == ':' {
            assert(tok.contains(':'));
        }
        if tok[j] == '~' {
            assert(tok.contains('~'));
        }
        if tok[j] == '(' {
            assert(tok.contains('('));
        }
        if tok[j] == ')' {
            assert(tok.contains(')'));
        }
    }
    assert forall|j: int| 0 <= j < seg.len() implies seg[j] != ':' && seg[j] != '~' by {
        if 7 <= j < 7 + tok.len() {
            assert(seg[j] == tok[j - 7]);
        }
    }
    assert(!rest.contains(':')) by {
        if rest.contains(':') {
            let j = choose|j: int| 0 <= j < rest.len() && rest[j] == ':';
            if j < inst.len() {
                assert(inst.contains(':'));
            } else if j > inst.len() {
                assert(seg[j - inst.len() - 1] == ':');
            }
        }
    }
    assert(!seg.contains('~')) by {
        if seg.contains('~') {
            let j = choose|j: int| 0 <= j < seg.len() && seg[j] == '~';
            assert(seg[j] == '~');
        }
    }
    crate::text::lemma_split_once(world, rest, ':');
    crate::text::lemma_split_once(inst, seg, '~');
    let base = WorldInstanceView { world_id: world, instance_id: inst, ..empty_descriptor() };
    assert(spec_split(s, ':') == seq![world, rest]);
    assert(spec_split(rest, '~') == seq![inst, seg]);
    assert(seq![world, rest][0] == world && seq![world, rest][1] == rest);
    assert(seq![inst, seg][0] == inst && seq![inst, seg][1] == seg);
    // the instance segment carries no payload
    crate::text::lemma_find_absent(inst, '(');
    assert(spec_apply_segment(base, inst) == Ok::<WorldInstanceView, WorldInstanceParseError>(
        base,
    ));
    // the modifier segment: key `region`, value `tok`
    assert forall|j: int| 0 <= j < 6 implies seg[j] != '(' by {}
    assert(seg[6] == '(');
    crate::text::lemma_find_unique(seg, '(', 6);
    assert(spec_has_payload(seg));
    assert(spec_modifier_key(seg) =~= "region"@);
    let after = seg.subrange(7, seg.len() as int);
    assert(after =~= tok + seq![')']);
    assert forall|j: int| 0 <= j < after.len() implies after[j] != '(' by {
        if j < tok.len() {
            assert(after[j] == tok[j]);
        } else {
            assert(after[j] == ')');
        }
    }
    crate::text::lemma_find_unique(after, '(', after.len() as int);
    let prefix = after.subrange(0, spec_find(after, '(') as int);
    assert(prefix =~= after);
    assert forall|j: int| 0 <= j < tok.len() implies prefix[j] != ')' by {
        assert(prefix[j] == tok[j]);
    }
    assert(prefix[tok.len() as int] == ')');
    crate::text::lemma_find_unique(prefix, ')', tok.len() as int);
    assert(spec_modifier_value(seg) =~= tok);
    assert("region"@ != "nonce"@ && "region"@ != "hidden"@ && "region"@ != "private"@) by {
        assert("region"@[0] == 'r' && "hidden"@[0] == 'h');
        assert("region"@.len() == 6 && "nonce"@.len() == 5 && "private"@.len() == 7);
    }
    let with_region = WorldInstanceView {
        world_id: world,
        instance_id: inst,
        region: Some(region_or_other(ascii_lower(tok))),
        ..empty_descriptor()
    };
    assert(spec_apply_segment(base, seg) == Ok::<WorldInstanceView, WorldInstanceParseError>(
        with_region,
    ));
    // fold the two segments
    assert(seq![inst, seg].drop_first() =~= seq![seg]);
    assert(seq![seg].drop_first() =~= Seq::<Seq<char>>::empty());
    assert(spec_apply_segments(with_region, Seq::<Seq<char>>::empty()) == Ok::<
        WorldInstanceView,
        WorldInstanceParseError,
    >(with_region));
    assert(spec_apply_segments(base, seq![seg]) == Ok::<
        WorldInstanceView,
        WorldInstanceParseError,
    >(with_region));
    assert(spec_apply_segments(base, seq![inst, seg]) == Ok::<
        WorldInstanceView,
        WorldInstanceParseError,
    >(with_region));
}

impl Default for WorldInstance {
    /// The default descriptor has empty identifiers and no modifiers.
    fn default() -> (w: Self)
        ensures
            w@ == empty_descriptor(),
    {
        WorldInstance::new()
    }
}

} // verus!
