//! The assembled artifact record: a classified piece with a main stat,
//! up to four sub-stats occupying the leading positions contiguously,
//! and an optional holder reference.

use vstd::prelude::*;

use crate::classify::{ArtifactSetName, ArtifactSlot};
use crate::stat::ArtifactStat;

verus! {

/// One fully assembled artifact. Sub-stats, when present, fill the
/// positions in order with no gaps; the assembler establishes this.
#[derive(Debug, Hash, Clone)]
pub struct InternalArtifact {
    pub set_name: ArtifactSetName,
    pub slot: ArtifactSlot,
    pub star: u32,
    pub level: u32,
    pub main_stat: ArtifactStat,
    pub sub_stat_1: Option<ArtifactStat>,
    pub sub_stat_2: Option<ArtifactStat>,
    pub sub_stat_3: Option<ArtifactStat>,
    pub sub_stat_4: Option<ArtifactStat>,
    pub equip: Option<String>,
}

/// Equality of the optional holder reference, by the names' characters.
pub open spec fn equip_eq(a: Option<String>, b: Option<String>) -> bool {
    match (a, b) {
        (Option::None, Option::None) => true,
        (Option::Some(x), Option::Some(y)) => x@ == y@,
        _ => false,
    }
}

/// Field-wise equality of two artifacts, with the holder compared by
/// name: what `==` means on assembled records.
pub open spec fn artifact_eq(a: &InternalArtifact, b: &InternalArtifact) -> bool {
    &&& a.set_name == b.set_name
    &&& a.slot == b.slot
    &&& a.star == b.star
    &&& a.level == b.level
    &&& a.main_stat == b.main_stat
    &&& a.sub_stat_1 == b.sub_stat_1
    &&& a.sub_stat_2 == b.sub_stat_2
    &&& a.sub_stat_3 == b.sub_stat_3
    &&& a.sub_stat_4 == b.sub_stat_4
    &&& equip_eq(a.equip, b.equip)
}

impl InternalArtifact {
    /// The sub-stat at a position, counted from one.
    pub open spec fn sub_stat(&self, position: int) -> Option<ArtifactStat> {
        if position == 1 {
            self.sub_stat_1
        } else if position == 2 {
            self.sub_stat_2
        } else if position == 3 {
            self.sub_stat_3
        } else if position == 4 {
            self.sub_stat_4
        } else {
            Option::None
        }
    }

    /// Sub-stats occupy the leading positions with no gaps: an empty
    /// position is followed only by empty positions.
    pub open spec fn sub_stats_contiguous(&self) -> bool {
        forall|p: int, q: int|
            1 <= p < q <= 4 && self.sub_stat(p) is None ==> self.sub_stat(q) is None
    }

    /// Assembles an artifact from resolved fragments: the sub-stats are
    /// laid out in presentation order, filling positions contiguously.
    pub fn new(
        set_name: ArtifactSetName,
        slot: ArtifactSlot,
        star: u32,
        level: u32,
        main_stat: ArtifactStat,
        sub_stats: &Vec<ArtifactStat>,
        equip: Option<String>,
    ) -> (a: InternalArtifact)
        requires
            sub_stats@.len() <= 4,
        ensures
            a.set_name == set_name,
            a.slot == slot,
            a.star == star,
            a.level == level,
            a.main_stat == main_stat,
            forall|p: int|
                1 <= p <= 4 ==> a.sub_stat(p) == if p <= sub_stats@.len() {
                    Option::Some(sub_stats@[p - 1])
                } else {
                    Option::None::<ArtifactStat>
                },
            equip_eq(a.equip, equip),
            a.sub_stats_contiguous(),
    {
        let n = sub_stats.len();
        InternalArtifact {
            set_name,
            slot,
            star,
            level,
            main_stat,
            sub_stat_1: if n >= 1 {
                Option::Some(sub_stats[0])
            } else {
                Option::None
            },
            sub_stat_2: if n >= 2 {
                Option::Some(sub_stats[1])
            } else {
                Option::None
            },
            sub_stat_3: if n >= 3 {
                Option::Some(sub_stats[2])
            } else {
                Option::None
            },
            sub_stat_4: if n >= 4 {
                Option::Some(sub_stats[3])
            } else {
                Option::None
            },
            equip,
        }
    }
}

impl PartialEq for InternalArtifact {
    fn eq(&self, other: &InternalArtifact) -> (r: bool) {
        let fields_eq = self.set_name == other.set_name && self.slot == other.slot && self.star
            == other.star && self.level == other.level && self.main_stat == other.main_stat
            && option_stat_eq(&self.sub_stat_1, &other.sub_stat_1) && option_stat_eq(
            &self.sub_stat_2,
            &other.sub_stat_2,
        ) && option_stat_eq(&self.sub_stat_3, &other.sub_stat_3) && option_stat_eq(
            &self.sub_stat_4,
            &other.sub_stat_4,
        );
        fields_eq && match (&self.equip, &other.equip) {
            (Option::None, Option::None) => true,
            (Option::Some(x), Option::Some(y)) => *x == *y,
            _ => false,
        }
    }
}

impl vstd::std_specs::cmp::PartialEqSpecImpl for InternalArtifact {
    open spec fn obeys_eq_spec() -> bool {
        true
    }

    open spec fn eq_spec(&self, other: &InternalArtifact) -> bool {
        artifact_eq(self, other)
    }
}

impl Eq for InternalArtifact {}

fn option_stat_eq(a: &Option<ArtifactStat>, b: &Option<ArtifactStat>) -> (r: bool)
    ensures
        r == (a == b),
{
    match (a, b) {
        (Option::None, Option::None) => true,
        (Option::Some(x), Option::Some(y)) => x == y,
        _ => false,
    }
}

} // verus!
