//! The closed stat vocabulary, the quantized stat value, and the parser
//! that turns one localized `label+value[%]` line into a typed stat.

use vstd::prelude::*;

use crate::number::{
    count_char, first_occurrence, int_digits_ok, micro_of, parse_value_micro, valid_number,
};
use crate::text::{contains_char, str_eq};

verus! {

/// The closed set of stat kinds an artifact line can carry.
#[derive(Debug, Hash, Clone, Copy, PartialEq, Eq, Structural)]
pub enum ArtifactStatName {
    HealingBonus,
    CriticalDamage,
    Critical,
    Atk,
    AtkPercentage,
    ElementalMastery,
    Recharge,
    HpPercentage,
    Hp,
    DefPercentage,
    Def,
    ElectroBonus,
    PyroBonus,
    HydroBonus,
    CryoBonus,
    AnemoBonus,
    GeoBonus,
    PhysicalBonus,
}

/// Why a stat line failed to resolve.
#[derive(Debug, Hash, Clone, Copy, PartialEq, Eq, Structural)]
pub enum StatLineError {
    /// The line does not split into exactly a label and a value.
    MalformedStatLine,
    /// The label is not in the closed vocabulary.
    UnresolvedLabel,
    /// The value does not read as a decimal number of supported size.
    NumericParseFailure,
}

/// The label table: an exact-match lookup, where the percent flag picks
/// between the flat and percent variants of the three ambiguous labels.
pub open spec fn stat_name_of(label: Seq<char>, is_percentage: bool) -> Option<
    ArtifactStatName,
> {
    if label == "治疗加成"@ {
        Some(ArtifactStatName::HealingBonus)
    } else if label == "暴击伤害"@ {
        Some(ArtifactStatName::CriticalDamage)
    } else if label == "暴击率"@ {
        Some(ArtifactStatName::Critical)
    } else if label == "攻击力"@ {
        if is_percentage {
            Some(ArtifactStatName::AtkPercentage)
        } else {
            Some(ArtifactStatName::Atk)
        }
    } else if label == "元素精通"@ {
        Some(ArtifactStatName::ElementalMastery)
    } else if label == "元素充能效率"@ {
        Some(ArtifactStatName::Recharge)
    } else if label == "生命值"@ {
        if is_percentage {
            Some(ArtifactStatName::HpPercentage)
        } else {
            Some(ArtifactStatName::Hp)
        }
    } else if label == "防御力"@ {
        if is_percentage {
            Some(ArtifactStatName::DefPercentage)
        } else {
            Some(ArtifactStatName::Def)
        }
    } else if label == "雷元素伤害加成"@ {
        Some(ArtifactStatName::ElectroBonus)
    } else if label == "火元素伤害加成"@ {
        Some(ArtifactStatName::PyroBonus)
    } else if label == "水元素伤害加成"@ {
        Some(ArtifactStatName::HydroBonus)
    } else if label == "冰元素伤害加成"@ {
        Some(ArtifactStatName::CryoBonus)
    } else if label == "风元素伤害加成"@ {
        Some(ArtifactStatName::AnemoBonus)
    } else if label == "岩元素伤害加成"@ {
        Some(ArtifactStatName::GeoBonus)
    } else if label == "物理伤害加成"@ {
        Some(ArtifactStatName::PhysicalBonus)
    } else {
        None
    }
}

impl ArtifactStatName {
    /// Resolves a label from the source locale against the closed
    /// vocabulary by exact string equality.
    pub fn from_zh_cn(name: &str, is_percentage: bool) -> (r: Option<ArtifactStatName>)
        ensures
            r == stat_name_of(name@, is_percentage),
    {
        if str_eq(name, "治疗加成") {
            Some(ArtifactStatName::HealingBonus)
        } else if str_eq(name, "暴击伤害") {
            Some(ArtifactStatName::CriticalDamage)
        } else if str_eq(name, "暴击率") {
            Some(ArtifactStatName::Critical)
        } else if str_eq(name, "攻击力") {
            if is_percentage {
                Some(ArtifactStatName::AtkPercentage)
            } else {
                Some(ArtifactStatName::Atk)
            }
        } else if str_eq(name, "元素精通") {
            Some(ArtifactStatName::ElementalMastery)
        } else if str_eq(name, "元素充能效率") {
            Some(ArtifactStatName::Recharge)
        } else if str_eq(name, "生命值") {
            if is_percentage {
                Some(ArtifactStatName::HpPercentage)
            } else {
                Some(ArtifactStatName::Hp)
            }
        } else if str_eq(name, "防御力") {
            if is_percentage {
                Some(ArtifactStatName::DefPercentage)
            } else {
                Some(ArtifactStatName::Def)
            }
        } else if str_eq(name, "雷元素伤害加成") {
            Some(ArtifactStatName::ElectroBonus)
        } else if str_eq(name, "火元素伤害加成") {
            Some(ArtifactStatName::PyroBonus)
        } else if str_eq(name, "水元素伤害加成") {
            Some(ArtifactStatName::HydroBonus)
        } else if str_eq(name, "冰元素伤害加成") {
            Some(ArtifactStatName::CryoBonus)
        } else if str_eq(name, "风元素伤害加成") {
            Some(ArtifactStatName::AnemoBonus)
        } else if str_eq(name, "岩元素伤害加成") {
            Some(ArtifactStatName::GeoBonus)
        } else if str_eq(name, "物理伤害加成") {
            Some(ArtifactStatName::PhysicalBonus)
        } else {
            None
        }
    }
}

/// One resolved stat. The value is stored already quantized to
/// millesimal units (the displayed number times one thousand, truncated
/// toward zero; a percent-denominated stat stores the fraction, so a
/// displayed `10%` is 100 milli). Equality and hashing are therefore
/// field equality: two stats whose underlying numbers agree after
/// quantization are one value.
#[derive(Debug, Hash, Clone, Copy, PartialEq, Eq, Structural)]
pub struct ArtifactStat {
    pub name: ArtifactStatName,
    pub value_milli: u64,
}

/// The stat built from a raw value in micro units: quantization
/// truncates micro units to milli units.
pub open spec fn quantized_stat(name: ArtifactStatName, value_micro: u64) -> ArtifactStat {
    ArtifactStat { name, value_milli: (value_micro / 1000) as u64 }
}

/// A character kept when reading the number out of the value segment:
/// everything but the percent marker and the group separator.
pub open spec fn keeps(c: char) -> bool {
    c != '%' && c != ','
}

/// The keep test as one shared predicate value, so that every filter in
/// the contracts speaks of the same function.
pub open spec fn keep_pred() -> spec_fn(char) -> bool {
    |c: char| keeps(c)
}

/// What parsing one raw stat line yields, stated over the view of the
/// input. The line must hold exactly one separator; percent-ness is the
/// presence of a percent marker in the value segment; the label resolves
/// through the vocabulary table; the value, stripped of percent markers
/// and group separators, must read as a decimal number.
pub open spec fn parse_line_spec(s: Seq<char>) -> Result<ArtifactStat, StatLineError> {
    if count_char(s, '+') != 1 {
        Err(StatLineError::MalformedStatLine)
    } else {
        let p = first_occurrence(s, '+');
        let label = s.take(p);
        let value = s.skip(p + 1);
        let pct = value.contains('%');
        match stat_name_of(label, pct) {
            None => Err(StatLineError::UnresolvedLabel),
            Some(name) => {
                let t = value.filter(keep_pred());
                if valid_number(t) && int_digits_ok(t) {
                    Ok(ArtifactStat { name, value_milli: (micro_of(t, pct) / 1000) as u64 })
                } else {
                    Err(StatLineError::NumericParseFailure)
                }
            },
        }
    }
}

impl ArtifactStat {
    /// Quantizes a raw micro-unit value into a stat.
    pub fn new(name: ArtifactStatName, value_micro: u64) -> (s: ArtifactStat)
        ensures
            s == quantized_stat(name, value_micro),
    {
        ArtifactStat { name, value_milli: value_micro / 1000 }
    }

    /// Parses one raw stat line of the shape `label+value[%]`, e.g.
    /// `"生命值+4,123"` or `"暴击率+10%"`.
    pub fn from_zh_cn_raw(s: &str) -> (r: Result<ArtifactStat, StatLineError>)
        ensures
            r == parse_line_spec(s@),
    {
        let (plus_count, plus_at) = count_and_find(s, '+');
        if plus_count != 1 {
            return Err(StatLineError::MalformedStatLine);
        }
        let ghost p = first_occurrence(s@, '+');
        proof {
            crate::number::lemma_first_occurrence(s@, '+');
            crate::number::lemma_count_char_contains(s@, '+');
            assert(s@.contains('+'));
            if p == s@.len() {
                let w = choose|w: int| 0 <= w < s@.len() && s@[w] == '+';
                assert(false);
            }
        }
        let n = s.unicode_len();
        let label = s.substring_char(0, plus_at);
        let value = s.substring_char(plus_at + 1, n);
        proof {
            assert(label@ =~= s@.take(p));
            assert(value@ =~= s@.skip(p + 1));
        }
        let pct = contains_char(value, '%');
        let name = match ArtifactStatName::from_zh_cn(label, pct) {
            Some(v) => v,
            None => {
                return Err(StatLineError::UnresolvedLabel);
            },
        };
        let stripped = strip_markers(value);
        match parse_value_micro(&stripped, pct) {
            Some(micro) => Ok(ArtifactStat::new(name, micro)),
            None => Err(StatLineError::NumericParseFailure),
        }
    }
}

/// Counts the occurrences of `c` and reports the first one (or the
/// length when there is none).
#[verifier::loop_isolation(false)]
fn count_and_find(s: &str, c: char) -> (r: (usize, usize))
    ensures
        r.0 == count_char(s@, c),
        r.1 == first_occurrence(s@, c),
{
    proof {
        crate::number::lemma_first_occurrence(s@, c);
    }
    let n = s.unicode_len();
    let mut count: usize = 0;
    let mut first: usize = n;
    let mut i: usize = 0;
    proof {
        assert(s@.take(0) =~= Seq::<char>::empty());
    }
    while i < n
        invariant
            0 <= i <= n,
            count == count_char(s@.take(i as int), c),
            count <= i,
            if first_occurrence(s@, c) < i {
                first == first_occurrence(s@, c)
            } else {
                first == n
            },
        decreases n - i,
    {
        let ch = s.get_char(i);
        proof {
            assert(s@.take(i + 1).drop_last() =~= s@.take(i as int));
            assert(s@.take(i + 1).last() == s@[i as int]);
        }
        if ch == c {
            if first == n {
                proof {
                    assert(i == first_occurrence(s@, c));
                }
                first = i;
            }
            count = count + 1;
        }
        i = i + 1;
    }
    proof {
        assert(s@.take(n as int) =~= s@);
    }
    (count, first)
}

/// Removes every percent marker and group separator from the value
/// segment, keeping the remaining characters in order.
#[verifier::loop_isolation(false)]
fn strip_markers(s: &str) -> (v: Vec<char>)
    ensures
        v@ == s@.filter(keep_pred()),
{
    let n = s.unicode_len();
    let mut v: Vec<char> = Vec::new();
    let mut i: usize = 0;
    proof {
        reveal(Seq::filter);
        assert(s@.take(0) =~= Seq::<char>::empty());
    }
    while i < n
        invariant
            0 <= i <= n,
            v@ == s@.take(i as int).filter(keep_pred()),
        decreases n - i,
    {
        let ch = s.get_char(i);
        proof {
            reveal(Seq::filter);
            assert(s@.take(i + 1).drop_last() =~= s@.take(i as int));
            assert(s@.take(i + 1).last() == s@[i as int]);
        }
        if !(ch == '%' || ch == ',') {
            v.push(ch);
        }
        i = i + 1;
    }
    proof {
        assert(s@.take(n as int) =~= s@);
    }
    v
}

/// Quantization idempotence: two stats built from raw micro values are
/// one value exactly when their micro values agree after truncation to
/// milli units, whatever sub-quantum difference the raw values carry.
pub proof fn lemma_stat_equality_quantization(
    name: ArtifactStatName,
    micro_a: u64,
    micro_b: u64,
)
    ensures
        (quantized_stat(name, micro_a) == quantized_stat(name, micro_b)) <==> (micro_a / 1000
            == micro_b / 1000),
{
}

} // verus!
