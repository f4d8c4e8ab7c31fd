use std::collections::hash_map::DefaultHasher;
use std::hash::{Hash, Hasher};

use artifact_parse::stat::{ArtifactStat, ArtifactStatName};

fn hash_of(s: &ArtifactStat) -> u64 {
    let mut h = DefaultHasher::new();
    s.hash(&mut h);
    h.finish()
}

#[test]
fn same_millesimal_is_equal_and_hashes_alike() {
    // 100999 and 100000 micro both truncate to 100 milli.
    let a = ArtifactStat::new(ArtifactStatName::Critical, 100_999);
    let b = ArtifactStat::new(ArtifactStatName::Critical, 100_000);
    assert_eq!(a, b);
    assert_eq!(hash_of(&a), hash_of(&b));
}

#[test]
fn different_millesimal_is_unequal() {
    let a = ArtifactStat::new(ArtifactStatName::Critical, 100_000);
    let b = ArtifactStat::new(ArtifactStatName::Critical, 101_000);
    assert_ne!(a, b);
}

#[test]
fn different_kind_is_unequal() {
    let a = ArtifactStat::new(ArtifactStatName::Atk, 100_000);
    let b = ArtifactStat::new(ArtifactStatName::AtkPercentage, 100_000);
    assert_ne!(a, b);
}

#[test]
fn parsed_lines_with_sub_quantum_difference_are_one_value() {
    let a = ArtifactStat::from_zh_cn_raw("暴击伤害+62.2%").unwrap();
    let b = ArtifactStat::from_zh_cn_raw("暴击伤害+62.2000%").unwrap();
    assert_eq!(a, b);
    assert_eq!(hash_of(&a), hash_of(&b));
    assert_eq!(a.value_milli, 622);
}
