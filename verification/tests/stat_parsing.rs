use artifact_parse::stat::{ArtifactStat, ArtifactStatName, StatLineError};

#[test]
fn critical_rate_percent_line() {
    let s = ArtifactStat::from_zh_cn_raw("暴击率+10%").unwrap();
    assert_eq!(s.name, ArtifactStatName::Critical);
    assert_eq!(s.value_milli, 100);
}

#[test]
fn flat_hp_with_group_separator() {
    let s = ArtifactStat::from_zh_cn_raw("生命值+4,123").unwrap();
    assert_eq!(s.name, ArtifactStatName::Hp);
    assert_eq!(s.value_milli, 4_123_000);
}

#[test]
fn def_percent_and_flat_def_disambiguation() {
    let p = ArtifactStat::from_zh_cn_raw("防御力+10%").unwrap();
    assert_eq!(p.name, ArtifactStatName::DefPercentage);
    assert_eq!(p.value_milli, 100);
    let f = ArtifactStat::from_zh_cn_raw("防御力+50").unwrap();
    assert_eq!(f.name, ArtifactStatName::Def);
    assert_eq!(f.value_milli, 50_000);
}

#[test]
fn atk_and_hp_percent_variants() {
    let a = ArtifactStat::from_zh_cn_raw("攻击力+46.6%").unwrap();
    assert_eq!(a.name, ArtifactStatName::AtkPercentage);
    assert_eq!(a.value_milli, 466);
    let h = ArtifactStat::from_zh_cn_raw("生命值+46.6%").unwrap();
    assert_eq!(h.name, ArtifactStatName::HpPercentage);
    assert_eq!(h.value_milli, 466);
}

#[test]
fn recharge_fractional_percent() {
    let s = ArtifactStat::from_zh_cn_raw("元素充能效率+16.2%").unwrap();
    assert_eq!(s.name, ArtifactStatName::Recharge);
    assert_eq!(s.value_milli, 162);
}

#[test]
fn elemental_mastery_flat() {
    let s = ArtifactStat::from_zh_cn_raw("元素精通+187").unwrap();
    assert_eq!(s.name, ArtifactStatName::ElementalMastery);
    assert_eq!(s.value_milli, 187_000);
}

#[test]
fn missing_separator_is_malformed() {
    assert_eq!(
        ArtifactStat::from_zh_cn_raw("攻击力10"),
        Err(StatLineError::MalformedStatLine)
    );
}

#[test]
fn two_separators_are_malformed() {
    assert_eq!(
        ArtifactStat::from_zh_cn_raw("攻击力+10+5"),
        Err(StatLineError::MalformedStatLine)
    );
}

#[test]
fn unknown_label_is_unresolved() {
    assert_eq!(
        ArtifactStat::from_zh_cn_raw("会心率+10%"),
        Err(StatLineError::UnresolvedLabel)
    );
}

#[test]
fn bad_number_is_numeric_parse_failure() {
    assert_eq!(
        ArtifactStat::from_zh_cn_raw("攻击力+abc"),
        Err(StatLineError::NumericParseFailure)
    );
    assert_eq!(
        ArtifactStat::from_zh_cn_raw("攻击力+1.2.3"),
        Err(StatLineError::NumericParseFailure)
    );
    assert_eq!(
        ArtifactStat::from_zh_cn_raw("攻击力+"),
        Err(StatLineError::NumericParseFailure)
    );
    assert_eq!(
        ArtifactStat::from_zh_cn_raw("攻击力+."),
        Err(StatLineError::NumericParseFailure)
    );
}

#[test]
fn oversized_number_is_numeric_parse_failure() {
    assert_eq!(
        ArtifactStat::from_zh_cn_raw("生命值+1000000000000"),
        Err(StatLineError::NumericParseFailure)
    );
}

#[test]
fn truncation_beyond_milli_precision() {
    // Extra fractional digits beyond the quantum are dropped, toward zero.
    let a = ArtifactStat::from_zh_cn_raw("暴击率+10.0009%").unwrap();
    let b = ArtifactStat::from_zh_cn_raw("暴击率+10%").unwrap();
    assert_eq!(a, b);
    assert_eq!(a.value_milli, 100);
}

#[test]
fn vocabulary_is_exact_match_only() {
    assert_eq!(
        ArtifactStatName::from_zh_cn("治疗加成", false),
        Some(ArtifactStatName::HealingBonus)
    );
    assert_eq!(
        ArtifactStatName::from_zh_cn("物理伤害加成", false),
        Some(ArtifactStatName::PhysicalBonus)
    );
    assert_eq!(ArtifactStatName::from_zh_cn("治疗", false), None);
    assert_eq!(ArtifactStatName::from_zh_cn("", true), None);
}

#[test]
fn percent_flag_selects_variant() {
    assert_eq!(
        ArtifactStatName::from_zh_cn("攻击力", true),
        Some(ArtifactStatName::AtkPercentage)
    );
    assert_eq!(
        ArtifactStatName::from_zh_cn("攻击力", false),
        Some(ArtifactStatName::Atk)
    );
    assert_eq!(
        ArtifactStatName::from_zh_cn("生命值", true),
        Some(ArtifactStatName::HpPercentage)
    );
    assert_eq!(
        ArtifactStatName::from_zh_cn("生命值", false),
        Some(ArtifactStatName::Hp)
    );
}
