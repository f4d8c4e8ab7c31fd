use artifact_parse::artifact::InternalArtifact;
use artifact_parse::classify::{ArtifactSetName, ArtifactSlot};
use artifact_parse::stat::{ArtifactStat, ArtifactStatName};

fn sample_subs() -> Vec<ArtifactStat> {
    vec![
        ArtifactStat::from_zh_cn_raw("暴击率+3.9%").unwrap(),
        ArtifactStat::from_zh_cn_raw("攻击力+19").unwrap(),
    ]
}

#[test]
fn assembler_fills_positions_contiguously() {
    let main = ArtifactStat::from_zh_cn_raw("生命值+4,780").unwrap();
    let a = InternalArtifact::new(
        ArtifactSetName::EmblemOfSeveredFate,
        ArtifactSlot::Flower,
        5,
        20,
        main,
        &sample_subs(),
        None,
    );
    assert_eq!(a.main_stat.name, ArtifactStatName::Hp);
    assert_eq!(a.main_stat.value_milli, 4_780_000);
    assert!(a.sub_stat_1.is_some());
    assert!(a.sub_stat_2.is_some());
    assert!(a.sub_stat_3.is_none());
    assert!(a.sub_stat_4.is_none());
    assert_eq!(a.sub_stat_1.unwrap().name, ArtifactStatName::Critical);
    assert_eq!(a.sub_stat_2.unwrap().name, ArtifactStatName::Atk);
}

#[test]
fn assembler_with_no_subs_leaves_all_empty() {
    let main = ArtifactStat::from_zh_cn_raw("暴击率+31.1%").unwrap();
    let a = InternalArtifact::new(
        ArtifactSetName::CrimsonWitch,
        ArtifactSlot::Head,
        5,
        0,
        main,
        &Vec::new(),
        Some(String::from("hutao")),
    );
    assert!(a.sub_stat_1.is_none());
    assert!(a.sub_stat_4.is_none());
    assert_eq!(a.equip.as_deref(), Some("hutao"));
}

#[test]
fn artifact_equality_is_field_wise() {
    let main = ArtifactStat::from_zh_cn_raw("生命值+4,780").unwrap();
    let a = InternalArtifact::new(
        ArtifactSetName::PaleFlame,
        ArtifactSlot::Flower,
        5,
        20,
        main,
        &sample_subs(),
        Some(String::from("eula")),
    );
    let b = InternalArtifact::new(
        ArtifactSetName::PaleFlame,
        ArtifactSlot::Flower,
        5,
        20,
        main,
        &sample_subs(),
        Some(String::from("eula")),
    );
    assert_eq!(a, b);
    let c = InternalArtifact::new(
        ArtifactSetName::PaleFlame,
        ArtifactSlot::Flower,
        5,
        20,
        main,
        &sample_subs(),
        None,
    );
    assert_ne!(a, c);
    let mut d = b.clone();
    d.level = 16;
    assert_ne!(a, d);
}

#[test]
fn equal_artifacts_with_sub_quantum_stat_difference() {
    let main1 = ArtifactStat::from_zh_cn_raw("防御力+8.7%").unwrap();
    let main2 = ArtifactStat::from_zh_cn_raw("防御力+8.7000%").unwrap();
    let a = InternalArtifact::new(
        ArtifactSetName::HeartOfDepth,
        ArtifactSlot::Goblet,
        4,
        12,
        main1,
        &Vec::new(),
        None,
    );
    let b = InternalArtifact::new(
        ArtifactSetName::HeartOfDepth,
        ArtifactSlot::Goblet,
        4,
        12,
        main2,
        &Vec::new(),
        None,
    );
    assert_eq!(a, b);
}
