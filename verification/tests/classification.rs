use artifact_parse::classify::{ArtifactSetName, ArtifactSlot};
use artifact_parse::corrector::get_real_artifact_name_chs;

#[test]
fn prayer_names_classify_to_crown_and_distinct_sets() {
    let names = ["祭水礼冠", "祭火礼冠", "祭雷礼冠", "祭冰礼冠"];
    let expected = [
        ArtifactSetName::PrayersForDestiny,
        ArtifactSetName::PrayersForIllumination,
        ArtifactSetName::PrayersForWisdom,
        ArtifactSetName::PrayersToSpringtime,
    ];
    for (name, set) in names.iter().zip(expected.iter()) {
        assert_eq!(ArtifactSlot::from_zh_cn(name), Some(ArtifactSlot::Head));
        assert_eq!(ArtifactSetName::from_zh_cn(name), Some(*set));
    }
    for i in 0..expected.len() {
        for j in 0..i {
            assert_ne!(expected[i], expected[j]);
        }
    }
}

#[test]
fn full_set_classifies_across_all_five_slots() {
    let pieces = [
        ("磐陀裂生之花", ArtifactSlot::Flower),
        ("嵯峨群峰之翼", ArtifactSlot::Feather),
        ("星罗圭壁之晷", ArtifactSlot::Sand),
        ("巉岩琢塑之樽", ArtifactSlot::Goblet),
        ("不动玄石之相", ArtifactSlot::Head),
    ];
    for (name, slot) in pieces.iter() {
        assert_eq!(
            ArtifactSetName::from_zh_cn(name),
            Some(ArtifactSetName::ArchaicPetra)
        );
        assert_eq!(ArtifactSlot::from_zh_cn(name), Some(*slot));
    }
}

#[test]
fn variant_spellings_classify_identically() {
    for name in ["星罗圭壁之晷", "星罗圭璧之晷"] {
        assert_eq!(
            ArtifactSetName::from_zh_cn(name),
            Some(ArtifactSetName::ArchaicPetra)
        );
        assert_eq!(ArtifactSlot::from_zh_cn(name), Some(ArtifactSlot::Sand));
    }
    for name in ["终幕的时计", "终末的时计"] {
        assert_eq!(
            ArtifactSetName::from_zh_cn(name),
            Some(ArtifactSetName::WandererTroupe)
        );
        assert_eq!(ArtifactSlot::from_zh_cn(name), Some(ArtifactSlot::Sand));
    }
}

#[test]
fn unknown_name_is_unresolved() {
    assert_eq!(ArtifactSetName::from_zh_cn("不存在的名字"), None);
    assert_eq!(ArtifactSlot::from_zh_cn("不存在的名字"), None);
    assert_eq!(ArtifactSetName::from_zh_cn(""), None);
    assert_eq!(ArtifactSlot::from_zh_cn(""), None);
}

#[test]
fn classification_is_stable_across_calls() {
    for _ in 0..3 {
        assert_eq!(
            ArtifactSetName::from_zh_cn("宗室之花"),
            Some(ArtifactSetName::NoblesseOblige)
        );
        assert_eq!(ArtifactSlot::from_zh_cn("宗室之花"), Some(ArtifactSlot::Flower));
    }
}

#[test]
fn corrected_garble_classifies() {
    let corrected = get_real_artifact_name_chs("宗室银瓶").unwrap();
    assert_eq!(corrected, "宗室银瓮");
    assert_eq!(
        ArtifactSetName::from_zh_cn(&corrected),
        Some(ArtifactSetName::NoblesseOblige)
    );
    assert_eq!(
        ArtifactSlot::from_zh_cn(&corrected),
        Some(ArtifactSlot::Goblet)
    );
}
