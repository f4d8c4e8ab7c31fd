use artifact_parse::corrector::get_real_artifact_name_chs;

#[test]
fn exact_canonical_name_returns_itself() {
    assert_eq!(
        get_real_artifact_name_chs("磐陀裂生之花"),
        Some(String::from("磐陀裂生之花"))
    );
    assert_eq!(
        get_real_artifact_name_chs("无常之面"),
        Some(String::from("无常之面"))
    );
}

#[test]
fn exact_variant_spelling_returns_itself() {
    // The two variant spellings are both corpus entries one apart; the
    // exact query still matches uniquely at distance zero.
    assert_eq!(
        get_real_artifact_name_chs("星罗圭壁之晷"),
        Some(String::from("星罗圭壁之晷"))
    );
    assert_eq!(
        get_real_artifact_name_chs("星罗圭璧之晷"),
        Some(String::from("星罗圭璧之晷"))
    );
}

#[test]
fn one_character_garble_is_corrected() {
    // One altered character, no other entry equally close: the garbled
    // input must come back as the canonical spelling, not unchanged.
    assert_eq!(
        get_real_artifact_name_chs("角斗士的留念"),
        Some(String::from("角斗士的留恋"))
    );
}

#[test]
fn equidistant_query_is_ambiguous() {
    // One deletion away from both "终幕的时计" and "终末的时计".
    assert_eq!(get_real_artifact_name_chs("终的时计"), None);
}
