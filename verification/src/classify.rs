//! Classification of canonical names into their equipment set and
//! slot, through two total lookup tables keyed by the corpus.

use vstd::prelude::*;

use crate::corpus::{corpus_at, lemma_corpus_entry, name_id, name_index, CORPUS_LEN};

verus! {

broadcast use vstd::string::group_string_axioms;

/// The closed set of equipment-set identifiers.
#[derive(Debug, Hash, Clone, Copy, PartialEq, Eq, Structural)]
pub enum ArtifactSetName {
    ArchaicPetra,
    HeartOfDepth,
    BlizzardStrayer,
    RetracingBolide,
    NoblesseOblige,
    GladiatorFinale,
    MaidenBeloved,
    ViridescentVenerer,
    LavaWalker,
    CrimsonWitch,
    ThunderSmoother,
    ThunderingFury,
    BloodstainedChivalry,
    WandererTroupe,
    Scholar,
    Gambler,
    TinyMiracle,
    MartialArtist,
    BraveHeart,
    ResolutionOfSojourner,
    DefenderWill,
    Berserker,
    Instructor,
    Exile,
    Adventurer,
    LuckyDog,
    TravelingDoctor,
    PrayersForWisdom,
    PrayersToSpringtime,
    PrayersForIllumination,
    PrayersForDestiny,
    PaleFlame,
    TenacityOfTheMillelith,
    EmblemOfSeveredFate,
    ShimenawaReminiscence,
}

/// The closed set of equipment-slot identifiers.
#[derive(Debug, Hash, Clone, Copy, PartialEq, Eq, Structural)]
pub enum ArtifactSlot {
    Flower,
    Feather,
    Sand,
    Goblet,
    Head,
}

/// The equipment set of the corpus entry at each index.
pub open spec fn set_at(i: int) -> ArtifactSetName {
    if i == 0 {
        ArtifactSetName::ArchaicPetra
    } else if i == 1 {
        ArtifactSetName::ArchaicPetra
    } else if i == 2 {
        ArtifactSetName::ArchaicPetra
    } else if i == 3 {
        ArtifactSetName::ArchaicPetra
    } else if i == 4 {
        ArtifactSetName::ArchaicPetra
    } else if i == 5 {
        ArtifactSetName::ArchaicPetra
    } else if i == 6 {
        ArtifactSetName::BlizzardStrayer
    } else if i == 7 {
        ArtifactSetName::BlizzardStrayer
    } else if i == 8 {
        ArtifactSetName::BlizzardStrayer
    } else if i == 9 {
        ArtifactSetName::BlizzardStrayer
    } else if i == 10 {
        ArtifactSetName::BlizzardStrayer
    } else if i == 11 {
        ArtifactSetName::BloodstainedChivalry
    } else if i == 12 {
        ArtifactSetName::BloodstainedChivalry
    } else if i == 13 {
        ArtifactSetName::BloodstainedChivalry
    } else if i == 14 {
        ArtifactSetName::BloodstainedChivalry
    } else if i == 15 {
        ArtifactSetName::BloodstainedChivalry
    } else if i == 16 {
        ArtifactSetName::CrimsonWitch
    } else if i == 17 {
        ArtifactSetName::CrimsonWitch
    } else if i == 18 {
        ArtifactSetName::CrimsonWitch
    } else if i == 19 {
        ArtifactSetName::CrimsonWitch
    } else if i == 20 {
        ArtifactSetName::CrimsonWitch
    } else if i == 21 {
        ArtifactSetName::GladiatorFinale
    } else if i == 22 {
        ArtifactSetName::GladiatorFinale
    } else if i == 23 {
        ArtifactSetName::GladiatorFinale
    } else if i == 24 {
        ArtifactSetName::GladiatorFinale
    } else if i == 25 {
        ArtifactSetName::GladiatorFinale
    } else if i == 26 {
        ArtifactSetName::HeartOfDepth
    } else if i == 27 {
        ArtifactSetName::HeartOfDepth
    } else if i == 28 {
        ArtifactSetName::HeartOfDepth
    } else if i == 29 {
        ArtifactSetName::HeartOfDepth
    } else if i == 30 {
        ArtifactSetName::HeartOfDepth
    } else if i == 31 {
        ArtifactSetName::LavaWalker
    } else if i == 32 {
        ArtifactSetName::LavaWalker
    } else if i == 33 {
        ArtifactSetName::LavaWalker
    } else if i == 34 {
        ArtifactSetName::LavaWalker
    } else if i == 35 {
        ArtifactSetName::LavaWalker
    } else if i == 36 {
        ArtifactSetName::MaidenBeloved
    } else if i == 37 {
        ArtifactSetName::MaidenBeloved
    } else if i == 38 {
        ArtifactSetName::MaidenBeloved
    } else if i == 39 {
        ArtifactSetName::MaidenBeloved
    } else if i == 40 {
        ArtifactSetName::MaidenBeloved
    } else if i == 41 {
        ArtifactSetName::NoblesseOblige
    } else if i == 42 {
        ArtifactSetName::NoblesseOblige
    } else if i == 43 {
        ArtifactSetName::NoblesseOblige
    } else if i == 44 {
        ArtifactSetName::NoblesseOblige
    } else if i == 45 {
        ArtifactSetName::NoblesseOblige
    } else if i == 46 {
        ArtifactSetName::RetracingBolide
    } else if i == 47 {
        ArtifactSetName::RetracingBolide
    } else if i == 48 {
        ArtifactSetName::RetracingBolide
    } else if i == 49 {
        ArtifactSetName::RetracingBolide
    } else if i == 50 {
        ArtifactSetName::RetracingBolide
    } else if i == 51 {
        ArtifactSetName::ThunderSmoother
    } else if i == 52 {
        ArtifactSetName::ThunderSmoother
    } else if i == 53 {
        ArtifactSetName::ThunderSmoother
    } else if i == 54 {
        ArtifactSetName::ThunderSmoother
    } else if i == 55 {
        ArtifactSetName::ThunderSmoother
    } else if i == 56 {
        ArtifactSetName::ThunderingFury
    } else if i == 57 {
        ArtifactSetName::ThunderingFury
    } else if i == 58 {
        ArtifactSetName::ThunderingFury
    } else if i == 59 {
        ArtifactSetName::ThunderingFury
    } else if i == 60 {
        ArtifactSetName::ThunderingFury
    } else if i == 61 {
        ArtifactSetName::ViridescentVenerer
    } else if i == 62 {
        ArtifactSetName::ViridescentVenerer
    } else if i == 63 {
        ArtifactSetName::ViridescentVenerer
    } else if i == 64 {
        ArtifactSetName::ViridescentVenerer
    } else if i == 65 {
        ArtifactSetName::ViridescentVenerer
    } else if i == 66 {
        ArtifactSetName::WandererTroupe
    } else if i == 67 {
        ArtifactSetName::WandererTroupe
    } else if i == 68 {
        ArtifactSetName::WandererTroupe
    } else if i == 69 {
        ArtifactSetName::WandererTroupe
    } else if i == 70 {
        ArtifactSetName::WandererTroupe
    } else if i == 71 {
        ArtifactSetName::WandererTroupe
    } else if i == 72 {
        ArtifactSetName::Berserker
    } else if i == 73 {
        ArtifactSetName::Berserker
    } else if i == 74 {
        ArtifactSetName::Berserker
    } else if i == 75 {
        ArtifactSetName::Berserker
    } else if i == 76 {
        ArtifactSetName::Berserker
    } else if i == 77 {
        ArtifactSetName::BraveHeart
    } else if i == 78 {
        ArtifactSetName::BraveHeart
    } else if i == 79 {
        ArtifactSetName::BraveHeart
    } else if i == 80 {
        ArtifactSetName::BraveHeart
    } else if i == 81 {
        ArtifactSetName::BraveHeart
    } else if i == 82 {
        ArtifactSetName::DefenderWill
    } else if i == 83 {
        ArtifactSetName::DefenderWill
    } else if i == 84 {
        ArtifactSetName::DefenderWill
    } else if i == 85 {
        ArtifactSetName::DefenderWill
    } else if i == 86 {
        ArtifactSetName::DefenderWill
    } else if i == 87 {
        ArtifactSetName::Exile
    } else if i == 88 {
        ArtifactSetName::Exile
    } else if i == 89 {
        ArtifactSetName::Exile
    } else if i == 90 {
        ArtifactSetName::Exile
    } else if i == 91 {
        ArtifactSetName::Exile
    } else if i == 92 {
        ArtifactSetName::Gambler
    } else if i == 93 {
        ArtifactSetName::Gambler
    } else if i == 94 {
        ArtifactSetName::Gambler
    } else if i == 95 {
        ArtifactSetName::Gambler
    } else if i == 96 {
        ArtifactSetName::Gambler
    } else if i == 97 {
        ArtifactSetName::Instructor
    } else if i == 98 {
        ArtifactSetName::Instructor
    } else if i == 99 {
        ArtifactSetName::Instructor
    } else if i == 100 {
        ArtifactSetName::Instructor
    } else if i == 101 {
        ArtifactSetName::Instructor
    } else if i == 102 {
        ArtifactSetName::MartialArtist
    } else if i == 103 {
        ArtifactSetName::MartialArtist
    } else if i == 104 {
        ArtifactSetName::MartialArtist
    } else if i == 105 {
        ArtifactSetName::MartialArtist
    } else if i == 106 {
        ArtifactSetName::MartialArtist
    } else if i == 107 {
        ArtifactSetName::PrayersForDestiny
    } else if i == 108 {
        ArtifactSetName::PrayersForIllumination
    } else if i == 109 {
        ArtifactSetName::PrayersForWisdom
    } else if i == 110 {
        ArtifactSetName::PrayersToSpringtime
    } else if i == 111 {
        ArtifactSetName::ResolutionOfSojourner
    } else if i == 112 {
        ArtifactSetName::ResolutionOfSojourner
    } else if i == 113 {
        ArtifactSetName::ResolutionOfSojourner
    } else if i == 114 {
        ArtifactSetName::ResolutionOfSojourner
    } else if i == 115 {
        ArtifactSetName::ResolutionOfSojourner
    } else if i == 116 {
        ArtifactSetName::Scholar
    } else if i == 117 {
        ArtifactSetName::Scholar
    } else if i == 118 {
        ArtifactSetName::Scholar
    } else if i == 119 {
        ArtifactSetName::Scholar
    } else if i == 120 {
        ArtifactSetName::Scholar
    } else if i == 121 {
        ArtifactSetName::TinyMiracle
    } else if i == 122 {
        ArtifactSetName::TinyMiracle
    } else if i == 123 {
        ArtifactSetName::TinyMiracle
    } else if i == 124 {
        ArtifactSetName::TinyMiracle
    } else if i == 125 {
        ArtifactSetName::TinyMiracle
    } else if i == 126 {
        ArtifactSetName::Adventurer
    } else if i == 127 {
        ArtifactSetName::Adventurer
    } else if i == 128 {
        ArtifactSetName::Adventurer
    } else if i == 129 {
        ArtifactSetName::Adventurer
    } else if i == 130 {
        ArtifactSetName::Adventurer
    } else if i == 131 {
        ArtifactSetName::LuckyDog
    } else if i == 132 {
        ArtifactSetName::LuckyDog
    } else if i == 133 {
        ArtifactSetName::LuckyDog
    } else if i == 134 {
        ArtifactSetName::LuckyDog
    } else if i == 135 {
        ArtifactSetName::LuckyDog
    } else if i == 136 {
        ArtifactSetName::TravelingDoctor
    } else if i == 137 {
        ArtifactSetName::TravelingDoctor
    } else if i == 138 {
        ArtifactSetName::TravelingDoctor
    } else if i == 139 {
        ArtifactSetName::TravelingDoctor
    } else if i == 140 {
        ArtifactSetName::TravelingDoctor
    } else if i == 141 {
        ArtifactSetName::TenacityOfTheMillelith
    } else if i == 142 {
        ArtifactSetName::TenacityOfTheMillelith
    } else if i == 143 {
        ArtifactSetName::TenacityOfTheMillelith
    } else if i == 144 {
        ArtifactSetName::TenacityOfTheMillelith
    } else if i == 145 {
        ArtifactSetName::TenacityOfTheMillelith
    } else if i == 146 {
        ArtifactSetName::PaleFlame
    } else if i == 147 {
        ArtifactSetName::PaleFlame
    } else if i == 148 {
        ArtifactSetName::PaleFlame
    } else if i == 149 {
        ArtifactSetName::PaleFlame
    } else if i == 150 {
        ArtifactSetName::PaleFlame
    } else if i == 151 {
        ArtifactSetName::EmblemOfSeveredFate
    } else if i == 152 {
        ArtifactSetName::EmblemOfSeveredFate
    } else if i == 153 {
        ArtifactSetName::EmblemOfSeveredFate
    } else if i == 154 {
        ArtifactSetName::EmblemOfSeveredFate
    } else if i == 155 {
        ArtifactSetName::EmblemOfSeveredFate
    } else if i == 156 {
        ArtifactSetName::ShimenawaReminiscence
    } else if i == 157 {
        ArtifactSetName::ShimenawaReminiscence
    } else if i == 158 {
        ArtifactSetName::ShimenawaReminiscence
    } else if i == 159 {
        ArtifactSetName::ShimenawaReminiscence
    } else {
        ArtifactSetName::ShimenawaReminiscence
    }
}

/// The equipment slot of the corpus entry at each index.
pub open spec fn slot_at(i: int) -> ArtifactSlot {
    if i == 0 {
        ArtifactSlot::Flower
    } else if i == 1 {
        ArtifactSlot::Feather
    } else if i == 2 {
        ArtifactSlot::Sand
    } else if i == 3 {
        ArtifactSlot::Sand
    } else if i == 4 {
        ArtifactSlot::Goblet
    } else if i == 5 {
        ArtifactSlot::Head
    } else if i == 6 {
        ArtifactSlot::Flower
    } else if i == 7 {
        ArtifactSlot::Feather
    } else if i == 8 {
        ArtifactSlot::Sand
    } else if i == 9 {
        ArtifactSlot::Goblet
    } else if i == 10 {
        ArtifactSlot::Head
    } else if i == 11 {
        ArtifactSlot::Flower
    } else if i == 12 {
        ArtifactSlot::Feather
    } else if i == 13 {
        ArtifactSlot::Sand
    } else if i == 14 {
        ArtifactSlot::Goblet
    } else if i == 15 {
        ArtifactSlot::Head
    } else if i == 16 {
        ArtifactSlot::Flower
    } else if i == 17 {
        ArtifactSlot::Feather
    } else if i == 18 {
        ArtifactSlot::Sand
    } else if i == 19 {
        ArtifactSlot::Goblet
    } else if i == 20 {
        ArtifactSlot::Head
    } else if i == 21 {
        ArtifactSlot::Flower
    } else if i == 22 {
        ArtifactSlot::Feather
    } else if i == 23 {
        ArtifactSlot::Sand
    } else if i == 24 {
        ArtifactSlot::Goblet
    } else if i == 25 {
        ArtifactSlot::Head
    } else if i == 26 {
        ArtifactSlot::Flower
    } else if i == 27 {
        ArtifactSlot::Feather
    } else if i == 28 {
        ArtifactSlot::Sand
    } else if i == 29 {
        ArtifactSlot::Goblet
    } else if i == 30 {
        ArtifactSlot::Head
    } else if i == 31 {
        ArtifactSlot::Flower
    } else if i == 32 {
        ArtifactSlot::Feather
    } else if i == 33 {
        ArtifactSlot::Sand
    } else if i == 34 {
        ArtifactSlot::Goblet
    } else if i == 35 {
        ArtifactSlot::Head
    } else if i == 36 {
        ArtifactSlot::Flower
    } else if i == 37 {
        ArtifactSlot::Feather
    } else if i == 38 {
        ArtifactSlot::Sand
    } else if i == 39 {
        ArtifactSlot::Goblet
    } else if i == 40 {
        ArtifactSlot::Head
    } else if i == 41 {
        ArtifactSlot::Flower
    } else if i == 42 {
        ArtifactSlot::Feather
    } else if i == 43 {
        ArtifactSlot::Sand
    } else if i == 44 {
        ArtifactSlot::Goblet
    } else if i == 45 {
        ArtifactSlot::Head
    } else if i == 46 {
        ArtifactSlot::Flower
    } else if i == 47 {
        ArtifactSlot::Feather
    } else if i == 48 {
        ArtifactSlot::Sand
    } else if i == 49 {
        ArtifactSlot::Goblet
    } else if i == 50 {
        ArtifactSlot::Head
    } else if i == 51 {
        ArtifactSlot::Flower
    } else if i == 52 {
        ArtifactSlot::Feather
    } else if i == 53 {
        ArtifactSlot::Sand
    } else if i == 54 {
        ArtifactSlot::Goblet
    } else if i == 55 {
        ArtifactSlot::Head
    } else if i == 56 {
        ArtifactSlot::Flower
    } else if i == 57 {
        ArtifactSlot::Feather
    } else if i == 58 {
        ArtifactSlot::Sand
    } else if i == 59 {
        ArtifactSlot::Goblet
    } else if i == 60 {
        ArtifactSlot::Head
    } else if i == 61 {
        ArtifactSlot::Flower
    } else if i == 62 {
        ArtifactSlot::Feather
    } else if i == 63 {
        ArtifactSlot::Sand
    } else if i == 64 {
        ArtifactSlot::Goblet
    } else if i == 65 {
        ArtifactSlot::Head
    } else if i == 66 {
        ArtifactSlot::Flower
    } else if i == 67 {
        ArtifactSlot::Feather
    } else if i == 68 {
        ArtifactSlot::Sand
    } else if i == 69 {
        ArtifactSlot::Sand
    } else if i == 70 {
        ArtifactSlot::Goblet
    } else if i == 71 {
        ArtifactSlot::Head
    } else if i == 72 {
        ArtifactSlot::Flower
    } else if i == 73 {
        ArtifactSlot::Feather
    } else if i == 74 {
        ArtifactSlot::Sand
    } else if i == 75 {
        ArtifactSlot::Goblet
    } else if i == 76 {
        ArtifactSlot::Head
    } else if i == 77 {
        ArtifactSlot::Flower
    } else if i == 78 {
        ArtifactSlot::Feather
    } else if i == 79 {
        ArtifactSlot::Sand
    } else if i == 80 {
        ArtifactSlot::Goblet
    } else if i == 81 {
        ArtifactSlot::Head
    } else if i == 82 {
        ArtifactSlot::Flower
    } else if i == 83 {
        ArtifactSlot::Feather
    } else if i == 84 {
        ArtifactSlot::Sand
    } else if i == 85 {
        ArtifactSlot::Goblet
    } else if i == 86 {
        ArtifactSlot::Head
    } else if i == 87 {
        ArtifactSlot::Flower
    } else if i == 88 {
        ArtifactSlot::Feather
    } else if i == 89 {
        ArtifactSlot::Sand
    } else if i == 90 {
        ArtifactSlot::Goblet
    } else if i == 91 {
        ArtifactSlot::Head
    } else if i == 92 {
        ArtifactSlot::Flower
    } else if i == 93 {
        ArtifactSlot::Feather
    } else if i == 94 {
        ArtifactSlot::Sand
    } else if i == 95 {
        ArtifactSlot::Goblet
    } else if i == 96 {
        ArtifactSlot::Head
    } else if i == 97 {
        ArtifactSlot::Flower
    } else if i == 98 {
        ArtifactSlot::Feather
    } else if i == 99 {
        ArtifactSlot::Sand
    } else if i == 100 {
        ArtifactSlot::Goblet
    } else if i == 101 {
        ArtifactSlot::Head
    } else if i == 102 {
        ArtifactSlot::Flower
    } else if i == 103 {
        ArtifactSlot::Feather
    } else if i == 104 {
        ArtifactSlot::Sand
    } else if i == 105 {
        ArtifactSlot::Goblet
    } else if i == 106 {
        ArtifactSlot::Head
    } else if i == 107 {
        ArtifactSlot::Head
    } else if i == 108 {
        ArtifactSlot::Head
    } else if i == 109 {
        ArtifactSlot::Head
    } else if i == 110 {
        ArtifactSlot::Head
    } else if i == 111 {
        ArtifactSlot::Flower
    } else if i == 112 {
        ArtifactSlot::Feather
    } else if i == 113 {
        ArtifactSlot::Sand
    } else if i == 114 {
        ArtifactSlot::Goblet
    } else if i == 115 {
        ArtifactSlot::Head
    } else if i == 116 {
        ArtifactSlot::Flower
    } else if i == 117 {
        ArtifactSlot::Feather
    } else if i == 118 {
        ArtifactSlot::Sand
    } else if i == 119 {
        ArtifactSlot::Goblet
    } else if i == 120 {
        ArtifactSlot::Head
    } else if i == 121 {
        ArtifactSlot::Flower
    } else if i == 122 {
        ArtifactSlot::Feather
    } else if i == 123 {
        ArtifactSlot::Sand
    } else if i == 124 {
        ArtifactSlot::Goblet
    } else if i == 125 {
        ArtifactSlot::Head
    } else if i == 126 {
        ArtifactSlot::Flower
    } else if i == 127 {
        ArtifactSlot::Feather
    } else if i == 128 {
        ArtifactSlot::Sand
    } else if i == 129 {
        ArtifactSlot::Goblet
    } else if i == 130 {
        ArtifactSlot::Head
    } else if i == 131 {
        ArtifactSlot::Flower
    } else if i == 132 {
        ArtifactSlot::Feather
    } else if i == 133 {
        ArtifactSlot::Sand
    } else if i == 134 {
        ArtifactSlot::Goblet
    } else if i == 135 {
        ArtifactSlot::Head
    } else if i == 136 {
        ArtifactSlot::Flower
    } else if i == 137 {
        ArtifactSlot::Feather
    } else if i == 138 {
        ArtifactSlot::Sand
    } else if i == 139 {
        ArtifactSlot::Goblet
    } else if i == 140 {
        ArtifactSlot::Head
    } else if i == 141 {
        ArtifactSlot::Flower
    } else if i == 142 {
        ArtifactSlot::Feather
    } else if i == 143 {
        ArtifactSlot::Sand
    } else if i == 144 {
        ArtifactSlot::Goblet
    } else if i == 145 {
        ArtifactSlot::Head
    } else if i == 146 {
        ArtifactSlot::Flower
    } else if i == 147 {
        ArtifactSlot::Feather
    } else if i == 148 {
        ArtifactSlot::Sand
    } else if i == 149 {
        ArtifactSlot::Goblet
    } else if i == 150 {
        ArtifactSlot::Head
    } else if i == 151 {
        ArtifactSlot::Flower
    } else if i == 152 {
        ArtifactSlot::Feather
    } else if i == 153 {
        ArtifactSlot::Sand
    } else if i == 154 {
        ArtifactSlot::Goblet
    } else if i == 155 {
        ArtifactSlot::Head
    } else if i == 156 {
        ArtifactSlot::Flower
    } else if i == 157 {
        ArtifactSlot::Feather
    } else if i == 158 {
        ArtifactSlot::Sand
    } else if i == 159 {
        ArtifactSlot::Goblet
    } else {
        ArtifactSlot::Head
    }
}

/// The set table: defined exactly on the canonical names.
pub open spec fn set_of(s: Seq<char>) -> Option<ArtifactSetName> {
    if name_id(s) >= 0 {
        Some(set_at(name_id(s)))
    } else {
        None
    }
}

/// The slot table: defined exactly on the canonical names.
pub open spec fn slot_of(s: Seq<char>) -> Option<ArtifactSlot> {
    if name_id(s) >= 0 {
        Some(slot_at(name_id(s)))
    } else {
        None
    }
}

/// The equipment set of the corpus entry at `i`.
pub fn set_name_at_index(i: usize) -> (r: ArtifactSetName)
    requires
        i < CORPUS_LEN,
    ensures
        r == set_at(i as int),
{
    if i == 0 {
        ArtifactSetName::ArchaicPetra
    } else if i == 1 {
        ArtifactSetName::ArchaicPetra
    } else if i == 2 {
        ArtifactSetName::ArchaicPetra
    } else if i == 3 {
        ArtifactSetName::ArchaicPetra
    } else if i == 4 {
        ArtifactSetName::ArchaicPetra
    } else if i == 5 {
        ArtifactSetName::ArchaicPetra
    } else if i == 6 {
        ArtifactSetName::BlizzardStrayer
    } else if i == 7 {
        ArtifactSetName::BlizzardStrayer
    } else if i == 8 {
        ArtifactSetName::BlizzardStrayer
    } else if i == 9 {
        ArtifactSetName::BlizzardStrayer
    } else if i == 10 {
        ArtifactSetName::BlizzardStrayer
    } else if i == 11 {
        ArtifactSetName::BloodstainedChivalry
    } else if i == 12 {
        ArtifactSetName::BloodstainedChivalry
    } else if i == 13 {
        ArtifactSetName::BloodstainedChivalry
    } else if i == 14 {
        ArtifactSetName::BloodstainedChivalry
    } else if i == 15 {
        ArtifactSetName::BloodstainedChivalry
    } else if i == 16 {
        ArtifactSetName::CrimsonWitch
    } else if i == 17 {
        ArtifactSetName::CrimsonWitch
    } else if i == 18 {
        ArtifactSetName::CrimsonWitch
    } else if i == 19 {
        ArtifactSetName::CrimsonWitch
    } else if i == 20 {
        ArtifactSetName::CrimsonWitch
    } else if i == 21 {
        ArtifactSetName::GladiatorFinale
    } else if i == 22 {
        ArtifactSetName::GladiatorFinale
    } else if i == 23 {
        ArtifactSetName::GladiatorFinale
    } else if i == 24 {
        ArtifactSetName::GladiatorFinale
    } else if i == 25 {
        ArtifactSetName::GladiatorFinale
    } else if i == 26 {
        ArtifactSetName::HeartOfDepth
    } else if i == 27 {
        ArtifactSetName::HeartOfDepth
    } else if i == 28 {
        ArtifactSetName::HeartOfDepth
    } else if i == 29 {
        ArtifactSetName::HeartOfDepth
    } else if i == 30 {
        ArtifactSetName::HeartOfDepth
    } else if i == 31 {
        ArtifactSetName::LavaWalker
    } else if i == 32 {
        ArtifactSetName::LavaWalker
    } else if i == 33 {
        ArtifactSetName::LavaWalker
    } else if i == 34 {
        ArtifactSetName::LavaWalker
    } else if i == 35 {
        ArtifactSetName::LavaWalker
    } else if i == 36 {
        ArtifactSetName::MaidenBeloved
    } else if i == 37 {
        ArtifactSetName::MaidenBeloved
    } else if i == 38 {
        ArtifactSetName::MaidenBeloved
    } else if i == 39 {
        ArtifactSetName::MaidenBeloved
    } else if i == 40 {
        ArtifactSetName::MaidenBeloved
    } else if i == 41 {
        ArtifactSetName::NoblesseOblige
    } else if i == 42 {
        ArtifactSetName::NoblesseOblige
    } else if i == 43 {
        ArtifactSetName::NoblesseOblige
    } else if i == 44 {
        ArtifactSetName::NoblesseOblige
    } else if i == 45 {
        ArtifactSetName::NoblesseOblige
    } else if i == 46 {
        ArtifactSetName::RetracingBolide
    } else if i == 47 {
        ArtifactSetName::RetracingBolide
    } else if i == 48 {
        ArtifactSetName::RetracingBolide
    } else if i == 49 {
        ArtifactSetName::RetracingBolide
    } else if i == 50 {
        ArtifactSetName::RetracingBolide
    } else if i == 51 {
        ArtifactSetName::ThunderSmoother
    } else if i == 52 {
        ArtifactSetName::ThunderSmoother
    } else if i == 53 {
        ArtifactSetName::ThunderSmoother
    } else if i == 54 {
        ArtifactSetName::ThunderSmoother
    } else if i == 55 {
        ArtifactSetName::ThunderSmoother
    } else if i == 56 {
        ArtifactSetName::ThunderingFury
    } else if i == 57 {
        ArtifactSetName::ThunderingFury
    } else if i == 58 {
        ArtifactSetName::ThunderingFury
    } else if i == 59 {
        ArtifactSetName::ThunderingFury
    } else if i == 60 {
        ArtifactSetName::ThunderingFury
    } else if i == 61 {
        ArtifactSetName::ViridescentVenerer
    } else if i == 62 {
        ArtifactSetName::ViridescentVenerer
    } else if i == 63 {
        ArtifactSetName::ViridescentVenerer
    } else if i == 64 {
        ArtifactSetName::ViridescentVenerer
    } else if i == 65 {
        ArtifactSetName::ViridescentVenerer
    } else if i == 66 {
        ArtifactSetName::WandererTroupe
    } else if i == 67 {
        ArtifactSetName::WandererTroupe
    } else if i == 68 {
        ArtifactSetName::WandererTroupe
    } else if i == 69 {
        ArtifactSetName::WandererTroupe
    } else if i == 70 {
        ArtifactSetName::WandererTroupe
    } else if i == 71 {
        ArtifactSetName::WandererTroupe
    } else if i == 72 {
        ArtifactSetName::Berserker
    } else if i == 73 {
        ArtifactSetName::Berserker
    } else if i == 74 {
        ArtifactSetName::Berserker
    } else if i == 75 {
        ArtifactSetName::Berserker
    } else if i == 76 {
        ArtifactSetName::Berserker
    } else if i == 77 {
        ArtifactSetName::BraveHeart
    } else if i == 78 {
        ArtifactSetName::BraveHeart
    } else if i == 79 {
        ArtifactSetName::BraveHeart
    } else if i == 80 {
        ArtifactSetName::BraveHeart
    } else if i == 81 {
        ArtifactSetName::BraveHeart
    } else if i == 82 {
        ArtifactSetName::DefenderWill
    } else if i == 83 {
        ArtifactSetName::DefenderWill
    } else if i == 84 {
        ArtifactSetName::DefenderWill
    } else if i == 85 {
        ArtifactSetName::DefenderWill
    } else if i == 86 {
        ArtifactSetName::DefenderWill
    } else if i == 87 {
        ArtifactSetName::Exile
    } else if i == 88 {
        ArtifactSetName::Exile
    } else if i == 89 {
        ArtifactSetName::Exile
    } else if i == 90 {
        ArtifactSetName::Exile
    } else if i == 91 {
        ArtifactSetName::Exile
    } else if i == 92 {
        ArtifactSetName::Gambler
    } else if i == 93 {
        ArtifactSetName::Gambler
    } else if i == 94 {
        ArtifactSetName::Gambler
    } else if i == 95 {
        ArtifactSetName::Gambler
    } else if i == 96 {
        ArtifactSetName::Gambler
    } else if i == 97 {
        ArtifactSetName::Instructor
    } else if i == 98 {
        ArtifactSetName::Instructor
    } else if i == 99 {
        ArtifactSetName::Instructor
    } else if i == 100 {
        ArtifactSetName::Instructor
    } else if i == 101 {
        ArtifactSetName::Instructor
    } else if i == 102 {
        ArtifactSetName::MartialArtist
    } else if i == 103 {
        ArtifactSetName::MartialArtist
    } else if i == 104 {
        ArtifactSetName::MartialArtist
    } else if i == 105 {
        ArtifactSetName::MartialArtist
    } else if i == 106 {
        ArtifactSetName::MartialArtist
    } else if i == 107 {
        ArtifactSetName::PrayersForDestiny
    } else if i == 108 {
        ArtifactSetName::PrayersForIllumination
    } else if i == 109 {
        ArtifactSetName::PrayersForWisdom
    } else if i == 110 {
        ArtifactSetName::PrayersToSpringtime
    } else if i == 111 {
        ArtifactSetName::ResolutionOfSojourner
    } else if i == 112 {
        ArtifactSetName::ResolutionOfSojourner
    } else if i == 113 {
        ArtifactSetName::ResolutionOfSojourner
    } else if i == 114 {
        ArtifactSetName::ResolutionOfSojourner
    } else if i == 115 {
        ArtifactSetName::ResolutionOfSojourner
    } else if i == 116 {
        ArtifactSetName::Scholar
    } else if i == 117 {
        ArtifactSetName::Scholar
    } else if i == 118 {
        ArtifactSetName::Scholar
    } else if i == 119 {
        ArtifactSetName::Scholar
    } else if i == 120 {
        ArtifactSetName::Scholar
    } else if i == 121 {
        ArtifactSetName::TinyMiracle
    } else if i == 122 {
        ArtifactSetName::TinyMiracle
    } else if i == 123 {
        ArtifactSetName::TinyMiracle
    } else if i == 124 {
        ArtifactSetName::TinyMiracle
    } else if i == 125 {
        ArtifactSetName::TinyMiracle
    } else if i == 126 {
        ArtifactSetName::Adventurer
    } else if i == 127 {
        ArtifactSetName::Adventurer
    } else if i == 128 {
        ArtifactSetName::Adventurer
    } else if i == 129 {
        ArtifactSetName::Adventurer
    } else if i == 130 {
        ArtifactSetName::Adventurer
    } else if i == 131 {
        ArtifactSetName::LuckyDog
    } else if i == 132 {
        ArtifactSetName::LuckyDog
    } else if i == 133 {
        ArtifactSetName::LuckyDog
    } else if i == 134 {
        ArtifactSetName::LuckyDog
    } else if i == 135 {
        ArtifactSetName::LuckyDog
    } else if i == 136 {
        ArtifactSetName::TravelingDoctor
    } else if i == 137 {
        ArtifactSetName::TravelingDoctor
    } else if i == 138 {
        ArtifactSetName::TravelingDoctor
    } else if i == 139 {
        ArtifactSetName::TravelingDoctor
    } else if i == 140 {
        ArtifactSetName::TravelingDoctor
    } else if i == 141 {
        ArtifactSetName::TenacityOfTheMillelith
    } else if i == 142 {
        ArtifactSetName::TenacityOfTheMillelith
    } else if i == 143 {
        ArtifactSetName::TenacityOfTheMillelith
    } else if i == 144 {
        ArtifactSetName::TenacityOfTheMillelith
    } else if i == 145 {
        ArtifactSetName::TenacityOfTheMillelith
    } else if i == 146 {
        ArtifactSetName::PaleFlame
    } else if i == 147 {
        ArtifactSetName::PaleFlame
    } else if i == 148 {
        ArtifactSetName::PaleFlame
    } else if i == 149 {
        ArtifactSetName::PaleFlame
    } else if i == 150 {
        ArtifactSetName::PaleFlame
    } else if i == 151 {
        ArtifactSetName::EmblemOfSeveredFate
    } else if i == 152 {
        ArtifactSetName::EmblemOfSeveredFate
    } else if i == 153 {
        ArtifactSetName::EmblemOfSeveredFate
    } else if i == 154 {
        ArtifactSetName::EmblemOfSeveredFate
    } else if i == 155 {
        ArtifactSetName::EmblemOfSeveredFate
    } else if i == 156 {
        ArtifactSetName::ShimenawaReminiscence
    } else if i == 157 {
        ArtifactSetName::ShimenawaReminiscence
    } else if i == 158 {
        ArtifactSetName::ShimenawaReminiscence
    } else if i == 159 {
        ArtifactSetName::ShimenawaReminiscence
    } else {
        ArtifactSetName::ShimenawaReminiscence
    }
}

/// The equipment slot of the corpus entry at `i`.
pub fn slot_at_index(i: usize) -> (r: ArtifactSlot)
    requires
        i < CORPUS_LEN,
    ensures
        r == slot_at(i as int),
{
    if i == 0 {
        ArtifactSlot::Flower
    } else if i == 1 {
        ArtifactSlot::Feather
    } else if i == 2 {
        ArtifactSlot::Sand
    } else if i == 3 {
        ArtifactSlot::Sand
    } else if i == 4 {
        ArtifactSlot::Goblet
    } else if i == 5 {
        ArtifactSlot::Head
    } else if i == 6 {
        ArtifactSlot::Flower
    } else if i == 7 {
        ArtifactSlot::Feather
    } else if i == 8 {
        ArtifactSlot::Sand
    } else if i == 9 {
        ArtifactSlot::Goblet
    } else if i == 10 {
        ArtifactSlot::Head
    } else if i == 11 {
        ArtifactSlot::Flower
    } else if i == 12 {
        ArtifactSlot::Feather
    } else if i == 13 {
        ArtifactSlot::Sand
    } else if i == 14 {
        ArtifactSlot::Goblet
    } else if i == 15 {
        ArtifactSlot::Head
    } else if i == 16 {
        ArtifactSlot::Flower
    } else if i == 17 {
        ArtifactSlot::Feather
    } else if i == 18 {
        ArtifactSlot::Sand
    } else if i == 19 {
        ArtifactSlot::Goblet
    } else if i == 20 {
        ArtifactSlot::Head
    } else if i == 21 {
        ArtifactSlot::Flower
    } else if i == 22 {
        ArtifactSlot::Feather
    } else if i == 23 {
        ArtifactSlot::Sand
    } else if i == 24 {
        ArtifactSlot::Goblet
    } else if i == 25 {
        ArtifactSlot::Head
    } else if i == 26 {
        ArtifactSlot::Flower
    } else if i == 27 {
        ArtifactSlot::Feather
    } else if i == 28 {
        ArtifactSlot::Sand
    } else if i == 29 {
        ArtifactSlot::Goblet
    } else if i == 30 {
        ArtifactSlot::Head
    } else if i == 31 {
        ArtifactSlot::Flower
    } else if i == 32 {
        ArtifactSlot::Feather
    } else if i == 33 {
        ArtifactSlot::Sand
    } else if i == 34 {
        ArtifactSlot::Goblet
    } else if i == 35 {
        ArtifactSlot::Head
    } else if i == 36 {
        ArtifactSlot::Flower
    } else if i == 37 {
        ArtifactSlot::Feather
    } else if i == 38 {
        ArtifactSlot::Sand
    } else if i == 39 {
        ArtifactSlot::Goblet
    } else if i == 40 {
        ArtifactSlot::Head
    } else if i == 41 {
        ArtifactSlot::Flower
    } else if i == 42 {
        ArtifactSlot::Feather
    } else if i == 43 {
        ArtifactSlot::Sand
    } else if i == 44 {
        ArtifactSlot::Goblet
    } else if i == 45 {
        ArtifactSlot::Head
    } else if i == 46 {
        ArtifactSlot::Flower
    } else if i == 47 {
        ArtifactSlot::Feather
    } else if i == 48 {
        ArtifactSlot::Sand
    } else if i == 49 {
        ArtifactSlot::Goblet
    } else if i == 50 {
        ArtifactSlot::Head
    } else if i == 51 {
        ArtifactSlot::Flower
    } else if i == 52 {
        ArtifactSlot::Feather
    } else if i == 53 {
        ArtifactSlot::Sand
    } else if i == 54 {
        ArtifactSlot::Goblet
    } else if i == 55 {
        ArtifactSlot::Head
    } else if i == 56 {
        ArtifactSlot::Flower
    } else if i == 57 {
        ArtifactSlot::Feather
    } else if i == 58 {
        ArtifactSlot::Sand
    } else if i == 59 {
        ArtifactSlot::Goblet
    } else if i == 60 {
        ArtifactSlot::Head
    } else if i == 61 {
        ArtifactSlot::Flower
    } else if i == 62 {
        ArtifactSlot::Feather
    } else if i == 63 {
        ArtifactSlot::Sand
    } else if i == 64 {
        ArtifactSlot::Goblet
    } else if i == 65 {
        ArtifactSlot::Head
    } else if i == 66 {
        ArtifactSlot::Flower
    } else if i == 67 {
        ArtifactSlot::Feather
    } else if i == 68 {
        ArtifactSlot::Sand
    } else if i == 69 {
        ArtifactSlot::Sand
    } else if i == 70 {
        ArtifactSlot::Goblet
    } else if i == 71 {
        ArtifactSlot::Head
    } else if i == 72 {
        ArtifactSlot::Flower
    } else if i == 73 {
        ArtifactSlot::Feather
    } else if i == 74 {
        ArtifactSlot::Sand
    } else if i == 75 {
        ArtifactSlot::Goblet
    } else if i == 76 {
        ArtifactSlot::Head
    } else if i == 77 {
        ArtifactSlot::Flower
    } else if i == 78 {
        ArtifactSlot::Feather
    } else if i == 79 {
        ArtifactSlot::Sand
    } else if i == 80 {
        ArtifactSlot::Goblet
    } else if i == 81 {
        ArtifactSlot::Head
    } else if i == 82 {
        ArtifactSlot::Flower
    } else if i == 83 {
        ArtifactSlot::Feather
    } else if i == 84 {
        ArtifactSlot::Sand
    } else if i == 85 {
        ArtifactSlot::Goblet
    } else if i == 86 {
        ArtifactSlot::Head
    } else if i == 87 {
        ArtifactSlot::Flower
    } else if i == 88 {
        ArtifactSlot::Feather
    } else if i == 89 {
        ArtifactSlot::Sand
    } else if i == 90 {
        ArtifactSlot::Goblet
    } else if i == 91 {
        ArtifactSlot::Head
    } else if i == 92 {
        ArtifactSlot::Flower
    } else if i == 93 {
        ArtifactSlot::Feather
    } else if i == 94 {
        ArtifactSlot::Sand
    } else if i == 95 {
        ArtifactSlot::Goblet
    } else if i == 96 {
        ArtifactSlot::Head
    } else if i == 97 {
        ArtifactSlot::Flower
    } else if i == 98 {
        ArtifactSlot::Feather
    } else if i == 99 {
        ArtifactSlot::Sand
    } else if i == 100 {
        ArtifactSlot::Goblet
    } else if i == 101 {
        ArtifactSlot::Head
    } else if i == 102 {
        ArtifactSlot::Flower
    } else if i == 103 {
        ArtifactSlot::Feather
    } else if i == 104 {
        ArtifactSlot::Sand
    } else if i == 105 {
        ArtifactSlot::Goblet
    } else if i == 106 {
        ArtifactSlot::Head
    } else if i == 107 {
        ArtifactSlot::Head
    } else if i == 108 {
        ArtifactSlot::Head
    } else if i == 109 {
        ArtifactSlot::Head
    } else if i == 110 {
        ArtifactSlot::Head
    } else if i == 111 {
        ArtifactSlot::Flower
    } else if i == 112 {
        ArtifactSlot::Feather
    } else if i == 113 {
        ArtifactSlot::Sand
    } else if i == 114 {
        ArtifactSlot::Goblet
    } else if i == 115 {
        ArtifactSlot::Head
    } else if i == 116 {
        ArtifactSlot::Flower
    } else if i == 117 {
        ArtifactSlot::Feather
    } else if i == 118 {
        ArtifactSlot::Sand
    } else if i == 119 {
        ArtifactSlot::Goblet
    } else if i == 120 {
        ArtifactSlot::Head
    } else if i == 121 {
        ArtifactSlot::Flower
    } else if i == 122 {
        ArtifactSlot::Feather
    } else if i == 123 {
        ArtifactSlot::Sand
    } else if i == 124 {
        ArtifactSlot::Goblet
    } else if i == 125 {
        ArtifactSlot::Head
    } else if i == 126 {
        ArtifactSlot::Flower
    } else if i == 127 {
        ArtifactSlot::Feather
    } else if i == 128 {
        ArtifactSlot::Sand
    } else if i == 129 {
        ArtifactSlot::Goblet
    } else if i == 130 {
        ArtifactSlot::Head
    } else if i == 131 {
        ArtifactSlot::Flower
    } else if i == 132 {
        ArtifactSlot::Feather
    } else if i == 133 {
        ArtifactSlot::Sand
    } else if i == 134 {
        ArtifactSlot::Goblet
    } else if i == 135 {
        ArtifactSlot::Head
    } else if i == 136 {
        ArtifactSlot::Flower
    } else if i == 137 {
        ArtifactSlot::Feather
    } else if i == 138 {
        ArtifactSlot::Sand
    } else if i == 139 {
        ArtifactSlot::Goblet
    } else if i == 140 {
        ArtifactSlot::Head
    } else if i == 141 {
        ArtifactSlot::Flower
    } else if i == 142 {
        ArtifactSlot::Feather
    } else if i == 143 {
        ArtifactSlot::Sand
    } else if i == 144 {
        ArtifactSlot::Goblet
    } else if i == 145 {
        ArtifactSlot::Head
    } else if i == 146 {
        ArtifactSlot::Flower
    } else if i == 147 {
        ArtifactSlot::Feather
    } else if i == 148 {
        ArtifactSlot::Sand
    } else if i == 149 {
        ArtifactSlot::Goblet
    } else if i == 150 {
        ArtifactSlot::Head
    } else if i == 151 {
        ArtifactSlot::Flower
    } else if i == 152 {
        ArtifactSlot::Feather
    } else if i == 153 {
        ArtifactSlot::Sand
    } else if i == 154 {
        ArtifactSlot::Goblet
    } else if i == 155 {
        ArtifactSlot::Head
    } else if i == 156 {
        ArtifactSlot::Flower
    } else if i == 157 {
        ArtifactSlot::Feather
    } else if i == 158 {
        ArtifactSlot::Sand
    } else if i == 159 {
        ArtifactSlot::Goblet
    } else {
        ArtifactSlot::Head
    }
}

impl ArtifactSetName {
    /// Classifies a canonical name into its equipment set, by exact
    /// lookup in the set table.
    pub fn from_zh_cn(s: &str) -> (r: Option<ArtifactSetName>)
        ensures
            r == set_of(s@),
    {
        match name_index(s) {
            Some(i) => Some(set_name_at_index(i)),
            None => None,
        }
    }
}

impl ArtifactSlot {
    /// Classifies a canonical name into its equipment slot, by exact
    /// lookup in the slot table.
    pub fn from_zh_cn(s: &str) -> (r: Option<ArtifactSlot>)
        ensures
            r == slot_of(s@),
    {
        match name_index(s) {
            Some(i) => Some(slot_at_index(i)),
            None => None,
        }
    }
}

/// Classification is total on the corpus: every canonical name has a
/// set and a slot. Both tables are spec functions of the name alone,
/// so repeated lookups of one name always agree.
pub proof fn lemma_classifier_total_on_corpus(i: int)
    requires
        0 <= i < CORPUS_LEN,
    ensures
        set_of(corpus_at(i)) == Some(set_at(i)),
        slot_of(corpus_at(i)) == Some(slot_at(i)),
{
    lemma_corpus_entry(i);
}

/// The four single-slot prayer sets: each of their names classifies
/// to the crown slot and to its own distinct set, and no other corpus
/// entry belongs to a prayer set.
pub proof fn lemma_prayer_sets_are_crowns()
    ensures
        set_of("祭水礼冠"@) == Some(ArtifactSetName::PrayersForDestiny),
        slot_of("祭水礼冠"@) == Some(ArtifactSlot::Head),
        set_of("祭火礼冠"@) == Some(ArtifactSetName::PrayersForIllumination),
        slot_of("祭火礼冠"@) == Some(ArtifactSlot::Head),
        set_of("祭雷礼冠"@) == Some(ArtifactSetName::PrayersForWisdom),
        slot_of("祭雷礼冠"@) == Some(ArtifactSlot::Head),
        set_of("祭冰礼冠"@) == Some(ArtifactSetName::PrayersToSpringtime),
        slot_of("祭冰礼冠"@) == Some(ArtifactSlot::Head),
        forall|i: int|
            0 <= i < CORPUS_LEN && (set_at(i) == ArtifactSetName::PrayersForDestiny
                || set_at(i) == ArtifactSetName::PrayersForIllumination || set_at(i)
                == ArtifactSetName::PrayersForWisdom || set_at(i)
                == ArtifactSetName::PrayersToSpringtime) ==> slot_at(i) == ArtifactSlot::Head,
{
    lemma_corpus_entry(107);
    assert(corpus_at(107) == "祭水礼冠"@);
    lemma_corpus_entry(108);
    assert(corpus_at(108) == "祭火礼冠"@);
    lemma_corpus_entry(109);
    assert(corpus_at(109) == "祭雷礼冠"@);
    lemma_corpus_entry(110);
    assert(corpus_at(110) == "祭冰礼冠"@);
}

} // verus!
