//! The closed corpus of canonical artifact names, in a fixed order,
//! together with a verified exact-match index over it.

use vstd::prelude::*;

use crate::text::str_eq;

verus! {

broadcast use vstd::string::group_string_axioms;

/// Number of canonical names in the corpus.
pub const CORPUS_LEN: usize = 161;

/// The canonical name at each corpus index.
pub open spec fn corpus_at(i: int) -> Seq<char> {
    if i == 0 {
        "磐陀裂生之花"@
    } else if i == 1 {
        "嵯峨群峰之翼"@
    } else if i == 2 {
        "星罗圭壁之晷"@
    } else if i == 3 {
        "星罗圭璧之晷"@
    } else if i == 4 {
        "巉岩琢塑之樽"@
    } else if i == 5 {
        "不动玄石之相"@
    } else if i == 6 {
        "历经风雪的思念"@
    } else if i == 7 {
        "摧冰而行的执望"@
    } else if i == 8 {
        "冰雪故园的终期"@
    } else if i == 9 {
        "遍结寒霜的傲骨"@
    } else if i == 10 {
        "破冰踏雪的回音"@
    } else if i == 11 {
        "染血的铁之心"@
    } else if i == 12 {
        "染血的黑之羽"@
    } else if i == 13 {
        "骑士染血之时"@
    } else if i == 14 {
        "染血骑士之杯"@
    } else if i == 15 {
        "染血的铁假面"@
    } else if i == 16 {
        "魔女的炎之花"@
    } else if i == 17 {
        "魔女常燃之羽"@
    } else if i == 18 {
        "魔女破灭之时"@
    } else if i == 19 {
        "魔女的心之火"@
    } else if i == 20 {
        "焦灼的魔女帽"@
    } else if i == 21 {
        "角斗士的留恋"@
    } else if i == 22 {
        "角斗士的归宿"@
    } else if i == 23 {
        "角斗士的希冀"@
    } else if i == 24 {
        "角斗士的酣醉"@
    } else if i == 25 {
        "角斗士的凯旋"@
    } else if i == 26 {
        "饰金胸花"@
    } else if i == 27 {
        "追忆之风"@
    } else if i == 28 {
        "坚铜罗盘"@
    } else if i == 29 {
        "沉波之盏"@
    } else if i == 30 {
        "酒渍船帽"@
    } else if i == 31 {
        "渡火者的决绝"@
    } else if i == 32 {
        "渡火者的解脱"@
    } else if i == 33 {
        "渡火者的煎熬"@
    } else if i == 34 {
        "渡火者的醒悟"@
    } else if i == 35 {
        "渡火者的智慧"@
    } else if i == 36 {
        "远方的少女之心"@
    } else if i == 37 {
        "少女飘摇的思念"@
    } else if i == 38 {
        "少女苦短的良辰"@
    } else if i == 39 {
        "少女片刻的闲暇"@
    } else if i == 40 {
        "少女易逝的芳颜"@
    } else if i == 41 {
        "宗室之花"@
    } else if i == 42 {
        "宗室之翎"@
    } else if i == 43 {
        "宗室时计"@
    } else if i == 44 {
        "宗室银瓮"@
    } else if i == 45 {
        "宗室面具"@
    } else if i == 46 {
        "夏祭之花"@
    } else if i == 47 {
        "夏祭终末"@
    } else if i == 48 {
        "夏祭之刻"@
    } else if i == 49 {
        "夏祭水玉"@
    } else if i == 50 {
        "夏祭之面"@
    } else if i == 51 {
        "平雷之心"@
    } else if i == 52 {
        "平雷之羽"@
    } else if i == 53 {
        "平雷之刻"@
    } else if i == 54 {
        "平雷之器"@
    } else if i == 55 {
        "平雷之冠"@
    } else if i == 56 {
        "雷鸟的怜悯"@
    } else if i == 57 {
        "雷灾的孑遗"@
    } else if i == 58 {
        "雷霆的时计"@
    } else if i == 59 {
        "降雷的凶兆"@
    } else if i == 60 {
        "唤雷的头冠"@
    } else if i == 61 {
        "野花记忆的绿野"@
    } else if i == 62 {
        "猎人青翠的箭羽"@
    } else if i == 63 {
        "翠绿猎人的笃定"@
    } else if i == 64 {
        "翠绿猎人的容器"@
    } else if i == 65 {
        "翠绿的猎人之冠"@
    } else if i == 66 {
        "乐团的晨光"@
    } else if i == 67 {
        "琴师的箭羽"@
    } else if i == 68 {
        "终幕的时计"@
    } else if i == 69 {
        "终末的时计"@
    } else if i == 70 {
        "吟游者之壶"@
    } else if i == 71 {
        "指挥的礼帽"@
    } else if i == 72 {
        "战狂的蔷薇"@
    } else if i == 73 {
        "战狂的翎羽"@
    } else if i == 74 {
        "战狂的时计"@
    } else if i == 75 {
        "战狂的骨杯"@
    } else if i == 76 {
        "战狂的鬼面"@
    } else if i == 77 {
        "勇士的勋章"@
    } else if i == 78 {
        "勇士的期许"@
    } else if i == 79 {
        "勇士的坚毅"@
    } else if i == 80 {
        "勇士的壮行"@
    } else if i == 81 {
        "勇士的冠冕"@
    } else if i == 82 {
        "守护之花"@
    } else if i == 83 {
        "守护徽印"@
    } else if i == 84 {
        "守护座钟"@
    } else if i == 85 {
        "守护之皿"@
    } else if i == 86 {
        "守护束带"@
    } else if i == 87 {
        "流放者之花"@
    } else if i == 88 {
        "流放者之羽"@
    } else if i == 89 {
        "流放者怀表"@
    } else if i == 90 {
        "流放者之杯"@
    } else if i == 91 {
        "流放者头冠"@
    } else if i == 92 {
        "赌徒的胸花"@
    } else if i == 93 {
        "赌徒的羽饰"@
    } else if i == 94 {
        "赌徒的怀表"@
    } else if i == 95 {
        "赌徒的骰盅"@
    } else if i == 96 {
        "赌徒的耳环"@
    } else if i == 97 {
        "教官的胸花"@
    } else if i == 98 {
        "教官的羽饰"@
    } else if i == 99 {
        "教官的怀表"@
    } else if i == 100 {
        "教官的茶杯"@
    } else if i == 101 {
        "教官的帽子"@
    } else if i == 102 {
        "武人的红花"@
    } else if i == 103 {
        "武人的羽饰"@
    } else if i == 104 {
        "武人的水漏"@
    } else if i == 105 {
        "武人的酒杯"@
    } else if i == 106 {
        "武人的头巾"@
    } else if i == 107 {
        "祭水礼冠"@
    } else if i == 108 {
        "祭火礼冠"@
    } else if i == 109 {
        "祭雷礼冠"@
    } else if i == 110 {
        "祭冰礼冠"@
    } else if i == 111 {
        "故人之心"@
    } else if i == 112 {
        "归乡之羽"@
    } else if i == 113 {
        "逐光之石"@
    } else if i == 114 {
        "异国之盏"@
    } else if i == 115 {
        "感别之冠"@
    } else if i == 116 {
        "学士的书签"@
    } else if i == 117 {
        "学士的羽笔"@
    } else if i == 118 {
        "学士的时钟"@
    } else if i == 119 {
        "学士的墨杯"@
    } else if i == 120 {
        "学士的镜片"@
    } else if i == 121 {
        "奇迹之花"@
    } else if i == 122 {
        "奇迹之羽"@
    } else if i == 123 {
        "奇迹之沙"@
    } else if i == 124 {
        "奇迹之杯"@
    } else if i == 125 {
        "奇迹耳坠"@
    } else if i == 126 {
        "冒险家之花"@
    } else if i == 127 {
        "冒险家尾羽"@
    } else if i == 128 {
        "冒险家怀表"@
    } else if i == 129 {
        "冒险家金杯"@
    } else if i == 130 {
        "冒险家头带"@
    } else if i == 131 {
        "幸运儿绿花"@
    } else if i == 132 {
        "幸运儿鹰羽"@
    } else if i == 133 {
        "幸运儿沙漏"@
    } else if i == 134 {
        "幸运儿之杯"@
    } else if i == 135 {
        "幸运儿银冠"@
    } else if i == 136 {
        "游医的银莲"@
    } else if i == 137 {
        "游医的枭羽"@
    } else if i == 138 {
        "游医的怀钟"@
    } else if i == 139 {
        "游医的药壶"@
    } else if i == 140 {
        "游医的方巾"@
    } else if i == 141 {
        "勋绩之花"@
    } else if i == 142 {
        "昭武翎羽"@
    } else if i == 143 {
        "金铜时晷"@
    } else if i == 144 {
        "盟誓金爵"@
    } else if i == 145 {
        "将帅兜鍪"@
    } else if i == 146 {
        "无垢之花"@
    } else if i == 147 {
        "贤医之羽"@
    } else if i == 148 {
        "停摆之刻"@
    } else if i == 149 {
        "超越之盏"@
    } else if i == 150 {
        "嗤笑之面"@
    } else if i == 151 {
        "明威之镡"@
    } else if i == 152 {
        "切落之羽"@
    } else if i == 153 {
        "雷云之笼"@
    } else if i == 154 {
        "绯花之壶"@
    } else if i == 155 {
        "华饰之兜"@
    } else if i == 156 {
        "羁缠之花"@
    } else if i == 157 {
        "思忆之矢"@
    } else if i == 158 {
        "朝露之时"@
    } else if i == 159 {
        "祈望之心"@
    } else if i == 160 {
        "无常之面"@
    } else {
        Seq::empty()
    }
}

/// Corpus index of an exact match among the names of 4 characters.
pub open spec fn name_id_len4(s: Seq<char>) -> int {
    if s == "饰金胸花"@ {
        26
    } else if s == "追忆之风"@ {
        27
    } else if s == "坚铜罗盘"@ {
        28
    } else if s == "沉波之盏"@ {
        29
    } else if s == "酒渍船帽"@ {
        30
    } else if s == "宗室之花"@ {
        41
    } else if s == "宗室之翎"@ {
        42
    } else if s == "宗室时计"@ {
        43
    } else if s == "宗室银瓮"@ {
        44
    } else if s == "宗室面具"@ {
        45
    } else if s == "夏祭之花"@ {
        46
    } else if s == "夏祭终末"@ {
        47
    } else if s == "夏祭之刻"@ {
        48
    } else if s == "夏祭水玉"@ {
        49
    } else if s == "夏祭之面"@ {
        50
    } else if s == "平雷之心"@ {
        51
    } else if s == "平雷之羽"@ {
        52
    } else if s == "平雷之刻"@ {
        53
    } else if s == "平雷之器"@ {
        54
    } else if s == "平雷之冠"@ {
        55
    } else if s == "守护之花"@ {
        82
    } else if s == "守护徽印"@ {
        83
    } else if s == "守护座钟"@ {
        84
    } else if s == "守护之皿"@ {
        85
    } else if s == "守护束带"@ {
        86
    } else if s == "祭水礼冠"@ {
        107
    } else if s == "祭火礼冠"@ {
        108
    } else if s == "祭雷礼冠"@ {
        109
    } else if s == "祭冰礼冠"@ {
        110
    } else if s == "故人之心"@ {
        111
    } else if s == "归乡之羽"@ {
        112
    } else if s == "逐光之石"@ {
        113
    } else if s == "异国之盏"@ {
        114
    } else if s == "感别之冠"@ {
        115
    } else if s == "奇迹之花"@ {
        121
    } else if s == "奇迹之羽"@ {
        122
    } else if s == "奇迹之沙"@ {
        123
    } else if s == "奇迹之杯"@ {
        124
    } else if s == "奇迹耳坠"@ {
        125
    } else if s == "勋绩之花"@ {
        141
    } else if s == "昭武翎羽"@ {
        142
    } else if s == "金铜时晷"@ {
        143
    } else if s == "盟誓金爵"@ {
        144
    } else if s == "将帅兜鍪"@ {
        145
    } else if s == "无垢之花"@ {
        146
    } else if s == "贤医之羽"@ {
        147
    } else if s == "停摆之刻"@ {
        148
    } else if s == "超越之盏"@ {
        149
    } else if s == "嗤笑之面"@ {
        150
    } else if s == "明威之镡"@ {
        151
    } else if s == "切落之羽"@ {
        152
    } else if s == "雷云之笼"@ {
        153
    } else if s == "绯花之壶"@ {
        154
    } else if s == "华饰之兜"@ {
        155
    } else if s == "羁缠之花"@ {
        156
    } else if s == "思忆之矢"@ {
        157
    } else if s == "朝露之时"@ {
        158
    } else if s == "祈望之心"@ {
        159
    } else if s == "无常之面"@ {
        160
    } else {
        -1
    }
}

/// Corpus index of an exact match among the names of 5 characters.
pub open spec fn name_id_len5(s: Seq<char>) -> int {
    if s == "雷鸟的怜悯"@ {
        56
    } else if s == "雷灾的孑遗"@ {
        57
    } else if s == "雷霆的时计"@ {
        58
    } else if s == "降雷的凶兆"@ {
        59
    } else if s == "唤雷的头冠"@ {
        60
    } else if s == "乐团的晨光"@ {
        66
    } else if s == "琴师的箭羽"@ {
        67
    } else if s == "终幕的时计"@ {
        68
    } else if s == "终末的时计"@ {
        69
    } else if s == "吟游者之壶"@ {
        70
    } else if s == "指挥的礼帽"@ {
        71
    } else if s == "战狂的蔷薇"@ {
        72
    } else if s == "战狂的翎羽"@ {
        73
    } else if s == "战狂的时计"@ {
        74
    } else if s == "战狂的骨杯"@ {
        75
    } else if s == "战狂的鬼面"@ {
        76
    } else if s == "勇士的勋章"@ {
        77
    } else if s == "勇士的期许"@ {
        78
    } else if s == "勇士的坚毅"@ {
        79
    } else if s == "勇士的壮行"@ {
        80
    } else if s == "勇士的冠冕"@ {
        81
    } else if s == "流放者之花"@ {
        87
    } else if s == "流放者之羽"@ {
        88
    } else if s == "流放者怀表"@ {
        89
    } else if s == "流放者之杯"@ {
        90
    } else if s == "流放者头冠"@ {
        91
    } else if s == "赌徒的胸花"@ {
        92
    } else if s == "赌徒的羽饰"@ {
        93
    } else if s == "赌徒的怀表"@ {
        94
    } else if s == "赌徒的骰盅"@ {
        95
    } else if s == "赌徒的耳环"@ {
        96
    } else if s == "教官的胸花"@ {
        97
    } else if s == "教官的羽饰"@ {
        98
    } else if s == "教官的怀表"@ {
        99
    } else if s == "教官的茶杯"@ {
        100
    } else if s == "教官的帽子"@ {
        101
    } else if s == "武人的红花"@ {
        102
    } else if s == "武人的羽饰"@ {
        103
    } else if s == "武人的水漏"@ {
        104
    } else if s == "武人的酒杯"@ {
        105
    } else if s == "武人的头巾"@ {
        106
    } else if s == "学士的书签"@ {
        116
    } else if s == "学士的羽笔"@ {
        117
    } else if s == "学士的时钟"@ {
        118
    } else if s == "学士的墨杯"@ {
        119
    } else if s == "学士的镜片"@ {
        120
    } else if s == "冒险家之花"@ {
        126
    } else if s == "冒险家尾羽"@ {
        127
    } else if s == "冒险家怀表"@ {
        128
    } else if s == "冒险家金杯"@ {
        129
    } else if s == "冒险家头带"@ {
        130
    } else if s == "幸运儿绿花"@ {
        131
    } else if s == "幸运儿鹰羽"@ {
        132
    } else if s == "幸运儿沙漏"@ {
        133
    } else if s == "幸运儿之杯"@ {
        134
    } else if s == "幸运儿银冠"@ {
        135
    } else if s == "游医的银莲"@ {
        136
    } else if s == "游医的枭羽"@ {
        137
    } else if s == "游医的怀钟"@ {
        138
    } else if s == "游医的药壶"@ {
        139
    } else if s == "游医的方巾"@ {
        140
    } else {
        -1
    }
}

/// Corpus index of an exact match among the names of 6 characters.
pub open spec fn name_id_len6(s: Seq<char>) -> int {
    if s == "磐陀裂生之花"@ {
        0
    } else if s == "嵯峨群峰之翼"@ {
        1
    } else if s == "星罗圭壁之晷"@ {
        2
    } else if s == "星罗圭璧之晷"@ {
        3
    } else if s == "巉岩琢塑之樽"@ {
        4
    } else if s == "不动玄石之相"@ {
        5
    } else if s == "染血的铁之心"@ {
        11
    } else if s == "染血的黑之羽"@ {
        12
    } else if s == "骑士染血之时"@ {
        13
    } else if s == "染血骑士之杯"@ {
        14
    } else if s == "染血的铁假面"@ {
        15
    } else if s == "魔女的炎之花"@ {
        16
    } else if s == "魔女常燃之羽"@ {
        17
    } else if s == "魔女破灭之时"@ {
        18
    } else if s == "魔女的心之火"@ {
        19
    } else if s == "焦灼的魔女帽"@ {
        20
    } else if s == "角斗士的留恋"@ {
        21
    } else if s == "角斗士的归宿"@ {
        22
    } else if s == "角斗士的希冀"@ {
        23
    } else if s == "角斗士的酣醉"@ {
        24
    } else if s == "角斗士的凯旋"@ {
        25
    } else if s == "渡火者的决绝"@ {
        31
    } else if s == "渡火者的解脱"@ {
        32
    } else if s == "渡火者的煎熬"@ {
        33
    } else if s == "渡火者的醒悟"@ {
        34
    } else if s == "渡火者的智慧"@ {
        35
    } else {
        -1
    }
}

/// Corpus index of an exact match among the names of 7 characters.
pub open spec fn name_id_len7(s: Seq<char>) -> int {
    if s == "历经风雪的思念"@ {
        6
    } else if s == "摧冰而行的执望"@ {
        7
    } else if s == "冰雪故园的终期"@ {
        8
    } else if s == "遍结寒霜的傲骨"@ {
        9
    } else if s == "破冰踏雪的回音"@ {
        10
    } else if s == "远方的少女之心"@ {
        36
    } else if s == "少女飘摇的思念"@ {
        37
    } else if s == "少女苦短的良辰"@ {
        38
    } else if s == "少女片刻的闲暇"@ {
        39
    } else if s == "少女易逝的芳颜"@ {
        40
    } else if s == "野花记忆的绿野"@ {
        61
    } else if s == "猎人青翠的箭羽"@ {
        62
    } else if s == "翠绿猎人的笃定"@ {
        63
    } else if s == "翠绿猎人的容器"@ {
        64
    } else if s == "翠绿的猎人之冠"@ {
        65
    } else {
        -1
    }
}

/// Corpus index of an exactly matching canonical name, or -1 when the
/// name is not in the corpus.
pub open spec fn name_id(s: Seq<char>) -> int {
    if s.len() == 4 {
        name_id_len4(s)
    } else if s.len() == 5 {
        name_id_len5(s)
    } else if s.len() == 6 {
        name_id_len6(s)
    } else if s.len() == 7 {
        name_id_len7(s)
    } else {
        -1
    }
}

/// The canonical name at `i`, as a string slice.
pub fn corpus_name_at(i: usize) -> (s: &'static str)
    requires
        i < CORPUS_LEN,
    ensures
        s@ == corpus_at(i as int),
{
    if i == 0 {
        "磐陀裂生之花"
    } else if i == 1 {
        "嵯峨群峰之翼"
    } else if i == 2 {
        "星罗圭壁之晷"
    } else if i == 3 {
        "星罗圭璧之晷"
    } else if i == 4 {
        "巉岩琢塑之樽"
    } else if i == 5 {
        "不动玄石之相"
    } else if i == 6 {
        "历经风雪的思念"
    } else if i == 7 {
        "摧冰而行的执望"
    } else if i == 8 {
        "冰雪故园的终期"
    } else if i == 9 {
        "遍结寒霜的傲骨"
    } else if i == 10 {
        "破冰踏雪的回音"
    } else if i == 11 {
        "染血的铁之心"
    } else if i == 12 {
        "染血的黑之羽"
    } else if i == 13 {
        "骑士染血之时"
    } else if i == 14 {
        "染血骑士之杯"
    } else if i == 15 {
        "染血的铁假面"
    } else if i == 16 {
        "魔女的炎之花"
    } else if i == 17 {
        "魔女常燃之羽"
    } else if i == 18 {
        "魔女破灭之时"
    } else if i == 19 {
        "魔女的心之火"
    } else if i == 20 {
        "焦灼的魔女帽"
    } else if i == 21 {
        "角斗士的留恋"
    } else if i == 22 {
        "角斗士的归宿"
    } else if i == 23 {
        "角斗士的希冀"
    } else if i == 24 {
        "角斗士的酣醉"
    } else if i == 25 {
        "角斗士的凯旋"
    } else if i == 26 {
        "饰金胸花"
    } else if i == 27 {
        "追忆之风"
    } else if i == 28 {
        "坚铜罗盘"
    } else if i == 29 {
        "沉波之盏"
    } else if i == 30 {
        "酒渍船帽"
    } else if i == 31 {
        "渡火者的决绝"
    } else if i == 32 {
        "渡火者的解脱"
    } else if i == 33 {
        "渡火者的煎熬"
    } else if i == 34 {
        "渡火者的醒悟"
    } else if i == 35 {
        "渡火者的智慧"
    } else if i == 36 {
        "远方的少女之心"
    } else if i == 37 {
        "少女飘摇的思念"
    } else if i == 38 {
        "少女苦短的良辰"
    } else if i == 39 {
        "少女片刻的闲暇"
    } else if i == 40 {
        "少女易逝的芳颜"
    } else if i == 41 {
        "宗室之花"
    } else if i == 42 {
        "宗室之翎"
    } else if i == 43 {
        "宗室时计"
    } else if i == 44 {
        "宗室银瓮"
    } else if i == 45 {
        "宗室面具"
    } else if i == 46 {
        "夏祭之花"
    } else if i == 47 {
        "夏祭终末"
    } else if i == 48 {
        "夏祭之刻"
    } else if i == 49 {
        "夏祭水玉"
    } else if i == 50 {
        "夏祭之面"
    } else if i == 51 {
        "平雷之心"
    } else if i == 52 {
        "平雷之羽"
    } else if i == 53 {
        "平雷之刻"
    } else if i == 54 {
        "平雷之器"
    } else if i == 55 {
        "平雷之冠"
    } else if i == 56 {
        "雷鸟的怜悯"
    } else if i == 57 {
        "雷灾的孑遗"
    } else if i == 58 {
        "雷霆的时计"
    } else if i == 59 {
        "降雷的凶兆"
    } else if i == 60 {
        "唤雷的头冠"
    } else if i == 61 {
        "野花记忆的绿野"
    } else if i == 62 {
        "猎人青翠的箭羽"
    } else if i == 63 {
        "翠绿猎人的笃定"
    } else if i == 64 {
        "翠绿猎人的容器"
    } else if i == 65 {
        "翠绿的猎人之冠"
    } else if i == 66 {
        "乐团的晨光"
    } else if i == 67 {
        "琴师的箭羽"
    } else if i == 68 {
        "终幕的时计"
    } else if i == 69 {
        "终末的时计"
    } else if i == 70 {
        "吟游者之壶"
    } else if i == 71 {
        "指挥的礼帽"
    } else if i == 72 {
        "战狂的蔷薇"
    } else if i == 73 {
        "战狂的翎羽"
    } else if i == 74 {
        "战狂的时计"
    } else if i == 75 {
        "战狂的骨杯"
    } else if i == 76 {
        "战狂的鬼面"
    } else if i == 77 {
        "勇士的勋章"
    } else if i == 78 {
        "勇士的期许"
    } else if i == 79 {
        "勇士的坚毅"
    } else if i == 80 {
        "勇士的壮行"
    } else if i == 81 {
        "勇士的冠冕"
    } else if i == 82 {
        "守护之花"
    } else if i == 83 {
        "守护徽印"
    } else if i == 84 {
        "守护座钟"
    } else if i == 85 {
        "守护之皿"
    } else if i == 86 {
        "守护束带"
    } else if i == 87 {
        "流放者之花"
    } else if i == 88 {
        "流放者之羽"
    } else if i == 89 {
        "流放者怀表"
    } else if i == 90 {
        "流放者之杯"
    } else if i == 91 {
        "流放者头冠"
    } else if i == 92 {
        "赌徒的胸花"
    } else if i == 93 {
        "赌徒的羽饰"
    } else if i == 94 {
        "赌徒的怀表"
    } else if i == 95 {
        "赌徒的骰盅"
    } else if i == 96 {
        "赌徒的耳环"
    } else if i == 97 {
        "教官的胸花"
    } else if i == 98 {
        "教官的羽饰"
    } else if i == 99 {
        "教官的怀表"
    } else if i == 100 {
        "教官的茶杯"
    } else if i == 101 {
        "教官的帽子"
    } else if i == 102 {
        "武人的红花"
    } else if i == 103 {
        "武人的羽饰"
    } else if i == 104 {
        "武人的水漏"
    } else if i == 105 {
        "武人的酒杯"
    } else if i == 106 {
        "武人的头巾"
    } else if i == 107 {
        "祭水礼冠"
    } else if i == 108 {
        "祭火礼冠"
    } else if i == 109 {
        "祭雷礼冠"
    } else if i == 110 {
        "祭冰礼冠"
    } else if i == 111 {
        "故人之心"
    } else if i == 112 {
        "归乡之羽"
    } else if i == 113 {
        "逐光之石"
    } else if i == 114 {
        "异国之盏"
    } else if i == 115 {
        "感别之冠"
    } else if i == 116 {
        "学士的书签"
    } else if i == 117 {
        "学士的羽笔"
    } else if i == 118 {
        "学士的时钟"
    } else if i == 119 {
        "学士的墨杯"
    } else if i == 120 {
        "学士的镜片"
    } else if i == 121 {
        "奇迹之花"
    } else if i == 122 {
        "奇迹之羽"
    } else if i == 123 {
        "奇迹之沙"
    } else if i == 124 {
        "奇迹之杯"
    } else if i == 125 {
        "奇迹耳坠"
    } else if i == 126 {
        "冒险家之花"
    } else if i == 127 {
        "冒险家尾羽"
    } else if i == 128 {
        "冒险家怀表"
    } else if i == 129 {
        "冒险家金杯"
    } else if i == 130 {
        "冒险家头带"
    } else if i == 131 {
        "幸运儿绿花"
    } else if i == 132 {
        "幸运儿鹰羽"
    } else if i == 133 {
        "幸运儿沙漏"
    } else if i == 134 {
        "幸运儿之杯"
    } else if i == 135 {
        "幸运儿银冠"
    } else if i == 136 {
        "游医的银莲"
    } else if i == 137 {
        "游医的枭羽"
    } else if i == 138 {
        "游医的怀钟"
    } else if i == 139 {
        "游医的药壶"
    } else if i == 140 {
        "游医的方巾"
    } else if i == 141 {
        "勋绩之花"
    } else if i == 142 {
        "昭武翎羽"
    } else if i == 143 {
        "金铜时晷"
    } else if i == 144 {
        "盟誓金爵"
    } else if i == 145 {
        "将帅兜鍪"
    } else if i == 146 {
        "无垢之花"
    } else if i == 147 {
        "贤医之羽"
    } else if i == 148 {
        "停摆之刻"
    } else if i == 149 {
        "超越之盏"
    } else if i == 150 {
        "嗤笑之面"
    } else if i == 151 {
        "明威之镡"
    } else if i == 152 {
        "切落之羽"
    } else if i == 153 {
        "雷云之笼"
    } else if i == 154 {
        "绯花之壶"
    } else if i == 155 {
        "华饰之兜"
    } else if i == 156 {
        "羁缠之花"
    } else if i == 157 {
        "思忆之矢"
    } else if i == 158 {
        "朝露之时"
    } else if i == 159 {
        "祈望之心"
    } else {
        "无常之面"
    }
}

/// Finds the corpus index whose name equals `s`, by exact match.
pub fn name_index(s: &str) -> (r: Option<usize>)
    ensures
        r is Some <==> name_id(s@) >= 0,
        r matches Some(i) ==> i == name_id(s@) && i < CORPUS_LEN,
{
    let n = s.unicode_len();
    if n == 4 {
        if str_eq(s, "饰金胸花") {
            Some(26)
        } else if str_eq(s, "追忆之风") {
            Some(27)
        } else if str_eq(s, "坚铜罗盘") {
            Some(28)
        } else if str_eq(s, "沉波之盏") {
            Some(29)
        } else if str_eq(s, "酒渍船帽") {
            Some(30)
        } else if str_eq(s, "宗室之花") {
            Some(41)
        } else if str_eq(s, "宗室之翎") {
            Some(42)
        } else if str_eq(s, "宗室时计") {
            Some(43)
        } else if str_eq(s, "宗室银瓮") {
            Some(44)
        } else if str_eq(s, "宗室面具") {
            Some(45)
        } else if str_eq(s, "夏祭之花") {
            Some(46)
        } else if str_eq(s, "夏祭终末") {
            Some(47)
        } else if str_eq(s, "夏祭之刻") {
            Some(48)
        } else if str_eq(s, "夏祭水玉") {
            Some(49)
        } else if str_eq(s, "夏祭之面") {
            Some(50)
        } else if str_eq(s, "平雷之心") {
            Some(51)
        } else if str_eq(s, "平雷之羽") {
            Some(52)
        } else if str_eq(s, "平雷之刻") {
            Some(53)
        } else if str_eq(s, "平雷之器") {
            Some(54)
        } else if str_eq(s, "平雷之冠") {
            Some(55)
        } else if str_eq(s, "守护之花") {
            Some(82)
        } else if str_eq(s, "守护徽印") {
            Some(83)
        } else if str_eq(s, "守护座钟") {
            Some(84)
        } else if str_eq(s, "守护之皿") {
            Some(85)
        } else if str_eq(s, "守护束带") {
            Some(86)
        } else if str_eq(s, "祭水礼冠") {
            Some(107)
        } else if str_eq(s, "祭火礼冠") {
            Some(108)
        } else if str_eq(s, "祭雷礼冠") {
            Some(109)
        } else if str_eq(s, "祭冰礼冠") {
            Some(110)
        } else if str_eq(s, "故人之心") {
            Some(111)
        } else if str_eq(s, "归乡之羽") {
            Some(112)
        } else if str_eq(s, "逐光之石") {
            Some(113)
        } else if str_eq(s, "异国之盏") {
            Some(114)
        } else if str_eq(s, "感别之冠") {
            Some(115)
        } else if str_eq(s, "奇迹之花") {
            Some(121)
        } else if str_eq(s, "奇迹之羽") {
            Some(122)
        } else if str_eq(s, "奇迹之沙") {
            Some(123)
        } else if str_eq(s, "奇迹之杯") {
            Some(124)
        } else if str_eq(s, "奇迹耳坠") {
            Some(125)
        } else if str_eq(s, "勋绩之花") {
            Some(141)
        } else if str_eq(s, "昭武翎羽") {
            Some(142)
        } else if str_eq(s, "金铜时晷") {
            Some(143)
        } else if str_eq(s, "盟誓金爵") {
            Some(144)
        } else if str_eq(s, "将帅兜鍪") {
            Some(145)
        } else if str_eq(s, "无垢之花") {
            Some(146)
        } else if str_eq(s, "贤医之羽") {
            Some(147)
        } else if str_eq(s, "停摆之刻") {
            Some(148)
        } else if str_eq(s, "超越之盏") {
            Some(149)
        } else if str_eq(s, "嗤笑之面") {
            Some(150)
        } else if str_eq(s, "明威之镡") {
            Some(151)
        } else if str_eq(s, "切落之羽") {
            Some(152)
        } else if str_eq(s, "雷云之笼") {
            Some(153)
        } else if str_eq(s, "绯花之壶") {
            Some(154)
        } else if str_eq(s, "华饰之兜") {
            Some(155)
        } else if str_eq(s, "羁缠之花") {
            Some(156)
        } else if str_eq(s, "思忆之矢") {
            Some(157)
        } else if str_eq(s, "朝露之时") {
            Some(158)
        } else if str_eq(s, "祈望之心") {
            Some(159)
        } else if str_eq(s, "无常之面") {
            Some(160)
        } else {
            None
        }
    } else if n == 5 {
        if str_eq(s, "雷鸟的怜悯") {
            Some(56)
        } else if str_eq(s, "雷灾的孑遗") {
            Some(57)
        } else if str_eq(s, "雷霆的时计") {
            Some(58)
        } else if str_eq(s, "降雷的凶兆") {
            Some(59)
        } else if str_eq(s, "唤雷的头冠") {
            Some(60)
        } else if str_eq(s, "乐团的晨光") {
            Some(66)
        } else if str_eq(s, "琴师的箭羽") {
            Some(67)
        } else if str_eq(s, "终幕的时计") {
            Some(68)
        } else if str_eq(s, "终末的时计") {
            Some(69)
        } else if str_eq(s, "吟游者之壶") {
            Some(70)
        } else if str_eq(s, "指挥的礼帽") {
            Some(71)
        } else if str_eq(s, "战狂的蔷薇") {
            Some(72)
        } else if str_eq(s, "战狂的翎羽") {
            Some(73)
        } else if str_eq(s, "战狂的时计") {
            Some(74)
        } else if str_eq(s, "战狂的骨杯") {
            Some(75)
        } else if str_eq(s, "战狂的鬼面") {
            Some(76)
        } else if str_eq(s, "勇士的勋章") {
            Some(77)
        } else if str_eq(s, "勇士的期许") {
            Some(78)
        } else if str_eq(s, "勇士的坚毅") {
            Some(79)
        } else if str_eq(s, "勇士的壮行") {
            Some(80)
        } else if str_eq(s, "勇士的冠冕") {
            Some(81)
        } else if str_eq(s, "流放者之花") {
            Some(87)
        } else if str_eq(s, "流放者之羽") {
            Some(88)
        } else if str_eq(s, "流放者怀表") {
            Some(89)
        } else if str_eq(s, "流放者之杯") {
            Some(90)
        } else if str_eq(s, "流放者头冠") {
            Some(91)
        } else if str_eq(s, "赌徒的胸花") {
            Some(92)
        } else if str_eq(s, "赌徒的羽饰") {
            Some(93)
        } else if str_eq(s, "赌徒的怀表") {
            Some(94)
        } else if str_eq(s, "赌徒的骰盅") {
            Some(95)
        } else if str_eq(s, "赌徒的耳环") {
            Some(96)
        } else if str_eq(s, "教官的胸花") {
            Some(97)
        } else if str_eq(s, "教官的羽饰") {
            Some(98)
        } else if str_eq(s, "教官的怀表") {
            Some(99)
        } else if str_eq(s, "教官的茶杯") {
            Some(100)
        } else if str_eq(s, "教官的帽子") {
            Some(101)
        } else if str_eq(s, "武人的红花") {
            Some(102)
        } else if str_eq(s, "武人的羽饰") {
            Some(103)
        } else if str_eq(s, "武人的水漏") {
            Some(104)
        } else if str_eq(s, "武人的酒杯") {
            Some(105)
        } else if str_eq(s, "武人的头巾") {
            Some(106)
        } else if str_eq(s, "学士的书签") {
            Some(116)
        } else if str_eq(s, "学士的羽笔") {
            Some(117)
        } else if str_eq(s, "学士的时钟") {
            Some(118)
        } else if str_eq(s, "学士的墨杯") {
            Some(119)
        } else if str_eq(s, "学士的镜片") {
            Some(120)
        } else if str_eq(s, "冒险家之花") {
            Some(126)
        } else if str_eq(s, "冒险家尾羽") {
            Some(127)
        } else if str_eq(s, "冒险家怀表") {
            Some(128)
        } else if str_eq(s, "冒险家金杯") {
            Some(129)
        } else if str_eq(s, "冒险家头带") {
            Some(130)
        } else if str_eq(s, "幸运儿绿花") {
            Some(131)
        } else if str_eq(s, "幸运儿鹰羽") {
            Some(132)
        } else if str_eq(s, "幸运儿沙漏") {
            Some(133)
        } else if str_eq(s, "幸运儿之杯") {
            Some(134)
        } else if str_eq(s, "幸运儿银冠") {
            Some(135)
        } else if str_eq(s, "游医的银莲") {
            Some(136)
        } else if str_eq(s, "游医的枭羽") {
            Some(137)
        } else if str_eq(s, "游医的怀钟") {
            Some(138)
        } else if str_eq(s, "游医的药壶") {
            Some(139)
        } else if str_eq(s, "游医的方巾") {
            Some(140)
        } else {
            None
        }
    } else if n == 6 {
        if str_eq(s, "磐陀裂生之花") {
            Some(0)
        } else if str_eq(s, "嵯峨群峰之翼") {
            Some(1)
        } else if str_eq(s, "星罗圭壁之晷") {
            Some(2)
        } else if str_eq(s, "星罗圭璧之晷") {
            Some(3)
        } else if str_eq(s, "巉岩琢塑之樽") {
            Some(4)
        } else if str_eq(s, "不动玄石之相") {
            Some(5)
        } else if str_eq(s, "染血的铁之心") {
            Some(11)
        } else if str_eq(s, "染血的黑之羽") {
            Some(12)
        } else if str_eq(s, "骑士染血之时") {
            Some(13)
        } else if str_eq(s, "染血骑士之杯") {
            Some(14)
        } else if str_eq(s, "染血的铁假面") {
            Some(15)
        } else if str_eq(s, "魔女的炎之花") {
            Some(16)
        } else if str_eq(s, "魔女常燃之羽") {
            Some(17)
        } else if str_eq(s, "魔女破灭之时") {
            Some(18)
        } else if str_eq(s, "魔女的心之火") {
            Some(19)
        } else if str_eq(s, "焦灼的魔女帽") {
            Some(20)
        } else if str_eq(s, "角斗士的留恋") {
            Some(21)
        } else if str_eq(s, "角斗士的归宿") {
            Some(22)
        } else if str_eq(s, "角斗士的希冀") {
            Some(23)
        } else if str_eq(s, "角斗士的酣醉") {
            Some(24)
        } else if str_eq(s, "角斗士的凯旋") {
            Some(25)
        } else if str_eq(s, "渡火者的决绝") {
            Some(31)
        } else if str_eq(s, "渡火者的解脱") {
            Some(32)
        } else if str_eq(s, "渡火者的煎熬") {
            Some(33)
        } else if str_eq(s, "渡火者的醒悟") {
            Some(34)
        } else if str_eq(s, "渡火者的智慧") {
            Some(35)
        } else {
            None
        }
    } else if n == 7 {
        if str_eq(s, "历经风雪的思念") {
            Some(6)
        } else if str_eq(s, "摧冰而行的执望") {
            Some(7)
        } else if str_eq(s, "冰雪故园的终期") {
            Some(8)
        } else if str_eq(s, "遍结寒霜的傲骨") {
            Some(9)
        } else if str_eq(s, "破冰踏雪的回音") {
            Some(10)
        } else if str_eq(s, "远方的少女之心") {
            Some(36)
        } else if str_eq(s, "少女飘摇的思念") {
            Some(37)
        } else if str_eq(s, "少女苦短的良辰") {
            Some(38)
        } else if str_eq(s, "少女片刻的闲暇") {
            Some(39)
        } else if str_eq(s, "少女易逝的芳颜") {
            Some(40)
        } else if str_eq(s, "野花记忆的绿野") {
            Some(61)
        } else if str_eq(s, "猎人青翠的箭羽") {
            Some(62)
        } else if str_eq(s, "翠绿猎人的笃定") {
            Some(63)
        } else if str_eq(s, "翠绿猎人的容器") {
            Some(64)
        } else if str_eq(s, "翠绿的猎人之冠") {
            Some(65)
        } else {
            None
        }
    } else {
        None
    }
}

// The chunk lemmas below establish, a block of indices at a time, that
// exact matching recovers every corpus index. Each same-length pair of
// names is told apart by naming one position where their characters
// differ, which lets the solver refute the equality from the revealed
// literals.
proof fn corpus_entry_chunk0(i: int)
    requires
        0 <= i < 10,
    ensures
        name_id(corpus_at(i)) == i,
{
    reveal_strlit("磐陀裂生之花");
    reveal_strlit("嵯峨群峰之翼");
    reveal_strlit("星罗圭壁之晷");
    reveal_strlit("星罗圭璧之晷");
    reveal_strlit("巉岩琢塑之樽");
    reveal_strlit("不动玄石之相");
    reveal_strlit("历经风雪的思念");
    reveal_strlit("摧冰而行的执望");
    reveal_strlit("冰雪故园的终期");
    reveal_strlit("遍结寒霜的傲骨");
    if i == 0 {
        assert(name_id(corpus_at(0)) == 0);
    } else if i == 1 {
        if "嵯峨群峰之翼"@ == "磐陀裂生之花"@ {
            assert("嵯峨群峰之翼"@[0] == "磐陀裂生之花"@[0]);
            assert(false);
        }
        assert(name_id(corpus_at(1)) == 1);
    } else if i == 2 {
        if "星罗圭壁之晷"@ == "磐陀裂生之花"@ {
            assert("星罗圭壁之晷"@[0] == "磐陀裂生之花"@[0]);
            assert(false);
        }
        if "星罗圭壁之晷"@ == "嵯峨群峰之翼"@ {
            assert("星罗圭壁之晷"@[0] == "嵯峨群峰之翼"@[0]);
            assert(false);
        }
        assert(name_id(corpus_at(2)) == 2);
    } else if i == 3 {
        if "星罗圭璧之晷"@ == "磐陀裂生之花"@ {
            assert("星罗圭璧之晷"@[0] == "磐陀裂生之花"@[0]);
            assert(false);
        }
        if "星罗圭璧之晷"@ == "嵯峨群峰之翼"@ {
            assert("星罗圭璧之晷"@[0] == "嵯峨群峰之翼"@[0]);
            assert(false);
        }
        if "星罗圭璧之晷"@ == "星罗圭壁之晷"@ {
            assert("星罗圭璧之晷"@[3] == "星罗圭壁之晷"@[3]);
            assert(false);
        }
        assert(name_id(corpus_at(3)) == 3);
    } else if i == 4 {
        if "巉岩琢塑之樽"@ == "磐陀裂生之花"@ {
            assert("巉岩琢塑之樽"@[0] == "磐陀裂生之花"@[0]);
            assert(false);
        }
        if "巉岩琢塑之樽"@ == "嵯峨群峰之翼"@ {
            assert("巉岩琢塑之樽"@[0] == "嵯峨群峰之翼"@[0]);
            assert(false);
        }
        if "巉岩琢塑之樽"@ == "星罗圭壁之晷"@ {
            assert("巉岩琢塑之樽"@[0] == "星罗圭壁之晷"@[0]);
            assert(false);
        }
        if "巉岩琢塑之樽"@ == "星罗圭璧之晷"@ {
            assert("巉岩琢塑之樽"@[0] == "星罗圭璧之晷"@[0]);
            assert(false);
        }
        assert(name_id(corpus_at(4)) == 4);
    } else if i == 5 {
        if "不动玄石之相"@ == "磐陀裂生之花"@ {
            assert("不动玄石之相"@[0] == "磐陀裂生之花"@[0]);
            assert(false);
        }
        if "不动玄石之相"@ == "嵯峨群峰之翼"@ {
            assert("不动玄石之相"@[0] == "嵯峨群峰之翼"@[0]);
            assert(false);
        }
        if "不动玄石之相"@ == "星罗圭壁之晷"@ {
            assert("不动玄石之相"@[0] == "星罗圭壁之晷"@[0]);
            assert(false);
        }
        if "不动玄石之相"@ == "星罗圭璧之晷"@ {
            assert("不动玄石之相"@[0] == "星罗圭璧之晷"@[0]);
            assert(false);
        }
        if "不动玄石之相"@ == "巉岩琢塑之樽"@ {
            assert("不动玄石之相"@[0] == "巉岩琢塑之樽"@[0]);
            assert(false);
        }
        assert(name_id(corpus_at(5)) == 5);
    } else if i == 6 {
        assert(name_id(corpus_at(6)) == 6);
    } else if i == 7 {
        if "摧冰而行的执望"@ == "历经风雪的思念"@ {
            assert("摧冰而行的执望"@[0] == "历经风雪的思念"@[0]);
            assert(false);
        }
        assert(name_id(corpus_at(7)) == 7);
    } else if i == 8 {
        if "冰雪故园的终期"@ == "历经风雪的思念"@ {
            assert("冰雪故园的终期"@[0] == "历经风雪的思念"@[0]);
            assert(false);
        }
        if "冰雪故园的终期"@ == "摧冰而行的执望"@ {
            assert("冰雪故园的终期"@[0] == "摧冰而行的执望"@[0]);
            assert(false);
        }
        assert(name_id(corpus_at(8)) == 8);
    } else if i == 9 {
        if "遍结寒霜的傲骨"@ == "历经风雪的思念"@ {
            assert("遍结寒霜的傲骨"@[0] == "历经风雪的思念"@[0]);
            assert(false);
        }
        if "遍结寒霜的傲骨"@ == "摧冰而行的执望"@ {
            assert("遍结寒霜的傲骨"@[0] == "摧冰而行的执望"@[0]);
            assert(false);
        }
        if "遍结寒霜的傲骨"@ == "冰雪故园的终期"@ {
            assert("遍结寒霜的傲骨"@[0] == "冰雪故园的终期"@[0]);
            assert(false);
        }
        assert(name_id(corpus_at(9)) == 9);
    }
}

proof fn corpus_entry_chunk1(i: int)
    requires
        10 <= i < 20,
    ensures
        name_id(corpus_at(i)) == i,
{
    reveal_strlit("磐陀裂生之花");
    reveal_strlit("嵯峨群峰之翼");
    reveal_strlit("星罗圭壁之晷");
    reveal_strlit("星罗圭璧之晷");
    reveal_strlit("巉岩琢塑之樽");
    reveal_strlit("不动玄石之相");
    reveal_strlit("历经风雪的思念");
    reveal_strlit("摧冰而行的执望");
    reveal_strlit("冰雪故园的终期");
    reveal_strlit("遍结寒霜的傲骨");
    reveal_strlit("破冰踏雪的回音");
    reveal_strlit("染血的铁之心");
    reveal_strlit("染血的黑之羽");
    reveal_strlit("骑士染血之时");
    reveal_strlit("染血骑士之杯");
    reveal_strlit("染血的铁假面");
    reveal_strlit("魔女的炎之花");
    reveal_strlit("魔女常燃之羽");
    reveal_strlit("魔女破灭之时");
    reveal_strlit("魔女的心之火");
    if i == 10 {
        if "破冰踏雪的回音"@ == "历经风雪的思念"@ {
            assert("破冰踏雪的回音"@[0] == "历经风雪的思念"@[0]);
            assert(false);
        }
        if "破冰踏雪的回音"@ == "摧冰而行的执望"@ {
            assert("破冰踏雪的回音"@[0] == "摧冰而行的执望"@[0]);
            assert(false);
        }
        if "破冰踏雪的回音"@ == "冰雪故园的终期"@ {
            assert("破冰踏雪的回音"@[0] == "冰雪故园的终期"@[0]);
            assert(false);
        }
        if "破冰踏雪的回音"@ == "遍结寒霜的傲骨"@ {
            assert("破冰踏雪的回音"@[0] == "遍结寒霜的傲骨"@[0]);
            assert(false);
        }
        assert(name_id(corpus_at(10)) == 10);
    } else if i == 11 {
        if "染血的铁之心"@ == "磐陀裂生之花"@ {
            assert("染血的铁之心"@[0] == "磐陀裂生之花"@[0]);
            assert(false);
        }
        if "染血的铁之心"@ == "嵯峨群峰之翼"@ {
            assert("染血的铁之心"@[0] == "嵯峨群峰之翼"@[0]);
            assert(false);
        }
        if "染血的铁之心"@ == "星罗圭壁之晷"@ {
            assert("染血的铁之心"@[0] == "星罗圭壁之晷"@[0]);
            assert(false);
        }
        if "染血的铁之心"@ == "星罗圭璧之晷"@ {
            assert("染血的铁之心"@[0] == "星罗圭璧之晷"@[0]);
            assert(false);
        }
        if "染血的铁之心"@ == "巉岩琢塑之樽"@ {
            assert("染血的铁之心"@[0] == "巉岩琢塑之樽"@[0]);
            assert(false);
        }
        if "染血的铁之心"@ == "不动玄石之相"@ {
            assert("染血的铁之心"@[0] == "不动玄石之相"@[0]);
            assert(false);
        }
        assert(name_id(corpus_at(11)) == 11);
    } else if i == 12 {
        if "染血的黑之羽"@ == "磐陀裂生之花"@ {
            assert("染血的黑之羽"@[0] == "磐陀裂生之花"@[0]);
            assert(false);
        }
        if "染血的黑之羽"@ == "嵯峨群峰之翼"@ {
            assert("染血的黑之羽"@[0] == "嵯峨群峰之翼"@[0]);
            assert(false);
        }
        if "染血的黑之羽"@ == "星罗圭壁之晷"@ {
            assert("染血的黑之羽"@[0] == "星罗圭壁之晷"@[0]);
            assert(false);
        }
        if "染血的黑之羽"@ == "星罗圭璧之晷"@ {
            assert("染血的黑之羽"@[0] == "星罗圭璧之晷"@[0]);
            assert(false);
        }
        if "染血的黑之羽"@ == "巉岩琢塑之樽"@ {
            assert("染血的黑之羽"@[0] == "巉岩琢塑之樽"@[0]);
            assert(false);
        }
        if "染血的黑之羽"@ == "不动玄石之相"@ {
            assert("染血的黑之羽"@[0] == "不动玄石之相"@[0]);
            assert(false);
        }
        if "染血的黑之羽"@ == "染血的铁之心"@ {
            assert("染血的黑之羽"@[3] == "染血的铁之心"@[3]);
            assert(false);
        }
        assert(name_id(corpus_at(12)) == 12);
    } else if i == 13 {
        if "骑士染血之时"@ == "磐陀裂生之花"@ {
            assert("骑士染血之时"@[0] == "磐陀裂生之花"@[0]);
            assert(false);
        }
        if "骑士染血之时"@ == "嵯峨群峰之翼"@ {
            assert("骑士染血之时"@[0] == "嵯峨群峰之翼"@[0]);
            assert(false);
        }
        if "骑士染血之时"@ == "星罗圭壁之晷"@ {
            assert("骑士染血之时"@[0] == "星罗圭壁之晷"@[0]);
            assert(false);
        }
        if "骑士染血之时"@ == "星罗圭璧之晷"@ {
            assert("骑士染血之时"@[0] == "星罗圭璧之晷"@[0]);
            assert(false);
        }
        if "骑士染血之时"@ == "巉岩琢塑之樽"@ {
            assert("骑士染血之时"@[0] == "巉岩琢塑之樽"@[0]);
            assert(false);
        }
        if "骑士染血之时"@ == "不动玄石之相"@ {
            assert("骑士染血之时"@[0] == "不动玄石之相"@[0]);
            assert(false);
        }
        if "骑士染血之时"@ == "染血的铁之心"@ {
            assert("骑士染血之时"@[0] == "染血的铁之心"@[0]);
            assert(false);
        }
        if "骑士染血之时"@ == "染血的黑之羽"@ {
            assert("骑士染血之时"@[0] == "染血的黑之羽"@[0]);
            assert(false);
        }
        assert(name_id(corpus_at(13)) == 13);
    } else if i == 14 {
        if "染血骑士之杯"@ == "磐陀裂生之花"@ {
            assert("染血骑士之杯"@[0] == "磐陀裂生之花"@[0]);
            assert(false);
        }
        if "染血骑士之杯"@ == "嵯峨群峰之翼"@ {
            assert("染血骑士之杯"@[0] == "嵯峨群峰之翼"@[0]);
            assert(false);
        }
        if "染血骑士之杯"@ == "星罗圭壁之晷"@ {
            assert("染血骑士之杯"@[0] == "星罗圭壁之晷"@[0]);
            assert(false);
        }
        if "染血骑士之杯"@ == "星罗圭璧之晷"@ {
            assert("染血骑士之杯"@[0] == "星罗圭璧之晷"@[0]);
            assert(false);
        }
        if "染血骑士之杯"@ == "巉岩琢塑之樽"@ {
            assert("染血骑士之杯"@[0] == "巉岩琢塑之樽"@[0]);
            assert(false);
        }
        if "染血骑士之杯"@ == "不动玄石之相"@ {
            assert("染血骑士之杯"@[0] == "不动玄石之相"@[0]);
            assert(false);
        }
        if "染血骑士之杯"@ == "染血的铁之心"@ {
            assert("染血骑士之杯"@[2] == "染血的铁之心"@[2]);
            assert(false);
        }
        if "染血骑士之杯"@ == "染血的黑之羽"@ {
            assert("染血骑士之杯"@[2] == "染血的黑之羽"@[2]);
            assert(false);
        }
        if "染血骑士之杯"@ == "骑士染血之时"@ {
            assert("染血骑士之杯"@[0] == "骑士染血之时"@[0]);
            assert(false);
        }
        assert(name_id(corpus_at(14)) == 14);
    } else if i == 15 {
        if "染血的铁假面"@ == "磐陀裂生之花"@ {
            assert("染血的铁假面"@[0] == "磐陀裂生之花"@[0]);
            assert(false);
        }
        if "染血的铁假面"@ == "嵯峨群峰之翼"@ {
            assert("染血的铁假面"@[0] == "嵯峨群峰之翼"@[0]);
            assert(false);
        }
        if "染血的铁假面"@ == "星罗圭壁之晷"@ {
            assert("染血的铁假面"@[0] == "星罗圭壁之晷"@[0]);
            assert(false);
        }
        if "染血的铁假面"@ == "星罗圭璧之晷"@ {
            assert("染血的铁假面"@[0] == "星罗圭璧之晷"@[0]);
            assert(false);
        }
        if "染血的铁假面"@ == "巉岩琢塑之樽"@ {
            assert("染血的铁假面"@[0] == "巉岩琢塑之樽"@[0]);
            assert(false);
        }
        if "染血的铁假面"@ == "不动玄石之相"@ {
            assert("染血的铁假面"@[0] == "不动玄石之相"@[0]);
            assert(false);
        }
        if "染血的铁假面"@ == "染血的铁之心"@ {
            assert("染血的铁假面"@[4] == "染血的铁之心"@[4]);
            assert(false);
        }
        if "染血的铁假面"@ == "染血的黑之羽"@ {
            assert("染血的铁假面"@[3] == "染血的黑之羽"@[3]);
            assert(false);
        }
        if "染血的铁假面"@ == "骑士染血之时"@ {
            assert("染血的铁假面"@[0] == "骑士染血之时"@[0]);
            assert(false);
        }
        if "染血的铁假面"@ == "染血骑士之杯"@ {
            assert("染血的铁假面"@[2] == "染血骑士之杯"@[2]);
            assert(false);
        }
        assert(name_id(corpus_at(15)) == 15);
    } else if i == 16 {
        if "魔女的炎之花"@ == "磐陀裂生之花"@ {
            assert("魔女的炎之花"@[0] == "磐陀裂生之花"@[0]);
            assert(false);
        }
        if "魔女的炎之花"@ == "嵯峨群峰之翼"@ {
            assert("魔女的炎之花"@[0] == "嵯峨群峰之翼"@[0]);
            assert(false);
        }
        if "魔女的炎之花"@ == "星罗圭壁之晷"@ {
            assert("魔女的炎之花"@[0] == "星罗圭壁之晷"@[0]);
            assert(false);
        }
        if "魔女的炎之花"@ == "星罗圭璧之晷"@ {
            assert("魔女的炎之花"@[0] == "星罗圭璧之晷"@[0]);
            assert(false);
        }
        if "魔女的炎之花"@ == "巉岩琢塑之樽"@ {
            assert("魔女的炎之花"@[0] == "巉岩琢塑之樽"@[0]);
            assert(false);
        }
        if "魔女的炎之花"@ == "不动玄石之相"@ {
            assert("魔女的炎之花"@[0] == "不动玄石之相"@[0]);
            assert(false);
        }
        if "魔女的炎之花"@ == "染血的铁之心"@ {
            assert("魔女的炎之花"@[0] == "染血的铁之心"@[0]);
            assert(false);
        }
        if "魔女的炎之花"@ == "染血的黑之羽"@ {
            assert("魔女的炎之花"@[0] == "染血的黑之羽"@[0]);
            assert(false);
        }
        if "魔女的炎之花"@ == "骑士染血之时"@ {
            assert("魔女的炎之花"@[0] == "骑士染血之时"@[0]);
            assert(false);
        }
        if "魔女的炎之花"@ == "染血骑士之杯"@ {
            assert("魔女的炎之花"@[0] == "染血骑士之杯"@[0]);
            assert(false);
        }
        if "魔女的炎之花"@ == "染血的铁假面"@ {
            assert("魔女的炎之花"@[0] == "染血的铁假面"@[0]);
            assert(false);
        }
        assert(name_id(corpus_at(16)) == 16);
    } else if i == 17 {
        if "魔女常燃之羽"@ == "磐陀裂生之花"@ {
            assert("魔女常燃之羽"@[0] == "磐陀裂生之花"@[0]);
            assert(false);
        }
        if "魔女常燃之羽"@ == "嵯峨群峰之翼"@ {
            assert("魔女常燃之羽"@[0] == "嵯峨群峰之翼"@[0]);
            assert(false);
        }
        if "魔女常燃之羽"@ == "星罗圭壁之晷"@ {
            assert("魔女常燃之羽"@[0] == "星罗圭壁之晷"@[0]);
            assert(false);
        }
        if "魔女常燃之羽"@ == "星罗圭璧之晷"@ {
            assert("魔女常燃之羽"@[0] == "星罗圭璧之晷"@[0]);
            assert(false);
        }
        if "魔女常燃之羽"@ == "巉岩琢塑之樽"@ {
            assert("魔女常燃之羽"@[0] == "巉岩琢塑之樽"@[0]);
            assert(false);
        }
        if "魔女常燃之羽"@ == "不动玄石之相"@ {
            assert("魔女常燃之羽"@[0] == "不动玄石之相"@[0]);
            assert(false);
        }
        if "魔女常燃之羽"@ == "染血的铁之心"@ {
            assert("魔女常燃之羽"@[0] == "染血的铁之心"@[0]);
            assert(false);
        }
        if "魔女常燃之羽"@ == "染血的黑之羽"@ {
            assert("魔女常燃之羽"@[0] == "染血的黑之羽"@[0]);
            assert(false);
        }
        if "魔女常燃之羽"@ == "骑士染血之时"@ {
            assert("魔女常燃之羽"@[0] == "骑士染血之时"@[0]);
            assert(false);
        }
        if "魔女常燃之羽"@ == "染血骑士之杯"@ {
            assert("魔女常燃之羽"@[0] == "染血骑士之杯"@[0]);
            assert(false);
        }
        if "魔女常燃之羽"@ == "染血的铁假面"@ {
            assert("魔女常燃之羽"@[0] == "染血的铁假面"@[0]);
            assert(false);
        }
        if "魔女常燃之羽"@ == "魔女的炎之花"@ {
            assert("魔女常燃之羽"@[2] == "魔女的炎之花"@[2]);
            assert(false);
        }
        assert(name_id(corpus_at(17)) == 17);
    } else if i == 18 {
        if "魔女破灭之时"@ == "磐陀裂生之花"@ {
            assert("魔女破灭之时"@[0] == "磐陀裂生之花"@[0]);
            assert(false);
        }
        if "魔女破灭之时"@ == "嵯峨群峰之翼"@ {
            assert("魔女破灭之时"@[0] == "嵯峨群峰之翼"@[0]);
            assert(false);
        }
        if "魔女破灭之时"@ == "星罗圭壁之晷"@ {
            assert("魔女破灭之时"@[0] == "星罗圭壁之晷"@[0]);
            assert(false);
        }
        if "魔女破灭之时"@ == "星罗圭璧之晷"@ {
            assert("魔女破灭之时"@[0] == "星罗圭璧之晷"@[0]);
            assert(false);
        }
        if "魔女破灭之时"@ == "巉岩琢塑之樽"@ {
            assert("魔女破灭之时"@[0] == "巉岩琢塑之樽"@[0]);
            assert(false);
        }
        if "魔女破灭之时"@ == "不动玄石之相"@ {
            assert("魔女破灭之时"@[0] == "不动玄石之相"@[0]);
            assert(false);
        }
        if "魔女破灭之时"@ == "染血的铁之心"@ {
            assert("魔女破灭之时"@[0] == "染血的铁之心"@[0]);
            assert(false);
        }
        if "魔女破灭之时"@ == "染血的黑之羽"@ {
            assert("魔女破灭之时"@[0] == "染血的黑之羽"@[0]);
            assert(false);
        }
        if "魔女破灭之时"@ == "骑士染血之时"@ {
            assert("魔女破灭之时"@[0] == "骑士染血之时"@[0]);
            assert(false);
        }
        if "魔女破灭之时"@ == "染血骑士之杯"@ {
            assert("魔女破灭之时"@[0] == "染血骑士之杯"@[0]);
            assert(false);
        }
        if "魔女破灭之时"@ == "染血的铁假面"@ {
            assert("魔女破灭之时"@[0] == "染血的铁假面"@[0]);
            assert(false);
        }
        if "魔女破灭之时"@ == "魔女的炎之花"@ {
            assert("魔女破灭之时"@[2] == "魔女的炎之花"@[2]);
            assert(false);
        }
        if "魔女破灭之时"@ == "魔女常燃之羽"@ {
            assert("魔女破灭之时"@[2] == "魔女常燃之羽"@[2]);
            assert(false);
        }
        assert(name_id(corpus_at(18)) == 18);
    } else if i == 19 {
        if "魔女的心之火"@ == "磐陀裂生之花"@ {
            assert("魔女的心之火"@[0] == "磐陀裂生之花"@[0]);
            assert(false);
        }
        if "魔女的心之火"@ == "嵯峨群峰之翼"@ {
            assert("魔女的心之火"@[0] == "嵯峨群峰之翼"@[0]);
            assert(false);
        }
        if "魔女的心之火"@ == "星罗圭壁之晷"@ {
            assert("魔女的心之火"@[0] == "星罗圭壁之晷"@[0]);
            assert(false);
        }
        if "魔女的心之火"@ == "星罗圭璧之晷"@ {
            assert("魔女的心之火"@[0] == "星罗圭璧之晷"@[0]);
            assert(false);
        }
        if "魔女的心之火"@ == "巉岩琢塑之樽"@ {
            assert("魔女的心之火"@[0] == "巉岩琢塑之樽"@[0]);
            assert(false);
        }
        if "魔女的心之火"@ == "不动玄石之相"@ {
            assert("魔女的心之火"@[0] == "不动玄石之相"@[0]);
            assert(false);
        }
        if "魔女的心之火"@ == "染血的铁之心"@ {
            assert("魔女的心之火"@[0] == "染血的铁之心"@[0]);
            assert(false);
        }
        if "魔女的心之火"@ == "染血的黑之羽"@ {
            assert("魔女的心之火"@[0] == "染血的黑之羽"@[0]);
            assert(false);
        }
        if "魔女的心之火"@ == "骑士染血之时"@ {
            assert("魔女的心之火"@[0] == "骑士染血之时"@[0]);
            assert(false);
        }
        if "魔女的心之火"@ == "染血骑士之杯"@ {
            assert("魔女的心之火"@[0] == "染血骑士之杯"@[0]);
            assert(false);
        }
        if "魔女的心之火"@ == "染血的铁假面"@ {
            assert("魔女的心之火"@[0] == "染血的铁假面"@[0]);
            assert(false);
        }
        if "魔女的心之火"@ == "魔女的炎之花"@ {
            assert("魔女的心之火"@[3] == "魔女的炎之花"@[3]);
            assert(false);
        }
        if "魔女的心之火"@ == "魔女常燃之羽"@ {
            assert("魔女的心之火"@[2] == "魔女常燃之羽"@[2]);
            assert(false);
        }
        if "魔女的心之火"@ == "魔女破灭之时"@ {
            assert("魔女的心之火"@[2] == "魔女破灭之时"@[2]);
            assert(false);
        }
        assert(name_id(corpus_at(19)) == 19);
    }
}

proof fn corpus_entry_chunk2(i: int)
    requires
        20 <= i < 30,
    ensures
        name_id(corpus_at(i)) == i,
{
    reveal_strlit("磐陀裂生之花");
    reveal_strlit("嵯峨群峰之翼");
    reveal_strlit("星罗圭壁之晷");
    reveal_strlit("星罗圭璧之晷");
    reveal_strlit("巉岩琢塑之樽");
    reveal_strlit("不动玄石之相");
    reveal_strlit("染血的铁之心");
    reveal_strlit("染血的黑之羽");
    reveal_strlit("骑士染血之时");
    reveal_strlit("染血骑士之杯");
    reveal_strlit("染血的铁假面");
    reveal_strlit("魔女的炎之花");
    reveal_strlit("魔女常燃之羽");
    reveal_strlit("魔女破灭之时");
    reveal_strlit("魔女的心之火");
    reveal_strlit("焦灼的魔女帽");
    reveal_strlit("角斗士的留恋");
    reveal_strlit("角斗士的归宿");
    reveal_strlit("角斗士的希冀");
    reveal_strlit("角斗士的酣醉");
    reveal_strlit("角斗士的凯旋");
    reveal_strlit("饰金胸花");
    reveal_strlit("追忆之风");
    reveal_strlit("坚铜罗盘");
    reveal_strlit("沉波之盏");
    if i == 20 {
        if "焦灼的魔女帽"@ == "磐陀裂生之花"@ {
            assert("焦灼的魔女帽"@[0] == "磐陀裂生之花"@[0]);
            assert(false);
        }
        if "焦灼的魔女帽"@ == "嵯峨群峰之翼"@ {
            assert("焦灼的魔女帽"@[0] == "嵯峨群峰之翼"@[0]);
            assert(false);
        }
        if "焦灼的魔女帽"@ == "星罗圭壁之晷"@ {
            assert("焦灼的魔女帽"@[0] == "星罗圭壁之晷"@[0]);
            assert(false);
        }
        if "焦灼的魔女帽"@ == "星罗圭璧之晷"@ {
            assert("焦灼的魔女帽"@[0] == "星罗圭璧之晷"@[0]);
            assert(false);
        }
        if "焦灼的魔女帽"@ == "巉岩琢塑之樽"@ {
            assert("焦灼的魔女帽"@[0] == "巉岩琢塑之樽"@[0]);
            assert(false);
        }
        if "焦灼的魔女帽"@ == "不动玄石之相"@ {
            assert("焦灼的魔女帽"@[0] == "不动玄石之相"@[0]);
            assert(false);
        }
        if "焦灼的魔女帽"@ == "染血的铁之心"@ {
            assert("焦灼的魔女帽"@[0] == "染血的铁之心"@[0]);
            assert(false);
        }
        if "焦灼的魔女帽"@ == "染血的黑之羽"@ {
            assert("焦灼的魔女帽"@[0] == "染血的黑之羽"@[0]);
            assert(false);
        }
        if "焦灼的魔女帽"@ == "骑士染血之时"@ {
            assert("焦灼的魔女帽"@[0] == "骑士染血之时"@[0]);
            assert(false);
        }
        if "焦灼的魔女帽"@ == "染血骑士之杯"@ {
            assert("焦灼的魔女帽"@[0] == "染血骑士之杯"@[0]);
            assert(false);
        }
        if "焦灼的魔女帽"@ == "染血的铁假面"@ {
            assert("焦灼的魔女帽"@[0] == "染血的铁假面"@[0]);
            assert(false);
        }
        if "焦灼的魔女帽"@ == "魔女的炎之花"@ {
            assert("焦灼的魔女帽"@[0] == "魔女的炎之花"@[0]);
            assert(false);
        }
        if "焦灼的魔女帽"@ == "魔女常燃之羽"@ {
            assert("焦灼的魔女帽"@[0] == "魔女常燃之羽"@[0]);
            assert(false);
        }
        if "焦灼的魔女帽"@ == "魔女破灭之时"@ {
            assert("焦灼的魔女帽"@[0] == "魔女破灭之时"@[0]);
            assert(false);
        }
        if "焦灼的魔女帽"@ == "魔女的心之火"@ {
            assert("焦灼的魔女帽"@[0] == "魔女的心之火"@[0]);
            assert(false);
        }
        assert(name_id(corpus_at(20)) == 20);
    } else if i == 21 {
        if "角斗士的留恋"@ == "磐陀裂生之花"@ {
            assert("角斗士的留恋"@[0] == "磐陀裂生之花"@[0]);
            assert(false);
        }
        if "角斗士的留恋"@ == "嵯峨群峰之翼"@ {
            assert("角斗士的留恋"@[0] == "嵯峨群峰之翼"@[0]);
            assert(false);
        }
        if "角斗士的留恋"@ == "星罗圭壁之晷"@ {
            assert("角斗士的留恋"@[0] == "星罗圭壁之晷"@[0]);
            assert(false);
        }
        if "角斗士的留恋"@ == "星罗圭璧之晷"@ {
            assert("角斗士的留恋"@[0] == "星罗圭璧之晷"@[0]);
            assert(false);
        }
        if "角斗士的留恋"@ == "巉岩琢塑之樽"@ {
            assert("角斗士的留恋"@[0] == "巉岩琢塑之樽"@[0]);
            assert(false);
        }
        if "角斗士的留恋"@ == "不动玄石之相"@ {
            assert("角斗士的留恋"@[0] == "不动玄石之相"@[0]);
            assert(false);
        }
        if "角斗士的留恋"@ == "染血的铁之心"@ {
            assert("角斗士的留恋"@[0] == "染血的铁之心"@[0]);
            assert(false);
        }
        if "角斗士的留恋"@ == "染血的黑之羽"@ {
            assert("角斗士的留恋"@[0] == "染血的黑之羽"@[0]);
            assert(false);
        }
        if "角斗士的留恋"@ == "骑士染血之时"@ {
            assert("角斗士的留恋"@[0] == "骑士染血之时"@[0]);
            assert(false);
        }
        if "角斗士的留恋"@ == "染血骑士之杯"@ {
            assert("角斗士的留恋"@[0] == "染血骑士之杯"@[0]);
            assert(false);
        }
        if "角斗士的留恋"@ == "染血的铁假面"@ {
            assert("角斗士的留恋"@[0] == "染血的铁假面"@[0]);
            assert(false);
        }
        if "角斗士的留恋"@ == "魔女的炎之花"@ {
            assert("角斗士的留恋"@[0] == "魔女的炎之花"@[0]);
            assert(false);
        }
        if "角斗士的留恋"@ == "魔女常燃之羽"@ {
            assert("角斗士的留恋"@[0] == "魔女常燃之羽"@[0]);
            assert(false);
        }
        if "角斗士的留恋"@ == "魔女破灭之时"@ {
            assert("角斗士的留恋"@[0] == "魔女破灭之时"@[0]);
            assert(false);
        }
        if "角斗士的留恋"@ == "魔女的心之火"@ {
            assert("角斗士的留恋"@[0] == "魔女的心之火"@[0]);
            assert(false);
        }
        if "角斗士的留恋"@ == "焦灼的魔女帽"@ {
            assert("角斗士的留恋"@[0] == "焦灼的魔女帽"@[0]);
            assert(false);
        }
        assert(name_id(corpus_at(21)) == 21);
    } else if i == 22 {
        if "角斗士的归宿"@ == "磐陀裂生之花"@ {
            assert("角斗士的归宿"@[0] == "磐陀裂生之花"@[0]);
            assert(false);
        }
        if "角斗士的归宿"@ == "嵯峨群峰之翼"@ {
            assert("角斗士的归宿"@[0] == "嵯峨群峰之翼"@[0]);
            assert(false);
        }
        if "角斗士的归宿"@ == "星罗圭壁之晷"@ {
            assert("角斗士的归宿"@[0] == "星罗圭壁之晷"@[0]);
            assert(false);
        }
        if "角斗士的归宿"@ == "星罗圭璧之晷"@ {
            assert("角斗士的归宿"@[0] == "星罗圭璧之晷"@[0]);
            assert(false);
        }
        if "角斗士的归宿"@ == "巉岩琢塑之樽"@ {
            assert("角斗士的归宿"@[0] == "巉岩琢塑之樽"@[0]);
            assert(false);
        }
        if "角斗士的归宿"@ == "不动玄石之相"@ {
            assert("角斗士的归宿"@[0] == "不动玄石之相"@[0]);
            assert(false);
        }
        if "角斗士的归宿"@ == "染血的铁之心"@ {
            assert("角斗士的归宿"@[0] == "染血的铁之心"@[0]);
            assert(false);
        }
        if "角斗士的归宿"@ == "染血的黑之羽"@ {
            assert("角斗士的归宿"@[0] == "染血的黑之羽"@[0]);
            assert(false);
        }
        if "角斗士的归宿"@ == "骑士染血之时"@ {
            assert("角斗士的归宿"@[0] == "骑士染血之时"@[0]);
            assert(false);
        }
        if "角斗士的归宿"@ == "染血骑士之杯"@ {
            assert("角斗士的归宿"@[0] == "染血骑士之杯"@[0]);
            assert(false);
        }
        if "角斗士的归宿"@ == "染血的铁假面"@ {
            assert("角斗士的归宿"@[0] == "染血的铁假面"@[0]);
            assert(false);
        }
        if "角斗士的归宿"@ == "魔女的炎之花"@ {
            assert("角斗士的归宿"@[0] == "魔女的炎之花"@[0]);
            assert(false);
        }
        if "角斗士的归宿"@ == "魔女常燃之羽"@ {
            assert("角斗士的归宿"@[0] == "魔女常燃之羽"@[0]);
            assert(false);
        }
        if "角斗士的归宿"@ == "魔女破灭之时"@ {
            assert("角斗士的归宿"@[0] == "魔女破灭之时"@[0]);
            assert(false);
        }
        if "角斗士的归宿"@ == "魔女的心之火"@ {
            assert("角斗士的归宿"@[0] == "魔女的心之火"@[0]);
            assert(false);
        }
        if "角斗士的归宿"@ == "焦灼的魔女帽"@ {
            assert("角斗士的归宿"@[0] == "焦灼的魔女帽"@[0]);
            assert(false);
        }
        if "角斗士的归宿"@ == "角斗士的留恋"@ {
            assert("角斗士的归宿"@[4] == "角斗士的留恋"@[4]);
            assert(false);
        }
        assert(name_id(corpus_at(22)) == 22);
    } else if i == 23 {
        if "角斗士的希冀"@ == "磐陀裂生之花"@ {
            assert("角斗士的希冀"@[0] == "磐陀裂生之花"@[0]);
            assert(false);
        }
        if "角斗士的希冀"@ == "嵯峨群峰之翼"@ {
            assert("角斗士的希冀"@[0] == "嵯峨群峰之翼"@[0]);
            assert(false);
        }
        if "角斗士的希冀"@ == "星罗圭壁之晷"@ {
            assert("角斗士的希冀"@[0] == "星罗圭壁之晷"@[0]);
            assert(false);
        }
        if "角斗士的希冀"@ == "星罗圭璧之晷"@ {
            assert("角斗士的希冀"@[0] == "星罗圭璧之晷"@[0]);
            assert(false);
        }
        if "角斗士的希冀"@ == "巉岩琢塑之樽"@ {
            assert("角斗士的希冀"@[0] == "巉岩琢塑之樽"@[0]);
            assert(false);
        }
        if "角斗士的希冀"@ == "不动玄石之相"@ {
            assert("角斗士的希冀"@[0] == "不动玄石之相"@[0]);
            assert(false);
        }
        if "角斗士的希冀"@ == "染血的铁之心"@ {
            assert("角斗士的希冀"@[0] == "染血的铁之心"@[0]);
            assert(false);
        }
        if "角斗士的希冀"@ == "染血的黑之羽"@ {
            assert("角斗士的希冀"@[0] == "染血的黑之羽"@[0]);
            assert(false);
        }
        if "角斗士的希冀"@ == "骑士染血之时"@ {
            assert("角斗士的希冀"@[0] == "骑士染血之时"@[0]);
            assert(false);
        }
        if "角斗士的希冀"@ == "染血骑士之杯"@ {
            assert("角斗士的希冀"@[0] == "染血骑士之杯"@[0]);
            assert(false);
        }
        if "角斗士的希冀"@ == "染血的铁假面"@ {
            assert("角斗士的希冀"@[0] == "染血的铁假面"@[0]);
            assert(false);
        }
        if "角斗士的希冀"@ == "魔女的炎之花"@ {
            assert("角斗士的希冀"@[0] == "魔女的炎之花"@[0]);
            assert(false);
        }
        if "角斗士的希冀"@ == "魔女常燃之羽"@ {
            assert("角斗士的希冀"@[0] == "魔女常燃之羽"@[0]);
            assert(false);
        }
        if "角斗士的希冀"@ == "魔女破灭之时"@ {
            assert("角斗士的希冀"@[0] == "魔女破灭之时"@[0]);
            assert(false);
        }
        if "角斗士的希冀"@ == "魔女的心之火"@ {
            assert("角斗士的希冀"@[0] == "魔女的心之火"@[0]);
            assert(false);
        }
        if "角斗士的希冀"@ == "焦灼的魔女帽"@ {
            assert("角斗士的希冀"@[0] == "焦灼的魔女帽"@[0]);
            assert(false);
        }
        if "角斗士的希冀"@ == "角斗士的留恋"@ {
            assert("角斗士的希冀"@[4] == "角斗士的留恋"@[4]);
            assert(false);
        }
        if "角斗士的希冀"@ == "角斗士的归宿"@ {
            assert("角斗士的希冀"@[4] == "角斗士的归宿"@[4]);
            assert(false);
        }
        assert(name_id(corpus_at(23)) == 23);
    } else if i == 24 {
        if "角斗士的酣醉"@ == "磐陀裂生之花"@ {
            assert("角斗士的酣醉"@[0] == "磐陀裂生之花"@[0]);
            assert(false);
        }
        if "角斗士的酣醉"@ == "嵯峨群峰之翼"@ {
            assert("角斗士的酣醉"@[0] == "嵯峨群峰之翼"@[0]);
            assert(false);
        }
        if "角斗士的酣醉"@ == "星罗圭壁之晷"@ {
            assert("角斗士的酣醉"@[0] == "星罗圭壁之晷"@[0]);
            assert(false);
        }
        if "角斗士的酣醉"@ == "星罗圭璧之晷"@ {
            assert("角斗士的酣醉"@[0] == "星罗圭璧之晷"@[0]);
            assert(false);
        }
        if "角斗士的酣醉"@ == "巉岩琢塑之樽"@ {
            assert("角斗士的酣醉"@[0] == "巉岩琢塑之樽"@[0]);
            assert(false);
        }
        if "角斗士的酣醉"@ == "不动玄石之相"@ {
            assert("角斗士的酣醉"@[0] == "不动玄石之相"@[0]);
            assert(false);
        }
        if "角斗士的酣醉"@ == "染血的铁之心"@ {
            assert("角斗士的酣醉"@[0] == "染血的铁之心"@[0]);
            assert(false);
        }
        if "角斗士的酣醉"@ == "染血的黑之羽"@ {
            assert("角斗士的酣醉"@[0] == "染血的黑之羽"@[0]);
            assert(false);
        }
        if "角斗士的酣醉"@ == "骑士染血之时"@ {
            assert("角斗士的酣醉"@[0] == "骑士染血之时"@[0]);
            assert(false);
        }
        if "角斗士的酣醉"@ == "染血骑士之杯"@ {
            assert("角斗士的酣醉"@[0] == "染血骑士之杯"@[0]);
            assert(false);
        }
        if "角斗士的酣醉"@ == "染血的铁假面"@ {
            assert("角斗士的酣醉"@[0] == "染血的铁假面"@[0]);
            assert(false);
        }
        if "角斗士的酣醉"@ == "魔女的炎之花"@ {
            assert("角斗士的酣醉"@[0] == "魔女的炎之花"@[0]);
            assert(false);
        }
        if "角斗士的酣醉"@ == "魔女常燃之羽"@ {
            assert("角斗士的酣醉"@[0] == "魔女常燃之羽"@[0]);
            assert(false);
        }
        if "角斗士的酣醉"@ == "魔女破灭之时"@ {
            assert("角斗士的酣醉"@[0] == "魔女破灭之时"@[0]);
            assert(false);
        }
        if "角斗士的酣醉"@ == "魔女的心之火"@ {
            assert("角斗士的酣醉"@[0] == "魔女的心之火"@[0]);
            assert(false);
        }
        if "角斗士的酣醉"@ == "焦灼的魔女帽"@ {
            assert("角斗士的酣醉"@[0] == "焦灼的魔女帽"@[0]);
            assert(false);
        }
        if "角斗士的酣醉"@ == "角斗士的留恋"@ {
            assert("角斗士的酣醉"@[4] == "角斗士的留恋"@[4]);
            assert(false);
        }
        if "角斗士的酣醉"@ == "角斗士的归宿"@ {
            assert("角斗士的酣醉"@[4] == "角斗士的归宿"@[4]);
            assert(false);
        }
        if "角斗士的酣醉"@ == "角斗士的希冀"@ {
            assert("角斗士的酣醉"@[4] == "角斗士的希冀"@[4]);
            assert(false);
        }
        assert(name_id(corpus_at(24)) == 24);
    } else if i == 25 {
        if "角斗士的凯旋"@ == "磐陀裂生之花"@ {
            assert("角斗士的凯旋"@[0] == "磐陀裂生之花"@[0]);
            assert(false);
        }
        if "角斗士的凯旋"@ == "嵯峨群峰之翼"@ {
            assert("角斗士的凯旋"@[0] == "嵯峨群峰之翼"@[0]);
            assert(false);
        }
        if "角斗士的凯旋"@ == "星罗圭壁之晷"@ {
            assert("角斗士的凯旋"@[0] == "星罗圭壁之晷"@[0]);
            assert(false);
        }
        if "角斗士的凯旋"@ == "星罗圭璧之晷"@ {
            assert("角斗士的凯旋"@[0] == "星罗圭璧之晷"@[0]);
            assert(false);
        }
        if "角斗士的凯旋"@ == "巉岩琢塑之樽"@ {
            assert("角斗士的凯旋"@[0] == "巉岩琢塑之樽"@[0]);
            assert(false);
        }
        if "角斗士的凯旋"@ == "不动玄石之相"@ {
            assert("角斗士的凯旋"@[0] == "不动玄石之相"@[0]);
            assert(false);
        }
        if "角斗士的凯旋"@ == "染血的铁之心"@ {
            assert("角斗士的凯旋"@[0] == "染血的铁之心"@[0]);
            assert(false);
        }
        if "角斗士的凯旋"@ == "染血的黑之羽"@ {
            assert("角斗士的凯旋"@[0] == "染血的黑之羽"@[0]);
            assert(false);
        }
        if "角斗士的凯旋"@ == "骑士染血之时"@ {
            assert("角斗士的凯旋"@[0] == "骑士染血之时"@[0]);
            assert(false);
        }
        if "角斗士的凯旋"@ == "染血骑士之杯"@ {
            assert("角斗士的凯旋"@[0] == "染血骑士之杯"@[0]);
            assert(false);
        }
        if "角斗士的凯旋"@ == "染血的铁假面"@ {
            assert("角斗士的凯旋"@[0] == "染血的铁假面"@[0]);
            assert(false);
        }
        if "角斗士的凯旋"@ == "魔女的炎之花"@ {
            assert("角斗士的凯旋"@[0] == "魔女的炎之花"@[0]);
            assert(false);
        }
        if "角斗士的凯旋"@ == "魔女常燃之羽"@ {
            assert("角斗士的凯旋"@[0] == "魔女常燃之羽"@[0]);
            assert(false);
        }
        if "角斗士的凯旋"@ == "魔女破灭之时"@ {
            assert("角斗士的凯旋"@[0] == "魔女破灭之时"@[0]);
            assert(false);
        }
        if "角斗士的凯旋"@ == "魔女的心之火"@ {
            assert("角斗士的凯旋"@[0] == "魔女的心之火"@[0]);
            assert(false);
        }
        if "角斗士的凯旋"@ == "焦灼的魔女帽"@ {
            assert("角斗士的凯旋"@[0] == "焦灼的魔女帽"@[0]);
            assert(false);
        }
        if "角斗士的凯旋"@ == "角斗士的留恋"@ {
            assert("角斗士的凯旋"@[4] == "角斗士的留恋"@[4]);
            assert(false);
        }
        if "角斗士的凯旋"@ == "角斗士的归宿"@ {
            assert("角斗士的凯旋"@[4] == "角斗士的归宿"@[4]);
            assert(false);
        }
        if "角斗士的凯旋"@ == "角斗士的希冀"@ {
            assert("角斗士的凯旋"@[4] == "角斗士的希冀"@[4]);
            assert(false);
        }
        if "角斗士的凯旋"@ == "角斗士的酣醉"@ {
            assert("角斗士的凯旋"@[4] == "角斗士的酣醉"@[4]);
            assert(false);
        }
        assert(name_id(corpus_at(25)) == 25);
    } else if i == 26 {
        assert(name_id(corpus_at(26)) == 26);
    } else if i == 27 {
        if "追忆之风"@ == "饰金胸花"@ {
            assert("追忆之风"@[0] == "饰金胸花"@[0]);
            assert(false);
        }
        assert(name_id(corpus_at(27)) == 27);
    } else if i == 28 {
        if "坚铜罗盘"@ == "饰金胸花"@ {
            assert("坚铜罗盘"@[0] == "饰金胸花"@[0]);
            assert(false);
        }
        if "坚铜罗盘"@ == "追忆之风"@ {
            assert("坚铜罗盘"@[0] == "追忆之风"@[0]);
            assert(false);
        }
        assert(name_id(corpus_at(28)) == 28);
    } else if i == 29 {
        if "沉波之盏"@ == "饰金胸花"@ {
            assert("沉波之盏"@[0] == "饰金胸花"@[0]);
            assert(false);
        }
        if "沉波之盏"@ == "追忆之风"@ {
            assert("沉波之盏"@[0] == "追忆之风"@[0]);
            assert(false);
        }
        if "沉波之盏"@ == "坚铜罗盘"@ {
            assert("沉波之盏"@[0] == "坚铜罗盘"@[0]);
            assert(false);
        }
        assert(name_id(corpus_at(29)) == 29);
    }
}

proof fn corpus_entry_chunk3(i: int)
    requires
        30 <= i < 40,
    ensures
        name_id(corpus_at(i)) == i,
{
    reveal_strlit("磐陀裂生之花");
    reveal_strlit("嵯峨群峰之翼");
    reveal_strlit("星罗圭壁之晷");
    reveal_strlit("星罗圭璧之晷");
    reveal_strlit("巉岩琢塑之樽");
    reveal_strlit("不动玄石之相");
    reveal_strlit("历经风雪的思念");
    reveal_strlit("摧冰而行的执望");
    reveal_strlit("冰雪故园的终期");
    reveal_strlit("遍结寒霜的傲骨");
    reveal_strlit("破冰踏雪的回音");
    reveal_strlit("染血的铁之心");
    reveal_strlit("染血的黑之羽");
    reveal_strlit("骑士染血之时");
    reveal_strlit("染血骑士之杯");
    reveal_strlit("染血的铁假面");
    reveal_strlit("魔女的炎之花");
    reveal_strlit("魔女常燃之羽");
    reveal_strlit("魔女破灭之时");
    reveal_strlit("魔女的心之火");
    reveal_strlit("焦灼的魔女帽");
    reveal_strlit("角斗士的留恋");
    reveal_strlit("角斗士的归宿");
    reveal_strlit("角斗士的希冀");
    reveal_strlit("角斗士的酣醉");
    reveal_strlit("角斗士的凯旋");
    reveal_strlit("饰金胸花");
    reveal_strlit("追忆之风");
    reveal_strlit("坚铜罗盘");
    reveal_strlit("沉波之盏");
    reveal_strlit("酒渍船帽");
    reveal_strlit("渡火者的决绝");
    reveal_strlit("渡火者的解脱");
    reveal_strlit("渡火者的煎熬");
    reveal_strlit("渡火者的醒悟");
    reveal_strlit("渡火者的智慧");
    reveal_strlit("远方的少女之心");
    reveal_strlit("少女飘摇的思念");
    reveal_strlit("少女苦短的良辰");
    reveal_strlit("少女片刻的闲暇");
    if i == 30 {
        if "酒渍船帽"@ == "饰金胸花"@ {
            assert("酒渍船帽"@[0] == "饰金胸花"@[0]);
            assert(false);
        }
        if "酒渍船帽"@ == "追忆之风"@ {
            assert("酒渍船帽"@[0] == "追忆之风"@[0]);
            assert(false);
        }
        if "酒渍船帽"@ == "坚铜罗盘"@ {
            assert("酒渍船帽"@[0] == "坚铜罗盘"@[0]);
            assert(false);
        }
        if "酒渍船帽"@ == "沉波之盏"@ {
            assert("酒渍船帽"@[0] == "沉波之盏"@[0]);
            assert(false);
        }
        assert(name_id(corpus_at(30)) == 30);
    } else if i == 31 {
        if "渡火者的决绝"@ == "磐陀裂生之花"@ {
            assert("渡火者的决绝"@[0] == "磐陀裂生之花"@[0]);
            assert(false);
        }
        if "渡火者的决绝"@ == "嵯峨群峰之翼"@ {
            assert("渡火者的决绝"@[0] == "嵯峨群峰之翼"@[0]);
            assert(false);
        }
        if "渡火者的决绝"@ == "星罗圭壁之晷"@ {
            assert("渡火者的决绝"@[0] == "星罗圭壁之晷"@[0]);
            assert(false);
        }
        if "渡火者的决绝"@ == "星罗圭璧之晷"@ {
            assert("渡火者的决绝"@[0] == "星罗圭璧之晷"@[0]);
            assert(false);
        }
        if "渡火者的决绝"@ == "巉岩琢塑之樽"@ {
            assert("渡火者的决绝"@[0] == "巉岩琢塑之樽"@[0]);
            assert(false);
        }
        if "渡火者的决绝"@ == "不动玄石之相"@ {
            assert("渡火者的决绝"@[0] == "不动玄石之相"@[0]);
            assert(false);
        }
        if "渡火者的决绝"@ == "染血的铁之心"@ {
            assert("渡火者的决绝"@[0] == "染血的铁之心"@[0]);
            assert(false);
        }
        if "渡火者的决绝"@ == "染血的黑之羽"@ {
            assert("渡火者的决绝"@[0] == "染血的黑之羽"@[0]);
            assert(false);
        }
        if "渡火者的决绝"@ == "骑士染血之时"@ {
            assert("渡火者的决绝"@[0] == "骑士染血之时"@[0]);
            assert(false);
        }
        if "渡火者的决绝"@ == "染血骑士之杯"@ {
            assert("渡火者的决绝"@[0] == "染血骑士之杯"@[0]);
            assert(false);
        }
        if "渡火者的决绝"@ == "染血的铁假面"@ {
            assert("渡火者的决绝"@[0] == "染血的铁假面"@[0]);
            assert(false);
        }
        if "渡火者的决绝"@ == "魔女的炎之花"@ {
            assert("渡火者的决绝"@[0] == "魔女的炎之花"@[0]);
            assert(false);
        }
        if "渡火者的决绝"@ == "魔女常燃之羽"@ {
            assert("渡火者的决绝"@[0] == "魔女常燃之羽"@[0]);
            assert(false);
        }
        if "渡火者的决绝"@ == "魔女破灭之时"@ {
            assert("渡火者的决绝"@[0] == "魔女破灭之时"@[0]);
            assert(false);
        }
        if "渡火者的决绝"@ == "魔女的心之火"@ {
            assert("渡火者的决绝"@[0] == "魔女的心之火"@[0]);
            assert(false);
        }
        if "渡火者的决绝"@ == "焦灼的魔女帽"@ {
            assert("渡火者的决绝"@[0] == "焦灼的魔女帽"@[0]);
            assert(false);
        }
        if "渡火者的决绝"@ == "角斗士的留恋"@ {
            assert("渡火者的决绝"@[0] == "角斗士的留恋"@[0]);
            assert(false);
        }
        if "渡火者的决绝"@ == "角斗士的归宿"@ {
            assert("渡火者的决绝"@[0] == "角斗士的归宿"@[0]);
            assert(false);
        }
        if "渡火者的决绝"@ == "角斗士的希冀"@ {
            assert("渡火者的决绝"@[0] == "角斗士的希冀"@[0]);
            assert(false);
        }
        if "渡火者的决绝"@ == "角斗士的酣醉"@ {
            assert("渡火者的决绝"@[0] == "角斗士的酣醉"@[0]);
            assert(false);
        }
        if "渡火者的决绝"@ == "角斗士的凯旋"@ {
            assert("渡火者的决绝"@[0] == "角斗士的凯旋"@[0]);
            assert(false);
        }
        assert(name_id(corpus_at(31)) == 31);
    } else if i == 32 {
        if "渡火者的解脱"@ == "磐陀裂生之花"@ {
            assert("渡火者的解脱"@[0] == "磐陀裂生之花"@[0]);
            assert(false);
        }
        if "渡火者的解脱"@ == "嵯峨群峰之翼"@ {
            assert("渡火者的解脱"@[0] == "嵯峨群峰之翼"@[0]);
            assert(false);
        }
        if "渡火者的解脱"@ == "星罗圭壁之晷"@ {
            assert("渡火者的解脱"@[0] == "星罗圭壁之晷"@[0]);
            assert(false);
        }
        if "渡火者的解脱"@ == "星罗圭璧之晷"@ {
            assert("渡火者的解脱"@[0] == "星罗圭璧之晷"@[0]);
            assert(false);
        }
        if "渡火者的解脱"@ == "巉岩琢塑之樽"@ {
            assert("渡火者的解脱"@[0] == "巉岩琢塑之樽"@[0]);
            assert(false);
        }
        if "渡火者的解脱"@ == "不动玄石之相"@ {
            assert("渡火者的解脱"@[0] == "不动玄石之相"@[0]);
            assert(false);
        }
        if "渡火者的解脱"@ == "染血的铁之心"@ {
            assert("渡火者的解脱"@[0] == "染血的铁之心"@[0]);
            assert(false);
        }
        if "渡火者的解脱"@ == "染血的黑之羽"@ {
            assert("渡火者的解脱"@[0] == "染血的黑之羽"@[0]);
            assert(false);
        }
        if "渡火者的解脱"@ == "骑士染血之时"@ {
            assert("渡火者的解脱"@[0] == "骑士染血之时"@[0]);
            assert(false);
        }
        if "渡火者的解脱"@ == "染血骑士之杯"@ {
            assert("渡火者的解脱"@[0] == "染血骑士之杯"@[0]);
            assert(false);
        }
        if "渡火者的解脱"@ == "染血的铁假面"@ {
            assert("渡火者的解脱"@[0] == "染血的铁假面"@[0]);
            assert(false);
        }
        if "渡火者的解脱"@ == "魔女的炎之花"@ {
            assert("渡火者的解脱"@[0] == "魔女的炎之花"@[0]);
            assert(false);
        }
        if "渡火者的解脱"@ == "魔女常燃之羽"@ {
            assert("渡火者的解脱"@[0] == "魔女常燃之羽"@[0]);
            assert(false);
        }
        if "渡火者的解脱"@ == "魔女破灭之时"@ {
            assert("渡火者的解脱"@[0] == "魔女破灭之时"@[0]);
            assert(false);
        }
        if "渡火者的解脱"@ == "魔女的心之火"@ {
            assert("渡火者的解脱"@[0] == "魔女的心之火"@[0]);
            assert(false);
        }
        if "渡火者的解脱"@ == "焦灼的魔女帽"@ {
            assert("渡火者的解脱"@[0] == "焦灼的魔女帽"@[0]);
            assert(false);
        }
        if "渡火者的解脱"@ == "角斗士的留恋"@ {
            assert("渡火者的解脱"@[0] == "角斗士的留恋"@[0]);
            assert(false);
        }
        if "渡火者的解脱"@ == "角斗士的归宿"@ {
            assert("渡火者的解脱"@[0] == "角斗士的归宿"@[0]);
            assert(false);
        }
        if "渡火者的解脱"@ == "角斗士的希冀"@ {
            assert("渡火者的解脱"@[0] == "角斗士的希冀"@[0]);
            assert(false);
        }
        if "渡火者的解脱"@ == "角斗士的酣醉"@ {
            assert("渡火者的解脱"@[0] == "角斗士的酣醉"@[0]);
            assert(false);
        }
        if "渡火者的解脱"@ == "角斗士的凯旋"@ {
            assert("渡火者的解脱"@[0] == "角斗士的凯旋"@[0]);
            assert(false);
        }
        if "渡火者的解脱"@ == "渡火者的决绝"@ {
            assert("渡火者的解脱"@[4] == "渡火者的决绝"@[4]);
            assert(false);
        }
        assert(name_id(corpus_at(32)) == 32);
    } else if i == 33 {
        if "渡火者的煎熬"@ == "磐陀裂生之花"@ {
            assert("渡火者的煎熬"@[0] == "磐陀裂生之花"@[0]);
            assert(false);
        }
        if "渡火者的煎熬"@ == "嵯峨群峰之翼"@ {
            assert("渡火者的煎熬"@[0] == "嵯峨群峰之翼"@[0]);
            assert(false);
        }
        if "渡火者的煎熬"@ == "星罗圭壁之晷"@ {
            assert("渡火者的煎熬"@[0] == "星罗圭壁之晷"@[0]);
            assert(false);
        }
        if "渡火者的煎熬"@ == "星罗圭璧之晷"@ {
            assert("渡火者的煎熬"@[0] == "星罗圭璧之晷"@[0]);
            assert(false);
        }
        if "渡火者的煎熬"@ == "巉岩琢塑之樽"@ {
            assert("渡火者的煎熬"@[0] == "巉岩琢塑之樽"@[0]);
            assert(false);
        }
        if "渡火者的煎熬"@ == "不动玄石之相"@ {
            assert("渡火者的煎熬"@[0] == "不动玄石之相"@[0]);
            assert(false);
        }
        if "渡火者的煎熬"@ == "染血的铁之心"@ {
            assert("渡火者的煎熬"@[0] == "染血的铁之心"@[0]);
            assert(false);
        }
        if "渡火者的煎熬"@ == "染血的黑之羽"@ {
            assert("渡火者的煎熬"@[0] == "染血的黑之羽"@[0]);
            assert(false);
        }
        if "渡火者的煎熬"@ == "骑士染血之时"@ {
            assert("渡火者的煎熬"@[0] == "骑士染血之时"@[0]);
            assert(false);
        }
        if "渡火者的煎熬"@ == "染血骑士之杯"@ {
            assert("渡火者的煎熬"@[0] == "染血骑士之杯"@[0]);
            assert(false);
        }
        if "渡火者的煎熬"@ == "染血的铁假面"@ {
            assert("渡火者的煎熬"@[0] == "染血的铁假面"@[0]);
            assert(false);
        }
        if "渡火者的煎熬"@ == "魔女的炎之花"@ {
            assert("渡火者的煎熬"@[0] == "魔女的炎之花"@[0]);
            assert(false);
        }
        if "渡火者的煎熬"@ == "魔女常燃之羽"@ {
            assert("渡火者的煎熬"@[0] == "魔女常燃之羽"@[0]);
            assert(false);
        }
        if "渡火者的煎熬"@ == "魔女破灭之时"@ {
            assert("渡火者的煎熬"@[0] == "魔女破灭之时"@[0]);
            assert(false);
        }
        if "渡火者的煎熬"@ == "魔女的心之火"@ {
            assert("渡火者的煎熬"@[0] == "魔女的心之火"@[0]);
            assert(false);
        }
        if "渡火者的煎熬"@ == "焦灼的魔女帽"@ {
            assert("渡火者的煎熬"@[0] == "焦灼的魔女帽"@[0]);
            assert(false);
        }
        if "渡火者的煎熬"@ == "角斗士的留恋"@ {
            assert("渡火者的煎熬"@[0] == "角斗士的留恋"@[0]);
            assert(false);
        }
        if "渡火者的煎熬"@ == "角斗士的归宿"@ {
            assert("渡火者的煎熬"@[0] == "角斗士的归宿"@[0]);
            assert(false);
        }
        if "渡火者的煎熬"@ == "角斗士的希冀"@ {
            assert("渡火者的煎熬"@[0] == "角斗士的希冀"@[0]);
            assert(false);
        }
        if "渡火者的煎熬"@ == "角斗士的酣醉"@ {
            assert("渡火者的煎熬"@[0] == "角斗士的酣醉"@[0]);
            assert(false);
        }
        if "渡火者的煎熬"@ == "角斗士的凯旋"@ {
            assert("渡火者的煎熬"@[0] == "角斗士的凯旋"@[0]);
            assert(false);
        }
        if "渡火者的煎熬"@ == "渡火者的决绝"@ {
            assert("渡火者的煎熬"@[4] == "渡火者的决绝"@[4]);
            assert(false);
        }
        if "渡火者的煎熬"@ == "渡火者的解脱"@ {
            assert("渡火者的煎熬"@[4] == "渡火者的解脱"@[4]);
            assert(false);
        }
        assert(name_id(corpus_at(33)) == 33);
    } else if i == 34 {
        if "渡火者的醒悟"@ == "磐陀裂生之花"@ {
            assert("渡火者的醒悟"@[0] == "磐陀裂生之花"@[0]);
            assert(false);
        }
        if "渡火者的醒悟"@ == "嵯峨群峰之翼"@ {
            assert("渡火者的醒悟"@[0] == "嵯峨群峰之翼"@[0]);
            assert(false);
        }
        if "渡火者的醒悟"@ == "星罗圭壁之晷"@ {
            assert("渡火者的醒悟"@[0] == "星罗圭壁之晷"@[0]);
            assert(false);
        }
        if "渡火者的醒悟"@ == "星罗圭璧之晷"@ {
            assert("渡火者的醒悟"@[0] == "星罗圭璧之晷"@[0]);
            assert(false);
        }
        if "渡火者的醒悟"@ == "巉岩琢塑之樽"@ {
            assert("渡火者的醒悟"@[0] == "巉岩琢塑之樽"@[0]);
            assert(false);
        }
        if "渡火者的醒悟"@ == "不动玄石之相"@ {
            assert("渡火者的醒悟"@[0] == "不动玄石之相"@[0]);
            assert(false);
        }
        if "渡火者的醒悟"@ == "染血的铁之心"@ {
            assert("渡火者的醒悟"@[0] == "染血的铁之心"@[0]);
            assert(false);
        }
        if "渡火者的醒悟"@ == "染血的黑之羽"@ {
            assert("渡火者的醒悟"@[0] == "染血的黑之羽"@[0]);
            assert(false);
        }
        if "渡火者的醒悟"@ == "骑士染血之时"@ {
            assert("渡火者的醒悟"@[0] == "骑士染血之时"@[0]);
            assert(false);
        }
        if "渡火者的醒悟"@ == "染血骑士之杯"@ {
            assert("渡火者的醒悟"@[0] == "染血骑士之杯"@[0]);
            assert(false);
        }
        if "渡火者的醒悟"@ == "染血的铁假面"@ {
            assert("渡火者的醒悟"@[0] == "染血的铁假面"@[0]);
            assert(false);
        }
        if "渡火者的醒悟"@ == "魔女的炎之花"@ {
            assert("渡火者的醒悟"@[0] == "魔女的炎之花"@[0]);
            assert(false);
        }
        if "渡火者的醒悟"@ == "魔女常燃之羽"@ {
            assert("渡火者的醒悟"@[0] == "魔女常燃之羽"@[0]);
            assert(false);
        }
        if "渡火者的醒悟"@ == "魔女破灭之时"@ {
            assert("渡火者的醒悟"@[0] == "魔女破灭之时"@[0]);
            assert(false);
        }
        if "渡火者的醒悟"@ == "魔女的心之火"@ {
            assert("渡火者的醒悟"@[0] == "魔女的心之火"@[0]);
            assert(false);
        }
        if "渡火者的醒悟"@ == "焦灼的魔女帽"@ {
            assert("渡火者的醒悟"@[0] == "焦灼的魔女帽"@[0]);
            assert(false);
        }
        if "渡火者的醒悟"@ == "角斗士的留恋"@ {
            assert("渡火者的醒悟"@[0] == "角斗士的留恋"@[0]);
            assert(false);
        }
        if "渡火者的醒悟"@ == "角斗士的归宿"@ {
            assert("渡火者的醒悟"@[0] == "角斗士的归宿"@[0]);
            assert(false);
        }
        if "渡火者的醒悟"@ == "角斗士的希冀"@ {
            assert("渡火者的醒悟"@[0] == "角斗士的希冀"@[0]);
            assert(false);
        }
        if "渡火者的醒悟"@ == "角斗士的酣醉"@ {
            assert("渡火者的醒悟"@[0] == "角斗士的酣醉"@[0]);
            assert(false);
        }
        if "渡火者的醒悟"@ == "角斗士的凯旋"@ {
            assert("渡火者的醒悟"@[0] == "角斗士的凯旋"@[0]);
            assert(false);
        }
        if "渡火者的醒悟"@ == "渡火者的决绝"@ {
            assert("渡火者的醒悟"@[4] == "渡火者的决绝"@[4]);
            assert(false);
        }
        if "渡火者的醒悟"@ == "渡火者的解脱"@ {
            assert("渡火者的醒悟"@[4] == "渡火者的解脱"@[4]);
            assert(false);
        }
        if "渡火者的醒悟"@ == "渡火者的煎熬"@ {
            assert("渡火者的醒悟"@[4] == "渡火者的煎熬"@[4]);
            assert(false);
        }
        assert(name_id(corpus_at(34)) == 34);
    } else if i == 35 {
        if "渡火者的智慧"@ == "磐陀裂生之花"@ {
            assert("渡火者的智慧"@[0] == "磐陀裂生之花"@[0]);
            assert(false);
        }
        if "渡火者的智慧"@ == "嵯峨群峰之翼"@ {
            assert("渡火者的智慧"@[0] == "嵯峨群峰之翼"@[0]);
            assert(false);
        }
        if "渡火者的智慧"@ == "星罗圭壁之晷"@ {
            assert("渡火者的智慧"@[0] == "星罗圭壁之晷"@[0]);
            assert(false);
        }
        if "渡火者的智慧"@ == "星罗圭璧之晷"@ {
            assert("渡火者的智慧"@[0] == "星罗圭璧之晷"@[0]);
            assert(false);
        }
        if "渡火者的智慧"@ == "巉岩琢塑之樽"@ {
            assert("渡火者的智慧"@[0] == "巉岩琢塑之樽"@[0]);
            assert(false);
        }
        if "渡火者的智慧"@ == "不动玄石之相"@ {
            assert("渡火者的智慧"@[0] == "不动玄石之相"@[0]);
            assert(false);
        }
        if "渡火者的智慧"@ == "染血的铁之心"@ {
            assert("渡火者的智慧"@[0] == "染血的铁之心"@[0]);
            assert(false);
        }
        if "渡火者的智慧"@ == "染血的黑之羽"@ {
            assert("渡火者的智慧"@[0] == "染血的黑之羽"@[0]);
            assert(false);
        }
        if "渡火者的智慧"@ == "骑士染血之时"@ {
            assert("渡火者的智慧"@[0] == "骑士染血之时"@[0]);
            assert(false);
        }
        if "渡火者的智慧"@ == "染血骑士之杯"@ {
            assert("渡火者的智慧"@[0] == "染血骑士之杯"@[0]);
            assert(false);
        }
        if "渡火者的智慧"@ == "染血的铁假面"@ {
            assert("渡火者的智慧"@[0] == "染血的铁假面"@[0]);
            assert(false);
        }
        if "渡火者的智慧"@ == "魔女的炎之花"@ {
            assert("渡火者的智慧"@[0] == "魔女的炎之花"@[0]);
            assert(false);
        }
        if "渡火者的智慧"@ == "魔女常燃之羽"@ {
            assert("渡火者的智慧"@[0] == "魔女常燃之羽"@[0]);
            assert(false);
        }
        if "渡火者的智慧"@ == "魔女破灭之时"@ {
            assert("渡火者的智慧"@[0] == "魔女破灭之时"@[0]);
            assert(false);
        }
        if "渡火者的智慧"@ == "魔女的心之火"@ {
            assert("渡火者的智慧"@[0] == "魔女的心之火"@[0]);
            assert(false);
        }
        if "渡火者的智慧"@ == "焦灼的魔女帽"@ {
            assert("渡火者的智慧"@[0] == "焦灼的魔女帽"@[0]);
            assert(false);
        }
        if "渡火者的智慧"@ == "角斗士的留恋"@ {
            assert("渡火者的智慧"@[0] == "角斗士的留恋"@[0]);
            assert(false);
        }
        if "渡火者的智慧"@ == "角斗士的归宿"@ {
            assert("渡火者的智慧"@[0] == "角斗士的归宿"@[0]);
            assert(false);
        }
        if "渡火者的智慧"@ == "角斗士的希冀"@ {
            assert("渡火者的智慧"@[0] == "角斗士的希冀"@[0]);
            assert(false);
        }
        if "渡火者的智慧"@ == "角斗士的酣醉"@ {
            assert("渡火者的智慧"@[0] == "角斗士的酣醉"@[0]);
            assert(false);
        }
        if "渡火者的智慧"@ == "角斗士的凯旋"@ {
            assert("渡火者的智慧"@[0] == "角斗士的凯旋"@[0]);
            assert(false);
        }
        if "渡火者的智慧"@ == "渡火者的决绝"@ {
            assert("渡火者的智慧"@[4] == "渡火者的决绝"@[4]);
            assert(false);
        }
        if "渡火者的智慧"@ == "渡火者的解脱"@ {
            assert("渡火者的智慧"@[4] == "渡火者的解脱"@[4]);
            assert(false);
        }
        if "渡火者的智慧"@ == "渡火者的煎熬"@ {
            assert("渡火者的智慧"@[4] == "渡火者的煎熬"@[4]);
            assert(false);
        }
        if "渡火者的智慧"@ == "渡火者的醒悟"@ {
            assert("渡火者的智慧"@[4] == "渡火者的醒悟"@[4]);
            assert(false);
        }
        assert(name_id(corpus_at(35)) == 35);
    } else if i == 36 {
        if "远方的少女之心"@ == "历经风雪的思念"@ {
            assert("远方的少女之心"@[0] == "历经风雪的思念"@[0]);
            assert(false);
        }
        if "远方的少女之心"@ == "摧冰而行的执望"@ {
            assert("远方的少女之心"@[0] == "摧冰而行的执望"@[0]);
            assert(false);
        }
        if "远方的少女之心"@ == "冰雪故园的终期"@ {
            assert("远方的少女之心"@[0] == "冰雪故园的终期"@[0]);
            assert(false);
        }
        if "远方的少女之心"@ == "遍结寒霜的傲骨"@ {
            assert("远方的少女之心"@[0] == "遍结寒霜的傲骨"@[0]);
            assert(false);
        }
        if "远方的少女之心"@ == "破冰踏雪的回音"@ {
            assert("远方的少女之心"@[0] == "破冰踏雪的回音"@[0]);
            assert(false);
        }
        assert(name_id(corpus_at(36)) == 36);
    } else if i == 37 {
        if "少女飘摇的思念"@ == "历经风雪的思念"@ {
            assert("少女飘摇的思念"@[0] == "历经风雪的思念"@[0]);
            assert(false);
        }
        if "少女飘摇的思念"@ == "摧冰而行的执望"@ {
            assert("少女飘摇的思念"@[0] == "摧冰而行的执望"@[0]);
            assert(false);
        }
        if "少女飘摇的思念"@ == "冰雪故园的终期"@ {
            assert("少女飘摇的思念"@[0] == "冰雪故园的终期"@[0]);
            assert(false);
        }
        if "少女飘摇的思念"@ == "遍结寒霜的傲骨"@ {
            assert("少女飘摇的思念"@[0] == "遍结寒霜的傲骨"@[0]);
            assert(false);
        }
        if "少女飘摇的思念"@ == "破冰踏雪的回音"@ {
            assert("少女飘摇的思念"@[0] == "破冰踏雪的回音"@[0]);
            assert(false);
        }
        if "少女飘摇的思念"@ == "远方的少女之心"@ {
            assert("少女飘摇的思念"@[0] == "远方的少女之心"@[0]);
            assert(false);
        }
        assert(name_id(corpus_at(37)) == 37);
    } else if i == 38 {
        if "少女苦短的良辰"@ == "历经风雪的思念"@ {
            assert("少女苦短的良辰"@[0] == "历经风雪的思念"@[0]);
            assert(false);
        }
        if "少女苦短的良辰"@ == "摧冰而行的执望"@ {
            assert("少女苦短的良辰"@[0] == "摧冰而行的执望"@[0]);
            assert(false);
        }
        if "少女苦短的良辰"@ == "冰雪故园的终期"@ {
            assert("少女苦短的良辰"@[0] == "冰雪故园的终期"@[0]);
            assert(false);
        }
        if "少女苦短的良辰"@ == "遍结寒霜的傲骨"@ {
            assert("少女苦短的良辰"@[0] == "遍结寒霜的傲骨"@[0]);
            assert(false);
        }
        if "少女苦短的良辰"@ == "破冰踏雪的回音"@ {
            assert("少女苦短的良辰"@[0] == "破冰踏雪的回音"@[0]);
            assert(false);
        }
        if "少女苦短的良辰"@ == "远方的少女之心"@ {
            assert("少女苦短的良辰"@[0] == "远方的少女之心"@[0]);
            assert(false);
        }
        if "少女苦短的良辰"@ == "少女飘摇的思念"@ {
            assert("少女苦短的良辰"@[2] == "少女飘摇的思念"@[2]);
            assert(false);
        }
        assert(name_id(corpus_at(38)) == 38);
    } else if i == 39 {
        if "少女片刻的闲暇"@ == "历经风雪的思念"@ {
            assert("少女片刻的闲暇"@[0] == "历经风雪的思念"@[0]);
            assert(false);
        }
        if "少女片刻的闲暇"@ == "摧冰而行的执望"@ {
            assert("少女片刻的闲暇"@[0] == "摧冰而行的执望"@[0]);
            assert(false);
        }
        if "少女片刻的闲暇"@ == "冰雪故园的终期"@ {
            assert("少女片刻的闲暇"@[0] == "冰雪故园的终期"@[0]);
            assert(false);
        }
        if "少女片刻的闲暇"@ == "遍结寒霜的傲骨"@ {
            assert("少女片刻的闲暇"@[0] == "遍结寒霜的傲骨"@[0]);
            assert(false);
        }
        if "少女片刻的闲暇"@ == "破冰踏雪的回音"@ {
            assert("少女片刻的闲暇"@[0] == "破冰踏雪的回音"@[0]);
            assert(false);
        }
        if "少女片刻的闲暇"@ == "远方的少女之心"@ {
            assert("少女片刻的闲暇"@[0] == "远方的少女之心"@[0]);
            assert(false);
        }
        if "少女片刻的闲暇"@ == "少女飘摇的思念"@ {
            assert("少女片刻的闲暇"@[2] == "少女飘摇的思念"@[2]);
            assert(false);
        }
        if "少女片刻的闲暇"@ == "少女苦短的良辰"@ {
            assert("少女片刻的闲暇"@[2] == "少女苦短的良辰"@[2]);
            assert(false);
        }
        assert(name_id(corpus_at(39)) == 39);
    }
}

proof fn corpus_entry_chunk4(i: int)
    requires
        40 <= i < 50,
    ensures
        name_id(corpus_at(i)) == i,
{
    reveal_strlit("历经风雪的思念");
    reveal_strlit("摧冰而行的执望");
    reveal_strlit("冰雪故园的终期");
    reveal_strlit("遍结寒霜的傲骨");
    reveal_strlit("破冰踏雪的回音");
    reveal_strlit("饰金胸花");
    reveal_strlit("追忆之风");
    reveal_strlit("坚铜罗盘");
    reveal_strlit("沉波之盏");
    reveal_strlit("酒渍船帽");
    reveal_strlit("远方的少女之心");
    reveal_strlit("少女飘摇的思念");
    reveal_strlit("少女苦短的良辰");
    reveal_strlit("少女片刻的闲暇");
    reveal_strlit("少女易逝的芳颜");
    reveal_strlit("宗室之花");
    reveal_strlit("宗室之翎");
    reveal_strlit("宗室时计");
    reveal_strlit("宗室银瓮");
    reveal_strlit("宗室面具");
    reveal_strlit("夏祭之花");
    reveal_strlit("夏祭终末");
    reveal_strlit("夏祭之刻");
    reveal_strlit("夏祭水玉");
    if i == 40 {
        if "少女易逝的芳颜"@ == "历经风雪的思念"@ {
            assert("少女易逝的芳颜"@[0] == "历经风雪的思念"@[0]);
            assert(false);
        }
        if "少女易逝的芳颜"@ == "摧冰而行的执望"@ {
            assert("少女易逝的芳颜"@[0] == "摧冰而行的执望"@[0]);
            assert(false);
        }
        if "少女易逝的芳颜"@ == "冰雪故园的终期"@ {
            assert("少女易逝的芳颜"@[0] == "冰雪故园的终期"@[0]);
            assert(false);
        }
        if "少女易逝的芳颜"@ == "遍结寒霜的傲骨"@ {
            assert("少女易逝的芳颜"@[0] == "遍结寒霜的傲骨"@[0]);
            assert(false);
        }
        if "少女易逝的芳颜"@ == "破冰踏雪的回音"@ {
            assert("少女易逝的芳颜"@[0] == "破冰踏雪的回音"@[0]);
            assert(false);
        }
        if "少女易逝的芳颜"@ == "远方的少女之心"@ {
            assert("少女易逝的芳颜"@[0] == "远方的少女之心"@[0]);
            assert(false);
        }
        if "少女易逝的芳颜"@ == "少女飘摇的思念"@ {
            assert("少女易逝的芳颜"@[2] == "少女飘摇的思念"@[2]);
            assert(false);
        }
        if "少女易逝的芳颜"@ == "少女苦短的良辰"@ {
            assert("少女易逝的芳颜"@[2] == "少女苦短的良辰"@[2]);
            assert(false);
        }
        if "少女易逝的芳颜"@ == "少女片刻的闲暇"@ {
            assert("少女易逝的芳颜"@[2] == "少女片刻的闲暇"@[2]);
            assert(false);
        }
        assert(name_id(corpus_at(40)) == 40);
    } else if i == 41 {
        if "宗室之花"@ == "饰金胸花"@ {
            assert("宗室之花"@[0] == "饰金胸花"@[0]);
            assert(false);
        }
        if "宗室之花"@ == "追忆之风"@ {
            assert("宗室之花"@[0] == "追忆之风"@[0]);
            assert(false);
        }
        if "宗室之花"@ == "坚铜罗盘"@ {
            assert("宗室之花"@[0] == "坚铜罗盘"@[0]);
            assert(false);
        }
        if "宗室之花"@ == "沉波之盏"@ {
            assert("宗室之花"@[0] == "沉波之盏"@[0]);
            assert(false);
        }
        if "宗室之花"@ == "酒渍船帽"@ {
            assert("宗室之花"@[0] == "酒渍船帽"@[0]);
            assert(false);
        }
        assert(name_id(corpus_at(41)) == 41);
    } else if i == 42 {
        if "宗室之翎"@ == "饰金胸花"@ {
            assert("宗室之翎"@[0] == "饰金胸花"@[0]);
            assert(false);
        }
        if "宗室之翎"@ == "追忆之风"@ {
            assert("宗室之翎"@[0] == "追忆之风"@[0]);
            assert(false);
        }
        if "宗室之翎"@ == "坚铜罗盘"@ {
            assert("宗室之翎"@[0] == "坚铜罗盘"@[0]);
            assert(false);
        }
        if "宗室之翎"@ == "沉波之盏"@ {
            assert("宗室之翎"@[0] == "沉波之盏"@[0]);
            assert(false);
        }
        if "宗室之翎"@ == "酒渍船帽"@ {
            assert("宗室之翎"@[0] == "酒渍船帽"@[0]);
            assert(false);
        }
        if "宗室之翎"@ == "宗室之花"@ {
            assert("宗室之翎"@[3] == "宗室之花"@[3]);
            assert(false);
        }
        assert(name_id(corpus_at(42)) == 42);
    } else if i == 43 {
        if "宗室时计"@ == "饰金胸花"@ {
            assert("宗室时计"@[0] == "饰金胸花"@[0]);
            assert(false);
        }
        if "宗室时计"@ == "追忆之风"@ {
            assert("宗室时计"@[0] == "追忆之风"@[0]);
            assert(false);
        }
        if "宗室时计"@ == "坚铜罗盘"@ {
            assert("宗室时计"@[0] == "坚铜罗盘"@[0]);
            assert(false);
        }
        if "宗室时计"@ == "沉波之盏"@ {
            assert("宗室时计"@[0] == "沉波之盏"@[0]);
            assert(false);
        }
        if "宗室时计"@ == "酒渍船帽"@ {
            assert("宗室时计"@[0] == "酒渍船帽"@[0]);
            assert(false);
        }
        if "宗室时计"@ == "宗室之花"@ {
            assert("宗室时计"@[2] == "宗室之花"@[2]);
            assert(false);
        }
        if "宗室时计"@ == "宗室之翎"@ {
            assert("宗室时计"@[2] == "宗室之翎"@[2]);
            assert(false);
        }
        assert(name_id(corpus_at(43)) == 43);
    } else if i == 44 {
        if "宗室银瓮"@ == "饰金胸花"@ {
            assert("宗室银瓮"@[0] == "饰金胸花"@[0]);
            assert(false);
        }
        if "宗室银瓮"@ == "追忆之风"@ {
            assert("宗室银瓮"@[0] == "追忆之风"@[0]);
            assert(false);
        }
        if "宗室银瓮"@ == "坚铜罗盘"@ {
            assert("宗室银瓮"@[0] == "坚铜罗盘"@[0]);
            assert(false);
        }
        if "宗室银瓮"@ == "沉波之盏"@ {
            assert("宗室银瓮"@[0] == "沉波之盏"@[0]);
            assert(false);
        }
        if "宗室银瓮"@ == "酒渍船帽"@ {
            assert("宗室银瓮"@[0] == "酒渍船帽"@[0]);
            assert(false);
        }
        if "宗室银瓮"@ == "宗室之花"@ {
            assert("宗室银瓮"@[2] == "宗室之花"@[2]);
            assert(false);
        }
        if "宗室银瓮"@ == "宗室之翎"@ {
            assert("宗室银瓮"@[2] == "宗室之翎"@[2]);
            assert(false);
        }
        if "宗室银瓮"@ == "宗室时计"@ {
            assert("宗室银瓮"@[2] == "宗室时计"@[2]);
            assert(false);
        }
        assert(name_id(corpus_at(44)) == 44);
    } else if i == 45 {
        if "宗室面具"@ == "饰金胸花"@ {
            assert("宗室面具"@[0] == "饰金胸花"@[0]);
            assert(false);
        }
        if "宗室面具"@ == "追忆之风"@ {
            assert("宗室面具"@[0] == "追忆之风"@[0]);
            assert(false);
        }
        if "宗室面具"@ == "坚铜罗盘"@ {
            assert("宗室面具"@[0] == "坚铜罗盘"@[0]);
            assert(false);
        }
        if "宗室面具"@ == "沉波之盏"@ {
            assert("宗室面具"@[0] == "沉波之盏"@[0]);
            assert(false);
        }
        if "宗室面具"@ == "酒渍船帽"@ {
            assert("宗室面具"@[0] == "酒渍船帽"@[0]);
            assert(false);
        }
        if "宗室面具"@ == "宗室之花"@ {
            assert("宗室面具"@[2] == "宗室之花"@[2]);
            assert(false);
        }
        if "宗室面具"@ == "宗室之翎"@ {
            assert("宗室面具"@[2] == "宗室之翎"@[2]);
            assert(false);
        }
        if "宗室面具"@ == "宗室时计"@ {
            assert("宗室面具"@[2] == "宗室时计"@[2]);
            assert(false);
        }
        if "宗室面具"@ == "宗室银瓮"@ {
            assert("宗室面具"@[2] == "宗室银瓮"@[2]);
            assert(false);
        }
        assert(name_id(corpus_at(45)) == 45);
    } else if i == 46 {
        if "夏祭之花"@ == "饰金胸花"@ {
            assert("夏祭之花"@[0] == "饰金胸花"@[0]);
            assert(false);
        }
        if "夏祭之花"@ == "追忆之风"@ {
            assert("夏祭之花"@[0] == "追忆之风"@[0]);
            assert(false);
        }
        if "夏祭之花"@ == "坚铜罗盘"@ {
            assert("夏祭之花"@[0] == "坚铜罗盘"@[0]);
            assert(false);
        }
        if "夏祭之花"@ == "沉波之盏"@ {
            assert("夏祭之花"@[0] == "沉波之盏"@[0]);
            assert(false);
        }
        if "夏祭之花"@ == "酒渍船帽"@ {
            assert("夏祭之花"@[0] == "酒渍船帽"@[0]);
            assert(false);
        }
        if "夏祭之花"@ == "宗室之花"@ {
            assert("夏祭之花"@[0] == "宗室之花"@[0]);
            assert(false);
        }
        if "夏祭之花"@ == "宗室之翎"@ {
            assert("夏祭之花"@[0] == "宗室之翎"@[0]);
            assert(false);
        }
        if "夏祭之花"@ == "宗室时计"@ {
            assert("夏祭之花"@[0] == "宗室时计"@[0]);
            assert(false);
        }
        if "夏祭之花"@ == "宗室银瓮"@ {
            assert("夏祭之花"@[0] == "宗室银瓮"@[0]);
            assert(false);
        }
        if "夏祭之花"@ == "宗室面具"@ {
            assert("夏祭之花"@[0] == "宗室面具"@[0]);
            assert(false);
        }
        assert(name_id(corpus_at(46)) == 46);
    } else if i == 47 {
        if "夏祭终末"@ == "饰金胸花"@ {
            assert("夏祭终末"@[0] == "饰金胸花"@[0]);
            assert(false);
        }
        if "夏祭终末"@ == "追忆之风"@ {
            assert("夏祭终末"@[0] == "追忆之风"@[0]);
            assert(false);
        }
        if "夏祭终末"@ == "坚铜罗盘"@ {
            assert("夏祭终末"@[0] == "坚铜罗盘"@[0]);
            assert(false);
        }
        if "夏祭终末"@ == "沉波之盏"@ {
            assert("夏祭终末"@[0] == "沉波之盏"@[0]);
            assert(false);
        }
        if "夏祭终末"@ == "酒渍船帽"@ {
            assert("夏祭终末"@[0] == "酒渍船帽"@[0]);
            assert(false);
        }
        if "夏祭终末"@ == "宗室之花"@ {
            assert("夏祭终末"@[0] == "宗室之花"@[0]);
            assert(false);
        }
        if "夏祭终末"@ == "宗室之翎"@ {
            assert("夏祭终末"@[0] == "宗室之翎"@[0]);
            assert(false);
        }
        if "夏祭终末"@ == "宗室时计"@ {
            assert("夏祭终末"@[0] == "宗室时计"@[0]);
            assert(false);
        }
        if "夏祭终末"@ == "宗室银瓮"@ {
            assert("夏祭终末"@[0] == "宗室银瓮"@[0]);
            assert(false);
        }
        if "夏祭终末"@ == "宗室面具"@ {
            assert("夏祭终末"@[0] == "宗室面具"@[0]);
            assert(false);
        }
        if "夏祭终末"@ == "夏祭之花"@ {
            assert("夏祭终末"@[2] == "夏祭之花"@[2]);
            assert(false);
        }
        assert(name_id(corpus_at(47)) == 47);
    } else if i == 48 {
        if "夏祭之刻"@ == "饰金胸花"@ {
            assert("夏祭之刻"@[0] == "饰金胸花"@[0]);
            assert(false);
        }
        if "夏祭之刻"@ == "追忆之风"@ {
            assert("夏祭之刻"@[0] == "追忆之风"@[0]);
            assert(false);
        }
        if "夏祭之刻"@ == "坚铜罗盘"@ {
            assert("夏祭之刻"@[0] == "坚铜罗盘"@[0]);
            assert(false);
        }
        if "夏祭之刻"@ == "沉波之盏"@ {
            assert("夏祭之刻"@[0] == "沉波之盏"@[0]);
            assert(false);
        }
        if "夏祭之刻"@ == "酒渍船帽"@ {
            assert("夏祭之刻"@[0] == "酒渍船帽"@[0]);
            assert(false);
        }
        if "夏祭之刻"@ == "宗室之花"@ {
            assert("夏祭之刻"@[0] == "宗室之花"@[0]);
            assert(false);
        }
        if "夏祭之刻"@ == "宗室之翎"@ {
            assert("夏祭之刻"@[0] == "宗室之翎"@[0]);
            assert(false);
        }
        if "夏祭之刻"@ == "宗室时计"@ {
            assert("夏祭之刻"@[0] == "宗室时计"@[0]);
            assert(false);
        }
        if "夏祭之刻"@ == "宗室银瓮"@ {
            assert("夏祭之刻"@[0] == "宗室银瓮"@[0]);
            assert(false);
        }
        if "夏祭之刻"@ == "宗室面具"@ {
            assert("夏祭之刻"@[0] == "宗室面具"@[0]);
            assert(false);
        }
        if "夏祭之刻"@ == "夏祭之花"@ {
            assert("夏祭之刻"@[3] == "夏祭之花"@[3]);
            assert(false);
        }
        if "夏祭之刻"@ == "夏祭终末"@ {
            assert("夏祭之刻"@[2] == "夏祭终末"@[2]);
            assert(false);
        }
        assert(name_id(corpus_at(48)) == 48);
    } else if i == 49 {
        if "夏祭水玉"@ == "饰金胸花"@ {
            assert("夏祭水玉"@[0] == "饰金胸花"@[0]);
            assert(false);
        }
        if "夏祭水玉"@ == "追忆之风"@ {
            assert("夏祭水玉"@[0] == "追忆之风"@[0]);
            assert(false);
        }
        if "夏祭水玉"@ == "坚铜罗盘"@ {
            assert("夏祭水玉"@[0] == "坚铜罗盘"@[0]);
            assert(false);
        }
        if "夏祭水玉"@ == "沉波之盏"@ {
            assert("夏祭水玉"@[0] == "沉波之盏"@[0]);
            assert(false);
        }
        if "夏祭水玉"@ == "酒渍船帽"@ {
            assert("夏祭水玉"@[0] == "酒渍船帽"@[0]);
            assert(false);
        }
        if "夏祭水玉"@ == "宗室之花"@ {
            assert("夏祭水玉"@[0] == "宗室之花"@[0]);
            assert(false);
        }
        if "夏祭水玉"@ == "宗室之翎"@ {
            assert("夏祭水玉"@[0] == "宗室之翎"@[0]);
            assert(false);
        }
        if "夏祭水玉"@ == "宗室时计"@ {
            assert("夏祭水玉"@[0] == "宗室时计"@[0]);
            assert(false);
        }
        if "夏祭水玉"@ == "宗室银瓮"@ {
            assert("夏祭水玉"@[0] == "宗室银瓮"@[0]);
            assert(false);
        }
        if "夏祭水玉"@ == "宗室面具"@ {
            assert("夏祭水玉"@[0] == "宗室面具"@[0]);
            assert(false);
        }
        if "夏祭水玉"@ == "夏祭之花"@ {
            assert("夏祭水玉"@[2] == "夏祭之花"@[2]);
            assert(false);
        }
        if "夏祭水玉"@ == "夏祭终末"@ {
            assert("夏祭水玉"@[2] == "夏祭终末"@[2]);
            assert(false);
        }
        if "夏祭水玉"@ == "夏祭之刻"@ {
            assert("夏祭水玉"@[2] == "夏祭之刻"@[2]);
            assert(false);
        }
        assert(name_id(corpus_at(49)) == 49);
    }
}

proof fn corpus_entry_chunk5(i: int)
    requires
        50 <= i < 60,
    ensures
        name_id(corpus_at(i)) == i,
{
    reveal_strlit("饰金胸花");
    reveal_strlit("追忆之风");
    reveal_strlit("坚铜罗盘");
    reveal_strlit("沉波之盏");
    reveal_strlit("酒渍船帽");
    reveal_strlit("宗室之花");
    reveal_strlit("宗室之翎");
    reveal_strlit("宗室时计");
    reveal_strlit("宗室银瓮");
    reveal_strlit("宗室面具");
    reveal_strlit("夏祭之花");
    reveal_strlit("夏祭终末");
    reveal_strlit("夏祭之刻");
    reveal_strlit("夏祭水玉");
    reveal_strlit("夏祭之面");
    reveal_strlit("平雷之心");
    reveal_strlit("平雷之羽");
    reveal_strlit("平雷之刻");
    reveal_strlit("平雷之器");
    reveal_strlit("平雷之冠");
    reveal_strlit("雷鸟的怜悯");
    reveal_strlit("雷灾的孑遗");
    reveal_strlit("雷霆的时计");
    reveal_strlit("降雷的凶兆");
    if i == 50 {
        if "夏祭之面"@ == "饰金胸花"@ {
            assert("夏祭之面"@[0] == "饰金胸花"@[0]);
            assert(false);
        }
        if "夏祭之面"@ == "追忆之风"@ {
            assert("夏祭之面"@[0] == "追忆之风"@[0]);
            assert(false);
        }
        if "夏祭之面"@ == "坚铜罗盘"@ {
            assert("夏祭之面"@[0] == "坚铜罗盘"@[0]);
            assert(false);
        }
        if "夏祭之面"@ == "沉波之盏"@ {
            assert("夏祭之面"@[0] == "沉波之盏"@[0]);
            assert(false);
        }
        if "夏祭之面"@ == "酒渍船帽"@ {
            assert("夏祭之面"@[0] == "酒渍船帽"@[0]);
            assert(false);
        }
        if "夏祭之面"@ == "宗室之花"@ {
            assert("夏祭之面"@[0] == "宗室之花"@[0]);
            assert(false);
        }
        if "夏祭之面"@ == "宗室之翎"@ {
            assert("夏祭之面"@[0] == "宗室之翎"@[0]);
            assert(false);
        }
        if "夏祭之面"@ == "宗室时计"@ {
            assert("夏祭之面"@[0] == "宗室时计"@[0]);
            assert(false);
        }
        if "夏祭之面"@ == "宗室银瓮"@ {
            assert("夏祭之面"@[0] == "宗室银瓮"@[0]);
            assert(false);
        }
        if "夏祭之面"@ == "宗室面具"@ {
            assert("夏祭之面"@[0] == "宗室面具"@[0]);
            assert(false);
        }
        if "夏祭之面"@ == "夏祭之花"@ {
            assert("夏祭之面"@[3] == "夏祭之花"@[3]);
            assert(false);
        }
        if "夏祭之面"@ == "夏祭终末"@ {
            assert("夏祭之面"@[2] == "夏祭终末"@[2]);
            assert(false);
        }
        if "夏祭之面"@ == "夏祭之刻"@ {
            assert("夏祭之面"@[3] == "夏祭之刻"@[3]);
            assert(false);
        }
        if "夏祭之面"@ == "夏祭水玉"@ {
            assert("夏祭之面"@[2] == "夏祭水玉"@[2]);
            assert(false);
        }
        assert(name_id(corpus_at(50)) == 50);
    } else if i == 51 {
        if "平雷之心"@ == "饰金胸花"@ {
            assert("平雷之心"@[0] == "饰金胸花"@[0]);
            assert(false);
        }
        if "平雷之心"@ == "追忆之风"@ {
            assert("平雷之心"@[0] == "追忆之风"@[0]);
            assert(false);
        }
        if "平雷之心"@ == "坚铜罗盘"@ {
            assert("平雷之心"@[0] == "坚铜罗盘"@[0]);
            assert(false);
        }
        if "平雷之心"@ == "沉波之盏"@ {
            assert("平雷之心"@[0] == "沉波之盏"@[0]);
            assert(false);
        }
        if "平雷之心"@ == "酒渍船帽"@ {
            assert("平雷之心"@[0] == "酒渍船帽"@[0]);
            assert(false);
        }
        if "平雷之心"@ == "宗室之花"@ {
            assert("平雷之心"@[0] == "宗室之花"@[0]);
            assert(false);
        }
        if "平雷之心"@ == "宗室之翎"@ {
            assert("平雷之心"@[0] == "宗室之翎"@[0]);
            assert(false);
        }
        if "平雷之心"@ == "宗室时计"@ {
            assert("平雷之心"@[0] == "宗室时计"@[0]);
            assert(false);
        }
        if "平雷之心"@ == "宗室银瓮"@ {
            assert("平雷之心"@[0] == "宗室银瓮"@[0]);
            assert(false);
        }
        if "平雷之心"@ == "宗室面具"@ {
            assert("平雷之心"@[0] == "宗室面具"@[0]);
            assert(false);
        }
        if "平雷之心"@ == "夏祭之花"@ {
            assert("平雷之心"@[0] == "夏祭之花"@[0]);
            assert(false);
        }
        if "平雷之心"@ == "夏祭终末"@ {
            assert("平雷之心"@[0] == "夏祭终末"@[0]);
            assert(false);
        }
        if "平雷之心"@ == "夏祭之刻"@ {
            assert("平雷之心"@[0] == "夏祭之刻"@[0]);
            assert(false);
        }
        if "平雷之心"@ == "夏祭水玉"@ {
            assert("平雷之心"@[0] == "夏祭水玉"@[0]);
            assert(false);
        }
        if "平雷之心"@ == "夏祭之面"@ {
            assert("平雷之心"@[0] == "夏祭之面"@[0]);
            assert(false);
        }
        assert(name_id(corpus_at(51)) == 51);
    } else if i == 52 {
        if "平雷之羽"@ == "饰金胸花"@ {
            assert("平雷之羽"@[0] == "饰金胸花"@[0]);
            assert(false);
        }
        if "平雷之羽"@ == "追忆之风"@ {
            assert("平雷之羽"@[0] == "追忆之风"@[0]);
            assert(false);
        }
        if "平雷之羽"@ == "坚铜罗盘"@ {
            assert("平雷之羽"@[0] == "坚铜罗盘"@[0]);
            assert(false);
        }
        if "平雷之羽"@ == "沉波之盏"@ {
            assert("平雷之羽"@[0] == "沉波之盏"@[0]);
            assert(false);
        }
        if "平雷之羽"@ == "酒渍船帽"@ {
            assert("平雷之羽"@[0] == "酒渍船帽"@[0]);
            assert(false);
        }
        if "平雷之羽"@ == "宗室之花"@ {
            assert("平雷之羽"@[0] == "宗室之花"@[0]);
            assert(false);
        }
        if "平雷之羽"@ == "宗室之翎"@ {
            assert("平雷之羽"@[0] == "宗室之翎"@[0]);
            assert(false);
        }
        if "平雷之羽"@ == "宗室时计"@ {
            assert("平雷之羽"@[0] == "宗室时计"@[0]);
            assert(false);
        }
        if "平雷之羽"@ == "宗室银瓮"@ {
            assert("平雷之羽"@[0] == "宗室银瓮"@[0]);
            assert(false);
        }
        if "平雷之羽"@ == "宗室面具"@ {
            assert("平雷之羽"@[0] == "宗室面具"@[0]);
            assert(false);
        }
        if "平雷之羽"@ == "夏祭之花"@ {
            assert("平雷之羽"@[0] == "夏祭之花"@[0]);
            assert(false);
        }
        if "平雷之羽"@ == "夏祭终末"@ {
            assert("平雷之羽"@[0] == "夏祭终末"@[0]);
            assert(false);
        }
        if "平雷之羽"@ == "夏祭之刻"@ {
            assert("平雷之羽"@[0] == "夏祭之刻"@[0]);
            assert(false);
        }
        if "平雷之羽"@ == "夏祭水玉"@ {
            assert("平雷之羽"@[0] == "夏祭水玉"@[0]);
            assert(false);
        }
        if "平雷之羽"@ == "夏祭之面"@ {
            assert("平雷之羽"@[0] == "夏祭之面"@[0]);
            assert(false);
        }
        if "平雷之羽"@ == "平雷之心"@ {
            assert("平雷之羽"@[3] == "平雷之心"@[3]);
            assert(false);
        }
        assert(name_id(corpus_at(52)) == 52);
    } else if i == 53 {
        if "平雷之刻"@ == "饰金胸花"@ {
            assert("平雷之刻"@[0] == "饰金胸花"@[0]);
            assert(false);
        }
        if "平雷之刻"@ == "追忆之风"@ {
            assert("平雷之刻"@[0] == "追忆之风"@[0]);
            assert(false);
        }
        if "平雷之刻"@ == "坚铜罗盘"@ {
            assert("平雷之刻"@[0] == "坚铜罗盘"@[0]);
            assert(false);
        }
        if "平雷之刻"@ == "沉波之盏"@ {
            assert("平雷之刻"@[0] == "沉波之盏"@[0]);
            assert(false);
        }
        if "平雷之刻"@ == "酒渍船帽"@ {
            assert("平雷之刻"@[0] == "酒渍船帽"@[0]);
            assert(false);
        }
        if "平雷之刻"@ == "宗室之花"@ {
            assert("平雷之刻"@[0] == "宗室之花"@[0]);
            assert(false);
        }
        if "平雷之刻"@ == "宗室之翎"@ {
            assert("平雷之刻"@[0] == "宗室之翎"@[0]);
            assert(false);
        }
        if "平雷之刻"@ == "宗室时计"@ {
            assert("平雷之刻"@[0] == "宗室时计"@[0]);
            assert(false);
        }
        if "平雷之刻"@ == "宗室银瓮"@ {
            assert("平雷之刻"@[0] == "宗室银瓮"@[0]);
            assert(false);
        }
        if "平雷之刻"@ == "宗室面具"@ {
            assert("平雷之刻"@[0] == "宗室面具"@[0]);
            assert(false);
        }
        if "平雷之刻"@ == "夏祭之花"@ {
            assert("平雷之刻"@[0] == "夏祭之花"@[0]);
            assert(false);
        }
        if "平雷之刻"@ == "夏祭终末"@ {
            assert("平雷之刻"@[0] == "夏祭终末"@[0]);
            assert(false);
        }
        if "平雷之刻"@ == "夏祭之刻"@ {
            assert("平雷之刻"@[0] == "夏祭之刻"@[0]);
            assert(false);
        }
        if "平雷之刻"@ == "夏祭水玉"@ {
            assert("平雷之刻"@[0] == "夏祭水玉"@[0]);
            assert(false);
        }
        if "平雷之刻"@ == "夏祭之面"@ {
            assert("平雷之刻"@[0] == "夏祭之面"@[0]);
            assert(false);
        }
        if "平雷之刻"@ == "平雷之心"@ {
            assert("平雷之刻"@[3] == "平雷之心"@[3]);
            assert(false);
        }
        if "平雷之刻"@ == "平雷之羽"@ {
            assert("平雷之刻"@[3] == "平雷之羽"@[3]);
            assert(false);
        }
        assert(name_id(corpus_at(53)) == 53);
    } else if i == 54 {
        if "平雷之器"@ == "饰金胸花"@ {
            assert("平雷之器"@[0] == "饰金胸花"@[0]);
            assert(false);
        }
        if "平雷之器"@ == "追忆之风"@ {
            assert("平雷之器"@[0] == "追忆之风"@[0]);
            assert(false);
        }
        if "平雷之器"@ == "坚铜罗盘"@ {
            assert("平雷之器"@[0] == "坚铜罗盘"@[0]);
            assert(false);
        }
        if "平雷之器"@ == "沉波之盏"@ {
            assert("平雷之器"@[0] == "沉波之盏"@[0]);
            assert(false);
        }
        if "平雷之器"@ == "酒渍船帽"@ {
            assert("平雷之器"@[0] == "酒渍船帽"@[0]);
            assert(false);
        }
        if "平雷之器"@ == "宗室之花"@ {
            assert("平雷之器"@[0] == "宗室之花"@[0]);
            assert(false);
        }
        if "平雷之器"@ == "宗室之翎"@ {
            assert("平雷之器"@[0] == "宗室之翎"@[0]);
            assert(false);
        }
        if "平雷之器"@ == "宗室时计"@ {
            assert("平雷之器"@[0] == "宗室时计"@[0]);
            assert(false);
        }
        if "平雷之器"@ == "宗室银瓮"@ {
            assert("平雷之器"@[0] == "宗室银瓮"@[0]);
            assert(false);
        }
        if "平雷之器"@ == "宗室面具"@ {
            assert("平雷之器"@[0] == "宗室面具"@[0]);
            assert(false);
        }
        if "平雷之器"@ == "夏祭之花"@ {
            assert("平雷之器"@[0] == "夏祭之花"@[0]);
            assert(false);
        }
        if "平雷之器"@ == "夏祭终末"@ {
            assert("平雷之器"@[0] == "夏祭终末"@[0]);
            assert(false);
        }
        if "平雷之器"@ == "夏祭之刻"@ {
            assert("平雷之器"@[0] == "夏祭之刻"@[0]);
            assert(false);
        }
        if "平雷之器"@ == "夏祭水玉"@ {
            assert("平雷之器"@[0] == "夏祭水玉"@[0]);
            assert(false);
        }
        if "平雷之器"@ == "夏祭之面"@ {
            assert("平雷之器"@[0] == "夏祭之面"@[0]);
            assert(false);
        }
        if "平雷之器"@ == "平雷之心"@ {
            assert("平雷之器"@[3] == "平雷之心"@[3]);
            assert(false);
        }
        if "平雷之器"@ == "平雷之羽"@ {
            assert("平雷之器"@[3] == "平雷之羽"@[3]);
            assert(false);
        }
        if "平雷之器"@ == "平雷之刻"@ {
            assert("平雷之器"@[3] == "平雷之刻"@[3]);
            assert(false);
        }
        assert(name_id(corpus_at(54)) == 54);
    } else if i == 55 {
        if "平雷之冠"@ == "饰金胸花"@ {
            assert("平雷之冠"@[0] == "饰金胸花"@[0]);
            assert(false);
        }
        if "平雷之冠"@ == "追忆之风"@ {
            assert("平雷之冠"@[0] == "追忆之风"@[0]);
            assert(false);
        }
        if "平雷之冠"@ == "坚铜罗盘"@ {
            assert("平雷之冠"@[0] == "坚铜罗盘"@[0]);
            assert(false);
        }
        if "平雷之冠"@ == "沉波之盏"@ {
            assert("平雷之冠"@[0] == "沉波之盏"@[0]);
            assert(false);
        }
        if "平雷之冠"@ == "酒渍船帽"@ {
            assert("平雷之冠"@[0] == "酒渍船帽"@[0]);
            assert(false);
        }
        if "平雷之冠"@ == "宗室之花"@ {
            assert("平雷之冠"@[0] == "宗室之花"@[0]);
            assert(false);
        }
        if "平雷之冠"@ == "宗室之翎"@ {
            assert("平雷之冠"@[0] == "宗室之翎"@[0]);
            assert(false);
        }
        if "平雷之冠"@ == "宗室时计"@ {
            assert("平雷之冠"@[0] == "宗室时计"@[0]);
            assert(false);
        }
        if "平雷之冠"@ == "宗室银瓮"@ {
            assert("平雷之冠"@[0] == "宗室银瓮"@[0]);
            assert(false);
        }
        if "平雷之冠"@ == "宗室面具"@ {
            assert("平雷之冠"@[0] == "宗室面具"@[0]);
            assert(false);
        }
        if "平雷之冠"@ == "夏祭之花"@ {
            assert("平雷之冠"@[0] == "夏祭之花"@[0]);
            assert(false);
        }
        if "平雷之冠"@ == "夏祭终末"@ {
            assert("平雷之冠"@[0] == "夏祭终末"@[0]);
            assert(false);
        }
        if "平雷之冠"@ == "夏祭之刻"@ {
            assert("平雷之冠"@[0] == "夏祭之刻"@[0]);
            assert(false);
        }
        if "平雷之冠"@ == "夏祭水玉"@ {
            assert("平雷之冠"@[0] == "夏祭水玉"@[0]);
            assert(false);
        }
        if "平雷之冠"@ == "夏祭之面"@ {
            assert("平雷之冠"@[0] == "夏祭之面"@[0]);
            assert(false);
        }
        if "平雷之冠"@ == "平雷之心"@ {
            assert("平雷之冠"@[3] == "平雷之心"@[3]);
            assert(false);
        }
        if "平雷之冠"@ == "平雷之羽"@ {
            assert("平雷之冠"@[3] == "平雷之羽"@[3]);
            assert(false);
        }
        if "平雷之冠"@ == "平雷之刻"@ {
            assert("平雷之冠"@[3] == "平雷之刻"@[3]);
            assert(false);
        }
        if "平雷之冠"@ == "平雷之器"@ {
            assert("平雷之冠"@[3] == "平雷之器"@[3]);
            assert(false);
        }
        assert(name_id(corpus_at(55)) == 55);
    } else if i == 56 {
        assert(name_id(corpus_at(56)) == 56);
    } else if i == 57 {
        if "雷灾的孑遗"@ == "雷鸟的怜悯"@ {
            assert("雷灾的孑遗"@[1] == "雷鸟的怜悯"@[1]);
            assert(false);
        }
        assert(name_id(corpus_at(57)) == 57);
    } else if i == 58 {
        if "雷霆的时计"@ == "雷鸟的怜悯"@ {
            assert("雷霆的时计"@[1] == "雷鸟的怜悯"@[1]);
            assert(false);
        }
        if "雷霆的时计"@ == "雷灾的孑遗"@ {
            assert("雷霆的时计"@[1] == "雷灾的孑遗"@[1]);
            assert(false);
        }
        assert(name_id(corpus_at(58)) == 58);
    } else if i == 59 {
        if "降雷的凶兆"@ == "雷鸟的怜悯"@ {
            assert("降雷的凶兆"@[0] == "雷鸟的怜悯"@[0]);
            assert(false);
        }
        if "降雷的凶兆"@ == "雷灾的孑遗"@ {
            assert("降雷的凶兆"@[0] == "雷灾的孑遗"@[0]);
            assert(false);
        }
        if "降雷的凶兆"@ == "雷霆的时计"@ {
            assert("降雷的凶兆"@[0] == "雷霆的时计"@[0]);
            assert(false);
        }
        assert(name_id(corpus_at(59)) == 59);
    }
}

proof fn corpus_entry_chunk6(i: int)
    requires
        60 <= i < 70,
    ensures
        name_id(corpus_at(i)) == i,
{
    reveal_strlit("历经风雪的思念");
    reveal_strlit("摧冰而行的执望");
    reveal_strlit("冰雪故园的终期");
    reveal_strlit("遍结寒霜的傲骨");
    reveal_strlit("破冰踏雪的回音");
    reveal_strlit("远方的少女之心");
    reveal_strlit("少女飘摇的思念");
    reveal_strlit("少女苦短的良辰");
    reveal_strlit("少女片刻的闲暇");
    reveal_strlit("少女易逝的芳颜");
    reveal_strlit("雷鸟的怜悯");
    reveal_strlit("雷灾的孑遗");
    reveal_strlit("雷霆的时计");
    reveal_strlit("降雷的凶兆");
    reveal_strlit("唤雷的头冠");
    reveal_strlit("野花记忆的绿野");
    reveal_strlit("猎人青翠的箭羽");
    reveal_strlit("翠绿猎人的笃定");
    reveal_strlit("翠绿猎人的容器");
    reveal_strlit("翠绿的猎人之冠");
    reveal_strlit("乐团的晨光");
    reveal_strlit("琴师的箭羽");
    reveal_strlit("终幕的时计");
    reveal_strlit("终末的时计");
    if i == 60 {
        if "唤雷的头冠"@ == "雷鸟的怜悯"@ {
            assert("唤雷的头冠"@[0] == "雷鸟的怜悯"@[0]);
            assert(false);
        }
        if "唤雷的头冠"@ == "雷灾的孑遗"@ {
            assert("唤雷的头冠"@[0] == "雷灾的孑遗"@[0]);
            assert(false);
        }
        if "唤雷的头冠"@ == "雷霆的时计"@ {
            assert("唤雷的头冠"@[0] == "雷霆的时计"@[0]);
            assert(false);
        }
        if "唤雷的头冠"@ == "降雷的凶兆"@ {
            assert("唤雷的头冠"@[0] == "降雷的凶兆"@[0]);
            assert(false);
        }
        assert(name_id(corpus_at(60)) == 60);
    } else if i == 61 {
        if "野花记忆的绿野"@ == "历经风雪的思念"@ {
            assert("野花记忆的绿野"@[0] == "历经风雪的思念"@[0]);
            assert(false);
        }
        if "野花记忆的绿野"@ == "摧冰而行的执望"@ {
            assert("野花记忆的绿野"@[0] == "摧冰而行的执望"@[0]);
            assert(false);
        }
        if "野花记忆的绿野"@ == "冰雪故园的终期"@ {
            assert("野花记忆的绿野"@[0] == "冰雪故园的终期"@[0]);
            assert(false);
        }
        if "野花记忆的绿野"@ == "遍结寒霜的傲骨"@ {
            assert("野花记忆的绿野"@[0] == "遍结寒霜的傲骨"@[0]);
            assert(false);
        }
        if "野花记忆的绿野"@ == "破冰踏雪的回音"@ {
            assert("野花记忆的绿野"@[0] == "破冰踏雪的回音"@[0]);
            assert(false);
        }
        if "野花记忆的绿野"@ == "远方的少女之心"@ {
            assert("野花记忆的绿野"@[0] == "远方的少女之心"@[0]);
            assert(false);
        }
        if "野花记忆的绿野"@ == "少女飘摇的思念"@ {
            assert("野花记忆的绿野"@[0] == "少女飘摇的思念"@[0]);
            assert(false);
        }
        if "野花记忆的绿野"@ == "少女苦短的良辰"@ {
            assert("野花记忆的绿野"@[0] == "少女苦短的良辰"@[0]);
            assert(false);
        }
        if "野花记忆的绿野"@ == "少女片刻的闲暇"@ {
            assert("野花记忆的绿野"@[0] == "少女片刻的闲暇"@[0]);
            assert(false);
        }
        if "野花记忆的绿野"@ == "少女易逝的芳颜"@ {
            assert("野花记忆的绿野"@[0] == "少女易逝的芳颜"@[0]);
            assert(false);
        }
        assert(name_id(corpus_at(61)) == 61);
    } else if i == 62 {
        if "猎人青翠的箭羽"@ == "历经风雪的思念"@ {
            assert("猎人青翠的箭羽"@[0] == "历经风雪的思念"@[0]);
            assert(false);
        }
        if "猎人青翠的箭羽"@ == "摧冰而行的执望"@ {
            assert("猎人青翠的箭羽"@[0] == "摧冰而行的执望"@[0]);
            assert(false);
        }
        if "猎人青翠的箭羽"@ == "冰雪故园的终期"@ {
            assert("猎人青翠的箭羽"@[0] == "冰雪故园的终期"@[0]);
            assert(false);
        }
        if "猎人青翠的箭羽"@ == "遍结寒霜的傲骨"@ {
            assert("猎人青翠的箭羽"@[0] == "遍结寒霜的傲骨"@[0]);
            assert(false);
        }
        if "猎人青翠的箭羽"@ == "破冰踏雪的回音"@ {
            assert("猎人青翠的箭羽"@[0] == "破冰踏雪的回音"@[0]);
            assert(false);
        }
        if "猎人青翠的箭羽"@ == "远方的少女之心"@ {
            assert("猎人青翠的箭羽"@[0] == "远方的少女之心"@[0]);
            assert(false);
        }
        if "猎人青翠的箭羽"@ == "少女飘摇的思念"@ {
            assert("猎人青翠的箭羽"@[0] == "少女飘摇的思念"@[0]);
            assert(false);
        }
        if "猎人青翠的箭羽"@ == "少女苦短的良辰"@ {
            assert("猎人青翠的箭羽"@[0] == "少女苦短的良辰"@[0]);
            assert(false);
        }
        if "猎人青翠的箭羽"@ == "少女片刻的闲暇"@ {
            assert("猎人青翠的箭羽"@[0] == "少女片刻的闲暇"@[0]);
            assert(false);
        }
        if "猎人青翠的箭羽"@ == "少女易逝的芳颜"@ {
            assert("猎人青翠的箭羽"@[0] == "少女易逝的芳颜"@[0]);
            assert(false);
        }
        if "猎人青翠的箭羽"@ == "野花记忆的绿野"@ {
            assert("猎人青翠的箭羽"@[0] == "野花记忆的绿野"@[0]);
            assert(false);
        }
        assert(name_id(corpus_at(62)) == 62);
    } else if i == 63 {
        if "翠绿猎人的笃定"@ == "历经风雪的思念"@ {
            assert("翠绿猎人的笃定"@[0] == "历经风雪的思念"@[0]);
            assert(false);
        }
        if "翠绿猎人的笃定"@ == "摧冰而行的执望"@ {
            assert("翠绿猎人的笃定"@[0] == "摧冰而行的执望"@[0]);
            assert(false);
        }
        if "翠绿猎人的笃定"@ == "冰雪故园的终期"@ {
            assert("翠绿猎人的笃定"@[0] == "冰雪故园的终期"@[0]);
            assert(false);
        }
        if "翠绿猎人的笃定"@ == "遍结寒霜的傲骨"@ {
            assert("翠绿猎人的笃定"@[0] == "遍结寒霜的傲骨"@[0]);
            assert(false);
        }
        if "翠绿猎人的笃定"@ == "破冰踏雪的回音"@ {
            assert("翠绿猎人的笃定"@[0] == "破冰踏雪的回音"@[0]);
            assert(false);
        }
        if "翠绿猎人的笃定"@ == "远方的少女之心"@ {
            assert("翠绿猎人的笃定"@[0] == "远方的少女之心"@[0]);
            assert(false);
        }
        if "翠绿猎人的笃定"@ == "少女飘摇的思念"@ {
            assert("翠绿猎人的笃定"@[0] == "少女飘摇的思念"@[0]);
            assert(false);
        }
        if "翠绿猎人的笃定"@ == "少女苦短的良辰"@ {
            assert("翠绿猎人的笃定"@[0] == "少女苦短的良辰"@[0]);
            assert(false);
        }
        if "翠绿猎人的笃定"@ == "少女片刻的闲暇"@ {
            assert("翠绿猎人的笃定"@[0] == "少女片刻的闲暇"@[0]);
            assert(false);
        }
        if "翠绿猎人的笃定"@ == "少女易逝的芳颜"@ {
            assert("翠绿猎人的笃定"@[0] == "少女易逝的芳颜"@[0]);
            assert(false);
        }
        if "翠绿猎人的笃定"@ == "野花记忆的绿野"@ {
            assert("翠绿猎人的笃定"@[0] == "野花记忆的绿野"@[0]);
            assert(false);
        }
        if "翠绿猎人的笃定"@ == "猎人青翠的箭羽"@ {
            assert("翠绿猎人的笃定"@[0] == "猎人青翠的箭羽"@[0]);
            assert(false);
        }
        assert(name_id(corpus_at(63)) == 63);
    } else if i == 64 {
        if "翠绿猎人的容器"@ == "历经风雪的思念"@ {
            assert("翠绿猎人的容器"@[0] == "历经风雪的思念"@[0]);
            assert(false);
        }
        if "翠绿猎人的容器"@ == "摧冰而行的执望"@ {
            assert("翠绿猎人的容器"@[0] == "摧冰而行的执望"@[0]);
            assert(false);
        }
        if "翠绿猎人的容器"@ == "冰雪故园的终期"@ {
            assert("翠绿猎人的容器"@[0] == "冰雪故园的终期"@[0]);
            assert(false);
        }
        if "翠绿猎人的容器"@ == "遍结寒霜的傲骨"@ {
            assert("翠绿猎人的容器"@[0] == "遍结寒霜的傲骨"@[0]);
            assert(false);
        }
        if "翠绿猎人的容器"@ == "破冰踏雪的回音"@ {
            assert("翠绿猎人的容器"@[0] == "破冰踏雪的回音"@[0]);
            assert(false);
        }
        if "翠绿猎人的容器"@ == "远方的少女之心"@ {
            assert("翠绿猎人的容器"@[0] == "远方的少女之心"@[0]);
            assert(false);
        }
        if "翠绿猎人的容器"@ == "少女飘摇的思念"@ {
            assert("翠绿猎人的容器"@[0] == "少女飘摇的思念"@[0]);
            assert(false);
        }
        if "翠绿猎人的容器"@ == "少女苦短的良辰"@ {
            assert("翠绿猎人的容器"@[0] == "少女苦短的良辰"@[0]);
            assert(false);
        }
        if "翠绿猎人的容器"@ == "少女片刻的闲暇"@ {
            assert("翠绿猎人的容器"@[0] == "少女片刻的闲暇"@[0]);
            assert(false);
        }
        if "翠绿猎人的容器"@ == "少女易逝的芳颜"@ {
            assert("翠绿猎人的容器"@[0] == "少女易逝的芳颜"@[0]);
            assert(false);
        }
        if "翠绿猎人的容器"@ == "野花记忆的绿野"@ {
            assert("翠绿猎人的容器"@[0] == "野花记忆的绿野"@[0]);
            assert(false);
        }
        if "翠绿猎人的容器"@ == "猎人青翠的箭羽"@ {
            assert("翠绿猎人的容器"@[0] == "猎人青翠的箭羽"@[0]);
            assert(false);
        }
        if "翠绿猎人的容器"@ == "翠绿猎人的笃定"@ {
            assert("翠绿猎人的容器"@[5] == "翠绿猎人的笃定"@[5]);
            assert(false);
        }
        assert(name_id(corpus_at(64)) == 64);
    } else if i == 65 {
        if "翠绿的猎人之冠"@ == "历经风雪的思念"@ {
            assert("翠绿的猎人之冠"@[0] == "历经风雪的思念"@[0]);
            assert(false);
        }
        if "翠绿的猎人之冠"@ == "摧冰而行的执望"@ {
            assert("翠绿的猎人之冠"@[0] == "摧冰而行的执望"@[0]);
            assert(false);
        }
        if "翠绿的猎人之冠"@ == "冰雪故园的终期"@ {
            assert("翠绿的猎人之冠"@[0] == "冰雪故园的终期"@[0]);
            assert(false);
        }
        if "翠绿的猎人之冠"@ == "遍结寒霜的傲骨"@ {
            assert("翠绿的猎人之冠"@[0] == "遍结寒霜的傲骨"@[0]);
            assert(false);
        }
        if "翠绿的猎人之冠"@ == "破冰踏雪的回音"@ {
            assert("翠绿的猎人之冠"@[0] == "破冰踏雪的回音"@[0]);
            assert(false);
        }
        if "翠绿的猎人之冠"@ == "远方的少女之心"@ {
            assert("翠绿的猎人之冠"@[0] == "远方的少女之心"@[0]);
            assert(false);
        }
        if "翠绿的猎人之冠"@ == "少女飘摇的思念"@ {
            assert("翠绿的猎人之冠"@[0] == "少女飘摇的思念"@[0]);
            assert(false);
        }
        if "翠绿的猎人之冠"@ == "少女苦短的良辰"@ {
            assert("翠绿的猎人之冠"@[0] == "少女苦短的良辰"@[0]);
            assert(false);
        }
        if "翠绿的猎人之冠"@ == "少女片刻的闲暇"@ {
            assert("翠绿的猎人之冠"@[0] == "少女片刻的闲暇"@[0]);
            assert(false);
        }
        if "翠绿的猎人之冠"@ == "少女易逝的芳颜"@ {
            assert("翠绿的猎人之冠"@[0] == "少女易逝的芳颜"@[0]);
            assert(false);
        }
        if "翠绿的猎人之冠"@ == "野花记忆的绿野"@ {
            assert("翠绿的猎人之冠"@[0] == "野花记忆的绿野"@[0]);
            assert(false);
        }
        if "翠绿的猎人之冠"@ == "猎人青翠的箭羽"@ {
            assert("翠绿的猎人之冠"@[0] == "猎人青翠的箭羽"@[0]);
            assert(false);
        }
        if "翠绿的猎人之冠"@ == "翠绿猎人的笃定"@ {
            assert("翠绿的猎人之冠"@[2] == "翠绿猎人的笃定"@[2]);
            assert(false);
        }
        if "翠绿的猎人之冠"@ == "翠绿猎人的容器"@ {
            assert("翠绿的猎人之冠"@[2] == "翠绿猎人的容器"@[2]);
            assert(false);
        }
        assert(name_id(corpus_at(65)) == 65);
    } else if i == 66 {
        if "乐团的晨光"@ == "雷鸟的怜悯"@ {
            assert("乐团的晨光"@[0] == "雷鸟的怜悯"@[0]);
            assert(false);
        }
        if "乐团的晨光"@ == "雷灾的孑遗"@ {
            assert("乐团的晨光"@[0] == "雷灾的孑遗"@[0]);
            assert(false);
        }
        if "乐团的晨光"@ == "雷霆的时计"@ {
            assert("乐团的晨光"@[0] == "雷霆的时计"@[0]);
            assert(false);
        }
        if "乐团的晨光"@ == "降雷的凶兆"@ {
            assert("乐团的晨光"@[0] == "降雷的凶兆"@[0]);
            assert(false);
        }
        if "乐团的晨光"@ == "唤雷的头冠"@ {
            assert("乐团的晨光"@[0] == "唤雷的头冠"@[0]);
            assert(false);
        }
        assert(name_id(corpus_at(66)) == 66);
    } else if i == 67 {
        if "琴师的箭羽"@ == "雷鸟的怜悯"@ {
            assert("琴师的箭羽"@[0] == "雷鸟的怜悯"@[0]);
            assert(false);
        }
        if "琴师的箭羽"@ == "雷灾的孑遗"@ {
            assert("琴师的箭羽"@[0] == "雷灾的孑遗"@[0]);
            assert(false);
        }
        if "琴师的箭羽"@ == "雷霆的时计"@ {
            assert("琴师的箭羽"@[0] == "雷霆的时计"@[0]);
            assert(false);
        }
        if "琴师的箭羽"@ == "降雷的凶兆"@ {
            assert("琴师的箭羽"@[0] == "降雷的凶兆"@[0]);
            assert(false);
        }
        if "琴师的箭羽"@ == "唤雷的头冠"@ {
            assert("琴师的箭羽"@[0] == "唤雷的头冠"@[0]);
            assert(false);
        }
        if "琴师的箭羽"@ == "乐团的晨光"@ {
            assert("琴师的箭羽"@[0] == "乐团的晨光"@[0]);
            assert(false);
        }
        assert(name_id(corpus_at(67)) == 67);
    } else if i == 68 {
        if "终幕的时计"@ == "雷鸟的怜悯"@ {
            assert("终幕的时计"@[0] == "雷鸟的怜悯"@[0]);
            assert(false);
        }
        if "终幕的时计"@ == "雷灾的孑遗"@ {
            assert("终幕的时计"@[0] == "雷灾的孑遗"@[0]);
            assert(false);
        }
        if "终幕的时计"@ == "雷霆的时计"@ {
            assert("终幕的时计"@[0] == "雷霆的时计"@[0]);
            assert(false);
        }
        if "终幕的时计"@ == "降雷的凶兆"@ {
            assert("终幕的时计"@[0] == "降雷的凶兆"@[0]);
            assert(false);
        }
        if "终幕的时计"@ == "唤雷的头冠"@ {
            assert("终幕的时计"@[0] == "唤雷的头冠"@[0]);
            assert(false);
        }
        if "终幕的时计"@ == "乐团的晨光"@ {
            assert("终幕的时计"@[0] == "乐团的晨光"@[0]);
            assert(false);
        }
        if "终幕的时计"@ == "琴师的箭羽"@ {
            assert("终幕的时计"@[0] == "琴师的箭羽"@[0]);
            assert(false);
        }
        assert(name_id(corpus_at(68)) == 68);
    } else if i == 69 {
        if "终末的时计"@ == "雷鸟的怜悯"@ {
            assert("终末的时计"@[0] == "雷鸟的怜悯"@[0]);
            assert(false);
        }
        if "终末的时计"@ == "雷灾的孑遗"@ {
            assert("终末的时计"@[0] == "雷灾的孑遗"@[0]);
            assert(false);
        }
        if "终末的时计"@ == "雷霆的时计"@ {
            assert("终末的时计"@[0] == "雷霆的时计"@[0]);
            assert(false);
        }
        if "终末的时计"@ == "降雷的凶兆"@ {
            assert("终末的时计"@[0] == "降雷的凶兆"@[0]);
            assert(false);
        }
        if "终末的时计"@ == "唤雷的头冠"@ {
            assert("终末的时计"@[0] == "唤雷的头冠"@[0]);
            assert(false);
        }
        if "终末的时计"@ == "乐团的晨光"@ {
            assert("终末的时计"@[0] == "乐团的晨光"@[0]);
            assert(false);
        }
        if "终末的时计"@ == "琴师的箭羽"@ {
            assert("终末的时计"@[0] == "琴师的箭羽"@[0]);
            assert(false);
        }
        if "终末的时计"@ == "终幕的时计"@ {
            assert("终末的时计"@[1] == "终幕的时计"@[1]);
            assert(false);
        }
        assert(name_id(corpus_at(69)) == 69);
    }
}

proof fn corpus_entry_chunk7(i: int)
    requires
        70 <= i < 80,
    ensures
        name_id(corpus_at(i)) == i,
{
    reveal_strlit("雷鸟的怜悯");
    reveal_strlit("雷灾的孑遗");
    reveal_strlit("雷霆的时计");
    reveal_strlit("降雷的凶兆");
    reveal_strlit("唤雷的头冠");
    reveal_strlit("乐团的晨光");
    reveal_strlit("琴师的箭羽");
    reveal_strlit("终幕的时计");
    reveal_strlit("终末的时计");
    reveal_strlit("吟游者之壶");
    reveal_strlit("指挥的礼帽");
    reveal_strlit("战狂的蔷薇");
    reveal_strlit("战狂的翎羽");
    reveal_strlit("战狂的时计");
    reveal_strlit("战狂的骨杯");
    reveal_strlit("战狂的鬼面");
    reveal_strlit("勇士的勋章");
    reveal_strlit("勇士的期许");
    reveal_strlit("勇士的坚毅");
    if i == 70 {
        if "吟游者之壶"@ == "雷鸟的怜悯"@ {
            assert("吟游者之壶"@[0] == "雷鸟的怜悯"@[0]);
            assert(false);
        }
        if "吟游者之壶"@ == "雷灾的孑遗"@ {
            assert("吟游者之壶"@[0] == "雷灾的孑遗"@[0]);
            assert(false);
        }
        if "吟游者之壶"@ == "雷霆的时计"@ {
            assert("吟游者之壶"@[0] == "雷霆的时计"@[0]);
            assert(false);
        }
        if "吟游者之壶"@ == "降雷的凶兆"@ {
            assert("吟游者之壶"@[0] == "降雷的凶兆"@[0]);
            assert(false);
        }
        if "吟游者之壶"@ == "唤雷的头冠"@ {
            assert("吟游者之壶"@[0] == "唤雷的头冠"@[0]);
            assert(false);
        }
        if "吟游者之壶"@ == "乐团的晨光"@ {
            assert("吟游者之壶"@[0] == "乐团的晨光"@[0]);
            assert(false);
        }
        if "吟游者之壶"@ == "琴师的箭羽"@ {
            assert("吟游者之壶"@[0] == "琴师的箭羽"@[0]);
            assert(false);
        }
        if "吟游者之壶"@ == "终幕的时计"@ {
            assert("吟游者之壶"@[0] == "终幕的时计"@[0]);
            assert(false);
        }
        if "吟游者之壶"@ == "终末的时计"@ {
            assert("吟游者之壶"@[0] == "终末的时计"@[0]);
            assert(false);
        }
        assert(name_id(corpus_at(70)) == 70);
    } else if i == 71 {
        if "指挥的礼帽"@ == "雷鸟的怜悯"@ {
            assert("指挥的礼帽"@[0] == "雷鸟的怜悯"@[0]);
            assert(false);
        }
        if "指挥的礼帽"@ == "雷灾的孑遗"@ {
            assert("指挥的礼帽"@[0] == "雷灾的孑遗"@[0]);
            assert(false);
        }
        if "指挥的礼帽"@ == "雷霆的时计"@ {
            assert("指挥的礼帽"@[0] == "雷霆的时计"@[0]);
            assert(false);
        }
        if "指挥的礼帽"@ == "降雷的凶兆"@ {
            assert("指挥的礼帽"@[0] == "降雷的凶兆"@[0]);
            assert(false);
        }
        if "指挥的礼帽"@ == "唤雷的头冠"@ {
            assert("指挥的礼帽"@[0] == "唤雷的头冠"@[0]);
            assert(false);
        }
        if "指挥的礼帽"@ == "乐团的晨光"@ {
            assert("指挥的礼帽"@[0] == "乐团的晨光"@[0]);
            assert(false);
        }
        if "指挥的礼帽"@ == "琴师的箭羽"@ {
            assert("指挥的礼帽"@[0] == "琴师的箭羽"@[0]);
            assert(false);
        }
        if "指挥的礼帽"@ == "终幕的时计"@ {
            assert("指挥的礼帽"@[0] == "终幕的时计"@[0]);
            assert(false);
        }
        if "指挥的礼帽"@ == "终末的时计"@ {
            assert("指挥的礼帽"@[0] == "终末的时计"@[0]);
            assert(false);
        }
        if "指挥的礼帽"@ == "吟游者之壶"@ {
            assert("指挥的礼帽"@[0] == "吟游者之壶"@[0]);
            assert(false);
        }
        assert(name_id(corpus_at(71)) == 71);
    } else if i == 72 {
        if "战狂的蔷薇"@ == "雷鸟的怜悯"@ {
            assert("战狂的蔷薇"@[0] == "雷鸟的怜悯"@[0]);
            assert(false);
        }
        if "战狂的蔷薇"@ == "雷灾的孑遗"@ {
            assert("战狂的蔷薇"@[0] == "雷灾的孑遗"@[0]);
            assert(false);
        }
        if "战狂的蔷薇"@ == "雷霆的时计"@ {
            assert("战狂的蔷薇"@[0] == "雷霆的时计"@[0]);
            assert(false);
        }
        if "战狂的蔷薇"@ == "降雷的凶兆"@ {
            assert("战狂的蔷薇"@[0] == "降雷的凶兆"@[0]);
            assert(false);
        }
        if "战狂的蔷薇"@ == "唤雷的头冠"@ {
            assert("战狂的蔷薇"@[0] == "唤雷的头冠"@[0]);
            assert(false);
        }
        if "战狂的蔷薇"@ == "乐团的晨光"@ {
            assert("战狂的蔷薇"@[0] == "乐团的晨光"@[0]);
            assert(false);
        }
        if "战狂的蔷薇"@ == "琴师的箭羽"@ {
            assert("战狂的蔷薇"@[0] == "琴师的箭羽"@[0]);
            assert(false);
        }
        if "战狂的蔷薇"@ == "终幕的时计"@ {
            assert("战狂的蔷薇"@[0] == "终幕的时计"@[0]);
            assert(false);
        }
        if "战狂的蔷薇"@ == "终末的时计"@ {
            assert("战狂的蔷薇"@[0] == "终末的时计"@[0]);
            assert(false);
        }
        if "战狂的蔷薇"@ == "吟游者之壶"@ {
            assert("战狂的蔷薇"@[0] == "吟游者之壶"@[0]);
            assert(false);
        }
        if "战狂的蔷薇"@ == "指挥的礼帽"@ {
            assert("战狂的蔷薇"@[0] == "指挥的礼帽"@[0]);
            assert(false);
        }
        assert(name_id(corpus_at(72)) == 72);
    } else if i == 73 {
        if "战狂的翎羽"@ == "雷鸟的怜悯"@ {
            assert("战狂的翎羽"@[0] == "雷鸟的怜悯"@[0]);
            assert(false);
        }
        if "战狂的翎羽"@ == "雷灾的孑遗"@ {
            assert("战狂的翎羽"@[0] == "雷灾的孑遗"@[0]);
            assert(false);
        }
        if "战狂的翎羽"@ == "雷霆的时计"@ {
            assert("战狂的翎羽"@[0] == "雷霆的时计"@[0]);
            assert(false);
        }
        if "战狂的翎羽"@ == "降雷的凶兆"@ {
            assert("战狂的翎羽"@[0] == "降雷的凶兆"@[0]);
            assert(false);
        }
        if "战狂的翎羽"@ == "唤雷的头冠"@ {
            assert("战狂的翎羽"@[0] == "唤雷的头冠"@[0]);
            assert(false);
        }
        if "战狂的翎羽"@ == "乐团的晨光"@ {
            assert("战狂的翎羽"@[0] == "乐团的晨光"@[0]);
            assert(false);
        }
        if "战狂的翎羽"@ == "琴师的箭羽"@ {
            assert("战狂的翎羽"@[0] == "琴师的箭羽"@[0]);
            assert(false);
        }
        if "战狂的翎羽"@ == "终幕的时计"@ {
            assert("战狂的翎羽"@[0] == "终幕的时计"@[0]);
            assert(false);
        }
        if "战狂的翎羽"@ == "终末的时计"@ {
            assert("战狂的翎羽"@[0] == "终末的时计"@[0]);
            assert(false);
        }
        if "战狂的翎羽"@ == "吟游者之壶"@ {
            assert("战狂的翎羽"@[0] == "吟游者之壶"@[0]);
            assert(false);
        }
        if "战狂的翎羽"@ == "指挥的礼帽"@ {
            assert("战狂的翎羽"@[0] == "指挥的礼帽"@[0]);
            assert(false);
        }
        if "战狂的翎羽"@ == "战狂的蔷薇"@ {
            assert("战狂的翎羽"@[3] == "战狂的蔷薇"@[3]);
            assert(false);
        }
        assert(name_id(corpus_at(73)) == 73);
    } else if i == 74 {
        if "战狂的时计"@ == "雷鸟的怜悯"@ {
            assert("战狂的时计"@[0] == "雷鸟的怜悯"@[0]);
            assert(false);
        }
        if "战狂的时计"@ == "雷灾的孑遗"@ {
            assert("战狂的时计"@[0] == "雷灾的孑遗"@[0]);
            assert(false);
        }
        if "战狂的时计"@ == "雷霆的时计"@ {
            assert("战狂的时计"@[0] == "雷霆的时计"@[0]);
            assert(false);
        }
        if "战狂的时计"@ == "降雷的凶兆"@ {
            assert("战狂的时计"@[0] == "降雷的凶兆"@[0]);
            assert(false);
        }
        if "战狂的时计"@ == "唤雷的头冠"@ {
            assert("战狂的时计"@[0] == "唤雷的头冠"@[0]);
            assert(false);
        }
        if "战狂的时计"@ == "乐团的晨光"@ {
            assert("战狂的时计"@[0] == "乐团的晨光"@[0]);
            assert(false);
        }
        if "战狂的时计"@ == "琴师的箭羽"@ {
            assert("战狂的时计"@[0] == "琴师的箭羽"@[0]);
            assert(false);
        }
        if "战狂的时计"@ == "终幕的时计"@ {
            assert("战狂的时计"@[0] == "终幕的时计"@[0]);
            assert(false);
        }
        if "战狂的时计"@ == "终末的时计"@ {
            assert("战狂的时计"@[0] == "终末的时计"@[0]);
            assert(false);
        }
        if "战狂的时计"@ == "吟游者之壶"@ {
            assert("战狂的时计"@[0] == "吟游者之壶"@[0]);
            assert(false);
        }
        if "战狂的时计"@ == "指挥的礼帽"@ {
            assert("战狂的时计"@[0] == "指挥的礼帽"@[0]);
            assert(false);
        }
        if "战狂的时计"@ == "战狂的蔷薇"@ {
            assert("战狂的时计"@[3] == "战狂的蔷薇"@[3]);
            assert(false);
        }
        if "战狂的时计"@ == "战狂的翎羽"@ {
            assert("战狂的时计"@[3] == "战狂的翎羽"@[3]);
            assert(false);
        }
        assert(name_id(corpus_at(74)) == 74);
    } else if i == 75 {
        if "战狂的骨杯"@ == "雷鸟的怜悯"@ {
            assert("战狂的骨杯"@[0] == "雷鸟的怜悯"@[0]);
            assert(false);
        }
        if "战狂的骨杯"@ == "雷灾的孑遗"@ {
            assert("战狂的骨杯"@[0] == "雷灾的孑遗"@[0]);
            assert(false);
        }
        if "战狂的骨杯"@ == "雷霆的时计"@ {
            assert("战狂的骨杯"@[0] == "雷霆的时计"@[0]);
            assert(false);
        }
        if "战狂的骨杯"@ == "降雷的凶兆"@ {
            assert("战狂的骨杯"@[0] == "降雷的凶兆"@[0]);
            assert(false);
        }
        if "战狂的骨杯"@ == "唤雷的头冠"@ {
            assert("战狂的骨杯"@[0] == "唤雷的头冠"@[0]);
            assert(false);
        }
        if "战狂的骨杯"@ == "乐团的晨光"@ {
            assert("战狂的骨杯"@[0] == "乐团的晨光"@[0]);
            assert(false);
        }
        if "战狂的骨杯"@ == "琴师的箭羽"@ {
            assert("战狂的骨杯"@[0] == "琴师的箭羽"@[0]);
            assert(false);
        }
        if "战狂的骨杯"@ == "终幕的时计"@ {
            assert("战狂的骨杯"@[0] == "终幕的时计"@[0]);
            assert(false);
        }
        if "战狂的骨杯"@ == "终末的时计"@ {
            assert("战狂的骨杯"@[0] == "终末的时计"@[0]);
            assert(false);
        }
        if "战狂的骨杯"@ == "吟游者之壶"@ {
            assert("战狂的骨杯"@[0] == "吟游者之壶"@[0]);
            assert(false);
        }
        if "战狂的骨杯"@ == "指挥的礼帽"@ {
            assert("战狂的骨杯"@[0] == "指挥的礼帽"@[0]);
            assert(false);
        }
        if "战狂的骨杯"@ == "战狂的蔷薇"@ {
            assert("战狂的骨杯"@[3] == "战狂的蔷薇"@[3]);
            assert(false);
        }
        if "战狂的骨杯"@ == "战狂的翎羽"@ {
            assert("战狂的骨杯"@[3] == "战狂的翎羽"@[3]);
            assert(false);
        }
        if "战狂的骨杯"@ == "战狂的时计"@ {
            assert("战狂的骨杯"@[3] == "战狂的时计"@[3]);
            assert(false);
        }
        assert(name_id(corpus_at(75)) == 75);
    } else if i == 76 {
        if "战狂的鬼面"@ == "雷鸟的怜悯"@ {
            assert("战狂的鬼面"@[0] == "雷鸟的怜悯"@[0]);
            assert(false);
        }
        if "战狂的鬼面"@ == "雷灾的孑遗"@ {
            assert("战狂的鬼面"@[0] == "雷灾的孑遗"@[0]);
            assert(false);
        }
        if "战狂的鬼面"@ == "雷霆的时计"@ {
            assert("战狂的鬼面"@[0] == "雷霆的时计"@[0]);
            assert(false);
        }
        if "战狂的鬼面"@ == "降雷的凶兆"@ {
            assert("战狂的鬼面"@[0] == "降雷的凶兆"@[0]);
            assert(false);
        }
        if "战狂的鬼面"@ == "唤雷的头冠"@ {
            assert("战狂的鬼面"@[0] == "唤雷的头冠"@[0]);
            assert(false);
        }
        if "战狂的鬼面"@ == "乐团的晨光"@ {
            assert("战狂的鬼面"@[0] == "乐团的晨光"@[0]);
            assert(false);
        }
        if "战狂的鬼面"@ == "琴师的箭羽"@ {
            assert("战狂的鬼面"@[0] == "琴师的箭羽"@[0]);
            assert(false);
        }
        if "战狂的鬼面"@ == "终幕的时计"@ {
            assert("战狂的鬼面"@[0] == "终幕的时计"@[0]);
            assert(false);
        }
        if "战狂的鬼面"@ == "终末的时计"@ {
            assert("战狂的鬼面"@[0] == "终末的时计"@[0]);
            assert(false);
        }
        if "战狂的鬼面"@ == "吟游者之壶"@ {
            assert("战狂的鬼面"@[0] == "吟游者之壶"@[0]);
            assert(false);
        }
        if "战狂的鬼面"@ == "指挥的礼帽"@ {
            assert("战狂的鬼面"@[0] == "指挥的礼帽"@[0]);
            assert(false);
        }
        if "战狂的鬼面"@ == "战狂的蔷薇"@ {
            assert("战狂的鬼面"@[3] == "战狂的蔷薇"@[3]);
            assert(false);
        }
        if "战狂的鬼面"@ == "战狂的翎羽"@ {
            assert("战狂的鬼面"@[3] == "战狂的翎羽"@[3]);
            assert(false);
        }
        if "战狂的鬼面"@ == "战狂的时计"@ {
            assert("战狂的鬼面"@[3] == "战狂的时计"@[3]);
            assert(false);
        }
        if "战狂的鬼面"@ == "战狂的骨杯"@ {
            assert("战狂的鬼面"@[3] == "战狂的骨杯"@[3]);
            assert(false);
        }
        assert(name_id(corpus_at(76)) == 76);
    } else if i == 77 {
        if "勇士的勋章"@ == "雷鸟的怜悯"@ {
            assert("勇士的勋章"@[0] == "雷鸟的怜悯"@[0]);
            assert(false);
        }
        if "勇士的勋章"@ == "雷灾的孑遗"@ {
            assert("勇士的勋章"@[0] == "雷灾的孑遗"@[0]);
            assert(false);
        }
        if "勇士的勋章"@ == "雷霆的时计"@ {
            assert("勇士的勋章"@[0] == "雷霆的时计"@[0]);
            assert(false);
        }
        if "勇士的勋章"@ == "降雷的凶兆"@ {
            assert("勇士的勋章"@[0] == "降雷的凶兆"@[0]);
            assert(false);
        }
        if "勇士的勋章"@ == "唤雷的头冠"@ {
            assert("勇士的勋章"@[0] == "唤雷的头冠"@[0]);
            assert(false);
        }
        if "勇士的勋章"@ == "乐团的晨光"@ {
            assert("勇士的勋章"@[0] == "乐团的晨光"@[0]);
            assert(false);
        }
        if "勇士的勋章"@ == "琴师的箭羽"@ {
            assert("勇士的勋章"@[0] == "琴师的箭羽"@[0]);
            assert(false);
        }
        if "勇士的勋章"@ == "终幕的时计"@ {
            assert("勇士的勋章"@[0] == "终幕的时计"@[0]);
            assert(false);
        }
        if "勇士的勋章"@ == "终末的时计"@ {
            assert("勇士的勋章"@[0] == "终末的时计"@[0]);
            assert(false);
        }
        if "勇士的勋章"@ == "吟游者之壶"@ {
            assert("勇士的勋章"@[0] == "吟游者之壶"@[0]);
            assert(false);
        }
        if "勇士的勋章"@ == "指挥的礼帽"@ {
            assert("勇士的勋章"@[0] == "指挥的礼帽"@[0]);
            assert(false);
        }
        if "勇士的勋章"@ == "战狂的蔷薇"@ {
            assert("勇士的勋章"@[0] == "战狂的蔷薇"@[0]);
            assert(false);
        }
        if "勇士的勋章"@ == "战狂的翎羽"@ {
            assert("勇士的勋章"@[0] == "战狂的翎羽"@[0]);
            assert(false);
        }
        if "勇士的勋章"@ == "战狂的时计"@ {
            assert("勇士的勋章"@[0] == "战狂的时计"@[0]);
            assert(false);
        }
        if "勇士的勋章"@ == "战狂的骨杯"@ {
            assert("勇士的勋章"@[0] == "战狂的骨杯"@[0]);
            assert(false);
        }
        if "勇士的勋章"@ == "战狂的鬼面"@ {
            assert("勇士的勋章"@[0] == "战狂的鬼面"@[0]);
            assert(false);
        }
        assert(name_id(corpus_at(77)) == 77);
    } else if i == 78 {
        if "勇士的期许"@ == "雷鸟的怜悯"@ {
            assert("勇士的期许"@[0] == "雷鸟的怜悯"@[0]);
            assert(false);
        }
        if "勇士的期许"@ == "雷灾的孑遗"@ {
            assert("勇士的期许"@[0] == "雷灾的孑遗"@[0]);
            assert(false);
        }
        if "勇士的期许"@ == "雷霆的时计"@ {
            assert("勇士的期许"@[0] == "雷霆的时计"@[0]);
            assert(false);
        }
        if "勇士的期许"@ == "降雷的凶兆"@ {
            assert("勇士的期许"@[0] == "降雷的凶兆"@[0]);
            assert(false);
        }
        if "勇士的期许"@ == "唤雷的头冠"@ {
            assert("勇士的期许"@[0] == "唤雷的头冠"@[0]);
            assert(false);
        }
        if "勇士的期许"@ == "乐团的晨光"@ {
            assert("勇士的期许"@[0] == "乐团的晨光"@[0]);
            assert(false);
        }
        if "勇士的期许"@ == "琴师的箭羽"@ {
            assert("勇士的期许"@[0] == "琴师的箭羽"@[0]);
            assert(false);
        }
        if "勇士的期许"@ == "终幕的时计"@ {
            assert("勇士的期许"@[0] == "终幕的时计"@[0]);
            assert(false);
        }
        if "勇士的期许"@ == "终末的时计"@ {
            assert("勇士的期许"@[0] == "终末的时计"@[0]);
            assert(false);
        }
        if "勇士的期许"@ == "吟游者之壶"@ {
            assert("勇士的期许"@[0] == "吟游者之壶"@[0]);
            assert(false);
        }
        if "勇士的期许"@ == "指挥的礼帽"@ {
            assert("勇士的期许"@[0] == "指挥的礼帽"@[0]);
            assert(false);
        }
        if "勇士的期许"@ == "战狂的蔷薇"@ {
            assert("勇士的期许"@[0] == "战狂的蔷薇"@[0]);
            assert(false);
        }
        if "勇士的期许"@ == "战狂的翎羽"@ {
            assert("勇士的期许"@[0] == "战狂的翎羽"@[0]);
            assert(false);
        }
        if "勇士的期许"@ == "战狂的时计"@ {
            assert("勇士的期许"@[0] == "战狂的时计"@[0]);
            assert(false);
        }
        if "勇士的期许"@ == "战狂的骨杯"@ {
            assert("勇士的期许"@[0] == "战狂的骨杯"@[0]);
            assert(false);
        }
        if "勇士的期许"@ == "战狂的鬼面"@ {
            assert("勇士的期许"@[0] == "战狂的鬼面"@[0]);
            assert(false);
        }
        if "勇士的期许"@ == "勇士的勋章"@ {
            assert("勇士的期许"@[3] == "勇士的勋章"@[3]);
            assert(false);
        }
        assert(name_id(corpus_at(78)) == 78);
    } else if i == 79 {
        if "勇士的坚毅"@ == "雷鸟的怜悯"@ {
            assert("勇士的坚毅"@[0] == "雷鸟的怜悯"@[0]);
            assert(false);
        }
        if "勇士的坚毅"@ == "雷灾的孑遗"@ {
            assert("勇士的坚毅"@[0] == "雷灾的孑遗"@[0]);
            assert(false);
        }
        if "勇士的坚毅"@ == "雷霆的时计"@ {
            assert("勇士的坚毅"@[0] == "雷霆的时计"@[0]);
            assert(false);
        }
        if "勇士的坚毅"@ == "降雷的凶兆"@ {
            assert("勇士的坚毅"@[0] == "降雷的凶兆"@[0]);
            assert(false);
        }
        if "勇士的坚毅"@ == "唤雷的头冠"@ {
            assert("勇士的坚毅"@[0] == "唤雷的头冠"@[0]);
            assert(false);
        }
        if "勇士的坚毅"@ == "乐团的晨光"@ {
            assert("勇士的坚毅"@[0] == "乐团的晨光"@[0]);
            assert(false);
        }
        if "勇士的坚毅"@ == "琴师的箭羽"@ {
            assert("勇士的坚毅"@[0] == "琴师的箭羽"@[0]);
            assert(false);
        }
        if "勇士的坚毅"@ == "终幕的时计"@ {
            assert("勇士的坚毅"@[0] == "终幕的时计"@[0]);
            assert(false);
        }
        if "勇士的坚毅"@ == "终末的时计"@ {
            assert("勇士的坚毅"@[0] == "终末的时计"@[0]);
            assert(false);
        }
        if "勇士的坚毅"@ == "吟游者之壶"@ {
            assert("勇士的坚毅"@[0] == "吟游者之壶"@[0]);
            assert(false);
        }
        if "勇士的坚毅"@ == "指挥的礼帽"@ {
            assert("勇士的坚毅"@[0] == "指挥的礼帽"@[0]);
            assert(false);
        }
        if "勇士的坚毅"@ == "战狂的蔷薇"@ {
            assert("勇士的坚毅"@[0] == "战狂的蔷薇"@[0]);
            assert(false);
        }
        if "勇士的坚毅"@ == "战狂的翎羽"@ {
            assert("勇士的坚毅"@[0] == "战狂的翎羽"@[0]);
            assert(false);
        }
        if "勇士的坚毅"@ == "战狂的时计"@ {
            assert("勇士的坚毅"@[0] == "战狂的时计"@[0]);
            assert(false);
        }
        if "勇士的坚毅"@ == "战狂的骨杯"@ {
            assert("勇士的坚毅"@[0] == "战狂的骨杯"@[0]);
            assert(false);
        }
        if "勇士的坚毅"@ == "战狂的鬼面"@ {
            assert("勇士的坚毅"@[0] == "战狂的鬼面"@[0]);
            assert(false);
        }
        if "勇士的坚毅"@ == "勇士的勋章"@ {
            assert("勇士的坚毅"@[3] == "勇士的勋章"@[3]);
            assert(false);
        }
        if "勇士的坚毅"@ == "勇士的期许"@ {
            assert("勇士的坚毅"@[3] == "勇士的期许"@[3]);
            assert(false);
        }
        assert(name_id(corpus_at(79)) == 79);
    }
}

proof fn corpus_entry_chunk8(i: int)
    requires
        80 <= i < 90,
    ensures
        name_id(corpus_at(i)) == i,
{
    reveal_strlit("饰金胸花");
    reveal_strlit("追忆之风");
    reveal_strlit("坚铜罗盘");
    reveal_strlit("沉波之盏");
    reveal_strlit("酒渍船帽");
    reveal_strlit("宗室之花");
    reveal_strlit("宗室之翎");
    reveal_strlit("宗室时计");
    reveal_strlit("宗室银瓮");
    reveal_strlit("宗室面具");
    reveal_strlit("夏祭之花");
    reveal_strlit("夏祭终末");
    reveal_strlit("夏祭之刻");
    reveal_strlit("夏祭水玉");
    reveal_strlit("夏祭之面");
    reveal_strlit("平雷之心");
    reveal_strlit("平雷之羽");
    reveal_strlit("平雷之刻");
    reveal_strlit("平雷之器");
    reveal_strlit("平雷之冠");
    reveal_strlit("雷鸟的怜悯");
    reveal_strlit("雷灾的孑遗");
    reveal_strlit("雷霆的时计");
    reveal_strlit("降雷的凶兆");
    reveal_strlit("唤雷的头冠");
    reveal_strlit("乐团的晨光");
    reveal_strlit("琴师的箭羽");
    reveal_strlit("终幕的时计");
    reveal_strlit("终末的时计");
    reveal_strlit("吟游者之壶");
    reveal_strlit("指挥的礼帽");
    reveal_strlit("战狂的蔷薇");
    reveal_strlit("战狂的翎羽");
    reveal_strlit("战狂的时计");
    reveal_strlit("战狂的骨杯");
    reveal_strlit("战狂的鬼面");
    reveal_strlit("勇士的勋章");
    reveal_strlit("勇士的期许");
    reveal_strlit("勇士的坚毅");
    reveal_strlit("勇士的壮行");
    reveal_strlit("勇士的冠冕");
    reveal_strlit("守护之花");
    reveal_strlit("守护徽印");
    reveal_strlit("守护座钟");
    reveal_strlit("守护之皿");
    reveal_strlit("守护束带");
    reveal_strlit("流放者之花");
    reveal_strlit("流放者之羽");
    reveal_strlit("流放者怀表");
    if i == 80 {
        if "勇士的壮行"@ == "雷鸟的怜悯"@ {
            assert("勇士的壮行"@[0] == "雷鸟的怜悯"@[0]);
            assert(false);
        }
        if "勇士的壮行"@ == "雷灾的孑遗"@ {
            assert("勇士的壮行"@[0] == "雷灾的孑遗"@[0]);
            assert(false);
        }
        if "勇士的壮行"@ == "雷霆的时计"@ {
            assert("勇士的壮行"@[0] == "雷霆的时计"@[0]);
            assert(false);
        }
        if "勇士的壮行"@ == "降雷的凶兆"@ {
            assert("勇士的壮行"@[0] == "降雷的凶兆"@[0]);
            assert(false);
        }
        if "勇士的壮行"@ == "唤雷的头冠"@ {
            assert("勇士的壮行"@[0] == "唤雷的头冠"@[0]);
            assert(false);
        }
        if "勇士的壮行"@ == "乐团的晨光"@ {
            assert("勇士的壮行"@[0] == "乐团的晨光"@[0]);
            assert(false);
        }
        if "勇士的壮行"@ == "琴师的箭羽"@ {
            assert("勇士的壮行"@[0] == "琴师的箭羽"@[0]);
            assert(false);
        }
        if "勇士的壮行"@ == "终幕的时计"@ {
            assert("勇士的壮行"@[0] == "终幕的时计"@[0]);
            assert(false);
        }
        if "勇士的壮行"@ == "终末的时计"@ {
            assert("勇士的壮行"@[0] == "终末的时计"@[0]);
            assert(false);
        }
        if "勇士的壮行"@ == "吟游者之壶"@ {
            assert("勇士的壮行"@[0] == "吟游者之壶"@[0]);
            assert(false);
        }
        if "勇士的壮行"@ == "指挥的礼帽"@ {
            assert("勇士的壮行"@[0] == "指挥的礼帽"@[0]);
            assert(false);
        }
        if "勇士的壮行"@ == "战狂的蔷薇"@ {
            assert("勇士的壮行"@[0] == "战狂的蔷薇"@[0]);
            assert(false);
        }
        if "勇士的壮行"@ == "战狂的翎羽"@ {
            assert("勇士的壮行"@[0] == "战狂的翎羽"@[0]);
            assert(false);
        }
        if "勇士的壮行"@ == "战狂的时计"@ {
            assert("勇士的壮行"@[0] == "战狂的时计"@[0]);
            assert(false);
        }
        if "勇士的壮行"@ == "战狂的骨杯"@ {
            assert("勇士的壮行"@[0] == "战狂的骨杯"@[0]);
            assert(false);
        }
        if "勇士的壮行"@ == "战狂的鬼面"@ {
            assert("勇士的壮行"@[0] == "战狂的鬼面"@[0]);
            assert(false);
        }
        if "勇士的壮行"@ == "勇士的勋章"@ {
            assert("勇士的壮行"@[3] == "勇士的勋章"@[3]);
            assert(false);
        }
        if "勇士的壮行"@ == "勇士的期许"@ {
            assert("勇士的壮行"@[3] == "勇士的期许"@[3]);
            assert(false);
        }
        if "勇士的壮行"@ == "勇士的坚毅"@ {
            assert("勇士的壮行"@[3] == "勇士的坚毅"@[3]);
            assert(false);
        }
        assert(name_id(corpus_at(80)) == 80);
    } else if i == 81 {
        if "勇士的冠冕"@ == "雷鸟的怜悯"@ {
            assert("勇士的冠冕"@[0] == "雷鸟的怜悯"@[0]);
            assert(false);
        }
        if "勇士的冠冕"@ == "雷灾的孑遗"@ {
            assert("勇士的冠冕"@[0] == "雷灾的孑遗"@[0]);
            assert(false);
        }
        if "勇士的冠冕"@ == "雷霆的时计"@ {
            assert("勇士的冠冕"@[0] == "雷霆的时计"@[0]);
            assert(false);
        }
        if "勇士的冠冕"@ == "降雷的凶兆"@ {
            assert("勇士的冠冕"@[0] == "降雷的凶兆"@[0]);
            assert(false);
        }
        if "勇士的冠冕"@ == "唤雷的头冠"@ {
            assert("勇士的冠冕"@[0] == "唤雷的头冠"@[0]);
            assert(false);
        }
        if "勇士的冠冕"@ == "乐团的晨光"@ {
            assert("勇士的冠冕"@[0] == "乐团的晨光"@[0]);
            assert(false);
        }
        if "勇士的冠冕"@ == "琴师的箭羽"@ {
            assert("勇士的冠冕"@[0] == "琴师的箭羽"@[0]);
            assert(false);
        }
        if "勇士的冠冕"@ == "终幕的时计"@ {
            assert("勇士的冠冕"@[0] == "终幕的时计"@[0]);
            assert(false);
        }
        if "勇士的冠冕"@ == "终末的时计"@ {
            assert("勇士的冠冕"@[0] == "终末的时计"@[0]);
            assert(false);
        }
        if "勇士的冠冕"@ == "吟游者之壶"@ {
            assert("勇士的冠冕"@[0] == "吟游者之壶"@[0]);
            assert(false);
        }
        if "勇士的冠冕"@ == "指挥的礼帽"@ {
            assert("勇士的冠冕"@[0] == "指挥的礼帽"@[0]);
            assert(false);
        }
        if "勇士的冠冕"@ == "战狂的蔷薇"@ {
            assert("勇士的冠冕"@[0] == "战狂的蔷薇"@[0]);
            assert(false);
        }
        if "勇士的冠冕"@ == "战狂的翎羽"@ {
            assert("勇士的冠冕"@[0] == "战狂的翎羽"@[0]);
            assert(false);
        }
        if "勇士的冠冕"@ == "战狂的时计"@ {
            assert("勇士的冠冕"@[0] == "战狂的时计"@[0]);
            assert(false);
        }
        if "勇士的冠冕"@ == "战狂的骨杯"@ {
            assert("勇士的冠冕"@[0] == "战狂的骨杯"@[0]);
            assert(false);
        }
        if "勇士的冠冕"@ == "战狂的鬼面"@ {
            assert("勇士的冠冕"@[0] == "战狂的鬼面"@[0]);
            assert(false);
        }
        if "勇士的冠冕"@ == "勇士的勋章"@ {
            assert("勇士的冠冕"@[3] == "勇士的勋章"@[3]);
            assert(false);
        }
        if "勇士的冠冕"@ == "勇士的期许"@ {
            assert("勇士的冠冕"@[3] == "勇士的期许"@[3]);
            assert(false);
        }
        if "勇士的冠冕"@ == "勇士的坚毅"@ {
            assert("勇士的冠冕"@[3] == "勇士的坚毅"@[3]);
            assert(false);
        }
        if "勇士的冠冕"@ == "勇士的壮行"@ {
            assert("勇士的冠冕"@[3] == "勇士的壮行"@[3]);
            assert(false);
        }
        assert(name_id(corpus_at(81)) == 81);
    } else if i == 82 {
        if "守护之花"@ == "饰金胸花"@ {
            assert("守护之花"@[0] == "饰金胸花"@[0]);
            assert(false);
        }
        if "守护之花"@ == "追忆之风"@ {
            assert("守护之花"@[0] == "追忆之风"@[0]);
            assert(false);
        }
        if "守护之花"@ == "坚铜罗盘"@ {
            assert("守护之花"@[0] == "坚铜罗盘"@[0]);
            assert(false);
        }
        if "守护之花"@ == "沉波之盏"@ {
            assert("守护之花"@[0] == "沉波之盏"@[0]);
            assert(false);
        }
        if "守护之花"@ == "酒渍船帽"@ {
            assert("守护之花"@[0] == "酒渍船帽"@[0]);
            assert(false);
        }
        if "守护之花"@ == "宗室之花"@ {
            assert("守护之花"@[0] == "宗室之花"@[0]);
            assert(false);
        }
        if "守护之花"@ == "宗室之翎"@ {
            assert("守护之花"@[0] == "宗室之翎"@[0]);
            assert(false);
        }
        if "守护之花"@ == "宗室时计"@ {
            assert("守护之花"@[0] == "宗室时计"@[0]);
            assert(false);
        }
        if "守护之花"@ == "宗室银瓮"@ {
            assert("守护之花"@[0] == "宗室银瓮"@[0]);
            assert(false);
        }
        if "守护之花"@ == "宗室面具"@ {
            assert("守护之花"@[0] == "宗室面具"@[0]);
            assert(false);
        }
        if "守护之花"@ == "夏祭之花"@ {
            assert("守护之花"@[0] == "夏祭之花"@[0]);
            assert(false);
        }
        if "守护之花"@ == "夏祭终末"@ {
            assert("守护之花"@[0] == "夏祭终末"@[0]);
            assert(false);
        }
        if "守护之花"@ == "夏祭之刻"@ {
            assert("守护之花"@[0] == "夏祭之刻"@[0]);
            assert(false);
        }
        if "守护之花"@ == "夏祭水玉"@ {
            assert("守护之花"@[0] == "夏祭水玉"@[0]);
            assert(false);
        }
        if "守护之花"@ == "夏祭之面"@ {
            assert("守护之花"@[0] == "夏祭之面"@[0]);
            assert(false);
        }
        if "守护之花"@ == "平雷之心"@ {
            assert("守护之花"@[0] == "平雷之心"@[0]);
            assert(false);
        }
        if "守护之花"@ == "平雷之羽"@ {
            assert("守护之花"@[0] == "平雷之羽"@[0]);
            assert(false);
        }
        if "守护之花"@ == "平雷之刻"@ {
            assert("守护之花"@[0] == "平雷之刻"@[0]);
            assert(false);
        }
        if "守护之花"@ == "平雷之器"@ {
            assert("守护之花"@[0] == "平雷之器"@[0]);
            assert(false);
        }
        if "守护之花"@ == "平雷之冠"@ {
            assert("守护之花"@[0] == "平雷之冠"@[0]);
            assert(false);
        }
        assert(name_id(corpus_at(82)) == 82);
    } else if i == 83 {
        if "守护徽印"@ == "饰金胸花"@ {
            assert("守护徽印"@[0] == "饰金胸花"@[0]);
            assert(false);
        }
        if "守护徽印"@ == "追忆之风"@ {
            assert("守护徽印"@[0] == "追忆之风"@[0]);
            assert(false);
        }
        if "守护徽印"@ == "坚铜罗盘"@ {
            assert("守护徽印"@[0] == "坚铜罗盘"@[0]);
            assert(false);
        }
        if "守护徽印"@ == "沉波之盏"@ {
            assert("守护徽印"@[0] == "沉波之盏"@[0]);
            assert(false);
        }
        if "守护徽印"@ == "酒渍船帽"@ {
            assert("守护徽印"@[0] == "酒渍船帽"@[0]);
            assert(false);
        }
        if "守护徽印"@ == "宗室之花"@ {
            assert("守护徽印"@[0] == "宗室之花"@[0]);
            assert(false);
        }
        if "守护徽印"@ == "宗室之翎"@ {
            assert("守护徽印"@[0] == "宗室之翎"@[0]);
            assert(false);
        }
        if "守护徽印"@ == "宗室时计"@ {
            assert("守护徽印"@[0] == "宗室时计"@[0]);
            assert(false);
        }
        if "守护徽印"@ == "宗室银瓮"@ {
            assert("守护徽印"@[0] == "宗室银瓮"@[0]);
            assert(false);
        }
        if "守护徽印"@ == "宗室面具"@ {
            assert("守护徽印"@[0] == "宗室面具"@[0]);
            assert(false);
        }
        if "守护徽印"@ == "夏祭之花"@ {
            assert("守护徽印"@[0] == "夏祭之花"@[0]);
            assert(false);
        }
        if "守护徽印"@ == "夏祭终末"@ {
            assert("守护徽印"@[0] == "夏祭终末"@[0]);
            assert(false);
        }
        if "守护徽印"@ == "夏祭之刻"@ {
            assert("守护徽印"@[0] == "夏祭之刻"@[0]);
            assert(false);
        }
        if "守护徽印"@ == "夏祭水玉"@ {
            assert("守护徽印"@[0] == "夏祭水玉"@[0]);
            assert(false);
        }
        if "守护徽印"@ == "夏祭之面"@ {
            assert("守护徽印"@[0] == "夏祭之面"@[0]);
            assert(false);
        }
        if "守护徽印"@ == "平雷之心"@ {
            assert("守护徽印"@[0] == "平雷之心"@[0]);
            assert(false);
        }
        if "守护徽印"@ == "平雷之羽"@ {
            assert("守护徽印"@[0] == "平雷之羽"@[0]);
            assert(false);
        }
        if "守护徽印"@ == "平雷之刻"@ {
            assert("守护徽印"@[0] == "平雷之刻"@[0]);
            assert(false);
        }
        if "守护徽印"@ == "平雷之器"@ {
            assert("守护徽印"@[0] == "平雷之器"@[0]);
            assert(false);
        }
        if "守护徽印"@ == "平雷之冠"@ {
            assert("守护徽印"@[0] == "平雷之冠"@[0]);
            assert(false);
        }
        if "守护徽印"@ == "守护之花"@ {
            assert("守护徽印"@[2] == "守护之花"@[2]);
            assert(false);
        }
        assert(name_id(corpus_at(83)) == 83);
    } else if i == 84 {
        if "守护座钟"@ == "饰金胸花"@ {
            assert("守护座钟"@[0] == "饰金胸花"@[0]);
            assert(false);
        }
        if "守护座钟"@ == "追忆之风"@ {
            assert("守护座钟"@[0] == "追忆之风"@[0]);
            assert(false);
        }
        if "守护座钟"@ == "坚铜罗盘"@ {
            assert("守护座钟"@[0] == "坚铜罗盘"@[0]);
            assert(false);
        }
        if "守护座钟"@ == "沉波之盏"@ {
            assert("守护座钟"@[0] == "沉波之盏"@[0]);
            assert(false);
        }
        if "守护座钟"@ == "酒渍船帽"@ {
            assert("守护座钟"@[0] == "酒渍船帽"@[0]);
            assert(false);
        }
        if "守护座钟"@ == "宗室之花"@ {
            assert("守护座钟"@[0] == "宗室之花"@[0]);
            assert(false);
        }
        if "守护座钟"@ == "宗室之翎"@ {
            assert("守护座钟"@[0] == "宗室之翎"@[0]);
            assert(false);
        }
        if "守护座钟"@ == "宗室时计"@ {
            assert("守护座钟"@[0] == "宗室时计"@[0]);
            assert(false);
        }
        if "守护座钟"@ == "宗室银瓮"@ {
            assert("守护座钟"@[0] == "宗室银瓮"@[0]);
            assert(false);
        }
        if "守护座钟"@ == "宗室面具"@ {
            assert("守护座钟"@[0] == "宗室面具"@[0]);
            assert(false);
        }
        if "守护座钟"@ == "夏祭之花"@ {
            assert("守护座钟"@[0] == "夏祭之花"@[0]);
            assert(false);
        }
        if "守护座钟"@ == "夏祭终末"@ {
            assert("守护座钟"@[0] == "夏祭终末"@[0]);
            assert(false);
        }
        if "守护座钟"@ == "夏祭之刻"@ {
            assert("守护座钟"@[0] == "夏祭之刻"@[0]);
            assert(false);
        }
        if "守护座钟"@ == "夏祭水玉"@ {
            assert("守护座钟"@[0] == "夏祭水玉"@[0]);
            assert(false);
        }
        if "守护座钟"@ == "夏祭之面"@ {
            assert("守护座钟"@[0] == "夏祭之面"@[0]);
            assert(false);
        }
        if "守护座钟"@ == "平雷之心"@ {
            assert("守护座钟"@[0] == "平雷之心"@[0]);
            assert(false);
        }
        if "守护座钟"@ == "平雷之羽"@ {
            assert("守护座钟"@[0] == "平雷之羽"@[0]);
            assert(false);
        }
        if "守护座钟"@ == "平雷之刻"@ {
            assert("守护座钟"@[0] == "平雷之刻"@[0]);
            assert(false);
        }
        if "守护座钟"@ == "平雷之器"@ {
            assert("守护座钟"@[0] == "平雷之器"@[0]);
            assert(false);
        }
        if "守护座钟"@ == "平雷之冠"@ {
            assert("守护座钟"@[0] == "平雷之冠"@[0]);
            assert(false);
        }
        if "守护座钟"@ == "守护之花"@ {
            assert("守护座钟"@[2] == "守护之花"@[2]);
            assert(false);
        }
        if "守护座钟"@ == "守护徽印"@ {
            assert("守护座钟"@[2] == "守护徽印"@[2]);
            assert(false);
        }
        assert(name_id(corpus_at(84)) == 84);
    } else if i == 85 {
        if "守护之皿"@ == "饰金胸花"@ {
            assert("守护之皿"@[0] == "饰金胸花"@[0]);
            assert(false);
        }
        if "守护之皿"@ == "追忆之风"@ {
            assert("守护之皿"@[0] == "追忆之风"@[0]);
            assert(false);
        }
        if "守护之皿"@ == "坚铜罗盘"@ {
            assert("守护之皿"@[0] == "坚铜罗盘"@[0]);
            assert(false);
        }
        if "守护之皿"@ == "沉波之盏"@ {
            assert("守护之皿"@[0] == "沉波之盏"@[0]);
            assert(false);
        }
        if "守护之皿"@ == "酒渍船帽"@ {
            assert("守护之皿"@[0] == "酒渍船帽"@[0]);
            assert(false);
        }
        if "守护之皿"@ == "宗室之花"@ {
            assert("守护之皿"@[0] == "宗室之花"@[0]);
            assert(false);
        }
        if "守护之皿"@ == "宗室之翎"@ {
            assert("守护之皿"@[0] == "宗室之翎"@[0]);
            assert(false);
        }
        if "守护之皿"@ == "宗室时计"@ {
            assert("守护之皿"@[0] == "宗室时计"@[0]);
            assert(false);
        }
        if "守护之皿"@ == "宗室银瓮"@ {
            assert("守护之皿"@[0] == "宗室银瓮"@[0]);
            assert(false);
        }
        if "守护之皿"@ == "宗室面具"@ {
            assert("守护之皿"@[0] == "宗室面具"@[0]);
            assert(false);
        }
        if "守护之皿"@ == "夏祭之花"@ {
            assert("守护之皿"@[0] == "夏祭之花"@[0]);
            assert(false);
        }
        if "守护之皿"@ == "夏祭终末"@ {
            assert("守护之皿"@[0] == "夏祭终末"@[0]);
            assert(false);
        }
        if "守护之皿"@ == "夏祭之刻"@ {
            assert("守护之皿"@[0] == "夏祭之刻"@[0]);
            assert(false);
        }
        if "守护之皿"@ == "夏祭水玉"@ {
            assert("守护之皿"@[0] == "夏祭水玉"@[0]);
            assert(false);
        }
        if "守护之皿"@ == "夏祭之面"@ {
            assert("守护之皿"@[0] == "夏祭之面"@[0]);
            assert(false);
        }
        if "守护之皿"@ == "平雷之心"@ {
            assert("守护之皿"@[0] == "平雷之心"@[0]);
            assert(false);
        }
        if "守护之皿"@ == "平雷之羽"@ {
            assert("守护之皿"@[0] == "平雷之羽"@[0]);
            assert(false);
        }
        if "守护之皿"@ == "平雷之刻"@ {
            assert("守护之皿"@[0] == "平雷之刻"@[0]);
            assert(false);
        }
        if "守护之皿"@ == "平雷之器"@ {
            assert("守护之皿"@[0] == "平雷之器"@[0]);
            assert(false);
        }
        if "守护之皿"@ == "平雷之冠"@ {
            assert("守护之皿"@[0] == "平雷之冠"@[0]);
            assert(false);
        }
        if "守护之皿"@ == "守护之花"@ {
            assert("守护之皿"@[3] == "守护之花"@[3]);
            assert(false);
        }
        if "守护之皿"@ == "守护徽印"@ {
            assert("守护之皿"@[2] == "守护徽印"@[2]);
            assert(false);
        }
        if "守护之皿"@ == "守护座钟"@ {
            assert("守护之皿"@[2] == "守护座钟"@[2]);
            assert(false);
        }
        assert(name_id(corpus_at(85)) == 85);
    } else if i == 86 {
        if "守护束带"@ == "饰金胸花"@ {
            assert("守护束带"@[0] == "饰金胸花"@[0]);
            assert(false);
        }
        if "守护束带"@ == "追忆之风"@ {
            assert("守护束带"@[0] == "追忆之风"@[0]);
            assert(false);
        }
        if "守护束带"@ == "坚铜罗盘"@ {
            assert("守护束带"@[0] == "坚铜罗盘"@[0]);
            assert(false);
        }
        if "守护束带"@ == "沉波之盏"@ {
            assert("守护束带"@[0] == "沉波之盏"@[0]);
            assert(false);
        }
        if "守护束带"@ == "酒渍船帽"@ {
            assert("守护束带"@[0] == "酒渍船帽"@[0]);
            assert(false);
        }
        if "守护束带"@ == "宗室之花"@ {
            assert("守护束带"@[0] == "宗室之花"@[0]);
            assert(false);
        }
        if "守护束带"@ == "宗室之翎"@ {
            assert("守护束带"@[0] == "宗室之翎"@[0]);
            assert(false);
        }
        if "守护束带"@ == "宗室时计"@ {
            assert("守护束带"@[0] == "宗室时计"@[0]);
            assert(false);
        }
        if "守护束带"@ == "宗室银瓮"@ {
            assert("守护束带"@[0] == "宗室银瓮"@[0]);
            assert(false);
        }
        if "守护束带"@ == "宗室面具"@ {
            assert("守护束带"@[0] == "宗室面具"@[0]);
            assert(false);
        }
        if "守护束带"@ == "夏祭之花"@ {
            assert("守护束带"@[0] == "夏祭之花"@[0]);
            assert(false);
        }
        if "守护束带"@ == "夏祭终末"@ {
            assert("守护束带"@[0] == "夏祭终末"@[0]);
            assert(false);
        }
        if "守护束带"@ == "夏祭之刻"@ {
            assert("守护束带"@[0] == "夏祭之刻"@[0]);
            assert(false);
        }
        if "守护束带"@ == "夏祭水玉"@ {
            assert("守护束带"@[0] == "夏祭水玉"@[0]);
            assert(false);
        }
        if "守护束带"@ == "夏祭之面"@ {
            assert("守护束带"@[0] == "夏祭之面"@[0]);
            assert(false);
        }
        if "守护束带"@ == "平雷之心"@ {
            assert("守护束带"@[0] == "平雷之心"@[0]);
            assert(false);
        }
        if "守护束带"@ == "平雷之羽"@ {
            assert("守护束带"@[0] == "平雷之羽"@[0]);
            assert(false);
        }
        if "守护束带"@ == "平雷之刻"@ {
            assert("守护束带"@[0] == "平雷之刻"@[0]);
            assert(false);
        }
        if "守护束带"@ == "平雷之器"@ {
            assert("守护束带"@[0] == "平雷之器"@[0]);
            assert(false);
        }
        if "守护束带"@ == "平雷之冠"@ {
            assert("守护束带"@[0] == "平雷之冠"@[0]);
            assert(false);
        }
        if "守护束带"@ == "守护之花"@ {
            assert("守护束带"@[2] == "守护之花"@[2]);
            assert(false);
        }
        if "守护束带"@ == "守护徽印"@ {
            assert("守护束带"@[2] == "守护徽印"@[2]);
            assert(false);
        }
        if "守护束带"@ == "守护座钟"@ {
            assert("守护束带"@[2] == "守护座钟"@[2]);
            assert(false);
        }
        if "守护束带"@ == "守护之皿"@ {
            assert("守护束带"@[2] == "守护之皿"@[2]);
            assert(false);
        }
        assert(name_id(corpus_at(86)) == 86);
    } else if i == 87 {
        if "流放者之花"@ == "雷鸟的怜悯"@ {
            assert("流放者之花"@[0] == "雷鸟的怜悯"@[0]);
            assert(false);
        }
        if "流放者之花"@ == "雷灾的孑遗"@ {
            assert("流放者之花"@[0] == "雷灾的孑遗"@[0]);
            assert(false);
        }
        if "流放者之花"@ == "雷霆的时计"@ {
            assert("流放者之花"@[0] == "雷霆的时计"@[0]);
            assert(false);
        }
        if "流放者之花"@ == "降雷的凶兆"@ {
            assert("流放者之花"@[0] == "降雷的凶兆"@[0]);
            assert(false);
        }
        if "流放者之花"@ == "唤雷的头冠"@ {
            assert("流放者之花"@[0] == "唤雷的头冠"@[0]);
            assert(false);
        }
        if "流放者之花"@ == "乐团的晨光"@ {
            assert("流放者之花"@[0] == "乐团的晨光"@[0]);
            assert(false);
        }
        if "流放者之花"@ == "琴师的箭羽"@ {
            assert("流放者之花"@[0] == "琴师的箭羽"@[0]);
            assert(false);
        }
        if "流放者之花"@ == "终幕的时计"@ {
            assert("流放者之花"@[0] == "终幕的时计"@[0]);
            assert(false);
        }
        if "流放者之花"@ == "终末的时计"@ {
            assert("流放者之花"@[0] == "终末的时计"@[0]);
            assert(false);
        }
        if "流放者之花"@ == "吟游者之壶"@ {
            assert("流放者之花"@[0] == "吟游者之壶"@[0]);
            assert(false);
        }
        if "流放者之花"@ == "指挥的礼帽"@ {
            assert("流放者之花"@[0] == "指挥的礼帽"@[0]);
            assert(false);
        }
        if "流放者之花"@ == "战狂的蔷薇"@ {
            assert("流放者之花"@[0] == "战狂的蔷薇"@[0]);
            assert(false);
        }
        if "流放者之花"@ == "战狂的翎羽"@ {
            assert("流放者之花"@[0] == "战狂的翎羽"@[0]);
            assert(false);
        }
        if "流放者之花"@ == "战狂的时计"@ {
            assert("流放者之花"@[0] == "战狂的时计"@[0]);
            assert(false);
        }
        if "流放者之花"@ == "战狂的骨杯"@ {
            assert("流放者之花"@[0] == "战狂的骨杯"@[0]);
            assert(false);
        }
        if "流放者之花"@ == "战狂的鬼面"@ {
            assert("流放者之花"@[0] == "战狂的鬼面"@[0]);
            assert(false);
        }
        if "流放者之花"@ == "勇士的勋章"@ {
            assert("流放者之花"@[0] == "勇士的勋章"@[0]);
            assert(false);
        }
        if "流放者之花"@ == "勇士的期许"@ {
            assert("流放者之花"@[0] == "勇士的期许"@[0]);
            assert(false);
        }
        if "流放者之花"@ == "勇士的坚毅"@ {
            assert("流放者之花"@[0] == "勇士的坚毅"@[0]);
            assert(false);
        }
        if "流放者之花"@ == "勇士的壮行"@ {
            assert("流放者之花"@[0] == "勇士的壮行"@[0]);
            assert(false);
        }
        if "流放者之花"@ == "勇士的冠冕"@ {
            assert("流放者之花"@[0] == "勇士的冠冕"@[0]);
            assert(false);
        }
        assert(name_id(corpus_at(87)) == 87);
    } else if i == 88 {
        if "流放者之羽"@ == "雷鸟的怜悯"@ {
            assert("流放者之羽"@[0] == "雷鸟的怜悯"@[0]);
            assert(false);
        }
        if "流放者之羽"@ == "雷灾的孑遗"@ {
            assert("流放者之羽"@[0] == "雷灾的孑遗"@[0]);
            assert(false);
        }
        if "流放者之羽"@ == "雷霆的时计"@ {
            assert("流放者之羽"@[0] == "雷霆的时计"@[0]);
            assert(false);
        }
        if "流放者之羽"@ == "降雷的凶兆"@ {
            assert("流放者之羽"@[0] == "降雷的凶兆"@[0]);
            assert(false);
        }
        if "流放者之羽"@ == "唤雷的头冠"@ {
            assert("流放者之羽"@[0] == "唤雷的头冠"@[0]);
            assert(false);
        }
        if "流放者之羽"@ == "乐团的晨光"@ {
            assert("流放者之羽"@[0] == "乐团的晨光"@[0]);
            assert(false);
        }
        if "流放者之羽"@ == "琴师的箭羽"@ {
            assert("流放者之羽"@[0] == "琴师的箭羽"@[0]);
            assert(false);
        }
        if "流放者之羽"@ == "终幕的时计"@ {
            assert("流放者之羽"@[0] == "终幕的时计"@[0]);
            assert(false);
        }
        if "流放者之羽"@ == "终末的时计"@ {
            assert("流放者之羽"@[0] == "终末的时计"@[0]);
            assert(false);
        }
        if "流放者之羽"@ == "吟游者之壶"@ {
            assert("流放者之羽"@[0] == "吟游者之壶"@[0]);
            assert(false);
        }
        if "流放者之羽"@ == "指挥的礼帽"@ {
            assert("流放者之羽"@[0] == "指挥的礼帽"@[0]);
            assert(false);
        }
        if "流放者之羽"@ == "战狂的蔷薇"@ {
            assert("流放者之羽"@[0] == "战狂的蔷薇"@[0]);
            assert(false);
        }
        if "流放者之羽"@ == "战狂的翎羽"@ {
            assert("流放者之羽"@[0] == "战狂的翎羽"@[0]);
            assert(false);
        }
        if "流放者之羽"@ == "战狂的时计"@ {
            assert("流放者之羽"@[0] == "战狂的时计"@[0]);
            assert(false);
        }
        if "流放者之羽"@ == "战狂的骨杯"@ {
            assert("流放者之羽"@[0] == "战狂的骨杯"@[0]);
            assert(false);
        }
        if "流放者之羽"@ == "战狂的鬼面"@ {
            assert("流放者之羽"@[0] == "战狂的鬼面"@[0]);
            assert(false);
        }
        if "流放者之羽"@ == "勇士的勋章"@ {
            assert("流放者之羽"@[0] == "勇士的勋章"@[0]);
            assert(false);
        }
        if "流放者之羽"@ == "勇士的期许"@ {
            assert("流放者之羽"@[0] == "勇士的期许"@[0]);
            assert(false);
        }
        if "流放者之羽"@ == "勇士的坚毅"@ {
            assert("流放者之羽"@[0] == "勇士的坚毅"@[0]);
            assert(false);
        }
        if "流放者之羽"@ == "勇士的壮行"@ {
            assert("流放者之羽"@[0] == "勇士的壮行"@[0]);
            assert(false);
        }
        if "流放者之羽"@ == "勇士的冠冕"@ {
            assert("流放者之羽"@[0] == "勇士的冠冕"@[0]);
            assert(false);
        }
        if "流放者之羽"@ == "流放者之花"@ {
            assert("流放者之羽"@[4] == "流放者之花"@[4]);
            assert(false);
        }
        assert(name_id(corpus_at(88)) == 88);
    } else if i == 89 {
        if "流放者怀表"@ == "雷鸟的怜悯"@ {
            assert("流放者怀表"@[0] == "雷鸟的怜悯"@[0]);
            assert(false);
        }
        if "流放者怀表"@ == "雷灾的孑遗"@ {
            assert("流放者怀表"@[0] == "雷灾的孑遗"@[0]);
            assert(false);
        }
        if "流放者怀表"@ == "雷霆的时计"@ {
            assert("流放者怀表"@[0] == "雷霆的时计"@[0]);
            assert(false);
        }
        if "流放者怀表"@ == "降雷的凶兆"@ {
            assert("流放者怀表"@[0] == "降雷的凶兆"@[0]);
            assert(false);
        }
        if "流放者怀表"@ == "唤雷的头冠"@ {
            assert("流放者怀表"@[0] == "唤雷的头冠"@[0]);
            assert(false);
        }
        if "流放者怀表"@ == "乐团的晨光"@ {
            assert("流放者怀表"@[0] == "乐团的晨光"@[0]);
            assert(false);
        }
        if "流放者怀表"@ == "琴师的箭羽"@ {
            assert("流放者怀表"@[0] == "琴师的箭羽"@[0]);
            assert(false);
        }
        if "流放者怀表"@ == "终幕的时计"@ {
            assert("流放者怀表"@[0] == "终幕的时计"@[0]);
            assert(false);
        }
        if "流放者怀表"@ == "终末的时计"@ {
            assert("流放者怀表"@[0] == "终末的时计"@[0]);
            assert(false);
        }
        if "流放者怀表"@ == "吟游者之壶"@ {
            assert("流放者怀表"@[0] == "吟游者之壶"@[0]);
            assert(false);
        }
        if "流放者怀表"@ == "指挥的礼帽"@ {
            assert("流放者怀表"@[0] == "指挥的礼帽"@[0]);
            assert(false);
        }
        if "流放者怀表"@ == "战狂的蔷薇"@ {
            assert("流放者怀表"@[0] == "战狂的蔷薇"@[0]);
            assert(false);
        }
        if "流放者怀表"@ == "战狂的翎羽"@ {
            assert("流放者怀表"@[0] == "战狂的翎羽"@[0]);
            assert(false);
        }
        if "流放者怀表"@ == "战狂的时计"@ {
            assert("流放者怀表"@[0] == "战狂的时计"@[0]);
            assert(false);
        }
        if "流放者怀表"@ == "战狂的骨杯"@ {
            assert("流放者怀表"@[0] == "战狂的骨杯"@[0]);
            assert(false);
        }
        if "流放者怀表"@ == "战狂的鬼面"@ {
            assert("流放者怀表"@[0] == "战狂的鬼面"@[0]);
            assert(false);
        }
        if "流放者怀表"@ == "勇士的勋章"@ {
            assert("流放者怀表"@[0] == "勇士的勋章"@[0]);
            assert(false);
        }
        if "流放者怀表"@ == "勇士的期许"@ {
            assert("流放者怀表"@[0] == "勇士的期许"@[0]);
            assert(false);
        }
        if "流放者怀表"@ == "勇士的坚毅"@ {
            assert("流放者怀表"@[0] == "勇士的坚毅"@[0]);
            assert(false);
        }
        if "流放者怀表"@ == "勇士的壮行"@ {
            assert("流放者怀表"@[0] == "勇士的壮行"@[0]);
            assert(false);
        }
        if "流放者怀表"@ == "勇士的冠冕"@ {
            assert("流放者怀表"@[0] == "勇士的冠冕"@[0]);
            assert(false);
        }
        if "流放者怀表"@ == "流放者之花"@ {
            assert("流放者怀表"@[3] == "流放者之花"@[3]);
            assert(false);
        }
        if "流放者怀表"@ == "流放者之羽"@ {
            assert("流放者怀表"@[3] == "流放者之羽"@[3]);
            assert(false);
        }
        assert(name_id(corpus_at(89)) == 89);
    }
}

proof fn corpus_entry_chunk9(i: int)
    requires
        90 <= i < 100,
    ensures
        name_id(corpus_at(i)) == i,
{
    reveal_strlit("雷鸟的怜悯");
    reveal_strlit("雷灾的孑遗");
    reveal_strlit("雷霆的时计");
    reveal_strlit("降雷的凶兆");
    reveal_strlit("唤雷的头冠");
    reveal_strlit("乐团的晨光");
    reveal_strlit("琴师的箭羽");
    reveal_strlit("终幕的时计");
    reveal_strlit("终末的时计");
    reveal_strlit("吟游者之壶");
    reveal_strlit("指挥的礼帽");
    reveal_strlit("战狂的蔷薇");
    reveal_strlit("战狂的翎羽");
    reveal_strlit("战狂的时计");
    reveal_strlit("战狂的骨杯");
    reveal_strlit("战狂的鬼面");
    reveal_strlit("勇士的勋章");
    reveal_strlit("勇士的期许");
    reveal_strlit("勇士的坚毅");
    reveal_strlit("勇士的壮行");
    reveal_strlit("勇士的冠冕");
    reveal_strlit("流放者之花");
    reveal_strlit("流放者之羽");
    reveal_strlit("流放者怀表");
    reveal_strlit("流放者之杯");
    reveal_strlit("流放者头冠");
    reveal_strlit("赌徒的胸花");
    reveal_strlit("赌徒的羽饰");
    reveal_strlit("赌徒的怀表");
    reveal_strlit("赌徒的骰盅");
    reveal_strlit("赌徒的耳环");
    reveal_strlit("教官的胸花");
    reveal_strlit("教官的羽饰");
    reveal_strlit("教官的怀表");
    if i == 90 {
        if "流放者之杯"@ == "雷鸟的怜悯"@ {
            assert("流放者之杯"@[0] == "雷鸟的怜悯"@[0]);
            assert(false);
        }
        if "流放者之杯"@ == "雷灾的孑遗"@ {
            assert("流放者之杯"@[0] == "雷灾的孑遗"@[0]);
            assert(false);
        }
        if "流放者之杯"@ == "雷霆的时计"@ {
            assert("流放者之杯"@[0] == "雷霆的时计"@[0]);
            assert(false);
        }
        if "流放者之杯"@ == "降雷的凶兆"@ {
            assert("流放者之杯"@[0] == "降雷的凶兆"@[0]);
            assert(false);
        }
        if "流放者之杯"@ == "唤雷的头冠"@ {
            assert("流放者之杯"@[0] == "唤雷的头冠"@[0]);
            assert(false);
        }
        if "流放者之杯"@ == "乐团的晨光"@ {
            assert("流放者之杯"@[0] == "乐团的晨光"@[0]);
            assert(false);
        }
        if "流放者之杯"@ == "琴师的箭羽"@ {
            assert("流放者之杯"@[0] == "琴师的箭羽"@[0]);
            assert(false);
        }
        if "流放者之杯"@ == "终幕的时计"@ {
            assert("流放者之杯"@[0] == "终幕的时计"@[0]);
            assert(false);
        }
        if "流放者之杯"@ == "终末的时计"@ {
            assert("流放者之杯"@[0] == "终末的时计"@[0]);
            assert(false);
        }
        if "流放者之杯"@ == "吟游者之壶"@ {
            assert("流放者之杯"@[0] == "吟游者之壶"@[0]);
            assert(false);
        }
        if "流放者之杯"@ == "指挥的礼帽"@ {
            assert("流放者之杯"@[0] == "指挥的礼帽"@[0]);
            assert(false);
        }
        if "流放者之杯"@ == "战狂的蔷薇"@ {
            assert("流放者之杯"@[0] == "战狂的蔷薇"@[0]);
            assert(false);
        }
        if "流放者之杯"@ == "战狂的翎羽"@ {
            assert("流放者之杯"@[0] == "战狂的翎羽"@[0]);
            assert(false);
        }
        if "流放者之杯"@ == "战狂的时计"@ {
            assert("流放者之杯"@[0] == "战狂的时计"@[0]);
            assert(false);
        }
        if "流放者之杯"@ == "战狂的骨杯"@ {
            assert("流放者之杯"@[0] == "战狂的骨杯"@[0]);
            assert(false);
        }
        if "流放者之杯"@ == "战狂的鬼面"@ {
            assert("流放者之杯"@[0] == "战狂的鬼面"@[0]);
            assert(false);
        }
        if "流放者之杯"@ == "勇士的勋章"@ {
            assert("流放者之杯"@[0] == "勇士的勋章"@[0]);
            assert(false);
        }
        if "流放者之杯"@ == "勇士的期许"@ {
            assert("流放者之杯"@[0] == "勇士的期许"@[0]);
            assert(false);
        }
        if "流放者之杯"@ == "勇士的坚毅"@ {
            assert("流放者之杯"@[0] == "勇士的坚毅"@[0]);
            assert(false);
        }
        if "流放者之杯"@ == "勇士的壮行"@ {
            assert("流放者之杯"@[0] == "勇士的壮行"@[0]);
            assert(false);
        }
        if "流放者之杯"@ == "勇士的冠冕"@ {
            assert("流放者之杯"@[0] == "勇士的冠冕"@[0]);
            assert(false);
        }
        if "流放者之杯"@ == "流放者之花"@ {
            assert("流放者之杯"@[4] == "流放者之花"@[4]);
            assert(false);
        }
        if "流放者之杯"@ == "流放者之羽"@ {
            assert("流放者之杯"@[4] == "流放者之羽"@[4]);
            assert(false);
        }
        if "流放者之杯"@ == "流放者怀表"@ {
            assert("流放者之杯"@[3] == "流放者怀表"@[3]);
            assert(false);
        }
        assert(name_id(corpus_at(90)) == 90);
    } else if i == 91 {
        if "流放者头冠"@ == "雷鸟的怜悯"@ {
            assert("流放者头冠"@[0] == "雷鸟的怜悯"@[0]);
            assert(false);
        }
        if "流放者头冠"@ == "雷灾的孑遗"@ {
            assert("流放者头冠"@[0] == "雷灾的孑遗"@[0]);
            assert(false);
        }
        if "流放者头冠"@ == "雷霆的时计"@ {
            assert("流放者头冠"@[0] == "雷霆的时计"@[0]);
            assert(false);
        }
        if "流放者头冠"@ == "降雷的凶兆"@ {
            assert("流放者头冠"@[0] == "降雷的凶兆"@[0]);
            assert(false);
        }
        if "流放者头冠"@ == "唤雷的头冠"@ {
            assert("流放者头冠"@[0] == "唤雷的头冠"@[0]);
            assert(false);
        }
        if "流放者头冠"@ == "乐团的晨光"@ {
            assert("流放者头冠"@[0] == "乐团的晨光"@[0]);
            assert(false);
        }
        if "流放者头冠"@ == "琴师的箭羽"@ {
            assert("流放者头冠"@[0] == "琴师的箭羽"@[0]);
            assert(false);
        }
        if "流放者头冠"@ == "终幕的时计"@ {
            assert("流放者头冠"@[0] == "终幕的时计"@[0]);
            assert(false);
        }
        if "流放者头冠"@ == "终末的时计"@ {
            assert("流放者头冠"@[0] == "终末的时计"@[0]);
            assert(false);
        }
        if "流放者头冠"@ == "吟游者之壶"@ {
            assert("流放者头冠"@[0] == "吟游者之壶"@[0]);
            assert(false);
        }
        if "流放者头冠"@ == "指挥的礼帽"@ {
            assert("流放者头冠"@[0] == "指挥的礼帽"@[0]);
            assert(false);
        }
        if "流放者头冠"@ == "战狂的蔷薇"@ {
            assert("流放者头冠"@[0] == "战狂的蔷薇"@[0]);
            assert(false);
        }
        if "流放者头冠"@ == "战狂的翎羽"@ {
            assert("流放者头冠"@[0] == "战狂的翎羽"@[0]);
            assert(false);
        }
        if "流放者头冠"@ == "战狂的时计"@ {
            assert("流放者头冠"@[0] == "战狂的时计"@[0]);
            assert(false);
        }
        if "流放者头冠"@ == "战狂的骨杯"@ {
            assert("流放者头冠"@[0] == "战狂的骨杯"@[0]);
            assert(false);
        }
        if "流放者头冠"@ == "战狂的鬼面"@ {
            assert("流放者头冠"@[0] == "战狂的鬼面"@[0]);
            assert(false);
        }
        if "流放者头冠"@ == "勇士的勋章"@ {
            assert("流放者头冠"@[0] == "勇士的勋章"@[0]);
            assert(false);
        }
        if "流放者头冠"@ == "勇士的期许"@ {
            assert("流放者头冠"@[0] == "勇士的期许"@[0]);
            assert(false);
        }
        if "流放者头冠"@ == "勇士的坚毅"@ {
            assert("流放者头冠"@[0] == "勇士的坚毅"@[0]);
            assert(false);
        }
        if "流放者头冠"@ == "勇士的壮行"@ {
            assert("流放者头冠"@[0] == "勇士的壮行"@[0]);
            assert(false);
        }
        if "流放者头冠"@ == "勇士的冠冕"@ {
            assert("流放者头冠"@[0] == "勇士的冠冕"@[0]);
            assert(false);
        }
        if "流放者头冠"@ == "流放者之花"@ {
            assert("流放者头冠"@[3] == "流放者之花"@[3]);
            assert(false);
        }
        if "流放者头冠"@ == "流放者之羽"@ {
            assert("流放者头冠"@[3] == "流放者之羽"@[3]);
            assert(false);
        }
        if "流放者头冠"@ == "流放者怀表"@ {
            assert("流放者头冠"@[3] == "流放者怀表"@[3]);
            assert(false);
        }
        if "流放者头冠"@ == "流放者之杯"@ {
            assert("流放者头冠"@[3] == "流放者之杯"@[3]);
            assert(false);
        }
        assert(name_id(corpus_at(91)) == 91);
    } else if i == 92 {
        if "赌徒的胸花"@ == "雷鸟的怜悯"@ {
            assert("赌徒的胸花"@[0] == "雷鸟的怜悯"@[0]);
            assert(false);
        }
        if "赌徒的胸花"@ == "雷灾的孑遗"@ {
            assert("赌徒的胸花"@[0] == "雷灾的孑遗"@[0]);
            assert(false);
        }
        if "赌徒的胸花"@ == "雷霆的时计"@ {
            assert("赌徒的胸花"@[0] == "雷霆的时计"@[0]);
            assert(false);
        }
        if "赌徒的胸花"@ == "降雷的凶兆"@ {
            assert("赌徒的胸花"@[0] == "降雷的凶兆"@[0]);
            assert(false);
        }
        if "赌徒的胸花"@ == "唤雷的头冠"@ {
            assert("赌徒的胸花"@[0] == "唤雷的头冠"@[0]);
            assert(false);
        }
        if "赌徒的胸花"@ == "乐团的晨光"@ {
            assert("赌徒的胸花"@[0] == "乐团的晨光"@[0]);
            assert(false);
        }
        if "赌徒的胸花"@ == "琴师的箭羽"@ {
            assert("赌徒的胸花"@[0] == "琴师的箭羽"@[0]);
            assert(false);
        }
        if "赌徒的胸花"@ == "终幕的时计"@ {
            assert("赌徒的胸花"@[0] == "终幕的时计"@[0]);
            assert(false);
        }
        if "赌徒的胸花"@ == "终末的时计"@ {
            assert("赌徒的胸花"@[0] == "终末的时计"@[0]);
            assert(false);
        }
        if "赌徒的胸花"@ == "吟游者之壶"@ {
            assert("赌徒的胸花"@[0] == "吟游者之壶"@[0]);
            assert(false);
        }
        if "赌徒的胸花"@ == "指挥的礼帽"@ {
            assert("赌徒的胸花"@[0] == "指挥的礼帽"@[0]);
            assert(false);
        }
        if "赌徒的胸花"@ == "战狂的蔷薇"@ {
            assert("赌徒的胸花"@[0] == "战狂的蔷薇"@[0]);
            assert(false);
        }
        if "赌徒的胸花"@ == "战狂的翎羽"@ {
            assert("赌徒的胸花"@[0] == "战狂的翎羽"@[0]);
            assert(false);
        }
        if "赌徒的胸花"@ == "战狂的时计"@ {
            assert("赌徒的胸花"@[0] == "战狂的时计"@[0]);
            assert(false);
        }
        if "赌徒的胸花"@ == "战狂的骨杯"@ {
            assert("赌徒的胸花"@[0] == "战狂的骨杯"@[0]);
            assert(false);
        }
        if "赌徒的胸花"@ == "战狂的鬼面"@ {
            assert("赌徒的胸花"@[0] == "战狂的鬼面"@[0]);
            assert(false);
        }
        if "赌徒的胸花"@ == "勇士的勋章"@ {
            assert("赌徒的胸花"@[0] == "勇士的勋章"@[0]);
            assert(false);
        }
        if "赌徒的胸花"@ == "勇士的期许"@ {
            assert("赌徒的胸花"@[0] == "勇士的期许"@[0]);
            assert(false);
        }
        if "赌徒的胸花"@ == "勇士的坚毅"@ {
            assert("赌徒的胸花"@[0] == "勇士的坚毅"@[0]);
            assert(false);
        }
        if "赌徒的胸花"@ == "勇士的壮行"@ {
            assert("赌徒的胸花"@[0] == "勇士的壮行"@[0]);
            assert(false);
        }
        if "赌徒的胸花"@ == "勇士的冠冕"@ {
            assert("赌徒的胸花"@[0] == "勇士的冠冕"@[0]);
            assert(false);
        }
        if "赌徒的胸花"@ == "流放者之花"@ {
            assert("赌徒的胸花"@[0] == "流放者之花"@[0]);
            assert(false);
        }
        if "赌徒的胸花"@ == "流放者之羽"@ {
            assert("赌徒的胸花"@[0] == "流放者之羽"@[0]);
            assert(false);
        }
        if "赌徒的胸花"@ == "流放者怀表"@ {
            assert("赌徒的胸花"@[0] == "流放者怀表"@[0]);
            assert(false);
        }
        if "赌徒的胸花"@ == "流放者之杯"@ {
            assert("赌徒的胸花"@[0] == "流放者之杯"@[0]);
            assert(false);
        }
        if "赌徒的胸花"@ == "流放者头冠"@ {
            assert("赌徒的胸花"@[0] == "流放者头冠"@[0]);
            assert(false);
        }
        assert(name_id(corpus_at(92)) == 92);
    } else if i == 93 {
        if "赌徒的羽饰"@ == "雷鸟的怜悯"@ {
            assert("赌徒的羽饰"@[0] == "雷鸟的怜悯"@[0]);
            assert(false);
        }
        if "赌徒的羽饰"@ == "雷灾的孑遗"@ {
            assert("赌徒的羽饰"@[0] == "雷灾的孑遗"@[0]);
            assert(false);
        }
        if "赌徒的羽饰"@ == "雷霆的时计"@ {
            assert("赌徒的羽饰"@[0] == "雷霆的时计"@[0]);
            assert(false);
        }
        if "赌徒的羽饰"@ == "降雷的凶兆"@ {
            assert("赌徒的羽饰"@[0] == "降雷的凶兆"@[0]);
            assert(false);
        }
        if "赌徒的羽饰"@ == "唤雷的头冠"@ {
            assert("赌徒的羽饰"@[0] == "唤雷的头冠"@[0]);
            assert(false);
        }
        if "赌徒的羽饰"@ == "乐团的晨光"@ {
            assert("赌徒的羽饰"@[0] == "乐团的晨光"@[0]);
            assert(false);
        }
        if "赌徒的羽饰"@ == "琴师的箭羽"@ {
            assert("赌徒的羽饰"@[0] == "琴师的箭羽"@[0]);
            assert(false);
        }
        if "赌徒的羽饰"@ == "终幕的时计"@ {
            assert("赌徒的羽饰"@[0] == "终幕的时计"@[0]);
            assert(false);
        }
        if "赌徒的羽饰"@ == "终末的时计"@ {
            assert("赌徒的羽饰"@[0] == "终末的时计"@[0]);
            assert(false);
        }
        if "赌徒的羽饰"@ == "吟游者之壶"@ {
            assert("赌徒的羽饰"@[0] == "吟游者之壶"@[0]);
            assert(false);
        }
        if "赌徒的羽饰"@ == "指挥的礼帽"@ {
            assert("赌徒的羽饰"@[0] == "指挥的礼帽"@[0]);
            assert(false);
        }
        if "赌徒的羽饰"@ == "战狂的蔷薇"@ {
            assert("赌徒的羽饰"@[0] == "战狂的蔷薇"@[0]);
            assert(false);
        }
        if "赌徒的羽饰"@ == "战狂的翎羽"@ {
            assert("赌徒的羽饰"@[0] == "战狂的翎羽"@[0]);
            assert(false);
        }
        if "赌徒的羽饰"@ == "战狂的时计"@ {
            assert("赌徒的羽饰"@[0] == "战狂的时计"@[0]);
            assert(false);
        }
        if "赌徒的羽饰"@ == "战狂的骨杯"@ {
            assert("赌徒的羽饰"@[0] == "战狂的骨杯"@[0]);
            assert(false);
        }
        if "赌徒的羽饰"@ == "战狂的鬼面"@ {
            assert("赌徒的羽饰"@[0] == "战狂的鬼面"@[0]);
            assert(false);
        }
        if "赌徒的羽饰"@ == "勇士的勋章"@ {
            assert("赌徒的羽饰"@[0] == "勇士的勋章"@[0]);
            assert(false);
        }
        if "赌徒的羽饰"@ == "勇士的期许"@ {
            assert("赌徒的羽饰"@[0] == "勇士的期许"@[0]);
            assert(false);
        }
        if "赌徒的羽饰"@ == "勇士的坚毅"@ {
            assert("赌徒的羽饰"@[0] == "勇士的坚毅"@[0]);
            assert(false);
        }
        if "赌徒的羽饰"@ == "勇士的壮行"@ {
            assert("赌徒的羽饰"@[0] == "勇士的壮行"@[0]);
            assert(false);
        }
        if "赌徒的羽饰"@ == "勇士的冠冕"@ {
            assert("赌徒的羽饰"@[0] == "勇士的冠冕"@[0]);
            assert(false);
        }
        if "赌徒的羽饰"@ == "流放者之花"@ {
            assert("赌徒的羽饰"@[0] == "流放者之花"@[0]);
            assert(false);
        }
        if "赌徒的羽饰"@ == "流放者之羽"@ {
            assert("赌徒的羽饰"@[0] == "流放者之羽"@[0]);
            assert(false);
        }
        if "赌徒的羽饰"@ == "流放者怀表"@ {
            assert("赌徒的羽饰"@[0] == "流放者怀表"@[0]);
            assert(false);
        }
        if "赌徒的羽饰"@ == "流放者之杯"@ {
            assert("赌徒的羽饰"@[0] == "流放者之杯"@[0]);
            assert(false);
        }
        if "赌徒的羽饰"@ == "流放者头冠"@ {
            assert("赌徒的羽饰"@[0] == "流放者头冠"@[0]);
            assert(false);
        }
        if "赌徒的羽饰"@ == "赌徒的胸花"@ {
            assert("赌徒的羽饰"@[3] == "赌徒的胸花"@[3]);
            assert(false);
        }
        assert(name_id(corpus_at(93)) == 93);
    } else if i == 94 {
        if "赌徒的怀表"@ == "雷鸟的怜悯"@ {
            assert("赌徒的怀表"@[0] == "雷鸟的怜悯"@[0]);
            assert(false);
        }
        if "赌徒的怀表"@ == "雷灾的孑遗"@ {
            assert("赌徒的怀表"@[0] == "雷灾的孑遗"@[0]);
            assert(false);
        }
        if "赌徒的怀表"@ == "雷霆的时计"@ {
            assert("赌徒的怀表"@[0] == "雷霆的时计"@[0]);
            assert(false);
        }
        if "赌徒的怀表"@ == "降雷的凶兆"@ {
            assert("赌徒的怀表"@[0] == "降雷的凶兆"@[0]);
            assert(false);
        }
        if "赌徒的怀表"@ == "唤雷的头冠"@ {
            assert("赌徒的怀表"@[0] == "唤雷的头冠"@[0]);
            assert(false);
        }
        if "赌徒的怀表"@ == "乐团的晨光"@ {
            assert("赌徒的怀表"@[0] == "乐团的晨光"@[0]);
            assert(false);
        }
        if "赌徒的怀表"@ == "琴师的箭羽"@ {
            assert("赌徒的怀表"@[0] == "琴师的箭羽"@[0]);
            assert(false);
        }
        if "赌徒的怀表"@ == "终幕的时计"@ {
            assert("赌徒的怀表"@[0] == "终幕的时计"@[0]);
            assert(false);
        }
        if "赌徒的怀表"@ == "终末的时计"@ {
            assert("赌徒的怀表"@[0] == "终末的时计"@[0]);
            assert(false);
        }
        if "赌徒的怀表"@ == "吟游者之壶"@ {
            assert("赌徒的怀表"@[0] == "吟游者之壶"@[0]);
            assert(false);
        }
        if "赌徒的怀表"@ == "指挥的礼帽"@ {
            assert("赌徒的怀表"@[0] == "指挥的礼帽"@[0]);
            assert(false);
        }
        if "赌徒的怀表"@ == "战狂的蔷薇"@ {
            assert("赌徒的怀表"@[0] == "战狂的蔷薇"@[0]);
            assert(false);
        }
        if "赌徒的怀表"@ == "战狂的翎羽"@ {
            assert("赌徒的怀表"@[0] == "战狂的翎羽"@[0]);
            assert(false);
        }
        if "赌徒的怀表"@ == "战狂的时计"@ {
            assert("赌徒的怀表"@[0] == "战狂的时计"@[0]);
            assert(false);
        }
        if "赌徒的怀表"@ == "战狂的骨杯"@ {
            assert("赌徒的怀表"@[0] == "战狂的骨杯"@[0]);
            assert(false);
        }
        if "赌徒的怀表"@ == "战狂的鬼面"@ {
            assert("赌徒的怀表"@[0] == "战狂的鬼面"@[0]);
            assert(false);
        }
        if "赌徒的怀表"@ == "勇士的勋章"@ {
            assert("赌徒的怀表"@[0] == "勇士的勋章"@[0]);
            assert(false);
        }
        if "赌徒的怀表"@ == "勇士的期许"@ {
            assert("赌徒的怀表"@[0] == "勇士的期许"@[0]);
            assert(false);
        }
        if "赌徒的怀表"@ == "勇士的坚毅"@ {
            assert("赌徒的怀表"@[0] == "勇士的坚毅"@[0]);
            assert(false);
        }
        if "赌徒的怀表"@ == "勇士的壮行"@ {
            assert("赌徒的怀表"@[0] == "勇士的壮行"@[0]);
            assert(false);
        }
        if "赌徒的怀表"@ == "勇士的冠冕"@ {
            assert("赌徒的怀表"@[0] == "勇士的冠冕"@[0]);
            assert(false);
        }
        if "赌徒的怀表"@ == "流放者之花"@ {
            assert("赌徒的怀表"@[0] == "流放者之花"@[0]);
            assert(false);
        }
        if "赌徒的怀表"@ == "流放者之羽"@ {
            assert("赌徒的怀表"@[0] == "流放者之羽"@[0]);
            assert(false);
        }
        if "赌徒的怀表"@ == "流放者怀表"@ {
            assert("赌徒的怀表"@[0] == "流放者怀表"@[0]);
            assert(false);
        }
        if "赌徒的怀表"@ == "流放者之杯"@ {
            assert("赌徒的怀表"@[0] == "流放者之杯"@[0]);
            assert(false);
        }
        if "赌徒的怀表"@ == "流放者头冠"@ {
            assert("赌徒的怀表"@[0] == "流放者头冠"@[0]);
            assert(false);
        }
        if "赌徒的怀表"@ == "赌徒的胸花"@ {
            assert("赌徒的怀表"@[3] == "赌徒的胸花"@[3]);
            assert(false);
        }
        if "赌徒的怀表"@ == "赌徒的羽饰"@ {
            assert("赌徒的怀表"@[3] == "赌徒的羽饰"@[3]);
            assert(false);
        }
        assert(name_id(corpus_at(94)) == 94);
    } else if i == 95 {
        if "赌徒的骰盅"@ == "雷鸟的怜悯"@ {
            assert("赌徒的骰盅"@[0] == "雷鸟的怜悯"@[0]);
            assert(false);
        }
        if "赌徒的骰盅"@ == "雷灾的孑遗"@ {
            assert("赌徒的骰盅"@[0] == "雷灾的孑遗"@[0]);
            assert(false);
        }
        if "赌徒的骰盅"@ == "雷霆的时计"@ {
            assert("赌徒的骰盅"@[0] == "雷霆的时计"@[0]);
            assert(false);
        }
        if "赌徒的骰盅"@ == "降雷的凶兆"@ {
            assert("赌徒的骰盅"@[0] == "降雷的凶兆"@[0]);
            assert(false);
        }
        if "赌徒的骰盅"@ == "唤雷的头冠"@ {
            assert("赌徒的骰盅"@[0] == "唤雷的头冠"@[0]);
            assert(false);
        }
        if "赌徒的骰盅"@ == "乐团的晨光"@ {
            assert("赌徒的骰盅"@[0] == "乐团的晨光"@[0]);
            assert(false);
        }
        if "赌徒的骰盅"@ == "琴师的箭羽"@ {
            assert("赌徒的骰盅"@[0] == "琴师的箭羽"@[0]);
            assert(false);
        }
        if "赌徒的骰盅"@ == "终幕的时计"@ {
            assert("赌徒的骰盅"@[0] == "终幕的时计"@[0]);
            assert(false);
        }
        if "赌徒的骰盅"@ == "终末的时计"@ {
            assert("赌徒的骰盅"@[0] == "终末的时计"@[0]);
            assert(false);
        }
        if "赌徒的骰盅"@ == "吟游者之壶"@ {
            assert("赌徒的骰盅"@[0] == "吟游者之壶"@[0]);
            assert(false);
        }
        if "赌徒的骰盅"@ == "指挥的礼帽"@ {
            assert("赌徒的骰盅"@[0] == "指挥的礼帽"@[0]);
            assert(false);
        }
        if "赌徒的骰盅"@ == "战狂的蔷薇"@ {
            assert("赌徒的骰盅"@[0] == "战狂的蔷薇"@[0]);
            assert(false);
        }
        if "赌徒的骰盅"@ == "战狂的翎羽"@ {
            assert("赌徒的骰盅"@[0] == "战狂的翎羽"@[0]);
            assert(false);
        }
        if "赌徒的骰盅"@ == "战狂的时计"@ {
            assert("赌徒的骰盅"@[0] == "战狂的时计"@[0]);
            assert(false);
        }
        if "赌徒的骰盅"@ == "战狂的骨杯"@ {
            assert("赌徒的骰盅"@[0] == "战狂的骨杯"@[0]);
            assert(false);
        }
        if "赌徒的骰盅"@ == "战狂的鬼面"@ {
            assert("赌徒的骰盅"@[0] == "战狂的鬼面"@[0]);
            assert(false);
        }
        if "赌徒的骰盅"@ == "勇士的勋章"@ {
            assert("赌徒的骰盅"@[0] == "勇士的勋章"@[0]);
            assert(false);
        }
        if "赌徒的骰盅"@ == "勇士的期许"@ {
            assert("赌徒的骰盅"@[0] == "勇士的期许"@[0]);
            assert(false);
        }
        if "赌徒的骰盅"@ == "勇士的坚毅"@ {
            assert("赌徒的骰盅"@[0] == "勇士的坚毅"@[0]);
            assert(false);
        }
        if "赌徒的骰盅"@ == "勇士的壮行"@ {
            assert("赌徒的骰盅"@[0] == "勇士的壮行"@[0]);
            assert(false);
        }
        if "赌徒的骰盅"@ == "勇士的冠冕"@ {
            assert("赌徒的骰盅"@[0] == "勇士的冠冕"@[0]);
            assert(false);
        }
        if "赌徒的骰盅"@ == "流放者之花"@ {
            assert("赌徒的骰盅"@[0] == "流放者之花"@[0]);
            assert(false);
        }
        if "赌徒的骰盅"@ == "流放者之羽"@ {
            assert("赌徒的骰盅"@[0] == "流放者之羽"@[0]);
            assert(false);
        }
        if "赌徒的骰盅"@ == "流放者怀表"@ {
            assert("赌徒的骰盅"@[0] == "流放者怀表"@[0]);
            assert(false);
        }
        if "赌徒的骰盅"@ == "流放者之杯"@ {
            assert("赌徒的骰盅"@[0] == "流放者之杯"@[0]);
            assert(false);
        }
        if "赌徒的骰盅"@ == "流放者头冠"@ {
            assert("赌徒的骰盅"@[0] == "流放者头冠"@[0]);
            assert(false);
        }
        if "赌徒的骰盅"@ == "赌徒的胸花"@ {
            assert("赌徒的骰盅"@[3] == "赌徒的胸花"@[3]);
            assert(false);
        }
        if "赌徒的骰盅"@ == "赌徒的羽饰"@ {
            assert("赌徒的骰盅"@[3] == "赌徒的羽饰"@[3]);
            assert(false);
        }
        if "赌徒的骰盅"@ == "赌徒的怀表"@ {
            assert("赌徒的骰盅"@[3] == "赌徒的怀表"@[3]);
            assert(false);
        }
        assert(name_id(corpus_at(95)) == 95);
    } else if i == 96 {
        if "赌徒的耳环"@ == "雷鸟的怜悯"@ {
            assert("赌徒的耳环"@[0] == "雷鸟的怜悯"@[0]);
            assert(false);
        }
        if "赌徒的耳环"@ == "雷灾的孑遗"@ {
            assert("赌徒的耳环"@[0] == "雷灾的孑遗"@[0]);
            assert(false);
        }
        if "赌徒的耳环"@ == "雷霆的时计"@ {
            assert("赌徒的耳环"@[0] == "雷霆的时计"@[0]);
            assert(false);
        }
        if "赌徒的耳环"@ == "降雷的凶兆"@ {
            assert("赌徒的耳环"@[0] == "降雷的凶兆"@[0]);
            assert(false);
        }
        if "赌徒的耳环"@ == "唤雷的头冠"@ {
            assert("赌徒的耳环"@[0] == "唤雷的头冠"@[0]);
            assert(false);
        }
        if "赌徒的耳环"@ == "乐团的晨光"@ {
            assert("赌徒的耳环"@[0] == "乐团的晨光"@[0]);
            assert(false);
        }
        if "赌徒的耳环"@ == "琴师的箭羽"@ {
            assert("赌徒的耳环"@[0] == "琴师的箭羽"@[0]);
            assert(false);
        }
        if "赌徒的耳环"@ == "终幕的时计"@ {
            assert("赌徒的耳环"@[0] == "终幕的时计"@[0]);
            assert(false);
        }
        if "赌徒的耳环"@ == "终末的时计"@ {
            assert("赌徒的耳环"@[0] == "终末的时计"@[0]);
            assert(false);
        }
        if "赌徒的耳环"@ == "吟游者之壶"@ {
            assert("赌徒的耳环"@[0] == "吟游者之壶"@[0]);
            assert(false);
        }
        if "赌徒的耳环"@ == "指挥的礼帽"@ {
            assert("赌徒的耳环"@[0] == "指挥的礼帽"@[0]);
            assert(false);
        }
        if "赌徒的耳环"@ == "战狂的蔷薇"@ {
            assert("赌徒的耳环"@[0] == "战狂的蔷薇"@[0]);
            assert(false);
        }
        if "赌徒的耳环"@ == "战狂的翎羽"@ {
            assert("赌徒的耳环"@[0] == "战狂的翎羽"@[0]);
            assert(false);
        }
        if "赌徒的耳环"@ == "战狂的时计"@ {
            assert("赌徒的耳环"@[0] == "战狂的时计"@[0]);
            assert(false);
        }
        if "赌徒的耳环"@ == "战狂的骨杯"@ {
            assert("赌徒的耳环"@[0] == "战狂的骨杯"@[0]);
            assert(false);
        }
        if "赌徒的耳环"@ == "战狂的鬼面"@ {
            assert("赌徒的耳环"@[0] == "战狂的鬼面"@[0]);
            assert(false);
        }
        if "赌徒的耳环"@ == "勇士的勋章"@ {
            assert("赌徒的耳环"@[0] == "勇士的勋章"@[0]);
            assert(false);
        }
        if "赌徒的耳环"@ == "勇士的期许"@ {
            assert("赌徒的耳环"@[0] == "勇士的期许"@[0]);
            assert(false);
        }
        if "赌徒的耳环"@ == "勇士的坚毅"@ {
            assert("赌徒的耳环"@[0] == "勇士的坚毅"@[0]);
            assert(false);
        }
        if "赌徒的耳环"@ == "勇士的壮行"@ {
            assert("赌徒的耳环"@[0] == "勇士的壮行"@[0]);
            assert(false);
        }
        if "赌徒的耳环"@ == "勇士的冠冕"@ {
            assert("赌徒的耳环"@[0] == "勇士的冠冕"@[0]);
            assert(false);
        }
        if "赌徒的耳环"@ == "流放者之花"@ {
            assert("赌徒的耳环"@[0] == "流放者之花"@[0]);
            assert(false);
        }
        if "赌徒的耳环"@ == "流放者之羽"@ {
            assert("赌徒的耳环"@[0] == "流放者之羽"@[0]);
            assert(false);
        }
        if "赌徒的耳环"@ == "流放者怀表"@ {
            assert("赌徒的耳环"@[0] == "流放者怀表"@[0]);
            assert(false);
        }
        if "赌徒的耳环"@ == "流放者之杯"@ {
            assert("赌徒的耳环"@[0] == "流放者之杯"@[0]);
            assert(false);
        }
        if "赌徒的耳环"@ == "流放者头冠"@ {
            assert("赌徒的耳环"@[0] == "流放者头冠"@[0]);
            assert(false);
        }
        if "赌徒的耳环"@ == "赌徒的胸花"@ {
            assert("赌徒的耳环"@[3] == "赌徒的胸花"@[3]);
            assert(false);
        }
        if "赌徒的耳环"@ == "赌徒的羽饰"@ {
            assert("赌徒的耳环"@[3] == "赌徒的羽饰"@[3]);
            assert(false);
        }
        if "赌徒的耳环"@ == "赌徒的怀表"@ {
            assert("赌徒的耳环"@[3] == "赌徒的怀表"@[3]);
            assert(false);
        }
        if "赌徒的耳环"@ == "赌徒的骰盅"@ {
            assert("赌徒的耳环"@[3] == "赌徒的骰盅"@[3]);
            assert(false);
        }
        assert(name_id(corpus_at(96)) == 96);
    } else if i == 97 {
        if "教官的胸花"@ == "雷鸟的怜悯"@ {
            assert("教官的胸花"@[0] == "雷鸟的怜悯"@[0]);
            assert(false);
        }
        if "教官的胸花"@ == "雷灾的孑遗"@ {
            assert("教官的胸花"@[0] == "雷灾的孑遗"@[0]);
            assert(false);
        }
        if "教官的胸花"@ == "雷霆的时计"@ {
            assert("教官的胸花"@[0] == "雷霆的时计"@[0]);
            assert(false);
        }
        if "教官的胸花"@ == "降雷的凶兆"@ {
            assert("教官的胸花"@[0] == "降雷的凶兆"@[0]);
            assert(false);
        }
        if "教官的胸花"@ == "唤雷的头冠"@ {
            assert("教官的胸花"@[0] == "唤雷的头冠"@[0]);
            assert(false);
        }
        if "教官的胸花"@ == "乐团的晨光"@ {
            assert("教官的胸花"@[0] == "乐团的晨光"@[0]);
            assert(false);
        }
        if "教官的胸花"@ == "琴师的箭羽"@ {
            assert("教官的胸花"@[0] == "琴师的箭羽"@[0]);
            assert(false);
        }
        if "教官的胸花"@ == "终幕的时计"@ {
            assert("教官的胸花"@[0] == "终幕的时计"@[0]);
            assert(false);
        }
        if "教官的胸花"@ == "终末的时计"@ {
            assert("教官的胸花"@[0] == "终末的时计"@[0]);
            assert(false);
        }
        if "教官的胸花"@ == "吟游者之壶"@ {
            assert("教官的胸花"@[0] == "吟游者之壶"@[0]);
            assert(false);
        }
        if "教官的胸花"@ == "指挥的礼帽"@ {
            assert("教官的胸花"@[0] == "指挥的礼帽"@[0]);
            assert(false);
        }
        if "教官的胸花"@ == "战狂的蔷薇"@ {
            assert("教官的胸花"@[0] == "战狂的蔷薇"@[0]);
            assert(false);
        }
        if "教官的胸花"@ == "战狂的翎羽"@ {
            assert("教官的胸花"@[0] == "战狂的翎羽"@[0]);
            assert(false);
        }
        if "教官的胸花"@ == "战狂的时计"@ {
            assert("教官的胸花"@[0] == "战狂的时计"@[0]);
            assert(false);
        }
        if "教官的胸花"@ == "战狂的骨杯"@ {
            assert("教官的胸花"@[0] == "战狂的骨杯"@[0]);
            assert(false);
        }
        if "教官的胸花"@ == "战狂的鬼面"@ {
            assert("教官的胸花"@[0] == "战狂的鬼面"@[0]);
            assert(false);
        }
        if "教官的胸花"@ == "勇士的勋章"@ {
            assert("教官的胸花"@[0] == "勇士的勋章"@[0]);
            assert(false);
        }
        if "教官的胸花"@ == "勇士的期许"@ {
            assert("教官的胸花"@[0] == "勇士的期许"@[0]);
            assert(false);
        }
        if "教官的胸花"@ == "勇士的坚毅"@ {
            assert("教官的胸花"@[0] == "勇士的坚毅"@[0]);
            assert(false);
        }
        if "教官的胸花"@ == "勇士的壮行"@ {
            assert("教官的胸花"@[0] == "勇士的壮行"@[0]);
            assert(false);
        }
        if "教官的胸花"@ == "勇士的冠冕"@ {
            assert("教官的胸花"@[0] == "勇士的冠冕"@[0]);
            assert(false);
        }
        if "教官的胸花"@ == "流放者之花"@ {
            assert("教官的胸花"@[0] == "流放者之花"@[0]);
            assert(false);
        }
        if "教官的胸花"@ == "流放者之羽"@ {
            assert("教官的胸花"@[0] == "流放者之羽"@[0]);
            assert(false);
        }
        if "教官的胸花"@ == "流放者怀表"@ {
            assert("教官的胸花"@[0] == "流放者怀表"@[0]);
            assert(false);
        }
        if "教官的胸花"@ == "流放者之杯"@ {
            assert("教官的胸花"@[0] == "流放者之杯"@[0]);
            assert(false);
        }
        if "教官的胸花"@ == "流放者头冠"@ {
            assert("教官的胸花"@[0] == "流放者头冠"@[0]);
            assert(false);
        }
        if "教官的胸花"@ == "赌徒的胸花"@ {
            assert("教官的胸花"@[0] == "赌徒的胸花"@[0]);
            assert(false);
        }
        if "教官的胸花"@ == "赌徒的羽饰"@ {
            assert("教官的胸花"@[0] == "赌徒的羽饰"@[0]);
            assert(false);
        }
        if "教官的胸花"@ == "赌徒的怀表"@ {
            assert("教官的胸花"@[0] == "赌徒的怀表"@[0]);
            assert(false);
        }
        if "教官的胸花"@ == "赌徒的骰盅"@ {
            assert("教官的胸花"@[0] == "赌徒的骰盅"@[0]);
            assert(false);
        }
        if "教官的胸花"@ == "赌徒的耳环"@ {
            assert("教官的胸花"@[0] == "赌徒的耳环"@[0]);
            assert(false);
        }
        assert(name_id(corpus_at(97)) == 97);
    } else if i == 98 {
        if "教官的羽饰"@ == "雷鸟的怜悯"@ {
            assert("教官的羽饰"@[0] == "雷鸟的怜悯"@[0]);
            assert(false);
        }
        if "教官的羽饰"@ == "雷灾的孑遗"@ {
            assert("教官的羽饰"@[0] == "雷灾的孑遗"@[0]);
            assert(false);
        }
        if "教官的羽饰"@ == "雷霆的时计"@ {
            assert("教官的羽饰"@[0] == "雷霆的时计"@[0]);
            assert(false);
        }
        if "教官的羽饰"@ == "降雷的凶兆"@ {
            assert("教官的羽饰"@[0] == "降雷的凶兆"@[0]);
            assert(false);
        }
        if "教官的羽饰"@ == "唤雷的头冠"@ {
            assert("教官的羽饰"@[0] == "唤雷的头冠"@[0]);
            assert(false);
        }
        if "教官的羽饰"@ == "乐团的晨光"@ {
            assert("教官的羽饰"@[0] == "乐团的晨光"@[0]);
            assert(false);
        }
        if "教官的羽饰"@ == "琴师的箭羽"@ {
            assert("教官的羽饰"@[0] == "琴师的箭羽"@[0]);
            assert(false);
        }
        if "教官的羽饰"@ == "终幕的时计"@ {
            assert("教官的羽饰"@[0] == "终幕的时计"@[0]);
            assert(false);
        }
        if "教官的羽饰"@ == "终末的时计"@ {
            assert("教官的羽饰"@[0] == "终末的时计"@[0]);
            assert(false);
        }
        if "教官的羽饰"@ == "吟游者之壶"@ {
            assert("教官的羽饰"@[0] == "吟游者之壶"@[0]);
            assert(false);
        }
        if "教官的羽饰"@ == "指挥的礼帽"@ {
            assert("教官的羽饰"@[0] == "指挥的礼帽"@[0]);
            assert(false);
        }
        if "教官的羽饰"@ == "战狂的蔷薇"@ {
            assert("教官的羽饰"@[0] == "战狂的蔷薇"@[0]);
            assert(false);
        }
        if "教官的羽饰"@ == "战狂的翎羽"@ {
            assert("教官的羽饰"@[0] == "战狂的翎羽"@[0]);
            assert(false);
        }
        if "教官的羽饰"@ == "战狂的时计"@ {
            assert("教官的羽饰"@[0] == "战狂的时计"@[0]);
            assert(false);
        }
        if "教官的羽饰"@ == "战狂的骨杯"@ {
            assert("教官的羽饰"@[0] == "战狂的骨杯"@[0]);
            assert(false);
        }
        if "教官的羽饰"@ == "战狂的鬼面"@ {
            assert("教官的羽饰"@[0] == "战狂的鬼面"@[0]);
            assert(false);
        }
        if "教官的羽饰"@ == "勇士的勋章"@ {
            assert("教官的羽饰"@[0] == "勇士的勋章"@[0]);
            assert(false);
        }
        if "教官的羽饰"@ == "勇士的期许"@ {
            assert("教官的羽饰"@[0] == "勇士的期许"@[0]);
            assert(false);
        }
        if "教官的羽饰"@ == "勇士的坚毅"@ {
            assert("教官的羽饰"@[0] == "勇士的坚毅"@[0]);
            assert(false);
        }
        if "教官的羽饰"@ == "勇士的壮行"@ {
            assert("教官的羽饰"@[0] == "勇士的壮行"@[0]);
            assert(false);
        }
        if "教官的羽饰"@ == "勇士的冠冕"@ {
            assert("教官的羽饰"@[0] == "勇士的冠冕"@[0]);
            assert(false);
        }
        if "教官的羽饰"@ == "流放者之花"@ {
            assert("教官的羽饰"@[0] == "流放者之花"@[0]);
            assert(false);
        }
        if "教官的羽饰"@ == "流放者之羽"@ {
            assert("教官的羽饰"@[0] == "流放者之羽"@[0]);
            assert(false);
        }
        if "教官的羽饰"@ == "流放者怀表"@ {
            assert("教官的羽饰"@[0] == "流放者怀表"@[0]);
            assert(false);
        }
        if "教官的羽饰"@ == "流放者之杯"@ {
            assert("教官的羽饰"@[0] == "流放者之杯"@[0]);
            assert(false);
        }
        if "教官的羽饰"@ == "流放者头冠"@ {
            assert("教官的羽饰"@[0] == "流放者头冠"@[0]);
            assert(false);
        }
        if "教官的羽饰"@ == "赌徒的胸花"@ {
            assert("教官的羽饰"@[0] == "赌徒的胸花"@[0]);
            assert(false);
        }
        if "教官的羽饰"@ == "赌徒的羽饰"@ {
            assert("教官的羽饰"@[0] == "赌徒的羽饰"@[0]);
            assert(false);
        }
        if "教官的羽饰"@ == "赌徒的怀表"@ {
            assert("教官的羽饰"@[0] == "赌徒的怀表"@[0]);
            assert(false);
        }
        if "教官的羽饰"@ == "赌徒的骰盅"@ {
            assert("教官的羽饰"@[0] == "赌徒的骰盅"@[0]);
            assert(false);
        }
        if "教官的羽饰"@ == "赌徒的耳环"@ {
            assert("教官的羽饰"@[0] == "赌徒的耳环"@[0]);
            assert(false);
        }
        if "教官的羽饰"@ == "教官的胸花"@ {
            assert("教官的羽饰"@[3] == "教官的胸花"@[3]);
            assert(false);
        }
        assert(name_id(corpus_at(98)) == 98);
    } else if i == 99 {
        if "教官的怀表"@ == "雷鸟的怜悯"@ {
            assert("教官的怀表"@[0] == "雷鸟的怜悯"@[0]);
            assert(false);
        }
        if "教官的怀表"@ == "雷灾的孑遗"@ {
            assert("教官的怀表"@[0] == "雷灾的孑遗"@[0]);
            assert(false);
        }
        if "教官的怀表"@ == "雷霆的时计"@ {
            assert("教官的怀表"@[0] == "雷霆的时计"@[0]);
            assert(false);
        }
        if "教官的怀表"@ == "降雷的凶兆"@ {
            assert("教官的怀表"@[0] == "降雷的凶兆"@[0]);
            assert(false);
        }
        if "教官的怀表"@ == "唤雷的头冠"@ {
            assert("教官的怀表"@[0] == "唤雷的头冠"@[0]);
            assert(false);
        }
        if "教官的怀表"@ == "乐团的晨光"@ {
            assert("教官的怀表"@[0] == "乐团的晨光"@[0]);
            assert(false);
        }
        if "教官的怀表"@ == "琴师的箭羽"@ {
            assert("教官的怀表"@[0] == "琴师的箭羽"@[0]);
            assert(false);
        }
        if "教官的怀表"@ == "终幕的时计"@ {
            assert("教官的怀表"@[0] == "终幕的时计"@[0]);
            assert(false);
        }
        if "教官的怀表"@ == "终末的时计"@ {
            assert("教官的怀表"@[0] == "终末的时计"@[0]);
            assert(false);
        }
        if "教官的怀表"@ == "吟游者之壶"@ {
            assert("教官的怀表"@[0] == "吟游者之壶"@[0]);
            assert(false);
        }
        if "教官的怀表"@ == "指挥的礼帽"@ {
            assert("教官的怀表"@[0] == "指挥的礼帽"@[0]);
            assert(false);
        }
        if "教官的怀表"@ == "战狂的蔷薇"@ {
            assert("教官的怀表"@[0] == "战狂的蔷薇"@[0]);
            assert(false);
        }
        if "教官的怀表"@ == "战狂的翎羽"@ {
            assert("教官的怀表"@[0] == "战狂的翎羽"@[0]);
            assert(false);
        }
        if "教官的怀表"@ == "战狂的时计"@ {
            assert("教官的怀表"@[0] == "战狂的时计"@[0]);
            assert(false);
        }
        if "教官的怀表"@ == "战狂的骨杯"@ {
            assert("教官的怀表"@[0] == "战狂的骨杯"@[0]);
            assert(false);
        }
        if "教官的怀表"@ == "战狂的鬼面"@ {
            assert("教官的怀表"@[0] == "战狂的鬼面"@[0]);
            assert(false);
        }
        if "教官的怀表"@ == "勇士的勋章"@ {
            assert("教官的怀表"@[0] == "勇士的勋章"@[0]);
            assert(false);
        }
        if "教官的怀表"@ == "勇士的期许"@ {
            assert("教官的怀表"@[0] == "勇士的期许"@[0]);
            assert(false);
        }
        if "教官的怀表"@ == "勇士的坚毅"@ {
            assert("教官的怀表"@[0] == "勇士的坚毅"@[0]);
            assert(false);
        }
        if "教官的怀表"@ == "勇士的壮行"@ {
            assert("教官的怀表"@[0] == "勇士的壮行"@[0]);
            assert(false);
        }
        if "教官的怀表"@ == "勇士的冠冕"@ {
            assert("教官的怀表"@[0] == "勇士的冠冕"@[0]);
            assert(false);
        }
        if "教官的怀表"@ == "流放者之花"@ {
            assert("教官的怀表"@[0] == "流放者之花"@[0]);
            assert(false);
        }
        if "教官的怀表"@ == "流放者之羽"@ {
            assert("教官的怀表"@[0] == "流放者之羽"@[0]);
            assert(false);
        }
        if "教官的怀表"@ == "流放者怀表"@ {
            assert("教官的怀表"@[0] == "流放者怀表"@[0]);
            assert(false);
        }
        if "教官的怀表"@ == "流放者之杯"@ {
            assert("教官的怀表"@[0] == "流放者之杯"@[0]);
            assert(false);
        }
        if "教官的怀表"@ == "流放者头冠"@ {
            assert("教官的怀表"@[0] == "流放者头冠"@[0]);
            assert(false);
        }
        if "教官的怀表"@ == "赌徒的胸花"@ {
            assert("教官的怀表"@[0] == "赌徒的胸花"@[0]);
            assert(false);
        }
        if "教官的怀表"@ == "赌徒的羽饰"@ {
            assert("教官的怀表"@[0] == "赌徒的羽饰"@[0]);
            assert(false);
        }
        if "教官的怀表"@ == "赌徒的怀表"@ {
            assert("教官的怀表"@[0] == "赌徒的怀表"@[0]);
            assert(false);
        }
        if "教官的怀表"@ == "赌徒的骰盅"@ {
            assert("教官的怀表"@[0] == "赌徒的骰盅"@[0]);
            assert(false);
        }
        if "教官的怀表"@ == "赌徒的耳环"@ {
            assert("教官的怀表"@[0] == "赌徒的耳环"@[0]);
            assert(false);
        }
        if "教官的怀表"@ == "教官的胸花"@ {
            assert("教官的怀表"@[3] == "教官的胸花"@[3]);
            assert(false);
        }
        if "教官的怀表"@ == "教官的羽饰"@ {
            assert("教官的怀表"@[3] == "教官的羽饰"@[3]);
            assert(false);
        }
        assert(name_id(corpus_at(99)) == 99);
    }
}

proof fn corpus_entry_chunk10(i: int)
    requires
        100 <= i < 110,
    ensures
        name_id(corpus_at(i)) == i,
{
    reveal_strlit("饰金胸花");
    reveal_strlit("追忆之风");
    reveal_strlit("坚铜罗盘");
    reveal_strlit("沉波之盏");
    reveal_strlit("酒渍船帽");
    reveal_strlit("宗室之花");
    reveal_strlit("宗室之翎");
    reveal_strlit("宗室时计");
    reveal_strlit("宗室银瓮");
    reveal_strlit("宗室面具");
    reveal_strlit("夏祭之花");
    reveal_strlit("夏祭终末");
    reveal_strlit("夏祭之刻");
    reveal_strlit("夏祭水玉");
    reveal_strlit("夏祭之面");
    reveal_strlit("平雷之心");
    reveal_strlit("平雷之羽");
    reveal_strlit("平雷之刻");
    reveal_strlit("平雷之器");
    reveal_strlit("平雷之冠");
    reveal_strlit("雷鸟的怜悯");
    reveal_strlit("雷灾的孑遗");
    reveal_strlit("雷霆的时计");
    reveal_strlit("降雷的凶兆");
    reveal_strlit("唤雷的头冠");
    reveal_strlit("乐团的晨光");
    reveal_strlit("琴师的箭羽");
    reveal_strlit("终幕的时计");
    reveal_strlit("终末的时计");
    reveal_strlit("吟游者之壶");
    reveal_strlit("指挥的礼帽");
    reveal_strlit("战狂的蔷薇");
    reveal_strlit("战狂的翎羽");
    reveal_strlit("战狂的时计");
    reveal_strlit("战狂的骨杯");
    reveal_strlit("战狂的鬼面");
    reveal_strlit("勇士的勋章");
    reveal_strlit("勇士的期许");
    reveal_strlit("勇士的坚毅");
    reveal_strlit("勇士的壮行");
    reveal_strlit("勇士的冠冕");
    reveal_strlit("守护之花");
    reveal_strlit("守护徽印");
    reveal_strlit("守护座钟");
    reveal_strlit("守护之皿");
    reveal_strlit("守护束带");
    reveal_strlit("流放者之花");
    reveal_strlit("流放者之羽");
    reveal_strlit("流放者怀表");
    reveal_strlit("流放者之杯");
    reveal_strlit("流放者头冠");
    reveal_strlit("赌徒的胸花");
    reveal_strlit("赌徒的羽饰");
    reveal_strlit("赌徒的怀表");
    reveal_strlit("赌徒的骰盅");
    reveal_strlit("赌徒的耳环");
    reveal_strlit("教官的胸花");
    reveal_strlit("教官的羽饰");
    reveal_strlit("教官的怀表");
    reveal_strlit("教官的茶杯");
    reveal_strlit("教官的帽子");
    reveal_strlit("武人的红花");
    reveal_strlit("武人的羽饰");
    reveal_strlit("武人的水漏");
    reveal_strlit("武人的酒杯");
    reveal_strlit("武人的头巾");
    reveal_strlit("祭水礼冠");
    reveal_strlit("祭火礼冠");
    reveal_strlit("祭雷礼冠");
    if i == 100 {
        if "教官的茶杯"@ == "雷鸟的怜悯"@ {
            assert("教官的茶杯"@[0] == "雷鸟的怜悯"@[0]);
            assert(false);
        }
        if "教官的茶杯"@ == "雷灾的孑遗"@ {
            assert("教官的茶杯"@[0] == "雷灾的孑遗"@[0]);
            assert(false);
        }
        if "教官的茶杯"@ == "雷霆的时计"@ {
            assert("教官的茶杯"@[0] == "雷霆的时计"@[0]);
            assert(false);
        }
        if "教官的茶杯"@ == "降雷的凶兆"@ {
            assert("教官的茶杯"@[0] == "降雷的凶兆"@[0]);
            assert(false);
        }
        if "教官的茶杯"@ == "唤雷的头冠"@ {
            assert("教官的茶杯"@[0] == "唤雷的头冠"@[0]);
            assert(false);
        }
        if "教官的茶杯"@ == "乐团的晨光"@ {
            assert("教官的茶杯"@[0] == "乐团的晨光"@[0]);
            assert(false);
        }
        if "教官的茶杯"@ == "琴师的箭羽"@ {
            assert("教官的茶杯"@[0] == "琴师的箭羽"@[0]);
            assert(false);
        }
        if "教官的茶杯"@ == "终幕的时计"@ {
            assert("教官的茶杯"@[0] == "终幕的时计"@[0]);
            assert(false);
        }
        if "教官的茶杯"@ == "终末的时计"@ {
            assert("教官的茶杯"@[0] == "终末的时计"@[0]);
            assert(false);
        }
        if "教官的茶杯"@ == "吟游者之壶"@ {
            assert("教官的茶杯"@[0] == "吟游者之壶"@[0]);
            assert(false);
        }
        if "教官的茶杯"@ == "指挥的礼帽"@ {
            assert("教官的茶杯"@[0] == "指挥的礼帽"@[0]);
            assert(false);
        }
        if "教官的茶杯"@ == "战狂的蔷薇"@ {
            assert("教官的茶杯"@[0] == "战狂的蔷薇"@[0]);
            assert(false);
        }
        if "教官的茶杯"@ == "战狂的翎羽"@ {
            assert("教官的茶杯"@[0] == "战狂的翎羽"@[0]);
            assert(false);
        }
        if "教官的茶杯"@ == "战狂的时计"@ {
            assert("教官的茶杯"@[0] == "战狂的时计"@[0]);
            assert(false);
        }
        if "教官的茶杯"@ == "战狂的骨杯"@ {
            assert("教官的茶杯"@[0] == "战狂的骨杯"@[0]);
            assert(false);
        }
        if "教官的茶杯"@ == "战狂的鬼面"@ {
            assert("教官的茶杯"@[0] == "战狂的鬼面"@[0]);
            assert(false);
        }
        if "教官的茶杯"@ == "勇士的勋章"@ {
            assert("教官的茶杯"@[0] == "勇士的勋章"@[0]);
            assert(false);
        }
        if "教官的茶杯"@ == "勇士的期许"@ {
            assert("教官的茶杯"@[0] == "勇士的期许"@[0]);
            assert(false);
        }
        if "教官的茶杯"@ == "勇士的坚毅"@ {
            assert("教官的茶杯"@[0] == "勇士的坚毅"@[0]);
            assert(false);
        }
        if "教官的茶杯"@ == "勇士的壮行"@ {
            assert("教官的茶杯"@[0] == "勇士的壮行"@[0]);
            assert(false);
        }
        if "教官的茶杯"@ == "勇士的冠冕"@ {
            assert("教官的茶杯"@[0] == "勇士的冠冕"@[0]);
            assert(false);
        }
        if "教官的茶杯"@ == "流放者之花"@ {
            assert("教官的茶杯"@[0] == "流放者之花"@[0]);
            assert(false);
        }
        if "教官的茶杯"@ == "流放者之羽"@ {
            assert("教官的茶杯"@[0] == "流放者之羽"@[0]);
            assert(false);
        }
        if "教官的茶杯"@ == "流放者怀表"@ {
            assert("教官的茶杯"@[0] == "流放者怀表"@[0]);
            assert(false);
        }
        if "教官的茶杯"@ == "流放者之杯"@ {
            assert("教官的茶杯"@[0] == "流放者之杯"@[0]);
            assert(false);
        }
        if "教官的茶杯"@ == "流放者头冠"@ {
            assert("教官的茶杯"@[0] == "流放者头冠"@[0]);
            assert(false);
        }
        if "教官的茶杯"@ == "赌徒的胸花"@ {
            assert("教官的茶杯"@[0] == "赌徒的胸花"@[0]);
            assert(false);
        }
        if "教官的茶杯"@ == "赌徒的羽饰"@ {
            assert("教官的茶杯"@[0] == "赌徒的羽饰"@[0]);
            assert(false);
        }
        if "教官的茶杯"@ == "赌徒的怀表"@ {
            assert("教官的茶杯"@[0] == "赌徒的怀表"@[0]);
            assert(false);
        }
        if "教官的茶杯"@ == "赌徒的骰盅"@ {
            assert("教官的茶杯"@[0] == "赌徒的骰盅"@[0]);
            assert(false);
        }
        if "教官的茶杯"@ == "赌徒的耳环"@ {
            assert("教官的茶杯"@[0] == "赌徒的耳环"@[0]);
            assert(false);
        }
        if "教官的茶杯"@ == "教官的胸花"@ {
            assert("教官的茶杯"@[3] == "教官的胸花"@[3]);
            assert(false);
        }
        if "教官的茶杯"@ == "教官的羽饰"@ {
            assert("教官的茶杯"@[3] == "教官的羽饰"@[3]);
            assert(false);
        }
        if "教官的茶杯"@ == "教官的怀表"@ {
            assert("教官的茶杯"@[3] == "教官的怀表"@[3]);
            assert(false);
        }
        assert(name_id(corpus_at(100)) == 100);
    } else if i == 101 {
        if "教官的帽子"@ == "雷鸟的怜悯"@ {
            assert("教官的帽子"@[0] == "雷鸟的怜悯"@[0]);
            assert(false);
        }
        if "教官的帽子"@ == "雷灾的孑遗"@ {
            assert("教官的帽子"@[0] == "雷灾的孑遗"@[0]);
            assert(false);
        }
        if "教官的帽子"@ == "雷霆的时计"@ {
            assert("教官的帽子"@[0] == "雷霆的时计"@[0]);
            assert(false);
        }
        if "教官的帽子"@ == "降雷的凶兆"@ {
            assert("教官的帽子"@[0] == "降雷的凶兆"@[0]);
            assert(false);
        }
        if "教官的帽子"@ == "唤雷的头冠"@ {
            assert("教官的帽子"@[0] == "唤雷的头冠"@[0]);
            assert(false);
        }
        if "教官的帽子"@ == "乐团的晨光"@ {
            assert("教官的帽子"@[0] == "乐团的晨光"@[0]);
            assert(false);
        }
        if "教官的帽子"@ == "琴师的箭羽"@ {
            assert("教官的帽子"@[0] == "琴师的箭羽"@[0]);
            assert(false);
        }
        if "教官的帽子"@ == "终幕的时计"@ {
            assert("教官的帽子"@[0] == "终幕的时计"@[0]);
            assert(false);
        }
        if "教官的帽子"@ == "终末的时计"@ {
            assert("教官的帽子"@[0] == "终末的时计"@[0]);
            assert(false);
        }
        if "教官的帽子"@ == "吟游者之壶"@ {
            assert("教官的帽子"@[0] == "吟游者之壶"@[0]);
            assert(false);
        }
        if "教官的帽子"@ == "指挥的礼帽"@ {
            assert("教官的帽子"@[0] == "指挥的礼帽"@[0]);
            assert(false);
        }
        if "教官的帽子"@ == "战狂的蔷薇"@ {
            assert("教官的帽子"@[0] == "战狂的蔷薇"@[0]);
            assert(false);
        }
        if "教官的帽子"@ == "战狂的翎羽"@ {
            assert("教官的帽子"@[0] == "战狂的翎羽"@[0]);
            assert(false);
        }
        if "教官的帽子"@ == "战狂的时计"@ {
            assert("教官的帽子"@[0] == "战狂的时计"@[0]);
            assert(false);
        }
        if "教官的帽子"@ == "战狂的骨杯"@ {
            assert("教官的帽子"@[0] == "战狂的骨杯"@[0]);
            assert(false);
        }
        if "教官的帽子"@ == "战狂的鬼面"@ {
            assert("教官的帽子"@[0] == "战狂的鬼面"@[0]);
            assert(false);
        }
        if "教官的帽子"@ == "勇士的勋章"@ {
            assert("教官的帽子"@[0] == "勇士的勋章"@[0]);
            assert(false);
        }
        if "教官的帽子"@ == "勇士的期许"@ {
            assert("教官的帽子"@[0] == "勇士的期许"@[0]);
            assert(false);
        }
        if "教官的帽子"@ == "勇士的坚毅"@ {
            assert("教官的帽子"@[0] == "勇士的坚毅"@[0]);
            assert(false);
        }
        if "教官的帽子"@ == "勇士的壮行"@ {
            assert("教官的帽子"@[0] == "勇士的壮行"@[0]);
            assert(false);
        }
        if "教官的帽子"@ == "勇士的冠冕"@ {
            assert("教官的帽子"@[0] == "勇士的冠冕"@[0]);
            assert(false);
        }
        if "教官的帽子"@ == "流放者之花"@ {
            assert("教官的帽子"@[0] == "流放者之花"@[0]);
            assert(false);
        }
        if "教官的帽子"@ == "流放者之羽"@ {
            assert("教官的帽子"@[0] == "流放者之羽"@[0]);
            assert(false);
        }
        if "教官的帽子"@ == "流放者怀表"@ {
            assert("教官的帽子"@[0] == "流放者怀表"@[0]);
            assert(false);
        }
        if "教官的帽子"@ == "流放者之杯"@ {
            assert("教官的帽子"@[0] == "流放者之杯"@[0]);
            assert(false);
        }
        if "教官的帽子"@ == "流放者头冠"@ {
            assert("教官的帽子"@[0] == "流放者头冠"@[0]);
            assert(false);
        }
        if "教官的帽子"@ == "赌徒的胸花"@ {
            assert("教官的帽子"@[0] == "赌徒的胸花"@[0]);
            assert(false);
        }
        if "教官的帽子"@ == "赌徒的羽饰"@ {
            assert("教官的帽子"@[0] == "赌徒的羽饰"@[0]);
            assert(false);
        }
        if "教官的帽子"@ == "赌徒的怀表"@ {
            assert("教官的帽子"@[0] == "赌徒的怀表"@[0]);
            assert(false);
        }
        if "教官的帽子"@ == "赌徒的骰盅"@ {
            assert("教官的帽子"@[0] == "赌徒的骰盅"@[0]);
            assert(false);
        }
        if "教官的帽子"@ == "赌徒的耳环"@ {
            assert("教官的帽子"@[0] == "赌徒的耳环"@[0]);
            assert(false);
        }
        if "教官的帽子"@ == "教官的胸花"@ {
            assert("教官的帽子"@[3] == "教官的胸花"@[3]);
            assert(false);
        }
        if "教官的帽子"@ == "教官的羽饰"@ {
            assert("教官的帽子"@[3] == "教官的羽饰"@[3]);
            assert(false);
        }
        if "教官的帽子"@ == "教官的怀表"@ {
            assert("教官的帽子"@[3] == "教官的怀表"@[3]);
            assert(false);
        }
        if "教官的帽子"@ == "教官的茶杯"@ {
            assert("教官的帽子"@[3] == "教官的茶杯"@[3]);
            assert(false);
        }
        assert(name_id(corpus_at(101)) == 101);
    } else if i == 102 {
        if "武人的红花"@ == "雷鸟的怜悯"@ {
            assert("武人的红花"@[0] == "雷鸟的怜悯"@[0]);
            assert(false);
        }
        if "武人的红花"@ == "雷灾的孑遗"@ {
            assert("武人的红花"@[0] == "雷灾的孑遗"@[0]);
            assert(false);
        }
        if "武人的红花"@ == "雷霆的时计"@ {
            assert("武人的红花"@[0] == "雷霆的时计"@[0]);
            assert(false);
        }
        if "武人的红花"@ == "降雷的凶兆"@ {
            assert("武人的红花"@[0] == "降雷的凶兆"@[0]);
            assert(false);
        }
        if "武人的红花"@ == "唤雷的头冠"@ {
            assert("武人的红花"@[0] == "唤雷的头冠"@[0]);
            assert(false);
        }
        if "武人的红花"@ == "乐团的晨光"@ {
            assert("武人的红花"@[0] == "乐团的晨光"@[0]);
            assert(false);
        }
        if "武人的红花"@ == "琴师的箭羽"@ {
            assert("武人的红花"@[0] == "琴师的箭羽"@[0]);
            assert(false);
        }
        if "武人的红花"@ == "终幕的时计"@ {
            assert("武人的红花"@[0] == "终幕的时计"@[0]);
            assert(false);
        }
        if "武人的红花"@ == "终末的时计"@ {
            assert("武人的红花"@[0] == "终末的时计"@[0]);
            assert(false);
        }
        if "武人的红花"@ == "吟游者之壶"@ {
            assert("武人的红花"@[0] == "吟游者之壶"@[0]);
            assert(false);
        }
        if "武人的红花"@ == "指挥的礼帽"@ {
            assert("武人的红花"@[0] == "指挥的礼帽"@[0]);
            assert(false);
        }
        if "武人的红花"@ == "战狂的蔷薇"@ {
            assert("武人的红花"@[0] == "战狂的蔷薇"@[0]);
            assert(false);
        }
        if "武人的红花"@ == "战狂的翎羽"@ {
            assert("武人的红花"@[0] == "战狂的翎羽"@[0]);
            assert(false);
        }
        if "武人的红花"@ == "战狂的时计"@ {
            assert("武人的红花"@[0] == "战狂的时计"@[0]);
            assert(false);
        }
        if "武人的红花"@ == "战狂的骨杯"@ {
            assert("武人的红花"@[0] == "战狂的骨杯"@[0]);
            assert(false);
        }
        if "武人的红花"@ == "战狂的鬼面"@ {
            assert("武人的红花"@[0] == "战狂的鬼面"@[0]);
            assert(false);
        }
        if "武人的红花"@ == "勇士的勋章"@ {
            assert("武人的红花"@[0] == "勇士的勋章"@[0]);
            assert(false);
        }
        if "武人的红花"@ == "勇士的期许"@ {
            assert("武人的红花"@[0] == "勇士的期许"@[0]);
            assert(false);
        }
        if "武人的红花"@ == "勇士的坚毅"@ {
            assert("武人的红花"@[0] == "勇士的坚毅"@[0]);
            assert(false);
        }
        if "武人的红花"@ == "勇士的壮行"@ {
            assert("武人的红花"@[0] == "勇士的壮行"@[0]);
            assert(false);
        }
        if "武人的红花"@ == "勇士的冠冕"@ {
            assert("武人的红花"@[0] == "勇士的冠冕"@[0]);
            assert(false);
        }
        if "武人的红花"@ == "流放者之花"@ {
            assert("武人的红花"@[0] == "流放者之花"@[0]);
            assert(false);
        }
        if "武人的红花"@ == "流放者之羽"@ {
            assert("武人的红花"@[0] == "流放者之羽"@[0]);
            assert(false);
        }
        if "武人的红花"@ == "流放者怀表"@ {
            assert("武人的红花"@[0] == "流放者怀表"@[0]);
            assert(false);
        }
        if "武人的红花"@ == "流放者之杯"@ {
            assert("武人的红花"@[0] == "流放者之杯"@[0]);
            assert(false);
        }
        if "武人的红花"@ == "流放者头冠"@ {
            assert("武人的红花"@[0] == "流放者头冠"@[0]);
            assert(false);
        }
        if "武人的红花"@ == "赌徒的胸花"@ {
            assert("武人的红花"@[0] == "赌徒的胸花"@[0]);
            assert(false);
        }
        if "武人的红花"@ == "赌徒的羽饰"@ {
            assert("武人的红花"@[0] == "赌徒的羽饰"@[0]);
            assert(false);
        }
        if "武人的红花"@ == "赌徒的怀表"@ {
            assert("武人的红花"@[0] == "赌徒的怀表"@[0]);
            assert(false);
        }
        if "武人的红花"@ == "赌徒的骰盅"@ {
            assert("武人的红花"@[0] == "赌徒的骰盅"@[0]);
            assert(false);
        }
        if "武人的红花"@ == "赌徒的耳环"@ {
            assert("武人的红花"@[0] == "赌徒的耳环"@[0]);
            assert(false);
        }
        if "武人的红花"@ == "教官的胸花"@ {
            assert("武人的红花"@[0] == "教官的胸花"@[0]);
            assert(false);
        }
        if "武人的红花"@ == "教官的羽饰"@ {
            assert("武人的红花"@[0] == "教官的羽饰"@[0]);
            assert(false);
        }
        if "武人的红花"@ == "教官的怀表"@ {
            assert("武人的红花"@[0] == "教官的怀表"@[0]);
            assert(false);
        }
        if "武人的红花"@ == "教官的茶杯"@ {
            assert("武人的红花"@[0] == "教官的茶杯"@[0]);
            assert(false);
        }
        if "武人的红花"@ == "教官的帽子"@ {
            assert("武人的红花"@[0] == "教官的帽子"@[0]);
            assert(false);
        }
        assert(name_id(corpus_at(102)) == 102);
    } else if i == 103 {
        if "武人的羽饰"@ == "雷鸟的怜悯"@ {
            assert("武人的羽饰"@[0] == "雷鸟的怜悯"@[0]);
            assert(false);
        }
        if "武人的羽饰"@ == "雷灾的孑遗"@ {
            assert("武人的羽饰"@[0] == "雷灾的孑遗"@[0]);
            assert(false);
        }
        if "武人的羽饰"@ == "雷霆的时计"@ {
            assert("武人的羽饰"@[0] == "雷霆的时计"@[0]);
            assert(false);
        }
        if "武人的羽饰"@ == "降雷的凶兆"@ {
            assert("武人的羽饰"@[0] == "降雷的凶兆"@[0]);
            assert(false);
        }
        if "武人的羽饰"@ == "唤雷的头冠"@ {
            assert("武人的羽饰"@[0] == "唤雷的头冠"@[0]);
            assert(false);
        }
        if "武人的羽饰"@ == "乐团的晨光"@ {
            assert("武人的羽饰"@[0] == "乐团的晨光"@[0]);
            assert(false);
        }
        if "武人的羽饰"@ == "琴师的箭羽"@ {
            assert("武人的羽饰"@[0] == "琴师的箭羽"@[0]);
            assert(false);
        }
        if "武人的羽饰"@ == "终幕的时计"@ {
            assert("武人的羽饰"@[0] == "终幕的时计"@[0]);
            assert(false);
        }
        if "武人的羽饰"@ == "终末的时计"@ {
            assert("武人的羽饰"@[0] == "终末的时计"@[0]);
            assert(false);
        }
        if "武人的羽饰"@ == "吟游者之壶"@ {
            assert("武人的羽饰"@[0] == "吟游者之壶"@[0]);
            assert(false);
        }
        if "武人的羽饰"@ == "指挥的礼帽"@ {
            assert("武人的羽饰"@[0] == "指挥的礼帽"@[0]);
            assert(false);
        }
        if "武人的羽饰"@ == "战狂的蔷薇"@ {
            assert("武人的羽饰"@[0] == "战狂的蔷薇"@[0]);
            assert(false);
        }
        if "武人的羽饰"@ == "战狂的翎羽"@ {
            assert("武人的羽饰"@[0] == "战狂的翎羽"@[0]);
            assert(false);
        }
        if "武人的羽饰"@ == "战狂的时计"@ {
            assert("武人的羽饰"@[0] == "战狂的时计"@[0]);
            assert(false);
        }
        if "武人的羽饰"@ == "战狂的骨杯"@ {
            assert("武人的羽饰"@[0] == "战狂的骨杯"@[0]);
            assert(false);
        }
        if "武人的羽饰"@ == "战狂的鬼面"@ {
            assert("武人的羽饰"@[0] == "战狂的鬼面"@[0]);
            assert(false);
        }
        if "武人的羽饰"@ == "勇士的勋章"@ {
            assert("武人的羽饰"@[0] == "勇士的勋章"@[0]);
            assert(false);
        }
        if "武人的羽饰"@ == "勇士的期许"@ {
            assert("武人的羽饰"@[0] == "勇士的期许"@[0]);
            assert(false);
        }
        if "武人的羽饰"@ == "勇士的坚毅"@ {
            assert("武人的羽饰"@[0] == "勇士的坚毅"@[0]);
            assert(false);
        }
        if "武人的羽饰"@ == "勇士的壮行"@ {
            assert("武人的羽饰"@[0] == "勇士的壮行"@[0]);
            assert(false);
        }
        if "武人的羽饰"@ == "勇士的冠冕"@ {
            assert("武人的羽饰"@[0] == "勇士的冠冕"@[0]);
            assert(false);
        }
        if "武人的羽饰"@ == "流放者之花"@ {
            assert("武人的羽饰"@[0] == "流放者之花"@[0]);
            assert(false);
        }
        if "武人的羽饰"@ == "流放者之羽"@ {
            assert("武人的羽饰"@[0] == "流放者之羽"@[0]);
            assert(false);
        }
        if "武人的羽饰"@ == "流放者怀表"@ {
            assert("武人的羽饰"@[0] == "流放者怀表"@[0]);
            assert(false);
        }
        if "武人的羽饰"@ == "流放者之杯"@ {
            assert("武人的羽饰"@[0] == "流放者之杯"@[0]);
            assert(false);
        }
        if "武人的羽饰"@ == "流放者头冠"@ {
            assert("武人的羽饰"@[0] == "流放者头冠"@[0]);
            assert(false);
        }
        if "武人的羽饰"@ == "赌徒的胸花"@ {
            assert("武人的羽饰"@[0] == "赌徒的胸花"@[0]);
            assert(false);
        }
        if "武人的羽饰"@ == "赌徒的羽饰"@ {
            assert("武人的羽饰"@[0] == "赌徒的羽饰"@[0]);
            assert(false);
        }
        if "武人的羽饰"@ == "赌徒的怀表"@ {
            assert("武人的羽饰"@[0] == "赌徒的怀表"@[0]);
            assert(false);
        }
        if "武人的羽饰"@ == "赌徒的骰盅"@ {
            assert("武人的羽饰"@[0] == "赌徒的骰盅"@[0]);
            assert(false);
        }
        if "武人的羽饰"@ == "赌徒的耳环"@ {
            assert("武人的羽饰"@[0] == "赌徒的耳环"@[0]);
            assert(false);
        }
        if "武人的羽饰"@ == "教官的胸花"@ {
            assert("武人的羽饰"@[0] == "教官的胸花"@[0]);
            assert(false);
        }
        if "武人的羽饰"@ == "教官的羽饰"@ {
            assert("武人的羽饰"@[0] == "教官的羽饰"@[0]);
            assert(false);
        }
        if "武人的羽饰"@ == "教官的怀表"@ {
            assert("武人的羽饰"@[0] == "教官的怀表"@[0]);
            assert(false);
        }
        if "武人的羽饰"@ == "教官的茶杯"@ {
            assert("武人的羽饰"@[0] == "教官的茶杯"@[0]);
            assert(false);
        }
        if "武人的羽饰"@ == "教官的帽子"@ {
            assert("武人的羽饰"@[0] == "教官的帽子"@[0]);
            assert(false);
        }
        if "武人的羽饰"@ == "武人的红花"@ {
            assert("武人的羽饰"@[3] == "武人的红花"@[3]);
            assert(false);
        }
        assert(name_id(corpus_at(103)) == 103);
    } else if i == 104 {
        if "武人的水漏"@ == "雷鸟的怜悯"@ {
            assert("武人的水漏"@[0] == "雷鸟的怜悯"@[0]);
            assert(false);
        }
        if "武人的水漏"@ == "雷灾的孑遗"@ {
            assert("武人的水漏"@[0] == "雷灾的孑遗"@[0]);
            assert(false);
        }
        if "武人的水漏"@ == "雷霆的时计"@ {
            assert("武人的水漏"@[0] == "雷霆的时计"@[0]);
            assert(false);
        }
        if "武人的水漏"@ == "降雷的凶兆"@ {
            assert("武人的水漏"@[0] == "降雷的凶兆"@[0]);
            assert(false);
        }
        if "武人的水漏"@ == "唤雷的头冠"@ {
            assert("武人的水漏"@[0] == "唤雷的头冠"@[0]);
            assert(false);
        }
        if "武人的水漏"@ == "乐团的晨光"@ {
            assert("武人的水漏"@[0] == "乐团的晨光"@[0]);
            assert(false);
        }
        if "武人的水漏"@ == "琴师的箭羽"@ {
            assert("武人的水漏"@[0] == "琴师的箭羽"@[0]);
            assert(false);
        }
        if "武人的水漏"@ == "终幕的时计"@ {
            assert("武人的水漏"@[0] == "终幕的时计"@[0]);
            assert(false);
        }
        if "武人的水漏"@ == "终末的时计"@ {
            assert("武人的水漏"@[0] == "终末的时计"@[0]);
            assert(false);
        }
        if "武人的水漏"@ == "吟游者之壶"@ {
            assert("武人的水漏"@[0] == "吟游者之壶"@[0]);
            assert(false);
        }
        if "武人的水漏"@ == "指挥的礼帽"@ {
            assert("武人的水漏"@[0] == "指挥的礼帽"@[0]);
            assert(false);
        }
        if "武人的水漏"@ == "战狂的蔷薇"@ {
            assert("武人的水漏"@[0] == "战狂的蔷薇"@[0]);
            assert(false);
        }
        if "武人的水漏"@ == "战狂的翎羽"@ {
            assert("武人的水漏"@[0] == "战狂的翎羽"@[0]);
            assert(false);
        }
        if "武人的水漏"@ == "战狂的时计"@ {
            assert("武人的水漏"@[0] == "战狂的时计"@[0]);
            assert(false);
        }
        if "武人的水漏"@ == "战狂的骨杯"@ {
            assert("武人的水漏"@[0] == "战狂的骨杯"@[0]);
            assert(false);
        }
        if "武人的水漏"@ == "战狂的鬼面"@ {
            assert("武人的水漏"@[0] == "战狂的鬼面"@[0]);
            assert(false);
        }
        if "武人的水漏"@ == "勇士的勋章"@ {
            assert("武人的水漏"@[0] == "勇士的勋章"@[0]);
            assert(false);
        }
        if "武人的水漏"@ == "勇士的期许"@ {
            assert("武人的水漏"@[0] == "勇士的期许"@[0]);
            assert(false);
        }
        if "武人的水漏"@ == "勇士的坚毅"@ {
            assert("武人的水漏"@[0] == "勇士的坚毅"@[0]);
            assert(false);
        }
        if "武人的水漏"@ == "勇士的壮行"@ {
            assert("武人的水漏"@[0] == "勇士的壮行"@[0]);
            assert(false);
        }
        if "武人的水漏"@ == "勇士的冠冕"@ {
            assert("武人的水漏"@[0] == "勇士的冠冕"@[0]);
            assert(false);
        }
        if "武人的水漏"@ == "流放者之花"@ {
            assert("武人的水漏"@[0] == "流放者之花"@[0]);
            assert(false);
        }
        if "武人的水漏"@ == "流放者之羽"@ {
            assert("武人的水漏"@[0] == "流放者之羽"@[0]);
            assert(false);
        }
        if "武人的水漏"@ == "流放者怀表"@ {
            assert("武人的水漏"@[0] == "流放者怀表"@[0]);
            assert(false);
        }
        if "武人的水漏"@ == "流放者之杯"@ {
            assert("武人的水漏"@[0] == "流放者之杯"@[0]);
            assert(false);
        }
        if "武人的水漏"@ == "流放者头冠"@ {
            assert("武人的水漏"@[0] == "流放者头冠"@[0]);
            assert(false);
        }
        if "武人的水漏"@ == "赌徒的胸花"@ {
            assert("武人的水漏"@[0] == "赌徒的胸花"@[0]);
            assert(false);
        }
        if "武人的水漏"@ == "赌徒的羽饰"@ {
            assert("武人的水漏"@[0] == "赌徒的羽饰"@[0]);
            assert(false);
        }
        if "武人的水漏"@ == "赌徒的怀表"@ {
            assert("武人的水漏"@[0] == "赌徒的怀表"@[0]);
            assert(false);
        }
        if "武人的水漏"@ == "赌徒的骰盅"@ {
            assert("武人的水漏"@[0] == "赌徒的骰盅"@[0]);
            assert(false);
        }
        if "武人的水漏"@ == "赌徒的耳环"@ {
            assert("武人的水漏"@[0] == "赌徒的耳环"@[0]);
            assert(false);
        }
        if "武人的水漏"@ == "教官的胸花"@ {
            assert("武人的水漏"@[0] == "教官的胸花"@[0]);
            assert(false);
        }
        if "武人的水漏"@ == "教官的羽饰"@ {
            assert("武人的水漏"@[0] == "教官的羽饰"@[0]);
            assert(false);
        }
        if "武人的水漏"@ == "教官的怀表"@ {
            assert("武人的水漏"@[0] == "教官的怀表"@[0]);
            assert(false);
        }
        if "武人的水漏"@ == "教官的茶杯"@ {
            assert("武人的水漏"@[0] == "教官的茶杯"@[0]);
            assert(false);
        }
        if "武人的水漏"@ == "教官的帽子"@ {
            assert("武人的水漏"@[0] == "教官的帽子"@[0]);
            assert(false);
        }
        if "武人的水漏"@ == "武人的红花"@ {
            assert("武人的水漏"@[3] == "武人的红花"@[3]);
            assert(false);
        }
        if "武人的水漏"@ == "武人的羽饰"@ {
            assert("武人的水漏"@[3] == "武人的羽饰"@[3]);
            assert(false);
        }
        assert(name_id(corpus_at(104)) == 104);
    } else if i == 105 {
        if "武人的酒杯"@ == "雷鸟的怜悯"@ {
            assert("武人的酒杯"@[0] == "雷鸟的怜悯"@[0]);
            assert(false);
        }
        if "武人的酒杯"@ == "雷灾的孑遗"@ {
            assert("武人的酒杯"@[0] == "雷灾的孑遗"@[0]);
            assert(false);
        }
        if "武人的酒杯"@ == "雷霆的时计"@ {
            assert("武人的酒杯"@[0] == "雷霆的时计"@[0]);
            assert(false);
        }
        if "武人的酒杯"@ == "降雷的凶兆"@ {
            assert("武人的酒杯"@[0] == "降雷的凶兆"@[0]);
            assert(false);
        }
        if "武人的酒杯"@ == "唤雷的头冠"@ {
            assert("武人的酒杯"@[0] == "唤雷的头冠"@[0]);
            assert(false);
        }
        if "武人的酒杯"@ == "乐团的晨光"@ {
            assert("武人的酒杯"@[0] == "乐团的晨光"@[0]);
            assert(false);
        }
        if "武人的酒杯"@ == "琴师的箭羽"@ {
            assert("武人的酒杯"@[0] == "琴师的箭羽"@[0]);
            assert(false);
        }
        if "武人的酒杯"@ == "终幕的时计"@ {
            assert("武人的酒杯"@[0] == "终幕的时计"@[0]);
            assert(false);
        }
        if "武人的酒杯"@ == "终末的时计"@ {
            assert("武人的酒杯"@[0] == "终末的时计"@[0]);
            assert(false);
        }
        if "武人的酒杯"@ == "吟游者之壶"@ {
            assert("武人的酒杯"@[0] == "吟游者之壶"@[0]);
            assert(false);
        }
        if "武人的酒杯"@ == "指挥的礼帽"@ {
            assert("武人的酒杯"@[0] == "指挥的礼帽"@[0]);
            assert(false);
        }
        if "武人的酒杯"@ == "战狂的蔷薇"@ {
            assert("武人的酒杯"@[0] == "战狂的蔷薇"@[0]);
            assert(false);
        }
        if "武人的酒杯"@ == "战狂的翎羽"@ {
            assert("武人的酒杯"@[0] == "战狂的翎羽"@[0]);
            assert(false);
        }
        if "武人的酒杯"@ == "战狂的时计"@ {
            assert("武人的酒杯"@[0] == "战狂的时计"@[0]);
            assert(false);
        }
        if "武人的酒杯"@ == "战狂的骨杯"@ {
            assert("武人的酒杯"@[0] == "战狂的骨杯"@[0]);
            assert(false);
        }
        if "武人的酒杯"@ == "战狂的鬼面"@ {
            assert("武人的酒杯"@[0] == "战狂的鬼面"@[0]);
            assert(false);
        }
        if "武人的酒杯"@ == "勇士的勋章"@ {
            assert("武人的酒杯"@[0] == "勇士的勋章"@[0]);
            assert(false);
        }
        if "武人的酒杯"@ == "勇士的期许"@ {
            assert("武人的酒杯"@[0] == "勇士的期许"@[0]);
            assert(false);
        }
        if "武人的酒杯"@ == "勇士的坚毅"@ {
            assert("武人的酒杯"@[0] == "勇士的坚毅"@[0]);
            assert(false);
        }
        if "武人的酒杯"@ == "勇士的壮行"@ {
            assert("武人的酒杯"@[0] == "勇士的壮行"@[0]);
            assert(false);
        }
        if "武人的酒杯"@ == "勇士的冠冕"@ {
            assert("武人的酒杯"@[0] == "勇士的冠冕"@[0]);
            assert(false);
        }
        if "武人的酒杯"@ == "流放者之花"@ {
            assert("武人的酒杯"@[0] == "流放者之花"@[0]);
            assert(false);
        }
        if "武人的酒杯"@ == "流放者之羽"@ {
            assert("武人的酒杯"@[0] == "流放者之羽"@[0]);
            assert(false);
        }
        if "武人的酒杯"@ == "流放者怀表"@ {
            assert("武人的酒杯"@[0] == "流放者怀表"@[0]);
            assert(false);
        }
        if "武人的酒杯"@ == "流放者之杯"@ {
            assert("武人的酒杯"@[0] == "流放者之杯"@[0]);
            assert(false);
        }
        if "武人的酒杯"@ == "流放者头冠"@ {
            assert("武人的酒杯"@[0] == "流放者头冠"@[0]);
            assert(false);
        }
        if "武人的酒杯"@ == "赌徒的胸花"@ {
            assert("武人的酒杯"@[0] == "赌徒的胸花"@[0]);
            assert(false);
        }
        if "武人的酒杯"@ == "赌徒的羽饰"@ {
            assert("武人的酒杯"@[0] == "赌徒的羽饰"@[0]);
            assert(false);
        }
        if "武人的酒杯"@ == "赌徒的怀表"@ {
            assert("武人的酒杯"@[0] == "赌徒的怀表"@[0]);
            assert(false);
        }
        if "武人的酒杯"@ == "赌徒的骰盅"@ {
            assert("武人的酒杯"@[0] == "赌徒的骰盅"@[0]);
            assert(false);
        }
        if "武人的酒杯"@ == "赌徒的耳环"@ {
            assert("武人的酒杯"@[0] == "赌徒的耳环"@[0]);
            assert(false);
        }
        if "武人的酒杯"@ == "教官的胸花"@ {
            assert("武人的酒杯"@[0] == "教官的胸花"@[0]);
            assert(false);
        }
        if "武人的酒杯"@ == "教官的羽饰"@ {
            assert("武人的酒杯"@[0] == "教官的羽饰"@[0]);
            assert(false);
        }
        if "武人的酒杯"@ == "教官的怀表"@ {
            assert("武人的酒杯"@[0] == "教官的怀表"@[0]);
            assert(false);
        }
        if "武人的酒杯"@ == "教官的茶杯"@ {
            assert("武人的酒杯"@[0] == "教官的茶杯"@[0]);
            assert(false);
        }
        if "武人的酒杯"@ == "教官的帽子"@ {
            assert("武人的酒杯"@[0] == "教官的帽子"@[0]);
            assert(false);
        }
        if "武人的酒杯"@ == "武人的红花"@ {
            assert("武人的酒杯"@[3] == "武人的红花"@[3]);
            assert(false);
        }
        if "武人的酒杯"@ == "武人的羽饰"@ {
            assert("武人的酒杯"@[3] == "武人的羽饰"@[3]);
            assert(false);
        }
        if "武人的酒杯"@ == "武人的水漏"@ {
            assert("武人的酒杯"@[3] == "武人的水漏"@[3]);
            assert(false);
        }
        assert(name_id(corpus_at(105)) == 105);
    } else if i == 106 {
        if "武人的头巾"@ == "雷鸟的怜悯"@ {
            assert("武人的头巾"@[0] == "雷鸟的怜悯"@[0]);
            assert(false);
        }
        if "武人的头巾"@ == "雷灾的孑遗"@ {
            assert("武人的头巾"@[0] == "雷灾的孑遗"@[0]);
            assert(false);
        }
        if "武人的头巾"@ == "雷霆的时计"@ {
            assert("武人的头巾"@[0] == "雷霆的时计"@[0]);
            assert(false);
        }
        if "武人的头巾"@ == "降雷的凶兆"@ {
            assert("武人的头巾"@[0] == "降雷的凶兆"@[0]);
            assert(false);
        }
        if "武人的头巾"@ == "唤雷的头冠"@ {
            assert("武人的头巾"@[0] == "唤雷的头冠"@[0]);
            assert(false);
        }
        if "武人的头巾"@ == "乐团的晨光"@ {
            assert("武人的头巾"@[0] == "乐团的晨光"@[0]);
            assert(false);
        }
        if "武人的头巾"@ == "琴师的箭羽"@ {
            assert("武人的头巾"@[0] == "琴师的箭羽"@[0]);
            assert(false);
        }
        if "武人的头巾"@ == "终幕的时计"@ {
            assert("武人的头巾"@[0] == "终幕的时计"@[0]);
            assert(false);
        }
        if "武人的头巾"@ == "终末的时计"@ {
            assert("武人的头巾"@[0] == "终末的时计"@[0]);
            assert(false);
        }
        if "武人的头巾"@ == "吟游者之壶"@ {
            assert("武人的头巾"@[0] == "吟游者之壶"@[0]);
            assert(false);
        }
        if "武人的头巾"@ == "指挥的礼帽"@ {
            assert("武人的头巾"@[0] == "指挥的礼帽"@[0]);
            assert(false);
        }
        if "武人的头巾"@ == "战狂的蔷薇"@ {
            assert("武人的头巾"@[0] == "战狂的蔷薇"@[0]);
            assert(false);
        }
        if "武人的头巾"@ == "战狂的翎羽"@ {
            assert("武人的头巾"@[0] == "战狂的翎羽"@[0]);
            assert(false);
        }
        if "武人的头巾"@ == "战狂的时计"@ {
            assert("武人的头巾"@[0] == "战狂的时计"@[0]);
            assert(false);
        }
        if "武人的头巾"@ == "战狂的骨杯"@ {
            assert("武人的头巾"@[0] == "战狂的骨杯"@[0]);
            assert(false);
        }
        if "武人的头巾"@ == "战狂的鬼面"@ {
            assert("武人的头巾"@[0] == "战狂的鬼面"@[0]);
            assert(false);
        }
        if "武人的头巾"@ == "勇士的勋章"@ {
            assert("武人的头巾"@[0] == "勇士的勋章"@[0]);
            assert(false);
        }
        if "武人的头巾"@ == "勇士的期许"@ {
            assert("武人的头巾"@[0] == "勇士的期许"@[0]);
            assert(false);
        }
        if "武人的头巾"@ == "勇士的坚毅"@ {
            assert("武人的头巾"@[0] == "勇士的坚毅"@[0]);
            assert(false);
        }
        if "武人的头巾"@ == "勇士的壮行"@ {
            assert("武人的头巾"@[0] == "勇士的壮行"@[0]);
            assert(false);
        }
        if "武人的头巾"@ == "勇士的冠冕"@ {
            assert("武人的头巾"@[0] == "勇士的冠冕"@[0]);
            assert(false);
        }
        if "武人的头巾"@ == "流放者之花"@ {
            assert("武人的头巾"@[0] == "流放者之花"@[0]);
            assert(false);
        }
        if "武人的头巾"@ == "流放者之羽"@ {
            assert("武人的头巾"@[0] == "流放者之羽"@[0]);
            assert(false);
        }
        if "武人的头巾"@ == "流放者怀表"@ {
            assert("武人的头巾"@[0] == "流放者怀表"@[0]);
            assert(false);
        }
        if "武人的头巾"@ == "流放者之杯"@ {
            assert("武人的头巾"@[0] == "流放者之杯"@[0]);
            assert(false);
        }
        if "武人的头巾"@ == "流放者头冠"@ {
            assert("武人的头巾"@[0] == "流放者头冠"@[0]);
            assert(false);
        }
        if "武人的头巾"@ == "赌徒的胸花"@ {
            assert("武人的头巾"@[0] == "赌徒的胸花"@[0]);
            assert(false);
        }
        if "武人的头巾"@ == "赌徒的羽饰"@ {
            assert("武人的头巾"@[0] == "赌徒的羽饰"@[0]);
            assert(false);
        }
        if "武人的头巾"@ == "赌徒的怀表"@ {
            assert("武人的头巾"@[0] == "赌徒的怀表"@[0]);
            assert(false);
        }
        if "武人的头巾"@ == "赌徒的骰盅"@ {
            assert("武人的头巾"@[0] == "赌徒的骰盅"@[0]);
            assert(false);
        }
        if "武人的头巾"@ == "赌徒的耳环"@ {
            assert("武人的头巾"@[0] == "赌徒的耳环"@[0]);
            assert(false);
        }
        if "武人的头巾"@ == "教官的胸花"@ {
            assert("武人的头巾"@[0] == "教官的胸花"@[0]);
            assert(false);
        }
        if "武人的头巾"@ == "教官的羽饰"@ {
            assert("武人的头巾"@[0] == "教官的羽饰"@[0]);
            assert(false);
        }
        if "武人的头巾"@ == "教官的怀表"@ {
            assert("武人的头巾"@[0] == "教官的怀表"@[0]);
            assert(false);
        }
        if "武人的头巾"@ == "教官的茶杯"@ {
            assert("武人的头巾"@[0] == "教官的茶杯"@[0]);
            assert(false);
        }
        if "武人的头巾"@ == "教官的帽子"@ {
            assert("武人的头巾"@[0] == "教官的帽子"@[0]);
            assert(false);
        }
        if "武人的头巾"@ == "武人的红花"@ {
            assert("武人的头巾"@[3] == "武人的红花"@[3]);
            assert(false);
        }
        if "武人的头巾"@ == "武人的羽饰"@ {
            assert("武人的头巾"@[3] == "武人的羽饰"@[3]);
            assert(false);
        }
        if "武人的头巾"@ == "武人的水漏"@ {
            assert("武人的头巾"@[3] == "武人的水漏"@[3]);
            assert(false);
        }
        if "武人的头巾"@ == "武人的酒杯"@ {
            assert("武人的头巾"@[3] == "武人的酒杯"@[3]);
            assert(false);
        }
        assert(name_id(corpus_at(106)) == 106);
    } else if i == 107 {
        if "祭水礼冠"@ == "饰金胸花"@ {
            assert("祭水礼冠"@[0] == "饰金胸花"@[0]);
            assert(false);
        }
        if "祭水礼冠"@ == "追忆之风"@ {
            assert("祭水礼冠"@[0] == "追忆之风"@[0]);
            assert(false);
        }
        if "祭水礼冠"@ == "坚铜罗盘"@ {
            assert("祭水礼冠"@[0] == "坚铜罗盘"@[0]);
            assert(false);
        }
        if "祭水礼冠"@ == "沉波之盏"@ {
            assert("祭水礼冠"@[0] == "沉波之盏"@[0]);
            assert(false);
        }
        if "祭水礼冠"@ == "酒渍船帽"@ {
            assert("祭水礼冠"@[0] == "酒渍船帽"@[0]);
            assert(false);
        }
        if "祭水礼冠"@ == "宗室之花"@ {
            assert("祭水礼冠"@[0] == "宗室之花"@[0]);
            assert(false);
        }
        if "祭水礼冠"@ == "宗室之翎"@ {
            assert("祭水礼冠"@[0] == "宗室之翎"@[0]);
            assert(false);
        }
        if "祭水礼冠"@ == "宗室时计"@ {
            assert("祭水礼冠"@[0] == "宗室时计"@[0]);
            assert(false);
        }
        if "祭水礼冠"@ == "宗室银瓮"@ {
            assert("祭水礼冠"@[0] == "宗室银瓮"@[0]);
            assert(false);
        }
        if "祭水礼冠"@ == "宗室面具"@ {
            assert("祭水礼冠"@[0] == "宗室面具"@[0]);
            assert(false);
        }
        if "祭水礼冠"@ == "夏祭之花"@ {
            assert("祭水礼冠"@[0] == "夏祭之花"@[0]);
            assert(false);
        }
        if "祭水礼冠"@ == "夏祭终末"@ {
            assert("祭水礼冠"@[0] == "夏祭终末"@[0]);
            assert(false);
        }
        if "祭水礼冠"@ == "夏祭之刻"@ {
            assert("祭水礼冠"@[0] == "夏祭之刻"@[0]);
            assert(false);
        }
        if "祭水礼冠"@ == "夏祭水玉"@ {
            assert("祭水礼冠"@[0] == "夏祭水玉"@[0]);
            assert(false);
        }
        if "祭水礼冠"@ == "夏祭之面"@ {
            assert("祭水礼冠"@[0] == "夏祭之面"@[0]);
            assert(false);
        }
        if "祭水礼冠"@ == "平雷之心"@ {
            assert("祭水礼冠"@[0] == "平雷之心"@[0]);
            assert(false);
        }
        if "祭水礼冠"@ == "平雷之羽"@ {
            assert("祭水礼冠"@[0] == "平雷之羽"@[0]);
            assert(false);
        }
        if "祭水礼冠"@ == "平雷之刻"@ {
            assert("祭水礼冠"@[0] == "平雷之刻"@[0]);
            assert(false);
        }
        if "祭水礼冠"@ == "平雷之器"@ {
            assert("祭水礼冠"@[0] == "平雷之器"@[0]);
            assert(false);
        }
        if "祭水礼冠"@ == "平雷之冠"@ {
            assert("祭水礼冠"@[0] == "平雷之冠"@[0]);
            assert(false);
        }
        if "祭水礼冠"@ == "守护之花"@ {
            assert("祭水礼冠"@[0] == "守护之花"@[0]);
            assert(false);
        }
        if "祭水礼冠"@ == "守护徽印"@ {
            assert("祭水礼冠"@[0] == "守护徽印"@[0]);
            assert(false);
        }
        if "祭水礼冠"@ == "守护座钟"@ {
            assert("祭水礼冠"@[0] == "守护座钟"@[0]);
            assert(false);
        }
        if "祭水礼冠"@ == "守护之皿"@ {
            assert("祭水礼冠"@[0] == "守护之皿"@[0]);
            assert(false);
        }
        if "祭水礼冠"@ == "守护束带"@ {
            assert("祭水礼冠"@[0] == "守护束带"@[0]);
            assert(false);
        }
        assert(name_id(corpus_at(107)) == 107);
    } else if i == 108 {
        if "祭火礼冠"@ == "饰金胸花"@ {
            assert("祭火礼冠"@[0] == "饰金胸花"@[0]);
            assert(false);
        }
        if "祭火礼冠"@ == "追忆之风"@ {
            assert("祭火礼冠"@[0] == "追忆之风"@[0]);
            assert(false);
        }
        if "祭火礼冠"@ == "坚铜罗盘"@ {
            assert("祭火礼冠"@[0] == "坚铜罗盘"@[0]);
            assert(false);
        }
        if "祭火礼冠"@ == "沉波之盏"@ {
            assert("祭火礼冠"@[0] == "沉波之盏"@[0]);
            assert(false);
        }
        if "祭火礼冠"@ == "酒渍船帽"@ {
            assert("祭火礼冠"@[0] == "酒渍船帽"@[0]);
            assert(false);
        }
        if "祭火礼冠"@ == "宗室之花"@ {
            assert("祭火礼冠"@[0] == "宗室之花"@[0]);
            assert(false);
        }
        if "祭火礼冠"@ == "宗室之翎"@ {
            assert("祭火礼冠"@[0] == "宗室之翎"@[0]);
            assert(false);
        }
        if "祭火礼冠"@ == "宗室时计"@ {
            assert("祭火礼冠"@[0] == "宗室时计"@[0]);
            assert(false);
        }
        if "祭火礼冠"@ == "宗室银瓮"@ {
            assert("祭火礼冠"@[0] == "宗室银瓮"@[0]);
            assert(false);
        }
        if "祭火礼冠"@ == "宗室面具"@ {
            assert("祭火礼冠"@[0] == "宗室面具"@[0]);
            assert(false);
        }
        if "祭火礼冠"@ == "夏祭之花"@ {
            assert("祭火礼冠"@[0] == "夏祭之花"@[0]);
            assert(false);
        }
        if "祭火礼冠"@ == "夏祭终末"@ {
            assert("祭火礼冠"@[0] == "夏祭终末"@[0]);
            assert(false);
        }
        if "祭火礼冠"@ == "夏祭之刻"@ {
            assert("祭火礼冠"@[0] == "夏祭之刻"@[0]);
            assert(false);
        }
        if "祭火礼冠"@ == "夏祭水玉"@ {
            assert("祭火礼冠"@[0] == "夏祭水玉"@[0]);
            assert(false);
        }
        if "祭火礼冠"@ == "夏祭之面"@ {
            assert("祭火礼冠"@[0] == "夏祭之面"@[0]);
            assert(false);
        }
        if "祭火礼冠"@ == "平雷之心"@ {
            assert("祭火礼冠"@[0] == "平雷之心"@[0]);
            assert(false);
        }
        if "祭火礼冠"@ == "平雷之羽"@ {
            assert("祭火礼冠"@[0] == "平雷之羽"@[0]);
            assert(false);
        }
        if "祭火礼冠"@ == "平雷之刻"@ {
            assert("祭火礼冠"@[0] == "平雷之刻"@[0]);
            assert(false);
        }
        if "祭火礼冠"@ == "平雷之器"@ {
            assert("祭火礼冠"@[0] == "平雷之器"@[0]);
            assert(false);
        }
        if "祭火礼冠"@ == "平雷之冠"@ {
            assert("祭火礼冠"@[0] == "平雷之冠"@[0]);
            assert(false);
        }
        if "祭火礼冠"@ == "守护之花"@ {
            assert("祭火礼冠"@[0] == "守护之花"@[0]);
            assert(false);
        }
        if "祭火礼冠"@ == "守护徽印"@ {
            assert("祭火礼冠"@[0] == "守护徽印"@[0]);
            assert(false);
        }
        if "祭火礼冠"@ == "守护座钟"@ {
            assert("祭火礼冠"@[0] == "守护座钟"@[0]);
            assert(false);
        }
        if "祭火礼冠"@ == "守护之皿"@ {
            assert("祭火礼冠"@[0] == "守护之皿"@[0]);
            assert(false);
        }
        if "祭火礼冠"@ == "守护束带"@ {
            assert("祭火礼冠"@[0] == "守护束带"@[0]);
            assert(false);
        }
        if "祭火礼冠"@ == "祭水礼冠"@ {
            assert("祭火礼冠"@[1] == "祭水礼冠"@[1]);
            assert(false);
        }
        assert(name_id(corpus_at(108)) == 108);
    } else if i == 109 {
        if "祭雷礼冠"@ == "饰金胸花"@ {
            assert("祭雷礼冠"@[0] == "饰金胸花"@[0]);
            assert(false);
        }
        if "祭雷礼冠"@ == "追忆之风"@ {
            assert("祭雷礼冠"@[0] == "追忆之风"@[0]);
            assert(false);
        }
        if "祭雷礼冠"@ == "坚铜罗盘"@ {
            assert("祭雷礼冠"@[0] == "坚铜罗盘"@[0]);
            assert(false);
        }
        if "祭雷礼冠"@ == "沉波之盏"@ {
            assert("祭雷礼冠"@[0] == "沉波之盏"@[0]);
            assert(false);
        }
        if "祭雷礼冠"@ == "酒渍船帽"@ {
            assert("祭雷礼冠"@[0] == "酒渍船帽"@[0]);
            assert(false);
        }
        if "祭雷礼冠"@ == "宗室之花"@ {
            assert("祭雷礼冠"@[0] == "宗室之花"@[0]);
            assert(false);
        }
        if "祭雷礼冠"@ == "宗室之翎"@ {
            assert("祭雷礼冠"@[0] == "宗室之翎"@[0]);
            assert(false);
        }
        if "祭雷礼冠"@ == "宗室时计"@ {
            assert("祭雷礼冠"@[0] == "宗室时计"@[0]);
            assert(false);
        }
        if "祭雷礼冠"@ == "宗室银瓮"@ {
            assert("祭雷礼冠"@[0] == "宗室银瓮"@[0]);
            assert(false);
        }
        if "祭雷礼冠"@ == "宗室面具"@ {
            assert("祭雷礼冠"@[0] == "宗室面具"@[0]);
            assert(false);
        }
        if "祭雷礼冠"@ == "夏祭之花"@ {
            assert("祭雷礼冠"@[0] == "夏祭之花"@[0]);
            assert(false);
        }
        if "祭雷礼冠"@ == "夏祭终末"@ {
            assert("祭雷礼冠"@[0] == "夏祭终末"@[0]);
            assert(false);
        }
        if "祭雷礼冠"@ == "夏祭之刻"@ {
            assert("祭雷礼冠"@[0] == "夏祭之刻"@[0]);
            assert(false);
        }
        if "祭雷礼冠"@ == "夏祭水玉"@ {
            assert("祭雷礼冠"@[0] == "夏祭水玉"@[0]);
            assert(false);
        }
        if "祭雷礼冠"@ == "夏祭之面"@ {
            assert("祭雷礼冠"@[0] == "夏祭之面"@[0]);
            assert(false);
        }
        if "祭雷礼冠"@ == "平雷之心"@ {
            assert("祭雷礼冠"@[0] == "平雷之心"@[0]);
            assert(false);
        }
        if "祭雷礼冠"@ == "平雷之羽"@ {
            assert("祭雷礼冠"@[0] == "平雷之羽"@[0]);
            assert(false);
        }
        if "祭雷礼冠"@ == "平雷之刻"@ {
            assert("祭雷礼冠"@[0] == "平雷之刻"@[0]);
            assert(false);
        }
        if "祭雷礼冠"@ == "平雷之器"@ {
            assert("祭雷礼冠"@[0] == "平雷之器"@[0]);
            assert(false);
        }
        if "祭雷礼冠"@ == "平雷之冠"@ {
            assert("祭雷礼冠"@[0] == "平雷之冠"@[0]);
            assert(false);
        }
        if "祭雷礼冠"@ == "守护之花"@ {
            assert("祭雷礼冠"@[0] == "守护之花"@[0]);
            assert(false);
        }
        if "祭雷礼冠"@ == "守护徽印"@ {
            assert("祭雷礼冠"@[0] == "守护徽印"@[0]);
            assert(false);
        }
        if "祭雷礼冠"@ == "守护座钟"@ {
            assert("祭雷礼冠"@[0] == "守护座钟"@[0]);
            assert(false);
        }
        if "祭雷礼冠"@ == "守护之皿"@ {
            assert("祭雷礼冠"@[0] == "守护之皿"@[0]);
            assert(false);
        }
        if "祭雷礼冠"@ == "守护束带"@ {
            assert("祭雷礼冠"@[0] == "守护束带"@[0]);
            assert(false);
        }
        if "祭雷礼冠"@ == "祭水礼冠"@ {
            assert("祭雷礼冠"@[1] == "祭水礼冠"@[1]);
            assert(false);
        }
        if "祭雷礼冠"@ == "祭火礼冠"@ {
            assert("祭雷礼冠"@[1] == "祭火礼冠"@[1]);
            assert(false);
        }
        assert(name_id(corpus_at(109)) == 109);
    }
}

proof fn corpus_entry_chunk11(i: int)
    requires
        110 <= i < 120,
    ensures
        name_id(corpus_at(i)) == i,
{
    reveal_strlit("饰金胸花");
    reveal_strlit("追忆之风");
    reveal_strlit("坚铜罗盘");
    reveal_strlit("沉波之盏");
    reveal_strlit("酒渍船帽");
    reveal_strlit("宗室之花");
    reveal_strlit("宗室之翎");
    reveal_strlit("宗室时计");
    reveal_strlit("宗室银瓮");
    reveal_strlit("宗室面具");
    reveal_strlit("夏祭之花");
    reveal_strlit("夏祭终末");
    reveal_strlit("夏祭之刻");
    reveal_strlit("夏祭水玉");
    reveal_strlit("夏祭之面");
    reveal_strlit("平雷之心");
    reveal_strlit("平雷之羽");
    reveal_strlit("平雷之刻");
    reveal_strlit("平雷之器");
    reveal_strlit("平雷之冠");
    reveal_strlit("雷鸟的怜悯");
    reveal_strlit("雷灾的孑遗");
    reveal_strlit("雷霆的时计");
    reveal_strlit("降雷的凶兆");
    reveal_strlit("唤雷的头冠");
    reveal_strlit("乐团的晨光");
    reveal_strlit("琴师的箭羽");
    reveal_strlit("终幕的时计");
    reveal_strlit("终末的时计");
    reveal_strlit("吟游者之壶");
    reveal_strlit("指挥的礼帽");
    reveal_strlit("战狂的蔷薇");
    reveal_strlit("战狂的翎羽");
    reveal_strlit("战狂的时计");
    reveal_strlit("战狂的骨杯");
    reveal_strlit("战狂的鬼面");
    reveal_strlit("勇士的勋章");
    reveal_strlit("勇士的期许");
    reveal_strlit("勇士的坚毅");
    reveal_strlit("勇士的壮行");
    reveal_strlit("勇士的冠冕");
    reveal_strlit("守护之花");
    reveal_strlit("守护徽印");
    reveal_strlit("守护座钟");
    reveal_strlit("守护之皿");
    reveal_strlit("守护束带");
    reveal_strlit("流放者之花");
    reveal_strlit("流放者之羽");
    reveal_strlit("流放者怀表");
    reveal_strlit("流放者之杯");
    reveal_strlit("流放者头冠");
    reveal_strlit("赌徒的胸花");
    reveal_strlit("赌徒的羽饰");
    reveal_strlit("赌徒的怀表");
    reveal_strlit("赌徒的骰盅");
    reveal_strlit("赌徒的耳环");
    reveal_strlit("教官的胸花");
    reveal_strlit("教官的羽饰");
    reveal_strlit("教官的怀表");
    reveal_strlit("教官的茶杯");
    reveal_strlit("教官的帽子");
    reveal_strlit("武人的红花");
    reveal_strlit("武人的羽饰");
    reveal_strlit("武人的水漏");
    reveal_strlit("武人的酒杯");
    reveal_strlit("武人的头巾");
    reveal_strlit("祭水礼冠");
    reveal_strlit("祭火礼冠");
    reveal_strlit("祭雷礼冠");
    reveal_strlit("祭冰礼冠");
    reveal_strlit("故人之心");
    reveal_strlit("归乡之羽");
    reveal_strlit("逐光之石");
    reveal_strlit("异国之盏");
    reveal_strlit("感别之冠");
    reveal_strlit("学士的书签");
    reveal_strlit("学士的羽笔");
    reveal_strlit("学士的时钟");
    reveal_strlit("学士的墨杯");
    if i == 110 {
        if "祭冰礼冠"@ == "饰金胸花"@ {
            assert("祭冰礼冠"@[0] == "饰金胸花"@[0]);
            assert(false);
        }
        if "祭冰礼冠"@ == "追忆之风"@ {
            assert("祭冰礼冠"@[0] == "追忆之风"@[0]);
            assert(false);
        }
        if "祭冰礼冠"@ == "坚铜罗盘"@ {
            assert("祭冰礼冠"@[0] == "坚铜罗盘"@[0]);
            assert(false);
        }
        if "祭冰礼冠"@ == "沉波之盏"@ {
            assert("祭冰礼冠"@[0] == "沉波之盏"@[0]);
            assert(false);
        }
        if "祭冰礼冠"@ == "酒渍船帽"@ {
            assert("祭冰礼冠"@[0] == "酒渍船帽"@[0]);
            assert(false);
        }
        if "祭冰礼冠"@ == "宗室之花"@ {
            assert("祭冰礼冠"@[0] == "宗室之花"@[0]);
            assert(false);
        }
        if "祭冰礼冠"@ == "宗室之翎"@ {
            assert("祭冰礼冠"@[0] == "宗室之翎"@[0]);
            assert(false);
        }
        if "祭冰礼冠"@ == "宗室时计"@ {
            assert("祭冰礼冠"@[0] == "宗室时计"@[0]);
            assert(false);
        }
        if "祭冰礼冠"@ == "宗室银瓮"@ {
            assert("祭冰礼冠"@[0] == "宗室银瓮"@[0]);
            assert(false);
        }
        if "祭冰礼冠"@ == "宗室面具"@ {
            assert("祭冰礼冠"@[0] == "宗室面具"@[0]);
            assert(false);
        }
        if "祭冰礼冠"@ == "夏祭之花"@ {
            assert("祭冰礼冠"@[0] == "夏祭之花"@[0]);
            assert(false);
        }
        if "祭冰礼冠"@ == "夏祭终末"@ {
            assert("祭冰礼冠"@[0] == "夏祭终末"@[0]);
            assert(false);
        }
        if "祭冰礼冠"@ == "夏祭之刻"@ {
            assert("祭冰礼冠"@[0] == "夏祭之刻"@[0]);
            assert(false);
        }
        if "祭冰礼冠"@ == "夏祭水玉"@ {
            assert("祭冰礼冠"@[0] == "夏祭水玉"@[0]);
            assert(false);
        }
        if "祭冰礼冠"@ == "夏祭之面"@ {
            assert("祭冰礼冠"@[0] == "夏祭之面"@[0]);
            assert(false);
        }
        if "祭冰礼冠"@ == "平雷之心"@ {
            assert("祭冰礼冠"@[0] == "平雷之心"@[0]);
            assert(false);
        }
        if "祭冰礼冠"@ == "平雷之羽"@ {
            assert("祭冰礼冠"@[0] == "平雷之羽"@[0]);
            assert(false);
        }
        if "祭冰礼冠"@ == "平雷之刻"@ {
            assert("祭冰礼冠"@[0] == "平雷之刻"@[0]);
            assert(false);
        }
        if "祭冰礼冠"@ == "平雷之器"@ {
            assert("祭冰礼冠"@[0] == "平雷之器"@[0]);
            assert(false);
        }
        if "祭冰礼冠"@ == "平雷之冠"@ {
            assert("祭冰礼冠"@[0] == "平雷之冠"@[0]);
            assert(false);
        }
        if "祭冰礼冠"@ == "守护之花"@ {
            assert("祭冰礼冠"@[0] == "守护之花"@[0]);
            assert(false);
        }
        if "祭冰礼冠"@ == "守护徽印"@ {
            assert("祭冰礼冠"@[0] == "守护徽印"@[0]);
            assert(false);
        }
        if "祭冰礼冠"@ == "守护座钟"@ {
            assert("祭冰礼冠"@[0] == "守护座钟"@[0]);
            assert(false);
        }
        if "祭冰礼冠"@ == "守护之皿"@ {
            assert("祭冰礼冠"@[0] == "守护之皿"@[0]);
            assert(false);
        }
        if "祭冰礼冠"@ == "守护束带"@ {
            assert("祭冰礼冠"@[0] == "守护束带"@[0]);
            assert(false);
        }
        if "祭冰礼冠"@ == "祭水礼冠"@ {
            assert("祭冰礼冠"@[1] == "祭水礼冠"@[1]);
            assert(false);
        }
        if "祭冰礼冠"@ == "祭火礼冠"@ {
            assert("祭冰礼冠"@[1] == "祭火礼冠"@[1]);
            assert(false);
        }
        if "祭冰礼冠"@ == "祭雷礼冠"@ {
            assert("祭冰礼冠"@[1] == "祭雷礼冠"@[1]);
            assert(false);
        }
        assert(name_id(corpus_at(110)) == 110);
    } else if i == 111 {
        if "故人之心"@ == "饰金胸花"@ {
            assert("故人之心"@[0] == "饰金胸花"@[0]);
            assert(false);
        }
        if "故人之心"@ == "追忆之风"@ {
            assert("故人之心"@[0] == "追忆之风"@[0]);
            assert(false);
        }
        if "故人之心"@ == "坚铜罗盘"@ {
            assert("故人之心"@[0] == "坚铜罗盘"@[0]);
            assert(false);
        }
        if "故人之心"@ == "沉波之盏"@ {
            assert("故人之心"@[0] == "沉波之盏"@[0]);
            assert(false);
        }
        if "故人之心"@ == "酒渍船帽"@ {
            assert("故人之心"@[0] == "酒渍船帽"@[0]);
            assert(false);
        }
        if "故人之心"@ == "宗室之花"@ {
            assert("故人之心"@[0] == "宗室之花"@[0]);
            assert(false);
        }
        if "故人之心"@ == "宗室之翎"@ {
            assert("故人之心"@[0] == "宗室之翎"@[0]);
            assert(false);
        }
        if "故人之心"@ == "宗室时计"@ {
            assert("故人之心"@[0] == "宗室时计"@[0]);
            assert(false);
        }
        if "故人之心"@ == "宗室银瓮"@ {
            assert("故人之心"@[0] == "宗室银瓮"@[0]);
            assert(false);
        }
        if "故人之心"@ == "宗室面具"@ {
            assert("故人之心"@[0] == "宗室面具"@[0]);
            assert(false);
        }
        if "故人之心"@ == "夏祭之花"@ {
            assert("故人之心"@[0] == "夏祭之花"@[0]);
            assert(false);
        }
        if "故人之心"@ == "夏祭终末"@ {
            assert("故人之心"@[0] == "夏祭终末"@[0]);
            assert(false);
        }
        if "故人之心"@ == "夏祭之刻"@ {
            assert("故人之心"@[0] == "夏祭之刻"@[0]);
            assert(false);
        }
        if "故人之心"@ == "夏祭水玉"@ {
            assert("故人之心"@[0] == "夏祭水玉"@[0]);
            assert(false);
        }
        if "故人之心"@ == "夏祭之面"@ {
            assert("故人之心"@[0] == "夏祭之面"@[0]);
            assert(false);
        }
        if "故人之心"@ == "平雷之心"@ {
            assert("故人之心"@[0] == "平雷之心"@[0]);
            assert(false);
        }
        if "故人之心"@ == "平雷之羽"@ {
            assert("故人之心"@[0] == "平雷之羽"@[0]);
            assert(false);
        }
        if "故人之心"@ == "平雷之刻"@ {
            assert("故人之心"@[0] == "平雷之刻"@[0]);
            assert(false);
        }
        if "故人之心"@ == "平雷之器"@ {
            assert("故人之心"@[0] == "平雷之器"@[0]);
            assert(false);
        }
        if "故人之心"@ == "平雷之冠"@ {
            assert("故人之心"@[0] == "平雷之冠"@[0]);
            assert(false);
        }
        if "故人之心"@ == "守护之花"@ {
            assert("故人之心"@[0] == "守护之花"@[0]);
            assert(false);
        }
        if "故人之心"@ == "守护徽印"@ {
            assert("故人之心"@[0] == "守护徽印"@[0]);
            assert(false);
        }
        if "故人之心"@ == "守护座钟"@ {
            assert("故人之心"@[0] == "守护座钟"@[0]);
            assert(false);
        }
        if "故人之心"@ == "守护之皿"@ {
            assert("故人之心"@[0] == "守护之皿"@[0]);
            assert(false);
        }
        if "故人之心"@ == "守护束带"@ {
            assert("故人之心"@[0] == "守护束带"@[0]);
            assert(false);
        }
        if "故人之心"@ == "祭水礼冠"@ {
            assert("故人之心"@[0] == "祭水礼冠"@[0]);
            assert(false);
        }
        if "故人之心"@ == "祭火礼冠"@ {
            assert("故人之心"@[0] == "祭火礼冠"@[0]);
            assert(false);
        }
        if "故人之心"@ == "祭雷礼冠"@ {
            assert("故人之心"@[0] == "祭雷礼冠"@[0]);
            assert(false);
        }
        if "故人之心"@ == "祭冰礼冠"@ {
            assert("故人之心"@[0] == "祭冰礼冠"@[0]);
            assert(false);
        }
        assert(name_id(corpus_at(111)) == 111);
    } else if i == 112 {
        if "归乡之羽"@ == "饰金胸花"@ {
            assert("归乡之羽"@[0] == "饰金胸花"@[0]);
            assert(false);
        }
        if "归乡之羽"@ == "追忆之风"@ {
            assert("归乡之羽"@[0] == "追忆之风"@[0]);
            assert(false);
        }
        if "归乡之羽"@ == "坚铜罗盘"@ {
            assert("归乡之羽"@[0] == "坚铜罗盘"@[0]);
            assert(false);
        }
        if "归乡之羽"@ == "沉波之盏"@ {
            assert("归乡之羽"@[0] == "沉波之盏"@[0]);
            assert(false);
        }
        if "归乡之羽"@ == "酒渍船帽"@ {
            assert("归乡之羽"@[0] == "酒渍船帽"@[0]);
            assert(false);
        }
        if "归乡之羽"@ == "宗室之花"@ {
            assert("归乡之羽"@[0] == "宗室之花"@[0]);
            assert(false);
        }
        if "归乡之羽"@ == "宗室之翎"@ {
            assert("归乡之羽"@[0] == "宗室之翎"@[0]);
            assert(false);
        }
        if "归乡之羽"@ == "宗室时计"@ {
            assert("归乡之羽"@[0] == "宗室时计"@[0]);
            assert(false);
        }
        if "归乡之羽"@ == "宗室银瓮"@ {
            assert("归乡之羽"@[0] == "宗室银瓮"@[0]);
            assert(false);
        }
        if "归乡之羽"@ == "宗室面具"@ {
            assert("归乡之羽"@[0] == "宗室面具"@[0]);
            assert(false);
        }
        if "归乡之羽"@ == "夏祭之花"@ {
            assert("归乡之羽"@[0] == "夏祭之花"@[0]);
            assert(false);
        }
        if "归乡之羽"@ == "夏祭终末"@ {
            assert("归乡之羽"@[0] == "夏祭终末"@[0]);
            assert(false);
        }
        if "归乡之羽"@ == "夏祭之刻"@ {
            assert("归乡之羽"@[0] == "夏祭之刻"@[0]);
            assert(false);
        }
        if "归乡之羽"@ == "夏祭水玉"@ {
            assert("归乡之羽"@[0] == "夏祭水玉"@[0]);
            assert(false);
        }
        if "归乡之羽"@ == "夏祭之面"@ {
            assert("归乡之羽"@[0] == "夏祭之面"@[0]);
            assert(false);
        }
        if "归乡之羽"@ == "平雷之心"@ {
            assert("归乡之羽"@[0] == "平雷之心"@[0]);
            assert(false);
        }
        if "归乡之羽"@ == "平雷之羽"@ {
            assert("归乡之羽"@[0] == "平雷之羽"@[0]);
            assert(false);
        }
        if "归乡之羽"@ == "平雷之刻"@ {
            assert("归乡之羽"@[0] == "平雷之刻"@[0]);
            assert(false);
        }
        if "归乡之羽"@ == "平雷之器"@ {
            assert("归乡之羽"@[0] == "平雷之器"@[0]);
            assert(false);
        }
        if "归乡之羽"@ == "平雷之冠"@ {
            assert("归乡之羽"@[0] == "平雷之冠"@[0]);
            assert(false);
        }
        if "归乡之羽"@ == "守护之花"@ {
            assert("归乡之羽"@[0] == "守护之花"@[0]);
            assert(false);
        }
        if "归乡之羽"@ == "守护徽印"@ {
            assert("归乡之羽"@[0] == "守护徽印"@[0]);
            assert(false);
        }
        if "归乡之羽"@ == "守护座钟"@ {
            assert("归乡之羽"@[0] == "守护座钟"@[0]);
            assert(false);
        }
        if "归乡之羽"@ == "守护之皿"@ {
            assert("归乡之羽"@[0] == "守护之皿"@[0]);
            assert(false);
        }
        if "归乡之羽"@ == "守护束带"@ {
            assert("归乡之羽"@[0] == "守护束带"@[0]);
            assert(false);
        }
        if "归乡之羽"@ == "祭水礼冠"@ {
            assert("归乡之羽"@[0] == "祭水礼冠"@[0]);
            assert(false);
        }
        if "归乡之羽"@ == "祭火礼冠"@ {
            assert("归乡之羽"@[0] == "祭火礼冠"@[0]);
            assert(false);
        }
        if "归乡之羽"@ == "祭雷礼冠"@ {
            assert("归乡之羽"@[0] == "祭雷礼冠"@[0]);
            assert(false);
        }
        if "归乡之羽"@ == "祭冰礼冠"@ {
            assert("归乡之羽"@[0] == "祭冰礼冠"@[0]);
            assert(false);
        }
        if "归乡之羽"@ == "故人之心"@ {
            assert("归乡之羽"@[0] == "故人之心"@[0]);
            assert(false);
        }
        assert(name_id(corpus_at(112)) == 112);
    } else if i == 113 {
        if "逐光之石"@ == "饰金胸花"@ {
            assert("逐光之石"@[0] == "饰金胸花"@[0]);
            assert(false);
        }
        if "逐光之石"@ == "追忆之风"@ {
            assert("逐光之石"@[0] == "追忆之风"@[0]);
            assert(false);
        }
        if "逐光之石"@ == "坚铜罗盘"@ {
            assert("逐光之石"@[0] == "坚铜罗盘"@[0]);
            assert(false);
        }
        if "逐光之石"@ == "沉波之盏"@ {
            assert("逐光之石"@[0] == "沉波之盏"@[0]);
            assert(false);
        }
        if "逐光之石"@ == "酒渍船帽"@ {
            assert("逐光之石"@[0] == "酒渍船帽"@[0]);
            assert(false);
        }
        if "逐光之石"@ == "宗室之花"@ {
            assert("逐光之石"@[0] == "宗室之花"@[0]);
            assert(false);
        }
        if "逐光之石"@ == "宗室之翎"@ {
            assert("逐光之石"@[0] == "宗室之翎"@[0]);
            assert(false);
        }
        if "逐光之石"@ == "宗室时计"@ {
            assert("逐光之石"@[0] == "宗室时计"@[0]);
            assert(false);
        }
        if "逐光之石"@ == "宗室银瓮"@ {
            assert("逐光之石"@[0] == "宗室银瓮"@[0]);
            assert(false);
        }
        if "逐光之石"@ == "宗室面具"@ {
            assert("逐光之石"@[0] == "宗室面具"@[0]);
            assert(false);
        }
        if "逐光之石"@ == "夏祭之花"@ {
            assert("逐光之石"@[0] == "夏祭之花"@[0]);
            assert(false);
        }
        if "逐光之石"@ == "夏祭终末"@ {
            assert("逐光之石"@[0] == "夏祭终末"@[0]);
            assert(false);
        }
        if "逐光之石"@ == "夏祭之刻"@ {
            assert("逐光之石"@[0] == "夏祭之刻"@[0]);
            assert(false);
        }
        if "逐光之石"@ == "夏祭水玉"@ {
            assert("逐光之石"@[0] == "夏祭水玉"@[0]);
            assert(false);
        }
        if "逐光之石"@ == "夏祭之面"@ {
            assert("逐光之石"@[0] == "夏祭之面"@[0]);
            assert(false);
        }
        if "逐光之石"@ == "平雷之心"@ {
            assert("逐光之石"@[0] == "平雷之心"@[0]);
            assert(false);
        }
        if "逐光之石"@ == "平雷之羽"@ {
            assert("逐光之石"@[0] == "平雷之羽"@[0]);
            assert(false);
        }
        if "逐光之石"@ == "平雷之刻"@ {
            assert("逐光之石"@[0] == "平雷之刻"@[0]);
            assert(false);
        }
        if "逐光之石"@ == "平雷之器"@ {
            assert("逐光之石"@[0] == "平雷之器"@[0]);
            assert(false);
        }
        if "逐光之石"@ == "平雷之冠"@ {
            assert("逐光之石"@[0] == "平雷之冠"@[0]);
            assert(false);
        }
        if "逐光之石"@ == "守护之花"@ {
            assert("逐光之石"@[0] == "守护之花"@[0]);
            assert(false);
        }
        if "逐光之石"@ == "守护徽印"@ {
            assert("逐光之石"@[0] == "守护徽印"@[0]);
            assert(false);
        }
        if "逐光之石"@ == "守护座钟"@ {
            assert("逐光之石"@[0] == "守护座钟"@[0]);
            assert(false);
        }
        if "逐光之石"@ == "守护之皿"@ {
            assert("逐光之石"@[0] == "守护之皿"@[0]);
            assert(false);
        }
        if "逐光之石"@ == "守护束带"@ {
            assert("逐光之石"@[0] == "守护束带"@[0]);
            assert(false);
        }
        if "逐光之石"@ == "祭水礼冠"@ {
            assert("逐光之石"@[0] == "祭水礼冠"@[0]);
            assert(false);
        }
        if "逐光之石"@ == "祭火礼冠"@ {
            assert("逐光之石"@[0] == "祭火礼冠"@[0]);
            assert(false);
        }
        if "逐光之石"@ == "祭雷礼冠"@ {
            assert("逐光之石"@[0] == "祭雷礼冠"@[0]);
            assert(false);
        }
        if "逐光之石"@ == "祭冰礼冠"@ {
            assert("逐光之石"@[0] == "祭冰礼冠"@[0]);
            assert(false);
        }
        if "逐光之石"@ == "故人之心"@ {
            assert("逐光之石"@[0] == "故人之心"@[0]);
            assert(false);
        }
        if "逐光之石"@ == "归乡之羽"@ {
            assert("逐光之石"@[0] == "归乡之羽"@[0]);
            assert(false);
        }
        assert(name_id(corpus_at(113)) == 113);
    } else if i == 114 {
        if "异国之盏"@ == "饰金胸花"@ {
            assert("异国之盏"@[0] == "饰金胸花"@[0]);
            assert(false);
        }
        if "异国之盏"@ == "追忆之风"@ {
            assert("异国之盏"@[0] == "追忆之风"@[0]);
            assert(false);
        }
        if "异国之盏"@ == "坚铜罗盘"@ {
            assert("异国之盏"@[0] == "坚铜罗盘"@[0]);
            assert(false);
        }
        if "异国之盏"@ == "沉波之盏"@ {
            assert("异国之盏"@[0] == "沉波之盏"@[0]);
            assert(false);
        }
        if "异国之盏"@ == "酒渍船帽"@ {
            assert("异国之盏"@[0] == "酒渍船帽"@[0]);
            assert(false);
        }
        if "异国之盏"@ == "宗室之花"@ {
            assert("异国之盏"@[0] == "宗室之花"@[0]);
            assert(false);
        }
        if "异国之盏"@ == "宗室之翎"@ {
            assert("异国之盏"@[0] == "宗室之翎"@[0]);
            assert(false);
        }
        if "异国之盏"@ == "宗室时计"@ {
            assert("异国之盏"@[0] == "宗室时计"@[0]);
            assert(false);
        }
        if "异国之盏"@ == "宗室银瓮"@ {
            assert("异国之盏"@[0] == "宗室银瓮"@[0]);
            assert(false);
        }
        if "异国之盏"@ == "宗室面具"@ {
            assert("异国之盏"@[0] == "宗室面具"@[0]);
            assert(false);
        }
        if "异国之盏"@ == "夏祭之花"@ {
            assert("异国之盏"@[0] == "夏祭之花"@[0]);
            assert(false);
        }
        if "异国之盏"@ == "夏祭终末"@ {
            assert("异国之盏"@[0] == "夏祭终末"@[0]);
            assert(false);
        }
        if "异国之盏"@ == "夏祭之刻"@ {
            assert("异国之盏"@[0] == "夏祭之刻"@[0]);
            assert(false);
        }
        if "异国之盏"@ == "夏祭水玉"@ {
            assert("异国之盏"@[0] == "夏祭水玉"@[0]);
            assert(false);
        }
        if "异国之盏"@ == "夏祭之面"@ {
            assert("异国之盏"@[0] == "夏祭之面"@[0]);
            assert(false);
        }
        if "异国之盏"@ == "平雷之心"@ {
            assert("异国之盏"@[0] == "平雷之心"@[0]);
            assert(false);
        }
        if "异国之盏"@ == "平雷之羽"@ {
            assert("异国之盏"@[0] == "平雷之羽"@[0]);
            assert(false);
        }
        if "异国之盏"@ == "平雷之刻"@ {
            assert("异国之盏"@[0] == "平雷之刻"@[0]);
            assert(false);
        }
        if "异国之盏"@ == "平雷之器"@ {
            assert("异国之盏"@[0] == "平雷之器"@[0]);
            assert(false);
        }
        if "异国之盏"@ == "平雷之冠"@ {
            assert("异国之盏"@[0] == "平雷之冠"@[0]);
            assert(false);
        }
        if "异国之盏"@ == "守护之花"@ {
            assert("异国之盏"@[0] == "守护之花"@[0]);
            assert(false);
        }
        if "异国之盏"@ == "守护徽印"@ {
            assert("异国之盏"@[0] == "守护徽印"@[0]);
            assert(false);
        }
        if "异国之盏"@ == "守护座钟"@ {
            assert("异国之盏"@[0] == "守护座钟"@[0]);
            assert(false);
        }
        if "异国之盏"@ == "守护之皿"@ {
            assert("异国之盏"@[0] == "守护之皿"@[0]);
            assert(false);
        }
        if "异国之盏"@ == "守护束带"@ {
            assert("异国之盏"@[0] == "守护束带"@[0]);
            assert(false);
        }
        if "异国之盏"@ == "祭水礼冠"@ {
            assert("异国之盏"@[0] == "祭水礼冠"@[0]);
            assert(false);
        }
        if "异国之盏"@ == "祭火礼冠"@ {
            assert("异国之盏"@[0] == "祭火礼冠"@[0]);
            assert(false);
        }
        if "异国之盏"@ == "祭雷礼冠"@ {
            assert("异国之盏"@[0] == "祭雷礼冠"@[0]);
            assert(false);
        }
        if "异国之盏"@ == "祭冰礼冠"@ {
            assert("异国之盏"@[0] == "祭冰礼冠"@[0]);
            assert(false);
        }
        if "异国之盏"@ == "故人之心"@ {
            assert("异国之盏"@[0] == "故人之心"@[0]);
            assert(false);
        }
        if "异国之盏"@ == "归乡之羽"@ {
            assert("异国之盏"@[0] == "归乡之羽"@[0]);
            assert(false);
        }
        if "异国之盏"@ == "逐光之石"@ {
            assert("异国之盏"@[0] == "逐光之石"@[0]);
            assert(false);
        }
        assert(name_id(corpus_at(114)) == 114);
    } else if i == 115 {
        if "感别之冠"@ == "饰金胸花"@ {
            assert("感别之冠"@[0] == "饰金胸花"@[0]);
            assert(false);
        }
        if "感别之冠"@ == "追忆之风"@ {
            assert("感别之冠"@[0] == "追忆之风"@[0]);
            assert(false);
        }
        if "感别之冠"@ == "坚铜罗盘"@ {
            assert("感别之冠"@[0] == "坚铜罗盘"@[0]);
            assert(false);
        }
        if "感别之冠"@ == "沉波之盏"@ {
            assert("感别之冠"@[0] == "沉波之盏"@[0]);
            assert(false);
        }
        if "感别之冠"@ == "酒渍船帽"@ {
            assert("感别之冠"@[0] == "酒渍船帽"@[0]);
            assert(false);
        }
        if "感别之冠"@ == "宗室之花"@ {
            assert("感别之冠"@[0] == "宗室之花"@[0]);
            assert(false);
        }
        if "感别之冠"@ == "宗室之翎"@ {
            assert("感别之冠"@[0] == "宗室之翎"@[0]);
            assert(false);
        }
        if "感别之冠"@ == "宗室时计"@ {
            assert("感别之冠"@[0] == "宗室时计"@[0]);
            assert(false);
        }
        if "感别之冠"@ == "宗室银瓮"@ {
            assert("感别之冠"@[0] == "宗室银瓮"@[0]);
            assert(false);
        }
        if "感别之冠"@ == "宗室面具"@ {
            assert("感别之冠"@[0] == "宗室面具"@[0]);
            assert(false);
        }
        if "感别之冠"@ == "夏祭之花"@ {
            assert("感别之冠"@[0] == "夏祭之花"@[0]);
            assert(false);
        }
        if "感别之冠"@ == "夏祭终末"@ {
            assert("感别之冠"@[0] == "夏祭终末"@[0]);
            assert(false);
        }
        if "感别之冠"@ == "夏祭之刻"@ {
            assert("感别之冠"@[0] == "夏祭之刻"@[0]);
            assert(false);
        }
        if "感别之冠"@ == "夏祭水玉"@ {
            assert("感别之冠"@[0] == "夏祭水玉"@[0]);
            assert(false);
        }
        if "感别之冠"@ == "夏祭之面"@ {
            assert("感别之冠"@[0] == "夏祭之面"@[0]);
            assert(false);
        }
        if "感别之冠"@ == "平雷之心"@ {
            assert("感别之冠"@[0] == "平雷之心"@[0]);
            assert(false);
        }
        if "感别之冠"@ == "平雷之羽"@ {
            assert("感别之冠"@[0] == "平雷之羽"@[0]);
            assert(false);
        }
        if "感别之冠"@ == "平雷之刻"@ {
            assert("感别之冠"@[0] == "平雷之刻"@[0]);
            assert(false);
        }
        if "感别之冠"@ == "平雷之器"@ {
            assert("感别之冠"@[0] == "平雷之器"@[0]);
            assert(false);
        }
        if "感别之冠"@ == "平雷之冠"@ {
            assert("感别之冠"@[0] == "平雷之冠"@[0]);
            assert(false);
        }
        if "感别之冠"@ == "守护之花"@ {
            assert("感别之冠"@[0] == "守护之花"@[0]);
            assert(false);
        }
        if "感别之冠"@ == "守护徽印"@ {
            assert("感别之冠"@[0] == "守护徽印"@[0]);
            assert(false);
        }
        if "感别之冠"@ == "守护座钟"@ {
            assert("感别之冠"@[0] == "守护座钟"@[0]);
            assert(false);
        }
        if "感别之冠"@ == "守护之皿"@ {
            assert("感别之冠"@[0] == "守护之皿"@[0]);
            assert(false);
        }
        if "感别之冠"@ == "守护束带"@ {
            assert("感别之冠"@[0] == "守护束带"@[0]);
            assert(false);
        }
        if "感别之冠"@ == "祭水礼冠"@ {
            assert("感别之冠"@[0] == "祭水礼冠"@[0]);
            assert(false);
        }
        if "感别之冠"@ == "祭火礼冠"@ {
            assert("感别之冠"@[0] == "祭火礼冠"@[0]);
            assert(false);
        }
        if "感别之冠"@ == "祭雷礼冠"@ {
            assert("感别之冠"@[0] == "祭雷礼冠"@[0]);
            assert(false);
        }
        if "感别之冠"@ == "祭冰礼冠"@ {
            assert("感别之冠"@[0] == "祭冰礼冠"@[0]);
            assert(false);
        }
        if "感别之冠"@ == "故人之心"@ {
            assert("感别之冠"@[0] == "故人之心"@[0]);
            assert(false);
        }
        if "感别之冠"@ == "归乡之羽"@ {
            assert("感别之冠"@[0] == "归乡之羽"@[0]);
            assert(false);
        }
        if "感别之冠"@ == "逐光之石"@ {
            assert("感别之冠"@[0] == "逐光之石"@[0]);
            assert(false);
        }
        if "感别之冠"@ == "异国之盏"@ {
            assert("感别之冠"@[0] == "异国之盏"@[0]);
            assert(false);
        }
        assert(name_id(corpus_at(115)) == 115);
    } else if i == 116 {
        if "学士的书签"@ == "雷鸟的怜悯"@ {
            assert("学士的书签"@[0] == "雷鸟的怜悯"@[0]);
            assert(false);
        }
        if "学士的书签"@ == "雷灾的孑遗"@ {
            assert("学士的书签"@[0] == "雷灾的孑遗"@[0]);
            assert(false);
        }
        if "学士的书签"@ == "雷霆的时计"@ {
            assert("学士的书签"@[0] == "雷霆的时计"@[0]);
            assert(false);
        }
        if "学士的书签"@ == "降雷的凶兆"@ {
            assert("学士的书签"@[0] == "降雷的凶兆"@[0]);
            assert(false);
        }
        if "学士的书签"@ == "唤雷的头冠"@ {
            assert("学士的书签"@[0] == "唤雷的头冠"@[0]);
            assert(false);
        }
        if "学士的书签"@ == "乐团的晨光"@ {
            assert("学士的书签"@[0] == "乐团的晨光"@[0]);
            assert(false);
        }
        if "学士的书签"@ == "琴师的箭羽"@ {
            assert("学士的书签"@[0] == "琴师的箭羽"@[0]);
            assert(false);
        }
        if "学士的书签"@ == "终幕的时计"@ {
            assert("学士的书签"@[0] == "终幕的时计"@[0]);
            assert(false);
        }
        if "学士的书签"@ == "终末的时计"@ {
            assert("学士的书签"@[0] == "终末的时计"@[0]);
            assert(false);
        }
        if "学士的书签"@ == "吟游者之壶"@ {
            assert("学士的书签"@[0] == "吟游者之壶"@[0]);
            assert(false);
        }
        if "学士的书签"@ == "指挥的礼帽"@ {
            assert("学士的书签"@[0] == "指挥的礼帽"@[0]);
            assert(false);
        }
        if "学士的书签"@ == "战狂的蔷薇"@ {
            assert("学士的书签"@[0] == "战狂的蔷薇"@[0]);
            assert(false);
        }
        if "学士的书签"@ == "战狂的翎羽"@ {
            assert("学士的书签"@[0] == "战狂的翎羽"@[0]);
            assert(false);
        }
        if "学士的书签"@ == "战狂的时计"@ {
            assert("学士的书签"@[0] == "战狂的时计"@[0]);
            assert(false);
        }
        if "学士的书签"@ == "战狂的骨杯"@ {
            assert("学士的书签"@[0] == "战狂的骨杯"@[0]);
            assert(false);
        }
        if "学士的书签"@ == "战狂的鬼面"@ {
            assert("学士的书签"@[0] == "战狂的鬼面"@[0]);
            assert(false);
        }
        if "学士的书签"@ == "勇士的勋章"@ {
            assert("学士的书签"@[0] == "勇士的勋章"@[0]);
            assert(false);
        }
        if "学士的书签"@ == "勇士的期许"@ {
            assert("学士的书签"@[0] == "勇士的期许"@[0]);
            assert(false);
        }
        if "学士的书签"@ == "勇士的坚毅"@ {
            assert("学士的书签"@[0] == "勇士的坚毅"@[0]);
            assert(false);
        }
        if "学士的书签"@ == "勇士的壮行"@ {
            assert("学士的书签"@[0] == "勇士的壮行"@[0]);
            assert(false);
        }
        if "学士的书签"@ == "勇士的冠冕"@ {
            assert("学士的书签"@[0] == "勇士的冠冕"@[0]);
            assert(false);
        }
        if "学士的书签"@ == "流放者之花"@ {
            assert("学士的书签"@[0] == "流放者之花"@[0]);
            assert(false);
        }
        if "学士的书签"@ == "流放者之羽"@ {
            assert("学士的书签"@[0] == "流放者之羽"@[0]);
            assert(false);
        }
        if "学士的书签"@ == "流放者怀表"@ {
            assert("学士的书签"@[0] == "流放者怀表"@[0]);
            assert(false);
        }
        if "学士的书签"@ == "流放者之杯"@ {
            assert("学士的书签"@[0] == "流放者之杯"@[0]);
            assert(false);
        }
        if "学士的书签"@ == "流放者头冠"@ {
            assert("学士的书签"@[0] == "流放者头冠"@[0]);
            assert(false);
        }
        if "学士的书签"@ == "赌徒的胸花"@ {
            assert("学士的书签"@[0] == "赌徒的胸花"@[0]);
            assert(false);
        }
        if "学士的书签"@ == "赌徒的羽饰"@ {
            assert("学士的书签"@[0] == "赌徒的羽饰"@[0]);
            assert(false);
        }
        if "学士的书签"@ == "赌徒的怀表"@ {
            assert("学士的书签"@[0] == "赌徒的怀表"@[0]);
            assert(false);
        }
        if "学士的书签"@ == "赌徒的骰盅"@ {
            assert("学士的书签"@[0] == "赌徒的骰盅"@[0]);
            assert(false);
        }
        if "学士的书签"@ == "赌徒的耳环"@ {
            assert("学士的书签"@[0] == "赌徒的耳环"@[0]);
            assert(false);
        }
        if "学士的书签"@ == "教官的胸花"@ {
            assert("学士的书签"@[0] == "教官的胸花"@[0]);
            assert(false);
        }
        if "学士的书签"@ == "教官的羽饰"@ {
            assert("学士的书签"@[0] == "教官的羽饰"@[0]);
            assert(false);
        }
        if "学士的书签"@ == "教官的怀表"@ {
            assert("学士的书签"@[0] == "教官的怀表"@[0]);
            assert(false);
        }
        if "学士的书签"@ == "教官的茶杯"@ {
            assert("学士的书签"@[0] == "教官的茶杯"@[0]);
            assert(false);
        }
        if "学士的书签"@ == "教官的帽子"@ {
            assert("学士的书签"@[0] == "教官的帽子"@[0]);
            assert(false);
        }
        if "学士的书签"@ == "武人的红花"@ {
            assert("学士的书签"@[0] == "武人的红花"@[0]);
            assert(false);
        }
        if "学士的书签"@ == "武人的羽饰"@ {
            assert("学士的书签"@[0] == "武人的羽饰"@[0]);
            assert(false);
        }
        if "学士的书签"@ == "武人的水漏"@ {
            assert("学士的书签"@[0] == "武人的水漏"@[0]);
            assert(false);
        }
        if "学士的书签"@ == "武人的酒杯"@ {
            assert("学士的书签"@[0] == "武人的酒杯"@[0]);
            assert(false);
        }
        if "学士的书签"@ == "武人的头巾"@ {
            assert("学士的书签"@[0] == "武人的头巾"@[0]);
            assert(false);
        }
        assert(name_id(corpus_at(116)) == 116);
    } else if i == 117 {
        if "学士的羽笔"@ == "雷鸟的怜悯"@ {
            assert("学士的羽笔"@[0] == "雷鸟的怜悯"@[0]);
            assert(false);
        }
        if "学士的羽笔"@ == "雷灾的孑遗"@ {
            assert("学士的羽笔"@[0] == "雷灾的孑遗"@[0]);
            assert(false);
        }
        if "学士的羽笔"@ == "雷霆的时计"@ {
            assert("学士的羽笔"@[0] == "雷霆的时计"@[0]);
            assert(false);
        }
        if "学士的羽笔"@ == "降雷的凶兆"@ {
            assert("学士的羽笔"@[0] == "降雷的凶兆"@[0]);
            assert(false);
        }
        if "学士的羽笔"@ == "唤雷的头冠"@ {
            assert("学士的羽笔"@[0] == "唤雷的头冠"@[0]);
            assert(false);
        }
        if "学士的羽笔"@ == "乐团的晨光"@ {
            assert("学士的羽笔"@[0] == "乐团的晨光"@[0]);
            assert(false);
        }
        if "学士的羽笔"@ == "琴师的箭羽"@ {
            assert("学士的羽笔"@[0] == "琴师的箭羽"@[0]);
            assert(false);
        }
        if "学士的羽笔"@ == "终幕的时计"@ {
            assert("学士的羽笔"@[0] == "终幕的时计"@[0]);
            assert(false);
        }
        if "学士的羽笔"@ == "终末的时计"@ {
            assert("学士的羽笔"@[0] == "终末的时计"@[0]);
            assert(false);
        }
        if "学士的羽笔"@ == "吟游者之壶"@ {
            assert("学士的羽笔"@[0] == "吟游者之壶"@[0]);
            assert(false);
        }
        if "学士的羽笔"@ == "指挥的礼帽"@ {
            assert("学士的羽笔"@[0] == "指挥的礼帽"@[0]);
            assert(false);
        }
        if "学士的羽笔"@ == "战狂的蔷薇"@ {
            assert("学士的羽笔"@[0] == "战狂的蔷薇"@[0]);
            assert(false);
        }
        if "学士的羽笔"@ == "战狂的翎羽"@ {
            assert("学士的羽笔"@[0] == "战狂的翎羽"@[0]);
            assert(false);
        }
        if "学士的羽笔"@ == "战狂的时计"@ {
            assert("学士的羽笔"@[0] == "战狂的时计"@[0]);
            assert(false);
        }
        if "学士的羽笔"@ == "战狂的骨杯"@ {
            assert("学士的羽笔"@[0] == "战狂的骨杯"@[0]);
            assert(false);
        }
        if "学士的羽笔"@ == "战狂的鬼面"@ {
            assert("学士的羽笔"@[0] == "战狂的鬼面"@[0]);
            assert(false);
        }
        if "学士的羽笔"@ == "勇士的勋章"@ {
            assert("学士的羽笔"@[0] == "勇士的勋章"@[0]);
            assert(false);
        }
        if "学士的羽笔"@ == "勇士的期许"@ {
            assert("学士的羽笔"@[0] == "勇士的期许"@[0]);
            assert(false);
        }
        if "学士的羽笔"@ == "勇士的坚毅"@ {
            assert("学士的羽笔"@[0] == "勇士的坚毅"@[0]);
            assert(false);
        }
        if "学士的羽笔"@ == "勇士的壮行"@ {
            assert("学士的羽笔"@[0] == "勇士的壮行"@[0]);
            assert(false);
        }
        if "学士的羽笔"@ == "勇士的冠冕"@ {
            assert("学士的羽笔"@[0] == "勇士的冠冕"@[0]);
            assert(false);
        }
        if "学士的羽笔"@ == "流放者之花"@ {
            assert("学士的羽笔"@[0] == "流放者之花"@[0]);
            assert(false);
        }
        if "学士的羽笔"@ == "流放者之羽"@ {
            assert("学士的羽笔"@[0] == "流放者之羽"@[0]);
            assert(false);
        }
        if "学士的羽笔"@ == "流放者怀表"@ {
            assert("学士的羽笔"@[0] == "流放者怀表"@[0]);
            assert(false);
        }
        if "学士的羽笔"@ == "流放者之杯"@ {
            assert("学士的羽笔"@[0] == "流放者之杯"@[0]);
            assert(false);
        }
        if "学士的羽笔"@ == "流放者头冠"@ {
            assert("学士的羽笔"@[0] == "流放者头冠"@[0]);
            assert(false);
        }
        if "学士的羽笔"@ == "赌徒的胸花"@ {
            assert("学士的羽笔"@[0] == "赌徒的胸花"@[0]);
            assert(false);
        }
        if "学士的羽笔"@ == "赌徒的羽饰"@ {
            assert("学士的羽笔"@[0] == "赌徒的羽饰"@[0]);
            assert(false);
        }
        if "学士的羽笔"@ == "赌徒的怀表"@ {
            assert("学士的羽笔"@[0] == "赌徒的怀表"@[0]);
            assert(false);
        }
        if "学士的羽笔"@ == "赌徒的骰盅"@ {
            assert("学士的羽笔"@[0] == "赌徒的骰盅"@[0]);
            assert(false);
        }
        if "学士的羽笔"@ == "赌徒的耳环"@ {
            assert("学士的羽笔"@[0] == "赌徒的耳环"@[0]);
            assert(false);
        }
        if "学士的羽笔"@ == "教官的胸花"@ {
            assert("学士的羽笔"@[0] == "教官的胸花"@[0]);
            assert(false);
        }
        if "学士的羽笔"@ == "教官的羽饰"@ {
            assert("学士的羽笔"@[0] == "教官的羽饰"@[0]);
            assert(false);
        }
        if "学士的羽笔"@ == "教官的怀表"@ {
            assert("学士的羽笔"@[0] == "教官的怀表"@[0]);
            assert(false);
        }
        if "学士的羽笔"@ == "教官的茶杯"@ {
            assert("学士的羽笔"@[0] == "教官的茶杯"@[0]);
            assert(false);
        }
        if "学士的羽笔"@ == "教官的帽子"@ {
            assert("学士的羽笔"@[0] == "教官的帽子"@[0]);
            assert(false);
        }
        if "学士的羽笔"@ == "武人的红花"@ {
            assert("学士的羽笔"@[0] == "武人的红花"@[0]);
            assert(false);
        }
        if "学士的羽笔"@ == "武人的羽饰"@ {
            assert("学士的羽笔"@[0] == "武人的羽饰"@[0]);
            assert(false);
        }
        if "学士的羽笔"@ == "武人的水漏"@ {
            assert("学士的羽笔"@[0] == "武人的水漏"@[0]);
            assert(false);
        }
        if "学士的羽笔"@ == "武人的酒杯"@ {
            assert("学士的羽笔"@[0] == "武人的酒杯"@[0]);
            assert(false);
        }
        if "学士的羽笔"@ == "武人的头巾"@ {
            assert("学士的羽笔"@[0] == "武人的头巾"@[0]);
            assert(false);
        }
        if "学士的羽笔"@ == "学士的书签"@ {
            assert("学士的羽笔"@[3] == "学士的书签"@[3]);
            assert(false);
        }
        assert(name_id(corpus_at(117)) == 117);
    } else if i == 118 {
        if "学士的时钟"@ == "雷鸟的怜悯"@ {
            assert("学士的时钟"@[0] == "雷鸟的怜悯"@[0]);
            assert(false);
        }
        if "学士的时钟"@ == "雷灾的孑遗"@ {
            assert("学士的时钟"@[0] == "雷灾的孑遗"@[0]);
            assert(false);
        }
        if "学士的时钟"@ == "雷霆的时计"@ {
            assert("学士的时钟"@[0] == "雷霆的时计"@[0]);
            assert(false);
        }
        if "学士的时钟"@ == "降雷的凶兆"@ {
            assert("学士的时钟"@[0] == "降雷的凶兆"@[0]);
            assert(false);
        }
        if "学士的时钟"@ == "唤雷的头冠"@ {
            assert("学士的时钟"@[0] == "唤雷的头冠"@[0]);
            assert(false);
        }
        if "学士的时钟"@ == "乐团的晨光"@ {
            assert("学士的时钟"@[0] == "乐团的晨光"@[0]);
            assert(false);
        }
        if "学士的时钟"@ == "琴师的箭羽"@ {
            assert("学士的时钟"@[0] == "琴师的箭羽"@[0]);
            assert(false);
        }
        if "学士的时钟"@ == "终幕的时计"@ {
            assert("学士的时钟"@[0] == "终幕的时计"@[0]);
            assert(false);
        }
        if "学士的时钟"@ == "终末的时计"@ {
            assert("学士的时钟"@[0] == "终末的时计"@[0]);
            assert(false);
        }
        if "学士的时钟"@ == "吟游者之壶"@ {
            assert("学士的时钟"@[0] == "吟游者之壶"@[0]);
            assert(false);
        }
        if "学士的时钟"@ == "指挥的礼帽"@ {
            assert("学士的时钟"@[0] == "指挥的礼帽"@[0]);
            assert(false);
        }
        if "学士的时钟"@ == "战狂的蔷薇"@ {
            assert("学士的时钟"@[0] == "战狂的蔷薇"@[0]);
            assert(false);
        }
        if "学士的时钟"@ == "战狂的翎羽"@ {
            assert("学士的时钟"@[0] == "战狂的翎羽"@[0]);
            assert(false);
        }
        if "学士的时钟"@ == "战狂的时计"@ {
            assert("学士的时钟"@[0] == "战狂的时计"@[0]);
            assert(false);
        }
        if "学士的时钟"@ == "战狂的骨杯"@ {
            assert("学士的时钟"@[0] == "战狂的骨杯"@[0]);
            assert(false);
        }
        if "学士的时钟"@ == "战狂的鬼面"@ {
            assert("学士的时钟"@[0] == "战狂的鬼面"@[0]);
            assert(false);
        }
        if "学士的时钟"@ == "勇士的勋章"@ {
            assert("学士的时钟"@[0] == "勇士的勋章"@[0]);
            assert(false);
        }
        if "学士的时钟"@ == "勇士的期许"@ {
            assert("学士的时钟"@[0] == "勇士的期许"@[0]);
            assert(false);
        }
        if "学士的时钟"@ == "勇士的坚毅"@ {
            assert("学士的时钟"@[0] == "勇士的坚毅"@[0]);
            assert(false);
        }
        if "学士的时钟"@ == "勇士的壮行"@ {
            assert("学士的时钟"@[0] == "勇士的壮行"@[0]);
            assert(false);
        }
        if "学士的时钟"@ == "勇士的冠冕"@ {
            assert("学士的时钟"@[0] == "勇士的冠冕"@[0]);
            assert(false);
        }
        if "学士的时钟"@ == "流放者之花"@ {
            assert("学士的时钟"@[0] == "流放者之花"@[0]);
            assert(false);
        }
        if "学士的时钟"@ == "流放者之羽"@ {
            assert("学士的时钟"@[0] == "流放者之羽"@[0]);
            assert(false);
        }
        if "学士的时钟"@ == "流放者怀表"@ {
            assert("学士的时钟"@[0] == "流放者怀表"@[0]);
            assert(false);
        }
        if "学士的时钟"@ == "流放者之杯"@ {
            assert("学士的时钟"@[0] == "流放者之杯"@[0]);
            assert(false);
        }
        if "学士的时钟"@ == "流放者头冠"@ {
            assert("学士的时钟"@[0] == "流放者头冠"@[0]);
            assert(false);
        }
        if "学士的时钟"@ == "赌徒的胸花"@ {
            assert("学士的时钟"@[0] == "赌徒的胸花"@[0]);
            assert(false);
        }
        if "学士的时钟"@ == "赌徒的羽饰"@ {
            assert("学士的时钟"@[0] == "赌徒的羽饰"@[0]);
            assert(false);
        }
        if "学士的时钟"@ == "赌徒的怀表"@ {
            assert("学士的时钟"@[0] == "赌徒的怀表"@[0]);
            assert(false);
        }
        if "学士的时钟"@ == "赌徒的骰盅"@ {
            assert("学士的时钟"@[0] == "赌徒的骰盅"@[0]);
            assert(false);
        }
        if "学士的时钟"@ == "赌徒的耳环"@ {
            assert("学士的时钟"@[0] == "赌徒的耳环"@[0]);
            assert(false);
        }
        if "学士的时钟"@ == "教官的胸花"@ {
            assert("学士的时钟"@[0] == "教官的胸花"@[0]);
            assert(false);
        }
        if "学士的时钟"@ == "教官的羽饰"@ {
            assert("学士的时钟"@[0] == "教官的羽饰"@[0]);
            assert(false);
        }
        if "学士的时钟"@ == "教官的怀表"@ {
            assert("学士的时钟"@[0] == "教官的怀表"@[0]);
            assert(false);
        }
        if "学士的时钟"@ == "教官的茶杯"@ {
            assert("学士的时钟"@[0] == "教官的茶杯"@[0]);
            assert(false);
        }
        if "学士的时钟"@ == "教官的帽子"@ {
            assert("学士的时钟"@[0] == "教官的帽子"@[0]);
            assert(false);
        }
        if "学士的时钟"@ == "武人的红花"@ {
            assert("学士的时钟"@[0] == "武人的红花"@[0]);
            assert(false);
        }
        if "学士的时钟"@ == "武人的羽饰"@ {
            assert("学士的时钟"@[0] == "武人的羽饰"@[0]);
            assert(false);
        }
        if "学士的时钟"@ == "武人的水漏"@ {
            assert("学士的时钟"@[0] == "武人的水漏"@[0]);
            assert(false);
        }
        if "学士的时钟"@ == "武人的酒杯"@ {
            assert("学士的时钟"@[0] == "武人的酒杯"@[0]);
            assert(false);
        }
        if "学士的时钟"@ == "武人的头巾"@ {
            assert("学士的时钟"@[0] == "武人的头巾"@[0]);
            assert(false);
        }
        if "学士的时钟"@ == "学士的书签"@ {
            assert("学士的时钟"@[3] == "学士的书签"@[3]);
            assert(false);
        }
        if "学士的时钟"@ == "学士的羽笔"@ {
            assert("学士的时钟"@[3] == "学士的羽笔"@[3]);
            assert(false);
        }
        assert(name_id(corpus_at(118)) == 118);
    } else if i == 119 {
        if "学士的墨杯"@ == "雷鸟的怜悯"@ {
            assert("学士的墨杯"@[0] == "雷鸟的怜悯"@[0]);
            assert(false);
        }
        if "学士的墨杯"@ == "雷灾的孑遗"@ {
            assert("学士的墨杯"@[0] == "雷灾的孑遗"@[0]);
            assert(false);
        }
        if "学士的墨杯"@ == "雷霆的时计"@ {
            assert("学士的墨杯"@[0] == "雷霆的时计"@[0]);
            assert(false);
        }
        if "学士的墨杯"@ == "降雷的凶兆"@ {
            assert("学士的墨杯"@[0] == "降雷的凶兆"@[0]);
            assert(false);
        }
        if "学士的墨杯"@ == "唤雷的头冠"@ {
            assert("学士的墨杯"@[0] == "唤雷的头冠"@[0]);
            assert(false);
        }
        if "学士的墨杯"@ == "乐团的晨光"@ {
            assert("学士的墨杯"@[0] == "乐团的晨光"@[0]);
            assert(false);
        }
        if "学士的墨杯"@ == "琴师的箭羽"@ {
            assert("学士的墨杯"@[0] == "琴师的箭羽"@[0]);
            assert(false);
        }
        if "学士的墨杯"@ == "终幕的时计"@ {
            assert("学士的墨杯"@[0] == "终幕的时计"@[0]);
            assert(false);
        }
        if "学士的墨杯"@ == "终末的时计"@ {
            assert("学士的墨杯"@[0] == "终末的时计"@[0]);
            assert(false);
        }
        if "学士的墨杯"@ == "吟游者之壶"@ {
            assert("学士的墨杯"@[0] == "吟游者之壶"@[0]);
            assert(false);
        }
        if "学士的墨杯"@ == "指挥的礼帽"@ {
            assert("学士的墨杯"@[0] == "指挥的礼帽"@[0]);
            assert(false);
        }
        if "学士的墨杯"@ == "战狂的蔷薇"@ {
            assert("学士的墨杯"@[0] == "战狂的蔷薇"@[0]);
            assert(false);
        }
        if "学士的墨杯"@ == "战狂的翎羽"@ {
            assert("学士的墨杯"@[0] == "战狂的翎羽"@[0]);
            assert(false);
        }
        if "学士的墨杯"@ == "战狂的时计"@ {
            assert("学士的墨杯"@[0] == "战狂的时计"@[0]);
            assert(false);
        }
        if "学士的墨杯"@ == "战狂的骨杯"@ {
            assert("学士的墨杯"@[0] == "战狂的骨杯"@[0]);
            assert(false);
        }
        if "学士的墨杯"@ == "战狂的鬼面"@ {
            assert("学士的墨杯"@[0] == "战狂的鬼面"@[0]);
            assert(false);
        }
        if "学士的墨杯"@ == "勇士的勋章"@ {
            assert("学士的墨杯"@[0] == "勇士的勋章"@[0]);
            assert(false);
        }
        if "学士的墨杯"@ == "勇士的期许"@ {
            assert("学士的墨杯"@[0] == "勇士的期许"@[0]);
            assert(false);
        }
        if "学士的墨杯"@ == "勇士的坚毅"@ {
            assert("学士的墨杯"@[0] == "勇士的坚毅"@[0]);
            assert(false);
        }
        if "学士的墨杯"@ == "勇士的壮行"@ {
            assert("学士的墨杯"@[0] == "勇士的壮行"@[0]);
            assert(false);
        }
        if "学士的墨杯"@ == "勇士的冠冕"@ {
            assert("学士的墨杯"@[0] == "勇士的冠冕"@[0]);
            assert(false);
        }
        if "学士的墨杯"@ == "流放者之花"@ {
            assert("学士的墨杯"@[0] == "流放者之花"@[0]);
            assert(false);
        }
        if "学士的墨杯"@ == "流放者之羽"@ {
            assert("学士的墨杯"@[0] == "流放者之羽"@[0]);
            assert(false);
        }
        if "学士的墨杯"@ == "流放者怀表"@ {
            assert("学士的墨杯"@[0] == "流放者怀表"@[0]);
            assert(false);
        }
        if "学士的墨杯"@ == "流放者之杯"@ {
            assert("学士的墨杯"@[0] == "流放者之杯"@[0]);
            assert(false);
        }
        if "学士的墨杯"@ == "流放者头冠"@ {
            assert("学士的墨杯"@[0] == "流放者头冠"@[0]);
            assert(false);
        }
        if "学士的墨杯"@ == "赌徒的胸花"@ {
            assert("学士的墨杯"@[0] == "赌徒的胸花"@[0]);
            assert(false);
        }
        if "学士的墨杯"@ == "赌徒的羽饰"@ {
            assert("学士的墨杯"@[0] == "赌徒的羽饰"@[0]);
            assert(false);
        }
        if "学士的墨杯"@ == "赌徒的怀表"@ {
            assert("学士的墨杯"@[0] == "赌徒的怀表"@[0]);
            assert(false);
        }
        if "学士的墨杯"@ == "赌徒的骰盅"@ {
            assert("学士的墨杯"@[0] == "赌徒的骰盅"@[0]);
            assert(false);
        }
        if "学士的墨杯"@ == "赌徒的耳环"@ {
            assert("学士的墨杯"@[0] == "赌徒的耳环"@[0]);
            assert(false);
        }
        if "学士的墨杯"@ == "教官的胸花"@ {
            assert("学士的墨杯"@[0] == "教官的胸花"@[0]);
            assert(false);
        }
        if "学士的墨杯"@ == "教官的羽饰"@ {
            assert("学士的墨杯"@[0] == "教官的羽饰"@[0]);
            assert(false);
        }
        if "学士的墨杯"@ == "教官的怀表"@ {
            assert("学士的墨杯"@[0] == "教官的怀表"@[0]);
            assert(false);
        }
        if "学士的墨杯"@ == "教官的茶杯"@ {
            assert("学士的墨杯"@[0] == "教官的茶杯"@[0]);
            assert(false);
        }
        if "学士的墨杯"@ == "教官的帽子"@ {
            assert("学士的墨杯"@[0] == "教官的帽子"@[0]);
            assert(false);
        }
        if "学士的墨杯"@ == "武人的红花"@ {
            assert("学士的墨杯"@[0] == "武人的红花"@[0]);
            assert(false);
        }
        if "学士的墨杯"@ == "武人的羽饰"@ {
            assert("学士的墨杯"@[0] == "武人的羽饰"@[0]);
            assert(false);
        }
        if "学士的墨杯"@ == "武人的水漏"@ {
            assert("学士的墨杯"@[0] == "武人的水漏"@[0]);
            assert(false);
        }
        if "学士的墨杯"@ == "武人的酒杯"@ {
            assert("学士的墨杯"@[0] == "武人的酒杯"@[0]);
            assert(false);
        }
        if "学士的墨杯"@ == "武人的头巾"@ {
            assert("学士的墨杯"@[0] == "武人的头巾"@[0]);
            assert(false);
        }
        if "学士的墨杯"@ == "学士的书签"@ {
            assert("学士的墨杯"@[3] == "学士的书签"@[3]);
            assert(false);
        }
        if "学士的墨杯"@ == "学士的羽笔"@ {
            assert("学士的墨杯"@[3] == "学士的羽笔"@[3]);
            assert(false);
        }
        if "学士的墨杯"@ == "学士的时钟"@ {
            assert("学士的墨杯"@[3] == "学士的时钟"@[3]);
            assert(false);
        }
        assert(name_id(corpus_at(119)) == 119);
    }
}

proof fn corpus_entry_chunk12(i: int)
    requires
        120 <= i < 130,
    ensures
        name_id(corpus_at(i)) == i,
{
    reveal_strlit("饰金胸花");
    reveal_strlit("追忆之风");
    reveal_strlit("坚铜罗盘");
    reveal_strlit("沉波之盏");
    reveal_strlit("酒渍船帽");
    reveal_strlit("宗室之花");
    reveal_strlit("宗室之翎");
    reveal_strlit("宗室时计");
    reveal_strlit("宗室银瓮");
    reveal_strlit("宗室面具");
    reveal_strlit("夏祭之花");
    reveal_strlit("夏祭终末");
    reveal_strlit("夏祭之刻");
    reveal_strlit("夏祭水玉");
    reveal_strlit("夏祭之面");
    reveal_strlit("平雷之心");
    reveal_strlit("平雷之羽");
    reveal_strlit("平雷之刻");
    reveal_strlit("平雷之器");
    reveal_strlit("平雷之冠");
    reveal_strlit("雷鸟的怜悯");
    reveal_strlit("雷灾的孑遗");
    reveal_strlit("雷霆的时计");
    reveal_strlit("降雷的凶兆");
    reveal_strlit("唤雷的头冠");
    reveal_strlit("乐团的晨光");
    reveal_strlit("琴师的箭羽");
    reveal_strlit("终幕的时计");
    reveal_strlit("终末的时计");
    reveal_strlit("吟游者之壶");
    reveal_strlit("指挥的礼帽");
    reveal_strlit("战狂的蔷薇");
    reveal_strlit("战狂的翎羽");
    reveal_strlit("战狂的时计");
    reveal_strlit("战狂的骨杯");
    reveal_strlit("战狂的鬼面");
    reveal_strlit("勇士的勋章");
    reveal_strlit("勇士的期许");
    reveal_strlit("勇士的坚毅");
    reveal_strlit("勇士的壮行");
    reveal_strlit("勇士的冠冕");
    reveal_strlit("守护之花");
    reveal_strlit("守护徽印");
    reveal_strlit("守护座钟");
    reveal_strlit("守护之皿");
    reveal_strlit("守护束带");
    reveal_strlit("流放者之花");
    reveal_strlit("流放者之羽");
    reveal_strlit("流放者怀表");
    reveal_strlit("流放者之杯");
    reveal_strlit("流放者头冠");
    reveal_strlit("赌徒的胸花");
    reveal_strlit("赌徒的羽饰");
    reveal_strlit("赌徒的怀表");
    reveal_strlit("赌徒的骰盅");
    reveal_strlit("赌徒的耳环");
    reveal_strlit("教官的胸花");
    reveal_strlit("教官的羽饰");
    reveal_strlit("教官的怀表");
    reveal_strlit("教官的茶杯");
    reveal_strlit("教官的帽子");
    reveal_strlit("武人的红花");
    reveal_strlit("武人的羽饰");
    reveal_strlit("武人的水漏");
    reveal_strlit("武人的酒杯");
    reveal_strlit("武人的头巾");
    reveal_strlit("祭水礼冠");
    reveal_strlit("祭火礼冠");
    reveal_strlit("祭雷礼冠");
    reveal_strlit("祭冰礼冠");
    reveal_strlit("故人之心");
    reveal_strlit("归乡之羽");
    reveal_strlit("逐光之石");
    reveal_strlit("异国之盏");
    reveal_strlit("感别之冠");
    reveal_strlit("学士的书签");
    reveal_strlit("学士的羽笔");
    reveal_strlit("学士的时钟");
    reveal_strlit("学士的墨杯");
    reveal_strlit("学士的镜片");
    reveal_strlit("奇迹之花");
    reveal_strlit("奇迹之羽");
    reveal_strlit("奇迹之沙");
    reveal_strlit("奇迹之杯");
    reveal_strlit("奇迹耳坠");
    reveal_strlit("冒险家之花");
    reveal_strlit("冒险家尾羽");
    reveal_strlit("冒险家怀表");
    reveal_strlit("冒险家金杯");
    if i == 120 {
        if "学士的镜片"@ == "雷鸟的怜悯"@ {
            assert("学士的镜片"@[0] == "雷鸟的怜悯"@[0]);
            assert(false);
        }
        if "学士的镜片"@ == "雷灾的孑遗"@ {
            assert("学士的镜片"@[0] == "雷灾的孑遗"@[0]);
            assert(false);
        }
        if "学士的镜片"@ == "雷霆的时计"@ {
            assert("学士的镜片"@[0] == "雷霆的时计"@[0]);
            assert(false);
        }
        if "学士的镜片"@ == "降雷的凶兆"@ {
            assert("学士的镜片"@[0] == "降雷的凶兆"@[0]);
            assert(false);
        }
        if "学士的镜片"@ == "唤雷的头冠"@ {
            assert("学士的镜片"@[0] == "唤雷的头冠"@[0]);
            assert(false);
        }
        if "学士的镜片"@ == "乐团的晨光"@ {
            assert("学士的镜片"@[0] == "乐团的晨光"@[0]);
            assert(false);
        }
        if "学士的镜片"@ == "琴师的箭羽"@ {
            assert("学士的镜片"@[0] == "琴师的箭羽"@[0]);
            assert(false);
        }
        if "学士的镜片"@ == "终幕的时计"@ {
            assert("学士的镜片"@[0] == "终幕的时计"@[0]);
            assert(false);
        }
        if "学士的镜片"@ == "终末的时计"@ {
            assert("学士的镜片"@[0] == "终末的时计"@[0]);
            assert(false);
        }
        if "学士的镜片"@ == "吟游者之壶"@ {
            assert("学士的镜片"@[0] == "吟游者之壶"@[0]);
            assert(false);
        }
        if "学士的镜片"@ == "指挥的礼帽"@ {
            assert("学士的镜片"@[0] == "指挥的礼帽"@[0]);
            assert(false);
        }
        if "学士的镜片"@ == "战狂的蔷薇"@ {
            assert("学士的镜片"@[0] == "战狂的蔷薇"@[0]);
            assert(false);
        }
        if "学士的镜片"@ == "战狂的翎羽"@ {
            assert("学士的镜片"@[0] == "战狂的翎羽"@[0]);
            assert(false);
        }
        if "学士的镜片"@ == "战狂的时计"@ {
            assert("学士的镜片"@[0] == "战狂的时计"@[0]);
            assert(false);
        }
        if "学士的镜片"@ == "战狂的骨杯"@ {
            assert("学士的镜片"@[0] == "战狂的骨杯"@[0]);
            assert(false);
        }
        if "学士的镜片"@ == "战狂的鬼面"@ {
            assert("学士的镜片"@[0] == "战狂的鬼面"@[0]);
            assert(false);
        }
        if "学士的镜片"@ == "勇士的勋章"@ {
            assert("学士的镜片"@[0] == "勇士的勋章"@[0]);
            assert(false);
        }
        if "学士的镜片"@ == "勇士的期许"@ {
            assert("学士的镜片"@[0] == "勇士的期许"@[0]);
            assert(false);
        }
        if "学士的镜片"@ == "勇士的坚毅"@ {
            assert("学士的镜片"@[0] == "勇士的坚毅"@[0]);
            assert(false);
        }
        if "学士的镜片"@ == "勇士的壮行"@ {
            assert("学士的镜片"@[0] == "勇士的壮行"@[0]);
            assert(false);
        }
        if "学士的镜片"@ == "勇士的冠冕"@ {
            assert("学士的镜片"@[0] == "勇士的冠冕"@[0]);
            assert(false);
        }
        if "学士的镜片"@ == "流放者之花"@ {
            assert("学士的镜片"@[0] == "流放者之花"@[0]);
            assert(false);
        }
        if "学士的镜片"@ == "流放者之羽"@ {
            assert("学士的镜片"@[0] == "流放者之羽"@[0]);
            assert(false);
        }
        if "学士的镜片"@ == "流放者怀表"@ {
            assert("学士的镜片"@[0] == "流放者怀表"@[0]);
            assert(false);
        }
        if "学士的镜片"@ == "流放者之杯"@ {
            assert("学士的镜片"@[0] == "流放者之杯"@[0]);
            assert(false);
        }
        if "学士的镜片"@ == "流放者头冠"@ {
            assert("学士的镜片"@[0] == "流放者头冠"@[0]);
            assert(false);
        }
        if "学士的镜片"@ == "赌徒的胸花"@ {
            assert("学士的镜片"@[0] == "赌徒的胸花"@[0]);
            assert(false);
        }
        if "学士的镜片"@ == "赌徒的羽饰"@ {
            assert("学士的镜片"@[0] == "赌徒的羽饰"@[0]);
            assert(false);
        }
        if "学士的镜片"@ == "赌徒的怀表"@ {
            assert("学士的镜片"@[0] == "赌徒的怀表"@[0]);
            assert(false);
        }
        if "学士的镜片"@ == "赌徒的骰盅"@ {
            assert("学士的镜片"@[0] == "赌徒的骰盅"@[0]);
            assert(false);
        }
        if "学士的镜片"@ == "赌徒的耳环"@ {
            assert("学士的镜片"@[0] == "赌徒的耳环"@[0]);
            assert(false);
        }
        if "学士的镜片"@ == "教官的胸花"@ {
            assert("学士的镜片"@[0] == "教官的胸花"@[0]);
            assert(false);
        }
        if "学士的镜片"@ == "教官的羽饰"@ {
            assert("学士的镜片"@[0] == "教官的羽饰"@[0]);
            assert(false);
        }
        if "学士的镜片"@ == "教官的怀表"@ {
            assert("学士的镜片"@[0] == "教官的怀表"@[0]);
            assert(false);
        }
        if "学士的镜片"@ == "教官的茶杯"@ {
            assert("学士的镜片"@[0] == "教官的茶杯"@[0]);
            assert(false);
        }
        if "学士的镜片"@ == "教官的帽子"@ {
            assert("学士的镜片"@[0] == "教官的帽子"@[0]);
            assert(false);
        }
        if "学士的镜片"@ == "武人的红花"@ {
            assert("学士的镜片"@[0] == "武人的红花"@[0]);
            assert(false);
        }
        if "学士的镜片"@ == "武人的羽饰"@ {
            assert("学士的镜片"@[0] == "武人的羽饰"@[0]);
            assert(false);
        }
        if "学士的镜片"@ == "武人的水漏"@ {
            assert("学士的镜片"@[0] == "武人的水漏"@[0]);
            assert(false);
        }
        if "学士的镜片"@ == "武人的酒杯"@ {
            assert("学士的镜片"@[0] == "武人的酒杯"@[0]);
            assert(false);
        }
        if "学士的镜片"@ == "武人的头巾"@ {
            assert("学士的镜片"@[0] == "武人的头巾"@[0]);
            assert(false);
        }
        if "学士的镜片"@ == "学士的书签"@ {
            assert("学士的镜片"@[3] == "学士的书签"@[3]);
            assert(false);
        }
        if "学士的镜片"@ == "学士的羽笔"@ {
            assert("学士的镜片"@[3] == "学士的羽笔"@[3]);
            assert(false);
        }
        if "学士的镜片"@ == "学士的时钟"@ {
            assert("学士的镜片"@[3] == "学士的时钟"@[3]);
            assert(false);
        }
        if "学士的镜片"@ == "学士的墨杯"@ {
            assert("学士的镜片"@[3] == "学士的墨杯"@[3]);
            assert(false);
        }
        assert(name_id(corpus_at(120)) == 120);
    } else if i == 121 {
        if "奇迹之花"@ == "饰金胸花"@ {
            assert("奇迹之花"@[0] == "饰金胸花"@[0]);
            assert(false);
        }
        if "奇迹之花"@ == "追忆之风"@ {
            assert("奇迹之花"@[0] == "追忆之风"@[0]);
            assert(false);
        }
        if "奇迹之花"@ == "坚铜罗盘"@ {
            assert("奇迹之花"@[0] == "坚铜罗盘"@[0]);
            assert(false);
        }
        if "奇迹之花"@ == "沉波之盏"@ {
            assert("奇迹之花"@[0] == "沉波之盏"@[0]);
            assert(false);
        }
        if "奇迹之花"@ == "酒渍船帽"@ {
            assert("奇迹之花"@[0] == "酒渍船帽"@[0]);
            assert(false);
        }
        if "奇迹之花"@ == "宗室之花"@ {
            assert("奇迹之花"@[0] == "宗室之花"@[0]);
            assert(false);
        }
        if "奇迹之花"@ == "宗室之翎"@ {
            assert("奇迹之花"@[0] == "宗室之翎"@[0]);
            assert(false);
        }
        if "奇迹之花"@ == "宗室时计"@ {
            assert("奇迹之花"@[0] == "宗室时计"@[0]);
            assert(false);
        }
        if "奇迹之花"@ == "宗室银瓮"@ {
            assert("奇迹之花"@[0] == "宗室银瓮"@[0]);
            assert(false);
        }
        if "奇迹之花"@ == "宗室面具"@ {
            assert("奇迹之花"@[0] == "宗室面具"@[0]);
            assert(false);
        }
        if "奇迹之花"@ == "夏祭之花"@ {
            assert("奇迹之花"@[0] == "夏祭之花"@[0]);
            assert(false);
        }
        if "奇迹之花"@ == "夏祭终末"@ {
            assert("奇迹之花"@[0] == "夏祭终末"@[0]);
            assert(false);
        }
        if "奇迹之花"@ == "夏祭之刻"@ {
            assert("奇迹之花"@[0] == "夏祭之刻"@[0]);
            assert(false);
        }
        if "奇迹之花"@ == "夏祭水玉"@ {
            assert("奇迹之花"@[0] == "夏祭水玉"@[0]);
            assert(false);
        }
        if "奇迹之花"@ == "夏祭之面"@ {
            assert("奇迹之花"@[0] == "夏祭之面"@[0]);
            assert(false);
        }
        if "奇迹之花"@ == "平雷之心"@ {
            assert("奇迹之花"@[0] == "平雷之心"@[0]);
            assert(false);
        }
        if "奇迹之花"@ == "平雷之羽"@ {
            assert("奇迹之花"@[0] == "平雷之羽"@[0]);
            assert(false);
        }
        if "奇迹之花"@ == "平雷之刻"@ {
            assert("奇迹之花"@[0] == "平雷之刻"@[0]);
            assert(false);
        }
        if "奇迹之花"@ == "平雷之器"@ {
            assert("奇迹之花"@[0] == "平雷之器"@[0]);
            assert(false);
        }
        if "奇迹之花"@ == "平雷之冠"@ {
            assert("奇迹之花"@[0] == "平雷之冠"@[0]);
            assert(false);
        }
        if "奇迹之花"@ == "守护之花"@ {
            assert("奇迹之花"@[0] == "守护之花"@[0]);
            assert(false);
        }
        if "奇迹之花"@ == "守护徽印"@ {
            assert("奇迹之花"@[0] == "守护徽印"@[0]);
            assert(false);
        }
        if "奇迹之花"@ == "守护座钟"@ {
            assert("奇迹之花"@[0] == "守护座钟"@[0]);
            assert(false);
        }
        if "奇迹之花"@ == "守护之皿"@ {
            assert("奇迹之花"@[0] == "守护之皿"@[0]);
            assert(false);
        }
        if "奇迹之花"@ == "守护束带"@ {
            assert("奇迹之花"@[0] == "守护束带"@[0]);
            assert(false);
        }
        if "奇迹之花"@ == "祭水礼冠"@ {
            assert("奇迹之花"@[0] == "祭水礼冠"@[0]);
            assert(false);
        }
        if "奇迹之花"@ == "祭火礼冠"@ {
            assert("奇迹之花"@[0] == "祭火礼冠"@[0]);
            assert(false);
        }
        if "奇迹之花"@ == "祭雷礼冠"@ {
            assert("奇迹之花"@[0] == "祭雷礼冠"@[0]);
            assert(false);
        }
        if "奇迹之花"@ == "祭冰礼冠"@ {
            assert("奇迹之花"@[0] == "祭冰礼冠"@[0]);
            assert(false);
        }
        if "奇迹之花"@ == "故人之心"@ {
            assert("奇迹之花"@[0] == "故人之心"@[0]);
            assert(false);
        }
        if "奇迹之花"@ == "归乡之羽"@ {
            assert("奇迹之花"@[0] == "归乡之羽"@[0]);
            assert(false);
        }
        if "奇迹之花"@ == "逐光之石"@ {
            assert("奇迹之花"@[0] == "逐光之石"@[0]);
            assert(false);
        }
        if "奇迹之花"@ == "异国之盏"@ {
            assert("奇迹之花"@[0] == "异国之盏"@[0]);
            assert(false);
        }
        if "奇迹之花"@ == "感别之冠"@ {
            assert("奇迹之花"@[0] == "感别之冠"@[0]);
            assert(false);
        }
        assert(name_id(corpus_at(121)) == 121);
    } else if i == 122 {
        if "奇迹之羽"@ == "饰金胸花"@ {
            assert("奇迹之羽"@[0] == "饰金胸花"@[0]);
            assert(false);
        }
        if "奇迹之羽"@ == "追忆之风"@ {
            assert("奇迹之羽"@[0] == "追忆之风"@[0]);
            assert(false);
        }
        if "奇迹之羽"@ == "坚铜罗盘"@ {
            assert("奇迹之羽"@[0] == "坚铜罗盘"@[0]);
            assert(false);
        }
        if "奇迹之羽"@ == "沉波之盏"@ {
            assert("奇迹之羽"@[0] == "沉波之盏"@[0]);
            assert(false);
        }
        if "奇迹之羽"@ == "酒渍船帽"@ {
            assert("奇迹之羽"@[0] == "酒渍船帽"@[0]);
            assert(false);
        }
        if "奇迹之羽"@ == "宗室之花"@ {
            assert("奇迹之羽"@[0] == "宗室之花"@[0]);
            assert(false);
        }
        if "奇迹之羽"@ == "宗室之翎"@ {
            assert("奇迹之羽"@[0] == "宗室之翎"@[0]);
            assert(false);
        }
        if "奇迹之羽"@ == "宗室时计"@ {
            assert("奇迹之羽"@[0] == "宗室时计"@[0]);
            assert(false);
        }
        if "奇迹之羽"@ == "宗室银瓮"@ {
            assert("奇迹之羽"@[0] == "宗室银瓮"@[0]);
            assert(false);
        }
        if "奇迹之羽"@ == "宗室面具"@ {
            assert("奇迹之羽"@[0] == "宗室面具"@[0]);
            assert(false);
        }
        if "奇迹之羽"@ == "夏祭之花"@ {
            assert("奇迹之羽"@[0] == "夏祭之花"@[0]);
            assert(false);
        }
        if "奇迹之羽"@ == "夏祭终末"@ {
            assert("奇迹之羽"@[0] == "夏祭终末"@[0]);
            assert(false);
        }
        if "奇迹之羽"@ == "夏祭之刻"@ {
            assert("奇迹之羽"@[0] == "夏祭之刻"@[0]);
            assert(false);
        }
        if "奇迹之羽"@ == "夏祭水玉"@ {
            assert("奇迹之羽"@[0] == "夏祭水玉"@[0]);
            assert(false);
        }
        if "奇迹之羽"@ == "夏祭之面"@ {
            assert("奇迹之羽"@[0] == "夏祭之面"@[0]);
            assert(false);
        }
        if "奇迹之羽"@ == "平雷之心"@ {
            assert("奇迹之羽"@[0] == "平雷之心"@[0]);
            assert(false);
        }
        if "奇迹之羽"@ == "平雷之羽"@ {
            assert("奇迹之羽"@[0] == "平雷之羽"@[0]);
            assert(false);
        }
        if "奇迹之羽"@ == "平雷之刻"@ {
            assert("奇迹之羽"@[0] == "平雷之刻"@[0]);
            assert(false);
        }
        if "奇迹之羽"@ == "平雷之器"@ {
            assert("奇迹之羽"@[0] == "平雷之器"@[0]);
            assert(false);
        }
        if "奇迹之羽"@ == "平雷之冠"@ {
            assert("奇迹之羽"@[0] == "平雷之冠"@[0]);
            assert(false);
        }
        if "奇迹之羽"@ == "守护之花"@ {
            assert("奇迹之羽"@[0] == "守护之花"@[0]);
            assert(false);
        }
        if "奇迹之羽"@ == "守护徽印"@ {
            assert("奇迹之羽"@[0] == "守护徽印"@[0]);
            assert(false);
        }
        if "奇迹之羽"@ == "守护座钟"@ {
            assert("奇迹之羽"@[0] == "守护座钟"@[0]);
            assert(false);
        }
        if "奇迹之羽"@ == "守护之皿"@ {
            assert("奇迹之羽"@[0] == "守护之皿"@[0]);
            assert(false);
        }
        if "奇迹之羽"@ == "守护束带"@ {
            assert("奇迹之羽"@[0] == "守护束带"@[0]);
            assert(false);
        }
        if "奇迹之羽"@ == "祭水礼冠"@ {
            assert("奇迹之羽"@[0] == "祭水礼冠"@[0]);
            assert(false);
        }
        if "奇迹之羽"@ == "祭火礼冠"@ {
            assert("奇迹之羽"@[0] == "祭火礼冠"@[0]);
            assert(false);
        }
        if "奇迹之羽"@ == "祭雷礼冠"@ {
            assert("奇迹之羽"@[0] == "祭雷礼冠"@[0]);
            assert(false);
        }
        if "奇迹之羽"@ == "祭冰礼冠"@ {
            assert("奇迹之羽"@[0] == "祭冰礼冠"@[0]);
            assert(false);
        }
        if "奇迹之羽"@ == "故人之心"@ {
            assert("奇迹之羽"@[0] == "故人之心"@[0]);
            assert(false);
        }
        if "奇迹之羽"@ == "归乡之羽"@ {
            assert("奇迹之羽"@[0] == "归乡之羽"@[0]);
            assert(false);
        }
        if "奇迹之羽"@ == "逐光之石"@ {
            assert("奇迹之羽"@[0] == "逐光之石"@[0]);
            assert(false);
        }
        if "奇迹之羽"@ == "异国之盏"@ {
            assert("奇迹之羽"@[0] == "异国之盏"@[0]);
            assert(false);
        }
        if "奇迹之羽"@ == "感别之冠"@ {
            assert("奇迹之羽"@[0] == "感别之冠"@[0]);
            assert(false);
        }
        if "奇迹之羽"@ == "奇迹之花"@ {
            assert("奇迹之羽"@[3] == "奇迹之花"@[3]);
            assert(false);
        }
        assert(name_id(corpus_at(122)) == 122);
    } else if i == 123 {
        if "奇迹之沙"@ == "饰金胸花"@ {
            assert("奇迹之沙"@[0] == "饰金胸花"@[0]);
            assert(false);
        }
        if "奇迹之沙"@ == "追忆之风"@ {
            assert("奇迹之沙"@[0] == "追忆之风"@[0]);
            assert(false);
        }
        if "奇迹之沙"@ == "坚铜罗盘"@ {
            assert("奇迹之沙"@[0] == "坚铜罗盘"@[0]);
            assert(false);
        }
        if "奇迹之沙"@ == "沉波之盏"@ {
            assert("奇迹之沙"@[0] == "沉波之盏"@[0]);
            assert(false);
        }
        if "奇迹之沙"@ == "酒渍船帽"@ {
            assert("奇迹之沙"@[0] == "酒渍船帽"@[0]);
            assert(false);
        }
        if "奇迹之沙"@ == "宗室之花"@ {
            assert("奇迹之沙"@[0] == "宗室之花"@[0]);
            assert(false);
        }
        if "奇迹之沙"@ == "宗室之翎"@ {
            assert("奇迹之沙"@[0] == "宗室之翎"@[0]);
            assert(false);
        }
        if "奇迹之沙"@ == "宗室时计"@ {
            assert("奇迹之沙"@[0] == "宗室时计"@[0]);
            assert(false);
        }
        if "奇迹之沙"@ == "宗室银瓮"@ {
            assert("奇迹之沙"@[0] == "宗室银瓮"@[0]);
            assert(false);
        }
        if "奇迹之沙"@ == "宗室面具"@ {
            assert("奇迹之沙"@[0] == "宗室面具"@[0]);
            assert(false);
        }
        if "奇迹之沙"@ == "夏祭之花"@ {
            assert("奇迹之沙"@[0] == "夏祭之花"@[0]);
            assert(false);
        }
        if "奇迹之沙"@ == "夏祭终末"@ {
            assert("奇迹之沙"@[0] == "夏祭终末"@[0]);
            assert(false);
        }
        if "奇迹之沙"@ == "夏祭之刻"@ {
            assert("奇迹之沙"@[0] == "夏祭之刻"@[0]);
            assert(false);
        }
        if "奇迹之沙"@ == "夏祭水玉"@ {
            assert("奇迹之沙"@[0] == "夏祭水玉"@[0]);
            assert(false);
        }
        if "奇迹之沙"@ == "夏祭之面"@ {
            assert("奇迹之沙"@[0] == "夏祭之面"@[0]);
            assert(false);
        }
        if "奇迹之沙"@ == "平雷之心"@ {
            assert("奇迹之沙"@[0] == "平雷之心"@[0]);
            assert(false);
        }
        if "奇迹之沙"@ == "平雷之羽"@ {
            assert("奇迹之沙"@[0] == "平雷之羽"@[0]);
            assert(false);
        }
        if "奇迹之沙"@ == "平雷之刻"@ {
            assert("奇迹之沙"@[0] == "平雷之刻"@[0]);
            assert(false);
        }
        if "奇迹之沙"@ == "平雷之器"@ {
            assert("奇迹之沙"@[0] == "平雷之器"@[0]);
            assert(false);
        }
        if "奇迹之沙"@ == "平雷之冠"@ {
            assert("奇迹之沙"@[0] == "平雷之冠"@[0]);
            assert(false);
        }
        if "奇迹之沙"@ == "守护之花"@ {
            assert("奇迹之沙"@[0] == "守护之花"@[0]);
            assert(false);
        }
        if "奇迹之沙"@ == "守护徽印"@ {
            assert("奇迹之沙"@[0] == "守护徽印"@[0]);
            assert(false);
        }
        if "奇迹之沙"@ == "守护座钟"@ {
            assert("奇迹之沙"@[0] == "守护座钟"@[0]);
            assert(false);
        }
        if "奇迹之沙"@ == "守护之皿"@ {
            assert("奇迹之沙"@[0] == "守护之皿"@[0]);
            assert(false);
        }
        if "奇迹之沙"@ == "守护束带"@ {
            assert("奇迹之沙"@[0] == "守护束带"@[0]);
            assert(false);
        }
        if "奇迹之沙"@ == "祭水礼冠"@ {
            assert("奇迹之沙"@[0] == "祭水礼冠"@[0]);
            assert(false);
        }
        if "奇迹之沙"@ == "祭火礼冠"@ {
            assert("奇迹之沙"@[0] == "祭火礼冠"@[0]);
            assert(false);
        }
        if "奇迹之沙"@ == "祭雷礼冠"@ {
            assert("奇迹之沙"@[0] == "祭雷礼冠"@[0]);
            assert(false);
        }
        if "奇迹之沙"@ == "祭冰礼冠"@ {
            assert("奇迹之沙"@[0] == "祭冰礼冠"@[0]);
            assert(false);
        }
        if "奇迹之沙"@ == "故人之心"@ {
            assert("奇迹之沙"@[0] == "故人之心"@[0]);
            assert(false);
        }
        if "奇迹之沙"@ == "归乡之羽"@ {
            assert("奇迹之沙"@[0] == "归乡之羽"@[0]);
            assert(false);
        }
        if "奇迹之沙"@ == "逐光之石"@ {
            assert("奇迹之沙"@[0] == "逐光之石"@[0]);
            assert(false);
        }
        if "奇迹之沙"@ == "异国之盏"@ {
            assert("奇迹之沙"@[0] == "异国之盏"@[0]);
            assert(false);
        }
        if "奇迹之沙"@ == "感别之冠"@ {
            assert("奇迹之沙"@[0] == "感别之冠"@[0]);
            assert(false);
        }
        if "奇迹之沙"@ == "奇迹之花"@ {
            assert("奇迹之沙"@[3] == "奇迹之花"@[3]);
            assert(false);
        }
        if "奇迹之沙"@ == "奇迹之羽"@ {
            assert("奇迹之沙"@[3] == "奇迹之羽"@[3]);
            assert(false);
        }
        assert(name_id(corpus_at(123)) == 123);
    } else if i == 124 {
        if "奇迹之杯"@ == "饰金胸花"@ {
            assert("奇迹之杯"@[0] == "饰金胸花"@[0]);
            assert(false);
        }
        if "奇迹之杯"@ == "追忆之风"@ {
            assert("奇迹之杯"@[0] == "追忆之风"@[0]);
            assert(false);
        }
        if "奇迹之杯"@ == "坚铜罗盘"@ {
            assert("奇迹之杯"@[0] == "坚铜罗盘"@[0]);
            assert(false);
        }
        if "奇迹之杯"@ == "沉波之盏"@ {
            assert("奇迹之杯"@[0] == "沉波之盏"@[0]);
            assert(false);
        }
        if "奇迹之杯"@ == "酒渍船帽"@ {
            assert("奇迹之杯"@[0] == "酒渍船帽"@[0]);
            assert(false);
        }
        if "奇迹之杯"@ == "宗室之花"@ {
            assert("奇迹之杯"@[0] == "宗室之花"@[0]);
            assert(false);
        }
        if "奇迹之杯"@ == "宗室之翎"@ {
            assert("奇迹之杯"@[0] == "宗室之翎"@[0]);
            assert(false);
        }
        if "奇迹之杯"@ == "宗室时计"@ {
            assert("奇迹之杯"@[0] == "宗室时计"@[0]);
            assert(false);
        }
        if "奇迹之杯"@ == "宗室银瓮"@ {
            assert("奇迹之杯"@[0] == "宗室银瓮"@[0]);
            assert(false);
        }
        if "奇迹之杯"@ == "宗室面具"@ {
            assert("奇迹之杯"@[0] == "宗室面具"@[0]);
            assert(false);
        }
        if "奇迹之杯"@ == "夏祭之花"@ {
            assert("奇迹之杯"@[0] == "夏祭之花"@[0]);
            assert(false);
        }
        if "奇迹之杯"@ == "夏祭终末"@ {
            assert("奇迹之杯"@[0] == "夏祭终末"@[0]);
            assert(false);
        }
        if "奇迹之杯"@ == "夏祭之刻"@ {
            assert("奇迹之杯"@[0] == "夏祭之刻"@[0]);
            assert(false);
        }
        if "奇迹之杯"@ == "夏祭水玉"@ {
            assert("奇迹之杯"@[0] == "夏祭水玉"@[0]);
            assert(false);
        }
        if "奇迹之杯"@ == "夏祭之面"@ {
            assert("奇迹之杯"@[0] == "夏祭之面"@[0]);
            assert(false);
        }
        if "奇迹之杯"@ == "平雷之心"@ {
            assert("奇迹之杯"@[0] == "平雷之心"@[0]);
            assert(false);
        }
        if "奇迹之杯"@ == "平雷之羽"@ {
            assert("奇迹之杯"@[0] == "平雷之羽"@[0]);
            assert(false);
        }
        if "奇迹之杯"@ == "平雷之刻"@ {
            assert("奇迹之杯"@[0] == "平雷之刻"@[0]);
            assert(false);
        }
        if "奇迹之杯"@ == "平雷之器"@ {
            assert("奇迹之杯"@[0] == "平雷之器"@[0]);
            assert(false);
        }
        if "奇迹之杯"@ == "平雷之冠"@ {
            assert("奇迹之杯"@[0] == "平雷之冠"@[0]);
            assert(false);
        }
        if "奇迹之杯"@ == "守护之花"@ {
            assert("奇迹之杯"@[0] == "守护之花"@[0]);
            assert(false);
        }
        if "奇迹之杯"@ == "守护徽印"@ {
            assert("奇迹之杯"@[0] == "守护徽印"@[0]);
            assert(false);
        }
        if "奇迹之杯"@ == "守护座钟"@ {
            assert("奇迹之杯"@[0] == "守护座钟"@[0]);
            assert(false);
        }
        if "奇迹之杯"@ == "守护之皿"@ {
            assert("奇迹之杯"@[0] == "守护之皿"@[0]);
            assert(false);
        }
        if "奇迹之杯"@ == "守护束带"@ {
            assert("奇迹之杯"@[0] == "守护束带"@[0]);
            assert(false);
        }
        if "奇迹之杯"@ == "祭水礼冠"@ {
            assert("奇迹之杯"@[0] == "祭水礼冠"@[0]);
            assert(false);
        }
        if "奇迹之杯"@ == "祭火礼冠"@ {
            assert("奇迹之杯"@[0] == "祭火礼冠"@[0]);
            assert(false);
        }
        if "奇迹之杯"@ == "祭雷礼冠"@ {
            assert("奇迹之杯"@[0] == "祭雷礼冠"@[0]);
            assert(false);
        }
        if "奇迹之杯"@ == "祭冰礼冠"@ {
            assert("奇迹之杯"@[0] == "祭冰礼冠"@[0]);
            assert(false);
        }
        if "奇迹之杯"@ == "故人之心"@ {
            assert("奇迹之杯"@[0] == "故人之心"@[0]);
            assert(false);
        }
        if "奇迹之杯"@ == "归乡之羽"@ {
            assert("奇迹之杯"@[0] == "归乡之羽"@[0]);
            assert(false);
        }
        if "奇迹之杯"@ == "逐光之石"@ {
            assert("奇迹之杯"@[0] == "逐光之石"@[0]);
            assert(false);
        }
        if "奇迹之杯"@ == "异国之盏"@ {
            assert("奇迹之杯"@[0] == "异国之盏"@[0]);
            assert(false);
        }
        if "奇迹之杯"@ == "感别之冠"@ {
            assert("奇迹之杯"@[0] == "感别之冠"@[0]);
            assert(false);
        }
        if "奇迹之杯"@ == "奇迹之花"@ {
            assert("奇迹之杯"@[3] == "奇迹之花"@[3]);
            assert(false);
        }
        if "奇迹之杯"@ == "奇迹之羽"@ {
            assert("奇迹之杯"@[3] == "奇迹之羽"@[3]);
            assert(false);
        }
        if "奇迹之杯"@ == "奇迹之沙"@ {
            assert("奇迹之杯"@[3] == "奇迹之沙"@[3]);
            assert(false);
        }
        assert(name_id(corpus_at(124)) == 124);
    } else if i == 125 {
        if "奇迹耳坠"@ == "饰金胸花"@ {
            assert("奇迹耳坠"@[0] == "饰金胸花"@[0]);
            assert(false);
        }
        if "奇迹耳坠"@ == "追忆之风"@ {
            assert("奇迹耳坠"@[0] == "追忆之风"@[0]);
            assert(false);
        }
        if "奇迹耳坠"@ == "坚铜罗盘"@ {
            assert("奇迹耳坠"@[0] == "坚铜罗盘"@[0]);
            assert(false);
        }
        if "奇迹耳坠"@ == "沉波之盏"@ {
            assert("奇迹耳坠"@[0] == "沉波之盏"@[0]);
            assert(false);
        }
        if "奇迹耳坠"@ == "酒渍船帽"@ {
            assert("奇迹耳坠"@[0] == "酒渍船帽"@[0]);
            assert(false);
        }
        if "奇迹耳坠"@ == "宗室之花"@ {
            assert("奇迹耳坠"@[0] == "宗室之花"@[0]);
            assert(false);
        }
        if "奇迹耳坠"@ == "宗室之翎"@ {
            assert("奇迹耳坠"@[0] == "宗室之翎"@[0]);
            assert(false);
        }
        if "奇迹耳坠"@ == "宗室时计"@ {
            assert("奇迹耳坠"@[0] == "宗室时计"@[0]);
            assert(false);
        }
        if "奇迹耳坠"@ == "宗室银瓮"@ {
            assert("奇迹耳坠"@[0] == "宗室银瓮"@[0]);
            assert(false);
        }
        if "奇迹耳坠"@ == "宗室面具"@ {
            assert("奇迹耳坠"@[0] == "宗室面具"@[0]);
            assert(false);
        }
        if "奇迹耳坠"@ == "夏祭之花"@ {
            assert("奇迹耳坠"@[0] == "夏祭之花"@[0]);
            assert(false);
        }
        if "奇迹耳坠"@ == "夏祭终末"@ {
            assert("奇迹耳坠"@[0] == "夏祭终末"@[0]);
            assert(false);
        }
        if "奇迹耳坠"@ == "夏祭之刻"@ {
            assert("奇迹耳坠"@[0] == "夏祭之刻"@[0]);
            assert(false);
        }
        if "奇迹耳坠"@ == "夏祭水玉"@ {
            assert("奇迹耳坠"@[0] == "夏祭水玉"@[0]);
            assert(false);
        }
        if "奇迹耳坠"@ == "夏祭之面"@ {
            assert("奇迹耳坠"@[0] == "夏祭之面"@[0]);
            assert(false);
        }
        if "奇迹耳坠"@ == "平雷之心"@ {
            assert("奇迹耳坠"@[0] == "平雷之心"@[0]);
            assert(false);
        }
        if "奇迹耳坠"@ == "平雷之羽"@ {
            assert("奇迹耳坠"@[0] == "平雷之羽"@[0]);
            assert(false);
        }
        if "奇迹耳坠"@ == "平雷之刻"@ {
            assert("奇迹耳坠"@[0] == "平雷之刻"@[0]);
            assert(false);
        }
        if "奇迹耳坠"@ == "平雷之器"@ {
            assert("奇迹耳坠"@[0] == "平雷之器"@[0]);
            assert(false);
        }
        if "奇迹耳坠"@ == "平雷之冠"@ {
            assert("奇迹耳坠"@[0] == "平雷之冠"@[0]);
            assert(false);
        }
        if "奇迹耳坠"@ == "守护之花"@ {
            assert("奇迹耳坠"@[0] == "守护之花"@[0]);
            assert(false);
        }
        if "奇迹耳坠"@ == "守护徽印"@ {
            assert("奇迹耳坠"@[0] == "守护徽印"@[0]);
            assert(false);
        }
        if "奇迹耳坠"@ == "守护座钟"@ {
            assert("奇迹耳坠"@[0] == "守护座钟"@[0]);
            assert(false);
        }
        if "奇迹耳坠"@ == "守护之皿"@ {
            assert("奇迹耳坠"@[0] == "守护之皿"@[0]);
            assert(false);
        }
        if "奇迹耳坠"@ == "守护束带"@ {
            assert("奇迹耳坠"@[0] == "守护束带"@[0]);
            assert(false);
        }
        if "奇迹耳坠"@ == "祭水礼冠"@ {
            assert("奇迹耳坠"@[0] == "祭水礼冠"@[0]);
            assert(false);
        }
        if "奇迹耳坠"@ == "祭火礼冠"@ {
            assert("奇迹耳坠"@[0] == "祭火礼冠"@[0]);
            assert(false);
        }
        if "奇迹耳坠"@ == "祭雷礼冠"@ {
            assert("奇迹耳坠"@[0] == "祭雷礼冠"@[0]);
            assert(false);
        }
        if "奇迹耳坠"@ == "祭冰礼冠"@ {
            assert("奇迹耳坠"@[0] == "祭冰礼冠"@[0]);
            assert(false);
        }
        if "奇迹耳坠"@ == "故人之心"@ {
            assert("奇迹耳坠"@[0] == "故人之心"@[0]);
            assert(false);
        }
        if "奇迹耳坠"@ == "归乡之羽"@ {
            assert("奇迹耳坠"@[0] == "归乡之羽"@[0]);
            assert(false);
        }
        if "奇迹耳坠"@ == "逐光之石"@ {
            assert("奇迹耳坠"@[0] == "逐光之石"@[0]);
            assert(false);
        }
        if "奇迹耳坠"@ == "异国之盏"@ {
            assert("奇迹耳坠"@[0] == "异国之盏"@[0]);
            assert(false);
        }
        if "奇迹耳坠"@ == "感别之冠"@ {
            assert("奇迹耳坠"@[0] == "感别之冠"@[0]);
            assert(false);
        }
        if "奇迹耳坠"@ == "奇迹之花"@ {
            assert("奇迹耳坠"@[2] == "奇迹之花"@[2]);
            assert(false);
        }
        if "奇迹耳坠"@ == "奇迹之羽"@ {
            assert("奇迹耳坠"@[2] == "奇迹之羽"@[2]);
            assert(false);
        }
        if "奇迹耳坠"@ == "奇迹之沙"@ {
            assert("奇迹耳坠"@[2] == "奇迹之沙"@[2]);
            assert(false);
        }
        if "奇迹耳坠"@ == "奇迹之杯"@ {
            assert("奇迹耳坠"@[2] == "奇迹之杯"@[2]);
            assert(false);
        }
        assert(name_id(corpus_at(125)) == 125);
    } else if i == 126 {
        if "冒险家之花"@ == "雷鸟的怜悯"@ {
            assert("冒险家之花"@[0] == "雷鸟的怜悯"@[0]);
            assert(false);
        }
        if "冒险家之花"@ == "雷灾的孑遗"@ {
            assert("冒险家之花"@[0] == "雷灾的孑遗"@[0]);
            assert(false);
        }
        if "冒险家之花"@ == "雷霆的时计"@ {
            assert("冒险家之花"@[0] == "雷霆的时计"@[0]);
            assert(false);
        }
        if "冒险家之花"@ == "降雷的凶兆"@ {
            assert("冒险家之花"@[0] == "降雷的凶兆"@[0]);
            assert(false);
        }
        if "冒险家之花"@ == "唤雷的头冠"@ {
            assert("冒险家之花"@[0] == "唤雷的头冠"@[0]);
            assert(false);
        }
        if "冒险家之花"@ == "乐团的晨光"@ {
            assert("冒险家之花"@[0] == "乐团的晨光"@[0]);
            assert(false);
        }
        if "冒险家之花"@ == "琴师的箭羽"@ {
            assert("冒险家之花"@[0] == "琴师的箭羽"@[0]);
            assert(false);
        }
        if "冒险家之花"@ == "终幕的时计"@ {
            assert("冒险家之花"@[0] == "终幕的时计"@[0]);
            assert(false);
        }
        if "冒险家之花"@ == "终末的时计"@ {
            assert("冒险家之花"@[0] == "终末的时计"@[0]);
            assert(false);
        }
        if "冒险家之花"@ == "吟游者之壶"@ {
            assert("冒险家之花"@[0] == "吟游者之壶"@[0]);
            assert(false);
        }
        if "冒险家之花"@ == "指挥的礼帽"@ {
            assert("冒险家之花"@[0] == "指挥的礼帽"@[0]);
            assert(false);
        }
        if "冒险家之花"@ == "战狂的蔷薇"@ {
            assert("冒险家之花"@[0] == "战狂的蔷薇"@[0]);
            assert(false);
        }
        if "冒险家之花"@ == "战狂的翎羽"@ {
            assert("冒险家之花"@[0] == "战狂的翎羽"@[0]);
            assert(false);
        }
        if "冒险家之花"@ == "战狂的时计"@ {
            assert("冒险家之花"@[0] == "战狂的时计"@[0]);
            assert(false);
        }
        if "冒险家之花"@ == "战狂的骨杯"@ {
            assert("冒险家之花"@[0] == "战狂的骨杯"@[0]);
            assert(false);
        }
        if "冒险家之花"@ == "战狂的鬼面"@ {
            assert("冒险家之花"@[0] == "战狂的鬼面"@[0]);
            assert(false);
        }
        if "冒险家之花"@ == "勇士的勋章"@ {
            assert("冒险家之花"@[0] == "勇士的勋章"@[0]);
            assert(false);
        }
        if "冒险家之花"@ == "勇士的期许"@ {
            assert("冒险家之花"@[0] == "勇士的期许"@[0]);
            assert(false);
        }
        if "冒险家之花"@ == "勇士的坚毅"@ {
            assert("冒险家之花"@[0] == "勇士的坚毅"@[0]);
            assert(false);
        }
        if "冒险家之花"@ == "勇士的壮行"@ {
            assert("冒险家之花"@[0] == "勇士的壮行"@[0]);
            assert(false);
        }
        if "冒险家之花"@ == "勇士的冠冕"@ {
            assert("冒险家之花"@[0] == "勇士的冠冕"@[0]);
            assert(false);
        }
        if "冒险家之花"@ == "流放者之花"@ {
            assert("冒险家之花"@[0] == "流放者之花"@[0]);
            assert(false);
        }
        if "冒险家之花"@ == "流放者之羽"@ {
            assert("冒险家之花"@[0] == "流放者之羽"@[0]);
            assert(false);
        }
        if "冒险家之花"@ == "流放者怀表"@ {
            assert("冒险家之花"@[0] == "流放者怀表"@[0]);
            assert(false);
        }
        if "冒险家之花"@ == "流放者之杯"@ {
            assert("冒险家之花"@[0] == "流放者之杯"@[0]);
            assert(false);
        }
        if "冒险家之花"@ == "流放者头冠"@ {
            assert("冒险家之花"@[0] == "流放者头冠"@[0]);
            assert(false);
        }
        if "冒险家之花"@ == "赌徒的胸花"@ {
            assert("冒险家之花"@[0] == "赌徒的胸花"@[0]);
            assert(false);
        }
        if "冒险家之花"@ == "赌徒的羽饰"@ {
            assert("冒险家之花"@[0] == "赌徒的羽饰"@[0]);
            assert(false);
        }
        if "冒险家之花"@ == "赌徒的怀表"@ {
            assert("冒险家之花"@[0] == "赌徒的怀表"@[0]);
            assert(false);
        }
        if "冒险家之花"@ == "赌徒的骰盅"@ {
            assert("冒险家之花"@[0] == "赌徒的骰盅"@[0]);
            assert(false);
        }
        if "冒险家之花"@ == "赌徒的耳环"@ {
            assert("冒险家之花"@[0] == "赌徒的耳环"@[0]);
            assert(false);
        }
        if "冒险家之花"@ == "教官的胸花"@ {
            assert("冒险家之花"@[0] == "教官的胸花"@[0]);
            assert(false);
        }
        if "冒险家之花"@ == "教官的羽饰"@ {
            assert("冒险家之花"@[0] == "教官的羽饰"@[0]);
            assert(false);
        }
        if "冒险家之花"@ == "教官的怀表"@ {
            assert("冒险家之花"@[0] == "教官的怀表"@[0]);
            assert(false);
        }
        if "冒险家之花"@ == "教官的茶杯"@ {
            assert("冒险家之花"@[0] == "教官的茶杯"@[0]);
            assert(false);
        }
        if "冒险家之花"@ == "教官的帽子"@ {
            assert("冒险家之花"@[0] == "教官的帽子"@[0]);
            assert(false);
        }
        if "冒险家之花"@ == "武人的红花"@ {
            assert("冒险家之花"@[0] == "武人的红花"@[0]);
            assert(false);
        }
        if "冒险家之花"@ == "武人的羽饰"@ {
            assert("冒险家之花"@[0] == "武人的羽饰"@[0]);
            assert(false);
        }
        if "冒险家之花"@ == "武人的水漏"@ {
            assert("冒险家之花"@[0] == "武人的水漏"@[0]);
            assert(false);
        }
        if "冒险家之花"@ == "武人的酒杯"@ {
            assert("冒险家之花"@[0] == "武人的酒杯"@[0]);
            assert(false);
        }
        if "冒险家之花"@ == "武人的头巾"@ {
            assert("冒险家之花"@[0] == "武人的头巾"@[0]);
            assert(false);
        }
        if "冒险家之花"@ == "学士的书签"@ {
            assert("冒险家之花"@[0] == "学士的书签"@[0]);
            assert(false);
        }
        if "冒险家之花"@ == "学士的羽笔"@ {
            assert("冒险家之花"@[0] == "学士的羽笔"@[0]);
            assert(false);
        }
        if "冒险家之花"@ == "学士的时钟"@ {
            assert("冒险家之花"@[0] == "学士的时钟"@[0]);
            assert(false);
        }
        if "冒险家之花"@ == "学士的墨杯"@ {
            assert("冒险家之花"@[0] == "学士的墨杯"@[0]);
            assert(false);
        }
        if "冒险家之花"@ == "学士的镜片"@ {
            assert("冒险家之花"@[0] == "学士的镜片"@[0]);
            assert(false);
        }
        assert(name_id(corpus_at(126)) == 126);
    } else if i == 127 {
        if "冒险家尾羽"@ == "雷鸟的怜悯"@ {
            assert("冒险家尾羽"@[0] == "雷鸟的怜悯"@[0]);
            assert(false);
        }
        if "冒险家尾羽"@ == "雷灾的孑遗"@ {
            assert("冒险家尾羽"@[0] == "雷灾的孑遗"@[0]);
            assert(false);
        }
        if "冒险家尾羽"@ == "雷霆的时计"@ {
            assert("冒险家尾羽"@[0] == "雷霆的时计"@[0]);
            assert(false);
        }
        if "冒险家尾羽"@ == "降雷的凶兆"@ {
            assert("冒险家尾羽"@[0] == "降雷的凶兆"@[0]);
            assert(false);
        }
        if "冒险家尾羽"@ == "唤雷的头冠"@ {
            assert("冒险家尾羽"@[0] == "唤雷的头冠"@[0]);
            assert(false);
        }
        if "冒险家尾羽"@ == "乐团的晨光"@ {
            assert("冒险家尾羽"@[0] == "乐团的晨光"@[0]);
            assert(false);
        }
        if "冒险家尾羽"@ == "琴师的箭羽"@ {
            assert("冒险家尾羽"@[0] == "琴师的箭羽"@[0]);
            assert(false);
        }
        if "冒险家尾羽"@ == "终幕的时计"@ {
            assert("冒险家尾羽"@[0] == "终幕的时计"@[0]);
            assert(false);
        }
        if "冒险家尾羽"@ == "终末的时计"@ {
            assert("冒险家尾羽"@[0] == "终末的时计"@[0]);
            assert(false);
        }
        if "冒险家尾羽"@ == "吟游者之壶"@ {
            assert("冒险家尾羽"@[0] == "吟游者之壶"@[0]);
            assert(false);
        }
        if "冒险家尾羽"@ == "指挥的礼帽"@ {
            assert("冒险家尾羽"@[0] == "指挥的礼帽"@[0]);
            assert(false);
        }
        if "冒险家尾羽"@ == "战狂的蔷薇"@ {
            assert("冒险家尾羽"@[0] == "战狂的蔷薇"@[0]);
            assert(false);
        }
        if "冒险家尾羽"@ == "战狂的翎羽"@ {
            assert("冒险家尾羽"@[0] == "战狂的翎羽"@[0]);
            assert(false);
        }
        if "冒险家尾羽"@ == "战狂的时计"@ {
            assert("冒险家尾羽"@[0] == "战狂的时计"@[0]);
            assert(false);
        }
        if "冒险家尾羽"@ == "战狂的骨杯"@ {
            assert("冒险家尾羽"@[0] == "战狂的骨杯"@[0]);
            assert(false);
        }
        if "冒险家尾羽"@ == "战狂的鬼面"@ {
            assert("冒险家尾羽"@[0] == "战狂的鬼面"@[0]);
            assert(false);
        }
        if "冒险家尾羽"@ == "勇士的勋章"@ {
            assert("冒险家尾羽"@[0] == "勇士的勋章"@[0]);
            assert(false);
        }
        if "冒险家尾羽"@ == "勇士的期许"@ {
            assert("冒险家尾羽"@[0] == "勇士的期许"@[0]);
            assert(false);
        }
        if "冒险家尾羽"@ == "勇士的坚毅"@ {
            assert("冒险家尾羽"@[0] == "勇士的坚毅"@[0]);
            assert(false);
        }
        if "冒险家尾羽"@ == "勇士的壮行"@ {
            assert("冒险家尾羽"@[0] == "勇士的壮行"@[0]);
            assert(false);
        }
        if "冒险家尾羽"@ == "勇士的冠冕"@ {
            assert("冒险家尾羽"@[0] == "勇士的冠冕"@[0]);
            assert(false);
        }
        if "冒险家尾羽"@ == "流放者之花"@ {
            assert("冒险家尾羽"@[0] == "流放者之花"@[0]);
            assert(false);
        }
        if "冒险家尾羽"@ == "流放者之羽"@ {
            assert("冒险家尾羽"@[0] == "流放者之羽"@[0]);
            assert(false);
        }
        if "冒险家尾羽"@ == "流放者怀表"@ {
            assert("冒险家尾羽"@[0] == "流放者怀表"@[0]);
            assert(false);
        }
        if "冒险家尾羽"@ == "流放者之杯"@ {
            assert("冒险家尾羽"@[0] == "流放者之杯"@[0]);
            assert(false);
        }
        if "冒险家尾羽"@ == "流放者头冠"@ {
            assert("冒险家尾羽"@[0] == "流放者头冠"@[0]);
            assert(false);
        }
        if "冒险家尾羽"@ == "赌徒的胸花"@ {
            assert("冒险家尾羽"@[0] == "赌徒的胸花"@[0]);
            assert(false);
        }
        if "冒险家尾羽"@ == "赌徒的羽饰"@ {
            assert("冒险家尾羽"@[0] == "赌徒的羽饰"@[0]);
            assert(false);
        }
        if "冒险家尾羽"@ == "赌徒的怀表"@ {
            assert("冒险家尾羽"@[0] == "赌徒的怀表"@[0]);
            assert(false);
        }
        if "冒险家尾羽"@ == "赌徒的骰盅"@ {
            assert("冒险家尾羽"@[0] == "赌徒的骰盅"@[0]);
            assert(false);
        }
        if "冒险家尾羽"@ == "赌徒的耳环"@ {
            assert("冒险家尾羽"@[0] == "赌徒的耳环"@[0]);
            assert(false);
        }
        if "冒险家尾羽"@ == "教官的胸花"@ {
            assert("冒险家尾羽"@[0] == "教官的胸花"@[0]);
            assert(false);
        }
        if "冒险家尾羽"@ == "教官的羽饰"@ {
            assert("冒险家尾羽"@[0] == "教官的羽饰"@[0]);
            assert(false);
        }
        if "冒险家尾羽"@ == "教官的怀表"@ {
            assert("冒险家尾羽"@[0] == "教官的怀表"@[0]);
            assert(false);
        }
        if "冒险家尾羽"@ == "教官的茶杯"@ {
            assert("冒险家尾羽"@[0] == "教官的茶杯"@[0]);
            assert(false);
        }
        if "冒险家尾羽"@ == "教官的帽子"@ {
            assert("冒险家尾羽"@[0] == "教官的帽子"@[0]);
            assert(false);
        }
        if "冒险家尾羽"@ == "武人的红花"@ {
            assert("冒险家尾羽"@[0] == "武人的红花"@[0]);
            assert(false);
        }
        if "冒险家尾羽"@ == "武人的羽饰"@ {
            assert("冒险家尾羽"@[0] == "武人的羽饰"@[0]);
            assert(false);
        }
        if "冒险家尾羽"@ == "武人的水漏"@ {
            assert("冒险家尾羽"@[0] == "武人的水漏"@[0]);
            assert(false);
        }
        if "冒险家尾羽"@ == "武人的酒杯"@ {
            assert("冒险家尾羽"@[0] == "武人的酒杯"@[0]);
            assert(false);
        }
        if "冒险家尾羽"@ == "武人的头巾"@ {
            assert("冒险家尾羽"@[0] == "武人的头巾"@[0]);
            assert(false);
        }
        if "冒险家尾羽"@ == "学士的书签"@ {
            assert("冒险家尾羽"@[0] == "学士的书签"@[0]);
            assert(false);
        }
        if "冒险家尾羽"@ == "学士的羽笔"@ {
            assert("冒险家尾羽"@[0] == "学士的羽笔"@[0]);
            assert(false);
        }
        if "冒险家尾羽"@ == "学士的时钟"@ {
            assert("冒险家尾羽"@[0] == "学士的时钟"@[0]);
            assert(false);
        }
        if "冒险家尾羽"@ == "学士的墨杯"@ {
            assert("冒险家尾羽"@[0] == "学士的墨杯"@[0]);
            assert(false);
        }
        if "冒险家尾羽"@ == "学士的镜片"@ {
            assert("冒险家尾羽"@[0] == "学士的镜片"@[0]);
            assert(false);
        }
        if "冒险家尾羽"@ == "冒险家之花"@ {
            assert("冒险家尾羽"@[3] == "冒险家之花"@[3]);
            assert(false);
        }
        assert(name_id(corpus_at(127)) == 127);
    } else if i == 128 {
        if "冒险家怀表"@ == "雷鸟的怜悯"@ {
            assert("冒险家怀表"@[0] == "雷鸟的怜悯"@[0]);
            assert(false);
        }
        if "冒险家怀表"@ == "雷灾的孑遗"@ {
            assert("冒险家怀表"@[0] == "雷灾的孑遗"@[0]);
            assert(false);
        }
        if "冒险家怀表"@ == "雷霆的时计"@ {
            assert("冒险家怀表"@[0] == "雷霆的时计"@[0]);
            assert(false);
        }
        if "冒险家怀表"@ == "降雷的凶兆"@ {
            assert("冒险家怀表"@[0] == "降雷的凶兆"@[0]);
            assert(false);
        }
        if "冒险家怀表"@ == "唤雷的头冠"@ {
            assert("冒险家怀表"@[0] == "唤雷的头冠"@[0]);
            assert(false);
        }
        if "冒险家怀表"@ == "乐团的晨光"@ {
            assert("冒险家怀表"@[0] == "乐团的晨光"@[0]);
            assert(false);
        }
        if "冒险家怀表"@ == "琴师的箭羽"@ {
            assert("冒险家怀表"@[0] == "琴师的箭羽"@[0]);
            assert(false);
        }
        if "冒险家怀表"@ == "终幕的时计"@ {
            assert("冒险家怀表"@[0] == "终幕的时计"@[0]);
            assert(false);
        }
        if "冒险家怀表"@ == "终末的时计"@ {
            assert("冒险家怀表"@[0] == "终末的时计"@[0]);
            assert(false);
        }
        if "冒险家怀表"@ == "吟游者之壶"@ {
            assert("冒险家怀表"@[0] == "吟游者之壶"@[0]);
            assert(false);
        }
        if "冒险家怀表"@ == "指挥的礼帽"@ {
            assert("冒险家怀表"@[0] == "指挥的礼帽"@[0]);
            assert(false);
        }
        if "冒险家怀表"@ == "战狂的蔷薇"@ {
            assert("冒险家怀表"@[0] == "战狂的蔷薇"@[0]);
            assert(false);
        }
        if "冒险家怀表"@ == "战狂的翎羽"@ {
            assert("冒险家怀表"@[0] == "战狂的翎羽"@[0]);
            assert(false);
        }
        if "冒险家怀表"@ == "战狂的时计"@ {
            assert("冒险家怀表"@[0] == "战狂的时计"@[0]);
            assert(false);
        }
        if "冒险家怀表"@ == "战狂的骨杯"@ {
            assert("冒险家怀表"@[0] == "战狂的骨杯"@[0]);
            assert(false);
        }
        if "冒险家怀表"@ == "战狂的鬼面"@ {
            assert("冒险家怀表"@[0] == "战狂的鬼面"@[0]);
            assert(false);
        }
        if "冒险家怀表"@ == "勇士的勋章"@ {
            assert("冒险家怀表"@[0] == "勇士的勋章"@[0]);
            assert(false);
        }
        if "冒险家怀表"@ == "勇士的期许"@ {
            assert("冒险家怀表"@[0] == "勇士的期许"@[0]);
            assert(false);
        }
        if "冒险家怀表"@ == "勇士的坚毅"@ {
            assert("冒险家怀表"@[0] == "勇士的坚毅"@[0]);
            assert(false);
        }
        if "冒险家怀表"@ == "勇士的壮行"@ {
            assert("冒险家怀表"@[0] == "勇士的壮行"@[0]);
            assert(false);
        }
        if "冒险家怀表"@ == "勇士的冠冕"@ {
            assert("冒险家怀表"@[0] == "勇士的冠冕"@[0]);
            assert(false);
        }
        if "冒险家怀表"@ == "流放者之花"@ {
            assert("冒险家怀表"@[0] == "流放者之花"@[0]);
            assert(false);
        }
        if "冒险家怀表"@ == "流放者之羽"@ {
            assert("冒险家怀表"@[0] == "流放者之羽"@[0]);
            assert(false);
        }
        if "冒险家怀表"@ == "流放者怀表"@ {
            assert("冒险家怀表"@[0] == "流放者怀表"@[0]);
            assert(false);
        }
        if "冒险家怀表"@ == "流放者之杯"@ {
            assert("冒险家怀表"@[0] == "流放者之杯"@[0]);
            assert(false);
        }
        if "冒险家怀表"@ == "流放者头冠"@ {
            assert("冒险家怀表"@[0] == "流放者头冠"@[0]);
            assert(false);
        }
        if "冒险家怀表"@ == "赌徒的胸花"@ {
            assert("冒险家怀表"@[0] == "赌徒的胸花"@[0]);
            assert(false);
        }
        if "冒险家怀表"@ == "赌徒的羽饰"@ {
            assert("冒险家怀表"@[0] == "赌徒的羽饰"@[0]);
            assert(false);
        }
        if "冒险家怀表"@ == "赌徒的怀表"@ {
            assert("冒险家怀表"@[0] == "赌徒的怀表"@[0]);
            assert(false);
        }
        if "冒险家怀表"@ == "赌徒的骰盅"@ {
            assert("冒险家怀表"@[0] == "赌徒的骰盅"@[0]);
            assert(false);
        }
        if "冒险家怀表"@ == "赌徒的耳环"@ {
            assert("冒险家怀表"@[0] == "赌徒的耳环"@[0]);
            assert(false);
        }
        if "冒险家怀表"@ == "教官的胸花"@ {
            assert("冒险家怀表"@[0] == "教官的胸花"@[0]);
            assert(false);
        }
        if "冒险家怀表"@ == "教官的羽饰"@ {
            assert("冒险家怀表"@[0] == "教官的羽饰"@[0]);
            assert(false);
        }
        if "冒险家怀表"@ == "教官的怀表"@ {
            assert("冒险家怀表"@[0] == "教官的怀表"@[0]);
            assert(false);
        }
        if "冒险家怀表"@ == "教官的茶杯"@ {
            assert("冒险家怀表"@[0] == "教官的茶杯"@[0]);
            assert(false);
        }
        if "冒险家怀表"@ == "教官的帽子"@ {
            assert("冒险家怀表"@[0] == "教官的帽子"@[0]);
            assert(false);
        }
        if "冒险家怀表"@ == "武人的红花"@ {
            assert("冒险家怀表"@[0] == "武人的红花"@[0]);
            assert(false);
        }
        if "冒险家怀表"@ == "武人的羽饰"@ {
            assert("冒险家怀表"@[0] == "武人的羽饰"@[0]);
            assert(false);
        }
        if "冒险家怀表"@ == "武人的水漏"@ {
            assert("冒险家怀表"@[0] == "武人的水漏"@[0]);
            assert(false);
        }
        if "冒险家怀表"@ == "武人的酒杯"@ {
            assert("冒险家怀表"@[0] == "武人的酒杯"@[0]);
            assert(false);
        }
        if "冒险家怀表"@ == "武人的头巾"@ {
            assert("冒险家怀表"@[0] == "武人的头巾"@[0]);
            assert(false);
        }
        if "冒险家怀表"@ == "学士的书签"@ {
            assert("冒险家怀表"@[0] == "学士的书签"@[0]);
            assert(false);
        }
        if "冒险家怀表"@ == "学士的羽笔"@ {
            assert("冒险家怀表"@[0] == "学士的羽笔"@[0]);
            assert(false);
        }
        if "冒险家怀表"@ == "学士的时钟"@ {
            assert("冒险家怀表"@[0] == "学士的时钟"@[0]);
            assert(false);
        }
        if "冒险家怀表"@ == "学士的墨杯"@ {
            assert("冒险家怀表"@[0] == "学士的墨杯"@[0]);
            assert(false);
        }
        if "冒险家怀表"@ == "学士的镜片"@ {
            assert("冒险家怀表"@[0] == "学士的镜片"@[0]);
            assert(false);
        }
        if "冒险家怀表"@ == "冒险家之花"@ {
            assert("冒险家怀表"@[3] == "冒险家之花"@[3]);
            assert(false);
        }
        if "冒险家怀表"@ == "冒险家尾羽"@ {
            assert("冒险家怀表"@[3] == "冒险家尾羽"@[3]);
            assert(false);
        }
        assert(name_id(corpus_at(128)) == 128);
    } else if i == 129 {
        if "冒险家金杯"@ == "雷鸟的怜悯"@ {
            assert("冒险家金杯"@[0] == "雷鸟的怜悯"@[0]);
            assert(false);
        }
        if "冒险家金杯"@ == "雷灾的孑遗"@ {
            assert("冒险家金杯"@[0] == "雷灾的孑遗"@[0]);
            assert(false);
        }
        if "冒险家金杯"@ == "雷霆的时计"@ {
            assert("冒险家金杯"@[0] == "雷霆的时计"@[0]);
            assert(false);
        }
        if "冒险家金杯"@ == "降雷的凶兆"@ {
            assert("冒险家金杯"@[0] == "降雷的凶兆"@[0]);
            assert(false);
        }
        if "冒险家金杯"@ == "唤雷的头冠"@ {
            assert("冒险家金杯"@[0] == "唤雷的头冠"@[0]);
            assert(false);
        }
        if "冒险家金杯"@ == "乐团的晨光"@ {
            assert("冒险家金杯"@[0] == "乐团的晨光"@[0]);
            assert(false);
        }
        if "冒险家金杯"@ == "琴师的箭羽"@ {
            assert("冒险家金杯"@[0] == "琴师的箭羽"@[0]);
            assert(false);
        }
        if "冒险家金杯"@ == "终幕的时计"@ {
            assert("冒险家金杯"@[0] == "终幕的时计"@[0]);
            assert(false);
        }
        if "冒险家金杯"@ == "终末的时计"@ {
            assert("冒险家金杯"@[0] == "终末的时计"@[0]);
            assert(false);
        }
        if "冒险家金杯"@ == "吟游者之壶"@ {
            assert("冒险家金杯"@[0] == "吟游者之壶"@[0]);
            assert(false);
        }
        if "冒险家金杯"@ == "指挥的礼帽"@ {
            assert("冒险家金杯"@[0] == "指挥的礼帽"@[0]);
            assert(false);
        }
        if "冒险家金杯"@ == "战狂的蔷薇"@ {
            assert("冒险家金杯"@[0] == "战狂的蔷薇"@[0]);
            assert(false);
        }
        if "冒险家金杯"@ == "战狂的翎羽"@ {
            assert("冒险家金杯"@[0] == "战狂的翎羽"@[0]);
            assert(false);
        }
        if "冒险家金杯"@ == "战狂的时计"@ {
            assert("冒险家金杯"@[0] == "战狂的时计"@[0]);
            assert(false);
        }
        if "冒险家金杯"@ == "战狂的骨杯"@ {
            assert("冒险家金杯"@[0] == "战狂的骨杯"@[0]);
            assert(false);
        }
        if "冒险家金杯"@ == "战狂的鬼面"@ {
            assert("冒险家金杯"@[0] == "战狂的鬼面"@[0]);
            assert(false);
        }
        if "冒险家金杯"@ == "勇士的勋章"@ {
            assert("冒险家金杯"@[0] == "勇士的勋章"@[0]);
            assert(false);
        }
        if "冒险家金杯"@ == "勇士的期许"@ {
            assert("冒险家金杯"@[0] == "勇士的期许"@[0]);
            assert(false);
        }
        if "冒险家金杯"@ == "勇士的坚毅"@ {
            assert("冒险家金杯"@[0] == "勇士的坚毅"@[0]);
            assert(false);
        }
        if "冒险家金杯"@ == "勇士的壮行"@ {
            assert("冒险家金杯"@[0] == "勇士的壮行"@[0]);
            assert(false);
        }
        if "冒险家金杯"@ == "勇士的冠冕"@ {
            assert("冒险家金杯"@[0] == "勇士的冠冕"@[0]);
            assert(false);
        }
        if "冒险家金杯"@ == "流放者之花"@ {
            assert("冒险家金杯"@[0] == "流放者之花"@[0]);
            assert(false);
        }
        if "冒险家金杯"@ == "流放者之羽"@ {
            assert("冒险家金杯"@[0] == "流放者之羽"@[0]);
            assert(false);
        }
        if "冒险家金杯"@ == "流放者怀表"@ {
            assert("冒险家金杯"@[0] == "流放者怀表"@[0]);
            assert(false);
        }
        if "冒险家金杯"@ == "流放者之杯"@ {
            assert("冒险家金杯"@[0] == "流放者之杯"@[0]);
            assert(false);
        }
        if "冒险家金杯"@ == "流放者头冠"@ {
            assert("冒险家金杯"@[0] == "流放者头冠"@[0]);
            assert(false);
        }
        if "冒险家金杯"@ == "赌徒的胸花"@ {
            assert("冒险家金杯"@[0] == "赌徒的胸花"@[0]);
            assert(false);
        }
        if "冒险家金杯"@ == "赌徒的羽饰"@ {
            assert("冒险家金杯"@[0] == "赌徒的羽饰"@[0]);
            assert(false);
        }
        if "冒险家金杯"@ == "赌徒的怀表"@ {
            assert("冒险家金杯"@[0] == "赌徒的怀表"@[0]);
            assert(false);
        }
        if "冒险家金杯"@ == "赌徒的骰盅"@ {
            assert("冒险家金杯"@[0] == "赌徒的骰盅"@[0]);
            assert(false);
        }
        if "冒险家金杯"@ == "赌徒的耳环"@ {
            assert("冒险家金杯"@[0] == "赌徒的耳环"@[0]);
            assert(false);
        }
        if "冒险家金杯"@ == "教官的胸花"@ {
            assert("冒险家金杯"@[0] == "教官的胸花"@[0]);
            assert(false);
        }
        if "冒险家金杯"@ == "教官的羽饰"@ {
            assert("冒险家金杯"@[0] == "教官的羽饰"@[0]);
            assert(false);
        }
        if "冒险家金杯"@ == "教官的怀表"@ {
            assert("冒险家金杯"@[0] == "教官的怀表"@[0]);
            assert(false);
        }
        if "冒险家金杯"@ == "教官的茶杯"@ {
            assert("冒险家金杯"@[0] == "教官的茶杯"@[0]);
            assert(false);
        }
        if "冒险家金杯"@ == "教官的帽子"@ {
            assert("冒险家金杯"@[0] == "教官的帽子"@[0]);
            assert(false);
        }
        if "冒险家金杯"@ == "武人的红花"@ {
            assert("冒险家金杯"@[0] == "武人的红花"@[0]);
            assert(false);
        }
        if "冒险家金杯"@ == "武人的羽饰"@ {
            assert("冒险家金杯"@[0] == "武人的羽饰"@[0]);
            assert(false);
        }
        if "冒险家金杯"@ == "武人的水漏"@ {
            assert("冒险家金杯"@[0] == "武人的水漏"@[0]);
            assert(false);
        }
        if "冒险家金杯"@ == "武人的酒杯"@ {
            assert("冒险家金杯"@[0] == "武人的酒杯"@[0]);
            assert(false);
        }
        if "冒险家金杯"@ == "武人的头巾"@ {
            assert("冒险家金杯"@[0] == "武人的头巾"@[0]);
            assert(false);
        }
        if "冒险家金杯"@ == "学士的书签"@ {
            assert("冒险家金杯"@[0] == "学士的书签"@[0]);
            assert(false);
        }
        if "冒险家金杯"@ == "学士的羽笔"@ {
            assert("冒险家金杯"@[0] == "学士的羽笔"@[0]);
            assert(false);
        }
        if "冒险家金杯"@ == "学士的时钟"@ {
            assert("冒险家金杯"@[0] == "学士的时钟"@[0]);
            assert(false);
        }
        if "冒险家金杯"@ == "学士的墨杯"@ {
            assert("冒险家金杯"@[0] == "学士的墨杯"@[0]);
            assert(false);
        }
        if "冒险家金杯"@ == "学士的镜片"@ {
            assert("冒险家金杯"@[0] == "学士的镜片"@[0]);
            assert(false);
        }
        if "冒险家金杯"@ == "冒险家之花"@ {
            assert("冒险家金杯"@[3] == "冒险家之花"@[3]);
            assert(false);
        }
        if "冒险家金杯"@ == "冒险家尾羽"@ {
            assert("冒险家金杯"@[3] == "冒险家尾羽"@[3]);
            assert(false);
        }
        if "冒险家金杯"@ == "冒险家怀表"@ {
            assert("冒险家金杯"@[3] == "冒险家怀表"@[3]);
            assert(false);
        }
        assert(name_id(corpus_at(129)) == 129);
    }
}

proof fn corpus_entry_chunk13(i: int)
    requires
        130 <= i < 140,
    ensures
        name_id(corpus_at(i)) == i,
{
    reveal_strlit("雷鸟的怜悯");
    reveal_strlit("雷灾的孑遗");
    reveal_strlit("雷霆的时计");
    reveal_strlit("降雷的凶兆");
    reveal_strlit("唤雷的头冠");
    reveal_strlit("乐团的晨光");
    reveal_strlit("琴师的箭羽");
    reveal_strlit("终幕的时计");
    reveal_strlit("终末的时计");
    reveal_strlit("吟游者之壶");
    reveal_strlit("指挥的礼帽");
    reveal_strlit("战狂的蔷薇");
    reveal_strlit("战狂的翎羽");
    reveal_strlit("战狂的时计");
    reveal_strlit("战狂的骨杯");
    reveal_strlit("战狂的鬼面");
    reveal_strlit("勇士的勋章");
    reveal_strlit("勇士的期许");
    reveal_strlit("勇士的坚毅");
    reveal_strlit("勇士的壮行");
    reveal_strlit("勇士的冠冕");
    reveal_strlit("流放者之花");
    reveal_strlit("流放者之羽");
    reveal_strlit("流放者怀表");
    reveal_strlit("流放者之杯");
    reveal_strlit("流放者头冠");
    reveal_strlit("赌徒的胸花");
    reveal_strlit("赌徒的羽饰");
    reveal_strlit("赌徒的怀表");
    reveal_strlit("赌徒的骰盅");
    reveal_strlit("赌徒的耳环");
    reveal_strlit("教官的胸花");
    reveal_strlit("教官的羽饰");
    reveal_strlit("教官的怀表");
    reveal_strlit("教官的茶杯");
    reveal_strlit("教官的帽子");
    reveal_strlit("武人的红花");
    reveal_strlit("武人的羽饰");
    reveal_strlit("武人的水漏");
    reveal_strlit("武人的酒杯");
    reveal_strlit("武人的头巾");
    reveal_strlit("学士的书签");
    reveal_strlit("学士的羽笔");
    reveal_strlit("学士的时钟");
    reveal_strlit("学士的墨杯");
    reveal_strlit("学士的镜片");
    reveal_strlit("冒险家之花");
    reveal_strlit("冒险家尾羽");
    reveal_strlit("冒险家怀表");
    reveal_strlit("冒险家金杯");
    reveal_strlit("冒险家头带");
    reveal_strlit("幸运儿绿花");
    reveal_strlit("幸运儿鹰羽");
    reveal_strlit("幸运儿沙漏");
    reveal_strlit("幸运儿之杯");
    reveal_strlit("幸运儿银冠");
    reveal_strlit("游医的银莲");
    reveal_strlit("游医的枭羽");
    reveal_strlit("游医的怀钟");
    reveal_strlit("游医的药壶");
    if i == 130 {
        if "冒险家头带"@ == "雷鸟的怜悯"@ {
            assert("冒险家头带"@[0] == "雷鸟的怜悯"@[0]);
            assert(false);
        }
        if "冒险家头带"@ == "雷灾的孑遗"@ {
            assert("冒险家头带"@[0] == "雷灾的孑遗"@[0]);
            assert(false);
        }
        if "冒险家头带"@ == "雷霆的时计"@ {
            assert("冒险家头带"@[0] == "雷霆的时计"@[0]);
            assert(false);
        }
        if "冒险家头带"@ == "降雷的凶兆"@ {
            assert("冒险家头带"@[0] == "降雷的凶兆"@[0]);
            assert(false);
        }
        if "冒险家头带"@ == "唤雷的头冠"@ {
            assert("冒险家头带"@[0] == "唤雷的头冠"@[0]);
            assert(false);
        }
        if "冒险家头带"@ == "乐团的晨光"@ {
            assert("冒险家头带"@[0] == "乐团的晨光"@[0]);
            assert(false);
        }
        if "冒险家头带"@ == "琴师的箭羽"@ {
            assert("冒险家头带"@[0] == "琴师的箭羽"@[0]);
            assert(false);
        }
        if "冒险家头带"@ == "终幕的时计"@ {
            assert("冒险家头带"@[0] == "终幕的时计"@[0]);
            assert(false);
        }
        if "冒险家头带"@ == "终末的时计"@ {
            assert("冒险家头带"@[0] == "终末的时计"@[0]);
            assert(false);
        }
        if "冒险家头带"@ == "吟游者之壶"@ {
            assert("冒险家头带"@[0] == "吟游者之壶"@[0]);
            assert(false);
        }
        if "冒险家头带"@ == "指挥的礼帽"@ {
            assert("冒险家头带"@[0] == "指挥的礼帽"@[0]);
            assert(false);
        }
        if "冒险家头带"@ == "战狂的蔷薇"@ {
            assert("冒险家头带"@[0] == "战狂的蔷薇"@[0]);
            assert(false);
        }
        if "冒险家头带"@ == "战狂的翎羽"@ {
            assert("冒险家头带"@[0] == "战狂的翎羽"@[0]);
            assert(false);
        }
        if "冒险家头带"@ == "战狂的时计"@ {
            assert("冒险家头带"@[0] == "战狂的时计"@[0]);
            assert(false);
        }
        if "冒险家头带"@ == "战狂的骨杯"@ {
            assert("冒险家头带"@[0] == "战狂的骨杯"@[0]);
            assert(false);
        }
        if "冒险家头带"@ == "战狂的鬼面"@ {
            assert("冒险家头带"@[0] == "战狂的鬼面"@[0]);
            assert(false);
        }
        if "冒险家头带"@ == "勇士的勋章"@ {
            assert("冒险家头带"@[0] == "勇士的勋章"@[0]);
            assert(false);
        }
        if "冒险家头带"@ == "勇士的期许"@ {
            assert("冒险家头带"@[0] == "勇士的期许"@[0]);
            assert(false);
        }
        if "冒险家头带"@ == "勇士的坚毅"@ {
            assert("冒险家头带"@[0] == "勇士的坚毅"@[0]);
            assert(false);
        }
        if "冒险家头带"@ == "勇士的壮行"@ {
            assert("冒险家头带"@[0] == "勇士的壮行"@[0]);
            assert(false);
        }
        if "冒险家头带"@ == "勇士的冠冕"@ {
            assert("冒险家头带"@[0] == "勇士的冠冕"@[0]);
            assert(false);
        }
        if "冒险家头带"@ == "流放者之花"@ {
            assert("冒险家头带"@[0] == "流放者之花"@[0]);
            assert(false);
        }
        if "冒险家头带"@ == "流放者之羽"@ {
            assert("冒险家头带"@[0] == "流放者之羽"@[0]);
            assert(false);
        }
        if "冒险家头带"@ == "流放者怀表"@ {
            assert("冒险家头带"@[0] == "流放者怀表"@[0]);
            assert(false);
        }
        if "冒险家头带"@ == "流放者之杯"@ {
            assert("冒险家头带"@[0] == "流放者之杯"@[0]);
            assert(false);
        }
        if "冒险家头带"@ == "流放者头冠"@ {
            assert("冒险家头带"@[0] == "流放者头冠"@[0]);
            assert(false);
        }
        if "冒险家头带"@ == "赌徒的胸花"@ {
            assert("冒险家头带"@[0] == "赌徒的胸花"@[0]);
            assert(false);
        }
        if "冒险家头带"@ == "赌徒的羽饰"@ {
            assert("冒险家头带"@[0] == "赌徒的羽饰"@[0]);
            assert(false);
        }
        if "冒险家头带"@ == "赌徒的怀表"@ {
            assert("冒险家头带"@[0] == "赌徒的怀表"@[0]);
            assert(false);
        }
        if "冒险家头带"@ == "赌徒的骰盅"@ {
            assert("冒险家头带"@[0] == "赌徒的骰盅"@[0]);
            assert(false);
        }
        if "冒险家头带"@ == "赌徒的耳环"@ {
            assert("冒险家头带"@[0] == "赌徒的耳环"@[0]);
            assert(false);
        }
        if "冒险家头带"@ == "教官的胸花"@ {
            assert("冒险家头带"@[0] == "教官的胸花"@[0]);
            assert(false);
        }
        if "冒险家头带"@ == "教官的羽饰"@ {
            assert("冒险家头带"@[0] == "教官的羽饰"@[0]);
            assert(false);
        }
        if "冒险家头带"@ == "教官的怀表"@ {
            assert("冒险家头带"@[0] == "教官的怀表"@[0]);
            assert(false);
        }
        if "冒险家头带"@ == "教官的茶杯"@ {
            assert("冒险家头带"@[0] == "教官的茶杯"@[0]);
            assert(false);
        }
        if "冒险家头带"@ == "教官的帽子"@ {
            assert("冒险家头带"@[0] == "教官的帽子"@[0]);
            assert(false);
        }
        if "冒险家头带"@ == "武人的红花"@ {
            assert("冒险家头带"@[0] == "武人的红花"@[0]);
            assert(false);
        }
        if "冒险家头带"@ == "武人的羽饰"@ {
            assert("冒险家头带"@[0] == "武人的羽饰"@[0]);
            assert(false);
        }
        if "冒险家头带"@ == "武人的水漏"@ {
            assert("冒险家头带"@[0] == "武人的水漏"@[0]);
            assert(false);
        }
        if "冒险家头带"@ == "武人的酒杯"@ {
            assert("冒险家头带"@[0] == "武人的酒杯"@[0]);
            assert(false);
        }
        if "冒险家头带"@ == "武人的头巾"@ {
            assert("冒险家头带"@[0] == "武人的头巾"@[0]);
            assert(false);
        }
        if "冒险家头带"@ == "学士的书签"@ {
            assert("冒险家头带"@[0] == "学士的书签"@[0]);
            assert(false);
        }
        if "冒险家头带"@ == "学士的羽笔"@ {
            assert("冒险家头带"@[0] == "学士的羽笔"@[0]);
            assert(false);
        }
        if "冒险家头带"@ == "学士的时钟"@ {
            assert("冒险家头带"@[0] == "学士的时钟"@[0]);
            assert(false);
        }
        if "冒险家头带"@ == "学士的墨杯"@ {
            assert("冒险家头带"@[0] == "学士的墨杯"@[0]);
            assert(false);
        }
        if "冒险家头带"@ == "学士的镜片"@ {
            assert("冒险家头带"@[0] == "学士的镜片"@[0]);
            assert(false);
        }
        if "冒险家头带"@ == "冒险家之花"@ {
            assert("冒险家头带"@[3] == "冒险家之花"@[3]);
            assert(false);
        }
        if "冒险家头带"@ == "冒险家尾羽"@ {
            assert("冒险家头带"@[3] == "冒险家尾羽"@[3]);
            assert(false);
        }
        if "冒险家头带"@ == "冒险家怀表"@ {
            assert("冒险家头带"@[3] == "冒险家怀表"@[3]);
            assert(false);
        }
        if "冒险家头带"@ == "冒险家金杯"@ {
            assert("冒险家头带"@[3] == "冒险家金杯"@[3]);
            assert(false);
        }
        assert(name_id(corpus_at(130)) == 130);
    } else if i == 131 {
        if "幸运儿绿花"@ == "雷鸟的怜悯"@ {
            assert("幸运儿绿花"@[0] == "雷鸟的怜悯"@[0]);
            assert(false);
        }
        if "幸运儿绿花"@ == "雷灾的孑遗"@ {
            assert("幸运儿绿花"@[0] == "雷灾的孑遗"@[0]);
            assert(false);
        }
        if "幸运儿绿花"@ == "雷霆的时计"@ {
            assert("幸运儿绿花"@[0] == "雷霆的时计"@[0]);
            assert(false);
        }
        if "幸运儿绿花"@ == "降雷的凶兆"@ {
            assert("幸运儿绿花"@[0] == "降雷的凶兆"@[0]);
            assert(false);
        }
        if "幸运儿绿花"@ == "唤雷的头冠"@ {
            assert("幸运儿绿花"@[0] == "唤雷的头冠"@[0]);
            assert(false);
        }
        if "幸运儿绿花"@ == "乐团的晨光"@ {
            assert("幸运儿绿花"@[0] == "乐团的晨光"@[0]);
            assert(false);
        }
        if "幸运儿绿花"@ == "琴师的箭羽"@ {
            assert("幸运儿绿花"@[0] == "琴师的箭羽"@[0]);
            assert(false);
        }
        if "幸运儿绿花"@ == "终幕的时计"@ {
            assert("幸运儿绿花"@[0] == "终幕的时计"@[0]);
            assert(false);
        }
        if "幸运儿绿花"@ == "终末的时计"@ {
            assert("幸运儿绿花"@[0] == "终末的时计"@[0]);
            assert(false);
        }
        if "幸运儿绿花"@ == "吟游者之壶"@ {
            assert("幸运儿绿花"@[0] == "吟游者之壶"@[0]);
            assert(false);
        }
        if "幸运儿绿花"@ == "指挥的礼帽"@ {
            assert("幸运儿绿花"@[0] == "指挥的礼帽"@[0]);
            assert(false);
        }
        if "幸运儿绿花"@ == "战狂的蔷薇"@ {
            assert("幸运儿绿花"@[0] == "战狂的蔷薇"@[0]);
            assert(false);
        }
        if "幸运儿绿花"@ == "战狂的翎羽"@ {
            assert("幸运儿绿花"@[0] == "战狂的翎羽"@[0]);
            assert(false);
        }
        if "幸运儿绿花"@ == "战狂的时计"@ {
            assert("幸运儿绿花"@[0] == "战狂的时计"@[0]);
            assert(false);
        }
        if "幸运儿绿花"@ == "战狂的骨杯"@ {
            assert("幸运儿绿花"@[0] == "战狂的骨杯"@[0]);
            assert(false);
        }
        if "幸运儿绿花"@ == "战狂的鬼面"@ {
            assert("幸运儿绿花"@[0] == "战狂的鬼面"@[0]);
            assert(false);
        }
        if "幸运儿绿花"@ == "勇士的勋章"@ {
            assert("幸运儿绿花"@[0] == "勇士的勋章"@[0]);
            assert(false);
        }
        if "幸运儿绿花"@ == "勇士的期许"@ {
            assert("幸运儿绿花"@[0] == "勇士的期许"@[0]);
            assert(false);
        }
        if "幸运儿绿花"@ == "勇士的坚毅"@ {
            assert("幸运儿绿花"@[0] == "勇士的坚毅"@[0]);
            assert(false);
        }
        if "幸运儿绿花"@ == "勇士的壮行"@ {
            assert("幸运儿绿花"@[0] == "勇士的壮行"@[0]);
            assert(false);
        }
        if "幸运儿绿花"@ == "勇士的冠冕"@ {
            assert("幸运儿绿花"@[0] == "勇士的冠冕"@[0]);
            assert(false);
        }
        if "幸运儿绿花"@ == "流放者之花"@ {
            assert("幸运儿绿花"@[0] == "流放者之花"@[0]);
            assert(false);
        }
        if "幸运儿绿花"@ == "流放者之羽"@ {
            assert("幸运儿绿花"@[0] == "流放者之羽"@[0]);
            assert(false);
        }
        if "幸运儿绿花"@ == "流放者怀表"@ {
            assert("幸运儿绿花"@[0] == "流放者怀表"@[0]);
            assert(false);
        }
        if "幸运儿绿花"@ == "流放者之杯"@ {
            assert("幸运儿绿花"@[0] == "流放者之杯"@[0]);
            assert(false);
        }
        if "幸运儿绿花"@ == "流放者头冠"@ {
            assert("幸运儿绿花"@[0] == "流放者头冠"@[0]);
            assert(false);
        }
        if "幸运儿绿花"@ == "赌徒的胸花"@ {
            assert("幸运儿绿花"@[0] == "赌徒的胸花"@[0]);
            assert(false);
        }
        if "幸运儿绿花"@ == "赌徒的羽饰"@ {
            assert("幸运儿绿花"@[0] == "赌徒的羽饰"@[0]);
            assert(false);
        }
        if "幸运儿绿花"@ == "赌徒的怀表"@ {
            assert("幸运儿绿花"@[0] == "赌徒的怀表"@[0]);
            assert(false);
        }
        if "幸运儿绿花"@ == "赌徒的骰盅"@ {
            assert("幸运儿绿花"@[0] == "赌徒的骰盅"@[0]);
            assert(false);
        }
        if "幸运儿绿花"@ == "赌徒的耳环"@ {
            assert("幸运儿绿花"@[0] == "赌徒的耳环"@[0]);
            assert(false);
        }
        if "幸运儿绿花"@ == "教官的胸花"@ {
            assert("幸运儿绿花"@[0] == "教官的胸花"@[0]);
            assert(false);
        }
        if "幸运儿绿花"@ == "教官的羽饰"@ {
            assert("幸运儿绿花"@[0] == "教官的羽饰"@[0]);
            assert(false);
        }
        if "幸运儿绿花"@ == "教官的怀表"@ {
            assert("幸运儿绿花"@[0] == "教官的怀表"@[0]);
            assert(false);
        }
        if "幸运儿绿花"@ == "教官的茶杯"@ {
            assert("幸运儿绿花"@[0] == "教官的茶杯"@[0]);
            assert(false);
        }
        if "幸运儿绿花"@ == "教官的帽子"@ {
            assert("幸运儿绿花"@[0] == "教官的帽子"@[0]);
            assert(false);
        }
        if "幸运儿绿花"@ == "武人的红花"@ {
            assert("幸运儿绿花"@[0] == "武人的红花"@[0]);
            assert(false);
        }
        if "幸运儿绿花"@ == "武人的羽饰"@ {
            assert("幸运儿绿花"@[0] == "武人的羽饰"@[0]);
            assert(false);
        }
        if "幸运儿绿花"@ == "武人的水漏"@ {
            assert("幸运儿绿花"@[0] == "武人的水漏"@[0]);
            assert(false);
        }
        if "幸运儿绿花"@ == "武人的酒杯"@ {
            assert("幸运儿绿花"@[0] == "武人的酒杯"@[0]);
            assert(false);
        }
        if "幸运儿绿花"@ == "武人的头巾"@ {
            assert("幸运儿绿花"@[0] == "武人的头巾"@[0]);
            assert(false);
        }
        if "幸运儿绿花"@ == "学士的书签"@ {
            assert("幸运儿绿花"@[0] == "学士的书签"@[0]);
            assert(false);
        }
        if "幸运儿绿花"@ == "学士的羽笔"@ {
            assert("幸运儿绿花"@[0] == "学士的羽笔"@[0]);
            assert(false);
        }
        if "幸运儿绿花"@ == "学士的时钟"@ {
            assert("幸运儿绿花"@[0] == "学士的时钟"@[0]);
            assert(false);
        }
        if "幸运儿绿花"@ == "学士的墨杯"@ {
            assert("幸运儿绿花"@[0] == "学士的墨杯"@[0]);
            assert(false);
        }
        if "幸运儿绿花"@ == "学士的镜片"@ {
            assert("幸运儿绿花"@[0] == "学士的镜片"@[0]);
            assert(false);
        }
        if "幸运儿绿花"@ == "冒险家之花"@ {
            assert("幸运儿绿花"@[0] == "冒险家之花"@[0]);
            assert(false);
        }
        if "幸运儿绿花"@ == "冒险家尾羽"@ {
            assert("幸运儿绿花"@[0] == "冒险家尾羽"@[0]);
            assert(false);
        }
        if "幸运儿绿花"@ == "冒险家怀表"@ {
            assert("幸运儿绿花"@[0] == "冒险家怀表"@[0]);
            assert(false);
        }
        if "幸运儿绿花"@ == "冒险家金杯"@ {
            assert("幸运儿绿花"@[0] == "冒险家金杯"@[0]);
            assert(false);
        }
        if "幸运儿绿花"@ == "冒险家头带"@ {
            assert("幸运儿绿花"@[0] == "冒险家头带"@[0]);
            assert(false);
        }
        assert(name_id(corpus_at(131)) == 131);
    } else if i == 132 {
        if "幸运儿鹰羽"@ == "雷鸟的怜悯"@ {
            assert("幸运儿鹰羽"@[0] == "雷鸟的怜悯"@[0]);
            assert(false);
        }
        if "幸运儿鹰羽"@ == "雷灾的孑遗"@ {
            assert("幸运儿鹰羽"@[0] == "雷灾的孑遗"@[0]);
            assert(false);
        }
        if "幸运儿鹰羽"@ == "雷霆的时计"@ {
            assert("幸运儿鹰羽"@[0] == "雷霆的时计"@[0]);
            assert(false);
        }
        if "幸运儿鹰羽"@ == "降雷的凶兆"@ {
            assert("幸运儿鹰羽"@[0] == "降雷的凶兆"@[0]);
            assert(false);
        }
        if "幸运儿鹰羽"@ == "唤雷的头冠"@ {
            assert("幸运儿鹰羽"@[0] == "唤雷的头冠"@[0]);
            assert(false);
        }
        if "幸运儿鹰羽"@ == "乐团的晨光"@ {
            assert("幸运儿鹰羽"@[0] == "乐团的晨光"@[0]);
            assert(false);
        }
        if "幸运儿鹰羽"@ == "琴师的箭羽"@ {
            assert("幸运儿鹰羽"@[0] == "琴师的箭羽"@[0]);
            assert(false);
        }
        if "幸运儿鹰羽"@ == "终幕的时计"@ {
            assert("幸运儿鹰羽"@[0] == "终幕的时计"@[0]);
            assert(false);
        }
        if "幸运儿鹰羽"@ == "终末的时计"@ {
            assert("幸运儿鹰羽"@[0] == "终末的时计"@[0]);
            assert(false);
        }
        if "幸运儿鹰羽"@ == "吟游者之壶"@ {
            assert("幸运儿鹰羽"@[0] == "吟游者之壶"@[0]);
            assert(false);
        }
        if "幸运儿鹰羽"@ == "指挥的礼帽"@ {
            assert("幸运儿鹰羽"@[0] == "指挥的礼帽"@[0]);
            assert(false);
        }
        if "幸运儿鹰羽"@ == "战狂的蔷薇"@ {
            assert("幸运儿鹰羽"@[0] == "战狂的蔷薇"@[0]);
            assert(false);
        }
        if "幸运儿鹰羽"@ == "战狂的翎羽"@ {
            assert("幸运儿鹰羽"@[0] == "战狂的翎羽"@[0]);
            assert(false);
        }
        if "幸运儿鹰羽"@ == "战狂的时计"@ {
            assert("幸运儿鹰羽"@[0] == "战狂的时计"@[0]);
            assert(false);
        }
        if "幸运儿鹰羽"@ == "战狂的骨杯"@ {
            assert("幸运儿鹰羽"@[0] == "战狂的骨杯"@[0]);
            assert(false);
        }
        if "幸运儿鹰羽"@ == "战狂的鬼面"@ {
            assert("幸运儿鹰羽"@[0] == "战狂的鬼面"@[0]);
            assert(false);
        }
        if "幸运儿鹰羽"@ == "勇士的勋章"@ {
            assert("幸运儿鹰羽"@[0] == "勇士的勋章"@[0]);
            assert(false);
        }
        if "幸运儿鹰羽"@ == "勇士的期许"@ {
            assert("幸运儿鹰羽"@[0] == "勇士的期许"@[0]);
            assert(false);
        }
        if "幸运儿鹰羽"@ == "勇士的坚毅"@ {
            assert("幸运儿鹰羽"@[0] == "勇士的坚毅"@[0]);
            assert(false);
        }
        if "幸运儿鹰羽"@ == "勇士的壮行"@ {
            assert("幸运儿鹰羽"@[0] == "勇士的壮行"@[0]);
            assert(false);
        }
        if "幸运儿鹰羽"@ == "勇士的冠冕"@ {
            assert("幸运儿鹰羽"@[0] == "勇士的冠冕"@[0]);
            assert(false);
        }
        if "幸运儿鹰羽"@ == "流放者之花"@ {
            assert("幸运儿鹰羽"@[0] == "流放者之花"@[0]);
            assert(false);
        }
        if "幸运儿鹰羽"@ == "流放者之羽"@ {
            assert("幸运儿鹰羽"@[0] == "流放者之羽"@[0]);
            assert(false);
        }
        if "幸运儿鹰羽"@ == "流放者怀表"@ {
            assert("幸运儿鹰羽"@[0] == "流放者怀表"@[0]);
            assert(false);
        }
        if "幸运儿鹰羽"@ == "流放者之杯"@ {
            assert("幸运儿鹰羽"@[0] == "流放者之杯"@[0]);
            assert(false);
        }
        if "幸运儿鹰羽"@ == "流放者头冠"@ {
            assert("幸运儿鹰羽"@[0] == "流放者头冠"@[0]);
            assert(false);
        }
        if "幸运儿鹰羽"@ == "赌徒的胸花"@ {
            assert("幸运儿鹰羽"@[0] == "赌徒的胸花"@[0]);
            assert(false);
        }
        if "幸运儿鹰羽"@ == "赌徒的羽饰"@ {
            assert("幸运儿鹰羽"@[0] == "赌徒的羽饰"@[0]);
            assert(false);
        }
        if "幸运儿鹰羽"@ == "赌徒的怀表"@ {
            assert("幸运儿鹰羽"@[0] == "赌徒的怀表"@[0]);
            assert(false);
        }
        if "幸运儿鹰羽"@ == "赌徒的骰盅"@ {
            assert("幸运儿鹰羽"@[0] == "赌徒的骰盅"@[0]);
            assert(false);
        }
        if "幸运儿鹰羽"@ == "赌徒的耳环"@ {
            assert("幸运儿鹰羽"@[0] == "赌徒的耳环"@[0]);
            assert(false);
        }
        if "幸运儿鹰羽"@ == "教官的胸花"@ {
            assert("幸运儿鹰羽"@[0] == "教官的胸花"@[0]);
            assert(false);
        }
        if "幸运儿鹰羽"@ == "教官的羽饰"@ {
            assert("幸运儿鹰羽"@[0] == "教官的羽饰"@[0]);
            assert(false);
        }
        if "幸运儿鹰羽"@ == "教官的怀表"@ {
            assert("幸运儿鹰羽"@[0] == "教官的怀表"@[0]);
            assert(false);
        }
        if "幸运儿鹰羽"@ == "教官的茶杯"@ {
            assert("幸运儿鹰羽"@[0] == "教官的茶杯"@[0]);
            assert(false);
        }
        if "幸运儿鹰羽"@ == "教官的帽子"@ {
            assert("幸运儿鹰羽"@[0] == "教官的帽子"@[0]);
            assert(false);
        }
        if "幸运儿鹰羽"@ == "武人的红花"@ {
            assert("幸运儿鹰羽"@[0] == "武人的红花"@[0]);
            assert(false);
        }
        if "幸运儿鹰羽"@ == "武人的羽饰"@ {
            assert("幸运儿鹰羽"@[0] == "武人的羽饰"@[0]);
            assert(false);
        }
        if "幸运儿鹰羽"@ == "武人的水漏"@ {
            assert("幸运儿鹰羽"@[0] == "武人的水漏"@[0]);
            assert(false);
        }
        if "幸运儿鹰羽"@ == "武人的酒杯"@ {
            assert("幸运儿鹰羽"@[0] == "武人的酒杯"@[0]);
            assert(false);
        }
        if "幸运儿鹰羽"@ == "武人的头巾"@ {
            assert("幸运儿鹰羽"@[0] == "武人的头巾"@[0]);
            assert(false);
        }
        if "幸运儿鹰羽"@ == "学士的书签"@ {
            assert("幸运儿鹰羽"@[0] == "学士的书签"@[0]);
            assert(false);
        }
        if "幸运儿鹰羽"@ == "学士的羽笔"@ {
            assert("幸运儿鹰羽"@[0] == "学士的羽笔"@[0]);
            assert(false);
        }
        if "幸运儿鹰羽"@ == "学士的时钟"@ {
            assert("幸运儿鹰羽"@[0] == "学士的时钟"@[0]);
            assert(false);
        }
        if "幸运儿鹰羽"@ == "学士的墨杯"@ {
            assert("幸运儿鹰羽"@[0] == "学士的墨杯"@[0]);
            assert(false);
        }
        if "幸运儿鹰羽"@ == "学士的镜片"@ {
            assert("幸运儿鹰羽"@[0] == "学士的镜片"@[0]);
            assert(false);
        }
        if "幸运儿鹰羽"@ == "冒险家之花"@ {
            assert("幸运儿鹰羽"@[0] == "冒险家之花"@[0]);
            assert(false);
        }
        if "幸运儿鹰羽"@ == "冒险家尾羽"@ {
            assert("幸运儿鹰羽"@[0] == "冒险家尾羽"@[0]);
            assert(false);
        }
        if "幸运儿鹰羽"@ == "冒险家怀表"@ {
            assert("幸运儿鹰羽"@[0] == "冒险家怀表"@[0]);
            assert(false);
        }
        if "幸运儿鹰羽"@ == "冒险家金杯"@ {
            assert("幸运儿鹰羽"@[0] == "冒险家金杯"@[0]);
            assert(false);
        }
        if "幸运儿鹰羽"@ == "冒险家头带"@ {
            assert("幸运儿鹰羽"@[0] == "冒险家头带"@[0]);
            assert(false);
        }
        if "幸运儿鹰羽"@ == "幸运儿绿花"@ {
            assert("幸运儿鹰羽"@[3] == "幸运儿绿花"@[3]);
            assert(false);
        }
        assert(name_id(corpus_at(132)) == 132);
    } else if i == 133 {
        if "幸运儿沙漏"@ == "雷鸟的怜悯"@ {
            assert("幸运儿沙漏"@[0] == "雷鸟的怜悯"@[0]);
            assert(false);
        }
        if "幸运儿沙漏"@ == "雷灾的孑遗"@ {
            assert("幸运儿沙漏"@[0] == "雷灾的孑遗"@[0]);
            assert(false);
        }
        if "幸运儿沙漏"@ == "雷霆的时计"@ {
            assert("幸运儿沙漏"@[0] == "雷霆的时计"@[0]);
            assert(false);
        }
        if "幸运儿沙漏"@ == "降雷的凶兆"@ {
            assert("幸运儿沙漏"@[0] == "降雷的凶兆"@[0]);
            assert(false);
        }
        if "幸运儿沙漏"@ == "唤雷的头冠"@ {
            assert("幸运儿沙漏"@[0] == "唤雷的头冠"@[0]);
            assert(false);
        }
        if "幸运儿沙漏"@ == "乐团的晨光"@ {
            assert("幸运儿沙漏"@[0] == "乐团的晨光"@[0]);
            assert(false);
        }
        if "幸运儿沙漏"@ == "琴师的箭羽"@ {
            assert("幸运儿沙漏"@[0] == "琴师的箭羽"@[0]);
            assert(false);
        }
        if "幸运儿沙漏"@ == "终幕的时计"@ {
            assert("幸运儿沙漏"@[0] == "终幕的时计"@[0]);
            assert(false);
        }
        if "幸运儿沙漏"@ == "终末的时计"@ {
            assert("幸运儿沙漏"@[0] == "终末的时计"@[0]);
            assert(false);
        }
        if "幸运儿沙漏"@ == "吟游者之壶"@ {
            assert("幸运儿沙漏"@[0] == "吟游者之壶"@[0]);
            assert(false);
        }
        if "幸运儿沙漏"@ == "指挥的礼帽"@ {
            assert("幸运儿沙漏"@[0] == "指挥的礼帽"@[0]);
            assert(false);
        }
        if "幸运儿沙漏"@ == "战狂的蔷薇"@ {
            assert("幸运儿沙漏"@[0] == "战狂的蔷薇"@[0]);
            assert(false);
        }
        if "幸运儿沙漏"@ == "战狂的翎羽"@ {
            assert("幸运儿沙漏"@[0] == "战狂的翎羽"@[0]);
            assert(false);
        }
        if "幸运儿沙漏"@ == "战狂的时计"@ {
            assert("幸运儿沙漏"@[0] == "战狂的时计"@[0]);
            assert(false);
        }
        if "幸运儿沙漏"@ == "战狂的骨杯"@ {
            assert("幸运儿沙漏"@[0] == "战狂的骨杯"@[0]);
            assert(false);
        }
        if "幸运儿沙漏"@ == "战狂的鬼面"@ {
            assert("幸运儿沙漏"@[0] == "战狂的鬼面"@[0]);
            assert(false);
        }
        if "幸运儿沙漏"@ == "勇士的勋章"@ {
            assert("幸运儿沙漏"@[0] == "勇士的勋章"@[0]);
            assert(false);
        }
        if "幸运儿沙漏"@ == "勇士的期许"@ {
            assert("幸运儿沙漏"@[0] == "勇士的期许"@[0]);
            assert(false);
        }
        if "幸运儿沙漏"@ == "勇士的坚毅"@ {
            assert("幸运儿沙漏"@[0] == "勇士的坚毅"@[0]);
            assert(false);
        }
        if "幸运儿沙漏"@ == "勇士的壮行"@ {
            assert("幸运儿沙漏"@[0] == "勇士的壮行"@[0]);
            assert(false);
        }
        if "幸运儿沙漏"@ == "勇士的冠冕"@ {
            assert("幸运儿沙漏"@[0] == "勇士的冠冕"@[0]);
            assert(false);
        }
        if "幸运儿沙漏"@ == "流放者之花"@ {
            assert("幸运儿沙漏"@[0] == "流放者之花"@[0]);
            assert(false);
        }
        if "幸运儿沙漏"@ == "流放者之羽"@ {
            assert("幸运儿沙漏"@[0] == "流放者之羽"@[0]);
            assert(false);
        }
        if "幸运儿沙漏"@ == "流放者怀表"@ {
            assert("幸运儿沙漏"@[0] == "流放者怀表"@[0]);
            assert(false);
        }
        if "幸运儿沙漏"@ == "流放者之杯"@ {
            assert("幸运儿沙漏"@[0] == "流放者之杯"@[0]);
            assert(false);
        }
        if "幸运儿沙漏"@ == "流放者头冠"@ {
            assert("幸运儿沙漏"@[0] == "流放者头冠"@[0]);
            assert(false);
        }
        if "幸运儿沙漏"@ == "赌徒的胸花"@ {
            assert("幸运儿沙漏"@[0] == "赌徒的胸花"@[0]);
            assert(false);
        }
        if "幸运儿沙漏"@ == "赌徒的羽饰"@ {
            assert("幸运儿沙漏"@[0] == "赌徒的羽饰"@[0]);
            assert(false);
        }
        if "幸运儿沙漏"@ == "赌徒的怀表"@ {
            assert("幸运儿沙漏"@[0] == "赌徒的怀表"@[0]);
            assert(false);
        }
        if "幸运儿沙漏"@ == "赌徒的骰盅"@ {
            assert("幸运儿沙漏"@[0] == "赌徒的骰盅"@[0]);
            assert(false);
        }
        if "幸运儿沙漏"@ == "赌徒的耳环"@ {
            assert("幸运儿沙漏"@[0] == "赌徒的耳环"@[0]);
            assert(false);
        }
        if "幸运儿沙漏"@ == "教官的胸花"@ {
            assert("幸运儿沙漏"@[0] == "教官的胸花"@[0]);
            assert(false);
        }
        if "幸运儿沙漏"@ == "教官的羽饰"@ {
            assert("幸运儿沙漏"@[0] == "教官的羽饰"@[0]);
            assert(false);
        }
        if "幸运儿沙漏"@ == "教官的怀表"@ {
            assert("幸运儿沙漏"@[0] == "教官的怀表"@[0]);
            assert(false);
        }
        if "幸运儿沙漏"@ == "教官的茶杯"@ {
            assert("幸运儿沙漏"@[0] == "教官的茶杯"@[0]);
            assert(false);
        }
        if "幸运儿沙漏"@ == "教官的帽子"@ {
            assert("幸运儿沙漏"@[0] == "教官的帽子"@[0]);
            assert(false);
        }
        if "幸运儿沙漏"@ == "武人的红花"@ {
            assert("幸运儿沙漏"@[0] == "武人的红花"@[0]);
            assert(false);
        }
        if "幸运儿沙漏"@ == "武人的羽饰"@ {
            assert("幸运儿沙漏"@[0] == "武人的羽饰"@[0]);
            assert(false);
        }
        if "幸运儿沙漏"@ == "武人的水漏"@ {
            assert("幸运儿沙漏"@[0] == "武人的水漏"@[0]);
            assert(false);
        }
        if "幸运儿沙漏"@ == "武人的酒杯"@ {
            assert("幸运儿沙漏"@[0] == "武人的酒杯"@[0]);
            assert(false);
        }
        if "幸运儿沙漏"@ == "武人的头巾"@ {
            assert("幸运儿沙漏"@[0] == "武人的头巾"@[0]);
            assert(false);
        }
        if "幸运儿沙漏"@ == "学士的书签"@ {
            assert("幸运儿沙漏"@[0] == "学士的书签"@[0]);
            assert(false);
        }
        if "幸运儿沙漏"@ == "学士的羽笔"@ {
            assert("幸运儿沙漏"@[0] == "学士的羽笔"@[0]);
            assert(false);
        }
        if "幸运儿沙漏"@ == "学士的时钟"@ {
            assert("幸运儿沙漏"@[0] == "学士的时钟"@[0]);
            assert(false);
        }
        if "幸运儿沙漏"@ == "学士的墨杯"@ {
            assert("幸运儿沙漏"@[0] == "学士的墨杯"@[0]);
            assert(false);
        }
        if "幸运儿沙漏"@ == "学士的镜片"@ {
            assert("幸运儿沙漏"@[0] == "学士的镜片"@[0]);
            assert(false);
        }
        if "幸运儿沙漏"@ == "冒险家之花"@ {
            assert("幸运儿沙漏"@[0] == "冒险家之花"@[0]);
            assert(false);
        }
        if "幸运儿沙漏"@ == "冒险家尾羽"@ {
            assert("幸运儿沙漏"@[0] == "冒险家尾羽"@[0]);
            assert(false);
        }
        if "幸运儿沙漏"@ == "冒险家怀表"@ {
            assert("幸运儿沙漏"@[0] == "冒险家怀表"@[0]);
            assert(false);
        }
        if "幸运儿沙漏"@ == "冒险家金杯"@ {
            assert("幸运儿沙漏"@[0] == "冒险家金杯"@[0]);
            assert(false);
        }
        if "幸运儿沙漏"@ == "冒险家头带"@ {
            assert("幸运儿沙漏"@[0] == "冒险家头带"@[0]);
            assert(false);
        }
        if "幸运儿沙漏"@ == "幸运儿绿花"@ {
            assert("幸运儿沙漏"@[3] == "幸运儿绿花"@[3]);
            assert(false);
        }
        if "幸运儿沙漏"@ == "幸运儿鹰羽"@ {
            assert("幸运儿沙漏"@[3] == "幸运儿鹰羽"@[3]);
            assert(false);
        }
        assert(name_id(corpus_at(133)) == 133);
    } else if i == 134 {
        if "幸运儿之杯"@ == "雷鸟的怜悯"@ {
            assert("幸运儿之杯"@[0] == "雷鸟的怜悯"@[0]);
            assert(false);
        }
        if "幸运儿之杯"@ == "雷灾的孑遗"@ {
            assert("幸运儿之杯"@[0] == "雷灾的孑遗"@[0]);
            assert(false);
        }
        if "幸运儿之杯"@ == "雷霆的时计"@ {
            assert("幸运儿之杯"@[0] == "雷霆的时计"@[0]);
            assert(false);
        }
        if "幸运儿之杯"@ == "降雷的凶兆"@ {
            assert("幸运儿之杯"@[0] == "降雷的凶兆"@[0]);
            assert(false);
        }
        if "幸运儿之杯"@ == "唤雷的头冠"@ {
            assert("幸运儿之杯"@[0] == "唤雷的头冠"@[0]);
            assert(false);
        }
        if "幸运儿之杯"@ == "乐团的晨光"@ {
            assert("幸运儿之杯"@[0] == "乐团的晨光"@[0]);
            assert(false);
        }
        if "幸运儿之杯"@ == "琴师的箭羽"@ {
            assert("幸运儿之杯"@[0] == "琴师的箭羽"@[0]);
            assert(false);
        }
        if "幸运儿之杯"@ == "终幕的时计"@ {
            assert("幸运儿之杯"@[0] == "终幕的时计"@[0]);
            assert(false);
        }
        if "幸运儿之杯"@ == "终末的时计"@ {
            assert("幸运儿之杯"@[0] == "终末的时计"@[0]);
            assert(false);
        }
        if "幸运儿之杯"@ == "吟游者之壶"@ {
            assert("幸运儿之杯"@[0] == "吟游者之壶"@[0]);
            assert(false);
        }
        if "幸运儿之杯"@ == "指挥的礼帽"@ {
            assert("幸运儿之杯"@[0] == "指挥的礼帽"@[0]);
            assert(false);
        }
        if "幸运儿之杯"@ == "战狂的蔷薇"@ {
            assert("幸运儿之杯"@[0] == "战狂的蔷薇"@[0]);
            assert(false);
        }
        if "幸运儿之杯"@ == "战狂的翎羽"@ {
            assert("幸运儿之杯"@[0] == "战狂的翎羽"@[0]);
            assert(false);
        }
        if "幸运儿之杯"@ == "战狂的时计"@ {
            assert("幸运儿之杯"@[0] == "战狂的时计"@[0]);
            assert(false);
        }
        if "幸运儿之杯"@ == "战狂的骨杯"@ {
            assert("幸运儿之杯"@[0] == "战狂的骨杯"@[0]);
            assert(false);
        }
        if "幸运儿之杯"@ == "战狂的鬼面"@ {
            assert("幸运儿之杯"@[0] == "战狂的鬼面"@[0]);
            assert(false);
        }
        if "幸运儿之杯"@ == "勇士的勋章"@ {
            assert("幸运儿之杯"@[0] == "勇士的勋章"@[0]);
            assert(false);
        }
        if "幸运儿之杯"@ == "勇士的期许"@ {
            assert("幸运儿之杯"@[0] == "勇士的期许"@[0]);
            assert(false);
        }
        if "幸运儿之杯"@ == "勇士的坚毅"@ {
            assert("幸运儿之杯"@[0] == "勇士的坚毅"@[0]);
            assert(false);
        }
        if "幸运儿之杯"@ == "勇士的壮行"@ {
            assert("幸运儿之杯"@[0] == "勇士的壮行"@[0]);
            assert(false);
        }
        if "幸运儿之杯"@ == "勇士的冠冕"@ {
            assert("幸运儿之杯"@[0] == "勇士的冠冕"@[0]);
            assert(false);
        }
        if "幸运儿之杯"@ == "流放者之花"@ {
            assert("幸运儿之杯"@[0] == "流放者之花"@[0]);
            assert(false);
        }
        if "幸运儿之杯"@ == "流放者之羽"@ {
            assert("幸运儿之杯"@[0] == "流放者之羽"@[0]);
            assert(false);
        }
        if "幸运儿之杯"@ == "流放者怀表"@ {
            assert("幸运儿之杯"@[0] == "流放者怀表"@[0]);
            assert(false);
        }
        if "幸运儿之杯"@ == "流放者之杯"@ {
            assert("幸运儿之杯"@[0] == "流放者之杯"@[0]);
            assert(false);
        }
        if "幸运儿之杯"@ == "流放者头冠"@ {
            assert("幸运儿之杯"@[0] == "流放者头冠"@[0]);
            assert(false);
        }
        if "幸运儿之杯"@ == "赌徒的胸花"@ {
            assert("幸运儿之杯"@[0] == "赌徒的胸花"@[0]);
            assert(false);
        }
        if "幸运儿之杯"@ == "赌徒的羽饰"@ {
            assert("幸运儿之杯"@[0] == "赌徒的羽饰"@[0]);
            assert(false);
        }
        if "幸运儿之杯"@ == "赌徒的怀表"@ {
            assert("幸运儿之杯"@[0] == "赌徒的怀表"@[0]);
            assert(false);
        }
        if "幸运儿之杯"@ == "赌徒的骰盅"@ {
            assert("幸运儿之杯"@[0] == "赌徒的骰盅"@[0]);
            assert(false);
        }
        if "幸运儿之杯"@ == "赌徒的耳环"@ {
            assert("幸运儿之杯"@[0] == "赌徒的耳环"@[0]);
            assert(false);
        }
        if "幸运儿之杯"@ == "教官的胸花"@ {
            assert("幸运儿之杯"@[0] == "教官的胸花"@[0]);
            assert(false);
        }
        if "幸运儿之杯"@ == "教官的羽饰"@ {
            assert("幸运儿之杯"@[0] == "教官的羽饰"@[0]);
            assert(false);
        }
        if "幸运儿之杯"@ == "教官的怀表"@ {
            assert("幸运儿之杯"@[0] == "教官的怀表"@[0]);
            assert(false);
        }
        if "幸运儿之杯"@ == "教官的茶杯"@ {
            assert("幸运儿之杯"@[0] == "教官的茶杯"@[0]);
            assert(false);
        }
        if "幸运儿之杯"@ == "教官的帽子"@ {
            assert("幸运儿之杯"@[0] == "教官的帽子"@[0]);
            assert(false);
        }
        if "幸运儿之杯"@ == "武人的红花"@ {
            assert("幸运儿之杯"@[0] == "武人的红花"@[0]);
            assert(false);
        }
        if "幸运儿之杯"@ == "武人的羽饰"@ {
            assert("幸运儿之杯"@[0] == "武人的羽饰"@[0]);
            assert(false);
        }
        if "幸运儿之杯"@ == "武人的水漏"@ {
            assert("幸运儿之杯"@[0] == "武人的水漏"@[0]);
            assert(false);
        }
        if "幸运儿之杯"@ == "武人的酒杯"@ {
            assert("幸运儿之杯"@[0] == "武人的酒杯"@[0]);
            assert(false);
        }
        if "幸运儿之杯"@ == "武人的头巾"@ {
            assert("幸运儿之杯"@[0] == "武人的头巾"@[0]);
            assert(false);
        }
        if "幸运儿之杯"@ == "学士的书签"@ {
            assert("幸运儿之杯"@[0] == "学士的书签"@[0]);
            assert(false);
        }
        if "幸运儿之杯"@ == "学士的羽笔"@ {
            assert("幸运儿之杯"@[0] == "学士的羽笔"@[0]);
            assert(false);
        }
        if "幸运儿之杯"@ == "学士的时钟"@ {
            assert("幸运儿之杯"@[0] == "学士的时钟"@[0]);
            assert(false);
        }
        if "幸运儿之杯"@ == "学士的墨杯"@ {
            assert("幸运儿之杯"@[0] == "学士的墨杯"@[0]);
            assert(false);
        }
        if "幸运儿之杯"@ == "学士的镜片"@ {
            assert("幸运儿之杯"@[0] == "学士的镜片"@[0]);
            assert(false);
        }
        if "幸运儿之杯"@ == "冒险家之花"@ {
            assert("幸运儿之杯"@[0] == "冒险家之花"@[0]);
            assert(false);
        }
        if "幸运儿之杯"@ == "冒险家尾羽"@ {
            assert("幸运儿之杯"@[0] == "冒险家尾羽"@[0]);
            assert(false);
        }
        if "幸运儿之杯"@ == "冒险家怀表"@ {
            assert("幸运儿之杯"@[0] == "冒险家怀表"@[0]);
            assert(false);
        }
        if "幸运儿之杯"@ == "冒险家金杯"@ {
            assert("幸运儿之杯"@[0] == "冒险家金杯"@[0]);
            assert(false);
        }
        if "幸运儿之杯"@ == "冒险家头带"@ {
            assert("幸运儿之杯"@[0] == "冒险家头带"@[0]);
            assert(false);
        }
        if "幸运儿之杯"@ == "幸运儿绿花"@ {
            assert("幸运儿之杯"@[3] == "幸运儿绿花"@[3]);
            assert(false);
        }
        if "幸运儿之杯"@ == "幸运儿鹰羽"@ {
            assert("幸运儿之杯"@[3] == "幸运儿鹰羽"@[3]);
            assert(false);
        }
        if "幸运儿之杯"@ == "幸运儿沙漏"@ {
            assert("幸运儿之杯"@[3] == "幸运儿沙漏"@[3]);
            assert(false);
        }
        assert(name_id(corpus_at(134)) == 134);
    } else if i == 135 {
        if "幸运儿银冠"@ == "雷鸟的怜悯"@ {
            assert("幸运儿银冠"@[0] == "雷鸟的怜悯"@[0]);
            assert(false);
        }
        if "幸运儿银冠"@ == "雷灾的孑遗"@ {
            assert("幸运儿银冠"@[0] == "雷灾的孑遗"@[0]);
            assert(false);
        }
        if "幸运儿银冠"@ == "雷霆的时计"@ {
            assert("幸运儿银冠"@[0] == "雷霆的时计"@[0]);
            assert(false);
        }
        if "幸运儿银冠"@ == "降雷的凶兆"@ {
            assert("幸运儿银冠"@[0] == "降雷的凶兆"@[0]);
            assert(false);
        }
        if "幸运儿银冠"@ == "唤雷的头冠"@ {
            assert("幸运儿银冠"@[0] == "唤雷的头冠"@[0]);
            assert(false);
        }
        if "幸运儿银冠"@ == "乐团的晨光"@ {
            assert("幸运儿银冠"@[0] == "乐团的晨光"@[0]);
            assert(false);
        }
        if "幸运儿银冠"@ == "琴师的箭羽"@ {
            assert("幸运儿银冠"@[0] == "琴师的箭羽"@[0]);
            assert(false);
        }
        if "幸运儿银冠"@ == "终幕的时计"@ {
            assert("幸运儿银冠"@[0] == "终幕的时计"@[0]);
            assert(false);
        }
        if "幸运儿银冠"@ == "终末的时计"@ {
            assert("幸运儿银冠"@[0] == "终末的时计"@[0]);
            assert(false);
        }
        if "幸运儿银冠"@ == "吟游者之壶"@ {
            assert("幸运儿银冠"@[0] == "吟游者之壶"@[0]);
            assert(false);
        }
        if "幸运儿银冠"@ == "指挥的礼帽"@ {
            assert("幸运儿银冠"@[0] == "指挥的礼帽"@[0]);
            assert(false);
        }
        if "幸运儿银冠"@ == "战狂的蔷薇"@ {
            assert("幸运儿银冠"@[0] == "战狂的蔷薇"@[0]);
            assert(false);
        }
        if "幸运儿银冠"@ == "战狂的翎羽"@ {
            assert("幸运儿银冠"@[0] == "战狂的翎羽"@[0]);
            assert(false);
        }
        if "幸运儿银冠"@ == "战狂的时计"@ {
            assert("幸运儿银冠"@[0] == "战狂的时计"@[0]);
            assert(false);
        }
        if "幸运儿银冠"@ == "战狂的骨杯"@ {
            assert("幸运儿银冠"@[0] == "战狂的骨杯"@[0]);
            assert(false);
        }
        if "幸运儿银冠"@ == "战狂的鬼面"@ {
            assert("幸运儿银冠"@[0] == "战狂的鬼面"@[0]);
            assert(false);
        }
        if "幸运儿银冠"@ == "勇士的勋章"@ {
            assert("幸运儿银冠"@[0] == "勇士的勋章"@[0]);
            assert(false);
        }
        if "幸运儿银冠"@ == "勇士的期许"@ {
            assert("幸运儿银冠"@[0] == "勇士的期许"@[0]);
            assert(false);
        }
        if "幸运儿银冠"@ == "勇士的坚毅"@ {
            assert("幸运儿银冠"@[0] == "勇士的坚毅"@[0]);
            assert(false);
        }
        if "幸运儿银冠"@ == "勇士的壮行"@ {
            assert("幸运儿银冠"@[0] == "勇士的壮行"@[0]);
            assert(false);
        }
        if "幸运儿银冠"@ == "勇士的冠冕"@ {
            assert("幸运儿银冠"@[0] == "勇士的冠冕"@[0]);
            assert(false);
        }
        if "幸运儿银冠"@ == "流放者之花"@ {
            assert("幸运儿银冠"@[0] == "流放者之花"@[0]);
            assert(false);
        }
        if "幸运儿银冠"@ == "流放者之羽"@ {
            assert("幸运儿银冠"@[0] == "流放者之羽"@[0]);
            assert(false);
        }
        if "幸运儿银冠"@ == "流放者怀表"@ {
            assert("幸运儿银冠"@[0] == "流放者怀表"@[0]);
            assert(false);
        }
        if "幸运儿银冠"@ == "流放者之杯"@ {
            assert("幸运儿银冠"@[0] == "流放者之杯"@[0]);
            assert(false);
        }
        if "幸运儿银冠"@ == "流放者头冠"@ {
            assert("幸运儿银冠"@[0] == "流放者头冠"@[0]);
            assert(false);
        }
        if "幸运儿银冠"@ == "赌徒的胸花"@ {
            assert("幸运儿银冠"@[0] == "赌徒的胸花"@[0]);
            assert(false);
        }
        if "幸运儿银冠"@ == "赌徒的羽饰"@ {
            assert("幸运儿银冠"@[0] == "赌徒的羽饰"@[0]);
            assert(false);
        }
        if "幸运儿银冠"@ == "赌徒的怀表"@ {
            assert("幸运儿银冠"@[0] == "赌徒的怀表"@[0]);
            assert(false);
        }
        if "幸运儿银冠"@ == "赌徒的骰盅"@ {
            assert("幸运儿银冠"@[0] == "赌徒的骰盅"@[0]);
            assert(false);
        }
        if "幸运儿银冠"@ == "赌徒的耳环"@ {
            assert("幸运儿银冠"@[0] == "赌徒的耳环"@[0]);
            assert(false);
        }
        if "幸运儿银冠"@ == "教官的胸花"@ {
            assert("幸运儿银冠"@[0] == "教官的胸花"@[0]);
            assert(false);
        }
        if "幸运儿银冠"@ == "教官的羽饰"@ {
            assert("幸运儿银冠"@[0] == "教官的羽饰"@[0]);
            assert(false);
        }
        if "幸运儿银冠"@ == "教官的怀表"@ {
            assert("幸运儿银冠"@[0] == "教官的怀表"@[0]);
            assert(false);
        }
        if "幸运儿银冠"@ == "教官的茶杯"@ {
            assert("幸运儿银冠"@[0] == "教官的茶杯"@[0]);
            assert(false);
        }
        if "幸运儿银冠"@ == "教官的帽子"@ {
            assert("幸运儿银冠"@[0] == "教官的帽子"@[0]);
            assert(false);
        }
        if "幸运儿银冠"@ == "武人的红花"@ {
            assert("幸运儿银冠"@[0] == "武人的红花"@[0]);
            assert(false);
        }
        if "幸运儿银冠"@ == "武人的羽饰"@ {
            assert("幸运儿银冠"@[0] == "武人的羽饰"@[0]);
            assert(false);
        }
        if "幸运儿银冠"@ == "武人的水漏"@ {
            assert("幸运儿银冠"@[0] == "武人的水漏"@[0]);
            assert(false);
        }
        if "幸运儿银冠"@ == "武人的酒杯"@ {
            assert("幸运儿银冠"@[0] == "武人的酒杯"@[0]);
            assert(false);
        }
        if "幸运儿银冠"@ == "武人的头巾"@ {
            assert("幸运儿银冠"@[0] == "武人的头巾"@[0]);
            assert(false);
        }
        if "幸运儿银冠"@ == "学士的书签"@ {
            assert("幸运儿银冠"@[0] == "学士的书签"@[0]);
            assert(false);
        }
        if "幸运儿银冠"@ == "学士的羽笔"@ {
            assert("幸运儿银冠"@[0] == "学士的羽笔"@[0]);
            assert(false);
        }
        if "幸运儿银冠"@ == "学士的时钟"@ {
            assert("幸运儿银冠"@[0] == "学士的时钟"@[0]);
            assert(false);
        }
        if "幸运儿银冠"@ == "学士的墨杯"@ {
            assert("幸运儿银冠"@[0] == "学士的墨杯"@[0]);
            assert(false);
        }
        if "幸运儿银冠"@ == "学士的镜片"@ {
            assert("幸运儿银冠"@[0] == "学士的镜片"@[0]);
            assert(false);
        }
        if "幸运儿银冠"@ == "冒险家之花"@ {
            assert("幸运儿银冠"@[0] == "冒险家之花"@[0]);
            assert(false);
        }
        if "幸运儿银冠"@ == "冒险家尾羽"@ {
            assert("幸运儿银冠"@[0] == "冒险家尾羽"@[0]);
            assert(false);
        }
        if "幸运儿银冠"@ == "冒险家怀表"@ {
            assert("幸运儿银冠"@[0] == "冒险家怀表"@[0]);
            assert(false);
        }
        if "幸运儿银冠"@ == "冒险家金杯"@ {
            assert("幸运儿银冠"@[0] == "冒险家金杯"@[0]);
            assert(false);
        }
        if "幸运儿银冠"@ == "冒险家头带"@ {
            assert("幸运儿银冠"@[0] == "冒险家头带"@[0]);
            assert(false);
        }
        if "幸运儿银冠"@ == "幸运儿绿花"@ {
            assert("幸运儿银冠"@[3] == "幸运儿绿花"@[3]);
            assert(false);
        }
        if "幸运儿银冠"@ == "幸运儿鹰羽"@ {
            assert("幸运儿银冠"@[3] == "幸运儿鹰羽"@[3]);
            assert(false);
        }
        if "幸运儿银冠"@ == "幸运儿沙漏"@ {
            assert("幸运儿银冠"@[3] == "幸运儿沙漏"@[3]);
            assert(false);
        }
        if "幸运儿银冠"@ == "幸运儿之杯"@ {
            assert("幸运儿银冠"@[3] == "幸运儿之杯"@[3]);
            assert(false);
        }
        assert(name_id(corpus_at(135)) == 135);
    } else if i == 136 {
        if "游医的银莲"@ == "雷鸟的怜悯"@ {
            assert("游医的银莲"@[0] == "雷鸟的怜悯"@[0]);
            assert(false);
        }
        if "游医的银莲"@ == "雷灾的孑遗"@ {
            assert("游医的银莲"@[0] == "雷灾的孑遗"@[0]);
            assert(false);
        }
        if "游医的银莲"@ == "雷霆的时计"@ {
            assert("游医的银莲"@[0] == "雷霆的时计"@[0]);
            assert(false);
        }
        if "游医的银莲"@ == "降雷的凶兆"@ {
            assert("游医的银莲"@[0] == "降雷的凶兆"@[0]);
            assert(false);
        }
        if "游医的银莲"@ == "唤雷的头冠"@ {
            assert("游医的银莲"@[0] == "唤雷的头冠"@[0]);
            assert(false);
        }
        if "游医的银莲"@ == "乐团的晨光"@ {
            assert("游医的银莲"@[0] == "乐团的晨光"@[0]);
            assert(false);
        }
        if "游医的银莲"@ == "琴师的箭羽"@ {
            assert("游医的银莲"@[0] == "琴师的箭羽"@[0]);
            assert(false);
        }
        if "游医的银莲"@ == "终幕的时计"@ {
            assert("游医的银莲"@[0] == "终幕的时计"@[0]);
            assert(false);
        }
        if "游医的银莲"@ == "终末的时计"@ {
            assert("游医的银莲"@[0] == "终末的时计"@[0]);
            assert(false);
        }
        if "游医的银莲"@ == "吟游者之壶"@ {
            assert("游医的银莲"@[0] == "吟游者之壶"@[0]);
            assert(false);
        }
        if "游医的银莲"@ == "指挥的礼帽"@ {
            assert("游医的银莲"@[0] == "指挥的礼帽"@[0]);
            assert(false);
        }
        if "游医的银莲"@ == "战狂的蔷薇"@ {
            assert("游医的银莲"@[0] == "战狂的蔷薇"@[0]);
            assert(false);
        }
        if "游医的银莲"@ == "战狂的翎羽"@ {
            assert("游医的银莲"@[0] == "战狂的翎羽"@[0]);
            assert(false);
        }
        if "游医的银莲"@ == "战狂的时计"@ {
            assert("游医的银莲"@[0] == "战狂的时计"@[0]);
            assert(false);
        }
        if "游医的银莲"@ == "战狂的骨杯"@ {
            assert("游医的银莲"@[0] == "战狂的骨杯"@[0]);
            assert(false);
        }
        if "游医的银莲"@ == "战狂的鬼面"@ {
            assert("游医的银莲"@[0] == "战狂的鬼面"@[0]);
            assert(false);
        }
        if "游医的银莲"@ == "勇士的勋章"@ {
            assert("游医的银莲"@[0] == "勇士的勋章"@[0]);
            assert(false);
        }
        if "游医的银莲"@ == "勇士的期许"@ {
            assert("游医的银莲"@[0] == "勇士的期许"@[0]);
            assert(false);
        }
        if "游医的银莲"@ == "勇士的坚毅"@ {
            assert("游医的银莲"@[0] == "勇士的坚毅"@[0]);
            assert(false);
        }
        if "游医的银莲"@ == "勇士的壮行"@ {
            assert("游医的银莲"@[0] == "勇士的壮行"@[0]);
            assert(false);
        }
        if "游医的银莲"@ == "勇士的冠冕"@ {
            assert("游医的银莲"@[0] == "勇士的冠冕"@[0]);
            assert(false);
        }
        if "游医的银莲"@ == "流放者之花"@ {
            assert("游医的银莲"@[0] == "流放者之花"@[0]);
            assert(false);
        }
        if "游医的银莲"@ == "流放者之羽"@ {
            assert("游医的银莲"@[0] == "流放者之羽"@[0]);
            assert(false);
        }
        if "游医的银莲"@ == "流放者怀表"@ {
            assert("游医的银莲"@[0] == "流放者怀表"@[0]);
            assert(false);
        }
        if "游医的银莲"@ == "流放者之杯"@ {
            assert("游医的银莲"@[0] == "流放者之杯"@[0]);
            assert(false);
        }
        if "游医的银莲"@ == "流放者头冠"@ {
            assert("游医的银莲"@[0] == "流放者头冠"@[0]);
            assert(false);
        }
        if "游医的银莲"@ == "赌徒的胸花"@ {
            assert("游医的银莲"@[0] == "赌徒的胸花"@[0]);
            assert(false);
        }
        if "游医的银莲"@ == "赌徒的羽饰"@ {
            assert("游医的银莲"@[0] == "赌徒的羽饰"@[0]);
            assert(false);
        }
        if "游医的银莲"@ == "赌徒的怀表"@ {
            assert("游医的银莲"@[0] == "赌徒的怀表"@[0]);
            assert(false);
        }
        if "游医的银莲"@ == "赌徒的骰盅"@ {
            assert("游医的银莲"@[0] == "赌徒的骰盅"@[0]);
            assert(false);
        }
        if "游医的银莲"@ == "赌徒的耳环"@ {
            assert("游医的银莲"@[0] == "赌徒的耳环"@[0]);
            assert(false);
        }
        if "游医的银莲"@ == "教官的胸花"@ {
            assert("游医的银莲"@[0] == "教官的胸花"@[0]);
            assert(false);
        }
        if "游医的银莲"@ == "教官的羽饰"@ {
            assert("游医的银莲"@[0] == "教官的羽饰"@[0]);
            assert(false);
        }
        if "游医的银莲"@ == "教官的怀表"@ {
            assert("游医的银莲"@[0] == "教官的怀表"@[0]);
            assert(false);
        }
        if "游医的银莲"@ == "教官的茶杯"@ {
            assert("游医的银莲"@[0] == "教官的茶杯"@[0]);
            assert(false);
        }
        if "游医的银莲"@ == "教官的帽子"@ {
            assert("游医的银莲"@[0] == "教官的帽子"@[0]);
            assert(false);
        }
        if "游医的银莲"@ == "武人的红花"@ {
            assert("游医的银莲"@[0] == "武人的红花"@[0]);
            assert(false);
        }
        if "游医的银莲"@ == "武人的羽饰"@ {
            assert("游医的银莲"@[0] == "武人的羽饰"@[0]);
            assert(false);
        }
        if "游医的银莲"@ == "武人的水漏"@ {
            assert("游医的银莲"@[0] == "武人的水漏"@[0]);
            assert(false);
        }
        if "游医的银莲"@ == "武人的酒杯"@ {
            assert("游医的银莲"@[0] == "武人的酒杯"@[0]);
            assert(false);
        }
        if "游医的银莲"@ == "武人的头巾"@ {
            assert("游医的银莲"@[0] == "武人的头巾"@[0]);
            assert(false);
        }
        if "游医的银莲"@ == "学士的书签"@ {
            assert("游医的银莲"@[0] == "学士的书签"@[0]);
            assert(false);
        }
        if "游医的银莲"@ == "学士的羽笔"@ {
            assert("游医的银莲"@[0] == "学士的羽笔"@[0]);
            assert(false);
        }
        if "游医的银莲"@ == "学士的时钟"@ {
            assert("游医的银莲"@[0] == "学士的时钟"@[0]);
            assert(false);
        }
        if "游医的银莲"@ == "学士的墨杯"@ {
            assert("游医的银莲"@[0] == "学士的墨杯"@[0]);
            assert(false);
        }
        if "游医的银莲"@ == "学士的镜片"@ {
            assert("游医的银莲"@[0] == "学士的镜片"@[0]);
            assert(false);
        }
        if "游医的银莲"@ == "冒险家之花"@ {
            assert("游医的银莲"@[0] == "冒险家之花"@[0]);
            assert(false);
        }
        if "游医的银莲"@ == "冒险家尾羽"@ {
            assert("游医的银莲"@[0] == "冒险家尾羽"@[0]);
            assert(false);
        }
        if "游医的银莲"@ == "冒险家怀表"@ {
            assert("游医的银莲"@[0] == "冒险家怀表"@[0]);
            assert(false);
        }
        if "游医的银莲"@ == "冒险家金杯"@ {
            assert("游医的银莲"@[0] == "冒险家金杯"@[0]);
            assert(false);
        }
        if "游医的银莲"@ == "冒险家头带"@ {
            assert("游医的银莲"@[0] == "冒险家头带"@[0]);
            assert(false);
        }
        if "游医的银莲"@ == "幸运儿绿花"@ {
            assert("游医的银莲"@[0] == "幸运儿绿花"@[0]);
            assert(false);
        }
        if "游医的银莲"@ == "幸运儿鹰羽"@ {
            assert("游医的银莲"@[0] == "幸运儿鹰羽"@[0]);
            assert(false);
        }
        if "游医的银莲"@ == "幸运儿沙漏"@ {
            assert("游医的银莲"@[0] == "幸运儿沙漏"@[0]);
            assert(false);
        }
        if "游医的银莲"@ == "幸运儿之杯"@ {
            assert("游医的银莲"@[0] == "幸运儿之杯"@[0]);
            assert(false);
        }
        if "游医的银莲"@ == "幸运儿银冠"@ {
            assert("游医的银莲"@[0] == "幸运儿银冠"@[0]);
            assert(false);
        }
        assert(name_id(corpus_at(136)) == 136);
    } else if i == 137 {
        if "游医的枭羽"@ == "雷鸟的怜悯"@ {
            assert("游医的枭羽"@[0] == "雷鸟的怜悯"@[0]);
            assert(false);
        }
        if "游医的枭羽"@ == "雷灾的孑遗"@ {
            assert("游医的枭羽"@[0] == "雷灾的孑遗"@[0]);
            assert(false);
        }
        if "游医的枭羽"@ == "雷霆的时计"@ {
            assert("游医的枭羽"@[0] == "雷霆的时计"@[0]);
            assert(false);
        }
        if "游医的枭羽"@ == "降雷的凶兆"@ {
            assert("游医的枭羽"@[0] == "降雷的凶兆"@[0]);
            assert(false);
        }
        if "游医的枭羽"@ == "唤雷的头冠"@ {
            assert("游医的枭羽"@[0] == "唤雷的头冠"@[0]);
            assert(false);
        }
        if "游医的枭羽"@ == "乐团的晨光"@ {
            assert("游医的枭羽"@[0] == "乐团的晨光"@[0]);
            assert(false);
        }
        if "游医的枭羽"@ == "琴师的箭羽"@ {
            assert("游医的枭羽"@[0] == "琴师的箭羽"@[0]);
            assert(false);
        }
        if "游医的枭羽"@ == "终幕的时计"@ {
            assert("游医的枭羽"@[0] == "终幕的时计"@[0]);
            assert(false);
        }
        if "游医的枭羽"@ == "终末的时计"@ {
            assert("游医的枭羽"@[0] == "终末的时计"@[0]);
            assert(false);
        }
        if "游医的枭羽"@ == "吟游者之壶"@ {
            assert("游医的枭羽"@[0] == "吟游者之壶"@[0]);
            assert(false);
        }
        if "游医的枭羽"@ == "指挥的礼帽"@ {
            assert("游医的枭羽"@[0] == "指挥的礼帽"@[0]);
            assert(false);
        }
        if "游医的枭羽"@ == "战狂的蔷薇"@ {
            assert("游医的枭羽"@[0] == "战狂的蔷薇"@[0]);
            assert(false);
        }
        if "游医的枭羽"@ == "战狂的翎羽"@ {
            assert("游医的枭羽"@[0] == "战狂的翎羽"@[0]);
            assert(false);
        }
        if "游医的枭羽"@ == "战狂的时计"@ {
            assert("游医的枭羽"@[0] == "战狂的时计"@[0]);
            assert(false);
        }
        if "游医的枭羽"@ == "战狂的骨杯"@ {
            assert("游医的枭羽"@[0] == "战狂的骨杯"@[0]);
            assert(false);
        }
        if "游医的枭羽"@ == "战狂的鬼面"@ {
            assert("游医的枭羽"@[0] == "战狂的鬼面"@[0]);
            assert(false);
        }
        if "游医的枭羽"@ == "勇士的勋章"@ {
            assert("游医的枭羽"@[0] == "勇士的勋章"@[0]);
            assert(false);
        }
        if "游医的枭羽"@ == "勇士的期许"@ {
            assert("游医的枭羽"@[0] == "勇士的期许"@[0]);
            assert(false);
        }
        if "游医的枭羽"@ == "勇士的坚毅"@ {
            assert("游医的枭羽"@[0] == "勇士的坚毅"@[0]);
            assert(false);
        }
        if "游医的枭羽"@ == "勇士的壮行"@ {
            assert("游医的枭羽"@[0] == "勇士的壮行"@[0]);
            assert(false);
        }
        if "游医的枭羽"@ == "勇士的冠冕"@ {
            assert("游医的枭羽"@[0] == "勇士的冠冕"@[0]);
            assert(false);
        }
        if "游医的枭羽"@ == "流放者之花"@ {
            assert("游医的枭羽"@[0] == "流放者之花"@[0]);
            assert(false);
        }
        if "游医的枭羽"@ == "流放者之羽"@ {
            assert("游医的枭羽"@[0] == "流放者之羽"@[0]);
            assert(false);
        }
        if "游医的枭羽"@ == "流放者怀表"@ {
            assert("游医的枭羽"@[0] == "流放者怀表"@[0]);
            assert(false);
        }
        if "游医的枭羽"@ == "流放者之杯"@ {
            assert("游医的枭羽"@[0] == "流放者之杯"@[0]);
            assert(false);
        }
        if "游医的枭羽"@ == "流放者头冠"@ {
            assert("游医的枭羽"@[0] == "流放者头冠"@[0]);
            assert(false);
        }
        if "游医的枭羽"@ == "赌徒的胸花"@ {
            assert("游医的枭羽"@[0] == "赌徒的胸花"@[0]);
            assert(false);
        }
        if "游医的枭羽"@ == "赌徒的羽饰"@ {
            assert("游医的枭羽"@[0] == "赌徒的羽饰"@[0]);
            assert(false);
        }
        if "游医的枭羽"@ == "赌徒的怀表"@ {
            assert("游医的枭羽"@[0] == "赌徒的怀表"@[0]);
            assert(false);
        }
        if "游医的枭羽"@ == "赌徒的骰盅"@ {
            assert("游医的枭羽"@[0] == "赌徒的骰盅"@[0]);
            assert(false);
        }
        if "游医的枭羽"@ == "赌徒的耳环"@ {
            assert("游医的枭羽"@[0] == "赌徒的耳环"@[0]);
            assert(false);
        }
        if "游医的枭羽"@ == "教官的胸花"@ {
            assert("游医的枭羽"@[0] == "教官的胸花"@[0]);
            assert(false);
        }
        if "游医的枭羽"@ == "教官的羽饰"@ {
            assert("游医的枭羽"@[0] == "教官的羽饰"@[0]);
            assert(false);
        }
        if "游医的枭羽"@ == "教官的怀表"@ {
            assert("游医的枭羽"@[0] == "教官的怀表"@[0]);
            assert(false);
        }
        if "游医的枭羽"@ == "教官的茶杯"@ {
            assert("游医的枭羽"@[0] == "教官的茶杯"@[0]);
            assert(false);
        }
        if "游医的枭羽"@ == "教官的帽子"@ {
            assert("游医的枭羽"@[0] == "教官的帽子"@[0]);
            assert(false);
        }
        if "游医的枭羽"@ == "武人的红花"@ {
            assert("游医的枭羽"@[0] == "武人的红花"@[0]);
            assert(false);
        }
        if "游医的枭羽"@ == "武人的羽饰"@ {
            assert("游医的枭羽"@[0] == "武人的羽饰"@[0]);
            assert(false);
        }
        if "游医的枭羽"@ == "武人的水漏"@ {
            assert("游医的枭羽"@[0] == "武人的水漏"@[0]);
            assert(false);
        }
        if "游医的枭羽"@ == "武人的酒杯"@ {
            assert("游医的枭羽"@[0] == "武人的酒杯"@[0]);
            assert(false);
        }
        if "游医的枭羽"@ == "武人的头巾"@ {
            assert("游医的枭羽"@[0] == "武人的头巾"@[0]);
            assert(false);
        }
        if "游医的枭羽"@ == "学士的书签"@ {
            assert("游医的枭羽"@[0] == "学士的书签"@[0]);
            assert(false);
        }
        if "游医的枭羽"@ == "学士的羽笔"@ {
            assert("游医的枭羽"@[0] == "学士的羽笔"@[0]);
            assert(false);
        }
        if "游医的枭羽"@ == "学士的时钟"@ {
            assert("游医的枭羽"@[0] == "学士的时钟"@[0]);
            assert(false);
        }
        if "游医的枭羽"@ == "学士的墨杯"@ {
            assert("游医的枭羽"@[0] == "学士的墨杯"@[0]);
            assert(false);
        }
        if "游医的枭羽"@ == "学士的镜片"@ {
            assert("游医的枭羽"@[0] == "学士的镜片"@[0]);
            assert(false);
        }
        if "游医的枭羽"@ == "冒险家之花"@ {
            assert("游医的枭羽"@[0] == "冒险家之花"@[0]);
            assert(false);
        }
        if "游医的枭羽"@ == "冒险家尾羽"@ {
            assert("游医的枭羽"@[0] == "冒险家尾羽"@[0]);
            assert(false);
        }
        if "游医的枭羽"@ == "冒险家怀表"@ {
            assert("游医的枭羽"@[0] == "冒险家怀表"@[0]);
            assert(false);
        }
        if "游医的枭羽"@ == "冒险家金杯"@ {
            assert("游医的枭羽"@[0] == "冒险家金杯"@[0]);
            assert(false);
        }
        if "游医的枭羽"@ == "冒险家头带"@ {
            assert("游医的枭羽"@[0] == "冒险家头带"@[0]);
            assert(false);
        }
        if "游医的枭羽"@ == "幸运儿绿花"@ {
            assert("游医的枭羽"@[0] == "幸运儿绿花"@[0]);
            assert(false);
        }
        if "游医的枭羽"@ == "幸运儿鹰羽"@ {
            assert("游医的枭羽"@[0] == "幸运儿鹰羽"@[0]);
            assert(false);
        }
        if "游医的枭羽"@ == "幸运儿沙漏"@ {
            assert("游医的枭羽"@[0] == "幸运儿沙漏"@[0]);
            assert(false);
        }
        if "游医的枭羽"@ == "幸运儿之杯"@ {
            assert("游医的枭羽"@[0] == "幸运儿之杯"@[0]);
            assert(false);
        }
        if "游医的枭羽"@ == "幸运儿银冠"@ {
            assert("游医的枭羽"@[0] == "幸运儿银冠"@[0]);
            assert(false);
        }
        if "游医的枭羽"@ == "游医的银莲"@ {
            assert("游医的枭羽"@[3] == "游医的银莲"@[3]);
            assert(false);
        }
        assert(name_id(corpus_at(137)) == 137);
    } else if i == 138 {
        if "游医的怀钟"@ == "雷鸟的怜悯"@ {
            assert("游医的怀钟"@[0] == "雷鸟的怜悯"@[0]);
            assert(false);
        }
        if "游医的怀钟"@ == "雷灾的孑遗"@ {
            assert("游医的怀钟"@[0] == "雷灾的孑遗"@[0]);
            assert(false);
        }
        if "游医的怀钟"@ == "雷霆的时计"@ {
            assert("游医的怀钟"@[0] == "雷霆的时计"@[0]);
            assert(false);
        }
        if "游医的怀钟"@ == "降雷的凶兆"@ {
            assert("游医的怀钟"@[0] == "降雷的凶兆"@[0]);
            assert(false);
        }
        if "游医的怀钟"@ == "唤雷的头冠"@ {
            assert("游医的怀钟"@[0] == "唤雷的头冠"@[0]);
            assert(false);
        }
        if "游医的怀钟"@ == "乐团的晨光"@ {
            assert("游医的怀钟"@[0] == "乐团的晨光"@[0]);
            assert(false);
        }
        if "游医的怀钟"@ == "琴师的箭羽"@ {
            assert("游医的怀钟"@[0] == "琴师的箭羽"@[0]);
            assert(false);
        }
        if "游医的怀钟"@ == "终幕的时计"@ {
            assert("游医的怀钟"@[0] == "终幕的时计"@[0]);
            assert(false);
        }
        if "游医的怀钟"@ == "终末的时计"@ {
            assert("游医的怀钟"@[0] == "终末的时计"@[0]);
            assert(false);
        }
        if "游医的怀钟"@ == "吟游者之壶"@ {
            assert("游医的怀钟"@[0] == "吟游者之壶"@[0]);
            assert(false);
        }
        if "游医的怀钟"@ == "指挥的礼帽"@ {
            assert("游医的怀钟"@[0] == "指挥的礼帽"@[0]);
            assert(false);
        }
        if "游医的怀钟"@ == "战狂的蔷薇"@ {
            assert("游医的怀钟"@[0] == "战狂的蔷薇"@[0]);
            assert(false);
        }
        if "游医的怀钟"@ == "战狂的翎羽"@ {
            assert("游医的怀钟"@[0] == "战狂的翎羽"@[0]);
            assert(false);
        }
        if "游医的怀钟"@ == "战狂的时计"@ {
            assert("游医的怀钟"@[0] == "战狂的时计"@[0]);
            assert(false);
        }
        if "游医的怀钟"@ == "战狂的骨杯"@ {
            assert("游医的怀钟"@[0] == "战狂的骨杯"@[0]);
            assert(false);
        }
        if "游医的怀钟"@ == "战狂的鬼面"@ {
            assert("游医的怀钟"@[0] == "战狂的鬼面"@[0]);
            assert(false);
        }
        if "游医的怀钟"@ == "勇士的勋章"@ {
            assert("游医的怀钟"@[0] == "勇士的勋章"@[0]);
            assert(false);
        }
        if "游医的怀钟"@ == "勇士的期许"@ {
            assert("游医的怀钟"@[0] == "勇士的期许"@[0]);
            assert(false);
        }
        if "游医的怀钟"@ == "勇士的坚毅"@ {
            assert("游医的怀钟"@[0] == "勇士的坚毅"@[0]);
            assert(false);
        }
        if "游医的怀钟"@ == "勇士的壮行"@ {
            assert("游医的怀钟"@[0] == "勇士的壮行"@[0]);
            assert(false);
        }
        if "游医的怀钟"@ == "勇士的冠冕"@ {
            assert("游医的怀钟"@[0] == "勇士的冠冕"@[0]);
            assert(false);
        }
        if "游医的怀钟"@ == "流放者之花"@ {
            assert("游医的怀钟"@[0] == "流放者之花"@[0]);
            assert(false);
        }
        if "游医的怀钟"@ == "流放者之羽"@ {
            assert("游医的怀钟"@[0] == "流放者之羽"@[0]);
            assert(false);
        }
        if "游医的怀钟"@ == "流放者怀表"@ {
            assert("游医的怀钟"@[0] == "流放者怀表"@[0]);
            assert(false);
        }
        if "游医的怀钟"@ == "流放者之杯"@ {
            assert("游医的怀钟"@[0] == "流放者之杯"@[0]);
            assert(false);
        }
        if "游医的怀钟"@ == "流放者头冠"@ {
            assert("游医的怀钟"@[0] == "流放者头冠"@[0]);
            assert(false);
        }
        if "游医的怀钟"@ == "赌徒的胸花"@ {
            assert("游医的怀钟"@[0] == "赌徒的胸花"@[0]);
            assert(false);
        }
        if "游医的怀钟"@ == "赌徒的羽饰"@ {
            assert("游医的怀钟"@[0] == "赌徒的羽饰"@[0]);
            assert(false);
        }
        if "游医的怀钟"@ == "赌徒的怀表"@ {
            assert("游医的怀钟"@[0] == "赌徒的怀表"@[0]);
            assert(false);
        }
        if "游医的怀钟"@ == "赌徒的骰盅"@ {
            assert("游医的怀钟"@[0] == "赌徒的骰盅"@[0]);
            assert(false);
        }
        if "游医的怀钟"@ == "赌徒的耳环"@ {
            assert("游医的怀钟"@[0] == "赌徒的耳环"@[0]);
            assert(false);
        }
        if "游医的怀钟"@ == "教官的胸花"@ {
            assert("游医的怀钟"@[0] == "教官的胸花"@[0]);
            assert(false);
        }
        if "游医的怀钟"@ == "教官的羽饰"@ {
            assert("游医的怀钟"@[0] == "教官的羽饰"@[0]);
            assert(false);
        }
        if "游医的怀钟"@ == "教官的怀表"@ {
            assert("游医的怀钟"@[0] == "教官的怀表"@[0]);
            assert(false);
        }
        if "游医的怀钟"@ == "教官的茶杯"@ {
            assert("游医的怀钟"@[0] == "教官的茶杯"@[0]);
            assert(false);
        }
        if "游医的怀钟"@ == "教官的帽子"@ {
            assert("游医的怀钟"@[0] == "教官的帽子"@[0]);
            assert(false);
        }
        if "游医的怀钟"@ == "武人的红花"@ {
            assert("游医的怀钟"@[0] == "武人的红花"@[0]);
            assert(false);
        }
        if "游医的怀钟"@ == "武人的羽饰"@ {
            assert("游医的怀钟"@[0] == "武人的羽饰"@[0]);
            assert(false);
        }
        if "游医的怀钟"@ == "武人的水漏"@ {
            assert("游医的怀钟"@[0] == "武人的水漏"@[0]);
            assert(false);
        }
        if "游医的怀钟"@ == "武人的酒杯"@ {
            assert("游医的怀钟"@[0] == "武人的酒杯"@[0]);
            assert(false);
        }
        if "游医的怀钟"@ == "武人的头巾"@ {
            assert("游医的怀钟"@[0] == "武人的头巾"@[0]);
            assert(false);
        }
        if "游医的怀钟"@ == "学士的书签"@ {
            assert("游医的怀钟"@[0] == "学士的书签"@[0]);
            assert(false);
        }
        if "游医的怀钟"@ == "学士的羽笔"@ {
            assert("游医的怀钟"@[0] == "学士的羽笔"@[0]);
            assert(false);
        }
        if "游医的怀钟"@ == "学士的时钟"@ {
            assert("游医的怀钟"@[0] == "学士的时钟"@[0]);
            assert(false);
        }
        if "游医的怀钟"@ == "学士的墨杯"@ {
            assert("游医的怀钟"@[0] == "学士的墨杯"@[0]);
            assert(false);
        }
        if "游医的怀钟"@ == "学士的镜片"@ {
            assert("游医的怀钟"@[0] == "学士的镜片"@[0]);
            assert(false);
        }
        if "游医的怀钟"@ == "冒险家之花"@ {
            assert("游医的怀钟"@[0] == "冒险家之花"@[0]);
            assert(false);
        }
        if "游医的怀钟"@ == "冒险家尾羽"@ {
            assert("游医的怀钟"@[0] == "冒险家尾羽"@[0]);
            assert(false);
        }
        if "游医的怀钟"@ == "冒险家怀表"@ {
            assert("游医的怀钟"@[0] == "冒险家怀表"@[0]);
            assert(false);
        }
        if "游医的怀钟"@ == "冒险家金杯"@ {
            assert("游医的怀钟"@[0] == "冒险家金杯"@[0]);
            assert(false);
        }
        if "游医的怀钟"@ == "冒险家头带"@ {
            assert("游医的怀钟"@[0] == "冒险家头带"@[0]);
            assert(false);
        }
        if "游医的怀钟"@ == "幸运儿绿花"@ {
            assert("游医的怀钟"@[0] == "幸运儿绿花"@[0]);
            assert(false);
        }
        if "游医的怀钟"@ == "幸运儿鹰羽"@ {
            assert("游医的怀钟"@[0] == "幸运儿鹰羽"@[0]);
            assert(false);
        }
        if "游医的怀钟"@ == "幸运儿沙漏"@ {
            assert("游医的怀钟"@[0] == "幸运儿沙漏"@[0]);
            assert(false);
        }
        if "游医的怀钟"@ == "幸运儿之杯"@ {
            assert("游医的怀钟"@[0] == "幸运儿之杯"@[0]);
            assert(false);
        }
        if "游医的怀钟"@ == "幸运儿银冠"@ {
            assert("游医的怀钟"@[0] == "幸运儿银冠"@[0]);
            assert(false);
        }
        if "游医的怀钟"@ == "游医的银莲"@ {
            assert("游医的怀钟"@[3] == "游医的银莲"@[3]);
            assert(false);
        }
        if "游医的怀钟"@ == "游医的枭羽"@ {
            assert("游医的怀钟"@[3] == "游医的枭羽"@[3]);
            assert(false);
        }
        assert(name_id(corpus_at(138)) == 138);
    } else if i == 139 {
        if "游医的药壶"@ == "雷鸟的怜悯"@ {
            assert("游医的药壶"@[0] == "雷鸟的怜悯"@[0]);
            assert(false);
        }
        if "游医的药壶"@ == "雷灾的孑遗"@ {
            assert("游医的药壶"@[0] == "雷灾的孑遗"@[0]);
            assert(false);
        }
        if "游医的药壶"@ == "雷霆的时计"@ {
            assert("游医的药壶"@[0] == "雷霆的时计"@[0]);
            assert(false);
        }
        if "游医的药壶"@ == "降雷的凶兆"@ {
            assert("游医的药壶"@[0] == "降雷的凶兆"@[0]);
            assert(false);
        }
        if "游医的药壶"@ == "唤雷的头冠"@ {
            assert("游医的药壶"@[0] == "唤雷的头冠"@[0]);
            assert(false);
        }
        if "游医的药壶"@ == "乐团的晨光"@ {
            assert("游医的药壶"@[0] == "乐团的晨光"@[0]);
            assert(false);
        }
        if "游医的药壶"@ == "琴师的箭羽"@ {
            assert("游医的药壶"@[0] == "琴师的箭羽"@[0]);
            assert(false);
        }
        if "游医的药壶"@ == "终幕的时计"@ {
            assert("游医的药壶"@[0] == "终幕的时计"@[0]);
            assert(false);
        }
        if "游医的药壶"@ == "终末的时计"@ {
            assert("游医的药壶"@[0] == "终末的时计"@[0]);
            assert(false);
        }
        if "游医的药壶"@ == "吟游者之壶"@ {
            assert("游医的药壶"@[0] == "吟游者之壶"@[0]);
            assert(false);
        }
        if "游医的药壶"@ == "指挥的礼帽"@ {
            assert("游医的药壶"@[0] == "指挥的礼帽"@[0]);
            assert(false);
        }
        if "游医的药壶"@ == "战狂的蔷薇"@ {
            assert("游医的药壶"@[0] == "战狂的蔷薇"@[0]);
            assert(false);
        }
        if "游医的药壶"@ == "战狂的翎羽"@ {
            assert("游医的药壶"@[0] == "战狂的翎羽"@[0]);
            assert(false);
        }
        if "游医的药壶"@ == "战狂的时计"@ {
            assert("游医的药壶"@[0] == "战狂的时计"@[0]);
            assert(false);
        }
        if "游医的药壶"@ == "战狂的骨杯"@ {
            assert("游医的药壶"@[0] == "战狂的骨杯"@[0]);
            assert(false);
        }
        if "游医的药壶"@ == "战狂的鬼面"@ {
            assert("游医的药壶"@[0] == "战狂的鬼面"@[0]);
            assert(false);
        }
        if "游医的药壶"@ == "勇士的勋章"@ {
            assert("游医的药壶"@[0] == "勇士的勋章"@[0]);
            assert(false);
        }
        if "游医的药壶"@ == "勇士的期许"@ {
            assert("游医的药壶"@[0] == "勇士的期许"@[0]);
            assert(false);
        }
        if "游医的药壶"@ == "勇士的坚毅"@ {
            assert("游医的药壶"@[0] == "勇士的坚毅"@[0]);
            assert(false);
        }
        if "游医的药壶"@ == "勇士的壮行"@ {
            assert("游医的药壶"@[0] == "勇士的壮行"@[0]);
            assert(false);
        }
        if "游医的药壶"@ == "勇士的冠冕"@ {
            assert("游医的药壶"@[0] == "勇士的冠冕"@[0]);
            assert(false);
        }
        if "游医的药壶"@ == "流放者之花"@ {
            assert("游医的药壶"@[0] == "流放者之花"@[0]);
            assert(false);
        }
        if "游医的药壶"@ == "流放者之羽"@ {
            assert("游医的药壶"@[0] == "流放者之羽"@[0]);
            assert(false);
        }
        if "游医的药壶"@ == "流放者怀表"@ {
            assert("游医的药壶"@[0] == "流放者怀表"@[0]);
            assert(false);
        }
        if "游医的药壶"@ == "流放者之杯"@ {
            assert("游医的药壶"@[0] == "流放者之杯"@[0]);
            assert(false);
        }
        if "游医的药壶"@ == "流放者头冠"@ {
            assert("游医的药壶"@[0] == "流放者头冠"@[0]);
            assert(false);
        }
        if "游医的药壶"@ == "赌徒的胸花"@ {
            assert("游医的药壶"@[0] == "赌徒的胸花"@[0]);
            assert(false);
        }
        if "游医的药壶"@ == "赌徒的羽饰"@ {
            assert("游医的药壶"@[0] == "赌徒的羽饰"@[0]);
            assert(false);
        }
        if "游医的药壶"@ == "赌徒的怀表"@ {
            assert("游医的药壶"@[0] == "赌徒的怀表"@[0]);
            assert(false);
        }
        if "游医的药壶"@ == "赌徒的骰盅"@ {
            assert("游医的药壶"@[0] == "赌徒的骰盅"@[0]);
            assert(false);
        }
        if "游医的药壶"@ == "赌徒的耳环"@ {
            assert("游医的药壶"@[0] == "赌徒的耳环"@[0]);
            assert(false);
        }
        if "游医的药壶"@ == "教官的胸花"@ {
            assert("游医的药壶"@[0] == "教官的胸花"@[0]);
            assert(false);
        }
        if "游医的药壶"@ == "教官的羽饰"@ {
            assert("游医的药壶"@[0] == "教官的羽饰"@[0]);
            assert(false);
        }
        if "游医的药壶"@ == "教官的怀表"@ {
            assert("游医的药壶"@[0] == "教官的怀表"@[0]);
            assert(false);
        }
        if "游医的药壶"@ == "教官的茶杯"@ {
            assert("游医的药壶"@[0] == "教官的茶杯"@[0]);
            assert(false);
        }
        if "游医的药壶"@ == "教官的帽子"@ {
            assert("游医的药壶"@[0] == "教官的帽子"@[0]);
            assert(false);
        }
        if "游医的药壶"@ == "武人的红花"@ {
            assert("游医的药壶"@[0] == "武人的红花"@[0]);
            assert(false);
        }
        if "游医的药壶"@ == "武人的羽饰"@ {
            assert("游医的药壶"@[0] == "武人的羽饰"@[0]);
            assert(false);
        }
        if "游医的药壶"@ == "武人的水漏"@ {
            assert("游医的药壶"@[0] == "武人的水漏"@[0]);
            assert(false);
        }
        if "游医的药壶"@ == "武人的酒杯"@ {
            assert("游医的药壶"@[0] == "武人的酒杯"@[0]);
            assert(false);
        }
        if "游医的药壶"@ == "武人的头巾"@ {
            assert("游医的药壶"@[0] == "武人的头巾"@[0]);
            assert(false);
        }
        if "游医的药壶"@ == "学士的书签"@ {
            assert("游医的药壶"@[0] == "学士的书签"@[0]);
            assert(false);
        }
        if "游医的药壶"@ == "学士的羽笔"@ {
            assert("游医的药壶"@[0] == "学士的羽笔"@[0]);
            assert(false);
        }
        if "游医的药壶"@ == "学士的时钟"@ {
            assert("游医的药壶"@[0] == "学士的时钟"@[0]);
            assert(false);
        }
        if "游医的药壶"@ == "学士的墨杯"@ {
            assert("游医的药壶"@[0] == "学士的墨杯"@[0]);
            assert(false);
        }
        if "游医的药壶"@ == "学士的镜片"@ {
            assert("游医的药壶"@[0] == "学士的镜片"@[0]);
            assert(false);
        }
        if "游医的药壶"@ == "冒险家之花"@ {
            assert("游医的药壶"@[0] == "冒险家之花"@[0]);
            assert(false);
        }
        if "游医的药壶"@ == "冒险家尾羽"@ {
            assert("游医的药壶"@[0] == "冒险家尾羽"@[0]);
            assert(false);
        }
        if "游医的药壶"@ == "冒险家怀表"@ {
            assert("游医的药壶"@[0] == "冒险家怀表"@[0]);
            assert(false);
        }
        if "游医的药壶"@ == "冒险家金杯"@ {
            assert("游医的药壶"@[0] == "冒险家金杯"@[0]);
            assert(false);
        }
        if "游医的药壶"@ == "冒险家头带"@ {
            assert("游医的药壶"@[0] == "冒险家头带"@[0]);
            assert(false);
        }
        if "游医的药壶"@ == "幸运儿绿花"@ {
            assert("游医的药壶"@[0] == "幸运儿绿花"@[0]);
            assert(false);
        }
        if "游医的药壶"@ == "幸运儿鹰羽"@ {
            assert("游医的药壶"@[0] == "幸运儿鹰羽"@[0]);
            assert(false);
        }
        if "游医的药壶"@ == "幸运儿沙漏"@ {
            assert("游医的药壶"@[0] == "幸运儿沙漏"@[0]);
            assert(false);
        }
        if "游医的药壶"@ == "幸运儿之杯"@ {
            assert("游医的药壶"@[0] == "幸运儿之杯"@[0]);
            assert(false);
        }
        if "游医的药壶"@ == "幸运儿银冠"@ {
            assert("游医的药壶"@[0] == "幸运儿银冠"@[0]);
            assert(false);
        }
        if "游医的药壶"@ == "游医的银莲"@ {
            assert("游医的药壶"@[3] == "游医的银莲"@[3]);
            assert(false);
        }
        if "游医的药壶"@ == "游医的枭羽"@ {
            assert("游医的药壶"@[3] == "游医的枭羽"@[3]);
            assert(false);
        }
        if "游医的药壶"@ == "游医的怀钟"@ {
            assert("游医的药壶"@[3] == "游医的怀钟"@[3]);
            assert(false);
        }
        assert(name_id(corpus_at(139)) == 139);
    }
}

proof fn corpus_entry_chunk14(i: int)
    requires
        140 <= i < 150,
    ensures
        name_id(corpus_at(i)) == i,
{
    reveal_strlit("饰金胸花");
    reveal_strlit("追忆之风");
    reveal_strlit("坚铜罗盘");
    reveal_strlit("沉波之盏");
    reveal_strlit("酒渍船帽");
    reveal_strlit("宗室之花");
    reveal_strlit("宗室之翎");
    reveal_strlit("宗室时计");
    reveal_strlit("宗室银瓮");
    reveal_strlit("宗室面具");
    reveal_strlit("夏祭之花");
    reveal_strlit("夏祭终末");
    reveal_strlit("夏祭之刻");
    reveal_strlit("夏祭水玉");
    reveal_strlit("夏祭之面");
    reveal_strlit("平雷之心");
    reveal_strlit("平雷之羽");
    reveal_strlit("平雷之刻");
    reveal_strlit("平雷之器");
    reveal_strlit("平雷之冠");
    reveal_strlit("雷鸟的怜悯");
    reveal_strlit("雷灾的孑遗");
    reveal_strlit("雷霆的时计");
    reveal_strlit("降雷的凶兆");
    reveal_strlit("唤雷的头冠");
    reveal_strlit("乐团的晨光");
    reveal_strlit("琴师的箭羽");
    reveal_strlit("终幕的时计");
    reveal_strlit("终末的时计");
    reveal_strlit("吟游者之壶");
    reveal_strlit("指挥的礼帽");
    reveal_strlit("战狂的蔷薇");
    reveal_strlit("战狂的翎羽");
    reveal_strlit("战狂的时计");
    reveal_strlit("战狂的骨杯");
    reveal_strlit("战狂的鬼面");
    reveal_strlit("勇士的勋章");
    reveal_strlit("勇士的期许");
    reveal_strlit("勇士的坚毅");
    reveal_strlit("勇士的壮行");
    reveal_strlit("勇士的冠冕");
    reveal_strlit("守护之花");
    reveal_strlit("守护徽印");
    reveal_strlit("守护座钟");
    reveal_strlit("守护之皿");
    reveal_strlit("守护束带");
    reveal_strlit("流放者之花");
    reveal_strlit("流放者之羽");
    reveal_strlit("流放者怀表");
    reveal_strlit("流放者之杯");
    reveal_strlit("流放者头冠");
    reveal_strlit("赌徒的胸花");
    reveal_strlit("赌徒的羽饰");
    reveal_strlit("赌徒的怀表");
    reveal_strlit("赌徒的骰盅");
    reveal_strlit("赌徒的耳环");
    reveal_strlit("教官的胸花");
    reveal_strlit("教官的羽饰");
    reveal_strlit("教官的怀表");
    reveal_strlit("教官的茶杯");
    reveal_strlit("教官的帽子");
    reveal_strlit("武人的红花");
    reveal_strlit("武人的羽饰");
    reveal_strlit("武人的水漏");
    reveal_strlit("武人的酒杯");
    reveal_strlit("武人的头巾");
    reveal_strlit("祭水礼冠");
    reveal_strlit("祭火礼冠");
    reveal_strlit("祭雷礼冠");
    reveal_strlit("祭冰礼冠");
    reveal_strlit("故人之心");
    reveal_strlit("归乡之羽");
    reveal_strlit("逐光之石");
    reveal_strlit("异国之盏");
    reveal_strlit("感别之冠");
    reveal_strlit("学士的书签");
    reveal_strlit("学士的羽笔");
    reveal_strlit("学士的时钟");
    reveal_strlit("学士的墨杯");
    reveal_strlit("学士的镜片");
    reveal_strlit("奇迹之花");
    reveal_strlit("奇迹之羽");
    reveal_strlit("奇迹之沙");
    reveal_strlit("奇迹之杯");
    reveal_strlit("奇迹耳坠");
    reveal_strlit("冒险家之花");
    reveal_strlit("冒险家尾羽");
    reveal_strlit("冒险家怀表");
    reveal_strlit("冒险家金杯");
    reveal_strlit("冒险家头带");
    reveal_strlit("幸运儿绿花");
    reveal_strlit("幸运儿鹰羽");
    reveal_strlit("幸运儿沙漏");
    reveal_strlit("幸运儿之杯");
    reveal_strlit("幸运儿银冠");
    reveal_strlit("游医的银莲");
    reveal_strlit("游医的枭羽");
    reveal_strlit("游医的怀钟");
    reveal_strlit("游医的药壶");
    reveal_strlit("游医的方巾");
    reveal_strlit("勋绩之花");
    reveal_strlit("昭武翎羽");
    reveal_strlit("金铜时晷");
    reveal_strlit("盟誓金爵");
    reveal_strlit("将帅兜鍪");
    reveal_strlit("无垢之花");
    reveal_strlit("贤医之羽");
    reveal_strlit("停摆之刻");
    reveal_strlit("超越之盏");
    if i == 140 {
        if "游医的方巾"@ == "雷鸟的怜悯"@ {
            assert("游医的方巾"@[0] == "雷鸟的怜悯"@[0]);
            assert(false);
        }
        if "游医的方巾"@ == "雷灾的孑遗"@ {
            assert("游医的方巾"@[0] == "雷灾的孑遗"@[0]);
            assert(false);
        }
        if "游医的方巾"@ == "雷霆的时计"@ {
            assert("游医的方巾"@[0] == "雷霆的时计"@[0]);
            assert(false);
        }
        if "游医的方巾"@ == "降雷的凶兆"@ {
            assert("游医的方巾"@[0] == "降雷的凶兆"@[0]);
            assert(false);
        }
        if "游医的方巾"@ == "唤雷的头冠"@ {
            assert("游医的方巾"@[0] == "唤雷的头冠"@[0]);
            assert(false);
        }
        if "游医的方巾"@ == "乐团的晨光"@ {
            assert("游医的方巾"@[0] == "乐团的晨光"@[0]);
            assert(false);
        }
        if "游医的方巾"@ == "琴师的箭羽"@ {
            assert("游医的方巾"@[0] == "琴师的箭羽"@[0]);
            assert(false);
        }
        if "游医的方巾"@ == "终幕的时计"@ {
            assert("游医的方巾"@[0] == "终幕的时计"@[0]);
            assert(false);
        }
        if "游医的方巾"@ == "终末的时计"@ {
            assert("游医的方巾"@[0] == "终末的时计"@[0]);
            assert(false);
        }
        if "游医的方巾"@ == "吟游者之壶"@ {
            assert("游医的方巾"@[0] == "吟游者之壶"@[0]);
            assert(false);
        }
        if "游医的方巾"@ == "指挥的礼帽"@ {
            assert("游医的方巾"@[0] == "指挥的礼帽"@[0]);
            assert(false);
        }
        if "游医的方巾"@ == "战狂的蔷薇"@ {
            assert("游医的方巾"@[0] == "战狂的蔷薇"@[0]);
            assert(false);
        }
        if "游医的方巾"@ == "战狂的翎羽"@ {
            assert("游医的方巾"@[0] == "战狂的翎羽"@[0]);
            assert(false);
        }
        if "游医的方巾"@ == "战狂的时计"@ {
            assert("游医的方巾"@[0] == "战狂的时计"@[0]);
            assert(false);
        }
        if "游医的方巾"@ == "战狂的骨杯"@ {
            assert("游医的方巾"@[0] == "战狂的骨杯"@[0]);
            assert(false);
        }
        if "游医的方巾"@ == "战狂的鬼面"@ {
            assert("游医的方巾"@[0] == "战狂的鬼面"@[0]);
            assert(false);
        }
        if "游医的方巾"@ == "勇士的勋章"@ {
            assert("游医的方巾"@[0] == "勇士的勋章"@[0]);
            assert(false);
        }
        if "游医的方巾"@ == "勇士的期许"@ {
            assert("游医的方巾"@[0] == "勇士的期许"@[0]);
            assert(false);
        }
        if "游医的方巾"@ == "勇士的坚毅"@ {
            assert("游医的方巾"@[0] == "勇士的坚毅"@[0]);
            assert(false);
        }
        if "游医的方巾"@ == "勇士的壮行"@ {
            assert("游医的方巾"@[0] == "勇士的壮行"@[0]);
            assert(false);
        }
        if "游医的方巾"@ == "勇士的冠冕"@ {
            assert("游医的方巾"@[0] == "勇士的冠冕"@[0]);
            assert(false);
        }
        if "游医的方巾"@ == "流放者之花"@ {
            assert("游医的方巾"@[0] == "流放者之花"@[0]);
            assert(false);
        }
        if "游医的方巾"@ == "流放者之羽"@ {
            assert("游医的方巾"@[0] == "流放者之羽"@[0]);
            assert(false);
        }
        if "游医的方巾"@ == "流放者怀表"@ {
            assert("游医的方巾"@[0] == "流放者怀表"@[0]);
            assert(false);
        }
        if "游医的方巾"@ == "流放者之杯"@ {
            assert("游医的方巾"@[0] == "流放者之杯"@[0]);
            assert(false);
        }
        if "游医的方巾"@ == "流放者头冠"@ {
            assert("游医的方巾"@[0] == "流放者头冠"@[0]);
            assert(false);
        }
        if "游医的方巾"@ == "赌徒的胸花"@ {
            assert("游医的方巾"@[0] == "赌徒的胸花"@[0]);
            assert(false);
        }
        if "游医的方巾"@ == "赌徒的羽饰"@ {
            assert("游医的方巾"@[0] == "赌徒的羽饰"@[0]);
            assert(false);
        }
        if "游医的方巾"@ == "赌徒的怀表"@ {
            assert("游医的方巾"@[0] == "赌徒的怀表"@[0]);
            assert(false);
        }
        if "游医的方巾"@ == "赌徒的骰盅"@ {
            assert("游医的方巾"@[0] == "赌徒的骰盅"@[0]);
            assert(false);
        }
        if "游医的方巾"@ == "赌徒的耳环"@ {
            assert("游医的方巾"@[0] == "赌徒的耳环"@[0]);
            assert(false);
        }
        if "游医的方巾"@ == "教官的胸花"@ {
            assert("游医的方巾"@[0] == "教官的胸花"@[0]);
            assert(false);
        }
        if "游医的方巾"@ == "教官的羽饰"@ {
            assert("游医的方巾"@[0] == "教官的羽饰"@[0]);
            assert(false);
        }
        if "游医的方巾"@ == "教官的怀表"@ {
            assert("游医的方巾"@[0] == "教官的怀表"@[0]);
            assert(false);
        }
        if "游医的方巾"@ == "教官的茶杯"@ {
            assert("游医的方巾"@[0] == "教官的茶杯"@[0]);
            assert(false);
        }
        if "游医的方巾"@ == "教官的帽子"@ {
            assert("游医的方巾"@[0] == "教官的帽子"@[0]);
            assert(false);
        }
        if "游医的方巾"@ == "武人的红花"@ {
            assert("游医的方巾"@[0] == "武人的红花"@[0]);
            assert(false);
        }
        if "游医的方巾"@ == "武人的羽饰"@ {
            assert("游医的方巾"@[0] == "武人的羽饰"@[0]);
            assert(false);
        }
        if "游医的方巾"@ == "武人的水漏"@ {
            assert("游医的方巾"@[0] == "武人的水漏"@[0]);
            assert(false);
        }
        if "游医的方巾"@ == "武人的酒杯"@ {
            assert("游医的方巾"@[0] == "武人的酒杯"@[0]);
            assert(false);
        }
        if "游医的方巾"@ == "武人的头巾"@ {
            assert("游医的方巾"@[0] == "武人的头巾"@[0]);
            assert(false);
        }
        if "游医的方巾"@ == "学士的书签"@ {
            assert("游医的方巾"@[0] == "学士的书签"@[0]);
            assert(false);
        }
        if "游医的方巾"@ == "学士的羽笔"@ {
            assert("游医的方巾"@[0] == "学士的羽笔"@[0]);
            assert(false);
        }
        if "游医的方巾"@ == "学士的时钟"@ {
            assert("游医的方巾"@[0] == "学士的时钟"@[0]);
            assert(false);
        }
        if "游医的方巾"@ == "学士的墨杯"@ {
            assert("游医的方巾"@[0] == "学士的墨杯"@[0]);
            assert(false);
        }
        if "游医的方巾"@ == "学士的镜片"@ {
            assert("游医的方巾"@[0] == "学士的镜片"@[0]);
            assert(false);
        }
        if "游医的方巾"@ == "冒险家之花"@ {
            assert("游医的方巾"@[0] == "冒险家之花"@[0]);
            assert(false);
        }
        if "游医的方巾"@ == "冒险家尾羽"@ {
            assert("游医的方巾"@[0] == "冒险家尾羽"@[0]);
            assert(false);
        }
        if "游医的方巾"@ == "冒险家怀表"@ {
            assert("游医的方巾"@[0] == "冒险家怀表"@[0]);
            assert(false);
        }
        if "游医的方巾"@ == "冒险家金杯"@ {
            assert("游医的方巾"@[0] == "冒险家金杯"@[0]);
            assert(false);
        }
        if "游医的方巾"@ == "冒险家头带"@ {
            assert("游医的方巾"@[0] == "冒险家头带"@[0]);
            assert(false);
        }
        if "游医的方巾"@ == "幸运儿绿花"@ {
            assert("游医的方巾"@[0] == "幸运儿绿花"@[0]);
            assert(false);
        }
        if "游医的方巾"@ == "幸运儿鹰羽"@ {
            assert("游医的方巾"@[0] == "幸运儿鹰羽"@[0]);
            assert(false);
        }
        if "游医的方巾"@ == "幸运儿沙漏"@ {
            assert("游医的方巾"@[0] == "幸运儿沙漏"@[0]);
            assert(false);
        }
        if "游医的方巾"@ == "幸运儿之杯"@ {
            assert("游医的方巾"@[0] == "幸运儿之杯"@[0]);
            assert(false);
        }
        if "游医的方巾"@ == "幸运儿银冠"@ {
            assert("游医的方巾"@[0] == "幸运儿银冠"@[0]);
            assert(false);
        }
        if "游医的方巾"@ == "游医的银莲"@ {
            assert("游医的方巾"@[3] == "游医的银莲"@[3]);
            assert(false);
        }
        if "游医的方巾"@ == "游医的枭羽"@ {
            assert("游医的方巾"@[3] == "游医的枭羽"@[3]);
            assert(false);
        }
        if "游医的方巾"@ == "游医的怀钟"@ {
            assert("游医的方巾"@[3] == "游医的怀钟"@[3]);
            assert(false);
        }
        if "游医的方巾"@ == "游医的药壶"@ {
            assert("游医的方巾"@[3] == "游医的药壶"@[3]);
            assert(false);
        }
        assert(name_id(corpus_at(140)) == 140);
    } else if i == 141 {
        if "勋绩之花"@ == "饰金胸花"@ {
            assert("勋绩之花"@[0] == "饰金胸花"@[0]);
            assert(false);
        }
        if "勋绩之花"@ == "追忆之风"@ {
            assert("勋绩之花"@[0] == "追忆之风"@[0]);
            assert(false);
        }
        if "勋绩之花"@ == "坚铜罗盘"@ {
            assert("勋绩之花"@[0] == "坚铜罗盘"@[0]);
            assert(false);
        }
        if "勋绩之花"@ == "沉波之盏"@ {
            assert("勋绩之花"@[0] == "沉波之盏"@[0]);
            assert(false);
        }
        if "勋绩之花"@ == "酒渍船帽"@ {
            assert("勋绩之花"@[0] == "酒渍船帽"@[0]);
            assert(false);
        }
        if "勋绩之花"@ == "宗室之花"@ {
            assert("勋绩之花"@[0] == "宗室之花"@[0]);
            assert(false);
        }
        if "勋绩之花"@ == "宗室之翎"@ {
            assert("勋绩之花"@[0] == "宗室之翎"@[0]);
            assert(false);
        }
        if "勋绩之花"@ == "宗室时计"@ {
            assert("勋绩之花"@[0] == "宗室时计"@[0]);
            assert(false);
        }
        if "勋绩之花"@ == "宗室银瓮"@ {
            assert("勋绩之花"@[0] == "宗室银瓮"@[0]);
            assert(false);
        }
        if "勋绩之花"@ == "宗室面具"@ {
            assert("勋绩之花"@[0] == "宗室面具"@[0]);
            assert(false);
        }
        if "勋绩之花"@ == "夏祭之花"@ {
            assert("勋绩之花"@[0] == "夏祭之花"@[0]);
            assert(false);
        }
        if "勋绩之花"@ == "夏祭终末"@ {
            assert("勋绩之花"@[0] == "夏祭终末"@[0]);
            assert(false);
        }
        if "勋绩之花"@ == "夏祭之刻"@ {
            assert("勋绩之花"@[0] == "夏祭之刻"@[0]);
            assert(false);
        }
        if "勋绩之花"@ == "夏祭水玉"@ {
            assert("勋绩之花"@[0] == "夏祭水玉"@[0]);
            assert(false);
        }
        if "勋绩之花"@ == "夏祭之面"@ {
            assert("勋绩之花"@[0] == "夏祭之面"@[0]);
            assert(false);
        }
        if "勋绩之花"@ == "平雷之心"@ {
            assert("勋绩之花"@[0] == "平雷之心"@[0]);
            assert(false);
        }
        if "勋绩之花"@ == "平雷之羽"@ {
            assert("勋绩之花"@[0] == "平雷之羽"@[0]);
            assert(false);
        }
        if "勋绩之花"@ == "平雷之刻"@ {
            assert("勋绩之花"@[0] == "平雷之刻"@[0]);
            assert(false);
        }
        if "勋绩之花"@ == "平雷之器"@ {
            assert("勋绩之花"@[0] == "平雷之器"@[0]);
            assert(false);
        }
        if "勋绩之花"@ == "平雷之冠"@ {
            assert("勋绩之花"@[0] == "平雷之冠"@[0]);
            assert(false);
        }
        if "勋绩之花"@ == "守护之花"@ {
            assert("勋绩之花"@[0] == "守护之花"@[0]);
            assert(false);
        }
        if "勋绩之花"@ == "守护徽印"@ {
            assert("勋绩之花"@[0] == "守护徽印"@[0]);
            assert(false);
        }
        if "勋绩之花"@ == "守护座钟"@ {
            assert("勋绩之花"@[0] == "守护座钟"@[0]);
            assert(false);
        }
        if "勋绩之花"@ == "守护之皿"@ {
            assert("勋绩之花"@[0] == "守护之皿"@[0]);
            assert(false);
        }
        if "勋绩之花"@ == "守护束带"@ {
            assert("勋绩之花"@[0] == "守护束带"@[0]);
            assert(false);
        }
        if "勋绩之花"@ == "祭水礼冠"@ {
            assert("勋绩之花"@[0] == "祭水礼冠"@[0]);
            assert(false);
        }
        if "勋绩之花"@ == "祭火礼冠"@ {
            assert("勋绩之花"@[0] == "祭火礼冠"@[0]);
            assert(false);
        }
        if "勋绩之花"@ == "祭雷礼冠"@ {
            assert("勋绩之花"@[0] == "祭雷礼冠"@[0]);
            assert(false);
        }
        if "勋绩之花"@ == "祭冰礼冠"@ {
            assert("勋绩之花"@[0] == "祭冰礼冠"@[0]);
            assert(false);
        }
        if "勋绩之花"@ == "故人之心"@ {
            assert("勋绩之花"@[0] == "故人之心"@[0]);
            assert(false);
        }
        if "勋绩之花"@ == "归乡之羽"@ {
            assert("勋绩之花"@[0] == "归乡之羽"@[0]);
            assert(false);
        }
        if "勋绩之花"@ == "逐光之石"@ {
            assert("勋绩之花"@[0] == "逐光之石"@[0]);
            assert(false);
        }
        if "勋绩之花"@ == "异国之盏"@ {
            assert("勋绩之花"@[0] == "异国之盏"@[0]);
            assert(false);
        }
        if "勋绩之花"@ == "感别之冠"@ {
            assert("勋绩之花"@[0] == "感别之冠"@[0]);
            assert(false);
        }
        if "勋绩之花"@ == "奇迹之花"@ {
            assert("勋绩之花"@[0] == "奇迹之花"@[0]);
            assert(false);
        }
        if "勋绩之花"@ == "奇迹之羽"@ {
            assert("勋绩之花"@[0] == "奇迹之羽"@[0]);
            assert(false);
        }
        if "勋绩之花"@ == "奇迹之沙"@ {
            assert("勋绩之花"@[0] == "奇迹之沙"@[0]);
            assert(false);
        }
        if "勋绩之花"@ == "奇迹之杯"@ {
            assert("勋绩之花"@[0] == "奇迹之杯"@[0]);
            assert(false);
        }
        if "勋绩之花"@ == "奇迹耳坠"@ {
            assert("勋绩之花"@[0] == "奇迹耳坠"@[0]);
            assert(false);
        }
        assert(name_id(corpus_at(141)) == 141);
    } else if i == 142 {
        if "昭武翎羽"@ == "饰金胸花"@ {
            assert("昭武翎羽"@[0] == "饰金胸花"@[0]);
            assert(false);
        }
        if "昭武翎羽"@ == "追忆之风"@ {
            assert("昭武翎羽"@[0] == "追忆之风"@[0]);
            assert(false);
        }
        if "昭武翎羽"@ == "坚铜罗盘"@ {
            assert("昭武翎羽"@[0] == "坚铜罗盘"@[0]);
            assert(false);
        }
        if "昭武翎羽"@ == "沉波之盏"@ {
            assert("昭武翎羽"@[0] == "沉波之盏"@[0]);
            assert(false);
        }
        if "昭武翎羽"@ == "酒渍船帽"@ {
            assert("昭武翎羽"@[0] == "酒渍船帽"@[0]);
            assert(false);
        }
        if "昭武翎羽"@ == "宗室之花"@ {
            assert("昭武翎羽"@[0] == "宗室之花"@[0]);
            assert(false);
        }
        if "昭武翎羽"@ == "宗室之翎"@ {
            assert("昭武翎羽"@[0] == "宗室之翎"@[0]);
            assert(false);
        }
        if "昭武翎羽"@ == "宗室时计"@ {
            assert("昭武翎羽"@[0] == "宗室时计"@[0]);
            assert(false);
        }
        if "昭武翎羽"@ == "宗室银瓮"@ {
            assert("昭武翎羽"@[0] == "宗室银瓮"@[0]);
            assert(false);
        }
        if "昭武翎羽"@ == "宗室面具"@ {
            assert("昭武翎羽"@[0] == "宗室面具"@[0]);
            assert(false);
        }
        if "昭武翎羽"@ == "夏祭之花"@ {
            assert("昭武翎羽"@[0] == "夏祭之花"@[0]);
            assert(false);
        }
        if "昭武翎羽"@ == "夏祭终末"@ {
            assert("昭武翎羽"@[0] == "夏祭终末"@[0]);
            assert(false);
        }
        if "昭武翎羽"@ == "夏祭之刻"@ {
            assert("昭武翎羽"@[0] == "夏祭之刻"@[0]);
            assert(false);
        }
        if "昭武翎羽"@ == "夏祭水玉"@ {
            assert("昭武翎羽"@[0] == "夏祭水玉"@[0]);
            assert(false);
        }
        if "昭武翎羽"@ == "夏祭之面"@ {
            assert("昭武翎羽"@[0] == "夏祭之面"@[0]);
            assert(false);
        }
        if "昭武翎羽"@ == "平雷之心"@ {
            assert("昭武翎羽"@[0] == "平雷之心"@[0]);
            assert(false);
        }
        if "昭武翎羽"@ == "平雷之羽"@ {
            assert("昭武翎羽"@[0] == "平雷之羽"@[0]);
            assert(false);
        }
        if "昭武翎羽"@ == "平雷之刻"@ {
            assert("昭武翎羽"@[0] == "平雷之刻"@[0]);
            assert(false);
        }
        if "昭武翎羽"@ == "平雷之器"@ {
            assert("昭武翎羽"@[0] == "平雷之器"@[0]);
            assert(false);
        }
        if "昭武翎羽"@ == "平雷之冠"@ {
            assert("昭武翎羽"@[0] == "平雷之冠"@[0]);
            assert(false);
        }
        if "昭武翎羽"@ == "守护之花"@ {
            assert("昭武翎羽"@[0] == "守护之花"@[0]);
            assert(false);
        }
        if "昭武翎羽"@ == "守护徽印"@ {
            assert("昭武翎羽"@[0] == "守护徽印"@[0]);
            assert(false);
        }
        if "昭武翎羽"@ == "守护座钟"@ {
            assert("昭武翎羽"@[0] == "守护座钟"@[0]);
            assert(false);
        }
        if "昭武翎羽"@ == "守护之皿"@ {
            assert("昭武翎羽"@[0] == "守护之皿"@[0]);
            assert(false);
        }
        if "昭武翎羽"@ == "守护束带"@ {
            assert("昭武翎羽"@[0] == "守护束带"@[0]);
            assert(false);
        }
        if "昭武翎羽"@ == "祭水礼冠"@ {
            assert("昭武翎羽"@[0] == "祭水礼冠"@[0]);
            assert(false);
        }
        if "昭武翎羽"@ == "祭火礼冠"@ {
            assert("昭武翎羽"@[0] == "祭火礼冠"@[0]);
            assert(false);
        }
        if "昭武翎羽"@ == "祭雷礼冠"@ {
            assert("昭武翎羽"@[0] == "祭雷礼冠"@[0]);
            assert(false);
        }
        if "昭武翎羽"@ == "祭冰礼冠"@ {
            assert("昭武翎羽"@[0] == "祭冰礼冠"@[0]);
            assert(false);
        }
        if "昭武翎羽"@ == "故人之心"@ {
            assert("昭武翎羽"@[0] == "故人之心"@[0]);
            assert(false);
        }
        if "昭武翎羽"@ == "归乡之羽"@ {
            assert("昭武翎羽"@[0] == "归乡之羽"@[0]);
            assert(false);
        }
        if "昭武翎羽"@ == "逐光之石"@ {
            assert("昭武翎羽"@[0] == "逐光之石"@[0]);
            assert(false);
        }
        if "昭武翎羽"@ == "异国之盏"@ {
            assert("昭武翎羽"@[0] == "异国之盏"@[0]);
            assert(false);
        }
        if "昭武翎羽"@ == "感别之冠"@ {
            assert("昭武翎羽"@[0] == "感别之冠"@[0]);
            assert(false);
        }
        if "昭武翎羽"@ == "奇迹之花"@ {
            assert("昭武翎羽"@[0] == "奇迹之花"@[0]);
            assert(false);
        }
        if "昭武翎羽"@ == "奇迹之羽"@ {
            assert("昭武翎羽"@[0] == "奇迹之羽"@[0]);
            assert(false);
        }
        if "昭武翎羽"@ == "奇迹之沙"@ {
            assert("昭武翎羽"@[0] == "奇迹之沙"@[0]);
            assert(false);
        }
        if "昭武翎羽"@ == "奇迹之杯"@ {
            assert("昭武翎羽"@[0] == "奇迹之杯"@[0]);
            assert(false);
        }
        if "昭武翎羽"@ == "奇迹耳坠"@ {
            assert("昭武翎羽"@[0] == "奇迹耳坠"@[0]);
            assert(false);
        }
        if "昭武翎羽"@ == "勋绩之花"@ {
            assert("昭武翎羽"@[0] == "勋绩之花"@[0]);
            assert(false);
        }
        assert(name_id(corpus_at(142)) == 142);
    } else if i == 143 {
        if "金铜时晷"@ == "饰金胸花"@ {
            assert("金铜时晷"@[0] == "饰金胸花"@[0]);
            assert(false);
        }
        if "金铜时晷"@ == "追忆之风"@ {
            assert("金铜时晷"@[0] == "追忆之风"@[0]);
            assert(false);
        }
        if "金铜时晷"@ == "坚铜罗盘"@ {
            assert("金铜时晷"@[0] == "坚铜罗盘"@[0]);
            assert(false);
        }
        if "金铜时晷"@ == "沉波之盏"@ {
            assert("金铜时晷"@[0] == "沉波之盏"@[0]);
            assert(false);
        }
        if "金铜时晷"@ == "酒渍船帽"@ {
            assert("金铜时晷"@[0] == "酒渍船帽"@[0]);
            assert(false);
        }
        if "金铜时晷"@ == "宗室之花"@ {
            assert("金铜时晷"@[0] == "宗室之花"@[0]);
            assert(false);
        }
        if "金铜时晷"@ == "宗室之翎"@ {
            assert("金铜时晷"@[0] == "宗室之翎"@[0]);
            assert(false);
        }
        if "金铜时晷"@ == "宗室时计"@ {
            assert("金铜时晷"@[0] == "宗室时计"@[0]);
            assert(false);
        }
        if "金铜时晷"@ == "宗室银瓮"@ {
            assert("金铜时晷"@[0] == "宗室银瓮"@[0]);
            assert(false);
        }
        if "金铜时晷"@ == "宗室面具"@ {
            assert("金铜时晷"@[0] == "宗室面具"@[0]);
            assert(false);
        }
        if "金铜时晷"@ == "夏祭之花"@ {
            assert("金铜时晷"@[0] == "夏祭之花"@[0]);
            assert(false);
        }
        if "金铜时晷"@ == "夏祭终末"@ {
            assert("金铜时晷"@[0] == "夏祭终末"@[0]);
            assert(false);
        }
        if "金铜时晷"@ == "夏祭之刻"@ {
            assert("金铜时晷"@[0] == "夏祭之刻"@[0]);
            assert(false);
        }
        if "金铜时晷"@ == "夏祭水玉"@ {
            assert("金铜时晷"@[0] == "夏祭水玉"@[0]);
            assert(false);
        }
        if "金铜时晷"@ == "夏祭之面"@ {
            assert("金铜时晷"@[0] == "夏祭之面"@[0]);
            assert(false);
        }
        if "金铜时晷"@ == "平雷之心"@ {
            assert("金铜时晷"@[0] == "平雷之心"@[0]);
            assert(false);
        }
        if "金铜时晷"@ == "平雷之羽"@ {
            assert("金铜时晷"@[0] == "平雷之羽"@[0]);
            assert(false);
        }
        if "金铜时晷"@ == "平雷之刻"@ {
            assert("金铜时晷"@[0] == "平雷之刻"@[0]);
            assert(false);
        }
        if "金铜时晷"@ == "平雷之器"@ {
            assert("金铜时晷"@[0] == "平雷之器"@[0]);
            assert(false);
        }
        if "金铜时晷"@ == "平雷之冠"@ {
            assert("金铜时晷"@[0] == "平雷之冠"@[0]);
            assert(false);
        }
        if "金铜时晷"@ == "守护之花"@ {
            assert("金铜时晷"@[0] == "守护之花"@[0]);
            assert(false);
        }
        if "金铜时晷"@ == "守护徽印"@ {
            assert("金铜时晷"@[0] == "守护徽印"@[0]);
            assert(false);
        }
        if "金铜时晷"@ == "守护座钟"@ {
            assert("金铜时晷"@[0] == "守护座钟"@[0]);
            assert(false);
        }
        if "金铜时晷"@ == "守护之皿"@ {
            assert("金铜时晷"@[0] == "守护之皿"@[0]);
            assert(false);
        }
        if "金铜时晷"@ == "守护束带"@ {
            assert("金铜时晷"@[0] == "守护束带"@[0]);
            assert(false);
        }
        if "金铜时晷"@ == "祭水礼冠"@ {
            assert("金铜时晷"@[0] == "祭水礼冠"@[0]);
            assert(false);
        }
        if "金铜时晷"@ == "祭火礼冠"@ {
            assert("金铜时晷"@[0] == "祭火礼冠"@[0]);
            assert(false);
        }
        if "金铜时晷"@ == "祭雷礼冠"@ {
            assert("金铜时晷"@[0] == "祭雷礼冠"@[0]);
            assert(false);
        }
        if "金铜时晷"@ == "祭冰礼冠"@ {
            assert("金铜时晷"@[0] == "祭冰礼冠"@[0]);
            assert(false);
        }
        if "金铜时晷"@ == "故人之心"@ {
            assert("金铜时晷"@[0] == "故人之心"@[0]);
            assert(false);
        }
        if "金铜时晷"@ == "归乡之羽"@ {
            assert("金铜时晷"@[0] == "归乡之羽"@[0]);
            assert(false);
        }
        if "金铜时晷"@ == "逐光之石"@ {
            assert("金铜时晷"@[0] == "逐光之石"@[0]);
            assert(false);
        }
        if "金铜时晷"@ == "异国之盏"@ {
            assert("金铜时晷"@[0] == "异国之盏"@[0]);
            assert(false);
        }
        if "金铜时晷"@ == "感别之冠"@ {
            assert("金铜时晷"@[0] == "感别之冠"@[0]);
            assert(false);
        }
        if "金铜时晷"@ == "奇迹之花"@ {
            assert("金铜时晷"@[0] == "奇迹之花"@[0]);
            assert(false);
        }
        if "金铜时晷"@ == "奇迹之羽"@ {
            assert("金铜时晷"@[0] == "奇迹之羽"@[0]);
            assert(false);
        }
        if "金铜时晷"@ == "奇迹之沙"@ {
            assert("金铜时晷"@[0] == "奇迹之沙"@[0]);
            assert(false);
        }
        if "金铜时晷"@ == "奇迹之杯"@ {
            assert("金铜时晷"@[0] == "奇迹之杯"@[0]);
            assert(false);
        }
        if "金铜时晷"@ == "奇迹耳坠"@ {
            assert("金铜时晷"@[0] == "奇迹耳坠"@[0]);
            assert(false);
        }
        if "金铜时晷"@ == "勋绩之花"@ {
            assert("金铜时晷"@[0] == "勋绩之花"@[0]);
            assert(false);
        }
        if "金铜时晷"@ == "昭武翎羽"@ {
            assert("金铜时晷"@[0] == "昭武翎羽"@[0]);
            assert(false);
        }
        assert(name_id(corpus_at(143)) == 143);
    } else if i == 144 {
        if "盟誓金爵"@ == "饰金胸花"@ {
            assert("盟誓金爵"@[0] == "饰金胸花"@[0]);
            assert(false);
        }
        if "盟誓金爵"@ == "追忆之风"@ {
            assert("盟誓金爵"@[0] == "追忆之风"@[0]);
            assert(false);
        }
        if "盟誓金爵"@ == "坚铜罗盘"@ {
            assert("盟誓金爵"@[0] == "坚铜罗盘"@[0]);
            assert(false);
        }
        if "盟誓金爵"@ == "沉波之盏"@ {
            assert("盟誓金爵"@[0] == "沉波之盏"@[0]);
            assert(false);
        }
        if "盟誓金爵"@ == "酒渍船帽"@ {
            assert("盟誓金爵"@[0] == "酒渍船帽"@[0]);
            assert(false);
        }
        if "盟誓金爵"@ == "宗室之花"@ {
            assert("盟誓金爵"@[0] == "宗室之花"@[0]);
            assert(false);
        }
        if "盟誓金爵"@ == "宗室之翎"@ {
            assert("盟誓金爵"@[0] == "宗室之翎"@[0]);
            assert(false);
        }
        if "盟誓金爵"@ == "宗室时计"@ {
            assert("盟誓金爵"@[0] == "宗室时计"@[0]);
            assert(false);
        }
        if "盟誓金爵"@ == "宗室银瓮"@ {
            assert("盟誓金爵"@[0] == "宗室银瓮"@[0]);
            assert(false);
        }
        if "盟誓金爵"@ == "宗室面具"@ {
            assert("盟誓金爵"@[0] == "宗室面具"@[0]);
            assert(false);
        }
        if "盟誓金爵"@ == "夏祭之花"@ {
            assert("盟誓金爵"@[0] == "夏祭之花"@[0]);
            assert(false);
        }
        if "盟誓金爵"@ == "夏祭终末"@ {
            assert("盟誓金爵"@[0] == "夏祭终末"@[0]);
            assert(false);
        }
        if "盟誓金爵"@ == "夏祭之刻"@ {
            assert("盟誓金爵"@[0] == "夏祭之刻"@[0]);
            assert(false);
        }
        if "盟誓金爵"@ == "夏祭水玉"@ {
            assert("盟誓金爵"@[0] == "夏祭水玉"@[0]);
            assert(false);
        }
        if "盟誓金爵"@ == "夏祭之面"@ {
            assert("盟誓金爵"@[0] == "夏祭之面"@[0]);
            assert(false);
        }
        if "盟誓金爵"@ == "平雷之心"@ {
            assert("盟誓金爵"@[0] == "平雷之心"@[0]);
            assert(false);
        }
        if "盟誓金爵"@ == "平雷之羽"@ {
            assert("盟誓金爵"@[0] == "平雷之羽"@[0]);
            assert(false);
        }
        if "盟誓金爵"@ == "平雷之刻"@ {
            assert("盟誓金爵"@[0] == "平雷之刻"@[0]);
            assert(false);
        }
        if "盟誓金爵"@ == "平雷之器"@ {
            assert("盟誓金爵"@[0] == "平雷之器"@[0]);
            assert(false);
        }
        if "盟誓金爵"@ == "平雷之冠"@ {
            assert("盟誓金爵"@[0] == "平雷之冠"@[0]);
            assert(false);
        }
        if "盟誓金爵"@ == "守护之花"@ {
            assert("盟誓金爵"@[0] == "守护之花"@[0]);
            assert(false);
        }
        if "盟誓金爵"@ == "守护徽印"@ {
            assert("盟誓金爵"@[0] == "守护徽印"@[0]);
            assert(false);
        }
        if "盟誓金爵"@ == "守护座钟"@ {
            assert("盟誓金爵"@[0] == "守护座钟"@[0]);
            assert(false);
        }
        if "盟誓金爵"@ == "守护之皿"@ {
            assert("盟誓金爵"@[0] == "守护之皿"@[0]);
            assert(false);
        }
        if "盟誓金爵"@ == "守护束带"@ {
            assert("盟誓金爵"@[0] == "守护束带"@[0]);
            assert(false);
        }
        if "盟誓金爵"@ == "祭水礼冠"@ {
            assert("盟誓金爵"@[0] == "祭水礼冠"@[0]);
            assert(false);
        }
        if "盟誓金爵"@ == "祭火礼冠"@ {
            assert("盟誓金爵"@[0] == "祭火礼冠"@[0]);
            assert(false);
        }
        if "盟誓金爵"@ == "祭雷礼冠"@ {
            assert("盟誓金爵"@[0] == "祭雷礼冠"@[0]);
            assert(false);
        }
        if "盟誓金爵"@ == "祭冰礼冠"@ {
            assert("盟誓金爵"@[0] == "祭冰礼冠"@[0]);
            assert(false);
        }
        if "盟誓金爵"@ == "故人之心"@ {
            assert("盟誓金爵"@[0] == "故人之心"@[0]);
            assert(false);
        }
        if "盟誓金爵"@ == "归乡之羽"@ {
            assert("盟誓金爵"@[0] == "归乡之羽"@[0]);
            assert(false);
        }
        if "盟誓金爵"@ == "逐光之石"@ {
            assert("盟誓金爵"@[0] == "逐光之石"@[0]);
            assert(false);
        }
        if "盟誓金爵"@ == "异国之盏"@ {
            assert("盟誓金爵"@[0] == "异国之盏"@[0]);
            assert(false);
        }
        if "盟誓金爵"@ == "感别之冠"@ {
            assert("盟誓金爵"@[0] == "感别之冠"@[0]);
            assert(false);
        }
        if "盟誓金爵"@ == "奇迹之花"@ {
            assert("盟誓金爵"@[0] == "奇迹之花"@[0]);
            assert(false);
        }
        if "盟誓金爵"@ == "奇迹之羽"@ {
            assert("盟誓金爵"@[0] == "奇迹之羽"@[0]);
            assert(false);
        }
        if "盟誓金爵"@ == "奇迹之沙"@ {
            assert("盟誓金爵"@[0] == "奇迹之沙"@[0]);
            assert(false);
        }
        if "盟誓金爵"@ == "奇迹之杯"@ {
            assert("盟誓金爵"@[0] == "奇迹之杯"@[0]);
            assert(false);
        }
        if "盟誓金爵"@ == "奇迹耳坠"@ {
            assert("盟誓金爵"@[0] == "奇迹耳坠"@[0]);
            assert(false);
        }
        if "盟誓金爵"@ == "勋绩之花"@ {
            assert("盟誓金爵"@[0] == "勋绩之花"@[0]);
            assert(false);
        }
        if "盟誓金爵"@ == "昭武翎羽"@ {
            assert("盟誓金爵"@[0] == "昭武翎羽"@[0]);
            assert(false);
        }
        if "盟誓金爵"@ == "金铜时晷"@ {
            assert("盟誓金爵"@[0] == "金铜时晷"@[0]);
            assert(false);
        }
        assert(name_id(corpus_at(144)) == 144);
    } else if i == 145 {
        if "将帅兜鍪"@ == "饰金胸花"@ {
            assert("将帅兜鍪"@[0] == "饰金胸花"@[0]);
            assert(false);
        }
        if "将帅兜鍪"@ == "追忆之风"@ {
            assert("将帅兜鍪"@[0] == "追忆之风"@[0]);
            assert(false);
        }
        if "将帅兜鍪"@ == "坚铜罗盘"@ {
            assert("将帅兜鍪"@[0] == "坚铜罗盘"@[0]);
            assert(false);
        }
        if "将帅兜鍪"@ == "沉波之盏"@ {
            assert("将帅兜鍪"@[0] == "沉波之盏"@[0]);
            assert(false);
        }
        if "将帅兜鍪"@ == "酒渍船帽"@ {
            assert("将帅兜鍪"@[0] == "酒渍船帽"@[0]);
            assert(false);
        }
        if "将帅兜鍪"@ == "宗室之花"@ {
            assert("将帅兜鍪"@[0] == "宗室之花"@[0]);
            assert(false);
        }
        if "将帅兜鍪"@ == "宗室之翎"@ {
            assert("将帅兜鍪"@[0] == "宗室之翎"@[0]);
            assert(false);
        }
        if "将帅兜鍪"@ == "宗室时计"@ {
            assert("将帅兜鍪"@[0] == "宗室时计"@[0]);
            assert(false);
        }
        if "将帅兜鍪"@ == "宗室银瓮"@ {
            assert("将帅兜鍪"@[0] == "宗室银瓮"@[0]);
            assert(false);
        }
        if "将帅兜鍪"@ == "宗室面具"@ {
            assert("将帅兜鍪"@[0] == "宗室面具"@[0]);
            assert(false);
        }
        if "将帅兜鍪"@ == "夏祭之花"@ {
            assert("将帅兜鍪"@[0] == "夏祭之花"@[0]);
            assert(false);
        }
        if "将帅兜鍪"@ == "夏祭终末"@ {
            assert("将帅兜鍪"@[0] == "夏祭终末"@[0]);
            assert(false);
        }
        if "将帅兜鍪"@ == "夏祭之刻"@ {
            assert("将帅兜鍪"@[0] == "夏祭之刻"@[0]);
            assert(false);
        }
        if "将帅兜鍪"@ == "夏祭水玉"@ {
            assert("将帅兜鍪"@[0] == "夏祭水玉"@[0]);
            assert(false);
        }
        if "将帅兜鍪"@ == "夏祭之面"@ {
            assert("将帅兜鍪"@[0] == "夏祭之面"@[0]);
            assert(false);
        }
        if "将帅兜鍪"@ == "平雷之心"@ {
            assert("将帅兜鍪"@[0] == "平雷之心"@[0]);
            assert(false);
        }
        if "将帅兜鍪"@ == "平雷之羽"@ {
            assert("将帅兜鍪"@[0] == "平雷之羽"@[0]);
            assert(false);
        }
        if "将帅兜鍪"@ == "平雷之刻"@ {
            assert("将帅兜鍪"@[0] == "平雷之刻"@[0]);
            assert(false);
        }
        if "将帅兜鍪"@ == "平雷之器"@ {
            assert("将帅兜鍪"@[0] == "平雷之器"@[0]);
            assert(false);
        }
        if "将帅兜鍪"@ == "平雷之冠"@ {
            assert("将帅兜鍪"@[0] == "平雷之冠"@[0]);
            assert(false);
        }
        if "将帅兜鍪"@ == "守护之花"@ {
            assert("将帅兜鍪"@[0] == "守护之花"@[0]);
            assert(false);
        }
        if "将帅兜鍪"@ == "守护徽印"@ {
            assert("将帅兜鍪"@[0] == "守护徽印"@[0]);
            assert(false);
        }
        if "将帅兜鍪"@ == "守护座钟"@ {
            assert("将帅兜鍪"@[0] == "守护座钟"@[0]);
            assert(false);
        }
        if "将帅兜鍪"@ == "守护之皿"@ {
            assert("将帅兜鍪"@[0] == "守护之皿"@[0]);
            assert(false);
        }
        if "将帅兜鍪"@ == "守护束带"@ {
            assert("将帅兜鍪"@[0] == "守护束带"@[0]);
            assert(false);
        }
        if "将帅兜鍪"@ == "祭水礼冠"@ {
            assert("将帅兜鍪"@[0] == "祭水礼冠"@[0]);
            assert(false);
        }
        if "将帅兜鍪"@ == "祭火礼冠"@ {
            assert("将帅兜鍪"@[0] == "祭火礼冠"@[0]);
            assert(false);
        }
        if "将帅兜鍪"@ == "祭雷礼冠"@ {
            assert("将帅兜鍪"@[0] == "祭雷礼冠"@[0]);
            assert(false);
        }
        if "将帅兜鍪"@ == "祭冰礼冠"@ {
            assert("将帅兜鍪"@[0] == "祭冰礼冠"@[0]);
            assert(false);
        }
        if "将帅兜鍪"@ == "故人之心"@ {
            assert("将帅兜鍪"@[0] == "故人之心"@[0]);
            assert(false);
        }
        if "将帅兜鍪"@ == "归乡之羽"@ {
            assert("将帅兜鍪"@[0] == "归乡之羽"@[0]);
            assert(false);
        }
        if "将帅兜鍪"@ == "逐光之石"@ {
            assert("将帅兜鍪"@[0] == "逐光之石"@[0]);
            assert(false);
        }
        if "将帅兜鍪"@ == "异国之盏"@ {
            assert("将帅兜鍪"@[0] == "异国之盏"@[0]);
            assert(false);
        }
        if "将帅兜鍪"@ == "感别之冠"@ {
            assert("将帅兜鍪"@[0] == "感别之冠"@[0]);
            assert(false);
        }
        if "将帅兜鍪"@ == "奇迹之花"@ {
            assert("将帅兜鍪"@[0] == "奇迹之花"@[0]);
            assert(false);
        }
        if "将帅兜鍪"@ == "奇迹之羽"@ {
            assert("将帅兜鍪"@[0] == "奇迹之羽"@[0]);
            assert(false);
        }
        if "将帅兜鍪"@ == "奇迹之沙"@ {
            assert("将帅兜鍪"@[0] == "奇迹之沙"@[0]);
            assert(false);
        }
        if "将帅兜鍪"@ == "奇迹之杯"@ {
            assert("将帅兜鍪"@[0] == "奇迹之杯"@[0]);
            assert(false);
        }
        if "将帅兜鍪"@ == "奇迹耳坠"@ {
            assert("将帅兜鍪"@[0] == "奇迹耳坠"@[0]);
            assert(false);
        }
        if "将帅兜鍪"@ == "勋绩之花"@ {
            assert("将帅兜鍪"@[0] == "勋绩之花"@[0]);
            assert(false);
        }
        if "将帅兜鍪"@ == "昭武翎羽"@ {
            assert("将帅兜鍪"@[0] == "昭武翎羽"@[0]);
            assert(false);
        }
        if "将帅兜鍪"@ == "金铜时晷"@ {
            assert("将帅兜鍪"@[0] == "金铜时晷"@[0]);
            assert(false);
        }
        if "将帅兜鍪"@ == "盟誓金爵"@ {
            assert("将帅兜鍪"@[0] == "盟誓金爵"@[0]);
            assert(false);
        }
        assert(name_id(corpus_at(145)) == 145);
    } else if i == 146 {
        if "无垢之花"@ == "饰金胸花"@ {
            assert("无垢之花"@[0] == "饰金胸花"@[0]);
            assert(false);
        }
        if "无垢之花"@ == "追忆之风"@ {
            assert("无垢之花"@[0] == "追忆之风"@[0]);
            assert(false);
        }
        if "无垢之花"@ == "坚铜罗盘"@ {
            assert("无垢之花"@[0] == "坚铜罗盘"@[0]);
            assert(false);
        }
        if "无垢之花"@ == "沉波之盏"@ {
            assert("无垢之花"@[0] == "沉波之盏"@[0]);
            assert(false);
        }
        if "无垢之花"@ == "酒渍船帽"@ {
            assert("无垢之花"@[0] == "酒渍船帽"@[0]);
            assert(false);
        }
        if "无垢之花"@ == "宗室之花"@ {
            assert("无垢之花"@[0] == "宗室之花"@[0]);
            assert(false);
        }
        if "无垢之花"@ == "宗室之翎"@ {
            assert("无垢之花"@[0] == "宗室之翎"@[0]);
            assert(false);
        }
        if "无垢之花"@ == "宗室时计"@ {
            assert("无垢之花"@[0] == "宗室时计"@[0]);
            assert(false);
        }
        if "无垢之花"@ == "宗室银瓮"@ {
            assert("无垢之花"@[0] == "宗室银瓮"@[0]);
            assert(false);
        }
        if "无垢之花"@ == "宗室面具"@ {
            assert("无垢之花"@[0] == "宗室面具"@[0]);
            assert(false);
        }
        if "无垢之花"@ == "夏祭之花"@ {
            assert("无垢之花"@[0] == "夏祭之花"@[0]);
            assert(false);
        }
        if "无垢之花"@ == "夏祭终末"@ {
            assert("无垢之花"@[0] == "夏祭终末"@[0]);
            assert(false);
        }
        if "无垢之花"@ == "夏祭之刻"@ {
            assert("无垢之花"@[0] == "夏祭之刻"@[0]);
            assert(false);
        }
        if "无垢之花"@ == "夏祭水玉"@ {
            assert("无垢之花"@[0] == "夏祭水玉"@[0]);
            assert(false);
        }
        if "无垢之花"@ == "夏祭之面"@ {
            assert("无垢之花"@[0] == "夏祭之面"@[0]);
            assert(false);
        }
        if "无垢之花"@ == "平雷之心"@ {
            assert("无垢之花"@[0] == "平雷之心"@[0]);
            assert(false);
        }
        if "无垢之花"@ == "平雷之羽"@ {
            assert("无垢之花"@[0] == "平雷之羽"@[0]);
            assert(false);
        }
        if "无垢之花"@ == "平雷之刻"@ {
            assert("无垢之花"@[0] == "平雷之刻"@[0]);
            assert(false);
        }
        if "无垢之花"@ == "平雷之器"@ {
            assert("无垢之花"@[0] == "平雷之器"@[0]);
            assert(false);
        }
        if "无垢之花"@ == "平雷之冠"@ {
            assert("无垢之花"@[0] == "平雷之冠"@[0]);
            assert(false);
        }
        if "无垢之花"@ == "守护之花"@ {
            assert("无垢之花"@[0] == "守护之花"@[0]);
            assert(false);
        }
        if "无垢之花"@ == "守护徽印"@ {
            assert("无垢之花"@[0] == "守护徽印"@[0]);
            assert(false);
        }
        if "无垢之花"@ == "守护座钟"@ {
            assert("无垢之花"@[0] == "守护座钟"@[0]);
            assert(false);
        }
        if "无垢之花"@ == "守护之皿"@ {
            assert("无垢之花"@[0] == "守护之皿"@[0]);
            assert(false);
        }
        if "无垢之花"@ == "守护束带"@ {
            assert("无垢之花"@[0] == "守护束带"@[0]);
            assert(false);
        }
        if "无垢之花"@ == "祭水礼冠"@ {
            assert("无垢之花"@[0] == "祭水礼冠"@[0]);
            assert(false);
        }
        if "无垢之花"@ == "祭火礼冠"@ {
            assert("无垢之花"@[0] == "祭火礼冠"@[0]);
            assert(false);
        }
        if "无垢之花"@ == "祭雷礼冠"@ {
            assert("无垢之花"@[0] == "祭雷礼冠"@[0]);
            assert(false);
        }
        if "无垢之花"@ == "祭冰礼冠"@ {
            assert("无垢之花"@[0] == "祭冰礼冠"@[0]);
            assert(false);
        }
        if "无垢之花"@ == "故人之心"@ {
            assert("无垢之花"@[0] == "故人之心"@[0]);
            assert(false);
        }
        if "无垢之花"@ == "归乡之羽"@ {
            assert("无垢之花"@[0] == "归乡之羽"@[0]);
            assert(false);
        }
        if "无垢之花"@ == "逐光之石"@ {
            assert("无垢之花"@[0] == "逐光之石"@[0]);
            assert(false);
        }
        if "无垢之花"@ == "异国之盏"@ {
            assert("无垢之花"@[0] == "异国之盏"@[0]);
            assert(false);
        }
        if "无垢之花"@ == "感别之冠"@ {
            assert("无垢之花"@[0] == "感别之冠"@[0]);
            assert(false);
        }
        if "无垢之花"@ == "奇迹之花"@ {
            assert("无垢之花"@[0] == "奇迹之花"@[0]);
            assert(false);
        }
        if "无垢之花"@ == "奇迹之羽"@ {
            assert("无垢之花"@[0] == "奇迹之羽"@[0]);
            assert(false);
        }
        if "无垢之花"@ == "奇迹之沙"@ {
            assert("无垢之花"@[0] == "奇迹之沙"@[0]);
            assert(false);
        }
        if "无垢之花"@ == "奇迹之杯"@ {
            assert("无垢之花"@[0] == "奇迹之杯"@[0]);
            assert(false);
        }
        if "无垢之花"@ == "奇迹耳坠"@ {
            assert("无垢之花"@[0] == "奇迹耳坠"@[0]);
            assert(false);
        }
        if "无垢之花"@ == "勋绩之花"@ {
            assert("无垢之花"@[0] == "勋绩之花"@[0]);
            assert(false);
        }
        if "无垢之花"@ == "昭武翎羽"@ {
            assert("无垢之花"@[0] == "昭武翎羽"@[0]);
            assert(false);
        }
        if "无垢之花"@ == "金铜时晷"@ {
            assert("无垢之花"@[0] == "金铜时晷"@[0]);
            assert(false);
        }
        if "无垢之花"@ == "盟誓金爵"@ {
            assert("无垢之花"@[0] == "盟誓金爵"@[0]);
            assert(false);
        }
        if "无垢之花"@ == "将帅兜鍪"@ {
            assert("无垢之花"@[0] == "将帅兜鍪"@[0]);
            assert(false);
        }
        assert(name_id(corpus_at(146)) == 146);
    } else if i == 147 {
        if "贤医之羽"@ == "饰金胸花"@ {
            assert("贤医之羽"@[0] == "饰金胸花"@[0]);
            assert(false);
        }
        if "贤医之羽"@ == "追忆之风"@ {
            assert("贤医之羽"@[0] == "追忆之风"@[0]);
            assert(false);
        }
        if "贤医之羽"@ == "坚铜罗盘"@ {
            assert("贤医之羽"@[0] == "坚铜罗盘"@[0]);
            assert(false);
        }
        if "贤医之羽"@ == "沉波之盏"@ {
            assert("贤医之羽"@[0] == "沉波之盏"@[0]);
            assert(false);
        }
        if "贤医之羽"@ == "酒渍船帽"@ {
            assert("贤医之羽"@[0] == "酒渍船帽"@[0]);
            assert(false);
        }
        if "贤医之羽"@ == "宗室之花"@ {
            assert("贤医之羽"@[0] == "宗室之花"@[0]);
            assert(false);
        }
        if "贤医之羽"@ == "宗室之翎"@ {
            assert("贤医之羽"@[0] == "宗室之翎"@[0]);
            assert(false);
        }
        if "贤医之羽"@ == "宗室时计"@ {
            assert("贤医之羽"@[0] == "宗室时计"@[0]);
            assert(false);
        }
        if "贤医之羽"@ == "宗室银瓮"@ {
            assert("贤医之羽"@[0] == "宗室银瓮"@[0]);
            assert(false);
        }
        if "贤医之羽"@ == "宗室面具"@ {
            assert("贤医之羽"@[0] == "宗室面具"@[0]);
            assert(false);
        }
        if "贤医之羽"@ == "夏祭之花"@ {
            assert("贤医之羽"@[0] == "夏祭之花"@[0]);
            assert(false);
        }
        if "贤医之羽"@ == "夏祭终末"@ {
            assert("贤医之羽"@[0] == "夏祭终末"@[0]);
            assert(false);
        }
        if "贤医之羽"@ == "夏祭之刻"@ {
            assert("贤医之羽"@[0] == "夏祭之刻"@[0]);
            assert(false);
        }
        if "贤医之羽"@ == "夏祭水玉"@ {
            assert("贤医之羽"@[0] == "夏祭水玉"@[0]);
            assert(false);
        }
        if "贤医之羽"@ == "夏祭之面"@ {
            assert("贤医之羽"@[0] == "夏祭之面"@[0]);
            assert(false);
        }
        if "贤医之羽"@ == "平雷之心"@ {
            assert("贤医之羽"@[0] == "平雷之心"@[0]);
            assert(false);
        }
        if "贤医之羽"@ == "平雷之羽"@ {
            assert("贤医之羽"@[0] == "平雷之羽"@[0]);
            assert(false);
        }
        if "贤医之羽"@ == "平雷之刻"@ {
            assert("贤医之羽"@[0] == "平雷之刻"@[0]);
            assert(false);
        }
        if "贤医之羽"@ == "平雷之器"@ {
            assert("贤医之羽"@[0] == "平雷之器"@[0]);
            assert(false);
        }
        if "贤医之羽"@ == "平雷之冠"@ {
            assert("贤医之羽"@[0] == "平雷之冠"@[0]);
            assert(false);
        }
        if "贤医之羽"@ == "守护之花"@ {
            assert("贤医之羽"@[0] == "守护之花"@[0]);
            assert(false);
        }
        if "贤医之羽"@ == "守护徽印"@ {
            assert("贤医之羽"@[0] == "守护徽印"@[0]);
            assert(false);
        }
        if "贤医之羽"@ == "守护座钟"@ {
            assert("贤医之羽"@[0] == "守护座钟"@[0]);
            assert(false);
        }
        if "贤医之羽"@ == "守护之皿"@ {
            assert("贤医之羽"@[0] == "守护之皿"@[0]);
            assert(false);
        }
        if "贤医之羽"@ == "守护束带"@ {
            assert("贤医之羽"@[0] == "守护束带"@[0]);
            assert(false);
        }
        if "贤医之羽"@ == "祭水礼冠"@ {
            assert("贤医之羽"@[0] == "祭水礼冠"@[0]);
            assert(false);
        }
        if "贤医之羽"@ == "祭火礼冠"@ {
            assert("贤医之羽"@[0] == "祭火礼冠"@[0]);
            assert(false);
        }
        if "贤医之羽"@ == "祭雷礼冠"@ {
            assert("贤医之羽"@[0] == "祭雷礼冠"@[0]);
            assert(false);
        }
        if "贤医之羽"@ == "祭冰礼冠"@ {
            assert("贤医之羽"@[0] == "祭冰礼冠"@[0]);
            assert(false);
        }
        if "贤医之羽"@ == "故人之心"@ {
            assert("贤医之羽"@[0] == "故人之心"@[0]);
            assert(false);
        }
        if "贤医之羽"@ == "归乡之羽"@ {
            assert("贤医之羽"@[0] == "归乡之羽"@[0]);
            assert(false);
        }
        if "贤医之羽"@ == "逐光之石"@ {
            assert("贤医之羽"@[0] == "逐光之石"@[0]);
            assert(false);
        }
        if "贤医之羽"@ == "异国之盏"@ {
            assert("贤医之羽"@[0] == "异国之盏"@[0]);
            assert(false);
        }
        if "贤医之羽"@ == "感别之冠"@ {
            assert("贤医之羽"@[0] == "感别之冠"@[0]);
            assert(false);
        }
        if "贤医之羽"@ == "奇迹之花"@ {
            assert("贤医之羽"@[0] == "奇迹之花"@[0]);
            assert(false);
        }
        if "贤医之羽"@ == "奇迹之羽"@ {
            assert("贤医之羽"@[0] == "奇迹之羽"@[0]);
            assert(false);
        }
        if "贤医之羽"@ == "奇迹之沙"@ {
            assert("贤医之羽"@[0] == "奇迹之沙"@[0]);
            assert(false);
        }
        if "贤医之羽"@ == "奇迹之杯"@ {
            assert("贤医之羽"@[0] == "奇迹之杯"@[0]);
            assert(false);
        }
        if "贤医之羽"@ == "奇迹耳坠"@ {
            assert("贤医之羽"@[0] == "奇迹耳坠"@[0]);
            assert(false);
        }
        if "贤医之羽"@ == "勋绩之花"@ {
            assert("贤医之羽"@[0] == "勋绩之花"@[0]);
            assert(false);
        }
        if "贤医之羽"@ == "昭武翎羽"@ {
            assert("贤医之羽"@[0] == "昭武翎羽"@[0]);
            assert(false);
        }
        if "贤医之羽"@ == "金铜时晷"@ {
            assert("贤医之羽"@[0] == "金铜时晷"@[0]);
            assert(false);
        }
        if "贤医之羽"@ == "盟誓金爵"@ {
            assert("贤医之羽"@[0] == "盟誓金爵"@[0]);
            assert(false);
        }
        if "贤医之羽"@ == "将帅兜鍪"@ {
            assert("贤医之羽"@[0] == "将帅兜鍪"@[0]);
            assert(false);
        }
        if "贤医之羽"@ == "无垢之花"@ {
            assert("贤医之羽"@[0] == "无垢之花"@[0]);
            assert(false);
        }
        assert(name_id(corpus_at(147)) == 147);
    } else if i == 148 {
        if "停摆之刻"@ == "饰金胸花"@ {
            assert("停摆之刻"@[0] == "饰金胸花"@[0]);
            assert(false);
        }
        if "停摆之刻"@ == "追忆之风"@ {
            assert("停摆之刻"@[0] == "追忆之风"@[0]);
            assert(false);
        }
        if "停摆之刻"@ == "坚铜罗盘"@ {
            assert("停摆之刻"@[0] == "坚铜罗盘"@[0]);
            assert(false);
        }
        if "停摆之刻"@ == "沉波之盏"@ {
            assert("停摆之刻"@[0] == "沉波之盏"@[0]);
            assert(false);
        }
        if "停摆之刻"@ == "酒渍船帽"@ {
            assert("停摆之刻"@[0] == "酒渍船帽"@[0]);
            assert(false);
        }
        if "停摆之刻"@ == "宗室之花"@ {
            assert("停摆之刻"@[0] == "宗室之花"@[0]);
            assert(false);
        }
        if "停摆之刻"@ == "宗室之翎"@ {
            assert("停摆之刻"@[0] == "宗室之翎"@[0]);
            assert(false);
        }
        if "停摆之刻"@ == "宗室时计"@ {
            assert("停摆之刻"@[0] == "宗室时计"@[0]);
            assert(false);
        }
        if "停摆之刻"@ == "宗室银瓮"@ {
            assert("停摆之刻"@[0] == "宗室银瓮"@[0]);
            assert(false);
        }
        if "停摆之刻"@ == "宗室面具"@ {
            assert("停摆之刻"@[0] == "宗室面具"@[0]);
            assert(false);
        }
        if "停摆之刻"@ == "夏祭之花"@ {
            assert("停摆之刻"@[0] == "夏祭之花"@[0]);
            assert(false);
        }
        if "停摆之刻"@ == "夏祭终末"@ {
            assert("停摆之刻"@[0] == "夏祭终末"@[0]);
            assert(false);
        }
        if "停摆之刻"@ == "夏祭之刻"@ {
            assert("停摆之刻"@[0] == "夏祭之刻"@[0]);
            assert(false);
        }
        if "停摆之刻"@ == "夏祭水玉"@ {
            assert("停摆之刻"@[0] == "夏祭水玉"@[0]);
            assert(false);
        }
        if "停摆之刻"@ == "夏祭之面"@ {
            assert("停摆之刻"@[0] == "夏祭之面"@[0]);
            assert(false);
        }
        if "停摆之刻"@ == "平雷之心"@ {
            assert("停摆之刻"@[0] == "平雷之心"@[0]);
            assert(false);
        }
        if "停摆之刻"@ == "平雷之羽"@ {
            assert("停摆之刻"@[0] == "平雷之羽"@[0]);
            assert(false);
        }
        if "停摆之刻"@ == "平雷之刻"@ {
            assert("停摆之刻"@[0] == "平雷之刻"@[0]);
            assert(false);
        }
        if "停摆之刻"@ == "平雷之器"@ {
            assert("停摆之刻"@[0] == "平雷之器"@[0]);
            assert(false);
        }
        if "停摆之刻"@ == "平雷之冠"@ {
            assert("停摆之刻"@[0] == "平雷之冠"@[0]);
            assert(false);
        }
        if "停摆之刻"@ == "守护之花"@ {
            assert("停摆之刻"@[0] == "守护之花"@[0]);
            assert(false);
        }
        if "停摆之刻"@ == "守护徽印"@ {
            assert("停摆之刻"@[0] == "守护徽印"@[0]);
            assert(false);
        }
        if "停摆之刻"@ == "守护座钟"@ {
            assert("停摆之刻"@[0] == "守护座钟"@[0]);
            assert(false);
        }
        if "停摆之刻"@ == "守护之皿"@ {
            assert("停摆之刻"@[0] == "守护之皿"@[0]);
            assert(false);
        }
        if "停摆之刻"@ == "守护束带"@ {
            assert("停摆之刻"@[0] == "守护束带"@[0]);
            assert(false);
        }
        if "停摆之刻"@ == "祭水礼冠"@ {
            assert("停摆之刻"@[0] == "祭水礼冠"@[0]);
            assert(false);
        }
        if "停摆之刻"@ == "祭火礼冠"@ {
            assert("停摆之刻"@[0] == "祭火礼冠"@[0]);
            assert(false);
        }
        if "停摆之刻"@ == "祭雷礼冠"@ {
            assert("停摆之刻"@[0] == "祭雷礼冠"@[0]);
            assert(false);
        }
        if "停摆之刻"@ == "祭冰礼冠"@ {
            assert("停摆之刻"@[0] == "祭冰礼冠"@[0]);
            assert(false);
        }
        if "停摆之刻"@ == "故人之心"@ {
            assert("停摆之刻"@[0] == "故人之心"@[0]);
            assert(false);
        }
        if "停摆之刻"@ == "归乡之羽"@ {
            assert("停摆之刻"@[0] == "归乡之羽"@[0]);
            assert(false);
        }
        if "停摆之刻"@ == "逐光之石"@ {
            assert("停摆之刻"@[0] == "逐光之石"@[0]);
            assert(false);
        }
        if "停摆之刻"@ == "异国之盏"@ {
            assert("停摆之刻"@[0] == "异国之盏"@[0]);
            assert(false);
        }
        if "停摆之刻"@ == "感别之冠"@ {
            assert("停摆之刻"@[0] == "感别之冠"@[0]);
            assert(false);
        }
        if "停摆之刻"@ == "奇迹之花"@ {
            assert("停摆之刻"@[0] == "奇迹之花"@[0]);
            assert(false);
        }
        if "停摆之刻"@ == "奇迹之羽"@ {
            assert("停摆之刻"@[0] == "奇迹之羽"@[0]);
            assert(false);
        }
        if "停摆之刻"@ == "奇迹之沙"@ {
            assert("停摆之刻"@[0] == "奇迹之沙"@[0]);
            assert(false);
        }
        if "停摆之刻"@ == "奇迹之杯"@ {
            assert("停摆之刻"@[0] == "奇迹之杯"@[0]);
            assert(false);
        }
        if "停摆之刻"@ == "奇迹耳坠"@ {
            assert("停摆之刻"@[0] == "奇迹耳坠"@[0]);
            assert(false);
        }
        if "停摆之刻"@ == "勋绩之花"@ {
            assert("停摆之刻"@[0] == "勋绩之花"@[0]);
            assert(false);
        }
        if "停摆之刻"@ == "昭武翎羽"@ {
            assert("停摆之刻"@[0] == "昭武翎羽"@[0]);
            assert(false);
        }
        if "停摆之刻"@ == "金铜时晷"@ {
            assert("停摆之刻"@[0] == "金铜时晷"@[0]);
            assert(false);
        }
        if "停摆之刻"@ == "盟誓金爵"@ {
            assert("停摆之刻"@[0] == "盟誓金爵"@[0]);
            assert(false);
        }
        if "停摆之刻"@ == "将帅兜鍪"@ {
            assert("停摆之刻"@[0] == "将帅兜鍪"@[0]);
            assert(false);
        }
        if "停摆之刻"@ == "无垢之花"@ {
            assert("停摆之刻"@[0] == "无垢之花"@[0]);
            assert(false);
        }
        if "停摆之刻"@ == "贤医之羽"@ {
            assert("停摆之刻"@[0] == "贤医之羽"@[0]);
            assert(false);
        }
        assert(name_id(corpus_at(148)) == 148);
    } else if i == 149 {
        if "超越之盏"@ == "饰金胸花"@ {
            assert("超越之盏"@[0] == "饰金胸花"@[0]);
            assert(false);
        }
        if "超越之盏"@ == "追忆之风"@ {
            assert("超越之盏"@[0] == "追忆之风"@[0]);
            assert(false);
        }
        if "超越之盏"@ == "坚铜罗盘"@ {
            assert("超越之盏"@[0] == "坚铜罗盘"@[0]);
            assert(false);
        }
        if "超越之盏"@ == "沉波之盏"@ {
            assert("超越之盏"@[0] == "沉波之盏"@[0]);
            assert(false);
        }
        if "超越之盏"@ == "酒渍船帽"@ {
            assert("超越之盏"@[0] == "酒渍船帽"@[0]);
            assert(false);
        }
        if "超越之盏"@ == "宗室之花"@ {
            assert("超越之盏"@[0] == "宗室之花"@[0]);
            assert(false);
        }
        if "超越之盏"@ == "宗室之翎"@ {
            assert("超越之盏"@[0] == "宗室之翎"@[0]);
            assert(false);
        }
        if "超越之盏"@ == "宗室时计"@ {
            assert("超越之盏"@[0] == "宗室时计"@[0]);
            assert(false);
        }
        if "超越之盏"@ == "宗室银瓮"@ {
            assert("超越之盏"@[0] == "宗室银瓮"@[0]);
            assert(false);
        }
        if "超越之盏"@ == "宗室面具"@ {
            assert("超越之盏"@[0] == "宗室面具"@[0]);
            assert(false);
        }
        if "超越之盏"@ == "夏祭之花"@ {
            assert("超越之盏"@[0] == "夏祭之花"@[0]);
            assert(false);
        }
        if "超越之盏"@ == "夏祭终末"@ {
            assert("超越之盏"@[0] == "夏祭终末"@[0]);
            assert(false);
        }
        if "超越之盏"@ == "夏祭之刻"@ {
            assert("超越之盏"@[0] == "夏祭之刻"@[0]);
            assert(false);
        }
        if "超越之盏"@ == "夏祭水玉"@ {
            assert("超越之盏"@[0] == "夏祭水玉"@[0]);
            assert(false);
        }
        if "超越之盏"@ == "夏祭之面"@ {
            assert("超越之盏"@[0] == "夏祭之面"@[0]);
            assert(false);
        }
        if "超越之盏"@ == "平雷之心"@ {
            assert("超越之盏"@[0] == "平雷之心"@[0]);
            assert(false);
        }
        if "超越之盏"@ == "平雷之羽"@ {
            assert("超越之盏"@[0] == "平雷之羽"@[0]);
            assert(false);
        }
        if "超越之盏"@ == "平雷之刻"@ {
            assert("超越之盏"@[0] == "平雷之刻"@[0]);
            assert(false);
        }
        if "超越之盏"@ == "平雷之器"@ {
            assert("超越之盏"@[0] == "平雷之器"@[0]);
            assert(false);
        }
        if "超越之盏"@ == "平雷之冠"@ {
            assert("超越之盏"@[0] == "平雷之冠"@[0]);
            assert(false);
        }
        if "超越之盏"@ == "守护之花"@ {
            assert("超越之盏"@[0] == "守护之花"@[0]);
            assert(false);
        }
        if "超越之盏"@ == "守护徽印"@ {
            assert("超越之盏"@[0] == "守护徽印"@[0]);
            assert(false);
        }
        if "超越之盏"@ == "守护座钟"@ {
            assert("超越之盏"@[0] == "守护座钟"@[0]);
            assert(false);
        }
        if "超越之盏"@ == "守护之皿"@ {
            assert("超越之盏"@[0] == "守护之皿"@[0]);
            assert(false);
        }
        if "超越之盏"@ == "守护束带"@ {
            assert("超越之盏"@[0] == "守护束带"@[0]);
            assert(false);
        }
        if "超越之盏"@ == "祭水礼冠"@ {
            assert("超越之盏"@[0] == "祭水礼冠"@[0]);
            assert(false);
        }
        if "超越之盏"@ == "祭火礼冠"@ {
            assert("超越之盏"@[0] == "祭火礼冠"@[0]);
            assert(false);
        }
        if "超越之盏"@ == "祭雷礼冠"@ {
            assert("超越之盏"@[0] == "祭雷礼冠"@[0]);
            assert(false);
        }
        if "超越之盏"@ == "祭冰礼冠"@ {
            assert("超越之盏"@[0] == "祭冰礼冠"@[0]);
            assert(false);
        }
        if "超越之盏"@ == "故人之心"@ {
            assert("超越之盏"@[0] == "故人之心"@[0]);
            assert(false);
        }
        if "超越之盏"@ == "归乡之羽"@ {
            assert("超越之盏"@[0] == "归乡之羽"@[0]);
            assert(false);
        }
        if "超越之盏"@ == "逐光之石"@ {
            assert("超越之盏"@[0] == "逐光之石"@[0]);
            assert(false);
        }
        if "超越之盏"@ == "异国之盏"@ {
            assert("超越之盏"@[0] == "异国之盏"@[0]);
            assert(false);
        }
        if "超越之盏"@ == "感别之冠"@ {
            assert("超越之盏"@[0] == "感别之冠"@[0]);
            assert(false);
        }
        if "超越之盏"@ == "奇迹之花"@ {
            assert("超越之盏"@[0] == "奇迹之花"@[0]);
            assert(false);
        }
        if "超越之盏"@ == "奇迹之羽"@ {
            assert("超越之盏"@[0] == "奇迹之羽"@[0]);
            assert(false);
        }
        if "超越之盏"@ == "奇迹之沙"@ {
            assert("超越之盏"@[0] == "奇迹之沙"@[0]);
            assert(false);
        }
        if "超越之盏"@ == "奇迹之杯"@ {
            assert("超越之盏"@[0] == "奇迹之杯"@[0]);
            assert(false);
        }
        if "超越之盏"@ == "奇迹耳坠"@ {
            assert("超越之盏"@[0] == "奇迹耳坠"@[0]);
            assert(false);
        }
        if "超越之盏"@ == "勋绩之花"@ {
            assert("超越之盏"@[0] == "勋绩之花"@[0]);
            assert(false);
        }
        if "超越之盏"@ == "昭武翎羽"@ {
            assert("超越之盏"@[0] == "昭武翎羽"@[0]);
            assert(false);
        }
        if "超越之盏"@ == "金铜时晷"@ {
            assert("超越之盏"@[0] == "金铜时晷"@[0]);
            assert(false);
        }
        if "超越之盏"@ == "盟誓金爵"@ {
            assert("超越之盏"@[0] == "盟誓金爵"@[0]);
            assert(false);
        }
        if "超越之盏"@ == "将帅兜鍪"@ {
            assert("超越之盏"@[0] == "将帅兜鍪"@[0]);
            assert(false);
        }
        if "超越之盏"@ == "无垢之花"@ {
            assert("超越之盏"@[0] == "无垢之花"@[0]);
            assert(false);
        }
        if "超越之盏"@ == "贤医之羽"@ {
            assert("超越之盏"@[0] == "贤医之羽"@[0]);
            assert(false);
        }
        if "超越之盏"@ == "停摆之刻"@ {
            assert("超越之盏"@[0] == "停摆之刻"@[0]);
            assert(false);
        }
        assert(name_id(corpus_at(149)) == 149);
    }
}

proof fn corpus_entry_chunk15(i: int)
    requires
        150 <= i < 160,
    ensures
        name_id(corpus_at(i)) == i,
{
    reveal_strlit("饰金胸花");
    reveal_strlit("追忆之风");
    reveal_strlit("坚铜罗盘");
    reveal_strlit("沉波之盏");
    reveal_strlit("酒渍船帽");
    reveal_strlit("宗室之花");
    reveal_strlit("宗室之翎");
    reveal_strlit("宗室时计");
    reveal_strlit("宗室银瓮");
    reveal_strlit("宗室面具");
    reveal_strlit("夏祭之花");
    reveal_strlit("夏祭终末");
    reveal_strlit("夏祭之刻");
    reveal_strlit("夏祭水玉");
    reveal_strlit("夏祭之面");
    reveal_strlit("平雷之心");
    reveal_strlit("平雷之羽");
    reveal_strlit("平雷之刻");
    reveal_strlit("平雷之器");
    reveal_strlit("平雷之冠");
    reveal_strlit("守护之花");
    reveal_strlit("守护徽印");
    reveal_strlit("守护座钟");
    reveal_strlit("守护之皿");
    reveal_strlit("守护束带");
    reveal_strlit("祭水礼冠");
    reveal_strlit("祭火礼冠");
    reveal_strlit("祭雷礼冠");
    reveal_strlit("祭冰礼冠");
    reveal_strlit("故人之心");
    reveal_strlit("归乡之羽");
    reveal_strlit("逐光之石");
    reveal_strlit("异国之盏");
    reveal_strlit("感别之冠");
    reveal_strlit("奇迹之花");
    reveal_strlit("奇迹之羽");
    reveal_strlit("奇迹之沙");
    reveal_strlit("奇迹之杯");
    reveal_strlit("奇迹耳坠");
    reveal_strlit("勋绩之花");
    reveal_strlit("昭武翎羽");
    reveal_strlit("金铜时晷");
    reveal_strlit("盟誓金爵");
    reveal_strlit("将帅兜鍪");
    reveal_strlit("无垢之花");
    reveal_strlit("贤医之羽");
    reveal_strlit("停摆之刻");
    reveal_strlit("超越之盏");
    reveal_strlit("嗤笑之面");
    reveal_strlit("明威之镡");
    reveal_strlit("切落之羽");
    reveal_strlit("雷云之笼");
    reveal_strlit("绯花之壶");
    reveal_strlit("华饰之兜");
    reveal_strlit("羁缠之花");
    reveal_strlit("思忆之矢");
    reveal_strlit("朝露之时");
    reveal_strlit("祈望之心");
    if i == 150 {
        if "嗤笑之面"@ == "饰金胸花"@ {
            assert("嗤笑之面"@[0] == "饰金胸花"@[0]);
            assert(false);
        }
        if "嗤笑之面"@ == "追忆之风"@ {
            assert("嗤笑之面"@[0] == "追忆之风"@[0]);
            assert(false);
        }
        if "嗤笑之面"@ == "坚铜罗盘"@ {
            assert("嗤笑之面"@[0] == "坚铜罗盘"@[0]);
            assert(false);
        }
        if "嗤笑之面"@ == "沉波之盏"@ {
            assert("嗤笑之面"@[0] == "沉波之盏"@[0]);
            assert(false);
        }
        if "嗤笑之面"@ == "酒渍船帽"@ {
            assert("嗤笑之面"@[0] == "酒渍船帽"@[0]);
            assert(false);
        }
        if "嗤笑之面"@ == "宗室之花"@ {
            assert("嗤笑之面"@[0] == "宗室之花"@[0]);
            assert(false);
        }
        if "嗤笑之面"@ == "宗室之翎"@ {
            assert("嗤笑之面"@[0] == "宗室之翎"@[0]);
            assert(false);
        }
        if "嗤笑之面"@ == "宗室时计"@ {
            assert("嗤笑之面"@[0] == "宗室时计"@[0]);
            assert(false);
        }
        if "嗤笑之面"@ == "宗室银瓮"@ {
            assert("嗤笑之面"@[0] == "宗室银瓮"@[0]);
            assert(false);
        }
        if "嗤笑之面"@ == "宗室面具"@ {
            assert("嗤笑之面"@[0] == "宗室面具"@[0]);
            assert(false);
        }
        if "嗤笑之面"@ == "夏祭之花"@ {
            assert("嗤笑之面"@[0] == "夏祭之花"@[0]);
            assert(false);
        }
        if "嗤笑之面"@ == "夏祭终末"@ {
            assert("嗤笑之面"@[0] == "夏祭终末"@[0]);
            assert(false);
        }
        if "嗤笑之面"@ == "夏祭之刻"@ {
            assert("嗤笑之面"@[0] == "夏祭之刻"@[0]);
            assert(false);
        }
        if "嗤笑之面"@ == "夏祭水玉"@ {
            assert("嗤笑之面"@[0] == "夏祭水玉"@[0]);
            assert(false);
        }
        if "嗤笑之面"@ == "夏祭之面"@ {
            assert("嗤笑之面"@[0] == "夏祭之面"@[0]);
            assert(false);
        }
        if "嗤笑之面"@ == "平雷之心"@ {
            assert("嗤笑之面"@[0] == "平雷之心"@[0]);
            assert(false);
        }
        if "嗤笑之面"@ == "平雷之羽"@ {
            assert("嗤笑之面"@[0] == "平雷之羽"@[0]);
            assert(false);
        }
        if "嗤笑之面"@ == "平雷之刻"@ {
            assert("嗤笑之面"@[0] == "平雷之刻"@[0]);
            assert(false);
        }
        if "嗤笑之面"@ == "平雷之器"@ {
            assert("嗤笑之面"@[0] == "平雷之器"@[0]);
            assert(false);
        }
        if "嗤笑之面"@ == "平雷之冠"@ {
            assert("嗤笑之面"@[0] == "平雷之冠"@[0]);
            assert(false);
        }
        if "嗤笑之面"@ == "守护之花"@ {
            assert("嗤笑之面"@[0] == "守护之花"@[0]);
            assert(false);
        }
        if "嗤笑之面"@ == "守护徽印"@ {
            assert("嗤笑之面"@[0] == "守护徽印"@[0]);
            assert(false);
        }
        if "嗤笑之面"@ == "守护座钟"@ {
            assert("嗤笑之面"@[0] == "守护座钟"@[0]);
            assert(false);
        }
        if "嗤笑之面"@ == "守护之皿"@ {
            assert("嗤笑之面"@[0] == "守护之皿"@[0]);
            assert(false);
        }
        if "嗤笑之面"@ == "守护束带"@ {
            assert("嗤笑之面"@[0] == "守护束带"@[0]);
            assert(false);
        }
        if "嗤笑之面"@ == "祭水礼冠"@ {
            assert("嗤笑之面"@[0] == "祭水礼冠"@[0]);
            assert(false);
        }
        if "嗤笑之面"@ == "祭火礼冠"@ {
            assert("嗤笑之面"@[0] == "祭火礼冠"@[0]);
            assert(false);
        }
        if "嗤笑之面"@ == "祭雷礼冠"@ {
            assert("嗤笑之面"@[0] == "祭雷礼冠"@[0]);
            assert(false);
        }
        if "嗤笑之面"@ == "祭冰礼冠"@ {
            assert("嗤笑之面"@[0] == "祭冰礼冠"@[0]);
            assert(false);
        }
        if "嗤笑之面"@ == "故人之心"@ {
            assert("嗤笑之面"@[0] == "故人之心"@[0]);
            assert(false);
        }
        if "嗤笑之面"@ == "归乡之羽"@ {
            assert("嗤笑之面"@[0] == "归乡之羽"@[0]);
            assert(false);
        }
        if "嗤笑之面"@ == "逐光之石"@ {
            assert("嗤笑之面"@[0] == "逐光之石"@[0]);
            assert(false);
        }
        if "嗤笑之面"@ == "异国之盏"@ {
            assert("嗤笑之面"@[0] == "异国之盏"@[0]);
            assert(false);
        }
        if "嗤笑之面"@ == "感别之冠"@ {
            assert("嗤笑之面"@[0] == "感别之冠"@[0]);
            assert(false);
        }
        if "嗤笑之面"@ == "奇迹之花"@ {
            assert("嗤笑之面"@[0] == "奇迹之花"@[0]);
            assert(false);
        }
        if "嗤笑之面"@ == "奇迹之羽"@ {
            assert("嗤笑之面"@[0] == "奇迹之羽"@[0]);
            assert(false);
        }
        if "嗤笑之面"@ == "奇迹之沙"@ {
            assert("嗤笑之面"@[0] == "奇迹之沙"@[0]);
            assert(false);
        }
        if "嗤笑之面"@ == "奇迹之杯"@ {
            assert("嗤笑之面"@[0] == "奇迹之杯"@[0]);
            assert(false);
        }
        if "嗤笑之面"@ == "奇迹耳坠"@ {
            assert("嗤笑之面"@[0] == "奇迹耳坠"@[0]);
            assert(false);
        }
        if "嗤笑之面"@ == "勋绩之花"@ {
            assert("嗤笑之面"@[0] == "勋绩之花"@[0]);
            assert(false);
        }
        if "嗤笑之面"@ == "昭武翎羽"@ {
            assert("嗤笑之面"@[0] == "昭武翎羽"@[0]);
            assert(false);
        }
        if "嗤笑之面"@ == "金铜时晷"@ {
            assert("嗤笑之面"@[0] == "金铜时晷"@[0]);
            assert(false);
        }
        if "嗤笑之面"@ == "盟誓金爵"@ {
            assert("嗤笑之面"@[0] == "盟誓金爵"@[0]);
            assert(false);
        }
        if "嗤笑之面"@ == "将帅兜鍪"@ {
            assert("嗤笑之面"@[0] == "将帅兜鍪"@[0]);
            assert(false);
        }
        if "嗤笑之面"@ == "无垢之花"@ {
            assert("嗤笑之面"@[0] == "无垢之花"@[0]);
            assert(false);
        }
        if "嗤笑之面"@ == "贤医之羽"@ {
            assert("嗤笑之面"@[0] == "贤医之羽"@[0]);
            assert(false);
        }
        if "嗤笑之面"@ == "停摆之刻"@ {
            assert("嗤笑之面"@[0] == "停摆之刻"@[0]);
            assert(false);
        }
        if "嗤笑之面"@ == "超越之盏"@ {
            assert("嗤笑之面"@[0] == "超越之盏"@[0]);
            assert(false);
        }
        assert(name_id(corpus_at(150)) == 150);
    } else if i == 151 {
        if "明威之镡"@ == "饰金胸花"@ {
            assert("明威之镡"@[0] == "饰金胸花"@[0]);
            assert(false);
        }
        if "明威之镡"@ == "追忆之风"@ {
            assert("明威之镡"@[0] == "追忆之风"@[0]);
            assert(false);
        }
        if "明威之镡"@ == "坚铜罗盘"@ {
            assert("明威之镡"@[0] == "坚铜罗盘"@[0]);
            assert(false);
        }
        if "明威之镡"@ == "沉波之盏"@ {
            assert("明威之镡"@[0] == "沉波之盏"@[0]);
            assert(false);
        }
        if "明威之镡"@ == "酒渍船帽"@ {
            assert("明威之镡"@[0] == "酒渍船帽"@[0]);
            assert(false);
        }
        if "明威之镡"@ == "宗室之花"@ {
            assert("明威之镡"@[0] == "宗室之花"@[0]);
            assert(false);
        }
        if "明威之镡"@ == "宗室之翎"@ {
            assert("明威之镡"@[0] == "宗室之翎"@[0]);
            assert(false);
        }
        if "明威之镡"@ == "宗室时计"@ {
            assert("明威之镡"@[0] == "宗室时计"@[0]);
            assert(false);
        }
        if "明威之镡"@ == "宗室银瓮"@ {
            assert("明威之镡"@[0] == "宗室银瓮"@[0]);
            assert(false);
        }
        if "明威之镡"@ == "宗室面具"@ {
            assert("明威之镡"@[0] == "宗室面具"@[0]);
            assert(false);
        }
        if "明威之镡"@ == "夏祭之花"@ {
            assert("明威之镡"@[0] == "夏祭之花"@[0]);
            assert(false);
        }
        if "明威之镡"@ == "夏祭终末"@ {
            assert("明威之镡"@[0] == "夏祭终末"@[0]);
            assert(false);
        }
        if "明威之镡"@ == "夏祭之刻"@ {
            assert("明威之镡"@[0] == "夏祭之刻"@[0]);
            assert(false);
        }
        if "明威之镡"@ == "夏祭水玉"@ {
            assert("明威之镡"@[0] == "夏祭水玉"@[0]);
            assert(false);
        }
        if "明威之镡"@ == "夏祭之面"@ {
            assert("明威之镡"@[0] == "夏祭之面"@[0]);
            assert(false);
        }
        if "明威之镡"@ == "平雷之心"@ {
            assert("明威之镡"@[0] == "平雷之心"@[0]);
            assert(false);
        }
        if "明威之镡"@ == "平雷之羽"@ {
            assert("明威之镡"@[0] == "平雷之羽"@[0]);
            assert(false);
        }
        if "明威之镡"@ == "平雷之刻"@ {
            assert("明威之镡"@[0] == "平雷之刻"@[0]);
            assert(false);
        }
        if "明威之镡"@ == "平雷之器"@ {
            assert("明威之镡"@[0] == "平雷之器"@[0]);
            assert(false);
        }
        if "明威之镡"@ == "平雷之冠"@ {
            assert("明威之镡"@[0] == "平雷之冠"@[0]);
            assert(false);
        }
        if "明威之镡"@ == "守护之花"@ {
            assert("明威之镡"@[0] == "守护之花"@[0]);
            assert(false);
        }
        if "明威之镡"@ == "守护徽印"@ {
            assert("明威之镡"@[0] == "守护徽印"@[0]);
            assert(false);
        }
        if "明威之镡"@ == "守护座钟"@ {
            assert("明威之镡"@[0] == "守护座钟"@[0]);
            assert(false);
        }
        if "明威之镡"@ == "守护之皿"@ {
            assert("明威之镡"@[0] == "守护之皿"@[0]);
            assert(false);
        }
        if "明威之镡"@ == "守护束带"@ {
            assert("明威之镡"@[0] == "守护束带"@[0]);
            assert(false);
        }
        if "明威之镡"@ == "祭水礼冠"@ {
            assert("明威之镡"@[0] == "祭水礼冠"@[0]);
            assert(false);
        }
        if "明威之镡"@ == "祭火礼冠"@ {
            assert("明威之镡"@[0] == "祭火礼冠"@[0]);
            assert(false);
        }
        if "明威之镡"@ == "祭雷礼冠"@ {
            assert("明威之镡"@[0] == "祭雷礼冠"@[0]);
            assert(false);
        }
        if "明威之镡"@ == "祭冰礼冠"@ {
            assert("明威之镡"@[0] == "祭冰礼冠"@[0]);
            assert(false);
        }
        if "明威之镡"@ == "故人之心"@ {
            assert("明威之镡"@[0] == "故人之心"@[0]);
            assert(false);
        }
        if "明威之镡"@ == "归乡之羽"@ {
            assert("明威之镡"@[0] == "归乡之羽"@[0]);
            assert(false);
        }
        if "明威之镡"@ == "逐光之石"@ {
            assert("明威之镡"@[0] == "逐光之石"@[0]);
            assert(false);
        }
        if "明威之镡"@ == "异国之盏"@ {
            assert("明威之镡"@[0] == "异国之盏"@[0]);
            assert(false);
        }
        if "明威之镡"@ == "感别之冠"@ {
            assert("明威之镡"@[0] == "感别之冠"@[0]);
            assert(false);
        }
        if "明威之镡"@ == "奇迹之花"@ {
            assert("明威之镡"@[0] == "奇迹之花"@[0]);
            assert(false);
        }
        if "明威之镡"@ == "奇迹之羽"@ {
            assert("明威之镡"@[0] == "奇迹之羽"@[0]);
            assert(false);
        }
        if "明威之镡"@ == "奇迹之沙"@ {
            assert("明威之镡"@[0] == "奇迹之沙"@[0]);
            assert(false);
        }
        if "明威之镡"@ == "奇迹之杯"@ {
            assert("明威之镡"@[0] == "奇迹之杯"@[0]);
            assert(false);
        }
        if "明威之镡"@ == "奇迹耳坠"@ {
            assert("明威之镡"@[0] == "奇迹耳坠"@[0]);
            assert(false);
        }
        if "明威之镡"@ == "勋绩之花"@ {
            assert("明威之镡"@[0] == "勋绩之花"@[0]);
            assert(false);
        }
        if "明威之镡"@ == "昭武翎羽"@ {
            assert("明威之镡"@[0] == "昭武翎羽"@[0]);
            assert(false);
        }
        if "明威之镡"@ == "金铜时晷"@ {
            assert("明威之镡"@[0] == "金铜时晷"@[0]);
            assert(false);
        }
        if "明威之镡"@ == "盟誓金爵"@ {
            assert("明威之镡"@[0] == "盟誓金爵"@[0]);
            assert(false);
        }
        if "明威之镡"@ == "将帅兜鍪"@ {
            assert("明威之镡"@[0] == "将帅兜鍪"@[0]);
            assert(false);
        }
        if "明威之镡"@ == "无垢之花"@ {
            assert("明威之镡"@[0] == "无垢之花"@[0]);
            assert(false);
        }
        if "明威之镡"@ == "贤医之羽"@ {
            assert("明威之镡"@[0] == "贤医之羽"@[0]);
            assert(false);
        }
        if "明威之镡"@ == "停摆之刻"@ {
            assert("明威之镡"@[0] == "停摆之刻"@[0]);
            assert(false);
        }
        if "明威之镡"@ == "超越之盏"@ {
            assert("明威之镡"@[0] == "超越之盏"@[0]);
            assert(false);
        }
        if "明威之镡"@ == "嗤笑之面"@ {
            assert("明威之镡"@[0] == "嗤笑之面"@[0]);
            assert(false);
        }
        assert(name_id(corpus_at(151)) == 151);
    } else if i == 152 {
        if "切落之羽"@ == "饰金胸花"@ {
            assert("切落之羽"@[0] == "饰金胸花"@[0]);
            assert(false);
        }
        if "切落之羽"@ == "追忆之风"@ {
            assert("切落之羽"@[0] == "追忆之风"@[0]);
            assert(false);
        }
        if "切落之羽"@ == "坚铜罗盘"@ {
            assert("切落之羽"@[0] == "坚铜罗盘"@[0]);
            assert(false);
        }
        if "切落之羽"@ == "沉波之盏"@ {
            assert("切落之羽"@[0] == "沉波之盏"@[0]);
            assert(false);
        }
        if "切落之羽"@ == "酒渍船帽"@ {
            assert("切落之羽"@[0] == "酒渍船帽"@[0]);
            assert(false);
        }
        if "切落之羽"@ == "宗室之花"@ {
            assert("切落之羽"@[0] == "宗室之花"@[0]);
            assert(false);
        }
        if "切落之羽"@ == "宗室之翎"@ {
            assert("切落之羽"@[0] == "宗室之翎"@[0]);
            assert(false);
        }
        if "切落之羽"@ == "宗室时计"@ {
            assert("切落之羽"@[0] == "宗室时计"@[0]);
            assert(false);
        }
        if "切落之羽"@ == "宗室银瓮"@ {
            assert("切落之羽"@[0] == "宗室银瓮"@[0]);
            assert(false);
        }
        if "切落之羽"@ == "宗室面具"@ {
            assert("切落之羽"@[0] == "宗室面具"@[0]);
            assert(false);
        }
        if "切落之羽"@ == "夏祭之花"@ {
            assert("切落之羽"@[0] == "夏祭之花"@[0]);
            assert(false);
        }
        if "切落之羽"@ == "夏祭终末"@ {
            assert("切落之羽"@[0] == "夏祭终末"@[0]);
            assert(false);
        }
        if "切落之羽"@ == "夏祭之刻"@ {
            assert("切落之羽"@[0] == "夏祭之刻"@[0]);
            assert(false);
        }
        if "切落之羽"@ == "夏祭水玉"@ {
            assert("切落之羽"@[0] == "夏祭水玉"@[0]);
            assert(false);
        }
        if "切落之羽"@ == "夏祭之面"@ {
            assert("切落之羽"@[0] == "夏祭之面"@[0]);
            assert(false);
        }
        if "切落之羽"@ == "平雷之心"@ {
            assert("切落之羽"@[0] == "平雷之心"@[0]);
            assert(false);
        }
        if "切落之羽"@ == "平雷之羽"@ {
            assert("切落之羽"@[0] == "平雷之羽"@[0]);
            assert(false);
        }
        if "切落之羽"@ == "平雷之刻"@ {
            assert("切落之羽"@[0] == "平雷之刻"@[0]);
            assert(false);
        }
        if "切落之羽"@ == "平雷之器"@ {
            assert("切落之羽"@[0] == "平雷之器"@[0]);
            assert(false);
        }
        if "切落之羽"@ == "平雷之冠"@ {
            assert("切落之羽"@[0] == "平雷之冠"@[0]);
            assert(false);
        }
        if "切落之羽"@ == "守护之花"@ {
            assert("切落之羽"@[0] == "守护之花"@[0]);
            assert(false);
        }
        if "切落之羽"@ == "守护徽印"@ {
            assert("切落之羽"@[0] == "守护徽印"@[0]);
            assert(false);
        }
        if "切落之羽"@ == "守护座钟"@ {
            assert("切落之羽"@[0] == "守护座钟"@[0]);
            assert(false);
        }
        if "切落之羽"@ == "守护之皿"@ {
            assert("切落之羽"@[0] == "守护之皿"@[0]);
            assert(false);
        }
        if "切落之羽"@ == "守护束带"@ {
            assert("切落之羽"@[0] == "守护束带"@[0]);
            assert(false);
        }
        if "切落之羽"@ == "祭水礼冠"@ {
            assert("切落之羽"@[0] == "祭水礼冠"@[0]);
            assert(false);
        }
        if "切落之羽"@ == "祭火礼冠"@ {
            assert("切落之羽"@[0] == "祭火礼冠"@[0]);
            assert(false);
        }
        if "切落之羽"@ == "祭雷礼冠"@ {
            assert("切落之羽"@[0] == "祭雷礼冠"@[0]);
            assert(false);
        }
        if "切落之羽"@ == "祭冰礼冠"@ {
            assert("切落之羽"@[0] == "祭冰礼冠"@[0]);
            assert(false);
        }
        if "切落之羽"@ == "故人之心"@ {
            assert("切落之羽"@[0] == "故人之心"@[0]);
            assert(false);
        }
        if "切落之羽"@ == "归乡之羽"@ {
            assert("切落之羽"@[0] == "归乡之羽"@[0]);
            assert(false);
        }
        if "切落之羽"@ == "逐光之石"@ {
            assert("切落之羽"@[0] == "逐光之石"@[0]);
            assert(false);
        }
        if "切落之羽"@ == "异国之盏"@ {
            assert("切落之羽"@[0] == "异国之盏"@[0]);
            assert(false);
        }
        if "切落之羽"@ == "感别之冠"@ {
            assert("切落之羽"@[0] == "感别之冠"@[0]);
            assert(false);
        }
        if "切落之羽"@ == "奇迹之花"@ {
            assert("切落之羽"@[0] == "奇迹之花"@[0]);
            assert(false);
        }
        if "切落之羽"@ == "奇迹之羽"@ {
            assert("切落之羽"@[0] == "奇迹之羽"@[0]);
            assert(false);
        }
        if "切落之羽"@ == "奇迹之沙"@ {
            assert("切落之羽"@[0] == "奇迹之沙"@[0]);
            assert(false);
        }
        if "切落之羽"@ == "奇迹之杯"@ {
            assert("切落之羽"@[0] == "奇迹之杯"@[0]);
            assert(false);
        }
        if "切落之羽"@ == "奇迹耳坠"@ {
            assert("切落之羽"@[0] == "奇迹耳坠"@[0]);
            assert(false);
        }
        if "切落之羽"@ == "勋绩之花"@ {
            assert("切落之羽"@[0] == "勋绩之花"@[0]);
            assert(false);
        }
        if "切落之羽"@ == "昭武翎羽"@ {
            assert("切落之羽"@[0] == "昭武翎羽"@[0]);
            assert(false);
        }
        if "切落之羽"@ == "金铜时晷"@ {
            assert("切落之羽"@[0] == "金铜时晷"@[0]);
            assert(false);
        }
        if "切落之羽"@ == "盟誓金爵"@ {
            assert("切落之羽"@[0] == "盟誓金爵"@[0]);
            assert(false);
        }
        if "切落之羽"@ == "将帅兜鍪"@ {
            assert("切落之羽"@[0] == "将帅兜鍪"@[0]);
            assert(false);
        }
        if "切落之羽"@ == "无垢之花"@ {
            assert("切落之羽"@[0] == "无垢之花"@[0]);
            assert(false);
        }
        if "切落之羽"@ == "贤医之羽"@ {
            assert("切落之羽"@[0] == "贤医之羽"@[0]);
            assert(false);
        }
        if "切落之羽"@ == "停摆之刻"@ {
            assert("切落之羽"@[0] == "停摆之刻"@[0]);
            assert(false);
        }
        if "切落之羽"@ == "超越之盏"@ {
            assert("切落之羽"@[0] == "超越之盏"@[0]);
            assert(false);
        }
        if "切落之羽"@ == "嗤笑之面"@ {
            assert("切落之羽"@[0] == "嗤笑之面"@[0]);
            assert(false);
        }
        if "切落之羽"@ == "明威之镡"@ {
            assert("切落之羽"@[0] == "明威之镡"@[0]);
            assert(false);
        }
        assert(name_id(corpus_at(152)) == 152);
    } else if i == 153 {
        if "雷云之笼"@ == "饰金胸花"@ {
            assert("雷云之笼"@[0] == "饰金胸花"@[0]);
            assert(false);
        }
        if "雷云之笼"@ == "追忆之风"@ {
            assert("雷云之笼"@[0] == "追忆之风"@[0]);
            assert(false);
        }
        if "雷云之笼"@ == "坚铜罗盘"@ {
            assert("雷云之笼"@[0] == "坚铜罗盘"@[0]);
            assert(false);
        }
        if "雷云之笼"@ == "沉波之盏"@ {
            assert("雷云之笼"@[0] == "沉波之盏"@[0]);
            assert(false);
        }
        if "雷云之笼"@ == "酒渍船帽"@ {
            assert("雷云之笼"@[0] == "酒渍船帽"@[0]);
            assert(false);
        }
        if "雷云之笼"@ == "宗室之花"@ {
            assert("雷云之笼"@[0] == "宗室之花"@[0]);
            assert(false);
        }
        if "雷云之笼"@ == "宗室之翎"@ {
            assert("雷云之笼"@[0] == "宗室之翎"@[0]);
            assert(false);
        }
        if "雷云之笼"@ == "宗室时计"@ {
            assert("雷云之笼"@[0] == "宗室时计"@[0]);
            assert(false);
        }
        if "雷云之笼"@ == "宗室银瓮"@ {
            assert("雷云之笼"@[0] == "宗室银瓮"@[0]);
            assert(false);
        }
        if "雷云之笼"@ == "宗室面具"@ {
            assert("雷云之笼"@[0] == "宗室面具"@[0]);
            assert(false);
        }
        if "雷云之笼"@ == "夏祭之花"@ {
            assert("雷云之笼"@[0] == "夏祭之花"@[0]);
            assert(false);
        }
        if "雷云之笼"@ == "夏祭终末"@ {
            assert("雷云之笼"@[0] == "夏祭终末"@[0]);
            assert(false);
        }
        if "雷云之笼"@ == "夏祭之刻"@ {
            assert("雷云之笼"@[0] == "夏祭之刻"@[0]);
            assert(false);
        }
        if "雷云之笼"@ == "夏祭水玉"@ {
            assert("雷云之笼"@[0] == "夏祭水玉"@[0]);
            assert(false);
        }
        if "雷云之笼"@ == "夏祭之面"@ {
            assert("雷云之笼"@[0] == "夏祭之面"@[0]);
            assert(false);
        }
        if "雷云之笼"@ == "平雷之心"@ {
            assert("雷云之笼"@[0] == "平雷之心"@[0]);
            assert(false);
        }
        if "雷云之笼"@ == "平雷之羽"@ {
            assert("雷云之笼"@[0] == "平雷之羽"@[0]);
            assert(false);
        }
        if "雷云之笼"@ == "平雷之刻"@ {
            assert("雷云之笼"@[0] == "平雷之刻"@[0]);
            assert(false);
        }
        if "雷云之笼"@ == "平雷之器"@ {
            assert("雷云之笼"@[0] == "平雷之器"@[0]);
            assert(false);
        }
        if "雷云之笼"@ == "平雷之冠"@ {
            assert("雷云之笼"@[0] == "平雷之冠"@[0]);
            assert(false);
        }
        if "雷云之笼"@ == "守护之花"@ {
            assert("雷云之笼"@[0] == "守护之花"@[0]);
            assert(false);
        }
        if "雷云之笼"@ == "守护徽印"@ {
            assert("雷云之笼"@[0] == "守护徽印"@[0]);
            assert(false);
        }
        if "雷云之笼"@ == "守护座钟"@ {
            assert("雷云之笼"@[0] == "守护座钟"@[0]);
            assert(false);
        }
        if "雷云之笼"@ == "守护之皿"@ {
            assert("雷云之笼"@[0] == "守护之皿"@[0]);
            assert(false);
        }
        if "雷云之笼"@ == "守护束带"@ {
            assert("雷云之笼"@[0] == "守护束带"@[0]);
            assert(false);
        }
        if "雷云之笼"@ == "祭水礼冠"@ {
            assert("雷云之笼"@[0] == "祭水礼冠"@[0]);
            assert(false);
        }
        if "雷云之笼"@ == "祭火礼冠"@ {
            assert("雷云之笼"@[0] == "祭火礼冠"@[0]);
            assert(false);
        }
        if "雷云之笼"@ == "祭雷礼冠"@ {
            assert("雷云之笼"@[0] == "祭雷礼冠"@[0]);
            assert(false);
        }
        if "雷云之笼"@ == "祭冰礼冠"@ {
            assert("雷云之笼"@[0] == "祭冰礼冠"@[0]);
            assert(false);
        }
        if "雷云之笼"@ == "故人之心"@ {
            assert("雷云之笼"@[0] == "故人之心"@[0]);
            assert(false);
        }
        if "雷云之笼"@ == "归乡之羽"@ {
            assert("雷云之笼"@[0] == "归乡之羽"@[0]);
            assert(false);
        }
        if "雷云之笼"@ == "逐光之石"@ {
            assert("雷云之笼"@[0] == "逐光之石"@[0]);
            assert(false);
        }
        if "雷云之笼"@ == "异国之盏"@ {
            assert("雷云之笼"@[0] == "异国之盏"@[0]);
            assert(false);
        }
        if "雷云之笼"@ == "感别之冠"@ {
            assert("雷云之笼"@[0] == "感别之冠"@[0]);
            assert(false);
        }
        if "雷云之笼"@ == "奇迹之花"@ {
            assert("雷云之笼"@[0] == "奇迹之花"@[0]);
            assert(false);
        }
        if "雷云之笼"@ == "奇迹之羽"@ {
            assert("雷云之笼"@[0] == "奇迹之羽"@[0]);
            assert(false);
        }
        if "雷云之笼"@ == "奇迹之沙"@ {
            assert("雷云之笼"@[0] == "奇迹之沙"@[0]);
            assert(false);
        }
        if "雷云之笼"@ == "奇迹之杯"@ {
            assert("雷云之笼"@[0] == "奇迹之杯"@[0]);
            assert(false);
        }
        if "雷云之笼"@ == "奇迹耳坠"@ {
            assert("雷云之笼"@[0] == "奇迹耳坠"@[0]);
            assert(false);
        }
        if "雷云之笼"@ == "勋绩之花"@ {
            assert("雷云之笼"@[0] == "勋绩之花"@[0]);
            assert(false);
        }
        if "雷云之笼"@ == "昭武翎羽"@ {
            assert("雷云之笼"@[0] == "昭武翎羽"@[0]);
            assert(false);
        }
        if "雷云之笼"@ == "金铜时晷"@ {
            assert("雷云之笼"@[0] == "金铜时晷"@[0]);
            assert(false);
        }
        if "雷云之笼"@ == "盟誓金爵"@ {
            assert("雷云之笼"@[0] == "盟誓金爵"@[0]);
            assert(false);
        }
        if "雷云之笼"@ == "将帅兜鍪"@ {
            assert("雷云之笼"@[0] == "将帅兜鍪"@[0]);
            assert(false);
        }
        if "雷云之笼"@ == "无垢之花"@ {
            assert("雷云之笼"@[0] == "无垢之花"@[0]);
            assert(false);
        }
        if "雷云之笼"@ == "贤医之羽"@ {
            assert("雷云之笼"@[0] == "贤医之羽"@[0]);
            assert(false);
        }
        if "雷云之笼"@ == "停摆之刻"@ {
            assert("雷云之笼"@[0] == "停摆之刻"@[0]);
            assert(false);
        }
        if "雷云之笼"@ == "超越之盏"@ {
            assert("雷云之笼"@[0] == "超越之盏"@[0]);
            assert(false);
        }
        if "雷云之笼"@ == "嗤笑之面"@ {
            assert("雷云之笼"@[0] == "嗤笑之面"@[0]);
            assert(false);
        }
        if "雷云之笼"@ == "明威之镡"@ {
            assert("雷云之笼"@[0] == "明威之镡"@[0]);
            assert(false);
        }
        if "雷云之笼"@ == "切落之羽"@ {
            assert("雷云之笼"@[0] == "切落之羽"@[0]);
            assert(false);
        }
        assert(name_id(corpus_at(153)) == 153);
    } else if i == 154 {
        if "绯花之壶"@ == "饰金胸花"@ {
            assert("绯花之壶"@[0] == "饰金胸花"@[0]);
            assert(false);
        }
        if "绯花之壶"@ == "追忆之风"@ {
            assert("绯花之壶"@[0] == "追忆之风"@[0]);
            assert(false);
        }
        if "绯花之壶"@ == "坚铜罗盘"@ {
            assert("绯花之壶"@[0] == "坚铜罗盘"@[0]);
            assert(false);
        }
        if "绯花之壶"@ == "沉波之盏"@ {
            assert("绯花之壶"@[0] == "沉波之盏"@[0]);
            assert(false);
        }
        if "绯花之壶"@ == "酒渍船帽"@ {
            assert("绯花之壶"@[0] == "酒渍船帽"@[0]);
            assert(false);
        }
        if "绯花之壶"@ == "宗室之花"@ {
            assert("绯花之壶"@[0] == "宗室之花"@[0]);
            assert(false);
        }
        if "绯花之壶"@ == "宗室之翎"@ {
            assert("绯花之壶"@[0] == "宗室之翎"@[0]);
            assert(false);
        }
        if "绯花之壶"@ == "宗室时计"@ {
            assert("绯花之壶"@[0] == "宗室时计"@[0]);
            assert(false);
        }
        if "绯花之壶"@ == "宗室银瓮"@ {
            assert("绯花之壶"@[0] == "宗室银瓮"@[0]);
            assert(false);
        }
        if "绯花之壶"@ == "宗室面具"@ {
            assert("绯花之壶"@[0] == "宗室面具"@[0]);
            assert(false);
        }
        if "绯花之壶"@ == "夏祭之花"@ {
            assert("绯花之壶"@[0] == "夏祭之花"@[0]);
            assert(false);
        }
        if "绯花之壶"@ == "夏祭终末"@ {
            assert("绯花之壶"@[0] == "夏祭终末"@[0]);
            assert(false);
        }
        if "绯花之壶"@ == "夏祭之刻"@ {
            assert("绯花之壶"@[0] == "夏祭之刻"@[0]);
            assert(false);
        }
        if "绯花之壶"@ == "夏祭水玉"@ {
            assert("绯花之壶"@[0] == "夏祭水玉"@[0]);
            assert(false);
        }
        if "绯花之壶"@ == "夏祭之面"@ {
            assert("绯花之壶"@[0] == "夏祭之面"@[0]);
            assert(false);
        }
        if "绯花之壶"@ == "平雷之心"@ {
            assert("绯花之壶"@[0] == "平雷之心"@[0]);
            assert(false);
        }
        if "绯花之壶"@ == "平雷之羽"@ {
            assert("绯花之壶"@[0] == "平雷之羽"@[0]);
            assert(false);
        }
        if "绯花之壶"@ == "平雷之刻"@ {
            assert("绯花之壶"@[0] == "平雷之刻"@[0]);
            assert(false);
        }
        if "绯花之壶"@ == "平雷之器"@ {
            assert("绯花之壶"@[0] == "平雷之器"@[0]);
            assert(false);
        }
        if "绯花之壶"@ == "平雷之冠"@ {
            assert("绯花之壶"@[0] == "平雷之冠"@[0]);
            assert(false);
        }
        if "绯花之壶"@ == "守护之花"@ {
            assert("绯花之壶"@[0] == "守护之花"@[0]);
            assert(false);
        }
        if "绯花之壶"@ == "守护徽印"@ {
            assert("绯花之壶"@[0] == "守护徽印"@[0]);
            assert(false);
        }
        if "绯花之壶"@ == "守护座钟"@ {
            assert("绯花之壶"@[0] == "守护座钟"@[0]);
            assert(false);
        }
        if "绯花之壶"@ == "守护之皿"@ {
            assert("绯花之壶"@[0] == "守护之皿"@[0]);
            assert(false);
        }
        if "绯花之壶"@ == "守护束带"@ {
            assert("绯花之壶"@[0] == "守护束带"@[0]);
            assert(false);
        }
        if "绯花之壶"@ == "祭水礼冠"@ {
            assert("绯花之壶"@[0] == "祭水礼冠"@[0]);
            assert(false);
        }
        if "绯花之壶"@ == "祭火礼冠"@ {
            assert("绯花之壶"@[0] == "祭火礼冠"@[0]);
            assert(false);
        }
        if "绯花之壶"@ == "祭雷礼冠"@ {
            assert("绯花之壶"@[0] == "祭雷礼冠"@[0]);
            assert(false);
        }
        if "绯花之壶"@ == "祭冰礼冠"@ {
            assert("绯花之壶"@[0] == "祭冰礼冠"@[0]);
            assert(false);
        }
        if "绯花之壶"@ == "故人之心"@ {
            assert("绯花之壶"@[0] == "故人之心"@[0]);
            assert(false);
        }
        if "绯花之壶"@ == "归乡之羽"@ {
            assert("绯花之壶"@[0] == "归乡之羽"@[0]);
            assert(false);
        }
        if "绯花之壶"@ == "逐光之石"@ {
            assert("绯花之壶"@[0] == "逐光之石"@[0]);
            assert(false);
        }
        if "绯花之壶"@ == "异国之盏"@ {
            assert("绯花之壶"@[0] == "异国之盏"@[0]);
            assert(false);
        }
        if "绯花之壶"@ == "感别之冠"@ {
            assert("绯花之壶"@[0] == "感别之冠"@[0]);
            assert(false);
        }
        if "绯花之壶"@ == "奇迹之花"@ {
            assert("绯花之壶"@[0] == "奇迹之花"@[0]);
            assert(false);
        }
        if "绯花之壶"@ == "奇迹之羽"@ {
            assert("绯花之壶"@[0] == "奇迹之羽"@[0]);
            assert(false);
        }
        if "绯花之壶"@ == "奇迹之沙"@ {
            assert("绯花之壶"@[0] == "奇迹之沙"@[0]);
            assert(false);
        }
        if "绯花之壶"@ == "奇迹之杯"@ {
            assert("绯花之壶"@[0] == "奇迹之杯"@[0]);
            assert(false);
        }
        if "绯花之壶"@ == "奇迹耳坠"@ {
            assert("绯花之壶"@[0] == "奇迹耳坠"@[0]);
            assert(false);
        }
        if "绯花之壶"@ == "勋绩之花"@ {
            assert("绯花之壶"@[0] == "勋绩之花"@[0]);
            assert(false);
        }
        if "绯花之壶"@ == "昭武翎羽"@ {
            assert("绯花之壶"@[0] == "昭武翎羽"@[0]);
            assert(false);
        }
        if "绯花之壶"@ == "金铜时晷"@ {
            assert("绯花之壶"@[0] == "金铜时晷"@[0]);
            assert(false);
        }
        if "绯花之壶"@ == "盟誓金爵"@ {
            assert("绯花之壶"@[0] == "盟誓金爵"@[0]);
            assert(false);
        }
        if "绯花之壶"@ == "将帅兜鍪"@ {
            assert("绯花之壶"@[0] == "将帅兜鍪"@[0]);
            assert(false);
        }
        if "绯花之壶"@ == "无垢之花"@ {
            assert("绯花之壶"@[0] == "无垢之花"@[0]);
            assert(false);
        }
        if "绯花之壶"@ == "贤医之羽"@ {
            assert("绯花之壶"@[0] == "贤医之羽"@[0]);
            assert(false);
        }
        if "绯花之壶"@ == "停摆之刻"@ {
            assert("绯花之壶"@[0] == "停摆之刻"@[0]);
            assert(false);
        }
        if "绯花之壶"@ == "超越之盏"@ {
            assert("绯花之壶"@[0] == "超越之盏"@[0]);
            assert(false);
        }
        if "绯花之壶"@ == "嗤笑之面"@ {
            assert("绯花之壶"@[0] == "嗤笑之面"@[0]);
            assert(false);
        }
        if "绯花之壶"@ == "明威之镡"@ {
            assert("绯花之壶"@[0] == "明威之镡"@[0]);
            assert(false);
        }
        if "绯花之壶"@ == "切落之羽"@ {
            assert("绯花之壶"@[0] == "切落之羽"@[0]);
            assert(false);
        }
        if "绯花之壶"@ == "雷云之笼"@ {
            assert("绯花之壶"@[0] == "雷云之笼"@[0]);
            assert(false);
        }
        assert(name_id(corpus_at(154)) == 154);
    } else if i == 155 {
        if "华饰之兜"@ == "饰金胸花"@ {
            assert("华饰之兜"@[0] == "饰金胸花"@[0]);
            assert(false);
        }
        if "华饰之兜"@ == "追忆之风"@ {
            assert("华饰之兜"@[0] == "追忆之风"@[0]);
            assert(false);
        }
        if "华饰之兜"@ == "坚铜罗盘"@ {
            assert("华饰之兜"@[0] == "坚铜罗盘"@[0]);
            assert(false);
        }
        if "华饰之兜"@ == "沉波之盏"@ {
            assert("华饰之兜"@[0] == "沉波之盏"@[0]);
            assert(false);
        }
        if "华饰之兜"@ == "酒渍船帽"@ {
            assert("华饰之兜"@[0] == "酒渍船帽"@[0]);
            assert(false);
        }
        if "华饰之兜"@ == "宗室之花"@ {
            assert("华饰之兜"@[0] == "宗室之花"@[0]);
            assert(false);
        }
        if "华饰之兜"@ == "宗室之翎"@ {
            assert("华饰之兜"@[0] == "宗室之翎"@[0]);
            assert(false);
        }
        if "华饰之兜"@ == "宗室时计"@ {
            assert("华饰之兜"@[0] == "宗室时计"@[0]);
            assert(false);
        }
        if "华饰之兜"@ == "宗室银瓮"@ {
            assert("华饰之兜"@[0] == "宗室银瓮"@[0]);
            assert(false);
        }
        if "华饰之兜"@ == "宗室面具"@ {
            assert("华饰之兜"@[0] == "宗室面具"@[0]);
            assert(false);
        }
        if "华饰之兜"@ == "夏祭之花"@ {
            assert("华饰之兜"@[0] == "夏祭之花"@[0]);
            assert(false);
        }
        if "华饰之兜"@ == "夏祭终末"@ {
            assert("华饰之兜"@[0] == "夏祭终末"@[0]);
            assert(false);
        }
        if "华饰之兜"@ == "夏祭之刻"@ {
            assert("华饰之兜"@[0] == "夏祭之刻"@[0]);
            assert(false);
        }
        if "华饰之兜"@ == "夏祭水玉"@ {
            assert("华饰之兜"@[0] == "夏祭水玉"@[0]);
            assert(false);
        }
        if "华饰之兜"@ == "夏祭之面"@ {
            assert("华饰之兜"@[0] == "夏祭之面"@[0]);
            assert(false);
        }
        if "华饰之兜"@ == "平雷之心"@ {
            assert("华饰之兜"@[0] == "平雷之心"@[0]);
            assert(false);
        }
        if "华饰之兜"@ == "平雷之羽"@ {
            assert("华饰之兜"@[0] == "平雷之羽"@[0]);
            assert(false);
        }
        if "华饰之兜"@ == "平雷之刻"@ {
            assert("华饰之兜"@[0] == "平雷之刻"@[0]);
            assert(false);
        }
        if "华饰之兜"@ == "平雷之器"@ {
            assert("华饰之兜"@[0] == "平雷之器"@[0]);
            assert(false);
        }
        if "华饰之兜"@ == "平雷之冠"@ {
            assert("华饰之兜"@[0] == "平雷之冠"@[0]);
            assert(false);
        }
        if "华饰之兜"@ == "守护之花"@ {
            assert("华饰之兜"@[0] == "守护之花"@[0]);
            assert(false);
        }
        if "华饰之兜"@ == "守护徽印"@ {
            assert("华饰之兜"@[0] == "守护徽印"@[0]);
            assert(false);
        }
        if "华饰之兜"@ == "守护座钟"@ {
            assert("华饰之兜"@[0] == "守护座钟"@[0]);
            assert(false);
        }
        if "华饰之兜"@ == "守护之皿"@ {
            assert("华饰之兜"@[0] == "守护之皿"@[0]);
            assert(false);
        }
        if "华饰之兜"@ == "守护束带"@ {
            assert("华饰之兜"@[0] == "守护束带"@[0]);
            assert(false);
        }
        if "华饰之兜"@ == "祭水礼冠"@ {
            assert("华饰之兜"@[0] == "祭水礼冠"@[0]);
            assert(false);
        }
        if "华饰之兜"@ == "祭火礼冠"@ {
            assert("华饰之兜"@[0] == "祭火礼冠"@[0]);
            assert(false);
        }
        if "华饰之兜"@ == "祭雷礼冠"@ {
            assert("华饰之兜"@[0] == "祭雷礼冠"@[0]);
            assert(false);
        }
        if "华饰之兜"@ == "祭冰礼冠"@ {
            assert("华饰之兜"@[0] == "祭冰礼冠"@[0]);
            assert(false);
        }
        if "华饰之兜"@ == "故人之心"@ {
            assert("华饰之兜"@[0] == "故人之心"@[0]);
            assert(false);
        }
        if "华饰之兜"@ == "归乡之羽"@ {
            assert("华饰之兜"@[0] == "归乡之羽"@[0]);
            assert(false);
        }
        if "华饰之兜"@ == "逐光之石"@ {
            assert("华饰之兜"@[0] == "逐光之石"@[0]);
            assert(false);
        }
        if "华饰之兜"@ == "异国之盏"@ {
            assert("华饰之兜"@[0] == "异国之盏"@[0]);
            assert(false);
        }
        if "华饰之兜"@ == "感别之冠"@ {
            assert("华饰之兜"@[0] == "感别之冠"@[0]);
            assert(false);
        }
        if "华饰之兜"@ == "奇迹之花"@ {
            assert("华饰之兜"@[0] == "奇迹之花"@[0]);
            assert(false);
        }
        if "华饰之兜"@ == "奇迹之羽"@ {
            assert("华饰之兜"@[0] == "奇迹之羽"@[0]);
            assert(false);
        }
        if "华饰之兜"@ == "奇迹之沙"@ {
            assert("华饰之兜"@[0] == "奇迹之沙"@[0]);
            assert(false);
        }
        if "华饰之兜"@ == "奇迹之杯"@ {
            assert("华饰之兜"@[0] == "奇迹之杯"@[0]);
            assert(false);
        }
        if "华饰之兜"@ == "奇迹耳坠"@ {
            assert("华饰之兜"@[0] == "奇迹耳坠"@[0]);
            assert(false);
        }
        if "华饰之兜"@ == "勋绩之花"@ {
            assert("华饰之兜"@[0] == "勋绩之花"@[0]);
            assert(false);
        }
        if "华饰之兜"@ == "昭武翎羽"@ {
            assert("华饰之兜"@[0] == "昭武翎羽"@[0]);
            assert(false);
        }
        if "华饰之兜"@ == "金铜时晷"@ {
            assert("华饰之兜"@[0] == "金铜时晷"@[0]);
            assert(false);
        }
        if "华饰之兜"@ == "盟誓金爵"@ {
            assert("华饰之兜"@[0] == "盟誓金爵"@[0]);
            assert(false);
        }
        if "华饰之兜"@ == "将帅兜鍪"@ {
            assert("华饰之兜"@[0] == "将帅兜鍪"@[0]);
            assert(false);
        }
        if "华饰之兜"@ == "无垢之花"@ {
            assert("华饰之兜"@[0] == "无垢之花"@[0]);
            assert(false);
        }
        if "华饰之兜"@ == "贤医之羽"@ {
            assert("华饰之兜"@[0] == "贤医之羽"@[0]);
            assert(false);
        }
        if "华饰之兜"@ == "停摆之刻"@ {
            assert("华饰之兜"@[0] == "停摆之刻"@[0]);
            assert(false);
        }
        if "华饰之兜"@ == "超越之盏"@ {
            assert("华饰之兜"@[0] == "超越之盏"@[0]);
            assert(false);
        }
        if "华饰之兜"@ == "嗤笑之面"@ {
            assert("华饰之兜"@[0] == "嗤笑之面"@[0]);
            assert(false);
        }
        if "华饰之兜"@ == "明威之镡"@ {
            assert("华饰之兜"@[0] == "明威之镡"@[0]);
            assert(false);
        }
        if "华饰之兜"@ == "切落之羽"@ {
            assert("华饰之兜"@[0] == "切落之羽"@[0]);
            assert(false);
        }
        if "华饰之兜"@ == "雷云之笼"@ {
            assert("华饰之兜"@[0] == "雷云之笼"@[0]);
            assert(false);
        }
        if "华饰之兜"@ == "绯花之壶"@ {
            assert("华饰之兜"@[0] == "绯花之壶"@[0]);
            assert(false);
        }
        assert(name_id(corpus_at(155)) == 155);
    } else if i == 156 {
        if "羁缠之花"@ == "饰金胸花"@ {
            assert("羁缠之花"@[0] == "饰金胸花"@[0]);
            assert(false);
        }
        if "羁缠之花"@ == "追忆之风"@ {
            assert("羁缠之花"@[0] == "追忆之风"@[0]);
            assert(false);
        }
        if "羁缠之花"@ == "坚铜罗盘"@ {
            assert("羁缠之花"@[0] == "坚铜罗盘"@[0]);
            assert(false);
        }
        if "羁缠之花"@ == "沉波之盏"@ {
            assert("羁缠之花"@[0] == "沉波之盏"@[0]);
            assert(false);
        }
        if "羁缠之花"@ == "酒渍船帽"@ {
            assert("羁缠之花"@[0] == "酒渍船帽"@[0]);
            assert(false);
        }
        if "羁缠之花"@ == "宗室之花"@ {
            assert("羁缠之花"@[0] == "宗室之花"@[0]);
            assert(false);
        }
        if "羁缠之花"@ == "宗室之翎"@ {
            assert("羁缠之花"@[0] == "宗室之翎"@[0]);
            assert(false);
        }
        if "羁缠之花"@ == "宗室时计"@ {
            assert("羁缠之花"@[0] == "宗室时计"@[0]);
            assert(false);
        }
        if "羁缠之花"@ == "宗室银瓮"@ {
            assert("羁缠之花"@[0] == "宗室银瓮"@[0]);
            assert(false);
        }
        if "羁缠之花"@ == "宗室面具"@ {
            assert("羁缠之花"@[0] == "宗室面具"@[0]);
            assert(false);
        }
        if "羁缠之花"@ == "夏祭之花"@ {
            assert("羁缠之花"@[0] == "夏祭之花"@[0]);
            assert(false);
        }
        if "羁缠之花"@ == "夏祭终末"@ {
            assert("羁缠之花"@[0] == "夏祭终末"@[0]);
            assert(false);
        }
        if "羁缠之花"@ == "夏祭之刻"@ {
            assert("羁缠之花"@[0] == "夏祭之刻"@[0]);
            assert(false);
        }
        if "羁缠之花"@ == "夏祭水玉"@ {
            assert("羁缠之花"@[0] == "夏祭水玉"@[0]);
            assert(false);
        }
        if "羁缠之花"@ == "夏祭之面"@ {
            assert("羁缠之花"@[0] == "夏祭之面"@[0]);
            assert(false);
        }
        if "羁缠之花"@ == "平雷之心"@ {
            assert("羁缠之花"@[0] == "平雷之心"@[0]);
            assert(false);
        }
        if "羁缠之花"@ == "平雷之羽"@ {
            assert("羁缠之花"@[0] == "平雷之羽"@[0]);
            assert(false);
        }
        if "羁缠之花"@ == "平雷之刻"@ {
            assert("羁缠之花"@[0] == "平雷之刻"@[0]);
            assert(false);
        }
        if "羁缠之花"@ == "平雷之器"@ {
            assert("羁缠之花"@[0] == "平雷之器"@[0]);
            assert(false);
        }
        if "羁缠之花"@ == "平雷之冠"@ {
            assert("羁缠之花"@[0] == "平雷之冠"@[0]);
            assert(false);
        }
        if "羁缠之花"@ == "守护之花"@ {
            assert("羁缠之花"@[0] == "守护之花"@[0]);
            assert(false);
        }
        if "羁缠之花"@ == "守护徽印"@ {
            assert("羁缠之花"@[0] == "守护徽印"@[0]);
            assert(false);
        }
        if "羁缠之花"@ == "守护座钟"@ {
            assert("羁缠之花"@[0] == "守护座钟"@[0]);
            assert(false);
        }
        if "羁缠之花"@ == "守护之皿"@ {
            assert("羁缠之花"@[0] == "守护之皿"@[0]);
            assert(false);
        }
        if "羁缠之花"@ == "守护束带"@ {
            assert("羁缠之花"@[0] == "守护束带"@[0]);
            assert(false);
        }
        if "羁缠之花"@ == "祭水礼冠"@ {
            assert("羁缠之花"@[0] == "祭水礼冠"@[0]);
            assert(false);
        }
        if "羁缠之花"@ == "祭火礼冠"@ {
            assert("羁缠之花"@[0] == "祭火礼冠"@[0]);
            assert(false);
        }
        if "羁缠之花"@ == "祭雷礼冠"@ {
            assert("羁缠之花"@[0] == "祭雷礼冠"@[0]);
            assert(false);
        }
        if "羁缠之花"@ == "祭冰礼冠"@ {
            assert("羁缠之花"@[0] == "祭冰礼冠"@[0]);
            assert(false);
        }
        if "羁缠之花"@ == "故人之心"@ {
            assert("羁缠之花"@[0] == "故人之心"@[0]);
            assert(false);
        }
        if "羁缠之花"@ == "归乡之羽"@ {
            assert("羁缠之花"@[0] == "归乡之羽"@[0]);
            assert(false);
        }
        if "羁缠之花"@ == "逐光之石"@ {
            assert("羁缠之花"@[0] == "逐光之石"@[0]);
            assert(false);
        }
        if "羁缠之花"@ == "异国之盏"@ {
            assert("羁缠之花"@[0] == "异国之盏"@[0]);
            assert(false);
        }
        if "羁缠之花"@ == "感别之冠"@ {
            assert("羁缠之花"@[0] == "感别之冠"@[0]);
            assert(false);
        }
        if "羁缠之花"@ == "奇迹之花"@ {
            assert("羁缠之花"@[0] == "奇迹之花"@[0]);
            assert(false);
        }
        if "羁缠之花"@ == "奇迹之羽"@ {
            assert("羁缠之花"@[0] == "奇迹之羽"@[0]);
            assert(false);
        }
        if "羁缠之花"@ == "奇迹之沙"@ {
            assert("羁缠之花"@[0] == "奇迹之沙"@[0]);
            assert(false);
        }
        if "羁缠之花"@ == "奇迹之杯"@ {
            assert("羁缠之花"@[0] == "奇迹之杯"@[0]);
            assert(false);
        }
        if "羁缠之花"@ == "奇迹耳坠"@ {
            assert("羁缠之花"@[0] == "奇迹耳坠"@[0]);
            assert(false);
        }
        if "羁缠之花"@ == "勋绩之花"@ {
            assert("羁缠之花"@[0] == "勋绩之花"@[0]);
            assert(false);
        }
        if "羁缠之花"@ == "昭武翎羽"@ {
            assert("羁缠之花"@[0] == "昭武翎羽"@[0]);
            assert(false);
        }
        if "羁缠之花"@ == "金铜时晷"@ {
            assert("羁缠之花"@[0] == "金铜时晷"@[0]);
            assert(false);
        }
        if "羁缠之花"@ == "盟誓金爵"@ {
            assert("羁缠之花"@[0] == "盟誓金爵"@[0]);
            assert(false);
        }
        if "羁缠之花"@ == "将帅兜鍪"@ {
            assert("羁缠之花"@[0] == "将帅兜鍪"@[0]);
            assert(false);
        }
        if "羁缠之花"@ == "无垢之花"@ {
            assert("羁缠之花"@[0] == "无垢之花"@[0]);
            assert(false);
        }
        if "羁缠之花"@ == "贤医之羽"@ {
            assert("羁缠之花"@[0] == "贤医之羽"@[0]);
            assert(false);
        }
        if "羁缠之花"@ == "停摆之刻"@ {
            assert("羁缠之花"@[0] == "停摆之刻"@[0]);
            assert(false);
        }
        if "羁缠之花"@ == "超越之盏"@ {
            assert("羁缠之花"@[0] == "超越之盏"@[0]);
            assert(false);
        }
        if "羁缠之花"@ == "嗤笑之面"@ {
            assert("羁缠之花"@[0] == "嗤笑之面"@[0]);
            assert(false);
        }
        if "羁缠之花"@ == "明威之镡"@ {
            assert("羁缠之花"@[0] == "明威之镡"@[0]);
            assert(false);
        }
        if "羁缠之花"@ == "切落之羽"@ {
            assert("羁缠之花"@[0] == "切落之羽"@[0]);
            assert(false);
        }
        if "羁缠之花"@ == "雷云之笼"@ {
            assert("羁缠之花"@[0] == "雷云之笼"@[0]);
            assert(false);
        }
        if "羁缠之花"@ == "绯花之壶"@ {
            assert("羁缠之花"@[0] == "绯花之壶"@[0]);
            assert(false);
        }
        if "羁缠之花"@ == "华饰之兜"@ {
            assert("羁缠之花"@[0] == "华饰之兜"@[0]);
            assert(false);
        }
        assert(name_id(corpus_at(156)) == 156);
    } else if i == 157 {
        if "思忆之矢"@ == "饰金胸花"@ {
            assert("思忆之矢"@[0] == "饰金胸花"@[0]);
            assert(false);
        }
        if "思忆之矢"@ == "追忆之风"@ {
            assert("思忆之矢"@[0] == "追忆之风"@[0]);
            assert(false);
        }
        if "思忆之矢"@ == "坚铜罗盘"@ {
            assert("思忆之矢"@[0] == "坚铜罗盘"@[0]);
            assert(false);
        }
        if "思忆之矢"@ == "沉波之盏"@ {
            assert("思忆之矢"@[0] == "沉波之盏"@[0]);
            assert(false);
        }
        if "思忆之矢"@ == "酒渍船帽"@ {
            assert("思忆之矢"@[0] == "酒渍船帽"@[0]);
            assert(false);
        }
        if "思忆之矢"@ == "宗室之花"@ {
            assert("思忆之矢"@[0] == "宗室之花"@[0]);
            assert(false);
        }
        if "思忆之矢"@ == "宗室之翎"@ {
            assert("思忆之矢"@[0] == "宗室之翎"@[0]);
            assert(false);
        }
        if "思忆之矢"@ == "宗室时计"@ {
            assert("思忆之矢"@[0] == "宗室时计"@[0]);
            assert(false);
        }
        if "思忆之矢"@ == "宗室银瓮"@ {
            assert("思忆之矢"@[0] == "宗室银瓮"@[0]);
            assert(false);
        }
        if "思忆之矢"@ == "宗室面具"@ {
            assert("思忆之矢"@[0] == "宗室面具"@[0]);
            assert(false);
        }
        if "思忆之矢"@ == "夏祭之花"@ {
            assert("思忆之矢"@[0] == "夏祭之花"@[0]);
            assert(false);
        }
        if "思忆之矢"@ == "夏祭终末"@ {
            assert("思忆之矢"@[0] == "夏祭终末"@[0]);
            assert(false);
        }
        if "思忆之矢"@ == "夏祭之刻"@ {
            assert("思忆之矢"@[0] == "夏祭之刻"@[0]);
            assert(false);
        }
        if "思忆之矢"@ == "夏祭水玉"@ {
            assert("思忆之矢"@[0] == "夏祭水玉"@[0]);
            assert(false);
        }
        if "思忆之矢"@ == "夏祭之面"@ {
            assert("思忆之矢"@[0] == "夏祭之面"@[0]);
            assert(false);
        }
        if "思忆之矢"@ == "平雷之心"@ {
            assert("思忆之矢"@[0] == "平雷之心"@[0]);
            assert(false);
        }
        if "思忆之矢"@ == "平雷之羽"@ {
            assert("思忆之矢"@[0] == "平雷之羽"@[0]);
            assert(false);
        }
        if "思忆之矢"@ == "平雷之刻"@ {
            assert("思忆之矢"@[0] == "平雷之刻"@[0]);
            assert(false);
        }
        if "思忆之矢"@ == "平雷之器"@ {
            assert("思忆之矢"@[0] == "平雷之器"@[0]);
            assert(false);
        }
        if "思忆之矢"@ == "平雷之冠"@ {
            assert("思忆之矢"@[0] == "平雷之冠"@[0]);
            assert(false);
        }
        if "思忆之矢"@ == "守护之花"@ {
            assert("思忆之矢"@[0] == "守护之花"@[0]);
            assert(false);
        }
        if "思忆之矢"@ == "守护徽印"@ {
            assert("思忆之矢"@[0] == "守护徽印"@[0]);
            assert(false);
        }
        if "思忆之矢"@ == "守护座钟"@ {
            assert("思忆之矢"@[0] == "守护座钟"@[0]);
            assert(false);
        }
        if "思忆之矢"@ == "守护之皿"@ {
            assert("思忆之矢"@[0] == "守护之皿"@[0]);
            assert(false);
        }
        if "思忆之矢"@ == "守护束带"@ {
            assert("思忆之矢"@[0] == "守护束带"@[0]);
            assert(false);
        }
        if "思忆之矢"@ == "祭水礼冠"@ {
            assert("思忆之矢"@[0] == "祭水礼冠"@[0]);
            assert(false);
        }
        if "思忆之矢"@ == "祭火礼冠"@ {
            assert("思忆之矢"@[0] == "祭火礼冠"@[0]);
            assert(false);
        }
        if "思忆之矢"@ == "祭雷礼冠"@ {
            assert("思忆之矢"@[0] == "祭雷礼冠"@[0]);
            assert(false);
        }
        if "思忆之矢"@ == "祭冰礼冠"@ {
            assert("思忆之矢"@[0] == "祭冰礼冠"@[0]);
            assert(false);
        }
        if "思忆之矢"@ == "故人之心"@ {
            assert("思忆之矢"@[0] == "故人之心"@[0]);
            assert(false);
        }
        if "思忆之矢"@ == "归乡之羽"@ {
            assert("思忆之矢"@[0] == "归乡之羽"@[0]);
            assert(false);
        }
        if "思忆之矢"@ == "逐光之石"@ {
            assert("思忆之矢"@[0] == "逐光之石"@[0]);
            assert(false);
        }
        if "思忆之矢"@ == "异国之盏"@ {
            assert("思忆之矢"@[0] == "异国之盏"@[0]);
            assert(false);
        }
        if "思忆之矢"@ == "感别之冠"@ {
            assert("思忆之矢"@[0] == "感别之冠"@[0]);
            assert(false);
        }
        if "思忆之矢"@ == "奇迹之花"@ {
            assert("思忆之矢"@[0] == "奇迹之花"@[0]);
            assert(false);
        }
        if "思忆之矢"@ == "奇迹之羽"@ {
            assert("思忆之矢"@[0] == "奇迹之羽"@[0]);
            assert(false);
        }
        if "思忆之矢"@ == "奇迹之沙"@ {
            assert("思忆之矢"@[0] == "奇迹之沙"@[0]);
            assert(false);
        }
        if "思忆之矢"@ == "奇迹之杯"@ {
            assert("思忆之矢"@[0] == "奇迹之杯"@[0]);
            assert(false);
        }
        if "思忆之矢"@ == "奇迹耳坠"@ {
            assert("思忆之矢"@[0] == "奇迹耳坠"@[0]);
            assert(false);
        }
        if "思忆之矢"@ == "勋绩之花"@ {
            assert("思忆之矢"@[0] == "勋绩之花"@[0]);
            assert(false);
        }
        if "思忆之矢"@ == "昭武翎羽"@ {
            assert("思忆之矢"@[0] == "昭武翎羽"@[0]);
            assert(false);
        }
        if "思忆之矢"@ == "金铜时晷"@ {
            assert("思忆之矢"@[0] == "金铜时晷"@[0]);
            assert(false);
        }
        if "思忆之矢"@ == "盟誓金爵"@ {
            assert("思忆之矢"@[0] == "盟誓金爵"@[0]);
            assert(false);
        }
        if "思忆之矢"@ == "将帅兜鍪"@ {
            assert("思忆之矢"@[0] == "将帅兜鍪"@[0]);
            assert(false);
        }
        if "思忆之矢"@ == "无垢之花"@ {
            assert("思忆之矢"@[0] == "无垢之花"@[0]);
            assert(false);
        }
        if "思忆之矢"@ == "贤医之羽"@ {
            assert("思忆之矢"@[0] == "贤医之羽"@[0]);
            assert(false);
        }
        if "思忆之矢"@ == "停摆之刻"@ {
            assert("思忆之矢"@[0] == "停摆之刻"@[0]);
            assert(false);
        }
        if "思忆之矢"@ == "超越之盏"@ {
            assert("思忆之矢"@[0] == "超越之盏"@[0]);
            assert(false);
        }
        if "思忆之矢"@ == "嗤笑之面"@ {
            assert("思忆之矢"@[0] == "嗤笑之面"@[0]);
            assert(false);
        }
        if "思忆之矢"@ == "明威之镡"@ {
            assert("思忆之矢"@[0] == "明威之镡"@[0]);
            assert(false);
        }
        if "思忆之矢"@ == "切落之羽"@ {
            assert("思忆之矢"@[0] == "切落之羽"@[0]);
            assert(false);
        }
        if "思忆之矢"@ == "雷云之笼"@ {
            assert("思忆之矢"@[0] == "雷云之笼"@[0]);
            assert(false);
        }
        if "思忆之矢"@ == "绯花之壶"@ {
            assert("思忆之矢"@[0] == "绯花之壶"@[0]);
            assert(false);
        }
        if "思忆之矢"@ == "华饰之兜"@ {
            assert("思忆之矢"@[0] == "华饰之兜"@[0]);
            assert(false);
        }
        if "思忆之矢"@ == "羁缠之花"@ {
            assert("思忆之矢"@[0] == "羁缠之花"@[0]);
            assert(false);
        }
        assert(name_id(corpus_at(157)) == 157);
    } else if i == 158 {
        if "朝露之时"@ == "饰金胸花"@ {
            assert("朝露之时"@[0] == "饰金胸花"@[0]);
            assert(false);
        }
        if "朝露之时"@ == "追忆之风"@ {
            assert("朝露之时"@[0] == "追忆之风"@[0]);
            assert(false);
        }
        if "朝露之时"@ == "坚铜罗盘"@ {
            assert("朝露之时"@[0] == "坚铜罗盘"@[0]);
            assert(false);
        }
        if "朝露之时"@ == "沉波之盏"@ {
            assert("朝露之时"@[0] == "沉波之盏"@[0]);
            assert(false);
        }
        if "朝露之时"@ == "酒渍船帽"@ {
            assert("朝露之时"@[0] == "酒渍船帽"@[0]);
            assert(false);
        }
        if "朝露之时"@ == "宗室之花"@ {
            assert("朝露之时"@[0] == "宗室之花"@[0]);
            assert(false);
        }
        if "朝露之时"@ == "宗室之翎"@ {
            assert("朝露之时"@[0] == "宗室之翎"@[0]);
            assert(false);
        }
        if "朝露之时"@ == "宗室时计"@ {
            assert("朝露之时"@[0] == "宗室时计"@[0]);
            assert(false);
        }
        if "朝露之时"@ == "宗室银瓮"@ {
            assert("朝露之时"@[0] == "宗室银瓮"@[0]);
            assert(false);
        }
        if "朝露之时"@ == "宗室面具"@ {
            assert("朝露之时"@[0] == "宗室面具"@[0]);
            assert(false);
        }
        if "朝露之时"@ == "夏祭之花"@ {
            assert("朝露之时"@[0] == "夏祭之花"@[0]);
            assert(false);
        }
        if "朝露之时"@ == "夏祭终末"@ {
            assert("朝露之时"@[0] == "夏祭终末"@[0]);
            assert(false);
        }
        if "朝露之时"@ == "夏祭之刻"@ {
            assert("朝露之时"@[0] == "夏祭之刻"@[0]);
            assert(false);
        }
        if "朝露之时"@ == "夏祭水玉"@ {
            assert("朝露之时"@[0] == "夏祭水玉"@[0]);
            assert(false);
        }
        if "朝露之时"@ == "夏祭之面"@ {
            assert("朝露之时"@[0] == "夏祭之面"@[0]);
            assert(false);
        }
        if "朝露之时"@ == "平雷之心"@ {
            assert("朝露之时"@[0] == "平雷之心"@[0]);
            assert(false);
        }
        if "朝露之时"@ == "平雷之羽"@ {
            assert("朝露之时"@[0] == "平雷之羽"@[0]);
            assert(false);
        }
        if "朝露之时"@ == "平雷之刻"@ {
            assert("朝露之时"@[0] == "平雷之刻"@[0]);
            assert(false);
        }
        if "朝露之时"@ == "平雷之器"@ {
            assert("朝露之时"@[0] == "平雷之器"@[0]);
            assert(false);
        }
        if "朝露之时"@ == "平雷之冠"@ {
            assert("朝露之时"@[0] == "平雷之冠"@[0]);
            assert(false);
        }
        if "朝露之时"@ == "守护之花"@ {
            assert("朝露之时"@[0] == "守护之花"@[0]);
            assert(false);
        }
        if "朝露之时"@ == "守护徽印"@ {
            assert("朝露之时"@[0] == "守护徽印"@[0]);
            assert(false);
        }
        if "朝露之时"@ == "守护座钟"@ {
            assert("朝露之时"@[0] == "守护座钟"@[0]);
            assert(false);
        }
        if "朝露之时"@ == "守护之皿"@ {
            assert("朝露之时"@[0] == "守护之皿"@[0]);
            assert(false);
        }
        if "朝露之时"@ == "守护束带"@ {
            assert("朝露之时"@[0] == "守护束带"@[0]);
            assert(false);
        }
        if "朝露之时"@ == "祭水礼冠"@ {
            assert("朝露之时"@[0] == "祭水礼冠"@[0]);
            assert(false);
        }
        if "朝露之时"@ == "祭火礼冠"@ {
            assert("朝露之时"@[0] == "祭火礼冠"@[0]);
            assert(false);
        }
        if "朝露之时"@ == "祭雷礼冠"@ {
            assert("朝露之时"@[0] == "祭雷礼冠"@[0]);
            assert(false);
        }
        if "朝露之时"@ == "祭冰礼冠"@ {
            assert("朝露之时"@[0] == "祭冰礼冠"@[0]);
            assert(false);
        }
        if "朝露之时"@ == "故人之心"@ {
            assert("朝露之时"@[0] == "故人之心"@[0]);
            assert(false);
        }
        if "朝露之时"@ == "归乡之羽"@ {
            assert("朝露之时"@[0] == "归乡之羽"@[0]);
            assert(false);
        }
        if "朝露之时"@ == "逐光之石"@ {
            assert("朝露之时"@[0] == "逐光之石"@[0]);
            assert(false);
        }
        if "朝露之时"@ == "异国之盏"@ {
            assert("朝露之时"@[0] == "异国之盏"@[0]);
            assert(false);
        }
        if "朝露之时"@ == "感别之冠"@ {
            assert("朝露之时"@[0] == "感别之冠"@[0]);
            assert(false);
        }
        if "朝露之时"@ == "奇迹之花"@ {
            assert("朝露之时"@[0] == "奇迹之花"@[0]);
            assert(false);
        }
        if "朝露之时"@ == "奇迹之羽"@ {
            assert("朝露之时"@[0] == "奇迹之羽"@[0]);
            assert(false);
        }
        if "朝露之时"@ == "奇迹之沙"@ {
            assert("朝露之时"@[0] == "奇迹之沙"@[0]);
            assert(false);
        }
        if "朝露之时"@ == "奇迹之杯"@ {
            assert("朝露之时"@[0] == "奇迹之杯"@[0]);
            assert(false);
        }
        if "朝露之时"@ == "奇迹耳坠"@ {
            assert("朝露之时"@[0] == "奇迹耳坠"@[0]);
            assert(false);
        }
        if "朝露之时"@ == "勋绩之花"@ {
            assert("朝露之时"@[0] == "勋绩之花"@[0]);
            assert(false);
        }
        if "朝露之时"@ == "昭武翎羽"@ {
            assert("朝露之时"@[0] == "昭武翎羽"@[0]);
            assert(false);
        }
        if "朝露之时"@ == "金铜时晷"@ {
            assert("朝露之时"@[0] == "金铜时晷"@[0]);
            assert(false);
        }
        if "朝露之时"@ == "盟誓金爵"@ {
            assert("朝露之时"@[0] == "盟誓金爵"@[0]);
            assert(false);
        }
        if "朝露之时"@ == "将帅兜鍪"@ {
            assert("朝露之时"@[0] == "将帅兜鍪"@[0]);
            assert(false);
        }
        if "朝露之时"@ == "无垢之花"@ {
            assert("朝露之时"@[0] == "无垢之花"@[0]);
            assert(false);
        }
        if "朝露之时"@ == "贤医之羽"@ {
            assert("朝露之时"@[0] == "贤医之羽"@[0]);
            assert(false);
        }
        if "朝露之时"@ == "停摆之刻"@ {
            assert("朝露之时"@[0] == "停摆之刻"@[0]);
            assert(false);
        }
        if "朝露之时"@ == "超越之盏"@ {
            assert("朝露之时"@[0] == "超越之盏"@[0]);
            assert(false);
        }
        if "朝露之时"@ == "嗤笑之面"@ {
            assert("朝露之时"@[0] == "嗤笑之面"@[0]);
            assert(false);
        }
        if "朝露之时"@ == "明威之镡"@ {
            assert("朝露之时"@[0] == "明威之镡"@[0]);
            assert(false);
        }
        if "朝露之时"@ == "切落之羽"@ {
            assert("朝露之时"@[0] == "切落之羽"@[0]);
            assert(false);
        }
        if "朝露之时"@ == "雷云之笼"@ {
            assert("朝露之时"@[0] == "雷云之笼"@[0]);
            assert(false);
        }
        if "朝露之时"@ == "绯花之壶"@ {
            assert("朝露之时"@[0] == "绯花之壶"@[0]);
            assert(false);
        }
        if "朝露之时"@ == "华饰之兜"@ {
            assert("朝露之时"@[0] == "华饰之兜"@[0]);
            assert(false);
        }
        if "朝露之时"@ == "羁缠之花"@ {
            assert("朝露之时"@[0] == "羁缠之花"@[0]);
            assert(false);
        }
        if "朝露之时"@ == "思忆之矢"@ {
            assert("朝露之时"@[0] == "思忆之矢"@[0]);
            assert(false);
        }
        assert(name_id(corpus_at(158)) == 158);
    } else if i == 159 {
        if "祈望之心"@ == "饰金胸花"@ {
            assert("祈望之心"@[0] == "饰金胸花"@[0]);
            assert(false);
        }
        if "祈望之心"@ == "追忆之风"@ {
            assert("祈望之心"@[0] == "追忆之风"@[0]);
            assert(false);
        }
        if "祈望之心"@ == "坚铜罗盘"@ {
            assert("祈望之心"@[0] == "坚铜罗盘"@[0]);
            assert(false);
        }
        if "祈望之心"@ == "沉波之盏"@ {
            assert("祈望之心"@[0] == "沉波之盏"@[0]);
            assert(false);
        }
        if "祈望之心"@ == "酒渍船帽"@ {
            assert("祈望之心"@[0] == "酒渍船帽"@[0]);
            assert(false);
        }
        if "祈望之心"@ == "宗室之花"@ {
            assert("祈望之心"@[0] == "宗室之花"@[0]);
            assert(false);
        }
        if "祈望之心"@ == "宗室之翎"@ {
            assert("祈望之心"@[0] == "宗室之翎"@[0]);
            assert(false);
        }
        if "祈望之心"@ == "宗室时计"@ {
            assert("祈望之心"@[0] == "宗室时计"@[0]);
            assert(false);
        }
        if "祈望之心"@ == "宗室银瓮"@ {
            assert("祈望之心"@[0] == "宗室银瓮"@[0]);
            assert(false);
        }
        if "祈望之心"@ == "宗室面具"@ {
            assert("祈望之心"@[0] == "宗室面具"@[0]);
            assert(false);
        }
        if "祈望之心"@ == "夏祭之花"@ {
            assert("祈望之心"@[0] == "夏祭之花"@[0]);
            assert(false);
        }
        if "祈望之心"@ == "夏祭终末"@ {
            assert("祈望之心"@[0] == "夏祭终末"@[0]);
            assert(false);
        }
        if "祈望之心"@ == "夏祭之刻"@ {
            assert("祈望之心"@[0] == "夏祭之刻"@[0]);
            assert(false);
        }
        if "祈望之心"@ == "夏祭水玉"@ {
            assert("祈望之心"@[0] == "夏祭水玉"@[0]);
            assert(false);
        }
        if "祈望之心"@ == "夏祭之面"@ {
            assert("祈望之心"@[0] == "夏祭之面"@[0]);
            assert(false);
        }
        if "祈望之心"@ == "平雷之心"@ {
            assert("祈望之心"@[0] == "平雷之心"@[0]);
            assert(false);
        }
        if "祈望之心"@ == "平雷之羽"@ {
            assert("祈望之心"@[0] == "平雷之羽"@[0]);
            assert(false);
        }
        if "祈望之心"@ == "平雷之刻"@ {
            assert("祈望之心"@[0] == "平雷之刻"@[0]);
            assert(false);
        }
        if "祈望之心"@ == "平雷之器"@ {
            assert("祈望之心"@[0] == "平雷之器"@[0]);
            assert(false);
        }
        if "祈望之心"@ == "平雷之冠"@ {
            assert("祈望之心"@[0] == "平雷之冠"@[0]);
            assert(false);
        }
        if "祈望之心"@ == "守护之花"@ {
            assert("祈望之心"@[0] == "守护之花"@[0]);
            assert(false);
        }
        if "祈望之心"@ == "守护徽印"@ {
            assert("祈望之心"@[0] == "守护徽印"@[0]);
            assert(false);
        }
        if "祈望之心"@ == "守护座钟"@ {
            assert("祈望之心"@[0] == "守护座钟"@[0]);
            assert(false);
        }
        if "祈望之心"@ == "守护之皿"@ {
            assert("祈望之心"@[0] == "守护之皿"@[0]);
            assert(false);
        }
        if "祈望之心"@ == "守护束带"@ {
            assert("祈望之心"@[0] == "守护束带"@[0]);
            assert(false);
        }
        if "祈望之心"@ == "祭水礼冠"@ {
            assert("祈望之心"@[0] == "祭水礼冠"@[0]);
            assert(false);
        }
        if "祈望之心"@ == "祭火礼冠"@ {
            assert("祈望之心"@[0] == "祭火礼冠"@[0]);
            assert(false);
        }
        if "祈望之心"@ == "祭雷礼冠"@ {
            assert("祈望之心"@[0] == "祭雷礼冠"@[0]);
            assert(false);
        }
        if "祈望之心"@ == "祭冰礼冠"@ {
            assert("祈望之心"@[0] == "祭冰礼冠"@[0]);
            assert(false);
        }
        if "祈望之心"@ == "故人之心"@ {
            assert("祈望之心"@[0] == "故人之心"@[0]);
            assert(false);
        }
        if "祈望之心"@ == "归乡之羽"@ {
            assert("祈望之心"@[0] == "归乡之羽"@[0]);
            assert(false);
        }
        if "祈望之心"@ == "逐光之石"@ {
            assert("祈望之心"@[0] == "逐光之石"@[0]);
            assert(false);
        }
        if "祈望之心"@ == "异国之盏"@ {
            assert("祈望之心"@[0] == "异国之盏"@[0]);
            assert(false);
        }
        if "祈望之心"@ == "感别之冠"@ {
            assert("祈望之心"@[0] == "感别之冠"@[0]);
            assert(false);
        }
        if "祈望之心"@ == "奇迹之花"@ {
            assert("祈望之心"@[0] == "奇迹之花"@[0]);
            assert(false);
        }
        if "祈望之心"@ == "奇迹之羽"@ {
            assert("祈望之心"@[0] == "奇迹之羽"@[0]);
            assert(false);
        }
        if "祈望之心"@ == "奇迹之沙"@ {
            assert("祈望之心"@[0] == "奇迹之沙"@[0]);
            assert(false);
        }
        if "祈望之心"@ == "奇迹之杯"@ {
            assert("祈望之心"@[0] == "奇迹之杯"@[0]);
            assert(false);
        }
        if "祈望之心"@ == "奇迹耳坠"@ {
            assert("祈望之心"@[0] == "奇迹耳坠"@[0]);
            assert(false);
        }
        if "祈望之心"@ == "勋绩之花"@ {
            assert("祈望之心"@[0] == "勋绩之花"@[0]);
            assert(false);
        }
        if "祈望之心"@ == "昭武翎羽"@ {
            assert("祈望之心"@[0] == "昭武翎羽"@[0]);
            assert(false);
        }
        if "祈望之心"@ == "金铜时晷"@ {
            assert("祈望之心"@[0] == "金铜时晷"@[0]);
            assert(false);
        }
        if "祈望之心"@ == "盟誓金爵"@ {
            assert("祈望之心"@[0] == "盟誓金爵"@[0]);
            assert(false);
        }
        if "祈望之心"@ == "将帅兜鍪"@ {
            assert("祈望之心"@[0] == "将帅兜鍪"@[0]);
            assert(false);
        }
        if "祈望之心"@ == "无垢之花"@ {
            assert("祈望之心"@[0] == "无垢之花"@[0]);
            assert(false);
        }
        if "祈望之心"@ == "贤医之羽"@ {
            assert("祈望之心"@[0] == "贤医之羽"@[0]);
            assert(false);
        }
        if "祈望之心"@ == "停摆之刻"@ {
            assert("祈望之心"@[0] == "停摆之刻"@[0]);
            assert(false);
        }
        if "祈望之心"@ == "超越之盏"@ {
            assert("祈望之心"@[0] == "超越之盏"@[0]);
            assert(false);
        }
        if "祈望之心"@ == "嗤笑之面"@ {
            assert("祈望之心"@[0] == "嗤笑之面"@[0]);
            assert(false);
        }
        if "祈望之心"@ == "明威之镡"@ {
            assert("祈望之心"@[0] == "明威之镡"@[0]);
            assert(false);
        }
        if "祈望之心"@ == "切落之羽"@ {
            assert("祈望之心"@[0] == "切落之羽"@[0]);
            assert(false);
        }
        if "祈望之心"@ == "雷云之笼"@ {
            assert("祈望之心"@[0] == "雷云之笼"@[0]);
            assert(false);
        }
        if "祈望之心"@ == "绯花之壶"@ {
            assert("祈望之心"@[0] == "绯花之壶"@[0]);
            assert(false);
        }
        if "祈望之心"@ == "华饰之兜"@ {
            assert("祈望之心"@[0] == "华饰之兜"@[0]);
            assert(false);
        }
        if "祈望之心"@ == "羁缠之花"@ {
            assert("祈望之心"@[0] == "羁缠之花"@[0]);
            assert(false);
        }
        if "祈望之心"@ == "思忆之矢"@ {
            assert("祈望之心"@[0] == "思忆之矢"@[0]);
            assert(false);
        }
        if "祈望之心"@ == "朝露之时"@ {
            assert("祈望之心"@[0] == "朝露之时"@[0]);
            assert(false);
        }
        assert(name_id(corpus_at(159)) == 159);
    }
}

proof fn corpus_entry_chunk16(i: int)
    requires
        160 <= i < 161,
    ensures
        name_id(corpus_at(i)) == i,
{
    reveal_strlit("饰金胸花");
    reveal_strlit("追忆之风");
    reveal_strlit("坚铜罗盘");
    reveal_strlit("沉波之盏");
    reveal_strlit("酒渍船帽");
    reveal_strlit("宗室之花");
    reveal_strlit("宗室之翎");
    reveal_strlit("宗室时计");
    reveal_strlit("宗室银瓮");
    reveal_strlit("宗室面具");
    reveal_strlit("夏祭之花");
    reveal_strlit("夏祭终末");
    reveal_strlit("夏祭之刻");
    reveal_strlit("夏祭水玉");
    reveal_strlit("夏祭之面");
    reveal_strlit("平雷之心");
    reveal_strlit("平雷之羽");
    reveal_strlit("平雷之刻");
    reveal_strlit("平雷之器");
    reveal_strlit("平雷之冠");
    reveal_strlit("守护之花");
    reveal_strlit("守护徽印");
    reveal_strlit("守护座钟");
    reveal_strlit("守护之皿");
    reveal_strlit("守护束带");
    reveal_strlit("祭水礼冠");
    reveal_strlit("祭火礼冠");
    reveal_strlit("祭雷礼冠");
    reveal_strlit("祭冰礼冠");
    reveal_strlit("故人之心");
    reveal_strlit("归乡之羽");
    reveal_strlit("逐光之石");
    reveal_strlit("异国之盏");
    reveal_strlit("感别之冠");
    reveal_strlit("奇迹之花");
    reveal_strlit("奇迹之羽");
    reveal_strlit("奇迹之沙");
    reveal_strlit("奇迹之杯");
    reveal_strlit("奇迹耳坠");
    reveal_strlit("勋绩之花");
    reveal_strlit("昭武翎羽");
    reveal_strlit("金铜时晷");
    reveal_strlit("盟誓金爵");
    reveal_strlit("将帅兜鍪");
    reveal_strlit("无垢之花");
    reveal_strlit("贤医之羽");
    reveal_strlit("停摆之刻");
    reveal_strlit("超越之盏");
    reveal_strlit("嗤笑之面");
    reveal_strlit("明威之镡");
    reveal_strlit("切落之羽");
    reveal_strlit("雷云之笼");
    reveal_strlit("绯花之壶");
    reveal_strlit("华饰之兜");
    reveal_strlit("羁缠之花");
    reveal_strlit("思忆之矢");
    reveal_strlit("朝露之时");
    reveal_strlit("祈望之心");
    reveal_strlit("无常之面");
    if i == 160 {
        if "无常之面"@ == "饰金胸花"@ {
            assert("无常之面"@[0] == "饰金胸花"@[0]);
            assert(false);
        }
        if "无常之面"@ == "追忆之风"@ {
            assert("无常之面"@[0] == "追忆之风"@[0]);
            assert(false);
        }
        if "无常之面"@ == "坚铜罗盘"@ {
            assert("无常之面"@[0] == "坚铜罗盘"@[0]);
            assert(false);
        }
        if "无常之面"@ == "沉波之盏"@ {
            assert("无常之面"@[0] == "沉波之盏"@[0]);
            assert(false);
        }
        if "无常之面"@ == "酒渍船帽"@ {
            assert("无常之面"@[0] == "酒渍船帽"@[0]);
            assert(false);
        }
        if "无常之面"@ == "宗室之花"@ {
            assert("无常之面"@[0] == "宗室之花"@[0]);
            assert(false);
        }
        if "无常之面"@ == "宗室之翎"@ {
            assert("无常之面"@[0] == "宗室之翎"@[0]);
            assert(false);
        }
        if "无常之面"@ == "宗室时计"@ {
            assert("无常之面"@[0] == "宗室时计"@[0]);
            assert(false);
        }
        if "无常之面"@ == "宗室银瓮"@ {
            assert("无常之面"@[0] == "宗室银瓮"@[0]);
            assert(false);
        }
        if "无常之面"@ == "宗室面具"@ {
            assert("无常之面"@[0] == "宗室面具"@[0]);
            assert(false);
        }
        if "无常之面"@ == "夏祭之花"@ {
            assert("无常之面"@[0] == "夏祭之花"@[0]);
            assert(false);
        }
        if "无常之面"@ == "夏祭终末"@ {
            assert("无常之面"@[0] == "夏祭终末"@[0]);
            assert(false);
        }
        if "无常之面"@ == "夏祭之刻"@ {
            assert("无常之面"@[0] == "夏祭之刻"@[0]);
            assert(false);
        }
        if "无常之面"@ == "夏祭水玉"@ {
            assert("无常之面"@[0] == "夏祭水玉"@[0]);
            assert(false);
        }
        if "无常之面"@ == "夏祭之面"@ {
            assert("无常之面"@[0] == "夏祭之面"@[0]);
            assert(false);
        }
        if "无常之面"@ == "平雷之心"@ {
            assert("无常之面"@[0] == "平雷之心"@[0]);
            assert(false);
        }
        if "无常之面"@ == "平雷之羽"@ {
            assert("无常之面"@[0] == "平雷之羽"@[0]);
            assert(false);
        }
        if "无常之面"@ == "平雷之刻"@ {
            assert("无常之面"@[0] == "平雷之刻"@[0]);
            assert(false);
        }
        if "无常之面"@ == "平雷之器"@ {
            assert("无常之面"@[0] == "平雷之器"@[0]);
            assert(false);
        }
        if "无常之面"@ == "平雷之冠"@ {
            assert("无常之面"@[0] == "平雷之冠"@[0]);
            assert(false);
        }
        if "无常之面"@ == "守护之花"@ {
            assert("无常之面"@[0] == "守护之花"@[0]);
            assert(false);
        }
        if "无常之面"@ == "守护徽印"@ {
            assert("无常之面"@[0] == "守护徽印"@[0]);
            assert(false);
        }
        if "无常之面"@ == "守护座钟"@ {
            assert("无常之面"@[0] == "守护座钟"@[0]);
            assert(false);
        }
        if "无常之面"@ == "守护之皿"@ {
            assert("无常之面"@[0] == "守护之皿"@[0]);
            assert(false);
        }
        if "无常之面"@ == "守护束带"@ {
            assert("无常之面"@[0] == "守护束带"@[0]);
            assert(false);
        }
        if "无常之面"@ == "祭水礼冠"@ {
            assert("无常之面"@[0] == "祭水礼冠"@[0]);
            assert(false);
        }
        if "无常之面"@ == "祭火礼冠"@ {
            assert("无常之面"@[0] == "祭火礼冠"@[0]);
            assert(false);
        }
        if "无常之面"@ == "祭雷礼冠"@ {
            assert("无常之面"@[0] == "祭雷礼冠"@[0]);
            assert(false);
        }
        if "无常之面"@ == "祭冰礼冠"@ {
            assert("无常之面"@[0] == "祭冰礼冠"@[0]);
            assert(false);
        }
        if "无常之面"@ == "故人之心"@ {
            assert("无常之面"@[0] == "故人之心"@[0]);
            assert(false);
        }
        if "无常之面"@ == "归乡之羽"@ {
            assert("无常之面"@[0] == "归乡之羽"@[0]);
            assert(false);
        }
        if "无常之面"@ == "逐光之石"@ {
            assert("无常之面"@[0] == "逐光之石"@[0]);
            assert(false);
        }
        if "无常之面"@ == "异国之盏"@ {
            assert("无常之面"@[0] == "异国之盏"@[0]);
            assert(false);
        }
        if "无常之面"@ == "感别之冠"@ {
            assert("无常之面"@[0] == "感别之冠"@[0]);
            assert(false);
        }
        if "无常之面"@ == "奇迹之花"@ {
            assert("无常之面"@[0] == "奇迹之花"@[0]);
            assert(false);
        }
        if "无常之面"@ == "奇迹之羽"@ {
            assert("无常之面"@[0] == "奇迹之羽"@[0]);
            assert(false);
        }
        if "无常之面"@ == "奇迹之沙"@ {
            assert("无常之面"@[0] == "奇迹之沙"@[0]);
            assert(false);
        }
        if "无常之面"@ == "奇迹之杯"@ {
            assert("无常之面"@[0] == "奇迹之杯"@[0]);
            assert(false);
        }
        if "无常之面"@ == "奇迹耳坠"@ {
            assert("无常之面"@[0] == "奇迹耳坠"@[0]);
            assert(false);
        }
        if "无常之面"@ == "勋绩之花"@ {
            assert("无常之面"@[0] == "勋绩之花"@[0]);
            assert(false);
        }
        if "无常之面"@ == "昭武翎羽"@ {
            assert("无常之面"@[0] == "昭武翎羽"@[0]);
            assert(false);
        }
        if "无常之面"@ == "金铜时晷"@ {
            assert("无常之面"@[0] == "金铜时晷"@[0]);
            assert(false);
        }
        if "无常之面"@ == "盟誓金爵"@ {
            assert("无常之面"@[0] == "盟誓金爵"@[0]);
            assert(false);
        }
        if "无常之面"@ == "将帅兜鍪"@ {
            assert("无常之面"@[0] == "将帅兜鍪"@[0]);
            assert(false);
        }
        if "无常之面"@ == "无垢之花"@ {
            assert("无常之面"@[1] == "无垢之花"@[1]);
            assert(false);
        }
        if "无常之面"@ == "贤医之羽"@ {
            assert("无常之面"@[0] == "贤医之羽"@[0]);
            assert(false);
        }
        if "无常之面"@ == "停摆之刻"@ {
            assert("无常之面"@[0] == "停摆之刻"@[0]);
            assert(false);
        }
        if "无常之面"@ == "超越之盏"@ {
            assert("无常之面"@[0] == "超越之盏"@[0]);
            assert(false);
        }
        if "无常之面"@ == "嗤笑之面"@ {
            assert("无常之面"@[0] == "嗤笑之面"@[0]);
            assert(false);
        }
        if "无常之面"@ == "明威之镡"@ {
            assert("无常之面"@[0] == "明威之镡"@[0]);
            assert(false);
        }
        if "无常之面"@ == "切落之羽"@ {
            assert("无常之面"@[0] == "切落之羽"@[0]);
            assert(false);
        }
        if "无常之面"@ == "雷云之笼"@ {
            assert("无常之面"@[0] == "雷云之笼"@[0]);
            assert(false);
        }
        if "无常之面"@ == "绯花之壶"@ {
            assert("无常之面"@[0] == "绯花之壶"@[0]);
            assert(false);
        }
        if "无常之面"@ == "华饰之兜"@ {
            assert("无常之面"@[0] == "华饰之兜"@[0]);
            assert(false);
        }
        if "无常之面"@ == "羁缠之花"@ {
            assert("无常之面"@[0] == "羁缠之花"@[0]);
            assert(false);
        }
        if "无常之面"@ == "思忆之矢"@ {
            assert("无常之面"@[0] == "思忆之矢"@[0]);
            assert(false);
        }
        if "无常之面"@ == "朝露之时"@ {
            assert("无常之面"@[0] == "朝露之时"@[0]);
            assert(false);
        }
        if "无常之面"@ == "祈望之心"@ {
            assert("无常之面"@[0] == "祈望之心"@[0]);
            assert(false);
        }
        assert(name_id(corpus_at(160)) == 160);
    }
}

/// Exact matching recovers each corpus index: the corpus holds no
/// duplicate entries.
pub proof fn lemma_corpus_entry(i: int)
    requires
        0 <= i < CORPUS_LEN,
    ensures
        name_id(corpus_at(i)) == i,
{
    if i < 10 {
        corpus_entry_chunk0(i);
    } else if i < 20 {
        corpus_entry_chunk1(i);
    } else if i < 30 {
        corpus_entry_chunk2(i);
    } else if i < 40 {
        corpus_entry_chunk3(i);
    } else if i < 50 {
        corpus_entry_chunk4(i);
    } else if i < 60 {
        corpus_entry_chunk5(i);
    } else if i < 70 {
        corpus_entry_chunk6(i);
    } else if i < 80 {
        corpus_entry_chunk7(i);
    } else if i < 90 {
        corpus_entry_chunk8(i);
    } else if i < 100 {
        corpus_entry_chunk9(i);
    } else if i < 110 {
        corpus_entry_chunk10(i);
    } else if i < 120 {
        corpus_entry_chunk11(i);
    } else if i < 130 {
        corpus_entry_chunk12(i);
    } else if i < 140 {
        corpus_entry_chunk13(i);
    } else if i < 150 {
        corpus_entry_chunk14(i);
    } else if i < 160 {
        corpus_entry_chunk15(i);
    } else if i < 161 {
        corpus_entry_chunk16(i);
    }
}

/// Distinct corpus indices hold distinct names.
pub proof fn lemma_corpus_distinct(i: int, j: int)
    requires
        0 <= i < CORPUS_LEN,
        0 <= j < CORPUS_LEN,
        i != j,
    ensures
        corpus_at(i) != corpus_at(j),
{
    lemma_corpus_entry(i);
    lemma_corpus_entry(j);
}

} // verus!
