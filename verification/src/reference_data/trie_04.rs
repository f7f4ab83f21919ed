//! Cells 10240 to 12799 of the trie table.
use vstd::prelude::*;

verus! {

/// The entries of this part, in order.
pub const CELLS: [u16; 2560] = [
    117, 1, 10243, 65535, 108, 1, 10247, 65535, 108, 1, 10251, 65535, 69, 1, 10255, 65535,
    113, 1, 10259, 65535, 117, 1, 10263, 65535, 97, 1, 10267, 65535, 108, 1, 10271, 65535,
    59, 1, 10275, 295, 0, 0, 65535, 114, 1, 10282, 65535, 101, 1, 10286, 65535, 97,
    1, 10290, 65535, 116, 1, 10294, 65535, 101, 1, 10298, 65535, 114, 1, 10302, 65535, 59,
    1, 10306, 296, 0, 0, 65535, 101, 1, 10313, 65535, 115, 1, 10317, 65535, 115, 1,
    10321, 65535, 59, 1, 10325, 297, 0, 0, 65535, 108, 1, 10332, 65535, 97, 1, 10336,
    65535, 110, 1, 10340, 65535, 116, 1, 10344, 65535, 69, 1, 10348, 65535, 113, 1, 10352,
    65535, 117, 1, 10356, 65535, 97, 1, 10360, 65535, 108, 1, 10364, 65535, 59, 1, 10368,
    298, 0, 0, 65535, 105, 1, 10375, 65535, 108, 1, 10379, 65535, 100, 1, 10383, 65535,
    101, 1, 10387, 65535, 59, 1, 10391, 299, 0, 0, 65535, 117, 1, 10398, 65535, 109,
    1, 10402, 65535, 112, 1, 10406, 65535, 68, 2, 10411, 10446, 65535, 111, 1, 10415, 65535,
    119, 1, 10419, 65535, 110, 1, 10423, 65535, 72, 1, 10427, 65535, 117, 1, 10431, 65535,
    109, 1, 10435, 65535, 112, 1, 10439, 65535, 59, 1, 10443, 300, 0, 0, 65535, 113,
    1, 10450, 65535, 117, 1, 10454, 65535, 97, 1, 10458, 65535, 108, 1, 10462, 65535, 59,
    1, 10466, 301, 0, 0, 65535, 101, 1, 10473, 65535, 102, 14, 10490, 0, 0, 0,
    0, 0, 0, 0, 0, 0, 0, 0, 0, 10581, 65535, 116, 1, 10494, 65535, 84,
    1, 10498, 65535, 114, 1, 10502, 65535, 105, 1, 10506, 65535, 97, 1, 10510, 65535, 110,
    1, 10514, 65535, 103, 1, 10518, 65535, 108, 1, 10522, 65535, 101, 1, 10526, 65535, 59,
    11, 10540, 0, 0, 0, 0, 0, 0, 10543, 0, 0, 10558, 302, 0, 0, 65535,
    97, 1, 10547, 65535, 114, 1, 10551, 65535, 59, 1, 10555, 303, 0, 0, 65535, 113,
    1, 10562, 65535, 117, 1, 10566, 65535, 97, 1, 10570, 65535, 108, 1, 10574, 65535, 59,
    1, 10578, 304, 0, 0, 65535, 115, 1, 10585, 65535, 59, 26, 10614, 0, 0, 0,
    0, 0, 0, 0, 0, 0, 10617, 0, 10640, 0, 0, 0, 0, 10671, 0, 0,
    0, 0, 0, 0, 10690, 10733, 305, 0, 0, 65535, 113, 1, 10621, 65535, 117, 1,
    10625, 65535, 97, 1, 10629, 65535, 108, 1, 10633, 65535, 59, 1, 10637, 306, 0, 0,
    65535, 114, 1, 10644, 65535, 101, 1, 10648, 65535, 97, 1, 10652, 65535, 116, 1, 10656,
    65535, 101, 1, 10660, 65535, 114, 1, 10664, 65535, 59, 1, 10668, 307, 0, 0, 65535,
    101, 1, 10675, 65535, 115, 1, 10679, 65535, 115, 1, 10683, 65535, 59, 1, 10687, 308,
    0, 0, 65535, 108, 1, 10694, 65535, 97, 1, 10698, 65535, 110, 1, 10702, 65535, 116,
    1, 10706, 65535, 69, 1, 10710, 65535, 113, 1, 10714, 65535, 117, 1, 10718, 65535, 97,
    1, 10722, 65535, 108, 1, 10726, 65535, 59, 1, 10730, 309, 0, 0, 65535, 105, 1,
    10737, 65535, 108, 1, 10741, 65535, 100, 1, 10745, 65535, 101, 1, 10749, 65535, 59, 1,
    10753, 310, 0, 0, 65535, 101, 1, 10760, 65535, 115, 1, 10764, 65535, 116, 1, 10768,
    65535, 101, 1, 10772, 65535, 100, 1, 10776, 65535, 71, 6, 10785, 0, 0, 0, 0,
    10844, 65535, 114, 1, 10789, 65535, 101, 1, 10793, 65535, 97, 1, 10797, 65535, 116, 1,
    10801, 65535, 101, 1, 10805, 65535, 114, 1, 10809, 65535, 71, 1, 10813, 65535, 114, 1,
    10817, 65535, 101, 1, 10821, 65535, 97, 1, 10825, 65535, 116, 1, 10829, 65535, 101, 1,
    10833, 65535, 114, 1, 10837, 65535, 59, 1, 10841, 311, 0, 0, 65535, 101, 1, 10848,
    65535, 115, 1, 10852, 65535, 115, 1, 10856, 65535, 76, 1, 10860, 65535, 101, 1, 10864,
    65535, 115, 1, 10868, 65535, 115, 1, 10872, 65535, 59, 1, 10876, 312, 0, 0, 65535,
    114, 1, 10883, 65535, 101, 1, 10887, 65535, 99, 1, 10891, 65535, 101, 1, 10895, 65535,
    100, 1, 10899, 65535, 101, 1, 10903, 65535, 115, 1, 10907, 65535, 59, 25, 10935, 0,
    0, 0, 0, 0, 0, 0, 0, 0, 10938, 0, 0, 0, 0, 0, 0, 0,
    0, 0, 0, 0, 0, 0, 10961, 313, 0, 0, 65535, 113, 1, 10942, 65535, 117,
    1, 10946, 65535, 97, 1, 10950, 65535, 108, 1, 10954, 65535, 59, 1, 10958, 314, 0,
    0, 65535, 108, 1, 10965, 65535, 97, 1, 10969, 65535, 110, 1, 10973, 65535, 116, 1,
    10977, 65535, 69, 1, 10981, 65535, 113, 1, 10985, 65535, 117, 1, 10989, 65535, 97, 1,
    10993, 65535, 108, 1, 10997, 65535, 59, 1, 11001, 315, 0, 0, 65535, 101, 5, 11012,
    0, 0, 0, 11067, 65535, 118, 1, 11016, 65535, 101, 1, 11020, 65535, 114, 1, 11024,
    65535, 115, 1, 11028, 65535, 101, 1, 11032, 65535, 69, 1, 11036, 65535, 108, 1, 11040,
    65535, 101, 1, 11044, 65535, 109, 1, 11048, 65535, 101, 1, 11052, 65535, 110, 1, 11056,
    65535, 116, 1, 11060, 65535, 59, 1, 11064, 316, 0, 0, 65535, 103, 1, 11071, 65535,
    104, 1, 11075, 65535, 116, 1, 11079, 65535, 84, 1, 11083, 65535, 114, 1, 11087, 65535,
    105, 1, 11091, 65535, 97, 1, 11095, 65535, 110, 1, 11099, 65535, 103, 1, 11103, 65535,
    108, 1, 11107, 65535, 101, 1, 11111, 65535, 59, 11, 11125, 0, 0, 0, 0, 0,
    0, 11128, 0, 0, 11143, 317, 0, 0, 65535, 97, 1, 11132, 65535, 114, 1, 11136,
    65535, 59, 1, 11140, 318, 0, 0, 65535, 113, 1, 11147, 65535, 117, 1, 11151, 65535,
    97, 1, 11155, 65535, 108, 1, 11159, 65535, 59, 1, 11163, 319, 0, 0, 65535, 113,
    5, 11174, 0, 0, 0, 11328, 65535, 117, 1, 11178, 65535, 97, 1, 11182, 65535, 114,
    1, 11186, 65535, 101, 1, 11190, 65535, 83, 1, 11194, 65535, 117, 1, 11198, 65535, 98,
    15, 11216, 0, 0, 0, 0, 0, 0, 0, 0, 0, 0, 0, 0, 0, 11268,
    65535, 115, 1, 11220, 65535, 101, 1, 11224, 65535, 116, 1, 11228, 65535, 59, 11, 11242,
    0, 0, 0, 0, 0, 0, 0, 0, 0, 11245, 320, 0, 0, 65535, 113, 1,
    11249, 65535, 117, 1, 11253, 65535, 97, 1, 11257, 65535, 108, 1, 11261, 65535, 59, 1,
    11265, 321, 0, 0, 65535, 101, 1, 11272, 65535, 114, 1, 11276, 65535, 115, 1, 11280,
    65535, 101, 1, 11284, 65535, 116, 1, 11288, 65535, 59, 11, 11302, 0, 0, 0, 0,
    0, 0, 0, 0, 0, 11305, 322, 0, 0, 65535, 113, 1, 11309, 65535, 117, 1,
    11313, 65535, 97, 1, 11317, 65535, 108, 1, 11321, 65535, 59, 1, 11325, 323, 0, 0,
    65535, 98, 15, 11346, 11398, 0, 0, 0, 0, 0, 0, 0, 0, 0, 0, 0,
    0, 11539, 65535, 115, 1, 11350, 65535, 101, 1, 11354, 65535, 116, 1, 11358, 65535, 59,
    11, 11372, 0, 0, 0, 0, 0, 0, 0, 0, 0, 11375, 324, 0, 0, 65535,
    113, 1, 11379, 65535, 117, 1, 11383, 65535, 97, 1, 11387, 65535, 108, 1, 11391, 65535,
    59, 1, 11395, 325, 0, 0, 65535, 99, 1, 11402, 65535, 101, 1, 11406, 65535, 101,
    1, 11410, 65535, 100, 1, 11414, 65535, 115, 1, 11418, 65535, 59, 26, 11447, 0, 0,
    0, 0, 0, 0, 0, 0, 0, 11450, 0, 0, 0, 0, 0, 0, 0, 0,
    0, 0, 0, 0, 0, 11473, 11516, 326, 0, 0, 65535, 113, 1, 11454, 65535, 117,
    1, 11458, 65535, 97, 1, 11462, 65535, 108, 1, 11466, 65535, 59, 1, 11470, 327, 0,
    0, 65535, 108, 1, 11477, 65535, 97, 1, 11481, 65535, 110, 1, 11485, 65535, 116, 1,
    11489, 65535, 69, 1, 11493, 65535, 113, 1, 11497, 65535, 117, 1, 11501, 65535, 97, 1,
    11505, 65535, 108, 1, 11509, 65535, 59, 1, 11513, 328, 0, 0, 65535, 105, 1, 11520,
    65535, 108, 1, 11524, 65535, 100, 1, 11528, 65535, 101, 1, 11532, 65535, 59, 1, 11536,
    329, 0, 0, 65535, 101, 1, 11543, 65535, 114, 1, 11547, 65535, 115, 1, 11551, 65535,
    101, 1, 11555, 65535, 116, 1, 11559, 65535, 59, 11, 11573, 0, 0, 0, 0, 0,
    0, 0, 0, 0, 11576, 330, 0, 0, 65535, 113, 1, 11580, 65535, 117, 1, 11584,
    65535, 97, 1, 11588, 65535, 108, 1, 11592, 65535, 59, 1, 11596, 331, 0, 0, 65535,
    105, 1, 11603, 65535, 108, 1, 11607, 65535, 100, 1, 11611, 65535, 101, 1, 11615, 65535,
    59, 26, 11644, 0, 0, 0, 0, 0, 0, 0, 0, 0, 11647, 11670, 0, 0,
    0, 0, 0, 0, 0, 0, 0, 0, 0, 0, 0, 11709, 332, 0, 0, 65535,
    113, 1, 11651, 65535, 117, 1, 11655, 65535, 97, 1, 11659, 65535, 108, 1, 11663, 65535,
    59, 1, 11667, 333, 0, 0, 65535, 117, 1, 11674, 65535, 108, 1, 11678, 65535, 108,
    1, 11682, 65535, 69, 1, 11686, 65535, 113, 1, 11690, 65535, 117, 1, 11694, 65535, 97,
    1, 11698, 65535, 108, 1, 11702, 65535, 59, 1, 11706, 334, 0, 0, 65535, 105, 1,
    11713, 65535, 108, 1, 11717, 65535, 100, 1, 11721, 65535, 101, 1, 11725, 65535, 59, 1,
    11729, 335, 0, 0, 65535, 101, 1, 11736, 65535, 114, 1, 11740, 65535, 116, 1, 11744,
    65535, 105, 1, 11748, 65535, 99, 1, 11752, 65535, 97, 1, 11756, 65535, 108, 1, 11760,
    65535, 66, 1, 11764, 65535, 97, 1, 11768, 65535, 114, 1, 11772, 65535, 59, 1, 11776,
    336, 0, 0, 65535, 99, 1, 11783, 65535, 114, 1, 11787, 65535, 59, 1, 11791, 337,
    0, 0, 65535, 105, 1, 11798, 65535, 108, 1, 11802, 65535, 100, 1, 11806, 65535, 101,
    1, 11810, 338, 59, 1, 11814, 338, 0, 0, 65535, 59, 1, 11821, 339, 0, 0,
    65535, 69, 50, 11877, 0, 0, 0, 0, 0, 0, 0, 0, 0, 0, 0, 0,
    0, 0, 0, 0, 0, 0, 0, 0, 0, 0, 0, 0, 0, 0, 0, 11896,
    0, 11919, 11961, 0, 11984, 11995, 0, 0, 0, 0, 0, 12018, 0, 12083, 12098, 0,
    12213, 12220, 12263, 12302, 12317, 65535, 108, 1, 11881, 65535, 105, 1, 11885, 65535, 103, 1,
    11889, 65535, 59, 1, 11893, 340, 0, 0, 65535, 99, 1, 11900, 65535, 117, 1, 11904,
    65535, 116, 1, 11908, 65535, 101, 1, 11912, 341, 59, 1, 11916, 341, 0, 0, 65535,
    105, 17, 11939, 0, 0, 0, 0, 0, 0, 0, 0, 0, 0, 0, 0, 0,
    0, 0, 11954, 65535, 114, 1, 11943, 65535, 99, 1, 11947, 342, 59, 1, 11951, 342,
    0, 0, 65535, 59, 1, 11958, 343, 0, 0, 65535, 98, 1, 11965, 65535, 108, 1,
    11969, 65535, 97, 1, 11973, 65535, 99, 1, 11977, 65535, 59, 1, 11981, 344, 0, 0,
    65535, 114, 1, 11988, 65535, 59, 1, 11992, 345, 0, 0, 65535, 114, 1, 11999, 65535,
    97, 1, 12003, 65535, 118, 1, 12007, 65535, 101, 1, 12011, 346, 59, 1, 12015, 346,
    0, 0, 65535, 97, 9, 12030, 0, 0, 0, 12045, 0, 0, 0, 12060, 65535, 99,
    1, 12034, 65535, 114, 1, 12038, 65535, 59, 1, 12042, 347, 0, 0, 65535, 103, 1,
    12049, 65535, 97, 1, 12053, 65535, 59, 1, 12057, 348, 0, 0, 65535, 99, 1, 12064,
    65535, 114, 1, 12068, 65535, 111, 1, 12072, 65535, 110, 1, 12076, 65535, 59, 1, 12080,
    349, 0, 0, 65535, 112, 1, 12087, 65535, 102, 1, 12091, 65535, 59, 1, 12095, 350,
    0, 0, 65535, 101, 1, 12102, 65535, 110, 1, 12106, 65535, 67, 1, 12110, 65535, 117,
    1, 12114, 65535, 114, 1, 12118, 65535, 108, 1, 12122, 65535, 121, 1, 12126, 65535, 68,
    14, 12143, 0, 0, 0, 0, 0, 0, 0, 0, 0, 0, 0, 0, 12190, 65535,
    111, 1, 12147, 65535, 117, 1, 12151, 65535, 98, 1, 12155, 65535, 108, 1, 12159, 65535,
    101, 1, 12163, 65535, 81, 1, 12167, 65535, 117, 1, 12171, 65535, 111, 1, 12175, 65535,
    116, 1, 12179, 65535, 101, 1, 12183, 65535, 59, 1, 12187, 351, 0, 0, 65535, 117,
    1, 12194, 65535, 111, 1, 12198, 65535, 116, 1, 12202, 65535, 101, 1, 12206, 65535, 59,
    1, 12210, 352, 0, 0, 65535, 59, 1, 12217, 353, 0, 0, 65535, 99, 10, 12233,
    0, 0, 0, 0, 0, 0, 0, 0, 12244, 65535, 114, 1, 12237, 65535, 59, 1,
    12241, 354, 0, 0, 65535, 97, 1, 12248, 65535, 115, 1, 12252, 65535, 104, 1, 12256,
    355, 59, 1, 12260, 355, 0, 0, 65535, 105, 1, 12267, 65535, 108, 2, 12272, 12287,
    65535, 100, 1, 12276, 65535, 101, 1, 12280, 356, 59, 1, 12284, 356, 0, 0, 65535,
    101, 1, 12291, 65535, 115, 1, 12295, 65535, 59, 1, 12299, 357, 0, 0, 65535, 109,
    1, 12306, 65535, 108, 1, 12310, 358, 59, 1, 12314, 358, 0, 0, 65535, 101, 1,
    12321, 65535, 114, 1, 12325, 65535, 66, 15, 12343, 0, 0, 0, 0, 0, 0, 0,
    0, 0, 0, 0, 0, 0, 12415, 65535, 97, 18, 12364, 0, 0, 0, 0, 0,
    0, 0, 0, 0, 0, 0, 0, 0, 0, 0, 0, 12375, 65535, 114, 1, 12368,
    65535, 59, 1, 12372, 359, 0, 0, 65535, 97, 1, 12379, 65535, 99, 1, 12383, 65535,
    101, 7, 12393, 0, 0, 0, 0, 0, 12400, 65535, 59, 1, 12397, 360, 0, 0,
    65535, 101, 1, 12404, 65535, 116, 1, 12408, 65535, 59, 1, 12412, 361, 0, 0, 65535,
    97, 1, 12419, 65535, 114, 1, 12423, 65535, 101, 1, 12427, 65535, 110, 1, 12431, 65535,
    116, 1, 12435, 65535, 104, 1, 12439, 65535, 101, 1, 12443, 65535, 115, 1, 12447, 65535,
    105, 1, 12451, 65535, 115, 1, 12455, 65535, 59, 1, 12459, 362, 0, 0, 65535, 97,
    19, 12484, 0, 12515, 0, 0, 12526, 0, 12537, 12548, 0, 0, 12555, 0, 0, 12590,
    0, 0, 12659, 12989, 65535, 114, 1, 12488, 65535, 116, 1, 12492, 65535, 105, 1, 12496,
    65535, 97, 1, 12500, 65535, 108, 1, 12504, 65535, 68, 1, 12508, 65535, 59, 1, 12512,
    363, 0, 0, 65535, 121, 1, 12519, 65535, 59, 1, 12523, 364, 0, 0, 65535, 114,
    1, 12530, 65535, 59, 1, 12534, 365, 0, 0, 65535, 105, 1, 12541, 65535, 59, 1,
    12545, 366, 0, 0, 65535, 59, 1, 12552, 367, 0, 0, 65535, 117, 1, 12559, 65535,
    115, 1, 12563, 65535, 77, 1, 12567, 65535, 105, 1, 12571, 65535, 110, 1, 12575, 65535,
    117, 1, 12579, 65535, 115, 1, 12583, 65535, 59, 1, 12587, 368, 0, 0, 65535, 105,
    8, 12601, 0, 0, 0, 0, 0, 0, 12648, 65535, 110, 1, 12605, 65535, 99, 1,
    12609, 65535, 97, 1, 12613, 65535, 114, 1, 12617, 65535, 101, 1, 12621, 65535, 112, 1,
    12625, 65535, 108, 1, 12629, 65535, 97, 1, 12633, 65535, 110, 1, 12637, 65535, 101, 1,
    12641, 65535, 59, 1, 12645, 169, 0, 0, 65535, 102, 1, 12652, 65535, 59, 1, 12656,
    369, 0, 0, 65535, 59, 53, 12715, 0, 0, 0, 0, 0, 0, 0, 0, 0,
    0, 0, 0, 0, 0, 0, 0, 0, 0, 0, 0, 0, 0, 0, 0, 0,
    0, 0, 0, 0, 0, 0, 0, 0, 0, 0, 0, 0, 0, 0, 0, 0,
    12718, 0, 0, 0, 12859, 0, 0, 0, 0, 0, 12874, 370, 0, 0, 65535, 99,
    1, 12722, 65535, 101, 1, 12726, 65535, 100, 1, 12730, 65535, 101, 1, 12734, 65535, 115,
    1, 12738, 65535, 59, 26, 12767, 0, 0, 0, 0, 0, 0, 0, 0, 0, 12770,
    0, 0, 0, 0, 0, 0, 0, 0, 0, 0, 0, 0, 0, 12793, 12836, 371,
    0, 0, 65535, 113, 1, 12774, 65535, 117, 1, 12778, 65535, 97, 1, 12782, 65535, 108,
    1, 12786, 65535, 59, 1, 12790, 372, 0, 0, 65535, 108, 1, 12797, 65535, 97, 1,
];

/// Entry `i` of this part; 0 where the part has no such entry.
#[verifier::opaque]
pub open spec fn cell(i: int) -> u16 {
    if 0 <= i < 2560 {
        CELLS[i]
    } else {
        0
    }
}

/// Reads entry `i` of this part.
pub fn read_cell(i: usize) -> (entry: u16)
    ensures
        entry == cell(i as int),
{
    reveal(cell);
    if i < 2560 {
        CELLS[i]
    } else {
        0
    }
}

} // verus!
