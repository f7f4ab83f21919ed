//! Cells 35840 to 38399 of the trie table.
use vstd::prelude::*;

verus! {

/// The entries of this part, in order.
pub const CELLS: [u16; 2560] = [
    119, 1, 35843, 65535, 59, 57, 35903, 0, 0, 0, 0, 0, 0, 0, 0, 0,
    0, 0, 0, 0, 0, 0, 0, 0, 0, 0, 0, 0, 0, 0, 0, 0,
    0, 0, 0, 0, 0, 0, 0, 0, 0, 0, 0, 0, 0, 0, 0, 0,
    0, 0, 0, 0, 0, 0, 0, 0, 0, 0, 0, 0, 0, 0, 35906, 233,
    0, 0, 65535, 59, 1, 35910, 226, 0, 0, 65535, 97, 1, 35917, 65535, 114, 1,
    35921, 65535, 112, 1, 35925, 65535, 111, 1, 35929, 65535, 111, 1, 35933, 65535, 110, 1,
    35937, 65535, 115, 1, 35941, 65535, 59, 1, 35945, 395, 0, 0, 65535, 113, 1, 35952,
    65535, 117, 1, 35956, 65535, 105, 1, 35960, 65535, 103, 1, 35964, 65535, 97, 1, 35968,
    65535, 114, 1, 35972, 65535, 114, 1, 35976, 65535, 111, 1, 35980, 65535, 119, 1, 35984,
    65535, 59, 1, 35988, 925, 0, 0, 65535, 104, 1, 35995, 65535, 114, 1, 35999, 65535,
    101, 1, 36003, 65535, 101, 1, 36007, 65535, 116, 1, 36011, 65535, 105, 1, 36015, 65535,
    109, 1, 36019, 65535, 101, 1, 36023, 65535, 115, 1, 36027, 65535, 59, 1, 36031, 1032,
    0, 0, 65535, 59, 1, 36038, 247, 0, 0, 65535, 59, 57, 36101, 0, 0, 0,
    0, 0, 0, 0, 0, 0, 0, 0, 0, 0, 0, 0, 0, 0, 0, 0,
    0, 0, 0, 0, 0, 0, 0, 0, 0, 0, 0, 0, 0, 0, 0, 0,
    0, 0, 0, 0, 0, 0, 0, 0, 0, 0, 0, 0, 0, 0, 0, 0,
    0, 0, 36104, 0, 36111, 1030, 0, 0, 65535, 59, 1, 36108, 248, 0, 0, 65535,
    108, 1, 36115, 65535, 97, 1, 36119, 65535, 110, 1, 36123, 65535, 116, 1, 36127, 65535,
    59, 1, 36131, 251, 0, 0, 65535, 59, 57, 36194, 0, 0, 0, 0, 0, 0,
    0, 0, 0, 0, 0, 0, 0, 0, 0, 0, 0, 0, 0, 0, 0, 0,
    0, 0, 0, 0, 0, 0, 0, 0, 0, 0, 0, 0, 0, 0, 0, 0,
    0, 36197, 36208, 0, 0, 36344, 0, 0, 0, 0, 0, 0, 0, 0, 0, 0,
    0, 36404, 251, 0, 0, 65535, 99, 1, 36201, 65535, 59, 1, 36205, 1033, 0, 0,
    65535, 111, 1, 36212, 65535, 116, 1, 36216, 65535, 59, 53, 36272, 0, 0, 0, 0,
    0, 0, 0, 0, 0, 0, 0, 0, 0, 0, 0, 0, 0, 0, 0, 0,
    0, 0, 0, 0, 0, 0, 0, 0, 0, 0, 0, 0, 0, 0, 0, 0,
    0, 0, 0, 0, 0, 0, 0, 0, 0, 0, 0, 0, 0, 0, 0, 36275,
    1034, 0, 0, 65535, 59, 56, 36334, 0, 0, 0, 0, 0, 0, 0, 0, 0,
    0, 0, 0, 0, 0, 0, 0, 0, 0, 0, 0, 0, 0, 0, 0, 0,
    0, 0, 0, 0, 0, 0, 0, 0, 0, 0, 0, 0, 0, 0, 0, 0,
    0, 0, 0, 0, 0, 0, 0, 0, 0, 0, 0, 0, 0, 36337, 1035, 0,
    0, 65535, 59, 1, 36341, 1036, 0, 0, 65535, 59, 43, 36390, 0, 0, 0, 0,
    0, 0, 0, 0, 0, 0, 0, 0, 0, 0, 0, 0, 0, 0, 0, 0,
    0, 0, 0, 0, 0, 0, 0, 0, 0, 0, 0, 0, 0, 0, 0, 0,
    0, 0, 0, 0, 0, 36393, 1037, 0, 0, 65535, 115, 1, 36397, 65535, 59, 1,
    36401, 1038, 0, 0, 65535, 97, 19, 36426, 0, 0, 36453, 36468, 0, 36520, 0, 0,
    0, 0, 0, 0, 0, 0, 0, 0, 0, 36535, 65535, 112, 1, 36430, 65535, 112,
    1, 36434, 65535, 114, 1, 36438, 65535, 111, 1, 36442, 65535, 120, 1, 36446, 65535, 59,
    1, 36450, 1004, 0, 0, 65535, 111, 1, 36457, 65535, 116, 1, 36461, 65535, 59, 1,
    36465, 1039, 0, 0, 65535, 113, 1, 36472, 65535, 103, 11, 36486, 0, 0, 0, 0,
    0, 0, 0, 0, 0, 36501, 65535, 116, 1, 36490, 65535, 114, 1, 36494, 65535, 59,
    1, 36498, 247, 0, 0, 65535, 103, 1, 36505, 65535, 116, 1, 36509, 65535, 114, 1,
    36513, 65535, 59, 1, 36517, 998, 0, 0, 65535, 116, 1, 36524, 65535, 114, 1, 36528,
    65535, 59, 1, 36532, 249, 0, 0, 65535, 105, 1, 36539, 65535, 109, 1, 36543, 65535,
    59, 1, 36547, 252, 0, 0, 65535, 105, 10, 36563, 0, 0, 36582, 0, 0, 0,
    0, 0, 36601, 65535, 115, 1, 36567, 65535, 104, 1, 36571, 65535, 116, 1, 36575, 65535,
    59, 1, 36579, 1040, 0, 0, 65535, 111, 1, 36586, 65535, 111, 1, 36590, 65535, 114,
    1, 36594, 65535, 59, 1, 36598, 232, 0, 0, 65535, 59, 1, 36605, 1041, 0, 0,
    65535, 59, 11, 36622, 0, 0, 0, 0, 0, 0, 0, 0, 0, 36625, 249, 0,
    0, 65535, 59, 1, 36629, 1042, 0, 0, 65535, 97, 2, 36637, 36732, 65535, 114, 1,
    36641, 65535, 100, 18, 36662, 0, 0, 0, 0, 0, 0, 0, 0, 0, 0, 0,
    0, 0, 0, 0, 0, 36669, 65535, 59, 1, 36666, 103, 0, 0, 65535, 59, 50,
    36722, 0, 0, 0, 0, 0, 0, 0, 0, 0, 0, 0, 0, 0, 0, 0,
    0, 0, 0, 0, 0, 0, 0, 0, 0, 0, 0, 0, 0, 0, 0, 0,
    0, 0, 0, 0, 0, 0, 0, 0, 0, 0, 0, 0, 0, 0, 0, 0,
    0, 36725, 245, 0, 0, 65535, 59, 1, 36729, 1043, 0, 0, 65535, 108, 1, 36736,
    65535, 107, 1, 36740, 65535, 59, 1, 36744, 1044, 0, 0, 65535, 99, 1, 36751, 65535,
    121, 1, 36755, 65535, 59, 1, 36759, 1045, 0, 0, 65535, 59, 58, 36823, 0, 0,
    0, 0, 0, 0, 0, 0, 0, 0, 0, 0, 0, 0, 0, 0, 0, 0,
    0, 0, 0, 0, 0, 0, 0, 0, 0, 0, 0, 0, 0, 0, 0, 0,
    0, 0, 0, 36826, 0, 36841, 0, 0, 0, 0, 36868, 0, 0, 0, 0, 0,
    0, 0, 0, 0, 0, 0, 36887, 265, 0, 0, 65535, 114, 1, 36830, 65535, 114,
    1, 36834, 65535, 59, 1, 36838, 1031, 0, 0, 65535, 111, 1, 36845, 65535, 114, 1,
    36849, 65535, 110, 1, 36853, 65535, 101, 1, 36857, 65535, 114, 1, 36861, 65535, 59, 1,
    36865, 790, 0, 0, 65535, 97, 1, 36872, 65535, 114, 1, 36876, 65535, 100, 1, 36880,
    65535, 59, 1, 36884, 1046, 0, 0, 65535, 114, 1, 36891, 65535, 105, 1, 36895, 65535,
    59, 1, 36899, 1047, 0, 0, 65535, 105, 7, 36912, 0, 0, 0, 0, 0, 36931,
    65535, 100, 1, 36916, 65535, 111, 1, 36920, 65535, 116, 1, 36924, 65535, 59, 1, 36928,
    1048, 0, 0, 65535, 117, 1, 36935, 65535, 115, 1, 36939, 65535, 116, 1, 36943, 65535,
    59, 39, 36985, 0, 0, 0, 0, 0, 0, 0, 0, 0, 0, 0, 0, 0,
    0, 0, 0, 0, 0, 0, 0, 0, 0, 0, 0, 0, 0, 0, 0, 0,
    0, 0, 0, 0, 0, 0, 0, 0, 36988, 1049, 0, 0, 65535, 99, 1, 36992,
    65535, 104, 1, 36996, 65535, 101, 1, 37000, 65535, 59, 1, 37004, 1049, 0, 0, 65535,
    69, 47, 37057, 0, 0, 0, 0, 0, 0, 0, 0, 0, 0, 0, 0, 0,
    0, 0, 0, 0, 0, 0, 0, 0, 0, 0, 0, 0, 0, 0, 37064, 0,
    0, 0, 37147, 0, 0, 0, 0, 0, 0, 0, 0, 0, 0, 0, 0, 0,
    37276, 65535, 59, 1, 37061, 1050, 0, 0, 65535, 112, 1, 37068, 65535, 59, 54, 37125,
    0, 0, 0, 0, 0, 0, 0, 0, 0, 0, 0, 0, 0, 0, 0, 0,
    0, 0, 0, 0, 0, 0, 0, 0, 0, 0, 0, 0, 0, 0, 0, 0,
    0, 0, 0, 0, 0, 0, 0, 0, 0, 0, 0, 0, 0, 0, 0, 0,
    0, 0, 0, 0, 37128, 1051, 0, 0, 65535, 114, 1, 37132, 65535, 111, 1, 37136,
    65535, 120, 1, 37140, 65535, 59, 1, 37144, 1051, 0, 0, 65535, 59, 55, 37205, 0,
    0, 0, 0, 0, 0, 0, 0, 0, 0, 0, 0, 0, 0, 0, 0, 0,
    0, 0, 0, 0, 0, 0, 0, 0, 0, 0, 0, 0, 0, 0, 0, 0,
    0, 0, 0, 0, 0, 0, 0, 0, 0, 0, 0, 0, 0, 0, 0, 0,
    0, 0, 0, 0, 37208, 1052, 0, 0, 65535, 59, 55, 37266, 0, 0, 0, 0,
    0, 0, 0, 0, 0, 0, 0, 0, 0, 0, 0, 0, 0, 0, 0, 0,
    0, 0, 0, 0, 0, 0, 0, 0, 0, 0, 0, 0, 0, 0, 0, 0,
    0, 0, 0, 0, 0, 0, 0, 0, 0, 0, 0, 0, 0, 0, 0, 0,
    0, 37269, 1052, 0, 0, 65535, 59, 1, 37273, 1050, 0, 0, 65535, 105, 1, 37280,
    65535, 109, 1, 37284, 65535, 59, 1, 37288, 1053, 0, 0, 65535, 97, 26, 37320, 37350,
    0, 0, 0, 0, 0, 0, 0, 0, 0, 0, 0, 37365, 37548, 37624, 0, 0,
    0, 37672, 0, 0, 37695, 0, 0, 37730, 65535, 110, 5, 37328, 0, 0, 0, 37339,
    65535, 103, 1, 37332, 65535, 59, 1, 37336, 1054, 0, 0, 65535, 114, 1, 37343, 65535,
    59, 1, 37347, 1055, 0, 0, 65535, 114, 1, 37354, 65535, 107, 1, 37358, 65535, 59,
    1, 37362, 228, 0, 0, 65535, 103, 1, 37369, 65535, 108, 7, 37379, 37478, 0, 0,
    0, 0, 37505, 65535, 101, 1, 37383, 65535, 102, 1, 37387, 65535, 116, 1, 37391, 65535,
    97, 18, 37412, 0, 0, 0, 0, 0, 0, 0, 0, 0, 0, 0, 0, 0,
    0, 0, 0, 37435, 65535, 114, 1, 37416, 65535, 114, 1, 37420, 65535, 111, 1, 37424,
    65535, 119, 1, 37428, 65535, 59, 1, 37432, 257, 0, 0, 65535, 105, 1, 37439, 65535,
    103, 1, 37443, 65535, 104, 1, 37447, 65535, 116, 1, 37451, 65535, 97, 1, 37455, 65535,
    114, 1, 37459, 65535, 114, 1, 37463, 65535, 111, 1, 37467, 65535, 119, 1, 37471, 65535,
    59, 1, 37475, 258, 0, 0, 65535, 97, 1, 37482, 65535, 112, 1, 37486, 65535, 115,
    1, 37490, 65535, 116, 1, 37494, 65535, 111, 1, 37498, 65535, 59, 1, 37502, 1056, 0,
    0, 65535, 105, 1, 37509, 65535, 103, 1, 37513, 65535, 104, 1, 37517, 65535, 116, 1,
    37521, 65535, 97, 1, 37525, 65535, 114, 1, 37529, 65535, 114, 1, 37533, 65535, 111, 1,
    37537, 65535, 119, 1, 37541, 65535, 59, 1, 37545, 259, 0, 0, 65535, 112, 1, 37552,
    65535, 97, 1, 37556, 65535, 114, 1, 37560, 65535, 114, 1, 37564, 65535, 111, 1, 37568,
    65535, 119, 1, 37572, 65535, 108, 7, 37582, 0, 0, 0, 0, 0, 37601, 65535, 101,
    1, 37586, 65535, 102, 1, 37590, 65535, 116, 1, 37594, 65535, 59, 1, 37598, 1008, 0,
    0, 65535, 105, 1, 37605, 65535, 103, 1, 37609, 65535, 104, 1, 37613, 65535, 116, 1,
    37617, 65535, 59, 1, 37621, 1057, 0, 0, 65535, 97, 12, 37639, 0, 0, 0, 0,
    37650, 0, 0, 0, 0, 0, 37657, 65535, 114, 1, 37643, 65535, 59, 1, 37647, 1058,
    0, 0, 65535, 59, 1, 37654, 1059, 0, 0, 65535, 117, 1, 37661, 65535, 115, 1,
    37665, 65535, 59, 1, 37669, 1060, 0, 0, 65535, 105, 1, 37676, 65535, 109, 1, 37680,
    65535, 101, 1, 37684, 65535, 115, 1, 37688, 65535, 59, 1, 37692, 1061, 0, 0, 65535,
    97, 2, 37700, 37715, 65535, 115, 1, 37704, 65535, 116, 1, 37708, 65535, 59, 1, 37712,
    1062, 0, 0, 65535, 97, 1, 37719, 65535, 114, 1, 37723, 65535, 59, 1, 37727, 493,
    0, 0, 65535, 59, 44, 37777, 0, 0, 0, 0, 0, 0, 0, 0, 0, 0,
    0, 0, 0, 0, 0, 0, 0, 0, 0, 0, 0, 0, 0, 0, 0, 0,
    0, 0, 0, 0, 0, 0, 0, 0, 0, 0, 0, 0, 0, 0, 0, 37780,
    37799, 1063, 0, 0, 65535, 110, 1, 37784, 65535, 103, 1, 37788, 65535, 101, 1, 37792,
    65535, 59, 1, 37796, 1063, 0, 0, 65535, 59, 1, 37803, 633, 0, 0, 65535, 97,
    1, 37810, 65535, 114, 1, 37814, 65535, 59, 50, 37867, 0, 0, 0, 0, 0, 0,
    0, 0, 0, 0, 0, 0, 0, 0, 0, 0, 0, 0, 0, 0, 0, 0,
    0, 0, 0, 0, 0, 0, 0, 0, 0, 0, 0, 0, 0, 0, 0, 0,
    0, 0, 0, 0, 0, 0, 0, 0, 0, 0, 37870, 1064, 0, 0, 65535, 116,
    1, 37874, 65535, 59, 1, 37878, 1065, 0, 0, 65535, 97, 20, 37904, 0, 37919, 0,
    0, 0, 0, 37946, 0, 0, 0, 0, 38009, 0, 0, 0, 0, 0, 0, 38016,
    65535, 114, 1, 37908, 65535, 114, 1, 37912, 65535, 59, 1, 37916, 226, 0, 0, 65535,
    111, 1, 37923, 65535, 114, 1, 37927, 65535, 110, 1, 37931, 65535, 101, 1, 37935, 65535,
    114, 1, 37939, 65535, 59, 1, 37943, 798, 0, 0, 65535, 97, 1, 37950, 65535, 114,
    1, 37954, 65535, 59, 42, 37999, 0, 0, 0, 0, 0, 0, 0, 0, 0, 0,
    0, 0, 0, 0, 0, 0, 0, 0, 0, 0, 0, 0, 0, 0, 0, 0,
    0, 0, 0, 0, 0, 0, 0, 0, 0, 0, 0, 0, 0, 0, 38002, 395,
    0, 0, 65535, 59, 1, 38006, 1066, 0, 0, 65535, 59, 1, 38013, 1067, 0, 0,
    65535, 114, 1, 38020, 65535, 105, 1, 38024, 65535, 59, 1, 38028, 1068, 0, 0, 65535,
    97, 20, 38054, 0, 38073, 0, 0, 0, 0, 38084, 38091, 0, 0, 0, 0, 0,
    0, 0, 38160, 0, 0, 38263, 65535, 113, 1, 38058, 65535, 117, 1, 38062, 65535, 111,
    1, 38066, 65535, 59, 1, 38070, 1069, 0, 0, 65535, 114, 1, 38077, 65535, 59, 1,
    38081, 1070, 0, 0, 65535, 59, 1, 38088, 263, 0, 0, 65535, 109, 1, 38095, 65535,
    59, 45, 38143, 0, 0, 0, 0, 0, 0, 0, 0, 0, 0, 0, 0, 0,
    0, 0, 0, 0, 0, 0, 0, 0, 0, 0, 0, 0, 0, 0, 0, 0,
    0, 0, 0, 0, 0, 0, 0, 0, 0, 0, 0, 0, 38146, 0, 38153, 252,
    0, 0, 65535, 59, 1, 38150, 1071, 0, 0, 65535, 59, 1, 38157, 1072, 0, 0,
    65535, 98, 20, 38183, 0, 0, 0, 0, 0, 0, 0, 0, 0, 0, 0, 0,
    0, 0, 0, 0, 0, 0, 38190, 65535, 59, 1, 38187, 1019, 0, 0, 65535, 111,
    1, 38194, 65535, 59, 56, 38253, 0, 0, 0, 0, 0, 0, 0, 0, 0, 0,
    0, 0, 0, 0, 0, 0, 0, 0, 0, 0, 0, 0, 0, 0, 0, 0,
    0, 0, 0, 0, 0, 0, 0, 0, 0, 0, 0, 0, 0, 0, 0, 0,
    0, 0, 0, 0, 0, 0, 0, 0, 0, 0, 0, 0, 38256, 352, 0, 0,
    65535, 59, 1, 38260, 1073, 0, 0, 65535, 114, 1, 38267, 65535, 111, 1, 38271, 65535,
    107, 1, 38275, 65535, 59, 1, 38279, 1074, 0, 0, 214, 59, 56, 38341, 0, 0,
    0, 0, 0, 0, 0, 0, 0, 0, 0, 0, 0, 0, 0, 0, 0, 0,
    0, 0, 0, 0, 0, 0, 0, 0, 0, 0, 0, 0, 0, 0, 0, 0,
    0, 0, 0, 0, 0, 38344, 38372, 0, 0, 0, 38387, 38406, 0, 0, 38425, 0,
    0, 0, 0, 38444, 38467, 214, 0, 0, 65535, 99, 7, 38354, 0, 0, 0, 0,
    0, 38361, 65535, 59, 1, 38358, 1075, 0, 0, 65535, 114, 1, 38365, 65535, 59, 1,
    38369, 1076, 0, 0, 65535, 111, 1, 38376, 65535, 116, 1, 38380, 65535, 59, 1, 38384,
    1039, 0, 0, 65535, 114, 1, 38391, 65535, 101, 1, 38395, 65535, 101, 1, 38399, 65535,
];

/// Entry `i` of this part; 0 where the part has no such entry.
#[verifier::opaque]
pub open spec fn cell(i: int) -> u16 {
    if 0 <= i < 2560 {
        CELLS[i]
    } else {
        0
    }
}

/// Reads entry `i` of this part.
pub fn read_cell(i: usize) -> (entry: u16)
    ensures
        entry == cell(i as int),
{
    reveal(cell);
    if i < 2560 {
        CELLS[i]
    } else {
        0
    }
}

/// The entries of this part that the references `amp;`, `lt;` and `gt;` go through.
pub proof fn lemma_basic_reference_cells()
    ensures
        cell(2442) == 214,
        cell(2443) == 59,
        cell(2444) == 56,
        cell(2445) == 38341,
        cell(2501) == 214,
{
    reveal(cell);
}

} // verus!
