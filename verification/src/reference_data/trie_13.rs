//! Cells 33280 to 35839 of the trie table.
use vstd::prelude::*;

verus! {

/// The entries of this part, in order.
pub const CELLS: [u16; 2560] = [
    65535, 111, 1, 33284, 65535, 116, 1, 33288, 65535, 59, 1, 33292, 956, 0, 0, 65535,
    59, 54, 33352, 0, 0, 0, 0, 0, 0, 0, 0, 0, 0, 0, 0, 0,
    0, 0, 0, 0, 0, 0, 0, 0, 0, 0, 0, 0, 0, 0, 0, 0,
    0, 0, 0, 0, 0, 0, 0, 0, 0, 0, 33355, 0, 33370, 0, 0, 0,
    0, 0, 0, 33423, 0, 0, 0, 33446, 187, 0, 0, 65535, 97, 1, 33359, 65535,
    108, 1, 33363, 65535, 59, 1, 33367, 962, 0, 0, 65535, 103, 12, 33385, 0, 0,
    0, 0, 0, 0, 0, 0, 0, 0, 33404, 65535, 101, 1, 33389, 65535, 114, 1,
    33393, 65535, 115, 1, 33397, 65535, 59, 1, 33401, 557, 0, 0, 65535, 99, 1, 33408,
    65535, 97, 1, 33412, 65535, 108, 1, 33416, 65535, 59, 1, 33420, 962, 0, 0, 65535,
    97, 1, 33427, 65535, 114, 1, 33431, 65535, 104, 1, 33435, 65535, 107, 1, 33439, 65535,
    59, 1, 33443, 963, 0, 0, 65535, 114, 1, 33450, 65535, 111, 1, 33454, 65535, 100,
    1, 33458, 65535, 59, 1, 33462, 964, 0, 0, 65535, 99, 18, 33486, 0, 0, 0,
    33497, 0, 0, 0, 0, 0, 0, 0, 0, 33512, 0, 0, 0, 33523, 65535, 121,
    1, 33490, 65535, 59, 1, 33494, 965, 0, 0, 65535, 111, 1, 33501, 65535, 110, 1,
    33505, 65535, 59, 1, 33509, 966, 0, 0, 65535, 102, 1, 33516, 65535, 59, 1, 33520,
    967, 0, 0, 65535, 97, 1, 33527, 65535, 59, 1, 33531, 968, 0, 0, 65535, 114,
    1, 33538, 65535, 111, 1, 33542, 65535, 100, 1, 33546, 65535, 59, 1, 33550, 964, 0,
    0, 65535, 117, 1, 33557, 65535, 101, 1, 33561, 65535, 115, 1, 33565, 65535, 116, 1,
    33569, 969, 59, 1, 33573, 969, 0, 0, 65535, 99, 7, 33586, 0, 0, 0, 0,
    0, 33597, 65535, 114, 1, 33590, 65535, 59, 1, 33594, 970, 0, 0, 65535, 110, 1,
    33601, 65535, 59, 60, 33664, 0, 0, 0, 0, 0, 0, 0, 0, 0, 33667, 0,
    0, 0, 0, 0, 0, 0, 0, 0, 0, 0, 0, 0, 0, 0, 0, 0,
    0, 0, 0, 0, 0, 0, 0, 0, 0, 0, 0, 0, 0, 33674, 0, 0,
    0, 0, 0, 0, 0, 0, 0, 0, 0, 0, 0, 0, 33689, 0, 0, 33762,
    121, 0, 0, 65535, 59, 1, 33671, 971, 0, 0, 65535, 111, 1, 33678, 65535, 116,
    1, 33682, 65535, 59, 1, 33686, 972, 0, 0, 65535, 59, 60, 33752, 0, 0, 0,
    0, 0, 0, 0, 0, 0, 0, 0, 0, 0, 0, 0, 0, 0, 0, 0,
    0, 0, 0, 0, 0, 0, 0, 0, 0, 0, 0, 0, 0, 0, 0, 0,
    0, 0, 0, 0, 0, 0, 0, 0, 0, 0, 0, 0, 0, 0, 0, 0,
    0, 0, 0, 0, 0, 0, 0, 33755, 973, 0, 0, 65535, 59, 1, 33759, 974,
    0, 0, 65535, 59, 1, 33766, 121, 0, 0, 65535, 59, 47, 33819, 0, 0, 0,
    0, 0, 0, 0, 0, 0, 0, 0, 0, 0, 0, 0, 0, 0, 0, 0,
    0, 0, 0, 0, 0, 0, 0, 0, 0, 0, 0, 0, 0, 0, 0, 0,
    0, 0, 0, 0, 0, 0, 0, 0, 0, 0, 33822, 190, 0, 0, 65535, 108,
    1, 33826, 65535, 100, 1, 33830, 65535, 101, 1, 33834, 65535, 59, 1, 33838, 975, 0,
    0, 65535, 107, 3, 33847, 0, 33862, 65535, 99, 1, 33851, 65535, 121, 1, 33855, 65535,
    59, 1, 33859, 976, 0, 0, 65535, 108, 1, 33866, 977, 59, 1, 33870, 977, 0,
    0, 65535, 99, 19, 33895, 0, 0, 33937, 0, 0, 0, 0, 0, 0, 33948, 0,
    33967, 0, 0, 0, 33982, 0, 34018, 65535, 105, 17, 33915, 0, 0, 0, 0, 0,
    0, 0, 0, 0, 0, 0, 0, 0, 0, 0, 33930, 65535, 114, 1, 33919, 65535,
    99, 1, 33923, 65535, 59, 1, 33927, 978, 0, 0, 65535, 59, 1, 33934, 979, 0,
    0, 65535, 114, 1, 33941, 65535, 59, 1, 33945, 980, 0, 0, 65535, 97, 1, 33952,
    65535, 116, 1, 33956, 65535, 104, 1, 33960, 65535, 59, 1, 33964, 981, 0, 0, 65535,
    112, 1, 33971, 65535, 102, 1, 33975, 65535, 59, 1, 33979, 982, 0, 0, 65535, 99,
    3, 33988, 0, 33999, 65535, 114, 1, 33992, 65535, 59, 1, 33996, 983, 0, 0, 65535,
    114, 1, 34003, 65535, 99, 1, 34007, 65535, 121, 1, 34011, 65535, 59, 1, 34015, 984,
    0, 0, 65535, 107, 1, 34022, 65535, 99, 1, 34026, 65535, 121, 1, 34030, 65535, 59,
    1, 34034, 985, 0, 0, 65535, 97, 19, 34059, 0, 34144, 0, 0, 34194, 34205, 34228,
    0, 34243, 0, 0, 0, 0, 34258, 0, 0, 0, 34273, 65535, 112, 1, 34063, 65535,
    112, 1, 34067, 65535, 97, 1, 34071, 65535, 59, 60, 34134, 0, 0, 0, 0, 0,
    0, 0, 0, 0, 0, 0, 0, 0, 0, 0, 0, 0, 0, 0, 0, 0,
    0, 0, 0, 0, 0, 0, 0, 0, 0, 0, 0, 0, 0, 0, 0, 0,
    0, 0, 0, 0, 0, 0, 0, 0, 0, 0, 0, 0, 0, 0, 0, 0,
    0, 0, 0, 0, 0, 34137, 986, 0, 0, 65535, 59, 1, 34141, 987, 0, 0,
    65535, 101, 21, 34168, 0, 0, 0, 0, 0, 0, 0, 0, 0, 0, 0, 0,
    0, 0, 0, 0, 0, 0, 0, 34187, 65535, 100, 1, 34172, 65535, 105, 1, 34176,
    65535, 108, 1, 34180, 65535, 59, 1, 34184, 988, 0, 0, 65535, 59, 1, 34191, 989,
    0, 0, 65535, 114, 1, 34198, 65535, 59, 1, 34202, 990, 0, 0, 65535, 114, 1,
    34209, 65535, 101, 1, 34213, 65535, 101, 1, 34217, 65535, 110, 1, 34221, 65535, 59, 1,
    34225, 991, 0, 0, 65535, 99, 1, 34232, 65535, 121, 1, 34236, 65535, 59, 1, 34240,
    992, 0, 0, 65535, 99, 1, 34247, 65535, 121, 1, 34251, 65535, 59, 1, 34255, 993,
    0, 0, 65535, 112, 1, 34262, 65535, 102, 1, 34266, 65535, 59, 1, 34270, 994, 0,
    0, 65535, 99, 1, 34277, 65535, 114, 1, 34281, 65535, 59, 1, 34285, 995, 0, 0,
    65535, 65, 54, 34345, 34413, 0, 0, 34432, 0, 0, 34490, 0, 0, 0, 0, 0,
    0, 0, 0, 0, 0, 0, 0, 0, 0, 0, 0, 0, 0, 0, 0, 0,
    0, 0, 0, 34505, 35043, 35200, 35300, 35482, 36550, 36608, 36632, 0, 36747, 0, 36762, 36902,
    37007, 37291, 37806, 0, 37881, 38031, 38282, 38575, 38642, 65535, 97, 20, 34368, 0, 0, 0,
    0, 0, 0, 0, 0, 0, 0, 0, 0, 0, 0, 0, 0, 34383, 0, 34394,
    65535, 114, 1, 34372, 65535, 114, 1, 34376, 65535, 59, 1, 34380, 255, 0, 0, 65535,
    114, 1, 34387, 65535, 59, 1, 34391, 87, 0, 0, 65535, 97, 1, 34398, 65535, 105,
    1, 34402, 65535, 108, 1, 34406, 65535, 59, 1, 34410, 996, 0, 0, 65535, 97, 1,
    34417, 65535, 114, 1, 34421, 65535, 114, 1, 34425, 65535, 59, 1, 34429, 997, 0, 0,
    65535, 59, 45, 34480, 0, 0, 0, 0, 0, 0, 0, 0, 0, 0, 0, 0,
    0, 0, 0, 0, 0, 0, 0, 0, 0, 0, 0, 0, 0, 0, 0, 0,
    0, 0, 0, 0, 0, 0, 0, 0, 0, 0, 0, 0, 0, 0, 0, 34483,
    248, 0, 0, 65535, 59, 1, 34487, 998, 0, 0, 65535, 97, 1, 34494, 65535, 114,
    1, 34498, 65535, 59, 1, 34502, 999, 0, 0, 65535, 99, 18, 34526, 0, 34545, 0,
    34572, 0, 0, 0, 0, 0, 34591, 34610, 0, 34688, 34695, 34710, 0, 34909, 65535, 117,
    1, 34530, 65535, 116, 1, 34534, 65535, 101, 1, 34538, 65535, 59, 1, 34542, 1000, 0,
    0, 65535, 109, 1, 34549, 65535, 112, 1, 34553, 65535, 116, 1, 34557, 65535, 121, 1,
    34561, 65535, 118, 1, 34565, 65535, 59, 1, 34569, 1001, 0, 0, 65535, 114, 1, 34576,
    65535, 97, 1, 34580, 65535, 110, 1, 34584, 65535, 59, 1, 34588, 218, 0, 0, 65535,
    98, 1, 34595, 65535, 100, 1, 34599, 65535, 97, 1, 34603, 65535, 59, 1, 34607, 1002,
    0, 0, 65535, 103, 1, 34614, 65535, 59, 50, 34667, 0, 0, 0, 0, 0, 0,
    0, 0, 0, 0, 0, 0, 0, 0, 0, 0, 0, 0, 0, 0, 0, 0,
    0, 0, 0, 0, 0, 0, 0, 0, 0, 0, 0, 0, 0, 0, 0, 0,
    0, 0, 34670, 0, 0, 0, 0, 0, 0, 0, 34677, 223, 0, 0, 65535, 59,
    1, 34674, 1003, 0, 0, 65535, 101, 1, 34681, 65535, 59, 1, 34685, 223, 0, 0,
    65535, 59, 1, 34692, 1004, 0, 0, 65535, 117, 1, 34699, 65535, 111, 1, 34703, 1005,
    59, 1, 34707, 1005, 0, 0, 65535, 114, 1, 34714, 65535, 59, 58, 34775, 0, 0,
    0, 0, 0, 0, 0, 0, 0, 0, 0, 0, 0, 0, 0, 0, 0, 0,
    0, 0, 0, 0, 0, 0, 0, 0, 0, 0, 0, 0, 0, 0, 0, 0,
    0, 0, 0, 0, 34778, 0, 0, 0, 34839, 0, 34850, 0, 0, 0, 34861, 0,
    0, 0, 34872, 0, 0, 34883, 34898, 224, 0, 0, 65535, 59, 44, 34825, 0, 0,
    0, 0, 0, 0, 0, 0, 0, 0, 0, 0, 0, 0, 0, 0, 0, 0,
    0, 0, 0, 0, 0, 0, 0, 0, 0, 0, 0, 0, 0, 0, 0, 0,
    0, 0, 0, 0, 0, 0, 0, 0, 34828, 225, 0, 0, 65535, 115, 1, 34832,
    65535, 59, 1, 34836, 1006, 0, 0, 65535, 115, 1, 34843, 65535, 59, 1, 34847, 1007,
    0, 0, 65535, 107, 1, 34854, 65535, 59, 1, 34858, 936, 0, 0, 65535, 112, 1,
    34865, 65535, 59, 1, 34869, 1008, 0, 0, 65535, 108, 1, 34876, 65535, 59, 1, 34880,
    1009, 0, 0, 65535, 105, 1, 34887, 65535, 109, 1, 34891, 65535, 59, 1, 34895, 1010,
    0, 0, 65535, 108, 1, 34902, 65535, 59, 1, 34906, 1011, 0, 0, 65535, 59, 43,
    34955, 0, 0, 0, 0, 0, 0, 0, 0, 0, 0, 0, 0, 0, 0, 0,
    0, 0, 0, 0, 0, 0, 0, 0, 0, 0, 0, 0, 0, 0, 0, 0,
    0, 0, 0, 0, 0, 0, 34958, 0, 0, 0, 34973, 1012, 0, 0, 65535, 105,
    1, 34962, 65535, 108, 1, 34966, 65535, 59, 1, 34970, 1013, 0, 0, 65535, 59, 57,
    35033, 0, 0, 0, 0, 0, 0, 0, 0, 0, 0, 0, 0, 0, 0, 0,
    0, 0, 0, 0, 0, 0, 0, 0, 0, 0, 0, 0, 0, 0, 0, 0,
    0, 0, 0, 0, 0, 0, 0, 0, 0, 0, 0, 0, 0, 0, 0, 0,
    0, 0, 0, 0, 0, 0, 0, 0, 35036, 1014, 0, 0, 65535, 59, 1, 35040,
    1015, 0, 0, 65535, 97, 18, 35064, 35079, 0, 0, 0, 0, 0, 0, 0, 0,
    0, 0, 0, 0, 0, 0, 0, 35094, 65535, 114, 1, 35068, 65535, 114, 1, 35072,
    65535, 59, 1, 35076, 1016, 0, 0, 65535, 114, 1, 35083, 65535, 107, 1, 35087, 65535,
    59, 1, 35091, 1017, 0, 0, 65535, 97, 11, 35108, 0, 0, 0, 0, 0, 0,
    0, 0, 0, 35136, 65535, 99, 1, 35112, 65535, 101, 7, 35122, 0, 0, 0, 0,
    0, 35129, 65535, 59, 1, 35126, 1018, 0, 0, 65535, 59, 1, 35133, 1019, 0, 0,
    65535, 101, 15, 35154, 0, 0, 0, 0, 0, 0, 0, 0, 0, 0, 0, 0,
    0, 35161, 65535, 59, 1, 35158, 1020, 0, 0, 65535, 108, 1, 35165, 65535, 100, 18,
    35186, 0, 0, 0, 0, 0, 0, 0, 0, 0, 0, 0, 0, 0, 0, 0,
    0, 35193, 65535, 59, 1, 35190, 1021, 0, 0, 65535, 59, 1, 35197, 1022, 0, 0,
    65535, 97, 25, 35228, 0, 0, 0, 35247, 0, 0, 0, 0, 0, 0, 0, 0,
    0, 0, 0, 0, 0, 0, 0, 35282, 0, 0, 0, 35293, 65535, 114, 1, 35232,
    65535, 111, 1, 35236, 65535, 110, 1, 35240, 65535, 59, 1, 35244, 1023, 0, 0, 65535,
    100, 6, 35256, 0, 0, 0, 0, 35271, 65535, 105, 1, 35260, 65535, 108, 1, 35264,
    65535, 59, 1, 35268, 1024, 0, 0, 65535, 108, 1, 35275, 65535, 59, 1, 35279, 227,
    0, 0, 65535, 98, 1, 35286, 65535, 59, 1, 35290, 1018, 0, 0, 65535, 59, 1,
    35297, 1025, 0, 0, 65535, 99, 17, 35320, 0, 0, 0, 0, 0, 0, 0, 0,
    0, 0, 0, 0, 0, 35331, 35408, 35471, 65535, 97, 1, 35324, 65535, 59, 1, 35328,
    1026, 0, 0, 65535, 117, 1, 35335, 65535, 111, 1, 35339, 65535, 59, 56, 35398, 0,
    0, 0, 0, 0, 0, 0, 0, 0, 0, 0, 0, 0, 0, 0, 0, 0,
    0, 0, 0, 0, 0, 0, 0, 0, 0, 0, 0, 0, 0, 0, 0, 0,
    0, 0, 0, 0, 0, 0, 0, 0, 0, 0, 0, 0, 0, 0, 0, 0,
    0, 0, 0, 0, 0, 35401, 351, 0, 0, 65535, 59, 1, 35405, 617, 0, 0,
    65535, 100, 18, 35429, 0, 0, 0, 0, 0, 0, 0, 0, 0, 0, 0, 0,
    0, 0, 0, 0, 35448, 65535, 104, 1, 35433, 65535, 97, 1, 35437, 65535, 114, 1,
    35441, 65535, 59, 1, 35445, 1027, 0, 0, 65535, 115, 1, 35452, 65535, 104, 1, 35456,
    65535, 97, 1, 35460, 65535, 114, 1, 35464, 65535, 59, 1, 35468, 1028, 0, 0, 65535,
    104, 1, 35475, 65535, 59, 1, 35479, 1029, 0, 0, 65535, 59, 57, 35542, 0, 0,
    0, 0, 0, 0, 0, 0, 0, 0, 0, 0, 0, 0, 0, 0, 0, 0,
    0, 0, 0, 0, 0, 0, 0, 0, 0, 0, 0, 0, 0, 0, 0, 0,
    0, 0, 0, 0, 0, 0, 0, 0, 35545, 36034, 0, 0, 0, 0, 0, 0,
    0, 0, 0, 36041, 0, 36134, 1030, 0, 0, 65535, 116, 1, 35549, 65535, 97, 20,
    35572, 0, 0, 0, 0, 0, 0, 35671, 0, 0, 0, 35746, 0, 0, 0, 0,
    0, 35789, 0, 35991, 65535, 114, 1, 35576, 65535, 114, 1, 35580, 65535, 111, 1, 35584,
    65535, 119, 1, 35588, 65535, 59, 58, 35649, 0, 0, 0, 0, 0, 0, 0, 0,
    0, 0, 0, 0, 0, 0, 0, 0, 0, 0, 0, 0, 0, 0, 0, 0,
    0, 0, 0, 0, 0, 0, 0, 0, 0, 0, 0, 0, 0, 0, 0, 0,
    0, 0, 0, 0, 0, 0, 0, 0, 0, 0, 0, 0, 0, 0, 0, 0,
    35652, 224, 0, 0, 65535, 97, 1, 35656, 65535, 105, 1, 35660, 65535, 108, 1, 35664,
    65535, 59, 1, 35668, 1011, 0, 0, 65535, 97, 1, 35675, 65535, 114, 1, 35679, 65535,
    112, 1, 35683, 65535, 111, 1, 35687, 65535, 111, 1, 35691, 65535, 110, 1, 35695, 65535,
    100, 18, 35716, 0, 0, 0, 0, 0, 0, 0, 0, 0, 0, 0, 0, 0,
    0, 0, 0, 35735, 65535, 111, 1, 35720, 65535, 119, 1, 35724, 65535, 110, 1, 35728,
    65535, 59, 1, 35732, 103, 0, 0, 65535, 112, 1, 35739, 65535, 59, 1, 35743, 245,
    0, 0, 65535, 101, 1, 35750, 65535, 102, 1, 35754, 65535, 116, 1, 35758, 65535, 97,
    1, 35762, 65535, 114, 1, 35766, 65535, 114, 1, 35770, 65535, 111, 1, 35774, 65535, 119,
    1, 35778, 65535, 115, 1, 35782, 65535, 59, 1, 35786, 1031, 0, 0, 65535, 105, 1,
    35793, 65535, 103, 1, 35797, 65535, 104, 1, 35801, 65535, 116, 1, 35805, 65535, 97, 19,
    35827, 0, 0, 0, 0, 0, 0, 35913, 0, 0, 0, 0, 0, 0, 0, 0,
    0, 0, 35948, 65535, 114, 1, 35831, 65535, 114, 1, 35835, 65535, 111, 1, 35839, 65535,
];

/// Entry `i` of this part; 0 where the part has no such entry.
#[verifier::opaque]
pub open spec fn cell(i: int) -> u16 {
    if 0 <= i < 2560 {
        CELLS[i]
    } else {
        0
    }
}

/// Reads entry `i` of this part.
pub fn read_cell(i: usize) -> (entry: u16)
    ensures
        entry == cell(i as int),
{
    reveal(cell);
    if i < 2560 {
        CELLS[i]
    } else {
        0
    }
}

/// The entries of this part that the references `amp;`, `lt;` and `gt;` go through.
pub proof fn lemma_basic_reference_cells()
    ensures
        cell(1008) == 65535,
        cell(1009) == 65,
        cell(1010) == 54,
        cell(1062) == 38282,
{
    reveal(cell);
}

} // verus!
