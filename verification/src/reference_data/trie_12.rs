//! Cells 30720 to 33279 of the trie table.
use vstd::prelude::*;

verus! {

/// The entries of this part, in order.
pub const CELLS: [u16; 2560] = [
    0, 0, 0, 0, 0, 0, 0, 0, 0, 0, 0, 0, 0, 0, 0, 0,
    0, 0, 0, 0, 0, 0, 0, 0, 0, 0, 0, 0, 0, 0, 0, 0,
    0, 0, 0, 0, 0, 0, 0, 0, 0, 30765, 900, 0, 0, 65535, 115, 1,
    30769, 65535, 59, 1, 30773, 901, 0, 0, 65535, 114, 1, 30780, 65535, 59, 1, 30784,
    902, 0, 0, 65535, 59, 45, 30835, 0, 0, 0, 0, 0, 0, 0, 0, 0,
    0, 0, 0, 0, 0, 0, 0, 0, 0, 0, 0, 0, 0, 0, 0, 0,
    0, 0, 0, 0, 0, 0, 0, 0, 0, 0, 0, 0, 0, 0, 0, 0,
    0, 0, 30838, 164, 0, 0, 65535, 59, 1, 30842, 154, 0, 0, 65535, 109, 1,
    30849, 65535, 101, 1, 30853, 65535, 108, 1, 30857, 65535, 59, 1, 30861, 903, 0, 0,
    65535, 99, 1, 30868, 65535, 121, 1, 30872, 65535, 59, 1, 30876, 904, 0, 0, 65535,
    59, 48, 30930, 0, 0, 0, 0, 0, 0, 0, 0, 0, 30933, 0, 0, 0,
    0, 0, 0, 0, 0, 0, 0, 0, 0, 0, 0, 0, 0, 0, 0, 0,
    0, 0, 0, 0, 0, 0, 0, 0, 30940, 0, 0, 0, 0, 0, 0, 0,
    0, 30947, 160, 0, 0, 65535, 59, 1, 30937, 905, 0, 0, 65535, 59, 1, 30944,
    906, 0, 0, 65535, 59, 1, 30951, 907, 0, 0, 65535, 69, 47, 31004, 0, 0,
    0, 0, 0, 0, 0, 0, 0, 0, 0, 0, 0, 0, 0, 0, 0, 0,
    0, 0, 0, 0, 0, 0, 0, 0, 0, 31011, 0, 0, 0, 31094, 0, 0,
    0, 0, 0, 0, 0, 0, 0, 0, 0, 0, 0, 31223, 65535, 59, 1, 31008,
    908, 0, 0, 65535, 112, 1, 31015, 65535, 59, 54, 31072, 0, 0, 0, 0, 0,
    0, 0, 0, 0, 0, 0, 0, 0, 0, 0, 0, 0, 0, 0, 0, 0,
    0, 0, 0, 0, 0, 0, 0, 0, 0, 0, 0, 0, 0, 0, 0, 0,
    0, 0, 0, 0, 0, 0, 0, 0, 0, 0, 0, 0, 0, 0, 0, 31075,
    909, 0, 0, 65535, 114, 1, 31079, 65535, 111, 1, 31083, 65535, 120, 1, 31087, 65535,
    59, 1, 31091, 909, 0, 0, 65535, 59, 55, 31152, 0, 0, 0, 0, 0, 0,
    0, 0, 0, 0, 0, 0, 0, 0, 0, 0, 0, 0, 0, 0, 0, 0,
    0, 0, 0, 0, 0, 0, 0, 0, 0, 0, 0, 0, 0, 0, 0, 0,
    0, 0, 0, 0, 0, 0, 0, 0, 0, 0, 0, 0, 0, 0, 0, 31155,
    910, 0, 0, 65535, 59, 55, 31213, 0, 0, 0, 0, 0, 0, 0, 0, 0,
    0, 0, 0, 0, 0, 0, 0, 0, 0, 0, 0, 0, 0, 0, 0, 0,
    0, 0, 0, 0, 0, 0, 0, 0, 0, 0, 0, 0, 0, 0, 0, 0,
    0, 0, 0, 0, 0, 0, 0, 0, 0, 0, 0, 0, 31216, 910, 0, 0,
    65535, 59, 1, 31220, 908, 0, 0, 65535, 105, 1, 31227, 65535, 109, 1, 31231, 65535,
    59, 1, 31235, 911, 0, 0, 65535, 112, 1, 31242, 65535, 102, 1, 31246, 65535, 59,
    1, 31250, 912, 0, 0, 65535, 97, 1, 31257, 65535, 118, 1, 31261, 65535, 101, 1,
    31265, 65535, 59, 1, 31269, 78, 0, 0, 65535, 99, 7, 31282, 0, 0, 0, 0,
    0, 31293, 65535, 114, 1, 31286, 65535, 59, 1, 31290, 913, 0, 0, 65535, 109, 1,
    31297, 65535, 59, 50, 31350, 0, 0, 0, 0, 0, 0, 0, 0, 0, 0, 0,
    0, 0, 0, 0, 0, 0, 0, 0, 0, 0, 0, 0, 0, 0, 0, 0,
    0, 0, 0, 0, 0, 0, 0, 0, 0, 0, 0, 0, 0, 0, 31353, 0,
    0, 0, 0, 0, 0, 31360, 162, 0, 0, 65535, 59, 1, 31357, 914, 0, 0,
    65535, 59, 1, 31364, 915, 0, 0, 145, 59, 56, 31426, 0, 0, 0, 0, 0,
    0, 0, 0, 0, 0, 0, 0, 0, 0, 0, 0, 0, 0, 0, 0, 0,
    0, 0, 0, 0, 0, 0, 0, 0, 0, 0, 0, 0, 0, 0, 0, 0,
    0, 0, 31429, 31457, 0, 0, 0, 0, 0, 0, 0, 31472, 0, 0, 0, 0,
    31491, 31514, 145, 0, 0, 65535, 99, 7, 31439, 0, 0, 0, 0, 0, 31446, 65535,
    59, 1, 31443, 916, 0, 0, 65535, 114, 1, 31450, 65535, 59, 1, 31454, 917, 0,
    0, 65535, 111, 1, 31461, 65535, 116, 1, 31465, 65535, 59, 1, 31469, 918, 0, 0,
    65535, 80, 1, 31476, 65535, 97, 1, 31480, 65535, 114, 1, 31484, 65535, 59, 1, 31488,
    919, 0, 0, 65535, 117, 1, 31495, 65535, 101, 1, 31499, 65535, 115, 1, 31503, 65535,
    116, 1, 31507, 65535, 59, 1, 31511, 920, 0, 0, 65535, 97, 19, 31536, 0, 0,
    31576, 31591, 0, 0, 0, 0, 0, 0, 31646, 0, 0, 0, 0, 0, 0, 31665,
    65535, 112, 3, 31542, 0, 31565, 65535, 112, 1, 31546, 65535, 114, 1, 31550, 65535, 111,
    1, 31554, 65535, 120, 1, 31558, 65535, 59, 1, 31562, 891, 0, 0, 65535, 114, 1,
    31569, 65535, 59, 1, 31573, 921, 0, 0, 65535, 111, 1, 31580, 65535, 116, 1, 31584,
    65535, 59, 1, 31588, 918, 0, 0, 65535, 113, 1, 31595, 65535, 108, 6, 31604, 0,
    0, 0, 0, 31623, 65535, 101, 1, 31608, 65535, 115, 1, 31612, 65535, 115, 1, 31616,
    65535, 59, 1, 31620, 157, 0, 0, 65535, 108, 1, 31627, 65535, 101, 1, 31631, 65535,
    115, 1, 31635, 65535, 115, 1, 31639, 65535, 59, 1, 31643, 888, 0, 0, 65535, 101,
    1, 31650, 65535, 115, 1, 31654, 65535, 115, 1, 31658, 65535, 59, 1, 31662, 160, 0,
    0, 65535, 105, 1, 31669, 65535, 109, 1, 31673, 65535, 59, 1, 31677, 162, 0, 0,
    65535, 101, 10, 31693, 0, 0, 0, 0, 0, 0, 0, 0, 31724, 65535, 114, 1,
    31697, 65535, 116, 1, 31701, 65535, 110, 1, 31705, 65535, 101, 1, 31709, 65535, 113, 1,
    31713, 65535, 113, 1, 31717, 65535, 59, 1, 31721, 922, 0, 0, 65535, 69, 1, 31728,
    65535, 59, 1, 31732, 922, 0, 0, 65535, 65, 57, 31795, 0, 0, 0, 0, 0,
    0, 0, 0, 0, 0, 0, 0, 0, 0, 0, 0, 0, 0, 0, 0, 0,
    0, 0, 0, 0, 0, 0, 0, 0, 0, 0, 31810, 31994, 32009, 0, 32028, 32179,
    0, 0, 0, 0, 32190, 0, 0, 0, 32262, 0, 0, 0, 32443, 0, 0, 0,
    0, 0, 32513, 65535, 114, 1, 31799, 65535, 114, 1, 31803, 65535, 59, 1, 31807, 88,
    0, 0, 65535, 105, 10, 31823, 0, 0, 31842, 31853, 0, 0, 0, 0, 31872, 65535,
    114, 1, 31827, 65535, 115, 1, 31831, 65535, 112, 1, 31835, 65535, 59, 1, 31839, 526,
    0, 0, 65535, 102, 1, 31846, 65535, 59, 1, 31850, 870, 0, 0, 65535, 105, 1,
    31857, 65535, 108, 1, 31861, 65535, 116, 1, 31865, 65535, 59, 1, 31869, 170, 0, 0,
    65535, 100, 15, 31890, 0, 0, 0, 0, 0, 0, 0, 0, 0, 0, 0, 0,
    0, 31905, 65535, 99, 1, 31894, 65535, 121, 1, 31898, 65535, 59, 1, 31902, 923, 0,
    0, 65535, 59, 61, 31969, 0, 0, 0, 0, 0, 0, 0, 0, 0, 0, 0,
    0, 0, 0, 0, 0, 0, 0, 0, 0, 0, 0, 0, 0, 0, 0, 0,
    0, 0, 0, 0, 0, 0, 0, 0, 0, 0, 0, 0, 31972, 0, 0, 0,
    0, 0, 0, 0, 0, 0, 0, 0, 0, 0, 0, 0, 0, 0, 0, 0,
    31987, 233, 0, 0, 65535, 105, 1, 31976, 65535, 114, 1, 31980, 65535, 59, 1, 31984,
    924, 0, 0, 65535, 59, 1, 31991, 925, 0, 0, 65535, 97, 1, 31998, 65535, 114,
    1, 32002, 65535, 59, 1, 32006, 926, 0, 0, 65535, 105, 1, 32013, 65535, 114, 1,
    32017, 65535, 99, 1, 32021, 65535, 59, 1, 32025, 927, 0, 0, 65535, 97, 18, 32049,
    0, 0, 0, 0, 0, 0, 0, 0, 0, 0, 32141, 0, 0, 0, 0, 0,
    32160, 65535, 114, 1, 32053, 65535, 116, 1, 32057, 65535, 115, 1, 32061, 65535, 59, 59,
    32123, 0, 0, 0, 0, 0, 0, 0, 0, 0, 0, 0, 0, 0, 0, 0,
    0, 0, 0, 0, 0, 0, 0, 0, 0, 0, 0, 0, 0, 0, 0, 0,
    0, 0, 0, 0, 0, 0, 0, 0, 0, 0, 0, 0, 0, 0, 0, 0,
    0, 0, 0, 0, 0, 0, 0, 0, 0, 0, 32126, 928, 0, 0, 65535, 105,
    1, 32130, 65535, 116, 1, 32134, 65535, 59, 1, 32138, 928, 0, 0, 65535, 108, 1,
    32145, 65535, 105, 1, 32149, 65535, 112, 1, 32153, 65535, 59, 1, 32157, 929, 0, 0,
    65535, 99, 1, 32164, 65535, 111, 1, 32168, 65535, 110, 1, 32172, 65535, 59, 1, 32176,
    930, 0, 0, 65535, 114, 1, 32183, 65535, 59, 1, 32187, 931, 0, 0, 65535, 115,
    1, 32194, 65535, 101, 19, 32216, 0, 0, 0, 0, 0, 0, 0, 0, 0, 0,
    0, 0, 0, 0, 0, 0, 0, 32239, 65535, 97, 1, 32220, 65535, 114, 1, 32224,
    65535, 111, 1, 32228, 65535, 119, 1, 32232, 65535, 59, 1, 32236, 932, 0, 0, 65535,
    97, 1, 32243, 65535, 114, 1, 32247, 65535, 111, 1, 32251, 65535, 119, 1, 32255, 65535,
    59, 1, 32259, 933, 0, 0, 65535, 97, 18, 32283, 0, 0, 0, 0, 0, 0,
    0, 0, 0, 0, 0, 32298, 0, 32317, 32413, 0, 32424, 65535, 114, 1, 32287, 65535,
    114, 1, 32291, 65535, 59, 1, 32295, 934, 0, 0, 65535, 116, 1, 32302, 65535, 104,
    1, 32306, 65535, 116, 1, 32310, 65535, 59, 1, 32314, 935, 0, 0, 65535, 107, 1,
    32321, 65535, 108, 7, 32331, 0, 0, 0, 0, 0, 32370, 65535, 101, 1, 32335, 65535,
    102, 1, 32339, 65535, 116, 1, 32343, 65535, 97, 1, 32347, 65535, 114, 1, 32351, 65535,
    114, 1, 32355, 65535, 111, 1, 32359, 65535, 119, 1, 32363, 65535, 59, 1, 32367, 936,
    0, 0, 65535, 105, 1, 32374, 65535, 103, 1, 32378, 65535, 104, 1, 32382, 65535, 116,
    1, 32386, 65535, 97, 1, 32390, 65535, 114, 1, 32394, 65535, 114, 1, 32398, 65535, 111,
    1, 32402, 65535, 119, 1, 32406, 65535, 59, 1, 32410, 937, 0, 0, 65535, 102, 1,
    32417, 65535, 59, 1, 32421, 938, 0, 0, 65535, 98, 1, 32428, 65535, 97, 1, 32432,
    65535, 114, 1, 32436, 65535, 59, 1, 32440, 939, 0, 0, 65535, 99, 18, 32464, 0,
    0, 0, 0, 0, 0, 0, 0, 32475, 0, 0, 0, 0, 0, 0, 0, 32494,
    65535, 114, 1, 32468, 65535, 59, 1, 32472, 940, 0, 0, 65535, 97, 1, 32479, 65535,
    115, 1, 32483, 65535, 104, 1, 32487, 65535, 59, 1, 32491, 926, 0, 0, 65535, 114,
    1, 32498, 65535, 111, 1, 32502, 65535, 107, 1, 32506, 65535, 59, 1, 32510, 941, 0,
    0, 65535, 98, 15, 32531, 0, 0, 0, 0, 0, 0, 0, 0, 0, 0, 0,
    0, 0, 32550, 65535, 117, 1, 32535, 65535, 108, 1, 32539, 65535, 108, 1, 32543, 65535,
    59, 1, 32547, 942, 0, 0, 65535, 104, 1, 32554, 65535, 101, 1, 32558, 65535, 110,
    1, 32562, 65535, 59, 1, 32566, 773, 0, 0, 65535, 97, 21, 32593, 0, 32616, 0,
    32707, 32758, 32788, 0, 32811, 32939, 0, 0, 32958, 33106, 33465, 33534, 33553, 0, 33576, 33769,
    33841, 65535, 99, 1, 32597, 65535, 117, 1, 32601, 65535, 116, 1, 32605, 65535, 101, 1,
    32609, 943, 59, 1, 32613, 943, 0, 0, 65535, 59, 63, 32682, 0, 0, 0, 0,
    0, 0, 0, 0, 0, 0, 0, 0, 0, 0, 0, 0, 0, 0, 0, 0,
    0, 0, 0, 0, 0, 0, 0, 0, 0, 0, 0, 0, 0, 0, 0, 0,
    0, 0, 0, 0, 0, 0, 0, 0, 0, 32685, 0, 0, 0, 0, 0, 0,
    0, 0, 0, 0, 0, 0, 0, 0, 0, 32700, 189, 0, 0, 65535, 114, 1,
    32689, 65535, 99, 1, 32693, 944, 59, 1, 32697, 944, 0, 0, 65535, 59, 1, 32704,
    945, 0, 0, 65535, 99, 22, 32732, 0, 0, 0, 0, 0, 0, 0, 0, 0,
    0, 0, 0, 0, 0, 0, 0, 0, 0, 0, 0, 32743, 65535, 121, 1, 32736,
    65535, 59, 1, 32740, 946, 0, 0, 65535, 99, 1, 32747, 65535, 108, 1, 32751, 947,
    59, 1, 32755, 947, 0, 0, 65535, 102, 13, 32774, 0, 0, 0, 0, 0, 0,
    0, 0, 0, 0, 0, 32781, 65535, 59, 1, 32778, 88, 0, 0, 65535, 59, 1,
    32785, 948, 0, 0, 65535, 114, 1, 32792, 65535, 97, 1, 32796, 65535, 118, 1, 32800,
    65535, 101, 1, 32804, 949, 59, 1, 32808, 949, 0, 0, 65535, 59, 53, 32867, 0,
    0, 0, 0, 0, 0, 0, 0, 0, 0, 0, 0, 0, 0, 0, 0, 0,
    0, 0, 0, 0, 0, 0, 0, 0, 0, 0, 0, 0, 0, 0, 0, 0,
    0, 0, 0, 0, 0, 0, 0, 0, 0, 0, 0, 0, 32870, 0, 0, 0,
    0, 32905, 32924, 185, 0, 0, 65535, 105, 6, 32879, 0, 0, 0, 0, 32894, 65535,
    110, 1, 32883, 65535, 116, 1, 32887, 65535, 59, 1, 32891, 950, 0, 0, 65535, 116,
    1, 32898, 65535, 59, 1, 32902, 951, 0, 0, 65535, 102, 1, 32909, 65535, 105, 1,
    32913, 65535, 110, 1, 32917, 65535, 59, 1, 32921, 952, 0, 0, 65535, 116, 1, 32928,
    65535, 97, 1, 32932, 65535, 59, 1, 32936, 953, 0, 0, 65535, 108, 1, 32943, 65535,
    105, 1, 32947, 65535, 103, 1, 32951, 65535, 59, 1, 32955, 954, 0, 0, 65535, 97,
    16, 32977, 0, 0, 0, 0, 0, 0, 0, 0, 0, 0, 0, 0, 0, 33080,
    33091, 65535, 99, 18, 32998, 0, 0, 0, 33009, 0, 0, 0, 0, 0, 0, 0,
    0, 0, 0, 0, 0, 33069, 65535, 114, 1, 33002, 65535, 59, 1, 33006, 955, 0,
    0, 65535, 101, 12, 33024, 0, 0, 0, 0, 0, 0, 33031, 0, 0, 0, 33050,
    65535, 59, 1, 33028, 182, 0, 0, 65535, 105, 1, 33035, 65535, 110, 1, 33039, 65535,
    101, 1, 33043, 65535, 59, 1, 33047, 194, 0, 0, 65535, 97, 1, 33054, 65535, 114,
    1, 33058, 65535, 116, 1, 33062, 65535, 59, 1, 33066, 182, 0, 0, 65535, 104, 1,
    33073, 65535, 59, 1, 33077, 956, 0, 0, 65535, 102, 1, 33084, 65535, 59, 1, 33088,
    957, 0, 0, 65535, 101, 1, 33095, 65535, 100, 1, 33099, 65535, 59, 1, 33103, 958,
    0, 0, 65535, 59, 58, 33167, 0, 0, 0, 0, 0, 0, 0, 0, 0, 0,
    0, 0, 0, 0, 0, 0, 0, 0, 0, 0, 0, 0, 0, 0, 0, 0,
    0, 0, 0, 0, 0, 0, 0, 0, 0, 0, 0, 0, 0, 33170, 0, 0,
    33189, 0, 0, 0, 0, 0, 0, 0, 0, 33276, 0, 0, 0, 0, 33295, 121,
    0, 0, 65535, 97, 1, 33174, 65535, 114, 1, 33178, 65535, 101, 1, 33182, 65535, 59,
    1, 33186, 959, 0, 0, 65535, 105, 1, 33193, 65535, 110, 1, 33197, 65535, 59, 58,
    33258, 0, 0, 0, 0, 0, 0, 0, 0, 0, 0, 0, 0, 0, 0, 0,
    0, 0, 0, 0, 0, 0, 0, 0, 0, 0, 0, 0, 0, 0, 0, 0,
    0, 0, 0, 0, 0, 0, 0, 0, 0, 0, 0, 0, 0, 0, 0, 0,
    0, 0, 0, 0, 0, 0, 0, 0, 0, 33261, 960, 0, 0, 65535, 105, 1,
    33265, 65535, 101, 1, 33269, 65535, 59, 1, 33273, 961, 0, 0, 65535, 100, 1, 33280,
];

/// Entry `i` of this part; 0 where the part has no such entry.
#[verifier::opaque]
pub open spec fn cell(i: int) -> u16 {
    if 0 <= i < 2560 {
        CELLS[i]
    } else {
        0
    }
}

/// Reads entry `i` of this part.
pub fn read_cell(i: usize) -> (entry: u16)
    ensures
        entry == cell(i as int),
{
    reveal(cell);
    if i < 2560 {
        CELLS[i]
    } else {
        0
    }
}

/// The entries of this part that the references `amp;`, `lt;` and `gt;` go through.
pub proof fn lemma_basic_reference_cells()
    ensures
        cell(647) == 145,
        cell(648) == 59,
        cell(649) == 56,
        cell(650) == 31426,
        cell(706) == 145,
{
    reveal(cell);
}

} // verus!
