//! Cells 28160 to 30719 of the trie table.
use vstd::prelude::*;

verus! {

/// The entries of this part, in order.
pub const CELLS: [u16; 2560] = [
    820, 0, 0, 65535, 59, 42, 28208, 0, 0, 0, 0, 0, 0, 0, 0, 0,
    0, 0, 0, 0, 0, 0, 0, 0, 0, 0, 0, 0, 0, 0, 0, 0,
    0, 0, 0, 0, 0, 0, 0, 0, 0, 0, 0, 0, 0, 0, 0, 28211,
    821, 0, 0, 65535, 111, 1, 28215, 65535, 116, 1, 28219, 65535, 59, 1, 28223, 822,
    0, 0, 65535, 59, 57, 28286, 0, 0, 0, 0, 0, 0, 0, 0, 0, 0,
    0, 0, 0, 0, 0, 0, 0, 0, 0, 0, 0, 0, 0, 0, 0, 0,
    0, 0, 0, 0, 0, 0, 0, 0, 0, 0, 0, 0, 0, 0, 0, 0,
    0, 0, 0, 28289, 0, 0, 28316, 0, 0, 0, 0, 0, 0, 28323, 823, 0,
    0, 65535, 110, 1, 28293, 65535, 116, 1, 28297, 65535, 101, 1, 28301, 65535, 114, 1,
    28305, 65535, 115, 1, 28309, 65535, 59, 1, 28313, 824, 0, 0, 65535, 59, 1, 28320,
    825, 0, 0, 65535, 59, 42, 28368, 0, 0, 0, 0, 0, 0, 0, 0, 0,
    0, 0, 0, 0, 0, 0, 0, 0, 0, 0, 0, 0, 0, 0, 0, 0,
    0, 0, 0, 0, 0, 0, 0, 0, 0, 0, 0, 0, 0, 0, 0, 28371,
    826, 0, 0, 65535, 111, 1, 28375, 65535, 116, 1, 28379, 65535, 59, 1, 28383, 827,
    0, 0, 65535, 97, 19, 28408, 0, 0, 0, 0, 0, 0, 0, 0, 0, 0,
    0, 0, 0, 0, 28423, 0, 0, 28519, 65535, 99, 1, 28412, 65535, 114, 1, 28416,
    65535, 59, 1, 28420, 828, 0, 0, 65535, 116, 1, 28427, 65535, 121, 1, 28431, 65535,
    59, 60, 28494, 0, 0, 0, 0, 0, 0, 0, 0, 0, 0, 0, 0, 0,
    0, 0, 0, 0, 0, 0, 0, 0, 0, 0, 0, 0, 0, 0, 0, 0,
    0, 0, 0, 0, 0, 0, 0, 0, 0, 0, 0, 0, 0, 0, 0, 0,
    0, 0, 0, 0, 0, 0, 0, 0, 0, 0, 28497, 0, 0, 28512, 829, 0,
    0, 65535, 101, 1, 28501, 65535, 116, 1, 28505, 65535, 59, 1, 28509, 829, 0, 0,
    65535, 59, 1, 28516, 829, 0, 0, 65535, 112, 1, 28523, 65535, 49, 11, 28537, 0,
    0, 0, 0, 0, 0, 0, 0, 0, 28556, 65535, 51, 2, 28542, 28549, 65535, 59,
    1, 28546, 830, 0, 0, 65535, 59, 1, 28553, 831, 0, 0, 832, 0, 0, 65535,
    103, 13, 28575, 0, 0, 0, 0, 0, 0, 0, 0, 0, 0, 0, 28582, 65535,
    59, 1, 28579, 833, 0, 0, 65535, 112, 1, 28586, 65535, 59, 1, 28590, 834, 0,
    0, 65535, 103, 10, 28606, 0, 0, 0, 0, 0, 0, 0, 0, 28621, 65535, 111,
    1, 28610, 65535, 110, 1, 28614, 65535, 59, 1, 28618, 835, 0, 0, 65535, 102, 1,
    28625, 65535, 59, 1, 28629, 836, 0, 0, 65535, 97, 19, 28654, 0, 0, 0, 0,
    0, 0, 0, 0, 0, 0, 28732, 0, 0, 0, 0, 0, 0, 28747, 65535, 114,
    1, 28658, 65535, 59, 57, 28718, 0, 0, 0, 0, 0, 0, 0, 0, 0, 0,
    0, 0, 0, 0, 0, 0, 0, 0, 0, 0, 0, 0, 0, 0, 0, 0,
    0, 0, 0, 0, 0, 0, 0, 0, 0, 0, 0, 0, 0, 0, 0, 0,
    0, 0, 0, 0, 0, 0, 0, 0, 0, 0, 0, 0, 0, 28721, 837, 0,
    0, 65535, 108, 1, 28725, 65535, 59, 1, 28729, 838, 0, 0, 65535, 117, 1, 28736,
    65535, 115, 1, 28740, 65535, 59, 1, 28744, 839, 0, 0, 65535, 105, 1, 28751, 65535,
    59, 60, 28814, 0, 0, 0, 0, 0, 0, 0, 0, 0, 0, 0, 0, 0,
    0, 0, 0, 0, 0, 0, 0, 0, 0, 0, 0, 0, 0, 0, 0, 0,
    0, 0, 0, 0, 0, 0, 0, 0, 0, 0, 0, 0, 0, 0, 0, 0,
    0, 0, 0, 28817, 0, 0, 0, 0, 0, 0, 0, 0, 0, 28832, 840, 0,
    0, 65535, 111, 1, 28821, 65535, 110, 1, 28825, 65535, 59, 1, 28829, 840, 0, 0,
    65535, 59, 1, 28836, 841, 0, 0, 65535, 99, 20, 28862, 0, 0, 0, 0, 0,
    0, 0, 0, 0, 0, 0, 0, 0, 0, 0, 28906, 0, 28979, 29052, 65535, 105,
    7, 28872, 0, 0, 0, 0, 0, 28887, 65535, 114, 1, 28876, 65535, 99, 1, 28880,
    65535, 59, 1, 28884, 812, 0, 0, 65535, 108, 1, 28891, 65535, 111, 1, 28895, 65535,
    110, 1, 28899, 65535, 59, 1, 28903, 814, 0, 0, 65535, 105, 4, 28913, 0, 0,
    28924, 65535, 109, 1, 28917, 65535, 59, 1, 28921, 129, 0, 0, 65535, 97, 1, 28928,
    65535, 110, 1, 28932, 65535, 116, 1, 28936, 65535, 103, 6, 28945, 0, 0, 0, 0,
    28960, 65535, 116, 1, 28949, 65535, 114, 1, 28953, 65535, 59, 1, 28957, 821, 0, 0,
    65535, 101, 1, 28964, 65535, 115, 1, 28968, 65535, 115, 1, 28972, 65535, 59, 1, 28976,
    826, 0, 0, 65535, 97, 9, 28991, 0, 0, 0, 29006, 0, 0, 0, 29021, 65535,
    108, 1, 28995, 65535, 115, 1, 28999, 65535, 59, 1, 29003, 842, 0, 0, 65535, 115,
    1, 29010, 65535, 116, 1, 29014, 65535, 59, 1, 29018, 843, 0, 0, 65535, 118, 1,
    29025, 65535, 59, 10, 29038, 0, 0, 0, 0, 0, 0, 0, 0, 29041, 53, 0,
    0, 65535, 68, 1, 29045, 65535, 59, 1, 29049, 844, 0, 0, 65535, 112, 1, 29056,
    65535, 97, 1, 29060, 65535, 114, 1, 29064, 65535, 115, 1, 29068, 65535, 108, 1, 29072,
    65535, 59, 1, 29076, 845, 0, 0, 65535, 68, 30, 29112, 0, 0, 0, 0, 0,
    0, 0, 0, 0, 0, 0, 0, 0, 0, 0, 0, 0, 0, 0, 0, 0,
    0, 0, 0, 0, 0, 0, 0, 29127, 65535, 111, 1, 29116, 65535, 116, 1, 29120,
    65535, 59, 1, 29124, 846, 0, 0, 65535, 114, 1, 29131, 65535, 114, 1, 29135, 65535,
    59, 1, 29139, 847, 0, 0, 65535, 99, 7, 29152, 29163, 0, 0, 0, 0, 29178,
    65535, 114, 1, 29156, 65535, 59, 1, 29160, 848, 0, 0, 65535, 111, 1, 29167, 65535,
    116, 1, 29171, 65535, 59, 1, 29175, 85, 0, 0, 65535, 109, 1, 29182, 65535, 59,
    1, 29186, 129, 0, 0, 65535, 97, 8, 29200, 0, 0, 0, 0, 0, 0, 29207,
    65535, 59, 1, 29204, 849, 0, 0, 850, 59, 1, 29211, 850, 0, 0, 65535, 109,
    6, 29223, 0, 0, 0, 0, 29234, 65535, 108, 1, 29227, 851, 59, 1, 29231, 851,
    0, 0, 65535, 111, 1, 29238, 65535, 59, 1, 29242, 852, 0, 0, 65535, 99, 14,
    29262, 0, 0, 0, 0, 0, 29273, 0, 0, 0, 0, 0, 0, 29288, 65535, 108,
    1, 29266, 65535, 59, 1, 29270, 853, 0, 0, 65535, 115, 1, 29277, 65535, 116, 1,
    29281, 65535, 59, 1, 29285, 135, 0, 0, 65535, 101, 11, 29302, 0, 0, 0, 0,
    0, 0, 0, 0, 0, 29337, 65535, 99, 1, 29306, 65535, 116, 1, 29310, 65535, 97,
    1, 29314, 65535, 116, 1, 29318, 65535, 105, 1, 29322, 65535, 111, 1, 29326, 65535, 110,
    1, 29330, 65535, 59, 1, 29334, 131, 0, 0, 65535, 110, 1, 29341, 65535, 101, 1,
    29345, 65535, 110, 1, 29349, 65535, 116, 1, 29353, 65535, 105, 1, 29357, 65535, 97, 1,
    29361, 65535, 108, 1, 29365, 65535, 101, 1, 29369, 65535, 59, 1, 29373, 136, 0, 0,
    65535, 97, 19, 29398, 0, 29449, 0, 29460, 29483, 0, 0, 29555, 29574, 0, 29593, 0,
    29657, 29672, 29791, 0, 29822, 30039, 65535, 108, 1, 29402, 65535, 108, 1, 29406, 65535, 105,
    1, 29410, 65535, 110, 1, 29414, 65535, 103, 1, 29418, 65535, 100, 1, 29422, 65535, 111,
    1, 29426, 65535, 116, 1, 29430, 65535, 115, 1, 29434, 65535, 101, 1, 29438, 65535, 113,
    1, 29442, 65535, 59, 1, 29446, 817, 0, 0, 65535, 121, 1, 29453, 65535, 59, 1,
    29457, 854, 0, 0, 65535, 109, 1, 29464, 65535, 97, 1, 29468, 65535, 108, 1, 29472,
    65535, 101, 1, 29476, 65535, 59, 1, 29480, 855, 0, 0, 65535, 105, 10, 29496, 0,
    0, 29515, 0, 0, 0, 0, 0, 29548, 65535, 108, 1, 29500, 65535, 105, 1, 29504,
    65535, 103, 1, 29508, 65535, 59, 1, 29512, 856, 0, 0, 65535, 105, 4, 29522, 0,
    0, 29533, 65535, 103, 1, 29526, 65535, 59, 1, 29530, 857, 0, 0, 65535, 105, 1,
    29537, 65535, 103, 1, 29541, 65535, 59, 1, 29545, 858, 0, 0, 65535, 59, 1, 29552,
    859, 0, 0, 65535, 108, 1, 29559, 65535, 105, 1, 29563, 65535, 103, 1, 29567, 65535,
    59, 1, 29571, 860, 0, 0, 65535, 108, 1, 29578, 65535, 105, 1, 29582, 65535, 103,
    1, 29586, 65535, 59, 1, 29590, 861, 0, 0, 65535, 97, 20, 29616, 0, 0, 0,
    0, 0, 0, 0, 0, 0, 0, 29627, 0, 0, 0, 0, 0, 0, 0, 29642,
    65535, 116, 1, 29620, 65535, 59, 1, 29624, 862, 0, 0, 65535, 105, 1, 29631, 65535,
    103, 1, 29635, 65535, 59, 1, 29639, 863, 0, 0, 65535, 110, 1, 29646, 65535, 115,
    1, 29650, 65535, 59, 1, 29654, 864, 0, 0, 65535, 111, 1, 29661, 65535, 102, 1,
    29665, 65535, 59, 1, 29669, 865, 0, 0, 65535, 112, 3, 29678, 0, 29689, 65535, 102,
    1, 29682, 65535, 59, 1, 29686, 866, 0, 0, 65535, 97, 11, 29703, 0, 0, 0,
    0, 0, 0, 0, 0, 0, 29718, 65535, 108, 1, 29707, 65535, 108, 1, 29711, 65535,
    59, 1, 29715, 142, 0, 0, 65535, 59, 60, 29781, 0, 0, 0, 0, 0, 0,
    0, 0, 0, 0, 0, 0, 0, 0, 0, 0, 0, 0, 0, 0, 0, 0,
    0, 0, 0, 0, 0, 0, 0, 0, 0, 0, 0, 0, 0, 0, 0, 0,
    0, 0, 0, 0, 0, 0, 0, 0, 0, 0, 0, 0, 0, 0, 0, 0,
    0, 0, 0, 0, 29784, 867, 0, 0, 65535, 59, 1, 29788, 868, 0, 0, 65535,
    97, 1, 29795, 65535, 114, 1, 29799, 65535, 116, 1, 29803, 65535, 105, 1, 29807, 65535,
    110, 1, 29811, 65535, 116, 1, 29815, 65535, 59, 1, 29819, 869, 0, 0, 65535, 97,
    15, 29840, 0, 0, 0, 0, 0, 0, 0, 0, 0, 0, 0, 0, 0, 30024,
    65535, 99, 17, 29860, 0, 0, 0, 0, 0, 0, 0, 0, 0, 0, 0, 0,
    0, 0, 0, 30013, 65535, 49, 7, 29870, 29922, 29942, 29971, 29982, 0, 30002, 65535, 50,
    7, 29880, 29887, 29894, 29901, 29908, 0, 29915, 870, 59, 1, 29884, 870, 0, 0, 65535,
    59, 1, 29891, 871, 0, 0, 872, 59, 1, 29898, 872, 0, 0, 65535, 59, 1,
    29905, 873, 0, 0, 65535, 59, 1, 29912, 874, 0, 0, 65535, 59, 1, 29919, 875,
    0, 0, 65535, 51, 3, 29928, 0, 29935, 65535, 59, 1, 29932, 876, 0, 0, 65535,
    59, 1, 29939, 877, 0, 0, 65535, 52, 5, 29950, 29957, 0, 0, 29964, 878, 59,
    1, 29954, 878, 0, 0, 65535, 59, 1, 29961, 879, 0, 0, 65535, 59, 1, 29968,
    880, 0, 0, 65535, 53, 1, 29975, 65535, 59, 1, 29979, 881, 0, 0, 65535, 54,
    3, 29988, 0, 29995, 65535, 59, 1, 29992, 882, 0, 0, 65535, 59, 1, 29999, 883,
    0, 0, 65535, 56, 1, 30006, 65535, 59, 1, 30010, 884, 0, 0, 65535, 108, 1,
    30017, 65535, 59, 1, 30021, 885, 0, 0, 65535, 119, 1, 30028, 65535, 110, 1, 30032,
    65535, 59, 1, 30036, 886, 0, 0, 65535, 99, 1, 30043, 65535, 114, 1, 30047, 65535,
    59, 1, 30051, 887, 0, 0, 65535, 69, 50, 30107, 0, 0, 0, 0, 0, 0,
    0, 0, 0, 0, 0, 0, 0, 0, 0, 0, 0, 0, 0, 0, 0, 0,
    0, 0, 0, 0, 0, 30170, 30276, 30299, 30341, 30356, 30776, 30787, 0, 30845, 30864, 0,
    30879, 0, 30954, 31238, 0, 0, 31253, 31272, 31367, 0, 31680, 65535, 59, 50, 30160, 0,
    0, 0, 0, 0, 0, 0, 0, 0, 0, 0, 0, 0, 0, 0, 0, 0,
    0, 0, 0, 0, 0, 0, 0, 0, 0, 0, 0, 0, 0, 0, 0, 0,
    0, 0, 0, 0, 0, 0, 0, 0, 0, 0, 0, 0, 0, 0, 0, 30163,
    158, 0, 0, 65535, 59, 1, 30167, 888, 0, 0, 65535, 99, 14, 30187, 0, 0,
    0, 0, 0, 0, 0, 0, 0, 30206, 0, 0, 30269, 65535, 117, 1, 30191, 65535,
    116, 1, 30195, 65535, 101, 1, 30199, 65535, 59, 1, 30203, 889, 0, 0, 65535, 109,
    1, 30210, 65535, 97, 1, 30214, 65535, 59, 42, 30259, 0, 0, 0, 0, 0, 0,
    0, 0, 0, 0, 0, 0, 0, 0, 0, 0, 0, 0, 0, 0, 0, 0,
    0, 0, 0, 0, 0, 0, 0, 0, 0, 0, 0, 0, 0, 0, 0, 0,
    0, 0, 30262, 890, 0, 0, 65535, 59, 1, 30266, 785, 0, 0, 65535, 59, 1,
    30273, 891, 0, 0, 65535, 114, 1, 30280, 65535, 101, 1, 30284, 65535, 118, 1, 30288,
    65535, 101, 1, 30292, 65535, 59, 1, 30296, 892, 0, 0, 65535, 105, 17, 30319, 0,
    0, 0, 0, 0, 0, 0, 0, 0, 0, 0, 0, 0, 0, 0, 30334, 65535,
    114, 1, 30323, 65535, 99, 1, 30327, 65535, 59, 1, 30331, 893, 0, 0, 65535, 59,
    1, 30338, 894, 0, 0, 65535, 111, 1, 30345, 65535, 116, 1, 30349, 65535, 59, 1,
    30353, 895, 0, 0, 65535, 59, 57, 30416, 0, 0, 0, 0, 0, 0, 0, 0,
    0, 0, 0, 0, 0, 0, 0, 0, 0, 0, 0, 0, 0, 0, 0, 0,
    0, 0, 0, 0, 0, 0, 0, 0, 0, 0, 0, 0, 0, 0, 0, 0,
    0, 0, 0, 0, 0, 0, 0, 0, 30419, 0, 0, 0, 0, 30426, 0, 30519,
    156, 0, 0, 65535, 59, 1, 30423, 157, 0, 0, 65535, 59, 57, 30486, 0, 0,
    0, 0, 0, 0, 0, 0, 0, 0, 0, 0, 0, 0, 0, 0, 0, 0,
    0, 0, 0, 0, 0, 0, 0, 0, 0, 0, 0, 0, 0, 0, 0, 0,
    0, 0, 0, 0, 0, 0, 0, 0, 0, 0, 0, 0, 0, 0, 0, 0,
    0, 0, 0, 30489, 0, 30496, 156, 0, 0, 65535, 59, 1, 30493, 158, 0, 0,
    65535, 108, 1, 30500, 65535, 97, 1, 30504, 65535, 110, 1, 30508, 65535, 116, 1, 30512,
    65535, 59, 1, 30516, 161, 0, 0, 65535, 59, 50, 30572, 0, 0, 0, 0, 0,
    0, 0, 0, 0, 0, 0, 0, 0, 0, 0, 0, 0, 0, 0, 0, 0,
    0, 0, 0, 0, 0, 0, 0, 0, 0, 0, 0, 0, 0, 0, 0, 0,
    0, 0, 30575, 30586, 0, 0, 0, 0, 0, 0, 0, 30716, 161, 0, 0, 65535,
    99, 1, 30579, 65535, 59, 1, 30583, 896, 0, 0, 65535, 111, 1, 30590, 65535, 116,
    1, 30594, 65535, 59, 53, 30650, 0, 0, 0, 0, 0, 0, 0, 0, 0, 0,
    0, 0, 0, 0, 0, 0, 0, 0, 0, 0, 0, 0, 0, 0, 0, 0,
    0, 0, 0, 0, 0, 0, 0, 0, 0, 0, 0, 0, 0, 0, 0, 0,
    0, 0, 0, 0, 0, 0, 0, 0, 0, 30653, 897, 0, 0, 65535, 59, 50,
    30706, 0, 0, 0, 0, 0, 0, 0, 0, 0, 0, 0, 0, 0, 0, 0,
    0, 0, 0, 0, 0, 0, 0, 0, 0, 0, 0, 0, 0, 0, 0, 0,
    0, 0, 0, 0, 0, 0, 0, 0, 0, 0, 0, 0, 0, 0, 0, 0,
    0, 30709, 898, 0, 0, 65535, 59, 1, 30713, 899, 0, 0, 65535, 59, 43, 30762,
];

/// Entry `i` of this part; 0 where the part has no such entry.
#[verifier::opaque]
pub open spec fn cell(i: int) -> u16 {
    if 0 <= i < 2560 {
        CELLS[i]
    } else {
        0
    }
}

/// Reads entry `i` of this part.
pub fn read_cell(i: usize) -> (entry: u16)
    ensures
        entry == cell(i as int),
{
    reveal(cell);
    if i < 2560 {
        CELLS[i]
    } else {
        0
    }
}

/// The entries of this part that the references `amp;`, `lt;` and `gt;` go through.
pub proof fn lemma_basic_reference_cells()
    ensures
        cell(1894) == 65535,
        cell(1895) == 69,
        cell(1896) == 50,
        cell(1944) == 31367,
{
    reveal(cell);
}

} // verus!
