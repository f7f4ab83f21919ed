//! Cells 51200 to 53759 of the trie table.
use vstd::prelude::*;

verus! {

/// The entries of this part, in order.
pub const CELLS: [u16; 2560] = [
    65535, 110, 1, 51204, 65535, 116, 1, 51208, 65535, 59, 1, 51212, 1330, 0, 0, 65535,
    105, 1, 51219, 65535, 109, 1, 51223, 65535, 59, 1, 51227, 455, 0, 0, 65535, 59,
    1, 51234, 1331, 0, 0, 65535, 111, 1, 51241, 65535, 116, 1, 51245, 65535, 59, 43,
    51291, 0, 0, 0, 0, 0, 0, 0, 0, 0, 0, 0, 0, 0, 0, 0,
    0, 0, 0, 0, 0, 0, 0, 0, 0, 0, 0, 0, 0, 0, 0, 0,
    0, 0, 0, 0, 0, 0, 0, 51294, 0, 0, 51301, 1332, 0, 0, 65535, 59,
    1, 51298, 797, 0, 0, 65535, 59, 1, 51305, 1333, 0, 0, 65535, 65, 56, 51367,
    0, 0, 0, 0, 0, 0, 0, 0, 0, 0, 0, 0, 0, 0, 0, 0,
    0, 0, 0, 0, 0, 0, 0, 0, 0, 0, 0, 0, 0, 0, 0, 51382,
    0, 51481, 0, 0, 0, 0, 0, 0, 0, 0, 0, 51492, 0, 0, 0, 0,
    0, 51503, 51522, 0, 0, 0, 51561, 65535, 114, 1, 51371, 65535, 114, 1, 51375, 65535,
    59, 1, 51379, 1334, 0, 0, 65535, 114, 1, 51386, 65535, 104, 11, 51400, 0, 0,
    0, 0, 0, 0, 0, 0, 0, 51411, 65535, 107, 1, 51404, 65535, 59, 1, 51408,
    932, 0, 0, 65535, 59, 53, 51467, 0, 0, 0, 0, 0, 0, 0, 0, 0,
    0, 0, 0, 0, 0, 0, 0, 0, 0, 0, 0, 0, 0, 0, 0, 0,
    0, 0, 0, 0, 0, 0, 0, 0, 0, 0, 0, 0, 0, 0, 0, 0,
    0, 0, 0, 0, 0, 0, 0, 0, 0, 0, 51470, 262, 0, 0, 65535, 119,
    1, 51474, 65535, 59, 1, 51478, 262, 0, 0, 65535, 116, 1, 51485, 1335, 59, 1,
    51489, 1335, 0, 0, 65535, 105, 1, 51496, 65535, 59, 1, 51500, 1336, 0, 0, 65535,
    119, 1, 51507, 65535, 97, 1, 51511, 65535, 114, 1, 51515, 65535, 59, 1, 51519, 1337,
    0, 0, 65535, 109, 1, 51526, 65535, 105, 6, 51535, 0, 0, 0, 0, 51554, 65535,
    110, 1, 51539, 65535, 117, 1, 51543, 65535, 115, 1, 51547, 65535, 59, 1, 51551, 19,
    0, 0, 65535, 59, 1, 51558, 19, 0, 0, 65535, 116, 1, 51565, 65535, 59, 1,
    51569, 1338, 0, 0, 65535, 114, 1, 51576, 65535, 59, 53, 51632, 0, 0, 0, 0,
    0, 0, 0, 0, 0, 0, 0, 0, 0, 0, 0, 0, 0, 0, 0, 0,
    0, 0, 0, 0, 0, 0, 0, 0, 0, 0, 0, 0, 0, 0, 0, 0,
    0, 0, 0, 0, 0, 0, 0, 0, 0, 0, 0, 0, 0, 0, 0, 51635,
    1339, 0, 0, 65535, 119, 1, 51639, 65535, 110, 1, 51643, 65535, 59, 1, 51647, 886,
    0, 0, 65535, 97, 25, 51678, 0, 51693, 0, 0, 0, 0, 0, 0, 0, 0,
    0, 0, 0, 51736, 0, 0, 0, 0, 0, 0, 0, 0, 0, 51801, 65535, 114,
    1, 51682, 65535, 112, 1, 51686, 65535, 59, 1, 51690, 1340, 0, 0, 65535, 104, 18,
    51714, 0, 0, 0, 0, 0, 0, 0, 0, 0, 0, 0, 0, 0, 0, 0,
    0, 51729, 65535, 99, 1, 51718, 65535, 121, 1, 51722, 65535, 59, 1, 51726, 1341, 0,
    0, 65535, 59, 1, 51733, 1342, 0, 0, 65535, 114, 1, 51740, 65535, 116, 1, 51744,
    65535, 109, 4, 51751, 0, 0, 51766, 65535, 105, 1, 51755, 65535, 100, 1, 51759, 65535,
    59, 1, 51763, 522, 0, 0, 65535, 97, 1, 51770, 65535, 114, 1, 51774, 65535, 97,
    1, 51778, 65535, 108, 1, 51782, 65535, 108, 1, 51786, 65535, 101, 1, 51790, 65535, 108,
    1, 51794, 65535, 59, 1, 51798, 96, 0, 0, 1343, 59, 1, 51805, 1343, 0, 0,
    65535, 103, 7, 51818, 0, 0, 0, 0, 0, 51906, 65535, 109, 1, 51822, 65535, 97,
    1, 51826, 65535, 59, 60, 51889, 0, 0, 0, 0, 0, 0, 0, 0, 0, 0,
    0, 0, 0, 0, 0, 0, 0, 0, 0, 0, 0, 0, 0, 0, 0, 0,
    0, 0, 0, 0, 0, 0, 0, 0, 0, 0, 0, 0, 0, 0, 0, 0,
    51892, 0, 0, 0, 0, 0, 0, 0, 0, 0, 0, 0, 0, 0, 0, 0,
    51899, 1344, 0, 0, 65535, 59, 1, 51896, 1345, 0, 0, 65535, 59, 1, 51903, 1345,
    0, 0, 65535, 59, 56, 51965, 0, 0, 0, 0, 0, 0, 0, 0, 0, 0,
    0, 0, 0, 0, 0, 0, 0, 0, 0, 0, 0, 0, 0, 0, 0, 0,
    0, 0, 0, 0, 0, 0, 0, 0, 0, 0, 0, 0, 0, 0, 51968, 51983,
    0, 52051, 0, 0, 0, 0, 52075, 0, 52099, 0, 52110, 0, 52129, 474, 0, 0,
    65535, 111, 1, 51972, 65535, 116, 1, 51976, 65535, 59, 1, 51980, 1346, 0, 0, 65535,
    59, 55, 52041, 0, 0, 0, 0, 0, 0, 0, 0, 0, 0, 0, 0, 0,
    0, 0, 0, 0, 0, 0, 0, 0, 0, 0, 0, 0, 0, 0, 0, 0,
    0, 0, 0, 0, 0, 0, 0, 0, 0, 0, 0, 0, 0, 0, 0, 0,
    0, 0, 0, 0, 0, 0, 0, 0, 52044, 475, 0, 0, 65535, 59, 1, 52048,
    475, 0, 0, 65535, 59, 11, 52065, 0, 0, 0, 0, 0, 0, 0, 0, 0,
    52068, 1347, 0, 0, 65535, 59, 1, 52072, 1348, 0, 0, 65535, 59, 11, 52089, 0,
    0, 0, 0, 0, 0, 0, 0, 0, 52092, 1349, 0, 0, 65535, 59, 1, 52096,
    1350, 0, 0, 65535, 101, 1, 52103, 65535, 59, 1, 52107, 1351, 0, 0, 65535, 108,
    1, 52114, 65535, 117, 1, 52118, 65535, 115, 1, 52122, 65535, 59, 1, 52126, 1352, 0,
    0, 65535, 97, 1, 52133, 65535, 114, 1, 52137, 65535, 114, 1, 52141, 65535, 59, 1,
    52145, 1353, 0, 0, 65535, 97, 1, 52152, 65535, 114, 1, 52156, 65535, 114, 1, 52160,
    65535, 59, 1, 52164, 224, 0, 0, 65535, 97, 20, 52190, 0, 0, 0, 52259, 0,
    0, 0, 52286, 0, 0, 0, 0, 0, 0, 0, 0, 0, 0, 52316, 65535, 108,
    8, 52201, 0, 0, 0, 0, 0, 0, 52244, 65535, 108, 1, 52205, 65535, 115, 1,
    52209, 65535, 101, 1, 52213, 65535, 116, 1, 52217, 65535, 109, 1, 52221, 65535, 105, 1,
    52225, 65535, 110, 1, 52229, 65535, 117, 1, 52233, 65535, 115, 1, 52237, 65535, 59, 1,
    52241, 19, 0, 0, 65535, 104, 1, 52248, 65535, 112, 1, 52252, 65535, 59, 1, 52256,
    1354, 0, 0, 65535, 112, 1, 52263, 65535, 97, 1, 52267, 65535, 114, 1, 52271, 65535,
    115, 1, 52275, 65535, 108, 1, 52279, 65535, 59, 1, 52283, 1355, 0, 0, 65535, 100,
    9, 52298, 0, 0, 0, 0, 0, 0, 0, 52305, 65535, 59, 1, 52302, 522, 0,
    0, 65535, 101, 1, 52309, 65535, 59, 1, 52313, 1356, 0, 0, 65535, 59, 43, 52362,
    0, 0, 0, 0, 0, 0, 0, 0, 0, 0, 0, 0, 0, 0, 0, 0,
    0, 0, 0, 0, 0, 0, 0, 0, 0, 0, 0, 0, 0, 0, 0, 0,
    0, 0, 0, 0, 0, 0, 0, 0, 0, 52365, 1357, 0, 0, 65535, 59, 57,
    52425, 0, 0, 0, 0, 0, 0, 0, 0, 0, 0, 0, 0, 0, 0, 0,
    0, 0, 0, 0, 0, 0, 0, 0, 0, 0, 0, 0, 0, 0, 0, 0,
    0, 0, 0, 0, 0, 0, 0, 0, 0, 0, 0, 0, 0, 0, 0, 0,
    0, 0, 0, 0, 0, 0, 0, 0, 52428, 1358, 0, 0, 65535, 59, 1, 52432,
    1359, 0, 0, 65535, 102, 11, 52449, 0, 0, 0, 0, 0, 52468, 0, 0, 0,
    52570, 65535, 116, 1, 52453, 65535, 99, 1, 52457, 65535, 121, 1, 52461, 65535, 59, 1,
    52465, 1360, 0, 0, 65535, 59, 40, 52511, 0, 0, 0, 0, 0, 0, 0, 0,
    0, 0, 0, 0, 0, 0, 0, 0, 0, 0, 0, 0, 0, 0, 0, 0,
    0, 0, 0, 0, 0, 0, 0, 0, 0, 0, 0, 0, 0, 0, 52514, 1361,
    0, 0, 65535, 59, 39, 52556, 0, 0, 0, 0, 0, 0, 0, 0, 0, 0,
    0, 0, 0, 0, 0, 0, 0, 0, 0, 0, 0, 0, 0, 0, 0, 0,
    0, 0, 0, 0, 0, 0, 0, 0, 0, 0, 0, 52559, 1362, 0, 0, 65535,
    114, 1, 52563, 65535, 59, 1, 52567, 1363, 0, 0, 65535, 102, 1, 52574, 65535, 59,
    1, 52578, 1364, 0, 0, 65535, 97, 1, 52585, 65535, 100, 15, 52603, 0, 0, 0,
    0, 0, 0, 0, 0, 0, 0, 0, 0, 0, 52691, 65535, 101, 1, 52607, 65535,
    115, 1, 52611, 65535, 59, 59, 52673, 0, 0, 0, 0, 0, 0, 0, 0, 0,
    0, 0, 0, 0, 0, 0, 0, 0, 0, 0, 0, 0, 0, 0, 0, 0,
    0, 0, 0, 0, 0, 0, 0, 0, 0, 0, 0, 0, 0, 0, 0, 0,
    0, 0, 0, 0, 0, 0, 0, 0, 0, 0, 0, 0, 0, 0, 0, 0,
    52676, 1365, 0, 0, 65535, 105, 1, 52680, 65535, 116, 1, 52684, 65535, 59, 1, 52688,
    1365, 0, 0, 65535, 59, 1, 52695, 96, 0, 0, 65535, 99, 19, 52720, 0, 0,
    0, 0, 0, 0, 0, 0, 0, 0, 0, 0, 0, 0, 0, 52892, 0, 53190,
    65535, 97, 21, 52744, 0, 0, 0, 0, 0, 0, 0, 0, 0, 0, 0, 0,
    0, 0, 0, 0, 0, 0, 0, 52818, 65535, 112, 1, 52748, 65535, 59, 57, 52808,
    0, 0, 0, 0, 0, 0, 0, 0, 0, 0, 0, 0, 0, 0, 0, 0,
    0, 0, 0, 0, 0, 0, 0, 0, 0, 0, 0, 0, 0, 0, 0, 0,
    0, 0, 0, 0, 0, 0, 0, 0, 0, 0, 0, 0, 0, 0, 0, 0,
    0, 0, 0, 0, 0, 0, 0, 52811, 442, 0, 0, 65535, 59, 1, 52815, 1366,
    0, 0, 65535, 112, 1, 52822, 65535, 59, 57, 52882, 0, 0, 0, 0, 0, 0,
    0, 0, 0, 0, 0, 0, 0, 0, 0, 0, 0, 0, 0, 0, 0, 0,
    0, 0, 0, 0, 0, 0, 0, 0, 0, 0, 0, 0, 0, 0, 0, 0,
    0, 0, 0, 0, 0, 0, 0, 0, 0, 0, 0, 0, 0, 0, 0, 0,
    0, 52885, 447, 0, 0, 65535, 59, 1, 52889, 1367, 0, 0, 65535, 117, 1, 52896,
    65535, 98, 15, 52914, 0, 0, 0, 0, 0, 0, 0, 0, 0, 0, 0, 0,
    0, 53052, 65535, 59, 57, 52974, 0, 0, 0, 0, 0, 0, 0, 0, 0, 0,
    0, 0, 0, 0, 0, 0, 0, 0, 0, 0, 0, 0, 0, 0, 0, 0,
    0, 0, 0, 0, 0, 0, 0, 0, 0, 0, 0, 0, 0, 0, 0, 52977,
    0, 0, 0, 0, 0, 0, 0, 0, 0, 0, 0, 0, 0, 52984, 443, 0,
    0, 65535, 59, 1, 52981, 444, 0, 0, 65535, 101, 1, 52988, 65535, 116, 1, 52992,
    65535, 59, 43, 53038, 0, 0, 0, 0, 0, 0, 0, 0, 0, 0, 0, 0,
    0, 0, 0, 0, 0, 0, 0, 0, 0, 0, 0, 0, 0, 0, 0, 0,
    0, 0, 0, 0, 0, 0, 0, 0, 0, 0, 0, 0, 0, 53041, 443, 0,
    0, 65535, 113, 1, 53045, 65535, 59, 1, 53049, 444, 0, 0, 65535, 59, 57, 53112,
    0, 0, 0, 0, 0, 0, 0, 0, 0, 0, 0, 0, 0, 0, 0, 0,
    0, 0, 0, 0, 0, 0, 0, 0, 0, 0, 0, 0, 0, 0, 0, 0,
    0, 0, 0, 0, 0, 0, 0, 0, 0, 53115, 0, 0, 0, 0, 0, 0,
    0, 0, 0, 0, 0, 0, 0, 53122, 445, 0, 0, 65535, 59, 1, 53119, 446,
    0, 0, 65535, 101, 1, 53126, 65535, 116, 1, 53130, 65535, 59, 43, 53176, 0, 0,
    0, 0, 0, 0, 0, 0, 0, 0, 0, 0, 0, 0, 0, 0, 0, 0,
    0, 0, 0, 0, 0, 0, 0, 0, 0, 0, 0, 0, 0, 0, 0, 0,
    0, 0, 0, 0, 0, 0, 0, 53179, 445, 0, 0, 65535, 113, 1, 53183, 65535,
    59, 1, 53187, 446, 0, 0, 65535, 59, 44, 53237, 0, 0, 0, 0, 0, 0,
    0, 0, 0, 0, 0, 0, 0, 0, 0, 0, 0, 0, 0, 0, 0, 0,
    0, 0, 0, 0, 0, 0, 0, 0, 0, 0, 0, 0, 0, 0, 0, 53240,
    0, 0, 0, 0, 53263, 441, 0, 0, 65535, 114, 1, 53244, 65535, 101, 2, 53249,
    53256, 65535, 59, 1, 53253, 441, 0, 0, 65535, 59, 1, 53260, 140, 0, 0, 65535,
    59, 1, 53267, 140, 0, 0, 65535, 97, 1, 53274, 65535, 114, 1, 53278, 65535, 114,
    1, 53282, 65535, 59, 1, 53286, 399, 0, 0, 65535, 99, 18, 53310, 0, 53321, 0,
    0, 0, 0, 0, 0, 0, 53340, 0, 0, 0, 0, 0, 0, 53359, 65535, 114,
    1, 53314, 65535, 59, 1, 53318, 1368, 0, 0, 65535, 116, 1, 53325, 65535, 109, 1,
    53329, 65535, 110, 1, 53333, 65535, 59, 1, 53337, 19, 0, 0, 65535, 105, 1, 53344,
    65535, 108, 1, 53348, 65535, 101, 1, 53352, 65535, 59, 1, 53356, 1356, 0, 0, 65535,
    97, 1, 53363, 65535, 114, 1, 53367, 65535, 102, 1, 53371, 65535, 59, 1, 53375, 449,
    0, 0, 65535, 97, 18, 53399, 0, 0, 0, 0, 0, 0, 0, 0, 0, 0,
    0, 0, 0, 0, 0, 0, 53460, 65535, 114, 1, 53403, 65535, 59, 44, 53450, 0,
    0, 0, 0, 0, 0, 0, 0, 0, 0, 0, 0, 0, 0, 0, 0, 0,
    0, 0, 0, 0, 0, 0, 0, 0, 0, 0, 0, 0, 0, 0, 0, 0,
    0, 0, 0, 0, 0, 0, 0, 0, 0, 53453, 1369, 0, 0, 65535, 59, 1,
    53457, 628, 0, 0, 65535, 97, 14, 53477, 0, 0, 0, 0, 0, 0, 0, 0,
    0, 0, 0, 0, 53554, 65535, 105, 1, 53481, 65535, 103, 1, 53485, 65535, 104, 1,
    53489, 65535, 116, 1, 53493, 65535, 101, 12, 53508, 0, 0, 0, 0, 0, 0, 0,
    0, 0, 0, 53539, 65535, 112, 1, 53512, 65535, 115, 1, 53516, 65535, 105, 1, 53520,
    65535, 108, 1, 53524, 65535, 111, 1, 53528, 65535, 110, 1, 53532, 65535, 59, 1, 53536,
    841, 0, 0, 65535, 104, 1, 53543, 65535, 105, 1, 53547, 65535, 59, 1, 53551, 1229,
    0, 0, 65535, 115, 1, 53558, 65535, 59, 1, 53562, 1086, 0, 0, 65535, 98, 15,
    53583, 54111, 0, 0, 0, 0, 0, 0, 0, 0, 0, 54341, 54348, 0, 54359, 65535,
    59, 57, 53643, 0, 0, 0, 0, 0, 0, 0, 0, 0, 53646, 0, 0, 0,
    0, 0, 0, 0, 0, 0, 0, 0, 0, 0, 0, 0, 0, 0, 0, 0,
    0, 0, 0, 0, 0, 0, 0, 0, 0, 0, 0, 53653, 53668, 0, 0, 0,
    0, 0, 0, 0, 53731, 53750, 0, 53800, 0, 53819, 53838, 1370, 0, 0, 65535, 59,
    1, 53650, 1371, 0, 0, 65535, 111, 1, 53657, 65535, 116, 1, 53661, 65535, 59, 1,
    53665, 1372, 0, 0, 65535, 59, 42, 53713, 0, 0, 0, 0, 0, 0, 0, 0,
    0, 0, 0, 0, 0, 0, 0, 0, 0, 0, 0, 0, 0, 0, 0, 0,
    0, 0, 0, 0, 0, 0, 0, 0, 0, 0, 0, 0, 0, 0, 0, 0,
    53716, 451, 0, 0, 65535, 111, 1, 53720, 65535, 116, 1, 53724, 65535, 59, 1, 53728,
    1373, 0, 0, 65535, 117, 1, 53735, 65535, 108, 1, 53739, 65535, 116, 1, 53743, 65535,
    59, 1, 53747, 1374, 0, 0, 65535, 69, 33, 53786, 0, 0, 0, 0, 0, 0,
];

/// Entry `i` of this part; 0 where the part has no such entry.
#[verifier::opaque]
pub open spec fn cell(i: int) -> u16 {
    if 0 <= i < 2560 {
        CELLS[i]
    } else {
        0
    }
}

/// Reads entry `i` of this part.
pub fn read_cell(i: usize) -> (entry: u16)
    ensures
        entry == cell(i as int),
{
    reveal(cell);
    if i < 2560 {
        CELLS[i]
    } else {
        0
    }
}

} // verus!
