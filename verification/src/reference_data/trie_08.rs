//! Cells 20480 to 23039 of the trie table.
use vstd::prelude::*;

verus! {

/// The entries of this part, in order.
pub const CELLS: [u16; 2560] = [
    0, 0, 0, 0, 0, 0, 20490, 611, 0, 0, 65535, 113, 1, 20494, 65535, 59,
    1, 20498, 612, 0, 0, 65535, 118, 2, 20506, 20521, 65535, 101, 1, 20510, 65535, 101,
    1, 20514, 65535, 59, 1, 20518, 613, 0, 0, 65535, 101, 1, 20525, 65535, 100, 1,
    20529, 65535, 59, 45, 20577, 0, 0, 0, 0, 0, 0, 0, 0, 0, 0, 0,
    0, 0, 0, 0, 0, 0, 0, 0, 0, 0, 0, 0, 0, 0, 0, 0,
    0, 0, 0, 0, 0, 0, 0, 0, 0, 0, 0, 0, 0, 0, 0, 0,
    20580, 614, 0, 0, 65535, 101, 1, 20584, 65535, 59, 1, 20588, 614, 0, 0, 65535,
    114, 1, 20595, 65535, 107, 1, 20599, 65535, 59, 58, 20660, 0, 0, 0, 0, 0,
    0, 0, 0, 0, 0, 0, 0, 0, 0, 0, 0, 0, 0, 0, 0, 0,
    0, 0, 0, 0, 0, 0, 0, 0, 0, 0, 0, 0, 0, 0, 0, 0,
    0, 0, 0, 0, 0, 0, 0, 0, 0, 0, 0, 0, 0, 0, 0, 0,
    0, 0, 0, 20663, 495, 0, 0, 65535, 98, 1, 20667, 65535, 114, 1, 20671, 65535,
    107, 1, 20675, 65535, 59, 1, 20679, 615, 0, 0, 65535, 111, 11, 20696, 0, 0,
    0, 0, 0, 0, 0, 0, 0, 20711, 65535, 110, 1, 20700, 65535, 103, 1, 20704,
    65535, 59, 1, 20708, 608, 0, 0, 65535, 59, 1, 20715, 616, 0, 0, 65535, 113,
    1, 20722, 65535, 117, 1, 20726, 65535, 111, 1, 20730, 65535, 59, 1, 20734, 617, 0,
    0, 65535, 99, 18, 20758, 0, 0, 0, 0, 0, 0, 0, 0, 0, 20826, 0,
    0, 20849, 0, 20864, 0, 20883, 65535, 97, 1, 20762, 65535, 117, 1, 20766, 65535, 115,
    1, 20770, 65535, 59, 43, 20816, 0, 0, 0, 0, 0, 0, 0, 0, 0, 0,
    0, 0, 0, 0, 0, 0, 0, 0, 0, 0, 0, 0, 0, 0, 0, 0,
    0, 0, 0, 0, 0, 0, 0, 0, 0, 0, 0, 0, 0, 0, 0, 20819,
    23, 0, 0, 65535, 59, 1, 20823, 23, 0, 0, 65535, 112, 1, 20830, 65535, 116,
    1, 20834, 65535, 121, 1, 20838, 65535, 118, 1, 20842, 65535, 59, 1, 20846, 618, 0,
    0, 65535, 115, 1, 20853, 65535, 105, 1, 20857, 65535, 59, 1, 20861, 609, 0, 0,
    65535, 110, 1, 20868, 65535, 111, 1, 20872, 65535, 117, 1, 20876, 65535, 59, 1, 20880,
    24, 0, 0, 65535, 97, 23, 20909, 0, 0, 0, 0, 0, 0, 20916, 0, 0,
    0, 0, 0, 0, 0, 0, 0, 0, 0, 0, 0, 0, 20923, 65535, 59, 1,
    20913, 619, 0, 0, 65535, 59, 1, 20920, 620, 0, 0, 65535, 101, 1, 20927, 65535,
    101, 1, 20931, 65535, 110, 1, 20935, 65535, 59, 1, 20939, 621, 0, 0, 65535, 114,
    1, 20946, 65535, 59, 1, 20950, 622, 0, 0, 65535, 103, 1, 20957, 65535, 99, 21,
    20981, 0, 0, 0, 0, 0, 0, 0, 0, 0, 0, 0, 21042, 0, 0, 0,
    21119, 21160, 21239, 21262, 21277, 65535, 97, 21, 21005, 0, 0, 0, 0, 0, 0, 0,
    21016, 0, 0, 0, 0, 0, 0, 0, 0, 0, 0, 0, 21031, 65535, 112, 1,
    21009, 65535, 59, 1, 21013, 188, 0, 0, 65535, 114, 1, 21020, 65535, 99, 1, 21024,
    65535, 59, 1, 21028, 623, 0, 0, 65535, 112, 1, 21035, 65535, 59, 1, 21039, 497,
    0, 0, 65535, 100, 17, 21062, 0, 0, 0, 0, 0, 0, 0, 0, 0, 0,
    0, 21077, 0, 0, 0, 21096, 65535, 111, 1, 21066, 65535, 116, 1, 21070, 65535, 59,
    1, 21074, 624, 0, 0, 65535, 108, 1, 21081, 65535, 117, 1, 21085, 65535, 115, 1,
    21089, 65535, 59, 1, 21093, 625, 0, 0, 65535, 105, 1, 21100, 65535, 109, 1, 21104,
    65535, 101, 1, 21108, 65535, 115, 1, 21112, 65535, 59, 1, 21116, 626, 0, 0, 65535,
    113, 4, 21126, 0, 0, 21145, 65535, 99, 1, 21130, 65535, 117, 1, 21134, 65535, 112,
    1, 21138, 65535, 59, 1, 21142, 627, 0, 0, 65535, 97, 1, 21149, 65535, 114, 1,
    21153, 65535, 59, 1, 21157, 628, 0, 0, 65535, 114, 1, 21164, 65535, 105, 1, 21168,
    65535, 97, 1, 21172, 65535, 110, 1, 21176, 65535, 103, 1, 21180, 65535, 108, 1, 21184,
    65535, 101, 1, 21188, 65535, 100, 18, 21209, 0, 0, 0, 0, 0, 0, 0, 0,
    0, 0, 0, 0, 0, 0, 0, 0, 21228, 65535, 111, 1, 21213, 65535, 119, 1,
    21217, 65535, 110, 1, 21221, 65535, 59, 1, 21225, 629, 0, 0, 65535, 112, 1, 21232,
    65535, 59, 1, 21236, 630, 0, 0, 65535, 112, 1, 21243, 65535, 108, 1, 21247, 65535,
    117, 1, 21251, 65535, 115, 1, 21255, 65535, 59, 1, 21259, 631, 0, 0, 65535, 101,
    1, 21266, 65535, 101, 1, 21270, 65535, 59, 1, 21274, 520, 0, 0, 65535, 101, 1,
    21281, 65535, 100, 1, 21285, 65535, 103, 1, 21289, 65535, 101, 1, 21293, 65535, 59, 1,
    21297, 532, 0, 0, 65535, 97, 1, 21304, 65535, 114, 1, 21308, 65535, 111, 1, 21312,
    65535, 119, 1, 21316, 65535, 59, 1, 21320, 632, 0, 0, 65535, 97, 15, 21341, 0,
    0, 0, 0, 0, 0, 0, 0, 0, 21592, 0, 0, 0, 21629, 65535, 99, 12,
    21356, 0, 0, 0, 0, 0, 0, 0, 0, 0, 0, 21581, 65535, 107, 1, 21360,
    65535, 108, 9, 21372, 0, 0, 0, 0, 0, 0, 21403, 21430, 65535, 111, 1, 21376,
    65535, 122, 1, 21380, 65535, 101, 1, 21384, 65535, 110, 1, 21388, 65535, 103, 1, 21392,
    65535, 101, 1, 21396, 65535, 59, 1, 21400, 633, 0, 0, 65535, 113, 1, 21407, 65535,
    117, 1, 21411, 65535, 97, 1, 21415, 65535, 114, 1, 21419, 65535, 101, 1, 21423, 65535,
    59, 1, 21427, 140, 0, 0, 65535, 114, 1, 21434, 65535, 105, 1, 21438, 65535, 97,
    1, 21442, 65535, 110, 1, 21446, 65535, 103, 1, 21450, 65535, 108, 1, 21454, 65535, 101,
    1, 21458, 65535, 59, 56, 21517, 0, 0, 0, 0, 0, 0, 0, 0, 0, 0,
    0, 0, 0, 0, 0, 0, 0, 0, 0, 0, 0, 0, 0, 0, 0, 0,
    0, 0, 0, 0, 0, 0, 0, 0, 0, 0, 0, 0, 0, 0, 21520, 0,
    0, 0, 0, 0, 0, 0, 21539, 0, 0, 0, 0, 0, 21558, 634, 0, 0,
    65535, 111, 1, 21524, 65535, 119, 1, 21528, 65535, 110, 1, 21532, 65535, 59, 1, 21536,
    635, 0, 0, 65535, 101, 1, 21543, 65535, 102, 1, 21547, 65535, 116, 1, 21551, 65535,
    59, 1, 21555, 636, 0, 0, 65535, 105, 1, 21562, 65535, 103, 1, 21566, 65535, 104,
    1, 21570, 65535, 116, 1, 21574, 65535, 59, 1, 21578, 637, 0, 0, 65535, 107, 1,
    21585, 65535, 59, 1, 21589, 638, 0, 0, 65535, 49, 3, 21598, 0, 21618, 65535, 50,
    3, 21604, 0, 21611, 65535, 59, 1, 21608, 639, 0, 0, 65535, 59, 1, 21615, 640,
    0, 0, 65535, 52, 1, 21622, 65535, 59, 1, 21626, 641, 0, 0, 65535, 99, 1,
    21633, 65535, 107, 1, 21637, 65535, 59, 1, 21641, 642, 0, 0, 65535, 101, 11, 21658,
    0, 0, 0, 0, 0, 0, 0, 0, 0, 21738, 65535, 59, 55, 21716, 0, 0,
    0, 0, 0, 0, 0, 0, 0, 0, 0, 0, 0, 0, 0, 0, 0, 0,
    0, 0, 0, 0, 0, 0, 0, 0, 0, 0, 0, 0, 0, 0, 0, 0,
    0, 0, 0, 0, 0, 0, 0, 0, 0, 0, 0, 0, 0, 0, 0, 0,
    0, 0, 0, 21719, 643, 0, 0, 65535, 117, 1, 21723, 65535, 105, 1, 21727, 65535,
    118, 1, 21731, 65535, 59, 1, 21735, 644, 0, 0, 65535, 116, 1, 21742, 65535, 59,
    1, 21746, 645, 0, 0, 65535, 112, 9, 21761, 0, 0, 0, 21772, 0, 0, 21851,
    21870, 65535, 102, 1, 21765, 65535, 59, 1, 21769, 646, 0, 0, 65535, 59, 58, 21833,
    0, 0, 0, 0, 0, 0, 0, 0, 0, 0, 0, 0, 0, 0, 0, 0,
    0, 0, 0, 0, 0, 0, 0, 0, 0, 0, 0, 0, 0, 0, 0, 0,
    0, 0, 0, 0, 0, 0, 0, 0, 0, 0, 0, 0, 0, 0, 0, 0,
    0, 0, 0, 0, 0, 0, 0, 0, 21836, 505, 0, 0, 65535, 111, 1, 21840,
    65535, 109, 1, 21844, 65535, 59, 1, 21848, 505, 0, 0, 65535, 116, 1, 21855, 65535,
    105, 1, 21859, 65535, 101, 1, 21863, 65535, 59, 1, 21867, 647, 0, 0, 65535, 68,
    51, 21924, 0, 0, 0, 21994, 0, 0, 0, 0, 0, 0, 0, 0, 0, 0,
    0, 0, 22087, 22157, 0, 0, 0, 0, 0, 0, 0, 0, 0, 0, 0, 22261,
    0, 22276, 0, 0, 0, 22346, 0, 0, 0, 0, 22439, 0, 0, 22462, 0, 0,
    0, 22481, 22504, 22574, 65535, 76, 39, 21966, 0, 0, 0, 0, 0, 21973, 0, 0,
    0, 0, 0, 0, 0, 0, 0, 0, 0, 0, 0, 0, 0, 0, 0, 0,
    0, 0, 0, 0, 0, 0, 0, 21980, 0, 0, 0, 0, 0, 21987, 65535, 59,
    1, 21970, 648, 0, 0, 65535, 59, 1, 21977, 649, 0, 0, 65535, 59, 1, 21984,
    650, 0, 0, 65535, 59, 1, 21991, 651, 0, 0, 65535, 59, 59, 22056, 0, 0,
    0, 0, 0, 0, 0, 0, 22059, 0, 0, 0, 0, 0, 0, 0, 0, 0,
    0, 0, 0, 0, 0, 0, 0, 22066, 0, 0, 0, 0, 0, 0, 0, 0,
    0, 0, 0, 0, 0, 0, 22073, 0, 0, 0, 0, 0, 0, 0, 0, 0,
    0, 0, 0, 0, 0, 0, 0, 22080, 652, 0, 0, 65535, 59, 1, 22063, 653,
    0, 0, 65535, 59, 1, 22070, 654, 0, 0, 65535, 59, 1, 22077, 655, 0, 0,
    65535, 59, 1, 22084, 656, 0, 0, 65535, 76, 39, 22129, 0, 0, 0, 0, 0,
    22136, 0, 0, 0, 0, 0, 0, 0, 0, 0, 0, 0, 0, 0, 0, 0,
    0, 0, 0, 0, 0, 0, 0, 0, 0, 0, 22143, 0, 0, 0, 0, 0,
    22150, 65535, 59, 1, 22133, 657, 0, 0, 65535, 59, 1, 22140, 658, 0, 0, 65535,
    59, 1, 22147, 659, 0, 0, 65535, 59, 1, 22154, 660, 0, 0, 65535, 59, 56,
    22216, 0, 0, 0, 0, 0, 0, 0, 0, 0, 0, 0, 0, 22219, 0, 0,
    0, 22226, 0, 0, 0, 0, 0, 22233, 0, 0, 0, 0, 0, 0, 0, 0,
    0, 0, 0, 0, 0, 0, 0, 0, 0, 0, 0, 0, 0, 22240, 0, 0,
    0, 22247, 0, 0, 0, 0, 0, 22254, 661, 0, 0, 65535, 59, 1, 22223, 662,
    0, 0, 65535, 59, 1, 22230, 663, 0, 0, 65535, 59, 1, 22237, 664, 0, 0,
    65535, 59, 1, 22244, 665, 0, 0, 65535, 59, 1, 22251, 666, 0, 0, 65535, 59,
    1, 22258, 667, 0, 0, 65535, 111, 1, 22265, 65535, 120, 1, 22269, 65535, 59, 1,
    22273, 668, 0, 0, 65535, 76, 39, 22318, 0, 0, 0, 0, 0, 22325, 0, 0,
    0, 0, 0, 0, 0, 0, 0, 0, 0, 0, 0, 0, 0, 0, 0, 0,
    0, 0, 0, 0, 0, 0, 0, 22332, 0, 0, 0, 0, 0, 22339, 65535, 59,
    1, 22322, 669, 0, 0, 65535, 59, 1, 22329, 670, 0, 0, 65535, 59, 1, 22336,
    671, 0, 0, 65535, 59, 1, 22343, 672, 0, 0, 65535, 59, 59, 22408, 0, 0,
    0, 0, 0, 0, 0, 0, 22411, 0, 0, 0, 0, 0, 0, 0, 0, 0,
    0, 0, 0, 0, 0, 0, 0, 22418, 0, 0, 0, 0, 0, 0, 0, 0,
    0, 0, 0, 0, 0, 0, 22425, 0, 0, 0, 0, 0, 0, 0, 0, 0,
    0, 0, 0, 0, 0, 0, 0, 22432, 172, 0, 0, 65535, 59, 1, 22415, 673,
    0, 0, 65535, 59, 1, 22422, 674, 0, 0, 65535, 59, 1, 22429, 675, 0, 0,
    65535, 59, 1, 22436, 676, 0, 0, 65535, 105, 1, 22443, 65535, 110, 1, 22447, 65535,
    117, 1, 22451, 65535, 115, 1, 22455, 65535, 59, 1, 22459, 677, 0, 0, 65535, 108,
    1, 22466, 65535, 117, 1, 22470, 65535, 115, 1, 22474, 65535, 59, 1, 22478, 678, 0,
    0, 65535, 105, 1, 22485, 65535, 109, 1, 22489, 65535, 101, 1, 22493, 65535, 115, 1,
    22497, 65535, 59, 1, 22501, 679, 0, 0, 65535, 76, 39, 22546, 0, 0, 0, 0,
    0, 22553, 0, 0, 0, 0, 0, 0, 0, 0, 0, 0, 0, 0, 0, 0,
    0, 0, 0, 0, 0, 0, 0, 0, 0, 0, 0, 22560, 0, 0, 0, 0,
    0, 22567, 65535, 59, 1, 22550, 680, 0, 0, 65535, 59, 1, 22557, 681, 0, 0,
    65535, 59, 1, 22564, 682, 0, 0, 65535, 59, 1, 22571, 683, 0, 0, 65535, 59,
    56, 22633, 0, 0, 0, 0, 0, 0, 0, 0, 0, 0, 0, 0, 22636, 0,
    0, 0, 22643, 0, 0, 0, 0, 0, 22650, 0, 0, 0, 0, 0, 0, 0,
    0, 0, 0, 0, 0, 0, 0, 0, 0, 0, 0, 0, 0, 0, 22657, 0,
    0, 0, 22664, 0, 0, 0, 0, 0, 22671, 684, 0, 0, 65535, 59, 1, 22640,
    685, 0, 0, 65535, 59, 1, 22647, 686, 0, 0, 65535, 59, 1, 22654, 687, 0,
    0, 65535, 59, 1, 22661, 688, 0, 0, 65535, 59, 1, 22668, 689, 0, 0, 65535,
    59, 1, 22675, 690, 0, 0, 65535, 114, 1, 22682, 65535, 105, 1, 22686, 65535, 109,
    1, 22690, 65535, 101, 1, 22694, 65535, 59, 1, 22698, 610, 0, 0, 65535, 101, 18,
    22722, 0, 0, 0, 0, 0, 0, 0, 0, 0, 0, 0, 0, 0, 0, 0,
    0, 22737, 65535, 118, 1, 22726, 65535, 101, 1, 22730, 65535, 59, 1, 22734, 28, 0,
    0, 65535, 98, 1, 22741, 65535, 97, 1, 22745, 65535, 114, 1, 22749, 691, 59, 1,
    22753, 691, 0, 0, 65535, 99, 13, 22772, 0, 22783, 0, 0, 0, 22798, 0, 0,
    0, 0, 0, 22858, 65535, 114, 1, 22776, 65535, 59, 1, 22780, 692, 0, 0, 65535,
    109, 1, 22787, 65535, 105, 1, 22791, 65535, 59, 1, 22795, 693, 0, 0, 65535, 109,
    1, 22802, 65535, 59, 43, 22848, 0, 0, 0, 0, 0, 0, 0, 0, 0, 0,
    0, 0, 0, 0, 0, 0, 0, 0, 0, 0, 0, 0, 0, 0, 0, 0,
    0, 0, 0, 0, 0, 0, 0, 0, 0, 0, 0, 0, 0, 0, 0, 22851,
    611, 0, 0, 65535, 59, 1, 22855, 612, 0, 0, 65535, 108, 1, 22862, 65535, 59,
    46, 22911, 0, 0, 0, 0, 0, 0, 0, 0, 0, 0, 0, 0, 0, 0,
    0, 0, 0, 0, 0, 0, 0, 0, 0, 0, 0, 0, 0, 0, 0, 0,
    0, 0, 0, 0, 0, 0, 0, 0, 22914, 0, 0, 0, 0, 0, 22921, 694,
    0, 0, 65535, 59, 1, 22918, 695, 0, 0, 65535, 115, 1, 22925, 65535, 117, 1,
    22929, 65535, 98, 1, 22933, 65535, 59, 1, 22937, 696, 0, 0, 65535, 108, 2, 22945,
    23009, 65535, 108, 1, 22949, 65535, 59, 43, 22995, 0, 0, 0, 0, 0, 0, 0,
    0, 0, 0, 0, 0, 0, 0, 0, 0, 0, 0, 0, 0, 0, 0, 0,
    0, 0, 0, 0, 0, 0, 0, 0, 0, 0, 0, 0, 0, 0, 0, 0,
    0, 0, 22998, 697, 0, 0, 65535, 116, 1, 23002, 65535, 59, 1, 23006, 697, 0,
    0, 65535, 112, 1, 23013, 65535, 59, 43, 23059, 0, 0, 0, 0, 0, 0, 0,
    0, 0, 23062, 0, 0, 0, 0, 0, 0, 0, 0, 0, 0, 0, 0, 0,
];

/// Entry `i` of this part; 0 where the part has no such entry.
#[verifier::opaque]
pub open spec fn cell(i: int) -> u16 {
    if 0 <= i < 2560 {
        CELLS[i]
    } else {
        0
    }
}

/// Reads entry `i` of this part.
pub fn read_cell(i: usize) -> (entry: u16)
    ensures
        entry == cell(i as int),
{
    reveal(cell);
    if i < 2560 {
        CELLS[i]
    } else {
        0
    }
}

} // verus!
