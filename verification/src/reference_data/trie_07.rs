//! Cells 17920 to 20479 of the trie table.
use vstd::prelude::*;

verus! {

/// The entries of this part, in order.
pub const CELLS: [u16; 2560] = [
    17921, 65535, 59, 1, 17925, 521, 0, 0, 65535, 59, 47, 17978, 0, 0, 0, 0,
    0, 0, 0, 0, 0, 0, 0, 0, 0, 0, 0, 0, 0, 0, 0, 0,
    0, 0, 0, 0, 0, 0, 0, 0, 0, 0, 0, 0, 0, 0, 0, 0,
    0, 0, 0, 0, 0, 0, 0, 0, 0, 17981, 521, 0, 0, 65535, 99, 1,
    17985, 65535, 97, 1, 17989, 65535, 108, 1, 17993, 65535, 66, 19, 18015, 0, 0, 0,
    0, 0, 0, 0, 0, 0, 18030, 0, 0, 0, 0, 0, 0, 18049, 18088, 65535,
    97, 1, 18019, 65535, 114, 1, 18023, 65535, 59, 1, 18027, 522, 0, 0, 65535, 105,
    1, 18034, 65535, 110, 1, 18038, 65535, 101, 1, 18042, 65535, 59, 1, 18046, 523, 0,
    0, 65535, 101, 1, 18053, 65535, 112, 1, 18057, 65535, 97, 1, 18061, 65535, 114, 1,
    18065, 65535, 97, 1, 18069, 65535, 116, 1, 18073, 65535, 111, 1, 18077, 65535, 114, 1,
    18081, 65535, 59, 1, 18085, 524, 0, 0, 65535, 105, 1, 18092, 65535, 108, 1, 18096,
    65535, 100, 1, 18100, 65535, 101, 1, 18104, 65535, 59, 1, 18108, 525, 0, 0, 65535,
    84, 1, 18115, 65535, 104, 1, 18119, 65535, 105, 1, 18123, 65535, 110, 1, 18127, 65535,
    83, 1, 18131, 65535, 112, 1, 18135, 65535, 97, 1, 18139, 65535, 99, 1, 18143, 65535,
    101, 1, 18147, 65535, 59, 1, 18151, 526, 0, 0, 65535, 114, 1, 18158, 65535, 59,
    1, 18162, 527, 0, 0, 65535, 112, 1, 18169, 65535, 102, 1, 18173, 65535, 59, 1,
    18177, 528, 0, 0, 65535, 99, 1, 18184, 65535, 114, 1, 18188, 65535, 59, 1, 18192,
    529, 0, 0, 65535, 100, 1, 18199, 65535, 97, 1, 18203, 65535, 115, 1, 18207, 65535,
    104, 1, 18211, 65535, 59, 1, 18215, 530, 0, 0, 65535, 99, 17, 18238, 0, 18257,
    18276, 0, 0, 0, 0, 0, 0, 0, 0, 18287, 0, 0, 0, 18302, 65535, 105,
    1, 18242, 65535, 114, 1, 18246, 65535, 99, 1, 18250, 65535, 59, 1, 18254, 531, 0,
    0, 65535, 100, 1, 18261, 65535, 103, 1, 18265, 65535, 101, 1, 18269, 65535, 59, 1,
    18273, 532, 0, 0, 65535, 114, 1, 18280, 65535, 59, 1, 18284, 533, 0, 0, 65535,
    112, 1, 18291, 65535, 102, 1, 18295, 65535, 59, 1, 18299, 534, 0, 0, 65535, 99,
    1, 18306, 65535, 114, 1, 18310, 65535, 59, 1, 18314, 535, 0, 0, 65535, 102, 14,
    18334, 0, 0, 18345, 0, 0, 0, 0, 0, 18352, 0, 0, 0, 18367, 65535, 114,
    1, 18338, 65535, 59, 1, 18342, 536, 0, 0, 65535, 59, 1, 18349, 537, 0, 0,
    65535, 112, 1, 18356, 65535, 102, 1, 18360, 65535, 59, 1, 18364, 538, 0, 0, 65535,
    99, 1, 18371, 65535, 114, 1, 18375, 65535, 59, 1, 18379, 539, 0, 0, 65535, 65,
    53, 18438, 0, 0, 0, 0, 0, 0, 0, 18453, 0, 0, 0, 0, 0, 0,
    0, 0, 0, 0, 0, 18468, 0, 0, 0, 0, 0, 0, 0, 0, 0, 0,
    0, 18483, 0, 18506, 0, 0, 18548, 0, 0, 0, 0, 0, 0, 0, 0, 18559,
    0, 0, 0, 18574, 0, 18589, 65535, 99, 1, 18442, 65535, 121, 1, 18446, 65535, 59,
    1, 18450, 540, 0, 0, 65535, 99, 1, 18457, 65535, 121, 1, 18461, 65535, 59, 1,
    18465, 541, 0, 0, 65535, 99, 1, 18472, 65535, 121, 1, 18476, 65535, 59, 1, 18480,
    542, 0, 0, 65535, 99, 1, 18487, 65535, 117, 1, 18491, 65535, 116, 1, 18495, 65535,
    101, 1, 18499, 543, 59, 1, 18503, 543, 0, 0, 65535, 105, 17, 18526, 0, 0,
    0, 0, 0, 0, 0, 0, 0, 0, 0, 0, 0, 0, 0, 18541, 65535, 114,
    1, 18530, 65535, 99, 1, 18534, 65535, 59, 1, 18538, 544, 0, 0, 65535, 59, 1,
    18545, 545, 0, 0, 65535, 114, 1, 18552, 65535, 59, 1, 18556, 546, 0, 0, 65535,
    112, 1, 18563, 65535, 102, 1, 18567, 65535, 59, 1, 18571, 547, 0, 0, 65535, 99,
    1, 18578, 65535, 114, 1, 18582, 65535, 59, 1, 18586, 548, 0, 0, 65535, 109, 1,
    18593, 65535, 108, 1, 18597, 65535, 59, 1, 18601, 549, 0, 0, 65535, 72, 44, 18651,
    0, 0, 0, 0, 0, 0, 0, 0, 0, 0, 0, 0, 0, 0, 0, 0,
    0, 0, 0, 0, 0, 0, 0, 0, 18666, 0, 18689, 18743, 18758, 18826, 0, 0,
    0, 0, 0, 0, 0, 0, 18837, 0, 0, 0, 18852, 65535, 99, 1, 18655, 65535,
    121, 1, 18659, 65535, 59, 1, 18663, 550, 0, 0, 65535, 99, 1, 18670, 65535, 117,
    1, 18674, 65535, 116, 1, 18678, 65535, 101, 1, 18682, 65535, 59, 1, 18686, 551, 0,
    0, 65535, 97, 25, 18717, 0, 0, 0, 0, 0, 0, 0, 0, 0, 0, 0,
    0, 0, 0, 0, 0, 0, 0, 0, 0, 0, 0, 0, 18736, 65535, 114, 1,
    18721, 65535, 111, 1, 18725, 65535, 110, 1, 18729, 65535, 59, 1, 18733, 552, 0, 0,
    65535, 59, 1, 18740, 553, 0, 0, 65535, 111, 1, 18747, 65535, 116, 1, 18751, 65535,
    59, 1, 18755, 554, 0, 0, 65535, 114, 3, 18764, 0, 18815, 65535, 111, 1, 18768,
    65535, 87, 1, 18772, 65535, 105, 1, 18776, 65535, 100, 1, 18780, 65535, 116, 1, 18784,
    65535, 104, 1, 18788, 65535, 83, 1, 18792, 65535, 112, 1, 18796, 65535, 97, 1, 18800,
    65535, 99, 1, 18804, 65535, 101, 1, 18808, 65535, 59, 1, 18812, 279, 0, 0, 65535,
    97, 1, 18819, 65535, 59, 1, 18823, 555, 0, 0, 65535, 114, 1, 18830, 65535, 59,
    1, 18834, 556, 0, 0, 65535, 112, 1, 18841, 65535, 102, 1, 18845, 65535, 59, 1,
    18849, 557, 0, 0, 65535, 99, 1, 18856, 65535, 114, 1, 18860, 65535, 59, 1, 18864,
    558, 0, 0, 65535, 97, 23, 18893, 18916, 18939, 0, 19059, 19078, 19147, 0, 0, 0,
    0, 19170, 19244, 19305, 19812, 19851, 0, 20038, 20057, 20169, 20192, 0, 20207, 65535, 99, 1,
    18897, 65535, 117, 1, 18901, 65535, 116, 1, 18905, 65535, 101, 1, 18909, 559, 59, 1,
    18913, 559, 0, 0, 65535, 114, 1, 18920, 65535, 101, 1, 18924, 65535, 118, 1, 18928,
    65535, 101, 1, 18932, 65535, 59, 1, 18936, 560, 0, 0, 65535, 59, 63, 19005, 0,
    0, 0, 0, 0, 0, 0, 0, 0, 19008, 0, 0, 0, 0, 0, 0, 0,
    0, 0, 0, 0, 0, 0, 0, 0, 0, 0, 0, 0, 0, 0, 0, 0,
    0, 0, 0, 0, 0, 0, 0, 19015, 0, 0, 0, 0, 19022, 0, 0, 0,
    0, 0, 0, 0, 0, 0, 0, 0, 19037, 0, 0, 0, 19052, 561, 0, 0,
    65535, 59, 1, 19012, 562, 0, 0, 65535, 59, 1, 19019, 563, 0, 0, 65535, 114,
    1, 19026, 65535, 99, 1, 19030, 564, 59, 1, 19034, 564, 0, 0, 65535, 116, 1,
    19041, 65535, 101, 1, 19045, 75, 59, 1, 19049, 75, 0, 0, 65535, 59, 1, 19056,
    565, 0, 0, 65535, 108, 1, 19063, 65535, 105, 1, 19067, 65535, 103, 1, 19071, 566,
    59, 1, 19075, 566, 0, 0, 65535, 59, 56, 19137, 0, 0, 0, 0, 0, 0,
    0, 0, 0, 0, 0, 0, 0, 0, 0, 0, 0, 0, 0, 0, 0, 0,
    0, 0, 0, 0, 0, 0, 0, 0, 0, 0, 0, 0, 0, 0, 0, 0,
    0, 0, 0, 0, 0, 0, 0, 0, 0, 0, 0, 0, 0, 0, 0, 0,
    19140, 13, 0, 0, 65535, 59, 1, 19144, 567, 0, 0, 65535, 114, 1, 19151, 65535,
    97, 1, 19155, 65535, 118, 1, 19159, 65535, 101, 1, 19163, 568, 59, 1, 19167, 568,
    0, 0, 65535, 101, 12, 19185, 0, 0, 0, 0, 0, 0, 0, 0, 0, 0,
    19229, 65535, 102, 11, 19199, 0, 0, 0, 0, 0, 0, 0, 0, 0, 19218, 65535,
    115, 1, 19203, 65535, 121, 1, 19207, 65535, 109, 1, 19211, 65535, 59, 1, 19215, 569,
    0, 0, 65535, 104, 1, 19222, 65535, 59, 1, 19226, 569, 0, 0, 65535, 104, 1,
    19233, 65535, 97, 1, 19237, 65535, 59, 1, 19241, 570, 0, 0, 65535, 97, 16, 19263,
    0, 0, 0, 0, 0, 0, 0, 0, 0, 0, 0, 0, 0, 0, 19298, 65535,
    99, 10, 19276, 0, 0, 0, 0, 0, 0, 0, 0, 19287, 65535, 114, 1, 19280,
    65535, 59, 1, 19284, 571, 0, 0, 65535, 103, 1, 19291, 65535, 59, 1, 19295, 572,
    0, 0, 1, 59, 1, 19302, 1, 0, 0, 65535, 100, 4, 19312, 0, 0, 19430,
    65535, 59, 60, 19375, 0, 0, 0, 0, 0, 0, 0, 0, 0, 0, 0, 0,
    0, 0, 0, 0, 0, 0, 0, 0, 0, 0, 0, 0, 0, 0, 0, 0,
    0, 0, 0, 0, 0, 0, 0, 0, 0, 19378, 0, 0, 19393, 0, 0, 0,
    0, 0, 0, 0, 0, 0, 0, 0, 0, 0, 0, 19400, 0, 0, 19423, 573,
    0, 0, 65535, 110, 1, 19382, 65535, 100, 1, 19386, 65535, 59, 1, 19390, 574, 0,
    0, 65535, 59, 1, 19397, 575, 0, 0, 65535, 108, 1, 19404, 65535, 111, 1, 19408,
    65535, 112, 1, 19412, 65535, 101, 1, 19416, 65535, 59, 1, 19420, 576, 0, 0, 65535,
    59, 1, 19427, 577, 0, 0, 65535, 59, 64, 19497, 0, 0, 0, 0, 0, 0,
    0, 0, 0, 0, 0, 0, 0, 0, 0, 0, 0, 0, 0, 0, 0, 0,
    0, 0, 0, 0, 0, 0, 0, 0, 0, 0, 0, 0, 0, 0, 0, 0,
    0, 0, 0, 19500, 0, 0, 0, 0, 0, 0, 19507, 19518, 0, 0, 0, 0,
    19638, 19767, 0, 0, 0, 0, 0, 0, 19793, 578, 0, 0, 65535, 59, 1, 19504,
    579, 0, 0, 65535, 101, 1, 19511, 65535, 59, 1, 19515, 578, 0, 0, 65535, 115,
    1, 19522, 65535, 100, 1, 19526, 65535, 59, 39, 19568, 0, 0, 0, 0, 0, 0,
    0, 0, 0, 0, 0, 0, 0, 0, 0, 0, 0, 0, 0, 0, 0, 0,
    0, 0, 0, 0, 0, 0, 0, 0, 0, 0, 0, 0, 0, 0, 0, 19571,
    580, 0, 0, 65535, 97, 8, 19582, 19589, 19596, 19603, 19610, 19617, 19624, 19631, 65535, 59,
    1, 19586, 581, 0, 0, 65535, 59, 1, 19593, 582, 0, 0, 65535, 59, 1, 19600,
    583, 0, 0, 65535, 59, 1, 19607, 584, 0, 0, 65535, 59, 1, 19614, 585, 0,
    0, 65535, 59, 1, 19621, 586, 0, 0, 65535, 59, 1, 19628, 587, 0, 0, 65535,
    59, 1, 19635, 588, 0, 0, 65535, 116, 1, 19642, 65535, 59, 60, 19705, 0, 0,
    0, 0, 0, 0, 0, 0, 0, 0, 0, 0, 0, 0, 0, 0, 0, 0,
    0, 0, 0, 0, 0, 0, 0, 0, 0, 0, 0, 0, 0, 0, 0, 0,
    0, 0, 0, 0, 0, 0, 0, 0, 0, 0, 0, 0, 0, 0, 0, 0,
    0, 0, 0, 0, 0, 0, 0, 0, 19708, 589, 0, 0, 65535, 98, 1, 19712,
    65535, 59, 42, 19757, 0, 0, 0, 0, 0, 0, 0, 0, 0, 0, 0, 0,
    0, 0, 0, 0, 0, 0, 0, 0, 0, 0, 0, 0, 0, 0, 0, 0,
    0, 0, 0, 0, 0, 0, 0, 0, 0, 0, 0, 0, 19760, 590, 0, 0,
    65535, 59, 1, 19764, 591, 0, 0, 65535, 112, 5, 19775, 0, 0, 0, 19786, 65535,
    104, 1, 19779, 65535, 59, 1, 19783, 592, 0, 0, 65535, 59, 1, 19790, 14, 0,
    0, 65535, 97, 1, 19797, 65535, 114, 1, 19801, 65535, 114, 1, 19805, 65535, 59, 1,
    19809, 593, 0, 0, 65535, 103, 10, 19825, 0, 0, 0, 0, 0, 0, 0, 0,
    19840, 65535, 111, 1, 19829, 65535, 110, 1, 19833, 65535, 59, 1, 19837, 594, 0, 0,
    65535, 102, 1, 19844, 65535, 59, 1, 19848, 595, 0, 0, 65535, 59, 54, 19908, 0,
    0, 0, 0, 0, 0, 0, 0, 0, 19911, 0, 0, 0, 0, 0, 0, 0,
    0, 0, 0, 0, 0, 0, 0, 0, 0, 0, 0, 0, 0, 0, 0, 0,
    0, 0, 0, 0, 19918, 0, 0, 0, 19937, 0, 0, 0, 19944, 0, 0, 0,
    0, 0, 19955, 19966, 477, 0, 0, 65535, 59, 1, 19915, 596, 0, 0, 65535, 99,
    1, 19922, 65535, 105, 1, 19926, 65535, 114, 1, 19930, 65535, 59, 1, 19934, 597, 0,
    0, 65535, 59, 1, 19941, 598, 0, 0, 65535, 100, 1, 19948, 65535, 59, 1, 19952,
    599, 0, 0, 65535, 115, 1, 19959, 65535, 59, 1, 19963, 600, 0, 0, 65535, 114,
    1, 19970, 65535, 111, 1, 19974, 65535, 120, 1, 19978, 65535, 59, 43, 20024, 0, 0,
    0, 0, 0, 0, 0, 0, 0, 0, 0, 0, 0, 0, 0, 0, 0, 0,
    0, 0, 0, 0, 0, 0, 0, 0, 0, 0, 0, 0, 0, 0, 0, 0,
    0, 0, 0, 0, 0, 0, 0, 20027, 477, 0, 0, 65535, 113, 1, 20031, 65535,
    59, 1, 20035, 598, 0, 0, 65535, 105, 1, 20042, 65535, 110, 1, 20046, 65535, 103,
    1, 20050, 601, 59, 1, 20054, 601, 0, 0, 65535, 99, 23, 20083, 0, 0, 0,
    0, 0, 0, 0, 0, 0, 0, 0, 0, 0, 0, 0, 0, 20094, 0, 0,
    0, 0, 20101, 65535, 114, 1, 20087, 65535, 59, 1, 20091, 602, 0, 0, 65535, 59,
    1, 20098, 603, 0, 0, 65535, 109, 1, 20105, 65535, 112, 1, 20109, 65535, 59, 43,
    20155, 0, 0, 0, 0, 0, 0, 0, 0, 0, 0, 0, 0, 0, 0, 0,
    0, 0, 0, 0, 0, 0, 0, 0, 0, 0, 0, 0, 0, 0, 0, 0,
    0, 0, 0, 0, 0, 0, 0, 0, 0, 0, 20158, 477, 0, 0, 65535, 113,
    1, 20162, 65535, 59, 1, 20166, 62, 0, 0, 65535, 105, 1, 20173, 65535, 108, 1,
    20177, 65535, 100, 1, 20181, 65535, 101, 1, 20185, 604, 59, 1, 20189, 604, 0, 0,
    65535, 109, 1, 20196, 65535, 108, 1, 20200, 605, 59, 1, 20204, 605, 0, 0, 65535,
    99, 7, 20217, 0, 0, 0, 0, 0, 20244, 65535, 111, 1, 20221, 65535, 110, 1,
    20225, 65535, 105, 1, 20229, 65535, 110, 1, 20233, 65535, 116, 1, 20237, 65535, 59, 1,
    20241, 58, 0, 0, 65535, 110, 1, 20248, 65535, 116, 1, 20252, 65535, 59, 1, 20256,
    606, 0, 0, 65535, 78, 40, 20302, 0, 0, 0, 0, 0, 0, 0, 0, 0,
    0, 0, 0, 0, 0, 0, 0, 0, 0, 20317, 20591, 20682, 20718, 20737, 20942, 0,
    0, 20953, 0, 21300, 21323, 0, 21644, 21749, 22678, 0, 22701, 22756, 0, 22940, 65535, 111,
    1, 20306, 65535, 116, 1, 20310, 65535, 59, 1, 20314, 607, 0, 0, 65535, 99, 16,
    20336, 0, 0, 0, 0, 0, 0, 0, 0, 0, 0, 0, 0, 0, 0, 20501,
    65535, 107, 1, 20340, 65535, 99, 17, 20360, 0, 20379, 0, 0, 0, 0, 0, 0,
    0, 0, 0, 0, 20410, 0, 0, 20433, 65535, 111, 1, 20364, 65535, 110, 1, 20368,
    65535, 103, 1, 20372, 65535, 59, 1, 20376, 608, 0, 0, 65535, 112, 1, 20383, 65535,
    115, 1, 20387, 65535, 105, 1, 20391, 65535, 108, 1, 20395, 65535, 111, 1, 20399, 65535,
    110, 1, 20403, 65535, 59, 1, 20407, 609, 0, 0, 65535, 114, 1, 20414, 65535, 105,
    1, 20418, 65535, 109, 1, 20422, 65535, 101, 1, 20426, 65535, 59, 1, 20430, 610, 0,
    0, 65535, 105, 1, 20437, 65535, 109, 1, 20441, 65535, 59, 43, 20487, 0, 0, 0,
    0, 0, 0, 0, 0, 0, 0, 0, 0, 0, 0, 0, 0, 0, 0, 0,
    0, 0, 0, 0, 0, 0, 0, 0, 0, 0, 0, 0, 0, 0, 0, 0,
];

/// Entry `i` of this part; 0 where the part has no such entry.
#[verifier::opaque]
pub open spec fn cell(i: int) -> u16 {
    if 0 <= i < 2560 {
        CELLS[i]
    } else {
        0
    }
}

/// Reads entry `i` of this part.
pub fn read_cell(i: usize) -> (entry: u16)
    ensures
        entry == cell(i as int),
{
    reveal(cell);
    if i < 2560 {
        CELLS[i]
    } else {
        0
    }
}

/// The entries of this part that the references `amp;`, `lt;` and `gt;` go through.
pub proof fn lemma_basic_reference_cells()
    ensures
        cell(947) == 65535,
        cell(948) == 97,
        cell(949) == 23,
        cell(962) == 19244,
        cell(1324) == 65535,
        cell(1325) == 97,
        cell(1326) == 16,
        cell(1342) == 19298,
        cell(1378) == 1,
        cell(1379) == 59,
        cell(1380) == 1,
        cell(1381) == 19302,
        cell(1382) == 1,
{
    reveal(cell);
}

} // verus!
