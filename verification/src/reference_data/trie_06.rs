//! Cells 15360 to 17919 of the trie table.
use vstd::prelude::*;

verus! {

/// The entries of this part, in order.
pub const CELLS: [u16; 2560] = [
    0, 0, 0, 0, 0, 0, 15370, 443, 0, 0, 65535, 113, 1, 15374, 65535, 117,
    1, 15378, 65535, 97, 1, 15382, 65535, 108, 1, 15386, 65535, 59, 1, 15390, 444, 0,
    0, 65535, 101, 1, 15397, 65535, 114, 1, 15401, 65535, 115, 1, 15405, 65535, 101, 1,
    15409, 65535, 116, 1, 15413, 65535, 59, 11, 15427, 0, 0, 0, 0, 0, 0, 0,
    0, 0, 15430, 445, 0, 0, 65535, 113, 1, 15434, 65535, 117, 1, 15438, 65535, 97,
    1, 15442, 65535, 108, 1, 15446, 65535, 59, 1, 15450, 446, 0, 0, 65535, 110, 1,
    15457, 65535, 105, 1, 15461, 65535, 111, 1, 15465, 65535, 110, 1, 15469, 65535, 59, 1,
    15473, 447, 0, 0, 65535, 99, 1, 15480, 65535, 114, 1, 15484, 65535, 59, 1, 15488,
    448, 0, 0, 65535, 97, 1, 15495, 65535, 114, 1, 15499, 65535, 59, 1, 15503, 449,
    0, 0, 65535, 98, 15, 15524, 15635, 0, 0, 0, 0, 0, 0, 0, 0, 0,
    15804, 0, 0, 15811, 65535, 59, 57, 15584, 0, 0, 0, 0, 0, 0, 0, 0,
    0, 0, 0, 0, 0, 0, 0, 0, 0, 0, 0, 0, 0, 0, 0, 0,
    0, 0, 0, 0, 0, 0, 0, 0, 0, 0, 0, 0, 0, 0, 0, 0,
    0, 0, 0, 0, 0, 0, 0, 0, 0, 0, 0, 0, 0, 0, 0, 15587,
    450, 0, 0, 65535, 101, 1, 15591, 65535, 116, 1, 15595, 65535, 59, 11, 15609, 0,
    0, 0, 0, 0, 0, 0, 0, 0, 15612, 450, 0, 0, 65535, 113, 1, 15616,
    65535, 117, 1, 15620, 65535, 97, 1, 15624, 65535, 108, 1, 15628, 65535, 59, 1, 15632,
    451, 0, 0, 65535, 99, 6, 15644, 0, 0, 0, 0, 15781, 65535, 101, 1, 15648,
    65535, 101, 1, 15652, 65535, 100, 1, 15656, 65535, 115, 1, 15660, 65535, 59, 26, 15689,
    0, 0, 0, 0, 0, 0, 0, 0, 0, 15692, 0, 0, 0, 0, 0, 0,
    0, 0, 0, 0, 0, 0, 0, 15715, 15758, 452, 0, 0, 65535, 113, 1, 15696,
    65535, 117, 1, 15700, 65535, 97, 1, 15704, 65535, 108, 1, 15708, 65535, 59, 1, 15712,
    453, 0, 0, 65535, 108, 1, 15719, 65535, 97, 1, 15723, 65535, 110, 1, 15727, 65535,
    116, 1, 15731, 65535, 69, 1, 15735, 65535, 113, 1, 15739, 65535, 117, 1, 15743, 65535,
    97, 1, 15747, 65535, 108, 1, 15751, 65535, 59, 1, 15755, 454, 0, 0, 65535, 105,
    1, 15762, 65535, 108, 1, 15766, 65535, 100, 1, 15770, 65535, 101, 1, 15774, 65535, 59,
    1, 15778, 455, 0, 0, 65535, 84, 1, 15785, 65535, 104, 1, 15789, 65535, 97, 1,
    15793, 65535, 116, 1, 15797, 65535, 59, 1, 15801, 394, 0, 0, 65535, 59, 1, 15808,
    456, 0, 0, 65535, 59, 57, 15871, 0, 0, 0, 0, 0, 0, 0, 0, 0,
    0, 0, 0, 0, 0, 0, 0, 0, 0, 0, 0, 0, 0, 0, 0, 0,
    0, 0, 0, 0, 0, 0, 0, 0, 0, 0, 0, 0, 0, 0, 0, 0,
    15874, 0, 0, 0, 0, 0, 0, 0, 0, 0, 0, 0, 0, 0, 15930, 457,
    0, 0, 65535, 114, 1, 15878, 65535, 115, 1, 15882, 65535, 101, 1, 15886, 65535, 116,
    1, 15890, 65535, 59, 11, 15904, 0, 0, 0, 0, 0, 0, 0, 0, 0, 15907,
    458, 0, 0, 65535, 113, 1, 15911, 65535, 117, 1, 15915, 65535, 97, 1, 15919, 65535,
    108, 1, 15923, 65535, 59, 1, 15927, 459, 0, 0, 65535, 101, 1, 15934, 65535, 116,
    1, 15938, 65535, 59, 1, 15942, 457, 0, 0, 65535, 72, 44, 15992, 0, 0, 0,
    0, 0, 0, 0, 0, 0, 16011, 16030, 0, 0, 0, 0, 0, 0, 0, 0,
    0, 0, 0, 0, 0, 16087, 0, 16124, 0, 0, 16197, 0, 16208, 16333, 0, 0,
    0, 0, 0, 16462, 0, 0, 16477, 16512, 65535, 79, 1, 15996, 65535, 82, 1, 16000,
    65535, 78, 1, 16004, 460, 59, 1, 16008, 460, 0, 0, 65535, 65, 1, 16015, 65535,
    68, 1, 16019, 65535, 69, 1, 16023, 65535, 59, 1, 16027, 461, 0, 0, 65535, 72,
    28, 16061, 0, 0, 0, 0, 0, 0, 0, 0, 0, 0, 0, 0, 0, 0,
    0, 0, 0, 0, 0, 0, 0, 0, 0, 0, 0, 0, 16076, 65535, 99, 1,
    16065, 65535, 121, 1, 16069, 65535, 59, 1, 16073, 462, 0, 0, 65535, 121, 1, 16080,
    65535, 59, 1, 16084, 463, 0, 0, 65535, 98, 20, 16110, 0, 0, 0, 0, 0,
    0, 0, 0, 0, 0, 0, 0, 0, 0, 0, 0, 0, 0, 16117, 65535, 59,
    1, 16114, 464, 0, 0, 65535, 59, 1, 16121, 465, 0, 0, 65535, 97, 25, 16152,
    0, 0, 0, 16171, 0, 0, 0, 0, 0, 0, 0, 0, 0, 0, 0, 0,
    0, 0, 0, 0, 0, 0, 0, 16190, 65535, 114, 1, 16156, 65535, 111, 1, 16160,
    65535, 110, 1, 16164, 65535, 59, 1, 16168, 466, 0, 0, 65535, 100, 1, 16175, 65535,
    105, 1, 16179, 65535, 108, 1, 16183, 65535, 59, 1, 16187, 467, 0, 0, 65535, 59,
    1, 16194, 468, 0, 0, 65535, 114, 1, 16201, 65535, 59, 1, 16205, 469, 0, 0,
    65535, 101, 5, 16216, 0, 0, 0, 16260, 65535, 114, 3, 16222, 0, 16249, 65535, 101,
    1, 16226, 65535, 102, 1, 16230, 65535, 111, 1, 16234, 65535, 114, 1, 16238, 65535, 101,
    1, 16242, 65535, 59, 1, 16246, 470, 0, 0, 65535, 97, 1, 16253, 65535, 59, 1,
    16257, 471, 0, 0, 65535, 99, 12, 16275, 0, 0, 0, 0, 0, 0, 0, 0,
    0, 0, 16306, 65535, 107, 1, 16279, 65535, 83, 1, 16283, 65535, 112, 1, 16287, 65535,
    97, 1, 16291, 65535, 99, 1, 16295, 65535, 101, 1, 16299, 65535, 59, 1, 16303, 472,
    0, 0, 65535, 83, 1, 16310, 65535, 112, 1, 16314, 65535, 97, 1, 16318, 65535, 99,
    1, 16322, 65535, 101, 1, 16326, 65535, 59, 1, 16330, 473, 0, 0, 65535, 108, 1,
    16337, 65535, 100, 1, 16341, 65535, 101, 1, 16345, 65535, 59, 26, 16374, 0, 0, 0,
    0, 0, 0, 0, 0, 0, 16377, 16400, 0, 0, 0, 0, 0, 0, 0, 0,
    0, 0, 0, 0, 0, 16439, 474, 0, 0, 65535, 113, 1, 16381, 65535, 117, 1,
    16385, 65535, 97, 1, 16389, 65535, 108, 1, 16393, 65535, 59, 1, 16397, 475, 0, 0,
    65535, 117, 1, 16404, 65535, 108, 1, 16408, 65535, 108, 1, 16412, 65535, 69, 1, 16416,
    65535, 113, 1, 16420, 65535, 117, 1, 16424, 65535, 97, 1, 16428, 65535, 108, 1, 16432,
    65535, 59, 1, 16436, 476, 0, 0, 65535, 105, 1, 16443, 65535, 108, 1, 16447, 65535,
    100, 1, 16451, 65535, 101, 1, 16455, 65535, 59, 1, 16459, 477, 0, 0, 65535, 112,
    1, 16466, 65535, 102, 1, 16470, 65535, 59, 1, 16474, 478, 0, 0, 65535, 105, 1,
    16481, 65535, 112, 1, 16485, 65535, 108, 1, 16489, 65535, 101, 1, 16493, 65535, 68, 1,
    16497, 65535, 111, 1, 16501, 65535, 116, 1, 16505, 65535, 59, 1, 16509, 479, 0, 0,
    65535, 99, 18, 16533, 0, 0, 0, 0, 0, 0, 0, 0, 0, 0, 0, 0,
    0, 0, 0, 0, 16544, 65535, 114, 1, 16537, 65535, 59, 1, 16541, 480, 0, 0,
    65535, 114, 1, 16548, 65535, 111, 1, 16552, 65535, 107, 1, 16556, 65535, 59, 1, 16560,
    481, 0, 0, 65535, 97, 21, 16587, 16707, 16743, 16785, 0, 16808, 16819, 0, 0, 0,
    0, 0, 16842, 16861, 17070, 17109, 0, 17616, 17635, 17650, 17673, 65535, 99, 16, 16606, 0,
    0, 0, 0, 0, 0, 0, 0, 0, 0, 0, 0, 0, 0, 16625, 65535, 117,
    1, 16610, 65535, 116, 1, 16614, 65535, 101, 1, 16618, 482, 59, 1, 16622, 482, 0,
    0, 65535, 114, 1, 16629, 65535, 59, 53, 16685, 0, 0, 0, 0, 0, 0, 0,
    0, 0, 0, 0, 0, 0, 0, 0, 0, 0, 0, 0, 0, 0, 0, 0,
    0, 0, 0, 0, 0, 0, 0, 0, 0, 0, 0, 0, 0, 0, 0, 0,
    0, 0, 0, 0, 0, 0, 0, 0, 0, 0, 0, 0, 16688, 483, 0, 0,
    65535, 99, 1, 16692, 65535, 105, 1, 16696, 65535, 114, 1, 16700, 65535, 59, 1, 16704,
    484, 0, 0, 65535, 114, 1, 16711, 65535, 99, 3, 16717, 0, 16728, 65535, 121, 1,
    16721, 65535, 59, 1, 16725, 485, 0, 0, 65535, 118, 1, 16732, 65535, 101, 1, 16736,
    65535, 59, 1, 16740, 486, 0, 0, 65535, 105, 17, 16763, 0, 0, 0, 0, 0,
    0, 0, 0, 0, 0, 0, 0, 0, 0, 0, 16778, 65535, 114, 1, 16767, 65535,
    99, 1, 16771, 487, 59, 1, 16775, 487, 0, 0, 65535, 59, 1, 16782, 488, 0,
    0, 65535, 98, 1, 16789, 65535, 108, 1, 16793, 65535, 97, 1, 16797, 65535, 99, 1,
    16801, 65535, 59, 1, 16805, 489, 0, 0, 65535, 114, 1, 16812, 65535, 59, 1, 16816,
    490, 0, 0, 65535, 114, 1, 16823, 65535, 97, 1, 16827, 65535, 118, 1, 16831, 65535,
    101, 1, 16835, 491, 59, 1, 16839, 491, 0, 0, 65535, 97, 1, 16846, 65535, 99,
    1, 16850, 65535, 114, 1, 16854, 65535, 59, 1, 16858, 492, 0, 0, 65535, 100, 6,
    16870, 0, 0, 0, 0, 17015, 65535, 101, 1, 16874, 65535, 114, 1, 16878, 65535, 66,
    15, 16896, 0, 0, 0, 0, 0, 0, 0, 0, 0, 0, 0, 0, 0, 16968,
    65535, 97, 18, 16917, 0, 0, 0, 0, 0, 0, 0, 0, 0, 0, 0, 0,
    0, 0, 0, 0, 16928, 65535, 114, 1, 16921, 65535, 59, 1, 16925, 493, 0, 0,
    65535, 97, 1, 16932, 65535, 99, 1, 16936, 65535, 101, 7, 16946, 0, 0, 0, 0,
    0, 16953, 65535, 59, 1, 16950, 494, 0, 0, 65535, 101, 1, 16957, 65535, 116, 1,
    16961, 65535, 59, 1, 16965, 495, 0, 0, 65535, 97, 1, 16972, 65535, 114, 1, 16976,
    65535, 101, 1, 16980, 65535, 110, 1, 16984, 65535, 116, 1, 16988, 65535, 104, 1, 16992,
    65535, 101, 1, 16996, 65535, 115, 1, 17000, 65535, 105, 1, 17004, 65535, 115, 1, 17008,
    65535, 59, 1, 17012, 496, 0, 0, 65535, 111, 1, 17019, 65535, 110, 1, 17023, 65535,
    59, 22, 17048, 0, 0, 0, 0, 0, 0, 0, 0, 0, 0, 0, 0, 0,
    0, 0, 0, 0, 0, 0, 0, 17051, 497, 0, 0, 65535, 108, 1, 17055, 65535,
    117, 1, 17059, 65535, 115, 1, 17063, 65535, 59, 1, 17067, 498, 0, 0, 65535, 103,
    10, 17083, 0, 0, 0, 0, 0, 0, 0, 0, 17098, 65535, 111, 1, 17087, 65535,
    110, 1, 17091, 65535, 59, 1, 17095, 499, 0, 0, 65535, 102, 1, 17102, 65535, 59,
    1, 17106, 500, 0, 0, 65535, 65, 51, 17163, 0, 0, 17249, 17288, 0, 0, 0,
    0, 0, 0, 0, 0, 0, 0, 0, 0, 0, 0, 17335, 0, 0, 0, 0,
    0, 0, 0, 0, 0, 0, 0, 0, 17379, 0, 0, 17402, 0, 0, 0, 0,
    0, 0, 0, 0, 0, 0, 0, 17441, 0, 0, 17541, 65535, 114, 1, 17167, 65535,
    114, 1, 17171, 65535, 111, 1, 17175, 65535, 119, 1, 17179, 65535, 59, 10, 17192, 0,
    0, 0, 0, 0, 0, 17195, 0, 17210, 436, 0, 0, 65535, 97, 1, 17199, 65535,
    114, 1, 17203, 65535, 59, 1, 17207, 501, 0, 0, 65535, 111, 1, 17214, 65535, 119,
    1, 17218, 65535, 110, 1, 17222, 65535, 65, 1, 17226, 65535, 114, 1, 17230, 65535, 114,
    1, 17234, 65535, 111, 1, 17238, 65535, 119, 1, 17242, 65535, 59, 1, 17246, 502, 0,
    0, 65535, 111, 1, 17253, 65535, 119, 1, 17257, 65535, 110, 1, 17261, 65535, 65, 1,
    17265, 65535, 114, 1, 17269, 65535, 114, 1, 17273, 65535, 111, 1, 17277, 65535, 119, 1,
    17281, 65535, 59, 1, 17285, 503, 0, 0, 65535, 113, 1, 17292, 65535, 117, 1, 17296,
    65535, 105, 1, 17300, 65535, 108, 1, 17304, 65535, 105, 1, 17308, 65535, 98, 1, 17312,
    65535, 114, 1, 17316, 65535, 105, 1, 17320, 65535, 117, 1, 17324, 65535, 109, 1, 17328,
    65535, 59, 1, 17332, 504, 0, 0, 65535, 101, 1, 17339, 65535, 101, 1, 17343, 65535,
    59, 7, 17353, 0, 0, 0, 0, 0, 17356, 505, 0, 0, 65535, 114, 1, 17360,
    65535, 114, 1, 17364, 65535, 111, 1, 17368, 65535, 119, 1, 17372, 65535, 59, 1, 17376,
    506, 0, 0, 65535, 114, 1, 17383, 65535, 114, 1, 17387, 65535, 111, 1, 17391, 65535,
    119, 1, 17395, 65535, 59, 1, 17399, 94, 0, 0, 65535, 111, 1, 17406, 65535, 119,
    1, 17410, 65535, 110, 1, 17414, 65535, 97, 1, 17418, 65535, 114, 1, 17422, 65535, 114,
    1, 17426, 65535, 111, 1, 17430, 65535, 119, 1, 17434, 65535, 59, 1, 17438, 95, 0,
    0, 65535, 101, 1, 17445, 65535, 114, 1, 17449, 65535, 76, 7, 17459, 0, 0, 0,
    0, 0, 17498, 65535, 101, 1, 17463, 65535, 102, 1, 17467, 65535, 116, 1, 17471, 65535,
    65, 1, 17475, 65535, 114, 1, 17479, 65535, 114, 1, 17483, 65535, 111, 1, 17487, 65535,
    119, 1, 17491, 65535, 59, 1, 17495, 507, 0, 0, 65535, 105, 1, 17502, 65535, 103,
    1, 17506, 65535, 104, 1, 17510, 65535, 116, 1, 17514, 65535, 65, 1, 17518, 65535, 114,
    1, 17522, 65535, 114, 1, 17526, 65535, 111, 1, 17530, 65535, 119, 1, 17534, 65535, 59,
    1, 17538, 508, 0, 0, 65535, 105, 1, 17545, 65535, 59, 50, 17598, 0, 0, 0,
    0, 0, 0, 0, 0, 0, 0, 0, 0, 0, 0, 0, 0, 0, 0, 0,
    0, 0, 0, 0, 0, 0, 0, 0, 0, 0, 0, 0, 0, 0, 0, 0,
    0, 0, 0, 0, 0, 0, 0, 0, 0, 0, 0, 0, 0, 17601, 509, 0,
    0, 65535, 111, 1, 17605, 65535, 110, 1, 17609, 65535, 59, 1, 17613, 510, 0, 0,
    65535, 105, 1, 17620, 65535, 110, 1, 17624, 65535, 103, 1, 17628, 65535, 59, 1, 17632,
    511, 0, 0, 65535, 99, 1, 17639, 65535, 114, 1, 17643, 65535, 59, 1, 17647, 512,
    0, 0, 65535, 105, 1, 17654, 65535, 108, 1, 17658, 65535, 100, 1, 17662, 65535, 101,
    1, 17666, 65535, 59, 1, 17670, 513, 0, 0, 65535, 109, 1, 17677, 65535, 108, 1,
    17681, 514, 59, 1, 17685, 514, 0, 0, 65535, 68, 51, 17742, 0, 0, 0, 0,
    0, 0, 0, 0, 0, 0, 0, 0, 0, 0, 0, 0, 0, 0, 0, 0,
    0, 0, 0, 0, 0, 0, 0, 0, 0, 17761, 17776, 17787, 17862, 18154, 0, 0,
    0, 0, 0, 0, 0, 0, 18165, 0, 0, 0, 18180, 0, 0, 18195, 65535, 97,
    1, 17746, 65535, 115, 1, 17750, 65535, 104, 1, 17754, 65535, 59, 1, 17758, 515, 0,
    0, 65535, 97, 1, 17765, 65535, 114, 1, 17769, 65535, 59, 1, 17773, 516, 0, 0,
    65535, 121, 1, 17780, 65535, 59, 1, 17784, 517, 0, 0, 65535, 97, 1, 17791, 65535,
    115, 1, 17795, 65535, 104, 1, 17799, 65535, 59, 50, 17852, 0, 0, 0, 0, 0,
    0, 0, 0, 0, 0, 0, 0, 0, 0, 0, 0, 0, 0, 0, 0, 0,
    0, 0, 0, 0, 0, 0, 0, 0, 0, 0, 0, 0, 0, 0, 0, 0,
    0, 0, 0, 0, 0, 0, 0, 0, 0, 0, 0, 17855, 518, 0, 0, 65535,
    59, 1, 17859, 519, 0, 0, 65535, 101, 14, 17879, 0, 0, 0, 0, 0, 0,
    0, 0, 0, 0, 0, 0, 17886, 65535, 59, 1, 17883, 520, 0, 0, 65535, 98,
    24, 17913, 0, 0, 0, 0, 0, 0, 0, 0, 0, 0, 0, 0, 0, 0,
    0, 0, 0, 17928, 0, 0, 0, 0, 18111, 65535, 97, 1, 17917, 65535, 114, 1,
];

/// Entry `i` of this part; 0 where the part has no such entry.
#[verifier::opaque]
pub open spec fn cell(i: int) -> u16 {
    if 0 <= i < 2560 {
        CELLS[i]
    } else {
        0
    }
}

/// Reads entry `i` of this part.
pub fn read_cell(i: usize) -> (entry: u16)
    ensures
        entry == cell(i as int),
{
    reveal(cell);
    if i < 2560 {
        CELLS[i]
    } else {
        0
    }
}

} // verus!
