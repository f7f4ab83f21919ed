//! Cells 12800 to 15359 of the trie table.
use vstd::prelude::*;

verus! {

/// The entries of this part, in order.
pub const CELLS: [u16; 2560] = [
    12801, 65535, 110, 1, 12805, 65535, 116, 1, 12809, 65535, 69, 1, 12813, 65535, 113, 1,
    12817, 65535, 117, 1, 12821, 65535, 97, 1, 12825, 65535, 108, 1, 12829, 65535, 59, 1,
    12833, 373, 0, 0, 65535, 105, 1, 12840, 65535, 108, 1, 12844, 65535, 100, 1, 12848,
    65535, 101, 1, 12852, 65535, 59, 1, 12856, 374, 0, 0, 65535, 109, 1, 12863, 65535,
    101, 1, 12867, 65535, 59, 1, 12871, 375, 0, 0, 65535, 100, 13, 12890, 0, 0,
    0, 0, 0, 0, 0, 0, 0, 0, 0, 12909, 65535, 117, 1, 12894, 65535, 99,
    1, 12898, 65535, 116, 1, 12902, 65535, 59, 1, 12906, 376, 0, 0, 65535, 111, 1,
    12913, 65535, 114, 1, 12917, 65535, 116, 1, 12921, 65535, 105, 1, 12925, 65535, 111, 1,
    12929, 65535, 110, 1, 12933, 65535, 59, 39, 12975, 0, 0, 0, 0, 0, 0, 0,
    0, 0, 0, 0, 0, 0, 0, 0, 0, 0, 0, 0, 0, 0, 0, 0,
    0, 0, 0, 0, 0, 0, 0, 0, 0, 0, 0, 0, 0, 0, 12978, 51,
    0, 0, 65535, 108, 1, 12982, 65535, 59, 1, 12986, 377, 0, 0, 65535, 99, 7,
    12999, 0, 0, 0, 0, 0, 13010, 65535, 114, 1, 13003, 65535, 59, 1, 13007, 378,
    0, 0, 65535, 59, 1, 13014, 379, 0, 0, 65535, 85, 31, 13051, 0, 0, 0,
    0, 0, 0, 0, 0, 0, 0, 0, 0, 0, 0, 0, 0, 13066, 0, 0,
    0, 0, 0, 0, 0, 0, 13077, 0, 0, 0, 13092, 65535, 79, 1, 13055, 65535,
    84, 1, 13059, 380, 59, 1, 13063, 380, 0, 0, 65535, 114, 1, 13070, 65535, 59,
    1, 13074, 381, 0, 0, 65535, 112, 1, 13081, 65535, 102, 1, 13085, 65535, 59, 1,
    13089, 382, 0, 0, 65535, 99, 1, 13096, 65535, 114, 1, 13100, 65535, 59, 1, 13104,
    383, 0, 0, 65535, 66, 52, 13162, 0, 0, 13181, 0, 0, 0, 0, 0, 0,
    0, 0, 0, 0, 0, 0, 0, 0, 0, 0, 0, 0, 0, 0, 0, 0,
    0, 0, 0, 0, 0, 13192, 0, 13320, 0, 13393, 13629, 0, 13640, 13651, 0, 0,
    0, 0, 0, 14466, 0, 0, 14529, 14572, 0, 14599, 65535, 97, 1, 13166, 65535, 114,
    1, 13170, 65535, 114, 1, 13174, 65535, 59, 1, 13178, 384, 0, 0, 65535, 71, 1,
    13185, 385, 59, 1, 13189, 385, 0, 0, 65535, 99, 16, 13211, 0, 0, 0, 0,
    0, 0, 0, 0, 0, 0, 13230, 0, 0, 0, 13241, 65535, 117, 1, 13215, 65535,
    116, 1, 13219, 65535, 101, 1, 13223, 65535, 59, 1, 13227, 386, 0, 0, 65535, 103,
    1, 13234, 65535, 59, 1, 13238, 387, 0, 0, 65535, 114, 1, 13245, 65535, 59, 58,
    13306, 0, 0, 0, 0, 0, 0, 0, 0, 0, 0, 0, 0, 0, 0, 0,
    0, 0, 0, 0, 0, 0, 0, 0, 0, 0, 0, 0, 0, 0, 0, 0,
    0, 0, 0, 0, 0, 0, 0, 0, 0, 0, 0, 0, 0, 0, 0, 0,
    0, 0, 0, 0, 0, 0, 0, 0, 0, 13309, 388, 0, 0, 65535, 108, 1,
    13313, 65535, 59, 1, 13317, 389, 0, 0, 65535, 97, 25, 13348, 0, 0, 0, 13367,
    0, 0, 0, 0, 0, 0, 0, 0, 0, 0, 0, 0, 0, 0, 0, 0,
    0, 0, 0, 13386, 65535, 114, 1, 13352, 65535, 111, 1, 13356, 65535, 110, 1, 13360,
    65535, 59, 1, 13364, 390, 0, 0, 65535, 100, 1, 13371, 65535, 105, 1, 13375, 65535,
    108, 1, 13379, 65535, 59, 1, 13383, 391, 0, 0, 65535, 59, 1, 13390, 392, 0,
    0, 65535, 59, 60, 13456, 0, 0, 0, 0, 0, 0, 0, 0, 0, 0, 0,
    0, 0, 0, 0, 0, 0, 0, 0, 0, 0, 0, 0, 0, 0, 0, 0,
    0, 0, 0, 0, 0, 0, 0, 0, 0, 0, 0, 0, 0, 0, 0, 0,
    0, 0, 0, 0, 0, 0, 0, 0, 0, 0, 0, 0, 0, 0, 0, 13459,
    393, 0, 0, 65535, 101, 1, 13463, 65535, 114, 1, 13467, 65535, 115, 1, 13471, 65535,
    101, 1, 13475, 65535, 69, 17, 13495, 0, 0, 0, 0, 0, 0, 0, 0, 0,
    0, 0, 0, 0, 0, 0, 13574, 65535, 108, 6, 13504, 0, 0, 0, 0, 13531,
    65535, 101, 1, 13508, 65535, 109, 1, 13512, 65535, 101, 1, 13516, 65535, 110, 1, 13520,
    65535, 116, 1, 13524, 65535, 59, 1, 13528, 394, 0, 0, 65535, 117, 1, 13535, 65535,
    105, 1, 13539, 65535, 108, 1, 13543, 65535, 105, 1, 13547, 65535, 98, 1, 13551, 65535,
    114, 1, 13555, 65535, 105, 1, 13559, 65535, 117, 1, 13563, 65535, 109, 1, 13567, 65535,
    59, 1, 13571, 395, 0, 0, 65535, 112, 1, 13578, 65535, 69, 1, 13582, 65535, 113,
    1, 13586, 65535, 117, 1, 13590, 65535, 105, 1, 13594, 65535, 108, 1, 13598, 65535, 105,
    1, 13602, 65535, 98, 1, 13606, 65535, 114, 1, 13610, 65535, 105, 1, 13614, 65535, 117,
    1, 13618, 65535, 109, 1, 13622, 65535, 59, 1, 13626, 396, 0, 0, 65535, 114, 1,
    13633, 65535, 59, 1, 13637, 393, 0, 0, 65535, 111, 1, 13644, 65535, 59, 1, 13648,
    397, 0, 0, 65535, 103, 1, 13655, 65535, 104, 1, 13659, 65535, 116, 1, 13663, 65535,
    65, 33, 13699, 0, 13844, 13875, 0, 14030, 0, 0, 0, 0, 0, 0, 0, 0,
    0, 0, 0, 0, 0, 14053, 14237, 14394, 0, 0, 0, 0, 0, 0, 0, 0,
    0, 0, 14443, 65535, 110, 5, 13707, 0, 0, 0, 13754, 65535, 103, 1, 13711, 65535,
    108, 1, 13715, 65535, 101, 1, 13719, 65535, 66, 1, 13723, 65535, 114, 1, 13727, 65535,
    97, 1, 13731, 65535, 99, 1, 13735, 65535, 107, 1, 13739, 65535, 101, 1, 13743, 65535,
    116, 1, 13747, 65535, 59, 1, 13751, 398, 0, 0, 65535, 114, 1, 13758, 65535, 111,
    1, 13762, 65535, 119, 1, 13766, 65535, 59, 18, 13787, 0, 0, 0, 0, 0, 0,
    13790, 0, 0, 0, 0, 0, 0, 0, 0, 0, 13805, 399, 0, 0, 65535, 97,
    1, 13794, 65535, 114, 1, 13798, 65535, 59, 1, 13802, 400, 0, 0, 65535, 101, 1,
    13809, 65535, 102, 1, 13813, 65535, 116, 1, 13817, 65535, 65, 1, 13821, 65535, 114, 1,
    13825, 65535, 114, 1, 13829, 65535, 111, 1, 13833, 65535, 119, 1, 13837, 65535, 59, 1,
    13841, 401, 0, 0, 65535, 101, 1, 13848, 65535, 105, 1, 13852, 65535, 108, 1, 13856,
    65535, 105, 1, 13860, 65535, 110, 1, 13864, 65535, 103, 1, 13868, 65535, 59, 1, 13872,
    402, 0, 0, 65535, 111, 1, 13879, 65535, 117, 3, 13885, 0, 13932, 65535, 98, 1,
    13889, 65535, 108, 1, 13893, 65535, 101, 1, 13897, 65535, 66, 1, 13901, 65535, 114, 1,
    13905, 65535, 97, 1, 13909, 65535, 99, 1, 13913, 65535, 107, 1, 13917, 65535, 101, 1,
    13921, 65535, 116, 1, 13925, 65535, 59, 1, 13929, 403, 0, 0, 65535, 110, 1, 13936,
    65535, 84, 3, 13942, 0, 13981, 65535, 101, 1, 13946, 65535, 101, 1, 13950, 65535, 86,
    1, 13954, 65535, 101, 1, 13958, 65535, 99, 1, 13962, 65535, 116, 1, 13966, 65535, 111,
    1, 13970, 65535, 114, 1, 13974, 65535, 59, 1, 13978, 404, 0, 0, 65535, 101, 1,
    13985, 65535, 99, 1, 13989, 65535, 116, 1, 13993, 65535, 111, 1, 13997, 65535, 114, 1,
    14001, 65535, 59, 8, 14012, 0, 0, 0, 0, 0, 0, 14015, 405, 0, 0, 65535,
    97, 1, 14019, 65535, 114, 1, 14023, 65535, 59, 1, 14027, 406, 0, 0, 65535, 108,
    1, 14034, 65535, 111, 1, 14038, 65535, 111, 1, 14042, 65535, 114, 1, 14046, 65535, 59,
    1, 14050, 407, 0, 0, 65535, 101, 14, 14070, 0, 0, 0, 0, 0, 0, 0,
    0, 0, 0, 0, 0, 14158, 65535, 101, 1, 14074, 65535, 59, 28, 14105, 0, 0,
    0, 0, 0, 14108, 0, 0, 0, 0, 0, 0, 0, 0, 0, 0, 0, 0,
    0, 0, 0, 0, 0, 0, 0, 0, 14131, 408, 0, 0, 65535, 114, 1, 14112,
    65535, 114, 1, 14116, 65535, 111, 1, 14120, 65535, 119, 1, 14124, 65535, 59, 1, 14128,
    409, 0, 0, 65535, 101, 1, 14135, 65535, 99, 1, 14139, 65535, 116, 1, 14143, 65535,
    111, 1, 14147, 65535, 114, 1, 14151, 65535, 59, 1, 14155, 410, 0, 0, 65535, 105,
    1, 14162, 65535, 97, 1, 14166, 65535, 110, 1, 14170, 65535, 103, 1, 14174, 65535, 108,
    1, 14178, 65535, 101, 1, 14182, 65535, 59, 11, 14196, 0, 0, 0, 0, 0, 0,
    14199, 0, 0, 14214, 411, 0, 0, 65535, 97, 1, 14203, 65535, 114, 1, 14207, 65535,
    59, 1, 14211, 412, 0, 0, 65535, 113, 1, 14218, 65535, 117, 1, 14222, 65535, 97,
    1, 14226, 65535, 108, 1, 14230, 65535, 59, 1, 14234, 413, 0, 0, 65535, 112, 1,
    14241, 65535, 68, 19, 14263, 0, 0, 0, 0, 0, 0, 0, 0, 0, 0, 0,
    0, 0, 0, 0, 14306, 0, 14345, 65535, 111, 1, 14267, 65535, 119, 1, 14271, 65535,
    110, 1, 14275, 65535, 86, 1, 14279, 65535, 101, 1, 14283, 65535, 99, 1, 14287, 65535,
    116, 1, 14291, 65535, 111, 1, 14295, 65535, 114, 1, 14299, 65535, 59, 1, 14303, 414,
    0, 0, 65535, 101, 1, 14310, 65535, 101, 1, 14314, 65535, 86, 1, 14318, 65535, 101,
    1, 14322, 65535, 99, 1, 14326, 65535, 116, 1, 14330, 65535, 111, 1, 14334, 65535, 114,
    1, 14338, 65535, 59, 1, 14342, 415, 0, 0, 65535, 101, 1, 14349, 65535, 99, 1,
    14353, 65535, 116, 1, 14357, 65535, 111, 1, 14361, 65535, 114, 1, 14365, 65535, 59, 8,
    14376, 0, 0, 0, 0, 0, 0, 14379, 416, 0, 0, 65535, 97, 1, 14383, 65535,
    114, 1, 14387, 65535, 59, 1, 14391, 417, 0, 0, 65535, 101, 1, 14398, 65535, 99,
    1, 14402, 65535, 116, 1, 14406, 65535, 111, 1, 14410, 65535, 114, 1, 14414, 65535, 59,
    8, 14425, 0, 0, 0, 0, 0, 0, 14428, 418, 0, 0, 65535, 97, 1, 14432,
    65535, 114, 1, 14436, 65535, 59, 1, 14440, 419, 0, 0, 65535, 114, 1, 14447, 65535,
    114, 1, 14451, 65535, 111, 1, 14455, 65535, 119, 1, 14459, 65535, 59, 1, 14463, 92,
    0, 0, 65535, 112, 6, 14475, 0, 0, 0, 0, 14486, 65535, 102, 1, 14479, 65535,
    59, 1, 14483, 420, 0, 0, 65535, 110, 1, 14490, 65535, 100, 1, 14494, 65535, 73,
    1, 14498, 65535, 109, 1, 14502, 65535, 112, 1, 14506, 65535, 108, 1, 14510, 65535, 105,
    1, 14514, 65535, 101, 1, 14518, 65535, 115, 1, 14522, 65535, 59, 1, 14526, 421, 0,
    0, 65535, 105, 1, 14533, 65535, 103, 1, 14537, 65535, 104, 1, 14541, 65535, 116, 1,
    14545, 65535, 97, 1, 14549, 65535, 114, 1, 14553, 65535, 114, 1, 14557, 65535, 111, 1,
    14561, 65535, 119, 1, 14565, 65535, 59, 1, 14569, 422, 0, 0, 65535, 99, 6, 14581,
    0, 0, 0, 0, 14592, 65535, 114, 1, 14585, 65535, 59, 1, 14589, 423, 0, 0,
    65535, 59, 1, 14596, 424, 0, 0, 65535, 108, 1, 14603, 65535, 101, 1, 14607, 65535,
    68, 1, 14611, 65535, 101, 1, 14615, 65535, 108, 1, 14619, 65535, 97, 1, 14623, 65535,
    121, 1, 14627, 65535, 101, 1, 14631, 65535, 100, 1, 14635, 65535, 59, 1, 14639, 425,
    0, 0, 65535, 72, 46, 14691, 0, 0, 0, 0, 0, 0, 14757, 0, 0, 0,
    0, 0, 0, 0, 0, 0, 0, 0, 0, 0, 0, 0, 0, 0, 14780, 0,
    14803, 0, 0, 14932, 0, 14943, 15128, 0, 0, 0, 15147, 0, 15190, 0, 15205, 0,
    15476, 15491, 15506, 65535, 67, 33, 14727, 0, 0, 0, 0, 0, 0, 0, 0, 0,
    0, 0, 0, 0, 0, 0, 0, 0, 0, 0, 0, 0, 0, 0, 0, 0,
    0, 0, 0, 0, 0, 0, 14746, 65535, 72, 1, 14731, 65535, 99, 1, 14735, 65535,
    121, 1, 14739, 65535, 59, 1, 14743, 426, 0, 0, 65535, 121, 1, 14750, 65535, 59,
    1, 14754, 427, 0, 0, 65535, 70, 1, 14761, 65535, 84, 1, 14765, 65535, 99, 1,
    14769, 65535, 121, 1, 14773, 65535, 59, 1, 14777, 428, 0, 0, 65535, 99, 1, 14784,
    65535, 117, 1, 14788, 65535, 116, 1, 14792, 65535, 101, 1, 14796, 65535, 59, 1, 14800,
    429, 0, 0, 65535, 59, 63, 14869, 0, 0, 0, 0, 0, 0, 0, 0, 0,
    0, 0, 0, 0, 0, 0, 0, 0, 0, 0, 0, 0, 0, 0, 0, 0,
    0, 0, 0, 0, 0, 0, 0, 0, 0, 0, 0, 0, 14872, 0, 0, 0,
    14891, 0, 0, 0, 14910, 0, 0, 0, 0, 0, 0, 0, 0, 0, 0, 0,
    0, 0, 0, 0, 14925, 430, 0, 0, 65535, 114, 1, 14876, 65535, 111, 1, 14880,
    65535, 110, 1, 14884, 65535, 59, 1, 14888, 431, 0, 0, 65535, 100, 1, 14895, 65535,
    105, 1, 14899, 65535, 108, 1, 14903, 65535, 59, 1, 14907, 432, 0, 0, 65535, 114,
    1, 14914, 65535, 99, 1, 14918, 65535, 59, 1, 14922, 433, 0, 0, 65535, 59, 1,
    14929, 434, 0, 0, 65535, 114, 1, 14936, 65535, 59, 1, 14940, 435, 0, 0, 65535,
    111, 1, 14947, 65535, 114, 1, 14951, 65535, 116, 1, 14955, 65535, 68, 18, 14976, 0,
    0, 0, 0, 0, 0, 0, 15015, 0, 0, 0, 0, 0, 15054, 0, 0, 15097,
    65535, 111, 1, 14980, 65535, 119, 1, 14984, 65535, 110, 1, 14988, 65535, 65, 1, 14992,
    65535, 114, 1, 14996, 65535, 114, 1, 15000, 65535, 111, 1, 15004, 65535, 119, 1, 15008,
    65535, 59, 1, 15012, 97, 0, 0, 65535, 101, 1, 15019, 65535, 102, 1, 15023, 65535,
    116, 1, 15027, 65535, 65, 1, 15031, 65535, 114, 1, 15035, 65535, 114, 1, 15039, 65535,
    111, 1, 15043, 65535, 119, 1, 15047, 65535, 59, 1, 15051, 224, 0, 0, 65535, 105,
    1, 15058, 65535, 103, 1, 15062, 65535, 104, 1, 15066, 65535, 116, 1, 15070, 65535, 65,
    1, 15074, 65535, 114, 1, 15078, 65535, 114, 1, 15082, 65535, 111, 1, 15086, 65535, 119,
    1, 15090, 65535, 59, 1, 15094, 399, 0, 0, 65535, 112, 1, 15101, 65535, 65, 1,
    15105, 65535, 114, 1, 15109, 65535, 114, 1, 15113, 65535, 111, 1, 15117, 65535, 119, 1,
    15121, 65535, 59, 1, 15125, 436, 0, 0, 65535, 103, 1, 15132, 65535, 109, 1, 15136,
    65535, 97, 1, 15140, 65535, 59, 1, 15144, 437, 0, 0, 65535, 97, 1, 15151, 65535,
    108, 1, 15155, 65535, 108, 1, 15159, 65535, 67, 1, 15163, 65535, 105, 1, 15167, 65535,
    114, 1, 15171, 65535, 99, 1, 15175, 65535, 108, 1, 15179, 65535, 101, 1, 15183, 65535,
    59, 1, 15187, 438, 0, 0, 65535, 112, 1, 15194, 65535, 102, 1, 15198, 65535, 59,
    1, 15202, 439, 0, 0, 65535, 114, 4, 15212, 0, 0, 15223, 65535, 116, 1, 15216,
    65535, 59, 1, 15220, 440, 0, 0, 65535, 97, 1, 15227, 65535, 114, 1, 15231, 65535,
    101, 1, 15235, 65535, 59, 27, 15265, 0, 0, 0, 0, 0, 0, 0, 0, 0,
    0, 0, 0, 0, 15268, 0, 0, 0, 0, 0, 0, 0, 0, 0, 15319, 0,
    15453, 441, 0, 0, 65535, 110, 1, 15272, 65535, 116, 1, 15276, 65535, 101, 1, 15280,
    65535, 114, 1, 15284, 65535, 115, 1, 15288, 65535, 101, 1, 15292, 65535, 99, 1, 15296,
    65535, 116, 1, 15300, 65535, 105, 1, 15304, 65535, 111, 1, 15308, 65535, 110, 1, 15312,
    65535, 59, 1, 15316, 442, 0, 0, 65535, 117, 1, 15323, 65535, 98, 15, 15341, 0,
    0, 0, 0, 0, 0, 0, 0, 0, 0, 0, 0, 0, 15393, 65535, 115, 1,
    15345, 65535, 101, 1, 15349, 65535, 116, 1, 15353, 65535, 59, 11, 15367, 0, 0, 0,
];

/// Entry `i` of this part; 0 where the part has no such entry.
#[verifier::opaque]
pub open spec fn cell(i: int) -> u16 {
    if 0 <= i < 2560 {
        CELLS[i]
    } else {
        0
    }
}

/// Reads entry `i` of this part.
pub fn read_cell(i: usize) -> (entry: u16)
    ensures
        entry == cell(i as int),
{
    reveal(cell);
    if i < 2560 {
        CELLS[i]
    } else {
        0
    }
}

} // verus!
