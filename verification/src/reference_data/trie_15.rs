//! Cells 38400 to 40959 of the trie table.
use vstd::prelude::*;

verus! {

/// The entries of this part, in order.
pub const CELLS: [u16; 2560] = [
    59, 1, 38403, 1032, 0, 0, 65535, 109, 1, 38410, 65535, 101, 1, 38414, 65535, 115,
    1, 38418, 65535, 59, 1, 38422, 1077, 0, 0, 65535, 97, 1, 38429, 65535, 114, 1,
    38433, 65535, 114, 1, 38437, 65535, 59, 1, 38441, 1078, 0, 0, 65535, 117, 1, 38448,
    65535, 101, 1, 38452, 65535, 115, 1, 38456, 65535, 116, 1, 38460, 65535, 59, 1, 38464,
    1079, 0, 0, 65535, 80, 26, 38496, 0, 0, 0, 0, 0, 0, 0, 0, 0,
    0, 0, 0, 0, 0, 0, 0, 0, 0, 0, 0, 0, 0, 0, 0, 38511,
    65535, 97, 1, 38500, 65535, 114, 1, 38504, 65535, 59, 1, 38508, 1080, 0, 0, 65535,
    59, 44, 38558, 0, 0, 0, 0, 0, 0, 0, 0, 0, 0, 0, 0, 0,
    0, 0, 0, 0, 0, 0, 0, 0, 0, 0, 0, 0, 0, 0, 0, 0,
    0, 0, 0, 0, 0, 0, 0, 0, 0, 0, 0, 0, 38561, 38568, 1081, 0,
    0, 65535, 59, 1, 38565, 240, 0, 0, 65535, 59, 1, 38572, 636, 0, 0, 65535,
    114, 1, 38579, 65535, 100, 18, 38600, 0, 0, 0, 0, 0, 0, 0, 0, 0,
    0, 0, 0, 0, 0, 0, 0, 38623, 65535, 115, 1, 38604, 65535, 104, 1, 38608,
    65535, 97, 1, 38612, 65535, 114, 1, 38616, 65535, 59, 1, 38620, 1082, 0, 0, 65535,
    104, 1, 38627, 65535, 97, 1, 38631, 65535, 114, 1, 38635, 65535, 59, 1, 38639, 1083,
    0, 0, 65535, 101, 10, 38655, 0, 0, 0, 0, 0, 0, 0, 0, 38686, 65535,
    114, 1, 38659, 65535, 116, 1, 38663, 65535, 110, 1, 38667, 65535, 101, 1, 38671, 65535,
    113, 1, 38675, 65535, 113, 1, 38679, 65535, 59, 1, 38683, 1084, 0, 0, 65535, 69,
    1, 38690, 65535, 59, 1, 38694, 1084, 0, 0, 65535, 68, 50, 38750, 0, 0, 0,
    0, 0, 0, 0, 0, 0, 0, 0, 0, 0, 0, 0, 0, 0, 0, 0,
    0, 0, 0, 0, 0, 0, 0, 0, 0, 38769, 0, 39093, 39133, 39152, 39203, 0,
    39214, 39225, 0, 0, 39483, 0, 39510, 39533, 39579, 0, 0, 39586, 0, 39637, 65535, 68,
    1, 38754, 65535, 111, 1, 38758, 65535, 116, 1, 38762, 65535, 59, 1, 38766, 1085, 0,
    0, 65535, 99, 16, 38788, 0, 0, 0, 0, 0, 0, 0, 0, 38799, 0, 0,
    0, 38889, 0, 39074, 65535, 114, 1, 38792, 1086, 59, 1, 38796, 1086, 0, 0, 65535,
    101, 16, 38818, 0, 0, 0, 0, 0, 0, 0, 0, 0, 0, 0, 0, 0,
    0, 38825, 65535, 59, 1, 38822, 1087, 0, 0, 65535, 59, 43, 38871, 0, 0, 0,
    0, 0, 0, 0, 0, 0, 0, 0, 0, 0, 0, 0, 0, 0, 0, 0,
    0, 0, 0, 0, 0, 0, 0, 0, 0, 0, 0, 0, 0, 0, 0, 0,
    0, 0, 0, 0, 0, 0, 38874, 1088, 0, 0, 65535, 115, 1, 38878, 65535, 101,
    1, 38882, 65535, 59, 1, 38886, 1088, 0, 0, 65535, 59, 57, 38949, 0, 0, 0,
    0, 0, 0, 0, 0, 0, 0, 0, 0, 0, 0, 0, 0, 0, 0, 0,
    0, 0, 0, 0, 0, 0, 0, 0, 0, 0, 0, 0, 0, 0, 0, 0,
    0, 0, 0, 0, 0, 0, 0, 0, 0, 0, 0, 0, 0, 0, 0, 0,
    0, 0, 0, 0, 38952, 409, 0, 0, 65535, 116, 1, 38956, 65535, 111, 1, 38960,
    65535, 59, 59, 39022, 0, 0, 0, 0, 0, 0, 0, 0, 0, 0, 0, 0,
    0, 0, 0, 0, 0, 0, 0, 0, 0, 0, 0, 0, 0, 0, 0, 0,
    0, 0, 0, 0, 0, 0, 0, 0, 0, 0, 0, 0, 39025, 0, 0, 0,
    0, 0, 0, 0, 39044, 0, 0, 0, 0, 0, 0, 0, 0, 39063, 409, 0,
    0, 65535, 111, 1, 39029, 65535, 119, 1, 39033, 65535, 110, 1, 39037, 65535, 59, 1,
    39041, 109, 0, 0, 65535, 101, 1, 39048, 65535, 102, 1, 39052, 65535, 116, 1, 39056,
    65535, 59, 1, 39060, 236, 0, 0, 65535, 112, 1, 39067, 65535, 59, 1, 39071, 506,
    0, 0, 65535, 107, 1, 39078, 65535, 101, 1, 39082, 65535, 114, 1, 39086, 65535, 59,
    1, 39090, 1089, 0, 0, 65535, 111, 11, 39107, 0, 0, 0, 0, 0, 0, 0,
    0, 0, 39126, 65535, 109, 1, 39111, 65535, 109, 1, 39115, 65535, 97, 1, 39119, 65535,
    59, 1, 39123, 1090, 0, 0, 65535, 59, 1, 39130, 1091, 0, 0, 65535, 97, 1,
    39137, 65535, 115, 1, 39141, 65535, 104, 1, 39145, 65535, 59, 1, 39149, 1092, 0, 0,
    65535, 97, 1, 39156, 65535, 115, 1, 39160, 65535, 117, 1, 39164, 65535, 114, 1, 39168,
    65535, 101, 1, 39172, 65535, 100, 1, 39176, 65535, 97, 1, 39180, 65535, 110, 1, 39184,
    65535, 103, 1, 39188, 65535, 108, 1, 39192, 65535, 101, 1, 39196, 65535, 59, 1, 39200,
    580, 0, 0, 65535, 114, 1, 39207, 65535, 59, 1, 39211, 1093, 0, 0, 65535, 111,
    1, 39218, 65535, 59, 1, 39222, 1094, 0, 0, 65535, 99, 12, 39240, 39255, 0, 0,
    0, 0, 0, 0, 0, 0, 0, 39348, 65535, 114, 1, 39244, 65535, 111, 1, 39248,
    1095, 59, 1, 39252, 1095, 0, 0, 65535, 59, 42, 39300, 0, 0, 0, 0, 0,
    0, 0, 0, 0, 0, 0, 0, 0, 0, 0, 0, 0, 0, 0, 0, 0,
    0, 0, 0, 0, 0, 0, 0, 0, 0, 0, 0, 0, 0, 0, 0, 0,
    39303, 0, 39318, 39333, 522, 0, 0, 65535, 115, 1, 39307, 65535, 116, 1, 39311, 65535,
    59, 1, 39315, 603, 0, 0, 65535, 105, 1, 39322, 65535, 114, 1, 39326, 65535, 59,
    1, 39330, 1096, 0, 0, 65535, 111, 1, 39337, 65535, 116, 1, 39341, 42, 59, 1,
    39345, 42, 0, 0, 65535, 117, 1, 39352, 65535, 115, 1, 39356, 65535, 59, 42, 39401,
    0, 0, 0, 0, 0, 0, 0, 0, 0, 0, 0, 0, 0, 0, 0, 0,
    0, 0, 0, 0, 0, 0, 0, 0, 0, 0, 0, 0, 0, 0, 0, 0,
    0, 0, 0, 0, 0, 0, 39404, 0, 39411, 1097, 0, 0, 65535, 59, 1, 39408,
    677, 0, 0, 65535, 59, 59, 39473, 0, 0, 0, 0, 0, 0, 0, 0, 0,
    0, 0, 0, 0, 0, 0, 0, 0, 0, 0, 0, 0, 0, 0, 0, 0,
    0, 0, 0, 0, 0, 0, 0, 0, 0, 0, 0, 0, 0, 0, 0, 0,
    0, 0, 0, 0, 0, 0, 0, 0, 0, 0, 0, 0, 0, 0, 0, 0,
    39476, 795, 0, 0, 65535, 59, 1, 39480, 1098, 0, 0, 65535, 99, 2, 39488, 39499,
    65535, 112, 1, 39492, 65535, 59, 1, 39496, 1099, 0, 0, 65535, 114, 1, 39503, 65535,
    59, 1, 39507, 929, 0, 0, 65535, 112, 1, 39514, 65535, 108, 1, 39518, 65535, 117,
    1, 39522, 65535, 115, 1, 39526, 65535, 59, 1, 39530, 271, 0, 0, 65535, 100, 13,
    39549, 0, 0, 0, 0, 0, 0, 0, 0, 0, 0, 0, 39568, 65535, 101, 1,
    39553, 65535, 108, 1, 39557, 65535, 115, 1, 39561, 65535, 59, 1, 39565, 1100, 0, 0,
    65535, 102, 1, 39572, 65535, 59, 1, 39576, 1101, 0, 0, 65535, 59, 1, 39583, 271,
    0, 0, 65535, 99, 18, 39607, 0, 0, 0, 0, 0, 0, 0, 0, 0, 0,
    0, 0, 0, 0, 0, 0, 39618, 65535, 114, 1, 39611, 65535, 59, 1, 39615, 1102,
    0, 0, 65535, 112, 1, 39622, 65535, 111, 1, 39626, 65535, 115, 1, 39630, 65535, 59,
    1, 39634, 561, 0, 0, 65535, 59, 51, 39691, 0, 0, 0, 0, 0, 0, 0,
    0, 0, 0, 0, 0, 0, 0, 0, 0, 0, 0, 0, 0, 0, 0, 0,
    0, 0, 0, 0, 0, 0, 0, 0, 0, 0, 0, 0, 0, 0, 0, 0,
    0, 0, 0, 0, 0, 0, 0, 0, 0, 39694, 39721, 1103, 0, 0, 65535, 116,
    1, 39698, 65535, 105, 1, 39702, 65535, 109, 1, 39706, 65535, 97, 1, 39710, 65535, 112,
    1, 39714, 65535, 59, 1, 39718, 1104, 0, 0, 65535, 97, 1, 39725, 65535, 112, 1,
    39729, 65535, 59, 1, 39733, 1104, 0, 0, 65535, 71, 49, 39788, 0, 0, 0, 0,
    39885, 0, 0, 0, 0, 0, 40079, 0, 0, 0, 40122, 0, 0, 0, 0, 0,
    0, 0, 0, 0, 0, 40196, 40498, 40579, 40743, 40762, 41094, 41105, 41410, 41506, 41634, 0,
    41649, 42206, 0, 42221, 42514, 0, 42838, 43100, 43975, 44213, 44359, 44792, 65535, 103, 14, 39805,
    0, 0, 0, 0, 0, 0, 0, 0, 0, 0, 0, 0, 39812, 65535, 59, 1,
    39809, 1105, 0, 0, 65535, 59, 60, 39875, 0, 0, 0, 0, 0, 0, 0, 0,
    0, 0, 0, 0, 0, 0, 0, 0, 0, 0, 0, 0, 0, 0, 0, 0,
    0, 0, 0, 0, 0, 0, 0, 0, 0, 0, 0, 0, 0, 0, 0, 0,
    0, 0, 0, 0, 0, 0, 0, 0, 0, 0, 0, 0, 0, 0, 0, 0,
    0, 0, 39878, 1106, 0, 0, 65535, 59, 1, 39882, 296, 0, 0, 65535, 101, 16,
    39904, 0, 0, 0, 0, 0, 0, 39999, 0, 0, 0, 0, 0, 0, 0, 40006,
    65535, 102, 1, 39908, 65535, 116, 1, 39912, 65535, 97, 18, 39933, 0, 0, 0, 0,
    0, 0, 0, 0, 0, 0, 0, 0, 0, 0, 0, 0, 39956, 65535, 114, 1,
    39937, 65535, 114, 1, 39941, 65535, 111, 1, 39945, 65535, 119, 1, 39949, 65535, 59, 1,
    39953, 1107, 0, 0, 65535, 105, 1, 39960, 65535, 103, 1, 39964, 65535, 104, 1, 39968,
    65535, 116, 1, 39972, 65535, 97, 1, 39976, 65535, 114, 1, 39980, 65535, 114, 1, 39984,
    65535, 111, 1, 39988, 65535, 119, 1, 39992, 65535, 59, 1, 39996, 1108, 0, 0, 65535,
    59, 1, 40003, 1109, 0, 0, 65535, 59, 60, 40069, 0, 0, 0, 0, 0, 0,
    0, 0, 0, 0, 0, 0, 0, 0, 0, 0, 0, 0, 0, 0, 0, 0,
    0, 0, 0, 0, 0, 0, 0, 0, 0, 0, 0, 0, 0, 0, 0, 0,
    0, 0, 0, 0, 0, 0, 0, 0, 0, 0, 0, 0, 0, 0, 0, 0,
    0, 0, 0, 0, 40072, 1110, 0, 0, 65535, 59, 1, 40076, 308, 0, 0, 65535,
    105, 1, 40083, 65535, 103, 1, 40087, 65535, 104, 1, 40091, 65535, 116, 1, 40095, 65535,
    97, 1, 40099, 65535, 114, 1, 40103, 65535, 114, 1, 40107, 65535, 111, 1, 40111, 65535,
    119, 1, 40115, 65535, 59, 1, 40119, 1111, 0, 0, 65535, 68, 33, 40158, 0, 0,
    0, 0, 0, 0, 0, 0, 0, 0, 0, 0, 0, 0, 0, 0, 0, 0,
    0, 0, 0, 0, 0, 0, 0, 0, 0, 0, 0, 0, 0, 40177, 65535, 97,
    1, 40162, 65535, 115, 1, 40166, 65535, 104, 1, 40170, 65535, 59, 1, 40174, 1112, 0,
    0, 65535, 97, 1, 40181, 65535, 115, 1, 40185, 65535, 104, 1, 40189, 65535, 59, 1,
    40193, 1113, 0, 0, 65535, 98, 19, 40218, 40233, 0, 0, 0, 0, 0, 0, 0,
    0, 0, 0, 40252, 0, 40263, 0, 0, 0, 40371, 65535, 108, 1, 40222, 65535, 97,
    1, 40226, 65535, 59, 1, 40230, 72, 0, 0, 65535, 117, 1, 40237, 65535, 116, 1,
    40241, 65535, 101, 1, 40245, 65535, 59, 1, 40249, 1114, 0, 0, 65535, 103, 1, 40256,
    65535, 59, 1, 40260, 1115, 0, 0, 65535, 59, 54, 40320, 0, 0, 0, 0, 0,
    0, 0, 0, 0, 40323, 0, 0, 0, 0, 0, 0, 0, 0, 0, 0, 0,
    0, 0, 0, 0, 0, 0, 0, 0, 0, 0, 0, 0, 0, 0, 0, 0,
    0, 0, 0, 0, 0, 0, 0, 0, 40330, 0, 0, 0, 0, 0, 40341, 40352,
    335, 0, 0, 65535, 59, 1, 40327, 1116, 0, 0, 65535, 100, 1, 40334, 65535, 59,
    1, 40338, 1117, 0, 0, 65535, 115, 1, 40345, 65535, 59, 1, 40349, 1118, 0, 0,
    65535, 114, 1, 40356, 65535, 111, 1, 40360, 65535, 120, 1, 40364, 65535, 59, 1, 40368,
    335, 0, 0, 65535, 117, 1, 40375, 65535, 114, 1, 40379, 65535, 59, 39, 40421, 0,
    0, 0, 0, 0, 0, 0, 0, 0, 0, 0, 0, 0, 0, 0, 0, 0,
    0, 0, 0, 0, 0, 0, 0, 0, 0, 0, 0, 0, 0, 0, 0, 0,
    0, 0, 0, 0, 40424, 1119, 0, 0, 65535, 108, 1, 40428, 65535, 59, 57, 40488,
    0, 0, 0, 0, 0, 0, 0, 0, 0, 0, 0, 0, 0, 0, 0, 0,
    0, 0, 0, 0, 0, 0, 0, 0, 0, 0, 0, 0, 0, 0, 0, 0,
    0, 0, 0, 0, 0, 0, 0, 0, 0, 0, 0, 0, 0, 0, 0, 0,
    0, 0, 0, 0, 0, 0, 0, 40491, 1119, 0, 0, 65535, 59, 1, 40495, 284,
    0, 0, 65535, 115, 3, 40504, 0, 40515, 65535, 112, 1, 40508, 283, 59, 1, 40512,
    283, 0, 0, 65535, 109, 1, 40519, 65535, 112, 1, 40523, 65535, 59, 43, 40569, 0,
    0, 0, 0, 0, 0, 0, 0, 0, 0, 0, 0, 0, 0, 0, 0, 0,
    0, 0, 0, 0, 0, 0, 0, 0, 0, 0, 0, 0, 0, 0, 0, 0,
    0, 0, 0, 0, 0, 0, 0, 0, 40572, 300, 0, 0, 65535, 59, 1, 40576,
    301, 0, 0, 65535, 97, 25, 40607, 0, 0, 0, 40635, 0, 0, 0, 0, 0,
    0, 0, 0, 0, 40654, 0, 0, 0, 0, 0, 40725, 0, 0, 0, 40736, 65535,
    112, 3, 40613, 0, 40620, 65535, 59, 1, 40617, 1120, 0, 0, 65535, 111, 1, 40624,
    65535, 110, 1, 40628, 65535, 59, 1, 40632, 1121, 0, 0, 65535, 100, 1, 40639, 65535,
    105, 1, 40643, 65535, 108, 1, 40647, 65535, 59, 1, 40651, 1122, 0, 0, 65535, 110,
    1, 40658, 65535, 103, 1, 40662, 65535, 59, 42, 40707, 0, 0, 0, 0, 0, 0,
    0, 0, 0, 0, 0, 0, 0, 0, 0, 0, 0, 0, 0, 0, 0, 0,
    0, 0, 0, 0, 0, 0, 0, 0, 0, 0, 0, 0, 0, 0, 0, 0,
    0, 0, 40710, 334, 0, 0, 65535, 111, 1, 40714, 65535, 116, 1, 40718, 65535, 59,
    1, 40722, 1123, 0, 0, 65535, 112, 1, 40729, 65535, 59, 1, 40733, 1124, 0, 0,
    65535, 59, 1, 40740, 1125, 0, 0, 65535, 97, 1, 40747, 65535, 115, 1, 40751, 65535,
    104, 1, 40755, 65535, 59, 1, 40759, 1126, 0, 0, 65535, 59, 62, 40827, 0, 0,
    0, 0, 0, 40830, 0, 0, 0, 0, 0, 0, 0, 0, 0, 0, 0, 0,
    0, 0, 0, 0, 0, 0, 0, 0, 0, 0, 0, 0, 0, 0, 0, 0,
    0, 0, 0, 40845, 0, 0, 40944, 0, 0, 0, 0, 0, 0, 0, 0, 0,
    0, 0, 0, 40959, 0, 40978, 0, 0, 0, 0, 41012, 290, 0, 0, 65535, 114,
    1, 40834, 65535, 114, 1, 40838, 65535, 59, 1, 40842, 1127, 0, 0, 65535, 114, 1,
    40849, 65535, 104, 11, 40863, 0, 0, 0, 0, 0, 0, 0, 0, 0, 40874, 65535,
    107, 1, 40867, 65535, 59, 1, 40871, 1128, 0, 0, 65535, 59, 53, 40930, 0, 0,
    0, 0, 0, 0, 0, 0, 0, 0, 0, 0, 0, 0, 0, 0, 0, 0,
    0, 0, 0, 0, 0, 0, 0, 0, 0, 0, 0, 0, 0, 0, 0, 0,
    0, 0, 0, 0, 0, 0, 0, 0, 0, 0, 0, 0, 0, 0, 0, 0,
    0, 40933, 508, 0, 0, 65535, 119, 1, 40937, 65535, 59, 1, 40941, 508, 0, 0,
    65535, 111, 1, 40948, 65535, 116, 1, 40952, 65535, 59, 1, 40956, 1129, 0, 0, 65535,
];

/// Entry `i` of this part; 0 where the part has no such entry.
#[verifier::opaque]
pub open spec fn cell(i: int) -> u16 {
    if 0 <= i < 2560 {
        CELLS[i]
    } else {
        0
    }
}

/// Reads entry `i` of this part.
pub fn read_cell(i: usize) -> (entry: u16)
    ensures
        entry == cell(i as int),
{
    reveal(cell);
    if i < 2560 {
        CELLS[i]
    } else {
        0
    }
}

} // verus!
