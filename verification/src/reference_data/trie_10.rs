//! Cells 25600 to 28159 of the trie table.
use vstd::prelude::*;

verus! {

/// The entries of this part, in order.
pub const CELLS: [u16; 2560] = [
    1, 25602, 65535, 100, 1, 25606, 65535, 103, 1, 25610, 65535, 101, 1, 25614, 65535, 59,
    1, 25618, 766, 0, 0, 65535, 101, 1, 25625, 65535, 110, 1, 25629, 767, 59, 1,
    25633, 767, 0, 0, 65535, 101, 1, 25640, 65535, 97, 1, 25644, 65535, 114, 1, 25648,
    65535, 114, 1, 25652, 65535, 111, 1, 25656, 65535, 119, 1, 25660, 65535, 108, 7, 25670,
    0, 0, 0, 0, 0, 25689, 65535, 101, 1, 25674, 65535, 102, 1, 25678, 65535, 116,
    1, 25682, 65535, 59, 1, 25686, 754, 0, 0, 65535, 105, 1, 25693, 65535, 103, 1,
    25697, 65535, 104, 1, 25701, 65535, 116, 1, 25705, 65535, 59, 1, 25709, 763, 0, 0,
    65535, 101, 1, 25716, 65535, 101, 1, 25720, 65535, 59, 1, 25724, 765, 0, 0, 65535,
    101, 1, 25731, 65535, 100, 1, 25735, 65535, 59, 1, 25739, 766, 0, 0, 65535, 99,
    7, 25752, 0, 0, 0, 0, 0, 25779, 65535, 111, 1, 25756, 65535, 110, 1, 25760,
    65535, 105, 1, 25764, 65535, 110, 1, 25768, 65535, 116, 1, 25772, 65535, 59, 1, 25776,
    48, 0, 0, 65535, 110, 1, 25783, 65535, 116, 1, 25787, 65535, 59, 1, 25791, 768,
    0, 0, 65535, 108, 1, 25798, 65535, 99, 1, 25802, 65535, 116, 1, 25806, 65535, 121,
    1, 25810, 65535, 59, 1, 25814, 769, 0, 0, 65535, 65, 58, 25878, 0, 0, 0,
    0, 0, 0, 25893, 0, 0, 0, 0, 0, 0, 0, 0, 0, 0, 0, 0,
    0, 0, 0, 0, 0, 0, 0, 0, 0, 0, 0, 0, 25908, 26050, 26093, 26147,
    26274, 26329, 0, 26368, 26400, 26806, 0, 26821, 0, 0, 26862, 0, 0, 27314, 27383, 27459,
    27553, 0, 27594, 0, 0, 27621, 65535, 114, 1, 25882, 65535, 114, 1, 25886, 65535, 59,
    1, 25890, 86, 0, 0, 65535, 97, 1, 25897, 65535, 114, 1, 25901, 65535, 59, 1,
    25905, 770, 0, 0, 65535, 103, 13, 25924, 0, 0, 0, 0, 25943, 0, 0, 0,
    0, 0, 25962, 25973, 65535, 103, 1, 25928, 65535, 101, 1, 25932, 65535, 114, 1, 25936,
    65535, 59, 1, 25940, 771, 0, 0, 65535, 101, 1, 25947, 65535, 116, 1, 25951, 65535,
    104, 1, 25955, 65535, 59, 1, 25959, 772, 0, 0, 65535, 114, 1, 25966, 65535, 59,
    1, 25970, 97, 0, 0, 65535, 104, 1, 25977, 65535, 59, 60, 26040, 0, 0, 0,
    0, 0, 0, 0, 0, 0, 0, 0, 0, 0, 0, 0, 0, 0, 0, 0,
    0, 0, 0, 0, 0, 0, 0, 0, 0, 0, 0, 0, 0, 0, 0, 0,
    0, 0, 0, 0, 0, 0, 0, 0, 0, 0, 0, 0, 0, 0, 0, 0,
    0, 0, 0, 0, 0, 0, 0, 26043, 773, 0, 0, 65535, 59, 1, 26047, 235,
    0, 0, 65535, 107, 2, 26055, 26078, 65535, 97, 1, 26059, 65535, 114, 1, 26063, 65535,
    111, 1, 26067, 65535, 119, 1, 26071, 65535, 59, 1, 26075, 774, 0, 0, 65535, 97,
    1, 26082, 65535, 99, 1, 26086, 65535, 59, 1, 26090, 77, 0, 0, 65535, 97, 25,
    26121, 0, 0, 0, 0, 0, 0, 0, 0, 0, 0, 0, 0, 0, 0, 0,
    0, 0, 0, 0, 0, 0, 0, 0, 26140, 65535, 114, 1, 26125, 65535, 111, 1,
    26129, 65535, 110, 1, 26133, 65535, 59, 1, 26137, 775, 0, 0, 65535, 59, 1, 26144,
    776, 0, 0, 65535, 59, 53, 26203, 0, 0, 0, 0, 0, 0, 0, 0, 0,
    0, 0, 0, 0, 0, 0, 0, 0, 0, 0, 0, 0, 0, 0, 0, 0,
    0, 0, 0, 0, 0, 0, 0, 0, 0, 0, 0, 0, 26206, 0, 0, 0,
    0, 0, 0, 0, 0, 0, 0, 0, 0, 0, 26251, 81, 0, 0, 65535, 103,
    12, 26221, 0, 0, 0, 0, 0, 0, 0, 0, 0, 0, 26240, 65535, 103, 1,
    26225, 65535, 101, 1, 26229, 65535, 114, 1, 26233, 65535, 59, 1, 26237, 67, 0, 0,
    65535, 114, 1, 26244, 65535, 59, 1, 26248, 777, 0, 0, 65535, 116, 1, 26255, 65535,
    115, 1, 26259, 65535, 101, 1, 26263, 65535, 113, 1, 26267, 65535, 59, 1, 26271, 778,
    0, 0, 65535, 103, 7, 26284, 0, 0, 0, 0, 26291, 26306, 779, 59, 1, 26288,
    779, 0, 0, 65535, 116, 1, 26295, 65535, 97, 1, 26299, 65535, 59, 1, 26303, 780,
    0, 0, 65535, 112, 1, 26310, 65535, 116, 1, 26314, 65535, 121, 1, 26318, 65535, 118,
    1, 26322, 65535, 59, 1, 26326, 781, 0, 0, 65535, 105, 10, 26342, 0, 0, 0,
    0, 0, 0, 0, 0, 26361, 65535, 115, 1, 26346, 65535, 104, 1, 26350, 65535, 116,
    1, 26354, 65535, 59, 1, 26358, 782, 0, 0, 65535, 59, 1, 26365, 783, 0, 0,
    65535, 97, 1, 26372, 65535, 114, 1, 26376, 65535, 108, 7, 26386, 0, 0, 0, 0,
    0, 26393, 65535, 59, 1, 26390, 230, 0, 0, 65535, 59, 1, 26397, 405, 0, 0,
    65535, 97, 22, 26425, 0, 0, 0, 26589, 0, 26596, 0, 0, 0, 0, 0, 0,
    0, 0, 0, 0, 0, 26619, 0, 0, 26634, 65535, 109, 1, 26429, 65535, 59, 57,
    26489, 0, 0, 0, 0, 0, 0, 0, 0, 0, 0, 0, 0, 0, 0, 0,
    0, 0, 0, 0, 0, 0, 0, 0, 0, 0, 0, 0, 0, 0, 0, 0,
    0, 0, 0, 0, 0, 0, 0, 0, 0, 0, 0, 0, 0, 0, 0, 0,
    0, 0, 0, 0, 26492, 0, 0, 0, 26582, 80, 0, 0, 65535, 110, 1, 26496,
    65535, 100, 1, 26500, 65535, 59, 57, 26560, 0, 0, 0, 0, 0, 0, 0, 0,
    0, 0, 0, 0, 0, 0, 0, 0, 0, 0, 0, 0, 0, 0, 0, 0,
    0, 0, 0, 0, 0, 0, 0, 0, 0, 0, 0, 0, 0, 0, 0, 0,
    0, 0, 0, 0, 0, 0, 0, 0, 0, 0, 0, 0, 0, 0, 0, 26563,
    80, 0, 0, 65535, 117, 1, 26567, 65535, 105, 1, 26571, 65535, 116, 1, 26575, 65535,
    59, 1, 26579, 784, 0, 0, 65535, 59, 1, 26586, 784, 0, 0, 65535, 59, 1,
    26593, 83, 0, 0, 65535, 97, 1, 26600, 65535, 109, 1, 26604, 65535, 109, 1, 26608,
    65535, 97, 1, 26612, 65535, 59, 1, 26616, 785, 0, 0, 65535, 105, 1, 26623, 65535,
    110, 1, 26627, 65535, 59, 1, 26631, 786, 0, 0, 65535, 59, 53, 26690, 0, 0,
    0, 0, 0, 0, 0, 0, 0, 0, 0, 0, 0, 0, 0, 0, 0, 0,
    0, 0, 0, 0, 0, 0, 0, 0, 0, 0, 0, 0, 0, 0, 0, 0,
    0, 0, 0, 0, 0, 0, 0, 0, 0, 0, 0, 26693, 0, 0, 0, 0,
    0, 26791, 787, 0, 0, 65535, 100, 1, 26697, 65535, 101, 1, 26701, 787, 59, 53,
    26757, 0, 0, 0, 0, 0, 0, 0, 0, 0, 0, 0, 0, 0, 0, 0,
    0, 0, 0, 0, 0, 0, 0, 0, 0, 0, 0, 0, 0, 0, 0, 0,
    0, 0, 0, 0, 0, 0, 0, 0, 0, 0, 0, 0, 0, 0, 0, 0,
    0, 0, 0, 0, 26760, 787, 0, 0, 65535, 110, 1, 26764, 65535, 116, 1, 26768,
    65535, 105, 1, 26772, 65535, 109, 1, 26776, 65535, 101, 1, 26780, 65535, 115, 1, 26784,
    65535, 59, 1, 26788, 788, 0, 0, 65535, 110, 1, 26795, 65535, 120, 1, 26799, 65535,
    59, 1, 26803, 788, 0, 0, 65535, 99, 1, 26810, 65535, 121, 1, 26814, 65535, 59,
    1, 26818, 789, 0, 0, 65535, 99, 1, 26825, 65535, 111, 4, 26832, 0, 0, 26847,
    65535, 114, 1, 26836, 65535, 110, 1, 26840, 65535, 59, 1, 26844, 790, 0, 0, 65535,
    111, 1, 26851, 65535, 112, 1, 26855, 65535, 59, 1, 26859, 791, 0, 0, 65535, 108,
    12, 26877, 0, 0, 0, 26896, 0, 0, 0, 26907, 27106, 0, 27157, 65535, 108, 1,
    26881, 65535, 97, 1, 26885, 65535, 114, 1, 26889, 65535, 59, 1, 26893, 792, 0, 0,
    65535, 102, 1, 26900, 65535, 59, 1, 26904, 793, 0, 0, 65535, 59, 57, 26967, 0,
    0, 0, 0, 0, 0, 0, 0, 0, 0, 0, 0, 0, 0, 0, 0, 0,
    0, 0, 0, 0, 0, 0, 0, 0, 0, 0, 0, 0, 0, 0, 0, 0,
    0, 0, 0, 0, 0, 0, 0, 0, 26970, 0, 0, 0, 0, 0, 0, 0,
    27037, 0, 0, 27060, 0, 0, 27079, 76, 0, 0, 65535, 113, 1, 26974, 65535, 59,
    42, 27019, 0, 0, 0, 0, 0, 0, 0, 0, 0, 0, 0, 0, 0, 0,
    0, 0, 0, 0, 0, 0, 0, 0, 0, 0, 0, 0, 0, 0, 0, 0,
    0, 0, 0, 0, 0, 0, 0, 0, 0, 0, 27022, 85, 0, 0, 65535, 111,
    1, 27026, 65535, 116, 1, 27030, 65535, 59, 1, 27034, 794, 0, 0, 65535, 105, 1,
    27041, 65535, 110, 1, 27045, 65535, 117, 1, 27049, 65535, 115, 1, 27053, 65535, 59, 1,
    27057, 795, 0, 0, 65535, 108, 1, 27064, 65535, 117, 1, 27068, 65535, 115, 1, 27072,
    65535, 59, 1, 27076, 796, 0, 0, 65535, 113, 1, 27083, 65535, 117, 1, 27087, 65535,
    97, 1, 27091, 65535, 114, 1, 27095, 65535, 101, 1, 27099, 65535, 59, 1, 27103, 797,
    0, 0, 65535, 98, 1, 27110, 65535, 108, 1, 27114, 65535, 101, 1, 27118, 65535, 98,
    1, 27122, 65535, 97, 1, 27126, 65535, 114, 1, 27130, 65535, 119, 1, 27134, 65535, 101,
    1, 27138, 65535, 100, 1, 27142, 65535, 103, 1, 27146, 65535, 101, 1, 27150, 65535, 59,
    1, 27154, 21, 0, 0, 65535, 110, 1, 27161, 65535, 97, 8, 27172, 0, 0, 27195,
    0, 0, 0, 27238, 65535, 114, 1, 27176, 65535, 114, 1, 27180, 65535, 111, 1, 27184,
    65535, 119, 1, 27188, 65535, 59, 1, 27192, 97, 0, 0, 65535, 111, 1, 27199, 65535,
    119, 1, 27203, 65535, 110, 1, 27207, 65535, 97, 1, 27211, 65535, 114, 1, 27215, 65535,
    114, 1, 27219, 65535, 111, 1, 27223, 65535, 119, 1, 27227, 65535, 115, 1, 27231, 65535,
    59, 1, 27235, 777, 0, 0, 65535, 97, 1, 27242, 65535, 114, 1, 27246, 65535, 112,
    1, 27250, 65535, 111, 1, 27254, 65535, 111, 1, 27258, 65535, 110, 1, 27262, 65535, 108,
    7, 27272, 0, 0, 0, 0, 0, 27291, 65535, 101, 1, 27276, 65535, 102, 1, 27280,
    65535, 116, 1, 27284, 65535, 59, 1, 27288, 230, 0, 0, 65535, 105, 1, 27295, 65535,
    103, 1, 27299, 65535, 104, 1, 27303, 65535, 116, 1, 27307, 65535, 59, 1, 27311, 405,
    0, 0, 65535, 98, 2, 27319, 27346, 65535, 107, 1, 27323, 65535, 97, 1, 27327, 65535,
    114, 1, 27331, 65535, 111, 1, 27335, 65535, 119, 1, 27339, 65535, 59, 1, 27343, 384,
    0, 0, 65535, 111, 4, 27353, 0, 0, 27368, 65535, 114, 1, 27357, 65535, 110, 1,
    27361, 65535, 59, 1, 27365, 798, 0, 0, 65535, 111, 1, 27372, 65535, 112, 1, 27376,
    65535, 59, 1, 27380, 799, 0, 0, 65535, 99, 18, 27404, 0, 0, 0, 0, 0,
    0, 0, 0, 0, 0, 0, 27429, 0, 0, 0, 0, 27440, 65535, 114, 8, 27415,
    0, 0, 0, 0, 0, 0, 27422, 65535, 59, 1, 27419, 800, 0, 0, 65535, 59,
    1, 27426, 801, 0, 0, 65535, 108, 1, 27433, 65535, 59, 1, 27437, 802, 0, 0,
    65535, 114, 1, 27444, 65535, 111, 1, 27448, 65535, 107, 1, 27452, 65535, 59, 1, 27456,
    803, 0, 0, 65535, 100, 15, 27477, 0, 0, 0, 0, 0, 0, 0, 0, 0,
    0, 0, 0, 0, 27492, 65535, 111, 1, 27481, 65535, 116, 1, 27485, 65535, 59, 1,
    27489, 804, 0, 0, 65535, 105, 1, 27496, 65535, 59, 44, 27543, 0, 0, 0, 0,
    0, 0, 0, 0, 0, 0, 0, 0, 0, 0, 0, 0, 0, 0, 0, 0,
    0, 0, 0, 0, 0, 0, 0, 0, 0, 0, 0, 0, 0, 0, 0, 0,
    0, 0, 0, 0, 0, 0, 27546, 805, 0, 0, 65535, 59, 1, 27550, 635, 0,
    0, 65535, 97, 8, 27564, 0, 0, 0, 0, 0, 0, 27579, 65535, 114, 1, 27568,
    65535, 114, 1, 27572, 65535, 59, 1, 27576, 99, 0, 0, 65535, 97, 1, 27583, 65535,
    114, 1, 27587, 65535, 59, 1, 27591, 396, 0, 0, 65535, 97, 1, 27598, 65535, 110,
    1, 27602, 65535, 103, 1, 27606, 65535, 108, 1, 27610, 65535, 101, 1, 27614, 65535, 59,
    1, 27618, 806, 0, 0, 65535, 99, 7, 27631, 0, 0, 0, 0, 0, 27642, 65535,
    121, 1, 27635, 65535, 59, 1, 27639, 807, 0, 0, 65535, 103, 1, 27646, 65535, 114,
    1, 27650, 65535, 97, 1, 27654, 65535, 114, 1, 27658, 65535, 114, 1, 27662, 65535, 59,
    1, 27666, 808, 0, 0, 65535, 68, 53, 27725, 0, 0, 0, 0, 0, 0, 0,
    0, 0, 0, 0, 0, 0, 0, 0, 0, 0, 0, 0, 0, 0, 0, 0,
    0, 0, 0, 0, 0, 27798, 0, 27856, 27987, 28002, 28009, 28081, 0, 0, 0, 0,
    28226, 28386, 28559, 28593, 28632, 28839, 29079, 29142, 29189, 29214, 0, 0, 29245, 65535, 68, 44,
    27772, 0, 0, 0, 0, 0, 0, 0, 0, 0, 0, 0, 0, 0, 0, 0,
    0, 0, 0, 0, 0, 0, 0, 0, 0, 0, 0, 0, 0, 0, 0, 0,
    0, 0, 0, 0, 0, 0, 0, 0, 0, 0, 0, 27787, 65535, 111, 1, 27776,
    65535, 116, 1, 27780, 65535, 59, 1, 27784, 778, 0, 0, 65535, 116, 1, 27791, 65535,
    59, 1, 27795, 794, 0, 0, 65535, 99, 17, 27818, 0, 0, 0, 0, 0, 0,
    0, 0, 0, 0, 0, 0, 0, 0, 0, 27837, 65535, 117, 1, 27822, 65535, 116,
    1, 27826, 65535, 101, 1, 27830, 809, 59, 1, 27834, 809, 0, 0, 65535, 116, 1,
    27841, 65535, 101, 1, 27845, 65535, 114, 1, 27849, 65535, 59, 1, 27853, 810, 0, 0,
    65535, 97, 25, 27884, 0, 0, 0, 0, 0, 0, 0, 27903, 0, 0, 0, 0,
    0, 27961, 0, 0, 0, 0, 0, 0, 0, 0, 0, 27980, 65535, 114, 1, 27888,
    65535, 111, 1, 27892, 65535, 110, 1, 27896, 65535, 59, 1, 27900, 811, 0, 0, 65535,
    114, 1, 27907, 65535, 59, 41, 27951, 0, 0, 0, 0, 0, 0, 0, 0, 0,
    0, 0, 0, 0, 0, 0, 0, 0, 0, 0, 0, 0, 0, 0, 0, 0,
    0, 0, 0, 0, 0, 0, 0, 0, 0, 0, 0, 0, 0, 0, 27954, 812,
    0, 0, 813, 59, 1, 27958, 813, 0, 0, 65535, 108, 1, 27965, 65535, 111, 1,
    27969, 65535, 110, 1, 27973, 65535, 59, 1, 27977, 814, 0, 0, 65535, 59, 1, 27984,
    815, 0, 0, 65535, 111, 1, 27991, 65535, 116, 1, 27995, 65535, 59, 1, 27999, 816,
    0, 0, 65535, 59, 1, 28006, 136, 0, 0, 65535, 68, 47, 28059, 0, 0, 0,
    0, 0, 0, 0, 0, 0, 0, 0, 0, 0, 0, 0, 0, 0, 0, 0,
    0, 0, 0, 0, 0, 0, 0, 0, 0, 0, 0, 0, 0, 0, 0, 0,
    0, 0, 0, 0, 0, 0, 0, 0, 0, 0, 28074, 65535, 111, 1, 28063, 65535,
    116, 1, 28067, 65535, 59, 1, 28071, 817, 0, 0, 65535, 59, 1, 28078, 818, 0,
    0, 65535, 59, 57, 28141, 0, 0, 0, 0, 0, 0, 0, 0, 0, 0, 0,
    0, 0, 0, 0, 0, 0, 0, 0, 0, 0, 0, 0, 0, 0, 0, 0,
    0, 0, 0, 0, 0, 0, 0, 0, 0, 0, 0, 0, 0, 0, 0, 0,
    0, 0, 0, 0, 0, 0, 0, 0, 0, 0, 0, 28144, 28163, 819, 0, 0,
    65535, 97, 1, 28148, 65535, 118, 1, 28152, 65535, 101, 1, 28156, 820, 59, 1, 28160,
];

/// Entry `i` of this part; 0 where the part has no such entry.
#[verifier::opaque]
pub open spec fn cell(i: int) -> u16 {
    if 0 <= i < 2560 {
        CELLS[i]
    } else {
        0
    }
}

/// Reads entry `i` of this part.
pub fn read_cell(i: usize) -> (entry: u16)
    ensures
        entry == cell(i as int),
{
    reveal(cell);
    if i < 2560 {
        CELLS[i]
    } else {
        0
    }
}

} // verus!
