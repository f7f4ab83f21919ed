//! Cells 48640 to 51199 of the trie table.
use vstd::prelude::*;

verus! {

/// The entries of this part, in order.
pub const CELLS: [u16; 2560] = [
    0, 65535, 112, 1, 48645, 65535, 59, 1, 48649, 1057, 0, 0, 65535, 108, 1, 48656,
    65535, 59, 1, 48660, 1275, 0, 0, 65535, 105, 1, 48667, 65535, 109, 1, 48671, 65535,
    59, 1, 48675, 1276, 0, 0, 65535, 108, 1, 48682, 65535, 59, 1, 48686, 1277, 0,
    0, 65535, 59, 1, 48693, 1278, 0, 0, 65535, 97, 9, 48708, 0, 0, 0, 0,
    0, 0, 0, 48723, 65535, 105, 1, 48712, 65535, 108, 1, 48716, 65535, 59, 1, 48720,
    1279, 0, 0, 65535, 111, 1, 48727, 65535, 59, 52, 48782, 0, 0, 0, 0, 0,
    0, 0, 0, 0, 0, 0, 0, 0, 0, 0, 0, 0, 0, 0, 0, 0,
    0, 0, 0, 0, 0, 0, 0, 0, 0, 0, 0, 0, 0, 0, 0, 0,
    0, 0, 0, 0, 0, 0, 0, 0, 0, 0, 0, 0, 0, 48785, 1280, 0,
    0, 65535, 97, 1, 48789, 65535, 108, 1, 48793, 65535, 115, 1, 48797, 65535, 59, 1,
    48801, 382, 0, 0, 65535, 97, 18, 48825, 48840, 0, 0, 0, 0, 0, 0, 0,
    0, 0, 0, 0, 0, 0, 0, 0, 48855, 65535, 114, 1, 48829, 65535, 114, 1,
    48833, 65535, 59, 1, 48837, 632, 0, 0, 65535, 114, 1, 48844, 65535, 107, 1, 48848,
    65535, 59, 1, 48852, 1281, 0, 0, 65535, 97, 11, 48869, 0, 0, 0, 0, 0,
    0, 0, 0, 0, 48897, 65535, 99, 1, 48873, 65535, 101, 7, 48883, 0, 0, 0,
    0, 0, 48890, 65535, 59, 1, 48887, 1282, 0, 0, 65535, 59, 1, 48894, 1283, 0,
    0, 65535, 101, 15, 48915, 0, 0, 0, 0, 0, 0, 0, 0, 0, 0, 0,
    0, 0, 48922, 65535, 59, 1, 48919, 1284, 0, 0, 65535, 108, 1, 48926, 65535, 100,
    18, 48947, 0, 0, 0, 0, 0, 0, 0, 0, 0, 0, 0, 0, 0, 0,
    0, 0, 48954, 65535, 59, 1, 48951, 1285, 0, 0, 65535, 59, 1, 48958, 1286, 0,
    0, 65535, 97, 25, 48989, 0, 0, 0, 49008, 0, 0, 0, 0, 0, 0, 0,
    0, 0, 0, 0, 0, 0, 0, 0, 49043, 0, 0, 0, 49054, 65535, 114, 1,
    48993, 65535, 111, 1, 48997, 65535, 110, 1, 49001, 65535, 59, 1, 49005, 1287, 0, 0,
    65535, 100, 6, 49017, 0, 0, 0, 0, 49032, 65535, 105, 1, 49021, 65535, 108, 1,
    49025, 65535, 59, 1, 49029, 1288, 0, 0, 65535, 108, 1, 49036, 65535, 59, 1, 49040,
    402, 0, 0, 65535, 98, 1, 49047, 65535, 59, 1, 49051, 1282, 0, 0, 65535, 59,
    1, 49058, 1289, 0, 0, 65535, 99, 17, 49081, 0, 0, 0, 0, 0, 0, 0,
    0, 49092, 0, 0, 0, 0, 49115, 0, 49192, 65535, 97, 1, 49085, 65535, 59, 1,
    49089, 1290, 0, 0, 65535, 100, 1, 49096, 65535, 104, 1, 49100, 65535, 97, 1, 49104,
    65535, 114, 1, 49108, 65535, 59, 1, 49112, 1291, 0, 0, 65535, 117, 1, 49119, 65535,
    111, 1, 49123, 65535, 59, 56, 49182, 0, 0, 0, 0, 0, 0, 0, 0, 0,
    0, 0, 0, 0, 0, 0, 0, 0, 0, 0, 0, 0, 0, 0, 0, 0,
    0, 0, 0, 0, 0, 0, 0, 0, 0, 0, 0, 0, 0, 0, 0, 0,
    0, 0, 0, 0, 0, 0, 0, 0, 0, 0, 0, 0, 0, 49185, 49, 0,
    0, 65535, 59, 1, 49189, 49, 0, 0, 65535, 104, 1, 49196, 65535, 59, 1, 49200,
    1292, 0, 0, 65535, 97, 7, 49213, 0, 49321, 0, 0, 0, 49332, 65535, 108, 1,
    49217, 65535, 59, 57, 49277, 0, 0, 0, 0, 0, 0, 0, 0, 0, 0, 0,
    0, 0, 0, 0, 0, 0, 0, 0, 0, 0, 0, 0, 0, 0, 0, 0,
    0, 0, 0, 0, 0, 0, 0, 0, 0, 0, 0, 0, 0, 0, 0, 0,
    0, 0, 49280, 0, 0, 0, 0, 0, 0, 49295, 0, 0, 49314, 393, 0, 0,
    65535, 110, 1, 49284, 65535, 101, 1, 49288, 65535, 59, 1, 49292, 423, 0, 0, 65535,
    97, 1, 49299, 65535, 114, 1, 49303, 65535, 116, 1, 49307, 65535, 59, 1, 49311, 393,
    0, 0, 65535, 59, 1, 49318, 420, 0, 0, 65535, 116, 1, 49325, 65535, 59, 1,
    49329, 1293, 0, 0, 385, 59, 1, 49336, 385, 0, 0, 65535, 105, 10, 49352, 0,
    0, 49371, 0, 0, 0, 0, 0, 49390, 65535, 115, 1, 49356, 65535, 104, 1, 49360,
    65535, 116, 1, 49364, 65535, 59, 1, 49368, 1294, 0, 0, 65535, 111, 1, 49375, 65535,
    111, 1, 49379, 65535, 114, 1, 49383, 65535, 59, 1, 49387, 407, 0, 0, 65535, 59,
    1, 49394, 1295, 0, 0, 65535, 97, 15, 49415, 0, 0, 0, 0, 0, 0, 0,
    0, 0, 0, 0, 0, 0, 49510, 65535, 114, 1, 49419, 65535, 100, 18, 49440, 0,
    0, 0, 0, 0, 0, 0, 0, 0, 0, 0, 0, 0, 0, 0, 0, 49447,
    65535, 59, 1, 49444, 106, 0, 0, 65535, 59, 50, 49500, 0, 0, 0, 0, 0,
    0, 0, 0, 0, 0, 0, 0, 0, 0, 0, 0, 0, 0, 0, 0, 0,
    0, 0, 0, 0, 0, 0, 0, 0, 0, 0, 0, 0, 0, 0, 0, 0,
    0, 0, 0, 0, 0, 0, 0, 0, 0, 0, 0, 49503, 418, 0, 0, 65535,
    59, 1, 49507, 1296, 0, 0, 65535, 59, 60, 49573, 0, 0, 0, 0, 0, 0,
    0, 0, 0, 0, 0, 0, 0, 0, 0, 0, 0, 0, 0, 0, 0, 0,
    0, 0, 0, 0, 0, 0, 0, 0, 0, 0, 0, 0, 0, 0, 0, 0,
    0, 0, 0, 0, 0, 0, 0, 0, 0, 0, 0, 0, 0, 0, 0, 0,
    0, 0, 0, 0, 49576, 1297, 0, 0, 65535, 59, 1, 49580, 1298, 0, 0, 65535,
    103, 13, 49599, 0, 0, 0, 0, 0, 0, 50022, 0, 0, 0, 0, 50033, 65535,
    104, 1, 49603, 65535, 116, 1, 49607, 65535, 97, 20, 49630, 0, 0, 0, 0, 0,
    0, 49729, 0, 0, 0, 49804, 0, 0, 0, 0, 0, 49889, 49936, 49979, 65535, 114,
    1, 49634, 65535, 114, 1, 49638, 65535, 111, 1, 49642, 65535, 119, 1, 49646, 65535, 59,
    58, 49707, 0, 0, 0, 0, 0, 0, 0, 0, 0, 0, 0, 0, 0, 0,
    0, 0, 0, 0, 0, 0, 0, 0, 0, 0, 0, 0, 0, 0, 0, 0,
    0, 0, 0, 0, 0, 0, 0, 0, 0, 0, 0, 0, 0, 0, 0, 0,
    0, 0, 0, 0, 0, 0, 0, 0, 0, 0, 49710, 399, 0, 0, 65535, 97,
    1, 49714, 65535, 105, 1, 49718, 65535, 108, 1, 49722, 65535, 59, 1, 49726, 1277, 0,
    0, 65535, 97, 1, 49733, 65535, 114, 1, 49737, 65535, 112, 1, 49741, 65535, 111, 1,
    49745, 65535, 111, 1, 49749, 65535, 110, 1, 49753, 65535, 100, 18, 49774, 0, 0, 0,
    0, 0, 0, 0, 0, 0, 0, 0, 0, 0, 0, 0, 0, 49793, 65535, 111,
    1, 49778, 65535, 119, 1, 49782, 65535, 110, 1, 49786, 65535, 59, 1, 49790, 106, 0,
    0, 65535, 112, 1, 49797, 65535, 59, 1, 49801, 418, 0, 0, 65535, 101, 1, 49808,
    65535, 102, 1, 49812, 65535, 116, 1, 49816, 65535, 97, 8, 49827, 0, 0, 0, 0,
    0, 0, 49854, 65535, 114, 1, 49831, 65535, 114, 1, 49835, 65535, 111, 1, 49839, 65535,
    119, 1, 49843, 65535, 115, 1, 49847, 65535, 59, 1, 49851, 401, 0, 0, 65535, 97,
    1, 49858, 65535, 114, 1, 49862, 65535, 112, 1, 49866, 65535, 111, 1, 49870, 65535, 111,
    1, 49874, 65535, 110, 1, 49878, 65535, 115, 1, 49882, 65535, 59, 1, 49886, 130, 0,
    0, 65535, 105, 1, 49893, 65535, 103, 1, 49897, 65535, 104, 1, 49901, 65535, 116, 1,
    49905, 65535, 97, 1, 49909, 65535, 114, 1, 49913, 65535, 114, 1, 49917, 65535, 111, 1,
    49921, 65535, 119, 1, 49925, 65535, 115, 1, 49929, 65535, 59, 1, 49933, 1299, 0, 0,
    65535, 113, 1, 49940, 65535, 117, 1, 49944, 65535, 105, 1, 49948, 65535, 103, 1, 49952,
    65535, 97, 1, 49956, 65535, 114, 1, 49960, 65535, 114, 1, 49964, 65535, 111, 1, 49968,
    65535, 119, 1, 49972, 65535, 59, 1, 49976, 1278, 0, 0, 65535, 104, 1, 49983, 65535,
    114, 1, 49987, 65535, 101, 1, 49991, 65535, 101, 1, 49995, 65535, 116, 1, 49999, 65535,
    105, 1, 50003, 65535, 109, 1, 50007, 65535, 101, 1, 50011, 65535, 115, 1, 50015, 65535,
    59, 1, 50019, 1300, 0, 0, 65535, 103, 1, 50026, 65535, 59, 1, 50030, 1301, 0,
    0, 65535, 105, 1, 50037, 65535, 110, 1, 50041, 65535, 103, 1, 50045, 65535, 100, 1,
    50049, 65535, 111, 1, 50053, 65535, 116, 1, 50057, 65535, 115, 1, 50061, 65535, 101, 1,
    50065, 65535, 113, 1, 50069, 65535, 59, 1, 50073, 846, 0, 0, 65535, 97, 13, 50092,
    0, 0, 0, 0, 0, 0, 50107, 0, 0, 0, 0, 50122, 65535, 114, 1, 50096,
    65535, 114, 1, 50100, 65535, 59, 1, 50104, 401, 0, 0, 65535, 97, 1, 50111, 65535,
    114, 1, 50115, 65535, 59, 1, 50119, 130, 0, 0, 65535, 59, 1, 50126, 1302, 0,
    0, 65535, 111, 1, 50133, 65535, 117, 1, 50137, 65535, 115, 1, 50141, 65535, 116, 1,
    50145, 65535, 59, 39, 50187, 0, 0, 0, 0, 0, 0, 0, 0, 0, 0, 0,
    0, 0, 0, 0, 0, 0, 0, 0, 0, 0, 0, 0, 0, 0, 0, 0,
    0, 0, 0, 0, 0, 0, 0, 0, 0, 0, 50190, 1303, 0, 0, 65535, 99,
    1, 50194, 65535, 104, 1, 50198, 65535, 101, 1, 50202, 65535, 59, 1, 50206, 1303, 0,
    0, 65535, 109, 1, 50213, 65535, 105, 1, 50217, 65535, 100, 1, 50221, 65535, 59, 1,
    50225, 1304, 0, 0, 65535, 97, 20, 50251, 50281, 0, 0, 0, 0, 0, 0, 0,
    0, 0, 0, 0, 0, 0, 50296, 0, 0, 0, 50344, 65535, 110, 5, 50259, 0,
    0, 0, 50270, 65535, 103, 1, 50263, 65535, 59, 1, 50267, 1305, 0, 0, 65535, 114,
    1, 50274, 65535, 59, 1, 50278, 1306, 0, 0, 65535, 114, 1, 50285, 65535, 107, 1,
    50289, 65535, 59, 1, 50293, 403, 0, 0, 65535, 97, 12, 50311, 0, 0, 0, 0,
    50322, 0, 0, 0, 0, 0, 50329, 65535, 114, 1, 50315, 65535, 59, 1, 50319, 1307,
    0, 0, 65535, 59, 1, 50326, 1308, 0, 0, 65535, 117, 1, 50333, 65535, 115, 1,
    50337, 65535, 59, 1, 50341, 1309, 0, 0, 65535, 105, 1, 50348, 65535, 109, 1, 50352,
    65535, 101, 1, 50356, 65535, 115, 1, 50360, 65535, 59, 1, 50364, 1310, 0, 0, 65535,
    97, 16, 50386, 0, 0, 0, 0, 0, 0, 0, 0, 0, 0, 0, 0, 0,
    0, 50452, 65535, 114, 1, 50390, 65535, 59, 45, 50438, 0, 0, 0, 0, 0, 0,
    0, 0, 0, 0, 0, 0, 0, 0, 0, 0, 0, 0, 0, 0, 0, 0,
    0, 0, 0, 0, 0, 0, 0, 0, 0, 0, 0, 0, 0, 0, 0, 0,
    0, 0, 0, 0, 0, 50441, 1311, 0, 0, 65535, 116, 1, 50445, 65535, 59, 1,
    50449, 1312, 0, 0, 65535, 111, 1, 50456, 65535, 108, 1, 50460, 65535, 105, 1, 50464,
    65535, 110, 1, 50468, 65535, 116, 1, 50472, 65535, 59, 1, 50476, 1313, 0, 0, 65535,
    97, 1, 50483, 65535, 114, 1, 50487, 65535, 114, 1, 50491, 65535, 59, 1, 50495, 1299,
    0, 0, 65535, 97, 17, 50518, 0, 50537, 0, 0, 0, 0, 50548, 0, 0, 0,
    0, 0, 0, 0, 0, 50555, 65535, 113, 1, 50522, 65535, 117, 1, 50526, 65535, 111,
    1, 50530, 65535, 59, 1, 50534, 1314, 0, 0, 65535, 114, 1, 50541, 65535, 59, 1,
    50545, 1315, 0, 0, 65535, 59, 1, 50552, 424, 0, 0, 65535, 98, 20, 50578, 0,
    0, 0, 0, 0, 0, 0, 0, 0, 0, 0, 0, 0, 0, 0, 0, 0,
    0, 50585, 65535, 59, 1, 50582, 1283, 0, 0, 65535, 111, 1, 50589, 65535, 59, 56,
    50648, 0, 0, 0, 0, 0, 0, 0, 0, 0, 0, 0, 0, 0, 0, 0,
    0, 0, 0, 0, 0, 0, 0, 0, 0, 0, 0, 0, 0, 0, 0, 0,
    0, 0, 0, 0, 0, 0, 0, 0, 0, 0, 0, 0, 0, 0, 0, 0,
    0, 0, 0, 0, 0, 0, 0, 50651, 50, 0, 0, 65535, 59, 1, 50655, 50,
    0, 0, 65535, 104, 11, 50672, 50691, 0, 0, 0, 0, 0, 0, 0, 0, 50710,
    65535, 114, 1, 50676, 65535, 101, 1, 50680, 65535, 101, 1, 50684, 65535, 59, 1, 50688,
    1300, 0, 0, 65535, 109, 1, 50695, 65535, 101, 1, 50699, 65535, 115, 1, 50703, 65535,
    59, 1, 50707, 1316, 0, 0, 65535, 105, 1, 50714, 65535, 59, 50, 50767, 0, 0,
    0, 0, 0, 0, 0, 0, 0, 0, 0, 0, 0, 0, 0, 0, 0, 0,
    0, 0, 0, 0, 0, 0, 0, 0, 0, 0, 0, 0, 0, 0, 0, 0,
    0, 0, 0, 0, 0, 0, 0, 50770, 50777, 0, 0, 0, 0, 0, 50784, 1317,
    0, 0, 65535, 59, 1, 50774, 413, 0, 0, 65535, 59, 1, 50781, 637, 0, 0,
    65535, 116, 1, 50788, 65535, 114, 1, 50792, 65535, 105, 1, 50796, 65535, 59, 1, 50800,
    1318, 0, 0, 65535, 108, 1, 50807, 65535, 117, 1, 50811, 65535, 104, 1, 50815, 65535,
    97, 1, 50819, 65535, 114, 1, 50823, 65535, 59, 1, 50827, 1319, 0, 0, 65535, 59,
    1, 50834, 1320, 0, 0, 65535, 97, 26, 50866, 50889, 50908, 51237, 51308, 51572, 0, 51650,
    51808, 0, 0, 52148, 52167, 0, 52435, 52581, 52698, 53270, 53289, 53378, 53565, 0, 54973, 0,
    0, 55155, 65535, 99, 1, 50870, 65535, 117, 1, 50874, 65535, 116, 1, 50878, 65535, 101,
    1, 50882, 65535, 59, 1, 50886, 1321, 0, 0, 65535, 113, 1, 50893, 65535, 117, 1,
    50897, 65535, 111, 1, 50901, 65535, 59, 1, 50905, 1073, 0, 0, 65535, 59, 63, 50974,
    0, 0, 0, 0, 0, 0, 0, 0, 0, 50977, 0, 0, 0, 0, 0, 0,
    0, 0, 0, 0, 0, 0, 0, 0, 0, 0, 0, 0, 0, 0, 0, 0,
    0, 0, 0, 0, 0, 50984, 0, 51012, 0, 51027, 0, 0, 0, 51090, 0, 0,
    0, 0, 51105, 0, 51188, 0, 0, 51215, 0, 0, 0, 0, 0, 51230, 452, 0,
    0, 65535, 59, 1, 50981, 1322, 0, 0, 65535, 112, 3, 50990, 0, 50997, 65535, 59,
    1, 50994, 1323, 0, 0, 65535, 111, 1, 51001, 65535, 110, 1, 51005, 65535, 59, 1,
    51009, 1324, 0, 0, 65535, 117, 1, 51016, 65535, 101, 1, 51020, 65535, 59, 1, 51024,
    454, 0, 0, 65535, 59, 42, 51072, 0, 0, 0, 0, 0, 0, 0, 0, 0,
    0, 0, 0, 0, 0, 0, 0, 0, 0, 0, 0, 0, 0, 0, 0, 0,
    0, 0, 0, 0, 0, 0, 0, 0, 0, 0, 0, 0, 0, 0, 0, 51075,
    453, 0, 0, 65535, 105, 1, 51079, 65535, 108, 1, 51083, 65535, 59, 1, 51087, 1325,
    0, 0, 65535, 114, 1, 51094, 65535, 99, 1, 51098, 65535, 59, 1, 51102, 1326, 0,
    0, 65535, 69, 47, 51155, 0, 0, 0, 0, 0, 0, 0, 0, 0, 0, 0,
    0, 0, 0, 0, 0, 0, 0, 0, 0, 0, 0, 0, 0, 0, 0, 0,
    51162, 0, 0, 0, 0, 0, 0, 0, 0, 0, 0, 0, 0, 0, 0, 0,
    0, 0, 51173, 65535, 59, 1, 51159, 1327, 0, 0, 65535, 112, 1, 51166, 65535, 59,
    1, 51170, 1328, 0, 0, 65535, 105, 1, 51177, 65535, 109, 1, 51181, 65535, 59, 1,
    51185, 1329, 0, 0, 65535, 111, 1, 51192, 65535, 108, 1, 51196, 65535, 105, 1, 51200,
];

/// Entry `i` of this part; 0 where the part has no such entry.
#[verifier::opaque]
pub open spec fn cell(i: int) -> u16 {
    if 0 <= i < 2560 {
        CELLS[i]
    } else {
        0
    }
}

/// Reads entry `i` of this part.
pub fn read_cell(i: usize) -> (entry: u16)
    ensures
        entry == cell(i as int),
{
    reveal(cell);
    if i < 2560 {
        CELLS[i]
    } else {
        0
    }
}

} // verus!
