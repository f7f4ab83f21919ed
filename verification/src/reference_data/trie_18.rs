//! Cells 46080 to 48639 of the trie table.
use vstd::prelude::*;

verus! {

/// The entries of this part, in order.
pub const CELLS: [u16; 2560] = [
    0, 0, 0, 0, 0, 0, 0, 0, 0, 0, 0, 0, 0, 0, 0, 0,
    0, 0, 46102, 47, 0, 0, 65535, 115, 1, 46106, 65535, 59, 1, 46110, 1216, 0,
    0, 65535, 109, 1, 46117, 65535, 108, 1, 46121, 1217, 59, 1, 46125, 1217, 0, 0,
    65535, 98, 1, 46132, 65535, 97, 1, 46136, 65535, 114, 1, 46140, 65535, 59, 1, 46144,
    1218, 0, 0, 65535, 97, 21, 46171, 0, 46346, 0, 46357, 46453, 0, 46464, 46581, 0,
    0, 46685, 46980, 0, 46987, 0, 0, 47056, 47799, 0, 47827, 65535, 114, 1, 46175, 65535,
    59, 58, 46236, 0, 0, 0, 0, 0, 0, 0, 0, 0, 0, 0, 0, 0,
    0, 0, 0, 0, 0, 0, 0, 0, 0, 0, 0, 0, 0, 0, 0, 0,
    0, 0, 0, 0, 0, 0, 0, 0, 46239, 0, 0, 0, 0, 0, 0, 0,
    0, 0, 0, 0, 0, 0, 0, 0, 0, 0, 46314, 46339, 96, 0, 0, 1219,
    59, 50, 46292, 0, 0, 0, 0, 0, 0, 0, 0, 0, 0, 0, 0, 0,
    0, 0, 0, 0, 0, 0, 0, 0, 0, 0, 0, 0, 0, 0, 0, 0,
    0, 0, 0, 0, 0, 0, 0, 0, 0, 0, 0, 0, 0, 0, 0, 0,
    0, 0, 0, 46295, 1219, 0, 0, 65535, 108, 1, 46299, 65535, 101, 1, 46303, 65535,
    108, 1, 46307, 65535, 59, 1, 46311, 96, 0, 0, 65535, 105, 4, 46321, 0, 0,
    46332, 65535, 109, 1, 46325, 65535, 59, 1, 46329, 1220, 0, 0, 65535, 59, 1, 46336,
    1221, 0, 0, 65535, 59, 1, 46343, 363, 0, 0, 65535, 121, 1, 46350, 65535, 59,
    1, 46354, 1222, 0, 0, 65535, 114, 1, 46361, 65535, 99, 18, 46382, 0, 0, 0,
    0, 0, 46397, 0, 0, 0, 46412, 0, 0, 46427, 0, 0, 0, 46434, 65535, 110,
    1, 46386, 65535, 116, 1, 46390, 65535, 59, 1, 46394, 1223, 0, 0, 65535, 111, 1,
    46401, 65535, 100, 1, 46405, 65535, 59, 1, 46409, 1224, 0, 0, 65535, 105, 1, 46416,
    65535, 108, 1, 46420, 65535, 59, 1, 46424, 1225, 0, 0, 65535, 59, 1, 46431, 505,
    0, 0, 65535, 101, 1, 46438, 65535, 110, 1, 46442, 65535, 107, 1, 46446, 65535, 59,
    1, 46450, 1226, 0, 0, 65535, 114, 1, 46457, 65535, 59, 1, 46461, 1227, 0, 0,
    65535, 105, 7, 46474, 0, 0, 0, 46547, 0, 46566, 65535, 59, 60, 46537, 0, 0,
    0, 0, 0, 0, 0, 0, 0, 0, 0, 0, 0, 0, 0, 0, 0, 0,
    0, 0, 0, 0, 0, 0, 0, 0, 0, 0, 0, 0, 0, 0, 0, 0,
    0, 0, 0, 0, 0, 0, 0, 0, 0, 0, 0, 0, 0, 0, 0, 0,
    0, 0, 0, 0, 0, 0, 0, 0, 46540, 1228, 0, 0, 65535, 59, 1, 46544,
    1229, 0, 0, 65535, 109, 1, 46551, 65535, 97, 1, 46555, 65535, 116, 1, 46559, 65535,
    59, 1, 46563, 269, 0, 0, 65535, 110, 1, 46570, 65535, 101, 1, 46574, 65535, 59,
    1, 46578, 1230, 0, 0, 65535, 59, 60, 46644, 0, 0, 0, 0, 0, 0, 0,
    0, 0, 0, 0, 0, 0, 0, 0, 0, 0, 0, 0, 0, 0, 0, 0,
    0, 0, 0, 0, 0, 0, 0, 0, 0, 0, 0, 0, 0, 0, 0, 0,
    0, 0, 0, 0, 0, 0, 0, 0, 0, 0, 0, 0, 0, 0, 0, 0,
    0, 46647, 0, 46678, 1231, 0, 0, 65535, 99, 1, 46651, 65535, 104, 1, 46655, 65535,
    102, 1, 46659, 65535, 111, 1, 46663, 65535, 114, 1, 46667, 65535, 107, 1, 46671, 65535,
    59, 1, 46675, 867, 0, 0, 65535, 59, 1, 46682, 1232, 0, 0, 65535, 97, 21,
    46709, 0, 0, 0, 0, 0, 0, 0, 0, 0, 0, 0, 0, 0, 0, 0,
    0, 0, 0, 0, 46799, 65535, 110, 1, 46713, 65535, 99, 9, 46725, 0, 0, 0,
    0, 0, 0, 0, 46788, 65535, 107, 1, 46729, 65535, 59, 46, 46778, 0, 0, 0,
    0, 0, 0, 0, 0, 0, 0, 0, 0, 0, 0, 0, 0, 0, 0, 0,
    0, 0, 0, 0, 0, 0, 0, 0, 0, 0, 0, 0, 0, 0, 0, 0,
    0, 0, 0, 0, 0, 0, 0, 0, 0, 46781, 926, 0, 0, 65535, 59, 1,
    46785, 1233, 0, 0, 65535, 118, 1, 46792, 65535, 59, 1, 46796, 926, 0, 0, 65535,
    115, 1, 46803, 65535, 59, 58, 46864, 0, 0, 0, 0, 0, 0, 0, 0, 0,
    0, 0, 0, 0, 0, 0, 0, 0, 0, 0, 0, 0, 0, 0, 0, 0,
    0, 0, 0, 0, 0, 0, 0, 0, 0, 0, 0, 0, 46867, 46886, 46893, 46908,
    46932, 0, 0, 0, 0, 0, 0, 0, 46939, 0, 0, 0, 0, 0, 46950, 46965,
    1234, 0, 0, 65535, 99, 1, 46871, 65535, 105, 1, 46875, 65535, 114, 1, 46879, 65535,
    59, 1, 46883, 1235, 0, 0, 65535, 59, 1, 46890, 678, 0, 0, 65535, 105, 1,
    46897, 65535, 114, 1, 46901, 65535, 59, 1, 46905, 1236, 0, 0, 65535, 111, 7, 46918,
    0, 0, 0, 0, 0, 46925, 65535, 59, 1, 46922, 796, 0, 0, 65535, 59, 1,
    46929, 1237, 0, 0, 65535, 59, 1, 46936, 1238, 0, 0, 65535, 110, 1, 46943, 368,
    59, 1, 46947, 368, 0, 0, 65535, 105, 1, 46954, 65535, 109, 1, 46958, 65535, 59,
    1, 46962, 1239, 0, 0, 65535, 119, 1, 46969, 65535, 111, 1, 46973, 65535, 59, 1,
    46977, 1240, 0, 0, 65535, 59, 1, 46984, 368, 0, 0, 65535, 105, 13, 47003, 0,
    0, 0, 0, 0, 0, 47030, 0, 0, 0, 0, 47041, 65535, 110, 1, 47007, 65535,
    116, 1, 47011, 65535, 105, 1, 47015, 65535, 110, 1, 47019, 65535, 116, 1, 47023, 65535,
    59, 1, 47027, 1241, 0, 0, 65535, 102, 1, 47034, 65535, 59, 1, 47038, 1242, 0,
    0, 65535, 110, 1, 47045, 65535, 100, 1, 47049, 1243, 59, 1, 47053, 1243, 0, 0,
    65535, 59, 59, 47118, 0, 0, 0, 0, 0, 0, 0, 0, 0, 47121, 0, 0,
    0, 0, 0, 0, 0, 0, 0, 0, 0, 0, 0, 0, 0, 0, 0, 0,
    0, 0, 0, 0, 0, 0, 0, 0, 0, 47128, 0, 47139, 0, 47154, 0, 0,
    0, 47427, 0, 0, 0, 0, 47505, 47588, 0, 0, 0, 47765, 0, 47780, 371, 0,
    0, 65535, 59, 1, 47125, 1244, 0, 0, 65535, 112, 1, 47132, 65535, 59, 1, 47136,
    1245, 0, 0, 65535, 117, 1, 47143, 65535, 101, 1, 47147, 65535, 59, 1, 47151, 373,
    0, 0, 65535, 59, 41, 47198, 0, 0, 0, 0, 0, 0, 0, 0, 0, 0,
    0, 0, 0, 0, 0, 0, 0, 0, 0, 0, 0, 0, 0, 0, 0, 0,
    0, 0, 0, 0, 0, 0, 0, 0, 0, 0, 0, 0, 0, 47201, 372, 0,
    0, 65535, 59, 57, 47261, 0, 0, 0, 0, 0, 0, 0, 0, 0, 0, 0,
    0, 0, 0, 0, 0, 0, 0, 0, 0, 0, 0, 0, 0, 0, 0, 0,
    0, 0, 0, 0, 0, 0, 0, 0, 0, 0, 47264, 0, 47291, 0, 47322, 0,
    0, 0, 0, 0, 0, 0, 0, 47333, 0, 0, 0, 0, 47412, 371, 0, 0,
    65535, 112, 1, 47268, 65535, 112, 1, 47272, 65535, 114, 1, 47276, 65535, 111, 1, 47280,
    65535, 120, 1, 47284, 65535, 59, 1, 47288, 1245, 0, 0, 65535, 117, 1, 47295, 65535,
    114, 1, 47299, 65535, 108, 1, 47303, 65535, 121, 1, 47307, 65535, 101, 1, 47311, 65535,
    113, 1, 47315, 65535, 59, 1, 47319, 373, 0, 0, 65535, 113, 1, 47326, 65535, 59,
    1, 47330, 372, 0, 0, 65535, 97, 19, 47355, 0, 0, 0, 47382, 0, 0, 0,
    0, 0, 0, 0, 0, 0, 0, 0, 0, 0, 47397, 65535, 112, 1, 47359, 65535,
    112, 1, 47363, 65535, 114, 1, 47367, 65535, 111, 1, 47371, 65535, 120, 1, 47375, 65535,
    59, 1, 47379, 1246, 0, 0, 65535, 113, 1, 47386, 65535, 113, 1, 47390, 65535, 59,
    1, 47394, 1247, 0, 0, 65535, 105, 1, 47401, 65535, 109, 1, 47405, 65535, 59, 1,
    47409, 1248, 0, 0, 65535, 105, 1, 47416, 65535, 109, 1, 47420, 65535, 59, 1, 47424,
    374, 0, 0, 65535, 109, 1, 47431, 65535, 101, 1, 47435, 65535, 59, 57, 47495, 0,
    0, 0, 0, 0, 0, 0, 0, 0, 0, 0, 0, 0, 0, 0, 0, 0,
    0, 0, 0, 0, 0, 0, 0, 0, 0, 0, 0, 0, 0, 0, 0, 0,
    0, 0, 0, 0, 0, 0, 0, 0, 0, 0, 0, 0, 0, 0, 0, 0,
    0, 0, 0, 0, 0, 0, 47498, 1249, 0, 0, 65535, 59, 1, 47502, 369, 0,
    0, 65535, 69, 47, 47555, 0, 0, 0, 0, 0, 0, 0, 0, 0, 0, 0,
    0, 0, 0, 0, 0, 0, 0, 0, 0, 0, 0, 0, 0, 0, 0, 0,
    47562, 0, 0, 0, 0, 0, 0, 0, 0, 0, 0, 0, 0, 0, 0, 0,
    0, 0, 47573, 65535, 59, 1, 47559, 1247, 0, 0, 65535, 112, 1, 47566, 65535, 59,
    1, 47570, 1246, 0, 0, 65535, 105, 1, 47577, 65535, 109, 1, 47581, 65535, 59, 1,
    47585, 1248, 0, 0, 65535, 100, 13, 47604, 0, 47611, 0, 0, 0, 0, 0, 0,
    0, 0, 0, 47690, 65535, 59, 1, 47608, 376, 0, 0, 65535, 97, 19, 47633, 0,
    0, 0, 0, 0, 0, 0, 0, 0, 0, 47652, 0, 0, 0, 0, 0, 0,
    47671, 65535, 108, 1, 47637, 65535, 97, 1, 47641, 65535, 114, 1, 47645, 65535, 59, 1,
    47649, 1250, 0, 0, 65535, 105, 1, 47656, 65535, 110, 1, 47660, 65535, 101, 1, 47664,
    65535, 59, 1, 47668, 1251, 0, 0, 65535, 117, 1, 47675, 65535, 114, 1, 47679, 65535,
    102, 1, 47683, 65535, 59, 1, 47687, 1252, 0, 0, 65535, 59, 58, 47751, 0, 0,
    0, 0, 0, 0, 0, 0, 0, 0, 0, 0, 0, 0, 0, 0, 0, 0,
    0, 0, 0, 0, 0, 0, 0, 0, 0, 0, 0, 0, 0, 0, 0, 0,
    0, 0, 0, 0, 0, 0, 0, 0, 0, 0, 0, 0, 0, 0, 0, 0,
    0, 0, 0, 0, 0, 0, 47754, 377, 0, 0, 65535, 111, 1, 47758, 65535, 59,
    1, 47762, 377, 0, 0, 65535, 105, 1, 47769, 65535, 109, 1, 47773, 65535, 59, 1,
    47777, 374, 0, 0, 65535, 114, 1, 47784, 65535, 101, 1, 47788, 65535, 108, 1, 47792,
    65535, 59, 1, 47796, 1253, 0, 0, 65535, 99, 7, 47809, 0, 0, 0, 0, 0,
    47820, 65535, 114, 1, 47813, 65535, 59, 1, 47817, 1254, 0, 0, 65535, 59, 1, 47824,
    1255, 0, 0, 65535, 110, 1, 47831, 65535, 99, 1, 47835, 65535, 115, 1, 47839, 65535,
    112, 1, 47843, 65535, 59, 1, 47847, 1256, 0, 0, 65535, 102, 16, 47869, 0, 0,
    47880, 0, 0, 0, 0, 0, 47895, 47910, 0, 0, 47933, 0, 47948, 65535, 114, 1,
    47873, 65535, 59, 1, 47877, 1257, 0, 0, 65535, 110, 1, 47884, 65535, 116, 1, 47888,
    65535, 59, 1, 47892, 950, 0, 0, 65535, 112, 1, 47899, 65535, 102, 1, 47903, 65535,
    59, 1, 47907, 1258, 0, 0, 65535, 114, 1, 47914, 65535, 105, 1, 47918, 65535, 109,
    1, 47922, 65535, 101, 1, 47926, 65535, 59, 1, 47930, 1259, 0, 0, 65535, 99, 1,
    47937, 65535, 114, 1, 47941, 65535, 59, 1, 47945, 1260, 0, 0, 65535, 97, 15, 47966,
    0, 0, 0, 48024, 0, 0, 0, 0, 0, 0, 0, 0, 0, 48092, 65535, 116,
    1, 47970, 65535, 101, 5, 47978, 0, 0, 0, 48009, 65535, 114, 1, 47982, 65535, 110,
    1, 47986, 65535, 105, 1, 47990, 65535, 111, 1, 47994, 65535, 110, 1, 47998, 65535, 115,
    1, 48002, 65535, 59, 1, 48006, 171, 0, 0, 65535, 110, 1, 48013, 65535, 116, 1,
    48017, 65535, 59, 1, 48021, 1261, 0, 0, 65535, 115, 1, 48028, 65535, 116, 1, 48032,
    65535, 59, 43, 48078, 0, 0, 0, 0, 0, 0, 0, 0, 0, 0, 0, 0,
    0, 0, 0, 0, 0, 0, 0, 0, 0, 0, 0, 0, 0, 0, 0, 0,
    0, 0, 0, 0, 0, 0, 0, 0, 0, 0, 0, 0, 0, 48081, 1262, 0,
    0, 65535, 113, 1, 48085, 65535, 59, 1, 48089, 843, 0, 0, 65535, 116, 1, 48096,
    380, 59, 1, 48100, 380, 0, 0, 65535, 65, 56, 48162, 48230, 0, 0, 0, 0,
    0, 48249, 0, 0, 0, 0, 0, 0, 0, 0, 0, 0, 0, 0, 0, 0,
    0, 0, 0, 0, 0, 0, 0, 0, 0, 0, 48264, 48804, 48961, 49061, 49203, 49339,
    0, 49397, 49583, 0, 0, 50076, 50129, 50209, 50228, 50367, 0, 50479, 50498, 50658, 50803, 0,
    0, 50830, 65535, 97, 20, 48185, 0, 0, 0, 0, 0, 0, 0, 0, 0, 0,
    0, 0, 0, 0, 0, 0, 48200, 0, 48211, 65535, 114, 1, 48189, 65535, 114, 1,
    48193, 65535, 59, 1, 48197, 422, 0, 0, 65535, 114, 1, 48204, 65535, 59, 1, 48208,
    92, 0, 0, 65535, 97, 1, 48215, 65535, 105, 1, 48219, 65535, 108, 1, 48223, 65535,
    59, 1, 48227, 1263, 0, 0, 65535, 97, 1, 48234, 65535, 114, 1, 48238, 65535, 114,
    1, 48242, 65535, 59, 1, 48246, 774, 0, 0, 65535, 97, 1, 48253, 65535, 114, 1,
    48257, 65535, 59, 1, 48261, 1264, 0, 0, 65535, 99, 18, 48285, 48327, 48342, 0, 0,
    0, 0, 0, 0, 0, 0, 48369, 0, 0, 48454, 48469, 0, 48696, 65535, 101, 17,
    48305, 0, 0, 0, 0, 0, 0, 0, 0, 0, 0, 0, 0, 0, 0, 0,
    48312, 65535, 59, 1, 48309, 1265, 0, 0, 65535, 116, 1, 48316, 65535, 101, 1, 48320,
    65535, 59, 1, 48324, 1266, 0, 0, 65535, 105, 1, 48331, 65535, 99, 1, 48335, 65535,
    59, 1, 48339, 440, 0, 0, 65535, 109, 1, 48346, 65535, 112, 1, 48350, 65535, 116,
    1, 48354, 65535, 121, 1, 48358, 65535, 118, 1, 48362, 65535, 59, 1, 48366, 1267, 0,
    0, 65535, 103, 1, 48373, 65535, 59, 50, 48426, 0, 0, 0, 0, 0, 0, 0,
    0, 0, 0, 0, 0, 0, 0, 0, 0, 0, 0, 0, 0, 0, 0, 0,
    0, 0, 0, 0, 0, 0, 0, 0, 0, 0, 0, 0, 0, 0, 0, 0,
    0, 48429, 48436, 0, 0, 0, 0, 0, 0, 48443, 398, 0, 0, 65535, 59, 1,
    48433, 1268, 0, 0, 65535, 59, 1, 48440, 1269, 0, 0, 65535, 101, 1, 48447, 65535,
    59, 1, 48451, 398, 0, 0, 65535, 117, 1, 48458, 65535, 111, 1, 48462, 1270, 59,
    1, 48466, 1270, 0, 0, 65535, 114, 1, 48473, 65535, 59, 61, 48537, 0, 0, 0,
    0, 0, 0, 0, 0, 0, 0, 0, 0, 0, 0, 0, 0, 0, 0, 0,
    0, 0, 0, 0, 0, 0, 0, 0, 0, 0, 0, 0, 0, 0, 0, 0,
    0, 0, 48540, 48551, 48612, 0, 0, 48619, 0, 48630, 0, 0, 0, 48641, 0, 0,
    0, 48652, 0, 0, 48663, 48678, 0, 0, 48689, 399, 0, 0, 65535, 112, 1, 48544,
    65535, 59, 1, 48548, 1271, 0, 0, 65535, 59, 44, 48598, 0, 0, 0, 0, 0,
    0, 0, 0, 0, 0, 0, 0, 0, 0, 0, 0, 0, 0, 0, 0, 0,
    0, 0, 0, 0, 0, 0, 0, 0, 0, 0, 0, 0, 0, 0, 0, 0,
    0, 0, 0, 0, 0, 48601, 400, 0, 0, 65535, 115, 1, 48605, 65535, 59, 1,
    48609, 1272, 0, 0, 65535, 59, 1, 48616, 1273, 0, 0, 65535, 115, 1, 48623, 65535,
    59, 1, 48627, 1274, 0, 0, 65535, 107, 1, 48634, 65535, 59, 1, 48638, 937, 0,
];

/// Entry `i` of this part; 0 where the part has no such entry.
#[verifier::opaque]
pub open spec fn cell(i: int) -> u16 {
    if 0 <= i < 2560 {
        CELLS[i]
    } else {
        0
    }
}

/// Reads entry `i` of this part.
pub fn read_cell(i: usize) -> (entry: u16)
    ensures
        entry == cell(i as int),
{
    reveal(cell);
    if i < 2560 {
        CELLS[i]
    } else {
        0
    }
}

} // verus!
