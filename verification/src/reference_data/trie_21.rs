//! Cells 53760 to 56319 of the trie table.
use vstd::prelude::*;

verus! {

/// The entries of this part, in order.
pub const CELLS: [u16; 2560] = [
    0, 0, 0, 0, 0, 0, 0, 0, 0, 0, 0, 0, 0, 0, 0, 0,
    0, 0, 0, 0, 0, 0, 0, 0, 0, 53793, 65535, 59, 1, 53790, 1375, 0,
    0, 65535, 59, 1, 53797, 1376, 0, 0, 65535, 108, 1, 53804, 65535, 117, 1, 53808,
    65535, 115, 1, 53812, 65535, 59, 1, 53816, 1377, 0, 0, 65535, 97, 1, 53823, 65535,
    114, 1, 53827, 65535, 114, 1, 53831, 65535, 59, 1, 53835, 1378, 0, 0, 65535, 101,
    17, 53858, 0, 0, 0, 54068, 0, 0, 0, 0, 0, 0, 0, 0, 0, 0,
    0, 54079, 65535, 116, 1, 53862, 65535, 59, 52, 53917, 0, 0, 0, 0, 0, 0,
    0, 0, 0, 0, 0, 0, 0, 0, 0, 0, 0, 0, 0, 0, 0, 0,
    0, 0, 0, 0, 0, 0, 0, 0, 0, 0, 0, 0, 0, 0, 0, 0,
    0, 0, 0, 53920, 0, 0, 0, 0, 0, 0, 0, 0, 53992, 1370, 0, 0,
    65535, 113, 1, 53924, 65535, 59, 55, 53982, 0, 0, 0, 0, 0, 0, 0, 0,
    0, 0, 0, 0, 0, 0, 0, 0, 0, 0, 0, 0, 0, 0, 0, 0,
    0, 0, 0, 0, 0, 0, 0, 0, 0, 0, 0, 0, 0, 0, 0, 0,
    0, 0, 0, 0, 0, 0, 0, 0, 0, 0, 0, 0, 0, 53985, 451, 0,
    0, 65535, 59, 1, 53989, 1371, 0, 0, 65535, 101, 1, 53996, 65535, 113, 1, 54000,
    65535, 59, 55, 54058, 0, 0, 0, 0, 0, 0, 0, 0, 0, 0, 0, 0,
    0, 0, 0, 0, 0, 0, 0, 0, 0, 0, 0, 0, 0, 0, 0, 0,
    0, 0, 0, 0, 0, 0, 0, 0, 0, 0, 0, 0, 0, 0, 0, 0,
    0, 0, 0, 0, 0, 0, 0, 0, 0, 54061, 1376, 0, 0, 65535, 59, 1,
    54065, 1375, 0, 0, 65535, 109, 1, 54072, 65535, 59, 1, 54076, 1379, 0, 0, 65535,
    98, 15, 54097, 0, 0, 0, 0, 0, 0, 0, 0, 0, 0, 0, 0, 0,
    54104, 65535, 59, 1, 54101, 1380, 0, 0, 65535, 59, 1, 54108, 1381, 0, 0, 65535,
    99, 1, 54115, 65535, 59, 57, 54175, 0, 0, 0, 0, 0, 0, 0, 0, 0,
    0, 0, 0, 0, 0, 0, 0, 0, 0, 0, 0, 0, 0, 0, 0, 0,
    0, 0, 0, 0, 0, 0, 0, 0, 0, 0, 0, 0, 54178, 0, 54205, 0,
    54236, 0, 0, 0, 0, 0, 0, 0, 0, 54247, 0, 0, 0, 0, 54326, 452,
    0, 0, 65535, 112, 1, 54182, 65535, 112, 1, 54186, 65535, 114, 1, 54190, 65535, 111,
    1, 54194, 65535, 120, 1, 54198, 65535, 59, 1, 54202, 1323, 0, 0, 65535, 117, 1,
    54209, 65535, 114, 1, 54213, 65535, 108, 1, 54217, 65535, 121, 1, 54221, 65535, 101, 1,
    54225, 65535, 113, 1, 54229, 65535, 59, 1, 54233, 454, 0, 0, 65535, 113, 1, 54240,
    65535, 59, 1, 54244, 453, 0, 0, 65535, 97, 19, 54269, 0, 0, 0, 54296, 0,
    0, 0, 0, 0, 0, 0, 0, 0, 0, 0, 0, 0, 54311, 65535, 112, 1,
    54273, 65535, 112, 1, 54277, 65535, 114, 1, 54281, 65535, 111, 1, 54285, 65535, 120, 1,
    54289, 65535, 59, 1, 54293, 1328, 0, 0, 65535, 113, 1, 54300, 65535, 113, 1, 54304,
    65535, 59, 1, 54308, 1327, 0, 0, 65535, 105, 1, 54315, 65535, 109, 1, 54319, 65535,
    59, 1, 54323, 1329, 0, 0, 65535, 105, 1, 54330, 65535, 109, 1, 54334, 65535, 59,
    1, 54338, 455, 0, 0, 65535, 59, 1, 54345, 456, 0, 0, 65535, 103, 1, 54352,
    65535, 59, 1, 54356, 1382, 0, 0, 65535, 49, 67, 54429, 54436, 54443, 0, 0, 0,
    0, 0, 0, 0, 54450, 0, 0, 0, 0, 0, 0, 0, 0, 0, 54453, 0,
    0, 0, 0, 0, 0, 0, 0, 0, 0, 0, 0, 0, 0, 0, 0, 0,
    0, 0, 0, 0, 0, 0, 0, 0, 0, 0, 0, 0, 0, 54460, 54494, 0,
    0, 54557, 0, 0, 0, 54593, 54612, 54631, 0, 54681, 0, 0, 54700, 1383, 59, 1,
    54433, 1383, 0, 0, 1384, 59, 1, 54440, 1384, 0, 0, 1385, 59, 1, 54447, 1385,
    0, 0, 458, 0, 0, 65535, 59, 1, 54457, 1386, 0, 0, 65535, 111, 5, 54468,
    0, 0, 0, 54479, 65535, 116, 1, 54472, 65535, 59, 1, 54476, 1387, 0, 0, 65535,
    117, 1, 54483, 65535, 98, 1, 54487, 65535, 59, 1, 54491, 1388, 0, 0, 65535, 59,
    42, 54539, 0, 0, 0, 0, 0, 0, 0, 0, 0, 0, 0, 0, 0, 0,
    0, 0, 0, 0, 0, 0, 0, 0, 0, 0, 0, 0, 0, 0, 0, 0,
    0, 0, 0, 0, 0, 0, 0, 0, 0, 0, 54542, 459, 0, 0, 65535, 111,
    1, 54546, 65535, 116, 1, 54550, 65535, 59, 1, 54554, 1389, 0, 0, 65535, 115, 1,
    54561, 65535, 111, 7, 54571, 0, 0, 0, 0, 0, 54582, 65535, 108, 1, 54575, 65535,
    59, 1, 54579, 1390, 0, 0, 65535, 98, 1, 54586, 65535, 59, 1, 54590, 1391, 0,
    0, 65535, 97, 1, 54597, 65535, 114, 1, 54601, 65535, 114, 1, 54605, 65535, 59, 1,
    54609, 1392, 0, 0, 65535, 117, 1, 54616, 65535, 108, 1, 54620, 65535, 116, 1, 54624,
    65535, 59, 1, 54628, 1393, 0, 0, 65535, 69, 33, 54667, 0, 0, 0, 0, 0,
    0, 0, 0, 0, 0, 0, 0, 0, 0, 0, 0, 0, 0, 0, 0, 0,
    0, 0, 0, 0, 0, 0, 0, 0, 0, 0, 54674, 65535, 59, 1, 54671, 1394,
    0, 0, 65535, 59, 1, 54678, 1395, 0, 0, 65535, 108, 1, 54685, 65535, 117, 1,
    54689, 65535, 115, 1, 54693, 65535, 59, 1, 54697, 1396, 0, 0, 65535, 101, 17, 54720,
    0, 0, 0, 54930, 0, 0, 0, 0, 0, 0, 0, 0, 0, 0, 0, 54941,
    65535, 116, 1, 54724, 65535, 59, 52, 54779, 0, 0, 0, 0, 0, 0, 0, 0,
    0, 0, 0, 0, 0, 0, 0, 0, 0, 0, 0, 0, 0, 0, 0, 0,
    0, 0, 0, 0, 0, 0, 0, 0, 0, 0, 0, 0, 0, 0, 0, 0,
    0, 54782, 0, 0, 0, 0, 0, 0, 0, 0, 54854, 458, 0, 0, 65535, 113,
    1, 54786, 65535, 59, 55, 54844, 0, 0, 0, 0, 0, 0, 0, 0, 0, 0,
    0, 0, 0, 0, 0, 0, 0, 0, 0, 0, 0, 0, 0, 0, 0, 0,
    0, 0, 0, 0, 0, 0, 0, 0, 0, 0, 0, 0, 0, 0, 0, 0,
    0, 0, 0, 0, 0, 0, 0, 0, 0, 0, 0, 54847, 459, 0, 0, 65535,
    59, 1, 54851, 1386, 0, 0, 65535, 101, 1, 54858, 65535, 113, 1, 54862, 65535, 59,
    55, 54920, 0, 0, 0, 0, 0, 0, 0, 0, 0, 0, 0, 0, 0, 0,
    0, 0, 0, 0, 0, 0, 0, 0, 0, 0, 0, 0, 0, 0, 0, 0,
    0, 0, 0, 0, 0, 0, 0, 0, 0, 0, 0, 0, 0, 0, 0, 0,
    0, 0, 0, 0, 0, 0, 0, 54923, 1395, 0, 0, 65535, 59, 1, 54927, 1394,
    0, 0, 65535, 109, 1, 54934, 65535, 59, 1, 54938, 1397, 0, 0, 65535, 98, 15,
    54959, 0, 0, 0, 0, 0, 0, 0, 0, 0, 0, 0, 0, 0, 54966, 65535,
    59, 1, 54963, 1398, 0, 0, 65535, 59, 1, 54970, 1399, 0, 0, 65535, 65, 46,
    55022, 0, 0, 0, 0, 0, 0, 0, 0, 0, 0, 0, 0, 0, 0, 0,
    0, 0, 0, 0, 0, 0, 0, 0, 0, 0, 0, 0, 0, 0, 0, 0,
    55037, 0, 0, 0, 0, 0, 0, 0, 0, 0, 0, 0, 0, 55136, 65535, 114,
    1, 55026, 65535, 114, 1, 55030, 65535, 59, 1, 55034, 1400, 0, 0, 65535, 114, 1,
    55041, 65535, 104, 11, 55055, 0, 0, 0, 0, 0, 0, 0, 0, 0, 55066, 65535,
    107, 1, 55059, 65535, 59, 1, 55063, 933, 0, 0, 65535, 59, 53, 55122, 0, 0,
    0, 0, 0, 0, 0, 0, 0, 0, 0, 0, 0, 0, 0, 0, 0, 0,
    0, 0, 0, 0, 0, 0, 0, 0, 0, 0, 0, 0, 0, 0, 0, 0,
    0, 0, 0, 0, 0, 0, 0, 0, 0, 0, 0, 0, 0, 0, 0, 0,
    0, 55125, 261, 0, 0, 65535, 119, 1, 55129, 65535, 59, 1, 55133, 261, 0, 0,
    65535, 119, 1, 55140, 65535, 97, 1, 55144, 65535, 114, 1, 55148, 65535, 59, 1, 55152,
    1401, 0, 0, 65535, 108, 1, 55159, 65535, 105, 1, 55163, 65535, 103, 1, 55167, 1402,
    59, 1, 55171, 1402, 0, 0, 65535, 97, 23, 55200, 55233, 55248, 55321, 55336, 55359, 0,
    55370, 55727, 0, 0, 0, 0, 0, 55878, 56072, 0, 56095, 56525, 0, 0, 0, 56605,
    65535, 114, 4, 55207, 0, 0, 55226, 65535, 103, 1, 55211, 65535, 101, 1, 55215, 65535,
    116, 1, 55219, 65535, 59, 1, 55223, 1403, 0, 0, 65535, 59, 1, 55230, 1404, 0,
    0, 65535, 114, 1, 55237, 65535, 107, 1, 55241, 65535, 59, 1, 55245, 361, 0, 0,
    65535, 97, 25, 55276, 0, 0, 0, 55295, 0, 0, 0, 0, 0, 0, 0, 0,
    0, 0, 0, 0, 0, 0, 0, 0, 0, 0, 0, 55314, 65535, 114, 1, 55280,
    65535, 111, 1, 55284, 65535, 110, 1, 55288, 65535, 59, 1, 55292, 1405, 0, 0, 65535,
    100, 1, 55299, 65535, 105, 1, 55303, 65535, 108, 1, 55307, 65535, 59, 1, 55311, 1406,
    0, 0, 65535, 59, 1, 55318, 1407, 0, 0, 65535, 111, 1, 55325, 65535, 116, 1,
    55329, 65535, 59, 1, 55333, 479, 0, 0, 65535, 108, 1, 55340, 65535, 114, 1, 55344,
    65535, 101, 1, 55348, 65535, 99, 1, 55352, 65535, 59, 1, 55356, 1408, 0, 0, 65535,
    114, 1, 55363, 65535, 59, 1, 55367, 1409, 0, 0, 65535, 101, 11, 55384, 0, 0,
    0, 55566, 0, 55664, 0, 0, 0, 55712, 65535, 114, 3, 55390, 0, 55474, 65535, 101,
    1, 55394, 65535, 52, 51, 55448, 0, 0, 0, 0, 0, 0, 0, 0, 0, 0,
    0, 0, 0, 0, 0, 0, 0, 0, 0, 0, 0, 0, 0, 0, 0, 0,
    0, 0, 0, 0, 0, 0, 0, 0, 0, 0, 0, 0, 0, 0, 0, 0,
    0, 0, 0, 0, 0, 0, 0, 55455, 65535, 59, 1, 55452, 470, 0, 0, 65535,
    111, 1, 55459, 65535, 114, 1, 55463, 65535, 101, 1, 55467, 65535, 59, 1, 55471, 470,
    0, 0, 65535, 97, 1, 55478, 65535, 59, 60, 55541, 0, 0, 0, 0, 0, 0,
    0, 0, 0, 0, 0, 0, 0, 0, 0, 0, 0, 0, 0, 0, 0, 0,
    0, 0, 0, 0, 0, 0, 0, 0, 0, 0, 0, 0, 0, 0, 0, 0,
    0, 0, 0, 0, 0, 0, 0, 0, 0, 0, 0, 0, 0, 0, 0, 0,
    0, 55544, 0, 0, 55559, 1410, 0, 0, 65535, 121, 1, 55548, 65535, 109, 1, 55552,
    65535, 59, 1, 55556, 1411, 0, 0, 65535, 59, 1, 55563, 1411, 0, 0, 65535, 99,
    12, 55581, 0, 0, 0, 0, 0, 0, 0, 0, 0, 0, 55649, 65535, 107, 1,
    55585, 65535, 97, 19, 55607, 0, 0, 0, 0, 0, 0, 0, 0, 0, 0, 0,
    0, 0, 0, 0, 0, 0, 55634, 65535, 112, 1, 55611, 65535, 112, 1, 55615, 65535,
    114, 1, 55619, 65535, 111, 1, 55623, 65535, 120, 1, 55627, 65535, 59, 1, 55631, 477,
    0, 0, 65535, 105, 1, 55638, 65535, 109, 1, 55642, 65535, 59, 1, 55646, 474, 0,
    0, 65535, 115, 1, 55653, 65535, 112, 1, 55657, 65535, 59, 1, 55661, 473, 0, 0,
    65535, 97, 19, 55686, 0, 0, 0, 0, 0, 0, 0, 0, 0, 0, 0, 0,
    0, 0, 0, 0, 0, 55697, 65535, 112, 1, 55690, 65535, 59, 1, 55694, 477, 0,
    0, 65535, 105, 1, 55701, 65535, 109, 1, 55705, 65535, 59, 1, 55709, 474, 0, 0,
    65535, 114, 1, 55716, 65535, 110, 1, 55720, 1412, 59, 1, 55724, 1412, 0, 0, 65535,
    108, 3, 55733, 55748, 55867, 65535, 100, 1, 55737, 65535, 101, 1, 55741, 65535, 59, 1,
    55745, 79, 0, 0, 65535, 101, 1, 55752, 65535, 115, 1, 55756, 1413, 59, 42, 55801,
    0, 0, 0, 0, 0, 0, 0, 0, 0, 0, 0, 0, 0, 0, 0, 0,
    0, 0, 0, 0, 0, 0, 0, 0, 0, 0, 0, 0, 0, 0, 0, 0,
    0, 0, 0, 0, 0, 0, 55804, 0, 55860, 1413, 0, 0, 65535, 59, 39, 55846,
    0, 0, 0, 0, 0, 0, 0, 0, 0, 0, 0, 0, 0, 0, 0, 0,
    0, 0, 0, 0, 0, 0, 0, 0, 0, 0, 0, 0, 0, 0, 0, 0,
    0, 0, 0, 0, 0, 55849, 679, 0, 0, 65535, 114, 1, 55853, 65535, 59, 1,
    55857, 1414, 0, 0, 65535, 59, 1, 55864, 1415, 0, 0, 65535, 116, 1, 55871, 65535,
    59, 1, 55875, 951, 0, 0, 65535, 101, 15, 55896, 0, 0, 0, 0, 0, 0,
    0, 0, 0, 0, 55907, 0, 0, 56061, 65535, 97, 1, 55900, 65535, 59, 1, 55904,
    1130, 0, 0, 65535, 59, 44, 55954, 0, 0, 0, 0, 0, 0, 0, 0, 0,
    0, 0, 0, 0, 0, 0, 0, 0, 0, 0, 0, 0, 0, 0, 0, 0,
    0, 0, 0, 0, 0, 0, 0, 0, 0, 0, 0, 0, 0, 55957, 55972, 0,
    0, 55987, 108, 0, 0, 65535, 111, 1, 55961, 65535, 116, 1, 55965, 65535, 59, 1,
    55969, 1416, 0, 0, 65535, 105, 1, 55976, 65535, 114, 1, 55980, 65535, 59, 1, 55984,
    1417, 0, 0, 65535, 59, 53, 56043, 0, 0, 0, 0, 0, 0, 0, 0, 0,
    0, 0, 0, 0, 0, 0, 0, 0, 0, 0, 0, 0, 0, 0, 0, 0,
    0, 0, 0, 0, 0, 0, 0, 0, 0, 0, 0, 0, 0, 0, 0, 0,
    0, 0, 0, 0, 0, 0, 0, 0, 0, 0, 56046, 1418, 0, 0, 65535, 114,
    1, 56050, 65535, 107, 1, 56054, 65535, 59, 1, 56058, 1419, 0, 0, 65535, 97, 1,
    56065, 65535, 59, 1, 56069, 1337, 0, 0, 65535, 114, 1, 56076, 65535, 105, 1, 56080,
    65535, 109, 1, 56084, 65535, 101, 1, 56088, 65535, 59, 1, 56092, 1420, 0, 0, 65535,
    97, 16, 56114, 0, 0, 0, 0, 0, 0, 0, 56129, 0, 0, 0, 0, 0,
    0, 56498, 65535, 100, 1, 56118, 65535, 101, 1, 56122, 65535, 59, 1, 56126, 461, 0,
    0, 65535, 97, 20, 56152, 0, 0, 56404, 56419, 0, 0, 0, 0, 0, 0, 0,
    56426, 0, 0, 56449, 0, 0, 56468, 56479, 65535, 110, 1, 56156, 65535, 103, 1, 56160,
    65535, 108, 1, 56164, 65535, 101, 1, 56168, 65535, 59, 56, 56227, 0, 0, 0, 0,
    0, 0, 0, 0, 0, 0, 0, 0, 0, 0, 0, 0, 0, 0, 0, 0,
    0, 0, 0, 0, 0, 0, 0, 0, 0, 0, 0, 0, 0, 0, 0, 0,
    0, 0, 0, 0, 56230, 0, 0, 0, 0, 0, 0, 0, 56249, 0, 0, 0,
    0, 56321, 56328, 1421, 0, 0, 65535, 111, 1, 56234, 65535, 119, 1, 56238, 65535, 110,
    1, 56242, 65535, 59, 1, 56246, 805, 0, 0, 65535, 101, 1, 56253, 65535, 102, 1,
    56257, 65535, 116, 1, 56261, 65535, 59, 43, 56307, 0, 0, 0, 0, 0, 0, 0,
    0, 0, 0, 0, 0, 0, 0, 0, 0, 0, 0, 0, 0, 0, 0, 0,
    0, 0, 0, 0, 0, 0, 0, 0, 0, 0, 0, 0, 0, 0, 0, 0,
    0, 0, 56310, 1081, 0, 0, 65535, 113, 1, 56314, 65535, 59, 1, 56318, 240, 0,
];

/// Entry `i` of this part; 0 where the part has no such entry.
#[verifier::opaque]
pub open spec fn cell(i: int) -> u16 {
    if 0 <= i < 2560 {
        CELLS[i]
    } else {
        0
    }
}

/// Reads entry `i` of this part.
pub fn read_cell(i: usize) -> (entry: u16)
    ensures
        entry == cell(i as int),
{
    reveal(cell);
    if i < 2560 {
        CELLS[i]
    } else {
        0
    }
}

} // verus!
