//! Cells 43520 to 46079 of the trie table.
use vstd::prelude::*;

verus! {

/// The entries of this part, in order.
pub const CELLS: [u16; 2560] = [
    0, 0, 0, 0, 0, 0, 0, 0, 0, 0, 0, 0, 0, 0, 0, 0,
    0, 0, 0, 0, 0, 0, 0, 0, 43569, 0, 0, 0, 0, 0, 0, 0,
    0, 0, 0, 0, 0, 0, 43576, 1155, 0, 0, 65535, 59, 1, 43566, 1156, 0,
    0, 65535, 59, 1, 43573, 325, 0, 0, 65535, 101, 1, 43580, 65535, 116, 1, 43584,
    65535, 59, 43, 43630, 0, 0, 0, 0, 0, 0, 0, 0, 0, 0, 0, 0,
    0, 0, 0, 0, 0, 0, 0, 0, 0, 0, 0, 0, 0, 0, 0, 0,
    0, 0, 0, 0, 0, 0, 0, 0, 0, 0, 0, 0, 0, 43633, 324, 0,
    0, 65535, 113, 1, 43637, 65535, 59, 55, 43695, 0, 0, 0, 0, 0, 0, 0,
    0, 0, 0, 0, 0, 0, 0, 0, 0, 0, 0, 0, 0, 0, 0, 0,
    0, 0, 0, 0, 0, 0, 0, 0, 0, 0, 0, 0, 0, 0, 0, 0,
    0, 0, 0, 0, 0, 0, 0, 0, 0, 0, 0, 0, 0, 0, 43698, 325,
    0, 0, 65535, 59, 1, 43702, 1156, 0, 0, 65535, 99, 1, 43709, 65535, 59, 43,
    43755, 0, 0, 0, 0, 0, 0, 0, 0, 0, 0, 0, 0, 0, 0, 0,
    0, 0, 0, 0, 0, 0, 0, 0, 0, 0, 0, 0, 0, 0, 0, 0,
    0, 0, 0, 0, 0, 0, 0, 0, 0, 0, 43758, 326, 0, 0, 65535, 113,
    1, 43762, 65535, 59, 1, 43766, 327, 0, 0, 65535, 59, 57, 43829, 0, 0, 0,
    0, 0, 0, 0, 0, 0, 43832, 0, 0, 0, 0, 0, 0, 0, 0, 0,
    0, 0, 0, 0, 0, 0, 0, 0, 0, 0, 0, 0, 0, 0, 0, 0,
    0, 0, 0, 0, 0, 0, 43839, 0, 0, 0, 0, 0, 0, 0, 0, 0,
    0, 0, 0, 0, 43846, 1157, 0, 0, 65535, 59, 1, 43836, 1158, 0, 0, 65535,
    59, 1, 43843, 331, 0, 0, 65535, 101, 1, 43850, 65535, 116, 1, 43854, 65535, 59,
    43, 43900, 0, 0, 0, 0, 0, 0, 0, 0, 0, 0, 0, 0, 0, 0,
    0, 0, 0, 0, 0, 0, 0, 0, 0, 0, 0, 0, 0, 0, 0, 0,
    0, 0, 0, 0, 0, 0, 0, 0, 0, 0, 0, 43903, 330, 0, 0, 65535,
    113, 1, 43907, 65535, 59, 55, 43965, 0, 0, 0, 0, 0, 0, 0, 0, 0,
    0, 0, 0, 0, 0, 0, 0, 0, 0, 0, 0, 0, 0, 0, 0, 0,
    0, 0, 0, 0, 0, 0, 0, 0, 0, 0, 0, 0, 0, 0, 0, 0,
    0, 0, 0, 0, 0, 0, 0, 0, 0, 0, 0, 0, 43968, 331, 0, 0,
    65535, 59, 1, 43972, 1158, 0, 0, 65535, 103, 12, 43990, 0, 44001, 0, 0, 44020,
    0, 0, 0, 0, 0, 44031, 65535, 108, 1, 43994, 65535, 59, 1, 43998, 297, 0,
    0, 65535, 108, 1, 44005, 65535, 100, 1, 44009, 65535, 101, 1, 44013, 1159, 59, 1,
    44017, 1159, 0, 0, 65535, 103, 1, 44024, 65535, 59, 1, 44028, 307, 0, 0, 65535,
    105, 1, 44035, 65535, 97, 1, 44039, 65535, 110, 1, 44043, 65535, 103, 1, 44047, 65535,
    108, 1, 44051, 65535, 101, 1, 44055, 65535, 108, 7, 44065, 0, 0, 0, 0, 0,
    44137, 65535, 101, 1, 44069, 65535, 102, 1, 44073, 65535, 116, 1, 44077, 65535, 59, 43,
    44123, 0, 0, 0, 0, 0, 0, 0, 0, 0, 0, 0, 0, 0, 0, 0,
    0, 0, 0, 0, 0, 0, 0, 0, 0, 0, 0, 0, 0, 0, 0, 0,
    0, 0, 0, 0, 0, 0, 0, 0, 0, 0, 44126, 302, 0, 0, 65535, 113,
    1, 44130, 65535, 59, 1, 44134, 304, 0, 0, 65535, 105, 1, 44141, 65535, 103, 1,
    44145, 65535, 104, 1, 44149, 65535, 116, 1, 44153, 65535, 59, 43, 44199, 0, 0, 0,
    0, 0, 0, 0, 0, 0, 0, 0, 0, 0, 0, 0, 0, 0, 0, 0,
    0, 0, 0, 0, 0, 0, 0, 0, 0, 0, 0, 0, 0, 0, 0, 0,
    0, 0, 0, 0, 0, 0, 44202, 317, 0, 0, 65535, 113, 1, 44206, 65535, 59,
    1, 44210, 319, 0, 0, 65535, 59, 51, 44267, 0, 0, 0, 0, 0, 0, 0,
    0, 0, 0, 0, 0, 0, 0, 0, 0, 0, 0, 0, 0, 0, 0, 0,
    0, 0, 0, 0, 0, 0, 0, 0, 0, 0, 0, 0, 0, 0, 0, 0,
    0, 0, 0, 0, 0, 0, 0, 0, 0, 0, 44270, 1160, 0, 0, 65535, 59,
    57, 44330, 0, 0, 0, 0, 0, 0, 0, 0, 0, 0, 0, 0, 0, 0,
    0, 0, 0, 0, 0, 0, 0, 0, 0, 0, 0, 0, 0, 0, 0, 0,
    0, 0, 0, 0, 0, 0, 0, 0, 0, 0, 0, 44333, 0, 0, 0, 0,
    0, 0, 0, 0, 0, 0, 0, 0, 0, 44348, 1161, 0, 0, 65535, 114, 1,
    44337, 65535, 111, 1, 44341, 65535, 59, 1, 44345, 1162, 0, 0, 65535, 112, 1, 44352,
    65535, 59, 1, 44356, 1163, 0, 0, 65535, 68, 48, 44410, 0, 0, 0, 44429, 0,
    0, 0, 0, 0, 0, 0, 0, 0, 0, 0, 0, 0, 0, 0, 0, 0,
    0, 0, 0, 0, 0, 0, 0, 44448, 0, 0, 44459, 0, 0, 44478, 0, 44511,
    0, 0, 44534, 0, 0, 0, 0, 0, 44688, 44777, 65535, 97, 1, 44414, 65535, 115,
    1, 44418, 65535, 104, 1, 44422, 65535, 59, 1, 44426, 1164, 0, 0, 65535, 97, 1,
    44433, 65535, 114, 1, 44437, 65535, 114, 1, 44441, 65535, 59, 1, 44445, 1165, 0, 0,
    65535, 112, 1, 44452, 65535, 59, 1, 44456, 1166, 0, 0, 65535, 97, 1, 44463, 65535,
    115, 1, 44467, 65535, 104, 1, 44471, 65535, 59, 1, 44475, 1167, 0, 0, 65535, 101,
    16, 44497, 0, 0, 0, 0, 0, 0, 0, 0, 0, 0, 0, 0, 0, 0,
    44504, 65535, 59, 1, 44501, 1168, 0, 0, 65535, 59, 1, 44508, 1169, 0, 0, 65535,
    110, 1, 44515, 65535, 102, 1, 44519, 65535, 105, 1, 44523, 65535, 110, 1, 44527, 65535,
    59, 1, 44531, 1170, 0, 0, 65535, 65, 52, 44589, 0, 0, 0, 0, 0, 0,
    0, 0, 0, 0, 0, 0, 0, 0, 0, 0, 0, 0, 0, 0, 0, 0,
    0, 0, 0, 0, 0, 0, 0, 0, 0, 0, 0, 0, 0, 44604, 0, 0,
    0, 0, 0, 0, 0, 0, 0, 0, 0, 0, 0, 0, 44611, 65535, 114, 1,
    44593, 65535, 114, 1, 44597, 65535, 59, 1, 44601, 1171, 0, 0, 65535, 59, 1, 44608,
    1172, 0, 0, 65535, 59, 56, 44670, 0, 0, 0, 0, 0, 0, 0, 0, 0,
    0, 0, 0, 0, 0, 0, 0, 0, 0, 0, 0, 0, 0, 0, 0, 0,
    0, 0, 0, 0, 0, 0, 0, 0, 0, 0, 0, 0, 0, 0, 0, 0,
    0, 0, 0, 0, 0, 0, 0, 0, 0, 0, 0, 0, 0, 44673, 1173, 0,
    0, 65535, 105, 1, 44677, 65535, 101, 1, 44681, 65535, 59, 1, 44685, 1174, 0, 0,
    65535, 65, 52, 44743, 0, 0, 0, 0, 0, 0, 0, 0, 0, 0, 0, 0,
    0, 0, 0, 0, 0, 0, 0, 0, 0, 0, 0, 0, 0, 0, 0, 0,
    0, 0, 0, 0, 0, 0, 0, 0, 0, 0, 0, 0, 0, 0, 0, 0,
    0, 0, 0, 0, 0, 0, 44758, 65535, 114, 1, 44747, 65535, 114, 1, 44751, 65535,
    59, 1, 44755, 1175, 0, 0, 65535, 114, 1, 44762, 65535, 105, 1, 44766, 65535, 101,
    1, 44770, 65535, 59, 1, 44774, 1176, 0, 0, 65535, 105, 1, 44781, 65535, 109, 1,
    44785, 65535, 59, 1, 44789, 1177, 0, 0, 65535, 65, 46, 44841, 0, 0, 0, 0,
    0, 0, 0, 0, 0, 0, 0, 0, 0, 0, 0, 0, 0, 0, 0, 0,
    0, 0, 0, 0, 0, 0, 0, 0, 0, 0, 0, 44856, 0, 0, 0, 0,
    0, 0, 0, 0, 0, 0, 0, 0, 44955, 65535, 114, 1, 44845, 65535, 114, 1,
    44849, 65535, 59, 1, 44853, 1178, 0, 0, 65535, 114, 1, 44860, 65535, 104, 11, 44874,
    0, 0, 0, 0, 0, 0, 0, 0, 0, 44885, 65535, 107, 1, 44878, 65535, 59,
    1, 44882, 1179, 0, 0, 65535, 59, 53, 44941, 0, 0, 0, 0, 0, 0, 0,
    0, 0, 0, 0, 0, 0, 0, 0, 0, 0, 0, 0, 0, 0, 0, 0,
    0, 0, 0, 0, 0, 0, 0, 0, 0, 0, 0, 0, 0, 0, 0, 0,
    0, 0, 0, 0, 0, 0, 0, 0, 0, 0, 0, 0, 44944, 507, 0, 0,
    65535, 119, 1, 44948, 65535, 59, 1, 44952, 507, 0, 0, 65535, 101, 1, 44959, 65535,
    97, 1, 44963, 65535, 114, 1, 44967, 65535, 59, 1, 44971, 1180, 0, 0, 65535, 83,
    36, 45013, 0, 0, 0, 0, 0, 0, 0, 0, 0, 0, 0, 0, 0, 45020,
    0, 45070, 45155, 45252, 45271, 45312, 45358, 45395, 0, 0, 45410, 45513, 0, 45611, 45626, 0,
    45682, 45968, 46025, 46113, 46128, 65535, 59, 1, 45017, 727, 0, 0, 65535, 99, 17, 45040,
    0, 0, 0, 0, 0, 0, 0, 0, 0, 0, 0, 0, 0, 0, 0, 45059,
    65535, 117, 1, 45044, 65535, 116, 1, 45048, 65535, 101, 1, 45052, 1181, 59, 1, 45056,
    1181, 0, 0, 65535, 116, 1, 45063, 65535, 59, 1, 45067, 728, 0, 0, 65535, 105,
    17, 45090, 0, 0, 0, 0, 0, 0, 0, 0, 0, 0, 0, 0, 0, 0,
    0, 45148, 65535, 114, 1, 45094, 65535, 59, 41, 45138, 0, 0, 0, 0, 0, 0,
    0, 0, 0, 0, 0, 0, 0, 0, 0, 0, 0, 0, 0, 0, 0, 0,
    0, 0, 0, 0, 0, 0, 0, 0, 0, 0, 0, 0, 0, 0, 0, 0,
    0, 45141, 729, 0, 0, 1182, 59, 1, 45145, 1182, 0, 0, 65535, 59, 1, 45152,
    1183, 0, 0, 65535, 97, 19, 45177, 45192, 0, 0, 0, 0, 0, 0, 45211, 0,
    0, 0, 0, 0, 45222, 0, 0, 0, 45233, 65535, 115, 1, 45181, 65535, 104, 1,
    45185, 65535, 59, 1, 45189, 730, 0, 0, 65535, 108, 1, 45196, 65535, 97, 1, 45200,
    65535, 99, 1, 45204, 65535, 59, 1, 45208, 1184, 0, 0, 65535, 118, 1, 45215, 65535,
    59, 1, 45219, 1185, 0, 0, 65535, 116, 1, 45226, 65535, 59, 1, 45230, 44, 0,
    0, 65535, 111, 1, 45237, 65535, 108, 1, 45241, 65535, 100, 1, 45245, 65535, 59, 1,
    45249, 1186, 0, 0, 65535, 108, 1, 45256, 65535, 105, 1, 45260, 65535, 103, 1, 45264,
    65535, 59, 1, 45268, 1187, 0, 0, 65535, 99, 16, 45290, 0, 0, 0, 0, 0,
    0, 0, 0, 0, 0, 0, 0, 0, 0, 45305, 65535, 105, 1, 45294, 65535, 114,
    1, 45298, 65535, 59, 1, 45302, 1188, 0, 0, 65535, 59, 1, 45309, 1189, 0, 0,
    65535, 111, 6, 45321, 0, 0, 45332, 0, 45351, 65535, 110, 1, 45325, 65535, 59, 1,
    45329, 1190, 0, 0, 65535, 97, 1, 45336, 65535, 118, 1, 45340, 65535, 101, 1, 45344,
    1191, 59, 1, 45348, 1191, 0, 0, 65535, 59, 1, 45355, 1192, 0, 0, 65535, 98,
    12, 45373, 0, 0, 0, 0, 0, 0, 0, 0, 0, 0, 45388, 65535, 97, 1,
    45377, 65535, 114, 1, 45381, 65535, 59, 1, 45385, 1193, 0, 0, 65535, 59, 1, 45392,
    348, 0, 0, 65535, 110, 1, 45399, 65535, 116, 1, 45403, 65535, 59, 1, 45407, 55,
    0, 0, 65535, 97, 20, 45433, 0, 45448, 0, 0, 0, 0, 0, 45491, 0, 0,
    0, 0, 0, 0, 0, 0, 0, 0, 45506, 65535, 114, 1, 45437, 65535, 114, 1,
    45441, 65535, 59, 1, 45445, 725, 0, 0, 65535, 105, 10, 45461, 0, 0, 0, 0,
    0, 0, 0, 0, 45472, 65535, 114, 1, 45465, 65535, 59, 1, 45469, 1194, 0, 0,
    65535, 111, 1, 45476, 65535, 115, 1, 45480, 65535, 115, 1, 45484, 65535, 59, 1, 45488,
    1195, 0, 0, 65535, 110, 1, 45495, 65535, 101, 1, 45499, 65535, 59, 1, 45503, 359,
    0, 0, 65535, 59, 1, 45510, 1196, 0, 0, 65535, 97, 9, 45525, 0, 0, 0,
    45540, 0, 0, 0, 45555, 65535, 99, 1, 45529, 65535, 114, 1, 45533, 65535, 59, 1,
    45537, 1197, 0, 0, 65535, 103, 1, 45544, 65535, 97, 1, 45548, 65535, 59, 1, 45552,
    1198, 0, 0, 65535, 99, 12, 45570, 45589, 0, 0, 0, 0, 0, 0, 0, 0,
    0, 45596, 65535, 114, 1, 45574, 65535, 111, 1, 45578, 65535, 110, 1, 45582, 65535, 59,
    1, 45586, 1199, 0, 0, 65535, 59, 1, 45593, 1200, 0, 0, 65535, 117, 1, 45600,
    65535, 115, 1, 45604, 65535, 59, 1, 45608, 45, 0, 0, 65535, 112, 1, 45615, 65535,
    102, 1, 45619, 65535, 59, 1, 45623, 1201, 0, 0, 65535, 97, 12, 45641, 0, 0,
    0, 45652, 0, 0, 0, 0, 0, 0, 45667, 65535, 114, 1, 45645, 65535, 59, 1,
    45649, 1202, 0, 0, 65535, 114, 1, 45656, 65535, 112, 1, 45660, 65535, 59, 1, 45664,
    1203, 0, 0, 65535, 117, 1, 45671, 65535, 115, 1, 45675, 65535, 59, 1, 45679, 46,
    0, 0, 65535, 59, 60, 45745, 0, 0, 0, 0, 0, 0, 0, 0, 0, 0,
    0, 0, 0, 0, 0, 0, 0, 0, 0, 0, 0, 0, 0, 0, 0, 0,
    0, 0, 0, 0, 0, 0, 0, 0, 0, 0, 0, 45748, 0, 0, 45763, 0,
    0, 0, 0, 45908, 0, 0, 0, 0, 0, 45927, 0, 0, 0, 45938, 0, 0,
    45961, 1204, 0, 0, 65535, 114, 1, 45752, 65535, 114, 1, 45756, 65535, 59, 1, 45760,
    726, 0, 0, 65535, 59, 51, 45817, 0, 0, 0, 0, 0, 0, 0, 0, 0,
    0, 0, 0, 0, 0, 0, 0, 0, 0, 0, 0, 0, 0, 0, 0, 0,
    0, 0, 0, 0, 0, 0, 0, 0, 0, 0, 0, 0, 0, 0, 0, 0,
    45820, 45894, 0, 0, 0, 0, 0, 0, 45901, 1205, 0, 0, 65535, 114, 1, 45824,
    65535, 59, 53, 45880, 0, 0, 0, 0, 0, 0, 0, 0, 0, 0, 0, 0,
    0, 0, 0, 0, 0, 0, 0, 0, 0, 0, 0, 0, 0, 0, 0, 0,
    0, 0, 0, 0, 0, 0, 0, 0, 0, 0, 0, 0, 0, 0, 0, 0,
    0, 0, 0, 0, 0, 0, 0, 45883, 1206, 0, 0, 65535, 102, 1, 45887, 65535,
    59, 1, 45891, 1206, 0, 0, 1207, 59, 1, 45898, 1207, 0, 0, 1208, 59, 1,
    45905, 1208, 0, 0, 65535, 103, 1, 45912, 65535, 111, 1, 45916, 65535, 102, 1, 45920,
    65535, 59, 1, 45924, 1209, 0, 0, 65535, 114, 1, 45931, 65535, 59, 1, 45935, 1210,
    0, 0, 65535, 108, 1, 45942, 65535, 111, 1, 45946, 65535, 112, 1, 45950, 65535, 101,
    1, 45954, 65535, 59, 1, 45958, 1211, 0, 0, 65535, 59, 1, 45965, 1212, 0, 0,
    65535, 99, 13, 45984, 0, 0, 0, 0, 0, 0, 0, 0, 45995, 0, 0, 46014,
    65535, 114, 1, 45988, 65535, 59, 1, 45992, 1206, 0, 0, 65535, 97, 1, 45999, 65535,
    115, 1, 46003, 65535, 104, 1, 46007, 1213, 59, 1, 46011, 1213, 0, 0, 65535, 108,
    1, 46018, 65535, 59, 1, 46022, 1214, 0, 0, 65535, 105, 1, 46029, 65535, 108, 2,
    46034, 46049, 65535, 100, 1, 46038, 65535, 101, 1, 46042, 1215, 59, 1, 46046, 1215, 0,
    0, 65535, 101, 1, 46053, 65535, 115, 1, 46057, 65535, 59, 39, 46099, 0, 0, 0,
    0, 0, 0, 0, 0, 0, 0, 0, 0, 0, 0, 0, 0, 0, 0, 0,
];

/// Entry `i` of this part; 0 where the part has no such entry.
#[verifier::opaque]
pub open spec fn cell(i: int) -> u16 {
    if 0 <= i < 2560 {
        CELLS[i]
    } else {
        0
    }
}

/// Reads entry `i` of this part.
pub fn read_cell(i: usize) -> (entry: u16)
    ensures
        entry == cell(i as int),
{
    reveal(cell);
    if i < 2560 {
        CELLS[i]
    } else {
        0
    }
}

} // verus!
