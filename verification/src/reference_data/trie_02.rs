//! Cells 5120 to 7679 of the trie table.
use vstd::prelude::*;

verus! {

/// The entries of this part, in order.
pub const CELLS: [u16; 2560] = [
    65535, 116, 1, 5124, 65535, 59, 1, 5128, 152, 0, 0, 65535, 114, 1, 5135, 65535,
    59, 1, 5139, 153, 0, 0, 65535, 59, 1, 5146, 154, 0, 0, 65535, 112, 1,
    5153, 65535, 102, 1, 5157, 65535, 59, 1, 5161, 155, 0, 0, 65535, 101, 1, 5168,
    65535, 97, 1, 5172, 65535, 116, 1, 5176, 65535, 101, 1, 5180, 65535, 114, 1, 5184,
    65535, 69, 16, 5203, 5262, 5301, 0, 0, 0, 0, 5332, 0, 0, 0, 0, 0,
    0, 5351, 5394, 65535, 113, 1, 5207, 65535, 117, 1, 5211, 65535, 97, 1, 5215, 65535,
    108, 1, 5219, 65535, 59, 18, 5240, 0, 0, 0, 0, 0, 0, 0, 0, 0,
    0, 0, 0, 0, 0, 0, 0, 5243, 156, 0, 0, 65535, 101, 1, 5247, 65535,
    115, 1, 5251, 65535, 115, 1, 5255, 65535, 59, 1, 5259, 157, 0, 0, 65535, 117,
    1, 5266, 65535, 108, 1, 5270, 65535, 108, 1, 5274, 65535, 69, 1, 5278, 65535, 113,
    1, 5282, 65535, 117, 1, 5286, 65535, 97, 1, 5290, 65535, 108, 1, 5294, 65535, 59,
    1, 5298, 158, 0, 0, 65535, 114, 1, 5305, 65535, 101, 1, 5309, 65535, 97, 1,
    5313, 65535, 116, 1, 5317, 65535, 101, 1, 5321, 65535, 114, 1, 5325, 65535, 59, 1,
    5329, 159, 0, 0, 65535, 101, 1, 5336, 65535, 115, 1, 5340, 65535, 115, 1, 5344,
    65535, 59, 1, 5348, 160, 0, 0, 65535, 108, 1, 5355, 65535, 97, 1, 5359, 65535,
    110, 1, 5363, 65535, 116, 1, 5367, 65535, 69, 1, 5371, 65535, 113, 1, 5375, 65535,
    117, 1, 5379, 65535, 97, 1, 5383, 65535, 108, 1, 5387, 65535, 59, 1, 5391, 161,
    0, 0, 65535, 105, 1, 5398, 65535, 108, 1, 5402, 65535, 100, 1, 5406, 65535, 101,
    1, 5410, 65535, 59, 1, 5414, 162, 0, 0, 65535, 99, 1, 5421, 65535, 114, 1,
    5425, 65535, 59, 1, 5429, 163, 0, 0, 65535, 59, 1, 5436, 164, 0, 0, 65535,
    65, 53, 5495, 0, 0, 0, 0, 0, 0, 0, 0, 0, 0, 0, 0, 0,
    0, 0, 0, 0, 0, 0, 0, 0, 0, 0, 0, 0, 0, 0, 0, 0,
    0, 0, 5518, 0, 5561, 0, 0, 5580, 0, 0, 5591, 0, 0, 0, 0, 0,
    5638, 0, 0, 0, 5706, 0, 5757, 65535, 82, 1, 5499, 65535, 68, 1, 5503, 65535,
    99, 1, 5507, 65535, 121, 1, 5511, 65535, 59, 1, 5515, 165, 0, 0, 65535, 99,
    18, 5539, 0, 0, 0, 0, 0, 0, 0, 0, 0, 0, 0, 0, 0, 0,
    0, 0, 5554, 65535, 101, 1, 5543, 65535, 107, 1, 5547, 65535, 59, 1, 5551, 166,
    0, 0, 65535, 59, 1, 5558, 167, 0, 0, 65535, 105, 1, 5565, 65535, 114, 1,
    5569, 65535, 99, 1, 5573, 65535, 59, 1, 5577, 168, 0, 0, 65535, 114, 1, 5584,
    65535, 59, 1, 5588, 169, 0, 0, 65535, 108, 1, 5595, 65535, 98, 1, 5599, 65535,
    101, 1, 5603, 65535, 114, 1, 5607, 65535, 116, 1, 5611, 65535, 83, 1, 5615, 65535,
    112, 1, 5619, 65535, 97, 1, 5623, 65535, 99, 1, 5627, 65535, 101, 1, 5631, 65535,
    59, 1, 5635, 170, 0, 0, 65535, 112, 3, 5644, 0, 5655, 65535, 102, 1, 5648,
    65535, 59, 1, 5652, 171, 0, 0, 65535, 105, 1, 5659, 65535, 122, 1, 5663, 65535,
    111, 1, 5667, 65535, 110, 1, 5671, 65535, 116, 1, 5675, 65535, 97, 1, 5679, 65535,
    108, 1, 5683, 65535, 76, 1, 5687, 65535, 105, 1, 5691, 65535, 110, 1, 5695, 65535,
    101, 1, 5699, 65535, 59, 1, 5703, 172, 0, 0, 65535, 99, 18, 5727, 0, 0,
    0, 0, 0, 0, 0, 0, 0, 0, 0, 0, 0, 0, 0, 0, 5738, 65535,
    114, 1, 5731, 65535, 59, 1, 5735, 170, 0, 0, 65535, 114, 1, 5742, 65535, 111,
    1, 5746, 65535, 107, 1, 5750, 65535, 59, 1, 5754, 173, 0, 0, 65535, 109, 1,
    5761, 65535, 112, 1, 5765, 65535, 68, 2, 5770, 5805, 65535, 111, 1, 5774, 65535, 119,
    1, 5778, 65535, 110, 1, 5782, 65535, 72, 1, 5786, 65535, 117, 1, 5790, 65535, 109,
    1, 5794, 65535, 112, 1, 5798, 65535, 59, 1, 5802, 29, 0, 0, 65535, 113, 1,
    5809, 65535, 117, 1, 5813, 65535, 97, 1, 5817, 65535, 108, 1, 5821, 65535, 59, 1,
    5825, 174, 0, 0, 65535, 69, 49, 5880, 0, 0, 0, 0, 5895, 0, 0, 0,
    0, 5914, 0, 0, 0, 0, 0, 0, 0, 0, 0, 0, 0, 0, 0, 0,
    0, 0, 0, 5929, 0, 5952, 5994, 0, 6009, 6020, 0, 0, 0, 0, 0, 6043,
    6176, 6391, 0, 0, 0, 6445, 6460, 6483, 65535, 99, 1, 5884, 65535, 121, 1, 5888,
    65535, 59, 1, 5892, 175, 0, 0, 65535, 108, 1, 5899, 65535, 105, 1, 5903, 65535,
    103, 1, 5907, 65535, 59, 1, 5911, 176, 0, 0, 65535, 99, 1, 5918, 65535, 121,
    1, 5922, 65535, 59, 1, 5926, 177, 0, 0, 65535, 99, 1, 5933, 65535, 117, 1,
    5937, 65535, 116, 1, 5941, 65535, 101, 1, 5945, 178, 59, 1, 5949, 178, 0, 0,
    65535, 105, 17, 5972, 0, 0, 0, 0, 0, 0, 0, 0, 0, 0, 0, 0,
    0, 0, 0, 5987, 65535, 114, 1, 5976, 65535, 99, 1, 5980, 179, 59, 1, 5984,
    179, 0, 0, 65535, 59, 1, 5991, 180, 0, 0, 65535, 111, 1, 5998, 65535, 116,
    1, 6002, 65535, 59, 1, 6006, 181, 0, 0, 65535, 114, 1, 6013, 65535, 59, 1,
    6017, 182, 0, 0, 65535, 114, 1, 6024, 65535, 97, 1, 6028, 65535, 118, 1, 6032,
    65535, 101, 1, 6036, 183, 59, 1, 6040, 183, 0, 0, 65535, 59, 54, 6100, 0,
    0, 0, 0, 0, 0, 0, 0, 0, 0, 0, 0, 0, 0, 0, 0, 0,
    0, 0, 0, 0, 0, 0, 0, 0, 0, 0, 0, 0, 0, 0, 0, 0,
    0, 0, 0, 0, 6103, 0, 0, 0, 0, 0, 0, 0, 0, 0, 0, 0,
    0, 0, 0, 6153, 182, 0, 0, 65535, 99, 5, 6111, 0, 0, 0, 6122, 65535,
    114, 1, 6115, 65535, 59, 1, 6119, 184, 0, 0, 65535, 105, 1, 6126, 65535, 110,
    1, 6130, 65535, 97, 1, 6134, 65535, 114, 1, 6138, 65535, 121, 1, 6142, 65535, 73,
    1, 6146, 65535, 59, 1, 6150, 185, 0, 0, 65535, 108, 1, 6157, 65535, 105, 1,
    6161, 65535, 101, 1, 6165, 65535, 115, 1, 6169, 65535, 59, 1, 6173, 92, 0, 0,
    65535, 116, 3, 6182, 0, 6300, 65535, 59, 43, 6228, 0, 0, 0, 0, 0, 0,
    0, 0, 0, 0, 0, 0, 0, 0, 0, 0, 0, 0, 0, 0, 0, 0,
    0, 0, 0, 0, 0, 0, 0, 0, 0, 0, 0, 0, 0, 0, 0, 0,
    0, 0, 0, 6231, 186, 0, 0, 65535, 103, 12, 6246, 0, 0, 0, 0, 0,
    0, 0, 0, 0, 0, 6265, 65535, 114, 1, 6250, 65535, 97, 1, 6254, 65535, 108,
    1, 6258, 65535, 59, 1, 6262, 187, 0, 0, 65535, 115, 1, 6269, 65535, 101, 1,
    6273, 65535, 99, 1, 6277, 65535, 116, 1, 6281, 65535, 105, 1, 6285, 65535, 111, 1,
    6289, 65535, 110, 1, 6293, 65535, 59, 1, 6297, 188, 0, 0, 65535, 105, 1, 6304,
    65535, 115, 1, 6308, 65535, 105, 1, 6312, 65535, 98, 1, 6316, 65535, 108, 1, 6320,
    65535, 101, 1, 6324, 65535, 67, 18, 6345, 0, 0, 0, 0, 0, 0, 0, 0,
    0, 0, 0, 0, 0, 0, 0, 0, 6368, 65535, 111, 1, 6349, 65535, 109, 1,
    6353, 65535, 109, 1, 6357, 65535, 97, 1, 6361, 65535, 59, 1, 6365, 189, 0, 0,
    65535, 105, 1, 6372, 65535, 109, 1, 6376, 65535, 101, 1, 6380, 65535, 115, 1, 6384,
    65535, 59, 1, 6388, 190, 0, 0, 65535, 103, 14, 6408, 0, 0, 0, 0, 0,
    0, 0, 0, 6423, 0, 0, 0, 6434, 65535, 111, 1, 6412, 65535, 110, 1, 6416,
    65535, 59, 1, 6420, 191, 0, 0, 65535, 102, 1, 6427, 65535, 59, 1, 6431, 192,
    0, 0, 65535, 97, 1, 6438, 65535, 59, 1, 6442, 193, 0, 0, 65535, 99, 1,
    6449, 65535, 114, 1, 6453, 65535, 59, 1, 6457, 194, 0, 0, 65535, 105, 1, 6464,
    65535, 108, 1, 6468, 65535, 100, 1, 6472, 65535, 101, 1, 6476, 65535, 59, 1, 6480,
    195, 0, 0, 65535, 107, 3, 6489, 0, 6504, 65535, 99, 1, 6493, 65535, 121, 1,
    6497, 65535, 59, 1, 6501, 196, 0, 0, 65535, 108, 1, 6508, 197, 59, 1, 6512,
    197, 0, 0, 65535, 99, 19, 6537, 0, 0, 6579, 0, 0, 0, 0, 0, 0,
    0, 0, 6590, 0, 0, 0, 6605, 0, 6641, 65535, 105, 17, 6557, 0, 0, 0,
    0, 0, 0, 0, 0, 0, 0, 0, 0, 0, 0, 0, 6572, 65535, 114, 1,
    6561, 65535, 99, 1, 6565, 65535, 59, 1, 6569, 198, 0, 0, 65535, 59, 1, 6576,
    199, 0, 0, 65535, 114, 1, 6583, 65535, 59, 1, 6587, 200, 0, 0, 65535, 112,
    1, 6594, 65535, 102, 1, 6598, 65535, 59, 1, 6602, 201, 0, 0, 65535, 99, 3,
    6611, 0, 6622, 65535, 114, 1, 6615, 65535, 59, 1, 6619, 202, 0, 0, 65535, 114,
    1, 6626, 65535, 99, 1, 6630, 65535, 121, 1, 6634, 65535, 59, 1, 6638, 203, 0,
    0, 65535, 107, 1, 6645, 65535, 99, 1, 6649, 65535, 121, 1, 6653, 65535, 59, 1,
    6657, 204, 0, 0, 65535, 72, 44, 6707, 0, 6722, 0, 0, 0, 0, 0, 0,
    0, 0, 0, 0, 0, 0, 0, 0, 0, 0, 0, 0, 0, 0, 0, 0,
    6737, 0, 6756, 0, 0, 6806, 0, 0, 0, 0, 0, 0, 0, 0, 6817, 0,
    0, 0, 6832, 65535, 99, 1, 6711, 65535, 121, 1, 6715, 65535, 59, 1, 6719, 205,
    0, 0, 65535, 99, 1, 6726, 65535, 121, 1, 6730, 65535, 59, 1, 6734, 206, 0,
    0, 65535, 112, 1, 6741, 65535, 112, 1, 6745, 65535, 97, 1, 6749, 65535, 59, 1,
    6753, 207, 0, 0, 65535, 101, 21, 6780, 0, 0, 0, 0, 0, 0, 0, 0,
    0, 0, 0, 0, 0, 0, 0, 0, 0, 0, 0, 6799, 65535, 100, 1, 6784,
    65535, 105, 1, 6788, 65535, 108, 1, 6792, 65535, 59, 1, 6796, 208, 0, 0, 65535,
    59, 1, 6803, 209, 0, 0, 65535, 114, 1, 6810, 65535, 59, 1, 6814, 210, 0,
    0, 65535, 112, 1, 6821, 65535, 102, 1, 6825, 65535, 59, 1, 6829, 211, 0, 0,
    65535, 99, 1, 6836, 65535, 114, 1, 6840, 65535, 59, 1, 6844, 212, 0, 0, 65535,
    74, 43, 6893, 0, 0, 0, 0, 0, 0, 0, 0, 0, 6908, 0, 0, 0,
    0, 0, 0, 0, 0, 0, 0, 0, 0, 6915, 0, 7029, 0, 7102, 8316, 0,
    0, 0, 0, 0, 8327, 8411, 0, 8434, 0, 0, 0, 8888, 8946, 65535, 99, 1,
    6897, 65535, 121, 1, 6901, 65535, 59, 1, 6905, 213, 0, 0, 214, 59, 1, 6912,
    214, 0, 0, 65535, 99, 16, 6934, 0, 0, 0, 0, 0, 0, 0, 0, 0,
    6953, 6972, 0, 6983, 0, 7018, 65535, 117, 1, 6938, 65535, 116, 1, 6942, 65535, 101,
    1, 6946, 65535, 59, 1, 6950, 215, 0, 0, 65535, 98, 1, 6957, 65535, 100, 1,
    6961, 65535, 97, 1, 6965, 65535, 59, 1, 6969, 216, 0, 0, 65535, 103, 1, 6976,
    65535, 59, 1, 6980, 217, 0, 0, 65535, 108, 1, 6987, 65535, 97, 1, 6991, 65535,
    99, 1, 6995, 65535, 101, 1, 6999, 65535, 116, 1, 7003, 65535, 114, 1, 7007, 65535,
    102, 1, 7011, 65535, 59, 1, 7015, 218, 0, 0, 65535, 114, 1, 7022, 65535, 59,
    1, 7026, 219, 0, 0, 65535, 97, 25, 7057, 0, 0, 0, 7076, 0, 0, 0,
    0, 0, 0, 0, 0, 0, 0, 0, 0, 0, 0, 0, 0, 0, 0, 0,
    7095, 65535, 114, 1, 7061, 65535, 111, 1, 7065, 65535, 110, 1, 7069, 65535, 59, 1,
    7073, 220, 0, 0, 65535, 100, 1, 7080, 65535, 105, 1, 7084, 65535, 108, 1, 7088,
    65535, 59, 1, 7092, 221, 0, 0, 65535, 59, 1, 7099, 222, 0, 0, 65535, 102,
    14, 7119, 0, 0, 0, 0, 0, 0, 0, 0, 0, 0, 0, 0, 8087, 65535,
    116, 1, 7123, 65535, 65, 50, 7176, 0, 7331, 7362, 0, 7517, 0, 0, 0, 0,
    0, 0, 0, 0, 0, 0, 0, 7540, 0, 7631, 7815, 7972, 0, 0, 0, 0,
    0, 0, 0, 0, 0, 0, 8021, 0, 0, 0, 0, 0, 0, 0, 0, 0,
    0, 0, 0, 0, 0, 0, 0, 8044, 65535, 110, 5, 7184, 0, 0, 0, 7231,
    65535, 103, 1, 7188, 65535, 108, 1, 7192, 65535, 101, 1, 7196, 65535, 66, 1, 7200,
    65535, 114, 1, 7204, 65535, 97, 1, 7208, 65535, 99, 1, 7212, 65535, 107, 1, 7216,
    65535, 101, 1, 7220, 65535, 116, 1, 7224, 65535, 59, 1, 7228, 223, 0, 0, 65535,
    114, 1, 7235, 65535, 111, 1, 7239, 65535, 119, 1, 7243, 65535, 59, 24, 7270, 0,
    0, 0, 0, 0, 0, 7273, 0, 0, 0, 0, 0, 0, 0, 0, 0, 0,
    0, 0, 0, 0, 0, 7288, 224, 0, 0, 65535, 97, 1, 7277, 65535, 114, 1,
    7281, 65535, 59, 1, 7285, 225, 0, 0, 65535, 105, 1, 7292, 65535, 103, 1, 7296,
    65535, 104, 1, 7300, 65535, 116, 1, 7304, 65535, 65, 1, 7308, 65535, 114, 1, 7312,
    65535, 114, 1, 7316, 65535, 111, 1, 7320, 65535, 119, 1, 7324, 65535, 59, 1, 7328,
    226, 0, 0, 65535, 101, 1, 7335, 65535, 105, 1, 7339, 65535, 108, 1, 7343, 65535,
    105, 1, 7347, 65535, 110, 1, 7351, 65535, 103, 1, 7355, 65535, 59, 1, 7359, 227,
    0, 0, 65535, 111, 1, 7366, 65535, 117, 3, 7372, 0, 7419, 65535, 98, 1, 7376,
    65535, 108, 1, 7380, 65535, 101, 1, 7384, 65535, 66, 1, 7388, 65535, 114, 1, 7392,
    65535, 97, 1, 7396, 65535, 99, 1, 7400, 65535, 107, 1, 7404, 65535, 101, 1, 7408,
    65535, 116, 1, 7412, 65535, 59, 1, 7416, 228, 0, 0, 65535, 110, 1, 7423, 65535,
    84, 3, 7429, 0, 7468, 65535, 101, 1, 7433, 65535, 101, 1, 7437, 65535, 86, 1,
    7441, 65535, 101, 1, 7445, 65535, 99, 1, 7449, 65535, 116, 1, 7453, 65535, 111, 1,
    7457, 65535, 114, 1, 7461, 65535, 59, 1, 7465, 229, 0, 0, 65535, 101, 1, 7472,
    65535, 99, 1, 7476, 65535, 116, 1, 7480, 65535, 111, 1, 7484, 65535, 114, 1, 7488,
    65535, 59, 8, 7499, 0, 0, 0, 0, 0, 0, 7502, 230, 0, 0, 65535, 97,
    1, 7506, 65535, 114, 1, 7510, 65535, 59, 1, 7514, 231, 0, 0, 65535, 108, 1,
    7521, 65535, 111, 1, 7525, 65535, 111, 1, 7529, 65535, 114, 1, 7533, 65535, 59, 1,
    7537, 232, 0, 0, 65535, 105, 1, 7544, 65535, 103, 1, 7548, 65535, 104, 1, 7552,
    65535, 116, 1, 7556, 65535, 65, 22, 7581, 0, 0, 0, 0, 0, 0, 0, 0,
    0, 0, 0, 0, 0, 0, 0, 0, 0, 0, 0, 0, 7604, 65535, 114, 1,
    7585, 65535, 114, 1, 7589, 65535, 111, 1, 7593, 65535, 119, 1, 7597, 65535, 59, 1,
    7601, 233, 0, 0, 65535, 101, 1, 7608, 65535, 99, 1, 7612, 65535, 116, 1, 7616,
    65535, 111, 1, 7620, 65535, 114, 1, 7624, 65535, 59, 1, 7628, 234, 0, 0, 65535,
    101, 14, 7648, 0, 0, 0, 0, 0, 0, 0, 0, 0, 0, 0, 0, 7736,
    65535, 101, 1, 7652, 65535, 59, 28, 7683, 0, 0, 0, 0, 0, 7686, 0, 0,
    0, 0, 0, 0, 0, 0, 0, 0, 0, 0, 0, 0, 0, 0, 0, 0,
];

/// Entry `i` of this part; 0 where the part has no such entry.
#[verifier::opaque]
pub open spec fn cell(i: int) -> u16 {
    if 0 <= i < 2560 {
        CELLS[i]
    } else {
        0
    }
}

/// Reads entry `i` of this part.
pub fn read_cell(i: usize) -> (entry: u16)
    ensures
        entry == cell(i as int),
{
    reveal(cell);
    if i < 2560 {
        CELLS[i]
    } else {
        0
    }
}

} // verus!
