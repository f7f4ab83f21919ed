//! Cells 7680 to 10239 of the trie table.
use vstd::prelude::*;

verus! {

/// The entries of this part, in order.
pub const CELLS: [u16; 2560] = [
    0, 0, 7709, 235, 0, 0, 65535, 114, 1, 7690, 65535, 114, 1, 7694, 65535, 111,
    1, 7698, 65535, 119, 1, 7702, 65535, 59, 1, 7706, 236, 0, 0, 65535, 101, 1,
    7713, 65535, 99, 1, 7717, 65535, 116, 1, 7721, 65535, 111, 1, 7725, 65535, 114, 1,
    7729, 65535, 59, 1, 7733, 237, 0, 0, 65535, 105, 1, 7740, 65535, 97, 1, 7744,
    65535, 110, 1, 7748, 65535, 103, 1, 7752, 65535, 108, 1, 7756, 65535, 101, 1, 7760,
    65535, 59, 11, 7774, 0, 0, 0, 0, 0, 0, 7777, 0, 0, 7792, 238, 0,
    0, 65535, 97, 1, 7781, 65535, 114, 1, 7785, 65535, 59, 1, 7789, 239, 0, 0,
    65535, 113, 1, 7796, 65535, 117, 1, 7800, 65535, 97, 1, 7804, 65535, 108, 1, 7808,
    65535, 59, 1, 7812, 240, 0, 0, 65535, 112, 1, 7819, 65535, 68, 19, 7841, 0,
    0, 0, 0, 0, 0, 0, 0, 0, 0, 0, 0, 0, 0, 0, 7884, 0,
    7923, 65535, 111, 1, 7845, 65535, 119, 1, 7849, 65535, 110, 1, 7853, 65535, 86, 1,
    7857, 65535, 101, 1, 7861, 65535, 99, 1, 7865, 65535, 116, 1, 7869, 65535, 111, 1,
    7873, 65535, 114, 1, 7877, 65535, 59, 1, 7881, 241, 0, 0, 65535, 101, 1, 7888,
    65535, 101, 1, 7892, 65535, 86, 1, 7896, 65535, 101, 1, 7900, 65535, 99, 1, 7904,
    65535, 116, 1, 7908, 65535, 111, 1, 7912, 65535, 114, 1, 7916, 65535, 59, 1, 7920,
    242, 0, 0, 65535, 101, 1, 7927, 65535, 99, 1, 7931, 65535, 116, 1, 7935, 65535,
    111, 1, 7939, 65535, 114, 1, 7943, 65535, 59, 8, 7954, 0, 0, 0, 0, 0,
    0, 7957, 243, 0, 0, 65535, 97, 1, 7961, 65535, 114, 1, 7965, 65535, 59, 1,
    7969, 244, 0, 0, 65535, 101, 1, 7976, 65535, 99, 1, 7980, 65535, 116, 1, 7984,
    65535, 111, 1, 7988, 65535, 114, 1, 7992, 65535, 59, 8, 8003, 0, 0, 0, 0,
    0, 0, 8006, 245, 0, 0, 65535, 97, 1, 8010, 65535, 114, 1, 8014, 65535, 59,
    1, 8018, 246, 0, 0, 65535, 114, 1, 8025, 65535, 114, 1, 8029, 65535, 111, 1,
    8033, 65535, 119, 1, 8037, 65535, 59, 1, 8041, 87, 0, 0, 65535, 105, 1, 8048,
    65535, 103, 1, 8052, 65535, 104, 1, 8056, 65535, 116, 1, 8060, 65535, 97, 1, 8064,
    65535, 114, 1, 8068, 65535, 114, 1, 8072, 65535, 111, 1, 8076, 65535, 119, 1, 8080,
    65535, 59, 1, 8084, 88, 0, 0, 65535, 115, 1, 8091, 65535, 69, 16, 8110, 8161,
    8200, 0, 0, 0, 0, 8231, 0, 0, 0, 0, 0, 0, 8250, 8293, 65535, 113,
    1, 8114, 65535, 117, 1, 8118, 65535, 97, 1, 8122, 65535, 108, 1, 8126, 65535, 71,
    1, 8130, 65535, 114, 1, 8134, 65535, 101, 1, 8138, 65535, 97, 1, 8142, 65535, 116,
    1, 8146, 65535, 101, 1, 8150, 65535, 114, 1, 8154, 65535, 59, 1, 8158, 247, 0,
    0, 65535, 117, 1, 8165, 65535, 108, 1, 8169, 65535, 108, 1, 8173, 65535, 69, 1,
    8177, 65535, 113, 1, 8181, 65535, 117, 1, 8185, 65535, 97, 1, 8189, 65535, 108, 1,
    8193, 65535, 59, 1, 8197, 248, 0, 0, 65535, 114, 1, 8204, 65535, 101, 1, 8208,
    65535, 97, 1, 8212, 65535, 116, 1, 8216, 65535, 101, 1, 8220, 65535, 114, 1, 8224,
    65535, 59, 1, 8228, 249, 0, 0, 65535, 101, 1, 8235, 65535, 115, 1, 8239, 65535,
    115, 1, 8243, 65535, 59, 1, 8247, 250, 0, 0, 65535, 108, 1, 8254, 65535, 97,
    1, 8258, 65535, 110, 1, 8262, 65535, 116, 1, 8266, 65535, 69, 1, 8270, 65535, 113,
    1, 8274, 65535, 117, 1, 8278, 65535, 97, 1, 8282, 65535, 108, 1, 8286, 65535, 59,
    1, 8290, 251, 0, 0, 65535, 105, 1, 8297, 65535, 108, 1, 8301, 65535, 100, 1,
    8305, 65535, 101, 1, 8309, 65535, 59, 1, 8313, 252, 0, 0, 65535, 114, 1, 8320,
    65535, 59, 1, 8324, 253, 0, 0, 65535, 59, 43, 8373, 0, 0, 0, 0, 0,
    0, 0, 0, 0, 0, 0, 0, 0, 0, 0, 0, 0, 0, 0, 0, 0,
    0, 0, 0, 0, 0, 0, 0, 0, 0, 0, 0, 0, 0, 0, 0, 0,
    0, 0, 0, 0, 8376, 254, 0, 0, 65535, 102, 1, 8380, 65535, 116, 1, 8384,
    65535, 97, 1, 8388, 65535, 114, 1, 8392, 65535, 114, 1, 8396, 65535, 111, 1, 8400,
    65535, 119, 1, 8404, 65535, 59, 1, 8408, 255, 0, 0, 65535, 105, 1, 8415, 65535,
    100, 1, 8419, 65535, 111, 1, 8423, 65535, 116, 1, 8427, 65535, 59, 1, 8431, 256,
    0, 0, 65535, 110, 10, 8447, 0, 8777, 0, 0, 0, 0, 0, 0, 8788, 65535,
    103, 1, 8451, 65535, 76, 39, 8493, 0, 0, 0, 0, 0, 8592, 0, 0, 0,
    0, 0, 0, 0, 0, 0, 0, 0, 0, 0, 0, 0, 0, 0, 0, 0,
    0, 0, 0, 0, 0, 0, 8635, 0, 0, 0, 0, 0, 8734, 65535, 101, 1,
    8497, 65535, 102, 1, 8501, 65535, 116, 1, 8505, 65535, 65, 18, 8526, 0, 0, 0,
    0, 0, 0, 0, 0, 0, 0, 0, 0, 0, 0, 0, 0, 8549, 65535, 114,
    1, 8530, 65535, 114, 1, 8534, 65535, 111, 1, 8538, 65535, 119, 1, 8542, 65535, 59,
    1, 8546, 257, 0, 0, 65535, 105, 1, 8553, 65535, 103, 1, 8557, 65535, 104, 1,
    8561, 65535, 116, 1, 8565, 65535, 65, 1, 8569, 65535, 114, 1, 8573, 65535, 114, 1,
    8577, 65535, 111, 1, 8581, 65535, 119, 1, 8585, 65535, 59, 1, 8589, 258, 0, 0,
    65535, 105, 1, 8596, 65535, 103, 1, 8600, 65535, 104, 1, 8604, 65535, 116, 1, 8608,
    65535, 65, 1, 8612, 65535, 114, 1, 8616, 65535, 114, 1, 8620, 65535, 111, 1, 8624,
    65535, 119, 1, 8628, 65535, 59, 1, 8632, 259, 0, 0, 65535, 101, 1, 8639, 65535,
    102, 1, 8643, 65535, 116, 1, 8647, 65535, 97, 18, 8668, 0, 0, 0, 0, 0,
    0, 0, 0, 0, 0, 0, 0, 0, 0, 0, 0, 8691, 65535, 114, 1, 8672,
    65535, 114, 1, 8676, 65535, 111, 1, 8680, 65535, 119, 1, 8684, 65535, 59, 1, 8688,
    89, 0, 0, 65535, 105, 1, 8695, 65535, 103, 1, 8699, 65535, 104, 1, 8703, 65535,
    116, 1, 8707, 65535, 97, 1, 8711, 65535, 114, 1, 8715, 65535, 114, 1, 8719, 65535,
    111, 1, 8723, 65535, 119, 1, 8727, 65535, 59, 1, 8731, 90, 0, 0, 65535, 105,
    1, 8738, 65535, 103, 1, 8742, 65535, 104, 1, 8746, 65535, 116, 1, 8750, 65535, 97,
    1, 8754, 65535, 114, 1, 8758, 65535, 114, 1, 8762, 65535, 111, 1, 8766, 65535, 119,
    1, 8770, 65535, 59, 1, 8774, 91, 0, 0, 65535, 102, 1, 8781, 65535, 59, 1,
    8785, 260, 0, 0, 65535, 101, 1, 8792, 65535, 114, 1, 8796, 65535, 76, 7, 8806,
    0, 0, 0, 0, 0, 8845, 65535, 101, 1, 8810, 65535, 102, 1, 8814, 65535, 116,
    1, 8818, 65535, 65, 1, 8822, 65535, 114, 1, 8826, 65535, 114, 1, 8830, 65535, 111,
    1, 8834, 65535, 119, 1, 8838, 65535, 59, 1, 8842, 261, 0, 0, 65535, 105, 1,
    8849, 65535, 103, 1, 8853, 65535, 104, 1, 8857, 65535, 116, 1, 8861, 65535, 65, 1,
    8865, 65535, 114, 1, 8869, 65535, 114, 1, 8873, 65535, 111, 1, 8877, 65535, 119, 1,
    8881, 65535, 59, 1, 8885, 262, 0, 0, 65535, 99, 18, 8909, 0, 0, 0, 0,
    8920, 0, 0, 0, 0, 0, 0, 0, 0, 0, 0, 0, 8927, 65535, 114, 1,
    8913, 65535, 59, 1, 8917, 218, 0, 0, 65535, 59, 1, 8924, 263, 0, 0, 65535,
    114, 1, 8931, 65535, 111, 1, 8935, 65535, 107, 1, 8939, 65535, 59, 1, 8943, 264,
    0, 0, 65535, 59, 1, 8950, 265, 0, 0, 65535, 97, 21, 8977, 0, 8988, 0,
    8999, 9081, 0, 0, 9092, 0, 0, 0, 0, 0, 9127, 0, 0, 0, 9142, 0,
    9157, 65535, 112, 1, 8981, 65535, 59, 1, 8985, 266, 0, 0, 65535, 121, 1, 8992,
    65535, 59, 1, 8996, 267, 0, 0, 65535, 100, 9, 9011, 0, 0, 0, 0, 0,
    0, 0, 9050, 65535, 105, 1, 9015, 65535, 117, 1, 9019, 65535, 109, 1, 9023, 65535,
    83, 1, 9027, 65535, 112, 1, 9031, 65535, 97, 1, 9035, 65535, 99, 1, 9039, 65535,
    101, 1, 9043, 65535, 59, 1, 9047, 268, 0, 0, 65535, 108, 1, 9054, 65535, 105,
    1, 9058, 65535, 110, 1, 9062, 65535, 116, 1, 9066, 65535, 114, 1, 9070, 65535, 102,
    1, 9074, 65535, 59, 1, 9078, 269, 0, 0, 65535, 114, 1, 9085, 65535, 59, 1,
    9089, 270, 0, 0, 65535, 110, 1, 9096, 65535, 117, 1, 9100, 65535, 115, 1, 9104,
    65535, 80, 1, 9108, 65535, 108, 1, 9112, 65535, 117, 1, 9116, 65535, 115, 1, 9120,
    65535, 59, 1, 9124, 271, 0, 0, 65535, 112, 1, 9131, 65535, 102, 1, 9135, 65535,
    59, 1, 9139, 272, 0, 0, 65535, 99, 1, 9146, 65535, 114, 1, 9150, 65535, 59,
    1, 9154, 269, 0, 0, 65535, 59, 1, 9161, 273, 0, 0, 65535, 74, 44, 9211,
    0, 0, 0, 0, 0, 0, 0, 0, 0, 0, 0, 0, 0, 0, 0, 0,
    0, 0, 0, 0, 0, 0, 9226, 0, 9249, 0, 9322, 9696, 0, 0, 0, 0,
    0, 0, 0, 0, 9707, 0, 0, 0, 11779, 11794, 11817, 65535, 99, 1, 9215, 65535,
    121, 1, 9219, 65535, 59, 1, 9223, 274, 0, 0, 65535, 99, 1, 9230, 65535, 117,
    1, 9234, 65535, 116, 1, 9238, 65535, 101, 1, 9242, 65535, 59, 1, 9246, 275, 0,
    0, 65535, 97, 25, 9277, 0, 0, 0, 9296, 0, 0, 0, 0, 0, 0, 0,
    0, 0, 0, 0, 0, 0, 0, 0, 0, 0, 0, 0, 9315, 65535, 114, 1,
    9281, 65535, 111, 1, 9285, 65535, 110, 1, 9289, 65535, 59, 1, 9293, 276, 0, 0,
    65535, 100, 1, 9300, 65535, 105, 1, 9304, 65535, 108, 1, 9308, 65535, 59, 1, 9312,
    277, 0, 0, 65535, 59, 1, 9319, 278, 0, 0, 65535, 103, 17, 9342, 0, 0,
    0, 0, 0, 0, 0, 0, 0, 0, 0, 9558, 0, 0, 0, 9673, 65535, 97,
    1, 9346, 65535, 116, 1, 9350, 65535, 105, 1, 9354, 65535, 118, 1, 9358, 65535, 101,
    1, 9362, 65535, 77, 10, 9375, 0, 0, 0, 0, 0, 0, 9422, 0, 9503, 65535,
    101, 1, 9379, 65535, 100, 1, 9383, 65535, 105, 1, 9387, 65535, 117, 1, 9391, 65535,
    109, 1, 9395, 65535, 83, 1, 9399, 65535, 112, 1, 9403, 65535, 97, 1, 9407, 65535,
    99, 1, 9411, 65535, 101, 1, 9415, 65535, 59, 1, 9419, 279, 0, 0, 65535, 104,
    1, 9426, 65535, 105, 1, 9430, 65535, 99, 12, 9445, 0, 0, 0, 0, 0, 0,
    0, 0, 0, 0, 9476, 65535, 107, 1, 9449, 65535, 83, 1, 9453, 65535, 112, 1,
    9457, 65535, 97, 1, 9461, 65535, 99, 1, 9465, 65535, 101, 1, 9469, 65535, 59, 1,
    9473, 279, 0, 0, 65535, 83, 1, 9480, 65535, 112, 1, 9484, 65535, 97, 1, 9488,
    65535, 99, 1, 9492, 65535, 101, 1, 9496, 65535, 59, 1, 9500, 279, 0, 0, 65535,
    101, 1, 9507, 65535, 114, 1, 9511, 65535, 121, 1, 9515, 65535, 84, 1, 9519, 65535,
    104, 1, 9523, 65535, 105, 1, 9527, 65535, 110, 1, 9531, 65535, 83, 1, 9535, 65535,
    112, 1, 9539, 65535, 97, 1, 9543, 65535, 99, 1, 9547, 65535, 101, 1, 9551, 65535,
    59, 1, 9555, 279, 0, 0, 65535, 116, 1, 9562, 65535, 101, 1, 9566, 65535, 100,
    1, 9570, 65535, 71, 6, 9579, 0, 0, 0, 0, 9638, 65535, 114, 1, 9583, 65535,
    101, 1, 9587, 65535, 97, 1, 9591, 65535, 116, 1, 9595, 65535, 101, 1, 9599, 65535,
    114, 1, 9603, 65535, 71, 1, 9607, 65535, 114, 1, 9611, 65535, 101, 1, 9615, 65535,
    97, 1, 9619, 65535, 116, 1, 9623, 65535, 101, 1, 9627, 65535, 114, 1, 9631, 65535,
    59, 1, 9635, 164, 0, 0, 65535, 101, 1, 9642, 65535, 115, 1, 9646, 65535, 115,
    1, 9650, 65535, 76, 1, 9654, 65535, 101, 1, 9658, 65535, 115, 1, 9662, 65535, 115,
    1, 9666, 65535, 59, 1, 9670, 265, 0, 0, 65535, 76, 1, 9677, 65535, 105, 1,
    9681, 65535, 110, 1, 9685, 65535, 101, 1, 9689, 65535, 59, 1, 9693, 280, 0, 0,
    65535, 114, 1, 9700, 65535, 59, 1, 9704, 281, 0, 0, 65535, 66, 51, 9761, 0,
    0, 0, 0, 0, 0, 0, 0, 0, 0, 0, 0, 0, 0, 0, 0, 0,
    0, 0, 0, 0, 0, 0, 0, 0, 0, 0, 0, 0, 0, 0, 0, 0,
    0, 0, 0, 0, 0, 0, 0, 0, 0, 0, 9784, 0, 9843, 0, 0, 0,
    9854, 65535, 114, 1, 9765, 65535, 101, 1, 9769, 65535, 97, 1, 9773, 65535, 107, 1,
    9777, 65535, 59, 1, 9781, 282, 0, 0, 65535, 66, 1, 9788, 65535, 114, 1, 9792,
    65535, 101, 1, 9796, 65535, 97, 1, 9800, 65535, 107, 1, 9804, 65535, 105, 1, 9808,
    65535, 110, 1, 9812, 65535, 103, 1, 9816, 65535, 83, 1, 9820, 65535, 112, 1, 9824,
    65535, 97, 1, 9828, 65535, 99, 1, 9832, 65535, 101, 1, 9836, 65535, 59, 1, 9840,
    283, 0, 0, 65535, 102, 1, 9847, 65535, 59, 1, 9851, 284, 0, 0, 65535, 59,
    28, 9885, 0, 0, 0, 0, 0, 0, 0, 9888, 9956, 10027, 0, 10160, 10394, 0,
    0, 0, 10469, 0, 10756, 0, 10879, 0, 11004, 11166, 11599, 0, 11732, 285, 0, 0,
    65535, 111, 7, 9898, 0, 0, 0, 0, 0, 9933, 65535, 110, 1, 9902, 65535, 103,
    1, 9906, 65535, 114, 1, 9910, 65535, 117, 1, 9914, 65535, 101, 1, 9918, 65535, 110,
    1, 9922, 65535, 116, 1, 9926, 65535, 59, 1, 9930, 286, 0, 0, 65535, 112, 1,
    9937, 65535, 67, 1, 9941, 65535, 97, 1, 9945, 65535, 112, 1, 9949, 65535, 59, 1,
    9953, 287, 0, 0, 65535, 111, 1, 9960, 65535, 117, 1, 9964, 65535, 98, 1, 9968,
    65535, 108, 1, 9972, 65535, 101, 1, 9976, 65535, 86, 1, 9980, 65535, 101, 1, 9984,
    65535, 114, 1, 9988, 65535, 116, 1, 9992, 65535, 105, 1, 9996, 65535, 99, 1, 10000,
    65535, 97, 1, 10004, 65535, 108, 1, 10008, 65535, 66, 1, 10012, 65535, 97, 1, 10016,
    65535, 114, 1, 10020, 65535, 59, 1, 10024, 288, 0, 0, 65535, 108, 13, 10043, 0,
    0, 0, 0, 10070, 0, 0, 0, 0, 0, 0, 10137, 65535, 101, 1, 10047, 65535,
    109, 1, 10051, 65535, 101, 1, 10055, 65535, 110, 1, 10059, 65535, 116, 1, 10063, 65535,
    59, 1, 10067, 289, 0, 0, 65535, 117, 1, 10074, 65535, 97, 1, 10078, 65535, 108,
    1, 10082, 65535, 59, 26, 10111, 0, 0, 0, 0, 0, 0, 0, 0, 0, 0,
    0, 0, 0, 0, 0, 0, 0, 0, 0, 0, 0, 0, 0, 0, 10114, 290,
    0, 0, 65535, 105, 1, 10118, 65535, 108, 1, 10122, 65535, 100, 1, 10126, 65535, 101,
    1, 10130, 65535, 59, 1, 10134, 291, 0, 0, 65535, 105, 1, 10141, 65535, 115, 1,
    10145, 65535, 116, 1, 10149, 65535, 115, 1, 10153, 65535, 59, 1, 10157, 292, 0, 0,
    65535, 114, 1, 10164, 65535, 101, 1, 10168, 65535, 97, 1, 10172, 65535, 116, 1, 10176,
    65535, 101, 1, 10180, 65535, 114, 1, 10184, 65535, 59, 26, 10213, 0, 0, 0, 0,
    0, 0, 0, 0, 0, 10216, 10239, 10278, 0, 0, 0, 0, 10309, 0, 0, 0,
    0, 0, 0, 10328, 10371, 293, 0, 0, 65535, 113, 1, 10220, 65535, 117, 1, 10224,
    65535, 97, 1, 10228, 65535, 108, 1, 10232, 65535, 59, 1, 10236, 294, 0, 0, 65535,
];

/// Entry `i` of this part; 0 where the part has no such entry.
#[verifier::opaque]
pub open spec fn cell(i: int) -> u16 {
    if 0 <= i < 2560 {
        CELLS[i]
    } else {
        0
    }
}

/// Reads entry `i` of this part.
pub fn read_cell(i: usize) -> (entry: u16)
    ensures
        entry == cell(i as int),
{
    reveal(cell);
    if i < 2560 {
        CELLS[i]
    } else {
        0
    }
}

} // verus!
