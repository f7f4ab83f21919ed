//! Cells 23040 to 25599 of the trie table.
use vstd::prelude::*;

verus! {

/// The entries of this part, in order.
pub const CELLS: [u16; 2560] = [
    0, 0, 0, 0, 0, 0, 0, 0, 0, 0, 0, 0, 0, 0, 0, 0,
    0, 0, 23069, 29, 0, 0, 65535, 59, 1, 23066, 698, 0, 0, 65535, 59, 55,
    23127, 0, 0, 0, 0, 0, 0, 0, 0, 0, 0, 0, 0, 0, 0, 0,
    0, 0, 0, 0, 0, 0, 0, 0, 0, 0, 0, 0, 0, 0, 0, 0,
    0, 0, 0, 0, 0, 0, 0, 0, 0, 0, 0, 0, 0, 0, 0, 0,
    0, 0, 0, 0, 0, 0, 23130, 174, 0, 0, 65535, 59, 1, 23134, 174, 0,
    0, 65535, 97, 25, 23165, 0, 23408, 23580, 23595, 23723, 0, 23734, 23846, 0, 0, 24219,
    0, 0, 24311, 0, 0, 24849, 24897, 25060, 25079, 0, 25742, 0, 25794, 65535, 99, 16,
    23184, 0, 0, 0, 0, 0, 0, 0, 0, 0, 0, 0, 0, 23203, 0, 23372,
    65535, 117, 1, 23188, 65535, 116, 1, 23192, 65535, 101, 1, 23196, 65535, 59, 1, 23200,
    699, 0, 0, 65535, 59, 57, 23263, 0, 0, 0, 0, 0, 0, 0, 0, 0,
    0, 0, 0, 0, 0, 0, 0, 0, 0, 0, 0, 0, 0, 0, 0, 0,
    0, 0, 0, 0, 0, 0, 0, 0, 0, 0, 0, 0, 23266, 23281, 23304, 23350,
    0, 0, 0, 0, 0, 0, 0, 0, 0, 0, 0, 0, 0, 0, 23365, 700,
    0, 0, 65535, 110, 1, 23270, 65535, 100, 1, 23274, 65535, 59, 1, 23278, 701, 0,
    0, 65535, 114, 1, 23285, 65535, 99, 1, 23289, 65535, 117, 1, 23293, 65535, 112, 1,
    23297, 65535, 59, 1, 23301, 702, 0, 0, 65535, 97, 21, 23328, 0, 0, 0, 0,
    0, 0, 0, 0, 0, 0, 0, 0, 0, 0, 0, 0, 0, 0, 0, 23339,
    65535, 112, 1, 23332, 65535, 59, 1, 23336, 703, 0, 0, 65535, 112, 1, 23343, 65535,
    59, 1, 23347, 704, 0, 0, 65535, 111, 1, 23354, 65535, 116, 1, 23358, 65535, 59,
    1, 23362, 705, 0, 0, 65535, 59, 1, 23369, 706, 0, 0, 65535, 101, 11, 23386,
    0, 0, 0, 0, 0, 0, 0, 0, 0, 23397, 65535, 116, 1, 23390, 65535, 59,
    1, 23394, 707, 0, 0, 65535, 110, 1, 23401, 65535, 59, 1, 23405, 166, 0, 0,
    65535, 97, 21, 23432, 0, 0, 0, 23464, 0, 0, 0, 23483, 0, 0, 0, 0,
    0, 0, 0, 0, 0, 0, 0, 23498, 65535, 112, 3, 23438, 0, 23449, 65535, 115,
    1, 23442, 65535, 59, 1, 23446, 708, 0, 0, 65535, 111, 1, 23453, 65535, 110, 1,
    23457, 65535, 59, 1, 23461, 709, 0, 0, 65535, 100, 1, 23468, 65535, 105, 1, 23472,
    65535, 108, 1, 23476, 710, 59, 1, 23480, 710, 0, 0, 65535, 114, 1, 23487, 65535,
    99, 1, 23491, 65535, 59, 1, 23495, 711, 0, 0, 65535, 112, 1, 23502, 65535, 115,
    1, 23506, 65535, 59, 57, 23566, 0, 0, 0, 0, 0, 0, 0, 0, 0, 0,
    0, 0, 0, 0, 0, 0, 0, 0, 0, 0, 0, 0, 0, 0, 0, 0,
    0, 0, 0, 0, 0, 0, 0, 0, 0, 0, 0, 0, 0, 0, 0, 0,
    0, 0, 0, 0, 0, 0, 0, 0, 0, 0, 0, 0, 0, 23569, 712, 0,
    0, 65535, 109, 1, 23573, 65535, 59, 1, 23577, 713, 0, 0, 65535, 111, 1, 23584,
    65535, 116, 1, 23588, 65535, 59, 1, 23592, 714, 0, 0, 65535, 100, 11, 23609, 0,
    0, 0, 0, 0, 0, 0, 0, 23624, 23647, 65535, 105, 1, 23613, 65535, 108, 1,
    23617, 41, 59, 1, 23621, 41, 0, 0, 65535, 112, 1, 23628, 65535, 116, 1, 23632,
    65535, 121, 1, 23636, 65535, 118, 1, 23640, 65535, 59, 1, 23644, 715, 0, 0, 65535,
    116, 1, 23651, 716, 59, 43, 23697, 0, 0, 0, 0, 0, 0, 0, 0, 0,
    0, 0, 0, 0, 0, 0, 0, 0, 0, 0, 0, 0, 0, 0, 0, 0,
    0, 0, 0, 0, 0, 0, 0, 0, 0, 0, 0, 0, 0, 0, 0, 0,
    23700, 716, 0, 0, 65535, 114, 1, 23704, 65535, 100, 1, 23708, 65535, 111, 1, 23712,
    65535, 116, 1, 23716, 65535, 59, 1, 23720, 42, 0, 0, 65535, 114, 1, 23727, 65535,
    59, 1, 23731, 717, 0, 0, 65535, 99, 7, 23744, 0, 23755, 0, 0, 0, 23839,
    65535, 121, 1, 23748, 65535, 59, 1, 23752, 718, 0, 0, 65535, 99, 1, 23759, 65535,
    107, 1, 23763, 65535, 59, 51, 23817, 0, 0, 0, 0, 0, 0, 0, 0, 0,
    0, 0, 0, 0, 0, 0, 0, 0, 0, 0, 0, 0, 0, 0, 0, 0,
    0, 0, 0, 0, 0, 0, 0, 0, 0, 0, 0, 0, 0, 0, 0, 0,
    0, 0, 0, 0, 0, 0, 0, 0, 23820, 719, 0, 0, 65535, 97, 1, 23824,
    65535, 114, 1, 23828, 65535, 107, 1, 23832, 65535, 59, 1, 23836, 719, 0, 0, 65535,
    59, 1, 23843, 720, 0, 0, 65535, 114, 1, 23850, 65535, 59, 57, 23910, 0, 0,
    0, 0, 0, 0, 0, 0, 0, 23913, 0, 0, 0, 0, 0, 0, 0, 0,
    0, 0, 0, 0, 0, 0, 0, 0, 0, 0, 0, 0, 0, 0, 0, 0,
    0, 0, 0, 0, 0, 23920, 0, 24155, 24162, 0, 0, 0, 0, 0, 0, 24185,
    0, 0, 0, 0, 0, 24200, 721, 0, 0, 65535, 59, 1, 23917, 722, 0, 0,
    65535, 59, 50, 23973, 0, 0, 0, 0, 0, 0, 0, 0, 0, 0, 0, 0,
    0, 0, 0, 0, 0, 0, 0, 0, 0, 0, 0, 0, 0, 0, 0, 0,
    0, 0, 0, 0, 0, 0, 0, 0, 0, 0, 0, 0, 0, 23976, 0, 0,
    0, 0, 0, 0, 23987, 723, 0, 0, 65535, 113, 1, 23980, 65535, 59, 1, 23984,
    724, 0, 0, 65535, 101, 1, 23991, 65535, 97, 4, 23998, 0, 0, 24066, 65535, 114,
    1, 24002, 65535, 114, 1, 24006, 65535, 111, 1, 24010, 65535, 119, 1, 24014, 65535, 108,
    7, 24024, 0, 0, 0, 0, 0, 24043, 65535, 101, 1, 24028, 65535, 102, 1, 24032,
    65535, 116, 1, 24036, 65535, 59, 1, 24040, 725, 0, 0, 65535, 105, 1, 24047, 65535,
    103, 1, 24051, 65535, 104, 1, 24055, 65535, 116, 1, 24059, 65535, 59, 1, 24063, 726,
    0, 0, 65535, 82, 19, 24088, 24095, 0, 0, 0, 0, 0, 0, 0, 0, 0,
    0, 0, 0, 0, 24102, 0, 24117, 24136, 65535, 59, 1, 24092, 385, 0, 0, 65535,
    59, 1, 24099, 727, 0, 0, 65535, 115, 1, 24106, 65535, 116, 1, 24110, 65535, 59,
    1, 24114, 728, 0, 0, 65535, 105, 1, 24121, 65535, 114, 1, 24125, 65535, 99, 1,
    24129, 65535, 59, 1, 24133, 729, 0, 0, 65535, 97, 1, 24140, 65535, 115, 1, 24144,
    65535, 104, 1, 24148, 65535, 59, 1, 24152, 730, 0, 0, 65535, 59, 1, 24159, 724,
    0, 0, 65535, 110, 1, 24166, 65535, 105, 1, 24170, 65535, 110, 1, 24174, 65535, 116,
    1, 24178, 65535, 59, 1, 24182, 731, 0, 0, 65535, 105, 1, 24189, 65535, 100, 1,
    24193, 65535, 59, 1, 24197, 732, 0, 0, 65535, 99, 1, 24204, 65535, 105, 1, 24208,
    65535, 114, 1, 24212, 65535, 59, 1, 24216, 733, 0, 0, 65535, 117, 1, 24223, 65535,
    98, 1, 24227, 65535, 115, 1, 24231, 65535, 59, 59, 24293, 0, 0, 0, 0, 0,
    0, 0, 0, 0, 0, 0, 0, 0, 0, 0, 0, 0, 0, 0, 0, 0,
    0, 0, 0, 0, 0, 0, 0, 0, 0, 0, 0, 0, 0, 0, 0, 0,
    0, 0, 0, 0, 0, 0, 0, 0, 0, 0, 0, 0, 0, 0, 0, 0,
    0, 0, 0, 0, 24296, 734, 0, 0, 65535, 105, 1, 24300, 65535, 116, 1, 24304,
    65535, 59, 1, 24308, 734, 0, 0, 65535, 108, 5, 24319, 24444, 24646, 0, 24730, 65535,
    111, 1, 24323, 65535, 110, 1, 24327, 65535, 59, 43, 24373, 0, 0, 0, 0, 0,
    0, 0, 0, 0, 0, 0, 0, 0, 0, 0, 0, 0, 0, 0, 0, 0,
    0, 0, 0, 0, 0, 0, 0, 0, 0, 0, 0, 0, 0, 0, 0, 0,
    0, 0, 0, 0, 24376, 735, 0, 0, 65535, 59, 55, 24434, 0, 0, 0, 0,
    0, 0, 0, 0, 0, 0, 0, 0, 0, 0, 0, 0, 0, 0, 0, 0,
    0, 0, 0, 0, 0, 0, 0, 0, 0, 0, 0, 0, 0, 0, 0, 0,
    0, 0, 0, 0, 0, 0, 0, 0, 0, 0, 0, 0, 0, 0, 0, 0,
    0, 24437, 16, 0, 0, 65535, 59, 1, 24441, 16, 0, 0, 65535, 109, 4, 24451,
    0, 0, 24526, 65535, 97, 1, 24455, 65535, 59, 58, 24516, 0, 0, 0, 0, 0,
    0, 0, 0, 0, 0, 0, 0, 0, 0, 0, 0, 0, 0, 0, 0, 0,
    0, 0, 0, 0, 0, 0, 0, 0, 0, 0, 0, 0, 0, 0, 0, 0,
    0, 0, 0, 0, 0, 0, 0, 0, 0, 0, 0, 0, 0, 0, 0, 0,
    0, 0, 0, 24519, 736, 0, 0, 65535, 59, 1, 24523, 737, 0, 0, 65535, 59,
    50, 24579, 0, 0, 0, 0, 0, 0, 0, 0, 0, 0, 0, 0, 0, 0,
    0, 0, 0, 0, 0, 0, 0, 0, 0, 0, 0, 0, 0, 0, 0, 0,
    0, 0, 0, 0, 0, 0, 0, 0, 0, 0, 0, 0, 24582, 0, 0, 0,
    0, 0, 24593, 738, 0, 0, 65535, 110, 1, 24586, 65535, 59, 1, 24590, 438, 0,
    0, 65535, 101, 1, 24597, 65535, 109, 12, 24612, 0, 0, 0, 0, 0, 0, 0,
    0, 0, 0, 24631, 65535, 101, 1, 24616, 65535, 110, 1, 24620, 65535, 116, 1, 24624,
    65535, 59, 1, 24628, 738, 0, 0, 65535, 101, 1, 24635, 65535, 115, 1, 24639, 65535,
    59, 1, 24643, 56, 0, 0, 65535, 103, 3, 24652, 0, 24715, 65535, 59, 42, 24697,
    0, 0, 0, 0, 0, 0, 0, 0, 0, 0, 0, 0, 0, 0, 0, 0,
    0, 0, 0, 0, 0, 0, 0, 0, 0, 0, 0, 0, 0, 0, 0, 0,
    0, 0, 0, 0, 0, 0, 0, 0, 24700, 476, 0, 0, 65535, 111, 1, 24704,
    65535, 116, 1, 24708, 65535, 59, 1, 24712, 739, 0, 0, 65535, 110, 1, 24719, 65535,
    116, 1, 24723, 65535, 59, 1, 24727, 55, 0, 0, 65535, 102, 20, 24753, 0, 0,
    0, 0, 0, 0, 0, 0, 0, 0, 0, 24760, 0, 0, 0, 0, 0, 0,
    24775, 65535, 59, 1, 24757, 740, 0, 0, 65535, 111, 1, 24764, 65535, 100, 1, 24768,
    65535, 59, 1, 24772, 57, 0, 0, 31, 59, 57, 24835, 0, 0, 0, 0, 0,
    0, 0, 0, 0, 0, 0, 0, 0, 0, 0, 0, 0, 0, 0, 0, 0,
    0, 0, 0, 0, 0, 0, 0, 0, 0, 0, 0, 0, 0, 0, 0, 0,
    0, 0, 0, 0, 0, 0, 0, 0, 0, 0, 0, 0, 0, 0, 0, 0,
    0, 0, 24838, 31, 0, 0, 65535, 114, 1, 24842, 65535, 59, 1, 24846, 741, 0,
    0, 65535, 97, 15, 24867, 0, 0, 0, 0, 0, 0, 0, 0, 0, 0, 0,
    0, 0, 24882, 65535, 114, 1, 24871, 65535, 114, 1, 24875, 65535, 59, 1, 24879, 742,
    0, 0, 65535, 115, 1, 24886, 65535, 115, 1, 24890, 65535, 59, 1, 24894, 743, 0,
    0, 65535, 99, 19, 24919, 0, 0, 0, 0, 0, 0, 0, 0, 0, 0, 0,
    0, 0, 0, 0, 0, 0, 24930, 65535, 114, 1, 24923, 65535, 59, 1, 24927, 744,
    0, 0, 65535, 98, 15, 24948, 0, 0, 0, 0, 0, 0, 0, 0, 0, 0,
    0, 0, 0, 25004, 65535, 59, 43, 24994, 0, 0, 0, 0, 0, 0, 0, 0,
    0, 0, 0, 0, 0, 0, 0, 0, 0, 0, 0, 0, 0, 0, 0, 0,
    0, 0, 0, 0, 0, 0, 0, 0, 0, 0, 0, 0, 0, 0, 0, 0,
    0, 24997, 745, 0, 0, 65535, 59, 1, 25001, 746, 0, 0, 65535, 59, 43, 25050,
    0, 0, 0, 0, 0, 0, 0, 0, 0, 0, 0, 0, 0, 0, 0, 0,
    0, 0, 0, 0, 0, 0, 0, 0, 0, 0, 0, 0, 0, 0, 0, 0,
    0, 0, 0, 0, 0, 0, 0, 0, 0, 25053, 747, 0, 0, 65535, 59, 1,
    25057, 748, 0, 0, 65535, 100, 1, 25064, 65535, 111, 1, 25068, 65535, 116, 1, 25072,
    65535, 59, 1, 25076, 749, 0, 0, 65535, 100, 20, 25102, 25138, 0, 0, 0, 0,
    0, 0, 25167, 0, 0, 0, 25246, 0, 25411, 0, 0, 0, 25712, 25727, 65535, 97,
    1, 25106, 65535, 114, 1, 25110, 65535, 114, 1, 25114, 65535, 108, 7, 25124, 0, 0,
    0, 0, 0, 25131, 65535, 59, 1, 25128, 750, 0, 0, 65535, 59, 1, 25135, 751,
    0, 0, 65535, 112, 4, 25145, 0, 0, 25156, 65535, 114, 1, 25149, 65535, 59, 1,
    25153, 752, 0, 0, 65535, 99, 1, 25160, 65535, 59, 1, 25164, 753, 0, 0, 65535,
    97, 1, 25171, 65535, 114, 1, 25175, 65535, 114, 1, 25179, 65535, 59, 54, 25236, 0,
    0, 0, 0, 0, 0, 0, 0, 0, 0, 0, 0, 0, 0, 0, 0, 0,
    0, 0, 0, 0, 0, 0, 0, 0, 0, 0, 0, 0, 0, 0, 0, 0,
    0, 0, 0, 0, 0, 0, 0, 0, 0, 0, 0, 0, 0, 0, 0, 0,
    0, 0, 0, 25239, 754, 0, 0, 65535, 59, 1, 25243, 755, 0, 0, 65535, 59,
    57, 25306, 0, 0, 0, 0, 0, 0, 0, 0, 0, 0, 0, 0, 0, 0,
    0, 0, 0, 0, 0, 0, 0, 0, 0, 0, 0, 0, 0, 0, 0, 0,
    0, 0, 0, 0, 0, 0, 0, 0, 25309, 25332, 25378, 0, 0, 0, 0, 0,
    0, 0, 0, 0, 0, 25393, 0, 0, 0, 25404, 756, 0, 0, 65535, 114, 1,
    25313, 65535, 99, 1, 25317, 65535, 97, 1, 25321, 65535, 112, 1, 25325, 65535, 59, 1,
    25329, 757, 0, 0, 65535, 97, 21, 25356, 0, 0, 0, 0, 0, 0, 0, 0,
    0, 0, 0, 0, 0, 0, 0, 0, 0, 0, 0, 25367, 65535, 112, 1, 25360,
    65535, 59, 1, 25364, 758, 0, 0, 65535, 112, 1, 25371, 65535, 59, 1, 25375, 759,
    0, 0, 65535, 111, 1, 25382, 65535, 116, 1, 25386, 65535, 59, 1, 25390, 760, 0,
    0, 65535, 114, 1, 25397, 65535, 59, 1, 25401, 761, 0, 0, 65535, 59, 1, 25408,
    762, 0, 0, 65535, 97, 22, 25436, 0, 0, 0, 0, 0, 0, 0, 0, 0,
    0, 25508, 0, 0, 0, 0, 0, 25621, 0, 0, 0, 25636, 65535, 114, 1, 25440,
    65535, 114, 1, 25444, 65535, 59, 51, 25498, 0, 0, 0, 0, 0, 0, 0, 0,
    0, 0, 0, 0, 0, 0, 0, 0, 0, 0, 0, 0, 0, 0, 0, 0,
    0, 0, 0, 0, 0, 0, 0, 0, 0, 0, 0, 0, 0, 0, 0, 0,
    0, 0, 0, 0, 0, 0, 0, 0, 0, 25501, 763, 0, 0, 65535, 59, 1,
    25505, 764, 0, 0, 65535, 121, 1, 25512, 65535, 101, 19, 25534, 0, 0, 0, 0,
    0, 0, 0, 0, 0, 0, 0, 0, 0, 0, 0, 0, 25583, 25598, 65535, 113,
    1, 25538, 65535, 112, 4, 25545, 0, 0, 25564, 65535, 114, 1, 25549, 65535, 101, 1,
    25553, 65535, 99, 1, 25557, 65535, 59, 1, 25561, 752, 0, 0, 65535, 117, 1, 25568,
    65535, 99, 1, 25572, 65535, 99, 1, 25576, 65535, 59, 1, 25580, 753, 0, 0, 65535,
    101, 1, 25587, 65535, 101, 1, 25591, 65535, 59, 1, 25595, 765, 0, 0, 65535, 101,
];

/// Entry `i` of this part; 0 where the part has no such entry.
#[verifier::opaque]
pub open spec fn cell(i: int) -> u16 {
    if 0 <= i < 2560 {
        CELLS[i]
    } else {
        0
    }
}

/// Reads entry `i` of this part.
pub fn read_cell(i: usize) -> (entry: u16)
    ensures
        entry == cell(i as int),
{
    reveal(cell);
    if i < 2560 {
        CELLS[i]
    } else {
        0
    }
}

} // verus!
