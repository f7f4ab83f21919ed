//! Cells 0 to 2559 of the trie table.
use vstd::prelude::*;

verus! {

/// The entries of this part, in order.
pub const CELLS: [u16; 2560] = [
    65535, 65, 58, 61, 511, 796, 2028, 3927, 4629, 4893, 5439, 5828, 6515, 6660, 6847, 8953,
    9164, 11824, 12462, 13017, 13107, 14642, 15945, 16563, 17688, 18218, 18317, 18382, 18604, 0, 0, 0,
    0, 0, 0, 18867, 20259, 23137, 25817, 27669, 29376, 30054, 31735, 32569, 33873, 34037, 34288, 38697,
    39736, 44974, 46147, 47850, 48103, 50837, 55174, 56738, 57957, 59222, 59501, 60065, 60268, 65535, 69, 49,
    113, 0, 0, 0, 0, 0, 0, 0, 132, 0, 0, 0, 0, 0, 0, 0,
    0, 0, 0, 0, 0, 0, 0, 0, 0, 0, 0, 0, 143, 166, 189, 0,
    0, 231, 242, 0, 0, 0, 0, 265, 284, 303, 314, 353, 0, 404, 423, 473,
    496, 65535, 108, 1, 117, 65535, 105, 1, 121, 65535, 103, 1, 125, 0, 59, 1,
    129, 0, 0, 0, 65535, 80, 1, 136, 1, 59, 1, 140, 1, 0, 0, 65535,
    99, 1, 147, 65535, 117, 1, 151, 65535, 116, 1, 155, 65535, 101, 1, 159, 2,
    59, 1, 163, 2, 0, 0, 65535, 114, 1, 170, 65535, 101, 1, 174, 65535, 118,
    1, 178, 65535, 101, 1, 182, 65535, 59, 1, 186, 3, 0, 0, 65535, 105, 17,
    209, 0, 0, 0, 0, 0, 0, 0, 0, 0, 0, 0, 0, 0, 0, 0,
    224, 65535, 114, 1, 213, 65535, 99, 1, 217, 4, 59, 1, 221, 4, 0, 0,
    65535, 59, 1, 228, 5, 0, 0, 65535, 114, 1, 235, 65535, 59, 1, 239, 6,
    0, 0, 65535, 114, 1, 246, 65535, 97, 1, 250, 65535, 118, 1, 254, 65535, 101,
    1, 258, 7, 59, 1, 262, 7, 0, 0, 65535, 112, 1, 269, 65535, 104, 1,
    273, 65535, 97, 1, 277, 65535, 59, 1, 281, 8, 0, 0, 65535, 97, 1, 288,
    65535, 99, 1, 292, 65535, 114, 1, 296, 65535, 59, 1, 300, 9, 0, 0, 65535,
    100, 1, 307, 65535, 59, 1, 311, 10, 0, 0, 65535, 103, 10, 327, 0, 0,
    0, 0, 0, 0, 0, 0, 342, 65535, 111, 1, 331, 65535, 110, 1, 335, 65535,
    59, 1, 339, 11, 0, 0, 65535, 102, 1, 346, 65535, 59, 1, 350, 12, 0,
    0, 65535, 112, 1, 357, 65535, 108, 1, 361, 65535, 121, 1, 365, 65535, 70, 1,
    369, 65535, 117, 1, 373, 65535, 110, 1, 377, 65535, 99, 1, 381, 65535, 116, 1,
    385, 65535, 105, 1, 389, 65535, 111, 1, 393, 65535, 110, 1, 397, 65535, 59, 1,
    401, 13, 0, 0, 65535, 105, 1, 408, 65535, 110, 1, 412, 65535, 103, 1, 416,
    14, 59, 1, 420, 14, 0, 0, 65535, 99, 17, 443, 0, 0, 0, 0, 0,
    0, 0, 0, 0, 0, 0, 0, 0, 0, 0, 454, 65535, 114, 1, 447, 65535,
    59, 1, 451, 15, 0, 0, 65535, 105, 1, 458, 65535, 103, 1, 462, 65535, 110,
    1, 466, 65535, 59, 1, 470, 16, 0, 0, 65535, 105, 1, 477, 65535, 108, 1,
    481, 65535, 100, 1, 485, 65535, 101, 1, 489, 17, 59, 1, 493, 17, 0, 0,
    65535, 109, 1, 500, 65535, 108, 1, 504, 18, 59, 1, 508, 18, 0, 0, 65535,
    97, 21, 535, 0, 612, 0, 623, 713, 0, 0, 0, 0, 0, 0, 0, 0,
    724, 0, 0, 739, 758, 0, 773, 65535, 99, 16, 554, 0, 0, 0, 0, 0,
    0, 0, 0, 0, 0, 0, 0, 0, 0, 585, 65535, 107, 1, 558, 65535, 115,
    1, 562, 65535, 108, 1, 566, 65535, 97, 1, 570, 65535, 115, 1, 574, 65535, 104,
    1, 578, 65535, 59, 1, 582, 19, 0, 0, 65535, 118, 2, 590, 597, 65535, 59,
    1, 594, 20, 0, 0, 65535, 101, 1, 601, 65535, 100, 1, 605, 65535, 59, 1,
    609, 21, 0, 0, 65535, 121, 1, 616, 65535, 59, 1, 620, 22, 0, 0, 65535,
    99, 18, 644, 0, 0, 0, 0, 0, 0, 0, 0, 0, 0, 0, 0, 0,
    0, 667, 0, 702, 65535, 97, 1, 648, 65535, 117, 1, 652, 65535, 115, 1, 656,
    65535, 101, 1, 660, 65535, 59, 1, 664, 23, 0, 0, 65535, 110, 1, 671, 65535,
    111, 1, 675, 65535, 117, 1, 679, 65535, 108, 1, 683, 65535, 108, 1, 687, 65535,
    105, 1, 691, 65535, 115, 1, 695, 65535, 59, 1, 699, 24, 0, 0, 65535, 97,
    1, 706, 65535, 59, 1, 710, 25, 0, 0, 65535, 114, 1, 717, 65535, 59, 1,
    721, 26, 0, 0, 65535, 112, 1, 728, 65535, 102, 1, 732, 65535, 59, 1, 736,
    27, 0, 0, 65535, 101, 1, 743, 65535, 118, 1, 747, 65535, 101, 1, 751, 65535,
    59, 1, 755, 28, 0, 0, 65535, 99, 1, 762, 65535, 114, 1, 766, 65535, 59,
    1, 770, 24, 0, 0, 65535, 109, 1, 777, 65535, 112, 1, 781, 65535, 101, 1,
    785, 65535, 113, 1, 789, 65535, 59, 1, 793, 29, 0, 0, 65535, 72, 46, 845,
    0, 0, 0, 0, 0, 0, 860, 0, 0, 0, 0, 0, 0, 0, 0, 0,
    0, 0, 0, 0, 0, 0, 0, 0, 875, 0, 1067, 1161, 1176, 1244, 0, 1255,
    1266, 0, 0, 1382, 0, 0, 1604, 0, 0, 1960, 1979, 0, 1994, 65535, 99, 1,
    849, 65535, 121, 1, 853, 65535, 59, 1, 857, 30, 0, 0, 65535, 80, 1, 864,
    65535, 89, 1, 868, 31, 59, 1, 872, 31, 0, 0, 65535, 99, 23, 901, 0,
    0, 0, 0, 0, 0, 0, 0, 0, 0, 0, 0, 920, 0, 0, 0, 0,
    0, 0, 0, 0, 1044, 65535, 117, 1, 905, 65535, 116, 1, 909, 65535, 101, 1,
    913, 65535, 59, 1, 917, 32, 0, 0, 65535, 59, 47, 970, 0, 0, 0, 0,
    0, 0, 0, 0, 0, 0, 0, 0, 0, 0, 0, 0, 0, 0, 0, 0,
    0, 0, 0, 0, 0, 0, 0, 0, 0, 0, 0, 0, 0, 0, 0, 0,
    0, 0, 0, 0, 0, 0, 0, 0, 0, 973, 33, 0, 0, 65535, 116, 1,
    977, 65535, 97, 1, 981, 65535, 108, 1, 985, 65535, 68, 1, 989, 65535, 105, 1,
    993, 65535, 102, 1, 997, 65535, 102, 1, 1001, 65535, 101, 1, 1005, 65535, 114, 1,
    1009, 65535, 101, 1, 1013, 65535, 110, 1, 1017, 65535, 116, 1, 1021, 65535, 105, 1,
    1025, 65535, 97, 1, 1029, 65535, 108, 1, 1033, 65535, 68, 1, 1037, 65535, 59, 1,
    1041, 34, 0, 0, 65535, 108, 1, 1048, 65535, 101, 1, 1052, 65535, 121, 1, 1056,
    65535, 115, 1, 1060, 65535, 59, 1, 1064, 35, 0, 0, 65535, 97, 15, 1085, 0,
    0, 0, 1104, 0, 0, 0, 1123, 0, 0, 0, 0, 0, 1138, 65535, 114, 1,
    1089, 65535, 111, 1, 1093, 65535, 110, 1, 1097, 65535, 59, 1, 1101, 36, 0, 0,
    65535, 100, 1, 1108, 65535, 105, 1, 1112, 65535, 108, 1, 1116, 37, 59, 1, 1120,
    37, 0, 0, 65535, 114, 1, 1127, 65535, 99, 1, 1131, 65535, 59, 1, 1135, 38,
    0, 0, 65535, 110, 1, 1142, 65535, 105, 1, 1146, 65535, 110, 1, 1150, 65535, 116,
    1, 1154, 65535, 59, 1, 1158, 39, 0, 0, 65535, 111, 1, 1165, 65535, 116, 1,
    1169, 65535, 59, 1, 1173, 40, 0, 0, 65535, 100, 11, 1190, 0, 0, 0, 0,
    0, 0, 0, 0, 0, 1213, 65535, 105, 1, 1194, 65535, 108, 1, 1198, 65535, 108,
    1, 1202, 65535, 97, 1, 1206, 65535, 59, 1, 1210, 41, 0, 0, 65535, 116, 1,
    1217, 65535, 101, 1, 1221, 65535, 114, 1, 1225, 65535, 68, 1, 1229, 65535, 111, 1,
    1233, 65535, 116, 1, 1237, 65535, 59, 1, 1241, 42, 0, 0, 65535, 114, 1, 1248,
    65535, 59, 1, 1252, 35, 0, 0, 65535, 105, 1, 1259, 65535, 59, 1, 1263, 43,
    0, 0, 65535, 114, 1, 1270, 65535, 99, 1, 1274, 65535, 108, 1, 1278, 65535, 101,
    1, 1282, 65535, 68, 17, 1302, 0, 0, 0, 0, 0, 0, 0, 0, 1317, 0,
    0, 1340, 0, 0, 0, 1359, 65535, 111, 1, 1306, 65535, 116, 1, 1310, 65535, 59,
    1, 1314, 44, 0, 0, 65535, 105, 1, 1321, 65535, 110, 1, 1325, 65535, 117, 1,
    1329, 65535, 115, 1, 1333, 65535, 59, 1, 1337, 45, 0, 0, 65535, 108, 1, 1344,
    65535, 117, 1, 1348, 65535, 115, 1, 1352, 65535, 59, 1, 1356, 46, 0, 0, 65535,
    105, 1, 1363, 65535, 109, 1, 1367, 65535, 101, 1, 1371, 65535, 115, 1, 1375, 65535,
    59, 1, 1379, 47, 0, 0, 65535, 111, 1, 1386, 65535, 99, 17, 1406, 0, 0,
    0, 0, 0, 0, 0, 0, 0, 0, 0, 0, 0, 0, 0, 1493, 65535, 107,
    1, 1410, 65535, 119, 1, 1414, 65535, 105, 1, 1418, 65535, 115, 1, 1422, 65535, 101,
    1, 1426, 65535, 67, 1, 1430, 65535, 111, 1, 1434, 65535, 110, 1, 1438, 65535, 116,
    1, 1442, 65535, 111, 1, 1446, 65535, 117, 1, 1450, 65535, 114, 1, 1454, 65535, 73,
    1, 1458, 65535, 110, 1, 1462, 65535, 116, 1, 1466, 65535, 101, 1, 1470, 65535, 103,
    1, 1474, 65535, 114, 1, 1478, 65535, 97, 1, 1482, 65535, 108, 1, 1486, 65535, 59,
    1, 1490, 48, 0, 0, 65535, 101, 1, 1497, 65535, 67, 1, 1501, 65535, 117, 1,
    1505, 65535, 114, 1, 1509, 65535, 108, 1, 1513, 65535, 121, 1, 1517, 65535, 68, 14,
    1534, 0, 0, 0, 0, 0, 0, 0, 0, 0, 0, 0, 0, 1581, 65535, 111,
    1, 1538, 65535, 117, 1, 1542, 65535, 98, 1, 1546, 65535, 108, 1, 1550, 65535, 101,
    1, 1554, 65535, 81, 1, 1558, 65535, 117, 1, 1562, 65535, 111, 1, 1566, 65535, 116,
    1, 1570, 65535, 101, 1, 1574, 65535, 59, 1, 1578, 49, 0, 0, 65535, 117, 1,
    1585, 65535, 111, 1, 1589, 65535, 116, 1, 1593, 65535, 101, 1, 1597, 65535, 59, 1,
    1601, 50, 0, 0, 65535, 108, 10, 1617, 0, 1681, 0, 1791, 0, 0, 0, 0,
    1841, 65535, 111, 1, 1621, 65535, 110, 1, 1625, 65535, 59, 43, 1671, 0, 0, 0,
    0, 0, 0, 0, 0, 0, 0, 0, 0, 0, 0, 0, 0, 0, 0, 0,
    0, 0, 0, 0, 0, 0, 0, 0, 0, 0, 0, 0, 0, 0, 0, 0,
    0, 0, 0, 0, 0, 0, 1674, 51, 0, 0, 65535, 59, 1, 1678, 52, 0,
    0, 65535, 103, 14, 1698, 0, 1725, 0, 0, 0, 0, 0, 0, 0, 0, 0,
    0, 1740, 65535, 114, 1, 1702, 65535, 117, 1, 1706, 65535, 101, 1, 1710, 65535, 110,
    1, 1714, 65535, 116, 1, 1718, 65535, 59, 1, 1722, 53, 0, 0, 65535, 110, 1,
    1729, 65535, 116, 1, 1733, 65535, 59, 1, 1737, 54, 0, 0, 65535, 111, 1, 1744,
    65535, 117, 1, 1748, 65535, 114, 1, 1752, 65535, 73, 1, 1756, 65535, 110, 1, 1760,
    65535, 116, 1, 1764, 65535, 101, 1, 1768, 65535, 103, 1, 1772, 65535, 114, 1, 1776,
    65535, 97, 1, 1780, 65535, 108, 1, 1784, 65535, 59, 1, 1788, 55, 0, 0, 65535,
    102, 13, 1807, 0, 0, 0, 0, 0, 0, 0, 0, 0, 0, 0, 1814, 65535,
    59, 1, 1811, 56, 0, 0, 65535, 111, 1, 1818, 65535, 100, 1, 1822, 65535, 117,
    1, 1826, 65535, 99, 1, 1830, 65535, 116, 1, 1834, 65535, 59, 1, 1838, 57, 0,
    0, 65535, 110, 1, 1845, 65535, 116, 1, 1849, 65535, 101, 1, 1853, 65535, 114, 1,
    1857, 65535, 67, 1, 1861, 65535, 108, 1, 1865, 65535, 111, 1, 1869, 65535, 99, 1,
    1873, 65535, 107, 1, 1877, 65535, 119, 1, 1881, 65535, 105, 1, 1885, 65535, 115, 1,
    1889, 65535, 101, 1, 1893, 65535, 67, 1, 1897, 65535, 111, 1, 1901, 65535, 110, 1,
    1905, 65535, 116, 1, 1909, 65535, 111, 1, 1913, 65535, 117, 1, 1917, 65535, 114, 1,
    1921, 65535, 73, 1, 1925, 65535, 110, 1, 1929, 65535, 116, 1, 1933, 65535, 101, 1,
    1937, 65535, 103, 1, 1941, 65535, 114, 1, 1945, 65535, 97, 1, 1949, 65535, 108, 1,
    1953, 65535, 59, 1, 1957, 58, 0, 0, 65535, 111, 1, 1964, 65535, 115, 1, 1968,
    65535, 115, 1, 1972, 65535, 59, 1, 1976, 59, 0, 0, 65535, 99, 1, 1983, 65535,
    114, 1, 1987, 65535, 59, 1, 1991, 60, 0, 0, 65535, 112, 1, 1998, 65535, 59,
    9, 2010, 0, 0, 0, 0, 0, 0, 0, 2013, 61, 0, 0, 65535, 97, 1,
    2017, 65535, 112, 1, 2021, 65535, 59, 1, 2025, 62, 0, 0, 65535, 68, 48, 2079,
    0, 0, 0, 0, 0, 2165, 0, 0, 0, 0, 0, 0, 0, 0, 2180, 0,
    0, 0, 0, 0, 0, 2195, 0, 0, 0, 0, 0, 0, 2210, 0, 2271, 0,
    2325, 2404, 0, 0, 2415, 0, 0, 0, 0, 0, 2679, 0, 0, 0, 3876, 65535,
    59, 53, 2135, 0, 0, 0, 0, 0, 0, 0, 0, 0, 0, 0, 0, 0,
    0, 0, 0, 0, 0, 0, 0, 0, 0, 0, 0, 0, 0, 0, 0, 0,
    0, 0, 0, 0, 0, 0, 0, 0, 0, 0, 0, 0, 0, 0, 0, 0,
    0, 0, 0, 0, 0, 0, 2138, 34, 0, 0, 65535, 116, 1, 2142, 65535, 114,
    1, 2146, 65535, 97, 1, 2150, 65535, 104, 1, 2154, 65535, 100, 1, 2158, 65535, 59,
    1, 2162, 63, 0, 0, 65535, 99, 1, 2169, 65535, 121, 1, 2173, 65535, 59, 1,
    2177, 64, 0, 0, 65535, 99, 1, 2184, 65535, 121, 1, 2188, 65535, 59, 1, 2192,
    65, 0, 0, 65535, 99, 1, 2199, 65535, 121, 1, 2203, 65535, 59, 1, 2207, 66,
    0, 0, 65535, 103, 13, 2226, 0, 0, 0, 0, 0, 0, 0, 0, 0, 0,
    2245, 2256, 65535, 103, 1, 2230, 65535, 101, 1, 2234, 65535, 114, 1, 2238, 65535, 59,
    1, 2242, 67, 0, 0, 65535, 114, 1, 2249, 65535, 59, 1, 2253, 68, 0, 0,
    65535, 104, 1, 2260, 65535, 118, 1, 2264, 65535, 59, 1, 2268, 69, 0, 0, 65535,
    97, 25, 2299, 0, 0, 0, 0, 0, 0, 0, 0, 0, 0, 0, 0, 0,
    0, 0, 0, 0, 0, 0, 0, 0, 0, 0, 2318, 65535, 114, 1, 2303, 65535,
    111, 1, 2307, 65535, 110, 1, 2311, 65535, 59, 1, 2315, 70, 0, 0, 65535, 59,
    1, 2322, 71, 0, 0, 65535, 108, 1, 2329, 65535, 59, 58, 2390, 0, 0, 0,
    0, 0, 0, 0, 0, 0, 0, 0, 0, 0, 0, 0, 0, 0, 0, 0,
    0, 0, 0, 0, 0, 0, 0, 0, 0, 0, 0, 0, 0, 0, 0, 0,
    0, 0, 0, 0, 0, 0, 0, 0, 0, 0, 0, 0, 0, 0, 0, 0,
    0, 0, 0, 0, 0, 2393, 72, 0, 0, 65535, 97, 1, 2397, 65535, 59, 1,
    2401, 73, 0, 0, 65535, 114, 1, 2408, 65535, 59, 1, 2412, 74, 0, 0, 65535,
    97, 6, 2424, 0, 0, 0, 0, 2632, 65535, 99, 11, 2438, 0, 0, 0, 0,
    0, 0, 0, 0, 0, 2613, 65535, 114, 1, 2442, 65535, 105, 1, 2446, 65535, 116,
    1, 2450, 65535, 105, 1, 2454, 65535, 99, 1, 2458, 65535, 97, 1, 2462, 65535, 108,
    1, 2466, 65535, 65, 20, 2489, 0, 0, 2512, 0, 0, 2567, 0, 0, 0, 0,
    0, 0, 0, 0, 0, 0, 0, 0, 2590, 65535, 99, 1, 2493, 65535, 117, 1,
    2497, 65535, 116, 1, 2501, 65535, 101, 1, 2505, 65535, 59, 1, 2509, 75, 0, 0,
    65535, 111, 1, 2516, 65535, 116, 2, 2521, 2528, 65535, 59, 1, 2525, 76, 0, 0,
    65535, 98, 1, 2532, 65535, 108, 1, 2536, 65535, 101, 1, 2540, 65535, 65, 1, 2544,
    65535, 99, 1, 2548, 65535, 117, 1, 2552, 65535, 116, 1, 2556, 65535, 101, 1, 2560,
];

/// Entry `i` of this part; 0 where the part has no such entry.
#[verifier::opaque]
pub open spec fn cell(i: int) -> u16 {
    if 0 <= i < 2560 {
        CELLS[i]
    } else {
        0
    }
}

/// Reads entry `i` of this part.
pub fn read_cell(i: usize) -> (entry: u16)
    ensures
        entry == cell(i as int),
{
    reveal(cell);
    if i < 2560 {
        CELLS[i]
    } else {
        0
    }
}

/// The entries of this part that the references `amp;`, `lt;` and `gt;` go through.
pub proof fn lemma_basic_reference_cells()
    ensures
        cell(0) == 65535,
        cell(1) == 65,
        cell(2) == 58,
        cell(35) == 18867,
        cell(41) == 30054,
        cell(46) == 34288,
{
    reveal(cell);
}

} // verus!
