//! For each expansion, by id, the offset just past its last byte.
use vstd::prelude::*;

verus! {

/// The entries of this part, in order.
pub const CELLS: [u16; 1511] = [
    2, 3, 5, 7, 9, 11, 15, 17, 19, 21, 24, 26, 30, 33, 35, 39,
    42, 44, 46, 49, 52, 55, 57, 60, 63, 65, 69, 73, 75, 78, 80, 82,
    84, 87, 90, 93, 95, 97, 99, 102, 104, 106, 108, 110, 113, 116, 119, 122,
    125, 128, 131, 134, 137, 140, 143, 146, 149, 152, 155, 158, 162, 165, 168, 171,
    173, 175, 177, 180, 183, 186, 188, 190, 193, 195, 199, 201, 203, 205, 206, 208,
    211, 214, 218, 220, 223, 226, 229, 232, 235, 238, 241, 244, 247, 250, 253, 256,
    259, 262, 265, 268, 270, 273, 276, 279, 282, 285, 288, 291, 294, 297, 301, 303,
    305, 307, 309, 311, 313, 315, 317, 321, 323, 326, 328, 331, 334, 336, 340, 342,
    345, 348, 351, 354, 357, 359, 361, 364, 367, 369, 373, 376, 379, 383, 386, 389,
    391, 392, 394, 396, 398, 400, 402, 404, 406, 410, 413, 417, 420, 423, 426, 429,
    432, 435, 438, 442, 445, 447, 449, 450, 452, 455, 458, 461, 464, 466, 469, 471,
    473, 475, 477, 479, 481, 483, 486, 488, 490, 493, 496, 499, 502, 505, 508, 510,
    514, 516, 519, 521, 523, 525, 527, 529, 533, 537, 541, 543, 545, 547, 549, 551,
    553, 555, 559, 563, 567, 569, 570, 572, 574, 577, 580, 583, 585, 587, 589, 592,
    595, 598, 601, 604, 607, 610, 613, 616, 619, 622, 625, 628, 631, 634, 637, 640,
    643, 646, 649, 652, 655, 658, 661, 664, 667, 670, 673, 676, 679, 683, 686, 689,
    691, 694, 697, 700, 704, 707, 710, 713, 715, 718, 721, 723, 726, 729, 733, 736,
    740, 742, 744, 746, 748, 750, 752, 755, 756, 760, 763, 765, 768, 771, 774, 777,
    780, 783, 786, 791, 794, 797, 800, 805, 810, 813, 818, 821, 826, 831, 834, 839,
    842, 845, 848, 851, 856, 861, 864, 869, 874, 877, 882, 885, 888, 891, 896, 899,
    904, 907, 912, 915, 921, 924, 927, 932, 935, 940, 946, 949, 952, 955, 958, 961,
    964, 968, 970, 972, 974, 976, 978, 980, 982, 986, 988, 990, 992, 994, 998, 1001,
    1004, 1007, 1011, 1013, 1015, 1018, 1020, 1023, 1026, 1029, 1032, 1035, 1037, 1041, 1043, 1045,
    1047, 1050, 1053, 1056, 1059, 1062, 1065, 1068, 1071, 1074, 1078, 1080, 1081, 1085, 1088, 1092,
    1095, 1097, 1099, 1102, 1105, 1108, 1110, 1112, 1114, 1117, 1120, 1123, 1126, 1128, 1131, 1134,
    1137, 1140, 1143, 1146, 1149, 1152, 1155, 1158, 1161, 1164, 1167, 1170, 1173, 1176, 1179, 1182,
    1185, 1188, 1191, 1194, 1197, 1200, 1203, 1206, 1209, 1212, 1214, 1216, 1218, 1220, 1223, 1225,
    1227, 1229, 1231, 1235, 1238, 1240, 1243, 1247, 1250, 1253, 1256, 1259, 1262, 1265, 1268, 1271,
    1275, 1278, 1281, 1284, 1287, 1290, 1293, 1296, 1299, 1302, 1305, 1308, 1310, 1313, 1315, 1317,
    1318, 1320, 1322, 1324, 1326, 1330, 1333, 1335, 1341, 1344, 1347, 1350, 1353, 1356, 1360, 1363,
    1367, 1369, 1371, 1374, 1377, 1379, 1381, 1383, 1385, 1387, 1391, 1393, 1395, 1396, 1399, 1402,
    1405, 1408, 1411, 1413, 1417, 1420, 1423, 1426, 1429, 1432, 1435, 1438, 1441, 1443, 1445, 1447,
    1451, 1453, 1455, 1458, 1461, 1463, 1466, 1469, 1472, 1475, 1478, 1479, 1482, 1485, 1488, 1492,
    1496, 1500, 1503, 1505, 1508, 1512, 1516, 1520, 1524, 1526, 1530, 1534, 1536, 1538, 1540, 1542,
    1544, 1546, 1550, 1554, 1558, 1560, 1562, 1564, 1566, 1568, 1570, 1572, 1575, 1578, 1582, 1584,
    1586, 1589, 1594, 1597, 1599, 1601, 1603, 1607, 1609, 1612, 1614, 1616, 1619, 1622, 1625, 1628,
    1631, 1634, 1637, 1640, 1643, 1646, 1649, 1652, 1655, 1658, 1661, 1664, 1667, 1670, 1673, 1676,
    1679, 1682, 1684, 1688, 1691, 1694, 1697, 1700, 1701, 1703, 1707, 1708, 1710, 1712, 1715, 1718,
    1721, 1723, 1726, 1729, 1732, 1735, 1738, 1741, 1743, 1746, 1749, 1751, 1754, 1757, 1761, 1764,
    1767, 1770, 1773, 1776, 1779, 1782, 1785, 1788, 1791, 1794, 1797, 1800, 1803, 1806, 1809, 1812,
    1815, 1818, 1821, 1825, 1831, 1834, 1838, 1841, 1844, 1847, 1850, 1853, 1856, 1859, 1862, 1865,
    1868, 1871, 1874, 1877, 1880, 1883, 1886, 1889, 1892, 1895, 1898, 1901, 1904, 1907, 1910, 1913,
    1916, 1919, 1922, 1925, 1928, 1931, 1934, 1937, 1940, 1943, 1946, 1949, 1952, 1955, 1958, 1961,
    1964, 1967, 1970, 1972, 1976, 1979, 1980, 1983, 1986, 1989, 1992, 1994, 1997, 2000, 2003, 2006,
    2009, 2012, 2018, 2021, 2024, 2026, 2028, 2030, 2033, 2036, 2038, 2041, 2043, 2047, 2049, 2052,
    2054, 2057, 2060, 2062, 2065, 2068, 2071, 2074, 2077, 2080, 2083, 2086, 2089, 2092, 2095, 2096,
    2097, 2098, 2101, 2104, 2108, 2111, 2114, 2117, 2121, 2124, 2127, 2130, 2133, 2136, 2139, 2142,
    2145, 2148, 2151, 2154, 2157, 2160, 2163, 2166, 2169, 2172, 2178, 2181, 2184, 2187, 2190, 2192,
    2195, 2198, 2201, 2204, 2207, 2210, 2213, 2215, 2217, 2220, 2223, 2225, 2227, 2230, 2233, 2237,
    2240, 2242, 2245, 2247, 2250, 2252, 2255, 2258, 2259, 2263, 2266, 2269, 2272, 2275, 2278, 2281,
    2285, 2287, 2290, 2292, 2295, 2298, 2301, 2303, 2306, 2308, 2311, 2313, 2316, 2318, 2321, 2323,
    2325, 2328, 2332, 2335, 2337, 2340, 2343, 2346, 2349, 2352, 2355, 2358, 2360, 2363, 2366, 2369,
    2372, 2374, 2377, 2379, 2383, 2386, 2389, 2392, 2394, 2396, 2397, 2400, 2403, 2406, 2409, 2412,
    2415, 2417, 2419, 2421, 2424, 2425, 2427, 2430, 2433, 2436, 2439, 2443, 2446, 2448, 2451, 2454,
    2457, 2459, 2463, 2466, 2469, 2472, 2474, 2477, 2479, 2482, 2485, 2488, 2491, 2494, 2496, 2499,
    2502, 2505, 2508, 2511, 2514, 2517, 2520, 2524, 2527, 2529, 2531, 2534, 2536, 2538, 2540, 2542,
    2545, 2548, 2551, 2554, 2560, 2563, 2567, 2570, 2572, 2575, 2578, 2581, 2584, 2587, 2590, 2593,
    2597, 2600, 2603, 2606, 2609, 2612, 2615, 2618, 2621, 2624, 2630, 2632, 2635, 2638, 2641, 2643,
    2646, 2649, 2652, 2656, 2659, 2662, 2665, 2668, 2671, 2674, 2678, 2681, 2685, 2687, 2690, 2692,
    2694, 2696, 2698, 2700, 2704, 2706, 2709, 2712, 2715, 2718, 2720, 2722, 2724, 2727, 2729, 2732,
    2735, 2738, 2741, 2744, 2747, 2749, 2751, 2755, 2757, 2759, 2763, 2766, 2769, 2772, 2775, 2777,
    2779, 2781, 2783, 2785, 2789, 2791, 2795, 2799, 2801, 2803, 2805, 2807, 2809, 2811, 2815, 2817,
    2819, 2821, 2825, 2829, 2832, 2835, 2838, 2841, 2843, 2846, 2848, 2851, 2854, 2856, 2859, 2862,
    2865, 2868, 2871, 2874, 2877, 2880, 2883, 2889, 2892, 2895, 2896, 2897, 2900, 2903, 2906, 2908,
    2910, 2912, 2915, 2918, 2921, 2924, 2927, 2930, 2933, 2936, 2939, 2942, 2945, 2951, 2954, 2957,
    2960, 2964, 2967, 2970, 2973, 2975, 2978, 2981, 2983, 2986, 2989, 2992, 2995, 2998, 3001, 3004,
    3007, 3010, 3013, 3017, 3020, 3023, 3026, 3029, 3030, 3033, 3036, 3039, 3042, 3045, 3049, 3052,
    3055, 3058, 3060, 3063, 3066, 3069, 3072, 3075, 3078, 3081, 3084, 3087, 3093, 3096, 3098, 3101,
    3104, 3107, 3110, 3112, 3115, 3119, 3122, 3124, 3127, 3130, 3133, 3136, 3139, 3143, 3147, 3149,
    3152, 3157, 3163, 3166, 3169, 3174, 3180, 3183, 3186, 3189, 3191, 3197, 3202, 3207, 3209, 3212,
    3215, 3217, 3219, 3224, 3227, 3229, 3232, 3235, 3238, 3243, 3246, 3250, 3253, 3256, 3259, 3262,
    3264, 3269, 3272, 3275, 3279, 3281, 3286, 3291, 3294, 3297, 3300, 3303, 3309, 3314, 3317, 3320,
    3325, 3330, 3334, 3337, 3342, 3345, 3350, 3352, 3354, 3355, 3358, 3361, 3364, 3367, 3373, 3376,
    3382, 3386, 3389, 3392, 3398, 3402, 3408, 3411, 3417, 3423, 3426, 3429, 3432, 3434, 3436, 3438,
    3440, 3443, 3446, 3448, 3451, 3455, 3457, 3459, 3462, 3465, 3468, 3471, 3474, 3476, 3478, 3480,
    3483, 3487, 3490, 3493, 3496, 3499, 3502, 3504, 3506, 3509, 3512, 3515, 3518, 3520, 3523, 3525,
    3528, 3530, 3533, 3535, 3538, 3541, 3543, 3544, 3545, 3548, 3551, 3555, 3557, 3559, 3562, 3564,
    3566, 3569, 3570, 3573, 3576, 3579, 3582, 3585, 3588, 3591, 3595, 3597, 3600, 3603, 3606, 3609,
    3612, 3615, 3618, 3621, 3624, 3627, 3631, 3633, 3636, 3640, 3644, 3647, 3651, 3654, 3655, 3658,
    3661, 3666, 3668, 3671, 3674, 3677, 3679, 3682, 3685, 3688, 3691, 3694, 3697, 3700, 3703, 3706,
    3709, 3712, 3713, 3714, 3717, 3720, 3723, 3725, 3727, 3729, 3732, 3735, 3738, 3741, 3744, 3748,
    3751, 3753, 3755, 3758, 3761, 3763, 3766, 3769, 3772, 3775, 3778, 3781, 3785, 3788, 3791, 3792,
    3795, 3798, 3801, 3805, 3808, 3811, 3814, 3817, 3820, 3822, 3825, 3828, 3830, 3832, 3834, 3837,
    3840, 3843, 3846, 3848, 3851, 3854, 3857, 3859, 3860, 3863, 3866, 3870, 3873, 3875, 3877, 3879,
    3881, 3883, 3886, 3889, 3892, 3895, 3898, 3901, 3904, 3907, 3910, 3913, 3916, 3919, 3922, 3928,
    3930, 3931, 3934, 3937, 3941, 3944, 3950, 3956, 3960, 3963, 3966, 3969, 3972, 3975, 3978, 3981,
    3984, 3987, 3990, 3993, 3996, 3999, 4002, 4004, 4006, 4008, 4011, 4014, 4017, 4020, 4023, 4026,
    4029, 4032, 4035, 4038, 4041, 4044, 4047, 4050, 4053, 4056, 4058, 4061, 4063, 4065, 4067, 4069,
    4072, 4076, 4078, 4080, 4082, 4084, 4087, 4090, 4093, 4096, 4100, 4103, 4106, 4109, 4112, 4115,
    4118, 4121, 4124, 4127, 4130, 4134, 4136, 4138, 4140, 4143, 4145, 4147, 4149, 4151, 4153, 4155,
    4158, 4162, 4164, 4167, 4170, 4173, 4176, 4178, 4180, 4184, 4186, 4189, 4192, 4195, 4197, 4200,
    4204, 4207, 4209, 4211, 4214, 4217, 4220, 4223, 4229, 4235, 4241, 4247, 4249, 4252, 4255, 4258,
    4262, 4266, 4270, 4273, 4275, 4278, 4281, 4284, 4288, 4292, 4296, 4300, 4302, 4305, 4309, 4313,
    4315, 4317, 4319, 4321, 4323, 4327, 4329, 4333, 4337, 4339, 4341, 4343, 4345, 4347, 4349, 4351,
    4355, 4357, 4360, 4364, 4368, 4371, 4374,
];

/// Entry `i` of this part; 0 where the part has no such entry.
#[verifier::opaque]
pub open spec fn cell(i: int) -> u16 {
    if 0 <= i < 1511 {
        CELLS[i]
    } else {
        0
    }
}

/// Reads entry `i` of this part.
pub fn read_cell(i: usize) -> (entry: u16)
    ensures
        entry == cell(i as int),
{
    reveal(cell);
    if i < 1511 {
        CELLS[i]
    } else {
        0
    }
}

/// The entries of this part that the references `amp;`, `lt;` and `gt;` go through.
pub proof fn lemma_basic_reference_cells()
    ensures
        cell(0) == 2,
        cell(1) == 3,
        cell(144) == 391,
        cell(145) == 392,
        cell(213) == 569,
        cell(214) == 570,
{
    reveal(cell);
}

} // verus!
