//! Cells 2560 to 5119 of the trie table.
use vstd::prelude::*;

verus! {

/// The entries of this part, in order.
pub const CELLS: [u16; 2560] = [
    65535, 59, 1, 2564, 77, 0, 0, 65535, 114, 1, 2571, 65535, 97, 1, 2575, 65535,
    118, 1, 2579, 65535, 101, 1, 2583, 65535, 59, 1, 2587, 78, 0, 0, 65535, 105,
    1, 2594, 65535, 108, 1, 2598, 65535, 100, 1, 2602, 65535, 101, 1, 2606, 65535, 59,
    1, 2610, 79, 0, 0, 65535, 111, 1, 2617, 65535, 110, 1, 2621, 65535, 100, 1,
    2625, 65535, 59, 1, 2629, 80, 0, 0, 65535, 102, 1, 2636, 65535, 101, 1, 2640,
    65535, 114, 1, 2644, 65535, 101, 1, 2648, 65535, 110, 1, 2652, 65535, 116, 1, 2656,
    65535, 105, 1, 2660, 65535, 97, 1, 2664, 65535, 108, 1, 2668, 65535, 68, 1, 2672,
    65535, 59, 1, 2676, 81, 0, 0, 65535, 112, 8, 2690, 0, 0, 0, 2701, 2756,
    0, 3386, 65535, 102, 1, 2694, 65535, 59, 1, 2698, 82, 0, 0, 65535, 59, 11,
    2715, 0, 0, 0, 0, 0, 0, 0, 0, 2718, 2733, 83, 0, 0, 65535, 111,
    1, 2722, 65535, 116, 1, 2726, 65535, 59, 1, 2730, 84, 0, 0, 65535, 113, 1,
    2737, 65535, 117, 1, 2741, 65535, 97, 1, 2745, 65535, 108, 1, 2749, 65535, 59, 1,
    2753, 85, 0, 0, 65535, 98, 1, 2760, 65535, 108, 1, 2764, 65535, 101, 1, 2768,
    65535, 67, 20, 2791, 2854, 0, 0, 0, 0, 0, 0, 0, 2903, 0, 0, 0,
    0, 0, 3189, 0, 0, 3266, 3339, 65535, 111, 1, 2795, 65535, 110, 1, 2799, 65535,
    116, 1, 2803, 65535, 111, 1, 2807, 65535, 117, 1, 2811, 65535, 114, 1, 2815, 65535,
    73, 1, 2819, 65535, 110, 1, 2823, 65535, 116, 1, 2827, 65535, 101, 1, 2831, 65535,
    103, 1, 2835, 65535, 114, 1, 2839, 65535, 97, 1, 2843, 65535, 108, 1, 2847, 65535,
    59, 1, 2851, 54, 0, 0, 65535, 111, 1, 2858, 65535, 116, 4, 2865, 0, 0,
    2872, 65535, 59, 1, 2869, 83, 0, 0, 65535, 110, 1, 2876, 65535, 65, 1, 2880,
    65535, 114, 1, 2884, 65535, 114, 1, 2888, 65535, 111, 1, 2892, 65535, 119, 1, 2896,
    65535, 59, 1, 2900, 86, 0, 0, 65535, 101, 11, 2917, 0, 0, 0, 0, 0,
    0, 0, 0, 0, 3029, 65535, 102, 1, 2921, 65535, 116, 1, 2925, 65535, 65, 20,
    2948, 0, 0, 0, 0, 0, 0, 0, 0, 0, 0, 0, 0, 0, 0, 0,
    0, 2971, 0, 3014, 65535, 114, 1, 2952, 65535, 114, 1, 2956, 65535, 111, 1, 2960,
    65535, 119, 1, 2964, 65535, 59, 1, 2968, 87, 0, 0, 65535, 105, 1, 2975, 65535,
    103, 1, 2979, 65535, 104, 1, 2983, 65535, 116, 1, 2987, 65535, 65, 1, 2991, 65535,
    114, 1, 2995, 65535, 114, 1, 2999, 65535, 111, 1, 3003, 65535, 119, 1, 3007, 65535,
    59, 1, 3011, 88, 0, 0, 65535, 101, 1, 3018, 65535, 101, 1, 3022, 65535, 59,
    1, 3026, 69, 0, 0, 65535, 110, 1, 3033, 65535, 103, 1, 3037, 65535, 76, 7,
    3047, 0, 0, 0, 0, 0, 3146, 65535, 101, 1, 3051, 65535, 102, 1, 3055, 65535,
    116, 1, 3059, 65535, 65, 18, 3080, 0, 0, 0, 0, 0, 0, 0, 0, 0,
    0, 0, 0, 0, 0, 0, 0, 3103, 65535, 114, 1, 3084, 65535, 114, 1, 3088,
    65535, 111, 1, 3092, 65535, 119, 1, 3096, 65535, 59, 1, 3100, 89, 0, 0, 65535,
    105, 1, 3107, 65535, 103, 1, 3111, 65535, 104, 1, 3115, 65535, 116, 1, 3119, 65535,
    65, 1, 3123, 65535, 114, 1, 3127, 65535, 114, 1, 3131, 65535, 111, 1, 3135, 65535,
    119, 1, 3139, 65535, 59, 1, 3143, 90, 0, 0, 65535, 105, 1, 3150, 65535, 103,
    1, 3154, 65535, 104, 1, 3158, 65535, 116, 1, 3162, 65535, 65, 1, 3166, 65535, 114,
    1, 3170, 65535, 114, 1, 3174, 65535, 111, 1, 3178, 65535, 119, 1, 3182, 65535, 59,
    1, 3186, 91, 0, 0, 65535, 105, 1, 3193, 65535, 103, 1, 3197, 65535, 104, 1,
    3201, 65535, 116, 1, 3205, 65535, 65, 20, 3228, 0, 0, 0, 0, 0, 0, 0,
    0, 0, 0, 0, 0, 0, 0, 0, 0, 0, 0, 3251, 65535, 114, 1, 3232,
    65535, 114, 1, 3236, 65535, 111, 1, 3240, 65535, 119, 1, 3244, 65535, 59, 1, 3248,
    92, 0, 0, 65535, 101, 1, 3255, 65535, 101, 1, 3259, 65535, 59, 1, 3263, 93,
    0, 0, 65535, 112, 1, 3270, 65535, 65, 4, 3277, 0, 0, 3300, 65535, 114, 1,
    3281, 65535, 114, 1, 3285, 65535, 111, 1, 3289, 65535, 119, 1, 3293, 65535, 59, 1,
    3297, 94, 0, 0, 65535, 111, 1, 3304, 65535, 119, 1, 3308, 65535, 110, 1, 3312,
    65535, 65, 1, 3316, 65535, 114, 1, 3320, 65535, 114, 1, 3324, 65535, 111, 1, 3328,
    65535, 119, 1, 3332, 65535, 59, 1, 3336, 95, 0, 0, 65535, 101, 1, 3343, 65535,
    114, 1, 3347, 65535, 116, 1, 3351, 65535, 105, 1, 3355, 65535, 99, 1, 3359, 65535,
    97, 1, 3363, 65535, 108, 1, 3367, 65535, 66, 1, 3371, 65535, 97, 1, 3375, 65535,
    114, 1, 3379, 65535, 59, 1, 3383, 96, 0, 0, 65535, 110, 1, 3390, 65535, 65,
    33, 3426, 3521, 0, 0, 0, 0, 0, 0, 0, 0, 0, 3544, 0, 0, 0,
    0, 0, 3699, 0, 3809, 0, 0, 0, 0, 0, 0, 0, 0, 0, 0, 0,
    0, 3853, 65535, 114, 1, 3430, 65535, 114, 1, 3434, 65535, 111, 1, 3438, 65535, 119,
    1, 3442, 65535, 59, 27, 3472, 0, 0, 0, 0, 0, 0, 3475, 0, 0, 0,
    0, 0, 0, 0, 0, 0, 0, 0, 0, 0, 0, 0, 0, 0, 0, 3490,
    97, 0, 0, 65535, 97, 1, 3479, 65535, 114, 1, 3483, 65535, 59, 1, 3487, 98,
    0, 0, 65535, 112, 1, 3494, 65535, 65, 1, 3498, 65535, 114, 1, 3502, 65535, 114,
    1, 3506, 65535, 111, 1, 3510, 65535, 119, 1, 3514, 65535, 59, 1, 3518, 99, 0,
    0, 65535, 114, 1, 3525, 65535, 101, 1, 3529, 65535, 118, 1, 3533, 65535, 101, 1,
    3537, 65535, 59, 1, 3541, 100, 0, 0, 65535, 101, 1, 3548, 65535, 102, 1, 3552,
    65535, 116, 1, 3556, 65535, 82, 5, 3564, 0, 3611, 0, 3650, 65535, 105, 1, 3568,
    65535, 103, 1, 3572, 65535, 104, 1, 3576, 65535, 116, 1, 3580, 65535, 86, 1, 3584,
    65535, 101, 1, 3588, 65535, 99, 1, 3592, 65535, 116, 1, 3596, 65535, 111, 1, 3600,
    65535, 114, 1, 3604, 65535, 59, 1, 3608, 101, 0, 0, 65535, 101, 1, 3615, 65535,
    101, 1, 3619, 65535, 86, 1, 3623, 65535, 101, 1, 3627, 65535, 99, 1, 3631, 65535,
    116, 1, 3635, 65535, 111, 1, 3639, 65535, 114, 1, 3643, 65535, 59, 1, 3647, 102,
    0, 0, 65535, 101, 1, 3654, 65535, 99, 1, 3658, 65535, 116, 1, 3662, 65535, 111,
    1, 3666, 65535, 114, 1, 3670, 65535, 59, 8, 3681, 0, 0, 0, 0, 0, 0,
    3684, 103, 0, 0, 65535, 97, 1, 3688, 65535, 114, 1, 3692, 65535, 59, 1, 3696,
    104, 0, 0, 65535, 105, 1, 3703, 65535, 103, 1, 3707, 65535, 104, 1, 3711, 65535,
    116, 1, 3715, 65535, 84, 3, 3721, 0, 3760, 65535, 101, 1, 3725, 65535, 101, 1,
    3729, 65535, 86, 1, 3733, 65535, 101, 1, 3737, 65535, 99, 1, 3741, 65535, 116, 1,
    3745, 65535, 111, 1, 3749, 65535, 114, 1, 3753, 65535, 59, 1, 3757, 105, 0, 0,
    65535, 101, 1, 3764, 65535, 99, 1, 3768, 65535, 116, 1, 3772, 65535, 111, 1, 3776,
    65535, 114, 1, 3780, 65535, 59, 8, 3791, 0, 0, 0, 0, 0, 0, 3794, 106,
    0, 0, 65535, 97, 1, 3798, 65535, 114, 1, 3802, 65535, 59, 1, 3806, 107, 0,
    0, 65535, 101, 1, 3813, 65535, 101, 1, 3817, 65535, 59, 7, 3827, 0, 0, 0,
    0, 0, 3830, 108, 0, 0, 65535, 114, 1, 3834, 65535, 114, 1, 3838, 65535, 111,
    1, 3842, 65535, 119, 1, 3846, 65535, 59, 1, 3850, 109, 0, 0, 65535, 114, 1,
    3857, 65535, 114, 1, 3861, 65535, 111, 1, 3865, 65535, 119, 1, 3869, 65535, 59, 1,
    3873, 86, 0, 0, 65535, 99, 18, 3897, 0, 0, 0, 0, 0, 0, 0, 0,
    0, 0, 0, 0, 0, 0, 0, 0, 3908, 65535, 114, 1, 3901, 65535, 59, 1,
    3905, 110, 0, 0, 65535, 114, 1, 3912, 65535, 111, 1, 3916, 65535, 107, 1, 3920,
    65535, 59, 1, 3924, 111, 0, 0, 65535, 78, 43, 3973, 0, 0, 0, 0, 0,
    3984, 0, 0, 0, 0, 0, 0, 0, 0, 0, 0, 0, 0, 3995, 0, 4018,
    4087, 0, 4102, 4113, 0, 0, 0, 0, 4136, 4163, 0, 4322, 4361, 4388, 0, 4498,
    4530, 4541, 0, 0, 4556, 65535, 71, 1, 3977, 65535, 59, 1, 3981, 112, 0, 0,
    65535, 72, 1, 3988, 113, 59, 1, 3992, 113, 0, 0, 65535, 99, 1, 3999, 65535,
    117, 1, 4003, 65535, 116, 1, 4007, 65535, 101, 1, 4011, 114, 59, 1, 4015, 114,
    0, 0, 65535, 97, 25, 4046, 0, 0, 0, 0, 0, 0, 0, 4065, 0, 0,
    0, 0, 0, 0, 0, 0, 0, 0, 0, 0, 0, 0, 0, 4080, 65535, 114,
    1, 4050, 65535, 111, 1, 4054, 65535, 110, 1, 4058, 65535, 59, 1, 4062, 115, 0,
    0, 65535, 114, 1, 4069, 65535, 99, 1, 4073, 116, 59, 1, 4077, 116, 0, 0,
    65535, 59, 1, 4084, 117, 0, 0, 65535, 111, 1, 4091, 65535, 116, 1, 4095, 65535,
    59, 1, 4099, 118, 0, 0, 65535, 114, 1, 4106, 65535, 59, 1, 4110, 119, 0,
    0, 65535, 114, 1, 4117, 65535, 97, 1, 4121, 65535, 118, 1, 4125, 65535, 101, 1,
    4129, 120, 59, 1, 4133, 120, 0, 0, 65535, 101, 1, 4140, 65535, 109, 1, 4144,
    65535, 101, 1, 4148, 65535, 110, 1, 4152, 65535, 116, 1, 4156, 65535, 59, 1, 4160,
    121, 0, 0, 65535, 97, 16, 4182, 0, 0, 0, 0, 0, 0, 0, 0, 0,
    0, 0, 0, 0, 0, 4197, 65535, 99, 1, 4186, 65535, 114, 1, 4190, 65535, 59,
    1, 4194, 122, 0, 0, 65535, 116, 1, 4201, 65535, 121, 1, 4205, 65535, 83, 4,
    4212, 0, 0, 4259, 65535, 109, 1, 4216, 65535, 97, 1, 4220, 65535, 108, 1, 4224,
    65535, 108, 1, 4228, 65535, 83, 1, 4232, 65535, 113, 1, 4236, 65535, 117, 1, 4240,
    65535, 97, 1, 4244, 65535, 114, 1, 4248, 65535, 101, 1, 4252, 65535, 59, 1, 4256,
    123, 0, 0, 65535, 101, 1, 4263, 65535, 114, 1, 4267, 65535, 121, 1, 4271, 65535,
    83, 1, 4275, 65535, 109, 1, 4279, 65535, 97, 1, 4283, 65535, 108, 1, 4287, 65535,
    108, 1, 4291, 65535, 83, 1, 4295, 65535, 113, 1, 4299, 65535, 117, 1, 4303, 65535,
    97, 1, 4307, 65535, 114, 1, 4311, 65535, 101, 1, 4315, 65535, 59, 1, 4319, 124,
    0, 0, 65535, 103, 10, 4335, 0, 0, 0, 0, 0, 0, 0, 0, 4350, 65535,
    111, 1, 4339, 65535, 110, 1, 4343, 65535, 59, 1, 4347, 125, 0, 0, 65535, 102,
    1, 4354, 65535, 59, 1, 4358, 126, 0, 0, 65535, 115, 1, 4365, 65535, 105, 1,
    4369, 65535, 108, 1, 4373, 65535, 111, 1, 4377, 65535, 110, 1, 4381, 65535, 59, 1,
    4385, 127, 0, 0, 65535, 117, 1, 4392, 65535, 97, 9, 4404, 0, 0, 0, 0,
    0, 0, 0, 4463, 65535, 108, 1, 4408, 65535, 59, 26, 4437, 0, 0, 0, 0,
    0, 0, 0, 0, 0, 0, 0, 0, 0, 0, 0, 0, 0, 0, 0, 0,
    0, 0, 0, 0, 4440, 128, 0, 0, 65535, 105, 1, 4444, 65535, 108, 1, 4448,
    65535, 100, 1, 4452, 65535, 101, 1, 4456, 65535, 59, 1, 4460, 129, 0, 0, 65535,
    108, 1, 4467, 65535, 105, 1, 4471, 65535, 98, 1, 4475, 65535, 114, 1, 4479, 65535,
    105, 1, 4483, 65535, 117, 1, 4487, 65535, 109, 1, 4491, 65535, 59, 1, 4495, 130,
    0, 0, 65535, 99, 7, 4508, 0, 0, 0, 0, 0, 4519, 65535, 114, 1, 4512,
    65535, 59, 1, 4516, 131, 0, 0, 65535, 109, 1, 4523, 65535, 59, 1, 4527, 132,
    0, 0, 65535, 97, 1, 4534, 65535, 59, 1, 4538, 133, 0, 0, 65535, 109, 1,
    4545, 65535, 108, 1, 4549, 134, 59, 1, 4553, 134, 0, 0, 65535, 105, 8, 4567,
    0, 0, 0, 0, 0, 0, 4586, 65535, 115, 1, 4571, 65535, 116, 1, 4575, 65535,
    115, 1, 4579, 65535, 59, 1, 4583, 135, 0, 0, 65535, 111, 1, 4590, 65535, 110,
    1, 4594, 65535, 101, 1, 4598, 65535, 110, 1, 4602, 65535, 116, 1, 4606, 65535, 105,
    1, 4610, 65535, 97, 1, 4614, 65535, 108, 1, 4618, 65535, 69, 1, 4622, 65535, 59,
    1, 4626, 136, 0, 0, 65535, 99, 17, 4649, 0, 0, 4660, 0, 0, 4671, 0,
    0, 0, 0, 0, 4804, 0, 0, 0, 4878, 65535, 121, 1, 4653, 65535, 59, 1,
    4657, 137, 0, 0, 65535, 114, 1, 4664, 65535, 59, 1, 4668, 138, 0, 0, 65535,
    108, 1, 4675, 65535, 108, 1, 4679, 65535, 101, 1, 4683, 65535, 100, 1, 4687, 65535,
    83, 4, 4694, 0, 0, 4741, 65535, 109, 1, 4698, 65535, 97, 1, 4702, 65535, 108,
    1, 4706, 65535, 108, 1, 4710, 65535, 83, 1, 4714, 65535, 113, 1, 4718, 65535, 117,
    1, 4722, 65535, 97, 1, 4726, 65535, 114, 1, 4730, 65535, 101, 1, 4734, 65535, 59,
    1, 4738, 139, 0, 0, 65535, 101, 1, 4745, 65535, 114, 1, 4749, 65535, 121, 1,
    4753, 65535, 83, 1, 4757, 65535, 109, 1, 4761, 65535, 97, 1, 4765, 65535, 108, 1,
    4769, 65535, 108, 1, 4773, 65535, 83, 1, 4777, 65535, 113, 1, 4781, 65535, 117, 1,
    4785, 65535, 97, 1, 4789, 65535, 114, 1, 4793, 65535, 101, 1, 4797, 65535, 59, 1,
    4801, 140, 0, 0, 65535, 112, 6, 4813, 0, 4824, 0, 0, 4843, 65535, 102, 1,
    4817, 65535, 59, 1, 4821, 141, 0, 0, 65535, 65, 1, 4828, 65535, 108, 1, 4832,
    65535, 108, 1, 4836, 65535, 59, 1, 4840, 142, 0, 0, 65535, 114, 1, 4847, 65535,
    105, 1, 4851, 65535, 101, 1, 4855, 65535, 114, 1, 4859, 65535, 116, 1, 4863, 65535,
    114, 1, 4867, 65535, 102, 1, 4871, 65535, 59, 1, 4875, 143, 0, 0, 65535, 99,
    1, 4882, 65535, 114, 1, 4886, 65535, 59, 1, 4890, 143, 0, 0, 65535, 74, 43,
    4939, 0, 0, 0, 0, 0, 0, 0, 0, 0, 4954, 0, 0, 0, 0, 0,
    0, 0, 0, 0, 0, 0, 0, 4961, 5028, 5051, 5116, 0, 5131, 5142, 0, 0,
    0, 0, 0, 0, 0, 5149, 0, 0, 5164, 5417, 5432, 65535, 99, 1, 4943, 65535,
    121, 1, 4947, 65535, 59, 1, 4951, 144, 0, 0, 145, 59, 1, 4958, 145, 0,
    0, 65535, 109, 1, 4965, 65535, 109, 1, 4969, 65535, 97, 1, 4973, 65535, 59, 42,
    5018, 0, 0, 0, 0, 0, 0, 0, 0, 0, 0, 0, 0, 0, 0, 0,
    0, 0, 0, 0, 0, 0, 0, 0, 0, 0, 0, 0, 0, 0, 0, 0,
    0, 0, 0, 0, 0, 0, 0, 0, 0, 5021, 146, 0, 0, 65535, 59, 1,
    5025, 147, 0, 0, 65535, 114, 1, 5032, 65535, 101, 1, 5036, 65535, 118, 1, 5040,
    65535, 101, 1, 5044, 65535, 59, 1, 5048, 148, 0, 0, 65535, 101, 21, 5075, 0,
    0, 0, 5094, 0, 0, 0, 0, 0, 0, 0, 0, 0, 0, 0, 0, 0,
    0, 0, 5109, 65535, 100, 1, 5079, 65535, 105, 1, 5083, 65535, 108, 1, 5087, 65535,
    59, 1, 5091, 149, 0, 0, 65535, 114, 1, 5098, 65535, 99, 1, 5102, 65535, 59,
    1, 5106, 150, 0, 0, 65535, 59, 1, 5113, 151, 0, 0, 65535, 111, 1, 5120,
];

/// Entry `i` of this part; 0 where the part has no such entry.
#[verifier::opaque]
pub open spec fn cell(i: int) -> u16 {
    if 0 <= i < 2560 {
        CELLS[i]
    } else {
        0
    }
}

/// Reads entry `i` of this part.
pub fn read_cell(i: usize) -> (entry: u16)
    ensures
        entry == cell(i as int),
{
    reveal(cell);
    if i < 2560 {
        CELLS[i]
    } else {
        0
    }
}

} // verus!
