//! The transition table of the Indic syllable machine.
use vstd::prelude::*;
use crate::arrays::vec_of;
use crate::binary_table::{BinaryRules, BinaryTable};
use crate::graph::{Graph, GraphModel};
use crate::indic_actions::{load_programs, programs};

verus! {

/// The state a scan starts in, and the first accepting state.
pub const START: usize = 31;

/// For each state, whether its entry hook resets the segment start.
pub const ANCHOR: [bool; 138] = [
    false, false, false, false, false, false, false, false, false, false, false, false, false,
    false, false, false, false, false, false, false, false, false, false, false, false, false,
    false, false, false, false, false, true, false, false, false, false, false, false, false,
    false, false, false, false, false, false, false, false, false, false, false, false, false,
    false, false, false, false, false, false, false, false, false, false, false, false, false,
    false, false, false, false, false, false, false, false, false, false, false, false, false,
    false, false, false, false, false, false, false, false, false, false, false, false, false,
    false, false, false, false, false, false, false, false, false, false, false, false, false,
    false, false, false, false, false, false, false, false, false, false, false, false, false,
    false, false, false, false, false, false, false, false, false, false, false, false, false,
    false, false, false, false, false, false, false, false,
];

/// For each state, the index of its first key.
pub const KEY_OFFSETS: [u16; 138] = [
    0, 1, 7, 12, 17, 18, 24, 31, 37, 38, 43, 48, 49, 55, 62, 69, 76, 77, 82, 87, 88, 94, 100,
    107, 108, 113, 118, 119, 125, 131, 136, 137, 155, 165, 174, 182, 188, 192, 195, 196, 198,
    205, 211, 217, 225, 232, 238, 242, 249, 253, 258, 262, 271, 281, 291, 300, 308, 314, 324,
    333, 341, 347, 350, 351, 353, 360, 366, 374, 381, 387, 391, 398, 402, 406, 411, 415, 424,
    434, 440, 449, 458, 466, 472, 482, 488, 491, 492, 494, 501, 507, 515, 522, 528, 532, 541,
    548, 552, 556, 561, 565, 575, 582, 588, 598, 607, 615, 621, 631, 637, 640, 641, 643, 650,
    656, 664, 671, 677, 681, 690, 697, 701, 705, 710, 714, 729, 739, 753, 761, 765, 769, 770,
    772, 782, 787, 791, 794, 795, 797,
];

/// For each state, the number of its single keys.
pub const SINGLE_LENGTHS: [u16; 138] = [
    1, 4, 3, 3, 1, 4, 5, 4, 1, 3, 3, 1, 4, 5, 5, 5, 1, 3, 3, 1, 4, 4, 5, 1, 3, 3, 1, 4, 4, 3, 1,
    16, 10, 7, 6, 6, 2, 3, 1, 2, 5, 4, 6, 6, 5, 4, 4, 5, 4, 3, 4, 7, 10, 10, 9, 8, 6, 10, 7, 6,
    6, 3, 1, 2, 5, 4, 6, 5, 4, 4, 5, 4, 2, 3, 4, 7, 10, 4, 9, 7, 6, 6, 10, 6, 3, 1, 2, 5, 4, 6,
    5, 4, 4, 7, 5, 4, 2, 3, 4, 10, 5, 4, 10, 7, 6, 6, 10, 6, 3, 1, 2, 5, 4, 6, 5, 4, 4, 7, 5, 4,
    2, 3, 4, 13, 10, 14, 6, 4, 4, 1, 2, 8, 3, 2, 3, 1, 2, 3,
];

/// For each state, the number of its key ranges.
pub const RANGE_LENGTHS: [u16; 138] = [
    0, 1, 1, 1, 0, 1, 1, 1, 0, 1, 1, 0, 1, 1, 1, 1, 0, 1, 1, 0, 1, 1, 1, 0, 1, 1, 0, 1, 1, 1, 0,
    1, 0, 1, 1, 0, 1, 0, 0, 0, 1, 1, 0, 1, 1, 1, 0, 1, 0, 1, 0, 1, 0, 0, 0, 0, 0, 0, 1, 1, 0, 0,
    0, 0, 1, 1, 1, 1, 1, 0, 1, 0, 1, 1, 0, 1, 0, 1, 0, 1, 1, 0, 0, 0, 0, 0, 0, 1, 1, 1, 1, 1, 0,
    1, 1, 0, 1, 1, 0, 0, 1, 1, 0, 1, 1, 0, 0, 0, 0, 0, 0, 1, 1, 1, 1, 1, 0, 1, 1, 0, 1, 1, 0, 1,
    0, 0, 1, 0, 0, 0, 0, 1, 1, 1, 0, 0, 0, 0,
];

/// For each state, the index of its first transition.
pub const INDEX_OFFSETS: [u16; 138] = [
    0, 2, 8, 13, 18, 20, 26, 33, 39, 41, 46, 51, 53, 59, 66, 73, 80, 82, 87, 92, 94, 100, 106,
    113, 115, 120, 125, 127, 133, 139, 144, 146, 164, 175, 184, 192, 199, 203, 207, 209, 212,
    219, 225, 232, 240, 247, 253, 258, 265, 270, 275, 280, 289, 300, 311, 321, 330, 337, 348,
    357, 365, 372, 376, 378, 381, 388, 394, 402, 409, 415, 420, 427, 432, 436, 441, 446, 455,
    466, 472, 482, 491, 499, 506, 517, 524, 528, 530, 533, 540, 546, 554, 561, 567, 572, 581,
    588, 593, 597, 602, 607, 618, 625, 631, 642, 651, 659, 666, 677, 684, 688, 690, 693, 700,
    706, 714, 721, 727, 732, 741, 748, 753, 757, 762, 767, 782, 793, 808, 816, 821, 826, 828,
    831, 841, 846, 850, 854, 856, 859,
];

/// For each state, the index of its transition at the end of the input, plus one.
pub const END_TRANSITIONS: [u16; 138] = [
    864, 865, 866, 867, 868, 869, 870, 871, 872, 873, 874, 875, 876, 877, 878, 879, 880, 881,
    882, 883, 884, 885, 886, 887, 888, 889, 890, 891, 892, 893, 894, 895, 896, 897, 898, 899,
    900, 901, 902, 903, 904, 905, 906, 907, 908, 909, 910, 911, 912, 913, 914, 915, 916, 917,
    918, 919, 920, 921, 922, 923, 924, 925, 926, 927, 928, 929, 930, 931, 932, 933, 934, 935,
    936, 937, 938, 939, 940, 941, 942, 943, 944, 945, 946, 947, 948, 949, 950, 951, 952, 953,
    954, 955, 956, 957, 958, 959, 960, 961, 962, 963, 964, 965, 966, 967, 968, 969, 970, 971,
    972, 973, 974, 975, 976, 977, 978, 979, 980, 981, 982, 983, 984, 985, 986, 987, 988, 989,
    990, 991, 992, 993, 994, 995, 996, 997, 998, 999, 1000, 1001,
];

/// The keys of all states.
pub const KEYS: [u8; 800] = [
    8, 4, 7, 8, 13, 5, 6, 7, 8, 13, 5, 6, 7, 8, 13, 5, 6, 13, 4, 7, 8, 13, 5, 6, 4, 7, 8, 12,
    13, 5, 6, 4, 7, 8, 13, 5, 6, 8, 7, 8, 13, 5, 6, 7, 8, 13, 5, 6, 13, 4, 7, 8, 13, 5, 6, 4, 7,
    8, 12, 13, 5, 6, 4, 7, 8, 12, 13, 5, 6, 4, 7, 8, 12, 13, 5, 6, 8, 7, 8, 13, 5, 6, 7, 8, 13,
    5, 6, 13, 4, 7, 8, 13, 5, 6, 4, 7, 8, 13, 5, 6, 4, 7, 8, 12, 13, 5, 6, 8, 7, 8, 13, 5, 6, 7,
    8, 13, 5, 6, 13, 4, 7, 8, 13, 5, 6, 4, 7, 8, 13, 5, 6, 7, 8, 13, 5, 6, 8, 1, 2, 3, 4, 5, 6,
    7, 8, 9, 12, 13, 14, 15, 16, 17, 18, 10, 11, 3, 4, 5, 6, 7, 8, 9, 12, 13, 16, 3, 4, 7, 8, 9,
    13, 16, 5, 6, 4, 7, 8, 9, 13, 16, 5, 6, 1, 5, 6, 8, 9, 15, 8, 9, 5, 6, 5, 8, 9, 9, 5, 9, 1,
    3, 8, 9, 15, 5, 6, 1, 8, 9, 15, 5, 6, 1, 5, 6, 8, 9, 15, 3, 4, 7, 8, 9, 13, 5, 6, 4, 7, 8,
    9, 13, 5, 6, 7, 8, 9, 13, 5, 6, 5, 8, 9, 13, 4, 7, 8, 9, 13, 5, 6, 5, 6, 8, 9, 3, 8, 9, 5,
    6, 5, 6, 8, 9, 3, 4, 7, 8, 9, 13, 16, 5, 6, 3, 4, 5, 6, 7, 8, 9, 12, 13, 16, 3, 4, 5, 6, 7,
    8, 9, 12, 13, 16, 3, 4, 5, 6, 7, 8, 9, 13, 16, 4, 5, 6, 7, 8, 9, 13, 16, 1, 5, 6, 8, 9, 15,
    3, 4, 5, 6, 7, 8, 9, 12, 13, 16, 3, 4, 7, 8, 9, 13, 16, 5, 6, 4, 7, 8, 9, 13, 16, 5, 6, 1,
    5, 6, 8, 9, 15, 5, 8, 9, 9, 5, 9, 1, 3, 8, 9, 15, 5, 6, 1, 8, 9, 15, 5, 6, 3, 4, 7, 8, 9,
    13, 5, 6, 4, 7, 8, 9, 13, 5, 6, 7, 8, 9, 13, 5, 6, 5, 8, 9, 13, 4, 7, 8, 9, 13, 5, 6, 5, 6,
    8, 9, 8, 9, 5, 6, 3, 8, 9, 5, 6, 5, 6, 8, 9, 3, 4, 7, 8, 9, 13, 16, 5, 6, 3, 4, 5, 6, 7, 8,
    9, 12, 13, 16, 4, 7, 8, 13, 5, 6, 3, 4, 5, 6, 7, 8, 9, 13, 16, 3, 4, 7, 8, 9, 13, 16, 5, 6,
    4, 7, 8, 9, 13, 16, 5, 6, 1, 5, 6, 8, 9, 15, 3, 4, 5, 6, 7, 8, 9, 12, 13, 16, 1, 5, 6, 8, 9,
    15, 5, 8, 9, 9, 5, 9, 1, 3, 8, 9, 15, 5, 6, 1, 8, 9, 15, 5, 6, 3, 4, 7, 8, 9, 13, 5, 6, 4,
    7, 8, 9, 13, 5, 6, 7, 8, 9, 13, 5, 6, 5, 8, 9, 13, 3, 4, 7, 8, 9, 13, 16, 5, 6, 4, 7, 8, 9,
    13, 5, 6, 5, 6, 8, 9, 8, 9, 5, 6, 3, 8, 9, 5, 6, 5, 6, 8, 9, 3, 4, 5, 6, 7, 8, 9, 12, 13,
    16, 4, 7, 8, 12, 13, 5, 6, 4, 7, 8, 13, 5, 6, 3, 4, 5, 6, 7, 8, 9, 12, 13, 16, 3, 4, 7, 8,
    9, 13, 16, 5, 6, 4, 7, 8, 9, 13, 16, 5, 6, 1, 5, 6, 8, 9, 15, 3, 4, 5, 6, 7, 8, 9, 12, 13,
    16, 1, 5, 6, 8, 9, 15, 5, 8, 9, 9, 5, 9, 1, 3, 8, 9, 15, 5, 6, 1, 8, 9, 15, 5, 6, 3, 4, 7,
    8, 9, 13, 5, 6, 4, 7, 8, 9, 13, 5, 6, 7, 8, 9, 13, 5, 6, 5, 8, 9, 13, 3, 4, 7, 8, 9, 13, 16,
    5, 6, 4, 7, 8, 9, 13, 5, 6, 5, 6, 8, 9, 8, 9, 5, 6, 3, 8, 9, 5, 6, 5, 6, 8, 9, 1, 2, 3, 4,
    5, 6, 7, 8, 9, 12, 13, 15, 16, 10, 11, 3, 4, 5, 6, 7, 8, 9, 12, 13, 16, 1, 2, 3, 4, 5, 6, 7,
    8, 9, 11, 12, 13, 15, 16, 4, 7, 8, 9, 12, 13, 5, 6, 5, 8, 9, 13, 5, 8, 9, 13, 9, 5, 9, 1, 3,
    4, 7, 8, 9, 13, 15, 5, 6, 3, 8, 9, 5, 6, 8, 9, 5, 6, 5, 8, 9, 9, 5, 9, 1, 10, 15,
];

/// For each transition, the state it leads to.
pub const TARGETS: [u16; 1001] = [
    37, 31, 42, 43, 46, 43, 2, 31, 43, 4, 43, 2, 31, 43, 46, 43, 2, 31, 43, 31, 50, 43, 46, 43,
    2, 31, 42, 43, 46, 51, 43, 2, 31, 60, 66, 69, 66, 9, 31, 61, 31, 66, 11, 66, 9, 31, 66, 69,
    66, 9, 31, 66, 31, 74, 66, 69, 66, 9, 31, 60, 66, 69, 75, 66, 9, 31, 60, 66, 69, 78, 66, 9,
    31, 83, 89, 92, 93, 89, 17, 31, 84, 31, 89, 19, 89, 17, 31, 89, 92, 89, 17, 31, 89, 31, 83,
    89, 92, 89, 17, 31, 98, 89, 92, 89, 17, 31, 107, 113, 116, 117, 113, 24, 31, 108, 31, 113,
    26, 113, 24, 31, 113, 116, 113, 24, 31, 113, 31, 107, 113, 116, 113, 24, 31, 122, 113, 116,
    113, 24, 31, 89, 127, 89, 17, 31, 134, 31, 32, 53, 79, 81, 100, 101, 89, 92, 85, 93, 89,
    123, 124, 94, 132, 137, 102, 31, 33, 35, 6, 52, 43, 46, 38, 51, 43, 47, 31, 34, 35, 43, 46,
    38, 43, 47, 1, 31, 35, 43, 46, 38, 43, 47, 1, 31, 32, 36, 40, 37, 38, 32, 31, 37, 38, 0, 31,
    38, 39, 38, 31, 38, 31, 38, 38, 31, 32, 41, 37, 38, 32, 0, 31, 32, 37, 38, 32, 0, 31, 32, 0,
    40, 37, 38, 32, 31, 44, 45, 43, 46, 38, 43, 3, 31, 45, 43, 46, 38, 43, 3, 31, 43, 46, 38,
    43, 3, 31, 38, 39, 38, 43, 31, 48, 43, 46, 38, 43, 5, 31, 36, 49, 37, 38, 31, 36, 37, 38, 0,
    31, 0, 49, 37, 38, 31, 33, 35, 43, 46, 38, 43, 47, 1, 31, 33, 35, 6, 1, 43, 46, 38, 51, 43,
    47, 31, 54, 56, 14, 77, 66, 69, 62, 78, 66, 70, 31, 55, 56, 7, 77, 66, 69, 62, 66, 70, 31,
    56, 7, 77, 66, 69, 62, 66, 70, 31, 57, 72, 64, 61, 62, 57, 31, 58, 56, 13, 76, 66, 69, 62,
    75, 66, 70, 31, 59, 56, 66, 69, 62, 66, 70, 7, 31, 56, 66, 69, 62, 66, 70, 7, 31, 57, 8, 64,
    61, 62, 57, 31, 62, 63, 62, 31, 62, 31, 62, 62, 31, 57, 65, 61, 62, 57, 8, 31, 57, 61, 62,
    57, 8, 31, 67, 68, 66, 69, 62, 66, 10, 31, 68, 66, 69, 62, 66, 10, 31, 66, 69, 62, 66, 10,
    31, 62, 63, 62, 66, 31, 71, 66, 69, 62, 66, 12, 31, 72, 73, 61, 62, 31, 61, 62, 8, 31, 72,
    61, 62, 8, 31, 8, 73, 61, 62, 31, 58, 56, 66, 69, 62, 66, 70, 7, 31, 58, 56, 13, 7, 66, 69,
    62, 75, 66, 70, 31, 60, 66, 69, 66, 9, 31, 54, 56, 7, 77, 66, 69, 62, 66, 70, 31, 80, 81,
    89, 92, 85, 89, 94, 20, 31, 81, 89, 92, 85, 89, 94, 20, 31, 82, 96, 87, 84, 85, 82, 31, 79,
    81, 15, 99, 89, 92, 85, 93, 89, 94, 31, 82, 16, 87, 84, 85, 82, 31, 85, 86, 85, 31, 85, 31,
    85, 85, 31, 82, 88, 84, 85, 82, 16, 31, 82, 84, 85, 82, 16, 31, 90, 91, 89, 92, 85, 89, 18,
    31, 91, 89, 92, 85, 89, 18, 31, 89, 92, 85, 89, 18, 31, 85, 86, 85, 89, 31, 79, 81, 89, 92,
    85, 89, 94, 20, 31, 95, 89, 92, 85, 89, 21, 31, 96, 97, 84, 85, 31, 84, 85, 16, 31, 96, 84,
    85, 16, 31, 16, 97, 84, 85, 31, 79, 81, 15, 20, 89, 92, 85, 93, 89, 94, 31, 83, 89, 92, 93,
    89, 17, 31, 83, 89, 92, 89, 17, 31, 103, 105, 22, 27, 113, 116, 109, 117, 113, 118, 31, 104,
    105, 113, 116, 109, 113, 118, 27, 31, 105, 113, 116, 109, 113, 118, 27, 31, 106, 120, 111,
    108, 109, 106, 31, 103, 105, 22, 102, 113, 116, 109, 117, 113, 118, 31, 106, 23, 111, 108,
    109, 106, 31, 109, 110, 109, 31, 109, 31, 109, 109, 31, 106, 112, 108, 109, 106, 23, 31,
    106, 108, 109, 106, 23, 31, 114, 115, 113, 116, 109, 113, 25, 31, 115, 113, 116, 109, 113,
    25, 31, 113, 116, 109, 113, 25, 31, 109, 110, 109, 113, 31, 103, 105, 113, 116, 109, 113,
    118, 27, 31, 119, 113, 116, 109, 113, 28, 31, 120, 121, 108, 109, 31, 108, 109, 23, 31, 120,
    108, 109, 23, 31, 23, 121, 108, 109, 31, 32, 53, 79, 81, 15, 20, 89, 92, 85, 93, 89, 32, 94,
    102, 31, 33, 125, 6, 52, 43, 46, 38, 51, 43, 47, 31, 32, 53, 79, 81, 126, 131, 89, 128, 129,
    102, 93, 89, 32, 94, 31, 83, 89, 128, 38, 93, 89, 29, 31, 38, 39, 38, 89, 31, 129, 130, 129,
    89, 31, 129, 31, 129, 129, 31, 32, 41, 83, 89, 128, 38, 89, 32, 29, 31, 133, 134, 135, 30,
    31, 134, 135, 30, 31, 135, 136, 135, 31, 135, 31, 135, 135, 31, 32, 102, 32, 31, 31, 31, 31,
    31, 31, 31, 31, 31, 31, 31, 31, 31, 31, 31, 31, 31, 31, 31, 31, 31, 31, 31, 31, 31, 31, 31,
    31, 31, 31, 31, 31, 31, 31, 31, 31, 31, 31, 31, 31, 31, 31, 31, 31, 31, 31, 31, 31, 31, 31,
    31, 31, 31, 31, 31, 31, 31, 31, 31, 31, 31, 31, 31, 31, 31, 31, 31, 31, 31, 31, 31, 31, 31,
    31, 31, 31, 31, 31, 31, 31, 31, 31, 31, 31, 31, 31, 31, 31, 31, 31, 31, 31, 31, 31, 31, 31,
    31, 31, 31, 31, 31, 31, 31, 31, 31, 31, 31, 31, 31, 31, 31, 31, 31, 31, 31, 31, 31, 31, 31,
    31, 31, 31, 31, 31, 31, 31, 31, 31, 31, 31, 31, 31, 31, 31, 31, 31, 31, 31, 31,
];

/// For each transition, the index of its action list.
pub const ACTIONS: [u16; 1001] = [
    0, 21, 5, 5, 0, 5, 0, 21, 5, 0, 5, 0, 21, 5, 0, 5, 0, 21, 5, 21, 5, 5, 0, 5, 0, 21, 5, 5, 0,
    5, 5, 0, 21, 5, 5, 0, 5, 0, 23, 0, 23, 5, 0, 5, 0, 23, 5, 0, 5, 0, 23, 5, 23, 5, 5, 0, 5, 0,
    23, 5, 5, 0, 5, 5, 0, 23, 5, 5, 0, 5, 5, 0, 23, 5, 36, 0, 36, 36, 0, 29, 0, 29, 36, 0, 36,
    0, 31, 36, 0, 36, 0, 29, 36, 31, 5, 36, 0, 36, 0, 29, 5, 36, 0, 36, 0, 29, 5, 5, 0, 5, 5, 0,
    25, 0, 25, 5, 0, 5, 0, 25, 5, 0, 5, 0, 25, 5, 25, 5, 5, 0, 5, 0, 25, 5, 5, 0, 5, 0, 25, 36,
    0, 36, 0, 21, 0, 27, 5, 5, 36, 0, 39, 39, 36, 0, 0, 36, 36, 36, 5, 36, 5, 0, 5, 7, 5, 0, 0,
    5, 5, 0, 0, 5, 5, 5, 9, 5, 0, 5, 0, 0, 5, 5, 0, 9, 0, 5, 0, 0, 5, 5, 0, 9, 5, 5, 5, 0, 0, 5,
    9, 0, 0, 0, 9, 0, 0, 0, 9, 0, 9, 0, 0, 9, 5, 5, 0, 0, 5, 0, 9, 5, 0, 0, 5, 0, 9, 5, 0, 5, 0,
    0, 5, 9, 5, 5, 5, 0, 0, 5, 0, 9, 5, 5, 0, 0, 5, 0, 9, 5, 0, 0, 5, 0, 9, 0, 0, 0, 5, 9, 0, 5,
    0, 0, 5, 0, 9, 5, 5, 0, 0, 9, 5, 0, 0, 0, 9, 0, 5, 0, 0, 9, 5, 0, 5, 0, 0, 5, 5, 0, 9, 5, 0,
    0, 0, 5, 0, 0, 5, 5, 5, 9, 5, 0, 0, 5, 5, 0, 0, 5, 5, 5, 11, 5, 0, 0, 5, 5, 0, 0, 5, 5, 11,
    0, 0, 5, 5, 0, 0, 5, 5, 11, 5, 5, 5, 0, 0, 5, 11, 5, 0, 0, 5, 5, 0, 0, 5, 5, 5, 11, 5, 0, 5,
    0, 0, 5, 5, 0, 11, 0, 5, 0, 0, 5, 5, 0, 11, 5, 0, 5, 0, 0, 5, 11, 0, 0, 0, 11, 0, 11, 0, 0,
    11, 5, 5, 0, 0, 5, 0, 11, 5, 0, 0, 5, 0, 11, 5, 5, 5, 0, 0, 5, 0, 11, 5, 5, 0, 0, 5, 0, 11,
    5, 0, 0, 5, 0, 11, 0, 0, 0, 5, 11, 0, 5, 0, 0, 5, 0, 11, 5, 5, 0, 0, 11, 0, 0, 0, 11, 5, 0,
    0, 0, 11, 0, 5, 0, 0, 11, 5, 0, 5, 0, 0, 5, 5, 0, 11, 5, 0, 0, 0, 5, 0, 0, 5, 5, 5, 11, 5,
    5, 0, 5, 0, 11, 5, 0, 0, 5, 5, 0, 0, 5, 5, 11, 36, 0, 36, 0, 0, 36, 36, 0, 17, 0, 36, 0, 0,
    36, 36, 0, 17, 36, 5, 5, 0, 0, 36, 17, 36, 0, 0, 36, 36, 0, 0, 36, 36, 36, 17, 36, 0, 5, 0,
    0, 36, 17, 0, 0, 0, 17, 0, 17, 0, 0, 17, 36, 5, 0, 0, 36, 0, 17, 36, 0, 0, 36, 0, 17, 36,
    36, 36, 0, 0, 36, 0, 17, 36, 36, 0, 0, 36, 0, 17, 36, 0, 0, 36, 0, 17, 0, 0, 0, 36, 17, 36,
    0, 36, 0, 0, 36, 36, 0, 17, 0, 36, 0, 0, 36, 0, 17, 5, 5, 0, 0, 17, 0, 0, 0, 17, 5, 0, 0, 0,
    17, 0, 5, 0, 0, 17, 36, 0, 0, 0, 36, 0, 0, 36, 36, 36, 17, 5, 36, 0, 36, 36, 0, 19, 5, 36,
    0, 36, 0, 19, 5, 0, 0, 0, 5, 0, 0, 5, 5, 5, 13, 5, 0, 5, 0, 0, 5, 5, 0, 13, 0, 5, 0, 0, 5,
    5, 0, 13, 5, 5, 5, 0, 0, 5, 13, 5, 0, 0, 5, 5, 0, 0, 5, 5, 5, 13, 5, 0, 5, 0, 0, 5, 13, 0,
    0, 0, 13, 0, 13, 0, 0, 13, 5, 5, 0, 0, 5, 0, 13, 5, 0, 0, 5, 0, 13, 5, 5, 5, 0, 0, 5, 0, 13,
    5, 5, 0, 0, 5, 0, 13, 5, 0, 0, 5, 0, 13, 0, 0, 0, 5, 13, 5, 0, 5, 0, 0, 5, 5, 0, 13, 0, 5,
    0, 0, 5, 0, 13, 5, 5, 0, 0, 13, 0, 0, 0, 13, 5, 0, 0, 0, 13, 0, 5, 0, 0, 13, 5, 5, 36, 0, 0,
    0, 36, 0, 0, 36, 36, 5, 36, 5, 17, 5, 0, 0, 5, 5, 0, 0, 5, 5, 5, 9, 5, 5, 36, 0, 33, 33, 36,
    0, 0, 5, 36, 36, 5, 36, 9, 5, 36, 0, 0, 36, 36, 0, 9, 0, 0, 0, 36, 9, 0, 0, 0, 36, 9, 0, 9,
    0, 0, 9, 5, 5, 5, 36, 0, 0, 36, 5, 0, 9, 5, 0, 0, 0, 15, 0, 0, 0, 15, 0, 0, 0, 15, 0, 15, 0,
    0, 15, 5, 5, 5, 19, 21, 21, 21, 21, 21, 21, 21, 23, 23, 23, 23, 23, 23, 23, 23, 29, 29, 31,
    29, 31, 29, 29, 25, 25, 25, 25, 25, 25, 25, 21, 27, 0, 9, 9, 9, 9, 9, 9, 9, 9, 9, 9, 9, 9,
    9, 9, 9, 9, 9, 9, 9, 9, 9, 11, 11, 11, 11, 11, 11, 11, 11, 11, 11, 11, 11, 11, 11, 11, 11,
    11, 11, 11, 11, 11, 11, 11, 11, 11, 11, 17, 17, 17, 17, 17, 17, 17, 17, 17, 17, 17, 17, 17,
    17, 17, 17, 17, 17, 17, 17, 17, 19, 19, 13, 13, 13, 13, 13, 13, 13, 13, 13, 13, 13, 13, 13,
    13, 13, 13, 13, 13, 13, 13, 13, 17, 9, 9, 9, 9, 9, 9, 9, 9, 15, 15, 15, 15, 15, 19,
];

/// The rules of the Indic syllable machine.
pub closed spec fn indic_rules() -> BinaryRules {
    BinaryRules {
        graph: GraphModel {
            start: START,
            first_final: START,
            anchor: ANCHOR@,
            end_transitions: END_TRANSITIONS@,
            targets: TARGETS@,
            actions: ACTIONS@,
            programs: programs(),
        },
        key_offsets: KEY_OFFSETS@,
        single_lengths: SINGLE_LENGTHS@,
        range_lengths: RANGE_LENGTHS@,
        index_offsets: INDEX_OFFSETS@,
        keys: KEYS@,
    }
}

/// Loads the table of the Indic syllable machine.
pub fn indic_table() -> (table: BinaryTable)
    ensures
        table@ == indic_rules(),
{
    BinaryTable {
        graph: Graph {
            start: START,
            first_final: START,
            anchor: vec_of(&ANCHOR),
            end_transitions: vec_of(&END_TRANSITIONS),
            targets: vec_of(&TARGETS),
            actions: vec_of(&ACTIONS),
            programs: load_programs(),
        },
        key_offsets: vec_of(&KEY_OFFSETS),
        single_lengths: vec_of(&SINGLE_LENGTHS),
        range_lengths: vec_of(&RANGE_LENGTHS),
        index_offsets: vec_of(&INDEX_OFFSETS),
        keys: vec_of(&KEYS),
    }
}

} // verus!
