//! Static tables of the codec: the syllable table and the double-array
//! trie built over it.
//!
//! The trie is stored as two equal-length arrays of 32-bit entries, `base`
//! and `check`.  The most significant bit of each entry is a flag: in the
//! base array it marks a leaf whose low bits carry the syllable's byte
//! value, in the check array it marks a node that also carries a value in
//! a leaf slot reachable from it.  The low bits of a check entry name the
//! parent of the node, which is what validates a transition.  Entries that
//! belong to no node hold 0 in the base array and a sentinel parent id in
//! the check array, so every transition into them is rejected.  The
//! lookups are written as balanced comparison trees over the index, split
//! into parts so that a lookup only ever unfolds one small tree.

use vstd::prelude::*;

verus! {

/// Length of the trie's base and check arrays.
pub const TRIE_LEN: usize = 3936;

/// Parent id that no node has; check entries of unused slots hold it.
pub const NO_PARENT: u32 = 2147483647;

pub open spec fn spec_base_part_0(i: int) -> u32 {
    if i < 26 {
        if i < 13 {
            if i < 7 {
                if i < 4 { if i < 2 { if i == 1 { 2147483648u32 } else { 0u32 } } else { if i < 3 { if i == 2 { 32u32 } else { 0u32 } } else { if i == 3 { 64u32 } else { 0u32 } } } } else { if i < 5 { if i == 4 { 96u32 } else { 0u32 } } else { if i < 6 { if i == 5 { 2147483649u32 } else { 0u32 } } else { if i == 6 { 128u32 } else { 0u32 } } } }
            } else {
                if i < 10 { if i < 8 { if i == 7 { 160u32 } else { 0u32 } } else { if i < 9 { if i == 8 { 192u32 } else { 0u32 } } else { if i == 9 { 2147483650u32 } else { 0u32 } } } } else { if i < 11 { if i == 10 { 224u32 } else { 0u32 } } else { if i < 12 { if i == 11 { 256u32 } else { 0u32 } } else { if i == 12 { 288u32 } else { 0u32 } } } }
            }
        } else {
            if i < 20 {
                if i < 16 { if i < 14 { if i == 13 { 320u32 } else { 0u32 } } else { if i < 15 { if i == 14 { 352u32 } else { 0u32 } } else { if i == 15 { 2147483651u32 } else { 0u32 } } } } else { if i < 18 { if i == 16 { 384u32 } else { 0u32 } } else { if i < 19 { if i == 18 { 416u32 } else { 0u32 } } else { if i == 19 { 448u32 } else { 0u32 } } } }
            } else {
                if i < 23 { if i < 21 { if i == 20 { 480u32 } else { 0u32 } } else { if i < 22 { if i == 21 { 2147483652u32 } else { 0u32 } } else { if i == 22 { 512u32 } else { 0u32 } } } } else { if i < 24 { if i == 23 { 544u32 } else { 0u32 } } else { if i < 25 { if i == 24 { 576u32 } else { 0u32 } } else { if i == 25 { 608u32 } else { 0u32 } } } }
            }
        }
    } else {
        if i < 101 {
            if i < 65 {
                if i < 41 { if i < 33 { if i == 26 { 640u32 } else { 0u32 } } else { if i < 37 { if i == 33 { 672u32 } else { 0u32 } } else { if i == 37 { 704u32 } else { 0u32 } } } } else { if i < 47 { if i == 41 { 736u32 } else { 0u32 } } else { if i < 53 { if i == 47 { 768u32 } else { 0u32 } } else { if i == 53 { 800u32 } else { 0u32 } } } }
            } else {
                if i < 79 { if i < 69 { if i == 65 { 832u32 } else { 0u32 } } else { if i < 73 { if i == 69 { 864u32 } else { 0u32 } } else { if i == 73 { 896u32 } else { 0u32 } } } } else { if i < 85 { if i == 79 { 928u32 } else { 0u32 } } else { if i < 97 { if i == 85 { 960u32 } else { 0u32 } } else { if i == 97 { 992u32 } else { 0u32 } } } }
            }
        } else {
            if i < 137 {
                if i < 117 { if i < 105 { if i == 101 { 1024u32 } else { 0u32 } } else { if i < 111 { if i == 105 { 1056u32 } else { 0u32 } } else { if i == 111 { 1088u32 } else { 0u32 } } } } else { if i < 129 { if i == 117 { 1120u32 } else { 0u32 } } else { if i < 133 { if i == 129 { 1152u32 } else { 0u32 } } else { if i == 133 { 1184u32 } else { 0u32 } } } }
            } else {
                if i < 161 { if i < 143 { if i == 137 { 1216u32 } else { 0u32 } } else { if i < 149 { if i == 143 { 1248u32 } else { 0u32 } } else { if i == 149 { 1280u32 } else { 0u32 } } } } else { if i < 165 { if i == 161 { 1312u32 } else { 0u32 } } else { if i < 169 { if i == 165 { 1344u32 } else { 0u32 } } else { if i == 169 { 1376u32 } else { 0u32 } } } }
            }
        }
    }
}

pub open spec fn spec_base_part_1(i: int) -> u32 {
    if i < 329 {
        if i < 257 {
            if i < 213 {
                if i < 197 { if i < 181 { if i == 175 { 1408u32 } else { 0u32 } } else { if i < 193 { if i == 181 { 1440u32 } else { 0u32 } } else { if i == 193 { 1472u32 } else { 0u32 } } } } else { if i < 201 { if i == 197 { 1504u32 } else { 0u32 } } else { if i < 207 { if i == 201 { 1536u32 } else { 0u32 } } else { if i == 207 { 1568u32 } else { 0u32 } } } }
            } else {
                if i < 233 { if i < 225 { if i == 213 { 1600u32 } else { 0u32 } } else { if i < 229 { if i == 225 { 1632u32 } else { 0u32 } } else { if i == 229 { 1664u32 } else { 0u32 } } } } else { if i < 239 { if i == 233 { 1696u32 } else { 0u32 } } else { if i < 245 { if i == 239 { 1728u32 } else { 0u32 } } else { if i == 245 { 1760u32 } else { 0u32 } } } }
            }
        } else {
            if i < 293 {
                if i < 271 { if i < 261 { if i == 257 { 1792u32 } else { 0u32 } } else { if i < 265 { if i == 261 { 1824u32 } else { 0u32 } } else { if i == 265 { 1856u32 } else { 0u32 } } } } else { if i < 277 { if i == 271 { 1888u32 } else { 0u32 } } else { if i < 289 { if i == 277 { 1920u32 } else { 0u32 } } else { if i == 289 { 1952u32 } else { 0u32 } } } }
            } else {
                if i < 309 { if i < 297 { if i == 293 { 1984u32 } else { 0u32 } } else { if i < 303 { if i == 297 { 2016u32 } else { 0u32 } } else { if i == 303 { 2048u32 } else { 0u32 } } } } else { if i < 321 { if i == 309 { 2080u32 } else { 0u32 } } else { if i < 325 { if i == 321 { 2112u32 } else { 0u32 } } else { if i == 325 { 2144u32 } else { 0u32 } } } }
            }
        }
    } else {
        if i < 405 {
            if i < 367 {
                if i < 353 { if i < 335 { if i == 329 { 2176u32 } else { 0u32 } } else { if i < 341 { if i == 335 { 2208u32 } else { 0u32 } } else { if i == 341 { 2240u32 } else { 0u32 } } } } else { if i < 357 { if i == 353 { 2272u32 } else { 0u32 } } else { if i < 361 { if i == 357 { 2304u32 } else { 0u32 } } else { if i == 361 { 2336u32 } else { 0u32 } } } }
            } else {
                if i < 389 { if i < 373 { if i == 367 { 2368u32 } else { 0u32 } } else { if i < 385 { if i == 373 { 2400u32 } else { 0u32 } } else { if i == 385 { 2432u32 } else { 0u32 } } } } else { if i < 393 { if i == 389 { 2464u32 } else { 0u32 } } else { if i < 399 { if i == 393 { 2496u32 } else { 0u32 } } else { if i == 399 { 2528u32 } else { 0u32 } } } }
            }
        } else {
            if i < 449 {
                if i < 425 { if i < 417 { if i == 405 { 2560u32 } else { 0u32 } } else { if i < 421 { if i == 417 { 2592u32 } else { 0u32 } } else { if i == 421 { 2624u32 } else { 0u32 } } } } else { if i < 431 { if i == 425 { 2656u32 } else { 0u32 } } else { if i < 437 { if i == 431 { 2688u32 } else { 0u32 } } else { if i == 437 { 2720u32 } else { 0u32 } } } }
            } else {
                if i < 463 { if i < 453 { if i == 449 { 2752u32 } else { 0u32 } } else { if i < 457 { if i == 453 { 2784u32 } else { 0u32 } } else { if i == 457 { 2816u32 } else { 0u32 } } } } else { if i < 469 { if i == 463 { 2848u32 } else { 0u32 } } else { if i < 481 { if i == 469 { 2880u32 } else { 0u32 } } else { if i == 481 { 2912u32 } else { 0u32 } } } }
            }
        }
    }
}

pub open spec fn spec_base_part_2(i: int) -> u32 {
    if i < 641 {
        if i < 559 {
            if i < 521 {
                if i < 501 { if i < 489 { if i == 485 { 2944u32 } else { 0u32 } } else { if i < 495 { if i == 489 { 2976u32 } else { 0u32 } } else { if i == 495 { 3008u32 } else { 0u32 } } } } else { if i < 513 { if i == 501 { 3040u32 } else { 0u32 } } else { if i < 517 { if i == 513 { 3072u32 } else { 0u32 } } else { if i == 517 { 3104u32 } else { 0u32 } } } }
            } else {
                if i < 545 { if i < 527 { if i == 521 { 3136u32 } else { 0u32 } } else { if i < 533 { if i == 527 { 3168u32 } else { 0u32 } } else { if i == 533 { 3200u32 } else { 0u32 } } } } else { if i < 549 { if i == 545 { 3232u32 } else { 0u32 } } else { if i < 553 { if i == 549 { 3264u32 } else { 0u32 } } else { if i == 553 { 3296u32 } else { 0u32 } } } }
            }
        } else {
            if i < 597 {
                if i < 581 { if i < 565 { if i == 559 { 3328u32 } else { 0u32 } } else { if i < 577 { if i == 565 { 3360u32 } else { 0u32 } } else { if i == 577 { 3392u32 } else { 0u32 } } } } else { if i < 585 { if i == 581 { 3424u32 } else { 0u32 } } else { if i < 591 { if i == 585 { 3456u32 } else { 0u32 } } else { if i == 591 { 3488u32 } else { 0u32 } } } }
            } else {
                if i < 617 { if i < 609 { if i == 597 { 3520u32 } else { 0u32 } } else { if i < 613 { if i == 609 { 3552u32 } else { 0u32 } } else { if i == 613 { 3584u32 } else { 0u32 } } } } else { if i < 623 { if i == 617 { 3616u32 } else { 0u32 } } else { if i < 629 { if i == 623 { 3648u32 } else { 0u32 } } else { if i == 629 { 3680u32 } else { 0u32 } } } }
            }
        }
    } else {
        if i < 750 {
            if i < 686 {
                if i < 655 { if i < 645 { if i == 641 { 3712u32 } else { 0u32 } } else { if i < 649 { if i == 645 { 3744u32 } else { 0u32 } } else { if i == 649 { 3776u32 } else { 0u32 } } } } else { if i < 661 { if i == 655 { 3808u32 } else { 0u32 } } else { if i < 672 { if i == 661 { 3840u32 } else { 0u32 } } else { if i == 672 { 2147483653u32 } else { 0u32 } } } }
            } else {
                if i < 718 { if i < 691 { if i == 686 { 2147483753u32 } else { 0u32 } } else { if i < 704 { if i == 691 { 2147483853u32 } else { 0u32 } } else { if i == 704 { 2147483654u32 } else { 0u32 } } } } else { if i < 723 { if i == 718 { 2147483754u32 } else { 0u32 } } else { if i < 736 { if i == 723 { 2147483854u32 } else { 0u32 } } else { if i == 736 { 2147483655u32 } else { 0u32 } } } }
            }
        } else {
            if i < 814 {
                if i < 782 { if i < 755 { if i == 750 { 2147483755u32 } else { 0u32 } } else { if i < 768 { if i == 755 { 2147483855u32 } else { 0u32 } } else { if i == 768 { 2147483656u32 } else { 0u32 } } } } else { if i < 787 { if i == 782 { 2147483756u32 } else { 0u32 } } else { if i < 800 { if i == 787 { 2147483856u32 } else { 0u32 } } else { if i == 800 { 2147483657u32 } else { 0u32 } } } }
            } else {
                if i < 846 { if i < 819 { if i == 814 { 2147483757u32 } else { 0u32 } } else { if i < 832 { if i == 819 { 2147483857u32 } else { 0u32 } } else { if i == 832 { 2147483658u32 } else { 0u32 } } } } else { if i < 851 { if i == 846 { 2147483758u32 } else { 0u32 } } else { if i < 864 { if i == 851 { 2147483858u32 } else { 0u32 } } else { if i == 864 { 2147483659u32 } else { 0u32 } } } }
            }
        }
    }
}

pub open spec fn spec_base_part_3(i: int) -> u32 {
    if i < 1134 {
        if i < 1006 {
            if i < 942 {
                if i < 910 { if i < 883 { if i == 878 { 2147483759u32 } else { 0u32 } } else { if i < 896 { if i == 883 { 2147483859u32 } else { 0u32 } } else { if i == 896 { 2147483660u32 } else { 0u32 } } } } else { if i < 915 { if i == 910 { 2147483760u32 } else { 0u32 } } else { if i < 928 { if i == 915 { 2147483860u32 } else { 0u32 } } else { if i == 928 { 2147483661u32 } else { 0u32 } } } }
            } else {
                if i < 974 { if i < 947 { if i == 942 { 2147483761u32 } else { 0u32 } } else { if i < 960 { if i == 947 { 2147483861u32 } else { 0u32 } } else { if i == 960 { 2147483662u32 } else { 0u32 } } } } else { if i < 979 { if i == 974 { 2147483762u32 } else { 0u32 } } else { if i < 992 { if i == 979 { 2147483862u32 } else { 0u32 } } else { if i == 992 { 2147483663u32 } else { 0u32 } } } }
            }
        } else {
            if i < 1070 {
                if i < 1038 { if i < 1011 { if i == 1006 { 2147483763u32 } else { 0u32 } } else { if i < 1024 { if i == 1011 { 2147483863u32 } else { 0u32 } } else { if i == 1024 { 2147483664u32 } else { 0u32 } } } } else { if i < 1043 { if i == 1038 { 2147483764u32 } else { 0u32 } } else { if i < 1056 { if i == 1043 { 2147483864u32 } else { 0u32 } } else { if i == 1056 { 2147483665u32 } else { 0u32 } } } }
            } else {
                if i < 1102 { if i < 1075 { if i == 1070 { 2147483765u32 } else { 0u32 } } else { if i < 1088 { if i == 1075 { 2147483865u32 } else { 0u32 } } else { if i == 1088 { 2147483666u32 } else { 0u32 } } } } else { if i < 1107 { if i == 1102 { 2147483766u32 } else { 0u32 } } else { if i < 1120 { if i == 1107 { 2147483866u32 } else { 0u32 } } else { if i == 1120 { 2147483667u32 } else { 0u32 } } } }
            }
        }
    } else {
        if i < 1262 {
            if i < 1198 {
                if i < 1166 { if i < 1139 { if i == 1134 { 2147483767u32 } else { 0u32 } } else { if i < 1152 { if i == 1139 { 2147483867u32 } else { 0u32 } } else { if i == 1152 { 2147483668u32 } else { 0u32 } } } } else { if i < 1171 { if i == 1166 { 2147483768u32 } else { 0u32 } } else { if i < 1184 { if i == 1171 { 2147483868u32 } else { 0u32 } } else { if i == 1184 { 2147483669u32 } else { 0u32 } } } }
            } else {
                if i < 1230 { if i < 1203 { if i == 1198 { 2147483769u32 } else { 0u32 } } else { if i < 1216 { if i == 1203 { 2147483869u32 } else { 0u32 } } else { if i == 1216 { 2147483670u32 } else { 0u32 } } } } else { if i < 1235 { if i == 1230 { 2147483770u32 } else { 0u32 } } else { if i < 1248 { if i == 1235 { 2147483870u32 } else { 0u32 } } else { if i == 1248 { 2147483671u32 } else { 0u32 } } } }
            }
        } else {
            if i < 1326 {
                if i < 1294 { if i < 1267 { if i == 1262 { 2147483771u32 } else { 0u32 } } else { if i < 1280 { if i == 1267 { 2147483871u32 } else { 0u32 } } else { if i == 1280 { 2147483672u32 } else { 0u32 } } } } else { if i < 1299 { if i == 1294 { 2147483772u32 } else { 0u32 } } else { if i < 1312 { if i == 1299 { 2147483872u32 } else { 0u32 } } else { if i == 1312 { 2147483673u32 } else { 0u32 } } } }
            } else {
                if i < 1358 { if i < 1331 { if i == 1326 { 2147483773u32 } else { 0u32 } } else { if i < 1344 { if i == 1331 { 2147483873u32 } else { 0u32 } } else { if i == 1344 { 2147483674u32 } else { 0u32 } } } } else { if i < 1363 { if i == 1358 { 2147483774u32 } else { 0u32 } } else { if i < 1376 { if i == 1363 { 2147483874u32 } else { 0u32 } } else { if i == 1376 { 2147483675u32 } else { 0u32 } } } }
            }
        }
    }
}

pub open spec fn spec_base_part_4(i: int) -> u32 {
    if i < 1646 {
        if i < 1518 {
            if i < 1454 {
                if i < 1422 { if i < 1395 { if i == 1390 { 2147483775u32 } else { 0u32 } } else { if i < 1408 { if i == 1395 { 2147483875u32 } else { 0u32 } } else { if i == 1408 { 2147483676u32 } else { 0u32 } } } } else { if i < 1427 { if i == 1422 { 2147483776u32 } else { 0u32 } } else { if i < 1440 { if i == 1427 { 2147483876u32 } else { 0u32 } } else { if i == 1440 { 2147483677u32 } else { 0u32 } } } }
            } else {
                if i < 1486 { if i < 1459 { if i == 1454 { 2147483777u32 } else { 0u32 } } else { if i < 1472 { if i == 1459 { 2147483877u32 } else { 0u32 } } else { if i == 1472 { 2147483678u32 } else { 0u32 } } } } else { if i < 1491 { if i == 1486 { 2147483778u32 } else { 0u32 } } else { if i < 1504 { if i == 1491 { 2147483878u32 } else { 0u32 } } else { if i == 1504 { 2147483679u32 } else { 0u32 } } } }
            }
        } else {
            if i < 1582 {
                if i < 1550 { if i < 1523 { if i == 1518 { 2147483779u32 } else { 0u32 } } else { if i < 1536 { if i == 1523 { 2147483879u32 } else { 0u32 } } else { if i == 1536 { 2147483680u32 } else { 0u32 } } } } else { if i < 1555 { if i == 1550 { 2147483780u32 } else { 0u32 } } else { if i < 1568 { if i == 1555 { 2147483880u32 } else { 0u32 } } else { if i == 1568 { 2147483681u32 } else { 0u32 } } } }
            } else {
                if i < 1614 { if i < 1587 { if i == 1582 { 2147483781u32 } else { 0u32 } } else { if i < 1600 { if i == 1587 { 2147483881u32 } else { 0u32 } } else { if i == 1600 { 2147483682u32 } else { 0u32 } } } } else { if i < 1619 { if i == 1614 { 2147483782u32 } else { 0u32 } } else { if i < 1632 { if i == 1619 { 2147483882u32 } else { 0u32 } } else { if i == 1632 { 2147483683u32 } else { 0u32 } } } }
            }
        }
    } else {
        if i < 1774 {
            if i < 1710 {
                if i < 1678 { if i < 1651 { if i == 1646 { 2147483783u32 } else { 0u32 } } else { if i < 1664 { if i == 1651 { 2147483883u32 } else { 0u32 } } else { if i == 1664 { 2147483684u32 } else { 0u32 } } } } else { if i < 1683 { if i == 1678 { 2147483784u32 } else { 0u32 } } else { if i < 1696 { if i == 1683 { 2147483884u32 } else { 0u32 } } else { if i == 1696 { 2147483685u32 } else { 0u32 } } } }
            } else {
                if i < 1742 { if i < 1715 { if i == 1710 { 2147483785u32 } else { 0u32 } } else { if i < 1728 { if i == 1715 { 2147483885u32 } else { 0u32 } } else { if i == 1728 { 2147483686u32 } else { 0u32 } } } } else { if i < 1747 { if i == 1742 { 2147483786u32 } else { 0u32 } } else { if i < 1760 { if i == 1747 { 2147483886u32 } else { 0u32 } } else { if i == 1760 { 2147483687u32 } else { 0u32 } } } }
            }
        } else {
            if i < 1838 {
                if i < 1806 { if i < 1779 { if i == 1774 { 2147483787u32 } else { 0u32 } } else { if i < 1792 { if i == 1779 { 2147483887u32 } else { 0u32 } } else { if i == 1792 { 2147483688u32 } else { 0u32 } } } } else { if i < 1811 { if i == 1806 { 2147483788u32 } else { 0u32 } } else { if i < 1824 { if i == 1811 { 2147483888u32 } else { 0u32 } } else { if i == 1824 { 2147483689u32 } else { 0u32 } } } }
            } else {
                if i < 1870 { if i < 1843 { if i == 1838 { 2147483789u32 } else { 0u32 } } else { if i < 1856 { if i == 1843 { 2147483889u32 } else { 0u32 } } else { if i == 1856 { 2147483690u32 } else { 0u32 } } } } else { if i < 1875 { if i == 1870 { 2147483790u32 } else { 0u32 } } else { if i < 1888 { if i == 1875 { 2147483890u32 } else { 0u32 } } else { if i == 1888 { 2147483691u32 } else { 0u32 } } } }
            }
        }
    }
}

pub open spec fn spec_base_part_5(i: int) -> u32 {
    if i < 2158 {
        if i < 2030 {
            if i < 1966 {
                if i < 1934 { if i < 1907 { if i == 1902 { 2147483791u32 } else { 0u32 } } else { if i < 1920 { if i == 1907 { 2147483891u32 } else { 0u32 } } else { if i == 1920 { 2147483692u32 } else { 0u32 } } } } else { if i < 1939 { if i == 1934 { 2147483792u32 } else { 0u32 } } else { if i < 1952 { if i == 1939 { 2147483892u32 } else { 0u32 } } else { if i == 1952 { 2147483693u32 } else { 0u32 } } } }
            } else {
                if i < 1998 { if i < 1971 { if i == 1966 { 2147483793u32 } else { 0u32 } } else { if i < 1984 { if i == 1971 { 2147483893u32 } else { 0u32 } } else { if i == 1984 { 2147483694u32 } else { 0u32 } } } } else { if i < 2003 { if i == 1998 { 2147483794u32 } else { 0u32 } } else { if i < 2016 { if i == 2003 { 2147483894u32 } else { 0u32 } } else { if i == 2016 { 2147483695u32 } else { 0u32 } } } }
            }
        } else {
            if i < 2094 {
                if i < 2062 { if i < 2035 { if i == 2030 { 2147483795u32 } else { 0u32 } } else { if i < 2048 { if i == 2035 { 2147483895u32 } else { 0u32 } } else { if i == 2048 { 2147483696u32 } else { 0u32 } } } } else { if i < 2067 { if i == 2062 { 2147483796u32 } else { 0u32 } } else { if i < 2080 { if i == 2067 { 2147483896u32 } else { 0u32 } } else { if i == 2080 { 2147483697u32 } else { 0u32 } } } }
            } else {
                if i < 2126 { if i < 2099 { if i == 2094 { 2147483797u32 } else { 0u32 } } else { if i < 2112 { if i == 2099 { 2147483897u32 } else { 0u32 } } else { if i == 2112 { 2147483698u32 } else { 0u32 } } } } else { if i < 2131 { if i == 2126 { 2147483798u32 } else { 0u32 } } else { if i < 2144 { if i == 2131 { 2147483898u32 } else { 0u32 } } else { if i == 2144 { 2147483699u32 } else { 0u32 } } } }
            }
        }
    } else {
        if i < 2304 {
            if i < 2222 {
                if i < 2190 { if i < 2163 { if i == 2158 { 2147483799u32 } else { 0u32 } } else { if i < 2176 { if i == 2163 { 2147483899u32 } else { 0u32 } } else { if i == 2176 { 2147483700u32 } else { 0u32 } } } } else { if i < 2195 { if i == 2190 { 2147483800u32 } else { 0u32 } } else { if i < 2208 { if i == 2195 { 2147483900u32 } else { 0u32 } } else { if i == 2208 { 2147483701u32 } else { 0u32 } } } }
            } else {
                if i < 2254 { if i < 2227 { if i == 2222 { 2147483801u32 } else { 0u32 } } else { if i < 2240 { if i == 2227 { 2147483901u32 } else { 0u32 } } else { if i == 2240 { 2147483702u32 } else { 0u32 } } } } else { if i < 2272 { if i == 2254 { 2147483802u32 } else { 0u32 } } else { if i < 2286 { if i == 2272 { 2147483703u32 } else { 0u32 } } else { if i == 2286 { 2147483803u32 } else { 0u32 } } } }
            }
        } else {
            if i < 2400 {
                if i < 2350 { if i < 2318 { if i == 2304 { 2147483704u32 } else { 0u32 } } else { if i < 2336 { if i == 2318 { 2147483804u32 } else { 0u32 } } else { if i == 2336 { 2147483705u32 } else { 0u32 } } } } else { if i < 2368 { if i == 2350 { 2147483805u32 } else { 0u32 } } else { if i < 2382 { if i == 2368 { 2147483706u32 } else { 0u32 } } else { if i == 2382 { 2147483806u32 } else { 0u32 } } } }
            } else {
                if i < 2446 { if i < 2414 { if i == 2400 { 2147483707u32 } else { 0u32 } } else { if i < 2432 { if i == 2414 { 2147483807u32 } else { 0u32 } } else { if i == 2432 { 2147483708u32 } else { 0u32 } } } } else { if i < 2464 { if i == 2446 { 2147483808u32 } else { 0u32 } } else { if i < 2478 { if i == 2464 { 2147483709u32 } else { 0u32 } } else { if i == 2478 { 2147483809u32 } else { 0u32 } } } }
            }
        }
    }
}

pub open spec fn spec_base_part_6(i: int) -> u32 {
    if i < 2862 {
        if i < 2688 {
            if i < 2592 {
                if i < 2542 { if i < 2510 { if i == 2496 { 2147483710u32 } else { 0u32 } } else { if i < 2528 { if i == 2510 { 2147483810u32 } else { 0u32 } } else { if i == 2528 { 2147483711u32 } else { 0u32 } } } } else { if i < 2560 { if i == 2542 { 2147483811u32 } else { 0u32 } } else { if i < 2574 { if i == 2560 { 2147483712u32 } else { 0u32 } } else { if i == 2574 { 2147483812u32 } else { 0u32 } } } }
            } else {
                if i < 2638 { if i < 2606 { if i == 2592 { 2147483713u32 } else { 0u32 } } else { if i < 2624 { if i == 2606 { 2147483813u32 } else { 0u32 } } else { if i == 2624 { 2147483714u32 } else { 0u32 } } } } else { if i < 2656 { if i == 2638 { 2147483814u32 } else { 0u32 } } else { if i < 2670 { if i == 2656 { 2147483715u32 } else { 0u32 } } else { if i == 2670 { 2147483815u32 } else { 0u32 } } } }
            }
        } else {
            if i < 2784 {
                if i < 2734 { if i < 2702 { if i == 2688 { 2147483716u32 } else { 0u32 } } else { if i < 2720 { if i == 2702 { 2147483816u32 } else { 0u32 } } else { if i == 2720 { 2147483717u32 } else { 0u32 } } } } else { if i < 2752 { if i == 2734 { 2147483817u32 } else { 0u32 } } else { if i < 2766 { if i == 2752 { 2147483718u32 } else { 0u32 } } else { if i == 2766 { 2147483818u32 } else { 0u32 } } } }
            } else {
                if i < 2830 { if i < 2798 { if i == 2784 { 2147483719u32 } else { 0u32 } } else { if i < 2816 { if i == 2798 { 2147483819u32 } else { 0u32 } } else { if i == 2816 { 2147483720u32 } else { 0u32 } } } } else { if i < 2838 { if i == 2830 { 2147483820u32 } else { 0u32 } } else { if i < 2848 { if i == 2838 { 3872u32 } else { 0u32 } } else { if i == 2848 { 2147483721u32 } else { 0u32 } } } }
            }
        }
    } else {
        if i < 3040 {
            if i < 2958 {
                if i < 2912 { if i < 2880 { if i == 2862 { 2147483821u32 } else { 0u32 } } else { if i < 2894 { if i == 2880 { 2147483722u32 } else { 0u32 } } else { if i == 2894 { 2147483822u32 } else { 0u32 } } } } else { if i < 2926 { if i == 2912 { 2147483723u32 } else { 0u32 } } else { if i < 2944 { if i == 2926 { 2147483823u32 } else { 0u32 } } else { if i == 2944 { 2147483724u32 } else { 0u32 } } } }
            } else {
                if i < 2998 { if i < 2976 { if i == 2958 { 2147483824u32 } else { 0u32 } } else { if i < 2990 { if i == 2976 { 2147483725u32 } else { 0u32 } } else { if i == 2990 { 2147483825u32 } else { 0u32 } } } } else { if i < 3008 { if i == 2998 { 3904u32 } else { 0u32 } } else { if i < 3022 { if i == 3008 { 2147483726u32 } else { 0u32 } } else { if i == 3022 { 2147483826u32 } else { 0u32 } } } }
            }
        } else {
            if i < 3136 {
                if i < 3086 { if i < 3054 { if i == 3040 { 2147483727u32 } else { 0u32 } } else { if i < 3072 { if i == 3054 { 2147483827u32 } else { 0u32 } } else { if i == 3072 { 2147483728u32 } else { 0u32 } } } } else { if i < 3104 { if i == 3086 { 2147483828u32 } else { 0u32 } } else { if i < 3118 { if i == 3104 { 2147483729u32 } else { 0u32 } } else { if i == 3118 { 2147483829u32 } else { 0u32 } } } }
            } else {
                if i < 3182 { if i < 3150 { if i == 3136 { 2147483730u32 } else { 0u32 } } else { if i < 3168 { if i == 3150 { 2147483830u32 } else { 0u32 } } else { if i == 3168 { 2147483731u32 } else { 0u32 } } } } else { if i < 3200 { if i == 3182 { 2147483831u32 } else { 0u32 } } else { if i < 3214 { if i == 3200 { 2147483732u32 } else { 0u32 } } else { if i == 3214 { 2147483832u32 } else { 0u32 } } } }
            }
        }
    }
}

pub open spec fn spec_base_part_7(i: int) -> u32 {
    if i < 3566 {
        if i < 3392 {
            if i < 3310 {
                if i < 3264 { if i < 3246 { if i == 3232 { 2147483733u32 } else { 0u32 } } else { if i == 3246 { 2147483833u32 } else { 0u32 } } } else { if i < 3278 { if i == 3264 { 2147483734u32 } else { 0u32 } } else { if i < 3296 { if i == 3278 { 2147483834u32 } else { 0u32 } } else { if i == 3296 { 2147483735u32 } else { 0u32 } } } }
            } else {
                if i < 3342 { if i < 3328 { if i == 3310 { 2147483835u32 } else { 0u32 } } else { if i == 3328 { 2147483736u32 } else { 0u32 } } } else { if i < 3360 { if i == 3342 { 2147483836u32 } else { 0u32 } } else { if i < 3374 { if i == 3360 { 2147483737u32 } else { 0u32 } } else { if i == 3374 { 2147483837u32 } else { 0u32 } } } }
            }
        } else {
            if i < 3470 {
                if i < 3424 { if i < 3406 { if i == 3392 { 2147483738u32 } else { 0u32 } } else { if i == 3406 { 2147483838u32 } else { 0u32 } } } else { if i < 3438 { if i == 3424 { 2147483739u32 } else { 0u32 } } else { if i < 3456 { if i == 3438 { 2147483839u32 } else { 0u32 } } else { if i == 3456 { 2147483740u32 } else { 0u32 } } } }
            } else {
                if i < 3520 { if i < 3488 { if i == 3470 { 2147483840u32 } else { 0u32 } } else { if i < 3502 { if i == 3488 { 2147483741u32 } else { 0u32 } } else { if i == 3502 { 2147483841u32 } else { 0u32 } } } } else { if i < 3534 { if i == 3520 { 2147483742u32 } else { 0u32 } } else { if i < 3552 { if i == 3534 { 2147483842u32 } else { 0u32 } } else { if i == 3552 { 2147483743u32 } else { 0u32 } } } }
            }
        }
    } else {
        if i < 3726 {
            if i < 3648 {
                if i < 3598 { if i < 3584 { if i == 3566 { 2147483843u32 } else { 0u32 } } else { if i == 3584 { 2147483744u32 } else { 0u32 } } } else { if i < 3616 { if i == 3598 { 2147483844u32 } else { 0u32 } } else { if i < 3630 { if i == 3616 { 2147483745u32 } else { 0u32 } } else { if i == 3630 { 2147483845u32 } else { 0u32 } } } }
            } else {
                if i < 3680 { if i < 3662 { if i == 3648 { 2147483746u32 } else { 0u32 } } else { if i == 3662 { 2147483846u32 } else { 0u32 } } } else { if i < 3694 { if i == 3680 { 2147483747u32 } else { 0u32 } } else { if i < 3712 { if i == 3694 { 2147483847u32 } else { 0u32 } } else { if i == 3712 { 2147483748u32 } else { 0u32 } } } }
            }
        } else {
            if i < 3808 {
                if i < 3758 { if i < 3744 { if i == 3726 { 2147483848u32 } else { 0u32 } } else { if i == 3744 { 2147483749u32 } else { 0u32 } } } else { if i < 3776 { if i == 3758 { 2147483849u32 } else { 0u32 } } else { if i < 3790 { if i == 3776 { 2147483750u32 } else { 0u32 } } else { if i == 3790 { 2147483850u32 } else { 0u32 } } } }
            } else {
                if i < 3854 { if i < 3822 { if i == 3808 { 2147483751u32 } else { 0u32 } } else { if i < 3840 { if i == 3822 { 2147483851u32 } else { 0u32 } } else { if i == 3840 { 2147483752u32 } else { 0u32 } } } } else { if i < 3877 { if i == 3854 { 2147483852u32 } else { 0u32 } } else { if i < 3909 { if i == 3877 { 2147483902u32 } else { 0u32 } } else { if i == 3909 { 2147483903u32 } else { 0u32 } } } }
            }
        }
    }
}

/// Entry of the trie's base array at a given index; 0 outside the table.
pub open spec fn spec_base(i: int) -> u32 {
    if i < 175 {
        spec_base_part_0(i)
    } else if i < 485 {
        spec_base_part_1(i)
    } else if i < 878 {
        spec_base_part_2(i)
    } else if i < 1390 {
        spec_base_part_3(i)
    } else if i < 1902 {
        spec_base_part_4(i)
    } else if i < 2496 {
        spec_base_part_5(i)
    } else if i < 3232 {
        spec_base_part_6(i)
    } else {
        spec_base_part_7(i)
    }
}

/// Reads the base array.
pub fn base_entry(i: usize) -> (r: u32)
    ensures
        r == spec_base(i as int),
{
    if i < 175 {
        if i < 26 {
            if i < 13 {
                if i < 7 { if i < 4 { if i < 2 { if i == 1 { 2147483648u32 } else { 0u32 } } else { if i < 3 { if i == 2 { 32u32 } else { 0u32 } } else { if i == 3 { 64u32 } else { 0u32 } } } } else { if i < 5 { if i == 4 { 96u32 } else { 0u32 } } else { if i < 6 { if i == 5 { 2147483649u32 } else { 0u32 } } else { if i == 6 { 128u32 } else { 0u32 } } } } } else { if i < 10 { if i < 8 { if i == 7 { 160u32 } else { 0u32 } } else { if i < 9 { if i == 8 { 192u32 } else { 0u32 } } else { if i == 9 { 2147483650u32 } else { 0u32 } } } } else { if i < 11 { if i == 10 { 224u32 } else { 0u32 } } else { if i < 12 { if i == 11 { 256u32 } else { 0u32 } } else { if i == 12 { 288u32 } else { 0u32 } } } } }
            } else {
                if i < 20 { if i < 16 { if i < 14 { if i == 13 { 320u32 } else { 0u32 } } else { if i < 15 { if i == 14 { 352u32 } else { 0u32 } } else { if i == 15 { 2147483651u32 } else { 0u32 } } } } else { if i < 18 { if i == 16 { 384u32 } else { 0u32 } } else { if i < 19 { if i == 18 { 416u32 } else { 0u32 } } else { if i == 19 { 448u32 } else { 0u32 } } } } } else { if i < 23 { if i < 21 { if i == 20 { 480u32 } else { 0u32 } } else { if i < 22 { if i == 21 { 2147483652u32 } else { 0u32 } } else { if i == 22 { 512u32 } else { 0u32 } } } } else { if i < 24 { if i == 23 { 544u32 } else { 0u32 } } else { if i < 25 { if i == 24 { 576u32 } else { 0u32 } } else { if i == 25 { 608u32 } else { 0u32 } } } } }
            }
        } else {
            if i < 101 {
                if i < 65 { if i < 41 { if i < 33 { if i == 26 { 640u32 } else { 0u32 } } else { if i < 37 { if i == 33 { 672u32 } else { 0u32 } } else { if i == 37 { 704u32 } else { 0u32 } } } } else { if i < 47 { if i == 41 { 736u32 } else { 0u32 } } else { if i < 53 { if i == 47 { 768u32 } else { 0u32 } } else { if i == 53 { 800u32 } else { 0u32 } } } } } else { if i < 79 { if i < 69 { if i == 65 { 832u32 } else { 0u32 } } else { if i < 73 { if i == 69 { 864u32 } else { 0u32 } } else { if i == 73 { 896u32 } else { 0u32 } } } } else { if i < 85 { if i == 79 { 928u32 } else { 0u32 } } else { if i < 97 { if i == 85 { 960u32 } else { 0u32 } } else { if i == 97 { 992u32 } else { 0u32 } } } } }
            } else {
                if i < 137 { if i < 117 { if i < 105 { if i == 101 { 1024u32 } else { 0u32 } } else { if i < 111 { if i == 105 { 1056u32 } else { 0u32 } } else { if i == 111 { 1088u32 } else { 0u32 } } } } else { if i < 129 { if i == 117 { 1120u32 } else { 0u32 } } else { if i < 133 { if i == 129 { 1152u32 } else { 0u32 } } else { if i == 133 { 1184u32 } else { 0u32 } } } } } else { if i < 161 { if i < 143 { if i == 137 { 1216u32 } else { 0u32 } } else { if i < 149 { if i == 143 { 1248u32 } else { 0u32 } } else { if i == 149 { 1280u32 } else { 0u32 } } } } else { if i < 165 { if i == 161 { 1312u32 } else { 0u32 } } else { if i < 169 { if i == 165 { 1344u32 } else { 0u32 } } else { if i == 169 { 1376u32 } else { 0u32 } } } } }
            }
        }
    } else if i < 485 {
        if i < 329 {
            if i < 257 {
                if i < 213 { if i < 197 { if i < 181 { if i == 175 { 1408u32 } else { 0u32 } } else { if i < 193 { if i == 181 { 1440u32 } else { 0u32 } } else { if i == 193 { 1472u32 } else { 0u32 } } } } else { if i < 201 { if i == 197 { 1504u32 } else { 0u32 } } else { if i < 207 { if i == 201 { 1536u32 } else { 0u32 } } else { if i == 207 { 1568u32 } else { 0u32 } } } } } else { if i < 233 { if i < 225 { if i == 213 { 1600u32 } else { 0u32 } } else { if i < 229 { if i == 225 { 1632u32 } else { 0u32 } } else { if i == 229 { 1664u32 } else { 0u32 } } } } else { if i < 239 { if i == 233 { 1696u32 } else { 0u32 } } else { if i < 245 { if i == 239 { 1728u32 } else { 0u32 } } else { if i == 245 { 1760u32 } else { 0u32 } } } } }
            } else {
                if i < 293 { if i < 271 { if i < 261 { if i == 257 { 1792u32 } else { 0u32 } } else { if i < 265 { if i == 261 { 1824u32 } else { 0u32 } } else { if i == 265 { 1856u32 } else { 0u32 } } } } else { if i < 277 { if i == 271 { 1888u32 } else { 0u32 } } else { if i < 289 { if i == 277 { 1920u32 } else { 0u32 } } else { if i == 289 { 1952u32 } else { 0u32 } } } } } else { if i < 309 { if i < 297 { if i == 293 { 1984u32 } else { 0u32 } } else { if i < 303 { if i == 297 { 2016u32 } else { 0u32 } } else { if i == 303 { 2048u32 } else { 0u32 } } } } else { if i < 321 { if i == 309 { 2080u32 } else { 0u32 } } else { if i < 325 { if i == 321 { 2112u32 } else { 0u32 } } else { if i == 325 { 2144u32 } else { 0u32 } } } } }
            }
        } else {
            if i < 405 {
                if i < 367 { if i < 353 { if i < 335 { if i == 329 { 2176u32 } else { 0u32 } } else { if i < 341 { if i == 335 { 2208u32 } else { 0u32 } } else { if i == 341 { 2240u32 } else { 0u32 } } } } else { if i < 357 { if i == 353 { 2272u32 } else { 0u32 } } else { if i < 361 { if i == 357 { 2304u32 } else { 0u32 } } else { if i == 361 { 2336u32 } else { 0u32 } } } } } else { if i < 389 { if i < 373 { if i == 367 { 2368u32 } else { 0u32 } } else { if i < 385 { if i == 373 { 2400u32 } else { 0u32 } } else { if i == 385 { 2432u32 } else { 0u32 } } } } else { if i < 393 { if i == 389 { 2464u32 } else { 0u32 } } else { if i < 399 { if i == 393 { 2496u32 } else { 0u32 } } else { if i == 399 { 2528u32 } else { 0u32 } } } } }
            } else {
                if i < 449 { if i < 425 { if i < 417 { if i == 405 { 2560u32 } else { 0u32 } } else { if i < 421 { if i == 417 { 2592u32 } else { 0u32 } } else { if i == 421 { 2624u32 } else { 0u32 } } } } else { if i < 431 { if i == 425 { 2656u32 } else { 0u32 } } else { if i < 437 { if i == 431 { 2688u32 } else { 0u32 } } else { if i == 437 { 2720u32 } else { 0u32 } } } } } else { if i < 463 { if i < 453 { if i == 449 { 2752u32 } else { 0u32 } } else { if i < 457 { if i == 453 { 2784u32 } else { 0u32 } } else { if i == 457 { 2816u32 } else { 0u32 } } } } else { if i < 469 { if i == 463 { 2848u32 } else { 0u32 } } else { if i < 481 { if i == 469 { 2880u32 } else { 0u32 } } else { if i == 481 { 2912u32 } else { 0u32 } } } } }
            }
        }
    } else if i < 878 {
        if i < 641 {
            if i < 559 {
                if i < 521 { if i < 501 { if i < 489 { if i == 485 { 2944u32 } else { 0u32 } } else { if i < 495 { if i == 489 { 2976u32 } else { 0u32 } } else { if i == 495 { 3008u32 } else { 0u32 } } } } else { if i < 513 { if i == 501 { 3040u32 } else { 0u32 } } else { if i < 517 { if i == 513 { 3072u32 } else { 0u32 } } else { if i == 517 { 3104u32 } else { 0u32 } } } } } else { if i < 545 { if i < 527 { if i == 521 { 3136u32 } else { 0u32 } } else { if i < 533 { if i == 527 { 3168u32 } else { 0u32 } } else { if i == 533 { 3200u32 } else { 0u32 } } } } else { if i < 549 { if i == 545 { 3232u32 } else { 0u32 } } else { if i < 553 { if i == 549 { 3264u32 } else { 0u32 } } else { if i == 553 { 3296u32 } else { 0u32 } } } } }
            } else {
                if i < 597 { if i < 581 { if i < 565 { if i == 559 { 3328u32 } else { 0u32 } } else { if i < 577 { if i == 565 { 3360u32 } else { 0u32 } } else { if i == 577 { 3392u32 } else { 0u32 } } } } else { if i < 585 { if i == 581 { 3424u32 } else { 0u32 } } else { if i < 591 { if i == 585 { 3456u32 } else { 0u32 } } else { if i == 591 { 3488u32 } else { 0u32 } } } } } else { if i < 617 { if i < 609 { if i == 597 { 3520u32 } else { 0u32 } } else { if i < 613 { if i == 609 { 3552u32 } else { 0u32 } } else { if i == 613 { 3584u32 } else { 0u32 } } } } else { if i < 623 { if i == 617 { 3616u32 } else { 0u32 } } else { if i < 629 { if i == 623 { 3648u32 } else { 0u32 } } else { if i == 629 { 3680u32 } else { 0u32 } } } } }
            }
        } else {
            if i < 750 {
                if i < 686 { if i < 655 { if i < 645 { if i == 641 { 3712u32 } else { 0u32 } } else { if i < 649 { if i == 645 { 3744u32 } else { 0u32 } } else { if i == 649 { 3776u32 } else { 0u32 } } } } else { if i < 661 { if i == 655 { 3808u32 } else { 0u32 } } else { if i < 672 { if i == 661 { 3840u32 } else { 0u32 } } else { if i == 672 { 2147483653u32 } else { 0u32 } } } } } else { if i < 718 { if i < 691 { if i == 686 { 2147483753u32 } else { 0u32 } } else { if i < 704 { if i == 691 { 2147483853u32 } else { 0u32 } } else { if i == 704 { 2147483654u32 } else { 0u32 } } } } else { if i < 723 { if i == 718 { 2147483754u32 } else { 0u32 } } else { if i < 736 { if i == 723 { 2147483854u32 } else { 0u32 } } else { if i == 736 { 2147483655u32 } else { 0u32 } } } } }
            } else {
                if i < 814 { if i < 782 { if i < 755 { if i == 750 { 2147483755u32 } else { 0u32 } } else { if i < 768 { if i == 755 { 2147483855u32 } else { 0u32 } } else { if i == 768 { 2147483656u32 } else { 0u32 } } } } else { if i < 787 { if i == 782 { 2147483756u32 } else { 0u32 } } else { if i < 800 { if i == 787 { 2147483856u32 } else { 0u32 } } else { if i == 800 { 2147483657u32 } else { 0u32 } } } } } else { if i < 846 { if i < 819 { if i == 814 { 2147483757u32 } else { 0u32 } } else { if i < 832 { if i == 819 { 2147483857u32 } else { 0u32 } } else { if i == 832 { 2147483658u32 } else { 0u32 } } } } else { if i < 851 { if i == 846 { 2147483758u32 } else { 0u32 } } else { if i < 864 { if i == 851 { 2147483858u32 } else { 0u32 } } else { if i == 864 { 2147483659u32 } else { 0u32 } } } } }
            }
        }
    } else if i < 1390 {
        if i < 1134 {
            if i < 1006 {
                if i < 942 { if i < 910 { if i < 883 { if i == 878 { 2147483759u32 } else { 0u32 } } else { if i < 896 { if i == 883 { 2147483859u32 } else { 0u32 } } else { if i == 896 { 2147483660u32 } else { 0u32 } } } } else { if i < 915 { if i == 910 { 2147483760u32 } else { 0u32 } } else { if i < 928 { if i == 915 { 2147483860u32 } else { 0u32 } } else { if i == 928 { 2147483661u32 } else { 0u32 } } } } } else { if i < 974 { if i < 947 { if i == 942 { 2147483761u32 } else { 0u32 } } else { if i < 960 { if i == 947 { 2147483861u32 } else { 0u32 } } else { if i == 960 { 2147483662u32 } else { 0u32 } } } } else { if i < 979 { if i == 974 { 2147483762u32 } else { 0u32 } } else { if i < 992 { if i == 979 { 2147483862u32 } else { 0u32 } } else { if i == 992 { 2147483663u32 } else { 0u32 } } } } }
            } else {
                if i < 1070 { if i < 1038 { if i < 1011 { if i == 1006 { 2147483763u32 } else { 0u32 } } else { if i < 1024 { if i == 1011 { 2147483863u32 } else { 0u32 } } else { if i == 1024 { 2147483664u32 } else { 0u32 } } } } else { if i < 1043 { if i == 1038 { 2147483764u32 } else { 0u32 } } else { if i < 1056 { if i == 1043 { 2147483864u32 } else { 0u32 } } else { if i == 1056 { 2147483665u32 } else { 0u32 } } } } } else { if i < 1102 { if i < 1075 { if i == 1070 { 2147483765u32 } else { 0u32 } } else { if i < 1088 { if i == 1075 { 2147483865u32 } else { 0u32 } } else { if i == 1088 { 2147483666u32 } else { 0u32 } } } } else { if i < 1107 { if i == 1102 { 2147483766u32 } else { 0u32 } } else { if i < 1120 { if i == 1107 { 2147483866u32 } else { 0u32 } } else { if i == 1120 { 2147483667u32 } else { 0u32 } } } } }
            }
        } else {
            if i < 1262 {
                if i < 1198 { if i < 1166 { if i < 1139 { if i == 1134 { 2147483767u32 } else { 0u32 } } else { if i < 1152 { if i == 1139 { 2147483867u32 } else { 0u32 } } else { if i == 1152 { 2147483668u32 } else { 0u32 } } } } else { if i < 1171 { if i == 1166 { 2147483768u32 } else { 0u32 } } else { if i < 1184 { if i == 1171 { 2147483868u32 } else { 0u32 } } else { if i == 1184 { 2147483669u32 } else { 0u32 } } } } } else { if i < 1230 { if i < 1203 { if i == 1198 { 2147483769u32 } else { 0u32 } } else { if i < 1216 { if i == 1203 { 2147483869u32 } else { 0u32 } } else { if i == 1216 { 2147483670u32 } else { 0u32 } } } } else { if i < 1235 { if i == 1230 { 2147483770u32 } else { 0u32 } } else { if i < 1248 { if i == 1235 { 2147483870u32 } else { 0u32 } } else { if i == 1248 { 2147483671u32 } else { 0u32 } } } } }
            } else {
                if i < 1326 { if i < 1294 { if i < 1267 { if i == 1262 { 2147483771u32 } else { 0u32 } } else { if i < 1280 { if i == 1267 { 2147483871u32 } else { 0u32 } } else { if i == 1280 { 2147483672u32 } else { 0u32 } } } } else { if i < 1299 { if i == 1294 { 2147483772u32 } else { 0u32 } } else { if i < 1312 { if i == 1299 { 2147483872u32 } else { 0u32 } } else { if i == 1312 { 2147483673u32 } else { 0u32 } } } } } else { if i < 1358 { if i < 1331 { if i == 1326 { 2147483773u32 } else { 0u32 } } else { if i < 1344 { if i == 1331 { 2147483873u32 } else { 0u32 } } else { if i == 1344 { 2147483674u32 } else { 0u32 } } } } else { if i < 1363 { if i == 1358 { 2147483774u32 } else { 0u32 } } else { if i < 1376 { if i == 1363 { 2147483874u32 } else { 0u32 } } else { if i == 1376 { 2147483675u32 } else { 0u32 } } } } }
            }
        }
    } else if i < 1902 {
        if i < 1646 {
            if i < 1518 {
                if i < 1454 { if i < 1422 { if i < 1395 { if i == 1390 { 2147483775u32 } else { 0u32 } } else { if i < 1408 { if i == 1395 { 2147483875u32 } else { 0u32 } } else { if i == 1408 { 2147483676u32 } else { 0u32 } } } } else { if i < 1427 { if i == 1422 { 2147483776u32 } else { 0u32 } } else { if i < 1440 { if i == 1427 { 2147483876u32 } else { 0u32 } } else { if i == 1440 { 2147483677u32 } else { 0u32 } } } } } else { if i < 1486 { if i < 1459 { if i == 1454 { 2147483777u32 } else { 0u32 } } else { if i < 1472 { if i == 1459 { 2147483877u32 } else { 0u32 } } else { if i == 1472 { 2147483678u32 } else { 0u32 } } } } else { if i < 1491 { if i == 1486 { 2147483778u32 } else { 0u32 } } else { if i < 1504 { if i == 1491 { 2147483878u32 } else { 0u32 } } else { if i == 1504 { 2147483679u32 } else { 0u32 } } } } }
            } else {
                if i < 1582 { if i < 1550 { if i < 1523 { if i == 1518 { 2147483779u32 } else { 0u32 } } else { if i < 1536 { if i == 1523 { 2147483879u32 } else { 0u32 } } else { if i == 1536 { 2147483680u32 } else { 0u32 } } } } else { if i < 1555 { if i == 1550 { 2147483780u32 } else { 0u32 } } else { if i < 1568 { if i == 1555 { 2147483880u32 } else { 0u32 } } else { if i == 1568 { 2147483681u32 } else { 0u32 } } } } } else { if i < 1614 { if i < 1587 { if i == 1582 { 2147483781u32 } else { 0u32 } } else { if i < 1600 { if i == 1587 { 2147483881u32 } else { 0u32 } } else { if i == 1600 { 2147483682u32 } else { 0u32 } } } } else { if i < 1619 { if i == 1614 { 2147483782u32 } else { 0u32 } } else { if i < 1632 { if i == 1619 { 2147483882u32 } else { 0u32 } } else { if i == 1632 { 2147483683u32 } else { 0u32 } } } } }
            }
        } else {
            if i < 1774 {
                if i < 1710 { if i < 1678 { if i < 1651 { if i == 1646 { 2147483783u32 } else { 0u32 } } else { if i < 1664 { if i == 1651 { 2147483883u32 } else { 0u32 } } else { if i == 1664 { 2147483684u32 } else { 0u32 } } } } else { if i < 1683 { if i == 1678 { 2147483784u32 } else { 0u32 } } else { if i < 1696 { if i == 1683 { 2147483884u32 } else { 0u32 } } else { if i == 1696 { 2147483685u32 } else { 0u32 } } } } } else { if i < 1742 { if i < 1715 { if i == 1710 { 2147483785u32 } else { 0u32 } } else { if i < 1728 { if i == 1715 { 2147483885u32 } else { 0u32 } } else { if i == 1728 { 2147483686u32 } else { 0u32 } } } } else { if i < 1747 { if i == 1742 { 2147483786u32 } else { 0u32 } } else { if i < 1760 { if i == 1747 { 2147483886u32 } else { 0u32 } } else { if i == 1760 { 2147483687u32 } else { 0u32 } } } } }
            } else {
                if i < 1838 { if i < 1806 { if i < 1779 { if i == 1774 { 2147483787u32 } else { 0u32 } } else { if i < 1792 { if i == 1779 { 2147483887u32 } else { 0u32 } } else { if i == 1792 { 2147483688u32 } else { 0u32 } } } } else { if i < 1811 { if i == 1806 { 2147483788u32 } else { 0u32 } } else { if i < 1824 { if i == 1811 { 2147483888u32 } else { 0u32 } } else { if i == 1824 { 2147483689u32 } else { 0u32 } } } } } else { if i < 1870 { if i < 1843 { if i == 1838 { 2147483789u32 } else { 0u32 } } else { if i < 1856 { if i == 1843 { 2147483889u32 } else { 0u32 } } else { if i == 1856 { 2147483690u32 } else { 0u32 } } } } else { if i < 1875 { if i == 1870 { 2147483790u32 } else { 0u32 } } else { if i < 1888 { if i == 1875 { 2147483890u32 } else { 0u32 } } else { if i == 1888 { 2147483691u32 } else { 0u32 } } } } }
            }
        }
    } else if i < 2496 {
        if i < 2158 {
            if i < 2030 {
                if i < 1966 { if i < 1934 { if i < 1907 { if i == 1902 { 2147483791u32 } else { 0u32 } } else { if i < 1920 { if i == 1907 { 2147483891u32 } else { 0u32 } } else { if i == 1920 { 2147483692u32 } else { 0u32 } } } } else { if i < 1939 { if i == 1934 { 2147483792u32 } else { 0u32 } } else { if i < 1952 { if i == 1939 { 2147483892u32 } else { 0u32 } } else { if i == 1952 { 2147483693u32 } else { 0u32 } } } } } else { if i < 1998 { if i < 1971 { if i == 1966 { 2147483793u32 } else { 0u32 } } else { if i < 1984 { if i == 1971 { 2147483893u32 } else { 0u32 } } else { if i == 1984 { 2147483694u32 } else { 0u32 } } } } else { if i < 2003 { if i == 1998 { 2147483794u32 } else { 0u32 } } else { if i < 2016 { if i == 2003 { 2147483894u32 } else { 0u32 } } else { if i == 2016 { 2147483695u32 } else { 0u32 } } } } }
            } else {
                if i < 2094 { if i < 2062 { if i < 2035 { if i == 2030 { 2147483795u32 } else { 0u32 } } else { if i < 2048 { if i == 2035 { 2147483895u32 } else { 0u32 } } else { if i == 2048 { 2147483696u32 } else { 0u32 } } } } else { if i < 2067 { if i == 2062 { 2147483796u32 } else { 0u32 } } else { if i < 2080 { if i == 2067 { 2147483896u32 } else { 0u32 } } else { if i == 2080 { 2147483697u32 } else { 0u32 } } } } } else { if i < 2126 { if i < 2099 { if i == 2094 { 2147483797u32 } else { 0u32 } } else { if i < 2112 { if i == 2099 { 2147483897u32 } else { 0u32 } } else { if i == 2112 { 2147483698u32 } else { 0u32 } } } } else { if i < 2131 { if i == 2126 { 2147483798u32 } else { 0u32 } } else { if i < 2144 { if i == 2131 { 2147483898u32 } else { 0u32 } } else { if i == 2144 { 2147483699u32 } else { 0u32 } } } } }
            }
        } else {
            if i < 2304 {
                if i < 2222 { if i < 2190 { if i < 2163 { if i == 2158 { 2147483799u32 } else { 0u32 } } else { if i < 2176 { if i == 2163 { 2147483899u32 } else { 0u32 } } else { if i == 2176 { 2147483700u32 } else { 0u32 } } } } else { if i < 2195 { if i == 2190 { 2147483800u32 } else { 0u32 } } else { if i < 2208 { if i == 2195 { 2147483900u32 } else { 0u32 } } else { if i == 2208 { 2147483701u32 } else { 0u32 } } } } } else { if i < 2254 { if i < 2227 { if i == 2222 { 2147483801u32 } else { 0u32 } } else { if i < 2240 { if i == 2227 { 2147483901u32 } else { 0u32 } } else { if i == 2240 { 2147483702u32 } else { 0u32 } } } } else { if i < 2272 { if i == 2254 { 2147483802u32 } else { 0u32 } } else { if i < 2286 { if i == 2272 { 2147483703u32 } else { 0u32 } } else { if i == 2286 { 2147483803u32 } else { 0u32 } } } } }
            } else {
                if i < 2400 { if i < 2350 { if i < 2318 { if i == 2304 { 2147483704u32 } else { 0u32 } } else { if i < 2336 { if i == 2318 { 2147483804u32 } else { 0u32 } } else { if i == 2336 { 2147483705u32 } else { 0u32 } } } } else { if i < 2368 { if i == 2350 { 2147483805u32 } else { 0u32 } } else { if i < 2382 { if i == 2368 { 2147483706u32 } else { 0u32 } } else { if i == 2382 { 2147483806u32 } else { 0u32 } } } } } else { if i < 2446 { if i < 2414 { if i == 2400 { 2147483707u32 } else { 0u32 } } else { if i < 2432 { if i == 2414 { 2147483807u32 } else { 0u32 } } else { if i == 2432 { 2147483708u32 } else { 0u32 } } } } else { if i < 2464 { if i == 2446 { 2147483808u32 } else { 0u32 } } else { if i < 2478 { if i == 2464 { 2147483709u32 } else { 0u32 } } else { if i == 2478 { 2147483809u32 } else { 0u32 } } } } }
            }
        }
    } else if i < 3232 {
        if i < 2862 {
            if i < 2688 {
                if i < 2592 { if i < 2542 { if i < 2510 { if i == 2496 { 2147483710u32 } else { 0u32 } } else { if i < 2528 { if i == 2510 { 2147483810u32 } else { 0u32 } } else { if i == 2528 { 2147483711u32 } else { 0u32 } } } } else { if i < 2560 { if i == 2542 { 2147483811u32 } else { 0u32 } } else { if i < 2574 { if i == 2560 { 2147483712u32 } else { 0u32 } } else { if i == 2574 { 2147483812u32 } else { 0u32 } } } } } else { if i < 2638 { if i < 2606 { if i == 2592 { 2147483713u32 } else { 0u32 } } else { if i < 2624 { if i == 2606 { 2147483813u32 } else { 0u32 } } else { if i == 2624 { 2147483714u32 } else { 0u32 } } } } else { if i < 2656 { if i == 2638 { 2147483814u32 } else { 0u32 } } else { if i < 2670 { if i == 2656 { 2147483715u32 } else { 0u32 } } else { if i == 2670 { 2147483815u32 } else { 0u32 } } } } }
            } else {
                if i < 2784 { if i < 2734 { if i < 2702 { if i == 2688 { 2147483716u32 } else { 0u32 } } else { if i < 2720 { if i == 2702 { 2147483816u32 } else { 0u32 } } else { if i == 2720 { 2147483717u32 } else { 0u32 } } } } else { if i < 2752 { if i == 2734 { 2147483817u32 } else { 0u32 } } else { if i < 2766 { if i == 2752 { 2147483718u32 } else { 0u32 } } else { if i == 2766 { 2147483818u32 } else { 0u32 } } } } } else { if i < 2830 { if i < 2798 { if i == 2784 { 2147483719u32 } else { 0u32 } } else { if i < 2816 { if i == 2798 { 2147483819u32 } else { 0u32 } } else { if i == 2816 { 2147483720u32 } else { 0u32 } } } } else { if i < 2838 { if i == 2830 { 2147483820u32 } else { 0u32 } } else { if i < 2848 { if i == 2838 { 3872u32 } else { 0u32 } } else { if i == 2848 { 2147483721u32 } else { 0u32 } } } } }
            }
        } else {
            if i < 3040 {
                if i < 2958 { if i < 2912 { if i < 2880 { if i == 2862 { 2147483821u32 } else { 0u32 } } else { if i < 2894 { if i == 2880 { 2147483722u32 } else { 0u32 } } else { if i == 2894 { 2147483822u32 } else { 0u32 } } } } else { if i < 2926 { if i == 2912 { 2147483723u32 } else { 0u32 } } else { if i < 2944 { if i == 2926 { 2147483823u32 } else { 0u32 } } else { if i == 2944 { 2147483724u32 } else { 0u32 } } } } } else { if i < 2998 { if i < 2976 { if i == 2958 { 2147483824u32 } else { 0u32 } } else { if i < 2990 { if i == 2976 { 2147483725u32 } else { 0u32 } } else { if i == 2990 { 2147483825u32 } else { 0u32 } } } } else { if i < 3008 { if i == 2998 { 3904u32 } else { 0u32 } } else { if i < 3022 { if i == 3008 { 2147483726u32 } else { 0u32 } } else { if i == 3022 { 2147483826u32 } else { 0u32 } } } } }
            } else {
                if i < 3136 { if i < 3086 { if i < 3054 { if i == 3040 { 2147483727u32 } else { 0u32 } } else { if i < 3072 { if i == 3054 { 2147483827u32 } else { 0u32 } } else { if i == 3072 { 2147483728u32 } else { 0u32 } } } } else { if i < 3104 { if i == 3086 { 2147483828u32 } else { 0u32 } } else { if i < 3118 { if i == 3104 { 2147483729u32 } else { 0u32 } } else { if i == 3118 { 2147483829u32 } else { 0u32 } } } } } else { if i < 3182 { if i < 3150 { if i == 3136 { 2147483730u32 } else { 0u32 } } else { if i < 3168 { if i == 3150 { 2147483830u32 } else { 0u32 } } else { if i == 3168 { 2147483731u32 } else { 0u32 } } } } else { if i < 3200 { if i == 3182 { 2147483831u32 } else { 0u32 } } else { if i < 3214 { if i == 3200 { 2147483732u32 } else { 0u32 } } else { if i == 3214 { 2147483832u32 } else { 0u32 } } } } }
            }
        }
    } else {
        if i < 3566 {
            if i < 3392 {
                if i < 3310 { if i < 3264 { if i < 3246 { if i == 3232 { 2147483733u32 } else { 0u32 } } else { if i == 3246 { 2147483833u32 } else { 0u32 } } } else { if i < 3278 { if i == 3264 { 2147483734u32 } else { 0u32 } } else { if i < 3296 { if i == 3278 { 2147483834u32 } else { 0u32 } } else { if i == 3296 { 2147483735u32 } else { 0u32 } } } } } else { if i < 3342 { if i < 3328 { if i == 3310 { 2147483835u32 } else { 0u32 } } else { if i == 3328 { 2147483736u32 } else { 0u32 } } } else { if i < 3360 { if i == 3342 { 2147483836u32 } else { 0u32 } } else { if i < 3374 { if i == 3360 { 2147483737u32 } else { 0u32 } } else { if i == 3374 { 2147483837u32 } else { 0u32 } } } } }
            } else {
                if i < 3470 { if i < 3424 { if i < 3406 { if i == 3392 { 2147483738u32 } else { 0u32 } } else { if i == 3406 { 2147483838u32 } else { 0u32 } } } else { if i < 3438 { if i == 3424 { 2147483739u32 } else { 0u32 } } else { if i < 3456 { if i == 3438 { 2147483839u32 } else { 0u32 } } else { if i == 3456 { 2147483740u32 } else { 0u32 } } } } } else { if i < 3520 { if i < 3488 { if i == 3470 { 2147483840u32 } else { 0u32 } } else { if i < 3502 { if i == 3488 { 2147483741u32 } else { 0u32 } } else { if i == 3502 { 2147483841u32 } else { 0u32 } } } } else { if i < 3534 { if i == 3520 { 2147483742u32 } else { 0u32 } } else { if i < 3552 { if i == 3534 { 2147483842u32 } else { 0u32 } } else { if i == 3552 { 2147483743u32 } else { 0u32 } } } } }
            }
        } else {
            if i < 3726 {
                if i < 3648 { if i < 3598 { if i < 3584 { if i == 3566 { 2147483843u32 } else { 0u32 } } else { if i == 3584 { 2147483744u32 } else { 0u32 } } } else { if i < 3616 { if i == 3598 { 2147483844u32 } else { 0u32 } } else { if i < 3630 { if i == 3616 { 2147483745u32 } else { 0u32 } } else { if i == 3630 { 2147483845u32 } else { 0u32 } } } } } else { if i < 3680 { if i < 3662 { if i == 3648 { 2147483746u32 } else { 0u32 } } else { if i == 3662 { 2147483846u32 } else { 0u32 } } } else { if i < 3694 { if i == 3680 { 2147483747u32 } else { 0u32 } } else { if i < 3712 { if i == 3694 { 2147483847u32 } else { 0u32 } } else { if i == 3712 { 2147483748u32 } else { 0u32 } } } } }
            } else {
                if i < 3808 { if i < 3758 { if i < 3744 { if i == 3726 { 2147483848u32 } else { 0u32 } } else { if i == 3744 { 2147483749u32 } else { 0u32 } } } else { if i < 3776 { if i == 3758 { 2147483849u32 } else { 0u32 } } else { if i < 3790 { if i == 3776 { 2147483750u32 } else { 0u32 } } else { if i == 3790 { 2147483850u32 } else { 0u32 } } } } } else { if i < 3854 { if i < 3822 { if i == 3808 { 2147483751u32 } else { 0u32 } } else { if i < 3840 { if i == 3822 { 2147483851u32 } else { 0u32 } } else { if i == 3840 { 2147483752u32 } else { 0u32 } } } } else { if i < 3877 { if i == 3854 { 2147483852u32 } else { 0u32 } } else { if i < 3909 { if i == 3877 { 2147483902u32 } else { 0u32 } } else { if i == 3909 { 2147483903u32 } else { 0u32 } } } } }
            }
        }
    }
}

pub open spec fn spec_check_part_0(i: int) -> u32 {
    if i < 26 {
        if i < 13 {
            if i < 7 {
                if i < 4 { if i < 2 { if i == 1 { 0u32 } else { 2147483647u32 } } else { if i < 3 { if i == 2 { 0u32 } else { 2147483647u32 } } else { if i == 3 { 0u32 } else { 2147483647u32 } } } } else { if i < 5 { if i == 4 { 0u32 } else { 2147483647u32 } } else { if i < 6 { if i == 5 { 0u32 } else { 2147483647u32 } } else { if i == 6 { 0u32 } else { 2147483647u32 } } } }
            } else {
                if i < 10 { if i < 8 { if i == 7 { 0u32 } else { 2147483647u32 } } else { if i < 9 { if i == 8 { 0u32 } else { 2147483647u32 } } else { if i == 9 { 0u32 } else { 2147483647u32 } } } } else { if i < 11 { if i == 10 { 0u32 } else { 2147483647u32 } } else { if i < 12 { if i == 11 { 0u32 } else { 2147483647u32 } } else { if i == 12 { 0u32 } else { 2147483647u32 } } } }
            }
        } else {
            if i < 20 {
                if i < 16 { if i < 14 { if i == 13 { 0u32 } else { 2147483647u32 } } else { if i < 15 { if i == 14 { 0u32 } else { 2147483647u32 } } else { if i == 15 { 0u32 } else { 2147483647u32 } } } } else { if i < 18 { if i == 16 { 0u32 } else { 2147483647u32 } } else { if i < 19 { if i == 18 { 0u32 } else { 2147483647u32 } } else { if i == 19 { 0u32 } else { 2147483647u32 } } } }
            } else {
                if i < 23 { if i < 21 { if i == 20 { 0u32 } else { 2147483647u32 } } else { if i < 22 { if i == 21 { 0u32 } else { 2147483647u32 } } else { if i == 22 { 0u32 } else { 2147483647u32 } } } } else { if i < 24 { if i == 23 { 0u32 } else { 2147483647u32 } } else { if i < 25 { if i == 24 { 0u32 } else { 2147483647u32 } } else { if i == 25 { 0u32 } else { 2147483647u32 } } } }
            }
        }
    } else {
        if i < 101 {
            if i < 65 {
                if i < 41 { if i < 33 { if i == 26 { 0u32 } else { 2147483647u32 } } else { if i < 37 { if i == 33 { 2147483650u32 } else { 2147483647u32 } } else { if i == 37 { 2147483650u32 } else { 2147483647u32 } } } } else { if i < 47 { if i == 41 { 2147483650u32 } else { 2147483647u32 } } else { if i < 53 { if i == 47 { 2147483650u32 } else { 2147483647u32 } } else { if i == 53 { 2147483650u32 } else { 2147483647u32 } } } }
            } else {
                if i < 79 { if i < 69 { if i == 65 { 2147483651u32 } else { 2147483647u32 } } else { if i < 73 { if i == 69 { 2147483651u32 } else { 2147483647u32 } } else { if i == 73 { 2147483651u32 } else { 2147483647u32 } } } } else { if i < 85 { if i == 79 { 2147483651u32 } else { 2147483647u32 } } else { if i < 97 { if i == 85 { 2147483651u32 } else { 2147483647u32 } } else { if i == 97 { 2147483652u32 } else { 2147483647u32 } } } }
            }
        } else {
            if i < 137 {
                if i < 117 { if i < 105 { if i == 101 { 2147483652u32 } else { 2147483647u32 } } else { if i < 111 { if i == 105 { 2147483652u32 } else { 2147483647u32 } } else { if i == 111 { 2147483652u32 } else { 2147483647u32 } } } } else { if i < 129 { if i == 117 { 2147483652u32 } else { 2147483647u32 } } else { if i < 133 { if i == 129 { 2147483654u32 } else { 2147483647u32 } } else { if i == 133 { 2147483654u32 } else { 2147483647u32 } } } }
            } else {
                if i < 161 { if i < 143 { if i == 137 { 2147483654u32 } else { 2147483647u32 } } else { if i < 149 { if i == 143 { 2147483654u32 } else { 2147483647u32 } } else { if i == 149 { 2147483654u32 } else { 2147483647u32 } } } } else { if i < 165 { if i == 161 { 2147483655u32 } else { 2147483647u32 } } else { if i < 169 { if i == 165 { 2147483655u32 } else { 2147483647u32 } } else { if i == 169 { 2147483655u32 } else { 2147483647u32 } } } }
            }
        }
    }
}

pub open spec fn spec_check_part_1(i: int) -> u32 {
    if i < 329 {
        if i < 257 {
            if i < 213 {
                if i < 197 { if i < 181 { if i == 175 { 2147483655u32 } else { 2147483647u32 } } else { if i < 193 { if i == 181 { 2147483655u32 } else { 2147483647u32 } } else { if i == 193 { 2147483656u32 } else { 2147483647u32 } } } } else { if i < 201 { if i == 197 { 2147483656u32 } else { 2147483647u32 } } else { if i < 207 { if i == 201 { 2147483656u32 } else { 2147483647u32 } } else { if i == 207 { 2147483656u32 } else { 2147483647u32 } } } }
            } else {
                if i < 233 { if i < 225 { if i == 213 { 2147483656u32 } else { 2147483647u32 } } else { if i < 229 { if i == 225 { 2147483658u32 } else { 2147483647u32 } } else { if i == 229 { 2147483658u32 } else { 2147483647u32 } } } } else { if i < 239 { if i == 233 { 2147483658u32 } else { 2147483647u32 } } else { if i < 245 { if i == 239 { 2147483658u32 } else { 2147483647u32 } } else { if i == 245 { 2147483658u32 } else { 2147483647u32 } } } }
            }
        } else {
            if i < 293 {
                if i < 271 { if i < 261 { if i == 257 { 2147483659u32 } else { 2147483647u32 } } else { if i < 265 { if i == 261 { 2147483659u32 } else { 2147483647u32 } } else { if i == 265 { 2147483659u32 } else { 2147483647u32 } } } } else { if i < 277 { if i == 271 { 2147483659u32 } else { 2147483647u32 } } else { if i < 289 { if i == 277 { 2147483659u32 } else { 2147483647u32 } } else { if i == 289 { 2147483660u32 } else { 2147483647u32 } } } }
            } else {
                if i < 309 { if i < 297 { if i == 293 { 2147483660u32 } else { 2147483647u32 } } else { if i < 303 { if i == 297 { 2147483660u32 } else { 2147483647u32 } } else { if i == 303 { 2147483660u32 } else { 2147483647u32 } } } } else { if i < 321 { if i == 309 { 2147483660u32 } else { 2147483647u32 } } else { if i < 325 { if i == 321 { 2147483661u32 } else { 2147483647u32 } } else { if i == 325 { 2147483661u32 } else { 2147483647u32 } } } }
            }
        }
    } else {
        if i < 405 {
            if i < 367 {
                if i < 353 { if i < 335 { if i == 329 { 2147483661u32 } else { 2147483647u32 } } else { if i < 341 { if i == 335 { 2147483661u32 } else { 2147483647u32 } } else { if i == 341 { 2147483661u32 } else { 2147483647u32 } } } } else { if i < 357 { if i == 353 { 2147483662u32 } else { 2147483647u32 } } else { if i < 361 { if i == 357 { 2147483662u32 } else { 2147483647u32 } } else { if i == 361 { 2147483662u32 } else { 2147483647u32 } } } }
            } else {
                if i < 389 { if i < 373 { if i == 367 { 2147483662u32 } else { 2147483647u32 } } else { if i < 385 { if i == 373 { 2147483662u32 } else { 2147483647u32 } } else { if i == 385 { 2147483664u32 } else { 2147483647u32 } } } } else { if i < 393 { if i == 389 { 2147483664u32 } else { 2147483647u32 } } else { if i < 399 { if i == 393 { 2147483664u32 } else { 2147483647u32 } } else { if i == 399 { 2147483664u32 } else { 2147483647u32 } } } }
            }
        } else {
            if i < 449 {
                if i < 425 { if i < 417 { if i == 405 { 2147483664u32 } else { 2147483647u32 } } else { if i < 421 { if i == 417 { 2147483666u32 } else { 2147483647u32 } } else { if i == 421 { 2147483666u32 } else { 2147483647u32 } } } } else { if i < 431 { if i == 425 { 2147483666u32 } else { 2147483647u32 } } else { if i < 437 { if i == 431 { 2147483666u32 } else { 2147483647u32 } } else { if i == 437 { 2147483666u32 } else { 2147483647u32 } } } }
            } else {
                if i < 463 { if i < 453 { if i == 449 { 2147483667u32 } else { 2147483647u32 } } else { if i < 457 { if i == 453 { 2147483667u32 } else { 2147483647u32 } } else { if i == 457 { 2147483667u32 } else { 2147483647u32 } } } } else { if i < 469 { if i == 463 { 2147483667u32 } else { 2147483647u32 } } else { if i < 481 { if i == 469 { 2147483667u32 } else { 2147483647u32 } } else { if i == 481 { 2147483668u32 } else { 2147483647u32 } } } }
            }
        }
    }
}

pub open spec fn spec_check_part_2(i: int) -> u32 {
    if i < 641 {
        if i < 559 {
            if i < 521 {
                if i < 501 { if i < 489 { if i == 485 { 2147483668u32 } else { 2147483647u32 } } else { if i < 495 { if i == 489 { 2147483668u32 } else { 2147483647u32 } } else { if i == 495 { 2147483668u32 } else { 2147483647u32 } } } } else { if i < 513 { if i == 501 { 2147483668u32 } else { 2147483647u32 } } else { if i < 517 { if i == 513 { 2147483670u32 } else { 2147483647u32 } } else { if i == 517 { 2147483670u32 } else { 2147483647u32 } } } }
            } else {
                if i < 545 { if i < 527 { if i == 521 { 2147483670u32 } else { 2147483647u32 } } else { if i < 533 { if i == 527 { 2147483670u32 } else { 2147483647u32 } } else { if i == 533 { 2147483670u32 } else { 2147483647u32 } } } } else { if i < 549 { if i == 545 { 2147483671u32 } else { 2147483647u32 } } else { if i < 553 { if i == 549 { 2147483671u32 } else { 2147483647u32 } } else { if i == 553 { 2147483671u32 } else { 2147483647u32 } } } }
            }
        } else {
            if i < 597 {
                if i < 581 { if i < 565 { if i == 559 { 2147483671u32 } else { 2147483647u32 } } else { if i < 577 { if i == 565 { 2147483671u32 } else { 2147483647u32 } } else { if i == 577 { 2147483672u32 } else { 2147483647u32 } } } } else { if i < 585 { if i == 581 { 2147483672u32 } else { 2147483647u32 } } else { if i < 591 { if i == 585 { 2147483672u32 } else { 2147483647u32 } } else { if i == 591 { 2147483672u32 } else { 2147483647u32 } } } }
            } else {
                if i < 617 { if i < 609 { if i == 597 { 2147483672u32 } else { 2147483647u32 } } else { if i < 613 { if i == 609 { 2147483673u32 } else { 2147483647u32 } } else { if i == 613 { 2147483673u32 } else { 2147483647u32 } } } } else { if i < 623 { if i == 617 { 2147483673u32 } else { 2147483647u32 } } else { if i < 629 { if i == 623 { 2147483673u32 } else { 2147483647u32 } } else { if i == 629 { 2147483673u32 } else { 2147483647u32 } } } }
            }
        }
    } else {
        if i < 750 {
            if i < 686 {
                if i < 655 { if i < 645 { if i == 641 { 2147483674u32 } else { 2147483647u32 } } else { if i < 649 { if i == 645 { 2147483674u32 } else { 2147483647u32 } } else { if i == 649 { 2147483674u32 } else { 2147483647u32 } } } } else { if i < 661 { if i == 655 { 2147483674u32 } else { 2147483647u32 } } else { if i < 672 { if i == 661 { 2147483674u32 } else { 2147483647u32 } } else { if i == 672 { 33u32 } else { 2147483647u32 } } } }
            } else {
                if i < 718 { if i < 691 { if i == 686 { 33u32 } else { 2147483647u32 } } else { if i < 704 { if i == 691 { 33u32 } else { 2147483647u32 } } else { if i == 704 { 37u32 } else { 2147483647u32 } } } } else { if i < 723 { if i == 718 { 37u32 } else { 2147483647u32 } } else { if i < 736 { if i == 723 { 37u32 } else { 2147483647u32 } } else { if i == 736 { 41u32 } else { 2147483647u32 } } } }
            }
        } else {
            if i < 814 {
                if i < 782 { if i < 755 { if i == 750 { 41u32 } else { 2147483647u32 } } else { if i < 768 { if i == 755 { 41u32 } else { 2147483647u32 } } else { if i == 768 { 47u32 } else { 2147483647u32 } } } } else { if i < 787 { if i == 782 { 47u32 } else { 2147483647u32 } } else { if i < 800 { if i == 787 { 47u32 } else { 2147483647u32 } } else { if i == 800 { 53u32 } else { 2147483647u32 } } } }
            } else {
                if i < 846 { if i < 819 { if i == 814 { 53u32 } else { 2147483647u32 } } else { if i < 832 { if i == 819 { 53u32 } else { 2147483647u32 } } else { if i == 832 { 65u32 } else { 2147483647u32 } } } } else { if i < 851 { if i == 846 { 65u32 } else { 2147483647u32 } } else { if i < 864 { if i == 851 { 65u32 } else { 2147483647u32 } } else { if i == 864 { 69u32 } else { 2147483647u32 } } } }
            }
        }
    }
}

pub open spec fn spec_check_part_3(i: int) -> u32 {
    if i < 1134 {
        if i < 1006 {
            if i < 942 {
                if i < 910 { if i < 883 { if i == 878 { 69u32 } else { 2147483647u32 } } else { if i < 896 { if i == 883 { 69u32 } else { 2147483647u32 } } else { if i == 896 { 73u32 } else { 2147483647u32 } } } } else { if i < 915 { if i == 910 { 73u32 } else { 2147483647u32 } } else { if i < 928 { if i == 915 { 73u32 } else { 2147483647u32 } } else { if i == 928 { 79u32 } else { 2147483647u32 } } } }
            } else {
                if i < 974 { if i < 947 { if i == 942 { 79u32 } else { 2147483647u32 } } else { if i < 960 { if i == 947 { 79u32 } else { 2147483647u32 } } else { if i == 960 { 85u32 } else { 2147483647u32 } } } } else { if i < 979 { if i == 974 { 85u32 } else { 2147483647u32 } } else { if i < 992 { if i == 979 { 85u32 } else { 2147483647u32 } } else { if i == 992 { 97u32 } else { 2147483647u32 } } } }
            }
        } else {
            if i < 1070 {
                if i < 1038 { if i < 1011 { if i == 1006 { 97u32 } else { 2147483647u32 } } else { if i < 1024 { if i == 1011 { 97u32 } else { 2147483647u32 } } else { if i == 1024 { 101u32 } else { 2147483647u32 } } } } else { if i < 1043 { if i == 1038 { 101u32 } else { 2147483647u32 } } else { if i < 1056 { if i == 1043 { 101u32 } else { 2147483647u32 } } else { if i == 1056 { 105u32 } else { 2147483647u32 } } } }
            } else {
                if i < 1102 { if i < 1075 { if i == 1070 { 105u32 } else { 2147483647u32 } } else { if i < 1088 { if i == 1075 { 105u32 } else { 2147483647u32 } } else { if i == 1088 { 111u32 } else { 2147483647u32 } } } } else { if i < 1107 { if i == 1102 { 111u32 } else { 2147483647u32 } } else { if i < 1120 { if i == 1107 { 111u32 } else { 2147483647u32 } } else { if i == 1120 { 117u32 } else { 2147483647u32 } } } }
            }
        }
    } else {
        if i < 1262 {
            if i < 1198 {
                if i < 1166 { if i < 1139 { if i == 1134 { 117u32 } else { 2147483647u32 } } else { if i < 1152 { if i == 1139 { 117u32 } else { 2147483647u32 } } else { if i == 1152 { 129u32 } else { 2147483647u32 } } } } else { if i < 1171 { if i == 1166 { 129u32 } else { 2147483647u32 } } else { if i < 1184 { if i == 1171 { 129u32 } else { 2147483647u32 } } else { if i == 1184 { 133u32 } else { 2147483647u32 } } } }
            } else {
                if i < 1230 { if i < 1203 { if i == 1198 { 133u32 } else { 2147483647u32 } } else { if i < 1216 { if i == 1203 { 133u32 } else { 2147483647u32 } } else { if i == 1216 { 137u32 } else { 2147483647u32 } } } } else { if i < 1235 { if i == 1230 { 137u32 } else { 2147483647u32 } } else { if i < 1248 { if i == 1235 { 137u32 } else { 2147483647u32 } } else { if i == 1248 { 143u32 } else { 2147483647u32 } } } }
            }
        } else {
            if i < 1326 {
                if i < 1294 { if i < 1267 { if i == 1262 { 143u32 } else { 2147483647u32 } } else { if i < 1280 { if i == 1267 { 143u32 } else { 2147483647u32 } } else { if i == 1280 { 149u32 } else { 2147483647u32 } } } } else { if i < 1299 { if i == 1294 { 149u32 } else { 2147483647u32 } } else { if i < 1312 { if i == 1299 { 149u32 } else { 2147483647u32 } } else { if i == 1312 { 161u32 } else { 2147483647u32 } } } }
            } else {
                if i < 1358 { if i < 1331 { if i == 1326 { 161u32 } else { 2147483647u32 } } else { if i < 1344 { if i == 1331 { 161u32 } else { 2147483647u32 } } else { if i == 1344 { 165u32 } else { 2147483647u32 } } } } else { if i < 1363 { if i == 1358 { 165u32 } else { 2147483647u32 } } else { if i < 1376 { if i == 1363 { 165u32 } else { 2147483647u32 } } else { if i == 1376 { 169u32 } else { 2147483647u32 } } } }
            }
        }
    }
}

pub open spec fn spec_check_part_4(i: int) -> u32 {
    if i < 1646 {
        if i < 1518 {
            if i < 1454 {
                if i < 1422 { if i < 1395 { if i == 1390 { 169u32 } else { 2147483647u32 } } else { if i < 1408 { if i == 1395 { 169u32 } else { 2147483647u32 } } else { if i == 1408 { 175u32 } else { 2147483647u32 } } } } else { if i < 1427 { if i == 1422 { 175u32 } else { 2147483647u32 } } else { if i < 1440 { if i == 1427 { 175u32 } else { 2147483647u32 } } else { if i == 1440 { 181u32 } else { 2147483647u32 } } } }
            } else {
                if i < 1486 { if i < 1459 { if i == 1454 { 181u32 } else { 2147483647u32 } } else { if i < 1472 { if i == 1459 { 181u32 } else { 2147483647u32 } } else { if i == 1472 { 193u32 } else { 2147483647u32 } } } } else { if i < 1491 { if i == 1486 { 193u32 } else { 2147483647u32 } } else { if i < 1504 { if i == 1491 { 193u32 } else { 2147483647u32 } } else { if i == 1504 { 197u32 } else { 2147483647u32 } } } }
            }
        } else {
            if i < 1582 {
                if i < 1550 { if i < 1523 { if i == 1518 { 197u32 } else { 2147483647u32 } } else { if i < 1536 { if i == 1523 { 197u32 } else { 2147483647u32 } } else { if i == 1536 { 201u32 } else { 2147483647u32 } } } } else { if i < 1555 { if i == 1550 { 201u32 } else { 2147483647u32 } } else { if i < 1568 { if i == 1555 { 201u32 } else { 2147483647u32 } } else { if i == 1568 { 207u32 } else { 2147483647u32 } } } }
            } else {
                if i < 1614 { if i < 1587 { if i == 1582 { 207u32 } else { 2147483647u32 } } else { if i < 1600 { if i == 1587 { 207u32 } else { 2147483647u32 } } else { if i == 1600 { 213u32 } else { 2147483647u32 } } } } else { if i < 1619 { if i == 1614 { 213u32 } else { 2147483647u32 } } else { if i < 1632 { if i == 1619 { 213u32 } else { 2147483647u32 } } else { if i == 1632 { 225u32 } else { 2147483647u32 } } } }
            }
        }
    } else {
        if i < 1774 {
            if i < 1710 {
                if i < 1678 { if i < 1651 { if i == 1646 { 225u32 } else { 2147483647u32 } } else { if i < 1664 { if i == 1651 { 225u32 } else { 2147483647u32 } } else { if i == 1664 { 229u32 } else { 2147483647u32 } } } } else { if i < 1683 { if i == 1678 { 229u32 } else { 2147483647u32 } } else { if i < 1696 { if i == 1683 { 229u32 } else { 2147483647u32 } } else { if i == 1696 { 233u32 } else { 2147483647u32 } } } }
            } else {
                if i < 1742 { if i < 1715 { if i == 1710 { 233u32 } else { 2147483647u32 } } else { if i < 1728 { if i == 1715 { 233u32 } else { 2147483647u32 } } else { if i == 1728 { 239u32 } else { 2147483647u32 } } } } else { if i < 1747 { if i == 1742 { 239u32 } else { 2147483647u32 } } else { if i < 1760 { if i == 1747 { 239u32 } else { 2147483647u32 } } else { if i == 1760 { 245u32 } else { 2147483647u32 } } } }
            }
        } else {
            if i < 1838 {
                if i < 1806 { if i < 1779 { if i == 1774 { 245u32 } else { 2147483647u32 } } else { if i < 1792 { if i == 1779 { 245u32 } else { 2147483647u32 } } else { if i == 1792 { 257u32 } else { 2147483647u32 } } } } else { if i < 1811 { if i == 1806 { 257u32 } else { 2147483647u32 } } else { if i < 1824 { if i == 1811 { 257u32 } else { 2147483647u32 } } else { if i == 1824 { 261u32 } else { 2147483647u32 } } } }
            } else {
                if i < 1870 { if i < 1843 { if i == 1838 { 261u32 } else { 2147483647u32 } } else { if i < 1856 { if i == 1843 { 261u32 } else { 2147483647u32 } } else { if i == 1856 { 265u32 } else { 2147483647u32 } } } } else { if i < 1875 { if i == 1870 { 265u32 } else { 2147483647u32 } } else { if i < 1888 { if i == 1875 { 265u32 } else { 2147483647u32 } } else { if i == 1888 { 271u32 } else { 2147483647u32 } } } }
            }
        }
    }
}

pub open spec fn spec_check_part_5(i: int) -> u32 {
    if i < 2158 {
        if i < 2030 {
            if i < 1966 {
                if i < 1934 { if i < 1907 { if i == 1902 { 271u32 } else { 2147483647u32 } } else { if i < 1920 { if i == 1907 { 271u32 } else { 2147483647u32 } } else { if i == 1920 { 277u32 } else { 2147483647u32 } } } } else { if i < 1939 { if i == 1934 { 277u32 } else { 2147483647u32 } } else { if i < 1952 { if i == 1939 { 277u32 } else { 2147483647u32 } } else { if i == 1952 { 289u32 } else { 2147483647u32 } } } }
            } else {
                if i < 1998 { if i < 1971 { if i == 1966 { 289u32 } else { 2147483647u32 } } else { if i < 1984 { if i == 1971 { 289u32 } else { 2147483647u32 } } else { if i == 1984 { 293u32 } else { 2147483647u32 } } } } else { if i < 2003 { if i == 1998 { 293u32 } else { 2147483647u32 } } else { if i < 2016 { if i == 2003 { 293u32 } else { 2147483647u32 } } else { if i == 2016 { 297u32 } else { 2147483647u32 } } } }
            }
        } else {
            if i < 2094 {
                if i < 2062 { if i < 2035 { if i == 2030 { 297u32 } else { 2147483647u32 } } else { if i < 2048 { if i == 2035 { 297u32 } else { 2147483647u32 } } else { if i == 2048 { 303u32 } else { 2147483647u32 } } } } else { if i < 2067 { if i == 2062 { 303u32 } else { 2147483647u32 } } else { if i < 2080 { if i == 2067 { 303u32 } else { 2147483647u32 } } else { if i == 2080 { 309u32 } else { 2147483647u32 } } } }
            } else {
                if i < 2126 { if i < 2099 { if i == 2094 { 309u32 } else { 2147483647u32 } } else { if i < 2112 { if i == 2099 { 309u32 } else { 2147483647u32 } } else { if i == 2112 { 321u32 } else { 2147483647u32 } } } } else { if i < 2131 { if i == 2126 { 321u32 } else { 2147483647u32 } } else { if i < 2144 { if i == 2131 { 321u32 } else { 2147483647u32 } } else { if i == 2144 { 325u32 } else { 2147483647u32 } } } }
            }
        }
    } else {
        if i < 2304 {
            if i < 2222 {
                if i < 2190 { if i < 2163 { if i == 2158 { 325u32 } else { 2147483647u32 } } else { if i < 2176 { if i == 2163 { 325u32 } else { 2147483647u32 } } else { if i == 2176 { 329u32 } else { 2147483647u32 } } } } else { if i < 2195 { if i == 2190 { 329u32 } else { 2147483647u32 } } else { if i < 2208 { if i == 2195 { 329u32 } else { 2147483647u32 } } else { if i == 2208 { 335u32 } else { 2147483647u32 } } } }
            } else {
                if i < 2254 { if i < 2227 { if i == 2222 { 335u32 } else { 2147483647u32 } } else { if i < 2240 { if i == 2227 { 335u32 } else { 2147483647u32 } } else { if i == 2240 { 341u32 } else { 2147483647u32 } } } } else { if i < 2272 { if i == 2254 { 341u32 } else { 2147483647u32 } } else { if i < 2286 { if i == 2272 { 353u32 } else { 2147483647u32 } } else { if i == 2286 { 353u32 } else { 2147483647u32 } } } }
            }
        } else {
            if i < 2400 {
                if i < 2350 { if i < 2318 { if i == 2304 { 357u32 } else { 2147483647u32 } } else { if i < 2336 { if i == 2318 { 357u32 } else { 2147483647u32 } } else { if i == 2336 { 361u32 } else { 2147483647u32 } } } } else { if i < 2368 { if i == 2350 { 361u32 } else { 2147483647u32 } } else { if i < 2382 { if i == 2368 { 367u32 } else { 2147483647u32 } } else { if i == 2382 { 367u32 } else { 2147483647u32 } } } }
            } else {
                if i < 2446 { if i < 2414 { if i == 2400 { 373u32 } else { 2147483647u32 } } else { if i < 2432 { if i == 2414 { 373u32 } else { 2147483647u32 } } else { if i == 2432 { 385u32 } else { 2147483647u32 } } } } else { if i < 2464 { if i == 2446 { 385u32 } else { 2147483647u32 } } else { if i < 2478 { if i == 2464 { 389u32 } else { 2147483647u32 } } else { if i == 2478 { 389u32 } else { 2147483647u32 } } } }
            }
        }
    }
}

pub open spec fn spec_check_part_6(i: int) -> u32 {
    if i < 2862 {
        if i < 2688 {
            if i < 2592 {
                if i < 2542 { if i < 2510 { if i == 2496 { 393u32 } else { 2147483647u32 } } else { if i < 2528 { if i == 2510 { 393u32 } else { 2147483647u32 } } else { if i == 2528 { 399u32 } else { 2147483647u32 } } } } else { if i < 2560 { if i == 2542 { 399u32 } else { 2147483647u32 } } else { if i < 2574 { if i == 2560 { 405u32 } else { 2147483647u32 } } else { if i == 2574 { 405u32 } else { 2147483647u32 } } } }
            } else {
                if i < 2638 { if i < 2606 { if i == 2592 { 417u32 } else { 2147483647u32 } } else { if i < 2624 { if i == 2606 { 417u32 } else { 2147483647u32 } } else { if i == 2624 { 421u32 } else { 2147483647u32 } } } } else { if i < 2656 { if i == 2638 { 421u32 } else { 2147483647u32 } } else { if i < 2670 { if i == 2656 { 425u32 } else { 2147483647u32 } } else { if i == 2670 { 425u32 } else { 2147483647u32 } } } }
            }
        } else {
            if i < 2784 {
                if i < 2734 { if i < 2702 { if i == 2688 { 431u32 } else { 2147483647u32 } } else { if i < 2720 { if i == 2702 { 431u32 } else { 2147483647u32 } } else { if i == 2720 { 437u32 } else { 2147483647u32 } } } } else { if i < 2752 { if i == 2734 { 437u32 } else { 2147483647u32 } } else { if i < 2766 { if i == 2752 { 449u32 } else { 2147483647u32 } } else { if i == 2766 { 449u32 } else { 2147483647u32 } } } }
            } else {
                if i < 2830 { if i < 2798 { if i == 2784 { 453u32 } else { 2147483647u32 } } else { if i < 2816 { if i == 2798 { 453u32 } else { 2147483647u32 } } else { if i == 2816 { 457u32 } else { 2147483647u32 } } } } else { if i < 2838 { if i == 2830 { 457u32 } else { 2147483647u32 } } else { if i < 2848 { if i == 2838 { 457u32 } else { 2147483647u32 } } else { if i == 2848 { 463u32 } else { 2147483647u32 } } } }
            }
        }
    } else {
        if i < 3040 {
            if i < 2958 {
                if i < 2912 { if i < 2880 { if i == 2862 { 463u32 } else { 2147483647u32 } } else { if i < 2894 { if i == 2880 { 469u32 } else { 2147483647u32 } } else { if i == 2894 { 469u32 } else { 2147483647u32 } } } } else { if i < 2926 { if i == 2912 { 481u32 } else { 2147483647u32 } } else { if i < 2944 { if i == 2926 { 481u32 } else { 2147483647u32 } } else { if i == 2944 { 485u32 } else { 2147483647u32 } } } }
            } else {
                if i < 2998 { if i < 2976 { if i == 2958 { 485u32 } else { 2147483647u32 } } else { if i < 2990 { if i == 2976 { 489u32 } else { 2147483647u32 } } else { if i == 2990 { 489u32 } else { 2147483647u32 } } } } else { if i < 3008 { if i == 2998 { 489u32 } else { 2147483647u32 } } else { if i < 3022 { if i == 3008 { 495u32 } else { 2147483647u32 } } else { if i == 3022 { 495u32 } else { 2147483647u32 } } } }
            }
        } else {
            if i < 3136 {
                if i < 3086 { if i < 3054 { if i == 3040 { 501u32 } else { 2147483647u32 } } else { if i < 3072 { if i == 3054 { 501u32 } else { 2147483647u32 } } else { if i == 3072 { 513u32 } else { 2147483647u32 } } } } else { if i < 3104 { if i == 3086 { 513u32 } else { 2147483647u32 } } else { if i < 3118 { if i == 3104 { 517u32 } else { 2147483647u32 } } else { if i == 3118 { 517u32 } else { 2147483647u32 } } } }
            } else {
                if i < 3182 { if i < 3150 { if i == 3136 { 521u32 } else { 2147483647u32 } } else { if i < 3168 { if i == 3150 { 521u32 } else { 2147483647u32 } } else { if i == 3168 { 527u32 } else { 2147483647u32 } } } } else { if i < 3200 { if i == 3182 { 527u32 } else { 2147483647u32 } } else { if i < 3214 { if i == 3200 { 533u32 } else { 2147483647u32 } } else { if i == 3214 { 533u32 } else { 2147483647u32 } } } }
            }
        }
    }
}

pub open spec fn spec_check_part_7(i: int) -> u32 {
    if i < 3566 {
        if i < 3392 {
            if i < 3310 {
                if i < 3264 { if i < 3246 { if i == 3232 { 545u32 } else { 2147483647u32 } } else { if i == 3246 { 545u32 } else { 2147483647u32 } } } else { if i < 3278 { if i == 3264 { 549u32 } else { 2147483647u32 } } else { if i < 3296 { if i == 3278 { 549u32 } else { 2147483647u32 } } else { if i == 3296 { 553u32 } else { 2147483647u32 } } } }
            } else {
                if i < 3342 { if i < 3328 { if i == 3310 { 553u32 } else { 2147483647u32 } } else { if i == 3328 { 559u32 } else { 2147483647u32 } } } else { if i < 3360 { if i == 3342 { 559u32 } else { 2147483647u32 } } else { if i < 3374 { if i == 3360 { 565u32 } else { 2147483647u32 } } else { if i == 3374 { 565u32 } else { 2147483647u32 } } } }
            }
        } else {
            if i < 3470 {
                if i < 3424 { if i < 3406 { if i == 3392 { 577u32 } else { 2147483647u32 } } else { if i == 3406 { 577u32 } else { 2147483647u32 } } } else { if i < 3438 { if i == 3424 { 581u32 } else { 2147483647u32 } } else { if i < 3456 { if i == 3438 { 581u32 } else { 2147483647u32 } } else { if i == 3456 { 585u32 } else { 2147483647u32 } } } }
            } else {
                if i < 3520 { if i < 3488 { if i == 3470 { 585u32 } else { 2147483647u32 } } else { if i < 3502 { if i == 3488 { 591u32 } else { 2147483647u32 } } else { if i == 3502 { 591u32 } else { 2147483647u32 } } } } else { if i < 3534 { if i == 3520 { 597u32 } else { 2147483647u32 } } else { if i < 3552 { if i == 3534 { 597u32 } else { 2147483647u32 } } else { if i == 3552 { 609u32 } else { 2147483647u32 } } } }
            }
        }
    } else {
        if i < 3726 {
            if i < 3648 {
                if i < 3598 { if i < 3584 { if i == 3566 { 609u32 } else { 2147483647u32 } } else { if i == 3584 { 613u32 } else { 2147483647u32 } } } else { if i < 3616 { if i == 3598 { 613u32 } else { 2147483647u32 } } else { if i < 3630 { if i == 3616 { 617u32 } else { 2147483647u32 } } else { if i == 3630 { 617u32 } else { 2147483647u32 } } } }
            } else {
                if i < 3680 { if i < 3662 { if i == 3648 { 623u32 } else { 2147483647u32 } } else { if i == 3662 { 623u32 } else { 2147483647u32 } } } else { if i < 3694 { if i == 3680 { 629u32 } else { 2147483647u32 } } else { if i < 3712 { if i == 3694 { 629u32 } else { 2147483647u32 } } else { if i == 3712 { 641u32 } else { 2147483647u32 } } } }
            }
        } else {
            if i < 3808 {
                if i < 3758 { if i < 3744 { if i == 3726 { 641u32 } else { 2147483647u32 } } else { if i == 3744 { 645u32 } else { 2147483647u32 } } } else { if i < 3776 { if i == 3758 { 645u32 } else { 2147483647u32 } } else { if i < 3790 { if i == 3776 { 649u32 } else { 2147483647u32 } } else { if i == 3790 { 649u32 } else { 2147483647u32 } } } }
            } else {
                if i < 3854 { if i < 3822 { if i == 3808 { 655u32 } else { 2147483647u32 } } else { if i < 3840 { if i == 3822 { 655u32 } else { 2147483647u32 } } else { if i == 3840 { 661u32 } else { 2147483647u32 } } } } else { if i < 3877 { if i == 3854 { 661u32 } else { 2147483647u32 } } else { if i < 3909 { if i == 3877 { 2838u32 } else { 2147483647u32 } } else { if i == 3909 { 2998u32 } else { 2147483647u32 } } } }
            }
        }
    }
}

/// Entry of the trie's check array; slots that belong to no node hold
/// `NO_PARENT`, so transitions into them are rejected.
pub open spec fn spec_check(i: int) -> u32 {
    if i < 175 {
        spec_check_part_0(i)
    } else if i < 485 {
        spec_check_part_1(i)
    } else if i < 878 {
        spec_check_part_2(i)
    } else if i < 1390 {
        spec_check_part_3(i)
    } else if i < 1902 {
        spec_check_part_4(i)
    } else if i < 2496 {
        spec_check_part_5(i)
    } else if i < 3232 {
        spec_check_part_6(i)
    } else {
        spec_check_part_7(i)
    }
}

/// Reads the check array.
pub fn check_entry(i: usize) -> (r: u32)
    ensures
        r == spec_check(i as int),
{
    if i < 175 {
        if i < 26 {
            if i < 13 {
                if i < 7 { if i < 4 { if i < 2 { if i == 1 { 0u32 } else { 2147483647u32 } } else { if i < 3 { if i == 2 { 0u32 } else { 2147483647u32 } } else { if i == 3 { 0u32 } else { 2147483647u32 } } } } else { if i < 5 { if i == 4 { 0u32 } else { 2147483647u32 } } else { if i < 6 { if i == 5 { 0u32 } else { 2147483647u32 } } else { if i == 6 { 0u32 } else { 2147483647u32 } } } } } else { if i < 10 { if i < 8 { if i == 7 { 0u32 } else { 2147483647u32 } } else { if i < 9 { if i == 8 { 0u32 } else { 2147483647u32 } } else { if i == 9 { 0u32 } else { 2147483647u32 } } } } else { if i < 11 { if i == 10 { 0u32 } else { 2147483647u32 } } else { if i < 12 { if i == 11 { 0u32 } else { 2147483647u32 } } else { if i == 12 { 0u32 } else { 2147483647u32 } } } } }
            } else {
                if i < 20 { if i < 16 { if i < 14 { if i == 13 { 0u32 } else { 2147483647u32 } } else { if i < 15 { if i == 14 { 0u32 } else { 2147483647u32 } } else { if i == 15 { 0u32 } else { 2147483647u32 } } } } else { if i < 18 { if i == 16 { 0u32 } else { 2147483647u32 } } else { if i < 19 { if i == 18 { 0u32 } else { 2147483647u32 } } else { if i == 19 { 0u32 } else { 2147483647u32 } } } } } else { if i < 23 { if i < 21 { if i == 20 { 0u32 } else { 2147483647u32 } } else { if i < 22 { if i == 21 { 0u32 } else { 2147483647u32 } } else { if i == 22 { 0u32 } else { 2147483647u32 } } } } else { if i < 24 { if i == 23 { 0u32 } else { 2147483647u32 } } else { if i < 25 { if i == 24 { 0u32 } else { 2147483647u32 } } else { if i == 25 { 0u32 } else { 2147483647u32 } } } } }
            }
        } else {
            if i < 101 {
                if i < 65 { if i < 41 { if i < 33 { if i == 26 { 0u32 } else { 2147483647u32 } } else { if i < 37 { if i == 33 { 2147483650u32 } else { 2147483647u32 } } else { if i == 37 { 2147483650u32 } else { 2147483647u32 } } } } else { if i < 47 { if i == 41 { 2147483650u32 } else { 2147483647u32 } } else { if i < 53 { if i == 47 { 2147483650u32 } else { 2147483647u32 } } else { if i == 53 { 2147483650u32 } else { 2147483647u32 } } } } } else { if i < 79 { if i < 69 { if i == 65 { 2147483651u32 } else { 2147483647u32 } } else { if i < 73 { if i == 69 { 2147483651u32 } else { 2147483647u32 } } else { if i == 73 { 2147483651u32 } else { 2147483647u32 } } } } else { if i < 85 { if i == 79 { 2147483651u32 } else { 2147483647u32 } } else { if i < 97 { if i == 85 { 2147483651u32 } else { 2147483647u32 } } else { if i == 97 { 2147483652u32 } else { 2147483647u32 } } } } }
            } else {
                if i < 137 { if i < 117 { if i < 105 { if i == 101 { 2147483652u32 } else { 2147483647u32 } } else { if i < 111 { if i == 105 { 2147483652u32 } else { 2147483647u32 } } else { if i == 111 { 2147483652u32 } else { 2147483647u32 } } } } else { if i < 129 { if i == 117 { 2147483652u32 } else { 2147483647u32 } } else { if i < 133 { if i == 129 { 2147483654u32 } else { 2147483647u32 } } else { if i == 133 { 2147483654u32 } else { 2147483647u32 } } } } } else { if i < 161 { if i < 143 { if i == 137 { 2147483654u32 } else { 2147483647u32 } } else { if i < 149 { if i == 143 { 2147483654u32 } else { 2147483647u32 } } else { if i == 149 { 2147483654u32 } else { 2147483647u32 } } } } else { if i < 165 { if i == 161 { 2147483655u32 } else { 2147483647u32 } } else { if i < 169 { if i == 165 { 2147483655u32 } else { 2147483647u32 } } else { if i == 169 { 2147483655u32 } else { 2147483647u32 } } } } }
            }
        }
    } else if i < 485 {
        if i < 329 {
            if i < 257 {
                if i < 213 { if i < 197 { if i < 181 { if i == 175 { 2147483655u32 } else { 2147483647u32 } } else { if i < 193 { if i == 181 { 2147483655u32 } else { 2147483647u32 } } else { if i == 193 { 2147483656u32 } else { 2147483647u32 } } } } else { if i < 201 { if i == 197 { 2147483656u32 } else { 2147483647u32 } } else { if i < 207 { if i == 201 { 2147483656u32 } else { 2147483647u32 } } else { if i == 207 { 2147483656u32 } else { 2147483647u32 } } } } } else { if i < 233 { if i < 225 { if i == 213 { 2147483656u32 } else { 2147483647u32 } } else { if i < 229 { if i == 225 { 2147483658u32 } else { 2147483647u32 } } else { if i == 229 { 2147483658u32 } else { 2147483647u32 } } } } else { if i < 239 { if i == 233 { 2147483658u32 } else { 2147483647u32 } } else { if i < 245 { if i == 239 { 2147483658u32 } else { 2147483647u32 } } else { if i == 245 { 2147483658u32 } else { 2147483647u32 } } } } }
            } else {
                if i < 293 { if i < 271 { if i < 261 { if i == 257 { 2147483659u32 } else { 2147483647u32 } } else { if i < 265 { if i == 261 { 2147483659u32 } else { 2147483647u32 } } else { if i == 265 { 2147483659u32 } else { 2147483647u32 } } } } else { if i < 277 { if i == 271 { 2147483659u32 } else { 2147483647u32 } } else { if i < 289 { if i == 277 { 2147483659u32 } else { 2147483647u32 } } else { if i == 289 { 2147483660u32 } else { 2147483647u32 } } } } } else { if i < 309 { if i < 297 { if i == 293 { 2147483660u32 } else { 2147483647u32 } } else { if i < 303 { if i == 297 { 2147483660u32 } else { 2147483647u32 } } else { if i == 303 { 2147483660u32 } else { 2147483647u32 } } } } else { if i < 321 { if i == 309 { 2147483660u32 } else { 2147483647u32 } } else { if i < 325 { if i == 321 { 2147483661u32 } else { 2147483647u32 } } else { if i == 325 { 2147483661u32 } else { 2147483647u32 } } } } }
            }
        } else {
            if i < 405 {
                if i < 367 { if i < 353 { if i < 335 { if i == 329 { 2147483661u32 } else { 2147483647u32 } } else { if i < 341 { if i == 335 { 2147483661u32 } else { 2147483647u32 } } else { if i == 341 { 2147483661u32 } else { 2147483647u32 } } } } else { if i < 357 { if i == 353 { 2147483662u32 } else { 2147483647u32 } } else { if i < 361 { if i == 357 { 2147483662u32 } else { 2147483647u32 } } else { if i == 361 { 2147483662u32 } else { 2147483647u32 } } } } } else { if i < 389 { if i < 373 { if i == 367 { 2147483662u32 } else { 2147483647u32 } } else { if i < 385 { if i == 373 { 2147483662u32 } else { 2147483647u32 } } else { if i == 385 { 2147483664u32 } else { 2147483647u32 } } } } else { if i < 393 { if i == 389 { 2147483664u32 } else { 2147483647u32 } } else { if i < 399 { if i == 393 { 2147483664u32 } else { 2147483647u32 } } else { if i == 399 { 2147483664u32 } else { 2147483647u32 } } } } }
            } else {
                if i < 449 { if i < 425 { if i < 417 { if i == 405 { 2147483664u32 } else { 2147483647u32 } } else { if i < 421 { if i == 417 { 2147483666u32 } else { 2147483647u32 } } else { if i == 421 { 2147483666u32 } else { 2147483647u32 } } } } else { if i < 431 { if i == 425 { 2147483666u32 } else { 2147483647u32 } } else { if i < 437 { if i == 431 { 2147483666u32 } else { 2147483647u32 } } else { if i == 437 { 2147483666u32 } else { 2147483647u32 } } } } } else { if i < 463 { if i < 453 { if i == 449 { 2147483667u32 } else { 2147483647u32 } } else { if i < 457 { if i == 453 { 2147483667u32 } else { 2147483647u32 } } else { if i == 457 { 2147483667u32 } else { 2147483647u32 } } } } else { if i < 469 { if i == 463 { 2147483667u32 } else { 2147483647u32 } } else { if i < 481 { if i == 469 { 2147483667u32 } else { 2147483647u32 } } else { if i == 481 { 2147483668u32 } else { 2147483647u32 } } } } }
            }
        }
    } else if i < 878 {
        if i < 641 {
            if i < 559 {
                if i < 521 { if i < 501 { if i < 489 { if i == 485 { 2147483668u32 } else { 2147483647u32 } } else { if i < 495 { if i == 489 { 2147483668u32 } else { 2147483647u32 } } else { if i == 495 { 2147483668u32 } else { 2147483647u32 } } } } else { if i < 513 { if i == 501 { 2147483668u32 } else { 2147483647u32 } } else { if i < 517 { if i == 513 { 2147483670u32 } else { 2147483647u32 } } else { if i == 517 { 2147483670u32 } else { 2147483647u32 } } } } } else { if i < 545 { if i < 527 { if i == 521 { 2147483670u32 } else { 2147483647u32 } } else { if i < 533 { if i == 527 { 2147483670u32 } else { 2147483647u32 } } else { if i == 533 { 2147483670u32 } else { 2147483647u32 } } } } else { if i < 549 { if i == 545 { 2147483671u32 } else { 2147483647u32 } } else { if i < 553 { if i == 549 { 2147483671u32 } else { 2147483647u32 } } else { if i == 553 { 2147483671u32 } else { 2147483647u32 } } } } }
            } else {
                if i < 597 { if i < 581 { if i < 565 { if i == 559 { 2147483671u32 } else { 2147483647u32 } } else { if i < 577 { if i == 565 { 2147483671u32 } else { 2147483647u32 } } else { if i == 577 { 2147483672u32 } else { 2147483647u32 } } } } else { if i < 585 { if i == 581 { 2147483672u32 } else { 2147483647u32 } } else { if i < 591 { if i == 585 { 2147483672u32 } else { 2147483647u32 } } else { if i == 591 { 2147483672u32 } else { 2147483647u32 } } } } } else { if i < 617 { if i < 609 { if i == 597 { 2147483672u32 } else { 2147483647u32 } } else { if i < 613 { if i == 609 { 2147483673u32 } else { 2147483647u32 } } else { if i == 613 { 2147483673u32 } else { 2147483647u32 } } } } else { if i < 623 { if i == 617 { 2147483673u32 } else { 2147483647u32 } } else { if i < 629 { if i == 623 { 2147483673u32 } else { 2147483647u32 } } else { if i == 629 { 2147483673u32 } else { 2147483647u32 } } } } }
            }
        } else {
            if i < 750 {
                if i < 686 { if i < 655 { if i < 645 { if i == 641 { 2147483674u32 } else { 2147483647u32 } } else { if i < 649 { if i == 645 { 2147483674u32 } else { 2147483647u32 } } else { if i == 649 { 2147483674u32 } else { 2147483647u32 } } } } else { if i < 661 { if i == 655 { 2147483674u32 } else { 2147483647u32 } } else { if i < 672 { if i == 661 { 2147483674u32 } else { 2147483647u32 } } else { if i == 672 { 33u32 } else { 2147483647u32 } } } } } else { if i < 718 { if i < 691 { if i == 686 { 33u32 } else { 2147483647u32 } } else { if i < 704 { if i == 691 { 33u32 } else { 2147483647u32 } } else { if i == 704 { 37u32 } else { 2147483647u32 } } } } else { if i < 723 { if i == 718 { 37u32 } else { 2147483647u32 } } else { if i < 736 { if i == 723 { 37u32 } else { 2147483647u32 } } else { if i == 736 { 41u32 } else { 2147483647u32 } } } } }
            } else {
                if i < 814 { if i < 782 { if i < 755 { if i == 750 { 41u32 } else { 2147483647u32 } } else { if i < 768 { if i == 755 { 41u32 } else { 2147483647u32 } } else { if i == 768 { 47u32 } else { 2147483647u32 } } } } else { if i < 787 { if i == 782 { 47u32 } else { 2147483647u32 } } else { if i < 800 { if i == 787 { 47u32 } else { 2147483647u32 } } else { if i == 800 { 53u32 } else { 2147483647u32 } } } } } else { if i < 846 { if i < 819 { if i == 814 { 53u32 } else { 2147483647u32 } } else { if i < 832 { if i == 819 { 53u32 } else { 2147483647u32 } } else { if i == 832 { 65u32 } else { 2147483647u32 } } } } else { if i < 851 { if i == 846 { 65u32 } else { 2147483647u32 } } else { if i < 864 { if i == 851 { 65u32 } else { 2147483647u32 } } else { if i == 864 { 69u32 } else { 2147483647u32 } } } } }
            }
        }
    } else if i < 1390 {
        if i < 1134 {
            if i < 1006 {
                if i < 942 { if i < 910 { if i < 883 { if i == 878 { 69u32 } else { 2147483647u32 } } else { if i < 896 { if i == 883 { 69u32 } else { 2147483647u32 } } else { if i == 896 { 73u32 } else { 2147483647u32 } } } } else { if i < 915 { if i == 910 { 73u32 } else { 2147483647u32 } } else { if i < 928 { if i == 915 { 73u32 } else { 2147483647u32 } } else { if i == 928 { 79u32 } else { 2147483647u32 } } } } } else { if i < 974 { if i < 947 { if i == 942 { 79u32 } else { 2147483647u32 } } else { if i < 960 { if i == 947 { 79u32 } else { 2147483647u32 } } else { if i == 960 { 85u32 } else { 2147483647u32 } } } } else { if i < 979 { if i == 974 { 85u32 } else { 2147483647u32 } } else { if i < 992 { if i == 979 { 85u32 } else { 2147483647u32 } } else { if i == 992 { 97u32 } else { 2147483647u32 } } } } }
            } else {
                if i < 1070 { if i < 1038 { if i < 1011 { if i == 1006 { 97u32 } else { 2147483647u32 } } else { if i < 1024 { if i == 1011 { 97u32 } else { 2147483647u32 } } else { if i == 1024 { 101u32 } else { 2147483647u32 } } } } else { if i < 1043 { if i == 1038 { 101u32 } else { 2147483647u32 } } else { if i < 1056 { if i == 1043 { 101u32 } else { 2147483647u32 } } else { if i == 1056 { 105u32 } else { 2147483647u32 } } } } } else { if i < 1102 { if i < 1075 { if i == 1070 { 105u32 } else { 2147483647u32 } } else { if i < 1088 { if i == 1075 { 105u32 } else { 2147483647u32 } } else { if i == 1088 { 111u32 } else { 2147483647u32 } } } } else { if i < 1107 { if i == 1102 { 111u32 } else { 2147483647u32 } } else { if i < 1120 { if i == 1107 { 111u32 } else { 2147483647u32 } } else { if i == 1120 { 117u32 } else { 2147483647u32 } } } } }
            }
        } else {
            if i < 1262 {
                if i < 1198 { if i < 1166 { if i < 1139 { if i == 1134 { 117u32 } else { 2147483647u32 } } else { if i < 1152 { if i == 1139 { 117u32 } else { 2147483647u32 } } else { if i == 1152 { 129u32 } else { 2147483647u32 } } } } else { if i < 1171 { if i == 1166 { 129u32 } else { 2147483647u32 } } else { if i < 1184 { if i == 1171 { 129u32 } else { 2147483647u32 } } else { if i == 1184 { 133u32 } else { 2147483647u32 } } } } } else { if i < 1230 { if i < 1203 { if i == 1198 { 133u32 } else { 2147483647u32 } } else { if i < 1216 { if i == 1203 { 133u32 } else { 2147483647u32 } } else { if i == 1216 { 137u32 } else { 2147483647u32 } } } } else { if i < 1235 { if i == 1230 { 137u32 } else { 2147483647u32 } } else { if i < 1248 { if i == 1235 { 137u32 } else { 2147483647u32 } } else { if i == 1248 { 143u32 } else { 2147483647u32 } } } } }
            } else {
                if i < 1326 { if i < 1294 { if i < 1267 { if i == 1262 { 143u32 } else { 2147483647u32 } } else { if i < 1280 { if i == 1267 { 143u32 } else { 2147483647u32 } } else { if i == 1280 { 149u32 } else { 2147483647u32 } } } } else { if i < 1299 { if i == 1294 { 149u32 } else { 2147483647u32 } } else { if i < 1312 { if i == 1299 { 149u32 } else { 2147483647u32 } } else { if i == 1312 { 161u32 } else { 2147483647u32 } } } } } else { if i < 1358 { if i < 1331 { if i == 1326 { 161u32 } else { 2147483647u32 } } else { if i < 1344 { if i == 1331 { 161u32 } else { 2147483647u32 } } else { if i == 1344 { 165u32 } else { 2147483647u32 } } } } else { if i < 1363 { if i == 1358 { 165u32 } else { 2147483647u32 } } else { if i < 1376 { if i == 1363 { 165u32 } else { 2147483647u32 } } else { if i == 1376 { 169u32 } else { 2147483647u32 } } } } }
            }
        }
    } else if i < 1902 {
        if i < 1646 {
            if i < 1518 {
                if i < 1454 { if i < 1422 { if i < 1395 { if i == 1390 { 169u32 } else { 2147483647u32 } } else { if i < 1408 { if i == 1395 { 169u32 } else { 2147483647u32 } } else { if i == 1408 { 175u32 } else { 2147483647u32 } } } } else { if i < 1427 { if i == 1422 { 175u32 } else { 2147483647u32 } } else { if i < 1440 { if i == 1427 { 175u32 } else { 2147483647u32 } } else { if i == 1440 { 181u32 } else { 2147483647u32 } } } } } else { if i < 1486 { if i < 1459 { if i == 1454 { 181u32 } else { 2147483647u32 } } else { if i < 1472 { if i == 1459 { 181u32 } else { 2147483647u32 } } else { if i == 1472 { 193u32 } else { 2147483647u32 } } } } else { if i < 1491 { if i == 1486 { 193u32 } else { 2147483647u32 } } else { if i < 1504 { if i == 1491 { 193u32 } else { 2147483647u32 } } else { if i == 1504 { 197u32 } else { 2147483647u32 } } } } }
            } else {
                if i < 1582 { if i < 1550 { if i < 1523 { if i == 1518 { 197u32 } else { 2147483647u32 } } else { if i < 1536 { if i == 1523 { 197u32 } else { 2147483647u32 } } else { if i == 1536 { 201u32 } else { 2147483647u32 } } } } else { if i < 1555 { if i == 1550 { 201u32 } else { 2147483647u32 } } else { if i < 1568 { if i == 1555 { 201u32 } else { 2147483647u32 } } else { if i == 1568 { 207u32 } else { 2147483647u32 } } } } } else { if i < 1614 { if i < 1587 { if i == 1582 { 207u32 } else { 2147483647u32 } } else { if i < 1600 { if i == 1587 { 207u32 } else { 2147483647u32 } } else { if i == 1600 { 213u32 } else { 2147483647u32 } } } } else { if i < 1619 { if i == 1614 { 213u32 } else { 2147483647u32 } } else { if i < 1632 { if i == 1619 { 213u32 } else { 2147483647u32 } } else { if i == 1632 { 225u32 } else { 2147483647u32 } } } } }
            }
        } else {
            if i < 1774 {
                if i < 1710 { if i < 1678 { if i < 1651 { if i == 1646 { 225u32 } else { 2147483647u32 } } else { if i < 1664 { if i == 1651 { 225u32 } else { 2147483647u32 } } else { if i == 1664 { 229u32 } else { 2147483647u32 } } } } else { if i < 1683 { if i == 1678 { 229u32 } else { 2147483647u32 } } else { if i < 1696 { if i == 1683 { 229u32 } else { 2147483647u32 } } else { if i == 1696 { 233u32 } else { 2147483647u32 } } } } } else { if i < 1742 { if i < 1715 { if i == 1710 { 233u32 } else { 2147483647u32 } } else { if i < 1728 { if i == 1715 { 233u32 } else { 2147483647u32 } } else { if i == 1728 { 239u32 } else { 2147483647u32 } } } } else { if i < 1747 { if i == 1742 { 239u32 } else { 2147483647u32 } } else { if i < 1760 { if i == 1747 { 239u32 } else { 2147483647u32 } } else { if i == 1760 { 245u32 } else { 2147483647u32 } } } } }
            } else {
                if i < 1838 { if i < 1806 { if i < 1779 { if i == 1774 { 245u32 } else { 2147483647u32 } } else { if i < 1792 { if i == 1779 { 245u32 } else { 2147483647u32 } } else { if i == 1792 { 257u32 } else { 2147483647u32 } } } } else { if i < 1811 { if i == 1806 { 257u32 } else { 2147483647u32 } } else { if i < 1824 { if i == 1811 { 257u32 } else { 2147483647u32 } } else { if i == 1824 { 261u32 } else { 2147483647u32 } } } } } else { if i < 1870 { if i < 1843 { if i == 1838 { 261u32 } else { 2147483647u32 } } else { if i < 1856 { if i == 1843 { 261u32 } else { 2147483647u32 } } else { if i == 1856 { 265u32 } else { 2147483647u32 } } } } else { if i < 1875 { if i == 1870 { 265u32 } else { 2147483647u32 } } else { if i < 1888 { if i == 1875 { 265u32 } else { 2147483647u32 } } else { if i == 1888 { 271u32 } else { 2147483647u32 } } } } }
            }
        }
    } else if i < 2496 {
        if i < 2158 {
            if i < 2030 {
                if i < 1966 { if i < 1934 { if i < 1907 { if i == 1902 { 271u32 } else { 2147483647u32 } } else { if i < 1920 { if i == 1907 { 271u32 } else { 2147483647u32 } } else { if i == 1920 { 277u32 } else { 2147483647u32 } } } } else { if i < 1939 { if i == 1934 { 277u32 } else { 2147483647u32 } } else { if i < 1952 { if i == 1939 { 277u32 } else { 2147483647u32 } } else { if i == 1952 { 289u32 } else { 2147483647u32 } } } } } else { if i < 1998 { if i < 1971 { if i == 1966 { 289u32 } else { 2147483647u32 } } else { if i < 1984 { if i == 1971 { 289u32 } else { 2147483647u32 } } else { if i == 1984 { 293u32 } else { 2147483647u32 } } } } else { if i < 2003 { if i == 1998 { 293u32 } else { 2147483647u32 } } else { if i < 2016 { if i == 2003 { 293u32 } else { 2147483647u32 } } else { if i == 2016 { 297u32 } else { 2147483647u32 } } } } }
            } else {
                if i < 2094 { if i < 2062 { if i < 2035 { if i == 2030 { 297u32 } else { 2147483647u32 } } else { if i < 2048 { if i == 2035 { 297u32 } else { 2147483647u32 } } else { if i == 2048 { 303u32 } else { 2147483647u32 } } } } else { if i < 2067 { if i == 2062 { 303u32 } else { 2147483647u32 } } else { if i < 2080 { if i == 2067 { 303u32 } else { 2147483647u32 } } else { if i == 2080 { 309u32 } else { 2147483647u32 } } } } } else { if i < 2126 { if i < 2099 { if i == 2094 { 309u32 } else { 2147483647u32 } } else { if i < 2112 { if i == 2099 { 309u32 } else { 2147483647u32 } } else { if i == 2112 { 321u32 } else { 2147483647u32 } } } } else { if i < 2131 { if i == 2126 { 321u32 } else { 2147483647u32 } } else { if i < 2144 { if i == 2131 { 321u32 } else { 2147483647u32 } } else { if i == 2144 { 325u32 } else { 2147483647u32 } } } } }
            }
        } else {
            if i < 2304 {
                if i < 2222 { if i < 2190 { if i < 2163 { if i == 2158 { 325u32 } else { 2147483647u32 } } else { if i < 2176 { if i == 2163 { 325u32 } else { 2147483647u32 } } else { if i == 2176 { 329u32 } else { 2147483647u32 } } } } else { if i < 2195 { if i == 2190 { 329u32 } else { 2147483647u32 } } else { if i < 2208 { if i == 2195 { 329u32 } else { 2147483647u32 } } else { if i == 2208 { 335u32 } else { 2147483647u32 } } } } } else { if i < 2254 { if i < 2227 { if i == 2222 { 335u32 } else { 2147483647u32 } } else { if i < 2240 { if i == 2227 { 335u32 } else { 2147483647u32 } } else { if i == 2240 { 341u32 } else { 2147483647u32 } } } } else { if i < 2272 { if i == 2254 { 341u32 } else { 2147483647u32 } } else { if i < 2286 { if i == 2272 { 353u32 } else { 2147483647u32 } } else { if i == 2286 { 353u32 } else { 2147483647u32 } } } } }
            } else {
                if i < 2400 { if i < 2350 { if i < 2318 { if i == 2304 { 357u32 } else { 2147483647u32 } } else { if i < 2336 { if i == 2318 { 357u32 } else { 2147483647u32 } } else { if i == 2336 { 361u32 } else { 2147483647u32 } } } } else { if i < 2368 { if i == 2350 { 361u32 } else { 2147483647u32 } } else { if i < 2382 { if i == 2368 { 367u32 } else { 2147483647u32 } } else { if i == 2382 { 367u32 } else { 2147483647u32 } } } } } else { if i < 2446 { if i < 2414 { if i == 2400 { 373u32 } else { 2147483647u32 } } else { if i < 2432 { if i == 2414 { 373u32 } else { 2147483647u32 } } else { if i == 2432 { 385u32 } else { 2147483647u32 } } } } else { if i < 2464 { if i == 2446 { 385u32 } else { 2147483647u32 } } else { if i < 2478 { if i == 2464 { 389u32 } else { 2147483647u32 } } else { if i == 2478 { 389u32 } else { 2147483647u32 } } } } }
            }
        }
    } else if i < 3232 {
        if i < 2862 {
            if i < 2688 {
                if i < 2592 { if i < 2542 { if i < 2510 { if i == 2496 { 393u32 } else { 2147483647u32 } } else { if i < 2528 { if i == 2510 { 393u32 } else { 2147483647u32 } } else { if i == 2528 { 399u32 } else { 2147483647u32 } } } } else { if i < 2560 { if i == 2542 { 399u32 } else { 2147483647u32 } } else { if i < 2574 { if i == 2560 { 405u32 } else { 2147483647u32 } } else { if i == 2574 { 405u32 } else { 2147483647u32 } } } } } else { if i < 2638 { if i < 2606 { if i == 2592 { 417u32 } else { 2147483647u32 } } else { if i < 2624 { if i == 2606 { 417u32 } else { 2147483647u32 } } else { if i == 2624 { 421u32 } else { 2147483647u32 } } } } else { if i < 2656 { if i == 2638 { 421u32 } else { 2147483647u32 } } else { if i < 2670 { if i == 2656 { 425u32 } else { 2147483647u32 } } else { if i == 2670 { 425u32 } else { 2147483647u32 } } } } }
            } else {
                if i < 2784 { if i < 2734 { if i < 2702 { if i == 2688 { 431u32 } else { 2147483647u32 } } else { if i < 2720 { if i == 2702 { 431u32 } else { 2147483647u32 } } else { if i == 2720 { 437u32 } else { 2147483647u32 } } } } else { if i < 2752 { if i == 2734 { 437u32 } else { 2147483647u32 } } else { if i < 2766 { if i == 2752 { 449u32 } else { 2147483647u32 } } else { if i == 2766 { 449u32 } else { 2147483647u32 } } } } } else { if i < 2830 { if i < 2798 { if i == 2784 { 453u32 } else { 2147483647u32 } } else { if i < 2816 { if i == 2798 { 453u32 } else { 2147483647u32 } } else { if i == 2816 { 457u32 } else { 2147483647u32 } } } } else { if i < 2838 { if i == 2830 { 457u32 } else { 2147483647u32 } } else { if i < 2848 { if i == 2838 { 457u32 } else { 2147483647u32 } } else { if i == 2848 { 463u32 } else { 2147483647u32 } } } } }
            }
        } else {
            if i < 3040 {
                if i < 2958 { if i < 2912 { if i < 2880 { if i == 2862 { 463u32 } else { 2147483647u32 } } else { if i < 2894 { if i == 2880 { 469u32 } else { 2147483647u32 } } else { if i == 2894 { 469u32 } else { 2147483647u32 } } } } else { if i < 2926 { if i == 2912 { 481u32 } else { 2147483647u32 } } else { if i < 2944 { if i == 2926 { 481u32 } else { 2147483647u32 } } else { if i == 2944 { 485u32 } else { 2147483647u32 } } } } } else { if i < 2998 { if i < 2976 { if i == 2958 { 485u32 } else { 2147483647u32 } } else { if i < 2990 { if i == 2976 { 489u32 } else { 2147483647u32 } } else { if i == 2990 { 489u32 } else { 2147483647u32 } } } } else { if i < 3008 { if i == 2998 { 489u32 } else { 2147483647u32 } } else { if i < 3022 { if i == 3008 { 495u32 } else { 2147483647u32 } } else { if i == 3022 { 495u32 } else { 2147483647u32 } } } } }
            } else {
                if i < 3136 { if i < 3086 { if i < 3054 { if i == 3040 { 501u32 } else { 2147483647u32 } } else { if i < 3072 { if i == 3054 { 501u32 } else { 2147483647u32 } } else { if i == 3072 { 513u32 } else { 2147483647u32 } } } } else { if i < 3104 { if i == 3086 { 513u32 } else { 2147483647u32 } } else { if i < 3118 { if i == 3104 { 517u32 } else { 2147483647u32 } } else { if i == 3118 { 517u32 } else { 2147483647u32 } } } } } else { if i < 3182 { if i < 3150 { if i == 3136 { 521u32 } else { 2147483647u32 } } else { if i < 3168 { if i == 3150 { 521u32 } else { 2147483647u32 } } else { if i == 3168 { 527u32 } else { 2147483647u32 } } } } else { if i < 3200 { if i == 3182 { 527u32 } else { 2147483647u32 } } else { if i < 3214 { if i == 3200 { 533u32 } else { 2147483647u32 } } else { if i == 3214 { 533u32 } else { 2147483647u32 } } } } }
            }
        }
    } else {
        if i < 3566 {
            if i < 3392 {
                if i < 3310 { if i < 3264 { if i < 3246 { if i == 3232 { 545u32 } else { 2147483647u32 } } else { if i == 3246 { 545u32 } else { 2147483647u32 } } } else { if i < 3278 { if i == 3264 { 549u32 } else { 2147483647u32 } } else { if i < 3296 { if i == 3278 { 549u32 } else { 2147483647u32 } } else { if i == 3296 { 553u32 } else { 2147483647u32 } } } } } else { if i < 3342 { if i < 3328 { if i == 3310 { 553u32 } else { 2147483647u32 } } else { if i == 3328 { 559u32 } else { 2147483647u32 } } } else { if i < 3360 { if i == 3342 { 559u32 } else { 2147483647u32 } } else { if i < 3374 { if i == 3360 { 565u32 } else { 2147483647u32 } } else { if i == 3374 { 565u32 } else { 2147483647u32 } } } } }
            } else {
                if i < 3470 { if i < 3424 { if i < 3406 { if i == 3392 { 577u32 } else { 2147483647u32 } } else { if i == 3406 { 577u32 } else { 2147483647u32 } } } else { if i < 3438 { if i == 3424 { 581u32 } else { 2147483647u32 } } else { if i < 3456 { if i == 3438 { 581u32 } else { 2147483647u32 } } else { if i == 3456 { 585u32 } else { 2147483647u32 } } } } } else { if i < 3520 { if i < 3488 { if i == 3470 { 585u32 } else { 2147483647u32 } } else { if i < 3502 { if i == 3488 { 591u32 } else { 2147483647u32 } } else { if i == 3502 { 591u32 } else { 2147483647u32 } } } } else { if i < 3534 { if i == 3520 { 597u32 } else { 2147483647u32 } } else { if i < 3552 { if i == 3534 { 597u32 } else { 2147483647u32 } } else { if i == 3552 { 609u32 } else { 2147483647u32 } } } } }
            }
        } else {
            if i < 3726 {
                if i < 3648 { if i < 3598 { if i < 3584 { if i == 3566 { 609u32 } else { 2147483647u32 } } else { if i == 3584 { 613u32 } else { 2147483647u32 } } } else { if i < 3616 { if i == 3598 { 613u32 } else { 2147483647u32 } } else { if i < 3630 { if i == 3616 { 617u32 } else { 2147483647u32 } } else { if i == 3630 { 617u32 } else { 2147483647u32 } } } } } else { if i < 3680 { if i < 3662 { if i == 3648 { 623u32 } else { 2147483647u32 } } else { if i == 3662 { 623u32 } else { 2147483647u32 } } } else { if i < 3694 { if i == 3680 { 629u32 } else { 2147483647u32 } } else { if i < 3712 { if i == 3694 { 629u32 } else { 2147483647u32 } } else { if i == 3712 { 641u32 } else { 2147483647u32 } } } } }
            } else {
                if i < 3808 { if i < 3758 { if i < 3744 { if i == 3726 { 641u32 } else { 2147483647u32 } } else { if i == 3744 { 645u32 } else { 2147483647u32 } } } else { if i < 3776 { if i == 3758 { 645u32 } else { 2147483647u32 } } else { if i < 3790 { if i == 3776 { 649u32 } else { 2147483647u32 } } else { if i == 3790 { 649u32 } else { 2147483647u32 } } } } } else { if i < 3854 { if i < 3822 { if i == 3808 { 655u32 } else { 2147483647u32 } } else { if i < 3840 { if i == 3822 { 655u32 } else { 2147483647u32 } } else { if i == 3840 { 661u32 } else { 2147483647u32 } } } } else { if i < 3877 { if i == 3854 { 661u32 } else { 2147483647u32 } } else { if i < 3909 { if i == 3877 { 2838u32 } else { 2147483647u32 } } else { if i == 3909 { 2998u32 } else { 2147483647u32 } } } } }
            }
        }
    }
}


pub open spec fn spec_syllable_part_0(b: u8) -> Seq<u8> {
    if b < 16 {
        if b < 8 {
            if b < 4 {
                if b < 2 { if b < 1 { seq![97u8] } else { seq![101u8] } } else { if b < 3 { seq![105u8] } else { seq![111u8] } }
            } else {
                if b < 6 { if b < 5 { seq![117u8] } else { seq![98u8, 97u8] } } else { if b < 7 { seq![98u8, 101u8] } else { seq![98u8, 105u8] } }
            }
        } else {
            if b < 12 {
                if b < 10 { if b < 9 { seq![98u8, 111u8] } else { seq![98u8, 117u8] } } else { if b < 11 { seq![99u8, 97u8] } else { seq![99u8, 101u8] } }
            } else {
                if b < 14 { if b < 13 { seq![99u8, 105u8] } else { seq![99u8, 111u8] } } else { if b < 15 { seq![99u8, 117u8] } else { seq![100u8, 97u8] } }
            }
        }
    } else {
        if b < 24 {
            if b < 20 {
                if b < 18 { if b < 17 { seq![100u8, 101u8] } else { seq![100u8, 105u8] } } else { if b < 19 { seq![100u8, 111u8] } else { seq![100u8, 117u8] } }
            } else {
                if b < 22 { if b < 21 { seq![102u8, 97u8] } else { seq![102u8, 101u8] } } else { if b < 23 { seq![102u8, 105u8] } else { seq![102u8, 111u8] } }
            }
        } else {
            if b < 28 {
                if b < 26 { if b < 25 { seq![102u8, 117u8] } else { seq![103u8, 97u8] } } else { if b < 27 { seq![103u8, 101u8] } else { seq![103u8, 105u8] } }
            } else {
                if b < 30 { if b < 29 { seq![103u8, 111u8] } else { seq![103u8, 117u8] } } else { if b < 31 { seq![104u8, 97u8] } else { seq![104u8, 101u8] } }
            }
        }
    }
}

pub open spec fn spec_syllable_part_1(b: u8) -> Seq<u8> {
    if b < 48 {
        if b < 40 {
            if b < 36 {
                if b < 34 { if b < 33 { seq![104u8, 105u8] } else { seq![104u8, 111u8] } } else { if b < 35 { seq![104u8, 117u8] } else { seq![106u8, 97u8] } }
            } else {
                if b < 38 { if b < 37 { seq![106u8, 101u8] } else { seq![106u8, 105u8] } } else { if b < 39 { seq![106u8, 111u8] } else { seq![106u8, 117u8] } }
            }
        } else {
            if b < 44 {
                if b < 42 { if b < 41 { seq![107u8, 97u8] } else { seq![107u8, 101u8] } } else { if b < 43 { seq![107u8, 105u8] } else { seq![107u8, 111u8] } }
            } else {
                if b < 46 { if b < 45 { seq![107u8, 117u8] } else { seq![108u8, 97u8] } } else { if b < 47 { seq![108u8, 101u8] } else { seq![108u8, 105u8] } }
            }
        }
    } else {
        if b < 56 {
            if b < 52 {
                if b < 50 { if b < 49 { seq![108u8, 111u8] } else { seq![108u8, 117u8] } } else { if b < 51 { seq![109u8, 97u8] } else { seq![109u8, 101u8] } }
            } else {
                if b < 54 { if b < 53 { seq![109u8, 105u8] } else { seq![109u8, 111u8] } } else { if b < 55 { seq![109u8, 117u8] } else { seq![110u8, 97u8] } }
            }
        } else {
            if b < 60 {
                if b < 58 { if b < 57 { seq![110u8, 101u8] } else { seq![110u8, 105u8] } } else { if b < 59 { seq![110u8, 111u8] } else { seq![110u8, 117u8] } }
            } else {
                if b < 62 { if b < 61 { seq![112u8, 97u8] } else { seq![112u8, 101u8] } } else { if b < 63 { seq![112u8, 105u8] } else { seq![112u8, 111u8] } }
            }
        }
    }
}

pub open spec fn spec_syllable_part_2(b: u8) -> Seq<u8> {
    if b < 80 {
        if b < 72 {
            if b < 68 {
                if b < 66 { if b < 65 { seq![112u8, 117u8] } else { seq![114u8, 97u8] } } else { if b < 67 { seq![114u8, 101u8] } else { seq![114u8, 105u8] } }
            } else {
                if b < 70 { if b < 69 { seq![114u8, 111u8] } else { seq![114u8, 117u8] } } else { if b < 71 { seq![115u8, 97u8] } else { seq![115u8, 101u8] } }
            }
        } else {
            if b < 76 {
                if b < 74 { if b < 73 { seq![115u8, 105u8] } else { seq![115u8, 111u8] } } else { if b < 75 { seq![115u8, 117u8] } else { seq![116u8, 97u8] } }
            } else {
                if b < 78 { if b < 77 { seq![116u8, 101u8] } else { seq![116u8, 105u8] } } else { if b < 79 { seq![116u8, 111u8] } else { seq![116u8, 117u8] } }
            }
        }
    } else {
        if b < 88 {
            if b < 84 {
                if b < 82 { if b < 81 { seq![118u8, 97u8] } else { seq![118u8, 101u8] } } else { if b < 83 { seq![118u8, 105u8] } else { seq![118u8, 111u8] } }
            } else {
                if b < 86 { if b < 85 { seq![118u8, 117u8] } else { seq![119u8, 97u8] } } else { if b < 87 { seq![119u8, 101u8] } else { seq![119u8, 105u8] } }
            }
        } else {
            if b < 92 {
                if b < 90 { if b < 89 { seq![119u8, 111u8] } else { seq![119u8, 117u8] } } else { if b < 91 { seq![120u8, 97u8] } else { seq![120u8, 101u8] } }
            } else {
                if b < 94 { if b < 93 { seq![120u8, 105u8] } else { seq![120u8, 111u8] } } else { if b < 95 { seq![120u8, 117u8] } else { seq![121u8, 97u8] } }
            }
        }
    }
}

pub open spec fn spec_syllable_part_3(b: u8) -> Seq<u8> {
    if b < 112 {
        if b < 104 {
            if b < 100 {
                if b < 98 { if b < 97 { seq![121u8, 101u8] } else { seq![121u8, 105u8] } } else { if b < 99 { seq![121u8, 111u8] } else { seq![121u8, 117u8] } }
            } else {
                if b < 102 { if b < 101 { seq![122u8, 97u8] } else { seq![122u8, 101u8] } } else { if b < 103 { seq![122u8, 105u8] } else { seq![122u8, 111u8] } }
            }
        } else {
            if b < 108 {
                if b < 106 { if b < 105 { seq![122u8, 117u8] } else { seq![98u8, 97u8, 110u8] } } else { if b < 107 { seq![98u8, 101u8, 110u8] } else { seq![98u8, 105u8, 110u8] } }
            } else {
                if b < 110 { if b < 109 { seq![98u8, 111u8, 110u8] } else { seq![98u8, 117u8, 110u8] } } else { if b < 111 { seq![99u8, 97u8, 110u8] } else { seq![99u8, 101u8, 110u8] } }
            }
        }
    } else {
        if b < 120 {
            if b < 116 {
                if b < 114 { if b < 113 { seq![99u8, 105u8, 110u8] } else { seq![99u8, 111u8, 110u8] } } else { if b < 115 { seq![99u8, 117u8, 110u8] } else { seq![100u8, 97u8, 110u8] } }
            } else {
                if b < 118 { if b < 117 { seq![100u8, 101u8, 110u8] } else { seq![100u8, 105u8, 110u8] } } else { if b < 119 { seq![100u8, 111u8, 110u8] } else { seq![100u8, 117u8, 110u8] } }
            }
        } else {
            if b < 124 {
                if b < 122 { if b < 121 { seq![102u8, 97u8, 110u8] } else { seq![102u8, 101u8, 110u8] } } else { if b < 123 { seq![102u8, 105u8, 110u8] } else { seq![102u8, 111u8, 110u8] } }
            } else {
                if b < 126 { if b < 125 { seq![102u8, 117u8, 110u8] } else { seq![103u8, 97u8, 110u8] } } else { if b < 127 { seq![103u8, 101u8, 110u8] } else { seq![103u8, 105u8, 110u8] } }
            }
        }
    }
}

pub open spec fn spec_syllable_part_4(b: u8) -> Seq<u8> {
    if b < 144 {
        if b < 136 {
            if b < 132 {
                if b < 130 { if b < 129 { seq![103u8, 111u8, 110u8] } else { seq![103u8, 117u8, 110u8] } } else { if b < 131 { seq![104u8, 97u8, 110u8] } else { seq![104u8, 101u8, 110u8] } }
            } else {
                if b < 134 { if b < 133 { seq![104u8, 105u8, 110u8] } else { seq![104u8, 111u8, 110u8] } } else { if b < 135 { seq![104u8, 117u8, 110u8] } else { seq![106u8, 97u8, 110u8] } }
            }
        } else {
            if b < 140 {
                if b < 138 { if b < 137 { seq![106u8, 101u8, 110u8] } else { seq![106u8, 105u8, 110u8] } } else { if b < 139 { seq![106u8, 111u8, 110u8] } else { seq![106u8, 117u8, 110u8] } }
            } else {
                if b < 142 { if b < 141 { seq![107u8, 97u8, 110u8] } else { seq![107u8, 101u8, 110u8] } } else { if b < 143 { seq![107u8, 105u8, 110u8] } else { seq![107u8, 111u8, 110u8] } }
            }
        }
    } else {
        if b < 152 {
            if b < 148 {
                if b < 146 { if b < 145 { seq![107u8, 117u8, 110u8] } else { seq![108u8, 97u8, 110u8] } } else { if b < 147 { seq![108u8, 101u8, 110u8] } else { seq![108u8, 105u8, 110u8] } }
            } else {
                if b < 150 { if b < 149 { seq![108u8, 111u8, 110u8] } else { seq![108u8, 117u8, 110u8] } } else { if b < 151 { seq![109u8, 97u8, 110u8] } else { seq![109u8, 101u8, 110u8] } }
            }
        } else {
            if b < 156 {
                if b < 154 { if b < 153 { seq![109u8, 105u8, 110u8] } else { seq![109u8, 111u8, 110u8] } } else { if b < 155 { seq![109u8, 117u8, 110u8] } else { seq![110u8, 97u8, 110u8] } }
            } else {
                if b < 158 { if b < 157 { seq![110u8, 101u8, 110u8] } else { seq![110u8, 105u8, 110u8] } } else { if b < 159 { seq![110u8, 111u8, 110u8] } else { seq![110u8, 117u8, 110u8] } }
            }
        }
    }
}

pub open spec fn spec_syllable_part_5(b: u8) -> Seq<u8> {
    if b < 176 {
        if b < 168 {
            if b < 164 {
                if b < 162 { if b < 161 { seq![112u8, 97u8, 110u8] } else { seq![112u8, 101u8, 110u8] } } else { if b < 163 { seq![112u8, 105u8, 110u8] } else { seq![112u8, 111u8, 110u8] } }
            } else {
                if b < 166 { if b < 165 { seq![112u8, 117u8, 110u8] } else { seq![114u8, 97u8, 110u8] } } else { if b < 167 { seq![114u8, 101u8, 110u8] } else { seq![114u8, 105u8, 110u8] } }
            }
        } else {
            if b < 172 {
                if b < 170 { if b < 169 { seq![114u8, 111u8, 110u8] } else { seq![114u8, 117u8, 110u8] } } else { if b < 171 { seq![115u8, 97u8, 110u8] } else { seq![115u8, 101u8, 110u8] } }
            } else {
                if b < 174 { if b < 173 { seq![115u8, 105u8, 110u8] } else { seq![115u8, 111u8, 110u8] } } else { if b < 175 { seq![115u8, 117u8, 110u8] } else { seq![116u8, 97u8, 110u8] } }
            }
        }
    } else {
        if b < 184 {
            if b < 180 {
                if b < 178 { if b < 177 { seq![116u8, 101u8, 110u8] } else { seq![116u8, 105u8, 110u8] } } else { if b < 179 { seq![116u8, 111u8, 110u8] } else { seq![116u8, 117u8, 110u8] } }
            } else {
                if b < 182 { if b < 181 { seq![118u8, 97u8, 110u8] } else { seq![118u8, 101u8, 110u8] } } else { if b < 183 { seq![118u8, 105u8, 110u8] } else { seq![118u8, 111u8, 110u8] } }
            }
        } else {
            if b < 188 {
                if b < 186 { if b < 185 { seq![118u8, 117u8, 110u8] } else { seq![119u8, 97u8, 110u8] } } else { if b < 187 { seq![119u8, 101u8, 110u8] } else { seq![119u8, 105u8, 110u8] } }
            } else {
                if b < 190 { if b < 189 { seq![119u8, 111u8, 110u8] } else { seq![119u8, 117u8, 110u8] } } else { if b < 191 { seq![120u8, 97u8, 110u8] } else { seq![120u8, 101u8, 110u8] } }
            }
        }
    }
}

pub open spec fn spec_syllable_part_6(b: u8) -> Seq<u8> {
    if b < 208 {
        if b < 200 {
            if b < 196 {
                if b < 194 { if b < 193 { seq![120u8, 105u8, 110u8] } else { seq![120u8, 111u8, 110u8] } } else { if b < 195 { seq![120u8, 117u8, 110u8] } else { seq![121u8, 97u8, 110u8] } }
            } else {
                if b < 198 { if b < 197 { seq![121u8, 101u8, 110u8] } else { seq![121u8, 105u8, 110u8] } } else { if b < 199 { seq![121u8, 111u8, 110u8] } else { seq![121u8, 117u8, 110u8] } }
            }
        } else {
            if b < 204 {
                if b < 202 { if b < 201 { seq![122u8, 97u8, 110u8] } else { seq![122u8, 101u8, 110u8] } } else { if b < 203 { seq![122u8, 105u8, 110u8] } else { seq![122u8, 111u8, 110u8] } }
            } else {
                if b < 206 { if b < 205 { seq![122u8, 117u8, 110u8] } else { seq![98u8, 97u8, 115u8] } } else { if b < 207 { seq![98u8, 101u8, 115u8] } else { seq![98u8, 105u8, 115u8] } }
            }
        }
    } else {
        if b < 216 {
            if b < 212 {
                if b < 210 { if b < 209 { seq![98u8, 111u8, 115u8] } else { seq![98u8, 117u8, 115u8] } } else { if b < 211 { seq![99u8, 97u8, 115u8] } else { seq![99u8, 101u8, 115u8] } }
            } else {
                if b < 214 { if b < 213 { seq![99u8, 105u8, 115u8] } else { seq![99u8, 111u8, 115u8] } } else { if b < 215 { seq![99u8, 117u8, 115u8] } else { seq![100u8, 97u8, 115u8] } }
            }
        } else {
            if b < 220 {
                if b < 218 { if b < 217 { seq![100u8, 101u8, 115u8] } else { seq![100u8, 105u8, 115u8] } } else { if b < 219 { seq![100u8, 111u8, 115u8] } else { seq![100u8, 117u8, 115u8] } }
            } else {
                if b < 222 { if b < 221 { seq![102u8, 97u8, 115u8] } else { seq![102u8, 101u8, 115u8] } } else { if b < 223 { seq![102u8, 105u8, 115u8] } else { seq![102u8, 111u8, 115u8] } }
            }
        }
    }
}

pub open spec fn spec_syllable_part_7(b: u8) -> Seq<u8> {
    if b < 240 {
        if b < 232 {
            if b < 228 {
                if b < 226 { if b < 225 { seq![102u8, 117u8, 115u8] } else { seq![103u8, 97u8, 115u8] } } else { if b < 227 { seq![103u8, 101u8, 115u8] } else { seq![103u8, 105u8, 115u8] } }
            } else {
                if b < 230 { if b < 229 { seq![103u8, 111u8, 115u8] } else { seq![103u8, 117u8, 115u8] } } else { if b < 231 { seq![104u8, 97u8, 115u8] } else { seq![104u8, 101u8, 115u8] } }
            }
        } else {
            if b < 236 {
                if b < 234 { if b < 233 { seq![104u8, 105u8, 115u8] } else { seq![104u8, 111u8, 115u8] } } else { if b < 235 { seq![104u8, 117u8, 115u8] } else { seq![106u8, 97u8, 115u8] } }
            } else {
                if b < 238 { if b < 237 { seq![106u8, 101u8, 115u8] } else { seq![106u8, 105u8, 115u8] } } else { if b < 239 { seq![106u8, 111u8, 115u8] } else { seq![106u8, 117u8, 115u8] } }
            }
        }
    } else {
        if b < 248 {
            if b < 244 {
                if b < 242 { if b < 241 { seq![107u8, 97u8, 115u8] } else { seq![107u8, 101u8, 115u8] } } else { if b < 243 { seq![107u8, 105u8, 115u8] } else { seq![107u8, 111u8, 115u8] } }
            } else {
                if b < 246 { if b < 245 { seq![107u8, 117u8, 115u8] } else { seq![108u8, 97u8, 115u8] } } else { if b < 247 { seq![108u8, 101u8, 115u8] } else { seq![108u8, 105u8, 115u8] } }
            }
        } else {
            if b < 252 {
                if b < 250 { if b < 249 { seq![108u8, 111u8, 115u8] } else { seq![108u8, 117u8, 115u8] } } else { if b < 251 { seq![109u8, 97u8, 115u8] } else { seq![109u8, 101u8, 115u8] } }
            } else {
                if b < 254 { if b < 253 { seq![109u8, 105u8, 115u8] } else { seq![109u8, 111u8, 115u8] } } else { if b < 255 { seq![115u8, 105u8, 118u8, 101u8] } else { seq![116u8, 105u8, 118u8, 101u8] } }
            }
        }
    }
}

/// The syllable that stands for a byte value: one to four lowercase
/// ASCII letters, a different string for every byte.
pub open spec fn spec_syllable(b: u8) -> Seq<u8> {
    if b < 32 {
        spec_syllable_part_0(b)
    } else if b < 64 {
        spec_syllable_part_1(b)
    } else if b < 96 {
        spec_syllable_part_2(b)
    } else if b < 128 {
        spec_syllable_part_3(b)
    } else if b < 160 {
        spec_syllable_part_4(b)
    } else if b < 192 {
        spec_syllable_part_5(b)
    } else if b < 224 {
        spec_syllable_part_6(b)
    } else {
        spec_syllable_part_7(b)
    }
}

fn syllable_part_0(b: u8) -> (r: Vec<u8>)
    requires
        0 <= b < 32,
    ensures
        r@ == spec_syllable(b),
{
    if b < 16 {
        if b < 8 {
            if b < 4 {
                if b < 2 {
                    if b < 1 {
                        let mut v: Vec<u8> = Vec::new();
                        v.push(97u8);
                        assert(v@ =~= spec_syllable(0u8));
                        v
                    } else {
                        let mut v: Vec<u8> = Vec::new();
                        v.push(101u8);
                        assert(v@ =~= spec_syllable(1u8));
                        v
                    }
                } else {
                    if b < 3 {
                        let mut v: Vec<u8> = Vec::new();
                        v.push(105u8);
                        assert(v@ =~= spec_syllable(2u8));
                        v
                    } else {
                        let mut v: Vec<u8> = Vec::new();
                        v.push(111u8);
                        assert(v@ =~= spec_syllable(3u8));
                        v
                    }
                }
            } else {
                if b < 6 {
                    if b < 5 {
                        let mut v: Vec<u8> = Vec::new();
                        v.push(117u8);
                        assert(v@ =~= spec_syllable(4u8));
                        v
                    } else {
                        let mut v: Vec<u8> = Vec::new();
                        v.push(98u8); v.push(97u8);
                        assert(v@ =~= spec_syllable(5u8));
                        v
                    }
                } else {
                    if b < 7 {
                        let mut v: Vec<u8> = Vec::new();
                        v.push(98u8); v.push(101u8);
                        assert(v@ =~= spec_syllable(6u8));
                        v
                    } else {
                        let mut v: Vec<u8> = Vec::new();
                        v.push(98u8); v.push(105u8);
                        assert(v@ =~= spec_syllable(7u8));
                        v
                    }
                }
            }
        } else {
            if b < 12 {
                if b < 10 {
                    if b < 9 {
                        let mut v: Vec<u8> = Vec::new();
                        v.push(98u8); v.push(111u8);
                        assert(v@ =~= spec_syllable(8u8));
                        v
                    } else {
                        let mut v: Vec<u8> = Vec::new();
                        v.push(98u8); v.push(117u8);
                        assert(v@ =~= spec_syllable(9u8));
                        v
                    }
                } else {
                    if b < 11 {
                        let mut v: Vec<u8> = Vec::new();
                        v.push(99u8); v.push(97u8);
                        assert(v@ =~= spec_syllable(10u8));
                        v
                    } else {
                        let mut v: Vec<u8> = Vec::new();
                        v.push(99u8); v.push(101u8);
                        assert(v@ =~= spec_syllable(11u8));
                        v
                    }
                }
            } else {
                if b < 14 {
                    if b < 13 {
                        let mut v: Vec<u8> = Vec::new();
                        v.push(99u8); v.push(105u8);
                        assert(v@ =~= spec_syllable(12u8));
                        v
                    } else {
                        let mut v: Vec<u8> = Vec::new();
                        v.push(99u8); v.push(111u8);
                        assert(v@ =~= spec_syllable(13u8));
                        v
                    }
                } else {
                    if b < 15 {
                        let mut v: Vec<u8> = Vec::new();
                        v.push(99u8); v.push(117u8);
                        assert(v@ =~= spec_syllable(14u8));
                        v
                    } else {
                        let mut v: Vec<u8> = Vec::new();
                        v.push(100u8); v.push(97u8);
                        assert(v@ =~= spec_syllable(15u8));
                        v
                    }
                }
            }
        }
    } else {
        if b < 24 {
            if b < 20 {
                if b < 18 {
                    if b < 17 {
                        let mut v: Vec<u8> = Vec::new();
                        v.push(100u8); v.push(101u8);
                        assert(v@ =~= spec_syllable(16u8));
                        v
                    } else {
                        let mut v: Vec<u8> = Vec::new();
                        v.push(100u8); v.push(105u8);
                        assert(v@ =~= spec_syllable(17u8));
                        v
                    }
                } else {
                    if b < 19 {
                        let mut v: Vec<u8> = Vec::new();
                        v.push(100u8); v.push(111u8);
                        assert(v@ =~= spec_syllable(18u8));
                        v
                    } else {
                        let mut v: Vec<u8> = Vec::new();
                        v.push(100u8); v.push(117u8);
                        assert(v@ =~= spec_syllable(19u8));
                        v
                    }
                }
            } else {
                if b < 22 {
                    if b < 21 {
                        let mut v: Vec<u8> = Vec::new();
                        v.push(102u8); v.push(97u8);
                        assert(v@ =~= spec_syllable(20u8));
                        v
                    } else {
                        let mut v: Vec<u8> = Vec::new();
                        v.push(102u8); v.push(101u8);
                        assert(v@ =~= spec_syllable(21u8));
                        v
                    }
                } else {
                    if b < 23 {
                        let mut v: Vec<u8> = Vec::new();
                        v.push(102u8); v.push(105u8);
                        assert(v@ =~= spec_syllable(22u8));
                        v
                    } else {
                        let mut v: Vec<u8> = Vec::new();
                        v.push(102u8); v.push(111u8);
                        assert(v@ =~= spec_syllable(23u8));
                        v
                    }
                }
            }
        } else {
            if b < 28 {
                if b < 26 {
                    if b < 25 {
                        let mut v: Vec<u8> = Vec::new();
                        v.push(102u8); v.push(117u8);
                        assert(v@ =~= spec_syllable(24u8));
                        v
                    } else {
                        let mut v: Vec<u8> = Vec::new();
                        v.push(103u8); v.push(97u8);
                        assert(v@ =~= spec_syllable(25u8));
                        v
                    }
                } else {
                    if b < 27 {
                        let mut v: Vec<u8> = Vec::new();
                        v.push(103u8); v.push(101u8);
                        assert(v@ =~= spec_syllable(26u8));
                        v
                    } else {
                        let mut v: Vec<u8> = Vec::new();
                        v.push(103u8); v.push(105u8);
                        assert(v@ =~= spec_syllable(27u8));
                        v
                    }
                }
            } else {
                if b < 30 {
                    if b < 29 {
                        let mut v: Vec<u8> = Vec::new();
                        v.push(103u8); v.push(111u8);
                        assert(v@ =~= spec_syllable(28u8));
                        v
                    } else {
                        let mut v: Vec<u8> = Vec::new();
                        v.push(103u8); v.push(117u8);
                        assert(v@ =~= spec_syllable(29u8));
                        v
                    }
                } else {
                    if b < 31 {
                        let mut v: Vec<u8> = Vec::new();
                        v.push(104u8); v.push(97u8);
                        assert(v@ =~= spec_syllable(30u8));
                        v
                    } else {
                        let mut v: Vec<u8> = Vec::new();
                        v.push(104u8); v.push(101u8);
                        assert(v@ =~= spec_syllable(31u8));
                        v
                    }
                }
            }
        }
    }
}

fn syllable_part_1(b: u8) -> (r: Vec<u8>)
    requires
        32 <= b < 64,
    ensures
        r@ == spec_syllable(b),
{
    if b < 48 {
        if b < 40 {
            if b < 36 {
                if b < 34 {
                    if b < 33 {
                        let mut v: Vec<u8> = Vec::new();
                        v.push(104u8); v.push(105u8);
                        assert(v@ =~= spec_syllable(32u8));
                        v
                    } else {
                        let mut v: Vec<u8> = Vec::new();
                        v.push(104u8); v.push(111u8);
                        assert(v@ =~= spec_syllable(33u8));
                        v
                    }
                } else {
                    if b < 35 {
                        let mut v: Vec<u8> = Vec::new();
                        v.push(104u8); v.push(117u8);
                        assert(v@ =~= spec_syllable(34u8));
                        v
                    } else {
                        let mut v: Vec<u8> = Vec::new();
                        v.push(106u8); v.push(97u8);
                        assert(v@ =~= spec_syllable(35u8));
                        v
                    }
                }
            } else {
                if b < 38 {
                    if b < 37 {
                        let mut v: Vec<u8> = Vec::new();
                        v.push(106u8); v.push(101u8);
                        assert(v@ =~= spec_syllable(36u8));
                        v
                    } else {
                        let mut v: Vec<u8> = Vec::new();
                        v.push(106u8); v.push(105u8);
                        assert(v@ =~= spec_syllable(37u8));
                        v
                    }
                } else {
                    if b < 39 {
                        let mut v: Vec<u8> = Vec::new();
                        v.push(106u8); v.push(111u8);
                        assert(v@ =~= spec_syllable(38u8));
                        v
                    } else {
                        let mut v: Vec<u8> = Vec::new();
                        v.push(106u8); v.push(117u8);
                        assert(v@ =~= spec_syllable(39u8));
                        v
                    }
                }
            }
        } else {
            if b < 44 {
                if b < 42 {
                    if b < 41 {
                        let mut v: Vec<u8> = Vec::new();
                        v.push(107u8); v.push(97u8);
                        assert(v@ =~= spec_syllable(40u8));
                        v
                    } else {
                        let mut v: Vec<u8> = Vec::new();
                        v.push(107u8); v.push(101u8);
                        assert(v@ =~= spec_syllable(41u8));
                        v
                    }
                } else {
                    if b < 43 {
                        let mut v: Vec<u8> = Vec::new();
                        v.push(107u8); v.push(105u8);
                        assert(v@ =~= spec_syllable(42u8));
                        v
                    } else {
                        let mut v: Vec<u8> = Vec::new();
                        v.push(107u8); v.push(111u8);
                        assert(v@ =~= spec_syllable(43u8));
                        v
                    }
                }
            } else {
                if b < 46 {
                    if b < 45 {
                        let mut v: Vec<u8> = Vec::new();
                        v.push(107u8); v.push(117u8);
                        assert(v@ =~= spec_syllable(44u8));
                        v
                    } else {
                        let mut v: Vec<u8> = Vec::new();
                        v.push(108u8); v.push(97u8);
                        assert(v@ =~= spec_syllable(45u8));
                        v
                    }
                } else {
                    if b < 47 {
                        let mut v: Vec<u8> = Vec::new();
                        v.push(108u8); v.push(101u8);
                        assert(v@ =~= spec_syllable(46u8));
                        v
                    } else {
                        let mut v: Vec<u8> = Vec::new();
                        v.push(108u8); v.push(105u8);
                        assert(v@ =~= spec_syllable(47u8));
                        v
                    }
                }
            }
        }
    } else {
        if b < 56 {
            if b < 52 {
                if b < 50 {
                    if b < 49 {
                        let mut v: Vec<u8> = Vec::new();
                        v.push(108u8); v.push(111u8);
                        assert(v@ =~= spec_syllable(48u8));
                        v
                    } else {
                        let mut v: Vec<u8> = Vec::new();
                        v.push(108u8); v.push(117u8);
                        assert(v@ =~= spec_syllable(49u8));
                        v
                    }
                } else {
                    if b < 51 {
                        let mut v: Vec<u8> = Vec::new();
                        v.push(109u8); v.push(97u8);
                        assert(v@ =~= spec_syllable(50u8));
                        v
                    } else {
                        let mut v: Vec<u8> = Vec::new();
                        v.push(109u8); v.push(101u8);
                        assert(v@ =~= spec_syllable(51u8));
                        v
                    }
                }
            } else {
                if b < 54 {
                    if b < 53 {
                        let mut v: Vec<u8> = Vec::new();
                        v.push(109u8); v.push(105u8);
                        assert(v@ =~= spec_syllable(52u8));
                        v
                    } else {
                        let mut v: Vec<u8> = Vec::new();
                        v.push(109u8); v.push(111u8);
                        assert(v@ =~= spec_syllable(53u8));
                        v
                    }
                } else {
                    if b < 55 {
                        let mut v: Vec<u8> = Vec::new();
                        v.push(109u8); v.push(117u8);
                        assert(v@ =~= spec_syllable(54u8));
                        v
                    } else {
                        let mut v: Vec<u8> = Vec::new();
                        v.push(110u8); v.push(97u8);
                        assert(v@ =~= spec_syllable(55u8));
                        v
                    }
                }
            }
        } else {
            if b < 60 {
                if b < 58 {
                    if b < 57 {
                        let mut v: Vec<u8> = Vec::new();
                        v.push(110u8); v.push(101u8);
                        assert(v@ =~= spec_syllable(56u8));
                        v
                    } else {
                        let mut v: Vec<u8> = Vec::new();
                        v.push(110u8); v.push(105u8);
                        assert(v@ =~= spec_syllable(57u8));
                        v
                    }
                } else {
                    if b < 59 {
                        let mut v: Vec<u8> = Vec::new();
                        v.push(110u8); v.push(111u8);
                        assert(v@ =~= spec_syllable(58u8));
                        v
                    } else {
                        let mut v: Vec<u8> = Vec::new();
                        v.push(110u8); v.push(117u8);
                        assert(v@ =~= spec_syllable(59u8));
                        v
                    }
                }
            } else {
                if b < 62 {
                    if b < 61 {
                        let mut v: Vec<u8> = Vec::new();
                        v.push(112u8); v.push(97u8);
                        assert(v@ =~= spec_syllable(60u8));
                        v
                    } else {
                        let mut v: Vec<u8> = Vec::new();
                        v.push(112u8); v.push(101u8);
                        assert(v@ =~= spec_syllable(61u8));
                        v
                    }
                } else {
                    if b < 63 {
                        let mut v: Vec<u8> = Vec::new();
                        v.push(112u8); v.push(105u8);
                        assert(v@ =~= spec_syllable(62u8));
                        v
                    } else {
                        let mut v: Vec<u8> = Vec::new();
                        v.push(112u8); v.push(111u8);
                        assert(v@ =~= spec_syllable(63u8));
                        v
                    }
                }
            }
        }
    }
}

fn syllable_part_2(b: u8) -> (r: Vec<u8>)
    requires
        64 <= b < 96,
    ensures
        r@ == spec_syllable(b),
{
    if b < 80 {
        if b < 72 {
            if b < 68 {
                if b < 66 {
                    if b < 65 {
                        let mut v: Vec<u8> = Vec::new();
                        v.push(112u8); v.push(117u8);
                        assert(v@ =~= spec_syllable(64u8));
                        v
                    } else {
                        let mut v: Vec<u8> = Vec::new();
                        v.push(114u8); v.push(97u8);
                        assert(v@ =~= spec_syllable(65u8));
                        v
                    }
                } else {
                    if b < 67 {
                        let mut v: Vec<u8> = Vec::new();
                        v.push(114u8); v.push(101u8);
                        assert(v@ =~= spec_syllable(66u8));
                        v
                    } else {
                        let mut v: Vec<u8> = Vec::new();
                        v.push(114u8); v.push(105u8);
                        assert(v@ =~= spec_syllable(67u8));
                        v
                    }
                }
            } else {
                if b < 70 {
                    if b < 69 {
                        let mut v: Vec<u8> = Vec::new();
                        v.push(114u8); v.push(111u8);
                        assert(v@ =~= spec_syllable(68u8));
                        v
                    } else {
                        let mut v: Vec<u8> = Vec::new();
                        v.push(114u8); v.push(117u8);
                        assert(v@ =~= spec_syllable(69u8));
                        v
                    }
                } else {
                    if b < 71 {
                        let mut v: Vec<u8> = Vec::new();
                        v.push(115u8); v.push(97u8);
                        assert(v@ =~= spec_syllable(70u8));
                        v
                    } else {
                        let mut v: Vec<u8> = Vec::new();
                        v.push(115u8); v.push(101u8);
                        assert(v@ =~= spec_syllable(71u8));
                        v
                    }
                }
            }
        } else {
            if b < 76 {
                if b < 74 {
                    if b < 73 {
                        let mut v: Vec<u8> = Vec::new();
                        v.push(115u8); v.push(105u8);
                        assert(v@ =~= spec_syllable(72u8));
                        v
                    } else {
                        let mut v: Vec<u8> = Vec::new();
                        v.push(115u8); v.push(111u8);
                        assert(v@ =~= spec_syllable(73u8));
                        v
                    }
                } else {
                    if b < 75 {
                        let mut v: Vec<u8> = Vec::new();
                        v.push(115u8); v.push(117u8);
                        assert(v@ =~= spec_syllable(74u8));
                        v
                    } else {
                        let mut v: Vec<u8> = Vec::new();
                        v.push(116u8); v.push(97u8);
                        assert(v@ =~= spec_syllable(75u8));
                        v
                    }
                }
            } else {
                if b < 78 {
                    if b < 77 {
                        let mut v: Vec<u8> = Vec::new();
                        v.push(116u8); v.push(101u8);
                        assert(v@ =~= spec_syllable(76u8));
                        v
                    } else {
                        let mut v: Vec<u8> = Vec::new();
                        v.push(116u8); v.push(105u8);
                        assert(v@ =~= spec_syllable(77u8));
                        v
                    }
                } else {
                    if b < 79 {
                        let mut v: Vec<u8> = Vec::new();
                        v.push(116u8); v.push(111u8);
                        assert(v@ =~= spec_syllable(78u8));
                        v
                    } else {
                        let mut v: Vec<u8> = Vec::new();
                        v.push(116u8); v.push(117u8);
                        assert(v@ =~= spec_syllable(79u8));
                        v
                    }
                }
            }
        }
    } else {
        if b < 88 {
            if b < 84 {
                if b < 82 {
                    if b < 81 {
                        let mut v: Vec<u8> = Vec::new();
                        v.push(118u8); v.push(97u8);
                        assert(v@ =~= spec_syllable(80u8));
                        v
                    } else {
                        let mut v: Vec<u8> = Vec::new();
                        v.push(118u8); v.push(101u8);
                        assert(v@ =~= spec_syllable(81u8));
                        v
                    }
                } else {
                    if b < 83 {
                        let mut v: Vec<u8> = Vec::new();
                        v.push(118u8); v.push(105u8);
                        assert(v@ =~= spec_syllable(82u8));
                        v
                    } else {
                        let mut v: Vec<u8> = Vec::new();
                        v.push(118u8); v.push(111u8);
                        assert(v@ =~= spec_syllable(83u8));
                        v
                    }
                }
            } else {
                if b < 86 {
                    if b < 85 {
                        let mut v: Vec<u8> = Vec::new();
                        v.push(118u8); v.push(117u8);
                        assert(v@ =~= spec_syllable(84u8));
                        v
                    } else {
                        let mut v: Vec<u8> = Vec::new();
                        v.push(119u8); v.push(97u8);
                        assert(v@ =~= spec_syllable(85u8));
                        v
                    }
                } else {
                    if b < 87 {
                        let mut v: Vec<u8> = Vec::new();
                        v.push(119u8); v.push(101u8);
                        assert(v@ =~= spec_syllable(86u8));
                        v
                    } else {
                        let mut v: Vec<u8> = Vec::new();
                        v.push(119u8); v.push(105u8);
                        assert(v@ =~= spec_syllable(87u8));
                        v
                    }
                }
            }
        } else {
            if b < 92 {
                if b < 90 {
                    if b < 89 {
                        let mut v: Vec<u8> = Vec::new();
                        v.push(119u8); v.push(111u8);
                        assert(v@ =~= spec_syllable(88u8));
                        v
                    } else {
                        let mut v: Vec<u8> = Vec::new();
                        v.push(119u8); v.push(117u8);
                        assert(v@ =~= spec_syllable(89u8));
                        v
                    }
                } else {
                    if b < 91 {
                        let mut v: Vec<u8> = Vec::new();
                        v.push(120u8); v.push(97u8);
                        assert(v@ =~= spec_syllable(90u8));
                        v
                    } else {
                        let mut v: Vec<u8> = Vec::new();
                        v.push(120u8); v.push(101u8);
                        assert(v@ =~= spec_syllable(91u8));
                        v
                    }
                }
            } else {
                if b < 94 {
                    if b < 93 {
                        let mut v: Vec<u8> = Vec::new();
                        v.push(120u8); v.push(105u8);
                        assert(v@ =~= spec_syllable(92u8));
                        v
                    } else {
                        let mut v: Vec<u8> = Vec::new();
                        v.push(120u8); v.push(111u8);
                        assert(v@ =~= spec_syllable(93u8));
                        v
                    }
                } else {
                    if b < 95 {
                        let mut v: Vec<u8> = Vec::new();
                        v.push(120u8); v.push(117u8);
                        assert(v@ =~= spec_syllable(94u8));
                        v
                    } else {
                        let mut v: Vec<u8> = Vec::new();
                        v.push(121u8); v.push(97u8);
                        assert(v@ =~= spec_syllable(95u8));
                        v
                    }
                }
            }
        }
    }
}

fn syllable_part_3(b: u8) -> (r: Vec<u8>)
    requires
        96 <= b < 128,
    ensures
        r@ == spec_syllable(b),
{
    if b < 112 {
        if b < 104 {
            if b < 100 {
                if b < 98 {
                    if b < 97 {
                        let mut v: Vec<u8> = Vec::new();
                        v.push(121u8); v.push(101u8);
                        assert(v@ =~= spec_syllable(96u8));
                        v
                    } else {
                        let mut v: Vec<u8> = Vec::new();
                        v.push(121u8); v.push(105u8);
                        assert(v@ =~= spec_syllable(97u8));
                        v
                    }
                } else {
                    if b < 99 {
                        let mut v: Vec<u8> = Vec::new();
                        v.push(121u8); v.push(111u8);
                        assert(v@ =~= spec_syllable(98u8));
                        v
                    } else {
                        let mut v: Vec<u8> = Vec::new();
                        v.push(121u8); v.push(117u8);
                        assert(v@ =~= spec_syllable(99u8));
                        v
                    }
                }
            } else {
                if b < 102 {
                    if b < 101 {
                        let mut v: Vec<u8> = Vec::new();
                        v.push(122u8); v.push(97u8);
                        assert(v@ =~= spec_syllable(100u8));
                        v
                    } else {
                        let mut v: Vec<u8> = Vec::new();
                        v.push(122u8); v.push(101u8);
                        assert(v@ =~= spec_syllable(101u8));
                        v
                    }
                } else {
                    if b < 103 {
                        let mut v: Vec<u8> = Vec::new();
                        v.push(122u8); v.push(105u8);
                        assert(v@ =~= spec_syllable(102u8));
                        v
                    } else {
                        let mut v: Vec<u8> = Vec::new();
                        v.push(122u8); v.push(111u8);
                        assert(v@ =~= spec_syllable(103u8));
                        v
                    }
                }
            }
        } else {
            if b < 108 {
                if b < 106 {
                    if b < 105 {
                        let mut v: Vec<u8> = Vec::new();
                        v.push(122u8); v.push(117u8);
                        assert(v@ =~= spec_syllable(104u8));
                        v
                    } else {
                        let mut v: Vec<u8> = Vec::new();
                        v.push(98u8); v.push(97u8); v.push(110u8);
                        assert(v@ =~= spec_syllable(105u8));
                        v
                    }
                } else {
                    if b < 107 {
                        let mut v: Vec<u8> = Vec::new();
                        v.push(98u8); v.push(101u8); v.push(110u8);
                        assert(v@ =~= spec_syllable(106u8));
                        v
                    } else {
                        let mut v: Vec<u8> = Vec::new();
                        v.push(98u8); v.push(105u8); v.push(110u8);
                        assert(v@ =~= spec_syllable(107u8));
                        v
                    }
                }
            } else {
                if b < 110 {
                    if b < 109 {
                        let mut v: Vec<u8> = Vec::new();
                        v.push(98u8); v.push(111u8); v.push(110u8);
                        assert(v@ =~= spec_syllable(108u8));
                        v
                    } else {
                        let mut v: Vec<u8> = Vec::new();
                        v.push(98u8); v.push(117u8); v.push(110u8);
                        assert(v@ =~= spec_syllable(109u8));
                        v
                    }
                } else {
                    if b < 111 {
                        let mut v: Vec<u8> = Vec::new();
                        v.push(99u8); v.push(97u8); v.push(110u8);
                        assert(v@ =~= spec_syllable(110u8));
                        v
                    } else {
                        let mut v: Vec<u8> = Vec::new();
                        v.push(99u8); v.push(101u8); v.push(110u8);
                        assert(v@ =~= spec_syllable(111u8));
                        v
                    }
                }
            }
        }
    } else {
        if b < 120 {
            if b < 116 {
                if b < 114 {
                    if b < 113 {
                        let mut v: Vec<u8> = Vec::new();
                        v.push(99u8); v.push(105u8); v.push(110u8);
                        assert(v@ =~= spec_syllable(112u8));
                        v
                    } else {
                        let mut v: Vec<u8> = Vec::new();
                        v.push(99u8); v.push(111u8); v.push(110u8);
                        assert(v@ =~= spec_syllable(113u8));
                        v
                    }
                } else {
                    if b < 115 {
                        let mut v: Vec<u8> = Vec::new();
                        v.push(99u8); v.push(117u8); v.push(110u8);
                        assert(v@ =~= spec_syllable(114u8));
                        v
                    } else {
                        let mut v: Vec<u8> = Vec::new();
                        v.push(100u8); v.push(97u8); v.push(110u8);
                        assert(v@ =~= spec_syllable(115u8));
                        v
                    }
                }
            } else {
                if b < 118 {
                    if b < 117 {
                        let mut v: Vec<u8> = Vec::new();
                        v.push(100u8); v.push(101u8); v.push(110u8);
                        assert(v@ =~= spec_syllable(116u8));
                        v
                    } else {
                        let mut v: Vec<u8> = Vec::new();
                        v.push(100u8); v.push(105u8); v.push(110u8);
                        assert(v@ =~= spec_syllable(117u8));
                        v
                    }
                } else {
                    if b < 119 {
                        let mut v: Vec<u8> = Vec::new();
                        v.push(100u8); v.push(111u8); v.push(110u8);
                        assert(v@ =~= spec_syllable(118u8));
                        v
                    } else {
                        let mut v: Vec<u8> = Vec::new();
                        v.push(100u8); v.push(117u8); v.push(110u8);
                        assert(v@ =~= spec_syllable(119u8));
                        v
                    }
                }
            }
        } else {
            if b < 124 {
                if b < 122 {
                    if b < 121 {
                        let mut v: Vec<u8> = Vec::new();
                        v.push(102u8); v.push(97u8); v.push(110u8);
                        assert(v@ =~= spec_syllable(120u8));
                        v
                    } else {
                        let mut v: Vec<u8> = Vec::new();
                        v.push(102u8); v.push(101u8); v.push(110u8);
                        assert(v@ =~= spec_syllable(121u8));
                        v
                    }
                } else {
                    if b < 123 {
                        let mut v: Vec<u8> = Vec::new();
                        v.push(102u8); v.push(105u8); v.push(110u8);
                        assert(v@ =~= spec_syllable(122u8));
                        v
                    } else {
                        let mut v: Vec<u8> = Vec::new();
                        v.push(102u8); v.push(111u8); v.push(110u8);
                        assert(v@ =~= spec_syllable(123u8));
                        v
                    }
                }
            } else {
                if b < 126 {
                    if b < 125 {
                        let mut v: Vec<u8> = Vec::new();
                        v.push(102u8); v.push(117u8); v.push(110u8);
                        assert(v@ =~= spec_syllable(124u8));
                        v
                    } else {
                        let mut v: Vec<u8> = Vec::new();
                        v.push(103u8); v.push(97u8); v.push(110u8);
                        assert(v@ =~= spec_syllable(125u8));
                        v
                    }
                } else {
                    if b < 127 {
                        let mut v: Vec<u8> = Vec::new();
                        v.push(103u8); v.push(101u8); v.push(110u8);
                        assert(v@ =~= spec_syllable(126u8));
                        v
                    } else {
                        let mut v: Vec<u8> = Vec::new();
                        v.push(103u8); v.push(105u8); v.push(110u8);
                        assert(v@ =~= spec_syllable(127u8));
                        v
                    }
                }
            }
        }
    }
}

fn syllable_part_4(b: u8) -> (r: Vec<u8>)
    requires
        128 <= b < 160,
    ensures
        r@ == spec_syllable(b),
{
    if b < 144 {
        if b < 136 {
            if b < 132 {
                if b < 130 {
                    if b < 129 {
                        let mut v: Vec<u8> = Vec::new();
                        v.push(103u8); v.push(111u8); v.push(110u8);
                        assert(v@ =~= spec_syllable(128u8));
                        v
                    } else {
                        let mut v: Vec<u8> = Vec::new();
                        v.push(103u8); v.push(117u8); v.push(110u8);
                        assert(v@ =~= spec_syllable(129u8));
                        v
                    }
                } else {
                    if b < 131 {
                        let mut v: Vec<u8> = Vec::new();
                        v.push(104u8); v.push(97u8); v.push(110u8);
                        assert(v@ =~= spec_syllable(130u8));
                        v
                    } else {
                        let mut v: Vec<u8> = Vec::new();
                        v.push(104u8); v.push(101u8); v.push(110u8);
                        assert(v@ =~= spec_syllable(131u8));
                        v
                    }
                }
            } else {
                if b < 134 {
                    if b < 133 {
                        let mut v: Vec<u8> = Vec::new();
                        v.push(104u8); v.push(105u8); v.push(110u8);
                        assert(v@ =~= spec_syllable(132u8));
                        v
                    } else {
                        let mut v: Vec<u8> = Vec::new();
                        v.push(104u8); v.push(111u8); v.push(110u8);
                        assert(v@ =~= spec_syllable(133u8));
                        v
                    }
                } else {
                    if b < 135 {
                        let mut v: Vec<u8> = Vec::new();
                        v.push(104u8); v.push(117u8); v.push(110u8);
                        assert(v@ =~= spec_syllable(134u8));
                        v
                    } else {
                        let mut v: Vec<u8> = Vec::new();
                        v.push(106u8); v.push(97u8); v.push(110u8);
                        assert(v@ =~= spec_syllable(135u8));
                        v
                    }
                }
            }
        } else {
            if b < 140 {
                if b < 138 {
                    if b < 137 {
                        let mut v: Vec<u8> = Vec::new();
                        v.push(106u8); v.push(101u8); v.push(110u8);
                        assert(v@ =~= spec_syllable(136u8));
                        v
                    } else {
                        let mut v: Vec<u8> = Vec::new();
                        v.push(106u8); v.push(105u8); v.push(110u8);
                        assert(v@ =~= spec_syllable(137u8));
                        v
                    }
                } else {
                    if b < 139 {
                        let mut v: Vec<u8> = Vec::new();
                        v.push(106u8); v.push(111u8); v.push(110u8);
                        assert(v@ =~= spec_syllable(138u8));
                        v
                    } else {
                        let mut v: Vec<u8> = Vec::new();
                        v.push(106u8); v.push(117u8); v.push(110u8);
                        assert(v@ =~= spec_syllable(139u8));
                        v
                    }
                }
            } else {
                if b < 142 {
                    if b < 141 {
                        let mut v: Vec<u8> = Vec::new();
                        v.push(107u8); v.push(97u8); v.push(110u8);
                        assert(v@ =~= spec_syllable(140u8));
                        v
                    } else {
                        let mut v: Vec<u8> = Vec::new();
                        v.push(107u8); v.push(101u8); v.push(110u8);
                        assert(v@ =~= spec_syllable(141u8));
                        v
                    }
                } else {
                    if b < 143 {
                        let mut v: Vec<u8> = Vec::new();
                        v.push(107u8); v.push(105u8); v.push(110u8);
                        assert(v@ =~= spec_syllable(142u8));
                        v
                    } else {
                        let mut v: Vec<u8> = Vec::new();
                        v.push(107u8); v.push(111u8); v.push(110u8);
                        assert(v@ =~= spec_syllable(143u8));
                        v
                    }
                }
            }
        }
    } else {
        if b < 152 {
            if b < 148 {
                if b < 146 {
                    if b < 145 {
                        let mut v: Vec<u8> = Vec::new();
                        v.push(107u8); v.push(117u8); v.push(110u8);
                        assert(v@ =~= spec_syllable(144u8));
                        v
                    } else {
                        let mut v: Vec<u8> = Vec::new();
                        v.push(108u8); v.push(97u8); v.push(110u8);
                        assert(v@ =~= spec_syllable(145u8));
                        v
                    }
                } else {
                    if b < 147 {
                        let mut v: Vec<u8> = Vec::new();
                        v.push(108u8); v.push(101u8); v.push(110u8);
                        assert(v@ =~= spec_syllable(146u8));
                        v
                    } else {
                        let mut v: Vec<u8> = Vec::new();
                        v.push(108u8); v.push(105u8); v.push(110u8);
                        assert(v@ =~= spec_syllable(147u8));
                        v
                    }
                }
            } else {
                if b < 150 {
                    if b < 149 {
                        let mut v: Vec<u8> = Vec::new();
                        v.push(108u8); v.push(111u8); v.push(110u8);
                        assert(v@ =~= spec_syllable(148u8));
                        v
                    } else {
                        let mut v: Vec<u8> = Vec::new();
                        v.push(108u8); v.push(117u8); v.push(110u8);
                        assert(v@ =~= spec_syllable(149u8));
                        v
                    }
                } else {
                    if b < 151 {
                        let mut v: Vec<u8> = Vec::new();
                        v.push(109u8); v.push(97u8); v.push(110u8);
                        assert(v@ =~= spec_syllable(150u8));
                        v
                    } else {
                        let mut v: Vec<u8> = Vec::new();
                        v.push(109u8); v.push(101u8); v.push(110u8);
                        assert(v@ =~= spec_syllable(151u8));
                        v
                    }
                }
            }
        } else {
            if b < 156 {
                if b < 154 {
                    if b < 153 {
                        let mut v: Vec<u8> = Vec::new();
                        v.push(109u8); v.push(105u8); v.push(110u8);
                        assert(v@ =~= spec_syllable(152u8));
                        v
                    } else {
                        let mut v: Vec<u8> = Vec::new();
                        v.push(109u8); v.push(111u8); v.push(110u8);
                        assert(v@ =~= spec_syllable(153u8));
                        v
                    }
                } else {
                    if b < 155 {
                        let mut v: Vec<u8> = Vec::new();
                        v.push(109u8); v.push(117u8); v.push(110u8);
                        assert(v@ =~= spec_syllable(154u8));
                        v
                    } else {
                        let mut v: Vec<u8> = Vec::new();
                        v.push(110u8); v.push(97u8); v.push(110u8);
                        assert(v@ =~= spec_syllable(155u8));
                        v
                    }
                }
            } else {
                if b < 158 {
                    if b < 157 {
                        let mut v: Vec<u8> = Vec::new();
                        v.push(110u8); v.push(101u8); v.push(110u8);
                        assert(v@ =~= spec_syllable(156u8));
                        v
                    } else {
                        let mut v: Vec<u8> = Vec::new();
                        v.push(110u8); v.push(105u8); v.push(110u8);
                        assert(v@ =~= spec_syllable(157u8));
                        v
                    }
                } else {
                    if b < 159 {
                        let mut v: Vec<u8> = Vec::new();
                        v.push(110u8); v.push(111u8); v.push(110u8);
                        assert(v@ =~= spec_syllable(158u8));
                        v
                    } else {
                        let mut v: Vec<u8> = Vec::new();
                        v.push(110u8); v.push(117u8); v.push(110u8);
                        assert(v@ =~= spec_syllable(159u8));
                        v
                    }
                }
            }
        }
    }
}

fn syllable_part_5(b: u8) -> (r: Vec<u8>)
    requires
        160 <= b < 192,
    ensures
        r@ == spec_syllable(b),
{
    if b < 176 {
        if b < 168 {
            if b < 164 {
                if b < 162 {
                    if b < 161 {
                        let mut v: Vec<u8> = Vec::new();
                        v.push(112u8); v.push(97u8); v.push(110u8);
                        assert(v@ =~= spec_syllable(160u8));
                        v
                    } else {
                        let mut v: Vec<u8> = Vec::new();
                        v.push(112u8); v.push(101u8); v.push(110u8);
                        assert(v@ =~= spec_syllable(161u8));
                        v
                    }
                } else {
                    if b < 163 {
                        let mut v: Vec<u8> = Vec::new();
                        v.push(112u8); v.push(105u8); v.push(110u8);
                        assert(v@ =~= spec_syllable(162u8));
                        v
                    } else {
                        let mut v: Vec<u8> = Vec::new();
                        v.push(112u8); v.push(111u8); v.push(110u8);
                        assert(v@ =~= spec_syllable(163u8));
                        v
                    }
                }
            } else {
                if b < 166 {
                    if b < 165 {
                        let mut v: Vec<u8> = Vec::new();
                        v.push(112u8); v.push(117u8); v.push(110u8);
                        assert(v@ =~= spec_syllable(164u8));
                        v
                    } else {
                        let mut v: Vec<u8> = Vec::new();
                        v.push(114u8); v.push(97u8); v.push(110u8);
                        assert(v@ =~= spec_syllable(165u8));
                        v
                    }
                } else {
                    if b < 167 {
                        let mut v: Vec<u8> = Vec::new();
                        v.push(114u8); v.push(101u8); v.push(110u8);
                        assert(v@ =~= spec_syllable(166u8));
                        v
                    } else {
                        let mut v: Vec<u8> = Vec::new();
                        v.push(114u8); v.push(105u8); v.push(110u8);
                        assert(v@ =~= spec_syllable(167u8));
                        v
                    }
                }
            }
        } else {
            if b < 172 {
                if b < 170 {
                    if b < 169 {
                        let mut v: Vec<u8> = Vec::new();
                        v.push(114u8); v.push(111u8); v.push(110u8);
                        assert(v@ =~= spec_syllable(168u8));
                        v
                    } else {
                        let mut v: Vec<u8> = Vec::new();
                        v.push(114u8); v.push(117u8); v.push(110u8);
                        assert(v@ =~= spec_syllable(169u8));
                        v
                    }
                } else {
                    if b < 171 {
                        let mut v: Vec<u8> = Vec::new();
                        v.push(115u8); v.push(97u8); v.push(110u8);
                        assert(v@ =~= spec_syllable(170u8));
                        v
                    } else {
                        let mut v: Vec<u8> = Vec::new();
                        v.push(115u8); v.push(101u8); v.push(110u8);
                        assert(v@ =~= spec_syllable(171u8));
                        v
                    }
                }
            } else {
                if b < 174 {
                    if b < 173 {
                        let mut v: Vec<u8> = Vec::new();
                        v.push(115u8); v.push(105u8); v.push(110u8);
                        assert(v@ =~= spec_syllable(172u8));
                        v
                    } else {
                        let mut v: Vec<u8> = Vec::new();
                        v.push(115u8); v.push(111u8); v.push(110u8);
                        assert(v@ =~= spec_syllable(173u8));
                        v
                    }
                } else {
                    if b < 175 {
                        let mut v: Vec<u8> = Vec::new();
                        v.push(115u8); v.push(117u8); v.push(110u8);
                        assert(v@ =~= spec_syllable(174u8));
                        v
                    } else {
                        let mut v: Vec<u8> = Vec::new();
                        v.push(116u8); v.push(97u8); v.push(110u8);
                        assert(v@ =~= spec_syllable(175u8));
                        v
                    }
                }
            }
        }
    } else {
        if b < 184 {
            if b < 180 {
                if b < 178 {
                    if b < 177 {
                        let mut v: Vec<u8> = Vec::new();
                        v.push(116u8); v.push(101u8); v.push(110u8);
                        assert(v@ =~= spec_syllable(176u8));
                        v
                    } else {
                        let mut v: Vec<u8> = Vec::new();
                        v.push(116u8); v.push(105u8); v.push(110u8);
                        assert(v@ =~= spec_syllable(177u8));
                        v
                    }
                } else {
                    if b < 179 {
                        let mut v: Vec<u8> = Vec::new();
                        v.push(116u8); v.push(111u8); v.push(110u8);
                        assert(v@ =~= spec_syllable(178u8));
                        v
                    } else {
                        let mut v: Vec<u8> = Vec::new();
                        v.push(116u8); v.push(117u8); v.push(110u8);
                        assert(v@ =~= spec_syllable(179u8));
                        v
                    }
                }
            } else {
                if b < 182 {
                    if b < 181 {
                        let mut v: Vec<u8> = Vec::new();
                        v.push(118u8); v.push(97u8); v.push(110u8);
                        assert(v@ =~= spec_syllable(180u8));
                        v
                    } else {
                        let mut v: Vec<u8> = Vec::new();
                        v.push(118u8); v.push(101u8); v.push(110u8);
                        assert(v@ =~= spec_syllable(181u8));
                        v
                    }
                } else {
                    if b < 183 {
                        let mut v: Vec<u8> = Vec::new();
                        v.push(118u8); v.push(105u8); v.push(110u8);
                        assert(v@ =~= spec_syllable(182u8));
                        v
                    } else {
                        let mut v: Vec<u8> = Vec::new();
                        v.push(118u8); v.push(111u8); v.push(110u8);
                        assert(v@ =~= spec_syllable(183u8));
                        v
                    }
                }
            }
        } else {
            if b < 188 {
                if b < 186 {
                    if b < 185 {
                        let mut v: Vec<u8> = Vec::new();
                        v.push(118u8); v.push(117u8); v.push(110u8);
                        assert(v@ =~= spec_syllable(184u8));
                        v
                    } else {
                        let mut v: Vec<u8> = Vec::new();
                        v.push(119u8); v.push(97u8); v.push(110u8);
                        assert(v@ =~= spec_syllable(185u8));
                        v
                    }
                } else {
                    if b < 187 {
                        let mut v: Vec<u8> = Vec::new();
                        v.push(119u8); v.push(101u8); v.push(110u8);
                        assert(v@ =~= spec_syllable(186u8));
                        v
                    } else {
                        let mut v: Vec<u8> = Vec::new();
                        v.push(119u8); v.push(105u8); v.push(110u8);
                        assert(v@ =~= spec_syllable(187u8));
                        v
                    }
                }
            } else {
                if b < 190 {
                    if b < 189 {
                        let mut v: Vec<u8> = Vec::new();
                        v.push(119u8); v.push(111u8); v.push(110u8);
                        assert(v@ =~= spec_syllable(188u8));
                        v
                    } else {
                        let mut v: Vec<u8> = Vec::new();
                        v.push(119u8); v.push(117u8); v.push(110u8);
                        assert(v@ =~= spec_syllable(189u8));
                        v
                    }
                } else {
                    if b < 191 {
                        let mut v: Vec<u8> = Vec::new();
                        v.push(120u8); v.push(97u8); v.push(110u8);
                        assert(v@ =~= spec_syllable(190u8));
                        v
                    } else {
                        let mut v: Vec<u8> = Vec::new();
                        v.push(120u8); v.push(101u8); v.push(110u8);
                        assert(v@ =~= spec_syllable(191u8));
                        v
                    }
                }
            }
        }
    }
}

fn syllable_part_6(b: u8) -> (r: Vec<u8>)
    requires
        192 <= b < 224,
    ensures
        r@ == spec_syllable(b),
{
    if b < 208 {
        if b < 200 {
            if b < 196 {
                if b < 194 {
                    if b < 193 {
                        let mut v: Vec<u8> = Vec::new();
                        v.push(120u8); v.push(105u8); v.push(110u8);
                        assert(v@ =~= spec_syllable(192u8));
                        v
                    } else {
                        let mut v: Vec<u8> = Vec::new();
                        v.push(120u8); v.push(111u8); v.push(110u8);
                        assert(v@ =~= spec_syllable(193u8));
                        v
                    }
                } else {
                    if b < 195 {
                        let mut v: Vec<u8> = Vec::new();
                        v.push(120u8); v.push(117u8); v.push(110u8);
                        assert(v@ =~= spec_syllable(194u8));
                        v
                    } else {
                        let mut v: Vec<u8> = Vec::new();
                        v.push(121u8); v.push(97u8); v.push(110u8);
                        assert(v@ =~= spec_syllable(195u8));
                        v
                    }
                }
            } else {
                if b < 198 {
                    if b < 197 {
                        let mut v: Vec<u8> = Vec::new();
                        v.push(121u8); v.push(101u8); v.push(110u8);
                        assert(v@ =~= spec_syllable(196u8));
                        v
                    } else {
                        let mut v: Vec<u8> = Vec::new();
                        v.push(121u8); v.push(105u8); v.push(110u8);
                        assert(v@ =~= spec_syllable(197u8));
                        v
                    }
                } else {
                    if b < 199 {
                        let mut v: Vec<u8> = Vec::new();
                        v.push(121u8); v.push(111u8); v.push(110u8);
                        assert(v@ =~= spec_syllable(198u8));
                        v
                    } else {
                        let mut v: Vec<u8> = Vec::new();
                        v.push(121u8); v.push(117u8); v.push(110u8);
                        assert(v@ =~= spec_syllable(199u8));
                        v
                    }
                }
            }
        } else {
            if b < 204 {
                if b < 202 {
                    if b < 201 {
                        let mut v: Vec<u8> = Vec::new();
                        v.push(122u8); v.push(97u8); v.push(110u8);
                        assert(v@ =~= spec_syllable(200u8));
                        v
                    } else {
                        let mut v: Vec<u8> = Vec::new();
                        v.push(122u8); v.push(101u8); v.push(110u8);
                        assert(v@ =~= spec_syllable(201u8));
                        v
                    }
                } else {
                    if b < 203 {
                        let mut v: Vec<u8> = Vec::new();
                        v.push(122u8); v.push(105u8); v.push(110u8);
                        assert(v@ =~= spec_syllable(202u8));
                        v
                    } else {
                        let mut v: Vec<u8> = Vec::new();
                        v.push(122u8); v.push(111u8); v.push(110u8);
                        assert(v@ =~= spec_syllable(203u8));
                        v
                    }
                }
            } else {
                if b < 206 {
                    if b < 205 {
                        let mut v: Vec<u8> = Vec::new();
                        v.push(122u8); v.push(117u8); v.push(110u8);
                        assert(v@ =~= spec_syllable(204u8));
                        v
                    } else {
                        let mut v: Vec<u8> = Vec::new();
                        v.push(98u8); v.push(97u8); v.push(115u8);
                        assert(v@ =~= spec_syllable(205u8));
                        v
                    }
                } else {
                    if b < 207 {
                        let mut v: Vec<u8> = Vec::new();
                        v.push(98u8); v.push(101u8); v.push(115u8);
                        assert(v@ =~= spec_syllable(206u8));
                        v
                    } else {
                        let mut v: Vec<u8> = Vec::new();
                        v.push(98u8); v.push(105u8); v.push(115u8);
                        assert(v@ =~= spec_syllable(207u8));
                        v
                    }
                }
            }
        }
    } else {
        if b < 216 {
            if b < 212 {
                if b < 210 {
                    if b < 209 {
                        let mut v: Vec<u8> = Vec::new();
                        v.push(98u8); v.push(111u8); v.push(115u8);
                        assert(v@ =~= spec_syllable(208u8));
                        v
                    } else {
                        let mut v: Vec<u8> = Vec::new();
                        v.push(98u8); v.push(117u8); v.push(115u8);
                        assert(v@ =~= spec_syllable(209u8));
                        v
                    }
                } else {
                    if b < 211 {
                        let mut v: Vec<u8> = Vec::new();
                        v.push(99u8); v.push(97u8); v.push(115u8);
                        assert(v@ =~= spec_syllable(210u8));
                        v
                    } else {
                        let mut v: Vec<u8> = Vec::new();
                        v.push(99u8); v.push(101u8); v.push(115u8);
                        assert(v@ =~= spec_syllable(211u8));
                        v
                    }
                }
            } else {
                if b < 214 {
                    if b < 213 {
                        let mut v: Vec<u8> = Vec::new();
                        v.push(99u8); v.push(105u8); v.push(115u8);
                        assert(v@ =~= spec_syllable(212u8));
                        v
                    } else {
                        let mut v: Vec<u8> = Vec::new();
                        v.push(99u8); v.push(111u8); v.push(115u8);
                        assert(v@ =~= spec_syllable(213u8));
                        v
                    }
                } else {
                    if b < 215 {
                        let mut v: Vec<u8> = Vec::new();
                        v.push(99u8); v.push(117u8); v.push(115u8);
                        assert(v@ =~= spec_syllable(214u8));
                        v
                    } else {
                        let mut v: Vec<u8> = Vec::new();
                        v.push(100u8); v.push(97u8); v.push(115u8);
                        assert(v@ =~= spec_syllable(215u8));
                        v
                    }
                }
            }
        } else {
            if b < 220 {
                if b < 218 {
                    if b < 217 {
                        let mut v: Vec<u8> = Vec::new();
                        v.push(100u8); v.push(101u8); v.push(115u8);
                        assert(v@ =~= spec_syllable(216u8));
                        v
                    } else {
                        let mut v: Vec<u8> = Vec::new();
                        v.push(100u8); v.push(105u8); v.push(115u8);
                        assert(v@ =~= spec_syllable(217u8));
                        v
                    }
                } else {
                    if b < 219 {
                        let mut v: Vec<u8> = Vec::new();
                        v.push(100u8); v.push(111u8); v.push(115u8);
                        assert(v@ =~= spec_syllable(218u8));
                        v
                    } else {
                        let mut v: Vec<u8> = Vec::new();
                        v.push(100u8); v.push(117u8); v.push(115u8);
                        assert(v@ =~= spec_syllable(219u8));
                        v
                    }
                }
            } else {
                if b < 222 {
                    if b < 221 {
                        let mut v: Vec<u8> = Vec::new();
                        v.push(102u8); v.push(97u8); v.push(115u8);
                        assert(v@ =~= spec_syllable(220u8));
                        v
                    } else {
                        let mut v: Vec<u8> = Vec::new();
                        v.push(102u8); v.push(101u8); v.push(115u8);
                        assert(v@ =~= spec_syllable(221u8));
                        v
                    }
                } else {
                    if b < 223 {
                        let mut v: Vec<u8> = Vec::new();
                        v.push(102u8); v.push(105u8); v.push(115u8);
                        assert(v@ =~= spec_syllable(222u8));
                        v
                    } else {
                        let mut v: Vec<u8> = Vec::new();
                        v.push(102u8); v.push(111u8); v.push(115u8);
                        assert(v@ =~= spec_syllable(223u8));
                        v
                    }
                }
            }
        }
    }
}

fn syllable_part_7(b: u8) -> (r: Vec<u8>)
    requires
        224 <= b < 256,
    ensures
        r@ == spec_syllable(b),
{
    if b < 240 {
        if b < 232 {
            if b < 228 {
                if b < 226 {
                    if b < 225 {
                        let mut v: Vec<u8> = Vec::new();
                        v.push(102u8); v.push(117u8); v.push(115u8);
                        assert(v@ =~= spec_syllable(224u8));
                        v
                    } else {
                        let mut v: Vec<u8> = Vec::new();
                        v.push(103u8); v.push(97u8); v.push(115u8);
                        assert(v@ =~= spec_syllable(225u8));
                        v
                    }
                } else {
                    if b < 227 {
                        let mut v: Vec<u8> = Vec::new();
                        v.push(103u8); v.push(101u8); v.push(115u8);
                        assert(v@ =~= spec_syllable(226u8));
                        v
                    } else {
                        let mut v: Vec<u8> = Vec::new();
                        v.push(103u8); v.push(105u8); v.push(115u8);
                        assert(v@ =~= spec_syllable(227u8));
                        v
                    }
                }
            } else {
                if b < 230 {
                    if b < 229 {
                        let mut v: Vec<u8> = Vec::new();
                        v.push(103u8); v.push(111u8); v.push(115u8);
                        assert(v@ =~= spec_syllable(228u8));
                        v
                    } else {
                        let mut v: Vec<u8> = Vec::new();
                        v.push(103u8); v.push(117u8); v.push(115u8);
                        assert(v@ =~= spec_syllable(229u8));
                        v
                    }
                } else {
                    if b < 231 {
                        let mut v: Vec<u8> = Vec::new();
                        v.push(104u8); v.push(97u8); v.push(115u8);
                        assert(v@ =~= spec_syllable(230u8));
                        v
                    } else {
                        let mut v: Vec<u8> = Vec::new();
                        v.push(104u8); v.push(101u8); v.push(115u8);
                        assert(v@ =~= spec_syllable(231u8));
                        v
                    }
                }
            }
        } else {
            if b < 236 {
                if b < 234 {
                    if b < 233 {
                        let mut v: Vec<u8> = Vec::new();
                        v.push(104u8); v.push(105u8); v.push(115u8);
                        assert(v@ =~= spec_syllable(232u8));
                        v
                    } else {
                        let mut v: Vec<u8> = Vec::new();
                        v.push(104u8); v.push(111u8); v.push(115u8);
                        assert(v@ =~= spec_syllable(233u8));
                        v
                    }
                } else {
                    if b < 235 {
                        let mut v: Vec<u8> = Vec::new();
                        v.push(104u8); v.push(117u8); v.push(115u8);
                        assert(v@ =~= spec_syllable(234u8));
                        v
                    } else {
                        let mut v: Vec<u8> = Vec::new();
                        v.push(106u8); v.push(97u8); v.push(115u8);
                        assert(v@ =~= spec_syllable(235u8));
                        v
                    }
                }
            } else {
                if b < 238 {
                    if b < 237 {
                        let mut v: Vec<u8> = Vec::new();
                        v.push(106u8); v.push(101u8); v.push(115u8);
                        assert(v@ =~= spec_syllable(236u8));
                        v
                    } else {
                        let mut v: Vec<u8> = Vec::new();
                        v.push(106u8); v.push(105u8); v.push(115u8);
                        assert(v@ =~= spec_syllable(237u8));
                        v
                    }
                } else {
                    if b < 239 {
                        let mut v: Vec<u8> = Vec::new();
                        v.push(106u8); v.push(111u8); v.push(115u8);
                        assert(v@ =~= spec_syllable(238u8));
                        v
                    } else {
                        let mut v: Vec<u8> = Vec::new();
                        v.push(106u8); v.push(117u8); v.push(115u8);
                        assert(v@ =~= spec_syllable(239u8));
                        v
                    }
                }
            }
        }
    } else {
        if b < 248 {
            if b < 244 {
                if b < 242 {
                    if b < 241 {
                        let mut v: Vec<u8> = Vec::new();
                        v.push(107u8); v.push(97u8); v.push(115u8);
                        assert(v@ =~= spec_syllable(240u8));
                        v
                    } else {
                        let mut v: Vec<u8> = Vec::new();
                        v.push(107u8); v.push(101u8); v.push(115u8);
                        assert(v@ =~= spec_syllable(241u8));
                        v
                    }
                } else {
                    if b < 243 {
                        let mut v: Vec<u8> = Vec::new();
                        v.push(107u8); v.push(105u8); v.push(115u8);
                        assert(v@ =~= spec_syllable(242u8));
                        v
                    } else {
                        let mut v: Vec<u8> = Vec::new();
                        v.push(107u8); v.push(111u8); v.push(115u8);
                        assert(v@ =~= spec_syllable(243u8));
                        v
                    }
                }
            } else {
                if b < 246 {
                    if b < 245 {
                        let mut v: Vec<u8> = Vec::new();
                        v.push(107u8); v.push(117u8); v.push(115u8);
                        assert(v@ =~= spec_syllable(244u8));
                        v
                    } else {
                        let mut v: Vec<u8> = Vec::new();
                        v.push(108u8); v.push(97u8); v.push(115u8);
                        assert(v@ =~= spec_syllable(245u8));
                        v
                    }
                } else {
                    if b < 247 {
                        let mut v: Vec<u8> = Vec::new();
                        v.push(108u8); v.push(101u8); v.push(115u8);
                        assert(v@ =~= spec_syllable(246u8));
                        v
                    } else {
                        let mut v: Vec<u8> = Vec::new();
                        v.push(108u8); v.push(105u8); v.push(115u8);
                        assert(v@ =~= spec_syllable(247u8));
                        v
                    }
                }
            }
        } else {
            if b < 252 {
                if b < 250 {
                    if b < 249 {
                        let mut v: Vec<u8> = Vec::new();
                        v.push(108u8); v.push(111u8); v.push(115u8);
                        assert(v@ =~= spec_syllable(248u8));
                        v
                    } else {
                        let mut v: Vec<u8> = Vec::new();
                        v.push(108u8); v.push(117u8); v.push(115u8);
                        assert(v@ =~= spec_syllable(249u8));
                        v
                    }
                } else {
                    if b < 251 {
                        let mut v: Vec<u8> = Vec::new();
                        v.push(109u8); v.push(97u8); v.push(115u8);
                        assert(v@ =~= spec_syllable(250u8));
                        v
                    } else {
                        let mut v: Vec<u8> = Vec::new();
                        v.push(109u8); v.push(101u8); v.push(115u8);
                        assert(v@ =~= spec_syllable(251u8));
                        v
                    }
                }
            } else {
                if b < 254 {
                    if b < 253 {
                        let mut v: Vec<u8> = Vec::new();
                        v.push(109u8); v.push(105u8); v.push(115u8);
                        assert(v@ =~= spec_syllable(252u8));
                        v
                    } else {
                        let mut v: Vec<u8> = Vec::new();
                        v.push(109u8); v.push(111u8); v.push(115u8);
                        assert(v@ =~= spec_syllable(253u8));
                        v
                    }
                } else {
                    if b < 255 {
                        let mut v: Vec<u8> = Vec::new();
                        v.push(115u8); v.push(105u8); v.push(118u8); v.push(101u8);
                        assert(v@ =~= spec_syllable(254u8));
                        v
                    } else {
                        let mut v: Vec<u8> = Vec::new();
                        v.push(116u8); v.push(105u8); v.push(118u8); v.push(101u8);
                        assert(v@ =~= spec_syllable(255u8));
                        v
                    }
                }
            }
        }
    }
}

/// Looks a byte's syllable up in the table.
pub fn syllable_bytes(b: u8) -> (r: Vec<u8>)
    ensures
        r@ == spec_syllable(b),
{
    if b < 32 {
        syllable_part_0(b)
    } else if b < 64 {
        syllable_part_1(b)
    } else if b < 96 {
        syllable_part_2(b)
    } else if b < 128 {
        syllable_part_3(b)
    } else if b < 160 {
        syllable_part_4(b)
    } else if b < 192 {
        syllable_part_5(b)
    } else if b < 224 {
        syllable_part_6(b)
    } else {
        syllable_part_7(b)
    }
}

} // verus!
