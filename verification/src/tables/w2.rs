//! Constant-table data for state width 2: the flat round constants,
//! the sparse partial-round rows, the dense MDS matrix and the
//! partial-round transition matrix, in row-major order. The constant
//! arrays carry the data; the spec functions read the same arrays as
//! value sequences, and the builders return vectors proved equal to
//! those sequences.

use vstd::prelude::*;
use crate::field::{Uint256, from_limbs, limb_vals, lemma_vals_concat, vals};

verus! {

/// Part 0 of the round constants for width 2, as little-endian limbs.
pub const C_DATA_0: [[u64; 4]; 72] = [
    [0x6c7dc0dbd0abd7a7, 0xa71aa177534cdd1b, 0xfe1faaba294cba38, 0x9c46e9ec68e9bd4],
    [0x3c1d83ffa604cb81, 0xc5142b3ae405b834, 0x2a97ed937f3135cf, 0xc0356530896eec4],
    [0x432507fc740a87c4, 0x29f7714fc26d56c0, 0xaa422952fcc5b333, 0x250f5116a417d76a],
    [0xf458d850bb4a949f, 0x7a373b9b8225a384, 0x6659626c33c8213f, 0x264065ad87572e01],
    [0x39e33fda24bd42af, 0x29b294e4400376da, 0x6ce909ff94b87507, 0x2bb8e94ad8d8adca],
    [0xd4f85fbb09a5dbae, 0x8f6201b21ad5d239, 0xc813c15291d46a32, 0x19051065d05d861e],
    [0xcdf4776cdff3434a, 0x8d4d1c017165943, 0x8f5bd4550aac7b8e, 0x245bd0617aa44961],
    [0xc36ad091d491a88f, 0x48a1570155e0f2b1, 0x9d8acbf5b02131e0, 0x9fb1a1118074ff7],
    [0x484ab8973ff66d88, 0x18ea192f05e54c1, 0x972741952f78b7eb, 0x234ab504bbae8198],
    [0x835fbcfe0f2a324c, 0x48f9c8c6439f42a7, 0xae3d4c3513a282fd, 0x1f66e509b84c355],
    [0x27a920ccc43f91fa, 0x5af0efdc4910f541, 0x2cf00dd9ee62d1a, 0x1b22f5d69d725e60],
    [0x7db91f65a6dfc23f, 0xfa659ecd5b47a78a, 0x852968b7f1c4f490, 0x252b55edead135f],
    [0x6892a2c0487d7ff1, 0xca4b53303f21871f, 0xd0677c2a047fea8e, 0x1773ae2e1637c92a],
    [0x45d5ec9f7ac732f5, 0x666eac093cf77156, 0x2a79e76faeef6f87, 0x2d57b02906cd0ab8],
    [0x696f834596313d93, 0x8fb061317faffa03, 0xe8b2ddb8fc391a49, 0xa16f3a62824b281],
    [0x1e26b08e36a08591, 0xe0587757b788eb7f, 0x8d2a37834ab747ea, 0x1666f525f7f4b698],
    [0xe541d912ebe17b76, 0x7f5c82128e1dfec3, 0x13231f0ca25b50b5, 0x5da44f8e0a3b8bb],
    [0x24dc7861633bc95a, 0xdbfb5f39624cdd95, 0x191bac8bdb3e0144, 0x9a39ba9993303ba],
    [0x828dfd2ed0920a68, 0xe85a6d158f9f2a, 0x30ee6b418c0029e1, 0x6c0fb824a19202d],
    [0x324283bf9522395d, 0x8adc660627e52bb3, 0xa9776b4492cb3b41, 0x387d8e056b2b176],
    [0xbf7156f5c2dc9684, 0x3013cf1b62358396, 0x28a7a37bea40d6ac, 0x147a1af82036ef5b],
    [0xf9227e4cb7c6f81b, 0x88e8dff90a7a0525, 0x1bd0482bd3f0613d, 0x3038d92060daeaaf],
    [0x89a97245532908f5, 0xcf6c223339006f97, 0x39a323f9e5d65616, 0x72940aa1d538a5a],
    [0x464ed6f15e2b9023, 0x3a367ba216af048f, 0x70b8a879aedec49b, 0x2d3d604949f4e14c],
    [0x9746a176641e73c5, 0x2dcf7c7287b982e4, 0x80774c2b4d18309b, 0x225b9e4f35c7549f],
    [0xd139bbbf6c70414, 0x7dfe81c75a09709f, 0x190095a2344828e3, 0x1ea781288fdf13b2],
    [0x3502e5b6cb4aeeeb, 0xdc6890d4cee128b, 0x2b202405458468b9, 0x8e96c3e7e8de443],
    [0x3e85d55b366c805f, 0x29ce889a64a4ac18, 0x6dcaae57d070b49d, 0x5b43da7c8aa29af],
    [0xcdde724d8f610e52, 0xdcef7c996e7a51c7, 0xf7ba4861f1ad5a48, 0xbec98a034e3b8a],
    [0x80be384ee4ebe72a, 0x35b30fcae3030394, 0x2b9f84a5d0575fc4, 0x2eb67ccfa29e2b42],
    [0x2c4e8749a13915ca, 0x4a7105c631c86ecd, 0xf04eedee5d70bd08, 0x102bbdc21a3f147b],
    [0x8e3115cad3582f79, 0x127ae38915280fbb, 0xfd5bbe8d8562c1bf, 0x274bc16c88721bab],
    [0xb831611351bd9938, 0x1c8850b409d4928a, 0x283de04511f76910, 0x185cece417549b25],
    [0x7059ac0a32c36007, 0xf4c823674abe1773, 0xbc9cfb55c7faacb4, 0x13c73fb043f7e978],
    [0x933c4e5969481d70, 0x1cdd4cef5a4145c, 0x360c9c60595673e2, 0x24b3a1d83308742b],
    [0xf0f48d7a3744398b, 0xcdc8266a070f866e, 0xaa2a8f0f42425bcc, 0x18b5ae94df9ec97a],
    [0xe5f099f2d5905cb4, 0xbe38169b2d8522d9, 0xcc7cb1fac38501ab, 0x20eb398cb958cc2c],
    [0xa8b8eef2f4e29344, 0xbbbad1f4dcaa2e78, 0x2c2c7c0c78a02b22, 0x1e588dd3ec8b0d25],
    [0x42331d4e3043a0a6, 0xcd4217ffbaf294ca, 0x1bf3ab2e3fb40818, 0xf8bf3bd6c22ba3b],
    [0xc9f617021109cec3, 0xbee9dc184d25eab, 0x1d648f46bad01dd1, 0x388c9fcf30fc284],
    [0x441a90cec83b6454, 0x53dac263da793555, 0x7befa8b232f15c88, 0x2bb7f397c5941ac6],
    [0xbb3f0181c59fb21, 0xb43fb17db0e49925, 0x8874a4a31ef6a7be, 0x17f389b52f9ea7a9],
    [0x5f20c875a0b28c7c, 0xec24b7ad14d17b14, 0x1fb10561d560a9ae, 0x3a2090eacb897a3],
    [0x9619dcbee17ba099, 0x7cca4714399430e0, 0x1fe4bf64553389e6, 0xc398534f0eb580f],
    [0x7a5cebf4822328c4, 0xfa7f11ee63f3ee77, 0x7f181259e3635fef, 0x7095ac9fda46afa],
    [0xcd060958b1ced683, 0x9f82568abe2b33d1, 0x2b69cbc8bc0d5d80, 0x2046f7cf1c8f13ef],
    [0xcb660c4cb0f69107, 0x501acb68d56138fb, 0xde6e7f92f9097296, 0x2c274136a5de2849],
    [0x8d0f4507b3cf74c3, 0x7b0383094cb6467e, 0xeceef23afc6f16ec, 0x1c4d5178acb5c6b6],
    [0xb909325e28f7b8d3, 0xa7dd9701507dcbe8, 0xed116785b92c63a6, 0x65b1447d0d64cec],
    [0x40e023e7b72a1961, 0x9c9bfa3334389513, 0xc81a193d97933040, 0x2265d7e244881220],
    [0x6850502256b30aba, 0xfca8a6449b37669f, 0x37a1c76e67f9cec6, 0x15b12b355af7e056],
    [0xec2582d9075b4387, 0x35c2b48c687af168, 0xe4d3e3029497b88f, 0x1a1522fecc6ae028],
    [0x9240803076f58f26, 0xbcc53b0a9350e258, 0xe472a641a053c414, 0x22f56e79e81b7496],
    [0xd1ee278afd17fd0c, 0x2324672a17ab8417, 0xe7aabad692ceac4e, 0x202ddb66d0988994],
    [0x72f84510f73edfce, 0xb96cd428ae77bdea, 0x1a8e30208f8f1158, 0x12b0701e8813c5b2],
    [0x9df7e84e53eeee7e, 0xfe693fdde0eb1e1a, 0x7c8838ceb26b84c9, 0x1e63fd20e706e140],
    [0x88280dd1896259, 0xaa11500676ac7e57, 0xfd15af174c39f9d9, 0x20a16c5a86256def],
    [0x27558fb9bae0a3eb, 0x563e0435c0f2f37c, 0xad5aca2eaaee38da, 0x1c8f8bf8e153da55],
    [0x3880124fddf187c9, 0x159c1983213e416c, 0x3aabcfdcc4fbb67e, 0xd7732687bb7bf5f],
    [0x35f6ccef9e2f6865, 0xe108b3b60b6475d8, 0x2edcbbbf8264b195, 0xcdd04475a86999a],
    [0x53560c214fe3cbcd, 0xe3bfa43f547b411, 0x4c63a88c2ed3f9ba, 0x2fe65586cd4e754b],
    [0xf4f2837c727ad4d9, 0x62399815d98c56db, 0x4e659128ec29261f, 0x503cf963c827360],
    [0xf1475c8742cb334c, 0x400b393ef5fdf38e, 0x78379936f6d97ca9, 0x1ee48ea27839061b],
    [0xd73b2c1c5c0413f9, 0xc579e83563d04859, 0x2d7cd5bf0197c575, 0x1a423f8d8fc892b2],
    [0xae465636abb97ec7, 0xe0e8d8ab76c95616, 0x2f00e61778972a7b, 0x69a0da50133e995],
    [0xcf2b9909165d8614, 0x964c2f94dfbf0e44, 0x91c65a0976356f67, 0x1bf7879dd42f2cbb],
    [0x805fffd4547a0b98, 0x64e25056267f6c4a, 0x5c8fc0afe610be71, 0x1b23dccf48582206],
    [0xe3011f627bec7c2e, 0x409e564c9c4f3671, 0xe0c2e004ce5c5a4, 0x2ebe90d6f6fdca42],
    [0x290b2f4d6c6863f7, 0x7687760f3a2fa0da, 0xdfebe81d20c376e7, 0x167cd6930535a816],
    [0x3c8a966d4f90264b, 0xf19f1210374cc64e, 0x4ccc8b68b79df285, 0x8865c10f4a633c5],
    [0xa72cc6b833b7893b, 0x721b37e071851b03, 0x1ca25abb39d78894, 0x1de902fbc0bf0195],
    [0x676b16a31eab4667, 0xf67c988dd5bf0137, 0x852eb22da642e495, 0xe3eca007699dd0f],
];

/// The values of the round constants for width 2.
#[verifier::opaque]
pub open spec fn c_vals() -> Seq<nat> {
    limb_vals(C_DATA_0@)
}

/// The round constants for width 2.
pub(crate) fn c_table() -> (v: Vec<Uint256>)
    ensures
        v@.len() == 72,
        vals(v@) == c_vals(),
{
    let mut v = from_limbs(&C_DATA_0);
    proof {
        reveal(c_vals);
        assert(vals(v@) == c_vals());
    }
    v
}

/// Part 0 of the sparse partial-round rows for width 2, as little-endian limbs.
pub const S_DATA_0: [[u64; 4]; 168] = [
    [0xbceca70bd2af7ad5, 0xaf07f38af8c952a7, 0xec10345351a23a3a, 0x66f6f85d6f68a85],
    [0x3e45de825ff8cb5f, 0x2ec33b3cbd590c79, 0xfd52998d6a5be6f1, 0x1fd20dcb58503896],
    [0x4a11b5be4e0a1efb, 0x7096c1e6452d33d6, 0x1e97f0cdde8f202a, 0x8c8295df0ba1186],
    [0xbceca70bd2af7ad5, 0xaf07f38af8c952a7, 0xec10345351a23a3a, 0x66f6f85d6f68a85],
    [0x401b996421e89835, 0x47e20e05a76bc12b, 0xd165d2b08b95cf89, 0x2458ee6d7c526073],
    [0xef84e938209c92f9, 0x9f78a2fe1fbfb44e, 0xa65baf06ffa55782, 0x18c235e6e723390a],
    [0xbceca70bd2af7ad5, 0xaf07f38af8c952a7, 0xec10345351a23a3a, 0x66f6f85d6f68a85],
    [0x36c37df24976a584, 0x7b52e58595c3934, 0xe9c561b4b192899d, 0x1868e106689f8ea2],
    [0xcbe840b7b609ca92, 0x21153350df4075c9, 0x5cb8904ad3e8e9ec, 0x2d5161804f0ec644],
    [0xbceca70bd2af7ad5, 0xaf07f38af8c952a7, 0xec10345351a23a3a, 0x66f6f85d6f68a85],
    [0x7ecb79ddcf7b0b90, 0xab2dc3f4914612da, 0x55c690f03b9b815a, 0x3510550ddf62923],
    [0x909cf2d5f6ee6170, 0x5efe0058403d8a52, 0x5f264a26345ad836, 0x9a2e7bb3b278a1d],
    [0xbceca70bd2af7ad5, 0xaf07f38af8c952a7, 0xec10345351a23a3a, 0x66f6f85d6f68a85],
    [0xfe149b50b55759c0, 0x8ae94a0e6439be66, 0xb015a7a4233f4e48, 0x13dd4148c491a166],
    [0x9f86ddf110295550, 0xd90150eee4ce55dc, 0xc010f42ec3825649, 0x1d2d3b261f5beb3f],
    [0xbceca70bd2af7ad5, 0xaf07f38af8c952a7, 0xec10345351a23a3a, 0x66f6f85d6f68a85],
    [0xcd8ba68643ff77e5, 0x129190b3855ae4ee, 0x2abcabb47eb5e7a4, 0x221b4477678dad4e],
    [0x5f1d40e8e8fcd6e4, 0x830a4998ff45ebc2, 0x5f2043f5f09bedf1, 0x16b76448e9855f16],
    [0xbceca70bd2af7ad5, 0xaf07f38af8c952a7, 0xec10345351a23a3a, 0x66f6f85d6f68a85],
    [0x2363460e2286c92d, 0x8eae6d3bd53ac860, 0x142cf66104b69e44, 0x2a10b6a2cbae9578],
    [0x22e31949b69f2bec, 0x8ccfa871b9c067c5, 0xbe94dfb1d59edfa5, 0x2db84dba4a9d96ce],
    [0xbceca70bd2af7ad5, 0xaf07f38af8c952a7, 0xec10345351a23a3a, 0x66f6f85d6f68a85],
    [0xd5c149be890e7b60, 0xc273cf20c1f68f03, 0x96ad897ec1a55b4f, 0x1ca9bbf264022382],
    [0x367e0d7b5fde30d6, 0x3848ca730ace52f, 0x83d1b9d34ecb00cd, 0x283d37fa5e35d25c],
    [0xbceca70bd2af7ad5, 0xaf07f38af8c952a7, 0xec10345351a23a3a, 0x66f6f85d6f68a85],
    [0x9ab5f9c791d960, 0x1271e618a174e5d8, 0xea5a063a0ff8ab22, 0x349057941b141ce],
    [0x16c344d40070efc2, 0xe8958eb1e5d65380, 0x8503883d3b9ed50f, 0x1af2e1d98c3c0990],
    [0xbceca70bd2af7ad5, 0xaf07f38af8c952a7, 0xec10345351a23a3a, 0x66f6f85d6f68a85],
    [0x91f592e6c1da4679, 0x2743d0023bb64022, 0xaa3082e2c0544896, 0x5b7bddacf4522b0],
    [0x7e704131c8a35241, 0x7ff8c4a0bc78909c, 0x3cf6a0c21a6445da, 0x1fceeccf337e8a90],
    [0xbceca70bd2af7ad5, 0xaf07f38af8c952a7, 0xec10345351a23a3a, 0x66f6f85d6f68a85],
    [0xc960473e917a6768, 0xe058dfb6d91c322f, 0xafdd850f31d1920e, 0x2f30a25f4d843e28],
    [0x68f3c08f7c07ce87, 0x4574a89e5857751b, 0xbcc5916261702619, 0x1a55160bf49a4936],
    [0xbceca70bd2af7ad5, 0xaf07f38af8c952a7, 0xec10345351a23a3a, 0x66f6f85d6f68a85],
    [0x3b342b95709041e, 0xf1af24f54761998b, 0xb17573b6ad192b7d, 0x19c66ee887ab4763],
    [0x3789c9104f9c781e, 0x6ab3e723266777b, 0xf5f8624b31e11155, 0x1a82828b7f87eba7],
    [0xbceca70bd2af7ad5, 0xaf07f38af8c952a7, 0xec10345351a23a3a, 0x66f6f85d6f68a85],
    [0xd99debc7faed3385, 0xe84a242d81ae3a81, 0xde9fc4e71b250825, 0xf506d3199d96083],
    [0x4b2c04472aab9f83, 0x172374d99987a8b2, 0x57db9072a97567ff, 0x1cac7482d91faef6],
    [0xbceca70bd2af7ad5, 0xaf07f38af8c952a7, 0xec10345351a23a3a, 0x66f6f85d6f68a85],
    [0x3216939a72848150, 0xee63d489ee153ecc, 0x3f3192f0e4f52884, 0x249b26b1d4e333b2],
    [0x339dca336180dfb1, 0xf145972dcd3a0073, 0x8b97131154407d1b, 0x13d1aeb10b225e2a],
    [0xbceca70bd2af7ad5, 0xaf07f38af8c952a7, 0xec10345351a23a3a, 0x66f6f85d6f68a85],
    [0x84e4116624d16df3, 0x52720cbc14a70957, 0xb2e0f9400787d1dd, 0xb90f72b7fcf867e],
    [0xc5a6cd70011a8f39, 0x30f0c8d08bc5c365, 0x42abd21359513982, 0x25e346edd8dd551],
    [0xbceca70bd2af7ad5, 0xaf07f38af8c952a7, 0xec10345351a23a3a, 0x66f6f85d6f68a85],
    [0x587f2630a7b868a2, 0xeb87b4e21b7c424e, 0xc6427b0b4589ef6c, 0x263003b8ed502577],
    [0x89c09961ec12ead7, 0x8eb9c12255b910ff, 0x1b6c5b1c92e5a824, 0x2d92ef6b8bdc53dd],
    [0xbceca70bd2af7ad5, 0xaf07f38af8c952a7, 0xec10345351a23a3a, 0x66f6f85d6f68a85],
    [0x3543870c11316681, 0xb15bcae4181bbb12, 0x8d6d9459a7af04f0, 0x2eb36b6d0bfc593a],
    [0x833b2791f59034e0, 0xe37f4a5c2354952c, 0xc1d2f085f3979139, 0x1e48bb591146f461],
    [0xbceca70bd2af7ad5, 0xaf07f38af8c952a7, 0xec10345351a23a3a, 0x66f6f85d6f68a85],
    [0x51bb001550d8162a, 0xcf8a03f541079c1b, 0x1f0351ee180ca466, 0xe75991375141887],
    [0x327503cf49eca55b, 0x2e859c4661b14b7e, 0xb1f81c72eb0fe8c6, 0x1e45e194b16936c5],
    [0xbceca70bd2af7ad5, 0xaf07f38af8c952a7, 0xec10345351a23a3a, 0x66f6f85d6f68a85],
    [0x74ce4aefc57fbeb3, 0x69c4f6ac1867ed11, 0xa51af4529318b62, 0x28c8b58c9e4cfb83],
    [0xd1355c2c41b93016, 0x46fc3520889367ee, 0x9e5aafd4cd28c267, 0x255b293fcb1be27d],
    [0xbceca70bd2af7ad5, 0xaf07f38af8c952a7, 0xec10345351a23a3a, 0x66f6f85d6f68a85],
    [0x5c94da70415544fe, 0xcf40da775a54c35d, 0x7835365bbfa66f6e, 0x1db1367a8e37c559],
    [0xa9fed7ca34c5b4ce, 0xdf61286578a69989, 0x5edc683b9db74f08, 0xcdd97951c2f0b88],
    [0xbceca70bd2af7ad5, 0xaf07f38af8c952a7, 0xec10345351a23a3a, 0x66f6f85d6f68a85],
    [0x6ab3ba29c57306c9, 0xcca8a912b7ec2857, 0x745c6dd3630ec5a4, 0xe4d4e42cacb9fa6],
    [0xdada0bae3c7b3af6, 0x2d90ef2137d1905, 0xe351641744750d47, 0x2141a925c279e4c4],
    [0xbceca70bd2af7ad5, 0xaf07f38af8c952a7, 0xec10345351a23a3a, 0x66f6f85d6f68a85],
    [0xdc50cb042a54d167, 0x1119cc50648ce401, 0x9c20597cfbfe4902, 0x8f9f9b3abc79ed8],
    [0x952b99353df2b236, 0xdb24c8d4763fa042, 0xcd945c9f0eb7d4ea, 0x6af6c072313d868],
    [0xbceca70bd2af7ad5, 0xaf07f38af8c952a7, 0xec10345351a23a3a, 0x66f6f85d6f68a85],
    [0xd3eae4ac812b79d1, 0x55cbf9ba301f878e, 0xf376d1fa0c5e6e69, 0x8b43c97bf4a40b4],
    [0x2420e2abe16115a7, 0x3985237744652003, 0x34a714e6c5b7a4f8, 0x11e0e607ac6781ca],
    [0xbceca70bd2af7ad5, 0xaf07f38af8c952a7, 0xec10345351a23a3a, 0x66f6f85d6f68a85],
    [0xeb4de008b2c00da6, 0x3bff751e7b651152, 0xcb7e6b1c30ca428b, 0x2dd7f0e1b303f425],
    [0xa4128b349812dda8, 0xee84349aaadb71ea, 0x68b917120f993ae3, 0x107d7f92d1c6a240],
    [0xbceca70bd2af7ad5, 0xaf07f38af8c952a7, 0xec10345351a23a3a, 0x66f6f85d6f68a85],
    [0xcd820a7861ae1463, 0x23c7e16dd982f66d, 0xdb1166c64ed2fc32, 0x10ab9e8e4ec9ad5f],
    [0x4d7de1d209d25cb1, 0x17397713303544a8, 0x4ccc729984468a73, 0x3000d3b3ddb3fb86],
    [0xbceca70bd2af7ad5, 0xaf07f38af8c952a7, 0xec10345351a23a3a, 0x66f6f85d6f68a85],
    [0xf200fa27a0da6ebd, 0xc4a0c6b2debc2dc8, 0xb3eede8099a1dc45, 0x17610359e624e7fe],
    [0x982d24ad2a944eb8, 0x1a8439b65d74df5, 0xac04f6c2708794cd, 0x2affce5b7a7d8c5a],
    [0xbceca70bd2af7ad5, 0xaf07f38af8c952a7, 0xec10345351a23a3a, 0x66f6f85d6f68a85],
    [0x65e5895ca61c6e09, 0x4408d5fb69e1f649, 0xed32658bd21fc560, 0x2d439fbefe8d2b65],
    [0xf68a7935cd193ab9, 0xb3cfc4320de363a3, 0xd72a286d4938540d, 0xb51cc2a1b1c329f],
    [0xbceca70bd2af7ad5, 0xaf07f38af8c952a7, 0xec10345351a23a3a, 0x66f6f85d6f68a85],
    [0xd5e2695c43bd3247, 0x3185963272f34c51, 0xbafe78af8c24656a, 0x1468ea2868d31f7e],
    [0xed3fe19464879b95, 0xb662a0ec5797fdd4, 0xfa7bd734920e9be7, 0x29553949324f27f4],
    [0xbceca70bd2af7ad5, 0xaf07f38af8c952a7, 0xec10345351a23a3a, 0x66f6f85d6f68a85],
    [0x18d2cfb428343afa, 0x720047a7f9d1672d, 0x977fd4b86329f6cd, 0xd9780ee7d395f7c],
    [0x8036de18f17cb31d, 0x487f4716831dfff7, 0x3997860e220106c7, 0x210a098afd451fca],
    [0xbceca70bd2af7ad5, 0xaf07f38af8c952a7, 0xec10345351a23a3a, 0x66f6f85d6f68a85],
    [0xdda87a0dd90ad81, 0x5a2b2d97c571889a, 0x73d6ef5af88cd5b7, 0x1cedcfe2751b360e],
    [0xde2b047880aee03, 0x40a304f3648672f9, 0xbd45a619e91836c3, 0x22719f26e16723c1],
    [0xbceca70bd2af7ad5, 0xaf07f38af8c952a7, 0xec10345351a23a3a, 0x66f6f85d6f68a85],
    [0xc1350597be000be2, 0xef6ad66346e04613, 0x9f670f19c7490f8e, 0xae0cec959c4c785],
    [0x3b1c515ec64b0727, 0xa16cd03edda2e039, 0xb7316c238bc38f20, 0x177560de731482bd],
    [0xbceca70bd2af7ad5, 0xaf07f38af8c952a7, 0xec10345351a23a3a, 0x66f6f85d6f68a85],
    [0x75aef0b98e816a40, 0x14edf0aad6f7a7f1, 0xb4850a4f458add55, 0x1f19a267da0b8fc2],
    [0xd3770e7724c09f31, 0x6f398051ae1870af, 0xb54509031ea2888f, 0x1da77cdeff9cf822],
    [0xbceca70bd2af7ad5, 0xaf07f38af8c952a7, 0xec10345351a23a3a, 0x66f6f85d6f68a85],
    [0x3ecaa764f48f17a8, 0x7ba338cfd43ec9b3, 0x665a869970255c26, 0x2d1e17aaaa96743],
    [0x6c14670024329d12, 0xae5c86877a8f8226, 0xc980316ea26ef66f, 0xc376a8ff1da39de],
    [0xbceca70bd2af7ad5, 0xaf07f38af8c952a7, 0xec10345351a23a3a, 0x66f6f85d6f68a85],
    [0x2495a69c56680a79, 0xa783db5cad8e3f42, 0x7b39560adeb3c7a9, 0xbb856048ef43a7],
    [0xb20061656006c19a, 0x532c88d29ad652cb, 0xb2c99b6403f3ac4a, 0x1d81808a3c73be1b],
    [0xbceca70bd2af7ad5, 0xaf07f38af8c952a7, 0xec10345351a23a3a, 0x66f6f85d6f68a85],
    [0xafd3223c354add62, 0x81e445d4409a0e2a, 0xd24cc5900df8ff0b, 0x15e52ae83a9db363],
    [0x751abb8885203ad4, 0x159be533354ffb88, 0x37f7d88ef66f765a, 0x2aa2fc03cb5f72e2],
    [0xbceca70bd2af7ad5, 0xaf07f38af8c952a7, 0xec10345351a23a3a, 0x66f6f85d6f68a85],
    [0x7c7789b03ac932c0, 0xbc35f41992b1062a, 0xdace5c69546d0890, 0x10afedad881a1da7],
    [0x75fe2d8c882c858a, 0xad22a6e7d4f6bde8, 0x4042446e947dfedf, 0x1d18193701979ad2],
    [0xbceca70bd2af7ad5, 0xaf07f38af8c952a7, 0xec10345351a23a3a, 0x66f6f85d6f68a85],
    [0xc450dd96d7b24f36, 0x1cd417061e826b, 0x770beb0300a09fc7, 0x2f0b8457690e4d9],
    [0x8da18ff9d981effb, 0x53b8b9848be3062f, 0x6870e0b02b9776bc, 0xdc31897d61d70e1],
    [0xbceca70bd2af7ad5, 0xaf07f38af8c952a7, 0xec10345351a23a3a, 0x66f6f85d6f68a85],
    [0x9ebb0d5d73663525, 0x69c141200fd46bdc, 0xdad3a14a7603e3cb, 0x203c94bb7694f9c],
    [0x26fe8b09f1afc81f, 0x10eb985dcc81af99, 0xcdaa3c84372933e6, 0x2b778a231f21f8a6],
    [0xbceca70bd2af7ad5, 0xaf07f38af8c952a7, 0xec10345351a23a3a, 0x66f6f85d6f68a85],
    [0xd98b2138c8c9d5d2, 0xfaa7e359db111e84, 0x6a9d5272a2466a28, 0x2c8a0376c766055e],
    [0x9138fe44aaa8c778, 0xce4ad01e095f94f4, 0xe16ba590ae0cd49f, 0x2ffda33f5b85a4fd],
    [0xbceca70bd2af7ad5, 0xaf07f38af8c952a7, 0xec10345351a23a3a, 0x66f6f85d6f68a85],
    [0x15789bbe15444844, 0x6cb27f44067fb58d, 0x2a7f4d40614f72fc, 0x318af53cfd822ec],
    [0x3ba6f884bd7206cc, 0xce9f8910b6fa8a4a, 0x4e7436a4ecef2f91, 0xd24997465c5b23d],
    [0xbceca70bd2af7ad5, 0xaf07f38af8c952a7, 0xec10345351a23a3a, 0x66f6f85d6f68a85],
    [0xf9a33577a3d2a658, 0x6becfa66b3c5e47f, 0x5d648e42880b396a, 0x1ea39e4d9edebf6],
    [0x92fda1ee8b50f2ff, 0x7735cf5ebdbdd4a0, 0xd9ede9bdcf11268f, 0x15e4e016c94a026f],
    [0xbceca70bd2af7ad5, 0xaf07f38af8c952a7, 0xec10345351a23a3a, 0x66f6f85d6f68a85],
    [0x6e757b00392eac9d, 0xc4dbd04973fb3ef7, 0x2a82fd43fe4bb145, 0x2ef185c4b1cdb707],
    [0xb07ab81c71435902, 0x4f1d7d1e3bb0204c, 0x7d1dd3d92255beb5, 0x15cedc8a4ef6f701],
    [0xbceca70bd2af7ad5, 0xaf07f38af8c952a7, 0xec10345351a23a3a, 0x66f6f85d6f68a85],
    [0xeaf5ce0645e5749a, 0x8219565733684494, 0xc117b111270f1c2c, 0xdbf148ee8983db0],
    [0x8805ea2b4c48aab, 0xed380b99ffc42dfb, 0xb319b1efe6b3eabc, 0x2842f44ddc05dbd5],
    [0xbceca70bd2af7ad5, 0xaf07f38af8c952a7, 0xec10345351a23a3a, 0x66f6f85d6f68a85],
    [0xb62e1ebf3298af2c, 0x8426fdf5f1e4fb8b, 0x1b7efb2e124e7502, 0x1aa07e7ffa4a036f],
    [0x656561eb96d25d32, 0x9f017fd43e92296, 0xa8ba97ea683b605d, 0x1e5a2abded8c7022],
    [0xbceca70bd2af7ad5, 0xaf07f38af8c952a7, 0xec10345351a23a3a, 0x66f6f85d6f68a85],
    [0x8a2a0cfbc028d2af, 0xf11e8cc1dea223e9, 0xbc3d36b0cb73de6d, 0xacf3ab02c018573],
    [0x6105f7ff1beabb29, 0x4f949202122673b0, 0x5fcc6df1f02dc416, 0x1bab48ad2c31dcec],
    [0xbceca70bd2af7ad5, 0xaf07f38af8c952a7, 0xec10345351a23a3a, 0x66f6f85d6f68a85],
    [0xd11a38cce6a7f31c, 0x4b589a4a8b358de, 0xdc06a2a4c6967dc0, 0x1a36af3ad1c61cd],
    [0xd3cb69a584e0d8d2, 0xa6788cb5b4805c9c, 0x536fa643a66e1d2f, 0x125e0e822514cf49],
    [0xbceca70bd2af7ad5, 0xaf07f38af8c952a7, 0xec10345351a23a3a, 0x66f6f85d6f68a85],
    [0xc93d7d0f17bfcbd3, 0xb142434a14d5d4f8, 0x71d63940d8d689f9, 0x85be8486ecb3dbf],
    [0x58f11e0d506b17e3, 0x2d5db9822ab63b0, 0x2feead8bc71ae9c0, 0x275651360d88063b],
    [0xbceca70bd2af7ad5, 0xaf07f38af8c952a7, 0xec10345351a23a3a, 0x66f6f85d6f68a85],
    [0xf7815b247b228a6f, 0x89db1e1f9f620c18, 0xecc21446ed94c802, 0xf7eb245596d9ac5],
    [0xf0fc2fb103ad549c, 0xd887c8bb88091513, 0xbc67f7677ab459c9, 0x221862a04a00f406],
    [0xbceca70bd2af7ad5, 0xaf07f38af8c952a7, 0xec10345351a23a3a, 0x66f6f85d6f68a85],
    [0x137dbd47fc26e3a2, 0x5cda7eb1d4ab7e70, 0xcf0a588a5fadf870, 0x1bd575603b7085af],
    [0x4158a6f62db446f1, 0x31079de61e67184c, 0x2db8575d986a82e9, 0x146d1d176245ff77],
    [0xbceca70bd2af7ad5, 0xaf07f38af8c952a7, 0xec10345351a23a3a, 0x66f6f85d6f68a85],
    [0x2ef4fa728da4cd3a, 0x8d392d59cb12a42e, 0x749393664f024d57, 0x2202ec1e7fd85c4],
    [0xa7309c6970371421, 0x46b5dfdb9dd5ba26, 0xff0ab3e12a1203c8, 0x1c0e72693a0e12b],
    [0xbceca70bd2af7ad5, 0xaf07f38af8c952a7, 0xec10345351a23a3a, 0x66f6f85d6f68a85],
    [0xc07948de056071e0, 0x14a585dbf5ad9758, 0xcbb0bd83378163ab, 0x2b3d8733bb4872b6],
    [0x8de0fdc87a29640e, 0x4fa34643a429cfdd, 0x575b9d3dcee6332f, 0x185d12aa30aed1a0],
    [0xbceca70bd2af7ad5, 0xaf07f38af8c952a7, 0xec10345351a23a3a, 0x66f6f85d6f68a85],
    [0x3593a9a77675f641, 0xe1c60ec6dd944dd3, 0xe29bd3dfc35dfcc8, 0x1b394227301f28be],
    [0x41eb3a325f2265e7, 0xf48854b4a496537d, 0xf6c08a3deb114a4f, 0x15b1cfd522bdc418],
    [0xbceca70bd2af7ad5, 0xaf07f38af8c952a7, 0xec10345351a23a3a, 0x66f6f85d6f68a85],
    [0xdd5a0713ff4cbbb8, 0x619800d2da15da01, 0x30a9db0a16b59abc, 0xbca3aef46833e8a],
    [0xe7af212500f5e6ca, 0x853150015e2e6b4c, 0xa2c2f8c7cf4adff0, 0x529062596e51b8c],
    [0xbceca70bd2af7ad5, 0xaf07f38af8c952a7, 0xec10345351a23a3a, 0x66f6f85d6f68a85],
    [0x6105dcfc31fdef60, 0xd150d022be2982eb, 0xa7366a45da1e847c, 0x2fda517f4261325],
    [0x154a1539d12dd1cf, 0x64db993e8d8629b7, 0x5b7ff9d2fbab64d2, 0x1fec5a09cea4d25e],
    [0xbceca70bd2af7ad5, 0xaf07f38af8c952a7, 0xec10345351a23a3a, 0x66f6f85d6f68a85],
    [0x3b74d1a9a42eb1bb, 0x831717fa3f8e0194, 0xe5605094751af17b, 0x2d87776eef5dfabb],
    [0x8f68c39f9f01ff19, 0x67afa4188c468495, 0x5aebd0afb9be5849, 0xd257a437910f399],
    [0xbceca70bd2af7ad5, 0xaf07f38af8c952a7, 0xec10345351a23a3a, 0x66f6f85d6f68a85],
    [0x66f8d7289716aee4, 0xe1c32fc24a9f0b60, 0xbcbac004f90799e6, 0x98f0aa06092ed2c],
    [0xf573f431221f8ff9, 0xb6c09d557013fff1, 0x2bf67a4493cc262f, 0xcc57cdbb08507d6],
];

/// The values of the sparse partial-round rows for width 2.
#[verifier::opaque]
pub open spec fn s_vals() -> Seq<nat> {
    limb_vals(S_DATA_0@)
}

/// The sparse partial-round rows for width 2.
pub(crate) fn s_table() -> (v: Vec<Uint256>)
    ensures
        v@.len() == 168,
        vals(v@) == s_vals(),
{
    let mut v = from_limbs(&S_DATA_0);
    proof {
        reveal(s_vals);
        assert(vals(v@) == s_vals());
    }
    v
}

/// Part 0 of the dense MDS matrix for width 2, as little-endian limbs.
pub const M_DATA_0: [[u64; 4]; 4] = [
    [0xbceca70bd2af7ad5, 0xaf07f38af8c952a7, 0xec10345351a23a3a, 0x66f6f85d6f68a85],
    [0x5462b9f8125b1e8, 0x20a7c02bbd8bea73, 0x7782e1509b1d0fdb, 0x2b9d4b4110c9ae99],
    [0xf573f431221f8ff9, 0xb6c09d557013fff1, 0x2bf67a4493cc262f, 0xcc57cdbb08507d6],
    [0x21bcd147943203c8, 0xade857e86eb5c3a1, 0xa31a6ed69724e1ad, 0x1274e649a32ed355],
];

/// The values of the dense MDS matrix for width 2.
#[verifier::opaque]
pub open spec fn m_vals() -> Seq<nat> {
    limb_vals(M_DATA_0@)
}

/// The dense MDS matrix for width 2.
pub(crate) fn m_table() -> (v: Vec<Uint256>)
    ensures
        v@.len() == 4,
        vals(v@) == m_vals(),
{
    let mut v = from_limbs(&M_DATA_0);
    proof {
        reveal(m_vals);
        assert(vals(v@) == m_vals());
    }
    v
}

/// Part 0 of the transition matrix for width 2, as little-endian limbs.
pub const P_DATA_0: [[u64; 4]; 4] = [
    [0xbceca70bd2af7ad5, 0xaf07f38af8c952a7, 0xec10345351a23a3a, 0x66f6f85d6f68a85],
    [0x5462b9f8125b1e8, 0x20a7c02bbd8bea73, 0x7782e1509b1d0fdb, 0x2b9d4b4110c9ae99],
    [0xd32cc760be574bd6, 0xe3fecee512cbb163, 0x94d269ae59f17efe, 0x20e3e914631964e3],
    [0x7220a9b197ee3f46, 0x3690d329ae737c8c, 0x563394632833d863, 0x10a44ed9dd9ce568],
];

/// The values of the transition matrix for width 2.
#[verifier::opaque]
pub open spec fn p_vals() -> Seq<nat> {
    limb_vals(P_DATA_0@)
}

/// The transition matrix for width 2.
pub(crate) fn p_table() -> (v: Vec<Uint256>)
    ensures
        v@.len() == 4,
        vals(v@) == p_vals(),
{
    let mut v = from_limbs(&P_DATA_0);
    proof {
        reveal(p_vals);
        assert(vals(v@) == p_vals());
    }
    v
}

} // verus!
