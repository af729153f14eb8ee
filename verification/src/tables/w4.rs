//! Constant-table data for state width 4: the flat round constants,
//! the sparse partial-round rows, the dense MDS matrix and the
//! partial-round transition matrix, in row-major order. The constant
//! arrays carry the data; the spec functions read the same arrays as
//! value sequences, and the builders return vectors proved equal to
//! those sequences.

use vstd::prelude::*;
use crate::field::{Uint256, from_limbs, limb_vals, lemma_vals_concat, vals};

verus! {

/// Part 0 of the round constants for width 4, as little-endian limbs.
pub const C_DATA_0: [[u64; 4]; 88] = [
    [0x8b0878e269ed23e5, 0x2bb86744edc2623, 0x48da1d39bd5e4a43, 0x19b849f69450b068],
    [0xad47f80c8dcf34d6, 0x20eb2cc7450acc1d, 0x7239347b758f0a13, 0x265ddfe127dd51bd],
    [0x3dfc36bab497d8aa, 0x4108ac845015c2aa, 0xe0f66a545e1e5162, 0x199750ec472f1809],
    [0xd032f787c7f1cdf8, 0x4d743ea25067f0ff, 0x110f06a5f74302b1, 0x157ff3fe65ac7208],
    [0x4a4ab5a32337b8f8, 0x45945842e7018378, 0xa4d05b377b58aabc, 0x1b0f68f0726a0514],
    [0x9fdef1a425e27526, 0x85509dea4245db47, 0x30569d69342d374d, 0x1228d25657871404],
    [0x96eeb91283585e0b, 0xb8c1d245d52f53ff, 0x50875c36a89610f7, 0x17a8784ecdcdd6e5],
    [0x2e0ceaa250aaebaf, 0xaa00adcfc31520a3, 0xb2d5ee7ae865aaf0, 0x9870a8b450722a2],
    [0x78c0a6d3f9372a64, 0x2bbdb7847f940ebc, 0xe4055c6b6f03a49b, 0x1e1d6aaa902574e3],
    [0x9103d03266550db2, 0xef40f30190ac6100, 0xe1eec1eefd92ee9f, 0x2816c4fa6b085487],
    [0x4d4d502d427ff51c, 0x660634efbad15dcf, 0x67000e83f76ffb46, 0x17359fd88be36ba8],
    [0xad879610b8661022, 0x4cbac203c0f236ba, 0x3f16fefbd0c02640, 0xe3004cb44ba455a],
    [0xb496193d6b04a7ca, 0x11ca4af98c833bc1, 0xbc6c6820f334b26f, 0xa55f276af1ceb6e],
    [0x1d31b9b877e8346d, 0x981d320b6b8e20e5, 0x4861a27adc1404a5, 0x1ee4b0458adcd4c],
    [0xb3841da1b4f482f1, 0x7c194a4054e69872, 0xf70199f8645d78f8, 0x14315e2753e7fb94],
    [0x6b0d75e88a6a56d6, 0xf266cb57e17ebd1b, 0xc660f435ad9e2e25, 0x2b7b63ecffd55d95],
    [0xf56e38db80d83c0, 0x4b652ebe95822186, 0xb46d4e7295bbe120, 0xbb56fa3e9fd48a],
    [0xb9c2656081249f82, 0x57218b33a8f92a58, 0x6d15fa6071f50050, 0x50653bf5dd59edd],
    [0x98c5b13c86f1fcdc, 0x87900c8d58255140, 0x55c5a976c65d0692, 0x2c575423e24b5226],
    [0xe568b07e218071d7, 0x99f72c1f78557a2c, 0xa32f74232b704cdd, 0x2ff3a2ccdee91e09],
    [0x693dbe9c6238d90c, 0x469eb89949491d3, 0x43b8bc6fc9d365f5, 0x1144734901a81c15],
    [0xda217a98db80cd22, 0xd38bc694a9e75ea6, 0xaf20b6ab74d89e1c, 0x1eff9a954e24bcd4],
    [0x1e49fad0301cd6df, 0xead6bfdbfc059979, 0xf97fe9bd7d485c20, 0x14707de7496c5638],
    [0xa91d48ee536042b8, 0x8538acdd9b3ef840, 0xfe3ef1f7ce0a54d, 0x13d0de341ba819f9],
    [0xe9f151a903372ba1, 0x58c18afbd0da58ae, 0xded712d59b070884, 0x26520ab1d20055da],
    [0x6d75296999f7495f, 0xa4c2790f5c65d986, 0x6e7537a3c0a06d08, 0x68cb4827ac485fc],
    [0x282748d0e674e89e, 0x982cb389b438c8bc, 0xb03dfa0eb71136e2, 0x7d6baaa2e587c21],
    [0x370851526de13d27, 0x126ffbc274cc3362, 0xb831eeab2e6ed75d, 0x15b92d36db02cb16],
    [0x7e5a0d814cbc3395, 0xef5b9c1916b588cd, 0x7918ad5fcfab7323, 0x277b9ce89133de7b],
    [0xd529000fa1802b24, 0x1f737092d65c3492, 0xb70b733040aa86c5, 0x2ae847b66b3c5d73],
    [0x6643f21bf8efd651, 0x7e16e0af29e67570, 0xded6aba6dc25cf56, 0x2fa3e8ae1fef974c],
    [0xa8b1087bc18a2088, 0x52dbd368fcbcd454, 0x9aa53f4efe46c579, 0xb1d4b9508cec4d1],
    [0x478947fafa569bb0, 0x393ac392e7958be0, 0x888b3273270babdc, 0x2d381014d01578b],
    [0x68c41d4486fefec8, 0xbc865a45cabcba43, 0x2523a94431007021, 0x2e79a827c8540624],
    [0x244f0a00c259b347, 0xc804cd434098af6, 0x61d7e60cc2365c4c, 0x207c99b7d594a5c],
    [0x596badbe9edb2dca, 0x4360e97e6fb42ae8, 0xb83f14f262c69342, 0x119c124086ea58eb],
    [0x413f8334f887a251, 0xc543f074f753bd8e, 0x3ccd0b68bddba09f, 0x104ff38cca0f0017],
    [0xa87df4c0e2384253, 0x8dc038b8cb10e147, 0x845811eb26243663, 0x2f5b5377bd156f89],
    [0x1f81476d0b5ea996, 0x204f3e3b4cecd10, 0x8930a8e0db69b1c2, 0xf70e8e02d1d2396],
    [0x7dae4d56ad586b3, 0x5814db782b7f19f6, 0x22f90a03f006d857, 0x1ac4653a51071ae7],
    [0x17823017a8b23db9, 0xfa41e74acabf7de8, 0xbdfae5ef9c4f3805, 0x12b12600e3bfd8e7],
    [0x5ed1c30289fdd28, 0x417529a18a1d89c4, 0xb7e0f8d0ba77286d, 0x11b9d19908919dac],
    [0x363a7484ace820d3, 0x5b00f4fb688895c1, 0x4744f88dbff8fe33, 0x2c350d245f4f7586],
    [0xdf82603f422b461f, 0x82de17ef73e52da7, 0xb6ef94c22c78bff7, 0x16a7f76fd2b2147d],
    [0xc7e285d1cc3db3de, 0x93545aa504033da, 0xc25626af06a139f6, 0x1d18d8024be1e96e],
    [0xa9ed449be8f7c18c, 0x95466819fb94d8f6, 0x945b9b88228f53c2, 0xc8cab1ad5998072],
    [0x530109b756ad4f7a, 0x3c73b13384187ab1, 0x6ca30041913ce342, 0x1a68d133d703cd40],
    [0x8ca0d860855e01a9, 0x23d03c80fcdef949, 0xf4c45342941417ff, 0x24a58b9e86ce823f],
    [0xaed6acfe2f952c57, 0xb793c41c6a4386d6, 0x8021148b6c35320f, 0xe6315c93fbb89d3],
    [0xd558696e34c692f8, 0x95d87224795d7568, 0x299e876f5f218c72, 0x2c3806d99a69ce63],
    [0x25db8273860fa04e, 0x376856ab89705dff, 0x4d49a356494568dd, 0x59c893a771e9477],
    [0x260bec5e27e8b0f5, 0x7027d5cc56bf52ce, 0x982243d0deb1f897, 0x1166d9819c4faae8],
    [0x4312e1537327e0a3, 0x65fc7259112af210, 0x2b79406c3c203c49, 0x12806fab3fcb09fc],
    [0xdba35dcc1d8bda2c, 0x3dc3ead89f98ded0, 0x8f60aa33e82d3dd7, 0x172015e0e3373605],
    [0xde7e6fd6392a0d30, 0x80296bf9d47a1b40, 0xa34f70ae8cfd68a0, 0x77ba18800d852d0],
    [0x9d6e3c0fe79fa8b9, 0xf4a2d38e029e4147, 0xdf0d78d0d946e1af, 0x2094ecd768bfa8f0],
    [0x1da9c7441a823f89, 0x7cd0bca08baa1e26, 0xff774d3c1f650ca, 0xccebd302afe84c2],
    [0xf01485a6b568cd05, 0xd5549871f1b5283, 0x73671f5d55b4052e, 0x5b9303053bb40c],
    [0x389eeefd6ba4c721, 0xb816eaa68ee6bdb2, 0x75b4cd67d38311a2, 0x2527289084ab4922],
    [0x2f6448c7503877f2, 0xd4e7417ed2661b01, 0xf2a3eacdad95f12c, 0x2222f9738290d8d5],
    [0x1e581161c1789354, 0x160fcbe27ee741fd, 0xb7e02fe26557e6bd, 0x226c8208f26d69e6],
    [0x441115d73c2941c5, 0x853e40d9204496b2, 0x1faf609e15f7a9d4, 0x216b208c0261f3c9],
    [0x2fe134ca3d5a4dd6, 0x151fbcd75de33b12, 0x3bad6829729b6ae3, 0xe0d660e046a259f],
    [0x8cd52daaa0ffbba8, 0xace88aadaef99149, 0x6f39ba5c4ec48ac6, 0x240f039d2026b326],
    [0x33e92fa5e1ee4d79, 0x876a4dfeb408ffe3, 0xcfd2eee0ec4d160a, 0x28c8cccf7b40a2c3],
    [0xfa77b5a9844efd69, 0x957d2b2923d28eb2, 0x7c4243f045a852cc, 0xd7f81b4b46d4f24],
    [0xcbf54475996b772f, 0xcdb0200ac3b42860, 0xa82c788457651dd8, 0x2be432f87b2c5094],
    [0xe555d35e70d4016b, 0xd45a63435e0ea4e5, 0xe187af14dd07b533, 0x13ea39f2d63d9ada],
    [0x47870461977ec921, 0xaa65cf2b98ff3aed, 0xcd1cf4b047325abf, 0x29e3b1afe1973be9],
    [0x48f3bc1a3c571197, 0x50a1cf1eb638bb4e, 0x5e9692498f95a1f9, 0x8db7d684e6b841b],
    [0x4bec1243bd31618b, 0x77ea1a28fb6eeeab, 0x196da1c042124e32, 0xf4f1041a976aa05],
    [0xfe4c12bdc4c0ff1d, 0x7f8a26c251b51c21, 0x6b255f00e86ec34e, 0x5a9d0526d6f18c8],
    [0xf1b8d17e52f2f3ff, 0x4410d472aa6eb00d, 0xbcf650c5ab85c89d, 0x284b0304dd6ce669],
    [0x7ab10cc7aa3f06ba, 0x5902e725049294ca, 0x8962ff86907002f9, 0x2363e9b01a016359],
    [0x5dd7e3ad260d842, 0xd8d7f115b3e040cb, 0x61dd3290a75c5f2f, 0x2c2db12647c4c04],
    [0xb81486b14ffe3a74, 0x2422d5b993e9fda6, 0x60f3d0863ac44505, 0x2e3c42f671431f95],
    [0x7782ffd97af5fff1, 0x3b4c0caa101371cb, 0x2ff2882560f5d7ee, 0x1d38441f228c0ce2],
    [0x74c25ade2c794287, 0x79364dd133f2cec5, 0xb1d573ead4e2e1f3, 0x268141b0e49c59ea],
    [0x6049f472d966374a, 0xf52af9a65dbd7b80, 0x2810d3f28868da6c, 0x2209cb2e187df152],
    [0x91a319eca7c1ffab, 0x82034e5388bfaee, 0x1830d7974ac1677d, 0xa5eb2510e6f804d],
    [0xa7015e1089e36ae0, 0xa9d5ee52138e96b8, 0xf8f3ad98669d3ad7, 0x1cb2864c38800736],
    [0x9aa277273321b54e, 0xe8c15c6c0d380a3f, 0xa547ee9bc6c7c6c5, 0x2af8ed05bfc8f8ad],
    [0x32c49b1a96ac0f3c, 0x2bf1f0a3911d7841, 0xf79b222885555a25, 0xf85d1593b35be03],
    [0xb8b89707855008c5, 0x4567d351a6dad391, 0x59eba456295d95bc, 0x29095192ec53e0b8],
    [0x113fbb6011177854, 0x831f898c7843407, 0xeb02b4c4b8f51ac8, 0x1a92efde1f5fa56a],
    [0x610614c184b0b02e, 0xdc73f3fdfa6b55f5, 0x77c080aa70fd6a86, 0x2a05e8deeea15e43],
    [0x9dadcd1e71ad4891, 0xb1dd4030b2ce28c, 0x46ecc80893e86f51, 0x12119f3b019cc3fc],
    [0xe742c3a1c2dd3a1d, 0x3c60ed122fc225aa, 0x2bf6b73317286a54, 0x42b6ffe687bc23a],
];

/// The values of the round constants for width 4.
#[verifier::opaque]
pub open spec fn c_vals() -> Seq<nat> {
    limb_vals(C_DATA_0@)
}

/// The round constants for width 4.
pub(crate) fn c_table() -> (v: Vec<Uint256>)
    ensures
        v@.len() == 88,
        vals(v@) == c_vals(),
{
    let mut v = from_limbs(&C_DATA_0);
    proof {
        reveal(c_vals);
        assert(vals(v@) == c_vals());
    }
    v
}

/// Part 0 of the sparse partial-round rows for width 4, as little-endian limbs.
pub const S_DATA_0: [[u64; 4]; 256] = [
    [0x87947223ae5108ad, 0xe5e39942296127fd, 0x8a351dd786dd7a1d, 0x236d13393ef85cc4],
    [0x609ea9c2fba8fa41, 0x1c5908b59ff3d76c, 0xda0bd5e72ab3cc62, 0x2ca7b911ea4f6a11],
    [0x40df133385fd9506, 0x1ff5000901b9ce01, 0x77ba6a6f8ffe2db0, 0x2de5f3a5bbe5b20d],
    [0x3655cdf9f81f67fb, 0xd3846d24339f926c, 0x7a52cefa903bbee4, 0xa150cdbffe3c60c],
    [0xe96d6a3bb32d2e9c, 0x87056d172e993bf5, 0xf47934dd0d5dd29d, 0x2026ad7e03636dee],
    [0x4fdf78393c90151d, 0x524733d9cef80d40, 0xc5e1b6f5bf391141, 0x232507a3d48ca163],
    [0x5c46074b865a1d83, 0x56e7189f8c1fe74c, 0x26a5a6c18336ec3c, 0x1b16b96e6aec89d3],
    [0x87947223ae5108ad, 0xe5e39942296127fd, 0x8a351dd786dd7a1d, 0x236d13393ef85cc4],
    [0x7fdfca1cfdabd35b, 0x94f02c5242eab1dd, 0x82411ff8a7a38848, 0xfdf5d15426498ac],
    [0xf7153c9463bfbd95, 0x875ea5c8282d90f6, 0xedf8ce61cd20b4f8, 0x97cfa1218fe00b4],
    [0x5a9fdb4285ad9bda, 0x558aa856acbfe48e, 0x9926c3952aaf96d3, 0xfd1ebd67968d1e4],
    [0x917d849cfa02fb8c, 0x244a11d4cb753edd, 0x95d548d3b4fd1b00, 0x27d5dc47f6783166],
    [0x70f3a169b88ae244, 0xa57bebfa5a0f5d27, 0x60321a70aa806562, 0x2602ddd7ea3a2808],
    [0xee42070337088a89, 0xfa387bc4141e009, 0x99776892b07366b4, 0x2fafd30b7fac7a66],
    [0x87947223ae5108ad, 0xe5e39942296127fd, 0x8a351dd786dd7a1d, 0x236d13393ef85cc4],
    [0x3178dbd963936517, 0x2866b17042d2c7c1, 0x560cee0b8e8320f5, 0x1b2ac2c9f97eb32],
    [0x40d5b5e4deebb1f4, 0x3adb0f4f2b63c3f5, 0xbce24e1556ab9d38, 0xc6db19118e83768],
    [0xae35923c9c6a2261, 0x6b2016ee5a10de57, 0xea574997bf75caba, 0xf94cafc14403845],
    [0x31c3cc5a41980f5d, 0x4c1742f47dd2190c, 0x71b78022c80fcdce, 0x9145c337938ac3f],
    [0x59631497a4f98863, 0x886524aded7e4f3a, 0x235b6f24f4c17747, 0xa0ca462d8ae218e],
    [0x75cdf6ce3fe0777b, 0x961e6292f2af29c7, 0xe3a7f68ff33b00cb, 0x1851288ccce2bdec],
    [0x87947223ae5108ad, 0xe5e39942296127fd, 0x8a351dd786dd7a1d, 0x236d13393ef85cc4],
    [0xbfb5a93ee3feab08, 0xcf3a60a043edfcd7, 0xedac791c80e82876, 0x9ad33992db79124],
    [0xa9d347cbd4b312f3, 0xbd26667e61c50afb, 0xa989886c4c11e711, 0xb320d1000c50439],
    [0x32c5f47ce63f68a5, 0x42ae52bae1435dfe, 0x7b2a51391f25f916, 0x26123488a4f037ba],
    [0x42607a8f3fcaa270, 0x61183b2f1e88dab8, 0xff5f63275add86c1, 0xd7a4403c3407d64],
    [0xb24150b310c71727, 0x7efa6423a9662f1f, 0x35d9b37e2d308455, 0x2cad68fb4be69ca1],
    [0xbe77c36f8f27d4fd, 0x64cc57a8fc0d3645, 0x6a25e15226c09b95, 0x2e122deb202b0e2c],
    [0x87947223ae5108ad, 0xe5e39942296127fd, 0x8a351dd786dd7a1d, 0x236d13393ef85cc4],
    [0xb68ba14f4cd65ac, 0x8cff2f37771c39cd, 0xc12ff83ce7deb2e5, 0x23e090845b17c18c],
    [0x2be9d495d59a775, 0x596543f5c2407010, 0x83a30a5e631cb1e0, 0x8b041b40e47ef18],
    [0x30b2b7a4b56f9a6e, 0x4182e2c85bbaac53, 0x109b92dff1b86310, 0x19d0ad6176cd87e6],
    [0xbac4bbcdf31878bd, 0xbe372a797f86a621, 0xf758d023ea74c5fa, 0x11296e1ff67a98df],
    [0xdb44732aea1b36ab, 0x89e439a40e6691d5, 0x5335624a4df555ff, 0x1b0943c04cc4c388],
    [0xf8a6e047c5e9ac1d, 0x2cba4d5dadeb1749, 0xe57ca3e51bf386b, 0xc2cb45703a55a05],
    [0x87947223ae5108ad, 0xe5e39942296127fd, 0x8a351dd786dd7a1d, 0x236d13393ef85cc4],
    [0x19312700eef604a9, 0xd5e704e51de165eb, 0x8ab2f61b7e52e5dd, 0x20c061a0f7069274],
    [0xb8a749dfb9f964f0, 0x3947ecd76426d6c, 0x42c03dac1557681f, 0x2aeb2df6a12c099b],
    [0x835b681bc6813270, 0x88d97a72d8aa1be3, 0x2592a75d53083c31, 0x111fa84f89967775],
    [0x544ad76165251f90, 0x752cc8c0327190be, 0x892b98a7783fb019, 0x1aad37ed6a2102cb],
    [0xb3f8f2a0ffe86be9, 0x9b0dc3e5cbc7ab04, 0x56cd6163ef221f3d, 0x1be6d262a580b109],
    [0xbec1c6ef72409fca, 0x9f8f4d8a5d212503, 0x59b9f17c0266c813, 0x19fb44907e93686f],
    [0x87947223ae5108ad, 0xe5e39942296127fd, 0x8a351dd786dd7a1d, 0x236d13393ef85cc4],
    [0xea1d6a7c421a586d, 0xfde4eae8fa51bf6b, 0xf30c6150e395dacf, 0xccbd07f12f007d8],
    [0x1bb286e42b58cb52, 0x7bcd9603406be21, 0xc9c78633aa3bb378, 0x9a3428b0108143d],
    [0x816902e915d8227c, 0x8798ac8f92661b2b, 0x52e863c4b0f51514, 0x2a7ab6ca90a4e66f],
    [0x7e9a7c3c880a040f, 0x6b23c4367bcfab68, 0xf12f09a58f9535b6, 0x179239cb6d96131e],
    [0x814b6463ad29b8ce, 0xd175f17abe2b2eed, 0x5d607140bd0b0944, 0x7f9eff8cd62907b],
    [0xe83fe4b511458c8e, 0xfd7c801e0b457278, 0x8cee5c6f84e9b25c, 0x2f44cd6674099eae],
    [0x87947223ae5108ad, 0xe5e39942296127fd, 0x8a351dd786dd7a1d, 0x236d13393ef85cc4],
    [0x7816546eb732d8d9, 0x11ff0aae81f4faa0, 0x878b7d23223fd333, 0x241d4acb53e51cee],
    [0xe0b7838f6f644560, 0x711bb8838b3ad49, 0x8a9b2f09a84bef7c, 0x13016b694f63245a],
    [0x7c31a78ce2929bd1, 0xff069cc479fa000d, 0x534647a5a2fe278a, 0x240a3ff47c2e7332],
    [0xf7cd001d38146c30, 0x1061b07a18579325, 0x9be81ace3dfbf7cf, 0x1a510b683ed295b1],
    [0x809059de3342c9cf, 0x1a928d5ccca5d79a, 0x5a95e295d84e71bd, 0x20c4eceba419b057],
    [0x6a28908bc5dcff6a, 0x6a499b57ae1893e1, 0x6cda43c1aecd6c09, 0xbaf9899a51723a5],
    [0x87947223ae5108ad, 0xe5e39942296127fd, 0x8a351dd786dd7a1d, 0x236d13393ef85cc4],
    [0xfba1b6e0bece8eac, 0x71424364fd69c9b, 0x766510f46974ff89, 0x162315c3b31a4d5b],
    [0x8f658c6eb86f47d6, 0xee58ca5d0560d15a, 0x39c806d757799fd6, 0x2f6a4f9489ad4e14],
    [0x3f31a61bb6b4efa9, 0xc147a335e19f545e, 0x19180113f770041c, 0xf67999a01cf660e],
    [0xc407053635478fa0, 0x93a6fc67252a631e, 0x89456542d3d727b5, 0x9146d7f035d3797],
    [0xd62af311cf91de5a, 0xcd63b0ee2f383b74, 0x5768d8491e4c86bf, 0x2e44a6eb2efede0a],
    [0x6977ef04911d5e71, 0x260ee7a56fd35fb5, 0x81816c9aca5fe004, 0x160631bd9c547491],
    [0x87947223ae5108ad, 0xe5e39942296127fd, 0x8a351dd786dd7a1d, 0x236d13393ef85cc4],
    [0xb636e12bb43c7af, 0x68862af285902b59, 0x5da94d5b7e897e97, 0x26f7f151e37cde40],
    [0xb2418068e78dd02f, 0xc816cab0e4315306, 0xd15db8adf98d290a, 0xeeffd18325f8754],
    [0xbd4a369e6eaea49a, 0xb1aea5ee405bba09, 0xdf351ff703419da6, 0x284277b5d2b0fd66],
    [0x5503196d682ca12, 0x12e7cffec60dd3a1, 0x7f884d111e05fa85, 0x13584c5168cf2fc7],
    [0x224c886c97e9e2f9, 0x13af0e71fa686312, 0xe9dd1af991eaf3ae, 0x1ebd55190bbbaae0],
    [0x2d8be06b1e136dfb, 0x3d29f8d292443a76, 0xea035af0cd9d5b76, 0x13a449ace196028a],
    [0x87947223ae5108ad, 0xe5e39942296127fd, 0x8a351dd786dd7a1d, 0x236d13393ef85cc4],
    [0x2efacf66164bd07b, 0x26cb56880bcd9160, 0x15656aeb3d02acc3, 0x21fa424cf90bf0b7],
    [0x8a9bc5f961cd68c7, 0xa26c0ee1939d2cec, 0xbca8f52d73d0f3fe, 0x24694b5ba9200603],
    [0xb6cc85c190e4e170, 0x5f2c719332edbbaf, 0x910dfb19ad89d7c2, 0x1a6d98f744fca59c],
    [0x1bd91d1625c937dc, 0x2c34e641f697b536, 0x2dd95c69a28ab91d, 0xab904b12244246c],
    [0x460374ded5b86770, 0xc048864129954800, 0x921af698cda67103, 0xfd87c8923668cce],
    [0x62465e1431c4c2a, 0xb410cf81de7f597d, 0xa1141e48f14bc691, 0x2098ce0512ca13be],
    [0x87947223ae5108ad, 0xe5e39942296127fd, 0x8a351dd786dd7a1d, 0x236d13393ef85cc4],
    [0xcfd6d690a85c27e9, 0x439daae630c054d7, 0x5cd0dfcd1dde7992, 0x4d94ebda7313ce2],
    [0x98bd9b92b82ea455, 0xb4fa99d09d10105e, 0x6568fc4613e76c9a, 0xaf2fa274dd5b1e1],
    [0x169577d2fc755af4, 0x858714e9650aac65, 0x70b491762e96e470, 0x19153b7441c48cd2],
    [0x2417450e0585254b, 0x8a7c27c34f32f9fd, 0xf70674af65d92a90, 0x2a5c69d030248d78],
    [0x4a8bcdebe06a88fb, 0x518eced5230894b, 0xb61085560e259229, 0x436d86f139382ff],
    [0x448bc2e46090af99, 0x99b903ac8d9994f7, 0xe8cf2ea0608ace92, 0x23b40e7f1bd0b7fa],
    [0x87947223ae5108ad, 0xe5e39942296127fd, 0x8a351dd786dd7a1d, 0x236d13393ef85cc4],
    [0x64e256ab5937653a, 0x41142d4f35ce77e0, 0xefebe904a3ffae9, 0x21427832371fd1ce],
    [0x7998fb914dd46149, 0x8f8b331a7caf7923, 0x15a6ff483cfb5c1, 0x1b527a15f36d4f03],
    [0x920dc233e5646338, 0x1afa6ace79ecf363, 0x89c6cde81ad9ad9c, 0x13d847e25b71d357],
    [0x6be7dfec751bd480, 0x1366a41d7c326c82, 0x6580ff9f4bf267b0, 0x238b13365a6b8fcd],
    [0x2731ded19882966b, 0x1f01ed887085eed2, 0x8fdece2e14114cb7, 0x2fdc1ab225df187a],
    [0xc220fcf0458d1c3e, 0xb3fc27bd96905b5f, 0xb36e8eeec5c369a6, 0x2fc9fa00830e2671],
    [0x87947223ae5108ad, 0xe5e39942296127fd, 0x8a351dd786dd7a1d, 0x236d13393ef85cc4],
    [0x6b92e9f482151cb, 0x30bdb12e3b262958, 0xa07377610e3ee7d6, 0x101b70dd04be642a],
    [0xc9b3423e4db90d10, 0x7ce8ad03894cb07a, 0xc81440c79fdebe59, 0x1227872231f192f1],
    [0xd45859f45166305c, 0xcccc00c0accf2ac8, 0x174951fe6d338fb3, 0x1d01d734b7090603],
    [0xa811b296f3e7b10e, 0xe897fb723a9fad08, 0x4caa991e54fc7eea, 0xe593e9c0177976f],
    [0xcb37743b6fc60c16, 0x4cb3bd9dcf14a8bb, 0xff768205f9e161a, 0x2fe9b7637f54d706],
    [0x1c717eb603a6d9c2, 0x2905e5faa7e8efdd, 0x3739a45057302214, 0x26ac179b67db2c39],
    [0x87947223ae5108ad, 0xe5e39942296127fd, 0x8a351dd786dd7a1d, 0x236d13393ef85cc4],
    [0xd5697b82714a171a, 0x4fc7828cb0bcf3b5, 0xefb7803e3284690f, 0x2e26f19972ff8bed],
    [0xe58cdf31a77ceea, 0x1998843693e2c232, 0x4fb0a465c4221742, 0x7f4790a30254f65],
    [0xca0dab8d45f8d031, 0x6b7f6fd433fd2ed3, 0xb903db7df15187e6, 0x16adbd595b9959b8],
    [0x75a3172a4f33c75a, 0xa6ac1b7a169ffe15, 0xe3b49e50ad3889a7, 0x1341399558f697e9],
    [0xbca20caacfbf3bf4, 0xd8e05b8c3b7ff6f, 0x14e1d01b984f863c, 0x2c8e714ec99e387],
    [0x35dec7fc58ba6176, 0xdb417406c567aa6c, 0x5eb5b52fe2c26355, 0xaeb4122ca96285c],
    [0x87947223ae5108ad, 0xe5e39942296127fd, 0x8a351dd786dd7a1d, 0x236d13393ef85cc4],
    [0x8f3b28ded5a75604, 0xbde602e45c6dac69, 0xc4664cdc75cd8d75, 0x24f5e61cac001b78],
    [0x7730b03663361f1d, 0x22f433672964d2ee, 0xdaefdee4d4f1fecb, 0x158dab8b85f4412f],
    [0x3cd26539ab12a213, 0xf2152a9f1eded11c, 0x32c8e6876957968, 0x210a7fd894e483be],
    [0xf70bb26485b813ed, 0x8e02fb15346322b8, 0x2e022c22e620afb8, 0x27dd83e178817fe2],
    [0xbf38604ce4e23e70, 0xfa4a8840defdbf2b, 0x1f111dab969ee5d, 0x28b60c3bcdd4693b],
    [0x8a3da73cd7b513de, 0x9925215ca5d8e7f2, 0x7676f03c411a29c, 0x5c56f683ea2d1d5],
    [0x87947223ae5108ad, 0xe5e39942296127fd, 0x8a351dd786dd7a1d, 0x236d13393ef85cc4],
    [0x4fbe537e270c308b, 0xc4580869163f287c, 0x1d000c2209646780, 0x1ef913d33b18f5ca],
    [0xc3c76d938d12afcb, 0x588551a79bfeb15f, 0x2dcdeecd45416aaa, 0x2f77767437b92627],
    [0x303370f00209ed21, 0xc8f21f966ad57ba, 0xf6fdd909051708b, 0x2da62c50f92d8dcc],
    [0x27c581c495ef159f, 0x629e1c699a7c27de, 0x8424af23862f95eb, 0x118c1924b687d526],
    [0x842fb988980133c4, 0x89de9a559584b9df, 0x6abc8e1854d3f294, 0x1c20f20b601f89d6],
    [0xc565caa019147772, 0xba9da58fe15d8a07, 0x6a00f6c89217183b, 0x19078ba50370eef7],
    [0x87947223ae5108ad, 0xe5e39942296127fd, 0x8a351dd786dd7a1d, 0x236d13393ef85cc4],
    [0x3bac5b3c766c5043, 0xd11a587b51581e76, 0xb71f734d1f9023cd, 0x90d697c32be00d8],
    [0xf3662b3c2bdcf9e5, 0x34ddceac4385e702, 0x8b67f7d85be9603f, 0x28309a912afc8684],
    [0x7051400f302dc3bc, 0x7053603e181261d0, 0x3a6b92996445318f, 0xb100f36ac254ea6],
    [0x55ef9d964b06c93e, 0x7e874189ca4d4d25, 0x93199a2166736c0c, 0x1931597f6dfad681],
    [0x2fa992effa833800, 0x9fc3c0a64709cbfc, 0x4ec5c6c50e1b2913, 0xb26976995fcdb35],
    [0x94d68f7380bca019, 0xeaa8c6dfa6c6130f, 0x6e0ece7b8537905f, 0x2dd919c2edc302e5],
    [0x87947223ae5108ad, 0xe5e39942296127fd, 0x8a351dd786dd7a1d, 0x236d13393ef85cc4],
    [0xf863db3fce5eeb29, 0x7cefaac1ab05ce89, 0xee497f6274fda5e0, 0x278b0231cff85bde],
    [0x30e3a80b1a5bb506, 0x6fa6b751adde822d, 0x4cf0d0fb5e6bdee9, 0x9ee1dcae79dc90e],
    [0x2b274328fd04afbd, 0xc965265fce93f976, 0xdf8b9e03a12fc37b, 0x1769f50fb961ba50],
    [0x78a94aaa4edbdeee, 0x40510f517b2eedb6, 0x30b0ef58d708d077, 0x20a99da43235a2bb],
    [0x7bf8b5dba2b8b7a9, 0x1924c7a85f48a33e, 0x5d84cd91c342f70e, 0x11b7181ec0f9a148],
    [0x81dff75cc02e937a, 0x4818a7ce156d2c7e, 0xb31107f29dc6a7bf, 0x23453eb1a5e44e28],
    [0x87947223ae5108ad, 0xe5e39942296127fd, 0x8a351dd786dd7a1d, 0x236d13393ef85cc4],
    [0xa4b91a49fc762880, 0xc8e3d1ec2942632f, 0x28d68130f5533d6, 0x2abc91241e3275e2],
    [0xc31b249d962f86e, 0x602afd8440ada005, 0xa0b5a35ebb3329f4, 0x21653a887bf627cb],
    [0x458252d7ee478def, 0xdf2ccd813bf1f9bc, 0xafc518b16135ca00, 0x2ffee525440cb92e],
    [0xe1817344d82137d5, 0x35c212a8af5c5b6c, 0xde9a91058ffb340e, 0x104bce734fb0322],
    [0x75ed5a439b91c12a, 0x8b757426784cc539, 0x64455a298fe597ce, 0x12db34f34145195e],
    [0x8214be04aef88b1c, 0x633308428e4e8537, 0x911748f5593bbeaf, 0x13a9a61ca0008c1b],
    [0x87947223ae5108ad, 0xe5e39942296127fd, 0x8a351dd786dd7a1d, 0x236d13393ef85cc4],
    [0x2531d94792d4707a, 0xe8d1d8ec79472f6f, 0xd51eb001357d8bfc, 0x14ade7cef88a7726],
    [0x35cb9c54d0a077a6, 0x4ab75b4eb9fcab42, 0xe96835346b85a3e9, 0x24baee921a2b827f],
    [0xa5d1fc4138e8782b, 0xc653beca2fa7317, 0x9e2ca9458de6d3aa, 0x4dfb441b179922b],
    [0x101d487f3c679ee4, 0x7ea2302291d3ab11, 0xf58fefdefc09e44, 0x2efdb84c3c6faceb],
    [0x38055431655bbba5, 0xab3796ab597ed63d, 0xda9d720f25df6e7, 0x24d861650389f03a],
    [0x8042c2d152aac2ae, 0xc7b691c30c269527, 0x15577697e90e891f, 0x1f8b2609f6999f6b],
    [0x87947223ae5108ad, 0xe5e39942296127fd, 0x8a351dd786dd7a1d, 0x236d13393ef85cc4],
    [0xbdb1a54d11cd4db6, 0xf21033baaab86a9f, 0x752e2e3779757e5d, 0x242fed5519f01070],
    [0x679faf689d69e1a9, 0xa2b04fb0b239c38b, 0xfd8864de5068b943, 0x6dff8e392f51302],
    [0x2cb1a5b7fd440fbc, 0x6502d2b601f74fcf, 0xda0f7215bd9404f4, 0x1ce5db5cd27794bb],
    [0x701f0d5efb32a80a, 0xb4a337b92728f66f, 0xb8f48309cd6e783c, 0x16aea838ec8bc6e8],
    [0xfbd8198209d4ea95, 0x2ef1e46b4f3747f3, 0x2be5a125bfbd5e95, 0x1fd21a8ff13f0ef1],
    [0x6bf6d072d2500df6, 0x5a6313a1f37564e3, 0x8076854954d977c3, 0x125158b21d67761],
    [0x87947223ae5108ad, 0xe5e39942296127fd, 0x8a351dd786dd7a1d, 0x236d13393ef85cc4],
    [0x89f72793f5d4a18e, 0x3c38a922cc6bcc16, 0x879d93d36e9312bb, 0x2bb8e29cb323e3e2],
    [0x2701feeebf4e826a, 0x1603fc2cf0ef3282, 0xe7aff1bce2bc54ad, 0xd0e2ecbd08e247a],
    [0x4fe4716a47699470, 0xcf23f3cfeef3c8a, 0x3f39d0d87bbb35a9, 0x2e7df0f7b842490b],
    [0x6839c93c10b37837, 0xb857c7489920644f, 0x82ecb1a08acb5c0b, 0x1d9dd609a2944aa7],
    [0xcda8b4d538752109, 0x608c32759020f082, 0xb23aa243904a0290, 0x11ad269471d4b36f],
    [0xde86e4eb91595bea, 0x89f6def774c3f988, 0x2e205c3f3fd187bf, 0x2d2f546cbe60a982],
    [0x87947223ae5108ad, 0xe5e39942296127fd, 0x8a351dd786dd7a1d, 0x236d13393ef85cc4],
    [0xe4c1f4f1dcf068d0, 0xea034a51e3bd1198, 0xbcf29f2ddb54c6d9, 0x28113fd3a8d3b95e],
    [0x4bb78f803b90025b, 0x836c131dcec2472f, 0x4c202ba1c069ed4d, 0x114ed46d49b389b1],
    [0xa5a26ed35c0d1424, 0x6ba21db8a3f316ac, 0x70e38b75cbc97b31, 0x14a217bf8737fb35],
    [0x2ff674c22b009d0, 0x33b8adbb9e3aec97, 0x78209561d9300582, 0x16c9e7a58ddf1419],
    [0x797318e004632793, 0x92e3dbc2a5152df9, 0x402906d75be419cf, 0x1388b78b9ec0242e],
    [0x27513b1f7a294b07, 0xfed0d30fca28ef79, 0x87e3c666a8f7626c, 0x2a459318d3f7156d],
    [0x87947223ae5108ad, 0xe5e39942296127fd, 0x8a351dd786dd7a1d, 0x236d13393ef85cc4],
    [0xc94cb310e8e821cb, 0xbe2f479be397de83, 0x92a69d107bb7e6e7, 0x1f3df3ca1c4b8547],
    [0x9de2c888004b41e9, 0xb38a82fdf3cee59d, 0xf1f9017028e3098, 0x2869447a669cafc2],
    [0xd777c10db4796ff7, 0x4eaa1a6d5d70385e, 0xef15c7baaef8bd2a, 0x25eccbdcaf0a67d5],
    [0xaea9b7b4be3534a5, 0xa177cdb778ead13b, 0x6351f1be0a3211c0, 0x24c26970e999f27e],
    [0x5f0f02409d83433b, 0x3a7d4ae8d52d4fb7, 0xf0ce9d635e26ba01, 0x731afc922ad48a9],
    [0xf1c10974e66f879d, 0xcedc63a90b01b7b5, 0xc51927ad1061d0c1, 0x217044abaa3c9ab6],
    [0x87947223ae5108ad, 0xe5e39942296127fd, 0x8a351dd786dd7a1d, 0x236d13393ef85cc4],
    [0xce724706b5c20b0e, 0xbb1d2167a417912e, 0xb07c08691c2eddb1, 0x26cfa9ff210943f6],
    [0x839c4474037e049c, 0x4713b196e36a7e9f, 0x630a2ca7c4098090, 0xa5509b4fa5bc8be],
    [0x19392f0d291c3475, 0xc50b000383faff54, 0xd132c2edffc7a46e, 0x1c4dc788b6131f9d],
    [0x968e19ee2601053, 0x311abd0bfe541fb3, 0x994ce37edf2c3cd5, 0x150bdab59767a62d],
    [0x86cf9e392aca0d31, 0xc1581f251f9a7b7d, 0x4cf25a068932d447, 0x25393627a593730f],
    [0xd8a0f80d8778a6ae, 0x509491e7109db65b, 0xc458ca7625dd8b18, 0x10598af7a84cfdb4],
    [0x87947223ae5108ad, 0xe5e39942296127fd, 0x8a351dd786dd7a1d, 0x236d13393ef85cc4],
    [0x38d0f916d35ec9d0, 0x6aef1bb6aef0baec, 0x95d5dba77bfb57ba, 0x1fd5ba5922d71097],
    [0xa679d4efaea6f218, 0x52eed2629ddb59e6, 0x85b1f6ded27c8545, 0x439026e268ca0fa],
    [0xf053faba3f06286e, 0x40f7f360399dab7, 0xb9f9a17e9a49d6f0, 0x1d5d47eb657ce510],
    [0x227305a550f42697, 0x1996f46dd9df0fbb, 0x51062ea271b40294, 0x5cf07dcd831c1c],
    [0xc76adc04ce92e029, 0xf38db66b2257f4ba, 0xf998bf9e1fc69fed, 0x24ef1615afe18b0f],
    [0xb1b8fc9328087c2c, 0x4b7778bda9d7d514, 0x62425a7236c23e8f, 0xce1da26cb978281],
    [0x87947223ae5108ad, 0xe5e39942296127fd, 0x8a351dd786dd7a1d, 0x236d13393ef85cc4],
    [0x18a4280437e9e9b8, 0x9e67f0e816dc90ff, 0xca01503bc20232a4, 0x1355e415b0db4001],
    [0x6b056b48473cb451, 0x35dbee3fbf8f3d1d, 0x76da65f312e409d6, 0x11fc9669cbe3bf1],
    [0x7c308f023e71d4c5, 0x6cddd2838ec6a74b, 0x7b4c42df0191d2a4, 0x1d6c191023678955],
    [0xa7d377541b19f57f, 0xd6c2d55033f7bece, 0xd7c9c97030c1b420, 0x1626f4d2cc7f2d46],
    [0xb3e235ddc2982115, 0x786fc88bfcb82570, 0xd4bae4bf8dde436, 0x210c4bb43d712b40],
    [0xca1ba9e1a0e13825, 0xac4b0041afe80f6, 0xea915c1fdb460f3a, 0x213fd23b04ea9e58],
    [0x87947223ae5108ad, 0xe5e39942296127fd, 0x8a351dd786dd7a1d, 0x236d13393ef85cc4],
    [0x31c445046bb9a80e, 0xb87725c00f72d27a, 0x72ac009258a1ad98, 0x2ea430efe8ee1f2c],
    [0x9d73c75136bd0272, 0xd35aeda598fa506, 0x32b646584e76fb7b, 0x2d694e23e1b3f6b6],
    [0xf33787883c1a0db0, 0x21cdbf4cc6e03b8b, 0xfbb3635776e0894d, 0x2ed754f34a22fe04],
    [0x4b893f4afeaa41ae, 0xfbf16899400e6955, 0xbe3bd037f4df62f7, 0xf23e64e2b59d750],
    [0xe490cc524a2bb2b0, 0x36362d198e44c204, 0x80ef82b2a3cb9bcc, 0x1cd301878d6d7784],
    [0x6f95a01a5a207f04, 0xbbd68de537e32c46, 0x35a71d2f8342bf7c, 0x276d797b67c8b3d9],
    [0x87947223ae5108ad, 0xe5e39942296127fd, 0x8a351dd786dd7a1d, 0x236d13393ef85cc4],
    [0xd63a1e02b84aea6b, 0x188351be2b1b26b6, 0xdfe00c24c7fbd0f4, 0x16e8ab5ced34e81],
    [0x2d9f33134f60c7a7, 0x10c8dc0a4fd6ebe8, 0x6ec2d5852b5439f8, 0x1caf3b10ac581465],
    [0xc28212ec7edb634e, 0x1f78fa1998cc3d92, 0x372c547e9d6c354c, 0x225f97bdaeb6a565],
    [0x6c827d600b7a7358, 0x15a1ba244c13b018, 0x3adf239a36894495, 0x2d828acba9e58e0f],
    [0x696062ab8cb9d39b, 0x9cf79b0ea1affe03, 0x290cb839bf62c9a4, 0x1f9da4066a62e0cf],
    [0x495776c2b1b6816c, 0x2b405258c4b9b177, 0x343b41e59330666d, 0x240706e2b81b5b65],
    [0x87947223ae5108ad, 0xe5e39942296127fd, 0x8a351dd786dd7a1d, 0x236d13393ef85cc4],
    [0x17044859fef9618d, 0xb15b18c6e9d009b7, 0xe22d66c5b2963ac6, 0x2d0f43029750f58b],
    [0xda3898886aa3e9bb, 0x882ab82dbd3e790c, 0xc8aa0f5c08024beb, 0x14237392b60352f6],
    [0x13587ee3f194d260, 0xcfb7db5cb431fb98, 0xe1f94c98662b6339, 0xc8f3b03657beee6],
    [0x4c2fb4efad1ef118, 0x490e55633dc0ba57, 0x56513482566afcbf, 0x18700b515de19b32],
    [0x40dca47e6a326e26, 0x217bdbea74ff13, 0xd1e18721a96d1e8b, 0x1c3b0a6645d002a9],
    [0x5a904c08bfd014, 0xcecc1ea431849612, 0x2fa98aa90bbd65e2, 0x2979c4d21f80db61],
    [0x87947223ae5108ad, 0xe5e39942296127fd, 0x8a351dd786dd7a1d, 0x236d13393ef85cc4],
    [0x1991820ce3af97f, 0xf57d7cca62caa260, 0x9be062b07c05dd3d, 0x24509dfe35747030],
    [0x3ce4798bcf9357e2, 0x60673046c86deb33, 0x8a0e53e25dacd92c, 0x2bedda6eaf8901b7],
    [0xcce3977ccb273404, 0x7f6e0ff13ef83152, 0xa53ac4066d491006, 0x1f1d984e06825a3d],
    [0xf4a7571af810609e, 0x2dc52bd2e53d3ef2, 0x44d168802c352a7e, 0x1f592946ac103f2],
    [0x85e8dd5bce060ff9, 0xe0db7ca6283a1765, 0xac1e3d5295126f8e, 0x1a975c6688744220],
    [0x13a2d6d33596a6f6, 0x6ffe0329195b8ff7, 0x7737e9dfdccd57fe, 0x1a78319fb62d9929],
    [0x87947223ae5108ad, 0xe5e39942296127fd, 0x8a351dd786dd7a1d, 0x236d13393ef85cc4],
    [0x8fa99c67b5977d11, 0xc62e86ca7d872dae, 0xbd4498be87f445b3, 0x2fb4c2f41520052],
    [0x3084aea490fbf3fa, 0x7f2f23a3a8fee14f, 0xf2228d505e54dbb, 0x3162b367e9f3418],
    [0x702d37f36f79114e, 0x13943abf3e49c55a, 0x63e7c6ecf96dc6bc, 0xda5cb94995f6687],
    [0x81ad1bec1bd701b9, 0xd82600f35598ea2f, 0xfb7b83e880e8cc23, 0x2575cdf1a61befe9],
    [0xb3d26a99ab5a35ae, 0xf2fb24e315f400dc, 0x89a8fd0ad274021a, 0x1f83d6c20646a7e0],
    [0xaf5169a5079fdb42, 0x49e47b432767b0cb, 0x580219c9d6987812, 0x2c774cf487f79664],
    [0x87947223ae5108ad, 0xe5e39942296127fd, 0x8a351dd786dd7a1d, 0x236d13393ef85cc4],
    [0x18e647e1be8d9888, 0xcc53e99390a8de90, 0x4e70c2c5125ed51, 0x203c1b59256ff5c0],
    [0x906a1b5f764963c1, 0xcbabd1efc509b31d, 0x279b39b9319fa54c, 0x27abfb2e0894c5b4],
    [0x829c2e7e69efbf0b, 0x299c821a4766a78c, 0xf84894b6525b3fec, 0x2fea2fd0f35fffa4],
    [0x9928179373a66fba, 0x816fef09dcaea75c, 0xf2e96698b96fd545, 0x2451d54dc48cb608],
    [0x4adb43f94b7a0e9a, 0x9bebc5510cb40959, 0xb7c1f915dd2b0e43, 0x17c5d4cbf713d33e],
    [0x8b37c7f32d469c, 0xb4226bb09c10cd68, 0xc46c1a8f719063dd, 0x279fbf4382e4b2b],
    [0x87947223ae5108ad, 0xe5e39942296127fd, 0x8a351dd786dd7a1d, 0x236d13393ef85cc4],
    [0x90bb9cb600652321, 0xd4188dfe89970dd7, 0xd3d8dc88c8689704, 0xeb7c1194600e6ce],
    [0x15ec501fcb166ba3, 0x3d85046b1c4ca977, 0xc589b14e8493dc74, 0xa0e776c12cd108c],
    [0xf7dc626e4a732948, 0xe791dc32d3a6f872, 0xe5774f64f62d0bce, 0x1a8a8487cb8a60bc],
    [0xe94e5e955aa09ca0, 0x8878939c82852921, 0xbce8b58c467a05bb, 0x16f103fdba708db2],
    [0x3f1a98900376325b, 0x389b493f98c8d347, 0x2833550d82f749d1, 0x27a57324ff819327],
    [0xe758844070c04860, 0x76c82cc203530d82, 0xa60d1a5319aab700, 0x26e4040378441fe8],
    [0x87947223ae5108ad, 0xe5e39942296127fd, 0x8a351dd786dd7a1d, 0x236d13393ef85cc4],
    [0xa6bc56d888dfa9c1, 0x9c4539fa5c3b79e, 0xfa17d73eae87534f, 0x71846aa99eae694],
    [0x17730656217faa2e, 0x83555587a928fef4, 0x2ad571834bc835c0, 0xcf75a0326b8ca3e],
    [0x64b3081340c4f11b, 0xd4802940f63a14fe, 0x1bfef8a2dae36f71, 0x1b80702e894d7482],
    [0x9ff7f08e3f07ce71, 0x5342ab49677037f, 0x27ab098ec9f454d2, 0x2cc49fb1ce9198b9],
    [0x95a328135888e924, 0xd98d8b6feab3e459, 0x566facbf770a14ba, 0x1a6e74bef4b0a5b3],
    [0xbc1893bdb2e7c7c9, 0xe978061ba53657e9, 0x2b2c9b4710ca04f4, 0x2ef1e0f0bbff9131],
    [0x87947223ae5108ad, 0xe5e39942296127fd, 0x8a351dd786dd7a1d, 0x236d13393ef85cc4],
    [0x4d47ee5a0c288fac, 0x3107373ba413ecba, 0x1081da11a13c7abf, 0xbb77a7951190968],
    [0x44c50d099053bfa5, 0x85b7fe860e7eed29, 0x101d387c1b8cde6b, 0x23d8b2e6869d7d05],
    [0x475e3de290616ae9, 0x1fa85c4c15b72459, 0xa3830c500d1c0e06, 0x3023a8bf03a803ed],
];

/// Part 1 of the sparse partial-round rows for width 4, as little-endian limbs.
pub const S_DATA_1: [[u64; 4]; 136] = [
    [0xf47969f1a44e20eb, 0x8767161fc1a24d25, 0x96ed3630098ff701, 0x2b27c41a943be0d3],
    [0xddf6f108f1103e13, 0x9582a3a6c5988254, 0x61290c8590e2ff67, 0x2a73bceed9ee2a72],
    [0x5b6f132fd7733bc2, 0xe08ef6a697acf7e5, 0x206ef023b59884fa, 0x2579c47b76db59c6],
    [0x87947223ae5108ad, 0xe5e39942296127fd, 0x8a351dd786dd7a1d, 0x236d13393ef85cc4],
    [0x609572d7d0acb900, 0x604cf59d5bf5bf24, 0xf4b0a6f9c432e2c0, 0x2a5993c9c2a80be0],
    [0x50d7faf0f6a22804, 0x381a393feca3c044, 0x5c7bf760b355e0fd, 0x10faea103aa36e7d],
    [0x5dc04a240d8f47f1, 0xef6123ad5174f01d, 0x2c3e6d68fdd79e8b, 0x2e98e92bc9904ca9],
    [0xa1028e0b7a434428, 0x69f2db6bcedcda8, 0x9f290239eb94fe86, 0x119937bb5d5d902],
    [0x4e9609e97f070cf2, 0xf2a08f52e7bc9008, 0xc8ec8c735b73e07a, 0x7c67a48f20850f],
    [0x6438aa2663cc35ee, 0xc5d39d58f6599a5, 0x993fdc9ece5fadf0, 0x2da7855de0bdab6e],
    [0x87947223ae5108ad, 0xe5e39942296127fd, 0x8a351dd786dd7a1d, 0x236d13393ef85cc4],
    [0xbb20a0991aadc46b, 0xa5e410a7e92d23db, 0x3a2aec1bd8a434f2, 0x1a69a3840762376c],
    [0xa90276b1dfa4bf15, 0x8fb856d68b9c0ac, 0xc3627a25345c8795, 0x57e27ad9218a311],
    [0xe9ada26718881832, 0xac2b69ccf33f3802, 0xf3b26689dc5f62b8, 0x14307851c6b079c4],
    [0x3d5d4889ce304271, 0x3b78f8ce1e3c3918, 0xe681dd310fe11270, 0x26c71cfb532662f6],
    [0x5e5bbd761e6d82aa, 0x90e82cf47bb87e3d, 0x45bc094d8a53f21d, 0x294cb0c139a1a5a3],
    [0x654ddb7fec0be900, 0xe09c4661a5565646, 0xf10a2f61953a4c77, 0x84133bb35d1cee7],
    [0x87947223ae5108ad, 0xe5e39942296127fd, 0x8a351dd786dd7a1d, 0x236d13393ef85cc4],
    [0x2298b302c875bc1a, 0x77b590b7d14d3e3d, 0x87bc575b795cf7b, 0x1807d1d910cf5420],
    [0x62c8136c02c57e9a, 0x12e112bcd91b4f39, 0x8bfa1198116229dc, 0x1df001fd3c126235],
    [0x95ecea4842f9ff07, 0x2df4e737c63f61f6, 0xf74d14a89099f894, 0x2b424b88ddb0ae2f],
    [0x6203c7f97203791a, 0xa353710153cadd9, 0x885f11ff9cb213c, 0x189b086bfbbb9da3],
    [0x8d1c3ac1672e2ec9, 0xd43a3083fe658bc8, 0x92809c07a387b1da, 0x1bd472ab81eb7d6c],
    [0x4424107a9929bf8f, 0xcb0e4e1f14cfe572, 0x8f8b1d100459f537, 0x2bcb32de32d02f4b],
    [0x87947223ae5108ad, 0xe5e39942296127fd, 0x8a351dd786dd7a1d, 0x236d13393ef85cc4],
    [0xa2ab616f0516195e, 0x3773209abb5f341c, 0x52d54cdeaf8ce6f2, 0xcfc7baed4497a22],
    [0xeab04260eb90b128, 0x96b441839b79e54f, 0xc886dd504a2ec58f, 0x1cbfb6629ded2640],
    [0xd20f350af8752f2b, 0xdae326abff1e7feb, 0x55549ac304fb205c, 0xb3e19811df2edf],
    [0xa096db675ca0dfcf, 0x3eb5a195ac1a26d8, 0x4124bb66995e5c66, 0x17e85c4c6fe80853],
    [0xe8d2654c342622dd, 0xf36e97308369e304, 0xdc708ff87cee0315, 0x31cdebefacdf2b2],
    [0xd073cadbe4f665b2, 0x8d23c279d442e7bb, 0xe1ff7c0a0165c4cb, 0x17c33efac12fd569],
    [0x87947223ae5108ad, 0xe5e39942296127fd, 0x8a351dd786dd7a1d, 0x236d13393ef85cc4],
    [0xebd33c39aecb895c, 0x4126345cdafbf547, 0x4d5822fba6898576, 0x866a0d2140ed385],
    [0xab77bb09ced39950, 0x4d4cb655617c0cfa, 0xc347ee4037d08f91, 0x2bbd1e9f3114413],
    [0xbd2c4d97e7bc7847, 0x2ed65f87880f675c, 0x4e048c459479d562, 0x1ad0d5f7480a78dd],
    [0xa355b2c9f3453b74, 0x3efa6d698c9d3b1b, 0x306cde87ea47cab, 0x1b88066e99b993f7],
    [0x80d0b821aad7b9f1, 0x5a51fc30c799500e, 0x4ed741b0dc76e009, 0x25fa0cd0dea157ff],
    [0x6d84ad440fd0f99a, 0x79a4d9dc80268cb9, 0x7a6ce8abcbd4bdd9, 0x208e0d0378f2c7d8],
    [0x87947223ae5108ad, 0xe5e39942296127fd, 0x8a351dd786dd7a1d, 0x236d13393ef85cc4],
    [0xbc46d564eb8b09da, 0x6558f57a0027e6dd, 0x102f8bfa6f1c6472, 0xbcb27a9e590ba76],
    [0x64a0c91a4e08dd61, 0x9754dc7cd48144f9, 0x9a75b3f8fd1bfe1d, 0xce91923c5196084],
    [0x69d2a1e774b4245d, 0xd618def2133ee2f8, 0x6b1e3c0f3604f0c7, 0x1fac92c295c763fe],
    [0x32adac070a82a109, 0xe5b8bd1037b4ee53, 0xd471e88fc2cccbf3, 0x87968a25cdbb96c],
    [0xf760773b5de0e624, 0x5d12ace1ff5e3626, 0xd6fdd5c5def364a4, 0xcc8d9f53ff98eed],
    [0x2136fcd080f4e6a, 0x5e1c4a9f5e2c5396, 0xe985d61390a351ca, 0x2b95310fe6307070],
    [0x87947223ae5108ad, 0xe5e39942296127fd, 0x8a351dd786dd7a1d, 0x236d13393ef85cc4],
    [0x82cf609d4559b2e8, 0x50e52258eefa5983, 0xeb73206239493c91, 0x28c0a6ccd9587d41],
    [0xce2cafa9462491d9, 0xaf0740ca973d6ac, 0x77275b235bcccbf3, 0x165c6c313faa07be],
    [0x6759612cb73259e6, 0x279be0377669908d, 0x253e926dff5f95b4, 0xcdeb047d8e50b00],
    [0x285485abbf9db018, 0x7695d62d6362ef27, 0x572c2c9b7535776b, 0x10140d5f85f2f329],
    [0xe26364dd894b1468, 0xc228e926c9ee26f5, 0xdb07c8b1c3bc1461, 0x9501340c196da04],
    [0x7982458698c93ac0, 0x74eb03f7251d7156, 0xfc19f6431d53035a, 0xf607855b7f42530],
    [0x87947223ae5108ad, 0xe5e39942296127fd, 0x8a351dd786dd7a1d, 0x236d13393ef85cc4],
    [0xc7c792dd25a47046, 0x6b67e30f2474bf2c, 0x44cf8a26522391ec, 0x255be79d8de4168c],
    [0x76dfc5dd15eaec90, 0xdcd4d9841c4e8f1e, 0x10b586800234267a, 0x1ecb792391cc7467],
    [0x21f3b6025b65d016, 0xf9e58d0156f0364b, 0x205a19091cb044a8, 0x292470307f3a20d0],
    [0x2acda8353a47ecee, 0x245f0498e71043af, 0x89843e884a06ba72, 0xc3d7b0383d13774],
    [0xf531d7d5d1ad625c, 0x8648cdc876c7c6e2, 0xe5f87fb14ed53619, 0xc610cb1971aaa4a],
    [0x8a07bb249711d7e2, 0xf44d441d2d459002, 0x7c5897960fe7f22a, 0x1c237dcaf124be15],
    [0x87947223ae5108ad, 0xe5e39942296127fd, 0x8a351dd786dd7a1d, 0x236d13393ef85cc4],
    [0x750a9a102c05e3b, 0x347c7de946a3cfd0, 0x47a1d39ad6027a9f, 0x2a5e583e4003e7e7],
    [0x306c4736510675e9, 0xecb1bcddb9bab42b, 0x1a960804ecdb0442, 0x16ccec4b4960d233],
    [0x731851dd59b1365f, 0x2112f9e457e3a51d, 0xdb861c291c1a1f52, 0x2d0db3092b03a54b],
    [0x2222c5ae19e2adbd, 0x3e14ae22f1e29403, 0xb1ae192294dd62af, 0x16f1469935ef074a],
    [0x9b9ebe8148cc0878, 0x5ce9ae081858ad62, 0x2f2539ba2f8d1fe6, 0x67c4106d011aaf5],
    [0x131b662f3d5f34a3, 0xfacc1c96356c84e8, 0x7344b8296ea4a251, 0x12c6eaadcc69ac3b],
    [0x87947223ae5108ad, 0xe5e39942296127fd, 0x8a351dd786dd7a1d, 0x236d13393ef85cc4],
    [0x6665a1c787ed6049, 0x4a4eae1e850d58c0, 0x495cdaaaf18733aa, 0x2ad9831069e1f113],
    [0xa71737a036628f6c, 0x5eca0ac9cee84927, 0x9c4022b9520d707e, 0x1a6d2b5f928d9f0a],
    [0x86a6de00e0952945, 0xa46bcd207c174619, 0x6bfe712909a03c69, 0x1d92d368ae1f4225],
    [0x2107ab377784faaf, 0xb50c622a28429d2b, 0xe64daef032a28251, 0x10ad1d35f6f8f499],
    [0x7df4f1a798cf6375, 0xf7c3143eda0eaa25, 0xfa9b2b7723479ec, 0x150225afc95fcb45],
    [0xbedbe7205eddb980, 0x5534ebcf6df7b1d9, 0x955fd30c8cfe712, 0x13c542f46f245c79],
    [0x87947223ae5108ad, 0xe5e39942296127fd, 0x8a351dd786dd7a1d, 0x236d13393ef85cc4],
    [0x30b63cbb9134a368, 0xe572a077ed0f8f97, 0x5b05649b48c70089, 0x2fea3116266bd300],
    [0xe71129e621842af6, 0xcd462c40b04d0c90, 0x2b2a36846030f42f, 0x1bc4f0df44852b39],
    [0x7ce0515827d19cfb, 0xabb6832b4dff9bde, 0x95d0c4bcdb9d915d, 0x83b244ee2ab819a],
    [0x11d4f398908c8917, 0x86fd707b01290a77, 0x496a9c696c067b30, 0x1fe91590b6942e9c],
    [0xba82274d154268c0, 0x269b10506e8e4a74, 0x2b6ac74186070eda, 0x2e97a6382c9007fb],
    [0xee94e0a80c8cc4ac, 0x600b5396567615c3, 0x4362f4b4f05c5ee9, 0x19d731e981d3dd37],
    [0x87947223ae5108ad, 0xe5e39942296127fd, 0x8a351dd786dd7a1d, 0x236d13393ef85cc4],
    [0x183a5039044fd000, 0x71b61e43318dc82a, 0x6aaece92e6c2cf78, 0x1299ec83503dcd0c],
    [0x18c64a78188b85e1, 0x734497dc31f21599, 0x71b341d077246299, 0x27059db058fd253b],
    [0xeb0c99afeae085d0, 0x181973f6347318fe, 0xeb57f025076157a, 0xf8c2dee7cdc8dc9],
    [0xfa3f9166e827cfd6, 0x2c92e883006c3d44, 0x7cda3105ac23bcb1, 0x1053d862218c7ad8],
    [0xb68b6990a4b71933, 0x461a4c7b40a12e89, 0xe95f8c4f59cb32bb, 0x1442ee0343b9bc2a],
    [0x63879adf84a3472b, 0xef2a1e9b3babcb68, 0xfc2ed54fadf20555, 0x2ef147fa908e6186],
    [0x87947223ae5108ad, 0xe5e39942296127fd, 0x8a351dd786dd7a1d, 0x236d13393ef85cc4],
    [0xd8bc8efdc4c1ab53, 0xb5bbd791acb93e2, 0x83f992f7347f68b5, 0x297d7f9fc303a0f5],
    [0xadac573b81b16195, 0xebbdb7c98110e171, 0xc1c906a956e5aaf5, 0x2b4e8b40ce6c64ab],
    [0xd9ec24bcdfccdcbc, 0x8f00b2aa9ffb1ad3, 0xbaa5d728d225ed81, 0x316fe041d68e38c],
    [0xc2b556a5456ae6c1, 0x35171e3cf88e1267, 0x159d73e0d94c0ebf, 0x168c57b725731fe3],
    [0x7821d241b3efbd3e, 0xeaece83148a36eb5, 0x57b5ae5283432b4a, 0x90666d655622b37],
    [0x817569f48bd7bdf, 0xa29df3678768bae5, 0xd07143870286eca8, 0x2c91164e87fcb1b],
    [0x87947223ae5108ad, 0xe5e39942296127fd, 0x8a351dd786dd7a1d, 0x236d13393ef85cc4],
    [0xc4a4c98f05284b26, 0x50e69ecf241d8b68, 0x1c579bbe91467a29, 0x110f901d246c2e95],
    [0x5c9a6f1f70334091, 0xb15721afb4a35f3e, 0x9b2861009d6007e8, 0x484e7feefee9a45],
    [0x72676a130aba8364, 0xe002506c2c207bf6, 0x5129595f0996c10c, 0x11300deae6b73e9e],
    [0x6766b6a5e0524968, 0x18ce31bb60c75b9c, 0x5653a3cb0440d711, 0xec4bcec59f43f5b],
    [0xa67c6bf71e1e71e6, 0xfbb9f38faaf70d13, 0x67fe38d8669207d9, 0xefa65a66b38b034],
    [0xe61f17c6ea5fb4a8, 0xf690cc5a22ffe36c, 0x11ee2ecabb971dd9, 0x27806883684a018d],
    [0x87947223ae5108ad, 0xe5e39942296127fd, 0x8a351dd786dd7a1d, 0x236d13393ef85cc4],
    [0xbd84d1baa891cd12, 0x280fff22f7a99e60, 0xe7bf019b18ce7a36, 0xf4b7f229e28a7a9],
    [0x1ff561b1ee3177b8, 0x5e00a9ae5221191a, 0xc222d418e017b7cc, 0x20b53ef54ebd25d7],
    [0xf1302dc65ee059c2, 0xeaf0cc1fa1fddcac, 0x635520e21890e2e5, 0x14efc55a08da5f53],
    [0x60baa818678ef374, 0xac8dedf2ed372531, 0x59fc4525bb4aacf, 0x1b701800b22e5765],
    [0x7cbbcf686651c67f, 0xeddadd6fb1679c31, 0xb5bcb86acfdfc4bc, 0x118648d759ffd92f],
    [0x3f7854519af15f0, 0xf5910909c58bb2eb, 0x415a0c2a6e8f4665, 0x2601544a6e67f78],
    [0x87947223ae5108ad, 0xe5e39942296127fd, 0x8a351dd786dd7a1d, 0x236d13393ef85cc4],
    [0x87db30a1798d0dcf, 0xacd350cbb87ff121, 0xb79fc0ef825d6ca2, 0x1bfdb6da2db944b4],
    [0x7d16445f2d067cbb, 0xb1de0cb7ae0474b4, 0x6c6e3d0c5a7bc7b2, 0x969ce62c18f96eb],
    [0xfebc1c9b022b8215, 0xb997f3647874179c, 0xede120eeaabc5105, 0x13d54abe37dccf2e],
    [0xd9b05b793a2643b3, 0xc0b6b6b8c2ae405c, 0x17cd6e2a577e959, 0x27b42d0a347af048],
    [0x5c4bd17b1cf8d54f, 0x1d2cf1b97b7ebb83, 0x498d54d210c11bce, 0x2737758ec335fcb4],
    [0x2380861f5b54ca46, 0xadef8f6e6d3846f4, 0xdc20d0579dba1866, 0x1f9696df0bb5e293],
    [0x87947223ae5108ad, 0xe5e39942296127fd, 0x8a351dd786dd7a1d, 0x236d13393ef85cc4],
    [0x10b0366938541d65, 0x2de3ae6cf2d5e23a, 0x424a48c9a2b4f51d, 0x2fa9dd289eab48f0],
    [0x4b715c4d388d7709, 0xad5eecb5ad93e981, 0xebf1efccbcbbf72e, 0xfc755141d556a5e],
    [0x2d8ad02194843981, 0x5fa983ae80c412fb, 0x7c665090b20dc85c, 0x26127072286989c5],
    [0x5e670add9ad636b3, 0xb02de97a5746635, 0x25513a7d0ed1b43c, 0x229663addd9b99e2],
    [0x51be01d4ef9062d2, 0x4e77c18834c6c20a, 0xa9dc81ca4f61a03f, 0x3011613dbd895a56],
    [0xaa45a7c80e489c5b, 0x64804e51537d7d3b, 0x8e2a0d669ac14e84, 0x5598cd7707b2848],
    [0x87947223ae5108ad, 0xe5e39942296127fd, 0x8a351dd786dd7a1d, 0x236d13393ef85cc4],
    [0xa9fb3de2afa831e5, 0x2744ff2db0ea9533, 0x78d4a2bc67c5dd24, 0x16dc1f58a2e54f8f],
    [0xd0a877777b8dd060, 0x9fcb0f40191b63a8, 0x60541523dd6b2c15, 0x2a274cc1ef7dd9e1],
    [0x4aa6bb8fc2f4f863, 0xa82cd93b3dd94764, 0x9460ab369a100d5, 0x1e8f3078f2fd0b04],
    [0xb9cba555123dac67, 0xca8dcb6e8f0c8758, 0xd4417e09a83dd467, 0x2ee81ae8b9bc0eb7],
    [0xef2e9164b6fd2721, 0x1e93db6078be2d56, 0x6b02ba57173fe739, 0x367cb4b603a227e],
    [0x1bebfa4fbb640f3, 0x8eab799713ea537f, 0x1bd119191fe0d115, 0x184637a267f328df],
    [0x87947223ae5108ad, 0xe5e39942296127fd, 0x8a351dd786dd7a1d, 0x236d13393ef85cc4],
    [0x76fd379545d9ca08, 0xf083f1f5d4bed38b, 0x511b2f9fb3785dbd, 0x27649a3a1db5ba83],
    [0x61c94a0f19973283, 0xd92a1d31262fe517, 0x7bd7ed5aecdffbca, 0x8f84f219781937a],
    [0x27c00bc4160f989, 0x97df3e698f773cf3, 0x9f3527527ba97221, 0x14f65d95f7359b8f],
    [0xf049bc970e841a0c, 0xfe9bc7fb1f70943f, 0xb525be259699ab28, 0x2a75a171563b807d],
    [0xf366b3e521c4ed42, 0x497ad2eecbaa7e42, 0x592a52ca9cef820d, 0x2070679e798782ef],
    [0xba8b3d30958e7677, 0x8ff0613fd79375f8, 0x2488540e41f783b6, 0x2f545e578202c973],
];

/// The values of the sparse partial-round rows for width 4.
#[verifier::opaque]
pub open spec fn s_vals() -> Seq<nat> {
    limb_vals(S_DATA_0@) + limb_vals(S_DATA_1@)
}

/// The sparse partial-round rows for width 4.
pub(crate) fn s_table() -> (v: Vec<Uint256>)
    ensures
        v@.len() == 392,
        vals(v@) == s_vals(),
{
    let mut v = from_limbs(&S_DATA_0);
    let mut part1 = from_limbs(&S_DATA_1);
    let ghost pre1 = v@;
    let ghost add1 = part1@;
    v.append(&mut part1);
    proof {
        lemma_vals_concat(pre1, add1);
    }
    proof {
        reveal(s_vals);
        assert(vals(v@) == s_vals());
    }
    v
}

/// Part 0 of the dense MDS matrix for width 4, as little-endian limbs.
pub const M_DATA_0: [[u64; 4]; 16] = [
    [0x87947223ae5108ad, 0xe5e39942296127fd, 0x8a351dd786dd7a1d, 0x236d13393ef85cc4],
    [0x3cedc821b2a7ae19, 0x967f1dc58718e59e, 0xc4a9b194e10724eb, 0x277686494f7644bb],
    [0x84a4529e66b09c62, 0x5129c16479973b0a, 0xb85618826a9b350, 0x23db68784e3f0cc],
    [0x7b3a75646ff382c1, 0x8af08cdbd63017c5, 0xd50d663bae733f97, 0x1d359d245f286c12],
    [0xf049bc970e841a0c, 0xfe9bc7fb1f70943f, 0xb525be259699ab28, 0x2a75a171563b807d],
    [0x6f38ce4157b6770e, 0x8b4dd3e15ccc370, 0x78e2827d092e1ae8, 0x83abff5e10051f0],
    [0x68a9ff8253a1eb6f, 0x24d5c4741eab8b75, 0x7dc49cfdbae303ad, 0x1a5ad71bbbecd8a9],
    [0x790f725c5d84f0af, 0x945004a7bc2c59e8, 0x86772133640f02ce, 0xd745fd00dd167fb],
    [0xf366b3e521c4ed42, 0x497ad2eecbaa7e42, 0x592a52ca9cef820d, 0x2070679e798782ef],
    [0xb3a2be979e2d7eab, 0x6ece318cd224ab6, 0xf800739a53da75d9, 0x2e18c8570d20bf5d],
    [0xfa283c6aa723b608, 0xf2e4386d3e5b9f38, 0x7f3367ce86f684f1, 0xfa86f0f27e4d3dd],
    [0x3f0c2491e0b403eb, 0x57035ee3da6b2ca8, 0x28168e4b14dbaeb6, 0x3f3e6fab791f166],
    [0xba8b3d30958e7677, 0x8ff0613fd79375f8, 0x2488540e41f783b6, 0x2f545e578202c973],
    [0x596a15623d01476e, 0xb8104c32ba4cd701, 0xbff7eefeae3faf4b, 0x23810bf82877fc19],
    [0x207ed58d2a34cdd6, 0x1c068ef930f10be2, 0xeeafc4944034cf32, 0x14fcd5eb0be6d5b],
    [0xbb661c25d20fb52a, 0x8ba4a8b627627cc2, 0xd835eae0823e377f, 0xc15fc3a1d5733d],
];

/// The values of the dense MDS matrix for width 4.
#[verifier::opaque]
pub open spec fn m_vals() -> Seq<nat> {
    limb_vals(M_DATA_0@)
}

/// The dense MDS matrix for width 4.
pub(crate) fn m_table() -> (v: Vec<Uint256>)
    ensures
        v@.len() == 16,
        vals(v@) == m_vals(),
{
    let mut v = from_limbs(&M_DATA_0);
    proof {
        reveal(m_vals);
        assert(vals(v@) == m_vals());
    }
    v
}

/// Part 0 of the transition matrix for width 4, as little-endian limbs.
pub const P_DATA_0: [[u64; 4]; 16] = [
    [0x87947223ae5108ad, 0xe5e39942296127fd, 0x8a351dd786dd7a1d, 0x236d13393ef85cc4],
    [0x3cedc821b2a7ae19, 0x967f1dc58718e59e, 0xc4a9b194e10724eb, 0x277686494f7644bb],
    [0x84a4529e66b09c62, 0x5129c16479973b0a, 0xb85618826a9b350, 0x23db68784e3f0cc],
    [0x7b3a75646ff382c1, 0x8af08cdbd63017c5, 0xd50d663bae733f97, 0x1d359d245f286c12],
    [0x96bd6bd8d2989a74, 0x8c13aef87ee92e90, 0x6785ff39129c7f26, 0x2b257df708d2f3d],
    [0x6ead3cde3d431897, 0xf4b35d3d0b6e57b2, 0xc74c3725e5b8be54, 0x27907df41fa277d8],
    [0xd7a75946997aed17, 0x8d1b21abc6d70277, 0x1f57096c9d21f5d4, 0x2460a032cf84ecd],
    [0x67afdabeca0dc590, 0x8e60cf0511decb8b, 0xc4bcb4950dae4a0f, 0x2456b3c4841aabbc],
    [0xa21ff147c58b0a1b, 0xaea7ec1bb1f4e17e, 0x7ba74c0f2d80c5b0, 0x224a7cc70daf93a6],
    [0x4c01d5b105d44a5e, 0x1d43131fadbf8049, 0x5746d870fb211499, 0x1b7e85dfcfe013c4],
    [0x4ab242d19be92806, 0x1777efac91903192, 0x8e5cb1ee490a768c, 0xc7a2ae4396db183],
    [0x3f7b961b7ed377c5, 0xd39fe27d02b794d5, 0xf92110d68941ce37, 0x1a2e45b92aba8f36],
    [0x986ac7a4438b96c9, 0xb6970c4fbe9206a0, 0x8e66b11b59c98363, 0x18ce43c42faa5778],
    [0x2cc4da61d8bf9824, 0xea1b184e65eb2529, 0xb27440567676ac64, 0x2c1597f81dc951f0],
    [0x2a6e052aa6f94288, 0x7ecfabcc8448950, 0xfc37eec7b1cb029c, 0x8c2147f957a152f],
    [0xf1d92ba130fe5745, 0x4885ba5754f32aa1, 0xaf3a3bc6d0a6012d, 0x182d95b63ec720b3],
];

/// The values of the transition matrix for width 4.
#[verifier::opaque]
pub open spec fn p_vals() -> Seq<nat> {
    limb_vals(P_DATA_0@)
}

/// The transition matrix for width 4.
pub(crate) fn p_table() -> (v: Vec<Uint256>)
    ensures
        v@.len() == 16,
        vals(v@) == p_vals(),
{
    let mut v = from_limbs(&P_DATA_0);
    proof {
        reveal(p_vals);
        assert(vals(v@) == p_vals());
    }
    v
}

} // verus!
