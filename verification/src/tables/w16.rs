//! Constant-table data for state width 16: the flat round constants,
//! the sparse partial-round rows, the dense MDS matrix and the
//! partial-round transition matrix, in row-major order. The constant
//! arrays carry the data; the spec functions read the same arrays as
//! value sequences, and the builders return vectors proved equal to
//! those sequences.

use vstd::prelude::*;
use crate::field::{Uint256, from_limbs, limb_vals, lemma_vals_concat, vals};

verus! {

/// Part 0 of the round constants for width 16, as little-endian limbs.
pub const C_DATA_0: [[u64; 4]; 192] = [
    [0xde222fa22ad0b101, 0xa778bc33aedbcd09, 0x48a332974d07ccee, 0x11e27da7b7ef9649],
    [0xc53f036a3065b65, 0x5fbf55f79133c574, 0xe65a0f4142faaafc, 0x1f60381b83b44a8f],
    [0xd70a706a1b6dadd8, 0x48234d0292adfe1c, 0xbdbfa45dcc515765, 0xfc1e1ac8ad3524e],
    [0xc070084ce78b8d76, 0x426bbd2282a81dcd, 0x8bcd8f10bb15cb0c, 0xa40798ead3a12b7],
    [0x675ea5f462f4a9c5, 0xbf393b0135f51e2f, 0x987ea95594436b6c, 0x2dc09d3357051155],
    [0xe46ddc54181da088, 0xd175ee150f349033, 0x32eda181de1a154d, 0x104b9241d5342645],
    [0x4f1b8d8ac9d12698, 0x7b3b91f0622f1708, 0x87b802fa44cab203, 0x127a6208d98f6cd3],
    [0xec18f8625f86d4d, 0x1dfdcde659955a93, 0xdc02fb1f50d938ce, 0x2d075ceebab54341],
    [0x43fe72758042010c, 0xf40c6039a3dd0d74, 0x2ad923bebe15a477, 0x44fd5c2101a20be],
    [0xf0849628e09f9bc8, 0x8a8f2a8eb77f96c7, 0x2b815564c5399acb, 0x2b302c8511fbd370],
    [0xee87222cce99e22b, 0xd302c92a79b1d0f4, 0x55d1eded1e8a870b, 0x7cbe339db905994],
    [0x28ffa8105debe211, 0xe548394c94c3df2f, 0x4ef24c97c809f78a, 0x1326749312c6e8bd],
    [0x929b223f269780e0, 0x7a797cd236dad92d, 0x7080e7c245304e4b, 0x54021406b8d1f8c],
    [0xf406d08f2787cc42, 0x8691a8d018f1279b, 0xb23a9d559eaeecf9, 0x5c0e033b589f8dd],
    [0x15b12eca38584bb1, 0xa16ead4330e35d54, 0xb61c749d566c9459, 0x2508a8cdd450f969],
    [0xb2bae8d368ff12d2, 0xe9909621fd4f4169, 0xe736da25072bd8fb, 0x264dccc02e574ca7],
    [0x7aedc4a45c8ff70d, 0xd342407dc28c10d2, 0xfe22d83663c8e607, 0x137199f796d310d7],
    [0x128a2d051c1be240, 0x33574b9691540d03, 0x87343dc38dd1208, 0x2f6877c1a818cf1f],
    [0x10396a7cb0716494, 0x1e44865058e6d85f, 0xbd384c4d4764398e, 0xf418e13a90e4295],
    [0x942c86be61a962c7, 0xa5dddafee26ee78b, 0xf8657bed417c428a, 0x1a6864de7ca70730],
    [0x5f2bd717c26088d9, 0x8986968cc6022444, 0x28e7365d8b1ad95f, 0xf8be2e253cba2f1],
    [0x9f09d0ae70095a5b, 0x490552c6d4ac77f8, 0xfad6d7b744cf090e, 0x16a8d9f265a66f69],
    [0xd20270398b9613e5, 0xc7a4f4b8a10bf900, 0xcd19c9dfa9c8587a, 0x25f1a51ea7f88847],
    [0xb6d3141ebb14644e, 0x5279a9f2c0b1678c, 0x78b7ad9aab886224, 0x28d4a6eebf392a93],
    [0xea08b79f9137aed5, 0x80c893745fdcebd5, 0x4936eadf66fe924d, 0xad7537d9d5bb7e3],
    [0xce5d62c3a65567f7, 0xc7dfe42bf3802394, 0x9b5c6f231fede58d, 0x6ae9e1b3a2edb86],
    [0xbd22c72191045cb1, 0x7da20709346a334d, 0xc046c8df1e77f7f7, 0x1f5d4250771eb130],
    [0xfbcbd934e7de1162, 0xee1d82219849cc37, 0xea3a16c3b5abbf38, 0x14bd6a1b5678cda4],
    [0xd5322abdb932d0bf, 0x9828307046296c6, 0x2727bdcb8f39a66a, 0x22905156b6bb357e],
    [0xfe07b7fc246b096c, 0xd8133834b56aeab6, 0xfe4cefc3d315249e, 0x2023fcb87f89e6],
    [0xb914108f1316646f, 0x7b4060b37b6b845e, 0xfcdb65eb246c737b, 0xeef78e23ad00648],
    [0xc3a522453164e48e, 0x457462fd6be6db36, 0x468d631074a65f5, 0x1f3030be5da4e16c],
    [0x55e9644f3534455c, 0xc490a20d05dcc4cf, 0x4c2e88d5bc1bad12, 0x10dc200b8c1b565d],
    [0xdb661fa70b1cc2c6, 0x703333789a390d72, 0xed0d49abf3a09233, 0x11a9cf0b8e97ea26],
    [0xc83803d490c2cf2f, 0xc69dd3beb0f86b51, 0x706f54a97ff04a15, 0x15b97860d1a835a],
    [0x8b17db843e4a7f19, 0xd9c96e3cd8d96202, 0x214873ab03716319, 0x1225bfd0d701b349],
    [0xf280d7b100600560, 0x3cb0da884c4a92d0, 0xd408aa52c60dcc09, 0xf4ebaee2abcbc49],
    [0x2389a4f128792ac6, 0x7287a92d1f70cd0b, 0x35045ec8cb6a5748, 0xadeeea75944cd5d],
    [0xb4f77e72130591fc, 0x7234af8e0ec57c63, 0x385294a73d0ff67d, 0x1874870c72a32f0d],
    [0xdd2b1d74f613576, 0xe19b1485d989880, 0xd3777ba0085ec162, 0xcd011ee52170682],
    [0xbd43ee8de297e02b, 0xe3fc9221e55f5d4c, 0xbef16bb21a308c9f, 0x2e72b9107cc1e1a9],
    [0x92edb563399f7d84, 0x7803f4653ea20457, 0x5d2c0c6e1d08dd35, 0x7ad8d8e86386874],
    [0xc42cc82acc384db3, 0x6af68c14018c728f, 0xdd66bb0f5e963f0a, 0x273d3298e5b22284],
    [0xf089eb15820bfe13, 0x2b9d2bbe867be4fd, 0x5a1a71d312b41246, 0x111b832918546dae],
    [0x906a4fcb5cdbe7ee, 0x7753c1dbcd9e470f, 0x22bef040c565b122, 0xc4dec2328aabeec],
    [0x548d0606b8e6d7b4, 0x15d88ac22de1490c, 0x5eb38abf787121f0, 0xd21f2bf0ab2f74a],
    [0x1b7a5441978f77d3, 0x8abd159e32222740, 0x319b8f8babf49e73, 0x1e08837512f3cfe1],
    [0x37b91434642a11b4, 0x3b1dc5b8d63c96b4, 0x5cb8300994538c15, 0x211eaccc37cea348],
    [0x5bc38f68c62deee8, 0x39099f077a110455, 0x6332e3e208b9d4db, 0x123e045851f8649e],
    [0xba52bb151d4042e1, 0x2d5288a5abc67065, 0x963af9ca3e868101, 0x8b66ae60a35e192],
    [0xb172ba41855a405c, 0x27d424a166e6f9eb, 0x719f7cf8af307de8, 0x2e9188c8e02a08b],
    [0xaf31c2d8d59b4eac, 0xeafd7cfc1b43611f, 0xd0b5cef9ffe8e014, 0x52458b94157b0e5],
    [0x668e238b9ed2ed6f, 0x1276d13cc58faf89, 0xaddd514bf76e3da, 0x24bb0266c20a0401],
    [0x4fdfd3a214e3e54e, 0xa6206bf28a04b96d, 0xf4cdba8303b5f69d, 0xcd9a619dc0621a5],
    [0x41106eef149eea9a, 0x92e5b4cf3485599f, 0xfa6ea8da2c11d938, 0x119949b91445ca55],
    [0xb9061934e93cb97b, 0x13e8cb222b5d25c3, 0xc12a27c1128c314a, 0x265ec37b545cd5d],
    [0x171a1f4c75bd7924, 0x596e074fff4ac200, 0x3c78fa394a7ded19, 0x6aa84e7c246cd72],
    [0xbcdcaa341f63205f, 0x4675b1148fc31fba, 0x68aa65269cd73b5c, 0x1b4e6c2375275650],
    [0x152e98a4fb786da1, 0x41bc43e8d344be98, 0xab67254ffaca4930, 0x2bc7d97b099113c5],
    [0x57a3d80009c00eeb, 0x7f5b13b83ba8400b, 0xe17eb62c0f9d8cc9, 0x1e8fd4145c4cda03],
    [0xeb47e04dfa65318, 0xad1bdb3e3f1b6a73, 0x25c6c028b23e73fc, 0xde458ac4a2ca65e],
    [0xd4aae3c6dd444b5b, 0xf0c60ef611f3b377, 0x5ae140c239197729, 0x2d1ba2bfddb5878],
    [0x1e0c748a6ee021f1, 0x7fcbc396fd6c348b, 0x20967ec747b92e83, 0x29d94b0688e3236b],
    [0x15b1c755b7857d5f, 0x195b734c02a5aeb, 0x7b821d209c608a63, 0x2ec6c5500bc7998c],
    [0xe1be393a4817ef2, 0x1c76af2047efcaca, 0xb0cb058605d2c087, 0xd185c970b8d03fa],
    [0x535cc2513d60920c, 0x9dfa3f16b4689af0, 0xa5acfa7a0adc1de2, 0x300c58a0b3c59893],
    [0x7df19e3eced62ef6, 0xf8f38308d119b316, 0x4b9037013a6dec8a, 0x2360aebfee8827a],
    [0xedad853b092b5181, 0xee8802cae5a30a85, 0xc1349104235e9855, 0x43ba139aaacd5a1],
    [0xc26008e56cfe6f63, 0x276b1a4c6409d7c3, 0x97b8a4e996676d65, 0x1b0597b0023cc902],
    [0x2f78b90960771ed0, 0xd96417c07b841b46, 0x5046d0febd92edbe, 0xeb1857692cae61],
    [0xee2b0c5ea727eaa0, 0x9721ac3004096114, 0x684d027c760fa5b8, 0x6399b5873506855],
    [0x61f4fcb06e4321eb, 0xb4cb5e5db7666158, 0xd1a2e63131e25a2c, 0x92636eca31acea],
    [0x8acf0f5463b7d0fd, 0xc4431ebc533ddfef, 0x9a28f66c0d539f5e, 0x2e1d940f15c6a1f4],
    [0x38e44a6fa41b40b9, 0xe5c29347a5809943, 0x89bc3f6600635398, 0x946412137bd02c8],
    [0x8d1662253e61cae, 0x1db8faeadb62bab8, 0x99e5e425ae42b5f5, 0x18ec2c5948557c86],
    [0x504b890b9117fe4b, 0x5736783820591cb9, 0x7674a89bda016c23, 0xac166679eb2864d],
    [0x8e6ec15320c38443, 0x6c32f579be40d783, 0x62e16077221c2030, 0x4db97e1cff9f2fb],
    [0xff9c6c99268bb7fc, 0x3f3660896d85a679, 0x328f95369e86fb07, 0xc4d540ab17d3ba0],
    [0x2a489c76987f2ef2, 0xab013ab0ed99c163, 0x7bf66b3754ad1bdb, 0x2e6b4be5eef898dd],
    [0x41047a297ae19899, 0xbba942b0d9ba0b1, 0x3d6ca13f7703a47c, 0x15f2072ffd2d6caa],
    [0xd4272e0b2270604d, 0x35559d5dbc442514, 0x5bfdcc24ac895db9, 0x1ef8155e5c33f885],
    [0x77673126e4b6c1e0, 0x7f26573afe1d12fd, 0x564677d1af5193e6, 0x194f4e345835e516],
    [0x1c56c6ff2b668c98, 0x55edf2150a786ed5, 0xf4ff7d7a582c5bab, 0x2a3fd58a40436abc],
    [0xb76f555802d9af0d, 0xdd1c064368c2f0a8, 0xc34e4456d39ee6d2, 0x11729c1bf0a0f91a],
    [0x769bc2856e755, 0x3960ee6438f10e01, 0x2839bacd94feb106, 0x2e13f7ce1f37ee5f],
    [0xc78fd28dce78deea, 0xf07e6fb3acd7c7cb, 0xf50d8935fdfc204c, 0xe1442f5f0fa8737],
    [0xcb186b2fba077957, 0x3c812350450993bc, 0xb2cb7b01c67f487e, 0x1aac56dc7ff6d0ad],
    [0xd462a8896af11134, 0xf84c20240637b071, 0xb486cf00f5324887, 0xdb64a35a35a8fd6],
    [0xc1cf87b96f8796f2, 0xc82f13bc858e0bf6, 0x676e65d750a2cb15, 0x2cf6b1eb727612b4],
    [0xbdaa950efc805199, 0xb7667ff667063fb5, 0xce518705f2f80055, 0x761d1ff3a90fa0e],
    [0xe9a23dc680fb01c0, 0xdbf4904937bbbaaa, 0x6ed09f4c9c78dfbe, 0x92a84456e8ab1a2],
    [0x964fbc22796465ce, 0x1b88141bce69357f, 0xd6bf4b296ee0530c, 0xcf9cb1a0a9e17a9],
    [0x46a009446bb95f0d, 0xed439bed8efd7232, 0x8fa8eadb896e5a17, 0x1fd3b34a7c3a44e1],
    [0x9cff2fbde530787a, 0xc1bc901b58515f96, 0xda5f69e436740417, 0x4b5ad182b4ba40a],
    [0xebd0434fefd6944, 0x683d44ac92554d14, 0xab9427f84c57b965, 0x17aed43f02895475],
    [0x41bd683acbd43a7f, 0x22edaa6091e236aa, 0x98d59e149ef84e48, 0x302772848bcacef8],
    [0x391e83fcc86c71e9, 0x825cc8c85f6cb328, 0x9f94644a4110cd09, 0x14b66c4b0f5ee36c],
    [0x11a3ec663458fb2b, 0xe5fd97a0c6d536c2, 0xdd8b979158baaa87, 0x18d6d00bd7b85619],
    [0xbaa30b4876e11240, 0x53330bafc55a942f, 0x4da01ac5d06bbaf3, 0xc094c29ad77018d],
    [0x769099f8be230e4d, 0x8e410f0a3a11b4fe, 0xc114623c83ff250c, 0x1f6c4bd9672a340],
    [0xaf236adaf2d9de3f, 0x73537e2095dbe80b, 0x4ab65792beb92767, 0x279d9751ee739e97],
    [0x5f9300b68236da2a, 0x22219dcbe167dab, 0x804b13067dd4b0b0, 0x2560999bf8b9ba17],
    [0x6565121fddf4f8b4, 0xe39c8afc46292f33, 0x433d487381dfee76, 0x211d8050a0cc08d],
    [0x3a85f706ef48e8c, 0x2f1f8782dec0a5da, 0xf5c208ff1a487e37, 0x26dc6f484d1445c5],
    [0x717dba516808d237, 0xa78f7d847de201eb, 0x6796c3bb711467a6, 0xd11eab567c463fd],
    [0x6d99ce97c4e7fce0, 0x4a6315981c2394c2, 0x91b842a8c2df9ae1, 0x239b30a866e37784],
    [0x8b74ef19c27735a, 0xb21c6ad8ef34691e, 0xe4849a97467eb4d1, 0x2e35cdbf79533471],
    [0x2619c6bdbb18c77, 0x3a2293e21dff54ea, 0xd6acd40a63eb0881, 0x2237729ead5273e8],
    [0x74b96d41703d648, 0x904952ec0e41480d, 0x1aa1fc42768007ea, 0x290c8723936f36b9],
    [0xfddf72964fdf9c53, 0x850af2f3a7e2afb8, 0x8148cc1b59f5c14a, 0x1c279f1d50860ece],
    [0x19f41421229922e2, 0xe984c24a5f5c1b7, 0xfa59e7f90eb10eba, 0x1938e4214605f8e2],
    [0xb471657277d770ee, 0x8ed1506f33a711d6, 0x50489056ea161cf3, 0x1b45ae36a32c6891],
    [0x90f6b24a8b691431, 0xb3aa06c708b3faff, 0xf0ae7f7dcd7cc86e, 0x2f0ac8b7be349d38],
    [0x5c26ae970e2b1f06, 0xf7f5c4eb39fe9c06, 0xfdb5a75611be0d4b, 0x1c40238de6c61dc8],
    [0x115bcac4d165f3dc, 0x4b46c892c6782a27, 0x8ae4ebb790bc188c, 0x1b4baa71e93d1301],
    [0x555ca5a57ab4b1d3, 0x70b853928ee08686, 0x97187dcdd2927c51, 0x145d0fd15960dfe5],
    [0x7b192a325d6df626, 0x3359ca693c6aacc4, 0x4e7c99084980599a, 0x83791a423ac4050],
    [0x8acfcf1d79651a3, 0xe4c0d2f9033b04f4, 0x616bbfc088819ff, 0x2999885c947c9dd0],
    [0xae392fa7b05af4f2, 0xd4f28c31fbe77fba, 0x6241af5eea0b62df, 0x8d0a62a3ee05bc3],
    [0x86d3ce2cd3558e33, 0xc242eb128031aca0, 0x1835114c4316e7ff, 0x18e93970a8a8070a],
    [0xf05b6db2992cc12e, 0x95eea5c1607dbbcb, 0x28fc87c100b5bccf, 0x126590f273bacddc],
    [0x60d74e7720e92117, 0x37c241e7565b527, 0x406cfe7c64c1b0b4, 0x21a7b2a18aba9b81],
    [0x57043891bf5174d, 0x18293966de095b2e, 0xeac16b7b6f036031, 0x4985dff243cbbd8],
    [0x80cbe55aab7241bb, 0xebc22d4a8c03de63, 0x2e3846c398d05727, 0x18ad558446b1c934],
    [0xaeeddd8cb06fb65f, 0x5bcefb67946cfa6b, 0xee4b05c3c66886a3, 0x1b055d908da8e662],
    [0x6b17c4fa79dc0eba, 0x499fea2e1e1547b3, 0x3fdbacba6fb3f0d7, 0x1a10263fb63bd4f2],
    [0xc6578b27633395cc, 0xfda63d5d8eb55bda, 0xa1a31bbdc27ca1b3, 0x114b2c3f7730ae08],
    [0x7a3bc63d4006bae3, 0x7e0c63a9a367f09f, 0x5f3a67065ed86937, 0x1a3f27e20df3c404],
    [0x51b1092640bebef7, 0x30923f65fa769838, 0xfdc60b3ad67b9885, 0x1eebb48e654885e9],
    [0x52c90ad9d80c2b1e, 0xbbb1efa9deedb84d, 0xee853f9d4a4817c7, 0x2ab3b05b9cc58838],
    [0x4bc0b5eeecebe356, 0x6ae0f4933d89440, 0xd5716971f2452b31, 0xbe8d510c3f0d8ed],
    [0x877b4fce9bd30543, 0x5bcdf876e50523cd, 0x9ad2d4f8b3d07049, 0x300225e792be5f67],
    [0xc7aa4805fadbf0f7, 0xba7b74735753cd0, 0xa5d95c24c93e8ad1, 0x2df4b36388d11c2c],
    [0x3c75e989eb0629b6, 0x63195997b4cfde16, 0x54639444d4f00316, 0xef6deac5ae321c0],
    [0x82539074356e5852, 0x409de14ecf636b36, 0x6bc0ea08a153bd5a, 0xfe041753831aa6a],
    [0xe1870d2dac147f89, 0x73e0aa17ac7c2fae, 0xb31832b57081aedb, 0x107105d12a394dbc],
    [0xda76079f7b78f1ce, 0x35aa07d8ee33703f, 0xcfa93b80c537ea8b, 0x1c2618562f04166b],
    [0x97e211e158df46fb, 0xe3db58ecb8d194e, 0x11799438a638f0c8, 0x27f7f4d91b9f4522],
    [0x32e4f6626eb3bb02, 0x1bdfa94bd125e1e0, 0x43652dc20217d9a9, 0x2a9982f31c9f628b],
    [0x34af036176b7f343, 0x396960849613d133, 0x891ee8f715409412, 0x2676c1451011dab5],
    [0xffdcdf58c80de932, 0x6d3d66869a0f834b, 0x660262717556e57b, 0x27c95df56dbab27],
    [0xda643a9122fc76b7, 0x6b9a9eeee28606bb, 0x94b921733803da9d, 0x50255c8e75aa4e2],
    [0xf7e467501768d237, 0x163d48634967d0da, 0xed674bf21e7a7d23, 0x26a0dbba1128c1e],
    [0xc206998b62e789df, 0x839accab3726278e, 0xe75f1ab266b46f0b, 0x16e80c84883b3370],
    [0x5963c92254ad7d, 0xa4503950a6dd151f, 0x3124c5e857253337, 0x9782b1fb5ac39e],
    [0x265cd168c1670c1f, 0xd75b79c74e67ad2, 0x8c7db0a286cfdfbe, 0xa6975f45d3f7bb1],
    [0x2c3dc1c47b4c8440, 0xd932a780e9e74cb8, 0x2ad35eeed1b468ef, 0x9b2d6b4df7d7073],
    [0x5340a69b5a322739, 0x72ae4b445224ebd8, 0xf5fd66f13cac8bee, 0x96195e37522c163],
    [0x4a5534fd60422941, 0x496b7501baf0c8bf, 0xce8bd15db6b08bc1, 0x26d015d70931042e],
    [0xadc1d181ca6198a9, 0x7b8cc5d9ab9c3d79, 0x854079a2675ecece, 0x39f5d3bf59ceb12],
    [0x37e8640becc56122, 0xb02c1e78d6f99cc4, 0x82e2360d38137d2f, 0x1352b30ec61d92dd],
    [0x110f77417fe381b1, 0xbc1f9f63f4d6019b, 0xc0be6510b233fcff, 0xbd8e9fb03b03709],
    [0x6e69494755853723, 0x221ac783e675bd5f, 0xf10ac3568122fe38, 0x14d37b7920faff9f],
    [0xed23c732f345501a, 0xa1f2685bbed6fd7b, 0xc0c380e7063fff76, 0x2208c576d439a6c9],
    [0x42e2847cd650aa55, 0x271c6f7568979d37, 0x66c0075a5b7a0cb6, 0x8f4fa71b7c3c71c],
    [0x508164de2466b74e, 0x483d2868125eb7de, 0xdc97d3b96dee7b6c, 0x30553e47d42844f4],
    [0xbf797dc5b2c39a86, 0xb0c32a55f8d111f2, 0xcb54d27ae0130988, 0xe10c2cb9014f110],
    [0x4de176c7c061e238, 0xa8888d8839aa7e41, 0x53405e4964dfd447, 0x2801868c0861bcc9],
    [0x2f14ed1b87caf599, 0x31fdfc9ac5d2cca0, 0x8f8b4ec83aa1f0ce, 0x23ea7dafbfe7bf1d],
    [0x510ce945966f3721, 0x6d641e02f6fe47e7, 0x416dca632a59caba, 0x22ff012edcab66b7],
    [0x92228583ca5b5a4b, 0x5a1f07b6c21d, 0xd97311a5c0b23144, 0x2dfd80076ffbaec],
    [0x601ab2d7a1b95606, 0xb93aaa24e2f65d26, 0x3e066a26e232e26d, 0x23c45a61f4f2c8b],
    [0x277e628489594e2e, 0xacc0ce98d145e4fe, 0xce9ad3e82d8c30f9, 0x2072907f984ca35b],
    [0x67fcff008a6e45e6, 0x4a8122bc4e90e7b5, 0xe1ca762ffbf07f8c, 0x8964e49de9a9fe],
    [0x1342cd859a1cd907, 0x23213bf0db9d5b06, 0x21453a73030f2a35, 0x2dc503267b1497a8],
    [0xf232b91e67fb2aee, 0x3e4bb185af60addd, 0x56af4119e7376a59, 0x5fd4295ee0e76dc],
    [0x3775d3c07b462706, 0x1fcf6e6bd5b1bcf4, 0xdfaf471823ed759, 0x2092ffeb6b776087],
    [0x80932ec208c7f800, 0xdfb424791ea612b2, 0x30e463ba797e3e08, 0xbf1a49f9b9ac34d],
    [0xfe9eac93a36b77d4, 0x69d3ad5a63f9625f, 0xa56bff4cc645fcc2, 0x272a88a53e263ff0],
    [0xa8f06ccb7f2aa8ce, 0xcc5e2ef14a3914ae, 0x4b10d6f29824311c, 0x27bb4022b1f68918],
    [0xed78a351ab41ce10, 0xb20546dd9cb53b3d, 0x22f7aebc5171f960, 0x178f0ee74c834c0d],
    [0x2f3a6444be321b5, 0x95fd98871a50605, 0xd5206a8646dd6f4c, 0xbf6df276b3f28af],
    [0xc5533d4c3c5d098f, 0x3c1f7d509a91dd7f, 0x3223f935d2a0a257, 0x219d4e79092df13b],
    [0xb3b2df05b679b4d, 0x87f1e0f97b816328, 0x810411ad9950ca9f, 0x20f5702b749f56df],
    [0x793f5a6bf216386e, 0x4badb692e338f716, 0x68c791ad18246ed8, 0x117284f038872bce],
    [0xc62b7f57ef63d968, 0x93d08ce8c2b8a343, 0x84567ed71d408470, 0x2c2dbc65a26b313f],
    [0x8a10b5fb008ae77, 0x3403cc8bf56997c5, 0x582049ef7e0284d3, 0x1743373e3858cdc0],
    [0xae2dab5de051a659, 0x8fe85f80c4f03f9e, 0xb5a3bc0e8202e9ce, 0xba28f299d1ca31d],
    [0xc878dc9ce68f17eb, 0x3408c2cc0dc2e725, 0x86055faeadf047d, 0xe46831dc32f73c1],
    [0x250e314e2881f70a, 0xa0060bf86ea00762, 0x50d8d979e29ef11f, 0x1d8635cde2ec64aa],
    [0x5f12e34a343dbcb9, 0xa64063688fc52f65, 0xdc21882511e03b7a, 0xeb6d86f7e11b1e3],
    [0x82e7710b586b6a81, 0x7346f6b2690f220f, 0x4b06fca648b0703a, 0x20bb2d1b0caed11],
    [0x8f588539eb60075e, 0xf15daaab8ee76672, 0x18bfc08f7ec2d66b, 0x1c4db5ac81e0e478],
    [0xae845760a4b1e525, 0x3ab7a78e8eedfafc, 0x55abb8199b0069ad, 0x16eba5f5dd46415f],
    [0xb85c3f890779f02, 0x165a8b34bd180111, 0xfc27daaf0bc00db0, 0x46718c49cfcd67c],
    [0xc4b16c0b19feb44f, 0x71eb92a2e31bdc1f, 0x78f9eeeacc462eed, 0x10eccf3b4cf167cd],
    [0xba7bf0d67050f3dd, 0x15a5afcf3656f149, 0x74f18bc53f4274fd, 0x16e1b2c0dd885277],
    [0x1a4b2c904969ae53, 0x5f961bf633d0dfaf, 0x7b801ff0b2c6c272, 0x1d13bd396da5a68e],
    [0x81fbe9a0ea3224f4, 0xbff0618df4a31b3, 0x97d9a5170d7a3323, 0x2023518104868b1b],
    [0xffeb559f153ddc26, 0x4821f0a1def04495, 0xd86cb0d84535ccb9, 0x84c4f9050120239],
    [0x19069ff96c83566, 0xf74d77ae07139d2, 0x2d79660600e05c57, 0x1ff6f423d94667ef],
    [0x27274036bb363bba, 0x2d81bd6a8b46ad, 0x5ce2c130b9d3ec76, 0x7b5719a1e09b96a],
];

/// The values of the round constants for width 16.
#[verifier::opaque]
pub open spec fn c_vals() -> Seq<nat> {
    limb_vals(C_DATA_0@)
}

/// The round constants for width 16.
pub(crate) fn c_table() -> (v: Vec<Uint256>)
    ensures
        v@.len() == 192,
        vals(v@) == c_vals(),
{
    let mut v = from_limbs(&C_DATA_0);
    proof {
        reveal(c_vals);
        assert(vals(v@) == c_vals());
    }
    v
}

/// Part 0 of the sparse partial-round rows for width 16, as little-endian limbs.
pub const S_DATA_0: [[u64; 4]; 256] = [
    [0x183933737a8b8099, 0x5a12255c37ab51ae, 0x206c43daac752b76, 0x2b6fd7bc3a3b595c],
    [0x655fe827868e909, 0xc3e238a7d873fdc5, 0x566f310cf31beafd, 0x2fb280a1f23df0c4],
    [0x471ea6f987d6d0f2, 0xa0fcd7e4183891a7, 0x9a6275e71558b9e1, 0x36f175c993f4e40],
    [0x62210b2855e849f1, 0xa74cc5dc7af2177, 0xa94d443647e0f69c, 0x3be177a0fe1bf76],
    [0x4ed75bf6c7cbc146, 0x10df6211d4d1fcf5, 0xacabcf5a68f01ebd, 0xed6491c4fd0f129],
    [0x710ee62e56c0e4ce, 0x5051c013941b2d, 0x31d47c20844fa870, 0x2158db47b374d9dd],
    [0x7794413980eaa09f, 0x66227447e5dce4c2, 0x4866d36005fb17b8, 0x637d7b15c4259de],
    [0x6595edff287d4bd0, 0xd8fcb5b1a156dfac, 0x6319028050cb792a, 0xb745dc1580e5e3d],
    [0xa76e2755e7378699, 0xf65f518ef34738fd, 0xca39be41a609714a, 0xdc8bdccc8f3ddab],
    [0x24c8c82ace7e1033, 0xb31b17f45c8a3471, 0x397fa9f7f6d2fdc4, 0x1fdb7856e27d608c],
    [0x665e54acb329d3ec, 0x349c26c64b5bb018, 0x759bfd5b2949356a, 0xafff33732a140f6],
    [0xea70c0f7b39c1383, 0x2cca653efebee3d5, 0xaee31a16facade0e, 0x1b1d97c16995fec9],
    [0x1d81870ef9235387, 0x37f51e2917f9e0b0, 0x3694bdbdb3fd274c, 0x29ea18e6e4c75a1c],
    [0xfab7e50b0616427f, 0x5966c008feec7843, 0xd34d07b9634610b8, 0x15d5f5aaf91baaeb],
    [0x1e669591df01239f, 0xfd7d224df064585, 0x943bf19f18d76523, 0xbd8e0c3a167d9eb],
    [0x6390d964cc0e055a, 0xb92bfc00437147de, 0xaccac841326365a0, 0x129293724e2d76cb],
    [0x38548d672b7b2641, 0x33ca6c86f81db338, 0xb6bed6c525db5d0c, 0x2d70576548941c2f],
    [0x735d92e52a054434, 0x9a3cf337d5f9873c, 0x55888292d91ac743, 0x2becbbc12e498250],
    [0x5ca01f4611f3f617, 0x3943d8e396c5c0e, 0x920230f3a729ae33, 0xcefd0b81bfabcb9],
    [0xc9c1d0aa33c0b0ac, 0x6719742257039015, 0x61413dc4f996f145, 0x6e47e966b1b597c],
    [0x2e2aca505a43c47d, 0x5720b8afbdff0611, 0xb06e3a94198e4433, 0xbf90647c85cbc82],
    [0xf283a50324179227, 0x8f658c69cbec21fe, 0xfd8c614767a590a6, 0x239bc57d7b109cae],
    [0xf2adc28d26d2d322, 0x1dd65ad5f2966b74, 0x5d7225191366fe69, 0xa36ae4cb35b4f86],
    [0xa969d684be4ce2b8, 0xe0d591b575fcd089, 0x4685fc703c807ec8, 0x11244585fece886e],
    [0xc7f766ce57e29694, 0x9185e317efd5733f, 0x99a3f45903ace507, 0xcaa7779dc16bdbf],
    [0xdc66e00674193839, 0xae8306e463250814, 0xbd6908adb4aaf6de, 0x26996b9d086885f9],
    [0x72920ec732bcdc16, 0x7ca55d9135e89212, 0xe51f5f1e8f79d4fe, 0x135e66a0ee13b287],
    [0x3788518a3972e5b1, 0x77331e35861356, 0xc808029c59a0e823, 0x233e95062085e2de],
    [0x9e00d0c99f8ae082, 0xa0ad65d9f05af6b5, 0x381efebe71172f91, 0x23ab13b15889f8bb],
    [0x57e058fe11000742, 0x589fe0e604c86f8d, 0x2dea729f0c68a908, 0x1ede4de25a83103e],
    [0xda4ae8b5bbeb4c78, 0xe3f3504e3b89e6ee, 0xbd488533ccae1431, 0x2b5b5bee788dcb23],
    [0x183933737a8b8099, 0x5a12255c37ab51ae, 0x206c43daac752b76, 0x2b6fd7bc3a3b595c],
    [0xd68596765ed894d3, 0x946eb8c46b6ecec, 0xe6360b115eb03827, 0x257363f01fbb108c],
    [0x32189c382d763944, 0xe57a552ff9f2c768, 0x5582fc2f0a195524, 0xe06611bd4eee160],
    [0x9f3b24260c15f8e0, 0xa9427d34af4afbf1, 0x77b8dd4ff261d965, 0xab70fb6823f52c2],
    [0x1b242966d3bbdab5, 0xa82d411d4698c91e, 0x3a4068884fd1c6d7, 0x179c941d644d804a],
    [0xa0987cfefe0dc13d, 0x2746cbc188149a51, 0x2d297bdc952c7cd0, 0x37f916e90d41904],
    [0xc1493a085cc00a56, 0x5dd646d42dfd9f4, 0x531882dc015e1d9d, 0x43f3dc3d91b0abb],
    [0x8bb5e6fe44096642, 0xd3f5b89666235cbf, 0xf488ea0a074f56af, 0x143ad19c1249acbe],
    [0x405ec095719c4279, 0x37fe7b3a9d024b7d, 0xf4fa76df7ce2992, 0x1b76610fc8cef2eb],
    [0x20cf2bc36d69ad59, 0xb3ab1b9c0dda2ec2, 0xc872a1ea5aa4b542, 0x1a5148d68913df74],
    [0xc293be998eba32dc, 0xdbeb9a5350c37fed, 0x72037000666e2d3e, 0x13f11022ed022849],
    [0xdb95162159092a70, 0x5e46f5bc55b01015, 0x66925ff73d6abde, 0x806f266e4c35c6f],
    [0x408878871d073f64, 0xa6efe3c75660218f, 0x49d437ca48752123, 0x2e14cdaace09d09b],
    [0xf029a17a88027839, 0x45403e111f0ed36a, 0x3116df7af0abe569, 0x1c4fa8d7c6c8eaf3],
    [0x9d481f26c6f44594, 0x1877896e044051e5, 0xde5ea32899d09e60, 0x23436fd3d8d48c7],
    [0x4f9c7f715f666b10, 0xeb91a104b14235a8, 0xcb9dd2b70155e1e3, 0x437191fdcb2c0fc],
    [0x8f24f30e52f6a1bb, 0x29dae51f21dcab1b, 0xc0b1f8e1cc3ebbbb, 0x2f68a6ebb5daa3c1],
    [0x8ffbbdd197e1fec5, 0xc9810bcafd7126f4, 0xfa278a38d385fe17, 0x2d82def6705911bb],
    [0xf0d0fd9cd776a63, 0x39c447f776bf1329, 0x5a96b903121d2345, 0x15fead0f7cceb9fa],
    [0x9969a8f91fb37793, 0x1cdaaa6b5de4f3f7, 0x3c435f9f14ae4f12, 0x12390ef95e294ede],
    [0x692dece89a6c11e6, 0xb8e565105fc6d52e, 0xc8e0a5b0fea83cd2, 0xa9f6f1757a4b1ab],
    [0xe790c723f578bd49, 0xf2df49031ce420e4, 0x4ec8a132ee6d810d, 0x996db2a2060b045],
    [0x2ec5987dfbcc6905, 0x5b337ced6c23d2bf, 0x96938caea3cec3e0, 0x2670a74f37e6a325],
    [0x98452ef28e3fd44e, 0xf908b17f864ab59b, 0xd3aafe9f5a2ae662, 0x28ae07ea7a529805],
    [0x8329f6319fe8c787, 0x259b4eff63a7be95, 0xb63c046d1507b8b2, 0x24002c49771a2fc],
    [0xe4babd4f357dce, 0x39f492180d6ac473, 0xcc93cca78ea613cf, 0x2703e03745ed8810],
    [0xb758f733e2ed7b7b, 0x2b04d211a0709bd9, 0x85eae55a01cbf8c3, 0x22930293c3334990],
    [0x36810430014a902b, 0x7baec637cf48a67a, 0xadbdeaaa440967d9, 0x2a0ac5d7f2daa3ed],
    [0xe79e9a3dd4f3f4ec, 0x9d30128c86f68bf6, 0xdb4b2241e6bbb08a, 0x25fa48cb70003175],
    [0x3d1e27278770016, 0xc23ff4d55212a99d, 0x97474a971446b680, 0xbae040ff4b1f63b],
    [0x4dc2b93963218e16, 0xe76ab99c646e6666, 0x42348c90267158f8, 0x2fa5db728b6058cc],
    [0x183933737a8b8099, 0x5a12255c37ab51ae, 0x206c43daac752b76, 0x2b6fd7bc3a3b595c],
    [0x503da334da8404de, 0x8fa6d7c4c634b4a6, 0xae0fa520a3ebe447, 0x114401a4ccc83c86],
    [0x2c2b1b6ee821274, 0xde7a5b9786ad947a, 0x8b7c2ba869a1bf10, 0x1ca6273af6d2e51a],
    [0x60caf0deb0e08d03, 0xf46ee5428b9184d9, 0x2531b63b511782f1, 0x2c7b4af671ec5fa1],
    [0x3ffeda60f5d97b0b, 0xf97d514e5332e475, 0xe9362b023e55456b, 0x1230182c434b2175],
    [0x892181e2120c91e1, 0x41d83a8260b6772, 0xd07c86d6c24f48eb, 0x22e041c288ef26f1],
    [0x782219221cc6bd8e, 0x8284f26ad6581317, 0xd38927ba63cde5a1, 0x28acbc69fbf7a25e],
    [0xda6a3651e46ef543, 0x724bbd1f1118d32a, 0x6440fb59e8e888c1, 0x2487337fffaa7fea],
    [0xd21d0928d54503db, 0xa1d2cfd750eac8bc, 0xc6a1950def1f7eed, 0x61f4630cd8a70b5],
    [0x81339d92445458b6, 0xb03eb8afefb5963b, 0xbfedb04dfd4e5b57, 0x3cfcdd58420e81],
    [0xa889eec1378757e2, 0x7c927091f10086ff, 0x8561f10ffdef7348, 0x1211f09c601c3112],
    [0xa400bde10cabc91b, 0xb44e40ff4863dc07, 0x16899003f881ae2c, 0xad6247ae3bacb7],
    [0x8c1f58ef81106949, 0xe344ff951be2f541, 0xef29d522a6631e22, 0x161bcf48d7d37906],
    [0xa6261bdafc405e27, 0xd167219533072672, 0x56045f01b9050872, 0x1615caafce9cf996],
    [0x2e009e384fde164, 0x23c76b1c9610fecc, 0x9dc4c906e121bc50, 0x1f1fd1b64c8024c1],
    [0x1817c2accde13fb2, 0x97250e81efa50656, 0x1dcca051e7f8120, 0x1a343f06c742b6ea],
    [0x145897e255644ab8, 0x1bf2fd2e73c135a2, 0x774e8cedb40c36cc, 0x1aa5ad37af4cf033],
    [0xaa22b6174545679b, 0x796905e42f05a2ae, 0x3153a84d2a88b38, 0xa8e74375e1ca920],
    [0x805d79b391345944, 0xca7aafbe8b9d7d21, 0x26523b37e7a7a565, 0xddcb524f3d1e36d],
    [0x44907913558ea892, 0x91eed63a8710d15b, 0x367ff746030b9466, 0xc64669d92336353],
    [0xc23998b3852eeb2b, 0xff63e253eb8df61, 0x5ff734ea821f2b1c, 0x18663caed52af312],
    [0xa8e48f7bf9d22cc3, 0xdb8d91e6be62ef97, 0x5ae99cfae9f48a5e, 0x8aa2a6dc1acace9],
    [0xe048532027613e9d, 0xd0ace0e72b96d6f1, 0x157e37dd929a6b74, 0x1d810d45be42ede9],
    [0xa2be624668a51767, 0x65a7614cbc164dfc, 0xe7135d72c00a7dce, 0x2cc11816c46e64c6],
    [0x42bb2c2216a8d3d7, 0xb5a18e0baeb0774c, 0xeee8555d901d6cb0, 0x6bcac935d9e6233],
    [0xb5051b5adb01208, 0x53cb080e6d412e79, 0xb57b79cad63226fc, 0x81f422bb15ef7e9],
    [0x83129a9795177bfe, 0xaef62fd6a76435c6, 0x5c213a72c969a94a, 0x17233f2458d93db3],
    [0xd924c2fdc45f640, 0xbd67587499a00b44, 0xecf5d3c873cdb3a6, 0x223c464793888525],
    [0x6900188aef36e2e7, 0x28dbd1b5ba3fc7a2, 0x38bbacf953537c2b, 0x12ff515ef3e169b0],
    [0xf1e820f7da4174b3, 0x736ec4259f0b09d9, 0x9b3d698e621b1980, 0x55e0568770fbc4c],
    [0x48a647d561c756cc, 0x625fd07c91bdcbf0, 0xecbd0987f9480b74, 0x185b90addcc3b674],
    [0x183933737a8b8099, 0x5a12255c37ab51ae, 0x206c43daac752b76, 0x2b6fd7bc3a3b595c],
    [0x937a17360b4b295e, 0x4ebdbf12885955ce, 0x40f5510e8b4f1049, 0xa4ab29f428a1b40],
    [0xe69487fbf9b0996d, 0x4f9318c08376c15d, 0x253a3a9e35771523, 0x2a64788ea96296d7],
    [0xe723739a6752f6c9, 0x425b166ba786b2e1, 0x6271b87c3f984f1b, 0x2385278678bf43e0],
    [0x56d8aa3f5c10fbfd, 0xff998995317a960b, 0x866818f1c3986627, 0xf8d204bcf2efaa0],
    [0xe23e3332ba18aadd, 0xdefda22caa9a6ccb, 0x887dc8f3db5858e5, 0x2d07b5bc553344a4],
    [0x426bcae49aa1c7d, 0xa19c9089c1713848, 0x80433e025985f80a, 0x1e1a6765877cb935],
    [0xbad3c0aab3b69e73, 0xa1dadb402ae9a56e, 0xb6da60f57ced335d, 0x15f1a60617344d29],
    [0x315ef4dbf045d914, 0xc23e8bdbf5343938, 0xd2937bcb65697fd, 0x6be01da4de9af6b],
    [0x790ff1f10b9ead7e, 0xdb6d4d0480393913, 0x9df123ba1a54e248, 0x204479ba44f6c607],
    [0x862a00cb4c83b24b, 0xf9736c42439f1481, 0xa9abe3419797885a, 0x1967ca2365849a5b],
    [0x44ed4224eabba54b, 0x2fd38219786d9c57, 0x83f197633c4c83e2, 0x37b78ab4c6c1cbe],
    [0xa7bfda3a3414fc5a, 0x24fe47658704341b, 0x7c2d5e79e8a5b478, 0x21202d9fece3b351],
    [0x50057b7d1ce55eb9, 0x8a68d1d6036b9616, 0x31e6849247257870, 0x18bd7e46303c3c2a],
    [0xae2c03a2f0b20c55, 0xb2c2128ee021fce0, 0xd01bf9010b16047b, 0xc5f32f34e129de8],
    [0x77b0e5145c80671f, 0x793d9c4477fcc5a5, 0x4f32fff661e414f0, 0x1ea1c77b9ce7d24a],
    [0x13d2da27fab6fb, 0xa69efa205b469033, 0x9fa5ba144d29b8fe, 0x2abb7ec37e2a52a0],
    [0x699195d9ee5a2326, 0x547808ffe4fe96c, 0x329962beb3c40349, 0x196d47ff262f5a90],
    [0x911858598682f57e, 0xeba25bbe8520b781, 0xf92970aaef0d061b, 0x2da5dc389b073e52],
    [0x72dbb789bbe1d847, 0xa83feedcfa0a78db, 0xdd5fdeb7a8a796d3, 0x2cce11343f974369],
    [0xc689e4e7f0437b75, 0x47755fcb4cb7ccc4, 0xfef60886f32f084a, 0x131262e283cf0b05],
    [0x2fb03f98ac887716, 0xa244b8b284d547b6, 0xfb38931c02d790fc, 0xae1188d015d3604],
    [0x9797d7413f8b904d, 0x69cdc515414bf939, 0xeb92a630bb7d0619, 0x7579345afb1c183],
    [0xafe4fd77d5d8769, 0xe45b897ae71a7b5d, 0xf0a8ae9b38a3f253, 0x2429aebe4a674a80],
    [0x5f7b500a80052de9, 0xf30dcf6806f6ab2a, 0x95a953dc0c697bbb, 0x1382b92a6c573bb1],
    [0x2f6426637be87413, 0x49b04b3d5ea49d58, 0x2dd31a315254bb0a, 0x1d182578837b58b3],
    [0x6a1dd5d51b902207, 0x3556ac8d31b7a3dc, 0x4b265cf60218727c, 0x2d9888fc8880aa1e],
    [0x2c76fd2fb33e3390, 0x7c5a48c2d392a775, 0xeaf2040a74ff55e8, 0x28fab72bbb99f1a6],
    [0x9f06a09e4eda55af, 0x4f58cef56b12d52b, 0x48b5eae7f060021a, 0x2678f1ceacfa8e3b],
    [0x1b36c71979cc448f, 0x316e10754718b9f5, 0xff2f1eafe57827c9, 0x1f61d359d1619ec4],
    [0x1581d912da30e95b, 0x6db0edc85aed26f5, 0xe509d5a57f004bcb, 0x1a1d9f64b52be377],
    [0x183933737a8b8099, 0x5a12255c37ab51ae, 0x206c43daac752b76, 0x2b6fd7bc3a3b595c],
    [0x74c3e4d125a4a177, 0xe626edf74afffee8, 0x25a44e9bdb14491, 0x23884cfd0f045915],
    [0x6374ceae21e5f169, 0xbdd927d0328230d, 0xf1515c134b10ef89, 0x285d07475f22446a],
    [0x47ce11b669bcccd4, 0x33a62e8c46e7e05b, 0xa26ce90da4f498fe, 0x353d664345c344f],
    [0x1bd002e2449ebff0, 0x702b9e84837cbcb2, 0x4c073e1cfcab0880, 0xa5f24df76f39b00],
    [0x8ddcbcf55cdf5c29, 0xbbb2c55be723d667, 0x88d665292050cf58, 0x12dc4fd8b7920192],
    [0x25b8bba24229e6bb, 0x8b253895beca3086, 0xb5f03c328610092e, 0x193f04538e44b693],
    [0xd887b78bbf08251e, 0x8a2d9b85103dd44, 0x6dc17eb24b05dbfd, 0xd40fe93ed90a019],
    [0x286c0aa9d766250d, 0x81733296a02ec2e4, 0x10698efff9a18982, 0x1a1e1f731268025c],
    [0x242304cf2c7f04aa, 0x611466b687c60dc5, 0x6bd4b78d76b1b99d, 0x27e53cee0536c3e9],
    [0x348e63c1a3cd4057, 0x86b3379a5423669f, 0x765d6a0548f8b997, 0x1e131e762835f631],
    [0x759e89d0fa81f62d, 0xf54ff52fc6a300f6, 0x631a509767ab747a, 0x18377b53a6b68420],
    [0xbef9170dd124f2a5, 0x145e18be0ab17461, 0x24b7b3ef861d3d98, 0x2b52851f9a2c117d],
    [0xbbdf8c9e468f8f1a, 0x665679cd543440e5, 0x59a2962ce2736f5f, 0x203131dfe05f4f38],
    [0x901955439b5f47b4, 0xb3b568f612b79d2b, 0xbd1ee9de577c3015, 0x11ba7216dd386406],
    [0x24cd845ba4d8db12, 0xa1b88e34344b1ee1, 0x80b6ee40346acb41, 0x6cff68dad821395],
    [0xa394ab6d66596693, 0x24327554f045875, 0xdf0d0e12fdaba43a, 0x176b605012f38593],
    [0xd8267bdc2602823c, 0xd9f7f5e78edef, 0x6b2a0d0774c06d99, 0x2bb40088a1add849],
    [0x8fabd206ae02db19, 0x6dd1838af7e0a761, 0x5efb6f5f3028b5d4, 0x6ab5edcd1a597a5],
    [0xd7c9e671b74e52ba, 0xd251e5d868a49615, 0x401c06e2327e1dcd, 0x1ef4d4d25e3f6731],
    [0x2bb6c5b2538ee108, 0xee52f8bb8c6a15af, 0x659ae5aa5d4608e9, 0x1132917918891833],
    [0x97c2a099ccdb436, 0x7d7cb3887c6b7408, 0x9c0c5fd4c8f4477c, 0x3ea727908383eb],
    [0x89936d9e10f58965, 0x244a2b2917fa26f9, 0x16b41f93bc5c9df9, 0x1c671af55a23385b],
    [0xa409c3209c83dd16, 0x382a94f65bb32f81, 0xd358dd5c03a15ebd, 0x2877b09253cd0233],
    [0x6eb82d2745bd3352, 0x17f30b1c5824bbbb, 0xaadbb9e91c78bfbd, 0x120ac765f71527ad],
    [0x38f37b7c79110633, 0x5dc5a59ff6b9e765, 0x54e3a35f4fccd268, 0x1c2a7fe3bb93bafb],
    [0xf6854d9d5ee8aec4, 0x8e5e051aa91efdbc, 0x3beeb368b204d8fe, 0x245676b487e217c6],
    [0x7b63fc9f450d87e, 0x277dd1af0a902f71, 0x7185d59f382ff63f, 0x1a0f4f24f3fa75b0],
    [0x699d0305f6a68abc, 0x4b797688ee8c2f05, 0x4759a2e85cc92c8, 0x174bb5947efa62f9],
    [0x3840b7b775beba02, 0x971f7d386c174805, 0x7c05bf904de6f8d, 0x93051276353b635],
    [0xea9eb190ef9b082a, 0xa71dbac4300ded7a, 0x74eec9b57166abe7, 0x20110b96b5139658],
    [0x183933737a8b8099, 0x5a12255c37ab51ae, 0x206c43daac752b76, 0x2b6fd7bc3a3b595c],
    [0x77381129d1b5cc11, 0x3494d28feae75a0d, 0x51b06fb3f9e3d5b8, 0x17a51da68d460009],
    [0xce685bece85a51f, 0xca4fdb7b0cd50771, 0x5010e1a965341e48, 0x19124aeaabecf413],
    [0x13818bbedac93ccd, 0x27a0d5d19c944240, 0x2e0fad57504ad2d9, 0xd4eff1190530bdc],
    [0xf6a141bc043c89f1, 0xe5e23f954bbf9cd9, 0xd9d42940dbf9a496, 0xc4e91e3b7cef308],
    [0xb7ad3ad8678c6140, 0x31c1526c4694d8b7, 0xca8c530d786a5221, 0x2a91fff770b866c8],
    [0xd26d02d15302df7, 0xc441a1749009ee7b, 0x45f8dff7f19d5092, 0x211b948fb5c8a9cc],
    [0x8d2a8cea3969e66a, 0x663d24ac25b376fa, 0xc93961bcbe7ae460, 0x1e30b1031a24069c],
    [0xe433aac75004ec6, 0x9033e0e843d3523a, 0xde5b5b8f6c69d0f5, 0x18b82e2032f53458],
    [0x953d8675f35784d, 0xf5594716a57b22de, 0xf3481351752d7895, 0x1dc22b5bfc2732c1],
    [0x9f5abaa26021afd8, 0x5a2be17ae2bba47a, 0xd8495a8838fa82e3, 0xbc687ef3b18a77e],
    [0x8e65295536d55666, 0x9b78a20c02fef9bc, 0xe8f66acc9f647d88, 0x2371c26d8f7425ce],
    [0xc5cef38c2ee8b9b3, 0x23ba2575682cb706, 0x60b0415dba5e832e, 0x1477473a9e49c36a],
    [0xb9d36dfa396bf4f5, 0xfad3af4f4d052c0c, 0xf52e64a3bbe20793, 0x53e482959dcdb79],
    [0x577402279da01620, 0xb3df3032f45040, 0xe442d66ed24a23e3, 0x1f1b58b95eaef51],
    [0xb7b1989ff8e2a05c, 0xd311c06d3b031a47, 0xb5365ec3d4879e78, 0x141411af50e95784],
    [0xc7211df2fd18b12b, 0x635eadd0ab946d83, 0x2710778370917d94, 0x2252323b3ec06cc6],
    [0xe5fa88d11d8db2ff, 0x6c4bd7c08d69632, 0xea2b1053db41f394, 0x1f9f09cfcbdceba],
    [0x90b68560ac4ed710, 0xaddda9634eae099, 0x5d70f87ebbe9b7df, 0x69d5da11e665237],
    [0xaea0f68bb513a0c8, 0x93e3f3af1c89f418, 0x3a66edba35753faa, 0x1978e5d647456a8b],
    [0x23d65fe68209f458, 0x2845d383b952b42e, 0x9a20e6e5eb99c0ed, 0x25d9a4e603b812f3],
    [0x9513940880050221, 0x501928557ec4165d, 0xd5b4b6c905721747, 0x234b43e3517f8573],
    [0xbc7ae903a9b74d74, 0xbf099d16c6e029ee, 0xa51bbb3532f0ee3a, 0x3e66cf2636881c8],
    [0xe0ce344456b7f189, 0xb4fadfe63c0448b, 0x2453c23bac6735b0, 0x1e98f8fa7b0e9876],
    [0xf7eb84c060d0e932, 0x9917aeac083ca1b7, 0x1ca048763f4573cf, 0x8aa709b54a8df09],
    [0xd0ac8b34e6aac4cd, 0x71d1384d5e0a6f44, 0xcd344a294d322f1d, 0x52c7ca7fdca9ac2],
    [0x644390c39ab7361, 0x5fc3f47d16f02e44, 0x691d8d7f52eba08a, 0x331b02bc917bfc6],
    [0x2394ce69d7a7e127, 0x8b7955a4a7960626, 0x3a9f8225ca5d4a11, 0xd898949994a6f26],
    [0x6420139f20a7766e, 0x5f6d92e271a29976, 0x5379d744a7bc19e4, 0x10b47b130c16007b],
    [0x48ca4c08caff36ee, 0x4e62b3fa4bdc439a, 0x44c6d40d1be4ddd4, 0x1132f014fa7599d7],
    [0x68bec6e67c349a0f, 0xd668719523787df9, 0xab2ab5b69f5d6478, 0x1c5e38ab4551aaa2],
    [0x183933737a8b8099, 0x5a12255c37ab51ae, 0x206c43daac752b76, 0x2b6fd7bc3a3b595c],
    [0xeed36a42b51724a, 0x639e2328e018f245, 0xf4eeb3976cb45ab2, 0x11c9a8d1a7cf032e],
    [0xff9792d3380451c, 0x22b4adc40f521142, 0x9a3d358f48ec0492, 0xd68b0ef4859a99d],
    [0xe6de1972a8061070, 0xb20cc776f5cc35eb, 0x39a6a28926d2b7db, 0xf7e3fbe842d2228],
    [0xbae1913528b01102, 0xc0ef8541099378b0, 0x278ca8f09daad2f1, 0x20ee52f4c572121f],
    [0x487089349d2b14fa, 0x88dfa4e0f4364a20, 0x8fe652abf877b6e7, 0x24177470839e9054],
    [0x3930f592106154b0, 0x61470a0f60459ed5, 0xe335de75179b2308, 0x1fa98b63c69a198e],
    [0x29ca0fd6ed5cc4dc, 0xf48c3fb2f67e9c8b, 0x257bd8999e955d46, 0x18fed7ca1d352fdd],
    [0xb08bfa994e5c69b4, 0x43bc3d15ef07098c, 0x27a1a5c956e761be, 0x1e4afb9b1400def4],
    [0x192a1d5aaba1ab06, 0x58788b5b166da469, 0xedfa64521f6fb53a, 0x2b8b851fafcc041c],
    [0xfb24437ca34325de, 0xe2226260a1019d1d, 0xe9f81ac1351faa0d, 0x91cf8ac82b6d84b],
    [0x8c41d94a808a9a5c, 0xc657cc5ec81e0838, 0xd4e4526de3cc13b4, 0x6f7d61897e3a765],
    [0xa13ce3e3501ed8af, 0xc4de7552008c928f, 0x432ee3563951c646, 0x2862142916a2c23],
    [0xb29af443bb93f5a1, 0xe7294c23d0108a57, 0xd27ffcf1c4749764, 0x2cc6cc5a7e65d688],
    [0x3e58d69a4c9565bf, 0xc8392f612f3573d6, 0x776176010d8070ce, 0x140d2a34847cb9f0],
    [0x56d0f4d6eafed03a, 0x43a1c80b0f71063d, 0x386e87a855acdcc7, 0x19800afc9d05a5b0],
    [0x9f02b9dfd8954d35, 0x6a1e41e69de5f6da, 0x9d6d0cfeb1b706d6, 0x2691df476c22b56f],
    [0x154de2ada843cf99, 0xe0bc9018c6c2b7dc, 0x55e8be6a59667f72, 0xe3d1a370a2c113f],
    [0x2b2425ecc9ad1468, 0x1843361d8d36878b, 0x10963285e90c233f, 0x422041cdbb99e91],
    [0x3d8350431027541d, 0x234ae54249bd47d5, 0xe36243d9f787e9cd, 0x18b3970150586c60],
    [0x90f1916d5d6e4b47, 0x12717b22032cff3a, 0xcc1e7eb75ced9652, 0x2608a620c9370842],
    [0xa47fae1209212fa7, 0x8ff2114ef025e123, 0x37a4bc97b16ed6ea, 0x102e638d33d73cd1],
    [0xb68ff1d8198115ea, 0xf156ff1efbe2d058, 0xb6283e3ba2f7a163, 0x81127c379d08c86],
    [0x1b93247dc3b9dfe0, 0x1ea2747126942a89, 0xc4e374163f1d93b5, 0x1003330e6c9bb087],
    [0xd92c90d05611792f, 0x8e114dab2b23abd4, 0x80afeb845b9b574c, 0x26286df4b90a6d6a],
    [0x19a9c6c55a6db034, 0x47334c0e21ceaf47, 0xc77f5da41f046067, 0x2fcbce3693a0f365],
    [0x233f14b3ae43c458, 0x1e0375a2251402b6, 0x657cca9a553b12ee, 0xee49f7bf8d9a6b4],
    [0x3e6fd0fa56889e06, 0xe79cae3441f272af, 0x1a8339c07711d9c5, 0x1a9ca035a5bba9e0],
    [0x84ac4f06b7df6567, 0x2f94885d536976db, 0x48e3cc47113806ec, 0x1202f2ca7d4f98e4],
    [0xa4f681efce3130fd, 0x98ed83fb7aebbc75, 0x914cbbf83049d955, 0x89a14bbb8f0965a],
    [0x57f87e8a2e3f264e, 0xf959a37da7bbafab, 0x4982305fef6e6c81, 0x13488f3b0456524d],
    [0x183933737a8b8099, 0x5a12255c37ab51ae, 0x206c43daac752b76, 0x2b6fd7bc3a3b595c],
    [0xf4a078e8440361e2, 0x85ecff97ce2ad697, 0xa52fff20993ddc32, 0x155c91db5f59fd8e],
    [0x5c5081aed70a073d, 0x1d3dce01496072af, 0x7256ec21c6aa92ab, 0x5c61ec06f5561c8],
    [0x6e0895d0109138da, 0xb5b1a98e63a1821f, 0x1c4dc1d117cb0d5e, 0x9849dc13d2eca87],
    [0x84411ff40a6505ce, 0xf77f8dfc0fecfff0, 0x3f030cf1a3ef515e, 0x133c60ae1597bcae],
    [0x30e3814a1eac7cbd, 0xb3d4836d55f8b65b, 0x6be4ea933f3451c, 0x120e93850c13de3d],
    [0xfc1482411439cf27, 0x2a899b3bcca7ffe0, 0xeeb8d36880e6f43a, 0xd29374214e1a4ab],
    [0x4134f4c9bd3f7a91, 0x28251036a1245ace, 0xebf1b4f5e3333734, 0x1650118703315ae3],
    [0x9fbb3c2e9f0d2f5b, 0xb9c98208e838ad1c, 0xc66770237fe3e86d, 0x1853287541cd687b],
    [0x9573e8ee3e9da5ad, 0x9d1e083d46025456, 0xa81ca6dc433abb5b, 0x845a0b9344d795b],
    [0xd7604c970f68e002, 0x7fcb8b01d3b24ac9, 0x818dda893d74a9ee, 0x1903d07b2722c0dc],
    [0x26de4baa2c22d6d5, 0xee429c8f6906c243, 0xc4b9406f891c3d51, 0x2b153908b83d6a3f],
    [0x10e0a75475fd0d47, 0xba582fdbda90f738, 0xf4590ce97d9927f4, 0x1074ad520b1b0be2],
    [0x5d323f99d6602f2e, 0xe8f0a1906cdfc1c9, 0x4cbb549ace2478d1, 0x1d7a66fca345168c],
    [0x8b4e15380f8cac0f, 0xda356fc1da46551b, 0xd8390e56d670b9ec, 0x7d8e73fcd6a35b2],
    [0x71d0302d402a22ab, 0xe014995a9c213ff3, 0xbb1583121152844b, 0x24398fe811ccf72],
    [0x34841f4fb530be1c, 0x4a6308ea62645256, 0x715699736dd043dd, 0x303c8e1b06ec487e],
    [0xe04b01ec550784e1, 0x72584dbc33f909e7, 0x9485ea9ba77cf8fa, 0x15186cb1c51f7abd],
    [0x4cebd483ea950dee, 0xbfd8bf90b0aa0f80, 0xe362f7719ecbedec, 0x1800e20927198f24],
    [0xf689d7f9f2608258, 0xd0dc1553f4b75858, 0xb9e89789201ba089, 0x17b074100a4dda67],
    [0x3b958256e786f4dc, 0xfe20d7b02422a1e6, 0xd11d32e678bacfd6, 0x12a869d6d8348519],
    [0x8a2a562cbb098832, 0x60f22e401082eeec, 0xb5aab5e95bccb916, 0xd400992babe16a1],
    [0xf6f4a9751bed2879, 0xf8e063be13b28875, 0xad6d0d4043563326, 0x67fa6a735e49401],
    [0xe8aaa3a839cdb114, 0x34da2a8bd1224c5a, 0x493b9707ed84a610, 0x8aa46ab3986198d],
    [0xdf08716f415e6be6, 0x4b6819dc305e3ea6, 0x26c40bc3d65c8406, 0x7d061661185186a],
    [0xb96fe6734dbe3058, 0xac244c8c497448f4, 0x26f6062957d7d325, 0x164b5a80cc2a3903],
    [0xeb1b0b68ee179981, 0xdafa349aac4881cf, 0x61e859189065f6bc, 0xd267132ff50a0e],
    [0x972d4cb32634b5f8, 0x8936bd163a46f67f, 0x56aaa548a5a9b730, 0x29b34d0febeb62b8],
    [0x61524e76f9c7812, 0x3180b6f8be40346f, 0x9a7a113457037d7d, 0x1b1dfe465e457886],
    [0x6b780c9e46895f0d, 0xac8e1ac0a5d4d264, 0xcf3648d981b51681, 0x219d6d65c86a3850],
    [0x69f35966aaad986c, 0xa6f80c4d27dbba02, 0x597918a6d6e056c2, 0x1709bed140c96224],
    [0x183933737a8b8099, 0x5a12255c37ab51ae, 0x206c43daac752b76, 0x2b6fd7bc3a3b595c],
    [0xdecbb9e323e9dc4b, 0xad542ecb25ffbb8a, 0xe86acb997ef8ea68, 0x1db013be405e1edc],
    [0xf292d08230520f43, 0x608c1b541ada0026, 0xfff733c2d9b23531, 0x4672cb42f866056],
    [0xe32a92c71ba78715, 0x43c50614ea1ef82e, 0xdb2bbc1a422b8dbe, 0x213116708c620427],
    [0x9a3a663925fbb556, 0x5b784150716ec8b5, 0x92060da2bd463229, 0x1810bf41c304da8f],
    [0x39f599547efff8e1, 0x7f27e36027f3ba44, 0xe378a7743a96cdc7, 0xe60fe1f6ac34cce],
    [0x8b993d5d1485370b, 0xd806ba8b4401785d, 0x3753c10d21683c39, 0x150fe3d5f1984567],
    [0xa609716b120378cc, 0xa4a6da037e2ee628, 0x496345bfc0bdbaf0, 0x106f91d87819b33c],
];

/// Part 1 of the sparse partial-round rows for width 16, as little-endian limbs.
pub const S_DATA_1: [[u64; 4]; 256] = [
    [0xc8aaef5a6cc2a2da, 0x887d68fdfc623085, 0xb1bea5dd839fc0db, 0x27f058d01a289b1a],
    [0x80c31e3f0be69d57, 0x7a96436616a4fd15, 0x1b96f1536c465ce2, 0xe0dc820be1b5a10],
    [0xc28c36eb4be580b6, 0x12eaa73c15f11973, 0xe9335017391d2405, 0x1150f83988fd71cc],
    [0x8be31efa13632624, 0xd61c2a7d3f3559e7, 0xb47a07bcafecb571, 0x605b14fe858aca1],
    [0x7104f2fcac832318, 0x5a77926f972361cf, 0xf07863f545e5f536, 0x18579a82949ea313],
    [0x685ea04e70393062, 0x361e6f0777c227cb, 0x217eb2d090922460, 0x21b2b1c8062f7650],
    [0xb28be179f2808b8f, 0x9b3fc752d8d529d8, 0x7e4ce6bbdc1750b2, 0xf83178738a3442e],
    [0x8bf743273eac236, 0x627973a90f50443e, 0x232f5592feaa42db, 0x259a80dc2ea8a894],
    [0x4819d6298e47cc95, 0x8f69fb446dd7410e, 0x69e43205b96a072e, 0xaabc1bbb9251a30],
    [0x627779722f45ecae, 0x6b257fc358b36508, 0x61627ab6e0be73c1, 0x18f44db51f091bf2],
    [0xac22aeee17c3d79f, 0x29e2386e5ce4b5ae, 0xce906c8339748dd, 0x2cc4a9fe2f5afe3a],
    [0x288cfa538db4d904, 0xde550313124d99c6, 0xa3661a83147bcb7e, 0x2c254dd92d7f002d],
    [0x2c87a074a7fefe31, 0x2d9c4b20b7d51fa1, 0x1361b129e8901ca3, 0x2541852cd7c4fbea],
    [0xcf3f430a05263413, 0x7ad60ddd9a50b945, 0xa121ffca321896ec, 0x8c2f801a82520a9],
    [0x93fa1c326916e93e, 0xc51a33f8cde248d3, 0x4d93c2c517b91857, 0x25dfc7f152ac7408],
    [0x594955add5c50d46, 0xc8a6a38ad087702e, 0xf254da4bbc97152a, 0x29760a2e5d63406f],
    [0x3e56f81e64a9527d, 0x81d8b491b9a76f22, 0x909147f919817dfc, 0x269b6bb00705c31e],
    [0x60473418f75f0b3, 0x5843c26ebedb1e9, 0xedd8bfcdf61a0096, 0x1a02cef4a79e0643],
    [0x52c9e0be24918f0f, 0x8762b0b3d3ba914a, 0x69e4582b3a80fd95, 0x12c0261d1e3b247b],
    [0xaf5e1c6712674375, 0xfc712680a72fd8cf, 0xac83bccb1918a5d5, 0x263f9acdeb8b3ce3],
    [0xa7ed8a26f927f177, 0xa913970920c64804, 0x916ecdff56dee469, 0x207434df901289e8],
    [0xfa5135d38a9c3ad9, 0xff4b1dee7f377c8d, 0x391f32fcbaa1efc6, 0x3a1c03c9f1fa1b8],
    [0x54055d8ff1d352da, 0x76998ad9f62ac344, 0x99a866d902312d38, 0x1249e6129ef7507c],
    [0x183933737a8b8099, 0x5a12255c37ab51ae, 0x206c43daac752b76, 0x2b6fd7bc3a3b595c],
    [0xfb74220671804ad4, 0xc6c23484310d36a9, 0x5e77a20b94dfbe5f, 0x68d6807831b6e78],
    [0xcf4f53dd4b44ecad, 0xdecedd4818c5a6c9, 0xee5ef7bb4ccd81fa, 0x85b97abe28e068],
    [0xa86a83ca504bc4ee, 0x60c57a75ac356b95, 0xcc406a11ad2985c8, 0x2d2caa3b84f92053],
    [0x6993c8f6132031e8, 0x4d68d01ae4447b5c, 0xd10b95a64358c5bc, 0x230561c2208c63a3],
    [0xca551e770c5035a7, 0x6daaadc71d57d830, 0xf14ddd32c28c7143, 0x151f5672052113e6],
    [0x793ffcc3ee20cc1d, 0xef7b84fea901bebe, 0x45ffba8efb3de22a, 0x2733c9d71eb1f1ce],
    [0x8541df9044d26051, 0xad00e6c48ff395d9, 0x87e8156be1567492, 0x122c0d0a07c233c6],
    [0x12707b24b7ffcd53, 0xcbcd9256d5c314a5, 0x779e688bb8adf49d, 0x2844674637b223f5],
    [0x117e9c477d0d3de6, 0xd8bdb5fca7770277, 0x715d460f9c6f183a, 0x13a9188517254bca],
    [0x8b4d423586ebcd69, 0x3601daf332dc8e24, 0xe2f915e62129fcba, 0x1ddd8eec094dfacf],
    [0x20841a471208d051, 0x74562eae48a2c208, 0xc136e68f78f913f, 0x15f2e0c38ac84bf5],
    [0x4575e65ced0dc73e, 0xf85f182373d81a85, 0xca734d106ac1a48c, 0x1dd71e73cc0baf4a],
    [0xa5e063ebfe307dac, 0xcfc00f11da2b929f, 0x808498cee222076, 0xd3682c39a2dc0c],
    [0xfe1c2af12e8732f2, 0x628b3dd3fa652f3e, 0xeecfc4cffd2905b0, 0x259708945a214cbc],
    [0x259063796e831195, 0xfa050aed0d708343, 0x593730c150ff1fd, 0x71baec7a429bd06],
    [0xb9319bda64cfc6b6, 0xa109aae2e97cce07, 0xbc66213ee03b9455, 0x26865eff75e2f6fd],
    [0x9e15c0f1a0e2d7bf, 0xe8b588a8ee4a82a8, 0xf35fda4911370070, 0x2864c12ac61c22d4],
    [0xa855545b3659127a, 0xc40a0498db997b8a, 0xf526d246d221519e, 0x2758b8b601674ca5],
    [0x48d265e8cfebef9, 0xdb8f352008f7d18a, 0x93dca6ca6f5c6323, 0x9002afa88991124],
    [0xddb057519e20f7bd, 0xb4a956e8974af260, 0x812683a6fa4589e1, 0x173c758aea38f6a7],
    [0x653d4a5a8ba17322, 0xbd184973ebf9d9f, 0xb45e575d0b64860, 0xefe6d624981ff5e],
    [0xe39321c87f09e1a0, 0x81678ea4a4e8b03f, 0x49c49605c64a9bad, 0xd14a691145b25ca],
    [0xcefd464839482abf, 0x930af22b2d44fe96, 0xa8dbb396dedaa253, 0x247342aea19afa49],
    [0x275feba43df71f8c, 0xcdc5ad5a65b28335, 0xfe883e58dacff6e6, 0x161febe2355426c2],
    [0x51e211aab41155b5, 0x57e6ebf33793c85, 0x88dc40cdc73f00e3, 0x2dff5bf2cea76d08],
    [0xd8dc6860d494e81a, 0x62ca77e999d65c69, 0x767dd23c82ef5d88, 0x1e6b6e09f8195c35],
    [0xe692966e31040c61, 0xcb3759123ce90ae3, 0xe8469732b0148594, 0x3a8fc10bf4a3949],
    [0x60797b39776df2bb, 0x9ed7179b41191c99, 0xe833301ff4e99b1f, 0xb185f3d4ca214b2],
    [0xf7921ed08567360c, 0xc70fce9610151a0e, 0x1329bf3873ff9277, 0x1ac6b03901fdc40b],
    [0xdea6df48bf637ea7, 0xfb1312d0558513c3, 0x9902a94d06a98dee, 0x2beb77187ad77698],
    [0x183933737a8b8099, 0x5a12255c37ab51ae, 0x206c43daac752b76, 0x2b6fd7bc3a3b595c],
    [0xe6fa2c34a2f7fd6, 0xebb94ca26cde5d98, 0x59275485cf5fc93c, 0x149e18f1233f5068],
    [0x1f6f73c841976105, 0x5aa759c422ebcac7, 0x4f63d2e4d10b4c73, 0x8a54ca25cc50b03],
    [0xcaf671a8332d34c7, 0xedfaaaef0d37c0a0, 0x8d640d0a0aaf146e, 0x1c1210f2ce34c295],
    [0xd6f26526aafc992a, 0x86ecd47895701cd2, 0xcb3d7b15d5cd41ab, 0x17bfdbafe9e56498],
    [0xdb6e9e4196bd6d10, 0x989ad1056f9692e3, 0xa8992d408c219f85, 0xcd27920c0441d98],
    [0xa85e82c6e5d16375, 0xe43ec79dc435f8c7, 0x1565bd67877e3a4c, 0x2dd7fb93c20805f9],
    [0x1a96d951dba7ff3c, 0xeedb93ad22d87069, 0x2f728d3c0cf830aa, 0x5b1e6892ff61574],
    [0xae09961b87b6d31e, 0xaa35e574b1f55321, 0xb1cdc9f30e113c29, 0x831d0a313ccfd57],
    [0x5e0ef19f6ae09a80, 0xa1f5ed77f1aca63f, 0xb86618043d2a618e, 0x600e0c844243ead],
    [0x41ad1b0c4f868018, 0xb90c2bde9884a94c, 0x481128d04a0cbc80, 0x5f0c79e16349cab],
    [0xe33a4e1ced8e925f, 0x74874384af31c04d, 0xaaab30b3b20cef0e, 0x2aa7de5705ea010d],
    [0x82b17c76deb2f566, 0x8e65de229e357d47, 0xe3eb6c9be7e72b1, 0x585493b750ddfe7],
    [0x1a78baaa68ff5ef6, 0xfbc6b1fc285b1c76, 0x12352609d7806af1, 0x2848f8e38361bd55],
    [0xc012f38842d7a117, 0x150af414523e25d1, 0xf115528eb5e88284, 0x2848a529d4f7cd4b],
    [0x6bae4b0650d8c708, 0x466b5347667153e5, 0x212d56baed9bf952, 0x30aed4fbdf98cf0],
    [0x8ac63cb317a280de, 0xff8b3a399569aa69, 0xb8c21bd9841af642, 0x2350edbb556ef46c],
    [0x929e47338e4cb926, 0xe0677877926e63c9, 0x8bfa65f573639845, 0x2ae5b47ed7dbdef5],
    [0x5a6c517e5259ce48, 0xd9da6058601b852, 0xab4f1ad7dd65cef0, 0x26e087a50e753431],
    [0x69603f51cea2ac01, 0x7b3e1dfb3aeb48c4, 0x97f646782f03c24d, 0x159d260467ef69e8],
    [0x591fd8cc3c8798dd, 0xcacb5181e9e470d0, 0xdbadc0f3c244b4bd, 0x1e6059ee0ece798e],
    [0xbe2c1265c2c90eab, 0xa57e61fb65b7cb76, 0x12717c533169baf1, 0x21d0c6c19bc6bdfe],
    [0x50f8db8f034f96e0, 0x4b3b902f38cb8381, 0xe9bbb3e0af410e1e, 0x96ff7a0c18ef35b],
    [0x90f3335f1e11fb80, 0x3c888d8ea89eb4ab, 0xd333112d5d5092cd, 0x27d16991da4e246f],
    [0xf5b672544145480d, 0xec1b0da7d468cdf0, 0xb60d417e4894bdc5, 0x8a1e7d8bc46b6d0],
    [0x72537bdf998d4ac0, 0x5da1bc9ed065a380, 0x8beffb2c1360ad7a, 0x1bbb994d74d79b69],
    [0x548095747567da26, 0xa82300fe3d9aeb52, 0x7194332442bbe246, 0x6eaa75b2b8fb375],
    [0x27f5c07e37f0d514, 0x5ee63e2b84a38caa, 0x8a2316e56cb7542e, 0x35066f49fddbb42],
    [0x35f3908b60411c8f, 0x1ff4d1a2a02659b6, 0xc0d1d9df72b6a33e, 0x1a8df2d50679834],
    [0x5a89aac7628ec4d7, 0xbdd504ffdb869575, 0xce018e287b94696a, 0x1a69f234855f2099],
    [0x435b4dacfe4fa1a1, 0x3f4a41968af38ba8, 0xc8f0ed2e1936887b, 0x282c66cf66f278b3],
    [0x183933737a8b8099, 0x5a12255c37ab51ae, 0x206c43daac752b76, 0x2b6fd7bc3a3b595c],
    [0xb5ec21f1e264e3da, 0x7aba4c4c42e34b0a, 0x1ffefc9b4e5d618c, 0x85cd4807b25336e],
    [0x53f44c98a86531c5, 0x18059bc954a21b17, 0x79d0abc3a5879c9c, 0x1df72bf6d33b4179],
    [0x6499601c536e027f, 0xb937c1b72f78ec3, 0xd0da95407ff87f1, 0xed29b17ee6bc79f],
    [0x254d840c2e22d0e8, 0xe62fa2fe3c7c2d61, 0xcfe21f91b55fdfe5, 0x2d8f67cb6abae1b1],
    [0x2942eca9902f72df, 0x6c22b8f4e6a4459a, 0xbfaa0be3c062b287, 0xc4a844d33d7410e],
    [0x7a241f2251c88188, 0x5a6020525e003b20, 0x7018051e70eedfbb, 0x1597f8a417fa1c84],
    [0x4b27484e7b5fd137, 0xcc391774793f0901, 0xcf0b273522b35e2a, 0x2dc8e5d6f14e2d43],
    [0x1653a1e31ef4cec9, 0x3098e04ab4e5c699, 0x85f2354fd271608d, 0x2d24d47941469081],
    [0x694f6c562d966312, 0xc5085fd7222dee07, 0x9a893250795a6c6a, 0x3343e0c40457a05],
    [0xa2ea59921e9ba3c1, 0xed2b17ce12775d10, 0x37428a9b6913cb57, 0xaf7db3d2850fc10],
    [0x2e4c0d2ea5f3a559, 0x1214efab22a78ac5, 0x14f0596d1e9c7c98, 0x2af76fe3326af618],
    [0x3da51f4c675498b, 0x8a3eac34e1c06aab, 0xfc8c7caebe4d49c2, 0x28c5facdf2832d22],
    [0xb91422e1d089e617, 0xab05b82afdb48c08, 0x3b7d646888b1620d, 0x67b910e6a355565],
    [0xa62e1870e17943d9, 0x6b66dd19e4ae5f42, 0xb70cbf396e3acf92, 0x1a8198a68db555b],
    [0xcae31c0c1736de96, 0xb645cd1abca45814, 0x394cdb10000362e8, 0xff3bc5a50528f42],
    [0x743efab4826951eb, 0x9a5a9d51f3d68e74, 0xdcf5084dfe2cc5ae, 0x17832e2f6a6abcf1],
    [0xc1e2027c536d1d7d, 0xcc18742f7a217c4, 0x71e1c28f0993d070, 0x707d9a111e2bf49],
    [0x163f7873dbd61031, 0xf09831f32af732d2, 0xbc0b2c36c3e3662, 0xd4674bba848291e],
    [0xab030cee5e996788, 0xdd156f063b744279, 0x5c898ae8f150761b, 0xb81f95f06e84678],
    [0x7f97e073e7c059e8, 0xc0abae7410697e86, 0x9cec46bc059a6e06, 0x1a4724e7a15045d],
    [0x5b39b65ded042a6f, 0xedc07a78a37c1de1, 0x25b6546f49e1a497, 0x195b3b718107bb2d],
    [0x33ecbb81cf46f7f7, 0xa7c8c4e3342dba0f, 0x589a57a738d554ca, 0x117c5877ba019563],
    [0x3c49484b2872ab71, 0xb3b3a2fe0b98a469, 0x979f4a8f3b852ba, 0x29f739db99ca7b67],
    [0xefbfe9623bd38162, 0xa9086e4192d1b203, 0x3d35d9dddd7d5393, 0x8127119728f625a],
    [0xb2433c789b211a30, 0x396b76933c25dbf0, 0xfd12ddebae93c174, 0x143607b15463dc48],
    [0x7df0a215cfe3e886, 0xf0da33e9bc492d18, 0x7c7908c9217f0377, 0x271c4725f01cd976],
    [0x2ffe3ecff5c142f0, 0xe41f0a30adc546b6, 0x161862102fcbe460, 0x1053f9e74f700dd3],
    [0xe1ff23d667a9122c, 0x4f6d12f0dbd38e6c, 0x22cd31bb3789c6b7, 0x19f6aa64f3f22987],
    [0x6c513e0b30fa7e26, 0x26b82ac0c4b9db03, 0x18eb1c32e800912b, 0x1475d80686b48bab],
    [0x3f097aee1c41ac2d, 0x159549f309ebfe2f, 0xfc939ae61c5e7d0a, 0x29f8598b62b2e76d],
    [0x183933737a8b8099, 0x5a12255c37ab51ae, 0x206c43daac752b76, 0x2b6fd7bc3a3b595c],
    [0xa15185c32e7f2ea7, 0x619b5381eb0b72be, 0xf884d5e98414cb0, 0x3010b8ed80e49e58],
    [0x1ef72c14266a26d2, 0xc0c11b4e632094c9, 0x74aaba9b03b0a11d, 0x18e9d0cd62c490a5],
    [0x70341abe80d96a85, 0xe978099f54ec96a9, 0xb51280193a02d320, 0x2495c41de1debd0c],
    [0xff9c6b170d68ec78, 0x400fd53d9be12d55, 0x77e552eebec76ee7, 0x92517d7731c97a8],
    [0x5ee454466274d62c, 0x6ee888d3e309bc8e, 0xba434207e9964937, 0x643ce7cae313fcc],
    [0x9b95095619489583, 0xdc78255af9c77da9, 0x54fa908b0b25424b, 0x2fa4485f1f97ad4c],
    [0x3c7abfdf5aa908c0, 0x808b9090d049e1ab, 0x1a4c33e8b99e2c01, 0x1b327749a75f8db7],
    [0x9fe137474b624234, 0xb1381fb5c68556df, 0x623251a50a4318e3, 0xa062169c4723669],
    [0x90fdc1bbfdc2c74d, 0xf8cfeedb7cc3292, 0x5daec8f03d97b56d, 0x16c33ff536f27114],
    [0xf3d43c4630f7b07b, 0x7be7901d7121ab53, 0x7dd8afac4e4cb311, 0x1280d067c4c7eced],
    [0x320bf81fca29eb19, 0x2cd447ebf3d8a204, 0x8d7aca9b5fe7380b, 0x479c7cdfb220e4d],
    [0xccb73fb15ef06073, 0xe300422df8b41919, 0x31241686c4aae16e, 0x14e024fd7bab2d50],
    [0xf3b7f3f112e39bc0, 0xad73d95e78afb3ea, 0x8c97762d6b9a006c, 0x1a80d20677cd1bda],
    [0xd89b29ba30549f84, 0x492e33eb1af18459, 0xef9ea7f9e324c937, 0x1434e496824b8ea1],
    [0x6f429c8688134893, 0x933621ab227abe32, 0xf49932117b4dde4c, 0x30485e0cc5588a2],
    [0x5696e0eddfb91f86, 0x561d7ccc81e88155, 0x27ff56df9de3cfd, 0x100acb69114b53c1],
    [0x1784889ec6d41546, 0x895d2111c3a9d5c5, 0x5b3ee0bc7eaab414, 0x17a974539888ada],
    [0xeb7cbda3be4b9e85, 0x7c73b7b60f5a1f5a, 0x944cf9079a28d68c, 0x194dde27e3f6373c],
    [0xb0f7906f2b0418a0, 0x52f9f20d7aa31c40, 0xfbd6f3bc4ab5f3ad, 0x2b563b2786180439],
    [0xcfc39e6329891c61, 0x5855ed33636aa7a5, 0x6e9183f21305dfbc, 0x1abd1c97e97d7b5e],
    [0xbf10d6a5da4dbcf7, 0x134cc8429a51bbd, 0xd96c54432751d6d2, 0x2aebca431ac4c7b1],
    [0xabcdefde664b5bb0, 0x8431f78694d76311, 0xaa220af2453bb, 0x1e93b372a671214f],
    [0x6d9c05ebf879e274, 0xbc91eb3e144b403b, 0x547679d0f4a548d1, 0x195338e68902e870],
    [0x6a1ada0373bdb1ab, 0xe1ff60838f4b59f8, 0x697e3bda7793d42, 0x2bb7a0b8bcf9f754],
    [0x71f9292f6969567f, 0xaac37eb293dddbf8, 0x40bf9e06b468ec44, 0x11be3da5945ef7d1],
    [0x4fee400861cd20c6, 0xe56fc640bacb9779, 0x64ba40c7fe992913, 0x481ae2c70bb5227],
    [0xde02696ca462116b, 0x9a9032c3ee6b6aac, 0x5e19a54a996c64b5, 0x919cadc23acaa8b],
    [0x3362919e13dbe851, 0x804c66ed640998d9, 0xb04ace3660570271, 0x262de0b03fe8c9a6],
    [0x25e08bcf17249df9, 0x8a5ef924359ad5e2, 0x9b333ff56cec291, 0x2b3c90ac3a4edfbe],
    [0xc5969b576522014c, 0x736aa78280f8a81f, 0xbb2827d1bac2c0c9, 0x1bbbe9819a05a6fd],
    [0x183933737a8b8099, 0x5a12255c37ab51ae, 0x206c43daac752b76, 0x2b6fd7bc3a3b595c],
    [0xe73a30a10f2d72f3, 0xaec95cec40a60abf, 0x8704b47fa49a84cd, 0x142ac1e836fc3027],
    [0x5c7556a0ce1a9444, 0x4149fb11befc34b0, 0x8957278905f772fe, 0x102f24ed9b7cc4a9],
    [0x77d8f8e8c1803df2, 0xe0b9741d4d2b9d60, 0xe174577c81d669d1, 0x59a56c684c34007],
    [0xb0e711ba76a918, 0x3c6851499ee2a848, 0x3a79a9f5fbb2ee49, 0x1f22f8c87034418d],
    [0x9e7adb4409a3aee3, 0xf49d58ea4e78a44a, 0x731090abb6877365, 0x2614d18359d21d25],
    [0xe7eb9af4f0c337c3, 0xbb3b1358b396b2bc, 0x37e9a4c9679085a7, 0xc414a0ecac4fa06],
    [0xab68e2abd0d63d96, 0x2bbcc81a2c2a8a81, 0xfc25c856cddcff70, 0x11930fb18ae2944c],
    [0x46060804d204d6d4, 0xe01f50f6f1b3a1c0, 0x6aab14cf7f3089be, 0x2ae750321489ad],
    [0x1687991465849525, 0x61bd61eff35634f1, 0x3fab57fb2988ae3a, 0x1532fb2f4f6a0dc2],
    [0x636f2868dddf398b, 0xc1dd55a087ca82cf, 0xaccfab07af6c2aaa, 0x29b85c7d9d52c98e],
    [0xb75b92a1fca288bd, 0x8600b2c98b5d16e4, 0x3cf0a36450c84810, 0xd50d222652f613b],
    [0x65b3cf059348be75, 0x81bf04cad858b88f, 0xc44d90e72ca96e7e, 0x16bd29ece6542611],
    [0xe79a0be3daba9dc2, 0x3c59aad32e19a6c8, 0x9304531e672fa053, 0x114e95888f1e263e],
    [0xd3fc21a39ba4a9c0, 0x45c45c3262481dc6, 0xd939fee72f322f5c, 0x7ed4c3caca93550],
    [0x57d43ce4070f6803, 0x975640bc902e05c3, 0xd4c1a0dd53adee6e, 0x2cf1d8e95a3b2cf8],
    [0xeaae54df206bb984, 0x89491c2d362fcf76, 0xea0f98add20cd738, 0x3730a82d1114f03],
    [0x4c2da72e9ebb74e9, 0x5e4f5b670fc8fe33, 0xef85f3d4409b5f67, 0x2201627d02735d6d],
    [0xa0a88d412658025c, 0x35a419532031efbe, 0x5222e7d15bb7c259, 0x1de69df65e50bff0],
    [0x7a8c0c436b374da9, 0xc0f7c0f154580837, 0x66924aeee5f4e3c6, 0x199e9757b4a447a4],
    [0xc9f48ea3c312d08d, 0xc37c63294b25baa9, 0xa2646c194f36bec3, 0x1cc1175e9e818a6e],
    [0xe011532a5f099fbc, 0x88ba38c6b9eb2c55, 0x16c885522c794ca3, 0x29d4552088b3053c],
    [0xaedbff099d458f78, 0x43e7df6d7834c775, 0x98997d064606aff7, 0x23d3b2dc1c7ff3d2],
    [0x504ee738f6445cc0, 0x60cfe32993ea7183, 0xb43e0ef0fef084fa, 0x2388ad46e7bff8d8],
    [0x49b5416f13fc3898, 0x4d9147c0b2f9247b, 0x7c1aa88ebb4a8068, 0x304e1e25593dbba0],
    [0xc8f8bc1a778414d9, 0xb2bd109f6343294f, 0x5586188a12a7a1c0, 0xd63f23dde7572c1],
    [0xd6212cfa9a0a2dbe, 0x19c97218ab842723, 0x4398ae7569c1b855, 0x19cf6ed79057a5fc],
    [0xa1e663600fc90c3f, 0x2ee3b7a8becaed9c, 0xebcded378d2aa4a0, 0x986267435a69bf6],
    [0xb0211e5d87929c84, 0x786e5927433aa8c0, 0xfb63424d84ea5000, 0x2c1575ee85e8cd3c],
    [0x331569d4c6672c3b, 0xac8cb0b9466090fb, 0x76b764f88be5b3b1, 0x300003af788c5a75],
    [0xc40b00ea28aab387, 0x1ced4e3d20d42bbd, 0xb6410c57a5796fcd, 0x9edd428de05fa06],
    [0x183933737a8b8099, 0x5a12255c37ab51ae, 0x206c43daac752b76, 0x2b6fd7bc3a3b595c],
    [0xe3fa3af8ff77acc5, 0x1e0c8d4c2bced5ef, 0xd0456e85fb56f3f8, 0x1fcc025724948f53],
    [0x38af6455b5bfd932, 0x73d41ef32b764096, 0x8ea93327d59b8858, 0xc37f3e2d38cd313],
    [0xb3ccb525d8cb6485, 0xf268b082d912fed0, 0xab731d6b1a60d946, 0x1cff93735f5e8bbd],
    [0x7eb457f4337a5b01, 0xc477c716cc429f1a, 0x65ea72407243707e, 0x115632e11c1704f9],
    [0x8e4c269750912717, 0xb855fb594585e445, 0xd1d6f5b74ec4e472, 0x10d1bc0b019f8bc6],
    [0xcdd7e118a44d38c7, 0xea034a00263dd091, 0x814426f2b9dd6ae7, 0x1bfa4745da3b7737],
    [0x7dd44bf9ac54d492, 0x45772498174886db, 0x9ea6535ba8584091, 0x42f42c6cf5ed0f2],
    [0xb7b9fb54e605aa7, 0x508e16e748fccd3c, 0xe93777c0bac6c7cf, 0x27da68d3c98d92e4],
    [0xb248fc1dc37fa340, 0x3b7c49b088bdae82, 0x1d093d35c8071930, 0x1c0dd243e40090b3],
    [0x3bf45f406edb6ff5, 0xe67b5a97585fc993, 0x347ff2db9de7d3bc, 0x1c3e2814b6eb0de8],
    [0xfec1f6bd536d7c29, 0x4226428712237312, 0x3eea5a82659858a6, 0x4487bf6eb305b1],
    [0x2e15aa82dcb762ca, 0xf4786064834c25d, 0xc95bdb711a21fa49, 0x1d4dcc7fc6d31a37],
    [0x8d00bfad872c0c14, 0x1a3dbc4fa59e555b, 0x380ebfd7fe5bcc22, 0x1ad252b23919c93],
    [0x3d216f9ff259656a, 0xdc59d0c70ae58001, 0xecf434115d5730c6, 0x1b9bb478853c46ab],
    [0x17c690b32643a696, 0xcb59258d9854bbd8, 0x877d1c63803500dd, 0xaa2849da666039],
    [0x85838f01df61cb28, 0x9d7bb5f7e5e19ddc, 0x3a9a9303f10ffce4, 0x1a80c40302e2c50b],
    [0xe680fae88ae11af1, 0x8e3ce309a70a86f7, 0x7dcc29d7a7896ac6, 0xfa31af23f2b7a12],
    [0x80a84e3e47d15fd3, 0x3ef4b7641b2fa8fc, 0x5df36e3ece1922c, 0x10b6199654c3e28a],
    [0xd06ae58e4a28b6f6, 0xb15ad8f1d0b34296, 0x3de94260eccf0c50, 0x23002a3e74809dbd],
    [0x9afe0c1e05c02c68, 0x9ca18e846ade9d1, 0xb2638c3506a8d256, 0x149568dfaf3fac96],
    [0xc31a98f4c0b9208, 0xa13783c301c6e0a9, 0x1dcbed6816aefdfd, 0x27e032df87f6c164],
    [0x1eed6c944dc87f5e, 0x51a45c6f7935adcd, 0x990d83ca5bc93662, 0x18d75157ff16e95],
    [0xbbf10c6862bc73b7, 0x259870d8246d7f35, 0x3bccfe2531464754, 0x3019b560b7eb6635],
    [0xe821f078834c45b9, 0xf5c7876a97cf9c83, 0xfe2f61ad0d590433, 0xf4649bbb3013488],
    [0x136828d06db12d99, 0xda5c4c153364936b, 0xba7cf03b98c23def, 0x2adab3e8388934d5],
    [0x9ec173da0595ff69, 0x2711aa7308dbdad8, 0x1e064cc54d195060, 0x149faae0107b1cac],
    [0x1ec673b4b86deb0d, 0xf70e1fccd0dd9f1b, 0x8eedb1278d537c16, 0x18601dd152b8ac33],
    [0x74bdd4f6af329aba, 0x6b818da240f46de8, 0xab51de992f428245, 0x1d65cc6e7ccb7077],
    [0xa5969419e8438aa6, 0x7e9ed38f49907e28, 0xe134027c7353503c, 0xfdc0f5a32b65a84],
    [0xe46eba19258c2a6d, 0x733f52b5372a4aed, 0xbd2d4cb085fc25c8, 0x65d3e753bec13cd],
    [0x183933737a8b8099, 0x5a12255c37ab51ae, 0x206c43daac752b76, 0x2b6fd7bc3a3b595c],
    [0x6a420ba6188d4882, 0xca2d4b0f5eedad38, 0xf13f05a1ea22bd41, 0x180a916e94037f9e],
    [0xc682caca22fc13a0, 0x91655d35c290740c, 0xf06ab873ec9d8031, 0xe6fc284e88c1403],
    [0x423f85cfc8827faf, 0x7703615d09d56f86, 0x3af2a69333e51bb2, 0x2753bb09a0c4a77b],
    [0x6aad59e67d96b010, 0x8dc041a0bad07dc4, 0x2e4aa1061f6a24e9, 0x272db4b6d71f80f5],
    [0xdcc23bedf1cb7608, 0xb7b57ffc1f6654c2, 0x7940891562743047, 0x2378ce2c52074b02],
    [0x7ce907a96d25b4e3, 0xf4ba3899b646d742, 0x77600d2c564b6cd8, 0x26e90f7cfd4093a2],
    [0x57b7e0dc71c8d3be, 0x92d5b1e59a13d58b, 0xa3c45fbb57dbf6b3, 0x1cadb3908ee02353],
    [0x845283cb04334e2b, 0x8f72d7beae23e0f5, 0xe85eabb0a780809, 0x4d30d597f9dd672],
    [0x41786253101b1c88, 0x54f447a016d957e2, 0xf33c3ac942a960c1, 0x193da68a7a699b7c],
    [0xcb55f5f9e1f0ec02, 0x204411ea78e3759b, 0xbabb9a4eb821b94e, 0x26484e7897f16c30],
    [0x5703ad68aae6a1ed, 0xd8bfd2f6715876fc, 0xa3dd8af6dc73aaa2, 0x26a496b2c2b5ca5b],
    [0x37d920a06dc8ae7c, 0x61b49f081e20149c, 0xc2595a940914780d, 0x385b7c09dd2a1a0],
    [0xaaf3b471c2ef63b8, 0x52a27da738fa5ec2, 0xad7129f26f6eb4e, 0x215ad8b91b54598e],
    [0x6cf9ade72f289656, 0xcf39632ebdb52049, 0xc40f8b968f9542a8, 0x25c029bc5468787f],
    [0x227cc83273632bb6, 0x9167c0d26cd7bb73, 0xe8832341397ec058, 0x2a8bf45fd684c408],
    [0x91a720767d5ac282, 0x8e201ac922ef24, 0xaa11821e0e183c83, 0x1621a4527a457936],
    [0x20efd22f4e4e1088, 0x961d09b5195f4ffe, 0xb5b512c2d30536fa, 0x2146604597997341],
    [0xa3c15aaec9d7b4b, 0x2c1ab164e0ecf495, 0x54a60d7a42da219c, 0xf469417d25748e6],
    [0x1c16b95178d76f2b, 0xa29c09a47b6130b5, 0xb77dd8f2cee810ac, 0x854569ac15311ad],
    [0xcdbf2b303c6c8762, 0xc29153272874153, 0xa5bf5a2e10ae664e, 0xe1696a6980d7daf],
    [0xf565b18fc8c0f3f2, 0xf4ca06afe5250a29, 0x81b58deb0a95abce, 0x3eec28f72099f40],
    [0x5a7b1ead71d000f1, 0x36e91ab3fa83eb82, 0xa6b0c627912d16b7, 0xf0359dc677a2208],
    [0x66ddad1100a07b7e, 0x6bf9e048e6cb55a7, 0x3e559dc12cc37d70, 0x1eb49e2d0f17845b],
    [0xc210ba15913def29, 0xfef7f5c347aaa897, 0xb95913f0d2c24966, 0x2837d91b1501a5d4],
    [0x8f9bbef4de646c94, 0x8c897c8cd9614d3f, 0xfbbf97a4254acd47, 0x2bf39f6cf1cef6cc],
    [0x205b389d61eff77d, 0xbfe0f7e9591293ab, 0x9b3bc72d448dcfdb, 0x67912e7144d602],
    [0xfb6a020bd6bfe684, 0x1021c70898b9d657, 0x4ff67ab36d19fbb, 0x191b47b69e8adfc9],
    [0x59f8d19af69e46cd, 0xaa8ddc90265b7c5d, 0x2a6275b9977b77cc, 0x2fbeb5d54229ee58],
    [0x588fde7de06ef2f3, 0xb4aba0e123b1db8e, 0xf7cd946c84289c4, 0x223504acf848236a],
    [0x76d7941fbff04622, 0x3e46d4b84c781890, 0x3937e16395c1193c, 0x11d8e8ef78b31374],
    [0x183933737a8b8099, 0x5a12255c37ab51ae, 0x206c43daac752b76, 0x2b6fd7bc3a3b595c],
    [0xfb67d0e0f7031e5f, 0x57e31dc99c01cc45, 0x5785dc294c751d75, 0x20d2e36125e68153],
    [0x9cc61321806d4b6c, 0xb7e4067602f6026c, 0xdd76f7b3f3e0e731, 0x2108085ae6246ae7],
    [0xb9ab472c57d8ad1a, 0x65d16248d948c1fa, 0xd7cbb075905c65e1, 0x19046a9fb27aa59f],
    [0x6c2f497164852c86, 0x33857a1dc564f3f2, 0xe943507a893163b4, 0x93a926faf68ed92],
    [0xc81aee80cf49f279, 0x26a7034fa5d9911d, 0x4854f7ccdeba0992, 0x2971a879c70793d5],
    [0xf497c1af96285d1f, 0x1cd7e5849ae8562f, 0x259a159321e26cbe, 0xf5f5ba9b74aed76],
    [0x8e621bd270a16e0e, 0x53a44996aa732da3, 0x7df64d8d73e4c387, 0x20e7786221700e46],
    [0x93aaca167737e6b5, 0x65fcb0e05605bb21, 0x9bd41118baabcf24, 0x1f4fc008a41a2573],
    [0xaa508c3c0ae24dca, 0x17c70a1324de4935, 0x83a4bce4a0651d85, 0xc4a3ea3f708efc8],
    [0x248694ef6246ac07, 0x802f3fc1fb9efb21, 0x7b616891090714c6, 0x2e7610fe10352af4],
    [0xb7afe546effe4184, 0x956259227ef21a24, 0xb05c2fd963b8569e, 0x2eb8ad40c535f3b7],
    [0xe89d4b046b6ebbe1, 0xce6b573a1235264c, 0xb9416e28834a4a7b, 0x154989e705cf9e62],
    [0x4413dea612e2e1d, 0x976952449c2bfe63, 0x4c8f3c5be0c76d87, 0x184749a0e1bec0f9],
    [0xfe19fdff27f11d50, 0x805568e92cae4472, 0xdca0c72a3575fb12, 0x24ad4bf83c2f3341],
    [0x57571c3b5fb54a6d, 0x18777b65030ef539, 0x46ee742981fa389, 0xe788a096b2d4192],
];

/// Part 2 of the sparse partial-round rows for width 16, as little-endian limbs.
pub const S_DATA_2: [[u64; 4]; 256] = [
    [0x9be9ab58809d0d5c, 0xc4810127a087c42f, 0x2d4e5640b4acbff2, 0x1e22b9d4c274fad5],
    [0x2be74a7106846f12, 0xb83576496aaff85c, 0x404abf0521e74a63, 0xc8a3f2ee3246714],
    [0x9fb2b4093b756709, 0x25d4701157c69451, 0xd7eb10345a94033b, 0x21adde943461bfcb],
    [0xd7f2f8fd4938a37e, 0xd1f17682831e0c00, 0x19f8a6b82d4b81df, 0x1ea99affaa689d6f],
    [0x31f9295ade2423cc, 0xa9ad40a27b0deab6, 0xde73fa737a283a6, 0x16949199fe4a3875],
    [0x89759da5150138fa, 0x38d9ac4c8739cdae, 0x3b54afcb7a0a9a01, 0x1e83bd581acd61c],
    [0x10f506eda56973b3, 0xe7bdfbde233f7892, 0x754f5a97b1dc8c2e, 0x42a61a84c944dcf],
    [0x6cdb5ca2273e30bd, 0x5a03b79c366a7585, 0xfa3b8d0f585061e7, 0x2b93c28b157ce32b],
    [0x4b664bfa49752bf5, 0x2560282b1cc3ade1, 0x5fa60b06ab2520c5, 0x1f54218a5daea604],
    [0xdc83aaf092e7f2de, 0xb251a50912048ada, 0x669fa5e36a00aaf0, 0xfbfdd369bdaf703],
    [0x6e70455cc15f8e2f, 0xb52e152655cc42f0, 0xeca62aefe9434104, 0x3633bd5a72a51fd],
    [0x2957fa30b3c13af7, 0x9dda346d0632389, 0xa898a242dca64def, 0x2c0eb54b5f8cee8b],
    [0xb3cf7b6f2afbd822, 0xd194fbe54243e039, 0x3bcbe6c873fbf911, 0x165035983f563b1e],
    [0xd867bbc57f4c778b, 0x352587e10c96e72a, 0x3575de4ecece3471, 0x2fd9820b3cbb131e],
    [0xeeeccec50b829342, 0x8259c6c608dca628, 0xa70e977706ab2be7, 0x1204b919d86a12ce],
    [0x183933737a8b8099, 0x5a12255c37ab51ae, 0x206c43daac752b76, 0x2b6fd7bc3a3b595c],
    [0xa4947e1ce4993b2b, 0xff5cfc3b4f46db99, 0x521a2366bf79e8d4, 0x2f3cd03d82e80e8],
    [0x29cc385d6b3735dd, 0xaa601e26766fcfcf, 0x1614a5f48d65239d, 0x1cac3fdc9674c64c],
    [0xd7e85fe9befd30d7, 0xc74b0126f099faf1, 0x7c669d145be5fa6c, 0x65415e4dfe08e35],
    [0x69feb620d115c8b6, 0x48a1a967da5ea319, 0x6730f539497dde6, 0x28ef19ab4bb26269],
    [0xa0fa281b85b64b7d, 0x43fb51a949fe9e0f, 0x2e70d7cb65288571, 0x3e88e9732a1a57],
    [0xc40f9b1535af072e, 0x851908d6753f6a9c, 0xc65ab49fc60b172f, 0x2486ab5c5311e4bd],
    [0xda0e1c6044301ecb, 0xd703e0537657518c, 0xc6f805d26a30a7e5, 0xc50469c6c6bd532],
    [0xb4f95833cb7ee870, 0x28f90b89ca402254, 0x6bcd664cfb0a24a0, 0x28f8be525277b034],
    [0x675d98436066e563, 0x392b1b2cd9cc0b5d, 0x6d79b356c1d27642, 0xa68990da12f327a],
    [0x65861b3dc2ebbe61, 0xcbe0f60f81ceaac4, 0x41b1f17a5dd8cca1, 0x2216dafb41776a19],
    [0x3bfcd41c47d1521c, 0xefcb6c0c84628b6f, 0x328052361d932372, 0x20e6c97c374891d9],
    [0xe3ed0b600aa51ea0, 0xe275ac56e9170ad9, 0x144534c109f53c5d, 0xa2565ccebd103dd],
    [0x96483540a62acf3c, 0xa458862cf40212db, 0x2e60d7e4964e8920, 0x1e79a45802b9e759],
    [0xc126bfd50f696fce, 0x1c265b129a7061ba, 0x42ec9d74b5d715e6, 0x29f54f1a96514b9b],
    [0x64527fd0eb31a93c, 0x1942ef8e103a915b, 0x2f1e5c7bccae627e, 0x26bb61d61ff27924],
    [0x8969f41d4c442c7a, 0x832a140f44b43725, 0xdee16689f24ee5d9, 0x1ed4d606d825d86d],
    [0x255c18793734f251, 0xf80b23e7d1bdebfd, 0x712f4eebbc7213e8, 0x25131fe12798f1c8],
    [0x185956707385d626, 0xd05bc96c05a68677, 0xd60349d85ba38dfc, 0xd921ed8053ca270],
    [0xbb5aad46b1e17421, 0xf1ef5d6e52da6d6d, 0xf63042fcfbe1a3d5, 0x25c7ab17f3ca72fe],
    [0x33e48d9956fc48e1, 0xb852212642d38d1d, 0x9bebf461b58d11ca, 0x1ee03839ca248300],
    [0xab6597aaf1895475, 0xbd14ef42323275c0, 0x7d9565496448cfdb, 0x15a5a2eecd107f30],
    [0x7a2575c6cb557ba7, 0x6cfd702c1453267b, 0x4808ec12aab687e1, 0x3fe00f465767add],
    [0x6c2f03b53d84edaf, 0x90a2c757ca7140f7, 0xa893bf15ce062c02, 0x1577821b07e4ba2b],
    [0xbb951b67334158e0, 0x892fbfd24ae7d2ab, 0x907df891669d0a43, 0xc00f28af5cdd011],
    [0xb76d33734868f4cc, 0x6fdb4d0506d38fd5, 0x8b27153f0c0d85c8, 0x11f2f4cde668fcb2],
    [0x6ee522ae696abfa3, 0x4750fa8221ebe812, 0x69605309b58d382a, 0xf15bcf82d1d5838],
    [0x97ca8a27c7446bcd, 0xe32569179b409d8e, 0x158830df52d74403, 0x2a87c83c58f55146],
    [0xf470b8b68b3c6078, 0x36246faf3733deba, 0x8d104f472d8d84a8, 0x1b655b2c43eaab5b],
    [0x16e31b88444369da, 0x3c39520dd8bbf330, 0x3680116a7a29e9ee, 0x2b4c789157231926],
    [0xd33c0b34191d5c3f, 0xec336a33d67abfa6, 0xd8f907c68adee0e2, 0xd57a4ba309a380e],
    [0x183933737a8b8099, 0x5a12255c37ab51ae, 0x206c43daac752b76, 0x2b6fd7bc3a3b595c],
    [0x5614731c81638a5f, 0x2f5b0d769ffe6f62, 0x3dfc366bf883301d, 0x24d7026b9df6dee],
    [0xc7b6781f5a45bfed, 0x4ac815d921f66a78, 0xadb5d9a4566a673a, 0x2ffa9260d3bc1a98],
    [0xff79b0e88af0897e, 0x7f5f8dfb8b46332c, 0x92456c194c0b8b72, 0x1c49dd9439a1358],
    [0xbc8b309fa731002f, 0xf31ee47784649b38, 0x1f944cda64df0385, 0x20dc0d730c188f57],
    [0x143c5ec3d6080206, 0x1b9215b9914f7e21, 0x2207d53fc653b09, 0x2a57e4f3c1d34103],
    [0x42e747f0bab85110, 0x6b5fa7b739ac2137, 0xf7334c75efc82a75, 0x18924496a011f1d0],
    [0x12a23f86782008ac, 0x7393e560b75df74, 0xde597bdff5917bc, 0xb488da92db9fb46],
    [0x67fbdedea39addf2, 0xfd30bcaa57b75d46, 0xd303001ae6fc388d, 0x181707ed73abc47e],
    [0xe010a66c74a4bf41, 0x3f3eb73178989484, 0x419b88de65707284, 0x2f3fc44c1a30bcc3],
    [0x8cb2c647aa72601b, 0x56cb353a2bb28e9, 0x3fa3c88aa7bb166e, 0x19fc475149f3945f],
    [0xe1615a60e0d8ab0, 0xf582a29f0907d913, 0xc393a7e3659fc038, 0x24e52c7ecdfe59a],
    [0x305c3e749f06da66, 0x5493edce1708f65a, 0xf88349cecd3f83df, 0x7be6f1cf7191d8c],
    [0xe1f4fe83d2d8f8e5, 0x4b40630d8dc8ccae, 0xd6736f6462d52ce2, 0x1f21a4d143a3496c],
    [0xb19399f855401ba, 0x74b5f0f329b21a28, 0xf46c6835f4d6d138, 0x2d26efa6adf5af54],
    [0xe4d2d5f2698c0572, 0xc6fafa1b68f5a029, 0x2e219fe4abde4c0e, 0x189d55e9c0ea390f],
    [0x627b6fbf45bab59b, 0xac50896f01a6b563, 0xd094db40d6f37806, 0xb825420f377252c],
    [0x334feb80d8dc5e13, 0xccde2cde69510b66, 0x9b83fad61964385, 0x1fba0c700b9f3011],
    [0x734b7da4a96728b1, 0x88229e95cdabde87, 0x4199900fe9e98b05, 0xd4c0381cbbb23ff],
    [0x1228c22d18689433, 0x8d34ba5ec48bcc14, 0xf13f558ced96fd84, 0x76f5d00e73e4dfc],
    [0xb2f637c2731b167a, 0xf118af2833a638cf, 0xec1d37a83e7e379, 0x1dae42a7e2455321],
    [0x3fb8eaf4c96ac22a, 0x2ca50e7b8b294756, 0x6553cdb103f7b93a, 0xa7cc5bf24de2b7a],
    [0x189760387d54a530, 0xb0485bcd6b246567, 0xf3f552c9fc239b96, 0x2b027765c2982281],
    [0x153e18435653e16e, 0xdba3e69ad0635a41, 0xc3f6510318e518e6, 0x1001976662b6ff1e],
    [0x66aab27cc4dce446, 0x47bac0fe95e2a6c6, 0xf724ea65404ef228, 0x1f0a377816189522],
    [0x469f6be322077c78, 0x5994575b494a0c0c, 0x68784c2943205aa4, 0x1e7a94ac5ea43fd8],
    [0xa86bbdd590184075, 0x25e50d392218b999, 0xb3a0a0d717599444, 0x2791206766f62a06],
    [0x554ab9de9a561814, 0x5851a9d24d20f9ed, 0xcb85eb1557e42ecf, 0x11ad87aca6c25e04],
    [0x92bbc1e5935f41fb, 0x703f49eb17db9b51, 0x924ed313b0d183a5, 0x7d76ff83e9aa3f5],
    [0xe5c42a73324c0897, 0xd8ecfef89ee0a848, 0xe53d9fd0e38007a1, 0x18eec21072c91937],
    [0xcc4525d437728ac9, 0xc0dd2692756c6c25, 0x5549461c8e6649e7, 0xd7ea1d8a141670f],
    [0x183933737a8b8099, 0x5a12255c37ab51ae, 0x206c43daac752b76, 0x2b6fd7bc3a3b595c],
    [0x2f614f52586612c5, 0x122e2821f6f46ebd, 0xe640964806fa1e5, 0x1d9e4a0d2a85dbe2],
    [0xe0eec4f26806ddb6, 0xe451ad60a731f482, 0x7e4958a1dd940160, 0x1b0529d2ba99f99c],
    [0xd20b0744773bec1f, 0x19beca024e3356fc, 0xccf75821db641e26, 0x2d78de90b2cb9901],
    [0xe7646fcc17235bd4, 0x727974e24f13f1e6, 0x3b46977a9da02f76, 0xacb58a5c68bfa4],
    [0x52f1399096abb13d, 0x792843e2915a039b, 0xb324ec110cdb4dab, 0x133449d082b88b55],
    [0xbb552a227f466cf3, 0xcfcc6313f2b325a1, 0xd9e21aa03b9e60ed, 0x1e40b0c57597c9ef],
    [0xe804769dcd4d7d36, 0x6568b97dc007b6e7, 0x745ed729ea5a006, 0x1dc4ed7c60899b41],
    [0xb8be4cbbc3b02f15, 0x5e3ee122f8292a12, 0x43e2850cbf90d1e2, 0x1146cf1be34558e6],
    [0x14ab257829531a0f, 0x381b829ae63156e3, 0xca4864b038945f81, 0x24cc8fc4c875a88e],
    [0x12cc8a435deaf507, 0xa78b762b014f853d, 0x94c092b4955bea42, 0x29f9668dddd61035],
    [0x94f838fe25d524eb, 0x746c987eeb3cccec, 0x7f07e45bab4474b2, 0x423f8acfb642585],
    [0x9f226e63fb6540b, 0x95d65136d082d91b, 0x9306ea18a42e50d3, 0x226d21a206f17d64],
    [0x8aa058f8b7a22323, 0xc3252b49bee25721, 0xed926f1036d1cfcd, 0x50d8e0202485f6],
    [0x580f2a7b3f840a5f, 0x65089ee1498736a1, 0x93eaba746cf07ec6, 0x2c6998a3a1d49888],
    [0xddec4f9bed773f4a, 0x109a6602e54670e4, 0x40b044443a720f15, 0x8f07def8f9291f9],
    [0x6045c794e0cd41eb, 0xecdbac2ca6f21630, 0x4228b1da242da640, 0x15ad9c95848c4eee],
    [0x8f39d9f8b895d1cc, 0xbc45ec654b60c49d, 0x47046f5e2dbdb395, 0xb6c94ad59e7195e],
    [0x6f85e3bb18f2eedb, 0x73b329f20e1fe2b8, 0xe2101c05fe7276c3, 0x16915ac62623b19c],
    [0xa121cc21cc52e157, 0x73bca36eb41a669d, 0x7f108586e337df31, 0x241c174139afa086],
    [0xeced016a149941d4, 0x112afa88b1e71395, 0x871d2de5a8c22f22, 0x2fbc48a493da3632],
    [0x50bedda80b6f4224, 0x1960a0746745c359, 0x8a55c7f763fa8684, 0x1faedef5274cad9d],
    [0x32958f6c837c26f3, 0x8bc1c6f0904de149, 0xb273e54bdd99ae0d, 0xe5ca90496f6ab2d],
    [0xa0b1ebffdbc9d567, 0x6b2b1ce2320dc7c8, 0x2faa7798200083b8, 0x1783f5edffc02d57],
    [0xfb398606a6ba3869, 0xfab841f21df3d4eb, 0x285b4cea8eed22d0, 0x1108f89b2285ad02],
    [0x2cd30e3b163468b, 0x23bc564bf4022820, 0x23c51d89384242ea, 0xaf33de737c3e1f4],
    [0x634d82e0e9759a74, 0x50d6a06e9344fcc7, 0xbe4405cd338d85ca, 0xc5152ce065fcb30],
    [0x5763cc8193103aa0, 0xac2ae3d4b6ca8c70, 0x29247872552339e4, 0x29b859531add0b72],
    [0x9650b0b5ecf0150c, 0xd53158900fca184, 0x7fe3cae6e270483d, 0x87622acf2781027],
    [0x70e1d13bc30a6e1e, 0x8c26ef510627f2de, 0x6411b0b864dba98a, 0x228844894f0ecc51],
    [0xe0bb12293dbc2548, 0x429642be8b0e301f, 0xc670cb577336806, 0x196d69516c701eb0],
    [0x183933737a8b8099, 0x5a12255c37ab51ae, 0x206c43daac752b76, 0x2b6fd7bc3a3b595c],
    [0x84e4e53500f72b24, 0x9f7e77b8268aacd4, 0x82f70637d9d973d5, 0x1f70d88a852cd16c],
    [0xc504b9792beba19, 0xb3cca1a85b2a8467, 0x8f7f93f23944dd16, 0x141cdcd52cc30452],
    [0x1e7d034d7a30abff, 0x61ec7e40069f9a81, 0xaf6f37bff1f6dac0, 0xdb56745ee0dd133],
    [0xd3b92b20b15020ba, 0xfc36248299eda8ab, 0x8d55d26fd8c49785, 0x2569e01e00c725b4],
    [0xa32bb73b784d95f2, 0x8b309bde28b7ffad, 0xd532f8b0ffd17531, 0x353c1598121daac],
    [0x7d07efd159cc23cd, 0x318a1ad228cf0074, 0xb1337535b938fdd5, 0x23dd1ba2b7ada18f],
    [0x7d0f4e32ac5a5bb5, 0xa508e1e160bb66e8, 0xe8f275b00787790a, 0xa449d239c51400d],
    [0xa5353da21540b9c9, 0xf4ea9776095a98ef, 0xceae93b97187f199, 0x2bcc35ac47eaefc5],
    [0x900ee2f8478e3c07, 0x4e24cbaa5d790f76, 0x66529f55b874d230, 0x22e49a4378b6b695],
    [0x6768f24276fe1841, 0x16e40c29a0646932, 0x6391c05b7e20b134, 0x66ad5b80133fd0a],
    [0x23065532a259b857, 0x18bbe077b0f11226, 0xae5c8411d5130ab4, 0x3f2253229c2810a],
    [0xf8034cb83bdbd4a7, 0x67ac3737a6620acc, 0x5867e103901a5f6c, 0x2662e6c8a1134a00],
    [0xe171b0870b292086, 0xde49875bab142e57, 0x9baadde6a2359bef, 0x20a86066eeceb697],
    [0x6381f4089e7c91f3, 0xdc2a9db03980e712, 0xa43160ff4045190a, 0x13afbc5573e84312],
    [0x7708df41d5b2a746, 0x4fa0f2bff915f07, 0x1d59a474d84fbaad, 0x7d6db6cddf350cc],
    [0xaa1048b8829ddb2, 0x21c1068de6d89959, 0x1a359ddf6ebb619a, 0x268e93e46fd7f13e],
    [0xfe561e1cff4e70b9, 0xf2b29cdff231b05e, 0xfce28f103f2e4194, 0xf889928b305b304],
    [0x9d59484d43cd37a9, 0x2c9b979caaceaebd, 0xfe454d8e8b0ad440, 0xc547ddbbf87c32b],
    [0x91b501728497ae52, 0x115117fd24a15f6b, 0xa9d00b35dc345ef0, 0x20da83182faac059],
    [0x4281028ffb0462ef, 0xa723671e6c51e7b7, 0xf2731a326273576e, 0x1f6b643b60e535d0],
    [0x9f2a4f694ff6f9cf, 0x18f60026af583335, 0xe26a6b9ef3f2e9d, 0x2d14d43ab2196fc7],
    [0x40893eb971aadfa2, 0x59377d9037615ba7, 0x429b0a28a7e23baa, 0xe9b85853becdc05],
    [0xb2547a5d6c2ed54f, 0xbb9ec31e3461d6b0, 0xd7086e1206ae3c6a, 0xa664658bab11525],
    [0xdcb2f68767633406, 0x43cf4d3f8f0209af, 0xdf187245d0b1222f, 0x2e0498e8539d8576],
    [0xeb63dc3b1189b6eb, 0x3793ba2002fb9669, 0x63b44dec08808033, 0x16c87c7662e67242],
    [0x8b4ec21b30900f54, 0x20a67fd4e1165349, 0x436380c834da36d, 0x9c5eba75aefc04d],
    [0xc18e732a04ba9841, 0xfeb18967be71a12a, 0xde6c98ed4e48e392, 0x1066b5230eec70bb],
    [0xff8b37ca0dc0464, 0x791d7ee79b85fc2, 0x4eb259dda630b58c, 0x2dd2a9adc1fd3ed0],
    [0x366943a85ccf4af4, 0x51bcd549d1e5992e, 0x99bfffc3fe43f0f7, 0x2e94a96ea1f18a9d],
    [0xb0c1a9b0b2e8499e, 0x1cbd2bd0d9ea8ce6, 0xc4543b725e43e01f, 0x8d72e9dff20d4f5],
    [0x183933737a8b8099, 0x5a12255c37ab51ae, 0x206c43daac752b76, 0x2b6fd7bc3a3b595c],
    [0x4ed073ba25f5d13c, 0xc441e5fe9cf3869a, 0x2f16df59a7f5b8a1, 0x230050eb9901e2db],
    [0xb2d702eccfa3f844, 0x7930ceb1916691b9, 0x9e6cbb5c81e3559a, 0x1c2f7f401da1ad98],
    [0x100acfa35c51600, 0xe97203942d768385, 0xb155483a41334a9a, 0x9b391cab0c34b91],
    [0xa3b9ca81c12e9718, 0xa58d4d23624890f7, 0x2f573418283f27bc, 0x134816b73312aacf],
    [0x663a63891c1675d1, 0x3ee087699d0e5f62, 0x30ddcf77f87f4bc5, 0x124b47f9ea87c941],
    [0x4e1ba67b2f006526, 0x727a610f94057c30, 0xe6cfc3709404711f, 0xfe5a21251a65261],
    [0xf6679b3ffa512e8d, 0x6d676dfb0d66177a, 0xe2707fbe85429561, 0x28ab3b64f6f6f0c],
    [0xed42d65c31760fb9, 0x220bb54ecbd793f9, 0xacf6b1133119d757, 0x1870499da8f58f00],
    [0x448b991c1650893d, 0x5ca77cd9e5211aac, 0xab92b28a96429acd, 0x20db70356dd8d855],
    [0x98fcb815b438516, 0x3ed80ea5c2fed11b, 0x174691a98d8c5e73, 0x1a1ff1c58192f748],
    [0x425666ef390e4f69, 0x83f054bd73d8c5d7, 0xd3ef6c3cf33f39ba, 0x1ab2399c7e7ce1f5],
    [0xcdf7761a9caa2b7a, 0xefc072338e173f49, 0x68978cfd90777937, 0x1e4b5f8ea2fa22e5],
    [0x611b76cfe869104, 0xc63472dd89e56da, 0x68160f0dfba637f5, 0x2305b22483287e95],
    [0x967cf5c9dc07399, 0x338befeb4c6f8e8a, 0xdf6580d0ca588b6f, 0x1efc74710147e4e7],
    [0x7fd0dce72fb37c0f, 0x39681eaf1247af04, 0x190acd05a266e8d3, 0x43c5e4ba3ceaec4],
    [0xc1b108209aea844f, 0xbf2fee8426fe0ce3, 0x3eb3ae9985a905ad, 0x2ad5f9fe59cb81bb],
    [0x9823dbb3300ffc31, 0x255e386bcea0a5be, 0x76e55a9ed07dcbf0, 0x1f36ba0d22839b31],
    [0x74b85b16a13362f7, 0x595e365f5e51d974, 0x618127678d8aec23, 0xa565b3ce5c2aa38],
    [0x93d24759c12d8ed3, 0x7d14e05c42df4012, 0xa780f9accc99caaa, 0x271dfc29144730cf],
    [0xf60df2ee0540348a, 0xc8c133a5989b758a, 0x14b97e6e5758b64, 0x1119a78dd0cbf88],
    [0x7c2493f27f389e0b, 0x4784a6f33b4d8554, 0x39d46ada19fd06b3, 0x157970a49dadaf8b],
    [0x46f43b5137d4df31, 0xe5c33ff22f090196, 0x84b26ea8e352a3c5, 0x8697357bac41319],
    [0xd9a5b8535f0b955e, 0xc65f141f02b45936, 0x87322a9d0f0db92, 0x29fecb3d70e1bd21],
    [0xda21ade2aaa434b1, 0x5caae7391012e267, 0xad87ee9c2dc6368, 0x14297a9dad6ee3dd],
    [0x9bb199a070f9c782, 0x61dfda56b98dca4c, 0x99d6a0999b30cf3e, 0xc8f3a7ca1b42421],
    [0x8053b8ab35f11b43, 0xbdedcad57906d2f5, 0x23b0b2edbdfd4ce7, 0x2105bc020b9bfa1a],
    [0x4fb483f84aecbcbf, 0x4639b092d395bb4a, 0x7d2f36e40d5bdef3, 0x2deb04f6f90c24a0],
    [0x7c87181768091c60, 0x37e87dbf858535bc, 0x64ac1443efdc41cf, 0x2964c5940985822a],
    [0xc6ff5352133ea9de, 0x5c9235c36f2f955d, 0xfc7cd1231b13e90d, 0x20b68c1b5ede99cc],
    [0x3bea7db5f838efca, 0x9550667e8da41871, 0x2687beb4f6725b74, 0x30096e11896ed167],
    [0x183933737a8b8099, 0x5a12255c37ab51ae, 0x206c43daac752b76, 0x2b6fd7bc3a3b595c],
    [0x7381452e22382b9, 0xaa63720a5c795b9a, 0xb90a5e0b691d8916, 0x6e21228ed894978],
    [0x40552e7a4f2414aa, 0xe95fa72639245015, 0xbeb604437262768a, 0xc9bcf80dc5fd89e],
    [0xa695c7c5fc2f9072, 0xa8bc21f1aac8dc10, 0x3de4c03ad5c76101, 0x9a6be7304c6da04],
    [0x80c79c2ddb27a832, 0x8bfd083ec61b1af0, 0x59ddf5f046cb5bfc, 0x1d78923d01c8ac2f],
    [0xb36f27774594209, 0x251bc6272140ff42, 0x91be7915b01cba87, 0x272ae649640a5da2],
    [0x90496e59d715f775, 0xdfc71d6139603ee, 0xf9309f2f984011a0, 0x4b1441ef166c520],
    [0x57febe0422658c42, 0x76109c42a2ea1633, 0xf6f8116bf74982ba, 0xe8d1281ac76ae45],
    [0x9992950ab4af92e4, 0xa15085a8ee9c103a, 0xbf313804257126fe, 0x1c5d4250da762faf],
    [0xdcef6f9d3b1e18b7, 0xa091505b12b70064, 0xac2196201e8e4a1c, 0x13d55c7c0b5e9acf],
    [0xdbce40ce2535f0f8, 0xb53da4fdbea9729, 0x131b3de7150da5ad, 0x3e8a03e1e25fed9],
    [0x14791aaad5a09ee5, 0x43a64595eb7bfb58, 0x8c7c79868c88e39, 0x12623c6993f1c301],
    [0x491eb870d2c8fe89, 0x8f1bc5e4e3c9450b, 0x8d7453019c571fc2, 0x1d38303334b2b132],
    [0xf49154aa70b918e0, 0x429cfc4ae4d7d7b5, 0x2a003b41ea79237, 0x192231ebe3469dd1],
    [0x3bbe800e4d4ee582, 0x357f48989f553ba0, 0x798fa95b78d558a7, 0x26587d8d2a074923],
    [0x11d19ed58019c6, 0xf2ba2d3f09ec62b5, 0xfcf9b009006e1235, 0xdbec60681a76725],
    [0x17c0991b11c63e13, 0xf3cab1c9fda8ddee, 0xbcfb375fb8c5a117, 0xd79206c8a30d26a],
    [0x47ec6ab89e5752ee, 0x690e99591f422164, 0x958ec54b82fa3bc4, 0xbc57e048679764b],
    [0xe4b56dea4e9d75a8, 0xa30a5e6cecff4e91, 0x2631863fe8b93691, 0x19b73a25670160ec],
    [0x5a83f23815f8c5c4, 0xe08e2e5285bcf6f7, 0x665794ed829d301c, 0xb02dfd4eb79d59d],
    [0x435cbed8ef6c9d90, 0x31fd336a617126a1, 0xe3302274f516a741, 0x2e8eda48e5dfeb71],
    [0xad2f1af512f2b499, 0xaaf7621c44a55b90, 0xe694715b631a176b, 0x282c1f1d562f2927],
    [0xe74aacac4f9bafee, 0xfe3f1fb66ee0224b, 0x254956fce21df810, 0xe24552e72a2717b],
    [0x853c10e62ede2ecd, 0xec2a1c2206bc97f6, 0xa063998dec9888be, 0x619d6bb9fad7fe7],
    [0xb37ac76abe5071ac, 0x30a87a79a77cad82, 0x1a4efdbb0f302d4d, 0x10855580bfa613c2],
    [0xcb30da9483f71155, 0x2c22bd2b2aa387d9, 0x18a22900e665529f, 0x12e7d2df332cc5d6],
    [0x922aaade7fde8f66, 0x95884ddcf3c85b8c, 0xaff619e7ddd9dc80, 0x108fa054801185a6],
    [0x4ae3569771e617e9, 0x3b4e9c41c138b676, 0xb14b93182197b807, 0x2f8cddd8f2c5d14a],
    [0x7186d5c2ff07972, 0x43479968b4af8dcf, 0x6414b2024a393917, 0x1f4622a6c051e369],
    [0x3c56cb9942ab7877, 0xfae98db9d8f36d3f, 0xe4502cce0b85fd03, 0xc379c514adbbdcc],
    [0xc8c32945d8e1930e, 0x1e619f5c7e03bcb8, 0xfb51a4d24e7189fb, 0x2b139708399f0c23],
    [0x183933737a8b8099, 0x5a12255c37ab51ae, 0x206c43daac752b76, 0x2b6fd7bc3a3b595c],
    [0x5cfd96be4f516c01, 0x3aaaaa63c5ba3c6e, 0x9c495deb248e754c, 0x1a67fa389778c948],
    [0x27cb33d65d7d09dd, 0x4973c824edbd47a, 0x5aea5e99597b0985, 0xa82b7efeec16e6c],
    [0xb1fc07621644bc7a, 0x3959618b7de3d6b7, 0xdab90890a9a9db18, 0x58b5d72d0fb9836],
    [0xe7b0ea23657af1bd, 0xf304424c0481d117, 0xde389c157199ca24, 0x24411fc9331c4465],
    [0xf24fae76d1d6d34e, 0x51a464602e52b36e, 0xb2837ad06b466290, 0x210351a45fa4ef26],
    [0x37b510e30840eb59, 0x346c687a8c261374, 0xe7db14921c0262a7, 0x1e05e49db66c3340],
    [0x2dcea661571da703, 0xf6be428714d1d44c, 0x5a1c2be458d06a65, 0x2e6833d4c2d492a0],
    [0x985bc63897241cd, 0xe8f1033109032166, 0x1d0b703ccd88f179, 0x2747e0fb93ceedf9],
    [0xd8b34e336e0c2feb, 0x8e28215172d43899, 0x4309be92546ca330, 0x21373fe7342c2907],
    [0x4efbf83f6ea3f959, 0xab58990af12f54b1, 0xd78e0a91f67dc748, 0x7aca07d0069a023],
    [0x21f5ad6d28213be4, 0xb3ae150d731c20a3, 0xebc10476b0f17dab, 0xd31908df90c1e9d],
    [0xccd732b90dc0db56, 0x2a441517a8eca29e, 0x3277ffd23ca73785, 0x28b90adb926df769],
    [0x193790dc5cb1cd77, 0x1d620af87c49516a, 0x79c7bcf61ef1eb1d, 0x104147d1f610150c],
    [0xef034943a9f64ea8, 0xb8c7559da9346851, 0xd8567947f5736159, 0x22704b0eea545e93],
    [0xa6a65dc654b99e8c, 0xf8211929750dd706, 0x65d952955497197a, 0x12cf13867e1f4c6],
    [0xa85c99d8a2bc9501, 0xc6aa32c8d96b9a3d, 0xb3ee21869418ced6, 0x2640c797ab409cc3],
    [0x25da133ec358b822, 0x44162826c2c7d280, 0x9ff8ed24a732705e, 0x123e01798d094874],
    [0x20b10ed05a1c1b7b, 0xf4f64ac69db58a78, 0x4fc5c2f982b854b4, 0x22f5988c47c36f45],
    [0xfd2cd29670509550, 0xf341159e0eb92672, 0x7aec89bdc6601b3b, 0xd71a0b148c46572],
    [0x101564f4dda5eb64, 0xa113df973d3dbff0, 0xb7feddc8f4c50031, 0x9c4450c0fab5b77],
    [0x6e689755c1d08c9c, 0x80de648dccb64e95, 0xf4be81f45f34004b, 0x216909b9a7ec927f],
    [0x33f9f53829fbfc74, 0x2d69e5955992d131, 0xdcc7784668b42150, 0x1a676535420e170f],
    [0x647022d6f39ee208, 0xd0ce69c1507e85, 0xa61b8ed3af38c48a, 0x2f45e803db63d86b],
    [0xd1a660671264a2a4, 0x3ff507f7abc65cc8, 0xb4b1e804dc5abb42, 0x3cf89993c4654ef],
    [0x10e10fcdfdeb9ee3, 0x86652eb997820970, 0xe776bf9f78d8f097, 0x2eb840961ae22d47],
    [0x7a436845a38cc1da, 0x827dba78cde25cc8, 0xd30d9c935a465c52, 0x13b3fcc3c156042d],
    [0x59d5d386b2f10e59, 0x13a0825a9308ee36, 0xd8a234e1954aa948, 0x2ac2949357bcdc53],
    [0xea807888f7d9c19b, 0xc62926bcbd2e7042, 0x67d868973288483b, 0xe15460bf314de3c],
    [0x9b859c30ab1800cc, 0x395f9640b440f75a, 0xeeb2ae857a5b3010, 0x11c767a3163182d5],
    [0x78890f9a0000f1ab, 0xf9596a2c26a8177b, 0x7cccedc65de54ccd, 0xde4b8312d23ffa4],
    [0x183933737a8b8099, 0x5a12255c37ab51ae, 0x206c43daac752b76, 0x2b6fd7bc3a3b595c],
    [0x89abc977665065d7, 0xae5fa78e31d64571, 0xa025b998d053c75d, 0x22a306748bbb7276],
    [0x749cd3718dee76c3, 0xdf50eb4793379139, 0x91bf115992b295c5, 0x11e89b2f5a9f7083],
    [0x3298cfd6e925324e, 0x77c6cbec44bda657, 0x911ab491c46bfed1, 0x170d1801e156ba73],
    [0x28008d7163340593, 0x4b2c0be72a58c429, 0x1fd74847ee752405, 0x99425a344bd2480],
    [0xbf0a84236a1fc1ed, 0xddbf7bac1a8b24af, 0xafc495baefa2cb03, 0xcb13076d62a1cce],
    [0xcb86f4a3dc6f36f5, 0xc71fa1112160c2c3, 0x38f2492a42e39c90, 0x105cd167cbc29941],
    [0xf0fd843c73cee60d, 0xe1479f8953587d08, 0x9231abadf1884793, 0x2fe235ad0ae252a0],
    [0xf460564b37002abf, 0x441e6348a660a8df, 0x17490eaea552ce39, 0x27b02875c28bfc12],
    [0xff764912bda1dcde, 0xae6ceaec8706c97b, 0x4fe2c433bf85bdf4, 0x1a48ee09ed16a03c],
    [0x26b1481b9e616fbb, 0xd6c61deab13c5dab, 0xdbffa6970992a1bf, 0x175b14cc4245b469],
    [0x15d2d00fdc176a16, 0x84a725be4c13009c, 0x698bfd176ee33fcd, 0xd46b0974195aad4],
    [0x5a35e5649c787361, 0xbad408c2b2cc24ca, 0x4b25dc908e1faabc, 0x1aadcefcb3f21adf],
    [0x9cd993c351f865db, 0x2cfd09a7050243e6, 0xdaf959f09c231431, 0xee80d214b808612],
    [0xab47e2650b783ec3, 0x1ff616ac98ced2e2, 0x1091332acc37a8c1, 0x2b92ed72f750583d],
    [0x356dca855053699d, 0x72ee0921b06685f6, 0x43ed2a2d1809345f, 0x7bb6c047a0ab373],
    [0x568a073630551272, 0xea1602065f18c7c9, 0xc4c71b00309204a5, 0xb27c5c1f4f08810],
    [0x4517b3ba19693feb, 0xc0f05e3a45245b1f, 0x882f8eef50b164f5, 0x10eb21636ad3cc5b],
    [0x281fee3a5fa57c22, 0x661a7be1166add0f, 0xb50351f05260a2f1, 0x139afa8d7c7016d8],
    [0x3a5afebc45849d74, 0x745e614ddcf43a37, 0x19a7ede834ff7ba4, 0x10a8316597468b2f],
    [0x2cdb2376bcaf4ce1, 0xb88311db5ffd138d, 0x90b30c06fc33c46e, 0xe7bc88dca5e934a],
    [0x8c76fbc7b140b4e7, 0x28c26165a9deb333, 0x510f20f8ad87099d, 0x1ed3520f1f7eb308],
    [0xf16022affde42d34, 0x24614c3540f8d36a, 0xde90edec1f4fc54c, 0xa5b057fe093ed51],
    [0x3a2e0a1d14edbc3f, 0x32335ffb2e9857bb, 0x748f9b9f263e88aa, 0xfe1a3def2a011ba],
];

/// Part 3 of the sparse partial-round rows for width 16, as little-endian limbs.
pub const S_DATA_3: [[u64; 4]; 256] = [
    [0x3d9d3cca471c249c, 0x379088b772c6ed9e, 0x32b313a2bc3ee30d, 0x1f6abc03a0caba97],
    [0x13838ec0de0e777a, 0xdecdc35c89c4353e, 0x6ddc1bb185d14421, 0x32cc35f494c7b82],
    [0x6863cc49b017f199, 0x56d84f80db93afde, 0x9be0d73d43e706e7, 0x3526b4fb75965e4],
    [0xb0cf174fad12b8e2, 0x386c044f05405600, 0xbafbeef999077c33, 0x19033bc3c4271ab5],
    [0x807ae9a486bc0d4d, 0x3baccbd90c83f0b4, 0x39fcc8dbd97df0e1, 0x17775184817378f6],
    [0xc8c91cfa6108c3dc, 0xb5eb759593c989c7, 0x3f61a8fb1733069f, 0xa9e1c95520650bb],
    [0x5825e9dd2bf16e39, 0x5565a07796e7c173, 0xec876854ec7d4131, 0x5261006343d0f17],
    [0x183933737a8b8099, 0x5a12255c37ab51ae, 0x206c43daac752b76, 0x2b6fd7bc3a3b595c],
    [0x30113cc7507effd1, 0x47b7c76cb481b2a3, 0xd0c079c8b10b626, 0x2fd7377f9006f87],
    [0xc7bcc29d92c84447, 0x58c7ecc20d81891e, 0x8f04498f5e71270a, 0x1aa6d67de3f86bd5],
    [0xfef84286a70a20c8, 0xfe9686c7156c324b, 0x118dd2d021043961, 0x267b52a174ac8e9d],
    [0x9d12aa2b8fc7f52f, 0x79f9a6f66e05821b, 0xa2a744e3483a6533, 0x7131b4b73af0697],
    [0xa39b975cdd89bb54, 0xddaf6f1ebe10b167, 0x636bb62390323860, 0x678652eac3805c1],
    [0x2e991c2dcc0cd1a2, 0xce5120126d24167, 0x50d0496771117e05, 0x15209b10675cab6f],
    [0xe35ad3a12f745bd6, 0x6eab03b2db826652, 0x5c53ebfdb3af4177, 0x1a1977bf61184ad3],
    [0x7db70e9c9cd9c099, 0x44a7c7f25d064d45, 0x93becb162b12af31, 0x229644c842f9907a],
    [0xe424f76a93f7a915, 0xa8a0f8adde891b55, 0xe9e4ce7d1fcc95f2, 0x17ed9abfbc0e4103],
    [0x4e21cd38cef7f792, 0xe79b937d7772ecae, 0xabc7fe60e6d2bd8c, 0x2104040d07bc2a79],
    [0x1c844203812cc98c, 0x4a6c54577d4d4b74, 0x2805e7f2adb86cc1, 0x29b17696048b7c8b],
    [0xe2ab2aa25210f1b1, 0x4d423dc45a5a93a6, 0x1784eb12a8c8e959, 0x155b7c97543d530c],
    [0x382ec918f0d18822, 0x54d1f5d2ea514c54, 0x3ccb165e7009314c, 0x2d95cba17ff1a2f],
    [0x8f7dafcc99c966fd, 0x4568c4c35b216074, 0xc53578d0312159ba, 0xa9d8db94925ee88],
    [0xd39941cb0bb2298b, 0x30f72db5fff4462b, 0x74ccdceb22d7ae47, 0xb6f19b020cbf0eb],
    [0x85f886a592d8233f, 0xd6c889f96277da80, 0xe6614b07127fead0, 0x2f709aa70fb82604],
    [0x783986bf8851507c, 0x88d1c5df73b70de1, 0x669190965b0d7aed, 0xc05d5e71c8ff96a],
    [0x3347417cc9a4dbd0, 0xf3d54b6c41457fd8, 0x2f216581d4b35f10, 0x8facf13f8dc731b],
    [0x6c2d13a671f470ee, 0x36c86955feac3467, 0xe3ca3241a56ba26e, 0x1bb219a4559f69a5],
    [0xb269d7bdeffbd615, 0x1091c2b9262c0337, 0xe0fefec1ccafe4b2, 0x32054ccbfd7840],
    [0x14ef85b966c7ea95, 0x2644c1e938b80c6, 0x883d2e76bc8d5197, 0xad0e2165ff04113],
    [0x6468d4cb6c4f8938, 0x29fe0e80742c329b, 0xcc307b211409329b, 0x5d0cd6f76ce14c2],
    [0x3d4cc646c7cc2f9, 0xc30fe4f353e75d75, 0x610b57d8312443a9, 0x2ac21c0635d3d249],
    [0x99c16fa36c65af2c, 0x319cee3b55e17207, 0x2c1f4ae0922f10c9, 0x2c98f53ad12c6d2f],
    [0x154e1b07d6cbafc, 0x93f8ad2563231200, 0xa8c9895b9075a18f, 0x1fafe9cdd001c028],
    [0x171a58339b6754ae, 0x7954af808b69f4e8, 0xa3b651ceba4e33bd, 0x1c66e585cd1c5651],
    [0x641e43a8e6150512, 0xbdc481658149d974, 0xc51b5efb0810da89, 0x2b8004d7066672e9],
    [0xe09cbae6558315cc, 0xd613879a0e422c27, 0x46083520d9bd83ba, 0xf19a8fe86ec9c91],
    [0x1e11cab9c622a3c6, 0xf4f9202df37972a3, 0x20070207a6ebfa77, 0x12199adee14b8fef],
    [0x8639f0181174d8f5, 0xe1dc570c706dc981, 0x68f1772d93ab7f53, 0xf34bbf250e5eea1],
    [0x183933737a8b8099, 0x5a12255c37ab51ae, 0x206c43daac752b76, 0x2b6fd7bc3a3b595c],
    [0xc2ec04c27952831, 0xb50ae79bac3b0969, 0x81f83f53d71b4a5b, 0xb2878f795472423],
    [0x4361122748225fff, 0xccfbfe67fb7b497c, 0x96441f2418e0c425, 0x1636796259d8195],
    [0xb2b1429e46fb956d, 0xdb81d3eef3b5c031, 0xdbb4e19b17dcc891, 0x230101fb2086c3e4],
    [0x882516d954738316, 0x3ba811a64aa846b0, 0x8411b43b8b0fc9d2, 0x2033e660632e0b2e],
    [0x4113a2fddcf2fd3e, 0xc22ec9989b0f97dc, 0xe6f69a1a8fe77d6b, 0x244564f0c62510a5],
    [0x3d2da9b94d60ebca, 0x6ea303f53fb69e07, 0x8b3b85cf512de08c, 0xea22aab739936a7],
    [0xa4cd5a1ff9b2e88, 0xaee96cd85d269db6, 0xf3f8196bdb7bf2a8, 0x701868cfc18808e],
    [0xc3a1089c3e209378, 0xf20424f7cda13492, 0xe3aa7d70d8e365f6, 0x904cf11c0b58e3f],
    [0x992fdae1837e01fe, 0x5f77a7a19aba209b, 0x18cfeab3a30c0801, 0x1d5930f08045de14],
    [0x3e39b0c56c92cc4c, 0x298bdd002c76c167, 0x8da4c5651b692c3b, 0x13d07ccbe92ac984],
    [0x2c4d80d0d9026a9e, 0xd5e826c1bcf4fe2e, 0xaea7b49a815141e2, 0x29fabafec859d0e],
    [0x55d8dd1c7d413126, 0x5550db1bbfd3ee23, 0x1b28a1dc06cba858, 0x1af5ab322e026a],
    [0xa35c0fec601a813f, 0x7f8a963eb0ac4208, 0x3b8824f68a33bce7, 0xc60f6e36113ce5d],
    [0xb6a57256a94cd1bf, 0x99456839342277c4, 0xfeeef3a11fabd3d6, 0x17ac4c1dc0678e3a],
    [0x250798e59b055209, 0x7b4e1353e6e6a90d, 0xdaace46e5201c205, 0x18d140a27d4a76d1],
    [0xf518f1f501cab662, 0x25830e514126dedc, 0xc9e27765f43bbc4a, 0xf1336ac56c60c4b],
    [0x978ecdaa310a5fc6, 0x5b2ef205d6afef56, 0x8e4674ca411513bc, 0x240e3c3a7dece37a],
    [0x5422f78c8b01c9ca, 0xd631263e4036e9df, 0xc6e5243038d7324b, 0xc1f16c8ee024584],
    [0x187294607fba3e4d, 0x6bbbf2beef38ed9f, 0xb6f4d08f6c675577, 0x236b70f7b76e6f16],
    [0xf217ecac1eb0ee5e, 0x3913e506e546b3a1, 0xb67b8b5c535ef6f4, 0x2fae92d9a4260c0e],
    [0x35d5b68e7572cd1c, 0xe1ee5b4ea19bd091, 0x85f08760176dba2b, 0x1e69a926148d047],
    [0x7aa3372513bc4530, 0x2a578ec23bd22089, 0xade40371fac2bd45, 0x2a96f11408f216c5],
    [0xeb06de4736cfe988, 0xe6921b802be72cca, 0x3e9ac6a6df46dc33, 0x1522e73fa41cc4c2],
    [0xe77b313bee3cdd01, 0x31be6d8b6d4a644c, 0x556293aa8a6bcf7d, 0x6d2c787e7b336c0],
    [0x17f2798fff57c306, 0xfb6461b5f1749740, 0xa3e8d5e8d31412d2, 0x1f80057bec504946],
    [0xe7f1fcf0dc8985ab, 0x903e2faac75a6533, 0x8944e95e910ff3c4, 0x139e43308691da27],
    [0x3970b8c2361ed38d, 0xfd0f2cc9d3ad44d0, 0x8fd982a092a9eb18, 0x2958715623868ba9],
    [0xb049508fd31d673c, 0x6a5d85d63b659278, 0x62bf84b4fe75a8a4, 0x3d037c068aefcaf],
    [0x683fb472fc8b2edf, 0x332573d9f2cdde26, 0xf046c138dfc4c18, 0x25f8654c412e7d63],
    [0xb2c7ee466a2b5807, 0x8b42804af1e7ce, 0xfb8c65b8d47c6647, 0x1874b9d07a26cf2],
    [0x183933737a8b8099, 0x5a12255c37ab51ae, 0x206c43daac752b76, 0x2b6fd7bc3a3b595c],
    [0x6d18c69cfe0b14cd, 0xdb3f5171684734ec, 0xef0d9352aad479f2, 0x22b74f8ab6acc3f3],
    [0xad01328ac5ff90b2, 0x7a6b8a20abd001e8, 0x3090346d5c5c0b9f, 0x28ddd3e0a84efcc6],
    [0x55d07d2332aac26, 0xeda6e3e4a7f192be, 0x81f6e7e97f1aa879, 0x21ba1ee2990e2ba9],
    [0x796e567b026e92db, 0xb4be6b68e77211d, 0x3003eb5089160d2e, 0x8923f775145f724],
    [0xbbf77eb8a52f2bd5, 0x41f3d09e8c2863f1, 0x2c7503d8d78759b7, 0x2168e1158db076bd],
    [0x21d37f3d2f574ca4, 0x3e5a12e80db14621, 0x7087f34f8f3a4554, 0x2d91a6046ee63858],
    [0x91a687cb71344a16, 0x106efe2f1cf4a8f0, 0x50b86238ca35b3e9, 0x19a362b36092714b],
    [0xe7ebdcf81db72fd0, 0xf07ad5aafb214cea, 0x6235fb805314d7e9, 0x93ab3a1ec4ad5be],
    [0xabcd80e14079828e, 0x10a5aeb00a35338d, 0xe4b8a283c86c7dd7, 0x1e6f239f1cd9a373],
    [0xd267ba31d59c0bac, 0x274b96a395616976, 0xbe54151a7c6e3e3e, 0xf8b272d893f2288],
    [0xfd8a6ebbf8098fad, 0x858793e1e2a234d5, 0x538a8a8bed28c0a2, 0x22073c45cb975312],
    [0x7d9ef3085678c9a2, 0x70a0de6b9bda0ed9, 0x93bff18da44a4cf4, 0x5a2cdf46b89919b],
    [0xdba2cd09d8b9b160, 0xf6f670e64146bf82, 0x3b06d2ec84a5acc0, 0xb91b6af7828f5e2],
    [0xb3d7bc0d29e3e56d, 0x96b65915418a84d7, 0x5680cc8c216d5619, 0x26919b3ee33e46e9],
    [0xff5591b2e4e92017, 0x2ce475a1c66fd778, 0xee9c70737c137697, 0x1615d651e47167b1],
    [0x49fcfed6fdede339, 0x5b5ffd5522f93364, 0x2f43482f224541dc, 0x1db6ba6e18012adf],
    [0x644249dde49b63f4, 0x558753788e044d38, 0xb06bd8104872ec13, 0x157aee78ba392137],
    [0x8033fa7ba51f628f, 0xd929a295c4b2e576, 0xef5ce8b40e3d9199, 0x1bec3f9426534d61],
    [0x6fc5add588b1272, 0x7c6f47b4f340d591, 0x3905687b6d666d95, 0x1cc2614a3be0eef5],
    [0x3783190855c0f9b6, 0xdd921969465ce40c, 0x138bad0db4d25b8b, 0x17cc5ecfa4bcb4d4],
    [0x6ea3f433090d9ec7, 0x8fdfec6c8600ea2, 0xc1ba861f3bcb51aa, 0x2b71f219cdc5fca5],
    [0x389b56c510d3a61, 0x2c4cb7e51b23b651, 0xc62767fa60e37a96, 0x209098b02905832c],
    [0x391b05fdcab190bc, 0x6d87d0ac4ebfb8d4, 0x3ef43301055066d2, 0x22202b42235a0de2],
    [0x4ad076e296bc77f3, 0x6abc41ef694c8995, 0x1faa7904359cebd0, 0x27067a1a9cfa43df],
    [0xcd8da5233c655c9e, 0x60fd6570fe28c35a, 0x15b4b9f0b80aa682, 0x1dda2ec6fd0f92a5],
    [0xfe308b886a7f3f5a, 0xfb16a486be9fd88f, 0xe3625c948d92057d, 0x20fcbe551e628d29],
    [0x1090f0ed94cadf5c, 0xf0d2aad08d25135f, 0xa0d9502841aaa0bd, 0x102b63b63b6594db],
    [0xde608c7f44dac4f7, 0xacf681f189d29ccc, 0x362b28c1581c139a, 0x2665d2b3b1f4711b],
    [0xf8faea486693df0, 0x2ff960d361c91adb, 0x9e6f7621d96dab34, 0x2534e0a770bb0017],
    [0xa53214e9d15c8201, 0x1672d3b6387a1e34, 0xbfaf61a239c5f09e, 0x132de3965797959c],
    [0x183933737a8b8099, 0x5a12255c37ab51ae, 0x206c43daac752b76, 0x2b6fd7bc3a3b595c],
    [0x7b1eefd30677d2d8, 0x833b2bce7b84b6a, 0xeb2dca03dedb8908, 0x1b6466ab641f7f30],
    [0x445d4656c53653ee, 0xac7fdde73463e4b2, 0xf77ace87a47b0857, 0x690dec480f914c6],
    [0x6d821496a316d68b, 0x7e9e31d2218112a8, 0x6c2bbfbf47102e42, 0x65e0d65c2a3e178],
    [0xbf3eb146148b010c, 0x9aa73eefa9f6a48, 0x30b821bdb2614c5f, 0x2b5b1af812cfb77b],
    [0x371bca4455a37bb4, 0xa12e9ffba21d654a, 0x27a85f146221b30f, 0x260f7a81271cbfdc],
    [0xed4192f213a823cd, 0x926cfcd4627112a8, 0x75dacea41b360af3, 0x2a2b6602a481c044],
    [0x43dbfddf3aeaaed8, 0xce69f66151192d01, 0x1df0905abda34142, 0x11439386af5e2622],
    [0xd0901b3c4801e69e, 0x39b1a0ee072bff9c, 0x3e22a44c6002c2d, 0x230508e632c716e9],
    [0x32a65f1ec4e7bc7f, 0xb7301c6691d43e96, 0xe4aeb0dca528f14f, 0x23ce4e18ef472ed4],
    [0xa393066187a7cc08, 0xf456322620483fe1, 0xd421d4d488c4326a, 0x237dd8e70aa173be],
    [0x92b30b4af2c078d3, 0x6bc1f68ecf9cdc8b, 0x971795754e027a75, 0x24b0ab054d180e17],
    [0x1a39152d779bdecf, 0x65526a100273b8ef, 0xd1b33f9501ad22e3, 0xbaa7bef4cb2a2cb],
    [0xd22284165df08262, 0xecdb59d346486b99, 0xe480fd102a3432ce, 0x1fb9b3569c3be925],
    [0x31cd123f508fc7a0, 0x82741b5310581110, 0xa2d9bb44fdd0ff0c, 0xed3418179e711b0],
    [0xb0aa700e084f071, 0xfe75baa5e13ab2a, 0x815c645abb2e9ee1, 0x2e92aa6007576a4f],
    [0x4457b6d61c9a448f, 0x6d48dccb98510d8, 0x5d7fc7c6c07f1135, 0x2557fee713e3ed36],
    [0x9ee76c625c11d447, 0x73da00ad1619c740, 0x95cc477585c9fe95, 0xeaee37321492b05],
    [0xe858f3cec6c33f85, 0xf4b0946f6241dbb2, 0x3f315fab4f8cb8a7, 0x1b9c9d4230433a19],
    [0xcfefc8a2149a8583, 0x15d69335cd2371fe, 0x53d0c329ef114583, 0x35b1d3045381d50],
    [0x715cdde20acf4978, 0x54cfa78dcf1fda84, 0x5b62ef858612f4e, 0x2a0bf648759293e2],
    [0x491ed439c6b71c4a, 0x2e7aebb82e1dfec3, 0xdcaac3e88bf34cc3, 0x2d1f77f7bb34c7a],
    [0xaa1ed4b1a69b5261, 0xcc3cbfa5bedb57a8, 0x8e8fd4c14755443d, 0x63218d076827fb1],
    [0x42713d4abc351024, 0x4a054319988e721b, 0xe1893c4a5b0053c6, 0x2808b917c9417f47],
    [0x43e476bcda4e0876, 0x486f6db120056d2b, 0xed40c135675170ff, 0x4c1b265648f11a5],
    [0x4dec624dad8276c6, 0x281a454abdc914f3, 0xcf4d532c0f1876e8, 0x1c9625a781c3530e],
    [0xf2c5afdb8cb1093, 0xc7b4687b8c19aefe, 0xa4585c0d7b4a1256, 0xd9c2ef763966292],
    [0x5b3c950df899cf78, 0x207467eca352d2d6, 0xdc7be415c49d19c8, 0x11bacbb8c80b3cad],
    [0x7fe217cd50e3b088, 0x408f947e17bdf1ba, 0xb0332f142c0cc9ee, 0x2f38ca64de487d59],
    [0x6964b4e3ae230bc1, 0x582ca96b8a3fc12c, 0x7e91ad0b859f46, 0xa5b42f7d3ef308c],
    [0x1f411141884743cd, 0xe93bea88ed529e5c, 0x7da9e898fa1541a6, 0xca6578515e51c2c],
    [0x183933737a8b8099, 0x5a12255c37ab51ae, 0x206c43daac752b76, 0x2b6fd7bc3a3b595c],
    [0x78313887c521b66e, 0x17bc7f344eca7e2, 0x36db88648feeeffc, 0x986957cb19cc10c],
    [0x9bcc95fd6d090f50, 0x40597c6c2881225d, 0xb2a6719818a62d1d, 0x2df451c36b1789c3],
    [0x668c55a00ef22483, 0xfbbb2988c127c1e2, 0x15a949252d906887, 0x2bae223a93b08d31],
    [0x37664369aefc1803, 0x2fe15e2f4346d0e8, 0xbbb9e92d219b4a0b, 0x5bebef52bb08431],
    [0x73baced406d3e2ad, 0xfb80c08d5a2cd064, 0x29a3737afc113f6b, 0x18842bff3ff8988d],
    [0xa5671c10e6326be6, 0x348cbb2ee491bf33, 0xab4a2f2b5773ee, 0x2f78a8fabd2e977],
    [0xa0c11876117feb5, 0x3aaf9ea25f549568, 0x876b7f57f60d08ee, 0x8b3f1bcdba14103],
    [0x9066ad23dc8ad422, 0x8bb7c5805ad1a3e5, 0xc78e6c59133ed176, 0xe536221242a02f1],
    [0xfd91e70be78b472e, 0xbdf74d094eab5d29, 0xf7fc504db42dfa79, 0x2d906eeeb9d7ed09],
    [0xcfca1ff6ab6e0451, 0xa329957c10b2c448, 0xc1066a06268cdfe0, 0x25ffc50d32b7bad],
    [0x2a8d9f3946a59bf3, 0xf778a07b2520e0cb, 0x153667917050e800, 0xe77d99818d5d95b],
    [0x20bd7fa3a62d0dd1, 0xa61bf601c7c3dfe, 0xc13905ed7ee35a70, 0x2434b0943c80797c],
    [0xdcc861bfbe2e1c8d, 0xeb833f0c96c9ef96, 0x6e4a6670614d85b6, 0x15f77d11fb4fc7c1],
    [0xc6131e9cffcae8a4, 0x47a2eb9f1b8ea404, 0xe831f4d55d6c8838, 0x2e1db5f958cefae9],
    [0xeca2092dc55d4498, 0x1949786e6210ab9d, 0x1157bc26697d8e3c, 0x205947544c2d5c9d],
    [0x1593c0cfe351c406, 0x7323915fb2d047f6, 0x4053e5fadce4e75e, 0xb9ba62195d29f5],
    [0xf6c99a289db64542, 0x85199f5e876fa3c6, 0x4d408b2c0fcd0512, 0x233eee9f5e744bce],
    [0x21fe1bbc655e7dda, 0x62072bad77ff5a82, 0xcaa7dc40defbb1ed, 0x1818a3f0d1552f34],
    [0xafd9618a9be52fbd, 0x80e17c1ed150d4d4, 0x1cceccda4d723afc, 0xa8c36ed2f64ff12],
    [0x848e15e5d054054f, 0x555f49b0569032f, 0x21ee370836ae3b6f, 0x2bbaffb37541a9f5],
    [0x8eed629ffd6537f6, 0xbb728a48f2b81bc6, 0xfd8143aaff05c7bf, 0x2dce53865aec616c],
    [0x4312250deaf202dd, 0x354de33aea2f04f0, 0x91a0fea4b9d00094, 0x26a4a63df26dbff9],
    [0x790d65d0bfc2e15b, 0x584a9b07e9104ab3, 0x50e18f2443c44281, 0x47dae867b6ada45],
    [0xce6fc5ebff8566ee, 0x81cac88816b11ea2, 0x3a8d9db988296aa2, 0x18672943f827e283],
    [0x36f31085546556a4, 0x33b9ebfb990582fb, 0x3b518ffe145af6a5, 0x1979353fb46d8cdf],
    [0xa186998adfb5fbd2, 0x5bd83812ab056d7b, 0xa1591f7d190c74f1, 0x1b394c0b4ff11b67],
    [0xad6b771bf53a9c45, 0x945a30d1115a3e2c, 0xbab30d5bbf854cd2, 0x2213fbfedeb46fb9],
    [0xe321de8b75b5384b, 0x2da59067fc44b8a1, 0x427e894e35140234, 0x3045a6b98fe71341],
    [0xc1ef970b8510b0db, 0xb9d6d11e3d78ebc0, 0xc72ab3137afc2b4b, 0x1e560b922f410efb],
    [0xfe2b8224a4e66987, 0xc69eea92a5ff129f, 0xe7eb0c50bc654785, 0x793ace2e045d6dc],
    [0x183933737a8b8099, 0x5a12255c37ab51ae, 0x206c43daac752b76, 0x2b6fd7bc3a3b595c],
    [0xfa3751331c55a830, 0x5a274cce74cd1bb4, 0xfc24a7bb89b1a105, 0x515c94018effb2],
    [0xa41e8c5999ce7fd5, 0xe6a377f1f531c032, 0xcad64b4538521498, 0x228884947d2d1caa],
    [0x787cab498e4adf8c, 0x2a930e55198a0c8f, 0xa31490c899609755, 0x2d7bb807c37a5db],
    [0xa2340dd57823d4ef, 0xd722fe38420c7a6, 0xe04db081df667eb9, 0x15f5cb124b0a18bd],
    [0x350b3d50fdcff090, 0x1f9fb72def9246f8, 0x9aaf67a5b7f4f2d2, 0x2fdb6f2f83a138c0],
    [0x7e4dfec02f98c84c, 0xf76d10f01c9acb65, 0x38d62be56fe936e1, 0xdcf875be3c34cf],
    [0x2e430700993b4e3, 0x7e4ee87d51476bfe, 0x80d02644b9803029, 0x2f2bf29d6b76379],
    [0xf1ff3f457925f1b, 0xba6ce83246856c78, 0xf1e26721e1dc9207, 0x121dd63b185a3fbb],
    [0x58fc83f1140b4fc3, 0x2366241ee80d388f, 0x607ffe7efdc0408b, 0x20e79bcfbc14855f],
    [0x6aadabe71d3ab4fd, 0x994560d88ba2a093, 0xc0f1757612c6316f, 0x153dc31be4cd79fb],
    [0x1e65cd6051545ae4, 0xa5212e1ce314a52f, 0xef5f9807e60e1896, 0x13804b12bdb77d63],
    [0xf6af13147fb8bb22, 0x29f8ee8f8e52d85e, 0x98ff23c23a7c0036, 0xb6cecf0b0152849],
    [0x9c3a36910902f83d, 0x205686c01f9743e2, 0x2adea64c4789617a, 0x267f992fb1c5fd7a],
    [0xe3c44a82e8db6a76, 0x73d0be98da778fcd, 0xc6b2bba0db1f9145, 0x7c739e819b23013],
    [0xb4b6eec42fbd303a, 0xa96e1accf42af4dd, 0x56205298e4837860, 0x15da652416fc440],
    [0x6cabf73a192b372a, 0x3562acde29dc58bf, 0xc613afe1e38b71ff, 0x1c33739471d1bd4f],
    [0x515a5f5511c8c1f5, 0xde8dd7cbe69ec468, 0x1f76cc67e0e3ebf8, 0xedf8c7db59823fb],
    [0x2724c896bd3f517a, 0x980b65d6e0ec61fe, 0xab3dfac4f2696b0d, 0x8334b72ea2d0d35],
    [0xaa2f8f2c3346e289, 0xc75a8398df9b9a32, 0x6517b9b1e6d38afd, 0xf4329ad37ea22a1],
    [0x67f04515fe80c352, 0x56b946fd1ea3cc60, 0x564ec9b8acb6d3dc, 0x1f8d3e31cde1c2b3],
    [0xed30705c0e54a838, 0x5058d9e97d6a780, 0xfc118cde1013f081, 0x94a21c0489acb58],
    [0xa2e17cbabda7dab4, 0x7ac1c9e215749786, 0x2ef6d63daee9d342, 0x133b634d187f62fd],
    [0x659379937658f599, 0x935d8b176bc767f5, 0x97c2d24bf7daca95, 0x18e1b03bf875c00f],
    [0xa5e38737854159a0, 0x60137fa512cc7f30, 0x6206f354d85be067, 0x18242ad22da674a2],
    [0x25022247c790bb6b, 0xab6a87dd42bb950a, 0xc99688e9a9e4f7ce, 0x294268b5fe2beaa0],
    [0x5a7130b78ee8ddf0, 0xb68a45094e0c6329, 0x75e30eae082527d8, 0x1f13839b65eda778],
    [0x193732e5527fc69e, 0x278cc6007b1f7b0f, 0x902124eda3986279, 0x2baa1faf25902d89],
    [0xd74927d37e3a6968, 0xc15475a6c7ea5875, 0x3d701a040d8f9f35, 0x265cf033142c6d43],
    [0x369e93c3fb78cfe6, 0x90e5adf051ff5adc, 0x8286bf07dff4ab2e, 0x1c4eddd1412f0235],
    [0x3df37da56f7a3e77, 0x13c24c7372599587, 0xc6d37357a6df214f, 0x2fb924230c90e26a],
    [0x183933737a8b8099, 0x5a12255c37ab51ae, 0x206c43daac752b76, 0x2b6fd7bc3a3b595c],
    [0x73713083679489b1, 0xaa7b42e14a74e627, 0xa08fcd358d25c37b, 0x19e494853af32bae],
    [0x7ab06545d4f69b15, 0xb84418061ccbf2e, 0x23aba2f413377e47, 0x24663e25937795d7],
    [0x4436a984862ad41a, 0xb003f2a1b784c9b6, 0xae03a8dc12cc30ca, 0x28194cd3daa20ca6],
    [0xb91b51820e4591fc, 0x8d08abf0dc7e30fe, 0x772c99f896e7f27c, 0x3004d9469414f0a],
    [0xc84b4f4b543737a2, 0xf943302f37a462f0, 0xd831112c04dce879, 0x4a90138ae63af6],
    [0x113864913a5820b4, 0x33f072bc58cfe580, 0x3accdd09cf2861ff, 0x16328fe8bc9d3c88],
    [0x7e5178ff4832f301, 0x198230da53b4ddf8, 0xc048617882768a4d, 0x255342bb3760148d],
    [0x6c5e472b51cec0c1, 0x82fc12d2894d92b3, 0x98ec7fd0f8a70c3e, 0xa494240f29dc89a],
    [0x2c5d6419f86946da, 0xfcaa7c262861bf58, 0x899164e5bb179aea, 0x26d9764b65cb6775],
    [0xad646770a338ea77, 0x6d2ab80e7ac705cc, 0x5a439b650e5eb326, 0xdc64acc51842f22],
    [0xfc9ece8244426044, 0xfd5ba1fdbba49d3c, 0x8b946f03da9b3e06, 0x42d122c39416679],
    [0x55921003b7cf9cee, 0xe7cbadca0c792e27, 0x39a728fe347d6825, 0x20715b9135e15fd0],
    [0x535b10e19cc70e32, 0xa7d8df1fc7067728, 0xd9d50079c16f1a5, 0xb8465af4ffc725e],
    [0x1635b2a416b4e37f, 0x5561720c1a788675, 0xb5186604fb474669, 0x1b3fe32fdaf4a4c9],
    [0xbcb1177c96e0788, 0xbad124823940e12d, 0x4739dd9eb27377b3, 0x1ae2fdac7b7d0b3c],
    [0xbca34a687eb96a5e, 0x8da2b631d38d75e6, 0x4d1650f250bb0f8a, 0x1e6b8f955ed56d14],
    [0xd15f49520745c708, 0x7dc65a6e42198570, 0x74d877df14acf8ed, 0x262dc534f682c8f8],
    [0x99cc0037b0b16d6c, 0x8179a35cadd4f162, 0x2c42053a8d2b1fd, 0xf9a4f0271d5c6aa],
    [0x81a10ddaf70d9301, 0x7c50ffa7a82ff67d, 0x7f48fcd7271d8507, 0x6f078c71788acce],
    [0x15fa0b36e695185d, 0x20b33c05265a40cc, 0x519bd3a03935b571, 0x2416d74e36b42dd5],
    [0x6a39b868ba5da18, 0xb31ece021bd1e99e, 0x109cf8e6795b8af, 0x19efbe964add94b6],
    [0x2fedd8226d71ea20, 0xbc28083b0583bcdd, 0xebd0856679d5f138, 0x217825dcb0fb4a2d],
    [0x625a6b81e0ea6305, 0x4970693b65758673, 0x5dc4e51ea5f27761, 0x29ed9e1b8a1e7d0c],
    [0x6eddd3d1ea94e4bf, 0x6400cff2b012a94a, 0xc2826234a00c5669, 0x8e7139bcf5e35d8],
    [0x8a733d500a24f7, 0xd59ec85f8ad75bdf, 0x48ed409f32aaf3b7, 0x23b45cb45660417],
    [0x5116ef1cd29ab280, 0xe0824aa4671a2407, 0x4adc17e95a8dd0a0, 0x59e1a9cc4208e8f],
    [0x1f44e821a65434e3, 0xa018dae7a14db23c, 0x7835bb7f017c5fa4, 0x1084b6a7bdcc294],
    [0xa912750ed18b0d2, 0x9acb152108c586a3, 0x606d7f3e699d9565, 0xae92ed115475902],
    [0x4ed4c92e9d4a9a12, 0xa182f3068ed6c265, 0x2b75bd5e3d31e289, 0x11540ba858d36885],
    [0x90a04e4a2986b734, 0xb68667bbedb9d514, 0xeae3780c3b2fbbbc, 0x219ad9e087618d15],
    [0x183933737a8b8099, 0x5a12255c37ab51ae, 0x206c43daac752b76, 0x2b6fd7bc3a3b595c],
    [0x32702c652f103155, 0xcd863e5e9d0d07c3, 0x8bf68db182c52f8d, 0x1af405bd496121de],
    [0x627e965b8a7657c0, 0x21566e13887264d2, 0x786bbd630e10b6af, 0xfb5adb4f2ddee2c],
    [0x52564231fe1fbfa1, 0x2867087fb482f3fc, 0x43c26321ce6aaeb2, 0x5735d0a20981c34],
    [0x526673bf353d8efa, 0x40b5109771238b53, 0x915cabc11f61a2a6, 0xd5f25ea7cd06c95],
    [0xd77a0962acf14cb1, 0xf1df7a5c0afeec2d, 0x870806a1622acf7c, 0x276d9d19b50cc160],
    [0x68885a0c578d3c03, 0xd471193888b6fdf6, 0x234a94a2cf6a41af, 0x2d52da76429ebef4],
    [0x782e17e032b6f535, 0x6591447b8bf24439, 0x1b4f842e502865a2, 0x24f84ab4d1acc7cc],
    [0xb6b402a909dca262, 0xae6035caaa50bc68, 0x25501270c070b1b, 0x21069f3feb18a6d2],
    [0x1f9fdae630aef746, 0xda4994f08ea28a78, 0xb9432e5227ff5fa9, 0x1430dd6ac598dea],
    [0x4a14fdad07ef7456, 0xc1901deb59d89d69, 0xc10385217771bae7, 0x6fc0f56ea9867dc],
    [0x368a226bdf1067cc, 0xe2a2a43ecfff3849, 0xa52f31d1e92c2fa1, 0x2ae95e39f51c7935],
    [0x1d4c9db5d8a918f2, 0xeea5ca257e8c0ae6, 0xb9a2e81ddc1ea0cf, 0x2b53d9abe894c47d],
    [0x9b36685ab6c60a84, 0x13e5c42f35b1268e, 0xb7c3c9a72e5d409c, 0x18dd0925e43f821f],
    [0x4b9f4fe50174233a, 0x1eff834b46b15f47, 0xb97508280e98c10a, 0xff74b6d96a8d00b],
    [0x1f779395872e3616, 0x105a5145ca3e6dd2, 0x61f30c5c18b3e71, 0x18bfa382970f3598],
    [0x7f59b7df6e247b99, 0xc461c528a7bba8a1, 0xfa9cc5a39edace63, 0x1dee9f00f2b7548f],
    [0x649bcb3dbb8f1e76, 0x51683ecf234de99c, 0x1b6f928182d85118, 0x12c5810e9946497e],
    [0x93fefdcc7bc4fe32, 0x73fe79073f7ebd5, 0x8e4c34b50c3d66fd, 0xe5953881e72ff39],
    [0x52783f06251e1ddb, 0x446429956594b2f7, 0x51e4e8367c96fe57, 0xd25061d2528dd53],
    [0x7e91ada1a370e031, 0xb1fe86465b36f26e, 0x1f4baa64fd8a759d, 0xcd02124b6274143],
    [0x65ea2fd7c4fedfaf, 0xa3a8fceb3db496b7, 0x3be6863fb345539d, 0x2d524e2c0a167d16],
    [0x8e380041e0a43cd2, 0x4e7339f6a129f9bf, 0xd5cf6393f681db54, 0x9f6ef3fd9b8eb4d],
    [0xbb8ce25c5d93476c, 0x103b6e2f581a9a3a, 0x23e2db09d12cda5a, 0x28bf2b88d392ba98],
    [0x1e6cc386db38c373, 0x5c25e5032a2cd533, 0x51300a64f3cba7d7, 0x209e08cbdf5562b0],
    [0x8f7c9fa0663d51c5, 0x5fc5102cde0ace9f, 0xdd92cee432ee33b1, 0xe18e80edd86792d],
    [0xf60297100a9c4841, 0x92f7af2d407c1cfc, 0x6a8e0ff451cef39f, 0x27bd8795292bc68b],
    [0x230cc4f18a756a13, 0x811c037a0cc272f, 0x525bb1956015bb2e, 0x87d2427a36da27e],
    [0x5f07981790ffffd9, 0x464254d65c086e7f, 0xff70fd421eddd63f, 0x5e017f8cba3d41a],
    [0x225553a0dfc8e7c8, 0x60a093d33df0cdf, 0x19c66b722feea009, 0x2eacb959ae5429d2],
    [0x3e51212a974f05b1, 0x90d30d45b940d30, 0x2c66e0003c03b07c, 0x27a8c07ea7405599],
    [0x183933737a8b8099, 0x5a12255c37ab51ae, 0x206c43daac752b76, 0x2b6fd7bc3a3b595c],
];

/// Part 4 of the sparse partial-round rows for width 16, as little-endian limbs.
pub const S_DATA_4: [[u64; 4]; 256] = [
    [0xd08a9c68ce8fd58f, 0x1803430d4ae023, 0x6ee356367981e74d, 0x25b72e38946d8c14],
    [0x3d067d45994075ed, 0xe970d6edf8ebd7bd, 0xf444fc49c4cbb3fd, 0x29d3d7fe8af458f8],
    [0x90076bf2384b32d1, 0x700cf04dd9d1627c, 0x3dae0197322a98c7, 0xdc25ac6f52dfc61],
    [0xe04078971e3b80c0, 0x18f5da9221d3d6fb, 0x7bff10dfac94ee, 0xaf71c0bd1542973],
    [0x51723431dde17c18, 0xc493bb0e1f2a6b9, 0x25ce71e62d17eff8, 0x1406d8cf97827b7d],
    [0xf834053ab51296cd, 0xfd6acd5ce56db116, 0x209c9eef8004879a, 0xa177d75332f2aad],
    [0x8d723c7c86c130d2, 0xb5ae4f8ee14b2ad5, 0x7938dd58bc9b53d4, 0x1e42feea60f7d498],
    [0x7fccbeee2aca0ec7, 0x3cfdc3f7d8e10b21, 0xd2533f308d1c18c6, 0x2c5921fa4ccd767f],
    [0x72dbb91e40c56595, 0x94649478134d4627, 0xba6fc373c31988c2, 0xac4e3d803a6c602],
    [0xc758ce986289ecd0, 0xbd2631d93806a5f5, 0xe723b59d1a0595cd, 0x68fb1f094571ac],
    [0xb8f0722f2f5e8c8d, 0xbca3ba07b12637be, 0x730cefc698d6688f, 0xf5a472661affd8],
    [0x1c8a441786316c60, 0x516b1ad840cc01d1, 0xc92a5badae4eb43a, 0x2ed5af998e49f3d9],
    [0xbdfa2adcfb46dbd9, 0x5381830b9e18b23e, 0x5d7c287db82aacdf, 0x9929a608a525657],
    [0x72c8a5466ff9baf, 0x9bdbe0e2e5778055, 0xed40fb1369c7cb03, 0x26639e520710e998],
    [0x1d382aff5f7b3f3b, 0xdf51b0e1cd408254, 0xd4c773363b825191, 0x2b3225c35a88f757],
    [0xe4286363b4e1b99b, 0x8095022c5413ff1d, 0xee70e3e53341a06e, 0x1c1a368cc023f9a],
    [0xd473d38fc37392, 0xd44745fb93f4073a, 0x4202da65d65bb190, 0x1b39049a6f708829],
    [0x1f4989a0248ad79f, 0xf3c6040d0586eebe, 0x4f943c5a7aef551, 0x2b966bc8a897d76c],
    [0x6358a3ccde5b6c6a, 0x46135f565cc0efdb, 0x45bc66bd3374eea9, 0x67a2085143ae9a2],
    [0x4d8cea182aa76bbc, 0x3fb8ca146d9aa6b1, 0xf3bfe13f32df282, 0x27c3ead3d76039b1],
    [0x78b1087651446f60, 0x5e73b03f2950d5dd, 0xad3ce0e83305176d, 0x13ae8e66bda5f40],
    [0x78e66ffbe27018b2, 0x822a266e8f607999, 0x97998b79193846c2, 0x267e55ad34a87884],
    [0x9d5e901a584a686, 0x159a1376a836d298, 0x16171a8a8766faa7, 0x1a964c5c4550c295],
    [0xf8cc7e67a600d184, 0x4cf5479ae01d7549, 0x63ae93e53efdae6, 0x216cce9e5b6062cd],
    [0x7d0ec008fc3816c4, 0xc506fdeddcf56ad5, 0x1ba589607706769f, 0x175109dd08b4de44],
    [0xc6eeeb7283e439d0, 0xc7a9614234fd6621, 0xffbab076167ceecb, 0x202ed46ac0e68827],
    [0x3399a66959ee87e6, 0x3555c221ae8eff1d, 0xb63abad32d14302d, 0x2d265e49f35dc88],
    [0x4ac2b77be21d91d6, 0xfbe1ab6282f393bf, 0x185e6e8e689981a9, 0x593f84a55c9e3af],
    [0x4c4abae0a424334f, 0x3f2652e7e9e94c36, 0xfa93101a1b916e12, 0x2fc4427295d575a8],
    [0xe4da61c017e25478, 0x5d7c5eb827748114, 0xec343e616c0d93f2, 0xfd26a5a97c3cbdb],
    [0x183933737a8b8099, 0x5a12255c37ab51ae, 0x206c43daac752b76, 0x2b6fd7bc3a3b595c],
    [0xf65ca9935e0599e6, 0x3570846f3a9ed3b6, 0x242103f972c58d7b, 0x163e039587ae8bed],
    [0x7c40ce0c543df4ff, 0x680969a074eb4e1b, 0x46955fe40c29fe36, 0x17b8c9347540a0cf],
    [0x49a8453c7caded55, 0x5ffe2fba07a79e20, 0xbd1dd196dfd73eb6, 0x28939f23d63d09ad],
    [0x124565310b10caa1, 0x7f25fed08cebf1c, 0xd58ce953a3740bf8, 0x22f4246a101673a3],
    [0x5b7ea3a701ed0277, 0x8c1b7e228e8629c3, 0x23d2a973807c510d, 0x1335c6f50549b220],
    [0x11a64d0cc3cce9c6, 0x13503e804be95d33, 0x20d841583cc83873, 0x5cc88a2ab03f9f7],
    [0x67b1bece77601904, 0xaaecfcdadcbe71d5, 0xd8abf22861719b23, 0x2000d4715746fa36],
    [0xe715257f8b392e80, 0xa7de4f3fd5803521, 0xfef4cb1ae8cef326, 0x3c2c00765201729],
    [0x241ce56f386b5462, 0xc683af806ea1ea1d, 0x7b0d8aaa6f99d44c, 0xc5affc61d51001d],
    [0xac8566ad3a5ac417, 0xb77c125bcf530880, 0xe13b7530797e5b2a, 0x153a431981ad712a],
    [0x3cf321fdd666e8da, 0xa6057fa6f9a1627a, 0x7773d8011bbc0b61, 0xd2047081d9a8fff],
    [0x94b32203186e591a, 0xbc27e1ad12dbfb2b, 0x38dfb0e0200683a3, 0x2eadef1fd0111621],
    [0xb0293322e53253, 0xbae54ed2b6f37ece, 0x5886112242958d74, 0x21a05d0434000fb0],
    [0x26cd44bdeba475ea, 0xa6eaecf21c4fb9fc, 0x403a0d379561bc5a, 0x19732c8f836170ba],
    [0xf2a975c2e4380372, 0xba01341a79da4db0, 0x94c298848cf0d54d, 0xff30532e9f7305c],
    [0x87b3836581b06b46, 0x6faa676cd36e6acb, 0x8fcdab50d6d6e55b, 0x2afe8d3ea06405c],
    [0x9c360dccf546f80, 0xe56282d8f11d4cbd, 0xaeafc4597d69fa30, 0x2fd228d6e4c1a1ac],
    [0x71fab5a7928603c8, 0xcfb4d1cc0cd2d146, 0x9b4066daccb2928d, 0xc203a0ea25b7f],
    [0x6e4c2a2bc9b8e0b0, 0x6bae402e4d241452, 0xfa3aeb6274c3352d, 0x17ecb26056f6708c],
    [0x4f225f6f7bad7c8d, 0xd1ce3c915f4d3097, 0x7afe5d1bf955c578, 0x2b5745b27a5ba71c],
    [0x13c1a0cab8480c23, 0x8e8b414869b13ea7, 0xa166e53fa399fb6, 0x1a6eb6c48b529c6a],
    [0xe3c8baa49330ee36, 0xd945185ee9a213df, 0x180408d6006f130e, 0xac89d6b741aee6c],
    [0x8698c5e92e94632f, 0xd92537324cab25cd, 0x252134d79160d437, 0x86eca38e64cdf2e],
    [0x706d9691ee60b8b0, 0xe50f10166a0d442c, 0x9d1bf2157cd5cc3e, 0x2bbe2bc0467c7a4d],
    [0x6cdcf31386998d75, 0x41cb7a816d6fda51, 0xd879e8bb85b04473, 0x22c4c3d27515f300],
    [0xaf02f783219acd1b, 0x390966aafbb1f4e, 0xa23a603b4e5b47a9, 0x23e31259e8fdc69],
    [0x3769a1f64b469a81, 0xbb3ec267f87a2e8d, 0xbf7084d6d0be314d, 0x20c0c0f899d24401],
    [0xa2fb1dbd9bcfd3c0, 0xf100589f676649a3, 0x30490cadff1f3dea, 0x2daba47175558a59],
    [0x155b47e768af3417, 0x4fb90f509cdab694, 0x7aba2245608ecaaf, 0x1e759b766aa310dc],
    [0x323e7be8b546643c, 0x3085d0ef96408ea8, 0x30273e42ba704da4, 0x135aafeb5b230e0],
    [0x183933737a8b8099, 0x5a12255c37ab51ae, 0x206c43daac752b76, 0x2b6fd7bc3a3b595c],
    [0x55fe2ab037a64883, 0xf303eaf6bf539c80, 0x160984452b26220, 0x2ca2e70a3d8145f6],
    [0x6fbcd11a37023cf3, 0x6e0c042a5a8c6a9e, 0x7cdf99b53a8591aa, 0xb25881ede601513],
    [0x56298997a5781a7a, 0xe9b33a5e631fdda, 0x3c5cc4c59c87543b, 0x258b19d1bac9e53c],
    [0x33a3e58cdd3587d9, 0xd1a1d8d96adc6acc, 0x26c9420369803583, 0xd6e7177ca87aa33],
    [0x62e8ead282bbcab1, 0x9c9c7a801667ff2b, 0x4c426035908bdeef, 0x23cbecf6d9fd7bdc],
    [0xefb4dc6d923d804f, 0x8e8b17f9d133ed12, 0x733f8a6d3299c603, 0x2841e2ca97eb7de3],
    [0x8ef1c7ebcb5a203a, 0xe4a6ddc6d5a00a60, 0xb0ce01cbf31bed2e, 0x2bf228ab9b7490f4],
    [0xde95ff0507627f0e, 0x61d2b01397db24d9, 0xc152d5f7f850459, 0x22eb1fde7a1c175f],
    [0xe791d6e539e5b237, 0xc5191c3bc2a177ee, 0x1f2ee8c6b0af317d, 0x100932572c12a0bd],
    [0x9c48d6948bc24c85, 0xce4fe48f7bc9d978, 0x128ef0069c22a6e5, 0x27e881557b4ec0f1],
    [0x4bc5dc9fc2972246, 0xaae0fe4457e0fa0c, 0xaa26a414ab4f295a, 0x25862853fd1b44c6],
    [0x54bd7254b841ed64, 0x6baa8ba87d5b863, 0xf8d4503829e2edcd, 0x3947c7ab7d714f1],
    [0xcf3b026d6191ed47, 0xa93000fc38eeb1f6, 0x9e6b0dd8986b8865, 0x2676b506a7564360],
    [0x230dddca7b36546e, 0x202fcd2108aaba02, 0x3b68b11911f52425, 0x1f45ca8395b4868c],
    [0x82f9365ca3b2b44e, 0x8095b14c1e0938aa, 0x188c8487302834d0, 0x1b5fe89e54f508b5],
    [0x1dfa204e02b05eb4, 0xa04a060326ca4037, 0xf7ded17b954c8989, 0x25826f9ae3904e80],
    [0x9dd0b805dbab5c26, 0x941e015946d2d921, 0x8632622c82644bde, 0x2b5324e42bec4532],
    [0x1c2392271a51ee91, 0x76c6d50640829b86, 0x9447ce75dbf6c90f, 0x25e011cab809208c],
    [0x3fcb5d6f239a648c, 0x528613b3633d1dde, 0x6fd59ff7d75f03a, 0x58ffecff6080990],
    [0xd82d50be943aa00f, 0x9a8f591a8b97a673, 0xca8e18584b8586ae, 0x26f052daeaab76f2],
    [0x9d38bae5df81fcc9, 0x50c6eed0384e4600, 0x9925caf39683678, 0x15d305bc6e3138c4],
    [0xb0aee9d12c3c5fb2, 0xbd962742fcbb0a0a, 0x18370cc489da46a9, 0x16f0c3de9b8a76ff],
    [0xb69e0b7d4986b562, 0xbaa73ba9662ab7d2, 0x66b6edd41e255fc4, 0x137a4fc5e63da4a3],
    [0x1c7c23f186a75178, 0xcc4773967c1772b0, 0x7a763518797faf55, 0x25a59d3b46f5c8b],
    [0xcfe008d176be2c30, 0x6a92c05bc3afc953, 0xd26ca861adbfe9b, 0x13df1d61814fda2e],
    [0x9ed8d35b537870b0, 0xdbb27866e119a28f, 0xb40dd42feb664dba, 0x15b63fe5843c661c],
    [0xcaaf074538044a80, 0x70b69555ddf57948, 0x34359d75bcc9a5d8, 0x23352a3a3bae8c2e],
    [0xb35b4efe8e51e75f, 0xa2b789c4d9c273eb, 0x82e9fef6b9bd7384, 0x2d223c52d6fbcb0e],
    [0x1658173217492863, 0x507182ea07150558, 0x776faea01878bce6, 0x1f208f14c51b48c7],
    [0xb6785cc5c83b346f, 0xdaf26b85c4afd80c, 0xb1bce1299b1b043e, 0x194984a1a5106ddc],
    [0x183933737a8b8099, 0x5a12255c37ab51ae, 0x206c43daac752b76, 0x2b6fd7bc3a3b595c],
    [0x721f87736aaad803, 0x253364d311762578, 0xe9ea2faa6ce2d823, 0x28bdf0652d4964a6],
    [0x9427cbc02d57e6f, 0xc8ff500e97b8cedc, 0x5fdf6a21052477c8, 0x1183224ea82a68db],
    [0x13794515eb4e02d9, 0x7979f3b56b365496, 0x7c6b08cbd36f7cb, 0xc61d22c912bef85],
    [0xcfb0d53c90649b77, 0xcc4ff3c10562877b, 0x1c177fa9f2574a20, 0x2ee8c7f8684dedbb],
    [0xf47c5f10351d4705, 0x5863422b93da9e94, 0x4b15e38974273b5c, 0xf56193999816a0f],
    [0x8bbb68b637a59295, 0xd992e26d5a775259, 0xd37d6d211358523e, 0x90b70ecafba579],
    [0xe90826491f263752, 0x2cdd4d1d7208205b, 0x5a587231f1b1e3aa, 0x2de97266af0468dc],
    [0x8f370965f8a89669, 0xf1a6594ed0e1a8b, 0xc9af3b38d6c01cc0, 0x198553fff8aa46ad],
    [0xee85c22c110782b0, 0x1c04da6f3c803269, 0xa7053c24d7dbdea8, 0x192b3300ef2574b4],
    [0xa6bd7507b70fcef3, 0x5eaadfcf937d4ba5, 0x604d14833d0ceae2, 0x1f4c7a76da30fd0e],
    [0xca579af2e8856cc6, 0x27f2bf36142f681b, 0x761662d56b64c9d1, 0x11194b46ea91741f],
    [0x522e00dc9a92a087, 0x4c5031956805f6e2, 0x9428bd4a19847aef, 0x13233cba082bb157],
    [0x7c254492e584886e, 0xbf4b744ee1f1e0cf, 0xbd75d53cefe2992, 0x6fc54c9a27cabca],
    [0xf5604f77c10ba8ba, 0x812201a133bd14b6, 0x21f579a47d013cf8, 0x14870645f35e859],
    [0x83a669055ee9e210, 0x937e6bc629d9b1bb, 0xe0409bc96fbb618, 0x246344f1ccee4dab],
    [0x153e6bf86511e628, 0xe4bb91446e804909, 0xbc46a7834c66426c, 0x1e1c72c73d9444d6],
    [0x1082a1a4f7523754, 0x2c8f6e90e5a3cfa5, 0x8cfd078fee4bdbe7, 0x662c514923e4103],
    [0x5989232ba0776db0, 0xd54e9d40e7c104b9, 0x38bd664db0bba786, 0x25c7e06ac250334f],
    [0x36176de375fb2522, 0x8f833b7af35eb91f, 0x66712c86792d8566, 0x1c63774bb6aa72c3],
    [0x1cb15441881ade05, 0x9aea86fda813ddbe, 0xf31e2c3c4d214b4c, 0xeef372e915f3263],
    [0x94cbcf09b23b480e, 0x7f372c283f37b2b1, 0x22accef5a2a3794c, 0x29db12448c6eb734],
    [0x7fe720319e0dc7c1, 0x51f4765a5b9ffaf7, 0x571186b3847084d2, 0x161b72d834fdd269],
    [0x8e377447ded461c2, 0x8b680bb50eb6139, 0xfeb06521af0ef32c, 0x2434332138c93a69],
    [0x71aab2f531a85714, 0xd983e8a7952e3d1f, 0xea10be9b46b76871, 0x140867fa61caa3dc],
    [0x683771f9e249acd0, 0x345c308a37c66366, 0x88f737f229650cdd, 0x1e3877e58d7f25a9],
    [0x64650560c9715088, 0xe311ce8060a7cc1c, 0x60070a3f21c0bd37, 0x2e00f80aa5ba0545],
    [0x6730becd72f04fc4, 0xd8887dc3431666a8, 0x4a0f6dd66a13df85, 0x9673ea23dba537a],
    [0x2e471eb5b786a50, 0x54bc151f0b2da027, 0x7e607388f7c9b3de, 0x2a05b10d1faf68ab],
    [0x86d016e17b2fb22e, 0x602ce8bbc429ca99, 0xfe18ee679ee378e8, 0x2e8fb8bd00af6741],
    [0xbf68fe1c365c8c08, 0xbcb3fd0433f8778c, 0xda94772521a21ae6, 0x23cf3f042a56c7d2],
    [0x183933737a8b8099, 0x5a12255c37ab51ae, 0x206c43daac752b76, 0x2b6fd7bc3a3b595c],
    [0x89e073bda41c709b, 0xa8af698597287736, 0x6dd82907d89b8809, 0xd4d295bd6bcb671],
    [0x731a3a7081b2bcda, 0x9b6a1303905a9770, 0x9519054d8f0ac2c7, 0x14f8df38aa9592d5],
    [0x2c330724edbfbd0f, 0x7a7c0ef732216893, 0x4d35c53fa9cb6618, 0x27ca9533e2a56a64],
    [0xfa9a7acdf1377f07, 0x22bc24d39164850e, 0x337503c8c8a221fe, 0x1acea5282de35d35],
    [0x29147969fb120d46, 0xa75ca2c56b159073, 0x53d1cfffdf878b3e, 0xdde135f69d5ee72],
    [0x9fd8ca916579ce25, 0xaf7daf91ea5aff75, 0xd33d5b907a0e23f7, 0x8565cb565140d42],
    [0xf34c9a3329ca808b, 0x5abe738057cb00, 0xb303ed193e33810a, 0x19343a528505b6],
    [0x852d8173d4b080a, 0xce235c1b0feffada, 0x49d737eb4714d522, 0x9cd47fc8ac46b3e],
    [0x138257b852732a2f, 0x7cb01676a36c0d2c, 0x49291a7700eae831, 0x2b87d075e7fab298],
    [0xa8e1bc1ce53dbf4c, 0xc69c448afd1ce6aa, 0xd35998e4ebbd1769, 0x106694e160db35b2],
    [0x4b46dd0a5d72d823, 0x622acff6582dcf7e, 0x4ea17ab01fb85d94, 0x163d91a57022a473],
    [0x718ba233e2594408, 0xde75573c62d6e3aa, 0xc5a1361ef0a80599, 0x2b8cbbe66ed1e1d9],
    [0xa59590febd9b6020, 0x3b258ec726fc912c, 0x27f0a213cebe1a5a, 0x305e4c4a93d931f9],
    [0x3a4d2a612e56356e, 0xb19b9bc6e39b4da1, 0xd8c3dc0e5c791356, 0x26d0c3492063959c],
    [0xcc92d0d2e23a33bd, 0x129526fc2e626faf, 0xf821b9bd52d64fab, 0x2076ca2026d04b98],
    [0xcf1178849502d231, 0x66412132770be71b, 0xd266d3c7f2ff6d1d, 0xd89c4483e40c415],
    [0xbd20762324fafdbc, 0x4d862771c7543664, 0x10f41ead0e1a8056, 0x13671ddf2f49e974],
    [0xda9bd69f66f840a1, 0xe8834e40fd1f6089, 0xca4d8929129a85c9, 0x19694e401d2bd6b6],
    [0xdfd67c9606f1a170, 0xf09f56044461771c, 0x937f3798748bf115, 0x1a801c574279164c],
    [0x8c166a617423e588, 0x30fb9645b06945a, 0xf1bfd7620cedab2b, 0x7359e7661550f4a],
    [0x551b677b410c4274, 0x9d9caefc7dc7a1fc, 0xd171002e2e584975, 0xdc31ce178e60f8d],
    [0xa1edce3ded58ffa3, 0x378bfd0910f03835, 0x923b28d0f1e181c8, 0x3b7d51b2b8b3390],
    [0x7209fd1b3ba67aed, 0x745a7d26a47051da, 0xc7d517aca7f2c181, 0x20feaca74003f750],
    [0xc5c976a4aab0971a, 0x6d6cde6702ebe991, 0x2d223b3302e1804f, 0x7c71a9d84dc8d9b],
    [0xfd0e47fc946ee3b, 0xaaf735a7cffec5e9, 0x55d0b3a679eb1168, 0x1ff2e7a7045e92d9],
    [0x33796ca8049edd2, 0x20630d928dc93970, 0xd0a69ea967e9477f, 0x1ccad4ad13abfe58],
    [0x911c8e3dcc3a66b2, 0xaeedb456f30c1e12, 0xe945f05461d7a72c, 0x1d2277a4c8ac3e7a],
    [0xdf767ca50fe10434, 0xd251a774f44b7c59, 0xc13ef572e9e270, 0x2ec2d28dcd7e75e1],
    [0x8b3e742523c6a801, 0x89dd900b281e67d6, 0xeb92d1fd14b1ecb1, 0x2ea447c02e059970],
    [0x23dfd65703f0434f, 0x96202ec0fe11d13c, 0x5fdb460cdb1ae307, 0x2b4adec5ee014b30],
    [0x183933737a8b8099, 0x5a12255c37ab51ae, 0x206c43daac752b76, 0x2b6fd7bc3a3b595c],
    [0xcaa7bd27d22cb2fd, 0xa37668f94d8da890, 0x8549fc4b0e1b40be, 0x1784bd17cb096587],
    [0x7b68ba3601c364ef, 0x46eb16901093590e, 0xb3fc40ed430e96b6, 0x149f1d9787366b84],
    [0xf62d1c34c09cdfa9, 0x10da5e6a10ad20b1, 0x32e12df3ab587064, 0xe1161f13b91ea84],
    [0x807d19e59c4e6804, 0x7263f1183c92cc73, 0x60bc4d3e74aa3c33, 0x7e6d996431e217b],
    [0xbe9845f57e8bee9f, 0xa02cc362496e4992, 0xc71e71dcbc89688a, 0x2086834b2a03db22],
    [0x919237bf5b2c7106, 0xadd593b63b3dd3d4, 0xe6e1ef8ac83665aa, 0x1a593864d072783f],
    [0x8c96cde92b493680, 0x4cae3bfee0acc557, 0xec48539c6ae273c3, 0x1570ec833fe8f21],
    [0x87f2079c2581a9b, 0xb397a193f6ef0f5b, 0xe9114d3f2f19c083, 0x13b62a93db33b6f0],
    [0x2d80ad5ea21db875, 0x4f82397cf9f7dada, 0x66e2e0c3380cc88a, 0x2ab8bd24dd963ee4],
    [0x9aac3037daeef8e4, 0xfcd43650e22b22df, 0x725bc9633d2e5e67, 0xcedea082a17bcba],
    [0x61bffbe7243b616a, 0x6ae0e9c3bc184d78, 0x4b5ed6d81ed5494a, 0x5df20d895beb237],
    [0x61c8e56944e4003f, 0x6ce89bd340027270, 0x38a6e01e23d0e9d5, 0x1ab529db00143d70],
    [0x7e21e454f1ac83cc, 0x10bb8d9ed4c3fc38, 0x520c050393f949e, 0x2548c562cab2de54],
    [0x662b6a5e79e68051, 0xc4193a58193a080, 0x80eb09f15a15b66f, 0x29042d35cc97955a],
    [0xeaa39f2e0494ac08, 0xe5db315dc36faa59, 0x1a7b70216b5c74a4, 0x685b96bc1e8d70b],
    [0xf3fb440dd0b912a6, 0x9faa106756186b82, 0x8a2e9c306cf6f7de, 0x2ddbbc66fe69dd18],
    [0xa3c063443cc0945b, 0xeaeea2508829ae7e, 0x417aeea60b5d3f88, 0x18c70260e52a67ab],
    [0x9238ad515543a634, 0xe1e3180dbd45815a, 0x561e33fb0f913821, 0xfd423845f9f9970],
    [0xafdc2f284d95b1a9, 0x6ff2ee937057373d, 0xcab6957c11605b0c, 0x6715e87f1daa773],
    [0xcd615d4ccda0666a, 0x5b78a2dbb269dfbf, 0x4adb6d0f474ccd10, 0x20af32b63bd2e6aa],
    [0x6fdfa5904ef8d9c2, 0x8dd944f73c4378b6, 0xcb633251ea98d885, 0xa4333899e37c411],
    [0x20d7106b9416f3dd, 0xd561f827c54936cf, 0x1b22b5f3583d1943, 0x92b057185e62fb1],
    [0x1eb248f60ae08f6, 0x710bdc7a9c28b5e8, 0xcfc9e303a45a4ac8, 0x1eda5120d5fdf5f2],
    [0xf88a331e966db3d1, 0xf3b8004ccbc9a669, 0xdc8852ec1bbd5835, 0x1282a8b79cc5039e],
    [0x5a5d4743d5fff8c2, 0xef230324e7fdab72, 0xb1390d2b3652ed0b, 0x2335e0bc60883b59],
    [0x207d2d9da0f26d01, 0xa4ee65bdc1ab71f8, 0x551b740879ffb0d, 0x2e23e4d93a4b72ad],
    [0xbc058645fad01e55, 0x838a684e7c878024, 0x18d3bb646a203316, 0x1b06fee7ffca4196],
    [0x8735dcf90a77bdbc, 0x812ddf9a6bea1b02, 0x74fed6b3a88b1bdc, 0x66ddb3bad4a4b13],
    [0x777ab77ea3536637, 0xce0ef6695938cce, 0x124fe6fad719c693, 0x280b71aedbbd3761],
    [0xa00c26890b546e5b, 0x32f4aad07a3a983e, 0xe201071b3d0f6438, 0x21d130fa258f6e1f],
    [0x183933737a8b8099, 0x5a12255c37ab51ae, 0x206c43daac752b76, 0x2b6fd7bc3a3b595c],
    [0x9448fa3e463333eb, 0xe1ea91efc4464852, 0x1e5b3d53a4783555, 0x305f7337dfc2c659],
    [0x4e516d26ab655573, 0x84b909b85e5aa9e3, 0xa1c046ed0326666c, 0x1d69e17e5678ac53],
    [0xaaf34589bf9128c2, 0x1127a176d4f54547, 0xc9c9bbe3fe48211a, 0x1f5d0bf5a9c458a3],
    [0x8373912d8f9754ad, 0x723dfd37e56b0591, 0x60ae73862cf86c5f, 0x2385bad332ae963b],
    [0x4e7959269a17a79c, 0x999a7da1226c394c, 0x5efd8724adfd9b10, 0xd68dbe874d206f4],
    [0x87b468808b480c1e, 0x7cac685d60efd3bb, 0x43b54939686caef3, 0x27f8bff9822ba76b],
    [0xc192e34464560b24, 0x633136dcf1e68907, 0xbf91c08a642730c9, 0xf2cbf2fed229b81],
    [0x8d4901de0c5b3c1b, 0x22cc244222ff212, 0x29f062e38e360d9d, 0x27e6783451cd61e2],
    [0x928d596b13555f32, 0xd2cf5439c34d7b6a, 0xab5280b94660b1d9, 0xb0bf852c95f2476],
    [0x268cc4e2af130a2c, 0x7f64956d82c8897e, 0xc470489446df876c, 0x2b543c7e1d2f84fa],
    [0xa31a67517afd2fce, 0x63d5fb445ea19ef5, 0xce7172ed126f7cfb, 0x4367a2851e9b84e],
    [0x38bb9ff36b325a0, 0xa20e07d84206e4c6, 0x1fed52e83b1e6708, 0x1dc8a2abfce43702],
    [0x914963046e120d5b, 0xdf23d7db7c3c72f0, 0xdebbad8d9a426b52, 0xb217141d35c2aa],
    [0xc04a2eff94d33376, 0x562527b2bf1c812, 0xa65f4af68963f331, 0x10682c3505cec77b],
    [0x5af12a0ec0d25593, 0xa8ff5f9b49d93db6, 0xabc02bd664be628d, 0x2f3fa61cf4696622],
    [0x9f3bb23f3c32fd3a, 0x585ad279f4cc0602, 0x322f72888f6fd783, 0x3798c88da7c1c70],
    [0xe1aff4d29b7d23af, 0x9b9f36a18981b13, 0xfa5c27875fc9b035, 0x154b3f2f885e3d61],
    [0x228cbad0694d2fdd, 0xa1e2134de0405120, 0x91f46ae43cf78a2b, 0x45e3caacff06ee3],
    [0xe9679814a5ad4a30, 0xc690e1939658278d, 0x1edc3f7c366de6cb, 0x21a443268cf1db0a],
    [0x9bab96fc1ad9c59b, 0x523b5f86758226d4, 0xac21d000d9ab5d2, 0xfa574382520b017],
    [0x4c648f5d4adf5fb6, 0x67b6beeed4286681, 0xc3cf78ffe2f5fb39, 0x1b8f07226473c28f],
    [0x556429286ed6a2d8, 0x8b7957ad2fa3db03, 0x3232e5a41cc28761, 0xdc48483de7d0df8],
    [0xd4d2d0f147590eef, 0x56c04f4e600f53d8, 0x5d075b7f9b85443, 0x2327d3dacc8f80fa],
    [0x27d5cb8d2f6045da, 0xd9be7e86973b578f, 0x72c69aac579c9032, 0x16a6266bd6ed4292],
    [0xd15b749419255e25, 0x73953baf7eb68bca, 0xb62217465768138d, 0x9eb4e66285aa7cb],
    [0xaf1969c02c67f5e1, 0x6042cc6f8d411d2d, 0x7e931cb599a0bbaf, 0x15f3a6b27c8a2ce2],
    [0xfcae0e77ccae7bfa, 0xadfafc76eb313b17, 0x34c74c52420674da, 0x2727c9236d43b41a],
    [0x31f696cc993a3f96, 0x54bd9c13ba38a6a5, 0x2ab0d8dc78d7abff, 0x149bd00eb1da39e2],
    [0x77d5cc6fcd10228, 0x3eac6be5816041fa, 0x1767a124c3e03522, 0x13ebcf06a5c9485e],
    [0x6441da67c21e8169, 0x90831cb4df73c3ae, 0x2e0c55c1b1529b12, 0x22aec7f8873c7570],
    [0x183933737a8b8099, 0x5a12255c37ab51ae, 0x206c43daac752b76, 0x2b6fd7bc3a3b595c],
    [0x38ee29d5910fac47, 0xff18d9dd8071a39b, 0xe88e220e633519a3, 0x1d45f9fa11307f6d],
    [0xec09f674ef5aa160, 0x83fdd05a246186a8, 0xb7aa08800aebf47f, 0x215ff3e875d70ad4],
    [0x23495a0cf88aa369, 0x23284c2cfd05bfbc, 0x643fa2625cbd3e17, 0x1552de26acf195af],
    [0xfaae128f08e45168, 0x3813f5201323d302, 0x2d2e6cb1f1f66675, 0x1f9836a1eabee49b],
    [0x7cd60fdf5beb779b, 0xa301a71ed710d464, 0xe258f3f812dabf08, 0x1f8cf510bcd58b2f],
    [0x84c9b6515ed45674, 0xc20a764476160948, 0x2de44865a3ac149b, 0x2c446f645eb66115],
    [0x6ceba81b8dcaae, 0x1f4e44044dc0f3f3, 0x644bb787fc184aa6, 0x50a3718e48640cb],
    [0x6cce94999cb09fb7, 0xfe5dd772f6786fe9, 0x6712c7f348474fe, 0xb370b71f98dc107],
    [0xc03af83f7a7e26f2, 0x808c058b4b5a3633, 0x8612b150cdb25b30, 0x287473939b5c4756],
    [0xd356eac51d0d513c, 0x1b963562999125d9, 0x826ac5afcd6ec372, 0x1f5ec7598f6da577],
    [0xeb1a9c87ff91e58b, 0x405dc510ea89e33, 0x96f58585e6fc80ce, 0xa9850058f74f31],
    [0xdbb6a1e70f262a23, 0x6adbeb782538809e, 0x8aee2ff956f45c3b, 0x22227d59d1ffc32],
    [0xb24d41b1c784e448, 0xe0d802ed6af49d30, 0x85f9f567e94b1ee6, 0xac7b869caf4e715],
    [0x1c85f501ca205d43, 0xde5a4435fae1bcfd, 0xd824e101c3732425, 0x6d671ea1fc8bcd0],
    [0x8cacc9cb40dd5799, 0x143b09a951d13661, 0x4f4ebde86e5951ad, 0x6cff4c2918d4ce7],
    [0xa2687446184347aa, 0x6669f89d79225a7d, 0xa0f1a582077e8e5f, 0x2d9f0ee4ed51e979],
    [0xf830499e14f5e06, 0x12feb26584b2a4b5, 0x68e85b0261793003, 0x12dc6ad0e0daf287],
    [0x9c0221fc9873d756, 0x23e3d9a8a51a11d2, 0x514facf931d71a3f, 0x2f94df6b211d8a8a],
    [0xfc297d43db2bd030, 0x6c27ab5d4122c001, 0x19cd02af760d5628, 0x29ee741287f545a],
    [0x60181ed36c0df68f, 0xf2e3c2577927390f, 0x94d64b500aca3b68, 0x7d43ba525c44a8],
    [0x1f4f76da5d9e5547, 0xd78905ab39c177ae, 0xa0f9fda731b4dfa0, 0x252866633477b3aa],
    [0xe3e67304c8fa8d44, 0x1ebe5149e61cf3af, 0x3200db8f91473343, 0x2308ec0db73437f8],
    [0x30fd31eac44c56a2, 0x57e839b8ba8c9c74, 0x9e59515e91c5be69, 0x517e4ee288992d9],
    [0xb006204a50e596cf, 0xcddc2cfaf2b582bd, 0xe22f1e988b9d8450, 0x2ab15d8887615c04],
    [0x50eb7e1b6662a557, 0x64962c8af2a8835e, 0x3004391adb07d5ca, 0x116e33a713748ad9],
    [0x209ddd504923f50f, 0x616d7277091afb4c, 0x4ef5619127e8cc28, 0x68150e1248e7ae4],
    [0x165954fcd86a1e4e, 0xd71b037049f90493, 0xbc87a93e4bb67e6a, 0x1e9e3d2964594dd5],
    [0x9f34f476f9496911, 0x5aa8679977cbd277, 0x3a5ec6b3cbc81def, 0x1751f2e99cf8cf64],
    [0x110c724cdae048d6, 0x22ca98b983628d7, 0x74dbadcae0db56cb, 0x248ef2921bdf968c],
    [0x5237581257354352, 0xcd405ecb52b28c21, 0x610b201535bd42a2, 0x2fb6d1bd57da1cc3],
    [0x183933737a8b8099, 0x5a12255c37ab51ae, 0x206c43daac752b76, 0x2b6fd7bc3a3b595c],
    [0x1af61144986866fd, 0xec563e8840cc28fd, 0x8a4d1b02e78aa4f, 0xce40ef4d37ae580],
    [0xc78280f0ea33e337, 0xe40e98a346afea85, 0xe4bb20f756a08236, 0x1f94afec8fa62f53],
    [0xb2a5f9339d6f5e47, 0x65b3b728d8af12c7, 0x41a7176ca76674a4, 0xf2164352021aaa6],
    [0x664989ae08d00e5b, 0xa742f3059fe12bea, 0xb3943987397e8c7, 0x1b86c9a7cb828752],
    [0x9a0d0be04cc60b0e, 0xa941229180bed186, 0xbb2a2f96098eaa7e, 0x11e4db5228177f30],
    [0x8440207c15eda844, 0xdda29ebd7da3054a, 0x24365b51a0970028, 0x6378bcef2ce91bf],
    [0xdaa39484ea78ca65, 0x7252f4dd8c3f20ee, 0x247a83c74eba36e4, 0x192ef0949ebb3224],
    [0x3941bdf32d38fed8, 0x6a76b8b3f7d51fd9, 0x3d7a8c2acb29a4f4, 0x21c1cae79f5fa828],
];

/// Part 5 of the sparse partial-round rows for width 16, as little-endian limbs.
pub const S_DATA_5: [[u64; 4]; 256] = [
    [0xa7832c18b1b13213, 0x1100ffe23ab52e88, 0xebcdeb84cc58f03b, 0xfc260daea1f470f],
    [0xc2228ecca20c395e, 0xaf9a3ab798fd01c6, 0xbe3fee5025672ad9, 0x1f6f7bc07589916e],
    [0x64c3609ff78c18dc, 0xa4a85d9d9d3817c3, 0xfeeb697b87ad973b, 0x197e205923ec11da],
    [0xd883277d439fc00a, 0x99959d415d00857c, 0xb08aa314b2d261c9, 0x2935c393a884a244],
    [0x1d9018c0a87b1916, 0x7b6538d83fc1c754, 0xec7aee01a854471f, 0x2c639ac544a75088],
    [0x81d24de864ef4973, 0x2e1a30d1a9b2c5c7, 0x843c10e546ced057, 0x25b2c9c2f413762e],
    [0xeede53d3513e0317, 0x28268e15a9d754a5, 0xf72fe8cd4eadb8bc, 0x1d28735cd6da088f],
    [0xdb9869c0d0b1661b, 0xbbf0aa33c807369a, 0x2fea4671a502abce, 0x205c309b41e6c8bf],
    [0xc5b931a730416e0e, 0x3a384cdbcc2b65f, 0x24fb4e8b95c21881, 0x2e8e8dbf8f9ab3be],
    [0x611103fda64b098e, 0x5403d1765c4bf47f, 0xf70fa6ce6e111ad, 0x20e1291175551be8],
    [0x6703db5c217054dd, 0x839af34529c97229, 0xb8a951b5d348853a, 0xba9120de0cb289d],
    [0xf7cb322402264620, 0xf6b104e56124b35a, 0xd90346dfaaf3554f, 0x2898c38f27c64311],
    [0xb5741326da3c688e, 0xb43dbdc6d4d1eb52, 0x1ce18e59928e04be, 0x286e3762e815adfe],
    [0xaf3e4bbc18cb75ef, 0x97f5cb70e90624d1, 0xb5fc456dd8e7b1ea, 0x2d316495c1c92a8a],
    [0xab91acf7af3ff347, 0x5dbaac998dcc275c, 0xbf197de3dbe8e8cc, 0xdeb856e2bb0ca11],
    [0x302ee67f588d1eed, 0xb20f31484d684b97, 0xbb1beeccffc7c12f, 0x247b87e0ea690afa],
    [0x53a4536884d684f9, 0xc27bdd619f85a8fe, 0x641b7f41a31c8a2f, 0x2003afe0fe29cee7],
    [0xc04f468837112253, 0x9cba18e0bfac725d, 0xd5cf3d56c8865d93, 0x25d9c2e2d66052c7],
    [0x3677e1f494d13144, 0x865dd77e6b58797c, 0x595c4ee4dee4ab3e, 0x1a711ba1a3eece6],
    [0x5e199b9596ac9a31, 0x5bb03d7a1beae04, 0xf077f29b06acc033, 0x7c74f66ff199856],
    [0x721db0ba826fe704, 0xd4359a6cba7738d9, 0xd0e1a077b9e9604a, 0x1a4d513506c6ae66],
    [0x6ed02e4036142ecf, 0x837e53b8e615c2d4, 0xb8044ae3faefe81d, 0x172f82b5caa7f65e],
    [0x183933737a8b8099, 0x5a12255c37ab51ae, 0x206c43daac752b76, 0x2b6fd7bc3a3b595c],
    [0xb9bcca742e0a9db8, 0x7c71e461de2ad166, 0xf40a709788a4fd60, 0x1c81a64c5d581191],
    [0xe3532a5a11b96b94, 0xec54af7ceba50805, 0x2773324ead048c3b, 0x65284960bf09eab],
    [0xb16ef051369fee7b, 0x8b9b5430d81905bf, 0x56c0fe63af46afb, 0x234f635b921f9d7a],
    [0xa585d9410f875be5, 0x811d5e69b44f3b86, 0x4d8d9c4bf6d64db0, 0x1488199577c50021],
    [0x98a508bdf9c225f6, 0xaa6b5fb138d589db, 0x21cc637d8a4c5d0f, 0x2237a1388bd89629],
    [0x440d1e7d40063ed4, 0x33ad93e907304fb0, 0x2ac20793f4182a7f, 0x1b89bdbe9e9ab40f],
    [0xc4ed56aa95ad8c7f, 0x127a395f6800ccbe, 0x508a73ca1dd8983, 0x20bfe61092f2e5cb],
    [0xc29c8dae08df2ec4, 0x72883ceb42c2b829, 0x70896d7606a8f5c6, 0x5acd0c7611cfa91],
    [0x1741ef841681e0a8, 0x5940e4a1191fcd2d, 0x3094c93bcf17a8e4, 0x2e3a22fd34491f15],
    [0xf715b85b5cdae979, 0xc337137e9ac1f945, 0xee6f588f825b8b28, 0x26504b2d5b079c4a],
    [0x2975fa10e9f2a895, 0x86abe8f18838bb54, 0xb23d8bbf86efe15d, 0x201fbd4f4c9cac24],
    [0x8b9ee470cd64cbbd, 0xad84ffd092241c02, 0xa90cb50c82f1876f, 0xb13dc6afd9a8566],
    [0xfd869ef36f23159e, 0x3a5940c647229be0, 0x4ea816a54daecef4, 0x9c0853fae2070c],
    [0x2b531d57d7a7d645, 0x4b20253b3c172a6f, 0x1bf021460cb129cb, 0x1a926cac03b4e6f4],
    [0xe328c3f0baaf7a5a, 0xa2d977932521f5d7, 0xa9083193b17d225e, 0x2334c0b56015f6c5],
    [0x617a208a9e38d208, 0x6594411a1381d0bd, 0x3b0c5763eee04fed, 0x2cbf73905b5489ed],
    [0x6b9a31b963be7bfb, 0x3b9e7b5708d75bdf, 0xf226649871f8fc8, 0x1e06c4d1e2edd553],
    [0x3e34bff953b24b00, 0x8a2a961daf708f5f, 0x4ccbfb785d01ab89, 0x260c2e5e5364bd91],
    [0xcf04df33e95532cd, 0x8c2c1972b4823f4d, 0x56947b136c0dbd5e, 0x26689f7259e10611],
    [0x6e342b3c59b6d73c, 0x935852eb699daee, 0x70d44db58d0060e2, 0x291df0e62b563da6],
    [0x7a6378b30be1c683, 0x7829cfc39538b78b, 0x899134c8079886d8, 0x14e05591b9b889b8],
    [0x33b7daca12ed43db, 0x3117f6cba0355924, 0x56cec6d1953e0f6b, 0x2be6bdf824d2cccd],
    [0xc6bb9483ab6f9a8a, 0x331814ae9640071c, 0x1cd309dcc57d0c6, 0x1dbbd7c3c3ca0eaa],
    [0xf240b7f7944e9264, 0x8a5c5e03d609e61d, 0x1b87cef94237e706, 0x2227b2d097959173],
    [0xbc6c2a73fc4a2786, 0xe55aaedb36e3d54c, 0x1e5727529ed92e6c, 0x1d351ed4b59e4657],
    [0xc2fd2dd78ebfe499, 0x3a9059b261b9f5b, 0x4210acaf695e5d8d, 0x2312bb7364e690f6],
    [0x7d64847d81cdcbd4, 0x5f6d55bc4be421d2, 0xe81fc949f72956bd, 0x1532d3c7fefda9a7],
    [0x72cb63e25fd58101, 0x581c2102c1720544, 0xa671ff4989f5f7ae, 0x8916c1ca3dc2d21],
    [0x7ee586aeed025ca, 0xd469177c78a0e771, 0xf0832fd385952688, 0x199a3556e4c7a370],
    [0xec12d7e6b95faa92, 0x49d004fbd16bfc50, 0xd1391582ac26a542, 0x4297e87f69747da],
    [0x183933737a8b8099, 0x5a12255c37ab51ae, 0x206c43daac752b76, 0x2b6fd7bc3a3b595c],
    [0x6f2768f59a8457bf, 0x2b22e531454a1da2, 0x2357db637c891072, 0x63db3a46c3e1e82],
    [0xe99aba4d04c46b2f, 0xb1a9dac086bfec2c, 0x57289068ca1bd6dc, 0x82793e5ecd44bfe],
    [0xce02df0e7c0eec0f, 0x85dd94df40e39dba, 0x47a3aa13e7b57a4d, 0xb5214e4d1f22279],
    [0x14c39eb1ae15624d, 0x7a7bfd5c5e13b045, 0x3e8f2bea040a6f83, 0x15fde89fae0bd559],
    [0x1fc7b55402510f1d, 0xda626a4d0c39b268, 0x9f7a165585ffcb5, 0x27e7e6eea8791991],
    [0x31b45136618255db, 0xa3676229dbc745e0, 0x78cd6367971caf87, 0x82b46075b3da1e1],
    [0x70839bae63df4872, 0x7fdcfb1bfccd46fa, 0x4f77547f3b9f430b, 0x176668330b14e97d],
    [0xd3f04143122e5a9e, 0x98094de2cd8a8cf7, 0x38bddb9c1d9db419, 0x10104450f5b03a06],
    [0x4b252ed26cc7b68e, 0xdf054867661c07e4, 0xfb7c16b5380aad2e, 0x18c84287abb1d81a],
    [0xdc417fe7df3bae7b, 0x88b75f0376b1923f, 0x598fe4b0ff7edc4, 0x4d7f1edeed756ae],
    [0x89ee730449207658, 0x887dc632c0c86b43, 0x3072f71ef9d83e31, 0x16b3bcf2e5fe2854],
    [0xe6a263f759a43797, 0xf2ec826c08eab0ee, 0x6533c1f349391834, 0x2f29c8f376d46294],
    [0x6f8c959a1efc3344, 0x582128c8ac5193f6, 0xe223f5b9f0a556ce, 0x20d394abb3b23967],
    [0x4b9ff06b27a792a6, 0xa1c46333dbd97919, 0xa978fd184ccf152b, 0xb207d38d762517b],
    [0x1825b72f6da517b0, 0x426ffe92c2bff0d8, 0x95b7059f6ad8e0d5, 0xfadffe100a58616],
    [0x4a8aca2f4d3cdb4c, 0x1ed193b0edcf46f5, 0x8234d886bd169f05, 0x279aebdde647b411],
    [0x7819ce95ca2df6e, 0x118f319409499fa0, 0x75f4e64c32fc2ecd, 0x119f36daffe8b2be],
    [0xbad0caa161b1bb0, 0x7bcef634ee3d02e3, 0x5fd6bdb02918b14c, 0x1242a6c181fe90f9],
    [0xc1dd01de9ead8dc3, 0x3cd72d927c72c69f, 0x8779f6ab0d770bcd, 0x13b4546c3da77fdc],
    [0xbbbe28a6fc401f71, 0x5abadf9f458f70e, 0x423ecc2271c59263, 0x888fd59a93f104c],
    [0xcd00ce4f9fd05e39, 0x409a73be3156a865, 0xf8ac148e53991882, 0x25a8ff35f85072e4],
    [0x47960b505601a7dd, 0xc31f93a68a3b8ffb, 0x83347f0fe5632e3a, 0x11ebf2fa3b302121],
    [0xe41df75d2cdd213a, 0x9c500603eaf4ee69, 0xed9d43e772fbe780, 0x24e547cf052f879a],
    [0xcb66e5eeb76125e6, 0xbdadfd9fcdf18f1b, 0x1235ff75ce1128c7, 0xfc85a22c05e5ea2],
    [0x6dbccc7028bf19f, 0x57335582e4768461, 0x99655ee856b94ee7, 0x2a9f2576a85c8273],
    [0x8969b371a5d1f2dd, 0x6a6cb0a2f03c621e, 0x2718e46b25d797b5, 0x13a5b0372ba5ed8b],
    [0xefc464ec3577f253, 0x8c148cea1a09bbcb, 0x6989013b1db59f8e, 0x2cf328cd5a7f1631],
    [0x5ba99738369762f2, 0xdc88e311f87a1a9c, 0x68b4ff4da059a1a0, 0x2c6f8ae3d08a5280],
    [0x575f5697daddf530, 0xdae306505c70d5a0, 0x94e36f575eaa0aa0, 0x2108fe376f8ae976],
    [0x153757231ad22cb9, 0x71117d663e3be0f7, 0x2cbb8d2d3b81cc5b, 0x23a2991e713b0102],
    [0x183933737a8b8099, 0x5a12255c37ab51ae, 0x206c43daac752b76, 0x2b6fd7bc3a3b595c],
    [0xa055ea754902c75c, 0x95b37e5ebee77e1c, 0x64d4351a05731b, 0x1e9d125fb7c35dfc],
    [0x62d653ecab381599, 0x3ccbc80a2f0da6c3, 0xefab4076c479c983, 0x119d649d362c0f09],
    [0x66618f947872c35a, 0x30ea21f79f3f1120, 0x35e376127d33a34d, 0xb682593d09250dc],
    [0xbba706d9e1371733, 0x9d280e7c9025defd, 0x5f1bb409f530b779, 0x16670c641709033c],
    [0x8fbc7317375e8da, 0x989bcd030f2a54ff, 0x71311a22728aa5de, 0x16013d4393fb3168],
    [0xcc38d40cb525937a, 0x74fef8ee3eae40ca, 0xd22a8d824b75d8a4, 0x2a7d4518b4393070],
    [0x23782487fd6bfdb4, 0xca01013651b3875, 0xd09a9c72bbff55d3, 0xa2af4ab955f7dc6],
    [0xe19b4573ae413940, 0xe2c8039d68ccab74, 0x58eb662ec8b16dea, 0x4fcc21d258b2704],
    [0xf87cb2821cf684c0, 0x3bfff9ceb1d4070, 0xaa9a2cf2eb9ba2d3, 0xb5547d0028fa903],
    [0x1f2696f453c0e0e3, 0x1546b58540f46062, 0x9e0cd8c331a04aeb, 0x4eb04b4aa22c6ab],
    [0xe80843f2511af23, 0x2a31ae4ac34dcbf2, 0xa306317b87227553, 0x27757b5fad20eb99],
    [0x3fd2eb7bfff41e67, 0xa55aba69e7ad0fc8, 0x827ccfffcf09d470, 0x23c5cd44bdc3e761],
    [0x985df2fa8c47c25c, 0xbf85d082215397b8, 0xd65febe7d1868754, 0x21bb1a37cc6a1ca1],
    [0xf2c3685f601846c, 0x27508e58e8a578d0, 0x7d3257061d226085, 0x2050602a2f6da411],
    [0xa8cae98ad46afc16, 0x1549fbb0dba65e33, 0x207040a5f1629dc6, 0x2a896c598d40d992],
    [0xc38ff9f6d630e34a, 0xcc3f571380db66b1, 0x1c338057e1c67985, 0xb2f10b968c76b4a],
    [0x18f07a5ebdf3c191, 0x85b736442b50f32e, 0xeb0817b56839e3bb, 0x7a1e6e9dd512b10],
    [0x86225a55ca1a9f1, 0xf9021d0dc8d318ef, 0x36597a74ce362796, 0xc0a72a484345040],
    [0x674a0ed2d802be72, 0x24ad603b676abbe3, 0x85186e7d604e5e4a, 0x28e3e34de5c1de1c],
    [0xeccbc2b2fc5cbf17, 0x1bf4c6398104c009, 0xb03850d677928f50, 0xa6d55bc7826b1e2],
    [0xb5ab12cac26322a4, 0x6ab0dbbdce57f1ee, 0x10513182d5c54efd, 0x2c042a68d06b5f71],
    [0xd1279b6722f151a3, 0x9d4719a8d7c33a7f, 0x28f1fa2ef21ce8be, 0x18cbfbb6607f28f9],
    [0xbe39acb676ab36ec, 0xbb9bf4db88bd3e44, 0x329b2dc40ad3b116, 0x2d7e6e039f81c66f],
    [0xc3c600df5d2108cd, 0xef388d04aea7f10a, 0x928db18f630e47aa, 0x2ba3cf36a0580465],
    [0x91678c45fc948b2b, 0xccc0c149c46a935d, 0xa8bf3d0a18ab068f, 0x2403116000d75fb1],
    [0x805f715d7a9f9e50, 0x3f2974710e9616b9, 0x54449fd14b3a2dcf, 0x62b5c358a189219],
    [0x2bfa3f35f323e156, 0x77c22e0a80bfd0fa, 0xd15fa3fc56a517c6, 0x14307431f749d428],
    [0xd059e0fc83037a57, 0x5436186a5f9f01f4, 0xe379bc0f7474cd23, 0x2c04854c96aacea],
    [0xe0327419880b484, 0xa05b0c4b8da6dc5c, 0xec3b4536325f2845, 0x1ba6107ff34a8cb1],
    [0x37e7fa56e13ff4fe, 0x4da78d4dcdbb6d14, 0xaadb17219fb4a0bf, 0x1e7b9fcdcabb49b7],
    [0x183933737a8b8099, 0x5a12255c37ab51ae, 0x206c43daac752b76, 0x2b6fd7bc3a3b595c],
    [0x50ef48a93752ac5f, 0xcfea387ae1112be4, 0x7d94c82d24b714e3, 0x26968495cbd99f54],
    [0x77b78e26a054b978, 0x8c524c6b0bd51207, 0xb8b6715e69df13d5, 0x1ddd4f2ebf1e1ee5],
    [0x8bae6bc325392c75, 0xa385b5badab8a10b, 0x14fa40e37a4f9e45, 0x1771396e072f342e],
    [0x42bd8970c7d3f31e, 0x22ddc5deac72bfc9, 0x58735203dfe259c0, 0x1334b3e12b51d4e6],
    [0x325ae5f7611d3f5d, 0x2314b9a88094a214, 0xed42c4ac674ff86a, 0x2e7aef8fc027f0f4],
    [0x659909f18ad00789, 0xec93be84a18b260a, 0xf37adcb96812010d, 0x2f66d8f2e4c63cef],
    [0xb465939af409705e, 0xd33b613444a63823, 0x6b90d7c7f0f33007, 0x1cc80a4e8114c208],
    [0xbc5c5a1c9655135c, 0xa2370f23f80e2b5e, 0xf67fd43fa3739511, 0x4eee4396019744e],
    [0x3d5edb7a5a25afb9, 0x8530588823a2f83a, 0xf288779980dfc0da, 0x28ba26ef284bc535],
    [0x28d2ee1d629b4d9b, 0xac2850195fee0c5b, 0x398ac84f33cfb557, 0x2fd84d8520146a01],
    [0x27cbea8897cbffdf, 0xa0a1cf4104e493c3, 0xc227a1adf2a6ab52, 0xd831e57b1adcb20],
    [0xdfb07aa8e685030c, 0xf28f32e097e28cdc, 0x8ece2b61971b0c83, 0x186b1b6b8ac98a03],
    [0xce3f6546696d9975, 0xe499c8913a3a1a2a, 0x4bfccc6d06d6ca99, 0x7630c5932b486e7],
    [0x354e1c814babb896, 0x854a0bb2584c2d35, 0xaa02eec6a46e19a5, 0x2ea3fc0c165f38d9],
    [0x5793bfdd5dc07395, 0xd2132531a7367c8e, 0xcda6620317b4d088, 0x1c62f3196e53f51f],
    [0x5ed6a29113caab02, 0x875744c5169bfdfa, 0xa273a3ee1a159f18, 0x1f352e27dd80d315],
    [0x521d81fcf62cdcce, 0x25eafd71dafc86ff, 0xaaa4ecb2b4fec044, 0x193d8985e3f9126d],
    [0x8dddb62a5241bb94, 0x7939342ec2a6f2d6, 0xd48e925fa831f126, 0x2271c906b9605c4d],
    [0xff469b1e679b7df6, 0x48ddfd6ebe990e91, 0xfd10584116d3b5c, 0x32817d35a0d57fe],
    [0x294179bb2c076221, 0xa7f419f438fcf829, 0xd0e4301e0e729018, 0x164540210c18239f],
    [0x9efb6e98822e8dea, 0x8ad1d3b3ae308c3c, 0x3652813190e49ecd, 0x2de749d2d5c5c9db],
    [0x57a2ec9dee7ee410, 0xbd8d9d58b4cc48cf, 0x2adf41195234f4e1, 0x2a562decd5b70419],
    [0x5427bd2e79f84724, 0x71b2e0fa1ddd1db8, 0x831aa96e9c74370e, 0xdd5762ff7a8f652],
    [0x53cc7c0ad7fa549a, 0xb38f5341faed0fc5, 0xdae65db907fd8390, 0x260f24c836dc07ef],
    [0xcf620713b01f2901, 0xdf5278e1430d7295, 0x51fd12689cc0f93f, 0x1a9d4050de789618],
    [0x342248c0df6dc441, 0xb1a5ca07f6abf6d5, 0x587f907cc4d84a8a, 0x27d255a40de38041],
    [0x3146898cc004385a, 0x8c06352be5d480bd, 0xfff1a44ecd3d5a01, 0x2187634627013d30],
    [0x481536189766291d, 0x7b8ec175f9ca36fd, 0x41002557ade478e5, 0x2e0eed49a09486c],
    [0x327c386e480c9181, 0x2b068c0c5d5966a3, 0x4e373bd2f40ff611, 0x1abacf3780a60d30],
    [0xb74151d2b78c6342, 0xa479e414095fe667, 0xdb287c3ac9cbefa3, 0x2839a53cd148fc18],
    [0x183933737a8b8099, 0x5a12255c37ab51ae, 0x206c43daac752b76, 0x2b6fd7bc3a3b595c],
    [0x859fa1b714be8f01, 0x7f52d76cf7a2e444, 0xcf89dfc2bda8337d, 0x121ab2b6ab8e2c5e],
    [0xa2965478230f2c13, 0x6c5543352d391d31, 0x7106d4ebc99b0f2c, 0x23a405c7644f6a9b],
    [0xfbb0c4afed03d551, 0xb38e8e5cf181d154, 0xbfaf06a08bf5189b, 0x3de1ccb8e26e8d],
    [0x30a32ef205495e43, 0xcc8f8696ddbdd548, 0x7bede24f66447fa6, 0xd594c3a1903abb6],
    [0x7a8ffcbb55158737, 0xe16f69033c9b1b0d, 0x734fe4a5127b23da, 0x2d13cfd974b0624],
    [0x311b19f9441d8f82, 0x5e322ab0cc3b6380, 0xd9795ef784c6c187, 0x4ad4148506cf6e6],
    [0x56d97a6e4f18e49e, 0x2450abcd24bc3924, 0xb593e19848c3510f, 0x5bba1c4d35ea9bd],
    [0x5f54b7366c5bf57d, 0xa3c918e62d52d12c, 0x479d565c45311478, 0x9236c366e97d741],
    [0x72ee89cf34e4403f, 0x503306f2ab6942e4, 0x6c41d0953c305e67, 0x2a5630fe33c0d561],
    [0xda586ce5e8cd3c64, 0xf0d801a9e7baef3a, 0xed092a42b94feda, 0x2458e51f0164821f],
    [0x3c9892deefd7e96e, 0x1fc8f5fcc0fcd681, 0xca5b77aaa3060a4e, 0xa3218660ff4767a],
    [0x987afcbb98cac300, 0x833451d9f6fb341, 0xdf1d4045657412e, 0x10c628fb41830cad],
    [0x2456467e05d179a3, 0xb88f2e1eb7ec6c13, 0xe91046966b67e804, 0x365b8f2fc30b7f0],
    [0xdc381f89ad85cde1, 0xf0ca502be0ed08a0, 0xabde79d55c92e119, 0xbde78ed9fb95b8d],
    [0xc0b873797d30107f, 0x12950e627ba89a9a, 0x5eeac2782615c96e, 0x1e98a3f1c8e8f9a3],
    [0x9e680c79577542a7, 0xa0517f621a4d69cb, 0x92f51163e05a00be, 0xc0308caff3a47cc],
    [0x5035a7ee26a5e4d5, 0x334877c0004842f7, 0x9ede39f912e33007, 0xbb209639cdeae02],
    [0x3de4858e210b011d, 0x1efe62e20f1bd710, 0x97a11cab00fea19d, 0x13ffc065d98f8ba9],
    [0xcec54daa028418e0, 0x4b081e5d475d17b7, 0xb8a0a25f95e766a4, 0x24ce589a99dd7149],
    [0xfd9cede6ccfc1e10, 0x47bd64690e6d6cc0, 0x11b7cedc6d85bfb9, 0x2ab971f8aa28d7fb],
    [0xdbb713d2203ac283, 0x26254d2b4732cab5, 0x2506ff8f0286f34d, 0x1b2e15dd9e25ad8b],
    [0xa634b744923cea21, 0xd5092b0d30b4be4e, 0x9f86c71628547cd1, 0x1f1c3559f788fed1],
    [0x6ba1100a393919a0, 0x123a493a9b022000, 0x9a5316f0a85a8657, 0x1c83b3ff9fa324bc],
    [0x2c986ac87caee035, 0xa1c245f6fcab5636, 0x10116885dc7c66, 0x28958a5831727ed8],
    [0xa6c962963297a142, 0x75aed2e83f18278c, 0x8078b241bbe35573, 0x282c38627758b164],
    [0x243454ff4acd04c1, 0x466bef45054731d5, 0xd8e4d4376a2bc530, 0xddeead8fcccedce],
    [0xf12c532e9b0ad601, 0x4f78e19a039b30f9, 0xc75df4c44570244e, 0xbdb032ee13a67d9],
    [0xf524a5a01fb4f1b3, 0xe55431a6abfac178, 0x77235caf50305de5, 0x651ba2f04803d5f],
    [0xa2cf51a65e22c19, 0xd9a3733b5ff38c7e, 0xfcdc647b2c33e272, 0x6541fd461b311d],
    [0x59e0e0eb2444fab4, 0xff5d997ff1e80973, 0xd3606b723f7a3149, 0x32293b2b6e94545],
    [0x183933737a8b8099, 0x5a12255c37ab51ae, 0x206c43daac752b76, 0x2b6fd7bc3a3b595c],
    [0xc12ee2527613016d, 0xa8140b853eab986d, 0x6bd2fafe210c31f4, 0x1e47d96559f3d9eb],
    [0x1546e6891a2497d4, 0x56ee20b59e198b53, 0xd4504fb8ea859f41, 0x1aaa3fbb3f33fb63],
    [0x49e02ec33ad6d913, 0x299fa56e40bbb54d, 0x61ed6b3e8bb68fbc, 0x65c97f1a22d2c65],
    [0x2b8cd38fd23ef378, 0xa33651d5249fc528, 0xe15ba504437271b8, 0x2ccf556ae01de7db],
    [0x2e6ee4b854f34933, 0x7b4d879d4164db2b, 0xd18da81c5a6bfb65, 0xab4b8237c68dade],
    [0x213d393befc80f0b, 0xa685b69c0f782ab2, 0x1b788317f56c3fb8, 0x2c3329b267d1104],
    [0x851f7fdacf3a4eb4, 0x95c8dff7d49e0e18, 0xefcae40d2b7843cd, 0x22f60f1fbc046bae],
    [0x47d33635da644922, 0x5639969df32efc6e, 0x405f66fb60fbe66, 0x1d22dc88706281f8],
    [0x13e9a6ad886e7f60, 0x7a937d81ae46aa53, 0x8d33f48de1b98e6f, 0x1aaf58dbdd1a1401],
    [0xdf57fb945b8507de, 0xefa8ca7a38a891c9, 0x6b8d840e73d3c695, 0x6f13d3dd83b99f5],
    [0x520406808d80576b, 0xd2e948a3f8eaab6d, 0x50964a20d0a2ec03, 0x2d7c3ec573e9cc83],
    [0x21f9ce01574b0d23, 0xbc1f29dc3354310f, 0xedd278dc3d355975, 0x293a2e55abaf167c],
    [0x3b2e8ea10b2270e1, 0x72240bfb889b3db9, 0x7f78601edeea4f87, 0x2682132e373c18a1],
    [0x417d7c21e4f0b20d, 0x3310c29c28426d90, 0x285b1e6e44d46a13, 0x301508db6c1f9710],
    [0x4ed409c2de9b112, 0x95c04c96df216e3f, 0xe63ba311a3896fa5, 0x1834c2d44e5774a7],
    [0xf3a20e02f23120af, 0xd1d623b6cb42f773, 0x3ba03d627acf0c95, 0x76c49e633f12eb9],
    [0x8e1cca99becab586, 0xf8255cff0eecea77, 0x74dc89be1a061ec7, 0xfea2b1df3510f6e],
    [0xf2ad3ced11f7ad53, 0x98ee4eee4402888b, 0x526696670270f492, 0x19c3a8e23b946d64],
    [0x6be5cca969697042, 0x45017a925318acc4, 0x8d6af50cd4f161f3, 0x86cbbeae69e83af],
    [0xeba662bf80e901cf, 0xe7894d05f3e0faed, 0x9b7a51f0bcd5b636, 0x1a8a851cf400ea4e],
    [0xfb6a2c5323303797, 0xe8af56bbae47cfb6, 0x8183fb0f9f5edd26, 0x1fb9f1ed4cfe567b],
    [0xf234a73d15f96f03, 0xf0396e405fcd9b4d, 0x9e57e34f19cfae9b, 0xfd5bdd425e00b49],
    [0x4e9fb8980cdd3025, 0x6c5603505055f6c8, 0x25a6b690ce98e4cb, 0x2dd4591301dce89c],
    [0x35e44cea45c1719b, 0x24765a2a4cc0f310, 0xfa71c70b6a4b1807, 0x11cbe00cf364a4b],
    [0xe9b32602d1fbb827, 0x47be08e151339d0f, 0xd57d3851ee4011af, 0x1919aba9eae5d5cb],
    [0xb88f6ca94495f798, 0xe1c8d52284f4f381, 0x489bd8c0c6e2a9d8, 0x6dc27862b0c4f31],
    [0x4f269675ada590a0, 0x2e913b283a67667f, 0x51e5aadd528bde01, 0x1911c33355ced9c5],
    [0xd601bbad8adb0faa, 0x47caea8fd2de6617, 0xa3628ec9435d193a, 0x2facca82fdc63330],
    [0xe638e6800c57252e, 0xdf248edab92ab41, 0x56af9831f4b1da20, 0x168bb7d0c7b38df8],
    [0xa4dec1dfd6473aec, 0x97a55394f4e0c39c, 0xfc23c51ba07bd1f7, 0x33864c3cc0a4cc3],
    [0x183933737a8b8099, 0x5a12255c37ab51ae, 0x206c43daac752b76, 0x2b6fd7bc3a3b595c],
    [0xb8d07fabc738cbc2, 0x68613e0cd12f68a8, 0x35cb048fb5ac32b, 0xc732637dd53a9e2],
    [0x4acb22383f26dd06, 0xd4bbc4d83192241a, 0xe208762b75b37d4a, 0x2b44e82a5cbaec37],
    [0x639f5d81631a2555, 0x5384796be9a1df53, 0xfceeb778851d8515, 0xcf7e6a8815f6122],
    [0x5be9e8134ab912a4, 0xf225619dd9389752, 0xf389d4bb64621b71, 0x976401c8c12d415],
    [0x82a8616ea98202d3, 0x86f641a248fb6896, 0x496eeceea3d7a9e3, 0x1a23f2aa5a0ca939],
    [0xcc3ef523ffcb79fd, 0x59a727da7874e646, 0x2b8757bd93e3543b, 0x1295f50377875eea],
    [0xbe97c9c7cbd0032, 0x4efc08a385f89dc6, 0xfee5fe292da8d259, 0x1f4a65f81b3fe858],
    [0xa7f400c74297a2f7, 0x8fca489e90ea096e, 0xfc85c17c4148e901, 0x12e6d92557037dc2],
    [0xc865e5a835667b38, 0xdad466c1044609b2, 0xc714556abde45934, 0x2f1e3906e4a5b87],
    [0x5b519a55e377a921, 0x3626259388fc7d5, 0x6e7c6c7893f6491c, 0x102c4d0a2eb56948],
    [0x85eb6e3fbda1a6bb, 0x937368097c46f7b6, 0x334a45663dc28359, 0x2c427c75876fd20b],
    [0x493667db2ae55267, 0xf2d5cbb3b77558d1, 0xf2e90f5fa44799c, 0x12f1968b1e77f14f],
    [0x4b6062ec02ae00c6, 0x6540b84e40c7d4f1, 0x1584d55d5447d8bb, 0xb8730598feb9ee2],
    [0xc48e680f1a17041b, 0x8ac27dd7ddf4f10e, 0xa62a790b221ecd3d, 0x2e13857a53b9dd57],
    [0xbf7396dc1ca7ebd5, 0x12f444af68c40c75, 0x260f53770c94056c, 0x86f9752b777f6b6],
    [0x89db2e410f06e08f, 0x942d48ee746f217a, 0xa16152b3106f937, 0x144d5e3d11651e18],
    [0xb3734cc032811a03, 0xe4c7ebf7a9599ac1, 0xe3cec23f3cd713e1, 0x27956794096d302f],
    [0xfca621a1f1bc596b, 0x71dd8fc8d67034dc, 0x2e7d5650870a79c3, 0x2464182f248bc3f3],
    [0x6963b144c9a51803, 0x7030003dd525a674, 0x47da58c4b53b5a70, 0xa75f1c2e431c464],
    [0x4170278e444e11e4, 0xe7165262b0210854, 0x88880db7d7b29b57, 0x441eb396ba8329b],
    [0x74957a5804e78765, 0x31f22355466d6419, 0x48f4e2d178b77e4c, 0x1c271f16943c48bb],
    [0xce20c6f9942dff38, 0x38a8289e87150177, 0xc62071ab840fa1f1, 0x209c46dbafa81cd4],
    [0x362714d4cd667726, 0x6c6fd56f260c96c9, 0xf6e207ed3dc4656f, 0x3002dc8c48624cf7],
    [0xaeafa0ceb1fb7447, 0xf93fadf7a8d3a365, 0x2c0f6b220885e57, 0xfcb2bd431b6f997],
    [0x72c8a75b5dc7ef62, 0xe7d3d71dc48f867f, 0xf12decedcee953b7, 0x2a74154c3f7dc063],
    [0xb99fd6c697f0ed7f, 0xa4e58261b307457e, 0xacf093a88c660245, 0x129ef0b882070816],
    [0xa6c18ee7d2909471, 0x54b2f9fde49f05fd, 0x56e1e4767cf4aff9, 0x24f76ebf17e1a430],
    [0xdd7bffc48e80c16, 0x43eff18350feb2d9, 0x4bd9c758f9856a79, 0x1d099f0d638efa53],
    [0x87118b7a1107e94b, 0xd321ad391f4c869d, 0x2026c0e7cd8765ae, 0x2c9f441f31d9aea4],
    [0xa6aa79ce75b044ad, 0x7dad324fd69bf1a6, 0x4578b52b9315b501, 0x7af13e241cfaaec],
    [0x183933737a8b8099, 0x5a12255c37ab51ae, 0x206c43daac752b76, 0x2b6fd7bc3a3b595c],
    [0x7d617c92f27cd9f1, 0x2662445df9b98a24, 0xd381742d0d5b4207, 0x255345cb88354e31],
    [0xdbdb341be1cf7d89, 0xd5b1cb02fc04fe38, 0x89e6acb07a2cea4b, 0x17e5c7c425cad2fb],
    [0x34c1f458af3999ad, 0x479d548d9f663f69, 0xa9f821f63aca3727, 0x146fa4eb974c8fa],
    [0xebfaa72bd11a5fff, 0xed010e0562236f1f, 0xc90f98458ef4f4d6, 0x727942876c6eda2],
    [0xd91787a8e3f8d49a, 0x6c86cfe58a5be052, 0x5efdf985272b5df6, 0x1bc84a56570ec87],
    [0xc1d014980ed7777f, 0x3028615fed58dbd6, 0x188e06fe047235dd, 0x1053ebe1413b33bc],
    [0x3b15542dc26803cd, 0x42f004e84437e909, 0x4ee5c75f4108f2d8, 0x20b12ab6f4bfecc0],
    [0x619053976eae5d56, 0x1fc85e2fa7c5e02e, 0x2ebeaec671ad6ccd, 0x1ec0cef9e5ffc347],
    [0xf4938985727b633f, 0xece1512b0afed7bc, 0x84ca320b72a0415e, 0x2a42e9eca9fcaefc],
    [0xa910803ef7cc9f9a, 0x71b2e617bf7064f7, 0xf3ab9b31a103e77c, 0x1a172b2e81e2559f],
    [0x270123e45f06bc56, 0xc291467a8bf3922e, 0x68a5e77302b98fe0, 0x2f2cb2dcec93e9d7],
    [0x2d05ac64e57e61ca, 0x3516181b583e2722, 0xaccefd64d9242ecf, 0x73e947e3b071d91],
    [0xb2fe67a935b761ec, 0x752b9a796fb97bfd, 0xb05c202ea3916c78, 0x201e11dd656c3292],
    [0x4ee17a7b4a4d054, 0xa1aa6c0891681fd6, 0x42206d4637431163, 0x12ba1b074f8b55da],
    [0x6b8212eab0bad880, 0x860fe2758b85ee6c, 0xd4e470183d00c935, 0x1caf77967696809d],
    [0xb81842ee2469b8a1, 0x364bf28a69d7b79c, 0xea189dd679d2e16c, 0x2e2c8e680ddec801],
];

/// Part 6 of the sparse partial-round rows for width 16, as little-endian limbs.
pub const S_DATA_6: [[u64; 4]; 256] = [
    [0xeae611cb42d1e950, 0x4d4c77cca135cee9, 0xa6c4856e9cb2dbf4, 0x29fa1929e7f6864],
    [0x4a6581cd275a7160, 0x957909e6613086a4, 0x185df4258bc1ac55, 0xfa23e57bcdb977f],
    [0x825750889d4a1524, 0xb4a03942f42a62fe, 0x3ecc36aad236b0e0, 0x2bd1a5ba49a19dd3],
    [0x9ed17e1612fe2bfc, 0xab7d25fa15cb698e, 0x5910faceeb460088, 0x160ac4ad5eec95bc],
    [0xd18db58f2552b2e3, 0xc9254ca8a8704f78, 0xdb8cb5245a9607cd, 0x4c78cf3e48577ce],
    [0xe977d7afde414c61, 0xc7ac728617537da3, 0x2d0e410fd65fccc9, 0x1e9ef315dfdc9911],
    [0x42b0175be52be74f, 0xeaf2900bdd8ee8eb, 0x94cd2b5500891f07, 0x2b4421616df11dfe],
    [0xd059038d4259744d, 0x4bd51a9762d670c8, 0x3c8ecaae0690bd0a, 0x8a13f8dbc82ec94],
    [0x417d02e86db36ca0, 0xbcd778d289c28685, 0x22863698bbf6897c, 0x14167eea5c641fb1],
    [0x5c5ed5868991741b, 0x1c4bd193d3e05bbd, 0xc742b426b7ccc584, 0x1b2d84e924984926],
    [0xb7d02a7eaf1abc3d, 0x1ca34e42c9ae254e, 0xa68633cf4f462225, 0xa14c4040634221],
    [0x59ca5b430e1f3f81, 0x54bdb4e5f531f68c, 0xed2fa5f310a29d4e, 0x1aae6b2f56d3acc7],
    [0x4f15d0a8422b35d4, 0x11e676e498a3812d, 0xd215a1754ad8f300, 0x1c6bef1a7a903d4f],
    [0xf42f240a5c1ea119, 0x5b187033ecb4814e, 0x18d509e831a281cb, 0x260d34eb550364a0],
    [0x183933737a8b8099, 0x5a12255c37ab51ae, 0x206c43daac752b76, 0x2b6fd7bc3a3b595c],
    [0xf42ac314a969ba28, 0x29d01c0a34919ffc, 0x109c945206f2c164, 0x29455194183fea94],
    [0x36f54b580f891a86, 0xa4cbf6269f30c62f, 0x1aa22c66926e6511, 0x11f4f3b6a1a747fc],
    [0x8269bfca310c5d39, 0xe45e899e3500bcce, 0x44eac7909de01dbe, 0x2df1cbfe1e9ff79c],
    [0x7e58d6d0f620be4b, 0xb6c48226115d09b, 0x59b8dd11063a93d, 0x1e3ed2a6dd4ec05],
    [0x1cfbb8f4cae5434b, 0xb179b82bb21f7a57, 0x2102280841960624, 0x235eade019a1ac89],
    [0x3581c30cecaeb6fc, 0xb48760c3b269565f, 0xc27654967d85f8c3, 0x1063dc692e42acec],
    [0x3cc9423e9b257275, 0xa36cfa926efb3763, 0x51508013332ba01c, 0x144c087d0bba6b26],
    [0x6ecf0cf4c027eabc, 0xac3c31e0c2a96695, 0xeded6e5b8802fcb8, 0x8dc44909d34e4fb],
    [0x91a3a16f9d363468, 0xdf8de29ce530aff0, 0x895a12babfb81dbe, 0xdbb16e5b88711eb],
    [0x27ad58061476fbce, 0x33faabe43e1d6cd8, 0xf3fc6dd7e35b84d3, 0x2bcf5c9c863de574],
    [0xd1daf61c0ca5904, 0xddf3e6fdc11dbd6e, 0x9060d01c7e7780d9, 0x13cc656862377831],
    [0x23caf74b970cecc1, 0x987fc66e00d50775, 0x43662fdb41e4156e, 0x17a2edcf8bf40ac2],
    [0xd702c902c9c8bdf0, 0x1e6829cdd6bbf699, 0xcc3b92c1b9e826a1, 0x193dcdfd2950a934],
    [0x5f83972b778dde5b, 0x76938c1d239f8bbf, 0x7ac611414b6186ea, 0x1f049cb7d14ebd68],
    [0x9c2acda3acca9af5, 0x29d8e55b8c101df0, 0x55ef3c3fd0cd99e8, 0x4d9595ab4d18bed],
    [0xd7223cd45b457f23, 0x45506af2e029aacf, 0x53f889073d9f9109, 0x11a10e1656c16d3c],
    [0x3c1fdfa44b51edff, 0xd7473ade3c14ceed, 0x96ee63866219b3e1, 0x1c84c1b888ff8d63],
    [0x6004d99a391ed06a, 0x4e84dc94c7ac68c0, 0x99a9927bd9d1cbe0, 0xf5531ef3a85171c],
    [0x149cd7d64cc9ab46, 0x42f6b7ac1e5344, 0x229dc871b3676f38, 0x6ee08fc691f0b4],
    [0x960492898d0c8d4f, 0xc0938adcda2e97fc, 0x577905847eec949c, 0x237628e422a57b51],
    [0xcc20c97bfa38ce7b, 0x1fdfaadaabb59a5b, 0xd4772a9fb808db25, 0x4b4e368d0d486b2],
    [0x8bd5c2203fbe45c2, 0x1a8cea3d5eed0e93, 0x15deca9a4f8795a6, 0x2a0484d90b9de4de],
    [0xa77a7bb3e1e894ae, 0x8f511118dd4a4bf0, 0x7673bfc8029dfd0, 0x2cfa30139fcfe50e],
    [0x5d09605eeeba95c3, 0xe07af8931796fc2b, 0xd8b52b9e924814f3, 0x278fd68bb5971f9],
    [0xd26ca562e2a7ddc9, 0xb25ff8bd654d83f6, 0x61e0ec7213e50dd9, 0x24ea4315f2dfe3e3],
    [0xe2cc43f5e94a2534, 0xedd16b40c51e6eda, 0x8ecd88d9194ec5ce, 0x8612599ae2e4a87],
    [0xa0475312da1da37c, 0xe04bfdfa7f6198f2, 0x3eb8208b455fb3a6, 0x2003edf69a810b8a],
    [0xca749da545d34981, 0x42d341113d255cba, 0xd6984b7be85b6c43, 0x1ed96d9e0748ab37],
    [0x22fe0d45a8b816, 0x789f62d268e7c634, 0x8ce4f919309d5ddd, 0x24947686594e925c],
    [0x241981f6ef34173e, 0xb318392a14827ae3, 0x69a84152d6323e1e, 0xa42b268cf646e],
    [0x183933737a8b8099, 0x5a12255c37ab51ae, 0x206c43daac752b76, 0x2b6fd7bc3a3b595c],
    [0xd434ba92326b0758, 0x840e67570999e804, 0xde56a4a26abf5cb6, 0x2c16f80293a1d647],
    [0x8d73a217eb1f7cbd, 0x634d600e0fb23f89, 0xbda6e5bd46c2564c, 0x10003b7c47202671],
    [0x28c959e39e47f77, 0x71e8d18f847cadd3, 0xaeb9e269146b5057, 0x8f99c641f5a436d],
    [0x7e4b7284f9c065c6, 0xddcc8f63c753467e, 0x7db1a52d076801bb, 0x174ecd880d0e8961],
    [0x5be4885ea25c594e, 0x28ba45199a99118e, 0x979fbc9e8b3ea0, 0x124823019c96feb4],
    [0xaa75927be24bd03c, 0xe6b822ea2d4fc8d9, 0xee769b8092d9687c, 0x1476f2bb8bb265ec],
    [0xccc80ae83d4ceab8, 0xc03707c7aec4620b, 0x6184ef121ab7e9a1, 0x19dac45643cf0ec4],
    [0xd999dd7939cb9b7d, 0x2081743241898bca, 0xf80cf57e344d0fca, 0x14674e4b8eab3fc1],
    [0xc608f74b7230358b, 0xb51c59a9d05d221c, 0x16d8accd8eafb4cb, 0x1ed72b8e2da7a2fd],
    [0x25c6364ebdf4f9d6, 0xd86b906ffc335092, 0xc079ecdeceb673ec, 0x1da5ab440f2cdb9b],
    [0x52dcc644638eb389, 0xce6226dd8420077d, 0x1ac0584876431dc1, 0xc751d0ea79515c],
    [0x4c19981f7937033d, 0xcc3decdaa7ddb14c, 0x53d499be9d18471c, 0x6a9dda83669129d],
    [0x1b2f3d6e1c5f4696, 0x72a99a97e1985f9c, 0x5fef6b66266003fb, 0x280a6226e729cc5a],
    [0x9a699079c9ea1501, 0x6edb580037be022f, 0xbf5ab883e320f05c, 0x277ccb7f226a1920],
    [0xf6a6cf8ff67b090f, 0xa5a5755ce9cb8780, 0xa41396d244cbc313, 0x207e4c2a1f9d4bfd],
    [0x80e2576995ab7fbe, 0x67b34b71c154f064, 0xacdf730b02c9772d, 0xab72e9f2261bc7d],
    [0xda81924ee8117970, 0x89085c30015d873, 0xcbf2b518e47e52c3, 0x26dc9a65057fde68],
    [0xd600f94f65edb2cb, 0x8078f397b9914ed1, 0xbde8ab7552153174, 0xee4ec60b28b8ae1],
    [0x2b04f2c89d9bb766, 0xa385aa192ed9e170, 0xe2a653e9ebb132aa, 0x26f7aaca92a139c5],
    [0xfacfb15f4ff8de85, 0xd8705e6d1c031af9, 0x3439310ed43a8721, 0x2d2f1c2e5326bf8b],
    [0x5570514599c94b22, 0xab16026c5d0126cc, 0xee539f3247f22d8f, 0x1fd6ab80e45a94d9],
    [0xbd18ec026f26833d, 0x6b4b610b2c7e0be7, 0xbb84ecbf44347497, 0xf94a3d03ba6eb3c],
    [0x6a1ae9a1fcb3437c, 0x576bf2f79813f55b, 0x3d796d7185867ab6, 0x9fda6221cf5e259],
    [0x954936f520470063, 0xb950a69a20e63634, 0x3b784a7dfb9c63b0, 0x26846396de6a8b11],
    [0xc614b5d6d1b9e0aa, 0xa8547c89ca0eb006, 0xa39041bba22cbbea, 0x19e400a2ed9606a0],
    [0x9deeca160061a02e, 0x54d392c4cf26f835, 0xaec0abbbf38902fd, 0xe2a3a5f42587d60],
    [0x956f13789d95fa23, 0xb407c3c27a3b322c, 0x868ae471de1b194f, 0x165836d2e5f94bd9],
    [0x3ada126285b12dd2, 0x4e303a8a68543305, 0x7fa4e64b0d985481, 0x2bba296744ead7cb],
    [0x91cec9eee1228510, 0x1ba6cc9aa7523667, 0x2072b5602d85f516, 0x1c42b83e0bf8cd6e],
    [0x3d4970030cf6afd1, 0xae8754b28c027306, 0x1773023d905bc873, 0x2a8345e521ad75f6],
    [0x183933737a8b8099, 0x5a12255c37ab51ae, 0x206c43daac752b76, 0x2b6fd7bc3a3b595c],
    [0xdd8d1f8a709ba50b, 0x1283d9435602a724, 0x8ced67e231f45e24, 0xdc769889e4e6032],
    [0xd11be50e277f1fa, 0x6b67d3fc3148be7c, 0xa1cf2dfdc940b80a, 0x1002f962d594a9b3],
    [0xcb84e72be72c7a6, 0xec868a468c671550, 0xcad757b62e0a8679, 0x11604b56f285ee9a],
    [0x2af1b016ee9445ce, 0x2b6e89e21ec3ae11, 0xa3c4a83783d3086, 0x2cbee753288f68a9],
    [0x1d4976ab71916b6a, 0x8c29e7ee5b0d254c, 0x7a17b58d217df773, 0x2df869ed85aad1cf],
    [0xe64b8f1c09e57b69, 0xe2c7af8430a11222, 0xe4eebc062b1c353, 0x52b2ba2fc76a7c4],
    [0x153eb0e89d3e303d, 0x6f57d1e17a08329c, 0x3115d3413ff7c967, 0x23446fb653ba07d9],
    [0x93f67fc10e58adff, 0xbe6f2a6d5660e7a9, 0x47feb379042297ce, 0x11f1fad8b82ef8c0],
    [0x5ff582604b86147a, 0xf453954101bb66e1, 0x9665cde2023d8662, 0x17af0f2c5f514d2],
    [0x3971e7a7a014fab, 0xe302ea940d29f5c4, 0x94abafcafbbb0b08, 0x11d7ceb7a58360c8],
    [0x940ae94f25bcde95, 0xf035aa90479bf25d, 0x2df324e56ae0ec65, 0x74ad08dcce384bd],
    [0x87c3fc1e15d53558, 0x766d89ccc8939e00, 0xfd3308d7982d4c51, 0xa9e0e2b8db72860],
    [0xc58951fd2a0711a6, 0x3e419cbdefe8709b, 0x40482217ea6d61c, 0x10053dd72d3e24c8],
    [0xb08a23e4fa0ea22b, 0xbd5dc9e54ee0caff, 0xd1ec2cfe47910318, 0xb8feb7949a8116a],
    [0x8c44a063fefdda25, 0xd1698ef13f78d359, 0xdf4bad8cf2fade21, 0x1b3f78f18b178ee8],
    [0x4a52084bd68af74d, 0xbb687b8f14d0f12b, 0xf8c7dec891c12d89, 0x15af1e8fd71f0799],
    [0xe275a33e5fa8fe96, 0xe1ddf75ce3615b51, 0x6f7f2c9ab68937f4, 0x147d419b1999d789],
    [0x470da8398a1578e7, 0x6fe64faf9db752b7, 0x1ae17064a61f03b3, 0x28b7cdada2f2cb2b],
    [0x9bf9d5fe24c43577, 0x5c1003771dba9dec, 0x1d34369bb808b374, 0x2163e931b6d3e664],
    [0x6a02575b1436636e, 0x9350c56abb949f7f, 0xd93486397e28ff2a, 0x1fe3bf03ba1752e0],
    [0x14d38fc2ac37f147, 0x1364f54f9cb31e0b, 0x97bee72b056181c9, 0x2ec24f69b2275502],
    [0x7346bbd6077fef4f, 0xd78644eeb19c1e, 0xf5fc7933beb8f6b1, 0x98d9ca655e17d9a],
    [0x220c2f5251e4d786, 0x770830b5767a3c8, 0x9daefc2b994d5231, 0x2e296e61aafd6d21],
    [0xfaf9cfa8307d112c, 0xb689af3b917fb10d, 0xcbdfb45ed64863dc, 0x2f6884b2602c50e4],
    [0x55260479d6556b63, 0xdfcae2e703bb198, 0x32f5844b9e3c48c6, 0x5e81ed97199a7c],
    [0x60c91e4efcc812ff, 0xa10380910a576024, 0x8654d72a48b86be8, 0x7b3281ec445d3a5],
    [0x580fa70cdd041385, 0xa5e9101d9b5d7623, 0xe051cb0857adeaef, 0x14e55ee2871da3b1],
    [0x52174efaaa6287ac, 0x96b5c1c0652444a, 0xe92962a6a23cdf21, 0x53f6a1c6bba5a4c],
    [0x46daf00b359d88e1, 0x557378a038b09d9f, 0x9602356a6ad006ec, 0xf55c1add25dc95f],
    [0x9e1c56fb3a6a513, 0xb8888bac55120447, 0x88cfe22c58544d3c, 0x302ef214c4c4e786],
    [0x183933737a8b8099, 0x5a12255c37ab51ae, 0x206c43daac752b76, 0x2b6fd7bc3a3b595c],
    [0x62afc5a43487217a, 0xa8cf9d2316c79b22, 0x284a66edf1d38115, 0x1e97abc82dd29d2],
    [0xcf608308e63d5f2, 0xc3b790c3269507ce, 0x70ba7fcad86b7e4c, 0x18c844b544ec0da6],
    [0x315b0664794a8897, 0x3b4e3f55fa4b1eb, 0xc5bb6c29e9f55736, 0x27e894e463d2d999],
    [0x63e9106a9fbddd3e, 0x96e80aaa3661e941, 0xf0de2d894157ddf6, 0x1ec3f26b1af76185],
    [0x720cc0affc8cf533, 0xd5a0afd5b8eb552f, 0x6840d50dcf586263, 0x22978d983a255eae],
    [0xbf7d76d0dd837125, 0xec3e961f395b9c7f, 0xafd24690ada4cfa7, 0x1618d7d7b6d7ba2d],
    [0xd608f1aa4f050848, 0x97a6f6cc318c7297, 0xf24877919be6d84c, 0x1df2e4ba9ba44ca6],
    [0x45e0ae286588cacf, 0x1c76c503ca8c6c2b, 0x88191e62ec1e6961, 0x1fa6c7cfaefb71fe],
    [0xa1138f09aaefb625, 0x38696ada6decb01, 0x14d27873eb92eee8, 0x2f00266e50bc175],
    [0x9e43333934a5efa1, 0xe584febb5cc1ed11, 0xacd34fd2977a27c6, 0x24b0ef6c8ddd8d74],
    [0x8fbeb72f9bf1c7e5, 0x9fbb0056559a5bb1, 0x70d140bbb2bfd190, 0x2eba590f514eb527],
    [0xbae9f21944f0c4a6, 0x703ca11b39eb1e8, 0x2f93bb93f4087430, 0x1c01664f520b1256],
    [0xc2b5bdda75b4a4f6, 0x395180c264802302, 0x9c9216cf35095705, 0x158c6e1a41842617],
    [0xfd6ef7bfcb55adaa, 0x42c4ac5b28205bb6, 0x289595aad978074, 0x2609db7fe10c939e],
    [0xc281222c5ac64f05, 0x3292a3d0ca547207, 0x73bcb32b580db942, 0x68bca148cf00ddb],
    [0xa7d71e4210c16715, 0xb2b6c7daa5dc0fc9, 0xf975e1a27ca02b7d, 0x17bcbd81a901026d],
    [0x6800ce70020c680c, 0x1d4658d70137650, 0xcfd6fe1fdaadd8ee, 0x2dfab84b8b358320],
    [0x7c8fc91d2c27a9c7, 0x6f3f091923ca1358, 0xfc8c0babac388c53, 0x120819aae37b3d91],
    [0x1200581089985509, 0xdef09743f311adba, 0x6c7008f6f4fccf3d, 0x12313b69bd606ca4],
    [0x4151c61e1fc4378a, 0x6535f948e89ebfc5, 0x586a62142f37868d, 0x11e9b992c04a4ee4],
    [0xb8e4d96d82569a53, 0x2a4cd73e51dc82f9, 0xf49032a07a021b29, 0x5f557dea69dabf8],
    [0xd186e11b0d4eea44, 0x2f3a270910f2505e, 0x271f64d5ac546f7b, 0xce2bc653061b09a],
    [0x297c8cb9f5d6368f, 0xe0df476d31cf641e, 0x128158e7463b3e3e, 0x195b61bc0d16c176],
    [0x6c4a4a6babcda2cc, 0x8385c6c87bd76748, 0xa43a413dfd4e4e18, 0x1d0df7d7da33f468],
    [0x9268111b51b0b761, 0x830764da4a300f05, 0xe98b1a21f1f360e5, 0x13904564817a3bf9],
    [0xa562ebb00fd27ef5, 0x64f2c118e2755127, 0xa5ce94a89a91fbd, 0xee010fca95f4525],
    [0x81ef619e0c3b20b6, 0x72c7f72a18eabfd5, 0xa7ec21aaf9d2139f, 0x279d86c488716103],
    [0xdb6f80cd790dd8d3, 0x51bc5576576c244e, 0x2ba754f16d795a2c, 0x11b803d7d692745f],
    [0x6ccd9c3832a0907b, 0x5dbb993e8d07397b, 0x52a3802e498bdd96, 0x3d093d2500c6148],
    [0x6210c5877778f1b8, 0xf9c83f85e9ccbcd3, 0x4272068446046190, 0x16652d5f69932fa0],
    [0x183933737a8b8099, 0x5a12255c37ab51ae, 0x206c43daac752b76, 0x2b6fd7bc3a3b595c],
    [0x561d6d198525e79, 0x8eb32215afbd962a, 0xde1749af01c678a8, 0x2959b7c18c774ae5],
    [0xabe2d7b1a377d6a8, 0xee8a10618572ec9a, 0x4e2237c872e90bcb, 0xc26abdc5e7b095a],
    [0x9e6deba761b863ec, 0xea1a70e4eed67e7f, 0xcb88e18d8b7db784, 0x17303e79bb1728ee],
    [0xdbb16c5626879b92, 0x78b81698a6e1332b, 0x3fc254d4e9c62151, 0x8f1351b76558777],
    [0xfc86de3882b7898c, 0x332bfc432cd4e283, 0x2fc2250421c4988b, 0x24587c5be08773ab],
    [0x849ea839f9a80d2a, 0x8fa89a03f2ceea01, 0xc72acc9851fb74ef, 0x972bc46f752662e],
    [0x9545a6929b44697c, 0x87da191bab36af53, 0xffc137ce0a17f1f0, 0x185382531567193b],
    [0x23e6292e93f906b2, 0x228c2d660f845581, 0xe6b44b3a492d8f09, 0x2f835f068a500a33],
    [0x78a5b64365285949, 0x13dfff71c438f7e6, 0xaf7329b5f76a81e7, 0x159abee658fae6dd],
    [0xa8edeee8398489ec, 0xe25793df513a2e1, 0xeb39a86b066ca9b4, 0x2ceaccfe0874e534],
    [0x94d5c7c309c0b029, 0x36a1134a8ec5d251, 0x7a46b4e7bc90015c, 0x3e5251b721d2cd6],
    [0xf7625249f061249, 0x4fb1b89e3dc09b14, 0x8680503ffa391ed7, 0x1018c8b0a3de1c52],
    [0x14e4e7480a1eb9c0, 0xde2a27e50aee9da3, 0xb004d902644feebf, 0x2c0015ecad1833f9],
    [0xe5bb265bfbe2e6c, 0x79578cce893fccf8, 0x8cdf2dc7c1254228, 0x24feb7104d161a32],
    [0x7bbd17a60709b7c3, 0xcea6359981a13c2, 0x78e5165cbaee2bbf, 0x2944d98697f7ddec],
    [0xdd394f8e4beb0c17, 0xbe28216616655908, 0x4f79bd6d32e25c05, 0x1eb6e93cbfd035bc],
    [0xcaca25885158c01, 0x8a2927ae24b72d58, 0xece507e5a9c78c72, 0x15274c4215b3498c],
    [0xf4551e34e0b2e03b, 0xef3e4d3eb41afc5f, 0xf64471c047d1afb3, 0x244439d87914ea7a],
    [0x5078776b44455899, 0xf865015712f99f6f, 0xa799c2d359aebd1c, 0x7c60d6d98c85efe],
    [0x10848e530cfcabdc, 0x79e475ad06a56916, 0x86de5cad02508cb0, 0xb4448d85c583218],
    [0x6d5b3ef234d66603, 0xd06bf1eda4db7424, 0x98c688df7df2ac0c, 0x2d385f71e742fc36],
    [0xeaaa3ee0893f1479, 0x4b26ca6c02b25798, 0x932ea40da64bf045, 0xc3c7aa72581cf03],
    [0xa1110bd68da326e, 0xbc2f5fab04441687, 0xcf7089c8e714a34b, 0x2f4091dafd791bb3],
    [0x3a8e3654145b2388, 0xbe8621df8f0c9bc6, 0x22535f3c2445dca0, 0x9a9203152f7c7a3],
    [0x5be49b6c0356915a, 0xd67514ac9ae15e4f, 0x84d07ec5a44ca257, 0xc9944612dd0f8e1],
    [0xd21ed2bd79e11721, 0x8e124ee0bb245270, 0xefe896bf452c77f7, 0x465c847c7d119bd],
    [0xeb220842583af5bb, 0x8f63ea6b9e6414e5, 0x97ed3842a414f8e, 0x1725856f51139de9],
    [0xd0834c5563f9a886, 0x250c6cbfea5f9bdd, 0x4ed8c2e68672a592, 0x276c1b109f88cc83],
    [0x1c16f2832ffbe3d7, 0x1742966fdf39011b, 0x772e04a26dea2893, 0x2baf5485e19edbc5],
    [0x9e36b41a016eb036, 0x3a00e8ad677a6dc3, 0x5c5dbcc044fa0ec5, 0x2042b1e0d4a962b9],
    [0x183933737a8b8099, 0x5a12255c37ab51ae, 0x206c43daac752b76, 0x2b6fd7bc3a3b595c],
    [0x5fb3e226f84b47b2, 0x47d9c63134d44233, 0x87434e39c9103994, 0x1eb87ed83839103c],
    [0x4d58585ea1a62866, 0x1a0da70860d771bb, 0x8105818ce707b244, 0x80a226b8c5b7ae6],
    [0x95e3c8591174525b, 0x6161bff01ffaad9e, 0xdfd4cca8bff7d38b, 0x1b038c8d59fa36e1],
    [0xd193abee581d763b, 0x6b5ca275d4e08dd1, 0xef9b96d9c1c235c4, 0x2ae9c92470f8f4d5],
    [0x1cbc0d9232fe3429, 0xa1b0226d90f563ef, 0x28d74de7723985b3, 0x21fb57daf9b4cdf8],
    [0xf59ffda0277a99c4, 0xa15ad6050bb42853, 0x15fa31b9da51ef26, 0x22bfeba5a5a36cd5],
    [0x45c09aa141590c02, 0xd9817613c719cda7, 0x4646d1166204af05, 0x20f3df888830ae89],
    [0x7f5fa10934119f28, 0x7e3c0321d261c9d, 0x32a2f2c7a2ea5f3, 0x63b2355acdad1a0],
    [0x983ea640add5028c, 0x5b8225b0985fc4e3, 0x2b9eafa6ac6ded95, 0x16de60437f460988],
    [0xf56b91d025e33756, 0xecdb81e0083fb82e, 0x498ba4c7ee7afac4, 0x2ab849a10d24540],
    [0x4dda53db186e2c50, 0x691d57ad645946fc, 0x2d3fb8af52c877f5, 0x25d60a27489116c1],
    [0x7f8c1efc9bbc79c8, 0xd92e4639e7f3af1b, 0x917b1008bbdc4a05, 0x1b1442dc351aedc7],
    [0x1b95231d129f6efa, 0x981a89c3f3352ed5, 0xeacdc4da240a03f6, 0x2502537d03523d64],
    [0x9a9860ab90fc724, 0x176237a9e5c70bf3, 0x4f057fcb32f799f0, 0x1b786044b15312f0],
    [0x588d728f6fbcc841, 0xfcb298f469d8523b, 0x16e83ef9027b5b12, 0x13aa1eb0dde09e38],
    [0xc58011bae84f8e1a, 0xb580681f0c4c4225, 0xfbcd6fc983a47dc7, 0x15d72e8723e077b],
    [0x3159988504703cf4, 0xe2db62554fdaae, 0x30fa0c25299570db, 0x1369471512c42273],
    [0xb3ca39ffa78d8fb6, 0x7ebd8faf20861604, 0x6d053090f4e2797f, 0x1b7142089a165fc],
    [0xd836602df5c07a4e, 0xe546521a801b3690, 0xb6dd4b70ceda8065, 0x65028c49121ab4b],
    [0x3bab80e55c0ef062, 0x4ae11dbb6d73cbd4, 0x82440a3ed7ed610e, 0xb0c93a4ca60bd67],
    [0x3d0e890a26a7ae7, 0xc9a9ffcf0f692b1f, 0xd6dd29a5916aa739, 0x538fe578ac88710],
    [0x283f70b773eb8388, 0x13d016d1682042a9, 0x25de02d9feca6b17, 0x2aaf085390a56824],
    [0x31ccc91574878b2, 0x867b464e9a81d9bb, 0x754dd237698ca763, 0x12d3a3b814c1bbef],
    [0x2f0a996c5e85eded, 0xa0f7bf3417e1d05c, 0x75a53a4cfca82569, 0x24fb699b2d537bd3],
    [0xd4ea0a7078111ab3, 0xa9569a01502843f7, 0xc5cceec919601c95, 0x11dff9e9c33f3786],
    [0x28421a3583367e4b, 0x707db45aca65d3c, 0x5b9e5c229e137250, 0x261e407b0cd0b43f],
    [0xaacb18abdab7454b, 0xd6dea461b8c2d23b, 0x94e336337c156ef, 0x2351bf0327b143b2],
    [0xee25aee7ddc543d9, 0x3da5970a79a4f25d, 0xb4de646bb5ad6d3e, 0x1ccff891ab723798],
    [0x7827ca368ed3cbc2, 0xaac04ebc418c493, 0x97bd3cf545fe7a67, 0x476e4b00efa019c],
    [0x1a7ef4d9ee11e53c, 0x8e11a06250f693e2, 0xcd15a5b7e2d44603, 0xc1e697b8e69d9e6],
    [0x183933737a8b8099, 0x5a12255c37ab51ae, 0x206c43daac752b76, 0x2b6fd7bc3a3b595c],
    [0x64f59380e26cffe9, 0x1b42910ea066edc2, 0xd535d06cb8c4de0a, 0x1a09d2b7e646521d],
    [0x510891356c0f6b6b, 0x45b2bc761caf0eca, 0x1725b545ef98b3cb, 0x17cd99a103a4adc],
    [0x198bd849018a5a8b, 0x7529a051131bea1a, 0x84a828dd539be832, 0x6b9bdeed92c495a],
    [0xc0d2d2d11fb311d3, 0xf130cb8c1099833f, 0x4e68e1df59d14f13, 0x8680012993a0791],
    [0x6a5eaee7d98a66a7, 0xf05d19174b15ddfb, 0x80e82045bf81474e, 0x247b79afdd0a99fa],
    [0x1ed39c7bd2aacffc, 0x9e868ba1becec417, 0x39e86a96e5f8a1e9, 0xeace989a2a6438],
    [0x609c9fa1b9d57fac, 0x1fd14bacb0a2948, 0xca81475c350eb647, 0x1537fa1eb45e0b8d],
    [0x6f4fe06384456ea0, 0x385dbc0c7feb0d9c, 0xd5bbff51e0aa1f60, 0x9ebc426effe66fc],
    [0x9a15264059b0eea7, 0xd56097c5eec5b27f, 0xab055cc7dbc4f876, 0x18467be5d0a4e54a],
    [0x7f44ac932f533934, 0x11c4909ebe664369, 0x4c05fe4f82494e06, 0x2dcdc0099307f6a5],
    [0xa866c21d2f3433b, 0x56723a2f6093e187, 0x405a112fc11f9caa, 0x3fb3d6990d8e8da],
    [0x42bb2af82fb850ab, 0x2f00a81d612f828, 0xd6e95e1284f7a870, 0x7903dff1ca5b78c],
    [0x26b08ad2450cb8a4, 0xf321cbdf153a4db8, 0xbc8118dbba6bda8e, 0x1ccb172a7b0f1139],
    [0x4a2a7d72f201663f, 0x1d7456f2cc0481a1, 0xc999dba368451cb4, 0x231cbab35a8a0e9d],
    [0xe38712cd26081dba, 0x5b3d0285d41e2038, 0x98d898334d0747a, 0x1185df89f8a40ac6],
    [0x359e109bc25a5670, 0xd0e19d85474475ee, 0xf97dda9141c6ac20, 0x2fa064d281be156c],
    [0xe84810154a093044, 0x375da6aba30cca76, 0x3eba241bc0fc4a3b, 0xa2114ecb4bb8829],
    [0xd157b39e469240b, 0x5d6fcee5d6d50725, 0x1cd8f8a22620ef62, 0x2bd5621d46d2dcb4],
    [0xfe4dfa92cf690d64, 0x70cd715c5a657d78, 0x6c849b82e0fe8cfe, 0x1584517e545411ec],
    [0xc6b02463fe29ae6e, 0x43c4b5ecf97e2ff8, 0x6c6f6c31809951e1, 0x612bd1a5329c91f],
    [0x1c6f0ee18a763294, 0x3f61fbaac3ca334b, 0x7e5a4745e738151b, 0x26d3d348ee74cbe2],
    [0x4c69daf5d0d46ae, 0x9221410fdabfb06a, 0x6f04826fcbc91eb9, 0xd69c097ff13bad1],
    [0x1bd78831a70f29b2, 0xeea70da522f72511, 0xa237f3c2a1849853, 0x19df85abb6034b86],
    [0xe8e56ae8759c75f1, 0xdfad45f6c1147693, 0x4d81e056c7ad73e3, 0xb67940a72701ac2],
    [0xcac1de766bfd225e, 0x76ac47451dbbcde9, 0x2a24cb40846b5911, 0x2d067334ff4cab89],
    [0xe107b8220cbfc006, 0x9923b7157ba297cf, 0x4f6723c8b2e00180, 0x250e8bf6d939e229],
    [0x21e07b5e0b0a121, 0x5c6eb2ce12b7494c, 0xe605f071461cc776, 0x106265f59a713f1d],
    [0x3ba59b9bdb957e04, 0x1de6c10e244cff63, 0x45ab526d9cb60f6a, 0x268591932728ffa4],
    [0x8070bd5967c5b9f5, 0x6b3500da9e62fc9e, 0x1d4c1532e63e3449, 0x28a264cf3eeeb2d8],
    [0x1c63793f22414f2d, 0x9adc00a51974b8fb, 0x577898f2104373a4, 0x2e289ec9d9fb747c],
    [0x183933737a8b8099, 0x5a12255c37ab51ae, 0x206c43daac752b76, 0x2b6fd7bc3a3b595c],
    [0x5abc40423575d9c0, 0xebf1766246e1cac4, 0xf3f2fdcd0b64ced5, 0x292cdc4fac941966],
    [0xa68f1c93da72ff30, 0xd66aefe8904bab3e, 0x4bd5cb9f5327942c, 0x8f9166b886a64e2],
    [0xf8cad8f1adc4abbc, 0xf222039ca540946d, 0x2471674a48c93173, 0x1d9346b55cfdbce6],
    [0x8cd1aed812458804, 0xb19c8b5d8cfd72bd, 0xa1d48657b764cf7, 0x284445af50c97533],
    [0xef13f656cc52e823, 0xcf2e99182801e50d, 0xac6d9a50ba9da1fc, 0xe5caefd895dbae4],
    [0xfbe0cd495b4e6239, 0x5d419957e85a1734, 0x925dcf4af0af39cc, 0x2c549e8a4cd3cb9c],
    [0x84146b83beef3964, 0xcbcacea42bbd3234, 0x244dd12ee9fac94, 0x2f691c2890ed7ae2],
    [0x4d8e0f6e0f65f065, 0x9e2ab4f51c2ce1c6, 0xbc281643bfa74773, 0x189c18874e9397a],
    [0x3d2720268f65223d, 0xfa85f2e8a7699131, 0x61b74e10ca594d9, 0x2eb6705a02c7da98],
    [0x7409380c6e4f0d2a, 0xf5b95c1d29676b09, 0xa25ac24de7c5781, 0xb8c7b073c91922a],
    [0x1f56506756ce5ce3, 0x7c05d1d40e3d20d4, 0x5f1b091c68587337, 0x2b254c1c98938131],
    [0x90329781dda14dec, 0x31de91570926a231, 0x6a5d1c428c276040, 0x1f9e68c2a44b9a20],
    [0x9b352cc69e959fdb, 0xdb0270c842945e0, 0xaa814c0e3854ceef, 0x107e82331d1a1db3],
    [0x4fe024b7a343dfda, 0xdae94b5656c8818b, 0xff04a137a183d3f0, 0x17fcb1867c52d50e],
    [0x81b744c208b6aa52, 0xe70278801f4dcb17, 0x9cc129d051f90acd, 0x263f802111aadcc9],
    [0x9a6d6bcb0a5954c9, 0xc9b4bb554dfa37c8, 0x9ba1393e8bacc856, 0x27ecf8ec238d808],
    [0x7345172daf70f421, 0x8616ec7282197ab, 0x12512611b54609, 0x2aac3bfa20e64a0c],
    [0x639313d104a99435, 0x152f880dba55cefc, 0xe046af505fa63c58, 0xf822bf90a6d6c7],
    [0x4f6ff7e9b438323b, 0x5417ff468574b769, 0xb1e07f0c4e0ca468, 0x1d482f74f7352cc3],
    [0xa27cfa076bda8348, 0xd8ed10297b2261e7, 0x1269ca6e40bfdeca, 0x9efb3fd5f2af95e],
    [0xe10376c3a68e58f7, 0xacc8a357c3efd735, 0x20bc48048e716d4b, 0xd70b85544585d75],
    [0x640dd2628d7be337, 0x7c4ee5faad1bc0c7, 0x8a1fee90d4f30a42, 0x2a96c2d2c57ff7ff],
    [0x734f8aa3d4ce2a0b, 0x948da566956c03a7, 0x4bc08542150237dc, 0x467014fd75c87da],
    [0xa1456f4aae1a911c, 0xf1f496d73a13e58f, 0x867e896f30e7045a, 0xb26d2f933b0b528],
];

/// Part 7 of the sparse partial-round rows for width 16, as little-endian limbs.
pub const S_DATA_7: [[u64; 4]; 192] = [
    [0x70bc5eff77556c9f, 0x216ad9054d968dab, 0x64c42a4d44aee71b, 0x25d68e5bef9420f],
    [0x28742f123718a79f, 0xfd5579d89ebf5fd5, 0x91463ca56e3be569, 0x177f027b0cab572],
    [0x501fc05b63887493, 0x2bd966a9ba0364ba, 0x879ea114016e6709, 0x2c5132a44be83d88],
    [0x950d17efa18711a8, 0xfa9ec02ec8e64e03, 0x8bd93c4350007077, 0x14bf8d2e43f7d133],
    [0x72fcfe0801a85f30, 0xd25f19b4591dc6d7, 0xdc97561bbcecee45, 0x309414aa73703ad],
    [0xdda53e53e70a7a87, 0xe722e4273f0f2b32, 0x935571880dcadf45, 0x40ea41587d4a40b],
    [0x183933737a8b8099, 0x5a12255c37ab51ae, 0x206c43daac752b76, 0x2b6fd7bc3a3b595c],
    [0x3a44fa933dc6c7ef, 0x6ebfb646f348fa54, 0xc139a01ff17861c4, 0x10b0d37ca26e90c6],
    [0x12b3f6ee0f7518f0, 0x8e27dbecb9bd3c4c, 0x6eb7d7e22cd12ae, 0x175da5183f974e96],
    [0x13e03bcf26b925c9, 0x8cf44b7d3b2fe41b, 0x30a2c09a3f7b2418, 0xed8273a2cea8379],
    [0x6e4c35009e7d84a6, 0xacbce0cc79c661b1, 0x1502f9fa496dc792, 0x1217c887532e425c],
    [0xff7169ddbcd5b4b1, 0xa4b4b14d2ee2ff49, 0x5c24ee714d1b8124, 0x1903752f1c798c09],
    [0xd01bb398629deaf, 0x8919c233c053e2b1, 0x69511738ffb17cff, 0x2803547df88fabd6],
    [0x900b432baada6dfd, 0xa5f7277fb1e39131, 0xa34bfeaafc9239f9, 0x4ee5ecf2b925246],
    [0x36bc4ef59b52fe8f, 0x1a1dbc15c9965b25, 0x50a25021d96f000d, 0x4c37b33555c3620],
    [0x95a353ec2a60f0a4, 0x1c440b61d7138d4c, 0x39fd71d5699898f9, 0x1a68530699df479a],
    [0xb49b602228ab9aea, 0x65415c4dabdca0d4, 0x5e663b2e14cfc10, 0x62492de9362ceef],
    [0x8387324004b15dc7, 0xe6aa93741dd84662, 0x402496acd0c39a0c, 0xfb5d4b500ecd21e],
    [0xf6c2fd594bfddafd, 0x313fb1ae77984671, 0xe7c38903fca5260a, 0x1747b55b705c98db],
    [0x75cda3a58faf9b2c, 0x536bc85c49205e6e, 0x7459d6ac17330055, 0x2d5a953c65e21d27],
    [0xb9b92a429fd7a403, 0xd3dcb9dc48a34167, 0xb776858c17df7b57, 0x12246b22f19de420],
    [0x21d21fb8a7a84dee, 0xae9a86979684bca6, 0x858632b54a9a2f3c, 0x1133d3224669f992],
    [0x9047e45bace9214f, 0xa935d43ada317de4, 0x6e2a90a37d0b9755, 0x42c7ff4112c72f9],
    [0xec8511a0f820a94, 0x3ca287382dead6b8, 0x7bd97ceb71a8f941, 0x20948256d2882d78],
    [0xa713ed4cd3b42b7b, 0x8ff71a5a23098ce0, 0xc7c7de460e246ca4, 0x1a3624b0bd43a88a],
    [0xad7df388cb9a2c1b, 0x1d39398b7e5d2542, 0xbb1cc2f5a0747c1a, 0x1df0dccc539de543],
    [0xfe8dfca8d7c1c70a, 0x81cfc58f92674fe0, 0x1c584093f98d854f, 0x21dfd5ed89c255e],
    [0xe0e0b3f430d55d2a, 0x88d3318678e3a8d8, 0xd7ff8e2af49bbe10, 0x2161ac36dd50d34a],
    [0x3bf08012aeac1747, 0xe99ee1afb33acb55, 0x9593bf3e49a58dfb, 0x1ed3cc3902361035],
    [0x7192f8fe82044fbc, 0x6868d998ed87276f, 0x8df57b28fd012d57, 0x24c8d8944de11270],
    [0x7a048793c46a3b9e, 0xc1dd489844c06e9f, 0x5bb7184ef691982, 0x183fb7baba3d12e9],
    [0xcc7ce8dde2de4adc, 0xd99cb41e8b92a4c4, 0x21951ba41ccef834, 0x67c083da1428ce5],
    [0x9344813b3b5762aa, 0x5f93ceedd0135bde, 0x41ac8dfb96cf2bcb, 0x1a18a9c1c45e95a5],
    [0xf4c27ce4379db9a4, 0xf7215e4c3bc57d37, 0xf384ed02d5fc90ad, 0xddf7ac0878db5f4],
    [0x2d2ade4032f490c5, 0xa08c96b9100b17a9, 0x48d9cebbe53a821f, 0x2adab562b4f79919],
    [0x466e9f9827d3efad, 0x7cee66ee7b66ffa4, 0x861d1a44378f8177, 0x1f36cd6e66832646],
    [0x596d2b74cf90df3, 0x8de3a4e93ec26cd6, 0xc63d724ff9f8e212, 0x16c514bc623520a3],
    [0x183933737a8b8099, 0x5a12255c37ab51ae, 0x206c43daac752b76, 0x2b6fd7bc3a3b595c],
    [0xd2b11db226627d13, 0x42ae47d5caff6a0f, 0x73433414a39f872c, 0x276235e6cd6b4ad0],
    [0xa696212c8244cf30, 0xac0b0e13f715a911, 0xf8deb74d5edcc5d6, 0x288fc36fe0e39bf7],
    [0x6cd1347714f1790f, 0x620841cd7cdcf562, 0xd53e81aa4bd1fb9, 0x1f6e77bcaf2e1016],
    [0x34b12cee63ad60b2, 0x5beb529f9f9809e7, 0xd9d14262db601d08, 0x2c50c513ccdbe60d],
    [0x19a1dbce4de7594b, 0x9c0be2d3d8a69278, 0xf61b9fe7d5e7824a, 0x1048a932b87cf43c],
    [0x92dfcb56055677d4, 0x2e6ede295ab05ad4, 0x2b886ba997872188, 0x258802f01620793e],
    [0x93334d5292ab1c4f, 0x7f8a272361f8e6ba, 0x4b5a27bb8c5ef9e9, 0x1fdefe23f71f9c4e],
    [0xb30caf332e050b15, 0xe12db247070f684b, 0x7466a48358c5c195, 0x1f46592f6d4c7746],
    [0xbd489718d0245512, 0x6d80e0c336a0c73e, 0x40450e8b212d19bb, 0x1a0628c0617ed943],
    [0x2cea98dc2ed8958a, 0x839f3e1a24c6dcec, 0x5cbc1bbd06320a44, 0x362fec7e50a9ebf],
    [0x981a08f0b4228a56, 0xbd0217c2c78d3515, 0x1c240f289b634c70, 0x1434da4216548b81],
    [0x1334ff31968db1a8, 0xfca609abb924c3b9, 0x51ab733cd5d912ae, 0x2a5a298ee338866a],
    [0xbc6bd0063d8477f8, 0x6b45ac2ca62d155a, 0x1957994cb678fa7, 0x2fe35de4f8239cb7],
    [0xe48814c151eae20f, 0xa520f1aae5e34762, 0xbe15b4d24465ccdf, 0xe81871313b59264],
    [0x65c9aee69800a21d, 0xc7f45de299a1552c, 0x8fead0d648a7024c, 0x1dccfa84663bd16],
    [0x3b767f888b7fc1c1, 0x354d1348a26e7e3e, 0x4052d0399bbb3eed, 0xddcb95ed4ccd615],
    [0xf6bc32f5bf2bc30e, 0x3c325a8d5d0b37b3, 0xc7abdc9a1f72a3cd, 0xbdb5ed04d13305b],
    [0xaba2db0db9f15d73, 0x7c93d3c2c941e201, 0xe225f6a3419d92bc, 0x1a3791a5d480f586],
    [0x36f22562e3280af, 0x192d280ff8b96254, 0xe3ea7ddf885a32e8, 0xab254daa5ccaa47],
    [0x86f9e382257acbd2, 0x3befba3b2585edb2, 0xd1537f77b4d6d, 0x10d084b180585ee9],
    [0x413edf9c0abed951, 0x39b546ddc3a43911, 0xa48109e8437a8661, 0xe99d44a8d7b3633],
    [0xe8049639a5a7e48e, 0x52246a2642bb87e5, 0xd2b406edd5d4232f, 0x1abb36484f304e28],
    [0x62b6e9fa9dc327db, 0x3897a454e6093fc0, 0xf6b1067845c87cae, 0x1f24c896eadcd0d5],
    [0x9462a54f96690dd9, 0x22bd3a3f7b34ebd3, 0x85c3de18d2c00634, 0x1f8c613272cb2e00],
    [0xa472b3016129f86a, 0x7a7ad447437ad24f, 0xe6893b3147b75a98, 0x3f8600811917a21],
    [0x9ee5aaee395c020b, 0x1b2284d8b0442b54, 0xb51be08a3a6a2a8b, 0x21268f597b84752d],
    [0xb8b41ce49daaf52b, 0x86900ba153ad61f6, 0xd306caba33c70e6e, 0x28d3ef83eb355a7],
    [0x7a46e6e822ac90d2, 0xec8b502505f3080a, 0x30086b690322a530, 0x25d200e83b72885],
    [0xff86866e2ac00082, 0xb9d816498b3c2edf, 0x2662d473a358fc1b, 0x2a7f6b2aebe3142b],
    [0x6b9c732e97a5bb71, 0x2dd8ecb1ee0c0437, 0xc6d42fb127eab14f, 0x299afa0d0121fc23],
    [0x183933737a8b8099, 0x5a12255c37ab51ae, 0x206c43daac752b76, 0x2b6fd7bc3a3b595c],
    [0xfc47ecf62cccddd5, 0x7ccfce1962e3f12f, 0x5601e05fdd2a01a5, 0x292e5deb4d74974e],
    [0x319a5f0a731e9b99, 0x23b9cb416af6d749, 0x9e560c5c6058f62a, 0xb7fe07627b2b86b],
    [0xd8431578d87ddbf6, 0x6b7888be0de9c4be, 0xe9e13a7959133e8, 0x1be04625c4aae200],
    [0xdb3b23e379fa5c7b, 0xcce92db0d4b058d, 0x9d71fb89c727278c, 0xd6b21b10daf3f58],
    [0xc53b1dc68674daed, 0x748847574dc8f168, 0xb8f2d2c2d77fe963, 0x208f14de82a7cdf5],
    [0xa743b6a2f631210a, 0xb3fed3ae03b189e5, 0xf818f5c9b768d891, 0x261b3202a10a92f8],
    [0xa3f4a12fed074d91, 0xa6d4e8c62c3721f5, 0x7a9f8ecd8f3ec7a3, 0x21da24b99fc17907],
    [0x603a98d92cd3be72, 0x5ca9ca81839c786, 0x4b6fc9d8d679679a, 0xf821357065851a9],
    [0xe122fa42221bd203, 0xb9b312d8ae0d5638, 0x2306285a0322a26, 0x146cf2ddedf70451],
    [0xb4a16b9a1f9e22e1, 0x8727f037c6821bd0, 0x70466f5a5df27f87, 0x1f5595159d4bf74c],
    [0x3ee973f261c6958b, 0x4ecbbf16d855767d, 0x11a229745a65dc97, 0x2e555ab81d4af507],
    [0xc5a25e36f8fa1248, 0x29725e89adb094aa, 0xad4ab68ce84e1bf3, 0x9d88eb8fedc6dfc],
    [0x8dca055cc8f47200, 0xb030a20314b123c5, 0x47af21bf5a5e4ddc, 0x5becaddb6866647],
    [0xb696610dcf06bc50, 0xad72d1082fda97c4, 0xff342e4ba0169b60, 0x2b5133b32b578393],
    [0xadd90f3d83d62346, 0xdd3ec049e67812e9, 0x1c9ac555ce282948, 0x209f4bb986abb267],
    [0x86715bfa70dd05d1, 0xa901cf3c6c8fce5a, 0xcf3f2bfadcc34003, 0x2986e1901bec371b],
    [0x73de14b03fbb8ecc, 0xebf84ce7b4b275d8, 0x28bca7da534b8bc, 0x36f213f560cda1],
    [0xe1e4e35d26398677, 0x54326b5b340ab065, 0xd11b27932ab7026a, 0x220d1b8cdb11be75],
    [0x3a943d7e487c4e37, 0xb3ec9614c085d138, 0x60429c962fcfd8f4, 0x1fcd7370575ccadc],
    [0xaae2a2001d19cce4, 0xf68622bed5daf5c3, 0xe0cc07f0d40a8f6b, 0x1c49ea5e5ab4635b],
    [0x2d86cce2077c8f26, 0x4d8fa8bf7001a8c9, 0x2e54efe70048654f, 0x2c33a36c54999aaa],
    [0xfd461f08d0e9f7dd, 0x5435c6f581a46ff5, 0x7a2b6af5dfdd55a2, 0xe70e72a3a3d2e26],
    [0xb5ec90ff8785e8d1, 0x3847df303de20d92, 0xd1ad1cc3c083d7f2, 0x6cc0728f4993107],
    [0x8335e7766a93ed1b, 0x8591fc5f6f74b6cb, 0x5bc58af84408697c, 0x14adb5029eecd4e6],
    [0xb0e5e678b6ef47f, 0x8d4ffab9f52f8561, 0xf72d400134a020e3, 0x55d9943e138d24c],
    [0x59ef19df7fbb1134, 0xc7a560dac0e780c, 0x42221039b404c094, 0x24659e5fd5b9d426],
    [0xbc061eb0bcef7bf4, 0xff63a353331c2935, 0xd63fc54110f1e384, 0xe5d9ffb29775cf1],
    [0xc4213d03e6fc636, 0xe580cdf3e37f8a94, 0xe8bfd5709fd95d00, 0x231f3394c59385b1],
    [0x8252e6c61c4cbe88, 0xad7c73380c362ad, 0x18188bece8d3f451, 0x1d74d876aa5187f5],
    [0xffe237a5c555a0ce, 0x6cee48919965304f, 0x4d83ad4e8c090f27, 0x22873eaa2fc0f1d2],
    [0x183933737a8b8099, 0x5a12255c37ab51ae, 0x206c43daac752b76, 0x2b6fd7bc3a3b595c],
    [0x35c5a72dd38f14a4, 0x417dae9656a9b36a, 0xd610b0ecf469c6d5, 0x1cfde7b00570ae56],
    [0x1d49a8e494d161e5, 0xd6910c2f74475efc, 0x16f5a1d83ac8da38, 0x1a5111cb0a961ae2],
    [0x31b4975b4cac64f8, 0x29b750dd3cf02f47, 0xddcd95c78357bf20, 0xcb1846e6664d919],
    [0x7a124bd89e3e607c, 0x66a023c460eef583, 0xc20dbd49208ff17b, 0x2cf7d663f92d7fb9],
    [0x1010a46fe7b3a2d6, 0x8c3015afbaa01b95, 0x67b52a45ca3100b1, 0x203ff2de4108ca75],
    [0x95a4cc9487f58d2e, 0x7ec781847dd62ce2, 0x4015959567a3aeb7, 0x2abcc429149a29c],
    [0xfcb9d1f3a8a7c424, 0xb14859be5cc0238d, 0x6b56d12d9f27327b, 0x172032b322c260b6],
    [0xa375656872fc5702, 0x909c998fa08a714, 0x3436e943de47d8ee, 0xa0e87895274d119],
    [0xa25103364967bd41, 0x47ad60910a5931b, 0x4c0089d162a2a0b5, 0x21eee81004b56392],
    [0x2e1de6b2ea072329, 0x76e5960bc6d3dc13, 0x54041ca93fa5005d, 0x19271e4f9e7b8a7f],
    [0x1b203cbf71df7120, 0xafacecfb6997ac87, 0x8c781efc0e67506, 0x42dc1a29bd582fd],
    [0x21c6ba29fbe1d563, 0x72960514db555a0c, 0x58a9dd55596a67cd, 0x6b8d08b07a1b585],
    [0x1ef5ad8fe2e9ef30, 0xa2439ce3fc1ac3a8, 0x6909c1e55568650c, 0x116c800fc674c2d],
    [0x8bbd342c40aeaf04, 0x80bbff382e8bb7ed, 0x571fb185e6c0eaa7, 0x21b9ef80d19679af],
    [0x3a0321a33a6a5840, 0x80244f25666254b2, 0xec32aaf43e0b43e3, 0x1aed5bf3d3bf68f2],
    [0xf2fcba255e90ee3b, 0x510cb0c2e253ec32, 0x7103550805c52c0, 0x276ae4e84f3446a7],
    [0x6bd2654a15ce49aa, 0x36bb6ee0636010e, 0xa7d565510f73b24c, 0x677e26ecdb28f20],
    [0x7f8962762eec6353, 0x1421c486df1ac124, 0xadcc33da78a37759, 0x144b679dfe4fdf64],
    [0xf9d709701d26caeb, 0xde8ee93f6782e1b1, 0xa1416ba93aaa4e39, 0x2b3e47433e01893b],
    [0x11a32408bf8c55de, 0xbbeea2cff05ba635, 0x670017f02b6f452a, 0x21007ada7a8cf858],
    [0xc34b9da3f27365d, 0x56a100ae0659e60d, 0xd589d0647392ff60, 0x99eb11c109ca74f],
    [0x17a093e029231e8, 0xba6fa022693bd865, 0x16aa9569b9373053, 0x256f44ae0dcaebe7],
    [0x49bd63ee949bc2c, 0x8ba1bd0ab4b2cffc, 0xe9c553cd99a4d28, 0xb43042d175b108a],
    [0xbae3929044039a19, 0xbc15977d8f3ac9c9, 0xa40505d755c0951d, 0x2820651d09922281],
    [0xec9fdf4520bb9f8, 0xd7ca49e2435fcafe, 0x42d893c12b0e8ba3, 0x7c75e7a56b94c49],
    [0xecef95c56ef9f801, 0x1ec411228763dc4c, 0x58b3e8bb6f083b3d, 0x2407140cad6a6c1d],
    [0x884214d63b1e2423, 0x1c962f694d9486a1, 0x7648b497f80707e1, 0x19f6713df3399cc4],
    [0xfb662ffcb146cdc9, 0x5282959888382bba, 0x4d3941a65eeb1201, 0x126880836b31b2ad],
    [0x601316f889073b66, 0x6ab668094850451f, 0x7a9da374301e524, 0x10f48b8b5d35860],
    [0x7efaaa55b9b9e977, 0xec531e80323e0062, 0xec630113748adcdb, 0x2b35da385f9daebf],
    [0x183933737a8b8099, 0x5a12255c37ab51ae, 0x206c43daac752b76, 0x2b6fd7bc3a3b595c],
    [0x40e03c6497fc2a93, 0xbeb526118e75df77, 0x4bf1bba05b680f5f, 0x413c2aabbde38d9],
    [0x32d3d06cc6c28e17, 0x68a17c125441611, 0xfc9c4bf295f95df0, 0x1f5a1a9d111269b8],
    [0x3558d04096b3c595, 0x84a0f3a5c3d011c4, 0xb11d9c58b8eedfbc, 0x212d07b689f77ab9],
    [0xbf1b84a50fee324, 0x97c6a9aee5e479b4, 0xf2d38e8e501aaee8, 0x7c689aeb8426bec],
    [0xa2053e173b8799f6, 0xb037fc7784994576, 0xaa8b7b879d8a0f22, 0x20ad507d2e6bd8c],
    [0xe4856705d6921e7d, 0x5addfc06e8ae7e20, 0x26bcd4d01586e1ac, 0x29a7b5d1df340246],
    [0x71e6feda30610084, 0xf0f6a3e23f518990, 0xb5e81b5bf2c583b7, 0x1cbb5f6c2ab4fe1f],
    [0xa4decd295fcb73d6, 0xce75606b016aea81, 0xf166ddf4fed76cb5, 0x1ddfe3794bfaccf],
    [0xd1afb21ce7a50b30, 0xd359aa90b14caf77, 0x98bd2f444de89a1a, 0x2b49298bd3a44151],
    [0x28fce09a60acae5a, 0x71e6aa6d9f60b9c4, 0x4c8689054ac301f0, 0x2c10b2b301be5750],
    [0x15f4ae73f7db96a3, 0x9bf997dc4caba63c, 0xb4f25389d69b884d, 0x2672e1c103d7a3f8],
    [0xef834410483d7716, 0xaabc46107cfeeda9, 0x79952e118e442480, 0x414ada0c4576f52],
    [0xe074b29870e67700, 0x7724356280f799fb, 0x99f0ca32e7df69be, 0x1c20492095f5c095],
    [0x9d5bd07be9523ce9, 0xd62ebe5d72b66c23, 0x8e808309ea5dcc35, 0x3ac96e8e3ea740c],
    [0xe3c352abf72bc469, 0xabc6608e847c5a68, 0x81a12e1b309f0f95, 0x198f45a7fcf410eb],
    [0xde863159edc3bd7d, 0x2b1b074c0eb50521, 0x1f2e530296fef114, 0x1f46d6ace37983cc],
    [0x71ad90dc1d05e4d9, 0x355513c443ddf490, 0x1e3b7ee0586f060, 0x95d0ed6735b0fe1],
    [0xd0062b71e99efe2b, 0xbefabfceeb00ceb5, 0xf9e4b3fba00f8250, 0xb912abd1261b825],
    [0x151754050bf7870e, 0xa92dd88b4556ac05, 0x9c4d6c674da593e2, 0x2fb34c0ec0486f13],
    [0xc0c71fc035a12f51, 0x7f4c131b3ff2ddaf, 0x8ce265bb1da96699, 0xd3eba1daa20eb61],
    [0xfd3c671b7076c84c, 0xe1e87dc603656b32, 0xc29eaae7e021dc0e, 0x2364018273755eaa],
    [0x915712c4e4a782c4, 0xa8e5975a4ccf5b8, 0x4597d0f01502a166, 0x1f05f9d5508343ae],
    [0x1e5fb0b117dff678, 0xbd0f49e978dab378, 0x10123f3187faec3f, 0x129498a8fb3540f6],
    [0xd33e9ff0c10d8482, 0xb9327f906f9b8e27, 0x1de778082e847881, 0x219e082f6b2eebcf],
    [0x995b8c2f116780eb, 0x2fecba144f504261, 0x1cc8b0ad01d746ff, 0x15b6568d2a70fdae],
    [0x8da7509b4a78888d, 0x906f61926e73d3e0, 0x641465dfa1468999, 0x16da3ade68d775f],
    [0xa195f6860a750022, 0x7b83dd2800633538, 0x5316656b5e8f6486, 0x1e0899f2fb6d238],
    [0x2f4c138b12db2710, 0xbfe62c569b7d6955, 0xaad6415787b8cfa7, 0xd5c49a0cfc9aeaf],
    [0xdc4858ceac8d1d56, 0x6000a5ca187653b0, 0x294d1e723aa97c2e, 0x58e978c6c092939],
    [0x7595f86caa7cb23b, 0xf6e1c57e855aa009, 0xbff04b742907b84c, 0x188a71a52f914ec4],
    [0x183933737a8b8099, 0x5a12255c37ab51ae, 0x206c43daac752b76, 0x2b6fd7bc3a3b595c],
    [0xa4c61431a2063453, 0x57808fc43b07e76f, 0xea9a794c4adff2f5, 0x2f3a7566a10cf8d3],
    [0xcb60361edd4ac48, 0x1dff9a96fccaa7ed, 0x71b454f2b2e931d4, 0x9a8e3349ecfd2e8],
    [0x8014d126e7585a96, 0x5989d325caedaf58, 0xb2fbf14165d46c17, 0x6a81b30ef222ba0],
    [0xf0c5d49063f122be, 0xf5fbbc8d0a5215fb, 0x7ed4b70aa9a561ac, 0x27c859acb50045e8],
    [0xccf949d59ee596e1, 0x2b9d1c2cb522a0, 0xfb1b1053651feaa5, 0xe784382f4defe97],
    [0xb1f4e584eb24872e, 0x3bc7d650ff510cf2, 0x1d8cec72c4d182c1, 0x179e84bd06bd608d],
    [0xde59cc281f54fd1c, 0x7063ae1ff17a9648, 0x31ab04b76d0cc3f6, 0xf23d189f57b74ae],
    [0x20ac14327b009d62, 0x24340fd2531a2b2c, 0xa26108bde4732968, 0x1f0d550989ea2ce],
    [0xed88d5ada5ede42a, 0xa705ee18f9e447df, 0xa5da377f73edb803, 0x14a346d622c46513],
    [0x43034f015c81ece7, 0x27f143f1b2c726a3, 0x570d2601466bfbea, 0xa71d5e77eb081c8],
    [0x6df242230e9945e, 0x28055cf6e2a12725, 0xf5c607da1c4164f9, 0x11fbd1c03b7aa3a9],
    [0xc6caf2bd09d9e46e, 0xe5ddca9bac146648, 0x9bba8add0632d65e, 0xb5dcbff27d66850],
    [0xb697724cc1c3289c, 0x470b170355a8517e, 0x1e6f748cac7192d6, 0xca07ef6ebaa5ffd],
    [0xd6369ed73df6374b, 0xed9dfb5354c532f2, 0xbfffa79d2237c162, 0xe0dc71090198288],
    [0xb0ad10048ac86920, 0x5284a96ab607afe1, 0xc06ab66dbaecad8a, 0x191093f164dd4120],
    [0x6946efbfa4893e97, 0x76d61f435094ea1, 0xdf87412a537f6601, 0x111d04c083f51a6f],
    [0x5c785b70988a3a88, 0x349fd22f2d53530e, 0xaa860d0318f6a4b4, 0x133c5913f25ff5e],
    [0xe7d0307520a56cf, 0xaade284067228f44, 0xc2df51a786bf2207, 0x8875f47d6f518c8],
    [0x9a7efe47c9473f21, 0x728f5f5ca6840664, 0x23fba66f2bc34152, 0xba9f44a107a81cb],
    [0x97698413153ba6f1, 0xa2442e998c5381ba, 0x4b547a1066037152, 0x542832ab23b6c7a],
    [0xd1e9e2ed26906fa8, 0xf937906a816641e0, 0x2942ccb6edf051c8, 0xba1f76436736095],
    [0x34d3cb6cfd8b7ffc, 0x141f4ed0dc4b0228, 0x7bfaf512f21a4081, 0x2e0611fa4ca3985d],
    [0x2500876697897fb7, 0x64b6c08cb954a14a, 0xec68341a87830fb8, 0xe6f23c0ef6f159d],
    [0xd9b8b1b2da461cbc, 0x1c8f7c2ed2debace, 0x5f720302bead7ca2, 0x1a7a2a4a08d87e7],
    [0x70ce861345979d1d, 0xbfc10ee486ecc5b6, 0x87dbb442b482cae5, 0x1d8005df48c85659],
    [0x76d49d0886da16f3, 0x82e5e1271618858e, 0xacb7e98f557e7962, 0x28122254823f8926],
    [0xaeed6c61050e05cd, 0x23b2dcffd579a8e6, 0xdf681328e68a582d, 0x2414d4aefc7b4857],
    [0xa33b96e95d3746b6, 0x2b0265d13e2326a9, 0xd87cbffd55665b47, 0x2f710c72d6da19c7],
    [0xdbc7c3c30320c00e, 0xd76da8211b04a236, 0xb41d6480836850e4, 0x2e285441d0bed90b],
    [0xc2012e36a19dc95c, 0x2077a287434bda4e, 0xa1a6593662aeb9e1, 0x2964901a2b42e9ae],
];

/// The values of the sparse partial-round rows for width 16.
#[verifier::opaque]
pub open spec fn s_vals() -> Seq<nat> {
    limb_vals(S_DATA_0@) + limb_vals(S_DATA_1@) + limb_vals(S_DATA_2@) + limb_vals(S_DATA_3@) + limb_vals(S_DATA_4@) + limb_vals(S_DATA_5@) + limb_vals(S_DATA_6@) + limb_vals(S_DATA_7@)
}

/// The sparse partial-round rows for width 16.
pub(crate) fn s_table() -> (v: Vec<Uint256>)
    ensures
        v@.len() == 1984,
        vals(v@) == s_vals(),
{
    let mut v = from_limbs(&S_DATA_0);
    let mut part1 = from_limbs(&S_DATA_1);
    let ghost pre1 = v@;
    let ghost add1 = part1@;
    v.append(&mut part1);
    proof {
        lemma_vals_concat(pre1, add1);
    }
    let mut part2 = from_limbs(&S_DATA_2);
    let ghost pre2 = v@;
    let ghost add2 = part2@;
    v.append(&mut part2);
    proof {
        lemma_vals_concat(pre2, add2);
    }
    let mut part3 = from_limbs(&S_DATA_3);
    let ghost pre3 = v@;
    let ghost add3 = part3@;
    v.append(&mut part3);
    proof {
        lemma_vals_concat(pre3, add3);
    }
    let mut part4 = from_limbs(&S_DATA_4);
    let ghost pre4 = v@;
    let ghost add4 = part4@;
    v.append(&mut part4);
    proof {
        lemma_vals_concat(pre4, add4);
    }
    let mut part5 = from_limbs(&S_DATA_5);
    let ghost pre5 = v@;
    let ghost add5 = part5@;
    v.append(&mut part5);
    proof {
        lemma_vals_concat(pre5, add5);
    }
    let mut part6 = from_limbs(&S_DATA_6);
    let ghost pre6 = v@;
    let ghost add6 = part6@;
    v.append(&mut part6);
    proof {
        lemma_vals_concat(pre6, add6);
    }
    let mut part7 = from_limbs(&S_DATA_7);
    let ghost pre7 = v@;
    let ghost add7 = part7@;
    v.append(&mut part7);
    proof {
        lemma_vals_concat(pre7, add7);
    }
    proof {
        reveal(s_vals);
        assert(vals(v@) == s_vals());
    }
    v
}

/// Part 0 of the dense MDS matrix for width 16, as little-endian limbs.
pub const M_DATA_0: [[u64; 4]; 256] = [
    [0x183933737a8b8099, 0x5a12255c37ab51ae, 0x206c43daac752b76, 0x2b6fd7bc3a3b595c],
    [0x9c90665aa2d92cb3, 0xcffe78d747faedad, 0xd3f07d0c3e6cecd6, 0x69b1779dec3eade],
    [0x8a6f4cf776d13b99, 0x554dddda89d32dcf, 0xaaa598b7771f88a0, 0x1fa4effc83498d19],
    [0x92043dffcb26bf41, 0xdeeb099647698815, 0x4c37ec8ae1a8314b, 0x1676f5c07417ab5],
    [0xb9b7e74448ee27ff, 0x814fe687b4c8eb81, 0x58aa07bf54ff324b, 0x1f4e7bbc8d42779e],
    [0xdf905d4cbd1dfa9, 0x35c296479f484b68, 0xa99a04c8c96ae5db, 0xf6b18c98fc89fbf],
    [0xc439f5c1f4fef54b, 0xb0045af06c2d86d0, 0xc6c191d36329f30e, 0xe6cd10883e1e11],
    [0xcc284d983bca8757, 0xa514198b296a1629, 0xbc7170a2ffc24eb6, 0x425a9641fb01558],
    [0xe8233c58dd50335, 0xcd5cad2c39888495, 0x941348de45aec442, 0x397a7d7434b0aa],
    [0xec20d3b93252ad04, 0xbac2f7cd9dfaccd, 0x1385c22e203dc08f, 0x1d66f208fc04411a],
    [0xbd967e6a3676f356, 0xe7ec81885a07a5bc, 0xdd1fdb17b9c7c648, 0xec1ed3ae3beac4d],
    [0xd69a3f790b27c603, 0xc1cc2c0ed8126534, 0x214362c8419474d, 0xb3e601e36a5d82e],
    [0x90a07e14af10b0d, 0xdc4ce59267718cc6, 0x7b25b095a3aaa8cf, 0x163cb4e3a5ec92e5],
    [0xccde3aa3a51d41cb, 0x33646b89620dd0a8, 0x895f48d7a1290d7a, 0x2dca90f3e5a15b29],
    [0x1122d64f729cff22, 0x93cb33ff671b737a, 0xbeb9dc0733c4bb18, 0x2c78ee5ea16d38f0],
    [0x66471fa730f19c79, 0xff753e3292bbf62e, 0xdcf00439c75a294b, 0x2af324ec4f9e7786],
    [0x6946efbfa4893e97, 0x76d61f435094ea1, 0xdf87412a537f6601, 0x111d04c083f51a6f],
    [0x41448abb632a764b, 0xc6d00bde82bd7f54, 0xb37023518a071675, 0x187aae261ef3ee21],
    [0xb1a7aa21663822b1, 0x576e5b282f284795, 0x96a2568b2dd7a584, 0xda28ede7f63f755],
    [0xf215ab1f7f03498b, 0xcc764f9b1c8ba463, 0xa3b2da5e30107716, 0x2043bfe52d2964e4],
    [0x8c40d908dd2570ee, 0x59fbfbe71e096d51, 0x938aea3eb5520915, 0x27b48a636a39b51a],
    [0x16864f3c73ebb7f9, 0xac62ade0c501347b, 0x2acf7856d6dea3bb, 0x17fe75a3d11b4b9d],
    [0xc7cc6f6d37522a59, 0x152ca9632124216c, 0x852654fb13fff42a, 0x2326c3dca7aab6b1],
    [0xea5c6517b046eb9e, 0xcb0c6f7d0c4155bd, 0x9da92e33237f9a82, 0x80c442909227f4a],
    [0x81cd931696fd7837, 0x65c37d3bc6c4b39b, 0x91331bc907397db8, 0x2b1c00ea00893f9f],
    [0xe90bb68b90109746, 0xb0145fc2055e4d5b, 0xa85943ffaf9c04db, 0x92f03c7e98e61c2],
    [0x82d2d65c0fd8d7ff, 0xdbc21642a16fcc41, 0x26c9a2a66be4ec75, 0x2a0f77bb3624fc48],
    [0xc5687334b607da7c, 0x7e86692e529b6a1e, 0xb79b80e7dc04a72f, 0x1083b742d35332a8],
    [0xf3c9ef51e28e76d, 0xd9cbced97ccf1006, 0x9d447b6cedd0b6aa, 0x53e95f9455bc649],
    [0x6caeb89d9e34ee6e, 0xe8519e2b17cfa01, 0xe12749b27d646e62, 0x5904dae3470d40c],
    [0x6a4f79274f2f6b9b, 0x19c77fd6eea50612, 0xa93f476b466e3710, 0x2e563b9dc5a3d4d5],
    [0xac5fcc087ba2d5b8, 0x7acea41d7f48ff11, 0xdd40c9426cff4146, 0x14560083d980d172],
    [0x5c785b70988a3a88, 0x349fd22f2d53530e, 0xaa860d0318f6a4b4, 0x133c5913f25ff5e],
    [0x6f0fd509b8eb9c31, 0x4cfad4f96dcc7d63, 0x29471e3fddc9ef99, 0x169538094d4f7525],
    [0xee5781a64f082439, 0xf674fcfa1eb787df, 0xc591ebe514c7f283, 0x199835da95f6eb22],
    [0xeabbb49a25f105e5, 0x3b565a0cd2f218d6, 0x991b39da129f9d0, 0xdbd8662511dd700],
    [0xd2caf613920e390b, 0x109954d99e18d72c, 0x5db55077dfa46e08, 0xdd0c118f15ae07e],
    [0x22f4afd1867408c9, 0xc2469498b9c1e4d3, 0x8a60b0e5f292bb03, 0x7c921bf45e35484],
    [0x4e9b895ae141da86, 0xe555b89c0f49b613, 0x5bc026a1864d568b, 0x1f694d1acbaab0ea],
    [0x72224d337402bdec, 0x402425bac3b85e3a, 0xd5d839540a1005ed, 0x1604de6a2db122bd],
    [0x4f6fe6607523aa08, 0xec29146df06fdb5b, 0xf221267bb1be1656, 0x25970ce31b7b10ce],
    [0xe532636cc60782e8, 0x711cb8bcb538dd98, 0xee97e2eb070e9df2, 0x14956f80a65b01f9],
    [0xbbd2cc9eb1b0a53, 0x503dc4b74da40ba, 0xf30edc47b9e82adc, 0x1d799ae83ef6552],
    [0xfacfe54666f590af, 0xdceb83991919a9ca, 0x13b2b4871c4e9b0, 0x12417c001be86197],
    [0x9462b443fa40cdc5, 0xb0c87d78b46d93bb, 0x6a819e24d0acef08, 0x2171fd11f9448546],
    [0x958af462efd645ff, 0x51869bd30528c378, 0x3cc74fb3d83d4e33, 0x22e9bf2aa02fe65e],
    [0x80ff4ef7cc73f0d9, 0x7bbfb3151df510d0, 0x9fbcea414a91e7b2, 0x72ea2f5cdc8a378],
    [0x70250178e9a52cf5, 0xbd84acf7eb68548, 0x61b8f3748c84791c, 0x260f751c7823abae],
    [0xe7d0307520a56cf, 0xaade284067228f44, 0xc2df51a786bf2207, 0x8875f47d6f518c8],
    [0xd4220166ea0982d7, 0xae1157bf507e7799, 0xb2f89be27373d397, 0xa68830f19c0a729],
    [0x5e9841bef7b9210d, 0xd99bcba075ab82b5, 0xcc7f78a4d6e2cd3f, 0x2af560600b3e25ab],
    [0x57d5a8447bdbd6fc, 0xfe28dc0bd8cb1a44, 0x581cac020051de26, 0x11b33a9f1818ed7f],
    [0xc8ec5966d6a4c788, 0x5a3b69fa7b7c2ae2, 0xfb8d76e8d380322e, 0x45c617f604c1ac9],
    [0x9b569dc34f064c1a, 0x347204b877e7f85d, 0xef7f9b930355312b, 0xe6197fe502328d0],
    [0xa7a8438333f879cb, 0xe8ff323a20be6a6a, 0x8dfb6c0388b9daa1, 0xcdfe099e7a15427],
    [0xf42b1f6553bcc655, 0x8ae85803aec7a204, 0x3feaddde22ff36fa, 0x15ded859d501c273],
    [0x81f61dd6d6214cef, 0xdbcd42240ed860f6, 0xa300abaf2e1d5c32, 0x2d4026bfa7b37a19],
    [0x15bcbbb65b1288c0, 0x6716e6cb5f895d27, 0x8464944f7192ecff, 0xbccb669cb016d49],
    [0xa4fce1146639d0d5, 0x72c771e10275dccf, 0x90ac0f1f45ec2fb8, 0x5de1099c65f08a9],
    [0x44e2b8e5c4379478, 0x1f34046172a82cce, 0x9338b427b3184d94, 0x2c465d9b5eb852d7],
    [0xf84d4acfd9592d59, 0xddd6683594ef9a83, 0xbefc2b171f99ebe9, 0x23918075c8fa0929],
    [0xe7306967480a287d, 0x757f144df166479e, 0x5d97452a3c06d9fa, 0x15d7fba62bac57be],
    [0x7e51811a68311bbf, 0x9f24f1c6e2643094, 0x901355955cc4ddb9, 0x2b6f16f812ba903],
    [0x60685d890a24fdeb, 0xff0d53a98e94a2bc, 0xea74aaa7802c9c73, 0xf6673b7fb4be8cd],
    [0x9a7efe47c9473f21, 0x728f5f5ca6840664, 0x23fba66f2bc34152, 0xba9f44a107a81cb],
    [0xb85a65697895e63f, 0xcb149b0afe38d1bb, 0xd1fc5f05fa0f87dd, 0x18ae39086eebb98],
    [0xc6d156833b34c52a, 0xb3221fd9b43461dd, 0xb549b24a65ec84f1, 0x101544d131454f20],
    [0xdb1d6a7771ec6650, 0x24885ec21762bbb1, 0x59bb95206ce3ed31, 0x26f2f58d63ca6ef],
    [0x13c8ca91c820c2d1, 0x3440ead099958653, 0xe4c6246e35f802e0, 0x25b974fc5129d82a],
    [0x4beef9f621da2ba2, 0xbb6732207925d3ce, 0xeca7397d065023f0, 0x2d409bf78bd6f6a4],
    [0x385504736aa86de6, 0x6683d30b02415dfd, 0x476e70568d2dcb0b, 0x17f732cc1354b1fb],
    [0xb0fb7a5568893aac, 0x6a2b33e7a22e2710, 0x7b74a43125cf34d8, 0x40db0defe6ba479],
    [0x80e5444e5a52c9c7, 0x106e0f5f37d1f2ab, 0xff6833d6e22742d4, 0x29e89034942414a1],
    [0x41754fd49f51b225, 0xb6f93f1e537d7d15, 0xcf44aacf1044cd6a, 0x121d2ba5bd8f232e],
    [0x94adf066243ff6bd, 0xbb176a92129b34a2, 0x2d8ce73d1cec2b6c, 0xf0913eb4ee7d3c0],
    [0x35e0423fb207d979, 0xfb14d6465f9d1df8, 0xc7761008732a0097, 0xa0fe66c0d4de00c],
    [0x31899b0646b2f061, 0x34528a0752b39283, 0xff6aba32de5f8194, 0x898ed1ec1a43687],
    [0xd0da90095a13262, 0xb6e510d761e0da17, 0xd6d22805974f2539, 0x11e0b2343ef371d2],
    [0xb974a7f2bc99c946, 0x77c7d39ef1b49166, 0x47899377da35b7e6, 0x1d59d5c10b0c9dd3],
    [0xf819bdb5fe54241d, 0x5f1bbfaeb1155f1a, 0x2e6a74f4ec7cd245, 0x1a15b7e2de27125f],
    [0x97698413153ba6f1, 0xa2442e998c5381ba, 0x4b547a1066037152, 0x542832ab23b6c7a],
    [0x9495f7d7b7f06cb1, 0xe6097abc3d346f04, 0x612765710bfcb1c2, 0x4c5ebc771344cc0],
    [0xd5309e07d410e4e, 0x66a11afb5bc93cf1, 0x4d4bd7bf5ce5466a, 0x1a51740cda5e45ea],
    [0x21d7cf3290dc6d08, 0x390c24886e1f122d, 0xad3cb237064ec68e, 0x2eb6ed568377b696],
    [0xef43561d58c5926e, 0xc25a7ce58df06f13, 0x492fc3ec7d8ca8e3, 0x181589b140c9109e],
    [0xc50af8b292c0ea42, 0x9ebe1ff099292b4b, 0x668c70fcb41582ee, 0x205a6d5aab2d224b],
    [0x5c6b4fa540148f43, 0xaf736d4ee6ed991d, 0xff7b9aa8de9e3d81, 0x28239a882dc7b2f3],
    [0x578f9fef9a5bb283, 0xd45860cc015849df, 0x77e615c8c2602193, 0x1ab15f2fde6f535e],
    [0x312e488d8d6f194b, 0x30b539d5c5ba13b5, 0xe1b281d0fe206dff, 0x32b6266f24017fd],
    [0x7be93c9e0c92f3eb, 0x16bbec3c76ab6a5f, 0xf4058a056110a268, 0x4e358f259a33244],
    [0x196d7e169c93b84, 0x6ea60e63858ec5b5, 0x98927b52c24f3879, 0x25a9ac2d1ef84abd],
    [0x3dd5df78d340721d, 0x3886755f52bfec7d, 0xe2bf8484fbbc3984, 0x2f521f24bc02286a],
    [0x2dfbc38cb679d06d, 0x4108d8b146926655, 0xaccad181b6e26547, 0x1dc3f7a659530a13],
    [0xf48222bc902092a8, 0x1c7f64005a83a6f7, 0x6fd383e535d56762, 0x2ba39845393fcc77],
    [0xf82af5c664d6ea2, 0x57e4708522157bfe, 0xa5145a5c48e60c54, 0x4730fe04e0108c9],
    [0x1e99b5e08f01cc74, 0x77c851e1a51185f3, 0x2ac7fef27591e76a, 0x75a09e41e74de8a],
    [0xd1e9e2ed26906fa8, 0xf937906a816641e0, 0x2942ccb6edf051c8, 0xba1f76436736095],
    [0x3ca3ccac81d9e1e1, 0xadf272a1bfec3c44, 0x88d4a601e77bd80a, 0x29faa7dadc8b7e95],
    [0x88f0a3b2537bdadd, 0x40c0085dd5d6065b, 0x1b17790128be9f24, 0x1324558b8a5d4ba6],
    [0x4821e0347faf53ec, 0x92f38e02ce363582, 0xdbbd12f408bd5c5b, 0x18faaf1c91e002f7],
    [0x9996a32e7cc523f3, 0x529841344538d649, 0x38dd26292b39e260, 0xee1288b29855e2e],
    [0x8e7717b7a52bf106, 0x1090a4c7ecbd4e63, 0xa7d116f4a9337eb3, 0x2380ab051d0ac580],
    [0x397c1c94f650f2cd, 0x627a5bd31315808d, 0xb321b293bb8a8647, 0x158926b9e94b10fc],
    [0xc278e10bf0bff5e5, 0xdbbd1197a90a456d, 0x76751a895242c30c, 0x264fadcc791aa18e],
    [0xc3040528e4a3dfda, 0x202b7334cf2e0dd8, 0x2239bd9411c0a6c4, 0x2ea014b61ed57539],
    [0x58d5e6eecaea8fb1, 0x3e15a0b1e4d93952, 0x35318204ba506066, 0x2da2603a26d4fdec],
    [0x2e98d98f9bb9d104, 0xc69ec7885bcd0d2c, 0x6af100dfdf63f8bd, 0x20a0e3f4e1249c4c],
    [0xdca8ab886212f0fb, 0x1224b5efb8b1eb1c, 0x679711e030bdbae5, 0x2f1d3eed36018f9],
    [0xfc366eae770e435d, 0x2cf4ffbd9c694163, 0xe372080e997a3139, 0xe388bb105242406],
    [0x6217047155c5bf1e, 0x50f89788e2776689, 0xb00bf34d2aa1a8e4, 0x25143649c13e08d4],
    [0x4881a2719276be0e, 0x209d8d22b8b21ac2, 0x9f952550a223a52d, 0x12ec24239ba1b0fc],
    [0x97365146bef9c6ce, 0x5ceca9d65fba020f, 0x7dd0bebe95360064, 0x79c04944d50b477],
    [0x34d3cb6cfd8b7ffc, 0x141f4ed0dc4b0228, 0x7bfaf512f21a4081, 0x2e0611fa4ca3985d],
    [0x3b512e6e8e8f7fcc, 0x7c8933bfaeb5d746, 0x8724e7ceda2431e9, 0x2acf3493012bbd81],
    [0xa808d66f2d06b91, 0xaab150d3753a5425, 0xa7743e7df8fc8375, 0x13473024ba419fc2],
    [0x6aa65a9ebe69788e, 0x20439fcb2a090e34, 0x1f0e39955f2604bf, 0x29437af1b14f637a],
    [0xc692ac34d7c98d34, 0x946ea86d7304b6a2, 0x280cc643b9479f49, 0x206e4d445315b764],
    [0x729dca1f9a74e59f, 0x11f5d9885e58a9ed, 0xe9efd80a163e6501, 0x1382c3c24bf2489f],
    [0xc4998135fa5f4aa0, 0xdf935a82f2a6f432, 0x867d37264b4ca14, 0x17cd11864fd2c73d],
    [0x5c98d554db6fad3, 0xe9e3ab32fdff0b3b, 0x23a91a6cd1aafb58, 0x2de279fcf77a2708],
    [0x55d409ef751200b9, 0x80f6e57dc07732a7, 0xb7abe0cbea263966, 0x12ced5254e260a9d],
    [0x200fb687a8ea5c83, 0x8043ab0bddf9b9c3, 0x1264cf1a36e0fe4b, 0xef5f9ee6ba1ae1d],
    [0xc4195a854722bdfd, 0x6693be657489492a, 0xe4ef08078e8128a0, 0x6b7e18d01b47ff8],
    [0x2be8376706deb20e, 0x58a4dbc7c4b12eab, 0xeec9f35a29986bc9, 0x23aa7ccc3751b740],
    [0x5189e77406a7e86b, 0x92af6aaaa7b844f3, 0x3903605d7cc94d5a, 0x2273c370eb5810c0],
    [0x7c159c26b9632cd1, 0xae8420b1ea4660dd, 0xe20287a91abe388a, 0x2a7310e75fafe902],
    [0x1714eea7c7d82d49, 0x5c8c5083f9d69bff, 0x93ffd3e481e4a7b9, 0x20098399725ee15d],
    [0x29be80137fd8972c, 0x73923052b6a01f3c, 0x4e684123f0ffe221, 0x2ca2bac7c1aa0c6],
    [0x2500876697897fb7, 0x64b6c08cb954a14a, 0xec68341a87830fb8, 0xe6f23c0ef6f159d],
    [0x1085383b6f6ec4a3, 0xad232d9bf63c8882, 0xb312ca0e0cf70034, 0x23b34612e7d052f6],
    [0x3bafdd99356175f0, 0xaedb10139e3053e8, 0x383446550534dc57, 0x13f15bc6453df6f9],
    [0x88778f7287938d8e, 0xdf7764070a8263cf, 0x27c66f3494862d75, 0xedf86bf1b1599fe],
    [0xc5cda6efa8c993b1, 0xf258ba738f9094e7, 0x297daaa6d4ddb6a2, 0x1641648c26b5a2dc],
    [0x50625f2be52f3a41, 0xb8341890c3329af0, 0xc391e94c70f87120, 0x280c4522ad0ffd92],
    [0xcf71ff5dc0d61b1b, 0xa44f20af3386e13b, 0xdb8e7506e6f0372c, 0x1d772098b6154921],
    [0x7020a22614a808a, 0x39bf355eaca8cc7b, 0xf4b9814920183dd8, 0x53ed8ad550d8992],
    [0x16ac5ed63a99a5e, 0x79538d63bce344f9, 0x193b9f870f449560, 0x1d4f9ba4fd8ce4ef],
    [0x41de22c8ba8468a4, 0xa2cfb9fc3c1e791d, 0xc4715274ad67a5d6, 0xd53d61c8a5214e0],
    [0x7f666f6ba61389b0, 0x9d16a87d89c88905, 0x287e975f2b4f5b90, 0x12cf87253913d45d],
    [0xd25f0f237ff607fd, 0xd329f9a8782469c4, 0xabc325bba32aa343, 0x2b088cd30a10899b],
    [0x96ebe872e1c19475, 0xa43c7ee20c88e290, 0x8be4fb28e4b19efa, 0x19972ffdde7898ec],
    [0xf910a75e6f47739, 0xbc804313ef8c6d8b, 0xa16ee6042529ff02, 0x1fa6944703fe0012],
    [0x99d645ba20f1fc26, 0xe28b8f21d033fbf0, 0x8ac84e623f483a6b, 0x18237af733bc4441],
    [0x5d207bd317e19cf, 0x24fdca0e95ba9cac, 0x4dcef0f08edd2415, 0x13d9035a0dc798b0],
    [0xd9b8b1b2da461cbc, 0x1c8f7c2ed2debace, 0x5f720302bead7ca2, 0x1a7a2a4a08d87e7],
    [0x18767c97cbe0a197, 0x31d86c4d03a96dfc, 0xa4cd3607017fa83, 0x11680cc6e80b0e43],
    [0x8dfb2210b529b4e5, 0x36e2b58bfdceb3d4, 0x44532c9f054b3796, 0x1314b54f87860962],
    [0x53a0ce3e29c7eedd, 0x1063fa3f635887e7, 0xc83246a96ebdde35, 0x1336b208e00d8eba],
    [0xd7e971c44c048239, 0x976e087eb8990c76, 0x482ef3bdcf7ef17, 0x1887be87f7a35241],
    [0x61b620003b888204, 0xd6bc813982a0e715, 0x97568f1bdcd6d58c, 0x1f405a9483311e14],
    [0xc1e6e48604134264, 0xf0489a8e900a5f14, 0x9fe2b8329125e7df, 0x209576be72db7b0c],
    [0x9fff3cb38b22245a, 0xf620f058bf0186ce, 0xede943195269c00b, 0x279702b135d144],
    [0x6591df208b6b2583, 0x1fc7edae637cc611, 0xeb5b714d7b2ebcd8, 0x2c9c3135cf64b89],
    [0xc9784cd64b183fbf, 0x1871f71128eee3f0, 0x7f518bb9c6a4ce50, 0x252e78b4838ad500],
    [0xcb398f71c95b668e, 0xea9b1bc9621b654f, 0x39867842fd0e7d41, 0x29a7d554e9ffbee6],
    [0x50b604193e79bc3f, 0x4363f21bd7203473, 0x8e9913829f560250, 0x305a0c2c2c4d3599],
    [0xd39702b214ddc5fa, 0xecef89075e96c943, 0xe2d968335b73e15f, 0x61d78e1953d1943],
    [0x3179d4bb99dacdc8, 0xcf98730a9785de39, 0x22473b8e39f948b9, 0x261f975babd76928],
    [0x995a443ed7df68e9, 0xcf06a6ebf58dfa7a, 0x23d1b381a6c58d0e, 0x1e3d6cef37f9bdac],
    [0x489b983454032d4, 0x240246a2d0f85443, 0xc56b6e9a201f8b7b, 0x1d6657d791831169],
    [0x70ce861345979d1d, 0xbfc10ee486ecc5b6, 0x87dbb442b482cae5, 0x1d8005df48c85659],
    [0xc8ae6132a3d6907f, 0x6298f8f30a2d1010, 0x444623d67fe99111, 0x1fa772ebde6f3732],
    [0x649af576467fd798, 0x21c560df2fd3f6c2, 0x63d7b603ef8cd063, 0x56a8ecd232a674c],
    [0x6784cc6004d8928b, 0x48fc533891f557e9, 0xd56084cb48500fac, 0x2646341eb44b4800],
    [0xbc8d3a6e582209f2, 0x27235a22a1ed4f88, 0xb4a6d9c98bbbc160, 0x231f2c98bda8d48b],
    [0xb4d5312826e89942, 0xd8add16b5cbefb54, 0x4857b0bd7d7392b8, 0x1cafcfb62926fbc0],
    [0x4ffb4711ade1eb0f, 0x3d594cf4a0cc67b, 0xf7737f044161902f, 0xb7ab1ef17ff6235],
    [0x73cc7766f96d9948, 0x6df429ecc22471be, 0xb38eb582ac4abbb1, 0x179a82b77f2ccb94],
    [0x23e1e9ee20b42558, 0xdd1fa01c7ce6121d, 0x1904856378442151, 0x18b63685f6fed2aa],
    [0xfcc47fec5763ce93, 0x36668d0a863be50, 0xae1724f32f21a06b, 0xa27a8d1af6a0460],
    [0x8f3e999fb610ed38, 0xc2744152156fbf7e, 0x639cdabbacd01bf3, 0x186756775058d09c],
    [0x1c2b28966d96180c, 0xa6596598a27031ea, 0x19dd1da049beb39f, 0x8bd9ddd192d797a],
    [0xdb93c26311a72017, 0xf5903e1e75a50536, 0x63ed7a7bd071253e, 0x194184a825de9e9b],
    [0x9da3567a6dd6ce82, 0xa9876792d3915c8b, 0x643b3008085a27f4, 0x2e08b28bdcc417d9],
    [0xaaf5401d2c867e02, 0x9b079de877fd54, 0x16d5dbe1dd05b22c, 0x28e55b0bed591912],
    [0xcda423bbb3ffa786, 0xb18ac6b80e4065fc, 0x82ad8f7bd41c12c3, 0x1c89d8f975f03042],
    [0x76d49d0886da16f3, 0x82e5e1271618858e, 0xacb7e98f557e7962, 0x28122254823f8926],
    [0x25e33e19b3c98494, 0x812714d6604132d5, 0x8317f2592ebd8db0, 0x2e63f1740332f57e],
    [0xc1c7f95c152ee262, 0x38b739d061582543, 0x31e75132e050bf38, 0x98b740976c2a10],
    [0xb1e5edfb1602140f, 0x4a04bd9ba5aa2765, 0x48e112a0742d8ae8, 0x6f53c79fed9e098],
    [0xaa5e5d11561fb145, 0x98cb53dab5199750, 0x1fe1111606af396e, 0x1fcea89286dc1db6],
    [0x44a5ffe9e159508b, 0x83e7e94eec23e0f, 0xeb203be56594416b, 0xa12e162620e71be],
    [0x836696808b12d8e5, 0x573086a5d818c038, 0x716a0e28990caf17, 0x1b1bbf4e9f706051],
    [0xaa8f65102123efd7, 0xa9b70e6d5a603fba, 0x5fc1d5af2f2b5d47, 0x89efed00e9d993f],
    [0x3504f9ab26a43d15, 0xb27cdf5a0b83ff8f, 0x3d68aacf9c3a8fff, 0x2b202e1d2626c679],
    [0x61be3d4d248c862, 0x25f75cee9036e66a, 0xe5a531633ac22bb8, 0x3048a265d0eeb40],
    [0x5988bf6dfc010a6f, 0xc6fb6d4cf885f113, 0xc3a7ac50b80ec330, 0x2532dd7487fcae0d],
    [0xc801b78979af9e61, 0x60aec058348ff220, 0x84517ab3def487c4, 0x12cee8e3d1cac1ca],
    [0xb9c9b0753ffaefee, 0xb2951839f71f329c, 0x613183ea827b91c1, 0x21c0d1874decaf90],
    [0x397d5b6cb805387f, 0xf6e5419d32f5668d, 0x768b0e55ec0d4a85, 0x17e9ed191c5641d],
    [0x7712b35ca26dd045, 0xc125927bd16de280, 0x744919fc555c77c0, 0xc6c9ec31c9e3be0],
    [0xeb750145f1a77400, 0x95a6446a76053543, 0x8965e49c8f315c29, 0x20829ef3df9c183f],
    [0xaeed6c61050e05cd, 0x23b2dcffd579a8e6, 0xdf681328e68a582d, 0x2414d4aefc7b4857],
    [0x9ed288bd779b14f1, 0xb6b10c2a09eaeaa2, 0x846e90834efc911e, 0x1202e349d1d7b805],
    [0x3cdb48dc8b65f8e4, 0x240bacd8143323c5, 0x3fa32c2c8e7758cb, 0x24b96dbebfab6d2],
    [0xd9c05c634b43947e, 0xad044291f7691974, 0x5a1b515526426384, 0x2a3c9f55afacee73],
    [0x84ec89a4ae9ed209, 0xfab44a6bf4fc8ef3, 0x144cee44636bdead, 0xf7bfcfab17db34c],
    [0x8be56a0cd44e71ab, 0xdfc6aa36f22bdde, 0x17be2c27d1c4c596, 0x17203c4d2e1a428a],
    [0xb14eda9a9752329b, 0xb6255a6dd82081d6, 0xcf7aa03fdd420c6b, 0x22a8ee74367413ec],
    [0x9edabe74768b60c0, 0xe08ccb03e77c5e0b, 0xde25ba605a86cc08, 0x21e25f0a7f8edc38],
    [0xdad595da7c6fecc6, 0x93527dffb43f552c, 0x41a089c15f953a21, 0x6a78dfde1458ee3],
    [0x7737b1e5a7d60d52, 0xaa496165d644d5d, 0x3d31a282530d5424, 0x3fd94e51bbda684],
    [0xd4f2b88cd13c9fe5, 0xab6af1641fb1f7aa, 0x1d6fe7fb8a71f1ea, 0x2efe529db1de3c0],
    [0xbacd684006c37185, 0x94417acb25392342, 0x9509f85d3fbd94e, 0xcab504b22a3573d],
    [0x474905a4fa36d70e, 0xce775a8daf868e0c, 0x63443432a847bcc, 0x1cb33ad2ba7dd0c2],
    [0x593f4454521261f7, 0x77cd543198e1c27, 0x6e347ec705962379, 0xaaf37d1f53dd055],
    [0xae550d28b3654e73, 0x86e8102c2b5ad15c, 0xe84e9bc3e4b4bac, 0x2a607facd3936fdd],
    [0xf2830853b9f9039c, 0xaf812d2ef4d6b037, 0xdb981546533202f3, 0x14a2bd5a56f87009],
    [0xa33b96e95d3746b6, 0x2b0265d13e2326a9, 0xd87cbffd55665b47, 0x2f710c72d6da19c7],
    [0x38f8ce5cd04c237c, 0xed5c980d3db424d, 0x34ad4a4fafee89f, 0x168fdc32d4aa8dc9],
    [0xc62609deda2d0278, 0xc909a2796d1f77d0, 0x804f2b9b37e069f, 0x15bbd5619f0d5979],
    [0x34ba61067c6b6d6a, 0x553ce86bbc4c349a, 0x23bce3427244ad6, 0x1e16e9ca2502d696],
    [0x612ad4c28fd9f9fa, 0xad8d5fc98f1961f2, 0x9f583bd0ad35de13, 0x1dd0a5502743aaa],
    [0x9f6a2226e7a95db4, 0xcd322bfd6b50f9ad, 0xa7d1f6940f914e8e, 0xed2cfae7b36f470],
    [0xff2b8e0492b44d83, 0x40fd414abe24f0a9, 0x5d08f106d5f99183, 0x2c785f9d8834f5cf],
    [0x7f242e45b865eaa, 0xb18d3d78a4f70fef, 0x5c30c48846d7bb0e, 0xd8dbc3fc854c066],
    [0x3a9f83b8e8e58ffa, 0x244cf0214b6b543d, 0x6ac2512a25db9925, 0x22f62e45e5008469],
    [0x7ffc843f6c77d7ad, 0x222a307e38fafc3e, 0x439c9f546abb35a1, 0x2f26bc13ae48520a],
    [0xf2079d3d50e6d4ea, 0x99f2b85c1b89fc5f, 0x85f544762d9defdc, 0xaf825f7ca24b4a2],
    [0xcccc1ac9a29d2a53, 0xf423d37bf483c36a, 0xf55611c6448912fd, 0x160590968429f480],
    [0x6082ef18b1d5228a, 0x38b4051ae2514d4b, 0xdb1b6c56493d4c93, 0x2bb32cf60f8d469e],
    [0x57a595e7fccdc404, 0x44298ba58fb504be, 0xf6fde750a1847e5b, 0x2a4a72e9dfe5bf25],
    [0x93e732036f079d12, 0x41608bbbb6b5503c, 0x90410bea34a89197, 0xc509a4bf48ad76e],
    [0x5619b12a7fd4e2a, 0xde22d3720431fc16, 0xcd148461617e8e46, 0x199733da4aeed8d6],
    [0xdbc7c3c30320c00e, 0xd76da8211b04a236, 0xb41d6480836850e4, 0x2e285441d0bed90b],
    [0xe5d4b1820489028f, 0x130d18c49464d86f, 0x651b4b66e34f521b, 0xb9ae9f5ee6ad70a],
    [0xc7b802e08948e108, 0x1c038ebcdfdd4025, 0x2548bed7657f17c6, 0x4760054bd5d0713],
    [0xda96306db1e3a40d, 0xd611dbe25d1c048a, 0x96ef8173ae5fe87b, 0x2a4c6d3259779c3],
    [0xb6016674f3f5efb, 0x51b87b43e59181be, 0xf483490373e75b04, 0x1959db01f5c8bb0c],
    [0x443b94f8b1ce7212, 0xbcb93e1cef2504af, 0xc32d891b71faf500, 0x1849cd0910d72eac],
    [0x90c6bab159ca4fb9, 0xafc757ee26773a02, 0xa718a102e0ca9177, 0x4b5dc2057b88170],
    [0xc0a830c37e5dcdc8, 0x1b9daf48a43374bd, 0x22ce3c50ef471109, 0x17bdf338072884b5],
    [0xe4767e3c10d3b40e, 0x78b21f090c53042b, 0xb8496b8a0a0a90d5, 0x2d9379e69b178208],
    [0x36377f1c5e67ec30, 0xa9e342a19e88d423, 0x3c166e18fe904def, 0x14057d02e5ebcf3],
    [0xe986b1403cf270df, 0xd8841153661812bb, 0xd8f4f1a458c6a21, 0x17818dd0254b291d],
    [0xd3f793797d7c0a35, 0xe10f8d5bdb018032, 0x4cdb7f750a0fe86c, 0x1c95c2917353c53b],
    [0x2829ffdfb3c1a3c4, 0x4d79dec56582c29, 0x41808149333fc43f, 0x2495b3c1bfec607],
    [0xaa39e67015953231, 0xa911700c8d35288b, 0x38b2bda6e7732990, 0x2adec8549dffde72],
    [0xf90baaa3b644c4c6, 0xf952f8f4cf84d815, 0x5e376584b8b8dfb7, 0x178074303b90d898],
    [0x8267644895e6737f, 0x9a81040ea9a04c56, 0x11fc9477f4faffe7, 0x1f5fc060028ba07d],
    [0xc2012e36a19dc95c, 0x2077a287434bda4e, 0xa1a6593662aeb9e1, 0x2964901a2b42e9ae],
    [0xd67a920d8567040a, 0xef49a540fd2eaea0, 0xca13a2a5e3223104, 0x6c2194af72fac58],
    [0x1755f38ac34050ad, 0xdc14dc0e4e74e03d, 0x72c36fd22d98fe72, 0xa5494c9bcfa06aa],
    [0xca79156bd56fe339, 0x8c155e3675fadf92, 0x378e0198f0b5f775, 0x265ca211180b012c],
    [0x5c8591932ce7dab7, 0x7782f4e8431f87af, 0x7f17d637cd6f54a2, 0x21f659fedaf6c261],
    [0xcff68f9a5e6828f4, 0x1d5d3550e3d5801f, 0x7aa1049f4f091a2f, 0x1e463ae3f4c3bd04],
    [0xece8448a4373eadf, 0x4124f48145c61ff4, 0x27a11d290e4b439a, 0x27412191fa2b2e53],
    [0x4e633bf7d943615f, 0xbb056a2f0ec0f98e, 0x260395ee4f348f88, 0xb3a769c8b371562],
    [0xc0727167c06d0b8, 0x962879c20c8c3a17, 0x8fe5ae26d01477e3, 0x1adb4c87433d866e],
    [0xe184ae588cbe215, 0xf634ba05a9ca7a85, 0x7241c2c760176662, 0x1fc26ed027db7b9e],
    [0x6c75f27e260987c7, 0x96eddb7829a50e94, 0x6af30682f36fbab3, 0x10175fb6f81b1643],
    [0x5bcdb6a6782b57fb, 0xcd5cae23f7e7bb91, 0xdbcf314a3c0b1fde, 0x23d300373bb8ebf7],
    [0x4bcfff38e89dedee, 0x64dc3efa9247aa0d, 0x741525261306c176, 0xf0417fa6237167e],
    [0x14890b0f92a47d90, 0x212bf887bc596158, 0x4e2c4353d8f82b4b, 0x1e8fd20a8030fdd9],
    [0x947a3d019bb41b6f, 0xabae013c5450d9e4, 0xeca4d3c71d110b04, 0x18572826385dfc6e],
    [0x5f73def14de7a220, 0xce217d925f40d287, 0x4a1bd13a02a94681, 0x208b7c8c1ff8422d],
];

/// The values of the dense MDS matrix for width 16.
#[verifier::opaque]
pub open spec fn m_vals() -> Seq<nat> {
    limb_vals(M_DATA_0@)
}

/// The dense MDS matrix for width 16.
pub(crate) fn m_table() -> (v: Vec<Uint256>)
    ensures
        v@.len() == 256,
        vals(v@) == m_vals(),
{
    let mut v = from_limbs(&M_DATA_0);
    proof {
        reveal(m_vals);
        assert(vals(v@) == m_vals());
    }
    v
}

/// Part 0 of the transition matrix for width 16, as little-endian limbs.
pub const P_DATA_0: [[u64; 4]; 256] = [
    [0x183933737a8b8099, 0x5a12255c37ab51ae, 0x206c43daac752b76, 0x2b6fd7bc3a3b595c],
    [0x9c90665aa2d92cb3, 0xcffe78d747faedad, 0xd3f07d0c3e6cecd6, 0x69b1779dec3eade],
    [0x8a6f4cf776d13b99, 0x554dddda89d32dcf, 0xaaa598b7771f88a0, 0x1fa4effc83498d19],
    [0x92043dffcb26bf41, 0xdeeb099647698815, 0x4c37ec8ae1a8314b, 0x1676f5c07417ab5],
    [0xb9b7e74448ee27ff, 0x814fe687b4c8eb81, 0x58aa07bf54ff324b, 0x1f4e7bbc8d42779e],
    [0xdf905d4cbd1dfa9, 0x35c296479f484b68, 0xa99a04c8c96ae5db, 0xf6b18c98fc89fbf],
    [0xc439f5c1f4fef54b, 0xb0045af06c2d86d0, 0xc6c191d36329f30e, 0xe6cd10883e1e11],
    [0xcc284d983bca8757, 0xa514198b296a1629, 0xbc7170a2ffc24eb6, 0x425a9641fb01558],
    [0xe8233c58dd50335, 0xcd5cad2c39888495, 0x941348de45aec442, 0x397a7d7434b0aa],
    [0xec20d3b93252ad04, 0xbac2f7cd9dfaccd, 0x1385c22e203dc08f, 0x1d66f208fc04411a],
    [0xbd967e6a3676f356, 0xe7ec81885a07a5bc, 0xdd1fdb17b9c7c648, 0xec1ed3ae3beac4d],
    [0xd69a3f790b27c603, 0xc1cc2c0ed8126534, 0x214362c8419474d, 0xb3e601e36a5d82e],
    [0x90a07e14af10b0d, 0xdc4ce59267718cc6, 0x7b25b095a3aaa8cf, 0x163cb4e3a5ec92e5],
    [0xccde3aa3a51d41cb, 0x33646b89620dd0a8, 0x895f48d7a1290d7a, 0x2dca90f3e5a15b29],
    [0x1122d64f729cff22, 0x93cb33ff671b737a, 0xbeb9dc0733c4bb18, 0x2c78ee5ea16d38f0],
    [0x66471fa730f19c79, 0xff753e3292bbf62e, 0xdcf00439c75a294b, 0x2af324ec4f9e7786],
    [0xfecb0850b5ff572f, 0x254029e0e04e59c2, 0xe5d563a141ce18bb, 0x214e865e2eabdb9f],
    [0x9e04a37830c7595b, 0xbb822c277fe2bb99, 0xc18f54d5594a0c23, 0x29fb24fcfdda928b],
    [0x66068c4aad32165f, 0x5dbb18d129f701a5, 0x71e733732ff6ba03, 0x19b1577a9e5fe67f],
    [0xbbac868d1b4a5635, 0xba4037eb8b7c5ef6, 0xe5b854a6a357f300, 0x286415acbcc8aba3],
    [0xff65c60c1ca4b178, 0x19f816c21e6fe403, 0x5c7489e1c7edc9d3, 0x238f0b87f232229a],
    [0x8d2f0b442f51be88, 0x244a2f9019839f5f, 0x5af4ffb381ed3acf, 0x12567e67abc9b3],
    [0xeda96ab2e03d8095, 0xd35abca3f6570958, 0xccecc514648ba944, 0x2bbfad45e5a92d2f],
    [0x3229dde65db07fcf, 0xc9068003fa6d6ee0, 0xc190e8235411bb9b, 0xd964da26287f09b],
    [0x89922c62b2a76ca7, 0x6e2c91cbb1a9e20, 0xf4c7bd6f21272b81, 0x1495e990865f559d],
    [0x9ff8691d915cf247, 0x2a99d56cd2742d26, 0xbe759dfc9ec4bdf3, 0x1014b540da45955b],
    [0xe9ae8b98fbede91d, 0x3cfaf25d6ed60e1b, 0xbda399aa4d7f5c64, 0x1d8385e9787d1456],
    [0xada22f4a22e80e32, 0xd266e6c5490d3c95, 0x4624533d03746cd5, 0xe6b936ecb8a5927],
    [0x25dee79b629b9706, 0x33bed785ab726b08, 0xfee656f037c33af7, 0x19853b1669534b82],
    [0x52900faac25305e5, 0xbc3cfe2fb965e5c3, 0x657d093a313171f0, 0x1ac11195f74d7fde],
    [0x3d2ce688961a4b30, 0xd9077778c41ff773, 0xdfd14d7878b0b77c, 0x350e8d2eed84802],
    [0xff771021770f92d3, 0x49f05bf99603b382, 0xdd799a0e3e78e1a9, 0x11930ca8a8841441],
    [0x9db1d19e605c316e, 0x1383b62282dab412, 0xdb023f80354a8395, 0x1e0e35883b0f1794],
    [0xe9640ee5e888c388, 0xdf43e6ef9811b10f, 0x521bd441aa15fa2d, 0xc05c2d8ee022c59],
    [0x46c9279df8930298, 0xbf23a5ebc7a3d77c, 0x34eee2f705933c2e, 0x82f3674a3860d80],
    [0x61b3aa6bed65c7c0, 0x21f90d89834bd1af, 0xd2c5c116a275a81a, 0x1aef1d337ca51ca5],
    [0x2389e90f5c6a707, 0xfd8c522dd0ddcbb0, 0x5e2ecd7d32768ae2, 0x1df906bd755c6a96],
    [0xc56954c8a3f8ebc6, 0xfeafd2a0d10d9027, 0xb00f545a3a4a5331, 0x178391cf8f91a1e3],
    [0xa8a33cb6d3d6060a, 0xde357757f3773ce6, 0xf4070ddbd1b99eec, 0x1f8bbb7ab0780d5b],
    [0x3ca448e9c668f615, 0x8d8bd8b4c5bd8f5a, 0x8c2a2f37f10f30a5, 0x289c0cb7f84d6263],
    [0xd6a08c5543536368, 0x158e818db90e3d12, 0x89d702f58154ba82, 0x125496878120d9ff],
    [0xd38c90bfa6bca639, 0x68349144af6d6972, 0xa7067c3e8c53b1ee, 0x1720174606224668],
    [0xe6912d467df067a5, 0x793ea300e0817720, 0xb1328f482a3ec674, 0x2f574b85296045a2],
    [0x78bb38a7cba55b2, 0xb8eb1fba440c552b, 0x9d7f93da88d6f3bf, 0xd56cdd730e1401d],
    [0xdd461a3dd40c2f53, 0xe49a366ff6307159, 0x696834ac58de1b21, 0x1b164a2238c5e107],
    [0x9014c6dd35ad315a, 0x11a5941dd6ec235a, 0xb0d9dd3b8c6e928c, 0x28fae6efd55d9648],
    [0xc101e9d6fd2a36d5, 0x2e1c65cb633de0af, 0x44b9d3bd7cec5c29, 0x2aee7c9d86aeb87],
    [0x59c287438a08cc4a, 0x890175e675cc8dd6, 0x94d9f310d6906e81, 0x1bd210b6e6c2074d],
    [0xf86bb807cad76074, 0xad5397cb9a4b9c6c, 0xb50b14228c6a6de8, 0x5c51080a74b8d28],
    [0xc086dc7a168de657, 0xd22515f1365b2267, 0x53b59ab67650d10, 0x122ca048d7c6d4b9],
    [0x27cfb98577a2fb, 0x6229a3f0292c5076, 0xbbfa2848d56da05d, 0x1011963b5e7be95f],
    [0xc6527f096b0b4e9, 0xd801bf3c06646407, 0xd2fd4f75177b9e7f, 0x17e864b0c0ebadb],
    [0xda24d8c715fa8bf1, 0x7404439b362a0d84, 0x90e3d6eb9f9e93eb, 0x2da47d7b53893189],
    [0x3d5cda564ecbdc37, 0xbdbe9af0c1eb9288, 0x2c75ec5263e3ac75, 0x2abf38b2c0598940],
    [0x327a18394e835ea, 0x7b4f588c453a94e4, 0x5975de83fceb9172, 0x2578863a750b236e],
    [0xba94b50d26ddcab6, 0x7b51640d05d1f6f6, 0x1e0b7bdfd7fa0871, 0x6622bf28a5fcb36],
    [0xda31928d776bf984, 0xc01cafafc79fe095, 0x199aabbc5442c1d7, 0xf8ba5444de18d],
    [0xcb456b2b04670c4f, 0xfbd5b9a3ea27c9d, 0x7366925fe7978bb8, 0x6693893b45a40bc],
    [0xaa86329b9b361496, 0xd56e2060844aedd0, 0x60615a7f5a737a57, 0x291fb174e5ee77c0],
    [0xce98ad87d680d717, 0xc7a7b147b794139b, 0x641d9f6f2ddb4f92, 0x12c0b93d829ff5b9],
    [0x7d889b19a340ce9c, 0x5e32b3fd9dfb2acb, 0x733e46124db74c40, 0x2923c2a5464dc991],
    [0xb5dfb18e38c99680, 0xbac68a40c8b8fd65, 0x4ebabfb8797e9c6b, 0x12e496bb2680b7d1],
    [0xe816440fcc452baf, 0x5255c292f34db71, 0x50e3fc4111f320cc, 0x16ba6796332fb560],
    [0xfce4faee0637c6cf, 0x404e581f328265ea, 0xb222332764a72059, 0x14bb891ffdff2ba6],
    [0xeb6c62f7a7036217, 0x16a2411abfec2c3b, 0xa0eb2ef334fde51f, 0x244e0857b01e7d7a],
    [0x14d1ec0049afa187, 0x20bbfe34045f43ce, 0xe6244236580314c8, 0x2fbb74d7dd4ab190],
    [0x9280de59d7256486, 0xae8e86b735074406, 0xa5ef5e5339031197, 0x2ab86635f447d66e],
    [0x5ae30240af69c7a3, 0x45000b6797a9a520, 0xbe1b5a0d520f0f21, 0x2587c2ffb837fcc5],
    [0x1b0955c391701f5a, 0x26a16354f29b2f8a, 0x88b3c5dd236ac310, 0x17c623def2d26105],
    [0xa48357cc7ec8570, 0x83a970cdf3a543b2, 0x10e893ec2f7ab96f, 0x2a2c5e5b24751e4a],
    [0x5497c69a7cafac78, 0xe3a410186dbbe5ae, 0x729f8637df230532, 0x28284f2eb4ef38ef],
    [0xb39ba9dc4d03f82, 0x79e9a72f5e682186, 0xc4d4df65b9c6f304, 0x2aca8f7acb59233b],
    [0xb57e261fa2c6632a, 0x2b02760a04b04eed, 0xefa74e4315917d90, 0x1eeaa31dabd6b6a9],
    [0x4f8f0eb3f9c0d4f6, 0x8a00c05f12597c98, 0xc6e3b6b78d7f288e, 0x249c8751e7443e96],
    [0xf03bb28e0e30d09f, 0x870bdd8826307d56, 0x98a12c6458c399d2, 0x2362c38ea538ee8],
    [0x697b43824a41640, 0x3d35d276c4d05c67, 0x5baccae3e88aa149, 0x2de07475e19762eb],
    [0xefa81dca6fe1480e, 0x1ac256d23c545152, 0x86ad60801c72955c, 0x2fa1a6b0c6b0e9d6],
    [0xd289e2e1a7741119, 0xccb7dd060aa364c1, 0xca51332b895875d6, 0x190489ef4eb4182e],
    [0xcd58270513f4b693, 0x8323f6a293adbd91, 0x9da80878382a8633, 0x14ae46529aa1f2b7],
    [0xf4819f0db982aae3, 0x177dd8f63c616ed4, 0x8ea3fc29231e1ae7, 0xfa8399ba775a9e9],
    [0xfb8f1ddce8a8d02, 0xe0177a1b6e72cbcb, 0xf3808a150e9f1371, 0x2a04852a90b74143],
    [0x513dedf3bd846d29, 0x4118c62e110e3ae0, 0xf28005f0ac487091, 0x2cadba86ff66600c],
    [0xc813cdd7e584ebc8, 0x137e16fb0e3645de, 0x47b023a1ced3ba9e, 0x14fc3fe2445bef85],
    [0x36959a21946f7db2, 0x2b3074c8047d8a47, 0x848de9a7b0bed426, 0x2ad5b37b82f9ac35],
    [0x2f52cee03f57221b, 0x7c90ca6df6ac721a, 0xa4a9cc93c559e73b, 0x1c6c37b8caf25198],
    [0xfbedbc8190a0d8de, 0x9f6efb59fd99f4e8, 0xfd4fbcdf7f3c4974, 0xdf7d4b832373582],
    [0xaf33af57310a8db4, 0xa8525c2571335159, 0x4def9074724899be, 0x1c535fdc7111ed73],
    [0xd97623c7faed4e50, 0x8ab30be65940592f, 0x7de36ef48f063baa, 0x1330fe288bcb4ad2],
    [0x8ada43ee175cc811, 0xc9c8f3ce3ccd6c8, 0xa4d22f86060ea7db, 0x3776a7d69106118],
    [0x8d75171480cd664c, 0x50bd6bd8da98ef65, 0xbdff2b24eb7d691a, 0x19afe6d81031fe1c],
    [0x37711345e68d5e2d, 0xdab6f84f56475da, 0x8284c29b8b97541, 0x231713410ae9a8da],
    [0x45f9e44297b361ac, 0x31c24785db343b91, 0x5df8352b2ac671e2, 0x2ea094a22ee4755e],
    [0x894a5bed32bc8941, 0xf195315a1d065a36, 0x2efad9203e63aea2, 0x27cf875019763002],
    [0x55119c9ff5482eb8, 0xabde66ed0f477d03, 0xe8b338c3b3fa4323, 0x15776583d7d261c6],
    [0xc2f915e06b272e27, 0x5133bf1e34bb9e3c, 0xbd785035283f6e80, 0xcf33eddfc73e29b],
    [0x5ec1d516e577e6d3, 0xb9c2f17c262aefa3, 0xf31f149cb0fdb032, 0x17749627adaf3ea1],
    [0x5cec98dee21b1d6, 0xae386b651550fe94, 0x3def3f71517cc2bb, 0x305a319725a0b7bf],
    [0x80a55c0d01a709e, 0x60f1a52bb7316c4a, 0x9d67d7fc44732183, 0x30d436b101fcfc2],
    [0xaa34f735ea830703, 0x701cae3744ad5aa2, 0xd68cfc75c5630d39, 0x136afe9a53acd5e1],
    [0x6416f0db0b06930d, 0xd9da04400221cc60, 0x35c8c66fbb1953be, 0xa32e49eccc90d71],
    [0xceb4aad474f10fb3, 0x7f48d768fb138698, 0xec317018969e6e76, 0x27feaf5bb57db47],
    [0x6c2d8db003bfb436, 0x9e795c6628dc1dcf, 0xb431269dd5d74aa9, 0x72011cfb8afcbd8],
    [0xbc0361f06a9678d, 0xe5113b205c2f7c2d, 0xcaadaff1995a15f9, 0x29037a8126d3d81f],
    [0x2f9624eb5f41b1b6, 0xf73a10c0d2c2e613, 0xcbeb641ece624880, 0x9efcc692545703b],
    [0x8ba422bd16759be2, 0x3735c011ef47ceee, 0x957e950e45ad3b72, 0xcef77234c42547],
    [0x76dd86940d90f01d, 0xa49095ffc6eb3a77, 0x4d77e0a050a8a84b, 0x2034957e3fc373e9],
    [0xa5134d8bf702ac90, 0x7d873355b2e1342a, 0xbc895f656811e59e, 0x2ef69fc1a737db3a],
    [0xb2e567f5d60a4a73, 0xc88db387bb20c6a9, 0x370b3a477ad83f30, 0x2ab4682e32feba55],
    [0x69b665dafd9de184, 0x110c7c266778ba81, 0xd0c6cb8059fb86c2, 0x23f9c83f88ce7c78],
    [0x1852b960ab98afe0, 0x88fb504c5763d280, 0x4290ef1cffc5d332, 0x1370c01789f71228],
    [0x3158619fd52e5ee, 0x39e668ef7816a911, 0x1df847d4a8a4f754, 0x28f704162c3bd52],
    [0x6e0366be14d9754a, 0x416fa7a0b056405, 0x50145daab58ccda2, 0x17a14cbbc6c3e70e],
    [0x659d776002843107, 0xc0c2670d2260df83, 0xfef388ca3d70c7e2, 0xd92a7b009466985],
    [0xb94588dd00132b2b, 0xef1985f94485bc3b, 0xae7c58396d225a87, 0x1041a8891a37452d],
    [0x60e379508b9ff1e2, 0xef268ed6828f70c9, 0x4ba589b84783071c, 0x18bef702cd3178eb],
    [0x5adb53c3db9f65df, 0xde655dba90c32e48, 0xc95066d5f553eaae, 0x24e2c86170a5b4a8],
    [0xec4eed18ea0e33c8, 0x4f0e168595d9dc5f, 0xae93ee29db53979f, 0x4e392117390c777],
    [0x53a70a3c46bfa9b5, 0x3d148204c2912b0e, 0xc17a592f2ce06368, 0x2e369b2dc96609f8],
    [0x2879a76a107553e6, 0x748a5f77190e30dc, 0x4978339d086ed54c, 0x1cc53180a2b9cfb],
    [0xe6a2c01c1c1d4ffc, 0xb3701215b77ee9a4, 0x31bb08573bdf237a, 0x2ae8d813634a87b0],
    [0x417ac33c2e8bca21, 0x7ecb14ad09550b52, 0xe4687501f9f71fad, 0x1cebeac557d2337],
    [0x31a41f2de4b48bb7, 0x935f902970c7aae1, 0x6df2d50fed257bb, 0x1d65f2f3574c1fe0],
    [0x99a6dcdfeebc4f70, 0xf765526b11f6c200, 0x6d88ee569da71046, 0xefb60fb18584fc8],
    [0x44e3c68b6a6017d4, 0x145cc2740c3607e0, 0x8e771e9d0210dd14, 0x1a70ee4fd1e45c49],
    [0x91bb869c6881ad73, 0xed602b33d3339fbd, 0xc9a7a3b9fd2813e7, 0x1d3ce51d11885aac],
    [0x5210bae2f76bccf2, 0xb7f1b1a0f04967f5, 0x6e3ddfdeb748e040, 0x786ebb71e920bd1],
    [0x8f5af885708d23ae, 0x23d9198c501f6563, 0xb7375312e4ea7545, 0x1c207d7a9081da93],
    [0x6812a645fa9fb774, 0xf403afba107507f7, 0x4284fbfbb61bbd04, 0x1ff273747279cce5],
    [0xbc18cda6fff4f52e, 0x7407814131cd645, 0x8bc66ffad5ac09c1, 0x2a67eefc0930f82c],
    [0x95a65f3270e4d881, 0xcd1b65ea77b1c04, 0xf5aabd0cbc2384b0, 0x20e8656cb5d68cf5],
    [0x42b61aa42a9aae4e, 0x6891e74e87c5a65c, 0x6d6a1fa8be92e4bc, 0x2c5c474a63c172ea],
    [0x73647687c57a419b, 0x42bf95bedd9bc246, 0x40e8592c94a983b5, 0x2e90955a65c11aa7],
    [0xbc5325c2e111eb55, 0x82c5533be183c39e, 0xf46524461f66c655, 0xa1bf9ddee072347],
    [0x4243297744e2e226, 0x81350784e0042c99, 0x345ed48b3e799d10, 0x59b27028b4f0949],
    [0x615537e03cff2b25, 0x4815163b384f502b, 0x279edd9fb5219b41, 0x2fd6d01024cdac4f],
    [0x55d70f4d6687f8c0, 0x5c89f069b3e64456, 0x866b2885bd4482ed, 0xc2b9bb36e8ab693],
    [0x1890aa3a87bb328, 0x7e1a5966b8cebffb, 0x2ea2e280f3193df6, 0x6521b700ca47f22],
    [0xc85dbb7e9893d645, 0xdaed36ae948e74c5, 0x2438cf0723716cd4, 0x1563bb61629e8392],
    [0x62a4e0daa7703dac, 0xb83b0c0c5ca1bd34, 0x47f917944f81e9c8, 0xb044ec6d148637a],
    [0xcf765a27707035a1, 0x521182f63e125477, 0xa2f8a8bc2631c552, 0x20a815e19a6198e3],
    [0xedaddb20c4a6b85e, 0x638a706734631c21, 0xc9ca53668a9870de, 0x293f18aa77d8372b],
    [0x3a6fa17cf6c9b904, 0x6ea1ac070771b0c8, 0x80500c6e5916f52b, 0x15d4d2c713cf58f4],
    [0xaaa8d6121faa5b55, 0xa46ab68007777679, 0xf71831b62eca71c1, 0x1cc29ba8eed43aa2],
    [0x62b5238b10deb274, 0xcf1d8b1e3042d323, 0x934c68c90d4ef19c, 0x20edba75b3695a0f],
    [0x601f09c7ade19d35, 0xbd072f9d827737de, 0x329409e50f2e9041, 0x99674734918ce9],
    [0x79a720144ad00dd2, 0xd99d5ec24df54952, 0xf147ec8ba8ddbff1, 0x17107096614baced],
    [0x20c3e5c72fb420f8, 0x837fdb88a0c6060e, 0x2829fd8ffab17b16, 0x27e3943ac99174b],
    [0x119e8de79e908283, 0x5a0c4bb1e9adb04b, 0xb8de31d678da740e, 0x11ced1dc351f0b67],
    [0x10849e1a79cb90db, 0xe30202ae83098900, 0xc18e3d166fee7b74, 0x23382c75620eda77],
    [0xd059b4182393c08d, 0x24f6e3d679cf725b, 0x12f0aa37e940a094, 0x222dddba5c72cc2d],
    [0x7ddb98a393d032f0, 0x382f7193754fa5f8, 0x420074e1a4a3163c, 0x205885190c6d00c1],
    [0xd8ee53932c2eb6a3, 0xde9acaf98bbd8971, 0xd7f3a7280617fd86, 0x1a606372725698e7],
    [0x5a71ca5617705fbf, 0x29c8ed3e0695bc28, 0xa81f1512710c889a, 0x100a85e6da4a0b92],
    [0x2d8c170ccf2f7889, 0x43e74edab1cc3cbc, 0x4a8149200cae59e4, 0x2f10b78f744104a5],
    [0x5e45d498be1550d7, 0x8061205c639f639b, 0x713afaabe2c8ea14, 0x202678e431648172],
    [0xcf4db3da13508578, 0xe9fff59304f04fed, 0xe1cceb24143a96e0, 0x266fe05c631b74a],
    [0x951b834c4da38045, 0xf153ed11f6215f06, 0x7f26166ee1614896, 0x197b9d069564454b],
    [0x38656d6dd1af86bb, 0x40073e23a3cf1896, 0x4630a51f8bf9ebf0, 0xfab2ea8e500aed6],
    [0xe27797920e06b6a2, 0x8abc96cb59636252, 0x830650f8dd87d0fe, 0xb39596ec65e453],
    [0x2d8a3d8181b1c859, 0xfa55e0340534e28e, 0x5eaab62ab7fe15fc, 0x26852fe3fdad04b0],
    [0xf75da04b8137780e, 0xf03c13825e76d40a, 0x53b2c465f2bf1183, 0x449112125b3f10a],
    [0x4203a6a7beb5931f, 0xedc591d0e701ac42, 0xaad3c06f80079700, 0x2615060f9b8b7972],
    [0x5292cd13cfc4ebda, 0x4b0f49cc3e798fc2, 0x5c7dc766d4cde487, 0x288a44d1afb6a92a],
    [0x1639bf1706369482, 0x38a766c53ca6e92a, 0x8539fc3f31b1f285, 0x9de8b7bde7c2aa2],
    [0x9f48d393a44829af, 0xc58237965627738d, 0x7746919301403d75, 0x234c33dc7c164b18],
    [0x356dd81fa147680b, 0x56a961b3d42a746f, 0xf1d7c68311ce5b0a, 0x1d4f2427689a1dc5],
    [0x54a4a4123d0ae5e9, 0x50a9ba88c41e9985, 0xbed6f84bbfe0c5f8, 0x23cf89940b6418fd],
    [0x695ebd5065afe00c, 0x18b034be621106ad, 0xc8939b33e4912ddf, 0xa6632613bfca8af],
    [0xa90476816a2f791c, 0x69bc489e66f916c1, 0x397ca40b3be72c04, 0x1a6288255e7a54d4],
    [0xb6b433e472ce1e8e, 0x9e89273abb22ff7b, 0x34b304ac606b5439, 0x7396d51d19d94cb],
    [0x2c9b3571a8aa0a0d, 0x7c0aa7957b755ecf, 0xc1679719e5a0db2, 0x2a1e1954e5b01044],
    [0x297d7d14dcb91a74, 0x9ea89050fab84b66, 0xa0ca830681aca594, 0x190dd58a88fdd887],
    [0x4dadba9545684bf3, 0xec622bad6f1181e, 0x9d294b32abf2c901, 0x131c5cce643d2b8d],
    [0x3b736a666c715014, 0x9e32e4ff2caea1b, 0xde50aa09745ed3bf, 0x1338a1a447a9df2f],
    [0xb03d310ac8944fb5, 0xa01182fb893ae1c6, 0xa8c811a25a68b56d, 0x162ceb46008b073d],
    [0x32861a8bb527ab66, 0x360eb4e967004da5, 0x1d3e0b83212f50e3, 0xbb7167ac0c34acc],
    [0xc4fa2749a22cacca, 0x1f7b411a7e5a36bf, 0xdbe92032a242801d, 0x2c1ee387a8c15e7],
    [0xf078dd40672e632f, 0xc681767645a636d8, 0x32899488e062f293, 0x1406d86f9f6ed527],
    [0x9555db772a969ba6, 0xf9c06bc4cb527583, 0x56773293cbca39f6, 0x2d255d4f28b56db3],
    [0x8b554daf43632d88, 0x4e02f31e1834978c, 0xc039868ca4c52f07, 0x12550c43d8d9b152],
    [0x5de065958ea44462, 0xf717439f27d57ca1, 0xb852406f11331c24, 0x216ffb6e7e5316dd],
    [0x41e5c56221a64fd4, 0x25ecd758d6e24c3f, 0x3981e3fc495ee58c, 0x2b29f8fb4f37691d],
    [0x61fed0f82255cba8, 0x9e69ba1b0fc76bb5, 0xaeca306fe2845871, 0x968d36ff2a38e6],
    [0xaaf0100d1f102374, 0xac92c71980f149ca, 0x140a649e8937be28, 0x2479769cd60838cc],
    [0xdd4298cf32b85e76, 0x81bfa818f67ac1c7, 0xa8e82a0d04374ff1, 0x33125b9cf766513],
    [0x7c843216fe48834a, 0xb796291e75db4f42, 0xec9ea67df8df2c1, 0x1cbb8fa4be4e9fdf],
    [0x5edfb38ccf28a6fc, 0x1284431fc9d68140, 0xc82016fc687836f6, 0x154d9e7b0dc8fa67],
    [0x9aff5c8bc11eb0c0, 0x36eb56020fb8d119, 0x5c55154aa8c5c821, 0x1ae686eecd762365],
    [0x37bb0fd0c03d2cd1, 0x6da9c92b3df9121f, 0xf2c01544abc585ad, 0x2556b61b7729a527],
    [0x2b0b0b9d45e08535, 0xc9192d33adc6060, 0xd01a513fc7dfbbd8, 0x59df1b1e661d317],
    [0xe40148f4dceafab8, 0xd3ee83284a8d62a5, 0x23ab57e9de7e50f5, 0x1f2526ae9adfccd2],
    [0xd42a53be28a36b5a, 0x6f9869e51076b13, 0x4d93e3ce3756b5f, 0x957401bb640d15d],
    [0x310e6ba011421cf7, 0x93c839b5e13ca1a9, 0x1e67dc9d9dd9c474, 0x1d687a4e31c6b3c9],
    [0x3640c98770c056cf, 0xdc76570fef2224a9, 0xcd8c79dac7d59526, 0x47dbe55f778c815],
    [0x4ba91e6cb509e931, 0x80e222df97e48b57, 0x877c8d79a5816cae, 0x262650e9b1667b31],
    [0xa2a3238a3ac5b92d, 0x1d41b9e82cd7d65a, 0x65a961dfc4b365d2, 0x40dfc65f3133acc],
    [0x3c799a48e4d0721f, 0x3a0fe15f0a5b21b7, 0x48610f35d1b344e0, 0x21269800c6b53df0],
    [0x5defa3d080b766bf, 0x9da4ef5d13a62e52, 0x57e2fc71493f7d7b, 0x267bb17bba0da1b4],
    [0x48567c5b0754554d, 0xf98a23304a86ba98, 0x2442dbda9249a412, 0x2c9814c96a72fb3],
    [0xe320afe90426f462, 0x83ab2cc2f3275ecf, 0x493f48ea404a8ed2, 0x1f925ba0001429fe],
    [0xb7068c6865eac1fd, 0xaf545b745fc20449, 0x77fc54ebdd88a026, 0xf7e82720135b352],
    [0x3ac421f9ade0c228, 0x49cc165e406fb3c4, 0x1d917e7b9d98bba8, 0x14e3a6920a412da8],
    [0xcadd063176267917, 0xbaf4d92057d87596, 0x96070fbf26d4df2, 0x2a704d1d93253cb1],
    [0x9de6af983c997b03, 0x7bf15cc6a524e6f1, 0xe544ff8e5e65d4fb, 0x20ad4678ee812d96],
    [0x8ca73257c19cdb1, 0xb3c973d84b0d61a3, 0x4acb860c3bf32ab6, 0x5a0d89380a2a2a1],
    [0xcbd8efcfa38466c5, 0x955a037877bd5e5c, 0xa648693878cf37e, 0x2f840b4ac5c9227c],
    [0x33d206e9f6704f9a, 0xe177edc8a03053e1, 0xeee051511cac4832, 0x28ff311d4a44251f],
    [0x802e4c64cc7163c, 0x2c45e50f8a237a93, 0xa3c9ab0b0154d7b1, 0x4d4b72c6c7a5922],
    [0x9eea781f4df48939, 0x826d018fd86139ee, 0x444de0f08ac67be4, 0x1dc79a5d9de443db],
    [0x9aa8202ef09be93b, 0xa649e903145e0082, 0xc3d873cbd072083, 0x2dcdb0a971c5aa12],
    [0xf11cd90b07808e70, 0x6dcb7212975f7ffc, 0x5c993994c7cff262, 0x22bf34fc02aa2e21],
    [0xa351f458127e96a6, 0xfc8e00f2668c6ddb, 0x5c093ed96975ab5d, 0x12f7124beb62cae3],
    [0x61e9b22780579a70, 0x5c3051a915deaaeb, 0xc7842cd5eb4fd6b7, 0x86ec72230cd5fc6],
    [0x22bb752c8e044039, 0xd8288750865136dc, 0x1f5bda0c6f6a244a, 0x2e6530de833c3b1d],
    [0xb2cbbb221105fc69, 0xb895f5dd5e182575, 0x69b9fdb33f48f22d, 0xc11ab9629bc9354],
    [0x7e6b5dcf499b4887, 0x9c71b768739b2244, 0x43d6e188f5732c20, 0x1231fe074b771ac6],
    [0xc52745d558a6f588, 0xa49a959de5c86e8a, 0x11bffad3b5ea4b73, 0xa9f28e621172d9],
    [0x79f246c227809c9c, 0x55c8f5f730ca5c38, 0xeeda571541d2199b, 0x2a8e486afaa01aa8],
    [0xc6a9ef5e7ef9ae21, 0xadba2924b6ab7cf7, 0x5e4ca1994ca11ad7, 0x2a24d4dfd6e9d643],
    [0xb163bfa7fc15b443, 0x6376e7886e30bd2, 0xd05f4ee672a13883, 0x2caf670c84f98b68],
    [0x7ff14abb5a90241e, 0x40122e9a98a58c46, 0x6126436afb27fd23, 0x24785c81f63404b4],
    [0xb013a3a87599ff7e, 0x891ec99da9d5df68, 0xfd7fb8a707e770af, 0x844b5753fd61108],
    [0x4d14d7276a8e5267, 0xcac3b21eb2779e73, 0xbf6c5fda0edf9ce2, 0x1c362078a104c738],
    [0xbb29a2fc6c922cbc, 0x8ab654b76aedf4f4, 0x5ffbf9d46238162, 0x38fd3c972d8ed77],
    [0x5e27d9a88c5d16c9, 0x9763c5cb42cf9ecb, 0x13f26105419f5631, 0x2d5cf8172c587c05],
    [0xfa3d762a5aca3b0c, 0x27a665863294a32c, 0x65a0d8c7f0af7905, 0x2bf712452a11b067],
    [0xea82263b298132ed, 0xc7a868e80b89ad6a, 0x8895143763824ffe, 0x14078ef63c2a106c],
    [0xaec17cdbd7d074a5, 0xe16199a994469f41, 0xe61943baa1bfc0b2, 0x530ae305c7c8a9c],
    [0xd8bdf603bd4b7e72, 0x14d4d3d6d98bd9b6, 0xe2c3edc204637dc1, 0x2f54161c4ccd936a],
    [0xd3c9ebf7014c75e6, 0xff1df537b41227f4, 0x4da112639c7d2ea2, 0x1f0b90c52358a8a1],
    [0xa585b5fe1f245886, 0x88b471aac3d2f80d, 0xf5291ffce4161020, 0x2b98eb64b8642bf4],
    [0xd810e05ece651535, 0xf064c57fcd4cd4cd, 0xbc55ef698aefb23d, 0xeda204f434a347c],
    [0x46945727da833c54, 0x312e58f033e87d44, 0x9c234253d4a49348, 0x18a93b5dbdde2e9],
    [0xb64b8af6895ad968, 0xde43e68e6ca9eabc, 0xbc5831587de4d790, 0x7abc38167a01b6],
    [0x5d7627b7663a6317, 0x49816cb57fefa6e9, 0xf3a2a35c6923aa09, 0x1688b9a9cbc3a63d],
    [0xb61d8ab9c1f50ae6, 0xff35e9569fef12cb, 0x933238a53bf68f21, 0x1a336a86dd0b3325],
    [0x33f0813190472b31, 0x327ef278b968013e, 0xee3a618ac4d77e86, 0x9fdc6f6ceaf2566],
    [0x409561a2ce095b52, 0x7ccaadafd0d402a, 0xcd6ff3a08e0632a0, 0x2049ee37129926e],
    [0x15cd45a13d33b05e, 0x3d6e9b56fafb1d0c, 0xd45c2b43df72abe5, 0x4458b88b13af0f9],
    [0x73f1414a65e4ea0, 0x68cde5510c85175e, 0x8439294ce85ad257, 0x98ff2fb46bfa9b4],
    [0xf5d478662b2a5ab5, 0xbbb17534d686bda8, 0xc806aa879f25241f, 0x25bacabe48b3f030],
    [0x26fde8fc49de31eb, 0xff07f1279106386b, 0x2b128cb376c2f52c, 0x12a68ac33549f690],
    [0x927da3a66f49c6b5, 0x1cbdf5d67a5bd403, 0x949f3e5bfc1188e2, 0x1d16de8069581b62],
    [0xf55826b80aa69794, 0xa8dd796fa1058366, 0xc20ecb5f9bd76f48, 0x243efe17e4617bc0],
    [0x5335d8c4c1ba3a06, 0x9a7636dd9faf14db, 0x6495ff60adb20a3c, 0xec71181ac2bd722],
    [0x35f8d419ff982d12, 0xd6dd0fb571609e43, 0xb81219b9a60ef7a0, 0xd9acd7178242914],
    [0x1e010d5099ee790, 0xaa7bc086533f20f3, 0x60085cdca6c1bb78, 0x2ba9f7efe0d61c84],
    [0x51d403c9c53160bd, 0x466700aa5c383af4, 0xea2e59cf6c4faf11, 0x33bf863141b2b9a],
    [0xd12b8dbfd3af5f3b, 0xf47ea8c5bc09d862, 0x7db3fce2a401e8a, 0x2237324de68d18d4],
    [0x23437313b77b6a8d, 0x7861719e2b7da113, 0x1590c0ba40059fea, 0x1e825483a9f8508],
    [0xfa3c471c51a672ac, 0x6134d97d7bbcdf58, 0xf7c949ccdc38ec8c, 0x1d1caa8449da721],
    [0x531564ce5fca874f, 0x6e61f48cc950b3cc, 0x673479d4589da85e, 0xe5fc7c1d17854a0],
    [0x5580229fc237f94e, 0x45c1399b2ee4aca2, 0x350f4ba229e33822, 0x2afc8316618c153],
    [0x11fd3b2d3b878369, 0xa46f6f534a0214b6, 0xfc03a5139944567e, 0x1f6570fb39247442],
    [0xd1224337e256e703, 0x8c0e049f29da5078, 0x300110fb96ec236f, 0x23897eb294a5fa4f],
    [0x6e9a3d2d363a5c1e, 0xfaa0aa508afb99a, 0x2944862abd52152c, 0xc872f10e24c0b99],
];

/// The values of the transition matrix for width 16.
#[verifier::opaque]
pub open spec fn p_vals() -> Seq<nat> {
    limb_vals(P_DATA_0@)
}

/// The transition matrix for width 16.
pub(crate) fn p_table() -> (v: Vec<Uint256>)
    ensures
        v@.len() == 256,
        vals(v@) == p_vals(),
{
    let mut v = from_limbs(&P_DATA_0);
    proof {
        reveal(p_vals);
        assert(vals(v@) == p_vals());
    }
    v
}

} // verus!
