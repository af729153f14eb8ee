//! Constant-table data for state width 15: the flat round constants,
//! the sparse partial-round rows, the dense MDS matrix and the
//! partial-round transition matrix, in row-major order. The constant
//! arrays carry the data; the spec functions read the same arrays as
//! value sequences, and the builders return vectors proved equal to
//! those sequences.

use vstd::prelude::*;
use crate::field::{Uint256, from_limbs, limb_vals, lemma_vals_concat, vals};

verus! {

/// Part 0 of the round constants for width 15, as little-endian limbs.
pub const C_DATA_0: [[u64; 4]; 180] = [
    [0x1bd639c97af6ffd5, 0xbd27e6a38a1ff428, 0x5da6d69ff3fb676e, 0x148d9e4542066b12],
    [0x5cbc059346691a88, 0x72cbf4eef1cba8b8, 0xfcaf51bb88d96923, 0xb60a28805324295],
    [0xd942c2f41e8e4a7d, 0x61885f20fa4bc6d0, 0x9c32fdd57a56edb8, 0x2d38f812ad1d7ac7],
    [0xe6b476a0357588b, 0x7eb3c37891e06bc2, 0x33367fd8f1ee199d, 0x25738acd11635800],
    [0x51f5d36824ccf43d, 0x3086549b78c1620a, 0xae8e20b5a7a198d6, 0x247f6967fca42689],
    [0xb087ff0732708b93, 0xd93502006694245b, 0xb75249b8d515a3dc, 0x2e22813077a668b2],
    [0x2d77389c83d474f4, 0x8c48da74bf7069ab, 0xe1c36b0e024068c2, 0x1523ea89be61be47],
    [0xf138939369e0d1c3, 0x2591dd344a7cb509, 0x87b53ef1bf81601f, 0x146695ce138230e0],
    [0x8c3c47cb5cb5b7c5, 0x7fc5a4125195e7d2, 0x71886d9c2cd44c7d, 0x12d05d9571fa4b41],
    [0xbccd2a2e73cac68b, 0xde6c89326a556e35, 0x3543788977111f3f, 0x242721147084d461],
    [0xa345c9a480c9d292, 0x7b38d1af5e3841, 0xe833e6dba4173385, 0xfd921ba8395a5dd],
    [0x82e601975d581f5d, 0x550cea8f12109c1d, 0x929f2e1ca9fb4a63, 0xf0bbdc7a39e5146],
    [0xfe6a0a0def765dc2, 0x6952d901385f2e1a, 0x1a4dee0313b6d439, 0xd65008588b2ee],
    [0xfa6df018a2dc7c25, 0x482f21c1c3d8fe50, 0xce33f589d903363a, 0xaea567be31e1c42],
    [0x34d069f182346bbd, 0x317b35316ecfc729, 0x6be1df758ebe0353, 0x2fa334757b03dec],
    [0x3fa3d744b16f073a, 0xe8257e7a8ccf6eef, 0xe8819a843d24f650, 0x2180dd9f972b1eb5],
    [0x44afce9798233c4f, 0x9a6bb88b84df6e9b, 0x8100d3574d707019, 0x1787a3fd66cb4932],
    [0x367ae7df02293da8, 0x18053ae81e5847d3, 0xdc8623fc0cf426f9, 0xfbf506b6714d64],
    [0x62b9e55faf49f5bd, 0x12b30ecf7b115e81, 0x5eb0720e27daa094, 0x14f57bdb3ddc75b6],
    [0xe71ee5e0b0bf940a, 0x800bbf4153eed15c, 0x80dcca581e1891ed, 0xdab0bef8d2d1adc],
    [0xf156319239d359ac, 0x1b7909811f025196, 0xf32087b2caa01b3a, 0x25f6be3a9c5f2a6f],
    [0xbdffb9bc56d0dc7, 0x4d00c5da7715c6f0, 0x50e137a4a5bc0d54, 0x25b541b96923b175],
    [0xa56b5b9a3dbda40e, 0xa4a5b3601044ba24, 0x2f2a037b0e2f7da7, 0x2b4ad0860f8c3c43],
    [0xcc425581c9643af3, 0x6321d8dc69988458, 0x4a3c2d77528fd936, 0x7d5817bd123f90a],
    [0x431f1dce531aa443, 0x66b97acfd136c9a8, 0x6c4ba4652cd90f4, 0x13fda3b1d02a53b1],
    [0x1e5aeeade36fcb44, 0xca4cd871268eb07b, 0xc4638786bd3fca4c, 0x2450fd6b1a17be1e],
    [0xbe39aef9e577a0a1, 0xd1ead583f72f64c0, 0x9dfd83eb0d0e76f6, 0x1c0753ebf63794a2],
    [0x7bbc3995119daf8c, 0xa5cc8dc3d8324f0f, 0xfae508899bed20a, 0xf110dc007ad810c],
    [0x26a4d3e6a59228af, 0x22fc2b8235fc7415, 0x307f0e88488a0099, 0x30623c2f24a7c6ab],
    [0xa969483f0ae3148c, 0xe1d189543380f691, 0x18e53130a6ed8bd6, 0x1d895817e78f2f1f],
    [0xd136b17a0254c01d, 0x8ded1fab324bae35, 0x797f61660105cf41, 0x3abf174d2075102],
    [0xeace7dc941b2f82e, 0x71521ac294b54d78, 0xdba9d12cae6433ee, 0x237478172f073d15],
    [0x377d373eddca712d, 0x99a2b9f75a9aab82, 0x3a72ac02f7dcc75f, 0x180f820a7408dee7],
    [0xea0488b822772614, 0x1feecaa867c8c11a, 0x8210f483f0b6b61c, 0x2a5ebba744ea7a6e],
    [0xddd35e366edd5f7e, 0x893732e1e7d3c0bc, 0xf7575e1acc4bd941, 0x2282d8326c3c12e0],
    [0x7a1f2ec3beeb08f3, 0xc3d5788cb47aa388, 0xa01552ecfd4fd7ff, 0xeb67d8e687cb2cb],
    [0x7e1e58d47545b77f, 0xeea588f1bef8fd75, 0xbbb82c56e4ec20bc, 0x176f406cc04bbcc4],
    [0xa1a8226608905658, 0x221d887ea0bee1be, 0xf1a3e9e32705a8a, 0x1c4d0cec6c8b22be],
    [0x412eddae08db4ad9, 0x7bcc4e3fd02f45af, 0x42f82c45b1a19114, 0x1e35dec79f5a579a],
    [0x5f4e2b504397e9bf, 0xa712004f974ef571, 0x23abb46d7a684eed, 0x75c4a33b1289f79],
    [0x6a4d9ee9f7d8a83e, 0x8e79a8fb7f311c4c, 0x52911089ce2a9601, 0x2f416c15f9018181],
    [0xd27b17a643f43979, 0x982c3448053bffc8, 0x58449ef3d46ec96b, 0x7a92367d2102926],
    [0x2aba31e2d953e44f, 0x5f6c08b1e6b0b512, 0xb435a220052e0629, 0x168799e51ef2e7c7],
    [0x77bd0659e75c8c48, 0x68704c26a8f4ddc8, 0xae9c21dd7331896b, 0x2c422cb4040ce223],
    [0x1b2e624b7eac280a, 0x1dfcfd4f52bf0cc3, 0x591edb4cac057444, 0x29966fed42c09b35],
    [0xfb10fac1d172894e, 0xf10b7827bf3a684a, 0xf0283876d4ea7d6b, 0x26ddc145a94457ea],
    [0x99b8c389641bf4c2, 0x783a5fea077af032, 0x76f60d9e9ea7a4c1, 0x13a8a30590a2c5d4],
    [0x51c265d8b45184f6, 0x168c237646f3a58a, 0x1656760882eef8f3, 0x21d12e7122c43725],
    [0xe1329810af2da4ee, 0x996058c68e71d63c, 0xcceea57039d404e1, 0x271a6257306b4337],
    [0xea62ad9295d8f625, 0x1f2e453f89acdf82, 0x961860e38dc78da2, 0x1980478607e68ab7],
    [0xf86149d8510df8aa, 0xda343a3cb3a14c64, 0x2b54b9599ba00669, 0x260653cfe0ebc056],
    [0x4b526483f8372f98, 0xe60585ff01249842, 0x129d997351088081, 0x2c4fd7be2751f8b6],
    [0x33168c4867c22a0e, 0xcc7f72c1c0bf5cff, 0xdfe17610b0692908, 0x640c9db6f458697],
    [0x5df1a16e872b923c, 0x51b006f2dd237053, 0x55008f8765b827f2, 0x925e62b77721640],
    [0x626e7f04b043f40e, 0xb0d00f8de6442bb8, 0x7a29bceedd1dcf0a, 0xaf4d8cd74eaebbf],
    [0x95f4d9740afda335, 0x7cfcad8987f36500, 0xb000d8b0a5ed004e, 0xcf6a34e2cd376d6],
    [0x883ac87da102d9e7, 0xa2341ab9069eb87c, 0x5b925a773280b9b3, 0x1e75dc69b7b94f91],
    [0x3a0a197c5c2737e6, 0xa9893b53928f3d37, 0xca63e248ab6a130e, 0x26bd58259c27facf],
    [0x5e005e5433db1130, 0x3eb07aad10b9f5d6, 0xe79cbc7282cf4b5d, 0x1511b6c19aef08f6],
    [0x1cc0ceaffe4ad982, 0x5151c036a5a34ff1, 0x31b08673baef673c, 0x26d816f8378615ea],
    [0xbd6fa7ed02e65c2a, 0x21ffbeb2b16c8fea, 0xa15d82ede53a8ef8, 0x1c38d60817c3a646],
    [0x2a4ad3b2617ecbc7, 0x1f60a917f4806bbc, 0x8143414d448648ba, 0x2ab192357923d119],
    [0xdc9bbbeb96536352, 0x30b6e27c0ae9f587, 0x3c9425ea2fcf9cf4, 0x2920a902ac2c1152],
    [0x99c83edb0ae1994b, 0xf3b83a526012953a, 0x6ee5aba8e5f9f67e, 0xd4e9bfdc6f8dc1a],
    [0x674adcd1b79a1717, 0x2ec317807a72ec10, 0x9c1d3f8dedef5758, 0x295bf676ef95ef30],
    [0xa6fd9f5252351812, 0xae7b5186fbb1a3f6, 0x3359dc8f1a5e14c3, 0x232180e854fede1a],
    [0xbed8c89807d67979, 0x9b057bb321bd9ce9, 0xb75de7586ba2287f, 0x2405a43f35d247ff],
    [0x35bfa8f3badbcdc2, 0xdf33e9cb5f0fb10a, 0x903717b2eedae0df, 0x18931b27ff3a9e92],
    [0x7c095445d90af092, 0x4146adf3997b8d37, 0x42548c7ccb93749c, 0x1fd6e10af1b3189d],
    [0x83f18bdf6d69be41, 0xb2a8ac4b043708c1, 0x8f553554cc392284, 0xc4772ff9abefc79],
    [0x64c9b167ccecaad7, 0xee10d0283c2dc353, 0x1aacf664825d3b15, 0x227fd4734e747164],
    [0xaf01b089595df9df, 0xc9530ba5e6f2baad, 0x57f7e0ae17f1799f, 0x132faeaa250b60ef],
    [0x93718608efa2047e, 0x5c60b155647623f8, 0xc85104cc31ba5917, 0x1fe24af9ab6246e0],
    [0x9678e205871becb2, 0x3f18ac443fff1698, 0x5c3fb987cc89569a, 0x2f376b18215290f2],
    [0x1038ca291bc0cb18, 0xeeca6f3de85152f5, 0x75b096e48336411e, 0x2f2fc0ee912aa028],
    [0xd266bc232e4c68b0, 0xc73f7b789a273a9c, 0xc386b4eb1445ffe1, 0x2cad38124d882410],
    [0xec7c1d3002a7e7b2, 0x453be8d5bfd9b2f0, 0xf4716c46a80102ed, 0x52002de9c04553d],
    [0xc17c2937507cfccb, 0xdf234ff9e5a46c48, 0x6b06cd6e4bf62cf7, 0x302d680ad3444e02],
    [0x705c371c7f705afe, 0x1206f49add14d1d, 0x7abc3b4cb640ab3c, 0x2b3a9dccd3876819],
    [0xe1f3fa90f2d8537c, 0x8f5e831e6df4d864, 0xb5c25e86c8a69026, 0x96a6e47d4345707],
    [0x242343fc4893783c, 0xbb50ebca105fa0f0, 0xfacdc8c153e84f5c, 0x2e2b005a0a54d0fe],
    [0xbfe7aa2265554a95, 0xf35bdaba6918f90c, 0x52e23e76cdb576cd, 0x11c8ac2a7f796c78],
    [0x1f481629bbf12b91, 0x4ee19b1570905285, 0xf1c91d8554f2e39e, 0x2c2e66451aadb830],
    [0x86b9be61a172f960, 0x576f186dd943b1f5, 0xd8f869554da434b9, 0xdb078c9e2f68eb7],
    [0xc238d2f267618abd, 0x1afdc86b514295f7, 0x30e17dcd7613bf65, 0x79328f87f731984],
    [0xb50e0810136b8b09, 0x96bfeb676de3313e, 0x4d6591af796b74ce, 0x57924e8f3e79804],
    [0xee12004339b6b9a5, 0x237e4c03fbdde5f0, 0x26981225e8e51fb9, 0x1730b8bb9dd03d83],
    [0x3d14cb59b0dccefb, 0x5dfbde7c63bf2aa6, 0xd91a5bc9fed5249f, 0xd121b54def21112],
    [0x5860713ba9457bf, 0xfdfd90f17b55f07b, 0x1944d682370c13c, 0x13924c1b5bbe6d5c],
    [0x21e3e0ebaa637ce2, 0x6b76ca3efbaa873f, 0x279003598eb1f7eb, 0x1cfaf7ae08968c76],
    [0xa3c3c63ee4eee0d2, 0x8049e304a818e769, 0xc66ae29d2ef20f8b, 0x20908d07c87e65c8],
    [0xf64e3348fb383d42, 0xe7a855939852c02c, 0x68201fdc03575a68, 0xd225f408959d917],
    [0xd1eeb39974f03340, 0xa99ce5710afd2f07, 0xa03120b3ed7cf793, 0x112785d72b09b749],
    [0xcca627d7f6f6babf, 0x10ec7e6b4a13acd, 0xd61a5b355b459750, 0x2dc01fd745f8ec43],
    [0xe6f0601de726afa4, 0xad67fa5883783b0a, 0xc173b9588be33839, 0x16f35ad4dc8075f6],
    [0x9e92e79ea566b277, 0xef8dae0d6fe3728b, 0x1dae37037285fa42, 0x1bbc143e6c93e674],
    [0x2f8c61d9123d4aba, 0x9e8cda46fd656a12, 0x84ec03429b49764d, 0xdf7e17da597a378],
    [0x4cb3d9ced0d8ab33, 0xb39c28db722520c2, 0xbcddd632d4e41f57, 0xd73b0c0a745dd49],
    [0x128cfc5f03e38580, 0x89f60e7042cb3e9f, 0x873f4ecc0d18c82b, 0x263f950c95141a28],
    [0xc5ce0ad748fd3d3c, 0x2c71c02faba0f2c6, 0xce7464f95db19bec, 0x195e19715160d996],
    [0xd1cc24c1a6579693, 0x8621fe2661b5c095, 0xab8ceffea244d192, 0x1cee7204151b6a47],
    [0x4d115430cc82c42d, 0x64298d8018135f73, 0xbea6d55ccec4dbd4, 0x29d7696ce5bb66f2],
    [0x6da98deedeacedc9, 0xdfcec6cab974c0f8, 0xdd025369e12e24cc, 0x26c47c18b71c8e81],
    [0xaf17a4c042b116e0, 0x8cb3f5e4918040c4, 0x824bf81492797db, 0xfac9631760c0b7f],
    [0xa6af69a6328de863, 0x6bddf02fe83f7c42, 0x84f5a93820b08a4f, 0x7e7ea789ab2f311],
    [0xb9db3e0775534bc0, 0xb597e7d9a73fb6f2, 0x87ab26c7cbd24ce2, 0x20eb37fc65efcf8d],
    [0x6c3929a7600d64aa, 0x584560aeb71bdc2f, 0x4e2dad61f4232d2a, 0x20f4028b63bdfeba],
    [0xfabc8c2741aef9cd, 0x90c386989cd167fc, 0x4b366a37a86d0d8d, 0x60e204b7c08f178],
    [0x843681ed56a6784f, 0xe16ef6fcb00bca0b, 0x39ccbe8366e16ede, 0x408cadd2b0c8fc],
    [0xfd1b75e7b90dd353, 0x24fc4ab9d188c149, 0xf24c5551e3b591dd, 0x1722aea32703f506],
    [0x46af5de36364f4e3, 0x444501dbaa8cdcb5, 0xd984e2796d56842e, 0x2b056ea316811928],
    [0x824b981e3396d169, 0xa529dbb444a4553, 0xe660f6e93ceecfa6, 0x276f12a02aa48133],
    [0xe82378e4c155a8cb, 0x64ad7f708222ef17, 0xd0cb67c02c5e0143, 0x1199c8941c5f8f8e],
    [0x45de5b545b8a943f, 0x706b259a1723c1e3, 0x877ebb18ed238e91, 0x28a3d2a547967bbd],
    [0x5137e9ab6b7b1be3, 0x25a89c5269a4b7fd, 0x6cc3bc269ca9689e, 0x244dde50ec65e0e6],
    [0x347938a528fa9d70, 0xc9044be00c51b80e, 0x3aa02025470b4612, 0x18dd271a54f6e5ac],
    [0x9a2e88beba3db8a2, 0xd8d2108695e25d27, 0x3362cf743106e890, 0x218e424622d7d41f],
    [0x658e7cde580fcd4c, 0x94625955af047d9e, 0x54143a02e8850a9e, 0x1f05c5f5041b178a],
    [0x251086764f3f6e7f, 0xa6b2540d14bcbfcf, 0x6bc0fc614b80b71e, 0x191da8c635793071],
    [0x38e155ac0632fdc, 0x4e50e68f2de8ce26, 0x99b0aa8e6a688b96, 0xd54bfbbf8a8cf7c],
    [0xcfa1b651decf8ef, 0x67a9c56e4bebf770, 0xa9814ff5454f064d, 0x22e1e8bb2d7d1216],
    [0x121c187a26dfe7c3, 0x10ae1455bc43695d, 0xa36abd2a40c858fc, 0x1f0fa78dc7e2300f],
    [0x2d6a0e098dc8ca10, 0x3b73f6fe786f47d3, 0x54130c6977f790f1, 0x151c8de5c4d6b412],
    [0xdf6b7b8028266433, 0xa9b98c6730e1097f, 0xf15a5f0ebbb360e, 0x191451e550240b9f],
    [0xc4eb890bf0e518c6, 0xdd22bc1dd06c42fc, 0x1169de675c2c543c, 0x88c58a21c4ac05f],
    [0x47773744bccdcf3, 0x878c6d8f67ebeddd, 0x47817b3c5684f042, 0x1e431a01a34cf722],
    [0xd2abbcea4f50986e, 0xce19ccecf989a34a, 0x58f78abb268a4c7d, 0x8a6ad0a360a0f25],
    [0x15e8b666224acfa3, 0x16c547d4f290126c, 0x3b93049fe276e607, 0x2fa7d3a514d879b9],
    [0x8de2fd81a4c2cef8, 0xb4c62020898be446, 0x81494e015133a5b8, 0x2f352d9675da8d7c],
    [0xe6382da769c4fa6b, 0xc3fd8d5bae54d596, 0xc79ac329f4b571c, 0xf6ebe0388d424da],
    [0xdc93a38c37fe3fb6, 0xba5ed2e9ad539951, 0x4e0f598396e434be, 0x1fe4cb5bb70a9da2],
    [0x81d0114f45c07bf, 0x66e61a2d414e6960, 0x929d30849ba99edf, 0x29f316d8c7f3c8e7],
    [0x2d2ffde8868564e, 0xb7817a4e5bd8db49, 0x358213eef06d52c7, 0x4febefaae3e20b5],
    [0xfaf55d1f218eecb2, 0x47aa0564eb05701e, 0x3a066bace2719020, 0x4d6b864cd130aef],
    [0x9b67a3c21dbed46c, 0xf33332662d5dbbba, 0xe54acb68074802ed, 0x159747ffd019c389],
    [0x6b5fd2e78793ef3b, 0xf0ee9c8ddb034a6e, 0xfcba7419b07b3315, 0x2116bfbf5067716a],
    [0xdc317c8f5060c4c4, 0x1635eb3f251b2b46, 0x95fadb8fd7d436d9, 0x2ba76cc7a25af156],
    [0x9486dbfd4dd0b35c, 0xf2ce3bdf50e38195, 0xd938139210520a07, 0x238465fd273e538],
    [0xa0f23fa8f23edecf, 0xcf9d30906e5bfdc2, 0x2b10d24af11e763c, 0x5c340a5328ed50d],
    [0xedcbbfee0da1c6ba, 0x16d5734e391bd1a3, 0x5cea4bb3491598d8, 0x279ab61cfe4f2548],
    [0x6c68b85f041568d3, 0x71528f4ca4018fc5, 0xad6de8d53e701947, 0x76e2fbd39d4fab2],
    [0x9c23bf4c4e61fad2, 0x7f7d7cf66ee41214, 0x8f04accf51f5ea6a, 0x75cf8404428a1a3],
    [0x7b9d2472dfc8622b, 0x6447e5e637225345, 0x757900b2499c0aa6, 0x1b45baff5397fea5],
    [0x3b4256a66432b09c, 0xafe3286cff840d19, 0xfff7232c26d92db4, 0x1a39fbeff40b73bb],
    [0xfd23ddef4e70c7f0, 0xbfdfc24808688b64, 0xc0890c322d58e46e, 0x1a4d4e0e68afaa99],
    [0x440f618d8c57a7ab, 0xf1fcc6fe2dc4bb58, 0x466ebd24a766f2a, 0x24d619da14e5505a],
    [0x3c65ae4aa728716b, 0x94ab3eae56e115cb, 0x4bb38c28a42fc024, 0x274442dd02cb4d49],
    [0xe695cab374f5f115, 0xc0fdd4b4637370cb, 0xf9b546553c12df66, 0x26a9f2469481a594],
    [0xbd478eda2f895894, 0x1d5b022a6cf0d3aa, 0xb765e70274236d98, 0x19b6db087b1cc1c4],
    [0xa6af33b0b5e8d072, 0x79f8722847c8c4db, 0x405c1a9a05024fbb, 0x231b94b5e1f8eda3],
    [0x9b0dee2f255c5681, 0x890729cb137862d0, 0xae48734c01c30a91, 0x276a571b8b2cf637],
    [0x6712cd8905787751, 0xf4511ce6c37a121b, 0x33a780bc6ac9fa8b, 0x63d0dc1ce85c554],
    [0x6c10e0df4f3af63c, 0xad5c4ba9d0468a05, 0xe990a078a5ee8d6, 0x1b5766499bbbe441],
    [0xcbff64d4256da110, 0xf80e1ef478c3d4f1, 0xd24e9dca2ca61b8e, 0x121b65097837a750],
    [0x96888eef28fa8396, 0x8158921dec0c5d94, 0x3320311ebf6ce166, 0x155bdd180e144672],
    [0x927b635d8bab8589, 0x9bbf6dc9316b5658, 0xc164b4a4546b2f3b, 0x2c8541d4945a6610],
    [0xc87d0be172b8c3c4, 0x1ea20c786605ae7f, 0x215ae00874307d42, 0x34a08d31b52da90],
    [0xf55b08e7933077c7, 0x50f06a600448641d, 0x886a7268d73a948, 0x12552fe7124ee6d2],
    [0x684810de0e2106cd, 0x9f0c7f7bb2ab83ff, 0x5382702070e7057a, 0x2d19c9d4694d594c],
    [0x26f4e341b0e28b29, 0x84eb4632122b7fca, 0xba166d34ae843e1d, 0x20a7d7794bdbe939],
    [0xc44eeba59469e561, 0x57691135d84757b4, 0xf32f0c5bdb33fd69, 0x225c213c0a3c9add],
    [0x4b449cf64f9b2537, 0x5481f4133e3ba62a, 0x74c1df077e89408f, 0x2eb542a5c77f34c6],
    [0xbaf67b3811fec7ec, 0x52c9affe1c17e3fd, 0x9d3189920396d0c7, 0x303a003af9c1e54d],
    [0xc9ff4165a8ed5673, 0x87a9e9f9b6e9df71, 0xb6c169979d09f393, 0x2c42a27e94cb62ff],
    [0xa247de70c5af9835, 0x95859827e9a9d32a, 0xe3f24af20271927e, 0xae6ba5ef2e7dd64],
    [0xcb3631118845410, 0xed59599cee1a505d, 0x273dda0c92739446, 0x4c58d44d2b14455],
    [0x6f45b1b2058373f0, 0xc12ebc234ddd501d, 0xe4e020755d8b5c10, 0x2a5c4931de9f553f],
    [0x4f44c933e6c8fb38, 0x52198f3c330e150d, 0xc3b73e6061f3a4f9, 0x2fd94eb892152b5a],
    [0x93704c0bb4d53c94, 0xb71a99ffcfcf7db7, 0x63201cd1c72a3b5d, 0x1b5395c281e1bd57],
    [0x3466d67b46342b82, 0x569b80500e0bb455, 0x2f03177f4639f37f, 0x26d18b9ffcf39ae6],
    [0xc03ee7d391812b38, 0xd77e0e34bc123791, 0x95d215ba0f81dcdc, 0x2c4eb768a6db2db2],
    [0xbd2d04590309313, 0x9550dc106c35929f, 0x8ec7c6cc3c3ee5c4, 0xc2e3f65db73f405],
    [0x6eee3e194cc925de, 0xd9313d4e87a75913, 0x128ab27ca3208dff, 0x28f15a4dfe1c74ae],
    [0x7f705e3929fd2119, 0xbc74a16f13e9b962, 0x84af974cce44aa80, 0x11ecc3e8d929c5be],
    [0x1768859e9a89f275, 0xc6a7add8fa608037, 0x351019674cbc2a84, 0x239d451ea3e39517],
    [0xe56cb87f01f81124, 0xb31bf2d6016d9096, 0x8e4f5795c3224053, 0x2a2a9313720b4adb],
    [0xb56f4a7974c6db74, 0xa6c0faaf19e362bc, 0x45a0e3596312b34b, 0xc0089ad49e36447],
    [0x8be5dd274c3d1524, 0xe624c9c6a6c4907a, 0x1be03b9a041596af, 0x2ee82c31a946f5d7],
    [0xf1d95c405c07bbbe, 0x5c5338dc936c91c6, 0xded3e7ecc34988b7, 0x1ae0e9d39c6100a8],
    [0x635f2f2bfa735738, 0x98c203d1a6caa18d, 0x1b3123c045526e, 0x1f11f75c7d0ac841],
];

/// The values of the round constants for width 15.
#[verifier::opaque]
pub open spec fn c_vals() -> Seq<nat> {
    limb_vals(C_DATA_0@)
}

/// The round constants for width 15.
pub(crate) fn c_table() -> (v: Vec<Uint256>)
    ensures
        v@.len() == 180,
        vals(v@) == c_vals(),
{
    let mut v = from_limbs(&C_DATA_0);
    proof {
        reveal(c_vals);
        assert(vals(v@) == c_vals());
    }
    v
}

/// Part 0 of the sparse partial-round rows for width 15, as little-endian limbs.
pub const S_DATA_0: [[u64; 4]; 256] = [
    [0xb6201c18e1b56dfe, 0xe00e59b571dd9d46, 0xd95b310dec2b54e0, 0x4523bf1a8f284c6],
    [0x72e1fde271c74372, 0xefd76cd18298bd6b, 0xfd17f1dbb39ba942, 0xd4e118218c553f4],
    [0xbfc8afcf3d63ab8b, 0xdcd2af6a66aad460, 0xbd838375e1c1a562, 0x1c9814a36ea57e27],
    [0xbecd7106ed3e41fb, 0x60544306978535d6, 0xbed20981459d41c5, 0x1c573e2904e49c6a],
    [0x8e73047cf2f2e920, 0xb5128a23298b11eb, 0x4307cd009e6bd6f7, 0x9e39b302efe7ebc],
    [0x596cf2c38ac2cfd7, 0xaf61a2ce7a048f9a, 0x8d5f6bffaa3faa89, 0x1fc427692601beee],
    [0x893174ccac29766d, 0xbebc40e693a66f3b, 0x6a71a235d9d2ba54, 0x1e5b7cbf92351abd],
    [0x247240d61e8b684b, 0x5e49736814f2c9b7, 0x2c402c2255b267a0, 0x2ee69d018063e475],
    [0xb8e7e16253274f5a, 0x940ba81052b4e4d5, 0x57be4a55db999baf, 0x1eaea919368dbdf],
    [0x29dfa7a466038453, 0x6dda16c8cfd27aad, 0xf3167e17564126bc, 0x297f770923ed719f],
    [0x8c1a5c1d06912186, 0x82c03ea2634b67d9, 0xa28c86290a71162f, 0x13a94e1e1ffd11c4],
    [0x68359bb6082e56e, 0x46c2c3588f3cfe4a, 0x4098ac0e79d99fb5, 0x19cea28494b1210a],
    [0xe47c85e581b050b7, 0x43436e90a8efa58b, 0xa61935f4d4955036, 0x13841448d03b83ee],
    [0xe868000a2dbfaccd, 0xcf870c778b2093ca, 0x7188de71beb7cdf, 0x2df272af26c5aa54],
    [0x6302bef9fb2b6e24, 0x4c1d8a43c2bc2ddb, 0x82548ec713b85e37, 0x29fe73f14e2420c9],
    [0x3bde14e3330e3175, 0xfe8f59b876c18ae1, 0xeca9c300edbd0a65, 0x9070c4406fbd360],
    [0x643b8689ab0b7cc2, 0x29734ca1b04494d0, 0x9b688200788ba82d, 0x2c82ea6755166fd8],
    [0x81e1fa6084632b57, 0xe57c1d964e2e5250, 0xa57f9b731be061a, 0x26e76b10c0dd0dde],
    [0xc894caf9a37240bd, 0x1b3c809206a3930e, 0x6937d1b5d5fdc582, 0x277298f3554969bc],
    [0xdb6ae5d274bb8453, 0x2838605198c699c, 0x4bf6613a821ee5d5, 0x287e53a89a23bf62],
    [0xf6a96cc697256255, 0x17e6cc96b7ddffa9, 0x3d2c1820226d4e71, 0x2e9f85b46415dab5],
    [0xa0d056c9df3e5297, 0x5e5deb8c57904e5c, 0xbb0e00460172bce4, 0x17fcc4d649ce2696],
    [0x71b61ef7febbff4a, 0x8bb39eedee8d9f01, 0x7a950159ff441157, 0x2c971b630f9a4bca],
    [0x9814432299a9756c, 0x824ee0123e0ee830, 0x3c9205ce33c6dd79, 0x9b526beea2b32c9],
    [0xef07e1997704279, 0x8fc89039b4b29709, 0x72212bc73164132f, 0xc8311c2fe1acce8],
    [0x53efafdd1742bcb, 0x8ada7a353f3da4c8, 0x4b1dc83b3666ef38, 0x2ea4d48161c13add],
    [0x3873d06a42b8964a, 0x78aed9e64cc9d797, 0xbcf7a195bc52e08d, 0x447cfb281dd95e5],
    [0xe018f941a9edc227, 0x62ada01cbd66f3a4, 0xa028afa5e61ec43, 0x2828d9d20b414b80],
    [0x9d2aa70b8fed775a, 0x83032e1f3f5065e3, 0xcccbcfc527cd8c33, 0xf37dee2a8dc76e8],
    [0xb6201c18e1b56dfe, 0xe00e59b571dd9d46, 0xd95b310dec2b54e0, 0x4523bf1a8f284c6],
    [0xa6bf90bf09fb97fc, 0x27e40c696357cbdf, 0x32e51fc1db9264b5, 0x2ab166f28cfdbcfc],
    [0xeb898a1bedcf3c0, 0xbbe2ba73c0e55bd5, 0x942ced8e2ee15ce4, 0x2e156785cef17b7d],
    [0x464c76ab985a43a, 0x676f749b7588d5db, 0x208156ca3680d6a5, 0xd4641251d71b781],
    [0x23eb423b1030e147, 0xc8b068d2bbb11c36, 0xdec40606144f5bc, 0xce5cf743d721f04],
    [0x5c7f9e22a3183ba6, 0xd8dc8606f2465e87, 0x1bfaccaff799de57, 0x15e35852381a5202],
    [0xf446d06b3a770c04, 0x2f2ec891fde602fa, 0xbbb23fbe3a202719, 0x7e9b4e0821320af],
    [0x9b0cb87aece170f6, 0x66876fe3efe50490, 0xcc70835a005c7ce3, 0xb743d70dcb58a6a],
    [0x8322c9a18c487a3e, 0x6a937fc6a473185d, 0xdf1e921eb1a84147, 0x10643f7d6181a8b5],
    [0xe75247bc31e6585c, 0x4e4f5908537c40b9, 0xa3770980f0fbe3cc, 0x2928df7c94de7ff8],
    [0xa79d445b9d073318, 0x9c27f428af5eb3ea, 0x13c37e067709bc36, 0x168d44f63e58a5c7],
    [0xe8b3b58dd165e79c, 0x83bc1ebe804c7b25, 0x343a94e76efa217b, 0x2b8845a96842f965],
    [0xbe66ec028fc01bdb, 0xa7c738157715d6a1, 0x14dd149cd24fb411, 0x1f44fb02f387d2ce],
    [0xe1774401a5412a53, 0x995427c81e04a265, 0x30f6c64ee6870bc, 0x217b5aaf9893ae41],
    [0xf1c742de712a4a4d, 0xd0eef3f6487292f0, 0x296cc6e02e249a6c, 0x45a1e21cd1e0e5b],
    [0xf7f761eb33f39e5c, 0xb06f565b1abace77, 0xbb7d4533914b9b8b, 0x1901d160707a8edf],
    [0x7ddd6a896c7ef8a7, 0x65a5a93d07e51c72, 0xc665a4dc5c89a8e3, 0x27dee99b80374f3],
    [0x2d1b2ae6e289aaf6, 0xd7fdc10f96e3ca68, 0x1633d64c0dd5f068, 0xb1c7058abc3ca4f],
    [0x1e659fb8454b9a1c, 0x9ec01d9a17dca700, 0xfa2f107a811730d9, 0x1c495d660ada6c32],
    [0xe61a82b6bb65160c, 0x88c9c36005cb54ca, 0x3a91853cf668563b, 0x100885f5765de173],
    [0xace44c6d372f0545, 0xecee34870235d36c, 0xbfe5bae6e687558c, 0x233544636d02f161],
    [0x78f64767a4e66446, 0x4ca5052e685e02c1, 0x37d947276e3cbaa7, 0x222a180a868a5891],
    [0x9d4d7e04950fdcd0, 0x32821a7330a52562, 0xc1331e24ec3f4e32, 0x22b1b89514b6a597],
    [0x5c22661cb1e1d5a2, 0xb8abac8fc591ba2, 0x46877d78272ce7c5, 0x229fd163ea1ae804],
    [0x5151b80c102a0503, 0x8bbecd324d5950d6, 0x89d081dfbcc8bd39, 0x5efb45e61466bbb],
    [0xdc5b99e781853a3, 0xea3785fbdf1a755, 0x968ea8419be7466b, 0xcdf2465b92dd04b],
    [0xba68bd470f29ffc6, 0x628cc3f7f480e68d, 0x7376c64ce28e10b1, 0x2acbe99eeb7c3a16],
    [0xd2c3d392fdea5bd2, 0xcda1031ccb8be5a1, 0x7c8cb1d097da2d4c, 0x21c173647249e75c],
    [0x677ce75f0abcb1a2, 0xe30bb744886d5ae6, 0x9ccdd26940f3b6e8, 0x426c0054e199f8],
    [0xb6201c18e1b56dfe, 0xe00e59b571dd9d46, 0xd95b310dec2b54e0, 0x4523bf1a8f284c6],
    [0x8522c437a2c63c8, 0x8245d531d59a7a07, 0x7afebe82773b4ea8, 0x2664a99501d9fcc],
    [0x18a2ad557ae4d1ab, 0x27045bfea974ef58, 0xa17d44a790157b7f, 0x1dc35aa8ae4c95f4],
    [0xe9a085395aa708cb, 0x37cc5821d8cdef8a, 0x7a6280616afc83e9, 0xfdae6869465240d],
    [0x3b8f671a3d1c7ab8, 0x467c1ac219af05a5, 0xd509149e265b8474, 0x1782b019aadd454],
    [0x8f18d620de3b1ca2, 0x39d5715e8637ffa1, 0x52a333f2e031cbcb, 0xe543d031bc17488],
    [0x6621429cf2fd8e2f, 0xb0124a73e040581c, 0x79a58320fb01233f, 0x104993ba9cad115c],
    [0x6b60cdee38a2e30a, 0xe856bd5a9b029d92, 0x5e0cef19dc491ffa, 0x2aec2aa10254227e],
    [0x3ee22e08e9d46daf, 0x14c781cfd7f6fd18, 0xce60edf4f3232a96, 0x14395653083408ed],
    [0xdca2b31818693012, 0xbd32118b21d44f74, 0x68b20d9f7df040a1, 0x2e200704e49142bb],
    [0x6237befbab16e11c, 0x9c03036a7f0d506, 0x3fc79ec16f248b62, 0x2797778f8ed2e9af],
    [0xf8cbd4349970ba35, 0x36a4dc4b5b2b0823, 0xe8c5360007aa9f2e, 0x25e0e403bfbbb31b],
    [0x427bbc4415251771, 0xa3004a45a0443192, 0x1516ec6c5c816c7e, 0x2e8423bdead0b3ee],
    [0x4352ee7ae76a07be, 0xcd38da886bc0df3, 0xf722f141385ba051, 0x2a34015d21144652],
    [0xaf0b9c3cde42f4cc, 0x155b036b22bbaf7e, 0xa0b44a072aaa54f5, 0x2a3fee652dcedc95],
    [0x987b620c66543505, 0x30314fe7629e0dd7, 0xf037949a54fc72f2, 0x135692d47c5a0d4d],
    [0xa758b5be41c8d616, 0xe1b44b72a413b7b2, 0xf0844de5e3c4b4f1, 0x142093c728ea36ed],
    [0xb79ad8cdd0d535b4, 0x3f62a6993b748eda, 0x7fe0f1330ecb1545, 0x2a0b459ab3f63656],
    [0x87127ce73658a9f2, 0xa82cfda90452ab91, 0xe1d5e4728b882d56, 0x330b0a428235522],
    [0x70a74000b67017f9, 0xc602a0cbadc67eff, 0x2763004e8fcf0af6, 0x2c44b22ae15ba0f2],
    [0x9460738b6bf9760, 0x1183c8d1de5c7c8c, 0xab61b7b60219e29d, 0x1c68c04dca5f72a],
    [0x9a8a12f1b9d59330, 0xce7f86e68e4969d2, 0x1b773a27c47800ca, 0x1c74af78ca044853],
    [0x7492e605ec7a9c42, 0xb38316393fe11a0a, 0x6911a23a9f9c7076, 0x14e2ebfdbf9c76e9],
    [0xed0e9a236e4d8fb3, 0x759828d711dd6b28, 0x6f636acfce7dae71, 0x119a85d4048b76c5],
    [0x102e05a91472bf35, 0xa1d05f25790a2451, 0xa0b76a171b8d7ce1, 0xde9be78e2e3c344],
    [0x44eb5b8fc134b002, 0x7fe1a6843a766a3c, 0xffc2490773f8af70, 0x1e91cd25f12f2f3c],
    [0x592d35c438648061, 0x2f2d74e53216bbd9, 0x86a91f597d0a90, 0x20956c83b24ba2bb],
    [0xb1011540d2331e87, 0xfcd75862133046a9, 0x16fe75522d771400, 0xc716d79b1bfa9d0],
    [0xe084a67e2fb6ea6a, 0x3fb3d6374708cdb2, 0x3c10abc4656fea49, 0x2c4f3e61d58aab9d],
    [0xb6201c18e1b56dfe, 0xe00e59b571dd9d46, 0xd95b310dec2b54e0, 0x4523bf1a8f284c6],
    [0x39701683f9642dfe, 0xc3f053dbbaf7635f, 0x7599c130b4b6d22f, 0x15762393eeb33516],
    [0xf7e2da5ae19d158, 0x5c48facbabb151eb, 0xc0c5817e57dd5b77, 0xd7579361389b5de],
    [0x4a40a61186f47a42, 0x9be401183f093278, 0xe2f70ccf516bee6b, 0x265b9eb82ef9bb6f],
    [0xe8e2fab367df2272, 0x14090e05a3c9ec3f, 0x3046b8f23c3a7cb6, 0xad7dc8d9d0b28ae],
    [0xf5fbeb698bcb19f7, 0x354304e363684e38, 0x28e7b9c221379203, 0x2a3f87839d7b3e05],
    [0x7d8e88a9d62fc5ea, 0x5be1cb0d89a8c087, 0x95ae05198f7a1c47, 0x2834e210d211aeb3],
    [0x938a6a4c863debbf, 0xc1041169d5b57c49, 0xde1cf6ea6947009, 0x8cf6af0f8c7017f],
    [0xa4c32f619b164bed, 0x1ceff857220a181d, 0xd0fb624b14c8b4a, 0xf9b0115c9097f36],
    [0x7718a4c0fc8a458c, 0x2e5a3abfd8218ac2, 0x4cebb8706f44e875, 0x10902d17db982329],
    [0x969e9cb38d8d118f, 0x7b4f18bd43993e4d, 0x8ed4315e3ce00766, 0x2ffc17ee98848d87],
    [0xbe9c37135041fd98, 0x56515eaea2e9cc36, 0xf88423ffb5270146, 0xf878f0a4df67255],
    [0x820053da7694d26, 0x27dc503c798e2914, 0xbc764ce0711c58f4, 0x5dd3e66670174cd],
    [0xe2aa2d08bad6c023, 0xab91a9ef2af4c33e, 0x1943ace205edcc81, 0x2de49ecdb0110415],
    [0xb757ef2eaf0b9311, 0xe61dba64a225f746, 0x6d7db309aa0ce6f8, 0x2cb9a3284c718a56],
    [0x64bc37335ccf5a69, 0xced386145cff8083, 0xd9a491dc73821969, 0x1d1c9593d0c4ea4e],
    [0x9f41d216c9552854, 0x743fa77b09eb566c, 0xc5de4ae5024a4612, 0x23a29371ad7760d5],
    [0xf92466008ab94247, 0x31b0cb85eb8464d3, 0xbcdc2471f7500365, 0xee30c0ca292c3db],
    [0x8f60a1d9b5560175, 0xc850951774b431a3, 0xf97058ff5e8ac23f, 0x1727f0d18b422010],
    [0x2febacdcde11b71b, 0xe3d1b5b3dc2d9ca5, 0x5365b828183f8266, 0x2ac5457bc236f894],
    [0x63f4d3a25a330ee7, 0x4bbd88bb34ad7e56, 0x6ca2170969b7b9b9, 0x166d29ead2255e35],
    [0xea86e51d4f39e736, 0x6f6c6caadb087b52, 0x48299bcd0cc8ec48, 0x2e386cdbee46199b],
    [0xe11747da5d44a530, 0x34e85a225f09199c, 0xfc1543e6cf5c6534, 0x7937bbf56ef747b],
    [0x7408840d43bd04fa, 0x5d61d0a2a05fc603, 0x4a5b9a075d32020a, 0xae9d9852098390b],
    [0x219c7317087568f3, 0x245601ea27ce4b35, 0xa287e113ed3be581, 0x1181b5e009f4e51a],
    [0x695351dec487b611, 0x5205984e5966c1a8, 0x62d86bfe804db3f6, 0x2475a06052db249],
    [0xdef155581d6e10d4, 0x65aa90425ec8b494, 0x1b2e5ced41579495, 0x1e9530a8088a3c24],
    [0xbfb316fbcae53202, 0xbc679cf8fac9127a, 0x12734c0f3bcf2bd1, 0xc9c3bdd72c3442d],
    [0x5389e181a4ceb5ec, 0xb4bea555f4569e09, 0x164a2e2c81fe134c, 0x2fca60f1092c4d48],
    [0xb6201c18e1b56dfe, 0xe00e59b571dd9d46, 0xd95b310dec2b54e0, 0x4523bf1a8f284c6],
    [0x984ccb99beb3624c, 0x5be5bee11aa1ce43, 0x9b4b0e708130dd84, 0x1115614e19e210b5],
    [0xf81187f58a392382, 0x7340ab3f4fe78e63, 0x87b50ca1690a5511, 0x26643a2ea75d103a],
    [0x7ac7354b60ab8412, 0xcd5cfa34039856d2, 0x4716cd74bc49c2b, 0x699ce3db9d5882c],
    [0x9545cf501ecfb243, 0x74b035a00897f89d, 0xbb3383eff03f899, 0x147e382354cd1bd3],
    [0xde2bd9f49c121700, 0xe05426fd3b1eeae4, 0xa9757765b0c2eff1, 0x76e68370ceb55cc],
    [0xed25395fa38cd884, 0xf7baa9b67ff8471c, 0xf6b6e9dae47a7ded, 0x8064483b1ee3733],
    [0xaaf8f4f897401f44, 0x41cf313eb912318, 0x9a00f54fa10923c8, 0x26225db4d7860e86],
    [0xcb61b6cfc6f837db, 0x2a28b25887f78e8a, 0x6633aa83180dab52, 0x15ba41ce4e4e0b3c],
    [0xd25d44b0afff7b09, 0x4e89c3fcc2b081c, 0xbf1d0fac4a04de38, 0x29bf9692a1f8c909],
    [0xe5577fdac75a85e6, 0x1808c2a9c4864ba8, 0x9e4b8824229a7629, 0x29838b380b43fda2],
    [0xbbfeed37630a0b48, 0x3fca070e83a818d5, 0xed739b99c84c53dc, 0x165e81bf9d1b5b89],
    [0xcc403a3095ed3fa7, 0x49a60af2365f8bf7, 0x201e42ecbc83099b, 0x10a7013127742057],
    [0x80fbb92ed556d9ff, 0x78f14149d0123c12, 0xe384c76802544c37, 0x223759ffd12a39e3],
    [0xd9115f9fe9ee3e59, 0x42753a479540db83, 0x944cfa07f21c770, 0x707296bc5dc73b7],
    [0x7e60f46bdcef86d0, 0x8c76240f97f758a1, 0x6c51fbbd99ecd710, 0x205f5d69af9f4bb6],
    [0xb3a977802fe9037e, 0x860046534bec9bcb, 0x4d5c7150f1bd9346, 0x1210dd2f4c47992f],
    [0x83635ffc0b0a6c8a, 0xb958529cc51dd5a2, 0x9437aa82f7a82ffc, 0x144ccf1aeb8b78de],
    [0xe87928c4c0f77e80, 0x1e3d4ab0e2ec01fc, 0xbcbf4bade79e1041, 0xf996b911c7c650e],
    [0x656137001b7926af, 0xc002fc3d66b3ed2d, 0xb068fdff6e531b02, 0x1b46a1b0ed04080c],
    [0x3367b8de0927b2f1, 0x238aef46a5ca3360, 0xb5eae86fd8b1c68c, 0x19fce53edadf9d4c],
    [0xdaee8e9638a986ea, 0x2a2f42790725f14a, 0xfb46ed42a401176f, 0x26b0885672f6494d],
    [0x855dfc5b938b80a2, 0x76f5928ec0b7488e, 0x33297937c52ae010, 0x2db620812477b8d7],
    [0xa32a19e80a638112, 0xd72c24aaf0a5b372, 0xcc6e6330182f23fd, 0x20d30fe0ff4f57a3],
    [0x7eaf832f00f34d2e, 0x81e12de4060b90ba, 0xcbd2ba1c425d80e, 0x2a5e3d7b9813aa7a],
    [0x6ebfa501a4b3f94f, 0xf7e3c7a31db631ac, 0xde47f36daec39db0, 0xab8b6d9abc9cf77],
    [0x931f69b921e5b4dc, 0x8a31c1f65d059e23, 0xe2f9cdce14dc380a, 0x16c8438c2ff89c19],
    [0xa2ccb2a64539c7e7, 0xfd7a2ff9fa3b673a, 0xa9c1b490db18fc8, 0x13d36ffb25914bff],
    [0xd0bfdf4e9b22660d, 0xb545148ca86e60cb, 0xd3ebe26bf4246e8e, 0x28b8ee6f7ee1d8d0],
    [0xb6201c18e1b56dfe, 0xe00e59b571dd9d46, 0xd95b310dec2b54e0, 0x4523bf1a8f284c6],
    [0x2e863d7b956aa085, 0x94e5aa2ddbf428d3, 0x96b3f4719b4b443d, 0x10dd321b7a11a2bc],
    [0xa6214835460a342f, 0xd089c4555f057172, 0xd0690b7e2309f312, 0x5fc6b8b740e55f5],
    [0x359c3ff00bcad10b, 0x562ed3d80aa8a986, 0x297a4fbc05ea97de, 0x2951ef2c77380bae],
    [0x8fc8f9d61108276d, 0x19ad6c21c222b09a, 0xb88adb86af532318, 0x2b7c767b440ca0dd],
    [0x38d717da4db7673c, 0xfe6ad0fd24146f1d, 0x470afc3e484ec8f8, 0xe44d122f91c40d9],
    [0xf1fd08f9da703c4a, 0xaaa3287c07b9b79b, 0x54d7f399c74f48df, 0x1ba47ae303c2e768],
    [0xbbeb7b481a52feea, 0x9aa2338185b6f97e, 0x25867f7a9850aa79, 0x11b425d8000810e9],
    [0xa99a9f923b1f7014, 0x32a396b72c311c05, 0xcee25f4fb6d0a1e9, 0x27abc591fdfc4152],
    [0x637fb570d4c23046, 0x7c909acc3874a238, 0x829961f0cd5b34c6, 0x2a7294a73da17a02],
    [0xb759bfba34b0adad, 0x35e87ee9958f16da, 0xef8be7fc3d818671, 0x8b325e346b09a1e],
    [0x3da87829057ff232, 0xe5e5d232d2859c9e, 0xd2c871a9db0ca38c, 0x1d8bfded258e085f],
    [0x903b5385d81b19bd, 0xaba2987ed57399fa, 0x92a7b8f17a16a37b, 0x10321b7d5466be1e],
    [0x4f201a98e3e87ff6, 0x6e0e907831730698, 0xfe90edbd656d7212, 0x1385299af14ad7ce],
    [0x4798d3b0d2aaa8c3, 0xd9a1855e9fe57167, 0xa42eb33e47d2cfff, 0x1b3f863460bd743d],
    [0x82dc110ad78f1101, 0xd8bda274251b4fbd, 0x6452cb242e20a222, 0x16f65f24d40213e8],
    [0x4552db0c6e00442f, 0x52e16551386b42a7, 0xd19f84117ce0466a, 0x271aae4782989da],
    [0x1f2b0a3956beacb7, 0x9510cfde2d374c17, 0x241829ebd6bbf271, 0x2913b1df62de1405],
    [0x37102ce0a77b657d, 0xb06e48b5df049b9e, 0xbced652ec51ca12f, 0x102108bf4a73ec9a],
    [0x7a4d44df54bb48fa, 0xdd98c202be6d1bc4, 0xf807ace7c0ec31d9, 0x206603d022cc8608],
    [0x57ce83ab6b75bcf, 0xa08a0d6fbbd77cbd, 0x1e972ee6a4a2f88a, 0x28c4e8e4ef10710d],
    [0x3819bfd72ae98f42, 0xccef784eaf0b52f3, 0x79c9a23e91e9f017, 0x1431769f19552b05],
    [0x53222877b0630336, 0xcc033e1ed16a310d, 0x9f39b11e720b833c, 0x20c42490a8ca07d],
    [0xa50d63a16c988da0, 0xa9bbfd2d2e579b95, 0xee9fe071410ca804, 0x27e9b6a362bfbe53],
    [0x4d44233653aab860, 0x8f5e3f82246fd70, 0x90d32c1258c1cb41, 0x2e937b74fb17d63c],
    [0x495dc49b14a61c8d, 0xe9c922152ec0d113, 0xcccb5e1b6c9a5583, 0xb1b6974c506d78a],
    [0x2bba51613c0335ac, 0xb0c8aad0551a6f37, 0x5d27bf135c8bddd3, 0x18554cce997dedb9],
    [0x7a66bf9fc6ccf8a5, 0x73aec780e8236c82, 0x5e447a1cc19a9980, 0x132069ecac9f244a],
    [0xf0d0e511e5fa37b1, 0x5fd7a3618233a43a, 0xb98948ad7da77f03, 0x17d40185a9458fc6],
    [0xb6201c18e1b56dfe, 0xe00e59b571dd9d46, 0xd95b310dec2b54e0, 0x4523bf1a8f284c6],
    [0xe9e8c7a8ac1c4128, 0x5346929cb378a7e4, 0x41a3fbf29f0fc872, 0x275d28b520438742],
    [0x9acbb57ae75043b1, 0x9e88cda8ea726d3d, 0x89b00227d7482833, 0x168eb99c86d705c2],
    [0x6b08ba16ae65f435, 0x641312f0bc195328, 0xa2abadf6bc42a902, 0x2a76294553220b5b],
    [0xf1dee0b3999be4ca, 0x714c601e1547cd47, 0x6c9c4c70c11f6375, 0x4f55222eec01a99],
    [0xdeb35ff9f4a40c33, 0xcb13d299de81fac1, 0xfd25a6404e4acb62, 0x26afe145a5c9d058],
    [0x1180cfe4c4df7936, 0x9f51b58db73bbf2b, 0x902fe2334f239d49, 0x2cd5c836e175ed7a],
    [0x29b0ad93fec02eb1, 0xda1fc0d452efb2b1, 0xbd7368c0f42079ae, 0x29b7a4911bb67a29],
    [0x94e319d46a63df7f, 0x911dff878a2fdb47, 0x8a1dd733c8b08f63, 0x258d09a47dffa2af],
    [0x1c98ef02d81f1b0a, 0x24d5ff1f0a68651c, 0x9fd7981bf1918267, 0x22e2643fe4519338],
    [0x70de7dad7e32618d, 0x4e3c72da3dfc1f43, 0xeaa40d8f6c4f0a1d, 0xecb1213c8df26d],
    [0xe769d2732c63adde, 0xb4d65506c78e318a, 0x7410192712238658, 0x14ba09c0956dddfe],
    [0x494acb677134a60f, 0xb46d0feee4dce60d, 0x7d8121acb638deba, 0x2dcd28c30f44c2ee],
    [0x29ee45ca959e4b79, 0x592f3bd62f862539, 0x4ce1a8fe1fa28251, 0x117c6959729d1d77],
    [0xe68319367c7fae08, 0xb55d20b7e2f73357, 0x9cdcfc47b48fd66a, 0x2c290cbd7d76fc9f],
    [0x9764374e5f2b5195, 0x5330f3b2850955a3, 0x259fc3a2bdb40111, 0x1f40cb5c53ab688c],
    [0x530f45bd8a751339, 0x99f9fa9c59eb6375, 0x11fde6401a6f33d8, 0x2a58a19ce1744a24],
    [0xf712758a05b49206, 0xb3ae9478043fe167, 0x366d6d7d5707c63e, 0xdf6ce7e1bb5c41d],
    [0x8abb7133747833ae, 0x8156b370fccf15c4, 0xa1d7193b31362ea8, 0x2a32f08c015e3db],
    [0x63d86a54a593d86d, 0x3a627059b406379c, 0xa8e67f9dc534fc8e, 0xe549b8f127e7ee7],
    [0x691d721a523ac174, 0x3758e360c703aed8, 0xcaa6fcfd53d3b8a4, 0x2ad6b517cba39a16],
    [0x56539c89dfc84091, 0x531c74d6255f1c11, 0x72b8385885464cb1, 0xe000e82e93b69d],
    [0x9d60049b94770419, 0x3f0c286e80d7166, 0xb95c0fc8a84f5d56, 0x24b57d1e4c920be2],
    [0x6924a1e990e7d201, 0xf966152275afd3cd, 0xea9a53b058651459, 0x24c65f0e2ad6e614],
    [0x3d4ccfcb6f1fb66, 0xa1ffcb4d5426e96, 0x4b1f2dd4b68b8362, 0x1d0ae8c3033577ea],
    [0xf131bf24d83dac85, 0x4af13ee311ed522d, 0x37544addf33b8d10, 0x12c81853619d70f7],
    [0xd8ef12e168aa162f, 0xfee9338a1fb239f8, 0x58756c49b28c0ad0, 0x50fefb4229d0fbb],
    [0x868d3a6558410173, 0xdcb60bcb2b4d1b58, 0x1b5493a594be14eb, 0x1dc4a881539b03ca],
    [0x900f62c5f9b805c5, 0x3ad758e4d08c37e3, 0x61ca773e969dce8, 0x1e7e5f574d74633a],
    [0xb6201c18e1b56dfe, 0xe00e59b571dd9d46, 0xd95b310dec2b54e0, 0x4523bf1a8f284c6],
    [0xf38be1ff1cd97e65, 0xdf002ebbdbe5da92, 0x9b3761b019f812c2, 0x2d030d498dd22e5f],
    [0x284661cb0fb1dcaf, 0xcd012a794ca2c18d, 0xaeefeeaa2e7af21f, 0x227f6e1b292aeefd],
    [0x584dd73eb1709358, 0xf0c773c88c2507ad, 0x5ca4b488dfd11e27, 0x9a991758be8db84],
    [0x221492081480705, 0xa89b09ff70ff56f9, 0xdf2cd4c5cd248514, 0x5b3c08cb06d23ce],
    [0x763cf729b6bba03, 0x88c3c71b8f82e048, 0x316198b79e4df3e6, 0x207e60dbdbbbef1f],
    [0xbc324eb2362d27e4, 0xd90ae56629eb00e7, 0xb3efaae72ae18d50, 0x1d94aa3d4e98c691],
    [0xde3d8aa60bba2869, 0xf91f030f8b5c2dc6, 0xc573c3ed2232eba3, 0x2f99f4602d8a7612],
    [0x781703c07d6272ea, 0x67d64ae6ac9bf206, 0xfcfcbbde02cbe155, 0x185a7fb027b40f8e],
    [0x6b715a30f9b69b44, 0xbbfb69b5df611a1b, 0x96ae4697ca527ee7, 0xeb85ffa7ee5e9fa],
    [0x98a1ca6cd0da5ef1, 0x78262d7e6a470ffd, 0x3f6d563b24b8b78d, 0xe6507cc613c091c],
    [0x41e67a93f2bdcdbf, 0xb2818746837f5919, 0xcdc49ea3f57da799, 0xfeb286fa095e4de],
    [0x5160247a84d13e6b, 0x485bce7dd521c0a2, 0xabf4ea584b55e158, 0x157de51c339785f],
    [0x100d6be4d55df254, 0x80204a183a1f68e0, 0x3f005f26c89c6734, 0x118b39a323a6ab54],
    [0xabcca003e2f2d724, 0x38e43ec1c1c2d4f, 0x9e35fa9ce14f0d87, 0x200f0d9065e79bf2],
    [0x723561f5116df99f, 0xaed6e4a31d7bcf8d, 0x8a9c5c8814c58923, 0x271b6dbd7bbbf9d9],
    [0x940e363bd2830509, 0x403a907c6113f39e, 0xdc757649b53c126, 0x22594da35eddc185],
    [0x8781130407455a81, 0x642a59f2cee2dc6, 0xb709786ffc8a7d56, 0x9a6a3e13a6aed0f],
    [0x170c4aa965b8e48a, 0x44380a27446e5d0, 0x8b8ebc8eface4fdc, 0xd5de9b94917addd],
    [0xfb101a4c88811cad, 0x254c8aa06ac08bb8, 0x67060c619e429485, 0x1ba4f74d7dbf44f9],
    [0x2ab0a92f0f59e813, 0x4f84f09cd47cedf0, 0x3ef13835a3601f6c, 0x2bd393ac0c6602f6],
    [0x419255dbc0a3456d, 0x5c353659385ea10a, 0xa7a999d033801082, 0x132cd8a625910f7f],
    [0xe635067ac6924754, 0xd5493a1e319dc942, 0x3a7ac2dfe21c16a9, 0x2bc9e5ad597c8f77],
    [0x2a526366b7affcbc, 0x32115782cea08bb8, 0x77f255d44aea3d11, 0x21af2adf48b95cc6],
    [0x1b3f4f9c13b890cd, 0x8e258d3defa44fec, 0x3362aa1b88ea1777, 0x1baa899af3a60f88],
    [0x220e30209f83d976, 0x363c519ef6a16484, 0x18b41d3cb7084270, 0x1083673f89cf1ffe],
    [0x535d72a60611f271, 0x3cb01ea7e7d8dcc, 0x2ec9e91b1a4af887, 0x5a5be7182497c5c],
    [0x3867a6378181088a, 0x11eb1771d961b6b3, 0x87f70b60ac0d64f3, 0xff6f076a63edf8d],
    [0x818462804b0aad37, 0xebe56a1e3f6cfec, 0x5e5289d8d32a3ab2, 0xab810f3e1dce08d],
    [0xb6201c18e1b56dfe, 0xe00e59b571dd9d46, 0xd95b310dec2b54e0, 0x4523bf1a8f284c6],
    [0xa4437607b9aab74, 0x1c1a67fc8edb682b, 0xb4b4158479da0b01, 0x36339f709425b44],
    [0x72504149481dc8da, 0x58b8a2dc24acb8f0, 0x4b20e59243b4e51, 0x25f49340da537004],
    [0xa74d883939d620b2, 0x7c8fc96f149c0dc4, 0xd8323ec8d743947a, 0x14b076d2ce8f4cb8],
    [0xd17b07ddce7df8f9, 0x146ee182a155e175, 0x8ddb9886b5b9d23f, 0x4a6fdd5c0616826],
    [0x5fb8f63f7a4722ac, 0xcd0936eca7e35ab, 0xc7895e3c2c06466e, 0x8868cbb867db89d],
    [0x3c088c628d8fe61d, 0x480021097c2f8d71, 0x7911b94bb9a0256f, 0x13639b2e24f94187],
    [0xaf3a4fcc5b8a6b5e, 0xd9144c18def2fb87, 0xf66185b6ba5700ab, 0x2487694daea37ed9],
    [0x664bf4938f723352, 0x17a113c73c137dc6, 0xf6cd17e9bab4cbbc, 0x62db9b179c1677b],
    [0xad0e89ee43f48fde, 0xffde5b709d6092a, 0xaca382402a1034b2, 0x25d7d897d92a0faf],
    [0x6e057257b25adcc8, 0xb2a2dc7c4b30233f, 0xb62094e1ca2aa65c, 0xbc883b75255e0e7],
    [0x6d87be8e08eccf31, 0xd286585d6e9c172b, 0x8655260991d4f28, 0x1e902b42eb37ffe1],
    [0x1ab03dd5f1c40ebb, 0x58eb3d8fc841bc7e, 0xd8e99a292e24bc18, 0x41a3b254a2c8446],
    [0xd5f825f158feefff, 0x26bc76c0e8ff4caa, 0xb8e87d116b27d896, 0x21f4b9d60cc5ec13],
    [0xcfe1451a86f4b258, 0x3cfd557d218cca9c, 0xb7cb066201cb3320, 0x246be41807bdfd90],
    [0x92882ede9fdccf3c, 0x79c30c279777ed9, 0x11b6d9b36080dafe, 0x13760f834ed0e522],
    [0x476a3c9740e1ada8, 0xafe2cd26e0a2d7b6, 0xc465b22fb0520ac1, 0x24e75fe9b1f75436],
    [0x3372cd665b1f319b, 0xeb268844761f6747, 0x5fd270b8303f7bf9, 0x210a9a4b2b1e03dd],
    [0x1ff8019ca6c09bed, 0xf004f61aef46767, 0x7b6651162bda9062, 0x133c572bc84ed9a7],
    [0xf1fe9b0c09394eac, 0xb9d3338d45503f21, 0x94e93bb2b89889d0, 0x1bc35641ed2b845a],
    [0x302a5119750daebd, 0xd696a0b73560afd9, 0xcb1d5f11c0abf418, 0x1ee1cb63ff99f240],
    [0x437278f8c3386222, 0x9556774b1e921d1a, 0x37edcfc1ef54894d, 0x25e5840c2abad4b9],
    [0x7cb4070275c91384, 0x19af27b77d7e1cf0, 0xa86b769785cfa6d9, 0x137cac7ea18f1785],
    [0xcca3c305a1836794, 0x996ffc55dde4b823, 0xa89166be880e1021, 0x2e39652c251cb2e6],
];

/// Part 1 of the sparse partial-round rows for width 15, as little-endian limbs.
pub const S_DATA_1: [[u64; 4]; 256] = [
    [0x324bd63960c6995b, 0x412a4985d79feef0, 0x824551c1948911a0, 0x3ec58cafe270aa7],
    [0x161e0f4bfb430ef4, 0x59375d12f857b5b8, 0x81442b2c2a6fb3ae, 0x293b947e1e6860bd],
    [0x19662edc067a1290, 0xaeb0480d214fafd0, 0x1e1910bb7eee349e, 0x2727bae7d504f218],
    [0xb5b49a36051f77b1, 0xb6cdf5859a5e2e1b, 0xfc1505e59c4c28ff, 0x1be2f1a5593378d6],
    [0x9fbdd26670d4b007, 0xe84544b84a57b1f0, 0x411c1f8dd4f2553a, 0xb1e3d4a0d6e3bdd],
    [0xb6201c18e1b56dfe, 0xe00e59b571dd9d46, 0xd95b310dec2b54e0, 0x4523bf1a8f284c6],
    [0xed3cbebecaacac44, 0xf438bf84d3715a0b, 0xa66b13631030982b, 0x1f1099181737a09],
    [0x74f584edfeb2416b, 0xba1cc983c94a3d50, 0xfc08a2c6cbc7787a, 0x249a7a0b3a015a04],
    [0x11106f03eb3a297d, 0x1fb2be8c204834b0, 0x36b56fb5acdd2ac5, 0x237bace2c06976c5],
    [0xd622e364a6be6c1a, 0x88e6af24878f21fa, 0xb0a0fa7f32c69cca, 0x20d83c51cb9e2a1f],
    [0xbfedf7a9f17ed09d, 0x4a10c347b12ac1fc, 0x99d19e6a6d8f0aad, 0xe65df5618a774c8],
    [0x9b5872eee7821e54, 0x543846fe6fb14727, 0xa53bbedaca317fb7, 0x16ab51042d2c056d],
    [0xe03a1c0ce31c629a, 0x32fb795631c6be29, 0xdf02f5feb01f2b6e, 0x2e2d8b570da9329b],
    [0xbc2b48d237c82e78, 0x4cf518ff43725796, 0xb2d0ca1fd09039bc, 0x24d1fd499e7bb80c],
    [0x783a6d5f63689392, 0x637bc3d4ded1e046, 0xe57cbb355217ecb8, 0x6a96b7d99b2b7a6],
    [0x4a494a6a97273239, 0x4e4833b0b80a8643, 0xd99a6f144d8635ee, 0x19a143f1c5ff5191],
    [0xc3e533b3baa0c674, 0xd5eea3cb8a70ab4b, 0x8785f94c5c2f18dd, 0xd4e60cac8694ce1],
    [0x9252042d516b8f0c, 0x167f30e644e5411f, 0xdea387e5bb1bb16a, 0x3062c4cdaf43e790],
    [0x1b61a6d7090faed9, 0x169456c2027b34ac, 0xbc9491836aa9c1fc, 0x1b378a25d0cd861f],
    [0x5a7eea4af1cc7d30, 0xdf379711208deaa6, 0x33b42718b6a48429, 0x21cc1b4f8732b2a7],
    [0x8ac487343d707792, 0xb3b89e4c0aceff13, 0x73ee1a8f50768702, 0x2115e1786ec90fa3],
    [0x63624d00a686a39a, 0xc0b714c1de34b760, 0x92ee1f80d7e271d3, 0x15ce8b9c8e950b12],
    [0x997ecf8ab3b0d156, 0x99f8b2297876d84d, 0x8ee32e9da420bd63, 0x1d0e917e058eb6cb],
    [0x431d00f128bd6349, 0xa43033968696e954, 0xc0c63513a6c3fb04, 0x24d9b1d31cd6eb19],
    [0x4471f585508f0d9b, 0x2713052e2a4935d6, 0xacc58fd37cac50bf, 0x1e4dae551bca600d],
    [0x62610ac859735df, 0xde1598c11a681412, 0x8c3494595863dee3, 0x11b1cc629721ced4],
    [0xd7230b6e4a1c80dc, 0x368f406857478f18, 0xdf512752c7165e, 0x26ef5031ab96b02b],
    [0x15b3b970fbac6e62, 0x4354a73bba6813c4, 0x18ca9d4777d79b9c, 0xd83775fafda7957],
    [0x64b97fb97c8d3143, 0xb0479dd9c1c081fa, 0x4db0dff89911987a, 0x20be2cd9b7d6dabd],
    [0xfab9fe69e23149d2, 0xe152e3118fd09368, 0x5bd9e05f4bae4a68, 0x255bcd5c215aa3bb],
    [0x206dd5a122a917f8, 0x7b7fe718451e3a5c, 0xa86d0e3e034bbaf2, 0x1947d75ae45108e7],
    [0xfb3bfb05df96d89e, 0x8cf15c4224bbd13a, 0x7171424fc4f47ba8, 0x17af7f16f78c7b51],
    [0xf8d3178e753c5c4, 0x59070f105255e7d6, 0xd30bcdcec9b05d1c, 0xf736ed6532f0b90],
    [0xc74e7a82084bc788, 0x5f27defce0f08a9b, 0xc4d8f00ff69c45ea, 0x223efe61713a8d50],
    [0xb6201c18e1b56dfe, 0xe00e59b571dd9d46, 0xd95b310dec2b54e0, 0x4523bf1a8f284c6],
    [0x9d7279a135ce710d, 0x35a787f86d375b01, 0xd43bcb4aae2038de, 0x13a0d52fa98cce5c],
    [0x2dd8b90466bb57c8, 0x227dfb72422e8907, 0x50f10f293fc2d393, 0x57d3beb3548cc76],
    [0x5c76a474998afb79, 0x233bef0eeb627689, 0x163780a18df2e7f0, 0x1a6533a65e764adb],
    [0xc5f4b7edceb06a79, 0x397544c0dbed7199, 0xf433ed6ec0bbe2e7, 0x1913a71c0e6f8c87],
    [0x1b09e10a2b740c17, 0xd740398f8cc9165a, 0x40ee9871ad7107c0, 0x2266891fa5e56d02],
    [0x2340853022128fd0, 0xea0a8fc142b4822d, 0xd5e934d9852bcee7, 0xf5652567afe30f4],
    [0x47ffee7ff4e8bb61, 0xbd8bc8c0fce08e20, 0x713c18b57ab2997a, 0x5bbf0f89f5ae6f5],
    [0x52c4259091046d42, 0xfe5aa8ec1fe610e9, 0xb6779957d56f9ab, 0x1a7bcce0d63b58],
    [0xde91ebe40cad9dbb, 0xf6c7750f338ac0fc, 0x70c7fc1706cd95b8, 0x2b775827170698c3],
    [0x20672d59e985526e, 0xc3e0652197852728, 0x80373eeafecd7a4e, 0x1b9c97f57c84b5f7],
    [0xcdce2731cbea3e95, 0xeecd06c4e4a157ab, 0x8f1361c6acba6d73, 0x1c89b9708064d855],
    [0xe8756bdf30e7f222, 0xdeb748843b19d0cd, 0xed2de7d74e16f58e, 0x9a22dd01ccbf3e6],
    [0x1a5dd00ab0e6018e, 0x489afa4673c61f09, 0xd4f5b5e07cfb42c2, 0x2678274dec9c2180],
    [0xf72cbfee446aa148, 0x64ef9b31a6c8be59, 0x4b9fa5d1fab35761, 0x1400af0c777fd993],
    [0xfe6422aae8d68cc8, 0x403df00154b1d275, 0xd7c78fd8110e715, 0x2bb2d320c6f15fc8],
    [0xbdb44f686052300b, 0x726e17d660b2a726, 0xbe3512cec8d4c210, 0x912b48b8c530838],
    [0x695c6e91d60529c7, 0xbfca33c05fa1acdc, 0xb03b6b472dbe1813, 0xfce537edac05ca8],
    [0xf8c12066a49c19e8, 0x997237e78cbd7ecd, 0x691160e4381ccfa8, 0x1be4e4888a092ed1],
    [0xa71cc61ccd6c5b90, 0xe23680287d8c3587, 0x14ee284102ac2ac5, 0x28bd303aebbdad8a],
    [0x83be54c69f8a85f7, 0x30112675a2655ab1, 0x1c24f4e7598c5f5b, 0x110b79c0bf8f5288],
    [0x45d59c1685ccf272, 0x776b47b85d143e1f, 0x233dce3470269203, 0x2d17b110312b5b8d],
    [0x4c29ea7a07cdf320, 0xce8c8084f4c81684, 0xd749b401df1e7948, 0xdff609373bc4ee],
    [0xff1ec7f7764304e6, 0xd1d08615de63a5c2, 0xb60ff1364308b6d6, 0x21445547b6584627],
    [0xb1332c7cedad0d30, 0xe54a2ba74f3551dd, 0x93699f24a0287e2b, 0x1ad2606e38777095],
    [0x72ffac057b67d7fa, 0xffdeaf9abedfdbac, 0xa7bd5c351c1cab9a, 0x10c695276f9d6578],
    [0x16125a71cb06b838, 0xa87fc7e94ee23f5a, 0x165b8a16f64ab9ba, 0x100f820a8faa0bc1],
    [0x4fe0431ec15a57e7, 0x9b616f2913b7403a, 0xcdf14fa9ff38b261, 0x7bf7f1faf360f65],
    [0x77cf962a3cf73dad, 0x6bf3a061d087ad64, 0x15dbd3e1c548e564, 0x7b95e787e34c762],
    [0xb6201c18e1b56dfe, 0xe00e59b571dd9d46, 0xd95b310dec2b54e0, 0x4523bf1a8f284c6],
    [0xd6a317b01177affb, 0xa5122081a7744f6, 0xc9043913c6b866c2, 0x2ec7afda93383730],
    [0x3f67f01336915d35, 0x113a09bbf3527f60, 0xaab1064254c70fd4, 0xeceed2a6602d291],
    [0x991f14db1ab5b345, 0x46b7d69fac63b80c, 0xb2bcdd057a56680d, 0x284b37b2fd2c4ddb],
    [0x2c00eaa1a4231804, 0x730ea0c8aee88f9e, 0x4f12ffb5fcc87bf6, 0x10ddbb4173b04010],
    [0x8f02354355eb0c74, 0x1266fc92231375e7, 0xc96017e8c43bb528, 0xb87d2c0dab9ff1e],
    [0xaaf36fe91b4c910, 0x3b8756f8797c0c96, 0x1652f9a27f8d6c22, 0x255c350cb26d49d4],
    [0x7b35b5434329ce24, 0xff5cdc0bbb9ba056, 0xd67c0b061f4ecb9c, 0x2ffb78c0bea2534],
    [0x72d8adbad367ac92, 0x9cf1f4dc73b38e3a, 0x2f7183d67c969ce6, 0x16aec970d0f171ac],
    [0x437b65f97fec81b4, 0x9ae87255fcdbb98c, 0x43dfb7946c80f5fa, 0x2e74c92c412e2d69],
    [0x2b3fb9baa750fe6, 0xed046d555dddbaeb, 0xf6725c95bb9428bb, 0xbdb1fbc8b81f57c],
    [0x7e6d7aa9c72cb65a, 0x54a45b54ae80fa0c, 0x23de42271ca102d5, 0x7bf15085936894c],
    [0x7ffad30f833eae36, 0xbde8d7da9ad5e5e2, 0x43f50a6571caeee8, 0x12e18b956f687e1c],
    [0xd28dacfeecf5c84, 0x1c46555ff084f24a, 0x788e5215997b7776, 0x2c45b659cd395880],
    [0xddf04e8ea8ba902b, 0x9489995e8baac233, 0x5c7c354947020efa, 0x2805d6c3bf0de9aa],
    [0xa3e1ac8aa6cb199b, 0xec28d256f65047d4, 0x9ecc0435f0d77a7c, 0x18187c330b42dbf8],
    [0x12e715afff115d4f, 0x41655c11b8babc8f, 0xcb7ec61554888366, 0x2fef8da38b7959ea],
    [0x370cec217c601ae8, 0x2b69d07a496b6b7b, 0x78bb97d51eb1f296, 0x88011673864ca67],
    [0xee661b411613438f, 0x81a3a0acba7113eb, 0xb6b6c89e176a5a4f, 0xf6e83f3c55d5fb8],
    [0xe70e7fe5ecfebcc, 0xe8be205c1460699f, 0x7f59da156d934313, 0x2d59be2aec0efbc6],
    [0x1c8b1ac23a24f6c4, 0x2b40afc7155bcb0f, 0x2d9ca1beea6d9cf2, 0x2aa0544263e125a8],
    [0x530403fcd9b12221, 0xc7bd6598d78bb8f3, 0x74d4180ffdc30e8a, 0x7e3a92c9ebc149a],
    [0xe4e550582d1ea13a, 0x60041b2c96b8f7e1, 0x506954039093e66e, 0x1827bf9f11d4061c],
    [0x9b17c91b9bab8280, 0x1ec708269b37f4e2, 0xecc64de8647e833b, 0x2e147c8ee46a45f0],
    [0x416026bb1a65b8fe, 0x541a369691622934, 0xa7cdc53dc55f0a15, 0x3117f4c71dc298e],
    [0x97f0232e523f4cb3, 0x3c8f32419b2ece3a, 0xb544de5c0aca3875, 0x122fefefa669bf51],
    [0xb29a8add15354d97, 0x9883bb54edba0854, 0x9b88f142f9cdff12, 0x18e8e58431e6dd22],
    [0xbb08d355b87afa29, 0x715accb3e527bb66, 0x3b12781839f3edfa, 0x12e0b4787edc9f9d],
    [0x336554389d452c2d, 0xbf0bb2ecb21a2886, 0x227adbf0c44fdd3a, 0x2489282bdb046d49],
    [0xb6201c18e1b56dfe, 0xe00e59b571dd9d46, 0xd95b310dec2b54e0, 0x4523bf1a8f284c6],
    [0xa4ff19bbacf7e9bb, 0x96bfa3b546362103, 0x5f1d37e25ba7d065, 0x1e2fa77b090a5c2e],
    [0x7919d966a1b87ce8, 0xad2650b1433b55b0, 0xa3cd6ee80478788d, 0x162a1276d397eea],
    [0xfbf047732eb114fc, 0xa4c04c19ad847c53, 0x8dd405a0e6a94735, 0x26eb2facb83a5a9],
    [0x141641bba04f3675, 0x16a0c45512e31f86, 0x739db9bd69ffbfc4, 0x2b7496ef4e35f11f],
    [0x171143a91e48f091, 0xa3edc3c54f8ae682, 0x5b76d17b3f2bc3d6, 0x26792a375f1ca231],
    [0xf5406b05985e7769, 0xf8fe7634d66c9477, 0x7acb59a579846525, 0xbff276591776a99],
    [0x4a1a0d0713681866, 0x561458f8f6b6534c, 0xc87e554c98052eba, 0x20e9af0c21b5cad7],
    [0x49edea4b9fb4ca7, 0x267423ce2d242c93, 0x3a4f29cdb58c7e4f, 0x1f5e270d7be396c1],
    [0x3b67030922b5a757, 0x68a54c8493c401a, 0x71e59d175c3c3a0f, 0x26ff7c1cf25310bd],
    [0x3f1a5e934636e59e, 0x685ce377132b625b, 0xa855465cdd5b807f, 0x1276fdeb195702a6],
    [0xf2f9ce3f2b883491, 0xdb7cde0f10c9031f, 0xaa0ef2fb229cda32, 0xfb72a4d993f139b],
    [0x2261a8a1986aac6c, 0x59f2d39291654c08, 0xcbfd9d2b419836e8, 0x15a52948bb2ee184],
    [0xf03c9b800dd8bec2, 0xa3fa0e42cb32ea4f, 0x9a80769db1359ea4, 0x1a9d4106f5a30c45],
    [0x7dac3410d6a7b5d8, 0xc8e9a51b516f09df, 0x29ce06d877703ee0, 0x1d9250e3e49f0b58],
    [0x6d1928e358bd243d, 0xa2626b71e97dbc6, 0x64888df207397be1, 0x2524fab526c690d2],
    [0x123e1556e975d30e, 0xdcbd3adac2b1301f, 0xd30b4a9712a99ed, 0x508f820d3a3cb5e],
    [0x354eebb224dc449a, 0xc3996df77e0c100d, 0xa22938cf1065e3a, 0x2ef65d57e70b07fd],
    [0xf19e40b2dedd49fb, 0x74b998ae18e99efd, 0x31afa5334e603744, 0x26b914f529af1a7e],
    [0x280a1bb2842d8488, 0x10eee76681f25c51, 0x3962e00fa5a6115c, 0x155837584dbdbc2],
    [0xe4d5dd6dded8da6, 0xb39a1dddccb0eae7, 0x7b77fd83af70b53c, 0x222e724b780a4637],
    [0xaed4b463b7f02790, 0x7fe8943d894ddd74, 0x175ad1e75a8ad0b2, 0xd050bd15578fe41],
    [0x8481ab535907d46, 0xa00a9f63d35f4ecb, 0x2fa6fdcb67fa63d1, 0x5c5f00321782b3d],
    [0x8645c96f1731f098, 0xe34553f94d6b899e, 0xe15836e8f91d7fbd, 0x207a0c370129f953],
    [0x9bee069150d27fd2, 0xbe9b9b55ea8815d1, 0xb86f3bac9e8a8e56, 0xf875acc749b0abf],
    [0x4d440dfddc0b1fa, 0x97447553f924d6c2, 0x1fddef341631e16a, 0x38a70dd16819673],
    [0xe2be2e38fc6486a8, 0xa1171ad07586bd6d, 0x414156fc640e8a51, 0x1502b8a3411c7391],
    [0xda98e16953c2b7f6, 0x151c4dd0a92d671c, 0x38e16c96dac3b58d, 0x7984908f8931b9],
    [0x4bc445c4260c551e, 0x5de03924ccb0331d, 0x69427b3457bbed26, 0x694d96a531fe9e3],
    [0xb6201c18e1b56dfe, 0xe00e59b571dd9d46, 0xd95b310dec2b54e0, 0x4523bf1a8f284c6],
    [0x239f60df816d7519, 0x6959f1b0d8cf438b, 0xa8540cc83c477063, 0x17efc478730ddf82],
    [0x876b7bfc1216df7c, 0xdced70fab47b0de7, 0xef9caef0773f3fdb, 0x6d6d06423d66562],
    [0xc9190ffe3f0018d7, 0x5a8a010272c1bff8, 0x7394c6039339cd46, 0xc750b14cdfdecf],
    [0x7c965ef9fc1c07ea, 0x81437c653ce647bb, 0x68db8c9ed7e68cd4, 0x15000d48d85c719b],
    [0x46429100e01f94df, 0x798666bc14c13dec, 0x8957288dca6a567b, 0x1b18af3d53da2019],
    [0x42ed2d46bdec04d2, 0xf6257ce0017488b, 0x79c6fdaf38def1b9, 0x16e129dc67d5c08c],
    [0x21a7b4d3c84e574c, 0xac90cf1ed314b37d, 0x3523e756e8be1e0f, 0x1c958e9abba1ec3],
    [0x1b1008d321a4c7c0, 0x95146b527ea42d9f, 0x36db729d214a2b69, 0xa4487b4c046d0e8],
    [0xb3c3a65c15fa21c4, 0xaf13476c86b6c6a, 0x2e58c94204e28538, 0x169b2c93aceb118],
    [0xf88269b0eea4d28b, 0x7d0d825e236b725e, 0xeddead0572838c23, 0x797bc2c0b8e08a4],
    [0x5faffac69478b6f8, 0x9e7c5cd8c8b9930b, 0xee6914c03f347b9d, 0x2179889dc88d5096],
    [0x261575653bcc89ee, 0xc8e9c1b55a2a10f4, 0x2a83b8940d79e8e1, 0x1057d99f4e9409dc],
    [0x3ea36f950c0f6342, 0x62db2a94f94a8e76, 0x6b0b0996b3da6d25, 0x168c49e73137bd00],
    [0xcfcb99c951165ff5, 0xc82344701d29b12b, 0x347721e31544dfa, 0x588b7dc72c564a7],
    [0x4182d48386d19001, 0x1f602f45b8fe4249, 0x3d58a970764a1bb5, 0x30052c56471167c8],
    [0x62303a2a2286af92, 0xe82ac7ecc25ce913, 0x8bd9f50b700e107, 0x284487bda08c8fb3],
    [0x7d7cc8358e43dcb2, 0x34345451b230d4e2, 0x9259bfa882fe3a1a, 0x2e1e79d879db7beb],
    [0xebca2346c54590da, 0x160bc7ec218f7aa5, 0xab1a64d8fa09af3a, 0x1fdae630269a40c8],
    [0xe2e13abcb025c83d, 0xcf489a6d2bcc0ea1, 0x8b2a093524361dbc, 0x1d6caaddfaa7d7f9],
    [0xedb5101739294534, 0x35eee69801dcd879, 0x5b2fd8c7e1e98013, 0x5c7c0b2bea90e98],
    [0x49c42abecd607dc7, 0x885054a28dc85c66, 0xa8fef48dc9de7a50, 0xee54de6bffe8629],
    [0x79d561b346aa9e63, 0x79fee1607b2a1ed2, 0x15a7dab825f873ca, 0x93c826c2837f20a],
    [0xc87b8ea6867341, 0xb4b6eace676e2f67, 0x256ac9ecba8768fe, 0x21c75ffc19ad7b92],
    [0x4d4e6abe61879023, 0xa30d8c342d4ee53e, 0x1557f139ba7305, 0x2dec2f08ab0884ac],
    [0xa5f352996c0150a4, 0x61ff60a4df948847, 0x1cba045f5c0ff9cd, 0x12612b1a8d7ce43e],
    [0x522be2beb644dc8a, 0x42f43be8ce046bb4, 0xda54a5e78a4d470, 0xd0bfc972a52fd76],
    [0xc22381009c08298e, 0xf39e962cf2776588, 0x16d08e24fda303a3, 0x1bce51a4e5013093],
    [0x7443cbdb76d30814, 0xb9e8042ca87435a4, 0x515bdee389f08a4c, 0x19e6822defe86285],
    [0xb6201c18e1b56dfe, 0xe00e59b571dd9d46, 0xd95b310dec2b54e0, 0x4523bf1a8f284c6],
    [0xeb3325097c35d2ae, 0x77845d8bdd66420b, 0x31d4a8b56506fbff, 0x2e931e74616f42a1],
    [0x4488e144f8699673, 0xb3ea73f041042442, 0xe9ff46727444ac95, 0x12cb5dfc2abb8252],
    [0xf4531058b6f52f21, 0x9ddbcc3aa385804a, 0xab6468d8b5408347, 0xab23891e07d9b14],
    [0xcda083f436d85a5f, 0xdc9a47d6b0f134c, 0x3d1e889aa5962945, 0x76c297b77611e73],
    [0x759d1bd5c513cc8c, 0xe343bec5aab4aa67, 0x7a6c89f22ad332b7, 0xbeb7545c1a73b51],
    [0x2978d9e30a18fcc0, 0xbe874d81442d2314, 0x697120f25caaabd6, 0x4c7d041c29a50e],
    [0xdc1e8fb5011bef46, 0xf79b27754dc83dda, 0xdf22c2a4ebd2f41d, 0x564102c95e897c7],
    [0x65ef5421901a5a94, 0x68cc375ad8aade03, 0x99362c4b4b64a5ba, 0x2c05ce35ea49db36],
    [0xd5b28a599f37dcdc, 0xe19075d195f6fe6d, 0x54b1830de366e2c3, 0x1656b1dd63124d13],
    [0xf1dadf3ad05f6119, 0xc16fb9da2edb33c3, 0xab4b7be3c26ad57, 0x2507b36b6b8e2478],
    [0x318e6dcca5d6c32, 0xc6114e85478479b6, 0x2aef54cd15052c4b, 0x126e91f50c4a0029],
    [0x22170c92769905de, 0x4e5211cc27304241, 0x7a7005d4553ad341, 0x2f9ab42a46ccd83e],
    [0x1bab47a73ef3b303, 0xa06867a60d27d0b5, 0x6651dd441683325c, 0x25aeb979b8ba4e46],
    [0xfe64a06a70b2cb46, 0xbc09dbe373ee994c, 0xa6d7114a4554ed94, 0x1856e09404e55249],
    [0x22487ad732be85db, 0x73631ed91a612fb4, 0xeb7cda564eb72f76, 0xb6edf4c57e87dc5],
    [0x40fe472d972a0051, 0x8045fb30837baf00, 0x7272b2b8861c44f1, 0x2eeb7ac6201d76d],
    [0x216fb7456e344584, 0x2d935dc8e324467f, 0xc02b6bc24f1e45c4, 0x25e7df19e834ef4f],
    [0x703450a16ba7b35b, 0xa6f3cd2d2b600594, 0x5812867c85be048b, 0x22254c3bfc63bd57],
    [0x6dabf94b2a077531, 0x347c668ccc6f1fda, 0x6a08a3e8b056715e, 0x1f04d9141844aee5],
    [0x6f96bf9b3a525fc8, 0xd8b7dbeaba7da63f, 0x6d2df6e37422bf7e, 0xff41228c1c85b1f],
    [0x5a29972f6ee1b681, 0x4b6a6b215c0b862d, 0xd3b48d6996d85e28, 0x286cc1fd10f3b5e4],
    [0xbae6f1b13303a69c, 0xf048865f31b87ff6, 0x28e65d5aa1461ed1, 0x2cb3455b4afc6709],
    [0x11fc743e62a44dab, 0xc11b86ce8102dd38, 0xf7d185b3e8b3d759, 0x23dd832c9d5244d3],
    [0x31fdec881348eb90, 0xf4fda4a5c28cb7eb, 0xcb13344373cc1bb6, 0x128a2af0f0d1965f],
    [0x9f8dac7dd6696921, 0x7ecad172fc2a8cc8, 0x2151b60b7b676d15, 0x2b9f84c295307fd5],
    [0xbada3c0e516c48ba, 0x9862ed22f485b092, 0xcb8334cf6c7d65b6, 0x10a3da81ead6ed37],
    [0xf029a7b8c6875f8, 0x929fdc7ef27e482a, 0xe2cebc5d527a72ce, 0xd34d3d1a4e840d8],
    [0xfe87ee7ceeea8c04, 0xd189935cea5723cf, 0xa7ec80748ae9c1f5, 0x5a6ae7b5423c19a],
    [0xb6201c18e1b56dfe, 0xe00e59b571dd9d46, 0xd95b310dec2b54e0, 0x4523bf1a8f284c6],
    [0xc743eb600a936bf2, 0x693efe351787f006, 0x6aeda5f4a4dfff54, 0x1578614d9a296723],
    [0x46995d79028aeb09, 0xd6093d95dca55501, 0xf5c307dd65410ce6, 0x285c79334945bed5],
    [0xa59a8172a24fbc4e, 0xa12476186ebba60d, 0xa1e9c30bb4631861, 0x10b5fbbefe482164],
    [0x44993af476b78b98, 0x55edf97a1646107d, 0x20ff6e1adef1ade3, 0x1cdbb43b87d76d4],
    [0x6f864a85f7a81fe3, 0x1c2aca04fbdd5a11, 0xcc914f07598df3bb, 0x19733eab4c8e4779],
    [0x9e057825757a8ff4, 0x170c305d525e5b95, 0x4a2d51a027b63406, 0x3009eeefe893a6b0],
    [0xe53bea4bd24e6018, 0x88b4bf43da0ce566, 0x2342a0c0992a9b84, 0x2fe6c9de6a79e7bb],
    [0xfb6fe79a769b685c, 0x9ea054e3a159c4a3, 0xddab03db8ed7af9, 0x2d40f2520a5df3a8],
    [0xf7351cedd26408ce, 0x106de7393cda87a9, 0x8f679421e17152d6, 0x22340e058329ac54],
    [0x75ede239432cdb29, 0xb49bbed72fdf7246, 0x3ef02b3f62902f51, 0x5609d6cb0bc2a00],
    [0x1844dabc1c51cda, 0x89c2c90b91b3fff3, 0xa2ef5fd6b9157722, 0xa4481c88c41e347],
    [0x9e75a17264fa2898, 0x56063c5740a256c8, 0x4023ef6fea6ab0fc, 0x14ade810e267932c],
    [0x6ddd3261c2f8999f, 0xb5177e17af65c6f8, 0x35beeae8c1411bd1, 0x199252b794492b2d],
    [0xf69b6a0d2ee3f226, 0x201c18e3f774321c, 0x6712c1b5b86e1386, 0x1ef0142a7d35ea27],
    [0xff518222130aa2f3, 0x1de7251814a4666, 0xebe68731ff580f7c, 0x24cf18fdd7098067],
    [0x16a6c251ab62e5b0, 0x579df8f4223d8747, 0xe2e05051a05b60e0, 0x1087f37b188ac4a],
    [0x721df28fe9f18c61, 0xf0e4d8d7588ce691, 0x150239b71a4cda04, 0x1f0aeda37e4d1e81],
    [0x922c095d486778f7, 0x48fbed518e1317ad, 0x3ec800bf53d61000, 0x1184563ea49c2869],
    [0xd1761638c88a0593, 0x11c829e5cc88a709, 0x4e9cfd9e92cde90, 0x28bb14de4caa8db8],
    [0x5b9671f81639783e, 0xb84677a59c118b46, 0xecd18bdb15575356, 0x5e1f290e1cd58ef],
    [0x3cc976b4ce04fc11, 0x391df9f6d24180cb, 0xb02ca63dfa95a68e, 0x25f7a0d0ce8b40f8],
    [0xae10da23f61587ba, 0x44f83dc11781a106, 0x84c6f5b529a3d8f4, 0x480ccb16af84b21],
    [0x6f60fbb9959d4eed, 0xb18f1a822529d326, 0xde45d5c8516fa99d, 0x539296f5b7b7008],
    [0x8dfc7b9bba75769f, 0x6abc7b0be95eb89d, 0xbbadc168cd28c245, 0x1e424153fac06000],
    [0x9e0761ba32c60e01, 0xd619aa8a9b6f5259, 0x134329f330f819e8, 0x932c03c10fc912a],
    [0x818d554937473906, 0xf9fd56e16545cae0, 0xa72aa0a0c505dcf1, 0x1211f6c693e1d0de],
    [0x70d967da7ee65479, 0x373a0fd5e3e9ba44, 0x919908d77becca14, 0x423bc3cd7620b],
    [0xab591052123d04fc, 0x2e6fef1c001c8f55, 0xe47912132f0d6f1c, 0x2118cbee96964430],
    [0xb6201c18e1b56dfe, 0xe00e59b571dd9d46, 0xd95b310dec2b54e0, 0x4523bf1a8f284c6],
    [0x1eda3684f397a94, 0x6c3ddc9c532111de, 0x133ddb87fa54430c, 0x1f1e2374f0f17846],
    [0xd5f9d88676a75a7e, 0x8867ac976a3fae72, 0x81d8ab9f1b5c510c, 0x208b76b6732f2ed6],
    [0xc38e820426446820, 0x33df38495b91e5, 0xf42195a7691e73b9, 0x1fca7fa1aef782e5],
    [0xb5259339acca3353, 0xcc8bef7a11c33a61, 0xbf76430b18584795, 0x17f136e334658510],
    [0x1d89a60618da2320, 0x77c920bce4adb99d, 0x2aaf6ff4f1d57206, 0x2c03456c81a5e2e3],
    [0x93680dc336f5d34e, 0x38d51c6d9a57dee0, 0xfd72011c2d6de4c6, 0x1a5ed510e6e51803],
    [0xc66acd1148132029, 0x3d62a815680203ed, 0x71bce31f6fbd646a, 0x1a936bc6777c2da],
    [0x768c9b6f08eb260d, 0xf69e693a26623b6c, 0x3bf54dc94e9a1892, 0x1b4a61fadb468df5],
    [0xc4aba223a89f25f9, 0x6810db51fb07d2e1, 0xc9c1dec178dee22e, 0x22072ccc189a669f],
    [0x18f499c071f89430, 0x349f042e456fe5d5, 0xfb50c817284430e9, 0x1970d123b4ed8e8b],
    [0x29ef05acf962f9b4, 0x72e8ac0889f3d62d, 0xaa25e034c7261641, 0x259064221267af8b],
    [0x8544a467a9071ff3, 0xcf4151293041712c, 0x46b1a49861dd542f, 0x2287530ba760334e],
    [0x565b48035782aa66, 0x53793130aa0b8626, 0xa3eaad025fd47a63, 0x840062bb032fa90],
    [0xa89aa7b16d346c0a, 0x24d6d041bb781264, 0x30b7da0ecba98916, 0x1d555f3bbdd6465b],
    [0x2b0d7d87c283d763, 0x6fb14326aa5cbc9b, 0x3fe9c56850eb091e, 0x23d4f39d8b478d9f],
    [0xad0923d758cdb949, 0x652aea9b07702d07, 0xc3080c1a36cd9d70, 0x2901b8a58d07adf7],
    [0xcfa1421b5394605d, 0xd3509ed4d501be13, 0xb5f053107e3e769c, 0x2d5fd10271ad1b7f],
    [0x2b46b93c64cf9b83, 0x11fce738e5f485d, 0x62d760cc41cdb5be, 0x207c3b106d337e33],
    [0x71a9757bc7b42898, 0xd6613a602d44fee4, 0xc6635de3f6b7d9ee, 0x1492c0ecb1dbcfa1],
    [0xcbbb6b20b4ed3bea, 0x328dfb9ddf78e623, 0x16d04419514ff5ec, 0x1644d335356808c8],
    [0x1bc5825f164cbf4a, 0x687da94708f6e27d, 0xa002389d54c6efc4, 0x2fa67fff02c7d3c],
    [0xf4a1f31e8ace5464, 0x19bdaf250b832229, 0x6d688202433c40a4, 0x21e1ca08175564b2],
    [0xbed5742defb3bde7, 0xd26de54c4009f0cf, 0x8717a47931f3e7e5, 0x2cef2de85c29234f],
    [0x105733f0043efda3, 0x1b0edf857aa536ba, 0x85bb03708869626a, 0xf9101275c6d82c5],
    [0x82ddff6561efd49b, 0x92d1b9a842c36bfc, 0x462050c8f441e1ef, 0x13d2ac8ccf60c75],
    [0x9b51351c67943e5b, 0xec3e071391d03f9c, 0xbc2b423732eeebc1, 0x23a7cbaee856630a],
    [0xac5202b5fd8d0f38, 0xe61921b93adf072, 0xf49ea526d8f25043, 0x2d3d1ee5d3afda1a],
    [0xa6a0efbbd6ef1f0f, 0x774e11e3f13120c7, 0x8ff8b91a36835ff0, 0x2c40a0792e0eec8a],
    [0xb6201c18e1b56dfe, 0xe00e59b571dd9d46, 0xd95b310dec2b54e0, 0x4523bf1a8f284c6],
    [0x3c39ed80919709db, 0xf1ef1e5f0dc1dfc8, 0x440cc92c82f19694, 0xce2acb8e9575bad],
    [0x8093a7ef55eb1d61, 0xd17626c5e5a84385, 0xe6c4bd3f61ed3b8b, 0x255e8b6bfcd73f20],
    [0x509df83345846c16, 0x88b996b47f0003c4, 0x9af3577f77567bf6, 0x71756e3a6845993],
    [0x849cfdf7ebcec41f, 0xfaccc7bb45dd5d6, 0xa6ac107b311307d2, 0xbffe3446589b3ee],
    [0x6fbba2cd628ca4b0, 0xfeb8f96edbc13848, 0x76b9b7344eed8e34, 0x18787bd666cffd2d],
    [0xe36b07690fa7c13c, 0x98bf6b2618fa97d7, 0x307d9dcfd5507b22, 0x24dd90cfbf38861e],
    [0x70a60c359be7abe, 0x44e3cad85b44d8b7, 0xd908b029552bfb5c, 0x1410db3d1ff17500],
    [0x355d8c8032efdea1, 0x78352eb593c0cf88, 0xb3962788dc0c5423, 0x114c5d80f6a4fac9],
    [0xb192d053d4d5c71, 0x9779c813807d8163, 0xfbc782b40c6ba096, 0x1faae4eaa27310ed],
    [0xf80d068524566422, 0x8df84ad042219111, 0x4961cfc839d6e821, 0x1c6a9217a08e3d6b],
    [0x89fc5f386f28b6fa, 0x2fef06ac2b58f88d, 0x1d988b3560faa03f, 0x2779a31633b41cf1],
    [0xc12ec22518ca42c6, 0xbb087ad39704e2aa, 0x8477f6c00854b9bb, 0x1fef33a133dc716d],
    [0x7b50fd3268175a65, 0x2c35af886b2a45cc, 0x2e647c9cf0f9642b, 0x51d3217b934abd0],
    [0x40500f479e052e17, 0x61744e0f4f8360df, 0x64a5a3aca1926bfb, 0x23e2976b87ebf7b],
    [0xfeb57d27eba7027d, 0xfec9b415769742b2, 0xac237c1cb82a138c, 0x266d4f55ce9e2183],
    [0xf67cd58bada0d5, 0xe01adf533a42b512, 0xf74092c809db76c, 0x220ed82038edb07e],
    [0x6766e34ee44500e7, 0xbc6766b37d057206, 0xac96c21ec1fe7bf0, 0x1739b7715b95db81],
    [0xbd7b25ba6bb603cf, 0x8c633d4086a0320f, 0xe4b200aea12cc8b8, 0x270da5e7651be197],
];

/// Part 2 of the sparse partial-round rows for width 15, as little-endian limbs.
pub const S_DATA_2: [[u64; 4]; 256] = [
    [0x873ea0b3447d6f5a, 0x1eb39c35eae012aa, 0x6bb5c0a24f49967f, 0x6f6db411a03949e],
    [0xd273ddaae5c59cbe, 0x8741c3ba51c0d717, 0x341c01e65590f4b3, 0x117a292cd83ceb0d],
    [0x6ab849074386f863, 0xb47ee5d7f070ed5a, 0x16c2130b9cea9b74, 0x263e482df03f958b],
    [0xf6384476b29265cb, 0xfc5490d1d74609cb, 0xe9306a32a90b58cb, 0x2803f7d7e3cbdf5b],
    [0x29cc9b316fcea3c8, 0xf157d64e792a38ee, 0xe905b8420ed32d6f, 0x142c7e2c2e91322d],
    [0x699bf4732c13323d, 0x289434d5d0af4772, 0x14acc1080d935f9c, 0x147d7bfb2d888397],
    [0xcdd1fd4fe7b95583, 0x5794d7a2607d5f3c, 0x82a60c960800094d, 0x24bdce338ee348af],
    [0x92d4a065121c25e2, 0x83848beb7de73e0e, 0x52e6ed0c4e14dc12, 0x10a0a7c38506d41a],
    [0x9b54d9e2206c892d, 0x31b046f846c46a31, 0x21e10a4eaed36ac3, 0x2f5162740cafbc5f],
    [0x6c5142747a0bc6b0, 0x8e0f7c1aa845979b, 0x5d985bf78b1e8983, 0x2c74369be037f8a],
    [0xb6201c18e1b56dfe, 0xe00e59b571dd9d46, 0xd95b310dec2b54e0, 0x4523bf1a8f284c6],
    [0xd1196eee812c8e69, 0xba761e0b09803f10, 0xd4ded32ed3b70d34, 0x28580a3d76cb8ac7],
    [0xc878a17320f4b2dc, 0x20bd3f7d1ab07ffa, 0xa59a44d02e83f881, 0x19cf15cc84de7c87],
    [0x3d8da6e028263594, 0x7fc37c75b46f85ff, 0x477d2b03bfb4c4f5, 0x21ffb716f9f4688f],
    [0xe8f52a7b62c81346, 0xecaeac6dfb26d143, 0x4663b5612d00e002, 0x1c5e5652ee5c51f7],
    [0xa1895229eff54a7a, 0xd6591a5c8cedf965, 0x9868e691afcd53fd, 0x309be74d7ea79ab],
    [0xca90f3edae8e319c, 0x63ba990d5bc5577a, 0x44a62b4a3d7e1b09, 0x8533bd365bcfcca],
    [0xd39738a016e11728, 0xb5b9a3022e640476, 0x22651fbdea1e01e7, 0xe7b927fe75b3e33],
    [0x94ca9c6bae1e980d, 0x3978eaec9d8c99a4, 0x2efa9d217fefb100, 0x2c044e77e1889c9f],
    [0xc714c8165737d172, 0xa2f9fe8fafccd65b, 0xc13eeb8a6baee797, 0x16ca28c9c6815d47],
    [0xb7b3b47160925666, 0x7755a1aac408008a, 0x58ef6974b6f612c3, 0x10e2a1c88ffa4f4f],
    [0xd5709fdef7977301, 0xba27adc10a144920, 0x795d78d34a4d4bfb, 0x2af08e42bfe36b6a],
    [0x8a992074c0fdc257, 0xb42b2b0d944ce730, 0x7154c3a110803222, 0x1312b9ac40cedcdc],
    [0x569eacf726f4ed27, 0x7d47be4def03fd1b, 0x913226bb4e43d43c, 0x1dc24b75a241225e],
    [0x6b07d8e15509d882, 0x490e1b014ede6b77, 0x2ec423e367bed051, 0x13d3a4fe3528fbe4],
    [0xb5e11a6bd2a24d03, 0xc1dcfd3ab649b39c, 0xfbd788f3f63ee8fd, 0x32d8f0cf21c697f],
    [0x435cf0b5fbe69ff0, 0xa51a4671568fcb05, 0x7a133b2fb5502ee9, 0x28c7587692973d40],
    [0x8bd3eaac1dc0538b, 0xaa49f01a7d705685, 0x8a7f8cafdbed2021, 0x28e40378256e3cbd],
    [0xa2d9a8abc986056a, 0x71ee93b361fc7237, 0xc39bf61f79e7af2d, 0x25d943e06d1e141c],
    [0xe8ed7021102f6443, 0x7a4293f485b483f9, 0xd5b845af2a97df8c, 0x17081444189ad527],
    [0xcf4cdc81e1e6da71, 0xb19b4de80d06b964, 0xd2ecdafb93faac1d, 0x1c79729fbddab541],
    [0xd717b58e500de857, 0x7712f4e95a84af9b, 0x5a5fa865895e4bb2, 0x45619b6eb27ecb5],
    [0xd37dd85ef65e3dc8, 0x7424ec54f39c8039, 0x36943df530d84e1, 0xe2a9db5bdf2e81d],
    [0x324103cd4116d6a, 0xde51e18ca81bc69c, 0x4498a1265db4d51a, 0x2ce50979f6944eb4],
    [0x1d2275326fe032a3, 0xe5ab83aca3057ad2, 0xb955ddb3ca44d5cd, 0x2a77de1a9d04ffe3],
    [0x8a84f100798d4ecf, 0x7079d7904d5d0282, 0xff2cb6b1386494c6, 0x17cc644fba9e3aa9],
    [0x5a3d47b231dff70a, 0xc9d14cf32b187311, 0xef0342d728926ae7, 0x231b0e5dffe1731e],
    [0xfe4bdc36a2c3dc35, 0x2f47891c5b0e6d74, 0xe4e00d824d5007a0, 0x2975aca67d081b04],
    [0x4b97bad4aec1a8d7, 0xce09615152380a1, 0x3aa3c6e434c14e5, 0x12dfba0cbb1703dd],
    [0xb6201c18e1b56dfe, 0xe00e59b571dd9d46, 0xd95b310dec2b54e0, 0x4523bf1a8f284c6],
    [0xa889be7f81acc688, 0xfa60bbb5b8922f3f, 0xda526bbb6d9a7ad3, 0x138e38994513bf4c],
    [0x1ac14116bb96bed5, 0x783893e820340327, 0xf1fd4d3099a005b4, 0x233a737f744a6f8b],
    [0x1d97120547e5eeac, 0xea527eb312465a7d, 0xd11e2697f3f1d61a, 0x1c8af617088b03ed],
    [0x6d85c9636647b689, 0x3c8c0b7dfc781fe1, 0xcffcf8e6def73b24, 0x29e028abd359a281],
    [0x195043c1ef2a2911, 0xc917d2c79953fe6b, 0x3fc99fa24c0297c3, 0x11cebc3218317d6a],
    [0x31beb5bf3c2b1384, 0x1e7cff5f9af21a3, 0x96fd8d2f757fabff, 0xd9eff7d690ca6de],
    [0xf646d00519233ac7, 0x7a3080302df8f221, 0x4d591b58693d4886, 0x2c10ae179ec43614],
    [0xc543733fd41633a2, 0xbe7551bdf4c84114, 0x8a8374368ba7b0aa, 0x195340f99f3142d5],
    [0x94f8469ea2da5c31, 0x27c0215729043766, 0x3214142b6ac8750, 0x175a317578f26860],
    [0x4fa3850c4f80002d, 0xaccddd1252b0add8, 0x56069f60af49a1ed, 0x16ffe892781788c7],
    [0x2ad55500a9132673, 0x94a3dc6db449b27b, 0x8c70f7cdc9cbf6c4, 0x82ea1876cb38048],
    [0xac2938d661eeee13, 0x97541d07c9a2b26e, 0x973432ff45248a44, 0x1cac7d7d70279321],
    [0x48aed60049d00f71, 0x7190eb05c7daf289, 0x49da4930b6a82f6f, 0x8755249140b3367],
    [0x2dc2175e53cdd044, 0x8246579d29ba32be, 0xf8d068d0d2653779, 0x207de9d69726515a],
    [0x62c39a8a8df15829, 0xb48e7f4152105231, 0x5197a6503a005446, 0x1405eac8634a44a3],
    [0xc611c673d67d86f, 0x7528939d9e6714fe, 0xa3cbb02d3d534c89, 0x22f87c997cd1bd13],
    [0xca66489c86489299, 0x6224b64c187b36a7, 0xe5b20fdc9242fceb, 0x143d40dbf8cd786a],
    [0x94213e3134b7773d, 0x25f643518ef715e6, 0x1be3feb619b42761, 0x2fde0b770674587f],
    [0xca96c50b2d2dec4c, 0x8f9bec3498024257, 0xf0d14cacc486c0ba, 0x160ea6110b10e9e3],
    [0x567f13590a1ace6a, 0x2e40682185698f7f, 0x546d70d983bc3212, 0x15b8418dc1c46f3f],
    [0x57afbdf6bcdff00d, 0x94b9e9fc01b61b6, 0x8eca9be227274944, 0x20d9d10cbe767a53],
    [0x192ab343d4e8519a, 0x4a3dfb31a1772d99, 0x6d7f1c5cba983aee, 0x104952b13891c92a],
    [0xe92ed2bc2f67411e, 0x3de04e4385a8c810, 0x40dffbdc7b52e2ae, 0x107209e0e414a0e],
    [0x9f0d0b62b6eaf9c5, 0x8dc2462d876f1722, 0x4d8679abf776687b, 0x1bbff156637ba844],
    [0xbb677cb14fda83e4, 0x4c6b283a79ac0e01, 0x1af662496c1a4a5f, 0x61f0e30d8aeca23],
    [0xd650af7512e2386a, 0x669578314817ac28, 0x1471833d8e6b52f8, 0x3062b61d13e9c6d6],
    [0xbe08644da83e4aa0, 0xd9f3194221788493, 0x46f2d621ed100918, 0x156a1c93bb1bb19c],
    [0xd21672fabf65753, 0x5204400b52fc6b9c, 0x95ec40f53e9cc790, 0x1366584ccaadb9ef],
    [0xb6201c18e1b56dfe, 0xe00e59b571dd9d46, 0xd95b310dec2b54e0, 0x4523bf1a8f284c6],
    [0x31a333c8638cbcee, 0x7351aeb401f8c16c, 0x2948595634ffb74c, 0x727060f004a1268],
    [0xfbed64a83ef2ff93, 0xee196533aa8fea3e, 0xe5a5a3193bd458a6, 0xb43e5d620c5f01b],
    [0xffad823c11e60415, 0x346b4be3f9754508, 0xcb9ff97051a0f73f, 0x711911f15ad7134],
    [0x7b0e1dbfb311f9bd, 0x7d7047c895aec5d8, 0x81d12e70d751dbff, 0x62c118ab0b9ee4f],
    [0x5d5a85a6759ec37d, 0x471417e3df89be71, 0x61040b272d2ecf8d, 0x1edc90b1e2679d7b],
    [0x9c320675a4a31824, 0x9171c73f00a51888, 0xef6a745e786ce3b6, 0x2bd026a17123ff82],
    [0x3026d7e6f37711c, 0x3df705aefdc130e9, 0x42e4080075274209, 0x18b9a646b8279f32],
    [0xa5681cd3f415f3cf, 0x7140e4ad022a6e85, 0x5f4ca141b8674a25, 0x2b6d003cb1065308],
    [0x37911be83c4d7b51, 0x9a2682629abc6c2f, 0xfdec0008a3a1821b, 0x29ca967040bb4ef6],
    [0xf34586abd4341cc2, 0x2d867ad8df031759, 0x24bf281bbe3891d4, 0x29c5fe585036f56f],
    [0x518a5d5e1cd98fe8, 0xd2b7d815386613cf, 0xfc023d9f980e9117, 0x18250473c36c6b2],
    [0x818856b057d0b559, 0xe3ab45444ca614ad, 0x5ce370dbbff7a0f4, 0x21ecaed2c0849f44],
    [0xff0c8f498fcf7d, 0x827248a1f68fccd8, 0xd2194dcf45262069, 0x50f18bada3b7265],
    [0x2af53417d7758da7, 0x10ce7bbf7436a0f8, 0x403fcba81d1b25ed, 0x1056d0bf8e1c158a],
    [0xa067d3f7e199aec7, 0xfa629576c43c31c2, 0xfe50fe1c44e562a4, 0x10ec2167737c5bf2],
    [0x7ed26b3b6c05efec, 0x6b76a4507a432011, 0x7c71299f3f566751, 0x78d695069c5a1d3],
    [0x9afc62c8fc07dc72, 0x1e0f345bd012c03e, 0x411458a6c12a335a, 0x302b34000b8a4c5f],
    [0x413ba03500c56e7f, 0xf723e7a429eb23b8, 0x47336fb64a434e02, 0x25110107d94ba32e],
    [0x3bace86281f5fe6d, 0xa605c5b8e84021f, 0x7be7489e4a124087, 0x239c9ad23c9efd9a],
    [0xcc5a6e3f73455033, 0xc69d188602e732e5, 0x167804f59bf51324, 0xa71eb71ed1cfc23],
    [0xba391cc18bc0bc5d, 0x403416e437f063e1, 0x141cfdf5497ad73, 0x22f12028dd01cbb9],
    [0xb187724db31c953d, 0x84cb97abd94c70bd, 0x1841635c52eb7a74, 0x1d2ad4ea7240a2f7],
    [0xc576ba6a1376cf97, 0xf9b604242f029c4e, 0xca08a5538a64a06c, 0xafc6833626de473],
    [0xc4a1c9818bd4c197, 0x38f70e001773558f, 0x17cbb3ed8dfd608, 0x19e01b3ffd3d1c30],
    [0xdb88f7e079ca4d49, 0x190ec9fcf9d528b9, 0xdb20297cc63e2d0a, 0x26db05b80a904a64],
    [0x884e71037a5def72, 0x918ebcd2b5e25131, 0x859e524291676812, 0x2d8286dfebb09365],
    [0x29941293e5cc105d, 0xb355e8f9a8009aa, 0x1870aca73667ead, 0xf3c76d71a4221],
    [0xd057bab3a45eedca, 0x58baa1c3dc32a6ab, 0x329349d4bed6e06f, 0x2c7142225dd5a38f],
    [0xb6201c18e1b56dfe, 0xe00e59b571dd9d46, 0xd95b310dec2b54e0, 0x4523bf1a8f284c6],
    [0xd2c55c7dd293cf31, 0x56deae9d215cdec0, 0x7a3d588567117cd7, 0xd4830722141cace],
    [0x3667e4a2c7ce4912, 0x7a481153e7ec33bb, 0x61782845b349810b, 0x826bf62570b5a5f],
    [0xba2c1ae784ac3c66, 0x47b8fcbd5d40217c, 0x800edc2122007701, 0xb74da59928d6c22],
    [0x9022a7550864f1, 0x1d0b1d5095428572, 0xfead2ae4e463fed7, 0xf5da0d1390cf5d4],
    [0xa406624a99447c04, 0xd7ec951afeaff523, 0xa61ea377b1b78ed6, 0x2704d9998e1e17d5],
    [0xe1bfd3259e62df82, 0xd41d2f7d67445ecc, 0x43ab45b043adc967, 0x300f822aa4b956ea],
    [0x2dad4fe1b9f734e3, 0x4b37fd6a432b920e, 0xaf023d447bb90b63, 0x43f2876cf4a9b33],
    [0xb6bff3f13f88dbf0, 0x649939e376a4fd1b, 0xc046a07110e57fa8, 0x20d982fe655c37b7],
    [0xc5b44dffe2c138dc, 0x14d803c503ea5520, 0x4ca383630b4da902, 0x21d6cba8317dac26],
    [0xc90882cfc5dcaf2, 0xa0345ab963f65689, 0x47ad81b085693cfc, 0x873018963b40843],
    [0x5b79e5819fa8c9cd, 0x6b9fa7bc126b343, 0xb5b02f4e54d245f8, 0x1e6176f2c8c0e6ac],
    [0x799177b87b153f90, 0x4d7abf9152806b4c, 0xe0476ae546df3441, 0x21d440ca5e509e1a],
    [0x7267c0c9821bcf80, 0x51532cb1b55ff17e, 0xe948b0cad303f927, 0x85ac321a5407d7e],
    [0xe85defe38e2f14a, 0x8617e6b4ae76c1de, 0x5deba3688931a2bc, 0x225fc6208bc12aaa],
    [0x962fe57f534be98c, 0xd14b6ad7de89124c, 0xc7ea711789b76255, 0xaa6847f08b61d6f],
    [0xba6879d02cf400a6, 0x1cfc3cbbc534c016, 0xd7a9f555396d78f3, 0xbb3bf6dc922baf1],
    [0xb20644f3a6730b95, 0x9d70c24cce6ae452, 0xa222bbb99be1828f, 0x24118b406a39de6],
    [0x3aba55cb0bf1a7b7, 0xba29078b978e7f9a, 0x6a9ba388b05f1c14, 0x23f88043dcf501f0],
    [0xb5c0b366b451cda1, 0x1a835a8a052dbb19, 0xd9af53bbf57282d3, 0x1e9ff4d090215f88],
    [0x51b832385ddee404, 0x1cec12b426a5ed83, 0xb092842e02cf124d, 0x26ff7979c38be718],
    [0xceaf80f7a0754fc3, 0x8422e7e0b6bf5cf5, 0x49905a7d148f763c, 0x62eed7ae94588f1],
    [0xcdd854cc312a6d7f, 0xa87fba3bcfd285a5, 0x150441743c32dfc, 0x2ddcb93912364f75],
    [0x592af6e7281336d, 0x9738826488abecce, 0x63b827db3b987d75, 0x1a61c812aa97e5dc],
    [0x17f2190748f803ce, 0x1f0cb5f71d5df475, 0x8ad11222368b122a, 0xaf260c0175dc118],
    [0xe46b1eabb84a5d54, 0xcc56aad88006aca1, 0xc5aa00693a85d2b4, 0x6c547f8d368f03e],
    [0x606248591e597199, 0xb417011e9a65b0a8, 0x816f453da8dc97a9, 0x15a040ea72ef3252],
    [0x395b8ecbf3b40e84, 0x139b3e0941b98778, 0xcbf8795450a36958, 0x2e0ae86bd039654f],
    [0x683ae41943341c9a, 0x4ce233e07352a9ce, 0x777485d9400a8c41, 0x71936ae5ec7e0ec],
    [0xb6201c18e1b56dfe, 0xe00e59b571dd9d46, 0xd95b310dec2b54e0, 0x4523bf1a8f284c6],
    [0xf11cc30a2a8ece33, 0xb6a67dcfe2d14f7a, 0x3a7404fe02b03139, 0x1fc8ace75c85e6d],
    [0x13d300689a720d8d, 0xf23d0e21d2f31fd2, 0x222801ac39bd44fa, 0x263815b2a80b71e1],
    [0xdaafed03742d3ff7, 0x79d80481808f4044, 0xe9dd7ef77559185a, 0x1a91fe38ad898189],
    [0x5bdb58a85f35e324, 0xf1ffb79a6d4cd14, 0x9624d1c7cc7d9093, 0xb99a6192c5bbf61],
    [0x9651bdce60c352fa, 0xd1f938edefd5a735, 0xc63743c5d997b720, 0x29df5b722979b8c9],
    [0x266223e6fcd3d89c, 0x254bcde82c459c81, 0x3da9a2eb5fc92f23, 0xeeffa5c228914c0],
    [0x3f2a4c8b86a68be5, 0x7240d45a5b01f387, 0xee9c4f5ed4762db, 0x2b3647ce374ceafb],
    [0xd5cf049477dd1c74, 0x8d89ca37d43dde81, 0x286c2239b5b721a5, 0x21e2872db7718e97],
    [0x60bca5712c0626ad, 0xae3abbe251ce9c01, 0xd1ab2fb89246a648, 0x173909ac99ccc3ec],
    [0xbab4061d3880dd32, 0x9e62e52c1a40ec5e, 0x43e958e16c10b3cc, 0x2e2fd250ad31b0f5],
    [0x7142a707c6ba48d7, 0xd4a7cbc86067926, 0x3a180b5a0fb1b5d2, 0x2dc7cd826f2f2b96],
    [0x83d63e1461592bf0, 0xd27e7e1966c39af9, 0x35d3f9a0b2cac4ca, 0xcdf628de6b0bc2b],
    [0x753d4ff3f59b1630, 0xd525fa3e241b1182, 0xb104ac9141798acc, 0x2bf2f603e91d6eee],
    [0xd793e1eba7c3f675, 0x42c1c07504c5bfec, 0xe2f3288639363124, 0x49c9676b595755b],
    [0x34a2eaf8339c9af0, 0x890820144be4bd03, 0xb3b90ecbb825f0f, 0xd1fd4d6ff542b06],
    [0x81c3d49ee4c1c67f, 0xc5ca7dad6143312, 0x79130c0aac582fa5, 0x2206a93fd04efa7e],
    [0xa5f4a7663143ecb0, 0x94fa5858c67bd585, 0xcb6250f4c9c019d9, 0x1b8b1f32ab840765],
    [0x8ae0b6ae2e71319, 0x3aea505c675c32f6, 0x96fab44c8c6a1eaf, 0x55cbd5d71b787fb],
    [0xfa65555a0141ea9d, 0x5213568b65cc1db5, 0xe90311ce846f99b3, 0x24a63962fa639928],
    [0x877c671495831bc6, 0xf7632369d3b6e9f6, 0x8bf62b784a9d029c, 0x2d41835ec9c8dc84],
    [0x98c632b77bd3f625, 0x668ad37b67fe502, 0xb2c523c680ea3df6, 0x1c3ebf1cde47404d],
    [0xeb68d47391a67f46, 0xcf00f5fea91b85aa, 0x9140d9825a6cffcc, 0x4d92032856d1eb2],
    [0x66b154605dd00cd4, 0xa453c4a4639f1e1f, 0x343e9dc78d0604c7, 0x13fd59cdc2da8766],
    [0xf3fc4cc115f76123, 0xcfada80fe7b1f2be, 0xd7b172bd74553d09, 0x2d56a2d39a3db620],
    [0x3ce14f2b477ad27f, 0x46c6eb49871add26, 0xcd06b084d36c85d9, 0xe8cfc663445dc81],
    [0xd1db5a357b335092, 0xf196705ea0754e4b, 0x7da192a5fdd91db5, 0x2233e0d00be5b7a7],
    [0x316bc465ec4b961b, 0xdc03e01c67bd8790, 0x99d51ae06fdda165, 0x153dcc887f5dca89],
    [0x4b6c1fb476d5d5d5, 0x60809012bb9ae4c2, 0x4f0c765734520333, 0x1e3ea34066a17011],
    [0xb6201c18e1b56dfe, 0xe00e59b571dd9d46, 0xd95b310dec2b54e0, 0x4523bf1a8f284c6],
    [0x3d8448ba7e09735d, 0x66c2b0d5060c6898, 0xd3a50c9dbca0743d, 0x6662bced08b16d3],
    [0x9968718b512fd761, 0x2ade565460c2f2ac, 0xe4df94e0fe2860bb, 0x207357fa70e47358],
    [0x5e016612cf48a0a8, 0x72be75c0539fc2c6, 0x985ab06738bfdbcd, 0xd88b7243e4ba947],
    [0x740b5876211527d9, 0x50676c58f783bb6, 0x11f8d32720abc1fa, 0x29032f478c7b5fb1],
    [0x28efad2b95f6d010, 0x67e304eb63c0c055, 0xe1da120d8dbc12a7, 0x1f58b00a5be5baf9],
    [0x43812470c63d6fd5, 0x9954b915bdf620a3, 0x6b8a8c15707cad7f, 0x5645d027e20362],
    [0xbef2c6721668758d, 0x8d46a42e63b488bd, 0x515a8ff4fe71b083, 0xab572420dfe8794],
    [0x6324a178986dd709, 0x2e270b58c863ffb1, 0xe254b3d2c4bc8c27, 0x1876c13f9de5d341],
    [0x56b1c75379d67d55, 0xf3ab847e058e66bb, 0xe470f77aead4decf, 0x21ff416c00f6e478],
    [0x92646b76f97db4eb, 0xc5072fcb6d204b3a, 0xa150f6807d251607, 0x104056d5d775740b],
    [0x800cfc795464ffd0, 0x6ca07c51c42eec18, 0x7b3844134b23d2fb, 0x2859bc2f28054536],
    [0xfde04487f731dc54, 0xa685224a3a752dee, 0x1d09129c01814b57, 0x232f777c06ca7017],
    [0xd0b281f9e6e8085b, 0x554fda8f17967c89, 0xdd83f08fcd68d3b3, 0x2cab0c414d906b4c],
    [0xb17a9ed3af85841c, 0xb406b12c6c78b40b, 0xfe37225419e9e26a, 0x291dc030472a4633],
    [0x2b6792f127d0dd51, 0x4aede2b931b40b16, 0x894a108302d097e9, 0x11b3be92352e34d0],
    [0x41732c580e15289a, 0xc0c0f6b58ecfb4c3, 0xf0ca14ee17385735, 0x1821450cf9950eb2],
    [0x903a5367012d6bc8, 0xcde5f1a4072fdc5e, 0x86d2f88a14e66ff3, 0x2c7185a2965a3dfe],
    [0x63488d470f91c57, 0x6277c6d244d4bc9b, 0x48ecc8a862b043c6, 0x19f8b88431be6081],
    [0xf56dbfada7b14086, 0xd43ae46459065f5e, 0x1a907e135ef8c7f1, 0x2e07597ce199e34f],
    [0xa02b0a115e57317d, 0xf86ae985da0dd572, 0x1411aa269a38a809, 0x20dd50883de922f3],
    [0x70ff89bd985b7fb8, 0xc56fb7c8a2e09528, 0x5e4233a27f3ebfd5, 0x1deb58e4db0e059b],
    [0x43854ca306e9c5ac, 0x20f5653608ba8102, 0xbaba8f9ccb8d74d5, 0x772b8311e52b960],
    [0x1a2456656a2008a8, 0xc53c04a0c3e466a1, 0x62d1ec04e406f165, 0x26508ad8ff73d708],
    [0xa0e7506dd7dbb2b7, 0xe05f74d078d0d940, 0x605f357d82c0a7a9, 0x2e03dc18ddda2eea],
    [0x3d9976330dc0c7a2, 0x19e1b5c95a053262, 0xd0d396b8b0a6b3b2, 0x2651122e5715b7d5],
    [0x57108223bf2e4a75, 0x4c0f832722262e7e, 0x2e77eb2c7ce09b4f, 0x1d2fa1a7f55da05e],
    [0x28cfd6dff4dfa7d5, 0x64465858de5f63e6, 0x8fbf1695aa09c06, 0x20991d3f8eb785ca],
    [0x1cf83dd34d8bdd45, 0xd91c1c6aba467009, 0x74c81b044f450a6a, 0x2ae4c49866069358],
    [0xb6201c18e1b56dfe, 0xe00e59b571dd9d46, 0xd95b310dec2b54e0, 0x4523bf1a8f284c6],
    [0xc2a32fb2bb19efc0, 0xa20162b44a67f2f2, 0xe61941e034ec6a5d, 0x22d5dcb58b751b33],
    [0x47efb5fe8ab3ba89, 0xb3da3a130177b80c, 0x37f9ea1f8f7cf8e1, 0x18a2197cf988fa87],
    [0xb36d80375bef622d, 0x174f54c3129f03f6, 0x3bb76fc84acbda7f, 0x56472b01f8796af],
    [0x9478e2a498f947c, 0xbf08c731ca114d66, 0xe75a6fec418b9ff6, 0x28a91c2f74f72ecb],
    [0xe8f0d45ffdd1daef, 0x8402dac39e3c8383, 0x8ae94d5163315586, 0xecd04c63ed1ee6],
    [0xe3dfe98400a40d9, 0x9af0a69c4d7692d6, 0xdcebbc8f2e91762a, 0x2865c65b845d8061],
    [0x1cb4d03dd1f7319b, 0x7d4bec32df7d1d4b, 0xc9a1344a654574dd, 0x2f50ae99cf9753f],
    [0x6fd0e5285fa5e8fc, 0xf7b6bfc137e75943, 0x15bf2e03ecfb8b00, 0x26b34e635792eeb3],
    [0x9794c491f71b5f82, 0xb4344b894d774606, 0x46327f7ec9cafb3f, 0x26cb59e555d21116],
    [0x3dc2c7e956e96046, 0x4a327a371d2f6c0e, 0x408da412d24ac131, 0x165c43eda77147c1],
    [0xe05543136805e1b2, 0x1ed8b47fc6fbdfc, 0xb04cc4a4c7830274, 0x172edd07fa59daae],
    [0x219121591762b378, 0x2eae858e5c4b0f0e, 0x4001545d9fd98b0f, 0x2bc36f035f7bceca],
    [0xded36499c5786cd7, 0x5875af1e91f5e69d, 0x77f0fa9c41a3815, 0x22d96b2e558884ca],
    [0x3ccf8ebdaeedb917, 0xae29a5e6d9118071, 0x6c2fa40a35b202e6, 0xf1146e591fc7205],
    [0x32204de009d6fb4, 0x36e20daadaf9461a, 0xa4f235f0c6c480f4, 0x29510d1143600cbd],
    [0x51125fd03ca89a29, 0xbe4351bdf3b96e26, 0xc14316375e9b8888, 0x1dbad14882314499],
    [0xa5b327b7e5810427, 0x11e8398a80d53195, 0x7eb6a7202081fb63, 0x19d651b0c567b650],
    [0xfd0071bf6a20341d, 0x46a000205310b155, 0x6caa0f943f4a0347, 0x196d972248e18029],
    [0x70c257ad83a1fad4, 0x2307c8c7e088f9a4, 0x81181bf776144725, 0x2e823807f3a2c2db],
    [0x982c9513a661e10c, 0x9ea6bf147168ab5f, 0x6fb34219cf2f0b81, 0xae07a00e65e68f0],
    [0x69fe5ec3b025c3d4, 0xff5cf382ed54a86b, 0xa89072fbfa10d169, 0x1f3ffa4e4b5ac02f],
    [0xa308e44085f0bb51, 0xa253e908b0e96f47, 0x42a49cb1fd0f4a5e, 0x94323f9b77a979d],
    [0x77e99ea46ebddc59, 0xbd1ddbd05f77de49, 0x4295dae1e761a5e9, 0x7568c62660c919b],
    [0xb7e9b7a5df35937f, 0x1771c3dc84ac0af0, 0xa9c10c97e01193eb, 0x1d28e05e1aee78e0],
    [0x349327f39f4593e8, 0xb677308c3e365b73, 0x672a01c2c541bb92, 0x1479d6a6a967e7a7],
    [0x5daef9f0ddde4a6b, 0xd15ccbba1cda06c9, 0xaa2559418c0da042, 0x6872919996f740],
    [0x856fb2c124e00e4c, 0x8b08125f5f007d01, 0x84934a500bd72601, 0x587b0974583ba3b],
    [0xa83f1c080035adef, 0xaec549f36a87c934, 0xc107dc4ec3157dfc, 0x2ee0bbcaf6798f8c],
    [0xb6201c18e1b56dfe, 0xe00e59b571dd9d46, 0xd95b310dec2b54e0, 0x4523bf1a8f284c6],
    [0x1bfcffb267e0dad0, 0x3d618407140b6ec2, 0xb201590f87f661a1, 0x76373d256d68ccd],
    [0xb87a1bdc416b270f, 0xe7b8276baebb1a39, 0x3fb23e95428b7cf9, 0x13a5be09677fa0af],
    [0x1d81821fa8be02c9, 0xab9d6aa6d6a33578, 0x12d12638b5ca5973, 0x227a7259c3b21356],
    [0x7e9d44d59d870cdf, 0x2f43aaf38fcc86f1, 0xa8dcdc9bf29b1b51, 0x25d96493ac371c2b],
    [0xfb2127b41189afed, 0x92b47232b208f15a, 0x40e7e3481b96ce14, 0x1ec1120411deede7],
    [0x104b35799362b0f0, 0x752c82287637ffc5, 0x974e55e19274c65f, 0x12067c9f5be28c0],
    [0xf07d811873c464db, 0xc88d964597ae61f1, 0xb2406bec8e38576, 0x462ea3958f9c42d],
    [0xc441d6871f5d639f, 0x430fe087706d88ea, 0xd32d8b57f218412a, 0x20450babc7a6e637],
    [0x8cf4a937dc68558b, 0x19995e65a2929c07, 0x26f977c371341f28, 0xb29f887572517d8],
    [0xe23b78bb1f172a54, 0x165aca3895697e42, 0x5e4006aceccfb9ab, 0x27d93349e2cac832],
    [0x714d765fb25d9028, 0xb83446841ce8525b, 0xa937545397b4fecb, 0x1969ee0572799902],
    [0xfb4d9a32f4667bdb, 0x385b3ab83494207e, 0x6131435b17c46e0e, 0x1edebdf580772f61],
    [0xfa400c2e5eba5fda, 0x3073e5580c28caba, 0x58e57ca93c94c562, 0x430dc17c3f19577],
    [0xf8d683d917186b64, 0x998543e84b9b8ced, 0xdcc8b252f17d97b8, 0x1dfdc9b2152615a4],
    [0xdffec598bf40ce49, 0x4211e495f2bc46, 0xa680204e895b655e, 0x48a9afbd6c11ff4],
    [0xe2a7153443ca7fe9, 0xf7abd3ce15bc9e95, 0x91a273650de721db, 0x2511be820087db21],
    [0x1fdd9052090d3884, 0x802b4ec2f60a002e, 0x6a1251fe07d617ce, 0x1b255c37973fada5],
    [0x82aa556e6ee34bc2, 0xd9d868aae698b205, 0x4ceecbbcf02d231, 0x5c36fe03574074a],
    [0xf1cd7f611f8632b0, 0x491178f66712eee8, 0x508085071812c378, 0x14071daf49fe401a],
    [0xb9028d2e1a5c28a2, 0x6ef1aa9d582d9a44, 0x7aced336508d0b56, 0x1e8a45f66dae3bf7],
    [0xbcc06dd8a3a4e4b1, 0x71ca55b601c6a9ac, 0xb8777bb16984dc9d, 0x3470d55418841ef],
    [0xa6fb979a78afce0b, 0x70d93b69555b692d, 0x6e694e78b831d420, 0x194cd0a75e5edf34],
    [0xa2d9f2001517b92b, 0x2dffe723e366e956, 0xab1c35553601cebb, 0x22d1fd9d50ef28df],
    [0xcd63ccf129d1e281, 0x40dc686d00333fca, 0x1a2df80019b67d7e, 0x64a916906b28a8a],
    [0x5d800e61fc39c824, 0xe0e44280b5c9478f, 0x73fb4f5980c5aba2, 0xcadf1f120a7ba6a],
    [0xfde30ee181115b17, 0xf2e7fb59202993da, 0x6b91cacd517e51d4, 0x11783cca91ae0cd0],
    [0xa6be74b8d5bd2bc1, 0xb9749f86297a5bd3, 0x61975dcdfcfd8f6b, 0x1563d52bb66c2273],
    [0xb77e2c9727863314, 0x4b8324721e6c3a29, 0xa76f171d80a9b92c, 0x2e3cf2cbb16d4b6],
    [0xb6201c18e1b56dfe, 0xe00e59b571dd9d46, 0xd95b310dec2b54e0, 0x4523bf1a8f284c6],
    [0x4040ec5d1e766ebf, 0xc6950fb72f241e34, 0x98d029a76a334797, 0x106cd44586872a1e],
    [0x8883265df4b743b2, 0x74192825ec38779a, 0x2d7fb13ae6ab3457, 0x267c81eebd4f9bec],
    [0x7bb2c3946fb09aa7, 0x804aa6aae2bf06ab, 0xdd9c940b9450547, 0x5cde6fbc024c52d],
    [0x157a776212418837, 0x10213b88b7125ca0, 0x65e392e606d3bb41, 0x1db696f29132c9a0],
    [0x8120ebadf7faabfb, 0x56c1f7768b55a690, 0x5463b0b88bfa91ad, 0x269b78b6fb577d3a],
    [0x111f9cd906bdfb31, 0x76aa85e28c2b7a8a, 0x69aeb322109c9194, 0x1e32a4b9639edbd3],
    [0x9b1d59673f5b1816, 0xa0abd33dc265069e, 0x621b4305c2faf4aa, 0x2387b1982e0083a0],
    [0xd875ccbafc659ade, 0x7e50fc5ecd2598d2, 0x39169a1c9389d0b6, 0x16f2a181e0d79d0a],
    [0x77cd7a3ab52f5c57, 0x8c7323e4beaa809d, 0xe5b84ecd7625b859, 0x1c418ee3dafe2d97],
    [0x81ab85d4dd9b77de, 0x72117eba7612ae05, 0xc0cad82e5f46ae19, 0x235d1dab5f72d1b0],
    [0x536004e100f729c4, 0x302d843dad5e5c1e, 0x74ddf6a4417f4d6c, 0x11eeabcb505206e],
    [0x9f333c34a0b3eca3, 0xec963551676e4e10, 0x9a491af89cdcff26, 0x14b4f6ffdc590f85],
    [0x29b7498fc7067aca, 0x364cebc831084a31, 0x59ae438ef85f1fa8, 0xea3a8bd722b0255],
];

/// Part 3 of the sparse partial-round rows for width 15, as little-endian limbs.
pub const S_DATA_3: [[u64; 4]; 256] = [
    [0x2a8b805b107a4518, 0xe8a13dab66deb6ff, 0xc4e5a0c13c12a234, 0x26a63daf3c27700b],
    [0x2f403a3095034ae7, 0x1726a6ab9b7fdba1, 0x311bc53387840e13, 0xdd28ac1c88f9959],
    [0xfc06bc80480d89ba, 0x880fdd1d1da2b771, 0xd35fd586e0944a36, 0x1221db6f8687604b],
    [0xe8b89bafb087234c, 0xe05dde06b6aeeb1e, 0x19e41ed02e593f0d, 0x5dfb8aad4d6b896],
    [0x3438fe36b1bddd55, 0x6d567e73717deaec, 0x422065e1b2a8e0d0, 0x10ba8b3d427fe867],
    [0x6662d2887d2dc68d, 0xd287e30fb869bf81, 0x2234be03ee877b96, 0x13cc217fbf1b6097],
    [0xe602e2d605497c5, 0x5cba9ce0d0d1f12e, 0xe55b67f3435fb191, 0x1031f3acc4288235],
    [0x1d0734db793a46db, 0x6aee1dd1132d3a6b, 0x53541af16af79275, 0x18ebdc6dd67f2d58],
    [0xb5890c9a0abebc0c, 0xb3738171f896cfe3, 0xf456c507069645a, 0x10a4bdea8bf3a044],
    [0x46a7d1aa8d9bbc2, 0x3556eb1b56d8339f, 0x8e4c67f37c30ddf0, 0x21e5b46f2b85977f],
    [0x972fadd8f4fd3abb, 0x23e2beccae352597, 0xe0a56b24ebe7a392, 0xa8735e02e11c8a1],
    [0x14c98b932609fb2, 0xa89ca600e748a238, 0x91278714a40fab8d, 0x27d5d5655c3a948d],
    [0xc6c12accead7e73d, 0x4ab038d6b15ed634, 0xc6d4b5fb44a2899d, 0x18b4b6e0794cf364],
    [0x3847d8718de0fe29, 0xb8c173bfbecb8eef, 0xedb3b9fff6e54be5, 0x1b89b8c9a5250e9],
    [0x8e064f4d2c726a01, 0x7f63a581af9a499f, 0x9643219a9cd3e4f4, 0x27a5ddf99d9c4cdc],
    [0xb6201c18e1b56dfe, 0xe00e59b571dd9d46, 0xd95b310dec2b54e0, 0x4523bf1a8f284c6],
    [0x14448763d2dfcea, 0x2483ed173125bad4, 0xc4213ba3d2b15367, 0x237b081a68e30cac],
    [0x8e967009578e6ccb, 0x762b99be844b0a93, 0xb672d741c5034f91, 0x29af4e6cae10dd99],
    [0x559bfa3a33d4e6e8, 0x4c7f74b073af6c4c, 0x2ae05480699f3473, 0x91bd6b2497eaa90],
    [0x5613950f8700360d, 0x98067caaf184dfe9, 0x31f2780b0edda035, 0x2f7f9c0d61cb36e3],
    [0x4e87feacf2b4dece, 0x7f27583a7ea7f5cb, 0xd41ab75c67919149, 0x244d6e7fa5583e36],
    [0x1b90d7035521359f, 0x767072e59db3a1e, 0xb9ae5b7e95538019, 0x1f174e5f54c883af],
    [0x49d675f4e5b27150, 0x1a9c83e43178454d, 0xf4659499274ee72a, 0x97f23268924c4cc],
    [0x18ba776218600fec, 0x870662b336afbd15, 0x9b7049c41e34e6f1, 0x3d2ab62fef78fb6],
    [0x5790e04b3c7938a6, 0x3e2b0039e86f78fe, 0x6d1b5c21c6b2e5e4, 0x2718711c73da1e25],
    [0x745e52aa7854bd4e, 0xc6334506a93d6909, 0x25603d88e3d35c3d, 0xd396383655c27ca],
    [0x79d4ed8fdb9f692e, 0x14980c6a0a3cbac9, 0x54ab298c3e4ca0ca, 0x1c66fd746293e231],
    [0xfeaf5342a971caeb, 0xcabdf1301f676b07, 0xd066e0ab2a6b5b5, 0x15708a52c8abdc86],
    [0x6f6701fd39e926d4, 0x4e7bf5e3ce1932b9, 0xc55cfbd8b67a7d7a, 0x2b821cfd139e0da4],
    [0x832eb180a60885e2, 0xf364d41b6b24d0d7, 0x4a31b7f40b836023, 0xaafbee598eca562],
    [0x1d1a7a56c83c3fc7, 0xca720814450162a8, 0xb229bb67da73fff3, 0x15c92eb4730eb68],
    [0xfd264b9ef144e839, 0xdb97cba269f59d0, 0x787b0add86e9e038, 0x2f7200c5afe273cc],
    [0xa6094e2a69572126, 0xb0b069216c9b412d, 0x69b4f7e1842ae9f, 0x2eac5180790ad9bb],
    [0x9bca9a99e4d92869, 0x53c2a3789591deba, 0xc824c511a7b52be3, 0x1b7a0422eaf807c0],
    [0x49d16a37cdeda515, 0x6aee481fbc455b38, 0x5bbded5e9e5880a8, 0x1662fa1c78a1621b],
    [0x648bfefc4c719cf, 0xdbd905fdc3c65755, 0xb2b03cb80b4ae1f1, 0x28972f5963c0ae4a],
    [0xcf49c1b6f95ac740, 0xf8523801efeeebbf, 0xb209b85d4af1aa89, 0x2424d119a1299933],
    [0xb98a07608ac8e373, 0xa27b4d887f8050c1, 0xe174047c94905083, 0x262a05cbc85dc177],
    [0x70eabb7195465a93, 0xf6b6ede06527eba7, 0xb06e1c0636306751, 0x89d1b0af58744cd],
    [0xb25de7fc60f033c0, 0x521ffd23995b67f3, 0x89d927ad67270da8, 0x26d8b08764b72407],
    [0x56c346264e5c5f28, 0xb2bd351e7bc6984e, 0xba24aea1f48887b5, 0x19c594f452b69d9a],
    [0x1988e258147f5a61, 0x4a5d7e23b3e651f6, 0x239b7d71d7e94ab7, 0x9a984983ac12405],
    [0xe78e69d7bcc5ddc7, 0x58dc1eab9a12a734, 0xf27ca3a98d230c31, 0x2edfe7a5c13ee6fc],
    [0x731cd96c89defed1, 0xe56894965b345a1b, 0x44a3780ae6c5a0d6, 0x190ac6e66fc02445],
    [0xb6201c18e1b56dfe, 0xe00e59b571dd9d46, 0xd95b310dec2b54e0, 0x4523bf1a8f284c6],
    [0x34abbb5dc6fe0b86, 0x192a21650b6e8cf7, 0xc4d1196b9ba56563, 0x24888d5352a17bea],
    [0x4e2e31b0b52706ea, 0x360b3dff10f646cf, 0xeb051b44845cdca1, 0x27f1a77d912fc4ff],
    [0x2006e387b20d5f49, 0x7551ca4258c7b729, 0x2974562cc98785b3, 0x281d4a45a8beb80c],
    [0x4ba4aebdbcac8dec, 0x4251bd5473313ec, 0x16e97b18e0a33aa5, 0x1d06a2f6b95d2074],
    [0xa9336509285500f, 0xd4b8a22a54a59f06, 0x904b8370d622f408, 0x11dc2b5aac6c6b58],
    [0xc4df4a6145b9cc81, 0xa8eef6067f86926d, 0x43633bb8f90a9db, 0xf03457b87c6491c],
    [0xbd1c25df17eb204, 0xb97ddfe41bb5d776, 0x7f477e61747a5450, 0x17982901cf92be1b],
    [0xc0c29025a3da1781, 0x6aa046933c4517a6, 0x83df6d9fe5634391, 0x848af60d2939b39],
    [0x638eb6649d852272, 0x91caf3a03a5563c8, 0xf01501d1a810d1f4, 0x1dab170558f1782d],
    [0x15213df56c46370a, 0xa04dd2a2bda0afcf, 0x63986b914236ba21, 0x17c31798bf48cc0a],
    [0x60ba394e224ccf7, 0xe4ab8ffacd899d56, 0x40f31fd15a70e59d, 0x2ebd4bfb0ae3e1f5],
    [0x3aaa9222e8b182f2, 0x94b0a4b3e091f15e, 0xbe57bcbbe97e3a7f, 0x16c3ea32466b179e],
    [0x1f22171c6315733e, 0xb9aeb36e9c2d7d23, 0x8ca7331055f3daf8, 0x157740e3058872c2],
    [0x26afe81b98ec27eb, 0xf4da2b281f2a9ac4, 0x412814d68e6955b7, 0x6a974a75d941a54],
    [0x625c64f1202bab37, 0x11ff4a359f3e76ec, 0x90c5bdcb8bb6be9, 0xfa950037d21d72],
    [0x474bda8fba0354fd, 0x1f7e0e70c753dadf, 0x649a420625c707e6, 0x19065585b553aa2],
    [0xb6813af5b279872a, 0x67c0b048dc243f35, 0x68017cd1e1cd8849, 0x183bb2b9d85c3a93],
    [0x86ab5ffcb2a9942e, 0x252373c18105cf5f, 0xf27a86779104a54b, 0x271a9d19b99115df],
    [0xcc3a1182af4fc1bc, 0x2cbbf3d66f1a276c, 0x644f15228d786fb8, 0x284fd24cc3cb45ca],
    [0xce1df084ed0a7a30, 0x2410bffa12b77732, 0xa868a9501c9e1c7, 0xe62b392dc27b2b8],
    [0xb3d80d6805fc4f65, 0x404842b16e8954ba, 0xcecb4158eba0b249, 0x265311e1422fc3e5],
    [0x5e8d3d9ab6a5f9c9, 0xb62697864531172f, 0x40d96d2286d9b411, 0x1186e446615d83a9],
    [0xe7cb22400d69ab77, 0x6f1f53bdb32ddd9b, 0xf64fb896271bd8d9, 0xa22515b9c7fdead],
    [0x5e005b85c901551, 0x90c1429ba87a3d41, 0x25baaf77a092d6b7, 0x1343f2ea91b46be7],
    [0xe2eea30f4c884bf7, 0xd8e8a938deddff70, 0xd89a09c69f8d8309, 0x2a58da207ab04101],
    [0x3202f6d9eca2eabf, 0x10732b0ab1e014f6, 0x18d5a89b181f3a01, 0x1bddc742015df547],
    [0x8f2636177e9b61, 0xb59066777ed21d2c, 0xe6093a4b75b9a34, 0x301144f583057465],
    [0x59ed2a127fd2c55a, 0x77b0f09a98d8c17d, 0xaa7ad05b07462d7, 0x1ef4af2266824889],
    [0xb6201c18e1b56dfe, 0xe00e59b571dd9d46, 0xd95b310dec2b54e0, 0x4523bf1a8f284c6],
    [0x9f9b9188c9809ed9, 0x8be2270c4ad70f7f, 0x16afd1b89f80c4b1, 0x25b20abb9883f595],
    [0xec32934669c1d155, 0x8b607dcfa047c259, 0x26efc7ede1108cef, 0x27c5f600e46a854a],
    [0xbf2ceaf9393619e1, 0x4101088f13837f11, 0xaaee7955186d7156, 0x1fcb1b54e79f2f06],
    [0xc073a9d50f33bb79, 0xcf1b63cb23c4c8ac, 0x4df9e69b729ab135, 0x1d24da31bcb08eb6],
    [0xc84b23026d9a8952, 0x46f0003325efdeb8, 0x8f319e57408ec4ca, 0x21c0a2bf8c0ea05f],
    [0x8d748f23508ac1df, 0x77eb5858758e6c83, 0x5234d8fa1905de0f, 0x1931ad5d7ab12646],
    [0xfe56dbd1937baedd, 0xccd8969195f2f3ed, 0x918d404d56b4cee0, 0x17af6e15929f2bca],
    [0xa5cf24fce6966854, 0xba7fb8fb2bbad631, 0xea80c47cab8cdf6e, 0x36b2cc2645cfadc],
    [0x7671c8fb0754e10d, 0x89cf46933d4c7a79, 0x2cca1977ba2e271b, 0xf10bbaf98e0b1ce],
    [0x8debfe779a72a708, 0x40637e6559d72615, 0x9de677048151e6dc, 0x1ae0f9bb7b72a323],
    [0xe286fb999da2e6e8, 0x283418138b9fa2fe, 0x55e68317eded61b0, 0x1912fe07ee7840b0],
    [0xfbedad560aa5571d, 0xf571d3c833fc1c54, 0x8b39b5caa36c1a6d, 0x24a8a1af47ef25f1],
    [0xa9f3edbbfe1faced, 0x800a1cb2ec6b7d6b, 0x66057ea4e9ef5225, 0x2d3f665ea69116d2],
    [0x36feee0e9730e3f, 0xceeea439d8fa83c0, 0xe95d2e54c52c0fd0, 0x2c5b2cabc24bdcc0],
    [0xad3a3f534bc0452, 0x16148bfb8e70f22a, 0x480c28acb01547d8, 0x1a79348c882afaa9],
    [0xc7edf4f0dd16b8ff, 0xb08b0a8a416ff6de, 0x41a32ab45958ac49, 0x3942e232a30d4a9],
    [0x54ee122ec2090ec1, 0xf3f534cd988248c1, 0xef8ac471ba7719d5, 0x24de94fdc7fa872e],
    [0x139d84a2888aefa7, 0xdb75dc7e9eb06a5c, 0x659e6bdb0e3f2643, 0x13af3a6a5530327a],
    [0x948d326f54571ead, 0x6522853f0d6eee45, 0x23e5c5eb49fadbb4, 0xfff230d63a7ea18],
    [0xd3c3947baa0d7fc4, 0xacdd8dbbf5b20ade, 0x7495b1e9ac1236f8, 0x1f67b3c311ad5eee],
    [0xdcdd72b96e8e448b, 0x23c8992c91a1884e, 0xeb721c87ce053e85, 0x5be06d2aaece5cd],
    [0x848cc3951f58971d, 0xedd5bf9fc4202959, 0xd9c47c0a1e0e5654, 0xf3b86d20e5d8b37],
    [0xf2ea6f3a24d10603, 0x2f3b3e90d63b884d, 0x6e7cde5bc033d807, 0x28047bfb585f17ad],
    [0xd7f34dd184baeeed, 0xcf5cd9ddb63bbbb2, 0x70bcaf4bd0f87943, 0x1186aea12da52c2],
    [0xa93ee42b8e52e06c, 0x9b932012dbee59b3, 0xfc7970af0d64f4ca, 0x1e4d65e0bac14ec3],
    [0xa1f92b555550aa0d, 0x88ca8893c1ca8813, 0x29f4327b9df3f359, 0x265d09835a19ac5c],
    [0x6775e4ae313dae6d, 0x32b4ef0e6e345ed9, 0xb00d06db176106b6, 0x255b843c053e9dd9],
    [0xcd715f49aae612a2, 0x1ec5eb951ae3164a, 0x9652361d830c6d69, 0x1cdbf2d9c9e1f409],
    [0xb6201c18e1b56dfe, 0xe00e59b571dd9d46, 0xd95b310dec2b54e0, 0x4523bf1a8f284c6],
    [0x6afceaa9771fad20, 0xd343877ab35f7bd1, 0xde6fde6a95b7805e, 0x26cd056174dc2477],
    [0xf1a4601bf3178ef6, 0x79aec07b52ebe4ff, 0xa4697164bddfd29a, 0x286c63dc377caf0c],
    [0xd11a2d37ba4179b1, 0x2727c70f864afa44, 0xb3a00244a049d223, 0x4404a2d97266886],
    [0xf2d59aed40da523c, 0xffb1dfdbfa20ceb1, 0xad6b4ccd8482024e, 0x2d7b33ced5c2aff1],
    [0x3818fbe9426d24ef, 0xfa0e904e2d6dd9ab, 0xce31b132cf6752a1, 0x1a5a78c756a7ee0c],
    [0x804ebdb1698044d1, 0xbf658dd13c467e52, 0x9878b1383582b9a3, 0x26634b7dd87a8c0e],
    [0x6a656587aa25bec5, 0xfa00c4118dcadc8e, 0xc2578814782740ab, 0x2222ed015dbbe37b],
    [0xe6b8d0f8c7486da8, 0x1d47cdd86ff8e0a6, 0xe1a46b772f3d1135, 0x243a463d1befd0cc],
    [0xc7c14bac187ad37d, 0x406d4ce2042b1856, 0x360db5fedcde0405, 0xf4a9dd0ccf52f31],
    [0x38eacd5dbc5e8c74, 0x21ddd450a13b130f, 0x824acd8974ec363c, 0x25c6e507371aba88],
    [0x83d8897eaba353a2, 0x174c89904d9c33a6, 0xc7d2ffeb7adf4a03, 0x864d7ea740ee93e],
    [0x60444ad2e535a920, 0xb0a1070de370a5f4, 0x58f424e893e0892, 0x146cae6d1bdb0318],
    [0xc052e1451e9c17c4, 0xff1e69210578cdc6, 0x1619e26eecdfe6e2, 0x1ebcd64df7ad6f0e],
    [0xb00ab45c7a77bfc2, 0x28ad277aa0c48d2d, 0xabf0bbf29992d827, 0x1a7f76a8b9a868b7],
    [0x1dfa397e227d62a, 0x120df1b53f26240c, 0xdcbc9e9f530c139f, 0x32b7050fdbd512f],
    [0x18d7f45f64c7aba2, 0xe11f2fd581a4371f, 0xfe9524bfa2e515bb, 0x118e701ff219612f],
    [0x60229145f0869468, 0xab2beeeb58c6c94e, 0xdd08f394fc0eda68, 0xae4dd0aa671c0a3],
    [0xa11e318b43e3c340, 0x8721c80e7b970b51, 0xbc1a2954e04a8248, 0x187cd95af561e161],
    [0x3e3b87837adc1c39, 0xd9fd07176f336d1c, 0x72630e45384b122e, 0x13c74e83abff7318],
    [0x7ae01b712b5073e1, 0xdbb65382fba12b4e, 0x24a9f0f4a384e3bf, 0x30392808edc88e0c],
    [0x21fb50ebc3440467, 0xe7f3ac43b4ed9d6, 0xca210b93a9932076, 0x1bb68781b9f841dc],
    [0xfcba7c6d5103ed5f, 0x8b3f314a288be687, 0x4a4716478bf62c10, 0x514eeca7cd002d0],
    [0x4f95848275cb05a, 0xdc23982778561408, 0x99e3c3de03d9677, 0x1a4c1caa217b647d],
    [0xebb2ec8c55f40a7, 0x691dacd96ad16f89, 0x879e9489315264b7, 0x1959d1f1414c9a59],
    [0xee67dbe1940b3d4d, 0x314e607130844c97, 0xb20014558eb78e6, 0x2c0e761217503c6c],
    [0xe4fdb9d6803b9609, 0x417eff7762d96594, 0x4240bff18d191276, 0x248c9aa70622ffe2],
    [0x61e9805bd0a07d1d, 0xdfc09ac71634e69c, 0x5fd5e925eeffd10d, 0x21dba9d46e89f587],
    [0x9be21c35dd5bdd5a, 0xd89bd2e73f181760, 0xe7eb2c697ee2e197, 0x21280806713dc524],
    [0xb6201c18e1b56dfe, 0xe00e59b571dd9d46, 0xd95b310dec2b54e0, 0x4523bf1a8f284c6],
    [0xf5497bb5aefe9666, 0x7a83d2ad838f9a51, 0xa172804c7b159ec1, 0x3cd1743a3de44e9],
    [0x578526fd7eff644c, 0x665dc8654df4af96, 0x813a4d06db5e8bdf, 0x64682ebaf66d718],
    [0x4c3ff2553803b024, 0xd455549753fb3e8c, 0xdcad2f45d2bfa7e6, 0x27bdca50a989caa4],
    [0xbf1af39f5f4dff0c, 0x40f391da9efb1879, 0x30c11f3036d2521e, 0x263a2119f3bf5d53],
    [0xdce7ef229213c5bf, 0xd0f4272b559e58c7, 0xb58e84ca4f3e2ab7, 0x2df2f13f954b1a7c],
    [0x8c351dce02d32d52, 0xddf9ec51a174219e, 0x671c8e194075fdb2, 0x2ac40d567d483e8d],
    [0x7182aa674f7fd820, 0x8a47cba1a729bb29, 0x209c9978cf5783aa, 0x159b9154fbbcadc7],
    [0x32ec9d5186e1e2c7, 0xb4828ced253dacc1, 0xaaa4a2b1a83d62fd, 0x1a2295de4f8dc401],
    [0xe3e2b5181d46d29c, 0xad276ca9d009081e, 0x1cba1169ca4d85d5, 0x2404bbdf4995ad24],
    [0xbbbc340ea35cd7e1, 0x1edced38761cf45e, 0xb6dc1602ead39500, 0x6fd221e32b98c2d],
    [0xd2cce3a31e541032, 0x8ed04faa2791f47c, 0x599b5c65b5a3e74a, 0xaf3118afd7dcf],
    [0x8549d65024113ad7, 0xacb1990cc04608b0, 0x808bee0a2f7ec63e, 0x2b2dd6d065365f0b],
    [0x8e52764aba6c9f9a, 0x928884b68074c8d7, 0xa0aa4fd86020ddc4, 0x180941c6fd6e1dc8],
    [0x6986aca09ec59801, 0xeb9e2d5b6d209f96, 0xf9e6d4dd23b53a, 0xb86cb785671c763],
    [0xf9d44a360b317617, 0x42ea8d961248d90e, 0x9e0011201b47e20, 0xae841f0d25bfbd0],
    [0xb111393c8e0f943f, 0xf2dec29e31928d5, 0xdda5f34ee11c654d, 0x1b2f66bcbdb6fc59],
    [0xbe67a0dedabe3aff, 0x9d09d98d5161c878, 0xae85a13440d46bba, 0x2f16b66d80614604],
    [0x4b3c518dc21416af, 0xc0822077188b8af3, 0x49b987ae985e9e54, 0x196328adca8167c6],
    [0x945efca7fcf56b85, 0x785f08e9932b4226, 0xd01013faec284477, 0x107664f2d3f3bc3e],
    [0x39406ae6e6f7cca9, 0x374c71647d4ca274, 0x46f9b81462c64093, 0x2fc54bc47cdc7f71],
    [0x3c97356554911cc9, 0xe102f875627f2c97, 0x3e0898942f611aea, 0x8779b3359720a0f],
    [0xbae2bca9d4a07f9c, 0x84d1f3d2d3ddc114, 0xca32493869261946, 0x2e30be5c5cb07090],
    [0x5b9389f8563d53aa, 0x9c68a583cea66580, 0xb58600b9d085aa8d, 0x1ea45a4f0b12b578],
    [0xbf5fa7c154c0f577, 0x211c11647cbf22f6, 0xe6ec2934cbd59f0f, 0x1753a308b286260e],
    [0xb73c14df40d61db9, 0x975edc2465d6de14, 0xe9001e08ab603aa8, 0x102ffeb8a2a94fcd],
    [0x107b2c8ac34ecd95, 0xab272d3d174f526a, 0x74f8d3a8ff484788, 0x1ae8a9e95ee69c87],
    [0x5f32084ddaa3aabf, 0x9c53d1b7238748e8, 0x8d7ffcb7be641fd8, 0x166b84b5e6975b9e],
    [0xbecb4ce4966e1a3a, 0x206b611f52af1d13, 0xd9e61e96965da98e, 0x2b2e47acd6445423],
    [0xb6201c18e1b56dfe, 0xe00e59b571dd9d46, 0xd95b310dec2b54e0, 0x4523bf1a8f284c6],
    [0xb1c23a97b93802e4, 0x24003e95edc617d6, 0x2de4660b318bcd53, 0x10e7554983562b6],
    [0xc8feb07573883a99, 0x48bd2c848caf3973, 0xf85b9f8cbd78aa60, 0x187483dca9aca475],
    [0xde7555569ee771f8, 0x64c35442bb120e28, 0xf5d8fdda2b063e82, 0x2c13309dec41b4d],
    [0x32914aa9fd94eaa2, 0x641c1cb26591b216, 0xaecd410a60cc5c96, 0x11710271c6783060],
    [0x78e6386337716b6b, 0x4041bdf4f8af2c53, 0x77b5c40e1f988805, 0x12bbd77d7be4e06b],
    [0x58ad3b87c6f28cc9, 0xe21a7bd9ee908170, 0x6028728c80d60cf0, 0x23ee2c9a0d332416],
    [0x769c9c9249084d71, 0x2dea81930c732c3a, 0xfa07e285bbd7391c, 0x58dd3f4009e8ac3],
    [0xc0baef506c851079, 0x82297ea43dbeda87, 0xd84c754621ca2d1a, 0x128d27c4805d2365],
    [0x550b17ab4f7b436d, 0xef4c24d2887d7de0, 0x2f3eb768b69d8549, 0x20f552e4cc3a62cc],
    [0x6dfec8f626c5a9f8, 0xfcc70746de99e78a, 0x58bc7dcf25b1d0be, 0x235730472fedbab3],
    [0xff5ce9d4443d3376, 0x43ea871c01acfdf9, 0xbe7c9e773b08c56f, 0x280c2ed868aeacb6],
    [0x2989326fd901e923, 0x44db988b65f46d03, 0xc0da68365326cd99, 0x1bc74fb92afe9db8],
    [0x60ff533ede5fc360, 0x2f1c3ef24cf70764, 0x5031afd1a53d2121, 0x2d9c89c56578fa],
    [0xac921588bfaf69cf, 0xf88d8aa72c1c60e, 0x4735feb3fde9d2d, 0x1e2413f3b8f23a23],
    [0xf02b8ba5bf5c1cde, 0xb40a7caf832c2e2a, 0x174b8891d918af78, 0x53a4cbf4b57d882],
    [0x559f650669d76dbd, 0x4f7fe62ea998a9f2, 0x3fe3aef1ee0a6923, 0x5e736b9e5f8a1b9],
    [0xb36ae4a85b28b5a5, 0x178fc6c0c37d2fa5, 0x9d6cb33736a0254e, 0x1e88d8b3d140ec65],
    [0x72346ab3b401b04a, 0x8362759cd955f108, 0x79a62f2647a3b51c, 0x257237c9ee699f5d],
    [0xf048e7589ddf7739, 0x5cd9b62921e27acf, 0x6cd329d20ee973c1, 0x2b6d25849d6b81e3],
    [0x25b1019c88ced146, 0x50b2f3fb778311bb, 0x420558ffa430fcab, 0x1ac7317e2e5e3011],
    [0xf7c89c837afe5b93, 0x965a5ba9807a23ce, 0x3250b61acdffacf1, 0xf3223d7e88918a3],
    [0xf1e12ac25ef00b79, 0xfe9bd4e3b8639f21, 0x8363757b1a50f443, 0x1f733faa9efa2db6],
    [0x588a09e2196efa3f, 0x819e6a92f7159986, 0xb8c33d0f52939c16, 0x8e2e6b13aa7a352],
    [0xac52c2b316b58727, 0xe263bb1c7d97b24, 0x4d527db0b69d35d5, 0x208995a721ababfb],
    [0xeb916a8af132ba1e, 0xaf85757bcf4863b3, 0x3204042dde629c18, 0x1f91d022a78f7086],
    [0x34d68b43a92e8cb0, 0xae4ed3ecb6d24fb7, 0x2d9ab87e414eb7cc, 0x63a2f4c8d518fa7],
    [0xde0f0108eb2ccf5a, 0x888ce72b9c458a9a, 0xcca5779c140c7f9e, 0x2915c64a0bf35200],
    [0xd1952e584ad5b0af, 0xddfadf26ef5c43cb, 0xeded3f7d8681d6d, 0x17a2028a54a30e4e],
    [0xb6201c18e1b56dfe, 0xe00e59b571dd9d46, 0xd95b310dec2b54e0, 0x4523bf1a8f284c6],
    [0xb21a8c4b13ee4ef5, 0x3537cc6db5dbc485, 0xfcb1d6a6711daed1, 0x2aa225f58d57ec9],
    [0xe2be7cc305eabbd4, 0x887f593d36d6ca7, 0xd5d27fe975f01132, 0x2a9a824715fb8db1],
    [0x66af75d10ab6578b, 0x12dab86a98b4870d, 0x43c1e20d96810ff9, 0x9bc4b62c4e071e],
    [0xf12d36ba07c21807, 0xdd53042e6038cf53, 0x43ef4afc9d2969ab, 0x2d7d326fb2cd64b5],
    [0xa0d37be91c269cbc, 0x5e560bf2634f4213, 0xc75382ed3843cfd7, 0x1e66dbd30fe311da],
    [0xc69891c56dc81cc7, 0xd4f67199cbca00b3, 0x651c2370fc0c0a79, 0xa6115e876e097c8],
    [0x5e24b7a8d505453b, 0xef61a5e6fcd11740, 0x5a334909b5f9271b, 0x2b4cd16c063e8d12],
    [0x3ff05e5f8be31906, 0xcd8f18e1083f82a7, 0xc62643d71daeb291, 0x19734eda61ff0dc7],
    [0x8fea4b42da18eed, 0x55a53c75a98eb907, 0xb9a424df927fb54b, 0xf44441cb1795b60],
    [0x588617ea0b71feb9, 0x16929e7b1f078652, 0xb7b870cccf69b9d7, 0x1e0b6f3e7526e310],
    [0x34eb44e3700d56b7, 0xf5418745bc418d81, 0x1cea7d9658016c9f, 0x1abfb56c8889d36a],
    [0x602ffea487fb536c, 0x1b0bdf44651b8575, 0x90a1e94d896daa60, 0x450b96e26195e42],
    [0x139f2b0f09c93231, 0x9e13c5a9b745bf38, 0x69714cc5b4e54a01, 0x75d3fba1c1f0b08],
    [0xb3c986a036fdd5c2, 0xab73294147889f73, 0xaf22ac5604b120c3, 0x22a1e5663700b7b7],
    [0x1e7805dd61d807c0, 0x2d35ebb7497d65ee, 0x6afddfcb5ba45460, 0xef19ddef71117af],
    [0x2dc13a714760e224, 0xf6344def2da90a, 0x45f02993f54c6af7, 0x293a52d85a881e38],
    [0xce1a41c2e9839cf7, 0xa7fb57dddf5f6e71, 0xb395246c750745ed, 0x10f47c70823694ad],
    [0xccd883184ae2718d, 0x7fa537c94ab7b770, 0xecb9df50b8450b57, 0x5b7b0f8a9586e0],
    [0x33142aefd1c44efa, 0xca1e4a6d0cb5b099, 0xba301e56097cb270, 0x2694639d8fd48e40],
    [0xb1a78df3b283b195, 0x5e7fcbac631d1299, 0xc4c9d8f78d2e660c, 0x2b40678245e68225],
    [0x58f4de8aa9ca5672, 0x8dda53b85ff611a6, 0xffa566b2f0256d5c, 0x88322cb02937145],
    [0x4a971d3d9fd10cd4, 0xc1a6f53c735abf1d, 0xe1acc462a8622298, 0xf5f45c91500d38f],
    [0x9591da9080b8dbfb, 0x9e19dbbde06343e5, 0x67fec80f5b3760f, 0x17af880583031ee7],
    [0xda0eb124b05c35f6, 0xf7d83392cf601d95, 0x870307d965eda53e, 0x1248c5b2d3ebd0f2],
    [0x2f378d0f8962a158, 0x6792da00142bb129, 0x9ebff1bcde742915, 0x286b506a8883d6f2],
    [0xf3273f9102b5548b, 0x541fbf72f7b43ee9, 0x83f8f72bb1c48c53, 0x2fcf9e1e6970e8b8],
    [0xd44097a446174e7b, 0x287e043d06054c78, 0x770f905e9cc5ff7e, 0x17f7f929e38a4357],
    [0x6fbda3ef61606bf5, 0x450fd42985673288, 0x3a72c7d722a129fa, 0x8326d0c8a128c07],
    [0xb6201c18e1b56dfe, 0xe00e59b571dd9d46, 0xd95b310dec2b54e0, 0x4523bf1a8f284c6],
    [0xfeec4eac0a881823, 0x7d8a95440b04a34, 0x2aec10be6bdfde07, 0x244fd94ac9d2b6a0],
    [0xe60146c1eb78757, 0xae11a66068ed5e7f, 0x12920d0403ccfce0, 0x18f0be2e75ec1ac9],
    [0xc2e74a679363edb8, 0x7cb83b06a442573, 0x1cf7f5880f13c4ff, 0x67d513ea87808ec],
    [0x449d7f0cf21fb86d, 0xd97d343a199eb1ed, 0x24a9884e2212288, 0x2fad3ebee463c805],
    [0x686f159d4e90b0ea, 0xe790cccbcdaf77f1, 0xd1e2cd797de07f3d, 0x29e2c3e0e04f7685],
    [0x4c084f8bc3f4a20b, 0x7eab04539700acc6, 0x5108ea9153bebce7, 0x10bdf28bfcacb863],
    [0xf5fd4da311e1d425, 0xd9a15d2706b259ac, 0xa94948c650f6c045, 0x10b6a895914a782a],
    [0xbaac60f254da8ffa, 0x1c21fdca7bd8988b, 0xf2cc3c96795d9683, 0x2cd506792539dbd2],
    [0xbcddc6d4828ce2d1, 0xc11dfc0e28dbc306, 0x506a87151200b468, 0xca9da7606615f15],
    [0x9a1becb7ce1f94ff, 0x82da15ba3f0f54f8, 0xb1f923102bd6ca5d, 0x20d854f50910c52a],
    [0x8dca55a598ea88bf, 0xcaa2bab8dd7f8314, 0xca53404556e6dc15, 0x10de4900ee8ec243],
    [0xc8b469aefbc69b75, 0x22caf387f9f08980, 0x82542278e4e4b2c9, 0x1b6a8eb28c126c86],
    [0x793cbc1dce9d250a, 0x616f2209454b5d1, 0x1e1bfd56cd88f9fa, 0xc2a3124091527d2],
    [0xc74a5612aff8c7f6, 0x5187aedea146de6e, 0x44d017acc5fcf08c, 0x1d4744f598a2e981],
    [0xfe38e9da27dea1e, 0xbcbc554fa7c2418e, 0xcdd83f9ac4490b76, 0xbd79ea1a224987c],
    [0x92c0986882e57107, 0x79ae3c0971658fb7, 0x7567e6acc20cca71, 0x2405592dc81a66a1],
    [0x4770dde9bd38d3ff, 0xbc8a8416db391d4c, 0x107450c0fae64d03, 0x14f497a9e8110eec],
    [0x95ff20a0df7a5bfc, 0x8adbdd9daadfca81, 0x152c5ef9cd004656, 0x29f8bb3529da3fe6],
    [0x57f713b118a5fb87, 0x2e3ff50c62b6342e, 0xb9cde88cbe9da3f7, 0x2a032300fc92bf19],
    [0xf36e0886c16c3df4, 0xd8327abd4588f619, 0xd5ec2ac01fb09ce, 0x1b59a7709a531a65],
    [0x1c889ea5049fb5c, 0x85e421d5663bcb4c, 0x61ccbc321771ef6f, 0x1fc0a3436f100a4d],
    [0x6a176c8a00910d22, 0x269eddceebb9129b, 0x434a8fe7037b041c, 0xe9acd5d917d4160],
    [0xe93274b717d02844, 0xddb645bbcd692863, 0x6abab4268b3d6342, 0x196cc8a225f2c298],
    [0x38c05221381d4aed, 0x28559190d486f040, 0x913d1c0b45087f5a, 0x11459356b20c2ca8],
    [0x75a45398034d64e3, 0x80ddff5c250f0f63, 0xc0688608c095a86f, 0x25e96c07ab87f3f5],
    [0xae0b7adef18f0250, 0xefeb969cccb08c33, 0xaee3a3d097d799e9, 0x15d58252815ac471],
    [0xf147a3cfeec10387, 0x2276f87701537434, 0xde21f23c3949c39c, 0x6546b3b7f85042f],
    [0x7553be7b2dd65678, 0x9c8d5997bc3121a1, 0xf11798a00cc0c861, 0x1e2aa3704b080c4c],
    [0xb6201c18e1b56dfe, 0xe00e59b571dd9d46, 0xd95b310dec2b54e0, 0x4523bf1a8f284c6],
    [0x87660295ecea8d03, 0xa1f95084f2716e55, 0xe7fc01338211f4fa, 0x19e24f5e120e53bf],
    [0xc272f70d41682844, 0x940bc0d682f1770f, 0x2960841bfecc4bf5, 0x2ff252a61572b7b9],
    [0xf0e7c4f220c98647, 0x50b784fdf8cd4d1e, 0xd940ae87979d5ddf, 0x2b9ce87d63d943af],
    [0x551fbeebb865fc2f, 0x4f5a4fba59146a97, 0x81f11e2b22a59136, 0x18eef6bbabd4d2a5],
    [0x4681ae8a71f9ed65, 0x3d3acca1867d359d, 0xe2f1929f16f00fe5, 0x1b094af27259dae5],
    [0x9ccfea9729d89435, 0x7f3bc7b52959d026, 0x573d8002c5395906, 0x2f2fb2e00ecc111f],
    [0xa65faa0a608b71f6, 0xf7db07039d3750f3, 0xe76fa65b19b9b9ff, 0x48c4f81825c5584],
    [0xfaaa5db7a0c8a92a, 0xfa5dc65bb2665e58, 0x5f5998c77a52710d, 0x20be19e025ea25f8],
];

/// Part 4 of the sparse partial-round rows for width 15, as little-endian limbs.
pub const S_DATA_4: [[u64; 4]; 256] = [
    [0x4041618593aaf5f7, 0xd87677e8e64df3f4, 0x54e3f7fe45ece6ad, 0x222a05083d241057],
    [0xba36f8368ea16825, 0xde039b1e442c1c92, 0xcb03dd0e1130100d, 0x14f3d89c38b0249a],
    [0x87798aa1e97967d5, 0xcff4eb1c0aeccc11, 0x7e18db6ce06e1308, 0x13667b7bba6c07aa],
    [0xd66e8f2ec739e1a, 0x974f5acd1f790d59, 0x87bc65d2a2bd5ad0, 0x2bc234f4828ddcf5],
    [0xfbc23b2c9066a9bd, 0x2ece3b3eb9fcd77c, 0x94f8f6a7f7a92936, 0x21464644fa0fb224],
    [0x1d867b75b844fbdb, 0x740c0b7b37ebc4c6, 0x455b407b32c8bc2c, 0x8b65df38447cc47],
    [0x3d07b41a40b5b701, 0x1eff0f26588d7485, 0x5ce0da45601e0a5, 0x2369e1c199639bc5],
    [0xd54cd43e190c5e6c, 0x24b4cfa4d62faeeb, 0x6f8303896f959d2b, 0x199051763385672f],
    [0xe22318f8c8b5dda2, 0x2dc788a8b0d37063, 0xb6da288cb5a75fe6, 0x201ac20d62b94056],
    [0x69d1c11a2cbdce5d, 0xec471fa1a04e899, 0x7094ab6e91a5ef4e, 0x18157f398ab7dfe7],
    [0x7478545a21fd721b, 0x43325864e9e90a92, 0x7e2a79f099a48d7, 0xf33f8f6546777c5],
    [0xcc3348424e2fbaf9, 0x16dafd344ffa9431, 0x873e7674c6f3df0e, 0x23703db4b584d2c4],
    [0x7dfbc3da3c5be895, 0xe7f08a5caaf87391, 0xa5e7d0a9b8797953, 0x4501063364805e7],
    [0xda7b450c7625d243, 0xac7f460172477dbe, 0x7bfb16497f56a979, 0x2ea0b23d55d50d90],
    [0xbd8aa546275e3075, 0x54402b6fcbb0f4b8, 0x51a0613004e9614a, 0x68dadf39001f91f],
    [0xde2b374177333aeb, 0xd8c341565d138e, 0x9bf6c6ac8a980e21, 0x241c7eecc6aa3971],
    [0xb39daa3479a29b27, 0xcea38c935d75fdf8, 0x6d9e5878bc54cdd9, 0xbb9576b315160e],
    [0xdec4b9f93bf05322, 0xf4c59a49a27e193e, 0x50cacca315c66218, 0x202599b284bf67ea],
    [0x114857cbff9b9d3a, 0x48c3196d1d551ecd, 0x35667f8315e5412c, 0x170070a071a86486],
    [0x2461d5dcaa40d2eb, 0xca6d36f004a559bd, 0x3563549979b9e27, 0x302e841876fe6599],
    [0xb6201c18e1b56dfe, 0xe00e59b571dd9d46, 0xd95b310dec2b54e0, 0x4523bf1a8f284c6],
    [0xe56885fba0c2ef3b, 0xa6c9e04a17f64bc0, 0x117fbad7b53c6b02, 0x2731f1ac5dc030ec],
    [0x824f2b02f50a48ae, 0xa23bd32146d7eaa, 0xa28f620f990800bf, 0x8e4443070b7fcb1],
    [0x150eb71932972e5a, 0x3909753f86582c57, 0xee132c68b1ceb357, 0x7f1ea73f15d8be5],
    [0x9fa2588c462320c, 0xf7756641131a1ad1, 0xb248a7d4fc2461d, 0x5d68802b26f0b52],
    [0x60e52cabbfca8101, 0x16db1e716bd8bef9, 0xdd15a83d5ef9eb72, 0x2c6db9f72cad44c3],
    [0xc7d3eedaac0b16f8, 0x78e08643d7bbf706, 0xe1b2653e98f899a3, 0x26365d95008667a1],
    [0xda0aa5994f7cc2ba, 0x727ad6da454f909d, 0xb8413b1b0c85065f, 0x52ff974b2d04537],
    [0x1b60668382810327, 0xe7160cf3c07c7b27, 0x7470aae4cd88672, 0x2b769645daa19e2b],
    [0x640514547dbae38e, 0x86dc4cf24367139c, 0x294efa08376a37c3, 0x25f56a0ae50d333f],
    [0x9a5a094ab7c53dc, 0x236ecb76e7db136a, 0x58b838af6357d865, 0x2f2d49b2a257d8aa],
    [0xeaa2c6fd73d6a626, 0x31b2e801e6afb149, 0x5d0bf2c60c5df0b, 0x2b173636674e54aa],
    [0x7053755207c44037, 0x680a19cde030d868, 0xe7373a7392264e7d, 0x2eb41bfb627052e1],
    [0xbdfa1a8f54b986d2, 0x1c2983145ac405ce, 0x249cf50f8b6c7851, 0x1841952650b7215b],
    [0x33ec9c5a8f7bce2c, 0x69db854d701d76a2, 0x4ce139b103980e05, 0x16569fbfaa5e330f],
    [0xd18a130222a9e611, 0x172e245ce529234e, 0x3d7ce20dd30c22aa, 0x60c71281c4ed3a2],
    [0x806be2140f5c7786, 0xc798e1110c99fe9d, 0x580be7b8a5c43aed, 0xecd53722d116536],
    [0xf03e95b9a18dca64, 0x3fce7f5444387652, 0xcd02d2447613d503, 0x213c0693e38ab9e0],
    [0x9d9e9bd71f978f85, 0xf4554580a5a067f, 0x61da9582961e239c, 0x772d0faa6c722c8],
    [0x62a2bb34806e4b0d, 0xb58d4ea37d309f60, 0xd14f4fb9ecd06681, 0x139feacf69de1ee3],
    [0x3c5f34061299da94, 0xf04c9301927aef11, 0xf0d39ba065449a7f, 0xfdcd35d68b9a0a9],
    [0x542be8bca82c5e23, 0x3734797d489cbe94, 0xa551894f5dc8e14f, 0x125be84a276a6acb],
    [0x33ccd9877913370c, 0x820686caaddb53f1, 0x5018dda75806ee34, 0x2be65bd8dbfe8d43],
    [0xbad37052d59d3bf4, 0x685987727ca21484, 0x2d74b17aba71d620, 0x78ee87a14ac262c],
    [0x3624a58ba52abab9, 0x8c36fc04ad3f1211, 0x777ec8be74d494ec, 0xdff2aa73f9fc438],
    [0xf705d136fc05ae60, 0x7ed45e2162403c5f, 0x294d116b0308981e, 0x282f6e2312ac752d],
    [0x23d095df767b68d6, 0x63cd918d53ba444d, 0x9a272d6b667c740e, 0x2791a0a3c213582e],
    [0x3c92e0a8a1319ac0, 0xc8f104b0154533af, 0xc784384715356f69, 0x17477c566355c80f],
    [0xe0ed7a0cf58d6c1f, 0x82e90f3b38ecd5d8, 0x60135431a9b44269, 0x2fe67e79a8073150],
    [0xb6201c18e1b56dfe, 0xe00e59b571dd9d46, 0xd95b310dec2b54e0, 0x4523bf1a8f284c6],
    [0x65e2c60b5b2e7bff, 0x3f8a79a64f3330d1, 0x9059c20c0fc70a5f, 0x957903e40cf231],
    [0xb073471c8367a3cc, 0xd5b476717bd26b47, 0x5327c6d487e32997, 0xfc99ae6ab7944],
    [0x228cdacd2e42549d, 0x62249389094019af, 0xfeccd09ff80e9ee1, 0x2962bbf10efd8a8e],
    [0x79ca3079fddab520, 0x584216d5be8a42c, 0xd87eddd74f8705c8, 0x25a909692ae443ab],
    [0xe925de97750ad5fb, 0x71c4ac39d27e222b, 0xbb68d7239dfcfd52, 0x1c0e8c1b8bdcb489],
    [0xe7291f020f2c35ab, 0x8c91cc967d20d72d, 0x4c070eb3e71285d, 0xba6ee96962c66ec],
    [0x556f7c98d64c0d5a, 0xb14cd796ba829328, 0x7d499320e3bd270d, 0xcba1238e9ce747c],
    [0x5361ea734f970295, 0x3cd65da7c97f642b, 0x6d068751efdd6cbc, 0xc875635083ed697],
    [0x629efa99a6a7e57, 0x75788ed4beb16dcb, 0x6c4d10fc5ab12287, 0x1697dcd735de9b17],
    [0xe259df395bebf2d8, 0xcf0824afe8eae41, 0x89aaf00f2e2cad48, 0x244cf5956b0289a7],
    [0xa1f913646d38babf, 0x20e12e4f0a82fa89, 0x1045c5245bd3bcf7, 0x206c3705f63d7b87],
    [0xad7b42c4ecd13205, 0x2ca9b1d541897d51, 0x5522f5eb670ce45, 0x20b58ed4e80e8683],
    [0x1188bcd3861d6c2c, 0x12ce06e7596aa97a, 0x621db85a37f69f57, 0xaf72e95de70f64d],
    [0xd59d5c7c5211d773, 0x5c3d0cfae188b5f3, 0x280869c3ef38eee2, 0x1c1d15ca4b3e0508],
    [0x7e93c8a3f30a9207, 0xaec05452b6b8c1a1, 0x27df09ffc20ec563, 0x4af306d94e8e366],
    [0xf519d7f2c71461ca, 0x90426adae165002d, 0xa232e40024bc6da3, 0x2f697c34b59c559a],
    [0x3c69e6629895dcd5, 0x178a7d03f6fbf5df, 0xd196dd9a7a136401, 0x8a7299528acfb65],
    [0x5364e171302b4780, 0x80248592ccf3d65, 0xbe38e2d0fd3addb1, 0x221f628204240732],
    [0x749be041dac49088, 0x2796986113ba1d80, 0xb7938b4f8812be58, 0x2b4a05f00a373b8f],
    [0xf08bad9078b2a23d, 0x67073d738f31b93f, 0x7bbd25defd5c0fcd, 0x16d94da79927c24b],
    [0xa233a0319d1bd21d, 0x3463d4afcebadf59, 0x9a070a63f86c465e, 0xb536adba2330baa],
    [0xaa38a25958cf1784, 0xce3615e2575ee4ba, 0x74521bd0470a9cdc, 0x1c57a599441a0b14],
    [0xfa16ba9941421c60, 0x7e979a23d8f1d426, 0xeaebf3a571fa1480, 0x1f13db4a9d7ce5fd],
    [0xcee67a06b11d9859, 0x1321538cf59af3a2, 0x9d909cfae1c405f1, 0x12b527cd8c1fe08e],
    [0x13a7b06f07fff95, 0x4c15529c61d4debb, 0xdb0c30125e48be34, 0x1f2c0fb5f11e6d74],
    [0xff2284ccb7fb1d01, 0x1a47d8616892608e, 0x348dd5f02ca53ceb, 0x1352f4a6320fb513],
    [0xa5b4a37d489f8e5c, 0xd5122c9aa490e36b, 0xae7613a9b5403759, 0x146dfeab263219dc],
    [0x216dc302d776680e, 0xef5d63e3a12edccc, 0xfe0d876478e3682f, 0x1edaf73615e187ef],
    [0xb6201c18e1b56dfe, 0xe00e59b571dd9d46, 0xd95b310dec2b54e0, 0x4523bf1a8f284c6],
    [0x63955666a8f57189, 0xf956de3f4b376c39, 0x4d40b2b6e86e2218, 0x1c28442722fb49d4],
    [0x266e66cb0585a67a, 0x23d8d20ec60727d9, 0x75cd16e899d1c9d9, 0x20e9e5c1b5d8cae4],
    [0x1e1b695b4b5267f2, 0x11ea011b5ad23e96, 0xea3d05bcc648b8f5, 0x2f8dfa1f54af676e],
    [0x64ca9050ae43633e, 0x8b911f613d6b0e5d, 0x23753d3d22f965ad, 0x1a1a5037e57e4ae7],
    [0xc4f8e96635059529, 0xa9be471ccd5c3eb0, 0xd73ca8f7e2963564, 0x1ba983e3c28f6398],
    [0x6d647bfa700688ff, 0x36057c89f10d4618, 0xf86702e54888304e, 0xd4adfe4a7dfeb3c],
    [0x9cf70e53c069e6be, 0x6c9e4aaf131b4778, 0x5dec4b44aaca007e, 0x15c0166eea20cd70],
    [0xa4abf43793fe0e5b, 0x8012b6555b08cb2, 0x4433c969943e5340, 0xceafabeda1dca81],
    [0xc763d2fb643fbc76, 0xeead9d43a9414023, 0x7c36e540f4c70a5e, 0xbd15d8a31cbfbdb],
    [0x2d878fcaffaedc75, 0x2eef17254a52602, 0x6bffec7c7ee15eab, 0x17b69dff9f9dfdbf],
    [0x1e9942b46307b763, 0x9e1e48aa945dffdc, 0x6375cb725ad46906, 0x272fe422dd56f28e],
    [0x3845ad572ed1816e, 0xa7a3e7ce326b8c99, 0xf051000a36a2c949, 0x27d2db5651e5293f],
    [0xdc4a518f42b6ddb9, 0xfe3ea06a7db58680, 0xe6f5f5e6e60bad5b, 0xe83466c2741c36f],
    [0xd5dae4cb75990486, 0xf7d3985034c617d9, 0x2c53c18137e918d8, 0x1b97b0489274a591],
    [0x31616ad9096aa157, 0x61641e4a25ab1e88, 0x8884bf237a58efd3, 0x8b09b027647befc],
    [0x4283652b1911bfc2, 0xb10854721e453329, 0x720c57a7636285c4, 0x22f46a0157b70196],
    [0xbd718e72d8709a53, 0x18e77ae6d779789, 0x6bc8dae8d07335ad, 0x2f1f803aa4a96a29],
    [0x976382cc712d981c, 0xb5bf8cb1c7afbbb6, 0xfddb5fb4179140e4, 0x2245e61dfb52be01],
    [0x7d052a8d50307c4, 0xc440692fe4b48861, 0xd1a889953b716d95, 0x1683f9bd4b791410],
    [0xe5aef58d09b653a1, 0x355560f07b7745a4, 0xa080e21e4d275db8, 0x242e864ffee30fe0],
    [0xc82c104c38b3e8e8, 0x4a0cc9612c335cdc, 0xc93a42e06b18be5b, 0x1eb483efd8310203],
    [0x2b61ce3cf99f6503, 0x337c0991c27faeed, 0x6ef162eae01f0a53, 0xa5b1b4c8982984b],
    [0x5a0cbcfa8e316724, 0x24a4f4837d0b024d, 0x8e34f70db38cd601, 0x10c25a14e51fd3df],
    [0xcdc1c66ba5336c29, 0xcf5fda3659cc82c8, 0x4dd5a760f4215644, 0x17e9f3efea4275ce],
    [0xe0d6c0c566070ca5, 0x5f6d747365325250, 0xa692755b3313ada0, 0x25c1bfc4e679b3b3],
    [0xa842abf2633d4715, 0x648150d1f297247e, 0xe677bcb161d9d760, 0x1356277171f1d2a2],
    [0x829c0eee980d246f, 0xa820dd994d63ab25, 0x708695594610fc99, 0x28aab6b87f9f0f8c],
    [0xb8b6d5d35ae06e88, 0x434ca7c84ee346a5, 0xb3ee550cf30cdebe, 0x148d7520ea0a3d7a],
    [0xb6201c18e1b56dfe, 0xe00e59b571dd9d46, 0xd95b310dec2b54e0, 0x4523bf1a8f284c6],
    [0x2939eb24ce5d6d29, 0xe23175002d1f0200, 0xd3c5d0d5d051f71d, 0x24170fadfbcf05e5],
    [0x947e543553b25e50, 0xff03ab25af7db467, 0x3ba302262531a6d8, 0x29491e9171d578c0],
    [0x1c5996e8e42879e0, 0xb46066effdfbb50a, 0x3eb10f10666a7540, 0x10acd03b983a457e],
    [0xf288024ebd9e6c78, 0x2ebfde77a2aafa84, 0x7cc2170f99813251, 0x1fb89a866bed5ce8],
    [0x2f3242c9fdea3cb6, 0xdbc454bef88b1699, 0xa0755da7626c0cb7, 0xd98b830d880dad4],
    [0xbb4b9407af705880, 0xa5a59f53f083731, 0x161d471195f06bb2, 0x1c0d9302769b138d],
    [0xe0f8c6edc3c1e7e7, 0x765abb952375055, 0x601a51ce60185e77, 0x299bbd2c9b64bffc],
    [0x6c4f65670b8a2581, 0x38fa2745d68bf99e, 0xb69b92c5a82ddef5, 0x1e3e012a3a23cc56],
    [0x394cd7a9c65ec766, 0xe7e60fc4817f92d6, 0xba59b35af723c3c1, 0x11f5e20407ee480f],
    [0xe9cbfe08819ca686, 0x6617919993bff2a9, 0x1705a60fc4f5d51c, 0x26d3be3bd30f2913],
    [0xe0efd05aaf3e3647, 0x3f91f4853166006, 0x9844e650ccc01ada, 0x2b29ffafe79893a8],
    [0xec747ad9a67e8a08, 0x1ae1f63e80ea0473, 0x25c86ff0062102ea, 0x1fbe32c5de07b6d6],
    [0xbb196603835715c4, 0x759b92a7dd422d2, 0xc2dc23d8ae527015, 0x24e36875d9f11a3f],
    [0xb39b17485e965a37, 0x5e2429576894dcfc, 0x3ea1a15b6a534398, 0x1859e0cdd36899ba],
    [0xc478609b094952c8, 0xcb32e17ed0a8ecdd, 0x850dd85825f5ea80, 0x2e823c343fa815b8],
    [0x4d7b17c6f4348d0d, 0xdf669ef25691627c, 0xd19c32a000a7df0f, 0x27ae666b5dbc3dc0],
    [0xf2ab876eab1ebfd2, 0x947afdd3fb1d0e5b, 0xb784b222b2bb8d4e, 0x13d3988c983fcb3c],
    [0xe7776167a51779a9, 0x62f11d4ce7ebe370, 0xc54ebeee9ae37eaf, 0x26055ed2f7cfe90b],
    [0xa1790b91cc6c5888, 0x2a5274613a5ce191, 0xcb8ca67fc2cdab2c, 0x187a3031170f0e0c],
    [0x3a23aeddefffe055, 0x8b5a6fbfacad6259, 0x4a633285c945772, 0x979a5a4f896cec8],
    [0xa5e6c60f88e31c6, 0xab2933a6868d3372, 0xd929abf715dcbda7, 0x17a9aad3bfa4cd25],
    [0xe076c08b307add00, 0x52b46205d2ae7109, 0x7590c37385cb1a0b, 0x51192a624e65c0f],
    [0xa9fd35ca622fe7b1, 0x5fbac37769c3275e, 0xe5e58952f28d543, 0x2aa14feee17ac670],
    [0x60b4dd240d83b536, 0x8a57098c9cf5c158, 0x673f3c57801bbb6f, 0x354581b4a29a9ad],
    [0x9e53030e06cfe36c, 0xa4f7d772795ddcba, 0xa4257fadea084078, 0x23bf29c02d8d818d],
    [0x931af5a3a241390c, 0x5547e48685afb804, 0xd001f330069b05b7, 0x209923e9cc079197],
    [0xfd992acb22ae6773, 0xb820669ef7d7c1c7, 0x67ea8d06bf03ae83, 0x6d614256aa7a08f],
    [0x54ef83a1f30a429b, 0x9b892b8ecd3b6af7, 0x4c8e23277571bd9f, 0x1131b48492673e47],
    [0xb6201c18e1b56dfe, 0xe00e59b571dd9d46, 0xd95b310dec2b54e0, 0x4523bf1a8f284c6],
    [0xbcc8ae3c35d9e748, 0xacc7c5d35694a795, 0x72bc3042ca7ba8b9, 0x17ff3c20af33dcd1],
    [0x9f0dc3c475802c39, 0x7c4a021056f88b7, 0xf6761b6b0494d484, 0x273eca5bc74073b2],
    [0x5436bedbfa6f9d91, 0xc21435e8ff3f3490, 0x27d39b301de82e8c, 0x24edf79bc35300c7],
    [0x1ef3099aeb2047ac, 0x6fcea63e3ed9b1ff, 0x45127c61ecc8afd6, 0x2cb3232131a5d861],
    [0x101710a4fceef13c, 0x75bdb25505cc998a, 0xa90651f6e1a4b361, 0x1ea49fb0e46edcc3],
    [0x62ee678a008a594e, 0xa293d11ce3059b55, 0x116e1d43c523a36e, 0x1e40d394feff0707],
    [0x3a93f36e48c63bee, 0x745eb540cba49862, 0x132a54698b09e844, 0xfe47524266480df],
    [0x3672d6c185422980, 0xe699b352814ae025, 0x1156dcc68358318c, 0x1f113b5d7c4a3e1f],
    [0x9e689c488bc416f2, 0xa51b3750672eab8a, 0xcebbc2f4ce523b9, 0x1aed347277640a0a],
    [0x644460a72a1f32e3, 0xbb56339ef9cbdcb9, 0x84a8d77b701e23df, 0x1ef98e57380c6a80],
    [0x3229f185336cd356, 0x1a058cf0889354e6, 0x4cc7147cc125baa1, 0x297ab0678798b06a],
    [0x3334883b438a2097, 0x7e6ad4b475e249fd, 0x811aa6575c60409c, 0xee54e4f901531d3],
    [0x2aaafc3b6f11deef, 0x85e6e412cf177f86, 0x210e078d4824d0d3, 0x1b9b0f52375f34b4],
    [0xb57bf8b1ec408458, 0xd428567bd98761ec, 0x586ce9c03ba90555, 0x261fe98c4a6882bf],
    [0x81ee02ed4f3e8134, 0x8acf6655eca805b8, 0xfe9b326c166870f9, 0x28d8a46abca186e9],
    [0xde5bf9d33974f232, 0xeadc58f522abf010, 0x80485ac0feb277b1, 0x4da6035fa7dd899],
    [0xef3e3394ef369b88, 0x992acf40d0c4da20, 0xc20ab5bc4d39eb39, 0x1a9738d1389ca170],
    [0xc64031c4c0166274, 0x321b974c93a2779c, 0x9bf1421cf0e03a90, 0x183dd4932830f3f2],
    [0x300741ca61d61a3f, 0xf5ce472f21a1888f, 0xa1e3163ca39d400c, 0x1daefa57c81865e8],
    [0x5c53596a6ac5b13f, 0x247b3825a8f4e89e, 0x5f8499fe9f76fd2f, 0x2ae49d27bf8dae3b],
    [0xf34c0e88becd87b0, 0xc728ea07dc7eff26, 0xdec4ee2a43760006, 0x9063107e2a28ad8],
    [0x52dae62b60badfff, 0x53b27bf18d3f2405, 0xae36e52db2442140, 0x327db09f5185889],
    [0xfc1be98399c734fd, 0xc35cafe6bd28c5d, 0xd70cfe843f37956d, 0x6e61b73f704a3c],
    [0x8adba0d0d7478fb, 0x300ea3bf0597b52f, 0xc175bce4f3add547, 0x484994555a799cb],
    [0x704e3e52e393a7c9, 0x3e61040cc4c28250, 0x65bbe5ae68fb4bfd, 0x1509af8f777631bb],
    [0xf336430ca6bd5f34, 0x686eddc63235292f, 0xed722eb34a878e32, 0x2502148be563d2db],
    [0x65fe9539daa129fc, 0x9345e0609e4596fe, 0x7716e4e65ea8dc03, 0xa90580e65127174],
    [0x269da8036a1173bc, 0x1f4b244dccfe1a75, 0xe28c7401ed661275, 0x1268ac93435ddc3d],
    [0xb6201c18e1b56dfe, 0xe00e59b571dd9d46, 0xd95b310dec2b54e0, 0x4523bf1a8f284c6],
    [0xc8d87e247a6fdb45, 0x755ef59eed4b716f, 0xeb7ccff2f4be6dad, 0x11aa913289660f7d],
    [0x8614d450b54c15ff, 0xe22b7566508e1b74, 0xdcdd6139bec5eb95, 0x29e72a16e4534eaf],
    [0xfb4c3459f036c58c, 0x1f35f09abb1686e2, 0x1d3dcd38ce132857, 0x1a958e6a0b1a339f],
    [0xc50dbfeed2532eac, 0xa673eb4734b2f1e6, 0x4d73bfaa8049dd98, 0x2ed8337208e41074],
    [0x2b59ea34fa974bef, 0x216ba9c13e001000, 0xb922b18954b3ec12, 0x29377f640a7f6f76],
    [0x2da2ec887e9bc4cd, 0x9a943bd5ec7fc764, 0xaf8d43dbeb2f146c, 0x23454f27137134b9],
    [0xc98b592470b0ee5a, 0xc72a3c902f9130ed, 0xda949b4db4754061, 0x209816b4da19597e],
    [0xce7de2b5fa23a43b, 0xf5efc23a07e62a16, 0xa155e42b2e51678c, 0xc1eae8b0bf925b0],
    [0xac96bab6e4da91b6, 0x75c4eccc6a2115c2, 0x41a874adaa71edac, 0x86f81d19a31671e],
    [0x61a7e28bd24392ce, 0x2ea3338153ff37de, 0x4f94db0e32883739, 0x4c599ac0280aed8],
    [0x8017efd00693ae0b, 0x92a3250e5cb1b81c, 0x51ea53bd7bc59c1d, 0x2c4b7cb11e988d54],
    [0xb28cdaed5fcb8f32, 0xc4fc366332e67dca, 0x43b48670b79a409, 0x20b49fc26af7d51f],
    [0xf2169986b31a754e, 0xd1f3605a9f4e52fd, 0x614ff1cc2a46234d, 0x2b2de9914033de3d],
    [0xd7b789c1a200e832, 0xff098249bca89b2, 0xabbe22dedd043c67, 0x2a0a9aedae2ddb9e],
    [0x7f6b724ba2156685, 0x7efee1f38764e41, 0xc5703ad867d374a9, 0x78bbcc544330029],
    [0xe43545704f0c4bde, 0xdd82aa951ebd9b2f, 0x5c9e227e865d0a8a, 0x27f2b059159be595],
    [0x96a989c97df7843, 0xb721dc31e16763cc, 0xd872120c307bde17, 0x7a6c429e1100125],
    [0x5d096516581d4090, 0xae2263875b83e5c6, 0x913f708e8d4321e9, 0x10424964905ef646],
    [0x66d791e9030e04a7, 0x975fa8343dc00260, 0xa0376b93aef9a02, 0x2c33aae7d921d4b9],
    [0x9568820e02459b4d, 0x913813bbe616c9ef, 0xb4288fbdba3df682, 0x1232983e555c7d4b],
    [0x1d836d3467816c0b, 0x62a26e2a4546f51b, 0x4fe8e006beeebb31, 0x1ab5023e5ffbea8d],
    [0xdbe8c35fab2116dc, 0x854e65775fdc1f5d, 0xceacff9339451b84, 0x1cbda131f20b33eb],
    [0x39e23b6605c023a5, 0xd953323a30934ab4, 0x61cab18e78692a17, 0x2ba0bb8404000f73],
    [0x7973f25cc7fb482c, 0x591bebe233c526a6, 0x6e0e4af43e63b089, 0x35fa0580ae06fc9],
    [0xd6d0588a317c6d8b, 0x8bf131abf19d3c13, 0x6e6e23f8f3b26f05, 0x70babb38665a354],
    [0x11aa978bc181849e, 0xe0b7919b6ca5e188, 0xe9ea28b89a62ceeb, 0xb642882c1295343],
    [0x3cadf22ab44b5914, 0x215aefc646f545d6, 0xeea1f66f891c80fc, 0xc68a36f6df8c27d],
    [0x15c4e2f88d2c65dc, 0xa2a14052de80edcd, 0x7be1363d97207014, 0x66489b3cc989e80],
    [0xb6201c18e1b56dfe, 0xe00e59b571dd9d46, 0xd95b310dec2b54e0, 0x4523bf1a8f284c6],
    [0x5df85d8153e8e1b, 0x18f4cc5e49b3d154, 0xee22a0189f28e107, 0x1026e6257b43e0af],
    [0x4e87b5522418aec8, 0x51028c847b8a4516, 0xd95694ddb3a1ba7f, 0x3947588e943dfdb],
    [0x3b7557787120cb1a, 0xae4ac6f9ad1998b8, 0xfde288ea50405ca6, 0x1b1cb2c496ae764b],
    [0x24e3d5d80ac0c38b, 0xbc59fa8c4046f9d0, 0x4f3742aaac6b8fc5, 0x24fa4f9ef707a77f],
    [0xdd87922777ff10fd, 0xe4207f617895fa46, 0xbc8d0d144c062711, 0x21dca28d7160687f],
    [0xa7faeda1da62b3a7, 0x8286405a38705273, 0x19e1a76ba6b2cd6b, 0x82cd14685bc3b32],
    [0x9f0fe916df073c4a, 0x205a623a3f0fe1d7, 0x742b8e84fe502cf5, 0x288c7734ce6cf001],
    [0xa044bd8ebc416714, 0x7603096f9865f983, 0x6d175b804c4655da, 0xcbeaf576571ebb8],
    [0xdbc9eab409ae7383, 0xe31e4cb6ef8610c6, 0x8e83df64b50b5ff1, 0x257aece5dd9d7be0],
    [0x7ef769555ad5363d, 0x378d1f69d782058f, 0xaba8a9fa9d31f995, 0x178df36af677df81],
    [0xf6e1e975e96d5bed, 0xe934531ba20b7e89, 0x85014312d379ae5a, 0x889c87f38b02446],
    [0x5115b647caf3102b, 0xb9da404cb45de928, 0x474f7cd98e7d0e3e, 0x28898ecb6a12d999],
    [0xe90dcef61032604, 0x371ff52bcb64753b, 0xc317f6eb88b72ba9, 0x1544b607ee25873c],
    [0x5ad4046f1b29a87d, 0x643d9a78fb6a6f69, 0x635ba61ae3be32eb, 0x30b741264c73950],
    [0x43fb1e6c4ce154f9, 0x615053caf4d2ccc1, 0x995ce20ebee9f1cf, 0x25052d3381e118c1],
    [0x13ddd6ed40de0aa, 0x35e430f0c77a2313, 0x35b8e8bd925f2443, 0x2f30bea892f8f2b3],
    [0xbdc1c4b7a2234989, 0xa75d2548296268d7, 0x8e5b1aea32a2d0ea, 0xb0d65fa768e06aa],
    [0x94dabd98b873fe27, 0x77928229ed8e30ce, 0xc1a7d8cea18580c5, 0x1fa1a1014ba36436],
    [0xe9fb89f7839150a5, 0xc7ec633f32e726ad, 0xfffbf89757d52692, 0x301c506433828ecc],
    [0x1602bef10d3428ee, 0x811751558a06207a, 0xd4dfbb0c4d590669, 0x154a7110569dce2],
    [0xc57aaf210355a84b, 0x7d7a23e25678d1f, 0x840612d1cfdec894, 0x2f27c0dd673d6353],
    [0xc2eb7a4e48d3c5ad, 0x10c7d1cc5d103b48, 0xdd3956fb83e18907, 0x48683bcd4388885],
    [0xa6c96ab29c08908b, 0x33d1683aa8ad9508, 0xee9afe8dfa7f1630, 0x151c3648a02ad924],
    [0xfe59a7e4605eaec5, 0xe571486eda83f0c0, 0xa80bbda03d2fce92, 0x14baa70addf9eba4],
    [0x9c089fef7a030e4d, 0x444d8211c71f82a7, 0xed976b62ed34d972, 0xba6cd972cbb3905],
    [0xb4f44ee166c44018, 0x791bab92c10215d5, 0x97b0dcf9e7142c4d, 0x25adc9138d823eee],
    [0x9c442efb895b7744, 0xda3ab4b5cad5aa3c, 0x20cdac6c53e67640, 0xf0416997a418d2a],
    [0xb7da7c775f0a417f, 0xd987eda0525879d1, 0xfd95028c6372a304, 0x1dc3e4e5d9f2e587],
    [0xb6201c18e1b56dfe, 0xe00e59b571dd9d46, 0xd95b310dec2b54e0, 0x4523bf1a8f284c6],
    [0x8e6b0ab419a7b247, 0x9ce94f525301e885, 0x9ef314cb06a96f92, 0xcdacd248084fbe7],
    [0x2ce8882e609eef99, 0x8219c6e428e82f45, 0xb2000538e00a7dcc, 0x28765df4d0b75915],
    [0xe29a8625a334fe8e, 0xdc0c332258a65ca6, 0x7a051cb7235c8bf0, 0xe81a5592eedab51],
    [0x6a3c2310f01b2b4, 0xd57f18a7f8e9800e, 0xe4d1b38425883f54, 0x88c064bf7c553c7],
    [0xc22e21d444fa49f2, 0xfe913f3222c7149c, 0xf01a3c93fe035e9, 0x1d24333468728c03],
    [0xb2788391a6b2addf, 0xf0c6b323e2a8e406, 0xd16d5d9df406a063, 0x81e4d01326c4596],
    [0x25e33c33732ab311, 0xb1d36199bd4ea461, 0x6a2d8bd72c9402a3, 0x352a5a0fac781a1],
    [0x5e0ffc437760fbbc, 0x53df1b3c076275c9, 0xf23f6e22fc19fad7, 0x26618bc0fd81464],
    [0xd661614d65a52193, 0x4609e7a7fdb2ab40, 0x1be94ba0f8016e38, 0x228b70124680c99],
    [0x72c7901b900a4a0, 0x98bfc7d47dd47106, 0x50347297a3525a61, 0x1d0ba067834fa54b],
    [0x9d07710010a1df0a, 0x96be45005df9c9fc, 0xc6b343a57a66867f, 0x196b16b4a3f2641c],
    [0x8ed6048fbc47aeb0, 0xa73f4f60b52227eb, 0xbd348b093d94e075, 0x2f45695ff148cac7],
    [0xc9cbd8e72e69063e, 0xb657db2944dd6cc5, 0xa1bc152dd82b4889, 0xe93289c741402a],
    [0x3d2fe428ae7a8db2, 0xd0a9d37a4b67d483, 0xe9f5ad2d298dc60d, 0x123380ecc6c09da5],
    [0xfff7bef4309c7187, 0x8f1ca939207b6b0b, 0xe1b0bfae68a76df1, 0x883e804219d5edf],
    [0xb20d3914ab844eab, 0x429fbf43b54ab23a, 0x33ff25a389fec95f, 0x21588588decbc2f],
    [0x6f5070f5962fc478, 0x95a1ca4110cb09ab, 0xac38a2fc06ffb655, 0x182c5a52fe6c6d2a],
    [0xdccf8ad9b5b741dc, 0xf52b68575d9560d3, 0xd234bd7d9be04610, 0x6a58def11f1c27c],
    [0xe31de3218afb7742, 0xc7d0b1846ff9bbd0, 0xc5b12c9230afaa59, 0x29cbbb5cab2c9dff],
    [0xb9343963c627f17b, 0x23e77944ebf1c22c, 0xdc4f2d326a5ca28, 0x9a1d4f4f0032363],
    [0x4b5b4603e80e87a6, 0x9220a196fd89cd4, 0xfbb1eae9cd558196, 0x25f5157f8a190e6b],
    [0xe487e26b723d0d8d, 0x9141b2c71754e4a8, 0x463bf9d7f7f6cd2b, 0x2f0794e7af6874b7],
    [0xd10b31767998bd4c, 0x57bec6f588849f85, 0x995b6ab706c6da87, 0x2a816cbc315eb725],
    [0xe73b81dd9ddc5448, 0xc8132d8bed9cc787, 0xe62056205768da25, 0x2c5fd92cb6990590],
    [0xab1c153235ca6937, 0x4bd48238065cef5e, 0xa36aaaf7c15d1b6b, 0x2e80276a04b486b1],
    [0xfed58669ce49bfa4, 0x71f5c23924a4c4f7, 0x259c6151c0af6a17, 0x15257a77d445dde9],
    [0x94271235eb435814, 0xfe15eb3a2f8e7c91, 0x54be73a03262d03b, 0x1219c007e9664d8a],
    [0x55d7201d779812d8, 0x7613444d3cb3e959, 0x324e55e532885ce6, 0x95144c721ba3b18],
    [0xb6201c18e1b56dfe, 0xe00e59b571dd9d46, 0xd95b310dec2b54e0, 0x4523bf1a8f284c6],
    [0x5b21625cc0ebe09c, 0x1a502ea09e7cdd81, 0x204d41adb7fad83b, 0x101a646241a8315f],
    [0xc9255c09c2854963, 0xcadc9f58d4f4679d, 0x1e34c47fe72266e1, 0x19282d6967bd2209],
    [0xeb6633fb87356af2, 0xf4744106315e3df2, 0x6afec41632d9a933, 0x42b2e9365e95f6b],
];

/// Part 5 of the sparse partial-round rows for width 15, as little-endian limbs.
pub const S_DATA_5: [[u64; 4]; 256] = [
    [0xeded9606623a4c99, 0xc277e506c3052c2b, 0x4815c76513809a77, 0x86ed6b49511d6bd],
    [0xd39fe177be503345, 0x744b5286b3f6672a, 0xaa28b651917f1fbc, 0x58a4f66ba158c1],
    [0x3fc977244a196cd1, 0x3f69dfbb224566cb, 0x7a5b6ba1d48e2dcc, 0x28dde10bcf8969aa],
    [0x1aa976d05d635894, 0xb2561a94f78de337, 0x6b4e0ea70d7131f7, 0x3842b61df1832bc],
    [0x5c5e7f803a7582bf, 0xed8cc066084c7cfa, 0x27993c19bfa19472, 0x2c3bedddafb94b94],
    [0x3e14b87f99601790, 0xe7dd25a19ad93462, 0x2742efa3584f07e1, 0x163541b79f81db7f],
    [0x18dc3c91c849f112, 0x337310372cf570a3, 0xf20a2a6ed0d9a263, 0x1846f2e5b96f8abb],
    [0x110cfa0102331b15, 0x103cf16e252df30d, 0x6212f93f7d6eff60, 0x6c7a3cee3f4166e],
    [0x9e8a02fc2080ef74, 0x61e628b1a4de003d, 0xbf5f0b7cf58030a7, 0x25be194f6a3d69e3],
    [0x6524af80f9c3fe0f, 0x7f217e1c910ccef0, 0xc10b2c672b2fbf07, 0x2699fb6f71316244],
    [0x8798b1666146b56c, 0x3003faf87cdf3e43, 0x2c5391fe18539417, 0x20e39137899fc0d],
    [0xe16c5b657161da59, 0xd540aa62bac93ccb, 0x2148c5aaa8c9eee5, 0x22b9615e9d1b5829],
    [0x28890f792960a722, 0xd1bcc7dd49743021, 0xca78a2ab8474e5fc, 0x17a4039cf90fb2c8],
    [0x32b24f131abf74da, 0x47640ed9311e5a84, 0x2521f82cc836f1b7, 0x296a7947ed081621],
    [0x3e95530140b2ac5e, 0x4fe29719d30a30e3, 0xe1a8c83fef1078b5, 0xe6222d1f658021a],
    [0x1bafd1a516301960, 0x507556c422183cdf, 0xb241b289e95fc7f4, 0x24a832d0b62d7fed],
    [0xc4d1811ed3a22465, 0x22c3128dab03035b, 0xf6b6efff9ceffdfd, 0x314978ffbd36b1b],
    [0x85a59d219364080, 0xb3a5b7cd60f7ce2a, 0x154140b56f0106c7, 0x23456fedebbef43f],
    [0x990c18ce32c56f2c, 0xe7aadbe7b2c22aae, 0x12e9f392192596ef, 0x2bdfd3aa4bca8943],
    [0xe3f4008414779996, 0x8094f2c93f14a367, 0x44b861af172f011a, 0x1767d8e87ff8dde8],
    [0xcd846b5b37efd752, 0xe3af704cd3d68f6d, 0x9c60fbed76494748, 0x9afea3b80390120],
    [0x354699f2c0ff18fa, 0x1cf30854c201d0c7, 0x1dd29d7d0106b95b, 0x1eef9a7f08033147],
    [0x54bd7b107398f328, 0x3ccb6914fa627a64, 0x64c4b5fb1d15f9f4, 0x1ac0df8788f7b6b2],
    [0x37000e01fe12156c, 0xf27316111bcb089a, 0x5ba584cbc5c6206f, 0x153587dd8856ef1c],
    [0xdcd9abe7fa2d17a3, 0xa6e6f1ab9b487e6a, 0xb6566ea3f37caaeb, 0x1ec3422f01d367de],
    [0xb6201c18e1b56dfe, 0xe00e59b571dd9d46, 0xd95b310dec2b54e0, 0x4523bf1a8f284c6],
    [0x1ce8c93eb0da67e2, 0x957003ddd4fb25ef, 0xe1defe4c464b18ea, 0x92ab362071be64e],
    [0x6203e3a3316a0bbe, 0x4a686b63564b913c, 0x971979f341256e28, 0x2087c4812bd0d03d],
    [0x50abfab5edd498ad, 0x658f8f238b8679a, 0xc55cd521cb79c5f2, 0x15e9d37afb1e0877],
    [0x9b9516be85df233e, 0x4b27ef3ad9f6e9c2, 0x2fe84c4d48d49dfc, 0x2d3aef5f158c34c1],
    [0x26e6b1b71bb2650b, 0x8bf6f5ba44916913, 0x158a1bedff28cfab, 0x244a3d476b0a0690],
    [0x60751ce3e51c3ee1, 0xeba568df3462c86c, 0x4f7bd3aac446b7f0, 0x10e9d046cdec4512],
    [0xe9666c281dd58357, 0xa9dd4dc4f26298d1, 0x2e5d87b4f474904f, 0x2590289589edc311],
    [0x1439c3afc8e8c13a, 0xdf0b53a7d112bc1a, 0xb9cf1ecb6427f1a0, 0x13765e0ca93cb708],
    [0x380ee48819fd495e, 0x4f4d67e60db2f0be, 0x5b1cf54e775eea3a, 0x196d3192651b1e8b],
    [0xdc4cb0de91def3a5, 0x334f4748c76db52b, 0xd9cda9d9bde0b3d4, 0x18c81e4ef19c7276],
    [0x30d97045eb4aee58, 0xc9db486e8471f93e, 0xb6affc2c85c8ca64, 0x25f4226ce2c992fd],
    [0x5273995c3f30c3e7, 0x9e4227080ef49777, 0x5382957eacc86245, 0x2a152c83769c9a97],
    [0xa28a283187bfce73, 0x48e32c31ae815aee, 0xe21e3fe7b281e44a, 0x13bdc6f2694024b1],
    [0x86b6efb0e4ec3ecc, 0xf8527290d0fffd29, 0x2bb9f3fd822a9e6c, 0x18be50dd564a7b86],
    [0xe0f645d1e7360976, 0x5b934b9dba8499e1, 0x6914c11187642ad4, 0x76b689cf6fc2674],
    [0xa529909ed483db5, 0x7df21deba55e20bb, 0x83cd28cdd8902464, 0x24cb96220d02e7d1],
    [0xf73ad96df83b6afa, 0xb9582cdb50dad968, 0xd9555eaa2d4466e1, 0x109261482d8eefed],
    [0xa0b07f444aa824ef, 0x2c6a0dbb39948ad, 0xffafbd669532788d, 0x24f33850fe4d7019],
    [0xb73a6357860abb2e, 0xe0ee1f39ca8525dc, 0x66baec32ffd60d1b, 0x175369adaefa269a],
    [0x69fea81eeaaae8b1, 0x964fbdec440c6c83, 0x8354d7aae86dc9b3, 0x25b9fec7cc7f651e],
    [0x7a0504c05a4b0cb7, 0x5c3b0b90a7da5f67, 0x5025fcd286e9ca57, 0x2d0c8b82de5ce4c5],
    [0x6c3698b7c9fecf66, 0xbe29cdd777264093, 0xbb85f7b564232d22, 0x227437dd063cea6e],
    [0xc636f933d4014101, 0xa46f820848fc2c2f, 0x25f637ba686157ee, 0x1bbba5bfc8a010cb],
    [0xd14a6e9b397683e6, 0x18809f1e160be7df, 0xadd2c73da2c60ca5, 0x14471102a5ec4909],
    [0x7ff1154e748623e5, 0x4576b8346fc245fa, 0xbd984574b5524978, 0x1b13fb4a716a8661],
    [0x3a2ffca0a7f2dded, 0x3e5cd38fb0dfff17, 0x463aaf170748550a, 0x26344c34f453274],
    [0x708708a2cf4fc38c, 0xe12dcabe2104b5f4, 0xd29ea87ae0919225, 0x2541b62c8a52ffbd],
    [0x67a78c8507036976, 0xaaf303c5a12902a6, 0x1458c67bf7b4b325, 0xfbd922b73f16d66],
    [0xb6201c18e1b56dfe, 0xe00e59b571dd9d46, 0xd95b310dec2b54e0, 0x4523bf1a8f284c6],
    [0xd2297beb13ea0f10, 0x9d134ffd98561cdb, 0xb568e7d310d9fa63, 0x2355f03ba072a620],
    [0xfa932de73ca19ed, 0x97e1e2951137c0c4, 0xb05562057a8db99f, 0x25ff4bb05b96f0a0],
    [0xc5c5d157a6203dfd, 0x1273499f2f619b86, 0x7c49704d705e1487, 0x2daf950c80154f6e],
    [0xc6d77c5b849fe690, 0xe86844f1148f0a34, 0x8b91c3127747d700, 0x51cefccdb8cf692],
    [0x1aed5cc87fc476b, 0xf909062c84f812fe, 0x343b33543cd5fdcd, 0x238262ec5467d6af],
    [0xc788fb2cb21019e4, 0xd61a9dde2e45ac8b, 0x9aa958fa616f4838, 0xb7daca406fc36c6],
    [0xc60e644231c54e13, 0x6ebf0d155254d898, 0x6ab9dd5750982c08, 0x15bc83c5e68048d3],
    [0xcb57fd255d70da87, 0x8ce7d85c46ed8d18, 0x3558a7bbb6adf024, 0x1c63961d501d08c4],
    [0x8aaace2693656732, 0xd1c619d3c047b783, 0x7da25a7229eea6de, 0x2509bb8169fdbbd4],
    [0x878d4b35e9fa99bf, 0xf658dc1379d8fbf9, 0xed50274c6fa4867e, 0x69a50d4c1eec1a0],
    [0x11620716be1af17, 0x723220e0696d28ea, 0x4992ce0394cab9fd, 0x15d74c0872e9b116],
    [0x45c5e46be5a6eb4e, 0x1ed561055ae5057b, 0x2b42d8bfbc68921d, 0x10b0c81519086342],
    [0xc77390851d6c42d2, 0x52ddc622d02f4420, 0x6fcbe505a7540522, 0xc11c306b5211eb3],
    [0xeaa12eef2ee5c55, 0x794b2f4bfd18a978, 0xe22dfcad1175f597, 0x150cfca445b9336c],
    [0x884874a2fba798d5, 0xce237944e5304630, 0xaa746a9356d96070, 0x194de31d0ce18660],
    [0x770b802af790ebb5, 0xaee8b339c4a245b2, 0xb50b19e77e314406, 0x14c2071d9d7df808],
    [0x590cb9025a7d12a3, 0x38f001804c8291fd, 0xc18c3bff302c31eb, 0x15847c79aa8e1c92],
    [0x1d354c271b126973, 0xdb29d788b0bd435c, 0xe6c7d26203aa96c3, 0xfbba1d54897882d],
    [0x920bc066465877, 0xf9a34d8f70c38724, 0x92d2228b4b760223, 0x1a3b7ee6c4f24ea],
    [0x485e00cc2ed02bf4, 0xcaeda53051194702, 0xa83c0124f38a8359, 0x2ce61015cc1e5520],
    [0x773bf63e6cff6334, 0x6eda5bdbe99e522e, 0x62bbc207e587deb4, 0x2b8be03a29a0e8fb],
    [0x25299ac72bde12f2, 0x6237ee895960bb8c, 0xad2416a44fbf458d, 0x105e1aedf0cf9f12],
    [0x3f0c29378553bbf8, 0x87e2f99e4fec8012, 0x6539249612eb1a96, 0x120c504e8e99eeb1],
    [0xa24e85509dea2f50, 0x9975be00efcbca7d, 0xbde5da31655b11df, 0xf35ac3925b66d52],
    [0xa93e2d993c2a4369, 0x8bb5694fb82c2779, 0x8cb24ddd2c1fa866, 0xf4957169958f20b],
    [0x373a91c13263d805, 0xc02afa0a7988a57c, 0x35cdc630b9033172, 0x7f61b3cc5f12205],
    [0xf07c0647273ad8d, 0xe0395ca3401938b7, 0x289a4e187af2b3b9, 0xe16429a495a0878],
    [0xe94a3b4045fb2620, 0x8dcbb44f37ecdf70, 0x73faf348b5cd88be, 0x18190cef50589e6c],
    [0xb6201c18e1b56dfe, 0xe00e59b571dd9d46, 0xd95b310dec2b54e0, 0x4523bf1a8f284c6],
    [0xceabe0bf4da575df, 0xd835e4817c4bab99, 0x41afa130d206cd84, 0x227f232164c4e3c7],
    [0x739df09b9bf0fe5a, 0x29f6820492ce2478, 0xd45cf1390c95b03c, 0x1b1d09c8b7aea951],
    [0x4cc6db28420a1830, 0xaba6aa5c13cf09ff, 0xd08d3d6bbbf55a86, 0x1bd040cdcfded9e6],
    [0x5fcf3096b3e1a6ca, 0x479a1d3684ecb8c2, 0x50256086dd4e2c88, 0x2c4d2f16535632f0],
    [0xc110244721c097a9, 0x977c619a13efef5a, 0xf7ce3b6d68134286, 0xead790bfabc7e81],
    [0x13b5e30e7dba7565, 0x69794fadd424102, 0x16c6e2fc17133da9, 0x8900754358a5d97],
    [0xf4f9944fad419f2a, 0xe2e5645f7c6bcebc, 0xa003e225b34d3d02, 0x24c0631f518904d6],
    [0xc4faabfa1aa7f105, 0xebedce6d72461dc1, 0x9bd18fe13e9dede1, 0x9ec6105a057621f],
    [0x3586ee533302e802, 0x443db0387c950650, 0x462767b20213ffa9, 0x79b0343c865e073],
    [0x49327c2967d14245, 0x20a7fde6437b9491, 0xee03aca8d1d54289, 0x7df63d142bd6c29],
    [0x3291d3ce71a7711c, 0x4a18afca7d04da0e, 0x32f72ac25650a6c9, 0x2ff26c8169cec620],
    [0xfb50a816688e33db, 0x7c32f8467d9de721, 0x884e4f8595e43812, 0x164edabbfeeda046],
    [0x516e38a96ebf9f55, 0xd49ab9fa181c11de, 0x305a5a78b818c1f2, 0xbf8306af475136a],
    [0x4fb0e4d33f33638c, 0x2a7f2fcb671bf058, 0xbdb05926f7b97556, 0x16da51bf32b4e134],
    [0x3fcd46f86d3be2f0, 0x3eefae7b165ddce5, 0x42e28c8790df9d03, 0x142930caa1828bd8],
    [0x49bef0fc899a6e99, 0xf1753ce1a17e254b, 0x3d09d0555a1f5a0b, 0x1ae7e0a72e9bad38],
    [0x31b55de2a713dc54, 0x8ba46720595d77ee, 0xcb639a4b30ea2aa7, 0x280313df7e066df1],
    [0x6aaffe7ac1c0b247, 0x79422c05d3a839ee, 0x57fa66b471f11be9, 0x1ba62055d4a6b32],
    [0x8e5754ed2f39ff04, 0x31edc830512b7b1c, 0x49a7db293c786284, 0xfddc6ca4b45778c],
    [0x4852ad74f9cc78a8, 0x42247d5dcf37b08b, 0x858a97b178b1d47e, 0x929d32df53f196e],
    [0x85c3ef7b0559283f, 0xf9727755d261fa1d, 0x71a718013b3ae7, 0xf967d1490ffa328],
    [0x6bea89a0edf5421b, 0xb3d3d2229e73581c, 0x115da17e181a7e95, 0xf5490a89b5fc95c],
    [0x734402c75384c736, 0xe162898d11000050, 0x1f1d49c2879734ca, 0x674bfe177fdc130],
    [0xc87a373a6515eb66, 0x9978a13c5da32b3c, 0xb1499555516671ec, 0x18e1ade3d71eef67],
    [0xcf2e36149021f009, 0x944e257b2757934c, 0xe537568da903fe09, 0x1f9179afb7f5975b],
    [0x1322339402479ee8, 0xd303bd7d3137311a, 0x65f02d745d35712f, 0xc11a256c35c638a],
    [0x12958bee7a900f67, 0xe8d40e9cd6cc556b, 0x147b3f03de15fe79, 0x2ab557843dbbcbff],
    [0x31a9a37a3415cea4, 0x2024b8924b4adda, 0x8eac364d737e87bd, 0x168dd127ba458284],
    [0xb6201c18e1b56dfe, 0xe00e59b571dd9d46, 0xd95b310dec2b54e0, 0x4523bf1a8f284c6],
    [0x98a87ec516366cca, 0x7a1a6de79c4e9196, 0x617045360e52794c, 0x2c4d427a7bec8d19],
    [0x67e49f2ab20538b8, 0xc0008342cd8a415e, 0x2544df169c77ea02, 0x36d01a16f30bd80],
    [0x461bce56c4f574d4, 0xdd6e87d0eb0d0b0d, 0x5dc07a4feafa385f, 0x104dada7b72b2440],
    [0xfb43eece2a5230f2, 0x6be294f4e39c2ac7, 0x7426e68c7efbf611, 0x1d189ce154019312],
    [0x37c08c8ea0823cd6, 0x5ebf51efacf6b61f, 0x1331393f6a5a2ad1, 0x20969c1c5a7537d6],
    [0x1037c7350d5f96ca, 0xd538637e2d2ea893, 0x9baf305b3fc99c51, 0x1727f8b0eb959522],
    [0xad9e2626aa0ee79b, 0x2625432213d6a92f, 0xc082a589d89a7c52, 0x1897f619c615a92f],
    [0x13e69694a226b3f6, 0x44681878db55878f, 0xd4efb433f14ed145, 0x1f62599143f1f32c],
    [0xf9961353f7c781d5, 0xb7b659a25efae602, 0xda5c8b61d8ed6953, 0x118c2c92848d6aae],
    [0x26d6eebe47a1cec6, 0xd4cbf30f47bc73b1, 0x6c3554194b87e6c0, 0x18997289e946839e],
    [0x8b4e6c82b14cd83, 0xd8aaba83f7c80993, 0x37fb513703caa96, 0x130da6eb344dee64],
    [0xb58c5bf54261563, 0x13e7885ce50ee8ca, 0xb12540db9ae15265, 0x245357b0b612c4ae],
    [0xa173f1c29a625581, 0x33cac494d4e7301a, 0xee18c96ad1725aaa, 0x16efacd482e07f1f],
    [0x3f4bad118acdfaec, 0xc2a635899f3ebdf3, 0x4b2f0afcd782874e, 0x1aaf282a0db41723],
    [0x5cf24737b7a9c804, 0xdc15838cec0863a1, 0x9016a392f58cc0ab, 0xbb16e9a26f6e444],
    [0x672e052387a88724, 0xf3f8f014966977c7, 0xa8a17875c09930f2, 0x1ab091e043a032a1],
    [0x6cfdd4c02d260e0e, 0x32f77ab95b6dc176, 0xe1156372691356ad, 0x17a1b1b5e07302af],
    [0x1015e477fd983d96, 0x71d4ce4f5359ca25, 0xa922a03b04b34185, 0x198f8c2021281502],
    [0xc412e33c2955131c, 0x593ce9575a0ebe0e, 0xe8f41975abb2ac63, 0x1cd705bc50da7642],
    [0x761a03dd3fb1744, 0x98916ea7db4cd7ac, 0x64b11b71780307d9, 0x2f634bc6e688daeb],
    [0x18e289a5b6b5c643, 0x4e28b4f5ef14d090, 0xca148955dee28463, 0x70efde061570346],
    [0xc3f5aa1c25f8567a, 0x6124b84f3df49bbc, 0xaa7cc2ccbc35e20a, 0x129e1fa03e4374b6],
    [0xe0a97a6b99d79816, 0x91e89a4e7e17fbc0, 0x7ca29aab19b02211, 0x872750e7e4e0086],
    [0xb4256777fc765928, 0x2544bf0865fdcac5, 0xd6b899818a44200e, 0x23e8c43c57b9dc6f],
    [0x49ede93b5c9e830b, 0x2340877a5a848c8f, 0x6885cb5ad01698f, 0x2a6b794cd03c70ef],
    [0xd4fd566df266099d, 0x2b198c464796c9c8, 0xe25ad9d0816a6f6e, 0x94578409d6462e7],
    [0x7003ace44646b9c6, 0xfe323b635959664d, 0x3f92b07d97f4a8d0, 0x1b2b611f853458bb],
    [0xdc196ae182fbea21, 0xf003b5e73f91d342, 0xd41abd2b1feb4f7a, 0x205b0fa2b6f2ebaa],
    [0xb6201c18e1b56dfe, 0xe00e59b571dd9d46, 0xd95b310dec2b54e0, 0x4523bf1a8f284c6],
    [0xf53c9c18f7537922, 0x5a728731db369c24, 0xdfc3d21cef51ad2b, 0x18813c17a1991709],
    [0x75567e6e2450f189, 0xf260cf3c9a798c4c, 0xb2fc0756fc93e6fa, 0x28e2f1491faa1312],
    [0x959af90e84caa6b7, 0x8e76e96c66356df4, 0x4cf859d5c41e4cf3, 0x2456cf94d7ff6e12],
    [0x3085fd1bd3a938a8, 0x566748abd79323db, 0xd738e5adc140ccb0, 0x19d01fae3e6bf2a3],
    [0xe55e75c128df6451, 0x543d181a965c47b1, 0xf0ce9be50bc599be, 0x15b9bb8c1653e644],
    [0x35c946076ba55628, 0x86a3b770730d578d, 0xd344d767948c8bab, 0xaf54a3486b44d6c],
    [0x3a1bbe1dc6481585, 0x6fa2c527472702d3, 0xb2356ea5599a17ca, 0x2c403933d9fdce9],
    [0x7fc3896dc95595e4, 0x6f4cc035599a6e7f, 0xcdb8f2bd4410cac1, 0x1f8600480399291b],
    [0x6eae1a66a7b1e8df, 0x34287efcbb6524fb, 0xc8dd165d3fe11a67, 0x20853b736e1ef67f],
    [0x20ead1da61106b20, 0x3b2452d47be2d162, 0xc6bb77e84776e06e, 0x2f4630a0f0018b04],
    [0x661b9125215e8995, 0xea7b650f1a5226ea, 0x2085e3eae9f541c4, 0x2b9036c48f9af1b3],
    [0x262d483406e0e68d, 0x64d716de78cd74c2, 0xe030ecc30f063bc0, 0x16e06530b370ba9c],
    [0xe325b48bbf4e851f, 0x53229eea7b3e95cb, 0x9a932d721e95d169, 0x16965fc262e0ca87],
    [0xe17f4ccc8ac6826e, 0x10a82e8a51423e7c, 0x7c940bc7b8caddef, 0x282361e61365be44],
    [0x65089f07b5aaad7, 0xd29dd9d371afdb46, 0xf48ba6efbb95fd33, 0xe5f05bc3d2f27ea],
    [0x5695a23c9272ba6, 0xd07f0edd6db00072, 0x192a3fd3c936e73e, 0x45e49d05e82f9c8],
    [0x2500cdc8b4ec97d7, 0xd2ad1eb2b1c8bb60, 0x4f812cbc025ea069, 0x1aec3601dc7eaf61],
    [0x6b3672cbdbd48d82, 0xf09b452d0e93fb87, 0x13b7a98a19be4552, 0x29182e5f19d8e48e],
    [0xeb4e2b62dd1355e3, 0xedcdc0cb2ad743ce, 0x8f0e2c0c324e07dc, 0xe82f9feb507fd17],
    [0xb3729319bd75f304, 0x1d43100039491b, 0x84dad628b3528a89, 0x9c0bf03083c7a7f],
    [0xac846c1620aa01b8, 0x165882a09f83e43f, 0x17d3e9201c601823, 0x1ac08c4bc3222825],
    [0xbcbb6cfe34a227d0, 0x6a50ec4a32128a39, 0x63291de2624e7f30, 0x25661bfb76d976aa],
    [0x9addfeb77ef1945e, 0x969529942a623a89, 0x67be3438cc1f0dbc, 0x2dfbf71289f57fad],
    [0x6edbffb97f6886df, 0xf08db6bcf49a8bb5, 0x1288cca68aec10c, 0x805aaa9f12a17bf],
    [0x4eb2fef730b22564, 0x98c83da075facb96, 0xf5f215d42ab57360, 0x2bfea7d79a17720d],
    [0xf11a461864dbf9d8, 0x5029ce7c97eef84f, 0x92b4dd4a4052519a, 0x297315ed7ac6f9bc],
    [0xf11cdee3ec28284c, 0x312b4c21cbb282c1, 0xcdd9c8ebf1821031, 0x172960704ca74222],
    [0x94b493e101a3dd29, 0xa3d61004b38a69cf, 0x22fde21503094baf, 0x14b30a8e90ee6a1e],
    [0xb6201c18e1b56dfe, 0xe00e59b571dd9d46, 0xd95b310dec2b54e0, 0x4523bf1a8f284c6],
    [0x40e65987d73ee448, 0xcad05a04e5c84e6b, 0x7dbeb7dfec90e331, 0x25c2fb93758a3632],
    [0xb36e415fcf9fe843, 0xdb41f28d831c27bc, 0xc70f9133e8392e8f, 0x15be6f22cbd5f38e],
    [0xe4648928551e062a, 0x1e7e257e327a9f20, 0xee949d0888c73dc4, 0x1d2187e9af970cef],
    [0x13a32324e80ac79b, 0x63d38a20d47fa9d8, 0x25bec8b21980bbb1, 0x699ddcb91e856bd],
    [0x5ec787fdffe3325f, 0xba22eac4862322dd, 0x47616ade5773e0f7, 0xfced0a1de640939],
    [0xeabedc24a4154888, 0x719df8effad85e6e, 0x365c934202e4bded, 0x27768b29635a400d],
    [0xfc8474efeb957d1e, 0x92423fe0d12f282e, 0xd16ec5421b38c403, 0x1b1f6642ad87106c],
    [0x2a3c77ef3e48cb9a, 0xe1bd25b74f74677, 0xc673a44044bdd426, 0xa3e365d3159084c],
    [0xb9d356411edb7cf5, 0xa34059695e151682, 0xa0634da43510ccf0, 0x24179d5e64991d45],
    [0x87c163d1b0f98dd5, 0x4da97ee274586c52, 0x64de38814ec6376f, 0xfbbbb67aa886555],
    [0x126fd82ed38350eb, 0x464dbab80ed5e702, 0xd6e2bbaed31f31ea, 0x11edd5438d9b4168],
    [0x715bb48469c15dd6, 0xbf86542cbd0252d0, 0x311a00cdb03e28ff, 0x1b76cf5e219ed4bc],
    [0x56d5d91044f79393, 0x5be984134fb75f39, 0x62d356ffcaa4edc0, 0x148437b32c2bc489],
    [0xda6fa113a40ab0c0, 0xa45be26389489f66, 0x252988730fb82f23, 0x10942207a5f66bb8],
    [0x75859582d10c061b, 0x487c37485bba1a90, 0x96e8ad7bb2374c77, 0x124681e28623f421],
    [0xf4c061cd8583bb2e, 0x4f6914922e33d7bb, 0xe97ead3b9d8cfc65, 0x2f9dc5b15dc408e7],
    [0xc64e5f3caa274777, 0x3282aafabbbdfff, 0x8a2900ec78233020, 0x11597e8f45721d0f],
    [0x3a90b661ee4f191b, 0xdde2a5c7d37fb0ec, 0x2fc58d2f98d43a75, 0x14ee771b1e80f23b],
    [0xfaa6a4a36612a4c1, 0x100f864e5dab2f6a, 0x8d16dd2ea6dad8b4, 0x22142acbf84a03df],
    [0xe5732325a790e637, 0x9b1890d5b7f70f56, 0x57fe904ab20f916d, 0x17cca25c3d45d22a],
    [0xdce6cda7fa4d069a, 0x8d18f05deb5c7e9f, 0x7445672333283fe2, 0x3120041b1c3a4c8],
    [0xe86410a46511ffac, 0xae7a73fc920e5cf5, 0x1d8424a74e69eb6a, 0x965b18e93bde84a],
    [0xa3d4150a68a4b65, 0xf80779d854e88137, 0xfa835c5ef0276719, 0x3601f2a0058f85e],
    [0x4b2eadcfc041d756, 0x36ee6f54bd989361, 0x579651aaea205320, 0x14f0454cb6ddaf09],
    [0xfcb23de6a45667d3, 0xc861eaa25579c45, 0x6edd24afb82a49d6, 0x11844e3d73731aa7],
    [0x807fc89fa0697e32, 0xc01ee5289ca666b6, 0x9efb91116d019f97, 0xd49b3c8de5c8a00],
    [0xaa78bc0b274a8571, 0xd90909c8cdce17c5, 0xd995abc5cd72d50a, 0x15ac66208d53f730],
    [0x593a89ff1ea675a0, 0x63c687dce2975aa4, 0x8a818a070deeb69, 0x1c9c5cb02fb78be5],
    [0xb6201c18e1b56dfe, 0xe00e59b571dd9d46, 0xd95b310dec2b54e0, 0x4523bf1a8f284c6],
    [0x96bfbf1cab727bcc, 0xb462204e8eae1f95, 0x89d3aea8e53b5bb7, 0x210b5dd8b7bfe151],
    [0x3a4bed98cec40858, 0xc72f9891deb6536f, 0x4f68b374dd8726a2, 0x1e72e11f21abc22a],
    [0xe7081027e1e94ffb, 0x7b7910bf92f44aef, 0x4d144a4251066d6d, 0x1d0ea48d109e37ba],
    [0x7176875a0837b3e8, 0xfd5b6d4951f3abdf, 0x776b1b1e8d423cb2, 0x19c6c9e54dd8314a],
    [0x415b546bc1d265e9, 0xe86e6a04f9093d0d, 0x7ab428b4a1598dbc, 0x1722bd2005071340],
    [0xe13aceacd519010d, 0xbaf775211450f521, 0xe9500f2066dfbffc, 0x1bee9ee0577f4a46],
    [0xdd6869a561282e37, 0xd430394bd8e80321, 0x5332ad14d25ede90, 0x4f1c326c88072a0],
    [0x89855932394952e5, 0x503e268cdbd5fd76, 0x38102e019206a908, 0x2db49dfe6b2f6f8f],
    [0xf39b49db2739409, 0xeb86074e61143920, 0x706c2ae6e294c691, 0x18cacf5fcbe1e383],
    [0x84160d4018d1e510, 0xcfd6c29729472ed8, 0xefeefe439a1d01da, 0x251e39efdd606e5],
    [0x74d7f2147e449437, 0x522a1730c005528a, 0x154234a94bc5b85, 0x20ca4abd314e386d],
    [0xa1786cb88be7249f, 0xeeb0336257108ca5, 0xb7ccecf94172ad86, 0xfd8d3092bca7b55],
    [0xdd64a74c48e86e23, 0xb245fa3dc706956b, 0x345a1f837f1343b2, 0x14a262e3bfae15e0],
    [0x11fc454b2dc8f6ea, 0x97be52dbead9b910, 0x814373340aa65a0f, 0x21e54491928f3904],
    [0xf3f75f10824cc06c, 0xcdb44d7c4821561b, 0x675330f618419302, 0x1a41918b8c68ea8d],
    [0x94b03b849e0878da, 0x8485794801b0c9a6, 0x59a17da94a2dd4d2, 0x21930445fb5f5251],
    [0x6de89df8f758c7cf, 0xc1c86ed9db112103, 0x56554ad0183697ee, 0x17535af3d952f2a3],
    [0xbd97a691e2ab80f2, 0xcb389d69918a0d7a, 0xee37b238146142de, 0x1a82f3c943c80fe4],
    [0x4eeb6a54cca2eebc, 0xfcacadae35e5bea3, 0x3fa9c58f6e607da4, 0x53b942c6f210f07],
    [0x2434a2c9614337c, 0xfc8cf2bd384bc980, 0x2c32052bd0623804, 0xd34f91b743a6ba5],
    [0xe74f1edb1e630a8f, 0xc9925e9885c9a525, 0xeb5900b6334c4dab, 0x2749b7c85c71adfb],
    [0x28aa67f9a9b1f953, 0x6a50fc3f4c0d0092, 0x447d51e642951ca7, 0x2284a0f1ee6a86ff],
    [0x8ccdbb74b717e23a, 0xf5b5f9d37ff75acd, 0x7909b02af7de7e57, 0x22c7f25053d11e88],
    [0x4d159f18afcfc49b, 0xe115e6822329f93a, 0xcb996f3d2f3662ca, 0x29c30ea916675045],
    [0xdd5f3130bf5a000f, 0x38b912c9d65100f2, 0xb5cb70a9234a6e92, 0xe555cdfb1576e9b],
    [0xf0b1e6efbc86e172, 0xc36179607545fd58, 0xb41d91bd065f60db, 0x2f16e6a9e0bd6fc0],
    [0x31081826b8c69ca7, 0xace2d0100973ce03, 0x2b094a13dfdd14e1, 0x25f261e99981d3fd],
    [0x223bf8309e9b1348, 0x214a099e081a286a, 0x5ebc4f4f9b599ca, 0x14d1b4bde07ea825],
    [0xb6201c18e1b56dfe, 0xe00e59b571dd9d46, 0xd95b310dec2b54e0, 0x4523bf1a8f284c6],
    [0x10dff7dec3ed10e0, 0xf9c7be11edc3ee03, 0x30d25ba9e72e2d0, 0xc2161d0dfe1fb1b],
    [0x8a9809440c9e9e14, 0x3110eeaf81456a3f, 0x1e1a1d0a90cb3156, 0x1de725c7f6c99572],
    [0x44f9db50455729a6, 0xafa5e8d503936688, 0x177afe2b7732608b, 0x12389968950116f0],
    [0x37cb6094246d678c, 0x8b3e874633dd412, 0x4a67c7052c0990ba, 0x17aaa2062cdde57f],
    [0xeb305a937a0b79b0, 0x39b58d017cdccd2b, 0x1f484c9fe4837a76, 0xb9984737ec0a654],
    [0xc5cc96e93d83773d, 0x5d7f92db99df5ccb, 0x52dcd74ce8be156b, 0x320982d756176f8],
    [0xe9a60441ca15cd52, 0xa4cfc428f20ea477, 0x8b9b105983c8744c, 0x2a4319d0bc04e4c1],
    [0xd960d1c4498edb5f, 0x4562962cf0435e21, 0xbd499a5122ad7785, 0x182b9434e89db547],
    [0xc8cd0965bf0ccfb1, 0x77ba771192b2fcad, 0x2d36f4c59b34f6fe, 0x1d26abc0becb0e42],
    [0x669503840dcb541f, 0x428dc932d81d1dc4, 0x20dfb54c364af3ee, 0x958a9dce1b6a176],
    [0xc8078c90ced7160f, 0xd52257c32c9c3ca4, 0x6fbe77851617cbf9, 0xa8a70a8379d7113],
    [0x924999892fa9f931, 0x311c4d7a3f1c2d53, 0x38b883213fbbb42c, 0x208a9a840025bc0c],
    [0xe4251a2e1e123664, 0x4fd8204b77afab09, 0x5db439929b155073, 0x1f1acec1766b2577],
    [0xcb038f55ab379b97, 0x80a4c3a6a55493c4, 0x64c6bbf3aa91d6de, 0x387e51920edf06b],
    [0xbd62024ed42f6cb1, 0x635a5f557c26e2d9, 0x69426569295e1919, 0x283a3b099b37a603],
    [0x4fdb626b31fa4c2c, 0x497ead1ea2dcd4d4, 0x69d4f4a9691129b1, 0x3a82b07486a61e7],
    [0xf00602982b20f837, 0x73d6ff20d3459974, 0x2a1993a824bb7517, 0x15aea7b6a44e01bd],
    [0x61a005799d8926fd, 0xafa042d4490bb020, 0xa7d0eaacba661fa0, 0x91383aa8ee58024],
    [0xf4c0171f05981826, 0xda758ec66b825730, 0x9967a249121d25af, 0x1c4738d32fed8462],
    [0xcfd63367678373c7, 0x1f78d044a791cb03, 0x238338a3cb6f3ad8, 0x5e10a29beb202a5],
    [0xf5a011c2ae4bb316, 0x3e56fc67f4574846, 0xc28465cccae382ee, 0xe3405582a614f4e],
    [0x204e2d833c9ffec6, 0xbfdbaea4a37c62f5, 0x346e7951da5758a3, 0x13c2e18736871254],
    [0xc54e02655bbbd4d, 0x8ab263ed317c2097, 0x77eb16d8cf6ea60a, 0xe892a08fd4d17f2],
    [0xd63c98fb737c885d, 0x300d7c8663dc2de7, 0xca9729f5959d6b7a, 0x38c23026542424f],
    [0x8f3a3eedc4e56759, 0xf36975b176793388, 0xed928c30e4c78e28, 0x242560875a24ccbd],
    [0x33751b9b17b7938, 0x640de35ed9e19e60, 0xc0aad1635fb195ab, 0xe32ec6d6c80d3ba],
    [0xd4d2d908e44755fb, 0x1cda6b1c0f011cf3, 0xb2d35659181f70a3, 0x127f81d915a7546c],
];

/// Part 6 of the sparse partial-round rows for width 15, as little-endian limbs.
pub const S_DATA_6: [[u64; 4]; 204] = [
    [0x31405ff4e1f88034, 0x75c7dbe7ff9d89ab, 0xe4f23ced4a2bd3df, 0x2feeb1c3f308139a],
    [0xb6201c18e1b56dfe, 0xe00e59b571dd9d46, 0xd95b310dec2b54e0, 0x4523bf1a8f284c6],
    [0x1342ae7f1d1f1659, 0x82539691f909a27f, 0xde670c600f964a05, 0x1abfd157d65b0faa],
    [0xb49db3e42ccf675e, 0x4270dc4bb549932a, 0xf424748beab604c0, 0x287edf9809122fe7],
    [0x6aac4565c5e2346e, 0x6d29811f14dc701b, 0x33621b45ee029337, 0x574627cd0b8f020],
    [0x1d8e071b52dbbc54, 0xc21de4e275675cb8, 0xd84de26cb8dcef9e, 0x13be344cefe3cb23],
    [0x68796e048f222ffe, 0x89ee4a6411376022, 0x9c22c363e0656dca, 0x2bd04c2debf244a7],
    [0xdb423f0b84b8f97, 0x11c802e90a5bd285, 0xb8dd29ef4be836d0, 0x21671759ce3b7fa3],
    [0x73ccc1b2183b5928, 0x6eee35daa601ef5c, 0x4ee99f492613185b, 0x15e2eca1f4f24c53],
    [0xb39e33de1b2acff5, 0xbadb082eaf12a0bd, 0xea5b19eb5a9db448, 0x1ac428a1c403acac],
    [0x3790159a2359ba63, 0xe87ebf840fce54ab, 0x2e70987aa78d6760, 0x18d056fe0886b534],
    [0xe8f9f1c3dc0fdc44, 0x62d0779b072728b2, 0xc898690ad0431b1a, 0x103478de82699756],
    [0x80430242a083bef3, 0xccd8aad3109ac7d1, 0x20a5acebcd23f067, 0x3ad3345d4e0b9af],
    [0xcff4ca4cb7bb4b9b, 0x2af3d189421801e2, 0xd6c633ed789ae1c9, 0x84a2a0a197a762b],
    [0x613d8532240a4b2b, 0x9586d8eed37df7, 0xbf369780edeae7d4, 0xb9fac3f1b5b7769],
    [0x896ec6eebcb6577f, 0x6fa8bee62c6be1e4, 0x9c52d385c1ec41bf, 0x2b6c5a5b0b2e99],
    [0xde28a446727d6d01, 0x297d73e413ab6d3d, 0x436b4c379f8033c4, 0x2b891566a83432ef],
    [0x46c68fee9b0bc5aa, 0x56c7c7d819377705, 0x67810f829abc65d5, 0x215093cbac4cd6a5],
    [0xc9d05cdee2620c95, 0x43be68c53e4207e4, 0xee0b72da0ec50920, 0x59542cf02d9ed7a],
    [0xd537e29d3d4f4511, 0xbcc262ceb616379e, 0x1c2d7387fcbd3d71, 0x2c5db84b283b99e2],
    [0x972c42588ea47da, 0x46a6ab1d7177df4a, 0x120927f9570e3c46, 0x23a84bc9d5e7f467],
    [0x2af30d76825c7e59, 0x7122b6efbab08fe3, 0x6f8c4eb716f2cb08, 0x1af62c1dd6f9e052],
    [0x45476ef3d5541f14, 0x1ae2d530ee1e022f, 0xa2e57e4e0b8369b8, 0x240df1209a4dc3cf],
    [0xdf24263781c370a9, 0x28afe26e727a3e74, 0xf325217cdd3394e1, 0x1d663e716dc9e681],
    [0x4a85cc776ba98bb1, 0x2d955d783b870302, 0x4fa88e7502cf0161, 0x280935cb8ce696be],
    [0xa7ce239074b0b6d8, 0xb00c4687a29badc, 0xf73e722e6aa23361, 0x13dcbefa8c14a98b],
    [0x149398a80bf85015, 0xc2b1ebe3786a5a58, 0xcb093b06a4180cf8, 0x10184429c03a6a7d],
    [0xa35bca7380413e61, 0x8e4b8cb751a103b0, 0x55338b761838c169, 0x2b9b91c8e29a94d6],
    [0xa5512b087566369d, 0xdfb45bf99bbdaf43, 0xfc744f686ee20f62, 0xe8036f74c51d11d],
    [0x3dd51bf62a4b2903, 0xc111cd57c8cd56e8, 0xbac3f5fbfbb8b1ef, 0x1e20b85a64e45feb],
    [0xb6201c18e1b56dfe, 0xe00e59b571dd9d46, 0xd95b310dec2b54e0, 0x4523bf1a8f284c6],
    [0x2e63bd3257825095, 0x5c336d9881f46353, 0xddb2e3fb5a4943e5, 0x27d3fefc3fc713f9],
    [0x2b652693f48a9a, 0x598642e290207911, 0x69d3d15cd51d5f7b, 0x64c66b3bb1fdcd1],
    [0x357f016eb7bbaafe, 0xa9d772e889ad7b3d, 0x25b4c460cc50c1d9, 0xe9a5387f39fff6e],
    [0x47ced714e4dd47e3, 0xeb2f6bc1f0f81b94, 0x5f5c5fce64deffc2, 0x30372e3fd7ca7cf8],
    [0xea8d6f02218046c0, 0x670da8178aa66c57, 0x36f01961482e8db, 0x1c698c1fb76b93d6],
    [0xb120b9794a583b2f, 0x1f2cd6a5cc268601, 0x45f671cd07fe2a52, 0x165745c32185285],
    [0x881c147233749072, 0x60679a7a13c7d37f, 0x1f1f348ce1f5608e, 0x1bd6ac92ec06f6ac],
    [0x57d7521b05126cd, 0xd030d93485d7c72a, 0xf611baf19f5f2315, 0x646a2c8ed477619],
    [0xcf6706346077b2ee, 0x1ecfa5411f8ac7f9, 0x5fcf9dfd72b62095, 0xc5d7ece37cb949c],
    [0x5b70990ce98862c1, 0xd5c09677428dde2a, 0x30cf1641ef9f5142, 0xe0f95062611089d],
    [0x4306ad438e8a7154, 0x9488677fb4a9f21f, 0x2ee0ad2745b448bc, 0x1167dfcdef684e80],
    [0x5d4f564f529d9e52, 0x8b34b20ecf1dde35, 0xdef4557a17c6c6ce, 0x8b58d9c87ea695d],
    [0x48363d592d495bb4, 0xd4148b7d56d6ac84, 0xa8b3db0b093748f6, 0x2c0c0c0caa80990a],
    [0x22f17eadc58f3bee, 0x93c91caa67900698, 0x4dd7aaaa9acbb79d, 0x22cf8f510e15dbb5],
    [0x2bb11943f15dc73f, 0xf5d3d5d2ef8c2c27, 0xa1cbbf4a2429512e, 0x1dcbdcc87c651a39],
    [0x499e89c50dde72ea, 0xf0c039da51a0bcf, 0xf31a5c3e2f77f937, 0x268f76f1dcf5f445],
    [0xfd8e3c3a04fc81de, 0x6fe2e62aa05e4993, 0x88a2c5d3f0a473d8, 0x12ea4be23cef2bc5],
    [0xe788b4d244893d9b, 0x5cd020e387ab80c, 0x972000e6b714bd62, 0xaa8a1b42480a433],
    [0x25d14c67280340e, 0x507a96adc5036626, 0xc995b0f41181d644, 0x9c9635e93ef111f],
    [0xededd309a35fc238, 0x634b5e44631c88a3, 0x9bf2d8bc1ff25277, 0x2f19542276afae3f],
    [0xbddcfde42ea6c978, 0x572e1a06e6ae04ac, 0xd011b6fad36953dd, 0x2bf08e4ad9318465],
    [0xa23d28bd07f22181, 0xab455471fcb48723, 0x4a8eba14dc2db89e, 0x2e415ee818590fff],
    [0x30eaabbb831e57b2, 0x5794b555fe90aaab, 0xdb145fd370c4a514, 0x2ba1b1348857a0dd],
    [0x9b02dfdae2c686d5, 0xfa0801d4d2500d3c, 0xad94146ecd9e2084, 0x2c45b38c22d1834f],
    [0xe81886971f44f1bd, 0xbc88454434e0a3e7, 0x151360d0bb3e53d6, 0x55fde4fa51238ae],
    [0xabeb94cf72d099c1, 0xfafcc07d99070f6, 0xd60bb9c1e4648712, 0x1b500c091d518878],
    [0xd66e70a4465cfda, 0xfa903dccdd39cbe3, 0x6a9b7d7e0d489e3d, 0x1507c80ac988a1d6],
    [0x6886ffa17e3729ad, 0xbb8a3950817c95fa, 0x34ec96975e24b341, 0x2c5389c4c3d7db55],
    [0xb6201c18e1b56dfe, 0xe00e59b571dd9d46, 0xd95b310dec2b54e0, 0x4523bf1a8f284c6],
    [0x2245bf06aa393eee, 0xaccc2681c19e2878, 0x18ddab3a7d699e1d, 0x220d668f431ca313],
    [0x5c6a9a56491b09c9, 0xb4deabb7adce0569, 0x5741c5449a2108b0, 0xf82c73508a68027],
    [0xcb53f440ee9f0c4c, 0x1aea1bd8694204cf, 0xfea3650ec79e20c0, 0x81d2dcbe555ead7],
    [0x6b9ac2ee5d19d237, 0xb44360fe4f7edec9, 0x5f3a33305c190d41, 0x12d6def4feb3b969],
    [0xbfbb8d067daa0dc2, 0xb7848143320ffbd8, 0x549396dd83dc110a, 0x188a70595236991b],
    [0x63f611b0a03c0500, 0xf14054ed87e47d1, 0x252da6d5f220a32b, 0x1ee5cd9ffc83473d],
    [0xa4fced8213c49792, 0xdb59a5cd44d09c4c, 0xf2f80daa0d427376, 0x336f443081e4e4e],
    [0x8eb75db56f3c8e6e, 0x7651c6989e7a194d, 0x35c7968deccae44c, 0x2e31f59a54ad75b9],
    [0x5a0cf9b814718cb, 0x91404b4c535db021, 0x8fcfb1b825a394b7, 0xfc66fe6e89f9c6b],
    [0xd1be9d0bed661f9e, 0xfbf1ac573c430baf, 0x18fff6c6add01041, 0x19392614602253f],
    [0x5f857012d65b4e30, 0x95cba3d923740bb1, 0x5558f13a240c2f25, 0x26bc696c9022801b],
    [0xed3e9c60da60f30f, 0x26a9050a6083321a, 0xe176dab66a494aac, 0x3e41f8254eea920],
    [0xf0c88ccc4350d4cd, 0x76b9bb22e43dd7d3, 0xea57fec54bc20dcb, 0x277e13cf936573c9],
    [0xf55b3f11e2ba7c5b, 0x19559e0b83cd3fa5, 0xbbec49d19719f1e8, 0x100790eb28152be3],
    [0x3f84b7b22b3748b, 0x7b0eb873ed4f819a, 0x1ccba577422b91bf, 0x8a5bcc49a8ef4b7],
    [0x627af9b985f0fc0, 0xe535d66e18bf207d, 0xc294c9afd7ada649, 0xfe17cdcc7b34315],
    [0x4fd3312a65ab5bf3, 0xb86107261c8be93c, 0x4eab76ad8b96e75a, 0x8423e16c6102fbc],
    [0xc5ab6d55e6d38807, 0x86b279a012972bef, 0xd2da3d29a4be15ff, 0x24659f4e6909f198],
    [0x8f495fb1948270c4, 0xcbe31346d4146c77, 0x6feb24341d5ad656, 0x145fb5febeebb5b],
    [0x762919eabe8d63ca, 0x22bfb6eec76f9f2, 0x5b79fffb3e0ad1d1, 0x13ad1e400a7375f2],
    [0xef1feb446ecf88cb, 0x6d536fb84d1c171b, 0x423d13cd5d262f9c, 0x1d087711ceeef2c9],
    [0x52608fafea4fb38d, 0x2b6073f195f314e5, 0xa1357bb453bd0906, 0x2a914d202be77991],
    [0x21b51b33d2d1169e, 0xf186e70cd619111a, 0x9a13147bc1ee06a9, 0x1660b2ad261b31ed],
    [0xb117ae18af29e75f, 0x1a7a96cd61e0aa49, 0x162a0e8544eed39b, 0x1bcc7790328fa163],
    [0xc03d8e2cabe54ea8, 0x622a856d0629fd3b, 0x6cb5378f08cb37d, 0x2ac02b109eeacd4b],
    [0x21dccbbfa60a3fa, 0x6851cc10b377c468, 0x1792a51a9bfe54aa, 0x30616182ee240c6e],
    [0x1f8fa8c470e187ac, 0x91f7d896e77d464e, 0x4ae6aa7f96a7173a, 0x37e7fc430f34138],
    [0xb6332e3f6ad23da4, 0xfe54db4e926c431f, 0xc94bff7c9e3a4951, 0x2c238e1df2dcb6d7],
    [0xb6201c18e1b56dfe, 0xe00e59b571dd9d46, 0xd95b310dec2b54e0, 0x4523bf1a8f284c6],
    [0x68fd5168a541b7, 0x3d17ceb33d6d0c91, 0x4472b00fe23a8a11, 0x200ff178d0693190],
    [0x3d56fe5b31721680, 0xe2217c9c7e9ad336, 0xd8b1ba9fb14b3d56, 0x2c3afc766aee27aa],
    [0xe525c2470391e7d, 0x6375f0fb87ce4148, 0xdcf0d03a397dbca5, 0x2128f1a125e0c64e],
    [0x8a2c9ffd4b8151f2, 0x7f8efda0286768d8, 0x10eea089910bd253, 0x9c62fdb776c4fd5],
    [0x42e4064b3be82618, 0x33b3d1ab23f08013, 0x66a7ecd77278c69e, 0x20426c548d66b908],
    [0xe2317163f06641d9, 0x9cfc7d51fb2f8ef8, 0xe61d2902ce37140c, 0x7adcb9b76dfa25d],
    [0xfdfda370afed4e94, 0xda5ac238e7320147, 0x4876ebafea2b8e6a, 0x914a79c6d02adc9],
    [0xc82be7dba931e9a8, 0x62a386409ac1e7ea, 0x8281bb2840176dc4, 0x3a5d3e37105e1d0],
    [0x3a38aa8dd8a72de8, 0xc0aa28984dc073e7, 0xf742e689995ddf71, 0x12aa83b029bfb3b8],
    [0x165b9437a87c8d30, 0x690036f148d0a07b, 0xd8802eb86d98477a, 0x1b293978db1884b],
    [0xa3c74315101fd5ff, 0x906c4d98647410c4, 0x1e5228e63e1eed9c, 0x29f5d2ca3bbe3025],
    [0xf29ec2166c2d1f1f, 0xc072a65acac7427e, 0x48457ad8031ce6b2, 0x7bf47ac1aeee2ae],
    [0x95e25d93e62d282e, 0x6d22f3e3fb219f81, 0xa37e96922334dc11, 0x1316c94951ec5aa5],
    [0xbd9443541130abd1, 0x5fa6c48216717edf, 0xb0d10fbde39d8122, 0xe5a891e769da4c1],
    [0x27bd75d7c72cd85d, 0xf4d3eae64981695a, 0x43ef60255bb33321, 0x10a84451b6d2e9],
    [0xd8ea90764cade9b3, 0xab2401aefd50558f, 0x4d99a92b2dae4381, 0x344e6fa9e638ded],
    [0x81854d04a293d5a4, 0x3d8f252f2c3956a7, 0xf34ead9978b224ec, 0x28a513ee6230bebe],
    [0x99ba91fbcb0fd207, 0xce44f376ce998e34, 0x811404304e04714e, 0x1e21c489a47bf56a],
    [0x41d52860765a4120, 0xe9430a60962fba04, 0x1a35570028bf5d97, 0x2563badf855b5dd4],
    [0x49e932455ab51612, 0x99c53627cbe5d7ff, 0x18bed033eec46e78, 0x209333ede8112c2a],
    [0x18c8297e3350fe88, 0xdb1f2e31c99caa69, 0x3af1053e8da92456, 0x1b740c4dce2fa0cf],
    [0x3f7823c8d4e16219, 0x1feb64d4e0cf223, 0xf259497b3f27551d, 0x2310a0173db9d135],
    [0x107c12ca823709f6, 0xc5fa82837c5f84f8, 0xb65a8680c1ce2c43, 0x2362c8df290b748],
    [0x6e142e70ab17cb69, 0xaa3a4773fb5c1747, 0x827e47537248702b, 0x24bf53879bc6be25],
    [0x91a01eaa4bf095af, 0x2e3e795ae49a7751, 0xbf346868bb20f1d6, 0x193b4986cecdda54],
    [0xf9c25062aa3f971c, 0xfc9b96af211250, 0x8a0ea4c621016c04, 0x171de60c3b1f0610],
    [0x8fd8fef208860c19, 0x98913cc6800a7631, 0x7fc496ede9af48ef, 0x170208c0bb884036],
    [0xe983b41bdee4d8ab, 0x709a427cc09e83e6, 0xd75d1981b097bf61, 0x19305439f5cd0d17],
    [0xb6201c18e1b56dfe, 0xe00e59b571dd9d46, 0xd95b310dec2b54e0, 0x4523bf1a8f284c6],
    [0x79afb0d01e8989db, 0x55751e48da077051, 0x9f659b29349bfa54, 0x14d4a3a0742364a],
    [0xef4dc76068a1eb9a, 0xe7d15d1627e930fb, 0x26567faf318f25ba, 0x14507c7d18dbf719],
    [0xc9d3f8c80009e6de, 0x7ee8894c9db8e42a, 0xda56dfe18704f651, 0xab92e37d54cdf29],
    [0x8ed2b90c70161473, 0x9d414a99901ae56d, 0xe2d5ab6d99cc5ee1, 0xd3a5cce50b706d0],
    [0x68087ca0892cf084, 0x27dfb6de98761ce, 0xf44fdf37a9c68496, 0x1faacbc551048977],
    [0x38c4684f4a8f6c2a, 0x6cf0a570062df9b8, 0x32622e4c9f6d4ced, 0x82e2d6fbcfedb2a],
    [0xa44787cfba69d203, 0xd3412d46901b471c, 0x70e036b6b65ee4d4, 0x15345de0a699ca53],
    [0x46d46c6dfccba94e, 0xa229e56e941f37b8, 0xc4e428cc2cd6b98d, 0x125429d4185d9e71],
    [0x4756e770e3503601, 0x7ea98a20a51f03b5, 0xa0d03b4115303bf3, 0x10f072b77d74f20b],
    [0x361baa3f2136b2dc, 0x452a206a04bb5bf2, 0xa0b88cc6ab2ef6b0, 0x3a5a00dddccd6ea],
    [0xd8765f946ea5ff7, 0xe65e92dcb190e698, 0xe274dd6ecd6f5889, 0x301071c4a6d3e6b3],
    [0x930b45c15b0ce6e4, 0x6239b771f5ee8a72, 0x38dd10ea79c15797, 0x497842511b8c65d],
    [0x996a6cbc1abf6248, 0x165a02f734965b52, 0xd0786a27a61702e4, 0x1a7f3811571bf5bc],
    [0x70ebd0395a6c2039, 0xdc81aa60c6ae2249, 0x94b94efd98045716, 0x29b6c15ea8aacdc6],
    [0x495e189914f1478a, 0xc925c56efc0cd0fe, 0x15604b57a281164a, 0x1ac6bb7492d1e4f7],
    [0x8993b416dd0750d5, 0xe1858d50656a24a0, 0xe4b093337091a308, 0x1671405a7351ef20],
    [0xae6177bccbe3f34a, 0xd6010543ff0edf90, 0x66c6b4a580e5ee0, 0x29784e4a72baef66],
    [0x8be7241c2908a334, 0xf025c8ba652403e, 0xae1e3203a7e88cd9, 0x15bb878d0c3129d4],
    [0xa6acfbb1e6f44792, 0xefc25775a82f555a, 0x5e243c1c4780f5cc, 0x145ff66f889d0eba],
    [0x1f5a240b7fd2015a, 0x68e4b1d7d23e2cd4, 0xe64bcc7e71398f46, 0x2397dc005d52a49f],
    [0x9ab245db3b7f980d, 0x91d558d686cb92d3, 0xbb40171e9ce8e51d, 0x104fae947bc81f5e],
    [0x2b632ad5cb29c38a, 0xa49adc4774f769d3, 0xc2f2702af25e1d57, 0x11d92195df064b6b],
    [0x7ff16635a57cfa81, 0xadb7781b895ac726, 0xdd6f1ec8f4156fdc, 0x1de8fb3988b840fe],
    [0x96f52f5656affbdf, 0x238f557d50adeee6, 0xdcca8257a778965, 0x27089624e599b1c5],
    [0xf48c6123519218c1, 0x722d8bb7c99f2ad8, 0x4b1492732b5e6f36, 0x1e5b7ee234622740],
    [0x60ac7180c6a87a9c, 0xfb0e6f03f36ec8c3, 0x9d3d36878bbd2116, 0x44744daf2989bde],
    [0x24ff26e7a4f389db, 0xe9a4626abe012f4, 0x634a54cc1903d21f, 0x18b6b8ae538910b9],
    [0x94ec06f47d01269e, 0x24a14187c4287178, 0x4a1a4bdbd2e566b9, 0x1ea586928d1078d4],
    [0xb6201c18e1b56dfe, 0xe00e59b571dd9d46, 0xd95b310dec2b54e0, 0x4523bf1a8f284c6],
    [0x86edaac65fe67351, 0x35fb37625243103d, 0x485fb78b37b57942, 0x299ee7098c20a8d8],
    [0x6cd950bfb4c4f744, 0x3f9b471f25ecfff2, 0x27aa48c131cab018, 0x173d58cc84bfde03],
    [0xac9411f87cfbdb7e, 0xfa8e8f5b26e6fe1e, 0xb3ed0d01cf2dbefd, 0x163536baa734cee7],
    [0xb7f54ca99b377894, 0x5fa9134ddf66975, 0xbae51d147a191aa5, 0xc348237f64f9f76],
    [0xdfd273eecbaaa293, 0xe14e032631c17ac0, 0x97d7a06849d9eac5, 0x23efe24fb00b1716],
    [0x28e35c184d455a66, 0xee33b082b6e3ec38, 0x15b4039e253047dd, 0x1e7878f760e864ef],
    [0xfbf8c886f86fe02a, 0x50314c8ae9410163, 0xfe0cd58abb1dc92d, 0x2bef7ad013467126],
    [0xfdbd813eab14a147, 0x225e81bad63c2a26, 0xe769d85ac6bbe8b8, 0x2202801fc79b3c1c],
    [0xd971c5cbc74e9d31, 0xa20bd2080b06717, 0x58a53bec642e0489, 0x12a9c7120c9ac72e],
    [0x71b67e14356086e1, 0x871f453995f7cdef, 0xfe59bfb40d1bf330, 0x2dc68da29a775c40],
    [0x37d0cbbc8fa283e5, 0x8cb3859bf62c54bb, 0xd4fb2f8bee04cf7b, 0x110afe2764fc7945],
    [0x31290cbd089e9123, 0xa0ef4476d68f57cb, 0xefed62137a17e8cc, 0x21ef54ad10c3962b],
    [0xb3d5d67fd659a716, 0xafe4b2b319b72c7a, 0xd20fc930a295dc90, 0x1c4faa0f27dd17f4],
    [0xef441f6a4f3e5e0f, 0x926b19b57e4c2a3f, 0x11aa16c3cc7ee5bf, 0x496dac1141cce78],
    [0xbe0cf7b3b70bf0a5, 0xc7d935eeac92ad89, 0x9eb51cc7bf62a908, 0x1124c584f931153f],
    [0x93c02a2013d7a25b, 0xba626b7a560d187d, 0xc0535919cfe58b9b, 0xd60e7160e15c49a],
    [0x420929c57f254dfe, 0x5bbac9ca27fc7140, 0x6c625ae15189b339, 0x1fb86c2a75e7eb16],
    [0x61958e2ece0eb937, 0x253afae3405b7695, 0x56f402150e34809, 0x302e9af922d3af8a],
    [0xa3c7655f6c44e6a7, 0xb855cf126f2fbd0d, 0x846894744991f2d5, 0x208a3e5caddbd869],
    [0x4adcb45d5afbd5cb, 0xdf204f994296f415, 0x695b83b0c7e2b65e, 0xfd167a0ef538adf],
    [0xaf1b08d1310e2b30, 0x6e0cf72daacaac1, 0x2a2a98204af8bc2b, 0x1231fcf2898720a2],
    [0xa52a254898131b43, 0x1bfe73902d78b7f3, 0xde8be17b72e4f2bc, 0xad52af94770e15e],
    [0x8b62261422d3d77d, 0xf2dd3b9bd49e54ea, 0x8935a71b3acef9d2, 0x63dedd90276c273],
    [0xe5a2a295011a3bff, 0xc097194ed62d4a04, 0xa6f3becec11d8db6, 0xf58416b4af85510],
    [0x3862d7629df1ef97, 0x2ecb21ce2bfdb135, 0xa806daee6209c9a0, 0x15933b922f212592],
    [0x77c333cb630256b6, 0x9d2f49bfc2334114, 0xa1f1f30b4cb5d927, 0x1228654cad70cfa7],
    [0x5b9316f988bcdca6, 0xb77b54b6af449136, 0x2b0231daf9a65505, 0x1b099efaf6a08938],
    [0x107364178091e73b, 0xb9253a0c587f5a5e, 0x6aff3d873280c21a, 0x75756cb31cafce4],
    [0xb6201c18e1b56dfe, 0xe00e59b571dd9d46, 0xd95b310dec2b54e0, 0x4523bf1a8f284c6],
    [0xd4ccf4d9d2c83c52, 0x203d1f8b0be967ca, 0x6bf3881e93370f08, 0x2e36976f35a34be5],
    [0x9c834437e0888513, 0xdcd3e20d22bc6953, 0xab5de19ff253eaf6, 0x1650b34e0e8b2ad5],
    [0x3b4830008715af8, 0x42ed01adcefe5b6, 0x2078df70bd1c6b4f, 0x2154f3f4c1b5b2a4],
    [0x5ccc325e7a9e8c40, 0xcdab1e57fdcf3250, 0x8e369c0f6db3c980, 0x281286cb63e657f7],
    [0x11e0faf6d6060cf2, 0x44cccbc8e1ac457c, 0x436f7dac2412d517, 0x3008b3f202e3d206],
    [0xca518043272d5b27, 0x1dbfb58915b47d0f, 0x88a2803e4ddd2f3e, 0x2c0268fe5d032bcf],
    [0x48594d6584953227, 0x12fdf78adf936f65, 0xcedbcfd376a8ec65, 0x22e8ab4fa7bac348],
    [0x42b0f325ebd57028, 0xbcdea3eb9d3d1f50, 0xfa4598afbcc898cc, 0xbf717c0f092d04],
    [0x35c5366c9cae12c1, 0xc768803db6fb3d01, 0x690b82421f359563, 0x1f500e6028390530],
    [0x54dc0e7fae528484, 0xa4dac3684a15c021, 0xe1e411de0696df0, 0x1b9881d9fb934652],
    [0x89b73010eacfca19, 0xa6995c3290f2766a, 0x4c380c207c564f4b, 0x24ecaab85ce3beec],
    [0xe07be2c0e64dca67, 0x2bfb0d4352824251, 0x2600b8dc808abe6a, 0x756a8ad9f562abf],
    [0xd4b276ecfa0b318c, 0x40445c1e6eb9504d, 0x73e9dd5e5e2966bd, 0x2a1d50d0f3da33a8],
    [0x669be07686e9217d, 0xb8261d2e1ee56d56, 0x495a5ad4fb69ad25, 0x1fad2242540d4366],
    [0xf63de9e5211623e2, 0x529871d0401b4de6, 0xc9965b5a7b2e8a51, 0x113ad8b46c3eec20],
    [0xa6e821220130e000, 0xd1ef6e7b221d4ccc, 0xb99038f47f81a1c5, 0x1fc50a16dbdfa1c3],
    [0x2fff01e852a44b4a, 0x69c83b5ed82ca264, 0x5651a8cb83048c76, 0x1214a9d6d7288fe8],
    [0x68cd958e305026cc, 0xf5da156f88c58675, 0x788f49475836712a, 0xd421a7c25af5538],
    [0x6acb8c1cb9684e24, 0xa46de8c930c86d26, 0x711fb9230adee1cb, 0x2de8ba83d2b6ab6a],
    [0x27b3b013d0a91fb2, 0xa1559ea05c3f598, 0x1bbd83ab7ca285bf, 0xea7be82f1cb493b],
    [0x74239450f914c8c5, 0xa8e905cfb792bf78, 0x51d713ebdfcebf9c, 0x1e3ae7e5775d3526],
    [0x7cbb90c5122a64b4, 0x27b8c14ac82a0de5, 0x50018a4e2375f4d0, 0x5943e3618a32cf0],
    [0x69b3af95e78bb335, 0xc00cfd058274d7d9, 0x215d61e5346b116c, 0x603755180f66e98],
    [0xe35845947dca0b11, 0x41d78ac5a549c684, 0xecf70476c4044c3f, 0x19817db66fdb8215],
    [0xdcb3fbea95d642f3, 0x37a3f0226b029d36, 0x3a955d42da55fd7c, 0x73965f7a9ba8cb3],
    [0xa3cf427da77eccd0, 0x7f36a1a29485361, 0x6694125b5642b006, 0x9a550431430846b],
    [0xd156e33d59c43515, 0xf009067666c0853, 0xb61a6ad501f380da, 0x68eb4e9d6e0a588],
    [0x3fad439874f6024d, 0xf332bff06958cc0f, 0x96b70d0923a7cf7f, 0x225e00a0da5a7f74],
];

/// The values of the sparse partial-round rows for width 15.
#[verifier::opaque]
pub open spec fn s_vals() -> Seq<nat> {
    limb_vals(S_DATA_0@) + limb_vals(S_DATA_1@) + limb_vals(S_DATA_2@) + limb_vals(S_DATA_3@) + limb_vals(S_DATA_4@) + limb_vals(S_DATA_5@) + limb_vals(S_DATA_6@)
}

/// The sparse partial-round rows for width 15.
pub(crate) fn s_table() -> (v: Vec<Uint256>)
    ensures
        v@.len() == 1740,
        vals(v@) == s_vals(),
{
    let mut v = from_limbs(&S_DATA_0);
    let mut part1 = from_limbs(&S_DATA_1);
    let ghost pre1 = v@;
    let ghost add1 = part1@;
    v.append(&mut part1);
    proof {
        lemma_vals_concat(pre1, add1);
    }
    let mut part2 = from_limbs(&S_DATA_2);
    let ghost pre2 = v@;
    let ghost add2 = part2@;
    v.append(&mut part2);
    proof {
        lemma_vals_concat(pre2, add2);
    }
    let mut part3 = from_limbs(&S_DATA_3);
    let ghost pre3 = v@;
    let ghost add3 = part3@;
    v.append(&mut part3);
    proof {
        lemma_vals_concat(pre3, add3);
    }
    let mut part4 = from_limbs(&S_DATA_4);
    let ghost pre4 = v@;
    let ghost add4 = part4@;
    v.append(&mut part4);
    proof {
        lemma_vals_concat(pre4, add4);
    }
    let mut part5 = from_limbs(&S_DATA_5);
    let ghost pre5 = v@;
    let ghost add5 = part5@;
    v.append(&mut part5);
    proof {
        lemma_vals_concat(pre5, add5);
    }
    let mut part6 = from_limbs(&S_DATA_6);
    let ghost pre6 = v@;
    let ghost add6 = part6@;
    v.append(&mut part6);
    proof {
        lemma_vals_concat(pre6, add6);
    }
    proof {
        reveal(s_vals);
        assert(vals(v@) == s_vals());
    }
    v
}

/// Part 0 of the dense MDS matrix for width 15, as little-endian limbs.
pub const M_DATA_0: [[u64; 4]; 225] = [
    [0xb6201c18e1b56dfe, 0xe00e59b571dd9d46, 0xd95b310dec2b54e0, 0x4523bf1a8f284c6],
    [0xd2c25e40f04c578d, 0x1003fd8b45400748, 0x82fe5650e5e799f9, 0x19a92ac6087ab899],
    [0xd450b24bbb4967d7, 0xe6b554f5dacf0b69, 0xdf5a285f5f7f6a5c, 0x302608d750f16491],
    [0x8def49981c98c424, 0x83eae5b7563405f4, 0x2d0d8407b287674d, 0x1a3c7daa6b4af566],
    [0xef68dd90177c1e9b, 0x8894077df2411f91, 0x679367dbf70f08d9, 0x2db1c9855ac29acc],
    [0xe1b30eca7de99d27, 0xf70a567a0464b348, 0x810bbcb214a25da7, 0xf06ee47558f182d],
    [0xc8643a58daf8cbb3, 0x3a0a1c288a743344, 0x63381cf1560d00bf, 0x2166d78d948dafa9],
    [0xedc454c50cbc4401, 0xe1afb26bcaeea2f4, 0x34fceae665d96b1d, 0x2929be9bfe3f93cd],
    [0xfdccd7898ec67cd4, 0x762dd577946f36fc, 0x7c6c1fda9a37dc2f, 0x1076d439c67997c3],
    [0xf3afcc687ce1321d, 0x5822a0f6b3b25def, 0x4624d02bec3ba466, 0x185c9ad0da87cf82],
    [0xab24f0cec49f4648, 0x4c037aa4151823ce, 0xfb73926c1104719f, 0x2702b1be39e91044],
    [0xe0155709d93dd375, 0x6c7781845252fdf4, 0xaeda93803cdc0318, 0xaf71a51cd463b9f],
    [0xe49db8b30f182d28, 0x1af4f67b4c52ab45, 0x293c80b98edffae0, 0x28667f9c7332073e],
    [0x35a12606a59c2e5c, 0xbb13254c272a5f86, 0xa23040afbcdaf998, 0x2763c33f5b2d7bc3],
    [0xc502ff97f03a85a6, 0x6ba3f5f06c4dcf4f, 0xa32aa8292666c4cb, 0xf81a8d8e08758e8],
    [0xf63de9e5211623e2, 0x529871d0401b4de6, 0xc9965b5a7b2e8a51, 0x113ad8b46c3eec20],
    [0x4619efb94e649110, 0xa44a2382c66e2751, 0x7ab92b08bbb5b195, 0x7930cd5256f8ab7],
    [0x77783594edd28b9f, 0x37de6b48490efd31, 0xead70b3b72c79430, 0x28f8144bdae1b904],
    [0x2df1d3f14432b608, 0xa59390c8a3661fae, 0x5ef3fbb190651135, 0x2474f543d1f2f33b],
    [0xdfaff8581201a097, 0x23228425681950e, 0x57ac41f743b166da, 0x21715a84742c02d0],
    [0x30daddce65a4b82a, 0xb7f4fa63a082a3c0, 0x44c486fecf02238c, 0x1ef0e0c1f0b5f676],
    [0x7802f61778488e87, 0x947f5092d4a7a9ec, 0x23dba4d90fba91eb, 0x278e8dac8c56b28a],
    [0x918c347f3cfe92a5, 0xeefa73d7410d8585, 0x7e98995e6f7bfa6f, 0xfaf33843e673343],
    [0xfbb9cc2a997fc006, 0xe634b65cee317af1, 0x6b71506c8b508347, 0x2ba437d6ae6c588c],
    [0x18670d7927e41db0, 0x91cda79f9debfaf1, 0xdb98a5af38feaa53, 0x24a6c1919f94aba9],
    [0x3fdfbace67273b92, 0xe2662c880503e464, 0x1397678ac42abcc6, 0x4d80e7ef7e27a2b],
    [0xa49075aebb8785f5, 0x48f3f9551cef6812, 0xb0a258e31b8e6e2a, 0x17f6a3aedb0005a9],
    [0x9e5f229c85bb97db, 0x61591a9f5eedc244, 0xdf85149459506813, 0x1e62029129492c8b],
    [0xd9eae43743875278, 0x150fd7ee28d195ba, 0x4fc95f3c249f801f, 0x16bae774867656e6],
    [0xf7b186fd12a41e57, 0xba415e35167b563b, 0xfc3f156adfb6c512, 0x10f0172799be23a8],
    [0xa6e821220130e000, 0xd1ef6e7b221d4ccc, 0xb99038f47f81a1c5, 0x1fc50a16dbdfa1c3],
    [0x8060796ae84c1b08, 0x7d7e563488a9f319, 0x9e38eafbc7e101d1, 0x2d8d3d924f289719],
    [0x1a6b374e662935bc, 0x3d4cd4020ca66f5e, 0x90c650ff9e27c9b3, 0x2aa9aae62cdb8524],
    [0x77d31903921057e4, 0x87e38d59be208e83, 0x73b95773f4676666, 0x1848a60efc899650],
    [0x72d5cf6e17ae2499, 0x5e24ee71a1f8c1f0, 0x30cbfe0004ea665, 0xc893808103549d2],
    [0xf065618b87b82aea, 0xf225fe42a9ba655f, 0x7b4a37b9e103db32, 0xad80718c6e9d1c6],
    [0x87e9693fcfd7a649, 0x6d33191f05612714, 0x90246f88736ee5fd, 0x20d87476f1243f4],
    [0xd8937a359ef9b401, 0xc3805566b7d4d412, 0x8f4fe37356ca4f0e, 0x134b86642ff20238],
    [0xabbc68852fdd2680, 0x7562d3fbb1878257, 0x9983d11574ed99dc, 0x2c04878b4cb8156e],
    [0xcd95ba9bbabbba59, 0xb54b43f9a7e8fb8d, 0x9d359232120b183d, 0x1783a45215805ade],
    [0x41e3f27095f7e195, 0xdcdbfc488a59f4dd, 0x3cc5c8c228ac8ac2, 0xfc96302e8662de2],
    [0x9cfeb246dac80720, 0x375d7ecaa016ecf5, 0xdff8de16d7cd2bd6, 0x24b22e5ce671ce79],
    [0xe7902ddcf9b0557f, 0x349428ba4920cfd2, 0xfd805156c8affb84, 0x52c33fce08d4a39],
    [0xe3cdee4c07ac31b1, 0x5cabff7bd4d147c0, 0x2bba4fd01276102b, 0xf0d475225c9970],
    [0x70c67f4b1858fc54, 0xfc9e8863fb2d8065, 0x157d4c477691eeaf, 0x1183e91b7ab7372f],
    [0x2fff01e852a44b4a, 0x69c83b5ed82ca264, 0x5651a8cb83048c76, 0x1214a9d6d7288fe8],
    [0x59b714f45c3f13b1, 0xf9d97edf01223331, 0xc9838067a8df6340, 0x1c0de2bfeafce164],
    [0x76ec976b5f173a82, 0x204a18727d1401b4, 0xbaa95de0d99b4e39, 0x1e394d80067f0e10],
    [0xef558be5fab359bd, 0x37155bcfb942d82b, 0xd318cdb5f6971931, 0x2ca2d8b0a793d90e],
    [0x2d5219210fe8a2b0, 0xacf7e97ea6e64ae5, 0xb12371f13bd7dba0, 0x28427ab007a68c7a],
    [0xf2133dcf29c70dd1, 0x328bcdfc4630fcc2, 0xa7080b37fc671a96, 0x2cffc378d2cec76b],
    [0x25d562eb8d97544, 0x2a08793d7185255b, 0xfe1fcb950e14df20, 0xcfcaa1d7d382e1],
    [0x432246cd3bd01bde, 0x742fd3c08e1ae250, 0x6e372771b0a776bb, 0x1d8724c5e641d96f],
    [0x60141aafb542a429, 0xac92be7a38103034, 0x100834649ee87a27, 0xfee8f9731397974],
    [0xe323036f54277108, 0xcefac489a6bff084, 0xb5e1e82b2ace3a45, 0x116f239abe820737],
    [0x9261bfae6fa25b3, 0x2e2aa7a28a6b63e5, 0x6dcd548b394425a4, 0x2a31cadb918d78b9],
    [0x2d988454809e096c, 0xb2142a1e804f2501, 0xab3d15efcf3074f5, 0x240caf6d7ab2f7b6],
    [0x8a48cf83324c4144, 0x918f15e0cd231b84, 0x14db1e817d1ff16, 0x2224c85f0c0b4093],
    [0x923f0bcf14c914a8, 0xb5d694716c20db87, 0xe3aaf598ef132853, 0x39a288951a0381],
    [0xf83d3bba126b2aca, 0x66ad39e3377d302b, 0xa66bb577add4cadd, 0x17620d438499f6c0],
    [0x68cd958e305026cc, 0xf5da156f88c58675, 0x788f49475836712a, 0xd421a7c25af5538],
    [0x54c344b8b8c17cde, 0x7932e7b3531d9424, 0xcee332f30eebafbd, 0x20e4a28303dd55e5],
    [0x58191f65046b972a, 0xbdaa8e8e714e918d, 0x9e35218fe34e469e, 0x20bd028c958d57b7],
    [0x2569b8368da1abc8, 0x3599c054c1b4e202, 0xf334eb257ae5e318, 0x6ed98a185bb2358],
    [0xfe009ed377ae9c36, 0x53774ae93a9e9360, 0x1f5ac8e69a1e5324, 0x51deb4b234890e3],
    [0x5458c6b8d5c6d346, 0x56b96a71ee20a66a, 0xa8b9ac4b7ed4b04c, 0x21f1f6a630471e32],
    [0x9f86dc0bcc68a66, 0x252baa127d9ac769, 0x1a0a45f922c894be, 0xc39dbdf6e6d24a9],
    [0x7c6349fb75e48b96, 0x92d84d4a65e86e6f, 0xcd1bfdd8fcdece68, 0x305614aacdfd4167],
    [0xdc681208be6f85c5, 0x774cd5ffaedc1b79, 0xd4260ab2021dfbb4, 0xef9ae65eb922605],
    [0x7d6f5bc00428b8b, 0x56d0fa5d299b5edc, 0x5c29a4708c4b112b, 0x1adccb898e5fe18b],
    [0x9d3f5cc7ac001e9a, 0xfc033196747e3413, 0x8f7d01091c7e563e, 0x18a2661c03ab9b0d],
    [0xb879745aeb57b5ea, 0x8dbff4af6197847d, 0x3ca38bff10bb0f3a, 0xf8aeec74144d00a],
    [0x67c2134fd3151591, 0x5f3b50368154154e, 0x4e57bd6b1b1d955, 0x1f53514a97e8b572],
    [0x86da6ff2ee11e107, 0x63f3d6c875f6fea4, 0xdc8b6d13da19fb8d, 0x27bcd639c47482d2],
    [0x874a10428ee6cd21, 0x490373cab582193b, 0xf97d28e272fc42d8, 0xe9e8373114ad25a],
    [0x6acb8c1cb9684e24, 0xa46de8c930c86d26, 0x711fb9230adee1cb, 0x2de8ba83d2b6ab6a],
    [0x6357a723f6cf57be, 0x80066ea8347abe53, 0xcf1b10db1b738c67, 0x1bb15ee4d492a8e2],
    [0x46a1dc27e7b686fd, 0x2dbce13e1c2a0a8e, 0xd86205ff114f34dd, 0x27fa2120431379cb],
    [0xd0148cdce2d7c372, 0x47ac1063fb9fc656, 0xb00c0fad360abaa4, 0x1ab527614a37c2ff],
    [0xbbfee876c9e7f1e, 0x8e135ceff076fc53, 0xcef2f806f40eed8d, 0x170cee2983fa3d3e],
    [0xf2317e70bb658209, 0x93fae1c9cbce6c4f, 0x2251da91c84e1235, 0x288851770f1a1382],
    [0xc63ad5b85e7fdd06, 0x1210ffd2afe817b5, 0x4dedf5156cd799e1, 0x1795384e91bafa55],
    [0xb60d702df009010c, 0x2359646a0287ebe8, 0x5ba28cfdaa15e7de, 0x2cda26473cfdcd18],
    [0x86a60397267308f3, 0xb6157c24f402246b, 0x59007114ecf1fbfa, 0x27ab4b40901465ef],
    [0xbb061e5d1be93626, 0x23dc77cc06108c0e, 0x6ae9e14e8e99da5c, 0x27122781df7bb05f],
    [0x6c79e729ff0eb2e6, 0x4b0094d318ace036, 0xcad4bba1aef71bd4, 0x26812acd03db3412],
    [0xf7bd9c3c373ea17, 0x76d131d8e034b304, 0xc0d109ea61694900, 0x213d29d4e1b6c01f],
    [0xcea0d63961f934f3, 0x22ada34181a9e6db, 0x84a0a73653f2d452, 0x2132f71ac89892c9],
    [0xe5593c83edff5f53, 0xd7839e083fdb92c1, 0x3ef28b6063eb7a2e, 0x121395023931f6bb],
    [0x570096111fb109b5, 0x9be254fcc4c5da8f, 0x9806caff77ced39c, 0x1f665ba33da4ab9d],
    [0x27b3b013d0a91fb2, 0xa1559ea05c3f598, 0x1bbd83ab7ca285bf, 0xea7be82f1cb493b],
    [0x894cdf483a3b63e3, 0x7e7db5550b1cc30a, 0xd9cfa63770785321, 0x2ccf31a572412bb7],
    [0x6b9b1bffe521fe86, 0x7017b43b213eeed8, 0xe3c97afbc4f49361, 0x564651bc1179170],
    [0x679c3ac6be84d450, 0x540a619b87c95444, 0xb454abff0c00b89b, 0xbc769cd7b34fcd1],
    [0x6016b8893c35123, 0xe4a0627f18751dc9, 0x75f4640b18c7d067, 0x244b6b63f8041a59],
    [0x3f06fc9db8c27a94, 0x5413376e88ec3ddc, 0xe2715dcd119c95b9, 0x2ff4ee110ee1be62],
    [0xc012b49aaf849049, 0x6601a21884372369, 0xb057aa0e6e8a1039, 0x2666ec1a67daa7be],
    [0x6f6e76832d478847, 0xb5c9d77442b6d186, 0x9e70ef918d019f44, 0x2b0666971fd91152],
    [0xca3f429addbf3052, 0xf0323ab7b718d4cb, 0xee87f511de3985cf, 0x2bb5bf03cef933e4],
    [0x5e4a84f437729d02, 0x38fadfc7cab6c558, 0xa0799cffeb7f9dae, 0x2e37a7440e75b649],
    [0x38fb9932a853268e, 0xdd8125cfa6c30f37, 0x2d88b9f1ada8ac99, 0x371f0d49346df],
    [0x7e089120aac7a4ff, 0x8d33a86872c1d3e, 0x4f58e0ff93386d16, 0xd0327b593042de0],
    [0x561d8f32d291f9c1, 0xc97ed42309b4a184, 0xaa4b2116e53944be, 0x4dbc4c8de708e59],
    [0xfd2e48cc66ff9b24, 0xe6fdf018710e4859, 0x13af13f98bf88507, 0x290ed9ae7479f9be],
    [0xee511d60aedb02fa, 0x11b226bab54b0aca, 0xd5064e4d572df558, 0x135aa38339bd927d],
    [0x74239450f914c8c5, 0xa8e905cfb792bf78, 0x51d713ebdfcebf9c, 0x1e3ae7e5775d3526],
    [0x31ed8662a1f6ffa, 0xcf85bc4f344042b2, 0x2941bb163c5118bf, 0x1d492c34b245bc1],
    [0x5a7082395882865, 0x435c7b451aa72a8c, 0xde1febe72892d9ad, 0x7333cbd0ff13c8a],
    [0xfbf05be38f8f76f1, 0xa497a7453ef9d579, 0x2f8d238703608db7, 0x29ad5236ffbb598a],
    [0xc45a22d7d98a0a30, 0xfa786070ce62d806, 0x8d7f0161255c6895, 0x2e72b1b114dfee7e],
    [0x156abec366aab786, 0x9d2b4b96b0b4a91f, 0x5ba31064001ca777, 0x2ad369a84b57f745],
    [0xf2efaadafa97adf4, 0x5d8e1a12fa1a7280, 0x315dc5bf5a3662ad, 0x15793f31caea39de],
    [0x79ad214b42da834c, 0xf43a770f3e38c3fc, 0x43a12f409cd2c4bc, 0x56c55df543a8d40],
    [0x80152a5610eb01e3, 0x29be5c06f5bb2932, 0xee72f1274850c3e8, 0x1ee10e28c612d9d6],
    [0xf5ce987af3fd719e, 0x8486828b212146c3, 0x3c0589a7046ef075, 0x29f356dcec3b7952],
    [0x2cddf63cdf28b975, 0x80a7d86913660310, 0xe9e53c0c026e839d, 0x27cea9c43fe0bf1c],
    [0x509b41a2dc9e7740, 0x458648439fac1f28, 0xfd2c2a01a97bdf7d, 0xbdc078b1edd9cb1],
    [0x51be4fdf33d90f4f, 0xbf662c1f49e2ec92, 0xb0b63664319b8a47, 0x2565a17a6bc56e87],
    [0x4e6034101c658868, 0xe1cbdd7472449ed2, 0xedf21bfb30e2d64a, 0x15b085b5eb678f8c],
    [0x5550842e1a35a1c2, 0x599035ff515b6d48, 0x81b29ba7df848dd6, 0x22bc96cbe7f8cbca],
    [0x7cbb90c5122a64b4, 0x27b8c14ac82a0de5, 0x50018a4e2375f4d0, 0x5943e3618a32cf0],
    [0xcb7e671615b0ecce, 0x997eb7b8cbd8d8b4, 0xdc6b3abfe05675fc, 0x1c9b5c2c07fccfd9],
    [0xf11612ff8a955b10, 0x932607be2e829163, 0xcb91923c9248971, 0x290a7ae732f4754e],
    [0x9a38ce53b6e03df, 0xd99bb7289a5c1cac, 0xc5ae05d7e26cf92, 0x1434ece209d49128],
    [0xb2f69e0fcc21c0bb, 0x3c4c3aff53c683e, 0x852bdd5d5e09966f, 0x228e7399b0e05802],
    [0x9e001815edb41404, 0x8d57e90be7b8046c, 0x59d6c56f711f25e3, 0x24f0fa154fcc6d64],
    [0x65533cb5661d2a95, 0xb6fb9e15b02e7bd0, 0xfea54f26741d86c6, 0x18800bda17a89832],
    [0x3fc29555402b5f4a, 0x8f986431b244034d, 0x3b0c2562a18a24ab, 0x16b11f24502aa4cc],
    [0x1946eb2541f1fbad, 0x951d8b2ef2b56299, 0x2b106439ab03a8a, 0x20a9d575fea8913],
    [0xabfafa9e8e08eaea, 0xe62662259905105, 0xbeaff107b95accd6, 0xf9c05f609ad14de],
    [0x992feb753b4ca07, 0x78c93fd02ec9e0f1, 0xb9cd4fe929e7b8c, 0x95f1db43c827e6f],
    [0x5fa7ad526548fea2, 0xd3fa7a401bf38bd9, 0x42832d97abd90866, 0x26bc00d9cd251244],
    [0x19bd4d444726f79d, 0xb8ebbfefe3771d98, 0xee04bd6dd9dc15e4, 0x173e80596756cd9a],
    [0xa76dc1f38214fe38, 0x6ab0e3f24ecc3b28, 0x454514dd469551e3, 0x12a643f4a327acd2],
    [0xa9d0fa81fdfa4900, 0x72c7bc3ba192e438, 0x49877154ae173a1a, 0x11e1b0af7f5fc9f0],
    [0x69b3af95e78bb335, 0xc00cfd058274d7d9, 0x215d61e5346b116c, 0x603755180f66e98],
    [0x49b4ca66a1bfe98b, 0x47c1bef2ff8023a8, 0x45f2aa02d588922b, 0x243930ba01dfd39],
    [0x73a2b1dfbb23fed7, 0x74b8b1fd19e15d7c, 0x5f4fe7cdb675e364, 0x1eb520feac62e454],
    [0x2b25a387ea00cccf, 0x83838d13e11c1ee0, 0xa1f8f5113d60e985, 0x255dfbdf30553413],
    [0x26f32b5e66a0b723, 0x4c09fdc7d6c27b44, 0x996c6cae15b92d2e, 0x18451132581b9adf],
    [0xeafbecd533dda6d1, 0xb6baf87284131735, 0xdb705a8723038b92, 0x7221cad39d9b5f8],
    [0x4cc732b7532f7fe0, 0x8b2406786cd1dedd, 0xecf4dbf21646bb96, 0x156f6a09e6a81d8e],
    [0x17d920c03c98686, 0xc75ed93a13a7ad4a, 0xfac361b5b8e7f97, 0x18ea0ede9010c7bf],
    [0x94b9526a39d53221, 0x85c9dc6accedc234, 0xde14246b1401bef4, 0xb73119c98d25eb6],
    [0x7864c92e911986c6, 0x25f907ab64479d11, 0x3334ed70b7fd7fb5, 0x1c66828552cac144],
    [0xb2e3d94bc342ff58, 0xeee8ce977ca1eff5, 0x8e95507efc2085ee, 0x10a66268dd9a2f36],
    [0xeca792b3f2f257e, 0xd80ffc188798a457, 0xcf692b123c65873d, 0x1f14aab5a59ad452],
    [0x65f98304f7d822a6, 0xcb50165e019bff1e, 0x701621acb41324ca, 0x1d34655b5776e24],
    [0xe6a43a2069572f95, 0xe3f740f141599af8, 0x11a639e3bf0e90f6, 0x16a1eedbbea79c54],
    [0xe28f0978822d65ac, 0x64c7b85382267026, 0xadb21b07455d2c28, 0x14de448becba6ca0],
    [0xe35845947dca0b11, 0x41d78ac5a549c684, 0xecf70476c4044c3f, 0x19817db66fdb8215],
    [0x411731524f42d90b, 0x78d18e2da9f019f0, 0x9b36c233f598bd85, 0x8f328e5e66c0b87],
    [0x5ecd05fbc2cbbd19, 0x680f55e8a0fdac69, 0x4cf992aedc2635f6, 0x259a2a1f04684472],
    [0xf2d02af862abedfb, 0xb7e7e2a79979a416, 0xc368c2816a53bb16, 0x67d9294b4072b12],
    [0x26e199670a0859b2, 0x88ccc7a6c0470e7c, 0x6e65d7551e9a875a, 0xe1d7ec2a54b11b3],
    [0xa5c2e56c48fd54c9, 0xd785d1e3e4f1eb72, 0x34aee9c14e889cd7, 0x173b3b349ee888d9],
    [0x15691bd143d4d2de, 0xa61a72549ae57d0c, 0x21ab9e34bcf07bbc, 0x2977658a10de6e79],
    [0x614d337897f6b1f, 0x426f98d9e5ad1692, 0xa4a548749b73ff7c, 0x396097733de5a1f],
    [0x184b826d70dba9c, 0x1027a59e7c592e76, 0xec5079a0ece1c534, 0x2a66defcf489c23e],
    [0x7c30c62b3f95490c, 0x8beff957c4b0cba1, 0x5aa6aafcf367e3e6, 0x10f43368c0567f40],
    [0xbe66f542f95a7b2f, 0x5a7414f99825f8, 0xbd61814f2deb06ed, 0x25a2a43ee612663d],
    [0x6bd7ca40aaeb7abd, 0xaf40b66eaaf579ca, 0x7b1559c58207a6ae, 0x182f1c93c6eb2986],
    [0xace118e15c91fb77, 0x5535c9869b76d6cd, 0x147a482eb436a3b7, 0x42eea616d905025],
    [0x3cb8930d9456e4c5, 0x79f29d23f1f16daf, 0xe198554fd64db8c4, 0x5ce7f592dca2148],
    [0xde16f248de4bb902, 0xb2922883eab0b2e1, 0xdbb4c4628e2e47fc, 0x1844a81d4fab57ae],
    [0xdcb3fbea95d642f3, 0x37a3f0226b029d36, 0x3a955d42da55fd7c, 0x73965f7a9ba8cb3],
    [0x81aa75a5db2ba12b, 0x395e348dcecc89fc, 0x63081c800713e0f2, 0x284a2f083ee32a66],
    [0x34e4d48ed9d89dc3, 0x9083ca8cc800bd91, 0x4c41abbca086569a, 0x8f78e6dc59cd469],
    [0xaa177ecf6b6ae853, 0xff21969a9429e400, 0x938065ea47f80f65, 0x293ca8a06c5f179d],
    [0xbfa5f1335ffc5b93, 0xd7a839a2e8576c55, 0x8824da0c2a11b408, 0x29b68e652deac81],
    [0x15953171de3a70f9, 0x37feb29429fd3a50, 0xfbd520f3894a0fdd, 0x9bc3e40bfe5f616],
    [0x5186608acc542e4, 0x11fdcb559a43773f, 0x89263736e5448171, 0x284181093e434197],
    [0x893a9d80e56a0825, 0xe6f2efc24bb18756, 0x1ae9c26e53423f9b, 0xb9d5a3a957eef25],
    [0x87d4b1bcf9a635e1, 0x71f7897e92d57f2d, 0x318fe24718fe5958, 0x4aa8e91dc30f9ca],
    [0x6e0d8df072c5f69f, 0xfebbc307d8833c66, 0xafd8399fca58ba27, 0x253a11c66463a6dc],
    [0xebbf3ca33397968f, 0x856e706f598337df, 0xa02d0d91d8f89825, 0xe4fd498778c2c76],
    [0xaf1bd283ab86f122, 0xd62bcea1e493a080, 0xd1133bf9da5f1e5f, 0x126ec8c200262c45],
    [0x7a96dc06cb77da51, 0xea0fa6decfa98cff, 0xe576ebabb39c583f, 0xcf030b10a1b4291],
    [0xfabd37a9acb299a7, 0xd7b3a377453ae778, 0xc0bcdc3affeeb436, 0x110298fe7f2bcfda],
    [0xd069fafd43055452, 0xe49d4d93365a2b3d, 0xa94bc5621574783, 0xeef04f24ae210ee],
    [0xa3cf427da77eccd0, 0x7f36a1a29485361, 0x6694125b5642b006, 0x9a550431430846b],
    [0x592aebc390055a35, 0x47fa49a5df691252, 0x9b96427c6ad05733, 0x19772e83816fc2c4],
    [0x21422bf8bdba7fce, 0x32d29c6b1025cb54, 0x43c88cda01285f8f, 0x2d8ec6adad3a6468],
    [0xe01f82573775f6fc, 0xf25a6ea803cd32a1, 0x4f1bcaecee773632, 0x255b96258dc8e164],
    [0x9bc75567e39bc402, 0xaffc3410f6a8dfce, 0x2f38099b0e35e767, 0x186e1360041193e1],
    [0x225e3d94cc48d22f, 0x20aac90d4a0a66c2, 0x2578aabd76f23a13, 0x29cb31e1afef4f25],
    [0x8e04a0d8a2b344b1, 0xd030d8cc0150fdc5, 0x3900c01f8b697760, 0x200fa20ed1b87131],
    [0x72e9f1538e5555cf, 0x4d778e490c212d4b, 0x5136cb520c2f1c4, 0x1a63a589d1710aa7],
    [0xd03e669f796e87f, 0xf60fe398ed9d9c0d, 0x93e869360cd50d8d, 0x133369b3bcc73ee7],
    [0xeea30398f9df7893, 0x3db8433349203035, 0xaaad9c73f21a4619, 0x1e99516c240d42bc],
    [0x1af36e31af82170e, 0x1adc01e90d09c945, 0xb1ee8ebae81c32e0, 0x13d84ca7f358aaff],
    [0x5de643df167d4caa, 0xaa9d924840aef655, 0x6e96d839827bfddb, 0x5a78464a4b6bbca],
    [0x1e1b130191ad0df6, 0x3f5e252d4c04508b, 0xdb3de9eb942edeef, 0x260ef13ac7e80fd2],
    [0xa7a5b427457a02c0, 0x3dab99c62aab7364, 0x6fc30545047243fb, 0x14829f09d4beebbe],
    [0xcbcfe5dfb7a945fe, 0x8b24fcaa72f43837, 0x8921a89333bab97f, 0x1328467c87ba7302],
    [0xd156e33d59c43515, 0xf009067666c0853, 0xb61a6ad501f380da, 0x68eb4e9d6e0a588],
    [0xbaee85d353d3fe97, 0x54e01dbacd67f0c4, 0x3ac379945cb9b58a, 0x2dc5900039d4c852],
    [0xb0b909682a03200e, 0x6e8352d4af19e47, 0x7d28cd2909507f30, 0x1b72ac4374e95b7b],
    [0x744b3b379d426618, 0x3c5c4d7591d45e06, 0xa22bb1563c3b28b2, 0x1f2a8dcafe79fd0e],
    [0x438706d6106b04a8, 0xecd37ecbc018386a, 0x377d671fabdf42c, 0x19294dd22da67347],
    [0x53054b40f75c0b00, 0xe66c1d685aa45981, 0xe0d4bf306d41e622, 0x1932bc6bb488b736],
    [0x34b4eaedc17e7e60, 0x2a0827de74070d2d, 0xaa7c59d83393b16, 0x8d1d68b8437bc98],
    [0x3e8cfe8bad75dfbf, 0x9bad309ee38311dc, 0x48519b59b0fb6d4a, 0x1c0343816b8cecba],
    [0x23b608638ccce29c, 0x25490c423284916e, 0x2ae917914f250850, 0x709eab96cc6255f],
    [0xd3594824c5016565, 0x223d85c77cddc2c7, 0x2b1c7152d4585b78, 0xc67a06b33cf7388],
    [0xe34d544003ae5994, 0x72007dccfd2530f2, 0xfae204369c554cfb, 0x740c1e9b8ed16e9],
    [0x4c6e723845678523, 0x468980988faa1f0d, 0x38b4380af38e0458, 0x2a84c424eb58f9c],
    [0x65015b76dd82f5cf, 0xa5d27eec1fc8fa17, 0x99c614aa28068783, 0xbc367fd93ceacb5],
    [0xd1866846979aab9b, 0xde575c72d4dd9db3, 0x4104f8c446bed4c6, 0x278b58503e0b901],
    [0xbb45d2c0fef06930, 0x998595ab9748f695, 0xdaaff450731ff35d, 0x791d832e976b66b],
    [0x3fad439874f6024d, 0xf332bff06958cc0f, 0x96b70d0923a7cf7f, 0x225e00a0da5a7f74],
    [0xb5ded5594aef3cca, 0x2731ef2415c37f40, 0xb45832fdab4a4937, 0xcc378b44e58f668],
    [0xaf7e732af91dff27, 0x12d298b6726ffbd3, 0xd4d5e8051c5bd5e3, 0xd7d8273de237ba2],
    [0x424cc0428c35726f, 0x11b3967e519e438c, 0xb0928885f52449b0, 0x22ebe0a315e07be4],
    [0x33bd6e8d3e38234f, 0xb4d96961eea06e81, 0x436655e03af8aee2, 0x2ed3cf0214f444d],
    [0xaac29d1309830e85, 0xaf8055bdea3f379f, 0x2a51904939d45a05, 0xcb6fa0a5e11b919],
    [0x28a1737e8cca3e7c, 0x6da5d62425083ec6, 0x78602b8dd3474f27, 0x39598a1443c0096],
    [0x644069e3c243793d, 0xd60fb9f4038c2942, 0xc5d7ab7b83770f0f, 0x1af56e6575123f99],
    [0xa003acb3d3e90c08, 0x59def86630af3141, 0xa2f08c343c69cc6, 0xe8d9c0707dc5bf8],
    [0xe82e3e5471ef84a9, 0x14c888250b38cf8, 0x6d37b47a1f063122, 0x1f6dd8e85d3597bb],
    [0x1ae94a95777cb72, 0x440bdddb940b2083, 0x84845da1899bfc52, 0xcc8f90bab68e6de],
    [0xd353fa280c796821, 0x93b07e2a10164096, 0x5c97166be347ca2f, 0xc0dcf2b13552ec5],
    [0x91a9951cfb58192d, 0x661bd9d5444577c4, 0xf900fa5d111a0ce2, 0x1f126117a949df],
    [0x11bccad89acc509e, 0x42bd352cf371e433, 0x5206d48cabb269ac, 0x138f67fbd9cb91ef],
    [0xb893d717e34f9d61, 0x9efb59fff09f501f, 0x623906ff45df11c3, 0x11492ba406435f35],
];

/// The values of the dense MDS matrix for width 15.
#[verifier::opaque]
pub open spec fn m_vals() -> Seq<nat> {
    limb_vals(M_DATA_0@)
}

/// The dense MDS matrix for width 15.
pub(crate) fn m_table() -> (v: Vec<Uint256>)
    ensures
        v@.len() == 225,
        vals(v@) == m_vals(),
{
    let mut v = from_limbs(&M_DATA_0);
    proof {
        reveal(m_vals);
        assert(vals(v@) == m_vals());
    }
    v
}

/// Part 0 of the transition matrix for width 15, as little-endian limbs.
pub const P_DATA_0: [[u64; 4]; 225] = [
    [0xb6201c18e1b56dfe, 0xe00e59b571dd9d46, 0xd95b310dec2b54e0, 0x4523bf1a8f284c6],
    [0xd2c25e40f04c578d, 0x1003fd8b45400748, 0x82fe5650e5e799f9, 0x19a92ac6087ab899],
    [0xd450b24bbb4967d7, 0xe6b554f5dacf0b69, 0xdf5a285f5f7f6a5c, 0x302608d750f16491],
    [0x8def49981c98c424, 0x83eae5b7563405f4, 0x2d0d8407b287674d, 0x1a3c7daa6b4af566],
    [0xef68dd90177c1e9b, 0x8894077df2411f91, 0x679367dbf70f08d9, 0x2db1c9855ac29acc],
    [0xe1b30eca7de99d27, 0xf70a567a0464b348, 0x810bbcb214a25da7, 0xf06ee47558f182d],
    [0xc8643a58daf8cbb3, 0x3a0a1c288a743344, 0x63381cf1560d00bf, 0x2166d78d948dafa9],
    [0xedc454c50cbc4401, 0xe1afb26bcaeea2f4, 0x34fceae665d96b1d, 0x2929be9bfe3f93cd],
    [0xfdccd7898ec67cd4, 0x762dd577946f36fc, 0x7c6c1fda9a37dc2f, 0x1076d439c67997c3],
    [0xf3afcc687ce1321d, 0x5822a0f6b3b25def, 0x4624d02bec3ba466, 0x185c9ad0da87cf82],
    [0xab24f0cec49f4648, 0x4c037aa4151823ce, 0xfb73926c1104719f, 0x2702b1be39e91044],
    [0xe0155709d93dd375, 0x6c7781845252fdf4, 0xaeda93803cdc0318, 0xaf71a51cd463b9f],
    [0xe49db8b30f182d28, 0x1af4f67b4c52ab45, 0x293c80b98edffae0, 0x28667f9c7332073e],
    [0x35a12606a59c2e5c, 0xbb13254c272a5f86, 0xa23040afbcdaf998, 0x2763c33f5b2d7bc3],
    [0xc502ff97f03a85a6, 0x6ba3f5f06c4dcf4f, 0xa32aa8292666c4cb, 0xf81a8d8e08758e8],
    [0x2ab37fa4b060c4f8, 0xf6fcb449e9f297bd, 0x613e755220138a61, 0x312e3298297ce9b],
    [0xa540e5f39f7afc72, 0x354d115bf414dd1f, 0xf75b1cf6f5083dd8, 0x27dc8579136c0e71],
    [0x105a28b135ae2735, 0x6d04c14432c8c40a, 0xe81be6912c6ffb79, 0x298a90da4f4bce9d],
    [0x3c6374a6f9291864, 0x5c4558bdab26d9cf, 0xd3d1109b26123bde, 0x2ff508346df0d408],
    [0x9737fc17d67bdc30, 0x4ef976212daeb028, 0x7a73849445513999, 0x1347afe5529f60fe],
    [0xdfdb6209e6634bb9, 0xfb76064cd51bebbc, 0x47b6fbf00d0b81eb, 0xfcd2ff5c8f0bd29],
    [0x80c69db132e55196, 0x1976b7b325c494ab, 0x19eaca4c4b736ee8, 0x2fd8655505991d73],
    [0xaa46f06e589d14b6, 0xce0b2a2b9b443f0a, 0x8fb267d9c4a1fea3, 0x19edbb7a983fcd76],
    [0xa02d96243ca0b26f, 0x54aee2432d635c70, 0x8d52dbc23335384e, 0x2d9c1650b528398e],
    [0xb6f5b7d807b1f7ab, 0x9ebf6c15cc57f31b, 0xf172017be2754fe9, 0x99fe609dce91a41],
    [0x6a3686a805695912, 0x6c54e696c74637ae, 0x38a503e625ed8e23, 0x13b4dec836bd9ccf],
    [0x6649c83267be51a5, 0x7b164f3f4edda6ea, 0x257c7a3bc75e9fa9, 0x5fc3b1799e5b191],
    [0xc5e6f40b4a1e49bf, 0x618691bc123cd9c4, 0x3b26de35715b32db, 0x1d0cea849dc7409b],
    [0x650053ca057a03c0, 0xc79af3a4836ed63c, 0xd9b363d48e397adf, 0x27ade810ab16b1c9],
    [0x19a8e94c97b1f8ba, 0xcc8086ec911012ee, 0x18e64d500484eec, 0xc3bf8b042a0fc9b],
    [0x963597d77d3b26d7, 0xee1a406c86226b14, 0xf3b0c74d1ce32d25, 0x237ee46d48fc4719],
    [0x6f6580139e2bc093, 0x80af5027762db1e9, 0xcd7a3e6fab424e8b, 0x20428c044d22ee0b],
    [0xedb3f714c1679c58, 0x734b27a86e2def6f, 0xe406310a514e428a, 0x16065604a60cf2d7],
    [0x53c07a6d575b7ff2, 0x7b9aa8ced4f854b8, 0x2d93724d234c9a3a, 0x13674b5d0d749caf],
    [0xdb0da2bf8b00f21c, 0x427a250d2f4d8ade, 0x8e944495407d84b, 0x17832a57483ab468],
    [0xa98395a95cc4a77d, 0x31b33a229b18a61, 0x578bd6eb52afb66c, 0x302b344f13b30ca0],
    [0x54f7d152824cb0b7, 0xc73866a494c06460, 0x1e084f3867dd62b9, 0x14b1c418f3c123d9],
    [0x2577c495be1a724e, 0xebe8dff603bef453, 0xb3971318cad5b08d, 0x2c1ddb439b10a092],
    [0xa1b4c1c69c601b6d, 0x1bd37b510a437fe5, 0x598c5897e0b4b022, 0x1b2c5206d50be044],
    [0xe564850ca2b2375a, 0x8e61b4e7c82e78b4, 0x5326235d176c9462, 0xd8b8636d4598fdf],
    [0x1bae037be5c99715, 0xc38edc2000876f5d, 0x8e513b1cc9ab6d82, 0x1715f73ecf73e36f],
    [0x18d83815a9fc7f8c, 0xecefa8ed08036c9c, 0xc918551760f4d35b, 0x1c4497521275cd86],
    [0xd42976c03b7d5e0d, 0xbcaa126df8afb5, 0x6607cba64c0bb7fa, 0x161556e03e94c715],
    [0xccf1a25454ea3be2, 0x63124583cfa4b673, 0xff5772d4742603e1, 0x177d3d44dd549944],
    [0x1dd7c54eda76a99c, 0x2d483bcb819b41b2, 0x6b58327fa5ec50e9, 0x10539e3badcbe038],
    [0x3642127c70afc096, 0x69353d675b70cd9f, 0xb65244451e50daa7, 0xe643d3d4ee78128],
    [0x2167b77139c9da6d, 0x1ac1244b3fb46022, 0x8bae145159eba2a6, 0xd17aad3b6fbd4fd],
    [0x6b35149230395060, 0x32444d12c847c201, 0xb154d50c6ee570c, 0x1b8dbca850e84994],
    [0x82fe8fa217a5c22c, 0xbb3b4cd4ced38e39, 0xcd5d45609e6f557b, 0x526e69c73070647],
    [0x9b7d631cf2962663, 0xd8eccb81195395d8, 0x94632917ad3e19d4, 0x18aff8fe5a1798ba],
    [0x1f7194493ad7f083, 0xc508bdec222355ab, 0x5014eee401568e5c, 0x22b451ac56f3824],
    [0x75bdf45c2e830daf, 0x16c6a11b6d63dfb2, 0xd9e690cc6991f465, 0x29e7183a40f1812f],
    [0x822b7c0b33bbdfdc, 0xd1c972ba998e2fe4, 0xb9cf97b815c2140d, 0x28449718fd137470],
    [0xe26414548b231653, 0xee4bf613f76e8a2c, 0xbbfced0977e08337, 0x2edd1fa77896a64d],
    [0x709a0b39a96e3432, 0x85301867045a954e, 0x60587c701d4ee798, 0xd65ab8a42892dbf],
    [0x7501a2798386f9f2, 0xe5fda98c7ebb0dda, 0xdfdf28747478b9ce, 0x133105b55e6c880d],
    [0xceb590da531c68eb, 0x2843b5b01b806bbf, 0x2274387fa7965d6b, 0x1c65c1b912286c5b],
    [0xf2c37acc29f1a4aa, 0x276c5d79d6948e98, 0x930629591eae4c63, 0x419c20a2ef9d70e],
    [0xf7e972c83f006995, 0x808fb0ed445eae2c, 0x34459dc8458237d, 0x2c0de2ff6c43c1d],
    [0x109448f18b281b31, 0xa5db994586a54e9d, 0xef746509f2fb76d1, 0x308a3fa0a2d7ab2],
    [0x9b6a8fdf44554816, 0x6e5f3615ad04dd1, 0x5d80d4d975aa6c85, 0x276252adc5f9add0],
    [0xf9cbc79e384618e9, 0x9043c1d4018d1d2, 0x2b91fb0eff3e0b61, 0x180d3e114e093981],
    [0xcb66044d57b5bab8, 0xb12e730fc45bbf46, 0x8245bebe0d269664, 0x2e93afeb1b352005],
    [0xb5af1ef3936cdf54, 0xc016aa9eb31e78d7, 0x5daf38c6a9a75cc6, 0x26ea6a7932de98e8],
    [0x5e07cc33c13d97f5, 0x24ba816c151fb624, 0xaee70284064b2f35, 0xa3ebcde6fceb125],
    [0xfbd0e7585d24f37b, 0x46bcf2fdaaaa2a02, 0xd737f7fb6d87d706, 0x1b3bf735cc8f4d38],
    [0x917032ea3448c77c, 0x8d7f15780b8e81cb, 0x2824b246bc5024f6, 0x2d6e071c9a8c1259],
    [0x673a78094fe7ee7b, 0x7c788a38ef864ae0, 0x7cb948d9d6b9b590, 0x1f0655560b233454],
    [0x83f00b0e17f13296, 0x7634426f22973fe, 0xe306b6909833d5a1, 0xcbb908762517b41],
    [0xa8c68288188ffb47, 0xafb099480002dd0f, 0x6276910172a3cdfc, 0x1ff952bebf30d70],
    [0x6374f238082b27ad, 0x572871e774331ae5, 0xb2b9b9ea9e57d496, 0x2c728d02ad11c999],
    [0x117b4c2287175f3, 0x381705256affbba8, 0x449242495fd9ad2, 0x29d4202e4558503b],
    [0xf4775d1373f4d366, 0x2cf08e409d33362d, 0xfe0977179b8c112f, 0x1d4a3584e3933abf],
    [0xeaa8583ebae76291, 0x2ca52905b2eefa79, 0xa604d687cd2ed41f, 0x27ac47846175fca],
    [0xdc7c2a52fbff4770, 0xe7631eeeb2f9f284, 0x7c6f13c02d0ecbbc, 0x3ae04f50079403a],
    [0x1ceda174d0e53e65, 0x1293bf459cbf2e0b, 0x9132c1497cce79ce, 0x40e4596ca95fc40],
    [0xe697fd55079f3343, 0x993416f8f1b174f, 0x137e4524b963bed4, 0xcf213b1d3f6fe0b],
    [0x4a2f0983d2970945, 0x8e60a7b9e6484d4b, 0x738187710d3c3d59, 0x2eed04ef2e97eeb4],
    [0x6c1c2cd7a3a63ec4, 0x8fbe27c811b25a9e, 0x4f4a4342818cac40, 0x2ea7c830de80ac30],
    [0xea24a4a56cf11eae, 0x9eca4301e827b218, 0xbdd76a96b3ebcd2, 0x17230666ed67a774],
    [0x50c6293ef7fa1d87, 0xc748edf107cd8c57, 0x584211352e7cabb7, 0x1df0e1d73bee56ad],
    [0x1a76c6fa3b6e846b, 0x1be09d311e8b8b31, 0xaf782686b423a549, 0x2bcd6ecd21d028a8],
    [0xd99fc08feb8af068, 0x1a4c3e1963f8f02b, 0xe9bb475e8d02fe99, 0x136fa4ab79c28e0b],
    [0x9412eda7f59a7ecb, 0x7d256acf26d02cc0, 0xc045e4c6edfbb136, 0x24cbb3c94a026a76],
    [0xa725196ce703c17e, 0xae01b0dff996cf34, 0xf75ab4d3d0b76a79, 0x1b317bd89d4ff133],
    [0xa4c3e9cab4543b3b, 0xa30f4d4024531391, 0x94bc61cb2e8bbdce, 0x23ef277dfa1c0e0d],
    [0x94ed5f1acbdff129, 0x4d517c7d8f1e3406, 0x7077b2ac393d1446, 0x2933124ced84942c],
    [0xde84d945542fc206, 0xa6a065e9772791c3, 0xac3fea1ecdcbabdf, 0x104bd1b4c028b287],
    [0xeb77852b238629b3, 0x2b85175a60d3661b, 0x792542f4c9a6dba9, 0x165a3778b89cc7da],
    [0xb281eb6cd69c071f, 0x5451f8d76f834499, 0x9deb71934169cc97, 0x6bf4105aeb7839b],
    [0xf54d16da5cf2e24f, 0xb0d4498251681593, 0xcb0ebff67730a41e, 0x6efbf7c9bf4c721],
    [0x540baee608fd8f25, 0x377f7a5674c75a99, 0xe60d0a8537d47a1a, 0x190b37e8c9b7bd5e],
    [0xcf516ef16eda936, 0x33d5345b67f36f43, 0xa3d1619b1bdc6923, 0x1b76f377622072da],
    [0x40673497b0c9b294, 0xd629cc89617d52a3, 0x231c6bc2090ff354, 0x213b177aacada821],
    [0x5317f9eb83418c0f, 0x63ccde6164d805fc, 0x54e08e0e0acd1e42, 0x2efaf6a0e622f10e],
    [0xe0416be5694d67ea, 0xa196ff95d2bbfa22, 0xe62c6a239fd21624, 0x994b0fad98bd40d],
    [0x1c573263505dbe1c, 0xc8844eb9ce6c8e08, 0xd823d390a39a08ce, 0x2995eda96f028f0],
    [0x3829f4a74b97c83a, 0xe1d3deb8202530be, 0x40d071fef09cbb91, 0x1145dc67ca067f5],
    [0x507bbf8bddfe17b1, 0x7b4a174de0f3aa95, 0xb49db00cb2a940d5, 0xa0bd0ea059162d],
    [0x2c00d3a684dd7c8, 0xac8a4a596ad9f821, 0x6bd03ff734b5c1ad, 0x124794d78885d593],
    [0xe06c00bd30db4df8, 0x1935d119758db9aa, 0x168c2b861ef4b0b0, 0x16431ad5871bcae4],
    [0x3d6b3aa6ab108ad1, 0x846d9f23e62277f1, 0xa9b520cea04461da, 0xbd580f80ea79136],
    [0x18d86502032a3694, 0xd3237d91bd65c436, 0x9a85df724e4c32cb, 0x267ef84e628bff8a],
    [0x6ac8242d126aedc0, 0x2968df40d45f08c2, 0xa08c79c9198e5751, 0x27e08a80dc448a0e],
    [0xdd79a323bfc62df5, 0xa3082f5cf1ed6e92, 0x2a404bf919a9cd01, 0x28cd5b5220315f3],
    [0x5bf756df87a5df8f, 0x8c30291ef6259d2d, 0xa4ffea5c4f0f5b61, 0x460e5c59d6292fa],
    [0xe2700d39138a43dc, 0x480394df38d331ad, 0x674d730818419829, 0x3034b01c2fb47a98],
    [0x82ee8abb7c481e01, 0x7ef353e400ff70d3, 0x78122aeef4dd1bbb, 0xa20b0fc91070985],
    [0x3f4b6bbb2aabb2e3, 0xcd5a33e5ea30e4f0, 0x5294bb31b6299345, 0x178cdf015d8bc8ed],
    [0x4b76404ee53148d, 0x5a11b9e15fcf896d, 0xd94a661e56b89f0e, 0x2f1240e45287424d],
    [0x13176ac85d8517ec, 0x2ba2fd797ecbd570, 0x3668f55b6a6a9a8, 0x4cd761f316ecc1b],
    [0x3876f5c7425e5072, 0x94c9eabaa55e913b, 0x3d72488efff7a473, 0x190c2382ceb77e7],
    [0xc6c5fe3cac3058a5, 0xa402dd5c3c4edca0, 0x54fd8dd18588a47, 0x2befa2b6dee51479],
    [0xdd28f8fbc2fb5301, 0xefcc5e22d45fe891, 0x8553f99dd8af9b25, 0x1b2b047e9e413d74],
    [0x1b466d950f2518ca, 0x1ca8caa530a1c713, 0x3588a1c00b7f8c8f, 0x24ffd623daab9fe1],
    [0x5fae2d04ed2505dd, 0x5b688020740d434, 0xe8a6c0b7bcca8b23, 0x28db93b12307f5be],
    [0x3d66b79e1c6dff3a, 0xadfaa44c9b1e3246, 0x5ba199bfc5780633, 0x57b88d83808d367],
    [0xbc052806ecf59fec, 0xb26a84ac50b3593d, 0xd45507cfb53549b3, 0x2d361efa8fc65b03],
    [0xb47f468f3c57a95a, 0x56764db7a553f48b, 0xc76ae1f125a0bee4, 0x1fd804ca6b5d2a3c],
    [0xe71b7bb0661990cb, 0x1b15c491cca462b4, 0x79122022c62e752e, 0xdb2421285ea7f59],
    [0xd289407563cb253b, 0xb8597467cedf52e6, 0xdb0f67b12512925a, 0x136b729f22d1ca74],
    [0xb42c10abf0d230a8, 0xe4959b36a0da5ca5, 0x3cd1aceab1969f68, 0x6b1dd2a5fd27efc],
    [0xf5e5f5b0adf687a1, 0x64937438043f4ba7, 0xc637f8272a3a4cad, 0x8e34a0ccd379ed1],
    [0x1805d4b3384605c5, 0xd82a2c98681cd10f, 0x91c98c20d6921d39, 0x28548c8bb786f477],
    [0xf88c1d63c705ec41, 0xd3b43f0329b74519, 0x4ce7afa2434a095, 0x2bab506569e55b5d],
    [0xe5f7e154b5ce331a, 0x6bb62acd9a5d898b, 0xd567f16acabed295, 0x2398afa197096947],
    [0x81d9a89585b5b1e4, 0xb0e5d657e0c3a4b9, 0xc01d0604e9ada4e8, 0x1cb68d0b5a7d1e5e],
    [0x51d7a7ee3ca0384e, 0xf0d68e01b41fff4e, 0x37a5090e0a726b46, 0x1589963f1ad96850],
    [0x1c26a35a05b14922, 0x1fdcf8f3f9908a3a, 0x9e6227f6712da13e, 0xcb96ace8a27b43f],
    [0x86ac9090567d8bd2, 0xc099922eb755a341, 0x8bf0ef32be28b745, 0x2b38ad1a7b652e9f],
    [0xa8bf0428508c5d5b, 0xfae708de520385e, 0xbbfc6c2c749d0ec9, 0x21b0ef1e524d8d9e],
    [0x1dd03b6c36aff836, 0x2e1a278dc9cdf1cd, 0xe1ddd7982cd31836, 0x3a6c87ee34cda],
    [0xdfd388b6bf60ea42, 0x6957e9a17641679b, 0x92f6b6953a9955f5, 0x1285c484100d70c9],
    [0xa6e9f1fc2fbb2efb, 0xfe8fb4022da95a59, 0x90ac6a8076d51b85, 0x174de7ca0ebe6a12],
    [0xb7cc15767eb2de8b, 0x5f7d8e3ecdfa19be, 0x4aa75036fc4e2488, 0x200d26a5d00a2c15],
    [0xfbcb6537cd7e06bc, 0xda3492c9f7154dc8, 0x944d72dc318424c0, 0x28aaa152884edf31],
    [0x7b96bc26086bda29, 0x13f72a681535e35b, 0x63adc6ffe91ae46, 0x488a359cb7c3cd4],
    [0xc01000e7dd4527c4, 0x360708e47dadce1f, 0xc8519de0f01a8e5d, 0x1d48b6efe372666f],
    [0xbaae9bb172382462, 0x815fa7345f61466a, 0x62c884f5ac71ef11, 0x2a7d9ae2a915561a],
    [0x1702a10532a7ceb1, 0x8cd9b01a60205fd4, 0x97c95849ff56a53a, 0x280c7256bd6775f4],
    [0xaeaef53e5571bf, 0xd0004837e9b417d1, 0xd1364b473737e009, 0x1f63018449c6f982],
    [0xc11cc93481dd34dc, 0x534afb0760706557, 0x925e7c0185f2098d, 0x17258254d8e0d6f],
    [0x487193341a6942b6, 0xc54757333d84d986, 0x855c6e35016e8fb, 0x2e23caeb14687089],
    [0xa1fb5117b8de2a53, 0x380c3a02d43d7342, 0x195fe075de8ddfb4, 0x29ac01ae36569271],
    [0xa986003947a240ca, 0x245e7db110c6a2ba, 0x933427e66c377144, 0x19babc734091a3be],
    [0x8a6a4503fef43e8c, 0xa4427977dc0c747c, 0xa71528af4eaa906c, 0x19d13c633e260305],
    [0x334ffbe2fc262053, 0xd21de90f94856acf, 0xb8ceec96e7ca0e1c, 0x22692fb680511799],
    [0x4ec0126d0828fbc7, 0x8c0d907702179073, 0xc39e9f1e4426d318, 0xe1a46a527394539],
    [0x9d39a6bd6cbbdbbb, 0x1e5d1642e49b3746, 0x9417eb6b14488505, 0xf3deafe2fe6fbae],
    [0x2a497b29a7c61777, 0x432406731046ca88, 0x6c8afea7a4c4af98, 0x1a1c643b8d051067],
    [0xf4ac5074bd7f2692, 0x4075a31e9d2118c7, 0x9b9ac6b9862be4bb, 0x23fdac37f71f9773],
    [0x2af93d11bb383d0a, 0x4b4276497c8144c4, 0x31b3462001a07a11, 0x153a1ae9f00d026c],
    [0xe91c36f3bad5491b, 0x50bc02074e10f624, 0x9aaf537577b1a99d, 0x260f8a62766f0e25],
    [0x7ac675bf90676156, 0x66a120d7ef9bb5c2, 0x7a61629a53e074ae, 0x131105c4381b5f57],
    [0xba7d0a86fff12881, 0xcb42a0e8cf3f8580, 0x7fd2ea181708751b, 0x3de768cf6922349],
    [0x3893eeb5f2c3a848, 0xdf7f83acf2edfe83, 0x80ac96125396ebf4, 0x1b531701fd6b02b6],
    [0x4324a2673ff6d5b6, 0xba5c2cc03d7a5b00, 0xe58c3f3ffc6fd45c, 0x559f237de62143c],
    [0x4958b7e4ecb2d37f, 0xcaa3b4a4a98b702a, 0xbf56b6749a6d2422, 0x5749c39afeb687f],
    [0x8ef40906cf3d0210, 0xaaa80deaf78bc1f5, 0x7c6cb04d45d2e0c2, 0x42ebef9c6a4cdbd],
    [0x4276211c24086080, 0x8e9c4f704df6aea1, 0xcbcb2747a0e1c151, 0xd0289a40cf02926],
    [0x1d24fb0e0099cbef, 0xe484afeff400b2c, 0x69c3e14dff538b91, 0x23d809de14b02c10],
    [0xc246b15314926871, 0x84c635b8b7578c50, 0x4c5237c31ab8b096, 0x1d85033ba0c5dd80],
    [0xa6fed7fa5102a84, 0x247aee43b3f29b43, 0xfc8d5d6be5b18374, 0xef206f21658db03],
    [0x339243e9ae67ccbb, 0x993024a1c0d6d50b, 0x100ab4d0dc92d93b, 0xecfff476860b104],
    [0x1e95ac94cec6ef32, 0x2622eba0de31b627, 0x4766cce10b56d076, 0x1e80c6db7632f6d6],
    [0xe2ee5dbd7c9348a1, 0xf6e45404c9f22c30, 0xa476f04423458ac3, 0x767aa1fbc4ea303],
    [0x5b409a367f5a77fe, 0x17471eacfd3ab2b9, 0x60a76c3292e05a62, 0x16c499c243fb5cec],
    [0xe84b4e5ea7df06b0, 0xed95cd93036e2193, 0x5aa09d071c5894e0, 0x27ffca574c26cda],
    [0x2043914281041384, 0x79ce1614a9f4e03f, 0xfd5f7f6f95134da0, 0x185c152024c4fd6a],
    [0xb835554b1bd9de83, 0x632cce047ce9861d, 0xe2cd5f1b0177872a, 0xaceb3f030450738],
    [0xa5b5e1503b4e4087, 0xfb7da57e70128959, 0xa8ffedae4e0a1aaf, 0x1412ef160245006b],
    [0x26a321cfe962044c, 0xfee0b246e1d5b40f, 0x9125c9900ed01b4, 0x2d1bae8c0c7b65e6],
    [0x9d8f4d96102bd7d8, 0x92803e7f4c277c58, 0x8e1ac338c92a0c8f, 0x178880d1f6ff2f9b],
    [0x55d140ec63673791, 0x9277cca8363c8601, 0x3bdbc7746fe5f917, 0x2e38bf07c16b320],
    [0x577dc903cd264016, 0xccc39f7ce6c8ab5a, 0x4ff07003bfc744b, 0x28bd66c5e1338f97],
    [0xe4aeb9854eb30efb, 0xf5ac1850d867be3b, 0x25dac0cd517fec58, 0x13fcf2fab4b4b66a],
    [0x8ec6f8b8da106aa3, 0x148db269f49e38dd, 0x5d79b8b555d461f, 0x2b52e9a0a9a535ae],
    [0x49c63bc7140c3327, 0xfc1a0de5b7a6e15e, 0xf38204aa0454b1ed, 0x2ac3db07d831b461],
    [0x4cb684f341b646c7, 0x4ada5f8760adc04, 0xfebcd521cb5fc613, 0x2cee2efaf90a0e74],
    [0x984dfdeab8299477, 0xf517ab5463c74bb9, 0x9ba685f0fb815c6f, 0x16c8f7d85e411d0f],
    [0x65077587a91c0b01, 0xbe7acd4c2f72d22d, 0xef1a3b4ae5bbcaa7, 0xcc0452c4e5cd956],
    [0xa9097f174d5c5b56, 0x8d6b647239b89e48, 0x77db3554fa9f482a, 0xec171c476265c48],
    [0x2990182a43873833, 0x5f4d7acf5ab28f53, 0x95077f84c811f413, 0x2d723e71184abac8],
    [0xcc7a2dccf90cc569, 0x8938b789bb4e9837, 0x58cb1fbdc8d84a66, 0x1ca9f045f715d294],
    [0x3355a9e3f9608c9f, 0x3a28229a551f320b, 0x5d177f17d623824b, 0x14b711d1cabba467],
    [0xd4928e6b4dd9d702, 0x85019645a2d39bb4, 0x14251d648892fe59, 0x3ea51d0d3eae6f8],
    [0xd39745da694ded96, 0x1deae9260915c930, 0xfa0c7ed3e9b5a733, 0xbb07c4601eda15f],
    [0x877d4efb647a629f, 0x6640b495d598e472, 0xb51ff3f5054376a7, 0x2458edb63177cd46],
    [0x3f1d0b6d814d6ff2, 0x57447ed4e87be893, 0x4ef46af721cd9b2f, 0x207e9157c54acea],
    [0x918e78d0f6f250f3, 0xedab843510f0c1c1, 0xf5659fce45eada32, 0x170f77a7b3b9caea],
    [0x4c4db438195d4daf, 0x3d3d1f981ec44438, 0x7817e10adad37469, 0x161967aef1a7f790],
    [0xf4abf8725ecd5032, 0x9f179f4c79fd4bf6, 0x297b95daab22c1e7, 0x2773fcd9cd996f38],
    [0xb891502f921d6096, 0x816e5aca76103b34, 0x5991af7f4cb2bda, 0xeeadf9b5fd85f94],
    [0xa3c66d76e8403553, 0x3f3ceba32a457135, 0x1311fb36b9e5d27a, 0x140214189bf9a400],
    [0x5925038cc3295055, 0x347fecd8d8ba430b, 0xb1d99369207399eb, 0x20830e9933ab9c82],
    [0x7dab0caf13eb0e68, 0x6bf7ab0f08a7aaf, 0x6738b9ed039e4ab5, 0x1ceb88c33c35ed1e],
    [0xb88e5ad16d639eeb, 0x3cb45419e00f5836, 0x1ae866956c374e1a, 0x445f4d9f49d4dcb],
    [0xf738aa625c45f28d, 0xa7471b6f19d441c1, 0xcaeb106a14460dd6, 0x278e3dfc235e7b04],
    [0xa484ba2f1e875591, 0x866e602a986289bb, 0xbb00117f8e6ea1f2, 0x1f22be26d5167ef4],
    [0x13aeeaf59add06be, 0x4e4d59d287c933d6, 0x3d53580b53107978, 0x24bb09e90e64f5c6],
    [0xe4e01fa39b19f468, 0x2877cd14d98c3ae8, 0x357e5c5b0fdd316, 0x181a8292b083644b],
    [0x58fcf5748459fc26, 0x1b74ed96c3233c50, 0xa43f8fde8842280d, 0x29a3328fef53e260],
    [0x3ec7a9c38c4dc014, 0x30a2b3882ddc8d06, 0x834191a3a6aa8cda, 0x15ac4c506f0e4516],
    [0xd2004eb414bffadf, 0x43f93d6dd536f230, 0x696b4920c81f53d8, 0x167fda86032760fe],
    [0x3d43fc4ffd6750bd, 0xc6dac94088c52664, 0xb1aed2f2eb1e3e6a, 0x4bf7c50eb8083a1],
    [0x956404ddb30a4380, 0x43ed5291b9208af4, 0x701a254240a02a47, 0x1694d5ab473f9de3],
    [0x57ca8140868a70e1, 0xfaa0a3881ab03c31, 0x808f64bdc63392b, 0x18ad7311ad63af10],
    [0x3725396983a0049b, 0x106c2735ef2a1ca0, 0xa52491346c7c6f8f, 0x2931d38792a3769d],
    [0xa6448818946ee976, 0x4b34fdfc2fb9f720, 0x9345c3d75b708180, 0x2a90f5ad074f3e23],
    [0x4f03627650b813ff, 0xd3d47353587b017f, 0xf9f3b663dbde4a7c, 0x256a4d8167c0f602],
    [0x4b689f9eb08566d1, 0xef7704b181abf241, 0x6fafcf03c462c8a5, 0x12a998baf33d6fbf],
    [0xb91508a3ffb3b301, 0x2b7ad1614e60aaf3, 0xf2f08c32c30a37cf, 0xd9d065a53ec9ea1],
    [0xe04c300eb32b223f, 0x5819a0e8110932f0, 0x22cea47ac2b0d756, 0x20fd0cdac44c5b5c],
    [0x60897565ba6a6a60, 0x53a88243f2f8271b, 0xb42bcce9be11642d, 0x4bbff61811db870],
    [0x91ee9dbd67ba64ad, 0x7f580591cb2dfb8d, 0xd3152f0ed7ff35ed, 0x213b22a447492a79],
    [0x9479edbd174d73ce, 0x260b14e88c8e8138, 0xd25f56bb9457a2cb, 0x1aaeca8c009c0588],
    [0x70bc7837d8f820a2, 0x11b1373131cd5a9d, 0x7a94dbccdd1b3ac6, 0x2694a19e4af7c2b8],
    [0xff7c2cbaab4dc9c3, 0x92560079eb25d141, 0x83e69c3ae6039311, 0x24a5f8b16d150a96],
    [0xe767de15abbc9bf5, 0x5142e1b5641aeb7, 0x445aa344bc61b1ac, 0xfdd5ddada0b045a],
    [0xc3766144af1c1731, 0x87b839dae77fae26, 0x80807838954a59a5, 0x2cacaf80e8db29ba],
    [0x567b4830f74c9ea8, 0x4f248668c7c53de, 0x2177032074580a35, 0x1c710c033318dcb3],
    [0x6e797e578a56305f, 0x6931a64222cab453, 0x21b273cc62a95b00, 0x19b88372c544a693],
    [0x1d2beebba8ceb767, 0x45abcc41f428331b, 0x69cd6860b8616998, 0x131154cd6dcbb9b4],
    [0xf9b9935d36e9b0b9, 0x87a10183260e1d06, 0xf38b96ad9baaba4, 0x1c37371085629066],
    [0x8478e9634fcc745e, 0xbbc0cba48037fc51, 0xefc32997248db307, 0x11139f7a6884d0c2],
];

/// The values of the transition matrix for width 15.
#[verifier::opaque]
pub open spec fn p_vals() -> Seq<nat> {
    limb_vals(P_DATA_0@)
}

/// The transition matrix for width 15.
pub(crate) fn p_table() -> (v: Vec<Uint256>)
    ensures
        v@.len() == 225,
        vals(v@) == p_vals(),
{
    let mut v = from_limbs(&P_DATA_0);
    proof {
        reveal(p_vals);
        assert(vals(v@) == p_vals());
    }
    v
}

} // verus!
