//! Constant-table data for state width 13: the flat round constants,
//! the sparse partial-round rows, the dense MDS matrix and the
//! partial-round transition matrix, in row-major order. The constant
//! arrays carry the data; the spec functions read the same arrays as
//! value sequences, and the builders return vectors proved equal to
//! those sequences.

use vstd::prelude::*;
use crate::field::{Uint256, from_limbs, limb_vals, lemma_vals_concat, vals};

verus! {

/// Part 0 of the round constants for width 13, as little-endian limbs.
pub const C_DATA_0: [[u64; 4]; 169] = [
    [0x28e3196578a0000d, 0xef9fe0038a3bc26a, 0xa224f330d84b6688, 0x1373c771cdf15121],
    [0xa95e5b9db387533a, 0x5ce78bb48fa867a6, 0x17f76e121af3aca, 0x29f9fbda3c999836],
    [0x62209a8cda490528, 0xee7a2525b565bbc2, 0x169b786d9dc86a24, 0x1c7eb5116a20075c],
    [0xf2a1c308c9cc52e6, 0xa3449a6238546bbd, 0x9f61d68f1b6bbe9a, 0x21a549eb554f0f85],
    [0x1a349ed195873508, 0xd3250ac6d4a1afa7, 0x9df98b46175800e0, 0xb53fff701347d1b],
    [0x8f95e6346e1583b7, 0xdbabba3cad471371, 0x20db2473999b34df, 0x2129ac4742415c0],
    [0x5124d64c5454bc29, 0x30b68bea9401a15f, 0x8da37c8251b0c8d2, 0x1d28f305e8b0ec8],
    [0x9d61cee451faff93, 0x96700c0372070593, 0x999fce6d3744c235, 0x1ed301e02e3fc930],
    [0xe628530d0e26ae1b, 0x3dbba9f7c802c83e, 0xeee0903858afedb1, 0x2edb1832966e34ea],
    [0xac31a698756d87d9, 0xfe81fbd0501e8f89, 0xc67bc77ca8bf4123, 0x123daaddc930c65f],
    [0xb17259fed8e4a8fc, 0xe9d5478d057141d3, 0xcf67d5fe21d53104, 0x2bcc36362c90210a],
    [0x7095f7ff76e3c9d5, 0x269144f7900815b1, 0xe898e61d99c7d616, 0x1fa928cab5938207],
    [0x5fd3e831fc7c837, 0xc18fb426c254f5a9, 0xf53a631e84cfdf5c, 0x29c2f1cfa72a0fb8],
    [0x7ae9e7142a29d301, 0x1a6a6c2814ed0231, 0xe6889f95ea2e8ef0, 0x2da58609f78b29a],
    [0x5dd25939af5c1b06, 0x2555d05ac5f5ed21, 0xf77721631df4f698, 0x2bef1f45efbae1a4],
    [0x57da189c460142f7, 0x873b7e31fc6f64ed, 0xb00e34743aee026a, 0x69266bb89813e77],
    [0xeefb9cebf92c9f55, 0x5bd8028992cdc033, 0x15deb9d5fdd0338e, 0x2b7198b043ff31d9],
    [0x7a8deb9573878000, 0x1bba60394e7c0278, 0xadd93d1684e5420d, 0x20ff6cb38e8d9501],
    [0x4410f15c22b77cbc, 0xc834b05b4d8ffabf, 0xb2568dda85d89dd7, 0x16afd4f19d312cc4],
    [0xe882335bedf4f1fa, 0x2c6a21aeae2201, 0xc17483aa57c5c05f, 0x2bc96c4bd9eb8f09],
    [0x1999ecafbab0a00a, 0xec96568c2fe059f7, 0x8b8f76dd10bd5e0f, 0x1827a11b658414b9],
    [0x648b437578d9a9, 0xf1afe1c7775c478c, 0x34b6e1e70659a1bc, 0x202d1bece5375836],
    [0xfb841325bde83845, 0x9e907322150a7833, 0x735ce7c88a6e2f17, 0x218b5b58b3333e],
    [0x78ad6118fdb0ace5, 0xe80784662c208ce3, 0xc4ce34bc8a543b13, 0x117267f052b39319],
    [0xef908b3a2df98ab5, 0x6dd1674174a00ae9, 0xdf74316cf12fdef, 0x2979bc493ae1eb3e],
    [0xbfa8551164461a47, 0xfa988cfc8895c9a2, 0x651c448c814b13f2, 0x1925313243795f90],
    [0x85ed3d7f1da80203, 0xae664e53332f89a1, 0x525a643105acedd0, 0x309b8bc3b0ab07],
    [0xecde23ebd5a36831, 0x551b7ebe8ff78f23, 0xf96cadcf983dcef5, 0x2c514d1803b41345],
    [0x696652c3f2d1775d, 0xb4cf9a9702efdd98, 0x909730fbe6443cb5, 0x23d56ffd6d38c9ba],
    [0x6e2b63cc3f2a3dc6, 0x4aaeba7c854b85bc, 0x760e51a351cfaa3f, 0x1eb7ae2f9df6ed33],
    [0xd610d62a82407957, 0xeea0f32e0b398e16, 0x880bedfae6fb8fe5, 0xb3a63736983f365],
    [0xd13e02c719c39612, 0xc1cf2d9b66288c9a, 0x74d919cda9133fdb, 0x249f511f31c4ddeb],
    [0xf0c33de6fd7e738, 0x1441546a9504370a, 0xf5f5d2908435c257, 0x121d3b76e65bd665],
    [0x2ab7b62d55eb238, 0x5f08839a8b5c3f18, 0x1b3b883d4f4265f1, 0x1e1fd57e79cf042b],
    [0x1c542ed6d656b22, 0x114c3c1b720d56af, 0xdbf2648ec82d6acc, 0x16fefbda0580e528],
    [0xf591036be8209dbf, 0x90e06c223b77d130, 0xee237fbea3239f90, 0x83a8b8f4854d599],
    [0x66ed06f2e7d37935, 0x4123113e34234069, 0xcd622674f46cc5d6, 0x2a521323dfe7e7e2],
    [0xd6c0852ec521e965, 0x317b9a163e423a7b, 0x5ee6841a44434121, 0x10fad028a543b944],
    [0xb0189a94ff14f79a, 0x4009e467760819a9, 0x7e0ff3e64a8d76d3, 0x274bdd049a73b667],
    [0x39d2ffff1e1259ee, 0xc166111d6ff1b241, 0x3991639947dfe76f, 0x2669e29b8bd468aa],
    [0x3e61dab94779831f, 0xe40278b7342b3486, 0x76123fec001dd777, 0x12f59494b5695acd],
    [0x7d22ee036c8ff62, 0xb03da93784b770b6, 0x384658f34bad47b3, 0xe45ac1f353f45ff],
    [0x41f57c7aea7b0e20, 0x48c60f3ca8a794d1, 0xfbc6edc57c915943, 0x270d5a7fc5af9d4f],
    [0xe7179dc8eb8d59da, 0x175005861f6cce68, 0xd38776164af9aae7, 0x1c57c847fdb709bf],
    [0x8b245973a25f8198, 0x461c57f2e7b42dc4, 0x7f364e87d90a2e4f, 0x97bd4c74c9ef861],
    [0xeb4aab80067863e6, 0xa4f92cce46654d7a, 0xfe6c02a3fa831bf0, 0x9399dcf5fdabe6a],
    [0x12288d4428ab66d9, 0x7dff1bba0acd32ba, 0xf75d8e368d31ed43, 0xa11daa6724ecf2],
    [0x526c9d478f650906, 0x43ce09cd2b7a708c, 0x738ee39827f9ae5a, 0x95ca5b00386b675],
    [0x4474aaa34391f75f, 0x29ebc97d5de98e64, 0x99a01fb1712c5f4b, 0x1161eb2d96d8f5e1],
    [0xc6d83477db1bd60a, 0xa0755de8b9efc1cc, 0x5359dc489829b9c, 0x27ca09bcc6147529],
    [0xd5b1218327097968, 0x82ffcb26416bd7ac, 0x6d47f4440b2de8d9, 0x2f2ddd101005b0d7],
    [0xe8e96b150ac2eb9c, 0x63c3e806ff19f375, 0xf7925de0e07d33ae, 0x226bb0d31a8e961f],
    [0xd607d8061e08da17, 0xc274e75aad2fe7e6, 0x7693351bc4c95fff, 0x1e50f8ce5e8e48a4],
    [0x373e314047ea75da, 0x9f06a5a3cd95a6bf, 0xb33e194593186fd2, 0x17e98bdc10062dca],
    [0x1b9318b181f61ad9, 0x7cc6e51467253b9e, 0x7b13ac7ca4056fe2, 0x7e6d38b28db0d58],
    [0xc85402de6c539e15, 0x1a4a1485e2b9765b, 0xf59b57edf6b3fdd7, 0x7a06dd6230750e3],
    [0xf1d736c4fa5b9c19, 0xc594e4c8bebd2e06, 0x3bdaa8e679c0ba67, 0x224bcbf9e7ad9eb6],
    [0xf7580376d90b778a, 0x33c14e823656e2a3, 0xef027a94de953dd1, 0x14e43b10484fd331],
    [0xf4f64b7b3e93a8c8, 0x7228f2d32c61924f, 0x363e24e603220262, 0x21c2c69e30546f53],
    [0xa717e10796f40715, 0xa3f20e8c3522c4f, 0xfa0160d2da399889, 0x3fe37796dedfc13],
    [0x2858ba1c79fe0883, 0xbebb5814b0613490, 0xef53bb4c2c654c39, 0x2bd5b2e11cda485b],
    [0xcc251bf4605b3b63, 0x4c08dc141e9ad9ab, 0xffc1c2249d329773, 0x1db6d06d30d62c08],
    [0x8e061d79dd42aeed, 0xd23df500f097a25f, 0xa97a0c758ffad0d3, 0x350d5175824d117],
    [0x2627a656be2fad3, 0xf0c9278ac2912ca1, 0xc1bb7f218431ae9a, 0xf46d145eace6b1d],
    [0x6f65dd2bb50813d2, 0xe5e75c745c5ca482, 0xe84ca589f711a8aa, 0xfbd2953a1cdb40c],
    [0x61bf7283e0c27982, 0x35caed4e68937621, 0x66db3ce9c23271ba, 0x2e6fee6ff51b2abf],
    [0x3312df51615d5897, 0x7820e1afe53ba723, 0x34010f1fe4733a32, 0xeb4c21214c0ce4],
    [0x60c0a05d8904a470, 0x6f6b935ccb5de9f0, 0x475d77e728a2e982, 0x149a01e3644a9aea],
    [0x872454e362f82b22, 0xb8bd045b8d4ab36a, 0x9b04ed4beacd3b4d, 0x3051abcbd422db23],
    [0x205af54887e788e7, 0x4820f161375b6074, 0x8015badfe5abb711, 0x138a0119816ee4ac],
    [0xef59b1751480f452, 0xe514b25858bf46ad, 0x6c1e3c4073e63fb2, 0x16c8e1464970e0d7],
    [0x4f87ac5f999a9ac2, 0xef54673d52e8bf8c, 0x27b559b07961307, 0x179ae599e009a3f1],
    [0x9df47c4980fbdbce, 0x761950f2e5f66a46, 0x6be5ef802fe3c9a0, 0x13b3518cb4a88468],
    [0xff12c954a433e27b, 0x63bda214a65fe575, 0x2b9ca8fa51e47327, 0x52a354e6f8a8c48],
    [0x218515b3622fe7e, 0x770cce188d64ba7b, 0xb3b3d8fe8decc41c, 0x30348154b1407f9b],
    [0xad3efb60373da4dc, 0xe393393e648cdf86, 0xcec415de98a9d411, 0x22493fbdd06dc2ac],
    [0xcd7c0bc7f3c20746, 0x68c6c8b275d64408, 0x8ff22b4ae3b6e0ea, 0x2bd33c38d67da9e2],
    [0xe8344345932ec3a0, 0x3442bbfa6e925e66, 0xaabf25fc7cd35228, 0x18ca35802730ebd5],
    [0xd420f7cd40acf2e5, 0x8a24167d1460be4d, 0x736ee720631ab008, 0x123a15b31db64480],
    [0x88f3beb168921b07, 0xc61e6f4bccbfeddd, 0xd1f4210e344596a9, 0x1ba31fb49dbfe083],
    [0x8533933a078f2a27, 0x116d380e6f130177, 0x97672c848cf3ee8, 0x10c73167a97d9141],
    [0xc2e636a8ab0c98cc, 0x532085e5cafe9db9, 0x900fbe2500bdfd4b, 0x12b2f0963b677d68],
    [0x8770a6f0bbe7c35, 0x2a7e6faa9a4dd012, 0xec43c0bfea4e01ce, 0x1feee9a8c818254b],
    [0xd2cdbcacf56ae36d, 0x598457cbca82d0b1, 0x198bf0ad3d5922e3, 0x2388c6a47ec73b9c],
    [0x51c475cab0ecf3dd, 0x8a4db0792bc0f524, 0x982cdbaeb55e1462, 0x1bd9b76b67a672ec],
    [0x3b7b7e1e91c2f534, 0x8eb6e589d0304fea, 0xacc1c6c44ef1643b, 0xb2ee64ddecd3f26],
    [0x36432ec5cfcb2678, 0x6e69ac197fbedb76, 0x22467565a99dc878, 0x107f80d883fd7613],
    [0x69f1e2b459babc4, 0x264ba97bd5160bee, 0x68d5365a0107d0ae, 0x19f0a831e1647723],
    [0xc71d411b48e36375, 0x9ea26b24e493b243, 0x782bcaff58bd1964, 0x99ab87e7b852429],
    [0x541f16263a405746, 0xdd62f6b17009897, 0x22587e68173a24cd, 0x18db42f8cb421804],
    [0x92a1863754fc7294, 0x3d652bdbc5f733c6, 0xd388b700545cde86, 0x2a22132453db2d68],
    [0x933839973867ea3c, 0x1036aa684bf39b7e, 0xe8a06b70e21d433a, 0x2e3f81e949bbe1a2],
    [0x28e1aff7ad8d8442, 0xf6d7375a80b15428, 0x232aafbca1e4ecca, 0x2c21f85518cc932c],
    [0xdde10092fa9d922d, 0xb792ff468703c54c, 0x65a32cc7ee8d063e, 0x21c0239127fe8b29],
    [0x6110310001bccb4e, 0xbad5309ef4f482e2, 0x5000a1011ac52b25, 0x201c6b5b791d42b8],
    [0xdb35c03bdb8c6df3, 0xb711ed049227d67d, 0x599fe56001866bb4, 0x2db1d234cd755ea9],
    [0x4a3cdf799bfea718, 0x97ec880e73633181, 0x429c25e5aab1b5fc, 0x18498b6b4ebea39d],
    [0xe35a45d889028343, 0xdd491ec29effb629, 0x4e0934a64153a1de, 0x1e5d12fcc0c68082],
    [0xd3f06fa98181f43a, 0x3584448192659625, 0x45944b963b54081d, 0x1ddc4b9d3159354a],
    [0x1371bada7b80c40a, 0xb282dd06ef060705, 0x99f8b58773a5eb8a, 0x11fc72e4994e6b2e],
    [0x7ae3481bf1f4bb4f, 0x605a49e5c75ac57c, 0xc86d270fbc2c8f91, 0x21bc7461e5160f2d],
    [0x94b5f7cb6fc626b7, 0xec56a9a9b33201d, 0x95dac7335895a70e, 0x2d16510a22095aee],
    [0x420da5c0fe4b0944, 0xe1b8e0c4d5c0eb80, 0x7dd904be3991e086, 0x2fdfb1134a1f54ad],
    [0xd4cbe164badafb26, 0x701d959482990a46, 0x5cd936c08f7e8419, 0x28646d4e0061355d],
    [0x711fd32dc9150622, 0xc2cf2232c87bea9e, 0x7664a1c03624038, 0x1dbb1b476c0fdd5],
    [0xe878c256f6cc22a4, 0x18c3f670643b4ec8, 0x9472fc7c3dc8b354, 0x81dbd4fdc8779da],
    [0x16e94fa55f584d31, 0x457a7c15673fb889, 0xd8463419ac5651ff, 0x886cdaa0b431c97],
    [0xc09dbd7ec3cd2de, 0xf685ebd760953677, 0xba3fff6492c1c547, 0x2838331687e032e9],
    [0x34691e18154354e5, 0xf498c95fed719edc, 0xf22f64501b131655, 0x2621bc61696ec99c],
    [0x1b4ca36f15306ac9, 0x7c14dfb77087c915, 0x7b52782493fe1b0b, 0x2549d455daeaa01b],
    [0x22c88b4c06e7f4a7, 0x52f78a20e953516f, 0x3488a5bcf59fe222, 0xa4c236eb53846ff],
    [0xff6a26ef95e41815, 0xc27b52cefd6fb1a1, 0xb3e3c2b14eecba18, 0x10c077e94f0d3852],
    [0x1d3036ecc54b196b, 0x7ecdd0286b75560c, 0xe44971a4b370ae91, 0x2eb187c8e8b5d69d],
    [0xc141ec7b4d7c1e97, 0xfa397c54f91cf8a0, 0xfb3a580abaa376a1, 0xb395bd209a15083],
    [0x8d53307ff930d8bc, 0xa930752f8c9c1a44, 0x3f9ead7881aa391f, 0x2a1aa4e24d835d8a],
    [0x403ce000528605ad, 0xd773b545d372e5f8, 0xfa45a9939b47676e, 0x1a3959bfaa6e5ec9],
    [0xbbca7f238e4910e9, 0x30f4e76974071207, 0xaa6a29863ff6c511, 0x31eea5b773a9e18],
    [0x51b576ff2e77c98, 0x218ab8fd8495f1fe, 0xdf86b4d6bbb1e57e, 0x109a8a86778d80cf],
    [0xdc893b09fb034ecf, 0x3afddc738f2952a0, 0x48c05b6252bff790, 0x361d334bf2e9079],
    [0xd2978364b632ea0b, 0xcb2399750d002d9c, 0x3bd7eda90e668b7e, 0x11f636b7d7ee1960],
    [0xff2c3eef417e8d9e, 0x2a5482cdf7cf324b, 0x4d6006377fe06a20, 0x23af2f1d6a7dbe73],
    [0x7a26cb6cc36bb61c, 0x2474add58e57e3a7, 0x6cd5bcdebb9e75b1, 0x20057e0887d08985],
    [0x9f11e97da00aa5e2, 0x2003e2255a15e541, 0xe4a31975410dd577, 0x2657371dbdb26288],
    [0x40b3344aa641758d, 0xc93264cc242f9a61, 0x7381c6981fcfb46e, 0x149681e3e7671ece],
    [0x9a92856252f5ebe3, 0x9dec91db3a672186, 0xce490d73674becc2, 0x4483482a502545f],
    [0x374343ee6f93197e, 0xede8b5128e378bfc, 0x5296f8f075ebc831, 0x1afb1e247f579510],
    [0x1b754cc12a296bbe, 0xc973656baa56ab3e, 0xcc5ba00847848e4f, 0x23140be54f97f6d1],
    [0x937db3fd8a333539, 0x2436f0a07142988a, 0xce6341f9d308c79, 0xae6ffce46e6c0bc],
    [0x8770b320ef193ea7, 0xb314e22b24b55a43, 0x9c0c2f9868b00c22, 0x129231c0dfad986f],
    [0x374ab6806e01573a, 0xf0bce6dc55083b58, 0xd128e45a28062fe7, 0x1d62b56618a967c7],
    [0xdbbcad3e8aa9166b, 0x8bb4607fd478b67f, 0xa936c5e189fde01b, 0x17e3794052d48c4a],
    [0xff9fc7d9c4691fb3, 0xc79ac86b06ca092c, 0xc6b2f3f44eca59bd, 0x24af4f43a91c5c51],
    [0xd9122008e6e027c1, 0x4421398024a8bbe4, 0xe3c97d2bc28bec17, 0x215075ce41bd685b],
    [0x5ef937df3b87699b, 0xb394753487490c9f, 0x78518eb60b2a1dae, 0x10ff29fe3e761d9f],
    [0x83b1d6d90caa0324, 0x9a29e7924f5ba245, 0x280d5ff675a9db04, 0x160ff9e43a764ba2],
    [0x787abf487d828055, 0x9fa39559c1a847f7, 0x715676e5ab5b246, 0xad301157c28a120],
    [0x651a48602f13d108, 0xba299ef770e3640, 0x16fef10fbbeebbb4, 0x3409e3a83bbf52d],
    [0x71799d6b30a58da4, 0x241d0d8b7933b594, 0x709442909811d0a0, 0xb1232364d87cdbc],
    [0x3d9f30c8c70e1fbc, 0x2fed868038cb2710, 0xdb85af3e0c9a3ff5, 0x195dcc72dd9f2629],
    [0x7ff8e86ba8bc27af, 0x1bff596ae56ca468, 0x9ab273e7e2b050c, 0x192d2d9e31fb65b4],
    [0xa709b818521bf3b, 0xe866e00258a32038, 0x2bb967045b906afc, 0x2ad9eedb67e8bf18],
    [0xef8a519f113a4107, 0x308b46be5fd0f77d, 0x1715ede80573cfa5, 0x2ddfe92956df2e75],
    [0x42f7f8806565f2a8, 0xa4d8be7a8effda3, 0x6e6f0fa82187820a, 0x1ef0dac6020d7b37],
    [0x28f28606a4ca0f91, 0x88a2c8ba2d2beba3, 0x8275f8a4dd536bf9, 0xe4d6efe23c1496d],
    [0x45b6c128ff84202, 0x411f74f777873b92, 0x2f59a03c7ee9f206, 0x185b30ee2d3a166f],
    [0xe4f61849d8427aa4, 0x1057e16a988d2e93, 0x7757942770dac286, 0x19ea7d6275a6dd16],
    [0x13ab2c2855e1187f, 0xba696f243a669aab, 0x69e639b956d48ad6, 0x23c3b4f5e49e16ae],
    [0x1134b36d3551ddc7, 0xcb23218bef3cda81, 0xec4524ebbedb8069, 0x29037d64b549d1c9],
    [0x9633fe829a9d109b, 0x814f18deaa7effcc, 0xf731d98f2ab89ae9, 0x2ea8637b89b798a2],
    [0xba7672ecd03f1202, 0xe70b1ac9516eb87e, 0x7374a026352644b8, 0x2bb4bf36b15be77b],
    [0x2f4e3d726780cea8, 0x16c18f8478f225af, 0x3d613b89b858bb66, 0x1006f07533b6e5f3],
    [0x296021da0d90ec59, 0xad0d7c8ab0a4ae1, 0x257d9b8555e540bb, 0x1749f416df7b4f43],
    [0xd49bce318da8b592, 0xe9c4c57bb86c15, 0x7a96cc74b511dbda, 0x26c86b58437b0455],
    [0x9b09041571c4560a, 0xd9505a5cad5a069, 0x54d38287c7ed606d, 0x2679dc5e56ae1f6a],
    [0xa832b091bc2d6136, 0x9a021e83f6442418, 0x741eb10e973bc5e2, 0x133eab2d7a718f3f],
    [0x89c52e73d69a8fa0, 0x88e3705820c468c2, 0xcbee67151c638d55, 0x1684a4b71cd72ec3],
    [0x2eb910e034b4041f, 0x7360cdb73f62d79, 0x63732c01e6c40f68, 0x17cb936bca97a37f],
    [0x44b4b535adc388a7, 0x9d99c933a8f50340, 0xac94a46972216b33, 0x1bf4b473f0c77aa5],
    [0xb00f3edc64e079b, 0xc2f8129cdcca89fa, 0x8105378de5176d60, 0x2c6b76a42a2fd9fc],
    [0x8ef79766f8d9aed2, 0x7eaf48b08c524288, 0xce9b5506b56a2b86, 0x2893d0cb426295ed],
    [0x80e351150e68292b, 0x3902e2241a371f98, 0x901612983c6bcc75, 0x192d74bf58f3dfad],
    [0x13f5df5f5710736d, 0xebed84d979668381, 0xa0e04689e9698896, 0x1bf69bb66db73ef6],
    [0x3f2edb68fee7308d, 0x603daafaf084f037, 0x8521a1a0cd3bff50, 0x1f8201a8020ba29e],
    [0x1b1382399bbf6e4c, 0xdb021f9e34e143c5, 0x9f40ee7c48386655, 0x2fc51d7afa548b44],
    [0x5cc1ea13888f360f, 0xf6fa612578d474e2, 0xe1a1e466d4968ba9, 0x1f4e909114c65d62],
    [0xf761d49913d147ec, 0x4668a359da4e5c0b, 0x961950fd72e1c722, 0x2957f8aa51d126b9],
    [0x667e85f01d0333e, 0x4ef552c62d2cc088, 0xb8889b6336107828, 0x1a80f9577c8384ae],
    [0x8435bee97e57b0e1, 0xb555e0fec1b7b09d, 0x54b37fd2b61eadb5, 0x1de416e08ad386d6],
    [0xe1654e9e5413b535, 0xd1777f246278cfe6, 0x43b2d3c5c7c023b6, 0x1ba2ce3d6e352d06],
];

/// The values of the round constants for width 13.
#[verifier::opaque]
pub open spec fn c_vals() -> Seq<nat> {
    limb_vals(C_DATA_0@)
}

/// The round constants for width 13.
pub(crate) fn c_table() -> (v: Vec<Uint256>)
    ensures
        v@.len() == 169,
        vals(v@) == c_vals(),
{
    let mut v = from_limbs(&C_DATA_0);
    proof {
        reveal(c_vals);
        assert(vals(v@) == c_vals());
    }
    v
}

/// Part 0 of the sparse partial-round rows for width 13, as little-endian limbs.
pub const S_DATA_0: [[u64; 4]; 256] = [
    [0x39adde2559592592, 0x23c33995784d2288, 0x9f2a8be7d2fa5832, 0xd064dee824928d3],
    [0xb6cbf02305a440a5, 0x28bbf5dc663dc5f4, 0xf119016151581b39, 0x235ce940dbc6ae2a],
    [0xa47311e9fabc25fe, 0x3ef7303dcf1d6171, 0x6ee0539e87350628, 0x1f41f49e23f371de],
    [0x83fb8b76c2ed95a2, 0x4f22001dfbf15bfc, 0x915f56fdff180ddd, 0x2761de8796f7e0b5],
    [0x77b373a88362544d, 0x5945b9ccfeb4173b, 0x117fa18d61bebfdc, 0x2030fa119e7ea727],
    [0xd76fe6719476c017, 0x14b76e79b2daa5ac, 0xe8bfb5acc676076d, 0x16fade125075ec0e],
    [0x510e89dd2faf5d5d, 0x2726fd7cdcb71489, 0x543db8d8d6baafb0, 0x154054c752e6e827],
    [0xdbeebccb5c83cb4a, 0x5ca28a129fddb2fe, 0x7aa6d9e9680c1487, 0x1b492c6aa52f42a5],
    [0x59025e9808936311, 0x8aebf7d9918f578b, 0x376e6619ef855a71, 0x23d1d1bcdf6c2c14],
    [0xa6e923708d4aa5c1, 0x6480f64ecabc6189, 0xae62db6eae773000, 0x1e509e854698b837],
    [0xd158941e13322bfa, 0xe7ea1ab9fa18e4c8, 0x539007d7a631cb12, 0x104a16aecc2dade9],
    [0x4aea93443249f9d, 0xe318714eeb40b545, 0x80a08b21374178b7, 0x167e341698c1e478],
    [0x4d2a882d55c4b3d7, 0x1fcf161483d1a9ac, 0x2126534f65a36e05, 0x16ff745c57280b83],
    [0x87a6ef1319cfe3dc, 0x859bf0c06464a698, 0x99852213b53eddd1, 0x16556da3145b126],
    [0xe29f9d55b00a9d20, 0x7b17e3b859e1e119, 0x5861bec46d3c952a, 0x1f52e72aec02c108],
    [0x777cca92d5772330, 0xfd137963c823113e, 0x1e994a422857fcf8, 0x1439235c13653395],
    [0x7db98fec13c3ca6b, 0x236ff91f79962eac, 0xd1927e525972dfef, 0xa70ec5c87c2873],
    [0xa54f9e6371d00550, 0x2bdcad7b01f0257e, 0xdaa8548c7b641d6, 0x85c4d1ec109d4fe],
    [0x8edca751823992b8, 0xb89e652a005b6d37, 0x941abee8b7f98ae4, 0x2f4b2580ce56a2b5],
    [0x5e94a40c0cb4eba3, 0x376a23acdf44719d, 0xa05c694e90ccfe26, 0x134520116944cb30],
    [0x28125b2123e9612a, 0xe986b9c26a99382a, 0xbb23dded37fe4349, 0x2c6f46236b3de631],
    [0x92c6f6e60830363, 0xee499707fc5d3fad, 0xc9aa2edb10e2d160, 0xba54fa736725c45],
    [0x54f6ceee03f8bbd6, 0x435e920034b8f3a0, 0x949af21227dff641, 0x9fec55075da3b0d],
    [0x3e1005480ff65dbf, 0x658fccebcadb25d0, 0x6e2c0994fc75161b, 0x2123de2c4d965746],
    [0xb9e8ae4aca9f2ee1, 0xd5aa2bfa702efcd1, 0xfbac26fe09882fa5, 0x15190bff5104801e],
    [0x39adde2559592592, 0x23c33995784d2288, 0x9f2a8be7d2fa5832, 0xd064dee824928d3],
    [0x1cab7d9f7c867273, 0x3f8027ac8c07bb3, 0xe315aed03d6f9a75, 0xebeb78e24789d13],
    [0xe406c4a17eda0fae, 0x11eddeb564d15f77, 0x6ff9e11e706fe103, 0x1a7408d356b546b0],
    [0x15840dcc75a4695c, 0xaa3f486b67385e9f, 0x562bf5eae630eb1e, 0x7b909e9b3d766c0],
    [0x9a432fd404a5a1d7, 0x3fe4d7e32a253b2e, 0x622736669771b376, 0x2fbfae64d96df063],
    [0x8ffa47a394a792d3, 0x41e8dfedcb10173f, 0x202278022d1f4f16, 0x2e8bae55338b9e7a],
    [0x75cca08a95c4fafd, 0x27c6e20049be69d2, 0x6986a1d8dc6e23ef, 0x95cf55bf75f13b],
    [0xcac61a582c93c707, 0x8d9e1106d6b44143, 0x96152bdc843ee9bc, 0x590c80761bacb19],
    [0xed88972c55d4dc1, 0xcc1e2ec77eb98d69, 0x64e82e3fe38c9f83, 0x2e2c9e1b232536be],
    [0xf9ede6451882f668, 0x9a8896b46194b795, 0x5104da5f80d43681, 0x2a0bdd075038ef92],
    [0xcefb06bf572b019c, 0xae8720dffc3df2e7, 0x5abcbecddd2326c7, 0x25e3f54e8788cc76],
    [0x5ca4cb4231e72d9f, 0x24061c515ed02d9f, 0x48964df0816fa573, 0x2c4e38ce29ded571],
    [0x76c7fb778162d597, 0xa1de21b079324c73, 0xf63e353a891e5c63, 0x17816a3115471f4a],
    [0x834a8883f7a1129f, 0x63ccf452f485aadb, 0xb55b44174b22b72b, 0x16b1e612a7910bdb],
    [0x7023b75445f2cdbf, 0x329559906cf4c9cc, 0xf36d7fbb1734c066, 0x1cdbce6ec5631b7d],
    [0x5e267b407dc122bb, 0x9d27d73af39ca3eb, 0x5319b4178ac91c8, 0x8527bb0455abf92],
    [0x6bb0383b2b3184df, 0x741d19fa1f85424e, 0x9622f92a52742786, 0x295a5be07d3fad3d],
    [0x6a7de3bdfced494b, 0xef08e3a2422e59ce, 0x7b06061e9230a13a, 0x1d10e15e892ef5c6],
    [0x7f9b03bff649ad97, 0xeafe766bd397d6a3, 0x3b47880b483792d1, 0xa1cd7913f731a26],
    [0xb336f37688f82381, 0x91c3b3eca9abfe91, 0xf4d0a8c6c0e04bb1, 0xaef18db0541091],
    [0x78ca4cee358ae80b, 0x130079616fbe9533, 0xb11da2fefef668be, 0x2c240c1f57384c0e],
    [0xe091075b036c2903, 0x62d131ac387b0e06, 0x7ed264223a560b74, 0x1ef04e55dbb7768b],
    [0x231217fb49bde976, 0x9a4ae69088b7bfec, 0xb40764ac927e45c5, 0x19df6cfa53448857],
    [0x1f45262f4cee3ddf, 0xe924f51c742c97eb, 0x1b6ca4fb2df93b5d, 0x1b794d61ed2a335a],
    [0xa704a167305b0432, 0x7a2e921bc124099f, 0xaf001d0b01e1558d, 0x62906482824c01d],
    [0x39adde2559592592, 0x23c33995784d2288, 0x9f2a8be7d2fa5832, 0xd064dee824928d3],
    [0x4f062cb702e12ea3, 0xbd6665d3a0caa753, 0xa02a4c05a704d15d, 0x1ee5e91ba44d3919],
    [0x5cfc4aea0542c38b, 0xa77f9927abfaf662, 0x1d21125260ac980a, 0x124e5670301689bd],
    [0xeb1668eab22d2ee4, 0x5b3f79e0f4c56fcd, 0xb50cf36cdb63d648, 0x17f39c51b4f9aba0],
    [0xdf2550b7f23d9ab4, 0x5c146208100bdd75, 0xf5a85cbcf916e425, 0x1e47876883221f61],
    [0xf90352aeed2d4196, 0x5b7b4a77cc187f39, 0x2b4514fa4aec6368, 0xf6cfbc348d0c46f],
    [0xb9cb15bc4354d259, 0x612345f94a7d1047, 0xa45fb8b6fd52a0db, 0x1ec916f0f8ab3534],
    [0x816286f8059d745e, 0x7285fd3db093f52, 0x8acb571283f8d58b, 0x2299e8cfa278c8ff],
    [0xf322c00aaba6788b, 0x642acba1dad62f5d, 0x23463637d3c6c962, 0xe63ae084d4165ef],
    [0x23e869dcd807a04b, 0xc57f028d75ae594e, 0x6e6b1642278935ad, 0x2c652dbc12391bab],
    [0xdf05bc7c16e74aab, 0x898bdcc82debfae4, 0xa758f977f1e8e382, 0x23cca3a96c87c09],
    [0x50312ca740d538f6, 0xe545b8a63f5c730d, 0xff617a2dad69858a, 0x2f5c19ae2b06aa09],
    [0x29a21537acf8e03, 0x3a1516f7c0486900, 0x1eecce3045555f59, 0x185c013083f0dc7b],
    [0xe914ee1db3fda861, 0x7838719e6cf002f2, 0xd391f536718a6f10, 0x2e4ded90ce2c40ca],
    [0x3a6b605fb7ce4cae, 0xfff221ed8a698455, 0x22a59bfc7d0b7c3c, 0xba3626706fae4da],
    [0xb5b094886e89c4cf, 0x24107d60dda4ea79, 0x27891f41911dfbfe, 0x228687cdc81f4bd7],
    [0x4938a403009ee28e, 0xdbe906d9c3a664e2, 0x2c4e68c51518e098, 0xc1a4374bc29963f],
    [0x3de51228e33662a4, 0xf6f7eb12e0a4895c, 0xd9fb76b9dda5859a, 0xb49ed175ec0cb65],
    [0x6cb64fd41d64b19e, 0xad156e67ebb1aacb, 0xe6f4fe6694d8b883, 0x26be812425de5be3],
    [0x7975300eff003dbf, 0xab4c745ef05c471d, 0x369c026e0e34885b, 0x17cd4b4c75b978ac],
    [0x634e3cd6144085f6, 0x6210108a30624715, 0x4dbe29f05490b90f, 0x28ecb3b468e0867e],
    [0x25afc192fd6926aa, 0x6a9fe8e234b64234, 0x853d17ff8e29487e, 0x2ad2a688d5e1fc7a],
    [0xa7b7847e10b71a09, 0x2394983faa33d3ee, 0xf46ea85579f408bb, 0x177b3225d90e7c43],
    [0x9df25cb57faf1749, 0x22fa4ede0e428127, 0xd730650c512b0b29, 0x18c733d3fc6d5c4e],
    [0xc88cc49c425e2269, 0x8e47f042dee30f90, 0xe552c72c747c521b, 0x25c287190fdd3f0f],
    [0x39adde2559592592, 0x23c33995784d2288, 0x9f2a8be7d2fa5832, 0xd064dee824928d3],
    [0x28466b843b5b481d, 0x4fa99a0bf6237bb3, 0xf98c3d3096fdaeb7, 0x17223e88c5afdce6],
    [0x8e155a3767946556, 0x2a99f1f54571cdac, 0x634349d03bbac5d9, 0x17edf7bb609e24ab],
    [0xa78b399906654ec8, 0x485290080acb6d05, 0x7b74c849496796fe, 0x16384369e8e866d4],
    [0x9c00f88391963260, 0x1a0424c75dcfd6e6, 0x6484886487f9b149, 0x38414054cab9daa],
    [0xdaf92c1ed8026670, 0xd8cac2647871b4b2, 0xd9e9729b8510c6de, 0x2add2a9f58afb253],
    [0xe2a9b71bd5eb4e8d, 0x8583b088726e2f77, 0xe1e72b27df74f887, 0x2f59f831ed16663a],
    [0x8bf84dae0a448cda, 0x2d61eb6c921df0b1, 0x77762b73467f7481, 0x2c8563397614e4c9],
    [0xf271acd4e6dfc452, 0x7f99b0f3e81e4774, 0x333ea6d5496ee62b, 0x10844b6d701b264d],
    [0x92548cb503962f2c, 0x7cedf457c1691c64, 0xbab0f84164c6bd65, 0xd90e1221b226621],
    [0x928562f772a44312, 0xd47e9d9bcbf7311d, 0x4fadfe6aa6a58f5b, 0x675d5268e859d73],
    [0x95670ab6881cdda7, 0x8c8c6eca61debcf4, 0x3c100449d2dbb5a7, 0x231539abaa71d18f],
    [0x5ede170519bceb81, 0x8f47c5b01c39bce8, 0x1b8de7f89d00aa08, 0xc5e674c55e57e98],
    [0x2c3cd55f744c8446, 0xc6acec8da85ff34f, 0xa7f5ffbf0760e5d2, 0x2e6b1e65cf7069fc],
    [0xdf84d110b5b26048, 0xcd19917fb66e90a3, 0xfa686a8710a7737a, 0x348474ad39c09ec],
    [0x64ec580536d1192, 0xb834c9b7e3664e1b, 0xdd7a02d0187c845f, 0x22380985f6c92bd],
    [0x3555633a31ce1d33, 0xb16844b2c4e834bc, 0x97d2d06e714e937b, 0x215293044ac2044e],
    [0xc6a5baeadb39ec85, 0xd1658c390fca109d, 0xa9829ed423572f05, 0x1076db0b38f462a6],
    [0xbbe4cbf608330e0c, 0x9f070fb078152378, 0x7689976066d5aca8, 0xe0b3b39e33b5f0f],
    [0x5d7959d5b8781f3a, 0x4fafa773cc696bd, 0xca0fc3af31ef53eb, 0x1decd713548d0f04],
    [0x29c3477ad75c0b7, 0x5be05a672d16aee9, 0x4e3969bfba914a7a, 0x8eea1ae2e1dbabf],
    [0x5723fb6d4783090d, 0x3f496cfc0c88708c, 0x5be2ed025fd26, 0xa3c813f669fd055],
    [0x3f1805deb488df4a, 0x8b70623637fae318, 0xf37e6cd63f9fd749, 0x1482b39a31e48749],
    [0x4032c897705cc180, 0x242fb998f1faf5a0, 0xf7611ae231544253, 0x92c09a074272c56],
    [0x8ceb068b219c5de7, 0xd102b5bb4870acec, 0x501a8c68d0f9b298, 0x218cae97227d24e5],
    [0x39adde2559592592, 0x23c33995784d2288, 0x9f2a8be7d2fa5832, 0xd064dee824928d3],
    [0xc92783d2f36f435a, 0xf625dccfb8c8e663, 0xeab81a88bf83e966, 0x19fd38d0a9fcfe44],
    [0x3f57276bcda15b48, 0xc0a03d0ee652aa1d, 0x448ce467efb92c03, 0x105b69e0c16b67fb],
    [0x5f4ff71ee538e69, 0x6dae74ac4b1dd041, 0x835cf451788b6435, 0x25d1fb19588b96b],
    [0xbafd4d40ed09efd2, 0xca0d9734ba13f9f9, 0x628708ae5bc1a677, 0x1a3d3f0584d9937],
    [0x565480753c3d69ff, 0xfa147726da98e7d7, 0x45ddd3688a097cd2, 0xda29cb284f0b19e],
    [0x2dd7f8a12fb97465, 0xcaefe27cb72746f0, 0x1a323de946e9c79e, 0xbb245a4fe17933f],
    [0x4acad50adb3c93d4, 0x2522613fdfa60338, 0xdbfd8d32c99add0f, 0x12968abc1e49e916],
    [0xa145de2bc81fd905, 0x134b6e2bc190ff8a, 0xd15c53223be0d59f, 0xb72090055db8eae],
    [0x7981e4d67f7e6149, 0xf931b0b3a19d0839, 0x6d53aab3202f16e8, 0x2ec92e332d64bf0a],
    [0x46ed8dbac225a875, 0x4d2fc266087bb15b, 0x6d229bcb6035a0f6, 0x10875e45751b9f7e],
    [0x79bc922b32214f06, 0x96a586df80ea7556, 0xbf1e8fd1b5957d66, 0x20a28d7e7bf2393d],
    [0x69318ae141b59474, 0xa3c48394ef025f94, 0xe1035acecb96d60, 0x2dbcb5a066131fe7],
    [0xc44b7daee0f539a4, 0xf18f3e1a3c11b744, 0xdfa3b2a5b9fce537, 0x5d382b11621ce81],
    [0xcceae95257195fa5, 0x9a79cc1fcea1e28d, 0x26b553b60967d1e4, 0x2aa1cbda3b7224be],
    [0xd99cbc60bf31b38c, 0x8f90d343d73408af, 0x6264dca209fa31b, 0x119d098ff4fcd156],
    [0x3b88c6eb828ccaa4, 0x4d5da0a512677bfb, 0xf606bb717c2d6fe0, 0x2d6a5ec1decfd860],
    [0xdda93773873b70f1, 0xb9798c52b5475288, 0xfa262b991bbd4b25, 0x1d44cdd7e0f9ff30],
    [0x637fff73ee586351, 0x7f895244c01b0827, 0x584e990894765400, 0x1a52bfe42c699db0],
    [0x432135867248f06c, 0x8756c81c2d2526d, 0xae3100dd36034091, 0x26bc0e722f88daf0],
    [0x5964ff4d03c63ed0, 0x691b7dede6da01a8, 0x98b57b17bcc32174, 0x2151d6544b541cbe],
    [0xcd6dc0540b1a1fff, 0xfb7eb1f94ae9ce86, 0x931569efaa9db035, 0x1dc401101c1f1df1],
    [0x5814abe703d0a4fe, 0xc990e13959c8bef5, 0x74acf4018fb6302a, 0x219d8e0b575d09e7],
    [0x55cd063c3a3100e7, 0x1ab5dc0091d0166c, 0xf10b39501354acdd, 0x7107aac0c5aff7d],
    [0x1cee58b3144fb464, 0x2556df4f20dd74ed, 0xc10af51567f8cbd2, 0x1541846836b18159],
    [0x39adde2559592592, 0x23c33995784d2288, 0x9f2a8be7d2fa5832, 0xd064dee824928d3],
    [0x9f35e034173963f8, 0x9c59af2a97deb64, 0xc36d9770c7eff1ae, 0x1a21b2733e57ce5c],
    [0x47fff0a2ffcf3faa, 0x5c9a568a0a3f9625, 0x5de88f256300d0f5, 0xaa74005a1aba9f3],
    [0xb82fb7cb80133143, 0xa904275eb4ef75a5, 0xb8f4ff9da06a95c8, 0x302cc36dbcf39b2b],
    [0x9c359b78c7b3c77c, 0xcaff816cf4298a9e, 0x90ce70d81d068ef1, 0x1ba8fadf54ff193f],
    [0x6308224a0b7f68a, 0x51ec63b0ab29b1e7, 0x38623d70bd43b866, 0x177e25961a6d2d25],
    [0x9634290249efc500, 0x9d187069df865960, 0x5939ac85e6c50f08, 0x29ade22a14cb16e9],
    [0x69a2777f70d89308, 0xe1b576ca318d2566, 0x26d6dc733e8c0276, 0xc3cbc360d3cc871],
    [0xb0ef1b8cc023639c, 0xb6c882ec10683dfa, 0xe86010c147c10fb0, 0x138a5c75420e198b],
    [0x51128603b6a5f092, 0x10e7b2561890a4c8, 0x255030214d15b36a, 0xa350052193a49d3],
    [0x9cf2545c10084594, 0xe05b5e73c6de8786, 0xe6c17ea867b391cf, 0x1002580094079011],
    [0xcdd29e5f993e8f47, 0xc0526051a59411a0, 0x5e7c8fb8a3a2ffd, 0x8c06521680fa7df],
    [0xa4deafd9baf4e65a, 0xb0fb52546c35ae90, 0x70651e9198f9d5b, 0x2a3a540122300f3],
    [0x1db9092e224be615, 0x543cca200ea6c559, 0x44767922e320d38b, 0x1416a88242389104],
    [0xde894e171a1b4af5, 0xf4c3349723ec4ae6, 0xa1ab87fef1da1a03, 0x507def96242fbb9],
    [0x7fc5e2a49b43744d, 0xba9fd23f45e80165, 0x29390a74fec2d3e7, 0x2d03148012d7307],
    [0x286e81b7fe17abe5, 0xbbd2930669ed23dd, 0xc3e0e557ea0d4b24, 0x19446791471a6f03],
    [0x5ca594e616f43f35, 0xafdaa1b8cfb934a0, 0xa55d2cb02226db49, 0x23c198ae993dfc34],
    [0x5b53099933aafe5a, 0x184d15280bda27f, 0x399a21690d0e6a90, 0x49ebd2c1b2507a1],
    [0x6e2c5c4c48ccec56, 0x826f9f36eb1b957, 0xf0b17a692fc99cc8, 0x28eb35a44903f387],
    [0xb1b63ec28a77435e, 0x5afbe87b223fd501, 0x772b5bc1fadc11af, 0x2e217b29bc22f5d1],
    [0x498b6c044ae087d, 0xc33119f486259243, 0x818ca83e3e25d1aa, 0x5d617f4148cb5ad],
    [0x5434b2773b546eff, 0xdc6bf7b3434a93b2, 0x29df88726541e8f3, 0x196ddf78908da3e6],
    [0xe59295ccb3447940, 0xd978b0f3613d0457, 0x536509de373c74eb, 0x19f43813c7b1361c],
    [0x478a8d0b4ebd67dd, 0x70e1a99afd151dec, 0x75b44dfd710de43a, 0x1dac98a00317e1ad],
    [0x39adde2559592592, 0x23c33995784d2288, 0x9f2a8be7d2fa5832, 0xd064dee824928d3],
    [0x51787bac24151f30, 0xe83e305fade25b51, 0x412361e031f9d19, 0x248389b6c1215ae8],
    [0xe47be01c85231a63, 0x744288c73d5b6fe3, 0xe658dff1f825202f, 0x1d6245849595c3f2],
    [0x575ac698fe0fab44, 0x582844ea9893e47, 0x61e3cd35b39ff7ca, 0x2828197fc5ec3d0b],
    [0x445687c1fbfcae21, 0x73951a9b5ec47809, 0xe299a7c38bca2317, 0x5f98baa94403cbe],
    [0x9281b6d610f86d7, 0x89429fd8470ee4f0, 0x516bdd009e9c822, 0x21c21725d982bf88],
    [0x11a30da401f65624, 0x492060f9c12e5d6e, 0xfcdfed33abfb03d4, 0x25161628bb96c434],
    [0x63189e57a4ec1726, 0x38fa0b4b943b5f58, 0xac12e9fcb277ab8b, 0x98dfc41ac8db685],
    [0x5eedaa37c238b6d3, 0xc9a209830d177d06, 0xdd2b667ff122aac9, 0x20e5160dbc32bb70],
    [0x35af7b59647e6072, 0xb9445a5e6948c67e, 0xdc7032e874419ad5, 0x2282b92a3302808c],
    [0xe3b170d335d19805, 0xd6e627117857e45c, 0x855665e03136bd60, 0x19183560ff143e5d],
    [0x18742e1dbd035345, 0x8d7bbd31acd66028, 0xe9a546b1eafbfac6, 0x1cb1080ee04da98],
    [0x24ca09e8e190ba93, 0xe2bf1733140eae2a, 0xbf4e83adb2f544c8, 0x2e08e6eb7f7299dd],
    [0x4966024ff3fea376, 0x662a9225d70e923f, 0xabcd85bcb243a96c, 0x17313eb73d301839],
    [0x1d04e2e927f99a1d, 0xec93b313811c6144, 0x5a0625e77bf00d4e, 0x115a8fa0b0211dcf],
    [0x23e2bab6fc0927bf, 0xb040d62e5d8bc65a, 0x73650275e517b30c, 0x10671e260167bb4a],
    [0xdd5e4f287fc567cf, 0x8edd1b130e18ab45, 0xa81d149a959b22c, 0x697b10896487efb],
    [0xeebab0a41fdd2a9c, 0x7dfb2d85aff42dae, 0x616ff582cba30e70, 0xe23561be0a6b6e5],
    [0x333268f39568dc32, 0xe2ad131c70a6abd6, 0xaa8682e0c1ca4471, 0xe6c17540a1832e4],
    [0xbbe1b6cfbf8d4e36, 0x10d49eda3140ba9a, 0xd9357eb1b603ee94, 0x77e8a2a9d0da541],
    [0x866256c6f0ac2b05, 0x227721bc8ef99acf, 0x4e85c853bc42a12, 0x1ef5a47f9491310e],
    [0x6a2028a34a54ed8, 0x68e7e9fb8c2f8cf8, 0xb9623bee29f62db3, 0x2d756bd8508664fd],
    [0xa0338776f3cfee4e, 0xc0a169f47e498833, 0xd12e4075461952f0, 0xb6440027e32df5b],
    [0x36604c51eb757e96, 0xe78193978da5888e, 0x5ce38d5e0ab2a691, 0x103b3141b18d4949],
    [0x468abf64bd434649, 0x706677a556f0ab33, 0xc59a6bcadcc0735e, 0x4502bc324657c18],
    [0x39adde2559592592, 0x23c33995784d2288, 0x9f2a8be7d2fa5832, 0xd064dee824928d3],
    [0xbac5d3d9b6a71abc, 0x2c67482108870675, 0x52da325ea532bf38, 0x226880584a57a7c5],
    [0x65264f33b5204d38, 0xe7dad714554fae13, 0x180b95dfbe188f99, 0x178d0b7b044c806c],
    [0xb804d2e262989e28, 0x596258c516ea0c68, 0x43ab1cba8a604abe, 0x110cbd05beed2080],
    [0xdc7bcc6d2a944cd0, 0xd1c4b83c76119951, 0x78ed70f6a147e329, 0x2b4f9ba6e2d2e310],
    [0xf1ea1a575dc29dbb, 0x96d26aea6d8b5a2, 0xb78bdb08c5d2208e, 0x1712edcd1662f4da],
    [0x82bdf397b28b7e21, 0x18c8634e87b14333, 0x842f811423601b3f, 0x20e7ac1985805214],
    [0xe9daf6af85f31fd6, 0x3883f297a9c40b2b, 0x7a767266b614d9f2, 0x5e6b0e267ea884c],
    [0xbca805737f0d7db1, 0xebf82185f0a99a06, 0x83a10e1ec448b8e, 0x15adb275543fbb0e],
    [0xd640fc319c7354e1, 0x7b50d8db22c5e752, 0x349e99c824123016, 0x23f2e8816906f5fc],
    [0x823de14c7a60fe44, 0x937293d8bd96c9ed, 0xff3bef4e8f9e98d0, 0x8a8a0eb412422e0],
    [0x316de4cf5100500b, 0x37253bd5fb04ec9e, 0x87d5e14652ff175b, 0x147392d188c52fe4],
    [0x5b540409e90d050c, 0xd61d5d5ffba01605, 0x702d87b8ffbab347, 0x1a1a69d5bda4c559],
    [0x251a39e5cb12c8ae, 0x746a0fbfc7fc375a, 0x16383d9763460242, 0x26265b87f8fac4c],
    [0x5061e695a63ea362, 0xaab7feffa3f8fe1b, 0xad1772d383417f8b, 0x562af273c7d6798],
    [0x5c26898227530c02, 0xbc22c5f00a0dc9b4, 0x8223eee9ed2647e6, 0x2277d743f99daccb],
    [0x328d4023249f331c, 0xd66b2239a2754f64, 0xb2c00c1a1c57ad9d, 0x2ab7551e6b4731a0],
    [0xceeb1d1f49af1cd9, 0x15dc97eb418f8cec, 0x8a67ca30a941a68f, 0x67e6bb560049068],
    [0xb1b81b22186c0017, 0x57c448ed25d4be88, 0xb44e53fb5897f27c, 0x299b048827a0cc67],
    [0xd161a45123c4051f, 0xf59adce460340ea0, 0xdf3c3ba84e7ef35e, 0x4ce6cdf689338f7],
    [0x45bd243c5475cf9a, 0x20d0256a60e1e6d1, 0x7e1607096074fcd2, 0x17631e8c56335636],
    [0x835ea87f1aabcc04, 0xe1888ac898d37f1f, 0x6bc3de4e5578c796, 0x25be84baaea86bb1],
    [0x72af401db8804f2d, 0x13a950a44cea7de5, 0xdec9f05c012a96c1, 0x7fd81c59493a306],
    [0x67e5dea122815ae4, 0x7cb60b0fd9d40c35, 0xd4689b2518ae16f8, 0x2d71abfab45aa0b3],
    [0x11bb73c3cf8fd282, 0x77884556be4629a0, 0x420b6b40b061e1de, 0xbf1dacc9ee49263],
    [0x39adde2559592592, 0x23c33995784d2288, 0x9f2a8be7d2fa5832, 0xd064dee824928d3],
    [0x211dcc2cbf45ea49, 0x3a8f6570c15c1dea, 0x2d2c9071fb8c024, 0x207e38309d97a6bf],
    [0xe0b2f6c0fa0d29f1, 0x1ed99043ce3abe10, 0x5ea5c187ccef5c55, 0x96401efc3b42939],
    [0xedc22261c424810f, 0xaea21aa8c5ea1b80, 0xc60da80af2df8f7a, 0x25e2fb13f405f8cd],
    [0xd395fb9edb36e57a, 0x35e7b90dafb9949c, 0x8e88366af640e59b, 0x14f942438d0b630],
    [0x7885b916d0037272, 0x333631c8260c991f, 0x2d93a33c0c4de589, 0x1a73239189586821],
    [0x83550c9d25bb0648, 0xeea384cca222ea59, 0x7ada9617c87d6ae3, 0x1e29088ed2ebabe0],
    [0x6b4fb1b27dc1bdb2, 0x4690f33737234133, 0x41543d01d650e831, 0x5ee285acce61810],
    [0x55a0baf9f8c7a67f, 0x9871912bbcde09be, 0xb2389b2e55c939e6, 0x252b8b5dff5e6788],
    [0x9961396b75f7d60a, 0x5372db43467e884f, 0x1f30e9c7333b8f18, 0x5198e4ac3158c2f],
    [0xa3207bb6f083e19a, 0x9e3cf7fe91d24a33, 0xf89bceedefb467b8, 0x245a5fd31eed8204],
    [0x45e0a5ead0910dfc, 0xd8f3e2d54b39e4fb, 0xfe94410a106b281, 0x57bc812c85f0448],
    [0x97dbe12a819e406a, 0xe72109df6efe3114, 0x7281378c2e514c5b, 0x1afeecd7c598ce3f],
    [0xf4b63efd7b5007b8, 0xb9633a271fa8b070, 0x1eac94956464fcdf, 0x2fb8c6d1000b2bf1],
    [0xb7737ed21cafe78e, 0xa3ce53b6a4b38558, 0x4c48dc1f717a0b2a, 0x32899458487c72b],
    [0xe798335ff76e126b, 0xc97d4c4490c6fbc8, 0xb5bdf1aa929332c7, 0x662f06913258baf],
    [0x839c1693af46f3a3, 0x738138d749b5071e, 0xb0ae24f5d342d3ec, 0x1584478d313986e],
    [0xf306a399a7645111, 0x11c012bcdc009087, 0xc4cf07885e8fbc1f, 0x2dba025efcaba3d1],
    [0x28c4fe593fcf06ee, 0xba1c37613ddf84bf, 0x292405a2d44f5b9b, 0x9883180be89d40f],
    [0x820a391a46475dcd, 0xb57e3527588289b4, 0xf392649f65c1eeab, 0x1ba2bca86f0f3a73],
    [0xbf99c53ee8a1ff06, 0xe5880f17e09f3141, 0x6f57042365a46a01, 0x148b95dab3a784e],
    [0xbd3e542987a08628, 0xca3ed55b88bf1eea, 0x13bd1343a34d905f, 0x209b90e92015a18f],
    [0x15272aeadee5307b, 0x8e2d37f1c02af95b, 0x3795735e6cad9a45, 0xb50cbb98c4c1629],
    [0x98eab42357656c01, 0xbebfaae2fd4d5c31, 0xbb8049f59580fc82, 0x28f083282c1dc347],
    [0x6956bc1e3b1ba00c, 0x26187744a879ed79, 0xa69c8a628a627faf, 0x1e3cfa063b3cd467],
    [0x39adde2559592592, 0x23c33995784d2288, 0x9f2a8be7d2fa5832, 0xd064dee824928d3],
    [0x6da1f1b3abac6b39, 0xa432a2cd49fafa1a, 0x5914651b3b3fbb41, 0x22063e51a25b5a04],
    [0xa9b31afa3239e0c5, 0xfdc8eed2dbf45309, 0xe5c72dc18084cdaf, 0xed1ee65d2b2cb52],
    [0x60b1ddf9babe3ec3, 0xb2a1e1a761f55990, 0x6be8efd490907e71, 0x9f1f1407a39539],
    [0xcdb5f2e27e4f6a51, 0xf2fe8ec7404f09de, 0xea8ca00b4ac1dc8c, 0x24e22c3cd40dd01d],
    [0x2c95ac55f827f393, 0xf3062388bc90dcf0, 0x12d9b19a51a34f3a, 0x297d190c65439de9],
    [0x965be6b73f787871, 0xa23f927c42de68c5, 0x6fff8c442d20acce, 0xcbc6af2a728673],
    [0x145ea71108f77b19, 0xe1b3a6ee8cb90f8e, 0x7f3a0979d34ebfc4, 0xbf4731c62850336],
    [0xdbabcfcfafccb99b, 0x167718dd3943a871, 0x2478511a69f0c35f, 0x74ef632df570902],
    [0x8595073f00163f2b, 0x2a6242420918607c, 0xea1524d5c401392a, 0xbf311d6ae97647a],
    [0x3b7c4962ba6b02b6, 0xc9a75a3cc2bb29c7, 0xa198091d288eb25c, 0x2fb17a27e5d93c8f],
    [0x55897fcd3f13dff5, 0xc3fe5b52b8a9eb5f, 0x349adc4e3c5e9141, 0x17eeb974a4bb33ec],
    [0x1083f8ef0e2a19ac, 0x4486711f92188ee4, 0xbaf5a849aa93deda, 0x16c75dafa94b13f4],
    [0xf2212139d7e6a83b, 0x39ce2a35d85eee2, 0x28109ade01566f47, 0x122da8189ad70e3c],
    [0xd15f863299bbac2e, 0x9f372f9ef5175fa8, 0x53272aaf203d5490, 0x260972f4d1166f0a],
    [0x28092946834ec18d, 0x314b775252379d4a, 0x4617cb1a6a99b9ea, 0xaddc83c8f239eb],
    [0xc8b61968341c74ff, 0xc35d9ae719993e1, 0xb1e1c7df83582483, 0xcdfe4ff760184a4],
    [0x560fb1ec2ec4093b, 0xf1edd1c47defc42d, 0xc2b325853d8374f2, 0x6cb7b1d7ee8b715],
    [0x6c0e68415b42cf64, 0x26915cfbbaf235, 0x18a8b999fcfa64bd, 0x8d48ac917970f63],
    [0xe32d4f49b020f19d, 0x342004e24db642dd, 0x324ec4f5cd1423fb, 0x20f5eca934a922f2],
    [0x3540c857a2e6e7f3, 0x290079b81f1ee7b, 0x5b0b0326f9775d3c, 0x2926c1107b74752a],
    [0x80152ab05659aa3e, 0xaa04526e17a359e3, 0xfe41e7ba8a9dcfa0, 0x2ad7b40da5583cbf],
    [0x6bd96ec3d75d16e1, 0xaac6658f392eefec, 0xe6a57db77c420cd2, 0x157176042c8c3678],
    [0x38d9ae05b337e4e3, 0xf328c635900db4f7, 0xce868be699f58d8, 0xd6e65707b940bb4],
    [0x7a4f2978033d3e61, 0x8995ff16b7cd198a, 0x5d3c3f8f7a5fc0fa, 0xd794b0f79636292],
    [0x39adde2559592592, 0x23c33995784d2288, 0x9f2a8be7d2fa5832, 0xd064dee824928d3],
    [0x80c0d1b616351398, 0xe26b38ec47a44e15, 0xca0dc9aab020e141, 0x20a525ca48bf502b],
    [0x6dfa46ff7b6a648b, 0xd90663c9a45ccf87, 0xb4744bd20f6f06, 0x1ee3209633327629],
    [0xa49c1396fd0254b4, 0x48f4dd99ce9689a4, 0xa5f3d6f3c05db35f, 0x22635f8210cb3cd5],
    [0x92c7c5c6d2a93ac, 0x59f274038f60bd46, 0x45fbcc34387c0d6, 0x236867069537dc76],
    [0x3d49b4a7d23efe57, 0xfd415a4767babba4, 0x38ba0c845a569c3c, 0x2949bfabb09d51a4],
];

/// Part 1 of the sparse partial-round rows for width 13, as little-endian limbs.
pub const S_DATA_1: [[u64; 4]; 256] = [
    [0xfb36e49399ff129f, 0x35296a1e1cf6ced2, 0xa6783a1817d0a709, 0x1834d2d0982cc3e0],
    [0x2b9353fba3614759, 0x637e8c35e5f747da, 0xc645ab69ead85df5, 0x42688f81e90f021],
    [0xeb6ed545e02a3e67, 0xab11a4d8425a5d85, 0xce377701b0aed081, 0x2cbf3eaf39ad0427],
    [0x6d27842ce253e295, 0x83042a61ba46bc4b, 0x91524337981f0397, 0x28ee79339c579624],
    [0x183dd071b3a8b9f1, 0xe670441a34a35271, 0x2bc225e0e3852a84, 0x2dc6b0d76d332c58],
    [0xaf8896daa2e25220, 0x2d86918bcd972c81, 0x3c494dda02d454c3, 0x7cf8620fb65b276],
    [0x27e76b829c38e15, 0xb3771dd745a1a776, 0xbdb1c2cf07dbccfb, 0x19d3305037fe6d5d],
    [0x13315efc1f5afb43, 0xb080d5ca3b0d866a, 0x325b5455bfc97e65, 0x2e6f19575b0e917c],
    [0x1a828563547a3270, 0x91b7d4fa8a046ed4, 0xe2eeeaceff128e76, 0x1e726c0acd6e169d],
    [0xd0d22806ea461bfa, 0x750e9b88eb737094, 0xd1a95451f6968dd7, 0x2527a428504d8fba],
    [0x85a16ceedf5006de, 0x6af9a5eeeaf821fa, 0xaa962734818b5308, 0x1ee0e151bffcaf72],
    [0xd80c7593339dc1a, 0x36780d3b0df8d13a, 0x3ee26cf14ed13c29, 0x1332d8ea51422564],
    [0x3445fdca1c25e52b, 0xb614430461abbce, 0x7921583ac6081d7c, 0x67440d1b5c5c1e3],
    [0x67d9648e216d72fb, 0x3a76fa177015bbe1, 0x328ba92eb984853, 0x217e15b68bbd0d7],
    [0x2ab6917e2883f001, 0xfb68072f0ecfc39c, 0xe07ae1d8fb025baa, 0x1d5f55517167e8f4],
    [0xcfc474364261e219, 0xaa2a4c602244ca33, 0x73604b5423cf3be2, 0x1ce4318947212931],
    [0xab837776e4a41f36, 0x35cc54fb5d4a2bdc, 0xb6ca8bb7a4abe4c8, 0x1870cdd25b0026ce],
    [0x9181dcc0b821225, 0x285d4e36b24a0dda, 0x718d72ff32d05acd, 0x13b6c4c8a9796559],
    [0x8d75105180cc9c84, 0x35b6d1ff21b54fa8, 0xdf9469890c14f7eb, 0xe59398cb50c995d],
    [0x39adde2559592592, 0x23c33995784d2288, 0x9f2a8be7d2fa5832, 0xd064dee824928d3],
    [0xddf80196fad77864, 0x27cdf4a1cf0c888c, 0x22fa1786a35b3796, 0x2471cdf128c65700],
    [0xd34aaf8acdfbc678, 0x26b26e72d637d482, 0x35d179801e4d1f55, 0x1eddc8c186b59522],
    [0xc670d6a9f3b75f11, 0xb03e252a98d304b5, 0xc2703cb288320c78, 0x41287596ebb654e],
    [0x449c42539836cc84, 0xa9e9fb34e53a1c92, 0x1720ad20633a2e0a, 0x2d27cddd60f27e93],
    [0xc9298a6b03d0c47f, 0x5251633ec2ed40b9, 0xcd4abedb92ea083d, 0x386464e269edd20],
    [0x6c88cb6b13915daa, 0x235e01dc2111c258, 0x54165533e6c22be7, 0x7b28d6f381e7fb0],
    [0x548aa579f04dd532, 0x647f491b251a0e7d, 0xc1ef3a5b222a45a8, 0x25a51836e32d3111],
    [0xb3d7bbccce729e3b, 0xe6eaec35a23b23a5, 0x2735144703cf36b0, 0x4133c14bb36f4f0],
    [0x6c41442065fb590, 0xf7ef9c7e9887840e, 0x63fa5f32beae1188, 0x1a107c44417a85fe],
    [0x16653096035d6e60, 0x56ea044fff31672c, 0x7fd0e9f059bda23e, 0x11963a7f8f62abe8],
    [0xe844f9a9db14df1d, 0xa6297764540daf35, 0xf115521332a5480e, 0x63942281da7187c],
    [0x197335bab60e6313, 0x893f3f8f704345fd, 0xdb8c55416291a0f2, 0x28323184f7d03f5f],
    [0xd1cd972a00f328b5, 0xf8beef4006bdd196, 0x7e0e1f3d22cde05, 0x1d5ee3c314bccd05],
    [0x7075fba70259055f, 0x56aee949507c50da, 0x7cb3436a06bcba13, 0xe3e7e1bf7755128],
    [0x55349ca1b954a8d, 0xc2e5a06452a7e9b1, 0xc653e6731b73fcf8, 0xbdb1ba75288ad45],
    [0xf2e7354890487b3c, 0xc09dae316bdaad22, 0xd299b4f7d24ac36f, 0x163efbc5313a19df],
    [0xe5aa481cdf35dcf0, 0x87ba723a4a252e1f, 0x38b87caeac436931, 0x655a2ee9811be41],
    [0x5fda493e703ded14, 0x3da62e3d6aed9c71, 0x703fd26fdbfd99f8, 0x221ab7029ca41cb3],
    [0x812af31a9bc97556, 0xa816abeb8af48e77, 0x5ae693ef77be2fd5, 0x17e06a11e4766ab9],
    [0x32e97808db658a79, 0xd271b05d3465e216, 0x7553fe52dae87841, 0x24fd79ff869a8000],
    [0x50e3e538c6d6a2e4, 0xf5133c52311e8a92, 0x156c0a2d36e7d717, 0x2937964cb5feff56],
    [0x5e6eb6f950eb2fb, 0xbfb9461db00c87b8, 0xf0b8b72e014a3532, 0x115b54ca59723ddc],
    [0x5f2e42125d1522e4, 0xdf4f0a9442044925, 0x9fe67c59e1c6682, 0xb83ba59544995c1],
    [0xd6593ce72c8caa75, 0xd213f1e60c841539, 0x563a58f67fbe8490, 0x856ce0b9c472642],
    [0x39adde2559592592, 0x23c33995784d2288, 0x9f2a8be7d2fa5832, 0xd064dee824928d3],
    [0xa24a6977cf4de312, 0xa2e8baa0699f9309, 0x8add8919dc2786c2, 0x1234cde55f1ce07e],
    [0x8f4ca48b866fe708, 0xbc660853c39c07f0, 0xf80cdfbc5ae5a7e5, 0x2728518406453c21],
    [0xd397e090bb406681, 0x2107545775a707e5, 0x879af7059e9eee6c, 0x263c6e870681a568],
    [0xacc9e7c3a1b31108, 0xa02155d239a7525a, 0xca26b01c95b2eabd, 0x264b910c5d9c7677],
    [0xc994dfc07cf7cde2, 0x788ab08826db99cf, 0xecc625c95caf99c1, 0x3626d5425f196e0],
    [0xfe5e154882885b20, 0x8490408488d4c1c7, 0xef5acd76eba63578, 0x285b7fc8640c5644],
    [0xf866d001457a7e47, 0xb9329bc91b841651, 0xd6269442a1ac7f06, 0x806dfed34a9e837],
    [0x31d3d1e66f4f4185, 0x935fc95c0b43b2bc, 0x8bc2987ac700a167, 0x17d501d18a443c45],
    [0xd2974ed75a8446c1, 0xfe572437cfbb23c0, 0x5f896d29b8d25558, 0x1c265144d850ae94],
    [0x6de3799d79331a5b, 0x5ef9e72913db57a9, 0x486728b85b73fd5, 0x2d349fcab317e2f1],
    [0x9278599baedbe8d6, 0xa7f57dd663e313bd, 0x8eccbf3e7b5d6c93, 0xe3b16089c86c751],
    [0x551dae5a204363ba, 0x2323e9ccb19c73ca, 0x239ac6fc9576f966, 0x16842185b0a19379],
    [0xe136947b7774d185, 0xa5944dc203e6716e, 0x8cf83b9b4aa7f77c, 0xafddf6a0ff562cf],
    [0x34ca249f48056aee, 0xbd9b0a71b6074240, 0x2267b66a6a183c58, 0x1a7b9bf02113552d],
    [0x34728f3a33dc8f61, 0x345855fb04e0e7aa, 0xd186044eb865b53c, 0x1b292db8eb2df955],
    [0x524595f6646fb9ac, 0x8c029056733c2b15, 0x597827e1ff6b873b, 0x1166bc2548e4dd1a],
    [0xd505379347a4b32f, 0x68164240ca0fcec4, 0x950ca3297ad2eff6, 0x27ef791b1fb45f73],
    [0xbded642875aa8d8c, 0x33c2b5b329ff01b0, 0xbe23f4e8d2e89323, 0x94e36712d3e0387],
    [0x84523a86f4452caa, 0x7b1277ec1e8cf856, 0x2baca4021012b410, 0xc3cb8c9451dc65e],
    [0xd2ad6c43dba22557, 0x3d04fd4f649280be, 0xa5340f2dc58657da, 0xc16066d636413db],
    [0x2b5169e0a6f37b16, 0x12531bacac05e114, 0x833e6dc507333265, 0x26f53db3a19fbbae],
    [0xce39a21b3da565de, 0xe92eba58355437ec, 0xdd649243c3b77515, 0x17bfb665418fec0d],
    [0x70b7c40400d8e004, 0x2cb244d2f101e4a8, 0x51a9657918e2bacc, 0x21ed66971a5e0e14],
    [0x80b1d2cc9296a0a0, 0x301d409bd2ede083, 0x344054b130f91cc, 0x2fc72d372345e9a2],
    [0x39adde2559592592, 0x23c33995784d2288, 0x9f2a8be7d2fa5832, 0xd064dee824928d3],
    [0xfad1b4927bcfdf7f, 0x829ab3f1ad36cde7, 0xd54f5372755d36c9, 0x242b4eadff11c6d3],
    [0x59a677ee823b3474, 0x8e40d319b2774da8, 0x34147ec300edcf4d, 0x85e6d5205bc5176],
    [0xb58047570931c9a8, 0x352f716ced9a8541, 0xf6cc0b9d269080a8, 0xd7857f8c2ef1d3],
    [0x3815ecc975c6b1da, 0x7e4ef8bbfd3c3a75, 0xc11720fdb6bca9a3, 0xb8a79f4d635ec38],
    [0x6faa89733c57534d, 0x2778ef1e6dd93b76, 0xf6924d8ccc3aead, 0x2d581f4dd4f7a487],
    [0xc312d10597d4473e, 0x664088042b012c62, 0x384406faabac1204, 0x26a82a89ac34602],
    [0x988bb0c5dd3cbb1a, 0xb28898019661e84f, 0xa8eae1085b57836d, 0x119c9ce0168defee],
    [0x8a9cc4baaa67e144, 0xa28d2ae331e53e89, 0x57128d92ee2b8ae3, 0x1fdc49eac128a240],
    [0xaf668ebaf9624d7c, 0x214f53697c447a06, 0x68fe844a1e288175, 0xe63791edc085e7e],
    [0xcc1c8c67021b6cd0, 0x22c7a051beefe38b, 0x572e434cd1e8f29a, 0x8e8a95d72c8b0f5],
    [0x3d041e8a04ee959e, 0x914d6b6225eee54f, 0x52581c0ac0582068, 0x150bfbe651cb1294],
    [0xa1120b6f6aa84fe4, 0x562eb71233399c51, 0xe73228557f41e28d, 0x1f67b188cbddc9df],
    [0x677f1b692e74dedb, 0x89d02876861ccafd, 0x129a13059883d56b, 0x3a94eec3b3b00da],
    [0x1229d9e65e29305a, 0xaf26422b0fc31484, 0x4739308e90e2039c, 0x8a03a992c391bed],
    [0x7681a9a67787afd5, 0xe79c4cf2a3c0ce2c, 0xeab8876005534376, 0xf5db68b751ab629],
    [0xc27eb02938999dc7, 0x8ff1469cfad92b71, 0x4611f6def094e692, 0x14c1cf9ee31fc11c],
    [0x82278e4b6a43207e, 0x7b75136669b58b05, 0x8523ca6c5878db71, 0x1c8430170e0d27fc],
    [0xf73fd18c4e266b50, 0xc8a422309ca8fdf3, 0x1e239af122c392f2, 0x2eaabbe95b7e6d4],
    [0x96195cdd8dcfd78d, 0x7b664a8e01bf96a0, 0x6497f9a85fa07e33, 0x28b85f746bc03b1a],
    [0xeb736310a57194a4, 0xb257d6481ecee44e, 0xd45f8fdc01e0697d, 0x2eea090dddfab6d9],
    [0x85d02989048c6723, 0x1761ce88a12a1bd1, 0xa48b3527a1b792f3, 0x29461ccf449b9fe3],
    [0x4940fe55f6b44f6a, 0x238bda29e3578e75, 0xc7ff60c922a6a37d, 0x2d1eba58a7196aee],
    [0xf07cd401e3df9864, 0x48ce729fc37fb3bd, 0x54dd45ab1136e55b, 0x1d84885234800354],
    [0xf58ada6cdd49b292, 0x6cd137c740b77d3d, 0xd343513cf038cc54, 0x169904bf4f7348cc],
    [0x39adde2559592592, 0x23c33995784d2288, 0x9f2a8be7d2fa5832, 0xd064dee824928d3],
    [0x6d24554e62efd737, 0x7325be034cbc2c2e, 0xdfa1b4f67a73108c, 0xfaa555c1adf771e],
    [0x8f95be742293b7e2, 0x246fb7550aa505df, 0x19bb3701ae021b7b, 0x1a4ceaae57de9dbb],
    [0x965302696e185ae8, 0xeda8004739851057, 0x75da8ce62f6763cb, 0x22d8eb68a906dcad],
    [0xed0dc25d3f7c4f8c, 0x389c398441bdd294, 0xaf7de17be9adb759, 0xcfc82aa08b2bf7f],
    [0x103a5135335f83dc, 0x45b8d51fbc6981a, 0x606ef2920c63455, 0x216a462577d23119],
    [0x838771eb1ec766ed, 0x11194b36c1247e22, 0x281493e16b0bfe6d, 0xe63715ac0c89614],
    [0xe1a971c8d2405265, 0x87354afa2db7df3b, 0xf8b5874bc7c34994, 0xd024106eade54b9],
    [0x9dad0668f0517158, 0xae33104fb3e1f9e8, 0x2e294312a5e34121, 0x11daebdd919b562],
    [0xcdd5623e7b24eb6f, 0x5962225738d6c8ed, 0xea0f75fe1e38ee5e, 0x274a0198961e0c98],
    [0x78497d1da2593b58, 0x8c2007fbf09beadc, 0x17bce7dbb0e439d2, 0x136d49834864e429],
    [0x189294828e2a9076, 0x6c5b56ea3d2d0698, 0x319ae1bab91e4225, 0x18daff02be933186],
    [0xf80fce40f0c175f8, 0x86fa565155da2145, 0xd6b28d0a13874e85, 0x13fbadf8255db09a],
    [0xdcfd89473b5c1e71, 0x2a2e1ef7ef0f35fd, 0x74ebb64a8b949d03, 0x75a76152cb77f3a],
    [0xe78e2cca6a327495, 0xc391befa15c4497e, 0xfd739a8c1ec1a1d2, 0x1d1a9d3eff8079f2],
    [0x4e75a9ed06206bb3, 0x9ae3c66a7de1714c, 0x6d7a5c3524f2805c, 0x29132a7d6dc081cc],
    [0x79801818a2b3b9a, 0x6995e2565223add3, 0x506f14d2cb839adb, 0xc1457b4dc6efd6f],
    [0x33bc2a6738be404e, 0x287832eb4860d0e3, 0x2f8e84f977161005, 0x66406956a8af95c],
    [0xdf234736a8168895, 0x72b0cc10cc89ba56, 0xea5fef305d800569, 0x2be8ce6965272c3],
    [0x80ceed051578bb65, 0x6db0bfc77db799e6, 0xe5992e2bf99aa740, 0xc624c5b84f86974],
    [0xa002253ff808aab5, 0xc7136880ef39f02a, 0xd44a3f77be12b8c0, 0x1c9fc7b076255b1d],
    [0x74c8c2cf62ba9c2c, 0x5beac9b982b74051, 0xec89e671965ba4ef, 0x1ed5752920052d66],
    [0xfa4318be074997d1, 0x86ac19f81016b01f, 0x90a16813583dbcb2, 0x11a79d9e71816d2f],
    [0x7fa8410327c29ef9, 0x73f58f806ad73cec, 0x4adae2661a4988c7, 0x2332f2f0231e1a5f],
    [0xd1ebbcd08281e1e0, 0xf9709bae71ec397, 0x8700053b6d0b4d13, 0x92041cd3c1f24dc],
    [0x39adde2559592592, 0x23c33995784d2288, 0x9f2a8be7d2fa5832, 0xd064dee824928d3],
    [0x9c5cf5a94832d9af, 0xe8866dd1c8c2ed20, 0x6b14119bbf85cda4, 0x23402a04a12ab377],
    [0x5cf38f7231d80528, 0x70afad0229fdad5c, 0x8e0310bb8a7fe02b, 0x21f6d7c6cc075086],
    [0x303da965dd994672, 0x7580e985d926dc48, 0x61ad5ac646b4f1, 0xaa11c91a5f547de],
    [0xe0458abd1c787cfa, 0x8a045f02c7f0a662, 0x1f7040d7d707fd4d, 0x2542d51f269de54],
    [0x56e63e3d49092542, 0xd123a0af9eddd5e3, 0x3dc9cfd523f4abb4, 0xe9367b46e6b8936],
    [0x7f5d98ea20609007, 0x9c75eeb7af22fe0b, 0x5bdd9c576c745870, 0x13d2aae41f6b1c1b],
    [0x897e485fcda9dad2, 0x7970afb38c1823fe, 0xdd458384dd5e0cee, 0x19a2b2dc5988a9ff],
    [0x32c312b8aab15a1b, 0xf7966deefcdbc674, 0xe7be38105e717382, 0x8dddcf32490be94],
    [0xdd16ec9bcced261d, 0x493565c376202982, 0xd2178fbd85b93ccc, 0x1a30ac3889e0467a],
    [0x48132b4df5f362e1, 0x21425b245bb5cdfd, 0x5728e76adba044e8, 0x2dd2470d7ca5e69e],
    [0x2aad99f8723f0ac0, 0xee31e4b14f0e3720, 0x3f51050d3d210162, 0x104563d762464be1],
    [0xea38170b9d058b38, 0x846fc5f470a7c2b6, 0x4d5f220628cd64c2, 0x121b7e910a0ccb4e],
    [0x681b90fcb8e76c11, 0x40bc396589289388, 0x54ff1b9684ff935, 0x2fd423fe5d1899fe],
    [0xf1c9d4a6c8226a62, 0x9bbd4eb800b20acd, 0xfa4c4090d00861d9, 0x298f732a1a912702],
    [0x7ed7bd8f04269daa, 0x9fe5015c911705cf, 0x94727014eb88ada9, 0x26f56ce61eaed102],
    [0x18822ba972a50c96, 0xf3b8028f2d65ef3e, 0xc7c08420d1a887d3, 0xc316eb74780def4],
    [0x90444c8d8ecbb108, 0x3976e7355bd3aba, 0x8e82c2ba7a85213d, 0x1db5c65a2d669c92],
    [0x653f06f1cd7ce55e, 0x8f7c597faefd0087, 0x4e42cf5ed294e1a1, 0x29fbe3f0b5d6936f],
    [0x69df63d064254274, 0x1b4edb9027241386, 0x50324177d895cff1, 0x133f5377394de766],
    [0x65263055551d19cb, 0xa93481ec520b86ff, 0xeb15171a84030e43, 0x1762e6a990654a18],
    [0x12696e1b7b9caf0e, 0xcef42966e1c98c9d, 0x4b9ba34ac9cb872c, 0x2bac62e64e374a49],
    [0x67add1ca1edbbf74, 0x8f8dd9a5b59e0d45, 0x1e410a353b6e9ed4, 0x1dc2f5d192b06546],
    [0x4482e5529b9c08fc, 0xb8811842c8040f58, 0xdc63eb82fa3b44fe, 0x1e78930fbea45070],
    [0x94e2860e1b91a45d, 0xdcb7bc08bef6bc03, 0x5e88f82b6d4b395, 0x1161dd83445bc4ac],
    [0x39adde2559592592, 0x23c33995784d2288, 0x9f2a8be7d2fa5832, 0xd064dee824928d3],
    [0x8a13d9f2f9e03d70, 0xf718102642636ea9, 0x9033aa5de5bb8498, 0x2d84302b2f1ce36],
    [0x4c3e9f9e29ce5808, 0x651a387b0a50aabe, 0x927078f0d0d2a9e1, 0x3aa0b6d1722c2e],
    [0xd36922e1ec2fe713, 0xae1557a0d7a737eb, 0x439abf21fa5b9007, 0x1851a25520c47c40],
    [0xa988e4caf6e75767, 0x8b2a6bbfcf63863e, 0x65a3d9780b1c502a, 0xc88238b7bc582be],
    [0xe527e917c942c5e3, 0x42c5506161b7fa87, 0x63b7a7f849c8d8cb, 0x1231dfe4ea1c60c2],
    [0x4e42ef4a1a9d8ffd, 0x236245dd4b8642c6, 0x8c0f184ca8057bfe, 0x2ea0849f20d6ff25],
    [0xd2fb96d3db62f7b6, 0x464f2c0444acb90, 0x1c599eeca0abf93, 0x1ba62148f57f4201],
    [0xf2139a6ee79bcbda, 0x78d1a5a67436c1f3, 0xbc69b92e00cea132, 0x21f4a3066fad0b05],
    [0xc6e8dc3352798b79, 0x58b173ac8b3c7483, 0x4d234372f2675810, 0x1be4c6e03d280785],
    [0xc60af3c0fba6cc06, 0x60d1ab30cca21b0f, 0x3cf75d2234f1014f, 0x369cf9d45a1563],
    [0xee21e173dc9c982a, 0xe6e6a986726cb005, 0xf4db7457a27df54, 0x251ba00e6136bd99],
    [0xabadac718f5357e1, 0xd70d3137c43ab354, 0x9fc7dc5b210ce805, 0x290465aa219c5f3],
    [0xad500003b2c1a0e, 0x3492aa9264e39abd, 0x121e16ac43ba352e, 0x72153d3d9304bcb],
    [0x3b592208c192cc2d, 0xd70151ab47b6312a, 0x29c7c5171a54a9e7, 0x9ef6ef37f5f7032],
    [0x8c35b63979d9fd82, 0x2e753b5048595390, 0x36bfd9801372251c, 0x1041b9436273bece],
    [0x631654ca03e11f22, 0x5e913285cb5678ad, 0x568a55b8fe35f02e, 0x26afe74d2bbaa76d],
    [0xd76facbcf387efb2, 0x23aa3f7390c39c08, 0xd53250d7be11791, 0xab136a0298a4bbe],
    [0xd2845a4ed924a360, 0x988f36af48ac6097, 0x853b1e34064bf3bb, 0x2154df61438fa728],
    [0x62293c1fae3c7057, 0x147e0e6d33dd5e0c, 0xf3690ca2259447a7, 0x59b12d8356358cd],
    [0x2c6706193e25c783, 0xcd2b194d697f78eb, 0x3ebd020f7aefb2df, 0x1a01646ed40505df],
    [0x745b1a2c007fc4a1, 0xa0612618d5377ba4, 0xfced456747507b55, 0x27080e00f575ea9d],
    [0xf72ece1ffe09b1f7, 0xc23ba980f8f1fe48, 0x978032243b55ffa3, 0x3b12781eea743ad],
    [0xe5ac7d93a437c85b, 0x892b1802d061fbe3, 0xc3bea9acf7308733, 0x10ac2c9f77fcd414],
    [0xfe0a0516d5814623, 0xade050bb08aa1eaa, 0xa176c285f7e674e4, 0xea74b2639185bda],
    [0x39adde2559592592, 0x23c33995784d2288, 0x9f2a8be7d2fa5832, 0xd064dee824928d3],
    [0x7e6fa8ecf7e5e9c1, 0xd1a5a001f4163dec, 0xfc37f8c7be01e1e6, 0x42b91f98007bfad],
    [0x323a1f55693f09d5, 0x3ce4523b695c34e9, 0x24b603ca65fa4eb2, 0x4f0196b4cc4a2fd],
    [0xcba2f34a61bb824f, 0x4246a670ede772de, 0xf88c27b6bccc4020, 0x20687749f9cbe6ae],
    [0xb8b7bc3e1b8a4b43, 0x8b1d8243ad4bb814, 0x78d0fdc4b3567967, 0x2f9039a4b8b4ab22],
    [0xa9881e816fe240f5, 0x50aa5d88775cdca0, 0xccc26888a094e357, 0x6012407ccdb4f5a],
    [0xaff08765476d823d, 0xbf55109e8fcff58c, 0xec8463053e159925, 0xe35046c49cc56a7],
    [0x45793094333b700f, 0x473f99bf7224acc5, 0x240f3feec78c6578, 0xad83c2a587b98cb],
    [0x609d3652e495fcaf, 0xaa67e1ba0ec64e03, 0xd642ef47c6731761, 0xbda24254733d7bc],
    [0x3c165e90c0ea75cf, 0xb052e48806bc1251, 0xf51f6ac53200bd56, 0x1eb04acee8c325fa],
    [0x9dcce7692efd6376, 0x249bd29e7f642252, 0xaea3e3df5a038ef8, 0x25f00927a77b2fc8],
    [0x57127d6a41b6387a, 0xad4253e352907c19, 0xdacfe436fcc67766, 0x86ff48a930b5807],
    [0x714f89446a42f265, 0x72c8165bce3c68b3, 0x91235ce90ef06cf9, 0x22d31103b21aa0b7],
    [0x3b645a8f4369dc8f, 0x1f26a92c3336c7de, 0x7330ebda744e2c3e, 0x21f10bef68e2b843],
    [0xe3a960bb31a71951, 0xf030fbccaeea386c, 0xacbee3a110baba8a, 0x2e3ed873b0f6ff7f],
    [0xcc2dd25a9ae58dae, 0xe9864d3f6d30e4c0, 0xbedabaca6ad75277, 0x16d86751cd45d37],
    [0xf8cc3dee87e3314f, 0xd4ef9639843fe308, 0x5b59387aa484960e, 0x3d059764e5aac68],
    [0xd14b0851ab8bb573, 0x8a0a5f0aa23451e6, 0x8e545995d2b3d53f, 0x63f962a68390a81],
    [0x9440e30c27c9b931, 0xa4efd46b0b90f7ca, 0x3861ed05f30146f9, 0x2d7df484595413f8],
    [0x12249dae3cb12132, 0xae63f5a8928e136e, 0x74e405c86aa2a1b7, 0x5d966e25cf9cee9],
    [0x4e01a11fc1e013c1, 0x288a5ef23da1bc26, 0xe0818bf6f60a068, 0x16bda6eb44145f87],
    [0x226d18bd5e18b381, 0xf1c97cbe98074ccc, 0x5cf720b680501f7f, 0x287f1bc804ef5137],
    [0xb5f1ba7a6ad5822d, 0x8e3bf45f2d637ae7, 0x562b991a2790a5b4, 0x27b1edf001e3a0a8],
    [0xf690abbedf70d506, 0x5228b24a28c70c5, 0xd09b16d82e458eb3, 0x74ee1772d860b6a],
    [0x1ac0895ebdaba6b5, 0x7d79729a0f9d6b11, 0xf3b2c6a75ddf98e7, 0x218ef3d8be2c4ceb],
    [0x39adde2559592592, 0x23c33995784d2288, 0x9f2a8be7d2fa5832, 0xd064dee824928d3],
    [0x6224d2daba241788, 0x55c92f34a51e0d6d, 0xd00ba26b10b65c1f, 0x2e130f21aa3bc952],
    [0xb0fc71efc2f76468, 0xc41deb040573adb8, 0xc7164733400ef142, 0x1e6f16db6a97a384],
    [0x963dc07fdd7612f2, 0x8334bcb00614dfce, 0x519dd2335e559ebf, 0xda66242a6a2e27b],
    [0x2ec89962e1a59b5e, 0x9df34c273ffb66a5, 0x6d4008cfdebd4b57, 0x201d2a470fdb240a],
    [0x937c1510775b0e9e, 0x603caff2d2168f5f, 0x83756ed5d5ca38ef, 0x4d1c70932221e39],
    [0xee2d837ee857fc6e, 0x53e9c57d8627c2ca, 0x2375f5e21c4daf38, 0x2a43db76fb42a08],
    [0x8bc33751e999918a, 0x48d99af72f72c3f3, 0x5d65535a6d121a96, 0x188d71e846b0e63c],
    [0xc95b474d2c07d241, 0x7f7079a150a3b7fb, 0x346b92567ca15a4b, 0x1cb4d77c20517ccf],
    [0xbff8815ac4216810, 0xa312e5c098ea17bd, 0x4c6c2949559b851c, 0x2de6abda39257825],
    [0x37691c3689635adb, 0x4025715f5ddc8d62, 0x42940e30d9bde290, 0x97bac96307e8ecd],
    [0x9d510a2c2d01e537, 0x95fc1df010d90685, 0xf156a1c1863d497c, 0x11ef6e021d4e1b51],
    [0xbde08da9b1ba57fa, 0x41481dc85e94cdc4, 0x2ea62cb01379d940, 0x54ed7f2b2e4cfea],
    [0xde064d5cb2a35738, 0x87ce3eb966b7d45c, 0x41236bf212835888, 0x16d8390b0ba31741],
    [0x54ccbcb1392ee0ae, 0x1e33eb823b577e43, 0x9bc2ff73424df485, 0x2db8640099fae4b2],
    [0x9a28bce898edf98a, 0xa6f3a664325a88e, 0x58acbe6126a092ec, 0x1de2025f4beb8b5b],
    [0x81e95370590b5788, 0x2af41cf964d34be1, 0x308095092224f556, 0x21a514a8d477d92a],
    [0xd52b0b6401aa5b55, 0x2ec8fa2e46f97422, 0x6e464e6cbfc8c971, 0x140ce2c9605e3157],
    [0xa12e439e185dceae, 0x9f47e77e53e833e4, 0x5f74da13f3e0d090, 0x20313b2273dbcf22],
    [0x791116621f2869aa, 0xf171608c126c7db4, 0xc062163d973ecdb0, 0xb8251930e6623b8],
    [0xbed175bb0db0714c, 0x7ba39e4c7180462d, 0x172884b37d6242f0, 0xd0b3893c4f70d16],
    [0x7871e3193cda0bbd, 0x1580ecf06449a9fe, 0x82932069a99420c3, 0x26917b241a123901],
    [0xc2d82b50d9970e4a, 0x2e7094d7d9fbc02d, 0x942990e43de2abcd, 0x179bba9ed0bc1ad6],
    [0xf3bf4bf1dc7fae58, 0xc044f11ffa1598f2, 0x7d59d0c17c369efd, 0x2184a1b9adea4975],
    [0xe1706e953de20273, 0x219c6474bc5d415b, 0xa9d53827c7766989, 0x65a085cec70ed53],
    [0x39adde2559592592, 0x23c33995784d2288, 0x9f2a8be7d2fa5832, 0xd064dee824928d3],
    [0xc9914c3bedcae90a, 0xed28d2feda5d6ac4, 0x79d9a190f2e5f1dd, 0x13ec63dd902be701],
    [0xcc668ab86c877eea, 0x2919554cf4faab4b, 0xc83b28588f5b0f46, 0x272d4b6c21e2f7d2],
    [0x3d7a5554cc39aac7, 0x63b6c774de743e4d, 0x52c41c4e832287b9, 0x12e29b20a5157f11],
    [0xa24e51da861c1153, 0xed3130cdceb68bc5, 0x30aa6968c6ff3d7b, 0x2c73520466905c92],
    [0x6039504fa2b2b280, 0x22e2d4a4f519efed, 0xa2c247e2349d2e2e, 0xb370f950332b70c],
    [0xc999dd858f0df678, 0x7bc4df78d13969fa, 0xed3b7e53fde4e4d, 0x1c58bd926fa20dfa],
    [0xecbd83bab569b66a, 0xbcdecc9d6cd3ec46, 0x264983ab61a7bad3, 0x9d50596628e021f],
    [0xfb62f4a459bb7d74, 0x1f0a70fd70b5ec02, 0xf35aa78dc84ad357, 0xad3dd8c790db77d],
    [0xb8fd77c3831584db, 0xf4632bbbd3a6c0c7, 0x22b33a918364a375, 0x154ec11de0ba0226],
    [0x4c3990b7ac08c7cf, 0xa424226bf0eeacbf, 0x125df6fca693c198, 0x2bedf29086a4a80d],
    [0x8d277f2728c37e6, 0x724b55d28665ff39, 0x91c9fb397701c62d, 0x204ba94b0e1a5923],
    [0x9907426567d759ce, 0x62a2da42a317f0a, 0x976b32953adea3cf, 0x1191741fc0fcbdf5],
    [0x9799ff9aebc15bce, 0x60ab98640e98233a, 0x70189049a362f269, 0x8453abba1a812cd],
    [0x96cb5352ef391f08, 0xcc7a62bc4317fe59, 0x3fc320e5c9c3d60, 0x2faa16a34bc765b8],
    [0x2ea797f3af9d840e, 0x269b4662a27d153b, 0x7e3dd58f411b86f1, 0x1073a4c13414e4f4],
    [0xb45831132296dff8, 0x3da122dbc9d31890, 0xecca0be0018f95f3, 0x20827cf24daa915d],
    [0x5c363cf60da9c2b5, 0xec186f79ac12d415, 0x372671039b63894, 0xc184be1457cd3f3],
    [0x10b5e93ef30b4f19, 0xd418a7ec475f36a3, 0x4fa645846b83aa46, 0x1d1037585c8c002e],
    [0x208cee6cd2a7a733, 0xce5654d217fa8933, 0xed5c8915cc913e23, 0x1bfbe62e3714574b],
    [0x80277a05e36d6900, 0xaa83ec32fc9a21fd, 0x7abfcbfb80e479a5, 0x9ac8a47968e147d],
    [0x7d3ba1d79b1cc17d, 0xcb628f4c90f329c2, 0x74bac39a9280285, 0x6673e8c09274a6b],
    [0xb6a5bfb006a14c70, 0x602d52e7abb7734c, 0x2deffa4a24f4e1d5, 0x2a513229a77a3686],
    [0x3fc08f832aa17dc2, 0x9867ea17103a19c1, 0x46169b3e24fb2d0a, 0x7aa8c2df4a2083e],
    [0x1d8135a365168163, 0x64c87db0aa244f06, 0xe1681497cea1b030, 0x212c78bf0b03c88f],
    [0x39adde2559592592, 0x23c33995784d2288, 0x9f2a8be7d2fa5832, 0xd064dee824928d3],
    [0x51854954a6af915a, 0x9da04685e04a51bf, 0x250fc75c6745432, 0x3a58dde40365d7a],
    [0xd5d33de59a31a0e1, 0xdcac213e37c3443, 0xab4d459e8be1c4c, 0x70e75afdcb3d800],
    [0xa4fc3a7d4d6f17dc, 0xb29e69c290c6c67a, 0xec21bc7e5b37dbe2, 0x1dc99b8142e7cc81],
    [0xc1a34126d2c648aa, 0xeaa28e9ab85df1d2, 0xec2ebc6a27f6d3aa, 0x2f160a3625bcdb7e],
    [0xd71b58a0f0804a67, 0xf7917203bd3e1ad0, 0xe562823d0e2f059c, 0x1ae4132fe8261caf],
    [0x6851b7b2358809fd, 0x676401239370ad52, 0xcb80955ecb60b72e, 0x24d5f4bd7441dd4c],
    [0xeb18aa4e7cb761e9, 0x6c090b6c4f3599c6, 0xd2e7f654ae6c0721, 0x494f46648ee996e],
    [0x71bf51ce6600ab1d, 0xad260df4189e76f, 0x2d662532a7ecbae9, 0xf5f67afb9c5934a],
    [0x49c2a115e1a0152a, 0x4baa5aa1f7cc6625, 0x9fae22bac540071d, 0x135cd20c46aa1a42],
    [0x598b05548d1f93c8, 0xe290fd02ff1a15ca, 0xbd1247e2da3a65df, 0x10b14b45ef38b4d3],
    [0xa26a420f898c166c, 0x50c3da6d950f0c17, 0x1f1738c8067d26e2, 0x22bfb1953a1022f2],
];

/// Part 2 of the sparse partial-round rows for width 13, as little-endian limbs.
pub const S_DATA_2: [[u64; 4]; 256] = [
    [0xffacca1ec9dc4b72, 0x26e0e040d152910b, 0x71c4b909e8c42dc4, 0x22dd1a3efcada963],
    [0xc90dd3e6fa157173, 0x77b2ebc45909255d, 0x57e69782bd7c0db4, 0x2ec9e354b5f74150],
    [0x18c9c89887a7ca06, 0x8e582e542748d9f, 0xe598c6dc34fdaf9c, 0x1d176d1f403b4a44],
    [0xcc61caf6dc9ca16, 0x15e505e3212fbb23, 0xd215d39c30bc61d0, 0x57d65c1955ac40e],
    [0x9c978de8dadb9220, 0x200bbfe9f6135997, 0x17e0038e8fa48c9c, 0xc16cadb31917731],
    [0xf08ee11fb331521d, 0xc0b3621228cfc75e, 0xd2cd53dbd85eef57, 0x228354c24667b494],
    [0x5e1d205e97de99a7, 0xc0e19ec3ad1d548b, 0x9d994fc7cf27d09e, 0x11dae093fb04008a],
    [0x193f456c237f95d3, 0xf732bd816b6c77e2, 0x6a87358c6acd6757, 0x1e24d8a3371d286d],
    [0xb2bf2a26627d076d, 0x5ac3659eb5a13978, 0x1bf2b2c6082e5fad, 0x14f5fa9946031248],
    [0xc01d5ea57bf5e449, 0x7a5d20aa8ca57917, 0xa3ebdef354bfba6a, 0x274f78864eacb329],
    [0x9bf5323cc13ddc8a, 0x424ee99cdedf0d93, 0x466c9f2f8ed512af, 0x1aef2197b2a3930a],
    [0x7feda4af532a422e, 0x687e6c966d288b3b, 0xe123f9106ba3342a, 0x241e5e13407be4e0],
    [0x2c30aebf0ea6d522, 0x825df1ed64d760a6, 0x83ee3129dbde2435, 0x7914b11b3cb9372],
    [0x39adde2559592592, 0x23c33995784d2288, 0x9f2a8be7d2fa5832, 0xd064dee824928d3],
    [0xc51b2cb05886b4ae, 0xe3289ad350ffe9dc, 0x12f48afffe7527ad, 0x2ef64fd1945065ca],
    [0x832a6c81801e82eb, 0x5151b3de2615bb2b, 0x97c187e30a5dacd7, 0x1e903fd8974ca0ef],
    [0xa1d5d4bcfe47ef85, 0xefa0755507284665, 0x1f9a3c33f59da812, 0x20ecf1440148c2b3],
    [0x74000079b106366c, 0xbac37b453bd1ddd1, 0x7e9de409a19386ab, 0x15e956ab5a1c5a35],
    [0x7c81e70c7bb8f7be, 0xbcfa0cdab9d1da88, 0x1d0894264777d660, 0xde22a61fd660744],
    [0xb8c5356cb5f20e76, 0x8a330266a62fba53, 0x5905ec2bfb7e9b0c, 0x14a1ab44de854618],
    [0x2ae17394b9c64ffb, 0x1a2af9e9b3760eb4, 0x2db5e13937a3bbd6, 0x1427c18b34b9b196],
    [0xa985abba4e9c0b74, 0x99aab13bff6d666a, 0x4eb32dbb64a4f4db, 0x276b0876d63e316c],
    [0x54897319c692bf48, 0xfb3c3e8d57e07255, 0x5e75dfef8d33539a, 0x1856468cdd489ea7],
    [0xd99c86f556db0481, 0x9e2d2bb2ba50909a, 0x7944da0d1ab4f4fc, 0x23da22d7fadf8ce0],
    [0xbc54c7fda3406bf7, 0x3e0dbb521bb4afed, 0x99ddb3a2b67e62a1, 0x1c41fdd0f5fffb3d],
    [0x4290e0cd1f9fa051, 0x30f11672c8f36233, 0xebab2d4b5fd854e0, 0xf0bfb6289d76f0e],
    [0xa24f7d254ca270ad, 0x88f88c3e1562bf08, 0x4d682d08f9b16b8, 0x18ac33130e605df0],
    [0x1064e8b7c8c44267, 0x4d4068121a0eb34d, 0x25e96cd3aee3a1e5, 0x2befdfb192edf725],
    [0x8712d4ef896b7a2a, 0xa951ccefcc88e261, 0x8448d92a9122d84b, 0x7839fa38ddc3534],
    [0x408e6cc79674d515, 0xa78c2f4d645da33b, 0xe7b8a728125403c5, 0x2bc35b2b57bc9b2b],
    [0xe768f28628d6d7c1, 0x80b910d3e10c3d0e, 0x958d3e92a44c3b4b, 0x1f38bf25ca2c67ef],
    [0x5bff9372f063b52, 0x7b5ab00714100f0a, 0xdf9183843f5fa01f, 0x1cd11f045b25737],
    [0xdf0d51efeca406c2, 0x938467fa5df74bcf, 0x5edcaf10983d8abf, 0xa7f87799313df2c],
    [0x9465abc3273dac24, 0x889cc3233fad8a33, 0x1ccde2747cb6b15e, 0x718d416b2011455],
    [0xc0d70c17ce39cd62, 0xfb90a77421972dad, 0xc6e73ed23f94d5f8, 0xb45368b0cf6a77a],
    [0xd0f27be77f97ae9b, 0xaa5d7640408dfc0d, 0xa07345c63e77e946, 0x262dac40e77efee5],
    [0xca4d027935fa8b89, 0x754a080c11a7873, 0x12267c19315412c1, 0xea488fc1f7afec9],
    [0xef8ba915b9fc49a2, 0x5f28306715a19762, 0x6ce48fe0862fa63d, 0x297db1b6f7174969],
    [0x39adde2559592592, 0x23c33995784d2288, 0x9f2a8be7d2fa5832, 0xd064dee824928d3],
    [0x3492353730d500b6, 0x8e4d9cc8715c249c, 0xc967223524cad660, 0x156c90ff4f955e0f],
    [0x5fa9723345632886, 0x3998574f6ee744e8, 0xc3a6e15ada27cf59, 0x1f4644da64c00905],
    [0x49e7147491c671cf, 0xf12ebd6c4a881155, 0x661c0bccd2c4564d, 0x10d4e58ed6e17089],
    [0xdf2141fbddd7049d, 0x7bed6d0e23337d36, 0x520280f8dd92871f, 0x2ad782fc25c4f0db],
    [0x47e46e4562162e5e, 0xd88df0da173ea8a0, 0xe31102aec7726a15, 0x2928371625d6dd4d],
    [0xa06b9078d170abc3, 0xc9f5060ddda6e898, 0xba710556e91dbdde, 0x2665ff9e95204c0e],
    [0x96b43bb7083c0b1c, 0xdce067adb21d69eb, 0xbc344cbe2406f494, 0x110d5e6488836ae4],
    [0x5ea1c41ec07bd704, 0xef8a9647acd20b24, 0xd926b966bf994728, 0x16f7045c1cfdb025],
    [0xd9170a874f44566e, 0x27e1165cc7acf062, 0xa6a31d4be45e3b6f, 0x21533d8130aba1fd],
    [0x1b7ef4d8c1376cbf, 0x857373d583adef57, 0xebd2048ffe74b6ae, 0x29b6d6e0065b8aed],
    [0x3279fe3df313651f, 0x2482830530485f25, 0xcf5804bc515475bd, 0x2bd0d29ed27a49e3],
    [0xa308374a221b30f9, 0xb727f5b35fa38918, 0x9317605f271654bb, 0x2e5a5bc179f78f54],
    [0x77eda73a7fc9c1ea, 0x814c4fef3c8fd902, 0x6771319c0890cc9a, 0x17aa3fb8d187b2f1],
    [0xc0d31cec282e6e99, 0x6657ea4a701577bc, 0x63eaabd2e5d75ff0, 0xfecef506e9a1c53],
    [0xd4243b8ba3e66289, 0xbd419273c7159717, 0x9d4ced53464aa25c, 0x104e7bc5cb52c394],
    [0x2bb2813f43af845b, 0x2b9864c9a4d3a5b5, 0xd7feb4a665a65843, 0x2e2d87bbd2649ee3],
    [0x23bc721e7f7d5ef6, 0xf3385ec88cdf0d88, 0xbaf1eba7d7b79f76, 0x2a737d085c1ecad2],
    [0x49fc20b4d0aff94a, 0x91d4a52ed4df1457, 0xe7de09eb31511883, 0x134ffef044d6db42],
    [0xf3de6cf5dcd4a648, 0xcfd6fa043702b613, 0xf22aeb6cd6c9d671, 0x1f46b43cc2e57fb9],
    [0xd2dd3a649ebb811f, 0xc84f00698173d8de, 0xe1f36e6a4e88d850, 0x1427b946ca939159],
    [0x1ce8303b7e75996, 0xb0eb99dbe70e7349, 0xa255d02f80c304ce, 0x20efae422eaa4272],
    [0x6f072cc23ecf4e73, 0x2b9b9f0008e71fad, 0x9f835d2c56ed46fb, 0x1fbcd3f2b5a6b08a],
    [0x5bb1defeadffb560, 0x3d0f1fe4fa9f156, 0xe7db057ad0251cb1, 0x1ab1d914d85a78fb],
    [0x49189b38475f3ebb, 0x93aaae25e9c720a8, 0x2e6d2d23a5475ef, 0x185d3cbbbd397b42],
    [0x39adde2559592592, 0x23c33995784d2288, 0x9f2a8be7d2fa5832, 0xd064dee824928d3],
    [0x1b90350506c0ec73, 0xd27d1a970e859c46, 0x92e0eb0145510136, 0x9a33338a814ca4f],
    [0xcd389e3cff0d5595, 0x93f8d4f86cbb15cc, 0x86527ad4607df32a, 0x134919acbc6872a8],
    [0xc68e3bad58e6321e, 0x904d3641819600ee, 0x53e978202e190e60, 0x2988cc231f59a142],
    [0x7cc8988f4aee731e, 0x2847c8c16209be81, 0x7857f6cb9b2cf910, 0x7a7e7e0247dfb32],
    [0x6fca51c0902e99a2, 0xc86ac2414aa2a4a3, 0xb54b636a1125c5ac, 0x102415cfc2e84e3],
    [0x2e3c65072ec779b6, 0xa7eb0b98cc4dce97, 0x74d0ea64c9d05b74, 0x1205491dfda96dcd],
    [0x7f9590f1767dc148, 0x80b3ceee9c166982, 0xbf85734cd2d480c3, 0xadef8dd1998f07e],
    [0xa064054e232848d, 0x6bd80aca624e4d8f, 0xee09123f4655dd2d, 0x225f99bbe94d5c93],
    [0x4167046d52dba14b, 0x9356cb614709c31e, 0x1258ea11206b5d8a, 0x1e8c19265e656515],
    [0xd4a8ea1530f5a3a9, 0xdd4ac1470e430452, 0xa869a85ac1013082, 0x452cbcfd4d1de35],
    [0x7945ed626dc4d68a, 0xa8903c96d1eff664, 0x31442fcaf681e790, 0x29bb179886a2e496],
    [0xbed8c4d2cb183ed8, 0xf52e8d382c458098, 0xf3de008067cd6bc9, 0x1e06f246e926b517],
    [0x17cbb1355e6eb8ae, 0x510e37d6beca3fa1, 0xfd7d1a32aac8383e, 0x92a8624e09cc127],
    [0x61ea562893ce02e7, 0xffa56adef762687c, 0xd401438492f9b920, 0x29e31cbd24fa9de5],
    [0x29c4570f835722d, 0xcbc504b5378076fe, 0x4c3ea59be757187a, 0x1d47bb665d1bf925],
    [0xa3d7641378a2cb8e, 0x1563bbf62bc9f255, 0x360222c40aa0f431, 0x224f1c92c0c3e84e],
    [0xbdb55242d8c51f8c, 0x3146d1b09625f028, 0x171bb0db1c797201, 0x1021a099460d801d],
    [0xe08c2a25c276426b, 0x5a9bd18e0bb4b41a, 0x97f62c6402fccdb4, 0x1cd67c97e764b80],
    [0x842f0aeba902c2a1, 0x6bdd5fe07f8ff269, 0x5d19d7eed9cc36af, 0xe5dbdc0ab1a1412],
    [0x3425b3f030b5b068, 0x9f60b9638524408e, 0x44e97f61bb769f03, 0x1649e0489cb0aa38],
    [0x37fc1c890c6c70c8, 0x5b6fe3c162d8366, 0xac672277c1f07870, 0x2d8611f69f27f599],
    [0x81b7e6b6f4eae660, 0x7f70b612e158170f, 0x6650a8a9f3844ff2, 0x19a828de992f3bb8],
    [0x53d732a471572981, 0xba88e70e8e2b3a7b, 0xbec0b2decd1c28ac, 0x157a427811761757],
    [0xa5c1adae5b36e52f, 0x2edbb0ae12aab18b, 0x690cdff99c1ae5d2, 0x1f66ff45f17e0ec5],
    [0x39adde2559592592, 0x23c33995784d2288, 0x9f2a8be7d2fa5832, 0xd064dee824928d3],
    [0xf99d24955c609c01, 0x8b34923d4fb41d05, 0xe98845212afe0404, 0x9c9fa00fddcf694],
    [0x628c52e17f72aa94, 0xa28f55fd038dcdff, 0x40c54a350d8243a3, 0x1ac154fc3f421658],
    [0xdfbb1454aa2678ef, 0x4ae77617ba92f595, 0x7bc363dae264a049, 0x28859cb23ee55c2],
    [0xb26e6ae454e3f5f, 0x38d2bacbfa030bcd, 0xa06e90d1404c50c, 0x1fd179a66fdb3cb],
    [0xe56de5f8297a69b3, 0x2e433f31e099efdd, 0x7136373d13fd6fdb, 0x87dc7319f4e880c],
    [0x538b13818c15c43a, 0x3df37c3f6da5a966, 0x75863fdfdaaab023, 0x1a93bc3018ec7d34],
    [0x3b9b73ac9731c400, 0x8c67ac7bfa816f1a, 0x644d05a902b25d18, 0x1174a66194739850],
    [0xb3ddbaafa39d1731, 0xb717369641b96f84, 0xce490e809277b9db, 0xfde9ecbcc6fb8a9],
    [0xc5f5eb39e1e4adf7, 0xf6bb300db35a9289, 0x1a1284d0d079d066, 0x21d4b10d2e577a75],
    [0xeb055a5dd6f4f8e0, 0x69e36f6ba8018ec2, 0xdfcdf23376324b99, 0x1b491207581efedd],
    [0x644751d1c6e3ba4a, 0x2ac8d7b3334e65ab, 0x311bdc1acd241050, 0x12490e92c38fc269],
    [0xe53eb811c0d4fc89, 0xc01f7feebe14e231, 0xa27a56b34dfddd14, 0x3c569375b94a021],
    [0x96d7158e7af3afb1, 0x439eb09fa2ac4570, 0x1778858bb53f9780, 0x12f5ebe6a436e855],
    [0x920d4a974eeac9ce, 0x701c91df547407c8, 0x5ce85bca47ef2424, 0x2817dca315e7d8c2],
    [0xc2e311f63bfeeaa8, 0x61d99ef94043ea2f, 0x6840d8b115116d7b, 0x237f87fb2661d3a1],
    [0x9e8b3df2428aac6f, 0xdea12c26f6d4083e, 0xc854d447f2750c09, 0x13b8b1ac45db6a26],
    [0xb7d4764f4797077, 0xb1300f294d63c0b5, 0xe1275110a16addcf, 0x1429fffd68050249],
    [0xafc3816ae14e4e73, 0x4178613f657c2b40, 0x14a1f5e88c4cc2c, 0x27003d2b7f980530],
    [0xd41aad1ac7213378, 0xc1dec1df43a0207d, 0xea5f21c376fff7f3, 0x1e7c9269b68e8ff2],
    [0xfacecd19acc02d5f, 0x8883699084d3ee9, 0x704bac0788527f87, 0x73bccfee0274ee3],
    [0x85e42375d92823f, 0xb56aa74bf318961a, 0xe0ecc9dbd269a6f8, 0x1a23c2e99e22f60],
    [0x2fb84f009f728206, 0xb1729450789f1420, 0x35eeeeb54d419459, 0xb0b38a1ee81114a],
    [0xd2fb07d8ea7452c, 0xab7cd6f7709f007b, 0x9fca9a0775d19a3f, 0xb08bf53cdcd498a],
    [0x6ad1c8ef3d096283, 0x5544fbe2b3827672, 0xacc9ff409226d207, 0x1d37550ee8724571],
    [0x39adde2559592592, 0x23c33995784d2288, 0x9f2a8be7d2fa5832, 0xd064dee824928d3],
    [0x5a7ba547580f81f1, 0x5277440c4c8bd956, 0xff898958587c3665, 0x8fce6150b67f549],
    [0xf5db597fde888b44, 0x42153c7c4a411d59, 0xbce9dd71e513f146, 0x9a3d90307cac625],
    [0x8c40ac654c594a2, 0xf097ff163feb73, 0xcfe1a49bf1cfaa3f, 0x5e2cba2a305c29c],
    [0x85e5f033d1893ade, 0xd5ab7982d4749e61, 0x8925e2459726afdd, 0x151eb4fa0b1ce60],
    [0x5be4c60faf9a0e8d, 0x12145c8b411375b1, 0x9e56203ac25eb526, 0x2e3299bef41097ad],
    [0x9c49e2ca01ee48ce, 0xbd00c753717f1950, 0xf0e0c3dd34eb3e21, 0x2b5a4ff11bba3074],
    [0x703216841fd78931, 0xc51826ccba7e90ac, 0x6c55ce076344f7bb, 0x1ec7a76d764fcac8],
    [0x7ce13df654430b3a, 0x9a814227f0325d95, 0x85ae430ba472cf69, 0x19fe7d31b79e7b1a],
    [0x248087fac50ec851, 0x9a7974a4f782d03f, 0xed0fe10c9c7a0bcb, 0xc1066dc7ef478b2],
    [0x3347f973cd8e26b0, 0xe26207f1e280bd96, 0x805ed4c382a4e2af, 0x23b371f53de43570],
    [0xd13c84eb29488b19, 0x5ced82fd6c2f8af, 0x5ee68b4e237fad70, 0x15b58fbe27394441],
    [0x2ab7aa6ed0866b77, 0x7a802f172c7f9d79, 0x78938a291dd88e7f, 0x23d8929ce30fdfb0],
    [0x2afa970e6449ef8, 0x7072c5d1815117e3, 0xcadac0b96aa26bc, 0x340691f3b793cee],
    [0x44a739d11e4b6ef3, 0x5088373ac3be564a, 0x3e8cbc2929430d02, 0x274ddbc823611ed6],
    [0x77bc582465f1af43, 0x90fa6aaac92636b1, 0x841728eb657191d2, 0x23a37eb726b1fc29],
    [0x52b4efc02fd0223a, 0x2e7ea86de2719d2c, 0xba90308696beb310, 0x18ee2248d9512725],
    [0xfcc5050e203ee6bb, 0xd7c6cd0ad5d94ad8, 0x44383ae681c3ab35, 0x40a14cf4ef9e74d],
    [0x9d1436726f0b7083, 0x57bebbc4fb0c103b, 0xfbcec54c4f5d5b50, 0x2cb32996313c6c6c],
    [0xeda0755dcb14c344, 0x40d6a3a37c8d81bd, 0xb1dec0ce4ec50fe3, 0x2b7dafb754789ddc],
    [0x550c3ee07328c440, 0x5535596d4b8f1fe, 0x620b80f9cad48d71, 0x13e442da971a4c71],
    [0x355cdcdf93b477d3, 0x7f6cee4d77aa631e, 0x7bd847a0102a6126, 0x198e90225a0ed6b8],
    [0xde1719ed8ab63777, 0xd5269aba4ddeca95, 0x5fc389fa5bca90dc, 0x2006cc86ed54bf7a],
    [0xea2566cf586edf98, 0xf6d9946d275a60c2, 0x1a59839e389dee66, 0x889ec7712c59825],
    [0xb6d97882b672a08a, 0xbb78412a608bb6c2, 0xf9f5f21aee371125, 0x511826135536efa],
    [0x39adde2559592592, 0x23c33995784d2288, 0x9f2a8be7d2fa5832, 0xd064dee824928d3],
    [0x6fe1b0689aa550dc, 0x1da00ca55cd8d70c, 0x2b211248629533d8, 0x2f10170d2aac17a2],
    [0xc538048ef51dd771, 0x677901a07f875537, 0xf436c893a13d4489, 0x2a35dc09d4488fca],
    [0xa639d7010f2455bc, 0xf503ad63e6fa616f, 0xce28a5c8d8296732, 0x201b1978cbd392f6],
    [0xf61bdb8ba42e68ca, 0xfe5861913c9b6274, 0x35bddbdd97133f24, 0xcfdef165aa6bea],
    [0x9ad2cc3a2bc72868, 0x91abd955022ba31e, 0xb24b5bf1430ba767, 0x24a14555c418ce41],
    [0x41e1a2b084859ed4, 0x43c5854d72e3fe98, 0xa1348b2dc5c9dc2b, 0x58d12e15c9d023e],
    [0x69c7553f6b4abd29, 0x88a8a84cc5d7f3a5, 0xb5aab55558fc375c, 0x29e5bd1a9bad6beb],
    [0x2656ae21c825f638, 0xaca571edeae202f7, 0x21279f6b8d53a7d2, 0x1d203c2490947286],
    [0x606b475fb5d2153b, 0xd8b33d301a1cfb4f, 0x1da25915b3ff9e4f, 0x1cff362b0f926514],
    [0x4c2483781303db61, 0xe076963f51f5a7ef, 0x9e5e8653b6f52029, 0x6c0b55e10a02f6a],
    [0xdb2d2d076ac910a1, 0x59b81f8109082c3, 0x7d26afb6e2a1a781, 0x29baa73ca3725df9],
    [0xf0f479a2749be7a9, 0x2ac31a8620a25f36, 0xaf4fde8702141c5c, 0x16bc71cf059b627b],
    [0xa9108468651cf8b7, 0xfeeda74d1dbc8f87, 0x35dbd8de125bdd0b, 0x1cb4f4979c4ba372],
    [0xd0516c3ccc9090f8, 0x18dca62a16f28760, 0x7dcb5ada14a0049, 0x1d9097b4f48e52e2],
    [0x443cf88ad7481201, 0x27c9a9395cac64e6, 0x8013d34ff40f2710, 0x2cf444d1a5c6ed50],
    [0xc97b8736aaf6ff0d, 0x9fa8ff396c0cf722, 0x653c36a0c86b0f0d, 0x1af6065e84bc5d9f],
    [0xafdca37bc120d719, 0xc0850e0369a2eeec, 0xe55623697c70b3da, 0x2e2c4ecf622db6f1],
    [0x1fecb0e8ebf439e0, 0xb71e410355cbf798, 0x1ef26d8440a1e0f, 0xae82700364dd6c3],
    [0xda5d60540aece8cb, 0x392643c0fd903029, 0x2e4f34269a47f629, 0x2b3bc2007b383da4],
    [0x5d852a168de34c87, 0x10b5beb2818a9f40, 0xf462ed4972af3af6, 0x9bf1b127c22cd17],
    [0x6c4c12fd744c8b7f, 0x8f82923d9eb4fbcf, 0xd5c3871017482fd3, 0x1230f23e20b6011],
    [0x8a541ecd995005f4, 0xbe4a17f9367f5cc5, 0xdb27fd57b57e4a88, 0x1b47c720f543277c],
    [0xba171d6087dd799e, 0xc02e10c95e0e9297, 0xe43571625d58cbff, 0x2550ec7018dd8a12],
    [0x6fec4e3205260dab, 0xac20d3919c668a74, 0xe81b5f1406be8027, 0x2d357b96b3252065],
    [0x39adde2559592592, 0x23c33995784d2288, 0x9f2a8be7d2fa5832, 0xd064dee824928d3],
    [0x5a726ef1f04a21b3, 0xf3f73ee1f6720893, 0xd7223966859b160a, 0x8500e01d94de904],
    [0xf94e6f4782cdfeb7, 0xf3be27e5abc2c2db, 0xd38d427daaf10cba, 0xae88a58cd6d7dd1],
    [0xa70ab06769fb7c2b, 0xf33fe0f5465c6928, 0xac576e30978c3e9a, 0x2356cf14cd716531],
    [0xffb1c28fcdd5efed, 0x2f564780415fc47b, 0xf1c0cc8239aaf452, 0x4c9cc7ff1e61240],
    [0x9d69dc39be170eb7, 0xf237d435294d1626, 0x103fb6199dd0c4bc, 0x2ac119534017f94c],
    [0xc454a9befcff9b60, 0x1e013fa0edd0bad0, 0x66e0f0aaab541c7f, 0xf0389ce2af0f620],
    [0x8b7222620bab2ab4, 0x811b56155a8d8f76, 0x8d287cbe3bbff9ac, 0x1df984d5fed72bed],
    [0xeb6a676a5754fe1c, 0x9446dc30b12bfe3f, 0xeb61562a8c1339d5, 0x2464b6b8837edd47],
    [0x280275aa8848096a, 0x8a79190d413a8a69, 0xe5939770830d3aca, 0x11e670fa739dc17d],
    [0xbd160c8fcf7513e1, 0xf2040a2a0fb2d674, 0xde2e2f02c9f6dab7, 0x8241341db938388],
    [0x100a6def22089576, 0x4092ebfe06f99f61, 0x9d8413ba030f7254, 0x215ff7a8bfce3193],
    [0x4bee197b94b9cd58, 0x87c0f266a2b6d89, 0x37c1a7ce9e231f15, 0x2c7cd496518937ec],
    [0x7a57a49c6ebc8d97, 0x772bb305f1ab884a, 0x4754a6479956a704, 0x9bc5b3a291f8de2],
    [0xf1cb49545a026368, 0xe30cff2c417d0dd2, 0x5d6617504732df69, 0xb15a0dfc22c6eba],
    [0x3d9e01bc1b283474, 0xf38aa11c61bec87b, 0xee797a9d9b309af7, 0x299e24a6a2df4e3d],
    [0x3542683d5cfa0e6e, 0x5b4d5db8af6ee11f, 0xfb58bd5f1e8fe10b, 0x14a1683e0ced5006],
    [0x7e34167d2b6f4220, 0x87901198cc982355, 0xa18dd8e2f3fd9983, 0x25595e5888505e87],
    [0xa8a7855435dbcd8b, 0x6e4b996a70f430d, 0xe074c7ea982b1bb4, 0x1a8ca160cb03b1c6],
    [0xa13fdf2509362717, 0x39e753e40c03e026, 0xfa7b3f960ddba5eb, 0x48fa511c78d046],
    [0x1a18a046d929341, 0x465d368c8fff1a94, 0xe0ab9d58ccb09875, 0x28606b25ca030890],
    [0x61214fe1f59501a3, 0xf3de7d1ebbe4a721, 0x686570aade7a07d7, 0x99c988ee50b5a86],
    [0xa9dcc640f9b3a6bb, 0x3b257bce07981b55, 0x9445a55f82aaa366, 0xd423b8393f806bb],
    [0x6a1886ba554e8858, 0x411128da59c299ce, 0xb904a96f9a18ce5e, 0x20fd15ccaffbde08],
    [0xee2229d03d986e54, 0xce2efc76485de21b, 0xdf132f1b9f37f820, 0x2b8b731f93bbfd2d],
    [0x39adde2559592592, 0x23c33995784d2288, 0x9f2a8be7d2fa5832, 0xd064dee824928d3],
    [0x52a36eb7a590e5e8, 0x211feb151a906c58, 0x16da47f8a9085a24, 0xbcb4654350348f2],
    [0x5c3fc79bec0aa903, 0xb66e7704b05a7df0, 0x7159aecbfbfa52a4, 0xe0bdd096a483b3c],
    [0xad17f1407b9e2c3e, 0xdca435c022fa5447, 0x111990ca10f7e539, 0x2cea662f7c24e8a6],
    [0x7432ecc6c00dc0ce, 0x509815ae31538dcd, 0xeae887c593cf5791, 0x260494fff3079a35],
    [0xb7ac68c23b8deb0f, 0xdf27f7d6fceb4958, 0x4cad7f89188e2392, 0x15c010a4fc6cc1e5],
    [0xc8d3dddd75e8b58e, 0x5821852699ad8b03, 0x69b0e4ddef33a7b4, 0x2f199edbca4bb596],
    [0xeefd96bbf73685e, 0x875b20dd6757cbc8, 0x32f7c17d67a31901, 0x1b63017c3c4dc94e],
    [0xd6c41cdeb5436677, 0x119a6c6347e702ae, 0x93533cc0557b7095, 0x21819c86119eee2a],
    [0xca5e6d30c0de075, 0xb636e83e80f8ec2c, 0xdc53e2a0aae2ceb, 0x2c7ae6aae298a99a],
    [0x890d7e10697d7eb5, 0xa29fdeca75ab98d2, 0xbea1ee0866c17aeb, 0x241559cb0c89c416],
    [0x6b45d0d0fe3f8e50, 0xa471f9cb4a4be8e7, 0xaf9be2385dcb90a8, 0x21de885c1616f460],
    [0x35ba0cd28879e67, 0x883f1ae24b145769, 0x268f02176e13cb0d, 0x179ba320374c3c6c],
    [0x494b7686f90434d5, 0xe70ee1e3830011d9, 0x720591f79a33979a, 0x1ce20457c1471d83],
    [0x3c8451643cd7eb5c, 0xca6d4695eaff8e98, 0xd02017b4c83cc9e1, 0x9bc17ede919cfca],
    [0x941374a9e8975c19, 0x3ba3f046c5a39fca, 0xf09343dd53254321, 0x10993c2085ece5f1],
    [0x15b706f926a8f657, 0xd240da2dad90a1e8, 0x1a2c4e2e59d5731f, 0x11e0deb1da285734],
    [0xcd298117456dc175, 0x12330c9d1dca21b1, 0xb9446e5465f9c081, 0x15313d500d879d6d],
    [0x263728372eb19dda, 0x8cca1703d3685fcd, 0x9d2f3b755892c443, 0x1a3da97fcba266c2],
    [0x6732d16d82c7c0b6, 0x725e11a860550396, 0xf54210da2d2bf627, 0x1ac3bc17591802cc],
    [0x8d4b3d8311f86bbb, 0xd725ecdab99603c5, 0x857af2a620b2cb2, 0x13fd9ff54bff1a56],
    [0x212104d69f3c38f9, 0xd935256c9fd28f62, 0x970d479473995d79, 0x10cb890d09d7922b],
    [0xcf8d29c84fb22646, 0x21e1414ce5a2647f, 0xb3f8d6bd684c6cd1, 0x131649c6c37c467],
    [0x8deee3bffb1245f3, 0x9f428577c73f5188, 0x5262170b35d24f5a, 0x2784296e81cbe1ba],
    [0x906f709b8ddec0a7, 0xdbd8f0929a1fa778, 0x67ecf4cd1c4e7d6, 0x262b646e6406d39],
    [0x39adde2559592592, 0x23c33995784d2288, 0x9f2a8be7d2fa5832, 0xd064dee824928d3],
    [0xf906e8f03379822b, 0x3dee853fbb53438, 0x3b4497ddb0b519c7, 0x2b78023b50bcfbb7],
    [0xa1fbfa70d5459977, 0x5bc653d6186ebeab, 0x29dfc50775e881aa, 0x1834d64854291966],
    [0xf9966f18aeed7383, 0xc6104889355c02ef, 0x15985c8185846b, 0x1e223eca065f0791],
    [0x7b57a39d40c74c0, 0x964304f891db51b9, 0xeb8a83f76d5ef268, 0x21ce2cc395f1ea9e],
    [0xc51aaad94942d5a7, 0xf1b15f7caae6f197, 0x7bbe2f73f28d4847, 0x3010da41b7bd9101],
    [0x505d3718205f8898, 0x87ed0354d3da012a, 0xb2b5ac6c1c84db0c, 0xfc7aa208e89f615],
    [0xf2e96e05a186b0aa, 0x6c0bfc56893155fd, 0x2dc1912a9669bde, 0x13153924c0fe6790],
    [0x798451a5f3c6af1, 0x425a3aeb45e5a44e, 0x2d062b6a2f92ad6b, 0x1e7ec9ca71516787],
    [0x9fd93500ba32bc1d, 0xa2e6092b0670b2f5, 0x9e6ce405734b770f, 0x1839eb87798ae0b8],
    [0xe243aef61e35d531, 0xedac4fbc889f464b, 0xb2b6ca1ae4aeca0f, 0x2bd925800a8f95d0],
    [0x1c35caa5c1f87d81, 0x1966062d8e00a94d, 0xf4288baaec5d9088, 0xf1ec631ddc6f753],
    [0x125bf3388887a1f9, 0x6cf3a41e52664b1a, 0xd46c55f0df4fa3a5, 0x9ab5e15c1e1cf58],
    [0x505619117f588ded, 0x4145aee77618077, 0x7d915cd6d7056a01, 0x2048f6f68b4dd012],
    [0xa42dd688b65559a0, 0x3c6cdd2d2703982, 0x7c99c85a0a1456d3, 0xeed124614cf28d9],
    [0xc978d0dcfdebd825, 0x5687d3511606ee56, 0xaaaaae01e8418d00, 0xe8fbccfb62b0842],
    [0x4dd5d7e8c78bb73b, 0xdb3898b5c4cbef6f, 0x5853129e7555f2fa, 0x7823b7784daa9ff],
    [0x2eb64394680db0ed, 0x396d0c03d27b794a, 0xb26abf038ff6ba8b, 0x161e2a1db0ee0e75],
    [0x68d3da1e5198dc79, 0x203608feb1bcae42, 0x90bd97f5443df9a5, 0x2816d7a51708d994],
    [0xbc8104ad81843e8, 0xe00a176142729804, 0x549b8f2b0f98554a, 0xb298bfafa57aebe],
    [0xbaaa4b41d02cba63, 0x10267048c6e68139, 0x6ef985df851f7543, 0x5b5779be0c8c88b],
    [0xdaa0661b4c2e6f75, 0x24dcd6d013c62fd8, 0x655f32571d6ed247, 0x2954e80ed49eb91d],
    [0x575961a34b43ad70, 0xf2fbc2952bb50ca4, 0x9a7647e0eaf37967, 0x11f97bde1a830e97],
    [0xdb2ae25b87affe51, 0x19c4accd2de09381, 0x9f8570c778e460dc, 0x2edabd7a99b98c5f],
    [0xaef01e87bdf9bf98, 0x98d15695c9fa2921, 0x88c7e918dffc0ef7, 0x285b59b5e4153c71],
    [0x39adde2559592592, 0x23c33995784d2288, 0x9f2a8be7d2fa5832, 0xd064dee824928d3],
    [0xf61382f7a12e9594, 0x3a11f33d2b5fdf04, 0x7534420e85cc7048, 0x8ebe850428b3b2e],
    [0x891ea92d8f56de81, 0x1857ea3575fce20e, 0xbf8854d51235e45e, 0xbc84e22a29a0c39],
    [0xcf5a05b8e0030f98, 0x4cbcc05379ab4f8d, 0x9a31ced2d538dce0, 0xc546f855e8fe552],
    [0x15e052719c05209d, 0xf8822497b661cf, 0xba1a66114ef25910, 0x4beff2ac6db7fc5],
    [0x94bc719b2c4291e0, 0xd64a2fbb37f58f8e, 0xaf428582244a3a31, 0x17fe23f62d221e08],
    [0xb80b7d014fc98606, 0x775dd01de878636c, 0xb52c9444dedaa047, 0x129c6ab33dabbe60],
    [0xf23d37b52ed78562, 0x31d86d2abc8ce91a, 0x614c85e5cf2c5dca, 0x1ecc6d3b8bbf86ab],
    [0x5fd55e593e204419, 0x26e8a0cda438a892, 0xa737fa5170fc77e7, 0x2fa06eb4828858d3],
    [0xcf7f3aedc43fccfa, 0xfdd78986842c8691, 0xc53de32f88e0e06b, 0x123d6c4cc8a7fd77],
    [0x403f330f87700abe, 0xaa6bda0aa14503de, 0x6da92cc3681384bc, 0x29638f75c4d7ad4d],
    [0x882bd838238ccde7, 0x41a8b16858bfeb10, 0xef388e33e501e0fc, 0x2ca5b3f0ddb7a5c6],
    [0xa38a0cb2cce2b7c2, 0x375d4efabb3e276, 0x4a57f23005d7b8ad, 0x1e7e20601229dce0],
    [0xfbf395738bed4043, 0x57bdfb922f8ff88b, 0x1e7b72e2fff39fef, 0x1bb9781ae7d7cc14],
    [0x578b256fb8ae01ef, 0xe5b42e39283fcef6, 0xbdae0bf2063a2056, 0x2617acaac7e8547e],
    [0x5ba1771d72b80f1a, 0xa08c0db6b1f3d80b, 0x2ecbbe82913bcf05, 0x1524426376418adb],
    [0x7bc91192099f0b44, 0xb22cec1c9b9c3209, 0xf4b2521ff600c471, 0x23b9a081fb49052c],
    [0x285019b41ad6a272, 0xaa8c768499f5c976, 0xbb12883e63991ce5, 0x1c6cd0f87731287e],
];

/// Part 3 of the sparse partial-round rows for width 13, as little-endian limbs.
pub const S_DATA_3: [[u64; 4]; 256] = [
    [0xf9fc79d56f93d89f, 0x3139a1bec81b1c39, 0x1a69ada9ac521ba3, 0x564f9765361d014],
    [0x846ec5c102bbec55, 0xc8eba352d2890666, 0x888730bcff570f62, 0x18fba1f537d0bc06],
    [0x25a42cb680e12a55, 0x4b3e17d5f37791df, 0x4fb41d46c4c91d26, 0x2ecd94fddc565449],
    [0x91bf4b01cf23fa0d, 0x12d694a46f169f77, 0x4ec9fa5c3e3514e7, 0x25168b700310216d],
    [0x5b059db0a5466905, 0x9134aeeaf141ec5a, 0xb4add0d9a33a2c58, 0xddf38a36dac9337],
    [0x845e5689313cbdf7, 0x4bdcc37c60e505a9, 0x1af32cd7914b4173, 0xee74216109c4845],
    [0x4c7f3356f9799e0a, 0x8fc0ccd14ec9ed27, 0x4fa8155538d77208, 0x20b4aabbb4bbb48c],
    [0x39adde2559592592, 0x23c33995784d2288, 0x9f2a8be7d2fa5832, 0xd064dee824928d3],
    [0xf0ccf3e3c331d973, 0xd45d686a789aaf80, 0x46584675ff74d2ba, 0x18de85783488e68b],
    [0x3deda66641d5b82f, 0x24f058208c74af50, 0x7282dae6aee3a166, 0x23ab29889e8aeae3],
    [0x781d26fb2ba5d7e6, 0x3388625872b2966b, 0xf1c3114b375d8728, 0x2fbc8d06de03926f],
    [0x17acea7083fd9ed7, 0x9e95f6b6e1c61496, 0x609118df2231e65e, 0x219e0c4d566bcb09],
    [0x27be2e1f14a15d9, 0xcf75560b65b80af1, 0xea6edcd24e1feeb1, 0x5b21b2c119617e],
    [0xfbe2493c3ec377ff, 0xd0b471691a4a29d9, 0x6fd4b13f8a096629, 0x5456d41afae329],
    [0x5908b5b7df92a447, 0x176a4904360f83fb, 0xb3cf799bce377883, 0x14001dcf0234cbe8],
    [0xad1560e74f6d231c, 0x9fbc860f191c1e0c, 0xd7e50bd0ef668bff, 0x2a5e9fdb1272447],
    [0x2bdc04f9e449f2c8, 0x9decdbaacf1a3374, 0x7413d666ae0eb373, 0x22949879c5b83ea9],
    [0xaf0494454e37d96a, 0x31c49f992f07a96, 0x8029de7d0170a12a, 0x21eb23c8742f8d49],
    [0x4999f92d0b32bf1, 0xb2b3579c7856ba49, 0x5267a8476f41bdac, 0x70541062150a2f2],
    [0xa36b808691b9454c, 0x1b8226dd566368d, 0xbfd8c5a7c2b8636, 0x2664518ca8704434],
    [0xb67d73a9d8e7b5db, 0xc5b03da18129f6a2, 0xb744bc86c3acafd4, 0x14aa81c9279f3505],
    [0x387556ca3343a303, 0x69a89bf74f5ef3a9, 0x361efd85db88614c, 0xecb94b163b561ad],
    [0xacc910968968b676, 0x698c90e766363859, 0x10d3389ed1571283, 0x5a6d9a1efabce0a],
    [0x196899f497f83082, 0x626c492b7c0e7178, 0x2c0019d9d39d4212, 0x16b4dd09c4b2b394],
    [0x2f001714895cbc9a, 0x2deccf562f0e1248, 0x91d5bdf7d6029ece, 0x460784ded949d36],
    [0xc219d66373c4f7be, 0x992901508aa915f0, 0xea2fad599e45912c, 0x2d634ad66906cd6b],
    [0x66c44c16e7516ef9, 0x4d1f0026b8f04aca, 0xc3573b8ad8201f5a, 0x1658eb086b54351e],
    [0x515afce9665a9d92, 0x181126ef44a9a352, 0x75a1d316b78c724e, 0x135a011e081cbe54],
    [0x277ec3977418fc64, 0x2c7bd08182da579e, 0x87cd22b2962a05c4, 0xb4bc94836903c97],
    [0xc9d2cd95673d3caa, 0xb19f2405ca009947, 0x47e18f245effcfce, 0xa0a37d07785069f],
    [0x5783034d66dda113, 0xd32aee2b4a8039aa, 0xc76d216fbda0267, 0xf8ecd23da135c88],
    [0x2bf7492f253e1930, 0x3ae4543881ddd28, 0x4aac356a58a3ca5, 0xe88eda335ac1a22],
    [0x39adde2559592592, 0x23c33995784d2288, 0x9f2a8be7d2fa5832, 0xd064dee824928d3],
    [0xb93638d9f46323dd, 0x61880aad89e87973, 0xb893a0919e4d9283, 0xa4da37955db5d2b],
    [0x1f56af516e71c5b8, 0xb5055d95f24c5a06, 0x4b35d9587499825e, 0x182420fd6b1d8bb9],
    [0x5c665d25b01151ca, 0xe95e5d41763d8b23, 0x61f9af7aad3cdbd, 0x12ed236d1a3dec40],
    [0x9384c0fd26e46088, 0x591700011d383e28, 0x2493fd98edbb914d, 0x2d2c50e36f2c2c40],
    [0x7a429c1f35575c11, 0xc7429749fdc88ccf, 0xabb58da0c792869b, 0x2e8ba0e65f5ee53],
    [0xa239d0dcc7000c0c, 0xeae091ea0992cf72, 0xa50fe3e9fe4abccf, 0x8491031ef5da5f6],
    [0xbba73b3f916aed40, 0x36e365d3b391b72, 0x66403ffb6a468cbe, 0xf4894b8ed587415],
    [0x3aadbbb0ff33c700, 0x8063af92b5f62443, 0xbbba95aa7aa2eb55, 0x22727bcc3e3f1e76],
    [0xd5a3a6bfa19fd87f, 0xcc26f6076905f37, 0x4d2e9f4e22c52851, 0x1b120f999042730b],
    [0x9deae5d1422d2f76, 0x4dc7378340a8c625, 0xbc2c0bd36db33be8, 0xb37ff36e5153c7a],
    [0x3571217662009b93, 0x296777b02cb30f89, 0xd171db24f81917a2, 0x1655564966b05b47],
    [0x9f1335bc3cff8fa6, 0xe4a3e1bc178bf7f4, 0x685fb8e4bfb4db52, 0xa64dedbf4dabe0],
    [0x3270587bf385ffc2, 0x2dc58366e195f4a0, 0xee920c54a8a1884a, 0x21a953f0d0ca1d43],
    [0x8ebf8f0cb801a264, 0x55d7c59a14a15f9b, 0x588376be12a9cf6d, 0x228dc2c9d913d4f4],
    [0x773f3bcca83d49b0, 0xb4b8cc3119a0038f, 0x830141572d8b1936, 0x2b487e5c9abb4812],
    [0x8836beb912022bea, 0x920437cd807dcd65, 0x2052536731a32ab1, 0x285712493e67ed42],
    [0x4bbe8b3e6fabcc95, 0x4b83ea105203bb5e, 0xd47c1f97d99f91ea, 0x26c1b715b64f4ba9],
    [0xd6c3a085ce1d95e9, 0xca1295d0d93d01ee, 0xc3d35a73e735f3da, 0xc188a42d4758ecb],
    [0x5f8a51b5dd52524d, 0xffec020e1de9d2e7, 0x557f1efbf137c3ca, 0x2796103374b26554],
    [0x80483698d4b47604, 0xafeaf50481cdb89b, 0x5fdb85ea4eeaf57b, 0xe1523d8bab27bbf],
    [0x20d87a548e68fdd5, 0x91a9a98ba0a4450, 0x506830facdab06d, 0x172ac77c37aa3879],
    [0x2e6b776c17a46ca2, 0xbbeb8b07f1d29454, 0x1c1417b2479bf21d, 0x1ea828b052ccc8c2],
    [0xb6b6dbc6cf3e1618, 0x82c8f06d52684ec9, 0xd29e9d5f6cc76b49, 0xc530e36f104f93c],
    [0x2f82be85ff4a2992, 0x4aa3fe58ec7de500, 0x34157c1cf3218a10, 0x257497d432a5ddb9],
    [0x39adde2559592592, 0x23c33995784d2288, 0x9f2a8be7d2fa5832, 0xd064dee824928d3],
    [0xca84868cee25fdf6, 0xdcacddad122d4f98, 0x17fb5b068ecf3291, 0x9b0b4483df92983],
    [0x86e576d3f6894290, 0xac7dfd987568aacb, 0x52de5569661c3f8e, 0x1569ffd3186a4432],
    [0x81b0da1811b1538a, 0x9612fb8a6b33a4bd, 0x6bb05c3c44845f0e, 0x2335942544da68a2],
    [0x56f94f35406e6571, 0xbaaaca704840038f, 0xec280a826087df17, 0xf3fec305e46f3d],
    [0x697bcde572bfd4e2, 0xbe1ec91b044ea1c5, 0x1ad580af7130f33e, 0x1c4fb366b69eea6c],
    [0xc8dac938e7f4f8ca, 0xe11c1fcb71fa57e7, 0xac2e2c5d00720c5, 0x11066a30034b0f5a],
    [0xe299e9bdbbfd244, 0xb1f9a77f060fb99b, 0x170f452dd50dbe69, 0x136aece7d25ab58],
    [0x44ab0d14847f3810, 0xd68dcfc9cb961e7d, 0xff386df1e4e2edb6, 0x656fe108785a97d],
    [0xc266379a48740a1a, 0xf1c864ec818a13cf, 0xcc75bbd0b90e0fd7, 0x2132c9a946b2cace],
    [0x59f68742b50c1bb, 0xa8dc3d4faca80890, 0x1b860f7e740e1361, 0x26ce19f30359f87],
    [0xa5a927503d327f19, 0xe6d29993be2aa537, 0xfc171d04fdc512c2, 0x7b34bb73c69a8be],
    [0x5a4d94a03aea4d59, 0x361a0cfd90d9c56e, 0x297521fe1aead57b, 0x1d2076ef57a75151],
    [0xeb4f749f5cc30552, 0x36f092b43e11aa2f, 0xe9d875354716726e, 0x18b2d7645f44465d],
    [0x25ba0ee4e8e59466, 0xec648a2b02c4be03, 0x6c4cc4105b7bde94, 0x29d9e936a8828337],
    [0x8303e988a8ecec7f, 0x8cab51b13834e03f, 0xc720a18cda24df57, 0x8433318e395064b],
    [0x505d3f5f67e0cfbf, 0xd32cf4d87871619b, 0xfcb20715527de197, 0x2981efbb1e761374],
    [0xaa3a00bc1f565c94, 0xfd154de77011ac4b, 0xe494b53068730c0f, 0x28a84e7609bc4d9d],
    [0xcc7bd80f6aa01470, 0xca776b94b0e842e7, 0x62d3655e0f0b215a, 0xb98fb0a42ca4976],
    [0xb9ca464637ca1feb, 0xab9ea0f883798425, 0xecf61a6602a69fd7, 0x92dfb1809ccdde8],
    [0xe7f6e6d888cef6c9, 0xad8dd362a8445e6, 0x5ec5ab861ed051b3, 0x2229fecf42ca2b72],
    [0xd96de4987e0eb545, 0xb15d7b5cb00f57f7, 0xd941659e4d63bbf2, 0x2efa745708462a56],
    [0x8d0f26f972c9c868, 0xfb8b551f8d601043, 0x2d5bb8e8ab1ce26e, 0x1eb88f6512326db2],
    [0x77bcc9fef6e4ca9f, 0xc77653105a5f8957, 0x5ef34691fc07baab, 0x357f46402835782],
    [0x18dcdefbae67d1, 0xe4db641825d2fd7f, 0x740cd9ef0f50e229, 0x2574b6b6eac59402],
    [0x39adde2559592592, 0x23c33995784d2288, 0x9f2a8be7d2fa5832, 0xd064dee824928d3],
    [0x4a16787befb181ee, 0x54462c3dec29de29, 0x1e467b2fa248d2cb, 0x22cd7ad481a520d2],
    [0xab0a24b8ce63a95b, 0x64b4a9dd5cc762c7, 0x6dc9e245738f17f3, 0x1ea716292c21b4a9],
    [0x53cf283e0de49c43, 0xc566945980a987e8, 0x7f193bb734548249, 0xee07db295084e87],
    [0x470a45678d916af5, 0xc9ddc21219d119d5, 0xd803d4683ca9a5ba, 0x237a31e787ffab6b],
    [0x4376279f3c8799de, 0xbb591fc68fe7a8ab, 0x3d695cb79fdcabe, 0x22d591498fce7c59],
    [0x94a832c0ab9f4969, 0xd1b32c4ac3fea84, 0x460cb78aceaac154, 0x25730debdf5daae2],
    [0xd7d8414ef40bcbff, 0x4ec48ee96a06fb1d, 0x8814c0a9f83a16d4, 0x2f54afcc0ab9ef59],
    [0x7433277bcdb12ef2, 0x1b0c7eb6877e3d86, 0xc61bb7b3728db014, 0x110855e59ebf6c99],
    [0xa6c4b38a6e2460d7, 0x7a1bd2afadb85eea, 0xf72dc76e0ecb8048, 0x100cbb38383038a7],
    [0xd2226a74b9bbf085, 0xc426551d5a346ec3, 0x16d21ff6eee6b658, 0xcf9ef03acb7eeee],
    [0xd1ef72639bf0d3b3, 0x968f9e0b82bc760, 0x42bcfcac407087dc, 0xd047f79f1c409f5],
    [0xab0c18dd279cd35b, 0x97a5429797a40948, 0xcee2d851f3ff1958, 0xc8d35b27373860a],
    [0xbc004e43b79a3f90, 0x5c29ad520bc5434b, 0x24635894a84e2d09, 0xb34d4ccd429b283],
    [0x88d49e233cc8926a, 0x45ceb3c863bdf8a7, 0x98ce64cd97f7c214, 0x15aa8094e890c3ce],
    [0x97e34b3da65e664b, 0x647215f7f4a764d, 0xd28ef04c564ee9af, 0x11637553427ccd52],
    [0xe75b35f11646ff09, 0x5c2a07a938463db4, 0x5495d929abc8ea1e, 0xd77424bd2852d48],
    [0x8b10240cda1dba1f, 0x76c5051bd630deb3, 0xc95da3941a1f78a9, 0xc48776d02d737ed],
    [0xcef38919e4f149c2, 0xe21c1e4f028e4fa7, 0x2ee5067e9a631b0b, 0x23efafcc9a8ff43a],
    [0xbebaa4ae3db80522, 0xe41ef00c3f872dab, 0x5e8c8b0e0b84081d, 0x24dc88d6144669f6],
    [0x2186bc242cd69873, 0x70739196835a2295, 0xf857c72220ab866f, 0x27b45f6635340a77],
    [0xe87cd628582563cd, 0x1cf7b8f3367a263a, 0x16e17b12e0b1f95c, 0x704b24632239ef8],
    [0xbd1245c2aabf3e79, 0x656b484c52ca7624, 0x38f3bc87712a4635, 0x176cb4987f9f3df7],
    [0xc6acb427cfb61f9a, 0x966feded7d239c51, 0xe67aa169b29b1ff9, 0x227eb80636039b0a],
    [0x1265541c508ca784, 0xe1693c9fc11931f5, 0xbf5470feeace0db2, 0xc315aed179cba6e],
    [0x39adde2559592592, 0x23c33995784d2288, 0x9f2a8be7d2fa5832, 0xd064dee824928d3],
    [0x102d29c2a85df08b, 0xee18c4a3be9227c3, 0xbb4063f6ef293b4a, 0x1b8b75d83e3e955d],
    [0xb13994486e1b621e, 0x2aa2eaa7489d5d74, 0x8e908846ba563503, 0x62a3721fc400991],
    [0x92a4677360134a68, 0x5c66fb882e3360b6, 0x5157784342ec5245, 0x1f58606cb7e61fb5],
    [0x78636354e20c45e1, 0x81d0e2041006620c, 0x958b8849dea281ea, 0x41e93249e317db4],
    [0x6f7a7dae09d23c3c, 0x3f4c44c8256e619b, 0x57aacf5ccc470148, 0x156d561a4bfbc4b5],
    [0xe6245c4537a0e217, 0xf36ba46cec847825, 0xf57a8c5084724469, 0x11ed5fa9b46ad4b3],
    [0xea7e127d5b28963f, 0xa01889e4f80e5be6, 0xd0e0ccdb10875d3f, 0x88a5d5188be741c],
    [0x743b7566461219d5, 0x7275fc53b8cdcd8a, 0x5e2ab0f5c7d1e14f, 0x271a632b84384648],
    [0x99b931d7295c6d8, 0x408d3c0521774aac, 0x689db93c50a3dc2e, 0x26c0a1c6632015e8],
    [0x5cb18c4ceb8d101d, 0xdf23adf8f0a84f87, 0xe885a12b5874de04, 0x294070b0ef4e6a55],
    [0x998bc0fe5e364303, 0x4f5aff58b2d70080, 0xff47089e98809c6, 0x2f78931d96c5fd9d],
    [0x5b23ae4a647d67db, 0x14b227ea864c0917, 0xd2139afd1b0eb61d, 0x230be21d8ea9e4c5],
    [0x68c392bba321a232, 0xffdaca93e74329a9, 0xcb2b9bf9100f51e7, 0x23835945ae05c678],
    [0x762ee36e8a88033d, 0xb19b169817b7e508, 0x166d78959fae651a, 0x187c39fab3ecc634],
    [0x72e8b4dd477270dd, 0x58b5332c390e60f7, 0x35e624ff5abad58e, 0x194c8955c7e6201],
    [0x56a21a7b0241a684, 0xf417a2f1b844b7ec, 0x27d307071d84fdd9, 0x651970e3e8b8162],
    [0x87244908f193eefc, 0xc591d2b37df750c2, 0xf6a82532f1109a06, 0x188d9c9d0fbc3459],
    [0xc51d60840f9e166d, 0x6cfac804451c91a6, 0xe3b9008aa9fc640b, 0x3b8367be80bf4f8],
    [0x6a7c61c4fcd52e10, 0x3458429b82dad506, 0x803a0c90ff103140, 0x8762e109aff306b],
    [0x7f53e9eb6da0d5bf, 0xfabea54eec3b62b8, 0xc67b8bcdd6a1182b, 0x7e877480703f745],
    [0xc9befe2150e0335a, 0xd9d61a43f977cb5d, 0x51a78abb8a14ac92, 0x83a1d0511d55766],
    [0x71eea19e46f3b58b, 0xfa39b91203a58d37, 0xf54db2146eaf1b44, 0x108f56572334a765],
    [0x6620589183158a, 0xdb2e5aae1cdda665, 0x3ba8c5608d2e9b33, 0x253717f1b3a6055],
    [0x6561ca5be801e762, 0x8b9793b1120e1038, 0x3bb88f21b9f68754, 0xf7d259d6a698619],
    [0x39adde2559592592, 0x23c33995784d2288, 0x9f2a8be7d2fa5832, 0xd064dee824928d3],
    [0xc81523d2e13494c2, 0xf70d8d3820fe135d, 0xf257ea69d514c718, 0x2caec1da928de3e],
    [0xf775248a4f3097d9, 0x8cece70c65060fec, 0xb23fe993539c71e7, 0xffcc49b0327d4da],
    [0xa22206c0f554fdb8, 0x7ec9b5fa328dfee5, 0x76986648041c5ae5, 0x7d2f814a0d52f16],
    [0x1dc732ffeca2369d, 0x947572ed4050aab0, 0x2397acda206a6fa4, 0x563d7a79d5f32dd],
    [0xf0bc376a70eda070, 0x1d08b4dbc9771054, 0x9474a9972f573d17, 0x2783fa364653815b],
    [0x56babdd38ba0eb81, 0xd511243c1917de86, 0x5fa597c84565bbe9, 0x26d7a7687e6c207f],
    [0x9c98315ff78c42c3, 0x628ac2a1c7d5c17, 0x20ef104135157751, 0x1567832cd70e77ec],
    [0xf8bd1e384a7b76e6, 0xc2db7b557883b227, 0xad403047f3182e0, 0x1c59c4c25db5ec76],
    [0xa34bbb9e859a1fe5, 0xc38f2ee47b7dd526, 0x7601fecccbdd1466, 0x2fb984c5c36a06d0],
    [0x4d006edbc0845084, 0x1119daac0927a269, 0x105e969cabbbbc78, 0x193c691789f6f175],
    [0x4d2b743418b287e3, 0x2e55070b19de421b, 0xe44e4b94f5554dce, 0x2934cca891879574],
    [0xefdcec15ff6fd6a5, 0xb2837a1425c62d4d, 0xc22f1c05e786dd4f, 0x2223f7dc3c04fadd],
    [0x6b50ad18f4084e57, 0x6b0bdadf24dc97b, 0x7277169d90007616, 0x267a1cd4eccdacae],
    [0x4804e2043eeaf97e, 0x788624c972203d3a, 0x6d1a41103f5b241f, 0x23674c9dff69d9b0],
    [0x6a867b181691451, 0x6c0de08242d80575, 0xc26b7c2dceca1041, 0xc86000f5a940dc4],
    [0x9e89b1e94b7b56f5, 0x7ca9e63b6242e56d, 0x701d7db41968e81e, 0x237c120402aba89b],
    [0x1050a0bdc3a86b13, 0xe51b93d030344431, 0x550a268e382e6af8, 0x1f2adefdfe27e85d],
    [0xd24f21762063639c, 0x6969bb2505ea8eb9, 0x7754c24c15ef12d3, 0x21026ca9e6c15e7e],
    [0x94bb0027683e4ee7, 0x1edcf46f5e655c2f, 0xe71a25c67f0bcfc7, 0x257dbf207d8341eb],
    [0xd2e12b812c53c7ea, 0x1f1326146b6588ad, 0xe4b1ad88a0c3008e, 0x297fc3567244be37],
    [0x7fa7df4957c388ed, 0x5477b540d7532528, 0x4b50cee8df2f4f60, 0x2415eeb2220c514b],
    [0x7bf51bf259371921, 0x8ab026c7397b5482, 0xa00e868372dde24a, 0x2d1efae2ebd54890],
    [0x9b99995a8e355615, 0xe1bfffc39e91f17, 0x30a40310d8081c76, 0x1f82db95c67b46b6],
    [0x99c17b7823592c6, 0xb8132b6247e43a1d, 0x6a21658572796f90, 0x2e817c24b08cf934],
    [0x39adde2559592592, 0x23c33995784d2288, 0x9f2a8be7d2fa5832, 0xd064dee824928d3],
    [0x7af6be821ac9e37f, 0x3cf2128061940496, 0xe3b77fce64c0122f, 0x588c5021b24ccae],
    [0x210166e9c74aa0bf, 0x70c3b40b4bc0e22a, 0x5461c7eb21794e37, 0x191e71b4c665fd09],
    [0x4e26b4b934dc9713, 0x15efefe2d640a15, 0xc6e1c2a782ac0503, 0x29cb8c9eb9c4cf5b],
    [0xd20a0286366ff74b, 0x80edbcaec959ba90, 0xe98b774b636e1dcb, 0xec1e3897905c451],
    [0x2dafeff334d5469e, 0x8a18485f93b7b89f, 0x876603834679f4be, 0x2ab786b7ffa171bb],
    [0x2fdef7b8f1e1542b, 0x6d670cff609fc1b, 0xd02f871122b8ef02, 0x204bbc64ac07613f],
    [0x5ca6b697a87aba5d, 0x536bdc6f8969c3b, 0x851f746626399b3c, 0x1172cb8f6bfe22d7],
    [0x1ec8c8405f74ea79, 0x7d4c14c95a9ce2e8, 0x6a59d2946dfec1c8, 0xcfcac24e6e99ac],
    [0x8207d04302a7378c, 0x5abb30e1d460dc23, 0x6493e08da731b2e1, 0x25787156a9a5949b],
    [0xc674b2734840fe38, 0xf9649c46f374951d, 0x79ed10d769d337a, 0x246ac305851f4cc5],
    [0x60df039de8b23ff5, 0xca70e222aab6ca7e, 0x2cc772571cf8da1b, 0x2db9cf683684eb9e],
    [0x3c882f57925403eb, 0xfe339c7aadc68b23, 0x22f6d8d8d8c53d99, 0x166212a0652ef46c],
    [0xff90dffc677d1e66, 0x596143c611e1b2c8, 0x9198f7f58b905563, 0x98c9afc1526b572],
    [0xf664e5706301a599, 0xfb364547edecef5b, 0x9956563785d1a727, 0x2358d524ec260f83],
    [0xabb9f98fdebc91fb, 0xaa94dc4f6f2e40ba, 0xd3380b0a5e52c1e6, 0x1901be07be45b4f8],
    [0xff17bee681dfd12e, 0xa07d86401532aafd, 0xcdf8bcc22c05309b, 0x92d99a4ade91479],
    [0xfb5437173c71e1f3, 0x5f0f9af3a93769f7, 0x9482d1c130eb70e0, 0x13af4969555a7dd6],
    [0x8370f17655614a51, 0xae746de4aaa1c832, 0x6476d0dc373481f4, 0x28d3aae218aa0b29],
    [0xe564d71ae1ae7647, 0x732886959d25d677, 0x98c5ccb7e7a9534, 0x14311125be69290b],
    [0xddf8e7fbe30b0bb2, 0x3450bb35ed147e4d, 0xac9a981f567c5766, 0x1454832e2ed446d6],
    [0x3c1c991af56736b5, 0x66f8a99cf11a3708, 0x22358083da749bb0, 0x11055b5dc675e97c],
    [0x38717954ce5f1720, 0x911f31be20d8a9b9, 0xfec32590661140fc, 0x20b2ab6a88373738],
    [0xb10133a9f6ce3d68, 0xcd39cc7094cbf806, 0x12500bb1ebad0e10, 0x2171b013bb62ffa5],
    [0x9e46f8c03d6896e5, 0x251ba846c97091c9, 0x67ca97ac691f2808, 0x13d9ae507067e98e],
    [0x39adde2559592592, 0x23c33995784d2288, 0x9f2a8be7d2fa5832, 0xd064dee824928d3],
    [0x95ed2b52d72e5d1a, 0x8fc00b2c98fc57a3, 0x19d394a3218aaf4a, 0x292e6fe5591c8863],
    [0x36538eab6d3c3134, 0xdb14ee448532800a, 0xfb2d9d8922252a1e, 0x2e555bbfc78425a4],
    [0xc51dcc547a7c7f44, 0x5f01d17102671767, 0xc5fa7039cbface5d, 0x4b797fd25379849],
    [0xc52e4785781521cc, 0x99fb9a5a14ff7361, 0x374e99bb9991ef43, 0x2bae8ca68718d729],
    [0x1de4369defb5612, 0xbf8572fb7b308101, 0x7c2147fbae890884, 0x5ddac723ffda806],
    [0xe36f3844ac67d77d, 0xd22736ce4e102cc8, 0xc46dde550fda171e, 0x1ec8e17ebce279ad],
    [0xf695e2a8fa0b83c9, 0x78f9883b5efa10b8, 0x8aa35126491d6e6b, 0xdc57f55bf67c1b6],
    [0xbc1a176fde11b23e, 0xba52bdfc7d5df18b, 0x58b8d91bd0b7b168, 0x2d3f4bced64b64b9],
    [0xba49d6d8d97a663, 0x5d1c816495a4f03b, 0xbc7693395dc35707, 0x2f10a6d7f877c814],
    [0xed3bb0e17051bc67, 0xe4826c83c1961332, 0x25cf78c898112fc3, 0x144b40fba529a8d7],
    [0x5cc48c16db6cf3a3, 0x340523e970daeceb, 0x5d36d65ad6d0ca69, 0x9708226dc1bcda8],
    [0xf7064f499916c154, 0xae1b334c7948e008, 0x152377add553852d, 0x1bc361e4208a017e],
    [0x1abf906be69a1a10, 0xf42a54823955d50d, 0xd6ca4e15ccce886e, 0x218d7075025c32b],
    [0x6cb39a13ab18de9a, 0x52691cf5c9996dee, 0xdf8211a51e75bc9b, 0x2c36609083d08ad8],
    [0x92715c4b41261112, 0x6795bbfa76df8614, 0xb691d8a5e2171773, 0x2ee25f7ef8fed9bf],
    [0xb8ea9f1950e78e5c, 0xae326071c0d74703, 0x14818c02e1535c5c, 0xe02bebff560e49b],
    [0xaf941e6b56b35d82, 0x4d3e8d643d4e8b65, 0xf68587e8aea897db, 0xa8e935c09bec781],
    [0xf46ea7670af9e69c, 0xf4f46709f7e8a2df, 0xaf15e4dd7785fdf, 0x24e4c8a3880c0795],
    [0x9a14d39e2305e4eb, 0xed8d09522f48ddb1, 0x8136fafd42ba36db, 0x2d680316bb7fde98],
    [0x841873ce4830a5fc, 0x3c50260f1fac77ee, 0x820f7960e519aa33, 0x151fc0242f88cb4b],
    [0xf388f322b86a173, 0xb4258340f87258c9, 0x80717d8322c463e7, 0x2a930a97b841a26],
    [0xfc708a23b0af75bb, 0x1bc6c0f8f7a70a3a, 0x73624601b5478280, 0x1a2d3151d244173a],
    [0xf01f4ab3f4e65a8b, 0x4542cbb3c6ec6970, 0x6bc0b3568c21ad6e, 0x30ff291a9139cab],
    [0xa01326501552075f, 0xa1581aa5cb1e1c2a, 0x9c786cf42056291a, 0xc6142a38ef9e370],
    [0x39adde2559592592, 0x23c33995784d2288, 0x9f2a8be7d2fa5832, 0xd064dee824928d3],
    [0x3d40a883887aa0e4, 0x6caebc38cf4b6bd6, 0xc431e91e2d96fad7, 0x4478466a9c94183],
    [0xe9e9020be57cf9d7, 0xf56dfa30bd8ee38, 0x120339c683d1243e, 0xd2089c7872a5e0d],
    [0x6f740989bc71522d, 0x79e5e5b105c549a, 0xbfae699393ca8771, 0x7835f14f646ef12],
    [0x6c006c15ba7a830e, 0x930f788d23294bb1, 0xd66f988d76a56425, 0x2eb138b8e96a72fe],
    [0xd2c7d0ad708d57b8, 0x1b0ab9e97409be48, 0xe4d613d16960139d, 0xd65fc46a4f555af],
    [0x74b98db89b1fc3fc, 0x159baf3f95d68f5c, 0x36af03889077124e, 0x5cb9d6fb0ea5d7c],
    [0x88d5cdfd5fff3732, 0x81b32176cab3dae7, 0xf12fcf864b7dc9d6, 0x1228b6eaa51d6497],
    [0xbcef6aa3d92e39aa, 0xa475c783989734c9, 0x358ff988fce0aa0b, 0x2c74a92c8d33ab0a],
    [0x743a88431b34dddd, 0x9c3e1c493ef70ff8, 0x2bbbe62d828c95e7, 0x1800e5ce9cf840e3],
    [0xf21bda415478ecc2, 0xd37fb5eec4bccf5a, 0xba4bdbd48feb903f, 0x58ff670014f46b7],
    [0x2579c7a9f141c61, 0x9ca1eb4616db1bf4, 0x7fc527d61e6d1a28, 0x21c73fcf9ad1b010],
    [0xd3f9e303b58dd0c0, 0x78e3ecfa9247509d, 0xfa1a90d83b0c5699, 0x2dab5b1427ba55d3],
    [0xd8a8f85f984486ea, 0x7cc129dd74580eed, 0xff6e782cf470c7f3, 0x13b905c6ad4434db],
    [0x718e073a6a3ff993, 0xf1e30a5f27659b5, 0xdaf9fbbe3cc6329b, 0x16542d30db773c54],
    [0x28e2953c2a70965a, 0x168f587113685600, 0x46c26f65328fccca, 0x2fb9d2c332734cfd],
    [0xaf746f47db5292e7, 0x6a6bc4abe45d7b81, 0x46455ed0879da119, 0x1bcbc6b5cb163a4],
    [0xe2f0e21a1a6a3d6, 0xc981f6bd04db9e15, 0x74e021add723164, 0x1ddcf7b0e9bc54a5],
    [0x7ac4d2c3e545b7be, 0x5f49e32a7efa7f29, 0x61701a02e1dd02a3, 0xe49ca4ac1a6893b],
    [0x433ad9e14ca8dea4, 0x13880137014437f7, 0x82f7030227677e50, 0x268309dbe2997496],
    [0x70934a2ac6f629ca, 0x3beadfe07666a7f9, 0x5ffc4e05cecec60, 0x1bac242faedaafd2],
    [0x77ae572c3c69cdd2, 0x76fc92a34d1a4dca, 0x8868cf732f9013b9, 0x28e2305a80b01647],
    [0x880e1466bec0d0c6, 0x54a84eba20c56044, 0x93415b33aeceb485, 0x145de9f18f59e36a],
    [0xafb3bff94fe92e13, 0x5f57259a6ece8a15, 0x85fa202a23350e94, 0x1acb49bb5f0d3c93],
    [0x1189445672f974d0, 0xb1da9f64243c55a4, 0x566b208120678707, 0x26add7d9ed34ea73],
    [0x39adde2559592592, 0x23c33995784d2288, 0x9f2a8be7d2fa5832, 0xd064dee824928d3],
    [0x5ee3a99100ef028, 0x2c4c91fba4ccfa8a, 0x8d56e45a45a4eb20, 0x16051748ed54c9e],
    [0x1913a035c1a975fb, 0xc365ed1f85a41e45, 0x13a8365e8be4d93f, 0x1a51e1a75bd54dc0],
    [0xe73e42cf19bcdad0, 0xdc590c2b06726631, 0x64d70e45be99a786, 0x26dbf99d17189839],
    [0xf0f1c3dbb5c7540d, 0x2ab2dafd730d149, 0xc12b82db868060fd, 0x1132f8662c582598],
    [0x46bdda7953270fbf, 0xf3196166849307a1, 0x9f4abb60b6b936b, 0xd20abd1b87b2dcc],
    [0x33e08baf79df94f6, 0xe5eee1a76770859a, 0x3d0386523c2b447b, 0x1312f989d76c6cf9],
    [0xc18cb0a7bb1ee3fe, 0xf83eb5e3a6539a22, 0x865b37cb9fb6fcbf, 0x28c79fe778abea],
    [0xe6a7e819610005de, 0x97ac74616e3efcc9, 0x6c9b669d36ba8e07, 0x19b577228ad8e6ee],
    [0x1d4390896ac4a40, 0xadfe95428d029823, 0x30a215abe32065d7, 0x152dd9b7778d8941],
    [0xb42a64b4e9bf580f, 0x69e64880abba447a, 0x60f47207eaa4dbf7, 0x47e6db3dad97b],
    [0x426a22c9f6360d66, 0xa32306664ce92ada, 0x49509ba57e9c915a, 0x16f9ad0b2919753c],
    [0xc7181e8930598142, 0x81d60883f6f05163, 0x5761183fef2292d5, 0x2921d7437d72b223],
    [0xf9ab27ed7503d0df, 0x8c2eb6ef8f084426, 0x823218380191766a, 0x361282380fd4190],
    [0x6e660915b34b9ffb, 0x1ec5d3beafa17d84, 0x30224ba10cbf4c96, 0x2661574bc57b6eaa],
    [0x835116f71f861931, 0x2b313392062d70bb, 0xd03f14c5142231a8, 0x2b50d64c6224a9f],
    [0x499ef99c14b929dd, 0x79619dbd7fb937ee, 0xb869ff361bdc226, 0x2e43be4ca9acd39a],
    [0xd4c9a7a946acdbcc, 0x349165eb8bd8837a, 0xc731799c95185ebf, 0x7458dcba827b917],
    [0xf4682ddbde00ffee, 0xf1604d14da21e2cb, 0x1654e5c4b389ee, 0x2e565ac1c012c9b7],
    [0xc02a984257a4a31, 0xf72ff37afcd535e8, 0xc76f370802650571, 0x2be1797b6ee4dab5],
    [0x533467574cd5b637, 0xeb368b6a672eeff9, 0x79f5ab95a1ae07be, 0x13df73795946cbab],
    [0xace0c520d5daf9ab, 0xd2fe5f18fc8dd6cc, 0x5b64624f4d65b15c, 0x271f3f4aa9790301],
    [0xb22b9f2ed4c2bacb, 0x44c6101af23bab61, 0xd30f98e26acdd05b, 0x45e4c5231979d20],
    [0xd268fc86e3fa1e9a, 0x74153cfc06fe0c62, 0x95cd18e40ea2aeb0, 0x265d868fd9eb4620],
];

/// Part 4 of the sparse partial-round rows for width 13, as little-endian limbs.
pub const S_DATA_4: [[u64; 4]; 256] = [
    [0xcc0b4a3c9a2b2dd3, 0x387e69c7d9cc4aa0, 0xf39ad351f8e89255, 0x1c2acbdc137e6a8a],
    [0x39adde2559592592, 0x23c33995784d2288, 0x9f2a8be7d2fa5832, 0xd064dee824928d3],
    [0x8a5d2d960b4d799d, 0x8154a64e4f000efd, 0x510458712484b5a8, 0x18b4e73dbe4d9c83],
    [0x15589e589c77c691, 0x8018a3b0ecbfb2de, 0x9cd7f813089c26f6, 0xe2fdde439a5f89],
    [0xab41ba3b158b7a5a, 0xd1dcc221704afc22, 0xa6fd61ba2e73b5ac, 0x4f2b25402a03ac3],
    [0x2101127083df270c, 0xf1a21bb7403cc315, 0xa7a3083fd7336f59, 0x2ce09acd57a7c33d],
    [0x3ec0c9270880a5dc, 0x61486b9781deecb7, 0xd7b5ca4ecace075a, 0x1dc51c0843736ba1],
    [0xf64c7ed59d518993, 0x17e43f1277878e25, 0xec08285665474ba4, 0x24c96270bedcecc4],
    [0xcb242ce0f80baa9e, 0xe6b196466301266a, 0x9e7754e07fb26140, 0x1567b25ea10aa763],
    [0x9ac6e78c25c313bd, 0x365d6e42a551c944, 0xbf60e3fbfc762ee, 0x1b8405e13b06a119],
    [0x711ad016a8f75883, 0xf6e9c4e1b3877eba, 0xaec1458d5e8fb9d2, 0x1ae7fcaa790af2f4],
    [0xe219f7624f63f918, 0xf419096e19c41a27, 0xda573ecd6cf6a765, 0x230ffda3cf04839d],
    [0xc5942dd1552c99c6, 0x7cf531e5ee167154, 0xa28c83e01769d47e, 0x1c821c8db96ded0e],
    [0x89035b399cd84ec9, 0xd3bb0ad0f65553c0, 0xcdbf636ff35aa519, 0x654e2ce5de54485],
    [0x3c7fa278feb71244, 0x1b797dcc910b9458, 0xa70c21616c002153, 0xcfb61bad637440e],
    [0x64ee3d3fea7c11e5, 0x1b71a3bedfff56df, 0xdaced15c92f83157, 0xdde58a2d3a19ca8],
    [0x54fe25b95540345e, 0xbbb862ac2f132700, 0xe7ec84c86576ce61, 0x121e952932b7e95d],
    [0x3279d86e55f87fa0, 0x3bf77e2678d9ae5b, 0x31a2adb24c6c9f22, 0x77174b4e7741e41],
    [0x2c928bf09ce7e5c2, 0x9a77d3927234620d, 0xf47f0962a63d534c, 0x5d3eb46a0d9a2f0],
    [0x1fb5d9f358cb51bf, 0xd8d3046b61871dfc, 0xf4a13aea5a54ba53, 0x246f5a9f3cb48cf1],
    [0xe509bb3a117b19fa, 0x3aefae8d13275135, 0xc7d4c6482d41ced9, 0xa2e62faa91efb3d],
    [0x2080053784c20256, 0x42a9855e60ce7856, 0x93fe3468dc8b98fc, 0x21eaba42c45ccbed],
    [0x8611fec230994d, 0x44a03a28dfbb2f, 0x271b086131dba3dd, 0x1e2cfcac1e924008],
    [0xa91a168f1a993059, 0xe04d5e92795a914a, 0x50e2e2abfc4953d8, 0x2c97d275a36bfdd2],
    [0x20bbfe0fe7ac6c93, 0x989c12e249c09009, 0xbb57b3f4eaed9fb9, 0xb1d67cb1a69e071],
    [0xc499fe4603df979f, 0xe4542c805f29ded8, 0xe7c2d6a3b55d5092, 0x1f0f655f87c30461],
    [0x39adde2559592592, 0x23c33995784d2288, 0x9f2a8be7d2fa5832, 0xd064dee824928d3],
    [0xf80685b4da9a9962, 0xf0b1353c2e1bcc80, 0x9782fbff77ff6a2d, 0x1c9a4884cf6e9cc1],
    [0x86d9650d044cda52, 0xa08a138d18b1bce0, 0xb8bbf080e779c81d, 0x2031dbc469ef5d2a],
    [0x908859876db87376, 0x28d1e85e1a8fbcb9, 0x9fe290206a846181, 0x26d411c661443edb],
    [0x5151c5b828acc8e2, 0xed3bba605bb05ac4, 0x4351b5e8d4d37ca1, 0x21083c2f6587d4d9],
    [0x5dc60c7cf0fe818a, 0xe42167e2b24ba624, 0xc5d79e776cfbcc3b, 0x252aa5220ba089fe],
    [0x21678d0a997af128, 0x4e69295863d59c12, 0x3758de1e586058a2, 0x15aae505663cafd8],
    [0x8dfb722eabc4b4f7, 0xfb7b57e4c35abb9c, 0x36aa38fe08be53a0, 0x2d8e7eac5ca32054],
    [0x98a69db08f44b97e, 0xd065138190d0c360, 0xf6da84d54af30e30, 0x1d4b0338ca8f97e7],
    [0x3942b7485a5f82f, 0xac7ee024b541e4c1, 0xb0b19585c52f4dc7, 0x1af838255d6973d5],
    [0xf27fe98531f1ba11, 0x48f6be9a56ade53f, 0xdaac5aa39aa79eb9, 0x301b9339d3863e05],
    [0x8048020944852c7c, 0x21dd1f5987bcef85, 0x81c43cd5da85f9c5, 0x1e03df8a06e41617],
    [0xd0b41bd736ddb7ac, 0x66ca47d579403d64, 0x18a3ecb0d013c719, 0x2caddd2b00b5b15d],
    [0x7a17ef6a0e4adf1b, 0x91d848aa3b60202f, 0xe2c4349ce1099853, 0xb87a369e470ab99],
    [0xd826f998a6c92f, 0xde202d9607b171ec, 0xf295c65c4b234aab, 0x21814ac94b3e32f6],
    [0xaa8d89299909f352, 0xa6f2314f2c9216d4, 0x53774564fa631d8a, 0x29b1228b3346a799],
    [0xf9b75b4c5f48d270, 0xd9f909bc5a6d9361, 0x371f4796181b9c0e, 0x1a5e40ae67493e00],
    [0x2ae42a935f454e3c, 0xa066d6e5ad8d169a, 0xff5d74fd02f19cf0, 0x1ac79eac0e5bd64e],
    [0x14b9e062d0b9c65, 0xbef99da952ea6d33, 0x349a25bda9ff38fe, 0x1cc1592df343627],
    [0xf92a2fad2058ec10, 0x208434d53428628b, 0xbde03d8e2b323db4, 0x246ae2ade241e443],
    [0xf1efe69379f786f3, 0x125eb2ed841bdd81, 0xf315aa97fa121430, 0x18d00d6e9f9ca8e1],
    [0x75c77682801b54f9, 0xfcb62711a840ed0, 0xb29cc4e4fd24a29f, 0x2a147b464ef73244],
    [0xbf8f5d31861ae140, 0x40c15708089e2be2, 0xb10d7767135b8416, 0x30188a7d39b26173],
    [0xaa14bb0ff8cc5d94, 0x8ef5164a1e118250, 0x5554b6de9c01877c, 0x1cf70ee72aeb25c8],
    [0x3649651c286967ac, 0x93e5038113619e78, 0xabee1351c8083c83, 0x2a27cb25999e82f8],
    [0x39adde2559592592, 0x23c33995784d2288, 0x9f2a8be7d2fa5832, 0xd064dee824928d3],
    [0x5dd7b942b3898e6e, 0x51a2a2641b9dd9ad, 0x9b9cb04a43140d2c, 0x16f3b44e7a69563f],
    [0xb1f25c4fd32c5b3c, 0x1874ef693336b606, 0xa7c5855a1c3ae00c, 0x1ef9dba4b9fd5363],
    [0x8c05882280b75515, 0xfc63c9356edefc70, 0xb6364bd86883fab9, 0x3be108cd7d21185],
    [0xe8e089f36b25d766, 0xa0e0caeb2dab4014, 0x94bd234946f326f0, 0x21631c522c8f4583],
    [0x86a426bc9022fa9e, 0xabeda742284d6f72, 0x37233bdb9f3eed9d, 0x2b469c787003cdcf],
    [0x7357288e1af200af, 0xe4d15d729a48f7af, 0xd8f6a521cae62224, 0x409e474d3841d04],
    [0xf7df18c2a498ac32, 0x9c20b3aebf0ecf4a, 0xec61b7f3306cfd1a, 0x239db39ca9b31c21],
    [0x6c4ecc1ba1bdd8fa, 0x253e09f8337e457a, 0xe5c97f9111ca779b, 0x3062a14d58830bdf],
    [0xc1bbaac2bb5c12ac, 0x6c3b99f53d664fe6, 0xaeee58d8bd6bd81, 0x22e8958e08ed5402],
    [0x13ec94c9309c2201, 0x9f24d94c33a35544, 0xa87dad5aaf8f24c8, 0x2689f68f2ccab8ab],
    [0xe3bcf6edfb4c472, 0xe25a567bde1f7dac, 0x80c16b4c68e93eed, 0x7ddcd764dbf3370],
    [0xf6a54b8c30b24e19, 0x392fd8cf7b8cc998, 0xe1aa0d4c7dd56cc5, 0x293c704451a1aa66],
    [0x2168d4cba27906b2, 0x58368feea0ba1766, 0xec4a2dc0a168ae2, 0x2cbffa47d2c28e5d],
    [0x22f4edbd48318946, 0x60c70eb25fab5f11, 0xa217fe46cc26ae74, 0x208c5ef46b238da],
    [0xeee292a4c3484c8e, 0x32017ac72f262626, 0xa02f4c15ba1d07c7, 0x24fe6c2e5f21c4cb],
    [0x6830fc8601afa196, 0x1b90fb3a4346f4ea, 0x43108cc1d1337179, 0x1dfde7457418ea96],
    [0xf312f7f05c1e732, 0x8b3f53973e9d191b, 0x32dde5342776cffb, 0x19eba78507eb7f43],
    [0x12cb61be1eba411f, 0x1602cd23684b82ba, 0xff5d3f3b7aa0281e, 0x2be0c4e211e0892],
    [0xb2c8cb2c3893c11a, 0xf0d8a2180b04062e, 0x8088909b1ba59670, 0x9cae53a049def9f],
    [0xe5a50f15ba24a957, 0x13c8e1454b54d298, 0xdf5ba5fd0b3b009b, 0x2e2adf7ac157ffad],
    [0xe96e203f6d611945, 0xdf76e53ca4071a30, 0xcaa23c6f979a77b2, 0x960206a1b5fd7f8],
    [0xe884618899d61929, 0x1aecded73dc4bab8, 0x54156b3da294eb59, 0x1709ed8801ed661f],
    [0x9208531b1dcf7de3, 0x423e77fdd8734887, 0x7dd352008ad46d6c, 0x213a699fb63a980c],
    [0xa8ce1c19cad53b49, 0xcfa3420dea49e713, 0x5458e78471e9ef6f, 0x372666a5afcbe6f],
    [0x39adde2559592592, 0x23c33995784d2288, 0x9f2a8be7d2fa5832, 0xd064dee824928d3],
    [0xd15af216dbc9251c, 0x2333780fd30c0c46, 0xa933527a8912f284, 0x17f4a43fbcf12508],
    [0x886488cf10cef463, 0xd79ca38594b9049d, 0x3d5b66d4d43b95af, 0x2c5744c9ae7f6d8c],
    [0x613d2194595f4476, 0xdff4f7b2a1a65894, 0xb0ab7dea2b559314, 0x2dafa6f3c603c4c0],
    [0x34eb7626c1d82217, 0x96dd6f876ea5eb48, 0x5ab37c7b38036262, 0x2f7218004fcb62dc],
    [0xdf3c846e32176cff, 0x3171b943d6853730, 0x52a7a392a6cec8a6, 0x6dfa42020ea1666],
    [0x62d85731ec090826, 0x6864953a9eeff56d, 0x1b83f41ccfe5e752, 0x23f87a617f1e8f02],
    [0x13456fe5b2185861, 0x2968ffc0c686741a, 0x595bd22ae9327c2d, 0x1cda3fe46da8e3f2],
    [0x1a32ef5050969007, 0x79a050c0186221b, 0x956eb74e2f983eb6, 0xfa8625bd9c3af09],
    [0x2a02f793228af23b, 0xfb0166ff9f6bda81, 0x76e6a6f48060038e, 0x111520b0f559fe24],
    [0xddfaa62289ed7656, 0xf76e594c5ac2c3e5, 0xbd3dbc9f2ccfd1e3, 0xc23dee172299609],
    [0xee02047d57c0c218, 0x6f6b5f8c5b71218f, 0x20e7041acb94bfeb, 0x105f42aec8a1b60c],
    [0xc66e51b73bc39147, 0x87db1f6f1807cc7b, 0xc2378fedef3083e4, 0x299f915785e8adc1],
    [0x6faa5d95e9397d81, 0x176fbc2e92ede700, 0xdb8a0bd89373dd79, 0x1ef3836591f803f],
    [0x22588de468c59408, 0xb2f93044338ac231, 0xadf3b7ddca9ec408, 0x1a2785db4d9a3409],
    [0xfce9b64bc866a216, 0x31e480585fe7ae5, 0xbc63d85db0a41c4a, 0x1a6ead13bcc1a5af],
    [0xf62144f57eb2d414, 0x8e9f4e3ed56f9834, 0x6eff22ff3aa80537, 0x1f5996a035a30609],
    [0xc9f37c86af431840, 0x7338433a9bc2546, 0xfb4daf8ca4e4c876, 0x238498bc99b623c9],
    [0x227e62db6b9a56df, 0xb78ee048f5756082, 0x450dbc5e96ce9489, 0x273915d627d37ede],
    [0x9c585ee296fff9fc, 0x4a017810e97ffc16, 0x57a20c8d84812b98, 0x21c11618cdbabff6],
    [0x2fc07ee5330e7cf3, 0x4f6e429ce794db08, 0x1f1eeb4926647caa, 0x203e0bf4be8fe2ad],
    [0x24a4adb4fdf71df7, 0x52ad05dbe4b5bccd, 0xc4c4f8cb5c09a562, 0x294ba4a28f070410],
    [0xbfe5419d43f8bbb3, 0x4010de844540a9b2, 0x2f7872035f81eeab, 0xe403cbeb904d158],
    [0xdfb2417fcd3829e9, 0xac126996f64f9f6e, 0x756a21db1a6ced3, 0x27c86e516b80bede],
    [0x65bcfcf1a1e0d8f6, 0xf7f689426b3384c, 0x247d225b0931e331, 0x26c02ced384da01a],
    [0x39adde2559592592, 0x23c33995784d2288, 0x9f2a8be7d2fa5832, 0xd064dee824928d3],
    [0xc66fa5c83b953441, 0x608540c1c4111989, 0xa66d02ce14454c7, 0x23c28b7d92721027],
    [0x7a219dfb65a3c946, 0x911c01f7cfcb428, 0xfd9a0e5ff2cbf87d, 0x175c47171e64b9fc],
    [0x6529297780e9f143, 0x580419e380019cec, 0x676c099284f87987, 0x2b0dc6705e72fb39],
    [0xbfe056b50498347, 0x276e1d1f058acc01, 0x182c596fc4bd8de, 0x2cd30e4b096b2ac5],
    [0xe6528a2f4e436184, 0x2adf4890ee9ab0bb, 0xc8edaa0f2b003ffa, 0x213717e1ab4fe340],
    [0x20605c5be99bf975, 0x6a2bf1a7e44ad9a9, 0xedc20f5be85f4117, 0x167ce1eb87442469],
    [0x8238aeeb73501797, 0xa6950199f9a3f3bf, 0x3046dae49db97858, 0x2c0874699b7fbae1],
    [0x9ec361b37cb5c8d1, 0x7420a140d4136566, 0xae826b619cb79c9c, 0x1a565a10adafab01],
    [0x673b48e8ccd1d4d5, 0x7dc717b411a4ebdb, 0x56ecc73119c6ee32, 0x2c8c416f3d619244],
    [0x67784ef8fb986315, 0xb3548f0159ee3614, 0x54f05332b71fe925, 0x267fd0effc349523],
    [0x4fda3571df5ae523, 0x277758a60db4a9bc, 0xbfaff55de37d2835, 0x2bd251e35bedda84],
    [0x439af6e1e55375a2, 0xab1f087b58aacb25, 0x61028542457a0da3, 0xb7a443712b33fcd],
    [0x17e8ddafd46cb5d1, 0x47ba03857394f55d, 0xacc718f19ff26c6b, 0x2404133570623570],
    [0xdb5cbaea4f392071, 0x96430641c4dfce40, 0x68c8b0789dde6537, 0xda485d8a8d3a979],
    [0x77d10645a23744f4, 0x7ca82a2e9e58df71, 0xfd5ba06110372916, 0x2146d7115c9adecd],
    [0xefd71d7fb10b2895, 0xe5b70b5774a12d17, 0x5de8995ef9904c3b, 0x2c957d723ab55cfa],
    [0xc93bed02f4bc5be6, 0x736889eeed8ce7bc, 0xc5161c498e0613bb, 0x80bc3e98f6ec909],
    [0xf3a091908ae780cc, 0xcc104a528c02799b, 0x2761e024d6cb2678, 0x19dcf73cfac4b44c],
    [0xebfbafd12a02e49e, 0xdc9cdaf70fcab9d0, 0xdbf402c9bd634d4b, 0x199422fe9fa1f5d2],
    [0x1e118c16a23c6aef, 0x9d6941b839ebf51e, 0xc3a2240a37ae6030, 0x1a4077b1cf49f41f],
    [0x311eeccadd89a17, 0x3b1b45f0e1747f68, 0x3c1e7f33878ac875, 0xe53e5ebd64346a8],
    [0xa5becba73535885e, 0x223c35e301db1dbe, 0xafafbcae4f99e77e, 0x5aeff75c7b60d39],
    [0x52230e243fff309b, 0x17595849ac829e2d, 0x186d5dc379c2826b, 0x1f9764d4b036ee9b],
    [0xdb602a804337a436, 0xf93942071463eab3, 0x99df6fd784df7709, 0x1cbd64e54e94a14],
    [0x39adde2559592592, 0x23c33995784d2288, 0x9f2a8be7d2fa5832, 0xd064dee824928d3],
    [0x514e62a2116d7188, 0x76bf7301c355e46d, 0xa79f653057c0851c, 0x190f2a683d41d29f],
    [0x3dd17d76e4abcd1a, 0xb909340f8a3445a, 0x421d0b5bced75e4b, 0x358bdeb885279de],
    [0xcd4ef65e3abfd281, 0x13c40b0c1285a2ea, 0x52b3fd62793827e6, 0xbf755f699b7e42],
    [0x2275278c53842496, 0x7722858ab51e3a48, 0xc4aa18a49b916227, 0x26753dea98885ca2],
    [0x3cfa86d9cfb4754c, 0xa9f8320f7c3adf11, 0xb599acbbb270af82, 0x2c3bb4bee55f665d],
    [0x152c092dd477b00e, 0x8b187f26ce17e4, 0x1444f804e9814260, 0x149ba255f720eda1],
    [0xa80a78870dab3bec, 0x6340dac56062762c, 0x3cafeda3081b7609, 0x21344c682b1f3145],
    [0x6e4fa161b1e06e52, 0xf0b8a1d7c6a793d6, 0xe16f501101b9b577, 0x11b6c7953ad5ab4a],
    [0x5bbf9428ae0b0209, 0xebfcabd0908e7414, 0xe22bee9a13fa2155, 0xeb1bee9bfa6eac0],
    [0xf3f77a3a08aaf9c7, 0xc114d9e02aa610c0, 0x6ec818807d30706f, 0xf89e6f767ef77ce],
    [0xa75837e8301b8dfe, 0xc8abb4a336ad417e, 0xe8ccff2950b0a3e8, 0x18a72ade9ee9765d],
    [0x4f09f4d135f6fed9, 0xb6f872ccf8405c2b, 0x93bf645bd88f1169, 0x239367bf5652c2b2],
    [0x11872f306722792b, 0x1ea4ca958761b44e, 0x1b8573b4714b2038, 0x239747dfc96f5ef1],
    [0x17b55b8687e40b31, 0xdbb01485abe1ed57, 0x9c21d5362bfa085a, 0xee7d51ee88f040e],
    [0x30c6b1628a077051, 0x58e85daf5fa83d62, 0x6639f61d0c22d768, 0x216277a3d920e126],
    [0x4a50d1cd44d0f9f1, 0x3b55026e3d5b3832, 0x35d511d252e2a1dd, 0x435275566269737],
    [0x9bd2eff2ea896b39, 0xdd05c08a52cf0730, 0x244e74fef07cda6a, 0x16e435ebcff7dc72],
    [0xe68555e4494a867c, 0xa3c62ad115a5d65c, 0x9ac5e01bb13329ce, 0x128020b31dce80e8],
    [0x82fc78056262eb46, 0x439aa167caa43172, 0x502749bb1beb46e0, 0xc840cb172dcdbb1],
    [0x417f009c46fac67d, 0x60d6d41e9c61425d, 0x928db174369c82da, 0x542b0852563c2bf],
    [0x2ddbbcc047411884, 0x835a3e554e5101a8, 0xb68e526d22af55fb, 0x22452f2d9043bcba],
    [0x86ad3a2ca97c0ec6, 0x8c928475503c312f, 0x8c582a84c158d5d6, 0x11b919c0b7abc6b2],
    [0xfd060e06d0bd01e5, 0x77c9379f4569bd3e, 0xec1db0b08659adb1, 0x2d1e6445ea67dca7],
    [0x163256d39a4e4119, 0xc6780dafa9fac55b, 0xff35e008a0a309c4, 0x251ba02f642cd5e0],
    [0x39adde2559592592, 0x23c33995784d2288, 0x9f2a8be7d2fa5832, 0xd064dee824928d3],
    [0xd8ecec957ac50f2b, 0x3f5e0a409ff3f095, 0x4c9ac2458e58dc1c, 0x2f09e5f58f262c5f],
    [0x1548c60c12aa8359, 0xda9ae91fe8ca5e5, 0xa27229e970e54675, 0x1315b742c5de4460],
    [0xcbdc4c28c9e3ac13, 0x7cc8a972dd900d0, 0x3eda04e490c818bd, 0x60e6ecb8723e79],
    [0x22a81b08bdcf26a9, 0xd6af473133203d0d, 0xc348f1b194f4f978, 0x1677aa582feef6e],
    [0xc5e632983451f457, 0xe0cb36391672b3d, 0x649b08f8163f849d, 0x106e8e67c7213d1c],
    [0xc157353a88567c8e, 0x2ca1b3924bd2fb64, 0xb7ce52309a3d6d3a, 0x218baabcf27c9046],
    [0xfe490b1e190f2b10, 0x1a9f719b3a661cc1, 0x134f255adafaab3d, 0x2b2717d36fdfce6e],
    [0x7e9b2cce934eb482, 0x96050af1e7bac362, 0x4c5d568e4f4cf535, 0xb0b2c3bac72604b],
    [0x155c14a41f2be20b, 0x5225e47ea40bbc78, 0xb5678864acc464e9, 0x217a15b51fce1bdf],
    [0x344e2935e14b64b8, 0x35dd6a981b3e880f, 0x8686f7dd7be9c444, 0x1ba5231ae9c79394],
    [0xf451cee209f14177, 0x9c138b17d2089ba9, 0x4684a22eb2e7bff, 0x253e39215ddc07e6],
    [0xe8227e212354ca64, 0x606535776a260664, 0x837a2b2b94f8eea9, 0x291dfe1da2b968d3],
    [0x81f4981bba63122d, 0x72473ae8ecd8d1fb, 0x9b7e0b0901805183, 0x1d3a7e1e04c422de],
    [0x62b46269a1cefb04, 0x71513a7c15fdd69e, 0x1abe4bde579165d1, 0x217d25ca6a61a655],
    [0xd01e22c6e00f4d34, 0xec719fd951a7337d, 0x6c7ac7811c3b8ddf, 0x1d65f0b99037a850],
    [0x198efd7e4275882c, 0xc63a495d41649761, 0x61c70d8a4b8dbc67, 0x2288e24daba6872e],
    [0x25bb626224493360, 0x6f4b333f1526eb6e, 0x2816797a866eb812, 0x29811fb1aa54a259],
    [0xfcd30131f20f00d9, 0xfdfe87c5d07545ce, 0xc9f03c50e4da5e64, 0x2d8f4b4f41d9abb],
    [0x1db1af78d7108e4f, 0x614cfdd841e0d6ef, 0xdbe41059439b0e35, 0x28d7a552fa2a86a8],
    [0x1babdea12bcad5c7, 0x17e24ba7bbc16b33, 0x201908ba1a671a91, 0x96cddca2ab8c7ae],
    [0xd75e71747a10dcfc, 0xbca4a602c8992be3, 0x8b769e13b718b560, 0x23e387be7e8d63cd],
    [0xc45ff15d2462a60, 0x1c036a4123740807, 0x7ec1069c065121f5, 0x1f77dc7b1dd84dd],
    [0x6a57f2554f49da9c, 0xe8f672a14fb10567, 0x34ff4c1574654563, 0x7765f1e2b28bac],
    [0x6fd2f22593b51e9c, 0x4d7e1ec18a1bb36e, 0xef8287fe1362ced7, 0xe1356ea8e8068b1],
    [0x39adde2559592592, 0x23c33995784d2288, 0x9f2a8be7d2fa5832, 0xd064dee824928d3],
    [0xd5e1d691d3403af8, 0x9192ea76d1490b6b, 0x51f899de997bdbfc, 0x9d1f2588934f145],
    [0x6db4899d1d3c4d72, 0x61b590d846ebec48, 0x9acca3bd48ae38d7, 0x1d48285a000b66b3],
    [0x494103866e256c47, 0x84005d607165224d, 0xd3661ac6e0898a70, 0xbc56781b0480256],
    [0x46c11a2a54556b06, 0xdc118d232bd1b916, 0x8b2ebd34daf3524c, 0x88867a8bfef1eb8],
    [0x53790fb09db7ff36, 0x9287291d69bd509, 0xd293fee8615186bb, 0x29938e679bf6bec4],
    [0xd8b907b1d73f10d5, 0xdf87e2ac9f86edcc, 0x202b3eb91f500e8c, 0xf3078e2dba998b8],
    [0x4e27b2f7d2a17108, 0xaa115f572fb2da37, 0x357b1dcef1e8816c, 0x2feca0ea4cab180c],
    [0x5ce7d192a0a70765, 0x8dd0360c8dacfc12, 0x5029ff45f528f42c, 0x19a53e4e1a8aa7a1],
    [0xe2c72e2fb42e9351, 0x71969e8ba27aa1de, 0x432ee9fc03f0e628, 0x18ac83f6bde2bd90],
    [0x85fff1f8ae4e3881, 0xd09442ac2858d037, 0x17c4521b17c8ef65, 0x2cf369a36a64a81b],
    [0x8fbe54e04704c55c, 0x15019a090285fca3, 0x2ce6c6bb79f1f61f, 0x16d6acb3b445a2dd],
    [0xb4acdfa43fa1355, 0x48aff4fef45b5ce8, 0xaa06bdc9ddb3c29f, 0x1bfa4fdd27298d16],
    [0x4263d278bc2de531, 0x556b3887f54d6308, 0x7453a996931ed19b, 0xc6d30e4b903bdb9],
    [0xb0e6f09f2d363c24, 0x163a338cc2d47992, 0xe3667d2dcc1c480e, 0x173ca2118a8b85e6],
    [0x63d4d392672506f1, 0xa435c8a9bfe2ef8f, 0xacb40da93cb739f9, 0xaa825097578d91e],
    [0x331d229eb61e032d, 0x5d8f0afb23f1a87b, 0x172258ab1fddded2, 0x2869d724819d09fb],
    [0x3fd1d927ab7b0c42, 0xc7163726a6411797, 0x5f714183536dd2ce, 0xfa3dc0a38fbb92e],
    [0xfdce833664fdd244, 0x43fe818595195782, 0x9c77dfa15f2201bc, 0x1f0f50f138ddd25e],
    [0x226d0cdff09f4507, 0x706a6487a0651c7c, 0x23057e5bb85facaf, 0x1a8bd852a6a8a26b],
    [0x4ed31889729807d7, 0x9c73f96103392c5c, 0xaad1286b4a362f7, 0x20d045353b22be41],
    [0x1309bdfa6a0f623, 0x3b3d316fe1b167ea, 0x7e277f97424cbb15, 0x2830a23a528b1c1e],
    [0xd64c0b13d25ee63b, 0x614124d5270015c7, 0x79cbf773af4a2f27, 0x1f8f3d87ef47676],
    [0x490d2020f3193683, 0xcbc7e27419d2cc24, 0x1ab1b8915d7151d, 0x2843847fdedc9071],
    [0x5984a67ae61537f0, 0xd7715bcbda1ec70e, 0x6e9b428d29f70978, 0x1fd3dcb19e924d22],
    [0x39adde2559592592, 0x23c33995784d2288, 0x9f2a8be7d2fa5832, 0xd064dee824928d3],
    [0x63c9d2da07a231d8, 0x7714e205f2c4d0b6, 0x1511280dcd9a4d2f, 0x22afc2a215e589f4],
    [0x3fbbfdececdcb17e, 0xe53876e832d5d001, 0x2e27a41f92d7a65d, 0x256117a01b4903a5],
    [0x6c4957c63c1377b2, 0x4336103a375f5d72, 0xa51db28bca97087a, 0x1bd505fe2027ac17],
    [0x965c697938a9e3e, 0x744df8b7197e4441, 0x67b6d83f639e5eb0, 0x1370beeb7c62a693],
    [0xf81a0694bbf3baa2, 0x4e4f066b2b97a357, 0x8c2f44c34f1058f4, 0x1b23ee8b14826985],
    [0x1b6fdd86b62b950f, 0x5b738abb440c9f22, 0x51a3c6d09c4590cf, 0xc11837fa1548612],
    [0x2c24bea41b1b6107, 0x9bd391e954f5333c, 0x6279628ffab3e332, 0x1e41b6d8be08383c],
    [0x5637d960f35b3d11, 0x1367584d0c12a64b, 0x39b84f0e635a4859, 0x7921a5cebe4c7e3],
    [0xc5be3b98aabb92f, 0xcde9197db3968116, 0x58ba30919c0f0e52, 0x14969d5919a6d85c],
    [0x4fbfe6e81c1f7a34, 0xbafea8797a6a8128, 0x512a8935eaf23b1, 0x1d6e48aabeb20986],
    [0x2615427831f86803, 0x4a0c040f5b39165e, 0xd8c660bfd5a48b4f, 0x2e3ce888f840d34e],
    [0x80f226e51042cc26, 0xa837264a10f482ae, 0xe3abfe0d27482c9b, 0x3383db94e9d7ac3],
    [0xb1c993b52a42e46a, 0x8efe46346ff5cf61, 0x993784fb566e6d53, 0xaf89e9e5eee9173],
    [0x1493e971b8b7e7e8, 0xd80a76f4f68cebb6, 0xda93741eef43a8be, 0x1ef03efbffd92cd2],
    [0xb7d8a01330395345, 0x19ae54f0582d9e05, 0x2d6577de3245f382, 0x274067b2a0422295],
    [0xee4ef9ff4ba486a9, 0x3cf3db728da538ce, 0xf30d001bbecb30bc, 0x16ba37bbec0a43c8],
    [0xcaff3d01642b8c2a, 0xa7f282201b47781, 0xcbc4e020a0372a37, 0xce229b9c289b8e7],
    [0x2af024ba8678b5e3, 0xe9a9d0b06a2fb5e5, 0xdd613c22e836ee2, 0x2f80729c7338be1c],
    [0xe031f37b6710dc4f, 0x6d5526a9f9c59a50, 0xa117d13ebbfc1fe8, 0x1cdc6d2ae50c1329],
    [0x607ac33c7e94650d, 0x568c053266ee1126, 0x45d83f9ca4c5ac9a, 0x2530a467ba204bca],
    [0xf439a6d7c00011d2, 0x715c6717d794b69d, 0xc62e17b71ff98bd5, 0x371303ff0fc68a7],
    [0x9d693e704c552bf4, 0x20789b5c1be3f292, 0xa0c633930f4011bc, 0x378305e20bbf96a],
    [0xcf6826f855020d24, 0x88aa34197fbae582, 0x5e7d5839bca9008, 0x1a3636567c1ef30],
    [0xe59c6aa35c0b17c, 0x608fa474299b5c7d, 0xe0b6e03fa2652cd, 0x281e2a06fed1cf5b],
    [0x39adde2559592592, 0x23c33995784d2288, 0x9f2a8be7d2fa5832, 0xd064dee824928d3],
    [0x7d0598f080236a27, 0x88f0c2da109e71d1, 0x939674b7ef137809, 0x2b3d84e5c61b2b97],
    [0x7c6503d7f146fa2a, 0xc40bc1714f767f32, 0x17e5663dedd89fda, 0x29e2b9bdc8dcba36],
    [0x2ce95a23894806e3, 0x23505999ad5916e5, 0x7e2bb068168cf18b, 0x216f7ae6ccd7bac9],
    [0x5f9ec1a5599a9b55, 0xb249314023b3856d, 0xab0f74ec935567a5, 0xe8d298cae881515],
    [0xc2417a81989f2e46, 0xb0f422dd0db2fc99, 0xcb03591997bc8812, 0xf1e1e45f847],
    [0xfb1d12954047a302, 0x9de357c4780bf705, 0xc00de73247be0cf0, 0x5132e56caac6351],
    [0xfd51191e0f03489a, 0xfe75af4b4065dfd0, 0xcd4782c13dce297d, 0x2c1f7dceb1501489],
    [0xc5e20f38b455d4e0, 0x6a0ed26f717c556d, 0x4a66586631e88895, 0xdd3f24843220bcd],
    [0x6a469139d132844, 0x9df84a9c1c6e2bd4, 0x23d22f0e9e5c1588, 0x2f32240433923064],
    [0x6dcab2e17ca28503, 0x641ff06df5984a92, 0x2a759e04500a1c7d, 0x2b572f7e5208c5e5],
    [0xe2e4690083399907, 0xb6c98ed3cbf72a21, 0x53456d44c461a763, 0xb1988858934c8a3],
    [0x72466bc091c5c3de, 0x4313660ebe1b1604, 0x4929f8ffe5592bf6, 0xb0ce76163a25f72],
    [0xe742efd4ebe4dc3d, 0xcfa28eb42d13bede, 0x3e94e438b4cd066e, 0x173b128e873c2dd5],
    [0xfd4b5f5bc26a6629, 0xd2e92e2890af2c1a, 0xb514df36097c3dd8, 0x22f7d627420794c],
    [0x84ebd401938af261, 0xa77fdec3d663fc68, 0x3e313eba7690883b, 0x1f343201df3060d0],
    [0x150b5ed9708929e9, 0xd4fb7b2c00959bde, 0xb912d4327cef96e6, 0x2472c968883b169a],
    [0x1236f01455438526, 0x58de60144cf2f514, 0x202f997bb87ee930, 0x134c248a14ff13c4],
    [0x9643926bf5c8e814, 0xeac74e4ef2f54ce0, 0xe6070f905d6b7d08, 0x206b6361e6139253],
    [0xf475d9aa7c6ec8bf, 0xe554aaab93fa72f9, 0x6e0643b161e7b318, 0x2db2cff5528de7a2],
    [0x16a621928d014571, 0x39445478e59dccab, 0x250aa7ca030e3a74, 0x25e05b8a3965fe0a],
    [0x111283e773adfd1d, 0x5eaf9dbc9092f063, 0xb4ebe974da7140a2, 0x2a8c5a77c61420b6],
    [0xe2ebed3adbcbe2d, 0x2b6d9e4783f96b71, 0x68983125b86f93b6, 0x13389b7bf63bef6a],
    [0x88d55c89083395db, 0x90455881080a8984, 0xccb533fd62a0d430, 0x2731cadff040622f],
    [0x92c3e4160b0e12c, 0x8de3b94062bc810b, 0x1c5851f88bc285e6, 0x1886f751efed6e40],
    [0x39adde2559592592, 0x23c33995784d2288, 0x9f2a8be7d2fa5832, 0xd064dee824928d3],
    [0xf3d66e2977616a60, 0xa32f62b2d864c5c, 0xca96d69dfa3a9ead, 0x1a1de7217c640816],
    [0xa04577b59fbbf100, 0x46e72879baaba7aa, 0xe5432f55c443964e, 0x21bfb88e0d52b7dc],
    [0x811570bdd8954a11, 0xba50dc735d815a4e, 0x786c96401b61f687, 0x1e1c9ba5f1413166],
    [0x6c5bc00900a3377c, 0x6d034a42cdb62b40, 0xbcdb8018c96cc8da, 0x378dd10a31675f7],
];

/// Part 5 of the sparse partial-round rows for width 13, as little-endian limbs.
pub const S_DATA_5: [[u64; 4]; 256] = [
    [0xcfaf56fe2f8b318b, 0x38eb4b27ec15e8f9, 0x7fb31d349b2adb5f, 0x274d6dc05dd550d7],
    [0xa72c2c37235e7d1c, 0x327c21aa4de5c111, 0x857e89e99d2ca97f, 0x24fe1bc328cc95e0],
    [0xb32dfe407e636057, 0x6ea67075c023fed5, 0x69b3ce7287396000, 0x2a98fa37a16d2f83],
    [0xe43e8c8c5caec4ab, 0x976c14cd0354ee88, 0xf445bdf5b8a92021, 0x1097f947557042ba],
    [0x727ebfeb37a38077, 0x6acba8467999f5fb, 0xc13496d0f5922ab3, 0x7734a2111d925ed],
    [0x4e27c102d63eef34, 0x5bc46132b2c24da, 0xb9b3bde9046f6a25, 0x2fca881eadd43cd4],
    [0x40d539ee1156c1a2, 0x7e440940b77db47b, 0x666bec758d6036c1, 0x27c952411017987d],
    [0x33a78a798caf0f28, 0xc24a6ff2ee0f5b97, 0x721b7a0f9154b359, 0x1b329d612f773e77],
    [0xba9cd4a202701686, 0x68581339ba3dc1ac, 0x576cd18b90275823, 0x2e165793b072eaa3],
    [0x87be14f0bf58774e, 0x8ad7c74a092860e2, 0x5ba6ba1f5a7d9a62, 0x218665404266df9d],
    [0x6c7d6ac6ffdaae80, 0x44a4c33ac39ebe03, 0x2bb3798fb2b3a06e, 0xf42176ddc2c84d1],
    [0x51e34c51bebc1dcb, 0x6d8ea9eb0e4055bb, 0x614ab099787fe65d, 0x21dd47b40fc1e454],
    [0xbba0bf6d2b87b265, 0x81ad94ee6e5c519c, 0x42a63c1ab7f713db, 0x7d3a26830f8b143],
    [0x8c63a46f744edbaa, 0x49270240189d4427, 0x90a71e9c16886e00, 0x13a106fb1b648c84],
    [0x2cdd8991c3b56d60, 0xfaec3d556f975631, 0xe09134f4ad823df1, 0x1caa59825f86da2c],
    [0x805a38d04020426f, 0xace6d194ee7d7829, 0x31e7a8c20a7e1b48, 0x15cdad7e7f405034],
    [0xf1f8fc7d31c117c4, 0x519f1fd8b5bb7ef7, 0x77ca180b9b522abf, 0x35c2a4fc2c424ff],
    [0xb585b4e8cbbfb4b9, 0x8130ed34725d1605, 0x814613d2390f8ea2, 0xae2ec57575aeeb3],
    [0x7273ef1ba5262edb, 0xf6ca5fff1b0fb260, 0xdf999ea5cc80de0f, 0x1ded456ffe562fc6],
    [0x438e2ca6d0ed55f5, 0xc613d3f104e107d0, 0xf5ac1c7a3a23b6da, 0x2ae307a4f4670d11],
    [0x39adde2559592592, 0x23c33995784d2288, 0x9f2a8be7d2fa5832, 0xd064dee824928d3],
    [0xfa0f05ab45d56306, 0xaf900cf4b22d8beb, 0xd0e0cf627fee157, 0x17570a15226e3cb1],
    [0x6105ffdfba14106, 0xfe3f40ff31873dd3, 0x3b07b59be1f747b3, 0xec2cba7becd9f7b],
    [0x12cd5cafa1f75f87, 0xc9e1bd0d95c2554b, 0x34ebe87a02338ec4, 0x115a73bfcecc700e],
    [0xd6316c5ef48ab, 0xae411f75de7cbd43, 0xe536ac91109d8940, 0x271882e1e88d3a90],
    [0x262e46fda6ecd899, 0xfacdf2adf148618d, 0x87e39090fedfa11d, 0x28d797cb88e36cce],
    [0x1df24330ad02d8fb, 0xe87e7d1c8e149727, 0x56bf3cea7cf26e39, 0x903165475cdefc0],
    [0x9e449b5a0370afb0, 0xdac92220d99e69ef, 0x278e90552e8162b2, 0x521dc03abcf3c15],
    [0x90c679e64c34a2ed, 0xc07c898df6cc5781, 0x212593df11501a79, 0x1f80e4baee043beb],
    [0x7806ac13faf127b7, 0xaabb0b63a8faddc6, 0xd2775206b849588e, 0x1133a6e8c5d0315],
    [0xe84bf341354918ab, 0xdd0d178f9cc56d78, 0xe113b24d113f0cc3, 0x22af22b064becada],
    [0xca7b6e69c77ce94d, 0xf24ab831ba252806, 0xb907a7ab7442742f, 0x16f91f204c2bd84f],
    [0x949bff5ce1c71ee2, 0xc1cde4461b7d567b, 0xa24f3da1f29e9101, 0x1d2c02fb8f7780fa],
    [0xe471fecb73562363, 0x5691562dc5b8bac4, 0x147b74439decce13, 0xf8e78d6c9a055af],
    [0xabe6f9586bd47844, 0x80094173ee2cc808, 0xff3a72cb62261098, 0x134cd1d2c86faa3b],
    [0xddbf5c8c7fcf625f, 0xf6a8f1bcf95ae9d6, 0x7acff0cd78bdf614, 0x1b9edce59f36f20f],
    [0x91656febef65abf3, 0x178846e5e209b824, 0x3d0a92a118f30d42, 0x5a6771daf1f2b8],
    [0x5661e0d44bad8096, 0xfe3792fc63bfbdd3, 0x1b6479b90399ca9d, 0x1508cef9d99fd03d],
    [0xb70f85fb3bb0d455, 0x8724ab30026f25ad, 0x17598f432aef5de0, 0x291cc5c3f65ae5bf],
    [0xf66965bb8c9734d4, 0x820d3bfb99706528, 0x5b71db8c04cc468, 0x2c7723a807b39447],
    [0x417b2ae290832dc0, 0xdc2f0a6beb861bdf, 0xb35def3624957074, 0x9bb171d7c99e8b5],
    [0x8c37fc2280d71ae8, 0xf10c2db1c770e33d, 0x8391b577e295dad4, 0x1943ca5707ee772b],
    [0x190cc8e939eb22d0, 0x5880721019214e00, 0x663abd65b87004ad, 0x1d7852588ccf0c51],
    [0x79d58aa96c08ef8c, 0x3a2d14413c511b6a, 0xa8acbe733a64b733, 0xee871118f882a42],
    [0x2776bbfb4cdba8d4, 0xfeea1703c3c0404e, 0x40dd85378ca87078, 0x1ae19930e0837541],
    [0x39adde2559592592, 0x23c33995784d2288, 0x9f2a8be7d2fa5832, 0xd064dee824928d3],
    [0x6780821d7894fb5e, 0x94bd6a309b8323e0, 0x7e9e7dda8b1ae9b0, 0xa7c934a0347f0de],
    [0xe761e7277e71d30, 0x23bb6992a7b1bf8f, 0x572e5a750260efe4, 0xfcfbe728f5c1f06],
    [0xc9ed35ebdae1973d, 0xcb86afad866a330e, 0x372e380cfa924e65, 0x170dca9f0f6e9057],
    [0x8ec3d6e559bd89bb, 0x6a17e251c7357e70, 0x5f92568450a4f17e, 0xa4a917f344bce3b],
    [0x9c3bd7b911195362, 0xb49ca5df42cbb99, 0xbeafe0fedba0ea99, 0x127ff432555f7e08],
    [0x87c74eaf525dc1b8, 0xfd605a3598fbda06, 0x1623071777b10b8d, 0x65b6e437cbc026c],
    [0xe4d9284f7d9a8a5, 0xb05c4bdaffde640c, 0x25ff36c3189aedc3, 0x2faee8e6ee2f7bdd],
    [0x4c485735899241d8, 0x732b652836e66a95, 0xa9c12eabef13d07f, 0x1294fbb432ac3864],
    [0xee73dc7fe66deee3, 0xb43ac6939d6c4fa9, 0x62bb7ddf9648bad1, 0x2dd3ab4f03573f33],
    [0xb018856793e74b4c, 0x523faafdd6096642, 0x60971aeefb2ebe0d, 0x2029b79d88ff15c8],
    [0xd5352d30f7c0b85b, 0xf1b99f880a002f6a, 0xff8c8224ffeea657, 0x2e5c56ab0934eec6],
    [0x65b883114d44220e, 0xc4393d61283a825b, 0xb6742858809073a5, 0x24888adee436dd67],
    [0x7528de236f44eb11, 0xa76379865a6331e, 0x24d331f4f6fac1a2, 0x1fb80c654292d64f],
    [0xc4582889e1470039, 0x6cd4528da4e1f6cb, 0x5c6ef02dc7d37f31, 0x3e8ff048f23e53a],
    [0x9da05733c2a351f8, 0xb56bace43f67e2, 0x1665985e13d800d1, 0x23a4cda868726fac],
    [0xe100625225a04b9e, 0xfa2d3aaad114f589, 0x6f1e361bff6b9bb9, 0xe25a1b132ba0bf7],
    [0xf3b2c6f8b10e9854, 0x6d305b982309a004, 0x4a37bda4e52ade86, 0xf534c5ad59c9d1c],
    [0xce657a373e1e4b91, 0xb684e40ce07749cf, 0x2bfdbf4f3f88c1b2, 0x1269fd5d157f5bb6],
    [0xde606a45ffd3b4e6, 0x2b78ef00e03b82b5, 0xb42677c88d298344, 0x1fb70d1ec4776f91],
    [0x3eff6ef496d7b1d2, 0x3e9530505cae2d7a, 0xc85a0651edaf5f, 0x29eecc22d8e5725e],
    [0xd161c3ee32f7257e, 0xa79cc9d930a029f, 0x681e8aa1e3ad4374, 0x2355c9e8fd9fe0eb],
    [0xec5b12a0ff6f6a7a, 0x2f4a07140e8f3563, 0x91b118f5e116727e, 0x390f12f658c6d92],
    [0xa3d87c23b25b233a, 0x17580a77f20924e4, 0x3eb486b96b737dbd, 0x140256a4a9cc33d9],
    [0xac8cc75b2daffe46, 0x6140539c712cf4c2, 0x2cb8665b0c08f89d, 0x2d2be9983d14c81d],
    [0x39adde2559592592, 0x23c33995784d2288, 0x9f2a8be7d2fa5832, 0xd064dee824928d3],
    [0x6f9abad820f1d420, 0x54983ef0927dc6b2, 0xc2db79358c3e67d9, 0x2cdce0a94aa8c1ac],
    [0xb13ff2c4cf008443, 0x690c04addf9a9164, 0x4ea9a6ff88bd8148, 0xf49eb6531ab167],
    [0x8b8683e38bcb7205, 0x467acd303d0da5c8, 0xcf112ed79bee8ee1, 0x26403014e3cc48e1],
    [0x101e534b51cdea4f, 0xd11abbe0a99f464c, 0x647ef7a42af34741, 0xc5f602b9f3fda8e],
    [0x1e3b13b12cf46a2d, 0x7fc5c3efc9590132, 0xf98c347335a80caf, 0x18ac38aa55e95efe],
    [0xf23b02e5c4678519, 0x6a1ad54f61b9503, 0x6328f0c37f5cbb3b, 0x2b1960c727b10b66],
    [0xf2ca127e53ce4879, 0xb61b3e1f5e553413, 0x1c73f7e26c2fe6a, 0x16f13b53b3c6a47f],
    [0x918e0d808b1236c7, 0x5a57fe0bfa253631, 0x29dc04139b88f55a, 0xfc4ef669021d86d],
    [0x101768aac7ada57a, 0xffe1537fc773c21d, 0x86dc5af125eb83c9, 0x8834ddf96f673a7],
    [0xd863dd45e0672508, 0xd1befdeb99a9c0ac, 0x7dedb88a15b1461c, 0x233f13c0ce9b4886],
    [0x49dcbb725903edeb, 0xa16a90e056a33b9b, 0xca65ac96aff19cbe, 0x2099a619097f9565],
    [0x183134d279f1a90d, 0x4123d4f0aa0a30db, 0xe9b84db6ae073571, 0x269898a890a0eb11],
    [0x6174f5d9cd49522e, 0x7ce3bf8dc01860cf, 0x25fb06a4799bf7a0, 0x27fb03bad7fa46a6],
    [0x545b38d95fda103e, 0x706bffc8326fb088, 0xedddd243d6966152, 0x1f0a5bd99fd979d0],
    [0x47fe73b728dea05a, 0x8c522db79c1c3fb8, 0x552d1aeb3f2435ae, 0x1b082065bfb2e151],
    [0x7ebff992226833a, 0xed0213c1a881adf9, 0x2a8312520b868084, 0x196840a15a65ee46],
    [0xc21d0400f386049c, 0x5ce2069e7d62a307, 0xfb5a3b059478ce7f, 0x1bb7d7bc4ea0f7b8],
    [0x1b0431d8ecc7410d, 0xaa45d0d3b9c9c2d1, 0x523c0677e0f3949e, 0x2c0b3d687226a36e],
    [0x81ecf9ff0062cfa9, 0x869b142405d39677, 0xedd8fc843d8130cc, 0x2a22096acae1d75a],
    [0xe2e04cb090ffb97b, 0x4fd5f8f66dd2c5b2, 0xc5b00b775f33925b, 0x11d3df41e1d31751],
    [0xa72e849856a9cc67, 0x9d9a6929a5efbf58, 0xa4a34cedcb8e3eca, 0x29d0fc08ded332bb],
    [0x8ae7ac8c00c4ee83, 0x2c4c6c2f10c68ee9, 0x1046bb170c0ddb42, 0x1a0ae664c389dbc1],
    [0xbca5dfa0794e5845, 0x424b926c38a2cca7, 0xc7f2d5b9bd92d6e2, 0x6f3c77706973637],
    [0x1e532061af856a57, 0x5a567a3e7d13ac5f, 0x2918ba840e0809b8, 0x56965616b2df66e],
    [0x39adde2559592592, 0x23c33995784d2288, 0x9f2a8be7d2fa5832, 0xd064dee824928d3],
    [0xdef6b523960afc93, 0xe329dced7092f941, 0xf27f61a5de96abc2, 0x2dfcf11eef61a008],
    [0x2a9e3cfff340d500, 0xb3eddc016ae0e15a, 0x7d4e51498f0828ee, 0x4f73f5afb82d229],
    [0xb51405a9f958ac93, 0xb7f40b37a13bbd3a, 0xdd821c4a4d1acfe1, 0x26290fc492220c99],
    [0x10037e8ad080317, 0xa1ac5d261732ab2b, 0x2e4f5ad0f029ccc5, 0x7b53809466ff55e],
    [0xbccc06ac7a942e26, 0x98abf27dcd473ede, 0x939057774b2ecd1f, 0x80ca5188ef7378b],
    [0x4c01ec7dc2bd47e3, 0x5cf4f8113fb0a6cb, 0x8b43157e1964f372, 0x2b6b01434a47ed18],
    [0x8915288d5361475d, 0xf670e58a021ee2ac, 0x8e15746349b56238, 0x2c2106b5cb401bd6],
    [0x4a33d300a5eb6c3, 0xab25535f1fcc8fae, 0x547984b890d7e794, 0x88ee10bba489475],
    [0x3fb6795a75d6971b, 0x3e0dc0d6002e19cc, 0xab28e432c789fa3d, 0x29108e4588512ad0],
    [0x5363aebbcedde7b9, 0xed7a90f2843d23bd, 0xed21c06ec5351e85, 0x241c4817a914814c],
    [0x39871472fabc551a, 0x23c57bf3aec5a82, 0xcd3d81e80d9a81ad, 0x22ecde699dc8dbd7],
    [0x92f983599daac6ed, 0xfacdd8686ca5f171, 0x3908bf43f0512048, 0x20dccbfe3e84b40f],
    [0xd81824cf43c7218a, 0x4d6b8abc6f2602bf, 0xc65960d848b06bad, 0x2c96389333c5459e],
    [0x46ace09d650c83e6, 0xa58bb80306a3bc27, 0xe73beba612e62083, 0x28c59dfea6fcab6a],
    [0xc005df6d20ecdd40, 0x7212fd8f1e03a8ef, 0x99ecb4ea12e45402, 0xdd478a62c6871c6],
    [0xbd85b0d7df1300d5, 0xb523711ea398e7d, 0xc2d439748c0d77c, 0x28772e7be45e36b9],
    [0x34ebca290d667a4a, 0x111f778072d4a573, 0x89e76e1ef0095d7d, 0x2a37740039be0743],
    [0xac3c2b036c6c2cef, 0xad92ea8ecd819d7e, 0x3ddcf2cbd3fb56fe, 0x2f37845d94aec2d6],
    [0x5cf4beeedf90ddbf, 0xba80a16dfda1b5, 0xf4db9dacf405612f, 0x15edccc5a7e695df],
    [0x44d582ed07b5f46a, 0x9f86e07a21ac3b73, 0xeda4961644d51326, 0x2817134845b5ec6a],
    [0xa0c9af689234b6bc, 0xfb0b4e6ce24b7a1e, 0x4140b10962d9435b, 0x1ef5390790a2a321],
    [0xab36fa45860855d0, 0x1bd18ed4b9b8ecdc, 0xce6341d16dd845cd, 0x18427d6f7cd9bf7a],
    [0x81a4a1478f198bae, 0x720454637bdf51b2, 0x6db74db7eecc7ff8, 0x9de33bc7e2ef78],
    [0x8366bff5706110fa, 0x99412fd247a59f77, 0xfa4df7a6c5f6d105, 0x5d2c63aa2de4534],
    [0x39adde2559592592, 0x23c33995784d2288, 0x9f2a8be7d2fa5832, 0xd064dee824928d3],
    [0xd0bf2e2fb26eb142, 0x1637ec5e99aaea18, 0xff482751cb761dcc, 0x23aba695154e684],
    [0x58a487ae3241584e, 0x7dbaab5a87268d81, 0x543112dbd8821291, 0xba208c04ac11ef4],
    [0x8cb05f61ad9cd776, 0x54f393accaca4d5b, 0x4cac1e6fe54e64af, 0x1cfed0b58000d3ef],
    [0x787945634d09c5ae, 0x6fb536ab65ebd535, 0x9fcb15d1edb328a7, 0xba1df4ea027f834],
    [0x74d21717da99b408, 0x1958ecdac9b0658, 0x945c8768805ce010, 0x1e136b44ef141c91],
    [0xf8d5bfa1778db69, 0x39b465b98307fcdd, 0x605c6df2d802e1e5, 0x20643e3f3c68b214],
    [0xd5194875ee74936c, 0x51bf8db531e37eda, 0x2fab6b1cd719577f, 0x2127d0e7d940b313],
    [0x2c97f695b080d5f9, 0x48eb0ba6a1735745, 0xa1b88bd5636d3bdb, 0x17249cdabe9c9db4],
    [0xe4f5f306fc9e3336, 0x2e3458a6e0ddb143, 0xa1da954566ad3032, 0xa6b94822882ba1c],
    [0x7c3b18a999cf79bb, 0xebf7c4bbd8708d3a, 0x7d82adfbd24aae41, 0x2486410df8f9b481],
    [0x8f73ad351ba86aae, 0x1a3d218bfd812d00, 0x5e7766bf7620d279, 0xc0b7684e8ae4684],
    [0xf62825059b8521e3, 0xa6ffc215653dbcdb, 0x4cede13ecfa87cc, 0x97d3ee321f0db8c],
    [0x7f76c5828aa16531, 0x2b99a7891cdd38e1, 0x4854d7957865e236, 0x2bff71dafae458bf],
    [0x8df2dcfad72e296a, 0xccdf3c30f15a85a5, 0x806bcaf16fdb68f3, 0xfe15f8b13351058],
    [0x8ebaf667d41e53ca, 0x1990930c1aafa405, 0x5f688c75ba812ff8, 0x2bd586480aa18c15],
    [0xb5fef3b81d628ee9, 0x28be6eb1b59cff91, 0xb1dabf0473e2455f, 0x2b91cb72fc45f6dc],
    [0xee11921184a31a71, 0xd0e877756e2ee1c, 0x8a7c3f21366e0415, 0xcdacb5ed20f1866],
    [0x94b4427a2fecd5b8, 0xbd46cee120504a8c, 0x1f559752a2fab086, 0x9239d69b632ebcc],
    [0x2a267d6fd59ca0c2, 0xf53137b01a23f48c, 0xd5741b3fc61e1ec6, 0x12bcdb6b20dc77d3],
    [0x9c96fa29e865b0d, 0x54ba74dc313b09ec, 0x2ddefc2af3bf8f80, 0x11ea73b3f04690ce],
    [0xc983dbd7d29eab53, 0x85022ace6d9cc6d9, 0xd2f065df90fbc7a6, 0xdda6467c64b0249],
    [0x3dee64c22bc3ab02, 0x65bad163a8f10142, 0xa43d992947c0262b, 0x15d7c61e8a8308e4],
    [0xdaf3de7bd9d5380, 0x8ebd606037710108, 0xe06be5dba7ca6364, 0xa825acf9f09d653],
    [0x894982b7aba08a66, 0x8dd823ead27629d, 0x892fd40d4e97ed78, 0x2dfbdf5d427e2fe6],
    [0x39adde2559592592, 0x23c33995784d2288, 0x9f2a8be7d2fa5832, 0xd064dee824928d3],
    [0xa6870754281db559, 0x34d528a23ad82b8b, 0x364060646de0e335, 0x1c9ea68943d8c846],
    [0xd1535f7459648a98, 0x67e974352926cb3a, 0xb9a3bdc26ff03e38, 0xa15008aecf43fe4],
    [0xb5334e8e6c44ea88, 0xc6e133e7cb04f0f7, 0xd0daac95c36e606f, 0xab17a8ff84f7fa5],
    [0xfb3814b3a8b1ccbc, 0x3fe878d5650aeea, 0xc016cab0bee25349, 0x1495d888378f7e12],
    [0xf90fd93dcedfc941, 0x3636ed53f22651aa, 0x124f50ddbc4c2d94, 0x29a054aa447d63b2],
    [0xd96bb0dbee6a3f47, 0xaca68e16154c2d98, 0xadf3175a2691c288, 0x395b15a827e37a6],
    [0xc36601fe3413ea6b, 0x6a47eca6216c1d12, 0xa62b25ecb4335424, 0x2f47066bab9349df],
    [0x951b6d654b804012, 0xb55a1f06c826b441, 0x8c0aff49a041dce0, 0x1b1ad81eede52f8a],
    [0x990157f50a8f3fec, 0x3ea21338c200322, 0x76110b34e7ef630d, 0x137f27f0b79cf884],
    [0xfda110084d120349, 0x605144f82b3adac0, 0x336160757d135e1d, 0x131ff85cf21b1a68],
    [0x29aa8c6f266f4a85, 0x7b1357d0ec01f8f3, 0xc3c7a36a8476548, 0x5f848d592e921b],
    [0xe4b8a0ff74bfdf1b, 0xc1a094272744d32b, 0x475413e72f68817e, 0x2f8999412ae8dcb4],
    [0x49f691288f33e261, 0xdd39d0f68c06ddb8, 0x1ae95c4062868751, 0xb42e032237f3bf2],
    [0x140d3420dfad31dc, 0x91cedff0d949606a, 0xdb0f2dcbf92c3611, 0x199c8b45cac96bb0],
    [0x7bbb1ce2d5a85f58, 0x1f5ab9ce9c42868e, 0xdab719bcfb388937, 0xfda38b5f5bd1100],
    [0x491d585d541a086a, 0x399d479f7e2193d2, 0xa002b3983058c3cf, 0x1bbfe63a7558b0e9],
    [0xcfb4549ac79cb34a, 0x55483854e817b4d7, 0x840741f0cbfc95fe, 0xeb005763e3b3d55],
    [0x8862b09bf3230ece, 0xf52af3e1cd395cb, 0x2a3fc6aec242a7a8, 0xae77d49a777e5a2],
    [0xed8baa958480e5b9, 0xea6de1de597c4f26, 0xe3478c8238b3872d, 0x25c1db48d2561608],
    [0xfcd35b31de21b85e, 0xe7b29818f3d36e08, 0x8ed07cea87050866, 0x150bf881bbd32306],
    [0x75fc9bd1c7817c55, 0x2e73575f6040b3f7, 0xd1989d6ec5e98381, 0x2e9d25423c272],
    [0xc1c85a059db33cae, 0x50a7b92efcfaa532, 0x9f11e48f4fccbfb4, 0x229ed6f052976bcf],
    [0xe94af9615ae10f44, 0xa608b93fbde21c2c, 0xc64773239e8f8c1d, 0x3ba04ce72a78038],
    [0xa9db66c103a99abb, 0xb29fcb62ef939915, 0xa36102227dc147fb, 0x2ea6dd6483856ca2],
    [0x39adde2559592592, 0x23c33995784d2288, 0x9f2a8be7d2fa5832, 0xd064dee824928d3],
    [0xbcc50f08693db587, 0x3170fbf57421be8d, 0x77b6e95b7355cac0, 0x29e75237c1ee6bb8],
    [0x514eafd9013a2dc5, 0x2e942d835192a98c, 0xa38827cc4b62b1a2, 0x137b76a84a30e906],
    [0xf8f6e32dc55e0277, 0xa5c1c545af827bb0, 0x7f15b612c405069, 0x1e2a3dcda8868ab4],
    [0xca6aa9f816e9f28, 0x83a16dbc1142cf76, 0x6b3cfe9400cb5d85, 0x5b71c5d1613cd9b],
    [0xb8d09feb7bf6ed31, 0x9a71f825effc8415, 0x78a7cb29db181e2a, 0xa7603ec122e8e01],
    [0xfd1eb260bce13112, 0x60926039237ef579, 0x662b78d9a820c256, 0x12e4a61dd3e9834],
    [0x7fa9d3abf88cb373, 0x6045696d8f0017b, 0x9dea31744f2848ac, 0x17c89d0343777a47],
    [0xc79423f349d6dded, 0x976f138797f19634, 0x5acd6fc281bb1263, 0x104a21bdcb8e4924],
    [0x31eb83bcd4f63805, 0x96696ee2950f97cf, 0xd2e36c872a9757a7, 0x1e6ad3ab8037be],
    [0x569b3bd1685a16, 0xa282c2d1461e3dc1, 0x60a913af010da4e, 0x248ad6966b401086],
    [0x1162e65242ea4d39, 0x7c32b3fa15ed8ffd, 0x2545938d41bcb3b3, 0x1b4d21b426441caf],
    [0x90530fc851ea1fd7, 0x951c249645ab164e, 0x17470ab9388ee796, 0x29c4422c99599bab],
    [0x11b0b6a9acf5171d, 0xfdc0c69028699662, 0x22cd47a0a6d7f3dc, 0x1ce500e407792384],
    [0x895782daf691a7b9, 0x6a293d8dce6ed43, 0x898c083bc1ff45d1, 0x19102e3c727844fb],
    [0x8c8b7bb2047078f3, 0x2db92fab0e0b9772, 0x1125a28d17cc4a3e, 0x12947f4ac2f6fe4b],
    [0x340d0f1698103515, 0xca0d712cbe81cb86, 0xfef49fb61db710e9, 0x2a7639bcd6591dba],
    [0x68172bd18c9b7e6b, 0xee30f4e02d6e9c15, 0x3277ab521d9eba44, 0x83ac15141e94aa7],
    [0x13f10007f7f4b7d9, 0x633170a143f48657, 0x17d8a55b349529dc, 0x480635cff8314d9],
    [0x240280d5e5ed0a1f, 0xb2b7424ae916bda6, 0x2f4ce66bb039d036, 0x1c03ca2e6ebcce9a],
    [0x1b904c3f4052936a, 0xc1e45621336d280f, 0x4b8f942efb4e0c32, 0x15e7db7d25266f60],
    [0x18f519e9595aa33b, 0x948c8cf249f04ddd, 0xcdbc20179c98c4a6, 0x2215b41943b064],
    [0x34898b97e8c04b7d, 0xdcb6486734dee568, 0x9c2bf9c0c69560f1, 0xba3d24e5581d695],
    [0xf3ece9d30f4f854a, 0x7b7496be8ca89c5c, 0x4dbecd375963ae61, 0x10de6cbb712419d8],
    [0x46c2b024c88b5cb3, 0xa508dd069ee4fac3, 0x89e17e80bc465161, 0x2a4f4573863cbfb1],
    [0x39adde2559592592, 0x23c33995784d2288, 0x9f2a8be7d2fa5832, 0xd064dee824928d3],
    [0xd54c666c091a6829, 0x134391c8edadfc9, 0xcac587faa89bcf97, 0x79c218efa2fcbe1],
    [0xe0bfbb364d196924, 0x48902531554fd38, 0x5be2c134395b446f, 0x112316416efb7fa4],
    [0xba9c25c6a627692e, 0x73ea26b0fd473aa1, 0x8a3bd00685723116, 0xd77ef457994c37f],
    [0x9b623bdf1505ea70, 0x883f98b0aeac6e5c, 0x764e771fd68f01e, 0x189bfb671bf42173],
    [0x20920ff8e707a591, 0xdface4ea623ab125, 0x625be829594190a, 0xd77f35f4ab33fd8],
    [0x66744a8b815b0fe9, 0x8dfd08362e2a7c44, 0xff362b7d283539b1, 0x26288f7ab16b1812],
    [0xff8d861153eba032, 0xeffbde92815b8871, 0xe55d6beed008d72d, 0x26f1bd644a7b3118],
    [0xc0e544da8a7e8ae0, 0x6fea17a0fb9cb163, 0x2c7ef3d50b062281, 0xeb8a1d5ae408135],
    [0xe5845b4d32eb96e2, 0x6f6c9518555a9b8c, 0xf094eef0b8c5baf3, 0xdb56b6264829c99],
    [0x3cc007b6fd664ee, 0x778ccb41dc128b80, 0x758fd917f44d2079, 0x20883c599a195873],
    [0x4f897d2ea6599860, 0x6ee6543d1dfaf22a, 0xd0b7c07a90245709, 0x19f29faf9c5393c],
    [0xb4faf735cff66ee6, 0xb5e50b5b3fdc7462, 0x939e64356d5d1609, 0x20a2bbb3ebc1f46f],
    [0x7db886d58d2a84d3, 0xfdfa81140488ecf6, 0x3bc2acd9e8d9842b, 0xdf989faa8055df7],
    [0x351b169d03395c9f, 0xda8e71640467d21f, 0x65a95e2fcce432f5, 0x1c208f8e89b2c7fd],
    [0x1164c882009151d4, 0x886cf799f55505d8, 0x8b2833fe6eeaaf63, 0x1356fbcda43f7999],
    [0x3bb9f4d18a5dae6, 0xb838a5f2735ecba8, 0xfc4055171969feaf, 0x2e99fece2dc2aa38],
    [0x8891f966b220874, 0x1c9bd733945179b1, 0x5340ab8eb5f7086e, 0xe39c64bd29c62c8],
    [0x5a28c5d2305911d1, 0x3ecbeeaee2d360cd, 0x1217bfb3bdf0a04f, 0x8432d0352bce686],
    [0xa5e386aa2e55aacb, 0x542beafd78d95995, 0x35cf2d59dbc2b453, 0x103424d7f89182df],
    [0xc15104c8d86e2def, 0x86689fed7328b94c, 0xca11e222592d3189, 0x10e4ff8e36e76842],
    [0xd2832aec23623c5a, 0x8251b1c8899c516e, 0xb234bec7dee73367, 0xa6b0020177e766b],
    [0x79eb2d524d94f87, 0x33577023bc38d70d, 0x3a7812057725c073, 0x7514523d425b76b],
    [0x265f710873da5b08, 0x47cc988d93292535, 0x96d7c9dd5ab9e08a, 0xe666408d6019b0c],
    [0x420b6e9bd876bb5, 0x436327044ac470ed, 0x4dd101a4d03051e9, 0x2339395b0617cd9],
    [0x39adde2559592592, 0x23c33995784d2288, 0x9f2a8be7d2fa5832, 0xd064dee824928d3],
    [0x3e21e6b884bf380c, 0x1eefb9ef497a8a65, 0x90ea5d5caa60265f, 0x823e9cf59d9e295],
    [0x4e6ead88904e716f, 0x225428b8b63b82d5, 0xddaff514db520795, 0x25015bc12c22856e],
    [0xbb46ed47740bc8b, 0xc878bc2005e78e9c, 0xe12c52da5d778726, 0x147f4836af834c89],
    [0xb3da2cf68ab08b2, 0x3aea7ce4dfa4629a, 0x2df3220e3b4b230d, 0x695c3ae3f6aa36],
    [0x70cff21e6f9a6fe4, 0x43a90ccf18910936, 0x94dd6b9f46184a98, 0x2de7695bf1b96fcc],
    [0xb1ccaa554eee5faf, 0xa139b3edf1ccea12, 0x2345ff6a916bc7ff, 0x21326346451906a8],
    [0x25c2e6a7e663fbf3, 0x9424fe57fbab2c28, 0xabd2d173beae1b5a, 0x112efaadc386b3c1],
    [0x8999a1893f0bc8c3, 0xfd1c5e0df587d671, 0xb8bde45b57589cd7, 0x1a2a5c2b2990f00c],
    [0x93849f671322789c, 0xa4aec7df172d5ef2, 0x8e3ebcd46f3e4fec, 0x2087e95ae6df2709],
    [0x366a7af5f7b9600c, 0x95201f0f03613708, 0x3b55ce01f1e82950, 0x254c2d79bc681120],
    [0x16493a0d1db0efd2, 0x76acc7766a950671, 0x24e512e2c7a3b75b, 0x10f23dd383d2ea95],
    [0x7010b03de802b81e, 0x9951efb11b19c360, 0xf5274996369c7d43, 0x80154347a02980f],
    [0x4eeab2a6986b223e, 0x43cad68677571d81, 0x2e7b7257f0828b1f, 0x155940fc6e3236f8],
    [0x18e707b71f326ac7, 0xc79088a9dcbad00a, 0x1c16203506d15a78, 0xfba722c1bb656ed],
    [0x1f5674551479bc09, 0x547d619d1823298f, 0xfb9747989509010c, 0xa31c81db83a6746],
    [0x86a6c01f1c7e0dd0, 0x4cb9ddf552c98fea, 0x223188ee2d7bed0c, 0x16a2ffcbe9959f75],
    [0x3b01820d66080fe7, 0x2d878fe431293461, 0x808097354419679f, 0x2e7e9b9c74526581],
    [0xda7619008977d815, 0x4478a6023f4ee1a0, 0x7d7ff06b29296108, 0x2df5d5cf7d48de20],
    [0xbd6956fa5b6c1d91, 0xdc2a25675f54d4c5, 0xd3190b37de62dedf, 0xe1c110badcba8d0],
    [0xda5df05cb56b9ebb, 0x2cc31596ed9a5aa2, 0xa2abb3ddeb256bde, 0x1257af1a62fb76f7],
    [0x20621423b0a66f3f, 0x29e236a6112a802c, 0x4951e91d56afee62, 0x1197774ef4175d67],
    [0x5a89bb17b6dc50af, 0x38c4dcf66441e29b, 0x8a3c358e48b84cac, 0x15787ba0abf81443],
    [0xe140d4f55c2217f9, 0x126fe4a3f9d53000, 0x8260e1933420a96f, 0x10df04b3f297cfd5],
    [0x4c956cb3b9f430e, 0xf4ec30b43f2bf19, 0xad2e50ababed3e32, 0x26522aedb4ef7245],
    [0x39adde2559592592, 0x23c33995784d2288, 0x9f2a8be7d2fa5832, 0xd064dee824928d3],
    [0x58982dde43bb8ddc, 0xf01bcc9a9d8cf285, 0x8e55d5593d350824, 0x30084328d537eeb6],
    [0x9aa7538ecf90e450, 0xeeca8b791f75134c, 0x98fabd2e90e2ed92, 0x5921d17d596463a],
    [0x69c363d985c81fdb, 0x5c27205e6bd904b5, 0x30b6f2696ed6df3, 0x1349f05b3e3290ea],
    [0x94d495d538dac09a, 0x69a804f55d0341dd, 0x4582a5aa95ff6a83, 0x1d92c460a4cd6ffe],
    [0x2f8b6f6687fbe00a, 0xa5e66b70ad708696, 0x7da6b7ff01d06998, 0x1e27ce95b6ad61a6],
    [0x255713de667cc742, 0x321b71c084fd3659, 0xf62c4a6d75c2aec7, 0x260b78052f342b0],
    [0x6a7ea8948ebc9a63, 0x280ed3db252d51ad, 0x22ddda083bfed93, 0x131e63069626670c],
    [0x64cd90738dbd2fe9, 0x93b478845aac1e1e, 0x39cd4b937b5f30e2, 0xd89b6c7f1e046e1],
    [0x49b2ac299bf6daea, 0x2195a9987ba5c353, 0xf47a3d74e971dd1a, 0x13b662585b95a62c],
    [0x822a74a922f4d61d, 0xc8b33293a4b4f7cf, 0x99b2c4589888afdf, 0x299cddcb1afe1102],
];

/// Part 6 of the sparse partial-round rows for width 13, as little-endian limbs.
pub const S_DATA_6: [[u64; 4]; 89] = [
    [0x2329c18f13654b40, 0x5027e4c1579908aa, 0xa39a64f788a1bdd2, 0x243f933137a5377c],
    [0xb7c61e9bffb6feec, 0x9b4cdaf84ca55ba6, 0xa5708a14db3239e5, 0x152517da46773ba3],
    [0xf0dc026199f9c8db, 0xe2b5bc32e5d74a23, 0xfd29aaeb2d9123a5, 0x1811c08f29173c3f],
    [0xbd487034b4e734e0, 0xb2f403a1db90acac, 0x2809bd8c7209613e, 0x2beb86f7fc394196],
    [0xe9717a181c24ebdb, 0x7922d4a98d867730, 0x3bf6481a7116f5c7, 0x22d40f04d2561732],
    [0xbbff1405f8a12f62, 0x7cf5725f45513595, 0x44e45e8d9ca13d78, 0x7984c5792dff5a2],
    [0x71606130c735454c, 0x7624405920d6f857, 0xbd028fc4e88d51fa, 0x54f16dcf84267fd],
    [0x3b3e4a4c49ef788d, 0xb3993b0c0571a12f, 0xd18f47c28dd8050f, 0x1e14b42a14dc7272],
    [0xad495a5eec7ba24d, 0x2fa856b53d8ad5d8, 0x6d3620f026c2a937, 0x125ddc89a4aeecea],
    [0x8cfb380c782475b2, 0xfb7121c62a39d623, 0x24a7145923205b3b, 0x149d09583cb39f41],
    [0xc8d32436aae6ee32, 0x50112f80a5787730, 0x656a1d3b3df56683, 0xecae7698bbf994d],
    [0x74151763ea668369, 0xf7490892f4744022, 0x2942818e73b12562, 0xd48fbb1cd222f05],
    [0x6524ae510cf0a29e, 0x11233b81df41803b, 0xb19793fb2b3e64cc, 0x21ff6e0e9dc2c5ee],
    [0x84756e55d8b513a2, 0x162db5254e981a76, 0xe4f3d4a0c51b87a, 0xdee76eef7634068],
    [0x39adde2559592592, 0x23c33995784d2288, 0x9f2a8be7d2fa5832, 0xd064dee824928d3],
    [0x986bad89bc3bf3b1, 0xa9127f006e26ce1f, 0xd1e885a0607d35cc, 0x1c72c610ee727a6d],
    [0x16d43a62db85681, 0x484cc6fe4fda3821, 0xbd3ed4f015ca18fa, 0x1d8bff20f53a1b7f],
    [0x377aa92f1c3e70e8, 0xd5058c532728db8, 0xd52729f4e4502a7d, 0x1c13c5149e5fabed],
    [0x6663ad1e37416a31, 0xda2337dc81c9257b, 0x4f005528327e695a, 0xa2044c5c41c0e87],
    [0x15b69d5d0e2e9991, 0x9b7c9bea09d3fb16, 0xe715b4de7d305d52, 0x27a159845c8347dc],
    [0xd49467acf199cd86, 0xe70bd0a094fbb0de, 0xf43ce287c632cdcd, 0x28a37316b111822],
    [0xdcaf8f61b07cc842, 0xd334eb39e36488f6, 0x1611b22a1f73aba8, 0x69b007be4fffd6c],
    [0x3a0fbf924d74bd12, 0x7906018eab4f0be2, 0x27293355e3ddc272, 0x159cfe01b040d2ed],
    [0x923726f20f4dffc, 0x62d7d25b224a9250, 0x7f95203ec7c7d122, 0xb538e8f3455ff2d],
    [0xe3654bc90d0705dd, 0xab0c1c583c390ae1, 0x4a4a589a3b83deec, 0x1f188392740ecb47],
    [0xb2b2b70705d88911, 0xb25f207a10fbb591, 0xfddd3a41d1f749a5, 0x85e8ab77fc680db],
    [0xf973a794d132ecb7, 0x2242f7bdf6e662a2, 0x1df17e8a5db6e3e6, 0x18038e5ab85927a2],
    [0xbe13951531fa9fc2, 0x874bee41e7b84057, 0xd27a23b97bbd8b82, 0x25975674afcc9637],
    [0xa1b53e1184dd3611, 0xf8917c6358b76e61, 0x79acf589c59991f2, 0x2ff9d4e295691f99],
    [0xa3461f2c6b46869f, 0xc53b410dbb7afd04, 0x947fb4d33026c489, 0xff8d053d841882],
    [0x45d53b9640a09f64, 0xf08feb073f1d8448, 0x94bb1d727059e7e, 0x1c6d41952c53460b],
    [0x7582e7bbdd28b10f, 0x2202e546807d2b5d, 0x3d3e244d73732e21, 0x291c286327312c53],
    [0x9051276b2dcdafd6, 0xf0c773d055766b38, 0xcf3c5ceb34882c68, 0x2c29cc08dd040a2c],
    [0x5188c094b173930a, 0x43686066cf85e6eb, 0x40d878bdfb54a8dc, 0xb51d6531aef720d],
    [0x728246b23850edb9, 0x1166ddc034d13531, 0xd29d2555f466ae21, 0x2eff7e9766928007],
    [0x5c785be35a5066c, 0x61acb1d825ce2b9c, 0x41df7e1bdb208570, 0x1c856f1e898cd92],
    [0x70341b8048cadba9, 0x5f8bed6c59defa42, 0x1c3e2619b75601bb, 0xa88dec27698d5f1],
    [0x5a0c8ab55322458e, 0xa365828508d62c20, 0xc315e9ec1d4324f8, 0x171ca4dba69a7f21],
    [0x94fad2ac11a8997f, 0x47eccfea329054f6, 0xe05a8c7389bf3144, 0x2192264db77dda74],
    [0x39adde2559592592, 0x23c33995784d2288, 0x9f2a8be7d2fa5832, 0xd064dee824928d3],
    [0x9f06cd08c8d90647, 0xeb50de5222634ff0, 0x461f68a046226bf5, 0x2f9db1272bf8daf7],
    [0xe719240ac8ad4d96, 0xcec57e406fbe85c, 0x6ecf519557f50b6, 0x2dcf0a905f69dcc0],
    [0x339394dd9aa845c, 0xee860feb4aca30cb, 0x59f5c8bbe9c8eb2f, 0x1ef1e8e3bcabdd9c],
    [0x62c565680e64bc04, 0xc70b98fc36b53375, 0x8558e187e731f4e6, 0x1f11157aed6e0367],
    [0x7c20098a13a0d5a2, 0xc833f4e1204c984b, 0xd82a3b6316f30c7f, 0xa38ce884c10d28],
    [0xf5eb72c45fbbde08, 0x6448b867adde280e, 0x290a337231d3c898, 0x1db78e384fc722f1],
    [0x2fee3f76cd3a6d4c, 0x682375fdd858d9fc, 0x4bffb88b3d8ae428, 0x1e815a5b2ff40545],
    [0x92acf96d93f7c90, 0x4b3f26a6c054f70b, 0x87c2cbb330888c9f, 0x370b02885c192b6],
    [0xdb4e9cfb23c244b9, 0x8f48e5f951be08bb, 0xe14876f45be708f5, 0x8203f9ff8db7576],
    [0xc879bab33dfb0e84, 0xd0751d0ac335a9b7, 0xd67ad121f185ece6, 0x29dc1ae19a1f06c6],
    [0x7410a28026ad4619, 0x27cf3876da14137, 0x4e7da575cff80e5c, 0xd3c1af0faea85e5],
    [0x126fb554c79944e2, 0x309a1a6c8c0defde, 0x5aff5dc808e01361, 0x29609aac1d88be4d],
    [0xfe0309c3c8c5d50, 0x77854f6de32ceb38, 0x67f6fe2b9b3e3bda, 0x2da5231bb84b05c4],
    [0xc0bb6bebe5b012ee, 0x3ab442f13e710d10, 0x9cb4ef1cfcea11de, 0x24658abc45d1109f],
    [0x5ad8bfbd0073946d, 0xffc5417e5194d6c1, 0x6a72e393dddc1622, 0x1f38ead2636865f1],
    [0x1f3d89172831542a, 0x55617b73f448a461, 0x2192471691daa4ac, 0xde6a95902d88df0],
    [0xbdf53357b4c168bf, 0x9dd5012fe4b55136, 0xa2ae4584827640cd, 0x1cb8cad4994c3af3],
    [0xb04a2bde61151b1b, 0xfaee7aad923d9807, 0x2ce9c84e88b3d42c, 0xc4b166f5e4c3ebd],
    [0xe0d29656de2a03d9, 0x61155e19cbc84c50, 0x14e3af44a87e6940, 0xa125c564bd818b1],
    [0xdd4047f8bdf4dee1, 0x1d82a17b3940f15a, 0x64b89db857f6787b, 0x18cd16fb943e3696],
    [0xb22fcf5c26b05735, 0xd7d0036ffc7d2693, 0x656990a2c832bd09, 0x22100b866fb7d36e],
    [0xf25456172562c5e5, 0xb80af580b666159f, 0x191659eeda5fe346, 0x2228191716f3aed9],
    [0x62a7bc1f61fd9baf, 0x922aeddb431bfa3b, 0x8f7cf3467103d39f, 0x2dca6c96c30284bb],
    [0x625c1d470349380f, 0xd4665abdbb4d980c, 0xd3d1e8cf0984236c, 0xa242a4882954de8],
    [0x39adde2559592592, 0x23c33995784d2288, 0x9f2a8be7d2fa5832, 0xd064dee824928d3],
    [0x363c54c690c6d716, 0x3ab8e0287f5cbc62, 0x5bf2249536e50de2, 0x116c85a250d461dd],
    [0x482340bd29f566fc, 0x2ad93950a75c24f3, 0xc97c684d448ac7ae, 0x750eaaf76a03769],
    [0x8d116b55b7599cfb, 0x678944f33d625377, 0xa17d35a643f71515, 0xde057ca401a6fa8],
    [0xc35da8df5e35180, 0xac9397f3a941a50d, 0xd822cf70dc124a07, 0xc944093f1183d2f],
    [0x38515c66e2677233, 0xf484b203f0080030, 0x833d7fae60c8c5f2, 0x19376e5bb4d2266f],
    [0x3f6f8dd704d32178, 0x332ed38cb317d2c4, 0x73594d7563262ecd, 0x169bcc309d7b6f8c],
    [0xae99193034cbc9c9, 0xa42094023b3abf89, 0xef59c55565337f63, 0x304811527f616bc8],
    [0x12968449dbe1ceb3, 0xe8a7fad755ec4080, 0xd82f86320315dc68, 0x24bfb86617225edd],
    [0x958ca129e7bde3a2, 0x6174ccdf398c934, 0x7261e9a75c570e6c, 0x242f4b3a3535d530],
    [0x8e0753d94824f643, 0xba8f365cdbe01432, 0xd3c2012a1f4fda54, 0x2b2f283271455095],
    [0x4c37050d79a53a1d, 0x345fa227d8e44e1f, 0xb00f15be184e707d, 0x35a852e7bf5cf60],
    [0x2c93ba1a43f98ef6, 0x56fdfd678d9840dd, 0x15c6c4e025f67bc3, 0x150f777da2220710],
    [0x9a93d6a327c03809, 0xb8183a362be64172, 0xfba92821a88119f6, 0x2d8c70035731ad9e],
    [0x602bc6c0351d823f, 0x3e4594c49ab3dd6f, 0x9ce547aa783aa78f, 0x7b620c8a78e09e4],
    [0xa661e4a690351d0f, 0x13929093bbfa00d6, 0x567d39d00645a83b, 0x231996b592528575],
    [0x8486d66f079852a, 0x640c93fc524dd3c5, 0xa3f69f6af22fa0ab, 0x4e47a72e49b9c5a],
    [0xfd5195db22eef7f4, 0x18f0d31200a6f19, 0xa671e48f83e5c1b3, 0xa8cb4b2bf3f0c5d],
    [0x5c16c4b931739dc8, 0xa8e77ace94e03aab, 0xec2b120faf87822c, 0x18bbb002b46f2e5f],
    [0x396ce274ba4524df, 0x9103c57bad129ec8, 0x24d75a8a01283da2, 0x2bfae1b054ef2e9],
    [0x65c5be00d780f192, 0xb38b05cdefdcb819, 0x7b9542581bf0cdfa, 0x6d101b19477d162],
    [0xa2918f620e8a5be8, 0xa5d242dfbebe8e27, 0x104c2bef179b3ec5, 0x18af61f6184ff85f],
    [0x6d12d7777cef70cb, 0x33128af8ee328754, 0xbeb188c6e3d7a14b, 0x11e3a7c2d5f74371],
    [0xdfd214f4d7866404, 0x3ccb0b672e978f8f, 0x422ac71b8d409b4, 0x2de5d6a7a27343dd],
    [0x199a501ed970622, 0xfa3df62284b4b3b1, 0x2a2588964a0ad7dd, 0x227cb43b9818924f],
];

/// The values of the sparse partial-round rows for width 13.
#[verifier::opaque]
pub open spec fn s_vals() -> Seq<nat> {
    limb_vals(S_DATA_0@) + limb_vals(S_DATA_1@) + limb_vals(S_DATA_2@) + limb_vals(S_DATA_3@) + limb_vals(S_DATA_4@) + limb_vals(S_DATA_5@) + limb_vals(S_DATA_6@)
}

/// The sparse partial-round rows for width 13.
pub(crate) fn s_table() -> (v: Vec<Uint256>)
    ensures
        v@.len() == 1625,
        vals(v@) == s_vals(),
{
    let mut v = from_limbs(&S_DATA_0);
    let mut part1 = from_limbs(&S_DATA_1);
    let ghost pre1 = v@;
    let ghost add1 = part1@;
    v.append(&mut part1);
    proof {
        lemma_vals_concat(pre1, add1);
    }
    let mut part2 = from_limbs(&S_DATA_2);
    let ghost pre2 = v@;
    let ghost add2 = part2@;
    v.append(&mut part2);
    proof {
        lemma_vals_concat(pre2, add2);
    }
    let mut part3 = from_limbs(&S_DATA_3);
    let ghost pre3 = v@;
    let ghost add3 = part3@;
    v.append(&mut part3);
    proof {
        lemma_vals_concat(pre3, add3);
    }
    let mut part4 = from_limbs(&S_DATA_4);
    let ghost pre4 = v@;
    let ghost add4 = part4@;
    v.append(&mut part4);
    proof {
        lemma_vals_concat(pre4, add4);
    }
    let mut part5 = from_limbs(&S_DATA_5);
    let ghost pre5 = v@;
    let ghost add5 = part5@;
    v.append(&mut part5);
    proof {
        lemma_vals_concat(pre5, add5);
    }
    let mut part6 = from_limbs(&S_DATA_6);
    let ghost pre6 = v@;
    let ghost add6 = part6@;
    v.append(&mut part6);
    proof {
        lemma_vals_concat(pre6, add6);
    }
    proof {
        reveal(s_vals);
        assert(vals(v@) == s_vals());
    }
    v
}

/// Part 0 of the dense MDS matrix for width 13, as little-endian limbs.
pub const M_DATA_0: [[u64; 4]; 169] = [
    [0x39adde2559592592, 0x23c33995784d2288, 0x9f2a8be7d2fa5832, 0xd064dee824928d3],
    [0x55ecbf803ca80569, 0x2f0dac3680a6c26d, 0xd6a85d75e3e08f3a, 0x2b2ff5f27531b6f3],
    [0x4981eb6e4cb4a5fa, 0x5ea9f87a5390f561, 0xeff233b7d1225801, 0xb658849ce620bbe],
    [0xa16e72d47b48b70f, 0xd2c417e2782e5efe, 0x5167cb4473d54c6b, 0x118132fbc1cd83f9],
    [0x2ef14a21fdf524c0, 0xd085bb562b838d7e, 0x562a5749f4f06c4d, 0xb5944768d61c1b3],
    [0x89d1fa6f3e56445a, 0xb5bcc0d7b1950b8, 0x12d92c5c6212803c, 0x2b04d6ffbaf71440],
    [0x52fdeab5450c9c44, 0x2a3d1ae44c5dce1, 0xe3320fb0ee46b4c1, 0x29be2a42834ae32d],
    [0x2883c7b218b11eb7, 0xf9031fec82da9ab7, 0xa716eac08561cd91, 0x1946fe9de0a943d5],
    [0x8144109f894bf1d0, 0x17e39ad5701ef70f, 0x55df8e49835b92fa, 0x1af3ca6240a55aba],
    [0x5215e47f8e58c2c3, 0x35342fd0677ee1bf, 0xe0369fdd81a1900, 0x81f58a91a4e0d10],
    [0x21d7c7793ad2305d, 0xd02b406bd6c7fd81, 0xa9688b71ed27c157, 0x22a852af90680a8c],
    [0x8c1276b1001089a1, 0x7828985c00c3e5df, 0x68981736ae927a22, 0xb27ba82a0ffb983],
    [0x1a2cdeef966f20f6, 0x65635552dee24066, 0xa0d23c8438bc49a3, 0x4b46526207edc70],
    [0x9a93d6a327c03809, 0xb8183a362be64172, 0xfba92821a88119f6, 0x2d8c70035731ad9e],
    [0xfa02283bae5d605e, 0xee7933c9d3b36bb5, 0xbfbeb191330a880, 0x9ef3492ad19dd1d],
    [0x73096ec60e39c1f1, 0x35c38b242eb92913, 0xc5550c6a1bed3af5, 0x1458de516a534190],
    [0x9854d105df47c4b4, 0x189f896ac0ed69b5, 0x19498fac59424816, 0x136ef2515955ff66],
    [0x2eb83fb0064dd43, 0xd828f3b0742371ed, 0x797a2f089594a81c, 0x18cbfde0cd21c183],
    [0x5035677e84357314, 0x70ce977049c39323, 0x97bd060a3f71bb1e, 0x22757da9e8223452],
    [0x3efbeada5a51d44f, 0x618b975822ad0c90, 0xc18e351d11e82291, 0x1622805125ddf344],
    [0xa960754b4195d9fe, 0x4d6c70a0f4d65dba, 0x80658d127fb6faa4, 0x29765d8cf77619a5],
    [0xc74e096a7ff381cb, 0x82e8b88ef70355df, 0x70edc42f23e807b, 0x2bb0b6b08fc1bd11],
    [0x781e1b938029827c, 0x181a93ff1d4bf723, 0x9d9250108c5d2b70, 0x4951e747b7ae6b9],
    [0x4cb47b3b83fc299e, 0xc63ef68f3dde51d0, 0xc7cbb4347e7fb40, 0x17780b9469e81ca7],
    [0xfe02b85582528912, 0xfdd82b4fd3173ff2, 0xbfbf649d9e6e6ea5, 0x1913d51d9c71d042],
    [0x6500c2c3be6365e8, 0x41b62dff3153d3ae, 0x6d3fe533b89f1ab4, 0x2a9e342a56c8b646],
    [0x602bc6c0351d823f, 0x3e4594c49ab3dd6f, 0x9ce547aa783aa78f, 0x7b620c8a78e09e4],
    [0x2c66115237a19051, 0x28d0b6213d9e5d, 0x2aa24076d3187b6c, 0x27d6bd18703d7ca9],
    [0xa007c113349bd4d7, 0xc2229845bf6446ce, 0xaccf173ca204668d, 0x2969eb5016f24b31],
    [0x361f059e50395311, 0x34b22fb86334675a, 0xf4ff7eacab6cbde0, 0x29c67bce04bfd020],
    [0xd7a74450d0a9427b, 0xf81d519859d21235, 0x17c50884bc895cd3, 0x124474b08829d9b7],
    [0xf62a171cb1d65e4e, 0x283fe22a978a3df9, 0xbb2fa2b2b1e114ce, 0x2c7e28f59fe8a8a3],
    [0xf11eaa3103341487, 0x292be54c879882d3, 0xa9ff225ac4900521, 0x165c0b978b4bb646],
    [0x72edaf9152f92d4f, 0x3b60e4b9859d9b98, 0x359cb82a8380feb6, 0x2066134bb299d9e],
    [0x15a7acd15ecc5ca2, 0x814b0899c6196fa, 0xeafe1bff6deec4bc, 0x9372ed18ba1a774],
    [0x6f5012de61345b58, 0x3668e351cfd28cf6, 0xe563e8aaf84b2fc7, 0x1e3a130e8caff9b5],
    [0x6128665cc3bd9478, 0x98b90576b23b6cd8, 0x991413228c75eae3, 0x255543a314afc5a2],
    [0xac6a0b89bebb8453, 0x683a19733fc04c73, 0xf185e61578a5a8f2, 0x76547449fa03845],
    [0x33e9f7cfb38f534b, 0xe838c51e5a0aefd3, 0x8025c03ee9c199f2, 0x2f98bf081e0eb78f],
    [0xa661e4a690351d0f, 0x13929093bbfa00d6, 0x567d39d00645a83b, 0x231996b592528575],
    [0x4338aa3648d8f7d7, 0x8a2118e83658327c, 0x49c9cbf241459069, 0x193f32a3f839f760],
    [0x4b8ea920fdb04bff, 0xbd362cac497afd00, 0x273e1b7e3b544d2c, 0xa5da659b6fcb1a4],
    [0xc96e71953102ef24, 0x3f6e51126eab9ace, 0x42196e09491fe23e, 0x2a832ceed3837e7],
    [0x619d6227a26228a8, 0x61f6b18a8058a52b, 0xa474d04cb2e97618, 0x98bb2c4c6334dfe],
    [0xfefcb65e958784b0, 0x7f6b44bfe2d1af34, 0x1c1963f25694ae26, 0x101749f9dd260519],
    [0xe9a0e9e7158356b1, 0x98290d971b1e6dc0, 0x3c110d3175d01bb4, 0xc7b5e09343db5c6],
    [0x4d210971dd0a681b, 0x18bbea4b7cdced3e, 0x18e21f93a5bb1980, 0x116a313d00cf99dc],
    [0xce4bd10bb8a803df, 0x9d11457e59f90419, 0x59054cbb87f6b5c6, 0x404c0fa1bd1f7e0],
    [0xadd29e08067a59d9, 0x98b54335f632bd62, 0x97ef04381f585822, 0xc1c216af33054c4],
    [0x3fce432a6f3c1653, 0xf8c7b4437349eedf, 0x688a7dcb573a7da4, 0x11cb20544f43437a],
    [0xa371d753f2ff001a, 0x57337c60c40b34c3, 0x4be0ea7d204cd64e, 0x186f160ae866e10c],
    [0x2ea7c3ebbd933931, 0xb06590340fc07b18, 0xb2d0ddb2f6f741af, 0x1e1d5920edcfe9d6],
    [0x8486d66f079852a, 0x640c93fc524dd3c5, 0xa3f69f6af22fa0ab, 0x4e47a72e49b9c5a],
    [0xcab8336aadb1712c, 0xe4615e77801e5aad, 0x3d9bb5182ac44ec9, 0x235d0e71a350f1f2],
    [0x9b828479218570d1, 0x76ba960a57e8d767, 0xbf896996f0ee7a40, 0x1219740c424743db],
    [0xd7823f80d3f823be, 0xb8c169c1e9c63977, 0x9dc9e5cd84976a3, 0x2b501f1003e27aa8],
    [0x821f5c21a3ea2325, 0xada47bdcd8c82d01, 0xd1eff86db5820cc7, 0xf34db93ea8d2ad7],
    [0x61b85869d4535893, 0xe68542d076b683ee, 0xbcc5f9af9e396477, 0x4d02ab05826fa50],
    [0xb7868bb299cd2072, 0x684778fc7a9b1bce, 0xa9cd0f8a505f9e4f, 0x2bcc82e75391be4e],
    [0xea9888986a030b11, 0x884ac447906101c, 0xbf426bb12844a292, 0xfe29b5bead54c5b],
    [0x1454bfeeb0ffd4d9, 0x14ad6e48f4676fe4, 0x3682fe5b1e2eb56b, 0x1bb2091870a4fac0],
    [0x86d2a761c4e845bb, 0x657575b7a963c0e7, 0xd4e0c63611a7502, 0xf54c9c522a5c74e],
    [0x496247e6ac29002a, 0x4dc03a4be8a15461, 0x19e95e0b26445ba6, 0x160f5ac0b2481f80],
    [0xd75b3e320affc86c, 0xb09792ac17a5f080, 0x89501b9147e84ab6, 0x2f3d6b8e23611660],
    [0xde754ceac07b1705, 0xc93dd561ce8af5fa, 0x87fcea070498bcc7, 0x1b59bb60e9861949],
    [0xfd5195db22eef7f4, 0x18f0d31200a6f19, 0xa671e48f83e5c1b3, 0xa8cb4b2bf3f0c5d],
    [0x2c22388322f16c2a, 0xa08cdb9e78a9f32, 0xbc253ae908a8f6af, 0x1df5c9ef694afe61],
    [0xd77517701de675f8, 0xcdd63cdcf17ad64f, 0xb60136c5d851a11d, 0x134431128e5ffc0a],
    [0x6ce4bd0246c2cd89, 0x921abe2e015f35b3, 0x977ced1f1a6e852e, 0x3ea4e2bffe02da5],
    [0x3fbd1f006d758a75, 0xe6b9b4bf51d48f95, 0x2bb5e9dc73560eee, 0x6e03ca114670552],
    [0x6c7be4e9b069e260, 0x96f462e431675ee3, 0x31da17ee7b55a75f, 0x14c499ee51925b2],
    [0x456cc2acca8930cc, 0x15244c6a88f1631a, 0x2b05c4aedb100bc0, 0x611ecd1f379a006],
    [0x11cb7534d0bcee6e, 0x35cb4b49311e0aae, 0xe9f7fad838199107, 0x22af37c0e4a88dea],
    [0x9a9b272a607dd5df, 0xa3d2e29aecdcf697, 0x4db82e8679fbc6d5, 0x299ef95aed8c7549],
    [0xdc2fa1e6fc4af91b, 0xf85e0413f7b408f1, 0x87b9bb47c0eb6049, 0x103cc8384be1be10],
    [0x1d59966e96a73832, 0x33905632b793c80b, 0x4fa774bb0f8901a2, 0x206cf4290ac98443],
    [0x7c6ca80954397c86, 0x884308775afa9f66, 0x2f316d91d812cb2a, 0xdd85dcf08fd38d2],
    [0xaa69d767e9afe7cd, 0x954babbed3cd1706, 0xd3eab72865cf073d, 0x24ce0acb522da527],
    [0x5c16c4b931739dc8, 0xa8e77ace94e03aab, 0xec2b120faf87822c, 0x18bbb002b46f2e5f],
    [0xe7ebe55394f69d8c, 0x2af4fae0dc280030, 0xa7d45bb16cf4a44e, 0x1db2021eca3a3624],
    [0xb9fb5e83d350c295, 0xd05de0723bc49e53, 0xf3a5fc416bdf5e46, 0x97c6133aea8fe48],
    [0x7c1d8d56f56ab61f, 0x12684ff5a303b2fb, 0xebf670080641339b, 0x150ef9e932a74b8d],
    [0x6f5b191cde284972, 0xa2ac4cf100989676, 0x67a94947334e3af, 0x1237f44f036b2da0],
    [0xa17baf0099f614d2, 0x6bcc7941d9ff5f07, 0x266d59dd7e018bbd, 0x2d9ea99d2d237328],
    [0xe394db9c434e2352, 0x1b679efbb87fd956, 0x8434ad755b6783d6, 0x477f951e19f531b],
    [0xa255271afcfc70b6, 0xd57251b247c632be, 0x2e8ef9b19c424d55, 0x1d8b8ba772c4cda7],
    [0xd82549fc36cd4109, 0xca7468753f526e6b, 0x6d6be48ad493d354, 0x206aa2f36e32b2b0],
    [0x64d0ebb200c2aeaa, 0x530bae6c660db3c3, 0xcf19df72a722134d, 0x28da9309acca103e],
    [0xb75e4cb1fe57e118, 0xf420980d6cf14721, 0x39240e9fa3819c2f, 0x1b9435855d6cc43],
    [0x455f1ff4df6e2b46, 0xb59bdfb4926113a3, 0x689b5803b0b77601, 0x238832e643158e96],
    [0x861a528a52ae2ec5, 0x4b9395cdc14df96, 0x67b5513abcce8465, 0xb43b8facc43cfc0],
    [0x396ce274ba4524df, 0x9103c57bad129ec8, 0x24d75a8a01283da2, 0x2bfae1b054ef2e9],
    [0x8a112dea0bcc85cf, 0x6b8af657273cdc4d, 0x109a32ae07eb584a, 0x1a46a26691841c26],
    [0x65c98449682a5204, 0xb6345c174b91651c, 0x82859be44d37b4d2, 0x107da0784dfb314d],
    [0x2dfeeccd02bfed46, 0xfae0f7edfa9afcd0, 0x516acd6cc6183c4, 0x2b45b3be2674fd82],
    [0x18f4a920d0f8d525, 0x60f6e7ee94578f01, 0x9242891115273128, 0x2082e9103cc45245],
    [0xb09e7bb6335e8487, 0x95142f962b006a8a, 0x7e8172f3a0536d4b, 0x303a9e22855d95d0],
    [0x2e5a2e3668cbe5fb, 0xb424b707f1659966, 0x44f950ffea80f5e5, 0x2963514313f046f8],
    [0x757faf0d18fa6433, 0x5b0b229c1638c9c4, 0x89adf12d656b94e1, 0x4b7f8d1d5ec8bf6],
    [0xc3d21fd8b2e4f31c, 0x99c081c149463dc2, 0x28941a542f394a26, 0x259547168b64b2a2],
    [0x6acf4629b88e5ff1, 0x3630e6fd5210faca, 0xcbda1a23b95cf23e, 0x27919dd2f9d3dc9f],
    [0x9dd5e1052b6b1f2f, 0x57fc8d52876ecb59, 0xefa507b892c3b8dd, 0x2b9237e5941e1657],
    [0x896dfe48b78d3dac, 0x9a3e9ab67efef50f, 0xecbc6a6a45368b9b, 0x202e38e669883619],
    [0xe2c3c120d977f3ac, 0xa1e0fe4240a50747, 0x995ff3140ef7d1b0, 0x262758fb3e076936],
    [0x65c5be00d780f192, 0xb38b05cdefdcb819, 0x7b9542581bf0cdfa, 0x6d101b19477d162],
    [0x5a400e1f92e9d1aa, 0x9759da5d7b43d5e2, 0xd6e649b057dbc5ae, 0xcae80cc05aedb66],
    [0xb3e249ea7cbf91ae, 0x9dd23e935487da26, 0x372986f95d66cc13, 0x12256b3b99d31d8a],
    [0xa30739ded25eb492, 0x5327c65b0b76e50d, 0x2bce50ff18cbbe53, 0x238965d658967afa],
    [0xe297b4880e7433b2, 0xdcd94a897cb05d1, 0x8c4b632ad78ace5b, 0x23a6e143284e8f23],
    [0xe23751b9cb9f8960, 0x23a8b3b0127224b8, 0xc0b6b6e0f782a6a5, 0x24e13a38f04d5e0f],
    [0xea60bc1ab477a7f8, 0x2313ae9c3bf43066, 0xe1b0fa8023ff1c81, 0x9010d73677620aa],
    [0xce3368ed944212d7, 0x409a67c3edf4c168, 0xed7acfd48401395a, 0xa41e5a4421defd5],
    [0x7c4586c627780075, 0xc834498120629cc8, 0xe289ad0f94126aee, 0x2fc7d17f3a9afc1d],
    [0x2661669b155abeba, 0xfc40001bb4fc5ccc, 0x4c71e1fb6ef8459c, 0x1f86e3e9d147ed60],
    [0x3e70ca83126975dc, 0xc5cc360124cf6b90, 0x215b35f3c0eecf8e, 0x182d8f91ee2a9a26],
    [0x5302c55fc10bdab0, 0xa35b60ef054c0f47, 0x74312d04ae0fef43, 0x67d2b612d75f4f9],
    [0x1abb0f9fd7bdcd7f, 0x8ccdf1da91660a46, 0xc532072de92d4aa7, 0xeab3f26417e6b53],
    [0xa2918f620e8a5be8, 0xa5d242dfbebe8e27, 0x104c2bef179b3ec5, 0x18af61f6184ff85f],
    [0x4b9dcf2ea5df6be9, 0x3cfc34b001c0e5, 0xf1b905c6e2eb2957, 0x195057af1319e24d],
    [0x2c211b47f6c3ee86, 0xe320adf07a286e7f, 0x36c54a1e8a2828f, 0x1d952ebffcbedd26],
    [0x4e71090307b5f69a, 0x3d5e0482577bbdc1, 0x610eec0c22d43a54, 0x370b757ac6cdd46],
    [0xa25330195c628172, 0xfa724338cd67f67e, 0x96ba068bf5bffb17, 0x22e076a3aa6ebfe9],
    [0x1273ad3698be0cb9, 0xe074b3544f0610a5, 0x288a750153910a41, 0x126851f3eadc0183],
    [0xdd631a6ac14c20cd, 0xe7520159da23441e, 0xd23f9a6e7309d8c4, 0x361f4082b75a6eb],
    [0x5ac284d6b1ed7b37, 0x1b7cee17761730e2, 0xb9bb98152086a942, 0x1abe8badb2d12353],
    [0xa1359e7e9c5eda7, 0xd64f182b2041baa0, 0x3e4e82a263ef905e, 0x15a7e64a5a46f597],
    [0x1744cb3372bfa72d, 0x10851b86c353692d, 0x64dbe1ed72b08162, 0xe154ebd50db3c28],
    [0xe403cc754c54bb55, 0x81c1ed5bae2a51c9, 0xfa6e7b1847f8e84c, 0x25528d5d31dbd77c],
    [0x31cceb89a0ee89a3, 0xe8e27746026220e3, 0xd811441629c78f8, 0x21f0c6b896fb1422],
    [0xd3ba068836dba464, 0x72773b062922dc8d, 0x2a39d2f21ebddc27, 0x20addeb2afd20e75],
    [0x6d12d7777cef70cb, 0x33128af8ee328754, 0xbeb188c6e3d7a14b, 0x11e3a7c2d5f74371],
    [0xa075f2eae9ce21b3, 0xc1e4f084c714ddb1, 0x6bfd601472948293, 0x2d4d35acd9f28a3e],
    [0x1b1e21cba01fa7e1, 0x2e6b7a9619926d9b, 0x5a9030b01378f65d, 0x26309b52cb55f6ea],
    [0xaf79159b0b4e4018, 0xf871e9c4c3e2fafa, 0x4f748b80e279ddcf, 0x2aa84c1ef9e848a6],
    [0xfebab05ecdbc798d, 0xeb58d8c321c62390, 0x525b619acc4a5ba3, 0x2fe31b0df04f276a],
    [0x80317e6638b091e1, 0xb1fd47f671e66046, 0xd533550b8b621186, 0x27c1b406bd19ed13],
    [0x4fb02ae1ead44daf, 0xc3424dc4b6edf398, 0x7aedf521ee2bc753, 0xcebcf30975b3726],
    [0x2fadf530278a3d1, 0x2bf7a2eb35e15aac, 0xd6c4c75387030a96, 0x291c0da731c016c0],
    [0x5b08850d8bf160e0, 0xac8519a5a3cee454, 0x9038ac1458100e89, 0x1216f05607e032e4],
    [0xb49edb3fc9ac7899, 0x4ab1dee0f333b88f, 0x965f2de3a39ff2d5, 0x19ae65945a1dbed3],
    [0x5aea6eb9039d8b25, 0x388f1b7ff3875b72, 0x4e55ef7a6ce0b681, 0x2f996ae620d00a3d],
    [0xc20c359739ba9eb6, 0x6fbc34518387e807, 0x22331177999c8980, 0x2c825ee561c4ab6a],
    [0x73aefb4b5c693246, 0x183a49db7e70e7eb, 0x29a60c9e898237c2, 0x754947436c3cded],
    [0xdfd214f4d7866404, 0x3ccb0b672e978f8f, 0x422ac71b8d409b4, 0x2de5d6a7a27343dd],
    [0x5541512dec563a0c, 0x1886c0fbd18e5569, 0xa164e33f0353b513, 0x25eb2ed84c520ab],
    [0x319df25e8019a6de, 0x2eaaa67b8970dcdf, 0x71fd70b0928cce6e, 0xa12525f07813223],
    [0xb52f5e6b1fcb7031, 0x359cbb313c5876fb, 0x845923b1ce128292, 0x1bbf43ddb5a0b0d2],
    [0x35a620593c1f42e6, 0xc45bde78dd819c0f, 0x2afa8c4465d5ecb9, 0x23e8c3606aee818d],
    [0x29c012c06b16b321, 0x827da6463891cca1, 0x398128b9ff339f3d, 0x158880f5adb96dd1],
    [0x1f7e7c87e1512a90, 0xfc6aefc7fa988e3c, 0x74c8841e92092a4f, 0x23a1ac07351946a9],
    [0xc7d267c77e58dd66, 0x1e5960fcb58c4f48, 0xf7a509a1750a26ed, 0x34c460fff28862e],
    [0xdbc7eef56d667818, 0xff8e319bd7d1a67f, 0xe1dd7b7245dddda0, 0x223db18f31c85e98],
    [0xa6e56a9204fb16bc, 0x3e2c379b41ca61, 0x957d01b43dab07f8, 0x99b97c878ce35c],
    [0x7e47dd8e3bc3ce93, 0x9471ae7914bf08df, 0x8ca01bef5ac37cbb, 0x2c2b1e7c70fec2f5],
    [0xc0f4d0af8cbd23ce, 0x6fc801dc0b59d20e, 0x2ba0647cae426a48, 0x4625f2258edf026],
    [0x6a818e93a3c38c89, 0xa8fbd47fd2f7a2c9, 0x810aa89ab4996dbe, 0x239ca61a6ef7e501],
    [0x199a501ed970622, 0xfa3df62284b4b3b1, 0x2a2588964a0ad7dd, 0x227cb43b9818924f],
    [0x12f5b2a899f37e3d, 0xbcc98bfc023f4ab, 0xc65bb347655acaa8, 0x16c7c5c6161eda32],
    [0x5e1f2cb88f07b62c, 0x737868dc2c351943, 0x92cd37c4a26dece2, 0x27e37c68a01530f0],
    [0x6298e39a62fb9501, 0x505458d76178eca2, 0xad499531f33ce002, 0x19dd1c6d45298248],
    [0x99b649b2e07d1679, 0xe4ee9fa0ad01fc43, 0xa8daa8c34476a465, 0x215f5563464e2df6],
    [0x6f57383da50436a5, 0xc4afa81bf9743607, 0x9bfc1ac3270a3d98, 0xf36d166e99139b],
    [0x340c46f210b07ced, 0xd64118b491bcce12, 0xfd3f5768aa92e9da, 0x1edd7c7deaf249e0],
    [0x79ceee4ba1beb03f, 0x2dbf03f426769cc7, 0xd6d68f4b7bc6ec8b, 0x8e1741a97f6348e],
    [0xae7d32ff7d04dbd2, 0x8cbca562ba6aa54e, 0x31f4d97a7a2f679a, 0x2f4aa8641ea41350],
    [0x33db473228fb7fc8, 0xb0362e5009f3d800, 0xfbf8b9ad668056b5, 0x21a0a43c88ce26ef],
    [0xc3dcc41c3c2df85d, 0xd93ff8035bcda834, 0x4a8fb21df9352878, 0x31b369d011f219e],
    [0x1f209c763baa8457, 0x90d21002275b5ea1, 0xb659952d3f2a01ed, 0x20a72083579059c],
    [0x41f74319c3adcde9, 0x8a4b9dc30cd1224, 0x1b43ca81e3611f41, 0x19f11771049b5be8],
];

/// The values of the dense MDS matrix for width 13.
#[verifier::opaque]
pub open spec fn m_vals() -> Seq<nat> {
    limb_vals(M_DATA_0@)
}

/// The dense MDS matrix for width 13.
pub(crate) fn m_table() -> (v: Vec<Uint256>)
    ensures
        v@.len() == 169,
        vals(v@) == m_vals(),
{
    let mut v = from_limbs(&M_DATA_0);
    proof {
        reveal(m_vals);
        assert(vals(v@) == m_vals());
    }
    v
}

/// Part 0 of the transition matrix for width 13, as little-endian limbs.
pub const P_DATA_0: [[u64; 4]; 169] = [
    [0x39adde2559592592, 0x23c33995784d2288, 0x9f2a8be7d2fa5832, 0xd064dee824928d3],
    [0x55ecbf803ca80569, 0x2f0dac3680a6c26d, 0xd6a85d75e3e08f3a, 0x2b2ff5f27531b6f3],
    [0x4981eb6e4cb4a5fa, 0x5ea9f87a5390f561, 0xeff233b7d1225801, 0xb658849ce620bbe],
    [0xa16e72d47b48b70f, 0xd2c417e2782e5efe, 0x5167cb4473d54c6b, 0x118132fbc1cd83f9],
    [0x2ef14a21fdf524c0, 0xd085bb562b838d7e, 0x562a5749f4f06c4d, 0xb5944768d61c1b3],
    [0x89d1fa6f3e56445a, 0xb5bcc0d7b1950b8, 0x12d92c5c6212803c, 0x2b04d6ffbaf71440],
    [0x52fdeab5450c9c44, 0x2a3d1ae44c5dce1, 0xe3320fb0ee46b4c1, 0x29be2a42834ae32d],
    [0x2883c7b218b11eb7, 0xf9031fec82da9ab7, 0xa716eac08561cd91, 0x1946fe9de0a943d5],
    [0x8144109f894bf1d0, 0x17e39ad5701ef70f, 0x55df8e49835b92fa, 0x1af3ca6240a55aba],
    [0x5215e47f8e58c2c3, 0x35342fd0677ee1bf, 0xe0369fdd81a1900, 0x81f58a91a4e0d10],
    [0x21d7c7793ad2305d, 0xd02b406bd6c7fd81, 0xa9688b71ed27c157, 0x22a852af90680a8c],
    [0x8c1276b1001089a1, 0x7828985c00c3e5df, 0x68981736ae927a22, 0xb27ba82a0ffb983],
    [0x1a2cdeef966f20f6, 0x65635552dee24066, 0xa0d23c8438bc49a3, 0x4b46526207edc70],
    [0x4ea72fa0d7faa9a1, 0x783be07f5a6adba8, 0xa821339189d24ff, 0x5da987f17a17632],
    [0x5e5b1c3071f4a070, 0x6f03092b6910f3a0, 0xd4b38ed042277d96, 0x20dcb39566362206],
    [0xaaee0c8158961174, 0x5e635472e790e295, 0xc09df75bc62f7587, 0x2816fae6fcd39053],
    [0xc0da6b81d2bc00e9, 0xfbd5e4252de4b5c3, 0x63183d36c26b6b37, 0x1df6a4c43bc5c697],
    [0x246d98bc435d9c59, 0x6b971da924ae9920, 0x33eb6ae39afdf9be, 0x251e1806f1951c2a],
    [0xc938199cf71aeb64, 0xf85b3301bfc3c342, 0xa3c6f8f4c23a5980, 0xfdaef081ffa41b2],
    [0x5273b6902b17ed49, 0xa9fdadd78b8b948, 0x380a63c205dd966e, 0x2ec317d402fd363],
    [0xdf14f91d0e6e8d44, 0xc012d6737d93be00, 0xf5ce97bf05bcd5fa, 0xb5cfc2a2895a6f9],
    [0x8b4bcd82ea79929a, 0x1b174365a8efb593, 0x8700743aaa5c706, 0x2566dbba85110cc7],
    [0xf8ec0422f2ef8b84, 0x3c80e044e15729a6, 0x87d463c50a7277cd, 0xd94283e58978ce1],
    [0xfb4089bb6074ead1, 0xe7ce6485e9697d14, 0x88facdc5e32f0b42, 0x239a362ac4f07cd8],
    [0x393b285dedbd8114, 0x89a82a760a9fdd85, 0xd4fac39214a4e82e, 0x2ceb1780957827f9],
    [0x5f6c2ee2ba32e7ab, 0x4bb45d65120cc084, 0x1b0ea60402ba756a, 0x1ce71edf5b935a23],
    [0xe94b971bf079585e, 0xa9c6c3580144e7f3, 0x9b47702708422b35, 0x142b410fdf81d248],
    [0x82c912cb5d428585, 0xebef7eb08ca9668d, 0x99edded32e4f404e, 0x2e3c5d5b931ba49c],
    [0x133184456ecc57a3, 0xc667a80e69e44993, 0xa32966a1a53d29f1, 0x5849562006496b3],
    [0x99b133d01023ef76, 0xfc8fc8ceafdbb535, 0xfd90b23229198d09, 0x2fcd5953b4af9a49],
    [0x6a07800c8698fede, 0x5181d91e3e2f6c5b, 0xfe609ab9e441218c, 0x2995212cf7dab0d9],
    [0x30621086f994879d, 0xb0e3008c2007a89b, 0x8fbd4b2270791912, 0x33a135f38b76002],
    [0x3b602409f2770743, 0xe0c20463b3d0abcd, 0x60fb78d0c764adcf, 0x1ac21ee4c3af5f8d],
    [0x4759d425cea472f1, 0x20d0e14b34c91b6d, 0xe6c8aeb7437aee, 0x1176eb406c82709b],
    [0x85b0cc054a60bed7, 0x294290afe47949c, 0xccf6c908eb3792b, 0x205197098d681410],
    [0x65390fc8649a3d55, 0x332fbd297474c18a, 0xdb82b5e69c461e3e, 0x440a6e12fefc1eb],
    [0x7b354f100b514422, 0xc5a0bf1110e9dc71, 0xbb221c50fc9840e9, 0x101185b0a8c7d142],
    [0x5e121fc4b090b582, 0xee527d2242e26301, 0x7a04abdc0d968ef, 0x18259272125382f1],
    [0x9f4edb694c15672c, 0xdc6fd3fb29cacd0b, 0xe2693a734fe28705, 0xea85373234c815c],
    [0xc7043d8d2ec320bf, 0x75b9d14473319a77, 0x171b81b1891f3cfc, 0xb98437a312150d8],
    [0x9d3798c6b02d7735, 0xf826a4f106a93089, 0x81074d0a58091de7, 0x11c900f3b1c77320],
    [0x1a68ffa36cfc46db, 0xc53b963f4129487c, 0x7d0cde89e1baca83, 0x23bdb40dc2a5072c],
    [0x9f785a48a75f450b, 0x88ae882c19af3603, 0x8819772b35eef0de, 0x24c66b7856c9a5d7],
    [0x59009504f81aa57f, 0xc44d69abfb918495, 0xe71eaccb73ec7cd5, 0x23f10d62357467c7],
    [0x1591addbea75adda, 0xe2670f226bd883d1, 0x6cfcfcffff8c926b, 0x2e1eb1ea7a168448],
    [0xf8f78aa3e1aa68c5, 0xe47a8381321dc5c7, 0x350c4e7c4e59a820, 0x882e85d15875eca],
    [0x62350b4339f74320, 0x5da9bbcc9350b408, 0xb43c853c9030c7d9, 0x151f15179f562e6f],
    [0xee234e8dcd973ba6, 0x8b1ca45758c4fcbf, 0xe44b306c4539575f, 0xcced1f9a364f77f],
    [0xb21b0b4bb85b11b7, 0x88fbefe8f5993c0c, 0xaceac7fed685b0dd, 0x12146efb02498c13],
    [0x7040c781fa5ae476, 0xc8f72de23a6ee33f, 0x84241110f428722, 0x2719aa9c388ab97e],
    [0xce2453ef193bedae, 0x3d2ea8d3c6cc827e, 0x6bd89a59173ce849, 0x10c97f58b9ca5842],
    [0x8820f858341d7188, 0xf94a3baebc52bcce, 0xdae47efa17b0582d, 0x10e60b02e5c0abb8],
    [0x7a6a6b73c52c7f4, 0x38481129c546e800, 0xc7b751129e0bc1d0, 0x2f88cac82b777c1],
    [0xde340b5e32eff61c, 0xac9fe853558d584e, 0xbf5f2ef6b518a47f, 0x2cfc4c4f3575a5f8],
    [0x3039d19b042fb575, 0x9f7bdae014bd63b6, 0x90dac5aa35e2d5c3, 0x2283767ef21ee3be],
    [0x2152a0d53d590a30, 0x5ed6fe024be532af, 0x5a7f02749a63a35, 0x1692394c144aece3],
    [0xb3ebdf9635ca39a5, 0xf851abc0dd5bbd64, 0xbb176ee01b59499d, 0xd435e4564d33704],
    [0x6ef73c19d0be40b3, 0x108204b09ca3512d, 0xb84cdf474a435da4, 0x28bf473bec9d8842],
    [0xcf56e18c21871cb6, 0xb6f96b1507580b45, 0xb89e805f26952bcd, 0x290075bb9d48ea0d],
    [0x1d6509e37e3c8283, 0xd9f423bc9e311a21, 0xe553e82ebce5a91d, 0x1d83dbd5511b6cd9],
    [0x27919b63e42501e2, 0xda211c98323f23b7, 0x73307f4825e80471, 0x305e20ea1b93c0fc],
    [0x8e2eee8230131f6a, 0xbbc1d1295ab39a10, 0x820ac07e0d2723a3, 0x64b0712fa159104],
    [0x906a0210b98bcdf7, 0xc4af473cb54e3dad, 0x418648314a53acca, 0x18aacbd4af9ddb42],
    [0x846849eb0dfc47bc, 0xd1834e1a4c71f0b6, 0xe7ad5086a29d53a9, 0xfdb0710ff8ec599],
    [0x8a00f8594bc3b127, 0x31c082baa68ac763, 0xd0b43715f4c24b90, 0x67ac96b7ae162e5],
    [0x90f4a7f816639416, 0xe82d045eeefca953, 0x3ebe8892bd41ba43, 0x2b37af1db29d4511],
    [0x3d6c7d85c8677a21, 0x7259b4232542eaac, 0xb37c87da9b00fd27, 0x7ba6d2ece419d75],
    [0x544cee9d03194c13, 0x34484431cd2d1080, 0x895e67b7ca3ebb9c, 0x1a2dc35b3c29c763],
    [0x854c1be1d9ebb9ed, 0x6a7dc6eba5e51ed9, 0x9cee0b9d31be6261, 0x2e0f2af806c4c37a],
    [0x3007fc3a987e842e, 0xe9a2d46e3071e5bd, 0x2cd77c00ea81f751, 0xffb4165b1b9e11],
    [0x255ba787d02b0366, 0xb5d7d906947fdddc, 0x9f48edd50660fbc1, 0x2edb397ae478291b],
    [0xcf846ec5f54377fd, 0x9b1e681163b80f82, 0x99a2de5e9605e112, 0xdc29c413aa32c21],
    [0x7fe88dbba993160a, 0x5088cd487260bcb6, 0x7c26a95be576fc92, 0x62edb4cec259e00],
    [0xf056eb9f2c13d536, 0xe72df720bb533055, 0xc9eeca4adacf0ebb, 0x1e473b357377aeb6],
    [0x8e47e366110af98d, 0x16eb46fa4d9235f2, 0xe76cfced2e916007, 0x1e0f62f785734194],
    [0x997829747120aef6, 0xf17b9f0e345889ce, 0xd662a2f31d00633a, 0x28d0ac11170cf9a],
    [0x5d6daf56b4da0546, 0xe0edf4a3c490dbb0, 0x3a882fe3ffe416e8, 0x2008c67e2365d2e7],
    [0xa69bf8c409a73cab, 0x6a419ac6f0c8ec19, 0xa15853129e238b04, 0x293dc450b0e5c560],
    [0x7f1f4c0738edf767, 0xba632cb20e07d9bd, 0xa196992bc58dfcff, 0xe0fcfee5bd6119e],
    [0x7d239eed0702f8a9, 0xd101504b008b46b4, 0x9dac1f950998c537, 0x2ad1869717ab4c53],
    [0x5fe9a97caf186033, 0xdc3a11f183ee0f81, 0x50b58ae1043cc7e0, 0xdf23b54c9ee2fd],
    [0x51a418f2f6401127, 0xef784b8f67ad5734, 0xc69bc3f63c48c052, 0xfda8fed741c4382],
    [0x5c205da9b1b8188d, 0x75af7e5d7e2373b6, 0x2378bbfcf44b8e94, 0xc55394f0fbacf89],
    [0xafa5d7ee6abc605b, 0x6e8d1607d7f4eab0, 0x78390b8beac81aaf, 0xfa157820a600d4a],
    [0x8136bf973b0d3987, 0xbf50da3aadafb7f, 0x7a2a837e2816cac7, 0x2dced935f82c932e],
    [0xcb5533f0ae878927, 0xfda97764052ade30, 0x30759c877186ef25, 0xa390e27ae606a35],
    [0x7b667b8f825b2451, 0x32ef0356c73ce35f, 0x482cc560c2f4f2da, 0x56d703af2f1982a],
    [0xa0e89bbbd9e9475e, 0xfe66f098fb61c231, 0xf851dee5e4edd9fb, 0x8204690216d1d2e],
    [0x5f21f8ff9b0f8970, 0x465863a66539143a, 0x737fe1755f75986a, 0x1c76cca8e7372edc],
    [0xcd26244518d67062, 0x755c7a9d82876352, 0x55981f935798b58b, 0x874dbfdc6d70356],
    [0xc1a1e235257d1fb9, 0xdaad75e42acf3d5a, 0x4965e82174a35dec, 0x7a2dcd14fb01767],
    [0xe151ff591c2d98f9, 0xc9ab427ac9d1807d, 0x1ad6d83474b3e98c, 0x1f801f49cc72b3cb],
    [0x28b6f0f802850576, 0x7be78fc9585a91fc, 0xb43f26771aa34730, 0x6b21b6e86693de4],
    [0x11e753d7386e7392, 0x4ce7765f4327700e, 0x8906dc50e0d5a8e6, 0x160a65dbda0b6f11],
    [0x3b06a4f50b580d01, 0x8580ac91d0c8801b, 0xd147ea6c26feaa37, 0x1734a0338c0a652],
    [0x675daeb6fa138423, 0xaaab1b5cbdb24f9f, 0xb65a0379df8dc871, 0x1563ed24f45a7e60],
    [0x971c1d04fa881c3a, 0xc057124aa1669240, 0x8b27c7c655b71cae, 0x283fa69d06b072eb],
    [0x7106f2a5a60f0eb, 0x1c422e4f13abe905, 0x9ffa42926a8aa970, 0x104de5f8e59f9848],
    [0x79b371bc53eec16f, 0x6f7e4c18c6522a88, 0x5e4facce2011ba1f, 0x17a961c4c7f02110],
    [0x9d4c532eecc18d67, 0x38910f72d8143115, 0x3469794eb81f574d, 0x46beadefd1c735],
    [0x60eefd58502b1ac6, 0x52489eefb58cfcc2, 0x86cb727fc2561ed0, 0x20bac589a9959370],
    [0x6ebbcc97297d6cd0, 0x6d1cd1e001505ce1, 0xc0e943dd60c468ea, 0xafa7a7f02200447],
    [0x171f50de5d9799cb, 0x55080956b53331aa, 0x1a16b483b2102e00, 0x29d294ae7d02f237],
    [0xe86f03ed066c9876, 0x7eafa895d98e0bc0, 0xfa5eb75a0c032b7b, 0x5cf8b0f380d29be],
    [0xd1d72bac8acb33ae, 0xe0a4cfbeb91c87e4, 0x509fbf12aa240297, 0x5aba81d049688ec],
    [0xe9a70a692a1965e2, 0xb651b492aa74c92a, 0x607b5224797eafc3, 0x1e54ea10d6b7cf0],
    [0x925eb9efad60dc20, 0xded02a7650eedf67, 0x5d529ed57986b8ec, 0x24b39cab2a81551d],
    [0xe80688332199990d, 0x8a729f09dbf45984, 0x291639612b53c10c, 0x239102aa73485d2a],
    [0xc342c0edcc22e577, 0xcdaa78c06605db3, 0xfbce9182a6e41fb8, 0x270dd42f73034ebb],
    [0xc1d452730d63058, 0xa1ae38a83c48a04e, 0xb646c4f32ebe7cd2, 0xeaf5ba40262c5fe],
    [0xf4acde5204c4997d, 0xfc78c01d9c5da84e, 0xaec7c5817eae6d0b, 0x23b7b05c996c963e],
    [0xbe51d562bb24f01f, 0x4b354f586ca695d5, 0x49b981d7f2d369f1, 0xfba90a3180e89f],
    [0x38ecd68dd1e92522, 0x56997eccbe50d703, 0xe788665262f8b997, 0x2ad6ce3498864f0a],
    [0x826accac2034fe71, 0x46472a4ed46af710, 0x8a9db91966e6145c, 0x1f4bd25093fafea7],
    [0x913c1709386c5e3f, 0x74f94c7212d72ab6, 0xbca73b274bc28bcf, 0x28efb92a44b7e421],
    [0xe2f15cfeffb4d9dd, 0x7c029a54e0ead556, 0x6c3cb7bd74901786, 0x2aa10edd36798bf4],
    [0x2d97585b560c4b2c, 0x4e6be0d5a99cc675, 0x7fd9bd859c583284, 0x2d00dde97b415010],
    [0x4ed84817ffe8943d, 0xec1342c08a927077, 0x2571c0f7200ed332, 0x1efaed0a28bad971],
    [0x2810bdff4794ae97, 0xac795b4ba22beb69, 0x19b1c8046145626b, 0x23b47244bbd00be],
    [0xef25bf8ee86eba7b, 0x6cd997d4f7bec484, 0xd1980eed6f88a256, 0x226f8e8bfff7dcdc],
    [0x6135084cd15e1b57, 0xa6eeba5237969b03, 0xfdcceaf57ff198ce, 0x15c8103fc31eaee1],
    [0x8e44c06d43d37653, 0x1d9807460f30af94, 0x3cf66c9f14a4899e, 0x11293baf366c075e],
    [0x70542fff984f5570, 0x67c58224662895d4, 0xa7c070ef0649b6eb, 0x2306577578a3acb6],
    [0xc6fac0ed9fc1958, 0xc81d32302740709b, 0x1b3baa1975c6824c, 0x177a7ae9bc58e64a],
    [0x5b2a72201c9bf48f, 0x40ae6266c426f46a, 0xffa91416dca65e69, 0x1b17b06f9727550a],
    [0x779cc6e79e643fe7, 0x36653fe8071ecd3, 0xfe39a83c045a1218, 0x8b39764e398e29f],
    [0x6df14505f071de2e, 0x7d0ac6d3457a6e59, 0x40b66e41ad9cd09a, 0x278c85ceea23e4c0],
    [0xd9053222fd2eb4c2, 0x98119041bf9ad3cc, 0xc12067c560bbda2a, 0x1a03af000cdc46cc],
    [0x502b29f4c3602704, 0xe02c6cf80a9327ed, 0x3eaeaaff9af5149, 0x2b457a5ddfc105f2],
    [0xe5f6cfcbc6a14302, 0xd893b2bef2d5453, 0x5a0cd753fb6ac80a, 0x6f2b210733fa060],
    [0x9579923b061b206f, 0x64c3e38c946a1f45, 0xc9182787a7d252f9, 0x2765f7a0abe74654],
    [0xbd55f352a195192c, 0xa0633a3998eff403, 0xd88f85fa6bb69988, 0x16ba1b0ff54dacc9],
    [0xb33cbd4ea13474c6, 0x2ea49d5e3abb47f3, 0xab3f58dbdc95eafd, 0x2aaa2c1202b74f2d],
    [0xd1b6826807821747, 0x643d6d1c03449a5a, 0xec8a7cada1fb238a, 0x1ce8ba9e5353bc50],
    [0x7507983a74f9707a, 0x9c14060543e78a46, 0x82354a066756bc11, 0xdbe92f1d5f635e1],
    [0x2989de9df97c1161, 0xdaf0bc16645f0f20, 0xa9fabf6bf5db5fc3, 0x2f204614994166d0],
    [0x8a879908c80c22c7, 0x16c9ac75458588eb, 0x39debdba504f79ea, 0x1552bf00f696b1ec],
    [0x9ce1400c1c6638e5, 0x9d240c46885a5fe3, 0x7a16863d2987edff, 0x24aab8dff690a59f],
    [0x3f4c9f030513f622, 0x764dcd2f07aab412, 0x18cf9781beaf8940, 0xffb07a9dd495788],
    [0x3cfd3933d2c15c97, 0x4b16945cbdf38db3, 0xcc97f5910d822812, 0x45ee69f0bcde13d],
    [0x471d9540c0039451, 0x8c282d8a902db3ba, 0xffae28eb4adef67f, 0x2409f6c3cc378966],
    [0x2d6fc1f59d48a708, 0x79c7da79ab22fb06, 0xb8d99009dffe0379, 0x29ccc8e6be785237],
    [0x5db7fb5d7ce211d, 0xc142bf485e2142ae, 0xa7dce89f132b3dbe, 0x1588e892f9f2d3c6],
    [0xc128acb79daf88e1, 0x2980f2b5dff48339, 0x742ca518ed4d4d75, 0x540383aee2f7779],
    [0x645e432143edbaa4, 0xf9281b220b0c6334, 0xe953a94133047f3, 0x2fca16354756928],
    [0x89d5ced54155f34f, 0x5dcb46cc47ee5329, 0x1c6133baf90169f6, 0xfaa06fba9421c02],
    [0xabf1234df19fb7e0, 0x4e4cfe16abcd44df, 0x6b596bacedfd8834, 0x13cc546736c85975],
    [0x499ba773dcc0c217, 0x3510622713e2b833, 0x6f0b5d6a1ec3c605, 0x22b8d93d76a89bc3],
    [0x6f148c8d318e7920, 0xb551221e994f0880, 0x6b6e5ef823e29d96, 0x2a93e968eafe2ef5],
    [0xa2562d28f4785ccf, 0xdec1f9ab057747d5, 0xc40fdb65123bcaac, 0xbc4a8170c368a03],
    [0x68e66882d3cecb15, 0xd7c1259af7c64ea3, 0xd9b39de6eddaa2ec, 0x48ed2132edee472],
    [0x130defb06a39023a, 0x3678236c8f5433cd, 0x443669d526b9998, 0x2e7b46afef5262f6],
    [0xfcfa7c4a9da7d8f2, 0x90e8127485d424ab, 0x81fcf86a7c270ded, 0x5ef0c0803ce631e],
    [0xda00abd0ecd94ab6, 0x890b3d9631dd06f7, 0x26d1f819695b3f7, 0xad59025aa1e7d4a],
    [0x45572826549109e8, 0x50dbd79f9ef7c457, 0xf0153b4446f6e2a2, 0xd829ea3c10abe53],
    [0x5fcd28807179cca6, 0xef3c0c807f52321e, 0xb20150093fa670db, 0x14c92dfaa3a1f830],
    [0xfa8cad1b772f781, 0x2185966e93e62dcd, 0xd1e93c5244d636d7, 0x198d160f1f80e78f],
    [0xe44a9e48b47b88de, 0x1068da52d8bd493f, 0xe862e94b1948eaef, 0x262cc29dc7439873],
    [0x32b923f891e63720, 0xd91470e4b9120401, 0xc7d3262406399866, 0x17af1f8b71c3656e],
    [0xc84a9318d9863678, 0xe7ffc8dedb72e34, 0x8ed9aeae4fbae4f4, 0x1dcecb2dc57bd3cb],
    [0x406d9fb0a7f62f28, 0x29f6a2fa20a2ef1f, 0x8ea7c859da3dfa72, 0x23b478d2e4e21e47],
    [0x978d597a6a20e202, 0x696f2246a13250f8, 0xef34a939ddab2b80, 0x2f4f684d1f698b3a],
    [0x2881a4aeeec2751e, 0x29f2e89e264ceb1e, 0x469755f9a76b92bb, 0x2593132f444b3731],
    [0x705ad383278f1f7d, 0x4034d8b0ff91a834, 0x8e0ef79dd7ef8d7c, 0x3ee389275c64f64],
    [0xdb31353b19a91470, 0xcfdf96b20d200e4a, 0xd9e57e6419986ee2, 0x13c717906e68279f],
    [0xa52274093f9fc085, 0xc5e63422d730a3ba, 0xc200bd721bb2c299, 0x12b584469f8cb8b5],
    [0x6f6baeccffe2c488, 0xf0b0906151307b97, 0x5b65dbb6f4420106, 0x7591d69aa28fbfb],
    [0xd1fc7a62a04287e5, 0x91e553be4b67c2b, 0x51089474c8ae39b6, 0xcb3680ad25a34e3],
    [0x55c963edc263af6a, 0x55f7c9f4fabaa243, 0x268361d5e1c22f95, 0x1bb4555d8c5f8bbb],
];

/// The values of the transition matrix for width 13.
#[verifier::opaque]
pub open spec fn p_vals() -> Seq<nat> {
    limb_vals(P_DATA_0@)
}

/// The transition matrix for width 13.
pub(crate) fn p_table() -> (v: Vec<Uint256>)
    ensures
        v@.len() == 169,
        vals(v@) == p_vals(),
{
    let mut v = from_limbs(&P_DATA_0);
    proof {
        reveal(p_vals);
        assert(vals(v@) == p_vals());
    }
    v
}

} // verus!
