//! Constant-table data for state width 12: the flat round constants,
//! the sparse partial-round rows, the dense MDS matrix and the
//! partial-round transition matrix, in row-major order. The constant
//! arrays carry the data; the spec functions read the same arrays as
//! value sequences, and the builders return vectors proved equal to
//! those sequences.

use vstd::prelude::*;
use crate::field::{Uint256, from_limbs, limb_vals, lemma_vals_concat, vals};

verus! {

/// Part 0 of the round constants for width 12, as little-endian limbs.
pub const C_DATA_0: [[u64; 4]; 156] = [
    [0xb4ad5c6e23ad4e5f, 0xf775c642b300da2f, 0x89f071140a60749c, 0x1512df0135b66925],
    [0x482ed3f9b66e1198, 0x356589896d6a8849, 0x1cf6544b2f4ce58f, 0x2b109ae037ed3036],
    [0x1fc10cfe1c077f34, 0xe2111ae4e1ecb1d6, 0x3d485478a19eb149, 0x2585bece06eff55],
    [0xd2bc4819c70b2f3c, 0x3b813a8cc343b9c2, 0xb2ad926741b481d0, 0x1ff896f4c0662f4],
    [0x76ecbc3704aa45dc, 0x8b7386a5afd6c670, 0x4cd4fbb13d3116ac, 0x1b0caf02f434fa3d],
    [0xf8e508684dfe5bcd, 0x6f2f153a6f51f60, 0xa7805894ac82b57c, 0xfcb7c9f13c85517],
    [0x354504d32cbf9954, 0x68ad8bf554541182, 0x9cef210e42e92b49, 0x2dc2bdf7f43812e3],
    [0x5c0a08febad13664, 0xb07c9a65635c90f4, 0xa46bbf74594438be, 0x5add9df20c1898d],
    [0x5895447c8a58859f, 0x1cdc4194fbdbb6ca, 0x997fd55ace8b8819, 0x21cada6641664daa],
    [0x2b103590b848bf04, 0x16ed66667a04df57, 0x58b04489b153324d, 0x19623504589a60f0],
    [0x162848ee1d57dec2, 0x2d5f84452890c444, 0x5e02c6475b72fd, 0x1776442d850a436a],
    [0x7face89234a09a98, 0x74f24eff853938d8, 0x396610f3c868d708, 0x6c1691fd6d2ee98],
    [0x9abc75850400aff2, 0xeba094920e772cdd, 0x57e7fb986dadb3aa, 0x17f0d5cf360c354a],
    [0x408e2cf82ef3358a, 0x42a84cfa30e1bd36, 0xcc2f80b698d96026, 0x3062c0db9c925c48],
    [0xb0647821f6874c2f, 0xa07c447bdd6ef183, 0xd35b987db03d62c2, 0x239ec7e4b4723c8e],
    [0x1c28dad3f15ffa6d, 0x314d9a1f8d9f891, 0x2693e967740b5fa, 0x2bd39ed7f4f6a72d],
    [0x68bb4ba5cb17bdc0, 0xc6ed2cacfcc90365, 0x39269cf7fd221fb7, 0x20350e75bbd562e3],
    [0xc126e24ef54e4b8f, 0xd6fb631525285dc3, 0xb39abf35a433437e, 0xe97bb9d9784920f],
    [0xbd8224a7edac685d, 0x48e4a5b3af445eee, 0x80a2164614035590, 0xb12ccc871d3272e],
    [0xf0f216436826be2f, 0x48b3cc105fa78ec8, 0x2e3d73cb81709d5d, 0x1dfa3b05c202cd98],
    [0xea30e0733ed3be6b, 0x4afc02d46960459f, 0xf131d6de70b288d9, 0x8d9fbb0715c9b],
    [0x7df1725ff465332e, 0x3e5be27c212e8610, 0x62e5437705ce4915, 0x292b7514248f1ae6],
    [0x45bdc6aa75c901ef, 0x7285d6bcd86e07a1, 0x1ab3ad0dc98263fd, 0x1d58b0684f64db62],
    [0x1ba687757514acc4, 0xadc2be282761c44d, 0x1190082f0b29b0b0, 0x4e7bbd68e9989a9],
    [0x8725b08fd9ed8d22, 0xa1b67308e70ead17, 0xdc1b4071b1948e53, 0xd93a5374677c75b],
    [0x380d9ae1f3e79a28, 0xc163d1706b4d3d4c, 0x1f97d5998d235f97, 0x11eca18889e9f49b],
    [0x925e6e7a9d659a60, 0x18783237862bab3e, 0x85b398c2e3f28e32, 0x266b924e67a868a5],
    [0x74531c2d461867fc, 0x7ab3c5881bc6b5b2, 0xb6a14c1c7803caca, 0xd2e26ad58eacea3],
    [0x9591e5013a84bddf, 0xd92713ef6e821816, 0xc3e40135655171fb, 0xbccba4532b7eea6],
    [0x85808f320211d061, 0xf362e183da6b84e9, 0xd59030af035c18e4, 0x17a12ea9750405b3],
    [0x65f982b60e0183c2, 0xc5de4a2c69c31816, 0xdca388a1d3a95aec, 0x76510bb9eb19070],
    [0x599910c993b6bc00, 0x22d6f68059b15c70, 0x858bc8f19528e8c1, 0x1b7034b3beb0680b],
    [0x15baab2382b28bd9, 0xa59f4273f1d969f8, 0x658521517138795d, 0xeacf7ac9862ff85],
    [0xa19fbfe538e2cb80, 0x93bba98b579f2417, 0x65d094c8c5da43e7, 0x1344043beef1afc1],
    [0x3277e504c441b1fa, 0x31391e6edd3ff456, 0x177b6f7282493e6b, 0x566dca10a0b92ce],
    [0xa4548d05f3c78387, 0x497d2ed1a1ef276b, 0x2eeacd033f184fef, 0xc9c6b5c46b9877c],
    [0xfb9c834f988a96ca, 0x1d68714b80b6850d, 0x445fef0618f1b1a2, 0x1a5f92921d4f34a7],
    [0x7192a510f1d8e106, 0xb3fe4fa024715e3f, 0x22809f07ee078cb2, 0x14d14e621cbe6270],
    [0x9812c32b12b8fc75, 0xfe8c4133355938cc, 0xe58f7a0ac8607c92, 0x1b6f67ca2ff07a2d],
    [0xf7c26e62de26fa12, 0xab52f53dbbe6ef23, 0x47edde5fd33feec3, 0x4c3bb7f555a1a87],
    [0x507951aa38a66331, 0xb6809492d33ce3e, 0xa3ffbb8233149beb, 0x1aca03a3d87c90e7],
    [0x107bbe78ac2ffaf1, 0xe878b3dc54f9d7ff, 0x3d279c6fe914d67e, 0x2294ab2f143e49a2],
    [0x4397fae941e6aa43, 0x8f5c1d3c08f66ac6, 0xc0c9809f4e7d7e68, 0x2fb43038c0b4433a],
    [0xc8b8360fb5a3296b, 0x5fbeb330128a3bc8, 0x2e87c7521fffbaa8, 0x274479867a616c60],
    [0x60b65347fb4ef820, 0x623201b4c055dab6, 0x16500228d8889dc, 0x18a3410d063b4e72],
    [0x1aa94ffeee452619, 0xaa2d351f3cc11c6d, 0xadb904fd6904a251, 0x2d6fe8d3d694ba5d],
    [0xbb254dcd2a787e20, 0x61119743188eddfe, 0xab0b3ff899ef89b, 0x1ec5182518d6d349],
    [0xe6dba79b3be9ed0a, 0x629925d6dce82f18, 0xdf93eb93f2695fea, 0x263a061f3ec9228b],
    [0xb61ef7c107bcd226, 0x9dbc58765a42a9f3, 0x6eb1f7d529b4d4c0, 0x2fe0300a8196b9a4],
    [0xb75ee18363dc0414, 0xa3c3012c0854a7ac, 0xea63843db9da09a5, 0x862f4486dc03350],
    [0x81eece51a4453353, 0x4dae116592adae8a, 0xf2d3df72a9e73127, 0x9ecd01d7dd15316],
    [0xdb8a93e3254eb8f8, 0x790bae028858dbe5, 0xc0d2da69617739fe, 0xfc127ceee377fed],
    [0x40b64e928bd32970, 0x3dfc57649f3038f4, 0x5e4c1b61e7f9560b, 0x15d224160265df8e],
    [0x2fe63e6302550f50, 0x2afc72ad28e042c4, 0x37b44935a1bbf478, 0x110f785f7d04151a],
    [0x3009a45fa1873f70, 0xe06d5fb1c3e2e51e, 0x943e6f8d044ae87c, 0x17fffee137039b42],
    [0xdfa1dd90dac185a1, 0x5245cde116d7e0be, 0xa97acad9291f63c0, 0xacb1888950067ef],
    [0x42493f09c393fed1, 0xef9bbfee016e665e, 0x2fc3b531bd4ed54f, 0x22a4abaa58137545],
    [0x3379d4c81fc793c4, 0xa8524963ddffaf86, 0x87be6226ec05a2bc, 0x25adecd63680d23f],
    [0x1cd364e9ca1ceb9e, 0x77e7189e0f6ef43e, 0x9eca1fe1f2027e63, 0x220ce90ed6442f45],
    [0x9394481a94b97195, 0xcb33040fc2598903, 0xf65a3641db3c8d6e, 0x2372d4e4009fed5e],
    [0xb0b6cf69e316a51f, 0xaa535f465967b64a, 0x2030cf0e8994d90d, 0x11926b0acd944afe],
    [0x3474faad18e3800, 0xa7662b314a31fe0, 0xc741da84bc9758aa, 0x1229359753fb4a0d],
    [0xadfe8fe3e4bc3977, 0x45fd08bda74d5857, 0xbf6af2e54897c51e, 0x2b3a66d166c51a62],
    [0x2ba0881d2f7b8e2d, 0xa77a19b28c4ee55b, 0x927781af2a4cac46, 0x1e7f4fa362bd86d6],
    [0x7df92d1554e38cba, 0x688f9f9d47d3c8b0, 0xea95ec1876a93d33, 0x91f7d66fc8ea2e7],
    [0x47795b87e12b6bbe, 0xdaf49e5afcada508, 0x393b5fa0f8b16293, 0x2c17ae7d9af800bd],
    [0x96ef44fb35bbbc7, 0xd3c3e7a53e22f6cf, 0xad1644b852ef8de9, 0x266e76891b0271bc],
    [0xdaa4777c2602166c, 0xe67b4d74db6d2d5c, 0x7e6ce696fef7eb94, 0x24da30c34e49b41],
    [0xda49a185937c2c94, 0xbad669b74c25fc9a, 0x2ef8509edd468586, 0x4c3d31703ffeea2],
    [0x3159f5fcc5bded33, 0xf7db6b501e010c28, 0xca755f9a0cf7c5c7, 0x2265314c66e182fe],
    [0x2536d7c37f5c1149, 0xd510054db9599f5f, 0x6329fa3eccb67964, 0x1aa1766643eb30f9],
    [0x18e823fabebc8947, 0x5f787dd927993572, 0xab40eedf2fa75e02, 0x107e8da68896a4d3],
    [0x75f0f28ac6e72d60, 0x950f7ba8f1e15494, 0x7bb1d6954ca0901c, 0x191aff44b7bf9902],
    [0x5dd4eae9b4f1f507, 0x744ec5b4e5a39220, 0x5a4277b39d178918, 0x2d6a00ed5b8ab005],
    [0xe968163c44f4e669, 0xc24e10aafb289d03, 0xdd2babc5f0da3ed9, 0x8bddd13ce3e6d0a],
    [0xc318973fcab18f13, 0x771833f9ac9d1b67, 0x634320f90d84678d, 0x2f0575cf9b7deadb],
    [0xfb80a75e1e4d7cb0, 0x5ea727795fb0d05e, 0x452fcc6241734324, 0x1366a05d3047d5b3],
    [0xbeb10e5efb4d6fe3, 0xeaf258b94225fcd6, 0xb1080fd64f340594, 0x234dadc295579c62],
    [0xf43125a33cea7821, 0xe3202ea1b95e5d0a, 0xa2c7b0ac19bff6ed, 0x1f78b1c152a40027],
    [0xf0dd70c2e14df9b2, 0x3fd089d9b73715b, 0xc785a0bca1117419, 0x1532e8db5fd0a6c2],
    [0xf351225225aa0279, 0xc6f58e6d502d69a5, 0x8b4482f278d35a28, 0x9012747fffe05e],
    [0xc08e5d11c96fbd65, 0x3c52c59d542a128f, 0x4f2a979d91b02fd3, 0x105b192f778c4235],
    [0x59e0bae679920b81, 0xf7a67cfc7d8e7567, 0x2e6faee6c503c9c6, 0x24bcbd8a492f542d],
    [0xe05d8b96c2dc9e2b, 0x3dfbe24b8f41e789, 0x7ea8ce1aaffb0737, 0x13e55913295f2669],
    [0xb01a61599c286139, 0x29626eebd03a593d, 0x92a18ee6d5ed583c, 0xac524f2908d8e12],
    [0x6181077e41168a8, 0x8af6607edad14bd8, 0x3ca4b75dd5f69acf, 0xdc402c7aebe3f02],
    [0x73ebdf2c900d9400, 0x2309c4b59fc96c76, 0xcb3b39546609c1ac, 0x6d687b70f200804],
    [0x8f73a8b45accc8b3, 0x330a99da8a095e92, 0x6e10c7eb3c6eab12, 0x1e0c2662cdaa9133],
    [0x3a288abde6db6264, 0x9df89dbe6a985021, 0xd36b415f71ff807f, 0x14be0cbdb25a5f84],
    [0xac37b8ab6d12233b, 0x1390902e82d6ecb4, 0xd02e135eb0d2bd25, 0x2fc8c8938e2554d9],
    [0xd84a000e95c62c95, 0x1689bb3359647219, 0x87fe0577dfbf1270, 0x2059f3ad1d4ffa27],
    [0x6fef166da18fe7f4, 0xb87bb537c695d5ab, 0x7e5f927ba5e40d6f, 0x1e90ed09600b1ad],
    [0xfd31d63cb81223ce, 0xca21150b4e029836, 0xdb8ed25eefa943f6, 0x64fb597e3bb0a3f],
    [0x61ba96d79854d6f2, 0x18fbd64ab6f6756b, 0x91eab77327421b8b, 0x710644314ff7d60],
    [0x99b84af45dfd1dd, 0xe973647d02be011f, 0xf07a2abf0b623896, 0x17491b622e2f47ca],
    [0x6dd7fb0795d77712, 0xb7d37e8cab2e27a2, 0x7988dd51243facdb, 0x2c7aa4382c1cc189],
    [0x5dc24944f77bb711, 0x2a5f111a293624a4, 0x6044e898a6d8a659, 0x14695d28c7fa12ea],
    [0x966cbea0ae32cef9, 0xc4d36c8ee14b3559, 0x60aca6ba65c81457, 0x1602e77d6ee3a46b],
    [0xdf3283ee1f429ad5, 0xd12d0c44a280d7e2, 0xac75f53983bae994, 0x1ab02e5bfaf9d4ce],
    [0xb74e8eecacabd939, 0x209b4f58fef5121b, 0x41e3cb82d624cb30, 0xd2b3a148b13d8a5],
    [0x5258df0d3a6a9b8e, 0x968111cffe9d1866, 0xd84007e89a92043c, 0x2e682ed8f03c5e95],
    [0x963b89c7a878cef5, 0x154fd9f5ce4878d9, 0x7a9eada39c3cfff0, 0x1428a6b9c8cccc59],
    [0xb942d45b7cf7ada5, 0x173a2d4eaf09d887, 0x314ff7172c70f192, 0x125dae4075bd6f83],
    [0xc0a28e2136d4bec6, 0xf639ab2dff85b1f4, 0x85bbfbe54a753e59, 0x273aafea62ef6ad1],
    [0x365615999b1cf404, 0x8b66e2272edca161, 0x30f1d37f9d02c3a8, 0x179314705df4e0b5],
    [0x4c242e2ed1016318, 0xa2e95fb73e9f942e, 0xbe30d76d7407add6, 0xdc05aa8617d57fd],
    [0xb42a8a51182652c1, 0x6dc99faf274f02fe, 0x58b1e60243c962ee, 0x18469f35a1ad56b2],
    [0x37b9007cf472ff7a, 0xf7c0e91931432343, 0xa2fe0c607077163d, 0x2f79b79663182739],
    [0xb0ba07cb412c2413, 0x7e574ea777aa891c, 0xcfb22cea828d263b, 0x1bb4d4ae946d5ec7],
    [0x110ac6877df6c20c, 0x5c1dc652f9012ea2, 0xb1c5aa5a49f97a79, 0x27270b27dc8fb9ce],
    [0xeda5ec6dcb2f6eaf, 0x4c73e5d71e5b0b5, 0xf0110c91ef540be9, 0x14da35468739dc3f],
    [0x8849fb981a35a2ee, 0x6c0b82ae7ccdf6f7, 0x851b64afbcde004b, 0x2e90d9ee3e7c2164],
    [0x74ba1761d60b6158, 0x511cacabd566c1e, 0x9bd9475ae4bde978, 0x2b15612eb9424746],
    [0x2c60e50df22c8ef9, 0x3d5f704e5c6f0a64, 0xa05ed2565651b289, 0x121c521576ba4ae4],
    [0xe93ec5ec1a0c2938, 0x83c59068c0b1d4b9, 0x9b9a4c83f3b6eaef, 0x23863fd0801582ee],
    [0x2cb960c51838693d, 0xa9e2c4e03cb0515e, 0xb04778f82f2e6780, 0x13a597a19307e90f],
    [0x685d014beeca35a8, 0xed7569a00cb4aaf5, 0x3ba86cc6dcc6ba00, 0xfe4f11040f7ec80],
    [0xff7108177125de2f, 0xfd747b32d1344b65, 0x13894327db9763aa, 0xc30eddac033e3f1],
    [0x9734880d423cd1c2, 0x9f7864c7f10025a0, 0x13326b4636914fdc, 0x16449ebb71737c65],
    [0x70f6abc19fbc4e75, 0x4bf4a29547e2d0c4, 0xcec8df8340324188, 0x267f1aa1162b7284],
    [0x5be77ff9b4f17bfc, 0x3bcb4cd0075d9a9e, 0x5ab035a3b9cf098, 0xffa65c12b20f5ac],
    [0x233f60bef77bf44a, 0x887db153f6bdba49, 0x68883a977b6869a5, 0xfe550d9e4e3eadc],
    [0x2ce22e190d7df111, 0xc9c771c653dd213a, 0x8cbdccc25c25cf16, 0x255002f14c45aecf],
    [0xc91da6078082ce1a, 0xeaacfcbf1c17550e, 0x45de5aa9fe944604, 0x160c6500540f89b1],
    [0x34222729356c6393, 0x3f803ea36e351bec, 0x769fc32b68e45a75, 0x1383faf37b866d99],
    [0xbd12564c5a77697c, 0xe5b36aecfb7f2e58, 0x4ae6886dcad5c673, 0x240b1af70af648da],
    [0xbbd5e648cca49e1a, 0x4eaadc8958518ea2, 0x280b6a84f0ab1dcb, 0xdf9f10587e99fc6],
    [0x2a77a5cca9b50ad0, 0x57335d7a0f38ab99, 0xef429a307bafdf1b, 0x26e4261f23f0856a],
    [0x73551273ce1765a5, 0xd5b524632baed392, 0xc1a4085dab239bf2, 0x145b8482c15986fb],
    [0xc8521b08c6cf62dd, 0x37741883381e392, 0x467f91767d0cd0e8, 0x25101aa4715ababd],
    [0x364ed9b41cb2b9d, 0x67a8665bd97747eb, 0x56b92d0b5fe0684f, 0x2896258f1d13f8b5],
    [0x5703420189fd877f, 0x4b52346ede9837df, 0xa7e09ec5c0411ee1, 0xbfc25af60e375f1],
    [0x10c1af30cbcd828, 0x432fbd1c75fa33a1, 0x5df99619a794de17, 0x29a042bd25d6f3aa],
    [0x2d7ea84ff2373c01, 0xd06e4f8f49e620e7, 0x975dce977ccc6b6c, 0x1cd0de72b658cfa8],
    [0x8052e039f18e3461, 0xa8d3222bbfffc594, 0xbd4629b5d53bde29, 0x2197c4469eecca78],
    [0x89157af603d05dd0, 0xd1d1057fa9d482, 0x739356c24e78eeb9, 0x59c6f40b2b1bb82],
    [0xe6c7e6d0298fc334, 0xd5169f729d2e75f7, 0x70c70a6e9460f1ae, 0x18ce307b89e37008],
    [0x9f508e5e1ddcae89, 0x450b3f018519673f, 0x8348df89c42e3817, 0x27c70ab7d57ecf0b],
    [0xe29d1c5b3b42a54f, 0xe8591227395d0d1c, 0x413b8138c2769035, 0x1aad5aabf3751e7d],
    [0x82a2ce5efe24fde9, 0xd9d06315412252bb, 0x49ff684eca304c99, 0x165634b54770542a],
    [0xe7a5b82a08c85266, 0xf07f52cefc1d7b74, 0xe74a4eb0e10e5268, 0xbe7826f267e77ac],
    [0x45fec18cb11b7ed4, 0x61a189d2abd54ce1, 0xde52dd10fb428173, 0x263fdbeaa2840c05],
    [0xf18774113657b473, 0x53a0191b9b97282d, 0x5533d8400df17eb3, 0x2c1ddd2e896c9dab],
    [0xb0f70d4b3bd90228, 0x20b9d0b1eb45a07, 0xa347b8dbe1471fe0, 0x894b90c18b05d7e],
    [0x508d2d898068d741, 0xde22785d58565aba, 0x2d92a5bb3ba46c03, 0x3056b80856c9e6ca],
    [0x94d70535336be93, 0x563727d32a87767a, 0x2ec09a314e4a4183, 0x1b3395901b004917],
    [0x3cd9a1d061a15757, 0x3c17ae0e6f1324fb, 0x5660da4fe2141be3, 0x143e65a2a879b7a3],
    [0x8dfec4711a5fe60b, 0x6210a571a9cd64c6, 0xc6815322698f0982, 0x2f3f3a50c82372ca],
    [0xa67d3246e58b12ac, 0x4491416e1ab69635, 0x19aa00e89fe52cc2, 0xbcc338d5a9ad155],
    [0x9cb281ec3a76a8fc, 0x2496ddfb5de74372, 0x18cced65a4aec921, 0x2a462fa9c4a682e1],
    [0x2a2463de270ab282, 0x520007106ef8d11c, 0x5f816f0c1c3ad33b, 0x7391449ce7efe31],
    [0xa8d239342fc68c8b, 0x5b95db1fdcabfae0, 0x30c57f179e38cbf9, 0x8cc2bc080753c77],
    [0x6023cb6dde3551a5, 0xd78ff6b19526e154, 0xe38ab3cce61d6fa0, 0x1ce160503379a007],
    [0xbe71073e4e652975, 0xe6587509be8bd773, 0xec9a765d640bd5d, 0x2fe5f53e6a16d743],
    [0xa6a10b2713de4d73, 0x4ad92bcb54f26ad8, 0x159b8d2fd42c9624, 0x2b9d6359e3de7b25],
    [0x44d9d4517a259728, 0xc5e96a6bdc4e3fe, 0x49065521296809b5, 0x2f730a0fbf24810d],
];

/// The values of the round constants for width 12.
#[verifier::opaque]
pub open spec fn c_vals() -> Seq<nat> {
    limb_vals(C_DATA_0@)
}

/// The round constants for width 12.
pub(crate) fn c_table() -> (v: Vec<Uint256>)
    ensures
        v@.len() == 156,
        vals(v@) == c_vals(),
{
    let mut v = from_limbs(&C_DATA_0);
    proof {
        reveal(c_vals);
        assert(vals(v@) == c_vals());
    }
    v
}

/// Part 0 of the sparse partial-round rows for width 12, as little-endian limbs.
pub const S_DATA_0: [[u64; 4]; 256] = [
    [0x5fca86539b272dc6, 0x64386ad905e24057, 0x1b9fec37376253cf, 0x2cb13179d6e8a4ad],
    [0x823002a1e9ff4a9, 0x7fdf0a2f3d1add87, 0xf2ec7d5fc42821e6, 0x2e57ee9089adcc51],
    [0x362c2bf763050cbe, 0x4774e9dd941895eb, 0xf38b9eb1be8c1608, 0x2346c226491dde21],
    [0x684c754750efdcc9, 0xb86a0ea730770854, 0x1f89b1af5bab1ed3, 0x2c294fa2466a0a9f],
    [0xdf3bf85a8e41a70a, 0x10d65507cb4e85e8, 0xf7784cd8c841ddcc, 0x2519e073c3abea02],
    [0x1f9c0c107e7a83a4, 0xe094cfaca4c68ad8, 0x1b91ab46798b907e, 0x21ea0bdd27e0b8b7],
    [0xd0f403955757dd80, 0x43c4f6ed46f9813a, 0x922665cba17876a6, 0xda23ea74cc325d3],
    [0x4c63c237a8cc1d55, 0x2ec5d438fb30604f, 0xb6f50f1090b05de3, 0x1207beb18149148f],
    [0x23b4742ef3ad7f82, 0xc1145da9f3f67f3, 0x9e57ffb971a7dfc5, 0x1c357f783a3df3f0],
    [0xddb20248608c5862, 0xbaeb410f21211383, 0x8b90f19b5ea03c13, 0x234747b2d98835ee],
    [0x306e4b950276725d, 0xe0bc55734962a059, 0x74b7f3add58779f2, 0xb38e11da34730bc],
    [0x2356a6133f26cbb9, 0xb674bb5f90353a5, 0x9fa40e7291057564, 0x14732e1bcc452fb],
    [0xd5beba27dc7b40e, 0x6433d39fc7f4cc80, 0x5e11099ed6c9c4d7, 0x197d6117415de885],
    [0xf88f2ad9f7e23c53, 0x674c7a6c7711a83f, 0x8255d87810649ef6, 0x2b3a311741f8b94d],
    [0xb3ad18efa9e673ec, 0x179779bb29c95142, 0xe4949e5eef338372, 0xaff38c1f5500a4e],
    [0x1df579cd3385d8dd, 0xa761178783ba9938, 0x4e9fd84841939694, 0xdd0c48ff292bc76],
    [0x7348955575e841bd, 0xc957f8c7fe0322d7, 0x73e72b36722bfc52, 0x723a053723b6cab],
    [0x19d3c400dde893f7, 0xe0ef74245f9aa454, 0x8b808627af3c9494, 0x25ca5081fcbc5b5d],
    [0x6da66f4bb013969, 0xd5555923d2e4a537, 0xc8216996f16bfab8, 0x2df552ff14232529],
    [0xb27e3ce62bb940b0, 0xc4127ebe7fc31e1c, 0x9bf30ab548c8f0b3, 0x876f56eb6844dda],
    [0xd8174f4bcf095df1, 0x9ac2e39ef1b5c9e6, 0x8bf4403635f76f1b, 0xa8f10d1b35ca926],
    [0xbab6f34c4cc24d81, 0x15efdef111fb3f0b, 0x73c55c09e887270a, 0x1212b888592b16b2],
    [0x5eb30b2a6da5681f, 0x8e563a44a80a3df8, 0x60466f322ecc23f2, 0x5f5771bd30e0b51],
    [0x5fca86539b272dc6, 0x64386ad905e24057, 0x1b9fec37376253cf, 0x2cb13179d6e8a4ad],
    [0x4ad493655237bd8d, 0xcb8a775892e972ff, 0xcd67479fa2f03e67, 0x26bf7fced0bbe938],
    [0x462ce17262ad7d93, 0x64854ddc3a964c57, 0xc3fc79d946f8b8fd, 0x10a49b9136eea6f2],
    [0x3ccd7e40e0d8dc3, 0x678d5d7db7296f57, 0x6fd33b3625682927, 0x5bc772beda5709a],
    [0x66371d1870f610c4, 0x695fd39695ff3b72, 0x74cdf3ea97c694ce, 0x15d73afa88e6fb1b],
    [0xb4c312a32df35daf, 0xd17b01054be5d002, 0x5a2c5e26aeeb9f30, 0x20656f69e483c5b0],
    [0x44668daec9e567de, 0x8db0f3bc297d9740, 0x862ab8d125a34cc6, 0x2629526c99e13dd1],
    [0x96f5046589275609, 0xf657d8c58db1f4e0, 0xef5f17f5f828e521, 0x1e204bb473dc75b],
    [0xfb5c41cdb10fb1cd, 0xcefc2955a5a8347b, 0x23dd0907ea97d73, 0x2a4fc3c7b54eebcd],
    [0xb979534aabc3410a, 0x16a3b3d9c71e56e0, 0xa12d798e8ce0f9e0, 0x374b0643d980373],
    [0x144b668ae70770c9, 0x3a7cc04a6be217b4, 0xfbeaa914483d0fa2, 0x2d54f4a821cd3a86],
    [0x72048d808e72893f, 0xcdf256408c362bd, 0xa8541f6da7b2ec3b, 0x29fcf234a9344cc6],
    [0xae8f61a4ee43c358, 0x171f7346ca2e9f43, 0xb34030e734085eb2, 0x4254caca99daf3e],
    [0xee4bfe59465030ff, 0x4bbe657c16ab0d9d, 0x8b7f1cccb32a84a, 0x2b4c8db3065c297d],
    [0xad415029374ae02d, 0xbc106684ae4a4513, 0xc42b13be685cade6, 0x1248ae908fd75fef],
    [0x29199a4a7167edbf, 0x1cfdc5035c71961c, 0x42a38f3a1bd79250, 0x1cbd111af62201c2],
    [0xc5552d9e477a7a52, 0x361caf73d4fdb215, 0x17a3036f11985a8, 0x2eeba2b31864903d],
    [0xcf442df70261c724, 0x7f5eb2011fbd7b8b, 0x9a1f8cf029d022f7, 0xd32eaed9cd5aba2],
    [0x570c2e5b79f63b6b, 0xd07dc636d2cc79ce, 0xc609a839e591d688, 0x20971ff3e27ffa9d],
    [0xf62677d2d626e314, 0xdca4917679af1c64, 0xae00899ca737d2e1, 0x2a8bdd4b9b1ef96b],
    [0x16eff726808ec638, 0x6e8b8c8b30c36f43, 0xd05b4e9553c04488, 0x26cfb0174d91280b],
    [0x52d645c4fb5f3548, 0x1e7e6237c8aa2ee4, 0x7358c0697b8f2d76, 0x29f510be57ad8e8a],
    [0xdc81a89d4db6b41a, 0x2aacf086637ee431, 0xae5f91b44a95f425, 0x1c1cbfacde1ca981],
    [0x5fca86539b272dc6, 0x64386ad905e24057, 0x1b9fec37376253cf, 0x2cb13179d6e8a4ad],
    [0x23b2161887ef1250, 0x2a53aaa144ba6790, 0xebac3c459451f28a, 0x2b7856136f545d69],
    [0x81a78e7c8b9514b1, 0x821fc71c37885674, 0xcd6586bcf0ea5180, 0x250c047260e50160],
    [0x7cbfccd0c3973488, 0x3c8d4720915c1976, 0xd4153dd6e78c0516, 0xfbf82f8a52984b9],
    [0x4b6554b32e61f31b, 0xeca662a0f61bcc16, 0x12d232b16d3d01d, 0x6bbc95542ed85d6],
    [0x3354f34056fb12ff, 0xa5f12470e416718a, 0xe58ef7134248ad33, 0x28186714392c789a],
    [0x66b8c2f9c0c55c4a, 0x330e7725be947aa2, 0x92084f426da8b4c0, 0x53afba658da76de],
    [0x2c9967508965c9b1, 0x1cd0a0ad5ea4885b, 0x728c66e0b29d5cbf, 0x1844872b8235f851],
    [0xde3fc2940c0deb7, 0x6fadd52ea4d9c464, 0x1f53ca5fed46443c, 0xb09ec5a6d9b6833],
    [0x3cb0d0c0fcd89cf, 0xd34cbc099c578b26, 0x751ea21241763d10, 0x638529db7cc2182],
    [0xc9803d7715feee67, 0xfae00c106de7fe28, 0x448d43671f20833, 0x5d066dcaccac1ac],
    [0x5b330d60a548b3af, 0x6af42a76e9b18711, 0xe6fa3a0164160b1e, 0x65da2f374618a50],
    [0x31a740a3262c1e08, 0xb905077d39e7a022, 0x5a135c42066f1cf, 0x2e202380b8f6d907],
    [0x6ab03aac2e82f37, 0xde32dbb579166952, 0x96e9d8fcc0a46cb, 0x14570c40a4e7ef1c],
    [0x5a8bfbf952897c4f, 0xc106ce8a803d3d01, 0x1da248b17456f9e7, 0x2d87c24508032982],
    [0x59e2de28ebd010fc, 0x4f3af15c28d6cb1d, 0x91938b417de29686, 0xda8c6fc810ca18],
    [0xe9aad99a61265cc0, 0xeb76a7fca5237a36, 0xa6f2d97c728ca059, 0x2018992835e00507],
    [0x66aa59bc8aaae718, 0xbff205c624a66a49, 0x1f10f807baea25dd, 0x2d9099c975eb32f3],
    [0xc9bd09d292882344, 0x7c45850a18582a8a, 0x4395264887603d28, 0x298dee77db6b29e4],
    [0xdef48160e2de989f, 0x92d336e3bc4d7e7d, 0xa6382244b43a0f7f, 0xfcccb87f04870bc],
    [0xb3c15178f19e7ffd, 0xbea3a058d34baad1, 0x9a5186975613ff59, 0x1297b03aae9b949e],
    [0x1eb1b9f9b20b3f02, 0x3df480b350eb1ae3, 0x8802aa74dc37c83, 0x893a222f290774],
    [0xaf1556ead8f36182, 0x71fc9189641ea0db, 0x87c3813b2da32e7c, 0x1231b1b0d91bc76],
    [0x5fca86539b272dc6, 0x64386ad905e24057, 0x1b9fec37376253cf, 0x2cb13179d6e8a4ad],
    [0x256e103209606fb1, 0x20005731dc875986, 0x5777651d0151e03, 0x2077a6155ab34ab],
    [0x39a3b80ca952809a, 0x4ac16dcb9a7962d1, 0x59856002487fe97a, 0x11a4f3347aa9f08e],
    [0xc691fd12b00c12d3, 0x359d531ce7179a2f, 0xcdc37afd22f00aa5, 0x146016f8ce100f6],
    [0x1b774fdab83886c, 0x40bca1271ddec4ed, 0x97e11825c52cf4ce, 0x25045870f9da8f4c],
    [0x3382765ea111fd63, 0xe70f28a6734dd3fc, 0x97ecebbdcb8d41d7, 0x156094487d4626cd],
    [0xd6249eec85805471, 0x1514d4b24bc88062, 0x10df4f92bd790ebe, 0x24ade6dedeeb9001],
    [0x41860fc6596734ad, 0xb50287cbd36e7d9e, 0xadcc2ab7b6bb9f49, 0x12ad265f80d855a7],
    [0xfdeedacec7d7c835, 0xd0d1be895c8026ca, 0x3faa6da2d3162b25, 0x2f16237203d13c69],
    [0x66423b5bbc76e43d, 0x287f6d9cd2e9bc5e, 0xb152b15a718ecbab, 0x1868f1766d3e2f9b],
    [0xcd7df1a8bfca5d60, 0x2b5d2b920a1b78dd, 0xbe9a689a10d09382, 0x128e30bad26f11c3],
    [0x716e95431abbc5f, 0x8deb9668ef00490a, 0x3b27cd802532d276, 0x2e72c3b1f6bd3a79],
    [0x505e01471c5a2bc4, 0x15da623e363a408e, 0x815e1f57afe94945, 0xa3e8c07a5a634ea],
    [0x839662e69271bd6d, 0x3bf519d683cb2702, 0x62ce79db6dc604f0, 0x1a5c7a54a81fd937],
    [0xb48c9a1998046035, 0x543ac79a4a31db13, 0xa5e5a36398d24d77, 0x13222674c9603db4],
    [0xf2144291ab5987a5, 0x11648a7b78addfe4, 0x9f44ff11182db703, 0x333b7ef8d75e61e],
    [0x2c7bde44457d4f47, 0x106c4406a937c970, 0x798e544505b11d50, 0x231ef3a554066132],
    [0x45fd94a4ad77088e, 0xd3c66d1b8fdcee5b, 0xb55d6532420e95b9, 0x3016482ccd1ff28d],
    [0xe68d7a6cbb7f165d, 0x1c045820eee55e57, 0x7e7fb246fa9b3981, 0x284acbcd8d3b7c6e],
    [0xe7cc337546999d5, 0xeac1635588b765fc, 0x6b7490b7346b8dda, 0x17751244cbe20f81],
    [0xd652ec72bf09a21, 0xbf488237d0fbee8f, 0x1517acad6c69e41f, 0xe3b27a81103dd23],
    [0xbb24700a976d71b7, 0x211b9996a5cc9ade, 0x91ec8c80384a7356, 0xaaeffcbd016b278],
    [0x24bdfdc78b4018ca, 0xed53d087ecf8d85d, 0xcde478df3bd4ccdf, 0x118f45236c875283],
    [0x5fca86539b272dc6, 0x64386ad905e24057, 0x1b9fec37376253cf, 0x2cb13179d6e8a4ad],
    [0x40d74cf48579595d, 0x6057185a88022e83, 0xe5044e609a9ec5f3, 0x2cb4a528ebaecb5c],
    [0xe91971c11d212adf, 0x59ace7d53f4ece6, 0xc91474b3909faa82, 0xb4aeb2205324cf9],
    [0xb8c54ef46fbc8e66, 0xd9f55bc8d55ddcd7, 0x6666dcd42303d4aa, 0x2e879ff17f31aa3],
    [0xb18552be085a62c5, 0xb57f9709b63a9c94, 0xb094218b0980f27d, 0x1bf5f6555edef79b],
    [0x65370511585f07ec, 0x7c7c5aad0e8923a1, 0x5fbf88c8fbe323fa, 0x20a3689b70840d75],
    [0x932dd8340eaee2f3, 0x4f43fe4a5a1c070a, 0xf92a5fb77e600351, 0x10a50b432864883b],
    [0xc41e97b9ec1eb29c, 0xf9616dcfc54014a2, 0x6cd4746c8f229a99, 0x6162a58c2fc725a],
    [0xb0fc5fe861b2140c, 0x91fa478abfcdfa1a, 0xe0d49810e9482205, 0xa12e5fbbbd66f0d],
    [0xf6e8240bd7581bfa, 0x421db516a59e8fc7, 0x2724493af11636d6, 0xb899ccdc1131b11],
    [0x5130461f5d8820e0, 0x255a2aaa48e16eaf, 0x2a2cf3111e9bca3d, 0x12506c3ee2d15b08],
    [0x240223569350397a, 0x7dc5a3097d8a7570, 0xd6c776c65949849e, 0x2135481566f8d976],
    [0x83d8e82a46d8ab68, 0xc32bc957826e2c4c, 0xed4b92b8c602d81f, 0x227608e1587276a],
    [0xee895fcf682b158d, 0xbba4fc9558326ac9, 0xbd82f8f2fac04f63, 0x1f4fc5d8d275e923],
    [0x4b31c8c9d671355f, 0x681143399bbcf58d, 0x3d8c79bfea64f54e, 0x1de5b21d942edc8],
    [0xcc0dba4d9283aeba, 0xe09fec7e372a4548, 0x8ac2894407c8158f, 0xc8d9ae8381b7de8],
    [0x19c7e1df58033833, 0x51e75ca14e8eaf7b, 0x16cfaa7e30073049, 0x28e6f24ef229a250],
    [0x3d6b01d381adb9a4, 0x9588fd1517dca2e0, 0x31dbe2a105286d83, 0x16c93e94d5ec1faa],
    [0xf924027ab24ae7, 0xd5da91671d33e40e, 0x26d08197e01fabf7, 0x12c51f2640a3c057],
    [0x231d99982d1cdedb, 0xfe23527e2c056744, 0x234db66d6183912b, 0x1ba9324d77e86ff6],
    [0xee7805367987d67a, 0x3b852e626d20bce6, 0x5a4591bfac742966, 0x6616e7b8b4f3459],
    [0xd4570515dbe9656f, 0x3a2e9061f87b43a3, 0x311dbd8e92fa6767, 0x2b291b00aada886],
    [0x2081a4b52ea798fa, 0x7b0b733edab05b4d, 0x41f251c075eee52c, 0x24bc1c978fcf444],
    [0x5fca86539b272dc6, 0x64386ad905e24057, 0x1b9fec37376253cf, 0x2cb13179d6e8a4ad],
    [0xa2c282adeafa297f, 0xc4355a9c488878a5, 0xcd409d763bd8e406, 0x258a9d2af52b4fef],
    [0xda18580f5c1eefc2, 0x6cff5149a81424d1, 0xd46634d329f317e7, 0x2fd82f70d05f4beb],
    [0xf254f5ce86e88f63, 0xf3040873c284ac09, 0x319c5a9b034ce2db, 0xf4b503f7be48c09],
    [0xa4bb2b2c900c1115, 0x91a1f7f4ff919fc, 0xb831d3fd4a292440, 0x276d0381d413ba30],
    [0x9d5543aa7c48f798, 0x78ac4644c5dff36, 0x9f95c503ad1d0a2d, 0x28e661e4cf942f9c],
    [0x75947bcbe3f51124, 0x3debac70920c9d87, 0xce267bc21991598f, 0x2173c6794694634c],
    [0x16a8af970cf7cc2c, 0xfc593b5dea208cf0, 0x5cd8bcb540899795, 0xa3fba241019270d],
    [0xa4d2f9e5da45fefb, 0x5e7c7493d0f8c511, 0xd38dd10180e9622d, 0x20fcd9c08eea8de9],
    [0xfc40bebbe02ac291, 0xb0b6abd8d47110b6, 0x6416ac17583ef06d, 0xebc5296052433f8],
    [0xd3796456168d002c, 0x5a5a5cb8fac79067, 0x8dad6674c8d0e51d, 0x1d76be7dd2025640],
    [0xa3ee22a0244ed155, 0x9fe14faec2a1401f, 0x1ce54f21c6891f3a, 0xa94d77bf887daf0],
    [0x47522e906c357a86, 0x63f0016a0bf790d8, 0x93226766b105e7ce, 0x1174fd29cb4654d0],
    [0xa482f7ac7d7c4e2f, 0x87fb115049f1b08a, 0xd69d91c14cec4cdc, 0xfc72bc5d051c4ab],
    [0x9e4e14c2067420cd, 0xc1530d836d9ec37f, 0x6a2be184849b6569, 0x845158555b18fab],
    [0xa575a21021d8b9d6, 0xd427a30b53a3964b, 0xf3ebbc47c2c8d766, 0x28220c506fb21d1f],
    [0xa45e5253aa696a20, 0xa25692e0c05d46e9, 0x14db423321f9763a, 0xf45897a8f2b5c42],
    [0x2bfe74d038a4785d, 0xa354d0537660e085, 0x56c98999c688c8b2, 0xf71e156500b67e3],
    [0x19b04d5199c09f0b, 0x3855e4871d9b61e1, 0xde679e86cafc7d1, 0x1b933d41cac25dfd],
    [0xfc9faa6ff6a49821, 0x8dc05675079d212b, 0x25ac37f60e269bf6, 0x19287775fc909039],
    [0xb0655c9d8eb868ae, 0xacf3e1ca010f5820, 0xbc1b2f428c1ee240, 0x207b6ae3483a8ce2],
    [0x343334d708740ff9, 0xa243f25d2768169b, 0xd50528062bed8223, 0x25d71d41264bd75f],
    [0x714ac951daf2031c, 0x8625e52894645f3d, 0xf72ebe8710f3c6c9, 0x2eac8212fc2ad788],
    [0x5fca86539b272dc6, 0x64386ad905e24057, 0x1b9fec37376253cf, 0x2cb13179d6e8a4ad],
    [0x35a32fe7727ae3fc, 0xf7b8e8546e9e4e79, 0x8aed931034e7060a, 0x172fd12d4e03af14],
    [0x36bca6f2eecfa030, 0x5aedb76297c33ab0, 0xfd949b85233eb74, 0x154dd36eb45f53],
    [0x8b03c12cc30818c9, 0x6ac7a245be31dc25, 0x32a48a89989abd5c, 0xd6fee6e12761c38],
    [0x319dad8d9025fa8a, 0x4f7b251ddb137da5, 0xa4440d5850f787c6, 0x1be1815b17dc7aec],
    [0x708a6620509b8bfc, 0x7edabc44418341fb, 0xb3fe2653db4b526e, 0x2be2edb8867a2c4c],
    [0xace23a3b701a5cd2, 0x43bd026cef8763da, 0x91ceb5a94ad1de14, 0x6c0fe57a444d903],
    [0xb74ce844de7ec438, 0x8530e1c8480dc59b, 0xc88816982cbaeef3, 0x1544a456bd7e736e],
    [0x3980cf3f6f04fe70, 0xcda63b31d3427465, 0xcf03cdf661e4c477, 0x13dcec7c410c82a7],
    [0x581cd4080d039492, 0x8ba4cff953001ad0, 0x9b37a9f34f26a72a, 0x28832482d1891b79],
    [0x3108faaa8b04446d, 0x47f91772a386b11b, 0xfdb0ca235673e3fe, 0x1453cd3bc8d13cfc],
    [0x112d4ac46720e3fe, 0x585671d64ba338f5, 0x3b5dfabbc2cc392c, 0x2948c35a60690dda],
    [0x51897bfa4f5a2d0c, 0x6e6020406193e22d, 0xca2cfb8b79a656a1, 0x15bad7a6723fea31],
    [0x9a74af0d1a27a25d, 0xc49dc129d68d9c50, 0x7ab6b9d31a359352, 0x2a3eecdd1a4f9ba5],
    [0x8bbd3685b288f94b, 0x1572f27035d9288d, 0x988ba20f99d8b3d8, 0xd1a72d9a9f731b1],
    [0x5091dd9475351a60, 0xfd9574a65f15bac9, 0x2762b57075cccfc6, 0x2099ac63775453e1],
    [0x191138b05d207b82, 0x7455ad5879ac8d3d, 0x909fa329f6e05dbe, 0x60d681d211c02f7],
    [0x56b1dadd1bf90288, 0xb37154209de07604, 0xd13b251440475af9, 0xb751b2674878344],
    [0x2c063086ac58a01a, 0x1efbc3c3fdfcf039, 0x7b1d2e79e5a9b76a, 0x12c11a657f602425],
    [0x115452d3d23d265b, 0xe1a9a7154c8fcbe0, 0xb9a48c46400d3e25, 0x17c91cad834837],
    [0x4ed93ceb05de6154, 0x49884e2b367ff88b, 0xfde45a315961e275, 0x1fc3820af6ae6515],
    [0x1b82ea7fdf751ded, 0x7f6e37a4dc776aab, 0x330036496095ad71, 0x17a167b5b9014ca6],
    [0x275c8cbe16a97dc7, 0xa8daedbe7823e8f8, 0x4a105978608dd2c3, 0x46702f62b69daf9],
    [0x5fca86539b272dc6, 0x64386ad905e24057, 0x1b9fec37376253cf, 0x2cb13179d6e8a4ad],
    [0x9947d3fa8d244cf5, 0x95f013b8c208c88e, 0xa664ca95848b8132, 0x1c44223b01de8fbd],
    [0xc329868ffdcc17d6, 0x52322c5820ba2bd, 0x7e9caced6240b851, 0x25c7179c48928fee],
    [0xadc11866a64e2b55, 0x181b3eecf421c6ae, 0xfa1e5de776901270, 0x1958a68f02408107],
    [0xce604e99307f4a, 0xd6a12e091b59529d, 0xf4cd55cc87a833e9, 0x17ad9adfd56f8195],
    [0x72dd4be5f5ccf0, 0x5bbaa74743995b60, 0x652412ca5cf9fe31, 0x5638e90a5883705],
    [0xf5129db4385e5ef7, 0x53479aeb3fa0dfe5, 0x1287ec56cd6d8c6f, 0x2467cf163474afc7],
    [0xc851c88699c8f02f, 0x97f81f4397c0959f, 0x8b7c8d5140c07d0f, 0x23427150e60b6fc4],
    [0x34eb77e7ada60aa4, 0x259fff13c2010e47, 0x49ba5560993157d7, 0x16f925f73e091b17],
    [0x5b8ea8ea4a4c87ec, 0x671fabff0c8c74bc, 0xc5fa12f1e533957c, 0x2dfd7d6796e20dda],
    [0xfed7bbb2c8978eba, 0x59fd49be46a468f, 0xc1253e424883a0fc, 0x664c8b4ddb68209],
    [0x2989116d48e7bd25, 0x1d559d223b489bea, 0xa46f2bf0ed51535e, 0x1f3ce48c3ee2922b],
    [0xfc1e86c144618455, 0xfa2de7c694722611, 0x5a4f21d24613d733, 0x84ae17ff7f68488],
    [0x3fb98f4391888c11, 0xf3e74c8ab151d494, 0x7eeb14791c5234c2, 0xae2be5c975fc9c5],
    [0x4ea265010fdff87f, 0x209c79be2a4e9a89, 0xc583a2715c9e2193, 0x28ae3fb3896a81bb],
    [0x32ea5b3384b4173c, 0xc72944ac6c2dd32a, 0x39974b69bde3c83f, 0x1a66346aedcb602f],
    [0x708dc428b2aa0b05, 0x5594f0f70ec5be20, 0xcae3950ebb698bc, 0x224a43476e893bd2],
    [0x433c1c0700be9a13, 0x3aa6cc4e263f0227, 0x18da099a5ad65899, 0x1d78ef43d9271f57],
    [0xe1dbcd515c7f07ba, 0x3e3b67e891ddd363, 0x9e9c116a8b52dc65, 0x1c2ade57dbe0afc2],
    [0x9ba1ee5cfa912acd, 0x74e75dce2c85d727, 0x7b1b013cd2c92045, 0xd3432e9b73c810f],
    [0x5da5300bbf594f95, 0x9438745e4e98024b, 0xb0366ea68593aa27, 0x10c5edc9f4201dc2],
    [0xb566a51d550747bd, 0x18e6cd2fb87a4f8f, 0x8e8d59c21743e2ee, 0x1424d5095a3ed3c9],
    [0x1048e9b87698f117, 0x2f0f90af4e2d9a96, 0x9f3ef99f01c641c6, 0x1ec3fdc3a0283303],
    [0x5fca86539b272dc6, 0x64386ad905e24057, 0x1b9fec37376253cf, 0x2cb13179d6e8a4ad],
    [0x51c1cd036d1cb5de, 0x2833e12445aabcf1, 0x4cc28166a74e729a, 0xd9abef260b1cb44],
    [0x24e27f4f15a9a52b, 0xe8cb2e08f655c889, 0xa54b8b692304d8a4, 0xed6cbbab2f8701d],
    [0x21b2c1d950a76f1, 0x825cefd98444e38b, 0x668bd513a7a1007d, 0x2c637eacb602a657],
    [0xdb7e5ae21b750d19, 0x426792c6ebc73d02, 0xf32bd01facb98697, 0x20fa81a9bf57087c],
    [0xe38a7550738aef85, 0x4d7df82d22b08c30, 0x5b0b5e5d5de37040, 0x4f1d239fee709de],
    [0x5b1eff7c48bfb810, 0x62b1c6d80579bfdc, 0xecbf31017e714291, 0xa1de402ccd1aaaf],
    [0xdf91232dd65f37b5, 0x5bfe8857749a7d43, 0xec5c8fcdc25ec9f1, 0x1c14d03118d712c8],
    [0x68615a2cfc0e9183, 0x64da3e0fb809cf77, 0xe7c9d75d128df4a5, 0xc5e0c42722e6a74],
    [0x824e6f1d812072bb, 0x832e610f66981841, 0xefab6d889ce7c18, 0x78c4b7313d47013],
    [0x4fe883f1c22f3cba, 0xb9248574ee5d6fa3, 0xfd047713c1acdbb0, 0x3668b307c93ec14],
    [0xa98e09dd2f52fe4e, 0xe10c87300ebc641b, 0x660aeda8b0cf9753, 0x23d9be76930ec686],
    [0xea07063c5c128680, 0x131eb92263c4dde2, 0x3c77316b42130de0, 0x29a3b2345ec0413],
    [0x60d80712b195d4c4, 0x7f18aa907378ad50, 0x7d245d3c3efef7c1, 0x2094711a12812e28],
    [0xb50484a2c356a567, 0xea1afac2c3a68622, 0xa9a2eba112b4ca0a, 0x5c8d6aed39e2d9f],
    [0xa8ef1f7fa9e3e856, 0xc36bc0bc2e4507a2, 0x572119534453ceaf, 0x15235ad2ec7319fc],
    [0x4e23fcbd38de35e2, 0x35418e9d6ae0d700, 0xa9db35f56bae7b99, 0x2a25158b0df94b0a],
    [0xcd4f7dc30a13e2d6, 0x7c8cb34c31708093, 0x8f336eb2d50eefb4, 0x12db88ed4056400b],
    [0xb625900540bed1e9, 0x83ae8959e5c91731, 0x7f64d304a1086942, 0x10f2112348242ce9],
    [0x9fbe39426181f3c4, 0x8feca59538be5965, 0x232dfcd50eb82acb, 0xdeb481ab3456ccc],
    [0xf89bc2d4db28e16c, 0xf6ca9620040285b5, 0x48fb24ea8b3f732, 0x2bae45f1c2ff62e6],
    [0xb687470613fdbf77, 0x6102fc91a6288339, 0x73970ca2059fb0c0, 0x2b93089446d71300],
    [0xa741ad7e958e1052, 0x569a0e786e12b526, 0x2b77c744e7a3310f, 0xf0115aff5d6fc58],
    [0x5fca86539b272dc6, 0x64386ad905e24057, 0x1b9fec37376253cf, 0x2cb13179d6e8a4ad],
    [0x453d3f249d581b04, 0xc2fdd015965ef309, 0xdbb50022cf797b7c, 0x116ba64981344053],
    [0xf72a0d9231a45553, 0x7eea4f4a8ba43145, 0x30d1b4509db1009a, 0x15d813aa4208144a],
    [0xb6c5c40ebf730e8b, 0xe43c2c65f2c71c7b, 0x2308cf417715a9cf, 0x1347fc037b2b26fb],
    [0xa02b2edcc2eee347, 0x4c4ea591acd14df7, 0x1360870cfd5f5e0f, 0x153cbb5ae6b6d48a],
    [0x2cafe6c32106a003, 0xbf1b8594471a2616, 0x63e65ec0789c6ba6, 0x249ff166662ab436],
    [0xc52897a5d3f5dcab, 0xc0a51b86aa9d7e66, 0xf9101f49cbcfc48c, 0x72bc9e678fbc25c],
    [0x4c21fbcb28a1da20, 0x96288f1f8b3c16d5, 0xc9f00eea76f9fc21, 0xa6577ae2a5cabf4],
    [0x2ff6d3cd6eb327d1, 0x2544192b256de5f8, 0x215870d8d35d9271, 0x1c610a46a4eca6c1],
    [0x1a8fbd9db0cb2640, 0x844a1d61be9b5920, 0x615f45dcaf18828c, 0x2b9a13cbeb3acc4a],
    [0xcbd8321119ce2b9b, 0xc665a0caf15792d3, 0xff49de6b343eae05, 0x2ab0560dff6af3c0],
    [0x92cf302d8fe144fc, 0xa11890bf1285318b, 0xeb247866b16cf89d, 0x16de08dca0ad6de9],
    [0xe665fafe496dc979, 0x15b966d828ce76e9, 0x8645ccbbc9d94ff3, 0xcf760300b296951],
    [0x3650ba909b44ef55, 0xfdde75c4f19584b4, 0x76e22fa410e41794, 0x260d564df3dc0db6],
    [0xc51de867ed1fc11, 0xabd789a190db81c, 0x7006fb1b5852ee5, 0x78c91572dd1477b],
    [0x8d4c4eb9e873807e, 0xf12e92c3d4067500, 0x5af645f064e0c10c, 0x2280039d47ad466e],
    [0xf69e91871700c81d, 0x4fd11ab282b2cda1, 0xe61691c9bb57aeda, 0x57e2320efb4234],
    [0x44bac9fd942136bd, 0x432a03973c77a827, 0xf543283250aea007, 0x22f771ba7d2d275c],
    [0xe677fe4d5ea0e62d, 0x443030435aa02d9e, 0x9c7b55a1485f0a5, 0xf01220ddd070237],
    [0xd9b7eebb22db48e3, 0x7c33ea3ada98437d, 0xc15bb6bcd34b131e, 0x2e1da930eaa52749],
    [0x891ba11af10a36c6, 0x1e54044a5ba01c54, 0xf6fa6645af8da733, 0x6d621c55789875a],
    [0xc3113eba8ef808d1, 0x6ab088f29363eb51, 0x4244857141dacd03, 0x1ac3022348571360],
    [0x3269c5984682da4f, 0x28925e2a47a6d16e, 0xc8c62e05fa6c0ebe, 0x24f06bb121eece3b],
    [0x5fca86539b272dc6, 0x64386ad905e24057, 0x1b9fec37376253cf, 0x2cb13179d6e8a4ad],
    [0x166d393cd5677dac, 0xb4d541d5ea58e215, 0x65d7525b2ce6ccaa, 0x146b2acd097033a1],
    [0xe2af913ea416003b, 0xfac658ed406c70d0, 0xfa007310b9d86684, 0x1fb587e5904d58e],
    [0x62f8250f742041ea, 0x85b654c41b19f4b6, 0x44c3c3824e46c6de, 0x2ca7217280f3cb87],
    [0x3008a4026a6eb28b, 0x3082cb3fa74a717b, 0xbca1988cefb126d6, 0x1ae6ea2012fe1e87],
    [0x72efbb9982dabfc4, 0x79f03d119839d9ca, 0x67d2b170a4302706, 0x2d80fe550d7a4f7f],
    [0x9d8000b339492575, 0x85c80f3e518e9917, 0xdbce0dc6594c99cb, 0x137557593958b59b],
    [0xe17595ecb5480c92, 0xee3b837fd0dd3d9b, 0xbf11ff8fb6e10259, 0x1def05089b4444af],
    [0xdb39540f9d71788a, 0xfd8c67950c242ede, 0x40deb239b3ece158, 0x201b23b3cfb13fdb],
    [0xada9b7a2831116bd, 0x55e7be972f912c44, 0xdefd155bdb5e0f92, 0x22d9d27ccfb5d874],
    [0x7fd478342234b264, 0xb41dba4cde5bf4cd, 0xd5872597cf2ce10a, 0x239a279e55c2fd47],
    [0xdcfea9dc0b6073c4, 0x794e6b9fe17beea4, 0x908f50d990be5f70, 0x137724d6aa363143],
    [0x34d8c069be2fee72, 0xfa80abedf000368d, 0x4a9fd1016d1c6d22, 0x1dd6e3fde1b84a0b],
    [0x57e5355b177e73c7, 0x177c8a5d87d237fc, 0x67bfbd495e823aed, 0x2c94522857162e4e],
    [0x462dab5579dabded, 0x2444fe77703e0a6f, 0x76bb2c2c6bb472, 0x183022fedba6c78d],
    [0xcf0a5a9f35544430, 0x4282297cc99819df, 0xdcda2fd18514f031, 0x2252e07ab4d0fcf8],
    [0x5480cd10ed3428fd, 0xf18d8a16aa7f26, 0x53c0824f527980bf, 0x719e632cee131b8],
    [0x84737856495fd875, 0x18c188274c6adec5, 0x9dda7be9eced59f3, 0x302441b28d3b1cf3],
    [0xd6bd70e95a76934, 0xc67001502b21aa89, 0xcff106c275cdd2db, 0x12692c7d7301e18b],
    [0x55fd3e3c347aa7df, 0x601ba9273266a9e9, 0xd460b47956301225, 0x1eada016794439b4],
    [0xcfcc43960ac2c980, 0x6d5c3ea7084f80c8, 0x552ef578139d1981, 0x5cb3b0ddfcf2ea8],
    [0xff51d755d9bcfb15, 0x41bfe6ff5044ad3a, 0xf40363ea5640fb9a, 0x13b78f0215ed7f48],
    [0xe1c3a789296b22df, 0xf05b29ca80019907, 0xf48ff24f99ccba5e, 0x1b3a63d2f5d84163],
    [0x5fca86539b272dc6, 0x64386ad905e24057, 0x1b9fec37376253cf, 0x2cb13179d6e8a4ad],
    [0x47e37e913a921fd5, 0xb555d3772d8f2c7f, 0xdd026ad7b90fb7ee, 0x2957ffc8d1b0a3f2],
    [0xe794d551306f75f1, 0x7725bb940dfe9798, 0xbe11154aa6a062d8, 0x2a1c6c7b345e260c],
];

/// Part 1 of the sparse partial-round rows for width 12, as little-endian limbs.
pub const S_DATA_1: [[u64; 4]; 256] = [
    [0x94a68a3285bda986, 0x5aa9f0aaf6558a51, 0x43c54011a594b2e, 0x300cad430463e7de],
    [0xf653cf2966b1eaa, 0xffc11b4823380c6d, 0x944a13e73f2f03af, 0xab63cd76eadd01e],
    [0xdcba8d5917c4d34f, 0x659ae92bd8a83be6, 0xaff802dbb9bf4e8, 0x26227ae79cdec5b8],
    [0xc41a1a53d866a71e, 0x4516809e3c7ac6e, 0xac2175e5fd863b5b, 0xf30d1719ff31c8],
    [0x28d910b7b6e6eab2, 0x9a4841f05885a800, 0x8df5ad070b2fd396, 0x11c786871cc25ea4],
    [0xf43c3239f9c1335b, 0x29105bae675a1924, 0xb3eb16b8d1599f37, 0x2c7a714da7b75d6b],
    [0x539513c5d0532403, 0xc4b7a8d35b2887cd, 0x47ddbc1e44492034, 0x24b7026b296c245b],
    [0x4b16bf1a20d3624a, 0x451002df18923893, 0x5bc8593b0f859b43, 0x2c247c7290fbeec5],
    [0x2eac9999fc059e6d, 0xc95d934cf913f4c5, 0xdb691bfd23b211fa, 0xb94893f2502d38f],
    [0xff123329050dd3b2, 0xd88406015d4419a8, 0x480562beac696afe, 0x79b6b8524b8270e],
    [0x34928b1cdf59e26c, 0x4ed3dc38f0e62205, 0x68b3a0fabf059d16, 0x27e2e1708fc82a78],
    [0xa24424d4964911b5, 0x8cdf563190eecfb2, 0xedf03abb41a1ee85, 0x3040afbc8482759c],
    [0x32d6805b4d2a41e3, 0xe168c87b78e2c3ec, 0x304aca0447b2878d, 0x1741752784ea1fc7],
    [0x8b219ae7ffd41830, 0x884679aeddb39159, 0xa2a84547767b65d8, 0x13445ec326f4aefa],
    [0x32dec33a83dceac5, 0xd53372e29d279a8c, 0xb1feea325a521ba5, 0x2b23df120933a79e],
    [0x210e828239177789, 0xce3a462ec543ff34, 0x721d9fd6d19e8934, 0x2c6adf68e43f02f6],
    [0x92134f4ae26f1cae, 0xf563537c06d1e982, 0xc4672723370623d6, 0x2e9faaed5c26fec],
    [0x26630768407e0c27, 0x81f46d90e7034073, 0x33e808382fd75da6, 0x22c261e0c7bdfb9],
    [0x32c10424b1fc7a82, 0xb51fb071d5224a17, 0x73c4bff136303580, 0x15605ce70aa29189],
    [0x3956a9e348ddb877, 0x7cd2647fa4bfbc82, 0xce81101d267ca95d, 0x21ecd0341474c3b4],
    [0x5fca86539b272dc6, 0x64386ad905e24057, 0x1b9fec37376253cf, 0x2cb13179d6e8a4ad],
    [0xeafac039999835c5, 0xd85c3578aa46adf5, 0x9549df2c64e8097, 0x2932e8876d985ea],
    [0x1a15ce7729b9ac5b, 0xde9ef7b591fa2bc0, 0x995b0e78875b0c28, 0x2c1bf660a1dc8b26],
    [0x1c00229f8dbcb67b, 0x6bde82e124f0002f, 0x5bf313a919c4de39, 0x1e88f3c4efa334fa],
    [0x746dd20a6e03fced, 0x4fc4e29a919c9468, 0xb139d92323da8230, 0xc774d6acb4fcc45],
    [0x944e5359d4d34408, 0xec45a1d9e5293741, 0xa1a374b75bea6925, 0x17c11174c9104e2e],
    [0x920cd3a3d3c7b7b3, 0xaf3b014139b28f06, 0xaa832d764a5b5e80, 0x221f6d3412048020],
    [0x3f085560e5d37699, 0x56fe4c9e5a368d9c, 0x859b48131001ac9, 0x2c0b403d13386141],
    [0xe52aba17570c9d03, 0xb87b9fb9eed429aa, 0x8390afe24b8d801b, 0x1da9a5cdcc8d5c8e],
    [0xc94f7378f3d52f53, 0xc9864d9fd11815a2, 0x525b3922388b310d, 0xc3e382527280ac6],
    [0x92632840dc67eb83, 0xf0b48d9bc42b4c13, 0x5f77b1747c7c7562, 0x2e733c656ab7308a],
    [0x84feaaac57b15b2d, 0x50d5d80d881f634f, 0xd91997d4fc698fa0, 0x5500ca3eb4bd08b],
    [0x88d7437f42bb5cf9, 0xbd0690d0972aa21f, 0x19c2925c297d3387, 0x112aac301ad5ced6],
    [0x3c6c64d55a6c4760, 0x2a1fb2b5f02a5a46, 0x164e2360c9cf111e, 0x273c9c5526da6130],
    [0x407f2a63eab5f5f2, 0x24b3a670604ccfa2, 0xfd549eef232bd38, 0x5b30e5e7b01d873],
    [0xdd002494da376c6c, 0x44f5a89d59efec7a, 0x7070e8b67d4ac9ed, 0x26e905c3889e4659],
    [0x7119815b5b98960, 0x8d35559d4af804be, 0x38ee8fe2cc149e05, 0x3a4bd09500b2652],
    [0xef6e500a0f29827d, 0x32b2410defc6a4f3, 0x674b2497deb4370f, 0x301e86bf4790028b],
    [0x19c278f32c8114f5, 0xcadf4feafebddcf0, 0x4d99b9993964b827, 0x86d71db14345544],
    [0xf18cb846bb060e62, 0x48435018525f095e, 0xe91f02639d7dd882, 0x174ef177c132d7a3],
    [0x7bb3a0f09bc2d44b, 0xf7d8d5dd412b7c40, 0x735fcff06d88e734, 0x57af114d2416184],
    [0x2d93b8400c9b5fd6, 0xaf05ff80d267eb69, 0x8c3c3afbf7f0eb2f, 0x2cd21076d55f5c9c],
    [0x317c1644264ce97e, 0xd570da3a0833f8e8, 0x90517712ef714568, 0x1ab2f05ede0b3e97],
    [0x5fca86539b272dc6, 0x64386ad905e24057, 0x1b9fec37376253cf, 0x2cb13179d6e8a4ad],
    [0x7a69553bafb44dc7, 0x3dd2e28511f61cda, 0xf19212b4750781ba, 0x134ff00b65e9a214],
    [0x608a544d18ad8f6d, 0x46812a9f1d03c4be, 0x11b2f8fbc2a0d051, 0x144774a605bb8a7d],
    [0x2c43dff65d3edf8d, 0xf6e2070365ff34da, 0x9ddeb1d93bbb9821, 0x2f1de3b083580405],
    [0x13beaff39df69c74, 0xaec43b06bac6e71, 0xc66d27b223801650, 0x930a41a901ddf9d],
    [0x6b20c25f48b1f4a9, 0xe4950a088d100594, 0x637c0693c60994af, 0x5ea98895839deeb],
    [0x50b72526884e14c, 0x2ba984e38547f3d1, 0xa0062109b8c535d3, 0x2b2ad0eb96fe5e5c],
    [0x9ae56df2a25262f8, 0x369573fa66b3d337, 0x9a9dca213c0288e3, 0xea3a0fc0b46da18],
    [0x86298fe62afb073a, 0x33af7b7f2e85147a, 0xe4679a0d09825602, 0x272ea64f54ab3526],
    [0x99b92a123357c089, 0x2e145ed62b38c648, 0x40fb2f6d13a077d5, 0x281aa6e665287f95],
    [0xa7fca7482ae2c390, 0xa2fe8fb3d1d00145, 0xbf214a31f9546ba, 0x2a432fcc6ed2fce5],
    [0x22991bece3824ed3, 0x992c42439a44ebd1, 0xd1150f8fc74d401d, 0xa9809138f12435a],
    [0xaee0b88444805154, 0xa4027abba83a3781, 0xf537cfe978e320e2, 0x109adc1cf8528ec8],
    [0x53da2cd4df883ed2, 0x13e19f3266095bc7, 0x4091a376ffd1fc13, 0x979b7716c8be6bc],
    [0x38f45a1f0d593af1, 0x53549856ff6ec0a2, 0x6b6eb8a3edaf0183, 0x163c946685c585d4],
    [0x5f57f52f498f4203, 0xfad63ae91f429efc, 0xa7e40dd5575b4267, 0xd3d1890201c5bb1],
    [0x30e6e1e0cee2dcc8, 0x5c313e9b2b0ac7f8, 0x815ac26a76d8d6a2, 0x1f4adf58a1ca1586],
    [0x852474b240b53459, 0x31895fe24628a840, 0x79345046ce1a91a2, 0x2916cd6ca0ee56ce],
    [0x81f1c985dbfe86f9, 0x713015a40370d6a2, 0xc7ef2e27b3c050d6, 0x1390ae730e0297f1],
    [0xbef7cdc70598de11, 0xa7e2a175255c7e, 0x4f4b115e082bd95c, 0x2b747562e4956de7],
    [0xaf123aac328e0207, 0x265ea86d8b7f630c, 0xeda88e856c4909c4, 0x26d57a5bdf2b1da9],
    [0x589409ee5d833901, 0xfaf00709dac6542f, 0xda4215b96ccc5228, 0x24410235e3faacc2],
    [0x52ca61c6fc90bf32, 0x19e2b959f03e59ac, 0x1a6ca76117c5912a, 0x2bb0d85f9daad989],
    [0x5fca86539b272dc6, 0x64386ad905e24057, 0x1b9fec37376253cf, 0x2cb13179d6e8a4ad],
    [0xc673078c5cffffa3, 0x6378568883a35e, 0x9ca5de92e574ae8e, 0x1c53d25cc30ee67b],
    [0x8ad51041ee0ac0a1, 0x6a809244c42e44d5, 0x5947fa4d4c9bb536, 0x15809370254e2413],
    [0x81e16178dd4d2ffc, 0x3138c293c78957c2, 0x9a598a6569b5544b, 0x1c7feb95c74dfad6],
    [0x236cbbd174fceae6, 0xe5b8d2e15aeddfad, 0xff868ce436b6135c, 0x7160482689f59cf],
    [0x72d79aa4d4f5036b, 0xca4d7921e079fec2, 0x4485bc3adc0f6a47, 0x1e1716d8a49f0c32],
    [0xaa5c636a5f0f942a, 0x82f7a253ce49aa78, 0xeb62ede7b86c7f64, 0x2234e7ce1e40056d],
    [0x3e2636908b428a0e, 0x745b812587ea60ae, 0x35202fc26b51689c, 0x1134d89c4cc64ecb],
    [0xb97ca31cd05142a4, 0x4403812726e369bd, 0x8cbf3d0a7db61e04, 0x13c6c021a7904ddd],
    [0x63fb2895667b54af, 0x5b824b71bf2060b7, 0xbd9d06cf2c36356c, 0x1c750f568881fa07],
    [0x4fc219c1bcfb0a7a, 0xdf9efdb5233441d1, 0xb05638100428def3, 0x8170199a5b260bc],
    [0xb7b0bf5cddbfb1e0, 0x260e21afd030f32e, 0x594924e912515bbe, 0x1c0bf7af434ae20e],
    [0x74714aed8b3de96b, 0x15bb7bd5bfa55959, 0x9d16d8d7b906df0c, 0x1217414da7ee9662],
    [0x4c0e37c50156964c, 0xc028bffcc10fd586, 0x27850f36a3f6849d, 0x19bcebdd18dd8cd8],
    [0x31d7eefdc9c7b364, 0xf7d0aa8645e35b03, 0xf198ef0fd1126b45, 0x67a8b7fce532eaa],
    [0xba260d7178530eae, 0xa8f16523b6a23b2d, 0x4475d4bbf164caa1, 0x2a92c17b2ba92348],
    [0x71332b942ff2939f, 0x61c06f4f06fc38e, 0xb2930be09781138a, 0x21bad2c773c7b349],
    [0xbc2aeec801048801, 0x1d776f3cd74725c0, 0x8c7f2eb62f2fd0b2, 0x28d0786689c5a9bc],
    [0x5085363d6d5ef907, 0x77627fdd32b78957, 0x8ad166a5defde213, 0x222cc9d34695b008],
    [0xccf3cde01e40ac60, 0xa560977f7fb60b87, 0xdf86ec2bac782e9a, 0x2a54d465647c8ac5],
    [0x24e7768d678a2a90, 0xfff482f84179be09, 0x881dd1e6f6df9a8f, 0x13822f37a288f99d],
    [0x5727ff7a9565071, 0x8226c943b7aba998, 0x7056233f4a70042e, 0x1792175406aa3a9e],
    [0x292964f64de1d762, 0x2a6710b7a5478a51, 0xb55a3e4d7698925b, 0x80bc46879014fd6],
    [0x5fca86539b272dc6, 0x64386ad905e24057, 0x1b9fec37376253cf, 0x2cb13179d6e8a4ad],
    [0xb689bfc12e2c8ba3, 0x375edf7fb6438af9, 0x7caaa1b7f570e579, 0x8aeebda8fdf9966],
    [0x4c08ed67ad981bd7, 0x134efef55626e182, 0xede7f4465a2f0ad2, 0x4b0ff272995a13f],
    [0x64b41a8e731daeae, 0x523a716c8f83e0f7, 0xe95d21c8eab8fb98, 0x63c3f451fb64fd5],
    [0x44583f2aaf6e885d, 0xba4706e68cfe7790, 0x1107045a7fcc4e0c, 0x1928de8cc64d6cf2],
    [0xb231df9ab87ce725, 0x3726d8fab6cbef50, 0x92b1835b74cdb40, 0x1ef2ec873dca7eb1],
    [0x36b1440d88995031, 0xeea93fb3037870bd, 0x1c747f50e885d087, 0xae02db0ea401b8a],
    [0xfc77915050db758b, 0xdd877772701fa572, 0xb2bde61a38521aea, 0xcb7ba6cb4e056ae],
    [0x66b9b19b47653f6, 0x82467265fa055598, 0xf8043265ce00d613, 0x18e89e7317025644],
    [0x69669f71d0b71fbb, 0xf2ca99d267e011fc, 0xf96e547b66cc2bd9, 0x167a003eddaa7d10],
    [0x7a306f914db7a584, 0x3e2f35f300adea69, 0xf35256fd3826e34c, 0x573cbb272daa570],
    [0x76dca84b9664eaa1, 0x3e7b4d61e01786c1, 0x1a0141cff89e3451, 0x7fc9b6fdf58ee18],
    [0xcb9fdb1615674c6, 0x14b3a268d9289733, 0x6429f7e2d70e68b0, 0x2b3af74c7a1c0f39],
    [0xa4cc45120b48883c, 0x63d198c0b2b6458f, 0x7e4277e8cf1a05f6, 0x22580eb83a854a81],
    [0xd924b22c8a009b40, 0x550722b318ebfc8b, 0x62e638a0931b767a, 0xc03a653e7e2061d],
    [0xe85b80802e0557b, 0xe8ae08fe617497a7, 0x410f8ddf67bec129, 0x1f0f1d34546815b4],
    [0x5ca82df4105c02f3, 0xfd9a72cf9ed9d9e0, 0x333b22cdf7bcf0a5, 0x1dc998a827321537],
    [0x3eef93d98e28debe, 0x985041687c4b7648, 0x1ccd7139a48b7d36, 0x21305fbed36a0b61],
    [0x925f33fbcf7e9f10, 0xd86d507b72031d11, 0x4d0e580444a73db1, 0x19caf75550855e1b],
    [0x52ad3ea0461f3df7, 0x141955ff5a612b4c, 0xd72ddfdc5a47c8f9, 0xfdea1098aa89298],
    [0x15fbb5f842bb3c64, 0x1f6795f045634ec8, 0xcb1b007f4655236b, 0x15e15542d8176284],
    [0x7af7baca0e933482, 0xc32dbe223491c536, 0xc038d3801de3102f, 0x24b51f84f0737f35],
    [0xb6fb9737177a0ecb, 0x174937b53ce765f4, 0xf7b867475382c2fc, 0x22231a672bfb82fa],
    [0x5fca86539b272dc6, 0x64386ad905e24057, 0x1b9fec37376253cf, 0x2cb13179d6e8a4ad],
    [0xb64779221b4bca9d, 0xec539b4c40bba51b, 0xb97756ed7174259d, 0x2020cec5cf125567],
    [0x8dd87f3368f2cd73, 0xb7380efebf318320, 0xae8d82824c542e81, 0x16b7ffb1a4af4b1d],
    [0x1436fd5bacaf2bf0, 0x6b154ba2da3454fd, 0xedfa9f2f8bcaa38e, 0x29474e7fba2de80b],
    [0x732ff1bdcb049368, 0x8af0b1039acbd193, 0xfad71cf38c80c4cf, 0x29f55a4fd3170647],
    [0x700459b5600cceed, 0x655f74bd5793bae4, 0xa9ff282c175ea5ed, 0x2383d1015508e17f],
    [0x36af67f9ecc114a, 0x209b1809b132f7f1, 0xed02262545a6aeb4, 0xb21347d3f2e1ed0],
    [0xc151f4166e0c9cfe, 0x98778560012f14b8, 0xb73e4ed03746ef28, 0x1c3b4d79046a0030],
    [0x9e658c863088aad5, 0x34d8d8079173cc09, 0x9f2aec2af8b117c, 0x2bbdcab9bc95ec15],
    [0xeeaa75975b22b7cd, 0x28743e917547eea1, 0xc816d761fbc2abda, 0x32c3e39a7299f29],
    [0x1331cb546c31dfb1, 0x2b419d4ec69a0a9f, 0x1fb6551c34b1591e, 0x2402ee3c6cfac01e],
    [0x6240937eabd05acd, 0x1541847070efa58c, 0xb9648a7bb7e5c25d, 0xffbdb63b86161a],
    [0x984690d0fc8719bc, 0xd1218c699a07fb09, 0x4cbfc6ec6f2e73b0, 0x2dd5013215728595],
    [0x8afb80932769151c, 0xd688edf27d5337fd, 0xb622f442566be132, 0x116fcfd48ab31fc4],
    [0x1f716eb7a91b017b, 0xdd80898acbb6c2ec, 0x86279e146798a3ec, 0x2c3c7ae7989bf23c],
    [0x1de2f5452010186c, 0xb866d776c8f74c03, 0x823e799448da1cb0, 0x2b7e60fcbeef2020],
    [0x6fc00e20a83b7d0b, 0x29b63e1e004b40a1, 0xa63a23100fe5b9ad, 0x2b4a3e4a2db9c0cb],
    [0x9ec48da8b1207735, 0x55fe1ca65dcf3740, 0xf375cf86b9fc95dc, 0xd1527b252bfd505],
    [0x8e1c5b496eaa2ed, 0xfc6cd82b72390aa9, 0x7511114766ffadea, 0x1b0a396a158fa71],
    [0x9af4df76cca672a5, 0x15f7c1bb3051ab9b, 0x705d3adb389716b6, 0x25b7181ae26411c1],
    [0x24dd380978f1b1ff, 0x343521f18ed1e8ac, 0x538814957c5184ff, 0x1ce6e261ad4d6353],
    [0x319885218d57254, 0x80a0e0e06313c69f, 0xa458b86daacb8a11, 0x2114b703153c05d8],
    [0x7169d9ff3f628dbf, 0x3799a5dd893a2769, 0x32aac88e242f8355, 0xbba93da8fd45f02],
    [0x5fca86539b272dc6, 0x64386ad905e24057, 0x1b9fec37376253cf, 0x2cb13179d6e8a4ad],
    [0xf3c0270be6c9e031, 0xe78734bdd7a480a6, 0x8b7a01a20c8b84cf, 0x234620365d9e508d],
    [0x4081209ca5bf9c71, 0xd3401e10cca0285, 0xcf3ed2931a34af76, 0x18773402938384bd],
    [0xd6997504f7f50d3e, 0x243c0ba7ac2720e, 0xdd6a53036f1f8fb8, 0x12f489609e827ee3],
    [0x5a5324601d8c5909, 0x9184ab2fccb8b866, 0x46e34cedbb21e88b, 0x98af099212892af],
    [0x41c6c6b8cbcfa95f, 0x4c97dbd1382ed1c1, 0x73956d4e3ddbce6c, 0x229c5955c3b6f263],
    [0x80a33168f4fd9f6, 0x92a3003a7777febb, 0xeb1cb55072ee2782, 0x204c3dd1c157600c],
    [0x877f2d424cba56a7, 0x8e5c1b128edfb9cb, 0xd943e20a4cd37059, 0xfe2cb3ac38a35f9],
    [0x4706df0d9b62e9ee, 0x6f02da15b1dffb67, 0x78f36cf8887b6bc8, 0x2ae0af8492610bc1],
    [0x2ff0e0bc2b398115, 0x8385d140b61b0967, 0x683540a32fe3e436, 0x1ed1520997dc0364],
    [0xa43558b1eb12d9fd, 0xd575da8a808bfdf2, 0x67a93c435c2bdc67, 0x25a0c2f522b7f276],
    [0x56d7f67331348d3e, 0xfa5c6809a1520a36, 0x2329879adfb65782, 0x24d9bf46734bea25],
    [0x40def4c314d96e05, 0x59210f1414ae609f, 0xf0c6b82feb1587ed, 0x2b5277817669cc8d],
    [0xa4b258a2654e705b, 0xb2fa1025dc18dcca, 0x2fe7f8d3d1f0ac39, 0x724f33acc2c2082],
    [0xfc2bdc3f48c07c99, 0x107af0521fcaac5e, 0xc7ead26598dd2227, 0x173f609ce483747d],
    [0xe531e2c937abdf9e, 0x3ee48804e3e563f0, 0x18173aad7993e621, 0xcf0b2b3f0ab40d7],
    [0x6aa0cd078ae14f8d, 0x58aa04d76b4b0bb4, 0x238ac5846997636b, 0x17ce34f45aafd638],
    [0xc2ccf1b943cfa761, 0x8d64eece560e4c8b, 0x104504bba9014922, 0xaf51c9e93fa5991],
    [0xe9dd52ee2d8fb197, 0xfabd66405cf74e65, 0xdf325818a393ba5d, 0x67a323bab4f3d03],
    [0x49325896df57ebaf, 0x1332d38bf26a7814, 0x2fa2b4c5e2b5d03c, 0xc3d3445a27d7a04],
    [0xd27a3c50faa2e886, 0x821ec8d859940bf0, 0x824a623712b2104d, 0x1b5b3c710b37f195],
    [0x813e5f43ff3a8cb7, 0x983a4e32972031ef, 0x771845e6f67151fa, 0x16fbcb1c414031ba],
    [0x4658a98f148cc8ff, 0x51fab454e9a019fa, 0xec3bb01debd92119, 0x2dbb1e93d3cdcff3],
    [0x5fca86539b272dc6, 0x64386ad905e24057, 0x1b9fec37376253cf, 0x2cb13179d6e8a4ad],
    [0x8b0e1ed89bd9dbb, 0x5f19f25105f0247f, 0x9ea1bfd87c2d7a3a, 0x1f580786a86e622d],
    [0x2c02f4e130453c16, 0x47205dfb84b5b0de, 0x356f75fb55b7ef03, 0xe2debc6417cbce9],
    [0xc5fc902847dfc0fd, 0x273025779047f72a, 0x2a8d7dbbe938a61a, 0x286b399e2ca18961],
    [0x6c3bd92d3bf76dee, 0xf2a3a81cc5f0030b, 0xe4598ca0783dde7a, 0x13144b54692e577d],
    [0x35f58450fdafe9ab, 0x2b4474d9ef66dd7e, 0x9509b168845f46a7, 0xaf7247e59389d0f],
    [0x4fa62a19d262f5b9, 0x80c28a5309d85f97, 0xf58aeb4b8ec1820d, 0x18b3c1a2e20476ce],
    [0x9331a9db0a9dde32, 0x888799302c7c9939, 0x40b74e3f50fe6eef, 0x22d6ca5d958faf49],
    [0x935f0e75dd6beb6b, 0xfeed08267cc7a17a, 0xa0a9c44cdcc1763b, 0x28ebcdb416210c7e],
    [0x55a89a17f947aedd, 0xa4cbfb3534cdbaff, 0xd24c21e937f975fa, 0x264522a85698bf1c],
    [0x21059b549b8ace87, 0x25436e47f6aad10c, 0x223dcbf96e156092, 0x170ca38dff04f179],
    [0x3977766d78e7ca83, 0x291acf7b84c3a1b8, 0xa7eceb160ba3cb93, 0x1980e8052c47daa2],
    [0xa46aa9c9ad39b64a, 0x61e4822e53027d86, 0x9f0831d0a98f7a69, 0x2ef55e77f3230873],
    [0x2240c11103a308c1, 0x59c269c32fd5af19, 0x14c7ea0567aba7a4, 0x284ac526379b614a],
    [0x7a356b6f033e6dc9, 0xc1791d4fbeb38b6c, 0xa458d23f2c2c1f7b, 0x1d5a978ae2de2380],
    [0x2ab75eebfcd1bd98, 0xda0c3f56e2f6c12e, 0xcb1e8924b6541942, 0x1fdd8752355eee4e],
    [0x35f28e57f6a6d387, 0x7b76336affc66310, 0xfd2f4c823c4c2205, 0x274b47507df843c5],
    [0xd98e82350be3f379, 0xfe399bed08d9c77b, 0x6d8665f43aa1b4f6, 0x2d46b1ea87a9f2ed],
    [0x1610076b81d49eca, 0x24b4ef34525c5193, 0x62fd73013bb2d347, 0x21e50a36ee2e6ed5],
    [0xd479f462f1cf4b06, 0xbf71e9a0fe12f425, 0x5233db913f1dd886, 0x2f0a7fda21c19ae5],
    [0x66d6a29fe78172a4, 0xff45a65f7f6360a, 0xcdb078f38ee7148f, 0x2dc7e716c1b4d182],
    [0xdd95bedcf8f404dd, 0x230f39236e6729ff, 0x8f23609dee59bbb4, 0xa24d8de1362fe9f],
    [0xa33133fe9206bbbf, 0x4e6f791a656f8edc, 0xe0f97d81c67a7701, 0x2b1c087ce01523c9],
    [0x5fca86539b272dc6, 0x64386ad905e24057, 0x1b9fec37376253cf, 0x2cb13179d6e8a4ad],
    [0x39c0a926df820271, 0x85a0f3ef8d003ac2, 0x7b7915a7a11f6ef4, 0x243ab6d29d356d14],
    [0x9258655bb569f3b4, 0x3f6c8ed21e1f1b62, 0x7c54cf4315a4bf99, 0x10f0ea299cfd16da],
    [0xa2927e621a45a16f, 0x29b7faa279f1e483, 0xa508de5e9055c246, 0x1057e97ac983fedf],
    [0xfef9ceb1d86688be, 0x2657e8aee6e732e1, 0x3e792bcadd76dbf6, 0x13ecb96925a98517],
    [0x4853c335ef448b93, 0xe610f2c9361a9328, 0x1dcd59691a2944c4, 0xe6f9b2c64d9d97e],
    [0xc0466cc847d22240, 0xf4fdea4c423691db, 0x83247ab7d37384c6, 0xf5130dfaac7698c],
    [0xb0aef79e94ff5c37, 0x506ed395847532f0, 0x1a80f22c9ee06cab, 0x719c66d510d88d5],
    [0x246d3314de2cd748, 0xcac73c343bb7f652, 0xcbfbbe226c6d9799, 0x19fe7de3a53de3d0],
    [0x9ac400ab7b0a4a5a, 0xd750447ae0023678, 0x7742da8ac8dc02d3, 0x1fb5113860f9c371],
    [0xd23aa40fe066611f, 0xaced5c24c3932460, 0x3ac27e6ccb68a14d, 0x28637c9718b8c105],
    [0x11b99808a28a10ca, 0x6ffdb5103dd32171, 0x26f7d811c660cc9c, 0x1049f5f885c559fe],
    [0x1db89b27ae10f0e3, 0x38b96aca1b7c3aa1, 0xbc479f6fba4e4277, 0x11ec2b02d176c222],
    [0x8161d77552233c16, 0x59b4861dfbb3969d, 0xe1b00c8040eae1bd, 0x194af56781953f69],
    [0xdb03f0a453d8c21c, 0xee9ccf2748929286, 0x5060d7d0625d4882, 0xe752eda03c9dc68],
    [0x6488292e7bc72a2c, 0x2ace7246863f49df, 0x13542b6085053ac2, 0x1440c319ce47daf6],
    [0x7ff97ed9109e0971, 0xb4ac61a3eadfaf33, 0x208ddc71ac9646ae, 0x10cd79d6139155e4],
    [0x7f9e290600b3f749, 0x6d25a43366d99ab8, 0x57aaa0583333f576, 0x2ef23590604b7f0],
    [0x167772f18b799f97, 0x32ee65470759893d, 0xb8c6e23c2cd7d263, 0x2ef2c45fc47b175c],
    [0xe36965e11152482c, 0x105fa2a0c3fe40cb, 0xcd39e0a9d7ea12db, 0x1e769953c74901e1],
    [0x92e8b594db57a617, 0xac6efee3756d593, 0x4ee4efd31cbe1bb, 0x2713a7060c9901b9],
    [0x7da9cf116cf4249a, 0xc5a7aac5bcabef24, 0x765e5c60678b18ec, 0x15b3bc638f4556ac],
    [0xe266265e3183535d, 0x7817d8fe6f36e357, 0x708b7b6f7a05c67e, 0x1df44e6b43f51e3a],
    [0x5fca86539b272dc6, 0x64386ad905e24057, 0x1b9fec37376253cf, 0x2cb13179d6e8a4ad],
    [0xf6dea7962f36c3c, 0x4c17436c1ff8b687, 0x56891ac9f4166ba1, 0xda3ee283edb0e42],
    [0xf0fa54f36aadc0d5, 0xa6b6a0b13f832f24, 0xd387d19322790c87, 0x2eed5fb764a1fa6c],
    [0x88c2a4b6093de75a, 0xab311db6e12f14e3, 0x704477407a46991c, 0xcb9fce02c3f2f82],
    [0x9bb5706a6eadad08, 0xd2f76d799cf112d2, 0xcef62722997e5df9, 0x2eeba73653edce41],
    [0xeedf5c3a71e63909, 0x9f7c8a71f1b02f45, 0xe0c6bbd1e76fed82, 0x4318c41475504dc],
    [0x8e505127a78605e, 0x66e67057c8faedd4, 0x10c0583c1c3b7e79, 0x2a094657153ecc17],
    [0x544a9e6cc4edcce2, 0x2dea6023f85231a5, 0xda6d1b13c4856902, 0xf40aee2532a088c],
    [0x275f11f57c054459, 0x63fcd21b59e6279, 0x76911235bc25ed81, 0xd97ae7232142775],
    [0x7cefaef1e475cee, 0xa4b73b8009e3a67e, 0xaefd0f4fc62167bc, 0x82f1e5e8e5087c1],
    [0xa8b02468ff57a971, 0xb1b903a2b88827fb, 0xc1b59d84a8f2ffd8, 0x284f24d43d09bf31],
    [0xb449258eb89d3aa8, 0xe728b7e105b4ac6b, 0x429f8c38483f7d4a, 0x2b6538eb36991fc2],
    [0x4a3106e033b3f2a4, 0x1d2a405bb9435954, 0x3c575b9f51f8bb8d, 0x82e7991093e92b5],
    [0x359ceca59ed12d81, 0xdc9dde2bb6ca2a63, 0xf6ee7d9ff217e0ba, 0x288593b3cdd201b3],
    [0xc7a8601874649bd0, 0x194c32a91a15d0c8, 0xa2c4b46f6da9e207, 0x2762b0c05f66a7d3],
    [0xb09d035dd42d0305, 0xcd22baf2a89720b4, 0x4435570f9435eaf7, 0x20851ccb233ef81],
    [0x563a0c08d89f52d7, 0xbc00f661cea435cd, 0x903d9faaa355d2d4, 0x1e17e4ac7afb5980],
    [0x9fe186e85d88cc81, 0xe137348737ff11ef, 0xef5f60c4905cd442, 0x11c64762f6e40528],
    [0x3842d5cfa739c10d, 0xbf6c80cded53bbf2, 0xb093e2f1936efde3, 0x135a7893f0df31bd],
    [0x9c7400bb291fd22a, 0x2988d4fd289852b5, 0x24ae667f88cf2548, 0x670c942b19efe0e],
    [0x398d2be90a10c46d, 0x7df66f312f728ac0, 0xef03dffaae29bd9f, 0x2feb899196016827],
    [0xb6eacb23993ec19d, 0xcd881e8517cf8d60, 0xed2b2306e5870465, 0x23bb8acfb809bdb5],
    [0x8d02aa9cf2c94025, 0x3d2c1a6a51ec4a92, 0x357ad4ede386e8bd, 0xa2f66d3d56165a8],
    [0x5fca86539b272dc6, 0x64386ad905e24057, 0x1b9fec37376253cf, 0x2cb13179d6e8a4ad],
    [0x298b4a4f7f2c80c3, 0x876b08ee77917e55, 0xa82455d448359f1f, 0x2621d53d90f51a97],
    [0x7444290254f10515, 0xe239d5fa53866e40, 0x7b57ece72d5599b6, 0x2e1713aa13a1ed2a],
    [0x24d63f81eeb9cdde, 0xbf7176bf09974e92, 0xa312bce8cbfaa6, 0xb0e3135b9a9bb39],
    [0xb493db30a65359fd, 0xefd7c123cdcd54a0, 0xf9cacbdc0d0f22eb, 0x1b37ec261be552d7],
    [0x44e6971696042dd1, 0x608dfe4555e486a, 0xed118b55fbef6f06, 0x100051565c2e4d9f],
    [0xe2f1d4170d93c58b, 0xab1f8f40c8d8070f, 0x18142e4fb26533f0, 0x298819bac61778b2],
    [0xc1da9152c8a82560, 0xbd728140e3b8cb91, 0x5ed26079f85f11f3, 0x2cbb90e508952c4b],
    [0x7e1a7c7f8bb17091, 0x4661e3792b464e8d, 0xf8901d7d9004170e, 0x18e9de503cef0ae3],
    [0xd9af3a4df60768af, 0x5db217770a207e7c, 0x61cb26070ca93ef3, 0x240a6c59aa724382],
    [0x6834b073c4ed7f73, 0x82fa848a0bc9454f, 0xca201df876ee39b5, 0x1c5c0274172befae],
    [0x68f94940ca73028d, 0x6ca76939be984627, 0xc5d075aeaad2df55, 0x1dd2fcb227876523],
    [0x27827bcfba8a0ce, 0xe3a09c6db8f053a7, 0x2b322bd16275af85, 0x1e0ebffd9567e422],
    [0x97d14cc80bd7a865, 0x25ece6af1041e4f2, 0x5e1f6e5ada4adc31, 0x549e3fd2d8b4c8f],
    [0x4431ef14a7fd8bbd, 0x5068f57a18cf3d8f, 0x5379f61580f17fdb, 0xa43a7e3ba83061b],
    [0x8eab979bddd4d2c9, 0x8b347afe2b3641a0, 0x2dbde544aff988ed, 0x2a8c713fa0bf5e00],
    [0x8ab0a5113dcfd4d0, 0x36cf3db8e0da4636, 0xc5a7feac041de1c2, 0x307b423ad05a7c6],
    [0xc1f8820469bd5839, 0x4138f56287f2837b, 0xb3e911ffc3c1f8da, 0x1202dca5513d8609],
    [0x457fd49673b0e48d, 0xc8d2306962baca62, 0x6f7fc25caf837f5, 0xa109d2e71767964],
    [0xe39c4cf0800264d3, 0xde2a404c9f4d7a2, 0xb0aeb56bdeceff41, 0x2158fe72a1672fc1],
    [0x5e479744dacb7c2e, 0x34ed52e73dc1f9c3, 0x3a148e66c1771a46, 0x5e83a4f3ed30f86],
    [0x3a17882adaf6f146, 0xcc342091a6d18a29, 0xe678a62443c00442, 0x15146f0169d0dcb2],
    [0xd3ce9f91512c1be5, 0x95f0adae815cdee0, 0x95293a0defd1f444, 0xe27f37904825296],
    [0x5fca86539b272dc6, 0x64386ad905e24057, 0x1b9fec37376253cf, 0x2cb13179d6e8a4ad],
    [0x91042a32b4ea56a, 0x4cf9f998823dbf13, 0xb430f85259b7408, 0x216bf6d0d240ce8a],
    [0xe2c947ea462597b0, 0x93e7b70a6550e09b, 0x54ef41fdb3f234ad, 0x177227662dcc7ef3],
    [0x7f2864db12278e4a, 0x156c892cea648f04, 0x3b7673809909ee3a, 0x1864bb94cc95e4e3],
    [0xb7cf420c129a2616, 0xaf22af7ff1aad92a, 0x654a1e805d403bb, 0x2eba9c8ba56d6b80],
    [0x93de5b422dc1eb20, 0x4c21f81e0df67c25, 0x2c2e174c0cce34c6, 0x24133306f286c04d],
];

/// Part 2 of the sparse partial-round rows for width 12, as little-endian limbs.
pub const S_DATA_2: [[u64; 4]; 256] = [
    [0xa05a9c06e002b8d5, 0x24b82291d22108a6, 0x46cbd57f9dda3c3e, 0xa1aeba71ae73f28],
    [0x36d7424e1d2bfeac, 0x2a2a9f847063845d, 0xa5e01bb7af549f84, 0xd2d0af3b16bd738],
    [0x6e6900b532e848d5, 0x83d6d08164ae7db2, 0xfd880c9285028c28, 0x8e4a4d4fb97473c],
    [0x6e4f2c4abaab6520, 0x476c9f2cd34b74c6, 0x998acbb749c29f4, 0x2b2ae02b9d6d5322],
    [0xe48b29806298756, 0xa5fe216026638203, 0xc2f6a3150ef62616, 0x1fd0ca0b29e63609],
    [0x4128d704c2dd46d7, 0x4e78197f4450cbf1, 0x902e2d9d79e027c4, 0x11e7f1f91826d815],
    [0x5a3279d99879e2dc, 0xa307e1fcfb60fe17, 0xa99693adb350858, 0x25ae141d31ff2237],
    [0x9a646aa7bb9f4753, 0x8834990abeb7ee7a, 0xf17ccaeda371552e, 0x13047c24823af0bd],
    [0x912c06cf1388e92a, 0x445e90ddab20cd50, 0x2944990007644733, 0x266358e11e5081dc],
    [0xae70fe9c3ee1af91, 0x1828f69c44bb89b6, 0xf6f0aefe8a7a2df2, 0x1247a2077d577a1e],
    [0x5073b7b20d2814fc, 0x4caca5bfdb7d3e06, 0x6f2e5e420edd47f1, 0x2c338524f33f321e],
    [0x2c3467f9a0974c26, 0xa759aa44e97257f7, 0x7179bfeaf0ffc028, 0x2ced7c9cfc6cb972],
    [0x9e48de02fe239c9c, 0x74e74153f4f99d63, 0x17dc5b4e683bfa2, 0xe633982a359333b],
    [0x1416d351a05afaf6, 0x79d4923fd13be32b, 0x196a395ac836e6a5, 0x2ea0bf1ed70f15fc],
    [0xcd6e511ea37c64e0, 0xcd2bd7d8418c55fa, 0xe00c666c6670c099, 0x238f38e3b7a1d517],
    [0x3ce753a8f286a75a, 0xec0032c1feb25798, 0xcaeb0dab3ee18797, 0x2da765692bbfefab],
    [0x5ad07fe24dc281d1, 0x6f52fcf02c9ee0e2, 0x6473d56a4c57ec13, 0x2cab9bc1d925ca3f],
    [0x5fca86539b272dc6, 0x64386ad905e24057, 0x1b9fec37376253cf, 0x2cb13179d6e8a4ad],
    [0x6c873ce976435efe, 0x6b6aa13ba342f457, 0xe81f926482699c6d, 0x1210303a7705212],
    [0x47e4bd24bde2852b, 0xbb0cad132226c92b, 0xf4c43c7fd551fd05, 0x2e1fe52ad49d5b2c],
    [0x6bdcb8318c78d80f, 0xab174704e4953b69, 0xd5535709100d47d0, 0x16e6198e30d06c12],
    [0xca9c7004e01a7eb8, 0x32597965c811afb9, 0xf9ea8b66e2f01e90, 0x11087fc4daf5c010],
    [0xead88673c187e8bd, 0x6a2c0f0da4f6b391, 0x2d737b0feb4aaafd, 0x268cc3c909fbb19b],
    [0xfe9132879d4b4688, 0x2714cf2bd9ae7038, 0x1565b19d0e6b47ae, 0x1200152bacfbb5e2],
    [0x71f60539a630f59b, 0xa301d37edf474a3b, 0x83fd845fa7d06eba, 0x28db252e756f0ffa],
    [0x4851700c703c9db5, 0xa56ec38c3178f890, 0x6b0b77e9d862fc27, 0x184e95906f85e4e3],
    [0x7371a3da470e5d96, 0x965b4de941bddbd7, 0x74926f2d5ec6497b, 0x14d66e67decb7a7f],
    [0x492ba935b07ba7b9, 0xd2284ec345e50518, 0x6c52f603e8a0c351, 0x12a5b346904fd63b],
    [0x3c91cc6d5dfb083b, 0x9fb60a6b2f2340e6, 0xbb735d3c4a3df2ec, 0x269094e291d79246],
    [0x94d09309808ece0, 0xad8ecb2b7677530, 0x5f602ee40afecbc3, 0x13929b4087a818cd],
    [0x4457d819a6d18757, 0x5fd6668860b945b7, 0x1b32f3ceb6f2459a, 0x14f878c52f6d09cc],
    [0xc4fc9cbc6fa0140a, 0x100837e513f329af, 0xaddc35fdfb88d27e, 0x2d91fc38379e50d8],
    [0x4f5cd14d47b505b8, 0x1947313993a0111e, 0xec11bb5f23525237, 0x27b4dd2629f029c1],
    [0x810e3cabb67d5d5e, 0x9e4107ce8a7bc786, 0x5394800f32015de0, 0xfcf71b4f58f1e84],
    [0x37fbab6898dc679c, 0x8074ca32f5ca1bb5, 0x6174d995937618dc, 0xdb4f212a8d9f803],
    [0x47bc3364d9fa8ff9, 0xd29ee26065906f07, 0x3656d44ae21323b5, 0xfa6cd0c9a74c197],
    [0xb484e027e9d7b587, 0x30b3aa80728ee5f2, 0x157b8c05eb81cdb0, 0x2f5d612a89e3ff0],
    [0x9a383169d7e5cf07, 0x7c288b2d72e1ea48, 0xe7cf1fd15767dbe9, 0x12bc2f8ea309d0aa],
    [0xbcca0ab3b102b4c5, 0x33b4bb35cfb628ae, 0xe16aafd2e43f1192, 0x20e5a78984a6e437],
    [0x92b5817c9a58c18d, 0x24d31e5a38bc56c9, 0xfc1c73fabd38c4ae, 0x155ec9570cd3e503],
    [0x5fca86539b272dc6, 0x64386ad905e24057, 0x1b9fec37376253cf, 0x2cb13179d6e8a4ad],
    [0x5c4e15c00747f5fa, 0x714a1997a97833c5, 0x283b6091195b9244, 0x6a4859991b82108],
    [0x1a94310c3bb931d6, 0x496148f0a62cbb54, 0x7fbf8d41a1ce86a3, 0x1a17c910b931d2fa],
    [0x80acffec7e9cd6e1, 0xf07391afc1095d74, 0x964022f94aefaa51, 0x13c27123ab15ac6f],
    [0xf6593b4fd7527f9d, 0xcaf3e32c38305a00, 0x82f5fd7628191e6c, 0x171c742bb0ca2a02],
    [0xaf5ca67c27da7729, 0x6fc45cec34e95739, 0xafd1ec787847f695, 0x16cf4b06cbdd21c5],
    [0x2846d22f217dc694, 0x70d4db75556da494, 0xfe993befc9c8078b, 0x11e51d4503b1aedb],
    [0xacead811a4fb4846, 0x9e794888c2702acf, 0xb4dd61967b32a6d0, 0x8afd62076c7f946],
    [0x58391c41f62fa841, 0x65ade0bb494a31a, 0xa12aab63546ffc8f, 0x4158c5f8f1b10ef],
    [0x22d09a417309dd32, 0x91a4ac26b6c2e26e, 0x659ec7565173893f, 0x2f87837b6f5f2807],
    [0xba4317ea783345f5, 0xaefae425c2774ebd, 0x842ddf8db4c76412, 0x7c728d2e8d95bc8],
    [0x3a98889fd61a3b0d, 0xb992b86a913f3b12, 0x83c896bf0f68f63d, 0x1455d8963d76e990],
    [0x8c7169dec09e2841, 0x65f59c87efb6859f, 0xf857a51c0e04b645, 0x8b4bf22aa0e03b5],
    [0xc6c8aa0ce8e1b4b9, 0x8414d4be94ca3ccb, 0xb0c6aaaf3e562130, 0xed823b8b9d0f2e0],
    [0x28f73cd9098ee6a2, 0xec49148369a457cd, 0xea9d16920d1d4273, 0x1642b64b6547c137],
    [0x3e41c1079c5c06ba, 0x9cdd408bda925558, 0x9ba20f16356373ae, 0xc9d91924e007af4],
    [0x5527b33e70778ce5, 0x8817de8dff121a6a, 0x2e1e927f733dedbe, 0x2f1518b8bcf46336],
    [0x3ef980efda445281, 0x80bcad9eb3e8cd1d, 0xb64b2a6ad154fc68, 0x2114e089d96c5a4],
    [0x62fb36b6564922f7, 0x3df41cced07a8ab7, 0xb3813bd8fda0cf77, 0x1abc25ed5c0fae93],
    [0xe1a45894e6cbc010, 0xfd68ec6af8f7c0bc, 0x4c50a2618f44a4df, 0x2a5eddd216f0eadc],
    [0xbec635c8cf864ec9, 0x464bcfa06db3581d, 0xbbd21418ecb62663, 0x75e0d34b920790f],
    [0xba65fa025d82579b, 0xa16def46efb5518a, 0x67dd287dea9fe9d0, 0x27b7beb430a31d09],
    [0x79b09d5a8e519b9a, 0x494e30327ee71b23, 0x8b92753219422002, 0x270bcb008b10d32d],
    [0x5fca86539b272dc6, 0x64386ad905e24057, 0x1b9fec37376253cf, 0x2cb13179d6e8a4ad],
    [0x3d2a855fda54bee0, 0xd1a07717da9b297d, 0xc97c01b4fdc65d8e, 0x26c4a3b0ff9b7f29],
    [0xa1cf95df1ab4862e, 0x4f2fb8151aeddd80, 0xf5ff9db4e213c6c9, 0x2c6dfb52d9648d18],
    [0x2f4449b6fda8c85, 0xfd9ca59bf9f6f155, 0xf9810877d44523a6, 0x2f7b7e795fd4f392],
    [0xc4a10c7923d8282b, 0x2c7ce93eff67e453, 0xe91c67932130feac, 0x5722aaa2080e70c],
    [0xf9e41893007050db, 0xe60b0ce5179bc0fe, 0xb8f32cff8b1a08eb, 0x305247769dc2fc18],
    [0x69ea6676a2713ebf, 0xc7d35c1dcd4e04b1, 0xf368c5bd7bcd2335, 0x25c0007547961e0],
    [0xbd617cc627ab0cec, 0x75ce904560f06eaa, 0xb24d01cbbb2ea86e, 0xaf75b019c88a07f],
    [0x9a7f7cc83d17a228, 0x74933b1f483a6db8, 0xc5a37b7378d94cfd, 0x4707e08232d55d9],
    [0x87b3c9866c448cc, 0x94aada6d0a04a350, 0x9e502992730dcc6b, 0x1cb2bc2b494b4a6f],
    [0xc800d1a6bdb7dc5f, 0x3fea12bb31928bdf, 0x73af036dd6932b62, 0x292295bf6257bde8],
    [0x73f290afc4574a3a, 0x169a17315695f54c, 0x3b74fa41157682a4, 0x235b612e67013ebf],
    [0xfb9dcb3e72e12114, 0x7483bdbc7ad3936e, 0x648c19e9e9119b15, 0x1f412dc0da42db6a],
    [0x2754c21d6d5c9d16, 0x72ce6cbf6234646, 0xc5f2958edd28a107, 0x1402bde219d915bb],
    [0xcfa47aaee5f4756, 0x9da4c166e107b2fd, 0x2d8c113ab42ab0b0, 0x265eef82382e0552],
    [0x61ef85c0110fde26, 0x9ea63242aacb620b, 0x7ee9a682f883da5, 0x2b329efeaf663ff3],
    [0xe8b39c01adc8aee2, 0x364d2fa582271da3, 0xe41d79103d1de6e8, 0x6004617ad663a46],
    [0x6fa88e2013025d55, 0xe74a5ea38656a1b, 0xa6ea4d58f408cd7d, 0x1a10c1c3bdcd43ff],
    [0x5309c0118f4bdb32, 0x7fa1aaf04c5fd26e, 0xe0530b69117d9933, 0x9c705ca1ee96783],
    [0x6718f6cde533dc5a, 0x681758793e1a1d5, 0x896c737ba36d7912, 0x978aa5435db1ee6],
    [0x43a9ebbcef1ffa60, 0xe1d469081c2cca3, 0x3bef42d7124ceff7, 0x1934fc546cb215a2],
    [0x253b97c9b3deed6a, 0x33214842b2d204fb, 0xd8f26fa482670148, 0x1ea452043466f1c5],
    [0x61fd6b9e80cd6ccb, 0x8d6a2a09de2aaba1, 0xd90f3a96070a57d4, 0x876bcc65ef05f89],
    [0x5fca86539b272dc6, 0x64386ad905e24057, 0x1b9fec37376253cf, 0x2cb13179d6e8a4ad],
    [0x2d0c786af006a303, 0xc120c5740e04e3c6, 0x9dec076b4b9c7ebe, 0x1c9f9742d4bbbb6c],
    [0xee1c90d0a06e7029, 0xae755c25b4f9566a, 0x8d9164a5473ac114, 0x18d9f9aee0ce3ea0],
    [0x23837c9fb06021ac, 0xdb2782762e548e0, 0x5322595d63b98eb7, 0x22476bc02607cc74],
    [0xabe06d0757eacae2, 0xc2f552594bfd9990, 0xbdb2cced36e1c1d1, 0x22d83381d8f8800a],
    [0x59b51d1a6c40118c, 0xf314b21ff463c5f9, 0x3a4958656a42e3f1, 0x16382c1df41e7d0a],
    [0x9110c8d38f1373cf, 0xe419b8e9b8833db5, 0xa324f5d1d2404b3e, 0x9e76815d09daa33],
    [0xd2986b4bdda6206d, 0xda589e71e8712ba7, 0xfdef9312557d22f7, 0x1b0d5ae4cde6fed3],
    [0x612b0535ef94bf6e, 0x24fb2a8a03f069ba, 0xaf08d49b838fbcdf, 0x2940f972586e13b6],
    [0xd3c36c11c25f60e5, 0x83d26aa37b1e3049, 0x1eacf5fc4f3a9333, 0x19edcab2af3f1832],
    [0xf0a24dd1dd4e735d, 0x99f5eb15ffdca763, 0xde4645fb5601b25, 0x2deca7587b2175d5],
    [0x911042092e96a26a, 0xb2b5a6ff8aadc19f, 0xb01555222cbab8bd, 0x1f816bee20400357],
    [0xc2ea0b753d550e9e, 0x5e01b81c448cedf2, 0xe70f81b06a9dbd4f, 0x2e950640b9cb8d14],
    [0xc84402f02f565179, 0x63b50b1fac685126, 0xcc041166d71d0777, 0x6797a59fb805d4c],
    [0x8efc2dec244f81d8, 0xb53a390d4a4a6034, 0xe4c800abd15e3239, 0xad20de820c01db5],
    [0xbb9b0dcd70954da3, 0x82eb2aa39c927d46, 0x3a7aea08317bcde1, 0x174a6b87cea8f7dc],
    [0x8df4e678487186df, 0x3ec33a6ad515e55d, 0x605c7b43aba9aeed, 0x2cdb547394356c92],
    [0x2e8c73f7fe610d98, 0x64345f978bdefa86, 0xc284389e39745c1a, 0x2d001f86169c7fee],
    [0xcf41166735737b44, 0xaa786503d225e1f, 0x3f91eeea0e7f4f21, 0x2e40bd1d9e8c6b48],
    [0x5aacda70ea3923ce, 0x41fa3d5d4a8062b0, 0x509e36e547de312d, 0x149aa5d1015e9f2c],
    [0x43a5eb521bda7d66, 0xe5c509dd18ab3f47, 0x945ebc9090400de8, 0x284295e910196398],
    [0xe6830077ddf99070, 0x5d206a1d08b8796, 0x1dbcba94854f7c4b, 0x1a1f21bdf1629610],
    [0xfbca498389b2218, 0x53941bfc75fea45, 0xf7e194f398daf84d, 0x257f8d5e69aeed2f],
    [0x5fca86539b272dc6, 0x64386ad905e24057, 0x1b9fec37376253cf, 0x2cb13179d6e8a4ad],
    [0x4de6d0429fde8234, 0x415abc1875a49add, 0x6c901e33e306ac9c, 0x215c6089e0a9a625],
    [0xdccff2aeba9f718a, 0xeaea71e2784a0fab, 0x16f0d301f3cbcaa7, 0x2cbbb480fa68f333],
    [0xeed83ff54937a34d, 0x381e47b5a3e34b91, 0x1a586be0f6acb6b8, 0x143619ab2212d191],
    [0x4b4e17ae5c988557, 0x83144cb2ba13aa91, 0x9e974d29cf0e35f2, 0x2385e3c9ae95a045],
    [0x2733063fcea07054, 0x447e91f3fad40b75, 0xa7cd944e0f309103, 0x2bbe7e909fde4390],
    [0xc3abadd9c29d2b5, 0x5c68ca5811974c5b, 0x45a0419d88e426c9, 0x24303758e4ea42a],
    [0xfde63459244d4674, 0x78fde0e5b9735ad1, 0x87dedda1706c608f, 0x260bb40c5f1b22fb],
    [0x3bcb57e65f6f75fc, 0xa04e28434a3e004, 0xfe8845806f38ff1f, 0x21f27302db4f5b28],
    [0x9027230e9c4a0d97, 0x5b0dcf76fd8dcc52, 0xa1a4ba25327ee14c, 0x16c95bed15dfc954],
    [0x13ea8226baea34d8, 0x848f28f691e8b2de, 0xe64d792b010907d8, 0x20996392773e30c8],
    [0xd845976af63519a0, 0xbf90bd8035cf43cf, 0x45b794b515bd07b8, 0xe20275c14333df4],
    [0xc81d84cec30f7f1a, 0xd5bcd75d494042bd, 0x947afa3e272275b5, 0x16422819af615c4a],
    [0x42c77ffbdf22276f, 0x95136ede8e9511bc, 0x7c5a94706efe317, 0x16329eed18878863],
    [0x81560fea28519269, 0xe5f8e6090a9efb21, 0xe32de9a4a370c6f4, 0x1e9f59aa3535d598],
    [0x3dcf567cbb233dbe, 0x468ab85a1d36472c, 0x2e852232d75fb4f6, 0x303df7dae20bb86],
    [0xe0a04fec32907b03, 0xec40e4c01d75d35b, 0x8daeda2ec0a2bf81, 0x103c4294a6754464],
    [0x1ace688bbf78fa7a, 0xc25aa7df2e362824, 0x5ae2c3dc1b9bac0e, 0xd9fb810fe920a79],
    [0xd06bedc4654bd320, 0xb3c33f03445a830b, 0x3e1f050c1a32820, 0x235f2eded2c0024a],
    [0x889b9c7d581ba529, 0x3e4fdb9d9cf44ce4, 0xd432a47a2a6dd408, 0x27fe4a10ee48d2ce],
    [0xb8230966db1e9e56, 0xb74467faab3477d6, 0x636ebf0933f378ee, 0x5c97d4fec77f242],
    [0x90c012b453ed60b7, 0x5c9b4e0b398034, 0xbf3cf5d3def37e0a, 0x17b0b7d570dc76bd],
    [0x835003ac53ce46c1, 0x3994c335fa05de42, 0x837465c016ae8bd1, 0x4013b73ca35eb02],
    [0x5fca86539b272dc6, 0x64386ad905e24057, 0x1b9fec37376253cf, 0x2cb13179d6e8a4ad],
    [0x1b3f5e3bd7b831b9, 0x125bdaec68f9134c, 0xda53711df4d29318, 0x4ed491d2af18388],
    [0xc2e736de89b0d118, 0xcd3937828d8630a, 0x40e58b5e77386d36, 0x16e1f43d878d2cfc],
    [0x1a5f3a0c34ad3bbb, 0x5d354db95e5334ea, 0xe4e65c183869d4c1, 0x45f7d97cd4d95f8],
    [0xb1f184cc97ef25e2, 0x450995afaa5293ce, 0xf5aad4250667e1cd, 0x242af80de0ae9607],
    [0x655d626e748d931d, 0x5013eb9fe57e79b3, 0x1e2c1893f5afd832, 0x2d149e6319f8dfea],
    [0xda8e5126b3ef0899, 0x72cb272a670901f0, 0x1e1a6fe999770014, 0x78a606fb0fae37d],
    [0xffcd5e3a559640df, 0xeb727f3c47c53cd3, 0xaf4f919f5e48b512, 0x1548a537c3810897],
    [0x37051b96cdc202, 0x5a137b343cdb74c0, 0x1365b7b7deff55f0, 0x1e3e9d2919459829],
    [0x70fb4a4cde0e9d74, 0x944abf11b568e0a0, 0x8761a50c2f71e5f, 0x2ae46fd5b2a10a69],
    [0xa26063cd0921cd0a, 0xf4dcfe27bde2786e, 0x4059a5e3bf3db7b7, 0x1d5dbbfd82c2f370],
    [0x56967e2b34a63946, 0x3d6adebcf7bae4ee, 0x72b8d896bb8243ce, 0x221089932e5ffb0d],
    [0x405440b3a8fa55ab, 0xa1087e74cf277212, 0x51d13b5fcf5d8e7b, 0x2a5ba9e0c62d3777],
    [0x481659e053c7294c, 0x414b2a45b4891092, 0x6d0828524563f987, 0x1ed96d07a9487690],
    [0xe33607f545c24641, 0x6a0695bb3af22e94, 0x97cba5f102327d7d, 0x1619ca922cd3654f],
    [0x5bccc6f277a16adb, 0x5475f3427ec133cb, 0xf530fd9185176fd8, 0x93f881501a90112],
    [0xef63cea2e355a7d, 0xbecb58661528bdc2, 0xe819ea42ac2e1bf2, 0x2417824b008ac5a7],
    [0xe08bf566a3dc874a, 0x7567971c5807c5d3, 0xd0c0e6b95a628a61, 0x1efb091123948573],
    [0x3cf773d033c0fe4, 0xc70f8b454da461bc, 0x115600b1453820c4, 0x1f2fc25f030934b6],
    [0x7041c52169764b61, 0xbf660809da89166c, 0x6947006fbbf4b3ce, 0x263a77c0aa2edd31],
    [0x3b973dd422a1b940, 0xef6fb4b61251f837, 0xdb9923907f947842, 0x15d37f58a9589eda],
    [0x1d85d9c41ce40820, 0x76569f53e881ce86, 0x48c2b12beaa6a398, 0x76d6d847fcb9975],
    [0x34ddd7913272c5c6, 0x17c116d52a9965b4, 0x575cc2f4dd2fed51, 0x1e220162696cbe1],
    [0x5fca86539b272dc6, 0x64386ad905e24057, 0x1b9fec37376253cf, 0x2cb13179d6e8a4ad],
    [0xe852ea8b8e98bdc6, 0xf6e7a76b576e880, 0xc01e543e57d4d7ae, 0x12eedc290453cd77],
    [0x93514efad7086439, 0x6ca94d4342ece415, 0x2fd690b227d948ae, 0xbdc3d78a5d0f3a9],
    [0x811e1bbb4d3468d0, 0x8b354cd022cfc04e, 0x3e2d7158f68f5b75, 0x2207296649856f04],
    [0xb5f7999110f35f9, 0x8fb758f76a30f3e2, 0x19a79b2b6f849a96, 0x21430ade4c0144f8],
    [0x1132dd4e123f7c0b, 0x87a08f6f0efa754b, 0x36dbe4d9926b6bea, 0x1a70bdca6f117015],
    [0x1d8dc721fd813fae, 0xc42126a3f15f4bcc, 0x915dfdb9e2a4c4d8, 0x285d8e90abc1496],
    [0x645aa8953bc45ede, 0x5e51bf1c6f09e35a, 0xa856f2cb7b22531f, 0xe57676068d4b4e3],
    [0xafc90f37590c025e, 0xa367d198e7644962, 0xbe5b794ee6bef5df, 0x1053abdbffbfcdaa],
    [0x6ff088797f54a057, 0x1a10041e0085aff2, 0x12b02f55c5a19e4b, 0x11660d7d44db7310],
    [0x3ace29d4df767920, 0xa2a1ea40c90bea1f, 0x31979594cea45cde, 0x2bbee9db0a412ba7],
    [0x37acd6136e4dd63c, 0x752e7fec6bde83e4, 0x70edca383f4e1cc1, 0x119c59a67e312da9],
    [0xa107620242a8d233, 0xcd31d745e627c21e, 0xabc6d273b4f13854, 0x2a861198a0bdb354],
    [0xd01e977142351f12, 0x14170d820095f3bb, 0xabc7f3d010003d59, 0x1a8ac82f57894230],
    [0xac494828c1e655d0, 0xfa0963b14c2ac961, 0x88144421ba37cf75, 0x3548b5e02d4f1f9],
    [0xfa5d05681c366709, 0xb9ec7123b4f3295b, 0xbcb3c145ae29dede, 0x2cfe3bafce8aea2],
    [0x50a395c8e0dcd32f, 0x61d65637f808541c, 0x94982df30832c699, 0x274f38fbc034b51b],
    [0x7500fc5411a8a365, 0x4726945cc5abde42, 0xfe447ef58e09e451, 0x1154c2e042ce659d],
    [0x29ba6488c2c164c3, 0x777fc1c2a52422d9, 0x730ed2731f994303, 0x2b6203e305e19b7],
    [0xc077b79b9569e2aa, 0x629a35d29387be06, 0xea1e621ee2ad62ea, 0x51917b944afa399],
    [0x118dddfb738d9ba7, 0x6c950fcdaf92e77c, 0x1a4bba652eae5fcf, 0x7cf3b4f4f274f71],
    [0x676f69e22b717352, 0x5470e629221f5221, 0x300bf5724d695835, 0x1184568d03c28368],
    [0x8cf540965ab3c168, 0x6138df1eaf664988, 0x8c21279cb8a2cfe, 0x1857839c2d8b0d6d],
    [0x5fca86539b272dc6, 0x64386ad905e24057, 0x1b9fec37376253cf, 0x2cb13179d6e8a4ad],
    [0xa28ee89c60bac357, 0x7185438e593c9635, 0xaf8e213b42e5988a, 0x26518ee75c590976],
    [0xd4fcb67ae42bb5b9, 0x59e219b4efd8c1fc, 0x2b596cabbd5f40df, 0x23645455ddb929ee],
    [0x2efc903b62d25ebd, 0x6e9f6c2abbe95a02, 0x9f419c74741165bf, 0x16d0126c2df72ad6],
    [0x932e9c5684021dde, 0xd54e4cffe5a5fecd, 0xe72bd63ed3e1d4d3, 0x195050200adcbdb5],
    [0xcb6bca01499134ce, 0x541b173fa0a3e8df, 0xbf6982f2e715c91f, 0x23c26b8f07749697],
    [0x9e75f91ae5a720e9, 0x7d759ba6e4678017, 0xe5a4b911dbcc61f8, 0xffacbd7cec2233c],
    [0xee5e207fbd0575a3, 0xe270778902e6e090, 0x7f433d7ea9eaf185, 0x231a2beac360f491],
    [0x87b8cb1865ed8a59, 0xcce022c8b08235c3, 0x25d1500f835a216e, 0x208cee18da850a26],
    [0xb3f1ea148057b6c9, 0x254ed966674bc08a, 0x2df8530cc3ea5ef1, 0x2df938f310cedf],
    [0x7de6265b69dde3ef, 0x2f7dac001fdecce6, 0x8d69850022a14185, 0x5cc71f44f496cfe],
    [0x61a2014449ef845b, 0x16f71fd0b77e357b, 0x4e6b51552107036d, 0x1e04cf375796f471],
    [0xe042ad000f861c17, 0x3bee92ac18918a1b, 0xaee099735b074d, 0x177060e5eea7e3b8],
    [0xe89476a7562127fa, 0xd1ff709677de1a3d, 0x307e450873f5a4cb, 0x27f7183ac04ef3b5],
    [0xba5ef6321fe64877, 0x614c2844861b23c1, 0x1d9e78964d27fde0, 0x272c4143f3f48b71],
    [0xab5b3ce79e90ac48, 0x65e0c4d780793000, 0x5b70aa3b57c92d0c, 0x17c29df44b208e4d],
    [0xfa6554924c0f6b03, 0x38e9d539a54ae8c4, 0x4b9c4de439e0dba0, 0x8426585ef062b2],
    [0x114e85b7fb18f3c3, 0xfcf6c0ed9822cff5, 0x1e344c03336f6c97, 0xafaddc71d356bb0],
    [0x99d89e65379e11e5, 0x1d311364887d4556, 0x78e74566a25e54bb, 0x27de3d9113a625f5],
    [0x59ab08a91417e81d, 0xd6fcf434daf1cfba, 0x45dc6b31f66d8356, 0xe8ae5a0eca14656],
    [0x984e0149a2e59836, 0xed7d03c1005affd1, 0x548f813eb6c091f1, 0x1e41011401e99e5e],
    [0x522a0a323b078403, 0xe8b2edded884c6c0, 0x6bd4e5d31bb8e840, 0x2fdde0adafb47ce4],
    [0x4f2db3c52d2946b2, 0x3e53808f6ffa90af, 0x6ae1314d38a55930, 0x6d047a14724da14],
    [0x5fca86539b272dc6, 0x64386ad905e24057, 0x1b9fec37376253cf, 0x2cb13179d6e8a4ad],
    [0xe769b4d0f5c94c25, 0x4abeb32da96cd82d, 0xce32f7c5b552a081, 0x27e98739b0e44313],
    [0x39c5cb35f96a5e83, 0x13f35cac3e4235db, 0xe6bcfdbc0e2f49d0, 0x96c0e16b0dbf141],
    [0x9b811a0544d1ee3, 0xcf5e0534388e5f9e, 0x24c7cee2d6421ee7, 0xa5a4adbd74977d],
    [0x9311ee844fc3e773, 0xf9fd918492317fe5, 0x1c4f37b079b35e28, 0x17939f4a2fe98de],
    [0x3bc28cde6b738aa1, 0xab02fa84ec4b0f28, 0x380db86b119e1fc4, 0x2fad1489f14f53e5],
    [0xf63f9bcaaf455bc1, 0xc07de1b728a580ff, 0xa892f1c38aeb083d, 0x2765769537137039],
    [0xf9bc7ad5c128f2da, 0x6da2f88825e635d, 0x9cdd1ee8c3df3d8b, 0x1e31bc0fe231bae8],
    [0x50ae5192d296eabd, 0x622b2f49f081cd7a, 0x6ab9824f1c10b86a, 0x1e516c3b9ae36f83],
    [0xa394b6b798326043, 0x1dc998f91d255553, 0x3e0189e898fa7d9f, 0x47cc90a4be71788],
    [0x6404ae10ba35f53, 0xc9fe9fc9b04927d, 0xe35698eacd7ba8d4, 0x1c56d70a6472d972],
    [0xd0d2e3b0d57c5807, 0x3978e98fa759b621, 0x95a23f5c7ee1d991, 0x205c05088541f74e],
    [0x12c673776bbc47c9, 0x966b8ddf3e51b4d8, 0xadd0540440cb042a, 0x16874f1578735735],
    [0xc430f72e46feb453, 0xec734a2746cf4580, 0x8bf4b64b23d6e44c, 0x240f602afd2d9788],
    [0xa6b7140e191e7b98, 0x83b778ecfa452ee2, 0x829568b66934e5da, 0x1abe8b11e0bfa0a5],
    [0x62d0766a06dacddc, 0x7806840c8825bce5, 0xf228140185e42f3a, 0xc276760c90c65c9],
    [0xcc78d2e595d7dddf, 0x4bf3324198c44e7a, 0x4424f2b9e37439eb, 0xab7dd18d0804d39],
    [0x40564f023ef7b9e8, 0xa30dcc2b090897c0, 0xa12f1e78e3cfbe69, 0x74abe46b34d1dab],
    [0x8d497609858280bd, 0x9ff82f62b54537c4, 0xa2eac36181dd8e9d, 0x2f240ffafdd27616],
    [0x24a00fd69a30332e, 0xc62699bd562ee5bb, 0xe4864c0e20912026, 0x1009c918f84e7180],
    [0x8bada319d69e4512, 0xd82369b2d16885e9, 0x4f9707a8de9ec2ca, 0x9e29496159b70b3],
    [0xebca9d9fcc2c6672, 0x623f8ee412934fe8, 0xdaef0b7abbb26e4d, 0x21afdfa37d1b9218],
    [0x29ba8ea0610b18b3, 0x9c5cdd44107d8aa8, 0x2fa904877151066a, 0x1ba7bae9ba2546ab],
    [0x5fca86539b272dc6, 0x64386ad905e24057, 0x1b9fec37376253cf, 0x2cb13179d6e8a4ad],
    [0xc3e82d32a55a4d4a, 0x7dcc0c2ae00ff560, 0x4337bbfbd097c262, 0x2048256f57c9c8c2],
    [0x4342dfbd81f58058, 0xac3de62a8cc88e90, 0xed60d1113da22600, 0x882758c559a9a38],
    [0x2fad74f3d070d5a8, 0xc9667682c060fb5f, 0xca382d00657cea60, 0x54f6c1185a58025],
    [0x6c0ba8eb0c370153, 0x608aae89e8285a32, 0x2962d4b061144009, 0x18da33071f0ebc4b],
    [0x5388cce403ab4af3, 0x25f59ff76675758d, 0xafc1846801937ece, 0x27102a58751c96a0],
    [0x2fca866a07b1f7a8, 0xd59973ded29c6ee5, 0xda398be9f3fefbd6, 0x234028cc85b8345e],
    [0x1ef191b9211bbcc5, 0x8ba5fad34019a65b, 0x529256732681b5b4, 0xc3762675631dd7b],
    [0xe3d4dbd9c107e6e, 0xc580bb3dc8357d17, 0x803f9f19d603391e, 0xdb907e69984fa1f],
    [0x2440de9606900dfe, 0x65deaa7cd1bfb087, 0x6a2b2ec580e5e4a1, 0x1c5a1126b94c62d0],
    [0x78e94699f776f6c6, 0xb90ddfd72162ad94, 0x606e9aee72ba7a2c, 0x2e3aa301ead4fdcb],
    [0x430c5db64a552396, 0x47a3090bd561b2fa, 0xac5d4fc5d78faf9c, 0x279d20b786fb6a7],
    [0xe323d055cf38340d, 0xce1088102dfa3732, 0x4cce3fe60751477, 0xa951ccbe5d7d134],
    [0x55ba0ccbaf8149e9, 0x7975c0b7eb478abc, 0x8e41ea652ce2f60e, 0x26a8d4b18704a5aa],
    [0x1104f62e4e662953, 0xdfadb60256f603d5, 0x918257e7dbb38f97, 0x787247335760468],
    [0x2abfca872b3f489b, 0x5d16c110c2b36f16, 0x9436167aeb4b5b18, 0xb0a7b524cb7c751],
    [0x79a951333b255398, 0x165bb1bc56d55661, 0x92824f15644f3889, 0x1efceec837f27a5],
    [0x966c789b4777fe01, 0xeec51380c7dce9b8, 0x79a1f68f1de64b58, 0x2ffa74a07ef6aa25],
    [0x4ffc615ae80d1be3, 0xd49e23aeae55b77, 0x3043bbaf216ea597, 0x304582e03ea48dbf],
    [0xe1d757d6a019537d, 0xa28b2ba191240030, 0x4cd768fd400cb5ea, 0x1fede6f02a459556],
    [0xf6083990d4ad0561, 0x5ee7aa94d5b3514, 0x284427194876c8ff, 0x1e33187373750a7f],
    [0xb7955128e9b24bb7, 0x20e84feda4d506a1, 0xe231d634ad2c502b, 0x1c5a22361e914dfa],
    [0x26c38e36cf56361b, 0x1c3ab97ed9690c2b, 0xe3b1f4c7607a4896, 0x1310273c02734e60],
    [0x5fca86539b272dc6, 0x64386ad905e24057, 0x1b9fec37376253cf, 0x2cb13179d6e8a4ad],
    [0x1815cc4620e79dcc, 0x3c94834e60cd380a, 0x106d6ad25bf3acdc, 0x2eace5036bbf892b],
    [0xd3e6c0cc241b7ba9, 0x88f3b6e4b4469ef0, 0x3ddbf48c2fa326e7, 0x2cf399b03624f2fe],
    [0xa98f42f7baf9e188, 0x2ae7a1ae84b6d366, 0xce6882b49839e994, 0x22d41054830f4b29],
    [0xca92c61e71f5c765, 0x23b6be3b4690cfc3, 0xd367659fb588806f, 0x15ae7d83075b047f],
    [0x6d4ed3dc43b3a0e6, 0xca7076ecbbf7cc91, 0x3d2fc902578dab75, 0x2825fd5f33d36270],
    [0xf24dbad99bd572cd, 0x4f246e340574ffcd, 0xb28129a673acf96d, 0x12d12504ba541ca2],
    [0x75b420ec803189d6, 0xd4370b0c89d5996b, 0xd3690d4497e930f, 0x29653490a0536803],
    [0x67cc26ac6d2bc169, 0x314046229ec07c87, 0x6dcf99b67bdf3866, 0x21188ecfc9b8a96b],
];

/// Part 3 of the sparse partial-round rows for width 12, as little-endian limbs.
pub const S_DATA_3: [[u64; 4]; 256] = [
    [0xe54bbb1508b72908, 0x3d189d84bb4129d2, 0x271f410151428009, 0x4ca521fed16e4c8],
    [0xeffa16d22403e4a8, 0x752b08c462fa1a91, 0x3cd2eebda088e476, 0x27d867a046afbb0c],
    [0x1d7c1ba0fc6ad629, 0x564f0485a116ab97, 0x43e6990f631a35d9, 0x1e754e7744482f6d],
    [0xe75ddfba2d77bcec, 0x33f216398da1338b, 0x7e6c896304b46e38, 0x1dff12c679a23588],
    [0xd8bc4a6dc36dac09, 0xd9ae979a0d9e0236, 0xe4f00872e7af3299, 0x1029ffd3ca881002],
    [0xca27f3b3ba3f1f5b, 0xc2a39777bc01bae0, 0x88a110bf3247146d, 0x2099a9d66b52f0ff],
    [0xa716164c89787e85, 0xc50fab366f51ce3f, 0x48f2dfc1828a78e4, 0x212ed3e424ee90af],
    [0x5a4475628aa38cca, 0xba94984a1472b01f, 0x6e6cc8968bc0a62e, 0x3fe48adcb5e5624],
    [0x8af369ab6ff809e, 0x6b8a756b3a0444ea, 0xfee0841e1a8b8fe3, 0x2d726e790f68ce53],
    [0xa5342b70cff74ba8, 0x3fc545cc19452cc7, 0xb7b9c96ccb8fb7b3, 0x168de57f2f5a7a31],
    [0x8e8348cd3f36f2e5, 0x552e08099b3ecb8c, 0x72d4e52cee81f74c, 0x1bcf256686de35f6],
    [0x9514a012c31cc946, 0x64b452e260d4745f, 0x314984d88fe0283e, 0x6f7d1f39f8bc8fa],
    [0xa5911efee1a8e311, 0x65877516c414630c, 0xe94f422285ee9795, 0x267158ac0a27dd2],
    [0x1c7a557e2034f957, 0x3551c79e8388e65b, 0xf8e0e7fe3218a3f2, 0xc4d16ebd4cb046b],
    [0x5fca86539b272dc6, 0x64386ad905e24057, 0x1b9fec37376253cf, 0x2cb13179d6e8a4ad],
    [0xe94d522abfd5f535, 0x468e295d1b724f6, 0x3c33a8ebfe15373f, 0x22e7f29177214072],
    [0xf66a21af858b56a8, 0xec4f6b837f1727da, 0x69f8e21329d54e5, 0x2c5cfb9974cb2299],
    [0x8b860ff0948ae9cd, 0x5df295f9b6023d0c, 0xf18e6eef36ca15ba, 0x27a1b5dc716f8f70],
    [0x7bd9d6905eaf28f9, 0x391e2efd97554b05, 0x47e924bf9b21496b, 0x1510814b5e9ea61f],
    [0x937dea204f64996e, 0x658766ce48934cc1, 0x15927fcc1791f25c, 0x21ce0a7da429a545],
    [0x70c7200059956b87, 0xdad12b05bcb65cd5, 0x353a5a7cf3ffb4aa, 0x2e2617468ade83de],
    [0x3d8b8db7db9d111f, 0xfd413448012b8a71, 0x98ea89afab784617, 0x284052fe9e8222],
    [0x95fd151a739610f2, 0xc9f917ef5fd354f5, 0xc145d53e9ac62772, 0x2f1299ecb664233],
    [0xa5e67a5ea1318d1f, 0x4acbeaec381985f3, 0x98dd2968fe86c8bf, 0x2a89d81e36b4e716],
    [0x90e5c1062c3e764, 0xc00ae90ded7aa472, 0x2514742b4860a72, 0x1bd908426f44f80f],
    [0x22237a05cfc6b95c, 0x25dab4389d675d93, 0xc20f3cf1edc5eb8a, 0x1a43e9dac11dc11a],
    [0x20033b2254ca6a28, 0xa8219ba6c436d0d9, 0xb23d589df2a5aed5, 0x2692699c30d2cfce],
    [0x7ab027ef6383aba9, 0x5f11dc71e1e3718d, 0xefcc105f4e504eff, 0x28857f7da86b117c],
    [0x7752cf1b9a76c6e3, 0xcbd4a222a1f1f862, 0x1ab87405bfd46d20, 0xdb4febade50738b],
    [0xb9bf734c1dff33a1, 0xd2edafc5cb4cbffd, 0x7046eab1f3ccd6de, 0x18724360a40cc50d],
    [0xde471c782e60fb2d, 0x95dab037310349dd, 0x36e205eb4982247b, 0x2187d4118b5f7526],
    [0x3f281c57a275e588, 0x39e3a55166f7f394, 0x134ef58e94035823, 0x709ba7ecd374680],
    [0x785605d89d139ce0, 0x6cf72ed53b00b7f0, 0x2dbcf6e44d3ee0db, 0x202fd3f05d2bd8e],
    [0x9d39b6086096898d, 0xc71b815b6bde4a56, 0x3ab69ecb0498a75f, 0x9a760b6af4b4eed],
    [0x282ef3ac6d24ece1, 0x46c599fe44b9813f, 0x2c4e21dfc8a266e9, 0x2218e6abd4e31c4e],
    [0xd87e7b1dcde6bf8b, 0xc09b8c2228481f7a, 0x898a2bbbde84568b, 0x3fce74af211c178],
    [0x504eabe8e7f23573, 0x20b288860ec8f99d, 0xc5345b141db249c1, 0x2201d6ae9382dc02],
    [0x5fca86539b272dc6, 0x64386ad905e24057, 0x1b9fec37376253cf, 0x2cb13179d6e8a4ad],
    [0xe2cd79a761dd9a7c, 0x2f3515c947ca97bd, 0x700b722d1392e3f2, 0x17b549a98305619],
    [0xa5589e43db1208e0, 0x36848103f333aaeb, 0xf58b50a53d66c5f4, 0x1321911b787b6c29],
    [0x60d262b22efe1fe2, 0xf48137e61938e304, 0x2f4c59c7d7ce1516, 0x9ba576527297960],
    [0xab53459801ad77e6, 0x6f86c899d97f3d89, 0x51703713714785de, 0x1705b7f07f5aabec],
    [0xabeae938af1e896a, 0x2042b3ccc82fc8bb, 0x13dd398e5ce61402, 0x18ac4517cd9c3d9b],
    [0xc0ca64180234a26f, 0x641a08f00d045285, 0x49b4028fb3dd8bfb, 0x2d2dcf4a755c21bb],
    [0xecb8374934383116, 0xde7b1873fc1ae1bc, 0x706b6b39a10c092a, 0x2420e764bc7ba63b],
    [0xaa55ac344e440b2c, 0xdd5c3126eb87df41, 0xdaa78ae39af01dd9, 0x10eaafb36f88f19f],
    [0xb2cb5d957844a53, 0x3a3252dbf4ce0ea8, 0x8cefd33e6ed3c7f2, 0x1adb582c6692385a],
    [0xe65d6bfca9030a1b, 0xab308ec61b511dd3, 0x2f01570716b665e2, 0x17b3f1bf0717764c],
    [0x80ce4d7e5ec27214, 0xfbfdfcccaf0a3eda, 0x5e8225bbcc73ea9, 0x27953c6c48de10d4],
    [0xd44bd7ddb5ab3c80, 0x47d8bbb1d0114270, 0x7e63dec570cffae2, 0x15e794fec75f7c4f],
    [0xd450f2e23bce9d5f, 0xf60c4f24013cb1a8, 0x82560f814afb01e9, 0x40632b4454c59b2],
    [0x6e15d81737717a6a, 0xefb67c273a3ada72, 0x43b71350d991413e, 0x1e9c0e04247d8e1f],
    [0x6cb325b8dd1db30e, 0xb207d7065556f479, 0x2b76c0bd1418bc03, 0x2f8dc731a366ddd],
    [0x1dd3ce10b0aacbbc, 0xe3c8475e0637fa4b, 0x3028038bdadfcdad, 0x24463e539fa612ef],
    [0xa1a1653d3bf54d52, 0x83e6fa85ca2f6738, 0x509ad33ea77bd889, 0x28762b41feb35e6],
    [0x702002b27d6b0737, 0x776936a81592baa6, 0x902022444d80ea90, 0x247c44be326d67af],
    [0xa57dd3b04be7f63f, 0x45fea97112c2bdb9, 0x820378ee0c9adb23, 0xa8ffb6524fac8a3],
    [0xb735d60fa32c7000, 0xf3d98e1cdf5c6388, 0x4177ccf924d22e91, 0x264d334f14801fe4],
    [0xab11711117f2ed6f, 0x69d2d8f05cca70db, 0x29a24ae3c46b1267, 0x1a96bd9bfc5432ea],
    [0x85bf5d1c3049eb14, 0x90f7de67a02b2e42, 0x8b8203a8e67f1c22, 0x16542734a0c4983f],
    [0x5fca86539b272dc6, 0x64386ad905e24057, 0x1b9fec37376253cf, 0x2cb13179d6e8a4ad],
    [0x1014d4400cca822c, 0x5d2974ee08535ef1, 0xa420f4aebf63b77, 0x46208656464d4ae],
    [0x6e063aaf656094ab, 0x5f295272ad7e45a2, 0x6882272bbeb9ab13, 0x15f6a9ef383741e1],
    [0xc859a462d7f117f9, 0x58db48b9fdef72c8, 0xb2ad3c285159f2f1, 0x40a8985a8323dd3],
    [0xf11c77074634a80e, 0xda8183cfedb790e2, 0xfbb1dbccb8fad09a, 0xb9b4c7ded97f1a7],
    [0x42d9d0d2acc376e4, 0x247a997ec9e541ee, 0x9dd17bc4354ad727, 0x10700446bc61701c],
    [0x1b546b97c719d923, 0xb5112fb422bab40a, 0x8842752a31bb1d2b, 0x98a404fdb1c37a3],
    [0x3fe42aa1f7193bf6, 0x6a8550b748cc9fd1, 0x1bfd1e3152599641, 0x1843b850d5cef887],
    [0xccefe9478358a97e, 0xd124b668cc206dbd, 0x819fb67132c84220, 0x279c28f81499a1d],
    [0x3c4a7ef1f7189e35, 0x9273545fdadf88af, 0x144c5b25fd5b2f18, 0x1d6fa109f9d33d9e],
    [0x7fa5dd3dfc18d5ec, 0x60bba4a520fc7eaa, 0x80837bcaabc2ae90, 0x1e89c2383d920c8a],
    [0xc5877fd8585edcdb, 0xd020561150ba343a, 0xca05eaa724cafb4e, 0x180670edb0cc070],
    [0x6fbd08aee8a27a6b, 0x8a552a01d9fb66a3, 0x3ecf2a6438ed17ff, 0x44a14d1f731de50],
    [0x3b0aa02fc1033b02, 0x7fe4c1c53e08ae3d, 0x7c86a81f240efb14, 0x1391644b83aba3c],
    [0x88091730b2d5bc91, 0xe6f67a68d031f7a0, 0xec17aedf833ef19f, 0x1a9373fa92867334],
    [0x5538f8dfa02b3feb, 0x25f450000caddbb3, 0xfee39b8f31935c33, 0x1c5c46a6852eefa],
    [0x3fe64a0c1d534102, 0xdd404e58e3f0a873, 0x5057c6bcc8e68180, 0x185b3aa7a434a722],
    [0xaaed138e19cb903d, 0x1cc1d6e8412918f9, 0x94b90e7625595555, 0xb562eca994127ec],
    [0x1389ee780c0af1f4, 0xd46bdcf3d1ad8cc1, 0xee234d231988298f, 0x1ab2db0ae479301d],
    [0xaf8613dabe9a6a94, 0x2b5bb7109fe326a5, 0xb11402d5929fbc33, 0x2ec8c3feb4e03af],
    [0x5ffc97ce4641bc9, 0x3889283cbf880355, 0x70b760ae75d62013, 0x4dc3fb12329b17a],
    [0x58d0fb61ffc4c094, 0x37dd9c4a96685f1d, 0xac1a318dc1005572, 0x1297d2ec92df98f1],
    [0x1aad9e0e994cddf9, 0xf157bc9fb4a0a6ac, 0x54df4992df98f681, 0xa84c5d2f491a406],
    [0x5fca86539b272dc6, 0x64386ad905e24057, 0x1b9fec37376253cf, 0x2cb13179d6e8a4ad],
    [0xde03b1c90b1af001, 0xc776ddcd62e7184d, 0xfcfa4ec007ad655, 0x1be6b03ffb55eaa],
    [0x389a4c50666219a3, 0xbcaa2dbd29b6d7bf, 0xa79eddd220c56905, 0x2910d31a4ab9e0ac],
    [0xbbb79232624a57f4, 0x2bf359230d7bf3c6, 0x9ced2af2ca20db9b, 0x2839abe3d67b01e6],
    [0x81325a8d4ef87ae7, 0xe5cc48e9965c600c, 0xc428bc6ed4606dc5, 0x2d0c50609fd4832a],
    [0xceaff556d2e22dcb, 0xffe90aa9e3e1a82, 0xbb35bafbcf2f4abd, 0xa9180406884b203],
    [0x77749f4f3676e4d, 0x2ee26b747e3eb42a, 0xd55133eb45a94504, 0xd5e3761475ba3a3],
    [0x7e5e6f4bd123f77b, 0xec510eaf5fe6e510, 0x4979e2164e244f1, 0x811919e5bf03ee0],
    [0xb2029d56579405b0, 0x5c2bf6f2167fe239, 0xdc074695f6d1393c, 0x23d92b35fed4accb],
    [0xafd08691b04933e7, 0xdba2535b5c38de7b, 0xd2b07afd817dd2f8, 0x100576c563ad00cc],
    [0xe545e510994dd90a, 0x3442abcf3647c50b, 0x7be3f594f8ea091f, 0x24cd184d14319631],
    [0xafacc28afd6fa380, 0x96bcc8088006a3f7, 0x65bafc84f4864888, 0x128748993a58cefd],
    [0x2bcdcb3d98e01eda, 0xcf7699c7b24ed1fe, 0xcfeca3c8cf5aa466, 0x126980393d9f697],
    [0xfbe3c5b2ff7dbb69, 0x7643790564a80ee3, 0xef35a515696e13d6, 0x3d53b1b0659c95c],
    [0x527f06dbf423fb10, 0x5bffc45d21458e41, 0xf22711fcaff805b0, 0xb1cbc1218a01cca],
    [0xa0fd52ec8af49ee0, 0xa635f74c8b9f1e1c, 0x472bab4f0ce520fc, 0x2d2b944d4f9dfd80],
    [0xc7529a1b1c90f54e, 0x24821fb400920778, 0xe3383939faead69a, 0x286ea70600778fae],
    [0x5de06513f6ee738d, 0xd6253eba654e9603, 0xa836bcfb7129f0f0, 0x1238e08378044550],
    [0x419ef15a74f8ad57, 0x3ad86ea1a2ea8e9, 0xbd99af81d226cc65, 0x20d38b283f1f0abb],
    [0xa94c09b61815c2cf, 0x3c5d2419fa58f226, 0x94f81d1f5726c813, 0x25f5d1c94a4423c9],
    [0x63917fdc30f0973c, 0xbdde0ee261faab0a, 0xdf0f9eb2f6678fa6, 0x1ba4948c72f33685],
    [0xb64fe8c0598674cf, 0xe08b4fb5cef04232, 0xd0007ac70600c3f1, 0x2a306087a9453e96],
    [0x8f120e0c77af65bd, 0xdc46140d57d0699a, 0xe99ed53a6ca87dd8, 0x9e528bcade9d9b1],
    [0x5fca86539b272dc6, 0x64386ad905e24057, 0x1b9fec37376253cf, 0x2cb13179d6e8a4ad],
    [0xb083f650e39db967, 0x6f3aabb6a314afb5, 0xd553a84029458929, 0x2a779727d7ab06db],
    [0x41a52171c108324c, 0xde812e27376e249f, 0x4beee5dbdde1d5c7, 0x11aa7127dce97c6f],
    [0x6c8c778e484da06b, 0xdf002054622c790a, 0x4c2cb1fe541d9e3, 0x2e6df565cac73a4a],
    [0x7dd9e03dcb381e92, 0x6d0e6b72ed2f4c90, 0xea73e548cabf6084, 0x224c4dec007432ec],
    [0xe5971167ebc58f76, 0xb3bf646f6e6c804b, 0xe731ec6e1cbb0aef, 0x2095194e2ecab4e0],
    [0xcb22203c98d6e2c7, 0x1d2cbf5f3c4c6c8c, 0xd59137db76c7252f, 0x2ef057063be57233],
    [0x4f9c4767e8f87fb4, 0x2fc29ca5100d76fd, 0x68c5af0f70636dc6, 0x15185ba1b9b80607],
    [0xe3fe41a406669532, 0xf43d29a30b328b6c, 0xd0be986fc2d41617, 0x1ba274d2184bfef2],
    [0xfedcfaa399fe74c0, 0xae14cdb75ed5fc59, 0x1cb1afad7414892, 0x27528f734c665439],
    [0x2b6c4772a6b04896, 0x9392ca6d2e4f72bc, 0xdce8a64999623a46, 0x1185229ce9c183d7],
    [0x8993a99bebbef6d6, 0xeee8345f8563df44, 0xc1c49c00c65ba85d, 0xb36b20c33f83d20],
    [0x26deb8dc9aa3c559, 0x8ef9266b542a9b15, 0x8471fe7c60b63821, 0x1ee843386b3aa0c3],
    [0x9a9dba68cf55ea21, 0xe6ca29cfe95b6015, 0x5d3cff5b6858e85f, 0x107972f77e0382e],
    [0x86130cbfb261f5c, 0x5f5b9600c8d5c0f4, 0xdd3cde3ce58785eb, 0x2fc46021b9841db9],
    [0xc37bd89563f14a8f, 0x745e55aedf5eb931, 0x91343c7f19f68e23, 0x22b8c705b7b675b6],
    [0xb366f330e87013cf, 0x301cc6d522ae042d, 0x70c890de5e66c763, 0x1db0aae1de8a5817],
    [0xf593b2da46652d3, 0xae7b7d7c89922805, 0xd9a5bd5cd0d4a21c, 0x2b17c19b2ff64a3],
    [0x9ce5161c91119baa, 0xdeff0b55ee3124d6, 0x95d6cc3c6e90b519, 0x1e3a4c2c96869274],
    [0x40e50a851758452d, 0xbc25345e02db231f, 0x739a4f85462cee5f, 0x384603dcc8e7748],
    [0x19b51066866224aa, 0xd867f96459985ba1, 0x9910ecde3d7ca9f1, 0xe842866ee159980],
    [0x6de9ea306a6fb2c0, 0x5fcb66aba8b248d0, 0x2516fd1973ce27ad, 0x19c09d8567e90a62],
    [0xbeed77bffbe754cd, 0xa4c3d424b14cdec9, 0xd9f536bb92b8aeb9, 0x134176d3a40f1bca],
    [0x5fca86539b272dc6, 0x64386ad905e24057, 0x1b9fec37376253cf, 0x2cb13179d6e8a4ad],
    [0xd1972dcdb6265afa, 0x13ddac227215fbe5, 0xf0025c99e93ab462, 0x1918c06693a26c41],
    [0x41af9321803468f2, 0xf446016a8fb4b1dc, 0xa6a5f510d5952918, 0x2c2d3ad00fcce75d],
    [0x8e0ffc425f574c09, 0xabd2ad7dde5a002d, 0x9f048503b481b9b7, 0x18ff4731631733dd],
    [0xf5c2cac7e01d57eb, 0x3be2cde202d8b285, 0xc5d65765b15c5665, 0xd14a3159cb458b4],
    [0xfe98d19590298e96, 0xc326422282f1bd30, 0x138095f1499e6505, 0xaf7d40dbf6a9d2e],
    [0x8f43f08f311bd806, 0x6c5ff9eaf81726ac, 0x6fd916f103386806, 0x1f728b62200f84d5],
    [0xab3632f6e6e3dd5c, 0xf0067adf3c3575db, 0x2847578f49ef3d4c, 0x2f1509a804a1e61],
    [0x3fd37d25ba812f06, 0x813ccffb152dbfa1, 0x21ce4b96ae6219e6, 0x41c67e015b37707],
    [0x2df95f9febd467a2, 0xda3fcee2b0439481, 0x67e808e2eed1be9c, 0xc336783fc41679f],
    [0xcfcfd49f9d103548, 0x4c8852c9a17d3e0d, 0xaa84decc7b70ea34, 0x1e34badeb3d92a88],
    [0x675e02ef29f01095, 0x7652ee3a7fba314d, 0xd4016404921a292c, 0x2539fed64ca5f8bb],
    [0x6604cd51ac820d6, 0xcc4fcd2e9c3ec8cc, 0xc3c9cdaa90390fac, 0xa83942d60d14f46],
    [0xa64b74e0ba9af8a5, 0x22a961d06f589ca1, 0xd613f65f6b48d42e, 0x2724f8dfd70e0094],
    [0xf4d7f95da55983c5, 0x143504927affab95, 0xc33c608817ee6a4c, 0x226e101fcd7f365a],
    [0x3b53dee9bf37b189, 0x621bf634006463df, 0xc9071986b3771fa8, 0x295d81ade71715f0],
    [0xa9e36190eb81afb, 0x1b6165adffa6e916, 0xbdd6282dc2a2008a, 0x14aaf0e78ca5884f],
    [0x6c96154529f45a39, 0x2d692ae7501d7fed, 0xeacdc4e0f32dc9f7, 0x2652e6b66e323877],
    [0xe9c9654883091a95, 0x4bd4474073349a80, 0xebb087c35bd33ed3, 0xfaa22bf6ee7ed51],
    [0xe43cdcc0e5a366f3, 0x6a1979f4374bf0fa, 0x1d0e02d066b120f2, 0x12bd1d8d922cb20e],
    [0x7e2e2c4f009606e6, 0xe404084a78aba568, 0xb58986c274968b23, 0x158c1a5307ed0d18],
    [0x305ca47559f597b3, 0xbf774c5e1012ef2b, 0x74c6b815bd7303df, 0x28b5ba99540925c8],
    [0x80226e3f911d26ef, 0x7b578e19ee28baa8, 0xbb8a49be77360995, 0x2b845d95e442fcc4],
    [0x5fca86539b272dc6, 0x64386ad905e24057, 0x1b9fec37376253cf, 0x2cb13179d6e8a4ad],
    [0x3f66b6d565be3b9b, 0x308c47817c3f242d, 0xbf23b5cbbcbe9bac, 0x1b66e79c663bec66],
    [0x18bc4b51d4cad270, 0x47947db4337d9d3c, 0x149e59e6a34d6f6f, 0x79f775f411c9c90],
    [0x49e48da6913e606, 0xd43d0742333927bc, 0xb7404cf82d589fba, 0x3009d6cbb50dc688],
    [0x314478175e356942, 0x311058d73c0befd6, 0x11e49907222387ad, 0x1fc70661054fdb21],
    [0x7f1280e82859e9fe, 0x62d9bd50c9d0a6f8, 0x330585518894029b, 0x1ee04e8ba0265fce],
    [0x6c42d503c62e4fc9, 0x291e8d0df2ed2762, 0x8421456fd00e0e29, 0x644f526b432da5],
    [0x45283067dff3c4b8, 0xe616c56c483c0c9e, 0x883ea897815b333d, 0x27e99dd0f8fe2ca6],
    [0x7032c18b90c17e9c, 0xe8e79dcfef24b8f6, 0xdfc14d8b3cc604f1, 0x581ac976cadd2b1],
    [0x3475bcdb399457fd, 0x3cc564c9784e5779, 0xa536bc3842e8a967, 0x6750f648570d1ee],
    [0x95a6465d9ce6044f, 0x4132d1b800819ea0, 0x4fa21222839e7eea, 0x15822b758ce9dd86],
    [0xfe6a276d53da7738, 0x3eb0e3615f770151, 0x8fc7bd054d7e10ff, 0xd9ee290eeb8ccad],
    [0x9f176ab29deb33fe, 0xa08b59a0e819c768, 0x1c0805b35a8c05, 0x2aff79aa26d195d6],
    [0xd6328ad62f2d807, 0x778a5e476073a9b3, 0x58ea68d75927afee, 0x237fa4d9fa2fa84b],
    [0x44de6f0cbfe6723c, 0xe0cb091abea22cf0, 0x8373a899e602831a, 0x5d20936e308b6eb],
    [0xfde8454fbee764af, 0x9333625d0e07e064, 0x5d2f92c333444b42, 0x20470a9f2d2a3cad],
    [0x7055486def2d6a1b, 0x31de49e833031ce9, 0x391171b5c738e5d7, 0x2e5ee062393b836f],
    [0xf0a591e9491a96fc, 0xc4003f8dacebb4f2, 0x113b9dfa9e92ec1f, 0x15066a745e56deeb],
    [0x97788fdcaf30238a, 0xf0c90448307d1d2d, 0x738b4b137be08c44, 0x15af3f3747ee7d63],
    [0x34c19515018d4dec, 0x537a0be5e295da93, 0xc5c2e2baf93fa206, 0xa9db2ebd67bcfd0],
    [0x89510bd29da37cc8, 0xf6ac0ffca2e4a99d, 0xe5b97d71abcaa195, 0x9d819663eeedf9c],
    [0x11486adec2b9a69a, 0xa079f0a286c76abd, 0x770c8bb140c5cf98, 0x43e45a7ab55e8ed],
    [0x1cd46421389b06d7, 0xda42bbad0e44351d, 0x18588ec7f9b53edd, 0x267390f339be917c],
    [0x5fca86539b272dc6, 0x64386ad905e24057, 0x1b9fec37376253cf, 0x2cb13179d6e8a4ad],
    [0x8f9c2e51d12fe27f, 0x672ef02ca8495a5b, 0x8b087b5250d5e754, 0xdd2adfb2aa3b412],
    [0xbfb808a00f7ccbe1, 0xb9db85c744d3701, 0xe47a818596b6dcf4, 0xe44bb76a256740f],
    [0xe4d9b3796ce88a27, 0x12720f654d72d094, 0x5caea7b47ed35d97, 0x68a25d2e27da430],
    [0x61555ed0048c3554, 0xcd3ff196804a6cfe, 0x43723976c9168b1a, 0xa6624b2e2d35518],
    [0xa4907009a4957fe3, 0xaea96f309f417ee6, 0xbda628849823e656, 0x2830c3937da98493],
    [0x229aed44da0fcfcf, 0x5320e8285d33d524, 0xb064c18f2da82b6e, 0x1dbfab542ad1a8d1],
    [0x7f36df953e57b08b, 0x4f44850bf49820b3, 0xdacf198aaac17d18, 0x12f049967453bf43],
    [0x832f1830ced770f3, 0x20270aa3b0e3f63d, 0xd4d0431d7aeca0e3, 0x2ff0b4f794179f6c],
    [0xa3a3e0dc9cb9935d, 0xd9bbb0e68c75fcf8, 0x8007b65f351ee152, 0x287045969073b1ba],
    [0xf8b83f58c1086b4e, 0x9015e796d41a2150, 0x19a63ee69e605594, 0x88750a390f67a5b],
    [0x7d68d6a247ad6e3f, 0xb101ff4c50d5b7f9, 0xb675c9a56d3690d3, 0x2a1b684b9357c3b9],
    [0xdd11c0942051a5f6, 0xc47a292d33fb12b1, 0xbf6088068bc42d18, 0x924a953beb10fda],
    [0x82c2ef4b94f39740, 0x52af1e24d4d6857f, 0x98c62ea767270d3b, 0x5fb81ee2e1ac5e1],
    [0x55b34bd4d944e15a, 0xc6c5ec9ac0bbe35f, 0x8f79cacb2bc57502, 0x1afe1a783a2d68ce],
    [0xc1c0469ece8ab9b9, 0x3030cb2806560cce, 0xaf9f9a10ebd195f0, 0x128e66b9d177d588],
    [0x716f8d7d1b9eddbf, 0xf65279273447021b, 0x12f31a2b0b68d731, 0x2a89bbfccffb6473],
    [0xb979b761663404ed, 0x7bbf2a6f6dfeeac3, 0xfbe81b219d8dbec3, 0x2d2c1cc8346008ef],
    [0xbccaf53739093eb6, 0xbc3b3a6085565a90, 0x6d1edf6b2d7bc7d7, 0x2a10df4948ebb56a],
    [0x284ce4386673625d, 0x9178124713655833, 0xddeb5fe403d13c92, 0x29f0a91579b0418c],
    [0x7656de6df83db165, 0x6a5cabbd75b088d9, 0xe457ee0d225acb20, 0x2d60032c705ab2c8],
    [0x9da86e31778ea854, 0x5a7cc17759846479, 0x8f21d1e1cd953341, 0x1adc61e388954640],
    [0xa2a6b9db6b50b7ba, 0xac7efb5d87f9bd70, 0xa085dd996ea0c90a, 0x15d24ec281355e28],
    [0x5fca86539b272dc6, 0x64386ad905e24057, 0x1b9fec37376253cf, 0x2cb13179d6e8a4ad],
    [0x302c4f5b0553a38b, 0xa40b998bc74ffe11, 0x8dd9cfeb05bc7fcf, 0x1be40669c4305af0],
    [0xa02ff853f30c04fa, 0xd5b53bc39cec2c63, 0xb11e36805f9722b7, 0xde0e333621fcd0f],
    [0x2c26c2e757702d47, 0xeae1b0b7f90b8e56, 0x372e84ab5310be3b, 0x20f0930ce2a982f6],
    [0x81e195f30385f8dc, 0xa5984c422b6a994d, 0x877808a7459597fd, 0x299a425dac7d3a4c],
    [0x6cacc0530e8a33d2, 0x5c511bd6f802ee3a, 0x8b7507dde8971a22, 0x2f3b6c085ecf99a5],
    [0x7769ec907ff76c72, 0x5dece301dd371ff6, 0x77b4fb2c7dc937a2, 0x1dbfd1be6281a5c],
    [0xcfa111b82ef48f32, 0xd0e759d3357db223, 0x912bf7aabe85d74, 0x2057718828a71782],
    [0xbf684488df5d7767, 0x4cab4cf0b5c10975, 0x2ab3d5c000a6e16e, 0x2634e710d328db8],
    [0x7d66b4a43c1597d3, 0xc79f3721fa686f73, 0x2b601a7151ca176f, 0x1508d73e31efd2a0],
    [0x2f810b0ef5d87871, 0x397077d5e52947a9, 0x4ad42fd54b19104, 0xab1c757a2930fe7],
    [0x7dddc99c18daddf2, 0x6c1d2426a0fd73d, 0x73900635d09193df, 0x9da497dd64c5e32],
    [0xe51d7fa9cd9a6cab, 0xcc535817b1d3c077, 0xfbdb3bb1f1963bdc, 0x2381572e35bbe9d3],
    [0xd737b40f01da11ac, 0x3b7f26843d1e22e2, 0x9e2a67e4028810e2, 0x1435a49f928494a4],
    [0x8f2fc3ddb26f8e25, 0x4103e5a4bbe746ed, 0xab59180023dd3537, 0xa41cdb54589156a],
    [0xe8d774b7910a7cfc, 0x803e7059cd8e3314, 0x34a1eda09b63b86d, 0x14c484fdbe364919],
    [0xf5aef26aa5421749, 0x1586b84ef60705d4, 0xab43232ac86e8fab, 0x2a77a4002da2b4e2],
    [0x858bfd41e3b33a49, 0xbf0ebb888ceeb957, 0xbda0b094c007bec3, 0xf63b8eebf3c4535],
    [0x19b7526be3566d69, 0x10ea0acfd07e6842, 0x8669b1a53372f2f, 0x1277d3fe56190895],
    [0x9b95fced93648d2f, 0xcf7ed35f2f6886e7, 0x13be2f93566487ae, 0x242bed90744413a4],
    [0xbb73904f96cc7044, 0x5983ef7ff87af5bd, 0x69b4a2be1adef88, 0x2f421f7536d6fe02],
    [0x6041711a167e62a4, 0x5d70c93bc23557f, 0xf9ff37d9f8e111e0, 0xdcb8d37d53a5df0],
    [0x631a0edd273ecf8, 0x428bcef7fc95c21e, 0x7a896a6100b02cbb, 0x2b8d52018de42ae2],
    [0x5fca86539b272dc6, 0x64386ad905e24057, 0x1b9fec37376253cf, 0x2cb13179d6e8a4ad],
    [0x48a6bb7691f867c4, 0x38b1bdbbb51504bb, 0x161ec2fc00336719, 0x20ffc046123c9e7c],
    [0xd88b72e73e552b2d, 0x58d0292fdd5cba6a, 0x438ce162d27ada48, 0x37fff4149f4439e],
    [0xbf12e98bdc5cd339, 0x3b21158cf1116eb6, 0xe89f596053f7f2aa, 0x1de8c8e615fa608f],
    [0x1b7d83e291deea6e, 0x69c21db3e146faec, 0xe72f5f701c192158, 0xbe3251cdac6825f],
    [0xd2feb70cda04b273, 0x705937bbb2dd5af7, 0xfe6a1d01bf926214, 0x25cc68e0156fb406],
    [0xb176934d6ec92fc5, 0x44d906c5b77e21ca, 0xa20e395c2f5466ac, 0x1e6d41a49f875455],
    [0x3640808413273f31, 0x1220d62977a4d696, 0x3858bdce074a2f6, 0x2e67c91faaf0d613],
    [0x8d81f8ce3d74cb49, 0x393ec43ceec5d54b, 0x5774d38145639dc1, 0xd12fb42faa45cee],
    [0xcac156afc870df9c, 0x125531e4b83edaf6, 0x77a4e1d743720692, 0x23e70a4146133f0a],
    [0xb3984e0976f75cb6, 0xc6d65ce1cf6b5488, 0x52198613afc234f4, 0x2df6f710ec27c2d6],
    [0xc3371581b006b9d8, 0xeda0d40c16335c1d, 0xb51479ba07aebb50, 0x195ce59e69ed9141],
    [0x2ba3aa177decc92c, 0xd2a7e0b4c6180166, 0xff9610daf5bece6f, 0x210f8fd97f1707c4],
    [0xe75686606d12aa67, 0xb044798def28b435, 0xf74657d2d3bd43aa, 0x25f1b7680e11f44f],
    [0xe9aec26e298bbf88, 0xaf97cd4611e54b1c, 0xb4fd51256d3aa84d, 0xb2c75ac5a5fb6d2],
    [0xa4d15220da5b85e4, 0xb86d61c54ae55636, 0x1211740262c08710, 0x78398cda4731731],
    [0xd3a4a83a16fabd84, 0x97bdcaf849cfb535, 0xfc2e48e17a3426b5, 0x166af5abc6ac2210],
    [0xa45ab6a7720410d6, 0xf60f65fec69f6c53, 0xc964accb35e09bfa, 0x27194ca79ac4773e],
    [0x59c39fe0d25674ff, 0x2232da4419eee8d, 0x9a985c74732f27a4, 0x10c46d3c254d57f4],
    [0x33b7204c46b67b15, 0x27c80a3fd24ac82, 0xb969ef554ded7e95, 0x1621881967985ae3],
    [0x8e6dddd65e19f65d, 0xa1b6530fa187e070, 0xe2f4993da693ab68, 0x28e893994343597b],
    [0xd6bbac19d66a13ce, 0x9f34cd568be5b51f, 0x93cf99c2a4fa3952, 0x5b240574850357b],
    [0x55ac4709a88e6b58, 0xea97eabdcd9e0d26, 0xa4519e6d5fd37530, 0x2a3e91c0f5583245],
    [0x5fca86539b272dc6, 0x64386ad905e24057, 0x1b9fec37376253cf, 0x2cb13179d6e8a4ad],
    [0x22fee678aaafa67f, 0x41447af7640c0dca, 0x4a48a6971a1463c3, 0xbc9156ea781bb2f],
    [0x7d0b6e414b69ed68, 0x132c18ed4dc9fb1c, 0xbc236aa3d9967bba, 0x216532d67a620605],
    [0xfc31bf513fb116ed, 0xba4e85eee6a77637, 0x901d12772b1442f5, 0x22ddb91daa4a4545],
    [0xc91843e330cc797e, 0xc8731f42ee8c1d97, 0xf9c2b9cc42d9835a, 0x2683cdb3a1a277ae],
    [0xd27547bb1882a71e, 0xbea87e1027be1ccb, 0x27dd9605e7ae0438, 0x2be49377140f55de],
    [0x14495820f3f3cafb, 0x944979744108cd40, 0xa82e32970ae06cf7, 0x3aca5d3892e4e23],
    [0x86f01a7f82496d0e, 0xb1dea5c0c64eecf2, 0x4fd7f0b70805e871, 0x67c57ee42c925a],
    [0x8bda4537603370eb, 0x3a955dbb415961e5, 0x4b2e5428f6ed5673, 0xae7cee32928e8bb],
    [0x2e43ac4bc5a7a53b, 0x766b4178288e2989, 0xc325fce8361fee0, 0x270c6be726a88890],
    [0x1bd6b6a9fd89e0e, 0x23860891d4be8eae, 0x3a0218cca5215bcd, 0x2dc8ef31b5b489de],
    [0xa20b339a45cb3a1a, 0x81d928413f5aed74, 0xa49a09cb1e0db7d9, 0x19643edd20d71982],
];

/// Part 4 of the sparse partial-round rows for width 12, as little-endian limbs.
pub const S_DATA_4: [[u64; 4]; 256] = [
    [0x91b164da07230607, 0x56866dad54026553, 0xf964e2186efa8303, 0xcac86cfd70c7bd0],
    [0x5f22d3acbf089df3, 0x6a65784260e4f99d, 0x1dd651c8cc239f7d, 0x1e28a98366dc2b5a],
    [0xecd614bf510a6d15, 0x4350efd4f240a721, 0x9abf6427ee70e3f0, 0x65e579467ee3caf],
    [0x2e0a3d0ca7f54290, 0xd90999de6544dd01, 0xd09f1b361ee979a3, 0x625a0ed5662a51d],
    [0x2a322a02c2e63e9a, 0x76bd228af16cf74d, 0xf63e65745c1fc7da, 0x14ca160eca3dcf16],
    [0x9781b29dca6da8b5, 0x346475075b95bcf0, 0x609644c29b2ae1f7, 0x174e5a80b5654227],
    [0xdce9efc244d50300, 0xa13c034eee827f0b, 0x1b30f1e77887b7f4, 0x159f373903a0a9fa],
    [0xa4a56d697a65e136, 0x700731fee946b446, 0x18b8c68ed523a5f5, 0x1e6a451f0965435e],
    [0xaf9db15c0fffd2b0, 0xeb8a48c0d4b8ca78, 0x914c5d7951b45952, 0x292002d89878ccb5],
    [0x59b1073e37ace2ba, 0xad3da11b01690ed3, 0xc038b258a850a754, 0xcc6c8b2dc526673],
    [0x72727bd6f257059a, 0xf278f9020001f81, 0xfb865ff2fda5da23, 0x2abfd63285e9ac80],
    [0x5fca86539b272dc6, 0x64386ad905e24057, 0x1b9fec37376253cf, 0x2cb13179d6e8a4ad],
    [0x9f540c2368db0dd3, 0xa63fa8d58d57e4cd, 0x33809dfce1d7fe5b, 0x2854b5984bd6b9e7],
    [0x1e630ea88ae41e, 0x71c9fe0d8d64f0b8, 0x7548e383c7f525f4, 0x2e88865414f2b455],
    [0x268afaebdda79a0e, 0xc4e1b4c483a16aeb, 0x8398eca3719dd949, 0x23790eec3f5a240f],
    [0x1fb8e3ee948e86ee, 0x90df3b822dbbaad, 0x6c75b022b77b84d, 0x2fcc8669dfcf04fa],
    [0x8334c03a29178838, 0x803fa922ccf8ad51, 0x37a1f204eac29045, 0x67fef650a457110],
    [0x41c03c288c0d998d, 0xd9dec620820ae91d, 0xaaf83f0c410c0e56, 0x248f8c46bb3f0bd3],
    [0xbe2114f4a8b13fa0, 0xcb262b1fe4ccdb71, 0xa85061b171d87480, 0xd3b6a0004a85b63],
    [0x561a7a835fb9d567, 0x8147f0661f53929f, 0x669bc32838db4c4, 0x7b065a9ccab6b97],
    [0xe0648a0c7c0a7894, 0xeee55cdeea65044d, 0x77df07056afc1bf5, 0xe02b6d12d483626],
    [0x5f7ab4247252b84e, 0x2f5563f4d4a13885, 0xfe914e4b88a71e3, 0x2fab90c9d2677201],
    [0xf8b85d4bcd313c5d, 0x7817384af807ba6e, 0x6cd94407dc6ed84e, 0x1989c2e54741cdcb],
    [0xb0aa180b44df1418, 0x7071c34e59569f2f, 0x3f19d84b25347760, 0x28de889080866bde],
    [0xa7341eed26a322e4, 0xbd3ab0419c39b094, 0x8d034036efba0011, 0x2804b79f457cbb80],
    [0xf042917e479bfa80, 0x57cefac5d3911ec1, 0x86b4ed5ac52da709, 0x24eb9b802012e113],
    [0x50021fbc631b80c9, 0x58cc0fb7dd93874d, 0xb19b256acbacc96f, 0x1666ca210112c32b],
    [0xb8024ca43d99cd34, 0x845bd214d4073f52, 0xbc623c6e4acadc25, 0x20799de358137dbf],
    [0xc5da11ef1117e052, 0xbd1087ec8fb25d08, 0x8f44fe8951d669c8, 0x1bc10c44525f82f9],
    [0x186eee425e18cbd8, 0x4449172217cfcf67, 0x8d4811ce0d6b4826, 0x1d8dd037d73544d7],
    [0xd85cc5d4b82bc08, 0x194aab068f915bfe, 0xc183d5f94582c61f, 0x2fbb2fcd6bbca136],
    [0x6a74c487030474e2, 0xcf50d73d18e1973e, 0x9655d80bf2daa1d2, 0x1eeaaa5f7e1834a1],
    [0x719f0b9a627f56fe, 0xd7aa35a727a60780, 0x66bfc2773ce8f36d, 0x1f7eb06d961fede0],
    [0x2e9295b45390f46f, 0xb9d7c3f20950b324, 0xbb169d70e070e73a, 0x2981fa5e6672d977],
    [0x5fca86539b272dc6, 0x64386ad905e24057, 0x1b9fec37376253cf, 0x2cb13179d6e8a4ad],
    [0x23b166f942920a86, 0x3ff39d248d960275, 0x3190d1e711194bc0, 0x28776c75f54ae00f],
    [0xb692578e14b80328, 0x849b2db78f8fd707, 0x7012f0e7bcc36899, 0xa4ab73336b83395],
    [0xe3902b919d3e143b, 0x6d857d8919a97e07, 0x541833d68c75fe50, 0x21ebae99beab3aff],
    [0xd0c12742bbd28bd7, 0x896feeabf39b966, 0xe128f45ba368cfb2, 0x3029aa9bc55b8d1a],
    [0x628f45d03eba49de, 0xb277387b48afa946, 0x9c8d29d5336d1a53, 0x239128973757a7e],
    [0x7f1d751e594479d6, 0x27b5cbb69966a76d, 0xcd5d8ceb3a3c0782, 0x10a0435f8e32fcd6],
    [0x45d1d07e641ab29a, 0x63fe11fc3504478e, 0x9cb160a6ddf47a07, 0x2f5d49c2ab9c95d0],
    [0x198b320ae649556c, 0x2307f5745522e265, 0xd65f61e51a4f7d56, 0x1181af9db194b4bd],
    [0x7ee83868ac39a621, 0xb9660b0e3ac54e2e, 0x9d56c76317180d89, 0x1b9d2c4a0df2bc6d],
    [0xd579032000b8570, 0xcd640b1eeb0dc7dc, 0xef65f072a108f1e6, 0x1f5c2501487912b1],
    [0xcaa4828e67bfee02, 0x670c5fca43b5b067, 0xabd7b79bff8d0073, 0x72c3f6dc95aebfe],
    [0x72315e29eaaf3d1e, 0x34f49ca25303ae98, 0xfdbbba3067e95d01, 0x2328cc21742ae15e],
    [0x9944c0a96d703b20, 0x75a0de251cd8bd4b, 0x6838af4f2318ef75, 0x1a2d67aba6dedc8f],
    [0x7ccff5204c506876, 0xa2055dc10da29f7, 0xf36dbd475ae928d1, 0x2eaf6ca068bbcffd],
    [0xed16489783187d5a, 0x1e6a4bbf4bf27711, 0xa9c86b38db002705, 0x233188598d95df9e],
    [0x4dfa38a0a0cbde51, 0x3ce7763ea732b3f6, 0x51fe8bad7cb75697, 0x7b462ddad87175e],
    [0x21feaac3a8da738c, 0xa21db0742da1e40, 0x16a460cd30d0c3d2, 0x14bbd08ca0525627],
    [0xd0f4181a87e0a53a, 0x267e296fc291ed54, 0x45d4ee8beb4e4f01, 0x17bab12d3266540f],
    [0x48a2f62d56cc9d40, 0x2da391914f492e7c, 0x88743436b706dfe8, 0x2a168a263170030f],
    [0x6cfcf3d1bb16571d, 0xc7bba7541dac277c, 0xd3d309380bcdd2d2, 0x233927efe170a047],
    [0x551d123a1de0548, 0x3e8633eb6a3ce7a0, 0x9886d8ad3f571f8f, 0x10b9e5f24f1f4ef8],
    [0x249ef4dab08c56d8, 0x66b878f7bf6db0a1, 0xa90c9b9fa57bbcd7, 0x2767b7f7b872770d],
    [0x5fca86539b272dc6, 0x64386ad905e24057, 0x1b9fec37376253cf, 0x2cb13179d6e8a4ad],
    [0x731b6f39e9824eb5, 0x88357510e6424702, 0x58da049aadb3f84b, 0xded85a7aa576785],
    [0xe5ffdd513979fe8d, 0xfb1b78ad448612d5, 0xa7eff0286ea82797, 0x66bffbba5403655],
    [0xf3bdbca0e81b1d28, 0xb9ea157f592c1d54, 0x6ad1c62746a446b9, 0x2be4485121346173],
    [0x2cabbdc0dafd01a9, 0x937896c3eb153e71, 0x136cd825f10e41da, 0x13c7aff223c351a0],
    [0x4af6987d4b0a2ca1, 0x9d63cd8f070b793f, 0x32d784c659938de1, 0x1e1295fede0148bb],
    [0xc3193331f15ec2ca, 0xa9a79214ff667756, 0x8f3bfb3d66c3281d, 0x108e731bd672ffd5],
    [0xa372fbbd29fec908, 0x3c05aa2d7f8c8afa, 0xb9c88d871ea96907, 0x28ee2087caa404a7],
    [0xc2d9f21836bca492, 0x35f1781bc7d3fab5, 0x16e6bc3ca6c8f454, 0x1929e70c3df9677a],
    [0xb5c0dc2839391a9b, 0xe1e4b62ed771ef0, 0x21bf2b7b1482557b, 0xb328f15c14da876],
    [0xfb988f5257ea48cb, 0x9ae33933c1f673d8, 0xf78d41ac3ba4c82e, 0x2463924e854fc278],
    [0xd1a7e7120a0bde78, 0xb40b410bbba02146, 0xb16f20b5e1dd4e31, 0x206b2c50fbd93e4a],
    [0xb74dc75f17a2d582, 0x4c49f7f59e084741, 0xb725c9db0aeaf694, 0x22a8169f4dc83f66],
    [0x1d69ccac916cf9cd, 0x3c5b40309f89f2ee, 0x8c91b01285e728d8, 0x131beaf6c38d2a14],
    [0x8b61f7629f38708e, 0x2eb16165ae943eba, 0xd5441b8e0e91058e, 0x1f2f76bc23a46c9e],
    [0x8753c62384223d64, 0x1365ae03a600af93, 0x41005b7fc8747fc6, 0x350963d2c0aa849],
    [0x3164d6d206298ce3, 0x4434997e03bca2ac, 0xf3cef4ff57b3e3b5, 0x1f43a719acb173ed],
    [0x431271981c9c8004, 0xf2004109e4d73abe, 0x63d96804dcba6db4, 0x2ff2c8be19643735],
    [0xa597b8101cf3317, 0xe1f5be1343ff89d9, 0x258d9f829ce7abbd, 0xc8aa745ddf7f419],
    [0xdce7da7a0d552002, 0x233826c1641ccad7, 0x7b81dc89586a6afc, 0x8ec029d60cddffc],
    [0xa822b683857685e1, 0xa32e4da7012c94df, 0xee10a405ba1959fb, 0xaf6f27d2211b12a],
    [0xc6482193ca3b318c, 0x5e7359c3be70471b, 0xd7780397d728177, 0x23cc9f4ca99d30fe],
    [0xa7d2d0bf47c2e7f3, 0xf8cdfb524acbbfea, 0x23cddebbab25e128, 0x5de7e88f631488d],
    [0x5fca86539b272dc6, 0x64386ad905e24057, 0x1b9fec37376253cf, 0x2cb13179d6e8a4ad],
    [0x11a845251204cdf9, 0x6037c961414b9705, 0xbccc266cd3b7cfe8, 0x2ef97e821dcfca90],
    [0x85a60f97c00c0c77, 0x107d8f4f5406e656, 0x75a4d569561ce744, 0x1e74c0e015eedebe],
    [0x2fe9acfc560d3a4a, 0x88e1dea2f70bb435, 0xcbf8760fcbd1bfb9, 0xb9e7e57a6287f13],
    [0x2d5aca46b61ebdb4, 0x41af5a0a10b4ed8f, 0x54a27a8804d960d8, 0x1daceec3e24e703f],
    [0x1199e81f03ed1b12, 0x9787408a6cc31c07, 0x29e4e915a30bcbc7, 0x14add4559507a7ff],
    [0x81c958a8be7c06d7, 0x1934c101d36a2abb, 0x747a25b176edcd7c, 0x214af846405e33b9],
    [0xc4e345b6e6a8e3d1, 0xe32b769414445444, 0x2f1ffa5b262df316, 0x8f62c1e4c1e9fb6],
    [0x6cab0ab530342c59, 0x2e3d401483efa994, 0x3329b1e3d6da6ac7, 0x281cfbcfd9fe3fba],
    [0x474f34056c4b81b8, 0xcf084aff28fbea40, 0xac793f21dd5cf84, 0xc4930b204d10bf3],
    [0xdad5a3d040907c65, 0x8c78224d99d13d46, 0xed37f81df652af8, 0x75717917a0d4e21],
    [0xccdc9d95580dd0fa, 0x9b5b3b38897ffea9, 0xe1de655b0f816e85, 0x10236e639476d565],
    [0x89a610675f2b9bdf, 0xcb214c088e40b705, 0x83a2c8a155e09645, 0x16535568d792d430],
    [0xe68de856334edd78, 0xd80dc2a652b50a23, 0x7cf4b7ca05f0bb1d, 0x209b82d2cbe5617f],
    [0x9197ebb12ae5dcb5, 0x45f96e2ad41bf953, 0x692fe6018d480df, 0x10d0843c37e9ffcc],
    [0x364566acf5ff2d1b, 0xffcba2f681cb27a6, 0xb963b039c85cb1a3, 0x175f7935e1d6d289],
    [0x5a72aec17a3ba09e, 0xe9bd76fc838bbb86, 0x34733142a23a76a4, 0x12f9631f7d9cba5b],
    [0x6e98518f7bcbcdf6, 0xc9998735a59e2790, 0x9c5240425b509144, 0xa27aaf6ad1953f4],
    [0xb7b896faf618118, 0x9cec3387338d45fb, 0xaeedccf45ba3a172, 0x339c108d3ddd07c],
    [0x9f0633181ed21da1, 0x9e713ec618365f16, 0x8a7f18549edb2dec, 0x1c7eb764b1b6372c],
    [0xaef3530fe3766440, 0xab4d3b5e7f4eed7f, 0x5cd21b1c8889728a, 0x2d06b5cc446ac871],
    [0x9a221fc0df504b0b, 0x500eff3d0962ef60, 0x8b20073ba06950f, 0x183445f90535b07b],
    [0xadc6e7d10592445b, 0x154edc633843570, 0xeab718ee19bcd04d, 0xe05fc0656468b85],
    [0x5fca86539b272dc6, 0x64386ad905e24057, 0x1b9fec37376253cf, 0x2cb13179d6e8a4ad],
    [0x645fbd0ff97d9d66, 0x5b303a0989725381, 0xbb54a701966a9cc4, 0x6941082d94398ee],
    [0x3924ab8c6701f186, 0xa334e8eeb307a03e, 0x2502f8e40f9277e1, 0x22ea9d2260653011],
    [0xda53f3669651df33, 0x7af8c1edfc8ddefc, 0x2872fcd65b18b3f2, 0x16ce67e884bfd178],
    [0x9767d8bfd52c63a9, 0x81e336c553fdd90f, 0xe0902c650b9749b4, 0x11fc35853f485f0a],
    [0xf1c2066e8758dde0, 0x31938dfb1531863e, 0x33b23a4dd4deeb7b, 0xf04c0f3525c56f5],
    [0xfb6938ace207f363, 0xad0928136db06090, 0x235e7912fed8b7cc, 0x2e15668ff3beca65],
    [0x8fc32e732484bf7f, 0x4b10be1db252cf03, 0x924cd2973e1e247, 0x2fafbe916d3af6fd],
    [0x155c12322e34a0be, 0xf7292780e294e47b, 0x39c8be56fa468598, 0x9749b2bb5e66688],
    [0x5470cfbf2c35e3dd, 0xb4c0ba29c37685, 0x8b81dcb405aaeb30, 0xc81643458c5af36],
    [0x6406a248252d0f78, 0x646015842c667845, 0xbe2c529c63f07d4a, 0x2f7745d6f815dd3c],
    [0x61da7eae6e5bffcd, 0xcfdfbe8fce0713c0, 0xcfe0ccde660cf756, 0x2540261ae5b2a3be],
    [0xf5b2e680e80ac911, 0x8d9453e7cba136d9, 0x4eaf413f798f4f0e, 0x1af533c9109087f1],
    [0xd328b37b9f982352, 0xdcb23d541dd6a1f5, 0x6f2966af42504d25, 0x27115fa52689f8b8],
    [0xd4fbdc9ef1130654, 0xfa506ec8a905051c, 0x74b4169a61a510d4, 0x1f955bcb282c2c0e],
    [0x5d56622a585ef6b6, 0x294e574b8a0c697c, 0xdd2992ef921aa7d9, 0xf13fc20a68d983a],
    [0x7756b7e96ebd2768, 0xa55309bc46a4fb1d, 0xd800036d9110caa9, 0xe480c1fd8e61a5e],
    [0x1bbd781d3fb5a679, 0x120ff1e0d81cb954, 0x78e18028768a0a37, 0x208a8b0cabc7890d],
    [0x6738c57026eac391, 0xa1b1753a4a59a160, 0x44c3dad0e29d158f, 0xa4bd40c175726b6],
    [0xa82c08935a950dfb, 0x1c93a172de0b231d, 0xae2c58816724777f, 0x859bd87fb95504f],
    [0xd10651b35483ccc4, 0xd9f4a16a2be71600, 0xb54f3d0ee208d13b, 0x1572f4f0f2f44e7a],
    [0xd84fa16da9b8adad, 0x1b0977c87a724078, 0xa6463dc3dd4e29be, 0x2595802b887ba581],
    [0xa3deebdccd483987, 0x96a79b2fb8db90d5, 0x4591e06a61e7a1d6, 0x28290084f5f35de7],
    [0x5fca86539b272dc6, 0x64386ad905e24057, 0x1b9fec37376253cf, 0x2cb13179d6e8a4ad],
    [0xe02d0d5d99412e85, 0xffa4469bbc1d2ece, 0xe05223e75e80040c, 0xdd61a5489d4bb7b],
    [0xaec7d538736ae17e, 0xd83f5abea58367a3, 0x4ace66a17d3171c6, 0x6c52f4f90d71374],
    [0x591bb1f23a5e8a14, 0x299b41cc74812489, 0x5222618bc77d4c3d, 0x284ce8cd77c9caeb],
    [0x933a1a54efdcf1aa, 0x6f018232a1cae8c6, 0xf961f69baa9b00c5, 0x1e914c2446466051],
    [0x3a338173c0fc392, 0x666882640968d63c, 0x1aa9647a5b81bc92, 0x1f9f1d5d61c2283],
    [0xcba88b871865f06a, 0x3f68960303ac1368, 0x1dea769021a08fb8, 0x1381629462428cc2],
    [0x25a70c8f7764e1e9, 0x8271ebab08e81ed1, 0x3d7ebe1a1887c7f, 0xb272b9552f9201b],
    [0x12a6ff64e45356a6, 0xfbfa277b9373af2d, 0xe6e2e0ea93dc105a, 0x7b4d12c7e949d4e],
    [0x44ab141a86e21ac8, 0xe95daf2c4c2d910c, 0xd42014d6e8049acb, 0x1b38520ba1c4589f],
    [0xcb9567a868e41952, 0x53793009ec8ab285, 0x3edb9173790599a6, 0x1f9ad110bf1bbcba],
    [0x853584304f3bb0ed, 0x9178d450803edf6e, 0x7e621eae08d13090, 0x2e5b599ea8d25fc9],
    [0x67257d6c069fa18f, 0xf7c1b3e1af764a84, 0x644224cbc078e921, 0x1b15f498744dd45c],
    [0xd1d8dc66c465f4a4, 0x856cbfee94146fb0, 0x437c0a48f205caa, 0x1d4cec7d69971962],
    [0xa1697429a9bb9185, 0x810103fa3057903a, 0x2191c8b9392abd96, 0x173543ba0e2d1b25],
    [0x3fcf6f91da0127cb, 0x6ecc5ef876640433, 0xea22b6d61bbba61e, 0x1b9df3514d0b3177],
    [0xe253b34980873ec8, 0x9faee563278a894c, 0x8ab8f22f9504c9db, 0x2befa98a6a5c8388],
    [0xaedb0845baa64d77, 0x843827b02f5e691a, 0x171deb6a0b95d08b, 0x295db1d483a66191],
    [0x3c1e2b4438d0e189, 0x3e377304d9d262bc, 0x730d87e50ff3b815, 0x16fce7e0da0af20b],
    [0x7cff9947e2f2cbd4, 0x987bc8d102a2ca0a, 0x7773a099e512b117, 0x1660401c207ebb4],
    [0x66a5b1acbbdc1db, 0x8fb23ef1f598ccc6, 0x607de216e544e963, 0x1bde105e9ebf2795],
    [0x8919ea64188d4a4c, 0x7881a3653168b1da, 0x42f6cabc2aff4ba6, 0x5ff2966cc2aeebb],
    [0x7cb987366b7d8b50, 0xf8114625785e4f8e, 0x76bc7a389c725303, 0x1de18595180cdece],
    [0x5fca86539b272dc6, 0x64386ad905e24057, 0x1b9fec37376253cf, 0x2cb13179d6e8a4ad],
    [0x481e6be641c4feb1, 0x4e5de2cbea41a357, 0x532157457ca75148, 0xb75306c52e9faa2],
    [0x4eadf389a77d5dcf, 0x3a41ab7a671608e0, 0xb0595c294ad58c4c, 0x4c7855c4b3a6e6d],
    [0xf93191bb9797a3c8, 0xcc93819ab599c3bd, 0x7f427e76dee78cb0, 0x2596ff7a33d02606],
    [0x4af2479f55225ade, 0xb3269d7545ddb108, 0xaee032268c89e865, 0x8aa0063dc5903d4],
    [0x86eaab22f93708e, 0xa56c01e3df7a608d, 0x258983882563f449, 0x1548a8bb67459d26],
    [0x46e2dfe1f43e8cc9, 0x89ccf1c0275c859, 0x9eafa9befefd32eb, 0xd5ce47fb827e13d],
    [0xfd33a56647a51999, 0x1b021924dfab1be7, 0xaf1f7bcbdcaffdf5, 0x1b5f4423b16a0cb4],
    [0xc1e5a6f7622a7c00, 0xdf3139814c12fdad, 0x8c9633cc71fb2d97, 0x18d535b7160e8996],
    [0x393f98db43c24fc7, 0xda7d6b0f44b701e8, 0xf4c2808707201602, 0x16a0d6cd63bb6b5f],
    [0x6292672c8d5b490e, 0xcf50d24b18ed216c, 0x8eaf31cf01f9f8d2, 0x232c12d6ce6ac0ab],
    [0xc4d56c092d8ba385, 0xc0b60471fca8e907, 0xf14a9cef49cef5a5, 0x27fb96c5c58c40aa],
    [0xdb55fb961cf97738, 0x69cbb0436139ebe0, 0x5e8e20714f3c3017, 0x21ad1bddeb629621],
    [0x2398533783343e63, 0x4ae98a876c93675b, 0xb8ac30c9e6281706, 0x19b16870babade7],
    [0x93be6a4e9faf2d00, 0x15c8a3bf9e4a0d6f, 0xc963d013271e702, 0x16fdcef57ba6577e],
    [0xfc1470b3005f546e, 0x8af57c823098c256, 0xf92677aa65d53ff2, 0x830ce701a93a0d7],
    [0xde35b95fe58ca05f, 0x3fb6a8feaf9d4e9b, 0xcbb0f762a54c5838, 0x2295d7c8b14f2ad4],
    [0x9b52cb5a2a1f3dbf, 0x3f41a8620de6e4dc, 0x12b238e8f72d9349, 0x9b1e43bce3e52d1],
    [0xdee3f9fafca2e4a2, 0x33b82361d8cb931d, 0x24d1bdcb8fe8adb, 0x87c2f1fe382f705],
    [0x50b32d07a17a10a6, 0xb3b4c7e7659422e, 0x2c091a68034489d3, 0xb17d752334a51d0],
    [0x8fafddc3f2543e88, 0xdf8f058f696da3bd, 0x428758e1c74bdbce, 0x18d4520269ba2bb7],
    [0xd50e426cafe5688, 0x6ef28d76640e6811, 0x7bfdcaf6b1e724b2, 0x6d0e15f1f1c2b03],
    [0xde984fa296d8d9f3, 0xb79d1de519f6aed8, 0x8a6df93def58d498, 0x29b7bc033acd92ae],
    [0x5fca86539b272dc6, 0x64386ad905e24057, 0x1b9fec37376253cf, 0x2cb13179d6e8a4ad],
    [0xf4123a4f2e7a13ed, 0x41cc8f45799dd48a, 0x732b1f85ea4ccac1, 0x186d603bc6d93626],
    [0xd9ec30604445abc5, 0xe11b4edc69e99bef, 0xed9a5809c50dd0bf, 0x1e9fb44d51ec4915],
    [0xe1ab500d677cf85, 0xa642918a465fa1a5, 0xbd7be4e0b9ee6c66, 0xb48f62bf60c1124],
    [0xc891c0f60e68abe3, 0x2b1d419241b047d, 0xdc6333cbc14ae742, 0x247318154581bff6],
    [0x5742d987b0e6c269, 0x739f25f298e55622, 0x4bce5543f84e42bc, 0xb26cbe5ceca8993],
    [0x30401b7890278a30, 0xac51bc8f84c4261, 0x92a69f3f0c255963, 0xc60ad9c62b74abf],
    [0xc91178d594560e44, 0x3b56f101d7be6bb7, 0xae2769f6a9b7aa5e, 0x1b0470a9e3485e6c],
    [0x45fcce72e0c93e2f, 0x11aaa117eb023589, 0x263a465260aa8390, 0x264d68f9e933b7f8],
    [0xaf5b8de2543517d6, 0x89e3145d5346511e, 0xdf7229fa233e6106, 0xd93de8429c70415],
    [0x903dfccf66b4403e, 0x658a4d1ae47ad653, 0x45f507ad4a9c8534, 0x24a99012c1ed7a12],
    [0x971f167c3a82ccb6, 0x32191a765a51a276, 0x693da809691737e8, 0x7da99b57c2bfc56],
    [0x21204eb1035a8a1e, 0xe16fc313d954baa2, 0xc1f1596831afbd4b, 0x1cea1b13af00acb6],
    [0xaab5253f98bb4762, 0x88c0dff13bb0a571, 0x6cd3744661919b2a, 0x123bfb0630e8aaf5],
    [0x50764daa4d0c33d4, 0x1470c1f81d33bc2d, 0x2eb9d982d46f798, 0x1af132231252bfc6],
    [0xabc4307d5d13a0e0, 0xb8dabe365af1de7e, 0x12363efeec5db5c4, 0x2dba0bc37236d5b6],
    [0x42a9d691dfa2b626, 0x1485f342c9d17960, 0xb69170b26e5a6492, 0x221ca65c9a1d3b45],
    [0x66b7ef50e5f2af6f, 0xe4186becb7659677, 0x29d57e1291021d7f, 0x497f939c6b45ccc],
    [0x52f1f18100c4c4cf, 0x19add748d4432aaf, 0xf5a6985deb0ea6c1, 0x20b8117d0bc5b325],
    [0xbc0e35fdce08e666, 0x37b38cd5f7a44284, 0x4e3d45e1044b4e02, 0x1fa73e129c14d72a],
    [0xa43219d401615c11, 0x521491a40698ea48, 0x6039e60a1d522f8d, 0x19f24a1c686e20b0],
    [0x420bec4a0a89655e, 0x44fadd5bde90f169, 0x3e28dfb8072f349b, 0x21f4738cd989617c],
    [0x5fe413ea7faef3a2, 0xdd3cf1d9d2d088b, 0x9bc6015328bec36f, 0x14d1cea4227f6d36],
    [0x5fca86539b272dc6, 0x64386ad905e24057, 0x1b9fec37376253cf, 0x2cb13179d6e8a4ad],
    [0x2e9a6f062e0539b7, 0xd262c6bf7b880a4a, 0x575a0ed92fc815c4, 0x985ccba651570f4],
    [0x737bd5e0b040d387, 0xc182855c938b09f5, 0x6f035319fa817e42, 0x21370081514ca349],
    [0x65617502d21538d4, 0x3bb60f2b9679a3df, 0xe5213005f019a387, 0x28d51de160b191df],
    [0x609f6a6285a2bd48, 0xdc225c7538266e90, 0xaa4b0c8b715f0831, 0x1ccdc75e435b8dee],
    [0x1fbdfd5810408c6b, 0xd511cd100f9ee41a, 0x617875a6146dc9c8, 0x15ed8a603516e1f5],
    [0x148b7bd8137373a4, 0xc6f367980d5afe4e, 0xcd15e2c0d54532f2, 0x1cc5e7a4d7ecbf4b],
    [0x35f6c58d6ff54ecf, 0x3663e95822eba74b, 0xbd924ff42f14a4f6, 0x2289679ed75bf564],
    [0x163b51cd555503a, 0x928dbef92ee9be0c, 0xfb55e7df9630e357, 0x28a844dce08ee0b8],
    [0x897b2ca89bdec56d, 0xbaa5380e4f4a06ef, 0x359a4c27c2cd0d55, 0x2521735424459701],
    [0x87258f280a24c36c, 0xd077cdc0f5efc2b3, 0x70409cdb1a66ab70, 0x225abd618e116896],
    [0x893fc5576120b65, 0x70dbb5f00343cbb2, 0x79ac5fc1d8a13d16, 0x4d7a23e3eb7a466],
    [0x1f5cc40775185157, 0x14234f58ad5ca5a4, 0x6ef74e4dea3147b0, 0x166f7e2b14c9b177],
    [0xeafdb89d3e8d4ee6, 0x2b5b7ae4daced230, 0x132a93d6dfecbe50, 0x12681987c944d15c],
    [0xa6081641e7ab58e3, 0xb3a4f00ef388d98a, 0xddba30060b4b443, 0xaa7558052b83cea],
    [0xbd016162c5d71cb0, 0x7aa4ae8c2f372952, 0xc6bc84f11b3c6319, 0x2c817b2fd2e5ec32],
    [0x6ff81041dcf354a5, 0xd77cf18b3decc7f6, 0x34049df13f2bd013, 0x11962159a017e253],
    [0xf50a44eee9e57b9, 0x4b2e6e465afd9033, 0x511c8624795f5447, 0x1d63c9e5c4b133a0],
    [0xb1aa0792a16141e2, 0xac5c5b47a199dbd7, 0xb8c16734a6f9c726, 0x2d82e29c044d1096],
    [0x7748f630d524af, 0xb78b48fad53f25fa, 0x3110917b0ac82983, 0x1b28d232a1969354],
    [0xf9325aeb85e2e22a, 0xfb0ae91010332de8, 0x1eeee53ee9112b75, 0x147ba0f7c38d875d],
    [0x340546abe205a7a1, 0x43c6df180a74fd76, 0xc12491a10b7a031a, 0x1ccf269bf476fecb],
    [0x666c46e1696f27a, 0xa4397e8df24abef, 0x74fd49efbb61e873, 0xfe407a56ba91ac1],
    [0x5fca86539b272dc6, 0x64386ad905e24057, 0x1b9fec37376253cf, 0x2cb13179d6e8a4ad],
    [0x2bf0fc296793b2b2, 0xf23259c71bb63dbe, 0x77a9f6c04b7430e1, 0x53ab7883a6bb379],
    [0xd7c9a004e8a8326c, 0x400f92d69d4ffa60, 0xe5dc314d57432975, 0xe791a7097b6e2e],
    [0x1d9e400cd30e005a, 0x3944046be065d4cf, 0x9d8c79f8869dd7e5, 0x4074d5f47b8529c],
    [0xab02b9f593b55744, 0x7f1c064c17a5588c, 0xb7b74ce948c42b1a, 0x105b47899898ce40],
    [0xf17a1cb71b8dc451, 0xfa0f4c10fc363137, 0xd7d4c5dd03dd3b6, 0x2514168dc134c955],
    [0xcea91a61ada0548f, 0x946de687cbb08aa8, 0x91184e77234542f4, 0xaf1d61be25cc6a1],
    [0x25da4d28af0c053, 0xfb28b9edc96025a7, 0xebdc842200ecaa4f, 0x1dd5bea55d34b381],
    [0xdeddc3da451f739f, 0x7719f5c2f8977865, 0x8afc1d5aeca64851, 0x1c39e9f8a25300f8],
    [0x3fc1092121474942, 0x64b0bce9705b91f8, 0x45b573ffe296c0cf, 0x3adf474709643e],
    [0xed60f8e6343c44ef, 0x62c6a54ea74dd82d, 0x6095e3e2e7acdf07, 0x2e2bd30c5a414e19],
    [0x735ea2e9c828e876, 0xdb7ac6aecda56492, 0xbed481418cbf2bc4, 0x2b53a13cc27545ad],
    [0xfbd3502b14cffc96, 0x9588660c9ab42474, 0x70a559f222fa2b6e, 0xd90f7595963d4c4],
    [0x9ec0b8395d2fcedb, 0xefac9d3a4b76768e, 0x8876b22bee8e28a, 0x263b73e3488bf2c2],
    [0x1e90f1163e93e477, 0x8c6e9f8e343ceaeb, 0x146a0630de8e858, 0x2a0dbef5edad1d5b],
    [0xcef62ea4944b1f78, 0x8301c91bdb294072, 0xdd4cabafbb9232a9, 0x18c06136a1e2c542],
    [0x3a568533547d323e, 0xcc63179ee35cb7e7, 0x816d894c62c6c773, 0x1652c71884fab33b],
    [0x170ef22189f5ab17, 0x74a9e919a9d3451e, 0xb6c1e90825ecacb4, 0x24c895fe21900e49],
    [0x46739a99a3ebe343, 0x1a0489477b2963ea, 0xec47fd44bc51d94d, 0xdf80fd4f963e8f],
    [0xe261e17e82567266, 0xa1ffb47ba0ca25e4, 0x309c79e90e0c1225, 0x1f03fdd86ee29e48],
    [0x4ef9cb63b72b73ad, 0x666d1633a7f95ad9, 0x12d9493bd7f75d54, 0x27ce3b368152a249],
    [0xdb6a8460cd9a4d04, 0xae1d288b85e9862f, 0xbb52fde581cbbbd7, 0x75d95500a93ba86],
    [0x53a27e60763bff4f, 0xaef636e4dc1aafb9, 0xdb0513344a736a5f, 0x2987891ed79215bf],
    [0x5fca86539b272dc6, 0x64386ad905e24057, 0x1b9fec37376253cf, 0x2cb13179d6e8a4ad],
    [0x7e7665f59c0f411a, 0x38040c01d6d4091, 0xab8630b29d271f1c, 0x2fcf686a3213ddf2],
    [0x685620821638be7a, 0x59b0345f3360be71, 0xe660600c1c269645, 0x261ea88ea2119c8e],
    [0x71573497967d8a02, 0x328b8732b173b201, 0xc583c247067d0fe0, 0xfe04a27aa636785],
    [0x221a68f5f4fe3232, 0xf13bd4630fb6b58f, 0x91ec27db0a7d5284, 0x2cf0912ac2237a50],
    [0x57ed902957facf9c, 0x3f36ce79412db0df, 0x88e73eccc715d704, 0x3041569dd972c73b],
    [0x6f04505abb878b3c, 0x38366bd9d17c701, 0xc07365f58f63ed64, 0x2a4f9b5c59b09834],
    [0xbfb7b85e98371718, 0x29d2eb02537696ae, 0x51595c0e4151406c, 0x1fc17fccc2b1f4d0],
    [0x276eedf4e0cc779c, 0x7f07e7834b9433e0, 0x10d53818fb1a72c4, 0x16fc002eaeadbc6],
    [0x92a20d3680e6d9dc, 0x1da22100cea86288, 0x40d4ad67a40328a5, 0x2fe0f6bc3242cdc9],
    [0xe8d8deb97d34ba44, 0x96064fc77dda460f, 0x5ea885da57662460, 0x43423406385c4db],
    [0x355924242d050e02, 0xa0057e62664ddfd9, 0xa73ff9baf6db0a47, 0x90ee6fd231f2b7f],
    [0x45ac72001c6d445, 0xd7c0f6ad0fe7a752, 0xadfadc4dda1e3422, 0x3005c2f73ab58a8c],
    [0xafa3bbe0747c1ba9, 0xa55d7451df7f51a6, 0xed8d7e3c7bbe5925, 0xef228d7667c66fa],
    [0x88a2e4dfac810f01, 0xf21f8a31b4c11246, 0xd7842db94ad2ef24, 0x2161f7618113ba7],
];

/// Part 5 of the sparse partial-round rows for width 12, as little-endian limbs.
pub const S_DATA_5: [[u64; 4]; 100] = [
    [0x80cf62628686938e, 0x68b2e031ddb9697d, 0x7ba11d93866cb3c2, 0x20f085669bf228d],
    [0x25faae3947171bc7, 0x23edf025a9933d0b, 0x3c9cdd16775654, 0x294372804d6e2359],
    [0xcd021c4807ac901b, 0x15ef5a4e805505e2, 0x4b3abb37bfa5d5e1, 0x15d37890f0af5bba],
    [0xe5cb447b7db251cd, 0xaa451ee6be1bbb8d, 0x6e978d5fc8ea277a, 0x287ef1d880b31758],
    [0x727a11b8e7eed593, 0xd35ee5198603300d, 0xfbfbc3e2c49f0d34, 0x5d0ffe0d01c752a],
    [0xa85b1ff6e92d30d8, 0xbf65a50c422ab1e9, 0x6da7667d664838b4, 0x42e5fb819552fb6],
    [0x936cb95a3d38051c, 0x8065377845171e46, 0xd21974d9c3a07036, 0x1fce9b344a773117],
    [0x1cece3c75c410248, 0xe8ec4f8750089943, 0x34ef281f973ae22f, 0x217e2377d39a2d5],
    [0x5fca86539b272dc6, 0x64386ad905e24057, 0x1b9fec37376253cf, 0x2cb13179d6e8a4ad],
    [0x3e85e10d296999e7, 0x5b56613dcdce4a09, 0x42148a247e4260a0, 0x30073c53bd5375c6],
    [0xc05774b479d54fd8, 0x906ec0710818ff44, 0x5c3dbe7f8130d399, 0x237c0bac139ca659],
    [0x6c6b1c295690db9c, 0x9baaead143a7edbe, 0x7cb33a243bd212e8, 0x1f2e23fcd2259faa],
    [0x7c8020777f26ee4f, 0xb1d073b3a6037e8f, 0xc48edbe15599d462, 0x2ec7439229a284f2],
    [0xe80cd9ec5b5acc5e, 0xf631f3b47843b112, 0x33c2adb6b3b0935f, 0x23c268b84e8c1187],
    [0xe65718f52fabc7c9, 0x3cbd3ef198b5f056, 0xfda16f3f99411b1c, 0x136b39ab04af56c],
    [0xc4cf8618a955d9a4, 0x8d4039e6ce4fa251, 0x80f23577b3336be5, 0x29358a02315a9f51],
    [0x22a4725c81105775, 0xbc90890a5c997509, 0x476c8dd777624e49, 0x29139674f1ed5967],
    [0xd655b77c473aa32e, 0xbba9f32b99a78e3a, 0xb49bab9ade7e3811, 0x2fce35cabeac14be],
    [0x1932c0e785301f0c, 0xcc2eab0eb7d23274, 0xa20bd878ee7e6bdc, 0x2d0fbcf9cb5fb78f],
    [0x8da58c2e55b0767b, 0xd9f26edc5b57755, 0x8e126f72a8223785, 0x2ca38f6f88d6a37b],
    [0x1157bb8a5af115a0, 0xa897da1f16555a19, 0x87bfb8822e5c2297, 0x19e38d09cdb939e1],
    [0x3e4691b767dee7f9, 0x40e9b7da31271dbf, 0x7323b48941cc0101, 0xf61a58b977b2fd],
    [0x143b33eba1153df4, 0x253870bed1a0213b, 0x4bf9fb86cfde9589, 0x22b5299787050ae0],
    [0x3ee809520a9e22a6, 0x1d5071aa734f6055, 0x873daa537c21d79a, 0x2becfc510eced53a],
    [0xd9e38e9c792bba8b, 0xbf1e4c5de2177267, 0x5b406c10b0120725, 0x14d5be5c690883ea],
    [0xc0bc367e7703ddf8, 0x4e4df04bca89830, 0xc7842f194b1b30b6, 0xdcdc68aaff548dc],
    [0x33d1af86cb89d9d5, 0xe79a62db3714cdb8, 0xc37e1f7266bdb1ad, 0x1b0aa07f9f3f5aed],
    [0xbf019de8ef79f3a2, 0x14d43e1829f4f99f, 0xf859972a13e02133, 0x1e7b9c8adc9bee22],
    [0xa6052642e517fe39, 0xc87dedbc67970dce, 0x9b4cc7ed3546d69e, 0x3d090fdc48ebc00],
    [0x4a36d5c31f9cefaa, 0x31e4f0d981a2fa27, 0x98860a6e6c5db184, 0x2fedb8119885c383],
    [0xcd0ec76c8dd6750e, 0xd6935460588e15ad, 0xf8d357bd332f13ab, 0xfa5fa0299ea7aef],
    [0x5fca86539b272dc6, 0x64386ad905e24057, 0x1b9fec37376253cf, 0x2cb13179d6e8a4ad],
    [0x9588a43c40f4ea8f, 0x24422046622625d7, 0xf25a5c84f352a01a, 0x12342a1391a6b59f],
    [0xec6bdda6384f5a30, 0xa8969004cd750c3f, 0x4a121558331c18a2, 0xe21849b6b496971],
    [0x86ce3594728931d2, 0x4e395e3fd9f1f4f0, 0x11c17306bcb7c7a6, 0x143fa84e95c7893e],
    [0xb3a42190f035b144, 0x53cf23a2ac95cb41, 0xe124fd7ff4b172c8, 0x216b7f99cfbd8ab9],
    [0x56d080872fb95490, 0xc6cf21ed59510c1e, 0x3d2be7d2151cddab, 0x18bad0594a462f03],
    [0x28e30b3497d69f3a, 0x763a3a1f7b9407c3, 0x947ff5f4a12cf1e4, 0x2c5b49fce206c612],
    [0x9393b40ccb39b9a5, 0xcd8dfb3e4222a3d5, 0xa1153a649786a33f, 0x13fbbb66309924fe],
    [0xd1c9258829622f7c, 0xd5abe5e1301c165e, 0x3e7487e0ff0e1277, 0x3b44f905e3c8a2b],
    [0x58386c8d92f565ea, 0x4cc056562006c484, 0xc9400d0a6ec21aa5, 0x56c2fe32c1944e7],
    [0x15d68e318889ab19, 0xb5caa25f49877964, 0xbfc43afb3ee84548, 0x29c47e53143446f7],
    [0xe5dcae495890217d, 0xde40c584fe61d4fa, 0x2177163200168574, 0x2e43c52d2744828],
    [0x7555d22c75e51e40, 0x2b469f2742e328e0, 0xf06a2992a515f45c, 0x2fcce12507cd0630],
    [0xee5559d43dec7611, 0xb2173e94ae76eaf7, 0x9402b82ba4ebf641, 0x1d2e6d9c5e8c220f],
    [0xbbbf5d4573a860f9, 0x9fe0b4e55f46307b, 0x10a8f245cff5cf75, 0xb1d1a4591f233e7],
    [0x534c7c9fc648bb99, 0x6499b728c6fe54b2, 0x898344233a5a3023, 0x163aeadf9697fd15],
    [0x4ff960c0d4a5a348, 0xb2472c6cc832ae30, 0xb5d09b27c9669fdc, 0x2e3345617de88523],
    [0x6df0ef2281efc08, 0xce35ec41a77b8962, 0xd40885c992654775, 0x1859a9bfd50b4bf8],
    [0xe917b65e424ec478, 0x8d0eab3142357e4, 0x296798cb37ffeca7, 0x1232a777b5141ee4],
    [0xa3b4509ab2aebd8c, 0x3bb2826cfea14c78, 0xa466bcf69079f8f2, 0x10c4ce967cef015f],
    [0xf426126ac390b7c6, 0xf18c11a16c809440, 0xa9d5e9192337f070, 0xb980e8a923bd3a2],
    [0xfc1c1fd0f6327b99, 0xd12c1dbe6158eb34, 0xdb754e4133fd4060, 0x2b1d91f4222d2984],
    [0x2c6b24663fae3129, 0x91c2df986c339c6f, 0x771897b741b03ca6, 0x19ca1b4e01a1671c],
    [0x5fca86539b272dc6, 0x64386ad905e24057, 0x1b9fec37376253cf, 0x2cb13179d6e8a4ad],
    [0xf1d07f6bd1f35269, 0xf96e72dca78d25cb, 0xb34e39c7e2e5b23c, 0x15e4fc48c95a30a9],
    [0x7bb3217fe5580c65, 0x7e4b9c6bc29cabaa, 0xd12440066758541d, 0x2d23fdc4c0c81c5c],
    [0x4074a32086f519a1, 0xbb995466f39a9e04, 0xd3e60f71c53bdbcc, 0x1e1db0902c0b9743],
    [0x2916ad9e1c77ae80, 0x2f3a41e0eac0c5a8, 0xb3c87479bccd7112, 0x24b7c98c30ccfbd3],
    [0x19d7433b2771cf91, 0x901c2d45f4c2e1d, 0xf0f9f25bee0293c5, 0x22ac75fca4d3bb5b],
    [0x61670dac5da95b1b, 0xdc856c03c9b7236f, 0xe9b13118b4bac03b, 0x2d0777b0c575fc2b],
    [0x3270545cd190be5b, 0x3728b6d6d9676f2e, 0x627c8d6ffedaa450, 0x2252fa35e811593e],
    [0xc4dcaa8269f4f0a8, 0xb96e8c5a67dd111c, 0xacb5891bfe84d9a5, 0x20b37b4ed7445a96],
    [0xa1d71c34f36fe0c5, 0xe2a6b5a1ae358d94, 0x9f804ba06d9551d3, 0x2347986652295db7],
    [0x3af9d340058a35e7, 0x5be9123e2a3728ac, 0xd5e68070e3114b1c, 0x19384ebe245dce94],
    [0xab64c2d907138a35, 0xb0f3ef063f221a3d, 0x6af9e233a4934550, 0x1fc74a00232310ce],
    [0x44f8977da8a7c16c, 0x23e89e26a47b9e9e, 0x67db56ecc61ee186, 0x104721a9a6568d9e],
    [0x868a5c15be47c163, 0x3e09cf77787931b0, 0x3f3ab7971dd72de6, 0x16d9fd4e5dcf7586],
    [0x1c91bd995addd474, 0xf54494b61e62c54e, 0xc9157a219aaa6787, 0x392be8203347a51],
    [0x7c13172b179099c7, 0xdea61d61f7d103ff, 0xf570af0165bd2d00, 0x1728a3905a9130b0],
    [0x2193a33906507934, 0xbbcf94c72f2e30e2, 0xb5f0cac73c11dba2, 0x145f03cb3abe12e],
    [0xd86f5f3aa716b842, 0x1b6f50432881c9c0, 0x666730029fa0ae97, 0x87ae2a368db5f3d],
    [0x225196ab8064c737, 0x8894da265fcc041, 0xc3cc14294ad86e24, 0xe386543bef330d6],
    [0x17712bb95aea6ab2, 0xf187b19448b18f46, 0x406f111cd42aa6fc, 0x1faaf3ab79da2b30],
    [0x195e64afdec8c525, 0x38e98480e1a0de15, 0x773c5cc57af29ab1, 0x1c68410bc6f75d9d],
    [0xcb7694b2a21ecc0b, 0x55d81280eb9f4b71, 0x5ddf1aaa9849f989, 0x5b529d09da83d89],
    [0xeb75cd859e3ddcc7, 0x1d87b2e26b50b7fe, 0x84d9afc4541e7f29, 0x5b8ef58138e7c32],
    [0x5fca86539b272dc6, 0x64386ad905e24057, 0x1b9fec37376253cf, 0x2cb13179d6e8a4ad],
    [0xaaebaa590edae407, 0x69035ad6ca31e71e, 0xeeb3f2162b41f9e9, 0xd2abe6bb0c097de],
    [0x2012d3b4349c458, 0xe39aac3f27014413, 0x332fd32caf83152d, 0x1909ae6f86d6d43],
    [0x9d7c07fcf2f5dfe1, 0x1f0911ae43d03644, 0xe5ef4794aedc8805, 0x2f0ee3a8676b72e7],
    [0xf6e24a8f31c63003, 0x2265f0d9443de37f, 0x168121f86be8de34, 0x1e378a1fb4fb0b0e],
    [0x1ccfd225176a0e8b, 0xec6df1f1fa08010, 0x2a046daec4856ba8, 0x2583b1b0912cdf16],
    [0x82edae298800e746, 0x4dea224f6cbccef1, 0xdcb7dd17706edc89, 0x11d9e38aabbe2391],
    [0xd002d6f9cefd598f, 0x4b54031477fdc8c9, 0x89830bee968e6d54, 0x1d486e5b90e3f3c7],
    [0x1ebbafa1e568eb18, 0x9914476348aeb87a, 0x4f5330a590ab0661, 0x234434965f05028a],
    [0x39493ea05c1bf509, 0xff5f27955e2f3861, 0xd16239f7b3ddf108, 0x3eb55944fa1e36f],
    [0xaa9b190b3ed2ed9a, 0x738c2cb877d2b125, 0x8e6e535a4b62627, 0x22d683ecc91253d],
    [0x18bdceacb2721958, 0xc1f0116d7e1c5dec, 0x734c2ed0642a474f, 0xff142864b0e14d2],
    [0xed3d63285d7a714a, 0x211f1b12d91b0562, 0x25f5f4e4dfbcf5ac, 0x1f930557a2849982],
    [0x9f9ea73a3ef0099d, 0x28b8b710aa85fe72, 0x745eeb9cd4a9e62f, 0x18e8222f6907da5],
    [0x653f370f905b8b07, 0xe38acf9df4957432, 0x66feb146ed56212, 0x180e924d757d0be4],
    [0xc21755eae77a55bc, 0xac3142e21f08ca02, 0xe7b14a1242b6799e, 0x2f7d0715d1391190],
    [0xc0348a8862c6ce71, 0x4a4fc7dac683defc, 0xb3f4f49a771061e, 0x2283ed8d5e6f947],
    [0xe8c9c5664c6913d6, 0xc02abc3ccb54c5c8, 0x9990b9f994f381a9, 0x21f60efb132b6290],
    [0x8a675635ac715495, 0xe05d1cf0b7046920, 0x24e9bcee49a5464e, 0x1cde82acee60b844],
    [0xd9406941f958e8e1, 0x587805f16cdb1939, 0x18f0a996c87de913, 0x118a24510a2153f8],
    [0x8a86078881660264, 0x779524325e4ca5e7, 0x550fca229bac7cb0, 0x164567b0de16b7a5],
    [0x178dd7087e4e8c02, 0xb0960c9c106ce115, 0x34527cc9dd0b4de, 0x188ff303194112a7],
    [0x781d09920d094ead, 0xf53263dcf9ef4311, 0x5f686abeda9f16eb, 0x83d832adf9bb4a2],
];

/// The values of the sparse partial-round rows for width 12.
#[verifier::opaque]
pub open spec fn s_vals() -> Seq<nat> {
    limb_vals(S_DATA_0@) + limb_vals(S_DATA_1@) + limb_vals(S_DATA_2@) + limb_vals(S_DATA_3@) + limb_vals(S_DATA_4@) + limb_vals(S_DATA_5@)
}

/// The sparse partial-round rows for width 12.
pub(crate) fn s_table() -> (v: Vec<Uint256>)
    ensures
        v@.len() == 1380,
        vals(v@) == s_vals(),
{
    let mut v = from_limbs(&S_DATA_0);
    let mut part1 = from_limbs(&S_DATA_1);
    let ghost pre1 = v@;
    let ghost add1 = part1@;
    v.append(&mut part1);
    proof {
        lemma_vals_concat(pre1, add1);
    }
    let mut part2 = from_limbs(&S_DATA_2);
    let ghost pre2 = v@;
    let ghost add2 = part2@;
    v.append(&mut part2);
    proof {
        lemma_vals_concat(pre2, add2);
    }
    let mut part3 = from_limbs(&S_DATA_3);
    let ghost pre3 = v@;
    let ghost add3 = part3@;
    v.append(&mut part3);
    proof {
        lemma_vals_concat(pre3, add3);
    }
    let mut part4 = from_limbs(&S_DATA_4);
    let ghost pre4 = v@;
    let ghost add4 = part4@;
    v.append(&mut part4);
    proof {
        lemma_vals_concat(pre4, add4);
    }
    let mut part5 = from_limbs(&S_DATA_5);
    let ghost pre5 = v@;
    let ghost add5 = part5@;
    v.append(&mut part5);
    proof {
        lemma_vals_concat(pre5, add5);
    }
    proof {
        reveal(s_vals);
        assert(vals(v@) == s_vals());
    }
    v
}

/// Part 0 of the dense MDS matrix for width 12, as little-endian limbs.
pub const M_DATA_0: [[u64; 4]; 144] = [
    [0x5fca86539b272dc6, 0x64386ad905e24057, 0x1b9fec37376253cf, 0x2cb13179d6e8a4ad],
    [0x51ee16a276fdeb9a, 0xe5073f4484f34be9, 0x33a994d1fdb3f60a, 0xfd547840f3a30a5],
    [0x451fba2bdb3ac1c6, 0x963f56ce327fcf78, 0xc7ffa9081795105, 0x5019671bda02667],
    [0xb765ab02906b27dc, 0x5f173a9097db404d, 0xb2ae77fc39e51a39, 0x2952c18c15558f29],
    [0x78daf752e5cc33fa, 0xad07380654d47923, 0xeac2c9a4263d451f, 0x2353a60af6bd61e5],
    [0x3157ad3e3b86f6bd, 0xa5e3f4c0f61cf32d, 0xb4f264b37488b03, 0xed6a3bd48174e37],
    [0xc2e42a52302f4483, 0x12c6100c5d88085c, 0x501be8c23504c6a9, 0x21103a7aa20c8d15],
    [0xd0fb4dc4c27536b7, 0x2884451e677b0d1c, 0x536d100c3a6ea917, 0x2fb232573e85d68c],
    [0x4fc45de29b541535, 0xe11e1d17409abaa3, 0x709ad0c73238b0d1, 0x302a085be040ff9a],
    [0xf0a883c2f1faa8ba, 0xebf7e292e63fa84c, 0x3c3cd6b1d0f0fd86, 0x683e640e6154ef7],
    [0x9fc7077144ac3979, 0x5e014b28f23a07ac, 0x6fac98946b737509, 0x1f09f3fb07f7f647],
    [0xe5826ebebd1857b5, 0x191d52608955b583, 0xe4907c74e82325cb, 0x598c38d2e2c78df],
    [0xed3d63285d7a714a, 0x211f1b12d91b0562, 0x25f5f4e4dfbcf5ac, 0x1f930557a2849982],
    [0x2cca1f19a4c275fb, 0x4f1e8623d0a4f614, 0x472df3f64d6afa00, 0x4c4061820cda9bf],
    [0xef4f880e202cb5fa, 0xc263755dfcb38b27, 0x882c22000951239c, 0xdbc22c3e54c924a],
    [0xc53ed07dbf0d9c76, 0xab35ffc975edfb43, 0x91c40f4d44233122, 0x2fbb1c59e9e8999d],
    [0x27028f2ca8a71251, 0x3bbecec3b2b3a63f, 0x2085203a0e460af7, 0xb8f40d2c4d28c47],
    [0xd81229e64e6bda02, 0x595052f782e46857, 0x46417ed466be6008, 0x28c01a9f01601bb],
    [0x7f814dfbf26f85ea, 0xd54a24ee6cabe4fc, 0x36176a5bd83183a0, 0x23ce8e402939cccf],
    [0xe71f7ce0d470a40f, 0xfe26243702bd3d57, 0xf7fc8d116cb54c54, 0xdb82abbcd3a1b56],
    [0x2cdee3a72390213f, 0x62d85b671656d61c, 0xcf9949da7afb18d4, 0x2e703ea9af99161a],
    [0xbc90206c82c4b597, 0xdd78f8d0cde53a66, 0x235efd2d4f0fad5f, 0x16512c150c1d2fb7],
    [0x3b1761c58d6fdf32, 0x1d98a75e822ef55, 0x75ef68df902d791d, 0x298aa5d5a44565b],
    [0x4a476065697cabf8, 0xdaeab2aefca31bc0, 0x8b7606543145ee34, 0x203fd2078ab2a8f8],
    [0x9f9ea73a3ef0099d, 0x28b8b710aa85fe72, 0x745eeb9cd4a9e62f, 0x18e8222f6907da5],
    [0x36181e113a2cdf32, 0x8106f6b656b45e76, 0x81308d83d2e057ef, 0x107757eb0c0799f7],
    [0x6891eb77f856b608, 0x6039512dc9c8e119, 0x7563dfe41b8b9fc0, 0x966a21b9615af2b],
    [0xcfddb56afa53c82d, 0xeba1b5272a77bba9, 0x3c287c6fa3efcdef, 0x82046081498eee6],
    [0x7c831a509af59196, 0xec975acc3e3eddb7, 0xa6439d0f29f10e26, 0x2c7ecbf14b2d6049],
    [0xf36191ab04eae4ed, 0x5aef046d0a1f2cb5, 0xa2ce3dfe9923107d, 0x144022e7e077ff22],
    [0xce3d9c5800fadd0a, 0x8edc009f46b00693, 0x81b8213550951e23, 0x170403d414148f46],
    [0xb8d088611880861a, 0x720ecd4ca3e42c3a, 0x84f635e8cbf080eb, 0x2997d92a5e9bc66c],
    [0x68cca44865dece11, 0x271d72c18b0261be, 0x2e6c628906b21e24, 0x21427b3a9a2cdf1e],
    [0x7e615131f71d337d, 0x946d78ba6cb26d22, 0xa8ebfd535c107c36, 0x24bba58086a78541],
    [0x90b6fd2dc88e0a14, 0x283d737c18eb06e0, 0x1db389a1fc8dd3d0, 0x1fd5a6eba52e9ea],
    [0xacc1a6f521aae4a4, 0xec8e9cd7aee6d6ce, 0x50fc9b5ac34442a4, 0x1276442d9383c52d],
    [0x653f370f905b8b07, 0xe38acf9df4957432, 0x66feb146ed56212, 0x180e924d757d0be4],
    [0xe77b9a19abb55001, 0x746b55bb974694a4, 0xed812863efa05eda, 0x2acd39e3892ac429],
    [0x4851f90abcbb3631, 0x700269c7df4d98ce, 0x85da4cf8a03395e3, 0x17b18621dbd61df0],
    [0x5b5d5cbfd9c23e6e, 0x4abd652468de5a8, 0xd34730c3af8bc19b, 0x2a429c2d06dcf34],
    [0x5286d62bd0eed372, 0xea27fffba704202d, 0xef94a1f542d8c34a, 0x197dfb64189c09aa],
    [0x6200723846c6577e, 0xc26cf4903d56b897, 0x32b7d3828e072dad, 0xfd3bdb79cad9134],
    [0xf0624836576a6b29, 0x70497c7df4b97db2, 0xdd1bf0e5c532eefe, 0x29b9ffe05db2c52d],
    [0x479fb4563f016497, 0xb9c15bf88471cb6d, 0x2c5b1540eaaec14, 0xa2a006e3b086bf5],
    [0xf64fdfa9b9daa670, 0xe731e3228b892fc5, 0xdbd9eae8772350e0, 0x237a9e020908cd0e],
    [0x6added6337a72c2b, 0x7f7e1e175c0d324e, 0xd68c9be010587c70, 0x6d349d6182ec30],
    [0x7a0ca02ae1b080c5, 0xde3b79f5baa70a3a, 0x4d0c44dd47c3c70, 0xaabba39d220f306],
    [0x1a1dbc7ef6a9bab2, 0x7c45966a6e8bc6aa, 0xfa1a34082f11c71b, 0x16ee980a2c67de24],
    [0xc21755eae77a55bc, 0xac3142e21f08ca02, 0xe7b14a1242b6799e, 0x2f7d0715d1391190],
    [0xb2442b55d98dc5a6, 0x3fcc2e40bd623ea2, 0xefaeefd0eeb7fd56, 0x29788bb6cd947ea9],
    [0x74f01c56bc44c3e2, 0x566a28011f69dd08, 0xb79035bfc3332a4e, 0x12cc274647fc572b],
    [0xde43b845249f534, 0xa97294156ad7ddf, 0x2b4b103a61e94ed4, 0x2ef584c3aaeedbbe],
    [0x29cd8757b75b772f, 0xf99dd30e57a7d998, 0x725dd15110f74aec, 0x5f9a6a8d64cca12],
    [0xd5397645e6e81825, 0xb7f3d026946abbb9, 0x8560d4ebbacfa6e2, 0x2979d1aeafdf9798],
    [0x86488e0c47ce1fc0, 0xe05de78adfaa2c96, 0xfbf83240d334fd4c, 0x153891052fca1290],
    [0xc23503b122639c7b, 0xe45aaedafdeb42c1, 0x4e76af7f9fa1114f, 0x1b8c7eb04d351aff],
    [0xb92b14f69efbea57, 0xc64f5687b09b960a, 0x70d11fad7cfe06c3, 0x2d8125dbef602bd9],
    [0x51d7bd37243ee1ee, 0xf16bc02e84ada5df, 0xe586792e3ace3001, 0x10924807f6fdc4e9],
    [0xbe7afaedb2abba6b, 0x36d565e100b696a3, 0xa7124c5bd15d10c0, 0x230918919b6826fa],
    [0x1ae9ab38a5ccf6ed, 0xf7770f3dd7b05619, 0xf96121eae9d9555e, 0x1db922b8c249ff7b],
    [0xc0348a8862c6ce71, 0x4a4fc7dac683defc, 0xb3f4f49a771061e, 0x2283ed8d5e6f947],
    [0x4f5e3872fb582ed3, 0x2922f0fb8b5fab3a, 0x10757adb45031a5e, 0x6ab8672c936070a],
    [0xe9953f8e8e9ee057, 0xdead1fef6a740a11, 0x6e72f8aaab26dbd, 0x2c7d538b9e6d2b2e],
    [0x39efbd51f4bb6557, 0xbf215933bae4eec6, 0xaa42ee46b1cdcb21, 0x28e4620d210536bc],
    [0x54aee2b182d64b66, 0x1b5a52fe8fd7edb7, 0x679aef8d5a239b3a, 0xfe0def70bfba40],
    [0xa5da7e0f91c7b4f5, 0xdc8f5fcb6ad15223, 0xe5c58fb04fd25d12, 0x22ae023520979741],
    [0x50abb98a10cd1bae, 0xa2c432c0dc9321cb, 0x8a6f1b36fc3cff86, 0x105c0b246660c4bd],
    [0xcda1ce4854338597, 0x84aecfbfc0b4cd50, 0x606b2a5b47eb9075, 0x2a5aba3b45e79eb2],
    [0x82e946b1d57937d6, 0x142291c0e0ee6666, 0x6160fd2523b3a383, 0x23a3b23d5edf5cb6],
    [0xe65a9c8462a2c9c2, 0x8bfbf486471039f9, 0xdad6b7c3068d2d43, 0x26635f4df7172107],
    [0xbb1598878590f1cc, 0xdeb063ae3081d587, 0x6a6ffd5655b36580, 0x2bb28ef42f5fadab],
    [0xc72c74001383f7e2, 0x2e5936807704593a, 0x35e57c98d7b01f2a, 0x96dd43a832ab68e],
    [0xe8c9c5664c6913d6, 0xc02abc3ccb54c5c8, 0x9990b9f994f381a9, 0x21f60efb132b6290],
    [0xba671e9c31e5092b, 0x3b455f46eabd8957, 0x4496e61264aad5ea, 0x1db98a562fcd1a5e],
    [0x598854f65822f15c, 0xb02912a020bc4708, 0x569d36b60685a38, 0x2f30800c0ee46101],
    [0x371de3d564213c3b, 0xc95b36884fe5faf, 0xa113d609663af6b3, 0x1e32b1e2e6b59273],
    [0xc74a375d5060c662, 0x2ea373f8b8c1bf16, 0x2889048681a422c0, 0x1b1523463a45a298],
    [0xd3f9ac6c79fa609b, 0xe5f0d02a5bfd5e79, 0xe8612da021b30798, 0x5246ee7854b2e20],
    [0xd2cedb460fcb04c4, 0xae93eab171ac383e, 0x24c435e7e9bea3f0, 0x6cdf8055439ac84],
    [0x6fc4c9d7548cc455, 0xf24ef603454c0207, 0x54c617d77a774fea, 0x2f9a5cdb79645e34],
    [0x7da2d7c22b37d7f9, 0x8a502aa4462ca78f, 0x9a93b37adf7f22ca, 0x1b1625d757786a1],
    [0xb0f4d6fe61091cf5, 0xfe8e4c810154056e, 0x4400dce722430287, 0x28bf5488a525f551],
    [0xbe73e7b20097923c, 0x93299af0d9825db9, 0x9f0e4422b3c8f5b3, 0x21891bee31fb7bd8],
    [0x59a92dbb77b63681, 0x5c6daa90bc93943b, 0x4ea0657c4add2062, 0x2282e86ade85855d],
    [0x8a675635ac715495, 0xe05d1cf0b7046920, 0x24e9bcee49a5464e, 0x1cde82acee60b844],
    [0x5942d7afb24c6401, 0x8b4e1804b5209ce5, 0xaa832ac2f5712d43, 0x1c4dde07d0f94d1a],
    [0x2d3d38b583fa7841, 0x2775d5f5b435d94d, 0x565c0e94da844eaf, 0x116c45e4d88ceae4],
    [0x634b977d9d3abcde, 0x56f7933defa1059d, 0x9347b728135b4099, 0x18820364804d2211],
    [0x23f76952afa4514c, 0x3424a0678f94699b, 0xbac517fc19237ff7, 0xc849d07b1d9e6ec],
    [0x3cb0cbcf95bbb74f, 0x47a86e7728c34b2d, 0x76e0690e931716c, 0x2b60a4d43d12cf31],
    [0x3101f7b2ebc3811b, 0xf3156ff04536b3dd, 0x1fc01dcfbd748a6d, 0x3161d7b94e1b041],
    [0x91d88fe1b72834fa, 0xe502c5de269db82f, 0x39a7b8022f06beae, 0x6438e8b02204640],
    [0x586c284e45bd0ae0, 0x3ed89a22569d47ba, 0x626688531511a847, 0x14898babc8810cbc],
    [0x10fd3fbf279aafd4, 0x83c5f92141770930, 0x672cfc26c7e13705, 0x90dfcc0327a541],
    [0x85c0585637c885f8, 0xec95b74e8bb82e43, 0x46b5ea1bc589276a, 0x38e0c2e29c79ccf],
    [0x9a87f331908130f4, 0xe5b84adb4ca2c559, 0xad4767c490261bbf, 0x28331d0d31ca8675],
    [0xd9406941f958e8e1, 0x587805f16cdb1939, 0x18f0a996c87de913, 0x118a24510a2153f8],
    [0x6c152efd9f959bee, 0xac195794f8d91028, 0xf4fdf63ee4ad116f, 0x2cfc82712ed9d71f],
    [0xf1a667bee369ed62, 0xdc4d45eceb8b8998, 0xecfc3a97284bd0f6, 0x2ffccbc40031ebaf],
    [0xf0879237ffa510b, 0xbd380c6ce9f4f96e, 0xcec0f1bf62a6aac3, 0x9b6c00a37df2770],
    [0x8aabb4b58116886f, 0x2f238e64cbd69d06, 0x337771c1e355fc0f, 0x2c4036616c156006],
    [0xac5c649e68dd3aa4, 0x38baca48f6b66399, 0x93b3f509a9e9d501, 0x41b909a658d1369],
    [0x9407ebb1c4dc274, 0x760faf885f2c6e9c, 0xa4955b6469db9d41, 0x25c075b41ea2d827],
    [0x4435e5cfefb4e96e, 0xb9c16afced390cc1, 0xd1c906a42930e93c, 0x115a91867233cc75],
    [0xc8245c741ba3fc4, 0x1ebcf8e142537950, 0x8bf6aa527f25773e, 0x2f8fb37178b52575],
    [0x32d50f176a7ca257, 0x453d0d797246b647, 0x2bf30aaf6b9b8e05, 0x29a14dc4bac0a4c5],
    [0xcc5edac1fb142be4, 0xb6bc62ec631db41, 0x2f7daa209b756052, 0x2c89dc7562b91d8f],
    [0xdffc4a586dd9a1df, 0x8f39ed4eb8a9721, 0x7e55332e6bc5b4f, 0x14972bfc85de037b],
    [0x8a86078881660264, 0x779524325e4ca5e7, 0x550fca229bac7cb0, 0x164567b0de16b7a5],
    [0x80b2b4bf48f3b27e, 0x3333835b6cdd3335, 0x8e9abe3f6883d706, 0x18b49b773f579988],
    [0x1330f938558b3ace, 0xd1360c4fbb8c5f3, 0x94c73e6e2c9d7936, 0x2007424b129ade21],
    [0xa798971cd8ec60f5, 0xa2f48c703614980f, 0xda2df5c188baf80e, 0x445e26e26f91707],
    [0xd601c7e8e501b49b, 0x46838d9b98cf4242, 0x298351245d322365, 0x176804ec1cf85d35],
    [0xc4f4977ca36a7b1c, 0x8f64da9fe3df483f, 0xd19fe3ae23d037f, 0x25b6e65e90ffbf91],
    [0x34dd46cc4de660d8, 0x60f76751e55b4ff6, 0xefe3a7c788890ab8, 0x2fa2af7970e131f7],
    [0xdfbb11af956ccaf3, 0x79bf49835d5c8b8, 0xcf6c842d1683444, 0xc8fd4ece5c20519],
    [0xae9e5f0c1f6d8266, 0x7a1186252efd6c9f, 0x267e6a4a1c3303ea, 0xe992f44463e2dfd],
    [0x9826a191dcbf5bd0, 0x59a5b928258dd146, 0x68d16a3de0872c3b, 0x2609ff97ef574fd],
    [0x8575af009c96033d, 0x20f0e03fad87746d, 0x15da9881f948b40d, 0x15dc57879cb41d60],
    [0xec2d176190587896, 0x8f20e82e23489382, 0x5dd21a37b5ee7930, 0x6d039b64e82d797],
    [0x178dd7087e4e8c02, 0xb0960c9c106ce115, 0x34527cc9dd0b4de, 0x188ff303194112a7],
    [0x8e0d4f38e8f4eab2, 0x4a86a51d4d203778, 0x32091f8fb0d97cf0, 0xb300de5b99c27d3],
    [0xc3de51e2623aa3a, 0x8d103a3388d59a7c, 0xd9eaf5d4da08d1e9, 0x2c53d6676d4d4c87],
    [0x7a07e4a93e038075, 0x58e1ba2be18a59b0, 0x766e2b57a58674bc, 0x19f5101715162976],
    [0x7a76b17c525b50ca, 0x7e9ddcd2a7219b48, 0xbbd6104accfcae50, 0x2f5855a876a37f7b],
    [0xc94087cc35930966, 0x701e1a538d69098b, 0xcc9bcf2850b6ff4f, 0x2c0de448a88dfeaa],
    [0x1e6de6d4f82451d7, 0xcdb081bee52b243a, 0x5c3368c53dff2170, 0xce587066eae0c34],
    [0x2566edb957982713, 0x34141cb53ac6311b, 0xdf963da57f2ef4c4, 0x2cea98cc64abd926],
    [0x84bf9e4dbb1aae6d, 0x4b8536fee6c03899, 0x73c0d29be8889d0c, 0x2c7ae475d90c475f],
    [0x1714fd3964af5f10, 0x292945bddbd58724, 0xd03ce54607749610, 0x23238fda1417302d],
    [0x75e819ce56ce1e83, 0x123e59793c0fe210, 0x2f4befc7ad5f0f5, 0x1c674ff2ead27ce0],
    [0xa29ec306f8606ae7, 0xf9acf09f1a9cc503, 0xa3828d51621ba409, 0x2627be68d9cd0ccd],
    [0x781d09920d094ead, 0xf53263dcf9ef4311, 0x5f686abeda9f16eb, 0x83d832adf9bb4a2],
    [0x3679c2a2bbc94968, 0x8d66d91179745b21, 0x84d1208d71b6b2a, 0x541af6b96524662],
    [0xfadb8dc5eef2a585, 0xa04b44eb544ee3c0, 0x4ff5dc851646ee7d, 0x2cf2c992c02a3633],
    [0x133ffeab6fd153e3, 0x6a3a3b48c10ded13, 0xb4923f0a46dd4e41, 0x6c5df8fd61eca2f],
    [0xcc68002ffb83639b, 0xcf291e84093aae36, 0xb72dfd07aa2b537c, 0x1a233c7cebfb0c6e],
    [0xacca58ca9d2235, 0x83583eca40624054, 0x9e79aa726bf15a59, 0x5f6d62f54518f03],
    [0x9d2d22cbdb09777e, 0xbb66ca896ecbe408, 0xf7ff5731c8e144de, 0x2b09de93c6e3148c],
    [0x1b74a6a4a82968a4, 0x2223760fb1b81c09, 0x74f796345db29656, 0x239ecd925178251],
    [0xdce61c9df89a8bd5, 0x3ce290d0156430a8, 0xa22fc57670379789, 0x2945cb85e34532e3],
    [0x685c0599262a3cf0, 0x8881c6c2ec00e857, 0xbc705c20c30f320b, 0xd3be6a5b12bcf1],
    [0xeb7fe14abe845dbd, 0x5bb5e4fbca5d6a19, 0x96b6c334f99750de, 0x11e7bc4a39d27301],
    [0xac7f83b10bcb6d17, 0x3b82276d9e288082, 0x470f8aa1402536cb, 0xc7c9db952865fb9],
];

/// The values of the dense MDS matrix for width 12.
#[verifier::opaque]
pub open spec fn m_vals() -> Seq<nat> {
    limb_vals(M_DATA_0@)
}

/// The dense MDS matrix for width 12.
pub(crate) fn m_table() -> (v: Vec<Uint256>)
    ensures
        v@.len() == 144,
        vals(v@) == m_vals(),
{
    let mut v = from_limbs(&M_DATA_0);
    proof {
        reveal(m_vals);
        assert(vals(v@) == m_vals());
    }
    v
}

/// Part 0 of the transition matrix for width 12, as little-endian limbs.
pub const P_DATA_0: [[u64; 4]; 144] = [
    [0x5fca86539b272dc6, 0x64386ad905e24057, 0x1b9fec37376253cf, 0x2cb13179d6e8a4ad],
    [0x51ee16a276fdeb9a, 0xe5073f4484f34be9, 0x33a994d1fdb3f60a, 0xfd547840f3a30a5],
    [0x451fba2bdb3ac1c6, 0x963f56ce327fcf78, 0xc7ffa9081795105, 0x5019671bda02667],
    [0xb765ab02906b27dc, 0x5f173a9097db404d, 0xb2ae77fc39e51a39, 0x2952c18c15558f29],
    [0x78daf752e5cc33fa, 0xad07380654d47923, 0xeac2c9a4263d451f, 0x2353a60af6bd61e5],
    [0x3157ad3e3b86f6bd, 0xa5e3f4c0f61cf32d, 0xb4f264b37488b03, 0xed6a3bd48174e37],
    [0xc2e42a52302f4483, 0x12c6100c5d88085c, 0x501be8c23504c6a9, 0x21103a7aa20c8d15],
    [0xd0fb4dc4c27536b7, 0x2884451e677b0d1c, 0x536d100c3a6ea917, 0x2fb232573e85d68c],
    [0x4fc45de29b541535, 0xe11e1d17409abaa3, 0x709ad0c73238b0d1, 0x302a085be040ff9a],
    [0xf0a883c2f1faa8ba, 0xebf7e292e63fa84c, 0x3c3cd6b1d0f0fd86, 0x683e640e6154ef7],
    [0x9fc7077144ac3979, 0x5e014b28f23a07ac, 0x6fac98946b737509, 0x1f09f3fb07f7f647],
    [0xe5826ebebd1857b5, 0x191d52608955b583, 0xe4907c74e82325cb, 0x598c38d2e2c78df],
    [0x613e7adaefc605c1, 0x9ac6fd8f4170d341, 0xd3c77c170df94776, 0xc894a150b70154e],
    [0x88fa042477fa8111, 0xf4d2e10cce779a02, 0x66a7276a3f7fc143, 0x39f5e3ba736458d],
    [0x521b8f4da19cdf64, 0x914406af2136f902, 0x620640d590f151e0, 0x1c9807d9b8968d8f],
    [0x84c2b2c4033379cd, 0x6af1ee7581b96e29, 0x800ff4f4884ff5bb, 0x1e7fcf514768abb1],
    [0x1501f142aa401f3, 0xa4e1809be0ec701d, 0xa4ae3b17ba382c8f, 0x28d0997942c3b3b0],
    [0xce1412b7ab24ebb8, 0x452eff5917a877ed, 0x96d39c336dacdb13, 0x287cd855b94877a3],
    [0x14de12f49e49570f, 0x1ecde783af95067c, 0x673bc3bed51afbf5, 0xc783dba69038bd1],
    [0x3cef0e5728d23aaf, 0x795f1aeedaf1f7ae, 0x5123e01fb748b241, 0x266913da539f40df],
    [0x16b33c778feda3b8, 0x910fdbbfad967bd8, 0x12cdcd8674b0f8fa, 0xf259a3b7e18add9],
    [0xaf2be2b93ecf20ab, 0xd0f194cf0689d834, 0xe9b05536c8d07e27, 0x10017188ff4a2e0],
    [0xc579933c6ab1124, 0xfd6f87413c9805d2, 0x73e688be53f5d6da, 0x2bb007eb9685bfa3],
    [0x4903d9340b67b7dc, 0x2b4a6d37a488981b, 0xda5d035c1ee30fd1, 0x27fe7a3879727f44],
    [0x377ea19a77db346a, 0x2bea00ebc2806c19, 0xf058d93af7ae1a18, 0xf784c25d3497fb7],
    [0xc9bc06188814e185, 0xeb21582db300ac6c, 0xb2959204bd9df5f9, 0x2834c6a4b3a7068],
    [0xa98e64a8d6da5588, 0xa34528a2fe041591, 0x92c537c54deaec58, 0x10cbecac33036679],
    [0x9ef9eea3b2c32fba, 0xfe33f283bfeaa1fa, 0x1c0a3bf6b18217e1, 0x21828d603ee0c765],
    [0x4610b70b5a38209b, 0x40aa3d39e7ba0e4e, 0xd4f6525c47658464, 0xecf00f71b1814ce],
    [0x24abfad47a73bbca, 0x48f1e9f14d47dcf8, 0x5d038881cb47f617, 0x4f06b7fdcc31960],
    [0x3b60ca83f49b2369, 0x1bf1b3a771be4925, 0x85416d6cacd0e825, 0x1cf80bf06f3525aa],
    [0x74cbb47419c31572, 0x6dfb3386e62bce0d, 0xdd99b667c6255bf6, 0x2f6910e50cc8a14d],
    [0xa2f588268314b95, 0xf91c7bdd278b7c81, 0xeb93be791fe26928, 0x1e43f0a896764c42],
    [0xb59d4c7ec037e251, 0x10cc5c32edcd5865, 0xd194c593bb5e4e27, 0x2afd3c4028b2ada5],
    [0x630cbfc5292f238a, 0x1edf590a9a7ec2eb, 0xc3dcc8e1b15d3808, 0x2b22adee2ededd40],
    [0x2694b35adfea49cb, 0xc0831403f53a6583, 0xf31321211e351744, 0x11033939341c415c],
    [0x59a1f1482e4f2d8c, 0xb6b6f14bcedd66ab, 0xb402545867e341, 0x1a4f48dbda220895],
    [0x50300fbca592da7b, 0xfbfd2334bfc29ea0, 0xcea6a65b34b4018f, 0x365a1836d0c970a],
    [0x6523937f339a5d9a, 0xa76149223fe72e9, 0xa051886f8904e1af, 0x1bc32304ad49812],
    [0xf6138d6de60fa369, 0xc7d1a7cbdcc34411, 0xf67d3eb731a53df, 0xde712fca9d7df5e],
    [0x4491fd234be89fc6, 0xf7ae5c6cbd743001, 0xe6c704992ddc3e89, 0x1258d5a4d495bd4b],
    [0xc46cca6ab3ffe666, 0x9b0a4a30fb019b3c, 0xb9f0009c8204cf2d, 0x4eef0886e398163],
    [0xacd8ee0322178495, 0x20043926cf55678b, 0x83c7e5a862849279, 0x1b6e663aa128709d],
    [0x5561c6bb0afd7b37, 0xd29b511eba00b270, 0xb44d705fe83fb319, 0x24fe05893f5e7aab],
    [0x2d1f08ea4953abb2, 0xe1adeaf2dc222f40, 0x45279900f8755e55, 0x268094abd638ee01],
    [0x90cd02dfb5e5dbc1, 0xfa6288b0a04823e2, 0x3b0f6c3f32f096c2, 0xebfe1c74eb49cc7],
    [0xb194f7923231d67f, 0xcc52e0ff4ade0d47, 0x33685d84005ae724, 0x6ac8237c50116ad],
    [0x97bca91518d8c2f3, 0xead181850d2ff29b, 0x1b486290d0c9ee89, 0xf47bcf189e8e4ba],
    [0xe01889b688078347, 0xcff116ab06d9e735, 0xa7d353e201a1f480, 0xf61b0bc7dc5911b],
    [0xcb895938a99c35e9, 0x90ad985b31686b75, 0x8ce45aadb1925144, 0x7b2fe7cb2612a4b],
    [0x70d5ae18f431edce, 0x86e9b9ff7e4a4faf, 0xca99c78dd90a57b3, 0x15dc91d6fb987bbd],
    [0xb09aaf44b3ce6d86, 0x93710fe813edfa46, 0xed82a9ee0f4294d4, 0xc58a3374648de30],
    [0x8cfea9e3dca618c4, 0x83f71722572b4d95, 0x99036b87af10c4a1, 0x30513cdc31496639],
    [0x607aa26583695932, 0xe1e10acefe62de96, 0x4ca2ea90a0f27660, 0x2fb04567ad27a42a],
    [0xa38f4c7f53905, 0x95505138a4ee1184, 0x5ac08d1756f23023, 0x6146f62b14c25c1],
    [0x61c31e6ae0710a45, 0x578ce4e519d54c8e, 0xedccb39f50fb90cc, 0x1ef5275b46a65f69],
    [0x3326214c84faa0f, 0xacac75f82e0ea8ab, 0xc84b866d9e7445e4, 0x2e1bfa1a1aea7b44],
    [0x47a2ba4ebc0e1c17, 0x50562238dbe7b95c, 0x78ebf844a52f6c1d, 0x2be96b6dc6b5dc0f],
    [0x8850191545e58295, 0xc1f1525d76d3ba7c, 0xda427e2b9f7fcbe4, 0x217cef9e11c01178],
    [0x1f0094108e1b3d57, 0x5ed707080999f121, 0xfa09d586810cd0da, 0x53090370cc10ead],
    [0xd4501cb4b24e7d72, 0x289429c3c6169f26, 0x8f2cb630b9b892b1, 0x15f5f8ed095948c5],
    [0x8d1225c557a02fa4, 0xd7b932e045c56d2b, 0x450146921952051d, 0x4c72c3e92bcf3c9],
    [0x8257ef310794df28, 0xc568e92a447ad28, 0xccea7be76f0e139a, 0x22b26a76db2dafef],
    [0x9528e4b12d34e5c8, 0xcb440a4c0c4d7318, 0xcb8f0ce42a162a7e, 0x14be55982212ae54],
    [0x40ef7f1237d851af, 0x4cd95a2e95da15, 0x84cd4d63e285ac2d, 0xc658aba90de1553],
    [0x8e2b59077ab57704, 0x5f4998fc620c36e2, 0xd8a2c8a91b983b07, 0x1f1c7c6bbbdecb7a],
    [0xecd136fba4f4063d, 0x572998329ab695ad, 0xfb2f4a3dad7e2a16, 0x1c5eea7863fca5bd],
    [0xbf46cc5f03538ea0, 0x10fff52cc5692edc, 0x1fefc352a005bd0b, 0x137569526eda65a3],
    [0xd76e7df0e8f12d47, 0x82eff3bd9073fd7f, 0x56bb63f04c175c16, 0x2e1e2e2f20659610],
    [0x66fe3527174f6bb, 0x2c171711b1d12d1e, 0xd76c92eed0ac8a11, 0x2eeb27f0c5a205ea],
    [0xd0e8079253f2fcc, 0x1adb0ad4897434ab, 0x2894e5d6f3ea8d5, 0x46e7d8895837a4a],
    [0x647c3fd4712dfc84, 0xd9c1e0aab055268e, 0x297f3ec0ddf5e0d, 0x2e2c801404eebd3],
    [0xc9f5475ab7ddf80c, 0x4c45708f0bb0616d, 0x6abf1036e3a24051, 0x2644c801ffbcdb79],
    [0xac5ef937fd23f145, 0x69bf0b742ae678e6, 0xaf5de8922eb66fae, 0x18d459655484dea4],
    [0x8c146a0bd11872f6, 0x54b515547f9cdcd5, 0x9be54a7e8a47efc6, 0x1c76650a0527fe92],
    [0x5231f9611ece2c22, 0x3d69f9298fa25b9d, 0x29ed76acc28bcd29, 0x9da7079e3ff6323],
    [0x4a75fc5d2435df46, 0xd8adbeb53c40aba0, 0x5e2f22bd47ab4041, 0x13bf5098cc05b103],
    [0xec97d3e0d7460d27, 0xed4561b268751a20, 0x922e4237fd65bb83, 0x78a3fd180d76eea],
    [0xb512ebfc7bc2c7c2, 0x8978ef2322f2d64b, 0xe878063aec6e21ba, 0x197b13f8af70f642],
    [0x81b5d4d0dc1b7688, 0x2277f07d8980c545, 0x375ee4efca4dbb74, 0x8552774a893c4dc],
    [0x54a5794f68460c83, 0x597333320cd815d0, 0x6367799a20c37944, 0x3a2adbca7945b9a],
    [0x8f7f9493f84d413f, 0xc76de761b1dc6e78, 0xcdd22a9c3ba80290, 0x131560b779c80ad8],
    [0xf82c17037b1de5ff, 0x26a085c84cd31655, 0xe99247b23f9ae065, 0x1f478986f1820203],
    [0xbb83f789eaeee5b9, 0x63081a7af43dc5e7, 0xaa77bc8baf4983c7, 0x203f12fe19f06fae],
    [0x66bd0f573c1b7b4b, 0x78518aeabd02fc3d, 0xd310bbce40e0447c, 0x15580d2d80baf18d],
    [0xaab4f575a88c1ddf, 0x1393c9fd263cebc2, 0x9f404c4f2a4794c5, 0x28d575bf09788e6c],
    [0x6470d2293471231d, 0xf670a61069cdc34a, 0xb107832457fbbe5f, 0x23d3b9deecba2482],
    [0xa0100143979a18bc, 0xbe7fdd909cf17d91, 0xa1b29c483eb4a3ac, 0x2d865f77a39255ae],
    [0x36ba222397269a5a, 0x12003e5c52043c63, 0xd3c9b6072b20b63b, 0x2339c682b7084d04],
    [0xa857187d579b606d, 0xfcf71bea4228f8ae, 0xe161cfd91ca86ac2, 0x11ce8d6554294777],
    [0x7c61cc6189ad3f5e, 0xb35ee47eb92cdbbd, 0xdd2deaaef6e04537, 0xdfce2c65e220994],
    [0x160561d276c83482, 0x693a118daae6660e, 0x87056f988c7caa44, 0x2d9b07507a9df2a5],
    [0xce6ea211db294991, 0xb0c884c7f82b9aeb, 0xcdd019154fc49774, 0x2ba338308820d232],
    [0xe8af0193f07a5669, 0xb212c3a4503557e6, 0xf6a0701a3179b502, 0x7039d5dc74b4dd2],
    [0x4df28b0a4e9303ab, 0x669570858ac9b207, 0xaf278a0b62247a6, 0x3a1fee4f5ef14a5],
    [0x9ae4a49a7bc37ff9, 0x4e641660e5a48f7, 0x7214cb2724b4c8b9, 0x18837bc92a8af3d3],
    [0x24b3191c05552e8e, 0x7ae9e68fedf93c4c, 0x423c74fc864f5707, 0x2103a7704b61ecef],
    [0x22fbe2a1dd096b76, 0x6e7d172bc263bb5b, 0xed4e931e25aa4257, 0x15a78c5f1d6e0176],
    [0xa7360c435feaa593, 0xac5a1b39904b61f0, 0x246aa0b5091a7f33, 0x2b9a6b170ff9ce22],
    [0xc2fee6d1d8248c0f, 0x588de1df3ac866db, 0xa1d003b5244fbb85, 0x2a39a308231582d0],
    [0xf0eb0c269b0e14ff, 0x2c3fed64f7b568e1, 0x4834663fcc1e38be, 0x2cd36c4bd8257cf7],
    [0x13f2e2982ce55e0a, 0x82488808f988fd0e, 0x34c42feab79507a, 0x17607b33a1043bcf],
    [0xf7365ee5976bcfcc, 0x33b2392ef742470f, 0xdfce7517b6746ac0, 0xf4b71f3763666a3],
    [0x5d78ebfa34710afd, 0xd2b1f252e7781738, 0x7986b75730418fe5, 0x2c90b4ad79e2316e],
    [0x2ba1a6b8cd12c8e8, 0x4a4048f4910d1704, 0xac866e0228c1b346, 0xcfcb2e3744279ef],
    [0x9aa0c9cefc66a65f, 0x385540ac1d7e42c7, 0x38076cdd9df36cc3, 0x16b1fa736396549a],
    [0xf2dd746cd1347d35, 0x98a6163ab9326f25, 0xf34b9b4866c954e6, 0x188a23c2b448e79a],
    [0x33382757a15de2ed, 0xd4fc82700acd6013, 0xb23e4b968ba0b6bb, 0x9f0706eab57f151],
    [0x4bd5243d90c788af, 0xaa35b7fcea712471, 0x72076f34db3ad823, 0x254310df353b2d1c],
    [0xfccf23e9aee0635d, 0x31e2db5cfbacce3e, 0xcc7da399cf751f05, 0x253af96dc191b1dd],
    [0x891236cde4c2676, 0x7c8c60944d1be7f6, 0x65d5e41b0bf6f991, 0x316258271c5c2be],
    [0x7dc0555ed1eea61a, 0xfeb5a41c6485aca6, 0xb29b984f6e4bd97b, 0x474c582c59ef66c],
    [0x5234e969036ab5c0, 0xd9075b31b128fa3e, 0x73d6e08ebb984eb5, 0x37b5beeecf060cb],
    [0x8b1e82fd1d19525f, 0x9cb072518bda7782, 0x34d9de72d06a7c2c, 0x2c90418c775ce44e],
    [0x1df20c55c6aafa4, 0xd33c3d3cf0d9ff86, 0x3f3fdd11a2ae8e44, 0x6fa7b6308e44857],
    [0x4e17f130d2989e9d, 0xe856c718ff2b8f4d, 0x6cf5484db2e52083, 0x275fbe17c666f61f],
    [0xf84d960cccb940df, 0x61c7de7c629d9a5e, 0x9bbe6431305ffeac, 0x24cb3811355775bf],
    [0x571a02a8ecd6e78b, 0xca497cfac4a24ca2, 0x401446482b3ce891, 0xf5008caa5bdfda3],
    [0x37c4f1788acc1252, 0x45446638d83fadcb, 0x5d322c13c676eb46, 0x1cb09fac67632364],
    [0xb9a11d1241167ef1, 0x1d102a4e4d569b40, 0x914899901e7deaa9, 0x1e7d6dc15eb4669f],
    [0x2df8935a727808d7, 0x7349013eb3047298, 0x72e1e11e0449fca3, 0x23c2a54a64588d36],
    [0xdad8b1a813dd9445, 0xfc2478b3817bd7c2, 0x6a052a7fe6a3d111, 0xbd6477a4e98ed1b],
    [0x856b0e2dad8e1b56, 0x396cea0f4fe4c04f, 0x2eb96d20f1134177, 0x1c67cb4dc98d5f0],
    [0xba4bf6377ae28b69, 0x1993aadfdb529a9a, 0xd234e572640f6c73, 0x65cc505a691aef],
    [0xf4c48db58e325225, 0xdacc152f86db157f, 0x35bc2ad77d91af14, 0x118fc51eea37540b],
    [0x5eac1326e93f7a46, 0x2781bb18ff1a7c88, 0xe72523914eb33d6d, 0x1cfcedb53846d090],
    [0xe104dbb6889f8a9b, 0x8c2aa514cb22b4b5, 0x61be5ae1f2dcf4c3, 0x2390d163c2c0b5d4],
    [0x57ac34b643a3ec15, 0x71dc8adf83e53f52, 0xdd240398690408ce, 0x17f57c813764e728],
    [0xd77e54c9d9061161, 0x560d506a8d10973, 0x3ec524ff58f183ee, 0x257540e571a74fbe],
    [0x95b5cfb892bae4f5, 0x608e260007589d71, 0xfff4ad995eb4a9c, 0x427946475c0460b],
    [0x78128c7f18ad5e7f, 0xe466f739715e92c2, 0xe0e6bfb95f1974ef, 0x263d998161f060ae],
    [0x619b73468ee8eb57, 0x5ee916469ff5e23e, 0x7f9f34faaecec3a5, 0xbc8d092c5d38d08],
    [0x70451d2cbaeb887c, 0xa25d3d269e036e27, 0x954185a669c63c9f, 0xe25546d7af425b5],
    [0x1baa3fd6fe98b51a, 0xb079a25f242578b2, 0x59992e6dedb5a144, 0x1c371f42917639fd],
    [0xc5a6a21934b94c9, 0xde3d633d11bc4a54, 0xeb13e2e146e0deb4, 0x25a8f4490a5df4e1],
    [0xe502def3d839f2d0, 0xa6377aaeadc7ac22, 0x991bc228242822e2, 0x2aaef152c413b4ef],
    [0x3d28fa4c1124b5bd, 0x349606a1959751d6, 0x9811b6e838f5563b, 0x29efcd78bf5b6b7c],
    [0x3a42aac8c5cbf177, 0x589164f9a648f48d, 0xc89f6fbb98bf69d, 0x2a4d846435808480],
    [0x15e9275cb67907d, 0x1de9cf42ea3cbe83, 0xd032feb1aac14390, 0x21c9120f90988cff],
    [0x7145d69af66e13ef, 0x9db6bee6f478edcf, 0x7c3f143418c11a2f, 0x2700ff01dce09280],
    [0xba8fa44817d48fea, 0x7f916d148a7c3ee3, 0xd7be1355de11170b, 0x2652e1e037bffec0],
    [0x51894b5d2e28aedc, 0x52d2ed27eda2fc0f, 0xa9566bf29eb75069, 0xad2c3c083a08091],
    [0xe0e0ed784115d94a, 0xe1e546146198b764, 0xc2f9053be37e13f9, 0x2488b89af9d856eb],
    [0xcde23856a654b6fb, 0xff43e5dcabda257, 0x7373d118c0aaa014, 0x2bfb96f78ef7fe04],
];

/// The values of the transition matrix for width 12.
#[verifier::opaque]
pub open spec fn p_vals() -> Seq<nat> {
    limb_vals(P_DATA_0@)
}

/// The transition matrix for width 12.
pub(crate) fn p_table() -> (v: Vec<Uint256>)
    ensures
        v@.len() == 144,
        vals(v@) == p_vals(),
{
    let mut v = from_limbs(&P_DATA_0);
    proof {
        reveal(p_vals);
        assert(vals(v@) == p_vals());
    }
    v
}

} // verus!
