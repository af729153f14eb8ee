//! Constant-table data for state width 14: the flat round constants,
//! the sparse partial-round rows, the dense MDS matrix and the
//! partial-round transition matrix, in row-major order. The constant
//! arrays carry the data; the spec functions read the same arrays as
//! value sequences, and the builders return vectors proved equal to
//! those sequences.

use vstd::prelude::*;
use crate::field::{Uint256, from_limbs, limb_vals, lemma_vals_concat, vals};

verus! {

/// Part 0 of the round constants for width 14, as little-endian limbs.
pub const C_DATA_0: [[u64; 4]; 182] = [
    [0x32df920d6db5164d, 0x8a3ce41082c15c76, 0x47879576d30f1f6e, 0x304c29aeb6f18738],
    [0x6fdd1c7c87d4c40c, 0x7109069be27066f4, 0x9b3f8bbd0a86ae41, 0x2b7380d8b25bca64],
    [0x63efe591eff302f7, 0xfa7e8775ba1924e5, 0xb8a3d334f69ae5ba, 0x4c77200e5494b1c],
    [0x5e482bfa10e34fc5, 0xd027637aac41bb3, 0xc3ac1576486e61ab, 0x6c0b8966df93080],
    [0xae436e1d090778d7, 0xce1980a5a5ce2d07, 0x40dbff590225f251, 0x24c73f425903904f],
    [0x4d3c3ee45e9b924b, 0x26c46724a58d6884, 0x745ce53d5d7abb5d, 0x23df6f6f4448273c],
    [0xe5ea8a5136bc2ee9, 0x8189b955d0579b6d, 0x8e937566071b84bf, 0x1dc1b1ac38928018],
    [0xd848a745bd569180, 0x43917cd4919cff64, 0x28b8140f1444720, 0x27f71c5ca774ce20],
    [0x4e61b51dd0d2e2c7, 0xe9d15a72cc7caa37, 0x836b98783e15eb6d, 0x22b2ee53b302ba2e],
    [0x4a2ca4df7c7d766, 0xf9ed257c098c9fdb, 0x86d7b411d6acc280, 0x254d85065f87271e],
    [0x3cfb0b3bb8d5e754, 0x46899f37a54abd05, 0x81e098bd2ec62beb, 0x28620793f378bfe8],
    [0x821acd3c699cf061, 0xfa0ea1b202eb0846, 0x4f38fa30ee5c648, 0x2c19f26d0836635b],
    [0x98ba9fe0104fb445, 0xa10849fb04d33228, 0x7c28bfd7ac38ff3b, 0xf9ed87e9a1ba7ee],
    [0xdc20e165b3f04579, 0x15476161ab881e1, 0xe8a123a1641b7258, 0xd1deff42263b7ca],
    [0x502b66ac77ee3ac6, 0x9c9281b32ad71818, 0xb9f6a02e10ba0904, 0x1ad882b228b5f22],
    [0x9b1e6343c531a248, 0x79e43b7a6acf0757, 0xd0efd1ab4b451298, 0x1822ba8c558e0e6b],
    [0x34d25a809203f492, 0x50cb6c86039410e6, 0x5f5530f10f38a29b, 0x192c005d746c0d04],
    [0x2db858134acd808d, 0xf8a6506746afb98a, 0x2eb8b89b5b573edd, 0x2e9e6de4e745193d],
    [0x654d68af43ae87f0, 0xbd4c2545e807dddc, 0x54ee8b1872dd2861, 0x13373a062c71d07],
    [0x13b341e8198eab08, 0x75c9092ac2ab73b1, 0x1dac7df61fb56cb9, 0x130c94f39a9a07d7],
    [0xe79a1a5e8daff5ee, 0x4d659bb1431f8e8a, 0xc2e07d9ace7b72ab, 0x1934eeb7210877c3],
    [0x54fce91c485dcdf1, 0xa387cf0ce6b88fdc, 0x9ae8b9370816f030, 0x22547365b9069f41],
    [0x4e3f8c9da9faaa73, 0x59e34fca1cfb69df, 0x50ebab5ccd3558a3, 0x108b2099b7264eec],
    [0xfaa878f378eb200e, 0xa8f9a7fcdb2aaec5, 0xfb01b7f8e3bc585e, 0x22b946f1886cee07],
    [0x8b55613542874681, 0xe5c07377cbe3ba16, 0x9097644d8fa861e5, 0x229337b2b316c27],
    [0xa521b62665af7451, 0x975f5c25d64f5cb6, 0x20344cab9a7f792e, 0xe9283cb85fa8001],
    [0x1aff9a85f30f5163, 0xd1b0bd90bc84be29, 0x1af9a335159df07, 0x112956bf9c763ec1],
    [0x73527d37365c4726, 0x1ee625cb00aef92b, 0xd12d5948690653ad, 0x26f27df4fdaf33f3],
    [0xa7472897a84e4b3a, 0x1d33b25534127e98, 0x2bb78403cd983c6f, 0x2ed4c4b73e254762],
    [0xc1b7423ca05b0cd, 0x9827086a0c4dd657, 0x4de2b846076a801, 0x9f0108ead7dd315],
    [0x79946e6545e9de5f, 0x551d2c4822b59181, 0xbc633f8a4c308b14, 0x1172c6ec16cc502f],
    [0x6dff5ab72f349f1a, 0xb750e7488aa31697, 0x766c5b8cbf414970, 0x26488ee5f0d4f8b5],
    [0x2e1629b51ff10ae5, 0xbb8774b8152970dd, 0x4e39fb198ef96e70, 0x392aecd00da38bf],
    [0x8e6f630a76dfa6b6, 0x1e78d60cbd966fb1, 0x44acd9b9e98bad6e, 0x2f6d971cd5f99311],
    [0x986d0fd12c8317cc, 0xf36c41df07376364, 0x1b9717735bf45464, 0x5a795d1230d3c78],
    [0xd661945e22e5f5b9, 0xe0da221fba18b12a, 0x31e3b050539e6c8f, 0x1e238a362ffe560b],
    [0xb2479af1b3686364, 0x545a077f6215eac, 0xc990a3b1719e2755, 0x35fbe3e0d9d9276],
    [0x13675289b1c6bdc, 0xad5c2feb51d558ed, 0x520e14682efad791, 0x7ed14110e9abeb3],
    [0x69c1d411e11e0c06, 0xada0796d4aa0fced, 0x6a786e210e9536e0, 0x11dad822671724ee],
    [0x4b53f70a3aa45385, 0x508c925f505e44a3, 0x5443ad66a33ce28, 0x110b32907aac8690],
    [0xb2011177dd8e6cfa, 0xb43ea025ec429df6, 0x362a4dbadf39c198, 0x55a8f4be4acd26e],
    [0xa5e16ce6f90d6bae, 0x84b03f7231630dff, 0xbe3ecc5b67ec7c0a, 0x1bce99ccd0f37478],
    [0xb22271cc962c801f, 0x3a0ebf7fdf82a9cf, 0x32a5255dd5522d63, 0x1d61595a714a5f1b],
    [0xf7a670d31695bf02, 0xc3f3f6a29dc8d31b, 0x24aa1e91e606f2a3, 0xde4fba8ef107683],
    [0x118ce4c0de477e3d, 0x2d0c98f3d4bb8a7a, 0x4239779cb83a0518, 0xeeaf11740f27065],
    [0x677f103d2fafdb7c, 0x1784233faa7089c6, 0x955d6284c002427a, 0x25c397489e65820a],
    [0x23e724a946dc50c4, 0x7f69f3eecab15171, 0x9495bd9f58d3a865, 0xeb3a160356c892],
    [0xef8f77aa1fe4c0ee, 0x8e1a28758e9407fd, 0xf6c81cac0bfc8b48, 0x19122ffd9b6430a6],
    [0x6786cbea0899e823, 0xed6d6230739265f7, 0x659365097ddb70ee, 0x770ca4c67aa40a1],
    [0x2cf8db5e42e1498b, 0x4e0575628a7291a7, 0x220ccaf0ecd8f3d5, 0x20cf3df7dbbf47bb],
    [0xde15775957c62768, 0xc2808ffd7d07fd3b, 0x931fa931bf7fbea6, 0x21fe2c9c9625d66a],
    [0xebb2cd9a98ccb881, 0xb4e9f3648afbdb5b, 0x1dcddc993d9d60a5, 0x2ad158bb675ff14b],
    [0x5da9bbcdcd68eaef, 0x8b7ddf87515dfec6, 0xc6cc376c6fbeafc8, 0xf89c7c34499d981],
    [0x8321794b9a9c2992, 0xfe5014b86cd11e8a, 0xd642aa3fd35912fd, 0xd6f33ac650e35d3],
    [0x7aa602c20065caac, 0xb9fe6315476254f1, 0x6fc033c778e5f588, 0x9cdcd7858f27363],
    [0x3906451f3b3d9820, 0x57750a0d6fb2f230, 0x300648a36fd8a241, 0x2bc68e029d800355],
    [0x9aa3dd2cad337601, 0xe3d07dac41d9289e, 0x620c54bc1d32186e, 0x163f8a2427805d02],
    [0xcc72f4c27bfa20f4, 0x105395fa0299e79, 0x8d56b1762d005279, 0x2b72cb042e079dee],
    [0xda0679fff6cbdcfd, 0x676c4a2e6d56cb9, 0x8299fe99133089e9, 0x1aa578a5ee2c66ab],
    [0x79d321388b966dfa, 0x14c436e5926e33cd, 0x925030e6caf0e79a, 0x262d1529ab1e7f58],
    [0x7f636bd4b70617a5, 0xa7ece1ad2003ca72, 0x1b1cf2384d6d3ee0, 0x1aa6b71c17be336b],
    [0x976778362547af3, 0xd57904d91f44eee4, 0x524a189eb5bf41ee, 0x286a8a2c71f53994],
    [0x4a822ff92ff373e4, 0x883cd42d26709ae6, 0xbc2d92b815a5315, 0x37ade52ed2960d8],
    [0x98b4b64a6c499dcd, 0x1f6e73a3a25649ce, 0x2dc240a85b779954, 0xd641f097ab6260b],
    [0x4169184b8ef009bb, 0x6efbac7b7315ff6d, 0xcaab00f4e9be1f8c, 0x1176510cc674b0f0],
    [0x2b0492c6ccd15642, 0xca84008abaa71688, 0x15d122ab39713848, 0x29b6783918f37a80],
    [0x75747d35cbc40ebd, 0x67eff815e928fb7d, 0x2b90428fb4feb59b, 0x28a8be58f110dd8c],
    [0xc5fb2314d0728a9a, 0xf9211b759f62fcab, 0x377e8358c3205d23, 0x183f2632e3ca6ec2],
    [0x490bdab3eb43620a, 0x7066a79e2c7c83f2, 0xc2dacdeca2ea990f, 0x6aeb9e100b47eac],
    [0x1c6cd77de4ceedae, 0x9bb63ca375489754, 0x8f3576d403fef09e, 0x212949467cdd807e],
    [0x25d53b8d4c626e70, 0x2ff9d186cb230a0, 0x663ca49fd2aab934, 0x1858f747bddf594d],
    [0x8e368e2e8bc0150, 0xdc27e8663e355e9, 0xcc03800b82170706, 0x19a293adeb09485c],
    [0x28ce8a38c7b0abf8, 0x4326b7faf040a486, 0x3a184eb3aab7f2e1, 0x1d4241ed03827926],
    [0x8e513d57055d8bbf, 0x726b055dd19bb5a6, 0xff82734223e5999c, 0x1692838188071f73],
    [0xdb19406e8bf24efb, 0xdcde39a14b00f45c, 0x88fb9eb5f7454ae7, 0x81d819dda57265e],
    [0x10a0901a9dfbe8aa, 0xd1f53a145e26e7b, 0xa38a9c581b0d1799, 0x1fa7ad5a2bc799df],
    [0xffabf8718bcc77d7, 0x89e16d68abd763cd, 0xc285011aa53f3726, 0x140107d97554b55e],
    [0x4fa46e71be012ad6, 0xbb36490d2014dacf, 0xdce61bc38b038a69, 0x1aa6e52c05aa7d40],
    [0xe97536892de72b56, 0x99a1474e4dca5158, 0x9ec20277fe09a963, 0x233c7ba71f9e0ca0],
    [0xf212c331b4b1b932, 0x6fab590092c7bb34, 0xf29c20778d24a200, 0x223709deb8827076],
    [0xefbe1cf305a9b459, 0x40731d582c1487e3, 0x565591e16dfe2cea, 0x14187c4e94d059b6],
    [0x11de2a71ee23d803, 0x264a5121afa63556, 0x9f5c95f1cc2e17f1, 0x12d57f9c3775b050],
    [0x36d5f2f73c8b613e, 0x6234f13294c93e1d, 0x5e62cac1ed25888b, 0x23ba06ba8305823e],
    [0xfbcdf297c8f6d1c7, 0xc0fca597d4527ae8, 0x3a4ef0562223a166, 0x9018322b8f27462],
    [0xcf3f9a4063452f22, 0x468a83ac168452c5, 0x238e5287d9fb6869, 0x1a8d0fc5616edc0],
    [0x5b172def7f0b3d07, 0x821e9c9f34f8c8e7, 0xe428900b352808a1, 0x2b1a8db9aa3b060b],
    [0x408dcf2e12f604d0, 0x58cf2739ab9cbb0d, 0xd7718d49dd76525f, 0x14e78cb6524a7125],
    [0xfa93a1fa69f7bead, 0x3c558d0976e9c9a1, 0xe45714bfb76d3fa8, 0x1208b734f978bda],
    [0x94a99b3cffac3d5a, 0x1d817e4b5b945fac, 0xb5235c3f31f9d7ff, 0x26cb6b7c1d65f9e5],
    [0x70008b1cdfa7fb17, 0xe1514cdf175d617b, 0xde96e6806fc0abb9, 0x11344656431a0d87],
    [0x9ad4627e53aade25, 0x7f3344f5b4164d1, 0xf231aa7e551f6d72, 0x28180778e94d900d],
    [0xd6c5cce6ffa65277, 0x75a0716db37ff072, 0x2cb2e9bb2ae6bf3e, 0x1497cc0587aa9a66],
    [0x179115ad19817a1f, 0xe2291aa2f49d4628, 0x597cdf4ea98b7a22, 0x1155b889f1798c1b],
    [0xb0149ed7d7e0268, 0x4a00a283c8e9567c, 0xc613bfeface12964, 0x136bcfc49ef4ecf9],
    [0x12c5375994d2da9b, 0xe652db2f76ff6702, 0x1d85a4681682551c, 0x2c94ea318df6e313],
    [0x66ee1a7172623cce, 0xf6ad4abbf3f8f19d, 0x285159e1655d70b5, 0x11a008577edb87e5],
    [0x4124417ed2016a99, 0xdeacf5aed297fe3e, 0x126cc175743b09b5, 0x14262b879f58b553],
    [0x6b49d7d390c92658, 0xe971d52a586e9410, 0xd613d57a3a713ac1, 0x338d86b8e84fe8b],
    [0x656d718b87c14c36, 0xe3d379f347930fbb, 0xc49ec27ec32be37a, 0x1ad169875101e162],
    [0x9131f818df850f6e, 0xb3a36428d90443dc, 0x6fad4a166ee216d1, 0x1e33654824c915e1],
    [0xdee3aa1074db6d9d, 0x76c5518c8a812295, 0x3866a07f4788c494, 0x23d15701d8f5da05],
    [0x5409c883423948ec, 0x2c9d47dd0161bcd4, 0x5c21db4d71bba1, 0x2d2fba372de705aa],
    [0x50b270eece90d67d, 0x3042e6df90658c23, 0xfa2d2630c612f861, 0x168371dfb98b380],
    [0xead4aaced85fa01f, 0xe0f2baf839488591, 0xc445ce46a8518b56, 0x412112ecd0cac61],
    [0x374c87bc09f75c78, 0x1a0f05e2ce5ac18e, 0xeef543fc17fcd7dc, 0x23ad0edb1f4fe974],
    [0x515525fea4278eb8, 0x57c7b9d4b2780fb0, 0xd7c509a9dab4ba2d, 0xed6be3eeb0b9147],
    [0x50971a68567a7b11, 0x98ed0cff6a17069b, 0xf51a7ea3cb473a6d, 0x690d08198823c10],
    [0xc761757e2137ce3a, 0x4ecd1baa6badb44b, 0x7f67db3206cd5da2, 0xbf5caee488cee88],
    [0xc48f69f77edf0a17, 0xf7219f85e8855975, 0xdd33221944b9e285, 0x3dc319068295544],
    [0x4d8a75722f2621cc, 0x352bb6fdc6cb2dfa, 0x11e55931b51e5654, 0x164c0f9fd358e2a0],
    [0x6f2ac92cf230e6ea, 0x368fce8724ca948f, 0x9e9397e09c9eb10e, 0x7e8978e88b1c078],
    [0xa67158838cdf1593, 0x2ffd90e1586ca41f, 0x67b3cd96e18dc3c4, 0x22c5462508c4808],
    [0x3e28f6ce3a22dec5, 0x5b43db4f5c6b91c7, 0xfb18178d05f05434, 0x922b97a92d6a11],
    [0x20f6226cb54bd44e, 0xeae6c4200525217a, 0x7dd6d0da342e4327, 0x17626303d1bda8e4],
    [0x409a7cdef83b5ae3, 0x88b23f6b00acd7f6, 0x39b31ff87fb1daaf, 0x16ed2d702c6f8480],
    [0x53072f788feca6c9, 0x9f8f89050fb74cc, 0xb55d27edb09ce264, 0x1d9552a42def1750],
    [0x862f77b322a32dd3, 0x5c77103de2e6dd88, 0x3d4df37c1b20d196, 0x93f2eac6c08b0a4],
    [0x299043914d0ebda0, 0xe47f0e11de2b371b, 0xeb8c0b03db31f559, 0x63648259abf1b9f],
    [0x2eb1ed27da9deaef, 0xcfc04f800d55f156, 0xd9ce7c02dce89712, 0xa8db8ae7570818b],
    [0xf132f9e9dd3fc7c6, 0x387701242ee2281d, 0xe12910a98b2b8ae5, 0x2addd8a7fa94a011],
    [0xf159e76f9023dea7, 0x817547cf26ef3eb8, 0x6668946fab08eac4, 0x82532cbc9a72e05],
    [0x49afd70465c9b557, 0x6200b6ae69d464e8, 0x742c0f0785daa272, 0x2abcba0aaec141d7],
    [0x7d61450a2fc6d685, 0x4b418cf8a8e349da, 0x6902e3fdd0562c50, 0x113ac02d59778ac9],
    [0xdf02846ee22331aa, 0x5c5284ba09de428f, 0x2dc7567ee718853f, 0x193a7f639d4ce4d6],
    [0x3f8cf062e47e95cf, 0x69dce86805aa47fe, 0x9c8e7ccc9b5a35df, 0x76d49b5c0dc78dd],
    [0x3f6a07fee98695e4, 0x47b14de73751aa1a, 0x12ae94b87a024117, 0x23051faea37aac8e],
    [0x139ed49c9647b737, 0x3c09dc8070b2e0cd, 0x24120441bb6dfb11, 0x2c3a84859c46bedc],
    [0x32c2e6743de59deb, 0x4c93c33c700c654e, 0xb423a9468d2935c1, 0x165df45e8460cb7],
    [0x5f3024da67121454, 0xccb07b2518594c4e, 0xb53ab72ad31fc24c, 0x243c1dcf2e801df1],
    [0xdeaef66e929bd859, 0x3e268cb7f6aef272, 0xc581212b431c20cb, 0x2d4f07748851869b],
    [0xb9c50c3e8074aca7, 0xa152d37d88949e15, 0xe6698e7f51553ef1, 0x1445dd9248e8bfa4],
    [0x21cb8756e8e09642, 0x11b38a15ca9c3fce, 0x23432d31ceae2f8b, 0x3f3128f5fceea2],
    [0x702ef172b5ade467, 0xc06fad66e64d5e09, 0xf369a966151ddfc5, 0xe574b6201e927e5],
    [0xdde0cd322292aa4c, 0xc2187b28f714e56c, 0x1737eae2fc4c3bdb, 0x784b51a7ae1076c],
    [0x9c1833ce59ce5ff7, 0x5685ffaa658927c0, 0xe3fa81294f3a64c1, 0x289012d3d1fb3419],
    [0x5c6558e0e3da22f3, 0xa711c712284c4569, 0x5d55166908beca23, 0x2bcf3e35ab8919e0],
    [0x4ecac57461b75b6d, 0xbc2e587e7dbb89da, 0x61d978330cb95515, 0x3df5cdc10feafd3],
    [0x35ea12da61b7dcd0, 0xc8fac9938dee95ae, 0x7015b3f68d35b557, 0x19dc65b4afbaa812],
    [0x791d77d03bf016c8, 0x9535d00adc596916, 0x24da2e7622bc326f, 0x1fa279d539fc9bf7],
    [0x41987754dbfcec17, 0x1971d1ad373ed6e0, 0x8cabff18944f0552, 0x237dd96ce0346985],
    [0x8117315254f568d4, 0x6447a080f3ccc60f, 0xb025a716ad3bcf1d, 0x31261638cc3762e],
    [0x30a9400365bf61a7, 0x25637f19af7ed441, 0x607af2e0a214aa7, 0x24fb403026e1016],
    [0x283233afff57521a, 0x66c4f36ca634e94b, 0x5d7a950054777963, 0xa773f9bbec6c35b],
    [0xc2661b3053278580, 0xe828852f40698afa, 0x26b880f54acc39f2, 0x2ff29b7dd04750f9],
    [0xadccd3ac0c6492e8, 0xc5b4394d627c2668, 0xe6625d113049c46b, 0x1555a820b4069893],
    [0x8c4627b4afcf8fd0, 0xad5d99d3109d23a1, 0x129e7d37a5e2728d, 0x2a5d25cf71c81e5b],
    [0x75bcec29559e8d51, 0xaeb25adc78cd029a, 0x10ec9450ab388da7, 0xd749c5dedcefb19],
    [0xe496d8ccd6aa8ca5, 0xede30969481ff2bb, 0xef838322058e7bc8, 0x2134979a55dad645],
    [0xf6a52e73a70bb6b, 0x96e4ce5beb97665a, 0xd8cfb783cff4c2b, 0x1a5d28f1ec79a8a7],
    [0xd9cff038fcd7bc57, 0xcad0b338bae217bc, 0xbf5051a571374c36, 0x2248fef1cc977b18],
    [0x6c6d6aa63ef50088, 0x6c0a1e77112d6ac2, 0xc112d7a9f38d2220, 0x1a3105c3234d4afb],
    [0xabd0c0a78ddf6ae4, 0xc197ad77ee53d02f, 0xb9e8b3b4f13a44d1, 0x6ff45e6cf264bdc],
    [0xb51e01d1444b8f91, 0x5bf98cd32d5c18e5, 0x4f489953d428cad9, 0x7ea34caf7f9c973],
    [0xb8002a86c57f1f92, 0x1a08dbb42cd72852, 0x7d4e6723a798e764, 0xbb9bd4ea562fa88],
    [0x9ebb4893e4ca121d, 0x6c5d037afc0957bc, 0xad37e72eaf884f6c, 0xbe1e28fd888e42f],
    [0x3c497d1affaed055, 0xbcf32937a8c2abc9, 0xe7e7d92d6345da11, 0x1de8955b5f752e29],
    [0x9a4d1857d6a9cb5e, 0x842d6b7283864ceb, 0xfe203d8d32fa61d9, 0x140faed032e51900],
    [0x4756356ce5cbe131, 0x7d36faf59e2a1913, 0x72ead1b3438668c5, 0x653a45ace7457b4],
    [0xcc41ca0849a1a7e5, 0x92316dc57da6613e, 0x1a1e36cd9114fb78, 0x6d23369e024dfc3],
    [0x3d477897b91adb19, 0xde983d04044a6602, 0x7cf00f256609b029, 0x106a234f7e4c5d09],
    [0xaa06678b5a9b8bd4, 0x8bd66f9b3d691396, 0xc20db872cd6e0de, 0xd5907c353b67454],
    [0x3b66c2b1f52dd14e, 0xba809a92308ff5f6, 0x6aebcebb9cf185fe, 0x1c8cc4858cdcd5f3],
    [0x67597b60e8cdb3f7, 0x1e88f83d488d8a05, 0x614ff04e50387202, 0x18709a5ed55ee4f8],
    [0x1b99ddd7e2ac25c5, 0xbe531160e75ae940, 0xdcd5f46fa19973e6, 0x20573eb7a426d39f],
    [0x8fab5a9bfe17719, 0x54ac1e7de44ff137, 0xe23aec11f075769b, 0x1b68b1cebbf59b96],
    [0x589207782f702b7d, 0xbf19fba43425c3c0, 0xeae0d00add965f95, 0x1e74628fd280b451],
    [0xba4b34ccc484b478, 0xf630525f9c68338, 0x3494ca2bab97f2e9, 0x1adf6672bbada9f8],
    [0xd09aa5ae97a50db4, 0x61a7ac09a320e394, 0xa85f65a0ac159134, 0x6ba3daddf68d283],
    [0x10bfebd39f14ee66, 0xd22ab29d4f1d579f, 0xf27820d0a9ca552a, 0x23613483e811caca],
    [0xdf2843528e363db7, 0x5e0e682ec1d01bd6, 0xcf17f631a9291fce, 0x5ba1370283ba319],
    [0xbce4ca8f466fc589, 0x8c229ec60df85a30, 0xcb376e0df81b196d, 0x130a1c1a83e91a21],
    [0xd0a90a1c0292eca0, 0x71b0829a83392e6d, 0xaed17084d5fe12d6, 0x2ad745158e0bd5],
    [0x40e25f94044e0aef, 0x61e6d2d6bb6d502a, 0xd8234d5fc4677377, 0x1a4703eca8fec84c],
    [0xbf55443c667bab4a, 0x2bd48641e29f6402, 0xd2c9b6664dd8fc67, 0x17eeda53608b4be7],
    [0x85673b4837ae2627, 0x8a384c4862626ea6, 0xe73d9b70b729ee9f, 0x1af9e7886090fcbb],
    [0x3797c674fccb5fda, 0x7df828c6b32776db, 0x5c95dfd44889ef4a, 0x2c300d04412f79e1],
    [0x13179fa7afb8232a, 0x207b3c6e44b003bc, 0x39aa8a1601c5ca44, 0xf617c15c41c424a],
    [0xc058ef275fb54295, 0x3403fbd9ff420411, 0x7f26004f753a82aa, 0x280e6721e233a91f],
    [0xbe5e702d51c53f23, 0x7ff1fdd8c63a9fec, 0x3ef3e9d7d217d4b7, 0x391c3b4c6aad320],
    [0xe86504213b17fb6b, 0x4703aa085f45f590, 0xd3ec84ed7517d5fc, 0x203f9c14aedd6319],
    [0xbc46cb0fb450d424, 0x60594ad3bd7fe120, 0x8b75553ddf18278b, 0x10842bd57c470e71],
    [0xc09eb0ccf3fe88a8, 0x55a93645784b5219, 0x22e0fce46eb97836, 0x30250c77a64030f3],
];

/// The values of the round constants for width 14.
#[verifier::opaque]
pub open spec fn c_vals() -> Seq<nat> {
    limb_vals(C_DATA_0@)
}

/// The round constants for width 14.
pub(crate) fn c_table() -> (v: Vec<Uint256>)
    ensures
        v@.len() == 182,
        vals(v@) == c_vals(),
{
    let mut v = from_limbs(&C_DATA_0);
    proof {
        reveal(c_vals);
        assert(vals(v@) == c_vals());
    }
    v
}

/// Part 0 of the sparse partial-round rows for width 14, as little-endian limbs.
pub const S_DATA_0: [[u64; 4]; 256] = [
    [0x33f1bb2030feff68, 0xff0bac5e242673ae, 0xf244d3d014d1a0e5, 0xe30a774c353a2cb],
    [0x323c9a792c5776c4, 0xc8552cf37d7be9b4, 0x11ac327a432aee9a, 0x1578623ddfe3033],
    [0xeebc2b799fb1d978, 0xabe4df372bd9aeb5, 0x9c2d9d8512a80f5, 0x17536451518c2652],
    [0xc0bc7674c733a157, 0x1cc80c64973d8972, 0x6fff7dbea3215f6a, 0x1025b7c8b5b38ccd],
    [0x4268322c282012e, 0xd538750ca9818e2f, 0xde217f3c2583bf35, 0x1a7c14617cefb39c],
    [0x4eafb7c99fcdda8d, 0x1deecbf2c8644163, 0xb78a621467540536, 0x27993e8fd8e80385],
    [0xd6543801ee3c974d, 0xf6f51713924eb3e5, 0xda181caaa6d42837, 0xeb7c2b5ac700501],
    [0xefb281956250b170, 0x2c41988093cc7f4f, 0xaf14a56f8eec32f0, 0x22313b179534e4b6],
    [0x1c0a514c4852ca68, 0xa48dd0b3707ba3cf, 0xcfb2560b2b169e12, 0x277988ddf7fa2ec],
    [0xc83f1b7d99e6c943, 0xd98630c899aaa00b, 0xc94d20c37a877bd, 0x2aff90506172c430],
    [0x55e361068216f859, 0xc336d57b4ec04b1, 0x460d01970323bf5f, 0xad7537b0825edcd],
    [0x1d282a03ef73369e, 0x55a796aadaf0ace7, 0xbb67f04a10a84b86, 0x16573e4361e87eda],
    [0xe77252bc4769a4b4, 0x7dc7dd518eb6145d, 0x70860afe5ef0eab0, 0x7befd625351a2e9],
    [0x4076f4114fa0e654, 0x41819fb85be88608, 0xa3ce4b6df01973cc, 0x250d2c639105c9c5],
    [0xcab1cfa57f634f4c, 0xcbfd915c2fd7da79, 0xae0f3f6b0e3c440a, 0xcd782c85933dd07],
    [0xe4c2a7caca25d18a, 0xbf53938a60a99576, 0x48c17cbe8708eb23, 0x23b6198a0c857678],
    [0x3a468c781f7cc114, 0xb8d0da8b26b85c0f, 0x286a3ab4c8764b2c, 0x1f7e50e68a089b2],
    [0xaa49acf25a307d24, 0x3455448d998e8682, 0x976fb6d05da5f7a4, 0x258ebf40c08515d8],
    [0x1e2856a8fcc3211c, 0x7c58c2fed40ac7a, 0xf2074e363250657, 0xde67b3b49cb60cf],
    [0x8d1cb4197e3e96d5, 0x5e8c1403a7d01f8a, 0xb608c7abed3bab59, 0x178c746273a2650c],
    [0x31f004083f807de6, 0x77084e6177b07789, 0xe5e3739e7ab333de, 0x2ab3c9a0a6988f6f],
    [0x1258de2617f790ea, 0x105e7ec1607de4d6, 0xb14ef5aae6e2eeb5, 0x2d86755d3a375e8],
    [0x1ab891aa04b3f5e6, 0x73f461d2a1fc2b94, 0xd916a1a6347fd709, 0x196725d332dc50d6],
    [0x5a7869234afda829, 0x19f76ec0c556565b, 0xff5136eb2e396d57, 0x132d62cf82833c79],
    [0x84444741d9eb591e, 0x266191da715708bb, 0x860b08f31cd97e4e, 0xae37c618053667],
    [0xf1911b41fd3fd168, 0xcae2b29d2b91ef8a, 0x576a6e1c907633b, 0x604994f68299],
    [0xe8a01d6b094a49, 0xdcbfebd02f3fa5, 0x3aa6bb17e7ec00bd, 0x182aa4ce666d170a],
    [0x33f1bb2030feff68, 0xff0bac5e242673ae, 0xf244d3d014d1a0e5, 0xe30a774c353a2cb],
    [0xb6866cde260a043a, 0x98e50848407cf0d1, 0x2d9cc0a153342728, 0x10f8dbfade79085f],
    [0x31c6eeabf1a65967, 0x84eed51d6f341dea, 0xd02d5cb8e079d56c, 0x1953bff54ebfac7],
    [0x9be046775a8ead2d, 0x7b1926b0c323ea27, 0xac79300aef7ef138, 0x1344c0e662baa299],
    [0xe9e19ba8942feda4, 0x26bb31a72e50cfbb, 0x6b5f3b1630f9a921, 0x2f027dae71476ebb],
    [0xf67562b600568862, 0xecc0404bf73bec01, 0x8920deaa8d1f8882, 0x2b5570a23123c556],
    [0xecab10d829fba247, 0x79e4ceeb25f35ebc, 0xc0c38c7ac3136074, 0x2485dc5ae845e8ac],
    [0xae9292fcf24cf86e, 0x15baccf502a2a303, 0xec9773bdef17a1d3, 0x25b7907ad098b9a7],
    [0x370e921489558902, 0x3f6f8481b2f9637a, 0xd499fd04740c16ae, 0x25bb66388a0f8630],
    [0x99e0624d1ed9651f, 0xe795a9741c004d3b, 0x6999ae7406d58758, 0x2a00221d8edc5865],
    [0x95aa68a734108477, 0x4cacc22011c02d12, 0x1bf165e9eb6c82b7, 0x41ea47bbe1f576a],
    [0x4acd659b3ab7e2ad, 0x9a49bcdbc6b23b3e, 0x39f0671dadb74de1, 0x2fa5eca22a4bfc07],
    [0x90da829f89e0e56a, 0x8a1075dbaa86a9b5, 0x89f86ee6d359ee80, 0x1a103aceb4a30c12],
    [0xea55b4e72f348838, 0x9cfad0e545939cb6, 0xb74cf8f31e3e7812, 0xea6e1b215fdc970],
    [0x9db209805314814a, 0x7e30071dd418eb6e, 0x597ed69a3dcd0246, 0x1017db78c2c1d169],
    [0x8314e2047b669672, 0xaafd288b4f793683, 0x39f303b6e3d02d35, 0x22002c2422ecc599],
    [0x35b45c9d57751940, 0xb3268c2356be9603, 0xa62ff8cdf694ccf8, 0x7c83bfe3e0cd2ef],
    [0x47241b70e3b892d4, 0x58b73a31f14bd072, 0x5c4a79c7890ff08c, 0x256b5d75847a3cfd],
    [0xc139614d9ea30c, 0xd9977a43b185d660, 0xf582f56d0d64aa, 0xaa8d8fe4f42d5ec],
    [0x5c97fe275b42c4b7, 0x22da01eef81613e5, 0xea23c359b337345a, 0x221dd9b914aee821],
    [0xb5d932eab3cf4d9e, 0x79be1563616fa5f6, 0xcf51ae4195cc8adf, 0x7a71841bdf7ee0d],
    [0x96b5e3c6b636643f, 0x9b486e285da3045d, 0xc7419f8ef37cf29e, 0x3f7813649d46bc],
    [0xed143f72cf2e3b89, 0x5b2dbef389d6bc8, 0x8a12b4778ff69d84, 0x2e4b8a3c581c527e],
    [0xe37ed332e26bfabb, 0x4c8ed7a7fbc2744f, 0x3f5eea140959526f, 0x17c1a87f4f960d91],
    [0x79a0c4479af148bb, 0x71724cff7fbd8cd8, 0xc3217988da69423b, 0x2c46585ae9f6cb77],
    [0x3b6339022a1768fb, 0x43596ee6ac6f7e1b, 0xdc4340e7422d79b6, 0x2d54300c647a770f],
    [0xeea7647a73d097f2, 0x6da18b5d6c692d33, 0xed0e7723765850aa, 0x1bfe46241f2211c6],
    [0x33f1bb2030feff68, 0xff0bac5e242673ae, 0xf244d3d014d1a0e5, 0xe30a774c353a2cb],
    [0xaffbad2969721705, 0xe5279c42481e4a41, 0x52e3eb2578ac21a1, 0xe2cbddf65c2ae04],
    [0x2fad1a47c2b9b5ad, 0xfe364509ef89845b, 0x8e61a767b13dee22, 0x16ac1278c3b04461],
    [0xe9dca597a23ffd95, 0x3ea9e42313f8bfa3, 0x7141fdf2746d3428, 0x224149478db068fb],
    [0xe9fec00e9da70f45, 0xe05ec781ab95c964, 0x4ea78b2c38118f6, 0x1a8f0b2c1be34d3d],
    [0x44ef361e6f9fb9d7, 0xe633299b75cd49a9, 0x259a98a78c9a223d, 0x9ac6d36b9a63d40],
    [0xd5406baae536b23e, 0xdb0db4522260a9b, 0x4fb86894b758bc4e, 0x12810af0ee251f2],
    [0xfd5121a7d8cbeaf6, 0xce2762a38331d90b, 0x990df144ce9b950a, 0x13e21a7cb8f49dfb],
    [0x4e86f0e8369aa2e6, 0xb6b771b3a0c8263, 0x54a45c3b9a308df4, 0xbf46bbc35ce9bab],
    [0x3b530414b0e27819, 0x6d922ebee33c024e, 0x55e4ca78722d0c3c, 0x2d3905ba22fd54bb],
    [0x8fc63f4625ddf20d, 0xfe61b3ac9a2cbec6, 0x674fbe1179ca813d, 0x21e94a20b029bd68],
    [0x3ba2a48945be03b2, 0x8a7b91e41061abe3, 0xc36a5ee865c465bc, 0x2eda11aa8cf8a13c],
    [0x4599bd965905acfd, 0xdd46552dee8cd86, 0x9108ca361563f812, 0x1e86878d1a99e02c],
    [0x347637c28e90dccd, 0x951cdf11bbaed2e8, 0x4bd549eb2cd60f2e, 0x213f9fb0da20d21d],
    [0x4f8b1af84c81cea2, 0xfdd56abd0e1bb882, 0x175d047b3badb9ce, 0x9ec04662663c012],
    [0xfa0c900dc0349c62, 0x9dead8b168be2671, 0xdcfb9b5e66d03f2c, 0x2cf6e22ebf6b69c9],
    [0xcf8cbf36e49c9f41, 0xa527642386e6a1a5, 0xae2a623232e8daf5, 0x1cb3909eae030fd0],
    [0x1f8eaab7a4bac880, 0x201cff98ebdf7731, 0x6723ea7a79b331b5, 0x2a954bb1d6463b7b],
    [0xdb2ba0e2a72a3853, 0xbddf42a40813d52e, 0xd0e1b8099acd8936, 0x1d232685a73dc553],
    [0xa076ee1fd84ac652, 0x61f9315fd6c30a13, 0x2013cedab484c8d4, 0x252d795574298280],
    [0x4f05c5afe2742a52, 0x30e9fdea3d600ff6, 0xf08908cadc61413b, 0x2144739dc6440cf4],
    [0xe1b4539bab40f92b, 0x505e4a977f017b0e, 0x490a26be40bf56c9, 0x26d2ef597c02295f],
    [0xc34c585b8b5118ff, 0xf920df891e563011, 0x7e532bf4a9f65a83, 0x2effc6807ad79b83],
    [0xdedeb107be1a99d2, 0x1fb3cef485f2ecc8, 0xcebbfd1d9e6b1066, 0x2e095a7e1c68ccf1],
    [0xd72a467f682f67a1, 0x1c37b9ca4b74c2d3, 0x2c5d979f74cd7446, 0x226f0b52596d08e1],
    [0xfde3460eccf92b38, 0x3197f34a54a5de92, 0x754040db80c2c210, 0x27e4dc61b7f4c719],
    [0x2f7d1ffb7b89c130, 0xf838aac334cc1ecb, 0xfb1507f0ca6c1686, 0x2a0121e238a13d0d],
    [0x33f1bb2030feff68, 0xff0bac5e242673ae, 0xf244d3d014d1a0e5, 0xe30a774c353a2cb],
    [0xcc24fb4bf2099d13, 0xc2f753582562ace2, 0x9099b3b1c2820a64, 0x33c6d4d77acdece],
    [0xe54775a94bdf1954, 0x4f45712636cf0171, 0xb9c190787757dc06, 0x8158a4f4a451c60],
    [0x3692b3c1171294cf, 0x1896f0199ba927f3, 0x17c0385617d21b4c, 0x1d18e0af711abc66],
    [0x42298e445cd1e516, 0xba5b83f810b1c2be, 0xf826623c99e25cc8, 0xc8ff9debc6b5b90],
    [0xdb87a479a63f5055, 0xe0842864cb89a42f, 0x1d200716e916cb97, 0x7455ff7474bf251],
    [0x73e652180dcdd65d, 0xfc792aebc1cd37f2, 0xb852f826d4261ff6, 0x2b796bc4350006ff],
    [0xa12139450e394dd1, 0x1f3f934c3d6607ae, 0xe2429ba6080b7fe5, 0x2231f46d69ae4d0a],
    [0x20367345f8979dc5, 0xc90fbfee5e8e29fe, 0x4e80fa3e6f3acf0c, 0x2e37b2806360065a],
    [0x442db727e46ff8b9, 0x18b48baf65dc217a, 0x59b8dec0592575d9, 0x1e52b1dad965f7d3],
    [0x5e89412393765810, 0x1d1ddeff9607667a, 0xc866a0ea64d019f3, 0x266f2edefdeedb61],
    [0x729f8a50751dde06, 0x2a1f37fcf2d70b6e, 0x4c1a9f0a2c082360, 0x622b99a4f10e3ea],
    [0x3881a89d2d39bf07, 0x436baaa16cbd8517, 0xb91a9680f4dc15e2, 0x20b6fa4bb93ba74b],
    [0xd363029b7d8a16c6, 0xab7a2d826fb2b440, 0x30461615955d8bd5, 0x1edf9a959b552bfa],
    [0x837feed53448ef50, 0xc49d4046451de035, 0xcc7870bade6df391, 0x2352faffb1f4d71d],
    [0x21a0292790294b29, 0xd5aed4214b9d535b, 0xcb7b2cf40d86e6a7, 0xbb1c8476707800e],
    [0x3d02d5740f7f72fa, 0x6256e7b0ca97cee6, 0x32c6ef9fca6214a3, 0x1a004861dbc666a6],
    [0xdf13936780e452cf, 0x5cffd364b3a48dc5, 0x288e34277bb9d59f, 0x115cc0fb69c30646],
    [0x8ca73a8560e5f612, 0x6d922e259758611f, 0xf2eae178eb85edf1, 0x20b9d6ea816b25ee],
    [0x261d229252d7570d, 0x20e5a849738c729, 0x244d0bb8910acba3, 0x1b7650b9721a1589],
    [0xc7d5e7c1c84bdfb, 0xe2c8d2438e0023a2, 0x9d2c33e3cee3f07c, 0x228969388482a46d],
    [0x87b7d16d586b9575, 0x53a6d4a64b21d44, 0xa0d48654c03d9fbd, 0x1a1c5996f580dd93],
    [0xa2b3c26efff3d1cc, 0x8c34b941f5351ca, 0x3df21d682d24907f, 0x25c69df2d6d1a120],
    [0x4c495e5931986f75, 0x8865e86bbb652a87, 0xb709ff7c98962c52, 0x12848ecece4c7385],
    [0xcf37548edcc00fd, 0x52f470b3e8e98120, 0x9e8aa9115b57abc3, 0x76bd3756046b798],
    [0x6bf9ef62d13ec6a3, 0x48ac6a74a26a6fe5, 0x81cef297a5857284, 0x2884069a9ac91391],
    [0xf2e25ad334f71e5c, 0xa6fcdf03a681acfe, 0x74c5fa155004bea6, 0x7feff811d5e99b4],
    [0x33f1bb2030feff68, 0xff0bac5e242673ae, 0xf244d3d014d1a0e5, 0xe30a774c353a2cb],
    [0x26c5dc223fe31865, 0x48000b7d042aeb5f, 0xd561f12c425d8e11, 0x1d20333ffc3cf745],
    [0xc40ef35803686d42, 0xe1a0d349e3061f05, 0xc519415063a6f2d5, 0x28abbec7c9caa428],
    [0xbfc643c47d476c3a, 0xabf3cf888d9ac500, 0x686830b8234275a3, 0x3a8e10fe7fabee8],
    [0x6c07fbecd3d15a5c, 0xd6e887165176ed0, 0x50468b7a71e26bc, 0x18c2e2dc3d8b832d],
    [0x441ee1a428cf53d, 0x80751590a269f453, 0xcdb0117a17c55420, 0xd50f1334b2bcbc0],
    [0xc7b1b10734945688, 0x1cf08b2f67259b03, 0xf4a063f853d51c62, 0x13806f8807551b28],
    [0x3e75aeaeaf7b63fd, 0xc5bead290a5cefef, 0xa380b0dd6bf50430, 0x2b08fe6c94ebbbca],
    [0x5a1efdee746c5633, 0xc0594ed7b25aec35, 0x8d81c33fed2d02bf, 0x20196101b753985b],
    [0xfbc14d22daa2f067, 0x7e45a0d9f4777e77, 0x4ba8e09393a84d53, 0x3745c143e979453],
    [0x26a6739b65b69299, 0xba74f2340b2cc876, 0x5bdb2030e2656ed5, 0x23e0047f3bcd7189],
    [0x23e1b1ac50af5356, 0x752feaea63b84835, 0xee6df8a327ad7d03, 0x2b7432db324f5d63],
    [0x5199c5f78498334e, 0x9a881baeb117cd4, 0xe37f38ff6bffcfdb, 0x3230e5463fa892a],
    [0x69c25505fbe2f7e0, 0x46f88e9e82c975d, 0xe393ccee1a5d01fb, 0x6d227987110bba2],
    [0xe1a8410602381d2e, 0xa2f095aa784956c7, 0xaf605dda34fe4424, 0x2137c2037b936b9],
    [0xe81f8a76980b06df, 0xccae2e29f16e81a4, 0xad1d365f9278b8ec, 0x1b85811f361794bf],
    [0x88f4729fa471d83b, 0x7f07c41d0d495fd, 0xae1032aa09a664a3, 0x18ce9e29cabc3a88],
    [0x7a465ce543a442e9, 0x23b75d24767e3e92, 0x46a297600420e217, 0x16117eb08d088c31],
    [0x1954dcecd725f03e, 0x6ace56412ba5, 0xdf382f66ed1eaa00, 0x143137a07224a1f3],
    [0x7df7a098608b52cb, 0xcffa4c95c7bd28c5, 0x5a067d5b615b3169, 0x104d16d80f93f295],
    [0x9edfd8d21f3283e8, 0xafed57c6df3948a9, 0x2b3aadc680d663e9, 0x1d486d6cc1ce7b6f],
    [0x58f44e4227b90ec5, 0xcc2badc95e3dcc28, 0x18037e6b8681c624, 0x26b9676c3f4be276],
    [0x44389cba664d9309, 0xb302ca73846a1597, 0xbc835a17a56ce26b, 0x1b9d6e78b161f530],
    [0xb775b07188be130e, 0x9295bcfb97ce888c, 0xbb1e3a3650b9a5f3, 0x133c6470bb5a345b],
    [0x4e014ddaf860cc82, 0xdf64b6aca59cbcdd, 0xc71a3b6be579dee9, 0x2eb4042daaad9726],
    [0x7840ed715603338f, 0xf15614a70e43318f, 0xb17e6bc4b4808ddf, 0x2b7e6bf97ec1a114],
    [0xa3efae84324f1fd, 0xf8cd77b2e4840d2a, 0xb258e4113f2e3bef, 0xa1125917e9750fd],
    [0x33f1bb2030feff68, 0xff0bac5e242673ae, 0xf244d3d014d1a0e5, 0xe30a774c353a2cb],
    [0xcb360575f1d0f9a8, 0x7ec435075e08f76d, 0x163fa449cab77533, 0x28f2406d5b2006a8],
    [0xfb3fb2550d32fd32, 0xfad333f71b35f293, 0x3f405e2418760ecb, 0x2833ed76d81d9957],
    [0x1bd8273c6d13d5b9, 0x28ee68baed48025f, 0x8f42d6f88a166d71, 0x1329680ba1700fd3],
    [0xb25554850f8d582c, 0x3e9d034c1eb96779, 0xb82b4d0443d9b439, 0x2e406c465948d552],
    [0x3da2ecf1e7e9bea5, 0x912ecaec9c498689, 0x732c1226601c0fd0, 0x16870864c7481c37],
    [0x9d5d84f8e2b86e1b, 0xf9b4e8f4c3bc43a6, 0x579b789362d74a6d, 0x16f0206a256a1eaf],
    [0x105b91fd045f4364, 0xe6b03851b33d35f9, 0x7c41de7fd8a44cf0, 0xd3769821a46417d],
    [0xad3232dbc4d0421b, 0x142d3643084a78bf, 0x7fb8bcf2e372a3a6, 0x208072d81c7b1e0c],
    [0x82e62103c2c7a71a, 0x2a8319ce47c9dce7, 0x91a61caf85bdb51, 0x1b00364bfd8258bc],
    [0x36c463acecc573cd, 0x17be3c8118476c3c, 0x4803f9dd0dd5e632, 0x39d9478f244268c],
    [0xf3d89bf60993d771, 0xe15b5c16bcb2121c, 0x7113ca024f835dba, 0x1702787253c77036],
    [0x7b51cb1580404f3b, 0x98a7c179b6fd59f8, 0xdc0b70ac44f1560b, 0xd424c24ab70fe46],
    [0xf5aff238ecbff493, 0x492eae235c05e385, 0x2438d197c9d55437, 0xc8eec67747155b0],
    [0x897436121191ff7, 0xbf43e1bf1184a43a, 0xdc34c434ced1261a, 0x19318a85cac2967a],
    [0xaab198f4d4af2e77, 0x185ff1abc0a44f80, 0xd13e523a8308b3d1, 0x100d0e39b0ac4162],
    [0xe00d02ab44c71cdf, 0x87aca23e7a0a79c8, 0x9d6f164eaaf2cb9, 0x1dc9edb515bd622a],
    [0x6ac96d3bb1b0dc69, 0x1293a6d5dd7ebf39, 0xfba7226f3a7dc66b, 0x2cb0a4d99188559a],
    [0x67e62386ee0aec8d, 0x361c3303bae8d1b8, 0xce40217181c5cf8a, 0x457e9defe2b2e3a],
    [0x8db9b2e1f53e99d2, 0xaa301d220e8cd68c, 0x472d85ceaca537bc, 0x27cb603ef3700431],
    [0x16f4d5aa734df9ed, 0x31bec6e77c94e272, 0x5f8fa4cb4463e56a, 0x2a0f737481bfdbd6],
    [0x65318181d8295ea0, 0x37bdf42ec7e1c4d5, 0x6007d6efa42d8af7, 0x88e30685326b92f],
    [0xde5f2802302c68a8, 0x3c6dccb36bb98177, 0x2fc1436f1c6d67eb, 0x185dee7ffc1c0933],
    [0xcce986f6368d3d98, 0x5295f14ac746057d, 0x5a28af3b621e5015, 0x1a3c2ca9dcba7800],
    [0x99e587c748443f7e, 0xbf5c896b07343a51, 0x46b9b431d69f5449, 0x2c899f8d46c18eea],
    [0xee15bbae2d6b90aa, 0x9e77ee9bfe54d5f3, 0x7f79de2eba33f185, 0x12b7b81c78c7112c],
    [0x70bb76a28995aee8, 0x3f162c0e7cc1152f, 0x604fb12968276180, 0xa9c41fcacf18941],
    [0x33f1bb2030feff68, 0xff0bac5e242673ae, 0xf244d3d014d1a0e5, 0xe30a774c353a2cb],
    [0xaeb228c820e7edc8, 0xe1cb8ec5c30fa4d0, 0x3f8e24328bb79195, 0x18c2c80c193bf89],
    [0x91407c8857b09be1, 0x630cd08a04627093, 0xec9a5d73b33f77e6, 0x840212cc8df69cd],
    [0xa83d67a6bb7cca8e, 0xfacc9958428e06fb, 0x5da9bbc185ddfc88, 0x23a2a69b4c1f2a9d],
    [0xb42b1b44ae48fe01, 0xd425d4ebe2b13ed3, 0xa705df85715600a7, 0x2990a00237ce280b],
    [0xc2caaf71ff452c50, 0xc569390d0463c316, 0xc11836ac54c1ced9, 0x268d4b3af37b5f5e],
    [0x12d317296b1c211c, 0x3309a6710e038312, 0xfc9f696e6c762e83, 0x151286c34d2d1a88],
    [0xd3824aa274e80f4c, 0xbf510ae84c5f0106, 0x26bea09722510af9, 0x5a0f37b771fcb8d],
    [0x1009862ae3aae0c0, 0xbb45ef5b8a91fa2, 0x800c596cf64703bb, 0x2186448573dabfd],
    [0xd6ef95c6ed5fb9ac, 0xb99de1a550be1c26, 0x907c6b414708cde2, 0x27ac5eed415340d9],
    [0xaeb8496971b3b956, 0x49d633c5879f1977, 0xcde629142c30f86d, 0x118baf60eb743773],
    [0x22187fbd9c5f666e, 0x6a104ecaf0d21881, 0x94a00775629d9eb4, 0x2206f4af9dc21a5e],
    [0x406ad149bd30589, 0xbbbc6ca56a4bc641, 0xce56a38552b35512, 0x1874fa5cd6fedd8d],
    [0xf5879ba714c827aa, 0xb16ee9a74f13588, 0xc89dbfeac7b3dee6, 0xf22dcdbfea00f4b],
    [0x6564e32cfd8358b, 0x66d84197b29f0234, 0x972e27701e162297, 0xedf94bf49c040df],
    [0x30c7128c47042813, 0xa741e61e3472bece, 0x751d109a7efcd29b, 0x2d24ceb96532b06e],
    [0xbdf21810720bda44, 0xdf4690f84047ccd4, 0x886b9982bd3255b9, 0x26fb8b8eb2d90ed4],
    [0x6313fb2b78da5b20, 0xf4728e3fc086f3f7, 0x3eac12d290acc39, 0x1952641fff4b5778],
    [0x5d52787faa25e32, 0x4d9054de8c8498bd, 0x4d1ef8718a6e82d8, 0x2233ba51923c1039],
    [0x68c750147df29eec, 0x32e0a60ca3ba0ae1, 0x7fb7e1c9772f545e, 0x10550f7d00d83f1e],
    [0xbba3b5aa7b7f2bfe, 0x8425883abfdde19c, 0x9e3790d2bd1406f, 0x7e5e890c3e62c51],
    [0x92afc27a31e7cfb6, 0xd7395b09b4e4b3cb, 0x5a07af0ed66ea813, 0xd611acfe2f91f64],
    [0x58a166d00e66820c, 0xa79e851324da48e6, 0xee8092b6d11c7bad, 0x1fc4f96fd7c7a69f],
    [0x39546479d26ecb7a, 0xfaa59f2eb4c8652d, 0x228e19064ff33921, 0x10b23d2c5bd7e976],
    [0x3f6ea70a3321cdf0, 0x2c5aac82b8326591, 0xa47425d6bbf4ea1f, 0x2f21166be2ed1b2d],
    [0x126e47cbefdde394, 0x1c1d3c348a0f1db6, 0xd5728f07aa4d6743, 0x2ab0952fb29bbeb0],
    [0x122d3c7f8087639b, 0x995448579647698c, 0x5d3c145ce70c87a1, 0x2a10c76f857e4724],
    [0x33f1bb2030feff68, 0xff0bac5e242673ae, 0xf244d3d014d1a0e5, 0xe30a774c353a2cb],
    [0xa5541d39b3be2084, 0xecf2a8756e9098c8, 0x4383480e2301331b, 0xe8bed4d86934cc8],
    [0x4ecc57e806e9b68b, 0xe7a999c31e66621b, 0x2bea32b8daee97ed, 0xbdb68bb05cbd1a3],
    [0x8eb3c8d0fce018b6, 0xd8a4d552edcef12b, 0xd15a0260a0d19456, 0x1c68215101419d83],
    [0x2cc8d2f2869289fe, 0xfdd9cd0fa462a89f, 0x5ac81545545d2803, 0x14c45f6a32e99558],
    [0x66003ab422a2bf67, 0x8069a6c07b7358d1, 0x62fe56d1991f872b, 0x3c63147df051882],
    [0x4c4b314e68f5f939, 0x53bc45925a385ba6, 0x4d1d6566008eb46b, 0x27b093996711ee7e],
    [0x1d3b14f12c37515a, 0x37570c50f24daf7, 0x94587340f50ff6a0, 0x1a67fc8776cf402c],
    [0xc40dad53cc9ac41d, 0x1aa6ebe497a0f202, 0xd78434f63f92be51, 0x368384bc98a519d],
    [0x19475381588dbe15, 0x290e41ddecf1c04d, 0x8432742589d4857c, 0x1cb8fa7ce16b44e3],
    [0xb04de5d7c4b97c62, 0xdc30fa8ca25fbc7c, 0x69de68f1ac728565, 0x23597b850f364b45],
    [0xfee1b56378548b74, 0x2a9dad492bf87320, 0xe4266a519030fcbe, 0xdd8ff19d5e1308f],
    [0x30272ee52abd43b1, 0x639c024c4d40b2e1, 0x34f33f0cfd2be704, 0x20feb7de1a5e96b8],
    [0x6eb9eb398958c569, 0x44b30a32a86b4365, 0x9b308b29e93bcd97, 0x20885682bab854ad],
    [0x36425ac980d1f4b1, 0x77b49a0eba7cfb74, 0x4b945b1966f0e888, 0x19d3a25bcaa55399],
    [0xf3734fab1cebda79, 0x5ae5c0e308beb82c, 0x74c30e48b6b805af, 0x2ac8cfd84802b671],
    [0xc26e86b304a3aaf8, 0x78aa935820e854ec, 0x72684842ee442660, 0xe7309eb986b717f],
    [0x7cd075a7e3bc332e, 0x63278fa298fd2846, 0x2533c265b264ffa, 0x2bf7eab7ccb382e9],
    [0x4101149a09100404, 0xf31d712601bb6896, 0xb9f2835c418fabe9, 0x83dd2953c55d5c2],
    [0xfefe328d85eee14b, 0xe52ab0e5f138671e, 0x5189a271e1a8c643, 0x714ed30fb5590de],
    [0xe2dc0b77ba06c28, 0x8dec828c71a820e5, 0xd321a3f3fb59dfb1, 0x21148f9fd3b0722b],
    [0x4d9e76bc8aefda1e, 0x40c85e086ec61f6, 0xfa023ed73bdf899e, 0x2232e4d97bfb4af6],
    [0xac791568a7290d97, 0xc3d43f9a7fd9407e, 0xa4a108219e2381a3, 0x2f130c81592d14da],
    [0x259cecc70c6d957b, 0x7b61c6dd8c5e38ff, 0x1e0a79238a6aeca1, 0x1bc3006aeca257aa],
    [0xde5ec1ed4e7789d, 0x53e6bc4c96f0a186, 0xf4ee604c3027dd15, 0x1e2cd754d9765e6b],
    [0x226020fbf1266feb, 0xb91125f6d564810b, 0xd350e6f59491be94, 0x1b03008489762f18],
    [0x4d33e2b3e028c8a3, 0xa60f095650f0f95, 0xae2862f17f4623e0, 0x4139587c94008d2],
    [0x33f1bb2030feff68, 0xff0bac5e242673ae, 0xf244d3d014d1a0e5, 0xe30a774c353a2cb],
    [0x421047b49526bc1b, 0xa4b8b7b54aa20082, 0x469bcb62a9ca4fc6, 0x2e92d0d003478aad],
    [0x5ba57a41d94be782, 0x65d7686171b3dd9b, 0xdc277ed2d0fe8ecf, 0x2fa9f127e186da4a],
    [0x4bfdedba618ec632, 0xe0672f93bc0be11a, 0xae22fece795ab7b4, 0x16b524b227c91d14],
    [0x980fef6deb8d9e0f, 0x4d43d84795422a5, 0xefb7501a87ef7d53, 0x1bae132d3cb67233],
    [0x71935e5184c0b5df, 0xfe2147df88df435e, 0x4fa9633ff3dbd2ac, 0xd64e85826004f52],
    [0x898c3dd1854468c4, 0xf1002b732d48fe69, 0xf06e7f27126e583f, 0x7a8991e9213182],
    [0x52065d5b48e4d9c6, 0x26774ddb20d67170, 0x7e3acea1df2f04e3, 0x78a71ff06f3a703],
    [0x857a91183c634ba0, 0xb9a13ccf83fc78b5, 0x64ba7c35a2053688, 0x2bdbcc0653dff0b8],
    [0xf748221eafa486dc, 0x3ce3fd5f42e3271a, 0x4061061017f6fac6, 0x135c4770b984ca72],
    [0x494264284df500af, 0x30980d6648a10e81, 0x84da484fa0ec1711, 0xbe4b3d77e216a02],
    [0x357b5768bdaa03cf, 0xa186d7714de7cee4, 0xe33f90bf9ac51bda, 0x1d33a1eac83aa2e8],
    [0xa0133f86e9fd280c, 0xe199b13b8d838336, 0xd10de1473bde0636, 0xc80a19a319c0095],
    [0xbbb33daf72e5dff0, 0xeee2e5c6a7cb8d6b, 0x39fca9b108ddf4cb, 0x1fb00a5d54482288],
    [0xe417d37476da91cf, 0x1c01242000e216e3, 0xa19d3faabaf6d857, 0x3428c5cf5139a60],
    [0x8e3459d4058b424c, 0x5d849c6b05a9c6e5, 0x281b5946d1223bb2, 0x15313c7636e93c90],
    [0xbe8e77b1465d6a08, 0xa8e90a14881360a3, 0xfbf39b9db0d3ab08, 0xbe94e5c44e86577],
    [0x5f419a2900390614, 0x9bb1f5d5b2e9924b, 0x1ea226080fa33148, 0x215f4fc3b36e8ef4],
    [0xf24e9ec3f1a21102, 0x7918d0f75e2fa75b, 0x2a9f2739bdb27931, 0x16b0162d774c5088],
    [0x83dfbe594d2a538a, 0x10a69decc148bd22, 0xd6dd5059c269074f, 0x12c30feb12fc441],
    [0xa11927cc3eb7fe9b, 0xb4dcda9f517ab877, 0xb2150a1a48aad096, 0x1649c52ddf7788ec],
    [0x5d624f35af6f9db, 0xe11eff4ba249a8e6, 0x7ffaa307aa9385c0, 0x6edf4bba85eb192],
    [0xdb732e0211e49e40, 0x22f357f046c474eb, 0xf1ca4fcee3830d52, 0xf61ad25f3641eac],
    [0x173b868f6d177dea, 0x5badc37ac9aa6cd3, 0x796e0c8bddf303d7, 0x2adcc2f96c95a40d],
    [0xc2db96ff696613ba, 0xe00ad0d581188aa6, 0x15dac22136bd3a3c, 0xa50edd8bd899b1d],
    [0xa9243b912f5d5238, 0x79d078d918f25f07, 0xcac0e7706f4293fe, 0x26a9ed9b96681106],
    [0x1de0a18131520439, 0x4a7c0597c0d0af5b, 0x3cf21250cafa1aa6, 0x19595ba401916235],
    [0x33f1bb2030feff68, 0xff0bac5e242673ae, 0xf244d3d014d1a0e5, 0xe30a774c353a2cb],
    [0xcfd790850bf93477, 0xb96276f16e423f78, 0xdd932a66bf1193a1, 0x969363ad2fc56de],
    [0xcd408fdca0fa7fb, 0xb217e3fee2ccd32, 0x192697f5ca096068, 0xf364b0a5a1b00f7],
    [0xf23ab10c8803f474, 0x60f76bf74cee6051, 0xe12ef4d5759fddd5, 0x100fe28b46e80f15],
    [0xdce1380345bf233d, 0x8ba8bbd573bdfc1a, 0xc1c76d2133bd8c8a, 0x2dd0aad73d277f8b],
    [0x8f63418bc67ba269, 0xe368efe4be568d1f, 0xd450960c8bef433a, 0x1ca5603c3bd89198],
    [0xb9a213a69c8b34c5, 0x70ab2fee6f726876, 0x2feb50f86e2131f8, 0x1eb4203b29939872],
    [0x742fd258af31392c, 0xb5e350033c7aab8, 0x963de0a1d4b554ce, 0x20d3eac3a69ed9d9],
    [0x4fd38e0b3d0c3c74, 0x347056965c4d7399, 0x1293047fb42ed9df, 0x38ba0b5c2b7c3d4],
    [0xa6dae085a2c548e4, 0xc489364fcb807ab2, 0x2f8aa803a90ffb02, 0x226c68b53ad316f2],
    [0xfa393a997dada332, 0x831454bfb237a222, 0xb10da606d298a856, 0x1159ad22fb4656da],
    [0x130a00fa7502b956, 0xa47f8c92e8e67f62, 0x33b38174e7629a3f, 0x22d898f074eadbe1],
    [0x2a4771e09a13343c, 0x2c92f7b978f5af09, 0xa4612da12097c437, 0xe118395fc451a7a],
];

/// Part 1 of the sparse partial-round rows for width 14, as little-endian limbs.
pub const S_DATA_1: [[u64; 4]; 256] = [
    [0x1d141fd19392e462, 0x656dd27e0f5f9674, 0x38bbcf80a2175422, 0x5b91237560989a7],
    [0x36e5101f1868545c, 0xc5528844db26efc3, 0xa9decd0caf63f17, 0x1bb3f133c2d5f793],
    [0x5056194912963bfe, 0xccf43b9510d54a0, 0xbd69954994abee04, 0xa39ee8089241c5c],
    [0x683b9f0a586b585, 0x532f5157ee24ada7, 0xfe5fef74e6e06431, 0x11d1a72d9666be10],
    [0x3bffb275d722b47c, 0xbe034950429f91fa, 0xb46b463ad828919e, 0x2a0872f23949f213],
    [0x69dea57cf460ed45, 0x9a40bde5cea6f1a0, 0x59666231eb998174, 0x1da2741d74cfe7a1],
    [0xdc3c742c530f60be, 0x59a2808f94d5242c, 0xc26a8c378e2fa588, 0x225046f36d161704],
    [0x70359482c2f4ac84, 0xf78b47d884da4bbd, 0xe40fb98b247ed9ca, 0x2ac5e790d78a3b19],
    [0x7602d5f6b702175b, 0x9dc63aa97cb31490, 0x9c6b8e51108aef6d, 0x2a9febeb411787c5],
    [0x66eeb2a891e0a6b2, 0xdee2b25e08cb5b8, 0x97a4e51ad3dedf5b, 0x10519bf4b5d77f83],
    [0xfb3c4e4419ee700f, 0xe0f8a8c2011ab17b, 0x49e67ec3fc4208b9, 0x21e9add284054cb1],
    [0x10b1f4ceadbf2fce, 0xfc560a6e3f39224, 0xa944bd86a22a0349, 0x861419b33d1a9e2],
    [0x139f03be3d39de21, 0xef88a8be606b0441, 0x187c1c25fcfad33e, 0x204bee088f716345],
    [0xe9dbe808f621c92f, 0xd485db5a21e3a2c, 0x149ace959540eee4, 0x21a8509dc07b690f],
    [0x33f1bb2030feff68, 0xff0bac5e242673ae, 0xf244d3d014d1a0e5, 0xe30a774c353a2cb],
    [0xc4dc19c6d078592e, 0xf98ac91d5051d683, 0x40280d6bfa90d9b0, 0x2bcc9e799065b890],
    [0x94168da234c6255, 0x6025e0197a9e756a, 0x76ec203de687836e, 0x2a2af9ccc8cd9b89],
    [0x34ca7f21126903d4, 0x691536cecc3218c9, 0x13ec0bfd8cf44482, 0x22cda8a2057a524f],
    [0xf23985a15a85b384, 0xe3d2c9e5f7192207, 0x101c427496305c52, 0x195abafa1531518d],
    [0x4084a9a3cbf41dc8, 0xb086e9717d93b79e, 0x8800bce486d3b5c5, 0x226c92973e2bf06e],
    [0xead52f83825cbbd7, 0x5ffdc300d945b11f, 0xeba5957e4545ccc6, 0x2d4b19bdffed4790],
    [0x9d6eb1a57558f91a, 0x36060e1fb520652c, 0xcbd330a998cde989, 0x20c83290d5ef608e],
    [0x5e5d8261f87dd73b, 0x2d612cfdc70413af, 0xbf299c393d1537bf, 0x2baadcb57bf46a22],
    [0xc6f16a02097d08d, 0x6cf01307d89962db, 0xb866d31f96e35794, 0xf09875c2570527e],
    [0xc340e114b856e0fc, 0xb34bd6b6c341ed99, 0x7c52136c2b548245, 0x2a29246703689c0d],
    [0xc58d6af1bcb66c3, 0x116f0fd933e14265, 0x583bf831f6a810ea, 0x2f05d7232622eba1],
    [0xf8ce8f1fdb5289e7, 0xecb7d052d89e8d, 0x1039d6c26a054b73, 0x1afe5d1e1b64e774],
    [0xd1d632c724801f88, 0x235640c4e40e7332, 0x13139ddeddfdc2b9, 0x1925f2484e57a2cf],
    [0x63f9636ea060f39e, 0x2cf7539c9ac23473, 0x531bcb144583ec74, 0x7752556340dcd48],
    [0x160e93a6c82fc15a, 0x62295fca2197e056, 0xf057fa71bb6f07c, 0x43c28a9d6f38ca5],
    [0x4b41967f3e3173bd, 0x7ffe9d26564b42a2, 0x328eaa4ba22be720, 0x417aaa17f575f42],
    [0x8910198c92e0caf5, 0x36325532adf26bff, 0xee756fd87a8f3e16, 0xe6da876303fbed7],
    [0xdaf9c01bca807ff5, 0x9188739764febb8d, 0xcda21571d390600f, 0x27fa572643a35732],
    [0x79a1fdc206a55fc8, 0xc1ce9cca1a376d83, 0xefdba5612e8c5121, 0x1a510cee95e7b6f4],
    [0xc8792ca6be287753, 0x3dc13cc1ea19ccb5, 0x1869ff6527ce3ae5, 0x14424c4b3e51ffba],
    [0x27fc7889cb72182e, 0x2dc71691a2e3f9b2, 0xd0818d294fcd9e1a, 0x21a57d8854d6cae5],
    [0xa01ceefda042d16, 0x877a0defb839263, 0x58ef3f671fdbd2c, 0x225cb50db0b73b20],
    [0x8527c4636f3e0113, 0x263212533f8ba672, 0xc83e363c5b880eb8, 0x58641892ea470cf],
    [0xdf832d91531cc2a1, 0x2e1bd44ee569e08f, 0x4b43f9f0017d260, 0x1f4505746ce4f650],
    [0x33c20e8cf4c3efce, 0x9bcc2fe83eeedfc4, 0xd94fa47dc4172162, 0x2a076d8186db2528],
    [0x5edc8622e1a3def5, 0x7a1dd1387a4a1fb1, 0x1d2ab02d6c4d6a6d, 0x1dec0d6f62e19a],
    [0x33f1bb2030feff68, 0xff0bac5e242673ae, 0xf244d3d014d1a0e5, 0xe30a774c353a2cb],
    [0xefb4fc653a48efa4, 0x7ae0335240facfa6, 0x61b2ca9cd08cc1ce, 0x2a48253491abad45],
    [0x776dd6980588083a, 0x512b6146af51fc1, 0x17166e20a7eda9b0, 0xcfd514f09e06992],
    [0xd96201b918132ee9, 0x84b99a77e027e8d0, 0x131baf310078bfeb, 0x1937a11923000d95],
    [0x8a3559a57add1cdf, 0x60d206b34b28a836, 0xcf58fc6e94dcfa08, 0x303cfb90a228509e],
    [0x233f84f2c441a535, 0x55df309d115d0789, 0xffa7934c216ab1af, 0x28930e4b9ec17c58],
    [0x93f8af9efcad0728, 0x148f3c3326cb01b5, 0x644bd5ecaf154ab7, 0x18aabdce0da91d3b],
    [0x80d876ee2f1b648, 0x9a27571629e9b00f, 0xac600eb0c26e0b1a, 0x391f2ddcc9bd6f],
    [0xf424735f39e25f3b, 0x23dcf9a9cccec4d8, 0x17fdda5e01dcccde, 0x1d765c20a588ab72],
    [0xe315825f93165905, 0x616a35ce53516a81, 0xdd76d1955f170ab3, 0xd914d807b0fda1c],
    [0xc85af30392294e7d, 0x3737ae2a42d968da, 0x180c15994c2508c8, 0x22492619b16183d3],
    [0x902fae2a5be3510, 0x47f240fb88a7f0ac, 0x39f2bd42af1633a, 0x11b3baf3833cd4a6],
    [0xc55ebb88e0de3949, 0x216fbfc49acd0107, 0x18d8845714e68566, 0x207c403b77244c80],
    [0xd92266ac22fefa6a, 0x3dedb393a078f2fe, 0xa5262b21286d0433, 0x2c9e431e04871524],
    [0x5a6c7d4d2db583e6, 0x95d27ea4798f9a3f, 0x2421e62b4e3c23a1, 0x1fd093032821a777],
    [0x92cd304b490752eb, 0x842bf1b0466696b2, 0x40c2a77bdd2fb653, 0x2eaa82b7fd1c0619],
    [0x58219f52e422d130, 0xb4fde8f27428a30b, 0x52fb69cc85076b89, 0xf98f710e410dc15],
    [0xbfdcaaa4ed4a7ed, 0x96e8cf6537f1f6c5, 0x6a52d21bf8f73126, 0x12229b56730ba20a],
    [0xbdc6cd3529431e7d, 0x2ef882af760419aa, 0x65d9060f1f065bb8, 0x1c2fb95b64a0f66b],
    [0xad8a612e41c48154, 0x5dde45af647f2323, 0xef7908478c90107a, 0x2f2fce632964228e],
    [0x7a82da750dc21478, 0x47e512cf422d1f90, 0xf718c3be3f76a383, 0x61849aba4451458],
    [0xa81fa0ecb1264599, 0xff87315f6bfe1dc9, 0x74016bd4f1c0b273, 0x2cd60c32d6ee36c3],
    [0xe0fa325ed4d69ab, 0xb87c4af0aec8dc95, 0x8ad19b152e9842cf, 0xc3e897a8b91c10],
    [0xc51e65b59d329fff, 0x681d2ec80c8daca4, 0x50b0e6431ce02408, 0x7a38f888ba67b21],
    [0x59a15422870db619, 0x76c66c44d3b527a2, 0xd82b5231a1e75e80, 0x1af524a87fddafaa],
    [0x8d15c95272eb1f9c, 0x32260b07df2d0f28, 0x781e01a0d6bc6268, 0x1159290a4743365d],
    [0x981f67502f9478e2, 0x578c3d9cc58b3e7f, 0x87b09cf6966f9268, 0x9e51cd15182d20f],
    [0x33f1bb2030feff68, 0xff0bac5e242673ae, 0xf244d3d014d1a0e5, 0xe30a774c353a2cb],
    [0x99b5dbad0db4b738, 0x51b7d1a80ccefe65, 0xc0548711d59c548f, 0xb0bceee45e31b08],
    [0xf61ba9b1e3eadb9f, 0x9fc1f727a6dc8ee5, 0x1bafe3af5103035f, 0x241c6fed92ae4e39],
    [0x2c14dba06fb9e87a, 0x6fb3c21b4eda9d68, 0xedde88f2bce76faf, 0x26aefffc4043b22c],
    [0x29bf9af6afccc8f1, 0xf6f799752403ba5c, 0x659080d030b98914, 0x2673296dd62cd736],
    [0x911d78b6a4aaabe8, 0xe9cb20d744edd0a7, 0xb071f7cd75657c15, 0x22ca97c4de769662],
    [0x346d34e1e5f67614, 0x7050e74b09a12b5f, 0xc3660885901c82d5, 0x188fa74b7eda792d],
    [0x5b87a7fe074dfea6, 0x3964a03050f9f12, 0x52e4f3dc92fcf33a, 0xea0166cc4c51c22],
    [0xd7b87810d5fdb594, 0xa8fe767c618bdf08, 0x1363011b08fb72aa, 0x2134da7fb4f089a2],
    [0x2f23de2a29005105, 0x8df1cdb781c90d0f, 0xb66ac72c758b1562, 0x2be62c9234dc7d3d],
    [0x8f872569c40e442b, 0x7c4b63d33443bf6d, 0xff86f2ec478a6570, 0x282ae8812d729f2e],
    [0xe6fa20cc314f015b, 0x71ea7c74fec600b4, 0xd737293a19d6f609, 0x189e7984fa57098d],
    [0x653ae9663a9e45c3, 0xa35ed0197150182f, 0x3421e4fa713f5cea, 0x1e20cd3dbf4a7564],
    [0x5e0a0a8c5a010304, 0x3cf6f561a344463e, 0xd532ff413a2e2ff, 0x23bd66cfdc54f92e],
    [0xa5efd641cdfc6b7f, 0xcf1d4f5f38acb0e5, 0x3e4408528c19b71c, 0x42657182ee4b72e],
    [0xf39b2ab9dbb6e340, 0x5fbbe7507f1da568, 0xd6afb6b0a6370bd5, 0xa11abc1daf1ff8e],
    [0x4b9c60f509c7de7, 0xc7140d91873d2fef, 0x135eb6046388ccf8, 0x200edeab8b94daf3],
    [0x5e3525810fc78a8, 0x4be31d5d92b5c04a, 0x2250fe5c53d66aa1, 0x58546b9e80b2dc2],
    [0xbba24e1f40b8afd1, 0x10739e9ad6799c10, 0x14eb40a43d83bdc0, 0x1670b9e07e02e888],
    [0x4f79ef4793b91324, 0x4ed0bd0d7f89626d, 0xaf119c137d5c8a33, 0x1bf39f979c015af4],
    [0x7ccf905861acd584, 0x15bf176d53e6ad04, 0x1fcb6c6579db3fb6, 0xe19dcdf5b4a1ae0],
    [0x8c5c044d09bbd4d4, 0x5c6f736ebe7bfd2c, 0x5761afc9557c84b0, 0x28f22053f72ea54],
    [0x568b742e926054c9, 0x81f5f19ad767171c, 0xb29945d76b51fb9e, 0x56e7854a96d6bff],
    [0x6d4238bbf39d6638, 0xb5403667c6145766, 0xf47472db625ac3bd, 0x2aecacf169f418d8],
    [0xe261600dda4d3c3f, 0xe49c8ccde5bd560, 0x6f14364bed196d1d, 0x15b04e62d4167a16],
    [0xe89156d9c2d1be74, 0x594fbf481a837e80, 0xaf67c6e3c30cf3cf, 0x15f88c4b31508718],
    [0x73a498b0a790b431, 0x25d1d95e1e4786e5, 0x4f9e6140679c8633, 0x14e6645c7627e74],
    [0x33f1bb2030feff68, 0xff0bac5e242673ae, 0xf244d3d014d1a0e5, 0xe30a774c353a2cb],
    [0xda048863a013cce4, 0x1a26a3b7d3d6b18d, 0x5cfe4bce848b9305, 0x1afd97fac1f6e77c],
    [0x1848ee4597d87c01, 0x63fda1f569a7057f, 0xdb81044af06d38ce, 0xdf68cfb65503007],
    [0x48dd1bb20e9be078, 0xbab58956c2e20955, 0x476fa324d6d9552b, 0x1086b32477529f9],
    [0x40a72b9832c3bf2a, 0x70d645bdf086842, 0x67561c32d31a36c5, 0x1611046b126acf57],
    [0xd357a1b2ced9b36d, 0x5a187921832989b4, 0xe992521837a8d3a1, 0x1bf3eb5fbf1e5bbd],
    [0x79ddcc6017ef120e, 0x664ce23ee91e0106, 0x7ae631ad3959d6f9, 0x799a349b10cdde8],
    [0xc6d3e470035b0de8, 0x79e13fce555b634f, 0x53acbdd8993d05b4, 0xc55d0ca35aa0d4],
    [0xb1579ee21ea9fc8a, 0xbac54bcb31ce4182, 0xafb0a20e79d6b691, 0x20444c1bf67d6ce8],
    [0x2eb31e713c1b91aa, 0x704b00e6eb3f58e9, 0x9cf517fd119eb650, 0x22e8f59cbb4f9263],
    [0x9d1865a4a74e8be7, 0x9c74cd05ba12436e, 0x96d64b59b47873cb, 0x1b4841aeb035b2e8],
    [0xa5e577e82f509968, 0x6ca44ee7f73aa028, 0x42db891b424b30d5, 0x133d49d56c7809b9],
    [0x741c59f4a4abc6ae, 0xf5eb371e29a09354, 0x3fd421c78ebe694c, 0x698faf29f83281d],
    [0xc70ae4be00e92c66, 0x5a41fff89a1e1618, 0x26a8c39440513f96, 0x9cf68b95e1a4472],
    [0x344191026c5fe545, 0x9001eac737fd9860, 0x81e5a90e6d422e6d, 0x57a0141a7ba2038],
    [0x834a1a873607597, 0x1b908f08e2be55dc, 0x4eb06dea7f4202fa, 0x1b71aca0b352c5ee],
    [0xd7011fa1516160d2, 0x133829bea002ae98, 0x99a22a96d1af31c3, 0x142915304bb01cec],
    [0x6673d8f96a0e6c16, 0xd8bd65dececfcd1a, 0xa26aef78b4af431d, 0x4aad51b11363b30],
    [0x84224a2a85a9511a, 0x9c23fe346de39a88, 0x47a88f4d54c4da7a, 0xb63c18b78503b6a],
    [0x2541dfa71260d259, 0xc4dac7398f2dc3ce, 0xfb832e85b8a844c5, 0xfe10d1f3c9b406b],
    [0xf5b7b0ee4e6a27d5, 0x61103186f9cc644d, 0x645806d70631564f, 0x2a42420809746917],
    [0x17b6a036a657dcb9, 0xd066f0874118f0f4, 0x791e5768de874774, 0x5a66c6f50d393da],
    [0x4378111cdbe9d2fd, 0x2307f147f2991768, 0xa0a9b80945c5be9, 0x21a4d71862dccb7c],
    [0x453514c1081ca202, 0xbec7ceb71e3dc7e2, 0xaed3c81f5a2f7f92, 0x46f855f83e16426],
    [0x532765f4155cbef7, 0x988cdf8d31c2f8d2, 0x27980a96827cdb79, 0x185eb4c67d4f4798],
    [0x8411bc00719d3e7c, 0x406b2f044e1d41d5, 0xce649b27b63f40e5, 0x2a4294d3919b5deb],
    [0x837cfb87af4af94, 0x25f6cce50332661f, 0xbbaa7dc3227ea2d7, 0x2a802da0e4d59259],
    [0x33f1bb2030feff68, 0xff0bac5e242673ae, 0xf244d3d014d1a0e5, 0xe30a774c353a2cb],
    [0xe8ade5bfa71c1d44, 0x8ec3c830e1afa755, 0x207d617931b51ba1, 0x154eb8f04d175057],
    [0xbee8031cdde7b994, 0x732bd534603ff3cb, 0xd76154a2fadb7e7d, 0x1c5fbb238cd09b4a],
    [0x1c0103d42f4f116a, 0xd2806f9dee971ba4, 0x3426643cca0e6faa, 0x1c3a7fe14c3ef7f0],
    [0x81c3b8adc53973f3, 0x94c347565eee36c7, 0xc4563b4a7273307c, 0x928a9730b25d647],
    [0x6e298249560dd97a, 0xff6714fd741fbdcd, 0x61cdbe0accc5c7cc, 0x2aefe39f4fea9482],
    [0x65713377c9062037, 0xf1b4fc8731187f9b, 0x1f526d0ab1ae1513, 0x1feadf4aecbf7c7f],
    [0xe5b33378d93c4c24, 0xf34c9b43f2068da4, 0xe3bf08da02ad5866, 0xcd2f2d4d826d98c],
    [0xfb82a070bd448b05, 0xdf3a46fa47dec457, 0x6d411b560967c46d, 0x2e7b56a640913412],
    [0x14a0605af857d190, 0x68a4958051e8230d, 0xb10680bdcabcb892, 0x23ee37d1d1e1f8a3],
    [0x1f8057bf2809873a, 0xcfbdcc1c00fd03de, 0x981001f40273c702, 0x1a910c02479a6795],
    [0x89914f44bca3297f, 0x32001c0640033a7c, 0x4ff274769e517879, 0x2786abcea27c34cf],
    [0xb073e12f28a5a260, 0x9da969f038cfceed, 0x3ef8e60420a38e42, 0xb27d402fc69e2f2],
    [0xb8dcbb3fbfb95286, 0xca77864a1b165eae, 0x97742babd1099b0a, 0x5c8f462872ea768],
    [0x8aed30f69505bda1, 0xf7ee611376b9329b, 0x58ab1683597256a2, 0xd29130c3cd0ab23],
    [0x50afafe3de5fef8f, 0x472b6b2bd225637, 0xb90450914870d448, 0x167beb74665c1a02],
    [0x788659f957ef5623, 0x57eb9bf99388ad4, 0x9004d63dd307638b, 0x2574275c7bc5887],
    [0x9b2434eba6cbfc4f, 0x19b20eb352e18385, 0xeba1e48c5f61bdc5, 0x1bafe22329c00fc],
    [0x960905e1e8ba5a80, 0x35ab898d104cb2eb, 0xb88e5a557234c4f, 0x40f25fb048f262d],
    [0x4e3e4241c413aecf, 0x7f1a07bd43340508, 0x3243039afef87ae8, 0x2fc7cf259a1474e8],
    [0x6aefd9b19b713ae1, 0xb09644dad47fbe03, 0xd434cab99e08835b, 0x30144980af35b582],
    [0xeaeb0b3654b4a6d8, 0xc20c2916fc3470e4, 0x4ff8c38a8245b79f, 0x140f2ab47ba1a08e],
    [0x4c05cd4efc72dd9f, 0x16f5c2693f0bf70d, 0xe82e14571e4a4ef5, 0x97cb1acd89b5b12],
    [0x4761e8e68f3c99de, 0x531c7fa809f3fc36, 0xa2c9fb599c91a1de, 0x30435adf792ba5a8],
    [0x25fd41359ef73491, 0xfebbb1dad12f0a18, 0x115cdc4c303f9335, 0x17acbbffacec919a],
    [0xfb7a4eb1f6b01d85, 0xe598bf538c80f467, 0xc6d7c0eb594b799d, 0x45ac0782c8edd00],
    [0xe93caf2a357d0256, 0xb59a61bd91518a3d, 0xf25efc56b33d72bf, 0x1e15d1be8d2281c6],
    [0x33f1bb2030feff68, 0xff0bac5e242673ae, 0xf244d3d014d1a0e5, 0xe30a774c353a2cb],
    [0xd1b204790a2c7b0f, 0xedb5b46a913d6571, 0x1f7e4bfbb795150e, 0x125b96c678d2ef18],
    [0x6959cebd8ef1d79e, 0x7d4b4efd892368f6, 0x1fa0e64c79ee75b2, 0x130be605c83bc01c],
    [0x7f01b79d420e731d, 0x5a093ad607bfdcd8, 0xf98b13b7c484c669, 0x3051c6918396878e],
    [0xc215c08023aca95f, 0xb210d5fc5466209e, 0x4638ebb81a36f4ce, 0x2635445a3f66389b],
    [0xe43fd2b6d1b27d89, 0xcd99b699a8c34686, 0x52759cc25f72601d, 0x10bce0fbd3a87961],
    [0x10822b137e4bbca4, 0xb38d6f0bcde5827c, 0x62043e9e93267fd1, 0x17dae8299eebde00],
    [0x6c95037ab746a878, 0xb5a3c295c21e5860, 0x536a1ae2ffc84165, 0x2664e95646ec5ed0],
    [0x7b633f3c30fc7776, 0x66ace7a311a40af0, 0x6b60fa50994f2818, 0x2b8b53c8e9038278],
    [0xcab8c20372f911f8, 0x2cb03e3c8236be7c, 0xf4fd487793eaf5cd, 0x16ae53f5d4c63a81],
    [0x16af7c7e1ca8793d, 0xf34cbfafdf3e45c6, 0xc403718c4983c136, 0x127dad336628ad2b],
    [0xe6371eab17e6e7f8, 0x1e0f716512a9dde5, 0xb4f5a264c2eff212, 0x10a10801dfd21422],
    [0x52698709e769f45d, 0x5b425ce64bee3d48, 0x3928d7756fac4468, 0xac6189eec8ef4ce],
    [0x919b9466bdede393, 0x310b1c4e6e509ba3, 0x4f7ff6306157d770, 0x6f49e55c72efdc8],
    [0xc3b16dfdd1dd3a45, 0x35429c54d6bf4a8e, 0x665343425bee4d3f, 0xad1247adf1e4bc8],
    [0xbb2de3758a771c26, 0xf105a0ae272b2253, 0xaf29a92cfeeadce5, 0x9f989c92995f86d],
    [0xac309487fa682be, 0x5a09fa94cb1fdb27, 0x67f62441a55b75cb, 0x1fef396daa237f64],
    [0x79579761ae1de1d4, 0x8abf96165fae4b81, 0x5362801333bf7fae, 0x130d74deb88099e3],
    [0x8bfc91695ca204bf, 0x962761a992079a8e, 0x612dc59e1aa9422f, 0x1b1e63b7d8b5f8d9],
    [0x214b09553adddbd3, 0xd6cbd0d584084827, 0x95fb9d6674066c03, 0x2d5d5c8feaed5dec],
    [0x3b0402811c952a48, 0xc8a1514cc906369d, 0xa9365f954adbdd2, 0x2278a2b596a3d0af],
    [0xb132a7a47573babb, 0x9db4b7b7c84d447a, 0xfff0378cb6cefa0, 0x11291006cc671894],
    [0x5def330b2d7f4078, 0x38fe69bf9d2a61fb, 0xbe871bcdbfe619ed, 0x1e0bf04d48d54e8c],
    [0x2637ae73500b765e, 0x4b12c5afa7e2836c, 0xc10e47e930dca88d, 0x2b0907cd35c62152],
    [0x578cfc96d27c31cf, 0xe182cfd487c02a16, 0x73339f653843436c, 0x2e5051c91020bf6c],
    [0x31bba50b28477b13, 0xefeab33ece8c164c, 0xaf01cfc56cffc815, 0x1227e0c86ab02adc],
    [0x9a41583aab595707, 0x8bb1eed21d98d56, 0xf340e3f679d91d95, 0x103b328f8e9fef02],
    [0x33f1bb2030feff68, 0xff0bac5e242673ae, 0xf244d3d014d1a0e5, 0xe30a774c353a2cb],
    [0xdc7520457180945c, 0x4cc10c805fe52009, 0xd7e2b0ee21cf4b3b, 0x1e3d52642e16240d],
    [0xa41c4ac6e5125269, 0xd8fd21cce53cfe9e, 0xd07b84a703494892, 0x1fde6f3b98df6104],
    [0xed0e085a5755856e, 0xbc00ce38505933b1, 0x4a1980371301caa1, 0x6934a63e0474975],
    [0xe9f18079d39209b4, 0xa16299e667c3acb3, 0xbfe9b313759be1ce, 0x2897d663791c69c9],
    [0xc91e720dde3eca49, 0xa67cf96af95a1e0d, 0x64be8d6be8b718ed, 0x2f30ba6752d0900a],
    [0x23b5e8e34d7eb7dc, 0x77456513586fde2b, 0xbdc5a79611084e09, 0x219898fe3438a5e5],
    [0x458704fd88f6a27f, 0xa53953aef58f971a, 0x2949f998d7c5e4c2, 0xd90f0afc59b011d],
    [0xacb82e81c85a93d, 0x216ed16a0f1c0b45, 0xdfdfcbb67d13f845, 0xf21f3710b4f641d],
    [0x7b6acccbaa17af5, 0x397122fb51f4504e, 0x15281aba071798e7, 0x2eb036baa89d9265],
    [0x21012fbe7606ade6, 0xa2611978d8c29e3d, 0xc717a6674e22ff, 0x1adb3f0ad3c7e23],
    [0x34223475f91a7b69, 0x212b04c647736010, 0x81a1a8930698e676, 0x11e1d1fe7ad38655],
    [0xa620e1c57c842ed6, 0x4e143f70d6b26e6a, 0x8b433222a964b95c, 0x14648747b8bb5b1e],
    [0xd47f33423e97a902, 0x47f25b4b5e087cf9, 0x756ccb88e3890ec, 0x14558bf2daf718b3],
    [0x5aa8f716bc14358b, 0x1be931e8b6bf889e, 0x331e2117c682066a, 0x2e6d0bac325dda6],
    [0xaeb8220a3858736d, 0x61bd3e428c81dcfd, 0x81bfb4bd843afb39, 0x1bbe690c183e54f2],
    [0x69f65f7d971d52c0, 0x4f26fb2c1162fdba, 0x128e65c88122a5e7, 0x23528de8742f3238],
    [0x2475c4d04c6b0ea7, 0x4d9c247649a6c341, 0xfd5c4c5c728eae32, 0x13e395afe32392f6],
    [0x72dcb53fe68c92fe, 0x7b792ec55dfca74c, 0x2a7357723d20949f, 0x1ff38b45c4e5b868],
    [0x388fcbb441109dfb, 0x96e67498f9923224, 0x94bc040def9c4e8a, 0x245ded3dbd6c3db0],
    [0x2c857ffc99a42d99, 0x48911ca6647bcc63, 0xe65de9602ff4a22c, 0x1f6ec4aeaf3545db],
    [0x62106e5519d3fdfb, 0x247dd0e7a2987164, 0x8ef22569cf8db020, 0x2431b237299f1a5e],
    [0xefcf37ac77ddbe5a, 0x912045ecbdcffede, 0x938f5f1ca55e5d7e, 0x2e4939b015f27fdc],
    [0x878956209d36e031, 0x3fa555d248df1968, 0x1c04505b0126eff1, 0x26c061cde477c701],
    [0x3848cfa5c4555c44, 0xa94ed945673e328, 0xed69b2aeb3dba976, 0x1c6f21300d13f52b],
    [0xd3a5acab914655b4, 0x224d10b2e0a32d35, 0x29605fd463ed664f, 0xaecfdb86a643154],
    [0x5110420a267a44b7, 0xcfb4c15587759d5e, 0xede18e05fb19be93, 0x25a11f201fcfa64a],
    [0x33f1bb2030feff68, 0xff0bac5e242673ae, 0xf244d3d014d1a0e5, 0xe30a774c353a2cb],
    [0x87d1ce5fa4f9856a, 0x8b4ffc4290d1d61e, 0x3bcc298a4d783e5b, 0x133fbbd86858b914],
    [0xe70cd915d2c43b53, 0xbf2ca7542f44072b, 0x8bbac1f7f093b9fe, 0x2cf3bb0c00e204f1],
    [0xc00f421d4459c55e, 0xd7ef1504597419c2, 0xd0399ff791d86962, 0x13c1a4bbd3a938e8],
    [0x13c17308bd8cbe30, 0x38203b2d85981874, 0x2b67c287841ed738, 0x1b008db98dcf5333],
    [0x969ed5674ff88fab, 0xd75a237eadd2d40, 0xa38ba9a1d029c725, 0x1e42bc2844c8f32c],
    [0x6fc564fa00c806d2, 0xfc0b99236a2a590e, 0x974d54fd3ce3e734, 0x5e9909d9b2a8645],
    [0x79a192c113ed7f4, 0x39ab22fc81b7252c, 0xaab257ba1e13eaac, 0x1e26282b7dbf93f3],
    [0x110ba239361e35e9, 0x2e096c02df65bf64, 0x7e639a27e7602361, 0x102a6b3d3a90d1f6],
    [0x208fdb45faa3b3d7, 0xcc77b4ed0f1d99a7, 0x96f4897d43838bb2, 0x1f8d425b3b39db50],
    [0xca9fbc375497ca3c, 0x91103972e456ced5, 0xe1457806b82f38cd, 0x3d122f74d869433],
    [0x7a9d52123b350c43, 0x2c75af5684f2a812, 0x8d0856b442553e88, 0x17943c0d333da5d1],
    [0x1480da21b5388ce1, 0xd50eee93dfdfdd08, 0xb49e3916db14d6be, 0x1cf484412484df0c],
    [0x63ef9e16f48bb9f5, 0x46957175ebebf554, 0x632ee7e0acd2c4c4, 0x3e41d466271e7fc],
    [0x24e06448278f88c6, 0x76bb73f9aa94d208, 0x80419092b91d648, 0x2abd2c1f5f2ee158],
    [0xdbd177b3c6186d8e, 0xe1b287772cb266ed, 0x826c8f7192a1866c, 0x1e979043b35e1d57],
    [0xbbff65ff662c667c, 0xdc6c666084c648c4, 0x2c4daf27a755b5c5, 0xbdad4e92dc79651],
    [0x210c7cc82f56aedb, 0xca92ba895e85853d, 0x5bef8a33e0dad282, 0x305dfb6283eebb8f],
    [0x13fa7652f12fd273, 0x539edf1ab828a4d1, 0x5064ad1beb0129b9, 0x273238f0bf3b029f],
    [0x51d518a7980cf6e8, 0xe398b0093d7e1186, 0xde141ba4b38cddb1, 0x14b12b9068950f98],
    [0x1e6e2e0147c42f51, 0x2b948b5a56da8a37, 0x86e47c1ef08680b1, 0x3015c78de17c6ccb],
    [0xea6d80e020e13a21, 0xdf04254a589c9a9a, 0x2379c14223f75aeb, 0x1989f7bfdc360a57],
    [0x8dcddc6a36e7e717, 0xc79e80143a51c35a, 0xc631c16bd174828c, 0x2a65e0ea8cc0ea69],
    [0x11d91c64e4d65fac, 0x4b9e31221235f56a, 0x8d8db2c9e3fe7e92, 0x718f6894c8d8789],
    [0xfe1a031cfd32b498, 0x794f4fa99db88133, 0xa44219c27d6e595b, 0x26fcf8cceb403f4b],
    [0xf3522d34da3d8b99, 0x5279d741c5f9d5c8, 0xc47044a82bab78a8, 0x78d5c5f6e5f3e7b],
    [0x2ed8f0706db54bdd, 0x3f20e8c7eefa5196, 0xc6443284da3218e7, 0x8f0b5ea35e699eb],
    [0x33f1bb2030feff68, 0xff0bac5e242673ae, 0xf244d3d014d1a0e5, 0xe30a774c353a2cb],
    [0xd6f05e005802d35c, 0xeee228716ce01fa, 0xbf849c18e813e61, 0xfb6c5b68b5bf3fc],
    [0x689339630feffbc6, 0x50d45b791afe4368, 0xa84195fc795b9f46, 0xc602aae4b39cd1],
    [0xc4edf21ff54867bd, 0x602ca72823a8162c, 0x7ae7fece8bcfeda5, 0x110455540d38fc9c],
    [0xe4c95a344070ec48, 0xb77f2dfd1de38d84, 0xef24029c17d3c2f1, 0xb380e9795f1ae5e],
    [0x2bda3f92739ff03e, 0xfe106b02e624bdbf, 0xad3ab00f106c9d45, 0x2ecac08767288364],
    [0xf8f050d872929332, 0x6e0e2c61cfea1f89, 0xf1a8ebde66a3ced1, 0x1743f85f877aa121],
    [0x921f930db1c32b97, 0x328e67057c1398d9, 0x474e35d15e860233, 0x4d0cbd1d1dd0a87],
    [0xfed0fd1170f0e49c, 0xcdfe6873afbe66fb, 0x23adb300d69ae39c, 0x2d22b693ec70adb1],
    [0x3ef9ce424d2ff611, 0x425a7f56702c78bf, 0xd468e18f804cb685, 0xfc8ea8eec07829a],
    [0xdd13bffe6ecdee76, 0x751d6d188b6c9ed4, 0x9a407a80affce97c, 0xf4aa2f3aad32e70],
    [0x71ec0c6ec525150c, 0x377399ab2a4371ac, 0xf1e1404368b67bf8, 0x5374852d2261dad],
    [0xf485903e94a2260, 0x656aad3f25ef8feb, 0xf0c52c8406887623, 0x496f544992e33a4],
    [0x81a0372127a75ef9, 0x8747b97db1665525, 0x459820025be1a93, 0x18a9a16e6ed044b2],
    [0xff67bc18e6359636, 0x6c5d54efccc20897, 0xbaeecda662d0cd9, 0xa2f1c011a921def],
    [0xa0f7d6ca4900252d, 0x5a61bdde90849d9f, 0x9b0708c0dcadd6a9, 0x22aec007a72e506f],
    [0xff5797c7447db36c, 0x24df0955ab3a985, 0xaaa5575fe992f47e, 0x12f1607ee6f4c110],
    [0x70bc39408bb5d961, 0x378b580aed9c46cb, 0x802ad68a96d644, 0x8a0e21aebd52984],
    [0xe3a6966e446924c0, 0x483c9af4906d7e5, 0xcf5bf823ee5dce41, 0x77214bdfbecbffe],
    [0xf8322449689ac79d, 0xf1157ffc88ccc234, 0x62ff879f0e478e98, 0xd8a51d698768c1f],
    [0xcc222af396daf89b, 0x2d15bd97dd62c088, 0xe048db0b7eaf1cbe, 0x2ca7d5473e3a7a69],
    [0xabd4c34f91e754c2, 0x81482fb20b16843, 0x78674b2f685fcab2, 0x1db504c331d3895a],
    [0x1d772a6018d78f27, 0xdf931045381c5f34, 0x5795bb171b21f92f, 0x226760b82659919d],
    [0xeae52581f81b35cd, 0x6de4db5447ce6603, 0x6a56943cd1a40ae7, 0x2c6ee4af1e71f1f4],
    [0x2b03dde94bf407d8, 0x404b6418028f591d, 0x66ddf0f730b11e52, 0x18f11a6b72182370],
    [0xe9f3e29ff5f6b2a7, 0xe90838303b5256b, 0xc45168badccfbd6d, 0x1c726bc6da34803f],
];

/// Part 2 of the sparse partial-round rows for width 14, as little-endian limbs.
pub const S_DATA_2: [[u64; 4]; 256] = [
    [0xa70d239183132785, 0xe3358dbb891941e3, 0x7165396cc12f5155, 0x230da928c59a3690],
    [0x33f1bb2030feff68, 0xff0bac5e242673ae, 0xf244d3d014d1a0e5, 0xe30a774c353a2cb],
    [0xd4610ce27a2c7c12, 0xff15be0c1eae89cd, 0xb712329b991d9c28, 0xa6958be4b971b6f],
    [0x82ac9bf3ae9118c9, 0x8676e702d5d4deeb, 0xab4fffc7c6c53280, 0x18fb79983ed105bb],
    [0xf6a532831e31764e, 0xe7b502d94d149126, 0x84fe88a081b89db2, 0x2cf2b459fd8fbeea],
    [0x34d1294334d834e5, 0xafbfe6fb47a67f36, 0x6968d486a3bb01eb, 0x24879d31eb0e13c],
    [0xbd81b2e8453d953b, 0x544cf89e07377b37, 0x6c86efa0fc45ccff, 0xb2103302dbc0c7c],
    [0xd6f6e420763fb7fe, 0x2c70e0993cb280e0, 0xe84483bb71d753ac, 0x2e2e1fc4c5443e2e],
    [0x60baed683049b488, 0x3f7d84d1bdf1dc5d, 0xa7fb505e6240b2fa, 0x1a9e105d58a6f8fc],
    [0x86ed8df0379f02e4, 0xca419b2f8144c4af, 0x3ef4c2c44c12d6d9, 0x2a1042ce88edc0b7],
    [0xd55f4c7c8b887529, 0xf93704bb4155e9a8, 0x4aba4f234b6fb078, 0xda87077919cafe9],
    [0x3305a5aad0d6b8ba, 0x7d958f1f69e0c2ce, 0xb7b66fec0843926e, 0x10df86ad83b48800],
    [0xbed0a5b69fa194e7, 0x88acb852692358e4, 0xc5633b84cf3d172f, 0x5ca67cbd464f830],
    [0xda7f06826cf19cad, 0x248e9e8e9da408c, 0x9f7ac569c51177a, 0x6f1f54b5acc18eb],
    [0xa260f3c56f208b2d, 0x45d01ef726888c65, 0x32a3992aed66c0d9, 0xedcfcb405af9c21],
    [0x10cd526101201528, 0x7bd265e758ad2028, 0xdaa9fce108036bee, 0x3009525f3f6c8641],
    [0x9fd4edcb5c09d76e, 0xef10cf747cf1372, 0x2e9637b5b58e280b, 0x943a87f4b786f07],
    [0x279960e6b5e3223, 0x1c761134be63d314, 0x2f4c129dc9d78277, 0x2fcfcd4647f625c4],
    [0xbf8f1311d8dcdb7a, 0x5bdfc1f29d541b09, 0x58bc57d2e5519521, 0x12afa4b24ee867bc],
    [0x508fd63b623489b0, 0xc38e46d8f86a160b, 0x8964e39185a35af7, 0x27721fde56e70f24],
    [0x9cf277f2af834077, 0xb2c579f0fdccdcee, 0x8ef7d48b0db3654b, 0x2bc75c98655a355c],
    [0x206034450e40195f, 0xda95b559607ae0df, 0x9d89764eb3fc5a63, 0x1f49b0d6af4bba3a],
    [0xa0b79b90a7cc8cf9, 0x14814b9a28de45f, 0x896c01ecc28e0a41, 0x1ca12480c0ab186],
    [0xf2edea7145d9a48b, 0x8abd6555cb54d590, 0xffafba407c214cdd, 0x1040b4f3bbeedbd2],
    [0x974b643314f51d61, 0x953f26e7274279dc, 0xf84112dacde19a9b, 0x131f9b70a247303b],
    [0xf9a9517b572e0379, 0xcf3a3ef135fe4f01, 0x3dcdc7e30a00f87f, 0x102a78fe96213377],
    [0x8a54f8c87ccc6285, 0xc41382aa0bffed4b, 0x8e38b3f3477b8c23, 0x1389adcc893fb447],
    [0x54515a5dbe55621b, 0x3d6ee9560b3c90fe, 0xdd36e2857a183c4, 0x59eb07efee9897],
    [0x33f1bb2030feff68, 0xff0bac5e242673ae, 0xf244d3d014d1a0e5, 0xe30a774c353a2cb],
    [0x9c4d38d5c76ff881, 0x6968914941d91a3c, 0xc52d5cd2b2be44d6, 0x2ff7ccae4b6aed16],
    [0xb9d7417803697661, 0xc9ac1d885a17188b, 0x7a5d6576fa461096, 0x27404d8154cb4399],
    [0x30894d0d2bfa5f07, 0x8b88927dc20e4290, 0xb3859f701e46e5e3, 0x41f16639e3d600c],
    [0xf06b7dae353685a9, 0xc79693c13f01d40a, 0xdf3096cecac201b2, 0x280cbce70a5f719b],
    [0xd00e2ac6f09cbbcf, 0x2ec9cb4c55ef424b, 0x527144cb8f13afaf, 0xaeba2eab11f80d6],
    [0x21375af70e99e194, 0xb2e49584246518c5, 0x404178e0c40b35a7, 0x11473e38a5168c35],
    [0x7493ff0a272fada4, 0xf1226c4d931ad316, 0xc37dcf884cb2cc, 0xdb9935eab2a5554],
    [0xc1cf0b962dc7a40b, 0xe2be0adfd2723ea5, 0xc441c790cb8c9b30, 0xd9a481cfa6ef0c5],
    [0x9c59abaf25ca0b5d, 0x2ce0d88b65a496a, 0x22b65341bd25b01b, 0x2e8fefe6bb8a3912],
    [0x76ccfb53740bb10b, 0xc1f5d8f4b8c81721, 0x3acab028bede54e6, 0x19dad0c5b078ac86],
    [0xe173e0425a95e28, 0x94fc5aa4e9b75fa, 0x5e6752f92205e88e, 0x1dcdd9fbaeea7295],
    [0x4ec89352aab2e506, 0xb3eb788e3740b905, 0x219169de7f612c1b, 0x125eb35ed67f035],
    [0x60a12ba55f997760, 0x345ddd898998ab91, 0x8f6ec78b6a061bd3, 0x1f64f0f4b2802abd],
    [0x426f2a8da6d26c3d, 0x83714a37353246e6, 0x4d31f42d0cbc3b3e, 0x1fb921d2f30b1350],
    [0xf4427326d284abae, 0x3f30b79b5ec80924, 0x917952c9f600d47a, 0x241438f09da43d99],
    [0x97887f45f99f055d, 0xe0fe99679b4e2102, 0x645d09ebe52614c3, 0x2ca504ece10e731],
    [0x396110cd78c690ca, 0x8c32eb73e1e4575f, 0x4d39e13ce788fce2, 0xef909466b00c00c],
    [0xc35178717db80d69, 0x4abd75cbcf29694c, 0x1b898fd025f6a9d3, 0x28aa2ad31f21f32f],
    [0x67ad661f279f67be, 0x8ace7d7b721e2531, 0x4869bb8a57f0c166, 0x2e7e619b01a79ef2],
    [0xc68e75b246392d9a, 0xa2d4c235ee483963, 0x16c53068b9e2b8d2, 0x10925878a22951d2],
    [0xa857e4435e870c2d, 0xd20eaf3c07c96b86, 0x533d72118b04e187, 0x25bf71cbaa22e93f],
    [0x84fdb379fbadb65b, 0xdc0de2d774771a7c, 0x207ffb753b9c099d, 0x2c12c98fe7f663cc],
    [0xb753412d2cf2e3f9, 0x8e11c38374db3f72, 0xeb0d05d1546968f9, 0x2879d4cfc6efd84f],
    [0xd081922fae6346ef, 0x3c4c26ac9d1e91ec, 0x1804809efa5f53a9, 0x213c205c362aa0d4],
    [0xaa0ff70d7416d3aa, 0xec40412378c107a8, 0x8dad898a002a9c11, 0x1a65b2fcd5d9c0db],
    [0x81bcb757831405f6, 0xa6ca1ae3ae23641e, 0x26058b97cc6a952, 0xd6ad0b286a355b4],
    [0x33f1bb2030feff68, 0xff0bac5e242673ae, 0xf244d3d014d1a0e5, 0xe30a774c353a2cb],
    [0x21a798a1ffac6d84, 0x5003686bc7513994, 0x4fae9e2e542b8ebd, 0x13b5aadba85b0164],
    [0x6972266e0e18577c, 0xabd69824f301cca2, 0x2e6953c2bf4568e8, 0x207a44c8e2044f2f],
    [0x4cf8633143a9555f, 0x1d22e856a3f4d922, 0x8125d04f64ff7088, 0x20366c61e53dc871],
    [0xa2f2833d205bd29b, 0xf3417b06a79f30e5, 0xf0fc753b8a97526e, 0x7dd546b57abb0a5],
    [0x17cb07c8ef4abac3, 0xd1a31802d373e101, 0xb0b366e3fb117676, 0xbb6251b7bbceeed],
    [0xdda2b6e0f428777e, 0x91f56b56d2d4d6b0, 0x5c7c7b6a4b1bea3f, 0xc19b0d2fc923650],
    [0xd89eb8b215e7a568, 0x3ba1ea6722b0bef2, 0x2af333365adde8b4, 0x323859680349225],
    [0x673b72c5d555fc96, 0xc857c3547373173d, 0xe39d351d0d1f308, 0x119c3970cc386d6f],
    [0xa7d7af23b1425bf3, 0x2ad435417157fcc4, 0x49280ca5e8659385, 0x13574c0b39382b2],
    [0x8d7b4555e1ad2c87, 0xf6db6bff0cf3fc85, 0xd1ab36dcd14b2b65, 0x2c41dfb547330e3c],
    [0xd6ec04b1ae5d7844, 0xccad77333887120c, 0x65199613ddf17d28, 0x151ac386d35911a2],
    [0x261319fbd8ed1396, 0x58cdea2a2039dfdd, 0xb54f49734a6dc8e8, 0x2142f184dad54cfa],
    [0x603714676de7e4ef, 0xf26293eb1bbe703, 0x7c6f02bd38cd0b4e, 0x232960591ef4ac64],
    [0x8368199501a577d9, 0x657acca1822b9caa, 0xa8c9a50322e0796a, 0x2d33e28f33c118ea],
    [0xdd4e13bda2530a6c, 0xfdbd196a2b192f27, 0x1018f3c8ebda54b5, 0x12da53680185973a],
    [0xe56385ed5f7246f1, 0x87f86bcf5616dbe9, 0x607fc354f64c2c36, 0x2cea06b27f51acf0],
    [0xcbd17c6133fd84ea, 0xcddd4f006d354f1d, 0xbbc1761824ec8131, 0x12ae9658e5e33252],
    [0xa2d4109263c8668d, 0x8f7d0f08603f3b59, 0xe4db72b664aa0699, 0x1500265313eafa13],
    [0x67d191d8ffd5d613, 0xbbe5e49954ed6847, 0x89b38b4f9d1535de, 0x121cb82b95c94611],
    [0xc2ae3a52a3d69dca, 0x6e09bc11a74c1b34, 0xcdb13cb16e904938, 0x2792672831f5282b],
    [0x11fa23e9e559ca3d, 0x377ad867be9df04c, 0xaaa8e0cfea69eb95, 0x9c49e3fde0a20b1],
    [0x209f531b82c957df, 0xfedd545addecb765, 0xdb74f912e385f76e, 0x2b2ef2807d34d975],
    [0xe8341e9e189e365b, 0x98920a0a3fc54bf7, 0x8611d9356708e26b, 0x7a76c4304adb61e],
    [0x9d779d932bd654e6, 0x11898648556d135e, 0x386e7d6ab6e8c8ab, 0x1175aab1e1215106],
    [0x20a49bfa3ceca7da, 0x8cd810a2d31afa2c, 0xe21686523efcc31, 0x95881e72157a04b],
    [0xb896ff27338a0c15, 0xfd39b2c9432c4288, 0x1f2cc048180d6a1d, 0x1bc2595f9eb57572],
    [0x33f1bb2030feff68, 0xff0bac5e242673ae, 0xf244d3d014d1a0e5, 0xe30a774c353a2cb],
    [0x56b25f659cca62ff, 0xc9f2341187cfcb4, 0x229924f57769054f, 0x2d72542a02d6093f],
    [0x1deb413ede2cec8, 0x93bfe098ef6c6cad, 0x906040f416d85a42, 0x2a00d2a68a415131],
    [0xdd3b0faea5b69528, 0xfe46c4f43b88948e, 0xb0325eb6957d2e04, 0x1cb01e5cd271049b],
    [0xef99b51449c8f763, 0x2c2e2629191c76f7, 0x21facbd90699c9f2, 0x2e83b677673216f3],
    [0x1bf0503a545d78c0, 0x1007dccad5ef54af, 0xc8ced4d3f663f772, 0x2575e049e33d2f09],
    [0x1a4ced089dd2537, 0xeb563d86f3d11a49, 0x4f2b1dfd7eccc9c1, 0x27885d131c535206],
    [0x55d00f1eab40c7c3, 0x83babda2e62b2c3b, 0x57ac348af3c0c514, 0xbe09ca0f50c25da],
    [0x2573544ee7be34cf, 0xe156e1e7633ff51, 0x365168750117a9d4, 0x20ea980b40600cbe],
    [0x2c117fe42756ef64, 0x9edcf7ff1c290279, 0x28409a7c012c4741, 0x3f0218ea64202e8],
    [0xdbe976187f62eadf, 0x35a0b4e6b4ad2ec1, 0x5355f32dcf2a5077, 0xe6a42b289d3df7f],
    [0x3d801d8522606b2f, 0x225c6a0e0902b, 0x226d98c4e2497e21, 0x224853c3ca29c4fa],
    [0x42dd627715648416, 0xff16c70ce743bb8a, 0xd8098e95570a794c, 0xc5295480691ee73],
    [0xa0f6b9423986badb, 0x1ffa1da04908e1a, 0x5870fe24306f9b04, 0x148645a642117f6c],
    [0x457fc4ec9162a334, 0x8547536c517b49ca, 0xd18a4f34e16919f, 0xbe448a3f7e892d8],
    [0xaff3b02a00f0a5c8, 0x105c11b08a9dce89, 0x8f64606f9128f8f0, 0x2bc573630f948a66],
    [0xf8298db70deca1ee, 0x33ce4976d19f1fab, 0x2414e33338b47f1d, 0x2519650010b2b964],
    [0x9876772d5227736f, 0xf3b58206f06c008c, 0xbeef69a8630fc7, 0x2825ddb803da7188],
    [0xa52b79ab5e7401cb, 0xa6bf17e83f562426, 0x3fdb4dce59e64a2, 0x2f2c24da651d81f4],
    [0x3d8115a0c0f1749a, 0x773eb7a1c666890f, 0xf5ac9e47fde12035, 0x3bfdef37744dd23],
    [0x31dc706e3f06351b, 0x566b56b0cd00a68b, 0x7d0cacacc229d561, 0x2df9d9e9d2c54cc8],
    [0x5e178536120a0b8f, 0x23fd79b06110c813, 0x454c11d35520dea7, 0x14c29bac822f6d9d],
    [0xcaf158e992847a5a, 0xa32c9bf73c833dd1, 0x1acee98ca63208dd, 0x8b6fe415719185],
    [0xf996bc81cfbccc54, 0xa2f7ae80cfda7afb, 0xa26bcda26c412412, 0x25a3dfe68d7513c1],
    [0x74bf623e889691d2, 0xc54292273adb103f, 0xe64fde3e0ed04c3b, 0x2d3c0299af854fc8],
    [0x63afc8d1406d3e48, 0xe1595328112a9492, 0x8fe3f85e5ec76f5e, 0x8cc27272e166863],
    [0x94af4db04a30a1d2, 0x90fa68f5b54b5067, 0x57f5b428f850f417, 0x2aeb2bd0a8da3fcb],
    [0x33f1bb2030feff68, 0xff0bac5e242673ae, 0xf244d3d014d1a0e5, 0xe30a774c353a2cb],
    [0xac4a20b2eea244d3, 0xe38b5b6aed376228, 0xa7e073114b2e6791, 0x11ef04a3823d72d4],
    [0x84192e1091f58878, 0xebd518b5738e6cc8, 0xd2659d6a42694578, 0x101022055653fcd3],
    [0x51b8de723397d036, 0x7afcd1c1b2940eb9, 0xf5074c976b3ce213, 0x180f05913fdc0f67],
    [0x735b0231a72c7e91, 0xcd6eb6b002eef1f, 0x4fe2df4221cc57bb, 0x29ecb8a00aff8bb6],
    [0x1da32ed8f22c0e8c, 0xe3a782d5fa314321, 0x5810dade70d6c21d, 0x16156078057591db],
    [0xa26390b4e59b9ba1, 0x7f08490f435fca75, 0xe1344abf63fd38ba, 0x29af8f09441dc2c0],
    [0xc9f1ed8920eb49bb, 0x19d6682b7448d40b, 0xcd238844e9134d95, 0x24d8bef242f5ea95],
    [0xcec4a829375fcba0, 0xe713952521c74857, 0x6a3902665416cb07, 0x2b76b5027eafdd7a],
    [0xe17339745e004a5f, 0xd3e7700b6effaa97, 0x80134b15f9efbdca, 0x293dcd5247e11439],
    [0x749f3b8c4b9e884d, 0xe5036fd0422f9444, 0x7a5d9b856f8fa5ae, 0x2ac6a13e798388a9],
    [0xf579d608c665eb68, 0xa15c49508cb760a4, 0x892ddae76de8212a, 0x1f5dc64952b9c1bb],
    [0x6488a8242b74913d, 0x53d261f52cc4340f, 0x78f2725efc1b739d, 0xeb5587c5c438db1],
    [0xd0a4783d2b07bcda, 0x2c1dcca473cc4bcd, 0x1ab2cc38567d4127, 0x2f58f77c4c03e959],
    [0xe4bea21aaf373cf, 0xcab22433870351c6, 0xd63c3f59cdddcf83, 0x1c908cf8e41976b7],
    [0x417c82d85a83e9dd, 0xf6162f1930e06688, 0xf3acbd6ef778e504, 0x23581184440c2ce0],
    [0x16c58a15f05e0ee9, 0xa6bf5d95cf27f40b, 0x2a0b3b6d89489e8e, 0x2fca62a378c65e6d],
    [0xf44e35ce3b2733c7, 0xf187541f7ffb8a0f, 0xd50a44d1eaad9690, 0x2390511812e8b21a],
    [0xeed6b19a76a42d9e, 0x38dbd808c422e880, 0xcfb78be90a433453, 0x24660a052455c262],
    [0x5ffb24b3958cf107, 0x30837db201365941, 0xc0163eec3eba51b2, 0xdb011c8a8f6df9c],
    [0x2c56b98e6df5b2f8, 0xba67639f7b52a773, 0x49ba12709f1bd117, 0x1bdd458fa2cd40ad],
    [0x8d90d4eb53974c15, 0x47ea364a48157df0, 0x774a650e1159c04c, 0x21fd3e66b238769],
    [0xacdcc0635edc98aa, 0xfadd578d4ccaf273, 0x954d3e9dc4d5da1f, 0x7556eebb12fbeed],
    [0x85fab33fab36e09c, 0x9e97d29d11caf131, 0xaa1c9b4594918576, 0x200a1f0fa4e71fb1],
    [0x548a18ba37900f, 0x268813b2f9bebbec, 0x4e392b03b65bc3dd, 0x1795336032f18e1f],
    [0xb0fae895c42fedbc, 0xd2f31f3d159bc918, 0xc61ee6ea8137f08, 0xb3d2d7ddc758d32],
    [0x69491f157df85c0e, 0xdaa9c9b45096518f, 0x7a286a19ab96d73b, 0x2bf1a39486382c11],
    [0x33f1bb2030feff68, 0xff0bac5e242673ae, 0xf244d3d014d1a0e5, 0xe30a774c353a2cb],
    [0x52c108124bd40b0f, 0xa43bafde0315da1c, 0xfa2685d2c25fc510, 0x22dc5c692d9baea0],
    [0x38409584e9c8fb68, 0x944b0f1feb3d9172, 0x363997de4e3beaa0, 0x1c9a763950a409e9],
    [0xd4da4ed88fb33199, 0xb0b5335993e4e600, 0x54aa0bc4a11153cf, 0x15761f0591d99bc3],
    [0x51769ee44c51edc0, 0xa53b4dfba1ddd4b9, 0xdd3aecf4e7cbb669, 0x19374736f4b0ebf7],
    [0xe0179aeebc274cc8, 0xc05a33dd8a39c644, 0x9a3e813544f2d3f6, 0x1616bc37e489b155],
    [0xba16067841ef5edf, 0xab2bee4e964f32ac, 0xaae40a2f16262b5c, 0x2fbed52ea54d56a8],
    [0xb9ea68797bb03696, 0xb51de8e8015fabdc, 0x883944493baf240e, 0x1ee85a9999931500],
    [0xcaba7edae1eb2919, 0x35f28820f1ddddf1, 0x7e821a947bb4ba80, 0x2b78ea79b2336560],
    [0xd2e5727424cdd81d, 0x33254120f426e217, 0x41c2e953f61cc86d, 0xe84e11e29a4b9ac],
    [0xfe96d7b28bc3b2f4, 0x86784da79796f308, 0x275da5f6bd86a159, 0x2f28c96987a9aeea],
    [0x1baa5b40f8751ae7, 0xc2f9494911100a4c, 0xcd96c501d5461df5, 0x2c14cf8c8c895efa],
    [0xe65ebf019776ce17, 0x9f5ca1e8460801bb, 0x2b438015bd49b31d, 0xd311aba1168e235],
    [0x5acdd126066c119f, 0xe586e71d79e76d14, 0x66e640fde96fdbe0, 0x2d1ff9afaca2339c],
    [0xbf32fa2d3b1842d1, 0x7e7ee0c611605320, 0xd5f1880899e3add1, 0x1c5ec2267db567e8],
    [0x30834bf136827a83, 0xa8fe557435ecf51e, 0xad7acbd09fcecf10, 0x202908d4f1a4ebe],
    [0xa6dc91d31913d982, 0x1a8f921b32665cda, 0x5475a10e21e432d2, 0x188d37c682552371],
    [0x595eef3a064eabc8, 0x58ff8d789386fdd, 0xb64b65e1c5f458bd, 0xd976b5ddbc8409f],
    [0x33d6e4e682066db6, 0xbaeeda1ca9cba82f, 0x93947b6ec6455b6d, 0x19268d14b34ccccd],
    [0xe34b0b295f6db1b0, 0xa3a4ff930b59b733, 0x13eeb15a3d5e65b3, 0x68d38aec68f9182],
    [0x26c2b68a3fe466f0, 0x5cbf6d667eaffbc7, 0x4d2210d2bc2b6058, 0x24cf117219d82399],
    [0x3004f64651e821c7, 0x5f6e45453119a63c, 0xf85c741fffc4d5aa, 0x122577912131a547],
    [0x2657ac703241d4fb, 0xe3371ca2be526495, 0x245a77ba200d39d, 0x1996ff6a6f3dafad],
    [0xc4366eaab3ddfd33, 0x5e6c6e60aa660c3d, 0x1534dff90e04f067, 0x1c84f6cd3c3b1d09],
    [0xf26bd42a5f356fe7, 0x302660bc6df31171, 0xc2622f3be83e52ab, 0x11f23290442ae048],
    [0xc8015e1c9ae7e56c, 0x7ab91a5b020252f7, 0xf8b103c39583be30, 0x2311bcb36c72d2a3],
    [0x31b51e83ccadbcfc, 0x70dad40eaab70cd, 0x75a5dc5c1f832166, 0x125707cf76963d64],
    [0x33f1bb2030feff68, 0xff0bac5e242673ae, 0xf244d3d014d1a0e5, 0xe30a774c353a2cb],
    [0x548f703649486988, 0x6a1da689ded43e1f, 0x87dd95d95f3c91bf, 0xb4b8a05506a0553],
    [0xc0f44b00c6131ae6, 0x38f9e93aa78b5fe2, 0x45e4ddb34e04c19, 0x1d0c6ac842eccd47],
    [0x21f07aac10e30cc8, 0xf41b0e20f9cd8a61, 0x830f967241ed0821, 0x8eae224067879f0],
    [0x1a10901cef975cdc, 0xf2a52fc2530a56f0, 0x664cd5da30f38013, 0x73f79694b751847],
    [0xf5d4895e97391a5f, 0xaa4ca5ec1934f1a7, 0x1ce6136df76cae6c, 0x1294381efbe257c1],
    [0x58be98ff6b3f553c, 0xc60981c0feb8b2dd, 0x9588f7c17b27db8d, 0xc80e686ab09da31],
    [0x7f7d93fa7bae6766, 0xb09959b3a1e90b45, 0xb0d277ac13613d59, 0x28b442efb75aa8e6],
    [0xd5c10a0d5970042c, 0x202f22054856155, 0x33aa2838f6ba83cf, 0x302904181cdfa19f],
    [0xd547db889adc4dc9, 0x89f2576d78504227, 0x11663776b4221009, 0x2b17dcbf694b6ee0],
    [0xa594f205eb554de6, 0xbc7a8f028db060b7, 0xa3fc154664390d7d, 0xb89fd0b5f5fcb94],
    [0xe949f8a223d1c0, 0x3cca00ea98c538d9, 0xffeb6bad54e34bf1, 0x29643b0ab6cd148b],
    [0x51d3e3994f0be643, 0xd1ec747e7f9804f9, 0x47779044da20a35f, 0x25ac40e12ff5d3ab],
    [0x5a4fcb3d9c992524, 0xe6c99cf54186094f, 0x80d6ff651654f808, 0x22b19dae475254f4],
    [0x334da64ebcc0f57, 0x926c83b4a19031af, 0xf1c83848bbe3f9bc, 0x1c5591a266c5ac14],
    [0xc1b736c885a42643, 0x800ab916118530a0, 0x5c40390d7ef1a907, 0x22dfd894770188e6],
    [0xbbace3ee6134f65f, 0xf58f2cc4ad3fc746, 0x4c0c9e94c05b1490, 0x3ce73087e6cf15f],
    [0x48c1d6c3c743ce29, 0x75b9ffd69dc115e3, 0x224a9add14af01b8, 0x2d391381bc0ec52a],
    [0x5e78b02c4f84414b, 0x92a4433f5d65f4f5, 0x8906c091a612b9ab, 0x1561f352a096cb32],
    [0x8ae9ca064ab2ae64, 0x9f0269e89d63d48a, 0x6cf8694fdd876a1c, 0x25de146f3cc4f32b],
    [0x771da8d1284a77e9, 0x7913a27067d1f664, 0xcc60d25f4c73a479, 0xf410294c8d91a9b],
    [0xf1ba49c652b033d5, 0xb1aaa9d977ba292e, 0x58df304954bb84ce, 0x11a522b6b25687e2],
    [0x7e79e7eb031f5dd1, 0xdc8b1effc6027581, 0x8f06b6984ad53a5a, 0xd061366179c0260],
    [0xbbb8f06bebf15f8b, 0x68da55306e08d00f, 0x974254e48d7dbccb, 0x14b4604d095f37b5],
    [0xb152104f511eb53b, 0x559ac1379ae507aa, 0x62fa33f1e52c5a6, 0x2f0d5f558fd4454b],
    [0x5452e215f62674c2, 0xd6a6fb63a15d4cab, 0x196853547920b916, 0x11b307ffd788170d],
    [0xaa09cea515001c35, 0xe77c152e396026fb, 0xb41bced2e1aa5be7, 0x2c4b021e2b757863],
    [0x33f1bb2030feff68, 0xff0bac5e242673ae, 0xf244d3d014d1a0e5, 0xe30a774c353a2cb],
    [0xc8a251137bcde383, 0x5805c2a3e87c4457, 0x632403da8c2a96a3, 0x32fbae1fe345271],
    [0x3c1c11752c6c30d1, 0x283dd8c4ff144621, 0x8266e052762cbf42, 0x197360c47371eb2f],
    [0xe06c871f0dcc4ba0, 0xce3e9d8492f6806, 0xa64720db8810df37, 0x213ae97ea4c10ec4],
    [0x763878395ce18af3, 0x454fa082bd84b255, 0xb4ef89316ef3a127, 0x23ea027e72e70e5d],
    [0x2cb1c805465e0bac, 0xbabdc59b664d33b0, 0xde296385a9f64cef, 0x1a522fc99812fc6a],
    [0x8ef23daa5077298b, 0x30224531f3d773b4, 0x8ccd9e4797e17d6a, 0x282bdd7da996a1d5],
    [0x1573e76b9a95cb66, 0xb669f58b127b174b, 0xa0f1e5ce9a99c9e1, 0x278f051ff5a35ad9],
    [0x8dc4550862f7424c, 0xc9ddaf2e6d1ad10b, 0x56f4afe9649c2ff2, 0x14d2d438ddd5fd97],
    [0xd3f2767e86be7b9f, 0x10d09a94f03c3e7f, 0x6968bc7a1837c03d, 0x18dbca4af7f465ad],
    [0x63e8ce9ede6c7fe0, 0x131588d16986b03e, 0x47f62d2e6b1024da, 0xb2f4c4bb0ad8c20],
    [0xc28170eeea58f782, 0xb319da5dab6cd4a0, 0x62390b31a48e8b33, 0x21316797b38707],
    [0xd17cb1e8f4b57211, 0x629efeecb5e71a64, 0xf8949c7ce7e789b, 0x6b3f86ee68e7258],
    [0xab917ca0b67a324a, 0xb8ba023593a99758, 0xd4d3ac4a6ded8b65, 0x21a36423378fe8dd],
    [0xe1eff000fd537006, 0x1d8e98513a9b70c9, 0x2110b03e7e9f1464, 0x1ff68d97b4ee71f2],
    [0xd747cdacf7765b7f, 0x8887789585a28aae, 0x14fd506d418cd7f7, 0x2e0d1aad3b8bf213],
    [0xc005dd89c808efa4, 0x6443c729ece0612f, 0xbda66f4531eb4e87, 0x148bd4a9f6dcf19b],
    [0xb3bb80724a8510d5, 0x2a441254b57aa25b, 0x1e8d5dc09960399e, 0xc11decd7766f560],
    [0xeb25f4064656e5b7, 0x9392e0fd3b6fbbc9, 0x4207cb5f22e6adbe, 0x653950fb31c138],
    [0x929affaf57c95818, 0x3f0499cf7c35ed13, 0xd9ff8af58dcacfcb, 0x61c7be518e2a7e7],
    [0xafb6b151d94fefa3, 0x65ec22c94686a63c, 0x93cb55ae4fd8dd00, 0x632546dddba57da],
    [0xc5277b2990418750, 0xcb0d1c9041283c1e, 0xdf84a44ba6aad2a9, 0x1458d6428e6cbba4],
    [0x4f457874f7d8b8fa, 0x2b726a9011f0180e, 0x60610a21dff1ba81, 0x1c58296b3da9f614],
    [0xf009fefc204bdcc3, 0xa201c35487b1b81c, 0x5298f360dc7f55ac, 0x11b039dcb0af8c79],
    [0x5705a020211dd0e6, 0xba94563f2814577e, 0x499a075bf5857bac, 0x1fcdbcfd2065473d],
    [0x183ae46042dfb040, 0x297d7aa9dd473740, 0xb88fe4185dc29bc4, 0x2d9f02a658742633],
    [0x55d765309cbc8af5, 0x1deec2ed9196214a, 0xcb25c2332a3d4848, 0x100e915a9be179a7],
    [0x33f1bb2030feff68, 0xff0bac5e242673ae, 0xf244d3d014d1a0e5, 0xe30a774c353a2cb],
    [0xc903932747e520b7, 0xe73582b53555822b, 0xdf2de9e4aa3091a, 0x1a618c68dba0afe9],
    [0xcadb093e7ff5a301, 0x66006177c574ce3, 0x6b89710f03b3889, 0x2cc1683d5312031d],
    [0x82ffdd8a0888fe09, 0xb39a8e3eb83d7024, 0xb2432c0ca10249b3, 0x16e6197f7c10ac35],
    [0xe9f72e7021759490, 0x3b3cf8f10721e87e, 0x260b4c5651064fbe, 0x221e4bff156c6a15],
    [0xc1e4472d27109b28, 0x4fec12507de6e8fb, 0x7e5794a6fa66b143, 0x17ce9f46591fb9ea],
    [0x632ee19d9c51e556, 0x1461e0994e04132d, 0x89d92325c52c8514, 0x22fce270c4b0961c],
    [0xeddb9f083f66590f, 0x98a457ecd5469eca, 0x5432b62e77911096, 0x15cfedfe30848fa5],
    [0xaec9f07bd0969f51, 0x6aacc4769e5ee8b9, 0xb61b75ad600de623, 0x3343e9088cfc374],
    [0x833a29c4084d44b7, 0x8c80ddb446861d6e, 0xccace1227dc72f2f, 0x233d73ed21179810],
    [0xed93cb153fbc0be3, 0xc46dbbc0afa8c840, 0x39e6c99478f2bde9, 0x20c8fd20ca1ef20c],
    [0x5b9b22df83b4c672, 0x52f6be2e67568dc4, 0xa80aaf272d12f723, 0x696b187d4df08aa],
    [0xc0afa30c1873c429, 0x53c7907135c9350c, 0x574a5378f272997, 0x26242eaea95d4383],
    [0x88815694bdc078ca, 0x523020e04549b7cb, 0xcf6be1fe422fb2f2, 0x2db7e74c58283b55],
    [0x79b8996a1559d821, 0xea78c43a71f202f7, 0x9e62d048cb1a820b, 0x1c3db6fc9f3fab8d],
    [0xd207c7c6a330d395, 0xb9fd124674823942, 0x7d247d46b7cc0138, 0x14eaa8042ada3a2a],
    [0xd201d29cbe419aa4, 0x61c78671f7484453, 0x55c6c9cf4808569d, 0x7de2b61b5d7796c],
    [0x4e60ac4ff18bfc4d, 0xeda83aab24aa47d8, 0xaa7929777ac0914, 0x1db38a0c262bf63e],
    [0xeb995255fff09df9, 0xfbe8f4b368a738be, 0x91d95038e04a2886, 0x2f2c6dc0cbcc26d0],
    [0x518e55163cf540c7, 0x7f574cf32add5cbe, 0xe577993e48205d0a, 0xcc224d62b63572d],
    [0xd1d6c28494c309a6, 0x3ec8666f361b500, 0x1f0319cd575d63e6, 0xf301c14380b822e],
    [0x3ea5230b622e7a9c, 0xe2f9deca7503fa53, 0xd596522efbd078c8, 0x2e5cbdd4c1599557],
    [0x5da40bb720503d53, 0xd6bec1a90dd4e4d9, 0x5fe9fd010bda63b3, 0x2b7b5611c6e8b5f0],
    [0xd4701369c2740155, 0x32b61cecb4d3178c, 0xbf486d5491bac13c, 0xac828155aa6627e],
    [0x493c820fe05b00c3, 0x352031a5df260edc, 0xdd176eafd23fd635, 0x1946be8c11cae21f],
    [0xb85259e6f85f0030, 0xe63fa53e3a4acf89, 0xa8051d60ccc08795, 0x19f2dfcfbf6dfb65],
    [0x3b0e4070ee7baa4e, 0x83c6e26d9ed3ab2a, 0x402c76a809563f0d, 0xfe752a9169dff4e],
    [0x33f1bb2030feff68, 0xff0bac5e242673ae, 0xf244d3d014d1a0e5, 0xe30a774c353a2cb],
    [0xceb2a2a9fc52f45b, 0x1286af950f5b5b98, 0x1383b7eb6759e697, 0x275833d56c1035de],
    [0x8f672ffd3051198f, 0x8216f0621e87720a, 0xacd4f9c776b5999b, 0x2c02e7a87debeb5c],
    [0x58810cef7ee91851, 0x1b8bcbb97e5e363a, 0x61e33bff1e7f97ce, 0x3a6f6d6dbbd9575],
    [0xbd4110976efda34, 0xbb0ce83a89a81c5a, 0x90555db1263b34d2, 0x116fa8d34d5c67d2],
    [0xd933f8b808b6e075, 0x5d75e9c305b541d2, 0x6db99fdb340df3e8, 0x1e81d2d2d04f5cc1],
    [0xbe554080a871497c, 0x72955b62538c8c6f, 0x5983aabb51a73244, 0x284898f56dcde9b8],
    [0xde0fe31bc4e694a9, 0x4c55649d5e0f81a4, 0x20e9efb7f8071c0f, 0x1ff3a909f501d154],
    [0x52a9614280bd9cdc, 0x8bde905cfa1da8c0, 0x45474b57d44fb121, 0x47be1a9fcf3bc78],
    [0xfe527b7e0d5b35d9, 0x7bbfb4172859fa6, 0x3856cc840fad2b0a, 0x2a3787a31e5611ca],
    [0xfacfc5572c885b2, 0x87eb9f4908c475f0, 0x655259991393cf7b, 0x2eb3bf4b3a98c7da],
    [0x1091b6a85fc94d6d, 0x7232cff235365a2a, 0xb1f5b71c96457cf9, 0x26aa5f863ce3498d],
];

/// Part 3 of the sparse partial-round rows for width 14, as little-endian limbs.
pub const S_DATA_3: [[u64; 4]; 256] = [
    [0x14400ff4d2e91edf, 0x827ba85e51144c04, 0x10ed1610f5f9b22a, 0x19a6bc7f148d056a],
    [0xed1627b9e7f30a72, 0x82f51df54cd54d4c, 0xcfca7a2d2f6f2a5e, 0x196f5c78726e289e],
    [0xd27b7ffd2041db4d, 0x5fa017f472d5cbe8, 0x9a262810944ef9fe, 0x1118c048d3dead01],
    [0x3bc85f963a6bb428, 0x402a529d4793314a, 0xd46f2d4cf346e22e, 0x4c7b810ff3f0de],
    [0x2c6809e22fa0ed24, 0x3f37a5e5765663f2, 0xab207a6c7aae2669, 0x2e843295db044df4],
    [0x75bfefb4833842e8, 0xdf4879954bccd82f, 0x2fcf0d0530c0a02d, 0x17cbf9e9e9019667],
    [0x275b4f7c537eee18, 0x5ceccde43a9ca8bd, 0x8b53f428166ca0a2, 0x27ea08561c8d0599],
    [0x616bdccb8a2451f8, 0xa58d73c39727a8ae, 0x9bbe74e7d14e96ee, 0x3491984564105af],
    [0xd8750170b643eeaf, 0xc662b7d5bcc838fd, 0x780d5ba09878c898, 0x287011118b922300],
    [0x5190f74d731e7b82, 0xa1992546461d6cb6, 0xa4c34856b37a5a2a, 0x19af1b66a5d2c6e5],
    [0x19fbea7d867e1b5c, 0xdb5b35c0114b3d5e, 0xd124f370274324e9, 0x438f8d1a68e04de],
    [0x32518d3d4b8e9f1c, 0xac024746f30b4b02, 0xafb19b2f9725a3dd, 0x1b7df25e02c2d88b],
    [0xc24fb3878cbbe2bc, 0x33bd30f104931fa, 0xce614fdf17473f7d, 0x2fca63f9577b3f88],
    [0xb0bea1a0ef184db4, 0x460ee6e9b7541f5e, 0x14b1ef8926206360, 0x1a782b1c47328690],
    [0x3c92362c29c8c186, 0xa742c2639c62cab4, 0x674fa67f49a62a3d, 0x16bcba1157829125],
    [0x33f1bb2030feff68, 0xff0bac5e242673ae, 0xf244d3d014d1a0e5, 0xe30a774c353a2cb],
    [0x5e0b7299ea372295, 0xf6fdc3d0232029ec, 0x64ec7443330027c0, 0xfaa456a4f334a6d],
    [0x6e09556ac9fa499f, 0xefc57a75bd794f9, 0x1564cb94712b6fd7, 0x21ae168025d87160],
    [0x4f4fb99cb0fc7bf2, 0x8e9e20956925cb77, 0x8b97c58326d60f8a, 0x2659b387d06b87d2],
    [0x20185ac05641a510, 0xd4ac7574d23c753e, 0x6bcfd794a53b1cb3, 0x6ecd6537384d3f9],
    [0x79409db9f61a7a88, 0x68ee4030f857e830, 0xaf39168580ca1352, 0x2c47b359757b6aad],
    [0xe6b6de8b6381e60f, 0x6accc38c54777867, 0x2f3bb46f4b411ca8, 0x2e3c4551ba4ea1bd],
    [0x13c5ce8d41b02747, 0x9091c8c4e19b218d, 0xdf6dd9c4628cfb4f, 0x1aaa42d6777c0ccc],
    [0x2327ae39ea805e2e, 0x6953ffde1fd49caf, 0x6b5e339400ed1786, 0x101d7175ecd398cf],
    [0x426b97fb8a720bdb, 0x33395d4103c62d76, 0x7b013d7e76e0219a, 0x47aac02ad51c60e],
    [0x57bdb5fa002139a6, 0xf836d55eac72780, 0xcbdb4412f5e98587, 0x2159734df6ba0ebf],
    [0xc14e91a679d715fc, 0x79e26b2eec7f70ad, 0xe17e76a5323cc6e8, 0x12c80a7f80bc5789],
    [0x2a78bc9827c797ad, 0xdfeddcc987e7fe22, 0xcf5e82063ef6dec2, 0xb37ff835c21aa08],
    [0xf8f202598cb3f7db, 0x1603ad40ddeb3cad, 0x1812073bf0cf9fb6, 0x136a6d023c29c33b],
    [0x4a61b95252dd7b32, 0x2688d9d01a8bb20f, 0xd0059307617c47ac, 0xbdbf9722d2aed63],
    [0x3ec4c359137d468d, 0x37ac8c365100935c, 0x57ec6ecb3fe1a709, 0x1d90c4f4c52e4c81],
    [0xfdea5703affac237, 0xf3a4ef92986c6e5c, 0xbfe2db087ca7ff74, 0x25d8cfba9177d817],
    [0x281b210ac3f1a142, 0x6cc9e69e796cb218, 0x21238c777e3d7f36, 0x30562348197f23b],
    [0xb574b40c645c1e0, 0x8af0bfad5006d637, 0x426e3fd32efe3df9, 0x2e6b5b67a5f7449b],
    [0x22d6837d41add442, 0xf69794540671bee6, 0xfd1084cd3dc94aa8, 0x60c72ab89831fbc],
    [0x3759cd3b02d7476b, 0xf5aca5859086ae9c, 0x422d779c80fa13ec, 0x949047c842cce9e],
    [0xfa4af3dd7bdaeb45, 0xbdbb5113c77a4c06, 0xef60f82e8026db19, 0x8c9031e3f9fcc8f],
    [0x9108d6c85c3e7cd2, 0xdd95cf1f57056bc1, 0x27478ffb5bf44685, 0x2850905ce0c275e4],
    [0xea38b8a96f944455, 0xe93d28b3acd6d479, 0xd20cb4f0cc0d10bc, 0xc76f19ff9f52168],
    [0x7eaa328ea1ca3c99, 0xf616c70ed2bb793a, 0x10dca114c22cabea, 0xb66fa2f9d2feda7],
    [0x3090e05e55e768ca, 0x98890c946aba2095, 0x8b64a8e925c41c92, 0x6198754cf90bc04],
    [0x7d0625b258126c6b, 0x892702a1d3e65403, 0xf868591c6bd14424, 0xc637cab8864b9bf],
    [0x33f1bb2030feff68, 0xff0bac5e242673ae, 0xf244d3d014d1a0e5, 0xe30a774c353a2cb],
    [0x818397c73be72f7a, 0x5919d1ace55a101, 0x23a4c911b190b630, 0x21325a5b2ae982ee],
    [0xc47535d9e08bec23, 0x2d5705b576d4fc14, 0x934e439b065e7a16, 0x48d6872b84e860e],
    [0x29cbda976462ed81, 0x1d79c4be4421fd95, 0x38e880d725e71d8a, 0xde725e2f88af9c2],
    [0x1c2e7735d7ef1803, 0x7ddcac2add078248, 0x4e16264a0fb0853, 0x27eb4b06d352a34],
    [0x4012761106a0955a, 0xaf9f882b74535829, 0xe01829f03e74fbfc, 0x1b47254e3cdd4412],
    [0xdd9ba42c2323f755, 0xa53ab0ed1462c6a, 0x728dac5d12fe9907, 0x1b4332f4bc0f47d8],
    [0x540842686f728ae5, 0x52b74a1285072d62, 0xe89e377cd7e02d3b, 0x218d22d5f13b09ac],
    [0xe0fdde7a1a062d03, 0xf7e6a4d5cc4911c7, 0xdaca95813e82527, 0x68ad6997a9ced27],
    [0x43fc50394edd65cd, 0x5ce0034bd6f6fdbe, 0xebc7f7343397b23, 0x67a187bc1e0d174],
    [0xac09bd337ab9a756, 0x56e9cc7b17086d68, 0x1adc50f40bc7171e, 0x26d27d9b4d504feb],
    [0x2293ab032a9ce962, 0xb8772f7948829dbd, 0x75ef7d324c7b7c8c, 0x6e901afc5dc879d],
    [0x8201e74110bc7526, 0xa2fe5f91aa4f4c91, 0x131f9765ed587425, 0x14c8e19997ea7bb4],
    [0x3a4a4f61dbce96fc, 0x8fb02fc236bd40dc, 0x9618c993b7192c97, 0x273abe5cd9854134],
    [0x1f95429d8856e296, 0xc19cab24d35d168d, 0xf84a62b794f2d00b, 0x715d346135f3b13],
    [0x500481a1f472f174, 0xfe0800fd3af70329, 0xf6a2550e198f21b5, 0x2b9bcfa6deb252cc],
    [0x18a169748e496c9c, 0x7e4010b69b32ad06, 0xe93174b1564fbdb, 0x239f7dc3817df74d],
    [0x8405b1b6a25b3f6, 0x55c33bc79834ef7b, 0x97fd4d0cb72c2388, 0x21978d48e2d9c7b0],
    [0x16e2c1927df5b950, 0x38528e20b0109129, 0xd24a631fd3604d42, 0x269c70c27b7564c9],
    [0x4df9e490b5dd8f68, 0x7597a5e812fd56, 0xf9efaac1de85327f, 0x2c583dc96a0a9dc9],
    [0x47a9cb5f48418094, 0x6dddd453c81d0096, 0x82106069e0d56de2, 0x121e4187606e3b33],
    [0xf397c10e9dad80ee, 0x3917e1169c9c38d0, 0xb17eb9f8dd647bf0, 0xbeeab0c615c4acf],
    [0xe4c8f7f358638c3b, 0x4f5bc2bf88ac583e, 0xeb9b702cdd93e84e, 0x1e07049aefd34f62],
    [0x261b21794a4bb03f, 0x5a5050122abaa725, 0xc813948bfdbd3d52, 0x59c6422f0c9d34d],
    [0xd48baa37b85b318a, 0x14cf5723ab4a85ab, 0xb3aba3c0dbc1a32d, 0xada60827cce301b],
    [0x9ac6d7b47fbfb080, 0x60b279a5a7980303, 0x906fc9afd3d21037, 0x10370b82fad9fa38],
    [0x5d1a38df65828962, 0x7cd3e39305dbf489, 0xf3477d1bb36a57a, 0x22b53d470c374ee9],
    [0x33f1bb2030feff68, 0xff0bac5e242673ae, 0xf244d3d014d1a0e5, 0xe30a774c353a2cb],
    [0x6832959ef32d6a8d, 0xaba39256622dc16b, 0x7e106308001501b5, 0x121bac144ebf731b],
    [0xe5448524e5acf376, 0x2b4e4b26a6be57c1, 0x91c93252cb96b7c4, 0x2ce538366c9cee7a],
    [0x6969a24a5c2f34ea, 0xbe3cac0513ec37dc, 0x3686062d4f44fbec, 0xe1eb214d4443a82],
    [0x856158eea75583de, 0x82cdaa8825760f40, 0x9f2d8e03efc3e54d, 0x2b10f3aa519015cb],
    [0x5f2a36d3c6589a4a, 0x8565ea485fc5b317, 0x666426b008a02be7, 0x13dcdc97aaf8d23d],
    [0xe609406494d8b04d, 0xc6586a3ba2da4ac2, 0x188a1af7f3aabfd0, 0x1e179f5a8d8cf761],
    [0x65bd8f5bc459c5cd, 0xd3780d72055c5bf2, 0x615ef9103dbd8224, 0x26350c1076435ab7],
    [0xab4b67f957703dd6, 0x5058b8d9254ba788, 0x512be5d7549b856f, 0x2569aad1663fbf0c],
    [0xbc6c7e845dd2756b, 0x9e896f90b73c4b6e, 0x608d41b9284b25f9, 0x21d296071bb18ffc],
    [0xce10bf3ac11ac946, 0xb575989bf763939a, 0x3108b19db3580bbe, 0x3403ad2e4edbad5],
    [0xb49732d30f8f68b2, 0x909b75602e7ef4d9, 0xa27806e4eb87fc4a, 0x2e87a068e7e10cd0],
    [0xc82110bc67e1133d, 0xc528252874e09ee6, 0xe5afeee9ec8f3888, 0xfecb01322ccd429],
    [0x26d24666ecd9a7ed, 0xa152e941e99d0d64, 0x3fbf9fec55cda799, 0x21b1a2e21480c862],
    [0xdd7a578db5db669a, 0x8adae2debcf2c0a, 0x51c5ea3de6eecc8c, 0x10787afe51951f5],
    [0x6d1665177576f052, 0xa0550841e41ad2f4, 0xf4adce069972a00a, 0x129a75842ce7f380],
    [0xc6f2e7f9870a7102, 0x3b6aa7baff5cae3e, 0xe66c014e83db7c90, 0x33844a0d5987a19],
    [0xd539436a66b4950, 0xd20d0e8c8c1fa50d, 0xdd29a5c0858f6bb0, 0x2af0d00127c68081],
    [0x5523b0e7199b4278, 0x11cf00ddd0ccfb16, 0x282d2d8063ab568d, 0x2452bc4a8de2db1f],
    [0xc0d34257ec689f1, 0x22650f494c2f7967, 0xb79bf985336e4564, 0x7053595c4f99205],
    [0xb8c5f9d0c9bd2a24, 0xcd8dc8c5e856e185, 0x1a8335df15429443, 0x1bad1a52d292401b],
    [0x5344a7b1713a31b7, 0x355ff8f18379004e, 0xc44a3a17d80a7818, 0x24635b7d3ad41a5b],
    [0x997cfdfb1ed927be, 0x2709756360421113, 0x702ccaaa35e3d3c, 0x2e7876129f03a5f9],
    [0xf8f791ac516fa897, 0x7ef8fe40223751db, 0x44320cef9612807c, 0x1f6028d50d8a7ee6],
    [0xc53525ab2d80e5bc, 0x5cd1d214a4831ebb, 0x3a689a8334d46e0e, 0x771c9d46f602c61],
    [0xf960088ef64b141e, 0xa23e80371c82349e, 0xf76c891df96d8e4, 0x269f052ff6df5ae6],
    [0x592077f15de362, 0xc2fe649baa6efc51, 0xac5101cb03a28f3b, 0x2961710040a2b2d6],
    [0x33f1bb2030feff68, 0xff0bac5e242673ae, 0xf244d3d014d1a0e5, 0xe30a774c353a2cb],
    [0xcefec8a82c3da53b, 0xc9a075938902c676, 0x5ef53a0b79f688c0, 0x10740ce6766bd5d4],
    [0x9b292df5d6084e02, 0x543857b0d7a601, 0x5eeba26c3971c646, 0x27f3dbcb60ac79ca],
    [0x4610b8c95f1fd186, 0xee22ba57790926c0, 0x5e4a17cc7600123c, 0x21093160140db2a2],
    [0x27e62e336cb27a47, 0x8c3b083b2adb097a, 0xb60c7571f367d604, 0x891be8d562bb6fe],
    [0x4688212c68d50a1f, 0x71c6efebc77e8951, 0x7a8da2d38554bc55, 0x2ffb17d674958fcb],
    [0x5638fd6e1d357b75, 0x2d26898c64fef55d, 0x940b27f645dba192, 0x94c68828cd769c],
    [0x93f6073343e798f0, 0x1e4a87677a90e627, 0x41cab995bd1b9057, 0xd55cbcf35eb4b2a],
    [0x707d271e871e7061, 0x4c27af317f13fc27, 0x87fe66cfdbbf8c23, 0x18e91bc3e095f9b6],
    [0x72b3aef2c5d41019, 0x3f3587dd7eed49c7, 0x89f73f7f0926fe0b, 0xec0612f29bc32d],
    [0xf2ab63a324ac3451, 0x63d907a8bf4b22c2, 0x1a34b567999eb4c6, 0xccf5311099aecc8],
    [0xc8fad67128772d26, 0x676f619dbc1732dc, 0x9b6a8021ab80db00, 0x183ffbe622900edf],
    [0x341fe0b6387ce2bf, 0x5b18ffaa61c6b0d, 0xf009e17ff632db35, 0x8f4331aefe28fb6],
    [0x7465c375b8747161, 0x1ded2bd207fae4bb, 0x8dff1c8777ff539d, 0x9eb7f33498704db],
    [0x8fadcdc40bb008e5, 0x84d529d930f865c3, 0x18b3039c7afa9a0, 0xa531199830d7120],
    [0xd846f92068c066f1, 0x4733c8e174e76be, 0x3f9b837b687bbb48, 0x194b3cf28d7b6241],
    [0xc8956773035f3ef6, 0x54dc8aaca97a4eb0, 0xe8e6b900127d0dbb, 0x1b8604e1486a35eb],
    [0xf752e6f079ade75c, 0x22879912b707e1f3, 0xc7e0b810a53903be, 0x9b8de36766da341],
    [0xd4a87a923ad0ac35, 0x6721d31f21778706, 0xe3c0b803ca2cf85a, 0x1a435eb920d2b84f],
    [0x549a3c6c34bdaf59, 0x9c7cceb980d234de, 0x92f4702accbcbb97, 0x2566d9e893c2afd8],
    [0xfb82bb09dd5edb19, 0x788484702d389f13, 0xca8fa98dc6e75c6d, 0x18df8272b0340557],
    [0xcb6c1ff79f25bb29, 0xacf0c28691685520, 0x2324f01a2693d3ed, 0x20b183f7293c68cc],
    [0xcb0d2bb3dba74f31, 0xd53b059e21004b19, 0x93ebab7ea53e0d5, 0x128c7a2624a1bc92],
    [0xca15a7aad1ad0ec1, 0xa3b54e9d4fe0f474, 0x80d59ec06db46c6f, 0x40287c11b5a3f9],
    [0x8b87b6f216ffcd7f, 0x694595207a099c71, 0x557e34b091518d6a, 0x21d7fa42bc56b52d],
    [0x7457afbada8a5d58, 0x194a77513fda84ef, 0x3e4ebefbe57d6f93, 0x169dc2796511017c],
    [0xd2432691470566cc, 0xb497200e0d27312b, 0xb9584e557a9c18c0, 0x1d74ad732a1dc804],
    [0x33f1bb2030feff68, 0xff0bac5e242673ae, 0xf244d3d014d1a0e5, 0xe30a774c353a2cb],
    [0x4a8121121f7eec67, 0x11d17f5758aeb8b3, 0x261f98ec83cb17d6, 0x2aca8e251964d1a3],
    [0xcdfd4f47c99eb5b3, 0xef963ffdf2036171, 0x1751d11335d43514, 0x12e284f43dd76a9f],
    [0x9c4c7e654572065e, 0x572e98073e18330d, 0xeab0a39fea36c393, 0x5071e18392facab],
    [0x5f2c19a39086eae7, 0xcca3eb1029d2994c, 0xa5cb7a63c39b0d1f, 0x260d7455c8470a5c],
    [0xe7576f101dd05099, 0xfe72a4fc79c92e93, 0xfb7a05446448d550, 0x1cf8584e37677b19],
    [0x470ca3c098cafce, 0xc37503198335c905, 0x60d8840e9c7b115f, 0x2d19dba2b7658adf],
    [0xde0904e1ac8a3918, 0x292b6f62671c5cc9, 0xa32da96c74565bdb, 0xd98ea1ad72116ce],
    [0x11b80fd166a20cf0, 0xe470915474a285ab, 0xddee655d4feaf537, 0x24ac021320aa1f1a],
    [0x368a2c79223d1131, 0x2d132ae945f7cb81, 0xbeb294a1c7240b20, 0x216feb63069f6947],
    [0x4d4727f07e7951bb, 0xdab5cbf438b6782f, 0x6092763d78973859, 0x20ecca83ee5156e],
    [0xb868ffbec464da38, 0x8912d762b3026cb4, 0xc1f3313f372803cf, 0x1e632a42fc326036],
    [0xe35e96a0441d56b1, 0x4e184f48c5827373, 0x90b4347529d6e873, 0x2e652d54941af14d],
    [0xbae74ce703e13eee, 0x3e70f7956ea16f99, 0x6933e195e6327a85, 0x251ff531befaaafc],
    [0xca0d5d70cf69cfa2, 0xe010e2f8e513e5fd, 0x8207e429b989e017, 0x12ac47acb9b71257],
    [0x2fd26a96a6033c00, 0x5bbdbe2de4fb7927, 0x3ac667303d31b27e, 0xcccf17e0d61b841],
    [0xdaa4b08742a9c195, 0xf8c49f7d2d310a20, 0x11aed61e371eeaed, 0x20f2060a29ea58ae],
    [0x2976bec878c1fcd0, 0xf88ddb3496842a8, 0x10ff690400ac156b, 0x1cb9f0d68dd3c146],
    [0x7aae86ddcbd2c363, 0xd37c17fc731ecb6, 0xfb82a6f24ca38558, 0x1e75fd54061e8660],
    [0x281aee269e9509da, 0x857b9ca3f389a34d, 0x6975700aac34dd02, 0x2d29ebc4f807741c],
    [0xcbc2400345eb7bbf, 0xc40ed44327c7e19a, 0xa0104f07506e2211, 0x1871cf71711f4036],
    [0x6233b0aaffe4a814, 0x4a78ef993f03d230, 0x959e71933395a41, 0x630b7ea40ac6a04],
    [0xca3bee772cc78e7f, 0xbd4dc1e73788a388, 0x961d5b2da26c0a06, 0x1ea87ac112d60f22],
    [0xc3eee8b32882c7cf, 0x369087bde004bb6d, 0x30f87c9b20ed86af, 0x26a7a6c245da9cf5],
    [0x8c0b7016afb25e6c, 0xce7bb7b3ac19fe0a, 0x787eca43ebcf427d, 0x1adf5a028ce2b8a0],
    [0x2e1f6c9fe5b55a1d, 0xf46b6adfc7d31fa8, 0xe628aa40101db8b4, 0x5e2e3348c9fb090],
    [0xd6ec4f6e677721aa, 0x1d99c70a2bc881cc, 0xb9c19f4cec48fa50, 0x81d87bc2e14f185],
    [0x33f1bb2030feff68, 0xff0bac5e242673ae, 0xf244d3d014d1a0e5, 0xe30a774c353a2cb],
    [0xba731b3933f3212, 0x21e5470822f04822, 0x522c043a1b2cb2f2, 0x2a7ab507906adcb6],
    [0x293cfb70b62abe59, 0xfb0866c6257c181d, 0x3a0007ff027dd589, 0x1e0791ec0c83cd1f],
    [0xdbee7f5299b26d8c, 0x7d0e6c6555a6c38f, 0xef927edd0f7fbd99, 0x19ad62da7c5d8766],
    [0xcb1c45d426f660cc, 0xd208bd0d3576ecd1, 0x94f86c42ccaa292d, 0x1cf518d282e00b18],
    [0x40c321aa89db7c7, 0xe1f43e0b41619cdc, 0xe65a379bb9738416, 0x86e5c668f2c7540],
    [0x6537029484b38496, 0xab1f4291d65bb8c2, 0x601f2a5f0f900f6b, 0x2bcd694a683fb621],
    [0x29362c6da4baebaa, 0x7cefca2718b39490, 0x23efce9c6e3629a0, 0x2b6f0a65bade0adb],
    [0x2a60b8f4106abbfd, 0xd715ee92ae7e2c0b, 0xa7fe1fdfdbcf0ab1, 0x12b25f49fb1cd92d],
    [0xcc637953a4ac2f02, 0xe2f713e46fe4d52c, 0x2acc620e089ac0af, 0x797c7a863ba81aa],
    [0x6973f444238f17, 0x12a318ff3cbe1cca, 0xd9e2bde6285860c9, 0x113166107727b2cc],
    [0x7ca7d53a30fdc94c, 0x6e4c9d957b38d6ac, 0xbdb47e3bd56d6e0d, 0x29d8beab8a793123],
    [0xb2acad3caad1c7b0, 0xfeb63a3315e05dad, 0xca30a5c05afd5136, 0x68f99bd269ec2bc],
    [0xebd349753511d342, 0x1797fadda47ae08e, 0x44d33e3db8425326, 0x1d8a2e95f5012b97],
    [0x61336e4da3bb8f80, 0x6e1f1a329a168e3a, 0xa147bd0b18f3e4f6, 0x26a6dfcbfcd2a98f],
    [0x6ed9b89866f767c5, 0x8add0b51cf54c522, 0xd8caa665e9687c2d, 0x1d5bdb15bbcfd215],
    [0x1a118aae84df1309, 0x463a9cd648769e8a, 0xc1a23ff4322caed5, 0x2bea457b568fc29a],
    [0x656ff28b1590ce4d, 0xb651830f979f8d21, 0xa0ab4305440a57f, 0x1dbe7419ee59dd58],
    [0x1e28c5dc9308d309, 0x7dfd316a0cd9566d, 0x91ba874c4b6e52c7, 0x17ab1d55da8ff173],
    [0x7726e065f17e2cb, 0xe9d64621c6b2ea4f, 0xbdd336acd117c4ed, 0x4a3a0d0f9e1b091],
    [0xe39aa91523b9e60, 0x660d92371ed85e8f, 0xa6e2534c1161abec, 0x2634ad4e91d1f63d],
    [0x29334b14cf7614c1, 0x4e98c3781d0ee88e, 0x7a3889bf3456a23a, 0x1afec968060a1069],
    [0x7f096c7fbb93808f, 0x7d5ea821cee69538, 0x2176ff3954f98357, 0x23a5fd23ec8919d6],
    [0x9fb8f07e382641ff, 0x82295f95632d17c4, 0x1299505922ebc214, 0x283039c47dab3607],
    [0x9664d43a1812e13, 0xebb52247527a3932, 0x1aeb3dc6388708f8, 0x1a0084bc1b3e95],
    [0x2d28d3f453a70622, 0xa7eba7d87542dfa4, 0xf27696610cac06fa, 0x16fdfa540f269b40],
    [0xf3a8132f38f4c0a8, 0xe095bf0c03572131, 0x2349d2930b08631b, 0x638bad28fc8427c],
    [0x33f1bb2030feff68, 0xff0bac5e242673ae, 0xf244d3d014d1a0e5, 0xe30a774c353a2cb],
    [0x8158191156d94b47, 0xbf40c9ef7a0abce3, 0x8fd27106ed926399, 0x2b960b4aa6bdb596],
    [0xe7f4950f2a108d82, 0x6286e5f286441b29, 0x5ba399d91f5287b5, 0x21ee2ffd32073721],
    [0xeca203709bd526c4, 0x3d1e4a8f32996ea0, 0x44bc34390ad7af70, 0x1a912af8a3a82ac9],
    [0xa921ef8547542ab2, 0xf9d3d5dda831b098, 0x9d8ee0b0bdc15475, 0x1e2d77fe49d12a91],
    [0x4c97bad304ce6bce, 0x8af46e6563e523b, 0x31b66e8973fd1533, 0x1e461b0bfa65838c],
    [0x6a44d90468839d3, 0xa378754416b7b744, 0x581ddde55054315e, 0x1222b1bba586c324],
    [0xc128076b5fdde8ac, 0x14370bda5a9844a4, 0x3f6c47a07a3f262f, 0x231cb90d301a6e6e],
    [0x40859d8f252fde19, 0x74b235e00adf1e14, 0xa8d57f5fda43c4b, 0xe3e66e543fb5929],
    [0xe3baecff97b2c13d, 0x16e053640c8ad9b4, 0x2f907f6fc16c1420, 0x1bcae3acb52de61f],
    [0x3bb98f465931f724, 0xbd9f747d787fb253, 0x4ac96ed8f80267a3, 0x2a2e7e286f90e355],
    [0x87cff909e922223d, 0xd93875ca170cd57f, 0x4dc5c6cc6d761f94, 0x1729e7b06ac26c62],
    [0x4dd510a57afb12c1, 0x5ec5c8936c2223ca, 0xbcd15d12f12d8c80, 0x9565b3ec6e63401],
    [0xd48d29567da13a9e, 0x5b4568bcce7121b5, 0xd382a505b3893baf, 0x1ade0fa28ee13df4],
    [0xa323ba77f21f7f0, 0xa88f23f63cb30b41, 0x51aaf16a095e77a, 0x2301dc6a1236420c],
    [0x60a5f6bbbce3b9de, 0xd726cfaa7c39ba52, 0xf7dd93ddf2ba1771, 0x158c6a01fb01f542],
    [0x1fa104b02932a84b, 0x2d12e987465c267b, 0xe4274cca6e00289f, 0x2757b9eec4cb27d4],
    [0x7a8783f73f5e4f36, 0xccfd15758870a4b4, 0x84aeab7475766326, 0x3043d8b0cdac25b0],
    [0xb3d46428cae5cd88, 0xafdefb9dc62a23bc, 0x9c6c32818ff62a65, 0x1a1739fefe6488c7],
    [0x5a415a53117643ca, 0x8a2d8e1b88d6080b, 0xd477c13c994388d8, 0x56f91cf9e2444d0],
    [0x50dc7f74e4ae51e6, 0xb87b0c560de7b113, 0x226451ee7ae0c1a7, 0x28c8f42ca93036c7],
    [0xb24b3eda058469, 0x37c61ef5527e87a4, 0x2fc246fe3f6779a2, 0x18dcb540315a4387],
    [0xf94d09305b601a3d, 0x4748debdd345afdc, 0xf60fb7452d42c59f, 0x1ba374f70de60473],
    [0xe010769efc2281ba, 0x6dbfb9d9380e1a70, 0x756b548837d64bcf, 0x1b40af6c2e106fd4],
    [0xfdac677f2b0faa3d, 0x925cffd00f96e8d2, 0xcc5e1837b4038327, 0x2578f4a6e3dbbf2c],
    [0x86e1185c37933660, 0x69819d33bbe6ab96, 0x39df68853f2ae9e9, 0x2ea53ec4f2f8900d],
    [0xf7f403342c205aea, 0x9cb87f6ae19971ee, 0x4b7c3d2da544afa5, 0x1cb7cd707a851d76],
    [0x33f1bb2030feff68, 0xff0bac5e242673ae, 0xf244d3d014d1a0e5, 0xe30a774c353a2cb],
    [0x5582de9cd15689bf, 0xd49a259567ae4c63, 0x3b0d32ef2594a311, 0x6bd8c397b1e2d8e],
    [0xc0069802557ddad, 0x815e58600ea6248b, 0xcf5217145ff77361, 0x291adb6944892dab],
    [0x8220739587a890e, 0x2f9b2806b4f0e455, 0x1171631e4eb74c7d, 0x96477873e56e569],
    [0x7d65c096d4b25a48, 0xd6b1fc0db8c1b847, 0x9ad849d03ff3147f, 0x1ff4f6ed8be43e07],
    [0x61d5436cffeabcb7, 0xde411a716e880148, 0x9d5e6ecdf7127667, 0x9e5e4056e55464d],
    [0xea5922c5f8d29a6, 0x273675258528820, 0x5185e4bc010a5454, 0xa73b0495d174fe1],
    [0x9cebae7053f40427, 0x4b3b1bffd7fbcc28, 0x4c5570a6274d115d, 0x108e0279556e28f0],
    [0xbe2429dba9d28a53, 0x17ada729de160d4e, 0x5c0f6cded427ddd5, 0x20d97451d83aecfb],
    [0xb4662853337cc919, 0x908f50ae49fdbe65, 0xae52a6cf17898c5b, 0x2d8a77024da1f633],
    [0xa47f092bc272b263, 0x2747e03f86476850, 0x9df05c3cdc65c0e5, 0x10571ff92352d4e6],
    [0xdb4d6945a33054e8, 0x705c2ce42b68e16f, 0x8f2074f16e72baaa, 0x18f7cada1c661e5f],
    [0x8a7aeb270443cb93, 0x5b71473e735332d7, 0x4fc75c4d314a6139, 0x786ff337450d361],
    [0xc09ee6e6d0016b3d, 0x15e7c906dead35ce, 0x2d5eeded9e7bacac, 0xcefe88f60cb9a38],
    [0x382fe92576ce82e8, 0xffd4a531574f6c72, 0x1de36b5991e59ab0, 0xf163a2012b2484e],
    [0x89d187753f29c682, 0x2731ca8165abd9ed, 0x6a30e7c5a96830d, 0x63dc4f07d9f069d],
    [0x81264663e1dff0d7, 0x265ac88dac53eea5, 0xccd5a08dec6a321, 0x71a3293473c1dcd],
    [0xa69f2a23e1290268, 0x7592920b170625c1, 0xd3ce5e3780a341b9, 0x41b8d2a056f60d8],
    [0xfeff23e3a8597ff4, 0xa6d10e11cc3a14d0, 0x27b3449357f8abb6, 0x2deddd6775308aa0],
    [0x2b48f5502702a4f9, 0x5fe52279ce4b7a14, 0x810863a63b7354a3, 0xac050f54534015c],
    [0x85d0b82dce914799, 0xc547f8a5a962e4df, 0x46f9ad54abc0b3e7, 0x215bca7ae4832c59],
    [0xc86da0ae0ce90684, 0xf54a59147400ce00, 0x4e7fd799e2a585cc, 0x1efcb27d3c098f57],
    [0x59bf41edba382efb, 0x6affa889e44ffa79, 0xa363007a1923d110, 0x24ddc6ad9a48856d],
    [0xd1a674267171650c, 0x9759a6b5ed9e2562, 0x4244554413eb515b, 0x2ef8e41f289aa4c6],
    [0x6e0d532801c0e205, 0x92eca339fa507b65, 0xeb411db7ef93f6e6, 0x2f1c219c4d272380],
    [0x3f7c2e72fbf47395, 0x3a60ca4499e3c2c1, 0xa90182139c312e75, 0x5f18c83d3464488],
    [0x139b92c6ebec86da, 0xe6e435a4a1351d77, 0x8f57172f5a9f7d1c, 0x179165ec0d17575],
    [0x33f1bb2030feff68, 0xff0bac5e242673ae, 0xf244d3d014d1a0e5, 0xe30a774c353a2cb],
    [0x122421cda7cfbe1, 0xb27b44de88dae785, 0x3e473f98dd1e8c61, 0x11c208a0495e0e7c],
    [0x4d99f3aa7d673dc8, 0x98b17dfac6c54d88, 0x60712a71bf3c80b7, 0x297f95f2fbd45653],
    [0x92e5882a1891e718, 0x9671e3aa9403f398, 0x10d8069e79d356d6, 0x224ceefcf32d7460],
    [0x8594a5a74e5f85ef, 0xeedbdc489a637213, 0xc459cf0a1f48790d, 0x2732b23001c43c62],
    [0x9c54c84ab106f9f1, 0x27de571a963be22, 0x3d789c62b67f94bb, 0xcffe59dbecf2180],
    [0xf228f03f5fac0510, 0x4292f37f7a4b7b1f, 0xc376063cff8e0f5a, 0x29b8feb4a9a3585e],
    [0x9e05fcfcaa3a8b90, 0x74cc43fcc7f9eba4, 0xbe7d6b2c878312de, 0x26a0c0e60a2ffa10],
    [0x291443db29aa5f70, 0x727e76e3511dd4d1, 0x8c3de3c09d68baba, 0x2e570656db41e2f8],
    [0x748d0b559b7cbb78, 0xa9fb07b2ddc8789b, 0x2816a8237dfcdf70, 0x12bb58e4672200ef],
    [0x2c7c81bab01a77dd, 0x37e9b314785632ad, 0x15e88e3ffdfbb1e1, 0x216e369c8afad59e],
    [0x7b9720bff85ac25a, 0x2ed79a3b94f15af9, 0x4b6f36503059b1bf, 0x2279e39d7921b8e0],
    [0x66568084e31c4afd, 0x9b53e84244f908b8, 0x4ac21a85ba36fe35, 0x60564813a0ce62e],
    [0x22eab22fb8ecc554, 0x8b40b1c254970e3c, 0xe8eac4f408fbd526, 0x2268a405631dae60],
    [0xd8412f6c6ddc0089, 0x5442257c062ecad9, 0x96a37ab94c57e201, 0x300263f7d8a25674],
    [0xe54c1f369be3c0e, 0x4f3fd21a318314fe, 0xf1eb518cd9588bd0, 0x1963bc7aa03a152d],
    [0xde5548c404abee95, 0x286d344700fac868, 0xc5276c6fedd9afad, 0x136b67c2b78e28a9],
    [0xd9ea0b4b90b8ad2f, 0x9e5f6c89875a280d, 0x9fc81e8cd90f7f1c, 0x29a329f4a94c6c6c],
    [0x49f39919ce6da1df, 0x5c3450672ce4694f, 0x21e6f0ebb98ef3c6, 0xc3d92aec4b647cb],
    [0x4aad0168d03f9b52, 0xf648bafc9edebcba, 0x9936811f841c3ee0, 0x2f5235ceb591286],
    [0xeaa84dff83abb2cb, 0x88c215877de8d79d, 0x92d205c9b3bebfe0, 0x63a760609f24b36],
    [0x255c92b02d0b6524, 0xb28c4824575c994b, 0x621c470e9042cf5d, 0x1965360730aaa2fb],
    [0xc4c71d50a924d179, 0xffc4ba10f84ab4b1, 0x6a97b0b763d959bd, 0x1838e4b596dc759d],
    [0xa809ec78c41ac86, 0x8056e3edd9428b01, 0xcd55b62aa6571224, 0x258cf09bdda431fa],
    [0x2be39df28b3bf14a, 0x22a9722e228dec68, 0xbf3db73374426904, 0x1e587e52329f0a29],
];

/// Part 4 of the sparse partial-round rows for width 14, as little-endian limbs.
pub const S_DATA_4: [[u64; 4]; 256] = [
    [0xb71e78a710a09500, 0xe860b61e77bd06b9, 0xed1c06aa186bcacb, 0x120effe3050205b3],
    [0x6880d31fa3bc1d5a, 0x282b6ec64d5ac37, 0x68d5aac28df923f9, 0x18213dc619ab928f],
    [0x33f1bb2030feff68, 0xff0bac5e242673ae, 0xf244d3d014d1a0e5, 0xe30a774c353a2cb],
    [0x35396628fff818c5, 0x8cbd70ad743e938e, 0x8bcaa2797d91edf8, 0x1f02f7e2e07843a8],
    [0x14f54cb0ecadb9ee, 0x32136374296ea9b, 0xe4b18eded697c62a, 0xdc5a85d95f105d8],
    [0xfe09297e6c473c8f, 0x9204025913238a98, 0x775e83f447420655, 0x219b60e6d5a22578],
    [0x56bbd327cc5237d7, 0x33e222783a5bd6db, 0x2bfcd58362982d8a, 0x435530e014db11e],
    [0xb6f8c4cb5a6cea5f, 0x2b235922bdf46161, 0xdc9dc3d193bc5855, 0x28c1ffc5c10600c0],
    [0xe6442bb46026f98a, 0x94fce154fffc218a, 0x2302582a3b026009, 0x1bf7a2f7bf358cd1],
    [0xdbf5d6c5d611de99, 0x78664d328cadb544, 0x97f4a0166d1663da, 0x179d43fb87170d3d],
    [0xadced3296b7cccc1, 0x16ae9e484a668217, 0x8bb6576754fba5a7, 0x8cabf5f7d8a6d45],
    [0x1d3c8df516c1194e, 0xeb44e5c2000e329c, 0x417a28651e18d379, 0x177be1eacf22f916],
    [0x4b7f9d8367394987, 0xa0daa2a9671ade49, 0xb6b22833947da6cb, 0xa5fae0f09f85d5a],
    [0x52f705c89db4938d, 0xe91bbb7a6854acc1, 0x762f1d3f9dc2685, 0x28df87b43e795b37],
    [0x90875d94cada6ecc, 0xe4f6f80fc20e0f41, 0xf1b853dac8eaa473, 0x58de2c0fe8e6f09],
    [0xe616e138de5e368, 0x543f54c18e65039c, 0xd24bdadfe5cc11a7, 0x1ba657cd2bdb97e5],
    [0x149c76700ecc44f7, 0xc542aac16016d551, 0x61e32cfbf9662a60, 0xea5b3a4116ce4ad],
    [0x7a5ba40123fb7361, 0x15c733edf0f0084d, 0x1ff243db27a237fe, 0x2c219d3a2b0e433c],
    [0xd692b742cd6d89f6, 0xa891524b798cf1e3, 0x4d04045c6414f199, 0x19ad974a2285cbd1],
    [0x39521ab9cbc1ebc7, 0x22458c54fbd627ba, 0xb7535207891386b7, 0x2c7d9c944d792ce4],
    [0xcb2859a5ec77bf73, 0x520bc5b920531fcd, 0x19a27edb83647652, 0x2e71a3a451566f89],
    [0x86161de535cee83b, 0x644f65e7223dfd49, 0xe84e725629950bd7, 0x6a4b1b530cc5e64],
    [0x4e30ad101fac7464, 0x81bda1190bc8b8ce, 0x2d2107153b604829, 0xf55042c0a72b5b6],
    [0x5c5f4a9ee803fc11, 0x87a5505169d380fc, 0x5b84440493ca10a5, 0x20378dc7686d64b3],
    [0x91dc86b7d3cd41b3, 0x73f3145c970cd7c8, 0x382b65592aa1957e, 0x26c526f859170915],
    [0xdec08cc25bf2a052, 0xe5bc07da13b67139, 0x317adfd216f34310, 0x194c4e5ab7214877],
    [0x32bb9fbdcd0388aa, 0x9333958e0ecaa36, 0xaf0e4ffc0546f1b3, 0x29e0d646063e27cf],
    [0x4c8ddeb87d349fd, 0x59f0702a081fd34e, 0x209a13bb0fd2727e, 0x121b4451014b6382],
    [0x141aa80960048ef7, 0x86d4a113d183cf66, 0x5b9f96b6c6c07e5c, 0x3018ea843d3f3f52],
    [0x33f1bb2030feff68, 0xff0bac5e242673ae, 0xf244d3d014d1a0e5, 0xe30a774c353a2cb],
    [0xa567839eb83cf5c7, 0xb978d106cf21e7cb, 0x8541587286f27b8a, 0x26a889065a9131ee],
    [0x980eb011c62b01d6, 0xa62147cf82937a0c, 0x227e539152719a6f, 0x12f2322938e02f96],
    [0xbb628ec5422a75b, 0x66349044ca3c17bd, 0x84d8bcb1e0646c02, 0x2a7052a220aa2582],
    [0xbaa3a5dd47ad62d7, 0x1bfbb0876dabf550, 0x2040b5de5e43b90d, 0x1e01d825bd60d76a],
    [0x2d332354cbc22da9, 0xbe4a58ff3eea053d, 0xd0de98e87d335432, 0x3002ff6560000420],
    [0x31d54cd10c0a0464, 0x272147066577734, 0x6f2de28f3a567902, 0x3d28736a2952e39],
    [0xc2c26c5d5496e195, 0xf9075ff2630b19c6, 0xafb8d6ba91b27739, 0x27716d5bd3e14b61],
    [0x663fc2d06e9b8526, 0xaee9d5e7fc75ed7c, 0x6db2793a51226e40, 0x13cde7afb44e0f9b],
    [0x47d1fd1fbb3cd336, 0x7a634dc17aff8f97, 0x5f702f60ffa56647, 0x503aae89801bbfc],
    [0xdcf12b650d04089c, 0x7616fc9c8bc7fc1f, 0xa39930b38b64ffce, 0x1ea910a5da3ba8d8],
    [0xab96dfe64cf7f3e2, 0x41f75dd2b75c6532, 0x3ede757ea250df5f, 0xeb1ff569a325e12],
    [0xb82a2ac4d43f892, 0x6bc3224f951fd6cd, 0x4729208e79714c33, 0x16cc1752c575ce98],
    [0x36315206a140175a, 0x7878a9740fc2425a, 0x87c330a375bb80e6, 0x2653378743d2eea3],
    [0x56ef162c6d36369b, 0xc69beaceb5f85801, 0x5ff9560dc4ee5834, 0x175b14e3bd393d82],
    [0x3367922fdd8aa5e6, 0x17dfe79b7557b838, 0x9a2ddc923c77da7a, 0x162b65eff59b3bc3],
    [0x2187b5de2399affc, 0x7e6bb2d9a25a8fa9, 0x2043297c780dd513, 0x297d9796101df915],
    [0x937f0514679f0d24, 0x359709bca7dc314c, 0x35048fa12b049bfa, 0x292db1438ce4bced],
    [0xab421d4d03d24bd9, 0xf0a207e822f190ba, 0xbcd530ce981d8704, 0x19c2715e87c332ad],
    [0xdc820b034ffd0f28, 0x2a37e4949e482d87, 0x773a58f70956cb78, 0x139bf2e121b6694f],
    [0x5c3cce8a59e321d3, 0x4adc59e5b3b605a0, 0x29265b2ef8c1f481, 0x281e06a2a3e9c7ad],
    [0x769e4ae8c64e7d9f, 0xfa07f0cd6e822bd3, 0x3386e95c6cae0c8e, 0xbaa4181dbff92f8],
    [0xe959636d09956d9f, 0x3fac590096ede68, 0x697d93558197d16c, 0x2288cd08659c856e],
    [0xf0401bc029373c1d, 0x7b0fc35313b2eddd, 0xe42a0cba5c99dcce, 0x2af86b3b3cafb3ac],
    [0x574b3c142b8197d, 0x7a4c2b7174e8cd71, 0x15cb7e3cc8679d3a, 0x173806fe4b0512b7],
    [0x60922f648eef960d, 0x7e2b2c3f88fce5c5, 0x88d8faecf034ab7, 0x25b66da637a8d92f],
    [0x90bf2248d70a3e91, 0x42bd3aeb15559695, 0x7a81c2fe8ffc7293, 0x12f5922b95ad36bc],
    [0x33f1bb2030feff68, 0xff0bac5e242673ae, 0xf244d3d014d1a0e5, 0xe30a774c353a2cb],
    [0x9fe185aa39467569, 0xcd0369a67be4bb91, 0xd95f36684abb4fc2, 0x170bcf0294ae4059],
    [0x8bba05e7bf498144, 0xe7ccf02383978abe, 0xd39c9dbb1fc2633e, 0x17d247983fbaecaf],
    [0xb41b053072df4836, 0x7708544436bb5438, 0x78d02ea7bfc087b1, 0x275c74ba59d68ebd],
    [0x8c374242ef82bdc6, 0xe5808c3593449bf5, 0x69cf23dfd0906653, 0xb97a196195430ef],
    [0x6df97f2fe9e02e38, 0x40affde6bb3bbdd0, 0x5e8a50b02ed90258, 0x25bf621be7fe0410],
    [0xdc89794b73d024d0, 0xd5d24179b1970e68, 0xead86e5c9011b134, 0x296928baa83c1016],
    [0xe6e44e5e3e2f7dbc, 0x46099a6361ee1626, 0x1f35d983c470a995, 0x23e6fc3b8617b6b5],
    [0x7c209205217108b6, 0x293106f56ac093a0, 0x4e7f7f332af4233d, 0x1b9b57f457f685d5],
    [0xd229d45605637311, 0x399adce9506e3373, 0x56e8b4dbdd8b6706, 0x290f0ac712987d79],
    [0xff366a479e3e6538, 0x5e8bb751b571fad1, 0xd387fcb734cd914f, 0x262a3b6b3986c250],
    [0xa4dc6c21b3e507de, 0x4c8d00abea718917, 0x45bfd9bd91173432, 0x295b88ac50fee492],
    [0xe69398f344a4f6e1, 0xb1bbdcec80e6f09d, 0x478206619aff889f, 0x2e7a6894330ce6d6],
    [0x7f1668ff340bbefc, 0xaa4b6a2003eac80e, 0xafed3633b8ec12db, 0xc3bf1bb2ee94489],
    [0x56810fc304eeaae5, 0x8421aa6f2de73aaa, 0x4449e200880be2ed, 0x2d61629d203317ea],
    [0x8d5ae53bfe6037b6, 0x9fee00212d2dece5, 0xeea3de4acbd2c3b1, 0x1d94aec8d967eabc],
    [0x582aaf7af697d3dc, 0xea792968fbe6bf73, 0x77e315583f91b326, 0x2f76d72fd59722c3],
    [0xcfd78f9735b0c1bd, 0xa3bad6de3c3aaf91, 0xb000912519379de3, 0xd243da739e905f8],
    [0x3877ff7efaf3bcf7, 0xb3c5a0fa1a60cf28, 0xcb85199eacdba0b9, 0xacfdf5f69c09506],
    [0xecef1b01f4c9fe09, 0xb1481f8f49fcd47b, 0x473b125ea91ec1ce, 0x44de47687196189],
    [0xe78c483b019e79b0, 0xad8c38c20716a7d3, 0x66a8e2ba58e2b03c, 0x27e155dea5a11344],
    [0x7aa31ad26e243e75, 0x225aaf9b7bbc17bd, 0x561d5c109abdb096, 0x2860ac51f3e70148],
    [0xd18d46f268cd2a86, 0x2ed3d0f3c21acc7d, 0x51f73826b9badc03, 0x1a33e054ae459169],
    [0x3c946b752c089ab8, 0x531d9683bbe16b46, 0x738b6b37b6f6b287, 0x237acb3608d9158],
    [0x855e0422365c6209, 0x9732acf567d010b, 0xd345f77dc984391d, 0x9328966036d95ec],
    [0xe07b29b3c5f8e53a, 0xd6a80be401e1617, 0x8d7e9e2d67b8d982, 0x6a41ffd9721ef01],
    [0x69d0d5113e5b448e, 0x3997f88a37aa23de, 0x1b542b47ff0dbda0, 0x1bac3b3b9cd40ec4],
    [0x33f1bb2030feff68, 0xff0bac5e242673ae, 0xf244d3d014d1a0e5, 0xe30a774c353a2cb],
    [0xbf0c27ccb2565173, 0x62346d1d6731db6b, 0x688a673980bf47c4, 0x17dedb52641d9f9e],
    [0xd7a6a6573bf3bdff, 0x85c2e3f3a9489da6, 0x9a986ed662cf1e1d, 0xd947949f35e75c2],
    [0x4a29c208cd0bac7e, 0xf7e7c5dc43d51629, 0x9eea1f81865ac34, 0x2bdb20a8327ea3f5],
    [0x4ad7247cd75247f6, 0x275e5be22a47cd29, 0x70ccec6d88733be3, 0x2fecb170873731d0],
    [0x75a80cb1fed40c02, 0x33f9d7980195d96d, 0x19fe4558a0aea9f5, 0x1183c981f815c351],
    [0x1a483eedc2c5bba8, 0x13f79f44f18b5702, 0xf8a114d10921a5fa, 0x5fa320ab5dae365],
    [0xd379156d810e6c2c, 0xf3726cae5cb1525d, 0xa010d1ca59bed166, 0x2b951512add2c708],
    [0x658c2bc70404578f, 0x39b9c1a0234eb1b8, 0x9f1067238c06a7ca, 0x11f646514881127c],
    [0xe58ec27198fd4e58, 0x8147387d21578f97, 0xeebaca63c7941b54, 0x72413e94aca278e],
    [0x86383ff2d561d7b7, 0x87a46a280be0a908, 0x175001aebebe91fc, 0x2aace8cefc1be4d4],
    [0x8edd073a7d33adb2, 0xcec6086c85a1aa1c, 0xc3c6130b300cfa24, 0x69e64230343d9a],
    [0xe84b045d5d731aa, 0x731e06ba76c77ad6, 0xfd3bcc8d1169a15c, 0x1ce84829e4e67cd9],
    [0xea72150ea2b7ea0e, 0x20f2d73db94406ab, 0xa8330c189a63fe95, 0x23b52a113ac4ea90],
    [0xf71943bbdb0c5928, 0x563aeb27ad8ac8f2, 0x53b3ca12190f5538, 0x160218f2b7e2d226],
    [0x5ff56a4297eaa153, 0xf897f43b6bc12f3f, 0x9c80f455dd132e06, 0x84c1a87e7fed6aa],
    [0x6a078b4de3221adc, 0xcab83b0f7ba92c70, 0x5fb266ae654c23b2, 0xcecba653fff37ab],
    [0xf30682cd138781d1, 0x804f2cf713200eec, 0x652fef7e0419167f, 0x2ef80d5e15aba6b2],
    [0x488c613d5968cb58, 0x96c43e9dd40ba87a, 0xf7d47bcb46ee6fa5, 0x14bd930a77fef4cd],
    [0xd803a381ada6dbc0, 0x21217e9b5dec28ff, 0x3a97cf4126a5dead, 0x1ced050594cb02e4],
    [0x794a9b3319fc9429, 0xc48ceb17113136ec, 0x9fdc48af3424a354, 0x2efdbbe781cc22b3],
    [0x82ceae2f1539c1d8, 0xb93838af86ae464f, 0xcd0842cb7a374ff2, 0x2070e4e04671601c],
    [0x5cad56594f065e1e, 0xdbba1c14e8af5338, 0x3e2d8abd9f222b23, 0x123741e7f63e77fa],
    [0x6b61d33d555eceb6, 0xf5fb0dc1da22482a, 0xc55a1d47aada8976, 0x1b75035c35b201ef],
    [0x83a1360295e9fcf6, 0xd2197e9b0f7b7dda, 0xebe597d4bae43fdb, 0x25d76dabc919ef40],
    [0x31f03084f9e5c976, 0xab94ba3387573d8d, 0x3fc9d1e9af97fcf7, 0x666b59c9ad666ed],
    [0xf2e1cb9093809b4c, 0xea5161c9c9a5e174, 0xc6e1b1e646108896, 0x654f99795543eef],
    [0x33f1bb2030feff68, 0xff0bac5e242673ae, 0xf244d3d014d1a0e5, 0xe30a774c353a2cb],
    [0x7b509637f12a70cc, 0x1805160612b943ff, 0x9b3598bdc254484a, 0x2a4984518cf4d03a],
    [0xad9f74717ed54536, 0xca492084165aefa6, 0x11dd7bde4043f89, 0x36731a2bdca86fe],
    [0x20e96c5d4ae3a952, 0xb72800a4f4a26e50, 0x5abcde194f07cb07, 0xf5fc4d1e67992e6],
    [0x71044ac9a09190be, 0xa08b2e914f65652a, 0xda0de7a67b8c5cfc, 0x20d02c9669942a2f],
    [0x799e106dc4f9c1b4, 0x1fffa7df2d289b32, 0x16dc316a7933ad54, 0x20b3c785c2072c10],
    [0x15080e2c80a33131, 0x4a14445314926153, 0xae782b8798575678, 0x1007df7ccc98951a],
    [0x1f8b35167189b2da, 0x50cd7a5c0b47bebc, 0x16110049ac7b56d5, 0x223a10997957b128],
    [0xbe0cce1428717270, 0xc333995bd7438240, 0x1765d4d688ccf425, 0x358632186da4fff],
    [0x17aca465382be039, 0xd40162fddaa83919, 0xc99ad7a394781182, 0x216b1f88bf14a781],
    [0xc07a1c0289b2c928, 0xd5a5614892879844, 0xc565ac01d4145056, 0x108441368a058a30],
    [0xc52480d00554a366, 0x7ec6279ff7161856, 0xbcc82088f46cb5f7, 0x3df1a412eb02d17],
    [0x632e12812b08c38b, 0x78464a583260e6d9, 0xe2dd3d7cda1442b1, 0x2cf2d9f080d1219],
    [0xab198a303597d82f, 0x22c3ef3cf5248fa2, 0xc6c9d041ff0805ee, 0xff8f5f8d239c9af],
    [0xd07a050f4de65dd2, 0x3d0acd9a913f2fc8, 0xd95afb122fe50ce7, 0x22baee6a9025f961],
    [0xbdd23e267340fe1e, 0x498a7090a683bf08, 0x47e9d9013e71cc89, 0x1131e942fc362962],
    [0x96451b04645d8a76, 0x28aa1c79da256245, 0x5acb0a1b5e11ad9e, 0xac6a1c394f92972],
    [0xbc3a6269290d6950, 0xb8f2a0cd50df89ed, 0xc935b0d872d775b3, 0x3cc80ba68d89cdc],
    [0x93106d1bfe5f789a, 0xbc363d0bb6cd0bcd, 0xa99bf928ffc2d93f, 0x1db513c2f29ae454],
    [0x2e3451916260a301, 0x17da3b17a7128167, 0x85f98d84bee7d107, 0xd05dae2a4b1ec35],
    [0x9bbeecf0c4f1ecef, 0x5009e2039de7f0fd, 0xcd5a98bdc6050ba9, 0x2adcd4c6f191ccdb],
    [0xf36f035183ae03e3, 0xd9d8403801606de, 0x69eb4d4435031373, 0x4d0d5708e1d87ca],
    [0x2983fceecf3ecae5, 0x47001b7b63b74c3d, 0xe79f8890036facdd, 0x11184dfa1ada7118],
    [0xb3a4ee0a2fd193b4, 0x340deae3012758e3, 0xefa097c2a3d4cee8, 0xd32f8b975e939f7],
    [0x5a5b685b3ca66ed, 0x4734bcab60d8ec43, 0xdba49f57cee0396e, 0x1a24e9162049895b],
    [0xc5a878e448e48e2a, 0x2b7fbd29b09aa141, 0x85f34a40a6e1fa70, 0x19873998ebfde4a5],
    [0x743f3851c774fbc5, 0xeef40d815da38cde, 0xcbe0d4901ce6b687, 0x2d055b284ae3e229],
    [0x33f1bb2030feff68, 0xff0bac5e242673ae, 0xf244d3d014d1a0e5, 0xe30a774c353a2cb],
    [0x2af108a549462a23, 0xe2aee547d2f7d51c, 0xc802d0467c1cfb28, 0x301d2bd94a2a85a3],
    [0x5feb99f91a844d0c, 0x32bb3fe601e02ca1, 0xaf63f528a7f80dac, 0x19ef6ff9413f7a05],
    [0x5da22a1512696ebb, 0xb932b770ed97d275, 0x3d3e9d9de030ea9d, 0xf1cb5dd8ea58b52],
    [0xf0c539376313fc8e, 0xd11acff9c8a825e0, 0xa4a74e8b09748ac3, 0x151ec2edecad41d2],
    [0xf6f9ce771d4ccfcd, 0xc2e38a0426d4f8f0, 0xa764590093b09ece, 0xbf605154c6e6cfc],
    [0x26770d174810cf56, 0x7e7358d92beb858, 0xccd9bc64ab731459, 0x10d1c2b4f3622195],
    [0xe51924b61259fb79, 0x3eb2f076a4a72314, 0x82059606f1a0e168, 0x79c01911499171a],
    [0x3df90be6920473dc, 0x2f8ececc22bf5807, 0xf9faf6549080c2a7, 0x1886095782a7c6ab],
    [0x7cb27da0b0b2c20a, 0x917affb44cedf172, 0x95488c906dfa2b59, 0x261c4081f13edba7],
    [0x3e0b67d060800dca, 0x5d1e0b7eb2471912, 0x82b3bd1f2f1d42e1, 0x2cfdc7ffc3609e9d],
    [0x50e0de1822993d84, 0x42f823983f6c1d3d, 0x950dff0d9e0a5d3c, 0x3c9ce71c00e243a],
    [0x44868600f89bbee, 0x6fc940a9c6bdd87b, 0x15fa5ff0d6bca984, 0x13714ab10fbbc54e],
    [0x493a2b03d294890a, 0x580e951d914a5a20, 0x70460739fb444e60, 0x134d4838b8c77e72],
    [0x3bd7a5945a4f2873, 0x1457756a213c168c, 0x91436624847ef645, 0x1e6f53eed7f86f72],
    [0xad6adfa77055665c, 0xfb8f93ac48d86c37, 0x5293235dec1eae97, 0x8c4e9815652721c],
    [0x8edee9e0003fabec, 0x60387ce770d4e697, 0x16ff209b80cf0b52, 0x18d007112ac9205d],
    [0x90f4bcff5ad61243, 0xfa31c1a1a7ac1443, 0x8a3e50e84c6bf700, 0x5140e8f5d27d724],
    [0x555d709d61e38f7c, 0x4a10a3dfeae59729, 0xaf026dbe5be9be83, 0x19f153d66e44c662],
    [0x4743d150e19f943c, 0xcd2a6b65e9d3bea2, 0xe71377dce3b85768, 0x11e0299ac3f3ed3e],
    [0xae4ca77a8a3a7911, 0x9319d317ff6d6332, 0x54fc558afc96b35d, 0x190ab7e9ed8c741d],
    [0xce5c7ef06c5a8793, 0x53ca3604f0968520, 0x2c22ed2c659b66f0, 0x5bf8fc4ad0126d4],
    [0xd68fae45cabdc5f0, 0x8001f295343de608, 0x10d8a4986cb65c07, 0x28c05200db6d51df],
    [0xa6d139843d3dac9a, 0xdd5162f38beefad1, 0x56ecb1026a361b48, 0x1d64d0d4143f8690],
    [0xd362b892be0fb73, 0xfc2bb4dc2454425b, 0x64b29f958f37fe90, 0x568693893302240],
    [0x5b7c6b4d7eaa333, 0xa69c44814c6e40e7, 0xc308ffca46465e5d, 0x21124fa7acd6d96e],
    [0xbdc2a317244132f7, 0xdd78cc339e8dc44f, 0x4523dd4fd0587eeb, 0x210de4f2273282],
    [0x33f1bb2030feff68, 0xff0bac5e242673ae, 0xf244d3d014d1a0e5, 0xe30a774c353a2cb],
    [0x9b330982dde6c5db, 0xa5cdf0a356e0c3b7, 0xabc1f4137106d456, 0xc231a81780a5f9b],
    [0xbb6ee9420befc144, 0xc52ab6979d36481a, 0x2ba8316151a92458, 0xd2286ef77f15b56],
    [0x88931bf3c6ec2563, 0x3ddfbc75b61371b6, 0x9b510c5e1c2a378f, 0x14cd6adb239444df],
    [0x36e1b319679f0f10, 0xcc77b8ef41c0efef, 0x80811923adfca9a8, 0x1f94577cc0cb87a1],
    [0xeb063b675fa96064, 0xc31f726dba638783, 0xb1b4b8e8cbfe8f92, 0x2bf8ecc53796cac7],
    [0x426e65eb20c44884, 0x2cb739d837c4e15d, 0x6c9195fc95caf216, 0x2443dff5793f1282],
    [0xec259c11e57f6581, 0xcfd08d7ee0a1b5a3, 0xdb18c6ba6c0f3d67, 0x28807445f05857e5],
    [0xf346725d84389a45, 0xcc29fa9dd3ddebab, 0xd9554bb1996ee527, 0x2d7181a0eb717fc3],
    [0x1a8874b122574488, 0xfcc983a7e1171b11, 0x5707e95f8780ca40, 0x1d467a0dad4ca6c9],
    [0x71250ce582189453, 0x7558db0007e6e92d, 0xa9a9eef6333566fe, 0x2cd6049a0ad06e9],
    [0xb21bbafbe2932c57, 0x574b642a2a88ed6c, 0x43d0ead6ea94a531, 0x2ec06f373cb79c11],
    [0x66dd032ef9bad925, 0x5dd0360c3cb332e8, 0x5856c47207ee4204, 0xdadde1785a6e870],
    [0x2fa99ffa0e376678, 0x6d84ff81c099ea94, 0x23c88b5864b90352, 0x26ef0863b7b4eb42],
    [0x9d159d308f87caf9, 0xe6bc1451ac11fe2e, 0xe95667c8672dffbe, 0x26f1a2490186a61d],
    [0x6a6991027af81d6c, 0x47b4fa74b6e7f928, 0x6cbef39c87f10a3f, 0x913a0a4317ae24b],
    [0xeb169240d21ef3b9, 0x376f57804517525, 0xbf45e2bad2999488, 0x101d691311e602f1],
    [0x3b01a627accf5b16, 0x390d88fd3e982be4, 0x5995dd5b9a4f2724, 0x1c55eab0a9464430],
    [0x3227f8776bcd40b8, 0xc0ef3602033d72ef, 0x2b4e948868bc18e7, 0x1f788dca1edff517],
    [0x1cdfc90cc25cd819, 0x167a12fcdc10626a, 0xacb4d8f8d33b12da, 0xc5dc41e36fe501a],
    [0x1c5679c76787bac7, 0x958c5d1737618e5f, 0x2dbbb6e9bf298ab8, 0x18a6e567865d428f],
    [0x512b32a3895c62f6, 0x465586e1669d6bfc, 0xaee98497768f37dd, 0xcdfb3e5975fb90c],
    [0x57d0d64e8a3bdb3e, 0x78055f2d68dec109, 0xb5bf9553ce19f0a, 0x30edc8429fa623],
    [0x524887ad9bcb3a8f, 0xe49ce0bc92dab519, 0x2a61f908e6fa7518, 0x5ff6dbf8c00e9f3],
    [0x658a18e177012b32, 0x761fbe16405a0c73, 0x4a4d3f172d8dd71, 0x187c0035a20f42bb],
    [0x4b67d181a3b0341d, 0x7944b54b191df490, 0x949bd766e65170ad, 0x267e0e37151a8018],
    [0x3d70152bab232ead, 0x60c432bf03f9924e, 0xbad47d29d8ce587e, 0xde2f39c45dc6b47],
    [0x33f1bb2030feff68, 0xff0bac5e242673ae, 0xf244d3d014d1a0e5, 0xe30a774c353a2cb],
    [0x3d238f14152cb3e4, 0x1c06bed2fe6f302a, 0x14bc02159bb3e8e8, 0x284591632913e572],
    [0x5b366e138ddc3c88, 0xa18b160a41c655f5, 0xb66188bb38170601, 0x2f6110333487576b],
    [0xfe2b388dd10ac80c, 0x7a1d9e48ffbcbd86, 0x1fd8eaa1ca0fdc10, 0x10e8a25fd4ff737b],
    [0xdf894293f7ee2e0c, 0xcd2d81f3fe0e37a4, 0x77c1d92c9ea1b80b, 0x934ae9d36b935e4],
    [0x7765147a66c7a732, 0x32700c0aa94fa14, 0x5b0fe21d8c182a9a, 0x1d48097697bd76fe],
    [0x54b2dfcb6c708f74, 0xe8b08766863ba338, 0x95c47c27e9a68c6b, 0x26a007b8e7c5a0f0],
    [0x4046d24b19feca2d, 0x6e6ed9032c917ed6, 0x830cfd85bb16b9bf, 0x1db9c979d26dc221],
    [0x250ec0ea22852f4, 0xeb7cc6591216c26, 0xe5ed8ad7223d0446, 0xeb6abf55ab892ab],
    [0x25f612959482fd7c, 0xf488dc7ae40a0749, 0x85fe433b3e20e360, 0xaf52963d2d8ca1d],
    [0x107110e7f7e7ae8c, 0xfdb29b76a2b0d54f, 0xa096b1773acb293e, 0x21a08ad9c5da7fbf],
    [0xff8f71826a5aef4b, 0x2566613e0501f74e, 0x657bae080980b2b2, 0x6cbf675121397f0],
    [0x279d90241561b192, 0x7a2eae9279e8f048, 0x6b849eff0b4373a, 0x31a23d2ad653f73],
    [0x7ad4da788237769c, 0xf79ed1ef014395b6, 0x67a8e0ae03ba725e, 0x2f086707d3174704],
    [0x8a2f19966ce62005, 0x3166419377b09838, 0xeb21696d69d5456a, 0x24360122ee8c5a9c],
    [0xab7e9d24ebca8195, 0x95bd11fe8f39f090, 0x5c520f1ce3a5d4b0, 0x17c0f7d233d0fbcc],
    [0x3e171a98a2bdb1a9, 0x32ced772d71cdbd9, 0x58f63f94792f9436, 0x3f293140b7d07e1],
    [0xb5352563c797f68b, 0x701fec97a152e977, 0x35a8d0baa4a1feb3, 0x280d4d680de44f4a],
    [0x2c0e9b35770503e5, 0xbab619ad1b72880, 0xfb9e5138ccbb381b, 0x1633dd4196cf695b],
    [0x1c5ead9311fa37e0, 0x6e13e6cff79023f9, 0xde93f695dc31df81, 0x549cb9c6b3ab14a],
    [0x8c18102e4b0aba31, 0xe4e095e0e9a41710, 0xc308751550a77c5c, 0x12dcea4ce3927ca8],
    [0xc6fee507b9996541, 0xf1a1f5005a75faf2, 0x655cbabe212124d4, 0x78331ac4c2c6702],
    [0xb117bd0b462870b5, 0xc0004014b66acc26, 0xab00bb7ef41befd1, 0x5674b32b037c937],
    [0xe7aea32c982e26d9, 0x8ec15fcccc77657, 0x9af878034316bc4c, 0x165c541ff3c38f4a],
    [0xbfcaaa06040441db, 0xfeefab7d635f173e, 0x32be8389586b0569, 0x16477e2f6956b2a2],
    [0x8917bd9e8c8a8744, 0xe0182d50f8323c33, 0x6fe6843dd5c7626a, 0x1698424bc862b0a9],
    [0x565931d97e922988, 0x9d67d98c622f36cb, 0x33fe75e10ddd60b0, 0x1dfbc67644888559],
    [0x33f1bb2030feff68, 0xff0bac5e242673ae, 0xf244d3d014d1a0e5, 0xe30a774c353a2cb],
    [0x3c6d4ee0a9575add, 0x5dc97de726ac8f2, 0x56f3c9d613fcb122, 0x2f722fe53b252f82],
    [0xb27947bb0e04b101, 0x62e52a54060331d, 0x3ecbcbf393061759, 0x4ce7f8503944525],
    [0x8e8ee648a6a4e62f, 0xf1930df1cffc91de, 0x68bbe0389521d418, 0x2ad1ccb6918b4dbb],
    [0xe1a77d544906b4ed, 0xe7e0c4a76facdecd, 0xc7e43079d288d053, 0x119ab9bbd433ff01],
    [0x8c138deb1b50f3f4, 0x291f8466e6c03a76, 0x472bce50e641017a, 0x17d263f75f3d3f0d],
    [0xccde131495c9fc42, 0x1532ad11d4506ac6, 0xc13259078ec84841, 0x248be6746b30e18c],
    [0xb35f4faf9b554312, 0xea36bed8eb8652e6, 0xe1fa72811dd63502, 0xb02fe4295790760],
    [0x2696973f9eb806c0, 0x49c8a068ccd10987, 0xf0073094e87db44, 0x148b519dc0b5daa5],
    [0x6652e61f4113e6da, 0x209f8475d3bfc0b, 0x2827a2f16a34cbe6, 0x1bb5e7ef82c1a2a0],
    [0x51f541fc8e1bf2fb, 0xf5cdc691bb22c271, 0x22d9af08f1b53880, 0xfb76804e630b9b5],
    [0xc4597ede1da532c8, 0xb9166ec45d4dcdad, 0xab1066d294bc774d, 0x25f15fdbcc16e5c1],
    [0x43c074f62b7cffb9, 0x29a94dd92a340b3e, 0xc57b9472b58af189, 0x18cf6ec7ac6dd943],
    [0xdf4295e858857317, 0xfdccac4649f82879, 0x8727701674e3e657, 0x28993fba9683f72a],
    [0xef6cb706e4f6b05e, 0x8f8e6144b28bd92, 0x728a4e97eadf195c, 0x1fdd6bf585ede657],
    [0xf178f0dfffab05d7, 0x9455ada7dec6deab, 0xac819ba150ffb6ac, 0x1810b0fdc26d123b],
    [0x89abf88810808fcd, 0xd8054be62c494f3b, 0x8bbd64ffc72166b8, 0x17935bc39ce241e7],
    [0xc9217cc0ffea43ef, 0xf795e445e3cb6f68, 0x5923883b0ea0c73, 0x23b66feb87a9b7a1],
    [0xa799cc3f7b29a9d, 0x46ca6c434c521b2d, 0xb06e023cb2f6d68a, 0x9f6acc9470a3ca1],
    [0xa3f62011a08ca31a, 0x868ab183d14aa09b, 0xd77c7dd8226ea452, 0x7059db933a49a59],
    [0x3644ab9961b71141, 0x990382ae73b8993a, 0xd54d8cc89f3ccd48, 0x110283c2d84ef498],
    [0x3be453378928627d, 0x13b26aa4ce4e5f7d, 0x5b0046d8178cb36a, 0x2e0861925cc9b76c],
    [0x4ad9fca972ce9d89, 0x36d4dff9fb693f95, 0xa0123ad95fae9d11, 0x186d7f00229ad745],
    [0xdbf8be0bf5afd011, 0x461d2e9cf389a581, 0x813e98f60d15e23a, 0x22c7a666156ed3e7],
    [0x1f41dd572c67c360, 0x9034685f88506e89, 0xd2f59588fd72fb92, 0x1cdeb50c6bcc3f9c],
    [0x6c93da663800c33b, 0xf929d675fb978e63, 0x411e8acb3c12cdbc, 0x2978a2a151c95155],
    [0xb52ad3e80d4757bf, 0x4851d562c3b51606, 0xf7daf4f02fa83088, 0x167e72f7db7e8e21],
    [0x33f1bb2030feff68, 0xff0bac5e242673ae, 0xf244d3d014d1a0e5, 0xe30a774c353a2cb],
    [0x724ec94e2d764876, 0xcdcfa4bf575a16d2, 0x36b0374c7077ef66, 0x1957be621bd62077],
    [0xf33e469bc9b6e54, 0xe37155fed1621808, 0xe3bc6672fa95706a, 0x3b264ea2c2a171c],
    [0xe3ad7d9f7a440c82, 0x5e4c811d31bf2307, 0xd58239fa27bfd73e, 0x1cac742468595a01],
    [0xd440e717d15675b6, 0x1696191d4cd1a089, 0x3102a3c6ef79b004, 0x1308e2503e162379],
    [0xf29aa43278e2790d, 0xb8355902aedfdb2, 0x18e1b34376d3193d, 0x135997d11a8ab3d4],
    [0x6deb8c6af212ff4a, 0xdfbe7990e7b046fe, 0x8bb1757aaec5ed1f, 0x6f8a541f16f9f3d],
    [0x57ca22f4026ee4e1, 0x2161dac550cbdbb2, 0x675a6abf0169890a, 0x9a4037450ac7d74],
    [0x540505854c2612fa, 0xf79e7ce616b229a7, 0x9b7100e77ef81ced, 0x1bb22813c573e820],
    [0x738988f8c4fecacc, 0x543b2766dad81dfa, 0x65dbeeaaac39d599, 0xd5235d7acd8bad9],
    [0x18b6e5824005abaf, 0xdfa50cd6d0ecaa0e, 0xdeb6406ab28a1867, 0x24522e82642d0c00],
];

/// Part 5 of the sparse partial-round rows for width 14, as little-endian limbs.
pub const S_DATA_5: [[u64; 4]; 256] = [
    [0xdfb177a8f1b1a863, 0x470b9ab592f9e1ef, 0x8d1266b473a2e0fa, 0x51808f718e4a389],
    [0x5b478c178bc36c17, 0x1346688e05da4e0e, 0x8b452fdfaf884714, 0x2ebf139bad53a740],
    [0x24be79e46f4b4298, 0xdbd9e470ad503377, 0xaa6dc0fc28f75e20, 0x18f177bfdabe5ecc],
    [0x11090e6574458779, 0x152e1c0a93e507f3, 0x73ff2660e40ac6b8, 0x23f5e3e09744ca3e],
    [0xbf18f783853d8527, 0x266bc576aec1f682, 0x686ae8ebe3c1454e, 0x23fc5867bd5b4d52],
    [0x698223699ec70de3, 0xc4d29886528315b4, 0xe02af329d61d80c5, 0xde2e3ab296be75f],
    [0x65b500936c33d207, 0xf888a37f5f8e3820, 0x8a707de4909c1df3, 0x2f4c1d3cf6793b0f],
    [0x65b2b6b735b02443, 0x1d97e07a0023e587, 0xd70dc1720d4d0430, 0x26bfb7031fd16e59],
    [0x8784677bcc4dce73, 0xd700b1b05b317054, 0x9d19e71f19dd85c7, 0x8f0bea4f928caae],
    [0x75d908c4b3740afc, 0xdc433041b7d248ea, 0xd591546b376a7ae6, 0x206dd86edb0388ab],
    [0xf79f704cf2feebe6, 0xe0e10183b09137b8, 0xd4e575444b0bf49d, 0xbd896df632e39aa],
    [0x97ded7a6b80d9852, 0xa45d08b896ac14e4, 0xe2569647ea81c6ca, 0x2188116488e4192b],
    [0x930f16598b3e9e53, 0xe4695fdd5f4e9a7c, 0xf630191f9e5f48b7, 0xe95540fcc2df2d1],
    [0x793ec66e75259040, 0x673bba9a48a1160, 0x29d0eb4c66921677, 0x29d25da59f9b2389],
    [0xb3a1e8138395b4f9, 0xff33aca06589807d, 0xc936f19774ec4368, 0x998c56e22c0fe57],
    [0x1db0cae1d0c0357, 0x6d5fde9ad6d0b738, 0x88af9fd2b73b512e, 0x1f460a24b80724cb],
    [0x33f1bb2030feff68, 0xff0bac5e242673ae, 0xf244d3d014d1a0e5, 0xe30a774c353a2cb],
    [0x137ef97cb03d27d0, 0xb1a635c006ec67b3, 0x9384d18500ed0afd, 0xdc5b4d348266108],
    [0xb73d083fc8a0e21d, 0x262793331d3cda1c, 0x97c2f0365945ce0e, 0x22c7492f2fa7b9f2],
    [0xdaca8f14f6c86a91, 0x8ec4d16642d729c4, 0x5781bad21a239757, 0x266af95c1174ed0a],
    [0x1273519b6f9b703f, 0xd61cef48dd27c197, 0xa67fd8da381ac224, 0x14c46169d20fa3e4],
    [0x520ce2a721a640f2, 0xdf202cf661ea0f2c, 0xc7de22ced7aa99a4, 0x1269bce1327ee515],
    [0x2f70a792490e9bc0, 0xf6d1b3db328addcb, 0x2919490728ee5d19, 0x172bcf2621fe4e5c],
    [0xe53a5f490ab99c49, 0x4763729fce73037a, 0x788c20be85b4bf77, 0xf26dd040a3d43e4],
    [0x64c1865cc8231907, 0xda7ca2d9053f7ed2, 0x3fe30b77087600d1, 0x2fe304bb2aad7c3a],
    [0xc4843765fb4a49fc, 0xbf2f8475eec5a56f, 0xfaf2ba71fade06bb, 0x2e365d1b4f6d9946],
    [0xaab649e32ffadbcf, 0xb64e8ebad06ee903, 0xfa32b82d274658a1, 0x25a82f1231627dd4],
    [0x2bab96ecacb89c9a, 0x9c4f08e6fbd3ee22, 0xdac8511562fdb804, 0x2cb9324b95c056a7],
    [0x5b2f251013fcd3a7, 0xea2f392b4f5ebac, 0x93e7b8fa96f6915a, 0x1e3c03ec4cccb96e],
    [0xd819dbebb1a81c07, 0x5189c39224023ff0, 0xc760f7758dfe3772, 0x21011730617a2b7],
    [0xf1a176d02f495138, 0x7d97ec3adb4a00f3, 0xf090863730a24b59, 0x28b05c0a2e98dbe8],
    [0xa1633b3f0ab11a43, 0x41a8e80aed9b0bf7, 0x287bc103652855c3, 0x27355701c30ec033],
    [0xe4ff47df4289d5f0, 0xcc2af28c4065c6fa, 0x6c56651b9585ad1e, 0xfad779305457753],
    [0xe27a107161f624b3, 0xf329f6646bdd40e8, 0x5cf0fbfcd5e69de9, 0x21bb038dbba587b8],
    [0x8ee990e07e225524, 0x24c4161c91c45231, 0x60067b3b785e3b3f, 0x21b1f094f3e78cbf],
    [0xad7c463bbe0789df, 0x6300671f92717203, 0xbc8311390a5b2c9b, 0x52d8b24d73c86ad],
    [0x94cc861d4574f648, 0x543277e3da1531da, 0xb07fb62d6b2ebe8c, 0xd7039ff767a3d8b],
    [0x47a63ef70409bc03, 0x178ebe75b77552ce, 0xdc2b927aa8bf9d92, 0x1b916f0851986c4e],
    [0x34f9fe69d04d994e, 0xd52fa7712fb518e5, 0x924e9227254f4f9b, 0x33cab9f4d3c360],
    [0x985f2cf7e458fde4, 0xb09f8c4143ab881b, 0xd1a432d4be5f7f0, 0xe26a5327b3a023b],
    [0x88ba97772d371595, 0xabbec7e8e306f75b, 0x7a4c9e37b783668, 0x2ca57bd0c6297536],
    [0x4fdf13460c340ef3, 0xb800fd80d6754af7, 0xc9dbb56e54588a5e, 0xb7533836731172a],
    [0x8f04f8e1c880bdad, 0x37cd1be9a3323274, 0xd2b3c79f3da382a9, 0x28c3653d647bd221],
    [0x33f1bb2030feff68, 0xff0bac5e242673ae, 0xf244d3d014d1a0e5, 0xe30a774c353a2cb],
    [0xee1637ff68889dbe, 0x1aa880f7b3c0a60e, 0xc7f4b7504fa51ab0, 0x7fc230b6a36abb1],
    [0x87f41b6b965ca6e6, 0x65e41aee0f71cbfc, 0xfc87f6d7976aec01, 0xbbfe36421ba52a2],
    [0x7c2957eb631f17af, 0x3df213a3a7979e36, 0xc1a8c66e6306af2c, 0xfd2424b028d4d8a],
    [0x8cf3ffdfd2fabaeb, 0xc24a31d433d83f85, 0xfeeb07dffa4d961e, 0x1b674725a1f99e1d],
    [0x619f9ffe0d055f10, 0x8df3dc9d6b29f75, 0x935ddba214f21a8c, 0x12c9cc35e0ea2482],
    [0x1339943d85bbe21c, 0xd70c5a7d3bbbf6f9, 0x11c804d95b3709de, 0x1ad3b10f3f584f48],
    [0xeac958b34e8c35a5, 0x3781df51eb186a65, 0xd0af0861c17c3325, 0x2abfcda5b9f799b2],
    [0xcaf08ddc0d0c76dd, 0x5c732434dfc9e7ca, 0x82504d02aa80500a, 0xd9cf52fd20c1899],
    [0x73d40d5ea287aba4, 0xdf83c1e7dbc0bd97, 0xaf67bf3533b399e, 0xd87620da15c58c5],
    [0xfdfc6aa392b60af1, 0xfa57be3381c12943, 0x7389dce0eca1cfc0, 0x289e55051ec741e2],
    [0x1385dc2d2ecbb979, 0xe06b1c82105cc4d6, 0x8e16e4cc7fe5bb7c, 0x285ec1799c195e63],
    [0xccb091067d4ddeed, 0x4cd188718f7000f1, 0x4159f9c97ee921a2, 0x284ce6e7141920ad],
    [0x4e4627e95489f57e, 0x55cf80d1d5e8d32e, 0xa8ad77cb3f8d5150, 0x2403b3f3f99fd0da],
    [0x33c814aa33d9cee, 0x253302c82a337f00, 0xc5c5d324e09297b7, 0x2ef65bcc67502169],
    [0x6e6606ecfcdbff4e, 0x95566ce4effcfefb, 0xd623a85ee61e3104, 0x2b1ced8656b92329],
    [0xdfdd86e0e7f0719d, 0xf02cc6eb68d7456c, 0xd94be5aae54afff0, 0x2cf6166a9183e66b],
    [0x9d7049b69d2507c0, 0xeaa5e412437c66e5, 0x8b696e7238af3ca3, 0x60d392a31de88d7],
    [0xe76d792bf420cd16, 0xb2b5956738a478b6, 0x926f6474264c899e, 0xc2b62bd89e35735],
    [0xd898d716f1c39d1a, 0x1e08d5c10ec31f23, 0x608847ce8677d029, 0xe070af64e603d24],
    [0x3d84e387bd892893, 0x314e26382c6c9e88, 0x8ca18d06dd21370f, 0x2de645e3763155f4],
    [0x326ce6e79c66a6da, 0x85e74dfce063b37e, 0x5572140ca181a817, 0x17deebc35147ac64],
    [0xce1ce45f6ad0b811, 0xb035db06a3150ad9, 0xa464054eaa0f892c, 0xb035d43bfeca4b7],
    [0xbdcf4b098681be52, 0xe77f65f93738e393, 0x443541c1e27f78d0, 0x100c78328ef5a499],
    [0x78f4f6f956a55aef, 0x70936923605d5fb0, 0xa60bf156e8ed5280, 0x180cd1e5a1262087],
    [0xdead030f87e6e24a, 0x5c9f10cb55b32b73, 0x23089bcc3b495bb1, 0x1409c9afb266f527],
    [0xdbcdd79d6739fd38, 0xd7af73e6cd95a10d, 0xb6360f540f954493, 0x100ee62d3a9d66d3],
    [0x33f1bb2030feff68, 0xff0bac5e242673ae, 0xf244d3d014d1a0e5, 0xe30a774c353a2cb],
    [0x7343e09342a0fd81, 0xa7fe77b0a5521091, 0xa1703fa8399239d3, 0xf8533b51bd9ed54],
    [0xdb8f409beb2dc8f4, 0x1d87155c081b7039, 0x83782c40f7261e92, 0xa38a8515b1393a0],
    [0x66d227fde43821f7, 0x48b99083a94d2f29, 0xe11196b0ffe73553, 0x1dbe26b8ab56c6d],
    [0xc9532fae7ccfa76a, 0x20289d06ba343b, 0x3232b298e274df12, 0x2fae58b811204fbf],
    [0xf3256c690cc61efd, 0x1c845d5e04e4b3e4, 0xfde44567163b071c, 0x2c33c971128abcaf],
    [0x36e85927e004967d, 0xbfaf20b46ebad48c, 0x919895eaaf857157, 0x1d6879298603d7ce],
    [0xf82abc3e97b9d176, 0x86b256f83de4e7b5, 0x4c7b64fb83c04731, 0x154e2b495b2894e2],
    [0xc36a5a7cf73689c2, 0xe91ca6aad1744fdf, 0x177f9b0e8f6df631, 0x1108e6590ee097d6],
    [0xf500c921db4f22c2, 0x902e564359dc27e6, 0xc0ffc72ec35cfa5f, 0x30e4cc0defe07e0],
    [0x316f805c5c822922, 0x4a5e42fe6db58a53, 0xf3e3e276603162c, 0x1c4f81779c863349],
    [0xc48abe8430ba3c20, 0xba9d750b9f9bedbf, 0x3ad80c867317b4aa, 0x2954c55e5111eb03],
    [0x782d15be156830b4, 0x532625fef17aef20, 0xc479d178f6500e54, 0xd519d7237511791],
    [0xa5d41241e3e27ac, 0x2452a42ed1929982, 0xe0e8ecb40e7f636d, 0xb18f5604bef3748],
    [0x13113ff647614b42, 0x505dd10daf7cc2f2, 0x9e2ebe58e16855ef, 0x2719c5dffb3c5e09],
    [0x242132d4f1c1c0ce, 0xcb3fd0e6b86cce3d, 0x5bd950a92b785afa, 0x16e635dbb0038d0],
    [0x1222047605015b23, 0xaf239bb3e6032689, 0xca072b265532745b, 0x3920a662038566a],
    [0xf4d6461ae5a875bf, 0xdb1297d123add7ad, 0xe6024a97f1c9cbde, 0x2c4f137391f3b5e4],
    [0xba043b0946f812d9, 0x40e2de326cea846b, 0x9f07582fb03dce93, 0x2264a7d603db95df],
    [0x6533665d0745067c, 0x9a123c4d9d0189d6, 0x4dd938433a986b51, 0x2f1f379f002c4909],
    [0xd6c4000b9585d45, 0x10cf0bdfa90d7df, 0xc3a3fe7b9244d4b7, 0xd29276a5ac511cf],
    [0xb71b6b4b6b1124bf, 0x99179b4f30b464e0, 0x3b6d2b1a69e54b36, 0xac3ab6802fcf30b],
    [0xedbb0a9450155fdd, 0xdefd36abc2e24bab, 0x601ba4dcf9ffb457, 0x2dc0c34175e61183],
    [0xe22ab74ead7c5663, 0xc13bb3698f3640cc, 0x570d68665ae17172, 0x6fd088a7bca20b5],
    [0x32b49150dfd1126a, 0x1adea072f8d22ee9, 0xb5d55c378a74e14e, 0x1de87003640c024a],
    [0xa274a0a41eff3e06, 0xb28d82a89b4ebbf, 0x868129b1f173a77a, 0x2e01b475d78e669a],
    [0x2acf34bcfd58f814, 0x5d751775bc8596e3, 0x70390faa1d3c4058, 0x1ba9c82ee2f9ce1b],
    [0x33f1bb2030feff68, 0xff0bac5e242673ae, 0xf244d3d014d1a0e5, 0xe30a774c353a2cb],
    [0x2e27fa3dbb0e3bf8, 0xed7328f42c9dd1c8, 0x949c486673d1ce6, 0x2a61fb95295b3b5c],
    [0x9b95f71fb47db283, 0xba6aabc5d1acfc18, 0xba65eb7390b7c812, 0x156befb6eeb13f52],
    [0xbd37f7c120d7aac3, 0xc67803de00a3a4fd, 0xce35e1540d99c3cb, 0x13422f783a978ed5],
    [0x9c40f43320d5ec8b, 0x87fd4456149fbd89, 0xc2727e89618e705a, 0x1995d00ce7c99415],
    [0x6ee6805672ea84b3, 0xabbcad5acb8cf98b, 0x56fae1a46a3303ff, 0x24ebb318e440a459],
    [0xe2ad214ed47387cc, 0xf753b5c26193f206, 0x34b071a03101db8c, 0x2c6c1b35e7979c2e],
    [0xed7fc9e9a1ee5c0d, 0xa007510bdbc429c5, 0xb168fcdd0d618f2d, 0x2fb55d17e5a50b80],
    [0x37d4a43a06bcd2bf, 0xe3085bb99925eaf9, 0xf8b57844220b7260, 0x117c39033ac0e1f5],
    [0x2ed23c5f03d38ef1, 0x4b074ad7bc444313, 0xd4aaba2fccbb05fc, 0x154a4ff3064027d0],
    [0x478517475c274d62, 0x4aa40a4ae0eefbd, 0x4e15cf66ccc4e991, 0x16ea33e7327d3fab],
    [0x8097789ea9a0cdfb, 0x5ee0be7b9e0b53fb, 0x3cd47181367c6f1f, 0x7af162f6a41d562],
    [0x68e1028d8ddbc398, 0xdc7d1cdbe575e085, 0xcdb6eb28abd2d425, 0x1a732e3765405223],
    [0xe180c3d517163641, 0xba55f5b88620ace2, 0xd1024920a6a0f94f, 0x1208ce1a3a017db5],
    [0x9b47b21cb230e174, 0x555fbc1ad465b09f, 0xfb86d40b19b7609b, 0xbf9ac6ccc83f71d],
    [0xdf40e1baec14a3d0, 0x4d22d687639e7f64, 0xa924aa8045967abf, 0x1ae8cbc6e5e4b91e],
    [0xa7ba601b87d16380, 0xee39b0aadd995b48, 0xeadca5e835f30bf7, 0x2a1be1e4d0fddc88],
    [0x1413d440a2f783fc, 0x9c8895f886a71c0, 0x6ae81703ff26262a, 0x1dcf4c29bab85ce9],
    [0x94ed9b680b03047d, 0xc9f27fd4988c9782, 0x209587d01a8e5b83, 0x2bde5bc567bc599e],
    [0x24f5be957249bfd6, 0x3848f7f40dda0cbe, 0xa5ab07653c98721b, 0xd7f63416aaa46e1],
    [0xd793e7dfc11997c1, 0xb7c6da968029939f, 0xe0bcf6069d82ac70, 0x201c0d5ba18737cc],
    [0x6cc05a578218cf9f, 0xf9c0079a5ccbebf, 0xf5ff971e0bd0301b, 0xfd4dfde771c21ad],
    [0xe8d1e73ba95fdae5, 0x5bdccb473c802820, 0x96bc1719d578b164, 0x6e26ebfae0d7f55],
    [0x27e2a236816e9e94, 0xfa9abb1d7bd85c56, 0xde4670a019c1c539, 0x153a90c4a4df503a],
    [0xef7b6f504649f5ca, 0x881c865d1baa284e, 0x8ab21623db322f70, 0x268ddb0d3607d6d8],
    [0x5a9cb2dfa526c178, 0x87ab31b6e9947a3f, 0x5232011e8e9956ca, 0x10ad938c2c97c878],
    [0x807247629e61f0c4, 0xbe751456c4249f0d, 0xe4b3aea5150d059b, 0x100a9d42b7617d60],
    [0x33f1bb2030feff68, 0xff0bac5e242673ae, 0xf244d3d014d1a0e5, 0xe30a774c353a2cb],
    [0x25b8a5b9dea661fd, 0xcc3df12824057460, 0xa6705d1990ac925c, 0x13bc85e2ad431df8],
    [0x17c1c8ef5b490d8e, 0x36a77a2909604c69, 0x605c0a34e07eb314, 0xcf2d89cb39c2d88],
    [0xe34b7a9d878f4054, 0x9bc430a3bfe2ebb3, 0x32665b1334d612cd, 0x2612eaba8d6b8334],
    [0x6bb34f2f14211011, 0xb067762c96bb3bb8, 0x827e719a6890d90f, 0x17f2915802e376c5],
    [0x797b65380b8f07e, 0x55ec07302a6051d9, 0x5e457ad0adfe66ff, 0x1ec7edddf6e2543f],
    [0x3064f9413f202082, 0xbcea2cc9b8ca732d, 0xbf4d8a3bfac81347, 0x1d4406aa079fb976],
    [0x879cd312d8b17cb0, 0x5b4c95624ca72067, 0x672d8a857b34b04e, 0x29b71a20d311389c],
    [0xeb193c67c0e72d43, 0xc355cdedba299b20, 0xc2298f518a19665e, 0x6df0c4c7d3b8552],
    [0x7f1d19784f47cda8, 0xd53a234368296d66, 0xc7bc212ceaa5d63, 0x26779e1080043776],
    [0xe50c654de10a44cc, 0xc1e41684b276a0ad, 0x8b07ee60910ed3d1, 0xed1c5edb705306],
    [0xa5d9d5ecdb0dd322, 0xc9431724b3b16202, 0x3cb1662a81ae6b60, 0x24b4046af28ee501],
    [0xf1df1031baa582fe, 0x478e7440017bcbe5, 0xe9da2932f51616f1, 0x2710607671674451],
    [0x5c99ae914819878f, 0x35ab0ae20053ae6, 0xa2478e043645bb6d, 0xba845a38009864c],
    [0x93b50b05fcea1624, 0x20e137945f8a64ec, 0x836a2ce81c045bcb, 0x15c5c54f3efc26d2],
    [0xad530d21d035c1a6, 0x18dce217ec716ec1, 0x1290aa08d84764da, 0x2f416e4189aeae93],
    [0x5a8b7c5b96d89305, 0x98852b6ded3100b6, 0x389a83dd7a46784f, 0xc92385c63d6c451],
    [0xe2d66d79dd0e2926, 0x483fec353b832f97, 0xaf23785e36e1eb3b, 0x222e8105aa188083],
    [0xbc8395a6893ae9fd, 0x2952e6dd3c9fd12e, 0x10fd164ed687041f, 0xe98d7f5e45ac66],
    [0x56072a3b58c3fb7c, 0xfb2d5a918489429, 0xa8398cc80d8d4698, 0x11591f35ad1543a7],
    [0xd3223784df4e043d, 0xa09fb99a5bf74024, 0xc9e4ad1bcdaa962d, 0xfda43471cb17ed2],
    [0xec5d1868f498285a, 0x2c2e9ec8d8c50bac, 0xad74b40f381be30c, 0xa12e81049a88849],
    [0xb8b6b84996168339, 0xc7baec5affc571b6, 0x7d716d6f30acb48a, 0x7c6d194a73f848f],
    [0xa4d8b0c29e6dcc58, 0xde6075dd3ecaad21, 0x1937426a78e0784c, 0x194f847f3c7d048a],
    [0x579287d4afabd622, 0xa55d1b2f4ad2c92b, 0x47eaa6bb766c7cb, 0x478225c0df10ae1],
    [0x59f7cf47a9d426ba, 0x24f52cc50a01d049, 0xdd9d5e01bb8d8fa3, 0x7098d85221394b7],
    [0x79a33fa3d2a86379, 0xd39421c48dc34e50, 0xb0492b77e2ca5083, 0x152237727876536f],
    [0x33f1bb2030feff68, 0xff0bac5e242673ae, 0xf244d3d014d1a0e5, 0xe30a774c353a2cb],
    [0xb551a3408f0170c1, 0xf7c6542b053a499a, 0x2579616faf1bfa74, 0x1420a14de2cbafff],
    [0x76ef796a06abb333, 0x687788d37dca581e, 0x248f2ce8bbd1fe9c, 0xb9d1c211a3135cf],
    [0x617caa864d20ba4f, 0xcdee4c30fd11b740, 0xf313d485195a90e8, 0x2d90ad8b96b95e07],
    [0xf41df5f92a6bc91d, 0xb06a7cba6987fec7, 0x41e3aa8154a1ffb5, 0x1841439f401d20be],
    [0x37abdb842c0f4a78, 0xd176c2b70c6d9bb6, 0x6a1eb98d73ea78b7, 0x2388640642c291a],
    [0xef93292d6d3f59a3, 0x63ae61218c0a21b8, 0x7651b2b787111e28, 0x26847393fc7364e9],
    [0x2785a6b8f5e2aa6d, 0x37e701c44023e638, 0xc5722540fbc3257e, 0xa97aa86b7cbf546],
    [0xa6385e0d05b17930, 0xf9af29f43fde16f9, 0xe46a478ab27fbaf5, 0x1e66c9e1d497faee],
    [0x445f77560b730ee8, 0x7e8dcfd70c5e0dcc, 0x420e756cc25e7653, 0x15dd9d1744c08352],
    [0x5d8205cdaeadd2a2, 0xd4fd44beeea30994, 0xb8cb5dfb3bf60610, 0x907dbd7263cf90],
    [0xa44aa7fd588ff23d, 0xd879edeb0f395bf9, 0x9e98dcf2b584e9a, 0x233dce7ca21fd1e9],
    [0x2d63ce72b435a3a6, 0xfb50e18d1517d5, 0xaf54d011063c0a29, 0x28d0f25cc88f3d33],
    [0x2777070d012ac71, 0xedddff26237df67c, 0xe86126581cbf8bd7, 0x20db88c936bfe7c6],
    [0x511b05676af6e230, 0x39f82f2cffbb8fb6, 0x38ef188fb167f380, 0x27531eb0037dc5b9],
    [0xafd4f9de59dbaf61, 0x1b1908cedef20997, 0x178d777c3174aaa2, 0x174c8436d7632117],
    [0x8f45815e7dfe527, 0x9751a7ea383870e1, 0x632cd43f8d356a83, 0x610a7245fb111b8],
    [0x3ce15a64401d57f7, 0xaebc08c0321260a0, 0xfd5fb48401dc97a7, 0x51ec3ebb56094e6],
    [0x572ecc6d6669c36e, 0xa98c0fc27890c0e, 0x651058aaa102bf53, 0xe79a17117660b79],
    [0xb5d607c4fca3de99, 0x39b1ea67db4ab22d, 0x7040af0cef26fa9e, 0xad64295a0a16451],
    [0xc432a80dde7116c7, 0xcb6e81e7ab229f66, 0xac962a2a78fa4fe8, 0x2861d3d53c2665d9],
    [0x7a158fba11a9ac8e, 0x4ae0d0734c4a5d66, 0x3cbebfbc5c75844, 0x2ffa7a7a62d5e1bd],
    [0x59424033cbea06df, 0x806c5e26bd2ee64, 0xe8991961644decb6, 0x2fceca53023c3cc3],
    [0x9ef6cc15b45aaafa, 0x4d2fa321f3359d6a, 0xaaeb911943607634, 0x1b315dd83c8b16a2],
    [0xea77682a60a4b1c8, 0x68ece1b7707b62b6, 0xc2e21f43f42168d6, 0x27c786865b0c424b],
    [0xada215856fcbf5b5, 0x894b80e6a340fd21, 0x92cd318504423f31, 0x2f55ac5fe9c4deeb],
    [0x91c196373601335b, 0x28c66906a7ae10ad, 0x31da8d059f7cacd, 0x8484c73576645af],
    [0x33f1bb2030feff68, 0xff0bac5e242673ae, 0xf244d3d014d1a0e5, 0xe30a774c353a2cb],
    [0xbd4610a054bb397, 0x210f6020ad98006f, 0x564a110744d481be, 0x1f1e99a24da4de93],
    [0xdb1b23967fa23167, 0x2308ed1c1241013f, 0xc155fc0218d85820, 0x1313ce9497a6e074],
    [0xbf0877fbb3e7eb1d, 0x405b6866b8dfc4fb, 0xd19f18b29a3ae436, 0x20dd2b7ad2c4f1f1],
    [0xcb16f3afa68bd2e1, 0x68c71203492d5911, 0x585632de9c1e0d4a, 0x1d9a3b14077a7c4d],
    [0x93e4627a3fad156c, 0xda0372fef8043ebf, 0x2221f6739002faa9, 0x1731badd5397325e],
    [0x5455d4eac9275685, 0x62b7f5237942f23a, 0xa79f4c3298c8e18, 0x23e7e3fe8c10b558],
    [0x77ace7544a29e37c, 0x9e3b7caf01756877, 0x52808fea233b82f3, 0x2c014180a6ecc474],
    [0x3d0f6df204e8976b, 0xab67aaf5f7302a00, 0x173af35e46536550, 0x292a5b755731fa19],
    [0xe475de4f351d243a, 0x655bc05193481ddb, 0xdba450a860b85784, 0xed8c6981ca41600],
    [0x43f7d1858c8fbf19, 0x4a34247f7471bfa7, 0xac63ccefefe74a7d, 0x1a19597908036c20],
    [0x4232f059501eb278, 0x7bfcaec6e7fbe092, 0xc1985bae1dd3b837, 0x21d82813886827e8],
    [0x50899eb6bb1971d9, 0x2517f94566c72686, 0xe2af64d4efbbab38, 0x1a3ba88e071dfb03],
    [0x950be3c3c9607347, 0xd2a4831cb0cd055f, 0x5fa36286c7fddd68, 0x1d48d408a857660c],
    [0xe71d8d25e65827e0, 0xdccb7cb14a2fc32b, 0x8ac5f8e94a3ef1c0, 0x23a912ee06a71720],
    [0x9b5c6d6ff6af3e13, 0x745bdfc96371bcc9, 0xd3543dc09c0c2895, 0x24f16318b8064d97],
    [0x3347e7868ee45e36, 0xb1dd79559d2b84d7, 0xae6ac8cee5748cc4, 0x732c0b040e6bffb],
    [0xc151cba1d8b6f93f, 0xdcfd543bd30437af, 0x8e4239aaa2edaab1, 0x28d961a33687f15d],
    [0x5b817bad870885dc, 0x930bbfaa4dec3b88, 0xac18622299635bd3, 0x295338d4f509a0e6],
    [0x40f4c893cfab9a3, 0xd31f95731d89c2f7, 0x2fab0619637bf4fe, 0x20bfa91fd05c7fbc],
    [0xab3416e6455dcc03, 0xc51463a5129c2bc5, 0x6a932606a391e146, 0x40df188035ab240],
    [0x7f9790615422c61b, 0x66796946957e6994, 0xaba1af8b1c9af41b, 0x2483ffcf685a6a42],
    [0xfa3d22b3644b6ea7, 0x2fe06908e5a6bdd3, 0x43fc1994846ffac2, 0x285aaafdd3180b15],
    [0x68690f33e233fdc5, 0xc4c8cf08fe69184b, 0x69c9429e96289dc1, 0x2dc5f343de5cf59a],
    [0xeeaad0abf1e8b5f2, 0xce79716f5a22b5ef, 0xedd0a240d7a777ad, 0x6e3d7b62ce4436f],
    [0x4241662658f2507e, 0xfd5b2bc2f1959c16, 0x43ea1fc5189a2a59, 0x1482cba9741ff1dc],
    [0x8bbd56e0c9d0d526, 0x1f93cf370a238013, 0x77c9db960818c96b, 0x1348498420e5f9e9],
    [0x33f1bb2030feff68, 0xff0bac5e242673ae, 0xf244d3d014d1a0e5, 0xe30a774c353a2cb],
    [0xafba874b93ae8f7, 0x1e4284521ba6240b, 0xa8eaa57cfa1caae7, 0x14fe503bb439d34e],
    [0xb169343f93c3f8e0, 0xdb092d66ebde1ad8, 0x2697d8a93b00a57b, 0x1f9c9a83a952c1e7],
    [0xdb562486c88b0ac, 0x35494ed9fb7e5b59, 0x5faf061867d2cefb, 0x24fbb0c0f2ace05a],
    [0x5bbece78cc5516fd, 0x877dce60cea5925d, 0x9f0d6fb73b2cf3c4, 0x10f738bd7905a3db],
    [0x6f55b2152d85ca67, 0x19ea8653e4da0d6a, 0x298987ecf40a0a34, 0x2a62e245b8b68d45],
    [0x1e4460140896c168, 0x963761ef3e007f2f, 0x2bea4bbf47394106, 0x275b72887f4a3fd3],
    [0x73072ba3dfd2807f, 0x355854cf2202d915, 0xe476fa6665c4f058, 0x1552e36d16435150],
    [0x179c1fa20873b597, 0xe8d1bc5fc7ba2abc, 0xbddd1b8da7d57f9c, 0xbe9ef904aac486f],
    [0x2cb9801d7f762ea, 0xf8636a0e563bf33a, 0xdce1bd10aaa16530, 0x1e81ddff4f76a1b2],
    [0x5cc6bdaa72231de2, 0x53fead50f462a604, 0x888ff3ee7dc7a8f6, 0x1c9d6fd38c151b16],
    [0x5ebfbd7235c85a4f, 0x85dc00258402594a, 0x49b753cc0857a89a, 0x249f6caee2d3f225],
    [0xa2c3e852bf030798, 0x7ba2e30ace0dec7f, 0xc3c5cef4aadbee3d, 0xa5bae6c55380bc6],
    [0x7c84c8f0ace22c47, 0x38caaf25b99cab17, 0x64b984ad9274257d, 0x1a591bd8ba8f5c6e],
    [0x42f483da3211a0ee, 0xa9980bb50e7c963d, 0x4f43f46d60b1552a, 0x2f14e7a4d071ec39],
    [0x4503cac64914f86f, 0x95ac5775dc1b9010, 0xf5822cf8a1704776, 0x9dffc259c60af5f],
    [0xf75e25fc67d355bc, 0xdd1ad4657f1f324, 0x3b353775e93828dc, 0x295af9152dc405a4],
    [0x23bf95f58cd5333c, 0x868dacf3c6f2999c, 0xb25db50f75b0f9a7, 0x4ed39653bd52f01],
    [0xde7117b9023c0b37, 0xa4130f6e6d364bc1, 0xa8056deff42b51f4, 0x10e815500f22b57b],
    [0xc56fe9e38750886, 0xd3d1273062c893a7, 0x29d58395c45ad419, 0x2286d75a72832bab],
    [0xfb7a1cc98057a27f, 0xe23fb49ae805d09a, 0xada849b80d01be30, 0x111df543f14f2ae7],
    [0x610d5c62bc03da3d, 0x83da3809a89efc10, 0x4831b2339d163ad, 0x25c1d1e13619f1ad],
    [0x528b037e4f8ec4, 0x913010539fd9a94c, 0x1dd482768838b9ab, 0x2fa4fe7aa2dc0ece],
    [0x381194dc258770ea, 0x82faa74392a70a0d, 0x6e8801a03edd51f9, 0x1950f2d47f38a097],
    [0x71e3f6f648d568cf, 0x6c6b1513c8c38dfd, 0x644fd4d36dbdfa85, 0xe6945795a878954],
    [0x46c4cd269f4e0707, 0xe44b558de46b2e92, 0x7c7eb9d100a26930, 0xf15e86e69bf0d74],
    [0xe4737761e0d438f7, 0x988d9a42ac6f90b, 0x484dc9d759d93d56, 0x132cccee9c47ea27],
    [0x33f1bb2030feff68, 0xff0bac5e242673ae, 0xf244d3d014d1a0e5, 0xe30a774c353a2cb],
    [0xe0cf3d7ec6f04a89, 0x1c9e1db227bd7fac, 0x22d6aea73259634d, 0x1f19d5b58c771b10],
    [0xac081e2616efff4c, 0xf93db6675b839e54, 0xfcb2db34f0a80d01, 0x9e99a9892ec5c92],
    [0x1e75de1090b5ea11, 0x27267c00bf284a01, 0xbdfa8b2d2fd84817, 0x2e39982857d71f53],
    [0xa57e7c33f14ad552, 0x8ffc649480a144bd, 0x564272eb8f8996dc, 0xa4c0ebe2118c2ac],
    [0xbd80d97d999fda60, 0x34443b435a7f175a, 0x4ce431f6f9ecd159, 0x25451345b3521396],
    [0xa6d48e273ee9809, 0xf4a4f9905d09f1de, 0xbc7c8ae9fcd8a172, 0xbbc4376c1f85523],
    [0x7c178bde7bd9fc6e, 0x306e137f4460f2ac, 0x5d5b8994731ede44, 0x2bdd1037469a47d7],
    [0x8e59078ee30b2748, 0x989d27ca87f57b8b, 0x8223dca8cbe59954, 0xf677b2a55e756de],
    [0x3b6777863a936411, 0x4b173fe18925971a, 0x3e528b009e444bb3, 0x2fb0b17b679ed6fa],
    [0xaa33e0df72d180b4, 0x9d701291e005defd, 0x20dc600aa4fd13ea, 0x8e4988e8ab1a274],
    [0xcd91f3156595f0f2, 0x499bf86f77109ef9, 0x5d338c2a7299d28d, 0x2aa3f6fb81b544fa],
    [0x47fcfeb6afc011bd, 0xcae7fb0e02dde42e, 0x9a1d12ec6f0b7674, 0x202ce667a6cefe6],
    [0xb0b9ccccc2c7b57a, 0xaf9f68982753e01e, 0xac88a8b7013cd460, 0x13fc451c175cd7d0],
    [0x284c69e170e90858, 0x5c7700ae53c0d57, 0xd6f2ee4701f23d7e, 0x1b86a2f0867f4a97],
    [0xf59e86e69c720821, 0xf0dd76d7889926aa, 0x134b54d9d6aff50, 0x1fbf812f6d014d7c],
    [0xe98452f6ed0d9d2b, 0xa4b312aa52707bd5, 0x56e35b2a125ded0e, 0x11ae5f1bc0b2f109],
    [0xf7015d37769c76a3, 0xf9714e9279ae25b7, 0xf2ccbddc8d52e51b, 0xebfd2844a28d08d],
    [0x2fde7082778eb970, 0x58949dd18312b21, 0x8ec3fb2cd6f45061, 0x1c9e2830d53d2fb3],
    [0x7e900fd643c2963b, 0xcb5b9b4f0069ddbf, 0x61843f218bdcb0cc, 0x2c89a19cc675823c],
    [0xa055a9a2a496e73d, 0xe30c79e425907ad9, 0x90cff0a2c2f05042, 0x8da85ff8b6200e0],
    [0xfbe2227194ee270c, 0x7d2f5828e88327a1, 0x130360038aac26bf, 0x960180e5d5ff549],
    [0xf1af87e4ef28609a, 0x5a45c743db6b27f4, 0x60fd3da3213f549e, 0x17ea53188c77a57],
    [0xc667508e93aad2c6, 0x5a08ea594897a8b2, 0x9cd7ad1180598c06, 0x1cd300160e5cbe7b],
];

/// Part 6 of the sparse partial-round rows for width 14, as little-endian limbs.
pub const S_DATA_6: [[u64; 4]; 256] = [
    [0xfbb378be75fdff94, 0x4e4b9a587927f1d5, 0xffd05312139ac859, 0x1b8db86cfd31fb27],
    [0x248731cca7817df9, 0xeae43b4cd6b97d8, 0xcd89cefe94e7f31b, 0x9ce92eb753807b4],
    [0x407483709df22a70, 0x2707f6f0dfbddc5e, 0x5c459ae0c1758ee5, 0xf953e8b043a5bce],
    [0x33f1bb2030feff68, 0xff0bac5e242673ae, 0xf244d3d014d1a0e5, 0xe30a774c353a2cb],
    [0xb96fed3d1be3e626, 0xbef29f9460fd6aca, 0xc4189d5926940c65, 0xe61fb7e75ef9295],
    [0x9e62d43e9745078b, 0x2c0e09793b82957, 0x89ee096792e722ef, 0xda574faa3851b0f],
    [0xf52f613b0f24686, 0x47cb0560f726a0d7, 0xd8c3521f9a665b5, 0x29e8bfb439417432],
    [0x8f4e58f1c4de54b0, 0x92774eed55a5735b, 0xf127cc7fc18ad0bc, 0x138864a60c066835],
    [0xab266918efd24982, 0x93e6c16ca1c498b, 0xb98d6966f7014b7f, 0xc4061a8556cba5e],
    [0x9fcbd03352180b8f, 0x54ac196215df67c0, 0xffe0debc4ca69688, 0x29a31f9aaa8ddea5],
    [0x683c42f7417b8a57, 0x488c6041a6205045, 0x445a7f94998c5e59, 0x1cf3ae0b1b9b5d99],
    [0xc558ab552bc61a14, 0xf9b080e77569a534, 0x908bd1f4c886306d, 0x297c9cf4083fe500],
    [0x5b917db8b33ee846, 0x9303d36e0a331690, 0xbef74446fee4f51e, 0x1fee3441a345869b],
    [0xf46e5b800d62abce, 0x3ef8bc5650160e0, 0x6e55324777703a93, 0x29f81a706163b55c],
    [0x43706ffb01683fcc, 0x769f9652c7aa177e, 0x770cb73b1287f745, 0x82ef985b1721ecc],
    [0xf27163d3d4db80a2, 0x1756fd0be6fdd65a, 0xf059dfd28915cb10, 0xd2909479aba19cd],
    [0x2d8f138c24e9f336, 0xb1071b7d4e720bbb, 0x4bd0f3ce5737ac83, 0x2f9cd946fd1c2dc7],
    [0x7a79c4fcaf8cbc8c, 0x47dc3727f72832da, 0x1b510d9ec1bd3542, 0x24ec8557ae626b29],
    [0x17239c3724114e6e, 0x852cc0df7c8d8409, 0x70505543d7028f8c, 0xf11a41f841b89ce],
    [0x1f99856266cb8089, 0xf98c6907c37f2fb, 0xc48a7d4f21e17c27, 0x114bb82795b43471],
    [0xb1b4212e58e6a4c1, 0x602f287abaec3b1f, 0xc744a8286db0aded, 0x2b62ff5f01bbb491],
    [0xb3a5c59b005e499c, 0x8ba591835f481113, 0x395b20fa5fc276d7, 0x65601f8bdd487ec],
    [0xb398389230d9ae4b, 0x7e45883e166ce3d5, 0x301b48ef87d7cab6, 0x1fc7286cd0168e84],
    [0x38940d99088c5069, 0xe153f5e47a473541, 0x465601e109ffcb16, 0x795f23bad239c2e],
    [0x9b7d362f211072c7, 0x73d3c1a29bcbcb7b, 0xcd618c2c5291215a, 0x2e953e715e0c47fd],
    [0x6681d8c29857b509, 0x73ac18ea5564d972, 0x385cd479d5b80be, 0x577b3abeddb1cba],
    [0x600d69fd4e72384f, 0x71d2016e67b777a0, 0x9194195275d6dd56, 0x17f68ef80fe53b63],
    [0x9013cf9060b12ede, 0x591b12da8f4c6148, 0x2f9be3455d13d0e6, 0x20ff4e58659cb093],
    [0xfa7c43c0295de2d2, 0x900192f0ae54d144, 0x6c515b275db8401e, 0x1e22384181c19d8b],
    [0xb61a83c4e7aa2ea8, 0x3f66f640dfbb1cc7, 0x4fcb81ac91cf8ad0, 0x2b73bd9ba3aa22ee],
    [0x33f1bb2030feff68, 0xff0bac5e242673ae, 0xf244d3d014d1a0e5, 0xe30a774c353a2cb],
    [0x634d25e4c66a0a15, 0xa0d1ad0d1ad6ca1d, 0x705827a87bf1d03b, 0x6e077d5c2e4e5c9],
    [0x856b900911e4f84, 0x23da7c9e1a46e1ba, 0xccf4c3b4292f6815, 0x121a212dacbbbc0],
    [0xc57d8d0395589341, 0x98fc616db34d6d6e, 0xce347c54fde1d223, 0x14a5405a71e3bf12],
    [0xfcecc6ff221d2863, 0x87734f3f8195b38b, 0xff000bda61bd7d4e, 0xf09fa7c4eeaba22],
    [0x38ac7dff3fc14353, 0xa86e66541f127249, 0xf88345315641374e, 0x16c25869bd517bde],
    [0xad07287d2908518b, 0x21ad3ff0d67548d7, 0x1ef1baa8bdaca13, 0x293cf96970b904d2],
    [0x9f307b53ecc793f8, 0xba715260b3d96814, 0x13410645a1385493, 0xc5f2232813e8dd4],
    [0x4c625a60ef624173, 0xc28573a1ff470f54, 0xa4992b7a1b2bd9b0, 0x2e620a39a57898eb],
    [0x70330891de2e8722, 0x7b26b8d390500997, 0xa495c6bb3608065f, 0x1c68b64c8887d3db],
    [0xe75c58f957082478, 0xcd0e771edab73eb5, 0x86afc250224c2d48, 0xfe00e735c41fd00],
    [0xf6b9c314b62653a9, 0xd32d8179275e7b98, 0x222ae86819b5aef6, 0x1b668eca521af2f9],
    [0x47e99f70472dc4ba, 0xf8d26ad5199eb9b6, 0x6e58b0eb6dd46fd1, 0x285025c188e98d4e],
    [0xef698f7d8e02d2a0, 0x2ff5b11ceb3c6835, 0x725b38f84f661cd, 0x20dfdbeabb890009],
    [0xd1c31888924d3729, 0xe9f15988cb71a732, 0x4b69907c533d124e, 0x7d91adadd5a4f67],
    [0x2db40fd0e46c9f7e, 0xb2f8836b88742cb3, 0x5c7cc04c0cdb534d, 0x22c3db5b12155b94],
    [0x7b4fb1764baf8382, 0xf0901946bf55e6f3, 0x764cffecd90500a5, 0x14b640a03dd9207],
    [0x2cab0d06542c6594, 0x2cfcf3c084066701, 0xb58fa0e0d424c726, 0x1e9b912709e85957],
    [0x86af46fd72796bd0, 0x9d688eb2b774fc8a, 0x9665ddb5a15ad09a, 0x1f4a75e965d66b9d],
    [0x31f00dcee14513bc, 0x9ae018a832da036e, 0x8331c185d53ba975, 0x3d5c637f69677e0],
    [0x34b5d3bad8e212b4, 0xa6029cb0760df907, 0xb9c8a187dd6cdf6b, 0x1e42641bb29a48b1],
    [0xe63f42a53b3e87fe, 0xcb55262149e10f53, 0x3bb15479044bb007, 0x2d80ba897d626e0d],
    [0xdd5bc72012e73a1b, 0x175ff0413513d36a, 0x93fd07c4da6a5ca1, 0x2071abfa33f109a6],
    [0xa6e421c4933f058f, 0xd4aa3e18eb8f38ce, 0x833e6c04c6c9cc91, 0x2857675a3c236532],
    [0x53c71b0b1f8ec663, 0x4974b2b113622dd4, 0x265039a22191824e, 0x9d0978a861b9d85],
    [0x3c773d71c68602b3, 0xa36e257e8596c47a, 0x89d531bbb8bc34d4, 0xb1ffb601c946e80],
    [0x616383513c76ac0a, 0x1b098997b226f58, 0x849dbfa72c4f39ae, 0x1b8cfc651b9b2a51],
    [0x33f1bb2030feff68, 0xff0bac5e242673ae, 0xf244d3d014d1a0e5, 0xe30a774c353a2cb],
    [0xf1cac60b0d1f956f, 0xa9d2be1dcccb7c0b, 0xe11dd1f9e1342f67, 0x27d167fe78708447],
    [0xb5c34e52dc8fa277, 0x7b3cc0f5a0afcdab, 0x382fb707a0744ca4, 0x2d211a9a9b13bee0],
    [0x49bb5e4ae9e6df14, 0xd9a32526461cb1e7, 0x53e3f75f039c3019, 0x41215a7139109b9],
    [0x88c0687554d0d28, 0xc24f5491a409c8d0, 0x69864e4b9011bdca, 0x139255318820d9f7],
    [0x92c2ae1399b994e5, 0x189859d91a03d35e, 0xee8a7d9f8383db1f, 0x26dda446062c11b3],
    [0x9ba08836846e31e7, 0xece3080df978214c, 0x799d23c03f3ff677, 0x2a9d3359aa3ab359],
    [0xda463d5a26e99f24, 0x7c3e8cf09679fc63, 0x26c7f5b378dbc583, 0x25571de296a11ec],
    [0xc01a44b64981e963, 0x891e695d463cadaa, 0xd6d758a54cdeb282, 0x2e9d042c2deb3cab],
    [0x3cd74efebf34af95, 0xcf04f60ebab95dda, 0xd72741265e5ac419, 0x1ccfe17477787c3b],
    [0xc107313eb098d57d, 0xefb3f404451d83c6, 0x6f05c33ed6e957f6, 0x1aabcbbff4276917],
    [0x431fb6de7075da31, 0x52b0217a69adc6ce, 0x1429b1284780f820, 0x1c3a79dc7ac79b40],
    [0xbaea643f183fd1da, 0xf1d4f305ecb2d61, 0x353b487c443d1923, 0x2451bc265dac3547],
    [0x3bb8a5230f490c14, 0x9c0c0609709b7d18, 0x22c7ce8a3be636d6, 0x146ee9dc5bc8dddb],
    [0x1a7e875c336fbdf3, 0xba7ddceec3bf3516, 0x99b8199a7e6e14bf, 0x1722db13180d33ba],
    [0x7b7aa1a1353712f6, 0xc2132eae07e73a7d, 0x32bad6982196c3e, 0xf90b19061d11f2a],
    [0x41f943deb7f7893a, 0xc6979f04290472b9, 0xd431288905d64240, 0x29dc1b8c70a75052],
    [0xe7b346a93f32fa5, 0x54760431142aa678, 0xf744b8fab455a37c, 0x1cbd570d3b626cbf],
    [0xe4b45c93e8128789, 0xdc64c2c1e129b146, 0x4211b3087266a4df, 0x122e0d5aef6a9d94],
    [0xf0642e4b025375c1, 0xead8c66bd42cdbfc, 0x8a54661ac4c177f2, 0x6a2e87f6c251c2f],
    [0x277526a51dbe1a62, 0xc6f1f4be4b77e15e, 0x7bc67691906e59d0, 0x121b14b512f2b676],
    [0x7d57245719f3843c, 0x7b58a86b37c30ab8, 0x4130ef1c8950fd26, 0x24337459df3d36f1],
    [0xa938231b5f667540, 0x76db32d9016d3b0, 0x7803630b12fddc7a, 0x2d751407d72c38bd],
    [0xa246f54bde575cf5, 0x10ed67d67225f4c8, 0x7eb5ef247b47a0f6, 0x1fcfa3e97394e105],
    [0x5d4d5432e2447e84, 0xb0cc96b0e08b51e8, 0x458c65d79893bacf, 0x1ce46568fc2b31fc],
    [0x3c6ae9695d16d79f, 0x7c9c2e93918c5625, 0x82d3515d999e6a68, 0x2a2035389af7aac3],
    [0xfa63b175628b8548, 0x90ec615974c9f705, 0xfebb77b703b06752, 0xa7485a573492c38],
    [0x33f1bb2030feff68, 0xff0bac5e242673ae, 0xf244d3d014d1a0e5, 0xe30a774c353a2cb],
    [0xfa51f126e434251a, 0xeb4f95569d68fad5, 0x2438e7da78b1a5db, 0x3c0b95d2250401],
    [0xa9e70720756cba9, 0x612ee3cb8fd92932, 0xde675c58584a4b6, 0x12422748193dd541],
    [0x7dce69bcc0b874cc, 0xf3bc86970f27fc80, 0xf96096d2554342c, 0x560d13602278afd],
    [0x41738aabea21cdc3, 0xfac69bf8232722f9, 0x68260015f55b9d91, 0x1339418b7b039d8e],
    [0xe688e5d8c071bc77, 0x5833e9020af6f52b, 0xeb5d792414780112, 0x1cbb466b02755d32],
    [0xa407df93fd1a327f, 0xafaf67662a714eda, 0xe03b8f06c2908f0a, 0xf5c38aa299be85b],
    [0xf057001e476f00a3, 0x91d68273e54d888f, 0x191b68e27d640cfd, 0x6445747eda857a8],
    [0x25cf883debc696ce, 0xb6a5be5dd7226754, 0xe5dec461a593c3ee, 0x1604659a656d9ed6],
    [0xb16c9f8ec9a4acd5, 0xbfb60f5297ed2f77, 0x8a6cce102854720c, 0x11fc146f9aa45f74],
    [0xfc862f425a83fae3, 0xcc17c8a818e04281, 0x828633805fc99370, 0x22ebd4f9bcd07c59],
    [0x8c74a7bba353712d, 0xc6128b927e237650, 0x65a1cab1bb83da2e, 0x51c3a4921bd206f],
    [0xc784891eaba9e221, 0xacc5a03e6e5b8c2f, 0x57b33b3a67235c89, 0x1b04cf2d7a71282e],
    [0x5288c13171bea890, 0x2c1c15dad9dbf869, 0x7ae4f46f05aa9e7c, 0x242de34ed5316ba9],
    [0xb08858464e082c12, 0xc91a88ea5f7e3b2, 0x1c09271aa40ded98, 0x2046c91a59d50c27],
    [0x2e5c8e1b253b36dc, 0x94238778d17196da, 0x42048b641af70775, 0x26cd545999428c51],
    [0x2878364f6f9790fd, 0xfa6dc520938c9695, 0x94ac6b9031974f26, 0x256b2f4800071aee],
    [0x408e1743fb060a33, 0x3d3b53306c3761dd, 0x81a4a51e1abe5641, 0x164a0f897508f50e],
    [0xad1c86cf79bd4414, 0x5173f38d7a39bc75, 0xb1240702ec50791, 0x1f7569343079826f],
    [0xa350fddccc09d1a3, 0xf809ea06526ffe9d, 0xc586a7d6af710026, 0x5272bb3e84e9d0c],
    [0x7be752ed8b7fbc26, 0xc0d09bb30d9ef658, 0xd2f9d34f71a2d36, 0x22ac9bed266b94c0],
    [0x1b7870cef981c1e7, 0x9e49db9d94a7716, 0x3779e8a584732a95, 0x7674836517777ed],
    [0xaa3136b1f7956cf1, 0x6ef99ccf3e8a3061, 0x6c3e0b80e6244e1d, 0xffe7a0170bb48fb],
    [0x6c931aaa7683194d, 0x62eee907616d0bd5, 0x7c5f764300d8eed3, 0x1afd9dce91b19114],
    [0xceb6f33b848b455c, 0x2df5358dd5abc8de, 0x68249cf2077a1a98, 0x1ae34688936fcc09],
    [0x3b95f7063442b228, 0x875bbdcd9f59da3b, 0x4bc05d34e96805cf, 0x3386d6e82aedb6f],
    [0x40167651f3a01037, 0xfab6833349ac3232, 0x4640936f97377319, 0x1a1c06ea0926bd02],
    [0x33f1bb2030feff68, 0xff0bac5e242673ae, 0xf244d3d014d1a0e5, 0xe30a774c353a2cb],
    [0x56d541a463184498, 0x9f82e3e249b9b80a, 0x77389625d09d75f7, 0x30192336409d16bb],
    [0x89d247b39eb74b29, 0x91f3dc87e2633927, 0xa2fac7a8f7475b5, 0x19c8967febcf4582],
    [0x2bda34ac18fd21c8, 0xb529db6ee364fd8, 0x977e8e71ee895a59, 0x97570b91ed5d59d],
    [0xffe80054b6cd8e4d, 0x18caedd91ed30e2a, 0xd093c5a43b4f0fb3, 0x1a4393d778fea4ef],
    [0x1063b2472004b67b, 0xaea35d1d153da001, 0x98ad3b80d8fc9bdf, 0x31f540e1c1038a],
    [0x737a83da4a293f6b, 0x63d65735dec8c39, 0x9d4e00eeaed05614, 0x165f001bcb8a3a0f],
    [0x45f7f1e04c8f1e29, 0x81c03c0382ad4d4d, 0x9ee74f4920584e6, 0x22e6b223b3e4353],
    [0x174e81006f4bc589, 0x8220dd89f88e9199, 0x47007566cfc575d0, 0x153d4c74f674e566],
    [0x3133227f8b673919, 0xfcb0f8c803be7a9f, 0x7d79ea7b540efd8c, 0x46d4654e5ea12ef],
    [0x633347f615910152, 0xf1aefbad34225fa5, 0xc031024c81eb9e49, 0x872d96c258f6400],
    [0xceb2ad1cce50fb28, 0x465a0efd12d2d688, 0xb70246488ae7ffd1, 0x15e8a238d295f566],
    [0xe79dfb1a66b09ac, 0x1274ac799ae7a080, 0x5cb8de67da292659, 0xa7c019933d1c0a2],
    [0x5b87f7615892c6c3, 0x7bd49d7b75cf8e05, 0x68c895e1e0370f1, 0x1271c70f8805321],
    [0xa457bed29b78dcd3, 0x98f43baf710198aa, 0xdd299859f2439cd0, 0x11356c90cf6bd40b],
    [0x6f9f7a734f75abc0, 0xb9441ff124e31bae, 0xddbdc211f248a7a7, 0x1cfed55f4f804d76],
    [0x9eb4a6b932234aa3, 0x9a2ec67668ef1449, 0x217dfcb63bc31e6e, 0x2f9fc15fa8a7aa7],
    [0x1b019e64eff93abb, 0x9182816677c65a77, 0x17f04c2a7745a9a7, 0x682ca8b867c78c9],
    [0x461b4a0c8682e484, 0xbd57897f1354141d, 0x1bc0e27ea518f049, 0x21dca8a6aba3d3f0],
    [0x55082ae06d9b5f6c, 0x832b44eb05210ca3, 0xe4abdef8b53b2687, 0x227615abf38c854e],
    [0xfce96f28d00b66f6, 0x835d3877c7227ad8, 0x5927966f1dd5bf26, 0x2921d807cfeed7a8],
    [0x72e64da24668fc04, 0x570e7cb06aaa4248, 0xe99a9df2b8e956f, 0x1c9045d27121eb20],
    [0x142cfa657b3e77a4, 0xdc647e3971b26679, 0x8b59dccb79077605, 0x40850a1c2d1b7b7],
    [0xfd7d8ba47f7fe19b, 0x48e5ed88cc2a6556, 0xc745f73e61c474dc, 0x4800dd5d34860ac],
    [0x548d238559feb80d, 0xce0e324f8eed13dc, 0x4180cfecb268068c, 0xcd605cc10728353],
    [0xb23d72bd6c1b69dc, 0x9c125244c13ee626, 0xfd48264d9ee16af1, 0x265a4560a8a1ccec],
    [0x2928e6bf929a0850, 0x297a09fbc79fff37, 0xfe819ac630ebae41, 0x2d72b58f878e0d96],
    [0x33f1bb2030feff68, 0xff0bac5e242673ae, 0xf244d3d014d1a0e5, 0xe30a774c353a2cb],
    [0x6e721bcfeb4ed9a2, 0xf8469b9a16f1aff4, 0xcfa329bfe762847e, 0x783e03e1c20687d],
    [0x46f80265c08d96b1, 0x88459b2444ca62f9, 0x7b1fdd9e119c7f10, 0x7c549879769b612],
    [0xbc670555e4222db3, 0x621924e88725428f, 0x1ca8f1f490caa4bc, 0x1025885c29c40db3],
    [0x9691e31a8b4fdb75, 0x6581c07465c47472, 0x22a731ec88768d98, 0x21f0feca587fe546],
    [0x3cd5faf2fe43de22, 0x7125ae6c99200dad, 0x3f397e03dad24602, 0x66df9e27127d700],
    [0x1783d1ebc38e4913, 0x5375dcfae6add9b2, 0x31d7d249eaf38aa4, 0x27f3ab0ce10f55f2],
    [0xe58540865a6288b6, 0x9150364496efc0ac, 0x78af8b0a8bf27746, 0x1e2dee4d94a3cbe6],
    [0x86e0bbd3fb23c709, 0x812d7e9d93a9b453, 0x1cf7fdfc95ab7208, 0x9972d0bc5127075],
    [0xbec278ce816a9566, 0xe987e90f6c141e92, 0x67fcf2168badaff8, 0x147d3302a23dfa48],
    [0xf238ab9fb9929c54, 0x5437195d3e894e5b, 0x4e39f3d45c97d055, 0x2e95c0b710cc179b],
    [0x236c2e05a35d7f0d, 0x48078db140c9fe04, 0x21e6de7418493007, 0xedff84d026026b6],
    [0xda442ba833098574, 0x38bfdda0a4fa5744, 0xbea9b8a2cd6c56da, 0x245d05ec0b5dc822],
    [0x311cf421a6ec0292, 0xec44826aacce221b, 0xccd8fef742dca0d8, 0x138874360b6e98e6],
    [0xa53c8be2fed67e89, 0x5d493e7bd5ab4030, 0xb68699c52f15d626, 0x1cc05be64c2f3cd2],
    [0xaac7239ba72143d2, 0x50f4322606b2e5dc, 0x71fc7fbccb3e7d87, 0x2f5edc508ba14e82],
    [0x296214439bbe0949, 0x4f0b6e688069a13b, 0x43eed1b01c37806b, 0x1557d4eee2073531],
    [0x5b92364cb553b5fc, 0x40b00bb161c7f2ca, 0xe19f92302d2a6e8e, 0x258650e8ca6e1162],
    [0xcfce660c7d915532, 0x14d8ca492878055d, 0x58df6bf6b0c9e02f, 0x12ec2381a018b718],
    [0xb84ffdfdff6a2a29, 0xbf4c2dc1a9bae6f4, 0xe9d38b5669447df6, 0x2aecb59a26510953],
    [0x907c6fd26f1609cf, 0x7135c8f0e8ea5446, 0x74e517a6b72e4f99, 0x13201907ff8421dc],
    [0x7ea80232015d21e2, 0x95214abb225bb380, 0xea25e107e27899c8, 0x1db130e5583c812],
    [0xee2e411835185bd, 0x1614c77a77781cf0, 0xad7b1192ca0c0f3b, 0x27db99bc289ac5e1],
    [0xcb3a6c201ae735e6, 0xd389543fd17e6f12, 0x72d6aaebb73cc74c, 0x21a326712c5b1092],
    [0x51b98475a9485809, 0x51c9bebe9ea9425d, 0x60ba9d853d76a5d0, 0x2716f822617a359b],
    [0x16a45e75eeea381, 0x53cd5272d479fd64, 0xf1c99d009a22816c, 0xe99f2580adcf372],
    [0x3d0af15c4529291a, 0x4d56ca7f078a4871, 0xd9d8ad2ddbf83ff9, 0xa3113a6affe5598],
    [0x33f1bb2030feff68, 0xff0bac5e242673ae, 0xf244d3d014d1a0e5, 0xe30a774c353a2cb],
    [0xf17855cb115097e, 0x58980ca148deb3bf, 0x14adf8d7b63005e0, 0x2cf67d5d1a9383ce],
    [0x269619775dd3365b, 0x144c9e41ed22e8a2, 0x790f9185a15a6a03, 0x14182d28f17d764f],
    [0x97e73416a53d1007, 0xac8775c05f87b878, 0xf325327191ae2e8d, 0x2d63510ce0f51ac8],
    [0xbe252e3393bb0fde, 0xf1a583a67646b055, 0x998bdb7d03b70f70, 0x11d2023fe50f1147],
    [0x7af54c9c98b5b799, 0xacb6d3dd8870d055, 0xfafd2b625bf1f4e, 0xd5beabdfc8def1c],
    [0x4ef13f326ea5fee8, 0xa20ab14cd0c5c45c, 0x22636a7d3b0fe12c, 0x2e8f4e6bb6f7a284],
    [0x541ca2648245762a, 0x79dce2ab43fceb24, 0x59194e96c92c2884, 0x1ae5ebcaae05bedb],
    [0x5730418efd682a5e, 0x57d5fbf4bf87bdb6, 0x6216dd42b7e5c424, 0x24cafb4c21af1cd1],
    [0xe7f895aff36e9481, 0x598a0017346fd732, 0x6aabdb86d6ab65d6, 0x2e139e0df9386451],
    [0xd70411e2f963159c, 0x77a9205cbd74ada, 0x5564970f1e39cded, 0x2ff83bb288471305],
    [0x43cb35dbc61a32c5, 0x23f4163fc929c6b1, 0xe0f264d182e9e340, 0x2552f8295742fd94],
    [0xbe52bb4fe3452299, 0x50a7a2ae9ccbc478, 0xe6a56a7582a568d6, 0xb05c0f1defa2ff4],
    [0x53ccd0ae136770f8, 0x9dcab39f137c9d59, 0x3ea7a22fb189fa35, 0x2c0588283e0bb71],
    [0xd9ab9992ee702bdb, 0x836b9682905e03f6, 0xd2dbd1d0b4b728a4, 0x18bfcedbba1f9279],
    [0x8dd3183965f51ec8, 0x668e91adff3ac316, 0xf33a7e8fb2ee578c, 0x4b314d086daebc4],
    [0x1458e181027ff005, 0x7060fee963e8373d, 0x9c315bfe319d01b1, 0x6cd84135ffdd74d],
    [0x90b930140bae4ec2, 0x623b9868e1a71375, 0xcb82a69a7def6a60, 0x29eea9039c59c939],
    [0x49ce6d7161b4ffe4, 0xc02ca1a10bbaa7bb, 0xdcc76c44074dba6a, 0x1972fc96c24121bd],
    [0x3a1d3f27ab9afbe7, 0x329b87539e0c1831, 0xf695f3d82859859b, 0x1bacfc2d72d57f6b],
    [0xb63e3214d0ded0f8, 0xacd9be07d2ea9883, 0xbfddfbb48d740256, 0x1069e2eda47e9fb6],
    [0x80176cd7770419c5, 0x56a881deeda90d07, 0x20d2edd3f6b5abd4, 0x1d87dc8c8e73c38d],
    [0x78f28f1787bce94b, 0x893e3c207e339e6c, 0xd915b39382a0ee45, 0x1d08c8a0952b5e4f],
    [0x8a6e1b6340d0893c, 0x42201a3223c7ad62, 0x92017a0691032f80, 0xfdbab60a929d4],
    [0x6949553b6f0ce244, 0xae6c2578b7e88611, 0x3d8ade5dd2965989, 0x13f25826edf3001e],
    [0xa488f43b6141c7c3, 0xae28cfc47c4b9e5b, 0x866c220784a4ba55, 0x44fa02e1da99bc4],
    [0x19536b19ab78b9d8, 0x2906a19003a77571, 0xf67583aaa485ac63, 0x7492d98f774f6c8],
    [0x33f1bb2030feff68, 0xff0bac5e242673ae, 0xf244d3d014d1a0e5, 0xe30a774c353a2cb],
    [0xfb46eb21b780ec01, 0xd10f22964833efe6, 0x8a40437352ed7182, 0x1fbb89d438ac1412],
    [0x44385576aec43234, 0xa5544d89ab8518f8, 0x4ee1ab07a49be82c, 0x6ae819a8e0c57d4],
    [0x9338154f316cbadb, 0xcb91a84287d6f06e, 0xb0838b9b3fa9656, 0x2b3d3a7605543d35],
    [0x36c994c594199774, 0xea5d3b062841752a, 0x54d716dcd972c108, 0x1620323cc24fb818],
    [0x92badf1c233c925c, 0x46f617a28f094f9f, 0x32353e5c853dd8b9, 0x53924bafabdf892],
    [0x3a231065c7887951, 0x83611ead5148a8f8, 0xe3375029b265ea76, 0x199241c82a57014],
    [0xaee056f7ec325a4f, 0x9d110bd3b8feca58, 0xae7433fae22a2e77, 0x1e8b6db0d447c099],
    [0xb03a03b455d2745a, 0x65f627cbf3b05af7, 0x42a913972fe10c35, 0xb3908d2ea7af26d],
    [0x87dfe19bd20e8348, 0xe5cd314d1a3ce428, 0x87e274c817e5f380, 0xc337f61785e5022],
    [0xbdbc3e6aab74b608, 0xe0fd5386bf137cd2, 0xf3ecb0ab4fdf5f02, 0x965a7d0f2799aa6],
    [0x933f33db74234eaa, 0x185e11ba38d288f4, 0xb7586c65d83acce6, 0x18d8dc79d76890b],
    [0x60410a7057d5d6a0, 0xc36b593ea0b8fd45, 0xbb35415db4519798, 0x2048602c11e8e771],
    [0x3bfed0657b0b5407, 0xf140d989a7214cd1, 0xf9d5f8d206fd1353, 0x2966833633f29aaa],
    [0x448d64ac2b394b08, 0x5ef8006c724440b9, 0xb53dc40cedaba63e, 0x1c6ba85ab5f85ed4],
    [0xd6d263cfd386ccbd, 0xc18c5944c5b868db, 0x78f5bfcc2b89b3db, 0x65adc608aa6dc08],
    [0xce9242df8da666e6, 0x73d74b14c18b63d, 0x9ce7ab14150ba089, 0x2f5c69bd32960af2],
    [0x8dcc0c7981979669, 0xc3f856665f35905c, 0x991d58198e147c5d, 0xd4e47c2eefa2d97],
    [0xa1415636bb6d9f6c, 0x16563d40826cfed9, 0x6d5da47117ee730c, 0x21dc79896380c993],
    [0xaec6d68917732245, 0x1656ee8509570cd4, 0xa2e7c68df33f1ee4, 0x11393d10b1b89df9],
    [0x6f076d9c90a6e98c, 0x9c7eb9d7a2a267b1, 0x1a4752aa3c3840b8, 0x2501a832c4be33ce],
    [0x92f664016060c84a, 0x32073c5f3865d8ac, 0x1f8f4e599e13699d, 0x29417a7ecc3faed5],
    [0x9b3c9a41a8a66f3f, 0xeebc6ca875658009, 0x5eb7f50ea73935fb, 0x1e6ee4be7b5f89fe],
    [0xf8ff82fa646e30df, 0xa93d0269ac60501a, 0xdd9fc78b33cbd8d7, 0x24b1094cffa81631],
    [0x61b5bea594a7e3f6, 0xb99dc3723bef6293, 0xc4ec1dcafb6852b6, 0x1bad44f174f12802],
    [0xb551be5e28e4e44, 0xe22804016335e419, 0x83b53ad5f30f9354, 0x2aed2c26dc890d52],
    [0x99dab7d7a8bf7f51, 0xd7b83bed1bacf168, 0x1156c2e19e2be924, 0x247d59448600ad98],
    [0x33f1bb2030feff68, 0xff0bac5e242673ae, 0xf244d3d014d1a0e5, 0xe30a774c353a2cb],
    [0xd6c9bc8e654172ae, 0xe58479e8b541c13b, 0x88aa56f191b813fe, 0x105097314bce2c25],
    [0x8429e1af57069bef, 0xe7e4f07ac0ecf534, 0x339ec880b3b6fbc0, 0x28d5354a0ceb5dbb],
    [0x6f65172fce3dd454, 0x80f56d898ac15571, 0x4f7334a7a2ce004b, 0xa31c76780b39b49],
    [0x2b38c13869b9370e, 0x3206135eb09f679b, 0x25ad1a92530a1fdb, 0x1225a8ce4e27af66],
    [0x594469a4a7a2925b, 0xc024d7b4bcbe12d2, 0x3a045fd0d02346e5, 0x98a16fe6c6a2a43],
    [0x6bcf71e07d9ba361, 0xcee21785c96aea11, 0xcca92aba3ec23f7d, 0x205ad0dfc7a7298b],
    [0xe46bb3aafd2300b9, 0x44182101b2f13d8f, 0x95ef81b8e1f3634f, 0x148f1eadc8be731f],
    [0xcd877151e287e1d4, 0x850a09a16587d069, 0x947df6d261fbba26, 0x4372474a7938acc],
    [0x613e0c1a4507c4a9, 0xff23e2d76b7d0a6d, 0x55da4e23b90e191c, 0x2ca6979a079cb2f4],
    [0x4045d76148451dc4, 0xa88b50fbd4643d54, 0x70a4669629aad754, 0x2ca59df55ad49230],
    [0x8ba7d90a27130580, 0x4593d59062345f91, 0x2bbf572d0efc1275, 0x2a7055f1e24448b5],
    [0xb2137df5811be1c4, 0x395ecf678289de53, 0x62ff496a17e7113a, 0xa644e2fe975a3d0],
    [0xd53e11cae6028ae3, 0x250fc32477823c44, 0xf0521ff84c05423a, 0x259bb7d88bf3f1c2],
    [0x795741a46ec359c9, 0xbea30a7a0b7ffb20, 0x1c200a661838fd96, 0x27d551eb8809df2e],
    [0xb5bfdb55cbd36ac3, 0xba049cba55b53ad5, 0xa16dcb9cf0584b47, 0x17e37e4432360ed9],
    [0x754f0f970d20c6f9, 0x80035a19ac1c2ff, 0xf6b1af2e2817e803, 0x263693f36da574e9],
    [0xc21d57db7c3cb052, 0x5c834cab22572be, 0xede135fdb2a63f3c, 0x1a893c4de3717842],
    [0xa7fbdc2310e26f51, 0x6336226ba3a02a51, 0x16bc98e2fca53120, 0x9bca88fc417d85c],
    [0x95802b83fbbd9cd0, 0x8ff20765d34c2b8b, 0xfa98fb3a991c2269, 0xfe6944c3317d58f],
    [0x4a1e3f5a361474f7, 0xe00c743b7d9d3e94, 0x17ed52348cd82eb3, 0x1ba3d144274a073e],
    [0x74613d2d12af4070, 0x69b37ba7fcd32940, 0xcdfbaa8455251772, 0x2cc42995586265e9],
    [0x5dbdb78cf07a2d62, 0x8ee14a9e12ff612, 0x720d598ed2e35, 0xa83811bff1e7f22],
    [0xe1e6f911ea197350, 0x1136ffb519de0eac, 0xc34867d674dc7d1d, 0x4242918a5fc9ca3],
    [0xef8844f94e9db890, 0xd8fcfb5e3b818cdd, 0x81bab92363fa0d12, 0xedba1a161aae7],
    [0xb6e0d6b51cc7931a, 0x4faceb69b6f12aac, 0x196d787b929144bf, 0x230942de72fe0db9],
    [0x772a8c578b6ef48f, 0xad1cf972e99841f4, 0xea2ebf3851832058, 0x1a9561c0d020fb28],
    [0x33f1bb2030feff68, 0xff0bac5e242673ae, 0xf244d3d014d1a0e5, 0xe30a774c353a2cb],
    [0xdc1f4d268e64ef49, 0x5c4138b96e9c3ac1, 0x47c908976b1ed1e5, 0x22c0fc9c00f53d42],
    [0x5038a1d07253a184, 0xb7be3b93c607310c, 0x2f484a1a8438f52c, 0x22729d77b7b881af],
    [0xbb014c097734b464, 0xe1b984c6a193d4bd, 0xb505756a5336b2c5, 0x14883acec95e824a],
    [0x1c62d59d65adc01c, 0x915b3ce4460b2533, 0xffb9f37b5001c6f5, 0x120d96dc5b428589],
    [0x904027087e89b2e, 0x569aaa3f9350e45d, 0xfeebd6340dde992f, 0x130325a89c8e74b5],
    [0x3e1e316646d05f5, 0xec76df8dbef775cf, 0x9f613ab182ad57eb, 0x16e6e793c81a1071],
    [0x77c2e366d0543cf7, 0xf2518cbd12e5e78a, 0x981e35a7178809d1, 0x18bb788f4ff54dc0],
    [0xf882644046626461, 0xe9e61c1889ef46f2, 0xa52d6f12490b24ce, 0xcedee51d5b87d9b],
    [0x2df6c325130bfdc6, 0x4d1299adfd1f8d85, 0x5348f8af855e1f38, 0x1bfe0f0059a45117],
];

/// Part 7 of the sparse partial-round rows for width 14, as little-endian limbs.
pub const S_DATA_7: [[u64; 4]; 98] = [
    [0x9ca921a30ae1dc9b, 0xaf76a7d7dad88d5a, 0xa46094f403954399, 0x1ca82eb1aa4d6081],
    [0x518b954d0de04321, 0x255027b2bf1f7a9a, 0x2a26e40594253acd, 0x11e1d384eb2a6447],
    [0xfe3e788ff0c74341, 0xa442cdd64bc1865e, 0x76bb65ff8334f64b, 0xdc70139469e9182],
    [0xdb25f9b186c05bca, 0x3620d9f0e599c0b2, 0x8812e99665c89c87, 0x1896f5f3c754db9d],
    [0xdd5f388df5b9e6e9, 0x4683db775eb3e97b, 0xb3a916692003abc0, 0x2b1eb292fbf05207],
    [0xe1ed4e61f2ef6b9e, 0x53300922ea795b29, 0xadfc98982d3d27df, 0xe822a8b6bdab9cf],
    [0x7f69601c64783ee7, 0x56a671dce167e1a3, 0x76a4a7c5e7d4872, 0x14447323538128d],
    [0x82bf68f3caaca5a5, 0x79b9d71d03ab34c2, 0xd1c2d81f6ca118d4, 0x1731ac8243601c9a],
    [0x1bccd70a0fd13c2a, 0x194f515d6bf1b7a6, 0x7fbc1789fc2381fc, 0x1efef24cd417daeb],
    [0x70f1d4c8f7b692cc, 0x580da4e383217b48, 0x222bfee2f19dbe02, 0x26c6de8f5b580b7d],
    [0x485b346e4ebb1ab4, 0xfaab28c36479978b, 0x275f720c340a733f, 0xd3823efb4c4808c],
    [0x3ff6695a7f304593, 0x11a6f46d02422c13, 0xdf765b899d2f0688, 0x24a2b1d438ee871c],
    [0x1ff58e98c9fe686d, 0x43855a08c27b86af, 0xd477ce054610f63a, 0x9fe29e36bc74cf6],
    [0xf95ef13318346c10, 0xd60e371b9842355d, 0x8a6424819b24aa2f, 0x123e4ce6ab585e74],
    [0x9e7ee4f39ec814f0, 0x268d90296d8b5d3e, 0xfa3a0c30548ff79d, 0x257d0d633e7b8e40],
    [0x15024446e36b4b5b, 0x2a7ea45dcb9982c3, 0xe70e1b1804cdfd95, 0x21f4b792c1fcaf55],
    [0x2feb858bace4f5c8, 0x56f465e2ffb2fa71, 0x5cb4c1d4f1080de3, 0x18cec0d331cbb93e],
    [0x33f1bb2030feff68, 0xff0bac5e242673ae, 0xf244d3d014d1a0e5, 0xe30a774c353a2cb],
    [0xde3c2e26473a0b5b, 0xb519ebf519ad1342, 0xce7730536dd4cff8, 0x1e5f08ebfc9f997e],
    [0x8d3b7b402e4efbb, 0xb6078037ce22ec06, 0xfa4b941b63d7b02a, 0x2d77d34a218a752d],
    [0xd9a0a46b7b842695, 0x12c1a563cf106736, 0x79e5ecf8210460c1, 0x19004b8f6ea39ba2],
    [0x2ffdf5f81220f256, 0xe297a7e7187c3621, 0x3d50905adda5065e, 0x11fb4988936908db],
    [0x389917cf6717c04a, 0xfa46420c44d0ea88, 0x687bedf259ccdcb6, 0x1081ebe3ee722e4f],
    [0x5d9827471bbba810, 0xe2858ec2980311e5, 0x1097565775894b15, 0x185aa8d933cc9679],
    [0x473bf97dd425aedb, 0x6de449a9091b45f3, 0xa65245b93f2c9b93, 0x1ab306868bac9a5b],
    [0x87c24966f6523973, 0x7df8441db84c8755, 0xcf38527156e48289, 0x2f1fc8f6cd473593],
    [0xe3fb3be24e1fbada, 0x503ce65969cc9f86, 0x5e2fe0ebf158ca85, 0x17770ba5bd03c927],
    [0x9d28b8af514bd692, 0x2c204a13415f140d, 0xdab4b7a7cdd85ad7, 0x1d0d275c4971978e],
    [0xa4bc91038be3f7fc, 0xa033c63eeb293015, 0x8d50c9863fb5ec9f, 0x1ca07f602b20372b],
    [0xf32ddfa082dbbec6, 0x739c8ac290480fd0, 0x98af76effd524fd0, 0x4782f31c8fcdd48],
    [0x8be969ebf46ede6, 0x79602aaea46e45b6, 0x6e2e509faea0fadf, 0x68de12e587aa2c2],
    [0xc7f4f669bf746e96, 0x388c7c3baffe6cab, 0x6cc16581fe223a95, 0xf47f3f88ec297c3],
    [0x2c510727f6148029, 0xd7628db94135a65c, 0xae9f593ae1d72e99, 0x17bc99581c7bd39b],
    [0x5c30a77ec57ee2b1, 0xfa6580963e0c2dc9, 0x7d9f1639020da87a, 0x1d85dc0db735b487],
    [0x179992652eaaf1d8, 0x419cab8ed819e40d, 0x75c9a7757b96e68, 0x27c21a6c642486aa],
    [0x60ef99c6b8aaad28, 0xba9c352569640717, 0x6487b07e421e718, 0x1c15013e07196503],
    [0xdb6a509ce44ebbfa, 0x30b09f4e651d6b08, 0x1147608d79a93bf7, 0x26bb2e4e2bf9a53e],
    [0x4a2dfde37331faa2, 0xcc01b2f74cc4de88, 0xa3e0fc90f35e4e74, 0x2cc7e0fa1e964c48],
    [0xe4397f46ab8b97df, 0x9970d9add413b9a8, 0xd75070b799750739, 0xb9c87dd914a25c9],
    [0x958caac8f46a4ae3, 0x4e6bb52725d8e4d6, 0x3f00c860875f2c7d, 0x7f9ce6c590326b7],
    [0xbdffa232626d3900, 0xa077b4bf44df78ba, 0x3fbd60fd2a2a5e3c, 0xc289d670c7e2e74],
    [0x86d4fa80b8e7b22d, 0xe2bbaea50552a992, 0xb01fb27da9eaa39d, 0x190ce149a93a528c],
    [0xc01f88f9cd091b12, 0xe0c5dbcac130b204, 0x9d765ab6fc2e335a, 0x20633ae2a05b6d6],
    [0x1e7ad6adb557778d, 0x6dd1ac737290f667, 0x7533f3bf5a905c36, 0x2543a932d6cd8dbd],
    [0x33f1bb2030feff68, 0xff0bac5e242673ae, 0xf244d3d014d1a0e5, 0xe30a774c353a2cb],
    [0x9e9078f1ec43abac, 0xc17067dd9a7e67d0, 0x5392f976a839df01, 0x22187dc1425cbf50],
    [0x11edce28d6b1320e, 0x3a0741af871e3b19, 0x9a42351a2bef67f3, 0x274579b98b4831b8],
    [0xbe8e26e80071d256, 0x692f2a0b7f34052c, 0x1d1b2696af293157, 0x2c52925562b2b08d],
    [0xba60a3554b9284a8, 0xf1aa834729f769fe, 0xfef48e7b65f9c890, 0x2e2f8231db4f3786],
    [0x4d6011cb0d28d488, 0x9737099751626a1c, 0x1e4e13a4bdf92fde, 0x521922aba91806b],
    [0x1d127a17aa72c787, 0xb6711504030c84d8, 0x9bfd46344e5557b, 0x2ee11408d02e4603],
    [0xd3323bd32588b398, 0xb4b05013f3e0e3ca, 0x153600235260b821, 0x175981ace0eca15],
    [0x8fd67bae6407b863, 0xe78164e571633570, 0x702816f776d54ee, 0x1d17093c73956688],
    [0x3ed6705a9df22548, 0xbec23e6e2c2ee41f, 0xca96a757a279b823, 0x7a6e2b3a2495845],
    [0xfd152239bc8a6818, 0x7d845cb09a3eb27b, 0xa66e057a8eef5bf, 0x1dee69a0aaac7636],
    [0xfc20553468eee2e0, 0xf38da9530007085a, 0x11eb27f95f7da0bd, 0x15df16ae54e8e3e2],
    [0x987144b9151618d0, 0xfbf8295c2a0b685f, 0x900115c6f5f5cc4c, 0x2d85cd78c80244f0],
    [0xaa9fe45c9561541f, 0xb10684db641c6e3e, 0xb83762d3fb2a824d, 0x1e894f052db0012c],
    [0xc063a46b69e81406, 0xb2cafce0fba9fbf, 0x4a02e9a0f224c77c, 0x19bde06d6e7eb6c8],
    [0xc15d30d36a60edbf, 0x3a041ae93c0d461a, 0x302ae652103f0d8d, 0x2897de5d9c274ad4],
    [0x36325c3af0f4f830, 0x5449eda51b5cc1ac, 0x6bbaa646fe280d4b, 0xfb0ac77f9a6cfe9],
    [0x401c2474c932a48a, 0xa95c648d4828ec34, 0xb1b6927b53543c31, 0x2c3f06f6f736cbfc],
    [0x541effffc19f5f4, 0x2145cf6b06fa2f1e, 0xf7cb62a80d4995fa, 0x23e564383465f1d1],
    [0x377d1524ec20807, 0x93ee09947cabee3b, 0x56ff95270022370c, 0x18c139146446dbc9],
    [0x32708ac1f332f0b9, 0xf345e7641c8b7e49, 0x2e80390f181fdc6d, 0x2bb3b1a177167809],
    [0x430bb67e05360f7d, 0x75bfc080532e9e66, 0xb80f219c33a92666, 0x8df0d04a0d8d1b2],
    [0xcb45e755eafe48c8, 0x48cfaeb333c93ad7, 0x86c875db6b9f6a67, 0xd39efb103e032f9],
    [0x8dc94b9b2c0214e0, 0x8c16c4dd77f21442, 0x59cc7877eeaf63cb, 0x5f47c6fdbbd7b4e],
    [0x496d2aae0c9ff288, 0x45f2f47981721b80, 0x7dc350916b624407, 0xee1051b33292d8a],
    [0x3156c583e06edf08, 0x23aed830f60432ce, 0x63a98b2108244538, 0x2bbf58da0872304],
    [0xa88be0b67ffa14a2, 0x200352fb152c784d, 0x9ca22d400ffc19a4, 0x1674e5bc670e9802],
    [0x33f1bb2030feff68, 0xff0bac5e242673ae, 0xf244d3d014d1a0e5, 0xe30a774c353a2cb],
    [0x454bba30cf6363a8, 0x83029584daf0c57c, 0xa6b051ee33ab2034, 0x8a1e55de3e637ff],
    [0xd3c447a5d3926088, 0x514929a3dc0cfe2e, 0xa78254adc0c66a45, 0xe5b4497c397b27c],
    [0x7b96cf79ba875616, 0x855483814fb2547e, 0x29e684d19569993c, 0xbccfad82d3fbec3],
    [0x1632705b189ae1d6, 0x33e91b0105044849, 0xaeda2295a9db560a, 0x1908c79adfdad4c4],
    [0x5aea4add65037abe, 0xc3213eeba0130e83, 0xdb50f5dd49ca835, 0x1299565dbf2547b3],
    [0xc68b6a98100a2f9c, 0xec6d996c4a40a066, 0x6e84d5852f34da89, 0x2b4906e765f1e80f],
    [0x5738f95cb5dc0a28, 0x244599016f0fbe38, 0xee5d3783bc715de3, 0x124a247b0b866c09],
    [0xc0940afd0c05b24b, 0x1c55380c60aaac2e, 0x7b2765d8d48118b, 0x77d1bac0f5b2266],
    [0xddc230a7b3579c1d, 0x4aecee7db956ec59, 0xdcffbebc5c08ed6b, 0x2ac41a842793f693],
    [0xb4e3665fbc3b529b, 0x282c911c8e7a79ca, 0x2e20bb705fc3da5a, 0x137d327d41a9c6e4],
    [0xeb4ef12f38b28e58, 0x93e781451d8e159f, 0xf9c27a8343c7257a, 0x2dbd1fe87204abe2],
    [0x2f3fa963a6d2cdf6, 0xf51cd7d7f271d6e3, 0x41ddd4792e4ea7b8, 0x20d9cb838e454e98],
    [0x7e1480067fe92174, 0x9451221504f85b3, 0x5f63a5c992e31d5d, 0xb34270663039e31],
    [0xf0ab3072b57b09b8, 0x870687d3628d60de, 0x5f7c98aaca9ce28a, 0x12826e5b9be1c9b8],
    [0x10809ef14af42c77, 0x102a4ed29c32b4bb, 0x904d555c2e15d016, 0x22fea1297a4a5f08],
    [0xaa436cb5fa2e80e1, 0xbb48ce294d9208e1, 0x31598b5bc7f9db3c, 0x24cc6751894087b8],
    [0x6c6ec3ce0a1474b9, 0xe646bed572a64526, 0x52b081ba5dc5b117, 0x2cc3d0503a0e1da9],
    [0xd7963a8333a61315, 0x83f88d3aa477e5d6, 0x446503494b469a2b, 0x11eedbe5a5969f33],
    [0x715b710bfac4c1e6, 0xd1325c78740aaad6, 0x19d599cedcef428b, 0x189ae9e9b162ab1a],
    [0x9f52fd8cb084370a, 0xc0145528f356ac04, 0x1adcf9e89114c336, 0x1aad11449d6e2c6e],
    [0x88325a6bb669a63, 0x6e2eb261d4f08e29, 0x402d34c259e5966f, 0xd7e1eae2cfec406],
    [0xa9a8a20364ea1be0, 0x77ce29aba1d25e62, 0x95104a0d3e6c75e9, 0x796a23ad6ed2ac9],
    [0x80c6e47f5711345c, 0xe53b2dc9a3697b83, 0xd3d6286cb126b34e, 0x299b8e8621d7d8c8],
    [0x872a1df1427c1839, 0xbf1b49cdfbb6d232, 0xed1cac61d9cfdf10, 0x20f11ee81d2ac9a9],
    [0xb4fe3dd7dccdd777, 0x881341bb5e4fbbb3, 0xf947f6eda6d41170, 0xa403e979943b8d2],
    [0x22cb9c09719e3dd1, 0x54aa0833fda36b18, 0x42972ae819777794, 0x4646253380f4bf6],
];

/// The values of the sparse partial-round rows for width 14.
#[verifier::opaque]
pub open spec fn s_vals() -> Seq<nat> {
    limb_vals(S_DATA_0@) + limb_vals(S_DATA_1@) + limb_vals(S_DATA_2@) + limb_vals(S_DATA_3@) + limb_vals(S_DATA_4@) + limb_vals(S_DATA_5@) + limb_vals(S_DATA_6@) + limb_vals(S_DATA_7@)
}

/// The sparse partial-round rows for width 14.
pub(crate) fn s_table() -> (v: Vec<Uint256>)
    ensures
        v@.len() == 1890,
        vals(v@) == s_vals(),
{
    let mut v = from_limbs(&S_DATA_0);
    let mut part1 = from_limbs(&S_DATA_1);
    let ghost pre1 = v@;
    let ghost add1 = part1@;
    v.append(&mut part1);
    proof {
        lemma_vals_concat(pre1, add1);
    }
    let mut part2 = from_limbs(&S_DATA_2);
    let ghost pre2 = v@;
    let ghost add2 = part2@;
    v.append(&mut part2);
    proof {
        lemma_vals_concat(pre2, add2);
    }
    let mut part3 = from_limbs(&S_DATA_3);
    let ghost pre3 = v@;
    let ghost add3 = part3@;
    v.append(&mut part3);
    proof {
        lemma_vals_concat(pre3, add3);
    }
    let mut part4 = from_limbs(&S_DATA_4);
    let ghost pre4 = v@;
    let ghost add4 = part4@;
    v.append(&mut part4);
    proof {
        lemma_vals_concat(pre4, add4);
    }
    let mut part5 = from_limbs(&S_DATA_5);
    let ghost pre5 = v@;
    let ghost add5 = part5@;
    v.append(&mut part5);
    proof {
        lemma_vals_concat(pre5, add5);
    }
    let mut part6 = from_limbs(&S_DATA_6);
    let ghost pre6 = v@;
    let ghost add6 = part6@;
    v.append(&mut part6);
    proof {
        lemma_vals_concat(pre6, add6);
    }
    let mut part7 = from_limbs(&S_DATA_7);
    let ghost pre7 = v@;
    let ghost add7 = part7@;
    v.append(&mut part7);
    proof {
        lemma_vals_concat(pre7, add7);
    }
    proof {
        reveal(s_vals);
        assert(vals(v@) == s_vals());
    }
    v
}

/// Part 0 of the dense MDS matrix for width 14, as little-endian limbs.
pub const M_DATA_0: [[u64; 4]; 196] = [
    [0x33f1bb2030feff68, 0xff0bac5e242673ae, 0xf244d3d014d1a0e5, 0xe30a774c353a2cb],
    [0x9580571061fa8ce8, 0x7e94ff07e51627e0, 0xb6bf29179ade2d4e, 0x12186bb22000ad84],
    [0xcd29ce2546a9f6b2, 0x216e24a9e56caf5a, 0x24c6ac3ceafea248, 0x2399faa648aedf90],
    [0x4af4fec87eb3e48e, 0xe3cede77e6be08b9, 0x44f233125ecd1509, 0x3add29fe398ed2d],
    [0xbb8995dd8f183635, 0x94770ab062dc0c28, 0x890abeb9251e5cea, 0x121af61f4dc5bb24],
    [0xfceaca9616b6143d, 0x167080d53949b3f1, 0x5297b00cd0b511da, 0x2ca8ffee2d58f294],
    [0x761671069d82a134, 0x4d21ea7eec1f72e8, 0x9782b914a294b6c1, 0x2c99ef5e064147da],
    [0x1a5e8a53e0cc6709, 0x8693e5e93684ce2d, 0x832a6571c2170675, 0xd7d07cd3798f44d],
    [0x4609ac7b7b171313, 0xd0d97259fc73a519, 0xffb0af525c838686, 0x29195117106623ff],
    [0x644ca0219a01e40a, 0x7cc9d1491bce0095, 0x5b58f248a88dbf70, 0x1b62d4b17de6737],
    [0x7e4d2aca32adda1d, 0x242bfc7e2bdeb630, 0x433f81dd3a326fd0, 0x2e1681bc7c22d24c],
    [0xdbd2eb6be9e9db30, 0xca86952bad1c9047, 0x7c3697b6f5e57f78, 0x65850d11d0eca8],
    [0x743abbb13abf43b8, 0x2810f0e67112672c, 0x577e504d600c493f, 0x1a59b36b94f9d723],
    [0x46cb522512d3d0af, 0xcef7a52af64d0bf7, 0x61c8ccb7815d9781, 0x1a4b186b77cd53f9],
    [0xf0ab3072b57b09b8, 0x870687d3628d60de, 0x5f7c98aaca9ce28a, 0x12826e5b9be1c9b8],
    [0xd421fa3ea46b5348, 0x1f19766be6101885, 0xf8699dbece054fea, 0x237e39980f9007bb],
    [0xa14d26aed93b8672, 0xe2e51895160ffd5c, 0x13080f02f6b1e653, 0x540f5492497595e],
    [0x2114efacac70afb5, 0x5465d05f2462996b, 0x7ddac5f8e36f65, 0x12bbfbb110ec2971],
    [0xa8a7da2a97cb41f3, 0x6bdb43f933de0fae, 0x51b264a70d2ba0b4, 0x2f2ec51c48f8b73c],
    [0x5e7556ba58b95ffa, 0xde91c4dce65abc01, 0xde4007d11818465b, 0x26e36544d0b5952d],
    [0xc723f8104a68c664, 0xe2393821954708e7, 0xe7f03103d59e3f9c, 0x226bf94b86b177cf],
    [0xf13d36547b6b9dc5, 0x73552115b3a065ce, 0x45e2c2efc2043bc0, 0x25e311b37cee6935],
    [0x10524a56f71aa405, 0x73491f0e72c1396, 0x41ca23828c34c24f, 0xf2336e0eee46857],
    [0xb9fd343cbb4b0e19, 0xe50ba7dd558f951b, 0xb6990a5526c82b0a, 0xd9bb7dab4a189a3],
    [0xb2d075053efe998c, 0x58113207aded8cba, 0xf4b0dbe89b6d8e0e, 0x2a4a6cc884cfd08a],
    [0x24ef9665f7a91af5, 0x19101d1db60dd1a9, 0x640ed6b421343354, 0x1eb97819b3531ebb],
    [0x9b2860d5087406bb, 0x4a67af0e11095731, 0xfcee112445bff20e, 0x226b91e352c65de4],
    [0x7531973714559de7, 0x42c35adfcd9e5b6a, 0x4c12af531cf14580, 0xac5b86128ee4794],
    [0x10809ef14af42c77, 0x102a4ed29c32b4bb, 0x904d555c2e15d016, 0x22fea1297a4a5f08],
    [0xc5798f193aeed7a1, 0x62206f6be33d577d, 0x4d8a164fe2d150df, 0x1808cbe7ddf2a368],
    [0xd16eee0d7a7b481b, 0x2ac26cd7441f1b69, 0x854e9271f4bef26d, 0x1c1ccb44ff8ab6da],
    [0x355cf801f194733f, 0x62d336d10330beb3, 0xbaba435e304ae206, 0x1b8d209d66b2c1ac],
    [0xbddddb91fbdbceab, 0x8b7b31344ed9153d, 0x7de13911db71ccd5, 0x11738ced3933c4b2],
    [0xa72e9f7c6e516ab7, 0x1b06787819830985, 0xc993e9cfdc9aaec9, 0x1e97ce013afaa6e9],
    [0xf9ae8bc4813c3168, 0xd6825da37a679e8a, 0xd26a33adbd6bb392, 0x66ab8beadae7beb],
    [0x14623a0a851a3cd8, 0x7f3ea96fe1d4c23f, 0xb673a31d71aed1bc, 0x21b37be521835c32],
    [0xd00c692880f39a75, 0xba1d491076241d99, 0x12b7510def651249, 0x1e86ec086805bc77],
    [0x5c4673e56e3acd28, 0xae6fa09186fe227e, 0x1c9e0f42275c9884, 0x75d1aa6cd2b8d18],
    [0x942f92be23d586be, 0x65af82b200c0e7fd, 0xdb02773e766f504c, 0x142a83206747200f],
    [0xaf1e755968d7ff6, 0xe417a1cf9be22152, 0xb50773a469bbbde2, 0xee4683c8da536b6],
    [0x2ce8d36bc6d1d835, 0x128bab01c13d7dd7, 0x49367ef919a00d4f, 0x168e771e9f8f860c],
    [0x7539e61826ca1971, 0xf6ab7fac4bbd54ad, 0xc1ef3dba6be1ff84, 0xc2a439067121449],
    [0xaa436cb5fa2e80e1, 0xbb48ce294d9208e1, 0x31598b5bc7f9db3c, 0x24cc6751894087b8],
    [0x885d24a117c63f98, 0x90be5cc2c57122f9, 0xb77aa5560a0f949c, 0x33cccef05b0bcf7],
    [0x26fa4b71f7cb7ee9, 0x43c81f4be7da44eb, 0x5ce589de60aec0db, 0xe8efc85cfebde29],
    [0xe80f1e000c8b1f70, 0xe897df79f82ec438, 0xffd3ca4fc674625b, 0xa9d7ee7ee91677a],
    [0x795b92f1e46124d4, 0xfc96a26e37cfc734, 0x62b5f95e6ca67c3f, 0x9175b1fafacdc0e],
    [0x16b4e1691f6b4724, 0x4be476b1458ad54c, 0x2d5c1091a8303eee, 0x3016b074c814225e],
    [0xa712d351d5e63c10, 0xd2c2e99691c2535d, 0x687cdd49a3a296a8, 0xc099861545e013a],
    [0xa2643c4100fe388f, 0xa144b3287df9c591, 0xbfd28a3788bf54a8, 0xb71a06bb75b0a10],
    [0xcc329bed5b507a69, 0xcfd32f8572d7aad9, 0x44c765b6362f8b98, 0x14937879c4c71276],
    [0x8dbef9fa9c57c2ba, 0xe0851427db20c735, 0x1bc007cb02ac3acd, 0x28f9e0058ebcf159],
    [0x2eb13f8ffdf7b8bf, 0xbf36a4f01e9b3b6, 0xe8ec1c9a51c1bec3, 0xdf653524fff92dd],
    [0x29bc916578fb0bfd, 0xbac562c44e292f14, 0xdbc15639eace45c0, 0x2dfcfb280a3d372],
    [0x12350190ab1961c5, 0xd9efc904f2612025, 0x67396c583d12e4f3, 0xb345890b33c23d1],
    [0x62b3ae6343c93cb0, 0x583076739dd9dfc4, 0x811344f73f54f4a3, 0x4f7f1fafee121bb],
    [0x6c6ec3ce0a1474b9, 0xe646bed572a64526, 0x52b081ba5dc5b117, 0x2cc3d0503a0e1da9],
    [0x920b5458105e76bd, 0xe0d12e16e9108766, 0xdd3872e3f371372d, 0x2854c82b4b5f5df6],
    [0x207b08c95ecd001d, 0x6a924857ab29b703, 0xe2a596e9009367fc, 0xb1d810fcc721551],
    [0xbf1be5936da4e046, 0xf3443d6cd03b71cf, 0x7503c3518e64cf19, 0xb6eb2254edfae1d],
    [0xfeeb12a91229a5af, 0xff0520742c943e1e, 0xf7ce05752bbda4d4, 0x210a4a80e6eaa799],
    [0x32963966922a8399, 0x71f54b9bef943aee, 0x121be7d0ddfb24dc, 0x1c1b2cf11f0d3a3a],
    [0x2fd3cc668e399f76, 0x1d1c42b3214fe9a7, 0x7fb4894d2c45d190, 0x1574c9e5caaa8a6a],
    [0x9d80cbfa6bcc73b0, 0x47ec045cd26f9304, 0x42bd3d0d3ba6848e, 0x26ed5fff06ef9e19],
    [0x447ea0e9c4a66da2, 0x4cfcba7434aae220, 0x5114bc3f8309f9b6, 0x59de873c59806f5],
    [0x90bd72a039765e73, 0x62ee4d31b6da2e9c, 0x35c0075d720c6495, 0x17e39ccba3432a1],
    [0xaa86766b2e59e049, 0xcf5c271f37f6abf1, 0x5318163e1bfb1e1b, 0x2ae7f1414f144373],
    [0x6c666f12d92ab142, 0xd658099230b0b176, 0x6a4e36be85713576, 0x12ea921acf5b8adc],
    [0x714fba2795615df9, 0x540fbe80a4605857, 0x3fa538a004146d7f, 0x1815d4c2e6a18f4f],
    [0xe8cc834b3e17a31d, 0xb2963fb9aa01e8ba, 0x4b374433af0a962, 0x18f6c40e3ccf8858],
    [0xd7963a8333a61315, 0x83f88d3aa477e5d6, 0x446503494b469a2b, 0x11eedbe5a5969f33],
    [0xb8a31e0956da8802, 0xd35dd5f16244863a, 0x2d280b057fbc3640, 0x9b63c75dfcab57],
    [0xefe5ef3d5015e3ad, 0xac4241f1f7deca1e, 0x4de01bf7c0c8ba26, 0x9fcacc399806512],
    [0x3f31a36638f8b52, 0xf59d8f7f724cd10a, 0xff7e3cc431f7db45, 0x1a9ab3fc2059b0c],
    [0x30e4f99ebcc1d94f, 0x5674b9bdee02a7dc, 0xf36ad3d70d9c87b5, 0x19bafd0d7942b839],
    [0xc7c4d9325edef40e, 0xac422c7a63aaf8dd, 0xc6a85a7b7a5a434, 0xc474824afd2a88],
    [0x214bb0f7a2915b49, 0x645f62b1c913765a, 0x7908d5c419e7850f, 0x3a65a91d35b6e87],
    [0x5ec7cded9175517, 0x54b7c25d6c85fc6c, 0x3f86834abfe98d1b, 0x137908baac2e35e1],
    [0xc2167bbecf7c31e7, 0x5b1124f51822888d, 0x9cdd6b93e890ef2b, 0x1662f26cf04f5b96],
    [0x929eb0ca4eea03c9, 0xcb83321723155304, 0x6460e32fa2bcb289, 0xcd0a4c27de11aeb],
    [0xdfe2ff372c1aa4eb, 0xabb0769ac0125c35, 0x31674efb420336f, 0x2030b7bc2a70905d],
    [0xf312b2628e922986, 0xfb67276657d420e6, 0x824df4df6a088195, 0xb5342503af446ef],
    [0x5bd8520db4313489, 0xc28c1f8dc8c69322, 0x698faa1fc3279bb8, 0x282a555f9ad4fb57],
    [0x7835b65b01ba13d6, 0xf73691db37ec3b93, 0x98c8d60826776c2, 0x174c1a1095e95d4f],
    [0x715b710bfac4c1e6, 0xd1325c78740aaad6, 0x19d599cedcef428b, 0x189ae9e9b162ab1a],
    [0x94bb847bf72b5b52, 0xb32e6b318f506b6c, 0xce29e6f00067fa40, 0x28fd36f1c761ea7b],
    [0x8b2c8cd1a976c611, 0xf5a3d242118e1977, 0xc01214250320b52f, 0x5d2f0a3c223122a],
    [0x3a30290eda372ac4, 0x50dfb8d0f56476d, 0x4880ba5a6ffd6eb5, 0x23fba23ab4bc24d],
    [0xce729a824a3521b1, 0x73a27b5993d81fce, 0xa8439e0ff7d3438a, 0x26b8eab0dd0d95b7],
    [0x77b0a6b10b9e6e24, 0x83eeb7ec9eade146, 0x859f6b7f127c91eb, 0x19775ec781fd4089],
    [0x99fb3eff7d3b03f, 0xbd64502d8bf7d5a, 0xe5bf83bac00f3770, 0xc073eaddb5d3f79],
    [0xb9db8cd6aee223aa, 0x48416ef5158c18e7, 0x4ca0d87832a0845b, 0x143991e8386d6233],
    [0xe6c88893a25f2615, 0xa06d964056afd532, 0xeb1f3b5c823a5882, 0x5fb897d71edd8d8],
    [0x8d2b295ee4d7a9dd, 0x4c4143d10fd3fdeb, 0xf0dde1e1b97e0bbf, 0x2745a059d0962f1b],
    [0x7305bf5b7b52172d, 0x4209f1b41331a1d1, 0xf890102226853bb6, 0x12a710de6d17f91a],
    [0xff61f455d2ab2fe, 0x4f300e8d90f967b2, 0xb3f827f07283a1ed, 0x9265fb314a676b6],
    [0xe876a46cb5653f59, 0xa015053acb838d0, 0x714602710fe9e64c, 0x148ab15972a6925b],
    [0x9b5a671c2428a515, 0x93b234af90e62ca0, 0x2b2471d579ef99d1, 0x1f7f9704cab1cfea],
    [0x9f52fd8cb084370a, 0xc0145528f356ac04, 0x1adcf9e89114c336, 0x1aad11449d6e2c6e],
    [0x123b10bc85543432, 0xf752b16817257e6d, 0x143da03c25749367, 0x2b56c2e44f703a3b],
    [0x6cbfcf6035a2c27c, 0xd51791d9afd3dcf9, 0xa151d62302099dff, 0xc7513f762b64022],
    [0x664866a9096f14d5, 0x9ba73ecab858c071, 0x5ad78fedb63fcb0d, 0xb26700fd4e950c2],
    [0x2ab1a1c0ddec576, 0xd79eee9dc28b567f, 0x85de6104c02b46c3, 0x173985fe17f3b0fb],
    [0x2f97db687c8479fd, 0x815fd5b6f162bde0, 0x795e3b06837e9596, 0x20a9a6284cfc4381],
    [0x47319e85d530470a, 0xf99c1cb98eb85df7, 0x36432a545e533124, 0x217aa400b2b625bc],
    [0xc1a29e393185fba3, 0xfebabe1f5ce77689, 0x9c8d2fa72a9cf5b6, 0x148dc9335f621fff],
    [0x3224214d17ade351, 0x72b02ee4d171c0e5, 0xb3c7e049771e6d40, 0xecfacaad0c147e0],
    [0x33f447c4cf035a80, 0x2bb8038bd27af533, 0x2dbce17077a89a9, 0x1365a904c7f67210],
    [0xde7af4d2519f2f12, 0x234ce8bf2b0d4a52, 0xdfb3fa356ff83eef, 0x1fba713b98742311],
    [0x14dd10d567858d8e, 0xe78511edabcfe623, 0xed8b83bd5d7fd900, 0xab913f65e1ceb39],
    [0x4641745158c243f8, 0x43600d00e676402c, 0x3024d2116ab176c8, 0x8e13c2e61c446b5],
    [0xc686618c3c33edf9, 0xb24f38a557a77a82, 0xedf643ea36d262d1, 0x1fa02616024cd9b],
    [0x88325a6bb669a63, 0x6e2eb261d4f08e29, 0x402d34c259e5966f, 0xd7e1eae2cfec406],
    [0xaf908429beb2bc2f, 0xd35a819041d7eaf3, 0x438567df435f39e1, 0x184e5824689e4f81],
    [0xa891c11f39ebff81, 0x51e17e9bac192f8c, 0xdeaa32e40a8fc307, 0x18fde6451062016e],
    [0x8f593f08158dea9, 0x26e6718551b976b2, 0x253d7ed1e76d35a1, 0x4a572b86105dba5],
    [0x7e42614b4c9a3dc3, 0x5f32a437657d2127, 0x5e1a3932439dfe8c, 0x1d948e8774b180fa],
    [0x941e05cc8e533151, 0xde158f6a3cd6af62, 0x64d7ad9982b1bfcf, 0x20441aa5f4d5638e],
    [0x9a947c7fb577a51f, 0xe5cdb313411b6f6e, 0xd4ff11a47280a4b8, 0x178a58ff122d168c],
    [0x9c7560768d948836, 0xb6c4a891fac5da19, 0xb8c509dda4552452, 0x256e145378d2604d],
    [0xaf6a70f2e7b357af, 0xbb2362b196a5aae2, 0xfcb8023070f6ec97, 0x25f64d42a750971a],
    [0x69f7864642177667, 0x8f601a2aa6d335eb, 0x7d51bf266398d5ba, 0x2f812121e2eaccc],
    [0xe3d89c6785b0d33, 0x7e9c2ea77ef807ee, 0x6c5ab454e407bd55, 0xc8f8722892a2f0],
    [0xf6c8504a3d0b62e3, 0x3e7285e146c5499e, 0x61377e5f3972319a, 0x407d585a6a7efb5],
    [0x9de9c4e7152d191d, 0xe0045e1db694a6df, 0x49a2b59ae9915b3, 0x11cb83e01ff5803b],
    [0xcfbcd43bac0f3af4, 0x3ca49e452f69565f, 0xe4344f10540675a6, 0x2e1c292e06b7f8a6],
    [0xa9a8a20364ea1be0, 0x77ce29aba1d25e62, 0x95104a0d3e6c75e9, 0x796a23ad6ed2ac9],
    [0x9fbfbb147e884654, 0x6c1f829ee28f47c2, 0x2f6bb4caeab33dd5, 0x1004c5ecbab6b7d1],
    [0x5e4fd516b04914e8, 0x2c1c816d7318763a, 0xfb2016dfa72558bb, 0x77559473737549d],
    [0xc86e6c00c00e38b8, 0x57ada218db346915, 0xadeafd1d9a150f8d, 0x1bcbe67ed5fb7522],
    [0x602302988614876f, 0xa7b96dbb53d53ed1, 0x4fd20b67536e5e6c, 0x1b61a03e21836220],
    [0x9a8a6b2c8121e2b9, 0x5444ef8369df1574, 0x3c11aa84cd15bad6, 0x2d3d269ee324e7c4],
    [0xb6ed5e723711867b, 0x1e8b50bff76049d5, 0x3e58b0fe740868fc, 0xea45d22479ef577],
    [0x7a0220a3dff3f79d, 0x5411012f46a66f8, 0x8d293796a88ac62b, 0x2280250e212be2a4],
    [0xd851146f74840b71, 0xe8ac0a84c6897a75, 0xdad98ff8bb9fc92f, 0x20be703f86d7c0b9],
    [0x3b32377a07e6aac8, 0xf77cc3167fa3332c, 0x1dab1b01fb30c3d4, 0x21f8d854091ddb60],
    [0xd8c18cf8a124f9eb, 0x271fa47229470462, 0x2bde62d05cbb06f8, 0xdbd093dc16e7383],
    [0x5e356cfc3b81ad24, 0xf1aad1f0926c906a, 0xfe184c064e58d967, 0x2ff5bbbc022d1b74],
    [0x4a16d97c94bd53d7, 0xf7fb3d19063989b2, 0xe5dfabf3167b3b2b, 0x119816862c8226e9],
    [0x6d9b3c2d775e1e36, 0x9f4e931fa90beeb4, 0xe6cdc5c5c96fdc8f, 0x6fbced52576a913],
    [0x80c6e47f5711345c, 0xe53b2dc9a3697b83, 0xd3d6286cb126b34e, 0x299b8e8621d7d8c8],
    [0x2349ae09e8bd0c85, 0x277a82b338578855, 0x434edb2cb0a971ad, 0xa973a665693ed09],
    [0x6a3708d86336bbe, 0x517c4fe12fa56bce, 0xaee93b794c4eefdd, 0x2de9ee6529e5abc7],
    [0x55c6bc6cc37bdb66, 0xe71ef357125c3ac7, 0xcb284c2bb19512da, 0x2ea6b7a7265c503f],
    [0x1f4fa4403e3267cd, 0x3276a13c82c23fa2, 0x89914a976a8d0b9d, 0x1380beac7b062c6b],
    [0x324f98ac76323b92, 0xbb93eabce398f997, 0x79b932b0820f65c7, 0x1a5718f4a92dd8d1],
    [0x268529d582c225aa, 0xe07b946a0340b777, 0xeed701b041809034, 0x1c7cbf2448de7114],
    [0xeb2e06a385050117, 0x1bf4145df048681b, 0x53dd52cc66ae4f52, 0x9c89e06cad54301],
    [0x7009ec71ef440ea0, 0x90027e0755567e9a, 0x2a44ad24f0f6fd81, 0x296f3a9c10422269],
    [0x40b88ae80d7d30b5, 0x14c1070a901ba5b6, 0x69a8030f6e76130a, 0x18393505ea62306],
    [0xb0d38997e0d9c46b, 0xd1f2560a4eeba8c8, 0x24f7efba22274fd8, 0x1dca3060a6bbc4c3],
    [0x8df8054807eb0922, 0xf89f7c6bec4e60da, 0x2c5fa5ccda1392c0, 0x6da6d88c233e318],
    [0x3471c56646180390, 0x37839ca53ac8e7a1, 0x6494a6359f175ff6, 0xc61ec79b106e9dc],
    [0x63425d6cede468d8, 0x63a4b6d259bd275a, 0xca32518ec81c743, 0x2cec67e62320bc6a],
    [0x872a1df1427c1839, 0xbf1b49cdfbb6d232, 0xed1cac61d9cfdf10, 0x20f11ee81d2ac9a9],
    [0xab59a708d0fe4719, 0x69504a71ca4fdf1d, 0xb648c822091f8df4, 0x125478c8973bc395],
    [0xd6f2af02d9dbd6d7, 0x25625dd5d101cef2, 0x97b3a613687e4492, 0x12b591b7af35ffd9],
    [0xb6e738e7ab40d8ef, 0x9cfb8d34e8e5812, 0x872671d667fc5fcf, 0x30544eda9c322c6c],
    [0xf8f15cfd169c560d, 0x4442763ae2ac65ed, 0x79ceb2f112d6ea70, 0x2110c105efb481b6],
    [0xffe204c8ec735606, 0x1c5eda1f764814b5, 0xdd1ba4e2d0eb7c6d, 0x8fd4397aa8b3a84],
    [0x46870e9159201010, 0xfc1e5872c4b6a36a, 0xffcb2f0ca190abf5, 0x2487df9d5e066b76],
    [0x2fe09b52ddcdf527, 0xa00d6399e20d8340, 0xe2bf70fcef4b550b, 0xaad68c20fade1e3],
    [0x350368004d97c353, 0x1ab7cd96bf0bfb93, 0xa6c212ce342ecf68, 0x6301679b6cdb17a],
    [0x99b827f645f1db61, 0x6956084188eb2c4c, 0xc189a31ba27f2ccf, 0x1e151fedfea11659],
    [0xfdccdf0aec12d66a, 0xfae4d3c8308aba4a, 0xb9002a0066114b3b, 0x291bd9401de20916],
    [0x80da77ec2fc24ea0, 0x9d3b1d9f8e4e8ac3, 0x7291f036918f0b27, 0xaab27e6279952c],
    [0x53c77aeb7bcdb04b, 0x4f9892ba1025826c, 0x5600b2df492cf2f1, 0x1e8ee641308ba6fe],
    [0xd815f6d1d3c4f9d5, 0xe0ee503cdaffc9ad, 0xa2fdc917e2ed45dc, 0x276e2623828949e6],
    [0xb4fe3dd7dccdd777, 0x881341bb5e4fbbb3, 0xf947f6eda6d41170, 0xa403e979943b8d2],
    [0x5958e0cd81e0eee6, 0xd39edc5288e6900a, 0x2a421073440e3a4f, 0x2b0696d45980020a],
    [0x26a77bd0b7612181, 0x5100a7f32580b78f, 0xe8a546455aa00a0f, 0x2f9f88fe9be36457],
    [0x59e2532d7d1c46a7, 0x7c1778343b677688, 0xd3c48b6f7580d088, 0x206733e327a64b78],
    [0xa3abb15cc49f4134, 0x5edd88c922e5672, 0xa98dff7486c49d75, 0xc272d10af2ef78],
    [0xb9ffbd4520ba4695, 0x682502381fc3f999, 0xfcacb463506e102d, 0x1a327ff2c46f5969],
    [0x37da09b8c594cac5, 0x13ef536322a87152, 0x52ca1906462bcb5a, 0x2c0cbbe464229171],
    [0x48ba38b52a27fbf5, 0xd45695520ef47b85, 0xe418162ef8ebfec6, 0x25f4103521e36d55],
    [0x290cd821b15fe4c2, 0xed167db6fa2cea92, 0x341c1702f03993fa, 0x7940eb04b61ec5],
    [0xe5813d8cee9c98db, 0xaaad1df7dc352cd4, 0xc97b4b09142ace51, 0x2ae1ec9e09577c82],
    [0x23a3386e19852ead, 0xc8f6a90a7f5c632, 0x5a7b66346b93c326, 0x1c97fc775f962fe0],
    [0xcaa3276defd15c7e, 0xc4d00e1f764c4565, 0x28817646d30b1168, 0x27737fcd76dd296c],
    [0xd9233b453aaccdba, 0x397d7c8e7beb4afb, 0x5843309a01a36a14, 0x16b61b242d41e197],
    [0xef24f3156b8f1855, 0x8116147b8b2db45, 0xa126e75703b83d99, 0xc75ba60f8e0f6af],
    [0x22cb9c09719e3dd1, 0x54aa0833fda36b18, 0x42972ae819777794, 0x4646253380f4bf6],
    [0xa531fcef99773903, 0xe639c124b4eb560d, 0xbdc19481b7866757, 0x264625c74f2a3bb],
    [0x8b0995e9e6df1dec, 0x831cba18066c4c04, 0x3e9794d24abcd172, 0x9714e717daa3ceb],
    [0xf0f6e4ab76cbd101, 0x6870679782231d2a, 0x6c7ef807ba342b94, 0x14dac9059c9e78d9],
    [0x97de9f8e91313615, 0xac34a64ae456f91b, 0x36d2a7d5340645df, 0x129dd677c1f8aa2d],
    [0xffde8da79e6649cd, 0x47b512d6509458f9, 0xd76f6cd5b26b56dc, 0x10879ceabc3ad045],
    [0xe4db42f8e9caf7d3, 0x7d6f49f50e94de23, 0x39e43c86c1b680c7, 0xf7c3f3cc96ceda0],
    [0x8adbf6e6b1912b9b, 0xa1e5957156594e90, 0x3da0072d2c6194c4, 0x10bd7824fc1b883b],
    [0x475b2e7749adb613, 0xf97676404113c33e, 0x2500f90310b7701d, 0x90da12e1595551d],
    [0xf2eb5c956e040356, 0x40310c41747320bd, 0x2789286a09287be7, 0x24ceb0766de25fc2],
    [0xb2d56acc8e08328f, 0x415d30e5dc09970b, 0xeb6d702e2fe74588, 0x1c7dcecea59e6f7b],
    [0xf6bfab71a960a583, 0x6a7aaba2f6a9d1a1, 0x9363c03c22b537ac, 0x110a5e84de09209e],
    [0x5a354d4de0f67ef9, 0xdac36af6848804d1, 0x1549c2cd917b859c, 0x13822dcc3f6271b7],
    [0x331de492fc76b21c, 0x232c734418b6bfe1, 0xe753d0ab0ff4918b, 0x85e380905eb2cb7],
];

/// The values of the dense MDS matrix for width 14.
#[verifier::opaque]
pub open spec fn m_vals() -> Seq<nat> {
    limb_vals(M_DATA_0@)
}

/// The dense MDS matrix for width 14.
pub(crate) fn m_table() -> (v: Vec<Uint256>)
    ensures
        v@.len() == 196,
        vals(v@) == m_vals(),
{
    let mut v = from_limbs(&M_DATA_0);
    proof {
        reveal(m_vals);
        assert(vals(v@) == m_vals());
    }
    v
}

/// Part 0 of the transition matrix for width 14, as little-endian limbs.
pub const P_DATA_0: [[u64; 4]; 196] = [
    [0x33f1bb2030feff68, 0xff0bac5e242673ae, 0xf244d3d014d1a0e5, 0xe30a774c353a2cb],
    [0x9580571061fa8ce8, 0x7e94ff07e51627e0, 0xb6bf29179ade2d4e, 0x12186bb22000ad84],
    [0xcd29ce2546a9f6b2, 0x216e24a9e56caf5a, 0x24c6ac3ceafea248, 0x2399faa648aedf90],
    [0x4af4fec87eb3e48e, 0xe3cede77e6be08b9, 0x44f233125ecd1509, 0x3add29fe398ed2d],
    [0xbb8995dd8f183635, 0x94770ab062dc0c28, 0x890abeb9251e5cea, 0x121af61f4dc5bb24],
    [0xfceaca9616b6143d, 0x167080d53949b3f1, 0x5297b00cd0b511da, 0x2ca8ffee2d58f294],
    [0x761671069d82a134, 0x4d21ea7eec1f72e8, 0x9782b914a294b6c1, 0x2c99ef5e064147da],
    [0x1a5e8a53e0cc6709, 0x8693e5e93684ce2d, 0x832a6571c2170675, 0xd7d07cd3798f44d],
    [0x4609ac7b7b171313, 0xd0d97259fc73a519, 0xffb0af525c838686, 0x29195117106623ff],
    [0x644ca0219a01e40a, 0x7cc9d1491bce0095, 0x5b58f248a88dbf70, 0x1b62d4b17de6737],
    [0x7e4d2aca32adda1d, 0x242bfc7e2bdeb630, 0x433f81dd3a326fd0, 0x2e1681bc7c22d24c],
    [0xdbd2eb6be9e9db30, 0xca86952bad1c9047, 0x7c3697b6f5e57f78, 0x65850d11d0eca8],
    [0x743abbb13abf43b8, 0x2810f0e67112672c, 0x577e504d600c493f, 0x1a59b36b94f9d723],
    [0x46cb522512d3d0af, 0xcef7a52af64d0bf7, 0x61c8ccb7815d9781, 0x1a4b186b77cd53f9],
    [0x3420c6f22782a31, 0x60bc9e8f31225ca6, 0x9e989838304af652, 0x2525da24e1d134d],
    [0x531e5c6616696a8a, 0xf054bca11e54a939, 0x702d1c0c8d423cc5, 0x945c0594d96052f],
    [0x91fa764f5d6e9813, 0x9e18bd8f2d4c6a4b, 0xe93a28113256f590, 0x14a0f9e89a7bd2f9],
    [0x3853615080cd2cd5, 0x9f168408249a6e20, 0x8e1fec5dacdd6ca6, 0x292e485c257794ef],
    [0x5ac7e9a4bb015a3a, 0x2a1b6261e9e6a9f0, 0xf786609179f18b58, 0x1b75bf6cc3265511],
    [0xd266e5183c6db8ed, 0x5ab6f214a8f84e40, 0xd1580bfc4748a272, 0x23894e025a72e4ff],
    [0x3485cb6e37b1480f, 0x71b693596f79c09a, 0xd3ce4feeaba74985, 0x1605b0bd96a60af6],
    [0x9de9277855f5669c, 0x60d77df03bf6d57f, 0x2c01005ac024cdcb, 0xb6ea459a3eea991],
    [0x1846bbda0f5f6ac1, 0x2327c3645e26a4d2, 0x80b2a744735ee85e, 0x16be4a147414ff80],
    [0xa3e3a0f7bc5200a8, 0x3808a3223e22a226, 0x7d127383d66785b3, 0x23dfcb4155e378ef],
    [0x40c10689ad5af158, 0xa0cfe2fe3403477a, 0x39f1a749e649fbd, 0x22415ca10b65c83a],
    [0x928b5911b5b7e3b9, 0xa27b6a1d97349941, 0xad9ed6737f451f4e, 0x854fec1c464e2fb],
    [0x7b731db06825ac, 0x8cb46302fd0fe34f, 0xf3539a649aa156f1, 0x258e09e408d6f662],
    [0x88bf2e3788b3ecb6, 0x19b264c3039aba46, 0xa5906339e83e6635, 0x8b39f702949a0a1],
    [0xecaf1b815a8eb44d, 0x1ca5ec09fd9fdeaf, 0xed697be56da92302, 0x138f42d30ae01982],
    [0x431ad462b69f6234, 0x2bb70744c9684c87, 0x32b42fe60fa719ee, 0x1a8993400bafdba5],
    [0x75010d891596cf3, 0x2e494e2e0868296a, 0xcb6e33bb5d345a4e, 0x223cf3744fa802ee],
    [0x715f21c86d09d399, 0xd0f8454bd027168e, 0x4c6447ba2e8543b1, 0x22a26c25e3631f15],
    [0xfe7220cc90b2ea91, 0x5f3730a7c7e3c8c, 0x79bbc8d0324cec98, 0x26b90bebc295253c],
    [0xf474405bd7593103, 0xce578e7204b9edd1, 0x2f23746da7a2993b, 0x2600d56e9f728b98],
    [0x75eda5baabf61dd6, 0x7655b344fa6ceb12, 0x2b92e1347e0f7303, 0x1b322f4a92d336fb],
    [0x8ab8eb36126e4a7b, 0x2ba23f0faece2834, 0x9fd714e0b5edbadd, 0x26f749e039b1b58e],
    [0x7fa841e1c7fe564d, 0x1d2cef27046b512c, 0x70c701b89e3585ac, 0x15302004242f418b],
    [0x58c7d2525839b2ae, 0xc73e4024c803db5e, 0x6bab9309747fc14c, 0x1bba25ef90c2742d],
    [0x6aef2b0f3390b07e, 0xc75f321e0d254c34, 0x280a728acbd058a8, 0x21c92d239c137b9a],
    [0x1cbd5e01801b188f, 0xa8e74325772748ce, 0xd5aeddc36c875d3, 0x2c240af2cced1a6d],
    [0xb6fb770c09f8dfae, 0x6d2f1c5ac572aaf9, 0xa7d82a56694e58c7, 0x2049f9cf12d0e210],
    [0x7b03567b4e7f056f, 0x34c76249dd009960, 0xa9f0b36db00c4362, 0x152877c59e07350a],
    [0xe1d6d6c23e29fd18, 0x4acc0acc59379fa1, 0xfd2ac447e6b5f44a, 0xb68eaed660cd2ca],
    [0xfdb3f3256cf94d86, 0x73c22c72e8268ecf, 0x94dd8fd7f7ce52f5, 0x271684ec4ed25646],
    [0x6ac327233edbd7ef, 0xdba9988601fe24a, 0xb1c98df16a20e97a, 0x1cae3329696575ed],
    [0xb830c536936dfc2, 0xbf3cdc07c1b3beae, 0x547d532fd6f38d63, 0x2013efe5dd2c054f],
    [0x65a7dabc75bcc623, 0x387ed055f83566b1, 0xbb497043be8462cb, 0xca34892eb7fa3d7],
    [0x7c453594dc8f38d4, 0xd2249d9f5845284, 0xa561614af2c8aee4, 0x23e3b3568798af43],
    [0x249664256049447e, 0xb2423f8c2db33c95, 0x1d38ddb337dbefb7, 0xde44974e91df815],
    [0x2d4f1321896f5184, 0x9ce33596023de1cb, 0xd450e0e536e1e73c, 0x1a8077b3370f7e65],
    [0xa0b8f72bfbb6a906, 0x3aff5ef915d2d7ff, 0x8848e50bb04b5072, 0x103099f79452ce6c],
    [0xf0e9e3e5f90057b7, 0xe5e2fafb481c0845, 0x6b39fde1f5eabb0d, 0x4b3c3687111107b],
    [0x875cbb5e90028065, 0xf2a712e3642a36c9, 0x9632b87385d24bf4, 0x41fc409e13a628d],
    [0x4ed73b7b6f328dce, 0x8262da54c1ead036, 0xf40259855eb51f11, 0x804921684796339],
    [0x4610833fa201a72b, 0xc3e4a7ca0506f97, 0xf6852c2a191cf74d, 0x2d4687de2ad43600],
    [0x777aa5d898510e5c, 0xd680594a9c9dad08, 0x3e72337b4db1bd2f, 0x1156a55febc770d],
    [0x5c763bfbdd413a72, 0xd4ed93f085177da1, 0x6048b8a99cef16bb, 0x23a87eff7dac2675],
    [0xd01d77c9d513bc32, 0xbd1b812ef63e72c6, 0xcdedb75daae78948, 0x199d5f44df92c42],
    [0xb29bccb2768ce812, 0xd13aa9a52bfa0a34, 0xc052705abd07b5d7, 0x2d2d2d79eedb473f],
    [0x8f0050d18a30e660, 0x5528957858c3f998, 0x59e28c723db16cb7, 0x10b99b04d7a8e090],
    [0x583226decc32d54, 0xde3890cabc1bfcf4, 0x78e3ded0a3d69d69, 0x1ce0f7ea351be6aa],
    [0xbb3febcb24f4066e, 0x48a452423025b85c, 0x3bc559b8811d309d, 0x2145a0959a46b3c4],
    [0x1d39d77bd61c122b, 0x8825badcd0d03817, 0x5254bc8466ee1b44, 0x1cbf2e32e48308fd],
    [0x7d2d8014be1511d4, 0xde28dac12256995b, 0x5b73d52307c09dc7, 0x2f6784fa0636348e],
    [0x62cbe60a9a1d0336, 0xefc59a283a388424, 0xc20ff55628cc4e9c, 0x1cddc847d2f8d9e6],
    [0xc5f9a9a6d3adbbd3, 0x509f152e6d0e93e8, 0xede010a005c4ce55, 0x189aeb454f60721e],
    [0x552e63e44e72ac55, 0xf5184453afe49fd3, 0x89bf454f4300cac5, 0x6850ae560ad9a7e],
    [0x74be5f74a37b226, 0x8937cfae01bb185c, 0x131f96672be04f07, 0xfea56a59a68a9d3],
    [0xd883c75137d96216, 0xa37e8a5c3fa8eb38, 0xba2d154206439c02, 0x2803e055305e45f9],
    [0x55f12c129d681f12, 0x938f590e30b3db68, 0x3c0a41fb073400ff, 0x1e2cdbd10cd7e299],
    [0x38c2e1308a388aff, 0x3df09ab550af80b8, 0xe971977b9fc2b3f8, 0x298b224b535d0d32],
    [0x966c2198475e5d5, 0x3ddeaf350d52ad46, 0xdb02a0c7478c0234, 0x1554c7a78e970212],
    [0xb2b0d1b8d6a4ad5e, 0xf569fb43aacf2e2, 0xefec7464df18f95b, 0x13d95f949c83e09],
    [0x14ea1b2f793da580, 0x88b093ed1d2d1367, 0xc345d6eb317c3687, 0x17e35329c9aaa754],
    [0x2350c4db32232768, 0xd64b0b7be729631f, 0x4deca324c9c92bf4, 0x1b5b9f9ac26a2e05],
    [0x5c69f9ebf801192d, 0xffa981ef6b22f752, 0xf939157d0da15bcb, 0x2f172acf4fcd26f6],
    [0x602a31258129088f, 0xafeb4c247bb3f4fc, 0x374d1806053383a3, 0x1e25aef828ae1b75],
    [0x83440252c232ab0a, 0x7a53912dc74b2f19, 0xc1e90574b4f832a0, 0x1b4e7d76dd8cbb42],
    [0x384043790e45c1ed, 0x35c5552e5e5ae7e6, 0xf8a9d0ab0e7149f8, 0x29bb557aa48769cf],
    [0x2f45f55a7042b02d, 0x26bf7c1d6680dc93, 0x96748f5482d37d39, 0x18572091465cabeb],
    [0x7612d85cbd16a4a3, 0x7e7c0533ae1d8928, 0xd2021bc67b8b4317, 0x291f4b78708af2e6],
    [0x46acd0fb1403d00d, 0xab5a905a2478b9d4, 0xeee42dfb735b05e0, 0x11f61a3860411316],
    [0x3bc2bfdcf43ba0, 0xc6f1a95456997ba5, 0xf0728f1fa0493019, 0x7ec1b96a04d4eb1],
    [0x22e55256170cfea5, 0xbfc99cc7befcdb, 0xf031a4d0d0f5c08e, 0x4f089c87cb7baba],
    [0x4d42c9ffe585e730, 0x31af7f2e1feaa30e, 0x4e85b552f0c11628, 0x21fd7ef66c4ff37],
    [0x6519ed6e44ab56a9, 0x42230e0561e1ae55, 0x638f70d1bcf3ad68, 0x222ab7be52097210],
    [0x98cd4e7398985874, 0xc2d98a7358dd85bd, 0x714104e535fcde5c, 0xdb367b50c96c5ad],
    [0x96bbd70d08720f64, 0x498ffe99bfdfbec8, 0xdd669ec05c0866c2, 0x28ec7da8ea43b28a],
    [0xf0e6bcc6ac0e3976, 0x972bf52a6ee3f8ea, 0x7a45c5cdd80091c3, 0x94707149dc563db],
    [0xe7b86020e413ca4e, 0x3178669ff77a0ad6, 0x64356acf523f3244, 0x28f529934ce9fece],
    [0x86ea6daccf4f403b, 0x8c2229892c093faa, 0xc8c68767d755b2f2, 0x28796af2b46e4481],
    [0x48f0547d4dcd155f, 0xe720261bd6c77f23, 0x7435fbb0317bfd4d, 0x9367ecd53363432],
    [0xd0e0b852fdfb1aad, 0xf0f41fcdf2088dfc, 0xfd20de6fbf412d07, 0x1cb2f7fda98a18a6],
    [0x2701db2913a698df, 0xf5ec26b86ba77c95, 0x3fdc531a52831728, 0x1a5ccf7ef451a14b],
    [0x1cff66c545f8750c, 0x27a4c158910c03cc, 0xb4912240c72983f0, 0x22aba2a6f80e91b2],
    [0x36aa65ed89f3825, 0x3e6db12ee7a2782a, 0x188ac5f2c5aac949, 0xa80fee34581fae3],
    [0x7192600fb17c8c82, 0x492a7d26aa802222, 0xc114246d055fbd55, 0x1dece2bd9b515875],
    [0x45d6fc4626c2f1f9, 0x6071a28026a73519, 0xd3047afb5095d5f8, 0x2ebc3e6c61ae6901],
    [0x6c1198e370cf5912, 0x6e135e1033791b70, 0x456ef5cb1e58b471, 0x2a75ec0f43bf0249],
    [0x32c819542982da3a, 0x3ec00c10888b7161, 0x12f42cfbe156e740, 0x391e74d9ce94448],
    [0x6acc7290c5c07b38, 0xdfaab461965ccf, 0xf2900ee27741e485, 0x24d565383969b188],
    [0x2eb7d67c6817ed1b, 0x3142b420cbfcaf2f, 0x878c4a4c3a0cda35, 0x145115518f4ddc7a],
    [0x9c5b80615cbddecb, 0x3dfbe8112cfbcdb4, 0x4d5d6c2e2af19696, 0x25ceea2ec9fe1199],
    [0x6c5dafcaeb90250e, 0xec85ff5cbfee02a, 0x4bde4412886e9a59, 0x9385ccdd032e878],
    [0x4ed080907e6a1774, 0x8ad48e64a7b393ef, 0xca2981c28b4228f, 0x2b9c2881bdbbcab6],
    [0xde804b822400e81c, 0x49febda2af0d2e7e, 0xa1b3c2e6d746601f, 0x290e7fdfa796c9a6],
    [0xc9a34a9046702db8, 0x2c6cf125772a9835, 0x78f740716d6aa26c, 0xcddfa96db02b40d],
    [0xb7b1753025829991, 0xa59f2813392030fd, 0x42c23624abe88852, 0x152f38cb9808d5c9],
    [0xf1c1638f723b0a5d, 0x5b5b87ed556aafe4, 0x6bf3d68b2f1506bb, 0x22e33116da222831],
    [0xb51c32d6601ef297, 0x89875e9fb559e29f, 0x95ac4b62536c790a, 0x75c8623c44462e4],
    [0xe11dfc5daf4c3e35, 0x2d710c68a3644946, 0x7422536477683d09, 0xa1973619cf434b7],
    [0xe762ff0da380856c, 0x422a9b3a59ee1241, 0x62131ee7b43c2de9, 0x230959791080b2d2],
    [0x7afab9bc736dcf79, 0x58f5e7ef95d27520, 0x88abb4150d5b89fd, 0x217005316ff983a9],
    [0x12b82e4c21fb67ac, 0x794c594c08ea0634, 0x469cca2a20bd5c5, 0x145f48fde51a4c7f],
    [0xb7361d06d5d50c64, 0x885c18de68857395, 0x8d30fed9ac5f8218, 0x2c08d33aa07452ec],
    [0xa3a2003a2a79e906, 0xec036b280b9f5a64, 0x4f543b5086ab4fcd, 0x21c96a22d60f44c3],
    [0x6e393a1ec2794a4b, 0xfcd8a7b34ed120ab, 0x15c9f028f02fb60b, 0x2952f32d846a2cff],
    [0x15b2e89543c09412, 0x2349163bcd7b8088, 0xf2fd334185a45d0d, 0x2a4b9eb8b2f9e4c4],
    [0x9bf12c1ce2a6284d, 0x3ceabbe3d0b86839, 0xdb25f2f1593dba40, 0xd00d400c8809e16],
    [0x62a06e8a7f33f3a8, 0x787381786f7d98d, 0x679ecb541865f723, 0xd532c4429d77c08],
    [0x7f27ce25c0ee4afd, 0x3c1eac10a95e0b91, 0x7b70b85846b65ffd, 0x1f0f734e95a45cf0],
    [0x6355ae12300988e8, 0xf5b6f79591b4824f, 0x5be9112a49c5308, 0x9e543a62e93aa30],
    [0x5fd500e44ffdcee2, 0xf0dbbf8fe39d8e02, 0xa1f55599328bda53, 0x27885fcd66e6a1bd],
    [0xd3f2596333c5a6f8, 0x6971649372ef075d, 0x31e01f793b3cd7f7, 0xd4ee74163fe3890],
    [0xf8b9d850a74f8b57, 0x9e93cb093ee02285, 0x60931f020bd61662, 0x1e4a2c836090a5c9],
    [0x3a086256e0ed9d8e, 0x56a1ace43bb4c333, 0x33c31e16bab67720, 0x10bf2e728bec3740],
    [0xd97c5f8f31f78edb, 0x2374ca3e3243c34c, 0x253294ec3394f5fc, 0xd200fbac6500899],
    [0x8698b6bbe2440a9e, 0xc0e23a7f0dcd72f9, 0xc0e34f2b6a59aa07, 0x1c346dc47106b6a9],
    [0x4fb46c57e4b971de, 0x1bcd4eb258250884, 0x2dbec4c924f82941, 0x2eb969d596010443],
    [0xf584a3ffb3f04a82, 0x735e7d03b58f9208, 0x45ba3633c2d504d9, 0x2fe67a3792bfa465],
    [0xc5a813e958c3253c, 0x85825666a68d5c02, 0x2b7e5a4f7f25d0be, 0x930264343e7f5af],
    [0xc61632fcda348adb, 0x260e21e688f5fe01, 0x2c82bbe5824ad64a, 0x3bb2a5b659f1f5c],
    [0x3e523e956af6fd58, 0xe1d4343000d5b54f, 0xcdab5d29588e903, 0x17767169e7d1636e],
    [0xecd899af5b8693, 0x5e1fa2b5c6d9c7fe, 0x9a01ea1a959df452, 0x78ec6b19c1d8904],
    [0xec3bfd8984577c08, 0xe21dabbf1e805637, 0x2c222640d8d6dca, 0x14ec222b4b95c3b6],
    [0x57417e334f14230f, 0xd97dbc5912cbac8f, 0xad67bd90734b8bf9, 0x1a145f49ae38f332],
    [0x24f4065b7d276244, 0xf3bf8764452add9b, 0x1b64c42f01e015b5, 0x28dfb66df089941c],
    [0x191cbb63ffc50b6d, 0xbe25ba8dc31e0522, 0x584cfe2f11c2ca43, 0x2a06bde137eb0fec],
    [0xcd1c3c0400824673, 0xb166b73aeb3422ed, 0x8f0d464d85c961ac, 0x2a12cbb75facd854],
    [0xfb8c0564b898c13b, 0x271bb932225cf3c2, 0x7fbcb0dcef53d804, 0xcf6a0317dc98ba],
    [0xec293014c78f38cc, 0xf761d57293a39d5, 0x7ccdb5b1df418bac, 0x225829f1730cfeb9],
    [0xc776156a6dc41e25, 0x39d7f120543ee72f, 0xd8c4cf8ae0854f5e, 0x1d881f9bc6c0a69a],
    [0x92d46a09eca668e9, 0x7085b988bfb25953, 0xb27035f47a0030d7, 0x1899d3ef6a66651],
    [0x32c4ede9da6d5b, 0xc7d89c02919d2a31, 0x350007a8501222d7, 0xc27c0b2f86856b2],
    [0xda9ae8082369891a, 0x6dd8edb8e577311d, 0xc1aafcd0daba9c38, 0x3f289db20976c1e],
    [0x877de4657fb1e877, 0x23f0d2a81b23f593, 0x2403a18473a2e5d9, 0x29e0c22a0db44655],
    [0x9c7039d282661866, 0x277aae8cf8b15a76, 0x73c227c3fe04ddc9, 0x12e4b3d7107e8bbf],
    [0x79b162342c54f27f, 0xf207e753574a7ed6, 0x1c0a89103c29995e, 0x27932ea804885d90],
    [0xf424a67799ef67ee, 0xc9e9405f111267cb, 0x691aba9611a798cb, 0x18f31da4274218b2],
    [0x5590aab52143377e, 0x4c67575d9a17be0e, 0x49805371c01a74c8, 0x8857c8b3f0b9a76],
    [0x821363aff6ece299, 0xc2c09ddb592d37d0, 0xaae1200f360829d0, 0x2e5ffb493cfee9ee],
    [0xa22f21cb98b46108, 0xbd805f5bb1fc0543, 0x9f208fe577a0ed6b, 0x237277467500a658],
    [0x3acd03dbddecb683, 0x1a7a17f5159c26f8, 0x8372370673f8b970, 0x2ba2525889190664],
    [0xc84d09ba5b6578f, 0x4b3f5dcbf52314fc, 0xe21ac64165dc5fd0, 0x1306e43717156fb4],
    [0xbee47857841685e1, 0x972d5297ef55ff4, 0x7be3da6740eac645, 0x17b09625ab3ab20b],
    [0x61ce35446a14055e, 0x9f55a7cd60c2956e, 0x526df75b9b3a4374, 0x1d6405c7bbef29b6],
    [0xcf7efe0427bdc769, 0x167b8a41b243d2f9, 0x72ef63566573192f, 0xdcd018b542eb514],
    [0xea12ca6d9da5808, 0x49c8b80f0d0b11, 0x1abf1204e92462dd, 0x76eb0679a3bc590],
    [0xc59d6e5f44da0a83, 0xaaa2379dd8d61fac, 0x5c4fbb1eef8237e1, 0x183e186c2c72f4a3],
    [0x3343ae32ccbe4206, 0x49349aae47164fba, 0x5998cac57a0fba1d, 0xbb85f352ad58d8e],
    [0xbbffc9704a574abc, 0xf9b04d99b54cad41, 0x81ed7bd0d3a35048, 0xf53bacde9c90053],
    [0x6b2becc58e431c8a, 0x96fec2986fd60352, 0xfb9072c597b940cc, 0x20fdd250fd434a5],
    [0xba4335767cb4eedd, 0xbc7bf504a5ce34e8, 0x687161544a2e3323, 0x18a38fbc04f4e85a],
    [0x3ce8849eef1cbf96, 0x812c14473e4bc9b1, 0x30314a01d381febf, 0x25fda357cdab4ca1],
    [0x24176e1b4c9e3b7e, 0xbc3f76e15937ce9b, 0xbdfc774d1c8278a, 0x21157a29f47613a8],
    [0x2b66481d013eac94, 0x91e09e4099cab4f8, 0x4979bcdb315d2f98, 0xe20cd93d855c7f1],
    [0x75fe87c2c5246908, 0x4b8486a6a1296b, 0xa2010dd7f35ad802, 0x19e70fe4bddddbd1],
    [0xf3c6f649c4f10250, 0xab59d07df4916e9, 0x63e8365f4e17415f, 0x9a6e0063c05651d],
    [0x75d2a5711dab8f70, 0xf15ba1cb758c6027, 0xa0c45a9ff8f87be8, 0xb98d9ccb5cd1979],
    [0xa7b5b8d2b21822b6, 0xadf17ac40ad5b334, 0xd0af6b08fba57b93, 0xe1f6e07f1a7310e],
    [0xf87877d8514e4103, 0x92c9a9fba1cad773, 0x7983d49bc07cd223, 0x1e76abfe0e0c090],
    [0xf52f077ce3c0f9cb, 0x4a06ff3453e060a1, 0x37b3167bd0e8c809, 0x28b6ca5d7278ca25],
    [0x3d5cf9913adefa8b, 0x1dcbc0ca9ab7749e, 0x8a93ec0ab11a3723, 0x1c921c4536be42aa],
    [0x38d3e48df56dd40f, 0x16f21194fc7d610a, 0x69015cca5f0be8e4, 0x24e9c71c56075191],
    [0xd263f5ac91906803, 0x214a7836f7af1bd, 0xf858adf8134bfec9, 0x241e0bb48bf63003],
    [0x5d04f0a728f4199a, 0x53c3d5ad428b114, 0x7a0c747597593c44, 0x211dd323ffb6bf1f],
    [0x85e825abf8bfecdc, 0x9043ba6d1bcd7b7b, 0x70519663f49d69fd, 0x218b8f679b6f2f60],
    [0x5d8113427aad42d7, 0xce489fb5b4811356, 0x6a873109adb4196e, 0x27b831fd2727802f],
    [0x38ae0cb8d96ccffc, 0xe6218ec646e79dfd, 0xafa1e9e45c9f38b6, 0x1cc9014506211730],
    [0x22207149884b4638, 0x75f10b43a009c6ae, 0xbca0bc89b72eb4a5, 0x12dfaf2a058c0890],
    [0x78012c17c9d01b20, 0x4cc9bc56569d8f5d, 0xc86c76792fd9c3b4, 0x27d1991b6be57840],
    [0x966ce0fbf9322ec0, 0x3d65a00de2a7cfab, 0x52f06668c192079c, 0x211a3b4e93de3208],
    [0x73dd93c63ecca6e8, 0x2046c51c0024c4c6, 0x5dda86122034b6f, 0x26c6a596dcfab11f],
    [0x5e992d9dc74ee608, 0x99960e97c100208b, 0x5898bddb1d79385b, 0x1dc01119987d2a02],
    [0xb271217cb9460b8, 0xf8b8f84b1695cfa2, 0x142cf0560a3c1f28, 0x270775b57362a96f],
    [0xb211bdcda6e05d5, 0xadef68a0ded0fda9, 0x87576419d0534698, 0xf7036425c9f4bc0],
    [0xe2cc924602212203, 0x59185625df57435e, 0x56d9c8141f70394e, 0x8ecaa57e55d210f],
    [0x6543097856b478cc, 0x2b67dd0bca78f731, 0xa2b72bee29f82370, 0xa098b67cc231ed6],
    [0xa928a323556632f0, 0x5c1d6ab66ab048d2, 0xe401fb3c05ed0d4a, 0x106f70b5c82b6a41],
    [0x3a8466036fde9053, 0xde60de9199fe298c, 0x636816d1f7484e12, 0x437b94aeaefff8e],
    [0xe1bb70eeab467a36, 0x345d180ad5ba49b4, 0x1c938e81e8155ded, 0x1a3d570d5a331ae4],
    [0x5c662be692644733, 0x1130d92a56095b48, 0x45db63f58e55d78f, 0xeb8c6eb7b2a00cb],
    [0x18bdf1560b04ed6f, 0x183c00dd1671044b, 0x813dca0f052e321e, 0x210396c1be722404],
    [0xbecf67d8bdcb4416, 0xb5a8dcb233f8c9e1, 0xfb05fa7c62c2c471, 0x299298324b7b1e7c],
    [0x4dec10ece36e3f9e, 0x56a536c153210b9f, 0x4df5e93aeb39266b, 0x26a6b81d5d4c3e],
    [0x4de8edbda7029bef, 0x8fae5da0c4b3bdfe, 0xf54a4ac17d47785b, 0x63781e7bb64e40e],
];

/// The values of the transition matrix for width 14.
#[verifier::opaque]
pub open spec fn p_vals() -> Seq<nat> {
    limb_vals(P_DATA_0@)
}

/// The transition matrix for width 14.
pub(crate) fn p_table() -> (v: Vec<Uint256>)
    ensures
        v@.len() == 196,
        vals(v@) == p_vals(),
{
    let mut v = from_limbs(&P_DATA_0);
    proof {
        reveal(p_vals);
        assert(vals(v@) == p_vals());
    }
    v
}

} // verus!
