//! Constant-table data for state width 5: the flat round constants,
//! the sparse partial-round rows, the dense MDS matrix and the
//! partial-round transition matrix, in row-major order. The constant
//! arrays carry the data; the spec functions read the same arrays as
//! value sequences, and the builders return vectors proved equal to
//! those sequences.

use vstd::prelude::*;
use crate::field::{Uint256, from_limbs, limb_vals, lemma_vals_concat, vals};

verus! {

/// Part 0 of the round constants for width 5, as little-endian limbs.
pub const C_DATA_0: [[u64; 4]; 100] = [
    [0x4f3c2bd81a6da891, 0xd889bb4ebd47c386, 0x7f53e29ccac98ed7, 0xeb544fee2815dda],
    [0xba733f28475128cb, 0xa197aeb12ea64713, 0xf02fdba7dd737fbc, 0x554d736315b8662],
    [0xf5087c58d5e8c2d4, 0x54907df0c0fb0035, 0xbcd748056307c377, 0x2f83b9df259b2b68],
    [0x1915208f5aba9683, 0x61f15f8b41a75ef3, 0x2447ac83052451b4, 0x2ca70e2e8d7f39a1],
    [0x4ec719cb83ecfea9, 0x994196f12ed22c5d, 0x91b04d7222271c94, 0x1cb5f9319be6a45e],
    [0x851867e46e126fa3, 0x8c34dfcec769429c, 0x360d02e6e2e5d1b9, 0xa9c0b1916a8e41d],
    [0x252e4804a6390f6a, 0x45ebf9bdd9ebb60a, 0xe8d36e9d4d1edad2, 0x1dd6ba3731e49d21],
    [0x80837d0d7da4e3e0, 0x647107b808866a9, 0x1a11b7112abbdee3, 0x24ae2a67c3d521c1],
    [0x66c8b2ee96781d70, 0x3ca9be16d2004970, 0xef12866af5a45eae, 0xd20c9310b5c14d9],
    [0x84b4a35430019445, 0x169993abed543c72, 0x5d400d763a66c4c6, 0xe047c9821fe94d5],
    [0x988ac207e10c81dd, 0xd335d09110157076, 0x48eff41d2ce79bfa, 0x29474ab799b1e139],
    [0x722a20d79afbca93, 0x9b7f41e7aca47ea2, 0x81be3b74ab4c7078, 0x3899f139d0dc4b2],
    [0x3b96ca273f71029d, 0x39951d5acb6b1bbf, 0x7a91c5f37af5e476, 0x1866624f761ab8dd],
    [0x7ea06061240f3009, 0xcf6b34db6d9ee2af, 0xf09ad8541325a13a, 0x13c119f36718f7d5],
    [0x7b5a1575dd867fd7, 0x9643cc8e93fa4448, 0x2b11f13c08890b73, 0xe4a100815807740],
    [0xc3876f37de4e7ad8, 0x9ada9e3002210ac9, 0x51b670dafe14cabd, 0xef505fd44ac10a2],
    [0xa6fd238405720de5, 0xd1445b6b8129a5b9, 0x91c43d367470a5a5, 0x1d31e4e2a5978b74],
    [0xc6af2c030fbeac39, 0x94ca5cb4421b5d1d, 0xb624d9d504524a96, 0xa979ad5428d481c],
    [0xf762ade36d6ab2a0, 0xeea9373f4995778b, 0x9ce3682f38aa291d, 0xf7fccd2ec8bc6ed],
    [0x53b153e9fec7bb80, 0xefe99c2ba99bd6ee, 0x5f7c078d9bf8706d, 0x2691b924dfa12300],
    [0xdea7a9517463220b, 0xc464b0e4678add60, 0xe56b913bef3a80db, 0x2077df6510b4860],
    [0x9ba61c58e2993e8c, 0xa3dc21bafbfac1c, 0x49350ce2e0aa47d0, 0x29ee09d8af9d24ca],
    [0xa733cea6f25bfaad, 0xe332aaced9f1a494, 0x6b9a01916624f3cd, 0x8b292c661d42750],
    [0x87393a1da9a4cf90, 0x92c84abc72c90ad, 0xb22e4713edfbb050, 0x2583699ce536a757],
    [0x12cffa19657b0b66, 0x5fd4148eb8110a0b, 0xd88999475374f6e2, 0x1e3f1b660223d65a],
    [0x94cf62a9ad4c3448, 0x9b222f0ee8e02f31, 0x79131455461259e5, 0x20f3ecbb37c34aec],
    [0xc85513b1776fbc64, 0x5696d8b9cf6210b1, 0xf87d553ba62dbda9, 0xdf4f5088e4444fb],
    [0xa252c63bcbfc6833, 0xb2ffe361a807c589, 0xa1cf4dd67dd664, 0x2b348effd4c9cef],
    [0xfc84b556f26a86c7, 0x27c000fa96b1b462, 0x6cd8f20e82256f03, 0x1ba1e522fcb15367],
    [0xbe9d3fa74419fe50, 0x6764ed3550aff80d, 0x144e964c37bbc576, 0x294c44df8e68c96],
    [0x59bc818c1d2636a1, 0x4c77dfe2194753c, 0x602ca040700498dc, 0x313716eec6dcd8a],
    [0x429a442e19e3ec61, 0x84d960bbafb90967, 0x2359f68225de9553, 0x287dec74696d663e],
    [0x13f0f8f72c1946be, 0xdb4962c8204fec92, 0x311ba097cf365683, 0x25e42f72c6be0942],
    [0xea6da70b6b475c91, 0x8639f081a94896f5, 0x768c242acd5399b0, 0x12b6881b96654fe1],
    [0x70449bd9418afdb5, 0xef18118ed9498c82, 0x7d7be55c716cb243, 0xdfc2b54546fd326],
    [0xb99b2872b28eedf0, 0x5f36d04cdc73899a, 0x6ad4890fa029c27c, 0x27dd55fe0d5c0ff5],
    [0x88adcbddd32f173f, 0x8b41ef8dcfccb381, 0x7a2ce59f587443ec, 0xc60962711aef16e],
    [0x6684b7e8b40d42d2, 0x6c28b585986b8111, 0x86e62fffe32bf5f1, 0x2edc09feb267c6b5],
    [0xd4c4bcc9656d11e2, 0x622c90502137aa1c, 0xf295a19466d8d100, 0xaf8386859db252f],
    [0x23e651a13a680550, 0x6c080b3ca4eda51a, 0x16abe382102a459e, 0x121f218392f73d4c],
    [0x2913cb3019d56f8e, 0x75ef67d29405b5e0, 0x61f8c775c571ffc, 0x1ea38273f5d59e65],
    [0x37742ac1556187fe, 0x8bfc3b0bf30b146f, 0xc0ac35b627e2f8f0, 0x9bd2349005699bc],
    [0xf55f9404696c1433, 0x6a7f2132f89e91b7, 0x11aea22aaac4d44f, 0x91c505b1e92448c],
    [0x799b0573a931a99f, 0x56d443ba14cda4bb, 0x490f7fcdd5e9f2d2, 0xb316f1c29689d4f],
    [0xf3aa75fdadf367e7, 0xd0e3f5359cfa55bd, 0x398188b81f99d2e2, 0x2049251919a8f3f4],
    [0x64188a4aac55bd, 0x899a105bf9e584af, 0x8814168e3e4cf7a, 0x1fe7f9eb67881019],
    [0xe9b1c67c1ec1d570, 0x6d966d529c2d01b9, 0xb0acd630ea94de8f, 0x158e6579b0388153],
    [0x566aa6b7fbc3696b, 0x2c487e393dcedca2, 0x9de2aa3f4be05c4b, 0x1994f82f27153afb],
    [0xdad572ccebef6e1d, 0xbd83c87603eeccc8, 0xa8a40b568432ce7d, 0x1b6250553e8629a5],
    [0xeabee71f0d0d7c9e, 0x1abb2210bf24542f, 0xd2ae79fd78fa2ac1, 0x20296940a7d1ede],
    [0xd7a905032c170c89, 0xf01883cc9e504fde, 0xc297cd31c29f1fa5, 0x2553943f9e0ffce9],
    [0xc38f2eaf5f7be08c, 0xf5feb4db4e077965, 0xad18faeaf04d577, 0x1c56eb362896c2f0],
    [0x7b7735208885cf90, 0xac0f75fef67da1ff, 0x55de7e822b6f7d62, 0xed8857205e06800],
    [0x2a592681671aac75, 0xebe79e7d9528a8d7, 0xf9d8c3f556367a2b, 0x118f91185a09355],
    [0x37dc1834c13af0c5, 0xd84e21cba75ad559, 0x78010fe6fe0a20d1, 0x2a71e6a67abdb25a],
    [0x3061986dbee57e0, 0x9ed25fb9204277d6, 0x575680e4b8929d4e, 0x2327dbc05997ce8],
    [0x93d13281792e6d6e, 0x41785a5ec8d447cd, 0xf2971c382d18c14e, 0xe05235e01f21cc3],
    [0x370b107e5a49204e, 0x96c1e490eab264d2, 0x2adfc4ab00f3b044, 0x98afa2ea7ff065b],
    [0xbd34ccc4905d204b, 0xa4e35edcb863b009, 0x419adae44209dd25, 0x27bddb7bf06eaa63],
    [0x9e06a2bc98837ade, 0x2ab5ce7aabf0601e, 0xb19085cb9d3771b1, 0x2704406bc806f4cc],
    [0xb33c2a62b756a3ef, 0x5244f42cf91c9cc0, 0x86756aa902726197, 0x21c75c54664b9fec],
    [0xcbddc66cf69fe8ec, 0xaa8164c5ea39a02b, 0xea5f933290699daa, 0x2be84c1d84c16038],
    [0x28ac5b239488a96e, 0x65563720d1d5f326, 0x13c676c8c688ac1, 0x2c970e41d48649cf],
    [0x3070742edc806435, 0x60546ca032715073, 0xaa1f2654b3a37fee, 0xe1ad2660a2e958d],
    [0x6304e236f577b829, 0x35d5c8763d597f42, 0xe389a55376374c9e, 0x2060ee7fdf775fc7],
    [0xe736eac08e6f0f17, 0xd52deeadad77656, 0x6f09daee0a581af1, 0x1e0116818c843ed8],
    [0x951a697c54a7576c, 0xac399e3e557e9de, 0x3d886bb58424e694, 0xa89c1498ef25a38],
    [0xf63c516b849a67e6, 0xcb297d4ec9239209, 0xe1097483350f5bd2, 0x303743d6f36d925],
    [0x4cb96c7c3446018d, 0xb0e2e2c37e840676, 0x232df175d462b9c9, 0x8cf44446d968430],
    [0x74375f1b00777f16, 0x3769fbcf52395330, 0x1b0a9232eee5d53e, 0x2419811cbaeb3f55],
    [0xf4c58369f27fe7b6, 0x809082f1b13f5824, 0x76b774849dbbe876, 0x4237c622626db3],
    [0xe947342c14454558, 0x178937cdee34b9e8, 0xe114a5cb87a8494b, 0x1e5b490c72eeb607],
    [0x242d0f32ca15b97a, 0x5a72862c61380b1c, 0xf749203cb4a5d141, 0x4265333e59e1a5f],
    [0x86de26d35d982e86, 0x4a5c683293c1ff74, 0xc4da682532be43d2, 0x189deaf74258451a],
    [0xae08c46af3eca76f, 0x21b36399d03d8263, 0x3a34905cfdedaad0, 0x4ec516b0fd42fa5],
    [0x6d595c7701ad700d, 0x8576cef86196525e, 0x3aa1b6642fc98857, 0x2ce1c8a00845a82b],
    [0x344e7aee9686b6b4, 0xa1c052a6ed663bdc, 0xb396917478605c94, 0x247816fd0d34f9d3],
    [0x86477019daea987d, 0xcf555091a507fce, 0x609c444de622bcf6, 0xc676dbe6c494d5],
    [0xcce3c5cde80a85d5, 0xe30f4ddf258fc149, 0x7aa7b2148d2dfae, 0x1cb395ade530fc24],
    [0x56259f6a56890b0e, 0x69540da023f9ec2e, 0x3b9e65d8fe3c1ec7, 0x190e1494e3cfdada],
    [0x160c1d6d9b229fe2, 0xa845ee0a2ea5a3b9, 0x36c351a792343222, 0x18f2941b23351383],
    [0x6ab5e403688544dc, 0x2c0e01f757e6a5c8, 0x7df57e0aece1da5d, 0x14ea23ce8b2312e0],
    [0x9beff3563a660bbe, 0x940d6e71f38e836, 0xd554361a29f85ea1, 0x2818ad1005f4efb5],
    [0x817bab49d79db4a, 0x7d65f90b841e0ca9, 0x81793977b49054c3, 0x23ce3a9a522915a2],
    [0xa3d41e3f38d5e022, 0x382927dd04249658, 0x9b3b44ece37b1c42, 0x6c2ed2be876309a],
    [0x51e4ca36f44fc42, 0xa9853a3749d7fab6, 0xf642b945ca2ed6c8, 0x18b6740f72d77ebc],
    [0xcdb06a48b0d9976a, 0x8369ee63e75a1b99, 0x61374d069a9dae32, 0x1feacb9eb2a68780],
    [0x56d1073bd13831d2, 0x8d45d5477fd606a3, 0x7300c75ed2b2543d, 0x1a44ee4565a96764],
    [0x31ed65a18da9fe48, 0xb067da4846791032, 0x6bf3d62d87d5d273, 0x41f3b3b5b1050c1],
    [0x5b7d081c49eb5659, 0xb5898d63bc0d7e58, 0xbd0fbfb8b8a513ac, 0x1fd958cc4fe0a290],
    [0x39dca47512561d2e, 0x325943a48fc12cb8, 0x4f09c87a8c34dd73, 0x175daba07c5edbf8],
    [0x5ccad9528c43ba78, 0x477d5b2d92cff5fc, 0xdfd5a5a27a77833e, 0x9cf0a4e6e31dc24],
    [0x4c6418a6cebe80b1, 0x30bc963bd701c54d, 0xf78e5a3414d44c65, 0x12d49465bd4120cb],
    [0xeefb39e28215d44a, 0xaf0bfc2edf010916, 0xb26b2bd1e07c7365, 0x101b2f2b675804d3],
    [0x32cb7e5a339736aa, 0x3529a06384562162, 0x749e0b5f11193078, 0x114fc65faba09a59],
    [0x58ddd67366d3a9f5, 0xd3cb51017dc4f883, 0x2c2bbf9b67dd044, 0x1dff99b52799afc8],
    [0x7931c91062a67027, 0xbdc0554ad3a9a0be, 0xa59edccd7325038b, 0x290f4496a52dd4dd],
    [0xdcb97d7d15c7e188, 0x89fb992dca48c8d, 0x3b96721d2033d985, 0x91e8704663c516c],
    [0xf6d50bb534c0e323, 0x692643aa09728ead, 0xa0169fc211d0f9c8, 0x2dce22599de04196],
    [0xca858a8c6135fd48, 0xecef66daada5f0e2, 0xe67efde72795328f, 0x29a7ff0720e170c0],
];

/// The values of the round constants for width 5.
#[verifier::opaque]
pub open spec fn c_vals() -> Seq<nat> {
    limb_vals(C_DATA_0@)
}

/// The round constants for width 5.
pub(crate) fn c_table() -> (v: Vec<Uint256>)
    ensures
        v@.len() == 100,
        vals(v@) == c_vals(),
{
    let mut v = from_limbs(&C_DATA_0);
    proof {
        reveal(c_vals);
        assert(vals(v@) == c_vals());
    }
    v
}

/// Part 0 of the sparse partial-round rows for width 5, as little-endian limbs.
pub const S_DATA_0: [[u64; 4]; 256] = [
    [0x4fc6fdbcf38d7da1, 0x9f22e57ace3cd7f6, 0x80b0af133b9e436, 0x251e7fdf99591080],
    [0x9388a0d5b08788ab, 0xb0e19787b49173a, 0x6623750495e29797, 0x351d582486c3972],
    [0x29d2a9352d3ce8ba, 0x4abb12ec2d15860a, 0x72a31a3b51514c66, 0x10e1a3beae297a4],
    [0x2c886a5773e5f06d, 0x1d5cb7b5e5744e60, 0xfaf3ecc72a84623c, 0x12395fabf1c14664],
    [0x565bd58758935cfd, 0xbe2ce543f0b4d237, 0x99a173a5b736f73f, 0x9b91873151f00b2],
    [0x829e95ff6942299b, 0x49e938bf22791cff, 0x852172c773264b8f, 0x1d53cf618f93c90],
    [0xd53af5f2c4d8ba1e, 0xc5ff69259200c2a8, 0xf254396fa7417bf2, 0x1a78e48450798918],
    [0xd70a8520ccf16feb, 0x533750cf555c6b70, 0x87afeca8ea128d1d, 0xd3d4c1eb9828c],
    [0xf3daa0ea2e4dc84c, 0x698a3f49abbe4ec, 0xa6de0ca4436f1a5a, 0x3af062fcd1ca71b],
    [0x4fc6fdbcf38d7da1, 0x9f22e57ace3cd7f6, 0x80b0af133b9e436, 0x251e7fdf99591080],
    [0xcd53a7f5322005fc, 0x767284a692897ba5, 0x4b25657414256b59, 0x1ad1ba4f26d40192],
    [0x2c10b87297041d5f, 0x19ca5a9091b302d, 0x90f4f5982564eac6, 0x1133694747d2cb48],
    [0x2a2171be631bd8de, 0x24234f7b392039fb, 0x72e26f559a881640, 0x1b46c42ff1aa4759],
    [0x6086e7d9574936b4, 0x262871011f238d98, 0xc817000929e2e744, 0x1954aa0a79f14968],
    [0xa593974f652ac4ba, 0xe4c77f0e08ecea6a, 0x796fc7191a103b9d, 0x7aced898db99ae9],
    [0x9b2d84c3cdd2c39e, 0x605e20217a09489c, 0x1726d42ada7683a1, 0x18a5a098d914f622],
    [0x180f9806083eb5a0, 0xa21aeb40926592a, 0x8165af8d41019ca2, 0x13e00cf4ab3b1e02],
    [0x38a48790561b4e2b, 0x801fb752ddc88d6, 0x79defe09215b4632, 0x478f72938b528ec],
    [0x4fc6fdbcf38d7da1, 0x9f22e57ace3cd7f6, 0x80b0af133b9e436, 0x251e7fdf99591080],
    [0xbcc78c1bc6ce3937, 0x71254910ab4c58a4, 0x77b96d7e4cc37a68, 0x8ff43b0eda21340],
    [0x2e5ac0cebd91f928, 0xad02e4d2908ff719, 0xad1ec5a60e8ad91a, 0x27d7fa3ab9c438b6],
    [0x6f2abec8efbe56f, 0x71391326a664dfc2, 0x629999251be50d97, 0x1e9ac8ae7cf2b40d],
    [0x15bff86f8f261971, 0x6c35cbc8962137b6, 0x636d81f2e98476bb, 0x2d6b56b4849de82b],
    [0xd02125aa1fe63092, 0x43a0d90bb6c1b0d6, 0x28fdb3749da99a21, 0x21e70566d2f4bb87],
    [0xec3a605b010d4ea5, 0x1bf69a8f3d477eb7, 0xc8e5ee1eaecac117, 0x1c01c050dd9b0b8e],
    [0x4eb7b56ca268a16e, 0xc142109c14ad795, 0xee10816aacc1dba1, 0x282e8dde73a0dc74],
    [0x454c7ff9a16d25cc, 0x746d226cfe84b733, 0x6d19fcc57edcd92e, 0x767cf96b16035a9],
    [0x4fc6fdbcf38d7da1, 0x9f22e57ace3cd7f6, 0x80b0af133b9e436, 0x251e7fdf99591080],
    [0xd3ded1a581ec21d9, 0xf70ca858468b7f1b, 0x81f82ed0f2d3e6b4, 0x18974b9f253b6bb6],
    [0x2111a5a2de99c2da, 0x75fe851989776dcd, 0x50a25222a6a27f61, 0x18153fe8966abfc4],
    [0x74381d39c627f36c, 0xe382a4a5d6c49a83, 0xc2fe2c827e65c00, 0x2da1e2e77553949],
    [0xce8d17ac94e79e06, 0xcb403cd6560a8d7e, 0x2b4e832e05fc5ebd, 0x2608589b9cd3f4c1],
    [0x563471bde491f146, 0xcff351b407a8d30d, 0x35bf1c1ec1451a36, 0x5b4b074edb1366d],
    [0xd7fd464d9eb38096, 0xdea0644555e35822, 0x217920da66c5765, 0x856cc5a00bc37dd],
    [0x295b4852f54d446e, 0x6b3fca640669d2f6, 0xde457c9db5ab799e, 0x2021dde3ed193bda],
    [0xd6013b706574d41b, 0xb52e88b0550b7155, 0x97b2c9f03c5a55fa, 0x12e3785f05f36bb7],
    [0x4fc6fdbcf38d7da1, 0x9f22e57ace3cd7f6, 0x80b0af133b9e436, 0x251e7fdf99591080],
    [0xe2f9579ee6fe2c1a, 0xffc6e9fe26f0b5c4, 0x980add4df3878df4, 0x118084c76d1340b3],
    [0x6c26e9c62fe53050, 0x4d9102ab46620f95, 0xc622c85753ef7b99, 0xb9dacae8623c514],
    [0xf9d0b4012da6769f, 0x8fdf9ecd531ee3c9, 0xba972ae16dc621cb, 0xdaea6d18a826bb2],
    [0xf85b7afb7f79ceed, 0x176e5a18dde267a4, 0xb579921fc3208b3c, 0x8f2a5df6437e253],
    [0x53b162ba2631aa68, 0xd5d70a5fecc5fd56, 0x3d9aa53b7d2793e4, 0x6a91d7c75e34fd4],
    [0xdb58b6b3d6069c56, 0xdc339878c0a289d5, 0x20d759996c313f78, 0x207579e33c36af2d],
    [0xe16acf87ba871b9f, 0xc9c2dd6f8a75054c, 0x3392c8cb8cda95ff, 0x25562540cd12084b],
    [0xaf6979183afcdc87, 0xa82b103817b4acf0, 0xdd0501ee0fc294c2, 0xbbf47feca60b93],
    [0x4fc6fdbcf38d7da1, 0x9f22e57ace3cd7f6, 0x80b0af133b9e436, 0x251e7fdf99591080],
    [0x6288abb9d8b15711, 0xe35aed2fe9f7510e, 0x4804a1ab4ce39815, 0x1e0814ce223453b2],
    [0xb2613d6dabbd72a9, 0x1b78b528e750554e, 0x399ae18d6d95a6f8, 0x18f9aa2721d95963],
    [0xcddd929bbb5875a6, 0xba6bf4c98ea0caf9, 0x8831c559c64080e7, 0x2ea329822ad302ab],
    [0x872925a046a338, 0x1cb5262ed19cd0c, 0x93bca80677a3647c, 0x29910d86bc27b38a],
    [0x6ef54d3dfc0660ab, 0x7423f3c211d26e8b, 0xea895e01d630ce6b, 0x21c0a05ace45015],
    [0x4bc6a32a3f5c0fcc, 0xdbd7ea5cdd7a9122, 0xed2ff8c68be30bdd, 0x25e7c463042f520],
    [0x538ae7db6b6a7d21, 0xdf080234e9b92201, 0x11e0dcd1ff4237ff, 0xdf5b7e7663197f9],
    [0x2650f9d63ce37c85, 0xfef3b6ca923c6838, 0x1d2b9bfbc2bd78de, 0x94d0fcd9592b477],
    [0x4fc6fdbcf38d7da1, 0x9f22e57ace3cd7f6, 0x80b0af133b9e436, 0x251e7fdf99591080],
    [0x4fab36aa12407263, 0xdd544e8bf048658c, 0x91a49d4b7cd6af9b, 0x270361108967ed03],
    [0x7ae332857821961, 0x4dbdd1656483e54e, 0x4c847bea65410191, 0x18bbf89e7cae9304],
    [0xf6b4d3d66777bc1e, 0xb587758d75239071, 0xfa83507a2b8947b4, 0x4aa47a0ede64ecd],
    [0x9fda17d354d3ce02, 0x6a596f5671018490, 0x3ff7def1470c06aa, 0x182d30ec988fca80],
    [0xbafddf10eb1f8448, 0xafddf85582e4c70e, 0xdffc59cb1a53c761, 0x223c27171e456846],
    [0xc8c2e0903114c915, 0x5a08e9ea1eb369c5, 0xdb78ea4d862c48bc, 0x7d46dc97554a25e],
    [0x36d7ac04c4d2a964, 0xe32cbbad362bdbf7, 0x523b486d264941d8, 0x1bf473a2e982e519],
    [0x4d39397aae5b6da5, 0x4cf21630ace1fcf4, 0x2b0a57eb189e7771, 0x12277b175bf54c3f],
    [0x4fc6fdbcf38d7da1, 0x9f22e57ace3cd7f6, 0x80b0af133b9e436, 0x251e7fdf99591080],
    [0x1dfe6fbb57feb15b, 0xf83e89e3337a84b5, 0xb86a185031f489a9, 0x15c0a2cfffac7fea],
    [0x2763abcf99359ccc, 0xb9efd4bb9eae4c4e, 0xe52190f5a415c1fb, 0x2b83199ec584185d],
    [0x241b2b0f4925d7da, 0x645d4e451c940ad4, 0x5b02adccb76937ef, 0x28601b9940a312c6],
    [0xc3f21e8d611996f7, 0xec0566c8a6936978, 0x420729e016901b94, 0x1a187b4875be24a2],
    [0x201b8e31065d5c57, 0x6e68d56de2a465a0, 0xc7e44824e64978d3, 0x10ed1fd44722d10b],
    [0x684a3573486dc227, 0x6f7e70f02d859c78, 0x377a9bfd3efe4845, 0x2c4b6867179a949d],
    [0x21a07da7b388dfb1, 0xafd87d0e20ac38fe, 0xa0f61655a8bb35a7, 0x15cb2c17aabecf7a],
    [0x79316e39f7d845ec, 0x7699c1ffa889fce1, 0xb3e61f4166a733e8, 0x4dff03c742111aa],
    [0x4fc6fdbcf38d7da1, 0x9f22e57ace3cd7f6, 0x80b0af133b9e436, 0x251e7fdf99591080],
    [0xc2b0d98cead394a1, 0xe4ec0e5e99ba7cba, 0xe70cc92d5a72e00b, 0x17baac874eaaa88d],
    [0xd73f664fe05f6247, 0x5a73983d5ea4752c, 0x2fb22ba949a050c8, 0x1dba338b4779919a],
    [0xcd967d8e7739f719, 0x86290c7b856becd5, 0xde5771d69e58f44, 0x1e33e7fcc41f32f9],
    [0xf98612afafc9b604, 0xb5d87d0c040f02a4, 0xff93977d3862e3ff, 0x10877ad7cf0652a2],
    [0xd0e5eec430350595, 0xdf6af533d4b0875, 0xbcc9110defb9d6c7, 0x115d3675856ff59e],
    [0x6af4702ca749dae5, 0xda6097537549db7e, 0x874e7bcdc782f478, 0x3d74b961ba9013a],
    [0x7e06000f74887cdd, 0xb7992e44d263c29f, 0xa8fd18e4eba3c9a2, 0x2563411e29867500],
    [0x654b7b47899738d7, 0xf1af4dc2f36a4a1e, 0x3e6b1b29160d6ec0, 0x285501c4e0ee1b3c],
    [0x4fc6fdbcf38d7da1, 0x9f22e57ace3cd7f6, 0x80b0af133b9e436, 0x251e7fdf99591080],
    [0x28c04ed8ba68704f, 0xc5c75e941dc30e72, 0x179e33103a81d969, 0x209194489c86891b],
    [0xfc162c2f7ddad845, 0x15aaf03a89532dd9, 0x52926900cc168b23, 0x2c7b2835cb79c298],
    [0xd1022dcd4a8a635a, 0xedff686e9e835869, 0xbf00ee21c16f248, 0x1df181c420308c5b],
    [0x9142c866ef4c7474, 0xcabc1d758bb99c32, 0xcc1233506f708d9a, 0x1ffabdffee2481d8],
    [0x9d8a074ea65540f5, 0xae1d9d50126563b2, 0x27e4355a694a9b6, 0x8955ed55c2bec07],
    [0xb6ce93b64fd01da2, 0x7587791417cbc355, 0x8471846eb375163e, 0x1ab4b24a4db7c575],
    [0x5ecfa8b1805c609, 0x8215e11217eef1d6, 0x9270bc633164f3a6, 0x25a3439d2838ad45],
    [0xb6a6ecb2bfbf02a6, 0xdd988ca5c84761cc, 0x13295a8251fbe17, 0x65240d63179ae83],
    [0x4fc6fdbcf38d7da1, 0x9f22e57ace3cd7f6, 0x80b0af133b9e436, 0x251e7fdf99591080],
    [0x9f3155ee12b1c564, 0x5cd1b109cfa569b7, 0xbf876a2ef895c331, 0xc1a91ddc1b24113],
    [0x8989cab5fdd36ac9, 0x75f1b68399efceb1, 0xae921069f4af83f6, 0x146fe8e28539ae36],
    [0x38adf75e1a0d3641, 0x39810efed7bdba7a, 0x2e30790090980db1, 0x1ba8c3cfa4642541],
    [0xb4d269ba1ed234d8, 0x726b0f1374f59eaf, 0x66636bb8418db624, 0x83a58c9d889b74e],
    [0xedf0336142a25f3, 0x41aaf99d1c61839a, 0x8df6032192ef0335, 0x2b812a76ea526ce1],
    [0x634488cc8eeba645, 0xba8c09e021c16aa8, 0xa5d913600538030, 0x295f6d35fb9e57a5],
    [0xbb752296032542e6, 0x71befe5138061dbe, 0xc87eb67b1f64660c, 0x1de69ba07e3b9f90],
    [0x33b0965665208f59, 0x9796e89caa1a3a35, 0xee0162a86578ca89, 0x24734fa363e52c64],
    [0x4fc6fdbcf38d7da1, 0x9f22e57ace3cd7f6, 0x80b0af133b9e436, 0x251e7fdf99591080],
    [0x7a7b51e3122111f4, 0xdade9dbf1d103041, 0x6fac071fe3522be1, 0x2d5fb67efe93e838],
    [0xbf7568b857afab75, 0xa0b042a81b75da6d, 0x73e317fd7958a021, 0x19522e9228feae74],
    [0x695b33b290479342, 0x129fbe889fce42cb, 0xafe83fd9ef0b708e, 0x2bc3f6f0df0c7305],
    [0x1015d6512818690e, 0x7ad4f9302d4828b5, 0x3bb8c406909f0db7, 0x783e5635eea0e62],
    [0xa9a3b0d8885bccaa, 0x5a6d0da8db17d115, 0xaed6fd2e4969ddb9, 0x2d61b243f02e21ed],
    [0xd76fe0ad36ccea12, 0xca89a4468df1ea25, 0xa86e67f99279fc06, 0x55e1a09f4bd4809],
    [0x1ee7f077a0d7a85e, 0x7da63ed0376420bb, 0xde61e55ba5c9f4e3, 0x17871eed22b0cdd2],
    [0x81c1fe02fe130091, 0x8956c5f0a4252cfb, 0xd4d835d18c915d9, 0x20fd0af1329bbdd7],
    [0x4fc6fdbcf38d7da1, 0x9f22e57ace3cd7f6, 0x80b0af133b9e436, 0x251e7fdf99591080],
    [0x96b2f6a8fcc6b262, 0xd9633c83cef659ed, 0xec3613e22eb7b071, 0x2e5b840ca8faeba6],
    [0x865a352c61d6b111, 0xc92ff49e900b5601, 0xa388ce585a81fe7c, 0x5f5385703edf7c4],
    [0x91c9c0d9937a3fab, 0xcb1cc78ffcf0c8bc, 0xcd30cc1c55cd5844, 0x21e83ab5e95d369c],
    [0x3d992284d90d724d, 0x30a5d004ca50258c, 0x6ac525597f1275b, 0xa67b7ed9c379463],
    [0x76c2ea3b5d868b27, 0x839dfe71891489c3, 0x5425c9610461303d, 0x214f52f9f73a2c2d],
    [0x3ab720bf40da0c7e, 0x70ace216d9ac1025, 0x9656929cdebd850f, 0x241e0d267f7d1d89],
    [0xf40d85205fbd8bef, 0xbc2a05a37352e954, 0x82e110b10e8aed1f, 0x2229153475b7a6b2],
    [0x4540619c84782d2d, 0x1a61a5f4eba68863, 0x895cdfab3faa4f4c, 0xf30d0b7cd8ef10e],
    [0x4fc6fdbcf38d7da1, 0x9f22e57ace3cd7f6, 0x80b0af133b9e436, 0x251e7fdf99591080],
    [0xc369078de8ff7aef, 0x408176d8b9110ae8, 0xe1660d3dd43d1869, 0x265589a340c71d49],
    [0xbc3e85801252ac2e, 0xf15630c94977d35e, 0xf4f464991dd651b9, 0x1bcadf844bd1a2e7],
    [0xbc56eb7ef6bcfdde, 0x9cf40b7ab98de8fd, 0x8518cc039fe05064, 0xc112b1c56ea288e],
    [0xfa04d9005283aa77, 0x270be15daacbfa76, 0xd505cd3947e11a04, 0xf020b9ef75af8dd],
    [0x53da24c19c601688, 0x7ef7d07538d84b1a, 0x66acbbaf2a7cc8ef, 0xa426601ce9415e6],
    [0xe72a8be04594618e, 0x8ab97d69739dc462, 0x1fe2003123aee900, 0x10a1af6550361438],
    [0xe188131595b060d2, 0x12d84b3837b7415, 0x8dddadfe3893d158, 0x2d792f9fe5f0ad65],
    [0xd0b63c2598f5f65e, 0x9f8a98f7f5bf7421, 0xb3869031bf382c3b, 0x2daa42d04e0b62fc],
    [0x4fc6fdbcf38d7da1, 0x9f22e57ace3cd7f6, 0x80b0af133b9e436, 0x251e7fdf99591080],
    [0x31ce8a06f908c0ac, 0x784dbcdbfcb6a28c, 0xfb5cc4187f271096, 0x144c0395157a1bfc],
    [0x5df7f40446277a09, 0x5e94c9ce64add441, 0x1601962266752764, 0x1af8cdba0eccc83c],
    [0x591e6adf42fcd906, 0xa25bee433bade010, 0x11530c210a8d6f46, 0x213c7a7ad6237e72],
    [0xa5c9d5895da4ea42, 0x64a83f5821972f2, 0x9ad0e6c41a64968e, 0x224f1ca24803c011],
    [0x31246ca4b99aad2b, 0x37e3b1b93ba73a15, 0xefdde41ead133449, 0x10944d95ff5a3699],
    [0x75924923d8079ec2, 0x9c006ebbc09d94f4, 0xbbeee5286ce5f183, 0xcb2508b0a3395fa],
    [0x34b0f563a672acd1, 0xe2d4a70941039121, 0xc0f8f7d8d0e4b19f, 0x284a14b1007ff6c5],
    [0xe77580b9d9a9060f, 0x55b0dbd42e8de516, 0xa27eed426980cf90, 0x2bc0bce43d55bfe1],
    [0x4fc6fdbcf38d7da1, 0x9f22e57ace3cd7f6, 0x80b0af133b9e436, 0x251e7fdf99591080],
    [0xa26ae296f73c5c72, 0xb7f210f3412c4481, 0x8b6f8a384368c358, 0x28e9b1884a4619b3],
    [0xb65af90457f00614, 0x2ed020ccff3a7ad6, 0xd4e1b323fd2942d1, 0x2123ca1f119a35e7],
    [0x252f01e31035b8ad, 0xe39efa895acdc280, 0xa82fc0700beaab2c, 0x4aaffb0ba008fb9],
    [0x639af1f37e1073d8, 0x5e2c2d2314629a22, 0x2443b9b31cd90801, 0x1f1e16f8ec9261c8],
    [0xbedfc66b5e2ae924, 0x248285d583613ea2, 0x9214ef937b7f7a28, 0x134928ff5ebe5e01],
    [0x9a3e1c7ab5f212e7, 0x57a4f09228cfa774, 0xc9d55047ac98030c, 0x87fc99e11e63dee],
    [0xb592a64e27cca486, 0x75299500a36ef791, 0x14df5b07fa116f88, 0x9429bcc52d6c438],
    [0x44d7760354e401f4, 0x204bd4fd06c77255, 0xa80bc8b4c0026f0, 0x2267b1dfa5d26e6f],
    [0x4fc6fdbcf38d7da1, 0x9f22e57ace3cd7f6, 0x80b0af133b9e436, 0x251e7fdf99591080],
    [0xf7aa7964b34ff1dd, 0x8e5a640035ac2caf, 0x48c9988f428d198c, 0x16fb3cdb76d21d34],
    [0x3c425b29b092d37c, 0x4478028b61047ff9, 0x79df06bc98fc6459, 0x80dd9d263a66984],
    [0x15bebcb2684af340, 0x21e3d013865085e5, 0xa5f46abeec4ab03d, 0x165f4f2d302a24ee],
    [0xb2b7e72e8d9516cb, 0xf0df1049b6ec521d, 0xc62045789fdcd302, 0xa8a3f3abf28f457],
    [0xad59ef3aed48aae9, 0x9014bae831809cf7, 0x977578b12810378f, 0x2342f103587a005c],
    [0xda6220f29eb1b7d8, 0x3eca377f396061aa, 0x6e158769c1221301, 0x1d1308e311e7ab84],
    [0x8402a1e2bea5a998, 0xc913893761b75a3f, 0x2be07dad903ebff5, 0x2563949aeabfaa78],
    [0x157b48746bbf6ebe, 0xa73e415e0c9f6387, 0x5bbc32dc21782704, 0xcb371898d8d2e1f],
    [0x4fc6fdbcf38d7da1, 0x9f22e57ace3cd7f6, 0x80b0af133b9e436, 0x251e7fdf99591080],
    [0x94093a0b4cbc6845, 0x369cdb6e8823aec1, 0x47010ebe4f63d186, 0x1231d40e7c6fe5bd],
    [0xcbed9c49a9775b97, 0x7ba0ec36ad7e5c92, 0x747068255f57a043, 0x18943696a4da551],
    [0x94a53af30bc40670, 0x34f2cdca527973c1, 0xf40e3b01bfe32dfd, 0x1fa58f378160dd4a],
    [0x372250fdc5ad8966, 0x2e4af95efe3af9e5, 0xc5579041bcf5e827, 0xc976561eeade533],
    [0x9823656231d3bff, 0xc576d579eae86b1b, 0xe9fcf831f315a4b8, 0xcacfeeae1a8359a],
    [0x73cd221a2106fb4, 0xfacfb586bc2fe63f, 0x54e4a155308192b5, 0x109b0647298eaec3],
    [0x14dd19a7bea39781, 0x202dbcdfadd0ee8d, 0x23baa0e6754c5232, 0x69d4744aca289d1],
    [0x63a26dccfb7c6ad0, 0xfcb9cc9fa9ce0711, 0x184fc58a30e1a9ba, 0x156195fe27df23b8],
    [0x4fc6fdbcf38d7da1, 0x9f22e57ace3cd7f6, 0x80b0af133b9e436, 0x251e7fdf99591080],
    [0x997af8911560fc12, 0x25e232a42476ef06, 0xdf51a49ca26055bb, 0x20fed35942cbdc86],
    [0xdd64c4569d31471e, 0x39f1a82c6c02446, 0x5423dd3450c2fd74, 0xcf20343957a5534],
    [0x5d77b4bc34c25ebf, 0x126bad03049fc402, 0xa56c40f919dc1f07, 0x1e177139b05dbe38],
    [0x6ca493c83050e932, 0x11e9614e3956d932, 0xaba8ab2a4368d579, 0x144d1944a849fdc2],
    [0x841b85f1180cbc1d, 0x3405aecbf2356508, 0xa9bb1acf1223bde, 0x162f08d305fe4f1b],
    [0xa98c5f8117415d97, 0xed5caec1613a98b2, 0xc7c5f2a54d65be40, 0x21d68868502ab599],
    [0x8b52968b0a248789, 0xbf7e22cf199dc435, 0xbe4027c68c6f3a6d, 0x984adb0c5263193],
    [0xffc7524235d1e4f3, 0xf6e0a4a82eff568f, 0x7f347a8011b0f0d7, 0x2883f3a940a8c10f],
    [0x4fc6fdbcf38d7da1, 0x9f22e57ace3cd7f6, 0x80b0af133b9e436, 0x251e7fdf99591080],
    [0x9378c0c4d3d1e692, 0x730e8ebf2bbfacbf, 0xba07d2fa8432d412, 0xd89a340993be3d3],
    [0xa0e3f6e7383f7b02, 0xc77556fffafc8f55, 0xbab24c85e7a63572, 0x105e4a12836770bd],
    [0xb1b59794c8b117a8, 0x7f5e8a073810b28, 0xfd0780af3f99cbb7, 0x4b09e851bb6dbbf],
    [0x91ca57d21906d41, 0x12a2292202e67954, 0x2bfdd2589dd502a0, 0x2c8031907c10e1df],
    [0xf4f3f544f672d703, 0x6abd82fecb0ffaf, 0xaddcba291dd25539, 0x88a360cf4c5e26f],
    [0x6c178084cbb155f8, 0x2e84f146bbd57c56, 0xf95840b5651f3291, 0xe9e8d8ba62712e7],
    [0xe45e86c12c6f6fe2, 0x250d31d6011140e7, 0x42ec414759bdeca4, 0x38fbaea7dd737c6],
    [0x72c3d47bdbf461ab, 0x506c4901c52dbc27, 0xc18e516511b03d8, 0x96dea6e0d6411dd],
    [0x4fc6fdbcf38d7da1, 0x9f22e57ace3cd7f6, 0x80b0af133b9e436, 0x251e7fdf99591080],
    [0x9da9672d21f07037, 0x8c4ba9fa0679d288, 0x7b6b41ed7fbd527, 0x2d60fb66fb133b05],
    [0x2b60aebafb1efc7b, 0x1d2038a11969b3eb, 0x7799d5b50c8c582e, 0x2567f444cfdbbf4d],
    [0x6b0ca5e2c685bb2c, 0xad9b59e731c1ec4e, 0x11bc6cd9fb0bef62, 0x2401d941b4fafe33],
    [0x8eb7d9214fc8fae6, 0x12769f7040db4f09, 0x3ed4e6525da70a43, 0x2874774157928385],
    [0x442a4ea92bcb9743, 0x79e512cd70a15def, 0xf99500f20c4fb9d4, 0x1104899fde3f530c],
    [0xcfb37fa8a3a8764c, 0x34f6197a18505e3c, 0x977d4b3020db51b8, 0x4ddfde1b1aacb33],
    [0xce56c065e3cac8aa, 0xfe3b9af6a568194e, 0x4ccc3e50229220e, 0x2bfa6913d62c8aea],
    [0xf96ac156fa72a90e, 0xb3c9c09aac565d46, 0xcf25adcbd0550c2d, 0x5cb914ec7b72436],
    [0x4fc6fdbcf38d7da1, 0x9f22e57ace3cd7f6, 0x80b0af133b9e436, 0x251e7fdf99591080],
    [0xced3e0421b7077c, 0x49ab6faaddf5eb58, 0xdf4e5bbe377a3b76, 0x145dcc8a89ffd8fd],
    [0xaaf2e4bbc1f3e80b, 0xe3287f5de3897acd, 0x49718346cbd390db, 0x21f1b7c169a0744e],
    [0x4ff7caf4e6eaf6b4, 0xdd1165cce5f8f057, 0xba6bd062c803ced1, 0xeeae34b5e8e48d2],
    [0x29d5de89a8ff75e2, 0x4aed9b5d37f18150, 0xa12f37aa0434e01a, 0x2827170c30a7f570],
    [0xeaee36f59a4cee8a, 0x18328d6d0c89503, 0xaf526c8004597fbe, 0xe328161a29c0376],
    [0x4fa40055c8d978c6, 0x36778fef6644b868, 0x779f907e749603cb, 0xd6617ff29ac941a],
    [0xbd79801fa23094ba, 0x4d6a50257ab9c032, 0xef32109c064d251c, 0x169506e0877092fd],
    [0xf1a368004dc1742a, 0x4d7095b69758aaa9, 0x52294e8cbbcbf83b, 0x8c516740479e1a8],
    [0x4fc6fdbcf38d7da1, 0x9f22e57ace3cd7f6, 0x80b0af133b9e436, 0x251e7fdf99591080],
    [0x2f541ee4c0f2bcda, 0x7ec527df5deb6c00, 0x18a1aca1dfeacd7f, 0x281bcec4cbcefa9e],
    [0x685e3f34ff47b86c, 0x760410b68b77f694, 0x6d4c2619b87da0ce, 0x13ea58a6a82bf43f],
    [0xe44162656c36080b, 0xe2103006ac045566, 0x1e4180d59a78dd48, 0x1ed604569bf581c7],
    [0x317ed21a292abf6f, 0x758f98c5bca884e6, 0x272f10ea525e787c, 0x15d25d19f8fb93c9],
    [0x222bc72d1d8d1439, 0xa4f0c241e8607983, 0x4f370a122fc60daf, 0x1696701143abf579],
    [0x4a4a3780b109b50, 0x57a0476b77eba562, 0x6ffb53255487c1af, 0x1471c9bea5d88067],
    [0x1a27924b714cc00d, 0xb99817ffef481155, 0x34dcbdde64fd6ae8, 0x1ec18e953909ee6e],
    [0xf3fe5f08682c807f, 0x2f86e7ea44ee6d94, 0x1633229dd97f098a, 0x89ad915c65eb1cc],
    [0x4fc6fdbcf38d7da1, 0x9f22e57ace3cd7f6, 0x80b0af133b9e436, 0x251e7fdf99591080],
    [0x3313d251889a9d55, 0x809ce83671dd9a93, 0x7b12b42d68ab707d, 0x7e3bb22a5d8f51],
    [0x861ce061e3f38621, 0xd1a94e0412002d83, 0x9975ddf59d177aee, 0x142b4285cb7ac724],
    [0xa31c5d1da484ec43, 0x324caa4ef4052916, 0xef1e248f64c4d81e, 0x24839c6f8fade0c2],
    [0xc8f8c7c174c5a57e, 0x7846fcfa9289ae59, 0xf40955a3f4a19cf3, 0xac0879ac864dc7b],
    [0x31f01f3c6c1f8208, 0x1e2d110468762d3a, 0x192406deb4a37ea6, 0x44832eb1eb4ac43],
    [0xe6cbcb533f2dca2, 0x2089511c7ba58a31, 0x26e995d14c6f8aba, 0x2b3f948fb289860a],
    [0xe0f431a0b574681e, 0xc0a03de15e370b5b, 0x1f187c1b1eda2f48, 0x118bfa7e2d138630],
    [0x9b0135d4970c2349, 0x6ab59b85364c0c3c, 0x4d22e0fcb24553b9, 0x1399fb352bfce787],
    [0x4fc6fdbcf38d7da1, 0x9f22e57ace3cd7f6, 0x80b0af133b9e436, 0x251e7fdf99591080],
    [0x9b9ba651d737311, 0x95af8f615b76cbee, 0x286c5efcc9cf22d0, 0x2f25d0089300da1d],
    [0x14b988d99f141e3d, 0x742a7bed021c48f6, 0x992c7d05790c42cc, 0x84eaaf7a0b07cf4],
    [0x3f1e4b3f45dd1cec, 0xeb5be078155e58ac, 0x3c4d59504fa47c87, 0xcbb53527ad34cbd],
    [0x209097b1d22d26b4, 0xda3a42e2429322bc, 0xd3cc60741cbc21f6, 0x14e8e0d80d2af6ef],
    [0x6ede3f9da3172922, 0xdf2ad19fb71e067f, 0xb470a132191d2739, 0x149dc605f3ad39d4],
    [0x15b2088f12b9897, 0xd3b4b502047cb268, 0xa3e538172b8d5636, 0x1533cdda4fe346f0],
    [0xe8cca37839805c62, 0x330718bb901beedd, 0x4358160f3cd24a01, 0x1da21ab47505b1ed],
    [0xe8c8efc6ba721b18, 0xaba85c363deda16a, 0x96e121bda6bd3892, 0x130eee6229e63460],
    [0x4fc6fdbcf38d7da1, 0x9f22e57ace3cd7f6, 0x80b0af133b9e436, 0x251e7fdf99591080],
    [0x83061a915a6fbdeb, 0xf300df2416cdf04a, 0x702a76855510918e, 0x1d0669bb3cb83ad8],
    [0x7e8130967c95080d, 0x2e23179a0c23787b, 0x55417d499467b750, 0x113f0f0db6992670],
    [0xac16032499bada61, 0x66fd409507971fcb, 0x405a9c14282070ef, 0x28cd66f5e2046799],
    [0x17932821c1dc9502, 0xfa7741b776537260, 0x8c0cc9bc2c72a64a, 0x230173d8146362d2],
    [0xe423b2b3ab81c187, 0x37e1e7e8287b8abd, 0xf32366c35a7f2938, 0x4b23de911f3a1d3],
    [0x29a91b0ca994db04, 0x6178ba245cda76e4, 0xf977dba6d523ef1f, 0xd4bcdd5ff441637],
    [0x5a93a41e6f4d3e2d, 0x9b55558f33e0f864, 0x8603066321ce4821, 0x93bfbfaa8f3a871],
    [0x6b4ab709dfca551a, 0xd232e756ab34cbed, 0x54bfd0e91e62b5fc, 0x24e21e25f0b3d0e7],
    [0x4fc6fdbcf38d7da1, 0x9f22e57ace3cd7f6, 0x80b0af133b9e436, 0x251e7fdf99591080],
    [0xb82c8c644038303, 0x3d2ac0127b21640, 0x70a4411f57f9e74a, 0x146990fff0e10b8d],
    [0x90212f188ba4a87c, 0x37b7c689bdca187d, 0x5ba0671b0a34a4cb, 0x1ddaefaba77bcd9c],
    [0x6f5e3e5993ddaaaf, 0x3d9250fe47098095, 0xdcfc3d6682b0267e, 0xa7c37e8eab27e5e],
    [0x98dd24a510b8d6b5, 0x5d5170858121907, 0x74b35aa9d673878f, 0x2d81f6984b67d7cc],
    [0xfc79ae31ad04a349, 0x6664d8ae0c965bf0, 0x1338bbe98ed3c072, 0x7c46458e45e15ce],
    [0xa24ab09837b5d2da, 0xf3c987d5f162b6b0, 0xea0e62df8620df74, 0x16dd83567c7289d8],
    [0x9015ec4e34b29f1b, 0xf3ab5e8d73314613, 0xc535a83e7d709f80, 0x21819b9d78ef5e05],
    [0x288cd02834c0e44c, 0x7f918a2e179e6c7, 0xf39a6a32149b543, 0x2340a29e4e4d4e92],
    [0x4fc6fdbcf38d7da1, 0x9f22e57ace3cd7f6, 0x80b0af133b9e436, 0x251e7fdf99591080],
    [0xb0a886af86d64305, 0xb36abc3d967b20e9, 0xc9fbbee28972453, 0x1ced784118aac988],
    [0xa139252338a3ea5a, 0xc6c9173f7a258f4e, 0x4b30cad5a3cebfe2, 0x237848c6b0c87f79],
    [0x7a77751813c8abb4, 0xd703b1721fcf73b1, 0xee04b355abe2fad8, 0x27c636aa956756d9],
    [0xa213f8fabd142d09, 0x6ae340eff9ac0821, 0xd43bd3950c00f81d, 0x1b40358386698e21],
    [0x96f8c037bf52145b, 0xedfcdaea2dfbe065, 0xa7188ab9bd8072f0, 0x695487b95b15fed],
    [0x96145d898dbf3220, 0x4e2bb1e7fd3615cc, 0xf22a80c252ba12b2, 0x1df336831b6745c8],
    [0xd92e79a1165e58f5, 0xd59986c55377a82a, 0xc19f021b71fcb1ab, 0x264b7a66fcd41995],
    [0x14d75a886a1a42bc, 0xb39f78b13c9d150a, 0x4aacda9868250ca3, 0x208defb2122d5322],
    [0x4fc6fdbcf38d7da1, 0x9f22e57ace3cd7f6, 0x80b0af133b9e436, 0x251e7fdf99591080],
    [0xc17a7fd224a48a13, 0xca6c0d2706b2a17e, 0x841cd804a211151, 0x1627fe11fe92ca5b],
    [0x112b15a93459627e, 0x738eae7232e365df, 0x88ec73c257cacba9, 0xd483b82a1ed0d67],
    [0x47116d5cbd34f9fc, 0xfc37d71db5e9ffd2, 0x3f902459851afb3c, 0x24c490612a1636b4],
];

/// Part 1 of the sparse partial-round rows for width 5, as little-endian limbs.
pub const S_DATA_1: [[u64; 4]; 256] = [
    [0x4768548346c8593f, 0xcf195104459a9108, 0x56307066141837d5, 0x2f2d08c8cab748b0],
    [0x8fa79a92e84790f, 0x1698954c8f300af7, 0x6b0c097a03de01ac, 0x42d3a4f87d78232],
    [0xc563876f92e4c62c, 0xcfae3193e8f7e16e, 0x1593d253ecc7a12f, 0x2b064fb3fabe9deb],
    [0x3ce6c0a532628e5a, 0x1e21748554dcb761, 0xa201655ef3891a48, 0x22b8060d8bd295c3],
    [0x711db72a545503a, 0x2c8a9d4d463b27f, 0x67aa96af20059f0b, 0x1526148f85ce6106],
    [0x4fc6fdbcf38d7da1, 0x9f22e57ace3cd7f6, 0x80b0af133b9e436, 0x251e7fdf99591080],
    [0x3388f60b4e180986, 0x93db48c414f967d5, 0x671d376e499cd793, 0x12d2a42d255875bd],
    [0xc01991c81c0e2669, 0xc211a3504a8de66a, 0xdf2eb09ed595e2f2, 0x22d0f27c6767b64a],
    [0xb5eca3fde587dc91, 0x913375db065ed255, 0x9b571248a9a994ea, 0x1fbcdf3ca6f2e073],
    [0xcff21deae9a70e40, 0xa7c3fb44a110c4d7, 0xc700cbea0d8f527, 0x402b7640d18feac],
    [0x8a31b0dee0c68206, 0xf99f231ddccc779, 0xc3888f1ece7cce4e, 0x27f6c76f1b519e71],
    [0xd12df08b53d963ff, 0x8716d0eb50017aa7, 0xd8e3b0c09f5c0fd5, 0x2fe908cd208699c9],
    [0x7bac604c177fcffc, 0xb3cf8eb3fe3f495, 0x21afccf1610aa5fb, 0x1922a59ac83c1e28],
    [0x5068607250ea0ac0, 0xa0f85ec5abbde6f8, 0x4a05919034b8a7f9, 0x126fc5609db3cb25],
    [0x4fc6fdbcf38d7da1, 0x9f22e57ace3cd7f6, 0x80b0af133b9e436, 0x251e7fdf99591080],
    [0xb6b7017643b6c28c, 0x8651bb6f5c80f750, 0xe954d69f5bf8f683, 0x28db35e17bb31e5b],
    [0xbd4ecd2baf40b384, 0x3e1537761d874102, 0x728c5e09454535a3, 0x26dd684288015065],
    [0x7e8485311cab159d, 0xfc4b220d3aaa346c, 0x7090e45df74981b4, 0x1895d33a312becc1],
    [0x509c404048b7b5aa, 0x9c12c5622d0ecc5a, 0xd007a92a7c4d88bd, 0x28bff25eb0f2a5c6],
    [0xaf67b31e845c976e, 0xc9efc0a1be738453, 0xd49556f3a6bf0739, 0x130136f07c7e09ac],
    [0x307a6d6075714ede, 0x93f989fb3e5698e7, 0xdadf3d6b64eb654, 0x259c455761e6b642],
    [0xa133bd697f618929, 0x45eef54405ed2cfa, 0x2006c7529eb1e8f, 0x1c9ac464fb08828d],
    [0x77148f3d046dd180, 0x7607dd732e71c050, 0xda7b24719d35018f, 0x60abe65207efd0f],
    [0x4fc6fdbcf38d7da1, 0x9f22e57ace3cd7f6, 0x80b0af133b9e436, 0x251e7fdf99591080],
    [0x6ec2f500ef42b000, 0xa3e6e521b85a8900, 0x8969667071926905, 0x2a41f347b5f6eebe],
    [0xe787edc5a94db63b, 0x6a68b94e3f870501, 0x31bce340ffeb5a3b, 0x17840fa3a1801777],
    [0xd89005a688d9b18, 0x430fba680a5a5059, 0x8eadb0e2f2cf6b16, 0x161ec94c3f624f92],
    [0x30866e1bca6e2cc5, 0x6b06e2701ce99b76, 0x5b773c3a548fbb28, 0x22d8be171b4571fb],
    [0x3a9feef2fecfb978, 0x3db8edd220f90b0, 0x5380aaea9b06e76f, 0x52464c9c7ad1452],
    [0x1b157d92c3cf4746, 0x90f7be5a95a22c8e, 0xa0404d8b0593879c, 0xbdee83b20d91ff9],
    [0xc89cc42b61717302, 0xad51a4e1051f41f1, 0x2d8f246123b8e631, 0x2d84235b4f4e0426],
    [0x367ce7963cf93d86, 0x85e519266c4627b1, 0x64e2971cc6a7c1a5, 0x3d6b62f816bc4b4],
    [0x4fc6fdbcf38d7da1, 0x9f22e57ace3cd7f6, 0x80b0af133b9e436, 0x251e7fdf99591080],
    [0xe9083a022d27692, 0xf98f670bdbb847ec, 0xb3ed958d3aac8d09, 0x16caff6fcc165168],
    [0x6e966db45fc067d4, 0xf6de4bee730cd467, 0xbf76ef7e06c81adf, 0x2cd4beaac59c5306],
    [0xeeec58177ce8608b, 0x23ecc5afa92c0ec9, 0xffeda3782fc7a826, 0x1b11abd8ee736830],
    [0xbc870ec8cbe93cee, 0xd513af20d4705435, 0xc9e10a22f6b781f, 0x2c80d3430e64bf85],
    [0x4d4449e8f83bd015, 0x454aa77a5055ebfc, 0xc9fc2d0e49fef7a2, 0x2d2f20d2ec0e52ee],
    [0xc524b19de646e0b0, 0x96370ee2a4ed459e, 0x4edae4f7dfe6137e, 0x1e51c55a8d7a04be],
    [0xbd25659790738f43, 0x3992ec72d459760b, 0xc8f97e36ebb5be1d, 0x13d4327afa809e26],
    [0x25e1f43a755e6b81, 0xbdb9dcc3a79b44fd, 0xe8a967920376793d, 0x176222f47d8c0ff9],
    [0x4fc6fdbcf38d7da1, 0x9f22e57ace3cd7f6, 0x80b0af133b9e436, 0x251e7fdf99591080],
    [0x7d03b1cfcdd6adfc, 0x9336a197fdd30c6b, 0x8012ede93db828e6, 0x5193cbcb59713c7],
    [0x7f8661504a457c69, 0xae9f8c6024285165, 0xf2545cba9f717d2e, 0x2bbe660fd34f6ac3],
    [0x3c857b2293333c3b, 0xa121c451f13e48ab, 0x8483406e6cd62aaf, 0x1fe59c3d2724f415],
    [0xbde31fef7f4f91a7, 0x1eb864524003add0, 0x1de45c9769ebad07, 0x249c893f9de20860],
    [0xf786a25ac1a5fe96, 0xda26b0fa8639005f, 0xdbb929b69b24751, 0xc20c4a12bbd772e],
    [0xb174fc5ed95ce55b, 0xf7d513d8954f31df, 0x26ceb3a3065a487c, 0x1a0750fb1d27bcb3],
    [0xadfaefc91d409cad, 0x67fb6814677b262a, 0x2eea997d45ec4f05, 0x16d40c0ba7a7aa23],
    [0x8b16f851cebca736, 0xdb40ccd65bf65d10, 0xc8721aaf1c717190, 0x25ccf860fc7237c],
    [0x4fc6fdbcf38d7da1, 0x9f22e57ace3cd7f6, 0x80b0af133b9e436, 0x251e7fdf99591080],
    [0x9ef991ba214e6f67, 0xc1e82452c986ae59, 0x68ffffa63979c900, 0x1a25b1a6b81926e9],
    [0xddcfec1ca72df25e, 0x55f101c701d32bef, 0x6151bd0b68c31399, 0x2b344bbb50400ea7],
    [0x2f10838bb9ffd1e5, 0x1d01037fe223412e, 0xf9ca7ee28cc38d16, 0x1044e69af594eca5],
    [0x3dbf8d02843ab2c7, 0x609bb8314bce27b0, 0xee3388f107ccc27, 0x1145f6f783af7d1e],
    [0x6ddff0ffe3a3bc4b, 0x9d14de64a3aa2593, 0x20318b0bbfbc9a, 0x20ed7009a6093b16],
    [0xb79c229327be7627, 0xe60a6def592f423b, 0xe95c1508e1c7852f, 0x24cc5ed4ff9d84fc],
    [0x53587b772f1c830c, 0x58ada1511719c769, 0xa9c0c312afe54b51, 0x1fc31b0e67cdf9ef],
    [0x95b739e017081259, 0xaeccbdf7cc901553, 0xc6d30fc804d068f, 0x1faf997032cbbadc],
    [0x4fc6fdbcf38d7da1, 0x9f22e57ace3cd7f6, 0x80b0af133b9e436, 0x251e7fdf99591080],
    [0x1bdecb6201d9651e, 0x13cf9adfe864613c, 0x8f9b9a41af6fbcd0, 0x1197c402e5f0a49c],
    [0x2db653afc6d0deb4, 0x8e1a2184a4302012, 0x23c7d4d8a3eec4aa, 0x3025d698462f4cf],
    [0xeb7a247d5a960cc9, 0x5f1910542f35c608, 0x2052ab586f804ec1, 0xecd1d402fafa360],
    [0xb3d7f8acae6975b8, 0x2d00c62c131144f7, 0xb429d4e962cc3c2a, 0x30021619d0c0b402],
    [0x4e71bad0cf34b27d, 0xde15c316aaca4772, 0x9dc4f5faf21c506c, 0x2bcd05e889bf0fcd],
    [0xdb0e7085ca46b460, 0x8cd05ae8fe52e040, 0xb40d9c1ffa06a5e, 0x1b890b4097a78190],
    [0xb21ab35622242e48, 0x8cd5e5edec1b7da6, 0x4310b27946809321, 0x8081b53a974ee26],
    [0x14899a4cf4be3b2a, 0xac611fc723e8d8a, 0xfca5b164e6c07ab4, 0xe6632e8ec976ce],
    [0x4fc6fdbcf38d7da1, 0x9f22e57ace3cd7f6, 0x80b0af133b9e436, 0x251e7fdf99591080],
    [0x91e73823a82f4f76, 0xbfe259ac17f6793c, 0x6f6a851ecdb21bff, 0x63a3f8dea9d024a],
    [0x9c4c0626274692a0, 0xf8e929bcdac96cc0, 0x8e75baab9990f663, 0x23b2c6ec9af5d018],
    [0xe9f215658ad128cc, 0xbe01425190d50d56, 0x395c602113f1607f, 0x9a41c06730fe53d],
    [0x9c01dc50d8aa1d6c, 0x6602455a71bc7e9c, 0x9345a0ffecc159e7, 0x16571048fa92024a],
    [0xb507161b049eadf6, 0x2ce77bc126e4d17d, 0x878b3d3b4c74995e, 0x2a5a7e76dc76ad78],
    [0xaf45607f98fb18eb, 0x89c87600727e7593, 0x85d81c1c01e3f879, 0xa23738e129c11b2],
    [0x696ebe9c2732a1ff, 0xa227e98fc3ed24e7, 0xa0922c4738e81dfb, 0x2ce8d6eeaf4d6c7c],
    [0x98de2389123178a5, 0x5d28021caf5fb28, 0xcee5175f5e2a2cc2, 0x22e3bfb13d10368],
    [0x4fc6fdbcf38d7da1, 0x9f22e57ace3cd7f6, 0x80b0af133b9e436, 0x251e7fdf99591080],
    [0x5a976036eef8c4b7, 0xbff7d8c85d3c7b99, 0x4ee8e90ec30a1d8c, 0x66c43e71903c5b7],
    [0x821e6da8d91570a, 0xf6c2e6fb7e292884, 0xdd3d08f4e783a5f, 0x2fe5dfcdc9335f0c],
    [0x50d0228418428300, 0x67d9d71a1cb60a4f, 0x7a24c11ce718f211, 0x9accce03257f96],
    [0x76b961bfbfb67291, 0x7858438a00e793fe, 0x2dc64549c505721a, 0x224e2a85316b67bf],
    [0xc28af420c2ffffe0, 0x991c0d2c9360a5cf, 0x1cdb12a334509e0a, 0x29f1447b45128f5c],
    [0x1a15dcc7b8b34abf, 0xeb5bec4b257a7706, 0xcb647f566ebcf2f2, 0x1301ae5665bd3e87],
    [0x6019f3c9398ba4f, 0x5a6825867d0cdd2b, 0x69b1ca585c713542, 0xfc6599ea957e02f],
    [0xef323be1ba9c724e, 0xd5f5b1caa339c41a, 0xbd87d7b0d8290dc, 0x22e91a30a945b96],
    [0x4fc6fdbcf38d7da1, 0x9f22e57ace3cd7f6, 0x80b0af133b9e436, 0x251e7fdf99591080],
    [0xa9233b7edddd1d24, 0xc7a8149ba9e9baec, 0xaa469e0f9a8cc3d8, 0x1c7c359c26eab655],
    [0xeae3274a19cef175, 0xdb1988504765eb4a, 0x828eaea1f252625, 0x1ddf651a5d396b68],
    [0xc754574739159385, 0xc0056c2e090a90ac, 0x98d3fdd6bab09213, 0xab486e3e737f408],
    [0x782e769fd17e0028, 0x7b45f536739fc9cc, 0x3ddd08b576951bd4, 0xd0b817b8995913e],
    [0x3a040c2acb464974, 0xaa58672f8382745e, 0x47928376fcd79dd5, 0x13471abd3a251609],
    [0x6580371ee4ba38c4, 0x9a7477110d9a7fb5, 0x296b1838e527022, 0x7bff672e50ff1f2],
    [0x4386f16f7f4b32bd, 0xcb9a3bb61b07b3e3, 0xc8a0f54c3a35ad51, 0x23f91ef1b8182e80],
    [0x31813e7b70607ec5, 0x5998cb5a8c15446d, 0x42e50b66557532cc, 0x16c390b3fdf09c6c],
    [0x4fc6fdbcf38d7da1, 0x9f22e57ace3cd7f6, 0x80b0af133b9e436, 0x251e7fdf99591080],
    [0xb5dbb89f677cd296, 0xfc03ebfb9bdb09a0, 0x60d44e46029a5b04, 0x1976d21aee74f79c],
    [0xf513656eb0a0cfb2, 0x8dde68919cd991bd, 0xbc12dc72af3c8485, 0x56e7cdc08bff8d8],
    [0xb7577f5d42bfa85e, 0xfdcf961215ba06f2, 0xaab7531de2f12da4, 0x22b7992d7c0ed349],
    [0x366d081ab65ae95a, 0x3faba9d6458d16bd, 0xd4e2d585ea5968b, 0x10f97fcc757a0d6d],
    [0xa3884a051ac001a2, 0xeed8c95b73567fec, 0x6e65b568653a398a, 0x21bc046c3d727baf],
    [0xd39ead3cdf738491, 0x2eedbb3da05cda25, 0x71723e071c989606, 0xe757fd0b77219a7],
    [0x36ea04c19cce4f4a, 0xabf91605ba686af, 0x12f326f3d03e97d3, 0x1ed536c497ff36f6],
    [0xb31e4734a679bd67, 0x4a08e5a39a468c78, 0xed6fd566034240e6, 0x2491340ecfed3f98],
    [0x4fc6fdbcf38d7da1, 0x9f22e57ace3cd7f6, 0x80b0af133b9e436, 0x251e7fdf99591080],
    [0x530a2e8fcb66103f, 0x3f7bd667dcaeec35, 0x32674a08616b36c3, 0x144b73c6f361a4c2],
    [0x2cbf8a932144d27b, 0xfb2dab9733207304, 0x840ba5fa161cbfb2, 0xb244143540a248],
    [0x4ef7782f64ea4e12, 0x9543bbad397d7cfb, 0xf5a9dbd69f82f743, 0xb5bedd8122560ca],
    [0xc99b4287c528a67, 0x2a88e7f871ca5d72, 0x80b28eb2735e221c, 0x1386c7e88c5c0bf8],
    [0xedccbfc3d381c9ba, 0xc828f20dd7d07611, 0xb0a6d6450b56cabf, 0x277164cdc5187613],
    [0x4b0f2a1657d41f13, 0x212aec4a193015b9, 0xea8f96e731dfa610, 0x16bc97ee1ac4b1c],
    [0x9693b56b047b3480, 0x8a3dc80f57379add, 0xaf9951c20a6aace0, 0xb341e4361f31734],
    [0xee4ae7a153fe1dbf, 0xc0406642c669c32d, 0x2df997994261e665, 0x263a060ba49fe486],
    [0x4fc6fdbcf38d7da1, 0x9f22e57ace3cd7f6, 0x80b0af133b9e436, 0x251e7fdf99591080],
    [0xeeff21d1aa047eb8, 0x3424d3686d79e36f, 0xad0aacb576fd95b2, 0xdf811b70cab32c0],
    [0x8d2c935a6084eced, 0xa70c0945c6759c4f, 0x7d662b4cf09e93dc, 0xafae979e41c0cf],
    [0x1131435152115e5f, 0x74b3df8236be9234, 0x3213efe9cdb60445, 0x21ae12f1dbb152c3],
    [0xa37c0eab6bcbe468, 0xf7d883f9e4503ad6, 0x9f77c28ce89d58ca, 0x272fd8955a7524a0],
    [0xc6d5e9dae8178fa6, 0x83f409d60d798242, 0xd23ac7beb8152268, 0x3712cabfab0f6f3],
    [0x74335405c18b154f, 0xf174b3b3dbc1acd7, 0xba93dc7d00594ea2, 0x15bc41d746b14885],
    [0xbb2e25b054a52962, 0xc1f1cb80938f0798, 0xbe1c1ebd2dbed077, 0x9dded6d75c33754],
    [0x659d52edff60d227, 0x351d80c4ed50139a, 0x8d7ae825a6d7758e, 0x1d9fd7f273e141e4],
    [0x4fc6fdbcf38d7da1, 0x9f22e57ace3cd7f6, 0x80b0af133b9e436, 0x251e7fdf99591080],
    [0x3c34fe599429e1f2, 0xb5e9048c2f127322, 0xd6e0f2e3d1b6b2eb, 0xca2cbfed626671],
    [0x784fe5cc2326fca1, 0xab36b80e4e97500d, 0x858166710da5d764, 0x1e9bb2efac004014],
    [0x22dbed85bc8a8ada, 0x67f498f92bac69d6, 0xd566eb0d9096c4b2, 0x23f8af81b77d2f06],
    [0xc4bbe48e8bd37811, 0x402e02d1980c3219, 0x1b3865d830809b7f, 0x11546811642965c7],
    [0x28cba02adeaf9c51, 0x692de6ee063f402c, 0x1ac1e14867c05d88, 0x2b872c434320ac52],
    [0x80dca53cd4ba5a94, 0x93f9a5d8db6c846d, 0x613cd83ea35fc15, 0x1f80e8d09a04ffb2],
    [0xc0a158b59684ac70, 0x194dd595e9e873e8, 0x1a2b97908f375ca0, 0x117c4e17071565b5],
    [0xde3d093d476f08a4, 0xe74245d5a1e6fce5, 0x5f7cd04dd5c58f63, 0x14da94b9be3adb3c],
    [0x4fc6fdbcf38d7da1, 0x9f22e57ace3cd7f6, 0x80b0af133b9e436, 0x251e7fdf99591080],
    [0x848d4b654e9ce670, 0xebb0d2edb19c7b24, 0x762078d5132db23f, 0x2ac96264771dd5b1],
    [0xa51e2b017dd63830, 0x9602604b15d620c7, 0xb11d0c7a1dc85c90, 0x5a23e8be5fe8e01],
    [0xec0b1d27f5dd7ece, 0x8d874d83a98478cb, 0xc68ba2b30c12c581, 0x172623676d3d38b2],
    [0xd1615a845481de7b, 0x1ca2d51bce083fae, 0x9691580805b89037, 0xb632ee1e8730d50],
    [0x9b46ea45749203ce, 0x5a2f5e72edd2b625, 0x73e1a095231c1090, 0x2a220ef566e4d543],
    [0xc41b2708cc333dc8, 0x389357bd857cb638, 0x8298d52260b4ebae, 0x2ebf4340ee05460d],
    [0x3a02b7410f7f8275, 0x6dd7545bf534adc7, 0x6d2e7906ffe4f42e, 0x27e873b175091636],
    [0x4765711f3f5ad52e, 0xa39992a90447f100, 0x13ce42ff200e46df, 0x1ee70cb51ad6da45],
    [0x4fc6fdbcf38d7da1, 0x9f22e57ace3cd7f6, 0x80b0af133b9e436, 0x251e7fdf99591080],
    [0xbf027bcfa555f8af, 0xc6c19dfeb98d6d14, 0x4a98956e30ad0043, 0x1021282efc84669e],
    [0xbe613e47274b73c3, 0x661225414a975a59, 0x77162d70faeb398d, 0x1f1c2e424bdeadd2],
    [0x4b8cc4e1d50bb21b, 0xe61981cd54f6e586, 0xbf268130070e89b1, 0x1a71e415abc5ccd5],
    [0xc57825067214dbb6, 0xc91f8f88b2823da7, 0xa7bd0a2c6d6105e5, 0x29799820e28bb9c0],
    [0xa1048e9515e31db, 0x7b22870afa6cb23, 0x473606c81a6bd5c8, 0x17377cb0195b95b],
    [0xfc7b75935ef41251, 0x3b4117ff1fc50d09, 0x5e7bbd907ebeb855, 0x2f73cf9f22e0431d],
    [0x3a4bac0ad664719c, 0xfd27fdc21b2187fe, 0x60bd31fb993e7bb3, 0x19cd57e77a993282],
    [0x292c01c304012713, 0x7abede20ae3a94a0, 0x568d9197d0df40d0, 0xd5ff1b6b5f33d6d],
    [0x4fc6fdbcf38d7da1, 0x9f22e57ace3cd7f6, 0x80b0af133b9e436, 0x251e7fdf99591080],
    [0x5e099d95331d61b0, 0xbaab5f59d834ba00, 0xaf0773fc0e025f86, 0x26c7615e04be2355],
    [0xe6ee6c319739c2f5, 0xb8d279e4864d966c, 0xe3279f2d4990926f, 0x170ea6732c6d1b2c],
    [0x772f02ba395fdc8c, 0xbc5e6ab40ff0afc1, 0xfb0b9a9d677bad1b, 0x2f870269a506f351],
    [0xe5f6398aa83e97c2, 0x76e1e49f847f16ed, 0x92bd4b8d8a1b9baa, 0x11986790a1cc239c],
    [0xb90eb1008219239f, 0x1d2a2c5a79ed6e5b, 0x43ff590621941b22, 0x2510c2e5a39cd6c2],
    [0x7d3785333fa03dcd, 0xb8b0aa96d3d5cc9e, 0x3a7e151338699af0, 0x1ba5c05a828609b9],
    [0x4fc7586b97b5fbda, 0x90010b9cb1993355, 0xdc3868ac1c47363d, 0x8648c03bd03b5f4],
    [0x5be291f55d496cb7, 0xfc488697c71d9213, 0x8f66ad58d65f09e5, 0x69d0c72c588061],
    [0x4fc6fdbcf38d7da1, 0x9f22e57ace3cd7f6, 0x80b0af133b9e436, 0x251e7fdf99591080],
    [0xe07c4554184f462a, 0x51b05eebff9af71, 0xd0ea47c1d56965a9, 0x91acb34aa0d03af],
    [0xfefc927e17cf5336, 0x99b6e99bd23505a8, 0x6d9676fe058565eb, 0x2b3f75e8ca711877],
    [0x64ee440a439fcbaa, 0x94b2400f9027ce1e, 0xdcf35384c0dce874, 0x16d9ae82c0073fe1],
    [0xd84c863c322e8057, 0xa0ea671a1020278a, 0xf3027ad8f3c24fa1, 0x2a11becd9333eb48],
    [0xc57214f00a6a9d90, 0xc178e8639689aa6, 0xcffd9d3ba84aaf6a, 0xd569be295d5e44c],
    [0xaaaa0bb44dbef48, 0xfd237aae9b62e233, 0x5eb136eccc63e2d7, 0xa66025e45040fd4],
    [0xa047b6cabdd29e42, 0x6997b68dc02065f6, 0xfd725d952d3c529b, 0x2cda68234c7e22d8],
    [0xc7ea547e9ad23650, 0x5ebc81444ed12e82, 0xf56af02ced5a6b14, 0x1f9ab3e8029afc72],
    [0x4fc6fdbcf38d7da1, 0x9f22e57ace3cd7f6, 0x80b0af133b9e436, 0x251e7fdf99591080],
    [0x5c0b3493b73c7138, 0xdb5caf3c53a66921, 0xf5e82c2a60a008b3, 0x18a2e32bb69277e0],
    [0x53be707470746fbf, 0xe5b4f412f94a1eb1, 0xd4ddc83f26ada461, 0x224c4f2e98b4fa10],
    [0x9a1e7e326c4b0f4e, 0xa609e8135c0781ac, 0xadd1b123a6f6c100, 0x1b2a8787e954d981],
    [0xb7beee769a058622, 0xd396d36de9f70589, 0x5dfc0b2dc9891091, 0x2da288c34f32d86d],
    [0xe87b27eda7f20180, 0xb8b64dcb47674290, 0x3e0f83eb60f2d476, 0x2e24d351b0d0e94f],
    [0x9508a31830dce9d7, 0x45db2c6d85382f95, 0xe82aec1ff6ee8094, 0x14af016f9da2f982],
    [0xcda08824bc9cdf9e, 0xc2135b51ec4547eb, 0xa54cbad523032180, 0x91aeac9bde9ce64],
    [0x6f23affd6d845dd3, 0xaa1adda97f5716d7, 0xc17f63f749b7047e, 0xcaa07eac62d9f07],
    [0x4fc6fdbcf38d7da1, 0x9f22e57ace3cd7f6, 0x80b0af133b9e436, 0x251e7fdf99591080],
    [0x8ad50dd2928ed42, 0x2fdccac121ca787b, 0xd7ada3e01c4bbf45, 0x554f06e31b164d9],
    [0x68390b01d176601, 0x624359067a0f6385, 0x30bf126dc420158a, 0xbf8f8d7702b1e88],
    [0xc9ac2a2887e8690c, 0x34ee29f0649af4dc, 0xe4f99bf63c065ed9, 0x1604d181baf488dc],
    [0x8f172dd9bffdae43, 0xc0795cdfab82df33, 0xd4ddce72d31c8e91, 0xac951e2944f7532],
    [0x146ed5d5a1d1e9f3, 0xfbea3b66b0c9d119, 0x2bdc3425c2b83e24, 0x24d53d9f665348c1],
    [0x3a72a118f56e2da3, 0xe3e3d855852e0e11, 0xe93f2ac2e60b9909, 0x1ee01a89a7ebc6b8],
    [0x763cb6c883059938, 0xc90a85956a7f2a1f, 0x231bb7c208e5b7c2, 0x2b78c3171a3c8ec6],
    [0x8e2b402cc0d617e1, 0x12312494329be76c, 0x61696fc7e4a39387, 0x7ca1e306d907874],
    [0x4fc6fdbcf38d7da1, 0x9f22e57ace3cd7f6, 0x80b0af133b9e436, 0x251e7fdf99591080],
    [0xc04f5ef85b464784, 0x1562f6fc631bb236, 0x79ac3cefeea663f5, 0x1febc25f88aab921],
    [0x470ad8ccef1b28fd, 0x15933a6bdba5c2de, 0xa34da94414fdfa44, 0x1b1b065eb60dbd39],
    [0xe84d941b5f7d352a, 0x898f34bdce41420, 0x3ac4f80c0ffb87d, 0x60fcebd24cc085],
    [0x3954c5ed496ae165, 0x3edbcb3f01105f19, 0xa66d83fc5aafab7d, 0x2a7b16d282447357],
    [0xca12b11ce46678b5, 0x1217493f948bf6e, 0x6ef53921ae0436ab, 0xac39f59e76b9e29],
    [0x7e208f9aeaedfc26, 0x8bbd93d34b0f4c63, 0x3784a8966f1f62b6, 0x90b38aaae1df187],
    [0x31a7dd44b7135eb8, 0x5760143501e0f21e, 0x40ed5674747b9e3d, 0x1ba601baf813cb2d],
    [0xba9ef760b7365d5d, 0x82cb7b4e161accd1, 0x9ae5ca72c1332bc8, 0x17695ec6204f1005],
    [0x4fc6fdbcf38d7da1, 0x9f22e57ace3cd7f6, 0x80b0af133b9e436, 0x251e7fdf99591080],
    [0x83bc737245c5a469, 0xb64d1e09e6c69fa5, 0xa78e664dc5308da0, 0xab5930a06bb6b9],
    [0x2f97fee43bc4e2b, 0xe0e8f79c14305668, 0xfba600dc70d2790c, 0x16ab9a5de48bf089],
    [0x30c5ec846f42ae5e, 0x5a5f465e15ad2679, 0x75462dfad73927bf, 0x75df7d5cdb7ccc1],
    [0xa45b5092f08d48ed, 0xc28a4a2b21e3990a, 0x279585aeaa432b5, 0x23e4a7be74d0f093],
    [0xcffa1c495af98c25, 0x5227e66d74e2dc66, 0xd378279e60b276b9, 0x298795a8af97b8b3],
    [0x21b1e96adc5eeda7, 0xf2c90e41cdbefc27, 0x4acd91c65906bf75, 0x133d1455b6ea278f],
    [0xce55aa2ad5ff3502, 0xc72d436ed464e2b8, 0xc6a1745b71aca7ba, 0x24b722af1967cdda],
    [0x634804b23acfac2b, 0xb42780c9c98a51ff, 0xf6775a537a4b04c6, 0x276cb6e59cf4a06f],
    [0x4fc6fdbcf38d7da1, 0x9f22e57ace3cd7f6, 0x80b0af133b9e436, 0x251e7fdf99591080],
    [0xd192de01485dce3e, 0x9d1519149139b1c, 0xff4d292c18632c9, 0x1044b0ed6b39096c],
    [0xef8e30936ecdb03a, 0x9d7dea98e9ad2686, 0x34cb17a8cb532f88, 0x2dc918abffffceeb],
    [0xbe6a280fbd4aa465, 0xcd187d2ee126fac5, 0x90ad8b3d897541e, 0x2a5030937ec5690d],
    [0xcb6e4b24a8826037, 0xdbd3370aab933ccf, 0x10e0fdd445ee840, 0x16961c105f85925],
    [0x640d3c5a4a3e8770, 0x79ecdfdd25a32c2a, 0x42707dfbabec1d9f, 0x17262da0f8e41b6c],
    [0x172eb65951c6a345, 0xdbc6fe4f66b07a74, 0xc7c5e8cb06de7a0a, 0x59935903a135cff],
    [0x5d2559a27b3bff8, 0xca4e448e60f29736, 0xfabf025e3d19db3c, 0x1ea2228bc5f09dad],
    [0x64ba323f4165d5ed, 0x857a01c42c86f4e2, 0xebd3760ddc81e1f5, 0x1e35c4737f19de2d],
    [0x4fc6fdbcf38d7da1, 0x9f22e57ace3cd7f6, 0x80b0af133b9e436, 0x251e7fdf99591080],
    [0x9cd1e0c3a1144dd8, 0xd242ecdfbd363527, 0x58a7e29cbfe20d0, 0x5958875cfb17091],
    [0x1a924387139033dd, 0xb3dcdf2c2b087073, 0xc18d2a5b03d7b58e, 0x19fd165b2741329d],
    [0xdef9ad9825be5887, 0x93716d023d116356, 0x3c61577504cdc684, 0x11cea37538680120],
    [0xb42c52e9205ed13a, 0xa82f7e080a0d4bc1, 0xb40e44e28ee0b017, 0x2e911408231ad83a],
    [0xc1ad8ba0e51f179a, 0x540c91b59b288df6, 0x393b703a7dd94df0, 0x9d3f08c1d2cd4de],
    [0xbe28c80cddb29a50, 0x8b953070c08c1ae9, 0xfb4b20ec11e083a8, 0xd8bac92c12807a3],
    [0x80c14972bc68b84e, 0x55a1009ae9ce983b, 0xadd8e7d2de8096cb, 0x22829b774491c0e3],
    [0xd15db232557c621, 0xca7e2ee2dbdb5e9a, 0xb2f534955aef3d09, 0x2aec91a87a1731f6],
    [0x4fc6fdbcf38d7da1, 0x9f22e57ace3cd7f6, 0x80b0af133b9e436, 0x251e7fdf99591080],
    [0xe495c62b81655f9e, 0x153fcfeca0517410, 0xfbafd7270951cfef, 0x281ec503552e6778],
    [0xebee97577178bcf1, 0x4392af147ca8b528, 0x3943856c28e0dceb, 0x98a3183f2ee1897],
    [0xdcd06de598c6c29e, 0x1e6d6c68e5ef3171, 0x7808b643ed37bad3, 0x794a78e51b51af0],
    [0xe9774daaea42fce9, 0x7a3bedfa233f98da, 0x1f985287e637e798, 0x214a19348cd7cc8b],
    [0xa7d5a6f520683ca4, 0xa02fce56102928ce, 0x8597bda6395bd25b, 0x130acc584954a904],
    [0x51b03e80aa258243, 0xd6da212a1d1ccb2a, 0xcf72d8e91f5419ff, 0x1d09e1227434a4b],
    [0x4f6dc84c961b19a6, 0x7faf326271d0e2cd, 0xd83847f03dd24200, 0x127397f2b156ba00],
    [0x4694f853e7197e47, 0xf17e533e8f560d84, 0xf181e0d7b26c33cf, 0x971a3d373d35db8],
    [0x4fc6fdbcf38d7da1, 0x9f22e57ace3cd7f6, 0x80b0af133b9e436, 0x251e7fdf99591080],
    [0xd09d1976d9dc6dd6, 0xdcf9c781e258a2da, 0x3c1cc240ce83c44e, 0x241c8bcc463ac96e],
    [0x8851092a75ae6e0e, 0x7986dcde7bfd3473, 0x99f458897aa340e5, 0x1a0b489baf0a1825],
    [0xd457d596442e443e, 0xe94904a8ec4d4445, 0xfe52d15c51dbd571, 0x102c886ce6381276],
    [0x88349c2eee473f6b, 0x40f122c0e5ac2025, 0xcaac00cd43dde749, 0x289f8a46d6792691],
    [0x304ba62afc55f5ec, 0x594c10b0533afde3, 0xf23f809f6e431511, 0x2ed1721123242c33],
    [0xace287cc20dd9e84, 0xe772b0f817098ad, 0x90a39929af490190, 0xc730a9beb7b64f0],
    [0x2c40c27d0754b912, 0x4060ff6c4190b2a2, 0xf5049f8d9d682d6f, 0x480eb2f48521f46],
    [0x7d8f2805db1e5066, 0x763cd48de6dfe21d, 0x23ffe2c8571a8cd1, 0x221d30bbccbb39bc],
    [0x4fc6fdbcf38d7da1, 0x9f22e57ace3cd7f6, 0x80b0af133b9e436, 0x251e7fdf99591080],
    [0x481b730bd286cc90, 0x13527756cff255aa, 0x8fda9e07bfdae367, 0x22eff0bad54cf4f],
    [0xdb851e1299b7a86e, 0xf4de6fe7456b39c5, 0xeafb522055494a1a, 0x220c6f4c23ec9272],
    [0x3ccf36039de0963a, 0x3b29ac28775ff60d, 0x88dd14b1b5d6c0d2, 0x18d66b43fd01a9cc],
    [0x8ecbf332eda817df, 0x43f3236c26f9f5c9, 0x671fabbb4fc31fa7, 0x1f62901537c1c56f],
    [0x9842971d4a802fcc, 0x592aad667f9fc672, 0xa3de22eab4c45bb, 0x130beece62945120],
    [0xdadfd12c386f8c98, 0xac658ed6e0b3636c, 0x59adc41bc54fdb0f, 0x24411acb2c9c481c],
    [0x22c190a27e7fdc43, 0xb90cbde45871f6c1, 0x52819155a8b3816f, 0x2370059923938a35],
    [0xabf304500dd2da46, 0x28f2b02d79b43775, 0xdbf4a6a64692e379, 0x217ccb823582bf7e],
    [0x4fc6fdbcf38d7da1, 0x9f22e57ace3cd7f6, 0x80b0af133b9e436, 0x251e7fdf99591080],
    [0x6bf8a5a4f9bba3be, 0xdf8f4a58679a6149, 0x7a1c421fe42cb29b, 0xe2be5d3f9ee7355],
    [0xe54774153bdb59bf, 0xa26708623919783f, 0xbaeb172103de2bc4, 0x27639d7e461732f3],
    [0xc5fb289f8c865fff, 0x47ce72625673c866, 0x551cbf624aadcec0, 0x159c005b660c7fb3],
    [0xad6373316dfdaa8c, 0x3248bb96731c0921, 0x3b50c550a90580c5, 0x130d38734b549e83],
    [0xcb4a2a7c31a74f39, 0x979d485b8d1b1119, 0xb6791a7b8f49c4f4, 0x13ee4afd14334602],
    [0xdbeb6a7cf80a889e, 0xe588996745ac0499, 0x81a6270afc73e636, 0x2d2647b74c63579e],
    [0xf630cb4c2fa59af5, 0xe0f9ae4c3d9f1e3d, 0xbe0fd5cb1c866c87, 0x1b884086fa3c4173],
];

/// Part 2 of the sparse partial-round rows for width 5, as little-endian limbs.
pub const S_DATA_2: [[u64; 4]; 28] = [
    [0x279e65fcce29d15d, 0xe77eb19acdcb6c84, 0xd00e76ff78815696, 0x2289328b5db5b2b2],
    [0x4fc6fdbcf38d7da1, 0x9f22e57ace3cd7f6, 0x80b0af133b9e436, 0x251e7fdf99591080],
    [0xa29742c31efeb4ae, 0x246d2f713df02774, 0x2c8f5b7bcc6c4106, 0xbbd293300c70f61],
    [0x61602b409252ec2b, 0x8ab18d3015a59d6a, 0xfe623652e50086d5, 0x278e2893fbb5d590],
    [0x6343af34668b18c9, 0xe2b494f05269d15a, 0xb0b514cbdd469af1, 0x2fcc41f73df0c835],
    [0xe345050d981b8fe0, 0xc1fecaba4c673bdc, 0xb961d42a2f57a937, 0x378097f57525674],
    [0xf8f6c71725ab9f62, 0x7f12892e13f889c4, 0xa795ce173f1889e0, 0x15a6727e6f181a5d],
    [0x5d2c500842846477, 0x4c5d42f4ff94e6e7, 0xa5906c3b39ff7f65, 0x1edc3a58673d364b],
    [0x8ce91131b8e1a7f8, 0x73836eb214ef95a0, 0x10fe447a5d08ab5c, 0x1aeddbe743c87ec],
    [0x9b3e83a75ca386b3, 0xb65482585699c91b, 0x609d6b805b31064a, 0x286e544456f114ce],
    [0x4fc6fdbcf38d7da1, 0x9f22e57ace3cd7f6, 0x80b0af133b9e436, 0x251e7fdf99591080],
    [0x33052fe2cdba34cb, 0xc654a897a2c48953, 0x5f95cb08426f4285, 0x1477e88daf9348ea],
    [0x831a5e6a3acbe5b5, 0xc87cf4480b055e43, 0xc937ae2e0a92a1d8, 0xc9918bbd089bc26],
    [0x30021b41532f7931, 0x4c0fbb7f9aacbe56, 0x31465682347ff86b, 0x283c24f7bedf789f],
    [0x1ead3163eb5b2754, 0xdf5d387c4c5f3e11, 0x26438a4682a55c1, 0xb1e5f0ca68bafaf],
    [0x95ab55b1233b9043, 0x1a9da3cd7efc2006, 0x1ff84b99fba0731, 0x2d9da1df21f14ce4],
    [0x2afb0eff5f1e2a37, 0xa02157b6a69a17f, 0xc03b3bed9476f58, 0xbb61e50ddc0821f],
    [0x680edba89c470e4b, 0xb0074323dfc7b36d, 0x24cfc896fdfbae88, 0x21dc1358f62ff3dc],
    [0x7c7da05627ec2dc8, 0x9e4c2b892ce81b52, 0x9c26221637eb789b, 0xdc75868b6f7e6ec],
    [0x4fc6fdbcf38d7da1, 0x9f22e57ace3cd7f6, 0x80b0af133b9e436, 0x251e7fdf99591080],
    [0x410ead7fbe1ef272, 0xe407d177a58fb31b, 0x4c23a757886d7e99, 0x8606e28acd8b2ee],
    [0xcffe65603d81592d, 0xbb4860ef48c104dd, 0x231a8ee6b3029bcb, 0x2f70d379513ce458],
    [0xecfb19f02e102669, 0xb39eaec4c63b490c, 0x64a0844985e7b45d, 0x15315ba38b9e4c7a],
    [0x4e4ef3ec8454675b, 0x23f7e558bdc13f77, 0x97cde58af1536c48, 0x2a1529e4b1ca0cee],
    [0x69f661b2eb74c839, 0x52903dc6609ea69, 0xc03e17c1d1dcdb02, 0x2a70b9f1d4bbccdb],
    [0xa4fa8478970d401d, 0x55b91bff652ad69a, 0xdea43265306a37ed, 0x2f69a7198e1fbcc7],
    [0xf1afd6c5f721f830, 0x3c3ffa4550bd2514, 0x1981e55e3e1a29a1, 0xc3f050a6bf5af15],
    [0xe2f78c2ccc2e3595, 0x7c5e55c20146259b, 0xf97c9d6186c6c3ea, 0x2a20e3a4a0e57d92],
];

/// The values of the sparse partial-round rows for width 5.
#[verifier::opaque]
pub open spec fn s_vals() -> Seq<nat> {
    limb_vals(S_DATA_0@) + limb_vals(S_DATA_1@) + limb_vals(S_DATA_2@)
}

/// The sparse partial-round rows for width 5.
pub(crate) fn s_table() -> (v: Vec<Uint256>)
    ensures
        v@.len() == 540,
        vals(v@) == s_vals(),
{
    let mut v = from_limbs(&S_DATA_0);
    let mut part1 = from_limbs(&S_DATA_1);
    let ghost pre1 = v@;
    let ghost add1 = part1@;
    v.append(&mut part1);
    proof {
        lemma_vals_concat(pre1, add1);
    }
    let mut part2 = from_limbs(&S_DATA_2);
    let ghost pre2 = v@;
    let ghost add2 = part2@;
    v.append(&mut part2);
    proof {
        lemma_vals_concat(pre2, add2);
    }
    proof {
        reveal(s_vals);
        assert(vals(v@) == s_vals());
    }
    v
}

/// Part 0 of the dense MDS matrix for width 5, as little-endian limbs.
pub const M_DATA_0: [[u64; 4]; 25] = [
    [0x4fc6fdbcf38d7da1, 0x9f22e57ace3cd7f6, 0x80b0af133b9e436, 0x251e7fdf99591080],
    [0x48550486e91c7765, 0xfe26ea9ca238d6e3, 0x47cbd3b1c17d97c7, 0x25fb50b65acf4fb0],
    [0x6ea1e31ed5767833, 0x6deb5325f367a455, 0x355f39ebf62f91b0, 0x293d617d7da72102],
    [0x6145f14ba6d3c1c4, 0x66599e575a9b7edf, 0x960111ac25da4743, 0x104d0295ab00c85e],
    [0x3ed5b90f2f69c977, 0x792b3813954fe9bf, 0x7dea3e336cd96a39, 0xaaa35e2c84baf11],
    [0x69f661b2eb74c839, 0x52903dc6609ea69, 0xc03e17c1d1dcdb02, 0x2a70b9f1d4bbccdb],
    [0x115b8e2e991ccd7a, 0xba9f92ad8ef4b979, 0x6315a9934f1b8a1b, 0x281154651c921e74],
    [0xb86a894f7db36c37, 0x8ccd8fdb9ee2b45f, 0xb53c732134efa33, 0x28c2be2f8264f95f],
    [0xc4ec8fa75e530a13, 0x9b626d8cb4dc18dc, 0x6d427c890b1883bb, 0x21888041e6febd54],
    [0x350d65e2cbff4941, 0xe810930e3ea4574a, 0x80195b9592d8cf2b, 0x14ddb5fada0171db],
    [0xa4fa8478970d401d, 0x55b91bff652ad69a, 0xdea43265306a37ed, 0x2f69a7198e1fbcc7],
    [0x6d6a3747594d3052, 0x67ba312b34140e71, 0xad931ab80e37bbb2, 0x1c1edd62645b73],
    [0xa7f9a4b228bfc32b, 0x39c40c603049466f, 0xce2f2c96c69663c4, 0x15b98ce93e47bc64],
    [0x65051de33163cf9c, 0xcba8458b28e44d92, 0x58f65be2fbac809f, 0x12c7e2adfa524e59],
    [0x531ec2de53bbd167, 0xaf67ce79816ef468, 0x49018222e7b8922e, 0x2efc2b90d6881348],
    [0xf1afd6c5f721f830, 0x3c3ffa4550bd2514, 0x1981e55e3e1a29a1, 0xc3f050a6bf5af15],
    [0xeda7784320a1a36e, 0x8b2efe2ecd424a73, 0xfa75ba7992bd34f0, 0xdec54e6dbf75205],
    [0x7cc75cf32d8136fa, 0x98364a11f4d988fb, 0x20225815034b1960, 0x1c482a25a729f5df],
    [0xb8b607ae9fd8514a, 0x812ac2fc9a14a5f, 0x52732624e4ab9436, 0x2625ce48a7b39a42],
    [0x9fb9f28af710251f, 0xed7ef8e300b9a8bb, 0x86f7cd4fd710c509, 0x7f017a7ebd56dd0],
    [0xe2f78c2ccc2e3595, 0x7c5e55c20146259b, 0xf97c9d6186c6c3ea, 0x2a20e3a4a0e57d92],
    [0x403b01feb727a549, 0x701673aed820d9c4, 0xaafb1e9a5d63c0ee, 0x1049f8210566b51f],
    [0x61b9299b82d69c8e, 0xef357a69e3e86b55, 0x68002bd9d1b96b4b, 0x2ecac687ef5b4b5],
    [0xd4ebcf11bbe1e37b, 0xbdcb6b58ba40441e, 0x6808f88c9ba903d3, 0x2d3a1aea2e6d4446],
    [0xc98d803bfed65e64, 0xb39c4a7a72dbb6d9, 0xc9ad171e4f35fe49, 0x14074bb14c982c81],
];

/// The values of the dense MDS matrix for width 5.
#[verifier::opaque]
pub open spec fn m_vals() -> Seq<nat> {
    limb_vals(M_DATA_0@)
}

/// The dense MDS matrix for width 5.
pub(crate) fn m_table() -> (v: Vec<Uint256>)
    ensures
        v@.len() == 25,
        vals(v@) == m_vals(),
{
    let mut v = from_limbs(&M_DATA_0);
    proof {
        reveal(m_vals);
        assert(vals(v@) == m_vals());
    }
    v
}

/// Part 0 of the transition matrix for width 5, as little-endian limbs.
pub const P_DATA_0: [[u64; 4]; 25] = [
    [0x4fc6fdbcf38d7da1, 0x9f22e57ace3cd7f6, 0x80b0af133b9e436, 0x251e7fdf99591080],
    [0x48550486e91c7765, 0xfe26ea9ca238d6e3, 0x47cbd3b1c17d97c7, 0x25fb50b65acf4fb0],
    [0x6ea1e31ed5767833, 0x6deb5325f367a455, 0x355f39ebf62f91b0, 0x293d617d7da72102],
    [0x6145f14ba6d3c1c4, 0x66599e575a9b7edf, 0x960111ac25da4743, 0x104d0295ab00c85e],
    [0x3ed5b90f2f69c977, 0x792b3813954fe9bf, 0x7dea3e336cd96a39, 0xaaa35e2c84baf11],
    [0xc296f05cfc966598, 0xd4307c5caa95633d, 0x99b8ccd568eb14a4, 0x12873658ecf188d2],
    [0xb5419ed73a07999f, 0xe8bb293ac176fdc5, 0x7ddb4243f839e4b7, 0x27f9160806de9ef5],
    [0x72cdb09b4a0ea0dc, 0x3a9fcab03ad25e78, 0xf436a6b36165cd2, 0x97d71f1fd579a0d],
    [0xd90ae4be7ec33ec9, 0x31446a51702b39a8, 0xb8b974039c6be6df, 0x19bb8abf6a012cc7],
    [0x6e6d0f4e20206c1, 0x99fa0a4c548df00, 0xfab59e3c7d983a4, 0x2b5d28e8d648bffe],
    [0x5ec6d5101ea22761, 0x8c5954d00a9274ec, 0xcde2c5e6b93da401, 0x153cf8033d8e8a15],
    [0x110110da983ccdc2, 0x105b044b1b904d3b, 0xbc6f1d792e501939, 0x16fceedd703bbbc2],
    [0x310e34bed661337e, 0xeff6dccecbcf2ebf, 0x2d594f51c251dbf4, 0x1a9fd26611128d59],
    [0x8fa091702e70b9bb, 0xcf9049de04fc775f, 0x6f06af3012f04aad, 0x11075889bc0dcc9d],
    [0x1bab95584b90d84a, 0xd30d1482e57c2f86, 0x8ee15bc2784c5096, 0x1a96c37c461ab8a3],
    [0xafbdfb0de80fb00e, 0xd90c84470516671, 0xdca6f6ab15dd8e25, 0x9f15a882446823f],
    [0xee9fc4c9115ae7ca, 0x91495cec84593a57, 0x7c0d5cb205987427, 0x2eaa925d06b6f5a7],
    [0xf91dd2bbb578dcc2, 0xf3be840d5f5ede01, 0x6d18573fc546b2b, 0x21eb30a57e5912ab],
    [0x16161be6a521a358, 0x9c8fcab8fffe8f2a, 0x7de338827b28d16b, 0x2e4cb25599a3dbf0],
    [0xfe4145002fba8e0f, 0xb8652e902142beb8, 0x3cb8b8a676592858, 0xdbdd3171308bfcd],
    [0x98add2758a2ce216, 0xb24b4ce2f69c8ec1, 0xb64c9075773bc862, 0x167c655bf6cf3e0f],
    [0xcf45f08ceda2dc8c, 0x86115b9e6fcf4946, 0xe24f191ca7039f99, 0x279b324735fbc883],
    [0x6d227eb008b96ced, 0x65bc57d28ac2f60e, 0x2b1e6f48759371ef, 0x13abaf72889b3137],
    [0x171182e158684e85, 0x5ded8ccbc968d15, 0x642e0e8671deb84d, 0xc7a700b33fb23fc],
    [0xb01e957808d66fa7, 0x647a0145af56b03, 0xfb8ceded7f4b3929, 0x17ac4855f295a3b8],
];

/// The values of the transition matrix for width 5.
#[verifier::opaque]
pub open spec fn p_vals() -> Seq<nat> {
    limb_vals(P_DATA_0@)
}

/// The transition matrix for width 5.
pub(crate) fn p_table() -> (v: Vec<Uint256>)
    ensures
        v@.len() == 25,
        vals(v@) == p_vals(),
{
    let mut v = from_limbs(&P_DATA_0);
    proof {
        reveal(p_vals);
        assert(vals(v@) == p_vals());
    }
    v
}

} // verus!
