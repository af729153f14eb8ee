//! Constant-table data for state width 7: the flat round constants,
//! the sparse partial-round rows, the dense MDS matrix and the
//! partial-round transition matrix, in row-major order. The constant
//! arrays carry the data; the spec functions read the same arrays as
//! value sequences, and the builders return vectors proved equal to
//! those sequences.

use vstd::prelude::*;
use crate::field::{Uint256, from_limbs, limb_vals, lemma_vals_concat, vals};

verus! {

/// Part 0 of the round constants for width 7, as little-endian limbs.
pub const C_DATA_0: [[u64; 4]; 119] = [
    [0x2ff84824743fe4e7, 0xd14e554db66d0910, 0x7c6dbf46c4ad93e7, 0x2197703fceb4cbf0],
    [0xaca2fd3efe512f79, 0x1f59bd5061d8b565, 0xbd8b5fc23e7106b5, 0x1322f0fffc7e4854],
    [0xe46f448fa9d61359, 0xa8c5894c2f88861e, 0x222133118c337d82, 0x19e414f80380aa2d],
    [0xcbfdd6d7b9209d9a, 0x65f16460e79a7939, 0xd65249d9562cad6c, 0x22241199a4df9cb7],
    [0x1c77f6d85e8a41b6, 0x7b51c78b211615f4, 0xecf9a311c22ade32, 0x301061735384dfc],
    [0x379548ff2b6850ee, 0xb7dc5d19ac95fd8d, 0x4a2633b7b4b5bb61, 0x229e1d86c1f2810f],
    [0xfdc28ac3dfbea675, 0x3f56bff65883afe5, 0x17eeb292e989727c, 0xe31dcf9c53209a8],
    [0xc42abd091c2ef54b, 0x5baed195b5da0b71, 0x5b5888b6a9782439, 0x68f917bb1b0805e],
    [0x8cfabd832f52d7b2, 0x802a5bbcb69aa2da, 0x2d837715613297, 0x1d0bfb8bb90ac234],
    [0x71f23a14fb9e2103, 0x13f02a64dbf09eaf, 0xd5afcb48be202374, 0xd67c182fbf41c18],
    [0x13996f7962884886, 0xa4e504d8fda8b823, 0x6304b9bb64d94ae, 0x3058909cb1035577],
    [0xd601eeb9b60c8dbb, 0x4961ee8a89f4fd6, 0x64adfefd075d0cca, 0x4d06a80196e10e6],
    [0x2386455228407b56, 0x88fa13afcae4523d, 0xc21bdb42eb3fcb0a, 0xab062f8d4b5ed0e],
    [0x1c1fa1a173d4630, 0x70cd1994bd6a130e, 0x195e327a5a63cd75, 0x17380754792ad5f8],
    [0xed9a4ec8aade56c, 0x13cb9621bc5fa098, 0xac916f4b12dd5756, 0x2d4f3780eef4ff99],
    [0x69b275c196aaf9ee, 0xf845c10d1d578942, 0x71e74dae04691439, 0x2abbef481b368ca9],
    [0x30228222377d0e53, 0xeacb9ae01ccb1f3b, 0xdd9dd6f8c05f52d8, 0xf24324f82d68231],
    [0xc54884b29c404597, 0xb010b45f4724ce7e, 0x4295ef602b91250d, 0x267617317f514665],
    [0xbecf0a2bb6490c06, 0xeb2c336dbdfcb867, 0x21bb01ab1001d715, 0x157f9e2f7374988],
    [0x52eac14c8a30c702, 0x24229671346848a5, 0xa52cdf0d66e8a97f, 0xda7bec0cb98d337],
    [0xc7878d731c0596d1, 0x1c91ade79f9f587f, 0xa709f3ee480ba137, 0x15fc820ef53302dc],
    [0x1d3ec6587d0f4296, 0x128d0e8117d88f55, 0xe8057c0fcd4ce6a6, 0x845715adfca35c3],
    [0xb442a9a771956d0f, 0x64cda874aa4457d2, 0x6bc8775a3906893a, 0x422f744e2b73609],
    [0xc608b00faf3382a1, 0x1618e0497e05cc85, 0x46ab5779fd26b1e1, 0x15f421550bf6639d],
    [0x66fcb4d1a7b720c8, 0x357e61ae5f3ec350, 0x8602e93f5b988d5f, 0x4f17cad2ba0ef6f],
    [0x79588c49c488673f, 0x1fb2a00cc7905b24, 0xca09c021eb0d77f, 0x1732ef5660d84ae5],
    [0xf4b9d568bd351b2, 0xe9e2434192ec826e, 0xc25259985f730cdc, 0x29b12501fa79e08b],
    [0x1d815cf4f6274590, 0xf61b28dedf10e220, 0xa84db40ad82142d0, 0x207c8006aa78fc40],
    [0xc82f90326cd049a8, 0xbd589d88fe45b2f2, 0x4d7bdcbdb5fa268a, 0xa25704ce4cb74a9],
    [0xee289f428f40efb2, 0x5a9eec75687725d7, 0x101c423ea40a958, 0x11211f3a71af30a0],
    [0xad20be96187c2fa7, 0x32ac76e96faabcb7, 0x71380ce8bb8c34b9, 0xe01e8bbf5ee6114],
    [0x8c772fef1fb74363, 0xa43de91dac73ae33, 0x5523e22e4fe9f410, 0x1c894a1430513df3],
    [0x3d48ff0ced526d5c, 0x2e06ab26834f9484, 0xb4a08ee58ef54f00, 0x2bee349392dfa0b5],
    [0xfb223b7abff4d7f0, 0x829eb41cf3181149, 0x9f2d23a8c7713332, 0x84a60c1d70887d],
    [0xc8a8263ab602c7c5, 0x88d45898c97bcdeb, 0xe176a0e2bf67f57f, 0x23a4506c90c07f3a],
    [0x2e0a2e2b4958aee7, 0x394a1110cb314bb8, 0x208b990e2c634707, 0x1ab66896a1df95c0],
    [0xd4cb649d317f4616, 0x93ff4bba9325b5a1, 0xe49e559d8eea6582, 0x2c6b842aabeb84ed],
    [0x71dd986dc16d2e35, 0xa14b008b93f85cd9, 0x2b88f46df432be9a, 0x16321af63871328c],
    [0x53088e7bc6db73ec, 0xc8ed85608f81ba69, 0xdf10d1ee35b598e6, 0x13d647208d3dbcc9],
    [0x1b890470cbd7f06b, 0x74e692b9254d55c6, 0x5143e6f22e747b7e, 0x1c6aeda9e0fa69f],
    [0xf2b17965cac024b1, 0x18f474c7dd9b957b, 0x65bd4a7c6daf0334, 0x287d74a5fa03a4ed],
    [0x91ffd6bb76a5d0e9, 0xbedcda1b7c93f116, 0xc219805b3f05e854, 0x27a4327beb0b3e0c],
    [0xf1ae30695c8e6770, 0x6682417803f5b302, 0x7fcfe8918baa689c, 0x271a03a000bf412e],
    [0xbcd46c02d599235f, 0x7fee515e591c8b54, 0x5d2f0f4000157c95, 0x1a4436200e4d0be6],
    [0x1c3145a5a7a94c76, 0xcee058b8ae4fde30, 0xcee35b8e99b4b3c0, 0x1bce9394a5dad0a4],
    [0x441a5972125dc902, 0x8e6a7c04b0af0839, 0xda9c3e05dd4932f3, 0x2b1b4ff2bc186b7d],
    [0xd865d4f6e95f699b, 0x6979adfee4714048, 0xc2a197b1c9db4942, 0x13c87d0e4bfa493c],
    [0xf4d6720b981ccd62, 0xd01a4e3d1c69d50, 0x30aa0dc64c6683ec, 0xe861496d1b54e35],
    [0xd09a483fc4197100, 0xf26a0aaa728198c5, 0xfbcb03e5dd3faa88, 0xdb63bd46e06bcaf],
    [0x9f0219054d45db87, 0xc95850b716222ad8, 0x9452e1a055886af7, 0x2f8fca3a44bf9ea9],
    [0x13e7e350f5947d73, 0xc166cfa1956d1617, 0x395d1d6ddd541bd9, 0x5b7bb3e5a4e2946],
    [0x620b9593b66e5483, 0x3b2198203b4552ed, 0x75fcf5a7a3f8bf7b, 0x20e4e6c47a68be31],
    [0xb901dade72df4862, 0x560ee2b4d03a04a0, 0xba4783e15d10a147, 0x154a2a02379c7695],
    [0x5b1c74dea89c5345, 0xe15e5e50e1277480, 0x6fa0c743bfd64716, 0x156f02cab5fb0e7e],
    [0xe9519b5041318912, 0x774a616ffc7e7313, 0xf0a3be042b1bd146, 0x1d258218556d0152],
    [0x50c1fd036219f4e8, 0xfa839d7ce2cb7afa, 0x2e5535804f99dfb8, 0x160a5da355d46941],
    [0x883eb2c751d5ec43, 0x8237870edc94a72c, 0x7faf6a18289814c6, 0x1693c0c96b95f703],
    [0xf35826a968d5708b, 0x83d5e0ac328bd468, 0x6ad5c4a115d1a6a, 0x2b0df0f463f69ca2],
    [0x2f76954ca192b60, 0x7149bba04161fe0, 0xe159f250bec8655c, 0x19cad23c14a9bed0],
    [0xdfede28fa645f54e, 0x60842410e04c5722, 0x53c36a4090a3963d, 0x25857eae6be307b6],
    [0x3b9840ae43155f72, 0x4839ad7bbabdc64, 0x94e7959efbeba17c, 0x29ac9714955b7a9c],
    [0x5e74f45a2cdf962d, 0x5b2020bf34080262, 0xa7284db266593aa8, 0x2e637dbad876dd52],
    [0xd44fc74c65e7ee84, 0x60321aaaf082a53, 0xdb4f0093858113c5, 0x468d89779fadedb],
    [0x8814f14bde647522, 0xc7195a90087762ec, 0xfcf8629d57eb5b6e, 0x914cefd51a2822e],
    [0x778c40a6d176707d, 0xba6d238ce374949, 0x7f4e61117c7fe219, 0x120a9d3cbca58b91],
    [0x37583bd8e0480d5e, 0xcef96d746ecbc34b, 0xc655215cb308b39e, 0x1cf1c75a1b2ca09a],
    [0x5bcbf3c5bcf7770, 0x8c13dca7a6c5b190, 0xa953d0d2355cdd3d, 0x511cadc2d431769],
    [0xe4dcfad0562e5dd1, 0x43279356dc78a772, 0x4a2a44b1bed5688a, 0x1e2aac063f4303e2],
    [0x71e03cb9590f89ba, 0x88303d8824d54968, 0x241e096aa41f3a47, 0x172a396d41cfb2b1],
    [0x15307e6004969e2e, 0xcb7f35fb399ebb25, 0xdb7ac718d4c6b916, 0xbde068237cc41aa],
    [0x153af4d350d933ee, 0xae07a8fa77aefbc3, 0xb3f6602d9f867bd2, 0x1522d1f8f0cb9214],
    [0x1759dceaccd1ed69, 0xa636961ef78c1dea, 0xd30f7ba34e5d41b8, 0x157d56053aca2c4c],
    [0xf79bb93d45fc188e, 0x1616f6e4bc6f63a, 0x8a299e22c732f1b9, 0x10aff8c0fa2f25f5],
    [0xda7f2c2e36d2bde4, 0xcedf85eef2549843, 0x46f2df3d8bd9cfc, 0xa9557d37fbb35ce],
    [0x199528d78e8d2c59, 0xd6ee6b56b89598af, 0x170136de66c179a8, 0x75029d8351a4949],
    [0x7aa4fd42930355cf, 0x5c6c97618e672f83, 0xb2302fe15ad33ef3, 0x2aa767c911398696],
    [0x6a4f63795e376623, 0xa031d30242b285c8, 0xf62d32828421e1b8, 0x14d99c7417a329f],
    [0xf1314e478a12894e, 0xc0a8bb8e2ea5c324, 0x8310c35eca9d2058, 0x186e1b7808946747],
    [0xe15ddaed432e9838, 0xc84f86368f6c9bd4, 0xd58244ac5bd70b0b, 0x2ca9306ef62dfb1a],
    [0x364d4adda49bdf27, 0x60f7eaf6d03d3ca6, 0x661eaaee9438c671, 0x17630d6307628585],
    [0x98d8c39c7e72e31, 0x26544816780af016, 0xa488cdf08ce3222, 0x21187c1dffae7434],
    [0x27cd06cb70854aca, 0xbd99ac89035b0da3, 0x8bab1769aee63276, 0x1db210b93c320a1],
    [0xa26ee896709404e1, 0x4d18813f71cf3aab, 0x9d8d7ad109d5f26b, 0x18bb6f89805c1bd5],
    [0xd849a5d67ff6fe98, 0xa55716d2c7ca095, 0x23f3f43196c9b8a6, 0x9c0a6c2d79cc060],
    [0x884eab5084dc4c16, 0x6ea7c81cbf903e9b, 0xf4d1ae306f313830, 0xbe6b7d6cfed9528],
    [0x18d424d5e017ed5c, 0xe70b00611780fb48, 0x2d8a739bfdf6c6db, 0x16fc7c808552b136],
    [0xb128ad76ac948836, 0x29e5787f9a918d1c, 0x4be6bb14fe72714, 0xf31a91e6db75df9],
    [0x3b252925d310d488, 0x2461a7c0a0b673a7, 0x5fcfcb5ca7e4efb1, 0x230a66ce24feddd4],
    [0xda3a0b4b83ea92d0, 0x3cfe8685b46153f6, 0xae508126cba27474, 0x5ed3707e7ad3478],
    [0x9a9c31b43cf8d938, 0xbcb2839ac707e2fe, 0x4b4f6ef913550c11, 0x465c370db40b8f1],
    [0xb95c3a75c57c20ed, 0xf8b2e0a495e43db7, 0x451a60fec0539f9f, 0x85f42b894873a7],
    [0x3597022da08f9938, 0x9f81aac64902fb1d, 0x1542ae734cd99586, 0x2e8b3ae9368c9c1f],
    [0xf9870ff19ccff314, 0x3155019bfe9eae28, 0xfd09b088159c4e22, 0x161485d4fa8620e6],
    [0x940833ea32b75416, 0x473dd98fade9e648, 0x1d200fd27884599d, 0xb6e400339e5e76c],
    [0x155d8f284d44b310, 0x18fe73ec92c1e203, 0x7bc046f718437ee5, 0x261ee31fad47c0db],
    [0xb4d938f45023252e, 0xf0ee56c2c85ac584, 0xa284b84adcddba4b, 0x4e106089b776d01],
    [0xfeffcf9c7e26449f, 0x5789c9f9623b534a, 0xe36142a17718f761, 0x4b14e89f42287de],
    [0xe54662e7d9eb83b0, 0x23fcb4c6d9197373, 0xf1d89f2f8c495681, 0x1d55915b20b60534],
    [0x99aea743f80494b8, 0x1c89aa457a2f4d66, 0x7ee32fe543be468e, 0xbf04f5b7d178a7],
    [0x1b39af12f857ea3e, 0xe91accf86e5ce5bc, 0x45b8bc5be185e206, 0x1bb1f31e887647cb],
    [0x22b82c1edca87e9d, 0x4adf24bc4b856a35, 0x30aba75b2eb699e8, 0x26f0b4214212ea80],
    [0x9207f457599c5fca, 0xcfc194b036b5a53f, 0xc076b67239b316e7, 0x1ad7e1c6feade269],
    [0x2b28c61a89840035, 0xa325224ad7e1bcf8, 0xffb4b99e8108512f, 0x11947cedad859f02],
    [0x12d070d11c43348c, 0x384c4dc1858c95de, 0x8ef6cc36eda0d179, 0x1ef4f0330d614422],
    [0x7a465b689cd1336d, 0x8b0dc1b5a9b616c8, 0x6c04a6514d471f1, 0x1031abebb0216be5],
    [0x708e6b6084b2df8, 0xdd92eaab473002f, 0x3e8daae572abe2ac, 0x23f97eb680f5a13b],
    [0xe04fe123659e41b2, 0x687468aaa84ef7f6, 0xb94a4d73b5bdf7d6, 0x289b2ba2e3c8f665],
    [0x4b133f63536090b5, 0x20bfc45bd5bbde4f, 0x1d3e01e2504af100, 0xd40f713b31b2d04],
    [0x6275c8b71659f149, 0xf92923cd16ece1eb, 0xbe047c74997ee799, 0x29204d73ce84b3fb],
    [0x7637ad04ad644c6a, 0x1c85f67cdf38a9ae, 0x56263fefbe7475e5, 0x23cd14b50f4129fa],
    [0xcb90bb6da8dc3883, 0x3ab52b69b2ec021a, 0xe4ff5b9f4423b229, 0x1603887bc7e6956a],
    [0x67054b645c74b0f9, 0x5ff8f6dbff755c84, 0xead0129bb220690c, 0x2137d99c24145e52],
    [0x952d4f0b3dbec414, 0xf51b2fc366e910a9, 0x594443a487386f9, 0x1f3d6d1349096a8e],
    [0x79061dd00f01a00, 0x5cec71b0cd6b8b4e, 0x297d04af8191e2b0, 0x2148e1aab3e9c82a],
    [0xbd5d760d59e60c54, 0xe6801cbbbb50badc, 0x28ab6f04882a202, 0x17fb0721b3375406],
    [0x88ac69a273ed074d, 0xe00106e754cff8b0, 0x610743aababa1196, 0x44f8ade334554cd],
    [0xef55633cc5405243, 0xc50029d2ea463ab8, 0xfc3ac960b7c967cb, 0x2e10e74d30679661],
    [0xe38848b3576dba8e, 0x900509bc8019fec5, 0x2d540c5cdd2def7f, 0x1e44030832526ce3],
    [0x1298adabe7c822e0, 0x69561ca3c4ece48f, 0x3fd7e8723d110783, 0x2c17bd7af463d52d],
];

/// The values of the round constants for width 7.
#[verifier::opaque]
pub open spec fn c_vals() -> Seq<nat> {
    limb_vals(C_DATA_0@)
}

/// The round constants for width 7.
pub(crate) fn c_table() -> (v: Vec<Uint256>)
    ensures
        v@.len() == 119,
        vals(v@) == c_vals(),
{
    let mut v = from_limbs(&C_DATA_0);
    proof {
        reveal(c_vals);
        assert(vals(v@) == c_vals());
    }
    v
}

/// Part 0 of the sparse partial-round rows for width 7, as little-endian limbs.
pub const S_DATA_0: [[u64; 4]; 256] = [
    [0x1bca45f39d337e9d, 0xa15cc1625102ae51, 0xaa19cdfec726fa3f, 0x2abd9e16b7b48289],
    [0x356008d5307bb3e6, 0xa0a63dbf08fd0dd7, 0x9072bb7b469ccd57, 0x277ac8a3178a356b],
    [0xa8e38dab87c6c402, 0x39ec1e2756e69301, 0xe49c6bfafc0e28d5, 0x24903bdf5d3968a8],
    [0x6a41fa0c149b8602, 0xc8ebd10688d7e556, 0xbd2d48508aa4f791, 0x14e025a7131c3bc8],
    [0x74ed61d57905c555, 0x2b6bf27ab8b7c741, 0x86df765fd7bf43ed, 0x2e41c7e320ecfc1d],
    [0x1661ea2ace917451, 0xb35a9c8c90ea44de, 0x41907d66de91029, 0x11bb3cde82e89bb0],
    [0x171ff6abcb49751, 0xa9cf83d19899cca, 0xd0a5bf4065b2b964, 0xa7460b280828af7],
    [0xc41f29fc94925b0e, 0x4997b76e14e656a8, 0x3cb35d6516c5a92f, 0x234be66b59a16a32],
    [0xc804110c937adff, 0x30569dbe12fc3fcb, 0x67792d785ed1ed7e, 0x27c512cd854e4836],
    [0x5be4056e8763a864, 0xc86fa82e68857a1a, 0xe64577b7c8917219, 0x1532821b842df3a4],
    [0xb92b43e35b5ac58b, 0x1d7b0f668a01c6d2, 0x8f325d92ace90352, 0x1ec15f1ce8c3cd64],
    [0x99d5a3a489905ea5, 0xe95b1e02ce6f48d2, 0xcd0b75b712675e72, 0x234748a5e415d7b5],
    [0x3c0788e3827a6694, 0x7a3cc512e981a49, 0xce3dbb4e6033098d, 0x14037feed35ba091],
    [0x1bca45f39d337e9d, 0xa15cc1625102ae51, 0xaa19cdfec726fa3f, 0x2abd9e16b7b48289],
    [0xc90cbd37ba4b1b6b, 0x66ec843a10ec59d, 0xd74faaded50d303c, 0xa7c49a32b5a05a6],
    [0x1dc1d393e6bcce8a, 0x5c8d234d308d5701, 0x6bc1ed36af44590, 0x7fe2a4ab68b94f0],
    [0xbca5bf47e8a658f0, 0x83f25b33f474c96, 0x17b1b9d1c9034a51, 0x15b26f61d51ae170],
    [0xe527fb94c60f5f78, 0x3ebeb3606fffc29a, 0xe2de1678002e73c6, 0x1a9c3ed5b8f524e8],
    [0xea205df20b8b5ccf, 0x16a223537245aca3, 0x8efe169c4905145, 0x153aafcf49237427],
    [0x505def01cc6bc872, 0x1d71a378cc58995e, 0x975a40e29610d83c, 0x239cbec4c84afc21],
    [0xb5768787d7af6d32, 0x24b30c1660a2e003, 0x4844b7e5692018b5, 0x1edb2bf1ce76a49c],
    [0xe10a3c2eb2ff22ee, 0xa2ae63be8cb846a5, 0x320f037f4847ce62, 0x222778dc5bf834f9],
    [0xde116491bc86e0c0, 0x9bc2833cf35f65ad, 0x828904ac73e5114f, 0x17c2ef46844a5365],
    [0x244d5d4c3ace4839, 0x6237633e5cb78ae, 0xc6bd6c657e313147, 0x2fff9c9428727c51],
    [0x862666d16236b0b8, 0x2c1e18459e4305ef, 0x5cea9823f3eee70a, 0x1d188182ea443a5a],
    [0xe56ec7f849ec7e5d, 0x2fadf648ba0dc219, 0x2818a43f4c6d3b5b, 0x194dfe2339f7aa04],
    [0x1bca45f39d337e9d, 0xa15cc1625102ae51, 0xaa19cdfec726fa3f, 0x2abd9e16b7b48289],
    [0x74899118aeb3a1c8, 0x427d0f02f0406c06, 0x7fbeb04c84017166, 0x1c7aa6d64a120d65],
    [0xe8a648df3b74551d, 0xc464ee5aaf98ebbe, 0x7d122b9086f80b9, 0x1dc18887cff4545b],
    [0x3cca7b35742578d9, 0xe5cd01ff884e1c11, 0x1ad9973cbc710635, 0x27c28329d9f8519a],
    [0x87386544f3eb5cb8, 0xe1fe222594774759, 0x8ede3bdf7b2efe8d, 0x289ce154bb02ab33],
    [0xc499a37cde286d03, 0xb9d48138dae5b7b3, 0xae1bed7b5cae11ef, 0x2257e368b26697c9],
    [0x8efe3275d9d7edd9, 0xb954a8d9b6d38f19, 0xf045f7b544abb2e4, 0x1bc9d5e7820a13f9],
    [0x500fbd32e4df9c39, 0x492912505da27bc8, 0x5faf556d58b84ddc, 0x18d112c5305a06c1],
    [0xf8cdace9768faa75, 0xdbdaae2f3018fef6, 0x9d20067f050b7d7e, 0x2c63e80087f92491],
    [0xebf6de8b9685e113, 0x6408dbc08f173278, 0x108121e29b7ca64c, 0x877b395faf50d5d],
    [0x2486d69b2779e9e4, 0x96696849e5532f49, 0x99121262b33701cc, 0x40cdf2e7828e66a],
    [0xedd257930a2f539b, 0x1c586b3dd54d735e, 0x8493e83d1a31428b, 0x16e80a1f3fe9b82],
    [0x7433d31898a60f20, 0x4beb82c3dfe033f3, 0x6a4caa317c6926ff, 0x994a923eee5e6fd],
    [0x1bca45f39d337e9d, 0xa15cc1625102ae51, 0xaa19cdfec726fa3f, 0x2abd9e16b7b48289],
    [0xc7bed180d708e87e, 0xf9b21ed391e27e1, 0x5b6fde5a3d8750d8, 0x2060946803f18c08],
    [0x50e2f6c49968dcd7, 0xd38f33fae4968184, 0xb0864853cded9d57, 0x24fa5c0683c2eb83],
    [0x2ff9b11921a351eb, 0x785407c558eb4dd7, 0x73914219f02ddc59, 0x162824e200bf52b],
    [0xe344be2b880f574f, 0x9521cc4cdcb7692a, 0xc1703ddea2da4eb7, 0x1edb37284aaca008],
    [0x32dd01acb3c09688, 0x4c60095f5b85682, 0xdfa9c5354cefcd82, 0x2189adace1c5a701],
    [0x89e3878b2de7c778, 0x93975e2569625ac6, 0x28e7187f16f3a90c, 0x19f1b2d64e3cddcf],
    [0x9b46f824db8c6190, 0xf176f190d372921c, 0xbb9b6b261f36e1c8, 0xc62cf98668e5178],
    [0x2944d71eee85aba6, 0x8455d93408ca2f74, 0x43431f284a33a013, 0x16ef695c32d05c8c],
    [0x2c503b99337b1c14, 0x2e2d9fbe9428d656, 0x9d712449d024d827, 0x1916a7ff07956db6],
    [0xdc76ce6086e8f1aa, 0x454fca21261d32bd, 0x47744f334366acd9, 0x155303d79a49e289],
    [0x42cb49c4839cd533, 0xa8661b1effd889c6, 0xb9b439bc12e5daf5, 0x21dd4756d2217bdb],
    [0x93c2df59993d72a5, 0x7cf495c7499bcdd9, 0x15394e38dc30548d, 0x197232e52cfe9adf],
    [0x1bca45f39d337e9d, 0xa15cc1625102ae51, 0xaa19cdfec726fa3f, 0x2abd9e16b7b48289],
    [0x9f6b958de481eb0d, 0xe7fb34a8896414ac, 0x88ae6fc25c6818d2, 0x2f1786e4f7d81877],
    [0xb5418d96b504c2ff, 0x91fed24d0e163dbc, 0x7d79ee23fe9975ec, 0x7b914cb16d81738],
    [0xac0d070f90e34ba8, 0xcae00977353897c5, 0xb3be5bbaba856067, 0x1958452705af91d4],
    [0x840cf178b27637e5, 0xd72d270d1327e33, 0xd8dbfd9d0daa514b, 0x20f47ed0ffd3fa2d],
    [0xe2578d7372f5db82, 0x888a6507168a4b79, 0xa851536e7432f37c, 0x2bdcc2280fe50aca],
    [0x109e71231c3a9b0b, 0x62772fe53e2c5650, 0x56d1fa5cb225932b, 0x100ca23f8d8ebcf6],
    [0x2c6d47afe5cc12e1, 0x66eb4154d190d38a, 0x3637ed1d8e44c891, 0x1d359baef354711],
    [0x343cc127b005a3bb, 0x712d8b684324dd57, 0x1b90fc18b100cad3, 0xa78ae4732461eba],
    [0x1241cb4409b26b2d, 0xd4d481813247df11, 0x6cf8ac90c3454584, 0x1a843ce91e265e4b],
    [0xde1d8431c151bc3b, 0x71e050a5deab03cc, 0x55602a74eccc3c3f, 0x140c4ee1c78bf85],
    [0x8434d0555824e4fc, 0x79f3d04e6c3d1865, 0x13e8a035a9191cda, 0x7696859ae6cbcd4],
    [0x2674b0981b2c0d32, 0x7f85fe2c37fa7ad, 0xebb4e42884622e03, 0x2e7f9004dc09157c],
    [0x1bca45f39d337e9d, 0xa15cc1625102ae51, 0xaa19cdfec726fa3f, 0x2abd9e16b7b48289],
    [0x843f70723f09a5bf, 0x2266735b7423da83, 0x6c79c307d903056a, 0x17607febb988532e],
    [0xaf218961a9ec3ee5, 0xed6cac0d43e93c38, 0xc8c3457b6d3b284e, 0x2c02579472877870],
    [0x9bbcb7ea175ea012, 0x8b2788858e58d9ea, 0x9e832b5a50bd1793, 0x2b24eeb261786018],
    [0x2b79d70a13e307f7, 0x71dbcff64c77d1c6, 0xbf30b0a138ccb4c7, 0x18c375a125854f8f],
    [0x96352311cd9fc784, 0x1777555ec7f996db, 0x3fdbe9dba4f3abb2, 0x7251d3e86318333],
    [0xe7263009fbfef1da, 0x4d5371ec6163615e, 0xc700e495384dcc12, 0x2adb341301b3948d],
    [0x6995c3f10f1323c3, 0x822b44fe601640f4, 0x7efb991ea065ec1c, 0x1472cc421bd8fa9a],
    [0x6352e789997f9258, 0xe582f822994a5c2a, 0x92df5e43134bc6d7, 0x2c3a91912dc2c2a7],
    [0xd052e64f3dfb155d, 0xb217270ee9a8ebb1, 0x8a09e7660ec87c5f, 0x15e8c106e6ea389],
    [0x69bebbd931dbd2ed, 0xa765394d2f3201a7, 0x781a52bb0a324e4c, 0x196b68215343e220],
    [0x2a466bdf891a333f, 0xe5207bee762ee893, 0x570e50b70d0303ed, 0x2ea4a2d5188e98ec],
    [0x76d99826e97a2783, 0x40fc85fa34583032, 0xec78b68de4b20411, 0xfbf65aa42b0d900],
    [0x1bca45f39d337e9d, 0xa15cc1625102ae51, 0xaa19cdfec726fa3f, 0x2abd9e16b7b48289],
    [0x63f91cd249c47a22, 0x3f9695075c5d98b3, 0x6c0220fc95afa078, 0x2d93d238704becd7],
    [0x87d8a2795b71391b, 0x4f93af8682fa026b, 0xce8b8b1b36ce08de, 0x1011608ec77a11a0],
    [0xf7cea1c5e968e194, 0xd8105c509c729129, 0xbbd038c079842940, 0x108c04095f95a9fc],
    [0xab82a9e252381e73, 0x73a936ac52383034, 0x3dd52489db2fade3, 0x27bab26eeabbce15],
    [0x823d23688ba4e570, 0xc9830a5e2c7115d8, 0x349dd52e13a90ade, 0xd2611e73e27ed17],
    [0xff1a0d8db5c1974d, 0xe146a62c4461c271, 0xcb4662edfe8bb829, 0x1cb4e6780cd70a0b],
    [0x21d8dd7b2a1cbfb6, 0x69928dd3a496a3d0, 0xe54614b4648d6271, 0x1d429b1257e514fa],
    [0xbf14903a12e5ffc0, 0xda53c3b92bfa3346, 0x4d666137090c7348, 0x919d557a82cd729],
    [0xfe2b1c30ecbc9473, 0xe67caf29f8e6e998, 0x8f1e7216933e31e2, 0x1b99c14cb08972b5],
    [0xb569a552e8ec86d9, 0x3fed74cf9bb2b559, 0xffb1a687de5cc0ce, 0xf0435abfab0c4e0],
    [0x54574f75f3d8e848, 0xedfaf7dbf4c79048, 0xc4e338c7cff84efb, 0x99366a2b727e153],
    [0x9bb202ecb419be5f, 0x8319e8c6ad842c7, 0xb71c2028e3599074, 0x187b41d7da085759],
    [0x1bca45f39d337e9d, 0xa15cc1625102ae51, 0xaa19cdfec726fa3f, 0x2abd9e16b7b48289],
    [0x1ae2000664936e3b, 0x5a03785a0a294222, 0x1fe9a583655046a7, 0xf8adabe145a5746],
    [0xaa3043a693bef6c2, 0x28785663aa6b4e0c, 0x1f80e0b574b3f62d, 0x21b8878c75b423cb],
    [0xaa2874765f64d602, 0xb3ee297afbb5c934, 0x1c4b6285f8c68771, 0x1dec99dbe933ff6d],
    [0x1542f54bd4f4d808, 0xa151cd8378cbbc70, 0x9c51489f7c87de4f, 0x2d23ed96c51ebc],
    [0x166b097187272e88, 0xf41378ba90a38f11, 0x6e6ae1c1ce2d3feb, 0xabfef9fb01611d8],
    [0x21c7b838ee0f946d, 0xe520241c8b739d3f, 0x837eaeb4693d496b, 0x28f60239d945991b],
    [0x3b191f6b12e1bd83, 0xb05564aa44613bef, 0x15ee77e9ff06e2d3, 0x18ad1fe91d4530ef],
    [0x9bd158d33c8679cc, 0xd7ee91beb16180cf, 0x5909fc518f92c7d0, 0x53844fdd9907111],
    [0x229f70076c979ddf, 0x98774d1bb18f553b, 0x6b79f6f3257aff24, 0x28f997134ae9a3be],
    [0x873d01d3a014bfbf, 0xd872d357f5d1d210, 0x4399e477bd78c20f, 0x5dd57491f096cf4],
    [0xe59e2113d54e0b37, 0xb24d32a62dbed89, 0x5ba1a1b3cc2bf04e, 0x1f1a859e7cd1cc20],
    [0x8e464f916d7ce5f2, 0x58bb77287937f0af, 0xde886197216bd782, 0x75f98af212f11e1],
    [0x1bca45f39d337e9d, 0xa15cc1625102ae51, 0xaa19cdfec726fa3f, 0x2abd9e16b7b48289],
    [0x5983d1715cc602d3, 0xca8ff495cd27ea47, 0xed8c161997ed55c8, 0x128d5ad7a08858a2],
    [0xe3239d4b56f7868e, 0xf375e03bcf06951d, 0x2005e7d13c1861e5, 0x75c499dc0dfb0ce],
    [0xabe189b50710f87d, 0x9cf7f3fcdd33634a, 0x879d4490a8ae7a9d, 0x2917faec22c04d8b],
    [0x2105284bce7cc346, 0x5cf6fdf391359563, 0x5d97e62178663f99, 0x1a86eef4ec1b75a7],
    [0xa887af7870c0ffc0, 0x7a25462092e90e7e, 0xdcba4b6b68675b10, 0x65be02d94e4417e],
    [0x5411f9c62ac84d87, 0x7984ef52c9b153f1, 0xbeb7f5a66264360c, 0x2a1d799daf1e300a],
    [0xce4ae1c653f087dd, 0x23f270ba4a5e41d2, 0x49f760a6365e8148, 0x17c036c19ef80854],
    [0x7f150945893382bc, 0xc8490057b9cbe8c1, 0xa37ce71d5c77ae83, 0x2151cb617d9f323c],
    [0x7bbe4d7465d9f20d, 0x2c47ac803ed9424b, 0x401f7361f74ce16, 0x24624a8c4bf96cf5],
    [0x205fa8487f82a3a1, 0xfdb59f2055ff15ef, 0x6507877763b572cc, 0x2c01122a63dbde58],
    [0xab6e8c0fd2bd111b, 0xa4d0e28d7dc164f6, 0x40993b5efc7d317c, 0x17a88764e660e919],
    [0x316a7027a9b2d208, 0x15bb20880cd9a1d9, 0x8199873b142845c0, 0x2287b5e929e98ac3],
    [0x1bca45f39d337e9d, 0xa15cc1625102ae51, 0xaa19cdfec726fa3f, 0x2abd9e16b7b48289],
    [0xa218b94c0a330b87, 0xcd874e81c49836fa, 0x58ed36e0a72ebbfb, 0x25527f081eab2b32],
    [0xcf7a8ca58c9b57f9, 0xec2129acf9a34948, 0x31821e0909bc4c7b, 0x186169de0e37c01f],
    [0x1d1255c999d3daa5, 0x384a22972d86d19, 0x50979fd72764614e, 0x6d5d287a7a8d096],
    [0x28e61de098e4ecf8, 0xe7aeb1dda64d5902, 0x61c58c8966f5cc90, 0x2c1f7628e8aaaee2],
    [0x681bb1352f1d4fa1, 0x9a5bd53a69966681, 0x98871ebfaf81b0b8, 0x1c3761c8c7a1ee1f],
    [0xaef305318707e365, 0x8e3e9afd0c9858d6, 0x421fba59295456c9, 0x14d1774293d8bb21],
    [0xd1e76b1916458f72, 0xce12171c7c3bc4b9, 0x6cae058be1dc9e56, 0x1df2d2c614e4fe2a],
    [0x3f2a90ae404beb2b, 0x276061b606acce30, 0x59d8b58e4bc2595b, 0xf27fd9322adc748],
    [0x89e84b5f444f7a99, 0x52c2072e6fb28c06, 0x72a606b46e95bd4b, 0xa2aeb992439b6e3],
    [0x9de2f3dd650e9b7, 0x3d47784e77db53af, 0x2252bc0490e7640a, 0x23e0b17792144b00],
    [0x5e62c11c5af5d006, 0x4fc38b2eb0d87e7e, 0x44e77232cd220222, 0x2aec9631493082d8],
    [0xf4ac4cb35e2f21fa, 0x251f6e0174e59c5f, 0xa337815fa4f40d51, 0x131847cf279637a5],
    [0x1bca45f39d337e9d, 0xa15cc1625102ae51, 0xaa19cdfec726fa3f, 0x2abd9e16b7b48289],
    [0xedf01645332dcec8, 0xc99bf55fed83fe42, 0x4d205b2b92ef4a87, 0x1c8f5a7ebf52e450],
    [0x289a4bc0c565fdcb, 0x47d898f4b516db4a, 0xa59d90d324a9ad84, 0x1eed962a391acaa8],
    [0x3ed92bc07d2ac4e7, 0x11ed7e99a43db911, 0xb64a49b484840ebb, 0x2b7c65f02b600d4c],
    [0xf0e1f454ae3e6d51, 0x966ee34e7224c738, 0xfe3b027b3f9877d0, 0x2b21e821c34c25f6],
    [0x7964a9fa4d8d16ab, 0x6fe5ff9928bce0b1, 0xe5fc129b95d12954, 0x2331843ec8156532],
    [0xe13d3805464273ac, 0x37761a018d0cf78, 0x829fa14df6356c60, 0x22dfdad5cbedc015],
    [0x6efa9356b471cd62, 0x2cb8b5e6e949906e, 0x7a33e1bfcd073edd, 0x292c701ad0a3bf42],
    [0x7a9c2481f51c587, 0xd96d348e78a7e361, 0x1b0d14d04b927f0a, 0x253d7f1f0d16d4a2],
    [0x86b366793b5b89ca, 0x25fa37a17f07d9cd, 0x196c25f570d20279, 0x12f89c0d808f729c],
    [0x5d165672d727d4b7, 0xc4c5d6f1587f24d, 0xb7feb9b2996877e0, 0x28739fec5ce7338d],
    [0x32068d43e00d87d6, 0x5d50bbfa4b6ee211, 0x31330c131c06f9de, 0x2ae7492c4a9864de],
    [0xd28db3dd1de5fe75, 0x2428a54ee04d51b7, 0x62fe02b69859138f, 0x22d24c6c5b0ddfc1],
    [0x1bca45f39d337e9d, 0xa15cc1625102ae51, 0xaa19cdfec726fa3f, 0x2abd9e16b7b48289],
    [0xd96b724c4b7a0848, 0x595b1c1a31499dac, 0x62e2716588f873bd, 0xce556d3d5727d4e],
    [0xba4c105625e428f2, 0x19a2d1b6523bb1c0, 0x80bc945c9284a0ac, 0x2e9e730ca4be19d1],
    [0x9bdc519a37573214, 0x33615c42212e9e75, 0xdfe205ca54c24f7f, 0x662d03f6ae59288],
    [0x876f4538bd398d03, 0xd450757eeebc88a4, 0xec5284ca63b4bfa2, 0x130fb7df8e39fffd],
    [0x9eb71abd536a9673, 0xe27a824e337e1e9, 0x932404d34fd7307, 0x16a882ce517234ae],
    [0xce4eb347dff10b8d, 0xc43717bfdd344a22, 0xb5b63267ab07fb4a, 0x29c0802ac349b823],
    [0xd22eb8846f62700d, 0x4d4692db13e1efbe, 0xc1b0892ce3a849ca, 0x26a04ea7406058b],
    [0x7e72d053acbcdd16, 0x690182d5901c6cd1, 0xdc22c5ddcfa7e5c0, 0x190401694ed647ae],
    [0x85a7be721dc2593d, 0x60d2ca4ed3c8904a, 0x15fd95e70ce61c17, 0x210d51487ac153bd],
    [0x1756cb005641b641, 0x9abb093463df4817, 0x254538e7e34f31c9, 0xb0b2f1b7b01b969],
    [0x7307c9940076206f, 0xb4eca3ceda40ee4b, 0x88a37b7e8c4e4f6, 0x28c21cf93221e40e],
    [0xcc67caaf0e5804ae, 0x744931224d78ea55, 0xd4b47df9a6f6e7ae, 0x6131acfb2371ea],
    [0x1bca45f39d337e9d, 0xa15cc1625102ae51, 0xaa19cdfec726fa3f, 0x2abd9e16b7b48289],
    [0xe1064e61e9482210, 0xdd23075c9d02b679, 0xeafda183476a1a5a, 0x2bebdfc924b28a04],
    [0x2c22344f2adb72d5, 0xf6e3a1cb1f21142e, 0x3b31fd4e1e346eeb, 0x1faf98e88f530666],
    [0x688e9fbc2bd2f305, 0x306371ab23ababb0, 0x9878634ac766c48a, 0x22cb488da424d56b],
    [0xec68919d131a0c62, 0x8d8faef0992a2c2c, 0x815b159db10956d5, 0x1ebc0f4f5901ae74],
    [0xb8fc3fd7fea381b8, 0x83b0f02bf4ccfb0a, 0xdada0aec9e743bb2, 0x29c4ecf2d8c9d693],
    [0xb2fbfd798398919a, 0xcb74d3603bc839ee, 0x9277c81df9f8f3a7, 0x2c4a092b45660f07],
    [0x782f7ff4f7f18618, 0xfb11f6f1a5f9fbc2, 0x4011ca83e7a29a83, 0x145c56ab4720f6ad],
    [0xee45cde9714261b6, 0xebe815d51f180e1d, 0xf849cd656c9f76c7, 0x2809c4d7a6aa62c],
    [0x4cf5faaad83c1319, 0xf86fd6491a729c1b, 0x6dbdb9c1a45f273f, 0x14881d4e8659014f],
    [0x71aac189ff90a6a, 0x20a6f08b0f2dc3ef, 0x85b186d2ceebb3c5, 0x2e10104a54b4dee2],
    [0x686995e7f6de9011, 0xf1a539ef39f3f7f1, 0x783e9673f47a57a4, 0x1aa6d9185256a7da],
    [0x2dd632611f0514d9, 0x79ba472a07a5fff2, 0x9e1c90a35c759450, 0x1433a78ede2442f2],
    [0x1bca45f39d337e9d, 0xa15cc1625102ae51, 0xaa19cdfec726fa3f, 0x2abd9e16b7b48289],
    [0xe0cc4c8c0971fddc, 0x5ad758d985010990, 0x534d3373d425b2e6, 0x2113235e983b253],
    [0x6a4c79b90cdb6c80, 0x91f22a19776d9e39, 0x50c0479d3b77eb9d, 0x2bbe5669cac7d090],
    [0xc2383a40f45918c5, 0x74bce1d96cc2b4ca, 0xcdfd39448e3ce48f, 0x251dce15ba53f2f],
    [0x54422c0c00a3b47f, 0xd1301236e4a469f1, 0x27ce1fbea8085d27, 0x25af3b31579c2c02],
    [0x276fd7413071aa3d, 0x821c2de5fec03914, 0x19a47ad9bd6d800b, 0x101f2400d1e814d0],
    [0x7647f808fa4a7b36, 0x8313cafdc2f4889f, 0x54a1d66197e6a781, 0x1976bfe379365413],
    [0xd57223812b6abd2c, 0x3a783e28659eb7f9, 0x762ccd8db939102, 0x223ac76deff06a63],
    [0x6c0e186ed73da3a5, 0x66d13274d40c3762, 0x84d3fe77f06d349c, 0x2ac83b6435ac4673],
    [0x2ac15f06e13ef92a, 0xf75fa604f833d02e, 0xd204e4652afab236, 0x1075e744bd71d84c],
    [0x5da1483c2633015, 0xd5c2945f68dc758f, 0x70daaeb0e82af4cb, 0x9684685d0631b21],
    [0xee52b1aced908f2a, 0x1a9e41dc376fd1f7, 0xf67d029c700ac0bc, 0x292e0a7a8cc10221],
    [0xb902ff47cec50d1b, 0x2d27ed4d0159955d, 0x99c5d7b77069e8eb, 0x1592dd8fded27b04],
    [0x1bca45f39d337e9d, 0xa15cc1625102ae51, 0xaa19cdfec726fa3f, 0x2abd9e16b7b48289],
    [0xeccfe8db89446397, 0x48a5b3b96f4cc9a5, 0x2c91156b83b5283f, 0x116530f478299054],
    [0x4538c7c1ff354fbe, 0xb7ab876d9f646d0f, 0x8d2cc9d5b4ef2a93, 0x20792a7c07e235c0],
    [0xa82e6d53a3babbcc, 0x1b7db38e654c0f69, 0xfa4b8d5af9d93bc2, 0x1c934293f228bc73],
    [0xc9a6e2e200b15c29, 0x78187541c3f2b877, 0x325bcd49c6177781, 0xadac0d1a0eb882f],
    [0xa8d635c0d135b409, 0xd9fe33539bd0e8b, 0x48572e52577108cf, 0x23788446ab58d10e],
    [0xb0ef00e692a591f8, 0x7bdd6323777ffed4, 0xe2bf988b86fdc7d1, 0x2745bd6d0a95fe5b],
    [0xb43fa8df769ee178, 0x1bc5a2767206d506, 0x3acd9d66de86ad0a, 0x17cdaa3978f7d924],
    [0x5d6b0da518c6b221, 0x63b9eafaa858e445, 0xd65a7de60fe3d4b0, 0x1cacfa3a8850decd],
    [0xa099893932fd3e6f, 0xda67a5c3b2bfa99e, 0xecde1e1932143f97, 0x2291ce130877baac],
    [0xe3d94ebca832c3ed, 0x363ac5bdc8aefa6b, 0x852d217be0744d63, 0x15adba2fc3b14d20],
    [0x37ad6ee307e9cade, 0x8a2de06dce5d9d71, 0xcc7d367cd48d4b87, 0x150619b091f5304c],
    [0x77ef2be93c2b1499, 0x5872388694c45483, 0xd05a49cfae4907c0, 0x6bcd482b40a5463],
    [0x1bca45f39d337e9d, 0xa15cc1625102ae51, 0xaa19cdfec726fa3f, 0x2abd9e16b7b48289],
    [0xa79f0051aab7199d, 0x890f78927c5b7898, 0x2c36546b68ca0dd3, 0xc678bf7b43613dd],
    [0x3f68a54625342b6c, 0x2bad31738654829e, 0xdd9659d06180dd77, 0x4d55e1ef8446fdf],
    [0x64776d9947a25578, 0x637cad312badb496, 0xecdb1c11311e7848, 0x17451474d0a043f2],
    [0xcec3f1c1c3a4b001, 0x2823e0d4c0c27a6b, 0x5bbe1e4c78bcaabb, 0x166f2116cf6846c8],
    [0xffd1568645e83f39, 0x5071c792f61145f1, 0x74ac56cfbd0fbb7f, 0x1d2d00463d86b764],
    [0x1f303eff8439447e, 0x5f16d917e5786ccd, 0x36cf7a1bbe3b6d36, 0x52fa6833906fac6],
    [0x14d0c6496e66669f, 0x510c37acbb47b5a, 0xbdf163a8d1ef89b7, 0x1aee2e06db5d4e2e],
    [0x5b97ee4108026fb9, 0x82611412743944d2, 0x4c0c403a8c99cd95, 0x1e4d0a71dca74b2d],
    [0xa051e927ae3fa2f3, 0x25e25fc5f9395a42, 0x96cbe558f0fc6624, 0x1a31ea0102b313bc],
    [0x70fc5813840b9bc1, 0xbebc91b4adc4625c, 0x67b62afc214c8e89, 0x2e7d99fc4631683d],
    [0xc8c0bc50f2aa8051, 0xcd24c1a3e7e7f3b5, 0x2c10e4b63344e564, 0xba02e66d788b4db],
    [0x15993fd44b9b9ae2, 0x307fea623ff00a4c, 0xe4f1b6256929ec89, 0x1938e6cee09167f],
    [0x1bca45f39d337e9d, 0xa15cc1625102ae51, 0xaa19cdfec726fa3f, 0x2abd9e16b7b48289],
    [0xd87d42245d3085dd, 0x62292d75633e5a98, 0x73fc2758114ac04d, 0x24ea9e2b25c1d109],
    [0xf9482a5bdc1c6615, 0xb4626d9e8ad61295, 0xa9fe724d8c7ef9e4, 0xb7f3dadf80c5be4],
    [0x36fbf957353545df, 0xcc6e704349739716, 0x738e9c1d8e291d7d, 0x6d9a25f5efafbe0],
    [0x53c1d14909a73b92, 0x7640f6b2910f8546, 0x1c1957a6ff6ea503, 0x57d08da194c641d],
    [0x11b3636a5098a628, 0x5188abf94b4f1274, 0xcae56ef5a808308a, 0x1b1c3fb5c7160d87],
    [0x4727259267b599d1, 0x4eba1148b92b1d46, 0x6bcb7f3e5259e455, 0x4e0f9b281f00e24],
    [0xa2f1f40a41b2aac9, 0x6891b55bf02398c2, 0xd6912779c79b566c, 0x1f31a5baeff037ed],
    [0x882e757bb5150709, 0xf6a61924d14810ec, 0x7cb5836794e1f821, 0x24ecaac4d6023fb2],
    [0x13971fdcf1791394, 0xa4f58f0c0213bd22, 0xfb1a1fa09bb3fc4e, 0x151f138379a4341c],
    [0x25651e92564c2fe9, 0xed45cbf641991854, 0xc5700394e863341d, 0x1f8ffc956b5fa5f6],
    [0x79ff7238d60627ed, 0x56992c8b5bd1ce38, 0x4915e7cf1637974, 0x17ec84b7ec93fc72],
    [0xca10c98e70cc2354, 0xbd2db5102b2c193a, 0xc6203edf65ee56de, 0x3a67e721da24139],
    [0x1bca45f39d337e9d, 0xa15cc1625102ae51, 0xaa19cdfec726fa3f, 0x2abd9e16b7b48289],
    [0xd6edcad0bf96967b, 0xbe1e2ae312bc504c, 0x92b96e2fe73c3ef1, 0x199a8c4c63048f8c],
    [0x6bfa9b1322bbc58, 0x8c6b2455e019872a, 0x431a1f27ee637d09, 0x20d5d5315614291c],
    [0x2bbe1f148eedb60f, 0xbb1471cb4faea126, 0x2b36c9a0bef8906a, 0x204e87cda44e50d7],
    [0xc9abac80aedf519a, 0x9884297d7320b3d2, 0xcdbe69bf7e65863b, 0x1ae0dc4cf8615ef],
    [0x329fd07d0daab63, 0xf907fd733a753133, 0x7f566c8969b47605, 0x19ddcb6e70352039],
    [0x4068b69f3b58ca57, 0x64f8c6f9cbfda821, 0x549e5bf1205ac163, 0x224f871490b12271],
    [0x6eafd2c17faee5c5, 0x2bcc42261232cda9, 0xd54f0ce4ee1c7405, 0x305888f9b716c0aa],
    [0xbbde16ecdb407edf, 0x483846428e52ed4f, 0x4090fc46bf370854, 0x797616b6e3a31ba],
    [0x7e702611295e06b6, 0xf474fd4c077fa2b2, 0xa9ab86b469c6c9bd, 0x10d0c9c192672de1],
    [0xf942517bf2775c29, 0xdf695abe01712409, 0x144f0cdf7873acdc, 0x1bbe4c061e88ab93],
    [0x68d968627ce38fcc, 0xcccc9b2f0fab04fc, 0xf0e0b407e1f1691a, 0x3f37c5294f581a],
    [0x96e024258a63d84c, 0xae12879304e6567e, 0x31df18b06d6d8baa, 0x10fd1cac03512849],
    [0x1bca45f39d337e9d, 0xa15cc1625102ae51, 0xaa19cdfec726fa3f, 0x2abd9e16b7b48289],
    [0xd0884a6e5a970c95, 0x2480e40b5082c1e4, 0x598530075c2dfed9, 0x2f4ce93fa6f69179],
    [0xb56d7ff786a5411f, 0xbf41e16d1aea5d66, 0x56ba67124986f27f, 0x48aa1e38a66c3d6],
    [0xfbad2b96aa800a55, 0x43a6d52c2826038b, 0xbb94e1fbaff46a46, 0x69328b6c9761099],
    [0x3d5484264fe2ec7e, 0xc4ea9a34428b568b, 0x176034f538bb3355, 0x18c5dfbb9611df4c],
    [0x52883875e3469e5f, 0xc9c575aed8eee7a9, 0xf1a060bbfcc20bf6, 0x250964c6e716f188],
    [0xc542f743029d3680, 0x242a375056b3ebee, 0xf7449981d952e200, 0x1cafc40f71b4ea55],
    [0x26b6fd73650eab00, 0x4d7d9907194ffff9, 0x73b66d7d11fe53bf, 0x1e345fd27b75da9f],
    [0x6d811dcd725656bb, 0xd1ddf28c14c2ef29, 0x5cf6d297f3fb0966, 0x1f86c19a4e41622c],
    [0x1674dfe2de960aed, 0x56676c8555e15e33, 0xa258f5306f020177, 0x67a9ca314c1b989],
    [0x2880d1534fbd954f, 0x83ddd8d5336cd2b7, 0x66a9fcb7745c7111, 0x1a8c2c393c5940ee],
    [0x2adf6f3b56a2762c, 0x97270b95536978, 0x33f29cf85eb4268e, 0x2d0fe4e3cea76d8b],
    [0xde70e7c057acaecd, 0xe7d591b331beca39, 0x60ace088b5682357, 0x83f71c1657f4603],
    [0x1bca45f39d337e9d, 0xa15cc1625102ae51, 0xaa19cdfec726fa3f, 0x2abd9e16b7b48289],
    [0x247695140f7ae6b, 0x47dca910ddf67e61, 0xc9476e1df7b7ec54, 0x1029b4658ee5d03],
    [0x8a105b0f5f6c5088, 0x710a8cb23cd64bf, 0x6d15b471d034a31c, 0x2d2fbe8b4aa2a78e],
    [0xc95a48ef8fd32ec8, 0x44b06076755e64db, 0x1d4035f2fae3ce2e, 0x2c68d13a038f7cc2],
    [0xca3a2605e2afafe9, 0x216195cd6ac89e9c, 0xb645c439abd003cf, 0x255433e441013f28],
    [0x1d6a435d192c0606, 0x840b9ac5f91f73bc, 0x954f1b2cf0798c44, 0x2b6131efd66fa044],
    [0xbe1240c70dac54c4, 0xe9f30f6125953caa, 0x94e4faa45ef8950, 0xc50cf3d47abc4d5],
    [0xe0568493f353b438, 0xf888f0bb9f233aca, 0xf957a8683f2dc7a0, 0x19ac7bb02c466c14],
    [0x7ac2bb05a5f43d49, 0x257a8560daab00be, 0x70db189d5439192d, 0x134932780855ca4e],
];

/// Part 1 of the sparse partial-round rows for width 7, as little-endian limbs.
pub const S_DATA_1: [[u64; 4]; 256] = [
    [0x5de4ea7e5443845a, 0xf755691cdb4cf7cc, 0x8f6e8c521fb5b375, 0x14652e3f019f1895],
    [0xb8abc115e4059685, 0x4001261e2c1b0013, 0x38bd14dfa58f7a77, 0xeee4bb3c7a628fe],
    [0xae6f305cbb0dc77e, 0xa709ff285387c064, 0x6d86621d021c46db, 0x1ad10967a8fa3bd3],
    [0x129980ffe0ceb943, 0x59ab386ffca63596, 0x37f1151ced67bd10, 0x6fc3833718a4e89],
    [0x1bca45f39d337e9d, 0xa15cc1625102ae51, 0xaa19cdfec726fa3f, 0x2abd9e16b7b48289],
    [0x78704c75576c7e1, 0x58b4682283da2d2, 0x4851155d386e13b0, 0x16d751a67c79f991],
    [0x642d5201fd40252f, 0x68b3ef18a20ecf50, 0x27e85a03d6501a29, 0x2ded2eddee5893bd],
    [0x8beeedbee104929b, 0xda811ef8fa08b90d, 0xc2ee56e825e80ee2, 0x1ac7670ba55f7ee1],
    [0x74dfec5e1202712d, 0x8c9b83b3e8e52347, 0x6a012f10e3f27e0d, 0x64cfb658abd6670],
    [0xaff5b24ce1303ddb, 0x6a8cdf753d18d336, 0xdc162c4595f484fc, 0x806d16963ae96ba],
    [0x8305739c39c3951b, 0x3c9a8792967e4437, 0x64c92ca38fad5342, 0x148cd069f578f6a8],
    [0x6feac9afc85f45d3, 0x4750a3a5bf1977fb, 0x4ab794ed86a4b94f, 0x1513984d0c1ca0b2],
    [0x61b34717a9561bf6, 0x44764f0d2af6ab54, 0xe7f8e410139a65ea, 0x51f998093e4dbb4],
    [0xe16cd2d35a18db0b, 0x5409886811152634, 0x5bd03728de507a7c, 0x1f87df4d84ecd7b5],
    [0xf98886bad442108c, 0xb17904341594daa5, 0xf6d2f31c5be42795, 0x956f375546f0b19],
    [0xf3fc632938130339, 0x50f1ecf009ab004, 0x62c25f3dc43f1f5e, 0xf17b03f697af656],
    [0x5d1cc7c94c9536d, 0xee54bb280af99fdd, 0xc0534db03b0f6ba6, 0x2d40326e94d3dd13],
    [0x1bca45f39d337e9d, 0xa15cc1625102ae51, 0xaa19cdfec726fa3f, 0x2abd9e16b7b48289],
    [0x87d6a7f93a018508, 0xe02f75d1e193a217, 0xd29b0a5002b16ab0, 0x2b0eee4044939efe],
    [0x38d7182d52b1b4a9, 0xdfcc7eca8fdaa57f, 0x304fc1e713c622d1, 0x1b59d055ed845b4c],
    [0xc81fc9c6a11036a6, 0xeef5a1efc020c7e3, 0xbefe07a088507412, 0x1d2d4adfe8bf73ce],
    [0xf7168ffa2d02d2e0, 0xb258f9fad70fe242, 0x56a3ccfcaf70acf2, 0x2857125d19ae9268],
    [0x2f874671f75d7c81, 0x3728c6e410a57db8, 0x68691a65495006eb, 0x2f1da0ad4d4cdbd8],
    [0x74f6209c4b6173ce, 0xa333002340a4bfed, 0x6992bee62b3cd7d2, 0x294d34350a9bbf72],
    [0xe568612ff96b602c, 0xe7fbd677905b2e17, 0xa5a2401f102d65f5, 0x16e5f374066b223c],
    [0x81321c4877b7fc31, 0xc79fbea66c018f28, 0x7225c79dcc9db569, 0x17c1bc44d7070641],
    [0xd73b17902cc0d359, 0x86a49776e94760a4, 0x18ee4425f88edba9, 0x264cd13057b36355],
    [0xa9d748e5aae95827, 0xf7a8fd3725c62070, 0x9701a0f231114c0e, 0x2b8fa1e65fdb4598],
    [0x3c9d62b17acfd6e8, 0xbb54a6ee57168846, 0xa7e2f266ae7b3f1b, 0x79f16e76efaa3ca],
    [0x2ee247c170f71d25, 0x7759e63d0fc6069d, 0x3c552cf41b68b48a, 0x1c5a6ff0893053c4],
    [0x1bca45f39d337e9d, 0xa15cc1625102ae51, 0xaa19cdfec726fa3f, 0x2abd9e16b7b48289],
    [0x4ad99ec0a7938a26, 0xf5c97b08407a469c, 0x1b7dbd02eba6e8ed, 0x277dcb1f82810d09],
    [0xf9051b2cbacd5238, 0x2e6e5182cd8b8c47, 0xc5f01907a91c6208, 0x1507357ce338a6f1],
    [0xbb473e2bfc273cb0, 0xda7318244c57696b, 0xe8d6ec643727c394, 0x10d9fb4dc60b7064],
    [0x5417afc92cc78979, 0x21a2e16760ac1739, 0x3816cf02db477c5c, 0x51cdb7af55af148],
    [0x30178a47e5c34dc0, 0x7d61518a67546fd4, 0xf0b1b05406e58ea3, 0x57d7491951dbf51],
    [0xfa92e603d4129ec1, 0x955b38097568c306, 0xbd7f2436bad315a3, 0x1a512039992c0d21],
    [0xbfdaf5a17c1a71a6, 0x341d0d90150b0031, 0x1f583df677a7313f, 0x3047f751d881408a],
    [0x64daa5f09d127d6, 0xf23f4c143f6bb98b, 0x63818039527bbbbc, 0x182d95d647c5f273],
    [0xb9b65ef0e24c2aff, 0xf8cfb0fa6a82375, 0x8b26bd63395f522e, 0x25973c85813c7ec7],
    [0xd492b268e2bd4d0a, 0xbbe286a9512a0f7d, 0xd5c420908f1aa18f, 0x30016e4e94afa204],
    [0xb231f784a6a16f6c, 0x3449cf3e56dfbc87, 0xa0347e7d3cead666, 0xde8759915e7ab1b],
    [0x7c1e5170569bb6b6, 0xc2a871799020681e, 0xbb3ccb30f9a8d337, 0x2b3e7d63f286ab49],
    [0x1bca45f39d337e9d, 0xa15cc1625102ae51, 0xaa19cdfec726fa3f, 0x2abd9e16b7b48289],
    [0xd9f0084ce1785718, 0xcb4ac439abab7bad, 0x4a494d3c307ec715, 0x22f6dc515f2a6d84],
    [0x940ea6816db2d4ed, 0x1818a3321f64d15d, 0x8d3c68f3f699197d, 0x1ec843ef7fd4d407],
    [0x42d421d1d744859c, 0x3eb1fe296f51266e, 0x8175e215bb793741, 0x27488355bc40e3b4],
    [0x51e1ad38f3ca6666, 0x6658634d6bb91522, 0x4b05fcc700ee9593, 0x2e5cb786cdfbe0c7],
    [0xc773328e1b887f51, 0x2cb01e9a458f3e61, 0x2ee3f481121a0454, 0x92f4b8b30e89544],
    [0x947becc68c00a873, 0x187bb016069c33b3, 0xbdabfbf7ac5c27c0, 0x2943525f7b6302dc],
    [0x8ac9baf66b1b8487, 0xcdbcc3b1c0f5bbee, 0x19411d42edfbcb0, 0x22a61651f69e2636],
    [0x658f4e216b0d7925, 0xdd9665d93b04099, 0xec4448fbae1ea6c4, 0xcd43ea643c19e6e],
    [0xbab0edf79d746644, 0x2aa651db3d14d5ad, 0x4de58d5b4ebce0f3, 0xe6fb9ac72a3c475],
    [0x1f02beca3cbef04d, 0x34ade10d742313d8, 0x2f57e8a25131e395, 0xe18bf3657ce5900],
    [0x52e06e559bc049f2, 0xbc9fb15e260bed35, 0xfe6f114bafbbd67b, 0x24d31ca462d9f59d],
    [0x297d44a0e300b093, 0xc5742c090f7a707e, 0xe668d7eac5c8bf51, 0x1663ec74cf67dbb8],
    [0x1bca45f39d337e9d, 0xa15cc1625102ae51, 0xaa19cdfec726fa3f, 0x2abd9e16b7b48289],
    [0x5289e0f02a5351cb, 0xce6226130a63cb90, 0x5bd8ca7b3ded11c3, 0x159eca9b923d7cbe],
    [0x666d33a0159b1193, 0x61236d423321e6ca, 0x3f3c31aa583ebf80, 0x2abbc33b435baed6],
    [0x69b742d5bc789ce, 0x6b50276230b06c98, 0xe314beb8b7dffae4, 0x22798974294faef1],
    [0x6be5a621d604f15f, 0x249b7ca301d1080a, 0xdd298ada142c577a, 0x56841bcb1c18a70],
    [0x24a51d02f9946cd2, 0xa792d40d71e5c5dc, 0x966399d381bdc7b8, 0x1823a55887acaf96],
    [0x4af8e20ef711842b, 0x8ec6f3db90fc2888, 0xd911e61b68f4a692, 0x27bb9a8678b0a2cb],
    [0xce966ab89de71f10, 0x4977c4cbb90ed1be, 0x84b0e7dd45145a75, 0x1391eb35e10db17d],
    [0xa7c346dfadcf99d8, 0xcbc20df09fefb4fe, 0x1affe0c6bc2034a, 0x1ddaad4930fb9cff],
    [0xefe1e969535a6a8c, 0xefb101edf31f3646, 0xb51ca8d529d6aea1, 0x967a6467b486450],
    [0xda16158d0059f32d, 0x417af365a5bd3cde, 0x606d579d3682ee71, 0x26edad91bcac2202],
    [0x639b152896773878, 0xb5301a6e748809ee, 0x448ee49d7e7531dc, 0x9c8e2fd871c35f3],
    [0x3ef5eeae2712a2fd, 0xee26e8ef87c64c8b, 0xfb3c5e3740c1d1ce, 0x2de254340f39689],
    [0x1bca45f39d337e9d, 0xa15cc1625102ae51, 0xaa19cdfec726fa3f, 0x2abd9e16b7b48289],
    [0x52f00ddb74f2456c, 0x72548aac7f407d8f, 0xae2f011e374de05f, 0x229ad4c71354c4b2],
    [0x2c1ff50cc948d5e5, 0x231dc51fca7ae9ef, 0x21be16db99bd43b9, 0x15d1ae9e3d615f83],
    [0xa4949c176b3fdd93, 0x3ed18e8e4c7fe44a, 0x1591a4a7ea6facb0, 0x1ad595eb60e44bda],
    [0x2f46382e6a57e567, 0x43ea3efba1386930, 0xd5686e18a1b1c938, 0x21c6b958e8a24ddf],
    [0x720896c55c1980e6, 0x8045e295b062dd4b, 0x8af217edbf9b213, 0x1b4643c47be36a96],
    [0x3ed0d032ad3cb58, 0x53cdef58ce2bf195, 0x2d11d905f569a68a, 0x44415df1dbbaf34],
    [0xc00302c6a1504fad, 0x70822f5cf0591cfb, 0x990d350e5be5b1be, 0x2b1b266d410ad7a8],
    [0xb5cc87db1efe81ad, 0x5ca199f9af3428a8, 0xea00b57abdeb9f4b, 0x3cf806a68e9ee25],
    [0x7e9e734072fee822, 0x923b35492c5691bc, 0x9c3e6acaaffa2c44, 0x1013c9c92352dfd0],
    [0xdc6567b8339286de, 0x6d4bc5280c3f45ad, 0x9608aa526d2f8686, 0x18afc92340649e0d],
    [0x36f3a71fc916a82d, 0xe17a4eeaccdb516f, 0xe35d2da4e50505b8, 0x265cff469832ff20],
    [0x8e9bafb43c47c973, 0x89b23b02f3525878, 0x74494e329206968b, 0xc83c2b9df3aa4a8],
    [0x1bca45f39d337e9d, 0xa15cc1625102ae51, 0xaa19cdfec726fa3f, 0x2abd9e16b7b48289],
    [0xd988a9ebc062b10a, 0x281be271d1300b11, 0x301b200756e26cf1, 0x10bfc00fe5269d28],
    [0x2ff39ba8aff4a4df, 0x475c1282eea708cf, 0x9b4edebbce405652, 0x303c1e41ec461453],
    [0xd54ac6a95f17500a, 0x8ffba89abd7a738e, 0xdf09e987a8bb4415, 0xcb8f9cbe9420f6a],
    [0xcbc0ad7a7bfaf796, 0x19d06f94304fb99d, 0xdc5b01ba7a891949, 0x2f0cb3011c761f84],
    [0x2ef25968dd2abad9, 0xaf056a02139fff9c, 0xd265b3ebcc0e778a, 0x10151a6d8c2e4d4d],
    [0xf6f3408655d36fc0, 0x107e2d64d1fa600, 0x16abf8455b858501, 0x1e50838bb4dc4ff2],
    [0xf19c97f1f9b5771b, 0x7ce76ea60b697b8f, 0xd074baa85e0989e5, 0x528850ff2c7cccc],
    [0x1c6a4fbd945a285b, 0x86f5783bd79164ea, 0xdebd1fbbd5b30034, 0xda83be0e16ae4e],
    [0x2ee2639b59101e65, 0xa0aa596fb9d828cf, 0x262952e1ac2141e5, 0x1bf809aaf61005aa],
    [0x3f7593a026ed371, 0x5392ce08a655f2bd, 0xd6791bb758f8abbe, 0x231a51ec8565bb72],
    [0x29c40eadb238f1f0, 0x7f8499f4a5597d34, 0x29f3cfd228e20be5, 0x227aa3bd08664336],
    [0x7eb546bdf2e9e4e8, 0x55fd79fd06180b3f, 0xe3210ca6df476b25, 0x272b5a76f45cf6ee],
    [0x1bca45f39d337e9d, 0xa15cc1625102ae51, 0xaa19cdfec726fa3f, 0x2abd9e16b7b48289],
    [0xb0cc16aa7570958, 0xdb276d02d3eff5e7, 0xe701b44726a176bc, 0xaba393911c001b6],
    [0xe9430cf05a7826a6, 0x86134a965872ff9e, 0x32f974eb110212f7, 0x282c157f6cc76142],
    [0xbaab9eb705d829b7, 0x7b821e96889b0dfe, 0xa543284ea7d12efa, 0x16cb3b06654e4997],
    [0xcb4e39332dedb205, 0x58c80ecee9c05c0f, 0x2af5f89126552fcb, 0x2364c3f74a3b18bc],
    [0x4b81f894d07fd0f, 0x1e7e7b4b56281847, 0x5d5bd1e042290c8d, 0x267b1113aa1f20f4],
    [0xb51b7b3a03e9812e, 0x604729fb27460fc1, 0xb6889b3e20026dbf, 0xbd187c337ead48],
    [0x3576c153dbb92654, 0x3bbb9dbc43e10829, 0x80480e51d758cf0e, 0x2691351a32661a90],
    [0x58772ac615f6c48b, 0x8b41060b9ae58806, 0x4ef620a47f29229b, 0x13c49152d941d366],
    [0x82800156ad18b438, 0x9388c25cd6a2b2d1, 0x43dccc099076b7ac, 0xac5e68b38810d53],
    [0x5f19841f1a826022, 0x3fa8093bd83667a9, 0x409fcf6bc1978d96, 0x18a7e5e6e2f6d92c],
    [0x5975764d97c3c38f, 0x84cede5a6a20aa76, 0x860abfe09f44cce5, 0x1ee76fbde9ff833d],
    [0x4444fe31e15c292, 0x588356d6737bb72d, 0x7e950c7f417aca14, 0x29139e18d1666668],
    [0x1bca45f39d337e9d, 0xa15cc1625102ae51, 0xaa19cdfec726fa3f, 0x2abd9e16b7b48289],
    [0xd828713c58e4cf72, 0x4dda5467ae001e4e, 0x5ced6d0e40bb327a, 0x27ff4617698e6b39],
    [0x77c34cf368d4d5fa, 0x22174ac6131c860d, 0x7b060a1125b5b83e, 0x1faeaa26b9d4016a],
    [0x1777f741f97d42af, 0x282b41f400aad004, 0x3130b1bf684a9bf, 0x116b96192f543b85],
    [0x9c48fdd333eaffd1, 0xf968a87ef9446835, 0x7cbc0748e9cc2bd2, 0x1ace40f357a52488],
    [0xc0c97a89c4f76b3, 0x8d2304266741ab5b, 0x63c4c2f8633e6d8f, 0xeb90e74f33e5375],
    [0x80ea2f4ed7230b2d, 0x2e6aaf2d8013a26d, 0x29d1d07a728029a2, 0x15f692b65b0e4a27],
    [0x9d671d12b3d81360, 0x7cd0f435355f9c9f, 0x38d234249d79a9d, 0x199c258f1265f41f],
    [0x58d235859cc38328, 0x55783d5cb1539cf3, 0x19f3d7ab5df282f8, 0x2aa4870dc13bc48b],
    [0x83217229d452336b, 0xb7014165df4207b, 0x8063774846b608be, 0x2fa96e08d4613eb7],
    [0xd1a6dce3b5af459e, 0xe142e7331c1a11e6, 0x74eef391fe603465, 0x1e45df6508abb41b],
    [0x426acecda2fced3a, 0x944065a068afdab3, 0xab49527c3bbd66e6, 0x157326de3fc278a3],
    [0xb6dd622fe9cf772c, 0x22c0547ff70bdcd6, 0xc03d32b9bb0e863, 0x13cbb184686e4e80],
    [0x1bca45f39d337e9d, 0xa15cc1625102ae51, 0xaa19cdfec726fa3f, 0x2abd9e16b7b48289],
    [0xc679fdc2e28c4935, 0x1c31e251405f24ed, 0x5511e946fa2bf8fd, 0x2195bf264d78f590],
    [0x87588c5329070ff8, 0x90b91574f283d98d, 0xf86cb9c27db0cd45, 0x2891a04c8c9333c3],
    [0x3c5e42d48a990b32, 0xbf90974712f1c15b, 0xd6024bcb7849e10, 0x25774ca47fb81e98],
    [0x4c095855a69489aa, 0x79a663ab864dd747, 0xdd8cf347d13bd9d6, 0x19afc1bfca44fab6],
    [0x4d1308aa36ee1f5e, 0xd9b7f330c5d71a3d, 0x91af5cdd8f33ba84, 0x2a855f3471535033],
    [0x3662087b50d3e183, 0xaf21c0b0551fe282, 0xd1f44fc39acee8a0, 0x2169a917b5586a2c],
    [0x4e44a859b82c083f, 0xcb4b37b64f753032, 0x9c94cfd1acda9fe4, 0x165c3839b46f2b8d],
    [0x843e578fe33ba26, 0x679d353987943401, 0xc23723541455fbfa, 0x12bf9acf97c5d1b2],
    [0x49a8d7d100b8d80a, 0xe07f8f141968bc70, 0x246a5bea2b5d467a, 0x973d4990abd501d],
    [0x7ca7f6e61f56450b, 0x3c341795c9fb1ea1, 0x560aed11919df7e9, 0x281a0f1018049ce5],
    [0x18fa142b787ba1d2, 0xd2b9f6e90b4f5664, 0x13850fdefc9f3e25, 0x1607dc7766404c5],
    [0xb215253b91c071af, 0xbee9f2fc908b0b19, 0xc53f55c79556f12, 0x100010328a776d1e],
    [0x1bca45f39d337e9d, 0xa15cc1625102ae51, 0xaa19cdfec726fa3f, 0x2abd9e16b7b48289],
    [0x3960d6da1da678bf, 0x413cc3a527fd7709, 0x6a9aa7a1695325b8, 0xfe6e334c004b36f],
    [0xdf458dc0c72492f6, 0x833477473f0742c7, 0xd61dcfaf9675cc88, 0x192c7a5566dbab04],
    [0x4cf1a2237279c28b, 0x55c22ee00fafaf9, 0x5e9b7d3a13cba3f9, 0x16d9f79f4e2e3289],
    [0x6f8724ed59924963, 0xaaabafe4c797eada, 0xc64df8177d69ce62, 0xb3c970c3abc81a5],
    [0x18f6e98dde188146, 0xf8552375c746fd93, 0xe9e98cdc6b1750c9, 0x1e3480b6b43165f2],
    [0x7f934a04901d717f, 0x7267a525315d03c2, 0x1627fbde78f83dfd, 0x3ed9978d698020e],
    [0x60e8ce1d97e81c27, 0x5550a7523e9840ed, 0xe7ec52bda6344211, 0x14f962e4f1786884],
    [0x2c3b8f339f1eb8ca, 0xd8be239da7c8da51, 0xbf0cad44a4c9f359, 0x352ef9bb93ac53f],
    [0xdca490734b41162a, 0xc18b7bc1d7643191, 0xf2ab5199f7fa038e, 0x1d7daf3d516993cd],
    [0x9f8f6a61701055bf, 0x2ef015cbd58c7d6b, 0x9859c4471c055869, 0x19c4fb9c7330292b],
    [0xc99147d79e119d66, 0xa327a1a5817ef4d0, 0x2a989b4959a6ce59, 0x22261c2ca798dbea],
    [0x937f2c33ef2b13e0, 0x835aecebcc805add, 0x91f32624282c0b91, 0x1c8a822a7cc949bc],
    [0x1bca45f39d337e9d, 0xa15cc1625102ae51, 0xaa19cdfec726fa3f, 0x2abd9e16b7b48289],
    [0xd96b64c074972866, 0x270d2edfb22b77f5, 0x501dfb8ee9f6b91c, 0x241eafca2ffd1a89],
    [0x3fbdb5aec7d3f21e, 0xaa3b24d803cfebfc, 0x25331359b950e96f, 0x1ebfd44d328c120e],
    [0xa40461f9966dba18, 0xceca4dd1f1bb242c, 0x29b72435e60ccb82, 0x1d45f9e955be39be],
    [0x5cf86f1274921934, 0x92747107cd1647f5, 0x17a8c72d1519c8d9, 0x3e68e982b6f9a13],
    [0x17bfb5cc6cf92164, 0xd4344aa62dffda5d, 0x127678cfdadc69ce, 0x24d58310c23fa88e],
    [0x381d23b98277564d, 0x45704c9debbf6c83, 0x712c9a030b14b40e, 0x277159e31996dcdb],
    [0x4849424cb08a1412, 0x289e05be8f7fae08, 0x584eca5fb9bc2479, 0x3fc9ff00ba6b7b1],
    [0x1008e062b103c7ed, 0x16984151ac388ae7, 0xb9f0c571a0327d5b, 0x102731ced3c51f13],
    [0x93401129babc51c5, 0xb00b17980637731a, 0x7e050f9240bdc67e, 0x2aec624f610d949b],
    [0x6b45086b8936e64, 0xa899286210dd11b0, 0x33e59d37c6c25354, 0x348bd0822fa0e57],
    [0x3ecdc8f6d6105a3b, 0x17000926dc62d337, 0x8e884726809202d7, 0xf7b4685de34e45e],
    [0xfa179e69e728ae0a, 0x5b9f5d4563975dde, 0x43cf514ec877c315, 0x229abf24fc333d26],
    [0x1bca45f39d337e9d, 0xa15cc1625102ae51, 0xaa19cdfec726fa3f, 0x2abd9e16b7b48289],
    [0x1d59bff4ea9cc738, 0xeb7f37c04d00ab39, 0xe0b9b0e13c13361b, 0x1e9a882703f9fc17],
    [0x8becd8ca934e18ee, 0x27ff35bd92ef713b, 0xc49500b4a1c817e1, 0x18ae81de5d561926],
    [0xae8213a7b976b467, 0x68711b69e35c618, 0xdccc03e386a591c9, 0xf691c4241640871],
    [0x264179d7c7c58367, 0xc5dbdeef63ba509d, 0x623f1a53996b79b1, 0x1dd3a781963eacb7],
    [0xcb8a418929a3bab4, 0xf7f32cf07d93a21d, 0xf74a868583f2da36, 0xe30b8151c59129],
    [0x63d4c50a522f04ee, 0x49210f48f31753fb, 0xb2d7b366d35468d4, 0x176a4a7f6bf803a3],
    [0xac438658e7284606, 0x610e7b9cb46ece6b, 0x4d4ba4ce8391caaf, 0x2d0138a0a5f60096],
    [0x5d7bb55c70bc3256, 0xdfd4ce63937a8e5f, 0x5cdd748c6b7e54c3, 0x1208049ec66dd8b3],
    [0x37767a3de6fb92ba, 0x896455fe34a3e3a9, 0xafaeb0f1d29166f2, 0x1c9f3c36dfe21664],
    [0xfbec4c3ea534b7bb, 0xf677c99a1afa4796, 0x5c4ca58ed2150867, 0x203ca885554ddda3],
    [0x3e4bc4042cf2fb8e, 0x12911fd94de85066, 0xeb6d48980e9f86b2, 0x20e28f5d901c425],
    [0xf7f19851a25147, 0x642327bb96f55a72, 0xca8953eb7713bf9c, 0x8eee40dacd3ba8],
    [0x1bca45f39d337e9d, 0xa15cc1625102ae51, 0xaa19cdfec726fa3f, 0x2abd9e16b7b48289],
    [0x67379b0dfed1707d, 0x34d66ecd6b4cb8ca, 0x4478018e4160a1cf, 0x2de2cac04d23e8f8],
    [0xec1f254146b0739d, 0x10a77ef655f646a8, 0x493e05d140722236, 0xdee104be28ba9a4],
    [0x5debaad2764c91b0, 0x6336b8267aeffda9, 0xc570cf4937bd3d71, 0x198546db1f9b3073],
    [0x2df35a01a4265e0c, 0x245b7a1797d4b769, 0xaad54873a099f7a5, 0x2df10c785477ccf2],
    [0xd8ae16ffe5aaed55, 0xd1952dabe6f4cbfa, 0x7f3c4d4da85d583, 0x38e6b803b72b22d],
    [0xd299ecb3b7d3ff95, 0xad0b53ee305429c5, 0xa0c513785f7f1aa1, 0x20ff66ad9f9056e8],
    [0xff2a4fdcd222fa0e, 0xeb02d188a234bdbc, 0x95ae1041e8ee8f25, 0x2662e4ce6ef014cf],
    [0xb61cdc2d73b5d96b, 0xbee5b5e17e8ee251, 0xc59e31ffb101a68e, 0x174299b27d180d0a],
    [0xb37f9144f7a1a24a, 0x32e1ddfc0ec113e9, 0xab760c4d73a7f051, 0x2cd73c6ce46c664b],
    [0xb9bf97faaa69cdfb, 0x298fbbba474875f7, 0x93a92af1b5b51688, 0x1c951a5015ebe458],
    [0x5deb9d79245a7c6a, 0x729f8e4d297289c4, 0x9f61c1b9d4f48e1a, 0x1292a82ec348fc63],
    [0x25d4d50134f1b624, 0x55fd9380ad96b12f, 0x8e7b286f147cd476, 0xa0eb1649895b702],
    [0x1bca45f39d337e9d, 0xa15cc1625102ae51, 0xaa19cdfec726fa3f, 0x2abd9e16b7b48289],
    [0xa3e6598a2b679888, 0x556aecc89b880549, 0x1277a47095c2e71a, 0x153879267fe585e4],
    [0xae5902ae4d53ac21, 0x7b24d7c384b2a278, 0xde44b0ddeaab78c0, 0x20564715ed17601e],
    [0x750f23ff4745d4bb, 0x4ab8592515a0f103, 0xea4ad6e115bfc629, 0x244a763e10b0ebfd],
    [0x31a85ce639d4d3fa, 0x170678ec4089d95e, 0x3a06f60301627b52, 0x2313de5d350a08f8],
    [0x3f47baaf8b2551, 0x8f947ebae5ef06f0, 0xa6c31f1d4a2c37d6, 0x2f61c7a357564272],
    [0xa7cad3c07377ba7d, 0xab368e2f17b123ac, 0x94b28c4bac74fd7b, 0x2ba56182022bfcaa],
    [0x3e1d9cc6def5a2bf, 0xf0c7eb553114d660, 0xbda9d015cfac4e1d, 0x903e97b86b03d63],
    [0x3f2027c93f6e0ff4, 0x38f73695829bdf75, 0xee376c9d03155d56, 0x17ef136a59507887],
    [0x175fb479596b429c, 0xd43523b52b89a216, 0xf07b485f9b61c97a, 0xd2cf9780d3b8665],
    [0x654d2f3d7ee3fa08, 0x3bbf64fa6a0dd716, 0xf988e1d16e1974db, 0x2cb10c6713c9c041],
    [0xb24261967f265c1, 0x87f4a5acfd0ac6b1, 0xe53465203478eb2a, 0x2a7fac0f7cce1677],
    [0x60834ebda805efce, 0x98b6f4eca4fa8c7f, 0xe9c8863adadf908f, 0x150f1a3251ea142c],
    [0x1bca45f39d337e9d, 0xa15cc1625102ae51, 0xaa19cdfec726fa3f, 0x2abd9e16b7b48289],
    [0x61537fbcb4e8ea54, 0x7305dbcd15238e0d, 0x2aba685459ba2d08, 0x1f5f9f0a9e722624],
    [0xf04ed461a49b5730, 0xd07873a4c628caad, 0xfdc01719aa2acfbb, 0xfec778388bd29f1],
    [0xc18848ed6843fdb0, 0xfa257e7a6bc97db, 0x30c52512f3947eb, 0x8fbb80d8ad67e52],
    [0xd07ad1b30ff72534, 0xa72e4485881f5c44, 0x22a67c3d2191d16f, 0x220ae6fc4a1411f9],
    [0x471099526125207, 0x7e73c4210b64f60d, 0xbf4a285f6b292f09, 0xc24db144fed773d],
    [0x485b8c5965716022, 0x63f9c284563c9b75, 0x14de5f8d9ff25fec, 0x153e33da5f9393fb],
    [0xbaee9842e771e0d, 0x8a4c6d1ddcdfbda7, 0x51176a21643ca8bf, 0x28190eec890ed4fb],
    [0x3ff46124ae2c671f, 0xbb4c1d76124bcb75, 0xedac97ade9cbe51c, 0xd352d314f8a649b],
    [0xf466c37df59f7a0c, 0x15ef98b4a5291ad1, 0x67b3b6771ac95791, 0x589454222f880ff],
    [0xa3573575b081525f, 0xe6a9cbae3e9a9eb1, 0xbf42d881932225d1, 0x707968b36327eb7],
    [0xbbbf5070ca3ba2cf, 0x9cf985b94ac08fba, 0x94ed3cfb07644a1d, 0x24d15b907584822d],
    [0xf3f1d6a729e8d0d7, 0xf4b5ac1a1d0ba807, 0x5628fc1a9c265a29, 0x2d51c48b63d9762],
    [0x1bca45f39d337e9d, 0xa15cc1625102ae51, 0xaa19cdfec726fa3f, 0x2abd9e16b7b48289],
    [0x9ce5c7e9f1482f3c, 0x2d6fe9ae4551c31d, 0x1635a66d82e8ffa5, 0xc5d3e1681af8c73],
    [0xbf938e67a40bb621, 0x7a2770e9960f8324, 0x7ab119d9c34a976c, 0x19f573c7bbaf4af5],
    [0x4322b70020af739a, 0x4aabd93d2c376a69, 0x63ae02346cfb050f, 0xdd53d93a158832a],
    [0x33156ae4eb44e5fe, 0x8084d4602e136c35, 0xfe2383a1a8279566, 0x122168471be451e1],
    [0x2d8438465b878fa4, 0x2f99e374f086433e, 0x68f8e4ca02a69df0, 0x181171e6af7921e2],
    [0xce0978e1005f1570, 0x40adbc6df6009941, 0x6bdba5aba1302f3c, 0x20fde424afb17151],
    [0xf83e57e3752726ac, 0xd6f2ae7ead5a0c62, 0xe4632110862a0e3c, 0xc999a3c07697cd6],
    [0x97fb485016642d1c, 0x7304a9b107664265, 0xf7c57808060a8a46, 0x181e43350d64b75d],
    [0x426830a140ba5520, 0xe91bdd794816a149, 0xf6e1013d81672149, 0x22f941438fb638d0],
    [0xa51cd859373b1d3a, 0xb8e0d2935a624c7a, 0x349df2a46633309, 0x27bc96df0a03fa54],
    [0x186876afb8b48b69, 0x8e71c420b8f3664, 0x480dfb6ad330157, 0xda6574a31cb0b01],
    [0xd3836a9728e75653, 0x783ef10510ef02, 0x29a00f18bdc6b13a, 0x2a932da3d493f5d2],
    [0x1bca45f39d337e9d, 0xa15cc1625102ae51, 0xaa19cdfec726fa3f, 0x2abd9e16b7b48289],
    [0xfef98860bc337607, 0x218db6bdd21e9558, 0x4b22675c84cbd527, 0x1aa840ec7905fbed],
    [0x2878ca814c48459d, 0x3ab2d26fd43dd225, 0x5ad36b277477c9d, 0x2c5107353c0edc8e],
    [0x72b822f8185ef3f8, 0x1245093d2731898a, 0x94a1630be67579d8, 0x1aced21cae771d02],
    [0x592aa7667346aaa8, 0x1a340c4747a1e24f, 0x8af1df2f86ca6647, 0x1a24a7fa4d6d549],
    [0x96aef3d95281e3a9, 0x92b3c76cd1ca7131, 0x8c66718013fc3f14, 0x289caf37dc4c64fd],
    [0xa38b2f37b7437802, 0xca8a3b3b55d39512, 0xddd6f9ea7464f3ca, 0x284c43505df8fa7],
    [0xa3086415e22a249a, 0x37bcb7e6a2f8571c, 0x86c850a7174848dd, 0x501489e7c91a130],
    [0x7f7bdf724637e7a5, 0x92d3895e5cf25097, 0xcf221392b1d8e8f2, 0x1d911e709cba9411],
    [0xc926edfebc0dd4a9, 0x25bb539cfecb7c16, 0xc4968fcc98192cac, 0x26ec755542bd45c2],
    [0xd36038116e858ceb, 0xa579e66c135d0ad0, 0x7d623861909909e8, 0x211b3d812f968746],
    [0x650db910dd555db5, 0x2702ee85860c2977, 0xff1c814c38d10957, 0x1835f5c44c7bec7b],
    [0xa594c57b40a76b48, 0xb353ca6326e9de8c, 0xce85c758c58576d6, 0x22bb08010cdd744a],
    [0x1bca45f39d337e9d, 0xa15cc1625102ae51, 0xaa19cdfec726fa3f, 0x2abd9e16b7b48289],
    [0xe818d493dd4d04d5, 0xfa8cb0f5a806ba37, 0xdb7cc60881b17996, 0x178bdbd863dfd248],
    [0x9eb2507db84b20dc, 0xda0e36b3045e8605, 0x1fbcd7c77ddfc8fe, 0x2c2feebc25c3e991],
    [0x13e40d7de6385414, 0x8097e1144e5f3868, 0x86ea1ca32cd7dd26, 0x1d8f0924e2fe93b7],
    [0x8b6986ee80515603, 0xca3b869f3889a3ef, 0xd946ea2d45e79b, 0x1d7b4297d5b583bc],
    [0x4adec48071d864ad, 0x1c627688af6a57ab, 0x306523e57a88ae2f, 0x6b29e8a6cd82571],
    [0x1301a8dada15649, 0xb64cbd50c98f2c0, 0x2248c05a5a51dc0f, 0x23f708026a073851],
    [0x7fd0a5b685aa1187, 0xcdacd8ac412858e3, 0x59afef99cc15b51c, 0xfb9b67606d1b70a],
    [0x3524206ced314cd2, 0xf78d7e5281b489d4, 0x14d7c84650e5683e, 0x2e507b8087200a7b],
    [0xd5788b3b423bfecf, 0x61da8f106e3df06f, 0x6b800469725bb7d3, 0x1bec098d210e06aa],
    [0xa590de1da8642172, 0xcacb8c01c644534f, 0x3388a7ea4728996f, 0x6ef2b78454ee5f4],
    [0xa370812bad2a66fc, 0xf302a3654da318bf, 0xb10d66142378f0f, 0xd5662f25569baaa],
    [0xfe631b4a8da64760, 0xe926b44890085b3, 0x9c695d67d64005c9, 0x2bf77b6c0aa149a7],
    [0x1bca45f39d337e9d, 0xa15cc1625102ae51, 0xaa19cdfec726fa3f, 0x2abd9e16b7b48289],
    [0x8566ba8aa9e86427, 0x5ecf484736f375f7, 0x6f1c37f12fcec0ef, 0x1bd8975c90ca4e35],
    [0x4022c846d69cdd69, 0xda64640954fd5e19, 0xd4b13e9d3c243f49, 0x2bebb46043c675d8],
    [0xf905113960314be1, 0x8743a1e8833a4146, 0x348206b136e17db4, 0x1fb7e54c00e38234],
    [0xb879294a40a9c396, 0xebd8e57d7a60be66, 0x48d3dfdcfdd164b9, 0xfa50d544f0434df],
];

/// Part 2 of the sparse partial-round rows for width 7, as little-endian limbs.
pub const S_DATA_2: [[u64; 4]; 256] = [
    [0x431796e9add5bdac, 0xf9b93067867be1f2, 0x66af04d9913f3200, 0x283ea6139b653266],
    [0xd31a15a7c56da8b4, 0xd40d83d968ec10aa, 0x1030578921fe09a5, 0x758ac2a306bb32c],
    [0x5d853830ea00ef3a, 0xb7f8a74140076883, 0x46bf7cba046d1f47, 0xf413088d4106e8a],
    [0x75b9a5850f814f28, 0x786fce88983fcf92, 0x86b2ca782dc4f7a6, 0x466358069d58f47],
    [0x3ff8b4cefa07047, 0xd1200f094ae6c16f, 0xb76743564dd5510e, 0x1385f23802d6bee8],
    [0xaf2cc88351d5419e, 0x45ccbfd1480a4882, 0x188436a0c50845d2, 0x108072d197cc79b4],
    [0x8e0fad90ab3f3a79, 0xdde62daeac24b786, 0x8d5d7ff7aef48259, 0xb6d297f7ec667c6],
    [0x5d3c607930b0aba9, 0x5cfcd1f78615c952, 0x8e551554f4c8be94, 0xc82418faf403bde],
    [0x1bca45f39d337e9d, 0xa15cc1625102ae51, 0xaa19cdfec726fa3f, 0x2abd9e16b7b48289],
    [0x414d91243adffdf5, 0xcaa8c47a390ce5e3, 0x490226d23936796, 0x297b1a1c6fb19a9f],
    [0xfba1aae1d39a2d97, 0x402064e2d32000dc, 0x3962f6bf1406d3da, 0x1d8de05dd33fb651],
    [0x13997873a4bf8f0d, 0xa8d241c5fc5cb54a, 0x4968baa2f8d4d4d7, 0x19ac0a18a29761fe],
    [0xb16c31835e2191cd, 0x41125c9028a93d99, 0x3babfbfa0c9fc483, 0x13009a2e1be50b35],
    [0x6e671a503a30b119, 0x5415f48ce57392e6, 0x476ad064a5599e2c, 0xd660995842ce191],
    [0xe7845005f516944b, 0x45d793a1b522fc96, 0xedf434a263c9babb, 0xe5587ae4cfd416],
    [0x2c813388acc3070d, 0xb8237143757089de, 0x61f6ce95d1ca7497, 0x10fbbc4204349162],
    [0x8fdf9d9dd05cffc8, 0xd3cd004f1f500f3a, 0xc5d8d96cbb40cbcc, 0x190d15507748b38e],
    [0xf12095929b153fa7, 0xdf0ebc36939e0e33, 0x5087fec4b044bcac, 0x70e81c5cf9512b8],
    [0x37947da13dc09fc, 0x7620c29566598066, 0xe1282cef827a5b3f, 0x20577171accc171d],
    [0x1b52c28c0d8c6c31, 0x94bc2c453941f29e, 0xb180c1112e560bc8, 0x105c02eabf359c9f],
    [0xf2b5c9a3d1063397, 0xc59b9d1c1d7acd7d, 0x9bb70c70941f0732, 0x701986232b2471f],
    [0x1bca45f39d337e9d, 0xa15cc1625102ae51, 0xaa19cdfec726fa3f, 0x2abd9e16b7b48289],
    [0xe585b9326794d8ec, 0x1f73e5ccdf4d4fb1, 0xc71818eec4baa3eb, 0xbd0cfaeacb5343b],
    [0x85b6f23911dbcb8e, 0x51a9edd426a54a9b, 0xeeedb535f9cc7bdd, 0xab6ce9fe9ad13be],
    [0xc4626ee694946984, 0xc18cea887e3a0bb7, 0xe124ab42f5eb28a0, 0x20f5023d1e52fefe],
    [0x23067f031a314ab2, 0xb509d454700f602d, 0xd7098990a9bf33ab, 0x180f0ee72343b33c],
    [0x8ce2b0c3797b3204, 0x5da2e1d7389fbbfa, 0xbc11a2c92d6b190, 0x9e006f3e8588637],
    [0x782c46104a7abef, 0xbf9ffee9c70933a7, 0x4eb56482b0c373b7, 0xcd828a1733f7fe8],
    [0xa62453ef2dba83ef, 0x7be470537fa8734a, 0x6d770e5435d370e0, 0x14ae5043d94b8f23],
    [0xea037b9dc0cb49bf, 0xc27a44b69eb8d799, 0xceabc7507cb5bc7d, 0xcfc46dedc8f1535],
    [0xaa700aaac4e56204, 0xf4b9f0d6d0d9052e, 0x3bcc27657ce46b8, 0x13d10cd39447e65f],
    [0x9e62799bfdbd394e, 0xa1ccd2131552e18f, 0x3839685de852f7df, 0x1d19d4106503a11],
    [0x53cceccef55b1c7c, 0x358aac8bfdbe0c09, 0x39ab7fd73bd7577c, 0x1c1e57d62f76f885],
    [0xcf8605c52f36ee48, 0x83918297078ca2fc, 0xc37a5a54d4cb9803, 0x19f2dac762392328],
    [0x1bca45f39d337e9d, 0xa15cc1625102ae51, 0xaa19cdfec726fa3f, 0x2abd9e16b7b48289],
    [0x1a7bc833a27526f3, 0x838eec2abef570a0, 0xdb806853a470e1f2, 0x11104096d51f11f8],
    [0xe4c0788e5364bff3, 0x9361192fc6692f8d, 0x322ecefd82202cb2, 0x203846151d74394d],
    [0x89f7bce9b06d1223, 0x26e9095879935f48, 0xc308f0b2fed12404, 0x2a3214dc89d8794c],
    [0x9eaadbbdf5332a76, 0x7ae6981c263b60b4, 0xceac16ecf05b688, 0x296caa3afab57aff],
    [0x8b3c79d6932d3932, 0x113daa93280626e9, 0xc3ca88c3b6f4f9da, 0x2ca633b28c1343b7],
    [0x33419ae8f4543f2c, 0xa201271da60b654, 0x95154205a9b63665, 0x2c62732b69393a44],
    [0xa881f320afcd4c0d, 0xedb5b6b30de76348, 0x63f5581a86913d9, 0x54a20f1bce174b2],
    [0x8459c9787ce39569, 0x69ed94ffa1e5b3b4, 0x716c576248af681b, 0x12dbc8f4c166edc2],
    [0xaa674f1704fe7b4, 0x47ac9ca93167d7f, 0x4a1e471d7b8a6f36, 0x13d733d018ed7c6f],
    [0xa2720ba8ac4c18a1, 0xb47a132ffd5000cb, 0x7552dfb65cf2f568, 0x2baa1b752a095c0d],
    [0x7dba093a2460c944, 0x37c70e84f07d0ca3, 0xba35d33cbebba7, 0xdc97cfacd4771b4],
    [0xfe2312e66541f31b, 0x16593ec3428df1a9, 0x281b7d3506deaf04, 0x2eb71ba2764a7250],
    [0x1bca45f39d337e9d, 0xa15cc1625102ae51, 0xaa19cdfec726fa3f, 0x2abd9e16b7b48289],
    [0x69bc7a256ab3594b, 0x8ca33f2c8bcc4e56, 0xbe0988f99d0b1179, 0x24a6b2f63282ecf9],
    [0xbb1310daa4f4f96e, 0xd800419d9a7170e3, 0xa17ce6356d3a6da3, 0x13b074b54de58e9f],
    [0xbb09d5cc88dc9d90, 0x7b91e50fb4c7529b, 0x99399775a8ca018e, 0x2711023ae2f03c03],
    [0xaefd13ee0f7b369a, 0xa55bdef07f9009c3, 0x2f2040fb7b132373, 0x9fbf1f0c9fc28e9],
    [0xf022b16eb0e96e58, 0x388290f4b164cc2, 0x424b045869aff868, 0x2b5a1ba0a4702083],
    [0x50cd244d74db2e86, 0xf8c528b772a42d7, 0x75f5ead608b8f2f9, 0x1292c762ad6a3abd],
    [0x6a6947854f4177b3, 0x8dec42e7fbbedfb5, 0x3bc6cd99827a1d36, 0x99282d849ffac98],
    [0x2dbcea633ae43106, 0x23b0542a6e5e0750, 0xff3d935c0c11db3d, 0x176eac7dd262c43f],
    [0x3143f486dde5db27, 0xfb1a27fbd58c89b, 0x1c3a428f3e67aafe, 0xfaa232a1d0ceb28],
    [0xb3497aa068b8e1a3, 0xa538f3ec173cccc0, 0x3b7f3caa041af52e, 0x20cca8c39156be9d],
    [0x16286989d648ebd4, 0x322d11b4ff008af3, 0x93165e30306e78be, 0x146799bee14e96cb],
    [0x79c02d3398fe43f0, 0xbcbfbce6894aae6c, 0xea0d5398028d6042, 0x2b1d7a8ffc222693],
    [0x1bca45f39d337e9d, 0xa15cc1625102ae51, 0xaa19cdfec726fa3f, 0x2abd9e16b7b48289],
    [0x7e5e0ff76861073b, 0xc32a15e9ce3d7ad1, 0xe8187f741513e818, 0x13a158f9d67d4b35],
    [0xb44d05ca7677f622, 0xa0a141699d41bb31, 0xd8f424092d85bade, 0x2b64a21d911a768e],
    [0x34ebeae270b8f113, 0xd9464034c79d02f4, 0x4df0acd76947426d, 0x6721fc051436a60],
    [0x635ea7290d27b75b, 0x4e18949532bb7f47, 0xb8cfb723d7daed09, 0x1ffeeeae4f5475d7],
    [0xc7e7abecb2e59853, 0x81a2588fe3784ad6, 0xb86f1a1d2cf263ec, 0x94d465c413d8f36],
    [0xf8acc2c875cd3257, 0xc9d2c729ff5a7f0c, 0xc8000b0320741d41, 0x205f5fdead5ce83d],
    [0xc0efabc721aa8a8f, 0xd06fcd7e31e5e70a, 0xf456e20e6ebbecb4, 0x1978d9908c11cde5],
    [0x975b9759cd833207, 0x53776bde616f4f87, 0x4e24dbca267fbaee, 0xdb51092fb5654d0],
    [0x884a48b104c00ca, 0x375aec6dee3b0b2a, 0xa20506b1a5c56caf, 0xa93c02bfdbe4c17],
    [0x18b842b9b4d6b9dc, 0x5ff28a42ae16b568, 0x69c8f4834ed8144c, 0x26d4bd0047fbd723],
    [0xc427991610c0cf73, 0x406aed9be9a932e0, 0x738a2939cc7fc425, 0x17c89c980d214a12],
    [0x456332de80420263, 0x81c604adcc21c8d6, 0xfe5b135cb6f92a80, 0x49a23ee91a6c076],
    [0x1bca45f39d337e9d, 0xa15cc1625102ae51, 0xaa19cdfec726fa3f, 0x2abd9e16b7b48289],
    [0x9c0a946376b45f3f, 0xd236f8d302af289b, 0x4d4e030e782ca3f9, 0x13f9655a5f153224],
    [0x3eaf0bc68a6f0272, 0x4c71e023554a9269, 0x6bdbf29a491b31f2, 0x271d8aee48a5a8dc],
    [0x91cf7c765abcc0e6, 0x38ae0f9265232958, 0x89c73f90e1ffed76, 0x250f4bf66572c4d0],
    [0x7041c0e70bc23acc, 0x2fbe1de2f7500667, 0xd4884c42359c91df, 0x155c20d00e84b634],
    [0x5cc8f5707766c7b7, 0x6613ae8e6b0e0e5f, 0xa6d978fb994d9564, 0x14c2c6a209a7bc6a],
    [0x23dcd8e1bea243d9, 0xf258136f2031fdd2, 0xddb6393af22db838, 0xf12be26119ede0f],
    [0x88031e0cb2e1c1dd, 0x1fbbbb5640bf28b1, 0x32308b04745dd1f, 0x2efdb0edc82b4dce],
    [0x192c13a6ce08a7d4, 0x48b84a4e34b07f60, 0xbb8c9151b3f6c65f, 0x1ff34842585b84d2],
    [0x19974d8e7aa968bb, 0x9e69eeefc5669909, 0x95838803941d2f62, 0x2d9fc37d4a22c1f1],
    [0x7611b8c0ecc6bd8c, 0x42f8b50a61b785b, 0x4971f5a24e29c204, 0x21b778120c0eb097],
    [0x4e113fa6e55c6b90, 0x15683da95b29f84c, 0x3cfa6ab317bdfe91, 0x1fd36ff9b7adcf1b],
    [0x5fc3d314380e99d8, 0xaafdd0cd43a85ecf, 0xea09b8d6aa86037c, 0x151cf47cc2e82f3e],
    [0x1bca45f39d337e9d, 0xa15cc1625102ae51, 0xaa19cdfec726fa3f, 0x2abd9e16b7b48289],
    [0x92dcb473f296564e, 0xa9910c0123a999a5, 0x84bf1da922e2448f, 0x19c8e29952ab4d09],
    [0xe92852637f1e87ab, 0xbc40b2c334b78820, 0xb5e8142daf41bb2c, 0x23331f65cf68a733],
    [0xd06c057a48bc8aff, 0xc48a36bfbd92f55f, 0x6c071c8807ff6df4, 0x2a7f938a6cdc65be],
    [0xe367f2799cc1e8ad, 0xf5bb460d165fed90, 0x3cbb38980aa3e320, 0x2c121d40b9458554],
    [0xa1ff944d63b74d7f, 0x7d4b4b117165ff4f, 0x62d08df82f8449c4, 0x2082427ee8b65087],
    [0x675fa76d880edf08, 0x8b4fabb9059c1d41, 0xeb2bd46b4650b2e4, 0xbbf36473715a6bf],
    [0xb56bfcbe7fe03ff6, 0x46d9594905b652b7, 0x66ce4033e91caa24, 0xfcc45095ed5a361],
    [0x516e129b670c25ad, 0xedea3343457841db, 0x363730d789c1f3d, 0x270c8e9de025f446],
    [0x83231e5b0e805faf, 0x6b5479cc6b6e4387, 0x65ef5d2731a8d5d2, 0x1e9cfb5b0f1dfd24],
    [0xa5108fb20896d14b, 0x5080731b4878e1d3, 0x5fe49803473ebda, 0x1884f4ef9e723cc4],
    [0xd675730bd1aafe4f, 0xef739b088bfb47dc, 0x25b7454327ae2a1a, 0x182b8932fba285b9],
    [0xe4a8ca1fdada90fc, 0xfec1aac68509a2c0, 0x9a247d5e733b3828, 0x222f2075bf57fc05],
    [0x1bca45f39d337e9d, 0xa15cc1625102ae51, 0xaa19cdfec726fa3f, 0x2abd9e16b7b48289],
    [0xac4aae65ce6d59fe, 0x6d62d64c06322bda, 0x4e71b536872ef681, 0xef4c76e42df7e6d],
    [0x85197588025ac778, 0x875e4488188b70a3, 0xfb7b21091bc98169, 0x4e28c59213cc28c],
    [0xe3e6d28f56527260, 0xbec46bdefb7f55cd, 0x98dd77218a0653f7, 0x2d69c1a48c1be2b7],
    [0x8bc64f6277f1d625, 0xeae8e817f44ecb58, 0x74761554f80cc169, 0x198d2bf44196f81d],
    [0xf52b02508b67874d, 0xd50158e42d9e91b6, 0x612865ee008786c5, 0x13c8bbb561fe1109],
    [0xbfca07e25458d12e, 0x8f625e080c7bbeb4, 0x6884c03967bfc38d, 0x1eb37605af262ce3],
    [0xd88dea1a64f66ad, 0x8675bf8ab7b11047, 0x5e4a8f17706cc443, 0x25cd986975f4cb76],
    [0xce3cc7c8cff5a577, 0xbee083b1a2d9bbef, 0xa8d62240d94fe171, 0x71d02268b089992],
    [0x1244d814a5ced3a0, 0xef35961c6114e4b0, 0x3be3de51789d16cb, 0x12ee53cf69c9a0be],
    [0xde24b86643bbfc43, 0x1ac595fb3200074c, 0x9022f4b4b946e8f5, 0x94acc645dc2e692],
    [0xb6873bcdb7639f9d, 0x8499ca8c67c191d4, 0xb3030b344dbc82eb, 0x22af41b2a54ccf55],
    [0x79877ee086416778, 0x2b7fbbcb00a7b20a, 0xe26aeedc2421c581, 0x14c87352fe94d929],
    [0x1bca45f39d337e9d, 0xa15cc1625102ae51, 0xaa19cdfec726fa3f, 0x2abd9e16b7b48289],
    [0xd9e8d34010af7c3e, 0x9bf78eae7bc404df, 0x267ca585f98b2abd, 0x21cdd152af751112],
    [0xd73bbd2d713f55b9, 0xc61433e6ffeeaf7c, 0xb6f30abed60efa7, 0x20d39dbb9c518864],
    [0x19fc612a89722b65, 0xe79071f12bf462c, 0xb3b6e3f86c309b40, 0x2642c98bb9bcf76e],
    [0x9368a61c7fc672d7, 0x3e6d1324fd2ed731, 0xf0ffb6476def69c0, 0x2c2562c294b65505],
    [0x1d1d810c172e88e2, 0xf462516e6525bee0, 0x26328919c3ec1bcc, 0x265a567985ea2214],
    [0xa5519a3a073a5a9e, 0x9b7b3451536b61e6, 0x757a54a27a15711c, 0x7fe7a2e56090a75],
    [0x13ad470ac9691088, 0xa5033170186619e5, 0x4f087c53827988f0, 0xea63f1b7258831a],
    [0xe6a4498f315be6c8, 0x6360eae2d1d49d7b, 0x77b41e3fca46a452, 0x1d0082b1e2aba35d],
    [0xa2e0b4c03baf2c, 0x653a43d2795b0409, 0x7653d44a765f34f6, 0x17c7b18d8e532486],
    [0xf4437fdb9a7e278b, 0xb25be6c0811e62c2, 0x5b4dd5c756bf5316, 0x29e0ca8dc73ca2f2],
    [0x505280a62db0e242, 0xcde700436c22b1ff, 0x29f66ae5a3c2e09a, 0x1f1e7e26201e6196],
    [0xe187752cdc5d98c4, 0x8028a7845173f13, 0xf702ba8777534c27, 0x2fbd789305950579],
    [0x1bca45f39d337e9d, 0xa15cc1625102ae51, 0xaa19cdfec726fa3f, 0x2abd9e16b7b48289],
    [0x39ee1aa0dfe396e5, 0x40ac4b85b2ee681d, 0x63e8e340f708efaf, 0x2a88c6c0393f56fa],
    [0x52d115b1c73b1079, 0x28d22442056649de, 0x16a5957492e3ea04, 0x20a321497aa9e78f],
    [0xef79b0faf32d6498, 0x80c5169111a7b02f, 0xc1341f1698df1a07, 0x1f00d5da2a0498a2],
    [0x1489c70cd651e9b9, 0xa2d4bc63ba2a35f6, 0x891864984a6f52cf, 0x15f194a187cba501],
    [0xb0cb5e7fa3a687e8, 0x153988eaa0b2ca20, 0x27f4e3f1bc62872, 0x5cd85fe0fc0c75c],
    [0x4baca933a3142e78, 0x84353d25def19bb0, 0xb44df4003cb36361, 0x1ed21eaf16b3d661],
    [0xa0ce905708bcf2df, 0xc1ab0ea7350f77a5, 0xbb43f1718091b40f, 0x2b37b5e88cca20d2],
    [0x66c6a6cbceb82ffc, 0xb32c9979b48e2ca9, 0xe3c4dc933a0bd034, 0x232c7f2de11cfe7e],
    [0xf1d0dd078d681a5e, 0xa9c89a158d446cf9, 0xdc181faffa4a31d, 0x974bb7052330136],
    [0x710a7cc87562fe8f, 0x7b5ab127b989e551, 0x2df5512d5137e420, 0x6231c17adcde68b],
    [0x3a1c6fbaf85e843a, 0xca299dc52eea478, 0xc38511d595f6ab52, 0x2694daf5d67e6751],
    [0x91b546b262df5836, 0xa47ff818217381b7, 0x55a49b9ea9db9801, 0x2eb55960ecababf4],
    [0x1bca45f39d337e9d, 0xa15cc1625102ae51, 0xaa19cdfec726fa3f, 0x2abd9e16b7b48289],
    [0x6f6161d129ce76f8, 0xf1999eaf84f80e8, 0x84c0be2078652c7e, 0x2e375ca4dd06235],
    [0x3207220febabc67, 0x8695dcfa544eb1a9, 0x7cce6981f0748ba0, 0x206f7162f5d7700b],
    [0x7ef35a89f93b879c, 0x95baaeb85938900d, 0x69ee7ef982044b98, 0x176a8b69b12a5a32],
    [0xf2ebbe57d5fc733, 0x6d711cca0b2856a3, 0x28cc712e2f2a6c60, 0xc58b1d3319260e5],
    [0x135873e0e60e750a, 0x7c6563a7e3d92de2, 0x3e970721ebfc7e4a, 0x19b13e16ddad782],
    [0x85797d7e834fb383, 0x26f0644911a7f4ff, 0xa180b0c6a3ffd320, 0xa4e8fd444448add],
    [0x8d834e9a383bab83, 0xbdfd6b6fc729e1f1, 0x39e5efaf7ef5f17a, 0x18be2ac266e3d988],
    [0xdd7f992e731eb61e, 0x97b35256e00a647b, 0x67fddc94f840cf7b, 0xc56583074bd6c3a],
    [0x64b3729715f67715, 0xff05e17d4fd8f556, 0xccd8818785b995aa, 0x28ab1c80f8d8221d],
    [0xc4f96065ab77c5b0, 0x3a085d74c6ed9dd8, 0xb570b2060a95b75e, 0xb886b2ff06d6d3d],
    [0x9991784db323e25d, 0xf323838d32fe65cb, 0x83a689c8bf384015, 0x841d7473d45e779],
    [0x6f0c9a826ab1bc8, 0x8af1cfb7a2af5e1d, 0x98b7ae7d837d8cf9, 0x1c1ee3b1346ad2c2],
    [0x1bca45f39d337e9d, 0xa15cc1625102ae51, 0xaa19cdfec726fa3f, 0x2abd9e16b7b48289],
    [0xa84e2b97e56697f6, 0xfd12ec54eaa4c2f3, 0x69a757ad1d47eac4, 0x11e7a68f1defb473],
    [0xd48b329c908698b, 0x8c7bf1e8a97fc99d, 0x197163ea21b9f675, 0x2386b42cc098f278],
    [0x45bb09a92c10d11b, 0x2d1c622807fc5194, 0xb194c794e8566bb9, 0x2d1e8f11167a3889],
    [0x356b8a5e6792427, 0x7f2d517f78805aa5, 0x95c9599bae3261e6, 0x1e998707bd13625c],
    [0xc6b0317cd1b5f738, 0x37ed9977f1903c64, 0xc0c13b70af218b5f, 0x1c6b72fa7c47168b],
    [0x96e83b6cc7bc7218, 0x4dba2c68e327ee57, 0x658ba1449023f04c, 0x2f50f79c2c896a12],
    [0xb226c9c20b1f56bf, 0xb21f6a9b230302cd, 0x691f763a02187916, 0x4b15dbc180b8634],
    [0xa8e0eecb3f09dca3, 0x9cde922aa3b9acb7, 0xc537ad1232524e7f, 0x23c08c77cc0ed597],
    [0xc954ca326fd3e7e0, 0x7d1c3b71b8d5d1a3, 0xf5430129208fd2f, 0x246b55cb9b404e71],
    [0x71ce537fd50388d8, 0x4c76c6b7ae85bd0a, 0x7e5c00f781f27f88, 0x2a3c7dcb7f8fa609],
    [0xf14f4b174c53f76d, 0x2ead74f48d800ed7, 0xaf037752d214a242, 0x268e6eb795786eca],
    [0xf1346d72f87ed82c, 0x937e76257609d299, 0x466cb8428c30acfd, 0x5ac3952618af339],
    [0x1bca45f39d337e9d, 0xa15cc1625102ae51, 0xaa19cdfec726fa3f, 0x2abd9e16b7b48289],
    [0xd3f67779ca448896, 0x154f908b9e5c2d20, 0xe4a03f085a09a773, 0x1b2b7aacc25b941],
    [0x69c17307bdd15692, 0xf2157d052ec4f66e, 0x6eedc2d331697df5, 0x22cdca81e323db12],
    [0x2517b6a4899dc512, 0x8d16232fb26a3c2a, 0x2fd4e4c8140c3e16, 0x267f9661ee6cfaed],
    [0x31770a10bd4d0baa, 0x5510418e41c576b3, 0x5b421e17c96dd0b0, 0x10ce863d93a47aa8],
    [0xff7d92f4a0410942, 0x9b8cf0044ca564b4, 0x8bc813191e7980bc, 0xe26a35e642d5620],
    [0xcb175770aac34fe8, 0x6f56be6fb7079958, 0x89332e68f4522dc2, 0x230f6e95f170836c],
    [0x7f08c711ac5f9ca9, 0x11aea9750ba69c8a, 0xd9d7029a50a85205, 0x1838b36fd6f0d488],
    [0x407726b452cdc403, 0x67760fad46d653ea, 0x9ea78742fff75938, 0x4f19bf00ae88b7c],
    [0x2159c3e487d19602, 0x8b83eb2540c2b9f0, 0x3b2486e0a7a1ab4e, 0x133619fd5268a1c0],
    [0x2183e4be7651a006, 0xb569c6f9e5606302, 0x633dce917407f9a1, 0xd6268401cc2509a],
    [0xf35d56389f2d0d63, 0xc9337a408926ce27, 0xea08251eef9a5529, 0x365d7940e1c53ed],
    [0x4c87c75d8a76f515, 0x8d3e38c77907985c, 0x7f265d0901880905, 0x125f88039ff7e0df],
    [0x1bca45f39d337e9d, 0xa15cc1625102ae51, 0xaa19cdfec726fa3f, 0x2abd9e16b7b48289],
    [0x54787fd85453e68, 0x1fd5fd1b6e34a456, 0x7486a95e6feef8d8, 0xfa21fe3e0314d2e],
    [0xf2c35dcfbed8e73b, 0xeb109e4ac7344127, 0xb22245a37d1df055, 0x2951984c7afbd03d],
    [0xbeeb4a95fdf0de19, 0x4ab052dd9d0fc09a, 0xcc65f74c58593ff1, 0x156bf5310e6b76a3],
    [0x6e20d01ca5f834eb, 0xf5a13299cbcbfa9a, 0xf6dfbb8eb0cc6ed4, 0x774fe420c3ab105],
    [0xc79b2c438470649, 0x28fd3c216f0dc86a, 0xe24d6236110fd395, 0x13a7f1f4fa81d9e5],
    [0x9a67637d933a3041, 0x2dd718dace5f6f8b, 0xedcfc77169f5e9fc, 0x1019d2e8646ed7fe],
    [0xddd1e9740faf9b00, 0x2b0e0fcc9c5b16fc, 0xcde7d0c3856f90e, 0xc63653fc5eef7c5],
    [0xe170a6f3bc35b0f5, 0xd1bc0d3c656440b6, 0x99f7312542d0fc39, 0x1343f7e28ede90c9],
    [0xa24c4c70dcc61702, 0xc926c5d0d97bc70d, 0xb20d5501ca0e4134, 0x1bccca2bd0880591],
    [0xcfa26a8caafe9adb, 0x9d8a51480ee878cf, 0xd3488f1bec3e70a6, 0x227006078f001421],
    [0x7d8b7a71121704b6, 0xc55807bbf4e7d199, 0x1b28808cceebe3e3, 0x2badd9b9334957d4],
    [0x8e5ea9cc8258b755, 0x7efe12ffb2d831c4, 0xf8fecb36822f26b0, 0x15fca0d19035e164],
    [0x1bca45f39d337e9d, 0xa15cc1625102ae51, 0xaa19cdfec726fa3f, 0x2abd9e16b7b48289],
    [0xdf1248c6edebcdd8, 0x762f70b66fd648c7, 0x25f2a26fa5c8d29f, 0x2316c328984e3a8d],
    [0xee61ca15f769db60, 0x961582c40ad4f306, 0xa505e400b9adb874, 0x14f86a4483471960],
    [0x28fe293a3e15613a, 0x69f440cc56990982, 0x66b94849c276c0b4, 0x22448cc6b58101c2],
    [0xa03b8ae8951620ab, 0xfc5c0ac4b7ad0073, 0xaf65620ce63a9279, 0x9e98ce02891c97f],
    [0x50d8d8c33677bf3a, 0x8686cfc56acef425, 0xe6840f5ac4f46756, 0x3d80d14e85f09eb],
    [0xa5586912e558c022, 0x8568fdb626cbdcd5, 0x730b3c11467d17cb, 0x3d857a698a64801],
    [0x22a245fd55cf10e6, 0x344a52438774d429, 0xc7f4c64b74e7a1d, 0x1793c7b3f75f911d],
    [0x8b8ef645b14732a6, 0xb5d4ffca2b9355de, 0xf2467ab429a8e513, 0xeefda98fc56b0b2],
    [0x8da2572aa4ff8471, 0x31725e4bdb1d2a6e, 0xac68294dc8960628, 0xb7efc4302f68263],
    [0xbe76162dccd293c2, 0x6975b6cd9df0fb5, 0xa60b267ee3154f07, 0x2c4b370a050627bc],
    [0xef62197878176588, 0x677bfe9dcc9d7619, 0x3452cdc68fd4db02, 0x14b35f50c4e9103a],
    [0x4bbace8c72bf2c60, 0xaa080539f461e973, 0xecb0e66e290d99b9, 0x2e598155fa34aca3],
    [0x1bca45f39d337e9d, 0xa15cc1625102ae51, 0xaa19cdfec726fa3f, 0x2abd9e16b7b48289],
    [0x49ec7472976d923d, 0x2e8bd0ecc9c2cdea, 0x5b4ccc5eff39d9bd, 0x2f83ce87bde77986],
    [0x436ae6ebb2ada32e, 0xa91fa531291fcf80, 0x52f096207f6d8a2e, 0x933a19319eea25c],
    [0x7679cabe55618338, 0xe27e59683382019b, 0xbd9fc8ce9e074df4, 0x263439a31e513a82],
    [0x6c1b4308dcf40e44, 0xe0c38c1130b28cc, 0xd2d5c4608ed26bda, 0x1584ecbb64a4db8d],
    [0x415190f52b5143a3, 0xd0221c2781686a04, 0x3caef9bc50395299, 0x49e790446ad7262],
    [0x1334bc73470274b0, 0x2c4413b5ffd67249, 0xdc5dae40b445b28b, 0x10b37775f18ed958],
    [0xccf64ee9d57d1e11, 0x55d4332b56379700, 0x677e07f1267d9f7e, 0x24701d4ce3d32060],
    [0x63f4c0724cd8c15, 0xeaf0b319d671e60a, 0x92a035d4e454528, 0x202b8fb221cdec4a],
    [0x25f4a31a98675866, 0xd865af9e608b31a9, 0x1485d63ce8e1c3ee, 0x1d43768bfae55289],
    [0xb61ca0d8bbd42c37, 0xe4d954eaabc9a367, 0x76b6f85a01f3aff1, 0x32b94736117256d],
    [0x78142eba4bea0dd4, 0x61a86607219730bd, 0x6a826b7667aa33f1, 0x3231b4434df8493],
    [0x1abf318487b1e996, 0xd4ac83dbabe4eac4, 0xda111af4a7775204, 0xf45de5ea90165e3],
    [0x1bca45f39d337e9d, 0xa15cc1625102ae51, 0xaa19cdfec726fa3f, 0x2abd9e16b7b48289],
    [0x1d888f695d9607ec, 0x693897fd5503bc75, 0xa8b24e8042cdb875, 0x2ca2db65ad224b51],
    [0x2162303a16af1ed3, 0xe58b8081b98c7f75, 0xf450eba9d4cb5db7, 0x44928f5528543c7],
    [0x54707894e3b20da3, 0x1a217d4312c7a93e, 0x7cb63e4fc8238649, 0x2733260b5780a3db],
    [0x835db3e96befff11, 0x42b94a2524974242, 0xb10dee649b4e3e22, 0x24f726fb193e627c],
    [0xbc765d184b91df08, 0x45ab90c9bfd2405d, 0xade802545000b3da, 0x1e38f6d8f6306ae],
    [0x94aa32849052b8e5, 0x1de49ad1047fad91, 0x2a07cd69de6b60e4, 0x8ad1a8e37ea4e15],
    [0xe9ce387abe83765c, 0xa59fae5f730093f1, 0xad9cb9a47a963088, 0x235d4b4258dc982d],
    [0x331c53f9c52334fb, 0x65113f5af19912cb, 0xf95e00c98cac996d, 0x2b01da9199fa4220],
    [0xf1e4676b0d3f3d32, 0x670bbde613facb9, 0xacd398e7444437e3, 0x1eda45b7f8edf24c],
    [0x8adaf8c6e8c132a8, 0x834f7b1338bfa768, 0x7d5e222bbbbfec68, 0x119f815c30762887],
    [0x5cae029cb0e497e7, 0x410e5566b6b048b8, 0x65530d4777fa98b0, 0x5f96bf0532d7b90],
    [0xa49f234d45988d63, 0x10ec846f07aed7cc, 0x492b9d20754d96aa, 0x340a6c3788a26e7],
    [0x1bca45f39d337e9d, 0xa15cc1625102ae51, 0xaa19cdfec726fa3f, 0x2abd9e16b7b48289],
    [0x96496ac910d44e03, 0x95a028fd5527645f, 0x3ff8bbdd5c038ae8, 0x2515fb66f81792d1],
    [0x491ec55ba7af13e2, 0x5a70a603c6bfa5bd, 0x6641fa0289b4ca75, 0x18dee821d0ad52dd],
    [0x4bc1af83c1e1cc8d, 0xb1b79556838bbe3f, 0x7c6ca12c65b33865, 0x3015c688b294a965],
    [0x289aa6897d828128, 0xbe4ee861d173dce5, 0x8a08b4ca95c08add, 0x14fd24e81aa0eed8],
    [0x7537470c77813deb, 0x85e0f64fa145d301, 0xc1991b9253202089, 0x19d02cb7110cd61d],
    [0x34ff5d213c5a7b12, 0x70699b0832a82483, 0xf0dd2715a9cc66b7, 0x496cc3972bd13c9],
    [0x50e0cf6f0f74553, 0xfd21cd8801adfbf0, 0x48b0a65c5d6316d2, 0x528b341e3531d9d],
    [0x3c850efb1319a4de, 0x2abaf4eca59961cf, 0x8d3443ceadc7fa24, 0x388cd95cf4d0496],
    [0xb8c0cd0eec44dd46, 0x4d3e5affa5ac8f08, 0x47504a62550304ed, 0x1e6588c7ee49bb45],
    [0xefe1a10537363fb, 0x7ce0956038039f27, 0x38609c8212d29f32, 0x23d611ae14db5a26],
    [0xd12ecb846a7a9b12, 0x94331f200381dd09, 0x987dcf5ae89d7de9, 0x2b86d928a54b3f7c],
    [0x5d4d6108d086f462, 0x96ab60bbe64202c1, 0x1e5a913a59c11ae2, 0x13055b796975dbbe],
    [0x1bca45f39d337e9d, 0xa15cc1625102ae51, 0xaa19cdfec726fa3f, 0x2abd9e16b7b48289],
    [0x8f0e3b4cc61dd759, 0x79df981b55acea4a, 0x332476733f9fc5c, 0x14f38d1ffa510f2b],
    [0xbc577d3f26bc407c, 0x66d7204bd0fbdd3e, 0x68e3dc8912bab323, 0x1f312d4d6d9a3ca3],
    [0xf9eaf6aad438e723, 0x963063f27d62427a, 0x196ca13e8b1f1a2c, 0xd0f712e8570585e],
    [0xf19b4dc21828c131, 0xbb308436faa08e39, 0x99dd80175771d5bd, 0x2dcbc4e8492001dd],
    [0x8c440d756a24588a, 0x67d62833ae301993, 0xe5afd9be44f7ee32, 0xbbfd5086b33a2f0],
    [0x88db33c63c404387, 0xcfb543cd892429fc, 0x43434c9730452b8e, 0x2e11c7002202decd],
    [0x2aea15318b7c0d0, 0x9883792d4bf48008, 0xf9f7b699b179d033, 0xa04ca0b4eb3a67b],
    [0x5cf35b7f431d9f99, 0xdb2d10d7d3d3454a, 0x3cfec0528bfb1f91, 0x19004be334dd838c],
    [0xa4bd04002efbc259, 0x506e592325b73d7c, 0x27ab3ada1a9eb881, 0xf0db552b7048944],
    [0x45352cf784b8d27f, 0xee21821afd1ab34, 0xb4fa7f9bfa19b098, 0x1a1e713b1af5f35a],
    [0x654a34db445d89f0, 0x227c4be9e0087db3, 0xd55045b43b515200, 0x179f8e92246a7a24],
    [0xd15c43f2aa2d0d5f, 0x60d52112b96993a1, 0x150102e68c71e6cc, 0xdf566626948128c],
    [0x1bca45f39d337e9d, 0xa15cc1625102ae51, 0xaa19cdfec726fa3f, 0x2abd9e16b7b48289],
];

/// Part 3 of the sparse partial-round rows for width 7, as little-endian limbs.
pub const S_DATA_3: [[u64; 4]; 51] = [
    [0xa0f9e9269dd8f615, 0x866611832cdf59ae, 0x835e974b8f24c64c, 0x242d3b170212915d],
    [0x9089f9a6a1aadb10, 0xdaf725d4505f481c, 0x1cb4fd742ef1dea1, 0x780ab3cb7bf3cfe],
    [0x302fa36ed0f6c37f, 0xf651ac744d3b362b, 0x7977be41be77930b, 0x224f1cd253223cd8],
    [0xed4cfc582ef57154, 0x8d54a6c31418d3f3, 0x86d07580a457013d, 0x4637e287df2d947],
    [0x1ac3b1538f2dd96f, 0xa93da66d877ebeca, 0x855e65f429a8120e, 0x2d703aad67bdcfc9],
    [0x35ef940f68e904e7, 0xe1749e0d8fdfb215, 0xbbf3696cdd441207, 0x11c9e9aec8fb7bda],
    [0xbb907b34c6029c27, 0x1f326abcde1ac1f3, 0xd8bed18d9b76465b, 0x2be2aaa990f638dc],
    [0x93b4cea2948e83fa, 0xca6cae21bc985f04, 0x6366dcf2c41671f4, 0x16a6ff3478e40087],
    [0xe9fcb540933022f5, 0xf8564a544f54db36, 0x86ff21f6ec096377, 0x2d5c1ad3358720b4],
    [0x6eb8fb69ae20bc67, 0xa7513995f226c80e, 0xfc209d59a13cf12e, 0x2706883c34903b26],
    [0x7132a8e53d2cda28, 0xd1ba5aa5f372adf6, 0x53be1bed2a7e271e, 0x1c0cfdb4290fbc3c],
    [0x5a6e782c8b9ced92, 0x2dae657135d62748, 0x67e0d1ad30789c, 0x5d00b6e4b2d0a2d],
    [0x1bca45f39d337e9d, 0xa15cc1625102ae51, 0xaa19cdfec726fa3f, 0x2abd9e16b7b48289],
    [0x1ad3d868d8092534, 0xa1e7256defb95b19, 0x7cf08bbf5c1777ce, 0xacd1175f3984a9e],
    [0x9188a07201b43b95, 0x54e8006102f8d475, 0x72069d11f25ad4e6, 0xabffa5e8d3f3455],
    [0xc7a64db35eb6328f, 0xdb14ca395f83cc18, 0x1c9d0631e83b8970, 0x3c0a0138dacff60],
    [0x96fefea71306d5d9, 0x4228785252b2b7de, 0xfcecd1e16f868bcd, 0x26cca174ba7d6ee3],
    [0xc9d5e012f89a4840, 0x54e24fcd50b5d43e, 0x137c5246d7c65ef2, 0x15461d04466499fa],
    [0x7870c9983c272759, 0x48a8665959146850, 0xe7946a24316c2588, 0xba61686f2ac1cca],
    [0x942b5f43ce3711d9, 0xf49539b1ccebc1f4, 0x116385bf4630e9cf, 0x4017df4afcb1ba3],
    [0xc17d4a6e390ef53, 0x10efdb6c0a7389ec, 0xa0be6bfe60c6ed43, 0x1424d70cbb9da7ab],
    [0xdcf7a02534532e8f, 0xd3e88830178f3771, 0x88ab0cc532061a6, 0x1b4adfeb3a81ffc9],
    [0x9c1b8f356db69c17, 0xcdbe95681a7b8488, 0xd28f49bad8f18c3b, 0xa12244e29cbbc56],
    [0xd7f6d365bad0491e, 0x553ae27737020e51, 0x89de5f07a9da5e45, 0x1d2798cf1798c27d],
    [0xe6f6c9a173ee5a1, 0x9740bcd453f652fc, 0xe458f09183b35935, 0x99921cc276f9a00],
    [0x1bca45f39d337e9d, 0xa15cc1625102ae51, 0xaa19cdfec726fa3f, 0x2abd9e16b7b48289],
    [0xd1e2b922d03d5d6a, 0x85ccc1103145cf23, 0x242d96c976a9b735, 0x1ff1617e14011200],
    [0x117b33763bec7b68, 0x5118db1173adf4f5, 0xb0b87093f9c0e9ae, 0x2c20a2a5dc3bf0aa],
    [0x9f6e14ce69836859, 0x12e9c0a24631d4b4, 0x600f5592492ec4d1, 0x1a5f9d44d0d30cae],
    [0x1632e293230e302f, 0x8f146af1cf8d61da, 0x90bc61f697719b41, 0x2506549fb4f1fdb2],
    [0x24a8701149ec0b0, 0x37f3a298d986e9a5, 0x20ea466dba6f3586, 0x19761a80b065bb38],
    [0x26d4c2d847b841c0, 0xa4caf64f4fb21c2, 0x627f60f1ce6dc5b3, 0x23f6ba2cafacff6a],
    [0x38144d7f2ca95e97, 0x3a9c29ff5680cd46, 0x5f02aad7120cf91d, 0x2e6f1caa06224806],
    [0x3eff674cee5759a1, 0x317280697e26d850, 0xb0f5344c7d8526ab, 0x28b3b74cb98af781],
    [0xce8bd23de50eb84, 0xb9a55b3a8359a719, 0x3fc457245a298384, 0x271858d8121deee0],
    [0xdafbceaff52cfe03, 0x9aec46c1d253e3a8, 0xd72dc4ba2a12eb8a, 0x2dd5829605b8e77b],
    [0xe6a93a89af0a637f, 0x29eb558f6bce9a69, 0x6a8b41721ec03766, 0x2d30204a0bede23],
    [0x888e71f058b9883a, 0x5e92ef403111f4a9, 0x61ed8c490ace702e, 0x2a6e862532fc598b],
    [0x1bca45f39d337e9d, 0xa15cc1625102ae51, 0xaa19cdfec726fa3f, 0x2abd9e16b7b48289],
    [0xd136a8ea4aef8f04, 0x6639d6394274cc49, 0x5c61f388550c49bf, 0x8496e866a25167f],
    [0x1d0df8d9a403e1de, 0x6cff1ef49e459c3d, 0x6eb940bedfcb7a3f, 0x14e8da7feefe3d71],
    [0xd628e3a46cd398a, 0x2897578dfb67ad66, 0xddb33c120018d969, 0xdbbd1d73459a395],
    [0xeeb588e8f2236cb9, 0x693cc3b530cd73b3, 0xd438d6f4a1b1288e, 0x1342655df63fac44],
    [0x568861265504f6c, 0x748c5cb4f1cd6f5c, 0xbaa792b5b29c8a7c, 0x31a141b9e2cb72d],
    [0xed30521e588088b0, 0x84d3c7514886fa6, 0x432861d7fd12313a, 0x28f97968428b8a94],
    [0x1213fcafd6427989, 0x278b6c6b2cc57a87, 0x26bff032cd6a3158, 0x1fe9feb5c7f7c7a4],
    [0xcd53d0c4d433224c, 0x65d49e5a2d41556b, 0x2d217c5e31148211, 0xcdb2db9e4f9d73],
    [0xc999895adeb4d70b, 0x6904b3877f2159dc, 0x44fc2b98347ea8b3, 0x9664216ca565c1a],
    [0xa3c658d2f56493d6, 0xfe77b43c244c9988, 0xa16dbc115566aa48, 0x1463f51d4a4cb1eb],
    [0x65873df66ce51f59, 0x4dfceb1a1e6da381, 0x347c7f2a8f47612d, 0x214e41788bd2b990],
    [0xfb715923bf0fc79d, 0xdff184a1957a9385, 0x128260899abe8fbc, 0x548541724f64e20],
];

/// The values of the sparse partial-round rows for width 7.
#[verifier::opaque]
pub open spec fn s_vals() -> Seq<nat> {
    limb_vals(S_DATA_0@) + limb_vals(S_DATA_1@) + limb_vals(S_DATA_2@) + limb_vals(S_DATA_3@)
}

/// The sparse partial-round rows for width 7.
pub(crate) fn s_table() -> (v: Vec<Uint256>)
    ensures
        v@.len() == 819,
        vals(v@) == s_vals(),
{
    let mut v = from_limbs(&S_DATA_0);
    let mut part1 = from_limbs(&S_DATA_1);
    let ghost pre1 = v@;
    let ghost add1 = part1@;
    v.append(&mut part1);
    proof {
        lemma_vals_concat(pre1, add1);
    }
    let mut part2 = from_limbs(&S_DATA_2);
    let ghost pre2 = v@;
    let ghost add2 = part2@;
    v.append(&mut part2);
    proof {
        lemma_vals_concat(pre2, add2);
    }
    let mut part3 = from_limbs(&S_DATA_3);
    let ghost pre3 = v@;
    let ghost add3 = part3@;
    v.append(&mut part3);
    proof {
        lemma_vals_concat(pre3, add3);
    }
    proof {
        reveal(s_vals);
        assert(vals(v@) == s_vals());
    }
    v
}

/// Part 0 of the dense MDS matrix for width 7, as little-endian limbs.
pub const M_DATA_0: [[u64; 4]; 49] = [
    [0x1bca45f39d337e9d, 0xa15cc1625102ae51, 0xaa19cdfec726fa3f, 0x2abd9e16b7b48289],
    [0x8b63cad04ecb36c6, 0x7362ae381898acaf, 0xb691875300db5a0c, 0x1b4bc5885d1cfc8e],
    [0x1eaeb012751c7f83, 0x953695029eedbcf9, 0x3c5818571a424a54, 0x8a72fbb55dde3e9],
    [0xaf039b0abb83f5, 0x1b3d3763d8fc7624, 0x921892f83e500bbb, 0xf95359a1f6845d4],
    [0xf82472fbce7770d9, 0x43e6c7b5dadf52d0, 0xafde34d81619defb, 0x16f01751ce985328],
    [0xc8af1f4d56596417, 0x55e8d885e3c07cec, 0xafa629f3e6d33e25, 0x1c391626328457fc],
    [0x56f03965a42c5297, 0x23ed5bac91c2c10, 0x3e3c642d1e0b8032, 0x970f671b9ba35e],
    [0x1213fcafd6427989, 0x278b6c6b2cc57a87, 0x26bff032cd6a3158, 0x1fe9feb5c7f7c7a4],
    [0xff6e88b1a7b4bc4, 0xb8dec0fe9e568615, 0x5eac47a19f6437a2, 0xcc7eabb154aa795],
    [0x76b5a990fea75ace, 0x15e429906ca0d150, 0x26ef9af79be8b6c7, 0x393efd96399aa07],
    [0x5db47d39ac9e5955, 0x6eeb33f697d1b082, 0x30cf8a4f4377129, 0x871233835b752ea],
    [0x497b6e6504891cb, 0xe96a5fad1d2db427, 0xaea34fcfb26ca6af, 0x1a02798f047a51ba],
    [0x7dba4c664d5a0da0, 0xa31d6e3e4c3bcc65, 0xcb713c234ea79d06, 0x55665d76df3cd0f],
    [0x88fd7de3bb1052c1, 0xe7758286a44845ad, 0xc91887e302fc55e8, 0x26ee9691a638edc7],
    [0xcd53d0c4d433224c, 0x65d49e5a2d41556b, 0x2d217c5e31148211, 0xcdb2db9e4f9d73],
    [0x8a131b70856d1cbe, 0x6a3a787c4bcd9c79, 0x182123f5c49306e1, 0x12f3bb29c972793],
    [0xdd2cd1f17ad73481, 0xd43fd1e0dbdc5528, 0x82b527677daf444e, 0xbba9006404c5ede],
    [0x837ca070be84a2dc, 0xe17c9f84b1713820, 0x219acf1ca6390cc1, 0x17e4e73bf701f88d],
    [0x485015f73d53d207, 0x8ad60760dd60276d, 0xa343b8da5b20cc35, 0x234b8a077ef52b53],
    [0x7ae9a35a7fd45d9d, 0x835d7217a4c50a48, 0xc1cbd1b46e6ded5b, 0x2dc3fd77394b7b5a],
    [0x97f82c6ee2e61e48, 0xcf882f12276bd12f, 0x72b1c16ff0192e48, 0x1668477640fab14c],
    [0xc999895adeb4d70b, 0x6904b3877f2159dc, 0x44fc2b98347ea8b3, 0x9664216ca565c1a],
    [0xdf30914e4849ecef, 0xabf76d77305857b8, 0xba0cfa93e20fb685, 0x111fd8dfce2bd3b7],
    [0xa48eec04e4d93426, 0x3598265b1ab6774d, 0x3497a511e56f6675, 0x19f53c0a592b3ea9],
    [0xe6a541e8cf66a174, 0x8b1dbdf18dd1c318, 0xc3523b7bee5a6014, 0x19b683c39d3b002f],
    [0x6456c35311c1bd5b, 0xb8036bb3e882dd5e, 0x3e3448719c7ef100, 0x2547113a818779f1],
    [0x1ba8d5bc76943b0b, 0x6a3e35cba9a97044, 0x7bb1013f72ebd412, 0xcf148f8045cdbe],
    [0x709076c00b869599, 0x38168cb28cd2e1f, 0x3322a09c3733973a, 0x3008421eed767a09],
    [0xa3c658d2f56493d6, 0xfe77b43c244c9988, 0xa16dbc115566aa48, 0x1463f51d4a4cb1eb],
    [0x250ed90118e8fec2, 0x31c0f83832a61b82, 0x6a59d292aea847, 0x16afd8f4c39038b8],
    [0x8172055333e07579, 0xdff8352711f95863, 0xbab996921936e9b1, 0x2296361f3bf154ef],
    [0x9beb92d909ec891c, 0xa198d1f8e3439be2, 0x9f69843cf8d5bbac, 0x1c3160ebaeb10f80],
    [0xa24912a7635404c6, 0xb5b4d414c6e09acc, 0xcd9213abe43312ed, 0x94c66bdcff54382],
    [0x5d94b853b1746f89, 0x434ab5bb84f3420e, 0xd004ff777d7c0938, 0x2e883bd408c4c826],
    [0x5f27cb3abba2030b, 0xa053f2f23c094b87, 0x3dd18fd89a6b38bd, 0x228af6d425e91a78],
    [0x65873df66ce51f59, 0x4dfceb1a1e6da381, 0x347c7f2a8f47612d, 0x214e41788bd2b990],
    [0xd4805272af9b9775, 0xb529d76f54e4b5d7, 0x873da94e9f4e84c8, 0x3fba82d3f783620],
    [0x1b4e46ed36289511, 0x785329dfb12ad9bd, 0xcebd7ebbf60fb435, 0x66782fe3e869de2],
    [0xdff51588835fb537, 0xe5d1643fceeb212c, 0x1efa37a27e6b7aa, 0x1c5cd6b23ef336be],
    [0x830bd2b311539453, 0xd9ff3fad9a794e15, 0x27248af094e29fee, 0x2f3b4bf0f105f88e],
    [0xab3a0a36fc1ff432, 0xf64729b311783fcf, 0xb739fc23f2fe4057, 0x2f4085eaa9f80a69],
    [0x16214c088185638b, 0xae361934078aa59a, 0xfa1f98fe2507f6a, 0x2363603349e94f52],
    [0xfb715923bf0fc79d, 0xdff184a1957a9385, 0x128260899abe8fbc, 0x548541724f64e20],
    [0x69cfd2de71b14f98, 0xeeb095680a729283, 0x59a205e5b01c811d, 0x21c5e25a6991364e],
    [0x55a2edac37663d02, 0xce8fff171300d414, 0x5817aff7792a2efb, 0x11c5cc53f6338c82],
    [0x96f9d87a39504bf9, 0xad8eef68f577da8b, 0x5c4ee7214aa0edd2, 0x27a0949fdc9f1049],
    [0x455cbb5b0c230e2, 0xe556a0194e6d552c, 0x3c455ef0d0dbce0c, 0x1c7fc68f3fbde4a2],
    [0xcbfb4500d63de9c, 0x8abc1ced0c3f3c53, 0xb3a2939fd33991dc, 0x11d0f56fc00e7d85],
    [0x91f332fb2bade44f, 0x6363bec886679cbd, 0xb048cabe1636f0e9, 0x1b2e9d20d9b55de],
];

/// The values of the dense MDS matrix for width 7.
#[verifier::opaque]
pub open spec fn m_vals() -> Seq<nat> {
    limb_vals(M_DATA_0@)
}

/// The dense MDS matrix for width 7.
pub(crate) fn m_table() -> (v: Vec<Uint256>)
    ensures
        v@.len() == 49,
        vals(v@) == m_vals(),
{
    let mut v = from_limbs(&M_DATA_0);
    proof {
        reveal(m_vals);
        assert(vals(v@) == m_vals());
    }
    v
}

/// Part 0 of the transition matrix for width 7, as little-endian limbs.
pub const P_DATA_0: [[u64; 4]; 49] = [
    [0x1bca45f39d337e9d, 0xa15cc1625102ae51, 0xaa19cdfec726fa3f, 0x2abd9e16b7b48289],
    [0x8b63cad04ecb36c6, 0x7362ae381898acaf, 0xb691875300db5a0c, 0x1b4bc5885d1cfc8e],
    [0x1eaeb012751c7f83, 0x953695029eedbcf9, 0x3c5818571a424a54, 0x8a72fbb55dde3e9],
    [0xaf039b0abb83f5, 0x1b3d3763d8fc7624, 0x921892f83e500bbb, 0xf95359a1f6845d4],
    [0xf82472fbce7770d9, 0x43e6c7b5dadf52d0, 0xafde34d81619defb, 0x16f01751ce985328],
    [0xc8af1f4d56596417, 0x55e8d885e3c07cec, 0xafa629f3e6d33e25, 0x1c391626328457fc],
    [0x56f03965a42c5297, 0x23ed5bac91c2c10, 0x3e3c642d1e0b8032, 0x970f671b9ba35e],
    [0x44dbca6eca32ac42, 0x8bca03a74627a24c, 0x521503f92a45753c, 0x90df29b70c5a783],
    [0x97971a56c509222b, 0x2ac800560554df9e, 0x3e14f81e953a5007, 0x2c628e21a2200873],
    [0x79aedd83d9b83767, 0xcfe9b648f13c6753, 0x36030ef808665350, 0x1567d8f8711949c0],
    [0xf49676af0b637a6c, 0x425b457f42e8999, 0x9ada60a1f6c49668, 0x27630d326f12eed1],
    [0x964a63f2fbb8acfa, 0x98b474176a92b7a6, 0xf80f49ee4f7dbe10, 0x37e3c16dbd340f],
    [0x5a0678af36224c98, 0xef58f650cab5cfd9, 0x6711c9d2779c1358, 0x1814234ad66f16a3],
    [0x13510f2d723ffdb3, 0x5cd3f1091794d284, 0x9bea2acafbd020c8, 0x1bfb7975cfa9022d],
    [0x4a16c73534430b9b, 0x1d154a0e20358362, 0x52297162fd169e05, 0x11a48e9fa064121f],
    [0x90e33390b8bab1ef, 0xc4fddbd380871e21, 0xa352adccabcdd100, 0x1cb1d2eca719de8e],
    [0xeba02e88d211b281, 0x72ceb93d6d58dfe8, 0x595b4f8a1ca80c3d, 0xc9037b1b5cb3451],
    [0xea077a55f7ec3204, 0x580abe2a7912789e, 0x27525c5e7b267ab6, 0x26920194603a117],
    [0x7693f676300c85c5, 0xfab6442f0d0a7f63, 0x898150ddcbd42edc, 0x2cf7810985ed56d],
    [0xcbcae4ed2470175a, 0x5328012a3a1a35cd, 0x4bffcc6ed99af5cf, 0x25965b4db95bc710],
    [0xbe2de181b76e6a7c, 0x907c506b5488787b, 0xde660b9b31d4a406, 0x20c27ab9c365c5d2],
    [0x2cdd72254e2ec7cc, 0x39c37adf6fedcc7b, 0xaede0821e036773e, 0x1636fd9a0457ce75],
    [0x3d8c599c76e7f07a, 0xdf6dfae09c41d2fb, 0xb994a177af69a40b, 0x6a0175e0d8aa3e1],
    [0x1b7428872baabd5f, 0x397263dbad5306dd, 0x3171aa09f25f25ee, 0x183d06dae1a0ce5],
    [0xeba4f3466812e42, 0x6132a99d906908b2, 0xa24ece684e502d3d, 0x10e5dd7a0862c4ab],
    [0x9e17f1b342eb15d4, 0xcb711bef3784b5fc, 0x7a01cb6693b93eb4, 0x2595dfbda733d047],
    [0xcfd932b90af23ad0, 0xc6b95e5a2613d39, 0x35c164b71a56dd73, 0x3090eb08e04a2d2],
    [0x4a0b3f7603d68a02, 0x2171c1f7980e6321, 0xa579ff340040be17, 0x28feb3ed6c194200],
    [0x6052efccdea98ec6, 0x430058a63f207663, 0x59f585b63e8dd15b, 0x2e64b2e0bd6fb475],
    [0xaee1f8d1a28a883, 0xcbe24fab12a9086c, 0x2473c61ac293c6d6, 0x5fc6589a1d1d35b],
    [0xf2783cd237f3d911, 0x9631a95f2e0cd7e5, 0x741de810178e19a8, 0x7da96bbf5fc4458],
    [0xd333d4eaecd7dc7c, 0xedf941c3e8177ad5, 0x4853fca459d0d6e0, 0x2d30f6e371ba6fa6],
    [0xf6f18411a7440cd8, 0xa481c1975e27b951, 0xc586c58164da8467, 0x7d9eb804f0a999e],
    [0x3c3ebd2a823b7660, 0x992dfcd41997be14, 0x8aa438d2e2967569, 0xaca5e46d797e174],
    [0x57c0bab464368b5d, 0xc0cc5a41d9d530ed, 0x725190584c830b15, 0x100d8a1a7ff31b30],
    [0x25731c8fcd15f0f8, 0x93a040ed45f2744c, 0x640210d29a4a329d, 0x2cb7863886cc4ee1],
    [0xdbb6b986edfeb632, 0xf4fbde2cd45046f5, 0x123d727014822f00, 0x26342b8b16928328],
    [0x51321f658f6cfe7c, 0x19b21f39bc401433, 0x5ac79fa9abd46e4a, 0x1efe4b3bfbb320e1],
    [0xe7885b580edd59fd, 0xd35bbdf9b7e9c266, 0x3880bfca6348ab2a, 0x7ed952f7c3370e0],
    [0xa524e406e3143280, 0xd9c7b9de29134ff3, 0x94b6fc2a3a94f736, 0x56b8df70be9577f],
    [0xcb78dab9dd1b4283, 0xd39a6c34c2f241a4, 0x933de0f615fd4458, 0x18e6cc7c6ba50e61],
    [0xab2968b981aad486, 0xd5a1d101bd96db5, 0x4afd41d998944822, 0x791d241f4743deb],
    [0x185886e81f2ef43, 0x3ea4bf99de1700ee, 0x8989c355db0984f9, 0xf3212046ef98443],
    [0x928694717e572878, 0xf4c491fcfe05676f, 0x203ee5a0699bd4a2, 0xd7565999ffac123],
    [0x19cf41d147b89db9, 0xd914afbcf3fc8542, 0x5f5baa932e38805b, 0x900505bde5ee2d5],
    [0x86d7d2b8b44be433, 0x3f69d6c1d9cd29b9, 0xb36183f18766ce50, 0x25b7a438b7dac4f0],
    [0x5d1c18594b7e7270, 0x7a1061b59ad00fe8, 0xffd39764fe6d3c68, 0x258a0dbb961fc61b],
    [0xf398a280e57d6535, 0x3a3a6c55856c5447, 0x2523b65eda5367ad, 0x216fe55a6f2e8daa],
    [0xf5af326ed6b1e099, 0x5c928ff14e078b38, 0x14e1bcb1ccd4cdfc, 0x1749c39995115eef],
];

/// The values of the transition matrix for width 7.
#[verifier::opaque]
pub open spec fn p_vals() -> Seq<nat> {
    limb_vals(P_DATA_0@)
}

/// The transition matrix for width 7.
pub(crate) fn p_table() -> (v: Vec<Uint256>)
    ensures
        v@.len() == 49,
        vals(v@) == p_vals(),
{
    let mut v = from_limbs(&P_DATA_0);
    proof {
        reveal(p_vals);
        assert(vals(v@) == p_vals());
    }
    v
}

} // verus!
