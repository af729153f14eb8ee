//! Constant-table data for state width 10: the flat round constants,
//! the sparse partial-round rows, the dense MDS matrix and the
//! partial-round transition matrix, in row-major order. The constant
//! arrays carry the data; the spec functions read the same arrays as
//! value sequences, and the builders return vectors proved equal to
//! those sequences.

use vstd::prelude::*;
use crate::field::{Uint256, from_limbs, limb_vals, lemma_vals_concat, vals};

verus! {

/// Part 0 of the round constants for width 10, as little-endian limbs.
pub const C_DATA_0: [[u64; 4]; 140] = [
    [0x49d6debd061cd2f6, 0x8cfef19d290a55fc, 0xb54ad8962a82b983, 0xe1962c232fd0a6b],
    [0x2d79b847b355cf51, 0x317128953eb47d8d, 0x8accd0a94536fca6, 0x1e1f45cff3e7416],
    [0xc8f7d9a02e37bd1a, 0x5ef7f8aae5ffe96f, 0x53618fd926104775, 0x1367eec3b20cb749],
    [0x79f3a4d72956d706, 0xbd274b09f78c1004, 0xcb78c9b91650d7cc, 0x2ff6ad40533afa2a],
    [0x74ffda68d1a5fc71, 0x1fdcda0b18d7bd83, 0xd8094831a74af815, 0x152c8c3d9e43d90a],
    [0xb075406351a20977, 0x5d0ac5597a309559, 0x2364d26712c7f46, 0x241707db26f96df5],
    [0xa6fd06ca1ffc1f56, 0x114a9fad38a530bc, 0x6303d0cdd2b6d1e4, 0x15a4e4728a197dae],
    [0x85887e64b1075598, 0x987a68748c8f54f3, 0x87d656e93f11e336, 0xcbfd63f363978c3],
    [0xe93e524e4ffd25c4, 0xac27d2895921ac64, 0xaea6fe5e323fb0e0, 0x1fb594474b8334f9],
    [0xaddb5af901676aeb, 0x24ba225871bce224, 0xb4c560aa8dbabc86, 0x5ac55361da931c1],
    [0x7ea76b64282b9af5, 0xc11149f491164f99, 0x42ec298ad3eb73f6, 0xe7266f909395b5d],
    [0xf042cad51c6d7895, 0x8c8af68c4c128c68, 0xa2c0d8a890af9046, 0x1d928ce916ec0178],
    [0xe900ef14a4d2d6d2, 0x9ffad17eae9965de, 0x263410fe44628fca, 0x11521e378f229844],
    [0xe908034b3cd3b2d0, 0x456ef71bc4eb16c1, 0xa0052d7a4b9c9a65, 0x23f3ea3b55ad3710],
    [0x56f1e7e1548922bf, 0xe4384be644f57b4a, 0x623bb08503764a90, 0xd4f972e795bbca8],
    [0xe83954859d21b595, 0x3934468203995267, 0x99692d57d7a54d89, 0x2a53e60ecb9c00dd],
    [0x11c154f41be1a632, 0x821d75a9e1e870df, 0x10369475bd54ae1d, 0x18583bb0a83ad2e7],
    [0x3a1d795d7682efb2, 0x881c76dc552ccf8d, 0x71c463b76ed2c056, 0xd45688dc986f78e],
    [0xc35c76fcb094d371, 0xd064e2a16194e5a0, 0x618c6ebc5af5624f, 0x1448256830ab79d2],
    [0x3181428bd55a148a, 0xfc06eed7778ba6ad, 0xbaae265c68f378a3, 0xc0c7912bf67c273],
    [0x4792dca3452a55f9, 0xf57efeb3da6f58e6, 0xd3e6c02b7a578326, 0x900cfc715edb109],
    [0x3d0d70d264c8790a, 0x6a905911a988b46a, 0xeb2872fd75b848ad, 0xb84b851d9d0d621],
    [0x57675bfbbda8a5b0, 0x932d37db703f6ff5, 0x3097c0fb14d05a1b, 0x69b8105bc60bee1],
    [0xb44cd9d4d2302325, 0x68423449df9c2ffc, 0x334524022e1d3c71, 0xa0ad082a6226840],
    [0xf8e266221817d32c, 0xcf71281b4463dbbc, 0xcc04b286ee0ebe76, 0x18c350500a7bb9fe],
    [0x8c308b7433d907a0, 0x6c7618ce9760c222, 0x73e04bcca9c11272, 0x2da317c459c0b0d9],
    [0xdc691eddeddbc6f, 0xcd67c41981b9dbd3, 0x13e3ffe7094ac379, 0x232a07d1aef79c11],
    [0x675d99f8964492ca, 0x27e5727dd16d0f27, 0xa7ea795744cefbc8, 0x6f8ebb8cb046c0a],
    [0xc4602c8c1c415478, 0x4180173183300992, 0x6afa0666b721e1c9, 0x10db78837d065258],
    [0xa694d04cadd5c526, 0x97ee4e9aa5bf1924, 0x1b5ec306d3d8f2a4, 0x12f5fb7778fb2b8e],
    [0x5b7efc311a15007d, 0x2479e0299aff2cea, 0x993932988636d0aa, 0xf6a94bf66121d5],
    [0x9c8066489041732, 0x214655460e4b5aa, 0xb77870c1ef594225, 0x18b818a1c250d6f8],
    [0xb6df2d04bea0f52a, 0x2a6069c2c0b07ab2, 0xe05963b80310584f, 0xd25185fdb4a3c65],
    [0x9adf0da04c59e8e2, 0x9e07c61050b10ee7, 0x3ff39599926802bd, 0x63666f719c9dacd],
    [0x34b5309eaf9d702e, 0x2ffa4cee72699331, 0xbf91a63f7dbe954b, 0x25f9e2e4766cf4b7],
    [0x5434c6d8737206d3, 0x56b125286d8bc81a, 0xfc4e9c4fb84d8e7c, 0x1237a2bfe7efc853],
    [0x75c625341ae06159, 0xf7048d0f9f478930, 0x551a03ebdd0a3a71, 0x149b17921a60f02],
    [0x3637cb6221874630, 0x300aabb76a3cc3c2, 0xe94cbdc1ac5738ab, 0x21e129ee052da457],
    [0xf0774228d6978d94, 0xe41fb603f137b02, 0xbeddf8558b8242c9, 0xffbccf818cccf47],
    [0xb56024bac5ebe9e6, 0x16d397a9eba56f87, 0x6ce65310501ef578, 0x13018c64072bda03],
    [0x99d0f2c97e2c2670, 0xbb0095778f990fe7, 0x98fdb84857c2091b, 0x1b009f2e8abc03f4],
    [0x5b3bc44de5c5289f, 0x7920cd0704691e55, 0x1c1180cc07eaecf4, 0x101546fdb71f3299],
    [0xd42a14db46a785c7, 0xd993e220ec5a1f01, 0x29c3f8cc7b153683, 0x1d1f66a2ec0621f2],
    [0x9d34101dc8e63ad0, 0xaac59256172a1447, 0xeb8ea785853ee6ae, 0xc0d0d8c79f76f62],
    [0xa59dd245399c9572, 0x859c1218e1fb611b, 0x1ea7a4edfc1dcb60, 0xa3f038a5f37073c],
    [0x657a95f03f1b1705, 0x7dba45231d4fbe6b, 0xa2ab793f7cbc3e80, 0xb7e89abaf697afe],
    [0x71b247812b977f6c, 0xa9b381fdf90ffa89, 0x67f70019ea1a2ea, 0x91c47a22bfbe8cc],
    [0x7728fbd6092241d1, 0x63c07c289da07b0c, 0x5bbd886ba0ebaf4b, 0x23502619e347553b],
    [0xae66d87c0c01336b, 0x78ccc43a4c372d67, 0x19354e751ea126e5, 0x2f5d5281749be901],
    [0xce4151ad9fcd9be7, 0x8bfc7705684a391b, 0x971cc52c9c35275e, 0x1ce6855b5db80c42],
    [0x2b120b76c4a7a277, 0xe44b95506011b564, 0x7603510ef25bf46d, 0x4f03f23505d6e11],
    [0x59dd98fe2e2b3d41, 0xa208d89e974bd33, 0xaf95b4b9514997ae, 0x2f0f36a6ecd8f53],
    [0x4cfbe6c70de64929, 0x8ec3ca5e92c445bd, 0xa5660b86b5fdf8f3, 0x1cf3c4ff9ab589d0],
    [0x5a3d7dd785284e63, 0xb3b1258278d802a, 0x14612e406616cfcc, 0xd907e14510611fc],
    [0x881321ce76e35c44, 0xc17ac817e6ffe348, 0xd0f3dbb49564b397, 0x148575fd984cf84],
    [0xdea8435d9e6729af, 0xe1cca45312f90fb, 0xaf4d1f25e64bcb72, 0x13c32c26889cbbfa],
    [0x31902df4b55a6a96, 0x3a42dd08fbb1fd68, 0x14e721efafb6922c, 0x2f28f702d6841981],
    [0x36c931d5a44b6367, 0x4c4eb25bc57781c4, 0x1ee128bbcbe332ec, 0x5fd91ec054800f6],
    [0x9c3dfc7d7a22d27c, 0x76f3399b29b9a701, 0x57d39d707b177cb5, 0x2a07137e0211d400],
    [0x7daa6cb31e3e359c, 0xe17982505aa3317a, 0xe5fa045d32725f7c, 0x1b9592c1a0852470],
    [0x13a43c2439c170c1, 0xe0504738073dcc87, 0x1f5a8e00a0ef5286, 0xcfd305387cda42a],
    [0x553c7729b6a04da9, 0x3494290584c69708, 0x47f18279f468007, 0x2e10c62b1b5566b5],
    [0x6d3d5afd0892e67d, 0xd225b414a984994b, 0x63b0c62ab8a0a773, 0x2bb1653a56221c62],
    [0xbead9fac9f473c70, 0x78379e7b616006a8, 0xf62f18fdf8d278f6, 0xf270ab89bd220dd],
    [0x11d0bd1c973b95a6, 0x59488f79b99a79dd, 0x13673b88d6b32387, 0xa1301e2c1892085],
    [0xe8ec8ea1ef54e393, 0x7e1c90fb5f7e24fb, 0xeecf534184d7373b, 0x24cb02fc34a8ce75],
    [0xcebc2c96d0deff54, 0xb39fd851a472243d, 0x31b75d03df01dee7, 0x1603165537fda2e4],
    [0x5bc0778022e11a18, 0xaf18cc46a4f1164b, 0x540ecffb1bf65acd, 0x287166d87790f5cf],
    [0xa6f45429fa2fb1a5, 0xf7ac56a834c7967e, 0xbb21f7b7141efe84, 0x2a81c998baf847b],
    [0xe217e003ac2f0e10, 0x4df4eabeba1d695f, 0x500fc18e5b798ebf, 0x20c95c47c2ce176a],
    [0xa2c02bbb1ffa515b, 0xed0773be27f6e7e9, 0xaf4568088a72b2bf, 0x54cfe239b46d49b],
    [0x769d8af37cb44c7, 0xc7b126d9ef3378da, 0x289bd2012b509bc, 0x8774564392fba9a],
    [0x783918404f1c7538, 0x2cb090742dd81c09, 0x1ad301538184100e, 0x24a7f216983732c1],
    [0x36b014821c74645c, 0xa3b1c6caab6f322a, 0x8cc5c0f54e485919, 0xfafa523ca9deb75],
    [0x84b334d0378b5318, 0xaa92e649d9ee1c95, 0x848b10efb6f8716b, 0xc8b11f331a17d83],
    [0xee2b60b9d1e8299a, 0xb75938fd56c03c74, 0xe5ea7600b7876fa4, 0x2fe8b8a523a08c2],
    [0x43901435c1c41942, 0x84c287d5fa0eccef, 0x5c4b4a78f1b8a857, 0x1d039ad8acc6c951],
    [0x6ef8ef363b1a417a, 0x583f59d0980c3756, 0xb74a3a3ee0971ca, 0x1b89217c5104374c],
    [0xfc28489330674b2d, 0xaa11d7dd8ea90efe, 0x4e3828caed06fe9, 0x228b4d065bd84d61],
    [0x34443e98733af72, 0xf90b4d5594fcffd6, 0xa4b65736683dc6f8, 0x1d57f64ca6fb25d9],
    [0xb99dfdfea0fb69d8, 0xd1eebc4169217e07, 0x8ad64b52d89d7ae5, 0x11ece5bbbbb61196],
    [0xf5e7526764e7b986, 0xdf662eb02c7392d9, 0x4bb67f95f943a07a, 0x21ca2fb7b186974b],
    [0x4bcb5df91320f10a, 0x94ea57a28ac0a3e6, 0xf6294ef77d0ebede, 0x1f47138d833b0c8c],
    [0x8d88f11364a1496c, 0xaab0e8007d055822, 0xa97ca74289d89772, 0xb95be5cad31b06c],
    [0xe266dde215d76157, 0x91f98f75623105f3, 0xb3af86c0fcd54793, 0x794a48d6d0201d4],
    [0x373d509a88f3763e, 0xd8c5d09fa1fb1665, 0xa17f29a71fd76f94, 0x2455a03e833b1daf],
    [0xfde69f547bb76763, 0xf1b63cc97842e2, 0xea4b487f9849ff18, 0x799ea93d781c35d],
    [0xfd68b7e4eab1b822, 0x2e3ebbd3cde16c09, 0x42cc217a50064cfb, 0x28fd070e349d5069],
    [0x4435b5b01f4b80d3, 0x6dba95bec545410f, 0x2fcb9f8d89e19e33, 0x1cf5001c9cfcee85],
    [0x1ee9c043756c44f4, 0x4e4d8e5d6ccde29d, 0x61074e34237a1b12, 0x8edfc4e49ac4048],
    [0x44bda8227b110dfc, 0xd2ee72ff264b4680, 0x7ce4ccc8dd19e94c, 0x2ee5b6524289cdd3],
    [0xd93d35f4c4392624, 0x81eb5bbbff98cf7a, 0xc0bf9bd322e5f142, 0x2775a93e2b3eef8d],
    [0xeb5b5e353684e24b, 0x86d760a7fa68ebae, 0x44d3dc4261e90b18, 0x4c564ee74a11994],
    [0x21af1b9a7be117ad, 0x3eca1cac712f5e3b, 0x94fa81039440b5c6, 0x25ffe7b20eaee8f6],
    [0x44780c1677a836aa, 0x985b6e56ca818ff9, 0xb2a4337027fa695e, 0x14a1035368093069],
    [0x95db0dab73060274, 0xb39d07db8c4c9ac1, 0x651d2d66d0f58976, 0xfd53ab1fc6def97],
    [0x8957d78ccc881040, 0x1e95953c76f7a74, 0x912051b64c939c00, 0x16476bc3bc364193],
    [0x602e64d2dd031039, 0x1a156f53b2559061, 0xcac4a163b36d4194, 0xc5a52339fd84b1e],
    [0xf2c8446584e05c20, 0xc17cdcebe5a0a0e5, 0x71ee86b7d5c91da1, 0x21b63c30dc0baf2b],
    [0x1772e2dcd1a06ed6, 0x5a47b4f83230652e, 0x3d22391a70bfba57, 0x1bccca220986d8fc],
    [0xa09066cf6b13a6bf, 0x9951a204bd05a9e2, 0x38e0bc6da2f5223, 0x162a9696d6df2a13],
    [0x3001d27f88d58d6f, 0xe50da796c393b4e4, 0xda92acdf5736a7dc, 0x1d661af4be59bd53],
    [0x5dc366bc04c9f06b, 0x1f17b5dfc76523b6, 0xe5ac9b17a6c93e24, 0x1fb43feff48b0a4],
    [0xbbcda9c4e4a600b1, 0x7be3c3d755abf3, 0xf26141246e9635fd, 0x1e70af5d289fea2e],
    [0x23df1d4d15d02dfa, 0x4fdd4958bc822a61, 0x878b420efc8954f0, 0x148928433fc03d3a],
    [0x25a51e4e36dc434a, 0x11a50fc360903c4b, 0x5a0e7a3a9f951a72, 0x61b30453d8edaeb],
    [0x3e94de911a9556f1, 0x93fe67f163bddebc, 0x1537f39286d25fb4, 0xacad4bf22e14bf3],
    [0x37c8559c79b03819, 0x269988f872b817c8, 0x84177dc0a6f2d7af, 0x5a4dc602f73e139],
    [0x612eb6ad131cf05f, 0x4beae8ef4463effb, 0xd73441c814ccb0e8, 0x1d1f813dca1d8f54],
    [0x92560e8694ad9ab, 0x86d5989ba1ae0597, 0x39a3024d6822bfa1, 0xe82c3574b61d4c2],
    [0x4687606793fdee9d, 0xfff09d36339cbfdf, 0xc992916b2409a277, 0x17ea9ef9ef7da806],
    [0x3a9661ef41a7ce44, 0x909f4c718137ebb7, 0xbd1db5d707d4d24b, 0x19454e5c7ffa9716],
    [0x7db4a2193e934a3b, 0xb9ac4df3787fdf85, 0x4586771a23ac776d, 0xaf8dccfbedea206],
    [0x47bf9082e72630e2, 0xa279a12cc2ffe147, 0x30161ae37440d5dd, 0x2748872a6ad3a07b],
    [0xe1ce02135bdae984, 0x550e388870772650, 0xfe38e311c7b0f661, 0x1a529a39f6519dcd],
    [0x9c7e61f710e63892, 0x101be9f5ac7be0cf, 0xbb19680381a17f82, 0x8a57affe13513b3],
    [0x4e4df5ec00610f60, 0x57a3e95cbd68684e, 0x25026f780273c4f5, 0x200d13b0170c124a],
    [0xd95cf616f7a098d8, 0x1db863ab232525c2, 0x91d01f4432b72855, 0x14c79a357f53469f],
    [0x483a83c3402f4832, 0xc833f144b9630e99, 0xc905092c6d5d50aa, 0xc513fd43af43ec6],
    [0x7a08002d2986482f, 0xddb63e9c378a7524, 0x6ad3dc7d1995f60e, 0xab802177b395f6b],
    [0x50bd9cb8f3e0acc, 0xc1f31dc452e37430, 0x4fbd8f0806ba45fc, 0x589d228f316da7],
    [0xea5fb211dcc63d43, 0x8d15900074bce706, 0x5b585d61925fe1f0, 0x1b46df6f8889fd07],
    [0xe789c5c3e91cefa1, 0x22ecbde5a188b478, 0x122b64ae172ec1a8, 0x1d2b938132acf70f],
    [0x642af038730333da, 0x5cbbf1ab4c3c02d6, 0x54a4b87d92102ef8, 0x2308c203544d162d],
    [0x5cfe39ea99eeda3a, 0xca467bcdfae03a31, 0x13136c99c2e66f45, 0x2eb7379bd69996d8],
    [0x4f948d09ac57388, 0x77038326398196c, 0x7004faa49c560e84, 0xcbcf8be09e77a9b],
    [0x43a057e19bacc917, 0x5fb3e94bcc02f488, 0xe5fc1c344d9bc38d, 0x72ed6973242f117],
    [0x66d0b74723081ee4, 0x24a5e2b40d7201fb, 0x7f10eaebd727e7a4, 0x6670c3a568d7efb],
    [0xb409d448192ef9d7, 0x524c822b84fbb368, 0xa12233233a2a22e0, 0x1e2105cd356ebeaa],
    [0x140bd1b549f53907, 0x812658485e5ac06c, 0xe829eb1e09cef850, 0x10f3092cb126d913],
    [0xadd19af6558884c4, 0x660e800a5b69a959, 0x856ae5dad349ff08, 0x2bcf1b9917cb73d1],
    [0x41f6b72f2493bfae, 0x394daf2943c8d32e, 0x2fbe03ae71408c1a, 0x7bfcd988feeabe],
    [0xc4b3867a115b815d, 0xbab2c6f9276ff1a9, 0x178e2bb0989c7129, 0x2a977dd5735a9110],
    [0xf5185b63dcf8f3ae, 0xe18e81c3ddfe9cf0, 0x153de1f8d4e9eaa0, 0x229f01e653f7b280],
    [0xdc9e342592da9469, 0x7521fcea55df526b, 0x79e34eff00b0faea, 0x272ebef10616ab9c],
    [0x3d025fb46e1526c7, 0x763976ea6ac08c25, 0x626fd9f5f1186f99, 0x2c8a5085170dc8e],
    [0xe6d57e608f12441c, 0xa444f426d63571ff, 0xbd45b894af1cd1cc, 0x2b77b7c7f7b862b6],
    [0x74930dbd4f130ddd, 0xe82536b68d483957, 0x623184871ccc1a02, 0x1518209639e513d5],
    [0x42a60d54555b0ef4, 0x6bda3dd632cd6842, 0xd1da6685df7e3387, 0x2417244fc99acce8],
    [0xc8be3febe58ae3d1, 0x753ed668d6ded08c, 0x56e7402afb361f5, 0x12dbd5616e93afff],
];

/// The values of the round constants for width 10.
#[verifier::opaque]
pub open spec fn c_vals() -> Seq<nat> {
    limb_vals(C_DATA_0@)
}

/// The round constants for width 10.
pub(crate) fn c_table() -> (v: Vec<Uint256>)
    ensures
        v@.len() == 140,
        vals(v@) == c_vals(),
{
    let mut v = from_limbs(&C_DATA_0);
    proof {
        reveal(c_vals);
        assert(vals(v@) == c_vals());
    }
    v
}

/// Part 0 of the sparse partial-round rows for width 10, as little-endian limbs.
pub const S_DATA_0: [[u64; 4]; 256] = [
    [0x570de886cf569098, 0xd6329ac3c34712db, 0x8ce3a1fafec88da1, 0xb1e797eee3f15b8],
    [0x3748f85ebe9985f, 0x9206aac285062814, 0x4177e717d8adae0, 0x199593eecc853670],
    [0x7fe257bfbdbccb7d, 0x4d631616a2c192a4, 0x823fde4d4fc4a379, 0x8dd94e1b09d8b9],
    [0xe820e9176e227744, 0x31802aa4f847d00d, 0x52ee7c0ba8783ad2, 0xa0cd01bd7b3c215],
    [0x2db4e80fe1ca1529, 0x49a3be7206f3cea6, 0xce30b6151543b6ef, 0x287eaab3e59c1cdf],
    [0x6eb316c249cfb4c8, 0x852996083c456a50, 0x34f91cf214c7bf12, 0x2a8230f7ed05f7e3],
    [0x31351cbaedfb5aa, 0x2ebf690726aa9431, 0xb6e35342c2e32104, 0xa38f089600747a6],
    [0x149449869d316e05, 0xbf7522f875a61254, 0x91b7a9f6dbcd505f, 0x1d5301168a7dac68],
    [0x10cd96128d3ef472, 0x88d202f0d7b42004, 0xf793640bd7f1ea2f, 0x13abafc765fb2e45],
    [0x5ff1ba20f7e83fe, 0x5156a52ac87b9ff6, 0xbd8730ebea03fff4, 0xda7e244a420237f],
    [0xe589bcc2a5e28bb, 0xb310bb94d1258dde, 0x48814699af18654b, 0x271d315532755b1d],
    [0x92afead482e84bba, 0x8b9454a99f0cc49a, 0xde41c9508842798a, 0x12fb6f92ff04b5d5],
    [0x5ab7db69a2dda2b6, 0xf555db290a1187aa, 0x571b177799a76e23, 0x24cbf9280b713f95],
    [0xcd36fcb79b5ea67e, 0x38202b4b0ba7ee75, 0xcbd6fd781a46c13c, 0x18f43c99a1b72e7],
    [0xc7aaf4405f7cf3bc, 0x65f1bc1c1e3ef090, 0x7e8a794ea0308fc1, 0x1c69528b3df94c6f],
    [0xd372d4eee3c6fafa, 0xdb1b3457e1bcc0ff, 0x3bd8e8bae1c0f0d2, 0x1cb0d8aa6512a754],
    [0x6752a3ea0cfe18f7, 0xdaf039487cb42bfa, 0x76ef16340aeddaff, 0x2e1fce1597591bb7],
    [0x8d84b031e95ca166, 0x549b281152c6cfc9, 0x88306d96e72161d4, 0xe486a7b7cdf0fdb],
    [0x675809ac47201782, 0x51e4d50e0176303a, 0x2d900fd1e734839d, 0x1141e26a80698b74],
    [0x570de886cf569098, 0xd6329ac3c34712db, 0x8ce3a1fafec88da1, 0xb1e797eee3f15b8],
    [0x6592ab57e54c8042, 0x3972b1d55c641450, 0x648095cc835e9406, 0xe3f8ddade546278],
    [0x318de63ce674e8fa, 0x588a166e6a3f984e, 0xb0703d7cdeddeaf6, 0x21933a3bc4989347],
    [0x5f91083cfb001a78, 0xd33312a7cf325b06, 0x9c8e1bc30935de1a, 0x2ca6f945f5f75503],
    [0x1d28d7d9b2af46fc, 0xd7df9ef97291de61, 0x566600a97d41f958, 0x129a9ad876815d96],
    [0x403c5ccb4035289b, 0x67afc5a4ddbe6f7d, 0x58755081221dc597, 0x26b8f200c0d03715],
    [0x13b055ec96ee3d64, 0x7016f049ea860e81, 0xf9d3b0a8fa53e39c, 0xc7c739377b0ad2f],
    [0xc89aa5ccb3feb20d, 0x69cbcf83edb4b207, 0x93a0a57bd87618c9, 0xd17a36749f8f9d4],
    [0x5864e01b9bd3f872, 0x3cb6a47ef4e65556, 0x881d56c7e64cfbbc, 0xbcfe1266d757503],
    [0xddddda16e6d5fcc7, 0x25868b63131700d1, 0x7ac0ad1f4448cb2, 0x13f89db06ca471b],
    [0x71c258177a302b8f, 0xc8e4ad104d57d577, 0x827b6be6c09b027, 0x24d344ea0550d772],
    [0x8dde6b349e39ba30, 0xc40afa1939dc1f72, 0xea3a855a854e7dae, 0x208ce89913e633a],
    [0x774add15c0e2fc3d, 0x74e31eda2baf0821, 0x50e306a14d216950, 0x1fc4565041d810a7],
    [0x53135655da269649, 0x20f2ce8f3ed7bc34, 0x1ab298ba4bc16a5b, 0x2fa22f80d4309be2],
    [0xd78942a0c1cc8add, 0x67043fca7eb62aa8, 0x35db70f3005b3d5a, 0x26f3a23903d1e7d8],
    [0x8539d6092eeeafb0, 0xe7c0c21aa6010081, 0x5f2391eb038b2377, 0x1ce0343fae8a12e2],
    [0x334990cb0572c33e, 0x305841bd0ab932b7, 0xba5e20f1c225723f, 0x244a2bb870f1e6f4],
    [0x536b2d321cc00aad, 0x4c077e99ecb358d2, 0x6f0d00b28c5f0233, 0x1ec61e9126f4c8fd],
    [0xf52a7f371c22db87, 0x81ea991ffddf017f, 0xa8a6bc1687900a54, 0x18b2ab087e3f0a7f],
    [0x570de886cf569098, 0xd6329ac3c34712db, 0x8ce3a1fafec88da1, 0xb1e797eee3f15b8],
    [0x5180975ad237ea52, 0x21952e760e56de98, 0x898a67ba8853d048, 0x140b91ca0e53110e],
    [0x4a1476144a9c2678, 0xc3c6129575434553, 0xcaaeab9aaf1099e8, 0x3385f50412cc6d4],
    [0x2da2dbb233546ac1, 0xdfe33ce76386edf2, 0x615bb4a250f84e54, 0xcc396f0b80e2638],
    [0x4d7a906ecd172dc, 0xabc4ac5efdc44109, 0x4cd8a07f6585a06e, 0x2810d8ef50de86e0],
    [0x9201ac0c3f16c12b, 0x5635ac4ad2ff759a, 0xc274b33246e39eb9, 0x1f8b8501e9db678c],
    [0xaedbb2f5ad4e391d, 0xf2172545f366ec2a, 0x5199c6cff8510a9e, 0x9b10e50dc0703b6],
    [0xff7a87dfe79cbbe2, 0x57c68f0ddea96593, 0x7fb99b5b38e51392, 0x158a6e9ae44d1ebc],
    [0xfaf6d3bb978b42a8, 0x92f6ec2d8439c186, 0x707e666c1e7c7451, 0x68dba3eb9f1b909],
    [0x58c7e46be055c723, 0xb216071d10cdf873, 0x864cb56fa3f82b66, 0x100be98775675cb0],
    [0x1bbea7a71bd20cfa, 0xd68ce1f30ae3978e, 0x5cbf4eb9b3a6ba6, 0x1684c4b116063b5e],
    [0xcc259e419899e53d, 0x50ce233cbbd99995, 0xf498a22b87a3dbfc, 0x678cf4e455f8359],
    [0xe03bdbdf0c8eebc1, 0xa4c539eeca95756a, 0xa104ed93aa254f20, 0x305d111beaf3f510],
    [0x676e45d33a8630d2, 0x1649d6c7a8c39b78, 0x5f4b1976395ae605, 0x197b0550e8e09c37],
    [0x50efcd32e2b83de6, 0x832748dcf708e01c, 0xf24cd9179348b4a2, 0x190712928fc6ac88],
    [0xf135f207b24929ef, 0xa144ba344c274744, 0x7e8d705a9f60160b, 0xa77bfa4113e98b4],
    [0xac124d58fe3fb901, 0xfd7c2d9631b4937, 0x87de0a3436cc093e, 0x2962a7083e7830d2],
    [0x2588a5ff89583eb, 0x1e3777cc9b9e526, 0x777c119f68ebec7, 0x91a715976bd99e4],
    [0x3d0812dea2636e3c, 0xb52412a19fb8b98d, 0x20449518af4f4133, 0x61e3488cc928925],
    [0x570de886cf569098, 0xd6329ac3c34712db, 0x8ce3a1fafec88da1, 0xb1e797eee3f15b8],
    [0xe3d3161eb8ca76d6, 0x8362754ba76cabd0, 0x9629b7383452b985, 0x197ce59bc87f624e],
    [0x812cf10ca5bab1ac, 0xe9f4c53eb4d5dfd8, 0x142f0ddaa038f436, 0x276e2e6272ab2858],
    [0xbcb2aa9ec83e2ca6, 0xb56dfd1ad0977b2a, 0xd072ce83e5088666, 0x9c49831a9e1c453],
    [0x5911da18af0173e7, 0x68bca243eb859a46, 0x26626ef9de341f22, 0x2a4aadbf31a1c58a],
    [0xc4b5253494105a47, 0x2ea5ee00f4f3025e, 0x1be88e96ed5f67cc, 0x21b0460dfc864585],
    [0x9324df79fc46df06, 0x543030b53b9b97ac, 0x60cb1d580b012b52, 0x120a8288745f9dc3],
    [0xf64f62a02015d7c5, 0xc00945de4706b4cb, 0xf4c9ee96c2fec0b0, 0x9f0d911f5eb1bbe],
    [0x6134ad16bb34277d, 0x22ce49d1081f6381, 0x202379a001263e05, 0xdd0124d8c9d7b7c],
    [0x9422758e73cf6ec8, 0x53f567874a52ddeb, 0xbccbad79b053df6e, 0x2bd803e20cb341de],
    [0x566ed4673684c0cf, 0x975dddfbe3c11b4c, 0xfba0867847f947f, 0x19b2b4b0e24bee79],
    [0xc2793e4ca4bcc3e1, 0x550331b2670e6a66, 0x1c21cb081f177a6e, 0x1acda97c75929ac1],
    [0x9329caa4d932bd62, 0x8004dbee0abc0df7, 0xa3438709b96351fd, 0x251c70a93b81276e],
    [0x70fb0e34e7038ea3, 0x4c954b7ee40de70, 0x138df3fba5221a86, 0x28918984ffdfc01],
    [0x430aba357eef776f, 0xfb6f545528d85a32, 0x6f4da7cf837817eb, 0x2ea1cff24f208aed],
    [0x6f765b058735ccbf, 0xe75a4f9728cfb558, 0x801547bc9937b1c2, 0x15b61ada681df7de],
    [0xed692e2350899167, 0xd6dedff3c5b3ba4f, 0x9fcef31919daf7de, 0x16a4ad2b453006d],
    [0x95a9060c7936be90, 0x369d06876b8636cb, 0x77543bda5b1777f6, 0xe8cdd7c3d339270],
    [0x24aee4d457490a63, 0x3049827e43a1091e, 0xa2fe901bed5e0dff, 0x26152760e5dfe9f0],
    [0x570de886cf569098, 0xd6329ac3c34712db, 0x8ce3a1fafec88da1, 0xb1e797eee3f15b8],
    [0x524b4638010937ac, 0x8330dba4db4cc96c, 0xa005acc7f78b735e, 0x1ce56e15f41c99a2],
    [0x976912649af06a99, 0xc01c5556522150ff, 0x1497df0fa1b969f1, 0x2b33ef11fc26750d],
    [0x3e0249b924f15d37, 0xeac35c7ec0f28b34, 0xc893e39afe89b1d7, 0x47e2b54830ccb7a],
    [0xd2d34be269c82612, 0x27e9563ca2c5dde5, 0xa59ddcb5206d4048, 0x2e820332c7266af2],
    [0xfb7a55868edee623, 0x89a3540015bed059, 0x38b7af8f86be8cbf, 0x28fc123f79ace398],
    [0x322237bd883dd555, 0xb42852c52fa63bff, 0x55ebb73809f3036d, 0x121ae712c922e7ef],
    [0xca93a34cdf8040a7, 0xc73a5a406770dd47, 0xc0e82597953a107f, 0x3002f25a7ef8e035],
    [0x7424470dd062076e, 0xca7204c4120cec08, 0x17ca61b73bc84b33, 0x23ea2cf159ca1b8a],
    [0x223daf05529248fe, 0x8437c973232846e4, 0x51df789ddc3d0f4, 0x179e72146176bd15],
    [0x2b53284b5655d46d, 0xf2ae0749c5d2741d, 0x90692d75c3f1b999, 0x25edc52b2cd7bb66],
    [0xd04cf416b10fcaae, 0x2edd46df09f0ad90, 0xeb85ec17f20c955f, 0x1cdbea76c865750c],
    [0x69ddb5797a2a748d, 0x4aa98a863678d37, 0xe1124edc195033a4, 0x2edd29ae05591244],
    [0x6373414a49a13590, 0xf1549efbac72a122, 0x62da5b26453efb92, 0x2d9d2a342475cc16],
    [0x6ffed192a641406e, 0xd2e4d4284baaac9b, 0x4be3c608fa349287, 0x4783348904bbd88],
    [0x8ee49a4ddcf7a3eb, 0xf1962d14289c946b, 0xb883d790bb0f97a2, 0x1588ed490b8448cf],
    [0x99a9dafea570fb07, 0x52d17b8ca1bf1f64, 0x6153c7e5d6beedd2, 0xbf107dfc33fc7e6],
    [0x35c6d319c4474326, 0xf01147b6257d7ee2, 0xb401f946f7b29e6, 0x201d0f15aef01a1e],
    [0x7b41a6446af10385, 0x4dcdeea4eb7dafc6, 0xb1dbf9bbc98eea30, 0x1015804003503668],
    [0x570de886cf569098, 0xd6329ac3c34712db, 0x8ce3a1fafec88da1, 0xb1e797eee3f15b8],
    [0x54f5b83570593503, 0x285ff7edd96dc896, 0x5ceb095d9e6e0e55, 0xbee3e128dae7500],
    [0xb84882d76241ceae, 0x79c1d213e70feea5, 0x2f218990eb3ea263, 0x1853cf3ebd47b13b],
    [0xfc6fc76de9a63e6f, 0x5f6d8977ab169e38, 0x774bee7d9e623285, 0x2c25e50d363cc08],
    [0xd848ef158afcaf68, 0xc892d2a7eebb8ffb, 0xb401f79c51ed881e, 0x21ccc1e8f8b5ad39],
    [0xf9b3720a685d71b0, 0x1644707c6e85663e, 0x2604ab428aa0a897, 0x2193aa94ecd57e96],
    [0xe852aa472ee4c9d1, 0xe76ecf5b711f2535, 0xeb15cd908cbbb5dc, 0x1d3b5cd3133a0533],
    [0x45c7897f57ad08b3, 0x1c42ebddc7ef5e44, 0x8d31d6d7247b64d4, 0x11f29d358de76ef3],
    [0x4265add7c900836d, 0xeec484a912976386, 0xd6fa16a3a407f4d3, 0xfcc2984d1d2b762],
    [0xe225b204c18f9e9b, 0x553f1eb717a71437, 0x5ff9abb62a371800, 0x2f79d03e73231758],
    [0xdff9b8cf286f9733, 0xf104cf134babadf2, 0xc54d10739b354ab, 0x2f4f14eee6382dd],
    [0xb0aa4f4fd145e85, 0xedd9afb37defcc42, 0x3ef5b2f9619f618, 0xd0c5aa4bc4f774d],
    [0xf45d73157c4fd0f0, 0x8c084662c897899d, 0x7a8b7e871345e599, 0x9b150f8dc9342c8],
    [0x47065a4a681e9eb9, 0xabdb72dbcb02e8ef, 0x8a5fd6645fd1eb86, 0x28148860436280cd],
    [0x7bbcdeaf69c85d15, 0xcd203231a0e17841, 0xccedfbdf3de64031, 0x2cf619fe3735ed9b],
    [0xabb63ce7c036ad03, 0x1505621343ab1c19, 0xd438a9e030945914, 0x32f164c4f4e5122],
    [0x74bd2fe16c273581, 0x6f41f402bec452d6, 0x3441637e2cd61038, 0x2a3efdef552208ce],
    [0x9cf7d20029cac792, 0xcac542f66fc2a46f, 0xab3e38f0991fcaa4, 0x1a9e7a13e4d57cd1],
    [0xde50e27ca599d872, 0x5b3a7f24a2d03aa1, 0x1e43ee1f520584f1, 0x20871908a0ec043e],
    [0x570de886cf569098, 0xd6329ac3c34712db, 0x8ce3a1fafec88da1, 0xb1e797eee3f15b8],
    [0xffaea5a2dee73c19, 0x2f44e103b3a0905c, 0x30d7e5219fabbff6, 0x4767ef42341d39],
    [0x4e36131a721f6ff9, 0x730c532555003cae, 0xcab2b7c9723c597e, 0xc4a1786e515cd9b],
    [0x55cb150e10153520, 0xc77452a45020e739, 0xf47e57114df0ead2, 0x147f468c58deafdc],
    [0x8d99e54b5802c760, 0x3a599fde74388ef6, 0x9ef884374676b9cc, 0x1d1309f96110c70d],
    [0x4537febff52e1d62, 0xa625fb3c1f65b88e, 0x6f807d253bc0ace7, 0x134281c387edde8b],
    [0xf7dc962dccdad59b, 0x8c669abc35e77ae2, 0x14bbc95cee2ac6cb, 0x2fec2d972ac4b8ba],
    [0xe05570c73040c663, 0xf7f4daf7b406732d, 0x1da8b4ad3a15e23e, 0x1782c9e451cbde26],
    [0xbaa8d8f3593b4c4b, 0xa6f6eecd9b506fd2, 0x88d8b2016d3e7763, 0x261bf6a9f68e3130],
    [0x9aeb6491b97f98b7, 0x4fb984710e4e8ec3, 0xeae080edf7ce2757, 0x133315cca34af406],
    [0x7e023df397cb679b, 0xe8f13746e8994955, 0x182ebe57e4feb91b, 0x216763174ddb0395],
    [0x76450edb6c652ce5, 0x1fff6222c6bddb77, 0xf9ba2ed5f491b4f0, 0x9dbb42bf26459d3],
    [0x8bc676edf1f77b6c, 0x62f24fa140817b23, 0xf55cb34f35c7327f, 0xea832a969ad1d94],
    [0xd3d7daa542142dda, 0xe284533b1a51fbc, 0xea5ba5103a3993, 0xda7dc395978e8ee],
    [0x541b2b7312618722, 0xe3a39ae042171e21, 0xc506fe1c56fee73f, 0x183cf55053b7981a],
    [0x73cccfce0ff9389e, 0xcc84343f0449a548, 0xba1b336ce55febf1, 0x16eabfa4236b9b61],
    [0x9dbaa36bf782e363, 0x368a2e63794b1d3, 0x8fd694646499bcb9, 0x2b62c1083fbc23f5],
    [0x8428ecd233fe3c6d, 0x31541ad49ac28c04, 0xafe44263356d01e9, 0x11ecdbc47a72138a],
    [0xdaff1c21046af99f, 0xeb98935e405316c6, 0x91cff7216ddce50a, 0xeb0e1c7cae7c3f4],
    [0x570de886cf569098, 0xd6329ac3c34712db, 0x8ce3a1fafec88da1, 0xb1e797eee3f15b8],
    [0xc5012fde6caaa11f, 0x45705a71d0ce9577, 0xfce9b31d21283d35, 0x2323c898ca30f7e8],
    [0xf3f15f2e7a9f87a, 0xa82bda6029c0abf9, 0x768ddb13eedecf0, 0x2373f9b1c4df6c50],
    [0xebb44887f84c18ca, 0x9032dab32a9d3a58, 0x5f6f8dca5ef66b92, 0x2b4a1e59a52b1b82],
    [0xd206211b232ef29, 0x69231a619a0e2b62, 0x163148617760f625, 0x3034ae984f1538e2],
    [0xee0baeeb37e9a8be, 0xc226a1a422ffae89, 0x959d01a9576a8d70, 0xf1fb16f83c8ddd6],
    [0x3260ad9bb82f2f2d, 0x298f765476b2e483, 0xdbf31e32ebfb0841, 0x58d583dcf975f97],
    [0x9ac2b47598c2facb, 0xcaaa4087276b7d5a, 0x9e2deac81b17d40e, 0x2b1060a96e8a6de5],
    [0x86aff46646e0808f, 0xffe755efd5d4e626, 0xefcb59f85b43b90a, 0x70579f1869154a6],
    [0xe85996439aa43992, 0x3c3eb0b2e1a6b393, 0xd22efea95d62f519, 0x21444d26f9de3b9f],
    [0xaa92288df2ff9d9a, 0xc33f6c02cfd3d946, 0x131ff4c7da6806db, 0x138671f92f9ed9a8],
    [0x868b338307a449d6, 0x593b158df70413fe, 0xa5fb2fb163a5a57a, 0x1e629d7b8f61fa02],
    [0x3bb763ab716ed41b, 0xd12cd24bb87bba0d, 0xc19ce4939bf317b3, 0x10f0f884186e996],
    [0xfa3ed106c92739c1, 0x252d0db2af69dd23, 0x500850ba6a489879, 0xe2f06ba65a2c7c8],
    [0x7c66f96ad60c828e, 0x7ebfa52aa89f5a5d, 0xa07566495f0de05e, 0x19823b0af9feb33e],
    [0xf7b8fc2d3d4b54cd, 0x5e6b53e056efd33d, 0xb4485dded0afd890, 0x16b0527fc6aac4],
    [0x46f8f35003b793fc, 0x2e5e7621e502e9, 0x2ee86cf723346066, 0x8a584f510af4957],
    [0x696a5ef3e93c27c7, 0x97e6057653d0b285, 0x79375f181ed0266c, 0x8a63466c0bbbdfe],
    [0x80ffb4d253e232c5, 0xb69591e837a4bc4d, 0xe6360bb1ff560fba, 0x28ae69c874a3ab1e],
    [0x570de886cf569098, 0xd6329ac3c34712db, 0x8ce3a1fafec88da1, 0xb1e797eee3f15b8],
    [0x4d96401bc621b381, 0xefdf68b1fd85981b, 0xfb3921d9ff8b5967, 0x26751aa290792a4],
    [0xa89eb4f676199481, 0xca4e0afd46cca219, 0x5934293e248b2d6a, 0x1cb215d90f4015cc],
    [0xc5975158df2f338e, 0x7be6f35fda4c00f5, 0x3e5fbbe978884a5b, 0xb8f12cbe7152d6f],
    [0x19c01aef81299774, 0xfefbc20304b2fbee, 0x31918c33df5c6c9e, 0x17d6d8fe5ede1ba5],
    [0x827e7dd68e98e59d, 0x6af6b91cfb81c0da, 0x8fd044b8ce15b633, 0xb53ad598a4e1444],
    [0x1990898751adeb74, 0x28cede5437be371b, 0xfa52fd42ec7b636e, 0x15e20ee8fc573330],
    [0x2fe0522f6f7c2541, 0xe6d81b03adfb8f9e, 0xfc7fdfcb58fe7b91, 0x154fa8d9c7f09c1f],
    [0x1f310828e5e66988, 0x5623e2b8e5540cba, 0x3f8030f26ebd82d2, 0xc17e59b4750d744],
    [0x4d8f74784b1a86f3, 0x3fba26222d45e050, 0x17b9347152525585, 0x7dfbe56e6ae7499],
    [0x459e29ea9432e467, 0x15bc38159c90dfd9, 0xf25632e8c9b7c0e9, 0xae4cd50975a86af],
    [0x23cb72d07583754c, 0xe280974630101268, 0xc892a8c09af677c9, 0x1fd9cc61b67d700e],
    [0xe1a934ae4e8f3b4, 0xc5d9a076cd93c8aa, 0x4e795626486a4608, 0x1bb36856ba899233],
    [0xc27cfd9d88e339d8, 0x6a3a0e2a17311cec, 0x3cc95213db433653, 0x2f9cce5050f66f49],
    [0xe9ca0df690f958f, 0x93f8c95f3a38de80, 0xef110556d96b4f17, 0x14839ed69feeab49],
    [0x692bff8cedbe5f0e, 0x79ab50c3de8a98f6, 0xf1b740cfc8aa6f02, 0x7b5c5afb6a826cc],
    [0xd0962aeb24a7bd0e, 0x32eed74588cfc22a, 0xa9065ebef59f6e8d, 0x142f7788b72c5fd5],
    [0x3a40b5d04bc78ae8, 0xd36687d6ca9c8f02, 0xdf4fa00ad642bfa7, 0x1d07d62eeb6dabe9],
    [0x1d2539d8cc587fca, 0x668a8908c411ae82, 0xd41bf205be0674e8, 0x13e55cabc0bfbb9e],
    [0x570de886cf569098, 0xd6329ac3c34712db, 0x8ce3a1fafec88da1, 0xb1e797eee3f15b8],
    [0x7088dd5a7e4a5f89, 0xf1ecb95f576bde1e, 0x486e59231d9624bc, 0x262b44719763ef2a],
    [0x74057fa62b8743e2, 0x96226253b3c7c38, 0xc4497d25b4a4cecd, 0x2dfde9e5ea549d50],
    [0x7a305a4c6be0abdd, 0x5383e5d8ebbda66f, 0xcfdda7100163871a, 0x21a567f428d745b4],
    [0x2ac152a1e94d4b4f, 0xb9a4033ee7749a8c, 0xda1fd1acc28b6a57, 0x1dda63eedb6364b5],
    [0xc2d76f0ae1ceecd7, 0x76ff85371aea9109, 0xbcbe3e0179533749, 0x685e2a27b7ec3fd],
    [0xb7e6dda463f63ffc, 0x7f380d6f3f6da676, 0x2a3c2b71626af0df, 0xbadd4c654161342],
    [0x57defa4c199fb96c, 0x8a2bf4c06a47ca4, 0x34fab3018b68616f, 0xe270311e05a64fe],
    [0xd985e5a7f566b24d, 0x1c5e9a1a3d4b3ed2, 0xe781a8f035009955, 0x20782abf7216f6c5],
    [0xa56de00748a65c07, 0xcbabf780572fdc64, 0xbeb031df4f37b8d5, 0x2b1a699f26b1fc4],
    [0x92fbd7056e93dee5, 0xf129493f85837324, 0xf2e06aae29edd808, 0x791e4fd31ebc85d],
    [0xfcfb605f8e369d64, 0x6f4b195e000c1bd4, 0xd62392cddd00557b, 0x2cda35be891732be],
    [0xd7bf0a557c7afba4, 0x3bfa36075ddf1b46, 0xafb3ecca7e7c7ad, 0x6b17710849d2721],
    [0xa6b2263999e4fcd2, 0xc1998102cf0d7007, 0x70dbf3bd6fc20ccc, 0x2a1ad86529da7248],
    [0xcbfae9e565f1ed84, 0xdb601ffb5d133cdf, 0xc8799b5094d28a68, 0x2ca7a691f176d709],
    [0x95ccdd5a1e820347, 0xdc371ee7fc7715da, 0xbf80c70d798516c0, 0x92ee47cd58d3038],
    [0xdc9cf56ce5858752, 0x2b7eb493837b84bb, 0x40e9c1b7112b3124, 0x2f0a3f3ab9033e86],
    [0xca60f926e812d2c6, 0x90c119992bd1f6e3, 0xe812ea7b2467c728, 0x2bafa447b4f5b878],
    [0x7fb41e7430a3e352, 0xd874c5c9cb63e798, 0x5f1cf9fea725ecda, 0x6f980dec5d6b366],
    [0x570de886cf569098, 0xd6329ac3c34712db, 0x8ce3a1fafec88da1, 0xb1e797eee3f15b8],
    [0x1ae3d275e724c21a, 0x264f17ed379f8bc9, 0x41922e9a426a5bbc, 0x2d69490ba2ee43e8],
    [0x1ef92f8ec3514aac, 0xcdf8e9e58d356bba, 0xe4c88fbf4eb60783, 0x55c6b789c7c9586],
    [0xf623273c0cd29a1c, 0x552a14995edcab05, 0x9dc7d2e03878c6eb, 0x160f356a6a05a691],
    [0x8cc8a9f8830aa212, 0xf3795b5c0227a2ba, 0x710499245dc91e66, 0x2a178e1d8e4e4609],
    [0xd801cb75c7e18ff7, 0xc1168c2172dc43f1, 0xc2587f3b1cfef4db, 0x2dff2498b5124e3b],
    [0x2cb5254a55e3d102, 0x48357ece82fd7ef1, 0xf6960d05f57368fb, 0x3062dff835ea1ef8],
    [0xd1795fd513f12722, 0xc5eafddc0e261ed5, 0xa3be2e049bac44f, 0x7f83dab6ad4490],
    [0xd214e8fc52c8d5, 0xd697444ea2739b68, 0x2bc9988c67646efe, 0x1a037c2eb85f1dd8],
    [0xcc2d889051463061, 0xb59bf9d7cb744346, 0xe4f7747fcbee5043, 0x17cc92ab3464a089],
    [0xa37c1f06217cfad7, 0x198702b85deb2314, 0x1f9a2206720e26e7, 0x36ec634c112740],
    [0x2c28b53318669510, 0xd6793364b22763ae, 0xa714a46b12c19e3e, 0x13e7e74a49ed94c2],
    [0x506fc3876cf8268b, 0x6991eaeba7141494, 0xf98954047995691c, 0x304fecd133011329],
    [0x540e163aefe75b51, 0xd77737faaf2704e5, 0xf0d93d3b743e2d82, 0x4e860ca205e4d78],
    [0xa8088de1d51aaa60, 0x627440384a6187ac, 0x473703b110fbd66d, 0x128cd6494ecba913],
    [0x180c0ff1c7055743, 0xe80a436a3e82d62f, 0x63e218ad354e9107, 0x2c7111b9259f4fca],
    [0x73cb38585977fcca, 0xeac53ec5c05c0243, 0x78a698866a852170, 0xb3901ec96ea8647],
    [0x2be3996d839f8d6e, 0x3f60ae58e6023301, 0x6a20f7696c85702c, 0x9aa27e7fd140dff],
    [0x3068a4a981f79491, 0x1ce25a12b77d3c2f, 0x1630aa1d1134ff63, 0x1e3d51555af4c332],
    [0x570de886cf569098, 0xd6329ac3c34712db, 0x8ce3a1fafec88da1, 0xb1e797eee3f15b8],
    [0x32eb41c3fb9aa265, 0x27a2dd48b8403934, 0x7423635e95f10a0f, 0x19b9a37490c9b050],
    [0x11c14095e6770e7b, 0x806c64f5c0305fac, 0x6e52a4e6957b6145, 0x7783facafa95b27],
    [0xfd438c51c9515c89, 0x868b21e533cbd15f, 0x3ea372209ca23d51, 0x1dd174936ad30ba7],
    [0xcf4451e1b3a8f098, 0xca95ff34ccdd072b, 0xef67bb8f50f2bfc, 0x1fa6bdba3839fafe],
    [0x98f9f813caf7c97f, 0x3f482cf81d09b958, 0xd4b0181245fb4161, 0x2a3116f7f050869b],
    [0x70623220d9d9224c, 0x60d114def9592614, 0x3799dd07efc106bf, 0x2c16907e9d82fe0a],
    [0x3b4a33891961bff7, 0x6a3819e6fcbf2958, 0x702f966c12435579, 0x3c373a0664f0389],
    [0xeac13b49fbadc2de, 0x11cd21965127da4a, 0x5737e4d28dbf075c, 0x2e67195c545bf86e],
    [0x425857d92aec38f6, 0x42cd76b82d2c3df0, 0x35a9706aa8d72253, 0xe0d816cd83dfd05],
    [0xa788b28fe08ae403, 0xf7f04065ab72132d, 0x9f4438d54e954e59, 0x1d623c057cceaf6],
    [0xd3e647d6b4278659, 0x53d12cf5ff9f74ba, 0x975e5a489dd2e390, 0xd7f30107ef57c75],
    [0x66d04a68f9d9b15b, 0xb9082c7ea2e8caa2, 0xd8c02064ac112042, 0x32f7466d62e6c9d],
    [0x8a9fa024c1bd0669, 0x84ed42222c063c69, 0xe53c02e6519ecdc6, 0x2a4bc62d27e720a9],
    [0x2db3834cebf6d5ae, 0x7752dab6fa75b644, 0xb48f1f781bdd9cf5, 0x2f11dad1623f57be],
    [0x583256b8a26c001e, 0xf3f340df575917d1, 0x742ff7a7fc8324dd, 0x7448b576267dd9d],
    [0xdd697de036db5c4, 0x7d1ebad7ed164f97, 0x9387282c3883c596, 0x10c06e0e81bba513],
    [0x36eb47ac4e170960, 0x265bb69efb4afffe, 0x143f8997b7b9f63d, 0x30c7e1595a11101],
    [0x55821501e3fcf05d, 0x141c11bc52fee4c3, 0x10449f883df1816b, 0x2081add9a69f8801],
    [0x570de886cf569098, 0xd6329ac3c34712db, 0x8ce3a1fafec88da1, 0xb1e797eee3f15b8],
    [0xd85db64c98c78aab, 0x95390c7ed0788f81, 0x52de67a970192cd1, 0x288949d7c29bca2b],
    [0x21a90857b6a3c8e8, 0xced14f507536405c, 0x50a27700d7ad9ee3, 0x2589eefe89ee66a6],
    [0xdf54b435656f14da, 0x1cf8286a5ef84ee4, 0x2cd4059620a76a9d, 0x28ff008aa0b3a773],
    [0x9047782cd17ea643, 0x1f0e394bc66eb78f, 0xe67a10d82c7c1392, 0x2155df46713041cd],
    [0xc2fc8a52e8044d36, 0x2e014b33a5479a81, 0x7b5c775792cabfa6, 0x2c16fb8505a4a94a],
    [0xfbbd0178137cc708, 0x98305104e27fd317, 0x84b4d272a4b65096, 0x2b1e314362badfaf],
    [0x14b3d3e004f935c1, 0x1547338cdcf3c359, 0x3659ae668667796a, 0x2c27c6d894ba49e7],
    [0x104dc3cd5585041d, 0x2071251f2737dbda, 0x31a38a510142c88b, 0x24c4d70a62d779e8],
    [0x3b98bef6053f7fa9, 0xefa9934458a50b5e, 0x5db59ffa6051971f, 0x172cd6c4cfcaa008],
    [0x191f6f69e7bca61a, 0xee2f57d670941e4a, 0x4edcdfc6e6cb9473, 0x1068776f66d6f0],
    [0x6e825843d763790a, 0xc9655056fa6a01c5, 0x5d17a8ba4db930a0, 0xb5fbd532099ded2],
    [0xa7d9b9aa719209ac, 0xbefee8b2b761f9a4, 0x77bd4f3ac8095772, 0x20d62b8df28b9d56],
    [0x6f6189ca82c5db01, 0xf744260e3ea8947b, 0xdb998fcd6da668a8, 0xab9f332e0d0c4d],
    [0xb98ba5bc01c9875a, 0x5bc408f5cf3ba2bc, 0xeedbc71e3af4e4a1, 0x2953639aa84c6c0f],
    [0xec372c2d9b4a56d, 0xf0efcfa38235f598, 0x184c6f1f1878020, 0x1afc3b62187190e9],
    [0x58c7ecab80621db4, 0x88f2a40ae49d88e, 0xb365736302f01da9, 0x2c67d12ebccd059],
    [0x157a528a6ada69a, 0xfc7d6397ca3d46a5, 0xe32b0c7ca158b298, 0x23a3292e40578b5f],
    [0x48a94aab957cda66, 0xfadea64310ff752a, 0x89d645f35ea2b179, 0x2d5a92ce3878d73e],
    [0x570de886cf569098, 0xd6329ac3c34712db, 0x8ce3a1fafec88da1, 0xb1e797eee3f15b8],
    [0xc9e8675176f5f500, 0x83a9991bfa8c583c, 0xdce7ae58c2fcbde9, 0xfb3cf3d82f7442e],
    [0xd522344c853e69ce, 0x66218d23cc25b747, 0xbb74d84875b7b32f, 0x1441b92ceeaf3e93],
    [0x2c13a93b172c09a4, 0x7faeeb6ac7c99357, 0xf99d8dda3ee219ee, 0xc66500308b0fbfe],
    [0x8f4af87c06c0a617, 0x89e5868c58a2396c, 0xbd415c250830aec6, 0x104281140d7c64b5],
    [0xc3178964c86bb6b0, 0xec662e5e772f6d07, 0x5248b39bcdc40ba0, 0x297d4462db978647],
    [0xa01e4d997761b6be, 0xe042d81134a25c45, 0x4f1a5f1473f44952, 0x882cd69f5f1b0c1],
    [0x4bf01c5f76393e75, 0x3a42ac4a8fd6d3c4, 0x85524e6163aef8f8, 0xa663c1280a5f4d2],
    [0xa322f346f169bf41, 0xc14ca6bdbf7da5a, 0x4b40646c79afa99d, 0x64ff7dc46adfef4],
];

/// Part 1 of the sparse partial-round rows for width 10, as little-endian limbs.
pub const S_DATA_1: [[u64; 4]; 256] = [
    [0x679b42c5da8570fe, 0xcda6d28d1c513fcc, 0xe79b7282a6a5bf82, 0x901c9594190b84e],
    [0x3ea3cdb1a1990577, 0xaa318adfad33a526, 0xc5a38abc15274df2, 0x21257b75cdd1fac9],
    [0x5be3575dd62e8b51, 0x69730138f3bab39b, 0x9cde67161df73789, 0x255cf0a823fa7cbf],
    [0x532caac3530bbdb7, 0xd49a8d82f6a2f9fd, 0x59db8d8a6e72ab84, 0x1d4b1fbaba2e064f],
    [0xbc22ada6d2ec83ad, 0x826abe096b15add7, 0x3de6cfd3fe8da36f, 0x3e5ecf7a394eb45],
    [0x91adb39ed90c5151, 0xb3d399a0e36cdf8c, 0x4037a95c94b3740a, 0x1f068ef1dd48f893],
    [0xeac4e11a85210971, 0xfe9c38f2761e8367, 0x3ea50b491b6a042f, 0x13b5b483529badcd],
    [0x3cf4369e0b1b6642, 0xb77b9a80b9f6e36, 0xec9032541abdf3f0, 0x28955844381caa81],
    [0x6b81c985d16cd288, 0x78fdd2fccc280f3d, 0x4a5af113255b129d, 0x2a3fe34d0e5e7204],
    [0xd7d6ac44fbbb8a0f, 0x56c41811a9c017fc, 0x476b5bcf376eec95, 0x8757825685a90d9],
    [0x570de886cf569098, 0xd6329ac3c34712db, 0x8ce3a1fafec88da1, 0xb1e797eee3f15b8],
    [0x9feb587663d274a4, 0xee05108628378a3a, 0x99a53fb59504aabf, 0x5454d37baa3a2f9],
    [0xfc10d5b4d850fb05, 0xae4033b15dcc2a4e, 0x72e06774394c69bd, 0x129a7b8af8364125],
    [0x50777184734a08bc, 0x84e67334708eb058, 0x9b941f94e86121f9, 0xcbbe121aa60c997],
    [0x3c50fdfc7f465d86, 0xe6faeda601584869, 0x5aa53769d434c44d, 0x1925ac7783c308bb],
    [0x300e37e1def7b1f5, 0x1ecbd9cd12929e48, 0xf1d61933aede02c0, 0x1e24206b35f67393],
    [0x9ce90a16447a06fd, 0x8d4cc1abf043d8a, 0x4db1b652fc561694, 0x4276737b519ede1],
    [0x51b57f8b159df5fd, 0x329d67a2ea66450d, 0x854c29cd248e0cda, 0x27b946d91e4453a4],
    [0x7edc27f33da7580b, 0xb0518517fd809d43, 0xe31588959e605ab5, 0x2cdec054ad08c8c5],
    [0x37deea8407da3523, 0x24d41bb51bb2c23c, 0xc7718bfae9f34f21, 0x26e434190d53125f],
    [0x95c821477d075eda, 0xee7dcf8e3dc45c4e, 0x68f420926c69ff37, 0x519d0e4b6c12283],
    [0x372cfe562e5f2e12, 0x4e7d7bb7a33ec09b, 0xcf22f950f6620cf7, 0x2aae1f5ea6015e4a],
    [0x567adfd9adc269ab, 0x36a380f74f6e475f, 0x3e071bca26d130a9, 0x2ffb9c618799bbf0],
    [0xa7b3212879dd63ea, 0x875686f797f82a8b, 0x80d2c4e11d78e6eb, 0x22a6091317f474f7],
    [0xd47c0fea68f03493, 0x928ba10cfd5f1d0b, 0x556a653dbe714975, 0x79b093f80d89162],
    [0xb8416e4852028c44, 0x4496defd8197e450, 0xdfd3ad4a3064246c, 0x2741b4234834eca3],
    [0x5f39a8ee63ef0032, 0x141c0089d00a8022, 0x689bc3bf21e4fa50, 0x15adc0ef2ac09ba1],
    [0x2cb773dad72d2401, 0xac87beb8ef2ef9b0, 0x7d8476c0936a0870, 0x168017fe19343b5d],
    [0xb52b1876070a8b03, 0x26cbbb4d52e3e08a, 0xbffe3152fa2b2907, 0x2dc5d64afabdf089],
    [0x570de886cf569098, 0xd6329ac3c34712db, 0x8ce3a1fafec88da1, 0xb1e797eee3f15b8],
    [0x4e2c39dea7a51950, 0x73c5cc17c878cc59, 0x42d5dd7efea28e50, 0x2631312e2a6d9734],
    [0x86822ea4ff83f9a, 0x5742ff7f81a45df9, 0xe2965eb1f504ffe7, 0x1ae2f96df9a1a71b],
    [0x607d9b4b5b2594c5, 0xc579ba38009184f3, 0x499f4b71a2ed4763, 0x17a4bb48a247c563],
    [0xb98f2c2b24bda63, 0x1e14e72687f798d9, 0xda6992f19a56591, 0xc9a0ebe3610863f],
    [0xb827292ad299201a, 0x747d4a402c8c1995, 0x349ecff21490ef33, 0x2f2731211090929d],
    [0x6095156359825480, 0x6a4ef0de0e0cfddb, 0x7d0ef55e464376fa, 0x9b7a78ed8d062af],
    [0xbaa033f8eb0e01b3, 0x4a580540eb92794f, 0xf633d19408b66ec3, 0x28abb1d3e1bfd68d],
    [0xd8c128058fa0e656, 0x27b6dfde486085a5, 0x97744448f2d57d1e, 0x1e2014bbd5d2db2f],
    [0xf96d5d307490eb62, 0x6fbb50568745d44a, 0x5b9301a31a541323, 0x25f9ef11d4ff4853],
    [0xbb514a00b75ebd2, 0xfad0a845f235b3e8, 0x971e127e4e68fd3, 0x241b430c52d322bb],
    [0xd665313d91014bdf, 0xdecf29eec015b5cf, 0xcfa9b8db8fd0e550, 0x21b6603896d2fd23],
    [0xeb4c126ab9c5843b, 0xd3fe9027c450917d, 0xd9620fdd0343bc67, 0x2066a222ed385ff7],
    [0x400ea397e0de92a7, 0x6fab1610e164a9f2, 0xc72eab8df30a3abb, 0x148ab2277866b9d0],
    [0xbbc86069e0352239, 0xa763565fe504c7e3, 0xb1289978bff23e2a, 0x22b514cdab8e05d5],
    [0x21e988944645e829, 0x4c6273d02a73ce8a, 0xe581f92dad1925b1, 0x15adb32fd53195fc],
    [0xe01831664eb427cd, 0x4ec132fffec62807, 0x5ca0ef8ce1de4687, 0x26514ed0266951c3],
    [0xc38351f1fef09a6f, 0x5672d8656cf51377, 0x51355add7ffe24db, 0x24a1401fffe3c864],
    [0xb13d24ac31c66838, 0x4f0922398022d656, 0x94a0b0efdb05617d, 0x53da14e5e7a258],
    [0x570de886cf569098, 0xd6329ac3c34712db, 0x8ce3a1fafec88da1, 0xb1e797eee3f15b8],
    [0x163b835b30d08d0, 0x29469dfa05ec46df, 0x15c0c481446416d9, 0x23d4d5f42b19c730],
    [0xb3d7ba339d0e8829, 0xf2a25d7e627ec80b, 0x770924de9bd02290, 0xc34142c7d90f966],
    [0xc8e4b8a3c9e176f4, 0x37e4dc3331d552a1, 0xa0d4c3aef740c974, 0x15693ac825018e52],
    [0xc4afcc58540acd57, 0xa326163ec4fa2f0d, 0x1d2ec69c9c91b532, 0xc1d7701d2b19578],
    [0x699524be584a17ea, 0x7fa7ef35f2ca62de, 0x770e12158f34ebf4, 0x29f55706b8105e02],
    [0xae047be01ae1c676, 0x46a02cd92994d709, 0xc03facc3daebcba8, 0x15948078ad1c9f08],
    [0x5da0bcad75e20a1a, 0xdaadc7ee35c696f5, 0x5d0ac983e602592b, 0x1fff985fd1db0e04],
    [0x589d2b7b2dae4eff, 0x4ff0586c10b4bd02, 0x5fa0c6b9619f0ce2, 0x16b370312e2012c1],
    [0xb4ab4bdc9b216e76, 0x9a0ecbee9ae148eb, 0x8aebf65fc72181ff, 0x2358120a60a0162],
    [0xbd5f360a3411cfc7, 0xc10ec872fb7a8280, 0x8647c7a32c2c9491, 0x2f1a1712d5a7eeef],
    [0x476ba2fd836b6cf1, 0x429f6c08950a19de, 0x95cac47c7ba7111, 0x23b8d022a8e866d4],
    [0xc4a75961efe0d892, 0xa8ce4bea3ebdfbd2, 0x6fee35ecd66f2b9d, 0x139ad96c1432a53b],
    [0x47ad32f810d88893, 0xccbff2d7dbd6b2a4, 0xfffb016810eb11da, 0xd1a3762903cf32],
    [0xc28654221d472b7f, 0xc420f822a0a71e37, 0x4f964b021dd552ca, 0x1e2fcaecfaaa3292],
    [0xa75a9965176f8f07, 0xaeb19e748eb198c3, 0x87812f0151144111, 0x12102994668f97d8],
    [0xc9177543b3ec6d7d, 0x6fc2eb0f6aab7a7c, 0x7542711e393d188b, 0x2cb68b7e63434],
    [0x6baedadb4c0b7b9d, 0xd401aa76d058da58, 0xc142deb1584f336a, 0x215a89522290e4cb],
    [0xbe74a068f200768a, 0xed69e4c335b86635, 0x78a62250db957fe5, 0x508c70de806cb],
    [0x570de886cf569098, 0xd6329ac3c34712db, 0x8ce3a1fafec88da1, 0xb1e797eee3f15b8],
    [0x67413b576e78439e, 0xeef7fe6016e0e33f, 0xaaf5d2251baa6e7d, 0x3f5d10d3e2dfdca],
    [0x6bdaa645131dcd32, 0xf39b54fb22c0361c, 0x866c353e3fc4bdfa, 0x5160b38288f77fe],
    [0x62c96efe319aae23, 0xb6f8858f6c68d52b, 0xe93ff07741144e90, 0x1a1f53585e77207d],
    [0x84f15302df3d0285, 0x6a28d757827818c2, 0x2cebd18df7edf776, 0x2c48ab25015e0bdd],
    [0xf405158aca90ad9c, 0xbb1bce96b7abb884, 0xe7f80cb2688f909d, 0x3001d8c6b2c0a9c4],
    [0x32ed6d6dde416d8d, 0xf805e30d961d02b1, 0x220b3bb5e077e597, 0x14ba759b81b8115d],
    [0xc5b67967cd9b0476, 0xedd66885224a46f6, 0x46f5654d3bc43f69, 0x2e3b3d96803a71c8],
    [0xe28a7d8024cb8ca, 0x2b85b18b734fbfa6, 0x545bfd5143cd3d3c, 0x1515804d3972a797],
    [0xdee228e4ed462e38, 0x7941eeb8af8831de, 0x1ce854a0f924abbb, 0x2122b140a17e84a],
    [0xdae71a1da6a16ef5, 0x411e23f5300e26b0, 0xb386fe1687a04b18, 0x1efeffb998ae5510],
    [0xb69037167d221c07, 0xe1176dde08cd90b0, 0x389ad98ac4e56b74, 0xaebe0890cab1a8d],
    [0x84d36a4a6e4c7799, 0x977357dbefa4d844, 0x8d126a0dbc2cf8d1, 0x1392810e135502a3],
    [0xd94e785c41a796e9, 0x2c2bffd8225b6219, 0xf35057667e79a08c, 0xafe48f0248af7d2],
    [0x2b0c644ff091b62c, 0x8df9f2e3bc2e3469, 0x91e9327f661d1584, 0x198eb323d5b100e8],
    [0x24da61000919c45e, 0x245a88ccd664e1c8, 0xcaecf1a752a55dbf, 0x29c62456a430517f],
    [0x372a7deb18d1a7f7, 0x73b8bf0a5c5cd893, 0x212dfdcf69fd15fa, 0x2817a686e5a15a89],
    [0xd9f3c2d71448d93e, 0xe4fd80cbbe414250, 0x830e9adb349d891a, 0x12d401440bb03153],
    [0xd5107b92044b8157, 0x866bda034159475c, 0x1551cfdc0d384b81, 0xfa1b160c6212907],
    [0x570de886cf569098, 0xd6329ac3c34712db, 0x8ce3a1fafec88da1, 0xb1e797eee3f15b8],
    [0x78dafcef27ba5597, 0xcdbb50c5e8cab13a, 0x2f7039907e78cd8d, 0x3046d1d934cca5a],
    [0x76db3bb65b346b47, 0x165fc4056210084, 0x5a32a74ee7cf6376, 0x2d724a2ce967f111],
    [0xe2685abbae63ca0, 0x2240fc9ed20c2143, 0xf7ac9be9c867f253, 0x6684ffbc3e9a720],
    [0xceefd381fefc0d43, 0x9dcbc30e94aa4ae3, 0x1bf011c1755396d3, 0x1e4caa2fe0f585e9],
    [0xb410624472bcfe70, 0x3078d900d23e2770, 0xaedc444647d1de17, 0x24a9509908f6b0a4],
    [0x86bae82a5047f729, 0x82ad85d6e9d09174, 0xf98039f6d9a7a454, 0xa444eb331e3a9d4],
    [0xb82fa742471b8ef4, 0x37449e87f07b95cc, 0x9d5dabeabd3bdb5e, 0xcaac550d739a769],
    [0xfecbf562f863121e, 0xf7c4f2e5d234c259, 0x3720ce27d4ce2815, 0x4e0c67a911f80f9],
    [0xf1e10537f860f72d, 0xf07e1e155989a5cc, 0xc2a4c2ef44275aa, 0x1ff8f4767dae471c],
    [0xbef72d61519e7651, 0xf44b4251023fe8f6, 0xdb84708e3b7c091c, 0x2f6863db06c9adee],
    [0xf54d7cf7dc79199f, 0x126109807e5915e6, 0xed5e9fab07da7b58, 0x2e788ebb5af871b9],
    [0xf913ced315d116f6, 0xf14df5a2c0f429be, 0xc0475abddf4f10a4, 0x2cdafe599e42909b],
    [0xbb495ad93b432f6c, 0x4be5a9a473d1337f, 0xb16fec15a58e11d, 0x1b0a72225d879664],
    [0x96741f730c7e7081, 0xfe98f7708f40bb8b, 0xf6cc407a81958e61, 0x1cb387a29a3345bb],
    [0xc3e771a16910179f, 0x798361f7631344ca, 0xeb14b3ab276c1dea, 0x15ef88ba22652780],
    [0xe4926a4efb888e67, 0xa9fce6ffa7bf6c31, 0x1a271e72a5f99c4f, 0x26893d124895c43a],
    [0xb27df7db675049a, 0xc602e0bb4c924f79, 0x6033bd84e9f5d696, 0x9dc58192b21af8f],
    [0xb9ca288c2404c7f8, 0x435056a2da4398ac, 0xe942baa853889e47, 0x1d659f67ea472288],
    [0x570de886cf569098, 0xd6329ac3c34712db, 0x8ce3a1fafec88da1, 0xb1e797eee3f15b8],
    [0x890a0c3113fdd15d, 0xe70afef63a806d9, 0xcf9fed086e776401, 0x17812ce47ed47b09],
    [0x902ca3fda45d9e4b, 0x1f9c0bd6f6008b4c, 0xd41ef38b762a183d, 0x5bc448e17449644],
    [0x78b89e2d768d1b1c, 0xa75ae541945689bf, 0xb1f9a960f436bfc6, 0xb8f14bac67ece8],
    [0xf15bb5d6e307b294, 0x9eefc93563d15e03, 0x7551ae25506875ba, 0x6e843ac5711fe5e],
    [0xfe0988b199ad2860, 0xfc27c8fdb102c6f2, 0x4378f4e6220a96e4, 0x37c5948a6f6dcdd],
    [0x2f96220fcddd983f, 0x469fc418c8b0ec0e, 0xa78ddac3e7a880cf, 0x9bb55e5908b10cc],
    [0x5574965b506f0126, 0xc4af49ae918988ae, 0xd9d89081f27be2a2, 0x549938eec4ef16a],
    [0x83ed8b6ef5c5cb73, 0xcb1a1eb44eaff0e, 0xd5598eb29b34ca98, 0x13b4215b89af0652],
    [0x72cf709b9bf6979, 0x98ac5f4bebf8419f, 0xa6f2305e2f868a42, 0x2d8f43577fb26728],
    [0x5aca80c3bbcf8242, 0x36c169b5362e0757, 0xb60314d2b18e437f, 0x58782a9e8860cb1],
    [0xbddfa4de4903cbde, 0x9b3c2ec9e19a9aa, 0xc5100e7dff2a1e4d, 0xf6ed9ca8c19eab0],
    [0x37793092015a1150, 0x422ab5e31d048181, 0xaabc73f220cc21f2, 0x11c3ba734cc607cf],
    [0xa41618d17342666a, 0xf1d99474a4c9f66f, 0x5c9784d7687271c7, 0x1ecbe5795e0f92f5],
    [0x8dcddcdb0a2fd223, 0x44c10db14356cace, 0x2c9e30b9888dea95, 0x2ed6fa55a83b0145],
    [0x8fc7e6cec890885b, 0x5a76fb7eaf2fb92e, 0xe8902962f5340373, 0x79287ad9db6ce54],
    [0x5058b964859d73a4, 0x1cd8117e7b4fe689, 0x1e6c8457e0ca280a, 0x2e26aa5ce56c0815],
    [0x1e71d6467079ac3a, 0x6301c08cf8407e63, 0x8ad4b8ee2230ebc0, 0xa889a87584a8717],
    [0x2a76d9bdd41798ce, 0xf65be071bf93729d, 0xd1126659c30f6123, 0x9c2891001f2a119],
    [0x570de886cf569098, 0xd6329ac3c34712db, 0x8ce3a1fafec88da1, 0xb1e797eee3f15b8],
    [0xa76babdd8c7992f8, 0xd326a972645730c2, 0xdd506c99b7be05f0, 0x51fce24183d75c4],
    [0xf7dcc1a3b5d9e8cb, 0x348f9ceb187059af, 0x2df760b78ae8360, 0x1094ccf4dbff390c],
    [0x9f0214ab5db4a847, 0x687341f51653aec, 0xb5fcd632c6f3cee9, 0x2d4966667b830669],
    [0xa45b53854291012c, 0xd1c56f22957bd201, 0xbe5fc611155d4322, 0x1b6e79f0b003e313],
    [0x53c17cf8dee3b489, 0xac58625dc7610fd4, 0x3f1a325031dbb8db, 0xc9d7ef70784cc15],
    [0xd065363190e766ea, 0x42683adb9edeb564, 0x48ea76ed4d931d5a, 0x2eaba31d2ad4b029],
    [0xd8d4a9b9ccca1666, 0xd73b00a8fa5aeecc, 0xabe073487509937c, 0x3af6bf9c7eaede],
    [0x69ca51c21f3b6318, 0xef10de5cd87c0416, 0x9c84e389413f710c, 0x24d4c2116faf69b9],
    [0x64d7f5d951157b0b, 0x731301e6291fce3, 0x2c5cd975f92fd085, 0x1f5cabd4bd22948e],
    [0x75e049d63dbc66ee, 0x75bcf94af261ed3b, 0xcf33b074eb63f5fd, 0x32aaadbc1decf6e],
    [0xb00829948a201752, 0xc4ab419b02428605, 0x702d72e41ac3aca3, 0x194830799464f8ee],
    [0x81c51c9b0cb64532, 0xa7e7a84c2d9b5493, 0x81b6c07feaecaea5, 0x1a88bf75b55c0976],
    [0xff1c941c390b89e1, 0x63a6cdd9200b95c1, 0x8d063049637ca6ba, 0x2c7969063d1fc97a],
    [0xc1ef7f99f77e46cd, 0xc9f04bd92a9261e, 0x859ff6e10ce393b5, 0x79a0abd9ba495c5],
    [0x34c8f9c6a4e7385f, 0xf91272cc7ae955d7, 0xe82bc956dd7c53bd, 0xaf8f7e9f3eac9e6],
    [0xd02ca14f24c4b1b8, 0x89d3f34f4763419, 0x442f08c99bce292c, 0x1f45d6872234334],
    [0x8d1517f6148b677a, 0x7d4f1b8f0a1521d1, 0x2d6cb735b9cd0fa2, 0x3a4a9d99286b175],
    [0x83f6936f5ab68fb1, 0x41cf11535480dbde, 0x3699ea2a7d648148, 0x19484e61180700e9],
    [0x570de886cf569098, 0xd6329ac3c34712db, 0x8ce3a1fafec88da1, 0xb1e797eee3f15b8],
    [0xcdff9b5758499915, 0x76a95d12b637b944, 0x6af79ab2ae3328e5, 0x68117f11b7f8d73],
    [0x468e90ce576da872, 0x49efe9447a78201, 0x2cf454a7cb3d9ae8, 0x118a504d77cc49d2],
    [0x1286fac898e3c370, 0x2012529381b52e0d, 0xf25a495ebb430109, 0x1e21ecd473c3deac],
    [0x48cbaee81818ee56, 0xb81976426d0d64cf, 0x152773205f8d39e6, 0x2e38b65fab0ea1b8],
    [0x2db373469bf6ccb, 0x977e938319b9b49d, 0xe2affe4f6a520a87, 0x19414eb55e2b2717],
    [0x8b211e9c72084ce4, 0x3910fababe4e78dc, 0xf0995631d4ee83ad, 0x1f04b3026adc9f2],
    [0x853b0a59415f6f72, 0xf2a50bc7521d2058, 0xac8578c934c415a0, 0xc1cee5ac82b0ba4],
    [0xd3d484cbd60fbfb9, 0x333cc3bfb74aa262, 0x5fcba4f8f33d0af3, 0x1a0b86be3ba0c37e],
    [0xbaa4b5c0edbec7e4, 0xa6dbad43f7ad0dfd, 0x50592907b651c5ad, 0x277f4d465b4a3f9],
    [0xac0f6c383f542fd5, 0x79f4cea845cd70ea, 0x22965a7bb768cfcf, 0x2cbc8485f96542fe],
    [0x953b75149f02cd19, 0xcba9a5194a6b2062, 0x5673d286fbabe249, 0x13b306fd43acac72],
    [0x70f38a764cd58add, 0xd6d96576c3724b0, 0xf973eea2656300c0, 0x19bb715b15ee11c3],
    [0x15a1673528fa4d21, 0x576c2c73358b18dd, 0x9c43de695574e7d4, 0x2579c1bbae48a8bf],
    [0xc29f0ce1bedf01bf, 0xa619a0d0e5b8d05c, 0x98745354beed55ad, 0x29bb732726698d3e],
    [0x5ab2a6527c95d77, 0xb999ef0df3c90b65, 0xf74c68fc481c37f0, 0x101b8a972da8e777],
    [0x9176c6e243623602, 0xb36221be836c246e, 0x287ad62249731647, 0x28d282b4a80e8079],
    [0x81ead5ec765a5c68, 0x9cae07fdd02d5f72, 0xccfb936619a49c, 0x30f5a91d4bd3a7a],
    [0x7a05836f8f3880cb, 0x6dd1bdc34caedd94, 0x9a4f47d7ce9374c, 0x23aeb8d675cc852],
    [0x570de886cf569098, 0xd6329ac3c34712db, 0x8ce3a1fafec88da1, 0xb1e797eee3f15b8],
    [0xcdf70a2a1bac2de4, 0xaf94d0a67e448020, 0xdde356329022c10c, 0x13efe2b7fcf22b13],
    [0x49ae62db7550d8f, 0x94b63e8a1580c81a, 0x247c6f5f943a982d, 0x20116d8a08ef558a],
    [0x95d283ee935fd9ce, 0xfc20b41dd5e3844d, 0x383067665261118, 0x2d082ae4142d9cf0],
    [0x28f5677e7726d5f7, 0xd11b4afad705051b, 0x6f2243249d25d74b, 0x103520a0cf36cd97],
    [0x522c6313c107852e, 0xc9dff7d8ba0160b, 0x6bbc3dfc78c47d04, 0x1e820f7db38b24a0],
    [0xdd38fa2bef749dec, 0xdf95b5c1cbb1ef28, 0x102dd968a76e57d3, 0x275832ae1f1cd86],
    [0xf779b80f56ee42a2, 0x899588ee5f523b93, 0xd7d1e5a11f16cac7, 0xece66ec104a392c],
    [0x71f0b80151dece5c, 0xc58e7d29ed659a74, 0x439b4d437e58dfd9, 0x174586e5d012f172],
    [0x1a55069f005ba35d, 0x44a3131d8a9ad21b, 0xd63924098c54be27, 0xcc17b4f871cb91b],
    [0x6e12d6795c3c1b37, 0x9043e60933a6d1ba, 0x7fc88414d4902bfa, 0x24e6611ad441830b],
    [0xb5625c90155fd3a5, 0xa62fb3b162b41efd, 0xb9d639dd95f8a1e0, 0x9392f480df40275],
    [0x9d7e9901c68154ed, 0x395b2c9362af152d, 0x27fb48fccd6e0549, 0x19fd18a6a69d2e93],
    [0x548b8f2580e664ff, 0x2a262ef3c77f11c, 0x5f5121b04bc3c61e, 0x174bd47eb0d06dcc],
    [0x9843a261cb5a53c2, 0x739db9d9b1042b2a, 0xd798e8bf265fe511, 0x1be5877032c20df6],
    [0x694ec29174392aa2, 0xbdc81bf44695f0a6, 0xb8654e2711dce2aa, 0x263fdff0aed026e3],
    [0x43c0dfaff80acad0, 0xbf0a581077fde568, 0xb8516f7de5b5f0eb, 0x1f71c71eb6f683d7],
    [0x88cce32861eeed61, 0x4ccfe24b04462b57, 0x504dd65e1b7d99ff, 0x115b998963794a6c],
    [0x14a8153d4e57e6da, 0x3a45c614ccb85daa, 0xbe96ed641cf7801b, 0x17f43dba64c1eb81],
    [0x570de886cf569098, 0xd6329ac3c34712db, 0x8ce3a1fafec88da1, 0xb1e797eee3f15b8],
    [0x656683f528bae627, 0x72ddd60fb5530005, 0xc3fdfe2d3f116c8e, 0x1e1c19e05021208a],
    [0xda129f936ed946ea, 0xbde504ea3004705a, 0xc598c64a25768fa5, 0x2596fa2a97ea6905],
    [0x699f37e1c4d63888, 0xeb148f89887b08e4, 0xe848627ce4bdb658, 0x429be063b1c6a85],
    [0x2907d15cec049643, 0x4dd8f8d077e295a2, 0xb52cc19e2291572e, 0x2571cd3671bb7bd7],
    [0xd173c431668c494c, 0xf5454e6edb91a509, 0x96d9f00bd618d48d, 0x23e2edfaf71fb37],
    [0x965194caec7d961c, 0x7546ddb4b4215611, 0xe33a10c5f4188b7b, 0x1a9b4db70aa7cd04],
    [0x4d0a06fb47ae2366, 0x427e4e0184f8f632, 0xac2960bb00feb3be, 0x115d0f27b177d1b],
    [0xed06dffbf0a73686, 0x1fe1569c9f3e3668, 0xc15512552045620f, 0x24158958a69587f1],
    [0x2bae703182c01fb8, 0xcef7efa4255fc366, 0x34eb9eb1a1b33a98, 0x1c6761dde78638d7],
    [0xae3b4cc46b9bdc8, 0x31d96ae7482a818b, 0x328c60a645fd3c84, 0x2750d8eade4dae97],
    [0x6a6cdfc1e2c5a9e6, 0x6b7fad13aa737f38, 0x48e9269c2e53002f, 0x1fd32b82dcbeb8c0],
    [0xd676b089ddbefa9c, 0xba30d2ae04dd07b5, 0x2545c6650795cee8, 0x594fc59fe25d24b],
    [0x2427587fbea5c8bd, 0xe766735740836aac, 0xda61c55b53cf3534, 0xc84ab77e8af0ba2],
    [0x9e664b87cef93dff, 0x25fcc795969bfb07, 0xb44b958d4ec02f8c, 0x53cb97662f38bb4],
    [0x3db88a48c3de3447, 0xd6c881b73d2d6d89, 0xcef9853184cd3a94, 0x1603ca0816ddaba4],
    [0xa7caa40cd1b56131, 0x2338881ac4c31a3b, 0xa40bc8becd0b6d4, 0x18ea8dd9a27ca441],
    [0x61a42f3296bf4c07, 0xd3e2415647a82f14, 0x23c86acbe4909490, 0x1a527748bdf00577],
    [0xda30b25f4550584a, 0xc50273090aead801, 0x543a0167ffab7bd8, 0x14175f91c0ddb823],
    [0x570de886cf569098, 0xd6329ac3c34712db, 0x8ce3a1fafec88da1, 0xb1e797eee3f15b8],
    [0xeabc57286298d557, 0x5fd208fd16b78c38, 0x3ba5291e604cf8ca, 0x25f932ba4af84ae4],
    [0x5ab9bdba2777d431, 0x8df6efb89baec75e, 0x2630d97844bdc0fe, 0x25475d7d649f8bff],
    [0x42ebc878caf30d5c, 0x46a77dcd50eaf280, 0xd05c9dfc610305d, 0x89f1655b69d2845],
    [0xf5a382e9bb6aade4, 0x8aba866cba105e1, 0x6942135959a4af17, 0x123980c7cf8538b9],
    [0x62872b1070b6b30, 0xf82f948a63243ddc, 0xb4025d0e0d90cf09, 0x78cc219ae73e2ec],
    [0xeba2949ca203b816, 0xa2cca213f705b56e, 0xe18078fea3261650, 0xcda20a3684d79a2],
    [0x95bc1711a672ea6b, 0x231f7aaf8f7f5f5b, 0xdb30db322ca2508d, 0x21b9c66d1190ff2d],
    [0x24cdf700060dc813, 0xf293bb2b2d6495d4, 0xe9549ce4b74318be, 0x22016741afc2d1e],
    [0x2ff628c892bdc6d4, 0x616adeaa13c00b1e, 0xc7977247cb28068a, 0xd722902b755cd16],
    [0xda30330e338e22c3, 0x3b084c474e2458c, 0x51e3fda8caff3f80, 0x217793a53d0ac287],
    [0x1fe8851d29671cfd, 0xaebd9660648b0ff5, 0xb0e780f291a81e25, 0x2d31e0c6e311f327],
    [0x93ddbb5ae2230f83, 0x5a310ee03fafb5b9, 0x7200602ed78caa66, 0x216d14211de9aed7],
    [0xd25e0dd158c9f4e4, 0xe3422745564fdc15, 0xd5e0a7afd37d286a, 0x2681c24a56759b77],
    [0x58989912b5bc7dd2, 0x76c255542d27f82d, 0x991c34f5e4d838fb, 0x1e3b6edad3fcbd9d],
    [0xb115321df7518c2f, 0xa03744a1b8484ded, 0x10c4356f2282dd92, 0x2eefb7b5eb265aa6],
    [0xc02f6448a432ec41, 0xd9f11ec3bad27529, 0x24242f52686cf785, 0x5a848b35a8e2702],
    [0x421f03dcf772423, 0xd320e1daf646a3b3, 0x8690ed707e82164a, 0x9ff782048c9d9aa],
    [0x12a04e3b6fefd504, 0x4f2a91249c23e8d0, 0x914af8f989590312, 0x2b294de4467526f4],
    [0x570de886cf569098, 0xd6329ac3c34712db, 0x8ce3a1fafec88da1, 0xb1e797eee3f15b8],
    [0xcf82b84653a5db10, 0xcced8c8af984dbb8, 0x45f895ff821ddcf8, 0x27d44f13d66a77a6],
    [0x28cd0830acc37c98, 0x95d41ce41c497830, 0x8102edf30c6b8107, 0xe50c72da36c1a96],
    [0xd1f589cebe120904, 0xfbc0040495ad77e1, 0xac84a00d127c0809, 0x2341aeac831f989],
    [0x2f4534cd0ae0679f, 0x527bf7d9492180bc, 0x4400b6c58eb4ff5e, 0x2071faf6e96fb5cd],
    [0x1bc4806b157be02f, 0x702e82b179120492, 0x5a8d68ac6e7f9e2d, 0x14da2ed4e175cc09],
    [0x7bc51ce0247d13cd, 0x1fb5186df1fe8e92, 0xbdc0f7b8d0cd21, 0xc6232c7e84ea354],
    [0xe7ddb053facc5396, 0x1ad3b660c5079c16, 0x7f7f2eb3fedcde58, 0x1f65c4563e9f61ed],
    [0x9b07c6281fc67a8d, 0x738cf1c7891c5c65, 0x1bd7aabe8685c740, 0x144675f4c54bc33e],
    [0xfcd75e65abf744ab, 0x904b4af975d729a0, 0xcbb019db4708ef6c, 0x14ece2c3c47e0435],
    [0x253b3f152fa18b0e, 0x57819f9fd64f1273, 0x6ba4e22eb0429be8, 0x118f931e904fffde],
    [0x5cc463da1093ce09, 0x6abfe2f5dec203a4, 0x656c44854982d454, 0xbade4f966d523e4],
    [0x21661829f135d226, 0xfeb161a14dc2107a, 0x7a1c2e78e0d0f78e, 0x1783c94f37d6d905],
    [0x6eab224160ec43f1, 0x5419d8725f4c8828, 0xc00793e5f800761b, 0xdeaffffd0feb209],
    [0x94cfef844610c609, 0x1394a29c802d4a6a, 0xc1ef14613cb53591, 0x8746a72fb64c2cd],
    [0x47a827f58ddb2d3, 0xb93a6cfce441a192, 0xfdd0a1ec5a2a0810, 0x4882711fd9c5508],
    [0x3808b3aea72435c2, 0x4cc1049283247918, 0x3bca325347b7af95, 0xf2b738d3eb3b80],
    [0x8a53dc3bc6e955c, 0x61608eddc951ac1f, 0xbd9202d72e533063, 0x2b5d5eba00e09e21],
    [0x2ad36390b3ce4512, 0x3d23ddd5bc217241, 0x404b5bf21aacd5a4, 0x16d96e78a6078437],
    [0x570de886cf569098, 0xd6329ac3c34712db, 0x8ce3a1fafec88da1, 0xb1e797eee3f15b8],
    [0x97e1a9ea8d1c3844, 0x17d5eed6c1d83ce4, 0xf2878599be348085, 0x2f6fd52b25a9485d],
    [0xfd1539ec9d2e4e44, 0x6837c53c1c990c66, 0x419b3fb805fc2d47, 0x2f0dc0c61f11a53d],
    [0x9c2dbe87d4a298b1, 0x2a6be597e6f73650, 0x427453263ea60079, 0x1b004ab51f77388c],
    [0x9e1ab973e1bf8881, 0x40337bcae525139c, 0xa2ed12aa90a86213, 0xa690789ef915053],
    [0xa6ae5c831143d104, 0x22bc08747fe849d6, 0xe3626b7e5036dfa6, 0xc925171c7431dac],
    [0x9e470715fe2bc271, 0xe773ae5b0ed9a87a, 0x405fcd39ac25b9ff, 0x27e2a355bcdae99],
    [0x81fbc6b14faea9ed, 0xf64fa0701601e987, 0x281e116260bc8aab, 0xd44cd56f0210228],
    [0x1b8f62d71d6ebfdc, 0xe64876ad2789124, 0x1a9605c7b454c348, 0x1ee8d9f295008057],
    [0x8b55e3095b483bfb, 0x77b431d72ce0d9b4, 0x51e00d79fe8b9902, 0x13edf09ae8addbf8],
    [0xfecf631fd998de93, 0x4622c34af68c5b4a, 0x40fe5f5dabd4906, 0x1d2c7f3a44dcbed],
    [0xbdbda3a6c1c0f57a, 0xcdc774e64c6ec431, 0xa91bec113708d943, 0x17e04fb5f49c12a6],
    [0x59653895909a18ba, 0x1cd404c478c62e8f, 0xea8beaf7de31afad, 0x21d9dbd68c54cdb2],
    [0x203ab2b12bd60440, 0x7a0033515b10a76, 0xaee68fd94f14a44a, 0x276950c5f6c44bac],
    [0x734c4b98977c6d0, 0xf08b156454897b37, 0x56650ef67333a07f, 0x2ca5b12a8ff6ee01],
    [0x56efcd0915460668, 0x7624e99f5359c30d, 0xf5fad59cc93f5fed, 0x2379fe3fe77b505],
    [0x584d5cc1431b5c56, 0x9bec842ac6e0f6f5, 0xb4fd7f6e29519bf, 0x10e790cb3f6be51c],
    [0xef55756701d568ec, 0x75abdd806b150bb4, 0xb21cb0358dfd6fcf, 0x20a94567158dc5f7],
];

/// Part 2 of the sparse partial-round rows for width 10, as little-endian limbs.
pub const S_DATA_2: [[u64; 4]; 256] = [
    [0xfd090a157113d557, 0xd9d915a411a544d0, 0xa305c90b8189e93a, 0x191a6a82b77415d9],
    [0x570de886cf569098, 0xd6329ac3c34712db, 0x8ce3a1fafec88da1, 0xb1e797eee3f15b8],
    [0xeac88f7e71f976b1, 0x24a3276110055a0d, 0x66c6adb43491a88c, 0x2ce2a89b4c51f971],
    [0x4ae77b9a3d854933, 0x28bab7776b3b6f5b, 0x87e6f76495c7bef8, 0xe85242efe6b780],
    [0xbddcd4b089dd948a, 0xb4cae24d00e34981, 0xda394139bafb0592, 0x92654dcf9e69fc2],
    [0x2cf703dd55e78a6d, 0x3bdb1f984deae8e0, 0xa89d58fbdbe99caf, 0x152d35166a3e900c],
    [0x5deb675a0101d936, 0x1fcd3ea588f29ead, 0xefaed62a349cd00e, 0x250159b61c5e545b],
    [0x58790b59bc4cd7c7, 0xb9018f052ce8e1de, 0x88bb9f59bad17a6a, 0x1e66442753c8d951],
    [0x3a04d41b95e854cc, 0x30e390bc498435d, 0xc0d4fe08208ea762, 0x1a91965586db156c],
    [0x87171db7d9ef27f8, 0xa63a4eaba0847ff5, 0x60ee1aeb5050c709, 0x205d22ff80ffd230],
    [0x605dbfe4cd29dd9d, 0x5594a1956a3ed0e2, 0x2a77b5333ddbb2e1, 0xe92e1e54bc59e64],
    [0xb0ac974eaf4a0c41, 0x7a1f3be67f35ab79, 0xdc2f2b74c13e2430, 0xecb39d5fb42dc2],
    [0x2688fe1d618150ec, 0x5b796887d878ddcd, 0xa0e0160df4961f3c, 0x77aebae118635d5],
    [0xb0b5d843002e07bb, 0xbc7baf66dc538818, 0xa3719148038523e, 0x2d0db6e2eb4386d1],
    [0x6e850e57ea37f604, 0x9009aeeea37dbdef, 0x9aa7a87ef122afb0, 0x1dc7e3849dcf39a5],
    [0x673e45273d0ae1ee, 0xe366bb8aa42af85f, 0x8056095e39c8b1a8, 0x97559815d3b62c2],
    [0x7b59da2b3b06f0fa, 0x8da520778ac0bca6, 0x188a96e591b92b95, 0x7e08fce9a5121c2],
    [0x6419d4b1207f542c, 0xbfb109a1691de669, 0x9957ea33bd03e3ab, 0xe3d58fdb454394],
    [0x735c62da31a3138e, 0x19bca2070d200e07, 0x6d3b776847d14f40, 0xc991fe43818ea30],
    [0x3d6099acbb3f2a9c, 0x3c76bfcaf7748c50, 0x8f11df6a64c67618, 0xaec16bb8df54190],
    [0x570de886cf569098, 0xd6329ac3c34712db, 0x8ce3a1fafec88da1, 0xb1e797eee3f15b8],
    [0xf5d666ba8ecbf19f, 0x2c5c2119b36c37d6, 0x98caeca1761cd19e, 0x85b7265354e8832],
    [0xffec5d5e1889e031, 0x81f9ef97b3ea8f7, 0xb9d5eed4d520c3fe, 0x10d7d5e67042939a],
    [0xbeda6f6bc5cea6d8, 0x37eff2c6f5b38e5f, 0x7482dede1d624a86, 0x1cfac1f08b7bc16a],
    [0x6642a861d0ee68fe, 0x1c1e4968e46e461c, 0xadb7f7fe7cdbb407, 0x6b10274305c15e9],
    [0x3acc63bf37d86a56, 0x9f9632239b314f5, 0xde4ebfc65cbbea9c, 0x2cf401be1c32c95c],
    [0xe478801d9533a36a, 0x1fec422b22299d73, 0xbfb689a7a700d43b, 0x2fd0c9ebacd03258],
    [0x924cd7042087e630, 0x7e1b60f05050975b, 0x58789f92b5d12659, 0x4ec21b44c21c6c3],
    [0x40b74b43881eb4db, 0x1c275be79f5077db, 0x488f98c4473e8051, 0x2d42130581a19be2],
    [0x5844adcf3df8f7f3, 0xc5f25b2859e90459, 0x882edee4f17e9da2, 0xdf73be8b64e045f],
    [0x2e0e6df3d5f0ee39, 0xbcd43cf6c4b56105, 0x2837624bd01f437a, 0x1b05101b32ca2be],
    [0x7936427a99d5c919, 0x898759d0531091a8, 0x427ce116b20f3405, 0x8a4f42ecec6f626],
    [0x25e133f7416cfe65, 0x86395bef7b23018f, 0xe6468f85a7a606eb, 0x67eb4a3514d45d7],
    [0x4b41e6c03e506785, 0x562d505e4a22fdf2, 0x3d8e4a607f1f35ee, 0x3037c22112964f6f],
    [0xb55077d92996a8b6, 0x2d94db0c9456b5af, 0xdac166326b875df5, 0x23c4745c095e5970],
    [0xfe4094ac0bb450f4, 0xa2ef1cbb96ffb43, 0xd87b44b4f190810b, 0x12ca85b142f5d2d2],
    [0xdfa374a45173c662, 0x2125ff7d02ecdfda, 0x95bfcf11749917b2, 0x262501f3e02e6a5c],
    [0xc1d030813a4ca1b4, 0x88c663f0b42d186f, 0xaf94ea99dae52f76, 0x2c3ec00db9c8e44a],
    [0x8858a183cc1320f5, 0xb8d728626800003f, 0xeb5399b101bac1ee, 0x120aa50356c54653],
    [0x570de886cf569098, 0xd6329ac3c34712db, 0x8ce3a1fafec88da1, 0xb1e797eee3f15b8],
    [0xb15fd6c855bcc7f3, 0xde9b2bcbace5d12d, 0x9672ca69e272e4de, 0xb6c1dd3d2dadac7],
    [0x8839afd49bef8961, 0x330bffed807e5f60, 0x8886866b9270504c, 0x1dc5cfb71f9c9ff0],
    [0x528ea39b11869cce, 0xe6d1b10063193206, 0xbf98296629f2a1a4, 0x2ba9c16f49734f3b],
    [0xc73f54d87aeca299, 0x2dd81f2c8efabe92, 0xfcb0271e20f27c06, 0x21c37ce612e1b0d5],
    [0xb57a80f221f45b75, 0xce95854d3dbbb9ce, 0x6150ba546d332a, 0x29ca29c57a516f80],
    [0xeef25ed898e18ed2, 0xf8b90f362740a8c6, 0x62f2d77c2d5c1897, 0x9644e84f727604d],
    [0x6e3060d9798728a, 0xbc71bfbbb9443d7d, 0x7ffca282555f117, 0x18488a89e78505a8],
    [0x2a6ef4bbbc976049, 0x591121cb9c0efdb3, 0x74d8fe51bbc0a223, 0x17f99a49abde27c],
    [0x47c97ebd5adac9aa, 0xca9298ac4207788a, 0x9dc00af8b85f8dfd, 0x1106936fe4d91cad],
    [0x55af06344a953cd, 0xe3ba66807d606f96, 0x3d620c6d4fe77574, 0xb19213f24f13dd4],
    [0x2f491389af88601, 0x39c2ddde6f2c1cb1, 0x23b0a7e935663807, 0x284fb79d4b5bdeb8],
    [0xef4f0726dc69a1d4, 0x6730e39d28df08a9, 0x5cd47546f15090cc, 0x2bee8122aaeb513f],
    [0x1f49f2c7577aaf01, 0xce38379f962681ff, 0x41bc8ed4cbee06fe, 0x109712b4385f9d19],
    [0xd8eb9acd08a4b708, 0x2b61ccf56bcc5181, 0xa815aab454705b2c, 0x1cee8dbc9e7c22ea],
    [0x8fb2938b2533acb6, 0xf8466aa50c642b2b, 0xc576a79f4bb3f0f6, 0x123f9868d7ebd3d7],
    [0xdebbe27352088c5a, 0xa80a95f9814f2231, 0x70d7a4affa961ab0, 0xc0fbb5f96f795f8],
    [0xb4a5aa484a30c651, 0xe219201ba62987e3, 0xd4f8e5edbd7c5179, 0x3b268cc3e3aad22],
    [0x3b73926a70d8e5f1, 0xd2f8aec3871d2d59, 0x9330c0dfed129154, 0x2e3ff582310fb144],
    [0x570de886cf569098, 0xd6329ac3c34712db, 0x8ce3a1fafec88da1, 0xb1e797eee3f15b8],
    [0xf1c016881eba042f, 0xbd860a3b2fa17f90, 0x7776eb39fd607c75, 0x18b0d069fd19a7ac],
    [0xfa726386ac83c28e, 0xd542f3d39f1847e2, 0x66ce2bf10cc3e3d6, 0x12f75e7771d5d27c],
    [0x5e569e2f2a2aa474, 0x8018beb8fadfc993, 0x81def05be1797dbc, 0x107b04155a7d9c18],
    [0xcdc9aa59e6d71a59, 0x6dd77a81a983bf0b, 0x94382626c795cc98, 0x17318bbc96a35],
    [0x48a125ae2654d20b, 0x5a92a1b59d330564, 0xf1fadc45daef9bfe, 0x132974c4fafdf621],
    [0xbd478a7cb72e068d, 0x2eab79bfd68489fb, 0x9068037de62fdd27, 0x258538ea87a96276],
    [0x984c937c42115e2c, 0xe0b62c2643709e0f, 0xf79b9ba6ea261d17, 0x2cb1201c76a7fa15],
    [0xf6748e24cc816647, 0xaf6377f582d48484, 0x63d8749f335176ab, 0x2e65cfe91bdd49c6],
    [0x810fd7c52b9db26c, 0x9d191d0e5d41df07, 0x627e6352b95ab548, 0x2cd3d763fe99f1b6],
    [0x70c8679a38cc8ef7, 0xe1869e854ed4fcc2, 0x650286cbea4ff02e, 0x27bc4a5ea2a66172],
    [0x8b5daaf303ee96da, 0xe69348ae96ad0fd6, 0x19d54070c10f57b7, 0x88ff579628efad4],
    [0xa60f8d2edb3ac6ca, 0xdce31605fe517609, 0xee214ce17d29752f, 0x1cb43928e58efb24],
    [0xe43fe9cefbe45a4a, 0x1abb899d0fc5da91, 0x75fd86b82c1590b3, 0x1dcbf79109a7193b],
    [0x620db80265e128c3, 0xc7b3c1588f4a93e9, 0xbf30a412c6dffdb1, 0x2758dee8dc30394b],
    [0x76fe87c3648aafe3, 0x2e4289ddfb61c36f, 0x7330af0eafb66fdd, 0x18d1cf4a6c8482ec],
    [0xee4a407904cf1e05, 0xb14143e0d5c4de20, 0x4e11989c881799ce, 0x2485597cfdf560f3],
    [0xe37d0be4642aa764, 0xc428681acf32d745, 0xbc7bfd3aaec47dd9, 0x6151f2ab033782a],
    [0x627c012a453a9d99, 0x2db4ccdea5739731, 0x195dfda3966ed8f, 0x6d2e5ef950f679c],
    [0x570de886cf569098, 0xd6329ac3c34712db, 0x8ce3a1fafec88da1, 0xb1e797eee3f15b8],
    [0x47e9c90f286787d9, 0x2b328d2205d4952b, 0x4b71f47afa0ec09, 0x2d3138fdcbae360],
    [0xdc316dd0a4cef579, 0x31456360dbe2415e, 0xc56b13c437128dab, 0x1c8e178d93f93f9c],
    [0x44c194852cc32956, 0x445cc6e2f158cd59, 0xb6fd6299407d737b, 0x25bea2246bf9516],
    [0xea5e8ce46b7c9f3b, 0x560efbd23ad5c76b, 0x89f3b91170fae0a6, 0xffdd4b3b72bb340],
    [0x4bcda1f7c52218f5, 0x7c1589d4ea208703, 0xa65d8ffe6296f390, 0x7c622418ddbf99b],
    [0x4485b5ff05ab8f0a, 0xb989cbc074537cf6, 0xdf51e928d1288f1b, 0x170dbdbc927d2213],
    [0x1adedaabfa2656a2, 0x1acfc7c39cb7a917, 0xe504987aee580cfd, 0x6111fd3b375eb2f],
    [0xd3b50996f552f9ea, 0x6d264d07d7995a7b, 0x3d98a8a1a04dec5, 0x25b706a850ee172c],
    [0xb87cf2e0dfff8964, 0x8b3166104a183299, 0x5c5f846496df832e, 0x13a5b2bbccfed9c],
    [0x7e9e0196bf805ee2, 0x9a24a22d194db098, 0x6009162f09e2aeac, 0x256b7b5635f25f50],
    [0xf3ae0e86713e6c4c, 0x679bffce4ece8ead, 0x3a667475f91299ee, 0xa0d91ff25cbc2ef],
    [0x985787f9e82f739c, 0x2aab2cfbd8380486, 0x6d8fcbe9fef4004f, 0x1f799a5f2a9fe284],
    [0x21823ba76b13786b, 0x7cb412064271a6d7, 0xeba1afb2d463d9b8, 0x8f8a5d38982c8c9],
    [0xafb9d82bbccd5c5b, 0x22f1d3258f5446e9, 0xb4485d9f3f74d842, 0x13f2f9a571f61c75],
    [0xc196b718a4e2818f, 0xc2856a32df135462, 0x77af0445cd3ad24a, 0x1ada050207bf232b],
    [0x832b580d71930c59, 0x20cfa8b1dda8ba4c, 0x4bcabf5df1b60fee, 0x2270c97bfedbe3b5],
    [0xe891a5ac0b3dcad3, 0xe6149656142baac, 0xe1253592134df6fc, 0x17e429879da51390],
    [0x4d7b70b7d2c147b1, 0x3d604104dad81ce4, 0x2cdc32f998a9a2ae, 0x2ca1a03e86b8e8d],
    [0x570de886cf569098, 0xd6329ac3c34712db, 0x8ce3a1fafec88da1, 0xb1e797eee3f15b8],
    [0xfeb4aac8e730bd1f, 0x55d1fab43566892e, 0x57469968a01d8f41, 0x179e9cc5ce81c3b9],
    [0x7ec637b8276be10b, 0xcee0bbe4357c0ad2, 0x95c5edfdbe70beb3, 0x245436e222f18f0a],
    [0x48a757fe897af0b7, 0xef2e717c59536b6a, 0xa8f5e3db03cfb08f, 0x12082995e500dde2],
    [0x925d9d7fc659af29, 0x2e1b2e6b1c9a9906, 0xbe38729f4c221d5, 0x1ed351a76be7e56],
    [0xce4e50b5302d4291, 0x4ff641bd0f3f8b3b, 0x68292d1320ab844c, 0x22cea0520bc16910],
    [0x9bb535fbd6737b, 0x1485743849125ee5, 0x680f9f65e2f7f118, 0x10d8cefa20bdf64f],
    [0xa820af563de5053d, 0xb45c7590516b8e0d, 0xb2893e812f536766, 0x7cd86f2f3733907],
    [0xb54bf47833ba43de, 0x9ffdc5e0d9a1bd80, 0xccf0675a58874740, 0x18f7e2b8ed7ea1c7],
    [0xd165a80bb87bac5, 0x310bfeba44759058, 0x37232ee3e2460a65, 0x11ad65aaa14357d1],
    [0x3c05e04101232c6d, 0xe424934d62cecebf, 0x873a88f82aab2252, 0x149ddeff968dd3e4],
    [0x9e8f3db769e9b9a7, 0x9123ec8921531fd1, 0xdcd2e2f9c79d1a89, 0x216e4879dbeb136a],
    [0xc29176b9c8fea9cb, 0x35173420d9605df5, 0x98035496aa0f0e5f, 0xb32ffdc93ba89e7],
    [0x24aafea1bd70f0f8, 0x97aab657bef03472, 0x91cad89e95af6481, 0x10059787e4b7b914],
    [0xf652003f98ce61f0, 0xa1cd6685c3411924, 0x905fc46b2cfa8bd5, 0x11feafbb6d30aba9],
    [0x6addba0862192c2, 0x6dfe5722848319eb, 0xd203182f9f71ec60, 0x18737f1b8ed644fc],
    [0xbe7c6352454b2531, 0xfebd132e48883ba5, 0x1c315c94b7396080, 0xdb96451b25bc221],
    [0x48ff086ddb44cbec, 0x121cb3fe9070179f, 0x77975fb80588dc50, 0x14a12c8868c6998c],
    [0xe3a90dda0d38d3c4, 0x1c592eb91011e024, 0x66ce5ba0fd8a9253, 0x64f7699ab015d14],
    [0x570de886cf569098, 0xd6329ac3c34712db, 0x8ce3a1fafec88da1, 0xb1e797eee3f15b8],
    [0x1cedec26c11cff0b, 0xa9648ebd4fe7cdbc, 0xbff2e3af0f91f787, 0x27370d48e084e132],
    [0x1997cc144e1415fd, 0x9451634db5a4e6e, 0xc7c06b94ed2c0d86, 0x16f9385f9edfa3dc],
    [0xe7d6d798afcff7d5, 0x541d31b0b9743c10, 0x1ce755beda59e784, 0x148bb2cb914552eb],
    [0xa08501a57834d778, 0x30496887c3fe5e51, 0x247bb3bf036adace, 0x2e9181388b5eb930],
    [0x12ba9f0d572a8eed, 0x8e4b4f538d1b2639, 0x54ba2593f698f79e, 0x45e39ea727e4ff2],
    [0xa7dd59754df86a59, 0x4f475fd989692911, 0xefaa3cca1f5f1997, 0x1174f11359628820],
    [0xf0606ebbd6399143, 0x2622b21df40b38e6, 0xe5c33366e50e7f9a, 0x2ed2ce65b2ae9ab3],
    [0x2fc529ad2e1334af, 0xabb6bf6e62531267, 0x59d298c316ba79c4, 0x14a902e483b773bd],
    [0xf5e6b14f3ce77b4e, 0x9c5e2401fd816cc, 0x1d06b8075b2da5fd, 0x1e68f7bd5130ceb1],
    [0x328029b37cc1d94e, 0x6994c2db9aac20c2, 0x95050678d19f2eec, 0x29827cb7a70ff00],
    [0xc9451accb64b3da1, 0xb7ca10382cfc464, 0x7dd5cb14430d2d0, 0x18b67ae206c91b09],
    [0x7dd31c0ee10d7853, 0xb2725138131fc888, 0xb24712c9c9fcb250, 0x1bab9c538b70fb],
    [0x4cfaa32c44cb18e7, 0xdbb8c6d9b84c95c3, 0xff56a7c1aaa2a13e, 0x1bb888723fe04304],
    [0x729c31f21c078085, 0x3afc9b4b9b3e2a58, 0xf0efb92f3829ee5, 0x15b938c5888d4673],
    [0x4cf05802a6840a2e, 0xd8d0be49b2ff0ee, 0xd8afb9f3b66f03bb, 0xe56668d5e18b59e],
    [0x147843d085cb9814, 0x1935f4cf230267dd, 0x5a3185b312d61f86, 0x286d890c9e0b00dc],
    [0x9b4d80b371a52984, 0xe87ebddae5274596, 0xd3e5f13374bb46fe, 0x169b367b1b5b432],
    [0x8ceca5b4fdd39ac9, 0x37e6a1e60f76e2c1, 0xf90517d00c67ccf5, 0x2616061981a127f1],
    [0x570de886cf569098, 0xd6329ac3c34712db, 0x8ce3a1fafec88da1, 0xb1e797eee3f15b8],
    [0xb61fe8dca05e7039, 0xb1309f9028133f32, 0xe3759156410967fc, 0x2505d3c4eb01aad3],
    [0xe01968bc21302418, 0xe1969d2c486e76eb, 0xd4e318a61669afe8, 0x6582da47cd85c00],
    [0xec6adf2369cdb1e5, 0x58c26351c6cd943c, 0x28ac184c5b2f02af, 0x41b8979d269f6ec],
    [0xe24b0fe672cf9115, 0xd8284c1145321c2f, 0x9cbbe0494e98dddb, 0x1443d53abe81ab25],
    [0xd8909ffc8c2b7826, 0x9e6affb63d0f8ac1, 0x965c2505997614b9, 0x78377bdb2570000],
    [0xef7012721579271, 0x6f2f35247f080a1b, 0xf0d2c35633e7877c, 0x21343622cb874753],
    [0x8a87be3eefbdac02, 0xcce6114a31f4283b, 0x6a4e2e9c1e6c90bc, 0x2726e864c23bab46],
    [0x7071a718d7a4a347, 0x6327cedf1db25753, 0x92b8e3667b5ab69, 0x8c3cb7979e51a25],
    [0xa9341fb52b54e7b6, 0x43ddbc94203075b1, 0x63f6d3a2d980cca1, 0xeadc7f0735863ae],
    [0x94ccc84663016071, 0xfac48f10fd9b6aa4, 0xce1360d9dd8885e2, 0x302733698edfe476],
    [0x3d03da2739f99c35, 0x69d4b71ab559edfc, 0x6bebb4ffd7554061, 0x390d135ec3fb0cc],
    [0x87671614a2eec37f, 0x1e5279d430aca51d, 0xf8c5a6475383bd70, 0x29814b855ae75985],
    [0x101de73f741709d5, 0x5247177b175fc929, 0xd59746fbb8c80926, 0x1c8271bcd402c844],
    [0x635d76310c241990, 0x6e507132971a4452, 0xa4556b1e621c3fb7, 0x2ea7af5aff4c8335],
    [0x9a3436fdc9ba2abc, 0xb9d03816b0feae87, 0xeef270fb45c6c76, 0x3758c3722cb764b],
    [0xdb38fc43454b588f, 0xeb1185edc68f6eef, 0x16a1c1e5dcc02363, 0x2122e9a87a298412],
    [0xfaf96d52caadd140, 0x5bdd6a1a5c6f5134, 0x4c6665d51926a7a1, 0x2e5132a0aed64931],
    [0x3ab1361b4c49a834, 0x8275e8f98e235db8, 0xdea3376af9fef0cd, 0xaaca5b7aa27811],
    [0x570de886cf569098, 0xd6329ac3c34712db, 0x8ce3a1fafec88da1, 0xb1e797eee3f15b8],
    [0xfdd94d560eb661a, 0xacd669b383111e30, 0x4f220e9f0790ab77, 0x203898b92bb3f834],
    [0x158c7ae06558e2c3, 0x3e70d62f77f83aa4, 0x2093e306a8a85e70, 0x1d55edcfada4cde8],
    [0x73dafad3a2a4ab1a, 0xce9bce68434b291a, 0xcaac482ba2cd28ad, 0x1c57ec21152ef1be],
    [0xafaf9d8c296bd1fa, 0x4764e4ceb3d2235a, 0xdc5e0ede6ee9b657, 0x2c77f75ff6857d39],
    [0x196b3f8dc466b672, 0x4de4fafc1998d04, 0x530a593ade47778e, 0x264024c571ae242f],
    [0xbfc76de77780e8b3, 0x278328056b8609ee, 0xce7ee0ab1632b43c, 0x123a17496bdc1d2e],
    [0x421b58b7fb9b5fe7, 0x3d4d39cc3f2d188f, 0x7e02ed3aeb121045, 0x15d806ca8c7a7c72],
    [0xebff756e82ed8e6f, 0xb639064aeb9d77fd, 0xffde7a36b04c4b36, 0x2938fef22503472],
    [0x2587051efd0445, 0xfec97bda292e3167, 0x3c4b83781b4d0037, 0x1d5bd19b2c05765e],
    [0x1ca45697ad5dfbae, 0x73cf5ac0eceefea8, 0xecd031202c5503ab, 0x5a5ea7612d82dbb],
    [0x6422477266da4fa4, 0x98e44daded91984d, 0x87d999a4436ab812, 0x1dff1bb202e9a712],
    [0x1c57c7055fd528dc, 0x4f3c84bc4129d8b, 0x8fe1168ef8dc72e, 0x1a65f01a835cc6df],
    [0xbc29f405d3e45c49, 0x4a64ffabde52f6a5, 0xb44786f865317d38, 0xc6bfebef542cd78],
    [0xbf4c4cb3682ccbe1, 0x4e95e8e3c80337f7, 0x944ba9e1b351b0f0, 0xa06a55ed8f52246],
    [0xe4212f62d6271006, 0xf7b66cbe1ad77e2c, 0xc81451144bdf3ccd, 0x237af0b506f0185f],
    [0x6e8d55af76d0a7fb, 0x13cb2fb22bcdbfb9, 0xe5066eca69e6939c, 0x1d6b421f3143a560],
    [0xbfa43c2facbcaf12, 0x9e94b5b1126776f3, 0xc70e034a0ee1ce69, 0x1ea4cdc48eeb87bd],
    [0x1b65e49725335b68, 0x5106b28c70cd941f, 0x500403f5ddedf616, 0xcfe1b82dde8c5eb],
    [0x570de886cf569098, 0xd6329ac3c34712db, 0x8ce3a1fafec88da1, 0xb1e797eee3f15b8],
    [0xc8f8b2b9585a647a, 0x6b1fb98e10e284cc, 0x307dd3aab96a838f, 0x10cd524d82fe05ba],
    [0x44176a9febaf9a1a, 0x20f6af7e64b36f74, 0xdb23e1e81b428676, 0x29069f8a102d5fd5],
    [0x8b96cc8042eef1b6, 0x89a3baba330666cf, 0x704a8d77ab12c93d, 0x3021dd41004ec315],
    [0x5189757d6638eb50, 0xda835507d8b53d90, 0xbb28578e0fd3103f, 0x173dbe8f25c7fa7e],
    [0x6d77ec9888f43718, 0xfce283dcbaba35c9, 0x361f44b48f4818d, 0x1ec7dcb5fd4210ff],
    [0xc8df9d58ecd818d7, 0x42a8d731ce2f8c19, 0x2497e0ba6a2a3583, 0xe52deb0da59b5f9],
    [0x8a0cc52bed3ee671, 0x8350ba77681b6bc9, 0x69733ad1fd53ca14, 0x77276a2ab3c0fad],
    [0xd7152383cf21301d, 0xc77a9330c4b0884c, 0x502cee8d7d8932b7, 0xe62986c860d75a4],
    [0x88b7027645c05600, 0x7a424f82f7491ade, 0x317496905d6cde46, 0x1977e4ab4ef72d06],
    [0xf5aa20db5afbc65c, 0x5f0ff79de77d4de9, 0x7a6653760a4e7255, 0xe5fc86e5a4aa589],
    [0xd16ba45bb76c0d56, 0x1b964fa12abdf7e, 0xae24fbe4145ecad2, 0x133c080c57426c50],
    [0xd4df3df632f9664c, 0x4853b2dfe29e44ae, 0x91754565e4ed714b, 0x9809f0d9404684e],
    [0x660071a8066b9fcc, 0xf0d0b3c91975aca7, 0x9ef8f3132245aee0, 0xb9ea2ad9eb74df8],
    [0xf403474e332824eb, 0xf6527a7eacdaa10e, 0x6167cefd64bb4874, 0x2bb6bbb4b8f9011e],
    [0xfb024268dba03ea1, 0x7bccfd4e6c79dd64, 0x34234e8a83b2fd26, 0xe7505f5d74a1689],
    [0x6c43d48f7dd06d2e, 0xcf201f7bf07d2db6, 0x1a4d3e0ec375ed16, 0xa96e9aab6d37e9d],
    [0xbd84cce3e651616f, 0x83100b33653b9a16, 0x475c1ae70ad79d2f, 0x19109a9f6cbaa378],
    [0x1c849780bd746a0d, 0x626c1727fc695abd, 0xb2f0c411722c66ec, 0x2455d14dfc4e34f8],
    [0x570de886cf569098, 0xd6329ac3c34712db, 0x8ce3a1fafec88da1, 0xb1e797eee3f15b8],
    [0x253e3284f942f855, 0x7d96a400b4084b78, 0xacefffd7ebf331c1, 0x2720fa35b76500f2],
    [0xd086812ae628cbe, 0x338cdf90b962a3ac, 0x5b5e9236f1782ff4, 0xaf8af05904f4389],
    [0x2b71a07055b11f8d, 0x6e3c3ca16318f279, 0x29078d17e98537d5, 0x25f57c83e4d18318],
    [0xef7c7eb3d8f22465, 0x5ef0f3516f9c9767, 0x9e6c815909fd6b65, 0x122275903e7cd041],
    [0x37ff92b8efc61ee0, 0xf51abbd59aadf307, 0x9246bb19e16ec3a9, 0x20da2a3fb1adcba2],
    [0xc9dcee40344749a2, 0xc2861b49e7e68c6a, 0x15ee431212e1be7b, 0x1942ef506c145d9b],
    [0xd23704022f55a13, 0xfa46480244ba31e3, 0xc8538332d6f0253b, 0x29c8628087cf8197],
    [0xb5240d5477ef3193, 0x95a1715195e86a6b, 0xa687538179bbb9f3, 0x23ec0870cc4460fa],
    [0x9ba7040a9e53f14e, 0x2f73f9039803bd32, 0x17065d86188b961, 0x220e9648212c6250],
    [0xe78790e7bce6e92c, 0xf4ff4a57017fe888, 0x40f4dda0e4ddbce8, 0x1e424309dfb1a002],
    [0x1079bd602a2fe535, 0x9f9dc4fd7bcd9fd1, 0x40288caabd9dfd3e, 0x22dc20b39997ba1b],
    [0x7bd3c5bf875ab52f, 0x541fc1212b4e96aa, 0x1a65a53e0a89f199, 0x22275186225901c1],
    [0x6a09f9b523a2a61a, 0xe78010418c7aa4ee, 0x9d8d50fd809a1c40, 0x17ad868f1ce51627],
    [0x5f1cc9641584359a, 0xb27a8fc1d08a0917, 0x3c44964b33b30e44, 0x27dff28396bef287],
    [0x1595f8df207cff8, 0x4a2eed161b9b60f1, 0xa32634bc3bfc1022, 0x9022e1272e97e9a],
    [0xeafbc350c5ee934a, 0xf5bbe3d96dab568a, 0x4ab3920be41ec7da, 0x10e1f1602cfc30dc],
    [0xa20bcf2f9da868b8, 0x8aaed7122fddeec0, 0x8dd9a622891bf487, 0x1b1aa6b279c2a5fc],
    [0xb92f6f1ea11ef2d7, 0xb69f5f7917a0401d, 0x3ffd3849a5e70f92, 0x283b86d8cbfdbc91],
    [0x570de886cf569098, 0xd6329ac3c34712db, 0x8ce3a1fafec88da1, 0xb1e797eee3f15b8],
    [0x362a4bb4035aa424, 0x1cb3b92776df8798, 0xbe9e5d182d1ca044, 0xd21897ac3d9b9e3],
    [0x7c4505ee7a3bdd67, 0xd21c20e7a9f1dbe6, 0xefb359c8e60c86f1, 0x20b3d4db18dd6de3],
    [0xd187f9cecb07237d, 0xed87152f92391ac9, 0x9ef8358a8b122f4a, 0x27db9f494aa78c11],
    [0xd9ad7a5602c6cda8, 0x25fff758fc625540, 0x3fe61c9146a74265, 0x203a42bc685316f6],
    [0x36d55dda334f0dd5, 0x9fbbb33881cd289a, 0x4a7bb5516818a013, 0x2786086cb07a5e8],
    [0x533cbbea61e7d791, 0xef385d2b5f0a5e75, 0x75737bd7202447e5, 0x17197184f893d194],
    [0x273db77c954d55e0, 0x48b27321c23ab4da, 0xba7da5059689f8f4, 0x505d0e83c6b5bd0],
    [0xcec7c0b398a48715, 0xa2f0d4113b4bd302, 0xebc1ae07b28ec6a3, 0x167393ca748cc53],
    [0xb7a3134f2fa13859, 0x515cc52a1a9b2d42, 0x7c9197c0c1c5a3ec, 0xd479338ab58fc83],
    [0xbfd42806fa6c7417, 0xfda880143e43f16b, 0x183de5619442f91f, 0x21c2423dd4c9fd1d],
    [0x450bf2d199a2cc55, 0xe2ea594304763509, 0xcbcd0fb630a07a92, 0x2cf480612db52dc3],
    [0x25dc163a35c07522, 0x7a9bb521f6a7353e, 0xa20cfc997f266c5a, 0x71f821a426e22b9],
    [0x7c94cfadd1ed45fa, 0xd4c5e9ea529eb18c, 0xb4f4d09b51e6a126, 0x1461f8fe38f4a760],
    [0x5462acae0b72b38c, 0xd8cf50365a31166c, 0xbfee4a3cb14ddced, 0x1357d0271c479b5d],
    [0xe5ac14862181abda, 0x19947f4cc167476a, 0x1de5804422b454f0, 0x2b328c0d80b8e81a],
    [0x9012e0806891b93b, 0x888ae08d44236244, 0xedde505b42c9bfab, 0x2e3b540ace24978d],
    [0x98abceb3fa9fae01, 0x5d652527f00924c5, 0x2aacef87560cc1df, 0x1ce4c3196ea44d6a],
    [0x800004ed10b715d, 0x39074686397a5ebf, 0x79c18d06e3d80ef4, 0x2851d688c92c184c],
    [0x570de886cf569098, 0xd6329ac3c34712db, 0x8ce3a1fafec88da1, 0xb1e797eee3f15b8],
    [0xa26a263d5dd965d9, 0xff0be31ced0513dc, 0x37b3ac318b969590, 0x196637f7373413fc],
    [0x7ffc41be2aa210ad, 0xafce1d9c34af4feb, 0x687a5ebb5a4fdac7, 0x174d93a947b4b73d],
    [0xf19e2743f3640fa, 0x39739de7ade50353, 0x7ee686ab18a22246, 0x1a844947654e868c],
    [0x26cdf1ce15cd497d, 0xf8c1368eb73a80ab, 0xff4e3e3257c8d319, 0x2ca2906ae9b528c0],
    [0xa4d9519a6afc9a1b, 0x50f1d221f05642cb, 0xa7b3db85cb00b7b9, 0xa94ad92e43366cb],
    [0xdb5ed38c6fde17a9, 0xea892f32dfb0ba1, 0x8556116779eab711, 0x22bbc0a3d2c1cf2c],
    [0xae23df935454357d, 0x3161d74a9952794e, 0x3f59c29bb6fd6273, 0x1e04ab6b0dd11b6c],
    [0x698c47fcf37c175a, 0xf4e836aee874123, 0x8d948aeb53978717, 0x229f3e8f6afdba21],
    [0x8cb6ac84a16aec03, 0xc39724738d58054d, 0xd642030a21f1d525, 0x995cb64172f8220],
    [0x7c2434776efb8358, 0x315117db2052793a, 0x9e2d7d334c88c0fd, 0x12b8663b8e3a6bcd],
    [0x29469817b112469e, 0x228c402507708840, 0xe38db51ab6102290, 0xe306e47bc917fa7],
    [0xf2679d753af7ca2d, 0x4422a5f75088d0cb, 0x41f561e89988de78, 0x290d8cbe5211d46c],
    [0x6b289370ec77d2, 0x11506da29886ec17, 0x4965e8ac51a7562e, 0x1e0aefaf9cd8ef42],
    [0x3f549ce98663649d, 0x630a0dd63c55df4a, 0x50455c9d563db8f7, 0x4df18fcce60a87f],
    [0xc75e300e8f20f98, 0xd068c316710b6326, 0xc033973bcc95f1, 0x95973dc58f6505b],
    [0x71c7c2681d9e9ffe, 0x50321e2068789598, 0xd02587a3df05d9dc, 0x1d18acab418de031],
    [0x62ab7cfd7ca42a7, 0x3a94a1e94ae7c93e, 0x90fe3ff4afb54f11, 0x213d73843dbd3c4e],
    [0x85a09e47c7a9bb03, 0x27e3a532870f6a28, 0x606915b736d04f31, 0x13807261e197788f],
    [0x570de886cf569098, 0xd6329ac3c34712db, 0x8ce3a1fafec88da1, 0xb1e797eee3f15b8],
    [0x218eb7b54d8720e6, 0xcf49cbe1ccc1d0d2, 0xf177aa4b1293825a, 0x250b609ce88f0983],
    [0x1b19a806ca2e5361, 0x8904edd69a6a9016, 0xd142e1762efdf17d, 0x2a3d7388587ce77a],
    [0x3b3b1d660fa8478e, 0xd0fc503fa90b34c1, 0xadde47cb7e1b25bf, 0x1905f00fc3b1cf3f],
    [0xc375729c8b1b4415, 0x162825bdf73eea4d, 0xd5113875af727910, 0x28d30399b0b09d77],
    [0x3f1505e09b063b94, 0xfbedffd5237d233b, 0x7a2337228d5bf342, 0xf6056c7c8bb29f4],
    [0xcf95d21be424a561, 0xd9c917461edc62d0, 0x83a410b7d24c83a5, 0x25e6ecb2921119f7],
    [0xe7a5c364ca500cf3, 0x8100470b4ede3b1e, 0xe7a2505d51be49e3, 0x28da486586fa7a6e],
];

/// Part 3 of the sparse partial-round rows for width 10, as little-endian limbs.
pub const S_DATA_3: [[u64; 4]; 256] = [
    [0x71b3176557846ad5, 0x945b7851ee8b4828, 0x35bbd41a543c9f46, 0x1e7a7c44e72cd5a6],
    [0x8249d4ee7f3acda6, 0x84f23fd713258c51, 0x208b12388dbbd551, 0xf8529665d21549],
    [0xd214a2f52e4ca22, 0x93df1f8c11b2e2f1, 0xce509b0149da1a52, 0x1632d84a0d31502],
    [0x83765bc6a05dd3cf, 0x9830ad49016e9bdb, 0xb81ab72d7bf1a08c, 0xe576e8ba8cebe7b],
    [0x8379bee32b53adf3, 0x9a42c4534322f4e1, 0xdd689100fc4e27dc, 0x116f9f8556eac9dd],
    [0xdc708a57a4dad9f7, 0x47076430dc407b88, 0x852d5341c15fa51a, 0x2617cb3f694b9d35],
    [0x7946e91893bcc19d, 0xf8bf128954b04c47, 0xad7c5601c45aa376, 0x2e1dabfcdc2242aa],
    [0x874249d4a56dd4a0, 0x9b3fd760fcbcee93, 0x18be48461c4209d3, 0x20561db57fda4a5d],
    [0x66d170cffa123475, 0x966d96264cc4e707, 0x76da765273bde6d1, 0x25ff336f1b5fa165],
    [0x3ed4d5d6af8ec602, 0x952361a46298713c, 0x82539b2129420c8c, 0x2ebcfead11a0a9f8],
    [0x6a1dccebc1cc56db, 0x45bd34b512f2eef1, 0x5765128b43d633f3, 0x17f4133aeaa19e90],
    [0x570de886cf569098, 0xd6329ac3c34712db, 0x8ce3a1fafec88da1, 0xb1e797eee3f15b8],
    [0xd11f378bc219aaf3, 0x61a3ef43728c21bd, 0x8fcec9c9024c2cca, 0x1b3a49687cfb6927],
    [0xf44e0861264a5676, 0x3849797e36692723, 0x57051f8e39c6e68f, 0x21c2f9fbd8e7212a],
    [0x3675deb598eade42, 0x883ee6efc07b409f, 0x540dd0390165eedc, 0x115d3df00fd3bd6e],
    [0xdb9862a460ef4615, 0x83de56e38603925b, 0xe592068ecaa3e9fe, 0xe5729bb5e9bad3e],
    [0xe5b87fb7b6e0db46, 0xf7a7b0de3b7c55f0, 0xdb2776c74d3aaa25, 0x285440545506adcf],
    [0x2d75f58da84e1eba, 0x8f3d9bb48cfe1f07, 0x6a0b146d07acd6fc, 0x233f80e930f4324a],
    [0xd6da818ad1e74de7, 0x27c8455063e66e31, 0xa6b2116e883c69ad, 0x21f9ccd305b8bc81],
    [0x5c8c9efc67c5ab3d, 0x9d9b205f2631dae1, 0x4c93b9a49af57b80, 0x28fe2473f0cfc091],
    [0xb9c90768c5c4692a, 0x6ce7f852160797a2, 0xd6caa30b55289cff, 0x2ec03f45ffe70531],
    [0x89cc9c9ef70dd9f6, 0x708a821df4cac5ee, 0xd2f0d4879bddc431, 0x1b6d0de6db03f0ba],
    [0x74f24be97e39a3b6, 0xeb7a6a41aeeb94b2, 0xed493dd39340e775, 0xa11e8876f08f694],
    [0x474f47f1341cdc16, 0x6c2f2e721f19965a, 0xcf3cb8d353b0db91, 0x17ede99ae68e039a],
    [0x8fd12726dccc4909, 0xc41d85b9bea877df, 0x29d8294575f23f8b, 0x18fff4f3ec52c437],
    [0x8027c26473b9eb10, 0xd326b29262ef4b29, 0x45fddce6d52d2aa7, 0x21df71f2c6a62f39],
    [0xede80ba3983400e, 0xf787090d1d55b986, 0x1a5380c999272eb4, 0x11b89da0475d9f04],
    [0x6f632991d0a5bc34, 0x4f4f7cdb9dbddbdd, 0xf3c3a15545d36430, 0x8dc1602808b04a2],
    [0x350a0e88275d6fe8, 0xebbfcc9e1d4e775a, 0x2845460d38458855, 0x7faf1ea463a24aa],
    [0x7a4c3adfaeeb4ea1, 0x8bea40bfde95785d, 0x102552cfd03824d6, 0xee38f40f3c1ef1],
    [0x570de886cf569098, 0xd6329ac3c34712db, 0x8ce3a1fafec88da1, 0xb1e797eee3f15b8],
    [0xe469187f5ffdeda4, 0x64204d74133ef42d, 0xbd30c7b1c3d7b288, 0x17fbc184678cfb88],
    [0xf4938c46a546c3ea, 0x7f46a2ae74fe0465, 0x40cde10452784e86, 0x1cf9d597555605a9],
    [0x95b925b5539e8d63, 0x68f95570188e4b29, 0xb33e2dc2f6ee1714, 0x1c092bb49f2b4366],
    [0xb20395d0cd4ad478, 0x2ef6a1a4732ab052, 0xdae1db28a6d94ff6, 0x12f62053127e2084],
    [0x8df979c474eb3835, 0x3e58c0ff598ab464, 0xea12ad7cb4473211, 0x1eeb4476ad29cb],
    [0xea1d2f5c403ddb7d, 0xaa582bd29631c73f, 0xdcae687b1ab54f6d, 0x2c38250647fad3ee],
    [0xe7ff30dc91feb902, 0xf0dbcad228ed15b9, 0xf25d8453fb38e9fc, 0x2eec86ab0272f57d],
    [0xf0beec6e5d5f06fa, 0x781f71565217ef7a, 0xbf9ee78bbbfcddc5, 0x254f0f4597efcac8],
    [0x1c4d129bece130a, 0x27adbd2c24ffae01, 0xa4398b659b2c74c, 0x12a47fcdb1b19d72],
    [0xb83ab48b3e00a204, 0x1d1ae24d666af9ff, 0xf2f39365c4118f3c, 0x1bc890c0199da7ed],
    [0xf89bccdf92fb7598, 0x6796d6b47932bbee, 0x41dc73c2d27de002, 0x125272075c48ad5c],
    [0x8588ce50a191b8c4, 0x400cddb91e6d42fc, 0xd8b4a1aafb1a16f8, 0xaeb8e71cc24b05],
    [0x1014122ba05654b3, 0xf9c96218b6857608, 0x465418c6b9a9f56c, 0x60ece14c283b3],
    [0xa49deb20f2823269, 0xe44ec7d6093af846, 0x9e436e4d72fd9392, 0x14728be414cd1dc7],
    [0x60be724281ec8361, 0xbe02412911433fb4, 0xf7178722cdc14be, 0x21d5f66e745ef28c],
    [0x1244e0304ec9b6ef, 0xf58c811cecbb74bd, 0x600aec2c433a850e, 0x6bc631335961a7b],
    [0xa384387527ce3ed3, 0x2dbda2a0b0bec465, 0xa077cd6f1981e5f2, 0x125b7c277f162a0],
    [0x6e8aa8cae99bf4b, 0xea8aefcc7ec0f96, 0xc015be7630d8f106, 0x2a2a1ff5ede20300],
    [0x570de886cf569098, 0xd6329ac3c34712db, 0x8ce3a1fafec88da1, 0xb1e797eee3f15b8],
    [0x747b3cc613629cbf, 0x62155f3455fe766e, 0x13b0ed0c228a5619, 0x247c5ff976e2ad27],
    [0xc071da656c7bf5fe, 0x1629eeac4e46342b, 0xaa3e697291898baf, 0x28cb0837980e09d],
    [0xd95b957b376c6bf3, 0xb76c1205eb14d883, 0x71402e6dbdc251b1, 0xfa57cf86065e02c],
    [0xe1261828501ced20, 0xc853a4a0369fee7c, 0xce1959d954323802, 0x1333d78ac8096483],
    [0xa84d56b1b6eaa776, 0x974aa24f6cda9a91, 0x51201a664b15f402, 0x14d5ea7f14723887],
    [0xb5f2719de5cc6c7f, 0x7e1a037a1d03962d, 0xd058b32564a9efc, 0x77a697d92ad2c07],
    [0x87e69aad56595064, 0x3b13ebc8d10e6ff7, 0x61c67fe56b8ede9c, 0x27c6793303f3e753],
    [0x6705a77a890e08d5, 0x5d93cd365e24b692, 0x772464b2f1fdb25c, 0xd69340f71fbe2b9],
    [0x758d1afaf70a6970, 0xfcfdabab79964189, 0x411fcb2eabc3cafc, 0x1e2d709a891be7d5],
    [0x14a58a46a44f4fa7, 0x8adc3938120ca02b, 0x87733a0a3c078eb9, 0x2cdb124943fc7c32],
    [0x3c710766612908bd, 0xd8786f0b14366f83, 0x7471064e855bb48, 0x27af11497cb4a8d2],
    [0x3264ed1219db5b04, 0x1b80b1dc03f3e6db, 0x1025170880a47ad6, 0x392c9300d049ca3],
    [0x7a272b0b30d58434, 0x2f6e869a0a4cec63, 0x21d83ce2682a4b7d, 0x2aa58c8c95a91bd3],
    [0xd1dfaedd525762bb, 0xd2c1758d677a0ff7, 0xa151b1142423fcd8, 0x16f7b5e9d83339c0],
    [0x49e1382ef80231a4, 0x21e8b5f0333e022a, 0xa55ed800af55fc6, 0x240b50d50ff6a593],
    [0x1841f4ce52c15f3a, 0x3808f780dcb1112d, 0x7611fafe5e8e7b05, 0x16e43d57fc3ecee1],
    [0x97516fd749e8cee4, 0x825c2f3f05f7fd48, 0x51598fb2a6ba22b1, 0x18b989d920dbb70d],
    [0x5b8d24bf76685d9a, 0xbec01b6220af5337, 0x2b21e5b463d99371, 0xe4db6c770ce5d66],
    [0x570de886cf569098, 0xd6329ac3c34712db, 0x8ce3a1fafec88da1, 0xb1e797eee3f15b8],
    [0x58c99953826664f6, 0x6cf540be2894be7, 0xade73ff73dc88ec3, 0x145563ae8e6e1472],
    [0x697cf49ba9b881d1, 0xc001ecef9965c00c, 0x11e9c5637757db12, 0x1892c99793221d1f],
    [0x71955303fce6eda0, 0xe6835e66b8aad44e, 0x596706f17773d33, 0x1f965f8daa018ee3],
    [0xc1e4366b54021442, 0x4307b95394392d8b, 0x5b247a68119593d4, 0x2935511ac83c9908],
    [0xbbb2647430afceb7, 0x265997bcc1bed376, 0xa3bd179fa8ca9a87, 0x907907697dec1e1],
    [0x943cc8a45fcd50e4, 0x8b3960aa1dc12ed7, 0xa9c4ba45fe06a86a, 0x3396c267b0ba914],
    [0xcb29776fa229e85, 0xaa8802bbcc6c17cf, 0x9a0b2c93744857ad, 0x679ebb051d64df9],
    [0xd9fe9728588c98d4, 0x998c0be6f9e4b900, 0xb606b33224139de1, 0x2f93483d03549c31],
    [0xf833d8c91b811a65, 0xa42fc174733ee672, 0x852d83b0e7e032de, 0x1458fbe748fee53d],
    [0x7d8cfb0f725805ad, 0xb7ac9f04cca49d7d, 0x9f22cd6e4eb3bdd3, 0x1a90f8cdc1c63f28],
    [0xa0896e2faa1ce5ab, 0x2cdde99766e52b21, 0x1f33621249f4c669, 0x132a4fa82d627605],
    [0xec98da690ef1880b, 0xdd9da1dcefe3a454, 0xa7b37b53da5f35df, 0x1d79444933015ed9],
    [0x5cfb29babdbefd07, 0x679c01bde73d634f, 0x5486fed8eddebea, 0x268a91dc77ae88ff],
    [0x279fa269e999e1da, 0xe5d44ce51f4f9fe6, 0x439cded45b157075, 0x1e011a8f14bd69d6],
    [0x39c39daabbc69a66, 0x4c7af1c79db784e2, 0x7d1e09649849084e, 0x9d4ccb992e2ed6a],
    [0x637408c6aa43f232, 0x868dbe38e028bead, 0xa0a9566c7f072498, 0x4bd333ef75b6e20],
    [0x24abbec4d9822994, 0x1e949c60a4264e87, 0xdb8334871b434ba0, 0x7a22ff875664c4],
    [0x9be5a5079e40c85b, 0xa962db88bc02f677, 0x7d2d170270aa48f0, 0x2ce7c0aaa7d361da],
    [0x570de886cf569098, 0xd6329ac3c34712db, 0x8ce3a1fafec88da1, 0xb1e797eee3f15b8],
    [0xe05a7503440ef15b, 0x245266a12b5164bf, 0x57521c279f662e02, 0x5c14e041616b9d4],
    [0x3267a6e48677a417, 0xe7d5d081d455eb0e, 0xcb9fc6fbd7f03c49, 0x302134832f0832b],
    [0xf6102d5f0a46c1b9, 0x38e42e58d15479ca, 0xf8c145b226ba9e4f, 0x1ff1fc0a5041e83c],
    [0xaf8c09aa8b907ffe, 0x4366cd09838da3b7, 0xf16bd83352a5b332, 0x743a2f884e7cc1b],
    [0xb59b6fef0a7d1b41, 0xfacff3fb8765a89, 0x749ec5daed8394b5, 0x1602376f4173d959],
    [0xffe12291e9d833a, 0xd1074e8c5159e7fb, 0x18fce3f94e82bdfb, 0x7d2cb9c94b0a818],
    [0x23479b244bfd05bc, 0x3c26b703facde824, 0xb76feca1519db3aa, 0xbb2f1a3fa920981],
    [0x90df76759e9eeffc, 0x50ce609657ac3a13, 0x18505668756a151c, 0xef15ab6018db6f5],
    [0xc5e4eafdb1f3f3bd, 0xc72d4a709bfd9431, 0xc93eadca0b54cb77, 0xe6e886b5371587e],
    [0xed9ea01761f46a30, 0x6de4ad17578c1eb5, 0xcee928cddd4779ef, 0x43868f796a09019],
    [0xd58993becaf84eba, 0xe25747c504c2a0eb, 0xd70fb283580700f2, 0x244a691b12e0202f],
    [0x52778aeab1bbd9a4, 0x14040490acb67870, 0xf160b3b0d5d96e7b, 0x7db83a16d8673bb],
    [0x47a60a086d5b7819, 0xbd995992adb16e, 0x6aa8aa6d124f312e, 0xa38eb2851046d26],
    [0x19ef3eedc779a27f, 0xd5779dca6d20f218, 0xac42f5aad7e1e04f, 0x9afd14102f5641f],
    [0xf0472021891d500, 0x62e598ff88e9e428, 0xebc36cb46488e340, 0x17f1055f567a079e],
    [0xb6ff101c86bec259, 0x608e5cf5f573295a, 0x467679873f984332, 0xe742b77b8daced0],
    [0x56e8af64c14cc2d2, 0x4525945db0267bf, 0x6fe1f8161847e1c8, 0x1e0137861ce424e],
    [0x3ca5f058e2ae18ff, 0x4f574d33d340f14, 0xad89ac9ea7ac83e, 0x26af9938a85c56e6],
    [0x570de886cf569098, 0xd6329ac3c34712db, 0x8ce3a1fafec88da1, 0xb1e797eee3f15b8],
    [0x7f2b8d19b33a7633, 0x29a7a581eb47fb1e, 0x660ee1481664e287, 0xca3bbffa94a2440],
    [0xbfdeffeac12c935e, 0xa077df88559d617b, 0x4801eb64e46e332b, 0x56ddf288c853317],
    [0xc1a7c47ee6921f3c, 0x1859bbbf29ea5ca4, 0x67ce57ab65f27dce, 0x18f68bd602682d12],
    [0xf0786aebf107f4c7, 0xf81ba17ab940a093, 0xc2e1b9744f97c045, 0x30595b7e6e83baca],
    [0x482211b486f979bd, 0x92a3edafb2eb0389, 0x195d570a6c43d18e, 0x636950f2ee62115],
    [0xaea7d80cc0be0c95, 0xad8866a0da0775fc, 0x951b3e3134f96d75, 0x874eb8555f4444b],
    [0xd478beab7672b55a, 0x2eb63d272ce68ce7, 0x15f8589abacd5551, 0x165b30894e683760],
    [0x4743bda58e7e025e, 0xdf84b89cb019281, 0x48da219a93cb0ddb, 0x19e4b9ddc57a5596],
    [0x4e4b108c20a7802f, 0x10c3e669cc6e9df8, 0xda8fe7001a7458e, 0x25eccd6b96f10e2a],
    [0xb8de2fa6c464488f, 0xe3754958721cb810, 0x1a5198a71c1430f, 0x12cee7ff70207b26],
    [0x5620a36032e844de, 0x84ce414f08168e16, 0xa513af1bb140f11e, 0x1f99c9efbb41738e],
    [0xd21f31f69ec39dd1, 0x320daf93ae7e401d, 0x950c208d2e40375f, 0x12529d825e81e3cc],
    [0x5a9ad1f338e43278, 0x9e56d5bfdea7f516, 0xbde460c929edce1c, 0x60570f962275a45],
    [0x3c6522c2835d8c20, 0xaf3e57002783f550, 0xd7fca8fbe95fa47b, 0x13d11f33f4e872a1],
    [0x815cab17676fde4c, 0x15f650fa4e66febf, 0xe3a80861a422511, 0x2359f3c444f7908a],
    [0x1aa0786ee032071c, 0xa957e06a86af79f2, 0x81567121140a8933, 0x137c3d8494fafe8b],
    [0x28e010153b5476a, 0xd58abbc17519750f, 0xf82218ec1a2ae78, 0x3527cd631d2e66d],
    [0x68b5a3b8b2be5ce9, 0x57cd9a21c12e615f, 0x7ec81f87ea470565, 0xd67de5a809c3c1],
    [0x570de886cf569098, 0xd6329ac3c34712db, 0x8ce3a1fafec88da1, 0xb1e797eee3f15b8],
    [0xb4fb099a3e628ced, 0xa596a3d994cf780b, 0x41c716eeb7c3170a, 0xe0a49d17b5fd53e],
    [0x7cc81f01663c2409, 0xc5f9d6cb530deb70, 0xd58bf18ce746e193, 0x1b7180247c35af01],
    [0x44a45da050d6d56b, 0x13559735acc74ec7, 0x7b4c99af53c32b7c, 0x2093c5ad6ec79e8],
    [0xc447438e9c0e1c4, 0x71561b7265ee4991, 0x5fe6d74238747fd5, 0x26c4d026b6da4a40],
    [0xe9d84592c526f777, 0x78a4544159475be1, 0xca35ae543da8095f, 0x1fd3b662959f05a5],
    [0x13903b0271176911, 0xaffcffbd0d2ab745, 0xd28598b1843020f2, 0x1d8a119da46c01ec],
    [0xad19ec06eecc5aa9, 0x1234245042181cc, 0x8fa20010a22886c, 0xdef9ecbfc4c245d],
    [0x6dc5c7159e8474fb, 0xed025ac437c1eea5, 0x260a089bb9d0846, 0x2f389eb9dd0db331],
    [0x6e86fb90c0824460, 0xe5e0b946d3050a29, 0x858b09dda316902d, 0x192d09f6e1f97e95],
    [0xb0dadfa242af8f96, 0x31b9df3c36088df8, 0x248e62816419516f, 0x2abe84bdc7a81e92],
    [0xe0699417b22d64d9, 0xd1c71823b8ebd6b8, 0xd8eb631bcc55ff0d, 0xec8036ad332bbb0],
    [0x13004a4dd6d7ce01, 0x8a729394f7e5dfaa, 0xf6496bff628cdb72, 0x212d905745129480],
    [0xd55731b126b8c442, 0xb8234a453ba5f73, 0x7e25e6abdfb63f5c, 0x28b10eae18874151],
    [0x6de3b2b54c2c50cf, 0x6c3f9c6b2d1c2f0, 0x99c9c4328e7b7c2b, 0x2b55e73628a31463],
    [0xa3a79597368000cb, 0x970ca489714681ef, 0xd66632360642bd18, 0xa288f1c2c2e7b4f],
    [0xde02d6a461e00398, 0xaa929c6cd8a7bd41, 0xd8f70a8cbb5988d6, 0x2a98c6af21ac38e6],
    [0x559f0974ebb89e3, 0xbbfbe517135d1a8d, 0xab73a997d3de4c14, 0x28131733b6f0f9dc],
    [0xaa291052fadb42de, 0x474e8864c82b0705, 0xf28c4099a5857e35, 0x1a0422b448652f8f],
    [0x570de886cf569098, 0xd6329ac3c34712db, 0x8ce3a1fafec88da1, 0xb1e797eee3f15b8],
    [0xd452798b1ecebff5, 0xe26b1c3c21c1a69d, 0xaeb9b1441d3e04e2, 0x759e02ddcf9c02f],
    [0x731f7c3fd9f65679, 0xf0f51a0759e1e1b2, 0x8d160b3bfcf269f, 0x1e6e510013a7d261],
    [0xf8c6ffbc9b91c0d6, 0x104fcf2f6a1311a8, 0xd112b82be8167799, 0x87b228c959aec21],
    [0x80016f0dd6d2c5e1, 0x71dabc38e8cb2fe6, 0xcb6c77e97c570ad4, 0x1db2a8fdf80413cf],
    [0xc9434acf2a3d3aad, 0xcbd2c4497ad9957a, 0xff4a92bfc05fd5a9, 0x2c866e9e002f7ba0],
    [0x7f945ddd90f02269, 0x4ed6435f5bb37752, 0x1ff93c287e9bacfe, 0x29032ecf930c2a4],
    [0x64f3cbc0b9c0e0f1, 0xad21e673c3d895d2, 0x5d7e62e29f28fdc1, 0x21a948d59bbbb4b7],
    [0x9ad3bb4f6a62a287, 0xe345a4e113a9be8b, 0xefb317bf0771ba35, 0x1dcace62396a9c5f],
    [0x83ce008a9e6aa748, 0xc1046c41d866a703, 0x95db21cba9113f31, 0x29f8ae5c1ee78bcc],
    [0xb79754e26d7a3c0a, 0xa2aacce0994aafbc, 0x24fdc16a043d24f3, 0x27c5c8707b69d2ab],
    [0x93d50d82930a61fc, 0x6f64b94f09236271, 0x5bdc35d7ddb28d89, 0x2d34b96bbc325969],
    [0x355c9ffc0485b4a3, 0x4317dfe0f198f908, 0xa5edf9fd4825f809, 0x150254ed341e43d3],
    [0x3a34d71dd3ef3c97, 0xa99ace688c6c9c3, 0xad639409ecf7669b, 0x2c4ca99c167d67e6],
    [0x1246dc9a4067a7e0, 0xefd62d541bb6580a, 0xbe531f7e9e2b9cb3, 0x3930cd56e534c58],
    [0xf07314af94c27016, 0x8f1312a3b194296, 0xf1ff886d4992b6b1, 0x24f69e897348f292],
    [0x505626e5fc34a054, 0x404f487ad7597abf, 0x774f53d77c3f556d, 0x2334c3ba5fd553bf],
    [0x162a1dda8952ca5a, 0x1c5d003fbc9bed64, 0xe776a68e9a1252d, 0x2d72d7bd580f4199],
    [0x435e136c3ffaf3e2, 0x9f46a20955a0cc05, 0xa6f12a725b9791b4, 0x2a311a00f6cd8196],
    [0x570de886cf569098, 0xd6329ac3c34712db, 0x8ce3a1fafec88da1, 0xb1e797eee3f15b8],
    [0x79e300d546b1f043, 0xc6aee050695ab1de, 0xcc24a901b81f2c2a, 0x15eeb7dc60695985],
    [0xdebaf9761ae33e3d, 0xd955ab6066955d4c, 0xc96a3741ef8119bf, 0x1065fd42737ec473],
    [0xf02cc772608fad92, 0x80b12ab06bf5c688, 0x12794eee3b048402, 0x17c3d9212a09026f],
    [0x382464e39154bfb0, 0x72e2c1f5428683da, 0xa024d5f57c9d3b3, 0x1b3d7424ea866471],
    [0x71ca44535c510427, 0x1a1ddea539e33c77, 0x4cfe5927434d6cb1, 0x1122aedb9847961],
    [0xbc412ee24086d628, 0x30d5a799a6211895, 0xdad989d9b1295c52, 0x55e9bded4cbbba7],
    [0xba9e0ca8715217c, 0x6a882f05b6c8055b, 0x391ad08f2108574a, 0x30263db0209be791],
    [0xf95594d03501c1d2, 0xbbcedd5ae549f5d0, 0x60c78a6188b7098b, 0x643bec3e72fe540],
    [0xc3a0160dc8982cd4, 0x2067bbd53c3f0ae9, 0x6549658ca1b7e0f6, 0x24739ac04c239ad],
    [0x8b7944c5773827b3, 0x47c6c5ac03ed1d31, 0x6f26b9d604c0f914, 0x831cfa01b84554e],
    [0x34830a5e36f93025, 0x8a394915a9cd70f6, 0xb7b7a62cae11ea56, 0xc0570121f291d8f],
    [0x54cec14a582bb6e2, 0x52714606c5055308, 0x24957f7188fab44, 0x2994d07daf7152b5],
    [0xf14c482061cc703a, 0xa71fd25cead1d5d1, 0xc789dc46eced2ccc, 0x2e5ad16ef38f802f],
    [0xbf29819a0224053e, 0x1f563d8d4d927122, 0x36089d589dbce43f, 0x9f1fd3fd77d399d],
    [0x6b7d8924c7aac675, 0x9b6d26818bf7839, 0x34e3af50973ad870, 0x1cdd5d1efa770023],
    [0xcf868296f8478e0a, 0x60c0faa0a530926a, 0xa0ac948874f9b1fb, 0x2bfaf90c55d63a08],
    [0x3f081bb782ba7cfe, 0x2f0b7729804b6664, 0x647269d1b507123a, 0x12d3e6c5009562c1],
    [0x356a1c6f82e473, 0x92982a7568964ff2, 0xb77fa42cf13942e2, 0x36e9be313a952e3],
    [0x570de886cf569098, 0xd6329ac3c34712db, 0x8ce3a1fafec88da1, 0xb1e797eee3f15b8],
    [0xb5626674a42d1cba, 0x6c25d4d9fd1fcfd3, 0xc321d23db64b398c, 0xc34e42c97488447],
    [0x7ff6759a8920dde9, 0x6e2be76b469f606e, 0xed144a5591fdae1f, 0x27d82eee53199316],
    [0xb5c3aed2cb0c1025, 0x6439c477996b4d2e, 0x2a0366d6dd018ffd, 0x895f2c298631609],
    [0x1ad1b6a1393622a5, 0x44014f6036f9a96a, 0x4ca0be2b73237d0a, 0x22ea26e3404fa1f7],
    [0xc12b8a60cddffd9f, 0x5299349c921d4163, 0xdff1c693e33858b0, 0x245f9c36081e0229],
    [0x5aa782de88a2c3e9, 0x9312811c1d8e5782, 0x7a3dd824dc15c363, 0x120718feaf210606],
    [0x9f22432ae2abbf0d, 0x556d32d06f8c21f, 0xf9fdf518d146f916, 0x1cda330df4f05747],
    [0x711e85bdfa71fcc3, 0x3e2a8366bcedd556, 0x599b38a3ed9568cb, 0x17c8bde1641bf784],
    [0x8fcb513b7990caba, 0xdadab1215fa07798, 0xbb74f64fb7c0e24a, 0x3b039fece617d27],
    [0xd40872d5571dc707, 0xf3953e708f20a2a0, 0x8b4fd4403b72457f, 0x2585f69b3b7caeb0],
    [0xb065485b39fde3c2, 0xd99a2cddce535f72, 0x5e841cbf7e92c931, 0x1cf1dd7016fc7288],
    [0x4f999ed62be03449, 0xc1a2a7f6623aab77, 0x9b81bf60611b0f26, 0x11f30f1bb28bfba1],
    [0x93d5105ad79c5e00, 0x9ab51482a6f7395c, 0xad8e1ef759216d58, 0x179f6c3ca3fcbd7a],
    [0x2265103b323c014a, 0x83e2d2376d1e2b9d, 0x8154eb75ea6fa296, 0x5193282c4bce9d5],
    [0x89f124d52d1063c7, 0xb1b3b10842f48056, 0xc12f0fd177a6da9, 0x13f144857af17bff],
    [0x949f914290aa598e, 0x72449f4be850a28d, 0x59bcb9812dcb3534, 0x290400f022f09b13],
    [0xa0cef07e042da923, 0xb8e974b4603ee78b, 0x4bdcc39fe4cdfcf9, 0x26a590e2d283ea4e],
    [0x5c5ccf4f2940ca1a, 0x6bb1c40217610f16, 0x6db8f28d41eb0bcc, 0xb0bc561fb4ba34],
    [0x570de886cf569098, 0xd6329ac3c34712db, 0x8ce3a1fafec88da1, 0xb1e797eee3f15b8],
    [0xd732174b68f9694, 0x13a11e16eb381652, 0xb55bb53cfd3c76ed, 0xfc4b28f50f749c8],
    [0xde7b30da0118baf5, 0x562319d9edc2aaef, 0x97e495b0e1cea881, 0x1c2ea86841afa299],
    [0x128e359cb8f32a8a, 0xd3b70d540b24fec6, 0x229055b2c08f12a, 0x181f1de1e627bc],
    [0x7a0a3c5b80626747, 0x54cac5eb8c070db0, 0x26b08ac0eec6a308, 0x2a4b0a0fe77c7afd],
    [0x7c1f5a4b59ea94a, 0x668d02b4efb3ec5, 0xe303e7626fd73471, 0x13f62bb9fa1cf209],
    [0xeff51c60fc7f90da, 0xd34015d4f4083b6f, 0xaf90e370e93b611b, 0x2b5f4bcb8b0c0c1a],
    [0x321c85af7c0f4253, 0x272742a0c64ac873, 0x4181c0b9ccda1da0, 0xf61bfbacfe1eab1],
    [0x57d64153ee0639e1, 0x4d1cdc52d1d45b83, 0x5bde657f17209bb0, 0xf29b98701d484f6],
    [0x68b0f191da33a5bf, 0xb1d7982be69a9dd1, 0x7cc24a64ce7f784b, 0x4f50fac0a62268e],
    [0x68cd906ba9c5c784, 0x656e30e17a4d1e9a, 0x625862c05ffc4d4c, 0x31b6743a6fee9be],
    [0x7fb72721de84b629, 0x44b9713b47c8209, 0x2e4b7fdb43de39d6, 0x1b2d7a1f0ad3dce],
    [0xa93bb72bab913dac, 0x454196a1da06db6a, 0xa8519ef633ad3f7, 0xf2090d83056f23a],
    [0x4e534a564ef69610, 0xbf425301e9802269, 0x869d23f3fc7c3fc0, 0x1f36ea15e1ef84a],
    [0x67efb0f5fe1d8945, 0xbb271f0a8b5beaee, 0xe19e73fc8f938b96, 0x1e7fdf4b6edfd3e8],
    [0xcfdd5f00b9faac0, 0x4c6e443265d01300, 0x590634c527e8b69a, 0x58727d0875e0a1a],
    [0x2ca00b84f2ac6406, 0xd344e5517d93d36a, 0xefd31cbde7691cec, 0x65c67297180d56c],
    [0xc83399cbb957d426, 0x18c6956b4edb14ea, 0x192b1e66102143aa, 0x26efd963a80f4104],
    [0x1192e7c5bab301d0, 0x3cb01490ad79327a, 0xcbfe0f647ac99c75, 0x2d36f46690e480d2],
    [0x570de886cf569098, 0xd6329ac3c34712db, 0x8ce3a1fafec88da1, 0xb1e797eee3f15b8],
    [0xec6c412d6c5fbf20, 0x5e20066e4ca980ef, 0xdc579da580c4736d, 0x1ae20386490ddf16],
    [0xda3778bba3a8bf65, 0x5cdd04a2310a8bc7, 0xd6a3b9283176ec87, 0x13855655eb53d070],
    [0xc97da530b0012dcf, 0x17a889ecd7dc313e, 0xe0dce5c2fc7ed22e, 0x216a5047fc9a6423],
    [0x954effa901c1190b, 0x864f566705e5422b, 0x37ce338a7272ed67, 0xce0a7fe4c77e0d0],
    [0x7be392c18a953bc2, 0x7c100276b7af57e0, 0xdd9bc5cbc4704fd5, 0x295c4b9a9a97eb19],
    [0x47511d6e42c2f407, 0x9c22d1876e7d0078, 0xab571c5ddaf9c4d0, 0x2989d23a947312fa],
    [0x9950f0fe26d6c794, 0x6e24c79b845ce5f, 0xa67e2c1a59d64737, 0x185d73d77a0e88f9],
    [0x94efe397288aad4e, 0xb29986afb83cc9e1, 0xece882661791a29b, 0x182b0ed46716f64f],
    [0xb60d030db206b1c8, 0x8b4cddf6d4285c60, 0x4c62a82b286a3718, 0x22ff21a0030a575a],
    [0x26e88f7339d7b261, 0xfd2a58e0e3d3b856, 0xb64fe85327645748, 0x1313437aa7949a4a],
    [0xdb7f738178ad2f40, 0xb920817d74cb212a, 0xbeba2f6d0dcbfbe9, 0x6efe22994b02451],
    [0x294ff4dffd10885f, 0x7239bbd1b369e7bd, 0xba8d213d35d18869, 0x301063036e4697b],
    [0x69d4c344bef5e817, 0x60fda96037730643, 0x74d20bbfe8403ef0, 0x1c90fb3a46ac9ade],
    [0xa30ccf0fa3dd8a52, 0xe70f98ea8d1b5ce3, 0x49329c045fea856d, 0x2c52c601cc0042b4],
    [0x46e3b581aba9db21, 0xede7ed2dcb148c95, 0xac4944e0500e97bf, 0x19034b0b0a87c257],
    [0x90bd7f1dd683eed7, 0x7bffa32638b79b29, 0x73f0ee6c7cb6e58d, 0x27b086852644a1c7],
    [0x5748a368d1fc7607, 0xb168b5e986eaaa88, 0x707a44ddc3afee7d, 0x16cec1cfec5d548a],
    [0x934d7c7486bbd410, 0xc9d59ff92f3e1a9e, 0xc55043bcc80a422d, 0x23e0d5c20594133d],
    [0x570de886cf569098, 0xd6329ac3c34712db, 0x8ce3a1fafec88da1, 0xb1e797eee3f15b8],
    [0xf319ccba20a005e, 0xcca957eb00e86bc5, 0x153585878907f011, 0xfc871014612f0f2],
    [0x89e853719bfc6e88, 0x56632b0750e66168, 0x8ce16ad4a6ff3206, 0x179dfedea941ec2],
    [0xda9ba306192823e0, 0x3db87e5e852b7edc, 0xba05af605292a6ac, 0x2200eedc6d000a31],
    [0xd13d63f3ed7e1fc7, 0xa4cb80da9d90be1b, 0x922aaff007d2dc88, 0xe0627308b4486b9],
    [0x310b95efbf4f4d, 0xb9672f02bff40067, 0x37c07cae87220151, 0x941ece97766c9dd],
    [0xb4e4cabd2c038067, 0x9b859897254372ee, 0x422452287f378c0a, 0x2d8806727504e7c],
    [0x53526625f470624e, 0x955dc7e1d456790e, 0xd85da27e57a6dfaf, 0x1f44136953c36a85],
    [0x974e1c925b0f0234, 0xce9487a08ccced17, 0x73e5ae98d404672e, 0x2ad2db1a37881b1f],
    [0xc5914675365cbdc8, 0x396499e4461ca7cc, 0xad47ef372b8f08, 0x1ff27989f4d74b5],
    [0x61f1729f9a434fee, 0x698f4552fc2b385d, 0xc8d81380ab49c45c, 0x1d9e4bb1ebbf654a],
    [0x60c26a6b462411, 0x97714a48abaf059f, 0x300dab597dae2d4d, 0x269d2125ceaf4911],
    [0x97a727725bae3f6, 0x1728edbfd28b9dd5, 0x3c76f23b0dad53a0, 0x85fe9b1797ff483],
    [0x3541aa7b1ee5d73e, 0x3ce6879b8ac6c94b, 0xe4e3e189a537554, 0x2a1e5b7a8bbde19a],
    [0xbc3099e2a910e1a8, 0xce9be1bc9d16142a, 0xba41d67319a3186e, 0x38f9b328c38f8ce],
    [0x2863063552d840a7, 0x479d0e834a37f5ef, 0xb6be00973736a209, 0x3ebea7ba2a89695],
    [0x9bb1b8dc216bd96e, 0x3b491902b18b9dd2, 0x9a36ac4c094cc876, 0x29a1eb861aafda5c],
];

/// Part 4 of the sparse partial-round rows for width 10, as little-endian limbs.
pub const S_DATA_4: [[u64; 4]; 116] = [
    [0x2dfb56e5347c6294, 0xabdb937c7fc6d51b, 0xb1ceaeef8891bfc5, 0xfe28a88001c17b2],
    [0xa020a5f3b30eafdf, 0xe60c0289f7bcfd89, 0x32e831bdb0705d7a, 0x26ae83ff720fb659],
    [0x570de886cf569098, 0xd6329ac3c34712db, 0x8ce3a1fafec88da1, 0xb1e797eee3f15b8],
    [0x743459c1ec00c65a, 0xd1b037bee203ca82, 0xc3b3d91065f585e0, 0x1492bdc61b5ceb6f],
    [0x2132e50b25c1a3c, 0x6ffed430e8c75bf2, 0xf188ae669923494e, 0x275f2dd31c5b79b5],
    [0x8f548c4fdb2f689e, 0x9d1d29a32a6e7058, 0x502186a656ca0681, 0xb327a4ebdc41f56],
    [0x95a59ec6bde20b1a, 0x5d5003a5b9dd824a, 0xf0d038a617f2a072, 0x2c5e3d0108521c8a],
    [0x48359d465165f9f2, 0x5c6a34190fb27a81, 0xc4fbcad4e9dc65da, 0x1b611cb1e5f7f2a0],
    [0xcff5f40fa1210e96, 0x9c661e9e130af620, 0xcb4b7dae8fff495e, 0x22365c55c48c5736],
    [0x4256094af48ebf3a, 0x44c085e2ba6644bf, 0xfae1e07d2d076caa, 0x73fb93220556a2b],
    [0xeaec8c4aff2bff6, 0x377c3ea4208d14b8, 0x5bb3311eb046398f, 0x213fb8bc8c11ecd9],
    [0x3f551158a9d0d99c, 0xed1c1e28ff8b78fb, 0x9c55ac93513a6d19, 0x1a617c5b99876290],
    [0x33ff9d8b6fee17c6, 0xa6889490f9bcfc5a, 0x66d53cdd502405de, 0x2e1284a59a102039],
    [0xfcc647b73ab348cc, 0x51b957b064abd17a, 0x8380d8ca28d04053, 0x27c73897b8aea1c0],
    [0xd05b3d1dfbeb6908, 0x89fca02a6232f152, 0x89a79806c04853ab, 0x2bc53359578a2422],
    [0x77072bbcb2f9600c, 0xe01410696cb55103, 0xfc42aff081ccd3e7, 0xa8ec1ba29e112c],
    [0xab89dadfd0112ce4, 0x4b79c05ac5bb9c9d, 0xcc5f285e4a232f69, 0x2e0634f26f73f112],
    [0xdbba9ae9e3fe744c, 0x8cea5b17c363289a, 0xe4aedee93dbcdb63, 0xac9a6885431d005],
    [0xa36a323620b5eae1, 0x455b9d5fb35cc98c, 0xb8294565ec200c0c, 0x216854bce3077af7],
    [0x2a7962b9031a33ae, 0xed3c22e59fb442c, 0xbac5655b3c3202b6, 0x1603ef2a582a0adb],
    [0x60f8e23b2fe1a869, 0x630bb2f3b527af98, 0x869f5dd163666ee8, 0x2cfd0eb51e60c1c0],
    [0x570de886cf569098, 0xd6329ac3c34712db, 0x8ce3a1fafec88da1, 0xb1e797eee3f15b8],
    [0xbd658b68d870e6b5, 0x33855c37b5463cc, 0x7f0f5bf9fd4c2532, 0x183f34db24beb710],
    [0x1e9c8f0b1268280b, 0x1712edcb4f165f39, 0xde5345f0775f5ea9, 0x1a5079190245f746],
    [0xeca39cc6cddcda09, 0xd0813654aa5d8ef4, 0x6d3cb7b3943d4ff5, 0x249da4641b8f1320],
    [0x8d952a84a12f2d, 0xf34224f7f8d3db6b, 0x780147284155f335, 0x2e99f0d1ad289d3d],
    [0xe207842a2dac0c5, 0x2b000f490fbe925e, 0x910fb0b9d8d0b4a3, 0x1a95c807b653b762],
    [0xe08e8d2e631cf46d, 0x5eac209879a235af, 0x22b2905572c496df, 0x127a15cfbd88e0c1],
    [0x964b5a8acb1fb340, 0x132754d26de62038, 0xb74aaff0cfc01689, 0x1c22d61ac34f05ea],
    [0x5b14c4200754f9aa, 0xd915a1a1e858e18a, 0xeff882d395294889, 0x2ee46c0fbefbfd75],
    [0x369060fcb6df9139, 0x8fab4f25eb7602e9, 0x9fc90db5b058bdf6, 0xab5eff34c9c0bd],
    [0xdc176f19bf05e8f7, 0xa7e00c8edd81eb74, 0xbda4249188361f7a, 0xa91d479dcbe07bd],
    [0xc2454199e6833f63, 0x33d19089838744ff, 0xb10b8877849309b, 0x276a57e2c21843be],
    [0x850a19dd9f44c2cc, 0x914ec3b384dbad98, 0x4edb52b2f19fd159, 0x2a56e477fb4a285b],
    [0xf67ba17236e89263, 0x27d7131a2ce15f74, 0x69a5f4f2ef4f41f7, 0x2fc33d4b761a6ffe],
    [0x866a2e0712dddcde, 0x94fa809bcf5d20da, 0xc395ab7dfdcff5da, 0xb9ed85bc3e43eb0],
    [0x1059016932c0a9e3, 0x720bff84acedf57d, 0xacaf0447858eae04, 0x2921971bfb16df44],
    [0xa032243627170429, 0x5850fb5f124421a4, 0x54c8bf9312e0c80f, 0x1ef4f47e8d9e92d5],
    [0xd97071e878718f44, 0x71d88ccca2efdb8, 0x141cebbaef8b3c9a, 0xb099dd3d5498781],
    [0xc9a29f6161ba5f36, 0xa181f3ca901f5de3, 0xc6d5fbc6a55dab, 0x304a086e6735ef7a],
    [0x570de886cf569098, 0xd6329ac3c34712db, 0x8ce3a1fafec88da1, 0xb1e797eee3f15b8],
    [0x99e9c8e6bc80dda8, 0xc61ea45fc4451e7b, 0x60793a0815cc1b77, 0x286686a6d53d085d],
    [0x10f2f85501f4ef87, 0xf305d5f39683e707, 0xaf1bc5075582363f, 0x1609e1fceea6ca88],
    [0x6601d82fbabad65a, 0x9426da5f482ae574, 0xe11f6550ccbd6a2b, 0x124f27013e00d9b8],
    [0x2af4a7d8328071bf, 0x176a0461d8f6e047, 0x71b811ee87050e9e, 0x2c47c743ff1069ae],
    [0x20349281d849d746, 0x56b683f5eaf15594, 0x424c68192aecab8f, 0x11a058b976dc5fb8],
    [0x27c7e84dbee5d7a, 0x19817580562d8482, 0xf431eb27a65f792b, 0x2222ec9d6eb62f5],
    [0x2774353ea37f1fff, 0x9cc7b32a76c532fe, 0x905fc05dcf98584, 0xf866b167acb845b],
    [0x1ce2452ed2758089, 0x111d16be06e4f90e, 0x13bcd825e1f0df47, 0x7197c02fc0c5f1e],
    [0x22cad7fc9b296c66, 0xaada19756bfa2dd2, 0xf3098bd34ec2916c, 0x99aaa6bef62d6b1],
    [0xec961e3eff5d16, 0x86cd2c4ded5f1256, 0xbf76b45124f771c4, 0x1a210aae2dc13bd0],
    [0xa83374b363cefc61, 0xd41d3d3820331152, 0x97132edc6219ee43, 0x4ae93e4ec96ef4a],
    [0x551600a17e9c5c06, 0x6d6b3204952c5763, 0x57960fa14aa526f3, 0x2140d4f69e842e92],
    [0x3883e2e379722303, 0xc9bdb2b3d2553426, 0x724b2cac0f79106c, 0x16f77df72961ff15],
    [0x8f2cbb40f637e506, 0x3a5aebcc2204fb4e, 0xa88e194dd5564114, 0x2a679813106d2d1],
    [0x4edadd5e0e58a361, 0xa6a33221fefe31e7, 0x79bbfcd7bffcfdf, 0x12582d2bfe22fab8],
    [0x98bf3b3f97d91f21, 0x97540b7d3d9ca707, 0x3ab77d04c90727eb, 0x390e71fefb45b22],
    [0x86966832584f82d5, 0x622d6f7579857ff9, 0x300aaa49b9ab8afe, 0x26b440f48d1c54c8],
    [0xe2c3e644e82b5bfd, 0xe62974b0a219f55b, 0x8d04bdb371b31bdf, 0x1dea175296f5bb23],
    [0x570de886cf569098, 0xd6329ac3c34712db, 0x8ce3a1fafec88da1, 0xb1e797eee3f15b8],
    [0xf6df9b6932cc812a, 0xc86bdac7b39dc5fe, 0x9f7d80aa510ed423, 0xe0e6eeab1dade82],
    [0x707220a2d6060af3, 0x17d933c08491c23b, 0x3f06728f5db838c6, 0x2cebbd5b0d62b44d],
    [0x16b5dbc93aada42a, 0x4b7f4ebcff8c5e29, 0x16fe4e845b1858b4, 0x2dc31eb7528e36ab],
    [0xdf787246ccc75f2c, 0x156202f622edd7a, 0x977c89984273b17a, 0x1eb3bec02ab6b2a2],
    [0x765057a2d025a67e, 0x5b195b3c8b0695c8, 0xccbbfc429980c2e6, 0x220f79359bc26509],
    [0x6926dfff31f24806, 0x83770740ede60e72, 0xf869c666a1f9feb9, 0x1590491b1dbde002],
    [0xae7ddcd0b3d7257b, 0xc39efcfa6b34e12d, 0xbd1e90c3d84f0bcc, 0x2feea161ac374df1],
    [0x22bac1dcb33534d8, 0xe1c5e83659b05b05, 0xc6c3c93ff3eb7f37, 0x1a29866fc7a388cb],
    [0xf18aa86cd03574f6, 0xbcce7f4730915cd9, 0xa088f17687da77fd, 0xb8199ba3edbfd7d],
    [0x92400d60b98d6a2d, 0x933a76ef48f203fe, 0x8d076f7d6ac43730, 0x2791b7c58a031d03],
    [0x9266f28ca846019f, 0xff37ed616f19533f, 0xf31439c8f2b0ef06, 0x2f454625556eacc7],
    [0x3bda7e8e2dbefc7e, 0x10aed1a1a4456e4b, 0x1d448303abcbc181, 0x249369afe3c0b211],
    [0x84ba3223582de54a, 0x5607fbd61e9d464d, 0x5ad4509f3d44d7c2, 0x12edc078ee15bebc],
    [0x64579d98bba260fc, 0xa1565af42558a04c, 0x679be562a7a84163, 0x22580da134a629da],
    [0xad6c0b14a5b0e6e9, 0x1a650c8f0f101044, 0x6cc38c7ec04588c5, 0x1dda309f47e45f9a],
    [0xd86bd789c499482c, 0x85468d4b5af36779, 0x3cb943dcde6c6162, 0x2ad483577232eb39],
    [0x622e6e676c221847, 0x6349d34cc99584e1, 0x338b9828e4858f95, 0x28ebef81b1b34667],
    [0xff2551f2cd17233f, 0x1e7ecc4f4e76b705, 0x72f991c448a1511e, 0x1352a39d4ec27f0e],
    [0x570de886cf569098, 0xd6329ac3c34712db, 0x8ce3a1fafec88da1, 0xb1e797eee3f15b8],
    [0x96fcdb8fb70e4cef, 0x3521f05ba999035, 0xd5f66b3e1c1ad9b2, 0x2697ec9fcc93302],
    [0xa4494fbb2a628c48, 0x66831571e2aaacc, 0x826384ece846813, 0x957519127bd1afa],
    [0x5b53dc670de8d395, 0xe3ecf19a45e4e485, 0x787f7b37c59fd309, 0x1d8a3eb38e9a520],
    [0xc274d1227afc90eb, 0x3fcbf6fa6aa3da48, 0xfd500351378a1c87, 0x13ca248a44825ad1],
    [0xa72a11c89ffb99ae, 0xb0f61cdd119ca66b, 0x48e09d5d5b35acc7, 0xde6ab6ae9851601],
    [0x4b5751da9470fd57, 0x3020409384269ba2, 0x1d4e7fe5dc1f596, 0x6177434dff8487f],
    [0x3bd30a4e0626b6e5, 0xffecc1fb8be9b631, 0x5406290ea773f0e6, 0x195ff62cbbd66aa7],
    [0xadbed45b7f224a04, 0xe4336edffda8d3c5, 0xfd548bdcf531da28, 0x17ca97378ab5b95],
    [0xa51a7e62907669dc, 0x38cef3a3e7bee367, 0x98c69fe24b70f960, 0x5b258f2284fff07],
    [0x93cf54bdcfe75b25, 0x51754fae0750094c, 0x6908056f5c4862c3, 0x20a38dbc01d5a38c],
    [0x8c61854c6afc6c84, 0x20dc73ec56bf1674, 0x1f6581d40e0407b0, 0x27649f4bceebf6d7],
    [0x22338cc53e19fd5f, 0x56831af7133a79a6, 0x1b7b92bfd51d12e7, 0x12eba7df6b9e4a5a],
    [0xd4328bfcd4dd6db1, 0x4cc1605c779e5300, 0xd508b5584d1cdbf2, 0x8487f84ccd636bf],
    [0xe6babd8089746bb3, 0xaf57e89d045b69e, 0x5487670a4cc04374, 0xe780d26ee909fc7],
    [0x7947178b58421d30, 0x5004b4b29507158b, 0xe89c8b81a8b883bb, 0xa58128a2fdbf500],
    [0x2bb37cedd04e9695, 0x3aabad1d705435fa, 0x7e4eef807ecb493c, 0xb680246f8aeb38b],
    [0xe605c1dab5721877, 0xbee2c2f434bcba5c, 0x48ad9f50e4f18c75, 0x2909a2616f3a24ab],
    [0xc886af59bcfac0a3, 0x153c79c964b44b35, 0xded43c6f14c92025, 0x143f55ba8ee25793],
    [0x570de886cf569098, 0xd6329ac3c34712db, 0x8ce3a1fafec88da1, 0xb1e797eee3f15b8],
    [0x1c6c98a366d5e28a, 0x737006cc1099f0cc, 0x85d700b4d991a983, 0x216f405b93971c6d],
    [0x1f35205975b49020, 0x3bb0f76744f41f2f, 0xf8db74ae8764f649, 0xefb44ff1e32edd4],
    [0xfd5188ce3cfa93f1, 0x65e630a0de0a2f4c, 0x9ae43a4865b821c, 0x125e52e4d58e8598],
    [0xc4aa084b1174b929, 0x9b9b22b52a1d47aa, 0xc57f60bd33a174e, 0x4c652e865b682c6],
    [0x30853a32af5b011b, 0x4dce0ab2becfa07b, 0x80dd9b65d5686075, 0x9cad80a5de2e6e2],
    [0xe7b035d46d9aa6db, 0xc7a52d7331dcfb34, 0xab3563b6666160ae, 0x81544e3cace3761],
    [0xb2651fcd35916a67, 0xdec6ca6fd0f3d2c4, 0x7c4bdb1c751fabf9, 0x29c9f89966182d3c],
    [0x1c04e3e241db0e5e, 0xe43251ca5491c2e1, 0xd3423dd2829bc059, 0x25ae65ab6ad76f18],
    [0xd68644b930e7c317, 0xf47a6435beb00bd8, 0xc33ad7c1dcd41c61, 0x1821e88b8cdb1686],
    [0xe57c98d3bc8f586, 0xe5513ec28994a6f6, 0x50e563b5c4fd059d, 0x1abb95b6e33243a0],
    [0xbf282afd21f7242a, 0x7d87745b3abfba5, 0x301bc1fd4edd3885, 0x110d213a836478aa],
    [0xadf76d8f81990588, 0xbf6d1303a1f8ee4a, 0x68ae0137850dc2d2, 0x18edb2d105bb53b7],
    [0xf4ccb84a0a6e2c27, 0xc5545f2abcc1fab, 0xc4c0de5b07dc4c9a, 0x1e53e92df6c53ece],
    [0x3f44b73fe18c0e36, 0xddf33c84a8b5cfe3, 0x74e64c393b807cd, 0x10fcb817e10f69f7],
    [0xbccffdc6cc44db98, 0xc9371dedb96f08bb, 0x3543b6f9800bb7d0, 0x2b1d8c11fc652c59],
    [0x25f1dc667b6cadf7, 0x5cb32828c397cc81, 0x5f8d51e11336e9c6, 0x19f473e40c05676d],
    [0xf79750201f1fcd01, 0x7ecb80c51be17d47, 0xde1bdfe25cfb8681, 0xfcf3a4d9c6c3392],
    [0x19af8d6085d70822, 0xb9f62652b1c0626a, 0x9673a7d04736fe15, 0x23b02d00fe263488],
];

/// The values of the sparse partial-round rows for width 10.
#[verifier::opaque]
pub open spec fn s_vals() -> Seq<nat> {
    limb_vals(S_DATA_0@) + limb_vals(S_DATA_1@) + limb_vals(S_DATA_2@) + limb_vals(S_DATA_3@) + limb_vals(S_DATA_4@)
}

/// The sparse partial-round rows for width 10.
pub(crate) fn s_table() -> (v: Vec<Uint256>)
    ensures
        v@.len() == 1140,
        vals(v@) == s_vals(),
{
    let mut v = from_limbs(&S_DATA_0);
    let mut part1 = from_limbs(&S_DATA_1);
    let ghost pre1 = v@;
    let ghost add1 = part1@;
    v.append(&mut part1);
    proof {
        lemma_vals_concat(pre1, add1);
    }
    let mut part2 = from_limbs(&S_DATA_2);
    let ghost pre2 = v@;
    let ghost add2 = part2@;
    v.append(&mut part2);
    proof {
        lemma_vals_concat(pre2, add2);
    }
    let mut part3 = from_limbs(&S_DATA_3);
    let ghost pre3 = v@;
    let ghost add3 = part3@;
    v.append(&mut part3);
    proof {
        lemma_vals_concat(pre3, add3);
    }
    let mut part4 = from_limbs(&S_DATA_4);
    let ghost pre4 = v@;
    let ghost add4 = part4@;
    v.append(&mut part4);
    proof {
        lemma_vals_concat(pre4, add4);
    }
    proof {
        reveal(s_vals);
        assert(vals(v@) == s_vals());
    }
    v
}

/// Part 0 of the dense MDS matrix for width 10, as little-endian limbs.
pub const M_DATA_0: [[u64; 4]; 100] = [
    [0x570de886cf569098, 0xd6329ac3c34712db, 0x8ce3a1fafec88da1, 0xb1e797eee3f15b8],
    [0x7aaa09be4c630e27, 0x9fe6368ff097eab9, 0x82624f25766273cd, 0x2fe429db8068e61b],
    [0x4255c6b01648b690, 0xec9e3593c67de12a, 0x3365d21fe760c7df, 0x2e75086794243908],
    [0x7dbb96f5c21ba17f, 0x29991b8324abd6b0, 0xf7c01486ab0d603d, 0x23237985a96b177f],
    [0xa31d8131ea5baa85, 0x1d00dc1c3fb83745, 0xfd429af92c910db3, 0x15ccec857b25934f],
    [0xa675764660eb56d2, 0x5fb62d074760806a, 0x509e76c331e6b22d, 0x17102ad2d98043e5],
    [0x7b71b8f989cf9812, 0xbee7ad0bf4eb7839, 0x1c81dafa8d5d4869, 0xa4ecaabde9d1ea1],
    [0x737a468d4d887c8f, 0x14923981940f5542, 0x8a1512aecc8ac377, 0xec1821648fddc44],
    [0x65c0832af543e415, 0x84c1233f6c5fdf5d, 0x137eb76941c41207, 0x255a493aa4becd9d],
    [0x727678fd9ab7ef2e, 0x1682af4c8658719, 0x5249294d9833d59e, 0x120f44670301b143],
    [0xe57c98d3bc8f586, 0xe5513ec28994a6f6, 0x50e563b5c4fd059d, 0x1abb95b6e33243a0],
    [0xfef39daa58a39923, 0x9e0c8dddfb641131, 0x71ad10618b177259, 0xa5b604c958bc900],
    [0xa18cf4f907c1a6fe, 0x39adeb1190592bc, 0x2baca345b7c19f61, 0x24e82df587395379],
    [0xaee3dfbb90541581, 0x8e54b5f4537cd018, 0x417e110fd9e83207, 0x10e3349eefd3a112],
    [0x9527184a525fcca0, 0xeca5679c90c843d, 0x9499018c96f5c587, 0x165adebe00c7ba01],
    [0x73571ff862d89c3, 0xd65c6b7d4233f32e, 0xe7e0e33dd8ecbe62, 0x1fb81218feeedf4],
    [0x82b8460a8d603afa, 0x58377b108f8b020c, 0xaafae82ff4499d11, 0x1be2802fbea51003],
    [0xd81e696de6398769, 0x2c66cad04835f4fb, 0x55a1e45e28ee51ba, 0x418081de8c29583],
    [0x9f3bb201e7fd6716, 0x5209aa6ac9f14131, 0xc6fe438698a7198a, 0x1f3e937ab29f3a88],
    [0xe611695e0797fc3c, 0xc96f13dc2827a8e5, 0x2cb7b5ff70484aac, 0x113e968769b0ea3],
    [0xbf282afd21f7242a, 0x7d87745b3abfba5, 0x301bc1fd4edd3885, 0x110d213a836478aa],
    [0xa693b38b5cf9a242, 0x28aa7319e2eaa094, 0x549f0f91b4f4a9b6, 0x2cdee0c635a4fcd9],
    [0x29fb6b96dbd8f0ec, 0x6e49925150f1784f, 0x577b465746de8e28, 0xd60f0585755d48],
    [0xeff9ccb8aa299c46, 0x89d02519f3052e87, 0x626ccc61453236a3, 0x2168dcf216d8369a],
    [0xbf3a806de5f63cef, 0xfe9458be15174cbb, 0x16f79b28c1fc1dda, 0x3530dd962ef23dc],
    [0x3f670781a21b0dbd, 0x42892aa36e2d0a79, 0xc1099557e58e642c, 0x1cedc6d4e1476741],
    [0x9dff9e4904b443d6, 0x808c9071083b0a33, 0x6bfaae9e8bbb1c69, 0x269c8c139a4f61e1],
    [0x94976f3a28bd30c6, 0xded5bc687c6ff971, 0xd277912e022fd6d0, 0xea7bc52503e2039],
    [0x6e6441e052a23b45, 0xbfa4127296e497f8, 0xad1aa750ea0fa3dd, 0x2180b9eb156eb33c],
    [0x207dfacdb657bbf7, 0xe319bd2fc0619c99, 0x1e45b529494fc8a7, 0x18cd1471430adad3],
    [0xadf76d8f81990588, 0xbf6d1303a1f8ee4a, 0x68ae0137850dc2d2, 0x18edb2d105bb53b7],
    [0x470b44958f57ef15, 0x3f42071a17c6c05f, 0x82a638d8c8245081, 0x2c962d7d54a98c3a],
    [0xd1e0ece95a449345, 0x9e09fa00fce87929, 0x8dace5e4e867f510, 0x1f495e9301431498],
    [0x6bc33e5c31faef9f, 0xbc30927ef185c635, 0x55f610397df0794f, 0x262903f36acf0dc0],
    [0xe4c2fb982455baa2, 0xb908cb2b98b5fbe1, 0x441ada966c8b3ba7, 0x1b7e922b3dd503e6],
    [0x74cae5869e5ec20f, 0xc163bdedaaa88244, 0xe5f4eccacf11c25b, 0x1a88ae2fde12ba32],
    [0x49fc76362bc2b97d, 0xdc2124ae648e2cb5, 0x712b021915059dc8, 0x23407728269c70fe],
    [0xaa25f4d084cfda57, 0xe0ab95e3cb17aedb, 0x3d28baa9fb5b5802, 0x12ab318626d511c2],
    [0xcae04faa225a2e1e, 0x3e9acaf3d693aa64, 0x38950e20a9d4c4bd, 0x1cc69d8f34ee8778],
    [0x44a003b7141825ad, 0xd5fc2821fc918c08, 0x530b52670b1e32e2, 0x23d0fa965e920dfc],
    [0xf4ccb84a0a6e2c27, 0xc5545f2abcc1fab, 0xc4c0de5b07dc4c9a, 0x1e53e92df6c53ece],
    [0x9334e5470438b454, 0xdaea067fe49e3f1d, 0xb67bcf1d3e54da00, 0x2bc761185f59efb7],
    [0x5ad07976a5bc0263, 0xbe930c46fee5a30d, 0x8a1d91efaa98950a, 0x124331e0ecb1d980],
    [0x52a4165395cca786, 0xdf773c04baa097c3, 0x895c2ef8bc0cf545, 0x46887724f29321],
    [0x96c40bac3bfbdd33, 0x19f7d43874357076, 0x39eada69b904c91b, 0x247460ad4580a186],
    [0xf3b6392b6f1f4339, 0xf707b7d425ba3c09, 0xba502d20ed833def, 0x265412a4e3b5560a],
    [0xa3e5d2335a01e90e, 0xc18be94f1de3fce6, 0x42e0458aae19c0a7, 0x2ad06fc9f816845],
    [0xbcbd72fd8000c6f2, 0x2b0835a403c7227d, 0xc1b6591cb6a3b060, 0xd1e34192343d66f],
    [0x321f6d8537f98970, 0x70ee2ebb410617d2, 0x381631d8e5dd357c, 0xb565179887ee30e],
    [0x4f56393c56d69460, 0x2a21e19b29140085, 0xd728ddefa3091890, 0x2ea6b32af37cd765],
    [0x3f44b73fe18c0e36, 0xddf33c84a8b5cfe3, 0x74e64c393b807cd, 0x10fcb817e10f69f7],
    [0x6eb9982ac553428, 0xc844c94b56fc0bb8, 0x89a0be55e44453bc, 0x2e450d1fe7773c98],
    [0xa66c894d637e89b9, 0xdd3d3f1947371215, 0x8930cd69076f9baa, 0x2f421fcf54d77dd3],
    [0x35f9ceb07bf40d53, 0x180d2ecc33854cdd, 0x4f4b7dd2d8a2f8a5, 0x13276081db012d1d],
    [0xb4220ec9a7568a2, 0x7c13702d86af39ba, 0x8f3c5735334fb1a0, 0x144d5be38d44c5bf],
    [0x1cabd2c49aaabf6b, 0x5b18f4bf773fa105, 0x8ae99c7a73abd59e, 0x12691b599d32edc4],
    [0x1644a626498218e4, 0x68e4444ac691764f, 0x9b9f850c3d74be66, 0x578a55f0fda2990],
    [0x1c2e0d8a49de64be, 0x61d6ffcf7efa1aea, 0x407bd26b3cd47bca, 0x12e3b04924b2cf6e],
    [0x70926423ff8c242f, 0x2130086da4d5588a, 0x6760a16a300ba720, 0x1162a56ed3bbbb4b],
    [0xa9d85f739113c50b, 0x8baa3fc714c2575a, 0x614eacc4be335293, 0x3340cacb04d5a85],
    [0xbccffdc6cc44db98, 0xc9371dedb96f08bb, 0x3543b6f9800bb7d0, 0x2b1d8c11fc652c59],
    [0xfcbf2b28df6b4a0d, 0x4e86f4ad182715bc, 0x341f72f6a8dd63a9, 0x25c0f87c946f375e],
    [0xbb9868e6df24485e, 0xc70c0b437ac23ac5, 0x3d4c1882039ddb37, 0x543b2bc66f3b2d9],
    [0x96a99d77fe927066, 0x5f5bffa8028ff52f, 0xb0301eb40adfa243, 0x2dd117218538e8ac],
    [0x5a1dcb939b7fc6f5, 0x68136fce65f2fc5, 0x2daebc200efdc8ab, 0x269b06b31e89ff13],
    [0xf9218c38c1a0bc90, 0xaec552fae9518dc, 0xecf616d7d28551cb, 0x20d4401cbbf92877],
    [0x8a860a5767d2feed, 0xffa38e14b1faac19, 0x5fb73b08c3414833, 0x2ee2da24b7f8e703],
    [0x3f3ff49bbe61c8e7, 0xe679c5bb0dd78540, 0x47b9c13b3a36bbc7, 0x6dd89fabf925468],
    [0x9f33400f1d17d652, 0x94565654597e4277, 0x9410c529b62a62aa, 0x1360f719034572b5],
    [0xc0ff41dea8180628, 0x6db983e496ea0519, 0x767f0152840e7fc, 0x15ff827e034c02a9],
    [0x25f1dc667b6cadf7, 0x5cb32828c397cc81, 0x5f8d51e11336e9c6, 0x19f473e40c05676d],
    [0x3b25558cf3d054b6, 0xfcd105a490a4ab94, 0x8911ae065b985388, 0xbfe6fc08e2a2e1b],
    [0x20c601129c16660f, 0x73b7f9b3d63aea41, 0x14fe7dbfc1bfa297, 0x203d9ee6462a5869],
    [0x4a79dca80e52fe24, 0x9c207d4d08e4bf27, 0x4834ca5b2a3831cc, 0x1b912abf2e1649ad],
    [0xc59dfd97e99f701a, 0x8571cb31bfd5c9c3, 0x864faf701dc8a458, 0x62caa3c9fd39b69],
    [0x72197dc6ddd9335f, 0x5b0bb98297c1545a, 0xb8f265eecd7e9327, 0x138c03a2ecea183c],
    [0xa57dae833cc701e5, 0xad7cd6d3533c3b00, 0x2fb6c50730e74994, 0x11589959fc249329],
    [0x85750d677c6b357f, 0xd012ed4357604e71, 0x5163ca00e3b0b825, 0x17b9facdbe747d7c],
    [0xedb2f2a7ddfe90ff, 0x45099aea50f1a362, 0x8a68c6dcb1924d1a, 0xc603d03f92860da],
    [0x947d78a568681147, 0xd6329d54cfceed4b, 0x48503135e4deb9ff, 0x5d56f0c844d1692],
    [0xf79750201f1fcd01, 0x7ecb80c51be17d47, 0xde1bdfe25cfb8681, 0xfcf3a4d9c6c3392],
    [0x31d913a7a540fd9a, 0x4e507ac597cb47dc, 0x7e7b79c3b68d6098, 0xc182e438257c4ad],
    [0x26ae8155760db8aa, 0xc94354737884fe6c, 0x646f35d3e07ee997, 0x25a1ecbd7e7893f],
    [0xc775cf430748ef1f, 0x689c088b2933a361, 0x8ee0275170cc9788, 0x20135ff263867f70],
    [0x36e2df14341c95ee, 0xebc6d8b71821cd53, 0x7d0064c7efa15884, 0x20e160f772998a2f],
    [0x8c07b70b2b96202a, 0xe704ab4b554ea5d, 0xba925a0471c7fbb3, 0x150df11291b680e3],
    [0x18ad922127b87054, 0x4b91ca856e7ad3f1, 0x2d0e65c2172c571d, 0x17572029e8e89720],
    [0x6009f8a4f1b7264c, 0x14b7349af8924e79, 0x6f8b3515d5e29cf9, 0xaff15650b805bff],
    [0xe47ae896f92a7d67, 0x11034b95384d98ee, 0x5e363ee5833dc014, 0x1a918fc117d9a644],
    [0x17db0c2dff04fc0c, 0x87c1e122e02ebb1, 0xc7de310d4872597d, 0x2e5618411efea30c],
    [0x19af8d6085d70822, 0xb9f62652b1c0626a, 0x9673a7d04736fe15, 0x23b02d00fe263488],
    [0xf1e8c2e01d54476a, 0x223d589cdd079362, 0x7793533730083c25, 0x2ff4d0b8798a8266],
    [0x5e9e5cdd8238ac7, 0xee7ff9dcf179c08e, 0xeed8da7f2f4a63fd, 0x1d897f60e87fce5c],
    [0x3e92bf8ada3e278f, 0x1f7f4cc0fec91ad5, 0xf2ab2e4a3ad08fc3, 0xba6d4ceee2182d3],
    [0xf3ea81776b5b8c07, 0x7246266ae8fa5d3a, 0x947710461d87c775, 0x5ce94b8e9a60b28],
    [0x83c09a5da1ba0c65, 0xb75e590bb2d422ea, 0x48c29353e1107d6, 0xc346b046af03cb9],
    [0xcbaec34a80bdc7f4, 0x403360e56e88b6c5, 0x106423f2e67b0aa9, 0x2fbf8cc6ec7efb30],
    [0x42f41d62ab2d847a, 0x9490b912bb1f72f5, 0xd1e90b97749de390, 0xd064e72449efc11],
    [0x733ca0c71a19e1ea, 0xa8d1001c71debcf2, 0xf3cc2fc77d90afc7, 0x2a88e0c35617665],
    [0x9ea4d02f9975d446, 0x540b974d439c93e1, 0xda0c47adb12f6df, 0x15eeb3e0541bcf01],
];

/// The values of the dense MDS matrix for width 10.
#[verifier::opaque]
pub open spec fn m_vals() -> Seq<nat> {
    limb_vals(M_DATA_0@)
}

/// The dense MDS matrix for width 10.
pub(crate) fn m_table() -> (v: Vec<Uint256>)
    ensures
        v@.len() == 100,
        vals(v@) == m_vals(),
{
    let mut v = from_limbs(&M_DATA_0);
    proof {
        reveal(m_vals);
        assert(vals(v@) == m_vals());
    }
    v
}

/// Part 0 of the transition matrix for width 10, as little-endian limbs.
pub const P_DATA_0: [[u64; 4]; 100] = [
    [0x570de886cf569098, 0xd6329ac3c34712db, 0x8ce3a1fafec88da1, 0xb1e797eee3f15b8],
    [0x7aaa09be4c630e27, 0x9fe6368ff097eab9, 0x82624f25766273cd, 0x2fe429db8068e61b],
    [0x4255c6b01648b690, 0xec9e3593c67de12a, 0x3365d21fe760c7df, 0x2e75086794243908],
    [0x7dbb96f5c21ba17f, 0x29991b8324abd6b0, 0xf7c01486ab0d603d, 0x23237985a96b177f],
    [0xa31d8131ea5baa85, 0x1d00dc1c3fb83745, 0xfd429af92c910db3, 0x15ccec857b25934f],
    [0xa675764660eb56d2, 0x5fb62d074760806a, 0x509e76c331e6b22d, 0x17102ad2d98043e5],
    [0x7b71b8f989cf9812, 0xbee7ad0bf4eb7839, 0x1c81dafa8d5d4869, 0xa4ecaabde9d1ea1],
    [0x737a468d4d887c8f, 0x14923981940f5542, 0x8a1512aecc8ac377, 0xec1821648fddc44],
    [0x65c0832af543e415, 0x84c1233f6c5fdf5d, 0x137eb76941c41207, 0x255a493aa4becd9d],
    [0x727678fd9ab7ef2e, 0x1682af4c8658719, 0x5249294d9833d59e, 0x120f44670301b143],
    [0xdf008c4fcab50d07, 0xc5ad25784cea62a8, 0x5504c33a2219f5c7, 0x2376caeace68ac7d],
    [0x325e7432443ec02a, 0xdcec3cf811253a83, 0xb81c435ef9079a52, 0x1b1d1d024385e8a3],
    [0xf9b6d44b033f2139, 0x6671bf7c8ae708c8, 0xfc4a82442165dc0c, 0x77d21c1db0df5ae],
    [0xa4b99240ea0db532, 0xbfdebc3460c120b7, 0xaf4d342b420fcae7, 0x2b9c40e97f4e7e6e],
    [0x2b542a5f08cf976d, 0xe602c777c8701b1b, 0xdbb9566609c264c9, 0x2655c9fd294d40b9],
    [0xfcdf1a71d23af4df, 0x51258f80779112ed, 0x8fbaedfd46afdd64, 0x795d5914d87c0dc],
    [0x3efb4d8a376ae098, 0x8b43423b03ca4ac0, 0xd3e97cd8c67212c2, 0xc066f7a1e10d00f],
    [0x8c4ff954e7da3380, 0xcf4d60a2125a1b4d, 0x6f4ea10a82dcd60d, 0x1049076d8dd43ffc],
    [0x2c14f9646e733666, 0xbd83e122b095e427, 0x57474519b375ba67, 0x19a05dc5bdf1243b],
    [0x2eda3184dc5f2833, 0x3a86e75d4f1434ba, 0xf22fe81abdc80c40, 0x2a25bac660d90d85],
    [0xc657ee766f408d04, 0x257eaec8a01f131f, 0xb2e82013feb222a4, 0x11738aa054dba194],
    [0xead82506063120ea, 0x221a074e7a84939d, 0xd6d8acab3a944b93, 0xa5f2f19c49d9ae6],
    [0xc631de610d1eeb30, 0x4d2fde8aa4e60b83, 0x679394da2b702e72, 0x1b974a1b3977e8bf],
    [0xdc7ad593ef27a5bb, 0xa1e5ba44e482df13, 0x1337b5ed7ae8d2bc, 0xddfa16097871dbb],
    [0x2503e81a3772e5e7, 0x6e3a3eb80481efa3, 0x2e0c1da3b017f716, 0x29898ad417130c47],
    [0x4fc9417d3e463d03, 0xada779390f7bdd4c, 0x3ee595a16a2c2d54, 0x2c202548a326cadc],
    [0x45c2405d2e3cb859, 0x45455b14da41f790, 0xed9f47004e53b7a, 0x1a6947c4e87ca0c3],
    [0xd16f95fa6a76d80d, 0xedd5b50f9d6e882, 0x116a0c40d5811185, 0x192a1bc8e7dd6203],
    [0x76ecbe33f188bb02, 0x10c3707bde9dff3d, 0x27f0528eae1c25a7, 0xdd31347136b2eba],
    [0x1864762b6fcc7011, 0xe95d4012e7faacf7, 0x1f3b8105b0b1131e, 0x2d19334d3eb5a978],
    [0xa2f4999cde166655, 0xecb222d25c68a660, 0xc0879ea8b2a5c88a, 0x22683ac3c69cb11b],
    [0xdc9c843bf52a3015, 0x760d8beb3ef96c69, 0x67d21b2297f06616, 0xba8903c5a36e9ed],
    [0x1a93a0666fb8a90b, 0xbd065902802f2bd4, 0x9ec4a608780c3ef7, 0x12f77c314190ff64],
    [0x4ee54b114393aeef, 0xb08fd9db8a7657b7, 0xf56df39ade0accaa, 0x165e20a2a8ea0382],
    [0xa5b2048e6b7e32de, 0x982a438cb3e9108f, 0x217a0c9a2f675353, 0x1681ed2917381cd1],
    [0xdc7ad3c1d3b1c1e8, 0x7f3358cc6f224152, 0x58ceb7a1b9ef841a, 0x181db647369841eb],
    [0x83ef8a3ef8db5819, 0x61c04cfc022051f, 0xf9fa646c167c8864, 0x2481ff49ed6259de],
    [0x92bf777769055293, 0x31fbb4eaa0fa439f, 0xd9b1388dbcd6c937, 0x1beae2daa2a697af],
    [0xf586563945972fae, 0xa452d90eeb039dba, 0xd01d8b7ab0e9f88a, 0x248cdf26597e0746],
    [0x652ea55d61efc3e3, 0xdbcc24161d1e73ac, 0x492acd89edc7ae96, 0x267b655f26896341],
    [0xbbaea522d4e48d3, 0x4fc9b764fa494a3b, 0x49b01031fb614999, 0x713c79d90ea4f04],
    [0xebccf3bd795c65dd, 0x981736848c3bdc0c, 0x6e6ea4c4382d7aa9, 0x2a850b071614649f],
    [0xa8d7abfbdade4f03, 0x4d96a0f3935e5a88, 0xec6fd26aa192bb33, 0x7626c698acdc1e4],
    [0xd85255ee48b3ffa0, 0xb4a4d339d943ede1, 0x93e57e21e4c6fbd4, 0x174b9be8f3598639],
    [0xb41ef3e1a15a8fcd, 0x3eedf5e3999f9bf5, 0x9ee73cd35e511ac1, 0xdc075092f8f8300],
    [0xc792e0ee66c0ae6, 0x3b860da15f62f225, 0xf704849f4c181fb8, 0x26e7aa2ef4c91ee3],
    [0x99c1760d09921d37, 0x3e790cae6f41683b, 0xa860d6296d74b425, 0xc13692adcb86437],
    [0x41342f02fd627de0, 0x8849955efb968d1f, 0x3348e01462b564e0, 0x1a31b8769a838df0],
    [0xe767e2084796a71b, 0xd2c000af55af09de, 0xf8a5851510caee0d, 0x25718cec512fa137],
    [0x56f1c8a7d65ea58c, 0x235b3bda01521da9, 0xad16da2be2ed7eca, 0x1d9c8ad973feacdd],
    [0x700f1dce65779437, 0x8197aa045614a1dd, 0x8e93964c84da46d7, 0xc372107400e1f8f],
    [0xc6166ca8769ab30a, 0xe128b15f65806648, 0x4178c0700c9f81b1, 0x20090c8c6b2e41e8],
    [0xd03d0f45157935d1, 0xd1ac7760edad58d9, 0x20ba3147943c07e1, 0x269aa03a5af8a48e],
    [0x3d4d03894208ed87, 0x964913b2170aa9f2, 0xae58bba75c29249f, 0x304b87fcdd673ea0],
    [0x5cc43a25e20054c2, 0xf95c7bffb90a62db, 0x29036c497fcdfc23, 0x837fd755c29dc2c],
    [0xdcb6cb839aa45322, 0xe39996c15400d052, 0x942f5ac39c1498bc, 0x17189249537630e],
    [0x1c5a9f3c428b0e27, 0x38b6645acecf5035, 0xb2eca0aedd98f676, 0x27a6be35c45e5f46],
    [0x32090c60505de408, 0xdc95d653394adb4f, 0x5a76e19b5891f5bf, 0x12f1bd9058590ca4],
    [0xaf2d912dc5e8d1d, 0x51bff96ba5314bef, 0xbb972d0d18d0e05c, 0x23688bbb9cf13bb7],
    [0xda7fd65e920cc9bc, 0xd334c9f971d903d7, 0xafbf2dcb199a57bb, 0x15b9ffc66af5ac2a],
    [0xc8efaa73e446c02c, 0xf7e7c741c9b5e3f3, 0xb4ef84c71b44676f, 0x5abac870bca413d],
    [0xf2b421fe5bd91f44, 0x1944362035acb2ee, 0x6155b2db3923cacc, 0x1f9c5c5cd58a682a],
    [0x42eb766955c53efa, 0xcbb76c7276da8fa9, 0x3bd71f2a4d4f376b, 0x45f5c794d9706b4],
    [0xbf082096c2484918, 0xdb9fafa533e518a5, 0x82395a44f2826314, 0x278ec34449ad1c51],
    [0x5335e49297ed4bcd, 0x788c542263d4c1ae, 0x41b82b735dbf0b84, 0x19d489fa1fa1ec64],
    [0xcfb92af9dcd0867a, 0x60d69f1fe9922d66, 0xf6b4940ef2538c7d, 0x23bb4a76f79b77f9],
    [0x7a38dc0ac8d273f2, 0x938980e43985c560, 0xf6f059b75dd870df, 0x4660af4e63d1c9f],
    [0x82a8c0c9de580068, 0x32fccd21be961745, 0x8321df7aaf692740, 0xaac3c820280c765],
    [0x7ef594b7cf50f4f5, 0x213e8ffb7a7b4038, 0x1fb6a54c809d1fad, 0x1ee8c54669e6f0ab],
    [0xdc20584ed6fa6c7a, 0xdb6e56dece08c2c6, 0xb4318985ff3cb706, 0x25814a817412e861],
    [0x5fd1492a3a141229, 0x17033d2a2a946a8e, 0xdf902352e35eff45, 0x11c5eb9e0e5c1669],
    [0x6ffaa7033626d093, 0x8226c193ff86cc8a, 0xb5c80235a0a468c6, 0x2a2190daf9de7f46],
    [0xe8b1b0a61d572af1, 0x9d17045c75cca24, 0xeed91103d6523308, 0x6ff77c4c464330d],
    [0x93f59f69a4347771, 0xacc71b88207e18f7, 0x193531261770925d, 0x301cbe6e44e903ab],
    [0x5116787e8c527351, 0xbc9718a990288d86, 0x90db666759db3c82, 0xeb25d1b03226241],
    [0x86766a4c4bd7f6d0, 0x7d1071e924cb4974, 0xf0cf79707d56f767, 0x1ab80a8b5fbd7923],
    [0xe759e76e8ee987f9, 0x2837dca8a8610e9d, 0x8d9c713d50e117f9, 0x2eb8302f1381d911],
    [0x37b6a2283d5b8891, 0x1b5fa6d1df5ae424, 0xc77070c68b3790b3, 0x7c216183f03a4b7],
    [0x8bed5e39885d688e, 0x6e2e8bdf7e441262, 0x6191b37835889bca, 0x282e578ad2799ca3],
    [0xc8bcd84b95c789a4, 0x60ff5c57bc2f86f5, 0x2ba331d0185b43c9, 0x4190e2e1cf61360],
    [0x19567e646480c7ca, 0xcd7fca92cbc159a3, 0x8c429d7f8e9c9827, 0x20caf8e87737232b],
    [0xe5587e005cdc2f05, 0xfb35da934ba38c8, 0x7cc91da2f1ff30bc, 0x2dab478180d47e19],
    [0xcb974a21e9467455, 0xf8c2ebb5dfb86745, 0xfc5d54b7c39adff, 0x29e529381ccf3f8],
    [0x56220c629280aa44, 0x509a72a11f2d91d4, 0x2bd47066200b77f9, 0x20334328490fd868],
    [0x1cc3840bdcbbaabd, 0xe216f5b54742b9d7, 0x947cfe51a1f6f4e2, 0x19084cece4945482],
    [0x2c25797c20d22d16, 0xc7fd040077b0a164, 0x5603433a0ed2d424, 0x1f8f4c40a0cfe0d0],
    [0x8745821ff165b07c, 0xe2a22f09caa416ff, 0x398ac12b101aa7b5, 0xe9f931dd923dc4],
    [0x9b7f13a6daa3c93f, 0x221bd6ee0dc4a63, 0x13625782341ece1d, 0xda9d210a43aae4d],
    [0x37cbe93391022e7, 0xcedcf88d27185e7e, 0x4c0fa151fc3874b8, 0x831616989168d51],
    [0x988f95a1b5885fd, 0x6aeee72529234a01, 0x486ff150acc84c26, 0xe3999f52ed0ec7f],
    [0xfc5ddb70b80475d3, 0xa581e615b3df9c78, 0xf48748c8b4f66564, 0x185ebe5ac788074],
    [0x470acef4e779aac7, 0x271d5693ed6646a6, 0x24268079496ce366, 0xc38b0564f606103],
    [0x22c1773df67a7f4a, 0x52ea3f61ad3e9396, 0xc287d018d60c4d67, 0x6b50f490125ae0b],
    [0x6e52dd6f215bf37d, 0x46ee7d180c62a5d3, 0xc8a8052646c069e0, 0x2301d3af42d47b43],
    [0x18a9a876317ecef0, 0xfc494ce2569c5d8b, 0xcb246bf31a58f88d, 0x3a99be2c75989dc],
    [0xb84b9bccc2ae33b7, 0x9efcfd88f3da8e60, 0xef9aa6b915189f68, 0x29177f698bc5a897],
    [0x6da6c4e655d68e82, 0xe6cb25cdb1efd558, 0xf668abc045e0c47a, 0x209945fe475f6767],
    [0x3f7b2ed473c48c6e, 0x4e4b9bd35430279d, 0xca7a5799ed7b0373, 0xc0d8ee0a08021ba],
    [0xe39ab872b19c4fb5, 0x24df2b1f745d33a9, 0x28f01eb5cea39149, 0xbc5380f3490175b],
    [0xae576bc08d7f2084, 0x1873666105510f25, 0x88a9a85c95e462, 0x1fcfdb43cbd7992f],
];

/// The values of the transition matrix for width 10.
#[verifier::opaque]
pub open spec fn p_vals() -> Seq<nat> {
    limb_vals(P_DATA_0@)
}

/// The transition matrix for width 10.
pub(crate) fn p_table() -> (v: Vec<Uint256>)
    ensures
        v@.len() == 100,
        vals(v@) == p_vals(),
{
    let mut v = from_limbs(&P_DATA_0);
    proof {
        reveal(p_vals);
        assert(vals(v@) == p_vals());
    }
    v
}

} // verus!
