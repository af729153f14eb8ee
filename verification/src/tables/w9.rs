//! Constant-table data for state width 9: the flat round constants,
//! the sparse partial-round rows, the dense MDS matrix and the
//! partial-round transition matrix, in row-major order. The constant
//! arrays carry the data; the spec functions read the same arrays as
//! value sequences, and the builders return vectors proved equal to
//! those sequences.

use vstd::prelude::*;
use crate::field::{Uint256, from_limbs, limb_vals, lemma_vals_concat, vals};

verus! {

/// Part 0 of the round constants for width 9, as little-endian limbs.
pub const C_DATA_0: [[u64; 4]; 135] = [
    [0x1a580bd42cda0e77, 0x58d66e0c07b9cc00, 0x8be7bc457f2756d5, 0x2088ce9534577bf3],
    [0x742a58e0ec356be1, 0xd21c9e37d73dfff9, 0xf43cec6810356c94, 0x1b86e63908c4b12a],
    [0xd5d50d5a021a169, 0xa4ace33e16825f54, 0xf755212e2edc9d0, 0x9ca022ba1142d17],
    [0x38eaf613bc1aecd4, 0xe22c849c6d8ad8c9, 0x241f6aebe9449be6, 0x277e69d47a133804],
    [0x94545a235db6b269, 0xac9ba5457a18cec5, 0xe0ef425aa2ad931a, 0x17b57ea03754e24a],
    [0xa77d5a1fd74abac6, 0x75c9077755eb1a37, 0xa026e2c7c9392363, 0x11c740983395e0f4],
    [0xefc5a81eb37bc5bd, 0x27556a479c59b822, 0xfb7ea403515bab57, 0x1cd85529010dd7e2],
    [0x5a1f96f87b12f292, 0x2ced83d197aa374b, 0xbfa985de34f43d70, 0x2cb9354002cec4bc],
    [0x6544f9acd61aa32d, 0xac52f56fbbd87850, 0x23f27a3dad40c525, 0x1f7af98e08f68779],
    [0x9e2b8d423688ec18, 0x3bb3f1e03cc502a, 0x3cb74d73f1c8bf34, 0x1a0b807de55ef126],
    [0x7344047c2158d90d, 0xb799d6093f015910, 0x8eaee9b1cbcb2cd1, 0x1fd59a493af01f53],
    [0xc92af64eea079612, 0x98773853777b73c7, 0x3e743a2fa0103700, 0x1d3fa4c04d54e526],
    [0x2d02ed9c6582c232, 0xb51b259319ab9d8b, 0x9d597f449d0553eb, 0x1dc892a8d006e9b9],
    [0x1ba71120edbfe071, 0x9318a740c75b8ee, 0x9308d2699e0e9001, 0x2a0537379dcab76d],
    [0x9e0d446f5ffd4fa1, 0x6928dcf62f7dba6d, 0xf4102493bb96b4a3, 0x149d2cc892e7cbc1],
    [0xda572969037b5bc8, 0x5699c62a33a418eb, 0xa77ee000e757ac10, 0x1e49f2771b7510ae],
    [0x7ce0e4cb35c86c3d, 0xe9706155ff3dd43f, 0x9385cb62912bf049, 0x5649ffbf48a15d3],
    [0x89876271ed62897b, 0x39f4af516bc683a2, 0x626831d596fc5b50, 0x2698b359bbb3686b],
    [0x90b0593eb03c8cd2, 0x99b4f72ac70f61c8, 0x627ee727dac325af, 0xcd8c08efc5d2bc],
    [0x862789367b45b3f5, 0x3aea703814c701a1, 0x232cfe6c78884ec2, 0x36a9a9ad327aa70],
    [0x28a3705a6f2feb9f, 0x459f7bd4015782f5, 0x4746d697d38ff423, 0x2b5899d038a23482],
    [0xb2309344d2741aef, 0x34edcd1c31141420, 0x68f11aa03fa82da0, 0x2524bd7a19697441],
    [0x6a99c09ed0a79aca, 0x89bab1022dd790ca, 0xa35b668bd5b35424, 0x89189570593679d],
    [0xc7c9cb80b6b87ae4, 0x9b4023c387e8339e, 0x5f21a544c215ebd8, 0x6608970a49c0ea6],
    [0x451b26e81679309d, 0xb73cff4ce3f8a7f3, 0xdcfbd4be67fcd7f8, 0x283a6336d81e02e8],
    [0xe0e5218d62bff454, 0x3f6f396e372f35ca, 0x7927054ecdc96256, 0x14536ea1bd43af4d],
    [0x233a04a055648e00, 0x2e5ec23a34f75d57, 0xa324f409f290c17, 0x3036ae3f4cef8a4a],
    [0x183148e414db99d, 0x5b83e6fd9e1b4d93, 0x1b3f193c38140342, 0x22262d9a1cb0b594],
    [0x84be42c4a3ab4098, 0xbe8dc3047d0953aa, 0x11b66f4969724e64, 0x1555e4726cf5d78d],
    [0x6ac44897629e8544, 0x4b0411fa674ea504, 0x5e262406c27cecf2, 0x2a3e9e52ac1fa491],
    [0xcfff56a350371231, 0xd187662ddd0215e3, 0xc54939ff64f75e0a, 0x14d8abc9700624bf],
    [0x72396f6e53eeaaa5, 0x56af33ddf6f5e93c, 0x6cb793504a4c1b50, 0x1e0eb685b561bdcc],
    [0xfaedef98bcd10dbd, 0x11b4325c2e878d09, 0x9348ec2230270bf2, 0x2e7e146d9111c11d],
    [0x8af4523c390b09b2, 0x37f6498fb1162b8f, 0x755af33142bb8564, 0x18c036ef9e573369],
    [0x72526b4513ee1d71, 0xea6bac8fa881456c, 0xacdb300d6e359320, 0x195ce383cf5b4e65],
    [0x580c2d45d60e6ac, 0xeeeeee47799b322e, 0x520d416427e1ff80, 0xc12860b292d22e5],
    [0x65f522af19ec3ffe, 0x1e9dfd74fdd762dd, 0xeaa94078545f54dd, 0x2ff73b859f68c9b8],
    [0xc72af0f342e524ff, 0x38d3ef1972a01864, 0x2a89e838ff1a4627, 0x1205dc46155d9cc2],
    [0x62d93700adf0bc45, 0x1716e12f664fe935, 0xce745b6f70fba1b9, 0xfecb680ff19b124],
    [0x4528d051128cbc6a, 0xace0f0368e21eff9, 0xb2680c6e7aabf4b0, 0x234391b786f9498d],
    [0xd18038894ceaedc9, 0xee0184226387421b, 0x95cce70dbe3ba4c2, 0x2937dad89e2bf12f],
    [0x7dcb34446102b85a, 0x322f7e5750ce6c69, 0x2e2afd4749e70968, 0x22c7ab9a912c2aa9],
    [0x462455b90e7f600e, 0xae8c10c50796006d, 0x1780328ea6a0ca6d, 0x1bdd8241cc91cf09],
    [0x36da835bf3e8de11, 0xace18a719864184b, 0x3fb6ec3dc065556e, 0x49e3eb4d3bdb8ea],
    [0x2a34ec6d4622a88b, 0x4ba24f3217193989, 0x13e11ae962ec8288, 0x20a8611ee3a91a15],
    [0x2505ff63315ec376, 0x481782f2bb457fb3, 0x1ca383a1087bb1, 0x27d281f482154b5c],
    [0x5d3a99f42495a3f0, 0x774f8618699278d, 0xbc8306ebbf102a1c, 0x530c5ee45b6b16a],
    [0xe2a6c7f3952a8e32, 0x99bde67ca2917984, 0xa2ae27f56a2fee21, 0x256f402ec1732288],
    [0x5d091ddbc518e146, 0x1397f2f29911944c, 0xb9ef359de3bf01e6, 0xed544bd301d33d4],
    [0xb1d49d37bdd4f34d, 0x12207ab83194bf6c, 0x62ec3895f61de732, 0x1370ffbb023d66ee],
    [0x568994a040e9a04e, 0x2e755cdde1a6c128, 0xf47e44594f309211, 0x2a46d5538a5a9bda],
    [0x7944b2f137edba64, 0x1aafbe2c76d7cc38, 0x11069135ef2d095c, 0x1f3396d7db31c191],
    [0xa02a715ee206f18, 0xd6615ee5cb1df839, 0x6724c146b3d3b351, 0x225f3203fed96b84],
    [0xce680ef29db4c22b, 0x651e35b7660028d9, 0xe759298137d4853f, 0xb405da3510e7ab],
    [0xc3773b5f012374c, 0xb09274c010636c44, 0x630d906160abd114, 0x162df9d9cf874a89],
    [0xc3292669be8ce0d3, 0x8ed56bcc1424d45d, 0x47393d354491dffd, 0x26349d07dbfe862f],
    [0xcc7f225480e29903, 0x5145d4ecb970625a, 0xf851e0cc564a07ca, 0x1a75a0ebd02bd60b],
    [0x2670d789f8372ba0, 0x3b94bd1187fde409, 0xc4fc4812b24468a3, 0x22dc35316d34324d],
    [0x647c60a0019ddeb9, 0xa2a0b345b5d4e15, 0xbf8fd0d985ad999e, 0x1f260c2068ddd344],
    [0xb716e1bee8f6fa81, 0xfc728ebd374b871e, 0x964c3d33854bea3b, 0x43098906f60ba8b],
    [0x10ec2db4cb22f800, 0xe8a8ebe264a35616, 0x912f6cd189b75845, 0x17fc06025f7d0132],
    [0x5e964bfdf98b35f8, 0x6bd78d7a6e11a86a, 0xf790f64d592e46b7, 0x1853501b6a22237c],
    [0xf7b805dc7e8d4de0, 0x233067b186ddca81, 0xe96970fbb13dac19, 0x13f85a860c328d7f],
    [0x317019df0bddfbc7, 0xd92e58f1cab1c406, 0x56d24923c609eb3b, 0x2553858a2dfdee25],
    [0xc3e4744b2f72cc2d, 0xd4fbf98deef329ba, 0x1f4d5e21dd81e4e7, 0x18db95df1ef5cac],
    [0xaccccd9cf9933939, 0x544a43697b68fc6b, 0x9ff396f9a2fb282d, 0x218cfa400a003da6],
    [0x7cc9cc699ee8a3fa, 0x661c37044642f020, 0x61209127b95647cd, 0x15b192afdaf7ccc4],
    [0x5c78d15cf527034e, 0x74bc8149460ee35b, 0xf7766d712c7af100, 0xfa2a193cc8addad],
    [0x617f275cd9dc0fc5, 0x4a59ceacd9ef0fc0, 0x8628fa7cfc17eb02, 0x6f3dd41dd4a9465],
    [0xa3b5fc9e028bae2, 0xcd7b05a50caf7e23, 0xed1b18c4f371d582, 0x7a9cbf46611387c],
    [0xfc1c0c802dd06a0, 0xcbd590d85e93ed31, 0x38e56325377721fb, 0x135f98871577c5e6],
    [0x9ddf4090083bd66e, 0x28ffc38d958ddf25, 0x6b9faff17f6a926f, 0xe8f8ada4fffe0a],
    [0x1e5fce6bc5b9b6a0, 0xc1064db201be633f, 0x2f5c8dc81e15c91e, 0x225df6aa9bc49e9b],
    [0x7825274e9b9e0d40, 0x23ea1d885357a37f, 0x930991e63dc8f4d8, 0x171c3bf7f45ba571],
    [0x82409144feb9acf3, 0x2f0259f4c0470bc, 0xd5fa62352b306da9, 0x171207761f4d71c5],
    [0x45d9122fd9c19973, 0x211023d730a1c5f7, 0x4d916c5f8b752ab3, 0x26a8805900a6087f],
    [0x5728ffc76439d5b9, 0x27cac6ae3c24997e, 0x43489c357b69bc0c, 0x129433d6ab5a8f54],
    [0x664aa3e4057a6f18, 0xaf5d7745f1f0ac5b, 0xfc2ad938f9a742c0, 0x1c0c02bd9a4f7a36],
    [0x2c1fb06aef56dfb0, 0x5c24bd0e3ebdbac7, 0xc8ee6ddf752f94fa, 0x165ff7309c19adfc],
    [0x830489ccb49d384c, 0x43981a4d22ec361, 0xe48872f1c9077083, 0x26b387d2dcda5acf],
    [0x60066ef7c416be4c, 0x26c159059fdbf511, 0xb629e14dc8524e60, 0x136f73b20066bf9b],
    [0xf97f8521bd7c35b0, 0x3d85e69d3f5d51bf, 0xd2e88235c312d141, 0x2ab4b86e7cde3982],
    [0xe08f5299a560e3ca, 0x50c5b7a96860f75c, 0x1d4f6e1fbf9bcc6, 0x15ab3bf7cdd89445],
    [0x41f667ac1300c522, 0x4ff979a43897f7ac, 0x18aaa9078ce6c59b, 0x63757b1ee01190b],
    [0x6b31c7f7dc93f93d, 0xadf0962c8024e948, 0xb2dea43a9c924d63, 0x7235d5c897327b9],
    [0xf1df46e0fe537f8c, 0x1509ae31ac0e13f9, 0x294b90f9c73424, 0xc793e095f24f973],
    [0xe4619534b3e73139, 0x7a012bc208fa6671, 0xb08d9c33fe385b0c, 0x16c461135e143c6f],
    [0x59567e3aefd0fb71, 0xc750e28d14fb31cd, 0xdd4884dad62e4e86, 0x3695a3fcb6f3778],
    [0x44f4d4c689d1a1fb, 0xc254f553e55d4ab8, 0x96aa31cbd91bb126, 0x17501f012f54c4f1],
    [0x90db4dc624295cd8, 0x9af641e52cab0d53, 0x114d932d485fb4af, 0x20ff8c2701723ebe],
    [0x930d250c1b410bbf, 0x14c790624b93ec98, 0xf1ed9130f5844a0c, 0x605d48243e21cfe],
    [0x9fcfac45f50ea6e6, 0x76f82057973eccae, 0x4909bb748a498d1d, 0xffa032ab9b633d3],
    [0x363e9421f6704beb, 0xcc1a7d5f2ac32ae4, 0x9f835fccc83f52e4, 0x202d96f16f627612],
    [0x8a24106a1cbf0ad6, 0x2881e452adbf5885, 0x4cd482c2fe4bc3c0, 0x97e3fd4d35bd139],
    [0xbc978db85ac85ac8, 0x6a4ffdc7dd1d27d6, 0x46c9d04e2be45b78, 0x277c2847ae8ca644],
    [0x12e4f41e7d397e6f, 0x18578ad7fba9f77, 0xd33082a5fd6bd77d, 0x3410aa7a2038d75],
    [0xfe4559dabec02981, 0x8ced79c8aadbc45a, 0x28dd44c6338c3104, 0xff02f1d79d410c8],
    [0xe1c5542272b1e126, 0xafb1732b39a48dba, 0xb92d45a40fb76025, 0x49e781f466e2561],
    [0x9516a6713b884286, 0xfffb2bbda64f7b50, 0xad99805da9dec850, 0xa88c49a585914a1],
    [0xb0c9de4b0e039017, 0xc6e106589588189e, 0xb2edf2649f982863, 0x45e7bc4beec7107],
    [0xe089cfcb8470ae5b, 0xdc8e348f58904138, 0x239f9c49e36a2e8c, 0x828aea263b9f5db],
    [0xd3f9a4b39d716a10, 0x23817a3894b51087, 0xb40981cdfb33b746, 0x253955f1058a3387],
    [0x3ce2b29be13b2336, 0xf1caff9c92d3bb14, 0xc4d26b065562461e, 0x177c69bc3df7a463],
    [0xda57b7a22cb1dfab, 0xef7a6c7bd1d622d7, 0x103cb0d40e9a8bf3, 0x14d6068c39b97b9a],
    [0xfcaf78864b51f107, 0x42325019581b8901, 0x10366e0baea665aa, 0x25dd2b57b4799f61],
    [0xc12d69f8cc0e8ec3, 0x430133a0dfd4cd79, 0xce50bb2f16ec00d0, 0x305ec758fa6ebbe5],
    [0x82de746969c98865, 0x1284b37c9f6e714e, 0xe2183e31dd0175f8, 0x11ac0a8009ce27d3],
    [0x3e95f0aa293578e5, 0xa96a91219587efcf, 0x9a062c5a663a0935, 0x1d109b8b68f442a0],
    [0x44b2ebe780d08ae1, 0x56aeffc40bedad4f, 0xc80eef55d68fd56d, 0xc7b0a104e403dad],
    [0xe69ff867015cfa78, 0xf43191c6d2e78b70, 0x7b046942c0080d97, 0x1807654841ffb72e],
    [0x9e5ccaf2b2b64043, 0xe09454b75bde64ac, 0xb0292180dba78b6, 0x1b63da1a99ed90f4],
    [0x18c61176453c96d4, 0x8a62034e98d72c93, 0x180104e6a134450b, 0xd7e5c4d321bc6d],
    [0x985f41eb6a226f4d, 0x60c1905930644e22, 0x547239e3c6e9bb52, 0x2e252a397bdf1b53],
    [0x6626e9f4b9d57c81, 0xbdd21b8e2a675ea5, 0x9375ae6082e14e37, 0xbe3e9b1a8abdb88],
    [0x86731d68efb5213, 0x4804ce154f928c1e, 0xea62ae67b561f1d7, 0x161b52904a998f03],
    [0x5925e17f08564aff, 0xb8025c85b96766e9, 0xe726036617efd210, 0x852f56672fc06cb],
    [0x6b39518349b6cbf, 0x2a8719d289707ae5, 0x89f22dbe4fa0a6af, 0x21c4e873d8d03af9],
    [0x404b3ba58104581e, 0xc9b69c09309ae447, 0x9f9d4fdca582a052, 0x1ac41a44314ee18b],
    [0x1c991889ad1448d9, 0xfce94cf07fa7b14c, 0x98cede6609a1828f, 0xee333ba934442e4],
    [0x13ee3a4fca43466f, 0x8ee5de793f07fe44, 0x6c014fdb33190fa5, 0x2996c68d007ea8d1],
    [0x24cd07507825fc17, 0x4754a65477022abe, 0x357cc068eb259f11, 0x23f678b22fec25ba],
    [0xe979df6a5882855b, 0x9ec908aa2fa02729, 0xa464653454718934, 0x1f6c82714288549d],
    [0xbedf771216014354, 0x7168d343c78084a3, 0xb612926bfe89e794, 0x1f818e74b9c3a490],
    [0x603fdf61a323ef04, 0x9cb243705c1313de, 0x72ee1f0ebb931331, 0x206833435ec49887],
    [0x1342500805120d11, 0xf47934c72c96310f, 0xa632aaf4dc7cb7ac, 0x171785b03104df15],
    [0x6cc84faf06763db0, 0xc59b575b8d3ada6c, 0xefe83abb91d9f2e6, 0x20b7363891cd3589],
    [0x5b8bfe26536a325d, 0xa040638a754da55, 0x25cdec6f78d731df, 0x2d60609bc685d09],
    [0x17881d544ba301ab, 0x44312e5d58df0c12, 0x872d210b3b41347d, 0x1a91979ab3ad3401],
    [0x6a85d82b00419bfc, 0xe824a570d39c02ae, 0xf2c39d196dd4189a, 0x166546d364e42050],
    [0xb513959bc2f200c9, 0xbe4c8a22b2f82f13, 0xb7c44c57ebbb6751, 0x1ac2089f74aa7d61],
    [0x9f0491b02800ff0e, 0x70e7a9c6381eedbf, 0x77dba3cd272c6a17, 0x908ca864a04bcf6],
    [0x193994aaa126e72f, 0x77e9d83ace606293, 0x9242ed6a482252db, 0x24bc8a866d9b7bed],
    [0x8c8e54e269b0ffac, 0xd26522fec0931f21, 0x6c406b479e38da80, 0x17a33b4d4a082117],
    [0x9e05a8a78bff2e28, 0xe596af082545f329, 0xc13661026c0fdcfe, 0x12d6d179f18bf6c6],
    [0x7c022f6f31132405, 0x5a5a502d778ac696, 0xcf0c677fe58b7906, 0x15c7fb9fcf8f1a92],
];

/// The values of the round constants for width 9.
#[verifier::opaque]
pub open spec fn c_vals() -> Seq<nat> {
    limb_vals(C_DATA_0@)
}

/// The round constants for width 9.
pub(crate) fn c_table() -> (v: Vec<Uint256>)
    ensures
        v@.len() == 135,
        vals(v@) == c_vals(),
{
    let mut v = from_limbs(&C_DATA_0);
    proof {
        reveal(c_vals);
        assert(vals(v@) == c_vals());
    }
    v
}

/// Part 0 of the sparse partial-round rows for width 9, as little-endian limbs.
pub const S_DATA_0: [[u64; 4]; 256] = [
    [0xaa24925d158cac56, 0xd1c64bc22f1c556a, 0xcf0a142a3be27749, 0x190f922d97c8a7d],
    [0xbaac5df73d06ba99, 0xeba0f31110688589, 0x39a9274b97b08d74, 0x152fa675f3372163],
    [0x1e0b4563ddf68e, 0xfb894749d2686475, 0x1171f32dc6d2fa22, 0xa60560c145b7712],
    [0xe7071680d1b57df1, 0x3e7ada326d3f5f28, 0x116e7535240403b, 0x2402bc21cbfc23a8],
    [0x871a66201e3378e8, 0x843b0a81acbdf4d1, 0x3cb55ac927d68a, 0x26770c5cda1a14d4],
    [0x212668bb96ddf0fd, 0x84a1ff459cd0a1f7, 0x4137b2b7fe78100b, 0x4ef6e3423ecb4bd],
    [0x4c0a79abfcf96887, 0x5c56fc689a93d0c, 0xf2bb14fc6d8d650b, 0x16c6d4fe10c08c64],
    [0xd45716d06d905ff2, 0xc43d2249e725dc57, 0x606f94c1f214a3a, 0x1069cff9be3245f6],
    [0xcb19cfd61329f13, 0x84d4b7fb8a1674a7, 0x230694165a4f72d1, 0xaca974e63942bfe],
    [0x4e9561fa992040b7, 0x2ccd486c9afa9945, 0x7bdfd4978bd12739, 0x15ea665435c28d28],
    [0xbd3b47b133a744fb, 0xa9d532c0308187f7, 0xaf6beac75e34deee, 0x2545f2cb24c7a7c7],
    [0xa34ee12159e94b15, 0x1abf24beeb24ee50, 0xf3eedd790c7b94be, 0x29b34fa5653b3ac5],
    [0x9b90baab8e664235, 0xe4b60548da9cf5, 0x5b57f78094a1304, 0x3d5d55635085b4d],
    [0x9fc611e1cf592dc6, 0x2390a9177108346f, 0xd620b4bb3ec1f089, 0x2b4768592e18dee0],
    [0xaf7fe73ebd0b05bc, 0x758dafdd397a4044, 0x9bdbb201258054e8, 0x198e90e2b6f066f9],
    [0xa7a09cc99aef143d, 0x990dcfe087375143, 0xa67b80c5f7a3fb03, 0x209c25806fd4006d],
    [0x14d376cbad453b79, 0x895d366fa9d3763f, 0xf53be8b26683420c, 0x125cff70ce16a10f],
    [0xaa24925d158cac56, 0xd1c64bc22f1c556a, 0xcf0a142a3be27749, 0x190f922d97c8a7d],
    [0x3b2979351661c066, 0x6b6b16c56bf45ea2, 0x9aa8ea31876a63c0, 0x2fcc1e873c2460c1],
    [0x875876ab83840e3b, 0xf2be3b1e433aee26, 0xd211a6340c4a331d, 0x265596228bc6c434],
    [0x29668084a67efa07, 0x2663223fea98383d, 0x99666b4f567ee9bc, 0x13cd5d84d4458fdf],
    [0x2aed5aa1c2fc018d, 0x2d6854979472695a, 0x981d06fbe84630d9, 0xe4546898234e2c9],
    [0x1856d119ae8df0fb, 0x3b835eb9547d3ce3, 0xa2a93c8312591840, 0x15ead9f1be93476c],
    [0xc8ed6578b3d9e428, 0xe3186f4ba315ed5d, 0x73afcb978c53731a, 0x2209a03017696e3a],
    [0xa912310c69165652, 0x695e35af5f32f449, 0xb07f06af770b4c3f, 0x5b358d46bbf09ff],
    [0x6ed828451e9a4027, 0xa5000fb3726ba88b, 0xe114ad899c7dff8d, 0xd4ec14ac84189f1],
    [0x26c30e5eb5c63359, 0x2a2076efdc6ee94f, 0xe7e01e05868e41a6, 0x212a27391f1accc7],
    [0x6ee752f4b70b4848, 0x6cbcb1559c3f34ea, 0xbbe65fda50235bc1, 0x1cf3fedf016306b0],
    [0x518670773f74215e, 0x33a2f2662de98f06, 0x8097a8d1389d1caf, 0x52d3e0d566bd58d],
    [0x2173c31b10efec53, 0xdcd03cc1229046fe, 0xadc9c635d5e70b03, 0x2852bb73795f54c6],
    [0xe26b551b29cfdd89, 0x6ad54cbde1d54984, 0x89061de846512d34, 0x23b69fe902f42c34],
    [0x2449c9f675feaab6, 0x6af275aaebef1f40, 0xea6a0621d18bd434, 0x8a501e4d110e059],
    [0xfd71c285392f5bc4, 0xe2c6564131faab56, 0x562d008293a70980, 0x17f6697583d43520],
    [0x892f00107781788c, 0x2ba49401fd5b961e, 0xb01d2637963a9162, 0x1b7e8e80739ab54f],
    [0xaa24925d158cac56, 0xd1c64bc22f1c556a, 0xcf0a142a3be27749, 0x190f922d97c8a7d],
    [0x37166bba7c53acea, 0x3327826a09fe720d, 0x53b0278fbb2e9097, 0x1cad07b82878b8c1],
    [0x6db5f064cf786948, 0xe27d8c89a7ec7801, 0x949062a55133a433, 0x988724d5f424785],
    [0x3fc8204a0bec2d59, 0x3f6410a41170670e, 0x416733155b8135b5, 0x2d81921df5457361],
    [0x47c53f3170a58110, 0xb5435a8d32d35e52, 0x1b8312eae98495b9, 0x131cf6530e31b354],
    [0xc83be2e46d008692, 0xc84685eb832ff0ab, 0x89521b850e376f46, 0x26ca4df270856d7d],
    [0xda39210526a2930e, 0xb65eeda4a8d90cae, 0x61f45b882d08ce10, 0x148832d14674b5bd],
    [0x1b879fa6835b9dcc, 0x311b3375c0dbd1e3, 0x69e01d8bcd1a6fd6, 0x19395b170131e4b9],
    [0x4471d5a3add577bc, 0xa7cd5ec6e2c469a9, 0x5bbf88b4efad44b6, 0x2617b1f4ad2fdf61],
    [0xf2530fb6ae3cf24c, 0x84bb59a7d0d97dec, 0x40518c6ed6ff9ca0, 0xe0507aca633caa7],
    [0xeda28fea7f2a6624, 0x6a2177f3418364c3, 0xef3e084c2e523549, 0x176ed52c8a9f3f7b],
    [0x90c69938c1ad9eb5, 0x72335bf4530356e5, 0xd4e2cc47820f37b7, 0x1b1ddd3ed3c82536],
    [0x2a274be0146455ce, 0xd38235a1e34541b4, 0x4c12f2cd9442cdba, 0x13c8300e2bc52c8d],
    [0xdcd4273420cad1f2, 0xf1b9628cc80ef508, 0xfc01fe081832618b, 0x2f5239bdf0e8f441],
    [0xc6c0019bbbdda93, 0x496216429a3a5a3c, 0x2de2cb723d64cbb9, 0x21a41e1e2c6e492],
    [0x6aecf4570b4d751, 0xa22416870a8f6922, 0x3a61be70f3f2bae0, 0x3825cc9ed4f752a],
    [0xa7bb33a03a5238a1, 0xd02a8265f671cb58, 0x2bd6cb4687d11dfb, 0x16e3f668cb7ed8c],
    [0xaa24925d158cac56, 0xd1c64bc22f1c556a, 0xcf0a142a3be27749, 0x190f922d97c8a7d],
    [0x67949a627bcca82e, 0x718dda9076b74a25, 0xe41dd5ac38707f4a, 0xd94596be2cb2587],
    [0x64bf2ec2452d098b, 0xf7e23054bbf948da, 0x28ebcb12a7a01082, 0xda56e7fef653a75],
    [0x4c73a8aadab72c4a, 0x7c7b08e488244204, 0x19b8d34f4962772d, 0x22ed449e97526607],
    [0xc4dae8f29d66ca5f, 0x722390273c42c427, 0xff2894c105218dab, 0xca9d3e4986304f7],
    [0x3d179509f5041191, 0x7cbf0648040ed663, 0x2e184a8410ab0110, 0x10b01235bf874a5b],
    [0xac60d1f8618a6200, 0x26a7643c68f7cc42, 0x65d3220cbc84cdec, 0x126206165d8d9645],
    [0xdb30490707218854, 0x5615f26cb758747c, 0xe3aa6dd357f0bb7d, 0x4878d524f362da3],
    [0x78424f3c84d9adcd, 0xd5b01587aa8a1994, 0xaa157eb73855ef46, 0x21127103c61b8936],
    [0x8116500d11681999, 0x2d577a29fe250f1e, 0x1f55af2ced4e06ce, 0x15d5439ab67e845a],
    [0x433e7877358e2db9, 0x892dfd76737c7b49, 0xbe1b5c422ff830f1, 0x16a7318212f1751a],
    [0x33b8cb3e3394aa91, 0x5e395ff9a0747a2d, 0x4f5f0de11d5b88bc, 0x245579de75e5089b],
    [0x274b1955a8712a06, 0xdf093664716a75f0, 0x77c0ddc80bb7cd55, 0x2ee3d749e038889f],
    [0x6e6c8d4ac996796d, 0xdb95938df3cdad4, 0x4f9445969c33db2f, 0x277b64ed9137d791],
    [0x8461d468672e9571, 0x4be610300576e07d, 0xcfe51ec8331b999c, 0x28c9181f359dfa1e],
    [0x75551c6e9b5bb520, 0x907db755d1f06d2d, 0x4a4920d0a4a1f74a, 0x18a1ec6f905a4904],
    [0x9e0703a39f822906, 0x12ff762c1a19c369, 0x3a31bc6678b4087a, 0x269587fc49db8b93],
    [0xaa24925d158cac56, 0xd1c64bc22f1c556a, 0xcf0a142a3be27749, 0x190f922d97c8a7d],
    [0xf95935b4fdb3fcc7, 0xc33b6ed3866b4dee, 0x20636135bed12f56, 0x1c423fef62d7ed3b],
    [0xffa091fc35d8b230, 0x99de68c72500ba9a, 0xdc23821afad680c1, 0x2c39e9c9ffd3f1ac],
    [0x15991897d312933d, 0x5ba811aa0a0cdba6, 0x55178ffba022a54e, 0x200be427ad5d6442],
    [0x5a2bc33dfd98541d, 0x89428626a44293af, 0x5380dc3ff1806ab6, 0x5bc3aef5509b9df],
    [0x3beadf16022d1bc7, 0x5df793d73c5a036f, 0x49327c0865f7df01, 0x19d3a7be7f42755c],
    [0xac1e77699f31e917, 0x6547bfa2649b9fcb, 0x3e994252d479c800, 0x1fce5fb51256a4df],
    [0x7454797e1d694aa9, 0x2185f4f7ea270962, 0x305280fec1d16f0a, 0x24d5b2801c808c74],
    [0x2cf1bd0a449f44cb, 0x95d5be42f5e5cb90, 0x651e060442359102, 0x1b4a744a7602f165],
    [0x6188ad8518b419ee, 0xaff0fc77188801b9, 0xe2a2a20c6927618b, 0x221aa0d3a117f313],
    [0x1ade996431e0f282, 0x3abe446e206a02d, 0xd90119fc9c184c79, 0x2cff615d12e087e7],
    [0x410e647a57713310, 0xa15521c55e4b940b, 0xb598b1517a196b2b, 0xcbc5ef09419a755],
    [0xd43dd580fb36aeb6, 0xf63e3030d9c20894, 0xf0335b65a5e2dfae, 0x243e638c46a410be],
    [0xdfcb541a6bf3083e, 0x2a9b4e2fcce71620, 0x262d1a6232a4d8c3, 0x11ae740f93b3cbb1],
    [0x9d73b4b78846b145, 0x33c66db0f8a3524d, 0xcf9d5c2690dc83b8, 0x14ee58652277e60],
    [0x368285d42bced6d7, 0x2ee22d921a43d236, 0x4dbbe09d15420b77, 0x1bda443673db00ba],
    [0xdf64ba3321a12718, 0xab5e77d2eea4421e, 0x44837bf469091304, 0x2de86a4384d67c5e],
    [0xaa24925d158cac56, 0xd1c64bc22f1c556a, 0xcf0a142a3be27749, 0x190f922d97c8a7d],
    [0x6a9e1b24b1ddea35, 0xdaa2c53ed4ba7f, 0xe0a628bc85f7c2c2, 0x1b917b840ef31eb7],
    [0xbbc3de49009f8858, 0x9ea425c25e4ffbbf, 0x52798112aec65d4e, 0xc54f4f9747bf235],
    [0x6140340913462731, 0x4d93d5f911521cf0, 0x690a4419d1928b4b, 0x2ebdec8a92cdfa3d],
    [0xfb8ea43c375673ae, 0xc9c3db826844682c, 0x15960b5f70998323, 0x1b74699cc5eb6371],
    [0x152ac38fbbdaa61a, 0x1ce50c80252a3012, 0x4e18b88f63acf3ab, 0xe09a75d4dbde40d],
    [0xa5d0c3ac9b250c5b, 0x3e75cbfb209436f7, 0x6ef5c75f08788edd, 0xf7c0e52c6acfe35],
    [0x2b427a6c074df62a, 0xf7e358cb6c5847df, 0x11838e3ac03d2587, 0x250fab500f159fe4],
    [0xff7a0b02032b2aea, 0xfdffa80db18bf815, 0xa8b7aa90f6af3a4, 0xdcc8241d56d8800],
    [0x972de2a64fd810f4, 0x4ba39351bd325651, 0xb216af15dedc398d, 0x1a34b7894985f4d6],
    [0xf155ac3ee482b920, 0x7e7e5d31537d85ec, 0x262af936a8be70b4, 0x277bdbfc7a614412],
    [0x8bf0035e402c03f, 0x2faa7e99aca09d9a, 0xa8d72256028ea705, 0xd3a2e73d19987bb],
    [0x6984aff97c858155, 0x7117668022fcab59, 0x506c09b6e1596c13, 0x1c00718f76c7b7bb],
    [0x1bc1371e5c11fcb3, 0x365c0e482fde75e, 0x75eecb71009a2072, 0xdbd5f1c327ae5b7],
    [0x6e0fdd8b69a2f1d7, 0x8a7406fbcd5da41b, 0xab294824e2276bda, 0x867c2b4fea85a4c],
    [0xd456a47731a35b4d, 0x9a76ad7d3240890b, 0xaff9fc1da41662cf, 0x1d393af52503c0a9],
    [0x1845e47c70aa5db4, 0xbe4121a608606d97, 0x4ece8715dbdf4b9a, 0xc4efef6ca45633d],
    [0xaa24925d158cac56, 0xd1c64bc22f1c556a, 0xcf0a142a3be27749, 0x190f922d97c8a7d],
    [0x396dd7c267e5d3a9, 0xe5679ad45fb21c8e, 0x43a90fa68a9220a0, 0x280e2e4d9836fd6f],
    [0x6112408d1aab3b87, 0x4e78f8b5ef48a348, 0xa88ef70504cc8a44, 0x50dcf95a7b3b535],
    [0x2df1e60371acbd1b, 0xeacc961cc82dff03, 0x77abebc17ed03d58, 0x1ded90abdac843e9],
    [0x5211696cacc7c2da, 0x10d8f777319da669, 0x53ecd3df00bc7bb6, 0xc83114862faa4b0],
    [0x1d124ee1f9597056, 0x951cac281e720419, 0x6656a7bc9f8d6fb0, 0x2f38535fca1d0fcb],
    [0xcd527bccdfb31261, 0x62420b3fc3af4c0c, 0x9c9bdeb0aa12189a, 0x15a8a27ccdf7f31e],
    [0x163a6141d0d60a23, 0xfbba6ada49300d46, 0x17747450f2d048ad, 0x8538ca91007b4af],
    [0x73c7415dd954f229, 0x45e0af3437ee3dbd, 0x2b8336d6c74c8ed, 0x219358a11f299fe6],
    [0xc8f45e212331891e, 0x703170ef536e0c07, 0x82e68cfb6adf7a5f, 0x1a7ae67fd2b95fa4],
    [0x11f8cfe45521929a, 0x863e4bfa9a7650cb, 0x3eb431ef70e9955, 0x2d8a33dc859b421d],
    [0x2c92a912636772ba, 0x9b6890816e7305ca, 0x2e24b04c5f89c2db, 0x23e68686a4e6ab0a],
    [0x777d4f378465d03, 0x215e526d52dd369c, 0x8645754b95ed9edc, 0xc27986848ef557c],
    [0x31a1f846cfc24749, 0xe24e506f38196451, 0xf58f2e6ccb3aa062, 0x6e2cceaa215aaab],
    [0x15d7772512868b97, 0x24552abe39636c42, 0x2143ae13d31d0ad0, 0x4ca455e242a91ca],
    [0xd83feaf764ef4493, 0x74d5052d77309209, 0xc19cdb78750be250, 0x20107d5efa2baafd],
    [0x207047b109fc3e63, 0x70fb4c5460d6e775, 0xd8acdd215c16bc51, 0x284a8c5b8405a825],
    [0xaa24925d158cac56, 0xd1c64bc22f1c556a, 0xcf0a142a3be27749, 0x190f922d97c8a7d],
    [0xbac3bff74f3282c3, 0xe799da74e8ea6c2c, 0xb00834dfb430ac37, 0x2617b4b39592cb7e],
    [0xafb29e02bf9e9b77, 0x487d75d8811aaeb6, 0x25946324ff117f1f, 0x260555fed187679e],
    [0xab8e6e46bf1af27b, 0xff6206980b543319, 0x976c227b8be2b1d, 0x29d66baa1db480fa],
    [0x2042106eb0dd43b4, 0x9489be5791633c1, 0x3036c7567e0e3681, 0xcd6ba2405ef9e33],
    [0xd17e82e7fe9890f5, 0x885dbc2f449892bf, 0x8ef1ce3c0cf6ef6c, 0xbb6ef374a10b453],
    [0x7a4cd5f18f893c00, 0x16ee0012b69d6141, 0x2ec3ed8f73b8e1c6, 0x294e76b2d0fc3b73],
    [0x99c24f373e7f16ae, 0x3fed7c5424bb6a12, 0xa7008c7dc7ced5a3, 0x2a2d473497afdb60],
    [0xdb098889df1439ee, 0x27c0cbe99e97f8ac, 0x3e183dd8f585c784, 0x60533676e96c73a],
    [0x59cc711a06baf4e5, 0x661c870bc064fd33, 0x39d84de77d62f6cb, 0x4d3ad3315063085],
    [0x77d65ac7ab90058b, 0xf0c2c92d623f3652, 0x418fbca527fbf9ff, 0x23444c530e318b22],
    [0xf58b676e5c914b52, 0x2a789160f1ff73fa, 0xe8ee908965d634da, 0x84a073506da63fa],
    [0x10e4629fb1e15c48, 0xb2dda42233dadeed, 0x9440d513a4971e62, 0x6c1018af2ab1b62],
    [0xa6c9b7e9dc594adb, 0x3dcf7412caf17269, 0xf39373aa3c159e55, 0xfeae12c9ea34bb],
    [0x4efcc99694e51b54, 0x919eefc9d9dd47e4, 0x768aa1ca35edcf5e, 0x21f5f23b0e3f44f8],
    [0xf956c9e5413b168d, 0x2bab65487650f1e1, 0xae4443bffed0948b, 0x6209e20306d5ff2],
    [0x8fbcc12e0c7096b9, 0xe0e4b7e8c07ad212, 0x6be60f7ecc28e84b, 0xe981747daf6de6e],
    [0xaa24925d158cac56, 0xd1c64bc22f1c556a, 0xcf0a142a3be27749, 0x190f922d97c8a7d],
    [0x473479c74e6ae02f, 0x34b885a1e9f0fd94, 0x7a1aefdccc804a9c, 0x20802f8ba4a92245],
    [0xa1a767082432bfdb, 0x61772ae15de0ebe6, 0x4ad038d2482dc866, 0x19cac2ada760fa1],
    [0x4d65d9206c3c63f3, 0x6e5116f2bb1f3e02, 0x53113755869610b1, 0x2c484464a823c430],
    [0x8028640e5513b471, 0x78357e3072ad22e6, 0xe7e5f601102158b5, 0x20aefc9cd863f976],
    [0xc714bf6b255f3f6c, 0x98e02943bdb12700, 0xa50a32048c81feb, 0x1310a6b902d3736b],
    [0xc36a0b3bea12d308, 0xd5a36020f87b4672, 0xea526825aef8a8b4, 0x28a2e47b087e9828],
    [0xe0ad3c2fac66c096, 0x4f2c430f61c77707, 0x5100e4686e467aba, 0x2edacc0aa69661a6],
    [0xfa40c20e72e359ad, 0x108e704dfdcd7944, 0x9bfd2c2d83a00883, 0x23b811e8af4e671b],
    [0x6af397018f34187b, 0x6da45a3dd204e1e6, 0xc61870796bfb55ab, 0x36cf4860115229c],
    [0xbd4120c8d0fce65d, 0x34a7f516d6a8b1ea, 0x90ece731b725b9f7, 0x1ed097ff65262835],
    [0xa59b795c8d7469b6, 0xb500091a496bf689, 0x2b097e37feea098b, 0x2242d9a8c934bd0f],
    [0x6a8bccc85a456ef5, 0xecb3ec045028e9ad, 0x92c1f15dce5addcd, 0x2e1dbf3119ea6224],
    [0x77b2bf1aa76642b9, 0xb8a2f1ba395190a1, 0xbd63f5e91ee8d7bf, 0x2d034fb552635fa6],
    [0xc971947e66ecff2f, 0x2d32c2fd7cb3fcbf, 0xc07cca4bef17af23, 0x12c8e6f621ed980],
    [0x1b0c82cf5bd306b6, 0x2e8f2dce046f2f12, 0xa858acd30fe523c4, 0x548b4a31bab4692],
    [0x967ac5fc07a3df18, 0x1e33c4beb6f13777, 0xfbc70fd37205abe3, 0x4985d3b7fc1a4b5],
    [0xaa24925d158cac56, 0xd1c64bc22f1c556a, 0xcf0a142a3be27749, 0x190f922d97c8a7d],
    [0x2bd3e10d357bcda1, 0x1139d3cf00fa5ab4, 0x47130906d9f295bf, 0x176ad5e77dbf9eff],
    [0xedd19f2d779e41b4, 0xf71300057e7d994f, 0x97bfbdbdf5ff14d1, 0x37fc3c302395fca],
    [0x9e48444de48cbd81, 0x893f0b66c4d8eedf, 0xa5c1173aa40084c2, 0x67b7fa5f5b640ee],
    [0x5140eb7e1a9560d0, 0x99271337c29a9494, 0x374b8b175f1a069b, 0x1ef50a9851144552],
    [0x6bf7f11281c865ba, 0x354b0999e8354ca6, 0xceee318a3d82e839, 0x4a8f411eae9b96f],
    [0x58a8cfb5210bc891, 0xcc1017bd65360faf, 0xd547209c4644ac95, 0x17c90c447cd83ef7],
    [0xa7979552354b3f98, 0x57d43065f7c3c7d0, 0x1d502937c9f17647, 0x2b324c5a69146a0b],
    [0x9d4f1285dbe4953c, 0xcef85aa91bb7c91, 0x3465134f01533674, 0xcd0a626b860fcc1],
    [0xc76c8c574707de8b, 0x552a95da11c06402, 0xaf71bd826e87e155, 0x1f2baade720437f5],
    [0x5a55eeebf5cdabe5, 0xf970553a10bf8df8, 0xc0e6f1b265590359, 0x1ce2ccd7a415304a],
    [0xef0349fe3685d1db, 0xa3d8256354cfbc83, 0x647ee52fb4b3a177, 0x1498ca31f8887cce],
    [0x43fa737e0ef93bb3, 0x6e094c03b56dcbd2, 0x7bf3d82bf9f9e58d, 0xe6e210f18faca16],
    [0x5ccd128cae7e440b, 0x7fb064d287b28f11, 0x823665a58c105ab3, 0x12cf450b5228e1b7],
    [0x690aac68bb53fcf2, 0x3dd6f67b127fd2db, 0x3481d25eda60225f, 0x1fde1a9a7f3a9588],
    [0x21b2660a5576b192, 0x17491d592118ed7, 0xd0803113fda96bd, 0x16b2c4b1a4276fd9],
    [0x2ad4a95c95531436, 0x20d111ec34b7f7b6, 0x5a8ab9c08fe26cbb, 0x301ae24bfd116b2a],
    [0xaa24925d158cac56, 0xd1c64bc22f1c556a, 0xcf0a142a3be27749, 0x190f922d97c8a7d],
    [0xa15f314f1b705b, 0xb81b3cc57e229d2d, 0xbd8129636f847065, 0x887f2970f378099],
    [0x7f0d39dbbfe0cf5e, 0xca360284f262672e, 0x13901f8fb5dc1490, 0x19b3b01cb6aabb],
    [0x961a5730191499e0, 0xa221d9f79dde1d20, 0x2bb7b62451d8d21d, 0x1b3a6e328bf97c4a],
    [0x1b7fd35f9c2a019c, 0x8001bddc0ca17608, 0x6b66499f32e6261b, 0x170932e63d8ed05d],
    [0xa36293b3aef835e0, 0x2b4adb0e7e6e1b59, 0xfddb51340488569c, 0x1899457555eb5581],
    [0xaa1fa4c046ab9729, 0xaf03ef532ffca9b0, 0x26cf79280d675584, 0x164f7a46d01b3ed],
    [0x6073eb9aa7052aaa, 0x5f1d56b06a573772, 0x88526bbfd5601249, 0xea2ffdcabe97275],
    [0xbaff2fc922d0334, 0x9bff056d5d477f0f, 0x37d89cd708a6610e, 0x7ecb58097193ca6],
    [0xf2ccc1093a892d5f, 0x82511ac8dfe48cf7, 0xb715554cd3d55296, 0xf47e601e82ed174],
    [0x6156f46a7cb7c2ec, 0xaa56c56f72fc1b00, 0x34f0fba0d6451539, 0x174f79e424542b0e],
    [0x8de63a2556af662d, 0xbc416f9a5e57cbba, 0xd7cb5510912ec1f4, 0x1609850116dfde24],
    [0xc9522fc79701ebed, 0x457ecada07f09215, 0x14f214352b48bdb7, 0x10ab565bb9cf4369],
    [0x9e52da81175eb5c2, 0x1f177b9be69aecca, 0x6dff0d320e4b8992, 0x25903539c56c72c8],
    [0x11c250223fde21bc, 0xb32d0725f4d64149, 0x7e12fa3a18808211, 0x24be2bc0726dec8e],
    [0x14d77ed0d9f894d7, 0x5265563cbe43e50a, 0xe80ca3ef35636e8e, 0x5522494472ece35],
    [0x6763169d4c4c2505, 0xaf5054fd455c300a, 0xefffec1acf6a2dbd, 0x2a9d37d9b9bec22e],
    [0xaa24925d158cac56, 0xd1c64bc22f1c556a, 0xcf0a142a3be27749, 0x190f922d97c8a7d],
    [0xc1e76f0f815948a1, 0x2ccc662e3e72dc97, 0x1648a784010d674f, 0xfb784243c37202b],
    [0x752bcca5dca973a4, 0xef2a5e6e48eb3da, 0x2ac53905907ca361, 0x993e6aad24c4d25],
    [0x91e75891e8f2fa0a, 0x7504a59617751f3e, 0xb6fbe565b15ca33, 0x15fab250b63506ef],
    [0x6e5570a4e55ed1f8, 0xe24f7a5ea54bb535, 0x7a36f73cec3f54f2, 0x22b851ba2d74cc0],
    [0x86f47660fca9fc27, 0x4c9748a30c1c0272, 0x2da5a831f97ab31d, 0xcc28d557fcbe39f],
    [0x2a6acec49940d369, 0xd84625f658d2c6b0, 0xbd6f869dee34d83f, 0x392cb28a2f6f3e8],
    [0x60b074250eb5b133, 0x3f18f20ea91b3083, 0x27a7413f23b889f7, 0x223232ed91851f70],
    [0xc11730b7086b423, 0x3778866a0387f67c, 0xceafc47ab0835fab, 0x247502139fe5a4fc],
    [0x8ee6ade15ea64cb3, 0xdb72f2cc43798e8a, 0xa15766be5b419486, 0x574e7796304031a],
    [0x31ad49bbb99ce7f0, 0xf91da60461efc017, 0xd134b2848d7fc32c, 0x1d18392864858785],
    [0xe151f8d366df48a6, 0xb9ba2e34419a7f0f, 0x5d3246fec97f13dd, 0x2b927f1d1eacf0ee],
    [0x241ac3f08d090459, 0x7fae52d6a9c92196, 0x600076d9a475508b, 0x29ca195348764c2],
    [0x4e7636f25ef4d905, 0xaa056da7621cf332, 0x873be352600a12a6, 0x291930cdffd0acc],
    [0x54a1704c41477656, 0x207cb8cb99621f42, 0xa2ed9368587b5e4c, 0x13e6e58779312fd8],
    [0xbcaf997d96b90802, 0xb19881e2cabab988, 0x87e7b6065c03d55a, 0x74c6fc957511e72],
    [0x9d40221bbe8cf09, 0xcc49a91881af8b38, 0x5413c83f1edcd3db, 0x1da0150f5a7104c2],
    [0xaa24925d158cac56, 0xd1c64bc22f1c556a, 0xcf0a142a3be27749, 0x190f922d97c8a7d],
    [0xdfc7108bd5472ed4, 0xcc19abc0fabedce5, 0x75a31b71aa505b70, 0x17b4a6a22f90ec55],
    [0x9b0edfaf667bf213, 0xd0a548ec6d5ce2de, 0x511b520b3ad4e96d, 0xfb75a413209d1ea],
    [0xc66a11d4cf9d16eb, 0xa1a7e9bf69245efd, 0x5a258249b3667fa5, 0x7229fa12e5e9aec],
    [0x5b0e68ac647e7dd7, 0x5643e8c39628e597, 0xae01d4ab76d7d820, 0x29344527ccc73bd6],
    [0x1f0ef02fdf74ef5, 0xe513c3c3590f612d, 0xb0fa1325a96d6f63, 0x2e06815f466128d5],
    [0xd028ad61f3ba94ab, 0x25510c1a9d7e9e26, 0x3e9bb37cf7f3da81, 0x2381219c79d22ca2],
    [0x2498ff5f4e3599d, 0x682ce95721afa4c8, 0x4a5bc4fe6f51c000, 0xf724878c378b23],
    [0xb8cbfdd82de72c6c, 0x5af926ba044b93d1, 0xc5db33902857ae90, 0x2961aca4c9ed99dc],
    [0x6f9507884ea8dc0e, 0x3864fd77adba8807, 0x69a8a89ff224b370, 0x1a661c53d8750327],
    [0xc588009102389aa1, 0x341bd7d20d4c82d4, 0x7d873feb492185f9, 0x20d8c84a77dbf18],
    [0x5b850138c3ed89bf, 0x79a7db63860abdc, 0x14cff9a5e1b1d99, 0x273944a60bd81f3c],
    [0x3090bf1b96d7b6f5, 0x3a10a4f675f803e3, 0xc2df8605d84cc290, 0x2c3483ea9e8733b],
    [0xf1565bdb3234193a, 0xe8bceb26280adb11, 0x6c1c7dcb0f5efe2a, 0x2c1570fa771ac87f],
    [0xd2aa03cfacebaa3d, 0x2a6c653bd3e27352, 0x7d4e400663abb7ad, 0xf8f2bcada2b1580],
    [0x514762c2a468cddf, 0x31d23d6ed46bf4c3, 0xd892859c3512f218, 0x13b356322af7bf7e],
    [0x82e4bf6bc430879a, 0x5c3d52ad57a4e0c9, 0x202aeb459085298e, 0xe8ffc445422b035],
    [0xaa24925d158cac56, 0xd1c64bc22f1c556a, 0xcf0a142a3be27749, 0x190f922d97c8a7d],
    [0x371bcb71f7e637ec, 0x2a05a8cac838d637, 0x25baf09bad62441c, 0x266878c7dbb3ebf7],
    [0xd374c0c97ee16568, 0xa550e4134769d30d, 0x984031f308b491f2, 0x69ca7aea6fe25ee],
    [0x3435075889f34956, 0x6071ccf725631c6f, 0x71806f99c5247c7f, 0x190c3bdc4ae56b93],
    [0x81c786e115ee6abb, 0xbb2039cf470f2298, 0xa07b115f3673203f, 0x1d325902dda87290],
    [0x4d0b5cbc660fcd54, 0xb758c2128f8d544c, 0xa267ce939f99c211, 0x1b2936a6bb1b221a],
    [0xa6f07b5eceaf6323, 0x3297a7cc12caf5de, 0xbe6a783736f29719, 0xf9fff4eb7e28845],
    [0x36a7f5e129e5ea11, 0xe96d73ce0791edd3, 0x9c92a069ca501f89, 0x20e98cfcb657b1f4],
    [0x8e1d4ed5e9a89b5a, 0x8d8350e73600aa0e, 0x69af8a3bd1a030c9, 0x15ddf382f5b9458],
    [0xadabfc2a8ab17bed, 0xd59bb293a582031, 0x7bf1135f3f0d94b4, 0x93aa5d4e7c2e0b8],
    [0x673fa873fe688207, 0xf1960bc2531d18de, 0xd31a80902174faa9, 0x83ea048a2fab7ae],
    [0x4a585bc157c57a39, 0xb26b6b605e98c87, 0x3387252406f2d886, 0x4849567874ad025],
    [0xb399503fd9662149, 0xa5c791e455f90c34, 0xfd87ab4a523f74d3, 0x10315d0548c6fde9],
    [0x7595e5f0bb433c7c, 0x66d2797ba47a2e64, 0xc20b133eeeee0171, 0x29b768d0c1c037e2],
    [0xab39fa404fc68e6f, 0x4e719885af8f4abf, 0x14d36c4fcb845d4e, 0x2072b5dd10280874],
    [0x48198334c700fe6d, 0x3e8cdd56f9cd483, 0x7c9b9fc3dd933144, 0x1434175409254eea],
    [0x8ee58d7551ca56d0, 0x80d75e66bd4c64ef, 0x90f4b12286fe5608, 0x2da9b2eb148cca67],
    [0xaa24925d158cac56, 0xd1c64bc22f1c556a, 0xcf0a142a3be27749, 0x190f922d97c8a7d],
    [0x81dad8ef220bd284, 0x727960333b76b5eb, 0xe92336ef013f8430, 0x16bfb5fdd4ef9b81],
    [0x12b816fcacd03ac3, 0x5d96eec18099f5b9, 0xf088a4113940619b, 0xf746438c3f4e612],
    [0xd332702320cd2445, 0xc4f7d045a3614908, 0xcfcb5dfe2a0a6850, 0x25f8d85e6102bc16],
    [0x7437eb68b023ddbe, 0xe95847e5ef533705, 0x4a0a2e8a1067db44, 0x19a23070f8afa08c],
    [0xaadb178cee98303b, 0x70ed001eb5a3b897, 0x6322de101be54c0a, 0x19e74aea657fd420],
    [0xdcbf08664f247607, 0x97d33d011ca2c543, 0xbc2cea017e1e9379, 0x2a32e9f7f76615c5],
    [0x608ee0536525990f, 0xd28af00a23b0252a, 0xe27210e54c6d760a, 0x2eb2f9782b5103cc],
    [0x2ad5121d03ccb6a0, 0x702f8f055f721f7c, 0xfd8860a5c6719122, 0x324cbb7ff16c463],
    [0xd9984b5a1b37d95c, 0x4bf2df9864f477ed, 0xe7a4eec1917d48ba, 0x4fb92743eed5177],
    [0xe18ae772b1dbf163, 0xaa4d9b7f731d9209, 0x73e1e55ede489421, 0x232e90742d5251ee],
    [0xa094320552499791, 0x8c1d2410434d0bb8, 0x5c3241bd7d533670, 0x2888b0287bd05042],
    [0x1d49a862b1563411, 0xedf06061a452e94d, 0x6176345fb830caf6, 0x5e878a6e2dcb5fb],
    [0x7d289e44483331cd, 0xc98e26386e2de004, 0x9c0b94832d53bfac, 0x603e7150eb9b06c],
    [0x6a47160923d6303e, 0x3ab66a7d7d1689f1, 0xd2acf492bc6c49d0, 0x40392b8780bb071],
    [0x163fd15d20a7188, 0x2500562da999b4c4, 0x4d005f8821f564a4, 0x27005786e8d1cba9],
    [0x35db5ead72d85594, 0x7d9e359a8af4f840, 0x7b4534f97dc725df, 0x2f6ee6456256df4b],
    [0xaa24925d158cac56, 0xd1c64bc22f1c556a, 0xcf0a142a3be27749, 0x190f922d97c8a7d],
];

/// Part 1 of the sparse partial-round rows for width 9, as little-endian limbs.
pub const S_DATA_1: [[u64; 4]; 256] = [
    [0xe0726235d5f8a76e, 0x13b2c3d534ee1fa7, 0xf1c12f00d2e2d152, 0x249d2e3a72d67b9f],
    [0xb200713a3cbf2915, 0xfa0acec8e8760311, 0xf0f7947ba7689567, 0x66af81c271fdb20],
    [0x4d59770a6eecc1d9, 0xfba733b2874e3f1, 0xafc8a847245583d6, 0x2d07f33cec08d772],
    [0xd47c0094163b7a03, 0x7af5c73b2c43c148, 0x8ef2bd4cee7cb74d, 0x2b5752992e1969c8],
    [0x9769599c6fb99d9, 0x848682bc2aeb7134, 0xa9ead4a939871196, 0x17eed7f1d2c6c6d5],
    [0xce07b90494140c99, 0x3b485f9bdaa3049c, 0x29acb60c4d9f489a, 0x2b0443e7dd8fa526],
    [0x11c07a33d28cdb7c, 0x8b85c7b64c1b5a91, 0xcfa00124ea29c92, 0x52e92369cc40d1c],
    [0x3a369de6d1d1ca99, 0x2b05b0f5c685cc8c, 0xaaf8317cc35b62d9, 0x2d590ad359f3f6d0],
    [0x271d77dba331817d, 0xd2b2d774e63564ae, 0xa6ec1746e62fd0c1, 0x2983673217a3388e],
    [0xd9d5065ce002130f, 0xe87b1b95c108a83c, 0x85e8c234f618c830, 0xd5ce1123b37edc6],
    [0x6cb024b8820bb003, 0x5b7b378ede36d806, 0x3ba08fdf1bcc73a9, 0xf9b69256d0d0e08],
    [0x7392e4c85e8dbd77, 0x725f946442c7987f, 0xb3824f2057a7a2eb, 0x290490f51237cd7a],
    [0xd655e2d05d92a653, 0x92fce4e57a3c401f, 0x99e5a5de025d08c6, 0x2bd1c921b2655ffb],
    [0x41911e6129e3fa9a, 0x1a26d2b7db92d42a, 0xa7a0b7ce7305343, 0x3fec0bf41ee1a2c],
    [0xaeee525b2597eb81, 0x359139513990884b, 0xdb09017c0160c2ef, 0x2d6233e08181a3c9],
    [0xe62dc72f693544ac, 0xef5d4bf4e65ca518, 0xb8eb1e780db16d98, 0xfbc98b8d3b0b6f2],
    [0xaa24925d158cac56, 0xd1c64bc22f1c556a, 0xcf0a142a3be27749, 0x190f922d97c8a7d],
    [0x8b61488aafaaba74, 0xfcda39b55533db1a, 0xe843ddcaabd4cc71, 0x1f04cf1ca4f6db30],
    [0xab0c5e0d1b2e9bfc, 0xed729dd41c464fc9, 0x58898327f4ca8e00, 0x1a6f6a78583cddaa],
    [0xcf43a2c8ad250d06, 0xe4c65e2d3c04cf1e, 0x6ab953bcf41581cf, 0x3e70e81573bda5c],
    [0x47a1d3b6b71cdb90, 0xd90ca92c5d9a7558, 0x7dd67b782727d8a7, 0x13fb5b6c8df4a525],
    [0x557f5da49f290e84, 0xa8feed3369537ca2, 0x6d1f203e1a367acd, 0x4d54595c25b4153],
    [0x903c0f30e8bd0b44, 0x22f68fc5a16968fe, 0x29c9123bca96103e, 0x13671d8ca7ecb93d],
    [0x6595d32608a85bd8, 0x6daff1e1fc6bebe8, 0x1d974c562e1b03b9, 0x1486a9a8302df377],
    [0x7c762ce21ea66775, 0x4e49400b0847f411, 0xe437f59bef5027f1, 0x7cd279d7d44931],
    [0x2a1e6f0878ac8b, 0xfca529dd9398d2eb, 0xcf3873e187eaa940, 0x2358686de458647d],
    [0x584febe494ad5d53, 0x1029ea6bc5a9c891, 0xc9360e9ab96b1bc3, 0x196d60cd8de82119],
    [0xf4822e156f2370b2, 0x4dad6be0100a7d84, 0x708672582aebcf2e, 0x1e18e5d708702aec],
    [0x61e4205eeeb8438f, 0xa340a3d4eca4bfa5, 0x41acce9a1086c6b1, 0x18d0a6119479f34c],
    [0xbdb9d214ad9a6fc0, 0x39433b966b759014, 0x72463551f41d5f17, 0x41e39755ed3b129],
    [0x96e437be5d4278bc, 0xf838f2337121baa8, 0xbea2082b8e7f1765, 0x1becd98d1916cbaa],
    [0xc58584913d6c8a29, 0x822cfb7c49ce878a, 0x119899fc08b91e02, 0x2d11307d21979b68],
    [0x88557b6110917538, 0x40db0f2df00a4a83, 0xc204d6d3e23368fd, 0x24b7d69ead7cf1c4],
    [0xaa24925d158cac56, 0xd1c64bc22f1c556a, 0xcf0a142a3be27749, 0x190f922d97c8a7d],
    [0x14f6c59040c97808, 0x5b89e5b175f3b713, 0x35efed9c5babd227, 0x1c414080171ef435],
    [0x7bd3aedb21053cce, 0xf5ecf90800b9cdf5, 0x75bb4d6d3379351b, 0x397889b80111604],
    [0xa4a42ed533e52845, 0x8f7a012898e9c2bf, 0xbfc0e39b0d4d6a73, 0x24ca54f1fda634f9],
    [0x95a53ad5d60e60cb, 0x879619ac63904e43, 0xe43306d06b2fbd5, 0x171598e7caa20c99],
    [0x9dd763f3019b5ec7, 0x7aa3b2ade1ba21c5, 0xca1d724beb0335d0, 0x305dda5b8003c236],
    [0xe1796bde7174bd21, 0x47eaa956e66a6629, 0x99df57c5f109a40e, 0x1ab2ed07578120b3],
    [0xa85aca3958229f76, 0x92ba7f8f3f94e5e5, 0x863c878ad7fe7df5, 0x2a47862d2f0d0629],
    [0x1a28ae61e5c30abe, 0x32cc91a200b1f08e, 0x5cf4bb5624685846, 0x1bbc9591c66436dc],
    [0x534265d7e5e2ea21, 0xca064ecf477268ab, 0xd324bc968020828c, 0x265e971c9adce13d],
    [0x6e0632f3570657e1, 0x130fbae677659084, 0xea082546a9e3e149, 0x1df96d7436aa2918],
    [0x8e14c484f84d2535, 0x4ff2e8965942d382, 0xd87c0c1553784b74, 0x10a8c8aaeaea0414],
    [0x44ca69a0b0ba9c19, 0x47ad67bcd8514eda, 0x31f94a5ead9b0588, 0x63e4901d2d61978],
    [0x6fb5f35d2745feec, 0xa5106b11d69cebe2, 0x11ec6bba34b8f248, 0x1af00487deaaba25],
    [0x96650e8defea646a, 0xcf3071a671996123, 0xce5b317ceff4597c, 0xceb1792ea63e2ba],
    [0xa3b899840a119387, 0xee4a250e0e3948cb, 0x379d5a652f999038, 0x7fc963b8ac37064],
    [0xa5a9fda6690754e2, 0x5bb2976d0c997a9, 0x47a00ebad16999a9, 0x17aa663de33227a9],
    [0xaa24925d158cac56, 0xd1c64bc22f1c556a, 0xcf0a142a3be27749, 0x190f922d97c8a7d],
    [0x7cbfc4b8eedda63, 0x1fbe076ca41a7e18, 0xcff3c8f5c3ee5395, 0x27e7f01f7e5850de],
    [0x957c5d2c54b27eb, 0x2522b7c7f995b288, 0x7563c578dcf432de, 0x13e9c09190f744dc],
    [0x1eaacdc9660d21a5, 0xc305afcf50c9dc1c, 0xe119248c0646d1a7, 0x291cdae728ab7b72],
    [0x419d11f1366f45e, 0x108e61710f0e3c46, 0xd959f934bc217781, 0x2df268da059255b2],
    [0x80bb57b35c994dbe, 0x85f707e54795f5df, 0xe795093b408f590b, 0x959f13f2c04b17],
    [0xde6c65b14818558e, 0x7e067a93f1f28db9, 0x8a27b55553a8bdb7, 0x2d83db369e2b4884],
    [0x355c15de4dc64ae9, 0xc428c47215feb2c0, 0x1c4c154984fef173, 0x2cac7303cf0462f2],
    [0xb4ae27444b535222, 0x7fff18f21ccf4c86, 0xc65b61123d195471, 0x1f16c3b17497d87],
    [0xe7fa37e63888f7db, 0x247add6ce13502f, 0x621d3a89a4bc05dd, 0x211a857b06dfe2df],
    [0x7cedfe625d10573b, 0x35d73cf7745eaa75, 0x919ea765ea6d04d0, 0x1bebd0b81ea6cf89],
    [0x224525c6e3ff69e9, 0xbdeb7f20f5a74d72, 0xbc40f3269d2610f, 0x2cb676f0cac23cd8],
    [0x47a5b0c33bf144d6, 0x4f8e35209b7a081f, 0x579056c6ac6ac874, 0x1e478ad6535f1ecc],
    [0xfe37a1e1053b049c, 0x6504dfbb6a4bf9b6, 0x25158c9c73156e96, 0x1669c72208abd4ae],
    [0xcadaf75a171de693, 0x3cb5a94b8b2cffa8, 0x8f58cc38e48ee81e, 0x18a94771fbadbe26],
    [0x3591c8abdfe1fde6, 0x31ea52d02dc1588d, 0x10164451062b19e1, 0x203411c7e08bbc6a],
    [0x842dc9aef97651ef, 0x2a367f5ceedfd64c, 0x45ca3ea0e3735513, 0x6cff9d23d331be2],
    [0xaa24925d158cac56, 0xd1c64bc22f1c556a, 0xcf0a142a3be27749, 0x190f922d97c8a7d],
    [0x1f7df8cfd1305bf5, 0xed69fc736276820f, 0xe253bf7c7d0711be, 0x167961cb9db6a7f1],
    [0xa4e93df5dff6eaa1, 0xcf5feeb9ccc482a4, 0xaf54ae9d0dc7ac5c, 0x251b413e3039cec0],
    [0xf20ce1ceef0511d4, 0xabd4c5d13aa3894, 0xff6dd0c2ad5475f2, 0x22461b5ae9c4937e],
    [0xb770d5270d3f2316, 0x3c9e2283a19826f9, 0xf3eb96f6e403aee5, 0xd3c8cb0ca400d52],
    [0x782ea746036fcef1, 0x26c35952169e8c60, 0xc01088fab56bdd78, 0x14fe9ead6519feb],
    [0x7e1971abc11676e5, 0x66be83cbb0f83352, 0x6bb4e24b13b16922, 0x9e8b9302c470b94],
    [0xf0cb1dd2ee552f00, 0x4ba74ec23f8f5c75, 0x3613ce5c87cac8f6, 0xaa736ba6817640b],
    [0xdce49b82640d624e, 0x23ccf6851db01e64, 0xf19d6fbb6690f5f7, 0x195c4f3bfe08a064],
    [0x3eecc3147dfbe14a, 0xdb10b10b9b8207e7, 0xa92efe91a6095501, 0x10bf96df637b9926],
    [0xbf9f6bace985c14c, 0x9d6ecbcd4d151bf2, 0x5f704f68bc535b1d, 0x6f9ea58e02e9744],
    [0x62520a767c4e6d48, 0x8b9894749a2a88e, 0xfbd95e428861a2b7, 0xdb1da59cb0bc70a],
    [0x404160be701d566a, 0x3ae59f4f35de8aa1, 0x168276813ff0dd2a, 0x41dc2cccf102bb7],
    [0xa25983d6e1d70893, 0x254a0395fbefa3be, 0xd44c1482289bc607, 0x33b21d96a57d2c1],
    [0xa81effded6706985, 0xa835318804ddb812, 0x34353e58dc214d02, 0x27b5df4b4bde32d9],
    [0x9f0bca7451e2c26a, 0x4fc0cedea2cfbe4f, 0xc680d81bbda2fc96, 0x16c436812dc3bb29],
    [0x72ac633624caab5b, 0x81de009440f57ffc, 0xf2b84b9034c0e4e9, 0x1075ab0069e8017e],
    [0xaa24925d158cac56, 0xd1c64bc22f1c556a, 0xcf0a142a3be27749, 0x190f922d97c8a7d],
    [0xe11efb956a8ee412, 0x65ffce26ad183a50, 0x5f780520f03c5844, 0x1f158c6c1065f78b],
    [0xc356afaf24dbb219, 0x6f20be46ad5839dd, 0x14791f01fbc62bf2, 0xbe6ce6cad51b6bc],
    [0x3e55a6174922306b, 0xe64b308a3c56ab34, 0x60b99089eaaeac4a, 0x226643746553477c],
    [0x9ee3edbe56334e2d, 0xb6376944728224b7, 0xfea66a8e2c0d8c5f, 0x2e82b3412adb8919],
    [0x3e7fd657b6c404f2, 0x4610d69bcc3409e1, 0x3edb3989dc037a83, 0x25af6deaf2918fe0],
    [0xc06402e69422398f, 0x562951366b754259, 0x8a4f87c0325d238, 0x10168c4b7ba5c850],
    [0x4eefb497b4a340de, 0xe3cc39c7f060221, 0x732b606acbb25afa, 0x20441555acd94f03],
    [0xfd7f63a9ebcaf3a5, 0x546d415f3eab6596, 0x3e1ecece3989b682, 0x200658fc08ceb25b],
    [0x19fa9d6fc524547a, 0xec8c1b94f217358, 0xb863987f4a9dd8c4, 0x8dbbd95a7fee39c],
    [0x2df04efdb12c6980, 0xa91dfc982c672d9c, 0x6557cd2d8dbb8788, 0x1679802a70dd6380],
    [0xa1ce4e0efd408297, 0xa1f891122ec62eb0, 0x46b5c242bddd68c8, 0x18b5ee46c9ef30ba],
    [0x5d834f3aa9bd2128, 0xfd6b808f50af91cc, 0x3800bbac32caf5e5, 0x1760042648d3c88f],
    [0x6f09358d966b243f, 0xe1cb74b65fc35ae0, 0x273e6812a0e597bd, 0x2bc24aa17ef22eb5],
    [0x225b1d61a83e8cc5, 0x6a12dc3d9448667, 0x3dc35b7245903c19, 0x1871a1352a74bfb7],
    [0xdf7ec536f9e7d5f4, 0xaa6ca42f2d23b64b, 0xe235644f38c84af5, 0x15ffecc09ae5dab7],
    [0x4025b9d847935a55, 0xdcb7369f9f5978f4, 0x3f659d10453598cd, 0x2c9c4d817a1351cc],
    [0xaa24925d158cac56, 0xd1c64bc22f1c556a, 0xcf0a142a3be27749, 0x190f922d97c8a7d],
    [0x81117fe5f02bc38c, 0x10ddb46eca06a22f, 0x3c94d65ab10273d2, 0x258f6b7174e2619e],
    [0x7985e2ea07eebdde, 0xde32586ed3847093, 0xd1640084a12ab11b, 0x7b65580ab28befa],
    [0x54befd9a19b429a0, 0x6f7e777f3b2a3bec, 0x3f958b9377996bfb, 0x2251fd1d0a5bd91d],
    [0x54d9bf67d9711d19, 0xd63a762a9685f7a2, 0x5b99cade44a76fc, 0x226bb0f7370463f7],
    [0xc83987489c871d0c, 0xbe43aa0748cfdc53, 0x548eff5a6ea0598e, 0x125b1f6876e2cd4],
    [0xd630f810a6c382b2, 0xa8f8bd071e38ac56, 0xbc4e3e392043675, 0xd6400436f874ac4],
    [0xfe42b0b7d2731395, 0xbe71abffa7caea38, 0x8e7c816e36f83ff9, 0x152557b0f424f918],
    [0xa204cd57663f4e5, 0xc005a6128ae83511, 0x37d8687453eed9aa, 0x2419922a2d394b18],
    [0xfd450dea8b112d6d, 0x9fac106d2833311e, 0x639618510388ac05, 0x28de832e55c53a37],
    [0xfaa9868557f34ae1, 0xd7f04c39a4d078a0, 0xc983d797460754fa, 0x19e9bcba7b55e568],
    [0x26e1d9bea337e1a7, 0xfee47edd7810e5ea, 0x4ac955e7fcb47040, 0x283908c8bb48fee6],
    [0xb1fbf4468c9bcae, 0xc0e3e38eb4c5c234, 0x1a1a20af4b178812, 0x25c8ea766fae5e6a],
    [0xc9f734480bf974ab, 0xb007fee6222e9952, 0xf7c9aeef0e79f0ab, 0x18cf37ce25ef86d2],
    [0xae58069776e1cc02, 0x4fe087b12f716e2d, 0x96aaea2184622f81, 0xd41106aab9ca696],
    [0x5b05fe113c8851d8, 0x73bcdd2271b26841, 0xe1af93865e7ebaa5, 0x25a1462f1d5a2353],
    [0x1feb94e3b1700cb8, 0xbf5b825754dc21d1, 0x6ed6d4d9279035f5, 0x2d96abf52f1de16d],
    [0xaa24925d158cac56, 0xd1c64bc22f1c556a, 0xcf0a142a3be27749, 0x190f922d97c8a7d],
    [0x7ad32c72dc880c85, 0xd641ca4e9ab4be23, 0xca2d2cd38baabc9f, 0x18e5610502d2a1bd],
    [0xabe98c2ddf0b8ce2, 0x1b585843070c12a7, 0x5cacd7d5607b9318, 0x2bc2a1228621dc36],
    [0xd29970a6098b5d47, 0xa7df9fd5fa25d95a, 0xcaccb663416bf20b, 0x3e57b7e7ba3e4e3],
    [0x557dd0a756ecec4b, 0x1f79e694e9470af6, 0x8c794636c1a75a0f, 0x95beee076b8de6],
    [0x80a5fce17ecbdfb8, 0x8fb7d2754b2a116c, 0xb6eda83c1d2e9d2f, 0x2063d0dce7c0e4dc],
    [0x83fe7de6c7dddd22, 0x4817d3803411649c, 0x3010b7881649cf03, 0x2793560a50cb7395],
    [0xef9b62824c6d9408, 0x4e26596f26ca6e10, 0x71bed6743e7f3cff, 0x927b8161885b123],
    [0xbdcf6d89982174c2, 0xef04444d67147e86, 0x53c6621c813a62df, 0x21e570ce0b93102f],
    [0x91514dd25fef2450, 0xbf2e90fdd6e170ae, 0x3e497e76256a8829, 0x4da2abb8299af3],
    [0xd59be72a56401995, 0xc7e322b205d9946a, 0x36797223e5b98e0d, 0xaed6f83384c5c1b],
    [0xa8597362e2cad2d7, 0x5910c9b0cf9c8a36, 0x3d79397e2572c2de, 0x1043df1375a10cac],
    [0x7668e939829a5593, 0xe725c6da6fc1043a, 0x650de094677a51bc, 0x102b5227284acad6],
    [0xb4eefb6990b0ca4a, 0x814bb19804c57834, 0xce86be56ab497a10, 0x71b883401c25bfd],
    [0x4f3c10d2e8d938fa, 0x9283737b33a3c7a7, 0x15078748f8f19a29, 0xee706d85983efe],
    [0x3d5f305220da9b2c, 0x5033641c101f0982, 0x9b7018ac5660e20c, 0x1e3ea0d914658120],
    [0x8c8b3bb3dc6ba093, 0xd38c1c41ab6de2da, 0x7385bb7c8b5fc0bf, 0x1135f9d772fcefd0],
    [0xaa24925d158cac56, 0xd1c64bc22f1c556a, 0xcf0a142a3be27749, 0x190f922d97c8a7d],
    [0xeb98d6a6dfde27a7, 0xd87ef2f66990c8e6, 0xf70096c820d9601a, 0x5580932f510469],
    [0xb304f81402a9a73, 0xb2489b40320116ec, 0x35661baaf0855759, 0xc072aa3c1344e55],
    [0x7ffc83e118fb1612, 0xb138c81550ffb9cf, 0x3880234e54b391aa, 0x2c5e60d6d9cee50f],
    [0xd0bdb74736fa3cb9, 0x696b4dcbe9b29e12, 0xeef9eb065131137d, 0xea984db0b29d0ce],
    [0xfce97eba31a58550, 0x5c76879960935307, 0xe76ef1ea0df56b55, 0x1461bb4b296851ab],
    [0x6b77667d3a31838b, 0x22e1d564c5024f, 0x9728a46eebe67976, 0x217814f2d889b58d],
    [0xec9bfe845d2fbd25, 0x6d1be685e9887af5, 0xf1161f9c02adde89, 0x2e34b63991a98aee],
    [0x7c1ce2478d90c59c, 0x4c9926319ae9c5c, 0x97405c865b6ed238, 0xbb51a53298cbb52],
    [0x286e592f64a1dc90, 0x9b488f58234f3461, 0xf29617d62561ac20, 0xf0f1ad048e7b93d],
    [0xc87f3a933fb1a341, 0x88247c5dbb8973c1, 0xcdb29fdf1fe0a243, 0x24856651f6c6c72c],
    [0x38fd0968f726087, 0x44c0df4cee0e0ad9, 0x8bfb93eedf4c6677, 0x13161ed9d713300],
    [0x196208e399d8dec1, 0xe450488f975fd006, 0x90df72d706725ed9, 0x1ff88f2a80b4078a],
    [0xff7fe98165c1d4f0, 0xc98cc2208455fdcb, 0x7bded94acaf125b7, 0x2c300ce9260279a6],
    [0xeb6a39b45b924ba5, 0x345ba1b3dd06e556, 0x7d433b92f0ed2365, 0x180152334a015c3e],
    [0x1045ecc65b787f4d, 0xc28aa98c8f830f8b, 0x4f529c1b5a724dfa, 0x1469185941b34b5a],
    [0x74924faeb3bedf89, 0xc7720d3a2e7baccb, 0x54e3f4f871cf62f4, 0x7be7c3b4de9f53e],
    [0xaa24925d158cac56, 0xd1c64bc22f1c556a, 0xcf0a142a3be27749, 0x190f922d97c8a7d],
    [0x80acd5bbd4e7f0c3, 0x9e8070fec90c34b7, 0x4485c26ecf29628e, 0xdbd81cdf5b54b53],
    [0xbb3888dd500476b5, 0x735bf3de68156bda, 0x803084da6d7e20c4, 0x1735ed9f6fd2ea72],
    [0xbd388879b8ee1532, 0x4c7b2f114e495451, 0x1a984da78e503723, 0x302871833d038dc6],
    [0x1075207c1edc0060, 0x674ac85bb3d9251e, 0x68a54f9bed48935b, 0x5bf32698276e207],
    [0x4ba98419fb0fb578, 0x5800361e8028ea0b, 0x1594e5745e8f4d3e, 0xae9a1e0aeffd43],
    [0x6d2663deb1f0c19d, 0xa913812216365b1f, 0xd9a125db8e6e7fb4, 0x2b98b2ea75766211],
    [0x59c664fe01f30bf8, 0xc7de8b4a935023bb, 0x4b15ee1c00e0ff93, 0x15c0f1926bd600c9],
    [0xe5d3157af6d79e40, 0xff31cd436d72b90e, 0x5da0ad3d4251e64, 0x18f86036c6136aa6],
    [0x668ec51a429f9a39, 0x867865206c873f6, 0x2211b244fce0bd16, 0x28542871e4074902],
    [0xf539faf994d23d42, 0x460971ff8869fa46, 0x4bfb2b71fc694fa8, 0x2432259e7f474002],
    [0xa4dc78d49bf68617, 0x4a1ed05f4c2947f2, 0x40b0fe63e0ab2e2, 0x2cdbbb1f729d6ba0],
    [0x3deccc92da64b3a8, 0x78184b02ff7f4cef, 0x241fbec95436b204, 0x1f7d6c170f7a83d6],
    [0x46a81415b30e6119, 0xc868d67294944f82, 0xb6579a5bbe6419d8, 0x18e6f168622d4679],
    [0xdd6aa11945fa53d4, 0xae4a35ef1c11a017, 0x4cf4a701766c1ca5, 0x9a3e52a4ddb9864],
    [0x38c7c2064b8148fb, 0x40a81e0a42b6060e, 0x4c93e3bf39b189e2, 0x136a031823304ab9],
    [0x6a20c742dae0a624, 0x258222ef0539a277, 0xb24d7160c8f1708c, 0xd82d0c90c41c41f],
    [0xaa24925d158cac56, 0xd1c64bc22f1c556a, 0xcf0a142a3be27749, 0x190f922d97c8a7d],
    [0xf7ba70db133e8425, 0xbabfeb16c64a31d8, 0xffc4b09dfe423873, 0x2b0f98b255bc9fba],
    [0x6218180eec5d6a48, 0x46baf3c1aeacab2c, 0x2e733fdf9d0c5159, 0x137ffcc374ae9e22],
    [0xdd958d48f15d6033, 0x77240432e6bd45aa, 0x1fc970b338fa5c73, 0xe6a056e92c767cd],
    [0xb27cc56773a37853, 0xa279af17f1df202b, 0xa60f401ff1171c9e, 0x264c9a5c6eda708d],
    [0x16637787edf4f37f, 0x4e291ee3e02dfea8, 0x176dff2dfa86f1b9, 0x1862618d4abfaf9e],
    [0x5a8ed6a758e0c11c, 0x93a306f1082186a3, 0x610b3b9433f373d6, 0x4d0d2b042b8d971],
    [0x6d49869ee6dd0187, 0x6f14de1b19729031, 0x16b2df46f5386a11, 0x8854bcafc5f3565],
    [0x4e48284e31992562, 0x2c5101ff6d5b7a, 0xbd8cc6227caa099f, 0x4b8696c509d9557],
    [0x9d68fd2eefa84d9b, 0x5841d2913f2ee2ae, 0x72f9ad256ef6cb75, 0x125c58848e892611],
    [0x49df6d85f76439fe, 0xe54d655cfe6681b0, 0x32d7ddd39ede7dd3, 0x181ffc981c547785],
    [0x7af1e949e92cee5a, 0x71b1c94e3e87056b, 0xbe77cc3ae7c744af, 0x198f1451b611973],
    [0xefbb806701b63853, 0x1e009b0605a0cc3b, 0x9a871eb611c4a9ef, 0x4c9f885fd1b6972],
    [0x408a503e1eec3433, 0xf04e3c6db03ae0e1, 0xb214e3991babc93a, 0xaafeadc15dddce6],
    [0x9260a65018d7af93, 0x1545df10f2f1a819, 0xed662b3dc9480d94, 0x225622d35902840],
    [0x4563cfc03304ff9c, 0x9831a1f02c35412f, 0x61a42f149c09d0c, 0x209d4d14e8b9192e],
    [0xff6094a678714f2a, 0xbe3d4a62f6c7d8ab, 0xd00dcfc49ab6cacd, 0x1192a624780a6633],
    [0xaa24925d158cac56, 0xd1c64bc22f1c556a, 0xcf0a142a3be27749, 0x190f922d97c8a7d],
    [0x7269e35e0bbc6d14, 0x720cba66a63842ba, 0xfc53c1489204000d, 0x23278ece68d054a],
    [0xbd226b4c885786ae, 0xfeccc2f208bc7143, 0xdb8be8f15b53360a, 0x9177ed9f3f33508],
    [0xe2aba5d849184975, 0xac78419ba5cf0dec, 0x34e680606af50037, 0x175a7d6713e16fdb],
    [0xfb2bcdb69a724195, 0x9b50e983658c1da, 0xdd492eaababe1b0c, 0x1bd2f6eff3f24489],
    [0xa840bf945becccce, 0x1cbfae155bc7cb3d, 0x3c262d62007837ae, 0x16b53ba34c521501],
    [0xb37955c866ba91c9, 0x7b7a6f4da0109dc8, 0x140548607e86ab48, 0x2c062183d49d2fd7],
    [0x65903ea317ab9064, 0x1fa598b3ff2d0573, 0xcc408145baafa7f5, 0x22451ab479c09ee],
    [0x964e0e793edd2af9, 0xf47fed29262d4242, 0x7cef0f342c994968, 0x82f7e3f789ae65],
    [0x5ca3b7e348b0438c, 0x45be218be3784430, 0x25fe8a6b8b270620, 0x11139d29901eaeae],
    [0x76accae16c0e12b6, 0x1ca6446a664b48d5, 0x79e8085a1a8b24ea, 0xcbb2e8c216cfa77],
    [0x8552bfc8363561b7, 0x386fbeee792be3, 0x4b28a00ffeb5b613, 0x48f7ffdaec0a214],
    [0x8b73105e29fd59cd, 0x5b6730cda14170f5, 0x4570dd93a932c82b, 0xe0bba24d7811659],
    [0x11b56646b345a0bc, 0x70c59e5a0626e368, 0x561d3d0c35a02226, 0xa4dc036fd4d9bc2],
    [0x3022ce00a3017373, 0xf6a97936fcfec06a, 0x764e44a68abc8f56, 0x1a1f2f87b5b4221b],
    [0xc1ae5bd2d56cc29c, 0x81ad5b970b023875, 0xde8c6b8067fd51da, 0x1dd702226b6b31fe],
    [0x7032420d494d5058, 0xc903410c17f5bffc, 0x86d4bc9b2640c4f6, 0x22c40118e01863b5],
    [0xaa24925d158cac56, 0xd1c64bc22f1c556a, 0xcf0a142a3be27749, 0x190f922d97c8a7d],
    [0x9651b975b9054167, 0xfb6dd3785d9ce5dc, 0x7d4f8de9fe9c4aaf, 0x18b43cb399d143c9],
    [0xe12f69c3cc973e7e, 0x4e51abe1c1bc0711, 0x3d9842cd39f3a6f3, 0x12c599db262111be],
    [0xddff55f926bf496e, 0x4ac95e8836f7538a, 0xb9c94a68b2ccd3cf, 0x8bb47ee7a3961cb],
    [0x4be28cedb456b39f, 0xb46a18cca0ebd71c, 0x396caec1b4c4150e, 0x2f5694920b9644b4],
    [0x89bced7826fb137, 0xb25254728e3906bf, 0xeff936eb6098bc1f, 0x307bc951cc2c9d4],
    [0x9b5423a6442e2eda, 0x4539c8e79ca9026a, 0x36a23a716d27b3cc, 0x17bcfa98efb68a82],
    [0xdefdaf82eb952e96, 0x53f77806e6bc39e3, 0x67ea4f81bc13464, 0x14787ef740948dfc],
    [0xbaefd0005446972d, 0x3f2fad4fcc76aa9d, 0x34cf5494e14c65dc, 0x257a201998e59bfb],
    [0x96a54dd414906257, 0xab6459d3a6fb8efb, 0x9bd892be2c72d980, 0x12a8d99dd91ae7dc],
    [0x79e9e879dce364c1, 0x52da270fcaadd23e, 0x4de085188220177b, 0x200bf208f11f7a4a],
    [0x11ce4ca5c764cb06, 0x1dde06c24722bf1, 0x9b1d5e6937ae365f, 0x1a9f530729b8ca36],
    [0x952e28711132c0ea, 0xb6bc1657f7aed28d, 0x4e8b3b5a1ce48b2d, 0x651d7f9fbca106c],
    [0x8d1cae632896dcc9, 0x5b7d4a91a9587a9e, 0xf0faea9d3832334, 0x2a3316648cb65a09],
    [0x492b9bdae81110ed, 0x9eeba7eae923ca8b, 0xb3bb80bcced6a777, 0x1553ad82056a8d74],
    [0x9e42c18ee55e388a, 0x67f3ab12cdff3844, 0x6952e6732a315d15, 0x130aa152e81341ae],
    [0xe095740337911cc9, 0x530f56e0d8c94c99, 0xd5be303b798357d4, 0x2162c9c868800aab],
    [0xaa24925d158cac56, 0xd1c64bc22f1c556a, 0xcf0a142a3be27749, 0x190f922d97c8a7d],
    [0x2d0b72af7a24d090, 0x1d520f8cb80be3db, 0xc59ffcc05c3e5804, 0x138ee349a5126b8],
    [0x5362c4b5943b8b68, 0x705b7af94f331ab8, 0xaad5fe14da76a1d7, 0x2e59364c831ea593],
    [0xc6fa94fa2a19a462, 0xdc930a1b77c0e133, 0xa8126782d2337ef8, 0x24b0f5945c543f6c],
    [0xa9fb332e6a22b983, 0xfd8460a82ed2520, 0xa8f1a61a8965a989, 0x2d8f29c644853834],
    [0x652ada892c293dc0, 0x63f96c838175dc8a, 0xca0a0481dc08b8ee, 0x1e408424ad586d58],
    [0x5ce656b6eef33b8a, 0x31fc30938a5ae2c5, 0x5077fea699a21195, 0x1cae05e2d2ed01ae],
    [0xe199c3df1c1db15f, 0xa608fb6fa9f89bdf, 0x3049ebfdb7de3238, 0x1f0c1735c782a57b],
    [0x31bd7a51a68d5d4f, 0xe1e317634d8de5b7, 0xa5590c64c2c5b799, 0x1c9b672560571e96],
    [0x5fc51eb0ffaa6eaa, 0x245a87e614b322c2, 0xaf2db5a728b6d4f1, 0xc6e7bd2073ed42e],
    [0xef486102e809cef3, 0xc62196c4e12f5347, 0x8a20406dde57d573, 0x1fae1dfd51336721],
    [0x3fcfa38f401c780d, 0xf2aeb8309bd66f3, 0x93a53e864198deee, 0xe408e6db3d016f9],
    [0x72d6422299e0c09f, 0x7fcba040b598ded9, 0xdb8dcccb6c61cbb2, 0x2684ad738e6116f3],
    [0xe4635a789c7bf067, 0x67c3d817bf3ebfbb, 0x1e8a89e76404ba00, 0x2ccc5b6bf5cfb7ba],
    [0x1226c63de056e868, 0xd4f3cce2994f18cd, 0xe187f2b4d453be5d, 0x2e3dcba12acbf09b],
    [0x828c05cb07ad2a19, 0xf5a4e15b4a8f51b2, 0x4ddfcbba70771ce2, 0x23e70e3f73723a9],
    [0xed315345a8594c5e, 0xe9fb5fbb04997f18, 0xcbe64b6cb8aa1abe, 0x169c46ee7bf4e148],
    [0xaa24925d158cac56, 0xd1c64bc22f1c556a, 0xcf0a142a3be27749, 0x190f922d97c8a7d],
    [0xbee1dcf1fa417d7b, 0x64f1e805180ae0fb, 0x2756987e13560d76, 0x7cdcc3b6498adde],
    [0xd3d724b4eb970acb, 0xa99757ad71652f91, 0xf2579df0ff0a06d4, 0x2d9b8536ae52537d],
    [0xe9e5e68d1b34128c, 0x81293e5af0417301, 0xdf855b92dd309c36, 0xa1f0085c5a9cd49],
    [0x5a36b06357c39c1f, 0xbaf67082704880, 0x4a5f324390a4c6fb, 0xd1376badc16946a],
    [0x6f5f12a8b01551f2, 0xfa15370084bc27e1, 0x7aa26de279073df7, 0x106d0427df7fc4dd],
    [0x1b98e094af29df8c, 0x20d7709c633c9011, 0xb861f7ef6e7ba8aa, 0x1cadca4ffc5bd9e],
    [0x73542019971eab2, 0xbba3287807830e11, 0x3957cd89d03319b4, 0xff923b3ab95cf5a],
    [0xb91b0e02e30484aa, 0xc545e660b3da916a, 0x91e38826ccf21bb0, 0x1202a33c0359b514],
    [0x6d3414369f5e3010, 0x479e142e0532f925, 0x5c119d0691f46b0a, 0x11608aa64cc3dc63],
    [0x683c7e7ba457443f, 0xead21ffb0bd048, 0xb5feba943466e851, 0x127d38a920bd78f2],
    [0xbfc6f51126332d07, 0x1d763990945f044e, 0x10650a4ef8c8e610, 0x21f792c3d068276d],
    [0x81cf8692f7f636be, 0x73eba79a19d65041, 0x9b586695c5708e99, 0x1bdbd707d55dc470],
    [0x36130d680d61450c, 0x1f0bb2d12e3e5abf, 0x6305fb990661544d, 0x123ed252de9f1a98],
    [0x382984d4df096650, 0x356c3e5142349c43, 0x9b5e708c60dca274, 0xead6abad94e7972],
    [0xf6175af8f22b3c0a, 0x8209a2631dd62bfd, 0x9c7a6b50a58bf527, 0x21eb504af959f21f],
    [0x82c20b99debc6e1d, 0x6ab32266aa3f4ee3, 0x83fbe7ddd6fe4379, 0x27a7eed4d44ade35],
    [0xaa24925d158cac56, 0xd1c64bc22f1c556a, 0xcf0a142a3be27749, 0x190f922d97c8a7d],
    [0x8c307a825e8cdfd2, 0x6271537ea1a299f2, 0xaa2c7ccdbe788cb0, 0x1462238c5857d995],
];

/// Part 2 of the sparse partial-round rows for width 9, as little-endian limbs.
pub const S_DATA_2: [[u64; 4]; 256] = [
    [0xbc7591ae02a0d43c, 0xaeea077303cbd515, 0x739ea108f5f462a0, 0x20c2ff1b99b7a949],
    [0xfb964505ba60c198, 0xe6e5a9f87cf42926, 0xac50fce7824cbf41, 0x2aaa992acebf67c5],
    [0x49edda3d559833c0, 0x78a4b3435d8a4975, 0x3192ae84ed390074, 0x2797fd373735895c],
    [0xbff7f9bc66be9b98, 0x8c9af537d77bacaf, 0xca1b03ca53bc556a, 0x135eb9d0101c2a78],
    [0x72c78de5a4083851, 0x2ca3854938369a1, 0x5b611c27ca33a5a1, 0x2f594669789d1b80],
    [0xe5c513f46fbc3e83, 0x3e94ef4db9565a7d, 0xb534625bb6ad2ff7, 0xb8f930192502857],
    [0xf7a32d0fb871735, 0x271214127264cb3a, 0xa8ab8e7b8fedb2fe, 0xa520b7ed463311a],
    [0xebefece304d25858, 0xfae45ea67b2c824d, 0xad64e64495b07d2d, 0x17198721be91de95],
    [0xe6334596ee06d0d, 0xd6615d2aee6f1c04, 0xeed46691ba7e1bd4, 0x12b591844eeeeb06],
    [0xf7371b50bf3fc969, 0x71c6bdc0ceb9e9e4, 0x4a4f57ca1199bdd1, 0x2e1d81aaa4a22d29],
    [0x58793628aa689057, 0xe655cbf183ccccbd, 0xe7f8080d1b451523, 0xd18e43e3b9d5671],
    [0xf721702b1bb56c53, 0xa2c88c5bac6d35a2, 0xf57751deb06906cc, 0xaca56cd420446d0],
    [0x86e9f4a821bb0ca0, 0x9023c9ade36b9719, 0xcab3e252535bd27, 0x18370450204ee07],
    [0xd9cbeefb04120e56, 0xd71bf361d742cccf, 0x4ae527c637257974, 0x10717c1af2308a9d],
    [0xb60969310998be7a, 0xe2ced8d16820f464, 0xda729de64d9ac6c4, 0x229af48ad01840fa],
    [0xaa24925d158cac56, 0xd1c64bc22f1c556a, 0xcf0a142a3be27749, 0x190f922d97c8a7d],
    [0xd2d1c38bc3a14580, 0x7622b62282d0aa7, 0x6b0e2918305ea280, 0x1f6027d1806f3db3],
    [0xa955ce93ffb786da, 0x77415f1aebb7e9e5, 0xb7ad3f6a1a9a3cc8, 0xd023c3469f5337e],
    [0xe7dc8256f511c547, 0x57eff6da7fc85771, 0xe723df370f2c6698, 0x2b7436beb1e205a4],
    [0xeaebc6002e6d7f27, 0x29f36d01e1a1e6a9, 0xb9cf97d0b2e75a4, 0x2cf4f5bd0389a8d2],
    [0xec3def3143d073db, 0x9cc562fb57e3fbdc, 0x23cb31070bf6225d, 0x2c689316dee7e23d],
    [0x30e91c08cbde3dcd, 0x116d0196eed2410a, 0xb02990e0c030039e, 0x1dbe68dff3088f0c],
    [0x59209361fda491f6, 0x74885dc099dd32b1, 0x3fa4da66d305d58b, 0x16a3fcc3080e2846],
    [0x73b8920669b10a6f, 0x8c7e68aaa1787fa6, 0x8529bcd5d666e87d, 0x2f84ea8936e6f0e9],
    [0x666cbe4d1476c1ce, 0x85f3cef05dcdae0, 0x555b54a5a8089013, 0xf67f541e326dfc3],
    [0x1d7c7726837211aa, 0xd2e09a481dae875, 0xa367b742715697ce, 0x22c68a5cd419b439],
    [0xee015040835b157, 0x919051815bb5ad07, 0x2283d91a52d9851b, 0x2063328c09ac2265],
    [0x3ea904a781ba8b6, 0xed3cc910a8a0e30b, 0xac40430d4ddc9043, 0xe78527a4658f58d],
    [0x4a1bbf1911b41bfd, 0x8252e77d85f393f8, 0xb8a13b073b267804, 0x1935fe3bceae0bc5],
    [0xd40274154da97286, 0x495c8f92b48bb3d9, 0x5c3b9ccebaf864ae, 0xdc76ca0df681fe],
    [0x83ad4856b1809ef7, 0xbf74041c1b069b1a, 0x6dec3e58fea0eb8e, 0x119aa817917a73d4],
    [0x43fdb593379ff138, 0xdbecafd57d5de4f7, 0x46746e8df5bd0cf9, 0x2aa46d04f1238c6],
    [0xaa24925d158cac56, 0xd1c64bc22f1c556a, 0xcf0a142a3be27749, 0x190f922d97c8a7d],
    [0xedcac81ad52f68c, 0x5597904d4b122050, 0x5b6b81fba32193d5, 0x100148238e0ea61c],
    [0x52accee13fe49fab, 0x9fad5df40df83a1b, 0x151fd9b102eaaa56, 0x8243c72e44e0114],
    [0x9937fa8c3b6d8323, 0xa30f0b7988203648, 0xe75c7f198a5d153c, 0x156b1e5836f0f59b],
    [0x4364d602bc9e9e4a, 0x9091f35a830550ac, 0xc36fef6aaf1aaed, 0x2c0e264b43ed6c4b],
    [0xd15a666a16f45c07, 0x8a9fec8c0ec4e7d9, 0x3e970ffa0ecef073, 0x534b4de30df5816],
    [0x521ff270c6e11e29, 0x55b16f40cf638a85, 0xac41059c73d5f2ce, 0x4dfc3e86105970c],
    [0xb005249e89ced914, 0xe335b211598478c7, 0x364afe5312050095, 0x183720d9443c6a59],
    [0x53003e86c08d99ef, 0xb1183ebdf913126b, 0xa9a151df4013b323, 0x1dd461fcefb3549b],
    [0xd8a48fa48028fb5d, 0x53ff9b7f6dedbbc6, 0xeac9a0e79d350447, 0x2656efdbacd1d58c],
    [0x68deb6fddf95d02d, 0x4b9cb25efe1e0f50, 0x82896c082a6fd4a6, 0x2ef319b13362ac4e],
    [0x98258da7192b9c91, 0x16342e954779fdaf, 0x8b46fe1130d4fa1b, 0x13e976b891949cb1],
    [0x9d49ad9257f55c28, 0x68390facc7e468d2, 0x181c3f9d8e2da90f, 0x8c80492d0cc609e],
    [0xc7ff1e18c6b72c86, 0x9b98f9619b56dc62, 0xfa7fb91c6f1c9f98, 0x1aa3c7c7a08d082a],
    [0x5e088d60d7f02ba9, 0xbbf2f6392bdb0308, 0xadbd0a398df0d4db, 0x1d115ed240331ec2],
    [0x74f0ab7d110015da, 0xbe755d0e9f81a90f, 0xf9c1c6ce9a80b4e7, 0x1444e0fd467ba09e],
    [0x34314d3013266217, 0xd6467b32827e68f2, 0xf4e13c2679d14a31, 0x3ce99d4bd9007af],
    [0xaa24925d158cac56, 0xd1c64bc22f1c556a, 0xcf0a142a3be27749, 0x190f922d97c8a7d],
    [0x7e7781e976961b24, 0x9abc873041ba82bb, 0x6fc3ff8d20e2be4c, 0x1129b914cee48901],
    [0xeb72f2972b985640, 0xfe2dfe0e8e65ce1f, 0x2310dc018015a605, 0x21dbd50af59bdf35],
    [0x6eddd86aecd52d7f, 0x5e6158b2f46341c8, 0x3ed31c588755e56e, 0x25a5291beb01d9f1],
    [0xae1dbb2c40d22216, 0x3cb2d06caa46108b, 0xb029ee873bff1316, 0x8de172c56eebbff],
    [0x1091b7f7ae0d3090, 0x2ad620678106ac7a, 0x39169dba6066e092, 0x1dd2d55f2383086],
    [0x4fee4da0659b04ff, 0x4e779be7ac0cdc6e, 0xa7f281e37866903, 0x189191a64c9e4d96],
    [0x36961bf4eb85d4bb, 0xd14a649b026ef03f, 0x7ac2f28632342c25, 0x141fd736c823aff7],
    [0xd88d5a6ea33721b2, 0xb9249d95bbacd113, 0x7f90f308781ddcc9, 0x113a24d1bc9d10e4],
    [0x92920501722d81a2, 0xcb30ea14364715ea, 0xb73d01fc731f895b, 0x8f0b7b38b133684],
    [0x581fad99e61f6076, 0xff0f96b8bfa00499, 0x1f46bdce8d22f3ba, 0x1bf14ce82aaffec3],
    [0x3de66fd411f6e379, 0xdb90ba42f12451c6, 0x333a0917a729539f, 0x14b7be33a41e00d0],
    [0xf9f7c66bc92a3931, 0x71f87d0c5d5c5ce4, 0x68dfadd3ae015e3f, 0x2107e9e2811d6ac9],
    [0xda436ce437bcfbea, 0x62cd5a4d9f32491a, 0x40b82fc2be1a642, 0x9e1397c5f39d763],
    [0xc7cb05d1298a03cf, 0xe9cedf2060a4f654, 0x2d3a4dae34ab33ab, 0x1d1a01986546a081],
    [0x8a0d3204d1e50f38, 0x95928e8546377701, 0xfef80f63e2c92dbd, 0xda3f22ff498a9c],
    [0xdd3717b64600b622, 0x37a45ad9f433bac8, 0xfd8fbf33e539dc0, 0x25b74b90af9818fe],
    [0xaa24925d158cac56, 0xd1c64bc22f1c556a, 0xcf0a142a3be27749, 0x190f922d97c8a7d],
    [0x47540be437cfc8c, 0x4b51c490cf3fdd93, 0x4ada311ddd4f1117, 0xf3d58dc69226c99],
    [0xb74d57b76f2b61fc, 0x66fa374f1d6bb87f, 0x5ae3e5f030a59ef9, 0x1d948e7f1fa4705b],
    [0xc2ba4ca8738fbcf, 0xfdf08a0f2622a5a2, 0xb45f6afac435d9b2, 0x224176ed89ccb581],
    [0x2afbea6ed6313ad5, 0x7396a83cd407d7f2, 0x1b966cc087d2a992, 0xf5cfe8147eeb945],
    [0xa88cd540a7a8a633, 0xdc5445ea8a553289, 0xd0bb2c324a27dd0f, 0x1b73e95446d5beaa],
    [0xc781786ea3e96be3, 0x45d90177dd52680b, 0xad4482742bcedf3b, 0x1b0f4b75472ab2e5],
    [0xb78761da20e671fa, 0xebddffe7716ad08d, 0x7f98adf8a3f49917, 0x2e189fd27037742],
    [0xe7e6075283e5f0fe, 0xca0173ee19696b8f, 0xf0fc397665c86a87, 0x7c0a2036465c336],
    [0x60453dc0c36d3760, 0x2cf82a25da250d78, 0xbc14b961d96bcd9d, 0x2fb5497d60412c8b],
    [0xb721a6c83101233a, 0xb13dd01a7de07d57, 0xe81d612e258814be, 0x25aa324c8bdacb11],
    [0xa0e3165f38fb28dd, 0x7c81557f56e3b2a9, 0x1d3c58443362cce7, 0x29266b9fc1cca7e4],
    [0x5d0cc2755268dd8, 0x2cc1c6debade1eb6, 0x14f6ceadf2ddc2, 0x1557e3cbcfa7fa08],
    [0x4b7cfca4a6f18e1c, 0x9d3a055cf84e24bf, 0xf26b3281b73de59d, 0x28ad3d8ba97896d],
    [0xa2e95199ef57e13f, 0xca34c62eb2875d4c, 0x8923b4b09be3c0e1, 0x27692be22a310075],
    [0x76a925dbfb9c2520, 0xaf3b24b9f6196489, 0x5b8b2ead6493c3b1, 0x26cb523869e97635],
    [0xd07901124b7a78ec, 0x5cf117e28c8a2d0b, 0xba5b2d0151f770d0, 0x2a943b5d83171ed1],
    [0xaa24925d158cac56, 0xd1c64bc22f1c556a, 0xcf0a142a3be27749, 0x190f922d97c8a7d],
    [0xb22bea911a23faf, 0x9723c7a143eeddf0, 0x468b59990ce9c965, 0x24917421c163008e],
    [0x175890e67c7c14eb, 0x2790ed146dd51c2b, 0xd8abb5924973a603, 0x20347f9b860c7318],
    [0x2732369ecf62312a, 0x1382c7fcead2fc4d, 0x7d15f46bff54c7f, 0xc7b4b3d63f3985e],
    [0x3eb872e18f40bc84, 0xf1ed17cafab46212, 0x32b6783b8f35b56b, 0x16c3c15bfb090d3c],
    [0x252feda118dfeb6c, 0xc2bf08d3b37e6e2, 0x7a77cb759e8c3a95, 0xf4bf0d79b3a4f15],
    [0x4a6721806e60a66e, 0xc4a3dd32c21fb6f3, 0x4529e9415d7094f6, 0x207bc2820e9268ac],
    [0x38d988421d471e62, 0xd3971f81416ec303, 0x5a5c24e50a1390fc, 0x46d6e4942fc73df],
    [0xc00faf2eceda60e6, 0x2ecb745bc74e6e29, 0x829d52fb3d3c2dc4, 0x25d86cb7ab23b7d7],
    [0xd2ecc5ed8bfcab9e, 0xf7993b3530b6e7a5, 0x568245f7d60e5d31, 0x291e27d656977488],
    [0x9b53fd949cd378cd, 0xf7a3e7605dba21f2, 0x283b7ad84aa356bb, 0xdde8d80231232c0],
    [0x962c956d5ded06bc, 0x30db13f90182970a, 0xbd884c08642d2947, 0x16b9bca3f4757ee5],
    [0xae6ddc899e39d810, 0x58709b43c99173ce, 0xfd26c76dfcd0d9dd, 0x148e1434a77d59aa],
    [0x7c239fed5313c484, 0xe056067f7f455cf6, 0x66e00717c0a22fe7, 0x23e38e3fa1713fb5],
    [0x3da381315d128380, 0x7dafdcf4d8c73648, 0x6a2e0b413bb060a, 0xecb380bf60702c0],
    [0xc201788063ece2ad, 0x9fbf3cda3a42dc01, 0x1c9c52f6ddabd883, 0x1504e0be27d97100],
    [0x5ff4eb504623704c, 0xe9966aa7df1f515e, 0x1fc3966950209bd6, 0x204cd425d4fe74aa],
    [0xaa24925d158cac56, 0xd1c64bc22f1c556a, 0xcf0a142a3be27749, 0x190f922d97c8a7d],
    [0x4dd1b3ef95cc9a32, 0xc403ac2ae154cc4, 0x40abef50577ae016, 0x26b0354a46c4b6f8],
    [0x2d6c3fa51ce470a6, 0x3c86a5099967b8d, 0x2cec66b997f2136e, 0x76acba1cd92e4c0],
    [0xbc05fcf71ce8b0cf, 0x292e5179eca20536, 0xd66b1b4feb359a5a, 0x1b9f835efd362ece],
    [0x46d1454b6e5ee619, 0x5ffda13bd4a40b99, 0x650e957cf54880a0, 0x1554b5740239a036],
    [0xab9659c6d3bd51f8, 0x8eac44b18a4e7df6, 0x2c4cb2f2e3c8cbfe, 0x2337f0f2350dcf2d],
    [0x6618b82d6e38c750, 0xaad8197d74f498c9, 0x9f4c9524c0528c57, 0x2f70347a3e263a82],
    [0x4f2264355251b598, 0x12a32cb4742c75ec, 0x67c9af15fe9700bf, 0x2ae047c01e6b7909],
    [0x2e1eaaa26b6b1165, 0xe6d99df86b64ee5c, 0x88f0df2411e45b18, 0x12bdad7535252244],
    [0xebd747dc62704e80, 0x9ac5d398e5fc2330, 0x9ab897464c9c31e8, 0x7ed14a9dec030c7],
    [0x9134036c6f9f4c85, 0x6381f5402a1ddee5, 0x7ccc396ada19284c, 0x2586c2f08326503a],
    [0x433fb556e13bf35, 0x8151fc3b74c8844b, 0x16aa0e449cb6b0b6, 0xe28de3e58815af8],
    [0xb1a4a97d82be2fc, 0x2f5c1de7a672c040, 0x4c20e204de21846, 0x15ed9ae17b487084],
    [0x23a783668f39363e, 0xdbbe5288e8503eb7, 0x6d59db7d062d3509, 0x2897a3c61ab7e109],
    [0x5a37fd8e4e65d6a8, 0x2ada7adcbc0d3d53, 0xf4c8186a39e4ced1, 0x19382e0101202bcf],
    [0x7c0ed56006979547, 0xdb70b13bb644c656, 0x8ff525df9a110883, 0x1dccf64cf1043efc],
    [0x45dde82f8f475dfe, 0x56c363cde9ecc957, 0x753e6e4516dc5f18, 0x14f753284093a5bc],
    [0xaa24925d158cac56, 0xd1c64bc22f1c556a, 0xcf0a142a3be27749, 0x190f922d97c8a7d],
    [0xb4f755ce355a8c06, 0xf86cceda48efc0ae, 0x1b69470f61a3279a, 0x47ce0768d3b9450],
    [0x91d57aff64a307c7, 0xfe09cda8242afff6, 0xe3c8d24fbbd1abf9, 0xa838da94e6aa2b7],
    [0xfb454b475cad2249, 0xa161fef6f8554acf, 0xb96f90a10f6662a0, 0x2ccf7207714857e1],
    [0x10e08a1c48b27399, 0x7e793f6566531289, 0x760e735d74ec7fc1, 0x2c964702e998844a],
    [0x3b875972e7e4215, 0xcecd2723a3e6c000, 0xa8c45940e32da21a, 0x26c73fcc286358f8],
    [0x2d80b44b4274164b, 0x2885a71adf534864, 0xcd6c045d3f40b4cd, 0x2503bb71691693c6],
    [0x1d0f063c1b6b1d49, 0x965ce656e4ee3061, 0x69e24a9adf7863bd, 0x21abb0f3aa09de05],
    [0xd624471d1356d10c, 0xd2fd27789043907c, 0xb9738876128c7d16, 0x1e6c18a3ca281852],
    [0xdfd8d7595fa8275c, 0x9b52b8f58128eb49, 0x788e8c257caa1e1e, 0xbb323797079be60],
    [0xd0e0d5a8f1dbab81, 0xa3bb50589d72655, 0xa2328ab28d0ef035, 0x16ed4d5164745fdd],
    [0xf8bf746f72e33805, 0x76767224986c45f5, 0x441eddcffb00dc8e, 0x1719e6626ea03d94],
    [0xd706f646a098db7, 0x4e9c5d1b32a43b26, 0x45a076776b4366f0, 0x20dd2444d1b30a7e],
    [0x68fda23a8a2e0b1, 0xa4f8446a8a0ee03e, 0x1f5841a3b63aa9e6, 0x2276006ca87d973c],
    [0x35463621fa77998e, 0x28d4149d57c2199, 0xc8700e6293a0d896, 0x2d3e7d6feeaad7f3],
    [0x49d3dc9ea62053c1, 0xf06d5676e449e9d2, 0x750ddbff4a7d9865, 0x26f15d4ba4736c73],
    [0xc0da88b9d05c751, 0xba4ac9f6537aa373, 0x91fef85aa46df13c, 0x3636803242973ab],
    [0xaa24925d158cac56, 0xd1c64bc22f1c556a, 0xcf0a142a3be27749, 0x190f922d97c8a7d],
    [0x3bf392bb9e71f123, 0x1daae81b8d9aa0c3, 0x51e5857e412427af, 0x2ef01bca238ea435],
    [0xfa3bec6c0aab01cc, 0x37d6cdec3559bc12, 0x46a7a3973031a866, 0x3030333648057d1d],
    [0x1a9d1e83bfc39abe, 0xb8f1847e5eea9134, 0x593715987d3e6ba, 0x24dce91bc3df505f],
    [0x430c796311d03868, 0x9a9cb6d64b85f943, 0xfda385fc945d7626, 0x27a2aa95ce7bd870],
    [0x65f9271c1cdb216e, 0xac2d25ee877612e5, 0xb400c42da52ffa8f, 0xf32e1ed6656688],
    [0x3ddcc0795e6bfc0f, 0xd048806bb1b3352c, 0x357adcbab763a96, 0xd69d7d99a58af86],
    [0xb4c72bd9468d8140, 0xc6e7baf54eef93f1, 0xc404d7561a6d4ee7, 0xfca01158c0aecdd],
    [0x65a2291693c409c0, 0xd9936a45fcf2f11c, 0xf172c7a803a71af6, 0x24f65dd1622f5993],
    [0x4e752cae13e04650, 0xb3ccb20e06ed7bd9, 0x526084cc56e8b53a, 0x23b6c1c4a9697834],
    [0xd50109ab73af2372, 0xaa90ee4da8272d7a, 0x31b8658df5a918b6, 0x6b0b0674f9e70ca],
    [0xef9ecac933de75bb, 0xade6329c228d8c93, 0xfeb5b0ff2128b745, 0x119ea3133debe120],
    [0xfe8bd02779da7686, 0x330111bcda65ff19, 0xd74df9669ece211, 0x28fe0921f3e250bd],
    [0x1ee61de9538906f0, 0xc76577f4ed500915, 0xcfa33407bca08421, 0x121bc322c37b3a84],
    [0xc660181bf6708e7a, 0xf6754192023f96e5, 0x3f148d03064ab681, 0xc6c6d133c64df4a],
    [0x254d1596854d8e9c, 0x3ca8602aceed83c3, 0x142c05d7fcb45bee, 0x1f357b000c8ec106],
    [0x36cc97e28b5c1109, 0x86d55e529d8167d0, 0xcc9388f33298ca32, 0x2c635fbb8a475d22],
    [0xaa24925d158cac56, 0xd1c64bc22f1c556a, 0xcf0a142a3be27749, 0x190f922d97c8a7d],
    [0x1b28c0a4ded622be, 0xbe2c13f36ac1a096, 0x376ed9f1b60b4c1c, 0x1416e46669e99f6],
    [0x6c01012829848e35, 0x575d4d6692e905a7, 0xfae37498067d1cc7, 0x83b993a01c06914],
    [0x6de042af8cbf653e, 0x3fb2435fb0779fdc, 0xddaeb23a84cb8fc5, 0x7d66eff962ec6],
    [0x80f2181a0c9321f9, 0x5b6977dc8b9f128e, 0x93b6f729cd48e89c, 0x243493ca2e9aefca],
    [0xacb784f2b1eb65f4, 0xb1aa8a200af1b3b7, 0x5df3ad290e18c8fb, 0x25315cd8d5b5f093],
    [0xffbdd24c754013, 0x6e6db6c35e363905, 0x6a9da6a406a6c234, 0x219e9f27376ebda3],
    [0x2defa1e5ceaf52ff, 0xec4aff60cbb9420b, 0x139614dcafe4e82f, 0x2784f770d363c088],
    [0x73788cb38e8efe3d, 0x6c7fc3cb884c48df, 0x1c7339890b350f71, 0x2ef0972f7624a2c7],
    [0xa200084da0520420, 0xe797261d015fb0b4, 0x4d3e6967a19ba68, 0x2638005f1bfa951f],
    [0xf42301ef9157a095, 0x56aa61c9cb4fec45, 0xa44e59a4f007076a, 0x19952bfc2b15a1b7],
    [0x9e51fea4b142befd, 0xf623f56f67ec13f2, 0x2f62f95d4475c079, 0x21bfebd7f0dbfa95],
    [0xd0c4048cbf0ba4d4, 0xdd2d556f659c98c9, 0xc30c665546f1b68c, 0xabe0cbbdad752e9],
    [0x6ecea299bded58d4, 0xa06e8405141d0744, 0x5e54fad44d549bdf, 0x20c4f2c291c5f0b1],
    [0x6b3e0f3674aad830, 0xc276a2e60a134bfa, 0xa163ee98e379877f, 0xc703a5af22bea77],
    [0xc2ef1d7f5b9bd4a7, 0xaed64fcb59738bd5, 0xf4c12bd16e98f891, 0x23898a43fb970529],
    [0xa268f0fff421969d, 0xc449bae168ea2b2c, 0x811873af0dc39f91, 0x27de205e3b4f798],
    [0xaa24925d158cac56, 0xd1c64bc22f1c556a, 0xcf0a142a3be27749, 0x190f922d97c8a7d],
    [0x3e9aa4587000464d, 0xd8f0e74e1a64c86f, 0xfb88fd09bad59e44, 0x34e0217aaa3133f],
    [0x1f77206b6a0e0da, 0x27250f8e566688bf, 0xf6291aeeca8d1e19, 0xf0d2954a3425d4e],
    [0x42c3ca3f254ebba8, 0xc38561a6563b7c5c, 0x8ec1997151d62106, 0x38ae6c953b05fde],
    [0x7a1558b93d5b676a, 0xb35956b5da4731f8, 0xef8419054977e8eb, 0x129dae3e6abc9b3e],
    [0xffd1e472333de8a, 0x909d680763048396, 0x2c36bb6028ea5edc, 0x43331ce5bf13e21],
    [0xd0d6cb3cb95b6590, 0x366efc923072442c, 0xc7bfa7f82c123947, 0x6edd2bca6596515],
    [0x841e61f2a9d53c10, 0x154a2f0dcf576e36, 0xf778833ec9cc9c97, 0x218d39e5cb24a98f],
    [0x3221f43ee9ad60d7, 0xb931bdcd410f5144, 0x56dcd1a4d25ecdaa, 0x7babdb5f969df10],
    [0x2db44f9da92ac45b, 0x1918dd6639ecb58e, 0xf95cbd07ce9c5c5, 0x51f51c6edca7ad2],
    [0x70c471bfab8547b5, 0x1aa40cbff3eec697, 0xca697c5173126546, 0x18d0cb9110ed2c13],
    [0x6403e1d5ff99edb6, 0x2634c161746e664b, 0xc64ac7ca148c41bf, 0x151c0d100750fd3f],
    [0x91c59b84f1887631, 0x826ff80c20dbb909, 0xc6bc0b05a5f9ad32, 0x1badce073db9156b],
    [0x141caee3928bc88a, 0x79741583cf177a43, 0x7da69b64b7f235ea, 0x1d09611b11f20c35],
    [0x62a75da5db50cd54, 0x2beefa10ee9373ba, 0x86dc7a0c1919a20b, 0x15903ccf8bd20aaf],
    [0xc92584dbc86bbd7f, 0xdaef83cf50f6daf6, 0x27e8d35c0f775d81, 0xa3ed89f42295942],
    [0xc27064b2a745f832, 0xa83a9345daed49e0, 0xec2cdeb9f465fb29, 0x15c5a6fdd9b6ba06],
    [0xaa24925d158cac56, 0xd1c64bc22f1c556a, 0xcf0a142a3be27749, 0x190f922d97c8a7d],
    [0xb062de40904cd041, 0xae7dd8511ef4dc4a, 0xcde464739cd972c2, 0x29c47b21c3c1399d],
    [0x823155b46636b40d, 0x939fad669606a0f8, 0x3803874435eb8c4f, 0x5d20c3e118f7e16],
    [0xcdb17f64d7a76365, 0x47e49cc258d86927, 0xbae4363b8de139b0, 0x2a8adf7b64ebaf6b],
    [0x2f67350700ea184c, 0x7b61c23766c13afa, 0x5309134d8f116039, 0xcfab49644bb2473],
    [0xfa6cf2a4145ea323, 0x71bf524a94ff82c9, 0x8e04a00ebacf84a9, 0x978c1e24a56e9f4],
    [0x11c84e3b99e4dca1, 0x296a181f33553bfd, 0x632751fda2c80347, 0x1e7feb08ad0759f1],
    [0xf526a491d03df083, 0x81dee2c09c00d14d, 0x647fd56e418b432d, 0x1636f1c4c6be9b16],
    [0x25c87b621392968f, 0x6ff48c4563cb5639, 0x4c49962f80f06a3b, 0x1d0941c7678aa381],
    [0x32f831f2d09f470d, 0xbaee98d0be48705b, 0x4979a396e2c55b21, 0x1ba792f0e7770d29],
    [0x35894369079e2858, 0xe05c507c38a00955, 0x8e82466fd94d2142, 0x1adfb90be5993e8a],
    [0x5831c7d9f6839e9a, 0xd7b87646be925abf, 0x15f58d3fe4840f96, 0x1701417adcc7a635],
    [0xc4a7a7754f9383ee, 0x5c1852e6ae60f5ac, 0x28d468884eec482, 0x16669c07129defa],
    [0x20b540d23a5cb4d6, 0xf134b5f39b13e8aa, 0x2b9e0abfe88cc482, 0xc030db661bf6603],
    [0x606ef07634d53130, 0x6ba1fe5385109b7e, 0x53c8cfe80928a76e, 0x6c29b50030b9f96],
    [0x791dc661d4122a0e, 0x3dcae6d2e240826e, 0xe1c4312cfcfc154d, 0x158eff715b637ea2],
    [0x6963b0442a478865, 0x583f07948cb26d8, 0x87b4613d9bb448ef, 0xb7414bf9dacff0d],
    [0xaa24925d158cac56, 0xd1c64bc22f1c556a, 0xcf0a142a3be27749, 0x190f922d97c8a7d],
    [0x351d133ea65cf8aa, 0xa28a50d608f2d6b0, 0x397ed6dcc705505c, 0x2fc5816a8a9d54f1],
    [0x64949876fc8e400a, 0x5ab6bb25f790365c, 0x51e0300c6bf97e65, 0x24d04d2b53f9f94b],
    [0xe8dce6a01aed702a, 0xfe555d3d9bd6622d, 0x68d132d1677f1c43, 0x12c2d385c706f78b],
    [0xe3dda54b1741ce3e, 0x717cbc56974a70b9, 0xd6ff67cc6d32ace4, 0x2cfc07b04b7ac6b],
    [0x6956e281834fcbde, 0x84fd099d747641e1, 0x3a95f1bd6eb87e76, 0xdbec9e92d14512f],
    [0x6753ed0034ed3050, 0x9076972f5e03db94, 0x2476f50536e03d13, 0x11110cac8dad4536],
    [0x4642c521dda6e462, 0xc062bf2042537e05, 0xb021add82a2fefe6, 0x17be085a196605f2],
    [0x1941f95b833853d0, 0x19bedd08f87f0c19, 0xdd60f6b52c015568, 0x2d30434c0cef5fb5],
    [0xf0905f59854ad640, 0x41d9091b7f085eeb, 0x72d5f3db2bb23cfc, 0x297804121986231c],
    [0x21dae9bd777d64f3, 0x8f9dd4a395529220, 0xf2352bb41b51d59a, 0x263cfbe2843370e8],
    [0xddfc0c54c6d952cd, 0xaf369be58ba4ca5d, 0x4cec18e94b273c02, 0x1ada1b57547ba0b4],
    [0xea2abda08058ce2a, 0xad7a51eb2e49779f, 0xf4ca6b68ea1e8636, 0x1a022e3c7f181a5a],
    [0x7cc751e6fc9e106c, 0xf887d71a8c62409, 0x2194fe5442fe816, 0x1a51a742b5e2a8cb],
    [0x8648593cb27ff95b, 0x7f0cd5b8d702fa59, 0x2528fe456e4b2841, 0x33a3c4fb2a33686],
    [0x88bcfdb710ee11ec, 0x245fcebf2267fb77, 0xf115beb9741fefff, 0x275297e881159b1f],
    [0x79f9a838fa43b50d, 0x64232b0ba94e58e8, 0x4d56dcebff69cc75, 0xc4330cf0545fe0d],
    [0xaa24925d158cac56, 0xd1c64bc22f1c556a, 0xcf0a142a3be27749, 0x190f922d97c8a7d],
    [0x2791fee2f3f0db30, 0xe6b3190606a2df9, 0x4e3144d88327053, 0x7b613d8cbe7c7e1],
    [0x13708a57b0bc0665, 0x679afd366f571605, 0xc7a0e199a914abfe, 0x328bb8607f89952],
    [0x4ba8f8934fe40e7f, 0x7ea5c8ef3ac3433a, 0x60818f92783ee5b7, 0x2797d2a42bf2c3f8],
    [0x1d9058d01fc106af, 0x3af6c87776525bb2, 0x4067c5c09affc7b5, 0x233e6f522a14ca2],
    [0xd82307c6e8d80084, 0x6a3882cc1118cc8e, 0xa786394027404bbd, 0x390562c095c160a],
    [0x491629f71d978f6e, 0x12cc85b77e3c5ada, 0xe9d75f64a39807c8, 0x17106e1ac0cfcf36],
    [0x44621e6cd4ca5c76, 0x8c9c648cc46dcf33, 0x733a370e5031375a, 0x1aa28e48122d0a44],
    [0x922d50d8444bb79e, 0xac181b9b05c6bceb, 0x37f90fae8b9a4c5c, 0x18f6e768b9bcf25d],
    [0xf62d13d0c670d988, 0x27ff712c5c9fea03, 0x6b10060bfb852af8, 0xfa9340f079ddc47],
    [0xf360675867efafeb, 0x5ba99ee53dc906ea, 0xa946c2c3a5c73b22, 0x1db99f295b05ab42],
    [0x26e3ce45de3d3477, 0x1d65b7c5a3a55552, 0x1b10240c0a6b9b77, 0x97578aeb43a7d6b],
    [0xaf03f8d5698f4a87, 0xbd76c31f1b4ee763, 0xade5546a726dcba9, 0x1974c34d88938d66],
    [0x6a0c24512df222ce, 0xa8f20f4d8bf3aec0, 0x68bbd9ca2c177973, 0xe25a828aaee6f11],
    [0x1516f2a0eca9057e, 0x240097198655687, 0xebeaa09712936f84, 0x2e13ee7394e626ff],
    [0xec5a56b053717254, 0xa251cb83be6fad47, 0x91de4a052172de99, 0x20be54787d3e6d7e],
    [0x2e25827ccaabb750, 0xa6710e0f8239e893, 0x8ed2efabc0f81184, 0x2019386dbf1595],
    [0xaa24925d158cac56, 0xd1c64bc22f1c556a, 0xcf0a142a3be27749, 0x190f922d97c8a7d],
    [0xe45513baa490207c, 0xd5f1346a8d6d47dd, 0x6717bbb0e7fb7f4b, 0x1195db45235e0b28],
    [0xed986f1b6cb74f79, 0xa3222dc5ecfb298b, 0xc021c27f0c3c0a7c, 0x257be62b59d6f54],
    [0x69d1d3364630829, 0x961ef1c979c315fc, 0x9a698d4bd390f1ad, 0x2fc61e8c69f1b6a8],
    [0x71a38c42c4171dbb, 0xceb5a6dc5b95497a, 0xb9474bfe10517c93, 0x4ed6dd96dd4ba79],
    [0x5a03b358f12c0dd1, 0x257ea1de1700a717, 0xd37d7aa27311dce9, 0x10c8d7d4846014d1],
    [0x43d9185129ed01b8, 0x4500d96c2894313f, 0x68c6792ed1b6a427, 0x7f833418697f43d],
    [0xd96402e5f9a2c102, 0xd8f609b346809f66, 0x9737b23efdaccc40, 0xaa1fb14156f9db5],
    [0x75095a4992926de2, 0x752882d30152a75e, 0x7abf26c5378da756, 0x1a3b635b05a02287],
    [0xccb3059f1d80714c, 0x7ef08892e6706f4, 0xdf8c68cc1fb842fe, 0x5ff6852ef2c7807],
    [0x484698a6cb02374, 0x69d09e3726967ceb, 0x71ce21881f133bb3, 0x18e93ae4b4c092b2],
    [0xa8ca995b3ec32fdd, 0xaad3445b2c5b2698, 0xdd1a4ff1c6fb4d16, 0x5f1d71fc99fd6e8],
    [0xdba7af1690317514, 0xc1d32dd3bb17f3a6, 0x8a5c9a03fc5ec713, 0x260b2c665cf86324],
    [0x82076ce77fbd4cf3, 0xea2e6cfdd8883936, 0x333ea797e6aa2e76, 0x199dc26831d1b81e],
    [0x74940eeb165417e8, 0xda97358c40cb69cf, 0x85cf197f765c50f4, 0x1fc7841c37625491],
    [0xbf3fbed8068089fd, 0x5adc39e147443ffc, 0x724dab7416f943e4, 0x3dd8db3c33075dc],
    [0xece8bea54f0d620, 0x4f235a1b676ac4fe, 0x6da8a9b56a5bdcef, 0x1415d87f2ece25dd],
    [0xaa24925d158cac56, 0xd1c64bc22f1c556a, 0xcf0a142a3be27749, 0x190f922d97c8a7d],
    [0x5f711e384807a40a, 0x93046288c5bd8ac9, 0x7cd54b5dcbd49e5c, 0x173e973d92b03e8f],
    [0xe1f91b9df6396353, 0x6c73ee4dcc5b09ef, 0xe21b84385017d630, 0x1e9e9e8f087fe7ea],
];

/// Part 3 of the sparse partial-round rows for width 9, as little-endian limbs.
pub const S_DATA_3: [[u64; 4]; 256] = [
    [0x1a6a1cd485026cee, 0x6018ea559290d204, 0x926254d1b4bd27ad, 0x2cd39e6fda7b0a75],
    [0x90ad77806c79f9a8, 0x97ad91281972ca96, 0xc0923e89242ff079, 0x2babe32c6ad1c466],
    [0x583dab5e6717aef6, 0x3653275ea183f956, 0xeab057577cef2d00, 0x1671e3aefead10c1],
    [0xd8df3dc5271cde9d, 0x63872c4564b413d1, 0x30e2073b9042e257, 0x638040b4e068d63],
    [0x5bd9ada0b316489f, 0x4166b34dc1442af1, 0xc9b0377bf5f4c7ab, 0x13a1be086b1c130f],
    [0x7132781f3f912c04, 0xd8d702bc0e49b715, 0xe267acf28a048035, 0xe92a08c67a64c7],
    [0xf333bd8cd9e9da57, 0x8d463e5c14cc82e7, 0x5b6a50ea1e0ff6c8, 0x24fcf21bb660a946],
    [0x5021cfa3996b90ce, 0xb909f2bffe112894, 0x608cc33d103d7558, 0x19c3400c22778ad2],
    [0x3df15449ca092955, 0x210038ab3097df36, 0x13bd15ac4fb0b38b, 0x1804ddf73341fab2],
    [0xfff3459faa369209, 0xc6b7eb3174702acf, 0x58216f2d17baf589, 0x2d030e104eb695f1],
    [0xd98ea23bde3e0a9, 0x372569f2c1f815eb, 0x20dbc0f2d1ca6225, 0x2ac28b5273536d55],
    [0x6058d4404d326aab, 0xbc7151112c28ee7c, 0x309bdb51e3f76481, 0x132369e44fa5b49f],
    [0xa68471c1d8f995cf, 0x158a13dc059335b0, 0x8b3bd213083f0540, 0x1030d8dd6355ef0e],
    [0x64a313846c8db7f4, 0x2ec53e66879efc86, 0xda8d27c8d885c68c, 0x10754be6667d0c88],
    [0xaa24925d158cac56, 0xd1c64bc22f1c556a, 0xcf0a142a3be27749, 0x190f922d97c8a7d],
    [0x9caa0de9ee8833ad, 0x94e8445ea8a34d40, 0x987a5f1098a3dc20, 0x245fdf24ed7cac6d],
    [0xa72ff4a260f80341, 0x4394b214ba4d3786, 0xfb5371343d7c1aa3, 0x2ddcd4b1ef28429e],
    [0x1a11428d2bf8060b, 0x8fb54bd12c0f6976, 0x8988e1e47f2ab2a1, 0x9796da1c54e9465],
    [0x4cc9f4c83dc7c88a, 0xb9842681762d614c, 0x737fd84b55e00d69, 0x2b820079829572e4],
    [0x962834099a206d0b, 0x2ca9deb979598179, 0x29ac58e2483bbc9, 0x2a2c8f2dd7ed7049],
    [0xf4e3089ba598e03d, 0xadc2aed2f7bb8975, 0x301a58544eb5b390, 0x2e5131ed99601233],
    [0xcc7290b35f941c80, 0xed913cb3186aa67a, 0x318ce14ace0c1f7d, 0x6f800a70d479c89],
    [0x809bebcdb4680146, 0x3da4ec246480e769, 0x97ece8ff31c76e8e, 0x848edf27122e8c8],
    [0xe684f9285d55840a, 0x62fb9d75cbe50aa6, 0xb0cfa12d0a9bbaff, 0x3032a7d711f11783],
    [0x4c9a26f4c0bcb5d4, 0xe80da2b33bfa976b, 0x70ed5326bc516f90, 0x156bb4b89a158273],
    [0x113dfe28236e707e, 0x7944ff027999bf3a, 0x1925253de130044, 0x104b800aad84f2de],
    [0xafa0e4dfad5ec22, 0xeb8a311ca69d595c, 0x6d3186a10f60315b, 0xee24634e1374e50],
    [0x493e6a49308509bf, 0x65e5236deff84adc, 0x4de796ffb0a718eb, 0x886f6c8618d4565],
    [0x569695fe0a86f7e7, 0xedccc1d65b28e52d, 0x34bf4b95c535b224, 0x303f792b77de0563],
    [0x14ca2e70c76fa68a, 0x80119255d976673c, 0x32e5ed411be107b2, 0x2ce5f9bdc64ab48b],
    [0xa9443faabd36d6af, 0x7875a84fe5c6763a, 0x8aa04dab03f6a8fe, 0x26f0252f0b0b6f63],
    [0xaa24925d158cac56, 0xd1c64bc22f1c556a, 0xcf0a142a3be27749, 0x190f922d97c8a7d],
    [0xe65ae0c86cb9f0c6, 0xd1f1cf13454c8d0e, 0xdb73111875ff0e97, 0x895eaa7421d5c92],
    [0xbf9f37608783392a, 0xefcfa1fd5cbe8b5d, 0x9cd972b637bfb018, 0x5a37e53d3c5dbbf],
    [0xa9e62c89091da8c0, 0xe61fd9c94dc77201, 0xdd55f82b711f05b3, 0x2151abfa55e801a5],
    [0xe1c14a173615a901, 0x6acc1e32ea9eec40, 0xbc5dc0bcfd52e2cb, 0x1df7040bdf6398bf],
    [0x342169aa4100b9aa, 0x5f5d286c648a89b4, 0xa039c11aad12743c, 0x82d9c0993ae4a12],
    [0xf6238be2c511bd11, 0xed6f785e4aa71196, 0x4b582213965eabc5, 0x295f9f8fa059d54d],
    [0xd900225ced81b35e, 0xcea810bce027e64a, 0x63993741279cea5, 0x11489075194474f],
    [0xc00575a9105112b0, 0xd39c2aea66bf429a, 0xe1c37e06d0576f4e, 0xc308adc9b0dea53],
    [0x7d918c6e330e08a6, 0xfbbd2b1543d1564f, 0x3520c3cbcd712b3d, 0x1c8ae9521d6579b4],
    [0x56870e7ab3d5a569, 0xb021b33f6407ff2e, 0xb3eda1d9f831ca67, 0xc69ad644957599b],
    [0xe47f8bcb88f36836, 0xc1157e5d65989ebd, 0xf45728b381e2ddf7, 0x17de4f74815fb3a0],
    [0x4794a3cf65b48d17, 0x7f09a266368f0e27, 0x2af68f0bc80c9957, 0x1fc13b76344108f1],
    [0xbd0374b6ae37f4a2, 0x58a6e26fa9da0865, 0xe56076df74e5c30a, 0x2fad04c4a1bf440f],
    [0xaacceaa054e2ea5b, 0x1d7924730fe7325, 0x765ce87998097a75, 0x20766bcc7f359bfe],
    [0x4729ebdd66ed5fd7, 0x57f935d028f7ed1, 0x5edf6a2065188ea9, 0x14eb221ab65d0dbc],
    [0x958e0c789c9d93bf, 0x35b948175c064ace, 0xf84daadd630392b7, 0x1cade81c4d562af],
    [0xaa24925d158cac56, 0xd1c64bc22f1c556a, 0xcf0a142a3be27749, 0x190f922d97c8a7d],
    [0xd33fd5dcebbb1f44, 0x18e71f26b4e1aae5, 0xcc33326c70be0a85, 0x19b64914374910ba],
    [0xd3a9468ada975dda, 0x37441be0107ed759, 0xc5c1432b20c6125, 0xec087bc39e5058e],
    [0xefd26e3a8bfc5f6, 0xd09f47f0745dfc85, 0xc4dbc19c765ca2ce, 0x25f6ade6e9833696],
    [0x2c00153ddef5a9ae, 0x40e0591f179780d7, 0x38dba020f22a4768, 0x842f674f65a4959],
    [0x630f7e3d00997aa, 0xf0ae40289fb0fa88, 0x3c4c22af9cc37a73, 0x24b3232f05be57ef],
    [0x5f65391b8e7f6bc3, 0x4bb89363318961ef, 0x20ac0b5326d130a2, 0x2f4b230d825a6825],
    [0x31ff1b54f513509d, 0x48172aadcfd6391c, 0xde5068f18ab196d3, 0xf1644020d8a6c0d],
    [0x357a97d14f531797, 0x72a4b8620b78bbbc, 0x8a645c9e4af943d3, 0x73fd850ca9561f],
    [0xcb0c3bad0574d104, 0x7bf2723a494278f3, 0x6fd660d8e52cf27f, 0x284f86b9cce13fbb],
    [0x6af6f1bcc05de855, 0xfe3572ae4eaa03be, 0x9430ccf4d2f1afea, 0x16bee52d1d6d362b],
    [0x535200618b9ba0c5, 0xdd23fa2c44abb7f1, 0xcca318d1b5db37b5, 0x254cec1178e80740],
    [0xb109c94ef6dea9cf, 0xdaef98278c2ce59d, 0xafc61e592e98a63e, 0x113069cf767ed4],
    [0x4a43dbeaea77d229, 0x1d51c7d0da9b645a, 0xdf9104cc23b3331a, 0x2829e1532b4fcdb2],
    [0xaf6fd6a76dce8bee, 0xdeacaddafc1ff871, 0x4a889690a3341f55, 0x24a03c0f7b51b6e2],
    [0x2703b23a78f391a0, 0xce4ab7e62b14ff63, 0x7ed62a0182114a5d, 0x24a7c2c124131ab3],
    [0xd20a83a4b68fc09c, 0x20e060306d9df5a9, 0x2e6bae8f1750de86, 0x19529e943e466da8],
    [0xaa24925d158cac56, 0xd1c64bc22f1c556a, 0xcf0a142a3be27749, 0x190f922d97c8a7d],
    [0xd4ad53069a88789c, 0xf8fe59cdeeecf859, 0xbdcdf9c11393c34e, 0x274c0f68f679da53],
    [0x85cea5e7dc6978f5, 0xd3ffbf539c9145f3, 0x3b8a8938140b127c, 0x1c900ca5882b107a],
    [0x4581b68c6789df33, 0x64b753ba575456a7, 0x16f4503af137f0d9, 0x55a3264b130bb43],
    [0xf467b0e8aa1af13, 0xf02dcfc4adaf26a3, 0xb2e6b8093a758db0, 0x290033424503055a],
    [0xd525493f75c7bca1, 0x5422861a044211e0, 0xbf9a598a8496f83a, 0x1b415d6ec7893774],
    [0x9b9a6df75cdafd39, 0x288849d1eec7ebf8, 0xab35f3a62c5689a0, 0x2d5e6a92650786e6],
    [0x1139f008651e3037, 0x22d8b79a791b10b2, 0x94265523f0f6491e, 0x15b1c6c75717d38e],
    [0xe1b7842c338dc1e3, 0x430b6785cc5f65c3, 0xa6f17fde7f0aaca6, 0x1f929349fb5222c4],
    [0x6326b767ff099cba, 0x47545d11d45e41ed, 0xc8890fc8fee64221, 0x23034bb8b8618de8],
    [0x80f1eb2680169f69, 0x76323ed39f88a75b, 0x5906d4db350e41b1, 0x2ab706c6d21e887b],
    [0xccf79c1f7e9ee062, 0xb22b16ad324fbd90, 0x325b33a80e6cd32c, 0x4c1031dda5e43ef],
    [0x845682fce0b1a41e, 0xaf06bfecf4e8e0bb, 0x25d29b8894223a7d, 0x1d663d31705eefca],
    [0xe2a8052824c6e332, 0xd4aba6592823a51a, 0xd66bdad7046019b6, 0x18c97bc6dc2ee1c3],
    [0x6da43fac32e1ad3a, 0xde582e2eff9d0589, 0xff0490adec752faa, 0xdde410729932dca],
    [0xe132828568d8eab, 0x41cdfe411a09f80c, 0xbec1456611485a68, 0xb12de1270d788da],
    [0xee75544eceab640c, 0x16c845c2388cd22d, 0xc5b1527bd0a3ac4d, 0x5194088cb1b0f39],
    [0xaa24925d158cac56, 0xd1c64bc22f1c556a, 0xcf0a142a3be27749, 0x190f922d97c8a7d],
    [0x9df0915fcc86872b, 0x482a2642dd8e798f, 0x347c6fb6df54ac6b, 0x2a2904f92bdc035f],
    [0x90dc5f594761d665, 0xb10d6c65946b2878, 0xcd8189c5fd0f79b2, 0x8bc0f22b597fa12],
    [0x589706c1335619d4, 0x22c66c507fdd08d0, 0xa8dbd4d5453e1881, 0x2bb55a554f9bcc5e],
    [0xd0fc73852492508, 0x69484ed697e2e9f8, 0xf5c48457785ef1b4, 0x2471e91078add335],
    [0x885f8cbd14ac42ac, 0x887c798ef446408e, 0xa1b980d883532ef2, 0x2ccf72b7324cbdd4],
    [0x8cedadfbd88a583d, 0xed700bd88685d0e3, 0x4a35386f68e09a8, 0x1c3b75aada78c1b2],
    [0xeffca4502577c733, 0x597038fc1b097380, 0xfef86bbcfecad592, 0x11164ea9623704ea],
    [0x2ceaddfa215f691, 0x40905eff5b583413, 0xac2ada2e66e44a44, 0x4b961c368270196],
    [0x85e727302d8335db, 0xfa1c60fabd54065c, 0xe019dda64104e9bb, 0x39dcd1dd3ff8d7f],
    [0x1268064e735060b8, 0x80fb854af9ad1be1, 0xc1d77f6a80d2c256, 0x90f27feffe276b6],
    [0xc10912ee896fd3e2, 0x93639c7937eb7be2, 0xea3c39d791bf28ec, 0x202922769a226e1d],
    [0x5d368c543f9560a5, 0x3d4baa163dcbf6e2, 0x9e41bd1c7cf0d878, 0x163bb1b11596201],
    [0x3be4b90b39e57cf8, 0xc682fde58858a207, 0x7c3b74fd98c3cc, 0x255dd24ea1b49972],
    [0x746f126b11beccdc, 0xcf42759ec5941f0, 0xfd3e2683bea0ce60, 0x2be5aecc70e89fd7],
    [0x4a1dc01bac478b91, 0xed261cd8d5014b42, 0xc41e85ea3ac8ea67, 0x1584587c91f57bbd],
    [0x29107ab244294b14, 0xd7ff955452e9eae4, 0xc22bcd102973756c, 0x2131be5b4387d226],
    [0xaa24925d158cac56, 0xd1c64bc22f1c556a, 0xcf0a142a3be27749, 0x190f922d97c8a7d],
    [0xd5537f9226e042f7, 0xdab89301fc89d029, 0x45748d756729102f, 0x254b0e91bf714a1b],
    [0x2049a22946026b11, 0x8ffab7519185843d, 0xaf9ea8e0a10f785, 0x303c21aa2f173c29],
    [0x73c0eee9962941f9, 0x5ae172f944c75750, 0x52f9c21662906f39, 0x41e6ecfc8a13cdf],
    [0x25e6899630af7a76, 0x9ecf94d5973c0ecd, 0xffef9ef5baca33da, 0x19eb35e2795098fa],
    [0x644f98e48e2c9ff8, 0x64f780bf35d06276, 0x940fe203deb1997b, 0x1142d22ec011a94a],
    [0x753c6186f1059f62, 0x1e4be6305bca6e5c, 0x5c2f631470943ce3, 0xfddc36dde84e16a],
    [0x4e0c22e26b2c2362, 0x1adfe0f449a3d937, 0xc17bf7d609a42aac, 0x5b14ba6526be3dc],
    [0x8764025f68e9ff5b, 0x2769fbbf2e7eb69f, 0x450290ae825cf5ca, 0x16152ab0a00c391d],
    [0x89ca190694d8e484, 0x5a5c5328fa0ee0bc, 0xfd08c1af95cc3f88, 0x28cc90877e4cce38],
    [0x31e976ad800929d1, 0x800155b9f7d1ab9b, 0x72c401baae420c1, 0x2df5ab9a480bba00],
    [0x71aeedf22ab75e66, 0x7a6e795408f9880, 0x290065a3fd812afc, 0x12640a01d9b60560],
    [0x94ecc6f67e20028b, 0x23c155b8b9f6df86, 0xb5f4274d43ccdb9d, 0x1b2792d807f55eba],
    [0xce654bc76cac38f3, 0x1f455eeeac28c3b3, 0xe26a655b5c6c27bc, 0x16c2ea687479d257],
    [0xd14717d70db2f27d, 0xbf231a58e603ac4a, 0xe06453b0ecb6cdaa, 0x26da8fd5fc478751],
    [0xe3ebe3366eed27c3, 0x3e035e91db3aa947, 0x27b010a5022d9f0f, 0x14f3a3e34739d7c7],
    [0xf1e46b967c9c6615, 0xa5fa57fdc8e06fc2, 0x84cfa866c52ef40, 0x366141d1115aafb],
    [0xaa24925d158cac56, 0xd1c64bc22f1c556a, 0xcf0a142a3be27749, 0x190f922d97c8a7d],
    [0xd67d17050494e5cc, 0x43c50f83b67c8676, 0xbc0c637cef9717e9, 0x15658afd9b2c13d4],
    [0x1be9e6f9b2a71669, 0x43cdb9064683ffbf, 0x5a88dbd9e3c4febd, 0x1f318dc3e277bd89],
    [0xe9259ab6f93daaa, 0xc4ef044ee76cb7ef, 0xec6e82248935eaea, 0x141cdd5f2c18d63e],
    [0x9729db203050299f, 0x76e9d5cc9fb7c2c5, 0xf499682863a0f95b, 0xe4b254bc67d3857],
    [0xfe17d4fa9eb1b396, 0x3a99860760ed6027, 0x3b0f41ede34f60d6, 0x2cc2b90a7bf9f366],
    [0x5806aad10234abc1, 0xe39214104120803a, 0x42c08b3ea50add92, 0x2e0819713df7c7a9],
    [0x6c5db75097fef1ee, 0xc01f7c3854a327da, 0x2615c719c716f2f7, 0x24164a433840a28d],
    [0x756ea7e4f88297b1, 0x807629d9211778b0, 0x1729ae58db1d9db0, 0x272543f228492139],
    [0x3dc46bbca1eeed6a, 0x284a3582cfb7356e, 0x730d267dcfd98a9a, 0x194af27987f50ed8],
    [0x524c0948da4b1a37, 0xb163d47e0e1bf2e2, 0x69590bd2abfcb2b7, 0x2044ba55f5e44c70],
    [0x494d9da18cc384f0, 0x57863637baa2613b, 0x626349cbf2928b94, 0x19d37fca1b67b7ac],
    [0xfea1f6777ae6cca1, 0x2556c3d94a01d209, 0x1817b74662caf573, 0x1230ea231084e364],
    [0xabf2d8627dc6d698, 0x8debda5ac727901e, 0xb488295883fdadce, 0x2f924a42d4d9446c],
    [0xd8dabb3388a4ce95, 0xbfdfba2031a880ac, 0xf1a3281d7537383a, 0x2da745785ae0d3ef],
    [0x1530497c2c810428, 0x3039c033d924cc0b, 0x3fab8d057107792b, 0x72fa635414d167],
    [0x1ed2c0e840bd6774, 0xdb2fcbbc125a5ec4, 0x1b0c6eb2552ba454, 0x19db329f086a5078],
    [0xaa24925d158cac56, 0xd1c64bc22f1c556a, 0xcf0a142a3be27749, 0x190f922d97c8a7d],
    [0x49ea2a249bdc945d, 0x49003f9b349bdbf3, 0x9e655b05c4f64a08, 0x1ea4f3fe9b4abfce],
    [0x4fee6326db21db4c, 0x76e3983dd939634c, 0x2742dce58aa01cf3, 0x23c87854133b5d39],
    [0x6c6555adf3bda042, 0xf3b20a75be630d1b, 0x9a704c01709de843, 0xbc4774e1e80349b],
    [0xa54842c945a82f55, 0x99ebf2d55349df53, 0x1edcfac6ffc1aa3d, 0x143ffd0adddc79c5],
    [0xe0fd3f5941b3d602, 0x3928c40e02c08729, 0xe3cb2549a91e6896, 0x2b813146b9e70f53],
    [0xb9bf6de56cc2f206, 0xeec510e4b694a4e9, 0x63cb42abc061c09, 0x13de9ef153bd22f5],
    [0x1c3b3ef9f8d07490, 0xcbfb93959e84675, 0x3c290bf94ee9d7b1, 0x30015dd143c80d11],
    [0xd2a25f4ddf96e05a, 0x5051ef3cfc1a3d1d, 0x74e4fb3cee0b3a4c, 0x2515eeb903d65376],
    [0xebc7ea78ccf6421f, 0x5fcf4b2694083235, 0x60925a6341af5cb1, 0x20ec5ec6cb5f91d8],
    [0xf09632e869599f14, 0x282b6e368cd1419e, 0xfa591a49f79c56a, 0x77160d3b9992022],
    [0x1a2cbae73bb41b0d, 0xc03945dbf111727b, 0x2d5ae9d8a0499caf, 0x2dc01f61427888cb],
    [0xef2b168932194147, 0xd0407e634b6cb7eb, 0xc8f736372e7b16d3, 0x1df3b805da3b583c],
    [0x96bb9f12131f0075, 0x232674745d320720, 0x16ca5b0f23c77859, 0x224a6cb7f4e964e6],
    [0xfb589594154983fd, 0x491bf0fb7ce86ad5, 0x75307017a09328c7, 0x7f74f0de5352317],
    [0xb2fd4eebc0373b26, 0x829b2d8c1fa10adb, 0xd1cedf5cc76a1a87, 0x2816d118f59d3cea],
    [0x28c76dc470974440, 0x57818a0cbfae969e, 0x67e5d0d9b0321a7, 0x1698c0df24945164],
    [0xaa24925d158cac56, 0xd1c64bc22f1c556a, 0xcf0a142a3be27749, 0x190f922d97c8a7d],
    [0x34cdcd8e97efee48, 0x7a230065cefa169e, 0xbe8dbf01a3aefa92, 0x2d878d0119485477],
    [0xaebd5943445dc0e4, 0x8fead2190cabda6b, 0xa07fb9d03937ce4a, 0x2af377e1ffcb6909],
    [0x73e0dd95d5f1f3e8, 0xff681843ef616c6d, 0xa0fe26f368484344, 0x110ffaae8772ac77],
    [0x249865ae30a4ce2d, 0x949877c734a0eca, 0x335b795d5a5ae15d, 0x92cde477438d1a1],
    [0x72d30dfbb1a6448b, 0x4970c941855ee6a7, 0xa1e53dc251c2e408, 0x2cb1dcc78144adfc],
    [0x3015bb3f8895231d, 0xc4cf46897bd71f3f, 0x2d3facb54015e72f, 0x1e80f366933f0056],
    [0x7c211150c40b79ed, 0xf990e810004ee773, 0x7a765096aa7c1f47, 0x20c5d9b2e153f478],
    [0x786fbd7b25c3469d, 0xaf30b34c10b0acd, 0x893278ce37c42940, 0x12e81ecb7ef55b86],
    [0x539d1fc5588ce1f7, 0x105e72d1f912eb11, 0x42f50531a647530f, 0x1cbbeabe0289ed59],
    [0x7ea4d66403ed0ee7, 0x8cf9e02dbd0046f2, 0x661e0e818f43450b, 0x213c4970760a5882],
    [0x9ae96eddf36e212b, 0x695a21091150ee6c, 0xbb280d713b0161ff, 0x286f73e14f72495f],
    [0x9f179e7105836296, 0xaa963bce18a7f443, 0x1551216c693b181, 0xd64a21cebd1f598],
    [0xfc1a4c5a01a417c3, 0xec33deaec35076ea, 0xea9903dba3d3d434, 0x14bb39c836c00f33],
    [0x8313b7b04d59edd8, 0xa3801009f1eb7420, 0xe5dcc2a4ef664b49, 0x2ca5b88e6bb11f61],
    [0xc53e6017c0d22e77, 0xeddf8c312e6b3127, 0xa8bd751d96ce0f86, 0x2c44af041ac89242],
    [0x643036ab684553d7, 0x87f997c1a4a5bd40, 0xea559a4c76b1a007, 0x1466d21f848850fb],
    [0xaa24925d158cac56, 0xd1c64bc22f1c556a, 0xcf0a142a3be27749, 0x190f922d97c8a7d],
    [0xf2dfba0de4fd26da, 0xc92a2208b17e1c0b, 0x202a81a4573f923b, 0x220cecbc247151bc],
    [0x3678369a471d817a, 0x4d8f2faa2c597a3b, 0xccb189dcbeed82a3, 0xb71d939b546f609],
    [0x4bdde34ef18a64e0, 0xe88bbf6649c8b701, 0xa1b7ec9489a96e09, 0x2cfba88722ad37fd],
    [0xa0bd59bb99ba9510, 0x31213a52aaf59ead, 0x74f2192da068f876, 0xd0debc0f0d5dcdf],
    [0x7379aaf25bbf6ad7, 0x8d8e6585ebc60222, 0xcd6bf007e478d958, 0x1d202504d57a61c4],
    [0xa0f9f0824ae70dc2, 0xf0e03736928725de, 0x91d3b6fff1209f6c, 0x251253367a3e28a6],
    [0x685863e4338fb4be, 0xdf2f937ad157719, 0x9202d03f1c184fb7, 0x260c55e9c06f653d],
    [0x151882f23168fd20, 0x14e438de6a3ea445, 0x4cce8854c24c9a9b, 0x200b224623984434],
    [0x6dab2713af62506c, 0x558ba3c61c552bc5, 0x9db75470bd8193c3, 0x2e3e47be40c7216d],
    [0x514c617cd0918a5c, 0xe25f23edcab18001, 0x39e090358a1a3c81, 0x2784c2b142bf3e86],
    [0xe10c09f149445d66, 0xe6c38a270b3b9502, 0x9b4039af38a1d041, 0x125de24f4fbc6e87],
    [0xe12fa6443502f903, 0x3d07d690c9ea8da6, 0xe443639c25e367b2, 0x29740adacf9d3689],
    [0x708d5659cc04ac81, 0x26f923df9c96cf07, 0x72deb42627769679, 0x2bb9d36c36a107db],
    [0xee95085b518dfb67, 0x761fcf632d1b5f03, 0x33c83c65818f7fc1, 0xb3d9827d898e833],
    [0x1dc8cf7a515eef7e, 0x2c6d27f3f8c21e10, 0x9d739bd3c393f1af, 0x10a6e860715f7696],
    [0xa41ccec4b7c1853e, 0x31f69ef0541debd9, 0x7d9a49dc6f87254, 0x2d8b0a8bf894b7d6],
    [0xaa24925d158cac56, 0xd1c64bc22f1c556a, 0xcf0a142a3be27749, 0x190f922d97c8a7d],
    [0xa1cab401ecafc7fb, 0xa507ac1f0475fd1f, 0x1ed144760d37a375, 0x2f127fbd7f50d13e],
    [0xadbcb4352a88b9e2, 0x6dc6a3f1ae005960, 0x4a364994db223280, 0x1577d27a4a8983d5],
    [0x2ba6cf935be4f231, 0xb24dcbb32c4625ea, 0xdd7b8ae8329393cc, 0x52914cca13bf1c8],
    [0x61ed2c32de93fd30, 0xa961ba4967a5afc6, 0xe22c68fc612f2928, 0x3ae3cb86c125ba7],
    [0xa9b476823e6179e1, 0x25adff324eeb9b15, 0x873c64c1e3b05867, 0x297797def82244ac],
    [0xd99637adfdb5b403, 0x1b5054af0def6044, 0x35b58fc2b7606217, 0x124a7a8c6e44e71],
    [0x5746db7ec0426892, 0xeb1e1f1c6f7469e, 0x791bbfd990f5ef43, 0x1122cd468ae5a811],
    [0x3eed7824ba271cdf, 0xabf064c12bdada93, 0x7a660f865fe5aeb4, 0x2409be076f6bbfe8],
    [0xec6739f123278b3b, 0x3501694f122737b9, 0x15e01a78def7ae32, 0x300cab922f892929],
    [0xafec19a1630ab63b, 0x2f97323d25f1a374, 0x1b27ebfc7d52797b, 0xd743547bd321fbd],
    [0xf6e3f952a787a504, 0x22b38c12d69ac16b, 0x18984e8413a1226c, 0x9563550bdacc552],
    [0x5cc54bd173f5204, 0xb0c14d60e69fc6d2, 0xd1c65b3f375fe99c, 0x1985c8553ee8e78b],
    [0x494f8075a7800763, 0x921e83b29964101b, 0x5143764d25bdac7e, 0x1bd7b38a27edbf11],
    [0x8cff05b0fcda945e, 0x9bf0eced728a6d2b, 0xf44f4e93db562183, 0x2766850751254],
    [0x27781ff1f456039e, 0xb40208b2c78cccd7, 0x3119fdf43e9ff79c, 0x135b92c76b52af01],
    [0xa7d5fed6f3e1c743, 0x980d613471b97894, 0x45c9a56cf3b4c7e6, 0x19da226a03cebea3],
    [0xaa24925d158cac56, 0xd1c64bc22f1c556a, 0xcf0a142a3be27749, 0x190f922d97c8a7d],
    [0x8d17332da63aa71a, 0xbf4458f8495eea23, 0xba901916da9e1f67, 0x92f4acca2e0ede5],
    [0x5c5f505d89a9e4ba, 0x78de47aeb782d829, 0xe3f48def116b6cd0, 0x1641d2d820f16a7],
    [0xe2319d8e63ba0cca, 0xadea146120e8d6b3, 0xd0c63353013c47c2, 0x85201a2d77102c3],
    [0x7f4f7ab7d9299677, 0x26f400485dee9e4e, 0x22dace7bbbb70afa, 0xa53d758d0108ebf],
    [0xc00127fe2dd98761, 0x1d1d814a66a638c8, 0xc68c46fe5eae59a8, 0x262d9423cd20852b],
    [0x1057b410468c8f30, 0xb8b86bc77c171273, 0x8001f70873e9c28b, 0x2ade8678e1c4e5a8],
    [0x46a86795b5b46552, 0x6142c9f3abff0f8e, 0x63e995a4cbcd34f4, 0xee8ff3fc24bcd30],
    [0x8bb37e4738cb3292, 0x4c824adfb1803271, 0x6a5da502209c1246, 0x2b825f9cd4585ef4],
    [0x5903e3adccff791d, 0xeb40ba38ed0c39eb, 0x52238fcff3932ff2, 0x1ac8101da6ddec5],
    [0x5469711f508f178f, 0x9fb8a70b61e77f8f, 0xeb85f821413b046e, 0x1ab95f20ef0daa5c],
    [0x1e05ba1a3953362c, 0xf8b5968c9204d651, 0x4500aa5749909874, 0x580d8b79189de0],
    [0xe9f979274dc27c95, 0x8732aa37c4c74d7f, 0x8db47f6dba4c553c, 0x275875a979f31b1c],
    [0xb56caba62dfa0d66, 0x91f08d970584510d, 0x7162533644a7515d, 0x13d84732bb3b9bc9],
    [0x7784bbb5178e876, 0xd0831126d621ff5a, 0x69fee09e23f392dc, 0x4d47f94ed591c39],
    [0x374c8a0b9f4f3832, 0x30bab5822d63d777, 0x6f202ecef15e0941, 0x268be50015a5f467],
    [0x1ea6e122c4356fcb, 0x391f2be6bd334369, 0xd139ad7294f27763, 0xc44a75d5020d4ae],
    [0xaa24925d158cac56, 0xd1c64bc22f1c556a, 0xcf0a142a3be27749, 0x190f922d97c8a7d],
    [0x3fa020749c48ecc0, 0xd3c0e2d8804d66a1, 0x2708fcaf276bbbde, 0x212e7e2ecfce7892],
    [0x8961be28a7ca2462, 0x878ae2615e317b79, 0x11780eeb782c4d2b, 0x158fa860b8267b40],
    [0xd436368745e3cca6, 0x8af19e07d88a0d42, 0x40813cf1bf816219, 0x1def7622e54639fd],
    [0x4a6cf2c3ff78bf57, 0x61047f4976dbc5ad, 0x669e4c78ef8db064, 0x145ad4994d42ca69],
    [0x3b32a515f50afdfc, 0x58621ab912b64329, 0x9f25670cdd2504ba, 0x197d0463b10a2164],
    [0x13d2a835103a0fd4, 0x87742b603d5ec75c, 0x68c7742caf4c669b, 0x23398d180006069a],
    [0xa071c4b622866c8, 0x108a3d38ed4458e5, 0x17c4fa3789f9fd82, 0x1e0258bd63687d7b],
    [0xe96792e0fd06a28c, 0x5e7fe89176569010, 0x35bb9caa720088b0, 0x423f6744b5b95af],
    [0x152fd383542088a, 0x817395c577d0ba3e, 0x8933aef29ac83fa2, 0xc50436db6d99e5a],
    [0xcd5a2f829d7caa37, 0x6eec88c3f6b6d2b0, 0x75e92202a6121ad7, 0x10a22724b783a4ed],
    [0x6c8a1f7c05fcc886, 0x7384c0f594503c61, 0xeb3acadbe2279d61, 0xf49f1ad9de4f057],
    [0xfc48beabece0f4b, 0x76bfa52fa5339ea3, 0x355f49e989054354, 0x2141c09b30eaac9f],
    [0x18ad3c8ce8d064ed, 0xd7440d738d0b4335, 0x274c111fbcc2b79b, 0x15c1c2b59c45dfc],
    [0x74998aabfdfb7bfc, 0xa0402bec8b41b74d, 0xdae2ddaddc2c339c, 0x1db3bd1d64fe08c2],
    [0x2fb0b92157a6adaf, 0x442721881310f01e, 0x852191471c62, 0x29a5a2015c3c3179],
    [0xea9127fd0847832, 0xa674a0b7d089b0ed, 0xbd600fd0759bfe0a, 0xc8dc01d3f82d41],
    [0xaa24925d158cac56, 0xd1c64bc22f1c556a, 0xcf0a142a3be27749, 0x190f922d97c8a7d],
    [0x35f4e9a63b414a58, 0x709db1ae25b6003b, 0x76123e3a989bf2d6, 0x2a824ce1fd2a8c4],
    [0x382afa7dc08b484f, 0xb2e4b4097992d2ed, 0xe519f0b679939b74, 0x12ebc9623cf8edf6],
    [0xcac06dcccc9b80b9, 0xac592d085c504517, 0xa9edeb27d648d697, 0x16be2e58e7c791d1],
    [0xfadbda16f76e67de, 0x576bae71f723613f, 0x257b3f13add23550, 0x11f10e1bbfb29ef8],
    [0x2ae9f4de51d43328, 0xbff262b90a7704fc, 0xd11ef8b8460a55cb, 0x1ad4858514fea633],
    [0x9d28e35624cd5d60, 0xd564d4451568c194, 0xfabe4b485656a746, 0x215f4b249b5c5e65],
    [0x7481ae4155b0b31, 0x751b05615c0af9d6, 0x7723b3dcf4acde26, 0x1fbad1d2ea18f2f7],
    [0xf830950ca601a9e0, 0xfa6a186c5c856af4, 0xe370b37b3214a511, 0x21662871d695f76b],
    [0x3b944360cebab527, 0x15feffe1514a33fb, 0xa81b90ff62583714, 0x23ef880efe39676c],
    [0xba0f3c7aec6e354, 0x84760a177be82754, 0x39501eb930cf9a, 0x2821c241fcaebd3a],
    [0x82c3223c5d08ddac, 0xc984fbc983584418, 0x678d113c1e9bc68e, 0x146be2228a62f0b2],
    [0xbdb81082d525ff22, 0x8186e5da1b4a7921, 0xb10d4c2d229d9f4f, 0xb88bf45643cca07],
    [0x5ffa538229fd0b1e, 0x7c6a4b444528bf67, 0xa1121a09f0ba0197, 0x8fc9cbeac386e14],
    [0xd85d6247c754a05, 0xf4b8e8f006913263, 0x653b07cb93b41b31, 0x1b50431a74a6fbb3],
    [0xe7cd1648bf281d9b, 0x587e3d15e3fb68fc, 0xe34e4366a64203a4, 0x1e406be857f7f834],
    [0xeedf6c90725deec4, 0xad67cb449e93053a, 0x15118d4b1cd35d1d, 0x148eba772251ed35],
    [0xaa24925d158cac56, 0xd1c64bc22f1c556a, 0xcf0a142a3be27749, 0x190f922d97c8a7d],
    [0x31526f83f4e02671, 0x4c44034647842dfa, 0x981909dd928e62c4, 0x2e04360710f57315],
    [0xede6f42ab41f3876, 0x642f5dc0fcdd24ef, 0x879baff9f360018f, 0x2aafcfc0a678286f],
    [0xb97b91c57f65e433, 0x6784d03b9effcfde, 0x62ee12d47779dbac, 0xc056d71fbe03673],
];

/// Part 4 of the sparse partial-round rows for width 9, as little-endian limbs.
pub const S_DATA_4: [[u64; 4]; 47] = [
    [0x9851bb6afb542fd7, 0xc7bc33b0fe015fc3, 0x8fef5342d3773f10, 0x115524aab9917d44],
    [0xf3bafe8d48240958, 0x159c427bdabafa5d, 0xfbd21dd42adbec70, 0x117e6ade5e05bc5e],
    [0x4fa0ff2562250fc8, 0xdfd1f9b7d13c5294, 0x6871f8bd943e4a54, 0x381334a0ddf5db6],
    [0x2f2338e1ce1121c4, 0x368245a5aac0c1b5, 0x6a3350bee3e92556, 0x43e8c4009abbada],
    [0x82c965e11128cb7c, 0xb3b8ebd01a2289b3, 0x7a1cff38e196dc25, 0x2e88167d89954448],
    [0x112d44c3a4db27ae, 0xc322460faa3a3731, 0x49b4e0ce629b3fba, 0x1c308d8fbd04e1e3],
    [0x470b493d4a6e7946, 0x6512accc1c0f3a11, 0x85f4adb5bef214c9, 0x34ef7e4e0ac0d3d],
    [0xcd21052f62315a76, 0x953966e9fc9def4b, 0x14011c277952b270, 0x2b6f7ec4e66fade0],
    [0xf061dc90f06fe318, 0x8824b1cd4d323125, 0xb269375af5bf36d4, 0x2a8510585ae4c162],
    [0x1dd0010f974c3fde, 0x354d1aaf9c93ca9f, 0x8b1094f3110f9032, 0x19008b99b3e1da58],
    [0xc494f5ba051f65e3, 0x232944ba8ddc47bd, 0xb3ec4ad64b12021d, 0x2560926db4543ac9],
    [0x879477fa3ba09965, 0xb8e0cd6e0878f835, 0x6359058c36019960, 0x29ccea21d8edecf],
    [0x4655d5dec1a4ba33, 0x983525fe8484a3d2, 0x604e1ecc47c639ec, 0x22200c2de87d7552],
    [0xaa24925d158cac56, 0xd1c64bc22f1c556a, 0xcf0a142a3be27749, 0x190f922d97c8a7d],
    [0xbc29fd8fe2e30ab1, 0x9a0a5b35bab9699c, 0xa6eb68264ba502da, 0x2ad7a0d2da92e10e],
    [0xf9e8799f07534408, 0xd4cbf0e9b8dfeaf9, 0xcc066d41c1adbd5a, 0x20590023505117ae],
    [0xac3d07fdacbff44d, 0xa2ce66216ece4254, 0x3017fcf937c68bc5, 0x222c46e262ca5011],
    [0xe0dae86c4023ae13, 0x81be214baeb62671, 0x13f4779818b97a20, 0x18e7420a44ea5b1e],
    [0x7d1394ea1ba8256, 0x417a6f02d8caa044, 0xcc056374a848ac65, 0x22ea7ca068c59b65],
    [0x26d1b7ab155936db, 0x12c0f533ba49c1c6, 0x9e1879c337057cc7, 0xd3a07b74e65318c],
    [0xc1a16452b546db6d, 0x262c6601fb7c0b48, 0x8ab73a0a48f6f631, 0x61d5292ac1d8dc5],
    [0xf5f76078c3ca1841, 0x14cd7ba31d68ef46, 0x33c9ba572828b914, 0x5833012960b0551],
    [0x6d6ca181d02eb406, 0x20a62a89bd44dd76, 0x7e519f7690e301a6, 0x2f2764c49d1bc142],
    [0xcd0f9ecaa12bfff9, 0x87ff5e82ef4df25, 0x62bb09b73bf7444c, 0xb8a8d7bade0db2c],
    [0x586933510071283c, 0x5cce5966a6e0ece3, 0x6a5125fa97754b34, 0x1bd2b4b1504d8c44],
    [0x57c272cb26ab0ab0, 0xb71b00120114f6eb, 0xf917066f04927482, 0x87c0b8b7b9ed1a7],
    [0xc3415596d3d5fd24, 0x5032a09b570e7497, 0x31709dab4ae58bf, 0x20fd707a8cc61d2a],
    [0xfd130b924d71cf72, 0x56e533f4441bb24b, 0x35eeaf4e3bd055dc, 0x1a33b2e800ae297e],
    [0x5235c9fa478ce0c, 0xce854f7561e19b7d, 0xd64154df2c538469, 0x18415cd52a959280],
    [0xe50a8230f334ae66, 0x801ab6fafa90e70, 0x5969e401ff1df854, 0x2e6a310ed3f24d83],
    [0xaa24925d158cac56, 0xd1c64bc22f1c556a, 0xcf0a142a3be27749, 0x190f922d97c8a7d],
    [0x905d5fceefd93c51, 0x4e3a4d072b6638da, 0xdf1a801b29d1eb49, 0x2fc4ba3b1f7871a2],
    [0xad7577c1722b597b, 0x69b6e1efebdd9a6b, 0xf079a417abec80c3, 0x1162c765b187e20],
    [0xdd58b31771a75606, 0xd52efb9cd1526d24, 0x1d2c53279c9ab9ce, 0x9a3571080ab89c4],
    [0x86120b68ae69651, 0xea3f0948cd928136, 0x2229e64e084f9149, 0x2fdf9f81c2ad998f],
    [0xa03da314aaeb94bf, 0xd28bef0cbf2315c, 0xd3d783287f25fe8d, 0x178e83d7f2f9ed92],
    [0xefa92b27c28a64ee, 0x9fb52eed6061787c, 0x319befa5d2c5567a, 0x278d681f603da186],
    [0x1090784a24aa5fb9, 0xb42245c1af2edcf1, 0xf4d73686abf8fd70, 0x108fd8bc50dcc43a],
    [0x1c03ef11224b78f3, 0xa1d27c05d5d087e0, 0xbcfbc196c646541f, 0x4ff765c30d4e035],
    [0xcaae95c10c424419, 0x9d470cd7c6004106, 0x3c9eb68b8a436646, 0x607cd8ff9b88977],
    [0x6e590adebf91b40c, 0x7b182da26908f6ba, 0x6dc1f5dde0ff62da, 0x1da524cff60b6485],
    [0xec1d4c6e99dd6dfc, 0x8f066fe21dab5fa5, 0x5801b761a7283290, 0x22f33eaee3c481e6],
    [0x4257787470f2f54, 0x9aaa4337454e5ba8, 0xe8e61083290daff1, 0x75f84e9c719bb8d],
    [0xd363b38425437135, 0x7adb6815168b36a1, 0x303a8dcaffd4bb7, 0x2084be9a57e9adb8],
    [0x5b2a6e3398882922, 0xb6dd7af010747a70, 0xd2cbc26ab34b4215, 0xb303449f1bf4b92],
    [0x3e0aaded45e18b4a, 0xfc09de8f96d72f3b, 0x3f97254f08dfb7e, 0xc099bc682435372],
    [0x708b1ca48e616388, 0x570bd1675b09f977, 0x9264429a5004c165, 0x1c5fd9060d4e0d99],
];

/// The values of the sparse partial-round rows for width 9.
#[verifier::opaque]
pub open spec fn s_vals() -> Seq<nat> {
    limb_vals(S_DATA_0@) + limb_vals(S_DATA_1@) + limb_vals(S_DATA_2@) + limb_vals(S_DATA_3@) + limb_vals(S_DATA_4@)
}

/// The sparse partial-round rows for width 9.
pub(crate) fn s_table() -> (v: Vec<Uint256>)
    ensures
        v@.len() == 1071,
        vals(v@) == s_vals(),
{
    let mut v = from_limbs(&S_DATA_0);
    let mut part1 = from_limbs(&S_DATA_1);
    let ghost pre1 = v@;
    let ghost add1 = part1@;
    v.append(&mut part1);
    proof {
        lemma_vals_concat(pre1, add1);
    }
    let mut part2 = from_limbs(&S_DATA_2);
    let ghost pre2 = v@;
    let ghost add2 = part2@;
    v.append(&mut part2);
    proof {
        lemma_vals_concat(pre2, add2);
    }
    let mut part3 = from_limbs(&S_DATA_3);
    let ghost pre3 = v@;
    let ghost add3 = part3@;
    v.append(&mut part3);
    proof {
        lemma_vals_concat(pre3, add3);
    }
    let mut part4 = from_limbs(&S_DATA_4);
    let ghost pre4 = v@;
    let ghost add4 = part4@;
    v.append(&mut part4);
    proof {
        lemma_vals_concat(pre4, add4);
    }
    proof {
        reveal(s_vals);
        assert(vals(v@) == s_vals());
    }
    v
}

/// Part 0 of the dense MDS matrix for width 9, as little-endian limbs.
pub const M_DATA_0: [[u64; 4]; 81] = [
    [0xaa24925d158cac56, 0xd1c64bc22f1c556a, 0xcf0a142a3be27749, 0x190f922d97c8a7d],
    [0x2f3675d5fe2baad, 0x89f6f8f74d16e4fd, 0xd9bdb6375170dbba, 0x1f8d3a9d2d31ab32],
    [0x3970eaea58a37df4, 0x5c3c631b34685452, 0x422d713e13c056c4, 0x230c694139416f40],
    [0xb83af92ca0f6a334, 0x367624afc2833ccb, 0xe5992a53a14bb598, 0x2063a461ad06315a],
    [0xce365927098c046f, 0x6dd68cda2383d64, 0x9d17b9d2bfd4747e, 0xc574e628f84b6ba],
    [0x5c61b5ddc53ceb90, 0x9becf3fb6ca02c1b, 0xf442424d2ffcb8d1, 0x276428d88040a3e0],
    [0x4393cc6fdb3e42a5, 0x5b04a14c38fdf149, 0x74e869d6aecbe8ea, 0x24bdf6101b2f2231],
    [0x8b0c64eca25dc68e, 0x4b68e8274943f4dd, 0x54b4b3a4a075824d, 0x180fca184150c0e3],
    [0x26b726b82d756ebb, 0x1bc2ad24453c1bab, 0x532159976607633f, 0x10726dcff87299c8],
    [0xcaae95c10c424419, 0x9d470cd7c6004106, 0x3c9eb68b8a436646, 0x607cd8ff9b88977],
    [0xfde3eb31dfa51d79, 0xe7f6a18a255e4376, 0xf34d9fdc0cf7fe3d, 0x2591580b73e7b5d5],
    [0xc2260dd3d12ea441, 0xdcc1eba21d429132, 0x465c4c99f044be85, 0x93cff12150aecb3],
    [0xfe0d50b4db44ec6, 0x46c3297ccb65f9e, 0x7dd888204fc6fb79, 0x59116da88a08126],
    [0x28cecb8f55173bd8, 0x337ddb661043d6c6, 0xd9846dea9ddf5755, 0x2c948497373514e7],
    [0xb7c3e495deaf108e, 0xa14e1b6ea31c1279, 0x2e75709133119cb0, 0x2c2729812be9ed43],
    [0x10be087fb79bd191, 0x70e455ed63377e9, 0xb551a988408f0515, 0x2280d6d4718f9f06],
    [0x98afa09cbf95d6a7, 0xcc83533c9d555be3, 0x75bcec7c9af579c5, 0x1b1bba125505ae96],
    [0xca201523032c64d4, 0x844136049ffbca05, 0xe28e1c272cb6aaa2, 0x17013257716d3cba],
    [0x6e590adebf91b40c, 0x7b182da26908f6ba, 0x6dc1f5dde0ff62da, 0x1da524cff60b6485],
    [0xaf24c5b3813c0e2b, 0x49c2c65db48672ab, 0x799139cdc1511587, 0x2bb4565893b6ffc5],
    [0xc12ba4e3bf89935f, 0x51f6fd377f608368, 0x6b1fe7ea6b09e62a, 0x25081a00fc20ae36],
    [0x388c7ec47240be11, 0x3c12c9c475ade13b, 0x647c097d1fa84b8f, 0x1b43719cd10b60c5],
    [0xa0bedcfb9d191f2, 0xaa54d9a19ab9c7f2, 0xee393796fefcca63, 0x22dd201ecbab94a2],
    [0x8cf379b6623bac84, 0xc0f433d543b79c66, 0x999c621621e77e69, 0xb8e79838cd30707],
    [0xa68ccced68f432f4, 0xcd0538572aa6122c, 0x648936cefbedfad2, 0x2082d5647658eae],
    [0xc1c5a48c51f82e81, 0x31eddb574c6a5142, 0xadbe9c24bc8ee817, 0x277bae2fc597a536],
    [0xeae7293c5a48441, 0x6f7fa69a71594a29, 0x5e99d7cc747510e7, 0x30354c9f29c920c0],
    [0xec1d4c6e99dd6dfc, 0x8f066fe21dab5fa5, 0x5801b761a7283290, 0x22f33eaee3c481e6],
    [0x6c739eab8e87658f, 0xa29c95707de83275, 0x147444b9f6d66a4d, 0x1c5ce77776893d48],
    [0xc946203070c920bd, 0x82ccac28af4d876f, 0xd3ce9a4212d0efb2, 0x2ab8edd22fbe2a1c],
    [0xc83a56ae01dee4a2, 0x4de82eb7887329cb, 0x4d5f8d29f650f982, 0x26e49154acca2442],
    [0xe9718aeeb2bca4d6, 0x1591ad9919f08c, 0x21d1099bc1e51909, 0xbadd77f516d4fa3],
    [0x96205704da5864f5, 0xdc5ffedd4bdbaa2e, 0x3a64b5f664340936, 0x23671c5d1fb55606],
    [0x96f116adef14def3, 0xd78d6c9398ba7a49, 0x1d6ce2d107e79e1f, 0x20d7202ccde2490],
    [0x4285f4a73c2171ae, 0x68775c3e5ac6b5f5, 0xe7a054cc82249003, 0x1d86496995f14264],
    [0xd97258fd5fb4fb4e, 0x3d1d05291c584928, 0x6025173c4d79bf8b, 0x136961746d34fd19],
    [0x4257787470f2f54, 0x9aaa4337454e5ba8, 0xe8e61083290daff1, 0x75f84e9c719bb8d],
    [0x17ee8ec0a4d25f9, 0x1e603d8449d1e070, 0x530fa83e51318438, 0x175505391c619b75],
    [0x9e803cd1c426be4e, 0xdf10e4f6bde62919, 0xa0990d862cf881ba, 0x29c5ce97710c1578],
    [0x8f80b0afcd4cde10, 0x7bb90f948644bfaa, 0xc5ec6e2e2c83b470, 0x2caf86cff60521cc],
    [0x6f2f7d0544185b62, 0xd0e1b250dc274d74, 0xabfdf48ce3b62ab5, 0x24f92793d67638b4],
    [0x530cd4269b4811e4, 0x8a340b60f0733fd4, 0xd49b97b27150f4d3, 0x2809dfe24c7fd7c],
    [0x50390ab8c08c5f9c, 0x8ee946b770173dbe, 0xf959687edf7747ee, 0x26709688150ed035],
    [0xd3705f80effac24a, 0xa6fb85637631b306, 0xe00f973f136f1230, 0x1e5ae4c295ad5a17],
    [0xeba842df247deaa9, 0x55af583591bcc317, 0x635da18a2722178d, 0x2310e2337e4d53c1],
    [0xd363b38425437135, 0x7adb6815168b36a1, 0x303a8dcaffd4bb7, 0x2084be9a57e9adb8],
    [0x692a269767d577e3, 0xf20d2b4e86a0db86, 0x3065f27e7a46d7fb, 0x6ed1d14dedf763a],
    [0x9b1916018f3fb9b7, 0x2319d9b88c1779b8, 0xb3cd8ffc4b86320f, 0x1324544a54174cf7],
    [0xf246809398859633, 0x5eea6629b7532b3a, 0xe12e0a7dccf6620f, 0x2e923ea46d492247],
    [0x8ed2d2cc7f23b22b, 0x514d68ddd93cf31c, 0xd5fb07b6c55088ca, 0xbbbbb87eccc91],
    [0x4b870ef0ffefa1c8, 0xaf0f9905e4c76bf5, 0x81310cbca5384a47, 0x26010a3f5295bb44],
    [0x7775c8fa488e7519, 0x51b8628f3cd90207, 0xce412c4bb47fa34a, 0x751a4a4af246255],
    [0x3e4771f10670ddbf, 0x4d9b2292b28463e5, 0x31ad4206e2c064bf, 0x28d2351619ccc6fb],
    [0xc2c77625ef44ae04, 0x4300cf6fd4953c2a, 0x878640a6cdc4b285, 0x1815e4f7b40a7027],
    [0x5b2a6e3398882922, 0xb6dd7af010747a70, 0xd2cbc26ab34b4215, 0xb303449f1bf4b92],
    [0x2d3b8d5b76b356ce, 0x7df569b9f2c3da54, 0x2baa851df5ad459e, 0x140cdda33bb7a79b],
    [0x280ed517f3f82fef, 0x169a5c30bae52bba, 0xe10b5a3a74ce5caa, 0x1d18b25aac98b282],
    [0x46bd7e9741b9a389, 0xe54aeb188a84f8ca, 0xc7aab42e7d91aecb, 0x1ec6c32f513b8f30],
    [0x948d9c645ecbc9bb, 0x1a2258d56893ce5a, 0xbc182aa2b70f853f, 0x89beeb21c346cb9],
    [0xe36947f803527e67, 0xeea84961f8134b1b, 0x4a6488847d8d2da2, 0x2790643a66038cce],
    [0x6d93cce8eb81d37c, 0xa51ccf368d9974cc, 0x25c1143a5be6f53f, 0x159e25e00326a76f],
    [0x1ee3284241f3baaa, 0x8ab61b5e94799746, 0x3fd041e800f0a89, 0x2486b884370d49a0],
    [0x9fecd932a8281b10, 0xfbf62fd0ce03b40, 0xbcffae8943e679cc, 0x111efc136a9dfe0e],
    [0x3e0aaded45e18b4a, 0xfc09de8f96d72f3b, 0x3f97254f08dfb7e, 0xc099bc682435372],
    [0x1179fd1ad9fd51a0, 0x7e843ed1324c1e97, 0xcc92c3356e8a9854, 0x35e9ecc464cb431],
    [0x18552fe565270a8d, 0x4936cbbb03a03a59, 0x284c0c8ae737dbdc, 0x2f35e921dae87f1],
    [0x6739753dc5678303, 0x693b2db1e8ca3d09, 0x5325d5b368f98b40, 0x23a72c27f4f5e6ea],
    [0x2876efb17158be2c, 0xb5dac3b2a91f5027, 0xf966ffdfbcebb653, 0xe07b1d22eed54fd],
    [0x26f65025ea9d2f2, 0x90bd541ea41748f2, 0x625a86d3623464dc, 0x5fa56d431d4bd09],
    [0x84fd5403b39867cc, 0xbb2e956e27a58707, 0x6a1101b245c9e711, 0x2d6f3e0e98413d5d],
    [0x39a0d91d54c67a66, 0x152ed24f309bff39, 0xe7d6bc30691aabd6, 0x213176bc1a04939f],
    [0x3f7e43e6860687ea, 0x5753e9617a5154e9, 0xab18162b3914b64d, 0xa5a1148dad4562e],
    [0x708b1ca48e616388, 0x570bd1675b09f977, 0x9264429a5004c165, 0x1c5fd9060d4e0d99],
    [0x716cead6bc7063cb, 0xa2e3bcdbe756d883, 0xc2fb7044a6332751, 0x129f06c930edd36f],
    [0xc28debcbedc5b4f4, 0x9ba46d1b25566f12, 0x6fade57c1da53665, 0x14a5ce1603228d6e],
    [0xb1f9cd8532f5075f, 0xbb39392e2a462850, 0x7a091f28039eba8a, 0x143617efcdbbc0d2],
    [0xea50806bab8b7bd7, 0xbfb585bb23eae2a2, 0x57d92a4384edb5be, 0x2885f2d44be0ecff],
    [0x59ede97da2c0076d, 0xe3b1a8bd702c1675, 0x2589f1f9522f7d, 0x4715db6d86b513d],
    [0x9a653feaadf6c467, 0x2d326959bada59b9, 0x689a8d6d7bd913e9, 0x88887966c079d2e],
    [0xf96ca9fa85e17bc3, 0xd027e560048db4c0, 0x6c22bfed3ec5bb52, 0x12ded41f8047da3e],
    [0xc7e8821892431aae, 0x9e6c62419a9c204c, 0x17b8bd1ddbd80e4e, 0x1f47c67a4325672f],
];

/// The values of the dense MDS matrix for width 9.
#[verifier::opaque]
pub open spec fn m_vals() -> Seq<nat> {
    limb_vals(M_DATA_0@)
}

/// The dense MDS matrix for width 9.
pub(crate) fn m_table() -> (v: Vec<Uint256>)
    ensures
        v@.len() == 81,
        vals(v@) == m_vals(),
{
    let mut v = from_limbs(&M_DATA_0);
    proof {
        reveal(m_vals);
        assert(vals(v@) == m_vals());
    }
    v
}

/// Part 0 of the transition matrix for width 9, as little-endian limbs.
pub const P_DATA_0: [[u64; 4]; 81] = [
    [0xaa24925d158cac56, 0xd1c64bc22f1c556a, 0xcf0a142a3be27749, 0x190f922d97c8a7d],
    [0x2f3675d5fe2baad, 0x89f6f8f74d16e4fd, 0xd9bdb6375170dbba, 0x1f8d3a9d2d31ab32],
    [0x3970eaea58a37df4, 0x5c3c631b34685452, 0x422d713e13c056c4, 0x230c694139416f40],
    [0xb83af92ca0f6a334, 0x367624afc2833ccb, 0xe5992a53a14bb598, 0x2063a461ad06315a],
    [0xce365927098c046f, 0x6dd68cda2383d64, 0x9d17b9d2bfd4747e, 0xc574e628f84b6ba],
    [0x5c61b5ddc53ceb90, 0x9becf3fb6ca02c1b, 0xf442424d2ffcb8d1, 0x276428d88040a3e0],
    [0x4393cc6fdb3e42a5, 0x5b04a14c38fdf149, 0x74e869d6aecbe8ea, 0x24bdf6101b2f2231],
    [0x8b0c64eca25dc68e, 0x4b68e8274943f4dd, 0x54b4b3a4a075824d, 0x180fca184150c0e3],
    [0x26b726b82d756ebb, 0x1bc2ad24453c1bab, 0x532159976607633f, 0x10726dcff87299c8],
    [0xfe346d2f9263adce, 0x8a2d2c45bf48dcd6, 0x4a710e78e47ae71d, 0x7341fdd8b6d7c9],
    [0xe70c0ee829da35d6, 0x94d166c98e8dbb73, 0xbae8cefc996d5665, 0x3d8602794854484],
    [0xf682d6f8c5ad91fd, 0xa4bfe25e01e2d2f, 0xc26c7452d683b1ae, 0x20151c663660a16f],
    [0xedb4d57f42263c8a, 0xf2423ecd3c987507, 0x55784ff7a6eaef5, 0x14be2c9eea6708b8],
    [0xe0d04c104c89e576, 0x8c062b3bc70b5a88, 0x7d5e39d69abc346d, 0x21e114b50d11303e],
    [0xbeb091cdca204756, 0xb819cee10a4125a, 0x6b449acde74eb427, 0x2d764f3f9ddefa06],
    [0xeff59977d250c4c9, 0x6ffb4689ef31cb51, 0x9aeab49f048c67ee, 0x1a8803986af5a84f],
    [0xbd1fe7947ce6774b, 0xfa1a47a7c59304e2, 0xf029e5ee97b63a63, 0x1540dc30a1b9aeda],
    [0x6c8d307c5ef68130, 0x596012a345aca5e, 0xd603461458053fb3, 0xf08d47f49171fd7],
    [0x90dd5bec31107ebf, 0x289a6fc4744b61fb, 0xab2e0c56301b9d3b, 0x1c4350bba48cff51],
    [0xd45a1042b4330121, 0xc8c7ffdabefcce98, 0xd7ca0d7d60de7382, 0x1c6b76e0d60e628f],
    [0x62f3deabb86ca232, 0xd1abfcb21936bf44, 0x9d6913f3d2219fe1, 0x22d746e18a8eb605],
    [0xfec8b73f3edc8dbd, 0x56872e9d3ad09fc7, 0xf9b36a3b272b4ebf, 0x1c94e3008e7fb1cc],
    [0x5f58904d9fee034f, 0xdd8d4b41ffb77dbc, 0xd3201cd04a12d976, 0x15c4bb533ce05422],
    [0xce0e2a0027317fcb, 0x12b78d688df4cb4c, 0x68247a3ddb23f7ac, 0x106913bc4e38bb68],
    [0xc5465bc99ebd0b07, 0x905a828aaa2fae35, 0x75156b08f16516ca, 0x2c95ea22f6df6c09],
    [0x7c173999486876b4, 0x487838f3a697e0f7, 0xa34e33211937a3cb, 0x302fbf64fe705ee3],
    [0xc89787a7a2ed0785, 0xdc9da70e6f6bdf7f, 0xa37fb6b7bfd6af40, 0x1e1e54bb56826529],
    [0x9be9dbda88fa8a3d, 0xda5cbbff829320f9, 0xe2efae38e5bcd7cb, 0xc6c426215bd132c],
    [0x58157b0b2707ae8c, 0xda450c1e96c100a, 0xae536b2a1d81ddc5, 0x2deecde3659cb16f],
    [0x9bb81a1b381f05dc, 0x57975d6b386c0cc8, 0xefaa4be7d6157369, 0x12bf39e8f879b7df],
    [0x7e4b6f88a15ffdf1, 0x62540fa2eb33c56a, 0x2cd132a78c4893d7, 0x19c33a1bef2695e7],
    [0xd38dd06113bd09cd, 0x54459facfda9a6af, 0x90f50bef58ae132c, 0x14f45f4497c4a67c],
    [0x684813f9b8f489f7, 0xc9a238893d7c75e8, 0x107f5715ca891c8c, 0x2968de39216f3f05],
    [0xbf0ec0b49206a76b, 0xfdfd271fc603180, 0x30e17603d9b8bb8, 0x17aa91194ea3c39],
    [0xb99f2a3f3652eefa, 0xa3152c0500874263, 0x7f7030428878b673, 0x202f3f28f786f304],
    [0x30be95808c9b7c03, 0x9f0b1308e5b8b5bc, 0xc7836765c9877e43, 0x275c0ac30445ca28],
    [0x430847e6a5435a22, 0xbbd1712c64d04bc8, 0xa234fbe4661070c9, 0x2810b0317abd6345],
    [0xa363eb0bd1b743b3, 0x6ae9fbf51aa4b218, 0x99982bf403557477, 0x1ecce2c394a577ba],
    [0x91989891d7e04496, 0xb690054d7933907c, 0x7d6d061929e08d78, 0xd639e4276aa71f9],
    [0xc90e7f6feeaa44d7, 0x65187bfb7cffdf51, 0xe7d636a11364f081, 0x129cda4d6b758aa],
    [0x543b8f8c696f5fe5, 0x26366c410153cec3, 0xc7ecb11ce7f6d103, 0x154093b24b8ae3e4],
    [0x568e2cf07c928ae0, 0x8d595a02f6e9562f, 0xf7a751d3922d1742, 0x20f194b853c3b9ae],
    [0xab93592ceb935c95, 0x65cadae30ff9a657, 0xb81ed233294372cf, 0xf6884885a376b75],
    [0xc2c4f2b3d0002b54, 0x14c3ee6fa6e49513, 0x6b3099e09e9e56f1, 0x24145768e616bdf1],
    [0x7ea9eb2f6ab6c239, 0x18b9a60b23d7e60, 0xaee4dbeb91ff442a, 0x1d3ecd8624f2fbc7],
    [0x37a27f1586257f4d, 0xda028275ae86398b, 0xe9eb858de4de15af, 0x16ccf6000486cf0e],
    [0x8a831331802bebe4, 0xc586ec4d6bcad878, 0xf34de2ad1caefa4f, 0xb754798119ccd26],
    [0x8aef492030fd40e6, 0xdaab5e27bf99cb8f, 0x7fda26214625aa8c, 0x22d621427b2b6540],
    [0x42ce8212b70a5ad1, 0x27180371bf7bdde6, 0x3d9081982e9c1e36, 0x14fd9137c3086121],
    [0x2f8fcf9a7c4a8f91, 0xb901b1ae802c7ddc, 0x45e6e64fb415c76b, 0x80ef3bf4cf0ee1d],
    [0x89ed228c91045401, 0x53ad20d4ce7a3b8d, 0x6131ba8d187dfe8d, 0x30593e502ac9b685],
    [0xc0486fc6a162546d, 0x30bc6b97917ae1d9, 0xf79d6d0dcc11eb38, 0x16a7398598ffc414],
    [0xbd9d2dadfede5e55, 0xbeb124014f31fc8c, 0x286df98f696ad51, 0x80ecb13362f4451],
    [0x48fb441d90b5e3e6, 0x5a10185498c9e71b, 0x715717c5273d6581, 0x237522466e8ad65c],
    [0x72009f11b69c3503, 0x7d947d6c79dfbc5e, 0x5e494e291804c5ad, 0x1756383b6b2b1db7],
    [0xd922b3d53b4c2cb6, 0x4127ff9e80e539b5, 0xa8afd890b5a5c111, 0xf246352b2864232],
    [0x41627fd387d4c6ee, 0x5a7d2897ca721cfb, 0x3e555e532cec1408, 0x1f9ed3d81ff1494a],
    [0xa875827e2d5f68ad, 0x17dd543c48852d8e, 0xec8a341397cfb663, 0x1835c38dfb0f16b1],
    [0x9d5b5a7a4ae888dd, 0x9d7f486511f846b1, 0x373a17d421f64b58, 0x1228c23f9d6c7b75],
    [0xc318e0dfa9d02d76, 0xaa8606dd3c4ab4ce, 0x988d5777f9324ab2, 0x2dadaf44fe7fca4],
    [0xfff07b4da49e4ee0, 0xdf7a3a1b07c83f49, 0x8a384199ee3bdc03, 0x259a2acc8e87e4a0],
    [0x9825060cbe5db6db, 0x29f81dea7271c8c1, 0xf5b00340731e2da0, 0x10a2dd7c6bdcffca],
    [0x9e0268cd71f6ed64, 0xe52b1b3593968ada, 0xfd7cba2757f935ad, 0x1f23b760586a694f],
    [0x615f8ab4b5df6c4b, 0x30fa7f671670bf1b, 0xd47de970828d3b5f, 0x55fe8568018f82f],
    [0xf62f388344139ce6, 0xdb914388f6578747, 0x5f7fa77fcc40ae0b, 0x1d6fb6b7c89bb84d],
    [0x9d3101da67f24c24, 0xeb4861f5f016891a, 0x68f410413270c6c5, 0x1202c35b5378961b],
    [0x5e36c86f285598bc, 0xecbbd9fd8a253adf, 0x7a7245d0577d38f8, 0x70a63f4db1f6347],
    [0x236c20ed87c3f2fc, 0x913b54315d879065, 0xc7038b866eb5f0b9, 0x7d4d3ae7019c26a],
    [0x8d683a3aae105814, 0x6a2d64b1da6bc804, 0xcb46759047e4c190, 0x2b30b0b25fc57a37],
    [0x2f2397007c0a858, 0x52dc4f4569c826e6, 0xd33925eabe3b2224, 0x19cfa837f30749fb],
    [0x1aa1b63326974fe6, 0xe5f30a3bc3c7f12d, 0x35325629cbca4d37, 0x17bb125cabad9ea5],
    [0x75861b41df631a9, 0x8d8419322c722061, 0x671954c4ec341dab, 0x36083127b4a9a1],
    [0x98c1152f49d3c599, 0x1f85c9fb488d2009, 0x4a8e968e95a13473, 0x21b8cb5fcab5ac1e],
    [0x77c7b97923b1014d, 0x94eeea13c9c345d1, 0x3a94f5e8503b3773, 0x1aab4fcdeeec99f7],
    [0xf14c2152147b6a88, 0x29f3c18357d74533, 0x7fb930b1c0e88375, 0x1fc69a3e806ab500],
    [0x1d063b9dd42bf1ff, 0xbe528b846ed015e4, 0x9233d0ec55edb3cf, 0x1c4546e0f6a7ec76],
    [0x985d2e2a54ff2808, 0x137baa8afdcc75f9, 0xe9c137df365881a2, 0x1df9042167db948],
    [0x3c9511cfe434cfbe, 0xffe5112b22d538a3, 0x8bdfbfed437d5c71, 0x2af620d499b90b1b],
    [0x5be9071d3208dd5a, 0xea927d91f42c69c3, 0x2913ab2213536ef1, 0x22be9a5ad9f36951],
    [0x80034fef90d2a873, 0xd1ccb35691118d41, 0xadb88b8a85e1bff7, 0x1f5576505ab6cf76],
    [0x8a05ac59a9aded9b, 0x4b6357e043e1fba1, 0x14ac3a47d20bd75b, 0x236a813f62355460],
];

/// The values of the transition matrix for width 9.
#[verifier::opaque]
pub open spec fn p_vals() -> Seq<nat> {
    limb_vals(P_DATA_0@)
}

/// The transition matrix for width 9.
pub(crate) fn p_table() -> (v: Vec<Uint256>)
    ensures
        v@.len() == 81,
        vals(v@) == p_vals(),
{
    let mut v = from_limbs(&P_DATA_0);
    proof {
        reveal(p_vals);
        assert(vals(v@) == p_vals());
    }
    v
}

} // verus!
