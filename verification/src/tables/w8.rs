//! Constant-table data for state width 8: the flat round constants,
//! the sparse partial-round rows, the dense MDS matrix and the
//! partial-round transition matrix, in row-major order. The constant
//! arrays carry the data; the spec functions read the same arrays as
//! value sequences, and the builders return vectors proved equal to
//! those sequences.

use vstd::prelude::*;
use crate::field::{Uint256, from_limbs, limb_vals, lemma_vals_concat, vals};

verus! {

/// Part 0 of the round constants for width 8, as little-endian limbs.
pub const C_DATA_0: [[u64; 4]; 128] = [
    [0x6feb0e8d8c3ad596, 0x48e134333684c159, 0x139ec13fbb52f7d3, 0x123992df3b9daa65],
    [0x19a3959c7f623703, 0xdfec978be92b491, 0x9984a01e2af30b55, 0x2fa46f5dba9909ce],
    [0x6d94ae29401b2d2c, 0x13b2dd8a8cf68fc3, 0x63a7aacb175b2cca, 0x21d8f94d3bd98f0b],
    [0x9da89e116af87eb8, 0x7fd7db34e68f7357, 0xdc6a39bc57aea0d0, 0x1a8c06c61046e0f8],
    [0x94442d167f7ad1d3, 0x401b89e7ae5eef49, 0xb77523a58a6fdfd1, 0x298cd7046f58c0ca],
    [0x6574d67fc5f19f63, 0xa07f3e830fca475a, 0xa20b31ab693eda86, 0xeac737966715df4],
    [0x72262af2a70a33e, 0xa77beb056821750d, 0xe0cbe6d5d9a2f096, 0x6b9b718bb3b6d45],
    [0x972565e1fbbc302a, 0x3f96e435d653eec3, 0xa846a9553fc7905b, 0xbccdad6e8b1fdfb],
    [0x4a1ee4012f4bd92e, 0x7f8483cb7c0e2e68, 0x67bbabdd95a18c14, 0x21c2dfe20dc5a721],
    [0xceca30e9480079b0, 0x20e50a8ce7132504, 0x51d92fa30df24893, 0x24ad6b2755a6a6ee],
    [0xb7acbfb64e61ecca, 0xb5e749877ec437bc, 0x102cd37b4478fdbd, 0x67a46fc4c52c6ea],
    [0x2fd47eb162257f35, 0x68910c7c3b2d0ae1, 0xf4b9cadc4b852192, 0x1a2623975652d476],
    [0x72bc2491fdc04c4b, 0xec299a3ef543220d, 0xe6b21d52ca87463c, 0x25f8ce30441ce86],
    [0xa25018657834aa5d, 0xe9a56c880e223668, 0xa9b3ac5ff8962b16, 0x1acdf0b48d8a4789],
    [0x3e82bb8c5610ea77, 0xb1d156d77f143fae, 0xe2f42eb6f4b95bb8, 0x14d3fa7ee1cd2b8b],
    [0x1c06b31d758a113f, 0xb18f70812e093c0e, 0x94fa4dd67524de58, 0x3a224f6470a64f2],
    [0xeb69484a53148527, 0xce2e6c2d23174de3, 0xec21db11a089668f, 0x2c822aea71402807],
    [0x34259c748a289995, 0xbaedd0e0bd5e7971, 0x1d52771a60509026, 0x1305b66e890e97e1],
    [0x6eb6c77d89c14517, 0xb7c439c546e9fba2, 0x4b11399e77a0784e, 0x2b1e80bc5e3f546f],
    [0x1e8539d584eac1d1, 0x3be74dc79270b4fb, 0xbd7bd173d3f9e69c, 0x1562326a8b0d5436],
    [0x92cde7f6130910b4, 0xb6a6827eff1fb813, 0x68bf1ea6db080346, 0x8c9aca89b447e74],
    [0x73d87d979476b54b, 0x2175ba85c061b7e9, 0x50b72acbfc9c5095, 0x138e002e8c0c5975],
    [0xb491ef7c6372bdc3, 0x12bfc5c2b990fa48, 0x96821ad2d55844d0, 0x317ee43e6f4e387],
    [0x85cb286c9ecc992b, 0x5e6a166717e7aa16, 0x22d9cdc6ff45c700, 0x1b60831fc11521d1],
    [0x5e283a89259d446f, 0x71ffa2a9b522b064, 0x100de17bba5c59d8, 0x2e73d35eba9b43a5],
    [0x3ff6f1ee3eff2df4, 0x8be7d67831159579, 0xd2f0381294578f69, 0x22a4d3cb7750e5f4],
    [0x5c80a53b40e1935f, 0x2cc273506d89a9cd, 0x9d407634a486a1c8, 0x2471b7a969af295b],
    [0xf5fffdb7e1497754, 0xe1617f5442fe26be, 0x6452ac3d31fd02b5, 0x197b73e1d792a10],
    [0x2564ad3980bae8f8, 0x7bd9c9a9d39c1fcf, 0x8362a5debf818a08, 0xb2df733b3541c78],
    [0x15dafe3a92113a2c, 0xb7e7a3cae20cd503, 0xb4653283b9c6ee66, 0x1cc66ea285b3c09c],
    [0xa2f6f6d212fc4b52, 0xb96ae3e06a6132d, 0x6c2f5679d0f891b3, 0x25b6152ba9ebe83],
    [0x884216311ecfd7a2, 0xc29656295996b0b5, 0x4e75ea6bf7ff9405, 0x1a889aa16461370a],
    [0x8aa44c5e9fce566e, 0xc3e833ccc4ecdfdb, 0x7442a5194c1d38d, 0x1f6faf41cf708d83],
    [0x3624d2881085d7d3, 0x1c651dca57beb7fa, 0x303dea141113f771, 0x170221e35fe04da2],
    [0xa2726be474197b1b, 0xbcfedd5f80ad8ebe, 0xfc1ce072bf795c9a, 0x1f4fd254340f9509],
    [0xa17bee8031058780, 0x5489e7feb92b2eb5, 0x418837b9155db02d, 0x2bb4fa69cd631d5b],
    [0x1d510fc788b79d5f, 0x5c19f94f55431425, 0x8432cd0f9e8bc5b7, 0x2fc737a4c1073c01],
    [0x954eb3d2beb2646e, 0x280e8157f7e9ef5b, 0x9065d1820e2b8608, 0x299d38d16803616a],
    [0x8b8f1f31b217bd67, 0xe0c2c9ae417072c6, 0x6650e0f002b2afa7, 0x6e8fa64f6f9e2a6],
    [0xd4252b5ec9c29449, 0xda3a50635be3b3cf, 0x28945060179f4aaf, 0x151e2effa0eef7ae],
    [0xffae7b707d6b3a6b, 0x6b057570636e25cb, 0x3d9547f15ff5f6bd, 0x13f225ff220789cf],
    [0xac82b44d9fdd5f79, 0xc9a0c2b61f37ac0f, 0x72cbe0d0b406505e, 0x75f0d5b2f3aef1e],
    [0x392a837f3004c50d, 0x6a375a9049e2f6fa, 0xd2382c44ed506a50, 0x26f491b65ef18ff],
    [0x546de85020742ae2, 0xa25179b010a1158e, 0x697914d1652fbc3d, 0x26916c460b0e2d5],
    [0x9c7eb5b4bfc81348, 0xf64d458a2a25fe84, 0xe3457fa5985c1295, 0x178e270b0c35c5ad],
    [0xf333da7b2130905, 0xa9cc459d5b605ed0, 0xff3999b3f9105329, 0x12b5fb7e1894d846],
    [0xfd3b0e61a378cfa2, 0x43f29893e24313d2, 0x9cd6cbd6afa1aad4, 0x138f42f4f01f4b05],
    [0x4ae9703ebd20ae87, 0x30056bf1d8542461, 0x492356bf6a80f407, 0xaf68a2bb5f9b6fb],
    [0x4043bc38d727f6b3, 0xc2b82bb2114bc88, 0x2068d15ad182572, 0x711a1f848efb7d2],
    [0xea64fbf1d80e1f50, 0xadb8cd1c646afb4d, 0xe58367a5036fd26e, 0xf7275b3afe158fd],
    [0xec896976d6a16529, 0x646b30b534294726, 0x518fc64f7977ee3c, 0x455acba2c77be3a],
    [0x5cdba328f73d7348, 0x129528be059fce7, 0xbb2cb1bd70ac8fbe, 0xbd261d1d46c99fe],
    [0x72af2ed500152719, 0xe643ea1429fa0008, 0xc35ddb3712549be8, 0x2e5aeeb04dfbbf5f],
    [0x279889bceaacccbd, 0x7378cc3237380a48, 0xe8c1c2d5208ba6e1, 0x1c86ae64c468a452],
    [0x7287921100567a40, 0x6f2a07a6ea585caf, 0x5b4fa467e70c3b47, 0x2acc9d15663027fc],
    [0xef246106b5fb1459, 0xdf71b97d8e2cf9e9, 0x145312605773dcaf, 0x230d03be86fe9114],
    [0x86e48c1df49ad592, 0x7613cd334dbae295, 0x6e4e82b20be3e08f, 0x2ab60a4154e2261c],
    [0x8e6d62bd4380cfc1, 0x566c39ef83150817, 0x6abace3f7885d7dc, 0x2328aa6369f0af73],
    [0x83ffea2349e62539, 0xde2c20a75d57b8e5, 0xc0e294da56e5ab43, 0x1164b8dce7e4179e],
    [0xba32d9ac2b941742, 0x248a2c00adc3e146, 0xe77171095c0db217, 0x2491cd6f23416063],
    [0x6fe81a303ea208f4, 0x4b7fda385568d659, 0xde151f8656a7e2e2, 0x1cdc848d353fc772],
    [0xdf167905e6552884, 0x46d4eed3a16f6fae, 0x99bdc3520db73419, 0x2a398eb8ec4d3bd],
    [0xbc4cbe9b17b43e62, 0x6467f9bff3e24af5, 0x9e4095e392359fd4, 0xb07f73cc8432e1f],
    [0x71d7c8ef0605954b, 0xbb09f289b8381bfa, 0x40fe678e4f72079e, 0x4e964ad5ded2749],
    [0xfd93ef3fe5a5a1d6, 0x465f87469ca27704, 0x4771f4c5f872a050, 0xdb2a3aab326c134],
    [0x9f8ccf6bfde72564, 0x291786a749fef1e2, 0x72a60b0297f9b93f, 0x27b044fefd92da89],
    [0x1f31781155ee8729, 0x94489ee5c00676e5, 0xe0737e0c94f9b105, 0xc6c0bf5ece0bb9b],
    [0xa3421a0a9aea0147, 0x8ce01a1a18ee990d, 0xb11cc6922f0bf6e2, 0xa36c8af931781ac],
    [0x3cebd01d0cd6c286, 0x54ba182678d75a0a, 0x12ae576fdc49baa0, 0x255f76204e6137ac],
    [0x2ab9c774a3a63f79, 0xa1e9ac228e2e0a51, 0xbe1b609d8e269e9b, 0xaa31a68117f221f],
    [0xc1ebac60d96d56b5, 0xad2bb09688c70530, 0x86a5cda7620c6440, 0x14151310e656644c],
    [0x11b4cc5801aaa640, 0x85bfea294cfa1d3e, 0xa423405b749d8302, 0x27b953b1de0e30a1],
    [0x38c946c63115b008, 0xb2b06f3b4193fb99, 0x4e5b7bebef2cceaf, 0x30476b760f0b45ab],
    [0x856306bf28a1b920, 0x6ef9a496ab8dfc44, 0x990544d950160237, 0xb70ffa00f97a377],
    [0xdf691604ec026529, 0xf53e07746c063546, 0xb45b36bf93ab6345, 0x2861adb9067f446d],
    [0x92d6685a5f03ef67, 0x5b5a23f396acb52d, 0xc6dd61a3e3023673, 0x33e9b4274c357a8],
    [0xde42bd833dfb0d31, 0xc44b43110bc0f8bc, 0xa6da8f94fdec039a, 0x28b4e505d5309e29],
    [0x5d1ea71c0edb0a9c, 0x8744954e3dae2f9d, 0xb1675ee8bb5c7c4, 0xf6fae1122b219ee],
    [0x263aaea3c498e917, 0x1d42fa495e9c96af, 0x89fe8d3478a050e8, 0x2b4173bbd542f1b],
    [0xff97c5d92bd3a1a1, 0xa912ff016e4da674, 0x91344f20b821450d, 0x8d72f5f016ab293],
    [0xcf817cff9ad6a90b, 0xa29719551de783c1, 0x680b0b55e8309fb8, 0x1d9e387998377d9e],
    [0x72bb49feeebf7e22, 0xad6c4fb863c9c8e5, 0x956e15d5b5dc4132, 0x1424e2acf5db0d91],
    [0x74cbc45ba117f483, 0x5ffc654d4f9f770f, 0x79669b849ef2fab5, 0xb3db34e42535587],
    [0xaebdbc11e6513f6a, 0xc9059aa10b541d64, 0x3673f6fec4b57436, 0x1269861c49d7f371],
    [0x93418bdc66517342, 0x4892e5ad02c8b814, 0xac27c48349b1b5f4, 0x2557b7a318681664],
    [0xba00e1cf4eb26062, 0xc76b5cde0b985091, 0x776d673024e679b6, 0x650dcd4d3610b1d],
    [0x2958286430fd41aa, 0xfdc9465cf00fb087, 0xecb243143ba64f7c, 0xeae77312a73dc3],
    [0xec48bf1851012d93, 0x90489bd63c9b4fa3, 0x851384f5215bcdbc, 0xf43d99f10bb7c8d],
    [0x1404ef348221abb8, 0xafd455461f33bc8c, 0xfed823a5d9d607d7, 0x2d95bd041d1b5522],
    [0x5df79c24f00a1f53, 0xf4085957b8f2955f, 0x7ab80fd8701dca3, 0x2fd83f519597b7e8],
    [0xd37658eea86f271d, 0x63a32b9f90f5366e, 0xe422eecd77a3ca4f, 0x25c0c9abd576c803],
    [0xbaf39dd7cca4939b, 0xfcc35a9f4c8cdc92, 0xed15ea23537ac72d, 0x31509bde9a7286e],
    [0x6c14f2bb75141af0, 0xc69cb5e4c13a0ff0, 0x4b3f748425ce43c3, 0x2f6692e9fbfa0ad6],
    [0x60dfafb72df9c5eb, 0x6c6f2a58e26b97c7, 0x87d4ce7089e35478, 0x1aa375c879966cbd],
    [0xdb4b2bf511642a23, 0xa4edf35f41616bb6, 0x76c4c193939244a6, 0x2f14baf1792365a4],
    [0x399758b587830ece, 0x629f5871d7e9ca38, 0x730d9ad3a86c6dce, 0xc1552511a3185d9],
    [0xeefeaa22d2a37d7f, 0x873c952ea1a7d1a3, 0x2058e13910d1c89, 0xa499163b884b674],
    [0x536a3d10a3199bfe, 0x5b32e5a19baf3b5d, 0xe4c2be0f579768c8, 0x2cfdadc4634dc875],
    [0xb46212330be420ca, 0xbadacb53bf720607, 0x7631164687c593c9, 0x2ba9818b35db18cb],
    [0x4bee75a9fbd52c6a, 0xbf6f37b7a03e6965, 0xb5f671e27e14a7cd, 0xe37b0ae73060dc2],
    [0x606c59717aa7b814, 0x3a5f0f8bebf5cb6e, 0x1f6dd84b4ca5f975, 0xfdce2fc3a75a38],
    [0xbe545854aae282af, 0x2764240964c2edfd, 0xfb808a10877d437c, 0xfb5a2ddc03041df],
    [0x44d6f0a1368c6d85, 0x38813f69e8baf444, 0x33a53a950d21f407, 0x1ea4030900b9f74c],
    [0xfd7df3f3bfc7714, 0x129c4949cc74ede4, 0x66d984ee37a40c95, 0x2b26ae52bbf7d41a],
    [0x240dd723dd4530fa, 0xeaf765069773e679, 0x9acece3e3afad961, 0x16062ea8f9c3d1bc],
    [0xffd2ce0630d00eb0, 0x6fc2abcaac1826f, 0x777b4d82c044a60d, 0x78830573fab36a4],
    [0x600111679e471be8, 0xed005fb6f84db8eb, 0xd1409c5cee2a3f3d, 0x2f17fdbeedaae54],
    [0xdf7e80230425ce03, 0xfe38394300a1dbda, 0xe35799cf630441b0, 0x1a01b0c5b209af90],
    [0xf97946bfd66e5198, 0xe694eb4397a25fd, 0x1e20c9fe19f1317c, 0xfa20a26a6950d03],
    [0x4da86eebd6b42c1d, 0xd5fcfd9987e88761, 0x2e91c0fa091b7074, 0x1b63869e274926ea],
    [0x70af7af9094382d0, 0x199193a7da9c0a6, 0xe7370dd984a82205, 0x728043328557038],
    [0xbecf6609318b3707, 0x2ae994a20254054a, 0x55bcfcdff64c42cf, 0x9570a7f7a06102b],
    [0xc9aabde9614829e6, 0xec767e2db6e830af, 0x161db54a99810f76, 0x1c2ff23fd6d0090],
    [0x42ed4f452517f6fd, 0x49376330df799ca8, 0xcf0eccc6bda01cd3, 0x7faf7d80752f501],
    [0xd2795baed9e08d3f, 0x49034231ed7c6422, 0x367d207e45be38d4, 0x2a25dc90d45e36b9],
    [0xeb0e8bb68a244851, 0x5b1439145206f49a, 0xc318cfdd961e62bd, 0x5d6d08e40d2741b],
    [0x5ef114d08bbda9f0, 0xc642e4f3dd667b08, 0x3b0b27bdc77d990c, 0x9d7b3f8a46f030b],
    [0x8b36659d94ef85b1, 0xc0385d883f08fe7c, 0x37ddcdad5e4707dd, 0x2d17960ecd06706c],
    [0x5d9c2a0e77e8ea99, 0x18b1e9a4052a3a7e, 0x3204b074c1dba4c5, 0x15f2471564848a16],
    [0xb908d8eabbbe4a3f, 0xd0e5bb9856059ea6, 0x3ef18b311474b8f6, 0xbc29d644405d0cf],
    [0x4992627d49595ee2, 0xe0ea6ef3becf3921, 0xab8bc17436762dec, 0x1f3cc2b9a666ca5d],
    [0x1513d0fe07b6b5d1, 0xc2d21a431561b3ee, 0xf7e1129191a11ea5, 0xc5c7ec0b72c7947],
    [0xb5c8c2e06d675be2, 0x4909fc25151c3941, 0xc0250622fdbf6c09, 0x1b02b02f8547bf62],
    [0xb654eba980ab84c, 0x6031ea2bbe1406f7, 0xaf102b359db224d8, 0xd3213b732109bee],
    [0x4e5696dc74eefc8c, 0x708426a72b03f8dc, 0xc1ef45998777202b, 0x15848ecf21e60c3e],
    [0x28be9fb5d6e3b0c, 0xc62b386a3483ac39, 0xf9ec698db97e7552, 0x14dbf6efa7caed2c],
    [0x654747119bc70ae4, 0xab7a3ac8c5c5b91a, 0x4dcdcbee6d4bb8c5, 0x2616126b746c3d8a],
    [0x20b7ba659386297, 0x9ab0fe52a4665554, 0xf8865e32908d76c0, 0x191fe12396efc23e],
];

/// The values of the round constants for width 8.
#[verifier::opaque]
pub open spec fn c_vals() -> Seq<nat> {
    limb_vals(C_DATA_0@)
}

/// The round constants for width 8.
pub(crate) fn c_table() -> (v: Vec<Uint256>)
    ensures
        v@.len() == 128,
        vals(v@) == c_vals(),
{
    let mut v = from_limbs(&C_DATA_0);
    proof {
        reveal(c_vals);
        assert(vals(v@) == c_vals());
    }
    v
}

/// Part 0 of the sparse partial-round rows for width 8, as little-endian limbs.
pub const S_DATA_0: [[u64; 4]; 256] = [
    [0x6ad847d4430f3f27, 0x70944f929fc17821, 0x7079129d114bab11, 0x1aa4d470abeaa235],
    [0x3c7e5d31139d196, 0x34b0c71e81cadc76, 0x46c0e697f481c70f, 0x1aaae08b891f5b20],
    [0xfd3f815824c7a4aa, 0x84d993289445a794, 0x7d8c291f332a6bf1, 0x2693bc2b2377f44f],
    [0x8ea7a30aec1cdf02, 0xf49c2cf84050c820, 0xedb3fb2d26038975, 0xfa4b8bf58974824],
    [0x77d41f0f2a18b757, 0xbb7e2e65f5a5f709, 0x765eeaeb08a06bd, 0x1746022555831c14],
    [0x4fced835382f68ca, 0x6b009f291df0567d, 0x7f33aa7eaebd0185, 0x3004430cc176cbbe],
    [0xe55bb00aac90c6f6, 0x351312c5203526d0, 0x75718a34075970df, 0x6406c73da9aef24],
    [0xacd25e869675c3d2, 0xe37ff0772a58aec, 0x6133172f19b8bbaf, 0x27db71cc71c8a22d],
    [0x1da51d8bc228082e, 0xe04a8d1f8557e23, 0xdc4544b9c5e3b49c, 0x25a9cb700e5decd6],
    [0x7ecf4e4db972fdb3, 0x37f6ac51998971b5, 0x7db5fd50be414ea6, 0x1f8b293768d050b6],
    [0x37ce2798d5441343, 0x327fe00df9da4b4b, 0xeb471a2745efbccb, 0x537fd07b3ac0757],
    [0x829e666889211ccf, 0x1f735caa82faf0c3, 0xdc0bf71a72621a3a, 0xf3d208e42fd3d45],
    [0xc3a9cc73afe3638d, 0xf1bfd0bbac488ed7, 0xbffce8f4386966e8, 0x21b6ec876fedb5ca],
    [0xbaed74111168db13, 0xfd45c725456edf, 0xf7446ae4b3d1cc2e, 0x95100091241dbbb],
    [0x3b6f20c771a1051f, 0x4e79780511c3a385, 0x188f3d193aa91b09, 0xf1cf912f0d9e8be],
    [0x6ad847d4430f3f27, 0x70944f929fc17821, 0x7079129d114bab11, 0x1aa4d470abeaa235],
    [0xd61a8392cf186509, 0xc05801e9fa43439f, 0xe64c6e3abac4b349, 0x1c0b352556b629b1],
    [0x64e9b221d7b121a0, 0xc951a8d2186b96e3, 0x9120670758f382a8, 0x1298fbf78e896735],
    [0x3221456edb02fa3d, 0x1b5d036d2495b6d, 0x593bd059db34fc4c, 0x32529e49b3721ba],
    [0xb4ed871d708729d5, 0x277497f79cb16a71, 0xae12f4c3dd4d106e, 0x2dbd37ed630dd234],
    [0xc7ea457169745b77, 0xbd5d83e8d177ca9, 0xbd369647f84e2a31, 0xe9a1b9cef20c937],
    [0xbf249f8f7a51cf5, 0xb01e0632b062e87a, 0xc1a2ffc3e962a54a, 0x2f25b164c0610b5c],
    [0xa30f4de74c4979f5, 0xa1d037e481ef2161, 0x6069c9cc1fc20db, 0x27b73694b83e0b1c],
    [0x6bbf5e1dbb732f2c, 0x822948bf91d38e60, 0x3b4bbb40fa812c86, 0x1aca98163961aa6b],
    [0x40d28dc3a4967c0f, 0x7db2ece0206f97d8, 0x26bd42b7f2a9f8be, 0x23f67b87edb5d481],
    [0x4760d0aed02ca07c, 0x57b0aaa7277f0aff, 0xe3ec93486228f36, 0x2d7104faa91a330],
    [0xe1a097a4749467a1, 0x9a56a240cc20e40c, 0xc7b411b0a868b9ae, 0x2f948955cf159477],
    [0x9eaae07ddc18ba84, 0xac1930b222fb91eb, 0xffafca05d4f8ab4, 0x105151aad6d4d796],
    [0x329bd98003fe5d8a, 0x2d43e41e87148d92, 0x996cefd61c503285, 0x3cb3379d04500d1],
    [0xf98b65401e8d12a4, 0x192215d9fd76be3b, 0x8ec716ed94050bfe, 0x12cc617757c85767],
    [0x6ad847d4430f3f27, 0x70944f929fc17821, 0x7079129d114bab11, 0x1aa4d470abeaa235],
    [0x748ec9312a0697d6, 0x859e53e85311efae, 0x21da019c24594a1b, 0xc8716d8ded0a8c5],
    [0x979656d9a71988f2, 0xa4b26c6050cb7733, 0x7ed641c2a50feab6, 0x2e082be597fce21e],
    [0x9333b0b8b8175b21, 0x361b9a2b72a05546, 0x7a0863e715a67ad4, 0x1775849fbef452ce],
    [0x37775cdf4abd3e0c, 0xc1ee8af951e69f58, 0xecd4fb66339a2fe, 0x1fc8ebac9a5cabb1],
    [0x9132b8d7af4025af, 0x2ca7ad692aa9dbbf, 0x4d162103763ac39f, 0xc92dc16c65e5fc7],
    [0xa26baec8daf691a3, 0xa97b4605846db4f0, 0x1f857f13e667e9d7, 0x1e5b7963f79d2bdf],
    [0xcfe1b1cc4daaa8b9, 0xa08c46fc6277dd38, 0x381c2c893dd30cfd, 0x19172d7e44ac5b1b],
    [0xc0efd168e4e83e60, 0x820c53049749f533, 0x9613d54a604aebd5, 0x184154d48a6c6cbf],
    [0xda02629f66eae2c4, 0x1292c35f083d350e, 0x32dc2d3bc1fdbfb9, 0x1ce093daa2ab71b1],
    [0xee75749015a91342, 0x8f04ddf7d766c33b, 0xe6dfb1b2864ac2e, 0x12b07847ea7982e],
    [0x64e4b5068b44200, 0x1d4c7f667a59ede3, 0x850b8a653486e0df, 0x1b96c0239c9b6643],
    [0x7e29a73a3aad422e, 0xa33d60c4d8a52931, 0x1b7e857531ea416e, 0xb053365816d9cc6],
    [0x54851b1174c2278a, 0xd7dfa13c58f725a, 0x8717b3689d46c05e, 0x1fb9b2c50a99cd78],
    [0x9e8dbb2087391eff, 0x9e0a916537522576, 0xc0e461587b7332e1, 0x2c34ad3345bff455],
    [0x6ad847d4430f3f27, 0x70944f929fc17821, 0x7079129d114bab11, 0x1aa4d470abeaa235],
    [0xf30ae132251203f6, 0xc07f60a8d8c1cf9f, 0x837f5a5e7c13eb75, 0x60718f37a9480c0],
    [0xb4e6acef622c0436, 0x9c0a463382cb76c5, 0x1e92d6cf690b28e, 0x4f4bbea35e9b90],
    [0x961d37dccdfaa238, 0xb79b7d04bf346f95, 0xcd5a2b7ecea51942, 0x304a3b30d2300c7b],
    [0x5313e50a3810a397, 0x46f2b7bfc898ee9c, 0x4ef55566942ffd3a, 0x626de3124c2c8f0],
    [0xb2a06666f4d93e09, 0xf2ac002c31dea430, 0x4e310b3109297f03, 0xaeb9945d06bfb64],
    [0xc90f29983f0a1538, 0x375d397ef5d09a3e, 0x8cdbd2084d379720, 0xb9264fb57be5629],
    [0xb3dd89480adf582c, 0x379ec632306e689c, 0x1ccad5751663330e, 0x17dbef787498ee54],
    [0xa764638202a1724b, 0xe621b84a1eac7be9, 0xcec9655273017e83, 0x15e36a3829fcaa26],
    [0xde12dd0ac2b71a76, 0x2ae7a73c2e2b6dbe, 0xfe7659f078d7384e, 0x243a86766734068a],
    [0x7caf07c1700f0921, 0x19519dc2b7960b5a, 0x71adb125c689bdf5, 0x19f171461fb4bca7],
    [0x3bb2fe0395a6ec5b, 0xc04b5bc31475cd80, 0x7b5ffb6de24e939e, 0x1f5a2974eab40b78],
    [0x47c3bc4e74fc02a0, 0x694a7205d39ac722, 0x1be067fb4582c810, 0x96ee06e8758968f],
    [0xd840329eec2a20db, 0x1ff5acc674628f46, 0x3b600c67724666f7, 0xb96036106210186],
    [0x56f86ac0f7edad99, 0x25af381f598b075f, 0x31eaea95d0148b05, 0x54f72b1aaf1f05],
    [0x6ad847d4430f3f27, 0x70944f929fc17821, 0x7079129d114bab11, 0x1aa4d470abeaa235],
    [0x634167d4d440491a, 0xce9d2ff735ee49e3, 0xb7aad179279727ee, 0x15d5de1e8c0f0d18],
    [0x155fb6f9c4ebc049, 0x5012f4203a0ee73e, 0xfa4818e065c50d57, 0x16df68e36d342998],
    [0x3773217411af1ead, 0x35d51810b72339aa, 0xffe200bb698683a, 0x283e201525e86ba],
    [0x3dd7e8465ace409f, 0xf98cad532e2f5707, 0xaba51ebee25b7e42, 0x289ddd4c7635287b],
    [0xb7c98841b2719d33, 0xa036c6abdfaa26ef, 0xeed82ca10249d26a, 0x16c3afd8596d8515],
    [0x76effaa95351e90f, 0x7f4517d3e668903f, 0x913a86dc0749646b, 0x4d76016f612698f],
    [0xf7f9d9a72a736843, 0x848393aa6f76ecef, 0x4fe189fe3015d9d5, 0xd021dbb869aff3f],
    [0x920f097379443e98, 0x2d5f7af5cfc5d1bd, 0x46e9e6ac5835329f, 0xe769248c92dd03d],
    [0xb7706f7defe167d8, 0x98a54d3e6406d880, 0x7e0efa11690f186e, 0x189d6ee4a5b44594],
    [0x889e1d2d698c76d1, 0xa113bc19565a01cb, 0x5b13759c9b4cad42, 0x2d9bcac46f7ca941],
    [0xf0ac1b7144e631b8, 0x5f6421a91b98b1fc, 0x9a7f03a6d361369a, 0x684c2e542b4e0c5],
    [0xf1ec18bba7a14f38, 0x1aa614e1fe034f6f, 0xa2d9c7df3a924b66, 0x1f6608bda209f29e],
    [0xa1ef4e18ddc0a65d, 0x3df99d35fa3da8cd, 0x845f258bf12de615, 0x203c71fb9d4f1881],
    [0x6f064321ee8e37f7, 0x3e4115f898b9da85, 0xa727c029e4edfc39, 0x2bddac5720ca5c69],
    [0x6ad847d4430f3f27, 0x70944f929fc17821, 0x7079129d114bab11, 0x1aa4d470abeaa235],
    [0x68a8904a08a2366c, 0x6b64768dc9b29c9a, 0x2936a31cc331b385, 0xf415650a23aed78],
    [0x19b3deaca21f79ed, 0x1781fcd588f4cdc3, 0xfb7a1c783e24ad14, 0x2a3272896962e7d3],
    [0xa03ee9a65bd443d8, 0x19610d8712eb3d31, 0xfa8cc7587c9d92bd, 0x1aa729490f697568],
    [0xe5503b615d7b76fc, 0xed4b1534b65d6eff, 0x980dae564122eac6, 0x102aefa3ca3e1722],
    [0x1fb67ec8c452008c, 0x644a68c59183933f, 0xc42d44cacea45c18, 0x8fec616df09b477],
    [0x3b7af9454f23dda5, 0x9723adb47729b691, 0x9237a231f8c28ea1, 0x6b5b266f1fbe4ea],
    [0x1225e2c45c1163b6, 0xaf68616fd73bd29e, 0x97b3320cffb56648, 0x2d4a264e748b499d],
    [0x50cd8b173a766988, 0xf713eec67aa001eb, 0x80406d270debf092, 0x2224e659d1d7f55a],
    [0x5f744d360d50d571, 0x5982f34b658c553f, 0x25f3accf1020805f, 0x20260ec25a18f492],
    [0x40cc0391490b1b57, 0x511e869655174965, 0xc066616f97e14c1d, 0x1a692c93319abaae],
    [0x31066b41616c23c8, 0xc2689904db402a61, 0xde6cef86f5de626f, 0x2189d255d9ca828a],
    [0x3e8ad87934991a09, 0xf036aabe5a12c9a0, 0x5b90d865eb1a9a91, 0x43059b6857affa8],
    [0x1cb8cdece412be75, 0x8cc2a79bad7efbac, 0xa3c060c2865abcd, 0x2a32437cdaa6a32a],
    [0xb030f7b51e6f8f44, 0xbeabba4c210b3617, 0x10a3f0273bd7cf58, 0x1746046edbf4fae2],
    [0x6ad847d4430f3f27, 0x70944f929fc17821, 0x7079129d114bab11, 0x1aa4d470abeaa235],
    [0xcce5796dfec39e35, 0xecd01154007d555f, 0x38a594cd70011ea1, 0x166371ee86c08d7d],
    [0x900f8c61e89e3edd, 0x1b42106d11f08b6f, 0x569c73128c8a4135, 0x22f89213a0580e56],
    [0x8b51ad6d96ecfa8d, 0x109dec51c81cd7a3, 0x3b5647f94ceafa4b, 0x1b3bcf6322de4085],
    [0x62731a5f02fa16ca, 0x9c9a2081e432cf2f, 0xefc7c73f312de073, 0x2fed79c7828b5f8f],
    [0x42207eb4df69c7ea, 0x38dfb57101da284d, 0xade58f233829cedd, 0x243db465df5d6d34],
    [0xa34b3f78559bfb14, 0x1a17966b8731f2d1, 0x64facc37ae50dcd9, 0x1d49c10bee07998c],
    [0xe1b4526aed397cea, 0x29cfb85883037333, 0x96da599f89c4ea77, 0x2d7c4a750b7000a2],
    [0xa5c1df7a3ac5d339, 0x827742918d35aa52, 0xd67ac279bb51826a, 0xd4f4d2dd076db4b],
    [0x6676f45a64b818ed, 0x59d1e4d026379ec1, 0x531d4122f7e07727, 0x228901e5388a5c10],
    [0xcfa0e4172fcb2d6e, 0x55ba045db988cdde, 0x4d7c19f2fb49c312, 0x111e7f5a746d046f],
    [0xd35e84ab29a122ec, 0xfe9ee83f4fdf4dd0, 0x28680bc0ae805194, 0x1595f02fae7bf2b3],
    [0xdb4dd922d35906ed, 0xda1f0c6a6a4cc883, 0x4f3ba5cbac4957fa, 0x2d22c9fe81fe2db6],
    [0x750c5e5a98ff19ae, 0xd06c5b48201d8f9a, 0x549a6f5de06c009e, 0x21587d485b2624d0],
    [0xceba5c1d6944a64d, 0x74ffb7c28b45c7b4, 0xaf0ce44a3cb2113e, 0x24c33e212e7e9d3f],
    [0x6ad847d4430f3f27, 0x70944f929fc17821, 0x7079129d114bab11, 0x1aa4d470abeaa235],
    [0xc6b815dfb5e7a24, 0x1463bf8b1596130c, 0xe8adcabdda34e70, 0x187f5db526575c18],
    [0xcbcef2421ed7b0e9, 0xe013ce0df06bf31, 0x84e0f168c64404e5, 0x75eccf8b0d6ecb1],
    [0xcdde813f0b1a373e, 0xbcaf77ebb32d7cb3, 0xc48822e147e332a2, 0xbf2f82a1b14f888],
    [0x7365c5d97d447e62, 0x59a87317a35f7ccd, 0x8568d2109e0984f0, 0x1f587a1be361522f],
    [0x22789cca594a462d, 0x1b6ff3979409e839, 0x20fb4fd8c3f413db, 0x24a69effda852c7d],
    [0xa0f8cb7110552ad4, 0x59a97023cab6db35, 0xce86bece70ae7a5a, 0x2ce67cebac6bc12a],
    [0x1a8686ecd37023a1, 0x2f1e7101a78a3877, 0x40c37118ee269069, 0x2ef4852f4fa73b0c],
    [0xbbdf30786debedfe, 0x3f394fdb3076954b, 0xbe53c157c56f6297, 0x4ea49b4f2225a5c],
    [0xd26812be0ff52466, 0xb06c3f834f170e96, 0x82ded304d1f37903, 0x2e874d03cebf4957],
    [0xc0588277f53d81fa, 0x6e03a8a8eecef4e6, 0x44b212629dae61e7, 0x23acdefba9e5cff3],
    [0x3195070843eda183, 0x9f1e9e99f997f77, 0xfa76d6bd920cfc83, 0x1173808e27354b4b],
    [0x9a3c999413d048f6, 0x2b936c47fec5f226, 0x5ea34932e7bc2a8f, 0x29aea310845b4a50],
    [0xc28fdd5cb02e3d2b, 0xcabb89c3ae4cba4, 0x4cc82c50a833a17f, 0xf5536e4420b891f],
    [0x1cc143f09e2012fb, 0x6858a4c8989e3004, 0x1c0d832be178d43b, 0x7a3576f0287b2a],
    [0x6ad847d4430f3f27, 0x70944f929fc17821, 0x7079129d114bab11, 0x1aa4d470abeaa235],
    [0xc576d54563f7bfb9, 0xdef96a11d38e7371, 0x1c2012dc6380f52a, 0xa260dcd98e220b6],
    [0x4c459779945157e4, 0x2e4456690be5dd8d, 0xdc53ae913cfd9ea4, 0x224028c158b4b4a],
    [0x2f62f8159cec690a, 0x48d8ea2432d99816, 0x67888a2ed4bdaf31, 0x166151c43e433734],
    [0xc1f156b33898b28b, 0x2adb55d52dd0f4a8, 0x7b183cff006a0a58, 0x556f9ec39ba4bc7],
    [0x85f40c69aa4aa297, 0x671086156d9890ac, 0x50110754b53b3d0, 0x201670bf6f1fa62],
    [0x6da27802e7f1c85c, 0xf319f194dc16451c, 0x957b209c42d6044a, 0x18a78efc7a694b6e],
    [0xb42a61e2e43c87df, 0x9788664849b96ff0, 0xa9ddd71cc6a71162, 0x28efacaa79a0af5f],
    [0xd312bcecf4cbe9ab, 0xb2e164afe885db6f, 0xf0d734e871a40be7, 0x1d07f908b2ac7783],
    [0x3d948a8675db96e4, 0xebfa6f49c48db74b, 0x8af3d17c569f37a9, 0x8f97fb3cc640d07],
    [0x6ed4ebe194fd596, 0x927f8c9df032cdcc, 0x26c6a6fc7de40b89, 0x2718e729e940dd2d],
    [0x9458ba48b19aa6a6, 0x8686dbecdc52ca8a, 0x11f3b62801199cdd, 0x2c68ea4120e5abbe],
    [0x779fb149b87e10c6, 0x732279ea49607ee, 0x809ff5004728953, 0x2f39ffaf54a4cbf0],
    [0x609ef3066197a9a7, 0xd9958fc11e443705, 0xab7c5f9bd5910a9e, 0x130fb307c6cec609],
    [0xbda059379f7b58e1, 0xe6d5cc473e1001df, 0x211c482bcaf70789, 0x129a1c66d1eb5e84],
    [0x6ad847d4430f3f27, 0x70944f929fc17821, 0x7079129d114bab11, 0x1aa4d470abeaa235],
    [0xa6ead489d7aeea20, 0x595703ae5bd5f4fa, 0x5ec9afbffd85b1cc, 0x1cff973af21d8863],
    [0xd7e3e43386ad16a9, 0xf34fe11826bc9d23, 0xdd102e118d47d847, 0x27ac0db61623f033],
    [0xac8ffe5fe3a13904, 0x52630971092d0af3, 0xed8f5c957caed1fb, 0x25ed2b22b59ed4ba],
    [0xa2209c1c0d0d7e75, 0xdeb62c8f4860f65a, 0xb2da84a144207c4d, 0xb634c3abd9ad8e1],
    [0xcaf0b9e2340e409d, 0xc170f4c3bf4247c5, 0x62fe6ed5e3c9e211, 0x2158eacda450c34d],
    [0x1ed6a9e83710afca, 0x20401f5c2697332b, 0x5fc97e4d86b95c61, 0x1c0e715ac64d6453],
    [0x41c04e8b9530986a, 0x34f593a15b74306b, 0xb02aa300654e59bd, 0x1a491a07ee1df9ab],
    [0xab3075fa4f60762f, 0x763fab9c85130f50, 0x611b1844832abbf8, 0x1523cc6481931e85],
    [0x46068f0d188bc9e5, 0xe1cc18ec0f45bc5e, 0xa970733571d5c01b, 0x2816926c129f5c99],
    [0x224ed49467e18a1f, 0x4476dec1f8f1e6d, 0xd333223a141c9e9, 0x2d94c81e271fb980],
    [0x7b5421e9a51a0b27, 0xee7c03914364eb61, 0xac41738599d38cca, 0x1bf8ab0b8cefdeed],
    [0x857681411bd04c64, 0x5156b6adf104625f, 0x3f2a4d669851364f, 0x21fd6c59b0f41745],
    [0x96a39b9f8ebcb917, 0xd84bee966a948658, 0x117aa98c104499b4, 0xaea3c50afc0806b],
    [0xfd1015cc21970f55, 0x102536d56b57aa85, 0xe7e04b23788ac40e, 0x29a8795e1f8f1e27],
    [0x6ad847d4430f3f27, 0x70944f929fc17821, 0x7079129d114bab11, 0x1aa4d470abeaa235],
    [0x3e286df2f3519b34, 0x6426722fe24a261a, 0x610506535bce0418, 0x17e4ac7e489fb7da],
    [0x721196ac9f2cc130, 0x18001fbbf5d144ed, 0x726afccf1c9099fc, 0x10ae4901e443ef76],
    [0x5100d435a0debb60, 0x5175727c03003f02, 0x84c93a18b4feff24, 0xe60f58884bc2520],
    [0x1ebf64db787deca7, 0xda3119cc01d12c6f, 0xac4069982a1fb163, 0x17de16da3692bd34],
    [0x225b079c7acbd4fe, 0x7322f3c11993c59a, 0xaf6d92afc8dd98ae, 0x78d14f36f6349d1],
    [0x2ffec76f7d36cecc, 0x9567ed3a08cdd724, 0x3cc83474da74607b, 0x2cfc356c4f60781e],
    [0x65bf8785ceea104f, 0x5130e6f3a2b47fde, 0x1c68fd2dffb62715, 0x1531440db56edd52],
    [0xa63bc4fc6441996b, 0xb74f24a51f4bbca5, 0x16107dc0c4fe9818, 0xc9d25b13772cda1],
    [0xc256b69c04456500, 0x47ebbc32a1fd199f, 0x33f9eee850ccecea, 0x28a4751755712b3d],
    [0xd611fcdda52e4407, 0xdcd664d55e990cb2, 0xd376aa8ec83216ba, 0x1eb00cff68143cfa],
    [0x2f17df4eb996dee5, 0xb46d45f0db08af96, 0x816135706b090ea3, 0x1bbcd528cc66eb76],
    [0xfcbe4359827f8cdb, 0xff752baa24b9fb51, 0x5821aa4f32e9103d, 0x19a41df7dae052bb],
    [0xba54ca4bf696ac5f, 0xc32c04259c9691da, 0x7fee6398a39e84a0, 0x6f34fe490adf4a0],
    [0x6d38e72838be3120, 0xdffdcc7f5326e76, 0x25619aacf2441938, 0x10cebd9c9c4b9414],
    [0x6ad847d4430f3f27, 0x70944f929fc17821, 0x7079129d114bab11, 0x1aa4d470abeaa235],
    [0x95e6b60cb4989d14, 0xcbfd07a30736ae5d, 0x3af80a5906052159, 0x214aea2850fed722],
    [0xc127f95862add38, 0x9d2fb50d36cdfd5c, 0x1d4d2e73c0a36cae, 0x15595aea45afbcab],
    [0xf5bca5371d0c895f, 0xeaa7c537a20cdd18, 0x79aff19190da8995, 0xc4055b948c4a9fe],
    [0x33eadb427c13989c, 0x803bccaf08b7ba87, 0x6ba2e50781fbf937, 0x202dc56d64cd4dd1],
    [0x58d91066c3fe15da, 0xbc5a8539957f3199, 0x2edd46f965bfcc66, 0x2ef4191b7deb37e9],
    [0xd8595ecf579552a, 0x96e355737961c85e, 0x1600a517edb486cc, 0x2f6942e918adbb19],
    [0x5f671e2ffcb9f2ce, 0xaf033b539d7bf1ae, 0xb552d8095cd8a6ff, 0x2cd60b5a15f37871],
    [0x12deb2ad55486afb, 0xf75a4060ad8a710, 0xa8aa9e5ccf472624, 0x2e05c44549c1ca99],
    [0x531f95c5f4ae08f8, 0x393906c12e903931, 0x34b2864e7b2977f7, 0x29b52fb3d57ee056],
    [0x3c83e6600cc56a60, 0xd26d6744c98e5cf5, 0xc9a46a1e2853a18e, 0x1a565be54d3bd12b],
    [0x5c46f667bb3ed592, 0x497b46d85d51a4b0, 0x4ea2ff82c73c6809, 0xc806f9ac20225e5],
    [0x59b260116290048d, 0x7eb5933a91404983, 0x86012bc5c7612d5b, 0x2aac8b1272085c79],
    [0xa54105e674611a3a, 0xc5e8bd52af3ecfea, 0xed8d40d74e84fb0e, 0x1ef1b93e5e0c4bde],
    [0xbaf774491a001296, 0xea119ad01ef6a090, 0x3cc9abf0f0ca133, 0x1a1fe313685a247b],
    [0x6ad847d4430f3f27, 0x70944f929fc17821, 0x7079129d114bab11, 0x1aa4d470abeaa235],
    [0xbe8e8a1ad6bafc0b, 0xabd3aa7829422a66, 0x7e6ad899f7960ea1, 0x694287a5d6c2f8c],
    [0x682cd28463e15104, 0x9d774a98e3439d05, 0x52ff42d595d2d0b5, 0x2aa1bd4878e2ef82],
    [0x3cf77d110237314d, 0xc365e6eaf980989d, 0x317c756d0e48d5b1, 0xecb968856d9c8a1],
    [0x3aa1c0df80943907, 0xb0cb8a0c39bea71a, 0x243fbd11fbb4d25f, 0x8a950f1079254aa],
    [0x4188f96ea21cadc0, 0x27bafd17c7a31d48, 0x7b530a40b8990524, 0x2ca441a867e40ca0],
    [0xb85d223051852c23, 0xcb69bc9ef22405e2, 0x52e0af3a54444fe9, 0x60117f9406bde6b],
    [0xca3e6136c6b04f4e, 0x9fc2b3610cd8f90b, 0xcb8fa67ff4c032c3, 0x18cfbf11b6c20bd7],
    [0xf5da3e2bd2970a43, 0x2ee369b0d2f232ad, 0xd30bf96a82d3fcba, 0x14addf2c0a38c601],
    [0xe557f5c60eb84442, 0x47563be4acc97c46, 0xca7e8f5a5341b569, 0x2677d87f29a2a948],
    [0x841977f39109c1ec, 0x9d926458b9f1177f, 0x6cf5e9bcb1b2aac0, 0x2f423100c2e9988b],
    [0x3fbb6b065db979a8, 0xc15643c8103c9cc7, 0x7da260694265b951, 0x2549090369bcca25],
    [0xeac1cfb774412d97, 0xb400b16499841e1f, 0x3b8f1367cf4eb199, 0x205c0e6789ef1fad],
    [0x867a3ee170b33fba, 0x224c93a655d78ca7, 0x7308b5b7a7ca6b98, 0x116a1eb2caf56acf],
    [0xb9dea2e267f3576b, 0xa71853c4c6f772fa, 0xfa6a69f480121787, 0x319871e083a6e2c],
    [0x6ad847d4430f3f27, 0x70944f929fc17821, 0x7079129d114bab11, 0x1aa4d470abeaa235],
    [0xfa318a5aea8d22b6, 0x64053b4c0a65dba7, 0xb0c7e79ae6b2f5c1, 0x5b98a534aa4041b],
    [0x75da6d9c66ff2cf8, 0x957b461e3e2d8097, 0x9e9ab4774911a304, 0xdd5bbcdcf0d6fe9],
    [0xbc9072f1d8e37b87, 0xd671076f0d0c0e8e, 0x47adb2487c15a4ce, 0xd5e13e77b22ec34],
    [0x39e0fc942dc64450, 0x877cf30b1321dc7c, 0xa4538c25683b468c, 0x20468b6dc384b134],
    [0x81f50c630dca8376, 0x3941ed0060dd9d1b, 0x1caa703abd536278, 0xe2bfc13ac065e25],
    [0x8f8197b949960e0d, 0x1de0de93dd81e76e, 0xf123b3078e87e625, 0xf300f277165a02f],
    [0x48f3b7ce93f75a5c, 0x30536b1900580b33, 0x400e5a71e1ca2f8, 0x19ecc98c331d8b44],
    [0xf125e9cdfa7ecba8, 0x4568c7c442933b21, 0xceb50be1c78808ec, 0x2b60e2012b670944],
    [0x731b167f32697459, 0x24df0ac74db004e7, 0xaba892a46c2061ef, 0x2c3e3476d128db70],
    [0xe4fbec63b6282e0c, 0xf6a6ae79792249f4, 0x29863c74c80f1eb3, 0x2eba0701ccabc0ab],
    [0x59ae847b7871a1d, 0xdb9e7df929755b98, 0x78878ebe3481c9b5, 0x1b821e2031ccfef5],
    [0x2f85f2154a6395a0, 0xbb10ca97ee041471, 0x2f66118e487a97b, 0x12424e45b8850600],
    [0x4cd43812c3c3830d, 0xf0f3387736514af4, 0x17558b62f32c530e, 0x22dd55670c913440],
    [0xcb4545249ed116df, 0xca5963f71823a62b, 0x4f2e7b161c693472, 0x18c607675f0a99f9],
    [0x6ad847d4430f3f27, 0x70944f929fc17821, 0x7079129d114bab11, 0x1aa4d470abeaa235],
    [0xec8de3983231be32, 0x6f93c5f9133007b4, 0x9709f054159cd7cf, 0x2d16a32d5c966313],
    [0xe1b41d8f71a985fc, 0x1e56a4d42d6c13f5, 0x27cdf6f91e6ee2d8, 0x1af2c4175ff13a4c],
    [0x78eb3be202c9dd07, 0x5b534d42a226880d, 0xe58ef3e56c2fa32b, 0x244100fc9f31adb4],
    [0xa50b7e17418f2151, 0x37cc0e1d2d68f919, 0x978a089414dd8058, 0x25fabd23de22009b],
    [0x6d68f7542a6b50e8, 0xa42b92268f0c06b2, 0x3a857ac06d5d9777, 0x22f32d43c35f5cb3],
    [0x4c1523527f48f996, 0x2d2f723b864b84e7, 0x9951e09b497f1c1c, 0x20b44788f504781a],
    [0xe5a09314e64cf7b0, 0x6759800df7429c45, 0xcbb940532adb6e37, 0x17192ddb8a67bd2c],
    [0xfc467637b61cc2ae, 0x809164b994e388b6, 0xf572650a9566ed2b, 0x116b6619b40c6172],
    [0x2ed3900e1d730ae, 0x93316aada3b052fb, 0x938a9ccc82fa3d36, 0x1e0133f2e4adbf08],
    [0x4d56a3cab23deb44, 0xc1446a32e575fce, 0x285156dee897b4af, 0x1664c7e25e5a7d2f],
    [0xfc4aeafc329b7f49, 0x7aed7bab5ed55ce3, 0xbbd4bb03394bc4ae, 0x2512c8e3d7d525ed],
    [0xcdd9b54259f64bba, 0x1e66995c9dd3ea18, 0xf6efc527bbcdb85, 0xf5800164acb67ed],
    [0x800858d48cdb9cc7, 0xd506ed77d576abce, 0x6f54dc097f0c2f72, 0x1e4dadc5ca72e83a],
    [0xfdacbf3929551bbc, 0xc59ef1d35be0e6a7, 0xc8db980123effebf, 0x398b2ad87a996ae],
    [0x6ad847d4430f3f27, 0x70944f929fc17821, 0x7079129d114bab11, 0x1aa4d470abeaa235],
    [0x9dcb30cf75f59869, 0xd9c012a2ce2e0c4a, 0x9df6c53ace1a5366, 0x2e351fe58b5f3638],
    [0x581c4ea68f58c5f3, 0x272b62ee90ff19be, 0xba364061abbbde22, 0x290c7b5e749c1532],
    [0xab5ea343e996a778, 0x244796351a9c6077, 0xd30f5aa63cb0733, 0x1313fd3c76130731],
    [0xf496e0c8c5dbb3ac, 0x64e4d03f9487a076, 0x1583c403f09dd2a0, 0x2c31bfd37ed16abb],
    [0x3b457ba9cc9a323f, 0x85845e6fd5b7247f, 0xd735b7284037753a, 0x10cabad2beffecd1],
    [0xae146ea4d3736d10, 0xa161b6b85894abe5, 0x916458f940919859, 0xe02a96e2faec73e],
    [0xaf2096389b791b06, 0xbdf49353b3416207, 0x43b23f3ccc565567, 0x1d6e090f0acd4da1],
    [0xdda5778563ae1a93, 0x5176968069afd815, 0xeedbfe3fd4f725c8, 0x45f7f1687d62eaa],
    [0x257fb4f2da1cb9b3, 0xd0bd9befdd54580b, 0x4490d2f41eb79295, 0x2874ad2d5ff34d85],
    [0xb3c3dc6e8285239c, 0x84a749648f98c6c6, 0x21a6641ff9e39595, 0x201894e0f41d2f3f],
    [0xde7c0d0610506b73, 0xaa209baffb0c862f, 0x1657b6f0cac27ede, 0x1e51409dcf81bc66],
    [0xa501dc1be740598a, 0xcfff307af338cee2, 0x91a798c7392afcb8, 0x2cf3f549a9651db9],
    [0x645d0f63bad04b69, 0x35872fddbb96fa56, 0xa1d6ee416a8be050, 0x1b7aa8f35a2488bd],
    [0x69cfa1b0ffd06a02, 0xe94d5906a78f634, 0x1a44e7422da93b1e, 0x182132ead4b05f9e],
    [0x6ad847d4430f3f27, 0x70944f929fc17821, 0x7079129d114bab11, 0x1aa4d470abeaa235],
    [0xcd432ef8de50b6f9, 0xae663dc10556dae9, 0xfc915b628bb76e3b, 0x863bf81ed562159],
    [0x9a8e5f24c8f5c0fb, 0xa9c4f9779daedbe9, 0xc99c3d11ef6d1469, 0x16eb9ab36c92c197],
    [0x7a58c60943c5c97d, 0xb9803a47a112d99f, 0x378d81f1509e94b, 0x2a0f1728e8a78363],
    [0xf14ed990881cb5ac, 0xcd881f98d0ac433d, 0x1a0f86af56e5d22, 0x20b391efe823797],
    [0xbb25f0ce319a1c01, 0x2451e815c5b0f784, 0xc45440f80dc7fc5, 0x586a52cbe0c5a8a],
    [0xf85d4e2272106766, 0x2fb6026f4137a0b9, 0xf49162688f13409f, 0x4af2601360cbbce],
    [0x667c7ef4c85ed800, 0xda0f5cfb36d4c35b, 0x8536dc64d24eb019, 0x9ad52f4be13ee67],
    [0xc25ea6dbd1ef0e8e, 0x582caf9373d45e73, 0x6c15afa0ebdb0f3d, 0x177a0d318b5c0b22],
    [0x740f8483411bc837, 0x33ba770104d76f19, 0x3a5d831e8a8cc4d6, 0x1ad9d99de7417cec],
    [0x174f5509e4676f2c, 0x33da60eaf4ec85cc, 0x51edef37a68c5e01, 0x69f24d59c4dbc23],
    [0x1780a7be1d7808f1, 0x4780562ec2d97aa, 0x17480f0363088e66, 0x2f87a8a8a421081d],
    [0x9897423d824e65bc, 0xcb01c1885ab2eeec, 0xb796aaed50048227, 0x2c2318745d149dfb],
    [0x7e2944ce6636ac02, 0xc504448f53a7c59a, 0xbb2a98e078eb12b4, 0x128ec586a98e49ff],
    [0x6ea0e434f518e270, 0xf4b84d263c5f6031, 0x873d6cf0f642ecbc, 0x2ab7de0aed5e6302],
    [0x6ad847d4430f3f27, 0x70944f929fc17821, 0x7079129d114bab11, 0x1aa4d470abeaa235],
];

/// Part 1 of the sparse partial-round rows for width 8, as little-endian limbs.
pub const S_DATA_1: [[u64; 4]; 256] = [
    [0x1558b4f7a59cfe41, 0xacba80cbb8cd74d9, 0x9b8b481d50922cf6, 0x642e786838ddb53],
    [0xa1bf8bdfdee1ae72, 0x1e14d7e1b9dded90, 0x6becefa234ab7a59, 0x1e02bec25bd53fcc],
    [0x340007d048dabfb6, 0x1a3a236768779c26, 0xfadc57ed29369e83, 0x261a2baf4b655675],
    [0x6742beafa69afad3, 0xf12f8465ab4004c, 0x91c62cda87eca6a7, 0x10b56d5ccdd0be53],
    [0x3648b2097ad216d6, 0x97349b6102a91599, 0xe576013e5b339b66, 0xd1e13710db39230],
    [0x1eb79ff36386be91, 0xac07e8827ceb27da, 0xaefc6998e1d3a845, 0x2d0bd075d622a9ff],
    [0x9c5314fa935243f1, 0xdb07e4eccd0871c0, 0x3debeac087e4c9d5, 0x17f840bc566db8a],
    [0xbb0e33456c572506, 0xd94a7d0b1e029c92, 0xa27d718f78fae4f2, 0x299f4beec86f210f],
    [0x53befd34b76c41a5, 0xb269c8d90e762690, 0x15c35090ac9b1a90, 0x6aa7db000f3f4d9],
    [0x66a66785cfc7b8de, 0x29af838d2dd7cd95, 0x594f3bd90a125866, 0x10dc89ce0e3e131a],
    [0xfd97f784d0d1d773, 0x1be8d8702dc1311, 0xd5fc7f219fa43fc3, 0x14e4b1cc172d23e0],
    [0xb1406b77a751216d, 0x1c4649139b132aae, 0xcae0242affc450f9, 0x26390978a65b917e],
    [0x2608c22327f1663e, 0xb20f82ef9cbf8f09, 0x36f3d9f5b672a682, 0x19aebfa3fa2b4cf8],
    [0xc985238678c404a4, 0x86c1fc54fbf57d0d, 0x88d8c43278a57baf, 0x2917d6cbc77bba73],
    [0x6ad847d4430f3f27, 0x70944f929fc17821, 0x7079129d114bab11, 0x1aa4d470abeaa235],
    [0x149435deeece130, 0xb44336359bbfc9d3, 0x7f60a3af8ca0b4e6, 0x2962061bef3a0b55],
    [0xe318ebb2a7c2de76, 0xfc95e868c228c456, 0x30372867a29a5017, 0x1ab2e3bd8c03c56d],
    [0xdca0d74244c36a5e, 0xd169d4216a2b3a29, 0x65e882c1f319aa89, 0xdce3071ee2164d4],
    [0xaa38e6c63831a4c9, 0xc240201761b546d2, 0xc00e5303d9568894, 0x1c7ff77683589db1],
    [0xfbe72997646ede8a, 0x662fc9183a250242, 0xedf78fb242fc386, 0xda3ad9016d14132],
    [0x9291783cebeb0104, 0x73e56ade83d3e1ef, 0x7c0a8a005b6f3d0e, 0x108c858506802f9],
    [0x194ab5d62bb3dc73, 0x99f500507d44c121, 0x535e735d35e2406d, 0x18a041ad99415766],
    [0x369f2a125b1cd397, 0x1b5fc9027c2e0542, 0xd1dc6eb9594fb8e9, 0x804d788ecca64fc],
    [0x9d71aef1760961ea, 0x94c7f0fe15a472a2, 0x92f143ae2ef1365e, 0x7731d16594681b7],
    [0xd2a5f1db712ec6bb, 0x1c4e02f738f2f996, 0x46c89385af82d905, 0x2bfa3cb90f131111],
    [0xcfbfa3fc3bf8b41d, 0x4214580e654e739e, 0x74b4f66c202cd63a, 0x1fddcd4b14291345],
    [0xb10218af80d66425, 0x834d867b8def498f, 0xbd7c942c2f273140, 0x886c258df023184],
    [0x5285209cb804e1c2, 0x13d9ac87b9c2013e, 0x85f134702d3b1c8d, 0x19ccae1db1a93007],
    [0x45979dcb63d6ad9, 0xbd37b94afd901c13, 0xe05e5f00ff95defc, 0x7a4b8155eb76363],
    [0x6ad847d4430f3f27, 0x70944f929fc17821, 0x7079129d114bab11, 0x1aa4d470abeaa235],
    [0x13359b2dcfafcff0, 0xd833006292886347, 0xdd4e34233c163073, 0x11526ac8331c0fb6],
    [0x998f7a782891dc7b, 0xfddd8f8fa1cf883c, 0x88e2794312192b8a, 0x2ee5b7cdcb61f599],
    [0xc9476d0445426a, 0xfb526ad94c189d53, 0xddc81bc209216b88, 0x2b88c35e9f5dc25],
    [0x6dcce44d9706f1bc, 0xf1c1035bc5ba8470, 0xccd1d57cefaf6190, 0x1947ffebc3ac4ac3],
    [0xbaba1d58101a3147, 0x74f1b4d69654c9a8, 0x4ea12b5a678143fd, 0x99f8cc64e050335],
    [0x9397c509f59f0e83, 0x344d8a27eea55b4f, 0x162462549921f3c7, 0x1afffd8d0170799d],
    [0x96ce5ec9e6486732, 0x82b25171bb9227ac, 0x6f68514bc4cbb302, 0x2fcd523995493548],
    [0x720a328a3aed8e20, 0xfc77c6a2f5583506, 0x5db852da22c3b486, 0x2ca2a102b6561ae6],
    [0x7681590d0b52ddfb, 0x1b478ae253a3d4a5, 0x5333fb805a44eaaa, 0x1002dc58bfec0fd8],
    [0x7240385200759205, 0xb92b47d9d81da130, 0x4d6be4e42e0b4f7a, 0x139557f5ff664db5],
    [0x9d103cfc9ac4d9c4, 0xbc2358e61044b6a0, 0x39ca638e7a1ea5c, 0x2c89c5c93e90d0a7],
    [0xad2f24beca0df141, 0xaba63df991c99d25, 0x75b58f2c619fc727, 0xcd0d79c5b4c6e78],
    [0xc70c9514899894c6, 0x4f59546686f74fe, 0xfa774311e59b2abe, 0x184b385669595dd8],
    [0x1d45e4109ab0ff06, 0xf4af9515b8cae7f4, 0x414741ed3287263, 0x1cf3e5292afd10a9],
    [0x6ad847d4430f3f27, 0x70944f929fc17821, 0x7079129d114bab11, 0x1aa4d470abeaa235],
    [0x17cc52bc51885cfd, 0x5476eece0cbc5666, 0x4f7a64f1afd3efad, 0x2e764ed9c7bcd1b],
    [0x81703b4cdc97ddb, 0x707791f2c6fd201d, 0x63a9204147ea1e9, 0x2e6eb18b75b4908c],
    [0xebc0942aba4ae961, 0x1ccf85f150ed4917, 0x8380c2295d156c71, 0x172b99d8419fe085],
    [0xf4bb77a7b68d73f0, 0x7b3aac9f670c50d4, 0x949a12d9a6e7453, 0x864eea049a1f951],
    [0xb95a5a47d4a2ca23, 0x829ad3cde0c3e63b, 0x661156db1ac0bbb7, 0x1f9a772d2f96ded0],
    [0x557598652e84051, 0xdef13b87a1c78bb6, 0x8994a78879704743, 0xe72ce0076500c49],
    [0x6f798c3dc22c4e52, 0x78e0cb54013eb59, 0x818e0dd9fe4cea99, 0x183ca9c331d42e15],
    [0xe234c7b12761beba, 0x5a2e885e76e1eb08, 0xcd1427b2b437664b, 0xcf4da57b9a9c07e],
    [0x77cc669717410a30, 0x443234d88b99fa1a, 0xeb8c3f35f94ab2fe, 0xc7aeb1957239ceb],
    [0x6c4bb77cb3dca124, 0xcab9caf72ffef581, 0xed6b079c2fa91b68, 0x120218ec06b07045],
    [0x3857f3be7a4dcfce, 0xdd8a395928cf9be9, 0xf9c99d07c9fd3189, 0x290ab4acbb20c93c],
    [0xf9c645a78c8511f, 0xb5ef6f0414b51438, 0x2972f6cb9490df5f, 0x1da24af446511ae5],
    [0x59e05398f7601d65, 0x9296b064ef0764b, 0xf936a2a68786a45c, 0x8eadf51c905e829],
    [0x3bc314cd4558005f, 0x5ba2f1ff248bea6c, 0x11fd94c66cb20d10, 0x19b72523f030bfb3],
    [0x6ad847d4430f3f27, 0x70944f929fc17821, 0x7079129d114bab11, 0x1aa4d470abeaa235],
    [0x553d6be482bad1ad, 0x31685e1dc1da5e30, 0x6e24bf4f8e63b45b, 0x177f0b80a1de3ab5],
    [0x326394722b9932c2, 0x2d5520271666cd41, 0xa97a40e1c227c2f7, 0x5b07ed986c2df68],
    [0x3af4980fb1d17892, 0x7daddbf2a99b581f, 0x8cf9a7bf1cd3cc1f, 0x24d2c3f8955b7a06],
    [0x96ed251b5bf10bf5, 0x30599a9d122629aa, 0x4b6bc89dc923f9d3, 0x25838298a0cc4b77],
    [0x8872e878cd3bdcc, 0xc7bdb307a5e790ea, 0xd9a2926ae68745e8, 0x2afd3dd5e0fc21f0],
    [0x253b424858b37e6e, 0x4afe22d2b2757373, 0xe19d950f3372e78d, 0x80f2fce3bab6286],
    [0x779c8c44bb17c8e8, 0x1a6915eeb05e47f4, 0xd74c6fef9f18aefa, 0x29ad15ea08093d81],
    [0xbed0cc081851599a, 0x878cd02f134592ad, 0x4f3daac34818db8, 0xe004451085075e4],
    [0x1e50ce2cd3a61c82, 0x514320c0e37fc296, 0x9e1e1e3867db57bf, 0x2c1793f6782d3837],
    [0xaa7aa1057e91dad3, 0x365307c9b7e9d955, 0xb7452c61319c2aa, 0xbf3dd46be8800ec],
    [0x61ec706dba082402, 0x6a0acd6d5cd2ab74, 0x95950b34ea3daf70, 0x2dc74ff53d617992],
    [0x920aebb5f0285a2c, 0xc9950388a9f68bf7, 0xbdc9464854f9df7f, 0x12d0bf8b8fe9ecba],
    [0x4c61fa71309e43cb, 0x4ecd97336f72eb05, 0xa96e3c0bd51e1460, 0x1e939676347eeeea],
    [0x36f6795aba6423a7, 0x2431f7334ea90064, 0x4c384588b0e97a0d, 0xa5c3db062ebf2c8],
    [0x6ad847d4430f3f27, 0x70944f929fc17821, 0x7079129d114bab11, 0x1aa4d470abeaa235],
    [0xa7ec06d4a517311f, 0x230761fbbf90746f, 0xa618abc2e19231f4, 0x41b75c1586f0664],
    [0x3eec96f080f07d1f, 0xaf32ca0621e408a7, 0x761953255195ee55, 0x202eb00eddadb4c0],
    [0x7f40de79f8527e94, 0xf07b337e84661c9a, 0xb91a1a62e5d54246, 0xf0cbd02267d601],
    [0xc1160288a01d3904, 0xbe54e8fcb3a7e2cf, 0xe9f4d970c661fd17, 0x14f2c248139059df],
    [0x53fbde41c2397183, 0x92b59dfcde7afcf5, 0x18985f49b0be1c18, 0x1ba2c5f95dfaf2df],
    [0xae35f95b6c924540, 0x9cf4e46a5a32d644, 0x4ff9c54e6ae1cbd7, 0xe0b040e8c04374f],
    [0xd28e1cc5c37351eb, 0x7c6c365edb3b9b2e, 0x699920b08e0bcade, 0x3d017d86b1b62da],
    [0x21a9d370d323283c, 0xc0f18c79b9599d1f, 0xc5f955a2ed3b4f57, 0x23b785d6905e142d],
    [0x15c8e4f2678a66c9, 0x4a39bb2b31d503e9, 0x5c9800d56394061e, 0x860b1ccb980266b],
    [0xbb3e4dfba4f372cd, 0x3f4dd4c14def98a1, 0x2a4282d39e2020cd, 0x1e3095884e8e3e8],
    [0xa7fbaca45477c377, 0x511f8b784129c8d6, 0xcaeaaf3243b4acd8, 0x1c0063fdf232c7ca],
    [0xeb25adef8da9f879, 0x2b80b889c8c8099b, 0xbde68bbae1fb69b6, 0x2de234571d455023],
    [0xd97809cfa9a46635, 0x6ebf453aa7f3841b, 0x61e08a2509895f2d, 0x305e6097b1a9cd07],
    [0x9ca849402bd52971, 0x321f65d941840f19, 0xf70565b4168248b0, 0x2bcc7b73e56788e3],
    [0x6ad847d4430f3f27, 0x70944f929fc17821, 0x7079129d114bab11, 0x1aa4d470abeaa235],
    [0x781ac10151eb2258, 0x9e1705eb397a4069, 0x8c69eab64507b264, 0x1d437882b57028c8],
    [0x907fdbcf97522e2, 0xe40e8529c224ec94, 0xf7ddbfb34e34a53a, 0x1af1a36aae7b181d],
    [0x10f3ae1246840a50, 0x9372df4a480d96a8, 0x487ced2a9e864d2a, 0x2785516123326658],
    [0xf0bd1744a0f700cf, 0x17c675fd85f84923, 0xcb790e9d96acaf1b, 0x27d476e2c174e2ee],
    [0x92f382a1e1197753, 0xe2c2becdb314269, 0x64a5edf2eeedeec4, 0x1eb090499e370044],
    [0x3e1fca601c6c68ca, 0x848a85bed444d413, 0x3c1e9afa8775db02, 0x92fe84aaf6c1b77],
    [0x2310ff9d61d44e3b, 0xed972dadeb94896a, 0x60c4b3e28fe8c18a, 0x104d16cb816ebbc7],
    [0x5232361f2b44cd0f, 0x58cfd870c5c1e831, 0xcd2e78be84286a7d, 0x2fa387f6bb06f1d9],
    [0xd240c8f79ae5c550, 0x419372fd90df93be, 0xa403f9ed5910f11a, 0x176b64eac41dadea],
    [0x2d8f53a7700022b3, 0x2d7efe5eed06b085, 0x8412f271b92d24ad, 0x2ad76ba01e94f7bb],
    [0x8cce6399d96fc38e, 0xa0733d07261297a3, 0x86ce27de3faeaddf, 0x1a8932f1b4cfac92],
    [0x38905e3d876ffd15, 0x27cf27def44830af, 0x87e1d042859f639, 0x1eaa55a6354586d0],
    [0xb1b6eef4348b786, 0x9b176473e8721a10, 0x13fd6caced95f1cf, 0x34c7817421f2bc2],
    [0x1d54e67acbb840fe, 0xacc4c5946664b043, 0xceef06774dfe798d, 0x31efc323d83d4de],
    [0x6ad847d4430f3f27, 0x70944f929fc17821, 0x7079129d114bab11, 0x1aa4d470abeaa235],
    [0x8a758ad63c20e807, 0x9a0d07abe79ea359, 0x260f4a2fec7d2e1c, 0x9e3886c90029fe],
    [0xa78f2d552d16c4a7, 0x3016a47943488b02, 0xe2e428803d4e6a49, 0x1525c95ae08bd592],
    [0xcee7117ba1f0e77b, 0x2472da29771ebb98, 0xa6bad8aa9e4885a6, 0xb1011a90a452ee3],
    [0x6d3535833c5001bb, 0x7fffd1bc52580962, 0x2b4578e1efb6e1a7, 0x2fa5ca0f8d2c52fb],
    [0xb7127a205d3e876e, 0xfc5ae489bb9415cc, 0x9cf2ed25df7b81d, 0x1db0397e4ddd02c5],
    [0xb8d6d1efd755dbe0, 0x8e4c89797792262d, 0x3ece6fd7692ee96b, 0x27a3012fa6ee7c19],
    [0xe20729a5fc17f88c, 0x20e233fd2e0a67c4, 0x3e9a0d952f34b700, 0x274e23c2c09737],
    [0x486aec64c4078ab9, 0x6b5e7aef718b3b1, 0xfb664756df6ae695, 0xaef53482e7e1c25],
    [0x86b031cca2134d8c, 0xaa2250e63cdd3a3b, 0x41a3ba80edae9f25, 0x457365cb68df739],
    [0x5930fed1fc89ea20, 0x3988519d3bcf91b5, 0xd0640e919508176a, 0x1ca262a197b5402a],
    [0x6dbafbd803991c4c, 0x7e351d7dc790ee90, 0xdcf26ed81a1ecfd4, 0x2131c2ae4df6b479],
    [0xbc66564550036827, 0xbfc90e0bddf199cb, 0x2b1dafcb658fb94c, 0x162bf8864391b12a],
    [0xdb27cf4ac1e8ef2, 0x2eca4ba85734b404, 0xbbc313a2f1fbda04, 0xc7a2f06399f8766],
    [0x17706738314eead1, 0x71c697a583c34cf4, 0xcf702f8750b5bd1c, 0x2f9fa0e3320e9ac3],
    [0x6ad847d4430f3f27, 0x70944f929fc17821, 0x7079129d114bab11, 0x1aa4d470abeaa235],
    [0x249b7e61bdba19f4, 0xaff61cd1899b4754, 0x4e7cdc8700fac64, 0x9f9337267156135],
    [0x12621c7187bb787d, 0xf0098aac347c81fd, 0x1bf2e57426211644, 0xebcc03b0c123f47],
    [0xbac3b2d3e2257bc, 0xd7df029c52d38b34, 0x27d79f2e223c37b5, 0x246aed0e85ffca65],
    [0xefc4198c56e59c72, 0xf9135997f860f96b, 0xbf337edc63d27cfc, 0xeed1e00ab5b0ec],
    [0xbe54835d575c56fd, 0x841f727b9e9ce11c, 0x5ce955d325c1c08a, 0x4df1a4aa5599224],
    [0x3f8a33f70b227fde, 0x7786568aa06aa9d0, 0x23aaf34429844098, 0xd5e59bf9fe77550],
    [0xf9b924eee01dc332, 0x710d046f0bb51130, 0x667f7e48e1a360d4, 0x2ffe56ed078cbe07],
    [0x2a813540bfb99907, 0xfbd28dd4487a2bdf, 0xa4d4ff4f9fd7d768, 0xd13ed4075159b29],
    [0xbeed24bb7e6672a4, 0xa6ce79cfe3bc2a2e, 0x69801143d1e7fce3, 0x173512477cbd6d2a],
    [0x6290020877778329, 0x664e369782e296a5, 0xd8739e4e818cecfb, 0xcbd4277bd737219],
    [0xdc55ee805b81d3e0, 0xebd7fa434fb945fa, 0x6d4ae3e372417fc1, 0x14588264fd7d1fdd],
    [0x742ec5926c35e77c, 0x450614fc3231d5af, 0x22a1d399ad5433d5, 0x14acd0cc6605c0c7],
    [0x4ff25566d3a066a0, 0xe66504066f9095ed, 0x670d6e93819b69d7, 0x14320d8cb13dcc09],
    [0x7de3f370434b6578, 0x62144a1078154857, 0xa989e433fb7c4eba, 0x1b3e47537a897026],
    [0x6ad847d4430f3f27, 0x70944f929fc17821, 0x7079129d114bab11, 0x1aa4d470abeaa235],
    [0x8219760d1ae4ad0b, 0xe32b870fe671b11e, 0x9b6ac1de0e2c1bb2, 0x263d424c886417f],
    [0xa626787ea0b1089d, 0x9275624e964f6efb, 0xe37103adeeb116e0, 0x1545d2c32ddd1e1],
    [0x3ed93015c1de8a71, 0xff3e5765025efb64, 0xd2283b5bad5c4dc4, 0x287183d246f54265],
    [0xe4c62b8771a2ecee, 0xdcc204bf19b7f83b, 0xaa323f7622d1b9be, 0xbc24a36833b64cc],
    [0x4de3246cfbdbe164, 0x9dce7f61ad3483b5, 0xc80a378840269600, 0x2ac5f667d34cfc3c],
    [0x39301ba36c6ea4fb, 0x7ebd6bcb6f08df2d, 0xf96125e7daca220f, 0x269ec95973b00d3],
    [0x86bbb8613c2ee0ef, 0xce1b6c0c0b92cd7d, 0x96f126cddb042592, 0x1bda71d6e900e791],
    [0xed23a00e3268219e, 0xf7bcfb7f40b8d984, 0xe86b8301210f5ac, 0x2dd51fa2045a74f1],
    [0xb1aa3852aaa29db2, 0xc0c44b6facb8701f, 0xec5adfe7f6ee0ef, 0x81f8b7c05030b31],
    [0xe98902c5c862452f, 0x137f3c995e4b8080, 0x810ad410dee511e, 0x12cd7c92b7efc7b5],
    [0x2747dc0bc7dfefb9, 0x9f3fff5b65df7c78, 0xf2059fb4d66bd16b, 0x222b991677686866],
    [0xc4d7f73a837c0ae9, 0x65f3e8d085e398df, 0x982c7dd903d7b746, 0x171f3e3c2562f120],
    [0x73030c0f309c3c72, 0xe610254b420dbd48, 0x8b850f06f15341f6, 0x1b7b4bd3c56e1751],
    [0x7a70b5cf615c7147, 0xd7d1035773e84ea4, 0xd3073fbefa9034f5, 0x16c84ba6c4962352],
    [0x6ad847d4430f3f27, 0x70944f929fc17821, 0x7079129d114bab11, 0x1aa4d470abeaa235],
    [0xc43a5ad59c24f14c, 0xce64a8e8906f2dca, 0xef4caf7d19b815c0, 0x3928b7c1f5234a3],
    [0x69273784b997bb46, 0xe8931d1522f5b25c, 0x83734b672b33b630, 0x254ec8b72f52e44c],
    [0xd9f0ef7a5caf4339, 0xca44b06ce6551b90, 0x4baf294ce40d5b24, 0x17084c1eb0e0ce6e],
    [0x53f044338a77b27e, 0xd44400b9424e1729, 0xf9315266c48c653b, 0xc57ca90acee1624],
    [0x6fe6f85666b6a5a7, 0x751f0e69ed1ece42, 0xefecf2eefb8b6758, 0x5c7aa15848b5250],
    [0x7279d7a1448e20b6, 0xec10b0dbfaa86fb4, 0x1bc9491e0816d11a, 0x15ed7d3733abe5c0],
    [0xdb5d936fbdbdc5d5, 0x2874845769918754, 0x84102f6a8f1e9a65, 0x2fcca33e780707db],
    [0x33815b9a8077d315, 0x41e717a7895dc1e4, 0x56fbdb6448195ed4, 0x2d23b90c995b3b29],
    [0xefdc900bd5b1e2ee, 0x9e9f3860154ac2dd, 0x44ee28894bb422f2, 0x138d37c5ccdfefe0],
    [0x73e31a0f0e72ce6f, 0xbba51f40c6c4713d, 0x53298bdb8c8fa556, 0x801587f5637bdf2],
    [0x916f2fea18e5893d, 0xcce16e1f412ebcb0, 0xa24e43b5c314c2a1, 0x23cf40715c260876],
    [0xb931b402629c525c, 0xbbaeff9f12ba0376, 0xc87efc741114e39e, 0x2733d53df2ccff16],
    [0x71ffa75cf6eee4ad, 0xdb7241055d3c71b7, 0x22f077b1a43f877, 0x23e801d5f635e9af],
    [0xf9c91aa88ffcf890, 0x45692cb94337ecbf, 0x4af61d10a7bfe2b1, 0xd094fe93f2bf4cd],
    [0x6ad847d4430f3f27, 0x70944f929fc17821, 0x7079129d114bab11, 0x1aa4d470abeaa235],
    [0x9afda090405e4a56, 0x496e1d834c28765c, 0xde4c0c198171a60e, 0x93b40efe6c068bf],
    [0xca959450e5cad30a, 0x1a6b3d5c87980b91, 0xcae71061661c181c, 0x2305950150a0b9c2],
    [0xaa58f0676ed03aed, 0xb1428062ee8902a, 0xdef29bd72b72b8bf, 0x2107ba64be5e7797],
    [0x6fff74e5cb0198d9, 0x4a8f2dd9daf5f54f, 0x594ed5cb57d70342, 0xed4b91b00cb5bfa],
    [0xa98cdf3c985252d1, 0xf5191b58300db58a, 0xc6d07756e4e0359f, 0x2c7df01a6a701115],
    [0x25885674f2bd411, 0x9d5871924ba47ea7, 0xc609aaf56ce816de, 0x5d54d23f2d684e0],
    [0x1a8d7bed9388525, 0xceac63385cc5389d, 0xadc27d36acc9ecda, 0x248f367c66a05a93],
    [0xc7bfddb23d2b3cc9, 0x4317e40beb40d74a, 0x4b332dec7ed2ac82, 0xef717b148e28919],
    [0x7346f8013c3032b3, 0x7e76fb54f9214ac8, 0x24492729506cadb8, 0x1559abe59817b0a],
    [0x4ca03a4bcfade75, 0x8d28caa10de00369, 0x1c0b2da097013ed8, 0x3bd5cd6f008061a],
    [0x23cc61c08b619da8, 0xcda2d8feffe907ff, 0xefff7060142fe244, 0x2ba9dabbe0f9fdc8],
    [0xe5e09b1909050fbd, 0x2a2faeae1b6f12e1, 0x642f4f60a57ab250, 0x139f0add5443dfbe],
    [0x6e9bf827b7542463, 0x402ad180059473b7, 0x6864e3abadb5d8dd, 0x8965484ff559d1e],
    [0xf7486156b4f78e3c, 0x70098adc7e21b041, 0x2e733c6609f97739, 0x240c21fb9f6cf7f0],
    [0x6ad847d4430f3f27, 0x70944f929fc17821, 0x7079129d114bab11, 0x1aa4d470abeaa235],
    [0x2a861e7c858f2999, 0x99975b00aabef896, 0x4d368e9f471b79b4, 0x151923a505f13bee],
    [0x7ffc9188812c1e3c, 0x8eb41fd64f2878b4, 0x5b4288c722551c89, 0x20f6374e3f28e566],
    [0x7d4c9e5c60dff349, 0xf744153fcb405c3, 0x43cc88c28bf5c7bb, 0x1f26fe05c0ecf998],
    [0xd17744a0a9b7c7ab, 0x532ccbfc8645ba9b, 0x74e1e73cc53c3034, 0x101a3d68872e2a21],
    [0x94512c1dfdeb4226, 0x94aa717ea120efc9, 0xce96131b59584b07, 0x1015cbc312d356c0],
    [0x3c9abe98a35c3c77, 0x19f2210f4eb4838, 0xfe87166c26f5c041, 0x1a7b53d07ebf6963],
    [0x9cd0bb124bd30ed8, 0x60f621aa62a5336b, 0xe44da83d916b8709, 0x8fd8a0e2a1df82],
    [0xad3fef640e05c51, 0x679b5e240301f803, 0x5740bc8b1f684999, 0x2c43cee66409ac21],
    [0xa401cd15eb0ef330, 0x1c0748fe4bf06b44, 0x635b0182ea7d3ba4, 0x2c29dbf22349ffb1],
    [0xddce3599638a090c, 0x66f5addc9d360bc5, 0x3929ab0946246f73, 0x1c13b6b5651a6d7f],
    [0x701e716bf5a73f29, 0x9c7043a8f97df103, 0x5abfe7c468b01d23, 0x10171b916d8a1407],
    [0x4dfe0ce5c799ae5d, 0x46a3e0eac7c42fda, 0xa843ac9b37adcf1c, 0xc57c3d6c68c9d2d],
    [0x1a1ab3ddad098856, 0xf3329533b82ef4b0, 0x1e57c3c77bfa27d1, 0x131e361e5a8725d0],
    [0xa93f3cdd39012fa8, 0xa43853793f8f6d80, 0x1afbb2743c74f080, 0xfd9e076ff4f5dc7],
    [0x6ad847d4430f3f27, 0x70944f929fc17821, 0x7079129d114bab11, 0x1aa4d470abeaa235],
    [0x600d7fbbf3a99080, 0x16344307d15be028, 0x947c125da5f9f645, 0x1573d9a6d17cf8af],
    [0xc34cd1eb463da48a, 0xc8906c1bc19f98e0, 0x742f738822c21a26, 0x2b6645695f714c85],
    [0x6930d00cb9e1a404, 0xe81d45f6807728e6, 0xf86d0742b049eb76, 0x2fec770ae63e759a],
    [0xe98aeccb6f6144fc, 0xcb1898e5836543f8, 0x8dcb239e7e7f39dd, 0x24ed0296e066560c],
    [0xee56ca5ff46b9325, 0x9bef86884bbec6f8, 0xade091dbcf0c6cd, 0x1ace8484c0d96d05],
    [0xa8afef6dda4da73d, 0x7fd2647d90d6e5e5, 0x3e54c654f2fa35e4, 0x110a7faed51892c7],
    [0x1c34aa52af7d4fe4, 0x3b71196cb0d0c351, 0x33fa9992990af291, 0x1491aa7f36d89ac1],
    [0x5c1fab66c42f34b5, 0x37f34fdfe83a4106, 0x16498b4673c4596b, 0x20cb0c1cd1adeefa],
    [0x1b1a993f9441c830, 0x34c73e6b14deca4c, 0x6a3e2615134dbb51, 0x1ba292539d1568ec],
    [0x3d6a1b4f592a007d, 0xf28f466ef62a7a47, 0x48623d0de8c35924, 0x21bbe75d7c858ac9],
    [0xf09e77f69bd701f2, 0x24d7dbbf38d9dbec, 0x46892d8826bd0c2f, 0x1c96f9fb4c6bc33d],
    [0xfee34e82f10be2d5, 0x72ba2f107d6e2a25, 0xf8aac0987910bbc3, 0x12d33ecdd6482928],
    [0x77d1af9fa30baa6f, 0x9b6a944bf5781e3a, 0xcda328fd40b56c20, 0x2c1b610ce987acbf],
    [0x1b553b966cfea46e, 0xca03f4c8913fac37, 0xdc0cf83c4518721e, 0x2d77c3f420a31d59],
    [0x6ad847d4430f3f27, 0x70944f929fc17821, 0x7079129d114bab11, 0x1aa4d470abeaa235],
    [0x78d7355ed3048ced, 0xfebd9407a69ecb07, 0xd111f2be59f4ec3, 0x1e081cb9e91ff3eb],
    [0x937c554195da3c9d, 0x1a1d8545d15ca25f, 0xcca2a1157dd74cb0, 0x2e0888b957e0fcfe],
    [0x7a88cac39f773bbe, 0xbe0f9f9ead2a1965, 0x7659870346fb4aca, 0x14434487e62089ed],
    [0x722869ede760a9e1, 0x7f57aff1e589dc15, 0x59fb688b6e57522d, 0x9299821c0f470cc],
    [0x4e6987634279b9d2, 0x267acf7e335863a5, 0xd6bcaf3bf03f690e, 0x1f1ce2cba9b4c9aa],
    [0xa3445379d86fd826, 0xf8cd9cacd897ff15, 0xdfb6dfcd8adcdb5e, 0x199fab9479b7b342],
    [0x30fba7360479a6d6, 0xaa873ce7b7caa350, 0x4f02c3373fb37247, 0x2bcff4e8008af4e0],
    [0xb59a1a5ab4e305c2, 0xf6d82e97540c5607, 0x11cd831c00b9fbed, 0x3b2b37e288090ff],
    [0x177adf9d841d3d84, 0xc912a25d4638a1f6, 0x3d9a4fec82a68313, 0xd3c39eb880cde6],
    [0xef5abebd6d4c94b1, 0xb36ce2e2a677e5b, 0xb3e4060acab7e1b4, 0x121da38157e113a3],
    [0xe1f2465e93df234a, 0xadc7e01e86240033, 0x31311b26d560615f, 0x1a5923736c007cdd],
    [0x8d824c3228e97a0, 0x1f5d4aed3966c265, 0x1b5e61542ba122cf, 0x90f568d806c5c4b],
    [0x6170d9693c29cd01, 0x4c90390df012b7d9, 0x610ba3cecd0b4dc5, 0x20d2b7987c326a68],
    [0x59d28e76a0fbfe97, 0x627632cab08b2067, 0xdd9289680c5ad441, 0x3020b14b8e1529c],
    [0x6ad847d4430f3f27, 0x70944f929fc17821, 0x7079129d114bab11, 0x1aa4d470abeaa235],
    [0x8770771e2f012eee, 0x6a63cd2f7d44a0aa, 0x6d4502fe21ccce04, 0x1aed16276f89ca76],
    [0x9d8f24d6ca574c6, 0x8c97a32bbeb0c7c, 0x899eca4e7f4e40d0, 0x29a61b71b5a33237],
    [0x613f07ae1d092afc, 0x6988c86b054d6b, 0x4d16943cbbfc3ebf, 0x301dabbfd4bbca91],
    [0xb45b2bc67575f9f4, 0xfed7700c910039b2, 0xa3ae533107339b8d, 0x2a3c6d1263e470cc],
    [0x5d3d59e341aa36d2, 0x4e3244244cb0566f, 0xcb82ff5979886285, 0x20ff2a6b8212735c],
    [0x6c039eb9724b8252, 0xa9c3e423dc6f4109, 0x42e745287c98107c, 0x2e5dab75ff69d4a],
    [0xc42972aa34d6e4cd, 0x5f727bb6ec729c78, 0xe913653ebd84f51d, 0x2f0f8690c7cd4737],
    [0xf37fd192305c4c53, 0x6599f091f021131e, 0xa737eb77df7815a, 0x2be6c4a5efe483fe],
    [0xc78afd1c75d7d98b, 0xfa5d899e2fc7774a, 0x3460f437b9fed74f, 0x2f18439786b79df],
    [0x13de03f6cae91538, 0xa35049a36277c375, 0xbfc59d3fc6fba75d, 0x257eb2e8a7939be6],
    [0x1917cb6638608133, 0x2c3aa9b77110624, 0x15caaf500879659d, 0x12f8298c4a68070f],
    [0x198a108dcf02f539, 0x6af7014f5ee5ac6c, 0xbe727e87a2291fdd, 0x22aa263182f19c8a],
    [0xbf7d2a117106b111, 0x67ffd7d71962eba1, 0x8337507b88d0992, 0x14cee2715a061bc7],
    [0xec7b24d58eb7b1b4, 0xd8137de6dfa41f70, 0x565e9b4f7c43a91e, 0xbea09b03b5e03d2],
    [0x6ad847d4430f3f27, 0x70944f929fc17821, 0x7079129d114bab11, 0x1aa4d470abeaa235],
    [0x95228e951d1cd855, 0x6cc69e57b028464e, 0xf452ef7ef2b2022, 0x1c01114013e2d2cc],
    [0x1c84ad5e882cde60, 0xdd5d77f644c64b1b, 0x2684e96b656c4410, 0x25c7e0412d207206],
    [0xc37a7ae58c17d5e0, 0x4f849b8fb71c7ab4, 0x4c5fac79600e9190, 0x1231e9e375c85c42],
    [0x44a451b8e621d846, 0x13c67256036a719a, 0x243ae9c846b542b2, 0x7a0a63d6b544338],
    [0xd97a309b8daccfe, 0xd7a41e56ef5c85c1, 0x77263e188d30dd81, 0x2894d383becca5a4],
    [0xc642d577577066b3, 0x313c2ae6efe4d9ef, 0x99608d9839fb6263, 0x101c0e6bc868c92f],
    [0x3c98814c215582f1, 0x611e0aa742df49e0, 0xf319106ab571e734, 0x1d2a84f7475ba65b],
    [0x389d420902295e2b, 0x5e6f45df0092e1af, 0x57920d0a4ce230a3, 0x2d2913e61d8423d5],
    [0xce89f696e78023df, 0x1639ea6c61ffd2cf, 0x99668dfa81b2a57c, 0x1eed01941020a30],
    [0xf876850c4d008621, 0xa2f16368b56c0a09, 0xa06515c241b62db, 0x25417306ef421d8d],
    [0x3eb0124464fd5506, 0xe2f4585286e008d5, 0x7b0df37f4ab00cfe, 0xbd0953d64055220],
    [0x13022ec3c39d1875, 0x4b0173b369e96743, 0x99dbda7e3014c88b, 0x29beb31dd4af45a5],
    [0xbc4a8da67f912917, 0xa8e3b5435bcef6b7, 0x68275fbdfe54f068, 0x25305ba821d4ecca],
    [0xb98644e612208088, 0x2602d14f55488b1, 0x86c4e7fdbb6b96e3, 0x1bfec9a5d8a1c5ed],
    [0x6ad847d4430f3f27, 0x70944f929fc17821, 0x7079129d114bab11, 0x1aa4d470abeaa235],
    [0x46a52f99a278a07, 0x1005ad148e125c80, 0x2135c582fa22d1fa, 0x177f31701c5cd86c],
];

/// Part 2 of the sparse partial-round rows for width 8, as little-endian limbs.
pub const S_DATA_2: [[u64; 4]; 256] = [
    [0x860d2f167fc86299, 0x81e47527aad42c8b, 0x363a64737ed25eae, 0x84b44037ca846dc],
    [0x2a406dd86a607bcf, 0x45f28e6ce71253d9, 0xb4f26c99fe1a2cf6, 0x5db3b44bdbc42b1],
    [0xa7f4fb2fd33464bf, 0xfad4e28428239902, 0x44a12615ea82860f, 0x1878ea943321eb76],
    [0x983ccca6e6efb12d, 0xb51e84bcc672db75, 0x68bda5aef3424393, 0x124df4728f642709],
    [0x7c23256b09624fe3, 0xe838a0938bdc88ad, 0xb5a1140b178f9d57, 0x23650e1dad9d21e3],
    [0x50c3a2e3f254654b, 0xfd7dc3ac2db72df8, 0xa496eb42060c6150, 0x201a52e3c2b36532],
    [0x65df0b60121ede60, 0xea81d782d963856, 0xaf095848af175775, 0x1f4978ca0763083],
    [0xa251b58cd45867bc, 0xe9bd3cb67887bba7, 0x9590ef157c1907a3, 0xb98fdbb00789a5b],
    [0x12c40ce544d90504, 0xb11c09773623bdbc, 0x39bfb1f441586b3d, 0xa497dff0328c9b6],
    [0x855f0d4525775008, 0x9cbdf0992e71d929, 0xb09b6c6e86c6527f, 0xeb016dd39c878c0],
    [0xf7140d3148b782a1, 0xeea98c38db92d699, 0x30aedc7167097d26, 0x18efdc04259cca11],
    [0xf28439b6b7c98de2, 0x4fc6d1792a17be1a, 0x14662c6e1f6df9dc, 0x126f37ef258caacf],
    [0x517c1a3338cbbf9, 0x4e2777ee08049307, 0x6a57ee9e15ac29d6, 0x288928203b020d9e],
    [0x6ad847d4430f3f27, 0x70944f929fc17821, 0x7079129d114bab11, 0x1aa4d470abeaa235],
    [0x977d056cb07185dc, 0x7cd78b9a28ea959e, 0xcbfabf9cb73a506d, 0x296ea4e3760ee3d1],
    [0x19d38abb2e0877a3, 0x818dc1bc4daf2c21, 0x8cae7b350528046a, 0x9a7542033713ab9],
    [0x7e2c65c1e3c67d17, 0xb211757e4c2e013, 0xd2aef241b738bd3b, 0x3034706ae9245292],
    [0x8d7083ef975b4fd7, 0xca96f2d147148d6f, 0xaee1525e9c4887c1, 0x104ca211af2cb44b],
    [0x68fc28a4a3d595a6, 0x20ff01ab3bce0c07, 0x19ff50d4bdb5606c, 0x1b523f8867ec145c],
    [0x60b18d1b9b90496a, 0xdb33640e744336c, 0xd4f670c09dfaa07, 0xd5edeaf84c1e75e],
    [0x423e756fef6c962c, 0x9b168031ecc22aa7, 0x67ff8163af388ac9, 0x5124b407c8fb400],
    [0x3b72d542050c49dc, 0x6753a3e21362599c, 0xafce9507079a06f0, 0x8ca29ea50b36354],
    [0xaf83f83c3189c1e9, 0xf383a183e5033700, 0x4f6ab695c59f8f51, 0x4c3626ce2dbc4d6],
    [0x642b549609b37573, 0x4ad00c1b6e9988c5, 0xc24f16aeb7dec3f, 0x14bf66fe46f1f118],
    [0x6de739dfd5f75d16, 0xed2622c38d4044ea, 0xfeb90eeedba00121, 0x67b2bfe7bce2dfb],
    [0xa76dbd7ac989bd6d, 0x5393823f8d70c88e, 0x43ebf37346642779, 0x9287eb9fb34d9ff],
    [0xaf8828168850524b, 0x6c4fe1936aa0c7fb, 0x74aeafccd0714d96, 0x16ff59f0d679ae8e],
    [0xe53e7f7a880a8519, 0xf7cd14283103d3fd, 0x2d7ffe11130757bc, 0x2051d8ce6c5dcebc],
    [0x6ad847d4430f3f27, 0x70944f929fc17821, 0x7079129d114bab11, 0x1aa4d470abeaa235],
    [0x2c00f0451c942254, 0xb821cfa4c3e82375, 0x286da43406049bd1, 0x1d360ee3116f0744],
    [0x88feb8fd8cc62cac, 0xe3b036b0f0602daa, 0x5a0491a306aacf4, 0x1f6ccdc7743ba723],
    [0xec6ae88fa68d7a2f, 0x3880ca56ebd0d7ec, 0x7d0c68cd381d423f, 0xf8507197161fa26],
    [0x2da366fc84b7a14, 0x3872dca3db783bae, 0x5ac2d4f8c924b2bb, 0x18b4a57860ae5f6b],
    [0xb1821eb8a4ddeebc, 0x76b1a7e2347d61d9, 0xfdd93f1417a064cd, 0xaf716e6f1286cfd],
    [0xd89380b2147915e, 0x5c1933fe73cfe2a8, 0xd122ae1a8bae2747, 0x14f128af47080db5],
    [0x7205fb05697ce2f2, 0x5c9dfc4a74f7227c, 0xab80320e688f2af4, 0x1f2f97cd81cfeaf9],
    [0x64798de9b76cc57a, 0x7b13885850b9cbc, 0xa08e8fc311676365, 0x7a985fca61c3346],
    [0xdfcd531a70d0816b, 0x2ae8c7f7325a04bf, 0xbce1a4d8325d69f4, 0x280e7d98a95b9e3e],
    [0xc4abb5b1c743af5, 0x6f031bcc44ff6bff, 0x2c7b6a2e20d1fc3, 0x1cce1cb692b8c6c],
    [0x4ca18677858e5686, 0x9cb67077ec2beae8, 0xf917228507b40385, 0x2ac9fd902f4b6bc5],
    [0x9b262753831b970e, 0x53a63412612ce4e7, 0xe71597c63a62a82, 0x1b69cbf6f6bcec5],
    [0xa643430355113cac, 0x9d933ad0c6375f17, 0x6a0f8f019d64520c, 0x981ecb674c4f999],
    [0x90d4d3911db9a9eb, 0x22020035970dbf10, 0x46363826f8648777, 0x14faa8f8184c8aca],
    [0x6ad847d4430f3f27, 0x70944f929fc17821, 0x7079129d114bab11, 0x1aa4d470abeaa235],
    [0x9380180064116cf1, 0x799cf919d0e1483d, 0x2bd4def4b25eaf4d, 0x1a6906fda19b094b],
    [0xbf72330be04b179e, 0x5535cfbe94ca9096, 0x5d1107902b6c034b, 0x1ab6dc94517f1a23],
    [0xcb11808b82913038, 0x2f88d069e7e8eac7, 0x29b6c06a9308f867, 0x15669b5e4dcd66cf],
    [0x60941344fe5b63fc, 0x387664e6420fe200, 0x69fdb68ca8fbd57f, 0x132f02aebee7db7f],
    [0xd11c274d7e44fe1b, 0xb9d0e2e8008de5b3, 0x5b31226d34954f28, 0x46f52fecf6e77a9],
    [0x5cfa6f069fc7dcd6, 0xf9a0716c3f709cfe, 0xa8c1d58edf35d0a7, 0x2b69ede24d4e37f1],
    [0xd7003385ec5424b2, 0x62230d5b6c748aa4, 0xd287722ba1c50b90, 0xdc2cca8f0d3eff4],
    [0x3ab064b69388339, 0x933f30a8baf23602, 0x5cdbc9f23ef32bc2, 0xd1b03d009a6a029],
    [0xb1667c2b7bfc5d6, 0x1739c6d7278a5f3, 0xb6802d9a1b24efc5, 0x1a1972438cf29f99],
    [0xbc9d0f73fba44075, 0xbaf7b93fad6d7f7a, 0xe8ecfe9e084cb41c, 0x203dd92f30579361],
    [0xa8ecd1da42773380, 0xb382a1c7e90514be, 0xfa6d5dfa644e97a5, 0x9d6f86adffae5e4],
    [0x27ba003cee8f2b8e, 0xa9675a76d5fe0990, 0x34a16c73922e7c4d, 0x12d40572e1dbe473],
    [0xa778e63f6140550e, 0xb256c1657fe50430, 0x72653147d1e3d059, 0xc3c34e73158918b],
    [0xa47fc7ace24a8867, 0x957cd862e86f9fc6, 0x61acbcf3171f17ae, 0x6973060f725dfae],
    [0x6ad847d4430f3f27, 0x70944f929fc17821, 0x7079129d114bab11, 0x1aa4d470abeaa235],
    [0xf6dab81568264de1, 0xcc7aeaa8ca36c2ef, 0x3b48c2fe915756e7, 0x1b3a5512b1842889],
    [0x42165edaa5a6346e, 0x90f07e16b567bf96, 0x1c84c1ab36ca6869, 0x2ab9670c18ff8edc],
    [0xb18c26d34be30763, 0xa5fedbd706fe191b, 0xf5f4eb051f926e99, 0x10660d5082b8fcb7],
    [0xa1633fe3b59c94a7, 0x5c208a383c68330, 0xbc2722c0d82a0973, 0x1aecba1af9b70281],
    [0x2bba0f484dcc04d7, 0x3d20bc827cfbe2f2, 0xa6ef30749c86998c, 0xd23a06e79761902],
    [0x74ae0ad49fc62d9f, 0xb77da1c52fa648bd, 0xaa4772f808780b00, 0x282b6bffb062fbeb],
    [0xa060ee009ac74444, 0x8bcab816dc32797c, 0x1e738977abc4ce2d, 0x27d48b15b151378a],
    [0x60c50e053124376d, 0xf5cd61ab2ea64bcd, 0x7a82574887359fac, 0x2552efb9ecebe9e1],
    [0x317a4fb32d7f8ea7, 0xe4577e3911bd3262, 0xd226d0e1fcc5be4c, 0x2e505630db4463f1],
    [0x9d79e20db614ad7, 0xf6235c8631bad075, 0xd579400f62d8fa7, 0x1d85ef93d9f0524c],
    [0x73a6fe3a309c6248, 0xb7fb18554f342d69, 0x32c48e942d0cbec8, 0x24bac63bf16607fb],
    [0xf90c7fce3e4f39dc, 0x8e9c9bcedc4f1b28, 0x4456779033eeb193, 0x2403a33705855d9d],
    [0x9026b9fc9940db1b, 0x3ecbbfaefe6b5589, 0xa16e3c1184aacd4, 0xe661908904f5e53],
    [0x32aefa0a72e5c3a8, 0x235291bdfb213ed5, 0x64d86b979baab0bd, 0xee6336e66fcdb3a],
    [0x6ad847d4430f3f27, 0x70944f929fc17821, 0x7079129d114bab11, 0x1aa4d470abeaa235],
    [0xaadeb8f39b9c5af7, 0x694573b1343b8583, 0x66007421b547d69d, 0xbc63f41651e844c],
    [0xdf035efe08e921f0, 0x7eb824266a82bd02, 0xf71ef5f504e6a592, 0xe5cdb3465f12743],
    [0x647b2b127f6afd94, 0x956b4214c330d935, 0x304d15e7a69b2e64, 0x1a0af69734aab2e4],
    [0x225696a77e7c381d, 0xee3a796e32de5577, 0x7179c5c005ffe6c9, 0x2144915f6e6f829e],
    [0x4487b63bf0ba435, 0x3740897c6e6f1333, 0x6058c3366b6d91e3, 0x24b6274d2f945bda],
    [0x5420242cdf082baf, 0xc6ff4012098f9fe8, 0x1452b84a92594336, 0x10efc44751f6ba49],
    [0x510ed6c825055dea, 0x79d99acf6fbdc570, 0xd5d0dcf872394338, 0x36ebc6a6fcb98ee],
    [0x7107414f636a91cc, 0x5c4318c9b911949a, 0xb1a96ea700505bb4, 0x17a1b2378fea94d0],
    [0x9aee732db95666d6, 0x77c594f854131e6a, 0xe0fdcdd2821e4888, 0x2e455a7518e54ec2],
    [0x3ac4c0c399c9a8ae, 0x9102b50a3ca839c4, 0xb8e931b0db4904f2, 0x1e7397644ed4f4cb],
    [0x9a38d3fefb6d362f, 0xb084981300a49661, 0x9feb725316726c97, 0xdf88ef1f1a67a3],
    [0x1ab3b2c54acec8ad, 0xbb3792da2ef8b274, 0x29d801dd3a205359, 0x24e11fc9c4c77638],
    [0xc4193ae25ae82033, 0x5d27929e6e4a7d7b, 0xcc99d8ee4d0141a4, 0x4920b3e800f77d7],
    [0x993b0e277ab29f8e, 0x11908564c8603e01, 0x684217ef931c13cc, 0x20ab7b6abd43a88f],
    [0x6ad847d4430f3f27, 0x70944f929fc17821, 0x7079129d114bab11, 0x1aa4d470abeaa235],
    [0xd001b3f077ba68b0, 0x7fce0da404f36b2f, 0xb9154a734653e4ff, 0x10f8a59f8273eacd],
    [0x67de878470fb391f, 0x88fd656dff8d66f8, 0x7c21acdc3f96d390, 0x1652153e375ecd23],
    [0xefe9f3f6c61c13f4, 0x313e018d831f7ae5, 0x3b9c4a1427b09f9a, 0x12a4756111ec068e],
    [0xe3700ff51ed3cbf0, 0x666796ebaa31cc2c, 0x77e4790f89b8ea79, 0x11243b19f1132414],
    [0xa5aaf031b1c18c35, 0xfecfbefd1067f73b, 0xd74f097120654c82, 0x93d6ab40a9a4a3b],
    [0xcad0b08fd1dc4976, 0xb6d0bde3d12088be, 0xbdffbb8aba815752, 0x2f26911b23466c23],
    [0x49830f81ecc92bda, 0x5b28787fa643ec51, 0x32d93a1c3c33574c, 0x1a03dabe66a30378],
    [0x7ffaebc95bac4870, 0x2a9ff21a19c37c15, 0xba41fb918bb5ab60, 0x223b10c2c547e1a2],
    [0xdcf248631eec1088, 0x7aab4dfdd453f1d, 0xbb222aa3da4cc094, 0x1f271876f17d7cce],
    [0x59874c304dcc1090, 0xc9d122e128c3d11, 0x5100c3f187057e93, 0x1adb58add70e22de],
    [0x8d30ca821b368afc, 0x1d5d0c8bf049a2b4, 0x8183be5e462f0ec5, 0x27b3f7ea1e34373d],
    [0xc353a636ac6e0cc6, 0x101ae90bacc8a638, 0x5ff38e49fc34b58d, 0x1e5ab69a6f006ef],
    [0x3edf8e9fa8a2073f, 0x492189f38299783c, 0x7af18b8c43a41e86, 0x14ebbd0ad1f23e2c],
    [0x1964539bcf09295c, 0xcf3e02ac3b9e67a9, 0x2b74f7ad2ad5d0ac, 0x939c8f74cf31755],
    [0x6ad847d4430f3f27, 0x70944f929fc17821, 0x7079129d114bab11, 0x1aa4d470abeaa235],
    [0xdb37b6f15af7e36a, 0x97864a501041dcbc, 0xcd6090c3f525f6e2, 0x1a55cdf6625cb645],
    [0x3510e847a7741009, 0x5f2095286d6589ae, 0x7ffe217d4d478a31, 0x27af5f96cbc32f21],
    [0x292b78523bdcc7e8, 0x4bc8a6256c661f04, 0xb90a45345ccc5698, 0x2210a4f1e6607e23],
    [0x39c44166f4b175b4, 0xd15c7a9cda7cbd3e, 0x6d0ff2d35785d6e7, 0x21f9fb0fc7ea61cd],
    [0x879bdceeb059f94f, 0xeb0668b7bdd1fce1, 0xd07adfb6dd50467, 0x1ee5d14567c941c7],
    [0x3090da4d95f12c63, 0x30f27e87b89f0bf7, 0xc8a0afdebd65980, 0x246ed97e4eadebe5],
    [0x256eeabd5c8ee945, 0x838171bf0c89ac30, 0x4617e2d614733244, 0x16f44dd900dd9f27],
    [0x2d3c15c91b3d7d16, 0x5e20536983b16f63, 0x20518075c16745af, 0x1e45e42c3dcea63b],
    [0x722930cbb20112a1, 0x9f9f8b8905540fb7, 0xe8bb40058162e50f, 0x19fac5ce0028674c],
    [0x95848d073a8ed6a0, 0x2f8ee0b39d6c233c, 0x2ca3de8b876a4be6, 0x1190997dcdb0f577],
    [0x8f00e8af528530f3, 0x5fa6c789de3df7e6, 0x934ded2631719171, 0x96c7db7d0085737],
    [0xe6989afe7d1e4d19, 0xd7db81922ced098f, 0xc0c00ff71e4af2c1, 0x1c21d771cd0338f0],
    [0xec0b0cbab709c8b, 0x3ba747347d5ffc98, 0x625758dc35668efb, 0x2dd43d3c40b768f5],
    [0xcede89630d2f037a, 0xfff0361adf04c4f0, 0xbc5f81b89fb7b5b0, 0x1030059f96d75e04],
    [0x6ad847d4430f3f27, 0x70944f929fc17821, 0x7079129d114bab11, 0x1aa4d470abeaa235],
    [0xfd539d559f0900a9, 0xc0c965772665800c, 0x90fdd718927dafe4, 0x1635019295b65b01],
    [0xa6e987f45c01674a, 0xd7c12df2e51cc1e8, 0xec14cfc8f060ea84, 0x2c17c890b715b3bb],
    [0x58032fa2dfe7c7ed, 0x54fe4f8f86357aac, 0x33427a512377d30, 0xc8ffea42dd7b206],
    [0x7230f05ff4287c7f, 0x5ee4ca3eb08b90f2, 0xf2d98c8de77c302a, 0x12fa55dfd670309a],
    [0x3fd4334297d6efa9, 0xd2cced18677e4277, 0xae9d6da9b3981767, 0x9009662a5a28a89],
    [0xbe24fb5804e08206, 0x5176127f3556ddc, 0x731a54be0e06f8c0, 0x25caebb5501e77f1],
    [0x592de56d770028a9, 0x503f3fdb5db18299, 0x91acd92fd233f784, 0x195e006734786e5],
    [0xed40f616291bce26, 0xdfa3bb9b553bac96, 0xb44463042a0bfc3a, 0x47885b986f4d10a],
    [0xe8aaa6ede298d720, 0x21a0291fda6f32be, 0x5f9b17a20a1753b7, 0x930f3aa1c541039],
    [0xbedb5f00239f902a, 0x36a631ea11d56552, 0x8c3e7a41cf8027ad, 0x24af63803104e831],
    [0xe600ce008440aef5, 0x2150ba0f6031f004, 0x44f47fc73f02d7bb, 0x27c63e725d17d9a],
    [0xd42b0eacd9514dab, 0x2cf64fe9c8816d62, 0xb6f976c5bdce7091, 0x157270a74e4ecc8b],
    [0x67f6313835eef8b0, 0x775be99a1b38c27, 0x71e3ab7134fd89a4, 0x2190e7e822c0508c],
    [0x49d1a48f6a8db2a6, 0x1082ae9aa5807461, 0xa507c91ae18d2806, 0x234f3cd5e0cf731d],
    [0x6ad847d4430f3f27, 0x70944f929fc17821, 0x7079129d114bab11, 0x1aa4d470abeaa235],
    [0x8c85933874eee2f3, 0x462fb71bf094bd99, 0xe40c104a24d5cb9d, 0x1433fc6bf42a2541],
    [0xbe8e2d300e0cc652, 0x9b9f52bb8ce5c024, 0x65128083a39f5c75, 0x10a8445d83f3b7ec],
    [0xf03a39870fb4c909, 0x9764dceb488a8275, 0x11f9bcee025d7904, 0x1a1d8481d39a7729],
    [0xc40d110f63731a47, 0xbc680aaf49f02ee5, 0xa7429463b3fadaa3, 0x82dea281aa11435],
    [0xf3b6c5365ee9ba2d, 0xd0fef2dac3db4ff9, 0xd251e0fcf91cd0e8, 0x13556947fd0714ae],
    [0xd4df794d65f8cf47, 0x210dabebd3a254ec, 0x6bc170032d377edc, 0x29508794226e7cb0],
    [0xe9d1f8e74b73e702, 0xb22630ce719ac8a9, 0x247e48048a963709, 0x3cf4fecc54b529b],
    [0x12d4c7c4db5829a, 0xd04dc2f1e197fff0, 0x76a9cb43d51089ea, 0x16cc17305b3d3332],
    [0x98a719d8f01c560a, 0xe71d3e640baedd93, 0xe7824bd724f25e8f, 0xc36f031884453fc],
    [0xafcb9956ab09797, 0xfe55da84a294ca8d, 0x2e30ea1a24b64129, 0x50ff40107aafa9a],
    [0x1d6cdd52c7f81b9, 0xc55b1fdab6b247e8, 0xdafea66b723072e0, 0x28b18039884a6d69],
    [0xfdf30cf8b155d8e6, 0x651a801b3c6bb875, 0xb7b7534ef3cb0ad5, 0xbe18fb2749573c5],
    [0x94aee5b6de925b5f, 0x983172e58ce98d9a, 0x8a7da234e581898, 0x2ed3ba243fb561e3],
    [0xbbb6d21b2e26dc7c, 0x708374187faa61ac, 0xbdd9f65a6fa7711b, 0x248eb1ee129d515a],
    [0x6ad847d4430f3f27, 0x70944f929fc17821, 0x7079129d114bab11, 0x1aa4d470abeaa235],
    [0xb9330a20f9d5e553, 0x2ff31e66ea4f5e51, 0x9598c3bb5efc40e6, 0x89fb8b0837e0b7c],
    [0xca81215591dae7be, 0x3ad0d18e4de8dec2, 0x20016641f18bb8ef, 0x2c17324ec8d80ef2],
    [0xcbe6364c44bf1093, 0x27d643526045f4af, 0x507c0e956ab3208b, 0x23c089339439d665],
    [0xe34589f5cae382e4, 0xdffd7742b035c5d5, 0x4744d9be16c2fb05, 0x32af6e9b670edec],
    [0xad1efacd58774174, 0x818c4d6141651d1d, 0x6a20784e3bf61df1, 0x13cb85e74878132b],
    [0x2c27fe3acba78c1b, 0x7dff129340512ee9, 0xc5b9dbae586d6a9e, 0x2db07c1bff2eeec8],
    [0x641cc07813031830, 0x8d94c0b046c24fa5, 0x8247b6ee680b5d3f, 0x9829878aad19da1],
    [0x137ab4ecd16515e7, 0x3ba49a3fdf62eab4, 0xda0b569d961583ba, 0x1eb00d50e3b0c3ec],
    [0x16e6fa1469d3c881, 0xfe3476cab10bc767, 0xd36a5da4466d4ce8, 0x1c92d7b2ab89c954],
    [0xe6e705aa9c31c419, 0x808d2ea76cd61e0b, 0xa484f896baa95977, 0x29412e4f79957b5a],
    [0xa303aa2f380cfef2, 0x64ee2f72f84ca600, 0xcdc9aeda5a050d8, 0xba6668da5d5bde1],
    [0x4be4c400844a019a, 0x9cb3ed02301755f2, 0x54e6d9ab5519e538, 0xe3041c5fe0dabf9],
    [0x821e5b8cb88a8a9d, 0xa8608cc8eea186ab, 0x228986ff1910d988, 0x46f80bc5455aac3],
    [0x6cf624b888d7958e, 0x4c2b0f0a9b912d66, 0x3b2e909f79ef69e2, 0x886037252df484b],
    [0x6ad847d4430f3f27, 0x70944f929fc17821, 0x7079129d114bab11, 0x1aa4d470abeaa235],
    [0x2f70fed480beedbf, 0x93f14e107a68534c, 0x844fc08e4932c2a8, 0x1e5db2e40041ad9d],
    [0x25007c3aff574837, 0x1d76e29a88d35e2d, 0x864b86659e60292c, 0x2d0e5945cf1ff11b],
    [0xb08ee2cf948bf827, 0x46bade9533d07a22, 0x901b43f4dbeef957, 0x5eda1c9de06b29e],
    [0xa9457b4d475754a9, 0x88221b1236839a25, 0xe2c262d9b4ca9c8, 0x92156bc60919beb],
    [0x77457246bb5b0920, 0x3276e5e4094eba20, 0x2685c39833600f0, 0x20346a64ef274801],
    [0x6418273a5c4061d8, 0x45abbcfb22fec762, 0xae90b281bf84af16, 0x10807d847901c2b7],
    [0xdd6ec80d2d77c3cf, 0x927cd2331f07d9ea, 0xc33b9eed477176c2, 0x1a02e561e4e6c7e5],
    [0xb1b1deb62fd03bb7, 0x344622ae0d25c8b6, 0xfe437fff696c78cb, 0x1a20365486ae8bbf],
    [0x5e8e2ae4b5b60fb3, 0x8dafd92a95307757, 0xa2300d26f081cabc, 0x10f6bc198813943d],
    [0x5ad1cf0b7f57f556, 0x187cd71a706f3911, 0x980b3c529fab08e7, 0x1d7d5aaea8bfae19],
    [0x57f84a6db388b35c, 0x6c18265890d36f5b, 0x872a88240c1a9ac8, 0x1df1dd45ad494f1a],
    [0xad08cd791a72a786, 0x2ec09956d2a47125, 0x511c878720f8edbd, 0x1c29d88c5a7e44b8],
    [0x3beafb075d0472b4, 0x41351fcda1b830ff, 0xfbffcce84c652a3f, 0x2aee9b55a2f615b6],
    [0x279a59b0bcf1e66f, 0x176e28a5c887c004, 0xd39a3ab72580877c, 0x1c9ca1baa0f3d242],
    [0x6ad847d4430f3f27, 0x70944f929fc17821, 0x7079129d114bab11, 0x1aa4d470abeaa235],
    [0xa1b5fc68ed14ee06, 0xefc28d062f8914b, 0x5126b8e8be6b6b07, 0x1e2b6b0bf7b3b4ed],
    [0x6da7a29bbf24abd5, 0xb7cab19478446f5, 0x3e7da424366a73da, 0x2b00a882fcafe8d4],
    [0xdbe52af6495c4e9e, 0x56f1122903318eba, 0xb15cc4dcd6668cfa, 0x441070dc965c1ab],
    [0x303cd0f983997d57, 0x26387efbf0df6f0c, 0xcf301eb0241d2f17, 0x1804350e3abaa426],
    [0x5789c6b87d637b1f, 0xae94efc9f89286a5, 0x8a1b3ef80d833b3a, 0x1eafed7d64d1deab],
    [0x2d8b438e2ff7e631, 0x6e0666a92e8a6f73, 0xb3e1c1f653a150d9, 0xc08b894acdae0ab],
    [0x1cac88aa1d4d2d7b, 0x777aa1b4460c3af7, 0xd778bae7b26efbba, 0x2317408517ec88b],
    [0x85468785b5592d3b, 0x3a7957861eaefbb3, 0x6e83f6233c651c88, 0x17dccbe73f5a7b03],
    [0x17415ca4edcdec1f, 0x6515ed32fdf04762, 0xa736dbac21e4b442, 0xa9ad70b9945cdf],
    [0x8d03431b663ec316, 0xd6a00b49c9acf741, 0x13728b65b9e6da2d, 0x12b21302572045aa],
    [0xda650dca53c6d4b8, 0xf54657e3516a60a6, 0xdbe147fc3de191c, 0x2f73e6061be74d],
    [0x3b7e73d25d4f560e, 0x20896aa614d955fa, 0x3c0e6491744411e5, 0xb907e76289b2147],
    [0x70b7cef28c8b77b0, 0xaf362c8d7a650c9c, 0xf34d7a1d58577cd8, 0x23c6f78eb1f358e4],
    [0xf3172e8089f88a5c, 0x17562d32eeb1903f, 0xef4fff98a49f253a, 0x1fe537054dffac7],
    [0x6ad847d4430f3f27, 0x70944f929fc17821, 0x7079129d114bab11, 0x1aa4d470abeaa235],
    [0x7405f2bbb849e352, 0x76d5455a7944ece3, 0xcb54c2b2266ba657, 0x22420a556a4009ac],
    [0xc731f97064bd055, 0x3a6b973c58e22ff3, 0x75470f22eb1f2e2e, 0x1ad1968f9921575a],
    [0x5c835e96ece5930b, 0x5d2331e8a448c259, 0xe9dab4baad17bbd7, 0x2d709e99d4fc4d59],
    [0x80df460988e8570a, 0x7b4851df78ffcba1, 0x63cdff32342f223e, 0xe1df1d829c920e0],
    [0xdc2b304194ccb264, 0x84504bbb9f20fbe9, 0xb57a6137c331e3b2, 0x23c4fbbe1b0de3e8],
    [0x64c953080ad8a690, 0x22d2be7922c292a9, 0x278473d8a768598a, 0x2ecbb2ad59823898],
    [0xc61731884c4d4e30, 0x71bb522547bfbba6, 0x45d0f4ced407a985, 0x5dba95d04fff062],
    [0x3fbd2f7d9c943b01, 0x5315e1b406131263, 0xdb04e13f1702f4a1, 0x1b6b4761d189d1e2],
    [0x81c9b4a40d9bdc29, 0x85f0137f55e1e62c, 0x7cf05ca63ec2c5cb, 0x1ee6c5f07a003e7f],
    [0x17c17ff7686c97e0, 0x835d8add489da819, 0xa8a49c26cf583724, 0x802b4548da3f90e],
    [0xce5450c92ca79885, 0xf0edb9d65302732, 0x9e953808e58f14cd, 0x1a3089854e45defe],
    [0x98f05119b914b700, 0xd396173ce7c5abee, 0xf1db22b59f3a8e96, 0x2133779fb03912c1],
    [0x3723523e2d819b39, 0x7ccbcd1102fb8d06, 0x5c1ba4f96a47cba5, 0x18dcc23fdade276e],
    [0x404cf9655763e105, 0x217ea429b77a9ed2, 0x40f757cee7f0b459, 0x2a1b87020f3b9059],
    [0x6ad847d4430f3f27, 0x70944f929fc17821, 0x7079129d114bab11, 0x1aa4d470abeaa235],
    [0x893124a87046333f, 0xfb37d4e0ed1929fa, 0xd940aeb2c8608a75, 0x47bbdc4836a3ff],
    [0x53cdb99ec48fa13e, 0x7b2a13aafcdbd36d, 0x90f27fd40d4e1f55, 0x2fe188cebef3df80],
    [0xc79a15d2f879aaac, 0x4a4e7434646e84e7, 0x8b8bf7591ddfd0f5, 0x1eefea2f42ed57d1],
    [0xbbb7f4d0cf930aa2, 0x904d227e9a151549, 0x8ea089286a43d30c, 0x1394c009ab5cc43d],
    [0xb29c1c2e1e0ff837, 0x50b6dd46ff20d2a3, 0x819d00bec63da58d, 0x2a0bb922c5a36f42],
    [0xf91b85453deded4d, 0x9dc4d650ffce9638, 0x5788b4e38ea86c9c, 0x270b2526008fda51],
    [0x6a03e20fa31fddd7, 0x55432d5bd7f8a4f7, 0x79301d63ecde988d, 0x2ba1e2d2ebe659e7],
    [0xf21ffda4c0effad0, 0xc05f216917450813, 0xa1c287b8497ae10d, 0xf56832b7f06a8a3],
    [0x74d42d523098cfdc, 0xf9ecbf4dfa10c2c1, 0x1dbef8ddb09c9ccf, 0x1959a0963b974ace],
    [0xe71f9ec05ed55b69, 0xf5b99d630681b71c, 0xa78009e2d1192865, 0x148da04f0aeb03ce],
    [0xf2c9a96a855c41ac, 0xe210f9b93c4ead16, 0xf9f0f51faee0ae6b, 0x51a40af416f4fb5],
    [0x31c6cab5e60a3efe, 0xcca066629dc1d070, 0x48723af234150d1e, 0x20973f1fab9890ed],
    [0xecd3f024ec8152, 0x1f4d7554df5facd8, 0x7e501a4f035c1b43, 0x2a28a24ef1bdd75a],
    [0x6857882068333148, 0xb0997b436f85746c, 0xb3ff723b3f9ad35c, 0x1d2ee4e18fa1575f],
    [0x6ad847d4430f3f27, 0x70944f929fc17821, 0x7079129d114bab11, 0x1aa4d470abeaa235],
    [0xe131bc2396fda732, 0x1d8aa48404241177, 0x7199686aa4c0b096, 0x2629999fb5251419],
    [0xed366744ececdec0, 0xa92ba1658836fa3a, 0xb76652ea69f388f, 0x1f99369d70a63bad],
    [0x4c9947bce88e6edc, 0xc895f88540244a55, 0x455ce74338ebb425, 0x4511f41649be85e],
    [0x4a29051334ca110, 0xc49becdcfa3a2d0d, 0x76b9efe2ee1fed79, 0xb696f7536154628],
    [0xb0589c3ec90c9924, 0x611c3d78e8d50a2c, 0x2636de4679dcd965, 0x214f09b555784666],
    [0xf0c2e3b658c01301, 0x6ea6749b70450547, 0x3a3dbe0fbd68fabd, 0xbf5835b4c0bc4b1],
    [0x69cde004f4ded504, 0xeb2e67ca30fb0bf1, 0xae5ac574221d7f10, 0xc48c640e88a6442],
    [0x5589ddfc1ab5b8c, 0x13200bee09947120, 0x2a3efedbae26e5a, 0x1a5935756b57bfe],
    [0x7e0e9aa9919d9c02, 0x647b9636896a47a, 0x39b56cda79580aed, 0x386ba86a06566ae],
    [0x46c3f463e7baffe8, 0x28163ecb3c63165d, 0xe8685b204f07964e, 0xf00775e400bdc3],
    [0xf370e249a7b8ea5c, 0x76ed76347ddd4e07, 0xf7504cdbc01ec2a6, 0x1a662d8ba07d915c],
    [0x2d90293421750faa, 0x465d9d6af9ffb459, 0x71f99a4e8cbd2cfb, 0x1f06133283ad7931],
    [0xceefd0becb214fda, 0xda9bb328ee63d1da, 0x750d5280c440af49, 0xf83059507c852c9],
    [0xcb302a77ef0b3bd1, 0x4e647593caa1324e, 0x16134d6ab56daddb, 0x14d1ebfbc4c284f0],
    [0x6ad847d4430f3f27, 0x70944f929fc17821, 0x7079129d114bab11, 0x1aa4d470abeaa235],
    [0xdcbf97d68d05f3ec, 0x647658d2e79eacd5, 0x48df545abf1e79bf, 0x5d4c4270c1e9403],
    [0xec3d6722b04bc54e, 0xf1c60fbb7de07efe, 0xe21020dfc1106254, 0x275db6ddf370d2f7],
    [0x65ab3b6a87f96489, 0xc002b73efa630bd1, 0xf46b4548459c7e7, 0xd8e04364c5a23a6],
    [0xbaecec8cae0b2192, 0xc42481e448122fa5, 0x493bef67f162e464, 0x17f1de99ff5b961],
    [0xf52768799362e83d, 0x4a4819f547027b6b, 0xdad9f50db23d12f6, 0x23da50aaa25b76f0],
    [0x9c06e7440f354499, 0x4198129f06782916, 0xea037a4f5ea1583c, 0x6d4ab87edb0fa0],
    [0x44818947d16013aa, 0x761cddbefb4a90f1, 0xea173c61aeb541e0, 0x18ff576eac16541c],
    [0x474a0a14ba304f44, 0xa9fe50d7f8061acb, 0xf93fdd2f69a71093, 0x1408d644973d6502],
    [0x4d598c555e57b1e6, 0x470d45e3c16b1386, 0x4fd0b950e5bf4e90, 0x29e8f556928e0963],
    [0x8226dd50ed82542e, 0xae192c809c41f334, 0x2f3a8b5314017d7, 0x1637adc0e2bc5134],
    [0x40cbd7fede78a51a, 0xa260ceb59ba7633a, 0x6e0976953988a3d9, 0x73235d0a9e96cf8],
    [0x9ab7dddb9778b830, 0x42bd03422f134ab9, 0xf6596ba3cf35ec23, 0x6dd5e9ba875bfe6],
    [0x123498fbdf0f143d, 0xac753ec468a5df0c, 0x6a117563f067440, 0x18f491c6c3b12acd],
    [0xd1d6dd132f4cf0bc, 0xff8cda2b44ce74c5, 0xc2b91d311932c93c, 0x2d09fae126d15952],
    [0x6ad847d4430f3f27, 0x70944f929fc17821, 0x7079129d114bab11, 0x1aa4d470abeaa235],
    [0xd366a9b1adf620f0, 0x5b876af638133d32, 0xf7e574fb62093d41, 0x1022b57f4ec134a8],
    [0x5d306794cf1dcdf3, 0x3d812983965bc9b0, 0xc7720bb793a275d8, 0x14d51a25fd8d1dc5],
];

/// Part 3 of the sparse partial-round rows for width 8, as little-endian limbs.
pub const S_DATA_3: [[u64; 4]; 192] = [
    [0x3474177b3b9a1413, 0x173a544a0d8fac67, 0x9eed05f25f94a4f, 0x2c6a7b31575f3270],
    [0x2a0eaf127b25efb0, 0xe675056a2ea1e9b7, 0x827db71975d9c2c4, 0x304d2a4701c43333],
    [0x15b744115c627fb0, 0xcdcbd0ade84c3891, 0xc5946687a40a28a6, 0x11f7c6c76441a67b],
    [0xbd603f5378206804, 0x82a04537171ee1d2, 0x9fc35e6434ecfe91, 0x9a1baacd8b557f0],
    [0x6b75104efcbd3a1, 0x81eb60a7d272d314, 0xee36f7867701397, 0x8926a69b2d5a420],
    [0xd5f5131c567bf4d8, 0xe0875991a67d17ee, 0xfabf590e04c29c5, 0x21135de333725660],
    [0xf471884bfa160841, 0xef4e1afc9bd0abfe, 0xd66c899e0a801bbb, 0x14b248fabdbbed0f],
    [0x5e98529fd4b4b01, 0x83f10f379937f091, 0x9e09c5af815694ff, 0x86e20d28f53332b],
    [0x2b5673f78fefa4b7, 0x4325f5fd2d2e204f, 0x56e4465c44a9ff20, 0x1271f30b82cb7986],
    [0x86e1385b9c2cde80, 0x6a3c1492aa581270, 0xf3e85695e2692e38, 0x2224a8d0963f1ac4],
    [0x97c1893b0c81ffc3, 0xd5d238130522db3a, 0x790caa16ef2562ca, 0xfae50434b1bf26f],
    [0xf761e75275926052, 0xfbe155f5ad84a684, 0xecfa6300a4be6abe, 0x3f2a142e4084164],
    [0x6ad847d4430f3f27, 0x70944f929fc17821, 0x7079129d114bab11, 0x1aa4d470abeaa235],
    [0x89d9b93a95d187f4, 0xa108932a0e987d28, 0x5cf7c8f4fb81c174, 0x274d4d833700eebb],
    [0xd2116dd451598821, 0x12e0dfed0c2adc1e, 0xb77582a16c53947e, 0xe9bb8c9f9306791],
    [0x890fbb815af28f7b, 0x431923b338b6c0a3, 0x10603be0507dd975, 0x26a098e91130e0d],
    [0x56a75817579698a0, 0xba0f6a8036bc64d5, 0x62c1033b52ea7e67, 0x26d653ce08eff8f1],
    [0x78c52691a0ca83f9, 0xe9cf142129894227, 0xf6d9fb4db8656b7d, 0xa8ef549b90bbf3a],
    [0x4b90e4d15598676e, 0xda542d1cd5fd18bb, 0x59b5f434e7ae2808, 0xac39f4fce06a27f],
    [0x4e67deca646266ba, 0x851183aed39cb300, 0x9afe27b3b1bd589a, 0x204aed1de3b314f3],
    [0xf6ce1c65cc1c155c, 0x62ae5fdf18f69be4, 0x54f1759e9f3293b, 0x158cb2e73c4aec4c],
    [0x95861600b3ce6b53, 0x65796b9ca677735d, 0x1c14ad386c756ba4, 0x13040aca2fbe7c00],
    [0xd05289ce45fc673a, 0xe9320ac1e99672b9, 0x8295f6edd1c5c008, 0x2674a9a8dffb96d3],
    [0x72494d6343322a41, 0x519bb62985701f20, 0x47e3691b67a63266, 0x57be234d78a86ab],
    [0x7ebc973f77d9af77, 0xc562e4af62548e57, 0x81254753e8bf4bd4, 0x12bbfac6aed9fbbd],
    [0x10507f61bf55d915, 0x694b4d57339e351c, 0xaeb96deacd771b5b, 0x103b3e26bbc4767],
    [0xe5b17612c1abe8b9, 0xe3412b76230fc7f6, 0xa32a65b188e3f1c6, 0x5f918dc84cbd6a0],
    [0x6ad847d4430f3f27, 0x70944f929fc17821, 0x7079129d114bab11, 0x1aa4d470abeaa235],
    [0x6799ceacd28d6cf0, 0x9c869252509d605d, 0x38ee643098ef22b6, 0x28e6b736e2337dc4],
    [0x2ab616d4ddf70448, 0xb4c57d30fa68b416, 0xead5cf52058e2559, 0x17326264714761df],
    [0x554d2445f49cb614, 0xded965500a6548b, 0x600e3b27cb797f4b, 0x26d0b9ad617c87b],
    [0xa289537dd22a366e, 0x41f9479332bf95c4, 0x8d51ba2c25a4ed8b, 0x1a57505d738aff59],
    [0xa3ab5e30539764fb, 0xc26b8f2e7d393e29, 0xf245379c9b36c48, 0xbc9463f62daa20f],
    [0x9ffa06186bd62c96, 0x83a905bad2c5a5b2, 0xd1e90617e8be308d, 0xd2de2c5e221a927],
    [0x4cee7c465c016bef, 0x163017f92c68314e, 0xcdfc13513b404367, 0x2acfa6917c256cae],
    [0x69b1e7641f5703dd, 0xe14f43f36ed26b8a, 0x47785790d4cebb3e, 0x2300a55d94c34ecc],
    [0xeb2953449d3bc3db, 0xdb0b6f1908c53765, 0x3b5fc04a4f6463ba, 0x1b18386cd94edcc5],
    [0xb4908d3e0932b5ea, 0x82350e2926f76d76, 0x1f21ffaeb5194c58, 0x168523fcd8de4e5],
    [0x200c5a169d1ba5b8, 0xaad7b8b0375ebc53, 0x35eca0e25d7c73c4, 0x230836236981243f],
    [0x459ba562c39f74a4, 0x8cd2cd0a495e0ff1, 0x7e176ba4a0efa23a, 0x1644931eb3e15ac2],
    [0x681f6920ee153dae, 0x821387d63b40b643, 0x8694d1dc3e485f87, 0xbdba47f64810467],
    [0xfaff250466663729, 0x854286bd37ce1d10, 0xa4b4193c2da7abf8, 0x2934ee754f94b9cd],
    [0x6ad847d4430f3f27, 0x70944f929fc17821, 0x7079129d114bab11, 0x1aa4d470abeaa235],
    [0xa6427a9c1a3d7817, 0x8ac7765effc787fd, 0xd7bd64f77821bfb9, 0x15bca736827fe042],
    [0x99321753dc12b1f9, 0xef6a5bccaf04bc9f, 0x34b350e4b88a2a6, 0x1702aabda38575c6],
    [0xcf34bf7d41893078, 0x16fe351e779646f5, 0xe3b232540f8c9e5b, 0xfc69497af71268a],
    [0x723b241f676131ac, 0x30b7a6d907a6cc3f, 0x23f0069eef61d41d, 0x13cf63991c3ea2c4],
    [0x2f86e227a34cf2b9, 0x261728f9fbd3d91b, 0x2735c663b23ffd17, 0x821231634480340],
    [0x99e7c9b9e7f6802c, 0x56924c26b5467822, 0x452debe5dd11a2a7, 0x1d76ef5ad83cca5d],
    [0xca169da0f82c6c1b, 0xb4cb0d393e00545e, 0xbb7308094877f3ce, 0xff4763e1cbc755e],
    [0x466d218efe4346f2, 0x5abb69437e28975e, 0xa6745b0a56c5b291, 0x2ee17d2391f5e2ad],
    [0xe2964d81d7929c86, 0xdcbab662736555eb, 0x4d7686731a9a326, 0xcdfcd1cf5fb6f4],
    [0x1efed3be25eee2ba, 0xe89b324b94484e9f, 0xa0188cd8ccf7a174, 0xdfa35c85f23318f],
    [0x8858a8bdc3400b8b, 0x9d62951093438a94, 0x50f96adb46c8476a, 0x3020e7189aa03928],
    [0xb4030fa88768e536, 0x63b40e8724c46bef, 0x68e2b84d9da05e71, 0xf7d3dc3a1e33f5b],
    [0x96437a7559e4d954, 0xa7cfbfbcd001124d, 0xcb6ef3e862f53047, 0x2331b3e5f7f1277e],
    [0x52a23ec2c81ee321, 0x159af79d18716142, 0x2eba4a0f115f491e, 0x205334d2a003f29e],
    [0x6ad847d4430f3f27, 0x70944f929fc17821, 0x7079129d114bab11, 0x1aa4d470abeaa235],
    [0xc1e2b7fb13ebd8ce, 0x66bcff2ce9be97fa, 0x48b939b006669c18, 0x5c88b264202385a],
    [0xce942fb31c464584, 0xb0097cde47bbc0d8, 0xd0a009ac6a5ed48b, 0x34938d22d020660],
    [0xcc521e977cc4f80a, 0x4f76645b467df815, 0x86c635b0bc7132a0, 0x22162ccea7bdf2b7],
    [0xb90c217ed051b792, 0xa392dd5e57ce6870, 0xa21ff55cf455c2b3, 0x27b9ec9c27c0f868],
    [0x44fbeb30895d6b78, 0xbe8208fc2f1ffb9a, 0x2804d5be3dba2fd2, 0x1d40a01732b59bc7],
    [0x13347f90519098b2, 0x4c9edb73ff5d41c6, 0x2684ee4964e4f736, 0x25a3c16bb2963513],
    [0x9ff4cc52dd4f35ea, 0x534c98b8a20894d9, 0xb97cebaef9ae578d, 0x2264db5f2b0206e0],
    [0x3d04699c33de0097, 0xda7345e0f976fc68, 0x36cab54623833af8, 0x8599a766249f3c8],
    [0x895f70176c65966, 0x5c3cb8f1dc50dcac, 0x8af48d9d3eb4e65d, 0x23a4e769c41d56c9],
    [0x8dbe7c495054551a, 0x2466e86365ef6e67, 0xa57bd754b58b7fed, 0x6863319f9840fe8],
    [0xf6ac877625f3590d, 0x3a617798bbabda3d, 0x8a15c7830dac0074, 0x124f8b0efe11009c],
    [0x4084074e85cc4e32, 0x9d1378376e90b8a2, 0x832aab6df8b0849b, 0xc399275a8d3e83e],
    [0xfa1f7efa5cba57cd, 0x4286828355b63b3, 0x6f7c61ffb60b93c9, 0x119e48a1b4a77a3a],
    [0x8292f2bc7fd9a50b, 0x1cf1f7df9ddbb7f9, 0xd9dbf89f2482f989, 0x296e14fc6bee3bc2],
    [0x6ad847d4430f3f27, 0x70944f929fc17821, 0x7079129d114bab11, 0x1aa4d470abeaa235],
    [0xfa5ff5747f83b413, 0xde06fa2c04c7d990, 0x93040f735b754e16, 0x26a69af895a05a34],
    [0x545ea0d2ee58dfc0, 0x9c5472d921ef1db0, 0x4acccc26a34b6c0a, 0x9d38fd612102973],
    [0xed3796a595c5b6d9, 0x6d988c7dd50700b1, 0x8ae4a5b72f73cf03, 0x9258525c420c915],
    [0x55a91d3dec72d330, 0xc306bd32b46539a1, 0xacdaa8cb96df170c, 0x240b4844e1a39d4c],
    [0x5da35c13dd0f1c2b, 0x6ac5974200d94d16, 0x9d6485647f826785, 0x2f7bfd7808762931],
    [0xa2242d8587b98160, 0x968ed139a349805, 0x2fb7c6bc6c18a2a7, 0x10c3c9daa9b91752],
    [0x690064e8680ad2f, 0x20871e7305b361d3, 0x16aa5998930a085f, 0x42e830892fd09a0],
    [0x92c41c887b92eeb0, 0x4d6e99ba62c30eaf, 0x670f87a25910257b, 0x1bd229a43207a8eb],
    [0x17899e9f310ad8cc, 0xe7369036e50df52f, 0xa592512d691fc31f, 0x179259aee9804902],
    [0x597c910f1832f04a, 0xcb21907610f55d0d, 0xce0f56586a71ebf9, 0xc94864bca0ef906],
    [0xe4b84565ec6151f9, 0x68f761b4579bab75, 0xd8b6e4594ac9c662, 0x1b8129aa9b54fade],
    [0x566fb136a034e7fd, 0x62019d48b48bc11d, 0x56d913eee6f4dc83, 0x138fc45fe0e94d2f],
    [0x90dee3e5c7970350, 0xb6e688426842fe27, 0x8bd38cc6c2b7b21d, 0x11ddf7e5f957f434],
    [0x6e8ca6f41e2ce9eb, 0xc79081762f0c8999, 0x4443f8803f3144b1, 0x273e3a99347d8bb],
    [0x6ad847d4430f3f27, 0x70944f929fc17821, 0x7079129d114bab11, 0x1aa4d470abeaa235],
    [0xfcf0015f74a978d, 0x6b5738d60943450c, 0x709d5732b35b7a4a, 0x22e161940b597798],
    [0x7bf1dcc0c95b8269, 0x53486071d8676de5, 0xa19788755286e51, 0x2dc5270b47eb00ed],
    [0x5cfff7f94bd17d78, 0xc51ed832b3209ad0, 0xcd04227a1c7b3b5d, 0x1a70ccda609d7bfd],
    [0xce2ac2ca07e89b36, 0x8903f30427938ff2, 0xf04e8e12bdf4aed9, 0x1acb2e3c8872171c],
    [0x66caa70590d009f2, 0x959178f84bfcf24c, 0x185e741d6944b194, 0x2adaf126a0f5fb02],
    [0xcfa6a239e32a4a14, 0x86e71ade5e026544, 0x47cbcb56974d8a62, 0x1d3244fd2a96a3c5],
    [0x529438687ddc9748, 0x6c7c3b157929f1d3, 0xa931f562d4c26b2c, 0x1bd9988f3abf3347],
    [0x728c8bef6293db03, 0xe4afdd8082525f32, 0x283e92034c93e5a2, 0x1ab2d592b1c45380],
    [0xc9432344648093e5, 0xa6553f6819f07ccf, 0x207cd159cf795ced, 0x25cb1ebe5ef8d7fe],
    [0x1a982b1a502bd31f, 0xd7cb09cbdf4a7c8c, 0x2dd63569df081569, 0x30337709090c96eb],
    [0x2dac54a2d953d6db, 0x28f4a4565a03fa41, 0x1ac590b4af55a4cd, 0x26767fe5b44f802d],
    [0xe543ad10e2a6a880, 0x7509d75de3cffe05, 0x40839fb48dde53a3, 0x206a055992663ba1],
    [0xc51129be57d1c9e1, 0xafd3587d1759eb8d, 0x431869438f6f4f2e, 0x26f63a141092d97b],
    [0xbdd377435decdf02, 0x2391e7e4c0229354, 0xe85ceb47f6bb491b, 0x651190f970efd04],
    [0x6ad847d4430f3f27, 0x70944f929fc17821, 0x7079129d114bab11, 0x1aa4d470abeaa235],
    [0x628561f9057b714b, 0x5932712fbcf1d867, 0x68a60294430fa2cb, 0x16f9cc64f644433e],
    [0xc5490b62c94041d6, 0x496975cdf5a2c6a7, 0x663f987e6d26c91b, 0x271bd08af5ec9271],
    [0x2ca8530c01ef8f00, 0x84b5c306798067eb, 0x1d4e4e6479afc22e, 0x29f3ffb8c6f1425],
    [0x276fc50d598c4631, 0xc2d7c84caf1fceb7, 0x94cffd490b2255ee, 0x3011f9b6793cf8e5],
    [0x32c4996b255e8b1b, 0x20c9879d06b7c976, 0xbe205d464faf0f26, 0x1592b0301bc7a225],
    [0x9648e0a305870d8b, 0x750d9df8e6a12263, 0x44ffb4ed2981c633, 0x1a6cb5aa790973bd],
    [0x406e17ec42bdae3f, 0x1ab69f52bd8788b4, 0x3c57897743bbdade, 0x3006f88fc72833b8],
    [0x945579a03ffa1416, 0x44bdb1d4f77cd438, 0xd54512aed800e6c0, 0x2738654c515bfb4d],
    [0x64260a81d68eb977, 0xb7c9f9c44c5ff3ff, 0x5dcd5261f44260a3, 0xb321f51e6793cb2],
    [0xe6372b26d3b96f59, 0x948c1232cbba64f2, 0x6448203310aaf0f8, 0x1477b46d71b8684f],
    [0x76731044355d9086, 0x64876d189ead6fdc, 0x4c2c61c66edb6f29, 0x2e11978278f26a76],
    [0x32416d8911347f32, 0xf08750d97f0f378e, 0x6d70efde481c1222, 0xab2312a0dfec5f5],
    [0x774eec84412eae78, 0x29dfb9b499ca17c6, 0x98b09994d43c30ce, 0x293b455b67ef83fb],
    [0x21004d4fde342a5b, 0x29818e3de0bb667, 0x7a0299fba438ec55, 0x95b635c8679c275],
    [0x6ad847d4430f3f27, 0x70944f929fc17821, 0x7079129d114bab11, 0x1aa4d470abeaa235],
    [0x884102fbb8c1313b, 0x9d55690dddc6ab42, 0x9bdaf62fadc83c8e, 0x230291320aaf817c],
    [0xedde2d6103a0bcb9, 0x6b6fd0666f80cdc3, 0x7a9c98d8467c649a, 0xebf9d983145fe42],
    [0xcbc2b344f6adcca2, 0x2c45978ec121aba4, 0x9491b58cf5576a86, 0x1b8a2f071acf4564],
    [0x4241d6d4c6714cc4, 0x90974e8321736b07, 0xf3a2500829657e48, 0x24287f43b82f4a84],
    [0xbb2bac14d3d4c2f0, 0xf85eba85b778efae, 0xdfaad03fb46498d7, 0x2ce1f1627b642c8],
    [0xf5a821d813fc7ae6, 0xdb1e64f3621498be, 0x87751aab98180d05, 0x11ee152a99a5a0de],
    [0x9302b68c53dadb0c, 0x1774f96e57127710, 0x3ea7e48273122d6a, 0xce62d91eb616131],
    [0x46a4b68f6f889b91, 0xd40837dc60b43701, 0x8b23d501840bc4f3, 0x19824bcea6e4ccef],
    [0x6e63c88ab6eb4cef, 0x69d258aae7199a26, 0x8b4d0c37356f5752, 0x2d1fc70e199a7366],
    [0x61500bdfe47f5626, 0x99706c58f4237e4c, 0xe2cb30488e61521a, 0x321c2b5f8938df1],
    [0x78a98aabc3f7989d, 0x4a9d147154745f26, 0x5e1dff140172e0a8, 0xd7da06b4dec9fc],
    [0xf6ac043d8aa82f40, 0xee2308f759ebd889, 0x4ee517c8b667c9a0, 0x2fc41f67cd32d7ec],
    [0x2b12795249bd8102, 0x340a987b1e66ac21, 0xde1a9739d36114c9, 0x1fbd55b07a5725b3],
    [0x300e0b781d2da062, 0xa3a2987bcbdcfa1d, 0x2f848f0a2b7a8916, 0xae9b9d9f2101c97],
    [0x6ad847d4430f3f27, 0x70944f929fc17821, 0x7079129d114bab11, 0x1aa4d470abeaa235],
    [0xaba4702d30f3105e, 0x8f6d298cac167d2a, 0xb89fee8492cb760e, 0x19f45db7aec76df1],
    [0xbbbfd8b2e19c155, 0x74bb93b654bb4f69, 0xdf813790a7b02b57, 0xeb3de3aa60a1e43],
    [0xe142ee9365742ff8, 0xe440b9c5227fdc84, 0x53fa65bc43d1593b, 0xb506abb65dbe555],
    [0xca2cd06bb6f9d899, 0xbcf61a681ab3f3b6, 0x4e0cb35d12315bb0, 0x1725cf40cdabdda2],
    [0x8ced0c2e5a2844fb, 0x9471e4c4f2dbeef5, 0xc6597c7ada062481, 0x5b2e0df1727482f],
    [0xd7b8c984feffa7f6, 0x74b2e7622abb74, 0xfcfaee971ca9155f, 0x2cb17d3d8a51790e],
    [0x4bfadb6cf9678388, 0xb53643eabf6abf3f, 0x7d7f00009f1e7881, 0x57cbe9626c16bb6],
    [0x1cdf753e2277257d, 0xbcfb394070967a23, 0x9375d954c5df8ba5, 0x1d5a175df6dcdaa],
    [0x772f32e02a0fcf29, 0x6675c8946f077957, 0xd2f943123064cf0d, 0x27453d445a464bed],
    [0xfc1dcbb840bbb466, 0xa060efe9e6bffe14, 0xd932d2d6fb694914, 0xf2e2a7f140c38c5],
    [0x629114fb05024f77, 0x1efbd0aaf894599c, 0x17cc08ef209175ce, 0x240f3c285bc1a1c7],
    [0x8ee5a370aa497b55, 0xda10ffb07a974bae, 0x9152ec653c5f2d0e, 0x2dc62be8336218eb],
    [0x68fa952806a6e72c, 0xe26fe1f5f4cd27fe, 0x7a39faa19a9e88cb, 0x1544549442e75580],
    [0xbceb61f6fcc99696, 0x2acbcd275b22c135, 0x105c2eeccd768ee3, 0x26d85311e5bb436e],
    [0x6ad847d4430f3f27, 0x70944f929fc17821, 0x7079129d114bab11, 0x1aa4d470abeaa235],
    [0xdc73de8bc7e5309a, 0x55060c21de622962, 0x9a0dc797193cfda8, 0x2d5c06ffb3d2b7cf],
    [0x70e2a947e8df89bd, 0x75df11a72de8b350, 0xce00dc87253ce164, 0x1142dc3dd8bcfcff],
    [0xc1a474ec6dd4ad2f, 0x4f9d5956a61fa690, 0x99404ef52f84656, 0x1ef9d5eb72934c51],
    [0xeece15ff9ba2a595, 0x5e91371ee3101e6e, 0x170a281b3f9c0dab, 0x1f875fbc8a4be018],
    [0x58910bb97226db31, 0x22e73f89b049f485, 0x958d0549f098eccc, 0xc7ea4455b4e9ea7],
    [0x644041366c0c57b8, 0x16aeb1ddcaeb2c45, 0xfc0c5280da9bbc2d, 0x1781c95b5bb00b],
    [0x600919ebb3bc638e, 0x3e043c402b34fe44, 0xddb0baa2b45ea78c, 0x7d46f4970f0af1b],
    [0x9e0d1dc00c70e6c4, 0x15e4eaf6e4853367, 0xd3d847315766069b, 0xb97d904e55808e8],
    [0xbf8e1c012883313a, 0xa7a0577a06a1b3ee, 0x815e1867b2351bc8, 0xa424cfc9ac1630f],
    [0x60086e0e83c2e4c8, 0x88e46839e484ed21, 0x9106a7610e3e611f, 0xab4976c40bbc9fe],
    [0x6533ce3fb568a339, 0x6a9cbc73ab2e3eca, 0xc5c687ad7653730c, 0x2bd44e217b9b1bd7],
    [0xfb3a653643334ed0, 0x5653c3ca6050fd8e, 0xbc5fefea2258df3f, 0xcce891fce830619],
    [0x4b89ed3be765ab46, 0x6ead236c9fe14dad, 0x5a505392122069f4, 0x6cc269de739b7f7],
    [0xb1ddaeb207d81805, 0x9161070d56b7f488, 0xe48ebcd989cdb6e7, 0x2ce5dad6f8c706a1],
    [0x6ad847d4430f3f27, 0x70944f929fc17821, 0x7079129d114bab11, 0x1aa4d470abeaa235],
    [0x5a92452cb2216d10, 0x38bd14587f6e342c, 0xdea5c3c891925f96, 0x2e77cf5ab513e1ba],
    [0xa040294c78d05bf7, 0xfd2a13a51992e227, 0xdc221cd21cf450cc, 0x1f0a2a3c8f119ff5],
    [0x9f8216a7de28c19c, 0x19f6e333f1227373, 0xd740ddce0e6f0fb8, 0x8af508a7bea4393],
    [0x6b5ee6b4786d3bad, 0xa6a58fa87ab21faf, 0x228ddc5a3bd90a11, 0xb7b0b5adc8e5b80],
    [0xec9f892429df3f63, 0x8897ec38e8f79e3d, 0x23e12c70c5d903c0, 0x29b2720d570c648e],
    [0x5e702aeb81a3e8fc, 0x616413a966172a36, 0x4981ea2e38e06976, 0x2b5d0114e15e9a52],
    [0xecc36db9fcaf954d, 0x9ed0b2431f111836, 0xd501c43a1cc6aaff, 0x2f04e33808a800e],
    [0x3417fdff2b73f0ec, 0x857e12bbef918870, 0xddf31e02c2e3c59b, 0x75afde514ea96d4],
    [0x1bd1684db4353e99, 0xe9a2ac3b7eb618a, 0xa8241c957ef737cb, 0x294c6a950fcf5693],
    [0x446d13995ebc2702, 0x1018031c835f4bd9, 0xfb03ee623cff2232, 0x2b5cfd45d895ab09],
    [0xe0ead42df94bc3d9, 0xc8c18e6678c52f82, 0x5267a49248134fed, 0xc9cc48c4d979b1d],
    [0xdf4f431790b7fe73, 0x7ed92223988de2a, 0x489ee59b36258e7f, 0x1ab81cab0d091253],
    [0x677fa3adb5c4b3de, 0x7f6b02fe5125fc06, 0x39e52d3944cf6ecd, 0x2586cbe245b6f98d],
    [0x29dbac8729a4fe01, 0xb2ee4e53a57be012, 0x3d06de3fa376edf5, 0x13b2352a38dbffaf],
    [0x6ad847d4430f3f27, 0x70944f929fc17821, 0x7079129d114bab11, 0x1aa4d470abeaa235],
    [0x13f0992d563fb344, 0x54c8c56539d25d38, 0x4282a1028b33bbda, 0x3d877056291c419],
    [0xa2c0266090f86b75, 0xf3ab275831a1b7ff, 0xf3895bd0af9998a7, 0x708818327e42247],
    [0xd2a8dac7d4b1b819, 0xf0ba0e6649447d6f, 0xdf7a0dd36de0e83b, 0x2f6df4925de2c8ee],
    [0xc75ee7a710ffcd77, 0x9e6ce70f9815f74e, 0x2fc1e56de942f8e5, 0x1333c9e0db6849dd],
    [0x26b5387aa499d864, 0x78cd0d31c641aa35, 0xa20e40cba62920df, 0x12abc89e5164e8c1],
    [0x78457cb08e1c4983, 0x9625c11d0fce8632, 0x18c3ce234a56cf8d, 0xb976c6394d0a9ff],
    [0xb59e922a135d7e61, 0xca332e1af2efa758, 0x9358196bcfb46348, 0x268b0a4cff7f6711],
    [0xc148e73cdbad3718, 0x6b35952d56c62678, 0x4dd8211df41fe551, 0x254b8126f45243f1],
    [0x8a1934be68792369, 0x2fb70ffab31d8a4d, 0xfe093660f492cdbc, 0x270712f18b1518fa],
    [0xc85cf30d50df584b, 0x4e6fe75598ee964f, 0xec4ab9001727d32d, 0x2bfc3981a249aeaa],
    [0x3101485f65ab723d, 0x78d582ea05001484, 0x1ceab20464572b3d, 0x16060a17e1b11f85],
    [0xbc1c726f83177770, 0x2a0b16ac1cb43646, 0xe4c6c166cd9ef1fd, 0xe73217a106c402],
    [0x637ea1434c8545ec, 0x7ab676f740b02331, 0xa08f2351a03545bd, 0x4b959ca07e7182c],
    [0xf3bc9ec674a8aacc, 0xcc38f314071e50e0, 0x5cf7476010225e14, 0xfc9cc95222f9271],
];

/// The values of the sparse partial-round rows for width 8.
#[verifier::opaque]
pub open spec fn s_vals() -> Seq<nat> {
    limb_vals(S_DATA_0@) + limb_vals(S_DATA_1@) + limb_vals(S_DATA_2@) + limb_vals(S_DATA_3@)
}

/// The sparse partial-round rows for width 8.
pub(crate) fn s_table() -> (v: Vec<Uint256>)
    ensures
        v@.len() == 960,
        vals(v@) == s_vals(),
{
    let mut v = from_limbs(&S_DATA_0);
    let mut part1 = from_limbs(&S_DATA_1);
    let ghost pre1 = v@;
    let ghost add1 = part1@;
    v.append(&mut part1);
    proof {
        lemma_vals_concat(pre1, add1);
    }
    let mut part2 = from_limbs(&S_DATA_2);
    let ghost pre2 = v@;
    let ghost add2 = part2@;
    v.append(&mut part2);
    proof {
        lemma_vals_concat(pre2, add2);
    }
    let mut part3 = from_limbs(&S_DATA_3);
    let ghost pre3 = v@;
    let ghost add3 = part3@;
    v.append(&mut part3);
    proof {
        lemma_vals_concat(pre3, add3);
    }
    proof {
        reveal(s_vals);
        assert(vals(v@) == s_vals());
    }
    v
}

/// Part 0 of the dense MDS matrix for width 8, as little-endian limbs.
pub const M_DATA_0: [[u64; 4]; 64] = [
    [0x6ad847d4430f3f27, 0x70944f929fc17821, 0x7079129d114bab11, 0x1aa4d470abeaa235],
    [0x4feca30879adc644, 0xbe61d7d3db1d975, 0x8ee3deaf48b49361, 0xe1f4e4d26e9da5f],
    [0x746729964ef75f34, 0x385aafd8ea41d9, 0x226c5a549e591849, 0xc298c14356a5a7f],
    [0xb8f1afe1c5045ea1, 0x5e528b676706882e, 0xe1622ca20d13b237, 0x19e070982d3ee675],
    [0xa19d17b7beea9295, 0x5a20a72e69e10863, 0xee570a650125eda7, 0x333e2923992e89d],
    [0xf41f652990be0139, 0x510d5f07439a1b6f, 0xec04361238c3c4d9, 0x1944aac72bf6fbcd],
    [0x19661675736359f3, 0x96a7306058904013, 0x4892ad167d9e835, 0x27d802ad019a42fd],
    [0xb273471eb9623e73, 0xa2c527a970ad2815, 0x6bc01f67242d54b7, 0x2bd05a040a0987ac],
    [0xc148e73cdbad3718, 0x6b35952d56c62678, 0x4dd8211df41fe551, 0x254b8126f45243f1],
    [0x13b2a216491d474a, 0xe294c9e33000e5, 0xa202edfbc8237631, 0x2089c597feaa4ca9],
    [0xf88786fefe0e5cc3, 0x90c253c0f7f99ece, 0x9c9bea6344dda8db, 0xddeaa906cb65f3e],
    [0x396ce83d8ee9916f, 0xf3b75ab183209235, 0x93d999d4dd45dbd4, 0x1114c91204427504],
    [0x55fa1534ef70783f, 0xee467863f6efcb3, 0xde8dfd49b4b347f0, 0x2e8b35a8c29e639d],
    [0x20d0a4f9bbfe8512, 0x7f8859ee20aad083, 0x518425f53db1298a, 0x20e6cc613ae6cb0a],
    [0xdaa9df3f3d43d3e6, 0x5f137b9cc320d5d5, 0xc176a752d15906b5, 0x2420dd1281fc0dfa],
    [0x97bb0099191723a3, 0x1c1869428c13b1e3, 0x925af9a2f2929e23, 0x17bd4f2726748d99],
    [0x8a1934be68792369, 0x2fb70ffab31d8a4d, 0xfe093660f492cdbc, 0x270712f18b1518fa],
    [0xd3e8801099bb97d0, 0x5b2bbf272ca635d8, 0xa668396526ed9f67, 0x107cfefa1e864045],
    [0x8fc98ef708230b57, 0x4a630d29dff28b62, 0x15929b8784b6bba6, 0x4b96a296a35acf4],
    [0x2de46955b83e7bd9, 0x12a2d062c34dbef9, 0x805d705be6b3ea99, 0x1f0465a9c133a1c6],
    [0x23eaad91f2229a13, 0x71ab7af0801f1bdd, 0xb90105c0f8e20f05, 0x27a2b7f5549e5eed],
    [0xdbcafce94b14d073, 0x48591cc67905d651, 0x41f882178f7dcdad, 0x31b0afb7ab2f1d2],
    [0x395089ac197af744, 0xe3bf10e84dfc71fe, 0xbc74a0b3dedea6e1, 0x22e0323bbbdace5f],
    [0x5bef9900c54e745a, 0x44e33a2d5bfb82f0, 0xae67c63324e47a63, 0x1eef36d62f3f864e],
    [0xc85cf30d50df584b, 0x4e6fe75598ee964f, 0xec4ab9001727d32d, 0x2bfc3981a249aeaa],
    [0x44ea31b27cde49fb, 0x67dbee99a63c5285, 0x19f73cc617b9f8b2, 0x21630ec3f236ed2],
    [0x52358b0d7d104c16, 0x4c053c97930fbb6c, 0xede5ed0090ed6949, 0x28890a03199b727f],
    [0x6fa308dac75fb582, 0x4970455a1beaed7a, 0x466b8e9b25765a01, 0x1b80f3f439396c2f],
    [0xfe9c518c261a1b0a, 0xff297b8f1d1d9098, 0x9701537f751410e4, 0x2a4bbad245a33e5d],
    [0x39617f4b017c6d16, 0xc352c2a215a870d7, 0xf8cbb5d307bf5131, 0x1e431f2b1b7edae4],
    [0x6ec601d4d0b22689, 0xfde1e3a666b35d8e, 0x59f74a8fdf2efce7, 0x255639889a259ebe],
    [0xf13b4ead0eb056a8, 0x295829fc59bf2a89, 0x323f174be2dcbe0c, 0x2d0d8a814cfa16c2],
    [0x3101485f65ab723d, 0x78d582ea05001484, 0x1ceab20464572b3d, 0x16060a17e1b11f85],
    [0x8af74cbee16d71bf, 0x9c961cc1e9659a45, 0x639ea713b2034611, 0x2741203d66c523c7],
    [0x6bdd2938c12d9a23, 0x168fe62ec0497afc, 0xf58314590bcbea16, 0x2208c5004806c7aa],
    [0xb07bdd194ff349fd, 0xb9d3eb4cee366674, 0x5eef9cdfed193250, 0x1c01f6db435dc488],
    [0x306f6bb36d21e548, 0xa0b3186916a08cfa, 0x388e74966d9ee7d1, 0x1f0e36c2cf9ac2c4],
    [0xd8141333934e178f, 0xb3b918e5b3e07c2c, 0x9ec2ede6cf3345dc, 0x199fc2be60e49e67],
    [0xfbdbdfa3628e678f, 0x9bd971a25a656bae, 0x92999c1797b1af90, 0xa38d163b8a2fa30],
    [0x400aba1aaa9ed51f, 0xd5b509c2b670afce, 0x9c3d699e3fe57da3, 0x198949eef2b27c2b],
    [0xbc1c726f83177770, 0x2a0b16ac1cb43646, 0xe4c6c166cd9ef1fd, 0xe73217a106c402],
    [0x217129082e2b2b20, 0x12bd4c01559fff83, 0xb654c6de21a1a8d8, 0x17b2092b0f634576],
    [0x6202736d97b2eb69, 0x2c42d8bf904fb65, 0xda55fae29ec6f199, 0x2f24d609cb23720e],
    [0x8763e7024ea4189c, 0xe582a80b656af5c5, 0x5773fa961c8d4117, 0x2df183fe2bc9b8b7],
    [0x703e9881eda118d1, 0xdb82e63528afa4d4, 0x78c10a894e118018, 0x15fe963f5bd0d928],
    [0x44eee82a31ce77ff, 0x126ad72a7af0fff3, 0x9701fbd3d8995f73, 0xaf594dc4030e850],
    [0x8d4e4ee379960ce7, 0x7a436438603af1b2, 0xf3a4ec307ad907de, 0xb8e857d9fb1d554],
    [0x89696cb76ee06297, 0x19d9e0e08241e217, 0x3a28155fcdaf7b35, 0x7ebcd25a10e5669],
    [0x637ea1434c8545ec, 0x7ab676f740b02331, 0xa08f2351a03545bd, 0x4b959ca07e7182c],
    [0x6effa3fd6bd47b3c, 0x80d3ba15bbfdd122, 0xa9d7c567f66419a5, 0x68e8e63411df2b3],
    [0x50754ab4b836afd3, 0xae5d2ab3d1c1a181, 0x664a7b9266b19d48, 0x344d0c772c2f053],
    [0xcea8eab817c6b84b, 0x8f4c51293927562a, 0xbdb619bfaecc7a9a, 0x7e0cca1a35ed15f],
    [0x50748dd739749df6, 0xe8e6d6fad341d7ff, 0xf503983189201d4e, 0x222edf3e26bf74b2],
    [0x548d49e55055a601, 0xd23cd12f844f72f7, 0xb653d36818181209, 0x2d4308b4823b465d],
    [0x7c83c15cf73cae3c, 0x5afd7300a4c37098, 0xe9e1197b35bedf5, 0x2e8e67fc85f9b4d0],
    [0xd45c552477f53e61, 0x4cc262318e17ad21, 0x128ce5ee5b818496, 0x22f1bc4ec138b596],
    [0xf3bc9ec674a8aacc, 0xcc38f314071e50e0, 0x5cf7476010225e14, 0xfc9cc95222f9271],
    [0xa45ae9cf8570fed2, 0x82c68dcf1e209167, 0x6c94878a8106d57e, 0x2f5a2a0cd0cb2489],
    [0x48d6bd1970a0c8e, 0x8935da19cfc563e7, 0x9e52cc9fc1a038c0, 0x2cd19b5c55bab180],
    [0x1547c1f6a8f5cedd, 0xa5ea7bddbc127d43, 0xe61e8f5ca0ef17c5, 0x24ff2986781fe40a],
    [0x1008913d98a27114, 0x6ace00963d987f2a, 0x419840e5e5a92d27, 0x12a87d0c5419f448],
    [0xa030ef595061ec6c, 0x833d642f46c6493c, 0x1b9406d5d9b2fc58, 0xaf3ceff2c865a90],
    [0xa0b0fdfd5b190aa7, 0x79f097aaecce55bb, 0x8c3aff2f47ffc1e1, 0x27f42d86842f4d8a],
    [0x92a984943241f1d0, 0x1216ab3b639945dd, 0x57831e4a2187013f, 0x2b6b3bc340d4119e],
];

/// The values of the dense MDS matrix for width 8.
#[verifier::opaque]
pub open spec fn m_vals() -> Seq<nat> {
    limb_vals(M_DATA_0@)
}

/// The dense MDS matrix for width 8.
pub(crate) fn m_table() -> (v: Vec<Uint256>)
    ensures
        v@.len() == 64,
        vals(v@) == m_vals(),
{
    let mut v = from_limbs(&M_DATA_0);
    proof {
        reveal(m_vals);
        assert(vals(v@) == m_vals());
    }
    v
}

/// Part 0 of the transition matrix for width 8, as little-endian limbs.
pub const P_DATA_0: [[u64; 4]; 64] = [
    [0x6ad847d4430f3f27, 0x70944f929fc17821, 0x7079129d114bab11, 0x1aa4d470abeaa235],
    [0x4feca30879adc644, 0xbe61d7d3db1d975, 0x8ee3deaf48b49361, 0xe1f4e4d26e9da5f],
    [0x746729964ef75f34, 0x385aafd8ea41d9, 0x226c5a549e591849, 0xc298c14356a5a7f],
    [0xb8f1afe1c5045ea1, 0x5e528b676706882e, 0xe1622ca20d13b237, 0x19e070982d3ee675],
    [0xa19d17b7beea9295, 0x5a20a72e69e10863, 0xee570a650125eda7, 0x333e2923992e89d],
    [0xf41f652990be0139, 0x510d5f07439a1b6f, 0xec04361238c3c4d9, 0x1944aac72bf6fbcd],
    [0x19661675736359f3, 0x96a7306058904013, 0x4892ad167d9e835, 0x27d802ad019a42fd],
    [0xb273471eb9623e73, 0xa2c527a970ad2815, 0x6bc01f67242d54b7, 0x2bd05a040a0987ac],
    [0xd06e1043327d5d11, 0xae6bea218cd94677, 0xb6d7070712495423, 0x2ed795314c562ca0],
    [0xa838a1bff5baf530, 0xca98a20a2ff9c184, 0x6e43baa800fc4a0f, 0x17ad6adb37b2fdc3],
    [0xbbdf427a86de4483, 0x64f79f1dd0c05857, 0xeb38c9aba804ec42, 0x4ef313ca88e6a46],
    [0x1c84ab02661a8cfe, 0x52b68e8bce182e6e, 0x8c9c3c085cfc8fe6, 0x1562e5b3db42e4e2],
    [0xf06230e2dbe016a, 0x2ccb17996403315e, 0x7787e6079278b581, 0x1a197674d40c4344],
    [0xc508a58e982db9a8, 0x368bf679a39937cf, 0xfa6f328379ca86f4, 0x32aac2605d772f1],
    [0xe6c9b73147b09d2d, 0xd3412a480f0b779e, 0x7f58ba77c1e4641e, 0x1e8382dcf318cd0d],
    [0x13234838c8246469, 0xc9974d9ff203f3db, 0x994362be568487a5, 0x2f337068a0ab32fb],
    [0x8c579da52123752c, 0xe637aec4a5b68c8c, 0x323c67f0960cfa94, 0x1c700c219b9fd0ac],
    [0xe2960640f993f19e, 0xc9c6d99e86ba2002, 0xad766939d693b018, 0x14583143fe69954e],
    [0x2c01e53c98502f42, 0xd9b3e7b07180721f, 0x96bcf62f00e93cde, 0x117bffb0996f3b87],
    [0x66663998ae04bda4, 0x1dc312b0c1c4a8c0, 0xa0d09e1dc6efb2dd, 0x1abaf63769a9a837],
    [0xd27fac9169085169, 0x6b0319d53a839f5f, 0x1b70a0a230327d58, 0x1ae4af74d4432000],
    [0x1bd4239d89c9cfa3, 0x45616649d8e3759d, 0x27894c17bbc4702d, 0x3a38b1fc1f632c0],
    [0x2cf8a86079f01fd4, 0xab62cf34ffc1d2c7, 0x71f3a588f1c604b2, 0x5fe56b2e7f2cdf0],
    [0x61035bef75f60188, 0x1a9804864231e37d, 0x68e5063fa983fd7, 0x305fc4e93cd1c823],
    [0x664c6d6934225f1d, 0xaebd10bf7d001a3f, 0x6931fd6bb92c2497, 0x126587f4ddc000b0],
    [0x7e7305424656d460, 0x914046ced174c590, 0x1617eef97a4619d9, 0x9664ce4670db842],
    [0xde36f2adfc837cd9, 0x2a51b6ce92efed9, 0x8ef3674d1399d5cb, 0x36d342dca9ebe24],
    [0x66fe966889db200c, 0x2f287cb74e3afdb0, 0x17cb1852bb77b5f4, 0x338e5e98906f68a],
    [0x63b0b83ea7b7e4f5, 0x7be46376d16629d6, 0xcbadd1ffb6ab2e6, 0xb169fad164bc769],
    [0xc2674ef08234ad11, 0x36a9275fa8b299cf, 0xa9930bf40b24ab21, 0x26492ca60cbc803d],
    [0xcaaf7c9f3492042b, 0x3e19c1e301a646a8, 0xd7bedb995ae85f21, 0x177bd045809197],
    [0x543bb556d501c090, 0x5f59ca2260178321, 0xdaed43224c80f642, 0x170e3b120459d017],
    [0xc16e0d391bf9bb8d, 0x55b7ecef465abebe, 0x45b7c50d8020f3d7, 0x1d322025a71f8a84],
    [0x8738c36a5e85885, 0xb9bb7c39cc1ea08d, 0x8c23dc31745b2b19, 0x51301752f12f6de],
    [0xe17066e4ff5be87c, 0xa93abb6076fae2f9, 0xa8bb068264dcbe68, 0x1521f1fad861eee],
    [0xe7bae94bb36d499f, 0xca1e9791b1042521, 0xdd85188c8a80f41d, 0x2d74e6c13b0856c0],
    [0xeee3c24e4449655d, 0xec0e4efc9d4c2655, 0x3c3417f9cd1c53d4, 0x154b82a74672e143],
    [0x7f8aa5f0199b205, 0x7bfc8c77ed767e7, 0xde0d6be824fb24b1, 0x37a36e914e568f3],
    [0xb7d0ef09fd10826a, 0x8dee0e53289ed0b5, 0x9b7540f256c0947b, 0x179ab9300b69ae8b],
    [0xa0e57ad09973e16f, 0xf52f2e011da379b6, 0x47a0523f89c94a42, 0x1e1ceec2c1097c4b],
    [0xf12d142eb8108e07, 0xf993ad146ee2b37, 0xca7657d279ee613e, 0x1d3fa515e56ec187],
    [0x3b3eadb0f1144170, 0xaec4209093ce8e56, 0x3e1a259a8263c6b4, 0x226238a28654ad97],
    [0x3cb078a9ca1a532, 0x76ce740798a66132, 0xfb1632990d9bff8, 0x2d6baf82ccebf60b],
    [0x4b5af200af0e00b2, 0x2a95d77118fe5244, 0x35cccdbbee62aa42, 0x7672fca88169148],
    [0x83d87140ea73adeb, 0xc7cef8012ae5d1cd, 0xfac59708d54a16c1, 0x2c54cb56058d37bd],
    [0x739345938a20c5b3, 0x7a672e7597d16df2, 0x9a16d073b79fdbb0, 0x5de377805bca79],
    [0x2e63b0ade9c66e4d, 0x7950facb1755abc1, 0xb61c81721de5f278, 0x2c2ad35579f01d21],
    [0x5c96f8d39d11834e, 0x4888b98f7ea8064d, 0x36d643ff47f37bc4, 0x13e72b920d7df03],
    [0xde771be24b2e5e20, 0xd818c68db52a9a1c, 0x2ede1caeb39836b4, 0x146acde01679ad96],
    [0x51b92f5666a9e441, 0xe57c37498fbec5e4, 0xb32de8b124c7e024, 0x1fd98a7ceef4a6d3],
    [0xdfe35716b9447431, 0x89f31b45e346b713, 0x2f84ebfce048f146, 0xa2ce4bc27cb2568],
    [0x1f7e9a2cc8a09649, 0xf6e55cbf97d873ad, 0x8179b23b9b2d8ff3, 0x276718d84a065a28],
    [0x55e7be146a0a0b24, 0x420bbbe5ae3328, 0x641e55ba0f17880e, 0xaedbd439fc8a60c],
    [0x91f36db1c33b5c17, 0x48b3fcd473b9cb58, 0x1f1c2da415cfc4b4, 0x2eec7d749447d3df],
    [0xf50c85632f870959, 0xbd7e867f9e6775be, 0xac7aba36f3b50757, 0xe78c7c5a33ddcd2],
    [0xdbe47ec7044ec009, 0x57bc7015459a3df9, 0x7f80eae1154d5356, 0x2fa9d8cfc04dba7c],
    [0x93108703f4a6106, 0x596d02b366f44386, 0xf3bc2ef708b27929, 0x48997cdde9b1ec6],
    [0x6871e6a680bf6a44, 0xaa9080ef691242dc, 0x9310b975678ddae2, 0x1f471d25bb7448b6],
    [0xac4d79a3cbb38e4e, 0x114a3a8d6f8d7fd8, 0xbdae2fe7788b7311, 0x1e1b9c1ae86ec688],
    [0xe6bd0889482641bd, 0x7cfcca9596899786, 0x9af79941d860914b, 0xa1bd98c22495036],
    [0x4091f58d6cf6b61f, 0x8ea4f8c9770230ff, 0x47d2430b3c45edfa, 0x1b87ebdbf566fc87],
    [0xe764b530e9b65d2f, 0x8d4e200a6da374c8, 0x23e2c568d8aa039f, 0x5c539bdc0b98fdf],
    [0x35f2abe8b79f2085, 0x1aa82111c3f91e1a, 0x415a72760a1a9d8e, 0x2010d6aaa2a1cc21],
    [0xb2c2959ae2af9b7, 0xdecbc6265b6396d3, 0x9d4c37374d8ca702, 0x288ac5e38d20b515],
];

/// The values of the transition matrix for width 8.
#[verifier::opaque]
pub open spec fn p_vals() -> Seq<nat> {
    limb_vals(P_DATA_0@)
}

/// The transition matrix for width 8.
pub(crate) fn p_table() -> (v: Vec<Uint256>)
    ensures
        v@.len() == 64,
        vals(v@) == p_vals(),
{
    let mut v = from_limbs(&P_DATA_0);
    proof {
        reveal(p_vals);
        assert(vals(v@) == p_vals());
    }
    v
}

} // verus!
