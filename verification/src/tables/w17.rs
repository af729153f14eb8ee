//! Constant-table data for state width 17: the flat round constants,
//! the sparse partial-round rows, the dense MDS matrix and the
//! partial-round transition matrix, in row-major order. The constant
//! arrays carry the data; the spec functions read the same arrays as
//! value sequences, and the builders return vectors proved equal to
//! those sequences.

use vstd::prelude::*;
use crate::field::{Uint256, from_limbs, limb_vals, lemma_vals_concat, vals};

verus! {

/// Part 0 of the round constants for width 17, as little-endian limbs.
pub const C_DATA_0: [[u64; 4]; 204] = [
    [0xdd8f5e67cb7a3f5c, 0x6c6f9dc4f1ad4862, 0x6c5a95eb1d06694b, 0x2fb583762b37592c],
    [0x3d1d001da58b85a5, 0xe331dc05c088e6dc, 0x3d4028bf7a11d7c0, 0x12e9f46cd8231bb0],
    [0xec5837a825873afc, 0xfe61a5b8d3747f6d, 0x16a7c53fe62e323e, 0x1275cd70326f52f8],
    [0x10904a61e8773541, 0xc9c7a16954c40a4d, 0xd23e750a75ea2e12, 0x6e7d165b57b0299],
    [0x92800e34fa98108b, 0xb9d85ef9135065d9, 0x5a4add2ecb41bef4, 0x2f67f23a93ef1e21],
    [0x84fa839d864dcd1a, 0xf388019489e01b7c, 0xef38de57e15e242d, 0x169eb9952e2a8623],
    [0xeb7253bc98c8b5f6, 0xcb3aa240c683b3e0, 0x3a513ba3156d4de9, 0xf4cd404b4024ca1],
    [0x7c2c4e089fd45aca, 0x60b0ef9083127bd, 0xf519e8dca6dc41ea, 0x1c486bfae3ab032f],
    [0xbaac665e8cc0c79d, 0x7fd3851571ce6813, 0x40c67b1e2f4bc4d2, 0x102e745864251ce9],
    [0xafdcd0d52bc3bab5, 0x29c129cce3eeb0bd, 0x93044ffe36a5f2a7, 0x1e6a6d620433d222],
    [0x8d92138bae603b6d, 0x68ecc47aad82b418, 0xfd8651ff2d576e3d, 0x8f3abf97ad8d01c],
    [0x3c0302938c248ce6, 0x72428511a1b9d668, 0x821ee60378b1c39c, 0x283da3f1cf8477d9],
    [0x6a2e41629734437d, 0x3a75a26ba16f9646, 0xabc84cbd58adbc14, 0x2d99cd8d88e49e0b],
    [0x861fd037dda8f779, 0xd869369f72a4e502, 0x5fef8aa6d8b748ea, 0x171edd6a7456a4c2],
    [0xabd6e1ca8df2d3a1, 0x2a381e785792a3f, 0xbd573c0cc383695c, 0x2fab64694369e3a2],
    [0xdc18c72474f9afe7, 0x568c3c898db9531, 0x4fc8ecd2a2b9a237, 0xc6155944f64f769],
    [0x15efbfc08607c3c7, 0xf28f0b1730653c09, 0x249210cdcda71437, 0x1ee0e5cfae030622],
    [0xeae6b6976cadabc, 0x87351b1972358beb, 0xde12f0e02f0cf65f, 0x1c15154895ebfcba],
    [0xbd11f71885754083, 0x884ed5d9e64bb814, 0x3069ae697d185c9c, 0x467fedd16f9e87b],
    [0x44b7048b2f9ef8a2, 0x4b69136d92546fff, 0xb087fcb51626b475, 0x2b5565852f65969b],
    [0xece4fe4c9a520f97, 0xfb897d45d9c93fb2, 0xf4ae8ede77510a7f, 0x2250acc27d5ef8d0],
    [0x574222782b02a8c0, 0x154d2c1e36eecd07, 0xef727815bab8a81d, 0x2c0abe26ff8bd475],
    [0x70dff34051188a69, 0xe8e107e95a10838b, 0x6885be00fe97cd4c, 0x19b0bd9e0c5fa1f5],
    [0x12e8f9834d32eaaa, 0x3af387ec8d472f5d, 0x7633942aef80bafd, 0x2342fa805eeb2b23],
    [0x747f884cdcd8faf9, 0xdea397599ccd9823, 0xb2870af0065ceb8c, 0xed57663a2a64c73],
    [0x9f44ce4896e64bfc, 0xfb766e7537aac2ea, 0xe3e601b19d3ee2a9, 0x2c8da824719f86bb],
    [0x38247d2c244a4474, 0x930683c0c40bc119, 0x11c677d62c6aac73, 0x242fba876b16361e],
    [0x7290debd5e409b3, 0x711876fff6d5b126, 0xd5903e1e638bddc6, 0x180cfd0b1cd3af7],
    [0xec36373fa66f915b, 0xa774713b724b9a88, 0xe790bb82e6881b2d, 0xfe8ce1b265d657],
    [0xcb31d58cc4640809, 0xd38dec12218ed937, 0x3a5d81fcf949230d, 0xe8701cb0f031d0],
    [0x8c513b37469f47be, 0x4d38859d10f557d3, 0xfbc12bff4350c6a, 0x7ed575f9154b12b],
    [0x30f8352aad050b91, 0xde4b12e0921f8190, 0x6a4af81a4be19c94, 0x22e9f46e17dda406],
    [0x58c134f652a6ea5d, 0xdadc7a85a39b9374, 0x7d633dcbf2acb264, 0x2b21049f7b8e6e76],
    [0xbf38efa470bd0bd3, 0x7840905b9ff27daf, 0xa3da1eeb70689843, 0x216c5a5bff445ac3],
    [0xeac11f9d5a485b, 0x772f66a3a0a0326c, 0xc83929aa97706ac, 0x2e14bd4f01462ffd],
    [0xfcd82ac51500eeae, 0x72ae538b21fb69bc, 0x205f13ea21e8f331, 0xf28e51e2f777239],
    [0x7f1edd5838106eea, 0x663a01827044169e, 0x3f6a773c69714eb4, 0x2c2295ecbad9cf1b],
    [0xf93ad1f127f2281e, 0x679e7fe2f0918bbc, 0x39d488ef003f9c3c, 0x1afe7b1d8ac4387],
    [0x3608bca8451b210d, 0x8774b3083833bef4, 0x85cd5b5a0105f8b9, 0x2e0833dafe872796],
    [0xc6077c774cbb967c, 0x22dce6141935e01f, 0x41c7196fc15592fa, 0xbbf4266fca08613],
    [0x735a65481e5e781e, 0xa26b48d8940f0b72, 0xee36ab00f91c5aa0, 0x530c66b07d2db8d],
    [0xfa953ccce90acb51, 0x3867c01df7d050c3, 0x58a22f773e92d48, 0x2ecabeec31877a68],
    [0x2b95cb5d45820f28, 0x262a976379959e1, 0x9bc732b57689e48c, 0x1e379c0d2f9d0b65],
    [0x122d3a7736a6b340, 0xc3a20df9c1788c9c, 0xb8e5361002c613d6, 0x27767756606bf727],
    [0x57d835d8d656ae25, 0x779368ff46eb68fe, 0x3062c3b42321ae05, 0x1be3d832de219644],
    [0xe40712425447dc59, 0x3bece0cd5bec65e6, 0xeba297cb68ad992b, 0xe9b839700b18ef3],
    [0xfedeeb51bdcb785d, 0xd246070d70c2c3d7, 0x51ae587ec18f502, 0x2760900970a34d2],
    [0xb71d42b4ba277906, 0x21c5cd89fa28f9c8, 0x6692cd5f50f6b06e, 0x370ec3f70286f49],
    [0x7ee3095baabb10a8, 0xba2ea082d75969a9, 0xbaeebb2333893f7f, 0xba8f86362e1f301],
    [0x37f92abcb4a4dd6a, 0x14434a5915299ffb, 0xbbe4a6baa9aaf786, 0x2d683c3cd7b4f544],
    [0x930c91e9e7951f82, 0x77cfb1b22f3b110a, 0xbf3e11aeebbed37b, 0x25544ccf600d8604],
    [0xc1ab6ed37376f959, 0x33f05f91a2a24aee, 0x3443283152809668, 0x1c583675e423f947],
    [0x26f5eb0ab5bc79d8, 0xb35b0ba28b262f85, 0xd50a06f3e1baba3c, 0xcb752efd07c8400],
    [0x75b8bcbe4dc238f0, 0x84d05eb93ae10492, 0x4c16974e2eb56ca0, 0x14cf442b6f22ca3f],
    [0x1947576fcfee4fa7, 0xd6e80878652855b, 0x97f4ff0745ab0814, 0x1af1b935bdb56078],
    [0xeff395a13e6f1f0e, 0x40433e22c2745807, 0x4dd5d1c41e00699c, 0x2499ad4b7965230d],
    [0x53df9b75b81d63aa, 0x2b14c0a8109d34ce, 0x6e62e62271a36f53, 0x2b582ea166902819],
    [0xb5fee25ee99e0bef, 0x2d526049fe1fabe1, 0xc4b5ad93dbb2e941, 0x1c335a347abda047],
    [0x4cea26daf8a70aa4, 0x571e3644dd7b566, 0x443730401ef329d7, 0x1e3451c495c60dcd],
    [0x5823acbd2da005c, 0x746ccb928834e731, 0x3e393335f1217710, 0x2d96286e6d9eadd6],
    [0xd616ae0ec4c1bd8a, 0xe65977994e545204, 0xe9bd0afe313334f7, 0xc1033de21891ecc],
    [0x14affe5fb40eee36, 0xcac8403ec369c02a, 0xa6b8efc8823bc82, 0xf0f51cf6db73e97],
    [0x662acf9d281b348, 0x4c010234d8482178, 0xdc067a6da7b56248, 0x8ed2dcec016b8ee],
    [0x5611d5532d6b81a5, 0x3ff37909995a6d69, 0x910bf7590e9774b6, 0x19a5ec3b7882ec],
    [0xa1dd39263607c33d, 0x214cbb54fe973948, 0xf0d53fc16c955fa0, 0x23feec5d6235a405],
    [0x6efb87102c6a00e9, 0xe42aa3f54b8d7d4f, 0xb0407e48ab1b44e0, 0x85438dd42c1d74f],
    [0x591414c005fd0327, 0xe82b595d7510d507, 0x9072bfc4e41b4b78, 0x1916f1d621aaaf4f],
    [0x83fca9bcbbd07693, 0xb0b77795c370c21, 0xe9a85ac6aec2fbb5, 0xfc2435156d4ee76],
    [0x28b4ff3ad39bd969, 0x19d3a14887a57d4a, 0x978f80761784de09, 0x26cf4d12199003f6],
    [0xd3f5de827a1a2025, 0x74c811d48dc2b214, 0x4f039f452fe1a9f0, 0x2c480375d8dbd4ac],
    [0xf8979839f02cc0eb, 0x97937b3d81ba2691, 0xf278b77b765dc4c6, 0x219b5f8126784340],
    [0x262b9347cfe69a21, 0x16946214996d1f93, 0x9fb628c3ba41110e, 0x14adc2f2733f55d4],
    [0x53ffaa6614b1df31, 0x781a64f22d5c684e, 0xfae1dc35e0206959, 0x230a5fe366e0aa4d],
    [0x678f5ee6fdcacbde, 0x78c65118b5a80f86, 0xb3b7e4149d16451b, 0x1279f8d2e2d43a9e],
    [0xa3a3deb0a0e8d751, 0x165ef3476fbc327, 0x705c37da42b8819f, 0x2be4cb4144aa4b8e],
    [0x1149e7dc7c60a45a, 0xa06022cd859f16da, 0x2c8cc446513b5a03, 0x283b18f7a149cf2f],
    [0x5479e707803378ac, 0x41f6a67369af01c7, 0x2d5d9096dd6c45e9, 0x2d5baf88887aebe2],
    [0xed76e4f7afa5ad55, 0x546335bf29623ad, 0xa9890868d9ab398e, 0x1cd9a6ffdd0daf7c],
    [0xc46049c8db5563f7, 0xb99f75af301e749c, 0xacb400781d8cdd25, 0x160767c1cb457de2],
    [0x707c1789c39fca6f, 0x6f3454c12139454, 0x2aa63685729e0dfe, 0x1bbbb19bf384f981],
    [0xe9f4d010f15a1755, 0x5e7de57b8d5a7984, 0xb2bb8aba2a1c73c9, 0xad3beb75c91ceb0],
    [0xd5bff1b4614e0b06, 0x65063e1e6c2cad4f, 0x4feba1d8ad6cfecd, 0x1841eb6cc35a1dd6],
    [0xe4de06b72be6b447, 0x9bd344e2abe0a57d, 0x32ce821d611b9877, 0x2356eedec4882d90],
    [0x60a4944ee6ed6479, 0xbee130faf298432d, 0x391e69db91108306, 0x10fede6245a9c78b],
    [0x16c3594de6a53443, 0xb762ff16ac0cded4, 0x92b07410223d8b5d, 0x2b4f28161c7a8436],
    [0x6b44c92f022e011b, 0x51183ed1d163387, 0x14ac0d69972c9118, 0x1f0846b1b26aa3db],
    [0xcd7dc25f7f6767da, 0x9c22ed210503d5d, 0xe1f568c6aa3dde30, 0x28ff7a7752e51734],
    [0xe8f64f41d8c34e93, 0x14d97d643d4ce83f, 0x52150399c6a8b3d1, 0x1a3acbdd739794d2],
    [0xcb2c7654bef3f412, 0xaa34da9a60ba7df3, 0x7cc81d0031d18e9b, 0x290ba46b38179a44],
    [0x28c450e9b050c6ea, 0xa1a01da7a1ac81f5, 0x28c3a08500d67363, 0xb9876589637ee36],
    [0xe376f0c793a896df, 0x3d1767bc950d68a2, 0x1674cc229068e03d, 0x35b7b33a1e17c6d],
    [0xfce088538741b347, 0x2db1d761f7935202, 0xbe65920e6b873de7, 0x7e6b30a0d3c2526],
    [0x8e67470abe9cc690, 0x653755179159351d, 0x7f3b877578c6bc09, 0xe5ed87393495c2a],
    [0xe17795de3386f21f, 0xbfcee10b9d418ef8, 0x5957736a5cdae583, 0x2824873ab752611],
    [0x3b9e64618305d582, 0xf3a1ff7b31b1fa7a, 0xc26654ff5714e69c, 0x1db49ff47ea6ae80],
    [0x6bf5633565038941, 0x413e7205d25c8927, 0x626a0eeb927a39c2, 0x1be421809f80b11a],
    [0x7d42623c2d2c377e, 0x287abe7c453632ef, 0xb487211f4e789b9a, 0x3b7c7629b535df5],
    [0x63adc04e00e809e, 0x6e41638465e347f3, 0xf8c9fd354f7ec84d, 0x12a9f7f6e0c65acd],
    [0x29a23709b6859ac6, 0x5402096e3cc6d2e2, 0x1128c20ffd995fad, 0x1df5905e387f8ec8],
    [0x4d8429f2075d122f, 0xd58428aa3b2aed78, 0x70e6734fd848368, 0x2d39da8ade615636],
    [0x984bcfc97c9beb7f, 0x43c13d9c073b9d70, 0x8df840db25796232, 0x327c1d1f0dd35b0],
    [0x250a41a49454b6c1, 0x48a6fb0f51956f50, 0x6aeb6b825004322a, 0x18a10f3e452a0807],
    [0x5ed16155fac59ea6, 0x693fe458add2a56c, 0x6047d599b3ad491a, 0x1e94dfa0b21f7b3e],
    [0x5d2da2bb93bf3b2f, 0xa36f21fd61cf7009, 0xf0bed25bf31e8c9, 0xfe2016941461beb],
    [0x477883d885b425b4, 0xd3e35d0378007404, 0x76bf855a1bbe412d, 0xceb82937c84923d],
    [0x94c23e3046621a9a, 0x763c527f4792fe9, 0x9ba0673beb0e4758, 0x16985b2ee64b42bf],
    [0x5fc0aabd404e5b6d, 0xb6ef57849233d294, 0x4d7af2e3c6ab2e1e, 0x10e6ff96c5dad8a3],
    [0x1ec97c3ad71dc542, 0x56bc1cc332581cc7, 0xaa3020d21665ddd6, 0x192fdbc53b382b45],
    [0xb5cf2161a3bd030, 0x43bcdeb4deeef338, 0xfbf6990506d9308, 0xd8431c14f1ff464],
    [0x84b47a5aad03495f, 0xb90669882c2e3d67, 0xc74ed29d69d11d37, 0x604632b70d1c0db],
    [0x53264704f986c193, 0xd3ed61f9c2e6fa8a, 0xf2f6957b01ff7bb7, 0xf2553c7fa5beb9c],
    [0xdb5ca6aacae5d58e, 0xd324d1622807cf59, 0x8351414dc360ab2d, 0x1fdc2bb41ac0418d],
    [0xa828972966a9c2ac, 0x1cafc7b33d6505dd, 0xda57e085c7cd3378, 0x18c42a157f39bfca],
    [0x34c87ab29543ba1d, 0x425c56137e213c86, 0xbb457aa7761b9ce5, 0x2645748d1b13c825],
    [0xbd9e72fd216e3972, 0x8d44232ed0f80a06, 0x8f41269497e1ae1, 0x2788af72cdb594ac],
    [0x8c10ba8d64acbcff, 0x15bb92ee41f73d34, 0x9de897bb849ab6bb, 0x21ae229ea6529c4f],
    [0xfd023a5344cc25ea, 0x6d1a6936245785c3, 0xf54792660668ad10, 0x1abcfdf990784706],
    [0xc3d2ab8de01abf8c, 0xb7a343c3e7d3ab9a, 0x595d1be0900002b9, 0x29ccf1d934f2a647],
    [0xdc298b9fc888d9c0, 0xe05b651b310b1d27, 0xf5e70d97ca2d93fd, 0x39c2ffda04fb850],
    [0xc638bade14719a16, 0xa41da938198153e4, 0xfd6f4e862ac08899, 0x1f2ba53bf1c99665],
    [0x3bb0ee95b7890719, 0xad8f51e9bf0429a3, 0x9e439b6eb5fd2bb, 0x2451b8e4232ce9c8],
    [0xa78851ba178980e0, 0xb2be05ea5c75123f, 0x27666e0c05ce3097, 0x171a629d2c403643],
    [0x480659611db8f137, 0xb2dcac3c6df9bbe0, 0x64044e24961a95d1, 0x8c9b34df311a187],
    [0x22c9f1a8b252bc20, 0x133530e8b7a52d24, 0x1404091d2b160fc, 0xb22a3e321a38a38],
    [0x796b392772e7d301, 0x33bfbafc9f1689c2, 0xa743f87a7f0d267f, 0x797c435ebe5c845],
    [0x1d67870454165dee, 0xc6147bd1cc7f30f1, 0xfb389fac64b5f1dd, 0x1e7306b31a137fcd],
    [0xcccdc459ade9b019, 0x1a0b1e4a8ce00a2c, 0x92e2c8ca7667f5d2, 0x112f01c5aa8b6ae],
    [0x36fb7692b1216b1b, 0x8e9ed317b586abed, 0xc66921c11e899b88, 0x219de6b42df30699],
    [0x98117b292705de04, 0xc1a78cece6aaf9b6, 0x5bbbb04bedef0d87, 0x86a228ba57047dc],
    [0x59ad83e541ebea49, 0x4f2aa117cc1aa4b5, 0xc323da2a344142e7, 0x14e98432357efd4c],
    [0x789a09147168fc96, 0x879d8b86ad928190, 0xad78b8b88d54217c, 0x1e6b895858694eec],
    [0x481d32313d55d161, 0xc704fecf164b7327, 0xf2b643576e177c9f, 0x15e37faf1d08493d],
    [0x629b522270e798ed, 0x96693dba11d00879, 0x8e5e00c4209cd9b2, 0x85d0f567ddacd3f],
    [0x49673e80c5c86db1, 0x1ff04a1f2b1399db, 0x635104d5b2150f83, 0x1067df821f616fc9],
    [0x4e087416544557ba, 0x88c11f415576e72e, 0xb055f9b8748f7e2b, 0x90332160427de3e],
    [0x5092d5c7f8b84225, 0x36fce0d45831e425, 0x6e0d44ba0105f8da, 0x2dc94749388ebd87],
    [0xc43c74a9487e795d, 0x82c68ac4ec31e88b, 0xd50b4d24d2d0c29b, 0x118c857f29e5a253],
    [0x62b6681adeb11579, 0xa77db9ad0a28768b, 0xc72a457c92e95458, 0xaf67f0d07a2fe41],
    [0x963e6fc94f8c828b, 0xb7c141e2fec7e29d, 0x6f11620b2f12ee6b, 0x30104204ad0fae36],
    [0xda3b8d0524a5a60, 0x32ce66d53b0d9a91, 0xcd63235f4d81cf00, 0x1976ac8ab874f49c],
    [0x9436f6fb9313bfa3, 0xf77ed7a8a7c72755, 0x21ab1270a0748ee7, 0x2c316de3167edeb7],
    [0x9496ddb63cb759f0, 0x5f2a5b8e53561d17, 0xf4535e741f79432b, 0x9d2011c83a4c911],
    [0x623af883ed734294, 0x71149119bdee6569, 0x1cb5d22ed48e633d, 0x135bb87773cca219],
    [0xcc5eb601ed2c5600, 0x47eaa166f5f8bc3, 0x99d0d8cabcf056f0, 0x2d47ce6552967539],
    [0x38be08a46f8f8fb, 0xb186da55cb7f5bad, 0x2674a4ea2e98ab5b, 0x12b3ae2f8d363370],
    [0x3a109d5ad7093a96, 0xc3b4bd334df567e2, 0x4a43b0159e5f0919, 0x1941673c79be8392],
    [0xb4f62c902c9b9190, 0x454514792e2abb5b, 0x5d49a42d8bdab4ca, 0xb524c1bf3c39228],
    [0x2175fd7bf58eb8da, 0xfd3705a08b8a9dfc, 0xeadf3fc8f035c016, 0x1515ed77226a3311],
    [0xedb76a9d0c40cbaf, 0xab7da9b6741aa5d6, 0x5f7b4624a84d680f, 0x64862973bd0b7b7],
    [0x89be5226fcf0df55, 0xf8835a73100bacb9, 0x94b0b2d4eeb80c93, 0x1a23361fedfc5e4],
    [0x8317563386d4e544, 0xf1f8e337b0681093, 0x94721cd9486750a4, 0x14752381dfb9665],
    [0x2540f2e3262914ac, 0xe008d08be687b812, 0x581ce66e097f9b5b, 0x4a09034e0f69e26],
    [0xd12c1b581511538f, 0x5e20d89ad0658ade, 0x53785cf2eb4af7b0, 0x10bb764a96bf402a],
    [0x234707168298fa14, 0x635054692818f9b3, 0x72458561c19a59aa, 0x1499cfd036b8ae3],
    [0xbc2130ca5f962fcd, 0x2258264b7796eaa9, 0xa9e34521099684e7, 0xa8b3b48ec68bc2f],
    [0xdcc01555be87487e, 0xd01e16680bfe9622, 0x4b9b231fc1403379, 0x1a46e59c6c21c9d5],
    [0xf017516c358cc698, 0xea8c8ade1a7874c3, 0x8ebcadc6029a3ba8, 0x9569a38ffb6c33d],
    [0x73c7c6d1ddd6a2ca, 0x2cd49a56b9b768ca, 0x276db42e7ef3159, 0x16a9c201d574004d],
    [0x680983e27bc941c7, 0x39c9307c0d1e9b3e, 0x113179e32656fe2b, 0x19c05f9660f2cb6b],
    [0x5cb7d6a405a063a9, 0xb21f15cb7fa6f988, 0xee59fa5a28af545c, 0x29f4b811dddc6725],
    [0x7608067cdd529b10, 0xc06fb7faa9cbb2e0, 0xdf561572e5f6092f, 0x1f99271ffe92b27f],
    [0xb66726b252b6c089, 0x2f8fceadbbd41583, 0x4957f00327ddd937, 0xb9fdcfdc7dfb872],
    [0xf15a31debf179ba0, 0xd91ca70a62324400, 0x9027047ec1d759bf, 0x1936f5a41ce7135c],
    [0x886ad9b10662abb0, 0x10ec503a1b2fe5b3, 0x71251663f5b91dfe, 0xe5eafa60334d7cd],
    [0xd1f8a486a10c177a, 0xd897f58777c69bb9, 0x53231240f544ac51, 0x18065d065c304f79],
    [0xe3ccbaf689e7e809, 0xe4a1525095e312fa, 0x1479999760ea8d6f, 0x2678766be9d2c525],
    [0x4af260cf4b113ce2, 0x3d00de0f8759612d, 0x600ff868b61b9e5e, 0x23750f77af3988a0],
    [0x638528431272925b, 0xfdd6fc628eec1513, 0x1bec7920ba354193, 0x7318b129e4789d2],
    [0x26f8f7949fb0861d, 0x58f0985c64aa07db, 0x954869513a7a531c, 0x2a7bad1eb2e6418a],
    [0x33846077c83a987a, 0x520cf6330add93cc, 0xc55bf1aebffd937a, 0x1bab89c7aeb8f0f1],
    [0x546c450cb1e079a7, 0x4e032a4ca49d8ff6, 0x44ae3d20a40a368a, 0x1552d5985864ef28],
    [0xdc30face2623d320, 0xe5476e5bafa6f711, 0xf5996365de43d43f, 0x4b91151b3b35f11],
    [0x70722d4e45c912dc, 0x5df0931aba8576b9, 0x5ac2105b2b5f738a, 0x7568334c7a0595b],
    [0xcdf06016e9d171c0, 0xfda24fbd9de8cfa1, 0xa49ad59cd7b5fd2d, 0xb162e458aeee52e],
    [0xe79af7cfd8ad95d3, 0x5f6b78c356251508, 0x793e1bcfa553c931, 0x2cef3248eb4dae55],
    [0x47cc0b6edecfb9af, 0xcd4add05fac36548, 0x5e2b912527de7964, 0x15e7245ad978573a],
    [0x8e57b388ddc52155, 0xdd4b689aa0bee6a6, 0x80d02e06c8171f94, 0x27c471daf0598daf],
    [0x9397d67b942b09a0, 0xd545f2ac20a04f7e, 0x4bdceae7ad7a0ba5, 0x13cfdde932c2d8f9],
    [0x2ea8267faee7e8b7, 0x36eb46d237cdc846, 0x6e840d1cbe108c9c, 0x19f9a64fb9d10993],
    [0xb0cf770331224d67, 0x4b5dc96d07a18359, 0x6332bbd522d72ef9, 0x14169ccdf0872582],
    [0xd8f05386ff3122e2, 0xc356c4cd02ccf32d, 0x77040421907fc4a9, 0x2e8744177cd2849b],
    [0x21ecf111eb42018a, 0xca62d302fd8e37a0, 0x10e2b432b56daac4, 0x1507d5deb9bf6bfa],
    [0x815b581e94c8b9fe, 0x72c5c85d770515b2, 0x18a95bafb9b128a8, 0x26d7097b3269c5d6],
    [0x155cf1e75849d476, 0xf41b97fbdb637bfe, 0x248d8498dbb05c47, 0x1c7ab275f1c221bc],
    [0xda776c0326b9206, 0x7d7a40f9999385be, 0x1e0d88920eae1a79, 0x2673077405cc8bc],
    [0x52d951d6f1cb638b, 0xcec98da3c51c9598, 0xe6312f29022c7d0, 0x23fe81be9b9219be],
    [0xab8103f31c7890a2, 0x6b01949ef7151ed8, 0x360fa562760adb45, 0x10ba3c183fb3890c],
    [0x1bae243f6842c34, 0xdb8b326799278727, 0xe0e74872c4065e14, 0x2d5259daac231c],
    [0xf5ccf30f9d82a05, 0x1fb3e7de4d067c4c, 0x57c037f4f5ee3750, 0x1a637c2706a996ff],
    [0xe700964431ecefa0, 0xf96cd84c4e227cbc, 0xadd6dce3f7668546, 0x2e6067c558d96831],
    [0x1a1ff41b4b7ae935, 0x75898537f6ff8eef, 0x917ce3bd13a7f28f, 0x1a0c5d35fc732851],
    [0x362d2f7461bb1b84, 0x44ceb1927172e39b, 0xb1ff7887926a4c8c, 0x2edc867095cf941c],
    [0x74a856122a9d965b, 0x27f38d6cd91e0a48, 0xe2aea024198e4176, 0x2f2062a65c3fe731],
    [0xe7c4442bfb8b61a0, 0x374cfe12090f6929, 0xfd74235c3a239e3e, 0x261a9965be69de3f],
    [0x219c26603e84b586, 0xfd5bc160698af9ae, 0xff814fc310a3b08e, 0xe51a7f2109df256],
    [0x9e5081c6b10822ff, 0xac4be93b1a732a25, 0x2b1bc635035c7f92, 0x201537485c818bea],
    [0x13c56f966991ef4e, 0x49115a6635e8a76a, 0x43e96ce916012cfc, 0xb1dc66c364df6ca],
    [0x457196db0ef585e4, 0x355a0d0112f0448f, 0x80c10557d2f818c2, 0x1b70f07090ddb1c4],
    [0x3a8cc2e7c5d24f32, 0x7f657a2883117cd, 0x8dde108658764032, 0x1941694438a139d],
    [0x23a2c456f245e6ff, 0x19ce54048ea826cf, 0xaa490cd36e710d36, 0xcf031701838c4ce],
    [0xb1e9e8a7721863f7, 0x4e85097d78ac6e8, 0x795ddaaa3a692817, 0x132d7fac73535b2c],
    [0xa48a6e04f91b630f, 0x9dcd05026a3f2576, 0x379b69a7fb710b4, 0x4aeffca0f9922fd],
    [0xbb8601a22a3cf43c, 0x35141c7abc3e5bb7, 0x81938f3ede0c2a7a, 0x25f5b5001f87bf25],
    [0x4975ed8c80a2a28a, 0xec72b490a41384d4, 0xa4a6aca534650e84, 0xe7119275a25b2b8],
];

/// The values of the round constants for width 17.
#[verifier::opaque]
pub open spec fn c_vals() -> Seq<nat> {
    limb_vals(C_DATA_0@)
}

/// The round constants for width 17.
pub(crate) fn c_table() -> (v: Vec<Uint256>)
    ensures
        v@.len() == 204,
        vals(v@) == c_vals(),
{
    let mut v = from_limbs(&C_DATA_0);
    proof {
        reveal(c_vals);
        assert(vals(v@) == c_vals());
    }
    v
}

/// Part 0 of the sparse partial-round rows for width 17, as little-endian limbs.
pub const S_DATA_0: [[u64; 4]; 256] = [
    [0xac1ea3fcce1fe938, 0x2694c936f1573ac7, 0x54c71d40114a0bb8, 0x196b76cefdcc7f6a],
    [0xbfe851a8038ce383, 0xcd4fe102f39f9ee2, 0xb09bb3189ca08832, 0x2cbd265ce3e5becc],
    [0x2b148ac4ad7b8cc0, 0xde6a7d47335bb58b, 0x53e2de966a7ad7fb, 0x1e0217f13e7f2120],
    [0xe116420d33f981e5, 0x21bc5569e7eb6aed, 0x992b3337f1c0eb3b, 0xf885c4008d2a4c2],
    [0x4fd489d7f00d0cc8, 0xfddca13a014922ea, 0x8c88f7a8cd002e06, 0x2e9c594b2023ee62],
    [0xe42f06952bdae058, 0x1691557ca9ee1b7e, 0x675cb39f0aa486a1, 0x217afd05c2e55b85],
    [0x126eb16da9878c5, 0xcc4f34416fa61992, 0xba576795e16bc269, 0x1f8f067c1602f54],
    [0xffcc4c5200c3d6fc, 0x88cd5be9c14dfc66, 0x4c6c37a0de4b737a, 0x25f3633c98897149],
    [0xab7767e74f88747c, 0x117758a3e2c638bd, 0xcdebadd46b6e9096, 0x18cdc8b1d7543efc],
    [0x5ef3a3a4de8e58a5, 0x46a41b7d4ba83aa, 0xb7daaef83a36e688, 0x1cd8be04f1ac72a0],
    [0x194007eaf8ed8b8c, 0x676698514467df13, 0x3183335cf97746f6, 0x1a31f69bd76c670a],
    [0x6fb6a9832afb3869, 0xe3be77eac56e708b, 0x5746c4131c8d4cda, 0x2ab2c3d35698ec03],
    [0x7789670e716b3bb9, 0xda2b282d12447fb9, 0x2e24683cb6fb96, 0x2217b8cac3e14934],
    [0x9afd2ca81a21cb70, 0x387c1b4587d44bc8, 0xb26d55145f298e5a, 0x26d8ecc33cf52610],
    [0x9cce7b1b0074e8a7, 0xdeaf43067e119ee8, 0xfe0799c1b568e2f6, 0x19b5fef4d9456e93],
    [0xff36f71b3cb7f4ba, 0x89bffe269131af9e, 0xd6c8b01f100eaf53, 0x2f0ee317d5a1d6c6],
    [0xd04f61bf8475759b, 0x8c996b79414b70b2, 0xb2d0e32531222073, 0x1009a43a6a00db52],
    [0x4af83d8b69bd23d2, 0xc0b6c6f01173a1e8, 0xb04bb05c86484922, 0x2881d241ad316ea5],
    [0x594987287972c39b, 0x75a03361e74a5c12, 0x9b1f971352d680f, 0xa3aa81c611a57f5],
    [0x7369240a6e5ac276, 0x5848bdd9929b93d3, 0x8fe9d0a135105ed6, 0xbf1eb01ab9b4663],
    [0x4fffad2413b15925, 0xd3d98bdff534ea0d, 0xb1fbcc06ee6180e2, 0x1666fad124b64cb1],
    [0xb6b2f7fcc0e40f7e, 0x8c38b973232ecc68, 0xa51ece18add637d0, 0x13006947e1defbcb],
    [0x349e318119a9b077, 0xe8c122c60aba74a, 0x527d5fdd9442d7d8, 0x20cef2fdcdcbf581],
    [0x7e6084c57f8180dc, 0xb64b8b3670579e5f, 0x812419611e6e3f30, 0x29308abcbb8c3d71],
    [0xb1f066d0c3912e0e, 0x9b408d63385e63f8, 0xf70625f7e1db0da1, 0x20a651bd8eff8989],
    [0xc26714b8fd7c5ea7, 0x27cf89bfa609ec6f, 0xf41c2f923f0b683c, 0x2fe8775003759af3],
    [0xdbafbc644ff2371d, 0x7d949f36b2d9b1b8, 0xa4d6e2a3bbcd2313, 0x226d37fdd9023563],
    [0xb520204118ce6897, 0x365c2e2cbb1140f8, 0x7110a75fde384c14, 0x2f11eaf353125b5b],
    [0xaa90a564c10b4e29, 0xa089c28bc77f02f0, 0xeec2242ee401fe0f, 0x7cba6d14f09fa2e],
    [0x359c5b4dac5be0b2, 0x6c14f8736417fce8, 0xca863713452abb9e, 0x757d39b861897f4],
    [0xa757b390ab22d6cc, 0x258272802dc6556a, 0x8b3daca79a5ac83d, 0x58992f42ff62ae0],
    [0x6bda9316fadb5a1f, 0x69de3a665044696f, 0xdf51fc636fce6b6e, 0x1fa470cc67647213],
    [0x8a0c929b39a13c8, 0x58092bde0d949e8c, 0xb2a11af1b214327c, 0x11049230da628e01],
    [0xac1ea3fcce1fe938, 0x2694c936f1573ac7, 0x54c71d40114a0bb8, 0x196b76cefdcc7f6a],
    [0x63153d32257e8f76, 0xfca9bb0ca099f34c, 0xff23cddfbd44a2d9, 0x29e2fa62bb11282b],
    [0xe79ae1c420dbac0a, 0x9e81838dcf6a8fb2, 0x14d47aaa8d3c0148, 0x2ec58445b13f4e1b],
    [0xfca5c5721cf0b079, 0x9c45cad24daeea74, 0xa1de3d64aa9f7838, 0x2a26d88da92db338],
    [0xc3f6a361ad097666, 0x27576328351ef52c, 0x8568257ef0c438a2, 0x25240495a831b112],
    [0xe9089f96008fceb1, 0xb9507005df6fe46b, 0xd0913fe632fef7bc, 0x10356b86c6b5b46f],
    [0xb5863fe78a6ff6f6, 0xc81a47051f8c3154, 0xf3a2387251089e68, 0x23967538833c9bf2],
    [0x18527be40ac23e89, 0x47ab2cd6778f5684, 0x83343c6c1c9cd248, 0x3dcf91d2608f947],
    [0x936d74af9fb8fa13, 0x65412ce31a6abcfc, 0x5104d24285d2f833, 0x1185195857959b96],
    [0x3c2d1660fb2d1ded, 0xfb56b5fbb950d888, 0xc3a90ead42b8c438, 0x14ef1e17d68e5cbc],
    [0x9975454399294205, 0x7fe02cdd2b533a3b, 0x8ba552b4f40c2704, 0x1175100c6ed2ddf6],
    [0xe6dadc075f92ada5, 0xd2b2a35738fb135a, 0xff4bd3cf7b4fe333, 0x230160f538e3585c],
    [0xebe5727e381742eb, 0xb6e7eb3e316ca1b3, 0xa933a937f739bbc7, 0x88c4e4fc1b21270],
    [0x1795448aabbd76a3, 0xc20713e43323d434, 0xd7bb9a4cb5d36d89, 0xe3e345debdf5cfb],
    [0xcc7e9db2fdc9a345, 0xa276671abbaf0210, 0x25638bde6b974ca, 0x1a4ed87c8037af1d],
    [0xb95990c03a313829, 0x9f6a59e826e73dc4, 0x548f3cfc70eed403, 0x11ed48467664df00],
    [0x5a03d931c4f72eb0, 0x50f3256179305321, 0x556a7ebdf27ccf1a, 0x18ed0bcc41aa34c5],
    [0x935840062e8b1f8a, 0xbebf06505cdcd650, 0xa16e013ccd0dd935, 0x2e73e5ff39e58205],
    [0x507a6c19d20cd59, 0x8d2fe5609bcb3d60, 0x28720dc42053452, 0xf66bc73e8a87b0b],
    [0xcab959ad534a23f1, 0x5e39834bd5839542, 0x47bc4a7277cf59e2, 0xbc095405abc0122],
    [0xa220eb3e38d61254, 0xc11fdadb0b9b052f, 0xad330eef9dc51855, 0x1fc384fdb89e274d],
    [0x8a8c23dbe887cee0, 0x89a5f102b9261309, 0xda5f7e9f50714431, 0x2805a26d24644536],
    [0x94a71aa9c414cfa1, 0x90708e8ccd034a2a, 0x24bb5dbe3549bf63, 0x2a2eab082079c60e],
    [0x9632a28ff7b680ed, 0x59ce8f60f8c208cf, 0x8a59fcfa82226cf7, 0x5aa87bc4fe90cd4],
    [0xaa80d7e06996909f, 0xaed99ad9ce559eb2, 0x9b7d0fd466d2b3c8, 0x2038aefd81a73ef0],
    [0x3eac3b3252a057d4, 0xee3708e48da3446b, 0x853c67af9e2187b8, 0xfaf97c7bbde99e8],
    [0xbd2c120c6f76deea, 0x6f3ad06a365d9ebc, 0xe6f13b9dbeae629f, 0x5dd570bb1e0feb5],
    [0xae4847c724ab97dd, 0x7251cb29948ff1f3, 0xf386a61bc868d146, 0x124548796b8905ca],
    [0xb36e9c2e7fcf277, 0x2dcb7f9ca4d87507, 0x8c477dcb8b562c26, 0xdf9dc278a65d06f],
    [0x87611e7bca42c2e5, 0xa65fd3882320ba31, 0x269f56d25955fcfe, 0x725e0e87db61e62],
    [0x7b69a944b6903390, 0x4f613f60cf669afe, 0x64fc44f295995665, 0x2f204d469d9ae7b3],
    [0x3e6a17c90c50d3cb, 0x87b204cea36ba802, 0x8df2a1cdcc6d99d4, 0xf4165ffb8c3cd0c],
    [0x4df2152f6b663079, 0xb86de4aea09591b3, 0xaf364c93385aab21, 0x1ab6363cc8e8594c],
    [0xac1ea3fcce1fe938, 0x2694c936f1573ac7, 0x54c71d40114a0bb8, 0x196b76cefdcc7f6a],
    [0x628a0f15fa73ac1, 0x97ac1c84b89895de, 0xd1d1330bcbb2d80d, 0x273626b708fec9b5],
    [0xb6eb63c02f56101c, 0xfc1fca974214b45c, 0x1e821068a7fef290, 0x232c260995bc2957],
    [0xaac41cfb73dfa959, 0x10f85683df9051b1, 0x8e756b7b41c10a9a, 0x22a91317e4cd0f04],
    [0x91933f990624062b, 0xb66989dfdddfc524, 0xa9e265becaf3f6f0, 0x1789ef31e5469c8f],
    [0x85bc87df88a12f80, 0xbe96880b4d9b26d6, 0xf223bfcb038b0347, 0x27502f81423df0f6],
    [0x3b5711cdea0047de, 0xdc63e49db38b79b6, 0xec1cebe81ea14066, 0x15944d6894aed7bd],
    [0xe91fe8376c327cfe, 0xc43390e05fcb6ff8, 0x89cea134763ba602, 0x2d5d79c75632ff5],
    [0x181f9962c09ce680, 0xbe64ed69bd2aba06, 0x92b5ce1bfe95f81, 0x1f83f223b3a559ac],
    [0x9314f7163f14f642, 0x9becac29cbd9f569, 0xcfd5589de071e9a1, 0x1d9105ddf213b013],
    [0x12cbc8fb76715870, 0xcb581dd32be37ec1, 0x9b5439aa1630fe03, 0x2d8879a2f005d482],
    [0x22f82e3a7c339078, 0x3481b6e1eda04c4f, 0x40ddf7874dd4afce, 0x898f42d31a6838f],
    [0x38976f97497e51ba, 0x2856c1bdb4342e1a, 0x4a392d2b384eaeeb, 0x1e5273fcce91ec17],
    [0x6b5eccdee1740779, 0x9a471fe07c829d9d, 0x4b7bcc8d4ed630e7, 0x24a863988061d246],
    [0xf4eac20d4c23222, 0x2db567495a78776f, 0x461fe65fc25d8ef3, 0xd3f2af2fde3dc00],
    [0x967c73267e0dd64, 0xecfef9c498354587, 0x4d8ea6be3175f22, 0x11130f82fe058dbf],
    [0xb1fd60d1e6208fc1, 0xe794b6c9617b9a9c, 0x4376b35f28b7eb90, 0xf327ffc10a298ab],
    [0x376470a19189428d, 0x747d401fc30b477a, 0xb9ed85c48555e9b6, 0x2fc6a08cdc07224d],
    [0x60363374c038c62e, 0x9d10a95b096e2b7d, 0x305011699dcd1ca8, 0x1c33ad6d01026a48],
    [0xbcb861f1c1d88bfa, 0x45ce9bb8c941e2b1, 0xd4ebe957e2a4960a, 0x1e5457fba2d9da56],
    [0x9494f78a6f7d5ec4, 0x30bcfaf01c661948, 0x7dd395ce00036e05, 0x29d2839ebf586fac],
    [0xfaffe0d4724063e1, 0x1fd74e44d850f665, 0xd7bd4ff16ef911dd, 0x4d8bcbbde662005],
    [0xfa9420636764c7b8, 0x6fa8ccbcebfe3b4, 0x5cbd95f592a6184, 0x1f110564e1708c27],
    [0x62f6a8ed53f374b3, 0xe960a5d2b3740c25, 0xd281bfb900ea2b4d, 0x1588d891ff3d8526],
    [0x42b23181fff30907, 0x133f603ae0276ec5, 0x2708e3ed851a80e7, 0x639f2677710d59d],
    [0x59fface62fb5591e, 0xe63e397bd64ddbef, 0x47401585569f7b48, 0x2a2e29702f1ec78a],
    [0x91d7a718971dddc6, 0x7e80c9cd0f1000cb, 0x44f3e03e69e27025, 0x172b91ef6574d5d0],
    [0x4b17830f297c15f3, 0xfc42e2e9f034ead0, 0x3ba1de485797a6ec, 0x93f4d3b969bbc02],
    [0x4671865a04bbdc7c, 0x6db9b169af33cef1, 0x430e0947955e5b90, 0x1eb585e563cd03b],
    [0x30f0bd93c8ffcf31, 0x6ba80981c4694fd0, 0x9469eb274806d81d, 0x15167514d3235002],
    [0x943e4df9b1801237, 0x160fa7d7a739630f, 0x73597b9d50b9187f, 0x1240581c6c086757],
    [0x605289a3109a3079, 0x82a2490db8ec4789, 0x9490eeba9d3dbd62, 0x1598daab9828ae0f],
    [0xbb506a4b440ea560, 0xda674fedaea91534, 0xb97fee7e78b55d3f, 0x15f48fc5ee41eb8c],
    [0xac1ea3fcce1fe938, 0x2694c936f1573ac7, 0x54c71d40114a0bb8, 0x196b76cefdcc7f6a],
    [0x753e7b1adeeb464f, 0x19467aa1dc7c4923, 0x5cad14b6fd12c512, 0x6b19393be5286a],
    [0x631540c7695e0905, 0x72844177720a0427, 0x712a002a6f0bfe6e, 0x12ab8709e0b7289c],
    [0x900c432c4132fa5, 0x887d22a1e4aeac09, 0x1bbc0df72d6eaf0e, 0x145662a0788a01d8],
    [0x5f6dd2a040febb9b, 0x40b9d9e71d30e914, 0xc298137bc7e029f1, 0x1d403655755dcc00],
    [0x1c3d26cd0f615837, 0x758014dbad14bfef, 0x6c4eeed6cae501a3, 0x2370434b953dd1d2],
    [0x3c27bc2f64d198ef, 0xb41621f6fb8b52f7, 0x4be05489afc4b2dc, 0x1f13968a23ad91e7],
    [0xc054c7fd124e20c8, 0x7463e49e7cf74fac, 0xdf0240a0f66b310a, 0x3012f6382c1bffa9],
    [0x47eafa70d630c144, 0x7655c3094671a682, 0xec34887bfb06e631, 0x1da5c938033392ff],
    [0xf51aa65ff2adcb04, 0x939d9699e9a36824, 0x9cdef25e46f49e5e, 0x1a94414d237c4ad2],
    [0xcd2d1df72f83cd87, 0x18035d2b588d5ec8, 0xa21dc03c43eaf5e0, 0xa234e79999d9f55],
    [0x16e22c96a1140c26, 0x5d4405044b0e7996, 0x71e067316a8da87, 0x9f0c86d7cf4004d],
    [0xec2d43634170f052, 0xc0fa9cd678bf055f, 0x4b5fc96abac08049, 0x11bdf8824a0955d0],
    [0x50e8a6abf015d4b5, 0x5659dde0ecb7579, 0xf4998eb559ba0d8f, 0x20e74a475a9faf92],
    [0x3c6206d072f4d074, 0xc4e58f09a5353121, 0x7c2c396974a2a6b0, 0x1366321b06c12b97],
    [0x5c675241c3acf498, 0xcfd789acd7823e76, 0x6a054879cee1ffd2, 0x1b2b47e3ea9a39df],
    [0xae8ecb152bdb85ca, 0xa99affa50a05f8a8, 0x14b1aac9157ec2fa, 0x1e94a144e18eafc0],
    [0x94d87294735305a8, 0x4ab2aae650da63c4, 0xf9fa2464bfc67b85, 0x2fc95ebe62bfd5cf],
    [0xec7e31713d262bdb, 0xeff3910d832fb789, 0xeec6cab1d20f863f, 0x1ccaf110504e1fd4],
    [0x2bc4303602891d0d, 0xed40b0c945047604, 0x1ecd0f7a8fe09a48, 0x151066f81bfe7b4f],
    [0x121f1020e44ae43b, 0xfa355a2421d4a01d, 0x336d9f3ee1fb7d67, 0x22f0502a277cf27f],
    [0x6cbbf0227b5777de, 0xd0c06dab7b176135, 0x607fb6b7f3ed5d52, 0x234465d17d5ca11],
    [0x49546d934dbeaa54, 0x6783488f00b8cac6, 0xd73607dba19e3970, 0xee0c8ce14909dc5],
    [0x63fccf1eaec3284e, 0x5842b12aff081a81, 0xdd2963fcfb7172d, 0xc1a12f8f600bcd],
    [0xceb70050e6d26308, 0x64d960bfcd775816, 0x3b44b2fbf89888c6, 0x27813f720b7a7fee],
    [0xb5e5892feb828ae, 0x8247c352c97190b9, 0x8104a79cdd0fbb9e, 0xef129ae22754450],
    [0x6349db4f728bfe66, 0x69481cd107c16140, 0x2c6299cc6b43ba92, 0x1c59bcacb92f301],
    [0x79b13b6aaf5b4f6, 0x43503a90ba51855c, 0x4078a8d618105b88, 0x8944ab7daebb688],
    [0x25cbd3d2d62459fd, 0x27f923dac9d52ba8, 0xbd5b221d37fd0fa3, 0x215bf9136c8b81f9],
    [0xb7edbe8e6d78b598, 0x52a98cbb9bc1e151, 0x5017fa6372378635, 0xea608a14f0b4b40],
    [0x425a2bf2a6f84d67, 0xbee74db5441a6fff, 0xeccc3864f8c6e16c, 0xc1aad9a675df88d],
    [0x3833dc06ea51296, 0x83f06fef4cadd95c, 0xf35109af4c8c3779, 0x243e3a95bad03705],
    [0x6857f73e05ca3eae, 0x39ad172997c8ae7, 0xa0cf6083069157e5, 0x29afdf61d86b2558],
    [0xac1ea3fcce1fe938, 0x2694c936f1573ac7, 0x54c71d40114a0bb8, 0x196b76cefdcc7f6a],
    [0x6298b28501a5f04, 0xf534b01fd41388f8, 0x4e9cc83eac927ee5, 0x1a85e806efde07a5],
    [0x47478e7464a73574, 0xf5b703361a6ce70d, 0xab1a8506d4d588e7, 0x109d8bbad7c3c77b],
    [0xdb068d95b8e6168b, 0x7f1d91554020fc43, 0x596a8c3b5f3dbf1f, 0x12f04b1f932511c8],
    [0xba1f3e2ef46b8b21, 0xec1d912dca3fc000, 0x17fb393b23d0bfbf, 0x1f28636d87164d22],
    [0x48168e55bc1d701, 0xd336b355029b1ce1, 0x5e039047db38e288, 0x16179a1cfaa92c90],
    [0x71d70a14583432e0, 0xb7bc4ee2b9c62c28, 0xc8b54c4da1b1ff61, 0x16c3deac1173e14f],
    [0xcff0702fc2bf042f, 0x9e89f8efa4dea7c3, 0x10837dd7fd87d4dc, 0x176d6148624c45e2],
    [0xfc4a707961fa39cf, 0x4ebbf0c9c3cc4191, 0x6f1cdc4a084edeef, 0x20dbb69374e97753],
    [0x10d85300487b9ee9, 0xb23190eecc5f85f4, 0x399454c7d80fd38b, 0x2bab10e7b585d418],
    [0x1aaa42c5111d232a, 0x9779ec581cc283a1, 0xa0476986be6d6d71, 0x1bdb9ff621833468],
    [0x1bfd536900e9f7b3, 0xd55e799008cdd4f9, 0x5eed7f1d4e5d8418, 0x6660bc2be087e50],
    [0xdcd66cb3d363af5, 0xf49c83d63fe74a40, 0x7f813f245fd8b7d6, 0xd4beae63787b344],
    [0xdad7fe9b4c57886c, 0xe8dd521aae874d97, 0x64000a928b3b48e2, 0x1d76613f447ed37b],
    [0x20f3d27ce32677e6, 0x5c12c2ea4c562bd4, 0x37a045561b620538, 0x1f84a0ec9dadcd39],
    [0x87a5a302f1d86fd4, 0xa931d90836496316, 0x4745b305080c881e, 0x1f6424f12e695056],
    [0x52d316537a891fde, 0xde0601250e398221, 0xebf137a656988397, 0x2bf626dec6b3c130],
    [0x2f7e9587b851de32, 0x540fa1d34e6d74d3, 0x76639ae513fa3245, 0x134731482b66f877],
    [0x872d86012e2fc8bd, 0x66c18abdf0d8b90d, 0xde1317a4e3591aff, 0xcc894c9be43663b],
    [0xa6beada80c7091e1, 0x3fa81c1efc12bb80, 0x25c64d8513be14cd, 0x22e690f849919401],
    [0x4d5904044d9cc1ee, 0x8696c5561f01e950, 0x6496ea198bfae140, 0x14287659216a6cb9],
    [0x28fe93aba30b1621, 0x8ec506dec2d4d72b, 0x48e0c64dd6633de1, 0x237b66703bb797da],
    [0xf0feac86d68ebb14, 0xc1eb1dab575d105a, 0xf85acc8d641a362a, 0x1eb201c3e2663322],
    [0xc09a24285fd53e4d, 0x22df5e7749dc0f93, 0xb0d059f900572f82, 0xf2588703431e1b9],
    [0xe0f9a1a11cc66484, 0xbfcc0736f621216d, 0x1060ddc06eacbfbf, 0x18a8905e765a49b5],
    [0x5642ae873af4a53f, 0x9633fd5310840e72, 0xc342b585b49bd099, 0x10e1e120dbf75198],
    [0xb1a2e0670238de99, 0x7e28b32dff7dd8f, 0xb00fc135ad071d9b, 0xe65310148d5dc0f],
    [0xa57ec6fece7639e3, 0xfe9d9d07f906e24, 0xc6227c810a51c54, 0x1b924a6cd822b0eb],
    [0xaa297d590f7806bb, 0xc92ae2f175b39671, 0x9f6adf3a23f1dc38, 0x14f708f7a7c1430e],
    [0xde9359334891b5d1, 0xb1dfba1798b30681, 0x2a473b3610adc0b1, 0x2c870cd5699f7a40],
    [0xf8107f7cbc5ab058, 0x81bc47c131a3c6b6, 0xa8efdda84b35034f, 0x2c2793cd489f2a0b],
    [0xd8f15277e31842b6, 0x41608d34b82c7dc3, 0x3685af0b508c3b3c, 0xf12b486f743b861],
    [0x458940f318bbefa3, 0xe224a3169e6ca958, 0xc358410548ba3c53, 0xea23cccde8252ad],
    [0xac1ea3fcce1fe938, 0x2694c936f1573ac7, 0x54c71d40114a0bb8, 0x196b76cefdcc7f6a],
    [0x7bc17d31566ca3b, 0x2f065b8a9db8f2ab, 0x136d0d97f46d5f29, 0x1e5a6dba6fde6063],
    [0x4f99e0461496897c, 0xa23c142a45994925, 0x9cf508288a809476, 0x2f5bb6281fb3085c],
    [0xa4cb63a77ef5b696, 0x1c2d4ffa7037d0d0, 0xd63701c3a082ee21, 0x230133fa9c214b6c],
    [0x84b5563b192c7803, 0xdb3800d97c164002, 0x153d36b636a7af56, 0x7b9beb8ce1dd13c],
    [0x291c8f71222059d3, 0x5f58eaa44c0fc207, 0xd0c79d7f3edbbaab, 0x18a62bd663f364bf],
    [0x97b69858bbf39108, 0x3dc8e6ce22964f0e, 0x90974de34558921d, 0x909d7276a02aac1],
    [0xc653cc69a8e62310, 0xced8d81d8d23df3d, 0xeb403e7fad07cc9, 0x191ce266e49cadd5],
    [0x5a11d443aee0c906, 0xbc773dfb542428d4, 0xb72c6d730674b53c, 0x29cd029dbaf281a5],
    [0x94c7cf2f799e545c, 0xddcbde4e97a3edd8, 0xb1dc32d86d32a8e2, 0x1235f2e3aa2a5663],
    [0x45fa66415c2dbc12, 0xbd0c206d663f41d1, 0x34d840a94d25a3b8, 0x11310308464e8050],
    [0xf3a0abfe94fd2392, 0xe21365aa1edb39a6, 0xa29631206a6befa6, 0x2007f67c3b1d638d],
    [0x5d2537983fb6b913, 0x84369a4c6e451c0d, 0xa614ad1be6fea1f, 0x121d527f117db7b],
    [0xc8ba2d62701aeb80, 0xdcbc125e170dc7b7, 0x3d55e7b5f8753ffd, 0x1ca4a6c7ee32ae8f],
    [0x3d249b3ff4e64802, 0x213d654435b5d259, 0xee5584631e6f331, 0x2f4ff9505df9f5dc],
    [0x3d93411262351327, 0x928d839d07c8c9a, 0x5cb8ad1b1510d415, 0x186af707cd192704],
    [0xd4d208cce95055a3, 0xd4ace7deb24f78a5, 0x19c579ad08328807, 0x291caa38b2e40831],
    [0xccee794d78c0faab, 0x6aa90006a6fa74a7, 0x5dfd0aaee64cb42d, 0x27e62d562d2936ef],
    [0xf393ac9bbfa63444, 0xda02f453dac5b2da, 0xfccac547cfb1aab2, 0x2706ec2021ef6f28],
    [0x5c6e61706cde5a5b, 0xcae75c92ca37aa5b, 0xbf73840601626d94, 0x2c6c0b69710326e4],
    [0xbbb3f8e6da3f58eb, 0x71ccbd028c70ada4, 0xee7a4a3177a8ee45, 0x3bc51987425528e],
    [0x154ed75496186025, 0xa2b22abb42cd67aa, 0x7b918e5b6bc3dfdb, 0x1273940d422f16d],
    [0x901fad214e0dac85, 0x35f3d87d5d68f3ae, 0xb67c86378c9d8d74, 0x253094fbc334240a],
    [0xbc9243957c20133a, 0xdeef3e00b3a6c3a5, 0x920c54c9d203f88, 0x1cda718ea0bd4ae4],
    [0x8f8ba14ef8221ecc, 0xef423fab29783c9c, 0x9815951c72a099b9, 0x125308584766a4ec],
    [0x71dc248c6b856b44, 0xd47871751ed3f0b8, 0x847344cdc8439079, 0x130af16ef6729327],
    [0x43a16092170d7040, 0xa9e9c077d3b2724c, 0x8c91be93b9e666cf, 0x2f730d5dbd23018d],
    [0x4a5feff049aea2c8, 0x56aa660b0d663b05, 0x5d3742e03bfbec81, 0x278ad27534ef1afa],
    [0xdba34e49653c6169, 0x1b18880eaab4256d, 0xf4afec1841c74aaf, 0x6d35c831095f5de],
    [0x89fd2db2d9956d24, 0x32b6673655255c41, 0x273c506031de6f4, 0x2a9eb03bb2a3ad11],
    [0x7468a7bd0e47056b, 0x35903b6d795cffd2, 0x85f4f72b4024855f, 0x237bad6e8955fe04],
    [0x92c315e5fcf26150, 0x6b95b20c4d40f913, 0xa648bc6cb1b31ee3, 0xee091319736fcc0],
    [0xb50c752f9371a96c, 0x81958057e9b898d0, 0x9cb0c93989b291d2, 0x40a730f39a665fd],
    [0xac1ea3fcce1fe938, 0x2694c936f1573ac7, 0x54c71d40114a0bb8, 0x196b76cefdcc7f6a],
    [0x387722862c449cfc, 0x6032ca0fca4bee9, 0xb1c9b3fac23fc86c, 0x30478f2543e91a3],
    [0xf75439c8a09f968f, 0xb13d9b9ea06fccd0, 0xf4ed64394473fba2, 0x41b7accd8054a88],
    [0xc221eedcb7e935ba, 0x50fa47827b3d4df0, 0x80c43172a833a6fa, 0x11bcaaccaa00dc4c],
    [0xa420c15355b43553, 0x58b91f5a4cd2bfe, 0x3c53b104a7d1e127, 0x1276b1ec4d51cf2],
    [0x7a2f465b7f8f6de5, 0x7fa9b32babf27004, 0xbb47ec061c7e6a2f, 0x144dc8dfbc21918a],
    [0x4af9d98619dc8f53, 0x22852346b18ffa58, 0x308af0089af19da3, 0x1dd046beaf1e8476],
    [0xe261d197a4a1c071, 0x43d259d8c53c8e0d, 0xe03a16d79c942981, 0xfa7e283d56ded23],
    [0x920b2a1de8fd1316, 0x216fa7ed9d60a4ed, 0x5e98efdbc5bcb57e, 0x2e1a819abacfadb5],
    [0xc96559cf21b28570, 0x60aaa25bb3ce9f7f, 0xf778f742bc3bc00a, 0x256938ee3b182642],
    [0x6c1a8b73c023284f, 0x2996913cab640a00, 0x182d8b44d893ce32, 0xe6a334e357792b5],
    [0x82c31776725da906, 0xeef556f092b2b17c, 0x9e0cbea690ef583f, 0x24073e4154b68445],
    [0xe54d79894ded6c80, 0x1b413b87c6d8c8a, 0x37902dfb1e186919, 0x2dfbe4b1760808ac],
    [0x1126f1e0d447d951, 0x3d47964873d86ea0, 0x29e1efdde6688fa5, 0x20f447f6a67d3b89],
    [0x4c9603fe6d353d01, 0x85f486161ac4ecd6, 0x15431cc2b64b61f, 0x2c502b5ab202577f],
    [0x2de9006ffa61afb7, 0x941d48d30932a09e, 0x5ebcc686b7198604, 0x5caa2b6ed2b850a],
    [0x5d9e547b3a5c751d, 0x2cda27b543a1bad7, 0x2a4d51c2979cc1b2, 0xa3d02ec260b02ef],
    [0x5cd089b9e4537843, 0x65d052f442a41721, 0xc2427fbc1d6936ea, 0x724bf5486c9bd20],
    [0x858932665fed66ea, 0x995c9adf2624daa, 0x3d92e86ca287a885, 0x1ea84269caab7c27],
    [0x76512dfd92b099ef, 0x5319cf529a7a1d50, 0xb9dc6950af38af6b, 0x1d7e6d3695ae5003],
    [0x69fd51caea4fc246, 0x934c42f37f8e1dc9, 0x8df1bfbc45d79b13, 0x99642d891092eaa],
    [0xae568c34990fc705, 0xa61fc881aa82da20, 0xc14c1fc8aa290ae, 0xb94bf0fd8f90704],
    [0x53fc5f6fd3361375, 0x21e5264710563552, 0xef2ec6b85c97b5af, 0x28fb0d75533a8263],
    [0x47285dd891e77eb1, 0x7ac9c04b9aa2d8d5, 0x66c111c8d3fdbf0a, 0x10480841e4451bf3],
    [0x8e77d15cf7107ff6, 0xd7bb1a15b32ad367, 0xa089aec971f0cfb9, 0x112274c48dece347],
    [0x973dc0f658275f5e, 0x8ab8a946fef1174c, 0xdedd2fac64c324d8, 0x1a8c6d411ddc6e2],
    [0x84f7b53ef5c3cd87, 0x56bcafa3cf455901, 0x396be874d02c03de, 0xd0a4a998536c490],
    [0x33bc7b7f256e7c67, 0x4e654988b63d9f99, 0x5c825f4fb8fcf863, 0x22016b957df82fa],
    [0x34883fa6c322b243, 0x39076baf6151f17, 0xf6c7d081a2d50317, 0x26d2a9b0db83259],
    [0x8bd81d13e1f8aefe, 0x1d6876e7fd2907e9, 0x58dbea8117f435f2, 0x1593b4f33dd30532],
    [0x507a57739ff76185, 0xb685e3c090acf3e7, 0xd79b38b842b0d420, 0x1ec80ad7ee2b685f],
    [0xace5d566e1308eee, 0x266dfa7178674888, 0x8513cef083fbba91, 0x10573113bb0d41c1],
    [0x1354ce434de989b4, 0x74d4a040ddd6b043, 0xd5cf5971ee92ef31, 0x2c5bca238c2c3be6],
    [0xac1ea3fcce1fe938, 0x2694c936f1573ac7, 0x54c71d40114a0bb8, 0x196b76cefdcc7f6a],
    [0xa617f88ec05513c1, 0x7b7a1be7baa3a3f3, 0x97950c50dacd539a, 0x2f77238c057e1877],
    [0xe6312c351a4d5ef7, 0x9c40479908be61b2, 0x5b37a9af7f6d97b8, 0x1e4b327ddf07cc06],
    [0xb56362e121b0c8a5, 0x7940ee5f4f8c2b1b, 0xb12a2a3013fb6025, 0x1fa0048409da60cd],
    [0xa62b649c45baf1b8, 0x43db8c7ec965770d, 0xac56a756f5ca943b, 0x1c92ce2c35358268],
    [0xc526dcb93e768c73, 0x4f09b703a344b752, 0x66055eb6cb404b6a, 0x25a62912bc39aacc],
    [0x83ab3307a6aac793, 0x735f48fb2300a7, 0x4b00dafa6fdb33ed, 0x2f3e3c91be6f5b03],
    [0x2f851adeb397b5f8, 0xc83ebc31cd47ecff, 0x5b743e3ab8c2749b, 0x12618073f7260652],
    [0x6f59925c0670f85, 0xb33ecc0c23d7b3b9, 0x930b1ee9a4bbbaf3, 0x7e1a14a5fe9a127],
    [0x4a015aed45003576, 0xd1f2aa25e05310a4, 0x8a4eaf241031b69e, 0x185866c20721e101],
    [0x16c349ff191ddbc1, 0xf42df6a83cba95b0, 0x36e47e83b67e6d53, 0x1845f9656990a68b],
    [0xf3037165c30444b1, 0x90bc846621ddec2f, 0x416c2c52cc651c26, 0x285db5bd04516aa0],
    [0x8b82a370d59ca295, 0x4101e0fb4b6d3ac3, 0x489232f2d060182c, 0x230697cd1a79c303],
    [0xb1d7bf560b464bff, 0xae9a252ebc7445ad, 0x16f035f323d6acdd, 0x2d5d42436b19bd49],
    [0x4d00f19cd804fd87, 0xbd7c9a5afcf160e4, 0x69907524ba5bffbd, 0x1ef94358c9042466],
    [0xcaf6dbf9cda9f8af, 0x6c053513f29991bf, 0xbc2a69edb37331ca, 0xdc902c1c2f63aae],
    [0x9139bbf165f5e331, 0x662bc77e2b4e16d3, 0x54fa5bd1156da5c5, 0x38cfec7101b2ee9],
    [0xdc39f0321af50fa2, 0x9f3a45016a61c2dc, 0x1ee3c7edbe86d7ef, 0x23940e1b0657dba4],
    [0x68dd3f24a406e969, 0x4c092bf5adbf9d42, 0x1c8feb5775c63920, 0x300efb612aa09a72],
    [0x5d39843068dd5679, 0x7c8aba62feb69e89, 0xf40389418576088f, 0x1cdaab41d8141524],
    [0xa1a33ba14879d0e4, 0xf3dec9964753a2ca, 0xeaeec71e31b19518, 0x1f035b6f957e84c1],
    [0xc86715cdd25237fb, 0xa179ff61e7988ec8, 0x88329f94545bc44, 0x9ff1b666e47a433],
    [0x435f383af68f7d08, 0xd431fcd77b46a5b4, 0xab46f92a80e303e5, 0x97ad004ad339a6],
    [0x37f7ac895886dc1e, 0x77720cb8fe77369c, 0xe30d786a0e283f08, 0x2189b934e1602af6],
    [0xf84e18bc6414ee74, 0x813e437099f71263, 0x4e22209d72837f9b, 0x1903bcde38ddde1],
];

/// Part 1 of the sparse partial-round rows for width 17, as little-endian limbs.
pub const S_DATA_1: [[u64; 4]; 256] = [
    [0x905a0fcea98f6452, 0x2001c9e6098d6ece, 0xb9ded51e9cdbfeba, 0x81887e6be9c14e1],
    [0xb682188ad55561ad, 0x970af2c6d49d469, 0x3e9292336fb6573a, 0x26c7af1f1cee8656],
    [0xeb62ca9e4e71fec5, 0xc32a26dea21da00b, 0x78c9da82c9102df9, 0x243e21405367c02b],
    [0x4b9151b1de10a78a, 0xdd6c2e9a05aef8ba, 0x321e7b63f6acddf3, 0x16e3e6bb95f28d2f],
    [0x20d5265f225a84f4, 0x14506ad3094f4404, 0x740c07513612794c, 0xb011142c18c2fd3],
    [0x7cb20ae9f0addc3, 0xa3d0c942ac20f6f4, 0xa57d3d82bcb1c294, 0x836b51afd8ef110],
    [0x9b1735ab22d95565, 0x3f35bd50de464d5e, 0x27529e8675e5e58c, 0x1ef12a547707d7dd],
    [0x464302c5f62c5776, 0x8b8ea0ac2fde6f6d, 0x16586107e089ccb3, 0x12f1b456a3fcabb1],
    [0xac1ea3fcce1fe938, 0x2694c936f1573ac7, 0x54c71d40114a0bb8, 0x196b76cefdcc7f6a],
    [0xf829edd7c84ff5e1, 0x8bf3a06c6f9024f8, 0x4104a5a608cce0d2, 0x16e23bc3ba612e8d],
    [0x8aa30dd5baa6dab0, 0x19fe512aa2cdd643, 0x9b358d998961b47, 0xd4acfcea237e440],
    [0x186431c535ed46fc, 0xaddf78c3a0aedea7, 0x59cfeb15461f0222, 0x93cad17aaed41e7],
    [0x926f9f131a81d5c0, 0x14e398dad56de9f2, 0x301db582f896b8e3, 0x25e68166acd241fc],
    [0xd7e16d577db060c, 0x4f7119523d81f88b, 0xfd5dac87ef974ddb, 0x8d9b1a38c7c71b2],
    [0x980a366e4049580d, 0x51ee41f96f71cdcc, 0xde288b6deb00b6ee, 0x150c5bf06a071be6],
    [0xa5da8176154f089, 0x9c0bea1228df9fa9, 0xef263e570250e25f, 0x1820e0533ea75404],
    [0xcb887d195e8da899, 0x9188f10f71e078db, 0xedc29145ed5f060a, 0x229fc7b637cf8316],
    [0xdb1c3fefe643dd81, 0x499751a0a9c784ab, 0xee63996481a28466, 0x1cc5470c6bd5d73e],
    [0x4e25c6039bee8f4, 0x4860fac1a2fee9fc, 0x53242a11df821ba8, 0xc4da78b5310d048],
    [0x7db7060ededd2bc1, 0xa53aa526fd3f1192, 0x4b23e67ebb28b2bd, 0x94cc155e114ff82],
    [0xf09fc3c6be3a93c8, 0xe1fc7d9e2eabf893, 0x45a657250172181, 0xdd872678b808e11],
    [0xdd3a2566ff9eb716, 0xf7069a0de0454e5, 0x6d01ead266a37132, 0x2177c7830ac6b2cb],
    [0x16a6561430aaf72e, 0x162265e9e814b851, 0x8b1041fe3ed6e08e, 0x232dd9ffd97dd506],
    [0x374390af8ca39b4f, 0x9d4d1e669ed7de25, 0x4d2106931b316080, 0x87726ff3cabb629],
    [0x440994d8b5dcd35b, 0x65c8e9caacc4f42c, 0x929ecdd65f7618ef, 0x364f607b21cfb12],
    [0x43ba71521edeeb40, 0xa7607eaaf40c8808, 0xbb23ae2267693c7d, 0x304b195fa0bffadc],
    [0x20a7862272b06749, 0xa5aa7ba6d20e2c54, 0xf4f0278601232bc0, 0x196610368a8764fc],
    [0x62d7008069c89dde, 0xc691714304882820, 0xe86d87d7bc87fe5c, 0x218f52826b8e2b82],
    [0x8c919b35263c1343, 0x7405c1417712b38, 0xfe706545d1cc154d, 0x2a70f39b2d8cf212],
    [0xc3417c474fcf5032, 0x527414ecd718a923, 0x25badaf16b830538, 0x65be4ea4d6caa41],
    [0x78f034c80291d964, 0xd94c9f23a01438ff, 0x9c86b69eebb3f0ac, 0x527abf8fa6b6455],
    [0x4be08ad173dd424e, 0xfadb3a020605cc47, 0x6d27cea17fe9b493, 0x263078abe4570cb9],
    [0x1867e246e1f36736, 0x489c6cb8da6a862f, 0x19208335d4cccaa, 0x2616b2e0a8970da8],
    [0x7d6cbda3e8b7bbd9, 0xf18d395ff01165e7, 0x768f0fc8a5a2ced1, 0x255f2df1f986f154],
    [0x26bc14a968dacc80, 0xfa02ac32556c9ab8, 0x292f980c957038ac, 0x1806ff1795d9d6c9],
    [0x7d3138bd591dcfbe, 0x520d8a8bb17abe20, 0xc067858844cd395a, 0x871baf013f2fb16],
    [0xa1a48fa27312484, 0xcd3bdf84e05cbe0c, 0xa71a82644c20dc23, 0x28f0493d5c747880],
    [0x1bd896a8205798fb, 0xc4881a56784fcfa2, 0x41c787b8611113be, 0x2a45ef02fe1dd416],
    [0x33eaf5b2b480f6ce, 0xe85fae72ab73c6cd, 0x34b968e3f8713d66, 0x7ed262400e2c669],
    [0xe1b4c54e5feb2f7c, 0xc4beae81a076d0b8, 0xb3bf3bb04af70532, 0x17984162d397a2b3],
    [0x4123982adbf54cea, 0x603a30c42d6d631d, 0xb9594241dfeb6576, 0x296ee291fc63605d],
    [0xac1ea3fcce1fe938, 0x2694c936f1573ac7, 0x54c71d40114a0bb8, 0x196b76cefdcc7f6a],
    [0x61147f2301df7c31, 0x8d206e8cae12e53a, 0xd4516ea4768628c0, 0x19933fc7d1aea36e],
    [0x39f56a6f595a59e3, 0x95556de653bcf502, 0x2f4e2307f7ee3388, 0x2efd792c56ad1903],
    [0x38db5bb9f54f352c, 0xa570a626e7812f89, 0xca3162b0db37e71c, 0xd6c9475058e6029],
    [0xd4e48a8b12d0d7e5, 0x2477619bc8a37237, 0x6592e0348ccb4fad, 0x2d6e38ed12eda385],
    [0x18385857df475aea, 0xc1a4eaf3c224cb8e, 0x1236933e2596905e, 0x1b22798bb6b6e571],
    [0x3cd6d871ac0f9cb2, 0x798e5d7e6b6c9312, 0x279d82f54770acab, 0xee2bfadc6c771b8],
    [0x2743e287594d7d54, 0x32ff82f425264dff, 0xaca40550618cef0d, 0x21dc8e7e1951b62e],
    [0xcfabadf765d2b48e, 0xdfe881a7654af175, 0xcb11f489a17ab323, 0x1e75bf782b602b28],
    [0xc017f6d43cfa563e, 0x154f3579016772d, 0xa8498df2f5d5eb56, 0x2c49b7045f45347e],
    [0x49c1aa4baf0f2312, 0x77833e2368678c64, 0x7b9c0c25c0e8ced4, 0x1a0ac37735eabe25],
    [0xd6b76212ef339560, 0x4fba2c4a06d248e0, 0xebeb34838610578a, 0x1f35e213914c01a5],
    [0xf3944739edb00a52, 0x22440e4b06543b6f, 0x8f53ed5a9ac5f298, 0x236ab082f2cbd266],
    [0xfc8c3dd302eb70ee, 0x58fc399671ff29f5, 0x143717ec4e8b0afe, 0x12261534f09c4b4f],
    [0xa8739d85acb3127, 0xd7ce42bb1ae92884, 0x8e90379b3abacea1, 0x1421d8d32235caeb],
    [0x556b3256f0c551c9, 0x4912e3b3c1a8ab3e, 0xce3a3a83b7da1880, 0xd330afe8be63d8a],
    [0xafda8ec393c0d2fd, 0x133d54bec37000b9, 0xc4729a6c84d523e1, 0x1563b55edf443890],
    [0x8c4b86651d2fc253, 0x2982e3eddd62f750, 0x56867f42f64016d7, 0x2f6aaca00913c8a0],
    [0xe1a11aac34a4ac59, 0xa424857218573585, 0x931907542909a9a8, 0x2f31927a218ce8d5],
    [0x84cf65adfb1d65f6, 0x8a8bc3042410d29f, 0x47ee570fa2cae800, 0x2245d56c69c9bcbe],
    [0xe935b3ea5cfe52f2, 0xdf112eff86b9fd10, 0x96bcfb5acfc3a84b, 0xa6d1a50326bf870],
    [0x18143b97204355bb, 0x4fe4b3428e65d4f4, 0x9f3ad6737417350e, 0xdca2fcb2fca3541],
    [0x63e9bbd8820f568c, 0xb513aca79eca0a66, 0x93f365c7ce6d5489, 0xeff0d35806c692f],
    [0xd33b769db1cdd0ab, 0xcb968e9e3054833c, 0x1f57a5a10140d4b1, 0x761a1a536cf23aa],
    [0xf9e60bb0808feec3, 0x533008ae70634bae, 0x11984cb95f691ad3, 0x4fe0a5f272499e1],
    [0x98d45f3951df3d79, 0x9818adcf5104c8da, 0x67cbaa9678321439, 0xe5e1a69a0f2521a],
    [0x5f2567ae31b74cf5, 0xc438459f9b912b3b, 0x2828ad563e8a6d6d, 0x3042f99a1751ea96],
    [0x789a3bedbe15fa65, 0x9a34740c534690ed, 0x6dfc7a0fb01c5abb, 0x2191f2dd5699e7f4],
    [0xde78b591a97b87e6, 0xf481f3e89d2b65b9, 0x9c9c24836655683c, 0x17886ed47f13d1d4],
    [0xadbc995c417fc3, 0xa4bf4ffe9355c194, 0x3fd9f7851782516d, 0x1913d17541b234d8],
    [0x98a77b67d0f59b89, 0x46ae0f3b86d0d948, 0x400e390541cecf51, 0x271e99ead6dfaff8],
    [0xc8d0264715bb72e1, 0x3635bf131089ca8f, 0x4ae8b3e7a2b7ef12, 0xb57c116f3a60709],
    [0xbeed04e47aec7e78, 0x6ad25c9aab94cbcf, 0x7a5ab64eecfbc502, 0x1e097d47d4a82b79],
    [0xac1ea3fcce1fe938, 0x2694c936f1573ac7, 0x54c71d40114a0bb8, 0x196b76cefdcc7f6a],
    [0xad014948c174b971, 0x68d7fddeb7951b01, 0x212be55e8e6ec2e4, 0xeff65c0120d6929],
    [0xd20944df27d1d6f1, 0xda9510062ee81821, 0xb34987d445e22e3b, 0x2a5c1de1bf17f1fb],
    [0x98fdb2487afffc91, 0x94704d2cf4c21424, 0x2288fd73abee979, 0x106178470931e69d],
    [0x7f5b2afb2b2c8b4f, 0x250c1bc16c040601, 0x4570838e8f5caa47, 0x1f2d17deb1a25ec0],
    [0xa7edb29557118c00, 0xeaf9a4542c959d9e, 0xa11e2280038ded37, 0x1ded3f9efde2ddbc],
    [0x7dc92a375b1d95bd, 0x1f532198f34588e6, 0x9aa39e4331d2fe2a, 0x132611d30c21b490],
    [0x9fab3518f420e751, 0xaf621071cd0aa675, 0x72c7a0db20ad4626, 0x2f5741043ed87b72],
    [0xc05ceb47da0211e0, 0x14b26b3080022997, 0xccb82ddcf1cab67a, 0x20749c10519279b7],
    [0xa5095b53f2eb994c, 0x3d14750534b107d1, 0x8e0eb8fcce01ad90, 0x2f4b12cbeffe89cc],
    [0x6039790db1677211, 0xe128fb911926c439, 0x18e2bd2c1ace4309, 0x19f437a4cf9d69d9],
    [0x5035436a4fe99084, 0xfc07677dbb3927a5, 0xeabad7d3a9c92a2f, 0x2189142b8e8e62d3],
    [0xc220357e87e0444b, 0x99f85b20d1232ccd, 0x4397613473add317, 0x26deb902804c50f4],
    [0xeb914ab2339be82, 0x784301ea76cef8af, 0xcdea6274969507ba, 0x60feb6d13dc7538],
    [0xfb9e610933b1728d, 0x793ea5beac349c3d, 0x40f761558e2005af, 0x76ef42dd0bb0698],
    [0x2b732967fd4e936b, 0xf53cb169739bf7cd, 0x670fa990fc293f89, 0x21718df0edbd2d21],
    [0x88ec4ef9e58eeb22, 0x563dbee2b9edab33, 0xb7a314fdecdd1dac, 0x21e9e1015d05a67c],
    [0xe15edf3cbd724f8e, 0xc1e0d89d8806e199, 0x9d39321d9b843cdf, 0x5fc174109c8e777],
    [0xc0706b31bb43da3f, 0x8908a11d1443ee30, 0x4bb6527c1abe5d75, 0x96aa7b7315c181d],
    [0x19e085edcb46e0d2, 0x6ba5d39cae9cf629, 0x17a40a9e80b4f651, 0x100171ff805f808f],
    [0xfc077b5bee5680ac, 0xa9f377f6dd42e9af, 0x6a7e7bcb50264b66, 0x28a6f6698a4d2572],
    [0xfd072241d02cc624, 0xaca5924509c892c1, 0x484f1f1873eb38a8, 0x2be4c72e7f354219],
    [0x7ec24bf5ce8e532f, 0x845564e057c64165, 0xdb63a4d011a2ff38, 0x120e09a9b5ba1d13],
    [0x4931d2e29a923da9, 0xd6f19cb8d4d5c855, 0x7e620c3010acf302, 0x26c044b1e72e2ed8],
    [0x912eb7588469471e, 0xd14f0803d92f67d8, 0xdae27f189970ae10, 0x1621a950244b5d32],
    [0xe29bac9cd827250c, 0x41f05d16254116d0, 0x54bcc816f308c2e3, 0x5065df755c536ba],
    [0x37b73a1e636f43c7, 0xed3414ba2dc09eb9, 0xd9987e38bff84baf, 0x18165ae1001648c8],
    [0x2b6451977a1cfd14, 0x1b2a0a8c75fa6b01, 0xad6fee65deb27c50, 0x2e84dd68cccd069c],
    [0x9f7fd55c543ce635, 0xe59470cce43250be, 0xae0f4ef731251a4a, 0x29868ed0bed932d2],
    [0xffa4a09a015b1e22, 0x32bbed4a8cd4216e, 0x6eef0021c5646463, 0x296b41ce4bc8cdd0],
    [0x18063db872028d57, 0xb296c941f0dcf1af, 0x9fd96fbfa1cf187a, 0x2c1558f35552fb1f],
    [0xce169dbd7ccbc769, 0x2278d9aefaf78a42, 0x1e92b310a9bd1b6, 0x8b1bc5debafe2cc],
    [0x163a3e778092fb44, 0xd342ff26fcc11adb, 0x7efbd86bcdaa1fcf, 0x2c64eb96b29fa0e0],
    [0xac1ea3fcce1fe938, 0x2694c936f1573ac7, 0x54c71d40114a0bb8, 0x196b76cefdcc7f6a],
    [0x53f67467c3dc9cd1, 0xfc20e99b393b2a3c, 0x50565e3041b09d79, 0x1942e0e4dc6666d0],
    [0x3b3abf75bbb593a1, 0xb4e4cda33c07d96a, 0xb44cda5669eb8c81, 0x2a61fdc217a0fd51],
    [0x91ca88267de9fe59, 0x9dbdfe04e1ae951e, 0x49d1614b032c86d9, 0x27676c9245df29af],
    [0xfe196ac36fdbc5b7, 0x107f6e7976c76a36, 0xf0c12eb768681ed7, 0x796165a50209865],
    [0x1629e54eea175092, 0x313b6d0c466e0c4e, 0x47c90b90e13d290d, 0xc3ee0c7cbf86234],
    [0xb512adb061597f20, 0x7ee91571c1bdcebd, 0x71ba49ab8cfbe88c, 0xca789430e09c729],
    [0x1836cc0632c955d, 0x28f86f30e893fbc0, 0x8d1fbe3c55b15ecc, 0x55c78ff2ca4e60c],
    [0xb211acc3b124e31e, 0xe4db45a651b2d9e1, 0xe8750e4fdd1b51c9, 0x1b1ed198ea5aff5],
    [0xbf771134512a94, 0x554e5c41ef4fd6e2, 0xb6f737ed1ef99bbf, 0x680a0131921ff15],
    [0x9c6ab490716f4bd5, 0xdd61ce1dcbb160c6, 0x4a38a6afd056c49e, 0x1c04574d4f435df2],
    [0xacf3f36fb7feba36, 0xc30680dcbda765fb, 0x47e689a2db091244, 0x1f79fb349db705a2],
    [0xe3feef1c310baead, 0xbc9802f11bfc2669, 0x2c330a5d26eb992d, 0x1b6f45bdf0ed13a8],
    [0x6369fc4ee9271584, 0xc359a932b676c0ba, 0x3869f6bd81e5b7a0, 0x1ce38cb2bbdd94c0],
    [0x47f4c83a41a2d29f, 0xcdd865fd8a19ed7, 0xa0b6eb2d6c44c56f, 0x2d918f60f8c7be29],
    [0x1cf9811c71c1e2dc, 0xa5bb8c1dc434570d, 0xf7ec39c3be4de1c0, 0x2b1e6bef26c3c2a5],
    [0x9ab8091b06e3ce3c, 0x85ad15966fdb2680, 0x7412d2789b101449, 0x18231a4625a11e05],
    [0xb35482d6347fece1, 0xe77a8071a279c726, 0xf98dcaba3a5c2023, 0x2ba1777ec04222a9],
    [0xbeca13ac2539fa50, 0xb6f1a262a4d03517, 0xe01e2360e02bc855, 0x183e2d6301b1e472],
    [0xc368bb145c6978eb, 0x54eda85a4e015ef7, 0xa45be6f77f5a9d0d, 0x4e6c329b88633c6],
    [0x4d9d000828b94fee, 0x60fb541cc225d0d8, 0x398417386d87f4f7, 0x1f7d2b53a2456c0d],
    [0x51b9774d61dc480b, 0xed2ad47f6a7d4a50, 0x62f36924ade2a783, 0x1e7e8f07fc7bd7b4],
    [0x1a9bdff0cab20781, 0x48eee1f6ed33157d, 0xc6da82f6c3787aec, 0x8ee6dc4b9baa362],
    [0x8d50265832471e92, 0x1a801467ab97ec9b, 0xd259a7ae19e5b78, 0x1fedf46ce5f0967f],
    [0xc74ca927a018403e, 0x44dcad28affdde92, 0xad3401ad0473fed, 0x610a62079b0c8c0],
    [0x7e867ccf9e5010d7, 0x6ad2eb7017eae7d9, 0xa1f3d80308531ea2, 0x2f8dcdd501988f6d],
    [0xb64b00d3c48fb730, 0x37df8499a589dbff, 0xc0fd6a44e549bfd, 0x2bca9ade6aa068f6],
    [0x5ff7a38d698c1c1d, 0xe315fe92a38fdd0f, 0xfd02830d4c4c8a68, 0x1a145fd2fdce8ce3],
    [0xbe0120631da540f0, 0x6a3f5f9de40edfbf, 0x988b1601616c7075, 0x3874b554c5bc6c3],
    [0x537843f63b378e8e, 0x811fb70d9fdb5c2d, 0x9d3065a505fd42ad, 0x2eb0cb6d015c48ad],
    [0xbf20bfe5fd114b83, 0x28428a6bb434c6d7, 0x89e8f03187a07238, 0x11454221dfba7bd3],
    [0x51d0a90fed4ea8ff, 0x943a3ffd25f6a1e9, 0x329a80b0b2613bd9, 0x2a10c14110838c69],
    [0x4f518724e4c3609c, 0x634da7844d995b25, 0xa7807288f6f70e69, 0x1e52a42d152b85d8],
    [0xac1ea3fcce1fe938, 0x2694c936f1573ac7, 0x54c71d40114a0bb8, 0x196b76cefdcc7f6a],
    [0x8cdc3c29720278b0, 0xcded3cdab6cac387, 0x1063b6e9bc507c93, 0x2d54de07d8438160],
    [0xb388e058c30d321f, 0x7449304d062b2267, 0x73356ba6bede1b00, 0x2d8d4a2f762f3df],
    [0xa1b572857b4c0e76, 0xaf6c6e20d5953ee4, 0x73d04fcc393a6b60, 0x109f39baaf3fc94e],
    [0xfc723f9fbae2875a, 0xba390d1dde79ab5f, 0xc039e330790ffb66, 0x12d501a7112aeffc],
    [0x6597b78ccda8e39a, 0xfc8e22a97c26864f, 0x9a630d85bf1d2880, 0x104a8ca53760ad5d],
    [0x3f59b002ae7f48c5, 0x941258d1ea3d2692, 0xd5622d81779e5538, 0x156bf185e618c82f],
    [0x4a15d89354e6eddf, 0x32c576101bac0739, 0xb54827e2b0eea99d, 0x177774923ca426cb],
    [0x2a7bbba2a329924e, 0xfc8fc2139fe584c5, 0x9fc1801d16c19742, 0x113a5bceb5927454],
    [0x64c6e802fa1fabd6, 0xbf69034132a74f64, 0x435eed24786617d5, 0xc6505ca747cb38e],
    [0x2ee7a6fc0e1abf95, 0xe51bd7bc57cfcd60, 0xa3c231b4f9bb10c9, 0x118069d4c4bb4779],
    [0x79a4ea17842a4975, 0x125891654fbb8d6b, 0xd64e9768701ebccc, 0x385980d35d14e90],
    [0x65c503181bb61c2b, 0xb314de71ce804220, 0xbb7bed5b5f7bd03d, 0x1916313365e0bfe0],
    [0x3e36170fbe2a04ba, 0xc8bd2ee8a133b73c, 0x5fc30c18b22b4d1, 0xbf8748279723ba4],
    [0x1596eab99d2e0e6b, 0xfc189b556f7c549f, 0x5cc7bdfa61eab0e, 0x18e633e3f93f5278],
    [0xb974d68aa3c07730, 0xefd23e9fa5c425a8, 0xe3b4f350f4b07c8c, 0x152bc76d070352b5],
    [0x4cfe3b273bc2bf85, 0xc9dfe423d47d3de4, 0xed983b9db0f81620, 0xd27de87e407d89a],
    [0x857283e01b1290e0, 0xad720f13141798f8, 0x1c83bdb6fd2037c9, 0x2b50440572a0892b],
    [0xcfd16aa2ea9ac6a, 0x67f1bcc255156a66, 0xf57cbe18be038e34, 0xb5b0d8f6278e41f],
    [0x4d2a55c7bf380a4e, 0xeb67dff461b71950, 0x1b223dddb0304428, 0x1c4bbc69ba7ce83c],
    [0x833093d6ab8d7e6, 0xf6fbcfa50398579c, 0xde26f2ba95e000ea, 0x224b7d772c7a5d6f],
    [0x33120e8449f0370f, 0x9126f520c56d7d82, 0xc3e5ee6bcff4181d, 0x130d060491a6bd90],
    [0x63b52b3137cda92a, 0xca9e596ba992fa88, 0xc3e092b9c8899994, 0x26e1f7aaa668655a],
    [0x489d22d62dbd3071, 0xd9dd6326cde2a9c9, 0x948f265e861563af, 0xd910dfcde2f0b93],
    [0x6ffb15175455e542, 0x4c93b616d2e97265, 0x3984533298853562, 0x1a92a6fba93268b4],
    [0x5e246e928963d64, 0xe39a46df1c4823fd, 0x564e9132696f3052, 0xdb35e6ee7b9752c],
    [0x2035e2d903b6dd4b, 0xcb80eaa47f674cae, 0x338127ac69877789, 0x190484fb8797efff],
    [0x987f1104347646c, 0x7c5be54cb206a918, 0xebf9f66bc0c8138b, 0x281b15d146c4d56d],
    [0xaeec0725cd663813, 0xc8203f14758eeecb, 0xf1ab4d304d8d9163, 0x2fa46d89ce68066b],
    [0xaad0d2d25f2d61fa, 0xb53ec3300e9617dc, 0xfd972e231deda1c8, 0x2f2ced28553cd93],
    [0x43d3af1e388fa74b, 0xde7a04994eb95b43, 0x511346d4ac900eb5, 0x2aee5484616632c7],
    [0x1c84639a19a581fb, 0x6963ef377ec1e207, 0xfb80f2259d55e95, 0x2bc085981337c250],
    [0xd08315297bb6c648, 0x199365f4cd6f911d, 0xd92ff1260e60e1d1, 0x232d9177d238a7e2],
    [0xac1ea3fcce1fe938, 0x2694c936f1573ac7, 0x54c71d40114a0bb8, 0x196b76cefdcc7f6a],
    [0x9fa4b32227a44224, 0x6ea7d3eced20c311, 0x86a9bb8ec7c916a6, 0x152e232aa2f0b5ce],
    [0x7ad702ce2b4c0c5c, 0xe198d35bcdfa56c7, 0xe934c244bd4f8ebb, 0x2d541381556b2db0],
    [0xe9ee094f7c14e408, 0x467439879f538701, 0x4d80245ceb411511, 0x2e3dc0bef826241],
    [0xd090253627d54ce1, 0xd697b94e0eb8ee80, 0x59d5c39ec295e27, 0x16a011d07f05d6aa],
    [0xb40cc406b6e25cce, 0x8f1a995bf2efa733, 0xf9de9fa1f2a089cf, 0xf2e71fb8b1efa67],
    [0xa1d38c67e682068e, 0x34f0ce0a877b5271, 0x8a6a0c854cda59d7, 0x1231d7777e2dc253],
    [0x4c151bc6ff2ce040, 0x1462535e1df4d7a, 0x637f2797968911f1, 0x24d78b8526e7b1c0],
    [0xebd426aa59e135a4, 0x38ce6c811ee6074f, 0x2ce747418dc02fef, 0x22a988364a2deabc],
    [0x6d6419e7770d1565, 0x48b05436f9cf4b4d, 0x1402db621f42263, 0x15de00a932e2679f],
    [0xc89770d2c260e229, 0x193a9aa2e0e51de1, 0xad2e2ca004ff6dca, 0x299e0373cd69ca5b],
    [0x6631d8eb0a4c9bfe, 0xe1204b139cd825af, 0x54de5702992fc180, 0x1f48db87438ef289],
    [0x31a4acb8bf68b74c, 0x48095adb5ffa44bb, 0xa6193cfd9f77601f, 0x1bdff4383ad65036],
    [0x8ca83ab58a9a77ed, 0x980fff5e94c2b635, 0x5aa5b1532c6fda9a, 0x17644aa682a85233],
    [0x5d81cc24a6503e26, 0x8565534d30f9581b, 0x8af6447e16dc544f, 0x1bfdd4600de69436],
    [0xfdba3236667b24ff, 0x22a81cd18a26427, 0x5b3b71d905826a94, 0x18c8230d4cad7c81],
    [0x3b5600e2eae2aefa, 0x45868cb36c7e601, 0x6cbc8c6ee13f334f, 0xe19493f16f0b05a],
    [0x8440fb9122583e4f, 0x4c0bf4116e97f719, 0xcfd6a8f7f4f02b16, 0xd2f393e71214f36],
    [0xa7fb4e130d1c4c09, 0xf27a8ea0a865e3c7, 0xe7a6ba6bfa95e826, 0xfee312ee60e18d3],
    [0xfd254621fc370eab, 0x3dcf753bffe9415a, 0x47a2d035ecefda07, 0x22a056cd7db58153],
    [0xedd3b04d0b80ae66, 0xe6b5f3d1dafb8abd, 0x864ef2113fc4c756, 0xf5eabc9bc5fbb19],
    [0x1148404f3a5c743d, 0x8af5b573522aed31, 0x9c4cc01b454b4321, 0x7c235ac19bd937],
    [0x70ce5ad08aae42b1, 0xaa46e187ae91b69a, 0xf7cc2f58e4b9314b, 0x2d942aafd44c4635],
    [0x14a9619734d101ad, 0x98a997099b0e006b, 0x8f7d95ceae7c0598, 0x18b7536ddf2baf31],
    [0x8ed78b2cd5493037, 0x5df0cd74fdfd8a5, 0x4cccf9bfcadf1bb8, 0x783549372d83080],
    [0x4243ac5380251d75, 0xabc1701cc590571e, 0xc5e06929f9211224, 0xd0ff56581899da5],
    [0xeccc330e8897a06d, 0xc21b004d93fd8ab3, 0x143a07d1ae33d465, 0x10eb2ca01dbc69cf],
    [0x1d0be5a2362f4273, 0x9316a74d9bf6568e, 0xee39dee2bf130ea8, 0x1caff794c32f783c],
    [0x62ea9b7ca7654dba, 0x6c8ede06795ce547, 0xe680508db2668f4e, 0x26e43873787a976e],
    [0xd56aba9bbfcce7e8, 0xb06f52ab03864d95, 0xe08f51d4ccf75af2, 0x8d378aa3982d2ae],
    [0xb37f99a85d1b38e2, 0x8906e4dca3dfbbb4, 0xb01d3e0db319dc2, 0x2ff5d0d03b4b4f9d],
    [0x7bebdd9ac94038c5, 0xc6f2fc2a854477dd, 0xd3d8bf43f25ba325, 0x18520d1a0bea45e0],
    [0x617e8d3694477e52, 0x327075fbcc0e789b, 0x321a249b580cb97b, 0x48981c51b77cae],
    [0xac1ea3fcce1fe938, 0x2694c936f1573ac7, 0x54c71d40114a0bb8, 0x196b76cefdcc7f6a],
    [0x25424d928c654ac4, 0xe075d8925a724fd3, 0xa0a59fa85396ac51, 0x1487015218138ffa],
    [0x1f5f2801cb81ce9a, 0x8aa6f4e5c7019743, 0x6df08d1e1b0be193, 0x158e7709256be5b4],
    [0x8cac8b9f8eba7888, 0x94192a137f36d646, 0xde40f8ec4e5e404, 0x23ead31e3adb55af],
    [0x7e312396e7c7ba62, 0xd580025df3c708ca, 0x43fbff3afa9c3a75, 0xda52b842c395299],
    [0x2d983dc669a0cfa4, 0x3831de2dbbe854b5, 0x70652c635921aee0, 0x20641a12ce320943],
    [0x3b3bfda7d594d063, 0xaca7d1705e71cd40, 0x74a8fb297f33513e, 0xe854c479dbc2e46],
    [0x2f2eefe9a8bd2376, 0xa213157e0a59d0fa, 0x9174b5bc721ec49e, 0x22e3bb4d657720df],
    [0xb922f17c4a8d303b, 0x90493266747e93b2, 0xb37918b791480b31, 0x3f35d5ab9a8715d],
    [0xa949b980e8ca5765, 0xdd578204dc70878e, 0x3c518effe61ce68b, 0x71d91869ac439a2],
    [0xec0ce898a7e606fc, 0xdfc02d2cfa739e10, 0xf2953d521327679, 0xa5afe6671b39a88],
    [0x3242fdf77e80607a, 0xc0fb13afe6a473b0, 0xdad2019e320b65c9, 0x1a13161ee9c83cc5],
    [0x688848252d5b6f2e, 0x7179ff403dcb0738, 0xad3fb5363647b361, 0x3026cf4032ab73c],
    [0x5ac807fc57523424, 0xcc0f107c69e38e0a, 0xa5a66e8ac3041de9, 0x243e0c7d13dedc00],
    [0x8d9889236ab48999, 0x478f3d286638267e, 0x13add9a2fbdd4bf8, 0x2a9fcc31d5ba75ce],
    [0xb44a7f26b193a571, 0x389e48078ead3ad8, 0x7a218c67bf292f7, 0x12355d3aaa772054],
    [0x7ded627ff5f0925c, 0x35a96a57466c5d9c, 0x9fb8d72118cfc368, 0x2fa06fd721aac581],
    [0x79f66ddcf7b95670, 0x73fff81d486a9bde, 0x5d077ebaa1d827ba, 0x2009a1047f9adcaf],
    [0xfa4bc413af451491, 0xc3c5837f41935caf, 0xb2a847cd2a686c1f, 0x23afd3d3c0e2e875],
    [0x86a505f73bcfe296, 0x6a60674889b98d17, 0x33efe547ed972ad3, 0x2726dd1f3fdfd05c],
    [0xf9662f79a7df7253, 0x7f2288e5e698d8da, 0xa4a20a89c2f3134f, 0xa1f79f8deb6a176],
    [0xab2b262de8235c13, 0xccf223ab050c4900, 0x47588085cefa90f7, 0x233dbacfc9ba8c6e],
    [0x605efcac8b1d27ed, 0x3446b3a44540e129, 0x7be8ed97b21065ad, 0x24e7c1d18385735c],
    [0xefa546a5f1a4726, 0xecad86b0f58972ac, 0xb5b767736aadd097, 0x2218b114e6a493d7],
    [0x91b9e05a4575db3b, 0xcc5eca3bc6cd608f, 0xe79f2dd5dc8ef6d, 0xfe60e24f8408095],
    [0x55a7e90b86a988ef, 0xde1b37c4fcc75067, 0x3331c235edfab0c1, 0x1d3ebedf3c91e56b],
    [0x2c7f9317db72f17e, 0x8e66be3ff5195efa, 0xd0d305e24244c90f, 0x5b18530d7ead1df],
    [0xd7c91443dd3a3e0f, 0xd9a25f7cbcf4f894, 0x616a880793d4bfb9, 0xddd0529998868e7],
    [0x62c2129509732672, 0xd88152beb86ece14, 0xb800200ab76e38d4, 0x58611fb32de45f6],
    [0xb40cf00881a1592f, 0x5b5fc8331a0ef36a, 0x66a6cace0bb21623, 0x2f4954ce179d8333],
    [0x9990e88976ceb878, 0x7800d664ee0c121c, 0x43dd5ae8b72f56fb, 0x10dae4642d4de291],
    [0x2d328df4667ac672, 0xaa60868a1dd1ae2, 0xa018f779ca69c748, 0x9d1b3f83888c3b9],
    [0xbf67d0ce8609cf2f, 0x33161f66a6629ac, 0xd321920c129465f8, 0x1f8cb04b5c6155d],
    [0xac1ea3fcce1fe938, 0x2694c936f1573ac7, 0x54c71d40114a0bb8, 0x196b76cefdcc7f6a],
    [0x9f5bf6c986dc4472, 0x40ed8603b54f336a, 0x2def6f8859c1276f, 0x697468fa48ffbef],
    [0x2e9ac35fc8c659d4, 0x1320a86b1d085b64, 0x52ef754d6e9f93df, 0x14845ae5256ccf9f],
    [0xd589dc3a150ee595, 0xa22100b7c59f0701, 0x57a6fbf1d7c7be6f, 0x20a0e20ca969d47c],
    [0x6ff113eed0ac9601, 0x75c19190d7e3f0cb, 0xe52babdd1c8fc709, 0x1a54b1065df96a7f],
    [0x3b58a7c2b8257bd, 0x64d824bd9371afbf, 0xefcf1df7d0374ce5, 0x60a95bf72d45427],
    [0xfa99777314688d8c, 0xa1efb2aa199b74f9, 0x1099626a254a8dfd, 0xc6bae2f35f833cd],
    [0x9d8e411d3e25c05b, 0x731775ef5ca9368, 0x58a23049c4c5bc21, 0x2e075d54e2f7837c],
    [0xd8e4bddd6bd5ca97, 0x8475c1b87ff88966, 0x80a3649afc32608e, 0x7315b60ae704cd],
    [0x73ca261ae50f32df, 0xa8f48dae9021b840, 0xd8db43e9361d4188, 0x1c5f8d20fda642dc],
    [0x89988154b605a740, 0xe2a2e2d7f8a11918, 0x6ae6c133fae6cc40, 0x13671823102cac62],
    [0x15daea4b3b760f8d, 0x3acb1cd6cc1b5de8, 0xa5e6c7f0336f7d19, 0x10f3889ecee1bec4],
    [0x514e864e8aeade79, 0x89edfcaaca0b3b23, 0xc74050ca5d581423, 0x6290c4b1f8ce6dd],
    [0xa9c80812d9915a1f, 0x5b7efcc28d300317, 0x5c369908a57f9377, 0xc359d3a8e691371],
    [0x4d61087d3968f86, 0xa686912cd52e0f88, 0xa52ea3073c80c666, 0x1b7906c8c29ea1ea],
    [0x2fac95cc25b47d2a, 0x4325f99ac07e34c2, 0xbc1a25757a7ddf1, 0x140e7636bb9af6ca],
    [0x6142b708219a4277, 0x1eae921b27281344, 0x71e274a2080def1f, 0x1a2ffb754f4df243],
];

/// Part 2 of the sparse partial-round rows for width 17, as little-endian limbs.
pub const S_DATA_2: [[u64; 4]; 256] = [
    [0x6b503be1a4b01fc0, 0xa86c85d8ad8c7bb9, 0x347dcf0d188e603b, 0x8925574c3dd6d39],
    [0x87632ef3d9e19d86, 0xe0688771c6f4c6e2, 0x449b5245494f461a, 0xc4d557652fd1a40],
    [0x38fef3412cd09e48, 0x6dd75eaee8fdeb09, 0xf467311174d68af3, 0x2e9c11f9d848f461],
    [0x5ad0050bc0e99525, 0xf31c0d2fb615f347, 0xb667bac0f4c78b18, 0x198350eea49489ba],
    [0xf6513a40ff15e4db, 0x1c0e6d29fc4733bb, 0x6d3b99d464f0c9f2, 0x1feaa21fb6aa40e],
    [0x91a77bde69936561, 0x379c0a822c03e335, 0xb7963d8c909b789d, 0xbfe6c87d65833b8],
    [0x664e86ef943a5c97, 0x3533cb9809ac773c, 0x5de31ca26fddf122, 0x9d31ad63366f19f],
    [0x6b70147734da47f2, 0x35a606687b4bd62d, 0x74825b2deed1cf7, 0x2092b2bc145c4332],
    [0x7524c99b0eb50772, 0x1c999aef85850dd, 0x92570c6981b6c67, 0x2c650be19dcb6005],
    [0xb7ff7fa0ea0c2244, 0x2ba492e2daedbf9b, 0x5fe1c22279a2eee, 0x1987da1e063088e5],
    [0x9b14fa7a56d43e57, 0x18f7b586ef6b624c, 0xe98ec13e03e39a14, 0x2d964e6c97f1ce9f],
    [0x5fb658891be8335d, 0xc7496fb36bc98a40, 0x7aa62325235cdbea, 0xe44e2dd16cd8134],
    [0xc3456c9b1149ac1, 0x926f707b6494e45c, 0xe65b1dc9420fb479, 0x2b3f3be77f4eaf5e],
    [0x8f270cc90369541, 0x5a204b9e84194307, 0x1e8815f62e0c1115, 0x4510148cecaaa31],
    [0x99a26aff13c9c3ae, 0x9c207cdfa494e75a, 0x4d5d8b5e9d535eb6, 0x121f5e52b5ed6d97],
    [0xb4d1cee1cb36254a, 0xebfb5a453a57044c, 0x9dfb0a60a31e2509, 0x250897c08d5b8b10],
    [0xac1ea3fcce1fe938, 0x2694c936f1573ac7, 0x54c71d40114a0bb8, 0x196b76cefdcc7f6a],
    [0x476c8459026ac92f, 0xa05ffa6c072a0ae4, 0x31e0d09a9739c181, 0x170ded62e47a24d0],
    [0xc8034b3e299ba0c7, 0x9a915cf083fc5590, 0x9d0fc11ea7c60a81, 0x7a7d93f07720b72],
    [0xe7179c8eca382411, 0xc4ae2dca4c098dba, 0x43614550a13ff1e8, 0x2b38674819134ea7],
    [0xe8bdbfc5fdaddfa5, 0xf0cd9cce1cf75187, 0x802a40e2b98935e1, 0x271289dc176782bc],
    [0xc650162b32d16249, 0xc1502d504427294e, 0x169c815ad6d976f2, 0x50e0d49763f9965],
    [0x58abb801ed25a2a4, 0xf3134b6d29008189, 0x3562609f8571294f, 0x1e16a7619369f722],
    [0xb8040d021328ff4c, 0xa1eaf7f944ad5806, 0xb48e781385c7cb9f, 0x55be327e8e9177d],
    [0x20bcb53cdb1f06d7, 0xeaa814f4e5f4ab37, 0x8a930aaac6880250, 0x1e218f8a23818b35],
    [0xfd643d4d6f4c2ba1, 0xa75d44a8663da028, 0xac9603bb8205edd7, 0x344ffbdf73e00c5],
    [0xf51785ae1d35581a, 0xc81096f0b6d97dbd, 0x3f621d5cb8c0f000, 0x127fe6bca0178af9],
    [0xb87f4a70e6e06e52, 0xac58b63dee9aea94, 0x861a49f083b6dd9e, 0x286df223607d95bb],
    [0x9667056ede70e1ff, 0xf039d5948bfe24c5, 0xcce72cac7f1ab3a3, 0x8e3e56ff4056ea0],
    [0xd68b2777b07fb552, 0x1785b1a9a8d159ea, 0xc6b693a0503fd027, 0x5530286c0e7eae0],
    [0xce3f7b02fe5f8840, 0x56fe9a046a3ce354, 0x8e384f96b9af4ac, 0xe5a8dc54f4762a8],
    [0xcb2246e0821462f3, 0x725681ef6a2c98e6, 0x262f732366d0461, 0x12ae091a2d3ceb05],
    [0x556bf47a7fa3e533, 0x1670654bba4f2cc2, 0x879e3d80e3829409, 0x1bb12b01d476fb2d],
    [0xee55fed79fa3ff4e, 0x294c7665bf3417c2, 0x85a605ea9934dd45, 0x183408f575aeeac0],
    [0x540fa21a530b2186, 0xc366c2212817303a, 0x8bf97f4201013c9c, 0x13ed068f2325d609],
    [0x57b212865cbaf7f3, 0xfbb3f07faceef1c4, 0xdc29d8130a224448, 0x86a1854cc12612d],
    [0xf0a79c2953f42686, 0x487c163f6e275de6, 0x4805076055e7a974, 0x28e0905fb2b0cda2],
    [0x7785161c845df5a4, 0xbdc382818d0829df, 0xd729a877b9374b9, 0x13482a7e8bf17cbf],
    [0x3b50fd4eb7732792, 0x786591e99706eea9, 0x246e9dbbfc95ed50, 0x411f1eba980a1c2],
    [0x261713ae3846944a, 0x1afe05e4948d3afb, 0x8479c385ee585e19, 0x2e4d2ef29fa7855a],
    [0xb4f5af2bc7eebb85, 0xc8ab2765b35cfbd1, 0x8d3a458536fd4bb2, 0x14d0b018b332223d],
    [0xb903260d31fb63ab, 0x90c888e04aeab93, 0xc703ea1deed0d89a, 0x7ada6b05a15e228],
    [0x4a0aaf2b6f500fdf, 0x64d7d25723d12a47, 0x27da9ba8141f98d7, 0x2bf8f1482d41782],
    [0x216f4c29bd138027, 0x9ff98a103ca38e60, 0xfbb5a6ccd9280806, 0x1771ec5e8d202af9],
    [0x108eb95c853b951c, 0x6fdf84ce43bdaeb3, 0xabb1f0947a7f2e2c, 0x1cc45818383e71fa],
    [0x3956a91d3bea3921, 0xe80765807ddeb540, 0x89a858ed9b5550cb, 0x21ca4fbb38c5efb4],
    [0x743ffbc42457190b, 0x6ece15085107fe41, 0xadd140a81312486c, 0xb264544c114744b],
    [0xa5d25450d77dfa26, 0xf1fff6a2f16f542a, 0x30c3f623e86769a8, 0x63f973d8f7955b2],
    [0xbb72b6cddf2a05a, 0x39dd69b91c3b8636, 0x8976cfb1c5d6f2d3, 0xca567c8c6074baf],
    [0xac1ea3fcce1fe938, 0x2694c936f1573ac7, 0x54c71d40114a0bb8, 0x196b76cefdcc7f6a],
    [0x6f5b2db25d70c898, 0x70c7b5f596a165d, 0x6ea9945a1f0bfe0d, 0xe84546d43156eca],
    [0xf8606ea4b8854157, 0x67fc167a73eff9a2, 0x31f4a79531b0e414, 0x255224468137fa57],
    [0xb858d00a2429413b, 0xca96cc4f55369ea0, 0x592edf3b1a17b61a, 0x5e444e0bfb3002],
    [0x22c86d92cfb3302e, 0x7a8d8e00afe3232f, 0x72f43f6c98e57d00, 0x2c9547cc8c302795],
    [0xb304eac65a5e89a5, 0x2542927ab8a5bf70, 0xff38771210c3e2e3, 0x128d1e7dd33b8a7e],
    [0x9076ac7850469259, 0x71d97ad177b4722b, 0x7267059d04eab271, 0x117ea550387989a2],
    [0xe03f1646e85b83a8, 0xf3d3a015f5d05dfa, 0x7424c3b82a3c2590, 0x9c2d962801e8142],
    [0x87d5237fce352402, 0x3856a5112c1a2290, 0x1380f618137cd12d, 0x26d1151c34d444d6],
    [0x1a92a3a179419b40, 0xaff569e8f454b57a, 0x60d825df98f433cc, 0x71de2aa9593a6be],
    [0x16a7653d7b749273, 0x1b21530751b6c89f, 0x211a0c74b15ca6a2, 0x78af695ca1926d0],
    [0x16e3e55f18f74229, 0xaec838068e241734, 0xf4f4b43777c31f0e, 0x10fac024afa92974],
    [0x5a7b94d9c8788416, 0xa422cd2f561c1add, 0xf2696824ed7ab40, 0x252a24164cb69697],
    [0xff91893c9e878bd2, 0x41d22c4c792717a7, 0x9c74524f5f370ecc, 0x2dc1cca380599b8d],
    [0x388dddb0d503d32b, 0x2660b84701dbcdc7, 0x51f328d7a6166873, 0xf1970c566c802ca],
    [0x757278de7c71b6e3, 0xa30458ef81a97cb0, 0x1bdfc99f88fd2425, 0x14410ae146ba1944],
    [0xaa413edb1d426620, 0x986a37c6bcb9cfe0, 0x7b07438387714c8e, 0xea9dd39706c27da],
    [0xa08c1d03849eb81e, 0xe207afdea093f62c, 0x96e73e66cd8d163a, 0x12a0ec57214d7833],
    [0xe1bf9179f4e7aa2, 0x84b2ec7d9f70e1b, 0xbdeed8670ccbd35b, 0x15f6e3cd0868b4e3],
    [0xd8ef7768777e04b7, 0x4c55e9a53a4cccde, 0xe5bac3da9121fead, 0x273ffa3f96b6f990],
    [0x405544d2be981cd3, 0x4b61960abc7ac07f, 0x51f9d10a056a0a9c, 0x265c7d50300accd4],
    [0x56a431704b81220b, 0x97d181fe4be674c, 0x17c0b0c38428f80e, 0x25704ec82bcf2458],
    [0x8fa24e7553a8ed9e, 0x5667d0c84de02d10, 0xc7dda4611642819d, 0x2bc004a70f93825f],
    [0x2649fb853ab6913d, 0x681b530e89f02859, 0x43ecf2affb6c8ec2, 0x2c67b0e93decf3dd],
    [0x82224ba50ea2a19c, 0xa71e99dfe635f38, 0xddf0f50960ec66bb, 0x25d1957093005c4e],
    [0x6047c168d9f230f2, 0xee57012dfe44b45, 0xbee690ff33842670, 0xc05aad7df610539],
    [0x8fd527f1c9615f1c, 0x79ffed8343997e02, 0xf960784f20a9daa6, 0xa09feb45b441685],
    [0x15c5f7afeeee5559, 0x1e60037b098935f7, 0xf3e8d48d7be78de5, 0xc3317b6e0f17024],
    [0x84f545a47a09eb4d, 0xb6a2ace2f8b1f233, 0xc7995b512ab297b9, 0x186002e006875015],
    [0x565282240befe85d, 0xa990978f7a7dc0a6, 0x871803946f468fe1, 0x607f219a0a42d65],
    [0xe88aa93d198ad89f, 0x6076820a2a936ca2, 0x4282f425afb21bc0, 0x83054c73153f259],
    [0x36c0ede0c250049e, 0xd0fb95c8acee6dd0, 0xc61bf2647394bdce, 0x1d279f18a4b248bb],
    [0x84e4845521b47755, 0x3ad007660b67c14e, 0x4a0d11815b6dd2a9, 0x2e9fde89ba2dcecf],
    [0xac1ea3fcce1fe938, 0x2694c936f1573ac7, 0x54c71d40114a0bb8, 0x196b76cefdcc7f6a],
    [0xa98eba19c54fe970, 0x7395c4dca3503000, 0xaa19dec1031fabc5, 0x66bfcf07a648bce],
    [0xab0148bca152d25a, 0x488ba7f18d905e67, 0xe8f23ea68b34b200, 0x276ac7d1569f671e],
    [0x5e19af27ecd42de3, 0x1ee2b251399734d1, 0xee321282b00a2a64, 0x2f20f2f426186af0],
    [0xf3435dbccb7b9e4e, 0x1a6a9e85f6a30bb5, 0x5015f52cd38cf2c4, 0x1c96a460e778f4af],
    [0x66ec4c4e5b529a57, 0x9e65bdcd361ad27b, 0x476ca6928729411b, 0x227da7c9930fdc00],
    [0xa2f6124a4e7d3eca, 0x47ac68dd8eb498a1, 0x6e0722d5c5a0cf88, 0x27b1127b1ce6f068],
    [0xfc43608a30c0d5ad, 0x680356500e63b4ad, 0x8a9d886d6b7a6705, 0xa510ccb52f446c4],
    [0x810ed9a2d044d7fa, 0xccc8be6fc0552f3e, 0xdcc821d8193d2ae2, 0x187297811a78c845],
    [0x4ff75336afff596f, 0xe88ff01e0a86b807, 0x5838ad9410d16930, 0x229793d98c198e35],
    [0x26c7db4166b31ce9, 0xc4ea27cafeed2933, 0x88ff3713be9f3bee, 0x1214cf6c699c46ef],
    [0xa092f61c766af9c2, 0x82fcf436589b18d1, 0xe8c1730ff9d91c6f, 0x2099cfaccaaacb25],
    [0x4ca2c2a82aa5f23, 0x411dda04203b47ca, 0xbd891bca034f176e, 0x2322866854d0c03d],
    [0x95b9e0bdb275ffc5, 0xf550c90fd4ab624c, 0x9177ded93afb51df, 0xafe4184fb8af7ae],
    [0x2a6ccb4146745f94, 0x2e2ebed5bc63ee63, 0x75057171332150d6, 0x18981ec4e7b2dd5b],
    [0xd141b82324dff556, 0xaa074c26a62ea6cf, 0xda077d270effeb93, 0x1fb6ac0886f9dafc],
    [0xc6ec7a0ecbc4f72d, 0x7034785279a95b17, 0x7abda74bf85806b, 0x2aeadacfa8410a4c],
    [0xe231503e0ea04329, 0xbcc5bf35bbd30181, 0x61bd4361e2d3b669, 0xe640d01e5ed2439],
    [0xd56124dd51966ffc, 0xe65316c9b6b83c0c, 0xc5d79cc04becc7c8, 0x2e878ba571f0ae43],
    [0x9cc7fadbc02f6719, 0x289e8570c4fdd118, 0x1e30360016f37d8, 0xe4671548304dc63],
    [0xb980ac72b15ca83d, 0x4b044bbe2ff3839e, 0x52ae6163e0890d53, 0x49f32a110437e15],
    [0x711e07797362be6b, 0xad8e7b751b02e186, 0x21e930773ea4404c, 0x29be7fd214d5ac3a],
    [0x76835ac1ae061d66, 0x418f5920eef76246, 0x51c7b739fbecc3aa, 0x6d4247fe770b6bf],
    [0x83ee617f9525cbd2, 0x122e3a5adfb8a8f, 0xc2eb56d27410ad62, 0x21c02a9eec894a1a],
    [0x306a6900a0bb9021, 0xdb47514fadc741b3, 0x2cff2b79d0c8ea43, 0x232b4705581121f6],
    [0x2242d6a6b36e6141, 0x2e3df55d4929a232, 0xd06f2fd2dc9f61c2, 0x2a3137d0e0a9987],
    [0x1dfd086389c29d15, 0x3d7afe8c6868643a, 0x1e41c65da894966, 0x12814250a7345004],
    [0xc44262cbfa1bf972, 0x70807de46a767383, 0x41bc0e164a9ca849, 0x1d221587e6acdcd0],
    [0x5576e8a5e626319e, 0xf3b2f34c53b5786d, 0x212ae49e93243a25, 0x115ec085da8a3839],
    [0xab0587b45de950b9, 0x215ad9a3a1629daa, 0xa583166923360d16, 0xcdd08d5c710e497],
    [0x19315dff25c111a8, 0xb4d6f7f8be1a2c41, 0x8c766875963305f4, 0x921c454f7b3d19a],
    [0x6b31c9bb6a3bed69, 0xd4522fe23a4b26e9, 0x478b2ce4f40d73b8, 0x1b87d132d08fe5a6],
    [0xee36b13138d0f6fc, 0x1514c8872e1e0361, 0x477286be689776e, 0x22ae2be55bb3c764],
    [0xac1ea3fcce1fe938, 0x2694c936f1573ac7, 0x54c71d40114a0bb8, 0x196b76cefdcc7f6a],
    [0x331db8da4145e5ac, 0xc7404a2fba31795c, 0x78bbbe46b6d53646, 0x237ac6aaad2e2ade],
    [0xb2149e4a2547d527, 0x4a3a8b92964ea9c7, 0x1baa33a2b820b84a, 0x2877189f4c0d9fe0],
    [0x1cbb4a371c6d16e4, 0xa32221fc94bd9c96, 0x8d586824994cdd3d, 0x136a6e0031d27728],
    [0xb295b7231fc13e35, 0x4ad0fe99a7b5c93, 0x5dc87650a56a5806, 0x18a97e7a120e79f2],
    [0x6e63b47580fac913, 0xc1bb979a23d9c726, 0xb3e6aa31347e4d68, 0x298a890330408d2e],
    [0xc749ac01a4e5d476, 0xd14fe945408aa987, 0x75bf19d63f8e787d, 0x191d5d7b95a739bb],
    [0x9b94eaed73645b35, 0x7155a00e5f071f05, 0x27d993eed7cf4de5, 0x2449e2d526e29206],
    [0xe72c074247f6767a, 0x7d92b82686bf5bd, 0xa7a0e801daae0ccc, 0x1a0364ee68cb9c8],
    [0x28112c466790ce71, 0x3deeb1f4f234522d, 0xf9792a6d85f29b40, 0x1e88daef2272c0f1],
    [0x950df67c9766432e, 0xe53c39967f0d3b1a, 0x6f71c6b23ea770f5, 0x2c4b0d1c66062af9],
    [0x82c4b9139368d186, 0x6ca286f8979e5461, 0x70b37cf255b57734, 0x7ad869f9d13d9b2],
    [0x52a4bf72c4375a9e, 0xa8b6ea9bf53b5fdb, 0x9d8eb2f7bcf3be82, 0x2015d96937e823b4],
    [0x4fd6376cdc8d79f6, 0xfad8242b420de1a2, 0x37ac0d77083c3613, 0x1ae82e2228f0080b],
    [0xfa0e921b75df31dd, 0xdd8bec39ce045c15, 0xd23a25c07cdf68a7, 0x27f0ebfa6e2ec9fe],
    [0x503727419a5b6a5c, 0xedd5164ea595d523, 0x28e7a13a9bada042, 0x1b129211eadf48d2],
    [0x92067a6cfbbc1bf1, 0x76dd326a0e534188, 0x7b5e0bde5ad7c3ce, 0x1541b4e3bd42e928],
    [0xb859d76d13a4200e, 0xa99306f350971156, 0x74ffe46e382184d9, 0x3cb9cff50f4d9d1],
    [0xb59e2d4dbdfdca3f, 0x1ace1a71987962da, 0x7227f17aecd711d3, 0x2191176d2fe6b360],
    [0xbd05b6c730e7fe86, 0x93aae65a9c1412fd, 0x9b23b41a6eec5f12, 0x333a98f84a220a5],
    [0x33b12389534c8ca, 0xa2ab67089c2aeadc, 0x791efd9f449ac6b7, 0x1d3133dc479ed041],
    [0xfd1c7015dc541b88, 0x54dad13c1c685d3, 0xdd0228a3bc3e2ca5, 0x11a957c8acc043e1],
    [0xfeeea21ff00cffed, 0xe944f231d55b4802, 0x2770e72a734f3234, 0x9ab1d5764d1ab37],
    [0x54e0115671c61648, 0xb1b413207754249d, 0x4d9172cd0de7a03a, 0x2ab07fca009ae378],
    [0xa6ab45b8bd49a8b4, 0xec09bf69ab23050a, 0xf8a7df0100847754, 0x2f26dcb5b014b72b],
    [0xa862287fac0121aa, 0x9ea7ec76fc424ead, 0xf02d5923d4fb07f5, 0x12831914375fab4b],
    [0xabd2070364513e10, 0x46816d0ec951e74f, 0x4717e0b5670db635, 0xf01b766464df2a9],
    [0x382ffc1b3d74ccb9, 0xc0d1f0ecc2447cd0, 0x20c71f3b7fe2c872, 0x1eec1596e07215f1],
    [0xce0d12b15c1d960f, 0x24cacc3aafbfcb99, 0xc8e81bb2ec06ac01, 0x13a9df3f6c9c0363],
    [0x3dadcc09c1b8994a, 0xae9ea0a037563cd9, 0x9ce140125c49306c, 0x9941a17ae1ed8d6],
    [0x5c508e6cb2a7d581, 0x8d645d5c42e7441e, 0x8bd5eca57d37adba, 0x790fc3d447ed105],
    [0x3da02d49033963c0, 0x3ec812ed643400c5, 0xdc073326138ef349, 0xe11f8951edc551a],
    [0x222ddc36e39cf1c2, 0xf70bfadc6b819481, 0xe615f2044df40bc, 0x1ef50d438e0fb326],
    [0xac1ea3fcce1fe938, 0x2694c936f1573ac7, 0x54c71d40114a0bb8, 0x196b76cefdcc7f6a],
    [0x7566adca54593cee, 0x929951403794d3f5, 0xac6f28381aa453e, 0x19a6c9e51754a1ba],
    [0x8bfc6e2620d1c0a8, 0x8c1beabe9cc3f532, 0x3c9fe57e0e0e6316, 0x2fe2b32027a048ab],
    [0xf6ab9fd6cfa6f052, 0x67a58c9b91b68be6, 0xf4e243baea612d8d, 0x252a353865d1bf6d],
    [0x617f8d408239bd68, 0x5a7a4ea158a67dd4, 0x8c6d1e12224f0e1b, 0x2445b945a65afd2c],
    [0xd927ccab3b8a47d2, 0x5636c2f191f252e9, 0x1fc06b06f1394d6a, 0x2aedc3a83dc324a2],
    [0xe174eefa6f5aae49, 0x4fddfe5f26a74759, 0xedad2ada9740cf10, 0x11ef3c2372ad8e0f],
    [0x1af55b9693c0833d, 0xc06c7abf88df4fab, 0x866e79a4f327c50b, 0x16540a4f6d867388],
    [0x3107238e7473f4d0, 0x9fabdb3c6b064190, 0x27602a84e5c84e1, 0x226a8cf3b4fd93fb],
    [0x2d65b6f9cac5756f, 0x3efb775497672162, 0x6a9e8f46f028a1, 0x15829949331aecf0],
    [0x628de8a7cbd4da12, 0x6f307fb00fa27267, 0xb8be664c32a15d8c, 0x219a0633cbffa129],
    [0xf9a4db69808c2c5c, 0x81a92931de8dd658, 0x68a4036fb628bce3, 0xdef3ce304e0b1f8],
    [0xc5cd58e88a228a4e, 0x97637993bc102538, 0x62effb8e392bb7fb, 0x2bccbcda22270d6c],
    [0x72a9b2ad266b912f, 0x92da30e3fe791931, 0x4c9875e732ae5ba, 0x188172fe781d7b18],
    [0xaf04d6e1b235f8fc, 0xaefbc73811fd69a8, 0x8a878299f52f298e, 0x1f30e5d70cc514c7],
    [0x6b63d2e12794a65d, 0xb2866f3e37995a0e, 0x64ef539c409ff1, 0x36dd7eb2d37c58f],
    [0x74c6b53b2d7fa55, 0xc123fd9e18001704, 0x3e7bde9fba8cc6be, 0x2943d171cc678d4b],
    [0x1db4a75311b12c17, 0x9bc21e304859d7e9, 0xd17d71e7ed150e65, 0x16d3bd98a136cc6e],
    [0x696836eb0b9ecde5, 0x7ad5e866df6f9179, 0x22dea4b4e5836d01, 0x2cc46361954b156f],
    [0x831f253b5795f431, 0x239503ebd2aee0b0, 0xc5075a90772eeb28, 0x2093732993458c1d],
    [0xca019c426eae56f6, 0x288f7a356f7d4d62, 0xd666fe22149b4b9c, 0x26fb0a33d8ba99f9],
    [0x693f9ca05a03b9d7, 0x31563b93f78c5b6c, 0xf6f6d72ec4bbf9f3, 0x2ca9e5344928b4c5],
    [0x43d59a99b972b97e, 0x4dc41fa8a4b6d0b6, 0x33e6f9e5b27e768d, 0xf86ace9eeacefd1],
    [0x841f8816f8ddbbb6, 0xc1199f3ea08c4bd2, 0x60d40caf2050fc7, 0x16aa6528c3e5ca07],
    [0xd831b6f5104b32e8, 0xb4aa9e031f95fc5a, 0xabaf663b51bccc82, 0x1aaf0a3512751441],
    [0xe8f3f4f1bae805df, 0x1f0361b0c5ce1b20, 0x65921094c6ffb59f, 0x1693d12dc333730],
    [0xf4966768088e24a5, 0x4813bc74fa3265e0, 0x16abacd6b5ef79ad, 0x1a5b1eec5d855cc7],
    [0xa11231048dc85871, 0xaf33c72235d5a045, 0x39309ae314e1658c, 0x1a98219aa97845f0],
    [0x4b22c29b28847943, 0x4bd78d3f7ed49563, 0xe6e78b2f51db9e90, 0x27d38feb2f3ca73b],
    [0x34f93245cd58e64, 0xc5804d4dc2b469f, 0xbc79c6ba5a35fde, 0x27b21eb7516a8422],
    [0x4def5dee16e2b60c, 0xa41a86bb595cfe64, 0xe84e296d8568fd68, 0x10882cc54c76c057],
    [0x5aa738249667f809, 0xbf41fe73f15999b8, 0xc5f9d66baee6647e, 0x2a5a015eeff7cd48],
    [0xd3c9041e7e61a52d, 0xca81548ce6c2fc66, 0x81a7f140c88ff0e, 0xbb55ca8ec263593],
    [0xac1ea3fcce1fe938, 0x2694c936f1573ac7, 0x54c71d40114a0bb8, 0x196b76cefdcc7f6a],
    [0x3159e8e6a9cd2d04, 0xaff9b21c252a1735, 0x66dd690770be8d58, 0x11a95faf7782644e],
    [0x55567f54de408856, 0x8531a383f8f38f0, 0x56320179b35cfccf, 0x1809bc4f74f8da0e],
    [0x686234f997c8064d, 0xad5aebeb46731ac1, 0x3c418866b657b4be, 0x29576ebe8b472aab],
    [0x66e4e9da506338bf, 0x74ab4ce00d98e3b7, 0xa3bacc425ac17ef9, 0x15fdd752a74e076],
    [0xe3a5cff2f95321b, 0xaeb912c073ab120a, 0xbd44212cc5274dba, 0xa39afeb11772f20],
    [0x60138142fb482bc2, 0xa17d4269a823fac3, 0x4f4bf261b609505b, 0x1bd3c83976780db7],
    [0xfd33a9a97e4053ec, 0xae59c02e88b66acb, 0xafab678e90178017, 0x2455035975952299],
    [0xa152a537050d4eea, 0x7328f0402b139f40, 0xd37a81057e033196, 0xf54c6e582707940],
    [0xf2cacd1cd63dfa68, 0x5bef2e641317adbf, 0xe75bf77288e35c13, 0xf3edf4b1021df9e],
    [0x52935e3a66a81061, 0xc3d163534087d6e7, 0xe4ecbd99b63fe784, 0x15a4b29ef2de3e66],
    [0xa5721e81410124db, 0xce81abc3238c0832, 0x4ce6418e44df62cf, 0x22de01c525edac0],
    [0x565691dbe6e7244e, 0xf48e570aff4a8981, 0x61691b3c313d73cb, 0x2f75cfbb2d72a936],
    [0xac032957477470e5, 0xc44d3f35708fb83, 0x94fe6cd32886ab49, 0x176215e6dde458ba],
    [0x154dadf04aea02b2, 0x1cdde20786b700cf, 0x2362689f3f298c3d, 0x125224651632beae],
    [0xe5112278621657ea, 0xb5d118bedf866880, 0xace18ed71d4ec243, 0x25adc0480ab90662],
    [0x1c376d7c879c0a6d, 0xbc03b7a0a510a1d, 0x13dd9d53b6fea48d, 0xf1656323cf512ca],
    [0x34ad370bcbe107a9, 0x2a779df52b3d938a, 0xa9c510bd904477a8, 0x1f7fca35f19d9bc9],
    [0x3bad1908117cae47, 0xefa885d0d57e4eef, 0xf9188ae72b638a48, 0x1650f10d70200c4c],
    [0xc8f63fdc6f9f14a3, 0x27f4afa0b9532f3c, 0xba0426becb0edb41, 0x2efa5eaf0d9848a2],
    [0x13bd630594e20123, 0xd1cece3de0f53cb3, 0xdc67b5d3c1df188, 0xad402c14a8aefcb],
    [0x398c2e19210a92c2, 0x27636c1bd05752cd, 0x72c21eff6800d993, 0x9874e7aac804e0a],
    [0xe0363278e6e26edb, 0x618e1c90ce71f173, 0x2bc0e6174ca40f48, 0x127d6e66dc4de727],
    [0x6ef982a3d45686ee, 0x1d0e650c29d8097a, 0x491fdca28d89d4f4, 0x178b0d219dc9fb0d],
    [0x85596c0fb37595bc, 0x95b0bef83a020114, 0x176f629668c19a71, 0x856563611627d9d],
    [0x125d2c07f165f4c, 0xa14649c65007df2e, 0xb607f39a334e5ac5, 0x4f01e13e7e01f0f],
    [0xa65f98b52c48c32c, 0x4a23c0353b217cc6, 0x721fe601b3133587, 0x2fdd1f6a4746ffc3],
    [0x8024fca28b858022, 0x7c476b0804a47e8e, 0x3ed24f4b5cd348b2, 0x17732cc9a7ab756b],
    [0x436e428d8407efb0, 0x1f374cf781a8932b, 0xdd6b159c396447f1, 0x8f9e4a25ef65884],
    [0x49159c80d6895398, 0x609556021920ad83, 0xc827263bd36282a0, 0x185536364010888e],
    [0x81c9531213d61b8b, 0x8a03c437a8e7cc0c, 0xaf032db092bb6caf, 0x1fd0879f9628b76e],
    [0x1876071cb0bcbaf8, 0x13f2766023a8e781, 0x8bc1ba52dc7905ca, 0x122fc02a0d06dcaa],
    [0x36eb58331f5e9106, 0x4f3715f0bd1dfc1b, 0xc6d1bd38334212f3, 0x8130052ffef7fbd],
    [0xac1ea3fcce1fe938, 0x2694c936f1573ac7, 0x54c71d40114a0bb8, 0x196b76cefdcc7f6a],
    [0xd67e4a80e49bd83b, 0x5152fc9bc3b14cf1, 0x3b3e43499159ccef, 0x21c85453b5c8f5],
    [0x53de7c68d3bc3261, 0x1c5c38c4cdff7c57, 0x972b67c2c155653e, 0x273d34ed60e945fe],
    [0xb46edf07a56d2777, 0x1aed16eb8f6d2c05, 0x5664ee04c994ffbf, 0xed8f8c0b6442389],
    [0xbab9f73ec47c70c2, 0xc451e59671499b7, 0x6247de315a85e173, 0x9dbc162c39375cf],
    [0x8b10fad60b9f52af, 0x92571d716f51494e, 0x92d3d934ae7c0317, 0x2bcc328db7c571f8],
    [0x6a8d899e4981889a, 0x867538db7882a5fa, 0x13420d4380f2a8fc, 0xf2333e3ab2c7a3c],
    [0x50b051dff7b51580, 0x38d1b8de608adcc0, 0xd37c373e359a741a, 0x1bebbd7c3e88b63e],
    [0x26b4796a16bc57e9, 0xde371ff76a293ecb, 0xcc995aee85711574, 0x101b1cfce09e9afb],
    [0x422dfaa80c7e39b8, 0x31e0a5ea78e26194, 0xd54aa01a30957190, 0x9866b876de53973],
    [0x60115312fef1a5ce, 0x6baa82621d7d8502, 0x6a40cb0e5f84ffd9, 0xd34bbeadd10a055],
    [0x40091c4c57345433, 0xb95a75d2e90f8769, 0x8522e5b331b2805f, 0x1dcdcddcc0aa7ee2],
    [0x9c7d9a7f37be70a4, 0xbee1c8965d49dfe5, 0x232f806664f4b950, 0x222013e1cb04b56d],
    [0x11c3ac257105acbf, 0x1cbf4ee953bb5dfb, 0xbc70937e2fb3db0e, 0x140eb0a40f600989],
    [0x469763ee12ce733e, 0x5dba9dcb5002710d, 0xd06eca1a7850d881, 0x1c2a10c01046a2b],
    [0x9bdd96f8595f903f, 0xa731488c6f0066a2, 0x4f0fd62603edfab2, 0x4be5c9c1a16eaf2],
    [0xaf52145be3efc41d, 0x6d1a916f6306f11e, 0x452c1ecec07be1a9, 0x2aa1bd7546c15d05],
    [0xd5863996a0f4dfc2, 0xa6732feff50099e, 0x4db4000fe9c999d5, 0x1ea9d7108069582c],
    [0x9c6c21c10f81aca3, 0xc6a729e722410bcd, 0x223e1cd73cc84de1, 0x244b02346c1e7aa],
    [0x7e2ec8f02dcdf30f, 0x567eace452491c7e, 0xd1e50c908d6d58b0, 0x818f382294f0d2a],
    [0xc43145551e938c57, 0xdc38a64344876435, 0x33045816bd9d152, 0x1a889d417861f076],
    [0xcf91946d9b19b8f0, 0xf016c7c7f902d0f1, 0xfbf481fdb838af76, 0x2a741e0f1842497],
    [0x3482d9d100dcb69c, 0xad9f42f8c2e209dd, 0x2b65254d7ba4170, 0x6da5a57ba1e1f0e],
    [0x76ee2cef01cc64aa, 0x92ae2a3c5e63a938, 0x639d439958e55821, 0x2b015d97e986c22f],
    [0xef011d6d40a44966, 0x5d14dedf21f1cb88, 0xb1d2a84794a2c090, 0xe6fd84ece440532],
    [0x90112f08cd2a517f, 0xae3de6cd3f909050, 0x6f21a2616a31fb14, 0x180cc40f9b1a551d],
    [0x74f7c658604d7b5a, 0x9785e8f406aaf81d, 0xa29449e0196a7ca1, 0x113bdae7dcdb55a5],
    [0x7c24e91cf0e270d9, 0x29d6b744738d0f90, 0xe2034bd82eb65667, 0xaea1a111b956238],
    [0xef7be35042b49789, 0x9ea37e2192595d31, 0xce6fced14de0db18, 0x2d877c0d3637dccb],
    [0xf991c81219590592, 0x1cc3b7d449aa87, 0x597f5f4e2a95058e, 0x64a1369e5439801],
    [0x5debfc09ff323eed, 0x706f465191cc6af0, 0xec3785cd300ed55, 0x133405bb6e5e245a],
    [0x7385682669dd6231, 0x28fe7d373e3bfe07, 0xe1125af0b7ceb2b2, 0x228bca7f9390e0cf],
    [0xba3987a55cf62d3f, 0xa1f388ee217c0e6a, 0x2bdf437341c03094, 0x90116384ea56908],
    [0xac1ea3fcce1fe938, 0x2694c936f1573ac7, 0x54c71d40114a0bb8, 0x196b76cefdcc7f6a],
    [0xf706f364709fd64e, 0x4dd8440208b0f4ee, 0xb815150ec24051fb, 0x2dcedcc12959aba1],
    [0x1a8f1500b738512c, 0xf23a003e14a2cdc5, 0x490885f0bc0055b4, 0x4aa0509e7a94554],
    [0xe5a4b21f6e6d5c9f, 0x30be2bd5219c84d, 0x97d8d745888387e7, 0x1ad3b6634a63d1bd],
    [0x436fb4351e5167c2, 0x23ab35103b7a31d7, 0xcd493305ca2e581d, 0x2722ff91fab311d5],
    [0x5990c475326a0a08, 0xed892e0a941866b, 0xdc4312c914ac48b6, 0x1756e34f7af0be32],
    [0x3e996bf79e8910da, 0xafb31782fcdc16ae, 0x7fc486d845382aa8, 0x1f9681a26d581ac8],
    [0xd916c42b56d4e056, 0x3dbc1d689a02efef, 0x6d0ec1289e59dc99, 0x2c407593aa6fea94],
    [0x5c5b13732213de41, 0x2d4db19f18f45734, 0xe87beb690bef3b42, 0x12d5a1f35a3bee7b],
];

/// Part 3 of the sparse partial-round rows for width 17, as little-endian limbs.
pub const S_DATA_3: [[u64; 4]; 256] = [
    [0x509b05648b59e317, 0x76e5998f69193243, 0x2a4bd1af5232ab83, 0x1e444d4510e2cb54],
    [0x9f415b2ef44813ae, 0xee64951ba2455dcd, 0xe39dc9e5f85ad954, 0x1c51186bd573f6d8],
    [0x1dfcd52fdcab3825, 0x1633915380696b57, 0xcf18464eb08422f5, 0x24c84617d0f0266f],
    [0x882f03621ffbb724, 0xd33e93a0ff0e360f, 0x54287e1560c81f0b, 0x4894d26fbb9694],
    [0x4bca6867321330cf, 0x4885f61f49154eaf, 0x9bb490e8af37bf2b, 0xd669e170c442808],
    [0xf10842aa9ff4c77d, 0xc4692840a5eecce2, 0x5bf0f9831c8b37e0, 0x54ead1e70a68a2a],
    [0xe76b0ebc3e55738b, 0x926d6518e2e20181, 0x60f6c0e87a7ed6, 0xaffcbcca6d353dc],
    [0x7e0c54b1b14d4fe1, 0x8ac55c30813c7e1b, 0x181efcaff53647cf, 0x21fca621016a771a],
    [0xb735dec70dfdd6df, 0x74870fb9df0252c, 0xc30c9554fd01780e, 0x12f2e46957b88910],
    [0xe9c866e2a04f1713, 0x8d8bcf1ab65f3d1e, 0xc6008a0280365610, 0x16baad45361a5052],
    [0x4594c3d0aff5f070, 0x481c951f9faa52e4, 0x3b7ac41cbf904593, 0x202cfdc4cb85ce70],
    [0xdbe72a78f4d93741, 0x321394713577fe59, 0x9b943714e6a11097, 0x2782837366366c2f],
    [0x5d3c44e0cbdbc0d6, 0x69da1eb7a491ea6c, 0x947b2684abe555a2, 0xdd863bc6e9a0abd],
    [0x412b422929e8d42d, 0xa3bbb9ed321b9915, 0x4f31b68c93f21638, 0x2b1ab0a5b5516d7a],
    [0xa41843beda35f07f, 0x59e181546cd644fb, 0xc2396d52f5c691e4, 0x247c684cc872df52],
    [0xd9ae9de6b13d0b9, 0xd04150563119def6, 0xd3abdfd4fddeb0a1, 0x17b09bebdffdacc6],
    [0xa089fd6ec42694d, 0xea26ecbaacaf079f, 0xaf88e001648da149, 0x20377c6ac1d667ee],
    [0x4fb03b29afde1b0f, 0xfa3fdeb4d719d37e, 0x59ff4c88150b93e9, 0x27baae8b9a93a094],
    [0xec335e27190d0840, 0xcbe4a1ea329e779c, 0xdef9dd3f43655181, 0xe105b04d1d6efb0],
    [0x1ddc827e5caa82f4, 0x85c81fc4f7e7715b, 0x5ddac76b990c6ae2, 0x1684a9463b01286e],
    [0x1337b4ab542af356, 0x85f3605028028f5c, 0xbab4ed613fa111bb, 0x1a1171d2f0e3c131],
    [0x297d51482c548ad4, 0x49ed66e17038f7be, 0x43bc2e362be8a44c, 0x228742f926c112c4],
    [0x87a5423754b0d1d1, 0x8ec26f61c36d954b, 0x47f7296e5bb83337, 0x10bd84eea945febb],
    [0xff8ce1bba63d032f, 0x63f768a7e127bf10, 0x8038e5ec16560f65, 0x2d17cac96f22589],
    [0xac1ea3fcce1fe938, 0x2694c936f1573ac7, 0x54c71d40114a0bb8, 0x196b76cefdcc7f6a],
    [0x88246bc63dafd307, 0xc218acfcec269d85, 0x16c11e52c62a89e2, 0x23091d6274d72f05],
    [0x93d9921a320fdc5e, 0xab509934e197ef93, 0x321b96b3c4bb695d, 0x9400b7e97812bf8],
    [0xb5ad8ace05931036, 0xfe4f0b969e2b1f33, 0x27e20b5d340f2978, 0x1c9c8e269b7b5d25],
    [0x975e4765a688e277, 0x47fa89a118490ece, 0xe64f032f3b6c5aee, 0x29bcaf9978fe301e],
    [0x49066bd753e57833, 0xc74f060cd3ed87b2, 0x409884a4bf82116f, 0x2c43ee462e5eaa57],
    [0xd66a80e816b75e0f, 0x7dffc13a78e78329, 0x654f2f419bc1c1e0, 0x1045ea9efdd2d37],
    [0x64b1cd9f59fea9f, 0x639f4643262b9fe6, 0xafb0ad5d2e7609fc, 0xbdd990f09c0fbfc],
    [0xc19a6d7f58cca0b5, 0x1e35552bb82ecfaf, 0x7e077773b2ac321f, 0x1cc3aecb65d88c11],
    [0x64e27ba56623ac56, 0xba116a7cd4def08, 0x7aa4bcbdaf01b94a, 0x234ca75eda2b98da],
    [0x6fccf0b4268368a8, 0x1bbd4d60b6a069ff, 0x49416efe4ad14c69, 0x1e5844a479ef8743],
    [0x4b5b1b8bc25fafc7, 0x4cea2337de8221, 0xf84d45aa2a5ce40f, 0x15cf4b909eddcc0a],
    [0x335fc986a5d3454, 0x16bfea9e46b1ab15, 0x459fe5dea6035f44, 0x21fcbaa23db9816f],
    [0x15a26118408f3528, 0xd8c5213652cc7bed, 0xf5ea72945e427601, 0x23096d193c542015],
    [0x98e380534da1ba1a, 0xcf2cc8c9ed846997, 0x688b2e5c5b646a9b, 0x11ef3930fae556e5],
    [0xe27fa14d97aa1236, 0x43b823259dc5c037, 0x220d23e5180ea347, 0xb2804a0c39e0406],
    [0x6188bb68411cde19, 0x885f07515d1a52ae, 0x1654396f1e7ce9, 0x293618a713ae76e],
    [0x347d841cd429c1ee, 0xe4a774c04c82721c, 0xfd04db4378e73b3, 0x2083bc523f48f231],
    [0x1f0e33b05f20a3af, 0x100079327567a74, 0x2052d0e04ad07d83, 0xaf7b362c84812df],
    [0x8d413e67fb9cfe75, 0x3298f8d66282665b, 0xeaebb8b6c838ee15, 0x2f0a9bfa024571a9],
    [0xb674108ebcd533d8, 0xf6c078339d48834c, 0x4bb22151c4fc6b54, 0x8e5f97cf239846c],
    [0x2957fa312693130b, 0x902b5a66f4d0a173, 0x62758a699ee2b9b9, 0x2ad7be60b34c132d],
    [0x2aa0077bcef5c39f, 0x90ae9dc9f2c62e39, 0x4cf74361aa9ec038, 0x2bd813ea81fd2be0],
    [0xaf5647f07ebe9982, 0x9b866a0a5f158a2b, 0xd8a0265f870ec80f, 0x2e720551011b0b99],
    [0x739fa453740b3cc1, 0x5a4844d8df2d931c, 0x185b59523fd75a04, 0x2bf18b6a692d4c64],
    [0x84b229e822d858d4, 0xeaf4df7760b2c30, 0xb6b374b355fb08d5, 0x1c166f7ccb69a59d],
    [0x624e3512fadac097, 0xe9822b98d32f5bc8, 0x71628bdb9524d75a, 0x79b610d77c02e9a],
    [0x57d21b48a0e411ee, 0xa57abd1ae403ab02, 0x3806c4f7061488f0, 0x1916de884fe9cac1],
    [0x38e1e04d26d3c383, 0x78e0f374b5e9bdb, 0xcfc10bcbc3b38fd7, 0xf107fa1c9d4a774],
    [0x4fbe8fe2428669e9, 0x1bfec0a3a58f89e5, 0x66e1cd5dadca8266, 0x1b3ef1482c159236],
    [0x88cfd738b0212802, 0xfccc68a9158523ff, 0xec53a125a0447abf, 0xa27ba24a2a7ad35],
    [0xd0c4ed2400463a4f, 0x6c381a9ef859bf16, 0x139f3fa58d088c83, 0x1a525ed62eff06bd],
    [0x6ae8ff8898b6d0df, 0xc757d448ce5266f7, 0xf6b677191294e0b5, 0x822eb9645c965d4],
    [0xac1ea3fcce1fe938, 0x2694c936f1573ac7, 0x54c71d40114a0bb8, 0x196b76cefdcc7f6a],
    [0xdfb8ff3496283677, 0x4a541413cca7183c, 0x5e2deca250a06224, 0x1af46f08f6cf19a7],
    [0x434ceae93e71e226, 0x6b21e762a80dc263, 0xc116fb26e68db113, 0x1839ce61b8c72bda],
    [0x9cf7d65224299cc1, 0x79746e4e3e83b614, 0xad325631b9dc70f7, 0x7bcd29e7a46c57b],
    [0xb30cc4e50f974633, 0xd911731da0f1973b, 0x7fbd6de55294ad6e, 0xa58deb34a1aa7a9],
    [0x4bab81d881c1f79, 0xc3c7f09f3cc38054, 0x55128b55fbad2c53, 0xc189862d767c9d],
    [0x709a30517f1bff67, 0x215093b833ca0c1d, 0x97fbb743163fa98e, 0x3f08f5db02c8c41],
    [0xea4cbe42a9d768bc, 0x20da177c45a5b5e0, 0x4fa08c71dd8281fa, 0x1bd997c5ae62f46a],
    [0x329d9ce31e6c9064, 0xb0516022da0c8237, 0xc2a6b9d356e15f14, 0x1dcdc615a1d29786],
    [0xac79c6c65180c6da, 0xe30316bb190e487f, 0xdbc0d44be29723d, 0x2125c1065d8c42af],
    [0x9d0def7f2ee018d1, 0x8525074d4259656b, 0x3ea18da7dd2f67d, 0x2a9dd846b9a92503],
    [0x314482ad8015bcb8, 0x474d39cb909d7b84, 0x653862ab6df0bfaf, 0x2a1da460ab707f31],
    [0x9a4437f43c44e295, 0x77d59146753fd958, 0x810cef816801cd8a, 0x2f4620be83dd42a9],
    [0x2678d487a4ced7e3, 0xb39be4a3fa9d15a8, 0xcae07fd77d2f2b82, 0x2390bc3ee228ab2d],
    [0xe0af29a42a8f2225, 0x2d6e47f8f58146c2, 0x110979562f1bb38e, 0xa0245ae7c93aaba],
    [0x67f21edc213d94a9, 0x825679bac449cc55, 0x9db8c79a3fff7227, 0x27e3d9f7c0d6c32a],
    [0x2eceac40374c95b6, 0x98e6d27426da9b9e, 0x201e3e300b2a0857, 0x2172e74151fc03eb],
    [0x60afc23e51129460, 0x35d6491368709542, 0xb01cdb380b39b49b, 0x246a685246a9403e],
    [0x6b48b90367679ccf, 0x9b1a88b9a1154e5a, 0xf35f65e5590bd1ef, 0x4f050f7043b183c],
    [0x5964c17eef897acd, 0x524bf5ed75ea0a37, 0x721c7e1e43474983, 0x1ad58c70ac13714b],
    [0x991d2ada9cdd0552, 0xd479447bbc1b7209, 0xcbe870a8dc16ca12, 0x9d3719d52186421],
    [0xd05340268db293e7, 0xbf372160c58214d5, 0x8bcc936be91a9b58, 0xb2d605b80d2d16b],
    [0xe700031a9809382e, 0x1796fe3f767449dc, 0xf80c28816163d628, 0x15efc1be172f0c1c],
    [0xe8a458215351c5bd, 0x21130a93ed2baf7e, 0x772dc37da2d0ec37, 0x18a72ca7580618a6],
    [0x946631bd226a5222, 0x8eda0c773c24cfec, 0xb0122a6f3bbc62dc, 0x18495f1fa2b09573],
    [0x76cd9a43509d5027, 0x2be6d7a16c27cde7, 0x83c361cb74541903, 0x22835e5153507397],
    [0x6e1aea742c4b0c11, 0x7e9c879fdd118495, 0x1eb517dcb715dbd5, 0xfbf1fa536a4d74e],
    [0xa370ea96dffb4fe1, 0x65507f6f2a1b50f9, 0x156f69c1c6ce033e, 0x1bfa4ad591bc024f],
    [0x1670502a2797788d, 0x413b07806c5ef6ee, 0xda040822c8d84a7d, 0xb48ee00c1a3b873],
    [0xac3d7f6b2e02196f, 0xad06ba11c9d6c284, 0x6155af9c401957d, 0x1b0c2c9ff1649fda],
    [0x49b50c0af4ddc907, 0x5e8e64d863221f4c, 0x6696b9323eacd2b7, 0x11b9857c7ac1e55d],
    [0xafdf9fcc254a9297, 0xcfee68f8d42eda00, 0xadcd0a0f187751db, 0x4d2913e434864bc],
    [0x97f619f44061fb1, 0x92c1baf9b37db068, 0xb37f00aaefefacf6, 0xd47a86ba4e4c33a],
    [0xac1ea3fcce1fe938, 0x2694c936f1573ac7, 0x54c71d40114a0bb8, 0x196b76cefdcc7f6a],
    [0xe2f50b4065ac0c65, 0xb8c6dcc306994016, 0xcd113539b4be76d5, 0x2ee08c0e4d7f163f],
    [0x4c8c4642fc9ca473, 0xf0d2e5df5a43207f, 0x361666fbb6230033, 0x2e4ee3771e570cac],
    [0x61c291fe7ebe2bed, 0x8e658747d500bbbf, 0xd225b9f88c117cb1, 0x22e78c9bd18311],
    [0xd1697019b00a4435, 0x3c2098cb0939f019, 0xbe3b9f5645d4daa2, 0x1b015cfa490fa705],
    [0x6c191da0c5150f5a, 0x4bad3458ff9e031d, 0x425b07c5cf73f7ec, 0x153d716532b1856b],
    [0xcb76bec51f7b561a, 0xa4186ed35cb914b0, 0xbb52a3ae26931620, 0x25ddff7645c1cdaa],
    [0xd62ced05f3841437, 0xf40404c011cd5f7d, 0x7e825e508ee4c40d, 0x21bdea71747a451c],
    [0x602589c3ff0674db, 0x91ce658456697ecc, 0xf3be96a4847d2f16, 0x2feda62db255b655],
    [0x8ff05d934def0ffe, 0xcfa56d828df39d9f, 0x63cd4bb6c93596b7, 0xd31875410079369],
    [0x25b8d038eb574c1d, 0x1108e2f7bc0e58fb, 0x8ffa30d735ff3454, 0x26e633f970dbba03],
    [0x8c5e93fc37bbfd9b, 0x80fac8454fbf44f6, 0x266fa76bf7064d89, 0x23c8473f9504bc04],
    [0x60c518c1d3f8502a, 0x457ed1d8dff8a30d, 0xfef7620ec582ae3b, 0x187a7a328ebe30f3],
    [0xbcec2c94b50030d5, 0x8be4d81ca1f1ec06, 0x3d36f2c3f0735914, 0x1072a4199dd532ae],
    [0x1617c7bc34f0207a, 0xf54aadb170d499a9, 0x34c56f62f6adedcc, 0x1d9c9c64cced197],
    [0xb9dde03cc761b170, 0x6b119051e2c6c8f5, 0xbc0b3b20afb76f14, 0x1b09945179822511],
    [0xa0f9836ff6728216, 0xa8419d5442c22575, 0x8105f1814f9cf4cf, 0x29d1379f40c09d9a],
    [0x250f98523363d583, 0xa9beca3ee806557a, 0xa23b259cc6dd8d4a, 0x200809b6e7114084],
    [0xc351ec16f256db24, 0xa09d4b0332e4e54d, 0x80277fd4bf931744, 0x13169f87f4d5bcdc],
    [0x751aaa497389a092, 0x83817073b975a842, 0xe8b08cdbe0129070, 0x22486dcd2b50c5a6],
    [0x9fbe7080fe13a841, 0xae4aa25b45d93149, 0xff4a80d5e338f69e, 0x986aed7b10fc9c],
    [0x13a54ff235069d0, 0x27033dd96dd87a29, 0xf021c72b4b516dc5, 0x2a3346c974a7faa8],
    [0x69c42843b46c7b4e, 0x4feed1b023c2b31a, 0x18f39bbb2410e0c0, 0x1ac08487b535338f],
    [0x7aed2b318f2f3f6a, 0xf5882143e70237ed, 0xdc86f82c289788f4, 0x2db4eb2420d57123],
    [0xb3fd492ad4e2ee85, 0x3efbdc57b78b1800, 0x259dcb656daddb27, 0x179e156f0f6229e6],
    [0x24e404fdf85ecd0e, 0x5da5fd6d46f31d4, 0xba6b2b4183781590, 0x18f1ed42c2dca995],
    [0xabc0f3244b98c067, 0xcad928312bf4d32d, 0x1e1a07709ecd1782, 0x12d1ddb3125c15c6],
    [0x27b805d6926dbd17, 0xc41421569e40146d, 0x49f762e63f02fc9d, 0x19a555ee9a57b0f2],
    [0xb50b6a8b890fc933, 0x743fc2ac15dbd1df, 0xda4da7f2bafe65b1, 0x22905039eb92f068],
    [0x3d173f1a5f5bab0a, 0xcf3137cdcf1306e9, 0x3367320323c66ea6, 0x2aad30b3fda588c4],
    [0xa590597b6be28986, 0x152a0c737c6550d2, 0x5844c73147d86b8a, 0x661d95dafea3da6],
    [0xdce528343488fb9c, 0x413b864da5232181, 0xd2a1332a22ff6cae, 0x149f69bee6b12529],
    [0xc07f56c946096b24, 0x63a460e5e00780c3, 0xd816cf7cd4888618, 0x2f40107da2eba4e1],
    [0xac1ea3fcce1fe938, 0x2694c936f1573ac7, 0x54c71d40114a0bb8, 0x196b76cefdcc7f6a],
    [0x125afa14416693a0, 0x356c182a9b8bee5a, 0x90ffacbfa0f82b1a, 0x89517399fdafcc0],
    [0xaa9545f4432f1597, 0xeec4a8dffc775f43, 0xa8b9b6c8ceedddf2, 0x1eb0320ce68e5c0],
    [0x11e09a6a9ebcfb76, 0xc8253ef609e78a36, 0xae5ec6779af517d4, 0x9b3b380291ed46d],
    [0x7cd33c9305c0107, 0x4004209aea0434ed, 0x4899de133f9d0245, 0x2712ea45ea88a54e],
    [0xf5bc00c036817e9d, 0x3a3f7c26edb5c0c5, 0x5d2c5c9e0dcab0ff, 0x13e4cec6c5fcb7a5],
    [0x672c3e0c09aa2436, 0x37ebebea4e7e8c06, 0x2bd077c340752e68, 0x132f73f3a5a70fe1],
    [0x62ef6b2f9f4c2d4f, 0x8186fb02d209b222, 0x4cb20417114c602e, 0x24f5ae848c7765ed],
    [0x289b9a10b029102b, 0xce46cec50d7720c6, 0x4da190ea76628d98, 0x1f3203e2946c3e78],
    [0xccd6b71d3d8a5721, 0xfb91338ad0a037a6, 0xf8a190472cf69cc8, 0x405b17b0927364e],
    [0xc11c6be8d2005234, 0x9e34edad7bd4fa7f, 0xebbb26f688c10459, 0xd7be909c6d203f7],
    [0xd503abf45cc9d338, 0xdf3ba002859b6bb7, 0xc24e39af50a5f74a, 0x23b843266076f360],
    [0x2e42457c93520039, 0x5ce4ca0835a96611, 0x13a78862d77f9043, 0x12ecdca40e7a5ab5],
    [0xf9d0b2ef68a0c1ea, 0xc6152e0f86221d82, 0x2d5c8dd84006c245, 0x248096c473071c7c],
    [0x21f5e6ab44bfc644, 0x8c019b327190ae6c, 0xd83c5b6c386dbccd, 0x1200227f631558e2],
    [0x8f803eee3effc0ae, 0xd6e433b5cebfeb19, 0xd960aab443cefeb6, 0x1d757abb199a6c84],
    [0x852be61e83409d9d, 0x57aa165f0b302a2d, 0x8999349c7b7b83cb, 0x273c19ee6be35b4b],
    [0xe25cc710354ed88, 0x157d35e28ac98e9d, 0xea42db19426bd074, 0x2d1ca26ca5d5dce1],
    [0x37e77f89b127d4a6, 0x2390655279542f98, 0x7d79a2074474098, 0x2ecbd2ea29341b7],
    [0x7d92c70d4bd5134, 0x31032f05b0c856e1, 0xfd22d8bd34c4f9c4, 0x266a6643f4b1c323],
    [0x4ad43ddf677f4266, 0xb492e604fe10e2db, 0xc047ac41ccb0121, 0x1062e99d5dbee4ab],
    [0xbc09954783ee2b6c, 0xc3d4b03e8d656a59, 0xbf5801f8973bb94e, 0x15f2b18d006fb5f2],
    [0x4f53982bc581dddb, 0xa042a1c80ef06355, 0x9f5b07b27540e85e, 0x72368c0d5eff7b5],
    [0xc5ec29289e0cf286, 0x772edabae0f82c0e, 0x4914e5679bdc70c0, 0x17aa521645020d9a],
    [0x42dea9d7d6eee209, 0xb1dc60db752ce863, 0xbe98ac5a64250d6, 0x2f968cd2126db926],
    [0xf64a1c2be32c909f, 0x84ed7a51977826f1, 0xc3188a0a3287faa2, 0x1824ed09caa77169],
    [0xab8996dd9fd2ce68, 0x2500c1205b785a5f, 0x8fbd033dc61444ae, 0x2b8fbabf299d9da3],
    [0x802d9083f5e6dd31, 0x4eb83c6ac8427320, 0xe0c4cbea9573658, 0x1be598eea60828e1],
    [0x815ea2b854183ea5, 0xae440690c1fbf4bd, 0x2cfc3ba540ac128f, 0x463af34caf20c7b],
    [0x7ce0adf60937ebef, 0xad450b992bcec279, 0x6573fd90ab5f0530, 0x2dbc1aa280bb43c0],
    [0x6fe1d5c48be5c501, 0xd64329959d40cc2e, 0x2f8e460ce63d2baf, 0x2aa7cd41625eeed],
    [0x13ba45df63e777de, 0x5d2e602da6514919, 0xb1ed8d33f792f2a, 0xe3c80439636f2b4],
    [0x6bafeed9e83f40f4, 0x5c846734071ea1bf, 0xf943dc0b4c56d32f, 0x3ae4d78e90fa89],
    [0xac1ea3fcce1fe938, 0x2694c936f1573ac7, 0x54c71d40114a0bb8, 0x196b76cefdcc7f6a],
    [0xf07cf6b99b4a3611, 0xb90d4098ff54718d, 0x7ff54fb3752a740, 0x1f3ba6f2a0ace678],
    [0x1760d2365d2c3c31, 0x1a51b32a84980ef3, 0x968c64cab0db27f4, 0x2b2d8688621a0b62],
    [0xb61a7efbdb32371a, 0xbc280bdf70dfb7e5, 0x137d4058abd749fe, 0x27ecb287f3d9aaf1],
    [0xb06e9bb1a8f5dc22, 0x36b1bb8e1c08ba7c, 0x331fdfa135dc56a6, 0xda7a17691f64048],
    [0x15a9b21a22cde940, 0xe0505cceb58e8aa5, 0xcddd22fa3f50214f, 0x228e87cff48ac1ee],
    [0x44ac7b71906bdefb, 0x766152df2998fcfa, 0xe9a1229ff4878eef, 0xbb1e094527421fd],
    [0xba9ce1ca21b3c5f2, 0x2b9d9429324fab62, 0xfb675aa6be31013c, 0x2162e5b127d7ea5],
    [0x40b8dd9cb735f4e7, 0x6c27642aadc29e4e, 0x189615a15ad93e14, 0x5e7c2a9c59abe90],
    [0xc3af678413535e12, 0xf49b560e1991497e, 0x53ce16bb6adf8f61, 0x3b7e7cd0a61c8a9],
    [0x75c9a9abd0c784cf, 0x1e6f5036185a3f1a, 0xae906852fc7fb166, 0x2b48a6d7de08553f],
    [0x5b8792a51ffb8e37, 0xf59634073c13cbdc, 0xe45dc7e078dc64fc, 0x1451c962e6d5dd24],
    [0xa2408cfdfbfd18ae, 0x4411d89890f9fa5b, 0x4b7b4e2bc7b7a1ff, 0x22aba4d49ebc306f],
    [0x5d3e178544cae4a3, 0x1bbeee55882ea162, 0xc34b0069c62d2cb6, 0x8edd76a666b9264],
    [0x3abf80aaa1504fbb, 0xdc6855b74ef16674, 0xb0b1d190eea07fb0, 0x1cfa9bda9fe33f9d],
    [0x7543f56382f98732, 0x47a3fcd0e8b0d7ac, 0x14b06dbd2b924245, 0x21825a8220bc43bf],
    [0x4b7b58126690dc0, 0x5bfacad871172c30, 0x21f902a43008812d, 0x22a03c9f43612946],
    [0x491b86f05c49beae, 0x955cede00e37d3ed, 0xd7308af04d943530, 0x2c4d459fcf7b58e7],
    [0xa9e3b3af3e80a143, 0x43f2879ef488fa45, 0x30b1fc5e17d4d603, 0xe099659a9468248],
    [0xf30e28c8c4a49882, 0xf06dcbe80aebdca4, 0xaf6d7bf9a7b2e695, 0x3b256a5437fa8ed],
    [0x76051515104a617d, 0x1d4b9b6ceb0c7f4a, 0xa6d5f3d0fa4bf31d, 0x473c1deeb016648],
    [0x3134c157361995d3, 0x7a02c216465ccdd, 0xdfc4685c5c5a42ed, 0xa21735e2b1040d8],
    [0x2edf84434e081716, 0xd2259a406282456b, 0x8d9130525778e13, 0x1a0b96ee1868978],
    [0x994c8aeac1233f4d, 0x9f9e376307a7310c, 0x620b233dc0d892c3, 0x110d5d3866aa52ac],
    [0x4ccb666dbdf053c4, 0x52d4fdfb607f5ef2, 0x3200929b55122368, 0x1fa9ce9d08bc9ef4],
    [0xc99f0aa99b27dfea, 0xd502e89c8e21323e, 0xdf41dd3da20efbdc, 0x8b8fb57cdb79dda],
    [0xf683b4d9bce93e4, 0x732440567ef2be72, 0xafe6895258df980c, 0x20e451f487bf7f30],
    [0xef51799f1d971901, 0xebe21465b9259c7d, 0x7af8fcd8f02b3b2a, 0x18934ccd6b94d3d2],
    [0x7fa0b9405936e1, 0xb949e55d567100c4, 0xbfdda3e968afc622, 0x2502b2fcb6acfdf7],
    [0xf27c0f19df51e520, 0x5f64c8e0f382ef20, 0x5346e22a28e4fa43, 0x1e22a9af8fdfe918],
    [0xc55d2344c72a0fed, 0x3a22f674ed0066ec, 0x479b8dee99d460c7, 0x1bacd78770219cde],
    [0x7293b96d8fad9fe3, 0x618b89498a827ea7, 0x30304a6905b05621, 0x1c5dcc7784cb1a2],
    [0xdd768178af4d7789, 0x89d33bb2c6d27a5f, 0xe98511d358572d7d, 0x1514f7a6184d2f5d],
    [0xac1ea3fcce1fe938, 0x2694c936f1573ac7, 0x54c71d40114a0bb8, 0x196b76cefdcc7f6a],
    [0x58c4acd2bfbf35ca, 0xc46057ea80fa64d3, 0xbf0e9a2f02f0e7f9, 0x2871dab4aed8cf27],
    [0x6c252f9f4c96e139, 0x2c634a7ee951f61c, 0x5c6715e959788a5c, 0x16b48bc071b2d9d7],
    [0x54070888cf58c027, 0xd9cc3e1d34048910, 0xd0cbf1f6c75a96fd, 0x2423991e2cecb8c7],
    [0x100acad86309bb34, 0x57d239e90051d360, 0x166ddb75d46bcbae, 0xaf6489dcffa0471],
    [0xe6f960e841780072, 0xd6bb878ab5632b94, 0xb489926f032e0f6b, 0xa8fb4c80f28764f],
    [0xd69434d0553085e1, 0x2952ba391eb6764e, 0xf0742aaee2619029, 0x2ab3c31cf9ddab37],
    [0x39f6d8a66c052ba4, 0xe766a01ee4ab3108, 0x6442e4b5274483d0, 0x128a537033583b87],
    [0x6823b3da92e41530, 0x631b21106cd47d45, 0xf2bb13af733cea64, 0xec7bfaa62f8146e],
    [0xc5fc610aaf9f288e, 0x96977782cebec4a7, 0x29a540caa3f2fe08, 0x1d26f27900c3cf26],
    [0x69fe2503001d14d5, 0x2c80383a017e432b, 0x95770b3d0a7e2730, 0xcd7296fc0086a38],
    [0x69011dd2017d2cdc, 0xccdd2980aeed4763, 0x8945ddddeb3f6ab0, 0x5efb5ee8e22ccf7],
    [0x27152bdac4876063, 0x9ceca3d4898dec52, 0x44102e37c8bac9f, 0x2fd3058e8276c3e1],
    [0x4e90f77d20d2be54, 0x41f9396a25140796, 0x7331a1217ba0462b, 0x3041d0de272cc400],
    [0x293fe1a51866ebeb, 0x58b5249d78921516, 0x40c2e670800e4627, 0x22b44b6dc784db7a],
    [0x5a14e164909a963, 0xcdcb81f238ddb53, 0x482cf7c9f2c82edb, 0x1472f9c6b744713],
    [0xfc1254b690b857a8, 0x895d44337b760d95, 0xc18d924e5cb407e0, 0x11cc50e647086a21],
    [0x53847bfe27f73a56, 0x1bbfab317d954786, 0x8482c2b2e8f4896d, 0x1f6870318a97b345],
    [0xae4ae26f30c39253, 0x5dd85d36d29792fc, 0xa5a78d8e449466ea, 0x527b77967bb4404],
    [0xfa53c219b47c4ecb, 0x7ef1e68772ce78d4, 0x804a6ab3ca1fb135, 0x114776906608a453],
    [0x8d2298cebaf5ed10, 0xad0820e9cc000ea3, 0x8b983e4452b407d3, 0x227cabf1187a8e8c],
    [0xb65ecd5f98aafd89, 0x7dc86b47ecd50620, 0xe88217ff94382b8a, 0x2cdb16e7154d3366],
    [0xe2b2c9c6e662fe41, 0x595d6af80463e9b7, 0x923cb79ec491f17, 0xbba92a567cd15cd],
    [0x4e6e3c2cd053e66, 0xe5ec0394764f2bd2, 0xbb2ae136893924aa, 0x1621a037774eb85f],
    [0x3910e6a0a2a736be, 0x86a115dada554e31, 0x2f6ba8f3b51084b8, 0x1b2f4b4974fe9c4d],
    [0x473d67d98b4660a1, 0x90076e523dbb5bce, 0x5d9e5cf0393b6697, 0x17f058954543b800],
    [0x79b20a4a9e618a96, 0xeb12d9412dfa7c2c, 0x3bfad52e5fb33120, 0x2a131d0e2c1938f5],
    [0xbd7fcd7ff8422321, 0xf3cbebe8bded20c0, 0x47b63629d99e72f5, 0x1e1f17b82c8ec067],
    [0xb1f704acc72a1a91, 0xdcd533f7ef798556, 0x247aa7062d15dff0, 0xf92dae5b5070535],
    [0x7fa7f735cc144db3, 0x5f6a7a813d9c326, 0x84975a5dbd44df8c, 0x1e26cb1e67c4ca48],
    [0x8472294be9910f9b, 0x4719124f83c509d4, 0x29620e438af37773, 0x278e469316bcd008],
    [0x55d4eb409db88256, 0x70c8e248358e2566, 0x337a21eb006cccc5, 0x2d931e21c6bd70dd],
    [0xab2c30abeed628a6, 0x5d78b0436d6846e4, 0x151590615fceb9b5, 0x1f3aae749c86c139],
    [0xac1ea3fcce1fe938, 0x2694c936f1573ac7, 0x54c71d40114a0bb8, 0x196b76cefdcc7f6a],
    [0x37c941bd3aceec41, 0xc3e7ed67b00ed3fe, 0xde5deaa919a419e7, 0x164cecda3aec3963],
    [0x3dff37466824e28a, 0xbf7622f91480c2f4, 0xe76f2c1fcd004f07, 0x1ae5c087043dc196],
    [0x111cdf9eb6501362, 0x86e842db48b98006, 0xc6696a4f6a3ce23d, 0x206d121a5d5c0e50],
    [0x6ce4ead8b0ceb92b, 0x9a78daaaa8a16dd4, 0x6503bed07d9bb25e, 0x273853516d030f96],
    [0x59056288f9c80e8d, 0x6bae27ed780b23b6, 0x23496f81ff3471c7, 0x2a473b17daa80520],
    [0xd0ecf0732d143cf0, 0x13530f09d04258d1, 0xc8f7c90e8a6edcc6, 0x126700ad12b26c87],
    [0xdace529a0de19d42, 0x264d51580679fa84, 0xed359a44c1949447, 0x70f6900e211a2d3],
    [0x5ab951b01348abd1, 0x1903ccfb19346cd4, 0x9006756cbbb15e62, 0x1d196536166aafe9],
    [0x5d45f4d796213d15, 0xe15745dee50b2ae1, 0x8d28cedff00c8c86, 0x16a6413bfd363eee],
    [0xa05e96a30153132c, 0x95f1003519cb3a77, 0xa41f9cdb142b86ff, 0x14fe39f6bc1fb0e0],
    [0xac5acb5513159f08, 0x9aa0b726d3d82859, 0xeca377a1f1b58eca, 0x2f3719862194ed2d],
    [0x7b704232d7d85a02, 0x74d5bfbcd0f9c260, 0x857d65e1ab5a8415, 0x2ca365f66b59cc38],
    [0x958fce53be2c6c20, 0x20e08c28f8772ca3, 0xb34a4601668596fe, 0x1823d36e1b33841e],
    [0x718efe5b74578898, 0x507d07b64a2f1665, 0x4d007345f4702852, 0x15d27279b7f1b751],
    [0x1aedf4002b7d6bb2, 0x62335045a51e43cb, 0xd7d09373534f2995, 0x11b3efafbd53f96e],
    [0xc4fbd9734f5004b8, 0xe368a52afc769952, 0x11068e6f50fdd1c6, 0x12a0a91a60255469],
    [0x92f7066b55904538, 0xaeac8f3e15df09fc, 0x12b49748faa4a4dc, 0xa9d7fc64fc90b9],
    [0xe35786fc9c645df8, 0x670741aeb1f1c465, 0x94822544c8d7cb6b, 0x15371b75e8adea48],
    [0x2caa4a914007d517, 0xb8518b6375646ff9, 0x9e511e656d51a90d, 0x25fb2eaddcde3451],
    [0x58eb81012f17cc53, 0xfcf94882febc1c9, 0x39bd89dd4a6543eb, 0x2dfbb6f1e212006c],
    [0x9413adc4de72807, 0x78b3b8f519e210d1, 0xc1efaaf91cd3d704, 0x29593bb7f971b987],
    [0x43d989c876e07b6e, 0x5b425fe7a2e42a91, 0x4ecf9b6033710c65, 0x134ce1956a848bec],
    [0x8c89f7daca2fb8c3, 0x9cbc6b1e6935e187, 0x74dcc64152ec0302, 0x232e589b327424a3],
    [0x6e1a2799d72b599b, 0x9aad8f701b95f7aa, 0xe21fbfde98b4e916, 0x2ac4f4d9d1ed520],
    [0xb4e91c1750b27bb5, 0xb045dd338120bfc4, 0xac2aa8313a9143, 0x13843ac1a48019a5],
    [0x4954763e648a7c92, 0x1bf50c906115880d, 0x58bfedfa072912dc, 0x123366fe683fee8c],
    [0xf786db8c951dd7a9, 0x535711a43a8ebc25, 0x604a669c3bbfa3aa, 0x147bc77d1f7ef7f0],
    [0x473a92012394166f, 0x897ed54a1ca84c7e, 0x911dc3afe716c5fc, 0x2bb5eb86f2837f69],
    [0xfb5a38892936d47d, 0x6f7a40fa9d360b8d, 0x7704dbcd8ee87be3, 0x25e9535591df883d],
    [0xa6a0fd361fa09210, 0x280460e02c64b4a, 0xf1d585205f039fe3, 0xcf22a6787e93e4a],
    [0x2a4b963ed61665b8, 0xe9082cd32db18edc, 0xf4f32836140088bc, 0x15daa89536023119],
    [0x146ff73f0a3f2908, 0x8406ed147fb0687d, 0x23c9f511b4a47a97, 0x26a41abc8b0969da],
    [0xac1ea3fcce1fe938, 0x2694c936f1573ac7, 0x54c71d40114a0bb8, 0x196b76cefdcc7f6a],
];

/// Part 4 of the sparse partial-round rows for width 17, as little-endian limbs.
pub const S_DATA_4: [[u64; 4]; 256] = [
    [0xe7bfda5779b31a70, 0x990b96aa479b47d8, 0x69d2161f7bd3c01b, 0x24603e3d523263ba],
    [0x33bc1b173cd3fa16, 0xedc803704890114a, 0x34751f1bd23bef70, 0x6f06827f0a52b24],
    [0x5ef04d6538c9e681, 0x338da2999ab219a6, 0x3974714b4c15b9aa, 0x18821acd1d1a183b],
    [0x45e6bbb7af79ab85, 0x70a1952af3b9acc9, 0x1e5dead0dbbabecb, 0x25d1c75c19bd34c3],
    [0xb0b220b07ebe2251, 0x9562190c5c9203f1, 0x84782960fc5f2752, 0x2d16cd48d5eb9d38],
    [0xb45362197d883e67, 0x658133c6f63533a7, 0x7591bc895cf9cb65, 0x1bb2eb154cea451a],
    [0x6856553d2b2173c8, 0x1a7c890b6554cc49, 0xddf03a6c54e2915f, 0x2c1c099ec563345f],
    [0x2ae728c13cedcb56, 0x2224fd7ff2d301c6, 0x98439608aefd9d3f, 0x14de7c8a6f75d5c0],
    [0xbcf0c7a03487f34c, 0x7a058e42c5f45840, 0xa14e61590ab00458, 0x2a12b1666687a8f3],
    [0x72c093c2973d16ae, 0x96bcaf09350bff4f, 0xbb6678e070951caa, 0x124f681268028f4e],
    [0xf223146a7aed3f8c, 0x8981b93d24285440, 0x73cb1b0dccda3d61, 0xc61ee197e596769],
    [0xcf68c6c1c3bc24f, 0x7113e42b8336ce4a, 0xfc372a33a3ccb9d, 0x1d6a13345c16963d],
    [0xa0608b360547e72e, 0x48c3807ca216ae5c, 0xe82a00cb140c9ec8, 0xe90fe044265e093],
    [0xc389e0c719737002, 0xe8ab62d75ab26214, 0x1963e8b51f6a26cc, 0x28a0106ab648b3fb],
    [0x26d3a6599e75527e, 0x2830c134d14c3782, 0x351a0a3ba2310610, 0x1903a3f14cccc405],
    [0x603c32c6d0026730, 0x8927416f96bf9b2b, 0xd36e7f80045e56fa, 0xe69b6a45f98dc94],
    [0xfa08b2c3984ba37b, 0x1c5baf6b83ca01c5, 0xae27d250b5e9d261, 0x24028083240f0415],
    [0x42bb9765ab3fbbc6, 0x792f67fb4bc8abf1, 0xddf569d3fa3ba4fc, 0x10b97d7b32b7541c],
    [0x8bf03d55352ed948, 0x1872a9865e8116b6, 0xb702f6830542f84, 0x18514e6b6663e92d],
    [0x589aba4a168981a0, 0x6c7d41e6f20f3d63, 0x2e465c35f665c6a5, 0x7e84a91c22df5f2],
    [0x520dc5f07826d2cf, 0xa905a78980603f9b, 0x75f5ab6011d39a6b, 0x24c67c3debacff4c],
    [0xfe48c181a06ca28e, 0x1551249c22d8331d, 0xa9dd46013f218acf, 0x2302d72a48f7284a],
    [0x5137be1e727e3169, 0x53af1cfb9557af1a, 0x6c5f70cfdb899cd0, 0x1332fb9ed5a5a8],
    [0xc7e0b6d24dc7f542, 0x57db5eac3b9095c0, 0xf46e69fcd1699d5d, 0xecd3e7955fa603a],
    [0xa6a00aa4b5282ef4, 0xef882ab5e99b48dd, 0x6b35ba5feabc8183, 0xb7012f95446a6e5],
    [0x743bb6df13c72986, 0xf749b464ca23db2a, 0xdb6c83aa64d6801a, 0x2d9a9de40201e8ae],
    [0x995bab6c79f0c375, 0x47804a525df520ae, 0x1f213a478c9c677a, 0x29bd4a19c267732d],
    [0x14d706bc5facb110, 0xaf0a27a33c6aa745, 0x9833f4d33d7199c6, 0x1462f5ae05431a64],
    [0x90d293b1fbfc05da, 0xc4c1f1a2537b6e8, 0x45b87995cee2d52a, 0x291f96083043911e],
    [0x16422402b588766f, 0x8c4137db7eeef0ef, 0xa8d3635d7e842ff5, 0x411cba90e608a51],
    [0x44511161469baf60, 0xd607e773ec10b748, 0xb8c16bfa946c6145, 0xf7b5ea5565816bb],
    [0x9c8bdc9f5e49baae, 0x5331d3220cf54822, 0x9f081c77f3b7a58f, 0x338cdfab4ce8fdc],
    [0xac1ea3fcce1fe938, 0x2694c936f1573ac7, 0x54c71d40114a0bb8, 0x196b76cefdcc7f6a],
    [0x55f41f9134953107, 0x92a7fb8602d5d3b9, 0xdc0a356926a83b88, 0x124f60ff00a0e62d],
    [0x771ccfef70fcaad6, 0x97de268ad8218f4e, 0x6701ad707de762e, 0x7ec673039830a0f],
    [0xd7b5320a04dce396, 0xb3da7b6c66f26bd2, 0x67b719fb33e30e4, 0x740e5d063abce69],
    [0x921311b1c29b598a, 0x539561f31208e860, 0x9f88efc1360f1c6e, 0x7808acd3ea0c24],
    [0xba5c5bcf9c46d89f, 0xc00990bf176d3478, 0x39adcf38e91511c7, 0x112bf7f10ea174a9],
    [0xa30861aa5f441049, 0x7ec4f7a5e9c87f5a, 0x631a78cfcbefee4d, 0x197b19b25c2afe93],
    [0x1a7f9194a7ed7c62, 0x1f5b64047b9adc4a, 0x40a67449c3789b6b, 0x1ee3070e40c0e0e7],
    [0x87c38b5bda5c8a40, 0x925bbd7eff4c9af0, 0xf0ba7d65c20bf474, 0x2ea7f970eaef265d],
    [0xf5106c0e84a42e4e, 0xcc1a020c62e416bc, 0xcd837e14f954fc02, 0x87e362b638c1e17],
    [0x5c1aa28758081bf, 0x3afd5f7317a97ec8, 0x55fdc29bc6c8db70, 0x66c70edf98939e5],
    [0xc475b9cd9fd6ed2e, 0xfad273719aacdba7, 0xc56bee471eb16719, 0xb7cd01813db20a6],
    [0x6159cd2fa62d6208, 0x21b306e85552c958, 0x9e75947e51988f8b, 0x1baef4e284700ad9],
    [0x7c6ce9f40a4f63cb, 0xfa4f4949305956f0, 0x2b1bf4cfa9bd48ce, 0x2d70435bb7b0d224],
    [0xdfc761ed1d2cb190, 0x914abd2357de2d0b, 0xa8db29b2c8f723da, 0x2c9f4b07125840d0],
    [0x23ecc854ac90979, 0x1ffa95afca0130f4, 0x5900f2d146f6e0dc, 0x1a68c6eecf612104],
    [0xc19257c67a704459, 0x1e0b26ba61885817, 0x3c899e7dcb691044, 0x2bde9b2172e01e03],
    [0x866f51d5b8e44d1, 0xa9d4df5a72201a01, 0xd5caf7f0aa60dde7, 0x196364688be6c007],
    [0x5937ac6897b820c1, 0xdf61bd873a118100, 0xc10272422c44f883, 0x5e25bdeb203c4c1],
    [0x560e5aec4ea0f97e, 0x12f7b51809c70c79, 0xecec89ce8dde33d6, 0xf9392975fb3bace],
    [0xe1a02be72e0552e5, 0x9500fc61c1c921f6, 0xd540ea7c94ac8432, 0xb3a94a0d7fa6808],
    [0x4a6298ea3bec1f95, 0x8020c1156a521d8b, 0x309ce2227ac987f8, 0x57f2f77f6f39fcc],
    [0xd2fdf000f7bd2ca6, 0xa817341797734cee, 0x46d91412095b8ae8, 0x287141748ee5782d],
    [0xcec5c033380fea0b, 0x25242575ce407e78, 0xf1b3bd602743ddb6, 0x1d457716f5e27115],
    [0xf500e9eb5b39b2d7, 0x96a65c27cd93ed89, 0x64f39562a25a21c8, 0x1393304221b7afe0],
    [0x6b6c61faaa2ae29e, 0x3017da2eb3295445, 0x113119fd1783d304, 0x1000b0acd83b8b51],
    [0xd1c2c0a40840400b, 0xad7389433683ec7f, 0x25bd2bb1cd4add4, 0x19c9c7938f860731],
    [0x6f52251b1a5703ba, 0xe0cd8f20ca777849, 0x814a959ef810968b, 0x218bd78be9fe83b8],
    [0xdccc120dfc3abbc7, 0xc36d9f59d63f41dd, 0x3419051e901b45a3, 0x2724bc9c179c6b66],
    [0xf8e1b43bba4c1077, 0x449b9081cdfba59b, 0xb807d86cb977eefe, 0x1e9130d0ad5daa81],
    [0x90359400d2e925e1, 0x595d7a5ff8df9b21, 0x2720289707f2709c, 0x2d75c84b8825bad2],
    [0xf323f232db788557, 0x8b44ab8cdecc65c2, 0xbbf5005702ad14bd, 0x27628d274cbc76c2],
    [0xf67a3c7e3b9c7a09, 0xff3450524dd573b8, 0xdcd0b7cc3744e46a, 0x2a39cb3d3633cdbd],
    [0xac1ea3fcce1fe938, 0x2694c936f1573ac7, 0x54c71d40114a0bb8, 0x196b76cefdcc7f6a],
    [0x5a0020b3734b3e40, 0xfe17ddede4eb2e96, 0x544f6c0073aa43c0, 0xa09afb1c54f1db4],
    [0x5c8a48b5b85e9b54, 0xe71d1a7d14a7bf17, 0x735588413be17348, 0x18c1bc97aac4cd9],
    [0xaed39d048af8e466, 0x35702da038a3263f, 0xe8876edce2a2d001, 0x1a3730dc03e7f844],
    [0x8519615a0d10327c, 0xa15bb49936c1fb56, 0xe4ecb9a383846a2a, 0x25176e26f891655],
    [0x61fc045dd643569a, 0xf2f9fc032f1ee2e6, 0xaf278beb8ae7e902, 0x1190921ca2c2054],
    [0xac068e8187bd53fc, 0xa5885e066556ed, 0xeaa5e58ca6234714, 0x27301f456233aa2],
    [0x33d1fe8a24f22b0f, 0x65297bb9fd160f56, 0x271338eb6101a7c5, 0x14df7b40c8531784],
    [0xda35ade3354d3756, 0x91db277c47d721f, 0x85dd6a8d70641086, 0x201b7bcedc3f8932],
    [0x3514e43e61137f25, 0xc8c075ab2b3a24d6, 0x3f3cc914c35bd061, 0xd7ec7dce868dee0],
    [0xcdf44437ac6999f8, 0xd066d0e96336a6c0, 0x3a6377369cafc1ea, 0x1f4366fbd2173172],
    [0x69bd4c8fad9eb7e3, 0x2569c2142b3827f7, 0x2da533015643abbe, 0xd4f720bd1b1d8dd],
    [0x18cdf3637e28ac20, 0x13c5fd72badc53f2, 0x57ade931b07684d3, 0x2555325b985eb37f],
    [0x5e2f88a18148bb4b, 0xb18f4e5230eae7db, 0x2a0ff099cf5c3c78, 0x19577c98ebc619f9],
    [0x97073d0580bcee54, 0xa3ed5b5f0d302efa, 0x9878f0303b29e85a, 0xaab15d18bc39996],
    [0xdb249b80650fc2ab, 0x724238371f9da217, 0xf02db1df507fb260, 0x15a5b74d5f80eff],
    [0x1132e72f877b4594, 0xca74497e0c85f119, 0x8acb8e235fed719e, 0x7863677bac12d9c],
    [0x2e2d19fa13b25059, 0xc609832c1a371006, 0x6312f00bac77e56a, 0x4622dd48eab686a],
    [0x5149841c31e57659, 0x66eafac34d74cad6, 0x70a9cd0c5f701063, 0x1bfd373a0dfca600],
    [0x4d5dd3a73e57e58b, 0x8089ecdd6256a6a1, 0xc30a2582a9fed047, 0x12c3c104d455c723],
    [0x95b4de71521c9337, 0xb29066471ec2bb3, 0x3721980161c8e9f4, 0x1db62d5a9783dd6e],
    [0xfdf6aad194ec3db, 0x50de016aa190237e, 0xc1143c1e94407be3, 0xa1338e33d0d79c8],
    [0xa3127745dc709846, 0xfe35aab2179f1e83, 0xac2828de4ac38c19, 0x230cd81310a9978f],
    [0x3572ff8ca713d874, 0xfa3b13f7439191c4, 0x7fe6aafbf40c162c, 0x1d46545374f8b811],
    [0x93754111c0d453d1, 0x6c1a39e3baa73594, 0x41e11635d1a45181, 0x2f0bb6daff69ccbe],
    [0x16d135caf72cd9d, 0x662edb778c2a23eb, 0xe3b3156e3ae2824a, 0x29329695f168370],
    [0x12956d9994f42393, 0x2b7d773a197b6cd4, 0x8c3b5b57e8209697, 0x1b9f8f4a4d8cf087],
    [0x2deb10c53fc69025, 0x639579453dc8bd95, 0x88445f18deff9e46, 0x1150ca485896d1fa],
    [0x561f6fd9b5af1170, 0x5cd06a57a898b82a, 0xe49ca15bb9831238, 0xeffc5e98f228858],
    [0xc66dba35b8c87df7, 0xad3681a28385e022, 0x4d7689f5863a3752, 0x76a9c5ece42216],
    [0x8d687da1308199a0, 0x8da5eaccfa62a341, 0xa9c217488e96b113, 0x1ea44dc1364ca5d1],
    [0x93120e39cb386fd7, 0x77559b525e70e1e9, 0x1d62f7af9255b2c6, 0x22390e0fb5c98288],
    [0x8726a1942bd21baf, 0x4ea6f1172b0abedd, 0xad175b97a9110e90, 0x283880c9af3c5ee2],
    [0xac1ea3fcce1fe938, 0x2694c936f1573ac7, 0x54c71d40114a0bb8, 0x196b76cefdcc7f6a],
    [0x2551ecada6dc0a6f, 0x79c2bae100090307, 0x42043430b9c70ed6, 0xeb1b0ece2af5cde],
    [0x35b712c406e37066, 0x633c28eb52f2f579, 0xa07971085698cdff, 0x2da6e90774ac9bf5],
    [0xac204ccc832ba951, 0xfab0966b438e0a6d, 0xb2d1ad9a841efb10, 0xa8125b935e8da1d],
    [0x7c512fa73173eb0c, 0x86a44f098e32e6a4, 0xd019da80f29ee2ce, 0xd4e3b2440602bc4],
    [0x19457d014ca08e2, 0x91aa498048483d9a, 0x572587eaa47c18ad, 0xca753aa57fa52ba],
    [0x40fa75fafda6ccdd, 0x62ab2ea29d075afb, 0xa58c6f7c1ecb3dbf, 0xf9ea814187bc6db],
    [0x7dd035b51126e214, 0xcff1002b6e63a029, 0x58f4163e2f69b482, 0x1625e36facb0ba75],
    [0xba3da8b95cf59997, 0xeefc693568db3215, 0x950f2f78c1cfb9e6, 0x1a8f5986c3af479a],
    [0xadff0a9c44c60dd2, 0x47c8edd9e809d33a, 0xd97e69ad4aacbf59, 0x2092ce2830d91ceb],
    [0xf71c153351975a48, 0xbd08527d955ec8c3, 0x3b6bbf21518b8b78, 0x2c34396dea567e1a],
    [0x1608ab99f5011e3d, 0xbb767118ab95791, 0x3a024ef1ce2bf377, 0x27ef5d907c12b247],
    [0xccfe3db112e067d1, 0x19ea4c2625e54e0d, 0xbf0ccce00bbc39ea, 0x1f290b20bef457ee],
    [0xe81d61bdb51e0f70, 0xac851b862b505246, 0xfff3908ce919ea10, 0x1db57788c30f2f18],
    [0x2dee216497eba23, 0x306c8e797bc0c437, 0x72de5a0e5d201fa5, 0x2b041dbcf7846c4e],
    [0xae1fa3d9800f0077, 0xd7392a33e64ed90d, 0xa10f8036c7f9aa32, 0x22a31ea557261176],
    [0xb633c299759876bf, 0x4021bd571d994f4f, 0x51bfd190d97319e3, 0x2eced0082a7ac900],
    [0xf801811b47f75db9, 0xe6df17c46995c7c8, 0x97bb0678ad05c216, 0x171f3f295c67c80f],
    [0x528c71e1dfc34553, 0xc2ed867b182be695, 0xd8e7f4373b3569c9, 0x26de076f9b9cd4c],
    [0xe6451d535596f41d, 0x560b286339d9a299, 0x32151dc50ef602e4, 0x18684d0ad8f841fc],
    [0x2a1ca3032656b834, 0x3a52db7394baaacc, 0x69420282c32f94ad, 0x17baf0b6d89621ea],
    [0x68975617765c0a13, 0xa2856a141ef2e368, 0xe1bf9289e9e66e32, 0x19bad38eaa92c43e],
    [0xfd263bcf9ac56f, 0x45b9457541c4145d, 0x5d76a5a9b04e8f72, 0x52eda69d7723481],
    [0x3638a453037b17b2, 0xfb91fc1091d30477, 0xcf28e99df17fd56d, 0x2de5e640d8c2fc3a],
    [0x92ea6ee18ad5c897, 0xb260289becc26cc, 0xe69fbe1c460586a5, 0x7b075e004bfea80],
    [0xc2b58503bafa8ca6, 0x500539f98dc53f83, 0xc006a2ed6d1c280e, 0x24ebb38197057bbd],
    [0xad366ec89770c3f8, 0xc38f12bf9660d2ab, 0x75b654a1bb80df8e, 0x1ce51573e24a435d],
    [0xaa07915b5d81903d, 0x19d14b6d9e8ce6c5, 0xb09bdee7feb18412, 0xff21e9bcae93244],
    [0xba913d99567bc43f, 0xcb289ef8addc4adc, 0x1b6a3b22458cf94d, 0x9f7f1cb180b811],
    [0x2a402fc045ef430f, 0xd0332fd78608b141, 0x5a3ca58ead6b9752, 0x228a30bb916183],
    [0x97ab7a0dda5e208b, 0x2e65623f1b68f9f5, 0x3bd7f09459669d85, 0x15e9b1e05851c96b],
    [0xcaf2706001953bec, 0x4ada02ec506cb7e4, 0x663696ef17988ba1, 0x196b3d652ca59d59],
    [0xd526b4b5ae3eeba0, 0xdc56258d3cbfde31, 0x4cf83932f39f2676, 0x1c8749855c159f2b],
    [0xac1ea3fcce1fe938, 0x2694c936f1573ac7, 0x54c71d40114a0bb8, 0x196b76cefdcc7f6a],
    [0xf367acb2f0c2c6b6, 0x28d4fca1736fea74, 0xdfe6a6e119845add, 0x221dd8a7d495ade1],
    [0xbf50b29f6a202f34, 0x5cf38279042de9b6, 0x5d82adef99610093, 0x4b42317716dca3c],
    [0xd5f86348369494c6, 0xbde6ed2bb1f535a9, 0xfa6a2ddb74816670, 0x475894cb64dbaa6],
    [0x9bceaa7953ba45dd, 0x3d4d7dcd44bd28c5, 0xe274939cee866a5f, 0x1c3946b391ed069],
    [0x1965a11926c5ce5e, 0xc14234a7dd383412, 0xaf6848d88c10fad3, 0x1825b793fd2ed840],
    [0x6b9983bb68f73cb7, 0xa2f17c3f514d8598, 0xcbece72ec50a5a90, 0x282ec6f6215907e0],
    [0x6446e05d48ebb741, 0x631007771a358074, 0xf5d54d9289e6cf33, 0xd8f7801683a6488],
    [0x26fd1aac4d409f48, 0x7a4019f23cda4da7, 0x97b4bc4d141fbd54, 0x1855412ba202a2a],
    [0x6de72a6f6e2b250b, 0xd711d58af1b97510, 0xd77d7c40b401c93b, 0x1798f1c6901076ab],
    [0x3a0ab7f1ca5a207d, 0xc35628e903e2be37, 0x49469ad96a5e0542, 0x2edd97865d7faa46],
    [0x469386fd7998d956, 0xd86cb66236386cce, 0x87f7ab8b623d2cfa, 0x13676cd7961ec25b],
    [0x7f45c3593496a4bc, 0x7693afac35f6476d, 0x401f26728c935e46, 0x16c0a91e9e9c2769],
    [0xd21c786ee26cd91e, 0x14d5866a2fc17e32, 0xab939a807c896142, 0x29553d069f113822],
    [0xbc93ac24b4b03f3, 0x265c20dfe402d540, 0xcd41bb5410977379, 0xcb66808581fe375],
    [0x39bae21dbfaf03ee, 0x9e5bc28587cc2b2, 0x54669b0628882c93, 0x243dff648c9f0c76],
    [0x5fcf15286fc58306, 0x6f2e9c892d7ec959, 0x833064fd4d406781, 0x2e171191951cef52],
    [0x53227b62c657e662, 0x81195b0eccc5e6c2, 0xfa7cba2a746f0c26, 0x2bdb95923550209],
    [0xc0e4723e31fd0d5e, 0xe30c39642c22f7df, 0xdd516a6a478fcd88, 0x85aa13a52f4b623],
    [0xc2c9fe740bb9990b, 0x12607615c5c3c1a7, 0x8c1bf8ca7fe18ee, 0x15f5dfb2f22e20cf],
    [0x15c7ad3043f5f619, 0x1da276d6fab95ef3, 0x38c706991c528851, 0xfc58949bd8a136c],
    [0x533028e2d07cdd8d, 0xeec71e850bed17e1, 0x4045b856dbff1c29, 0x284e9569fc8ba77b],
    [0x6a50c32c52c5d7ca, 0x18ab5f70784b3a54, 0x89b37ed816cfe791, 0x5fb97885d94f32e],
    [0xe96ed57022d6853b, 0xecff001a704d18fb, 0xe42e1038f3e6817f, 0x1588f5edd5db73e9],
    [0xbf34430a930d06ec, 0xf7573813b650daae, 0x5abca513e5674e7e, 0x16814981024fdcea],
    [0xc91f5ac00461ba9b, 0x7976460d0a1ddd54, 0x631dfadd62bf75f, 0x1b0b7c044e5a9cc6],
    [0xeae01afa117931be, 0xac7059d1ecf0b26, 0xc42a6e7e6f9fe2da, 0x17d68098ed44b6a6],
    [0x1a3c2c6ddf0ebf48, 0x6e1af65718c3b4ef, 0x88830b273671306d, 0x6a32a1b358cb52],
    [0x955184d993cb6d98, 0x66f53f48ef7f86c2, 0x3d32530248947411, 0x124899206ef866ee],
    [0x2c3e6bdd5bf3121c, 0x1207d1ff7ee7b3bd, 0x1adf146bbc3a80a4, 0x282d1b8005e7c5e2],
    [0x64b2ad85f397e33c, 0x30944617abb4b31d, 0xbee6ff237989665c, 0x2ba860b0e392214d],
    [0x1e1bc641cfb5dac3, 0x8cd335bb0a6c9559, 0x7b33445ffd0f032a, 0x8dee425c9230a53],
    [0x5b9d61c84e0f0a09, 0x1b61a016f5cdfde6, 0x5a37e3eccdf9559, 0x13e1f729e82032ae],
    [0xac1ea3fcce1fe938, 0x2694c936f1573ac7, 0x54c71d40114a0bb8, 0x196b76cefdcc7f6a],
    [0xeee5b1a68997812a, 0x1f7487199276c8a6, 0x4bc88f5a31d56e76, 0x234c770889eec5a2],
    [0x9010569f945991a0, 0x4bc04143b3bf5dec, 0x5a76d0aa1e9c55d2, 0x245bfff747783120],
    [0x5fb92f8ab363771f, 0xca5a971d207ed089, 0x6c5a474a6632faa9, 0x8f4069c0b10875a],
    [0xaeeca59f015ea9dc, 0x7ba33ee5e25cef22, 0xd6b047a6dc71d2ed, 0x837729d4fc85301],
    [0xac533c91d5b6afd5, 0xed950be58925d997, 0x2d7f878918cfdce9, 0x294ef20f328ae685],
    [0x3218c8d8c9f2e881, 0x418d3d48a7514f18, 0x83f9c53c12adb7ac, 0x1f62b4ba6e7650e8],
    [0xf8ce5ad1d9c11fc9, 0xc8d94d13ccae933a, 0x7512c58ebbbe7925, 0x88e62ee0805a12f],
    [0xd30f40fb9b1fcf4d, 0x20f2721c13a32df2, 0x698c1471b93d2063, 0x2a15acb799a36536],
    [0xdf4e0f0d9de599f5, 0x450ab225f926cc2d, 0xb8fe5fbb4f03d5d0, 0x2255ef233b2e051e],
    [0xb41d1c0eea4f6f7a, 0x263a1ba03c624ff6, 0x9249228c37f2c9a3, 0xb3324f75f50fba8],
    [0x6ade5220de6d269e, 0x6b0dfb5eb2b668ca, 0xec0e545b41cb614e, 0x267abb876cf130e5],
    [0xc81af7d49554afdf, 0x2deeb3cfce3f3d9f, 0xcc568ff3c0b9edd7, 0x19040678722dac94],
    [0xca58b2ee3cfed608, 0x4c41b01774fbb745, 0x355f8b8cb583ec4d, 0x9015509267d3d74],
    [0x14fd3cd80b7356fe, 0x1a3eeb917e6c176, 0xa2dfb7ed5fd429f5, 0x25792587eee7e693],
    [0x680a867f3f9983fe, 0x4fa7c0b2675869b3, 0xef883b2650dea4b7, 0x2588230455c1640e],
    [0xd2a9952e0f85ec56, 0x6ee6b1c9d80e0172, 0xcb0dafabd4f32d94, 0xa5d8e426e8a8633],
    [0xd618adb71fad8282, 0x8ec978454b359a02, 0xd71c100a0326090c, 0x2f47894426cb6983],
    [0xb3682bc44c532383, 0x4ec596ec283a78d1, 0xc274f9a99c7083fa, 0x23bda45e45e20fb6],
    [0xd6dac8f57093a650, 0xf3068257d3be89c3, 0x68604cac47b8986b, 0x6428e25941cf842],
    [0xdad5f5d44d9bf6fa, 0x5686eb1b12d6cd88, 0x6f1ea60c72667b0e, 0x199d93b935756b0e],
    [0x17f4a38a5abda910, 0x9f9c189b275cd7a7, 0x1f0b33205fbda290, 0x171ce4623f0a49ff],
    [0x273c39aad38229a, 0x64be5adf0995de8e, 0xe03348d3f7b7b172, 0xe6db378ce7e1d],
    [0xf4479b7d358fce81, 0xb3a32d6cb8bfaefc, 0xe46511acd7dec0f, 0x17b2b86cd66a73a6],
    [0x93de44e56161207d, 0x1aae7112066a8133, 0xb30c8a281fbfbe70, 0xd2ce771ec4979ab],
    [0x1f2a1fc75050f867, 0x7a26c95743d8214f, 0x6ad35a9116c27288, 0x86998aa35a19fb8],
    [0xe1d3f266f3162243, 0x2136255794fa8383, 0xf92545cb326deb86, 0x5be1134da0692b8],
    [0x5a45b53acb5f58e9, 0x1e75e1e9ddbc30c0, 0x9768466d15f521cf, 0x1bcb6b8de9f866a3],
    [0xaf1984f74089a93b, 0xeda7df61c9b5ea3, 0x4fb4bfd240a82f24, 0x1b9e926867ec402e],
    [0x53e9cefbc7d98913, 0x7dd69ee0e24a9182, 0xc5794e777b8a0bde, 0xf408ecd2413f30],
    [0xe9e1aa26f18010e7, 0x56b8928efc35c09f, 0x70016f796759f980, 0x2d7f052ebbb9bf52],
    [0x3b23ffa2d615a952, 0x7346a45bbe9af89d, 0x1413e1739831201e, 0x2da951984f4f0317],
    [0x5750cda2851c6231, 0x1c0be152d88b57fb, 0xbc21bcaa56edb6e, 0xb557ec46a7bfb8a],
    [0xac1ea3fcce1fe938, 0x2694c936f1573ac7, 0x54c71d40114a0bb8, 0x196b76cefdcc7f6a],
    [0x1f8b052d049a3fb3, 0x9268d2b55a1fb668, 0x63a1827637ad0078, 0x13d3fef3eaff9b95],
    [0x17c9848fd78f4754, 0x3b637a28c9a223e8, 0xda527d7385cead60, 0x2bc1cc959099f62e],
    [0xf469e5b735bd5082, 0x91c6d01a275b9a1d, 0x986178344e8caf8a, 0xdaac8774332e509],
    [0x9171225d3cd8b676, 0x3f75f85e8cde35ce, 0xfec80f154847189a, 0x27773f22500cdf92],
    [0x1cfd63787230cb9f, 0xfd5b6d0c18bf3b49, 0x4a1383b978dd3c00, 0x79c499e130ed87],
    [0x368aef1c54198cb7, 0x907b6f5b51b02496, 0x69c6e461f64206e4, 0x1ebfdb369fc74d14],
    [0xa113130292d1e299, 0x5a4064ed4e4110ee, 0x2543d4e8c1b30386, 0xca9e23d1f407111],
    [0xa317888b08ae0af9, 0x7a0a765a217af4a0, 0x8068bb2ce056854f, 0x2357dfbdcbc869ea],
    [0x5b21564a9c1070f2, 0x8532fcc606927e97, 0x7dfd93ff2d4aa43c, 0x2c9e7d1ad79c49b3],
    [0x6aca1af1176a4248, 0x83b9b2a3ff4dec50, 0xb3fa7cd38312ca6b, 0x837ff288c0aa9cf],
    [0x6c5d8d87da878e54, 0x1b412b11f1e60938, 0xb510286341631801, 0x23d8de04d32b88a1],
    [0xd0ee3fb3085adbd9, 0x4d09d3026f3ca1d, 0xdde433e7cacee42a, 0xe2564431ced9aad],
    [0x2d845c5f6b095be1, 0xdeeef1642cb63e12, 0x7965cb665f0cf305, 0x61caeaaba163fef],
    [0x2a3b71cb3b73d50e, 0xf17d8fa64ba06046, 0xb3542f5dcb54a77c, 0x23356942ef4d25d2],
    [0x39e6b4d292c8cbcd, 0xc805658c31f761dd, 0x53c0768646f37941, 0x1866373902a9a9],
    [0x50e87c5a9bf35146, 0x5634f10b18eaa254, 0xafeb670e1ef3470c, 0x86bb5bb78cb1149],
    [0x6f860f87be2f8fba, 0xd9cc8a7b7c007407, 0x9aaf54dd8a628b92, 0x2451e0f1a7bade77],
    [0xfae0e39d0c085255, 0x73b85c2be04afb32, 0xb610a5bc78ae8979, 0x84bf3740a546012],
    [0x4bb237b7077f0275, 0x5b3f47fc8b5aba92, 0x70cc9fab7935d6cb, 0xdef7e0528ea820d],
    [0x155665ab376f7ec6, 0xa6af598daf08501f, 0x9625a8b0f7c4fdb2, 0x1b7af60a579f6d6f],
    [0xf59e4700213c98dc, 0xe186f8c182a39662, 0x53278f77e9ed900b, 0x4f92ee3832d8c42],
    [0x7c323ff0e2571c95, 0xff5643e49f71b732, 0x922becc54ba12130, 0x147b948eeb385d71],
    [0xd1a646bce08388ba, 0xe839c9512b92a690, 0x6a24c79f6bba07e7, 0x367fa68c919ef8c],
    [0x13dfabfa068b5a0, 0xd49b5d4201becf3a, 0xa4f42e97afacf2b4, 0xaadb8ffaf6b02a6],
    [0x277637235b9084ad, 0x5819c08e27115762, 0xcf666a4378b1c82d, 0x1f29fbe41d336788],
    [0x655071c7bdcf3001, 0x18cef9602ccd1eb4, 0x80cc4cbc0cb33832, 0x94397da30fa8ee4],
    [0xd99b409ab07711fb, 0xf2c6c3ac2eb43465, 0x67b2f11309cc4e39, 0x16a091b9a5cd9526],
    [0x23d61d6b98ddb0cf, 0x93e3bc01574d8af1, 0x25536a24bfe679c7, 0x1625cf4e2fbb6f7a],
    [0xabd131e8332e8276, 0x5a0756eef3101351, 0x72aa91411e08264c, 0x17f1ddf6108819ad],
    [0xd5ff440cab1f7a15, 0xc7edbb65a38c4bd7, 0xeac5d621949f3c4e, 0x272ac6af8670ef04],
    [0x29bf0457cd7e134d, 0xa0a6e12d2e6e1b07, 0xa74deb1a575c929d, 0x2ac81ebdf838c893],
    [0xdc80d9a561045ddf, 0x5a7bc9f91186305a, 0x545ed428f83f9ca9, 0x28198a6a7de09abe],
    [0xac1ea3fcce1fe938, 0x2694c936f1573ac7, 0x54c71d40114a0bb8, 0x196b76cefdcc7f6a],
    [0x75d000aad1c89e21, 0xbb7d2cecdf007a71, 0xa0729986fc11af75, 0x21c8f5212e43a884],
    [0x460f42b527c486d8, 0x65260be10e1e0288, 0x228bb592204fc988, 0x12e4a961e1801660],
    [0x354d119d099b20c2, 0xf3de4c3eb7e8982f, 0x45a4f4530d1bf63a, 0x9ac00881ffcb7ff],
    [0x4c0e7b89b4557670, 0x939a2dc72264c1b7, 0xf556dfd040688701, 0x22b92591debead5b],
    [0x9f7abebec9decf80, 0xe3fcdf8810c87e63, 0x898a465ab3c88fbd, 0x2388a2dfce036d5c],
    [0x41a6eb027e959601, 0x240924567a7a993e, 0x12bc44406c247281, 0x9e2df6b54d923dd],
    [0xe7a2a5f9f444037e, 0xdf0f4d76803a8b6f, 0xeeab7d73646e2a28, 0xb05fccc0674af8d],
    [0x91beac5f3f54361d, 0xa0a3a0a9c5425a52, 0xbd3c4859046062f7, 0x148c72c32e02a21d],
    [0x734d5808de3c048b, 0x989688f2239bce43, 0x90af67a3a683e8d, 0xcc72447af3608c9],
    [0xf28cb1f33a1615f7, 0xaedb0a5b73fd6f29, 0x8d10140067ab3f5e, 0xd923c01448dd309],
    [0xd464c6c86e889c80, 0xd25faba2f2af7a38, 0x481e9c5f53c587aa, 0x9145690a8426952],
    [0x767e922ed5c5bba, 0xcff723fb1bec0db3, 0x7f8769fd50195c1c, 0xca36fff3a1b4bed],
    [0xf5f7237cc7b150e9, 0xec09e1ce303bcf99, 0xc89496bdc078ab54, 0x151f1a9546c4380a],
    [0xe0b7268eb4b20682, 0x414123eaf996781e, 0xb03e5c0846fb9582, 0x16c046d8404c441e],
    [0x610f072e718ca410, 0xf94135d41466698, 0x6ecbaf2cc2ad9d91, 0x251c3f386e8e92cd],
    [0xf459fabdf4ec982c, 0xc6b0df8c74f12a1c, 0x2b79202c02555f0f, 0x1475e6349fbe2651],
    [0x17f4064933e85bca, 0x926456b2d3829b35, 0x7af2ed6b2aec44c4, 0x2b4c00677708322d],
    [0xf8c907e64c170ca5, 0x359d7ac8e01bf16, 0xd227fddcd082cbc4, 0x8c06b592eaeb2fa],
    [0xee0acc0711d66052, 0xfec7898963f20579, 0xde7b7e5e45e21931, 0x211e364e0eeca2dc],
    [0x4b5e72375970a738, 0xa0c8d70638d7ddc, 0x5844c4bfb6b16979, 0xcd7ab2a448e03f5],
    [0x1dc619889e61e454, 0xe266b11470aceb68, 0x874dae8d6d84cb6d, 0x1930ac2e4e2ab703],
    [0x2f4dcba84952bdff, 0xa88c4a88512711a3, 0xa66529ea8f04651b, 0x1efe3fc036da6b22],
    [0xf4f469ee25f4d3ca, 0x494f6fd4dc81af8f, 0xd7f57217a0993649, 0x1fc575f7be1400b0],
    [0xc5a48feacebedb2e, 0x559b10d6d7340b19, 0x2ab67bc943a63bbd, 0xf599eeafe4afe75],
    [0x8dcaa9fe77d23bfb, 0x9e074e8c4343f597, 0xea3eab7086ea1b5c, 0x13161ff12c338e5f],
];

/// Part 5 of the sparse partial-round rows for width 17, as little-endian limbs.
pub const S_DATA_5: [[u64; 4]; 256] = [
    [0x415dccef20298d94, 0x3c6e0d997fb57c89, 0x48905830ccc2f9f1, 0x19e8ce8bccf4d365],
    [0x373d8d855f42d48e, 0xbe7b95403e6d4ccd, 0xcc20f21c93a69b44, 0xbad7770ce2057b3],
    [0xec17d73bd14a7b15, 0x6a52c4dd57af1f03, 0x5958c7bb308245d8, 0xd68c25929eb7142],
    [0x3f1caf18deac4c08, 0x50356fa59244f617, 0x39e095236fb2955b, 0x1a20f6c97cd59c03],
    [0xe9d631de6d683f17, 0xe71c63fce17265a, 0x2dfc6b62cb1d1cb4, 0x13fbd61eec52c83d],
    [0xafec5d94a18f2522, 0xdc8352c78d4431f5, 0x31b9c8b2dbc30bd9, 0xc5c24fe6a6fce78],
    [0x2ed7080d6be70431, 0xe155f008c1e5039c, 0xb2886da97bb0d8f0, 0xe6f63bed21f2cb9],
    [0xac1ea3fcce1fe938, 0x2694c936f1573ac7, 0x54c71d40114a0bb8, 0x196b76cefdcc7f6a],
    [0xd400b2912f5ef7e8, 0x98e08a9abbaad77c, 0xe0c43f333992a5f6, 0x13b9e4a669c3fab],
    [0x3131788f1a6987cb, 0x5a2da43cf528f227, 0x33f01c91c0dd2b09, 0x2b0cbb5821465769],
    [0x4e9b990780ce29d6, 0x9c50f1d7aae5b2de, 0x5475521b50700b69, 0x2e30fb85d199dca9],
    [0x73fabb3a865cafc6, 0x5ec4682f08ace12, 0x23af154c1102c8b7, 0x4ff7ca87e268b4a],
    [0x76081ec0ca7ef7e5, 0xb784afe9ee4e828, 0xd930df789f60ad51, 0x23b371ac3c5e45d6],
    [0x7098eea165c119a0, 0x3c200eff1d0e2caa, 0x96cccab01c028d61, 0x28c5fc831601998b],
    [0xd2c7ddfdc3771f97, 0x8ac2e5a7845df289, 0x3b6dd3a4c5daaed0, 0x1a649a762e15c9e3],
    [0x551bce8fc3022a0d, 0x228b7e4a09083c2b, 0x93d346c52426aaf7, 0x1b76809608b2ca57],
    [0xf4c86774a153d9d, 0x98a5135d0b0efaad, 0xbf206ac6a1fc8648, 0x249de6f6cd65afa7],
    [0xd00ad36e612f6055, 0xd7d4ab4f29d248bd, 0xa7bd83ba37d258a, 0x162c8b3b5f7256af],
    [0x291a669031680d1f, 0x8943d9eaf889becd, 0x451ebba4e9137d7, 0x3a8b1979dfb950c],
    [0x77e9f7c6b43d170a, 0x845e6d4a5d6fb81b, 0x7dd0b4284b2eeab0, 0x1fb9ae665dc60fd1],
    [0x692e43bc396bc6fd, 0x42aa7926ff438c90, 0x8a7b47b660e8175f, 0xe61edb12a4174e4],
    [0xbe876f192641b1fa, 0x589a8c9c63b05253, 0xee8a90867aade180, 0x2a21ad8241436a75],
    [0x2169ce5cbd8b4cb8, 0xe14951d4bf7cf10a, 0x94f8bece65ae6fb9, 0x166620895a935250],
    [0xb5a3a7a5c8a4ccf0, 0xcce5e7b6a85d91d2, 0x5c8813854ed5fd6c, 0x22f7441fb0e81693],
    [0xc557516b25e2cdfb, 0x1727f495e729ea9b, 0xfb89c74de7ec8009, 0x2523733ae5275aa5],
    [0xcea41dc1ee3b4082, 0x1f1bc11e46acd399, 0xeda0d8e65fe86658, 0x150f2ac4f573f5f9],
    [0x974d419d74e72a45, 0x70c9e1b1312fd31f, 0x80d60de162c1d5bd, 0x2e2c6a081127c11a],
    [0x261f9e0172c063f9, 0xb07aabb48650d27, 0x411113e8324d2af6, 0x288f5e4a35d6a88e],
    [0x873f696cb6139c7c, 0xf2f48f20406483bb, 0x6aec467ce9db1c7c, 0x1e94c48d6ccec07a],
    [0x46caaa0e9d74ecf1, 0x95aeab6cb1d7cb1e, 0xc1a6703493335db8, 0x2317555099ef118a],
    [0x526ef3c2e8c8665, 0xc372d86bfdd4bcf1, 0xa6e9caa08f3a36, 0x112b653324919b43],
    [0x50b2b77a15b85e, 0xcd2f507c9536559f, 0xd8e426404f4f6302, 0x10d64d9dbfee84b7],
    [0x4ffb35d252efcd1d, 0x4d3268f5124fd309, 0x372266c97c47c256, 0xce3409a692acee5],
    [0x23ced56ac860996a, 0x5fbd4fb3cad9ece6, 0x77e7c6d266ea390c, 0x1976232c6b5bc6ff],
    [0x1b62833e75d21c5f, 0x2c706600e56dae99, 0xa665495f68291ade, 0x85fe99053d3f947],
    [0x7c236e3d6786effa, 0xf6d36d1840eaeb0e, 0xfe07f784c7fcae1d, 0x253875f4394f5962],
    [0x739b7ffd4aeffcdc, 0xc54391911911e3e0, 0xaa541d0df32d447e, 0x811ef3bdcd3c837],
    [0xa92b1501ef92ca06, 0x59d78e2757d199e9, 0xfc6b2f986fdf2078, 0xbee1c554f9fc98c],
    [0xbbda33fcd0b9b0a8, 0xaa8d1490b16cfe28, 0xc313731501c5f003, 0x2e46dc3b30b54925],
    [0x9043e048ed8edc6b, 0x1852af8f05577977, 0x96b2d1e8aec17249, 0x29a557272646a8b0],
    [0xac1ea3fcce1fe938, 0x2694c936f1573ac7, 0x54c71d40114a0bb8, 0x196b76cefdcc7f6a],
    [0x7274d29d43c3d42b, 0xd871a1aacc61b1e1, 0x212860583eaa1783, 0x2cf567daf1e32b7e],
    [0xe1f8d3743dbedb1c, 0x9d0b8ecc11435e75, 0xf1b5513963530b7b, 0xde4e81211f6698c],
    [0x5d6d9c14c6680981, 0x7469b4384372f06c, 0xa5aea5422d4e2163, 0x2441c69e3451809d],
    [0x54c2c827f09f8743, 0x2bcd6d0e45b1c898, 0xce4026c9fb0bdea0, 0x2aeab770ed2acb63],
    [0x8687d50018c0849, 0x11d58a1307664d2, 0x73d3b67f0bbea727, 0x18086bea417322d1],
    [0x4b224a81453b5a60, 0xdf735dd7d5d15bc0, 0xe64b7db4766e1ce6, 0x1a5554a104ff43a6],
    [0x190fe2c6ec6393a2, 0xaea1b2793d7e1130, 0xa26eddb623338755, 0x2372bbb558acc8f0],
    [0xa8b44470c2af8cb1, 0xbccf31bc846d8d0, 0x736174eaae79eba4, 0x10c33d11fbe22b97],
    [0x3597ddee1bae3f54, 0x352e34ff6badab83, 0x847d5bbf779c5577, 0x3426163d8365dc4],
    [0xbb03d847e157773e, 0xbfc02ae7af0224d4, 0x2046f4c7f0b4279d, 0x1c63281e368936ba],
    [0x2658f054614751ee, 0x1e1c5ce24dd9a55d, 0x5f146efcc1a1781c, 0x2192bccee71b6b95],
    [0xe8517b97e476c396, 0x454a47ce6590eaaa, 0x95399e23c44aa9fb, 0x465383b8ca41360],
    [0xdbd1409efcc8036c, 0x7fba202db4cd4b93, 0x449481ec35208862, 0x57e4c25881806bd],
    [0x5282cbfed80a0594, 0xa001ac6eed2fb145, 0x5188a775ab16ab65, 0x9075ad76e6eb19],
    [0xde7108de24a409e9, 0x3b44df13b9e4f31a, 0x34281a12e1753cd1, 0xbe868e7bfdfa884],
    [0x537da9be515c5e3, 0xbb07faba1f97da9c, 0x9bf6a77478344c10, 0x2e510e8375713747],
    [0x618ea2d79d980820, 0xc0e30877e2e03abf, 0xf55cda415d30f30a, 0xda0ea6a6106068e],
    [0xc9a43421d70d83b2, 0xd9027d66534d98cc, 0x7c27a5257f4c8328, 0x2452c916a252ad3c],
    [0x487afdf40a7f68f7, 0x65f647598197721b, 0xae3a97243b5b967a, 0xf9c77bb51cac4d5],
    [0x913aeebc084f9115, 0xf42a576b4ff50c2c, 0xee29df6cd436b6b, 0x1f9e045050fa171e],
    [0x69783a4c5be0dd3, 0xfe32f2270741c450, 0x5c8af1b5343d1d3, 0x2e7d45b66ed46a72],
    [0xbad80ff8eebd7a6, 0x56e02b57a98e892b, 0x4350f961e778d72f, 0x2516935ea1d2480e],
    [0xf85403e04b3e3852, 0xf201f6fa6b6e58a2, 0x4b85708128893f8f, 0x105de12e7429ec59],
    [0xb0deb0dece3bebad, 0x23469970c5eaf180, 0xb67ef53d985021ec, 0x1fc9f7ca915a6cb6],
    [0x72df917cd59cddd2, 0xd653537d382f16c0, 0x1c847093244ca2f8, 0x2811b669db5b1a37],
    [0xa4d4f073b525f86b, 0x2a78bc9a6b1c27d5, 0xea2b182bdc6a43f7, 0x117cbfbcfdcd7181],
    [0x949b442f67512f78, 0xced59382540f32cf, 0x9f3f4c81da5c5419, 0x1e8a05c84e5252cb],
    [0xc096c26e7a3e88c8, 0xa2430c42da902997, 0xfe53d724439c4554, 0x24337a6b1cba32f],
    [0x84404b9d4476724f, 0x8d47d8021f7968d3, 0x227af9060991e0a6, 0x2f90aa6e654fcb74],
    [0x57964c79f150215b, 0x28adc4e92ab14a1e, 0x7c5bf21425b264aa, 0xb181fc79032f843],
    [0xc44b415f4c12bf30, 0xf371c9b32c18e235, 0xe4cc85f3bd708620, 0x99da6058ed7f95f],
    [0x94130d43009b4cf, 0x8e5dbd81c15f00dd, 0xb36d022532df405b, 0x9212f04d8281e62],
    [0xac1ea3fcce1fe938, 0x2694c936f1573ac7, 0x54c71d40114a0bb8, 0x196b76cefdcc7f6a],
    [0xec617b2ec201a26b, 0xa39316ea524ab8c0, 0x6dbf79d5f3060247, 0x1107d939e735721d],
    [0xfa0eddaf5564cb21, 0xa0e5adfc5de0fce0, 0x9fc1590f33534fc2, 0x2f1c347523299d95],
    [0xee613f74aec616d, 0x6b6b83f388347506, 0x643a0d35623cfa24, 0x149ef73788c5149f],
    [0xdb50e64280889670, 0x98bda05646ac66dd, 0xd1e39b5e159e9b12, 0x2a8fd18e8e3ded0a],
    [0x3eb7c162b3627565, 0x49d07b055b8468d3, 0x6e60ad171965e1dd, 0x47dbcd211f6c7ca],
    [0xfeb2d363e45de608, 0x99db0dec3db5bd28, 0x6b77a1f919764a93, 0x23ca2270b14221c7],
    [0xa2cc2a2e7401e996, 0x8849d5cd821b8852, 0x62a16d0d122154e4, 0xae18b193b1142e2],
    [0xae74c740caba3caf, 0x826ffb00bc7c7c7a, 0xef7d3d24dc7529d2, 0x1857d1b6def0af45],
    [0x78de39d8c1961891, 0xf41597c390948846, 0x4e0b872c3779dfe3, 0xf3cc84626c45ab9],
    [0x5be144a6808961e9, 0x98ecf1c1e341c7f0, 0x5a630109dd71d5ab, 0xe820957878be628],
    [0xe30f54270684f686, 0x304707010eb12963, 0xab02d71866bcaa3f, 0x1dddf5d71605db9a],
    [0xe41401f70bf05c89, 0xf98a04c5731477ce, 0xce666ec7fdd5167a, 0x22cb55eb86c682cc],
    [0x65cec83f46c2918b, 0x86502f7c550c49b8, 0xba36b7813a94ae14, 0x2285685b32e30fac],
    [0xdd5e915c92377197, 0x90f041de9bbcb5f0, 0xf5b5624debfba7da, 0x89eb80349c3dcb0],
    [0x217f0642816be3a7, 0x32e9c5e2dc95314d, 0x2aed2ffdfeeab327, 0x1ae6a640e952299c],
    [0x372219d5469934d, 0xaa2dce2ebb95b85a, 0x7a65b7adda68a844, 0x2ee58c48db87e878],
    [0xb0d2fb38e34da7f8, 0x186a184c14811245, 0x371717b0210df14a, 0x18e425f1816a3fd2],
    [0xdd20f1e49cb46003, 0x7eb08b40c134813d, 0xdca8f5ec2242dee0, 0x2d0b4c00ef039859],
    [0xd0b40a1df5791f2a, 0x33ab7bfb49f32792, 0xa69f0b718a93348b, 0x1bbf1b9e8426a43d],
    [0x673d0be35fbb343, 0x9b66c5cafd04f36a, 0x7e7c860ff86c75c2, 0x2bca73de43111cc9],
    [0x291eb71dc932e5e5, 0xa53a8579ea24ba17, 0xda96a4c0576a632c, 0x1a77d34364e2186e],
    [0x810e1f9ecae80b12, 0xed839580fe4c022, 0x1648041f49b60035, 0x12757dbdd1ec1b48],
    [0x7f1b7694d191b51d, 0x926a746aa6884f08, 0x90483b0f37596f07, 0x2491a75bb6c3231b],
    [0x2e7f72f88e4209ce, 0x4203f4e6af0ee0f3, 0x20abd41cff82b3d3, 0x998ab89c76bd9f6],
    [0x49bdefe9b5444486, 0xccd4f512175ffdd9, 0x760c2752a12ff2f, 0x2271c33914091a7b],
    [0xcb60fcec97d69ef1, 0x39cc061182456f9e, 0xa192e5bf3ad59484, 0x2b76d998c8fb9fd7],
    [0x363cc07dc37ce00e, 0x19c2baac05c4f727, 0x9d34426596f43051, 0xba089d24faa83dd],
    [0x8c29a08a3a7733ae, 0xc0a80661977c3a75, 0xb39578355ad8f49a, 0x168be56f3c38107a],
    [0xae28524825ca6e3a, 0xd71e5f9860ec4b3e, 0x120e670adba86c12, 0x2cdd0f5feb4447b5],
    [0xe9211949c43309b7, 0x4a01a92485d53fd6, 0xabb199b35334d12a, 0x36af5faba2b1777],
    [0x271c10b66b62fc77, 0xd6f5f9ac92d76bfb, 0xbe9db43d809ed56e, 0x2c1dcb685cc47c1d],
    [0x6eb3359055118bff, 0xb0d69bde4057dfc3, 0x7624fc379b46a788, 0x24633d05c0630361],
    [0xac1ea3fcce1fe938, 0x2694c936f1573ac7, 0x54c71d40114a0bb8, 0x196b76cefdcc7f6a],
    [0xfeabba444ccebe18, 0x2805ffb999a54fd0, 0xf77ac63371ade2a2, 0x2224f3583f007840],
    [0x92a69f49412d71e1, 0x7493dd48c26aa008, 0xc90cbbef69da79f2, 0x26714311d757b433],
    [0x41657da92d50b402, 0x5b2e71b7d495d12d, 0xe9cf765fa7d0d6f8, 0x2fcc716f7f57adc4],
    [0x3d2cff4e1f0a1624, 0xb5a07e2b3da2b454, 0xa7b165470474ab58, 0x294a3f5ca5239bb5],
    [0xe9a056da6df31674, 0x5fd436dfe64def3e, 0xcfc2891d52be1827, 0x14b4beb63d909345],
    [0xece9d52102d44ca0, 0x3ae5e917669e8393, 0x76cfd2a1ceafadc8, 0x84460af87c46a42],
    [0xca2a6d498585de6c, 0xe2a04d7dbea197c2, 0xd76ccd6452f746e1, 0x141bc6edfd3d6ab0],
    [0xafa7d8eb1519846f, 0xf2cbddc70fe984af, 0x3a370b9c69cfeac5, 0x1e757acda9269064],
    [0x66e5292b1c43edc7, 0xdd5aadd9374f9b6, 0xae2a65c80e94f8ad, 0x9e92da83e2a6b8b],
    [0xbdf5c755554a61ed, 0x760540cd2a998b70, 0x2fe0e3f019dd8055, 0x28b539f7cf1b6361],
    [0xdfebad3d350f2467, 0x4b72362ccd637ed4, 0x8eed8312a43dbd1b, 0x4f1315a1e31ab3f],
    [0x391dfa3a761e2e33, 0x2d9763b32012a5fb, 0x2ce5caa3df644bde, 0x106aa158cdedbb2],
    [0x7b6d50429248cf29, 0x10606aadcddf7dee, 0x56cee0c9fbfe5cec, 0x205bcd60e27251d3],
    [0x8de349b606bbca41, 0xef869778770109f, 0xbc573c8af5bab6df, 0x1fa4539519ef1cc1],
    [0x3a252aec9395ab05, 0x65622d8b574ca653, 0x4608a9e1e4b3bc49, 0x17cab2199c1a13dd],
    [0x88c95dd364b16420, 0xd54ead2ab633ffdd, 0xb851f02a66ac4d1a, 0x2c34d65810a7e5a4],
    [0x3e87be00fb1e8866, 0x7648a8ac585b1d48, 0xf9327e97690ef813, 0x128745a9a55f406f],
    [0x327bb6a02bfcebce, 0xf0679bcf0798652a, 0x72ac57dabfd5e897, 0xd797eb05630c87b],
    [0x282c55ee72b9f4bd, 0x7249047cd6a6ba32, 0xc0b37442e804c448, 0x2d49ac3f9e3ac8b8],
    [0x3ff9d6203c6da1d1, 0xf87c8a9a3623cb56, 0x48bffde8de39dfd, 0x2447bb4feec91d4b],
    [0xc4dba993bc9010cf, 0x76aaa19dc39b1f44, 0xf883cbb6f4aa15ea, 0x790cd64d983c721],
    [0x37062fdac214b0b1, 0x99a6b08d329feea1, 0x4fab78ff1be0a36, 0x163a3b62e1a26e86],
    [0x7fd846b7f9593dd7, 0xa6250e352180eedd, 0x23f798fbc0f49b33, 0x64d9003fc12c069],
    [0xee82cb31cc8daa26, 0x2db8d967573418a3, 0x84ad70c2b138a653, 0x1f0d94af29f162d0],
    [0x9d2c9b68cf97a283, 0x551fa89eaa5ff736, 0x87f81e3881acce5c, 0xc30c7df89567746],
    [0x92d48c908cecc77a, 0x3a232b0fcc80d78f, 0x80b93f41ae377354, 0x1814723bc7c2396b],
    [0x2c03ee486bca6d35, 0x64232dc6b181030d, 0x109229b3bc2dfce5, 0x1efd30a08cf062ea],
    [0x81ce2bd7e95cd9d5, 0x740d512c6805a48b, 0xc8d0c308031f1546, 0x14e923cc919ce767],
    [0xa3d573ad1d56f4da, 0xa3afa4ebb48e1204, 0x759588cd7d29cd64, 0x21d74be8e343e93f],
    [0xf37b3bf834b08430, 0xa7004aa6e90d3dc9, 0xd5c81eb0a996955e, 0x1b8e0086de4de522],
    [0xa8ffc11468081645, 0xf89eb45ffe44dda9, 0x932f063972d785d9, 0x17e5a80ec135e0c],
    [0x52c337f3c7e188f5, 0x8e931b6cb92e8f1e, 0xfee8503a13bb0ee, 0x1a5caf74532f2c59],
    [0xac1ea3fcce1fe938, 0x2694c936f1573ac7, 0x54c71d40114a0bb8, 0x196b76cefdcc7f6a],
    [0x3b7fe6168f28257b, 0xaa5f2676574418f2, 0xa097d11d8651798, 0x1ac42d7b0a6e8b8f],
    [0x10f12ceda3593e41, 0x4967383b9677c71e, 0x851c89835c29d233, 0x1ec67557d1bf0e6f],
    [0xf849c0e3cfbca272, 0x3366fa669f4d9373, 0xdf845a782d6ce98, 0x2f47ab58a58e5234],
    [0x360904f0adb8efd3, 0xd2c224facc562e07, 0x68a8b7a14789198a, 0x8f212a5650c4b2f],
    [0xb2f3ef87b66d5135, 0xd17303a6e8a5b513, 0x62b8f7f5bbb95018, 0x2592c7276c9fb4e9],
    [0x9302a1b45f2c1907, 0x50e73865acd6a7b6, 0xa0cc12e202dc1f4b, 0x28eee34c1029e6ee],
    [0xaa880236f5129fd0, 0xea14d87335522e8a, 0x9ebe379342b2a426, 0x11bd9407f0c9e1b],
    [0xddf1e3efed03c069, 0x62e5d272d2342696, 0xd20b323f9b3eb453, 0x169f293f396fd012],
    [0x6285afcc7f5b2608, 0xa6011c5be9e53c26, 0xac16e5422f79d449, 0x1e1f46890d389a50],
    [0x955ff631a922633a, 0xc51eb6455d720455, 0x89982ebda43acd77, 0x128da78e60b07581],
    [0xd20404630de5565, 0x7579a360ceab1c36, 0xff50a041154e6ccc, 0x1069251fcb9d2fd],
    [0x9540d5355c6cdb88, 0xcc4fef27c2610aac, 0x801b6853b5c40f67, 0x1ed383a4d6c433c6],
    [0x82e089872cea4e1d, 0x16daa02bbb259701, 0xa5b8c7598412c782, 0x6e9b3357bd837d1],
    [0x1c6e01bc6343c5bc, 0x3adde1e08e98f363, 0x3b3e784ae457bfc9, 0x2fb62dd173e4402],
    [0x134d3b61b6954b4d, 0x4af9ac7ca7c4a252, 0x93bb34c6ef5e2730, 0x204797d9b16d45b0],
    [0x8850d423394b2301, 0x8f026f3e33077536, 0xef4f2d80820396ca, 0x2fa8b35e4e9405e7],
    [0x97ed2d4d99b2907e, 0x9d70053772c6fd74, 0xc6bbfe3acd613ed5, 0x10c38e859ea854e2],
    [0x8371a921355b5085, 0x9c3414e8c63f7b14, 0x71724021bfd741e3, 0x1f44270853132e2b],
    [0xc2fca1fee4fb1ce8, 0xee87a222374f4cb2, 0xb2c2c33801421c2d, 0x2eb4d6a5f16de3e5],
    [0x89c96444378486ac, 0xe59409c688fdca92, 0x2a7ca057b35e2050, 0x71e2443b4b9018d],
    [0x8b0c2e9dc4712726, 0x6b5299c4f76d341c, 0x2bcfc21a6901111b, 0x1423a5126a278908],
    [0xb1f114444e8a10b8, 0x48a97b8c5c5ae1b3, 0x94630821b5385e6c, 0x26e1e7b62d89a75f],
    [0xd8add5a2d8e8a45b, 0xe6ce0a8d573f643b, 0x82991a1128340eb1, 0x14fd3ede10aa7bb3],
    [0xa2cf87554d893b11, 0x8f683880615368a6, 0x6da241868551cf54, 0x2aaa9048ecdf21e0],
    [0xc2a9f90071bc830d, 0xd26c4583074073d6, 0xd480a976e73c6773, 0x2e083ac42fa88939],
    [0x41f528acbde2d1c4, 0x62087b782245265, 0x6bc97e26a35a9f5b, 0x12cc2a0dc5c02131],
    [0x9b79e64be46ecc7e, 0xa59c0101099e8ab9, 0xe55c7aff8bca2048, 0x22adb7b0e9d4c335],
    [0xddbb5e2f6bc02dd8, 0x70081aafdf1aff2e, 0x90b700f9fdef637d, 0x158cbe94e1396200],
    [0x65fa904aac00252b, 0xc72531cbc8727892, 0x4e7e897d0a0b9e6c, 0xcb42f4bca1dca29],
    [0x4b982b5765c4de49, 0x2a6f1c99c2a4c3de, 0x3e07b739e18d79a2, 0x63156236d87d367],
    [0xfb2d1548397a088, 0x3391a86d9de95781, 0x1268912be5023049, 0xb7f0818b640763c],
    [0xa919bf5f4d8857c5, 0xeb7fd04fbedbb016, 0x69a57059f933fa5d, 0x2aaeda58e831430d],
    [0xac1ea3fcce1fe938, 0x2694c936f1573ac7, 0x54c71d40114a0bb8, 0x196b76cefdcc7f6a],
    [0x11f5d3bbb01378e, 0x6009d5ed09931bd8, 0x4e816c6f9194646b, 0x1d3a013444e777bc],
    [0xb8ec6e97675403f1, 0x7ebed37f375a17f1, 0xb1fc45cfaa31fae, 0x18e4924f25893042],
    [0x4abb3efd3589781b, 0x535b6114f74d6c1, 0x17d50676669a6d59, 0x27c63021eb05577b],
    [0x2c5254723a60bc61, 0x28eedeb19040682a, 0xdcda1149dc98bc32, 0x159d12a40b8694d9],
    [0x70d8a44f6da2d21, 0x414737bca8dcba1f, 0x22e1b1425496f939, 0x1c04115e802bd716],
    [0x74ac46dde92d79d6, 0x910714459b385b58, 0xc28ee5f7774898d7, 0x4d0a06d0ce3dc2a],
    [0x8c4e7830ef3f6f37, 0x731a0970df12416c, 0x116aa6cc19453b6f, 0x30128d834fa6bd28],
    [0x432179802e34ae67, 0xb028bb6612017235, 0x4595ab5a16d37af4, 0x1ab7eaaaf3e53305],
    [0x6438afb7bb4fdf9b, 0xdd2684995eb89915, 0x48977b0fd1f51d4c, 0x2a30c413b8cd1021],
    [0x880ae76fe562730, 0xf972298f9186c56d, 0x3ed48dce55d257db, 0x1eb6795f1e63f893],
    [0xc587719182cc0b40, 0x8ef6e2bfbac5530e, 0xbe055233c5e38e38, 0x21d1ef33916e6a7e],
    [0x964d2529a0517c59, 0x8396cba9de3d7696, 0x3f54ded28a08f8b7, 0x9e2af7ab3d9206c],
    [0x7d0bdc91055a80d6, 0x45257ecef288d6d6, 0xe81946f9f0365c5d, 0x24564fb0247a0a53],
    [0xdb23a8215d0de13, 0x3935e8d0bc2bfc13, 0xd79066bd0e16b925, 0x1b9ded9f11fe5b6d],
    [0x4170bc690e69f9c2, 0x2bde74d051a75bc1, 0x39ecbfff6dae32c9, 0x192711d3f80d4528],
    [0xad0548ff2c4da1c5, 0xa1b7b92c4d50e3f7, 0xa5467fef1dffb9cc, 0x1b3af1fa25c32da1],
    [0x828c1a4fcb86f3bb, 0x1698d4d874aa192b, 0x10a03a9bf0e49145, 0x22bcbbbe6b9a39e3],
    [0x232cb2b6d320af52, 0x647c912a6bc4a936, 0xe68d7bf2316f4cdc, 0x3a947c69e09d64b],
    [0xf5bea0f38d4aaa46, 0x92e504009d268bb7, 0x62dd919550859a75, 0x2d21f4596d98ac3b],
    [0x89c10a8526967bb2, 0xd6ec1ebb3c546566, 0x7f80189733e6c53, 0x2b2708b2cafc8262],
    [0x69b1aab8eb74316a, 0x487cc219df1dc1d7, 0x276116f40f9743e, 0x13e69bc7a5decd62],
    [0x8d440a7a7d72d80a, 0x4afa1943b1e28aa0, 0x65df9535488935c3, 0x118aaa8f364cff48],
    [0xc571e06e4f310106, 0x8e7916b9f0eba90e, 0x3a74b1f23d9cf780, 0x11ad3bfa094695c2],
    [0x1a6b9aa34386f108, 0xb411539f857871cd, 0xc689e922707ad815, 0x2f4b6c06d0b996fa],
    [0xdbed485dba92eeb9, 0x13ce79fa1ca91f8d, 0xb02a2a6a6d34052b, 0xa6288360ee10c1],
    [0x2900ebddddaa88f, 0x71027932936673c, 0xe99c97b6b5a7822f, 0x25ddb8ea60be41e7],
    [0x187f6d11eb856d2c, 0x57a8bfe27ee0df70, 0x4ac03cf1a498d641, 0x24c8c87f88b21ea2],
    [0x30321202d467410a, 0x9e0b6dd0541d7c98, 0xaab871af8f3e1fda, 0x2f958a89827eb535],
    [0x9d895ce97e19f866, 0xab5ae103cd8a8bd1, 0x627315e2422ae26d, 0x2d2b3221d9d7539c],
    [0x95a0d04afd9c2603, 0xd8bcf676c689ca05, 0xc17fd99bd435437b, 0x13bddf23791d0989],
    [0x9b1a8940e1062826, 0xe99c5a32a8501ca1, 0xfe7a611523dd767b, 0x2c15a1ae35281bd2],
    [0x80992dda3bbf8803, 0xf3e8689b0901afac, 0xb2c7f5c9eada9fe3, 0xcec5e18e50beb5a],
    [0xac1ea3fcce1fe938, 0x2694c936f1573ac7, 0x54c71d40114a0bb8, 0x196b76cefdcc7f6a],
    [0x182445d4496a2e5e, 0xbdd8e450d1cf6f29, 0xa5d4465aee8fcd2f, 0x1d23ff4f22dbb142],
    [0xbf73ee4fbc53276d, 0x8765ec6f1e9d1233, 0x5c76191742ce9df1, 0x172ee58685e83a79],
    [0xd28c736cb2893b5a, 0x63d7e3fe6647117c, 0xa82226e28ed9a388, 0x352cf61f75587d4],
    [0x8a239b2873961fdd, 0x2627804ea5c03861, 0xd4ed79e03d32e23b, 0x1e571b53f1260a7f],
    [0x841a123ebf3edebc, 0xc77b07e38c93a800, 0xaa6703bb78913527, 0x150d7efd3ec4cb7e],
    [0x14e5638f2e87a37b, 0x269e15f580b80442, 0xa40c0d8a039a8117, 0x13cdaeb00438b5c6],
    [0x6dc3b7b8c24e27f0, 0x4eb2414a186b54e, 0x5b74c5f505af00e2, 0x9d76e8da13f8754],
    [0x712a206cb9e16477, 0x1128472e7ed11e8a, 0xebbc27f64fb4275f, 0xb6ec96b7f761247],
    [0xce81144da499a536, 0xf4bb1140d9519f1b, 0xcc17fbc4fae18348, 0x1e066da048cf035b],
    [0xf7ca4408bc3eaa86, 0x86932ba9f50314c5, 0x58165a95db5df2aa, 0x426afeba63d2857],
    [0x80b687e40e426d1a, 0x3650976b2d5d2d1e, 0x62f137219ffa5e34, 0x2ce68ba3f40fa502],
    [0x60acaa42317ef8eb, 0xdba8bcb16492fcdb, 0x96846877182b08eb, 0x1e1dbc3eccd20a0a],
    [0x320cf776a201b467, 0x22a5211345524b9c, 0x9dcdedfbe6800a01, 0x282ae2fa425f9141],
    [0x8a47a796ae9730e5, 0xcaa78a8babbe21de, 0x2690c53b0e04ad0e, 0x14bde086cfb1937],
    [0xd6658ad4fc099236, 0x5e7d677db3fda594, 0xbf01851955b051cb, 0x114e76d2755ba6f],
    [0x7308b52d3011d2e, 0xb5e60b14f10b005b, 0xa6fc65cb8536ea82, 0x2796ec5da2337eff],
    [0x38939f883a236f21, 0xeb7900adbe9209e0, 0x8b2c840b2818ed18, 0x252c6e37471afd93],
    [0xd1cacd3e84dc9e75, 0x4c170d96e7953460, 0x4a307acfd16edc98, 0x2b6e07212cf2e430],
    [0xd35ac55b5deefb49, 0x3f2491d4e2723918, 0xfdd4e17ff6390c97, 0x2adaa99cc0a5150c],
    [0x55d9c33ba0e6a460, 0xb6b5cee2d77f0b73, 0x5fa875620b6f6e7c, 0x17759cb89386f936],
    [0x610a136afd200e61, 0x699960dd76e09295, 0x1de11f36ba7cf79f, 0x111bb071c2ca1712],
    [0xe115bd1693a88818, 0x5e29df4f720d026f, 0x1e43d4baeb552394, 0xf394cb8fbdaabd3],
    [0xd67f1d38fcb343fc, 0x5b65fa19c52c193a, 0x4bdaf9f0c463fb64, 0x241d58e1cf3ed5d9],
    [0x9e6cd69801995242, 0xf70c566e6ba20885, 0x4c25d780a7968a80, 0x16713a7b5d8cf3ed],
    [0x6737f65b5362dd02, 0x563ebc5896fd6149, 0x3b6f810f246f384, 0x19909ba7fd3b8fcb],
    [0xf1778536e6c24aca, 0x7adf3d86fe83203d, 0x47dd42aef6561a27, 0x2a9dfd2dd3048b03],
    [0x7f4b6c91781864d0, 0x55c685561272111e, 0x555da020892086f1, 0x18532ee14e86e608],
    [0x5930ae67ffe04f51, 0x68691da92e03f6de, 0xcd88a3bab280b420, 0x2509cd9ebd96c0d7],
    [0xcabbc0294e2daf09, 0x96dd732288d273ef, 0x7a26326ce2e6ca7a, 0x11c0877290f33487],
    [0xdb8738bbbafbfd1b, 0x35d8516e06914862, 0x39e28a0a6fb1dffb, 0x26009dbe4fefea67],
    [0xa935098d571012a8, 0x3dd9930a50634e41, 0xa499945055cfdd60, 0xe9f75fd533fa509],
    [0xed68ff033c7ff93a, 0x64c9166093b76df3, 0x9e6582536aed2b72, 0x1f3592557428f40b],
    [0xac1ea3fcce1fe938, 0x2694c936f1573ac7, 0x54c71d40114a0bb8, 0x196b76cefdcc7f6a],
    [0x70cbd4e4cd48f69c, 0x50b85af2021c7ce7, 0x83cbc882c661e80b, 0x1befd6dac2acbea],
    [0xe2b65311edacdf9f, 0xbe8e170cca9eeb6, 0x84136f4092258eff, 0x2ddb55369f02ada0],
    [0x8310446e562cb7a9, 0xbf49d4cf33548e6d, 0x1cb2cef74fd216f, 0x12dd67091b9f1d71],
    [0x72b14132e7aa6cd7, 0xefaaf65080f870e9, 0xc7e75e3f9c261f4a, 0x1e824766a37cb1d1],
    [0x38b200e1c134bb1d, 0x68c735234f5756d6, 0xdd40c1791ac745b7, 0x4af8f03823d37ce],
    [0x4aed46b5e4f778, 0x23e3570e92dacd75, 0x82a9ee5a1715c9aa, 0x1b65a271d787e783],
    [0x518ab89f16ca4f22, 0xaffc3e5a34d92fb9, 0x8356e864632edbe6, 0x1b239d4ebb80ce09],
    [0x97df022e276846ca, 0xa5a6b6eb6fc5e427, 0x2c5dd9a9216cc182, 0xa9f23337f4d86a8],
    [0xcba5a63bfaf84037, 0xd6241d68668b26ef, 0x9e1f2697cd036bb, 0x86e0f2ecc21e308],
    [0x4181a28f0fd2a9f7, 0xaa03cca4dee1a94c, 0xe1ff14f7360deee6, 0x29bdb60350b498b5],
    [0xeb9779fd35ce5499, 0x17162a3c758eb19a, 0x85c48a32d650d24c, 0x2ed66c1da1c54cb6],
    [0xfb7af1d793e0c7c6, 0x3a64244728a8e8c5, 0x611877a371f26ef5, 0x23731d564560385b],
    [0xb6a0e7df8c54cb47, 0xa55e94634c3c7f92, 0xa1d54d3be85485fd, 0x5d2071dddbfe020],
    [0xa48aeeeddf8c42c9, 0x1ca3c7a6f1297401, 0x7d6bd3242598add2, 0xf43e2482200419e],
    [0x2f8fd114874a8cb4, 0xb4a4239425a12ce3, 0x6e9f9ca597b984d7, 0x147a84a37131c4e4],
    [0x4da6fd86ef670a19, 0xd400b734124368cc, 0x6df8657ccae9de73, 0x6acec506161a253],
    [0x443afbe83c4cc725, 0x5d27b6f8000e366, 0xe1af85d71cb254f, 0x23ca187dab655ca8],
];

/// Part 6 of the sparse partial-round rows for width 17, as little-endian limbs.
pub const S_DATA_6: [[u64; 4]; 256] = [
    [0x32ab277fa47c0297, 0xf1ef9f05e2e63e95, 0x691695f93bf0f432, 0x2f8a17922cd86c60],
    [0x4342d667ddf2caf2, 0x4833f35db8c7989f, 0xddc2fa52e235b3c5, 0x1846b9769a8f327e],
    [0x83d2854d749d0ab2, 0xa3f760251ae2f2d7, 0x19d2bd52271b9a8d, 0x243270c2e4a32bbc],
    [0x187ea6902f5e0dba, 0x3baf934660f2c934, 0x98887dc01ea2faa3, 0x29e4f01c0da1655d],
    [0xa323452a738a4271, 0xfe897a8a5cac24a0, 0xc8d048f6ef72742e, 0x3e46dd55965a70a],
    [0xf004900182588e87, 0xb862c706221b604b, 0xcfd5cf71879293c3, 0x3032ada92a06e725],
    [0xf470655e7a79b9e, 0xd36adad0118ce778, 0x49d5496104be1d44, 0x9aa6962258ba575],
    [0x97769420911b59cb, 0x60617e46bb7900dd, 0x23f455ab4a5e76ac, 0x24f4c3f9b2fb7dde],
    [0x417160745c80b7fd, 0xdb43d86d59580ff5, 0xb7b710d2cc93937c, 0x10e408cfdce8d6f9],
    [0xc89879d81cd24a16, 0x51a2955f8ee20b2e, 0x10e5539ecf56bf1, 0xc7e1f9439ed6f97],
    [0x3a3febce0fbfb3d9, 0x65dbe466145402ba, 0xc8bc1e1b110f0656, 0x20bf7ddb42d4c9d7],
    [0xf0cf609a1270d720, 0x9baf4de0046875d1, 0xd84eaafda9702a63, 0x485724e08555b73],
    [0xfe6ff48cb863749b, 0x494e65bbfd13c3f7, 0x22047861a72a6d08, 0x2e67be03421ab1f8],
    [0xa7aa71a85f547133, 0xddd8f86d235071ea, 0x557c73fb11286f9f, 0xf79509c03da0c16],
    [0x6e8bab3f20a296cf, 0x74810a03809c61e1, 0x3cd3cc8c6ef2e15d, 0x1df1ee0ab120c867],
    [0xac1ea3fcce1fe938, 0x2694c936f1573ac7, 0x54c71d40114a0bb8, 0x196b76cefdcc7f6a],
    [0xa7e1e79986f1cb94, 0x8f81cb8624b76697, 0xcff586c96031ae93, 0x214e36f5e05f24b3],
    [0x2fcf6210ee5f138c, 0x56433d47d6413c0b, 0x1c66a64447449b02, 0x26e5f56af93c25c],
    [0xe0b1a3bca5a64a2a, 0x683bf5a64e0c3067, 0x9d7421b0f1cb06d7, 0xb31a4ad9ec06698],
    [0x6ebe29e4fb1a0c36, 0x4ff632de09860eff, 0x9341123ab782afad, 0x8561474777e7f17],
    [0xb006741a0de303ed, 0xf337001a18e56fce, 0x6569562327f8db32, 0xffb57365252bbf5],
    [0x36a5b7f0507d01bb, 0xec88f846e3701bb3, 0x8a8634d87210552e, 0x186989821e7ba758],
    [0xc1ee2c208308e5f3, 0xddb981b75166e55d, 0xaa6dacaccd461eaf, 0x2b68655758f842d0],
    [0xdc93c590d9cd0fc0, 0xab8f7d9d9322ecae, 0x56a7651f9409b01a, 0x2d399f586c89c605],
    [0xdec32d7f1bdade47, 0x545886063a830437, 0x94519580405b41e6, 0x2da5bf9c9e9da4c3],
    [0xe41d816dd9158369, 0x7bc305fe56fb780, 0x8e54d5bb49e321f5, 0x2b65554e89258568],
    [0x471840f71deac714, 0xc6e7e45c2108dae, 0xc9e11bca8441cc61, 0x2ba41319cdf6a416],
    [0xff07e28730868f54, 0xcf634980a9f76bb6, 0x308a2cb0f33e1b40, 0x240f23cf9066f8f5],
    [0xf015c73d191ffe98, 0xb62f0ff9df561f7a, 0x20a05faa8d43bf8c, 0x231ff9a1222347ab],
    [0xfc3f5d0f421fe651, 0x36c866fe84ea1aff, 0xc8dd5429b56e7a07, 0x482fa25dc024367],
    [0x5af9784103f0fb3b, 0x9660eda207235d1d, 0xe5c73ce34d3ac60f, 0x2923732da6b8bf6e],
    [0x3e9888738e58c5f8, 0x248a44517474204b, 0x332bcffd151e9e82, 0x1753f96bcf7911bc],
    [0x4ae4b396667be084, 0x6e9a83a00f3751fd, 0x9a7b3009f26c0957, 0x15e1d217ad8bcccb],
    [0xdcc44c577ff23403, 0xf1e129302507e6ef, 0xcf58f3096ed129ef, 0x18e3a1c74fd50b4],
    [0x3af0b56f22ce8120, 0x272a953fba3249e, 0xbda80d23fabebbaf, 0x2ba6780071d6646f],
    [0xa317efdc27fc70e0, 0xe19a56995972ca46, 0x627d5c22c78d92ed, 0x1f7f5e238b103729],
    [0x42885b830315378c, 0xc8676c6fe2ce66e8, 0x6c3d068e085a361e, 0x2ea1bdf6dc4bb3ba],
    [0xd303c62790b34d17, 0xd908dbbbe87aa75a, 0xfc2bfa7f2beb768d, 0xa6fca77ea6f6437],
    [0x5ca9c4ee04ebc5da, 0xd3a3b8f93237a5e4, 0x2175ae9a176153bf, 0x6ce49d6e3d7f46d],
    [0x9e08b7cf0d241776, 0xa54746f27f0f0d91, 0x87bef0d4a83b8e21, 0xa01cdcd06c3f241],
    [0x7dcd7562d0a9844b, 0xe6c1b8d64fa4bde9, 0x6b9568ea56dd98bc, 0x13c68e6f75234dd8],
    [0x37ecd0f3ac12d88b, 0xc5d6120d538c40a5, 0xc7f1bfd5a6a0ed87, 0xa162dbfe59de052],
    [0xc5c9555423fe1c1d, 0x26c555a544d8ca8f, 0x7e337e83afb1feae, 0x2af4c78dae7b20fd],
    [0xe87ebcdcb6c7fe59, 0xaa4f3b04236427ed, 0xbdc3d32fc1d66fda, 0x2f6c75f43301c4a5],
    [0x5b7e2fde8160e42d, 0xc9f68ba65c057c23, 0xb6c584645c872959, 0x2a4aa9b8b9464b6a],
    [0x7d499e62ca725b05, 0x34ee5fd1adccc8a4, 0x88d60d080fb3cd8b, 0x2d8dcc78c6658c11],
    [0x5b459db073fa9872, 0x5a4638b32b416319, 0x17d04ca2b2cbe30, 0x14d6380547e6c54a],
    [0xdf4dbac1a55defef, 0xa8b8d6c59cd2cf58, 0x55796e0ea0e8e9f5, 0x478b43d35f78cb3],
    [0xac1ea3fcce1fe938, 0x2694c936f1573ac7, 0x54c71d40114a0bb8, 0x196b76cefdcc7f6a],
    [0x27228823b9d8172e, 0x79c907a4718b3b18, 0x1e2c59a13e9e76f0, 0x1ef96c51c2b7b30f],
    [0xb61c9dacd44a823a, 0xc56ab3d289391c4d, 0x220eb66f5382ef63, 0x29321a97121f289],
    [0x83de9f6845ea9576, 0xbeeecfb23422e83c, 0x670afe57fdea41b8, 0x1481bf24e7b45de9],
    [0x638472570c8c465, 0x1354f76fc73dbc60, 0xd5dff4319c81691a, 0x1ef847d3c1b94f7],
    [0x342f3896703b9e, 0x42cf1930552784c3, 0xaa20aca7b4af2de3, 0xc266666de2f8bbb],
    [0xbd14aac30b12ebc1, 0xa33dab8fab24381b, 0xef7c045ee236bc38, 0x149bb0f5b9d904cd],
    [0xe37d92fd71d88d9a, 0xf2133e707cccd952, 0x62b1d9b78ce2247c, 0x2ee176ae76a91962],
    [0x59a1c61091e53f03, 0xb6f69d346c01e8fa, 0xf70acb843f749ffa, 0x1376c5573ebb7265],
    [0x20501cd0e09a5b45, 0xb3dffe9b2c806aeb, 0xcaa3540c5efc8f6d, 0x1098a7920a98fb50],
    [0x95095b446fbf6bc6, 0x771cb4302388e39d, 0xf7093dcc2ba65898, 0xb01cc70e8b9fd48],
    [0x8f32c0c32d237b94, 0x72a6d6622bee8600, 0x879413df5c510fb6, 0x1b0e1d5d686b5c6],
    [0x591d7b8dbbd7870d, 0xd772ca2c1d8ab0e2, 0xff3b9b334dce7c65, 0x1f74ab5e561a3606],
    [0x12e86a1bff3b247f, 0x5c27285e90c87ad5, 0x9a1d638f7ab760fc, 0x20de7f8e6a491ab7],
    [0xa68ad718858397d2, 0xa69e15b68d8c9e0d, 0x9ee63ac52cb1734a, 0x2e48491edee5daef],
    [0x4545adfdfb73daff, 0x20a797469a02c06, 0xb22701dadc5f3ad1, 0xebddc875be02613],
    [0x34b7b8df3a50b898, 0xa469cf0b5f4c120b, 0x75bf87b388ee12b5, 0x171d043f251b7014],
    [0xde5a85dd0b319d3a, 0x96ad96f0009975ca, 0xd0e37f2200268184, 0x11c7c2bb7facd8c4],
    [0xf78907b6f02f2a2e, 0x8f4aceff8644a1cc, 0x84c11d33ce0dd77e, 0x2b86058c080559f],
    [0xb45231878b83da75, 0xc7fcfddc06376746, 0xa1dfdde1c92a62b0, 0x1bd631d67d9ac357],
    [0x3060f7a04fe40d13, 0xe08cbe62027d423d, 0x3428d4a39c788df7, 0x2cbdd86f5eaaeda6],
    [0x542d13ef27469cb8, 0x19e39fa631ba17d2, 0x36743a540c3b89f5, 0x120e0960c012805f],
    [0x9de8bb08b1f9e6dd, 0xb5537d4e05d85f81, 0xe26d65404bbfd7a0, 0x8e188acf6db761],
    [0x3f2249d32df42e65, 0xbcaf8ffc37040bdd, 0xdec894cdff62842d, 0x2da3a719e3b97734],
    [0x3b9ebf27276879d1, 0x31289939391991be, 0xad093b2a591292b2, 0x176acedbe2dc8cdb],
    [0xcf9a878b74133c92, 0xbc82a66e62b4bf29, 0x5cb0a49c9d0fe330, 0x15964189dfb203bd],
    [0x6bfd38b66acd1b02, 0x1b7ba6c1b0b74022, 0xe290a34cf6d72540, 0x7e6833725a1a694],
    [0x7e8990ab8aa30724, 0xf4dec5461c08cb8f, 0x71d7db91fee425ae, 0xe4fa44c437c0b78],
    [0x18a2caf15af84b38, 0x1b04171e729ddc97, 0x9be6b792530f204, 0x2e3f0bedffebdd35],
    [0xb84f59aa5db015a7, 0x60d0dd2e0ea24466, 0xda56ea5522a2bc79, 0x1504dc8d0dcecc34],
    [0xcdef4278a076e3b2, 0x25f988fb1cebfffe, 0x7952fb93395c2141, 0x178c9a3999106b04],
    [0x66f36cdf167bc838, 0xb7b6993e90b4332e, 0xcc8630615883a143, 0x1af7832596eef3c4],
    [0x7d4333e515ddc724, 0xfcfc720a39e370c6, 0x1cf3f25a018f8ebd, 0x2822dceeeceb7a2e],
    [0xac1ea3fcce1fe938, 0x2694c936f1573ac7, 0x54c71d40114a0bb8, 0x196b76cefdcc7f6a],
    [0xdc3cb39c07f27f53, 0x726a4fd660cbd3b6, 0x798a9033269b14f1, 0x25ce0d19840e800b],
    [0x226f11d9422b8328, 0x8ee07d2852587fb4, 0x11db0773887a9333, 0x175f82195ac38e9f],
    [0xb18b4c5f0da5f7e3, 0xe63c7288a4433997, 0x3ea272ff2e883a80, 0x2017bd7838d0bfa],
    [0x94edc9f2c55b5ac4, 0xb6040399f43551, 0x68fd9ce46ddbd2, 0x1818b2d93a4d80ce],
    [0x72931925c9a78427, 0x52d04ef730fb76dd, 0xf8972fe07e0ca9b3, 0x17c59d81c21e6f83],
    [0x9fa27a2954b213a9, 0xedfbddaf12b45fbe, 0xd02a5b8c1915f878, 0x13694ae68e1c55d],
    [0xe91e1165e9b4f18f, 0x4ff70e7a8d8e9c1, 0x6473bfc84ad47f1b, 0x120221d8a8457172],
    [0xaeaba929cfef4d80, 0xea86144d27fa8f33, 0xe5ae5ed1cafb3e68, 0x14d65cb6f3b2e4ba],
    [0x8aa80dbf21bb6ca6, 0x9bb69a3a7a9bfee9, 0xb627b87d84e65600, 0x1a6104dae9627992],
    [0x883ca9fee52830a7, 0x8dfd79b79068c6f3, 0x2d1d14ccba0d7b2f, 0x1e3af87bd4525557],
    [0x18abd57367319079, 0x7b7ec5661968b2cd, 0xa9768cd20f8466c3, 0xf3d0df45aa7bd62],
    [0xc237835a1fe042fc, 0x99d0d8e4f5ff6f26, 0x5f20a7cc7b9fccc9, 0x13b8af0004234bf3],
    [0xfa3093f493a9eca2, 0x50fb1c06fd4659ff, 0xe38c3778c76b2e22, 0x16e0bf0c9a24d467],
    [0xb1e174efe5c233c5, 0x98385ff358e23edb, 0xa08e87a6c46bf8a6, 0x26d28c3453b3d7ec],
    [0x102d46969daae640, 0x8edbece428440fe2, 0x1754c047bac9ad88, 0x26fcf8eeebb1ea7b],
    [0xd2e195e3f0319503, 0x1dba3c47effc3e21, 0x1038e6ab182efe0f, 0x2731ccbaf234079c],
    [0x13947eb094290d97, 0x4408eb4a92f3eb3d, 0x6f6b5f2a0ffb7ded, 0xc785f0fe165d5d2],
    [0xa0abc43e76ee0f3c, 0x84bea0fa4806c7d1, 0x2596cfc15ff01dbc, 0x2581c7faa23de18b],
    [0xd6a86cf595d4a17e, 0x68995521e989bd4d, 0xccffc865fffb83b3, 0x27e3f76b7335ff9f],
    [0x7c540db6c1800637, 0xc7dd20cb831e541b, 0xa28ed5ec2b8044e9, 0x13234d0fe49f03c4],
    [0xc6ac6ea1dc804ff3, 0x7a426494ba614ddb, 0x4eea4199c11f3d93, 0x11a6eaf2aa551837],
    [0x31f886647664a0c, 0xbd783e8c13821889, 0x8cb524cf8008e6ad, 0x1fcc367b6de0eac6],
    [0x9cccbdd143151a2c, 0x4cbd539c91310016, 0x974f7474afe5bdc9, 0x1458038bfbc93c12],
    [0x94ec832189cdfe25, 0xe28447c2f05b9971, 0x88599ed696dbd4ea, 0xf24afffaaa9f04e],
    [0xd0c35c36453f6826, 0x3076bae3ae720b00, 0x945c3c67c4c75749, 0x7c8e157325437ae],
    [0x614d13b1a14fb319, 0x94285ffec4c2a5ca, 0x75dc01088b72115a, 0x11198181950b4a24],
    [0x711d7383617ecf36, 0x4e135771d5348f7d, 0x90ca22be70bc5e75, 0xed57c8d4abec5e2],
    [0x648319370941bfc3, 0x6dd5fb95603720af, 0x9d5a8ce252840ada, 0xcec6b37e0709d4c],
    [0xa9f0c807a467511c, 0xcc598f8df429d9c7, 0xfe94214aa47604ee, 0x192f0b18cf17855b],
    [0xe63f837553cb58b5, 0x3361960a357f9c6d, 0xa110f50d67bd0663, 0x10323d6e384414dd],
    [0xf08d1d2640511, 0x4e666b932d604f47, 0xead23855ffaa4319, 0xadd901bde5b672b],
    [0xd4ee82713dbebaaf, 0x7371b2c3d90888e7, 0x25a3cf4e9a8f02c2, 0x16dd65f412cf9f13],
    [0xac1ea3fcce1fe938, 0x2694c936f1573ac7, 0x54c71d40114a0bb8, 0x196b76cefdcc7f6a],
    [0xfa7c82d8e77c482e, 0xbfbe2b4100df0895, 0x9b52bbff89c5c1a2, 0xc86afa39353edb3],
    [0x5c06ca54e9f3ab77, 0x539169134c5311d2, 0xe31191ad6e5bbae2, 0xc46613d67d66e8a],
    [0x3efa3fc1244184a, 0xbe76e15ba8589e07, 0xa76b5b9df068e5da, 0x395678f2449c3e1],
    [0x3c809b861b788b51, 0x5be2d10efb070b30, 0x2718d7c2ea72fa72, 0x19cdd035008146af],
    [0xf1d075fcf217cb48, 0xfb90bc65c97e8889, 0x891ea4acb582296d, 0x1a047c51c9647354],
    [0x138d20be790b2307, 0xb7468e216397e85e, 0x15018a2e3f2d80df, 0xc6cdfe9a0d4271a],
    [0xf3e1ac366d40d312, 0x29dd3af469e2e7ea, 0x58ed2e8816aaed1c, 0xbc59105470408a],
    [0x3e2e63a19aa0453, 0x662dc96cc64cf15e, 0xf2ceddb797ffc5a, 0x2bd71a360bc27ecd],
    [0xf80d98ee53eadd5d, 0x84c34723fc735865, 0xf95789dfd96426ae, 0x45e127feeab8d5d],
    [0x5d16fede2fc3be20, 0x3d6888a8f8f35e0f, 0xdbcf85d14af1fd0, 0x153dfcb519caee78],
    [0xb236fe5befec431, 0x15b544460b6a00c0, 0xd800dcc6d07e0d0a, 0x14e6a09539291352],
    [0x473dec34b227eb63, 0x730d63b9212e6431, 0xb399aafa7e52a5e1, 0x2eb026a3350a6d92],
    [0x314ca4554e4c034a, 0x13f7f2af04f83162, 0x2da80d743f6325b0, 0x1641bb238c520d7b],
    [0xe6239fa808bafb4d, 0x8d810ef879943988, 0xc4533fdbd59d3e11, 0x2e2b3857032c8659],
    [0xedcc16507adbfd92, 0x679a5e15b1f4b9b5, 0x2dc12fcb8490ec1b, 0x2c37d689e22b1f33],
    [0xf73356f8a0c2afb7, 0xdac7bf6e942883c6, 0x9507310cc9a8a7a6, 0x3025a60ca5e0d56b],
    [0x7570f0ea6de0782a, 0x35ac136ef900a614, 0xee72b28edabe0f47, 0x7f9e146e6c775ce],
    [0x25c84c180493c6bf, 0xfe0bbf1121678608, 0xf8b099c165d26545, 0x318bc71cb7dc9d5],
    [0x81c3f4e03d42b128, 0x9067a473d849b4e1, 0x5df5e6b84648d066, 0x2c6fe3f7e1801002],
    [0xdc4ed7ec323e57a9, 0x86bd767c78391160, 0x2533994513500e63, 0x2bfa2ee15d1c0619],
    [0x12baf4701786270b, 0xfd4685f1fa9d8c0, 0x28547f4fb7583a6b, 0x12f7e0085d724c9e],
    [0xa300b1ecb6e2aa63, 0xb90cdc72b345c4b0, 0x4df8b66ea9b5a5f8, 0x58f27cb9e4bb8bc],
    [0xa44593ea2fef03ec, 0xad8db5cd00ddb1c8, 0x99ab646d95af278, 0x1f34ca32f956eb4e],
    [0x938d783ad0b44499, 0xf2ee35b1fc103bf6, 0x6a2df0d555812bab, 0xc73343dbd1d6204],
    [0x69fda3370f46083, 0x38d915cb495c74a0, 0x207ac2b687e135e4, 0x18e5fde3115a19d],
    [0x4ea4f9a9608e1e23, 0xdfea69a589ac9071, 0x775ff4e871e321eb, 0x120fde4dcc6a7447],
    [0x45b8d6cb1706f490, 0xf8fcf449dafa39a2, 0x175df8d48155e9af, 0x2d4601dddfecfe13],
    [0x3e2133c060905ed5, 0xfeec8c75dc440712, 0xcbb3e04853acb5ba, 0x173632b4f61f2083],
    [0x8c5ab2691a927730, 0x8b335f67b1fa259, 0xe38cff7949965971, 0x26b288e1ff854948],
    [0xaf72e1e22b956422, 0x8d1f7dcc8989d48c, 0xc6de4d889910df13, 0x2a688ae162bad939],
    [0x55d7f9b004d5734a, 0x329b1372a7fb63f0, 0x36e72359509e3dac, 0x160f4b8f49b226f],
    [0xb8f122e9565d4044, 0xa456201d26f15d45, 0x542ed03bcaf07a59, 0xddb062d06f99f34],
    [0xac1ea3fcce1fe938, 0x2694c936f1573ac7, 0x54c71d40114a0bb8, 0x196b76cefdcc7f6a],
    [0x988b29f47ab549c, 0x3b94a24553fae0e0, 0xc769257653ae58a7, 0x13785c4968bb97c8],
    [0xc3dda454afee474a, 0x6438292781351bed, 0x78fdac5cb9ff8d8e, 0xec91cce07b1e9b7],
    [0xa63a50b493a6d655, 0x70cc4f56076ed366, 0x233f390ec3cf43a5, 0x22ad585fe3ddddb3],
    [0x18a87459396cffd6, 0xf7b65d2b96b6023d, 0x4d0f07de79bd18a1, 0x11f51cd707f519aa],
    [0xd7f5ac31fdc6cb51, 0x4c611797e77ebc27, 0x3e0f6366c4a3ccb4, 0x16d2290bff342fae],
    [0x97b8298daf0a26c, 0x21f90a935641a451, 0x81d48a335be28f45, 0x16d4e47f82ee3b3d],
    [0x4ac950496f6e118, 0x7394636fc15c747d, 0xef71e682b1faa7dc, 0x269e6a80d58dbc19],
    [0x199c4c8c70e2dd06, 0xb0e384703e71ad56, 0xaf14f894023cebca, 0x2c1684229f0eae24],
    [0x9d6e50267ef18fb0, 0xcc406ac3a977235f, 0x94928190781b626f, 0x2d9ede2e8993c457],
    [0x56e62135bf77da70, 0x218098ab99eeef97, 0x6a927303acd7fc45, 0x11d67805271cb5d8],
    [0x417b720bc37c7881, 0x231f7727c7f98d97, 0xef55c5cd644aacce, 0x170206f9a4e4e0d7],
    [0xbd5630d66d341324, 0x4f887cf18ba9f869, 0x98f7fc57d004129d, 0x14a30c6b5536c74f],
    [0x947206d9290e7d10, 0x7a537cb64129293c, 0xe811f3a191a9d6e4, 0x25804cc693b0e118],
    [0xce975bab7c15f2db, 0x8231aa841e09627c, 0x2901d4e91ad3cfc9, 0x1a7a17b400934be9],
    [0xb6a8c922ad09dae5, 0xc8c9c223c280080f, 0x6998435a7d0cad76, 0x2c0632973f605ced],
    [0x9d5a05620997fc1, 0x61c13fe26bb4f53d, 0xd39f2abd29d5f0a7, 0x3044b16721e5ed81],
    [0xc043beee286025d2, 0xbc2834cef35ce6bd, 0x445c704748bc7682, 0xe2cb4e18b26e4ea],
    [0x88e98203692941f1, 0xd2d37eac1cf86c45, 0x2cc3541e886cb227, 0x1c033ddc1a972031],
    [0x78ff731a9378bee2, 0x23d051e0a3500db9, 0x49fa311c6f4e8d04, 0x1ef28ce82fab806a],
    [0xfa1889e5ad0d1224, 0xa46928189efc8ea0, 0xdb1939ae4ceaaf14, 0x51d7d3785234a09],
    [0x1b5ce6ca41927425, 0xc9eb8e3a9f2a22a7, 0x52df23623b0b72f3, 0x462c9e533e4745c],
    [0xebbdb6a55ea5cc93, 0x6dc8019b9633f49a, 0xaa9c5f8f63c4423a, 0x26a33280331d48e2],
    [0x9529b6111039e90f, 0xec51411bcb07985e, 0x7e4746115d96cc25, 0x8ed8b1b9618a2db],
    [0xeb2f8e876c40c41f, 0x7cb9e5c9c2591867, 0x7b18f1bd5c183a37, 0x18fe5d991dea77a],
    [0xb21ea0e39a30e5b6, 0x3289d9a8e51618f9, 0xe05ea92e3a982a6b, 0x25a3f5cf66d0e82b],
    [0x130155d28d1dea2e, 0xbfaef6519618e435, 0xf008e9909fe99904, 0x6182fd61e1b35b6],
    [0x8e6728570a22d844, 0x660ca388775973b0, 0xca4241382ca0cd2, 0x1af6ad164424b6c9],
    [0x327c8a612c255544, 0xd889c6b4ba4190da, 0x89aaa855c063a2ce, 0x6b534601619e558],
    [0xf5c7e00c316d655c, 0x8dcf4fde1ccafb5a, 0xaaa38191f0cde54e, 0x50555bc03cbfafb],
    [0x85f7699ec9be97a4, 0xb0175fe948dc97ac, 0xb3cac02a495fbaa, 0x579cf40adfc069a],
    [0x4086d3ebd3743815, 0x9b36c1ce11b67955, 0xcf67b3c832d43a0e, 0x1d9670b720e7af8f],
    [0x9a08c1d6585a6e74, 0xed4f09c4f95d1b9, 0x52fb55e7d029267a, 0xb9f1b4372ddf2b5],
    [0xac1ea3fcce1fe938, 0x2694c936f1573ac7, 0x54c71d40114a0bb8, 0x196b76cefdcc7f6a],
    [0x1b63fad3332e8ec1, 0x84a2cb66366a9a80, 0x782c83ec3eaea366, 0x80610bf8946c2cc],
    [0x8651a7385e56fc72, 0xa7a1dee3ee8fdc70, 0x7503abda031731b4, 0x2837c8ba7f104dbc],
    [0xa943cf98965610fd, 0xe73dcdfc0f71bfa3, 0xc4f9fd965dac265a, 0xe4348619aa405bd],
    [0x2d6f2a261a2f7768, 0x7f29044410b1d98b, 0x67cb730f80133415, 0x199e9e250ce12b16],
    [0x94d8aad6334d4c75, 0x51e5ec3cbb6707a5, 0xdf4a99f9bd0bdb01, 0xa0409a4aedc8480],
    [0x7b1e7a4eeaefdbf3, 0x6d5e937522c97472, 0x6b50d406af582c3, 0x2719d9f1e85015ea],
    [0xa7f2af91da59ca1f, 0x5167ea35b6a65ab7, 0x202792015dae5534, 0x1066a17fec5e6cd2],
    [0xe2dec5699fbe4d82, 0x81264ad715202e43, 0xa0eda6cd95fdc3cb, 0xe4b0a49c371457b],
    [0xb2e5002c2bdd1323, 0xa2283830e95377de, 0xac96fc11ffab9221, 0x24b58a924ae3bf6],
    [0xf038c856862af24c, 0x6c6c3536ffa82c89, 0xb6ef056c6a419277, 0x259c8606be0c6467],
    [0xe5f523b5332bbd05, 0x38df1e923aafd242, 0xef9dd5f2aa73764f, 0x21d6c0a2a54c5ae9],
    [0xbb025318e416678d, 0xe969416f4e1a5678, 0xa2e49d484abb2b30, 0x3c099cdc3f61caa],
    [0xdcc6bf3c548262f, 0x3c1c0a1dcdab3588, 0x18a9a8edd80a2f36, 0x1d4d4b8c552ef0d3],
    [0x555699afdfec0a0, 0xc0e7cbc2eef1e25, 0x6185c416d6ce6f5b, 0x7e4cf648e92c27],
    [0x322dfa2af211f3d9, 0x68127f06aaa50a32, 0x482a9940d59a690, 0x2992b02301dd18e0],
    [0xf37e4b4aa6975598, 0xac4125d0951616f, 0x3d8082d8059270e7, 0x16871531e6fe8117],
    [0x6c779ff43f295f1e, 0xe9e01eb05d73655f, 0x357a52f0127797f9, 0x221c08a0b7dc5aca],
    [0x25b9bca2604bd862, 0xe982a4d505a34216, 0x47d02fa4460c09a2, 0x2756a3d44e88bd65],
    [0x600c4fb5a2ea53ac, 0xdb92b629185e01e5, 0x8eac7a9a156d2444, 0x2923fde3bde5751d],
    [0x6577448d5fd556ba, 0xc654d2a892c4eb3c, 0x67f8fce5fc42ee26, 0x179ebe0d2b17128a],
    [0xddd8de64feb0275b, 0x7a18c66320825acd, 0x7221dd98f8ef2910, 0xa1814edd4f8466f],
    [0x7978365ad0bd316c, 0xde37c150d4e7aa19, 0x369f79beef10f08f, 0x1cf03d03226c78b2],
    [0x8843f8f03ec3bbc2, 0x9b0a7e28296c84ba, 0x387d2170ea6b9a62, 0x2fd3e923ee39fabc],
    [0x2d32a584286e1b4d, 0x47c78ae90e49ae72, 0xe4d0ed3a1e5cc012, 0x12c6bd4f25c2d042],
    [0xd4d8ca99686c9b9e, 0x6e95c4011289c44e, 0xaa4f3cdb1c79ab20, 0x11b78a0b243bd45a],
    [0xaf820d2727f459d, 0x9ec0f0b9071ad9ce, 0x86011898e6bb26a9, 0x8945308107ba564],
    [0xe4cca3418693b323, 0x114bc8b3b62b4081, 0x7c1efebd6becbc01, 0x2172f85afc450cd6],
    [0x3f49978ec6a9cfbd, 0x55386b9aeba12f48, 0xf5059b2595b4f06b, 0x2db81bcc85e548be],
    [0xbb2226803305207d, 0x83eef4ba4373a16a, 0x7d0b46a2cec17660, 0xef5d0ab806be48c],
    [0x824a3b193ccf8b30, 0xc0f1e01b845aa970, 0x8325943442e65736, 0x17caf822e96f4cb6],
    [0x3cc7d7b59ff15041, 0x35f85c24835a4d5, 0xb9835d8ad7adb67e, 0x2315b8f0ee989b11],
    [0xe5fb8c5258b46794, 0x5d4e84da900bb30d, 0x88e2a57c1015af5c, 0x1f5c7dea1a88280a],
    [0xac1ea3fcce1fe938, 0x2694c936f1573ac7, 0x54c71d40114a0bb8, 0x196b76cefdcc7f6a],
    [0x1bfe322924e000b1, 0x4289992027e3a84, 0x424ffdcd9a81657b, 0x92a67467c379af9],
    [0x30ae85874c112546, 0xf312cac00e6c254f, 0x3906891b2604d2fa, 0x8c70f58f0244646],
    [0x4460940bc0c12a3c, 0x19ad1aa4aa2be462, 0xf989d01c1fa9fbd2, 0xf4af67e5395b62a],
    [0xc3fc54ea8cf7fb27, 0x676e249247a2a577, 0x6a1994a87177f0a4, 0x17f7da080a715931],
    [0x59e0ef80b5f333a8, 0xf09872714fe1d632, 0x32b8ceea1de4c4c5, 0x1591bba9c620f871],
    [0x61be65a5ed0cb24d, 0x877550b79ae4262f, 0x7abe01145e5f35bd, 0xcc30f15280abea4],
    [0xa51ee99da3edaac3, 0xab6352ba622804ff, 0xd47bb906223b02a9, 0x1fc9cb670a57f842],
    [0x782d7a319dcda091, 0x33041aed6704a66d, 0x6910a34edf3f0933, 0x8e8b798ab602d1],
    [0x6971f11dce6ca6e2, 0x886029e21e9ff569, 0xcadef4ae88dde9c8, 0x1548714c734096e2],
    [0xf3eed1bf38c610dd, 0x7f2cd639a3317bfe, 0x598f8acf721bdc05, 0xa133a39d296d427],
    [0xdd62c4ce7a262914, 0xe77b84cd55bbf322, 0x6d7d0bf0bfe4d586, 0xa4190ed0b3c966b],
    [0x735ee9f5df35859e, 0xe79514770b3d6490, 0x96d06c8f53902672, 0x26447ee046865422],
    [0x1f4aa3e78e177870, 0xdd8d5128123693ab, 0xcd7da5fdc33db94b, 0x2d1d51cdb7a8fdb0],
    [0x144c7b088d3ffdd9, 0x73d7cf2f5a32a888, 0x5c48edfde61d817b, 0x17b204236b11bd5c],
    [0xd658514f3692828f, 0x723c87a5c5aec9ee, 0x607ed6888d503f44, 0x1915106b66fdf208],
    [0x59a7294e07faa69c, 0x394e160dbe0b27e6, 0x8b24213479856d66, 0x1c171f06ea82d21],
    [0x1523a74d4ab23f50, 0xdd18ebdda1825e39, 0x9f509eb1e30acebe, 0x2a4c40c22e17c0bc],
    [0x1beb2ad41ee21f12, 0x5a77c41a16fac68e, 0xf9176d72bec69e78, 0x20515a5d86581b02],
    [0x4a4dc244dcca5cd1, 0xe7e7520f2e898221, 0xca89faf8e58b0469, 0xc401945dd3d8dbc],
    [0xcd2cdeb2830ae0df, 0xeea22b0bfaeac1d0, 0x8ce614a62cbb2805, 0x28bf080eaf773633],
    [0xac85037bd69c52c3, 0x891865b24bd09c3e, 0x9ce955a83fd4db61, 0x20ed87ececd54dc4],
    [0x197368b3d22eaff6, 0x426f6c39fed82bac, 0x555f8bfd7648d1b4, 0x2baf7d6e7863aa68],
    [0x73bf63671ec7a947, 0x1efb0b1953ec7f95, 0x9269c5031cc1fe8a, 0x1fcf69944cc88956],
    [0x207b69b4ddabb83a, 0x8c3bee91095a6340, 0x3c45ed4e17a4ae4c, 0x980bdeb30e0498f],
    [0x71454f8aaacfaac5, 0xb5736e569f80505e, 0xc14e7fcb5fc1c008, 0x2455522726c3c95d],
    [0x8e66cdda9f8970d9, 0xc446280d9bf1010b, 0x6ea9c3b935009e79, 0x23541590ac665029],
    [0x9818b8cdd02f556c, 0xc78997d591a63910, 0x398e051d2a223193, 0x1d14af4f4b54f0c9],
    [0x1a05fee842840e4d, 0x78702bad181237c0, 0x97520a0f4a812c7b, 0x22a747877bd35dcb],
    [0x4a97d9ff4afaf6b2, 0x9a0560bcb9628b08, 0xd8ae595e84c1703, 0x2eafe1740ca67f8],
    [0xda9043c9874ef2d8, 0xf49fec76c43c3f20, 0x666def22befb81ab, 0x1dba84e994a54a21],
    [0x3565bce046fcf153, 0xa212ac255691a1bd, 0x2f3469e9d165e49, 0x137b47cf2f3d3afc],
    [0x9440c863ca10caea, 0xf84748fd901547d4, 0x9b8445581ee8f0dd, 0x1eeb1a0edc33a3e6],
    [0xac1ea3fcce1fe938, 0x2694c936f1573ac7, 0x54c71d40114a0bb8, 0x196b76cefdcc7f6a],
    [0x3ea206d200db8d69, 0x6e4eee70497a4a95, 0x6deb00a314337a9c, 0x3e5726f2b2c6090],
    [0xe1f8f347041af0db, 0x4200539fd1e1a23e, 0x2d5f80b2e720b61c, 0x528d0374310dd04],
    [0x38475e05f9037a03, 0x9da12c92549a11d2, 0x6e3b9b97ca36d743, 0x1da41de720a61ccf],
    [0xf6992f57be251b99, 0xc369ef4aed709fd5, 0x631e4f710fc9b066, 0x21c1d92ba962ab12],
    [0xedeae7e733b0278d, 0x29646c529f6efca0, 0x34d2d097c0f46ef9, 0x2ebcb6f494b7d06a],
    [0xb2bfbd70761aaf49, 0xc17e1341839b94e4, 0x2ae6e1b4dd89151e, 0x26ba18bcbe43ee1a],
    [0xb30d6cba0266ae31, 0x7d00643d5a668a8f, 0xa177ee5a8b12de45, 0xf05d9b39c0b9b3c],
    [0xbc80af72eb6e49a4, 0x530c1bc906895850, 0x1d189184d086eacb, 0xdbb12012ec46727],
    [0xa5353ea959ee6c9f, 0xd1926b613e979d53, 0x502c34e097c74fe, 0x1e3d63755488479f],
];

/// Part 7 of the sparse partial-round rows for width 17, as little-endian limbs.
pub const S_DATA_7: [[u64; 4]; 256] = [
    [0xa77de64016d23c0d, 0x82fdf3c841d5ec1a, 0xecc251b7cbfffca0, 0x2939fe43f4690de6],
    [0xb476f96cf97208e9, 0x235404a851e915f9, 0xa1ed74cfb37c9e98, 0x29b304c4af9503a5],
    [0x69441d649ce04bc6, 0xa8c174076a250c3a, 0x94ca7cdad4cd379d, 0x17f58faffdddb928],
    [0x1a80724d430e918a, 0xd8a3cc2a2519cc01, 0xae3d41901a05e755, 0x191456fee87886a7],
    [0x856f2e38596f3d2f, 0xeb7633a00e8d1f51, 0xeb5818971467c137, 0x4301fbb26093e59],
    [0x41dc1f4ca2ce87a6, 0xa98e33011da6e40a, 0x59114950d8afe484, 0x127fe9f3329bc337],
    [0x37dbacfb7ef69664, 0xd9ca48ff7886b06e, 0x6d85daa85c5ca3d2, 0x201ad991da475d14],
    [0x677cc36327cebe65, 0xb1827ad57f7511a9, 0x3d6fc62623fc5b36, 0x24a3d85006e0ccdd],
    [0x28d9a6a18a354953, 0x57ebc32578efcc75, 0xb8934849938c7d11, 0x273193d9b2986767],
    [0xbe881026da729676, 0x659221cafe92405, 0xc8b577993aa63ac0, 0x2bb64a3b825a61f6],
    [0xdc059fd03890690e, 0x2c93f94a334e5fed, 0x547fb5b3b8361d17, 0xf656e73593dd090],
    [0x55a023b89542d353, 0x42586f2792b146f4, 0x474b6eee810b7509, 0x2889c18fa2eb572d],
    [0x22ebf9378f4aa031, 0xd299f6d2d1e64123, 0x73285acbd59f0e3d, 0x10ed5f7f60bab5b4],
    [0x39c5b98a180391cc, 0xe9eb337c0086cb2c, 0x9a1ac6b1e112ecb6, 0x94d0f2d2dac4b54],
    [0xdaa0fb7ad8d2eeb9, 0x8e70e42e3f568a97, 0xd2acc173d41e478, 0x1b6950296c9a9893],
    [0x7ae4b54826190e21, 0x8b9b76b1fdbf3ea9, 0xed1716207f3d70e7, 0x227c2f6979d9ca34],
    [0x6f6aeb468189f68e, 0x7b725d24c5596784, 0xff1cfa9060778cf7, 0x33ee70ee09fc264],
    [0xb8d03390192a264a, 0x73a4bfb0b1645964, 0xd90094a3b69b6358, 0x103ab98622a6dd1b],
    [0xeef19fb47bba174e, 0x73e4df3036ee569b, 0xc19af50bd1fe9d3e, 0x46f5bb0ba2b9a8c],
    [0x246f7eca45b5d7f3, 0x2f38fec2286788bd, 0x887f4892fd66ae96, 0x1955685f6f6f936a],
    [0x752782d7846d5a16, 0x921f95e73b87b7c3, 0x2dc6d616ec080d6c, 0x7eaa9de669ef144],
    [0x291767e697516522, 0xb6793de46309ff72, 0xac254178b668e743, 0x1103c98bc60cb276],
    [0x427ffd798b5c211c, 0xd4ad0b484ea0837c, 0x79522578c5025149, 0x14e1141e0163ad2a],
    [0xac1ea3fcce1fe938, 0x2694c936f1573ac7, 0x54c71d40114a0bb8, 0x196b76cefdcc7f6a],
    [0x7d26fb633ace8fb6, 0x2f816d24b695be14, 0x78ffbfa904311740, 0x4b913e824903a4b],
    [0x68d807d21eaab72f, 0x8ac0ce6781702a13, 0x9da05602f07e696b, 0x11b959c95a4da45d],
    [0x100758347243f289, 0x6dc81dc1f81c09ff, 0x32309165184ac8b, 0x1fbfc86fc58e1fa4],
    [0x9647207922a9041, 0x853fa8e71e1edc24, 0x6f45ac73dba9666a, 0xfa7865327aef824],
    [0x945dded0c906d83d, 0xa8ce01089600b801, 0x2b0fcd04439ebdaa, 0x3020170de7b6e86b],
    [0xcf266255d68496d3, 0x9040f8f61e1b2419, 0x8fffddca3f837475, 0x10e72d8e4629ac7c],
    [0xfa47480b90dd2a86, 0x92eb9a536f473e85, 0x161345ab49317e37, 0x5e90f1892363b99],
    [0xc85f5a1286288f63, 0xf8d5fff587df3958, 0xa7cd7bce008719c3, 0x240e190d0b92f9a],
    [0x2910302eaf30840f, 0xbe6ad3a3d4430396, 0xdb27e23b983f5fab, 0x16e841b2ee682513],
    [0x5faead935d02277a, 0x70399c8bd9cf4af2, 0xd288ceb48f43315d, 0x8a397b575fb86fa],
    [0xa018a78ae97067f1, 0xc2b442f9308ab528, 0xbcbd0216574b52c, 0x2edad52145b10b3d],
    [0x5f9cc62e911cda61, 0x1ec7cdda757bdbd, 0xfefbe6901c4252ec, 0x1caca2ec3c3d6617],
    [0xbabb743935f30de0, 0xc87d7b14cc153120, 0x49ecf530db42fea5, 0x157303e9fe114970],
    [0x660e0350d30a9049, 0xd0066271d84edf26, 0x6ab5daeec28e4591, 0x20d93803a35f06d7],
    [0xd47479448bc808a2, 0x6cd1256c80a6322a, 0xa9cbf049505d94ce, 0x970dae33627a299],
    [0xc64f1411b2c2f6b0, 0xb4facffbd49fd846, 0xfad6fa7aea247cb6, 0x178b6678bfc5c1d9],
    [0x49d3dd65834fd99c, 0x6835c969d4101ac2, 0xd286b56e7ec81ab3, 0x6503b98a6cc525b],
    [0x5d5bb88e1f9be771, 0xa0e039a4004cc09, 0x4ae7d9f38260750f, 0x21218ec0a783dc92],
    [0x76b063ec6031846d, 0x8761034a16f6b6e0, 0x7f0393267b29ab04, 0xc0289c922067399],
    [0x27ca81ff9560b48d, 0x4b38c3a606b02793, 0x4ccfd87d23700f20, 0x1984f03779ff4d9b],
    [0xa43869e037470258, 0xd3d19b4f8ad4f54, 0x83262058e28ab7c7, 0x17aa6042676f3833],
    [0x3b2d851ddb6a6c52, 0x754d9f2356ccf929, 0x894110394a79e739, 0x2ee1b009aa9a1ba5],
    [0xdb9e42e4334b8727, 0x6fd0846dbff4f3a9, 0x7479bca2d919afc5, 0x22a586eb8ef3b825],
    [0xc6537a04847ac5b4, 0xbce1701afdb02ff2, 0x250b0eb1857c4323, 0x643b1de630b4b9a],
    [0x3dc1ea4915830033, 0x246ebc56c44fe994, 0xdc0b3e9ce2b1e6bb, 0x125bab28f5eb5c15],
    [0x4c5f826880d770ad, 0xeba2a11321da1989, 0x5f34ad4ef6e7347e, 0x1bc10af70f7125d8],
    [0x3b1f3d0df2a4ef5c, 0x773157e39b5423b4, 0x86d915ac19af0535, 0xf6baa6289cf76db],
    [0xc519a35f391301c, 0x3bf8dbb8a19d4055, 0x5f5a779fba74e9b0, 0x2e80ef76053f6d81],
    [0xf7f114a9ef22058a, 0x1cd08918c0c22265, 0x283ceaab1fb5d4ac, 0x31efdb5d245fd16],
    [0xa6ad00622095b9b0, 0xa555516d32798397, 0x3d77ea8ef523c86f, 0x25efb8eac91f3ab],
    [0x826a37068c8859b5, 0x2c2ec7f78d1da286, 0x3e59fd2690a2aa10, 0x14cdcee9150e8679],
    [0x58780fc215396c4, 0x8f1b472c02e062a7, 0xd7bf37fd1b5e5afa, 0x101320abf4ad5bfd],
    [0xac1ea3fcce1fe938, 0x2694c936f1573ac7, 0x54c71d40114a0bb8, 0x196b76cefdcc7f6a],
    [0x16cb2f2eb343bf4, 0x7614cf5a5d970087, 0x4dbaaea4f05b259f, 0x4d0659feee688cc],
    [0x5b88aad5a753623c, 0xfa4f89bc26f523b6, 0x66e860ade461e23, 0x291dcb25510a3655],
    [0x9b6a3063393a1b6e, 0x51331e8da3a24690, 0x3e746f93c18ee86f, 0x1c40b5589a51a5bc],
    [0x9e63d7db750c6410, 0x6781eb6c1e46159f, 0x6d9dde187a15c967, 0x50535d58a6b2067],
    [0x2ce3cd51721178c1, 0xf354ad9890479d66, 0x3c7cae523592894c, 0x1532765d3af5aad3],
    [0xd21f7d62142dd589, 0x83e342690a21d3fe, 0xc1b5ef357488c008, 0x8a6818b3d448d43],
    [0x3a016573e7696756, 0x4c929ca5292cd789, 0x79c01c45dbc7b613, 0x17db4c5c59ff1ade],
    [0xbd3a5d3ecd763f5a, 0x34cdba5ea59222f6, 0xabd3eeaf983c6f64, 0x2a7e1f2d365ce9b5],
    [0xd7110577ce1dfa8f, 0x18f88d3e701ed5bf, 0x9e84d341f1152a45, 0x6261e5b4d7188ac],
    [0x4eb16332fbc028a9, 0x793bb0888ecdfcbb, 0xe32daa280419f8c6, 0x199c5a8f0703767f],
    [0xf7fb7c7da371bdee, 0x476d77ccf84f1c05, 0x924e078243a8d7e2, 0x13388d9d87929845],
    [0x964e481592ee6684, 0x9c2083c8cbc5be29, 0xa6757c186c08d7c3, 0x7d044bf7a4fd698],
    [0x9a8f384f63887cd8, 0x7280dd2440ef4734, 0xaf04c17591b19236, 0x283cd95f4743d216],
    [0x9f42034e35e93e27, 0x16caa2362bd2612a, 0xd0481ebffa730344, 0x1356391f7516db1a],
    [0x8210e5b359b00f68, 0x941b9d13830bc88b, 0xd8333e3f9b548f54, 0x26fd7e1f6d657b1b],
    [0xb54558c57435f916, 0x97404d4d4b47eaad, 0xa977addd6a9cccc6, 0x27ec948ca2028850],
    [0x44394fb5fc8d5dc7, 0x2ab79e6052fa8630, 0xa4f21829ba310398, 0x27529d815efdab4f],
    [0x20a38658cee96f09, 0x51da0695e577434f, 0xfa0a344fea750a57, 0x1dce3f61f34639ee],
    [0x7e8ce31f7b11ab5e, 0x68f38c53beae9cec, 0x89b5cce4bd785c4b, 0x917c97d46d5b4ff],
    [0x29fe3f33ff11d03a, 0x15292ebb44e58192, 0xa3105a2b5769cf39, 0x1f389f75cde06c7c],
    [0x3b28c43f297ff300, 0x8eed3e90c3c381d1, 0x67ec7776c0ce213, 0x2d9aac1c72b0a36a],
    [0x479b858614cfc09d, 0x160a01440281ebd4, 0x57c501e44a51e5f5, 0xb8f7a8e4c0d2d57],
    [0x6639bd89efb86aca, 0x63a3f94e9b4deb5c, 0x5877e2ebf9d07d37, 0xaa15536df2ec590],
    [0x4a2efe97df3214ae, 0x4137323442e11e1b, 0xd945440f077f848e, 0xb03dd77a7424fa8],
    [0x5dcd1d3526f538d2, 0x94fa7bddc55beb35, 0x3ef0062e8420e92d, 0x70898a71952afad],
    [0x97a0bbe6cb53a287, 0x62821494d738b578, 0xb49c14b165cb2473, 0x29d5413ba2416a2d],
    [0x8a7b92458c5f7c8d, 0x9c5b64e086cdb0c3, 0x72dd2ccb223407a1, 0x7f3f807872bb8ec],
    [0x106d89963a038f0a, 0x961df24ad0abaef5, 0xe8ea41b0334796a9, 0x2f69330924f5ca89],
    [0x1b0f128f6f53184e, 0x440d04359da42854, 0x7ab4c8c0942df7d3, 0x2abdcf1940bf24e6],
    [0x948c7090b319ec1, 0xd701156bb34e25c, 0xf0ea8a6be7cec5c7, 0x209de37635d57f9f],
    [0x45a7268d340a8f1f, 0xdbce291e7e30a1d6, 0x268a3b1bd5cdf3a1, 0x79b485de26ad58],
    [0x10557643a906ba3f, 0x2d266df448d8a801, 0x663698b5d2057040, 0x2da731b7942de735],
    [0xac1ea3fcce1fe938, 0x2694c936f1573ac7, 0x54c71d40114a0bb8, 0x196b76cefdcc7f6a],
    [0xb174ea42c9970efd, 0xff8e974e804ac53, 0xe1290f12b67b57d0, 0x2c8f848a56c338af],
    [0xd2a962d481001430, 0xbf73b049364d945a, 0x8ac36ad0a19e621c, 0x2d02f17717bf0db4],
    [0x83b9fe5458a859c8, 0x23807c5c6b122a67, 0x8e632f8dfd30bc3, 0x2150b09c7e10ab52],
    [0x4518938e4d1ab8ce, 0xf2bb111ec623f296, 0xddc6f313e86197a, 0x5b10ef00e618a27],
    [0x77845b2b81888a3, 0x62afad0fcf0fed79, 0x6f2ed8caa7eac007, 0x813aef08c1ab811],
    [0xaacf05750f85e308, 0xcfa40b31226a7f01, 0xe0b8010a3305f618, 0x217798429df3f4ef],
    [0x9d3583e1eab08db9, 0x1c30131e58fd19a7, 0x5a8a7e584a541a3d, 0x13dddd98f07da3c8],
    [0x62c80da1b57e0826, 0x64594e0179db56e4, 0xd9f42b940fd70907, 0x200c75e95d154cd5],
    [0x2e708eff20350bc, 0xe84056ea84571e77, 0x564202803e367806, 0x24c60aa77eec80da],
    [0x4369c0b2f110193, 0xe11897199106323a, 0xd018a7fe79edc508, 0x2008060f910cd57b],
    [0x72e35153780d06a5, 0xa369c96e98895737, 0xb5e0596a7e9fdf40, 0x154b1730e35711d6],
    [0x4f595947c9e3e9a6, 0x6ca7ff80ebc6bd6f, 0x229c8613c44f40d, 0x20b48f4a5019ab0f],
    [0x7b22cfe89262422f, 0x76292a28f4b8a26d, 0x9e70618c7f6a2473, 0x8da6678cb4513c7],
    [0xa03a6d536e8f3cf8, 0xd910c621ba8c0462, 0x8be8b702f45748cb, 0x1e32944ecb0c8e53],
    [0xefed9c8872c056c4, 0xfc22a799b13a089c, 0x3bef6cd7ac224d, 0x130383065e342214],
    [0xbb1d8b085aa7bdc, 0xe95b92657fb49a, 0xa3a6f31c54d13d9, 0x2bb1e946f9019e0f],
    [0x985da3f74ebcc66, 0x69da5743363f598b, 0x2511d5ef4cdc22e5, 0x12c6706724626b4a],
    [0x12fca57b9587fda7, 0x49f228f7f6c3ce90, 0xdd868e75e02332cb, 0x105f4876b371512f],
    [0x7b36c4b136ba893c, 0xa337f5c1eea7d4bd, 0x179494be5317b761, 0x1ecdf6fcce9eea60],
    [0xf026a4b9c59f0da7, 0x367042010debc24b, 0xdc657384ddb563f, 0x9cd2ef6d45dbbca],
    [0xc6ae60a50ee2f8ba, 0x141421c2e7e46907, 0x45889295c485aa0d, 0x254ac6855d050467],
    [0xd1e0e29418edcca4, 0xc9f0aaeb16ab6c33, 0x19930906e64c1126, 0xa99c054b9a38bbe],
    [0xf7caee67371b85a4, 0xdca5e58f1d6ebe25, 0x2896ac3ac88e5c69, 0x220b4016fade5778],
    [0x944e1ccbdb08da5, 0xdbb2a9e2c8f83a71, 0xf5e0232ef793f134, 0xb1979da1c048f6e],
    [0x39a1a1fa99dd91e5, 0x47a12d0e08118d0d, 0x5f89ffa9dfd4b620, 0x2eef2d924b88414b],
    [0x6138dae14b6bab77, 0xbd2a0b341b7ed598, 0x2ec8b9b2338953d3, 0x126ae3d2dcacca89],
    [0xb757352a74eaf498, 0xfb2ef50b5a1f734e, 0x5e2ff6e9537b23f8, 0x19e7c32cf6e235f9],
    [0x9bc4daa628297fc6, 0x84dc6064adac393e, 0x50ea6151e4a514ac, 0x2f9bcb5e0cd56603],
    [0x48109d86c7776b75, 0x72bd35560d30b8c, 0x74cdb1523691b1fd, 0x1aa496f96372589a],
    [0x50d3945ee2409439, 0xf0eb986a2769aee8, 0x51a7f1b186b35d6, 0x2ea5a8d0da13d3a0],
    [0x6cdecf3cc4ff8372, 0xbe74b40619892f10, 0x7e365ee018c76dc3, 0xa633c25ff6bbbd0],
    [0x5d4fd1d8135c9900, 0x330d5ab4a6cf31b2, 0x9a302b9b42e5fedb, 0xf412148158955c6],
    [0xac1ea3fcce1fe938, 0x2694c936f1573ac7, 0x54c71d40114a0bb8, 0x196b76cefdcc7f6a],
    [0x7d4d5da7e496db12, 0x69fef5cd8fd2a94c, 0x1be8fc1485b6eac8, 0x2f2ed1486990b943],
    [0x7d906189fd755860, 0x1f4ecb97f7520b02, 0x1e698c3733a296be, 0xd5140886c23f267],
    [0x7bd1bc1b71680370, 0x98b228d02f2ee928, 0x543b6fbe55028991, 0xd1b9427080a9865],
    [0x1fa084c73287c3fd, 0x63caeca529be18af, 0xeba62a9cf2cb22f0, 0x25f14784419e0d86],
    [0x5b30eef5a31abea9, 0x71163372ca50143e, 0xd81e69e418073776, 0x1cdf7679aeb1784c],
    [0xa9f93e33733c1224, 0xaace886107a6168, 0x3aefe49b257b3e7c, 0x7abd6f3a4c53c8d],
    [0xba8d2ca36eaeceff, 0x5ba02ddb349795a9, 0xe4a5081cc43fffce, 0x198e8dde62e4b800],
    [0x1fade31ff9e7d249, 0xb88dfee8d2f371e2, 0xe275115f56640a9a, 0x2a10fcbbc185ff7a],
    [0x6a4d703c6e53d53b, 0xce100c2667192923, 0xc3ccb5dd839b3f80, 0x3f74e702559a149],
    [0x7b41a19b4a119b75, 0x345a4814a7e947e1, 0x6079809b034d98dc, 0x1e9cd241f9655936],
    [0xa726ffcd67d2d426, 0xccaea62d865d0b3d, 0x61c87ce4740d281, 0x7640b3b48b2cec9],
    [0x230e91a1f7896eda, 0xdc9dd1a065655a31, 0x52e25fa54b360804, 0xf224f2a3eeb0024],
    [0x76f97d3e90e11316, 0x11bc8ffeab06b6ee, 0x1356634b505aec0d, 0x296b25652ffb8204],
    [0xd3ca31a2d93a21e9, 0x3b99ed9bf3f651cd, 0x5bfe0e823f4a984b, 0x24b1e852a6168ca0],
    [0xffce4c72df975521, 0xb3caefc4ae2ddb42, 0xca5d2ea71f42fed8, 0x1170380f35b0c131],
    [0xf1458995a5cf7665, 0x3c07b75cbc4a2e27, 0x2232544ec84b9c2e, 0x2a21146458a9b5cd],
    [0x1330c7b0876d1e48, 0xa6956f7866bbc659, 0x26e58bca73fc8821, 0x2cf40c380da1e840],
    [0xb2b80f7e591abad5, 0xbd91567061abbe4e, 0xe6e7906a8bb9897d, 0xa4e5a8c25c79291],
    [0x9db61960913eb29e, 0xed290d5b2197a0b, 0x50d9413629c80b87, 0x219cccac1ff828ee],
    [0x885e712084ae40d9, 0x306236ecccce1b8c, 0x4b46abe129001953, 0x18a4a743a0544884],
    [0x89a7ad4230792a99, 0x2ab2195a12d30075, 0x17a68d513413e70, 0x23f5c0a65d6d3f4b],
    [0xe606fe58c93b227e, 0xadf80720fd085394, 0x3c317fb6f1e20944, 0x248649d22bbd35db],
    [0x2096f782ca8451b0, 0xd20c725af7393d2e, 0xfc4b2571e40590a, 0x1da45cba740db4b5],
    [0x36ac6ab8bb65e7d7, 0x2a98903a73d69352, 0xe35f569c8b59acff, 0x59c9894d39a728c],
    [0xbeb4cda449a21cd3, 0xe5324e12fe046652, 0xe4049c3e23951f23, 0x137afc1da2a1dd16],
    [0x1130d3f883d29765, 0x875f51cc9eb80422, 0x6642592a40c27b9b, 0x1c67f00b6836091d],
    [0x1ffaaa73622709bc, 0xc86475951ca6f094, 0xc793b29450ce6458, 0xbeacd79129b9b6],
    [0xb6fec3c672cd5f0a, 0xab45bd42f537324c, 0x3e3d4bd5a46b5054, 0x1d7194f0b9970b10],
    [0x7f9b8be51c8a507b, 0x642c005429c53f5b, 0x328725ad18d2baf8, 0x38c741f8607a78f],
    [0x73bab7f02f0c55e7, 0xf0b4f9666c4c9620, 0x13b8400a3301ee9d, 0x1d32ee86d0a10d1],
    [0xbf4a4a157ecea15a, 0x2b0818c481c6e8fe, 0xab67e987ff3eb456, 0xec78e82ba602f4],
    [0x1a55929939a7842a, 0xf15f98bc4f0f68ee, 0x47a6a7ae42b76346, 0x2e0de6aecd184a6d],
    [0xac1ea3fcce1fe938, 0x2694c936f1573ac7, 0x54c71d40114a0bb8, 0x196b76cefdcc7f6a],
    [0x3c3bd52febfab688, 0x68b71c88e8d61c2c, 0x6a5acb2de0bc54de, 0x93d13cd9b043a5b],
    [0x596037e41a2888ae, 0xecff28dcf155f5db, 0x76e4610197b32d28, 0x80fab4e2e36da92],
    [0x2b4324877e33d9b6, 0x99137acfa8104193, 0x72297c49ff64365a, 0x7d2d245764c8563],
    [0xf3f32f4bede18a73, 0xd39531e22a75a30d, 0x8ba9add80b46b610, 0xab6a369f3d47ab6],
    [0xa4984f7e75a86139, 0xa5ec2cb48763c290, 0x2283858eff121cf3, 0x7a683cd3c4e6862],
    [0x8bd1d8e9bf20638f, 0x78a5c9f9cc88e53b, 0xc6e60cb8c1682f5e, 0x1fd44c84d9e254b1],
    [0xa006e9dd1c44c9b9, 0xb7a5c48c491c0a83, 0x6c097ec139f7d442, 0x2ac2bdddae01ecad],
    [0xe1371f1b8fd9ce09, 0xe663176598e2489f, 0xac3b172aba870efd, 0x24a03800df78ab8d],
    [0x66c9de6f412e08bf, 0x571ae46eda251ed, 0xff5f249f04214d2e, 0x12e453652194ddc8],
    [0x263358697b731668, 0xfc9a0271edbbb43d, 0x27f503f2ac512286, 0x592a798f42fe58f],
    [0x44d3c6fcafc01963, 0x243cbd535b6b3c0e, 0x8fe846f8cfef92f2, 0xa92a96d55b5e02c],
    [0xee2bc5dfd2aa8d41, 0xdebdb3a5df531296, 0xe163e2f4d34aadf2, 0x2f43e2c6e8af0638],
    [0xe0681288f2d910ca, 0xef783e031d60bc17, 0x5eed39ddb3e1e4af, 0x3117e986130d1c2],
    [0xb5b8314ef8f5d407, 0xfe677ba0bfac46f6, 0xf5f90241702018c6, 0x25cafbb434aee06d],
    [0xed5a527a6e5ccc95, 0x2440d6eee1ea1be1, 0x2b6a674ac02ef5cc, 0x28b797a499c2b108],
    [0xbb3b67fee7f50e24, 0xa684314a29992e3b, 0x3e64cc399506807a, 0x23bf393a57939400],
    [0x349688e8c8aa3e32, 0x790d1aa95183b390, 0xf440de43115089a1, 0x28656564d677d58d],
    [0x3ee0e4857e2d0209, 0xd7e235d501b3b234, 0xc993252fe1052c9c, 0x241a69500f5e134],
    [0x9a4b706e9d99f355, 0x1ef582bd1b402764, 0x147162a48b8095c6, 0x3744e02ce85e599],
    [0x20f4b59092a493ea, 0xa112980ee5d7ce43, 0xdef789033664d88b, 0x59b7a17e1c0e884],
    [0xe88af5cece9e433f, 0x7b8893acd10e93d8, 0x2ec2b5f7814e6e1b, 0x2a6efd68e5dabc91],
    [0xd24798c9c991ce5b, 0x566278d70e03c7db, 0x57d7af7d60262abd, 0x20826fe980809fbe],
    [0x8d3cea64e7fcc7ca, 0x1f09187613e19639, 0x979ac96f56201131, 0x181e562d37922bad],
    [0xc39a2216e9a2e78b, 0x8e6bc4d88a5cb20b, 0x3b341e1a9ff87d08, 0x1c4e70fbd4c9e09d],
    [0xc5114f020720b1c2, 0x7f9c2c51e0771fe1, 0x940388717c1ed823, 0x170c6ee37a8fae5a],
    [0x7d274fc39cf53b53, 0x36031f7b3fea6147, 0x109162c3a1c8a6b8, 0x68712f00eae99b3],
    [0xa3f8a2fd163f1388, 0xb6a7f4326ceaf7ac, 0xf3a88a82c38dc1b2, 0x1937a02e7c8e39d7],
    [0x9af257f46da5c6de, 0x6938bdcb0b55d66b, 0xc87f0f4e4106e1a7, 0x8b99b6b338adaae],
    [0x7a6625029b73f354, 0x9dcf26a8365b6f65, 0x80090baee33556f5, 0x136d1108a8d4bcea],
    [0x6c11649ec2e4da65, 0x2d4de0d5ab6d2d7c, 0x85fdbc68f440fa3b, 0x2d8a56738cf6dc47],
    [0x8e17801399f3ca4f, 0x96dc45bf5f8f1ea1, 0xcd67eef458297d16, 0x27f16feaf6fe1525],
    [0xfa10445f43a1836a, 0x43ee4e0b2173405e, 0xfbd06793842133cd, 0x340f8d664a1afe4],
    [0xac1ea3fcce1fe938, 0x2694c936f1573ac7, 0x54c71d40114a0bb8, 0x196b76cefdcc7f6a],
    [0x28e535cec66f6183, 0x778fa6ad3e6d75d6, 0xbfaa62698ea2b01d, 0x14ad435cf9a9f41f],
    [0xe258c101a7382806, 0xbbc39aec362b9db5, 0x5cb6c866fab78878, 0x229f148451470828],
    [0x675ebb7c7b2a318f, 0xcfe65acc2091c2cc, 0xaa081864bd59497, 0x55104ec0dfbeb91],
    [0x4300270b6ef3d4cf, 0x448f17584ef93ed8, 0x5a0de32dc9124230, 0xd75b1f18144371f],
    [0x38592893e02f879, 0x8152a3375abc7c8e, 0xe823d10c00af64ed, 0xa1da3a581de2337],
    [0xdb60a61e3574f50a, 0x712411f8bd78c1dd, 0x508595d24c0905b3, 0x15ce644c9c753f2b],
    [0x5f557cececa23fa7, 0xa3edbdfca88c3309, 0x3a4442ef27a2f3bc, 0x249251029b3a7d8],
    [0xbb08fcba65e146a2, 0x3f96d05d497f12d9, 0xed17884e486aa098, 0x2190e0657b7f4592],
    [0x30f2b3e9bdf3aa1b, 0xd2bebd8f57c6c666, 0x5475eca9cfa2f156, 0x18e7e7d031ea4b86],
    [0xffa4b66e8871b1ee, 0xd02df0f80f684926, 0xfa9d48e22108072a, 0xc23dd68ce397790],
    [0x4223048a6ec68596, 0xf258be08e8f5273e, 0x18b12e409e1a2f80, 0x1346be3945827128],
    [0xd8741c5d1302bf5d, 0xad18b0a119f1c644, 0x431c4dc592eeb597, 0x227413a36ae6153e],
    [0x18ff0242955aa594, 0xc33db950e87bc178, 0xbec3c60d3e9d3852, 0xb0ae3714255eb9a],
    [0xb2b36e10049da7a1, 0x8bc29ab001fa7f58, 0x3c6c9bde179a0928, 0x1f65fc4611691255],
    [0xc28b2e70a8f70d40, 0xebed4127382b82f7, 0x1d618754b17f642e, 0x1c35284edba1cd39],
    [0xc1abcf62626f48a3, 0xd025951641942374, 0x7dd86de041cab7fd, 0x1080a3fde0e42ad],
    [0x36634a08a2501d8b, 0xf11eee2ca12eff4d, 0x7f546af2e0a14fd6, 0x1428eb2a1f2d9170],
    [0x60e165ed284fd29, 0xceecbae661711045, 0xd754e92d6e8ce327, 0x33503c434487731],
    [0x23e4cc761c30895c, 0x3ec69d9bedca8fdf, 0x2f83451a20d0698f, 0x137a5d67d8c2d7d9],
    [0xc033427f8785ef7f, 0x1c7df8c37cf77d71, 0xd10d23919d9353eb, 0x33ff54a0543a859],
    [0x3e4bf9bd43919aef, 0x45cceeb3c13124fe, 0xbf7cd42d1bb3eede, 0x2ef45d95ea7a2a6e],
    [0x53e22e64541b864c, 0x11b122576b7ac19e, 0x7c3f356fc0888cee, 0x1503cc2c9f6869e9],
    [0xd4d923626f5074db, 0xc81c7f3f01b2f8c0, 0xcecadd2525f0400e, 0x13b7e00bb153de07],
    [0x941214a54e2ecbdd, 0x18e84d0f70c247b4, 0xcbe5e7bf4242e9b3, 0x1560e82a44438c75],
    [0xcd2fdcb856ed59ea, 0xd03cbc54db44314a, 0xd388bc97b407a150, 0x16e6cbda059ea98c],
    [0x42c06525a6a02f17, 0xe9de0f3645c36a4f, 0x665db9aa5a324754, 0x224e1109c1eb450d],
    [0x9aa0a006c5ca9c0f, 0x21563019bcec54ef, 0x611ae98352921e56, 0x1fae1e95cc145b1b],
    [0x5b1a585b3c15362c, 0xa12ff4ba45195e12, 0x448493205d8efe3c, 0x29c2c9268343afc2],
    [0xb1bd8ac26107dcb6, 0x6c593a8fbb1753e4, 0x4742ca4eb4fb4693, 0x1745aa01a6decfbf],
    [0x94a55130b282348d, 0x89dce7c2227dfcfc, 0x1c74ba35026dddbf, 0x2b8e149f0ad40ad2],
    [0xd0bfea9d95eb6155, 0x1dae88ee9e5bed97, 0x93f37e6b25f10a25, 0x21eb20b36f906d26],
    [0xde99160236cde439, 0x222f32d1ef3f7a79, 0x863a272a0cb40240, 0x2e2d367ebd03ab9e],
    [0xac1ea3fcce1fe938, 0x2694c936f1573ac7, 0x54c71d40114a0bb8, 0x196b76cefdcc7f6a],
    [0x84fcb06139718bdc, 0xc1f47ff4617dcf17, 0xe11687bea27b03d2, 0x2e142d51bb3c63],
    [0xbc67f103abaa8abe, 0x4fd7aff2721139ee, 0x91fb40146ab611c2, 0x2f9a0d8d22bb17dc],
    [0x79e4bceba7dd18c5, 0x5e2cb5e61bfd569b, 0x4e8790869ca50231, 0x1cd3446fe74bd3cf],
    [0xfdab02b2b6b28365, 0xd4f056d5be8938ea, 0x4cdcdf140521e2f5, 0x4882cdf369a6b62],
    [0xf64086af355320af, 0x9cddb879fcd4fe92, 0xc09b753a113f03c7, 0xdaabd96d080089c],
    [0xad07d2f97b1c81d5, 0x758452164778b156, 0x159d393d9383846a, 0x11fada765d840371],
    [0x4013310a430e72ff, 0xb14e7a6b34b3f19, 0x8f3afdd2e81ed31b, 0xf1bb77c65687d58],
    [0xf88f41d06a5df61c, 0xa67b25174430ae34, 0x157070cab18a64cf, 0x1b6cbbda2504b6c7],
    [0x559b2ee106e8555b, 0xbff61c480d34304a, 0x891c8952f439654, 0x2caadb9815edd0b0],
    [0x2b2f5bd819cdf00a, 0x3bcd63cae45d13ba, 0x8ac500cd862bc7cf, 0x29d647c2ff17d90d],
    [0x526a262db78b6012, 0x651cd175ef4c1c51, 0x755056c5a200c03b, 0xf9577281c0113be],
    [0x8d076f14b1579dd1, 0x944b1f27b9ad60e7, 0x9d10ae34fe9f0d9b, 0x1c7a4104b1eb344a],
    [0x728b6a6126a2b3d8, 0x26b93cbaa63062c5, 0x6b8d64f1e872a15f, 0x28833764307c0723],
    [0x2fc5b9546ff5f22d, 0x5aea0dac30a20a3, 0x1cc998a11ea0276, 0x245ff91d36df9a93],
    [0xbfa603f23474188b, 0x197fa16571ca6ce1, 0x3dbc098cf547b51d, 0x9c3b8ddc3c8a83b],
    [0x8f9313f2a7bb0724, 0xc26feb8579966b87, 0x1a3d7877f26f33c4, 0x23123b0f1690f3c6],
    [0x3336a9d990fe4279, 0x2554f75a164e0083, 0x4f63767b95d5e66b, 0x2f42ef2f174748c4],
    [0x51d3517a260e6944, 0xc234baa290a68aba, 0x37fe21b889bdbefd, 0x1d8000747e03e93c],
    [0xad7fb106ba311a18, 0xa18498ffc0bf0ce7, 0xda3fc25d27e0444, 0x103f779b0899d425],
    [0xe818c5e11d7a984b, 0x92e4a4d4b6c970e0, 0x840cc30448d49266, 0x7f4c9eacabf180b],
    [0xe414554fd78da779, 0x7b011178aec18404, 0x520c1c5bb8e1a447, 0x17e5e03ecf01408a],
    [0x22b2ae77cdfe0412, 0x4fd1bdb9e04c80d2, 0x2200d91721cb4c79, 0x116cd1a5deb317ac],
    [0x2f205b18b20af1ac, 0x981ce86ace93311, 0xb787a452950cb997, 0x259847fcd69413a8],
    [0x5c79e8e36347e52c, 0x9a011431b1f0bd3f, 0x193f70318c4c0923, 0x7244b4174980899],
    [0x47fecd91d6b13fcc, 0x970c9844cd3034e8, 0x8b87923a9b66a2a4, 0x27a6122c5882996b],
    [0x707ba5f924739c41, 0x8174cd24ab58d4dc, 0x6f43a29ddde616fa, 0x2c0bef6885d9a4d7],
    [0xc4e9d744c1205af9, 0x5fcb78682dcd8fa4, 0x4e4f37477e2c0ac6, 0x2d0cd48e3952f4d6],
    [0x5c5c9aef137804c7, 0xd7252dbb19889e12, 0xcd7305c1bfe73f42, 0x8d8edc9e81dfba6],
    [0xaa7147ce61355a1b, 0x739f111995a8122a, 0xb7ad854b3b851d0c, 0x20860a731c157ac1],
    [0x39ae554a2ffb538b, 0x84c0e4839da70c36, 0xf925153bac6ae94b, 0x2b242cf51e3fc841],
    [0x1f7c217c6c17b812, 0xdc2cb3b1851d9187, 0x66c562ce0755bd0e, 0x71642f8fb008ca3],
    [0x3d662192e40e4c05, 0x7917ee849eaec5d0, 0xdd00520c4d1f3bcb, 0x10628390eb8c9489],
    [0xac1ea3fcce1fe938, 0x2694c936f1573ac7, 0x54c71d40114a0bb8, 0x196b76cefdcc7f6a],
    [0x237b9f067f55ef50, 0x752d80f6fb971f6f, 0xd3c6a312f941c21, 0x2c657cf556552ac0],
];

/// Part 8 of the sparse partial-round rows for width 17, as little-endian limbs.
pub const S_DATA_8: [[u64; 4]; 196] = [
    [0xdc71c431dec0ec94, 0xc892ed12abfc57aa, 0x4bb846c23f4d15ee, 0x2274e5afd41f484d],
    [0xa50ed68ab15ee79b, 0xf899b310c4fb1474, 0xd4e9ab89698674ac, 0x21e3eead8292384c],
    [0x7e01456918596140, 0x45694301eb39680c, 0x3b3834ed09babfca, 0x275b0e09088d1a14],
    [0x6d5275f8ae42e2b, 0xf995e7f7976dba67, 0xf2846e2659d11190, 0x129eae0d0efd6629],
    [0xcce72f7d261e200e, 0x66428469efef7f33, 0x298d2f7359d6fc6b, 0x23c3296abead985b],
    [0x48759f9b7d950c92, 0xc81b8489e8d2fdb6, 0xdb99eb797c5089f6, 0x120eb3949a1bc6da],
    [0x3f4431aaa022ae2c, 0x1dcc0f5cbf15884f, 0x62ad1128dfd277e7, 0x277b28338565bebe],
    [0xced01bccdf453a94, 0xccd2d0a9a86f0c6e, 0xbcd6810d8b233c0c, 0x4f36e389ff9ebb3],
    [0xd292b0ad3ef3e4e5, 0xe5916ad635f27977, 0x6e282e043fb7e3a2, 0x2548fa6547565806],
    [0x2c856f88dff9364f, 0x270ce37dc1a1a223, 0xd95c9aaf5c9d202c, 0x4565577c55373ee],
    [0x9da6c7ed65a6cf10, 0x748c8cb94959122f, 0xde7b9f172935e44a, 0x233e72784c11da8a],
    [0xca25f7dc77523334, 0x3a534b925fecb827, 0x336e27fc3921ee3a, 0x158b72f3087e0267],
    [0xc69bd97516886522, 0xc8e8aab39cb11ad8, 0x493ac81d6969ece9, 0x15c260f3c32020be],
    [0xb0cc96e1dd77fb69, 0x4aee803609c5af81, 0x4f2b162ddb6879ae, 0x2396362d574b22bf],
    [0x67099ae14a3770ff, 0xb349fdff397c36b5, 0x7ed3568ae8309fe, 0x2d0bdfbd91471959],
    [0xab6ed9f9685898ec, 0xa9df4bdbbfa64f68, 0x8dce9a1b1e9cbaaa, 0x2cd487c623957574],
    [0xe9a7f602ee9b081b, 0x88d970a924596014, 0xcfd3e270ec4299fc, 0x1e73a3297684b098],
    [0x9d6a8194b443c7b1, 0x98bf02d6fe6c554e, 0x71255c8473c4d4f4, 0x248862b26667bf9e],
    [0xf628ef83c7910b8d, 0x51611629fd9a6562, 0x7ccfd3998e01c398, 0x12daded6502d15cc],
    [0xb74d9a426d875c75, 0x566f2505b8136c5a, 0xff559089cd43bec5, 0x15e998f00cc4dd24],
    [0x34bf119df306c8c7, 0xd13e6fe162777fc8, 0xa837fcc744c4a64f, 0x217fa23d5b14a9ff],
    [0xda6e2f8fad6a0518, 0xf3798b83111652dd, 0x6f354cd05bb28857, 0xcadcf98c06aba7c],
    [0x97a2988abb14e005, 0x132436b3cfd048f8, 0x3fe315f26891dae1, 0x1c5c0906f02d4a6e],
    [0xf23dd41010093ced, 0x7a02260f56ab0e7c, 0x730e877519de1b92, 0x8452c4131a7a4f5],
    [0x7d8d3f8e0431b39a, 0x4f1651403a006aff, 0x7df1a094e4a1032a, 0x72e4518998bb2aa],
    [0xeb0cd718adcc4752, 0xf292375d6ab81482, 0x4dcd77c9627693a4, 0xab9888d29232bea],
    [0x53fa5b3b1482e105, 0xdac9f8f6c215a26c, 0x9253e73f07025b34, 0xfc2e5df60bb4a18],
    [0xe67a3b89385273b, 0x56afca51ed13531b, 0xe690625c51ad3da1, 0x50e82e90a419f91],
    [0x61a2f2a5042e93cb, 0x243319e20d0e4ce8, 0xd3cdf0a5b4bbc26b, 0x2f88a4415d7e88cf],
    [0xcd5a19891df8da96, 0x32eb05773833ea20, 0x86cd5d0ef96d1ab3, 0x1e10e776d5e15e07],
    [0x61a1cc10c3f3b7a3, 0x5c23f17de82c80d3, 0x23ac5fc20f4298bc, 0x17de64722cd216df],
    [0xac1ea3fcce1fe938, 0x2694c936f1573ac7, 0x54c71d40114a0bb8, 0x196b76cefdcc7f6a],
    [0x74f6e247ad6cc86c, 0x9f46b1d9acd32a70, 0x481522714ccefbcf, 0x1b9c2c4eebbe7516],
    [0xcff7869ec3864df9, 0x99e260411e0dd871, 0x570125eb0b2586ec, 0x1b40c39dbad124c],
    [0x7cd13888c4b3eb55, 0xa12ed70e96e4dbcd, 0xa643c9db6174fdb0, 0x33cd9b171a83f21],
    [0x11ad0fbe2f380942, 0x794bd61b59323af4, 0x7facfff66eacd97d, 0x19cb8e0c05440034],
    [0xf87d6b93d808e4d9, 0xab682b8c823153ab, 0xf305e1787e4b19e1, 0x26c218511f870b55],
    [0xe22a86b6f88b53cf, 0x111feb3fd7118f94, 0x25ab81ce659d2cf1, 0x29e12c794848bfe5],
    [0x2eca0d77981b0170, 0x251c8ba4cccd0953, 0x616dc5f917fa062d, 0x3a6658a834c4e3],
    [0x45e489d342a3e15a, 0x94ab077f42cacf9c, 0xbbf46c9d9716f714, 0x168adabd67838fad],
    [0x505e2416f5e23a1c, 0x1929c3f16f43efaf, 0xdf3464d2644c239b, 0x11742863039a6788],
    [0xfc43f37b92e0da48, 0x35879d2ed95aeb53, 0x989173eb24d170db, 0x126abad95e2b51fd],
    [0x5fe8049e550c93da, 0xbdba99ea37be9736, 0x39553eb328159fef, 0x23c212335569ce5f],
    [0x6208aa1a496c0ca3, 0xf1772c10277da643, 0xd49cffa2b31105e7, 0x2f4dd1170cd5681d],
    [0xca6c072f46d26164, 0xbfd9363ec845f737, 0x7d77a5abe06b5391, 0x1f1add5db460502e],
    [0xc7f96a17c8fa0c1, 0xafe8764c93b524d, 0x6f4bbc50fcf03368, 0xde4648c15ee1c29],
    [0x8bcf1ce7d9da83a9, 0x3aa6225c5ff1b9fd, 0xec13670c3bcef58b, 0x2940f3f803b79a69],
    [0x9def8fb09e41dc3b, 0x89c32443d6d66a65, 0xca21f209520eb789, 0x6022a2c0e67a56],
    [0xcacb0cfa401692f3, 0x4e51c6c1787f79d6, 0x563048afad7b6493, 0x2614b22ed71c1ebf],
    [0x8a4e5793f56037b6, 0x9c9da2312b6d66c9, 0x3f64682ea5b4bbd1, 0xae0351a3f38218d],
    [0x40d092927b247af7, 0xdec2a80373258485, 0x6e96bae26d0298d0, 0x2acb14246a8372f3],
    [0xd581702935e593b8, 0xc901e45d368e485f, 0x8755878919911219, 0x4ac1f3bf59ff825],
    [0xb12379558e5fe427, 0x1dde864a8d689b73, 0x3c148453456b4bd9, 0x637c3722f5a87f],
    [0x2ead2aae114caa32, 0x7c0b59117a6d034e, 0x78f31e18f1c7e9ee, 0x2ed10f87c57e6e4d],
    [0x2fa9ada5a9eb4776, 0x79fb7b03fc730888, 0x93218c6e10e95521, 0x2db539eff29b1c4e],
    [0x467fcbb2dcd21f79, 0x74f591099c56a110, 0xa6ea5fde158da87c, 0xcaedc62eb88ea19],
    [0x2a7f71887069940e, 0x58ae93461b15110f, 0xc32a715605487a6b, 0x485d5824b4d88b5],
    [0x361b317dabbca53e, 0xe64eaf613c2005ea, 0x76c5868c6eb0b841, 0x20fa1c1846393fc7],
    [0x79b13bfb5e7ae90d, 0xc29f87e29e8aef1f, 0x2d03928de8c56b8c, 0x2e17fb3420825417],
    [0xf7f281d5cd1aeb1, 0x8f20d469d867601, 0x276008376cf8b59a, 0x1d45f577db25f490],
    [0x896fbefd7aa0c7c2, 0xa6566b58e4747c0, 0xe48cb22507e7237d, 0x48ea8cd9295a1a3],
    [0x796e98849098f404, 0x19ddfeab8e2aa1ba, 0x58d0e6a091559ff4, 0x3059196428e054d5],
    [0xbc8cd94a86c23ca7, 0x2b7f70024953c733, 0x15722d0638fcea7c, 0x1170eb002f682471],
    [0xa4cf90521aa04b97, 0x91be3e09fc88efee, 0xc49ca2936b121d95, 0x25fcb5f375ff3d5c],
    [0xac1ea3fcce1fe938, 0x2694c936f1573ac7, 0x54c71d40114a0bb8, 0x196b76cefdcc7f6a],
    [0xb87203bffe8f4aa4, 0x472c0b5b13701b34, 0x3a461c2dea2173d8, 0x23444707325fc768],
    [0x833a7c1520369e3b, 0xb8db8604c01b9f2b, 0x764b7da9384cd2ef, 0x2b272e00da1d1d1d],
    [0xe8be5f950d7f957c, 0x862328d66cf18d77, 0xddf24993a2a28466, 0x17b59a35bca179af],
    [0xc0ecb4b4c20ce625, 0x7882005180887377, 0x2c619dbe8a220b47, 0x20460d5c7e454877],
    [0xa453c55569e2e1c, 0xc300a284f97be68f, 0x96496235e8a4b6ca, 0xd1346ae8fcfaefc],
    [0xc5893d9d64c180d, 0x76a55de9fe0a9591, 0xe2c9b51f5da873c7, 0x29d5c8e901d6f659],
    [0xbaf8b0cfc0da67b5, 0x5e26d74a4fd2562d, 0x34e371af14fe4061, 0x109297c57950d5ec],
    [0xaf0496d80f4e915a, 0x679268df4b7ab3a0, 0x4c6bcbcdf0953726, 0xafa294b0b8973e7],
    [0x6762e599c4c19918, 0xaf2de7595d53c80c, 0xfc596b7a74d20cc5, 0x1ccdae789483414e],
    [0x274aacb93ab35467, 0x127d2930fd5229d1, 0x2e8447454033d912, 0x7d80df4e972d596],
    [0xc599e882881b7812, 0xf2ce7b0ad9355bdc, 0xfc6cf15a1746ff3, 0x19e7ddd05077b371],
    [0x8a849b82c1f17920, 0x800b6b9dde47ea3, 0x46faf681e98fc867, 0x19c52a43b8a53bb1],
    [0x776b6726746efeb7, 0x4040bf4f0766985c, 0x5d4ec54a41b9941d, 0x2ed2fd2f3a2f78c3],
    [0x50ad5b9f675a2446, 0x8b1d2c216e8c3bf6, 0xecef90cb404f6b17, 0x117e9b92ef305e1c],
    [0x49f9f3ff9b04dd57, 0x6dbd5221400a9dce, 0xa2940850aa8c41ce, 0x27dbe49809655461],
    [0xeeed84dced4ea11, 0x688e2d71e325dba4, 0x152fec37fd1c66ef, 0x8bc85ab2f7b9d3],
    [0x9dd128c6b4cd6f53, 0x37c6918ed42bffa8, 0xac75a3cd82d4389a, 0x18550a78308e47e5],
    [0x59bdafe3a9bbc2d2, 0xc2d2078953f43f41, 0xa93cb9e97f08f466, 0x22d06c4fb6f2b725],
    [0x9b3b7cbf1d2db33a, 0xdece24a9e7c508c0, 0xd0d142c2850a8907, 0x1f3f2ff5ea4b6044],
    [0xcb3bf61c1351e990, 0x432fd597dc23671c, 0x18c3f647d444474d, 0x2985a2e4d66f1b2c],
    [0xf0867913ff45a521, 0xfc99f85b605b10f3, 0x5e1af7e744206e05, 0x177e8a83bcc68380],
    [0x91b5915ec120b658, 0xa829d101f2bec9a1, 0xba3d9546ff71cb3f, 0x97666874717688d],
    [0x88acb7f890461698, 0xfff218984f735889, 0x6ef36e4f113f7a53, 0x15055d2177bd83ae],
    [0xc5ddcdafefdc9c5c, 0x22bfdd9f47486f3f, 0xfb6a078cb443ece1, 0xe0197b38f1671c3],
    [0x9eb4a39015bb5b8e, 0xb3d8fce7631cef91, 0xb15738416497b1d4, 0x78b8c01a67c4e5c],
    [0x98ad6fc409c6895b, 0xa56d43bb0c8560ac, 0x535468f97f3f4a76, 0x26f58171d43f5d52],
    [0x3be2e3ff42f7e7c1, 0x3a1f4627383656c9, 0x1b5819fbd4ae79f2, 0x2db3d892f554ae8b],
    [0xe1a8f0de62bc57fc, 0x6b397b19da47474f, 0xf77111911dced685, 0x196b74fdd43c9fa4],
    [0x8ab1706d7a43aa38, 0x81815965fdd55efa, 0xc7670efd64dbcce4, 0x6238d5e3cdaa238],
    [0xb66d05039a53eea0, 0x69e4a801b4a76b88, 0xd45c777c7bdc9606, 0x22332a4ce6b7a223],
    [0x6b00faacae30389f, 0xd2562f89cd27d92e, 0x470f5dcee2c8b846, 0x1f88fecb08e0101e],
    [0x5c149c85e677c8d4, 0xf00db8a2f961d451, 0x4d0a65c509305fa3, 0xc2ada53a5fcfb48],
    [0xac1ea3fcce1fe938, 0x2694c936f1573ac7, 0x54c71d40114a0bb8, 0x196b76cefdcc7f6a],
    [0xa35cdcb9215e5b9, 0x7aa9a07263488932, 0xafd2d9cfdfdce6b8, 0x1b28926cd83b4658],
    [0x4639ad5b60d8f180, 0xaf8630fb361d7f64, 0x262428f1e416bbd1, 0x15d6448f76cf1b20],
    [0x8e64630f2079d1c9, 0x4d78bd796e6f0709, 0xe449d5d3b592e6d0, 0x2af5dfa19ccc918d],
    [0x5f0d2fb6185c2410, 0x3b5c7d9ad51363fe, 0x9ca896bffbd91f7f, 0x19d0ff169994b50d],
    [0x4a4c519ca8297474, 0x6f588b7f2734a2a5, 0x5bc2c8072e5402ca, 0x2755fe866df7e2d9],
    [0x921a507ed5df4728, 0x1cc85cad4bc02e6, 0xac255e20a0d31d9a, 0x77a07258bfa21e2],
    [0xf996dc8150003b5f, 0x3cc413a32be08eba, 0xfbbdd343c367626f, 0x2ece250f68cd231d],
    [0xcb382d3f712abc56, 0x99a9bb15e06933c, 0xfb5dc798dd2fb2d9, 0x28d5f29f5df2a1b4],
    [0xbc6a4bda3100fec5, 0x505dfa79e061782e, 0x55699d9929ef5fc6, 0x2af8e1fcf37dcf5f],
    [0xe0c567bb37748954, 0x2a29b98886d241cf, 0x10adbdfa7c621d38, 0x1a391e08a3937500],
    [0xf9aeacabfc7acfcd, 0x17661730183f0b99, 0x54842588dafe5f45, 0x1da3f4058cc2ce65],
    [0x5cb49e2063bb4942, 0xe32baf5484d40e31, 0x6d11441c07cbea61, 0x1e3b1802005fe729],
    [0xfb0280edc996d61b, 0x6afaeec5800dfd73, 0x9ac9d9eae05bcd8, 0x1eca6728a58b997d],
    [0x3ecce501461f59c1, 0x57d34bef132ff73f, 0x5e0f74b4a695605, 0x2991dada2697975e],
    [0x95e12695a073487b, 0xc91422054cd04aa1, 0x539d20cfef506535, 0x13a9e49e7875c154],
    [0x45c58da778d2733, 0x6d50b3d24a74e55, 0x5456c2a330435ef1, 0xe97ef3325ec3993],
    [0x5516422214059ee6, 0x27d21eb61d1b4ab0, 0xa40b1410ad7d9bbe, 0x234fd4e50ddc42b1],
    [0x8ecf14d64c617722, 0x67ea76c9a1139b95, 0xe2b91b0abb90c946, 0xce167e175eb021f],
    [0xbc63fcde2847ae87, 0x13ee1f646d63f4, 0x79b18a4d18bac087, 0x15871010759972a8],
    [0x1e98bac9a78c51cb, 0x44bd75eecde37161, 0x29c4e03c0f570f9e, 0x168d81f62839ab0e],
    [0xb0e30c5936deac3b, 0x2b91889b1eb06e1b, 0x5a40179ab0a91507, 0x2c0c157479d4268e],
    [0xd4c61f803e648e85, 0x5ffb51d3ff2766f, 0xa80fd53d41696867, 0x2c1c6ea12c4f9343],
    [0x4d7eb4edb90aadfa, 0xa2ff66c309d48f40, 0x52ea4a0afbd8703b, 0x12c2c9b7086ab397],
    [0x94a2d8f019a3ee83, 0x365d36854efe87db, 0xb13cfc1ecfa73fe9, 0x16a90e916477870c],
    [0xd9035dd3bd282799, 0x5707bdd34452407a, 0xf343540b191b0ee4, 0x1e5674b6f90be35e],
    [0xdf9ed8ffc1f0c336, 0x2a4bcd5acaaae29d, 0xf7bca405e34dd043, 0x2daf0fbad1fe6737],
    [0xc1fd7ab2d10a32e1, 0xc2838f3370f8832a, 0x1d14f778c53b64ae, 0x2908cd47730b9b03],
    [0x670a868deff0a451, 0x11c9805d10d4f27b, 0x478a798071294b8a, 0x1385230fd1095a5c],
    [0x829663e74d10620a, 0x9c85133c14f87db1, 0x2eb3193cdfee3ef, 0x1d163c58cf48bb8e],
    [0x49e1e727dffa2a55, 0x9c16ccbf5bf4709f, 0x4d7c72ee1a36898f, 0x2e557c38674c410f],
    [0x38e73f37526346df, 0xbdbc39f7a27dda72, 0x7cccd7c9f7279e5a, 0x1c05ef08c0686e23],
    [0x3308203a0e33f717, 0xaf25db035ba558b0, 0x2aec33259a43c5d, 0x2527d4d7449be5d2],
    [0xac1ea3fcce1fe938, 0x2694c936f1573ac7, 0x54c71d40114a0bb8, 0x196b76cefdcc7f6a],
    [0xc74e50b84ad8081a, 0x2f6c7a8761586894, 0x8651a3aed0227cc0, 0x10a492ae5b487f25],
    [0xf0cfaa6cf0009165, 0x7d4cc9c86fb7f746, 0x867d3fff22c33d5a, 0x2403d5c045640a3],
    [0xb5e539df0869093d, 0xd596c775d77dce9b, 0x34066ba829ad51a9, 0x2d5d1d7a9af2b5a4],
    [0x8d3e0db7cc6d5421, 0x6fc50d640f7cda12, 0x74ab9a2f52feab6a, 0x9a863c700ddced1],
    [0x192cdf7a7f09fb6f, 0x795ad3b267d632d4, 0x89afe18cac953fe0, 0x2aab180f6e316fad],
    [0x3ce1a6b934c9e79c, 0x97546be222c18ecc, 0x53410c291bb03f25, 0xd96040a550ca9da],
    [0xbfea5e6677c07124, 0x7e0b2b7c2a04d6b2, 0x59dcfe87e6f50d7, 0x162f27f588a7684b],
    [0x59e7b8a15763fbe2, 0xd65c2d8630628201, 0x7b9a3549947da0d1, 0xb923196444f67bb],
    [0xb9d0237219653ab7, 0xc062629a82df11c1, 0x33d093bffdb3f5c8, 0x2004eab7ce64ce5a],
    [0x865ef504a5bcaea0, 0xed3a6a9e531f224f, 0xe1f3f94f4a7d99e2, 0x1227bf877742b79a],
    [0xee9faf414a0985d7, 0xee8b6a77ce89e137, 0x559f42775c914bef, 0x20f776f86d93c05c],
    [0xc85b7f96c03c76ff, 0x5f160dea5fac191, 0x5cda4bd931733ecb, 0x172aa65c733a603],
    [0x10676ef0aab7758f, 0x992a03652a1443e, 0x918ae0c9a23d6c35, 0x8be42f0fb8d0bd0],
    [0x6e88f04332962b0d, 0xf0b7faa1da5cf1f8, 0xcd278ae5631d6760, 0x1fd0be6c49952151],
    [0x81bc6b455122abc7, 0x498140817dfb573e, 0xa0cf0acac7bceaf4, 0xf9ac50342fd157],
    [0x34920a61a0971ca6, 0xa7aabd8b33866d5c, 0x6abe9c8d4c31c36b, 0xcb3dfddba8d704f],
    [0x6f0391cfe89a857c, 0x30171d6cb47618e9, 0x1701d76e1090173d, 0xe770f3147cb0e32],
    [0x5107cc0c747c73d3, 0x61e60b27b3a3987a, 0x9472901487cce5dd, 0x737d887efe6fe8f],
    [0x9af435a98cc91fab, 0x657ae93f963f4d8b, 0xfc505c0e8866ed36, 0x1a385e2fdbacefe3],
    [0x8069b787252a3c1, 0xa4debe6bc675e49a, 0xc88c43dd5f4141cb, 0x47765901d35e5b9],
    [0x37e07ed0a3db70aa, 0xc87b4828f5df0670, 0xb6f0000760e022e4, 0x1da4a4ede36f08e2],
    [0xdd9dfe16f52f861, 0x1b0192212fe8edd9, 0x9b736d83e33c986, 0x847d2c6657d2fa0],
    [0x42d4d3cc1d552383, 0xccd6494425089364, 0xc7e0dda476285292, 0x3039ed5a92b2b6a],
    [0x1b69c27f5eeefe04, 0xdb3a4097e55cc778, 0x3be5b91b720b5387, 0x77951dcf1d2ed9],
    [0xacf339e874df620a, 0x255a4618ebfc9f9d, 0xdfcaad1c3cd7f944, 0xb585622b1f5eb8f],
    [0x1b9e16ee8dd7b402, 0xd9da8ee75813b5c5, 0x65d127d44fe34b17, 0x1a2a7bbd62d97bb2],
    [0x503b33dbe6b30d02, 0xe084d4e62d1b2c5e, 0x6d2987fd1824a959, 0xdc48ec2dabd95e0],
    [0x84da01e8dfb69e1f, 0xd3d6528bf7daf00a, 0xe12406a4585f7187, 0x290de95aae65845b],
    [0xc101adef47853293, 0x8562b222de7114a6, 0x69a350ee495e7ad6, 0xc017e46a4f39a16],
    [0x4e62b2e4cc088cf9, 0xc4919d1686d824bf, 0xe744403921d82e54, 0x2f0b5fb02d18a781],
    [0x67d38f4333bfa474, 0xeb920583d0d2d715, 0x18d874e9364210, 0xe7e699b1dd9c60f],
    [0x896fee03e19546b8, 0xd1923059b6002a6e, 0x33a9319f2b093f2f, 0x9472c6ed2b64944],
    [0xac1ea3fcce1fe938, 0x2694c936f1573ac7, 0x54c71d40114a0bb8, 0x196b76cefdcc7f6a],
    [0x36f8b83dbf1e1a0e, 0xe1265e8cbe285691, 0x7fe39aa84ab78c1c, 0x2a8a40093e2bc962],
    [0xb5414ac776944f82, 0x556514dcb39cfb47, 0xaaa61148b272fba6, 0x21d9b9f7094b3462],
    [0x2edf291b777df027, 0x83b9d8f925e70241, 0xca6d890565b9726e, 0x22be02328bc62605],
    [0xb224b724cf237254, 0xe36382bb57caf96b, 0x569d33d8c4e9003a, 0x27b5d7ddef018e17],
    [0xdc1c7223d3614982, 0xf8dcd8e02dd54f8f, 0x5c88a41767e82517, 0x54ec141c594bace],
    [0xa5228c9fd5abc646, 0x351dd12ff052187b, 0xdc34c09012706560, 0x17f76454a7d3b049],
    [0xc7b9d12686200598, 0xc852cd41e01352e6, 0xfb6b064329b31026, 0x189a082f5c10117f],
    [0x195a9bda90da5d5b, 0xa3101cb8c9a876ee, 0x2322f2796a1bca2a, 0xc597daf1c2a8f60],
    [0xf7ded11c139dc663, 0xcdaf8560ae356bbd, 0x85d73882899652c5, 0x2ac2e1037357e298],
    [0xd7200f06e66e5f22, 0xa2287576b78fddf, 0xac3b6d74cb2937af, 0x6ca950f38af807c],
    [0x432da264fc4c6a33, 0xdcd8745be7c8cf64, 0x43b8ecd0950d2bb4, 0x736209bdf8c1ac6],
    [0x6ad0bbd8bbc00d1f, 0x3acad70b23710668, 0xee16ce782403a3a3, 0x1e96d9fd0f2db5bc],
    [0x871e519f4081cc1c, 0x7c54806d79823ff7, 0xb06795499bb1a6c9, 0x2d7f5635e4b127aa],
    [0x6fb8c8b7643bf95c, 0x98c6a2b0cde5f42, 0x9fe0c84a7740faed, 0x1d8d18b18dd07bb8],
    [0xd155f8677a051ccd, 0x358042ef76a08ea8, 0x4ec169bed853453, 0x28d51d4551904bbf],
    [0xd72ed529654aa624, 0x36ca9c28b0720c71, 0xa4183d6f21048d6c, 0x189be365face10b9],
    [0xc1440fe0133c852d, 0x6764892a8787c759, 0x77fc23abbd7a41be, 0x130fc54477fd9533],
    [0xf26db39d2446413f, 0x9c355c8e907156fd, 0xaeef6774578a78f6, 0x2c9c91f48661771b],
    [0x3f8d397cfb815192, 0x3c836dbb8045b2a7, 0x21e5e095ef751ea0, 0x1dec0bafa3e81906],
    [0xbda67133ca0b85cb, 0xea0c68c63a1d034f, 0x377d8dd2ae3aaf6e, 0xa5f52ad6ec4a8aa],
    [0xb4a767cecb4d9306, 0x3508e2125bfe795a, 0xcbb6f2123800a0e2, 0x20ab7394bfdab344],
    [0xdcd4b64288bda07a, 0xf93b3b9cf8320ce0, 0xc67bfa2c1b9d1713, 0x110ea322b0c26476],
    [0x42b890ac8af89cbe, 0x95d0f88099871821, 0x1fbc6dbf3e7d535, 0x54eabe6131681fa],
    [0xb7d4abce1fd8e621, 0x93bd596213a07823, 0xa006d376a019e57c, 0x224d811fbdef8ec0],
    [0x2bba56bbecb227a1, 0x99ba1f5d2a5d53bc, 0xd4afcaa582b1a947, 0xe691fca423128a7],
    [0x372a3b8e372d8ce6, 0xe615cd4c6aacc665, 0x66707e6e6e310524, 0x189e279c92de0bab],
    [0xd93f8e5bdceb4725, 0x41237206f0294746, 0x13d2f79cdf128444, 0x1d9bcbbd17b93b19],
    [0x28c4c7f0fb9b608e, 0x42b18ae9409670e, 0xe1312dcc3d15c7ef, 0x1179184635a9780e],
    [0xde13fc07ae82e88b, 0x41ed0680d57c931e, 0xaf1891a6aa197367, 0xe48466182ae8333],
    [0xfe4725eb29f73464, 0x2e05471f0b6dfe9f, 0x4d3a8c17bf5b4045, 0x1c9d56f71c2f22c4],
    [0x5b635961642e9c15, 0x2b1cd891cc66775c, 0xf72ad794891950b3, 0x2234546f5e8541e8],
    [0x9ce71563ee1495c0, 0x227cbc12b0e42f2b, 0x98c234b553da338f, 0x14c09d155c5d4281],
];

/// The values of the sparse partial-round rows for width 17.
#[verifier::opaque]
pub open spec fn s_vals() -> Seq<nat> {
    limb_vals(S_DATA_0@) + limb_vals(S_DATA_1@) + limb_vals(S_DATA_2@) + limb_vals(S_DATA_3@) + limb_vals(S_DATA_4@) + limb_vals(S_DATA_5@) + limb_vals(S_DATA_6@) + limb_vals(S_DATA_7@) + limb_vals(S_DATA_8@)
}

/// The sparse partial-round rows for width 17.
pub(crate) fn s_table() -> (v: Vec<Uint256>)
    ensures
        v@.len() == 2244,
        vals(v@) == s_vals(),
{
    let mut v = from_limbs(&S_DATA_0);
    let mut part1 = from_limbs(&S_DATA_1);
    let ghost pre1 = v@;
    let ghost add1 = part1@;
    v.append(&mut part1);
    proof {
        lemma_vals_concat(pre1, add1);
    }
    let mut part2 = from_limbs(&S_DATA_2);
    let ghost pre2 = v@;
    let ghost add2 = part2@;
    v.append(&mut part2);
    proof {
        lemma_vals_concat(pre2, add2);
    }
    let mut part3 = from_limbs(&S_DATA_3);
    let ghost pre3 = v@;
    let ghost add3 = part3@;
    v.append(&mut part3);
    proof {
        lemma_vals_concat(pre3, add3);
    }
    let mut part4 = from_limbs(&S_DATA_4);
    let ghost pre4 = v@;
    let ghost add4 = part4@;
    v.append(&mut part4);
    proof {
        lemma_vals_concat(pre4, add4);
    }
    let mut part5 = from_limbs(&S_DATA_5);
    let ghost pre5 = v@;
    let ghost add5 = part5@;
    v.append(&mut part5);
    proof {
        lemma_vals_concat(pre5, add5);
    }
    let mut part6 = from_limbs(&S_DATA_6);
    let ghost pre6 = v@;
    let ghost add6 = part6@;
    v.append(&mut part6);
    proof {
        lemma_vals_concat(pre6, add6);
    }
    let mut part7 = from_limbs(&S_DATA_7);
    let ghost pre7 = v@;
    let ghost add7 = part7@;
    v.append(&mut part7);
    proof {
        lemma_vals_concat(pre7, add7);
    }
    let mut part8 = from_limbs(&S_DATA_8);
    let ghost pre8 = v@;
    let ghost add8 = part8@;
    v.append(&mut part8);
    proof {
        lemma_vals_concat(pre8, add8);
    }
    proof {
        reveal(s_vals);
        assert(vals(v@) == s_vals());
    }
    v
}

/// Part 0 of the dense MDS matrix for width 17, as little-endian limbs.
pub const M_DATA_0: [[u64; 4]; 256] = [
    [0xac1ea3fcce1fe938, 0x2694c936f1573ac7, 0x54c71d40114a0bb8, 0x196b76cefdcc7f6a],
    [0xe897823d4bc84d3b, 0xcfdb87a772200020, 0xd18c25f892d98c23, 0x1440dc2578f44694],
    [0xb870bc57d1385900, 0x798fd2ef774f1518, 0xfc32ae3c42df9728, 0x23aeeb0c6499b84b],
    [0x12fab7dcbe63d72c, 0xd9bb07b2dd061872, 0x4dae53eba148806f, 0x1ed9d3e9276acb7b],
    [0xef2e6332a5b35185, 0x581197124d217520, 0x11db790a86647467, 0x2ff57f3f7e95b034],
    [0x162203d30b80208b, 0x2191a8cceda0b775, 0x69b4a719ffe5f02c, 0x15faefbf8584a389],
    [0xd539be30b72fde9c, 0x955d829ad959428c, 0xd89cbb2399ab8aa, 0x1e6eaab1191593de],
    [0x568ff668fe5f0974, 0x77fe2481454754c4, 0xef5b5c77cc408b0, 0x2a3bb020c8a50d31],
    [0x99b5e51fdeb32234, 0x604cd36acc6af07f, 0xc7ebf90c297b90e9, 0x51f815c454b6015],
    [0x6cefcb69e4048bf0, 0x3e5ac5bba937bcfa, 0x84725317c7bbb808, 0x28b75c2ac167fdf1],
    [0x97fdd060c1e4b585, 0xbd97e44957333d26, 0xb71b61d093d63dcb, 0x23af324599683d9],
    [0x208ddf40a32329ea, 0x6c317e4d489d4515, 0xa015879fe7cdf1eb, 0x5a07868a7c95f50],
    [0x732832c72f7f2c30, 0x82faed2a92a7b3f5, 0xbeebde53ce5fa688, 0x2c5b4a65bc55ac5f],
    [0xc76a0550505d0607, 0x32b83eb1e3233471, 0x6a2aff3b8e0417fb, 0x173f895e472c4eb1],
    [0xe9e2f5881366be3, 0x3219751c5ee8f61b, 0xd0c3dc5af19437d8, 0x206cb038cc328526],
    [0x6bbee42be287a4f8, 0x21d967420f401ce8, 0xf28d000b88d33539, 0x240c57897161666],
    [0xfef9255b4ec10cc0, 0xab276b37c5f51dfd, 0x53996fda804063fd, 0x1aaefc2e9925fcd4],
    [0xc1440fe0133c852d, 0x6764892a8787c759, 0x77fc23abbd7a41be, 0x130fc54477fd9533],
    [0x594faf9d7eca2110, 0x41ebef2568313c24, 0xd6ea1e17932bd4a3, 0x65e134cb8d84447],
    [0x20eb92670a6fcf3, 0xa0fefff44b441637, 0x8bc187be54099312, 0xe76c40392bd5f45],
    [0x5c6753b1cc54ebcf, 0xeb206cc4f4925726, 0x7af3b10ffa424b8a, 0xb981765ecae69dd],
    [0x4f348219a0acdf86, 0x399b576e2d665453, 0x7e351341f25d98b1, 0xe4fb044a9fcb408],
    [0xccec19e5f8fc805d, 0xf8501a7af4a990e4, 0x5c963564712df8a7, 0x303e39ca88e8da6e],
    [0x40fdb38b876abee5, 0x9349da81239a0154, 0x5f9d4cd4849ced94, 0x1b77995dbf30cc5],
    [0xa28c9688ec36a80, 0x44551060c1901c42, 0x34d029cf034c9581, 0x23643add30be2047],
    [0x32c2ceb3cfea05c9, 0x5e76a24429dad5d5, 0xe558105fa5179f17, 0x1946a26ab8953f9b],
    [0xbbbb1e93b4655d45, 0xfcd30151c3a5cc4a, 0xe751cefa4b1d0732, 0x248b533f875e5ee8],
    [0x58eb25a406500bd3, 0xf69d21b1f16d1f94, 0x4a1789d6f1ee2957, 0x2e7a1c51da61dd21],
    [0x85522e7e0faf925e, 0x7062dd01ec1501b, 0xbd2919dc04d14adb, 0x2065e374edb1f3cb],
    [0x9f4a5605fffd33cc, 0xec56668f034a364a, 0x9fc38a20a725477a, 0x2f36535a83a09cf0],
    [0x551f7a42345b4621, 0xc12ae909558f2582, 0x89d118bc40ca0b9a, 0x1123d3c97ff8e6b5],
    [0xbffdf443b1099a82, 0xd966a62a5db008f1, 0x4c92c266c7a5b7f, 0x160b30c874d9c067],
    [0x6468162bdfa88d46, 0x6c0d4d8fceadfdb1, 0x6eaeb98a33959261, 0x1361d27c42a7b4bd],
    [0x2f23f75ae3a92e99, 0x6beb899212365884, 0xc78bc14dfb67d22c, 0xf1e8f86860c3b5],
    [0xf26db39d2446413f, 0x9c355c8e907156fd, 0xaeef6774578a78f6, 0x2c9c91f48661771b],
    [0xb87a1e52b7eb6d0d, 0xabef890286d5fd11, 0x904fa4a75f968fba, 0x2c6b133e80abef84],
    [0x8131c97646f50d24, 0x6715b16a2c8047cd, 0xde61692e764e0e9f, 0x2ce8546cb59f420e],
    [0xd5a67e895646c9c4, 0xf16067fd80eb921d, 0xd518f645c793e57b, 0xadaeaf28776b813],
    [0x9d65fba59922554a, 0xacf0c24e4f6bac22, 0xa41c59e43d73fa9a, 0x2086a01b816438a2],
    [0xb47df7d5a4307398, 0x787dd8a96ccecd6f, 0xce8fcb5aa2b467f6, 0x2348580de49aac01],
    [0xeecff58027edc45c, 0x700e308b29b4bd41, 0x8cac05ac0b45eef0, 0x1fb6bd6df650d27e],
    [0x6f51fa5020c2369c, 0xb3851467fed9e, 0x7dd213e026f307e8, 0x3e9718237c1700d],
    [0xd572bef4cf2ce0d6, 0xa807bda10560345a, 0x1ac80a31d63f745f, 0x925af35a336680],
    [0x6609842b9d75269d, 0x477fdf5f0c9aab86, 0x56c4e2006bfec344, 0xf8692d64a5b69a9],
    [0x9682f6f6fd5044d4, 0x3e091eba8a7f1257, 0x1dc0052a46d850ee, 0x2bdfe7eb4fa803bc],
    [0xb835e3393775c3d4, 0x1122dc6e93e7ffe8, 0xd8bc9d281931d6e7, 0x13bdacc137bbcf51],
    [0xe0eaddacd05f068, 0x524b29f183884e30, 0xa06a06c83d300d52, 0x7d78ce0c1c87391],
    [0x316a4f353cac5f1f, 0x584f36bb87506d2d, 0xb506ca07c06fe9a6, 0x984c132b29a05f2],
    [0x514808955693879e, 0xe525aa96612ffeeb, 0xc496e0ea9a6284ca, 0x1b00faa85136b1bf],
    [0xd7037352fdbc4347, 0x347be40a0b7956dc, 0xeac3eab991bd806e, 0x19e1e46536704cec],
    [0xb795f8dc5ae34e2, 0xfef28ae9dd50b97e, 0x8f105437063c945c, 0x19c2540bbb1cd4e0],
    [0x3f8d397cfb815192, 0x3c836dbb8045b2a7, 0x21e5e095ef751ea0, 0x1dec0bafa3e81906],
    [0x8b3b95594374906d, 0x135d1d95f53c52eb, 0x5baa94bde294911d, 0x27c72332f59a0013],
    [0xd939a26b29cb7ef3, 0x77788268d57c14b1, 0x85b32f3f78097034, 0x16e64661144d8168],
    [0xa4f34fb4e2d02428, 0x61df050140fb22f9, 0xeada8d91408b1550, 0x2018db386a3e4e57],
    [0x1b44baf2439dc87c, 0xcd79dc289a87f31f, 0x99a2c22fee919972, 0x12263b7e3f3de608],
    [0x8cfdacfb6974f991, 0x12edb1593ea6d30e, 0x70b24d777ce9d316, 0x10e420edcb6da761],
    [0xcebd02e47411bb6f, 0xac6fc238f6834522, 0x19c631d4045cef03, 0xebcb358f95f84b7],
    [0xeea5ef1a21b9d222, 0x8500bc8040a49542, 0x8e83dae5c78a4618, 0xc48e2f304f730d4],
    [0x8efe0186333dadc0, 0x3810f30f3f443849, 0x630eaa8aff4fe60f, 0xe766f03afbb7af],
    [0x364d3ecb982db7e, 0xc2e8b405ad05cf61, 0xbcc8003968e384a, 0x1b8a7909d7e7bd4f],
    [0x8a03f334cadef227, 0x971bbd6229047eb8, 0xecbdb08693dbf9a, 0x1d92e4213d840a33],
    [0x70c02ef5a9f4cd, 0x4af1975641206e61, 0x2429a249884c8564, 0xd3b3fb86a44b742],
    [0xe9594e9f504bad83, 0x3d32694a3fdd64f5, 0x6cb91d81a997c667, 0x25c7e8faf6c48a15],
    [0x5510c4fb917a0281, 0xe0b9908de9e7aa7a, 0x8c8cfed218f1ef0c, 0x2d7af834c9cdf1b3],
    [0x795dec98b87f6a71, 0x5680f6cddf68d7c0, 0x2dbb1cf7a2cd25d4, 0x175af5e50e5685ec],
    [0x279de74726234e6e, 0x79439f2ab00c090, 0xaab625ebe8695a8, 0x121f4a18d7b7d965],
    [0xc8882e1b0f7bd1b, 0x1056eb4d1db147ce, 0x2518114a96929b6d, 0x21f08f9b3c23f3a0],
    [0xbda67133ca0b85cb, 0xea0c68c63a1d034f, 0x377d8dd2ae3aaf6e, 0xa5f52ad6ec4a8aa],
    [0x743c1ca215dcfcfc, 0xf3479b1418a1a566, 0xa3c6c7148c4968e7, 0x87488f735b1fe2f],
    [0x4de17846a6ce5d99, 0x12dc4adfd849b9be, 0x2ee5fb881ef01760, 0x6cf0db92f86b273],
    [0x63794865fc1c04, 0xf4a1cde0352e30aa, 0xaa659ec737a586a8, 0x67c4411745db6c6],
    [0x1aa6be0289063aa9, 0xb9790b405ef0a900, 0xc0d12343e0c12cf9, 0x19909241cac50288],
    [0x8cc0cc9d74f19a5e, 0xe4554bcc54b6c8f, 0x170ee1fb2a5824b7, 0x1d25b94bb7c49c0],
    [0x1378b8354d843965, 0x1967e6ae9d82514, 0x86787528254272ee, 0x3274e735db2faf1],
    [0x2a861a49f7f70e24, 0x4f3c056adbb038dc, 0x58d6d364cd0fff91, 0xcac320362e235b4],
    [0x37f103dcb84fc429, 0x5ab40253a1209e36, 0x4bea0d43eec86ea3, 0x1111ed7a66ba2ccd],
    [0x32502fe8c2ad19ff, 0xccdae2ca4f439634, 0xa38dd6394ece76b9, 0x13e736cc70b7c828],
    [0x40754a61b71912, 0x1bcd8b8e7b057013, 0xf7c74a416ff439ff, 0x1f2805084976b142],
    [0x8f87e7280cddfa64, 0x489fffb866756c21, 0x1486e8e7fc8dda65, 0x27aa50a0e5d5588c],
    [0x4d9b0ecdf6ac4eab, 0x9f7c56171b9e7a62, 0x825a38fd1f48f50, 0x1f3cc6f65d9d3437],
    [0x93c506b75fc0db29, 0xd0a8cf955384c1c7, 0xe17c8c5867502043, 0x1b11713791ea4cb2],
    [0xe54e25ab36e8f281, 0x2b2a3d414b0536b2, 0x7a030862edb3a33c, 0x104560e95c49febb],
    [0xef18519f625b925b, 0x200bb70b5533bdac, 0x5378c779c607b517, 0x8c45f3c4c486f6b],
    [0x7452d5adac77edb, 0xc69aa77ccfc33c77, 0xa74fc2ae50ab4f2c, 0x2d2193c677bbcd56],
    [0xb4a767cecb4d9306, 0x3508e2125bfe795a, 0xcbb6f2123800a0e2, 0x20ab7394bfdab344],
    [0xf35822fc7ee353fe, 0xc64cbb59e031b749, 0x6d56d182b687b8a6, 0x19f0e2e141896eae],
    [0xd6852d88a2ffc9f7, 0x4abd6fc16ee40cc2, 0x706ff9024bb13516, 0x18f754a95b0af0e4],
    [0xa38faaa91ba49567, 0x28f323fa237ca918, 0x319c33b86b6b18f4, 0x193fe0e9b48010fa],
    [0xa53b632a066f4884, 0x7652e923aba82574, 0x586203ee0cafae2f, 0x11ff091dd551b6d],
    [0xebe15fa1afadf2db, 0x6efe3aff3b2cfaf1, 0xd90b197bd2a474b4, 0x1da3e00601ca3fc0],
    [0xcda47cbf68be59b5, 0x3bfce8dbc96feecc, 0xb0b2116cb2be1f04, 0x4ef41945559c1f],
    [0x99ca7cac5cc7e4c7, 0x6f25e3425b6dc33e, 0x8c9df97a04d63791, 0x2f053fdf1a72d6ad],
    [0xd941598772cca953, 0xcce16f79e1a86f50, 0x4349ad399592c5c4, 0x1daf74842c7e7910],
    [0x498d4b748fb40df1, 0x2f877ff00dc16215, 0xf834d0d234c8917c, 0x2ae8da8d0b129a22],
    [0x8c591c17dfaa059, 0xbb8374bb518a89de, 0x1564dfe94f9a1104, 0x99b0a6330926a4a],
    [0x21caf21e84847851, 0xbcea9ec42cdb28b9, 0x9199757ea8ceee5a, 0xb9aebf041146c11],
    [0xde2a7afc8d98deb8, 0xd6f7cb584b3c69f0, 0x1aca34d3cb00116b, 0x55ef271e388278b],
    [0xf29226c65339f4b3, 0x84273525a1b46c41, 0xdab590dbd760ce62, 0x26fbf1a351963fbb],
    [0xd3823e090e144169, 0xe936742b54c8e54, 0xfb45224fb041ff28, 0x12fd67863b2e03b6],
    [0xf95b8e1efa98643d, 0xd1b757ceaae617b, 0x4643150758973901, 0x600cf26635b2d5],
    [0xd7096b47353ab7fc, 0x984d8170601eeb4b, 0x5d4323b259e30ce2, 0xf528f5912be4945],
    [0xdcd4b64288bda07a, 0xf93b3b9cf8320ce0, 0xc67bfa2c1b9d1713, 0x110ea322b0c26476],
    [0x8e97a9ce16f5664e, 0xece01051e07f085, 0xab1c9abe36f0d2ba, 0x299c47f1e3ecc557],
    [0xe48040b7f8d71386, 0xc4d0ef2cc2f69fad, 0xa77e5e73adb9d49b, 0x1cc053a6a4d6f96d],
    [0x14aa2db045a1d033, 0x40a9889096c0a621, 0xc578f62489dd9008, 0x9558ecc58bee4f3],
    [0xa9b295b7dd42b1f6, 0x63aacccf9af11ffe, 0xb5f15a9b093fe6b8, 0x93d7d5563e3ccd0],
    [0x783caaa0ec424253, 0xaf2d35d70cf5e3b1, 0x96d4dd86b882e68, 0x45dc0579ca66e7e],
    [0x6f9cff3ffd58808f, 0x7197f7b1af2a9949, 0xa1e90412cd5302c5, 0xda02f6410e24058],
    [0x4b3fcd521f7be6d2, 0xf0ec7838808688ee, 0xa71a8d68e6924608, 0x2dfb6dd598ada57e],
    [0x64302d6bc83172df, 0x46799a92c87d0fce, 0xe2aaef45898c8711, 0x1057062b40bdcf1f],
    [0x218ca3af607b910e, 0xeaa78adfbb742817, 0x61a02333b5364cec, 0x26e6d18aea75a948],
    [0xb342f8c7a17fed83, 0x1db00b67ecc51426, 0xd9c025c7ab20b161, 0x565b96659025935],
    [0xfd769dd3fe392997, 0x91dec3ab7699b7d0, 0x2c1cc020e719f821, 0x2776bde52a125947],
    [0x95fd1cc311053e60, 0xea9eb46ed3aacf88, 0x931821989b8c8437, 0xc1a324c49d15f87],
    [0x46b5e90e1bcdc9a, 0x1dc6b2d6a903d6c7, 0xf9253ef9dbc35625, 0x27e68568e9cffd07],
    [0x177146a1d9fd5358, 0x82d15765c318134d, 0x10e5296c36e9103e, 0x1db0e7e01722aad2],
    [0x447aaf216ab4cc17, 0xe8e98972de86dd2f, 0xe0565ae7acdabe7, 0xaef8a4e47d5ec76],
    [0xcacc3296691e9200, 0xb0b90918d488b730, 0x1901f64f9f89c15b, 0x8c00c4e5b3467f0],
    [0x42b890ac8af89cbe, 0x95d0f88099871821, 0x1fbc6dbf3e7d535, 0x54eabe6131681fa],
    [0x80312b68f9acffda, 0x3ba328c6d67af736, 0x2de44ffafea0de90, 0x1a4befe11c0230c6],
    [0x92f8737a55efe134, 0x33e717afa31ba74f, 0xdc9c11f39d47e9d, 0x1e40665f5bb8c5c],
    [0xe70133556abc78bd, 0x765bf1000f798c3a, 0x2aae21b2e9ee5cfc, 0x23c4abfeb8319236],
    [0xf8fdfcb5f71d603d, 0x814f6185ae11a210, 0xf48fffbc9f4f20b5, 0x1669e44bf0223a77],
    [0xd87a600e5c5c92f, 0x4f978713e358de27, 0xe4887881bf7b4018, 0x2d5b3f523a9668cb],
    [0x61842f2a4bdb0ec6, 0x724ba6d3c582e4c2, 0x7cf6d4a293621506, 0x10c1856f282f556d],
    [0x8ef839c84692afbc, 0xe4bd3b3dec7f05bb, 0xe0b61fc40ab97210, 0x22cc4349f6baa3a8],
    [0x6792bc19045c23b6, 0x8331a4dbcd1c9c77, 0xfee065bb7380a9bd, 0x12d019e37cd1bd76],
    [0x9af11891d3722e61, 0xe29bdccd59fbc1aa, 0x89df57bafd80723e, 0x27aa38fa051c4341],
    [0x6ad2060217b5896a, 0x394c09ab9f484ecf, 0x72fda3fb9ac13b13, 0xf0b9336db5c16d4],
    [0xce33bdbc47d0586d, 0x76aab74ea8b8366f, 0x1d38b4e200ce2e96, 0x275a6f59623354d7],
    [0x4b2ac2a9a21483e1, 0xeea3c55eca634bf2, 0xc23fc0b457ea824e, 0x2ebb6730d7bafea],
    [0xd948e970fc35a62f, 0x3aa9419d5b6e299b, 0x432e262df27eda7c, 0xff215eb1e38dc67],
    [0xe642e9253aafb82d, 0x1c177d0d39d3f1ee, 0x35feb0676cff549f, 0x247f9c7fa6103225],
    [0x35be66a0cdc8c12, 0xa053207c418e65f4, 0x84aa0b84616b7dad, 0x2ad0bd9f71e27850],
    [0xcdca0a60f03ec33c, 0xc5e5803134c22b42, 0x80abbed4fed90b69, 0xfc3ccef00d6a640],
    [0xb7d4abce1fd8e621, 0x93bd596213a07823, 0xa006d376a019e57c, 0x224d811fbdef8ec0],
    [0xf3ad9fe1dcd43f96, 0xf5cfc2531b729370, 0x750b1400a86a9e2, 0x140762d30c5c3a0b],
    [0x1ca5fd5fb6d4fb63, 0x1302ffd2d0a87018, 0xea0f0337f89b2a13, 0x976d7c3844bc8de],
    [0xe1c3a00b6667958e, 0x749cea63aa0cb5b4, 0x5994e9d5f058f3b6, 0x152604201ca7df0],
    [0xb058f77113d05239, 0xa52c575740d5ac30, 0xee5b883eea2725ca, 0x1ab6d8fe39f87bb0],
    [0x60b0fc670745e8ae, 0xa1cc6a84d481ea89, 0x61544c307f019dbe, 0x1b62ba8037a83f12],
    [0xf422e18ed6f8a7b2, 0x2d4360d36cb50890, 0x28685c26f4e046a9, 0x239abc7c9f866aec],
    [0xd901fb4d82439857, 0x85d91bd2ed21de33, 0x64537df8fa30276b, 0x2fed5a032004176],
    [0x1cf789253d48a3f0, 0x274d25e82c42ce2, 0x3c56c646095f3973, 0x996cae74d9627ca],
    [0x62be614d83cb083, 0x5abedbd337f22b89, 0xe0024b2a32dfa308, 0x304dbc0936862356],
    [0xc0fac0054b58cb02, 0x56f05bd422bc9f3c, 0xd393f1d274636ca9, 0x2a7de8f5ff476d81],
    [0x20a545a52fdce11d, 0x12b7d938a79864ed, 0xced60c88f19a82fd, 0x12c6f6c83a3530fa],
    [0x74c98f40a195b3e4, 0xcdc8fdd2883014de, 0x473a24f32d2d502a, 0x201e03f1ff672629],
    [0xa17c552ef92b6c01, 0xcbff7c89e9c31bb6, 0x907c867743d35d2c, 0x118c3efe920c9c3f],
    [0x6a9d9e47d03bc655, 0x74f561fa26d5614f, 0x7b27c104bc93f0c9, 0xf705feba5f01cb2],
    [0x4ddddf911eb645f5, 0x36d3c0dcdff4c5c8, 0x9e69e9a3b4c11ad3, 0x28d327a1c2d6012d],
    [0x33c1c65dd9d8d532, 0xe2565a4041906645, 0x2caff1b5c6d63e3e, 0x1bce67f4dc99547f],
    [0x2bba56bbecb227a1, 0x99ba1f5d2a5d53bc, 0xd4afcaa582b1a947, 0xe691fca423128a7],
    [0xa3ffa4f961fa1d5b, 0xca59e06bbefc7cf3, 0x53d9c222e5e3359a, 0x180aa4babfa75397],
    [0xb36848ac277744f5, 0xb09b76bd1b5c9333, 0x52dfb068282d68e6, 0x2c54287eee368d5d],
    [0x96bffd960cbc6e25, 0x213571f3975ce20b, 0xcd03a45c44dda740, 0x2f65361a4aed320f],
    [0xf9e6d592deb2afe4, 0x5d57385cde2b4dac, 0xd988bfc62708b0f8, 0x235bf178b5b56262],
    [0x4a961c3046635f85, 0xedb305f15a59eaf7, 0xd753b21fcd949e7b, 0x1794ec2b0eeb22fb],
    [0xbc28f2e08e9f6922, 0x3fb4f7ed16aa58c8, 0x505b200311bde400, 0x83e1cd5943461ab],
    [0xb95ea266a7b6059, 0x85ebaae6fdf6fbe5, 0xa15f577dcf780ac4, 0x22a67a88776982d6],
    [0x1fb15ef29d11f19e, 0xe4782d689f31b94b, 0xc4b2c9dc3dfcfb0f, 0x2d1188d9e7e6ac24],
    [0x9b10608cc05a37fc, 0x70b3e82ab482f587, 0x5200d56cd246b016, 0x265c43c886f07d02],
    [0x8c2ea96b26f9381e, 0xdca712b653b1492f, 0xbd608eff0895d352, 0xf26d05e938f8317],
    [0x2536bb583313a395, 0x4e409fdbf4231958, 0x68aafe54218d31de, 0x257689a4e22f6a87],
    [0x8bf41d8ca0c1709a, 0x3c3f11c364b3818, 0x627c6f9dbe27ae27, 0x1edc57f174e1322b],
    [0xad2b2cd10cf07138, 0x1a602bc8f4bf1bb0, 0x5e06eff089eb5605, 0x17b39f38636d5eff],
    [0xf9b04b5404b3eef3, 0x98d86852330a7b69, 0x2f95bc98a0406c78, 0x306094ecfe63300b],
    [0xbd493bcd3c84f84d, 0x70a3f32593e962d4, 0xd2df8ab952be1646, 0x11afecc85590543b],
    [0x53e6b9edefbca2d, 0x4447a02145516287, 0x9c8560d74dac572a, 0x1a8ba4f37d231538],
    [0x372a3b8e372d8ce6, 0xe615cd4c6aacc665, 0x66707e6e6e310524, 0x189e279c92de0bab],
    [0x7fc1eb678e9de6, 0xab5f86c6a706e6fd, 0xdeebe6a8d27a3181, 0x17208ea9cd4dc1a6],
    [0xa840dc2331a0cf35, 0x1972b37f25ea35ac, 0x9efc0bce211a0903, 0x228a3488cabbf9f2],
    [0xb2b8dbceb6024c76, 0x2bf35147b1b788aa, 0x6d0f944d3ce23827, 0x22122c6313fc9a4c],
    [0x642ee0b7b4a16634, 0x609ae9b14ba4da10, 0x13aaee5387d388e3, 0x6649a13e65023a7],
    [0xcc10589593a7978c, 0x3ea2beb0695b8af7, 0xc0cd88f511976f06, 0x1ed4c95c6283b45e],
    [0x443f0c146f8ab7ee, 0x88797ceeef666ba2, 0x4395da1bfc93272d, 0x15fe62a69b043829],
    [0xd28533e05def8864, 0x8b1c443a8fb21eb, 0x6d4e50c45c01fb75, 0x2b079a1d09b9d4a7],
    [0x97ae352aa7457d4, 0xe6e308c8fc2c5634, 0x30b2f6ce9adaef5a, 0xc34496a7db5abb3],
    [0x1ca7a2e7fe0463c4, 0x9dcc4ab354c380f5, 0xe774388edc3147ab, 0x4ffe27a92cb4300],
    [0x2fb911a46c666768, 0xb954979c1c568e11, 0x4871a2030d444e5f, 0x28b73b335c72f077],
    [0x261b5ad364e5a9c7, 0x2ba3cd994b74955c, 0x404ee582e2988907, 0x195821b99af2c217],
    [0xfd9649063523881e, 0xd180f52fad2835f7, 0xab61a65eac815d, 0x20a56fce37122b74],
    [0x953432f64424042e, 0xe718404aefc48be6, 0xa4750c5ed5df2590, 0x235132912db2da07],
    [0x712691f6fbdf4298, 0x96c55ef5a88fefe9, 0xb0bbefd6bfaa6e94, 0x1059db5e97f25826],
    [0xc9875a28b6938299, 0xc04c30168c50ffe0, 0xe767223705cd9510, 0xb050c882073a581],
    [0x91b18f49efef9920, 0x6e84d07547a0b1cd, 0x3c6e4a5488f80126, 0x115e60c4e2937eb5],
    [0xd93f8e5bdceb4725, 0x41237206f0294746, 0x13d2f79cdf128444, 0x1d9bcbbd17b93b19],
    [0xb41191d9f2974710, 0xcf4831a6566eb727, 0x89e0a8ef683536d9, 0x20007a0f5d377987],
    [0x70df8ed69310bfe2, 0xbf4f44d1cdc4f846, 0x886b634d215de61e, 0x16bae49f5ebb1ffe],
    [0x75e668fd817822d, 0x85662616d59da908, 0xd8d129e209fdb92f, 0x229aa5b547a63780],
    [0x76e56608d1b78cc6, 0x5993b37630aecb5d, 0x496adec230ed53a3, 0x29a5b1e4e2f25445],
    [0x3c6ca89be29b729e, 0x71e8163fa1724f1, 0x30029dbdb36be01d, 0xbfce7b120068b9a],
    [0x598ba7c6c7e3c2a5, 0x73588a5763c6a1a7, 0x12bf4aed7a0909c1, 0x20055568b33367bc],
    [0x8725ff7be809c87e, 0x407608246f14a809, 0xa1932cf15d314eed, 0x2df1ff86644fcc42],
    [0x2cfcb739cce965da, 0x455b1050de116418, 0xb4636e6b5d7a33e, 0x1d4fb0f18f31c827],
    [0x7569daa9b2401d32, 0xbd6cc5d7921c238d, 0xdb002ff2ed828905, 0x19d6f1d110d9f873],
    [0x4802d04477de1e20, 0xaf02443edc962cb3, 0xdd862f98fdaba3f9, 0x282a01e8f2ce09cb],
    [0xe5a99dfe13fb9a16, 0xf663a2b65055ca9e, 0x9448423a05889e0d, 0x304b679008e8a1f0],
    [0xfea15db17b835907, 0xcaf3e78bcbfb684c, 0xb179c61ac2c36af5, 0x1998147edaf3a92a],
    [0x76acfd2e3f5755c9, 0xff8f40393752748b, 0xcf9358435923e65a, 0x28a4572cb654261],
    [0xa785169fb336fb6e, 0x6ad0a6037c84a1a1, 0xccc29b5d6e4f0fd9, 0x15bd998c2729dbea],
    [0x50667c0d7641213f, 0xfbacf6d8a44de4d4, 0xeddd688af3885369, 0x7cdf3309e130f9c],
    [0xf91a3dd728e63b6a, 0xbb991a65dc4d4f8e, 0x12c2138a31416bbb, 0x152d47acb9b06c9d],
    [0x28c4c7f0fb9b608e, 0x42b18ae9409670e, 0xe1312dcc3d15c7ef, 0x1179184635a9780e],
    [0x7ee59235cda9a40c, 0x1337c797e5721f9d, 0xbae93741b7c75e1, 0x229da441a302929b],
    [0xf8a3eee960f601b7, 0x56e64910887b4ddd, 0x3b2bced3edbd41e1, 0x2e269dc78f70f910],
    [0xaf886c328abf4699, 0xae7b3b8b3d456303, 0x4c4fd491b6fa4dcb, 0x21a91fed8bed1491],
    [0x2670b6dce79eeb00, 0x5ef5e962d0120030, 0x89e1ca52cbe00bd6, 0x29f07c1effc65b55],
    [0x95e295a93023c5a8, 0x3a2cfd25e7a20ed4, 0xec5e708a70a3cecb, 0x506a7a5de6b56eb],
    [0xa1e79cc3106b2201, 0x6a7fc7c83811bd86, 0x597cd320f00c02b9, 0xc02b148f4a1559b],
    [0x190b85347f685b1a, 0xc708b1b4ad076425, 0x894f421010f43a81, 0x24a466f74e99a602],
    [0xa37864faff9f9056, 0xe9c367dddbc8484d, 0x70bd2897b54c7fa8, 0x1fee188884257249],
    [0xbd12613b24ef52b, 0xee0c3aad217b7cb0, 0x71aba62f3f46710d, 0x19711c41d76f64a3],
    [0xbcfafcad706748b1, 0xc8ace9e207073486, 0x7083040be9b3cd38, 0x2770d14a220152fa],
    [0x16b60e8ce4f6b5e0, 0xcd15a4da49b65318, 0x1d35e9a644b4bdbf, 0x8dffe684aa33f91],
    [0x1765b347d2003667, 0x5fb4f2dd8935ad1, 0x254b230bfce017f0, 0x1cbfab7cb05e2f28],
    [0x2000b33184a39e84, 0x66520133d299e844, 0x20543b0039aecc94, 0x21d7269a53d3712b],
    [0x44f6e7a93350fd2a, 0x85b4bd77d94f067f, 0x3358f18a32d5aff6, 0x21fde580a19886b1],
    [0xf55c4d1cfc7926d7, 0x720e95196dfe361, 0xd82a1eb4bc481e9b, 0x5232bf95807e48a],
    [0x3a23f37f52fe5e3d, 0x27835dbe690c3058, 0xd544c757bd91817, 0x13602646b88ba31c],
    [0xde13fc07ae82e88b, 0x41ed0680d57c931e, 0xaf1891a6aa197367, 0xe48466182ae8333],
    [0xa2844bbc85bf81cc, 0x6622a4378ea4e646, 0xc41e4dfaa7643825, 0x1137b5c61b9684be],
    [0xed1a5f2ef2f95e7d, 0x6773d9b05faf51e0, 0x18b7b8f66af7305a, 0x1f4b85552b960d1c],
    [0xf0a7d8ac60c1f1c3, 0x413a0bec5a19ed0c, 0x16700c02efdf7767, 0xba8a54914886fae],
    [0xf219dd9edaef78bc, 0x4f22b841aa08f586, 0x85cf8e362683a614, 0x30289c9678c0330f],
    [0xa4d8d6be8a23ec45, 0xa3360d9a64233d3e, 0x66761cd58fcc6ac0, 0x4890048fcdbde63],
    [0x9cd6bffeed2cebd, 0x670f4841ea27ac27, 0xbe0c1d4d5cf2f777, 0x1a4162e8a7704447],
    [0x37a537d61b6c7470, 0x30b5c1f2d63677a4, 0x9766fa6f4f99a876, 0x2e944b449c1369ce],
    [0x7712e4e62c3bdcee, 0xf5dc0447e65a1d5e, 0x6593dfde5576d2fd, 0x22d6e787f44daa6b],
    [0xba6a101aa19dbf66, 0x7628c65ec1cfbc18, 0x9c3d671e4e78e4fc, 0xe08ddb69d5efd94],
    [0xc5ca23dad3880e57, 0x5ed1ec6b207274f3, 0x9a90eaa34d2adaed, 0x27a573036509a8a2],
    [0x21c37c8f31551176, 0xa3f0546b62d171ea, 0xcc2b5afab1038198, 0x72372083f62195b],
    [0xc69e61831958ceb, 0x1c65b294426c8c32, 0xdd82a4c92442c475, 0x151e0bc2110e4300],
    [0xdc5fb7459caf4916, 0x130c60df9c8b7e87, 0x52cc7e4b81c37ae2, 0x13f1acc389c4f8e7],
    [0x355df3fbefc69dc1, 0xfd3804a85c1a7f2a, 0x32b02fa270b2f887, 0x6823a9baa556237],
    [0xd95878c1b5607c6e, 0xb9973fe136d9f9aa, 0x665c2e2466ab9216, 0x1e41936e6bc0c3ed],
    [0x8e064c71daaf2b6a, 0x27baee77d53a2426, 0x5c0a39d83be78bd1, 0x65766d2980331a5],
    [0xfe4725eb29f73464, 0x2e05471f0b6dfe9f, 0x4d3a8c17bf5b4045, 0x1c9d56f71c2f22c4],
    [0xc956234ade3e7129, 0xbadda2c7a1c6b5af, 0xe4536f95f4eab2f3, 0x113003c1dc7baf35],
    [0x33996dbb0cdfaa38, 0xd38fc12912e2c3cb, 0x92697c473b69cf76, 0xd5fb9b0e1503f2b],
    [0xff4753baac934949, 0x8f882f3e3a9892b6, 0xa8903fae1f35a3a7, 0x2e164a524ee22eb5],
    [0xe0fb04dc2e09e3af, 0x1800e473a63b33a7, 0x4a510a711d036d1f, 0x1f9dcbde7d05813],
    [0x5bfafd0cf24c6712, 0x28209b61802214da, 0x63ac9f4af564ce0f, 0x285b20799970b58c],
    [0x9fe57146ee204810, 0x3089ce3332cb730f, 0xbc731500effa2376, 0xce3dd727fdd11a8],
    [0xbe2bb65a6b134b3a, 0x6292798910494277, 0x8a0c309296ca4820, 0x1079746ca51d951],
    [0xaaae627b9617170e, 0x40c0d53382ddd3fc, 0x310c451d7d480c2f, 0x23a85d4f91eda69f],
    [0x1661523f0e6ddc54, 0x6c315565378ce8b8, 0x261ace434fd28620, 0x240657d67f92b5e4],
    [0x1d6fd7110e25902b, 0x9173c431333a9c7c, 0x7ff7c9e3e7d131d3, 0x2384a384bcc2c4a1],
    [0xe0d66b1f190038fb, 0x4ad36a8f356e4c78, 0x4538ca9b34093b71, 0x25547b51b2c6874e],
    [0x50f1e5985f0a5d99, 0xa6f7bcaef1581104, 0x2edc37248349d7a5, 0xe59e1a990ec00f7],
    [0x171d417316d3622f, 0x32b3e32d8f20a0ae, 0x4f17dea916829543, 0x66c6090936f6b05],
    [0x50c5edb5b5517ebe, 0xa47c70d49364f03d, 0xb1a4e9a766193efc, 0x1b25662843b0986a],
    [0xd53d60b8714bd759, 0x7336646c63c63e2d, 0xe7ac5983f92db34d, 0x2647635477ee5fa9],
    [0xaf75eea8024b00bb, 0xfef9f5af90466b2a, 0xc11cd675a267d42e, 0x26db2e85a9006ef5],
    [0x5b635961642e9c15, 0x2b1cd891cc66775c, 0xf72ad794891950b3, 0x2234546f5e8541e8],
];

/// Part 1 of the dense MDS matrix for width 17, as little-endian limbs.
pub const M_DATA_1: [[u64; 4]; 33] = [
    [0x319a9525ae71158f, 0xa858523a2582d434, 0xf1986186bcb97965, 0x1b61468fab59c925],
    [0x942defdbdf701ddd, 0x489e3018927879da, 0xf0651e4ad0da5d4a, 0x11291ef514a10d6],
    [0xd6ae7d97d63578b4, 0xc5c795f8b41b61df, 0xce13d16091705a40, 0x2df2fb2c2e321e3c],
    [0x90d8a7c376a9a82, 0x86f1e429bceec12, 0x4bc34cf80c38bf13, 0x1baaf8ff96bb222],
    [0x378cc5042484dec9, 0xc5bc95d3766affad, 0xad9bb4b0142e3f6d, 0x7b0d70ccff1b70d],
    [0x86830bd8ac13c4cb, 0x466d9ca7fdf14b70, 0x31581b566a439537, 0x11f28ee5da80d19e],
    [0x3c2bd2a3b6ee3cb4, 0x901df7c675a16491, 0x647fca6cdca97146, 0x13d7b03e8fc9fa],
    [0x15b77d82d9b0d9d3, 0xfa383cfb747f7a2d, 0xfe8d29ab18d0fc6c, 0x2440e786179a7fbc],
    [0xfce4dfcb5dda9116, 0x2873cdd53199679, 0xc291fc218324142d, 0x56149221712b88e],
    [0xb29238487849a794, 0x6c3054f5c5b73b28, 0xbe4e82c5e5253bd6, 0x162c5bbc81b44427],
    [0xdeb6f3c9c1a7d10a, 0x697e626cfef00ffc, 0x33558dcc934971f7, 0x178f2aa8df9a11ef],
    [0xf462b7c84b4e500b, 0xdc485fbafb5a7263, 0xf40fbb2b79f29454, 0x24afd92f80e57788],
    [0xf5899232c8f2100a, 0x3687151ae44042db, 0x2ea96e60ac837555, 0x492ae5f5ac2a510],
    [0x5b48789c521fbd0b, 0xc98e9fb1687c2d82, 0xc66be1dd3c5f7602, 0x10dcb11f815c7e29],
    [0x294e4bb329b170df, 0xcfec98f7a8b7963a, 0x44eec662ad27ca6a, 0xa11d587cb75d485],
    [0x3a93afd8a65f3267, 0x80a55a08e6782c65, 0xcf6bdadd434aa81f, 0x1dd6b095cb68459d],
    [0x9ce71563ee1495c0, 0x227cbc12b0e42f2b, 0x98c234b553da338f, 0x14c09d155c5d4281],
    [0x43f717d1804253d5, 0x7c39ef1dd3039f09, 0x718e29a2d91a63ec, 0x117fd528770fb17f],
    [0xb0ebcf738480e390, 0xbc288b216e8a25e8, 0x4047f6828c68ae28, 0x120e7416d74308e2],
    [0x8bef610b76cb693e, 0xc5bf8a1464807f30, 0x74c39d27903f342a, 0x6995e510fd76693],
    [0x34dc4f44ff134fce, 0x886b88394f1a5cbe, 0x27f94cc02472780b, 0x1d814b3c17656c23],
    [0xf00c9fe535aa9902, 0x75ecf73aeb5c6ff1, 0xa17e34aac98b1698, 0x3b90da34b198cbc],
    [0xdff1935a347485d8, 0x9333a41364f7870e, 0x755781c367683f9c, 0x27fa77a0658791e6],
    [0x99483e92ab24ba59, 0x2dd227f1de692c01, 0xd05e24cf9103d096, 0x6d6ee531ba3fdce],
    [0x8d62b40bfe3e482, 0x96259e98cc64c272, 0x4879ffce5b62dd0e, 0x1e507921be7c7612],
    [0x6a15b85c6f8a5370, 0x5ecbb159ed50cf74, 0xdb5701931f0ee2f1, 0x681adaea79cf457],
    [0xf646d2018eab4010, 0x78b119f69fb431a7, 0xdc872c4e897a9677, 0x1e6196147508bf2e],
    [0xdf0de0c8a3a189e9, 0x102ad21dfddfb387, 0xab7d88990171bae4, 0x68efa35bc620124],
    [0x32a2cee893976f29, 0xed7c8ec2034743a4, 0x841122d17c5ea4ed, 0x1b012224a4f050df],
    [0xdf9d80787a25c5d0, 0x477bfe4b3392710e, 0xfcf835a958c259a6, 0x208d814151bcdcdd],
    [0x4d073e514ab24252, 0x5af6ce432c85e0ce, 0xc4192adef8ea4ae5, 0x28f901fcaa860b0d],
    [0xeed24b11929119a0, 0x6a6eb19884b73664, 0x871f9cd4714e3cc5, 0x1bd639879731823c],
    [0x3b0de48d3080c625, 0xa7ec6f4795faaeae, 0xda2473efc2bedd1b, 0x1d3ee85f078fbeec],
];

/// The values of the dense MDS matrix for width 17.
#[verifier::opaque]
pub open spec fn m_vals() -> Seq<nat> {
    limb_vals(M_DATA_0@) + limb_vals(M_DATA_1@)
}

/// The dense MDS matrix for width 17.
pub(crate) fn m_table() -> (v: Vec<Uint256>)
    ensures
        v@.len() == 289,
        vals(v@) == m_vals(),
{
    let mut v = from_limbs(&M_DATA_0);
    let mut part1 = from_limbs(&M_DATA_1);
    let ghost pre1 = v@;
    let ghost add1 = part1@;
    v.append(&mut part1);
    proof {
        lemma_vals_concat(pre1, add1);
    }
    proof {
        reveal(m_vals);
        assert(vals(v@) == m_vals());
    }
    v
}

/// Part 0 of the transition matrix for width 17, as little-endian limbs.
pub const P_DATA_0: [[u64; 4]; 256] = [
    [0xac1ea3fcce1fe938, 0x2694c936f1573ac7, 0x54c71d40114a0bb8, 0x196b76cefdcc7f6a],
    [0xe897823d4bc84d3b, 0xcfdb87a772200020, 0xd18c25f892d98c23, 0x1440dc2578f44694],
    [0xb870bc57d1385900, 0x798fd2ef774f1518, 0xfc32ae3c42df9728, 0x23aeeb0c6499b84b],
    [0x12fab7dcbe63d72c, 0xd9bb07b2dd061872, 0x4dae53eba148806f, 0x1ed9d3e9276acb7b],
    [0xef2e6332a5b35185, 0x581197124d217520, 0x11db790a86647467, 0x2ff57f3f7e95b034],
    [0x162203d30b80208b, 0x2191a8cceda0b775, 0x69b4a719ffe5f02c, 0x15faefbf8584a389],
    [0xd539be30b72fde9c, 0x955d829ad959428c, 0xd89cbb2399ab8aa, 0x1e6eaab1191593de],
    [0x568ff668fe5f0974, 0x77fe2481454754c4, 0xef5b5c77cc408b0, 0x2a3bb020c8a50d31],
    [0x99b5e51fdeb32234, 0x604cd36acc6af07f, 0xc7ebf90c297b90e9, 0x51f815c454b6015],
    [0x6cefcb69e4048bf0, 0x3e5ac5bba937bcfa, 0x84725317c7bbb808, 0x28b75c2ac167fdf1],
    [0x97fdd060c1e4b585, 0xbd97e44957333d26, 0xb71b61d093d63dcb, 0x23af324599683d9],
    [0x208ddf40a32329ea, 0x6c317e4d489d4515, 0xa015879fe7cdf1eb, 0x5a07868a7c95f50],
    [0x732832c72f7f2c30, 0x82faed2a92a7b3f5, 0xbeebde53ce5fa688, 0x2c5b4a65bc55ac5f],
    [0xc76a0550505d0607, 0x32b83eb1e3233471, 0x6a2aff3b8e0417fb, 0x173f895e472c4eb1],
    [0xe9e2f5881366be3, 0x3219751c5ee8f61b, 0xd0c3dc5af19437d8, 0x206cb038cc328526],
    [0x6bbee42be287a4f8, 0x21d967420f401ce8, 0xf28d000b88d33539, 0x240c57897161666],
    [0xfef9255b4ec10cc0, 0xab276b37c5f51dfd, 0x53996fda804063fd, 0x1aaefc2e9925fcd4],
    [0x99340b271c399668, 0xd33407ed33291cc5, 0xeb702b935044146c, 0x197fc9fb21309218],
    [0xaf1817a315289259, 0x1a10c8d66e887d, 0x2edfd01a8ef108ab, 0x2ff15351b14d1b85],
    [0xa6003460b351a940, 0x9f2646cf0263924a, 0xcdb0627796f331b8, 0x101e7e35808991e8],
    [0x261a4c30e3bc634b, 0xff5757342ccad17, 0xac9b1bac220509e3, 0x2c05638ae2f83e73],
    [0x9fd0ba6ef188df9c, 0xd3b31f475424d23a, 0xa42cba1237e0c568, 0x27ca7b8c33207e75],
    [0x9f3a276bf5fe2acf, 0x4c28ae2e88b94da7, 0xeddbc122ffcc656e, 0x1dd8c52fbcd6e06c],
    [0x7f11c0a87ff00bf5, 0xb6401f823e47854b, 0xfafdb7148d7ae86, 0x12f17c280efa40df],
    [0x42bd5780fabc29c4, 0x117f599efdfcf9e0, 0x4bfacbe47f56b793, 0x1399820ddf4829a2],
    [0x4754d72598358b37, 0x984c75553cec2616, 0xeac78010d88b2146, 0xa44004794fbddce],
    [0xbec180ed2363c224, 0xd53addd56bbed326, 0x8f52a4b74101cb73, 0x4eb2ffac1de1628],
    [0x987ca5299521d16d, 0x555febb54eaa503d, 0x845b79d49bfbb685, 0xb11660056e02d7f],
    [0x23403cb684d3070e, 0x7ca73b6cd4fda7e4, 0xb548d154ea6071e4, 0x28c53ca5db5cecca],
    [0x7f2dad5b202d5c9a, 0xa60b73fc3ef19822, 0xcba3d41c556b070d, 0x17d5e7e1862b3708],
    [0xec201d4f425991ce, 0xfb4d4c61d3c0b828, 0x6351ef8d2b567646, 0x500a676c5cd159e],
    [0x5c398d9f0adebe12, 0xc52204f56fe81ef7, 0xeb540c311936b282, 0x255fbd250e6628c5],
    [0xd6267e07882dc57, 0xa19c11c7e886f65c, 0x831b3126c06a9b4b, 0x7c9f836c94eef4e],
    [0x6a6ad8e0d0c0875c, 0x6e7367c4b801d27f, 0x4e990fd1bc5057d9, 0x2eae17dc561c3708],
    [0xebed05ff3e7d750f, 0x3fe65a38d4e76093, 0x91e4b8c416b4a97c, 0xe8ab972df74eec4],
    [0x7e772f2ba1abc421, 0x1626bb715f19a9, 0x3fa9ca8769a3799d, 0x2fdcdec10d335495],
    [0x3709a56662e51931, 0x1331ffa1f62d686f, 0x4bbf76dbf0f54d5f, 0x2bb568a99f55bea8],
    [0x168c8a13353c9654, 0x6da234ba5bbf78cc, 0xc66bf0a524b81e88, 0xf1fa08e424e4691],
    [0x7a34692a7c5b44c, 0x6d4ffe8589d3e77d, 0x3d2182de5ca78ca5, 0x1b6aeec49e5936a2],
    [0xc67c73ad36cd7153, 0x2de70e75bcb06eba, 0x27999ef3a84a0a5c, 0x2915408b3b7c2cf1],
    [0x2932f350644374a4, 0x7cac867b6bd3795e, 0x8d3eda047a68a64f, 0x2fd97c7d4e331e32],
    [0x69a4d780032624b6, 0x8b6282fbc090e6dd, 0x19a9f75d97f17fe0, 0x2303c2e89a14828a],
    [0x2ee173c5483f80ab, 0x45c252a77e51bcc6, 0x23d747148e091d19, 0x22423aac5a0b5119],
    [0x2819e317c0ee1d2c, 0xe997cc92c2c72e54, 0xc98a6b2de15df151, 0x2bd52a360f3328d5],
    [0x57c4df69e7a53d51, 0x3f92faa9c1ae1a0b, 0xb1b1c03dc2be195b, 0x1f209382e3fcb44e],
    [0x6ea7c6d919e91440, 0xf76edf56c4c5c2ba, 0xc4fd75178dc57aa1, 0x651a487e9ef91d9],
    [0x1140645ed57d0b3b, 0x481ace463a86cbdc, 0xe945477d529ace63, 0x1d7ef8564a9ac7dc],
    [0xee992a967fadc501, 0xe195ac204c5036af, 0x7550ca941d9bc485, 0x1aba42213aa1f15e],
    [0xbdce6ae992239e84, 0x207fc9f5650ec1a5, 0x2efab29261c9a36c, 0xe14d98de84653e2],
    [0xbdde7c4d93d5a019, 0xaacb8fed225c60a5, 0x7249f3422912980d, 0x156f5afd193a11d8],
    [0xa62b06fb6eea3bc4, 0x477513fcb9853942, 0x81f56a957908c200, 0x247ee52031ac073a],
    [0x81cfca573bd77e79, 0x8ca13eff7d006be1, 0x88dc665323d3e334, 0x17af7102238531c9],
    [0x5db22e85844fb455, 0x9d1b063c994b9812, 0x75a208469afb8719, 0x146deec0773f0751],
    [0x772db49baf9932f5, 0x4f1a20f1d9a23589, 0x438b751e8ad4dea2, 0xceed1b75b2f6ef1],
    [0x2bb56b103f6f742d, 0x47861b8143052e21, 0xe8ffba0fcd728598, 0x1ee32a96f8d3e8fd],
    [0x986bff72ed22f6f0, 0x46cb85834c34e0d8, 0x77c7fd2db2549490, 0x5e94c1b81bbe16e],
    [0x4249f6713d54007e, 0x18acd90f6a29748e, 0x7665a414632eb3a4, 0x2e655f7e6277f214],
    [0xc51e18975371cf08, 0x1c70653c1ebc256, 0xa016d475ba0483d0, 0x2c1c8f60b63e8cbb],
    [0x59cdbbfc8301afc9, 0x67889a1a076da178, 0x7f5855c084e89953, 0x1f7a5f8fd30b1f9d],
    [0x56be0ad9da545827, 0xb66fca8c4db085fc, 0xc435bb7f629c6c0a, 0x1e14c0a17f23e94a],
    [0xe917e18de1094f7, 0xc22e320ddc66d6fe, 0x584bb5e93cd18678, 0xff14782906fd866],
    [0xf398f7730285f9ae, 0x372315cd666db66b, 0x36471d593ebc8d93, 0x22e25afcf23ec18a],
    [0x5a23d2ba8773c71e, 0x3e8469dc6b558a23, 0xb01025cb47acd5d0, 0x16d216f97bdea9f8],
    [0x30982f9755615117, 0x814e4562492a0707, 0x48199aee6040d39d, 0x1edca4960596d415],
    [0x790c40f5efdf724c, 0x12802cdf41c87b06, 0x362f8d7916ed7e3e, 0x20ebc05e620d2c7c],
    [0x79729b02343b6df7, 0x9fa6cdc3dd8fa67d, 0xeb2f1dd6c61d0bc7, 0x1342f46c9e240aa8],
    [0x2becb907810bc85f, 0x1bb522d4f02cc403, 0xd3bce1b15fef96c, 0x203a73837d577d91],
    [0x7a5cb151c553523, 0xd7dff488df3f6459, 0x45f551cb053d7eaa, 0x275602e8ac1136b2],
    [0x89b8078bcfdd3f0d, 0x659e1dda0d8c49c1, 0x36663ab49379580a, 0x1b0b5e35d65981e8],
    [0x17844fddccb235f7, 0xecb103c554b9b6fb, 0x9b9246780df72a26, 0x20f00881fb533be8],
    [0x3fa716e1b5dab2be, 0x2d078f5ce5121be8, 0x55ec7f8e0e59649b, 0x2af501312e1b6531],
    [0xe196447acb182a7a, 0x954de29c8953738a, 0xc110994238180267, 0x20192d8adf841e5d],
    [0xc240ceb81c8f6cda, 0x50f5caa9ea158b3a, 0x3a3d20b6f31df953, 0x24a01b8801b2865c],
    [0x436ba840e89bf0d0, 0x8b457ccaba2105b4, 0x36e1ad2e3992b99c, 0xe0dedcb898406ec],
    [0xeb52867aabafc2fe, 0xc6797e59e860528a, 0xc54f56fe9de66641, 0xfb2d646b505c61d],
    [0x62725f8ea1804d3c, 0x7f5627b5637dcd9, 0xcbf5a2f1de18ca77, 0x14f79e9e9c5998e8],
    [0x70d0a393680ba3de, 0xa377f5c671fb8651, 0x4d50229a4fd5b234, 0x1958d6547accfb88],
    [0x4ecdedb017e3c50a, 0x6a9651a519e31766, 0xf21407c6151dc549, 0xa4a053ffb41f84a],
    [0xca397be38f5d793f, 0x87c452cf672e6a74, 0x483d7b0c74551a44, 0x18eaff4c9d5d00d3],
    [0x3eaaec71ce1cf71c, 0x8f896a2b8f87c6eb, 0xf329d51e451c873, 0x2c8a5c7f394b071d],
    [0xa18bdc9819442f05, 0xfbfc1dbe82454558, 0xdeba6fecf1190c2a, 0x258655ae996ae6e4],
    [0x83c1f11876aeccea, 0x63abf458a2e8630e, 0x1eb51cb026e79cd6, 0x191531c0fa2c547a],
    [0x736f9265ce19a2da, 0xc3a3c88acf10519e, 0x67946f0ff028aad8, 0xe41cdc0db95ad5d],
    [0x4015e1e823f71c0e, 0xb4094e3fef4741cf, 0xd2509d90ee4c03aa, 0x217ac1a2f28cb7b],
    [0xb2c32c3fe2e79b4, 0x3d3e0c8d11f2a84, 0xb0ad68065370bc95, 0x6143a7c97a91838],
    [0xf2db7ec1a74abbf5, 0x7d10da9cb9e0881e, 0xa013df27f7f4aa90, 0x1aa303c6d0552d6f],
    [0xcb5bf7e4e1c85292, 0x2740635cf2e39904, 0x69dc15b49fa14823, 0xb419e6fc9348d7c],
    [0x7fc8c764317ac751, 0x1dbc9fa8df670523, 0x6e2ba5497e140ecd, 0x152fdbabfe1a0ded],
    [0x46c1552a620f19c8, 0x4b39e0d6ec0661b5, 0x9f6c6e64ae2cfb6e, 0x2419a609a380157d],
    [0x10e49baf8e835ca5, 0x3fb6b7827b23437e, 0xec61bdf9007f8386, 0x18c647eabc6fb45d],
    [0x3342e3af8a1e6d85, 0x551495ec57f8b653, 0x2cdca355246fd989, 0x270a85dcfc9c8f20],
    [0x97527bc10616c622, 0xee95e683d6c07ef0, 0x3fdc072c1212e942, 0x1a44835e3e9620a1],
    [0x8163aeaa1cf5a9a, 0xbcf83e13ccc098d9, 0xf0cadacfcb429b44, 0x10199cfd4b1cca1],
    [0x478d43dd4075ab8, 0xa618b4f7ecdc3a38, 0xb453691e5c948a80, 0x14bcc6d4b8326e66],
    [0x4abe32f808b4d292, 0x472408699d7212f3, 0xadd95d36e7276afb, 0x19dfcf535e723327],
    [0x2c0c24473630f678, 0x5ccc17529c6c1a46, 0x3b03552d10469351, 0x1ebb9f7b5f7f0c55],
    [0xe279f844330cb694, 0xbca9e4247ec43977, 0x348ba37b6c3641df, 0x132175ccda95488f],
    [0xd3261a48bec6eab9, 0x984f5ffba4225281, 0x32ecaf5666c04e89, 0x279a42b218cc5561],
    [0x87ba4620ebc49969, 0x1c1b3c1841e109c6, 0xd9a466842c8fbd71, 0x1ff17bff476047f],
    [0x20efae1d55bd7157, 0xf7427b669069e4d3, 0x1341db685e790cd7, 0x1cc6d37794a5bf90],
    [0xb2162700a67274de, 0x8412e200682bd596, 0xff8b30f5dfbce270, 0xc2e41be00d98a8d],
    [0x43f88f4313647df1, 0xac862325988c4da9, 0x629aa2e5f086bdfb, 0x1f3aed03d37f7b14],
    [0x131cd8fd5fafa0a7, 0x2639d66596b3821e, 0x3228b430a2f9021e, 0xf4eea81fe11aa32],
    [0x599ac62c80784319, 0xa66de38d67faac26, 0x1a4fc850ab7d1f7f, 0xc6321d9f04dfd9],
    [0x21094257baf2b69d, 0x179ba223b6bb87a9, 0x8bdc448cbb706f4b, 0xdf66c437cbccd26],
    [0xb7aa6d624b8bf9, 0xe2231e80161f972, 0x8f2a2af586144d47, 0x3ce58f147c68172],
    [0x9d44d9f838d96465, 0xb31cff9e4e2e9729, 0xda27bcd517d57bf3, 0x523cbdc5787c220],
    [0x5cc501504a50a9c6, 0x82606e768f563a75, 0xf3338f2cc0dd934f, 0x494b4c62731baf8],
    [0xaa1784044c8baaab, 0xd71226aa5021b9ea, 0x65c53dc6e4209856, 0x192e49c626530d59],
    [0x4806d34e44c180fc, 0x367ec05ede0dafdc, 0x7ca6f298180c2150, 0x34459376fe4246c],
    [0xe4246353f567c5bb, 0x2f906a4870652805, 0xafebc966ed68f38d, 0x193025256b9871e2],
    [0xca7486a110ec99aa, 0xbed6f9811d59b1ce, 0x9b3e407149e6dd64, 0x155dd9ca7898b055],
    [0x73c7ceda7f8bd721, 0xea92aa3d3f6c264b, 0x8096c503be351bba, 0x1212ba1ac3bfe0c0],
    [0x1337a3b48aea040, 0x36323fc828059885, 0x29de2b1c6124fdde, 0x28eba78439ba2842],
    [0xc3fb0dd32909e8ff, 0xcf4c635bedcf98af, 0xbbc08d586cafd70b, 0x24605ce4aaa33a0],
    [0x4c8a79566037179b, 0xf13ff8a3c7bb8622, 0xfe214dce7fc21dff, 0x17d7ef1f4f75295c],
    [0xcdb192f789c9cfc0, 0xcb66362515c74d51, 0xb26b0df85078ebd, 0x117c39e46a1ae3c9],
    [0xfe11d060f8c5e1a, 0xa32bbe8e024a2a20, 0x188cfd816a41358c, 0x1fd5670b294ced78],
    [0x9ba56727bab87117, 0x9a4c12eb6ea700f7, 0x8f6e3fbc4a35a257, 0x18fc0aca1d4a4597],
    [0x95fe8357b6be24f, 0xa3b992b90c009040, 0xd2d42d6810ee8f3f, 0x1b47097a86346051],
    [0xd80a93646dfdcbe9, 0xe28df65235da8599, 0x8e035e7ee5f21242, 0x12784ae3aa761f3],
    [0xefb0aad802e72a21, 0x5c373a2e604305b8, 0x337d9ba06514ac96, 0x15e5521c580b9faa],
    [0x17a9d89a4eebfb32, 0xb6c6b03fcccdccb4, 0xc95c5f1ca8affd59, 0x12aba963e415f9bb],
    [0x3f8f9bceda208616, 0xc309c2d90e740d0, 0x4e487b4e42f0e450, 0x1799989ebc4fbcb8],
    [0xef324435e8176bbe, 0xdf4c30109d6fb86d, 0xe06c003d9d719d29, 0x17061fdaa032097],
    [0x632864e954f5ac59, 0x6eb36b1ddb1706d8, 0x7bcfe965068449cb, 0x80fa9dddf98513],
    [0x233a588509edae0e, 0xf68bb56ac0478a85, 0xf7e1dc15c04904b5, 0x2933eb342796a75a],
    [0x185ced28ff872e10, 0x93dbd4805c4cc15, 0x7bb270a09e8fd994, 0x1e4200bffb9ca4e4],
    [0xce8a8bdc80a3154b, 0xc1cc7cbc9a2e35f2, 0xe28dbfdbe9fce6b3, 0x2d9c5bcd84c97759],
    [0xbab58346e83885c0, 0xd8661dae60d50a61, 0xf3f2b46a7ef2536, 0x2f0256f9b4726979],
    [0xf116719737b15621, 0xa9ea190d2cb4a2c, 0xf7c44efcca6515f7, 0x140f550b1cfe4079],
    [0x4989ba04c31529c0, 0xe90c1e4ea42ca541, 0x79b04822d73eec02, 0x292481a792f2dd49],
    [0x55f283869e0f3f93, 0xe8594c35f7e9672c, 0x41d0aab064400e6a, 0xbc4494e3d58cd68],
    [0x2e80f4952b37077, 0xccda159d0f61a587, 0xa966913f7ba7b478, 0x2b4c77d18677eb99],
    [0xe3dabb984514863e, 0xf3cc2e8901014e0b, 0xbf5b94c325b01d03, 0x2884fd57b70a2305],
    [0xd7647e423f5e634e, 0xc3c45b6f716700cf, 0xc84e97fd4b2c341e, 0x97c4f0ca6dfc073],
    [0xcff380ffebe45382, 0x314badde9e84218b, 0x64e7169aa4ec11ed, 0x77cdf97e2049e17],
    [0x72b42b4a6409c5a2, 0x2720cd1630b63dca, 0xc7b2aaf6cfd942c6, 0x1e09ddd18fdc3c46],
    [0xdef7a0253303f866, 0xa6fc2126ebc4cfd8, 0xb99dd47c16087fec, 0x9a09a903ce4f69a],
    [0x4ef35b92ef9f39f9, 0xcb48f90e553ecdbd, 0xe56157c8c7fdda1e, 0x167f26eedae299f0],
    [0x32a077f5fd6b46aa, 0x5f0f4340b744c5d7, 0xfcb471688f64a611, 0x254d90f21c923e30],
    [0xa6ac6578c1ee0a75, 0xd3b96a801f3e8e79, 0x884ca7d0e7792a22, 0xf9e56a5af5386c4],
    [0xa6d9066e59260c30, 0xd74bbfe992860c7b, 0x74b274950b3f70a3, 0xff1355d96389f7c],
    [0xf98dbeb0204791e3, 0xa7c0684f24522d2a, 0xa0a7c655890ddf4, 0xed494f6fb5598ab],
    [0x1dfbdc0f41ac61be, 0x25b2474e7aadb931, 0xb853197f56a47326, 0x1d1fa5a83742eb9b],
    [0x32f5da4dce3d7a4e, 0x1b4fc30b2ec22988, 0x911119ebbcb4bcfc, 0x1ff3d01d32a70fa0],
    [0x887833ef4b482124, 0x3a413eb1f7fef458, 0x97a514e36c1f86b1, 0x1b6a8442e48b7097],
    [0x4f3b52c3dea9bb0e, 0x9ac4035d8ec5514f, 0xb13532ff6f1c453f, 0x1fa08142c4cf49ce],
    [0x327df5c6832907a1, 0x946e75d8628f569f, 0x16b57398a7bab72f, 0x19f8effcd417b790],
    [0xef39b373b224d38c, 0x219ef5dec8db3bdf, 0x921ae738b7cb40a3, 0x174a4219c4aadec5],
    [0x475034289443f240, 0x4e706932fecfe47e, 0xd1719ae0c13cafb6, 0x250d35fabe31fb7f],
    [0x2319ea13a69b9c4e, 0xbf5fae9cc67fa18a, 0xa18f59f934dc11bd, 0x23e772e0725ef73a],
    [0x2432d9c6ee302a5d, 0xd669ba575b7d276a, 0x2bbb1630216e58d1, 0xde5765593280a3],
    [0xad0141721a89f73b, 0x47694f6bc0f88624, 0x74422f70789c1b7a, 0xb4d6879a54ebc4b],
    [0xd3251b146dcd078c, 0xde2a6fca570c8365, 0x825245aa127bac8d, 0x2a71a3a65e49942b],
    [0xedb35b9550cf71b2, 0xdd147e706370ee5, 0xb2a82271ac46f780, 0x2bb52dc2028e9887],
    [0xc1c7817fd2b8a46d, 0xe7db09350cdacde3, 0x9054321196ddb973, 0x486a139560dd70e],
    [0x8815e65c5fa91962, 0x93cc985e1ef2c62b, 0xa7b730d8c21c69e7, 0x10d8f1c90a94db10],
    [0xa63ffae59eb1a905, 0x9c0e8c2dd1ce6924, 0xed44e23319cefdd0, 0x24a746819bb8574e],
    [0xf54944ac91deacc5, 0xa1d4edd90a3a519a, 0x3cc52c74e0ee10dc, 0x237f4f3d794bd3a2],
    [0x64748ab3e521a20d, 0xf60f6ddd5d7c2492, 0xe7246c261aa5b700, 0x228e31df905565ec],
    [0xc57b4ba68efafd51, 0x4c32a67142092876, 0x9b53b10595bab1e1, 0x2d650daa87c7e1c0],
    [0x65f895e2f9e95056, 0xefc18e7e9b55e6ef, 0x37be0bf68729d669, 0x44ce295745ded17],
    [0x450ef6ae2a945117, 0x4dd10d17135bd93f, 0x516eb3631eb8a18d, 0xc96e617f36391cc],
    [0xb6669698cae88827, 0x2e2b52bac5475c10, 0x2f1c6ecb059c9923, 0x592cf45e5a2dd38],
    [0xdfd7dbb4f1d9ecfe, 0x5d956d16f89210ae, 0x726b934545c2fdb7, 0x279c71db7cc16b9c],
    [0xd2ba13968bba9874, 0x42bfb8bf93108996, 0x7d85b8025bb304fe, 0xe989d36297ae239],
    [0xf03d845407b1e1da, 0x1a49800ed3515221, 0x26f7c8c6f7accba8, 0x2c712075e8848b2d],
    [0x16ac35f310e5dcef, 0xc6fb11d1ce750b33, 0xf291571a8904f0b6, 0x122366ae0642411a],
    [0x672bc8677a35c206, 0xdad0bd67a3c741e5, 0xb0d8cdc92890f037, 0x7475c2b72238b87],
    [0x5c6623b5a6ef8d9b, 0xde3acf4199d877b, 0x1d3dcab55e35edd1, 0x14ba91f29fb5987a],
    [0xaaf3eeba444c3bc1, 0xefba7da59bf45f6d, 0xfaef18f402635554, 0x197d178b0f91d12b],
    [0x2ba3079d301fdd88, 0x6bc8bcba0e0522ed, 0x6505f76fdd396b02, 0x9bf3d01f97e2264],
    [0x780bceae409256d, 0xf58f2127994bca0b, 0x73c541c5caeda02b, 0x1e4a632c34dad418],
    [0x7d7651733053ce46, 0xc5368304a2461159, 0x2df7faae0b2d9bf2, 0x1032ccd20d4ed450],
    [0x26a06cda66055e9, 0x6ff665c08d590677, 0x35f72a794d9e3a3c, 0x703bfec7b532b91],
    [0x386b025976646bd2, 0x44d205ef8439b844, 0x7f2aa5a1a04857bd, 0x1c94985507159d36],
    [0xe1e3d4201b6d5bfc, 0x83f107e9578e0bcb, 0xda523b388c608dc2, 0xd36f7669a52260],
    [0x2309070d718f7d47, 0x36f3f3a9b4aa0a23, 0xcb7f63dae46dbd81, 0x33319bd5b5247a3],
    [0xdad3951b9986859a, 0x936980b7c043882a, 0x228d8762c8c6567a, 0x117377429e138736],
    [0x55850a1e5e325911, 0x7a9cb50c9031194f, 0x8150e367ba71a4a3, 0xed9dc15c9f4a60f],
    [0x7954370505957a31, 0xb24f2ea127c5cbb3, 0xab5b1c79de477945, 0x2897ccf4f75df225],
    [0x40cc6d76c252de41, 0xfb4450a9f92e11e2, 0x74a702f2800a3a39, 0x16f4afc47a61df33],
    [0x5803c66f08976329, 0xa6c2d42825986f9c, 0x89050cc15d94e459, 0x1ad84e6a15633eba],
    [0xe56511462e971465, 0x2fd15dca666b9130, 0xf1b425e9bf113cfe, 0x1d04d22563bde8bf],
    [0x67a3191aeaea61d7, 0x42d9a73eb17a0d58, 0x2cdaf42cb7ee8e50, 0x1d0b0c33d83a4041],
    [0x95201b367a39f554, 0x3d26f77486506583, 0xefa9d5dbbc1c6046, 0x244e984c6f2f2133],
    [0x83832b1db57537a0, 0xe5eb867f85b8f1c0, 0x1e832b7ecaee26, 0x1fabc01bf1091b88],
    [0x3b07b030b5db3320, 0x7ee2f1dca0258e18, 0x1656581cabd0909b, 0xcf6927b15b1b9df],
    [0xa899202f1f19b5b1, 0x46ee788ef6114f6b, 0x3cb7dcca08e68b44, 0x26b72c368b0bd010],
    [0xb52e3c10f21f814c, 0x833b364baf00a694, 0x7d5e44d8de55dcdd, 0xa471e606e256e38],
    [0x9b9a3556a32c8001, 0xd53097f83d826f7e, 0xfd8a0addd226c2b5, 0x39bed2152c1cc38],
    [0x78d06a36564b7a3f, 0x530927f0ddca59fa, 0xad2cd0c6b286146b, 0x21bf1e826a3e2141],
    [0x3ff0289a5319c4ac, 0xdc71931fe3be2f4b, 0x319add3a16b8c82, 0x286fb15e9ab4224c],
    [0xbeebedceb6aaafe3, 0x9b112dd61e4032a8, 0xe08789581cb31eee, 0x2ee63ea38cc2cee0],
    [0xbe53a951b0a9e22, 0xb505980455244237, 0xdf436c13eb6deffa, 0x26e56b19e55c9bb5],
    [0x6d8dc822bd1af974, 0x9ae504138ba72297, 0xabc76676120b2b88, 0x39c17d50605261d],
    [0x6aa733621cc20235, 0x8f8e8d500cee8356, 0x8685cdb4d07c110a, 0x2b8b201e13900e63],
    [0x8d14cb8ea23ec2, 0x526d717285ae02da, 0xecf16c037706ea4d, 0x288ec4309c81a0d2],
    [0xb1c09ae53e8cf23a, 0x2a5d3905cb9e4279, 0xcf9178efe8514e61, 0x1ba7d8b083eb0e83],
    [0xb4220ef15f954a99, 0xba956e713a7e9372, 0x58a818ba8369498f, 0x6f0eee01ada4090],
    [0xc11354cd831d57f1, 0x41ef91ca05997adb, 0x91aa6fb38b2e70ca, 0x135cce03597dd235],
    [0xa7558565e7305c0d, 0x4fe07711f94e9036, 0x67f543c33400cf25, 0x8eefbab2c1c5223],
    [0xdeca9880214d42a9, 0x7af36be03567e4ef, 0x7128724e6c20a4ae, 0x27a55f5103ad0854],
    [0x9b53bad9439ec93, 0x79c7321315d7aeac, 0x87d1ff531b4cc1b8, 0xb4d4c2920ec031],
    [0x1927322b0b5a84f7, 0x2b435f7e8de25d9d, 0x298ca0d1cc6fbf12, 0x284151191b230312],
    [0xa41205568525f43, 0xfe11ca5bf5461a1e, 0xe885b4b185b56ae0, 0x2bcbae8d5471d562],
    [0xe5a71d696c8fcd20, 0xea00294c5aab9348, 0xa3667bb2beeda181, 0xc52f1224066c212],
    [0x133c7baeef2f879a, 0x4231b5b800b51394, 0x167d6b3e2d22be48, 0x261d68c368aeeefc],
    [0x97de5f345e6692e5, 0xb131939a6af6edb2, 0x5038501c74ba5968, 0x2f678070c83d7194],
    [0x8a49da6ba33fc9aa, 0xfdc0126562bcd546, 0xf4bd56c39d12be65, 0x236262438ed3acbb],
    [0x28f90a5fa874296e, 0x5c1ade0c9236e3e, 0xfe382bc7e7a56e8, 0x2be13746d4b19b77],
    [0xdd624d2eedb6bf14, 0x628d35471bdad37b, 0x95174ed8aaeaa84, 0x1a0f0930bbea65ad],
    [0x9e028c39f2f1377c, 0xda045f8039453d7a, 0x50f552ab42d6c096, 0x2a6f067cfc9dc408],
    [0x4d5e09890e238e34, 0x73914ee936f92a2f, 0xfef62ce070897d63, 0x23bf4e044f678ba1],
    [0x9466bf04f68cefb, 0xf1ba15f48741f616, 0xae2579a884b11f80, 0x12bd882b0d8af801],
    [0xdd4c4e87170e42c3, 0x8b1334dd897185ee, 0xe0acb9705c443d14, 0xa1e2e12a51722b6],
    [0xecb5a60bef5c3ddc, 0xe12ae631100f24fc, 0x31b63978e329bd0, 0x74a08a71a7e34b1],
    [0x6c63c8a4df733f0e, 0x5c00d5dba96093df, 0x8df507e25be255e4, 0x24716ad2942c226],
    [0xbc0f8f0baafedc4, 0xfebc7afd299a0443, 0x1bf753704574d34, 0x209ed5faeeef4d1d],
    [0xa1f081e69b634448, 0xd48e580ddc3255c0, 0x593ef29e782b063e, 0x14b2c9ae1ec7a0c1],
    [0x1502e34db953815f, 0xb9efc01482488c10, 0xea8ae009cfd1174f, 0x2191792ed6ddd6c3],
    [0x9a8df57b910257ca, 0x6ad5e35c32fc1a53, 0x6d37c787c67bf7fa, 0xcb8f5333099700c],
    [0xed50c177516bd0dd, 0x5b2b7312ac9279ba, 0x30ab30262a01f2c6, 0x805d6862cafcf50],
    [0x1b204d49dfac42a1, 0xc550f592c742edc9, 0x8b7ec633248eacbd, 0x1b2e51bf0afc1618],
    [0x5d39e386729cc665, 0x1dec1a7775813bd9, 0xef603078e333db36, 0x28893305254197b],
    [0x74dff19d3e36f3bd, 0x8fbd9f2db97e61d, 0xf8e97da6107209d6, 0x1c30abb88b3fb7ff],
    [0x99a2da41e41c3687, 0x633e2d02d2e6af67, 0x1edb0da7c3fa43c3, 0xf695879295d610d],
    [0x7c14fda9c7b205ad, 0x7ca4ace63f7a4a37, 0x1ce6f9475e6cf633, 0x916249fbbb750e4],
    [0x6526cd44f9a11306, 0x59982034e0c8738c, 0xea233c91483a21bc, 0x297921088a94bfee],
    [0xe349a99ee05ef476, 0x94618a3bae9ef78d, 0xf6092f102a7c9111, 0x1d7e961151f8a1d1],
    [0x8a5fc0ea39f53a72, 0xb976a93d006b88a9, 0xf2b6a4f267b5f049, 0x22c93d459ac5db54],
    [0x60c1bececddb1e79, 0x2002d0a0ba1fa70b, 0x81a1e6f483cb4e9b, 0x2bbaca431e1d4642],
    [0x9a479279f7524d3f, 0xa594456cbf08b2bf, 0x19799096e5e0c1aa, 0x1d6b7bb51eb9ba7],
    [0x8a1872517754b632, 0xf23ce4e61b85b8b, 0x35162266b565c1db, 0x2185e4a0d25570c4],
    [0x6acae7d15d9f7979, 0xe03e3a4a5ea0f32c, 0x1888aff7be54fe50, 0x11cdeee1ba873dc6],
    [0x7e38a53e9c262673, 0x70b364873d99e1f7, 0x5e95e099e4b5567, 0x1cb753a0f4efe61b],
    [0x2d61b435f17ef209, 0x66fe68a311403852, 0xcdcfa7ce5e1b289b, 0xeaf70eb10be27fb],
    [0x1aac697c55245980, 0x4d757f9b34ccf08c, 0xa80d0a89e10426ee, 0x162b05a1204ae66c],
    [0xabbc7ccc86f14188, 0x2d90e86ddc53d177, 0x7df1da0f06916eb3, 0x15d5a61db8e0669],
    [0xa85130f73f01e746, 0xcabf187d8db4ab8d, 0x617766dc812d15d3, 0x2b8b1aa994b54ee5],
    [0xac018930f3b23518, 0x2461c374a7b90fb2, 0x2edb77a90706df80, 0x25da91e9be50e376],
    [0x3716f9e10e913221, 0xf59ba6e0a4768392, 0xbd76c199e961db6b, 0x2f570c80d99ea49b],
    [0x4ef67fc317e28328, 0xef3347a611f675d9, 0x7914de5868daa628, 0x2a14fabf9e37f449],
    [0xc8c12342a956cda6, 0xb3b092b4480f8d21, 0x7e9814d6f189d064, 0x22949d27c373e444],
    [0xcfc4773078016f53, 0xecc57aa0b759b490, 0xc7919412106e9852, 0x17855df635fe8e7f],
    [0x290d88a48120356, 0xf809cf8002a7e39c, 0xb71fad404cbc0207, 0x1082b0f264c61f37],
    [0xa3ae45a4e8380527, 0x36317a81b02b48b5, 0x90372a1eb637c045, 0x20431e5d3bcff4bd],
    [0xa9894b6a07d934ab, 0x972684923d5c7dce, 0xacc4dfaf83b8bf7d, 0x1a54b0b47d98fe83],
    [0xdc9249551c941007, 0x59d7e4d112c8e2f4, 0x324ea3c2231cca8, 0x173087cac123e07a],
    [0x2ba6a49e159d1cc7, 0x34b7ccd3bc0d0cd0, 0xe7cb31fa942978db, 0x1129fb969355253],
    [0x49dc903f4b3ecc07, 0x2f86de01bb8e6c4d, 0x58bf8b8d3a259ce5, 0x2bcd8e3cf988891e],
    [0x294b9c25a3287e47, 0x3a25c9b2c0c385be, 0x46ed4f6c208f2980, 0x1ae588627ea2e0c0],
    [0xeb2aea41c1782d8a, 0xd27cd7e3f26c560b, 0x3c98e9bbf805b0e4, 0x2a32d7716eba1cf9],
    [0xf3e7bc4ce0dc942e, 0x751dbc47ef7c6c5a, 0x2a56e43aadd307df, 0xbf40bc87a391c05],
    [0xa7005efc3c71263c, 0x6591f9ef2f0a7ff9, 0x4b190061361eb257, 0x251575500ce3526f],
];

/// Part 1 of the transition matrix for width 17, as little-endian limbs.
pub const P_DATA_1: [[u64; 4]; 33] = [
    [0x30a42ce645e76d6b, 0xa9361e239bc3417c, 0x5fcb4bdd705d89e0, 0x2a9b60e4ae169f3d],
    [0x19403a895fcf284d, 0xb2cd88f19e49892a, 0xf01ebd30a6f355e8, 0x1fed5b75b01e9f4a],
    [0x1c2358e9c305ad24, 0xdd0c6a868fd04716, 0xf177d7634721451d, 0x29db9bd9f3940384],
    [0xd06e86ec07b156c4, 0xd8adfc885e3d0bc2, 0x26960014e622db56, 0x2318f3a1f9ef5c63],
    [0x99c921b1b7666854, 0x915de9dda25afd13, 0x7a4fcbfba19cd94e, 0x9ea8d820c4e6ee4],
    [0xffb194a49ce026f3, 0x9ad224e8bb8af6e0, 0x2fb6bf836805d52d, 0xbe0a5f05b6f2deb],
    [0xa93721d70f289d0c, 0xb2585583ce45ff30, 0x48ac3eb5c84d44c, 0xebb48f5378773ec],
    [0x9f6dc46c503c769e, 0xbba219c88a5bd122, 0xf9ce47457bbc4507, 0x25cc52901aebcb35],
    [0x762d7a0738132a30, 0x1f626100151eeb2a, 0x6914fc09cfc35905, 0x116b0dcbc35fae76],
    [0xb6504de406348a23, 0x70afabb3e3401fae, 0x3b65465a5dcece68, 0x22ccb3842b2d75a3],
    [0xee6f63bf02995fed, 0x6607fa766534d5ba, 0x34fe81651f7b6d61, 0xbabc1aa6aa0d7b2],
    [0x6882c928212f8b9a, 0xd326f85881d1f107, 0x97235af10741c376, 0x23e3f31479550cb1],
    [0xc85c6422cfb5eeb9, 0x4e0582a4e8d84bbb, 0x99fb66c0d65b287c, 0x2027fe75d878045],
    [0x715b05800ef811d4, 0xa8aff99371a70219, 0x9081c60caedb5435, 0x8e0df227ca5a17a],
    [0xe0b624c116040494, 0x407a8e0b98b4959e, 0x18109412bef3c1a0, 0x2936d36a869b8b23],
    [0x8a73524c3c7758e2, 0xb1f08f087537859e, 0xaffb52a50cf59cd5, 0x3afb962f8ea2cd1],
    [0x15e00ce818ed8081, 0x95e50a16c5199d58, 0x8014f728704ad936, 0x4384592e42ace8c],
    [0x8425ce3700c0e7d4, 0x9eba895363e66ca8, 0x96a67ccf221ab016, 0x883b0b606695b0c],
    [0xabdf8361c4357500, 0x8af568ed633eb7b2, 0x115fdd75be988000, 0x17ee0034bef77cbb],
    [0x262712946db22156, 0x55fd03a13d9d8781, 0xd5822948fb7c4762, 0x7062de34f5c74a],
    [0xd53f634dffd91ccf, 0xe1243dca71d592ca, 0xbe041138607f0ee6, 0x7946f795fb6251b],
    [0x70ed07fcb6f58015, 0xae93b8d2eea81609, 0x3901ef651245d519, 0x106d7b2ded46945b],
    [0xd98c24edf1daba0d, 0xf8a54c52597db33, 0xae0d72f144b8ab37, 0x3070888a62ededf],
    [0xa2593c6a2fc15524, 0xd6f8a02ae114bfb8, 0xb2f728b2563a62d3, 0x33106bbde7d027d],
    [0x3718d5e1a0bc8075, 0x34e8fdcbb50ea4bb, 0x8bb7385e0b711de3, 0x2ae1b5b3e89117e0],
    [0xf75a0f1360ea5c72, 0xf2221d60b382d43c, 0xa5dcbf1e7d5ffde8, 0xab340604e81eb37],
    [0xda76a4a8ca9d2824, 0x8d2c05e30d1d3995, 0xca093b6d8826a46d, 0x1e9abeacdd2ff75c],
    [0x49cbfc75697ca640, 0x8ee0936005a35255, 0xaf4bf7f2b7f4d57d, 0x233f5274aab1d107],
    [0xd32e40983b62c8d5, 0x1e58711d79c87b56, 0x35f74d3a9b54b67, 0x1ac5a27a1a2ea0d7],
    [0x96790142d88cdd00, 0x7e08550ac91bf04d, 0x61ac0c0db87447c6, 0x1e2dbde2355a4d9c],
    [0xe63c330bbc8e5f1c, 0xc882e6b3dabab079, 0x98afa40dc467fd39, 0xa1cb35782612c79],
    [0xebd9ec8e20dc7280, 0xaf3b0c2433070cb0, 0xbc55b71a8aeb4135, 0x281ad4ade7262394],
    [0x5d4af4884287bea3, 0xa3c6e456ac5a6da0, 0xe91efefbe8f37abf, 0x240011c27da581b7],
];

/// The values of the transition matrix for width 17.
#[verifier::opaque]
pub open spec fn p_vals() -> Seq<nat> {
    limb_vals(P_DATA_0@) + limb_vals(P_DATA_1@)
}

/// The transition matrix for width 17.
pub(crate) fn p_table() -> (v: Vec<Uint256>)
    ensures
        v@.len() == 289,
        vals(v@) == p_vals(),
{
    let mut v = from_limbs(&P_DATA_0);
    let mut part1 = from_limbs(&P_DATA_1);
    let ghost pre1 = v@;
    let ghost add1 = part1@;
    v.append(&mut part1);
    proof {
        lemma_vals_concat(pre1, add1);
    }
    proof {
        reveal(p_vals);
        assert(vals(v@) == p_vals());
    }
    v
}

} // verus!
