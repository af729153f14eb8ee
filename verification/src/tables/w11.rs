//! Constant-table data for state width 11: the flat round constants,
//! the sparse partial-round rows, the dense MDS matrix and the
//! partial-round transition matrix, in row-major order. The constant
//! arrays carry the data; the spec functions read the same arrays as
//! value sequences, and the builders return vectors proved equal to
//! those sequences.

use vstd::prelude::*;
use crate::field::{Uint256, from_limbs, limb_vals, lemma_vals_concat, vals};

verus! {

/// Part 0 of the round constants for width 11, as little-endian limbs.
pub const C_DATA_0: [[u64; 4]; 154] = [
    [0x4ec2ef847f804559, 0x749e1706a82917b6, 0x868276685f0a69b9, 0x752af3c6fdccaf3],
    [0x18a4c1ace1d15418, 0xc0fa19c1b348bc7e, 0x68c7858ba8334301, 0x69503d417e25f45],
    [0x1c5fa7d9770a096, 0x3d22aa81ca3595e8, 0xb308ec4630f27b60, 0x25c1b121f33f4cf7],
    [0x9ff99b2273751f6e, 0x2d213e825c1d2f0c, 0x27c1456af4d7be4c, 0x23d6b55145bdb328],
    [0x79aa7d6b32acaeca, 0x14cf6bf37fe2357c, 0x6afc2b5804805adb, 0x1b357bce3ef3f2b7],
    [0xc9027e80944877d9, 0x3c276fe5689f2c35, 0x26ba499409894a6f, 0x28ec5ac0881c1e64],
    [0x4b8ed4005dd06eed, 0xbd398d028acf690e, 0x47d211c9c504c8b0, 0x2c9862524ac8a07b],
    [0xee92891c4c065ac8, 0x644cd43e290da0ba, 0x2343f30418078b40, 0x1f6e6f0ac4aeb7a5],
    [0xaae39407b9af2fdd, 0xcacc577769edea09, 0x6d21b2fb23c85fa7, 0x3db3517e233f8a7],
    [0xa2142247bfd0877, 0x79a8ac6e0cce9e9b, 0x479c5962eb05ee4b, 0xfc333dca4183dab],
    [0x7e250a5cdf99aca4, 0xf2b65e1a13526452, 0x4289b86197673b0, 0x1eed281978a8395c],
    [0xa7a416286555a7f5, 0xf42da900fdb4cc94, 0x89fc9b908bf45ad8, 0x2e370db23857de36],
    [0x21ed33400617a0a5, 0xf3375c12fc9092d, 0x297130c652409747, 0x109bb6e5e04c0eb5],
    [0x3ea3b8c4dc187cfb, 0x1650c618e403e187, 0x6f4db87d6f3f5f4f, 0x73f4a17d45ce4cb],
    [0x61b17417665eecf0, 0x3e1a22f5d838cb4a, 0xe75686d3651cace1, 0x1a3bcd45a2b1dfb8],
    [0x3eb4b22d24d73ab7, 0x7287433875a8b0c, 0x54ea05fd2611f0d9, 0x27214751aa86fd26],
    [0xba65b74892d34401, 0x8b17ab5f9fbc9597, 0xc684ef2415ba6662, 0x1c5463d40460415d],
    [0xa1a3c604d4cb745e, 0x2a783496bab9943c, 0xde590817347658a2, 0xf934ec1ecd7ad74],
    [0x2fc4bf65d310b1d1, 0x46d2a82aa5f9e65c, 0x4c6573f2f3b506e9, 0xec2ad1eca0b260c],
    [0x3c652279618acab6, 0x5758127ca9fc84c9, 0x3177a82f2be1532e, 0x10403c6f930519af],
    [0x2810d963582bf346, 0xd3d93c7bcd441a91, 0xfa81660831ab6db, 0x12cb831968397174],
    [0xbd62ffc681e71302, 0xeb8494d96a81c0fd, 0x92ee0eb31d53daf2, 0x2c7cbab33b6294f2],
    [0x1815dc90ec581bf2, 0x8580f8de0163679b, 0x8fade03b4a36c5df, 0x19e16c1b9123bbbf],
    [0xcdcb3c86708637a4, 0x9e44b72b64906ae9, 0x70313df4a533c004, 0x2d2734fdaea6da5],
    [0x184a190f686567c6, 0x80cdc30c5bf2d588, 0x3d1adfa990161fc7, 0xfed7ce5d50ca2d3],
    [0x52af1ea4d6ea361c, 0xa09d3e1f146ccfab, 0x544a6e12fd4c3c1f, 0x2533b8b3df21fce8],
    [0xaf097f3cb270f277, 0x24f80697a0c31b89, 0x495dfaf68cde98e2, 0x254a9b0da17f1d13],
    [0x153db72ac41ce566, 0x903ad7f8ce3cede8, 0xa020a0d2f82c246a, 0x52a196789e7e3c6],
    [0xb7c4ed1e7beee2c5, 0xa4c5a2af9845b0e9, 0x541aafa28753e763, 0x21df9d899981e100],
    [0x79355e880028c873, 0xa7c5a20168b6a594, 0x988f6de51fb019c8, 0x10e9254d95c04bf4],
    [0x843373b706c3e850, 0xf868d5f26a4d260f, 0x52958f29d07b60d9, 0x1872d404afb84249],
    [0x4aa9ab73c57a6f9e, 0x47d476dafa7b8878, 0x737201022b56a6df, 0x2f7fbbb32af67d88],
    [0x3860b4eb2b4ac487, 0xe4030ae8e08ebb40, 0xc2639e80629d7086, 0x27b5ad383fc085d2],
    [0xccec77de9c1d5b1f, 0x24b93a3807ecc3ae, 0xf86ea418e5b9fff4, 0x20a04ba73975ea1a],
    [0x907b034db93472e6, 0xf79deeb66240fb29, 0x804766f579f2a4ab, 0x4d2735db418968e],
    [0x6c453503176fc0d5, 0x91eeda701ebac8c6, 0x19b98aaf9492c044, 0x210ba11f35261010],
    [0xc6f12d5f306ec8ec, 0xced73ccac8d5bc8f, 0x38c4ddf176e856f6, 0x598c75413f3f843],
    [0x5379d1efd9e6d2ba, 0xcd9192070d7aa421, 0xc58af407bf730be, 0xf1a2d9fa8407e31],
    [0x12bd6df07a3cf257, 0x1f711f9eb5a9739c, 0xdcf7ffed4073e27d, 0xbaf577ac2621cab],
    [0x8c5872b4491b366a, 0x40161bdbc6387c95, 0x29ec7848b893ab3b, 0x23ba3057e5d9f14],
    [0x6cadd941eadb8408, 0xd517e35935e54a1d, 0x928fdff736fa857b, 0x1b6010fd6990d3e4],
    [0xd3cb53dcd6937ae9, 0xfc5cb030b03985d1, 0xcd9f1000db50da2, 0x2943fdadb9660753],
    [0x6e0f1012e4da40fb, 0x58f448c690fc8e37, 0x77a2ec26a56d3746, 0x9375b98fdd737f2],
    [0x70b4662bf96e8a26, 0x8b313fa2374b72c3, 0x1b19fabaf0f2e115, 0x1c124f9f3a267236],
    [0x499fc22ebcc58836, 0x36a5b3565aad7504, 0x93c54294446a63bb, 0x10e282b93792c2a8],
    [0x15ee1921ab5d8603, 0xb40971f0fdd5e1fa, 0xdf6b67b76dc46cef, 0x4bf8cd673199f41],
    [0x558f9b3d5855acf7, 0xea8b119ea11666f6, 0xad500e3b6eaeaa50, 0x1410cbdc261964a2],
    [0x8ce47d572ffc9137, 0xdaba582bc549c3cd, 0x4c68f1a662a47493, 0x2b17833b6c99d8d4],
    [0xd3d89b2f72627ec0, 0xb861f17809f2fd94, 0x292eb30427f1ca01, 0x1ac55a0f9d9d4983],
    [0x5a1c1891e91ac293, 0xc7792b20285cd0d1, 0x410e9147e5e67f89, 0xa5efc41de76c914],
    [0x6bfdb94cc023cf3, 0xc750b1acf7b07271, 0x22d144f4d5843e29, 0x1344b6db5439c46a],
    [0x6a75b5c503e71977, 0x60599258495fb00d, 0xf7c2a61ca9259e8, 0x1a041839e844cdaa],
    [0xd91b8a8bc5fc24df, 0xb284de4a45d6060a, 0x5899d9c4ad4c2d4a, 0x2555c529d366e3d9],
    [0x67ba62524954a724, 0x119ca32b55dc5e16, 0x41e601c9a95f5664, 0x137894d2c7ff06b1],
    [0x678343a13ab2f637, 0xf79e89829c8c9645, 0x94477925f4dd3bce, 0x1f2ed1b26cfa3891],
    [0x946db4ba11b52350, 0xbff2d44ab5d440ad, 0x200122be5c5011f1, 0x2072b0c4af46fd5d],
    [0x35c57a00338511ee, 0xd234a0dcb236c7c9, 0xefc4ab5bb12e3fd6, 0xcab3a8e77c43896],
    [0x668652e15a581cb7, 0x969f14ba81be4df7, 0x7126f96ca884358e, 0x400e867efb3a888],
    [0xc369c361fef0e09d, 0xab181ab426631fa4, 0x911a4b05478f659b, 0x594f14af7027250],
    [0x98e012abf0ebb722, 0xcef3b6a6a269b971, 0xf3840f78d3f3ed67, 0x171345094adedc87],
    [0xaab478190f81e242, 0x7b472d48da1296ec, 0xffa10d76c25c0186, 0x1fdbee4f85800afc],
    [0x14828e0c18ba8753, 0xa904cab582e411ac, 0x299fcf41738c50f5, 0x1a37c8b010fe5a7f],
    [0x939a7f73c5075b8e, 0x107b6cfb03b1be9a, 0xf2d3a31b3af2c2cc, 0x59cbe918d4cc5dc],
    [0xf201a5e292831b33, 0x7820a7f2a075695d, 0x991e52178a020d3b, 0x2f0054d719e7f0d3],
    [0x5950c0639d18fb83, 0xb5a7fb60f9179dc1, 0x5ca9a56840d99776, 0xd3353ad739baccf],
    [0x25153661da3e94df, 0x691cb53afd7430b6, 0x5e2e9fe62fe9e824, 0x507a8c3d3f5f396],
    [0xdef5efd8c38d9174, 0xebd43ef50caa5b21, 0xe2ba917a96b21934, 0x1eab1d2b44f79f50],
    [0x97e77c2aba9f25ed, 0xfd8a5a4dad512868, 0x3b46ea4361c8d29, 0xfff97abc5a6318b],
    [0xefcd78e1b16ded07, 0x1741ab10f3287369, 0x6af5b8f2e59beaa0, 0x228907c146b4efa5],
    [0xe937e3a4dcc2d0ce, 0x5aa67506d03a50e6, 0x9db0c647ad826fb7, 0x183a209d14af4a1a],
    [0xd23558bd75496d2c, 0xa32e1b703c3127d5, 0xbae684ae12271e93, 0x17052b40860ecfd4],
    [0x28b373bc6a5e564d, 0xc8f269b3c97fc2, 0x3a5fb53fb055f816, 0x3a61810b60e019e],
    [0x73cf1c39b3bde3c9, 0xe885dcfe482c3ab7, 0xb07f8e8d537a8381, 0x296d0434d977a105],
    [0x11dbc3eaecfe86c4, 0x184882d3763ce879, 0xbf69125684ae20c7, 0xbfac73b8e7f9882],
    [0xaa1e9089677ea937, 0x873e21ba0f0b124d, 0xe3e7090111aaf1c0, 0x13900e213c48cdef],
    [0x700ddcee31f78bef, 0xd90a4c7cf37267b4, 0x69369d8a5b029401, 0x19f5725d859bd994],
    [0x673414603f341f22, 0xe8700497de4c3a32, 0x69d902fec064d87f, 0x10f8c20b30622bb7],
    [0x5813e84875f7c267, 0xdd9e5c09b8ff168, 0x27f3bad1e4c9e4f2, 0x1a5d44a9d6eb1667],
    [0x51ff04af5ca4f7b9, 0x9405bb080408b01f, 0x2ea549efde342601, 0x285812d1f7e9c565],
    [0x65542a3ec67644b4, 0xaec891e7a7301778, 0xdcb6421bbf15dcea, 0x17b5d657ca524c4f],
    [0x16ee8781b55c40ef, 0xa449a5e6a5654dcb, 0x9fc731a80ebf8b9a, 0x1512120e54def611],
    [0x44830c07afa25700, 0x8dc8116c05f09e21, 0x817ed66f0fed9329, 0xce6fd9ff326d991],
    [0x25bf1f2b2114bf80, 0x7dbf138a586e6fa4, 0xc027522adca6e66, 0x14c9e544ffe86f31],
    [0x7ce61fc4456dfa25, 0x4fcc9a1e645b7e13, 0x6a941cdd2242c41, 0x2e8ba8e57fe1c4ea],
    [0x20d36aade9fae908, 0xbe8c62ca1db0f771, 0xb8ac7cf0e6856170, 0x1a1fb2e69ebf43dc],
    [0x7ce207783a2acca0, 0xb5509c3913fffc72, 0x1d5857e23dec1130, 0x599e10ddc716d70],
    [0x8de6c47de2b6a036, 0xaa42a34faf67e0b7, 0x8f843e0842ccd0df, 0x2908ace556ff1f36],
    [0xae34ce150d1b8405, 0x92eff23f524d6faf, 0xf11fe38d64454a62, 0x1e80d381cfe184b2],
    [0xf26004da5b5d720e, 0xb6381f829fbfcdde, 0xb3edc92ef95e76fd, 0x32c3b2a8872c39f],
    [0x3175097f63d0d402, 0x5f21bb6109be64cd, 0xb02a58ddae87d516, 0xf058306e4f397b7],
    [0x935b58b8a2d0d1fc, 0x98dd8ff90eeafa7d, 0x26d0def5ee596759, 0x2a978242c551fa86],
    [0x8694a7363d1ca0b1, 0x70fa1c31033d4afd, 0x6f8a2a438cdfc86b, 0x2c646cf8d9ed1474],
    [0x3be8f94e3f9c8733, 0x2aeea36671543287, 0x71f95f1eb8a5cbc, 0x1cc7d59c756a8e93],
    [0xf0028872c14fd8eb, 0xd21a80a3792d0674, 0xfd7128d041c430b0, 0xd09d0e6b64757bd],
    [0x491a095b6a19d082, 0x19451473b578949a, 0xafe18576403080ed, 0xc28d39d145cb8b6],
    [0xefaabecc37ceca1d, 0x72e4340d8085708e, 0x9898077bcbd76e5, 0x22a2a85f132915aa],
    [0xd2ae77860e203a6d, 0xf3111ddac52db08b, 0x97fdd9fa2c45f8c6, 0x1ad68c4e148a6c61],
    [0x9541a52186cf7477, 0xb72c3953a82c2bba, 0xe27a0e670529fbf4, 0x19b59a4eb2398896],
    [0xd850dbb3af50559d, 0xe28d3d5d51abbeb5, 0xdbf7674f8002a59e, 0x1e3aeed61e3a7bc6],
    [0x578a3cd163c4c161, 0x45207725227ee5d5, 0x1cf7b9545c5dacd2, 0x237d14fe10cc10d4],
    [0x1663640c81cf44c0, 0x1a8a4ddf1de311b5, 0xf5d7b15e89544840, 0x7a561b03c03a856],
    [0x7d33fba8be729a1a, 0x64fb1660257a4b9d, 0x6893985647a3ddd, 0x20e3c12021f53fc2],
    [0x50dbeab40b10b65, 0xe03aa7e427c624c5, 0x6e9e1a271c0a8565, 0x11cfdd5386f9ddf3],
    [0xc9d9a16c7815b3cc, 0xc924d1556918eb58, 0x5385a0f101b699d0, 0x97b90f7016668c5],
    [0xbca14166af70a8b1, 0xfb4554df41528acd, 0x123e27e80f46b8eb, 0x23dd4f8205e9cb9e],
    [0x400f32d0678b5f90, 0x6c7de4704668bae0, 0x92069d0b20c5ea63, 0x2004cf48392d1d34],
    [0xb392897922b15ae, 0x463d6f61b3a51b19, 0xaf4af5b3d2cf4e3a, 0x10efba7ebb220de9],
    [0xb2b6139b31f0e659, 0xd3aea8c6694f52f7, 0x9ba95f2b328f45b6, 0x26ca8fa32860470e],
    [0xe227abe994b3954c, 0xca8dbc3bd9d42894, 0x3bbdc1234b042946, 0x2e7a6096889e932c],
    [0xe0ed5bcd238fa4fc, 0xd01094d20142ce0b, 0x5717e5134d31d966, 0x2b2a5b222000c748],
    [0xc3913457724d688b, 0x2db926a82a90af66, 0x6ceed95719ff4e6b, 0x5d252566db243c2],
    [0xa434ceea8e7e8734, 0xde502f4cfd2e5e67, 0xf833834f8c85e4cd, 0x3016d7a342ccaeff],
    [0x3d09da15b9ea85da, 0x856674c2956c74e9, 0x5f5a8b5ec81fc76c, 0x22e4a5742720cc54],
    [0x805cd097252882b0, 0x746b7d2ff4d3f9c7, 0x651b425b67a9c428, 0x158c039583d91471],
    [0xd7b8351b3104288c, 0x6f0a4a23f6bb808d, 0xa18105d36d545263, 0x2e2b9193aee7573b],
    [0x64cae3a4ab0267d6, 0x53434f9db50041bc, 0x63bbecc27af0e886, 0x15288eeec0779778],
    [0x81ec6993806fcbc3, 0xe9043d207384a512, 0xfde4fc51c231fcb1, 0x294ac3d23fadc39f],
    [0x4f7921bdefee4dd, 0xa9baf8790d101fb0, 0x42df030cfcb8775e, 0xc994f0154a60],
    [0xfcaee753a2e449e2, 0xba5ad61c6ca408d6, 0x3818a4eb54f3755f, 0x23be197c83df334c],
    [0x8c4b104f92e66dcf, 0x5c7c500292cfcdd8, 0xdf7838a25e613eec, 0xabe4f60f5710062],
    [0x92df86bd03f69ba5, 0x17393b42fd589e84, 0x8d03a627a1ac38ae, 0x22d9eea2ce981be6],
    [0x3800b670faef2c81, 0xcc8ba75075bdec7, 0x77902bd68da43d7a, 0x17fd7f4e675f456e],
    [0x32bc7045eb4c0e7a, 0x3a9a6503290264d7, 0x2b85bd9b1b475e08, 0x3cbf13917d8f696],
    [0x4a6a8e8c1f29f43c, 0x3bcf7a071c9e547d, 0x14c29bd552859367, 0x13e3842e78b6be34],
    [0x5ccc657e00884f71, 0xdaeb37d6d0cb2ee1, 0x7e6205a356d8073e, 0x2638bcc34e7ec97],
    [0x7d23df01dd11bcb8, 0x498c8c3520cfeb8d, 0xb29d9d56794c02f0, 0x1824a36f9b33cd88],
    [0x42a0d41424d5b97c, 0xcb89acc868f1db0b, 0x747a28a181719770, 0x2f64d3e9e9660efd],
    [0xf6ed94b771d7ee20, 0x20eab7240caafbd4, 0x31cc63d2bcb77b74, 0x27e976b95c1db0a4],
    [0x7d7dd6d4d8aaddff, 0xf687774a7b677edb, 0xa6f1ad9223c843e6, 0x71017cf059038],
    [0xd6bf495d74deeba5, 0x41a00cc20091402, 0xf3d9f4d492100367, 0x263e1eb69b7b2c87],
    [0xaf9b00dbd5b14a27, 0x334e137c224da75b, 0x6123d8162e879b6d, 0x1dbd8f7a790ee4fb],
    [0x850831879d9d7a2b, 0x94d6c90e8f2e35a1, 0x43484dc04f5fdd16, 0x1df0f444008cdfef],
    [0xe95e2486c62da8b9, 0xf4ac15c4a5c16768, 0x408914036f0fc449, 0x2ac29049462ba770],
    [0xde4d4f9d8c77f3a8, 0x8978ac6f623f3ac, 0xb47db90ffdadb12b, 0xafee4216cde441a],
    [0x461403d39a1e9895, 0x914024e3398ebbc3, 0xc83d7072bfbf2ba8, 0x1f5df5e1d3372dcb],
    [0x5bf25dfa5ea9732e, 0xb16824fd85c484c4, 0x4bb604db662a722b, 0x11c09f4be443354],
    [0x55311c0672cff942, 0x4d1065b278b4643d, 0xf942b5fb23849db2, 0x111ea5feb756eb07],
    [0x509d649a81f940bf, 0xb6036acd702bbec9, 0xdc30e0ed53aeb6ee, 0xab7c194763587f1],
    [0xd4c0f8faba0daa05, 0x3f19976943d20e30, 0x3f9dd07759a4f65, 0x282c5951f9881916],
    [0x8ea746ebd4d25ee5, 0x983f32cfda8bab8, 0xa39f7b4bd10176e5, 0x23b82721a7cdaac2],
    [0x5bf79c8dc91c792a, 0xad29b29e531649c8, 0xdfad91a56a46ebb, 0xbafc22c31e73587],
    [0xa9abc2da898f9687, 0xa0d677facf1f3d89, 0x71cc8815934ce87c, 0x24710e9cd9f6f42f],
    [0x22adf1c7a4d7ede8, 0xbe551a55e250e44f, 0xb5d772a07571e0e6, 0x2475ccab50e2c13f],
    [0x75ae5184e9ba2441, 0x68493aa94d638335, 0xa31782f2acecd7a4, 0x17326fde68e193e4],
    [0xe67c60fcda498459, 0xdc556e785718d196, 0xd4009ee0a3f3b50, 0x1d044be025c79f61],
    [0xe635f22ce8fb3b61, 0xfa36adfa1251d46, 0xa044e38b1c199d11, 0xbc38517b0bedb66],
    [0x6d91ed6969b45c27, 0x1308cc205583a9ef, 0xd21cbd4ecdf0d4f3, 0x218a7ed7b5b4e39],
    [0xa3b4fbdddb068f36, 0x54b4bf5aa88b37dd, 0x6089f9bf987be868, 0x70989c23efe1c0d],
    [0xc8df5e91ea930c7b, 0x974023d321780e91, 0x701027346163a4c6, 0x11f0a1f2d5894630],
    [0x46b4472b1e68c390, 0x66cbfd5826f7af47, 0xab704c72dcc40a55, 0x9070202bd144c45],
    [0x2c3470d8a80138f7, 0x6a1ae7b0a90eba22, 0x6747596c387450ce, 0x243392fe4cd6ca6b],
    [0xb4229681117a5da9, 0x2df8de8dfadcac6c, 0x2e5d0e67df9f4b70, 0x1a94265093ab4406],
    [0x5e43b6564d987b1c, 0xd24d7bad16a9e6e9, 0xbaf9ec7b1443357c, 0x1ab31ce49e37f690],
    [0x150fc3b559128c5f, 0xf25b208d7ed8e526, 0xb03c9658e97b6342, 0x2179ceef0feee3b0],
];

/// The values of the round constants for width 11.
#[verifier::opaque]
pub open spec fn c_vals() -> Seq<nat> {
    limb_vals(C_DATA_0@)
}

/// The round constants for width 11.
pub(crate) fn c_table() -> (v: Vec<Uint256>)
    ensures
        v@.len() == 154,
        vals(v@) == c_vals(),
{
    let mut v = from_limbs(&C_DATA_0);
    proof {
        reveal(c_vals);
        assert(vals(v@) == c_vals());
    }
    v
}

/// Part 0 of the sparse partial-round rows for width 11, as little-endian limbs.
pub const S_DATA_0: [[u64; 4]; 256] = [
    [0xb0f98fb799fefa2e, 0x8f219dbd924d7786, 0x88f49e52fce7167b, 0x26dba58ade8cda1],
    [0x3b11373dbcbf7134, 0x92bf093cb902a751, 0x7314f5429186856d, 0x239bbee0bd053658],
    [0x7056f9b14f47f64, 0x16f791caa3054034, 0xce77475eaa398fc3, 0xac0bca8c1a15d53],
    [0xa18ef5b7492cdd13, 0x30be6407d603333b, 0xa4c536b728ee797, 0x11ad8281442fceb4],
    [0xf54c501d0d4975b1, 0x5b070620841d9035, 0x4264264e7dc4f401, 0x2927ae7db23955f8],
    [0xd66c403cb9110dd2, 0x40ec8231463b84c2, 0x302e721c00003feb, 0xd9455f3c59c9ea9],
    [0x601f3038240df458, 0x218929f5c6548a6e, 0xae3eac1f457e2e02, 0x14d50f175c19900c],
    [0x3ae01d5ac3cf618c, 0xd828affd132d9ac4, 0x3901b9d7a12626a3, 0x237b9200970d8432],
    [0xb79d3fd99da05a2e, 0x606cba6bd174d94b, 0xcbaccbe73156524, 0x19d66d04ca7851e],
    [0xfafdea4a97004061, 0x661d28ebcf7b723b, 0xa6e745ce9d3581c2, 0x2ca5d1e4cd8007c2],
    [0x3d6d63f3799fd407, 0x5bfc11a529d863ef, 0x6c3555b48c6dc1a9, 0xd54ce53ed816054],
    [0x505a9f53e2969b94, 0x4868b781085a292f, 0x2740cfed6b692c5e, 0x2c21c6df9e87d094],
    [0xbaad2e18c4c7e128, 0xbf3bdc02a9b61fc2, 0x6fa2f0e50faf512e, 0x6351ae4eccfe35f],
    [0x173857efc040f95b, 0xc6833ab9fbfa2013, 0xc2e47ce015f7b324, 0x1c86e871f69f568e],
    [0xe407bbcddeee09b8, 0x5097891f1b1cefea, 0x7ae23d64f217d072, 0x2175813936c31462],
    [0xffbf0f8590315eaa, 0x60b065c25e979e5b, 0xc746225258ebf924, 0x2ec44113a689ea96],
    [0x26ba637f3d4eeb94, 0xc8256e85fe5a3dba, 0x460b678df8d1a10b, 0x2facae956086465c],
    [0xf6b2e3f1ea0184a, 0x33aff5b7f6e6ca7c, 0x7a5751591a3275d2, 0x1865d5f9b9b92031],
    [0x55680536a2173411, 0x4391fe1da096b227, 0x567219a93b8df6b, 0x412169c5bd61a20],
    [0x6cd9dd6402456513, 0xd1cd1556ef5adf98, 0xd6176c94ef8563f7, 0xbef9d4f49681702],
    [0x93c61f64d95d881b, 0xa6b4a622b7c3b29e, 0x5751a9f355309c0, 0x10c7e674a66fb259],
    [0xb0f98fb799fefa2e, 0x8f219dbd924d7786, 0x88f49e52fce7167b, 0x26dba58ade8cda1],
    [0x265502624f3e6764, 0xc0790fe76e390dae, 0xf05046f36c7e664f, 0x1934288830ec4d6e],
    [0x3458a459fabf9a8d, 0xcf8f0a6f9e3e695f, 0x15bad7638ab88a92, 0x21fe8f4f8f4fa086],
    [0x721d96f8f7e2bb1a, 0x5da5866968c6abdb, 0xd1062226b3266d9, 0x4e0a4f483d51dd0],
    [0xfe523cddb5246ea1, 0x3829e28811223aef, 0xc7b3fa95f40e8d21, 0x2d3806f1ea209c26],
    [0x4a04b1b03c16d792, 0x19c624671782c010, 0x8bcca318850c76b, 0x5f7a9f8fbc81040],
    [0x497276a7366568c0, 0xfff9bbc21b4648ec, 0x73fca45ee8f69e5a, 0x1c429b4f17c25e0c],
    [0xd1e13a90a9dfe059, 0x4c9f3251000383d1, 0xa0615eec76d2f51, 0x2a5f492892b38ae1],
    [0xa809245cf2632846, 0xa0cf0a665dc38be0, 0x84b8ff7e28347243, 0x1eb8bd92044de59e],
    [0x627cd0f48429837c, 0x59a11fb9fc95bc1b, 0xe411443393e24629, 0x65ee5b5e74d35c9],
    [0xa99dbdf6578bbe84, 0x2a20d7a313647297, 0x7078e1fe50cbbb36, 0x10829a880633680e],
    [0x59e0544be9935d3f, 0xa9d9f162d6169db4, 0x9cc8d2974f083c61, 0xa83ccb34dc841eb],
    [0x6730f97ddd2c358f, 0xe02525d4378d81d3, 0x66d7020e8bba5f7e, 0xf8f126cb3833ae5],
    [0x21b12d2ec9f7bf24, 0xde101c1e831a4ad4, 0x9926f5804752bfd7, 0x2783557cf3c6a0b5],
    [0x19a28cfda9b219fc, 0xc6373133a25ca40a, 0xb64c4425917f2fa4, 0x91f200acb6c0436],
    [0xa5239385099caaf2, 0x8e97a11fb4856e22, 0xf70a700fad108864, 0x1e4a28170c7a5034],
    [0x3982252f1173dfd2, 0x95baaf7efeface38, 0x1dc59205c4b29f8b, 0x29d63ae313de07d],
    [0x4cb5e5e4d69bb7ff, 0x4b101577643ef567, 0x64418fefd0fd0f21, 0x188a2d62c5e35196],
    [0x4c2d9c1857d2dbce, 0x68cd8851e1e86b5e, 0x4a04c7fd4cf7ee0f, 0x230324a35fb7ded7],
    [0xf765c6f10b3d3c88, 0xe9a06aa4357fd66e, 0x864beace6201c4ae, 0x27e120b07d441aa2],
    [0x1f3e32ef06a1dfea, 0x5215f352dc680620, 0x54b97bd61d43e88b, 0x2d6a0fac700c78ef],
    [0xb0f98fb799fefa2e, 0x8f219dbd924d7786, 0x88f49e52fce7167b, 0x26dba58ade8cda1],
    [0xe2003204e1628efd, 0x50b04ed072d36155, 0x94098fd3804b092c, 0x19214ffdc30bd798],
    [0xff9ceda492c98752, 0xc0a67d43e4255f72, 0x682f8ef66ebefd1f, 0x2f15bce2fbc19f00],
    [0x606dc22603b41b05, 0x3ec497b6dfcf434c, 0xd3bd2317d7339987, 0x215fec7c7c775fbd],
    [0x2f2af19ced2eb250, 0x8028f23ff976462, 0x2b0d9e49812da55f, 0x28965510c52457b],
    [0x829181d1f26c4988, 0xd389a39737394a11, 0x6a311e90c9c37f0b, 0x2798d59530d1d41a],
    [0x86906bfa71cdc1f5, 0x51b0a983ae93877, 0x201141b40f0e818, 0x11542d205011b40],
    [0xbb9573911387eb31, 0xca7854ddc67e51b8, 0xf5ebc2174ac06d27, 0xbaabe59e61426a7],
    [0x1aff2b99eb953a79, 0xa52f3c34352cee55, 0x9c04d9f2aa6cc56c, 0x268937a0fa2e75f7],
    [0xd51624f0beb1528a, 0xbb36f9f3ce5d75e9, 0x9e915e78112c4b39, 0x1bc3e33a03e62006],
    [0x7f679149ed53d3bf, 0x8018c303cfa8760d, 0x99236443a4331508, 0x1bc41b0548983791],
    [0x8ad3e430a43c59dc, 0x5adbc6887e96d27, 0x80139be75dbf02d2, 0x2ee37960ab5cd930],
    [0x6e4b68f2f3b4e867, 0x2d7862361a4a7ada, 0x2540dfe7deec2ea9, 0x1cdde27557fa9f3e],
    [0x53d130e9ab7c3a25, 0x2c0c7fee8c1ea45, 0xdf6cb05ebb6e695a, 0x2215b23457c72fb4],
    [0xdc68c4b6756c1816, 0x4d16fcb0a11b18bc, 0x169dc3c1b3efbb54, 0x2c0a94bae0c8d81],
    [0x8d51506b0baab6a, 0x37526594d94bee10, 0x9970a7670ee85378, 0x9c4335fe7a50288],
    [0xe31704c748ba9db1, 0xad4e43f646286e64, 0x91a61e0e2e38d5b7, 0x1d54c7fab67c393a],
    [0x180a3547f8f41b73, 0xc411ef4281917824, 0x16d0f7bcd9c3aee0, 0x300b58fb17814ea8],
    [0xb1f1259823889f0f, 0x82834c90dceb506e, 0xf74da38a4ce42de3, 0x27855ac29fa4b1ab],
    [0x66a2613a03b04874, 0xc3ffc41113b77bbf, 0x65ffb5a9fd340f8b, 0x2259c5da3d87b0a0],
    [0x225fb33bace62388, 0x6e8e95f7091a921d, 0xbcfb1e96d2f6a5f9, 0xfe5e47f909ecf12],
    [0xb0f98fb799fefa2e, 0x8f219dbd924d7786, 0x88f49e52fce7167b, 0x26dba58ade8cda1],
    [0x56d68cd4c839643f, 0x6dcf7ae5f8dc1524, 0x669693a6ee517fe5, 0x2cf624bcc1b57941],
    [0x36c154c5ecf94b54, 0xb33a6af7b521472a, 0x9dd2690be9979691, 0x284fc4f8f116661b],
    [0xb7181c0aac883733, 0x2d9355d63fb15fb7, 0xd17cffa8507990c6, 0x15f336d2348dd647],
    [0x2ab9ff386beb2d09, 0x518484aecc9ebbe4, 0x3327f4009f9d0ad5, 0x2b097ff93c8883e6],
    [0xd2b7d1fb648d1cbf, 0x172236a4461c5f13, 0x80f960a98b948c1a, 0x2b0e0d9bb68edcc],
    [0x2b1bcebcdd3eeba6, 0xf829a890338ebf64, 0xe303f1fbecb67e2f, 0x21fb862d3aa99493],
    [0xd094ef3a6aa80e01, 0x4ba950de76aeef9, 0x4e5cde3fa1a024fc, 0x1d742e5595d6548a],
    [0x95f11520fb314713, 0x9025e161a5b3dbf4, 0xf208aace4afbe88c, 0x2f00e60ddbc4d8cb],
    [0xc172fc808e6e20b9, 0xec61b2f7ea633aac, 0x78d7efd73191a38, 0x937367d77f41edb],
    [0x1bea7cf817e0501c, 0x9bd9990c8e0cb2b5, 0x3e7b6f0ffc58f95d, 0x20cc21ebecbeb50a],
    [0x50e7e0d08468ae60, 0xa739a3c24b2d99, 0x60abd76aa40279e6, 0x2153722c6eeac70d],
    [0x18a4e1156546957e, 0x70d658bc86565a56, 0x7a55842cc1c60892, 0x170429ceffee6527],
    [0xd920f1c4937696a4, 0xdd4c6589118f6a60, 0x4431bc3ed315ae4, 0x2881b86019bc6247],
    [0xeebeb5e020817091, 0x5e194bd34f820433, 0x49072133d80f299f, 0xf75ac5249bce095],
    [0x18c0bf096b8c95e8, 0x2b8328bc432b4373, 0x41b03d1a4cf0e9a9, 0x9a487d60d8c77e9],
    [0x61abf5353640bcf0, 0xaf980a47b389cccf, 0x204bed2fba9ab541, 0xc4c7b8be9ade992],
    [0xa988c50dd0a66e90, 0x6c0d37640b2b1c58, 0xc57cdc98bd5b3232, 0x13c6f29a13b808ab],
    [0x85a2d81e316d96a2, 0xfa78b60f89780b93, 0x3842c43d906862cb, 0xdcf77d7d72c03c4],
    [0x9b0996fa64a5f7d2, 0xf2285e18c1882da4, 0x7e589cb3e93a7240, 0x1af4ecef93add6d1],
    [0xc3e2463ce54554ec, 0x7af3bb0a8eb50236, 0x4078724a58c869cf, 0x16500f1e2eb13aef],
    [0xb0f98fb799fefa2e, 0x8f219dbd924d7786, 0x88f49e52fce7167b, 0x26dba58ade8cda1],
    [0x2793c44d1ecbc66e, 0x4835d8297a65bd03, 0x710df44a538564fa, 0x2fb22f7c0dcc8f0],
    [0x7eab0407571a3cfd, 0xc61d1d4e39ed975d, 0x839a6577665c9247, 0x186c3597d2e95409],
    [0xbbf961d024c4e780, 0x2e771dcd9e44918b, 0x48e65fcffcae8ab7, 0x268a806ff91bdb78],
    [0x2a3ac0fce7229618, 0x91a7ce8ca75efc93, 0x8cfde291a9c27c8d, 0x22a72134e6b34423],
    [0x3b362db38b806990, 0x2d578565b6f3510a, 0x483d94dcb59ecbb0, 0x2f3d93275b7e8f80],
    [0x94c782497dfedca5, 0xfce247b29e3fc1e, 0x6f2ed000fb0557da, 0x2188074227737f5],
    [0x3e35125e908e92e6, 0x643932100bee800, 0x133f5aa5e413d7ec, 0x2795cb6a4c716bfb],
    [0xe38ed2dae2f3e890, 0x198f67da9022257a, 0x9e1e1800a4a64e59, 0x168669f585369a0e],
    [0x70c5295bb287cf05, 0x9463ced766f99e3f, 0xe5ce9b45a08becec, 0x1ffa32112a81bc68],
    [0x970d35471343f1f2, 0x6147f9712ad12bd0, 0xbf743d990721957c, 0x24305de92f0bb0f4],
    [0xd0b4a182cc3b86a5, 0x1d10dcf60fdc1b88, 0x1e5a5cff064f3ae8, 0x2553d6aca650db38],
    [0x3e249e6f660738a0, 0x4290120dc1121803, 0x76b135c9d120317b, 0x2f3c1b421f6d4783],
    [0x550b134d60301858, 0x4aad9ec2c5c27404, 0x368bbf0206d685ea, 0x245b4bed81074004],
    [0xaca8020cbf92a015, 0x4f86a1195041c3d5, 0xd0a7038f8a5bb9fc, 0x5d189b960a83b4c],
    [0xcf9917f9dd45eeab, 0x6c992c2e571bbaf1, 0x74803f7569b25eff, 0x2842fd81790b045c],
    [0x46af74db06e6fb4, 0x5dab4505e9194ce2, 0xdac7ec4b9150635e, 0xbb806b253f4b014],
    [0x429e7b8bf9f57291, 0x74eaec3ad8217a45, 0xd31b52a3b3380ad2, 0x1130802bdbf1ce4a],
    [0x8689c98c118887c1, 0x5c45d3ff29a66582, 0x14155de365d7157d, 0x236b083a817afa71],
    [0xae91e81344f76eb3, 0xfcb0944e37f30f57, 0x1ca8a5128ddb9fbd, 0x2b1118c83315eed1],
    [0x5320693ce6530213, 0x66f2ccc0d6f926dc, 0xdd2460b3d3390146, 0x26c7bf0a07d43c11],
    [0xb0f98fb799fefa2e, 0x8f219dbd924d7786, 0x88f49e52fce7167b, 0x26dba58ade8cda1],
    [0xea837e9118dd92fb, 0x552810f28b4b9270, 0x334e836d12eb72f7, 0x62d864c511b8873],
    [0xd9415616c14beb9, 0x7f8ef7d5bf15e7ff, 0x28c520a7111ed228, 0x25587eb09d2cdb66],
    [0xa687af15b3370983, 0xeb82f1355eff6272, 0x2190a88a9753741, 0x20344cc75c818605],
    [0xca99d6fe9e082c57, 0x9fa7d9e14624394b, 0x92f12586b73566a5, 0xcee668ab7cafe0c],
    [0xd4b7ae6efefeaa72, 0xdd719e4304f79301, 0xc7fed3b8aa272d37, 0x41098b20212f04c],
    [0xd5ae3dd951529dd2, 0x81d1915da932545a, 0x358a649faa3ff6f, 0x193870bbe39e6210],
    [0xf8aca53cab46f16c, 0xa320575c43ec64b6, 0x2c5910e1b9adc7d1, 0x1d86daa8ff221daf],
    [0x64dc30ffc6c7e36d, 0x27a18b01107b0181, 0x36795ec2d6993a2d, 0x25923c7c452a59c7],
    [0x4812aae0c357b73e, 0x6130b9b3ae90356, 0xfefd5d1218289e83, 0x166f933a262efecb],
    [0x2ca63a19b70c1c50, 0xa6a08ed48aaeb56, 0xb43ffbdd166707d1, 0xe710428c953a764],
    [0xb23a9bf5e9bc26b7, 0xdd7be5eca7445e35, 0xbb7e0107b7e99a1a, 0x14212cc175586510],
    [0x502299515bd1db4b, 0x5ca180e982a89628, 0xd89ad077f917aa3f, 0x7922b817e326535],
    [0xe0ad518bef18ec2b, 0xac0d79a35c1297c2, 0xd24450b5b6910c3d, 0x17b1b0209846528e],
    [0x2b917d32201bb0e8, 0x6fa80a2c9b91b53b, 0xce346b78e781ccb8, 0x1fcf8f4d3ba39e14],
    [0x589f91d3d667fd7b, 0x9c75dd559c78e48, 0x9a909683113443b3, 0x1328e374326bd95e],
    [0x9649f4a77d23d0be, 0x6d491ec8859ed1f3, 0x4a4961f0d34cd0f8, 0x186b0b6795393cfd],
    [0x71d071fa54e8ca21, 0xb052753dc15fb43f, 0x99d3862f90ed2138, 0x22866b41e186a1a4],
    [0x59a3fca3fe10010a, 0x78f1c6409972912f, 0x8fcdba2df567658a, 0x1a21712b5674e92a],
    [0xca62baea5e7a7f63, 0xc8e41ae53c718b5a, 0x8f26d4c287a790ce, 0x169c1593ef30d80f],
    [0xd541e7b81edb4d69, 0x6fbb95ecd84ee59e, 0x77627b6f289f95a9, 0x10cfc561fd166487],
    [0xb0f98fb799fefa2e, 0x8f219dbd924d7786, 0x88f49e52fce7167b, 0x26dba58ade8cda1],
    [0xede322c7f27db564, 0x510f25d683942e3f, 0xed4f0a14f06a691, 0x2f44dd9b3903bbe4],
    [0x4d33f2605ae3ed6, 0x7e50ae175e45f097, 0xd6618060b85965e3, 0x1be695baecbf688],
    [0xe11c604e8b5e69a6, 0xeea9b0953d028fe4, 0xa0d35c105ad54d85, 0x163a43dabce2f70e],
    [0xc3c9114da88bb7f, 0xbf92a1efdec6320b, 0x7db32968d172b733, 0x2956dda14554b0ab],
    [0xcb17d71b9098dbad, 0x4dd285ffa9a40d9c, 0xd837952dae5a9c49, 0x10f41dd81a27925b],
    [0xb8c99157753013cd, 0xe70275c10a6409b7, 0xcbdf6781f295bc0e, 0x280ad3fca7cff3b3],
    [0xb8bcaafdb4266aea, 0x26e64d0c6d39bb5e, 0xc360410aceaf277, 0xf12826ee6e2f469],
    [0x92e07890d3fd942e, 0xfe78427250b0fcae, 0xc6375c87d3fbbce3, 0xe9f48dc6fbc4706],
    [0x9d9257a1573c1f3f, 0xa2e1a2b9f440867e, 0xbfbfc9351f2ccc84, 0x1c7a967977120a43],
    [0x3bddd88aa3dd3d75, 0xb50fb09410e9ce52, 0x4c1893c15b90c6, 0x19d6f7ac7339519c],
    [0x65b39cc8114b32aa, 0x921cb181be388e, 0xd5a8a7c74fe697b8, 0x1b92f3e79d7fe18d],
    [0xf463a1221b11e097, 0x7ff816acddfc3605, 0x42be4d99570e60ca, 0x229986010810512],
    [0x96f29123106f15e4, 0xf2da2674a77bb651, 0xe026090ab505be76, 0x17f81154836c1b89],
    [0xa9f6fc4215fb8d5f, 0x7589ec1282fbb0ee, 0x3fc7699acf9c74e, 0x27b439487ca8865a],
    [0x85ff8eea6b17011c, 0x76d58c7b514ce03b, 0xe4877c3e4faa5bb1, 0x2ebf049a07d92aff],
    [0x330457a6927eb9c6, 0xc35e892592a8704e, 0x58a874c907aed547, 0x14b55de484bf2eda],
    [0x951c414d167e4622, 0x7e1b4857ac3b9003, 0x25944cac6565ad83, 0x2cf300af23253ae1],
    [0x2c7e6ae904ac14f1, 0xa6afe79e831eb14c, 0x399eb08e3af0cfc, 0x11a0cdf58417864a],
    [0xae1372cd3f9100ab, 0x562f7c8192fd2e45, 0x3b07765cbcb44033, 0x13f038e1602814d2],
    [0x1ffba46e4cb5a78e, 0xec2c6cdd3afaa7ca, 0x15991b7e47dc180, 0xa324aa4a2273af5],
    [0xb0f98fb799fefa2e, 0x8f219dbd924d7786, 0x88f49e52fce7167b, 0x26dba58ade8cda1],
    [0x7a58ec99ca5394d, 0x1746d21d60dc994, 0x3bb776a21abcc6bd, 0x2335a58b2a4893de],
    [0xd075b83e7f1068b1, 0x7fa59e0aa0f97bb5, 0x3053cd478898e706, 0x3792e932762b535],
    [0x345741ee2c0c9af0, 0xd9200520579e674c, 0x21be47d121de7717, 0x171f0973baffed9d],
    [0x21b471e1f3cb589d, 0xb7bacf3963f77394, 0xb90bb11b2490e5ab, 0x1ff55845a587dee8],
    [0x47b9148d1fd202bf, 0xb89f48d8248e45d6, 0xf54d05adb8aeaa9c, 0x6db58db2db6fe63],
    [0xfb1b5892c30527ab, 0x5320232612f83529, 0x12585f9e3aa8fb31, 0x207a78198a8af617],
    [0xfbc43fcdddfc1be3, 0x75bb9f99e9458079, 0xf1a0ac71fa29c74d, 0xda95af66e6e0aa2],
    [0x7badb7932a91e7ee, 0x4b866285a999a04e, 0xea98c07d041221ff, 0x244dff1663f2935b],
    [0x5f144b61c61099f9, 0x222ba0bcb4c690b0, 0xab89a2b35be57b29, 0xf1666c15799e77a],
    [0x48e13f74f30e5ac1, 0xc241700cbf5d6e77, 0x9e49c949604b1d7d, 0x2e9b5aed7ff481e7],
    [0x34adf43ca7a68908, 0x3e79504d5324e80b, 0xb1815f1495a872d6, 0x16834fb2ba464871],
    [0x6357464515206a1, 0xe4e6323eec738f29, 0x91f7230be230101c, 0x143a59fd2f1e040c],
    [0xe40e64393030471c, 0x63324bf70d1a3274, 0x99c3535dc3d655a9, 0x43dbd8535bb232d],
    [0x3364663f08fb766, 0xa5f3affc248c8147, 0x8d6fb5aa80087856, 0x7b166c254454f4b],
    [0x7b9c82e3d5239f2a, 0x3e41cbc7ef94245e, 0xa8e9f31f521339de, 0x2047d44ad52bb40b],
    [0x4e4d85a0722e3452, 0x8254cf355214fead, 0xf15abfde942370f4, 0x1e23eadfe8cd5443],
    [0x9a1b60607b1ecba4, 0x81d593f95f864cea, 0xbf7c32118ae414f, 0x1371b1a0c0ef71a9],
    [0x4bc5376889b5a0f5, 0x565eb29e36ed1eee, 0xd633b65dbf083f24, 0x29c9b03f3f02faa3],
    [0x96cd916a50d17311, 0xeb74d64619847d9e, 0x7b91e9be524819fa, 0x11c0d488111b7ed],
    [0x5caaf28a3fb77307, 0x8b98f061a7565a7d, 0xeba8940233e3630c, 0x2d389c9b04a7aaa0],
    [0xb0f98fb799fefa2e, 0x8f219dbd924d7786, 0x88f49e52fce7167b, 0x26dba58ade8cda1],
    [0x627d90d73d3bb0a, 0x34b1037767f5c2b9, 0x5253cbc1cf32d39e, 0x12e351fea34839d6],
    [0x35537974652ead64, 0x9d17a11812405d3d, 0xc9d8044c41084422, 0x2e27a42188a58299],
    [0x84426fe729475367, 0x10596421d0318232, 0xa08883efab512ddf, 0x14bdf13946d48ef5],
    [0xf5f4fcb2ccba098f, 0x53ec9cd08fbc887c, 0x6efb7fd6667bb623, 0x9a068a755057ee0],
    [0xf81cf33fee0e8cfc, 0xd27fadae89854357, 0x860ee5c90956903f, 0x519b4409ec8e3a7],
    [0x8b5da402a5840054, 0x710eab334142a839, 0x36f7ab647ca38d42, 0x2e810ccf1dd607ec],
    [0x88a978503ddfd96b, 0xd89d1a025a60ff68, 0x80bed52d6f25174c, 0x233108c004672dd4],
    [0x94e4fe7784cfcdc8, 0x54c5e21e68c18504, 0x19b0e5c5a0e75a0b, 0x5be8a2527d11c6c],
    [0xfe7c1ccbc232a0ec, 0x51aa69d9260f1b32, 0xf3f50702399181ac, 0x1c4d74ec5ad43fa3],
    [0x15afcf5bd168de28, 0x5e696156bd0ad45, 0xa5ee9e7f559ccdf3, 0x2c98c881a993b1ac],
    [0x167aaa9ba11ae739, 0xeedb7115380f6c4e, 0x510c83febbd4925f, 0xac8b8f35d94988],
    [0xc29444aee62d71d, 0xa179c49626348fcd, 0x2ad021d9e1e7e87a, 0x28b2d2b745647c15],
    [0x1518eb4fa1eba077, 0xd5d8c86139e182b3, 0xf1b55a1f1b7f4205, 0x232dd2860f628248],
    [0xce0635bccd9f1f84, 0x82ccce3969091d48, 0xf2e5326ad8f2d6a3, 0x2d45676dafb1b4e4],
    [0xe743a32277f4a56e, 0xdb1e9e3530889762, 0xa9579f56ddbd8967, 0x23c9bab33c8ca65b],
    [0xe0870daf794eee04, 0x6bb5d44f214508a, 0x3951efe1029eac80, 0x2e3f511a8650b049],
    [0xedc576a5f8c56ec0, 0x75609dcbba24fece, 0x42116dc8d68a6eba, 0x1fadef99b87a98d0],
    [0x8ea0387043fc156c, 0x2e5d5c5b5929c5ef, 0x2c3da15fe50fe633, 0x13b1c1adee57755d],
    [0x8dc8368a5613da63, 0xf7f9bdd77fb3a8b7, 0xfe886f9cbcac11a4, 0x22a338fe1a442d6a],
    [0xb88190a71fd2e887, 0x37dd1065e075da8c, 0x546ccf9d02a02797, 0x1c069ae1b1241b93],
    [0xb0f98fb799fefa2e, 0x8f219dbd924d7786, 0x88f49e52fce7167b, 0x26dba58ade8cda1],
    [0xda208139d3a12390, 0x5b39e6fe20795800, 0x8f2aadd77f8a89a3, 0xcd4ceac7e7f2cd6],
    [0x7cb36e72a88c81c0, 0x1db383bfa37973f8, 0xbbd5eb8567f18d3e, 0x1c2ee3595af8de51],
    [0x6e5326eea97b0333, 0x685a7d3d23f08d10, 0x75377589baab4d68, 0xa7c2fc763da1bf3],
    [0xcf989a47e557359a, 0x119a0e734a1f2459, 0x3f14eb594c51c1cd, 0x1b50d5a9d6db07dd],
    [0xb458406cba4799e4, 0xc3bf2ac2a428c274, 0x4bd26c4ac8eaebf0, 0x30161bd3b8b78d82],
    [0x9841a00c5b74747d, 0x261a226526c126dc, 0xd2fa48046b2b21cd, 0x7274702734590bf],
    [0x6b7e5f00d1633597, 0xbd6e8edbc70778e4, 0xbf3c438b120a1c02, 0x23064c35e504e677],
    [0xb110f3dcd563d0bd, 0x8d19a3d8e41caeca, 0x527256c84aaccb34, 0x7b4b8fcf8c2cabf],
    [0x8f4c8d629d42964, 0xbae2a133a82edd63, 0x50e42efbedd76edd, 0xa95e011e6866c85],
    [0x6c049a3b33cb4da0, 0x54c71dd9df0a236c, 0xcf425f6aaae07510, 0x180517d31f2656d1],
    [0x731b2074f534ff99, 0x536c1f846730f460, 0xd733baeb6e88f4a8, 0xaa7c1d96d99bf95],
    [0x87324179d1e37e4b, 0xf181aadb93429e02, 0x368d8f79d159d585, 0xdd0dfedf6a1d0e3],
    [0x6c24746070a3bf18, 0xb3a778a9a4a33e1b, 0x83d3401b87b3d6e6, 0x572df3598f8791d],
    [0x564f11fabdff8d14, 0x48781ea825ac98c, 0x8f629e12d409ecd7, 0xf9cb4e73d3b6c12],
    [0x5a50052cf4ea6143, 0xd1f80dac5da005ac, 0x1b579a2d00acce27, 0x1db3c7279ff54baa],
    [0xaef6353073503b0c, 0x6bbc448af3a63e05, 0xd3b2d20dc216f46, 0x2942a1875714a0c0],
    [0xd3e9f00c9b2df92e, 0x3f792614b5cef40c, 0xcdf836ec99ab832e, 0x2522caff7f2a2bf9],
    [0x9ac7ec6ba1f4a6a7, 0x6bc309fedf4f48c7, 0xbc30077a0fca970b, 0x1cc0d08465538de8],
    [0xcd65741037c814b9, 0x2e1510007055893c, 0x15bed5bf60edea53, 0x1be86dc6dca9d90b],
    [0x97c1ab25f77a9f2b, 0x1d55436042ce7227, 0xd91bed0d22102233, 0x2ecc73f82062b8a6],
    [0xb0f98fb799fefa2e, 0x8f219dbd924d7786, 0x88f49e52fce7167b, 0x26dba58ade8cda1],
    [0x47e158c4342f75a, 0xa126324674450eed, 0xad843f23a7f402bb, 0x1e954a04dbc733e4],
    [0x460277ce8a06886b, 0x9507169f7d29691e, 0xb995fd7a26c8be4f, 0x1bf6934a5502144],
    [0x258e244fec48629d, 0x954d55647c32096c, 0x1fc08d6e560bfc21, 0x10a770647e157ab7],
    [0xc84a3c7c7488a566, 0x5055f3a441fa6288, 0xd59bd7cc2760c8bc, 0x2379fd0b045b1b43],
    [0x754cdda61aa13759, 0x4f4b3520b2ec0c62, 0x4b9c9ece2f2dc4bf, 0x242557dd84169e03],
    [0xe773188322020fbe, 0x31df8eaf20194cc9, 0xf865e89a44c0fa4f, 0x24d0e65867e83cf7],
    [0xd985b0ffdab6ba89, 0x6fc564cc300040ff, 0x66c96bb21691c0b0, 0xf08e39c0aca58fd],
    [0x1b86c3e90dc767e5, 0x2cf3f9e187ab2698, 0xff8c6915f68472b2, 0x1c3119af9b3e6b5b],
    [0x3e56f9615cd702c0, 0x4910f35baa8a92fb, 0xb1a462ad8d0a11c3, 0x18836e6cd384b031],
    [0x460f30d706a4cb48, 0xb9ce83854d7bc4f2, 0xda8c1c7186890382, 0x10b2bcb24625abab],
    [0x4ff535fe42cd81f8, 0x555c0b32dfd25733, 0xf064a7c036f29c1d, 0x237fdf2809ea511e],
    [0x59d540afc5737f67, 0x22477a5ba013d9d3, 0x79f7cc5e15b4ad47, 0x21b9cc4ec4c08324],
    [0x7158d9b865298d8e, 0x70cf9db55cda38f5, 0x793cd3fb7c3bf6d1, 0x258e26b354d7ebe2],
    [0x2f96f938165bf3ad, 0xc231bd2d89340241, 0xed1fdf8212e7b34c, 0x1d48d2d440fb27a8],
    [0x83b21caa92197f3c, 0x7493bf88f75a73d7, 0x67df8380c5077594, 0x138fe1103d55fc02],
    [0xf7d63f3a62f30fff, 0x92449f73e33c25e9, 0x4be783f8980634ad, 0x1edf94fb5b430b78],
    [0xa253eff22c5cffde, 0x5ca8689c16e67bd0, 0xa6482185fb4b7234, 0x8eae1383cf79a2e],
    [0x43b6f04e35dde41d, 0x3f805a77bf30042a, 0x6e3e055d3479170, 0x761d160fec46a8c],
    [0x6536239dc8938efb, 0x1f2289396e30ab84, 0xbce764b156e02bc2, 0x2e23c612794a7f8c],
    [0xf9a07c40a67e372e, 0xf9ef3fb7e8063705, 0xab5380afc595d723, 0x1539abe4d27172e4],
    [0xb0f98fb799fefa2e, 0x8f219dbd924d7786, 0x88f49e52fce7167b, 0x26dba58ade8cda1],
    [0x943da4f45befc2b5, 0xb2bd95d9bc9d8327, 0xe2f1cfb8eaa194db, 0x4d800ab616d72ae],
    [0xe07a60c0a7fad9bd, 0xccd2aa15ffe4f4a8, 0xccce5415be0c4941, 0x2207ae07dccbc047],
    [0x3de8fdece43088a5, 0x8586fc1e3219d09f, 0x12f1ca107456bd15, 0x64d711ce20b70d5],
    [0x1b52522c96978158, 0xc1c7b21dd7bf6daf, 0x984c7f6bd75b02cf, 0x56adb05c833c5d1],
    [0xbb87807d5d61506e, 0xdf53b26217544c53, 0x31abc7977dacf9a6, 0x2efc241aa72e16ff],
    [0xe46a181128ebb7e5, 0xf2157f3075848ed1, 0x47dcf33e989193ff, 0xf41fed22cb32a4],
    [0x64cd719e4e1502d5, 0xf5ce32c1d768d812, 0x3b16e812c546890e, 0x169291f2bb1381ce],
    [0x7ec0c1f2befd4729, 0xbe93560ba39f2953, 0xd17c7ea7d3b09f67, 0x2f9fc1e4f2924d82],
    [0x44f7d9991b8c7e2d, 0x1a01f78fb263730f, 0x86de3944edae4c60, 0x13ac8de14556e9b8],
    [0x57a1971fa932aedb, 0xcfb3e9c6ede0fdb8, 0xc56dc24bda3a5e61, 0x29a69af8e28052f2],
    [0xbefd587893787172, 0x280697e89643400c, 0x3486fb8598113f7a, 0x180e9a2e161d2101],
    [0x9c6aab1b6d1117f2, 0x71c77a2e236a9d7c, 0xa42cb368560d4bc4, 0x29fec555b91dfa57],
    [0xb3bb7165863c1a46, 0x61d045f30244244a, 0xd46f0e2acbfe7e39, 0x231ef485473f733],
    [0x2ce88d47e5fa15c3, 0xa6688192254d4049, 0xc630a99754d1a66, 0xe6c1b39867e21ef],
    [0x219e7fba86597031, 0xd8b8db9232fd1f7, 0x7891e6306df8b231, 0x2e0a260d61bad61b],
    [0xd6e6c0f09eac859f, 0x94d4149bd6c6fc59, 0x134b313308a4c629, 0x176aa7da52727a85],
    [0x1d8541694ef3a9f1, 0x8e10c8550eb8b9b1, 0x582eb1adc46890c4, 0x12922be1b7fdc58e],
    [0x67bacc883a3f4fdf, 0x78a73e0442bb1c9f, 0x5066e67d71e10cc9, 0x32268b4c29827a6],
    [0xa9e54757a51b3c19, 0x69b2b49da1818ec8, 0xcfbfa8da4cf3070e, 0x10beab6538e0141f],
    [0x7192e56c21c28256, 0xa556d0d157ae5da5, 0x3a2f4b1994440a11, 0x36192a82ba9eea9],
    [0xb0f98fb799fefa2e, 0x8f219dbd924d7786, 0x88f49e52fce7167b, 0x26dba58ade8cda1],
    [0xcdce60c1737ac627, 0x15f30dd072028305, 0x9aed4bf2cf5d387a, 0x34207380baf3370],
    [0x9da93a72d92ccbc8, 0x9bcdc84caa6b2154, 0xa7b21236652960fe, 0x1eb09b8ad28ff81],
    [0x56a105ca6a7220bf, 0xe624d66f60f6f0a3, 0x8c0d6315d8bf240a, 0x2545313ea42693cc],
];

/// Part 1 of the sparse partial-round rows for width 11, as little-endian limbs.
pub const S_DATA_1: [[u64; 4]; 256] = [
    [0xfd957cfc3c3bf7b7, 0xb7686b9de06a6831, 0x8f8b4d7c4ae3c7fe, 0x1269b1b6e6ffd993],
    [0x364b8c052f169ab8, 0xadc893adf4a4a099, 0x3fcf8ca0a606f70a, 0x281e84c6cc599d85],
    [0xd0dbc559edb12c69, 0x38c3d5912c74066b, 0xeec8d6873cb1cbeb, 0xaeee3f27983d8e9],
    [0x8f355d3b9a36b6a8, 0xb86e9d64deba5501, 0xe9217faaee18d9b5, 0xfdc47ab86a0a3d8],
    [0x8b4f063b686d2e12, 0x97e1ff3ddb3f9b4e, 0xbeacc313eb5733cf, 0x2c35a627b5540525],
    [0xaab4fb7f120bb301, 0xcd4c6431c60b0b3d, 0xc8b93f9735204bca, 0x332c87526e40afe],
    [0x64d0e450fb2b956e, 0x64fcb58a67e7c29a, 0xa26fec63f2565a7b, 0xd5d00fda5d7c9ac],
    [0x49fdf28de5f49865, 0x4370b9b0e4c12ed3, 0x8a685870d7a5f7f4, 0x1b9cb4b5f32f1ba3],
    [0xaff25befbbb26a26, 0x5d61aad6e0ab492b, 0x8ea10713d8bd8ebc, 0x1c63e1e8141a5a49],
    [0x4466d3e425c50fc5, 0x607f280672e2db24, 0x39459f133c996241, 0x26ab3869c42b4e01],
    [0x43ef872a85511bc8, 0xd09945cca09f31f0, 0xa39fde443e466884, 0xe8a1f3050352b43],
    [0xdfe0910932052536, 0x55841c4fd97d1a4f, 0x156e4fdd7fb3351d, 0x51d4fe0ed70b240],
    [0x16d11de7d6bc760, 0x938485515cbe32e0, 0x72187b97a4427f7e, 0xb0a1015d5b0b6a5],
    [0xd7a5edf276ee54b4, 0x114c3ead6206339, 0x6bdb999832f75f8, 0xfbfa326f445e39a],
    [0x154d524528e82750, 0x6a44737b84647df4, 0xbf3625d0cebfa228, 0x9ca06de513672e4],
    [0x9d19860672ed4719, 0xc95cbe3987bea3be, 0x3437c626fda37e43, 0x281dba97e7243b1d],
    [0x845b71b8ba0dc6ae, 0x2a41043ff0bf242a, 0x21f470a899d072f5, 0x26de57caaf863575],
    [0xb0f98fb799fefa2e, 0x8f219dbd924d7786, 0x88f49e52fce7167b, 0x26dba58ade8cda1],
    [0xfb894471e9c1946d, 0xe5165621c2a4266, 0x7feaa6e075cb9de4, 0x2fdb2e183ab50961],
    [0x3232acedb25d6def, 0xa1a87d06c5386182, 0xf8c8f4a2b3425dad, 0x6188498691a27fa],
    [0xc58349f522323a18, 0x1358740f9a7c6578, 0x91baae85be99b39, 0xbfedca0dd5e506b],
    [0x217fb04455d3133e, 0xc8b19a002b784ea4, 0xc9965872103d4588, 0x78b237302bdc513],
    [0xae6c94fafb198305, 0xdef4bbbdddeca93e, 0xf5a3f58d36648b5c, 0x25f15182a955582d],
    [0x6cf8b23e2e0f7820, 0xd63d5bffe07ff0c9, 0x26578e5999ed3c7, 0xa07fd1f3e8a7d1f],
    [0x98e938f75a0b678b, 0xa5c84251dde43bc0, 0x209d7602bf222a0b, 0xbd64bd942a57b8c],
    [0xa66e65305d1b16dd, 0xa94dc68556270ee7, 0x7112ff7050870162, 0x2cbe62c979e60837],
    [0x70e6c6f8c07b6a36, 0xf1c03e112300d9e0, 0xd900ea877c8f099a, 0x9da1c5dbe788eff],
    [0xf9cadbbc30ca97e5, 0xc86eb79168d6f157, 0xe1e775d4e4abce3b, 0x7981ab3c73beaa4],
    [0xdeb10c4e768d91a3, 0x5c0a10b260c7376b, 0x107d6c54510a07f2, 0x3dced6534fd07a1],
    [0x401b75b4d550ed76, 0x54644298f3388bac, 0xd8b434549e13ec86, 0x988db118a1974fd],
    [0xc2bc74345d4170b3, 0x703d65b729c1dfd, 0xe108d5322ab104e7, 0x1deff1662df511af],
    [0xe965f7e04fae0f1d, 0x4e3ca37474728dfb, 0xfce4124a8abf82b5, 0x3a1bb1a92965c2c],
    [0x8ae69e98d8c44d83, 0xd16e37621d83b3d8, 0xe183795116b65070, 0x281f0cbf3e036b4a],
    [0x386e859b996d9035, 0x56b013d0849b1066, 0x1a8db61a22db870c, 0x15c4576d8475a429],
    [0x241feb94cbe87f3b, 0xe8eacad15c7f53e6, 0x41eada800b0ad12d, 0x675b067ff63a961],
    [0x71afcaeb1037fd56, 0x69fd0e4f91be7bb2, 0xc4b86a5218188814, 0x201aa00289c06147],
    [0x5957c76b84a4413a, 0xd0362b3f719aab86, 0x917ebf20bdc55e03, 0x1d590ada5a94b49],
    [0x7762e3d4df3f7193, 0xea28e930f7318933, 0x3df59516c72371f2, 0x6011f23c13d5ec],
    [0xb0f98fb799fefa2e, 0x8f219dbd924d7786, 0x88f49e52fce7167b, 0x26dba58ade8cda1],
    [0xe07368a3e75a7573, 0xfc3b8ec189ad4fce, 0x67f7165490a1a4d9, 0x289927a769b163dd],
    [0x2b7c53e3a6830947, 0x5c72bec4c25d87f8, 0x2157b180cd02fa97, 0x5a0ca87482e1f24],
    [0xe0b77c24d5ff9e80, 0xc4eacc42ef998093, 0x8f7a6e8634f54524, 0x2b328309cfe721d7],
    [0xabadc8442204c061, 0x83613406f932d7, 0xfb1d342e1b99a73b, 0x1ddfe1d1e5e9458f],
    [0xebd617ce449ee43f, 0x662ca66c1ce78fb2, 0x1f75ee004c7d9cab, 0x2da94a9b44a2e268],
    [0x3f868709cdac330e, 0xab0cb06adc4e92fc, 0xced2f4e63c366b9d, 0x1efb5c3e6f22f498],
    [0xf72ac220e853c884, 0xe259f8b203a4ba15, 0x19420e79606bc447, 0x464f0cbf6ac670c],
    [0x9194e99dcc618f82, 0x1e042d7841a67021, 0x6b5628f679c7843e, 0x67e3c61a95e28c2],
    [0x57ad04a49a72a28d, 0x8a48a197cf0b0231, 0x53f85da08552dd45, 0x2d1ec49939d788c8],
    [0x9e9b2be22dd9e289, 0xbf71ddb294ab3765, 0xe86147024ede9dda, 0x25c69cc3ab094c56],
    [0xcfcaffb119ea2c0a, 0x455bdacf16ca542c, 0xaff2a6b09a02eed8, 0xbec17f5afb43e6f],
    [0xe7fecfed5a98978d, 0xd2cc62d2e7e1c6f, 0xcde9b817c9a74687, 0x543caae6f7afe71],
    [0x4ae0bec430d58087, 0xa297d1f6fc62deb1, 0xe1cb0de99504766f, 0x142025c358454da1],
    [0x5497ec7ae08939a, 0xbdc518c7fbb243fb, 0x98bf8353991bd236, 0x12b565ffd06708fd],
    [0xc8bfef68b99b0639, 0x28382d0b3f6d42c0, 0xba8431deb018fe9c, 0x12f287f0f3686375],
    [0x4a8e5caf2ec67622, 0x98877af661ac3d1, 0x563513c29d704429, 0x1b97a4c6e3b1340d],
    [0xcdf616cf742991fc, 0xf8ab05a95877afca, 0x5262513d57850fa5, 0x1160e192c3592d8],
    [0x41cd39fa90975884, 0x530e8bf89a97d410, 0xacd93ea46be905a8, 0xde9cdc2af5b4780],
    [0xdef35fbc29b304c3, 0xec866d9106a8f2c0, 0x8ae57cc00010cc2a, 0x29a2c79a9dc7c39e],
    [0xd52c016bb5f004ab, 0x1a6a0590bcb4ac75, 0x19ed40ddeeda02db, 0x1b39fe57a5648b6b],
    [0xb0f98fb799fefa2e, 0x8f219dbd924d7786, 0x88f49e52fce7167b, 0x26dba58ade8cda1],
    [0x169586e66968a6e0, 0xccb8c99788645cd8, 0xbfeca9f6f909c380, 0x2eaafd2a94018113],
    [0xa6a5d5d2f2a385c4, 0xa81c2e720bf0e889, 0x7a4c05e80dd23700, 0x27f7e86e479c9eb8],
    [0xf0b51acc263aed92, 0xbf6b01a1b703dfd0, 0xd803e4942f19aad8, 0x15fd4d2d4de641f8],
    [0x21d06349bbf6a858, 0xe15c58b1fe2f87bb, 0xe28ac7a67a7f86bd, 0x172a8e725dd29bc4],
    [0x1f237b8f3f357bf3, 0x39ed7f14c17edf15, 0xdd901bf880112035, 0x11820ecad02878cc],
    [0xf3aa4878f082f60a, 0x23eceb119dac4f88, 0xd0485ed79ceb944a, 0x157bb0ec622781b],
    [0x42b36242c7ee6f11, 0xcc5ff4d33963002e, 0x36307ba5a8ecb345, 0x1a0c8beae4e98f3c],
    [0x3818feddab8737f9, 0x49597908b9885b7a, 0x9e7dd608cd6ea187, 0x19398691a1632908],
    [0xdc2c33877789a888, 0x9b1ee91203331f44, 0x784dd5ca22480de5, 0x2c92297efa4d689e],
    [0xaa395fdc793e9bbe, 0x6e825d2f6ba1b1f9, 0xb6a2382c527c9e48, 0x2b05adc1b6cae6f7],
    [0x90e7cc58244b619a, 0xc05559171f5b3d84, 0x5e8f1dcf344a5bf8, 0xeac0d420eaa22d3],
    [0x902688b43ff7ba89, 0x831a6f811893d188, 0x748c3f37c2e1c72f, 0x1f14c4c41d337360],
    [0x69389dd064a21288, 0x68bcae8e01bf9caa, 0x32997bb6881979cc, 0x2dff4909b43986a5],
    [0xf6c0fad98f6f41de, 0xf2c50b297b5340f7, 0x874bab1f706b652e, 0xc5cb5da369f1f4f],
    [0xd2a9b1b73810067d, 0xcff83ce3577f1909, 0x1d5e7da33ce14fb2, 0x13c2c78c6e2b3969],
    [0x2bd9510314f6fa22, 0x63187f342440c805, 0x18da2d30fbd757ca, 0x8bcbec544fb377],
    [0x9e569cbd52c44b74, 0xd56f2fe4ca359ee3, 0xc55769851913284a, 0x12d845717c2b2c79],
    [0x958f769a0d225963, 0x307c89534a51dc4d, 0xd96a08ea533aadf5, 0x10c0c4538604fe7a],
    [0x81467c17f1050265, 0x6490425ca80eac64, 0x60656e13a383726d, 0xd2a590e3fc8aa22],
    [0x50cb68ae14c2f283, 0xf57ffeef914c655e, 0xd664d3ebcb0b0889, 0x3030d8c3cade8438],
    [0xb0f98fb799fefa2e, 0x8f219dbd924d7786, 0x88f49e52fce7167b, 0x26dba58ade8cda1],
    [0x282da769f0425beb, 0x4c8eb37e3479238a, 0x59a38b99d230ca7a, 0x1ec953704f6bb2e3],
    [0x7d6fea8e46c94914, 0x826a0bb877d54a3a, 0x9966d1ae7f272514, 0x1eb6626b17b9fe12],
    [0x61a532d8a3b50698, 0x71a7264f4ff1beb9, 0x4d82ed3b033e75b8, 0x2c31aba1b873c7d1],
    [0xab480edd8a79ac7f, 0x41cc880de1c7699c, 0x49ea8e0fa42ef14a, 0xdb6e1d43e7479d4],
    [0x922151dc812f4275, 0x8f6c90940a6d444d, 0xc8d87f08764c4f9a, 0x21d8a97ad31f1192],
    [0x7afe36dcab638ca7, 0xa67ef0acb14f68af, 0xd297d316c9bb12f3, 0x29bd140ba4c910a6],
    [0xd48fa7c361e98ec8, 0x8af58e10836f3175, 0x4e19261a4a5f15b9, 0xa61d2fd60c57f57],
    [0x6a65a9fbea46da81, 0x9ecd5d264071a49e, 0xb677c7c987263c4f, 0x1d593a571d4d07b6],
    [0x3103d44a3a53b565, 0x1bf3a4c8348e686d, 0x430c7e6554f45e25, 0xa764ac4206cae37],
    [0x896e019f2679a7f0, 0x2332375f6a47343, 0xacc4c3d8ccc8f9bc, 0xfc4c56a0e57f381],
    [0xad890d434665a9e, 0xee1429b49de0ac7a, 0xc68b1e40a634311a, 0x1c34df18abe2bd65],
    [0x2d862b182fb084bb, 0xe8e5daa8d4196461, 0x2899e2812dceefc2, 0xfa890b0f4e40724],
    [0x6d2fb5eb21597ab9, 0x8404d3eb8370ffe0, 0xdf10427976b49670, 0x1df4265e4bcb86f8],
    [0xea42c5d54c194ab0, 0x97190734d6f48b60, 0xf3a0409c6d53b3b, 0x14b74c5d557ec178],
    [0x3b9b6407ef712a27, 0x605381ae21c311eb, 0xa62f79b82d5f0620, 0x112e82b702e99d25],
    [0x8647ce0d03b1a819, 0xbffe8c6f65b594fd, 0x9e15a98fbaef9be8, 0xb22a611ecdec54a],
    [0x144e7bbef93823f5, 0x9c4704c65200cb87, 0xf6a90cadf9a9fb9c, 0x13552102754e83cf],
    [0x353407306f7e732, 0xbdf36a1a762b9d00, 0x593587dc8e0f8b7b, 0x90872282ea971f0],
    [0xeec2ddadd727c97f, 0xefb5ce0c7b584c0a, 0x9c0805a76ae6f326, 0x101e86c640c3bb17],
    [0x75ab87a38bb7debb, 0x802aacd5fea74c85, 0x1c6b0932b1332b40, 0x17a1236e80618f66],
    [0xb0f98fb799fefa2e, 0x8f219dbd924d7786, 0x88f49e52fce7167b, 0x26dba58ade8cda1],
    [0x26f29366b26e8acc, 0xd9a7f862241f682e, 0x57ed99dce52b4051, 0x12398407948eaecd],
    [0x178a081ae3e204fa, 0xd5aa43084af5ced, 0x2ee6bc5f217abe6a, 0x1846ebf17d453d5],
    [0x1f94a0dd533e846f, 0x3ea8f0578ad5eb73, 0x7bf6e4a985c3abaf, 0x2054f2993d48723],
    [0xe9b34e93c3499d5e, 0x6d863adacf721463, 0x92aa3a44172aaf31, 0x1911b97db6f1c836],
    [0x4d270e56aeb0a162, 0x31d955ea7e371cff, 0x971c2cf546c3fe70, 0x1e7f11887082042],
    [0x6d0b9d2aaa721cfc, 0x7fb08fdc4622c593, 0xb045eec5263655c4, 0x12170e18a97a2c89],
    [0xc9ff0d409751f136, 0x605bb9afb9adcb0a, 0xcea6b3ec256daed1, 0x209b3d0342a6bbb],
    [0xff27837902bf4b85, 0xdf01807d8f679e5b, 0x402726ed1e01d1a9, 0x6144e781f4197e7],
    [0x7360efc9dcc7a8a5, 0x764ade198781acd8, 0x8a64b51d94d9be48, 0x129444fc0f4808af],
    [0xad6d127f8437334b, 0x6644cffd6ae43eac, 0xb8677bd62e9b5fb, 0x1f12b62b42b308fa],
    [0xc41e94fa24433fba, 0xaaf538727082f773, 0xc3fcbd73c68791c5, 0x2a1e7df0ce57b7a7],
    [0x8ae371bfc8b1cf6, 0x6eea739c22aff792, 0xc34eb7e364adc9a2, 0x11ac54cbcf0e6175],
    [0x2da917ee6311974a, 0xa756789fc8b3cace, 0x84437ed926810a77, 0x263230c117421eed],
    [0xc023e543514e5c5b, 0xb2e7cf0bbcf519f3, 0x62a749bc6791d1b9, 0x10df3a59e7ec06ae],
    [0xb146316a8ed4c433, 0xbc0425e706b107e6, 0xcddff15cd91b7f6d, 0x2ee43f7cbc305d64],
    [0x19f7667655a1b750, 0x2d8ebd45ca5912a6, 0xefe4391047d6de8b, 0x15e9ba236c3bd1b8],
    [0x84fe304511c6b599, 0xb2e4b68998a748fc, 0xd6f1991585c09cf7, 0x1d74abec20aa969a],
    [0x8c3616c86d7ab06c, 0xb43039d0ee9ac159, 0x9d94e8b5e00f4dd0, 0x5ae72091e906e7f],
    [0x7b9f512940bff3ec, 0xbea7061df2f57d33, 0xfc53712a777b2b90, 0x2b548c790a449ade],
    [0x3fec43477ba2fadd, 0x604163cd00c9a526, 0xf672ce76f5181de7, 0xc79e3413149346c],
    [0xb0f98fb799fefa2e, 0x8f219dbd924d7786, 0x88f49e52fce7167b, 0x26dba58ade8cda1],
    [0x712618e207531b30, 0x71a14807833c069d, 0x72bc149b4bcd3707, 0x3017a09725154c26],
    [0xb78e43826dc07fd, 0x5d022a8b3712cb41, 0xc4a761155768efac, 0xb93ab490450416e],
    [0xe943b14e0f79c872, 0xc11dbc4bf0773864, 0x508ac5e78bd6ff37, 0xf7ef4a57e815865],
    [0xe1927cf66bd0a047, 0x902008f4c0c54525, 0x645588886736a239, 0x28d3598fc9de7f8e],
    [0x53b52162050f2473, 0x5b78360c45d97967, 0x35d83ae6ecb07d87, 0x178d2dfede02ec97],
    [0x81e03dcd410c878a, 0xc852b05773e03e47, 0xfc760261b724a8c8, 0x2055e88d1c4873c3],
    [0xfb1ae60001808de4, 0xd152d481e75701b, 0x4a7300d4a63a327a, 0x201af7d279732ff2],
    [0xa4fd3f6bbecbe8e4, 0x2923259857fa5c51, 0x8e03da08d1289fa0, 0x20b9d7719511885b],
    [0xad30de69cb10bd97, 0x832823607ca823e3, 0xcd472d0ec9f4e283, 0xc0c12d9eb25cf37],
    [0x6105ba44e18b38ec, 0x7fbc6c0538dbffe3, 0x58981d211bed7b8d, 0xc413585abc142ff],
    [0x222dd7b99487aef8, 0xf4685886ec1a21e6, 0x70d732f7f27ca45, 0x1ad95bcc4eb2757c],
    [0x3a33aae620d670ab, 0x6594ae3e3e94d45a, 0x1825a99061f0920e, 0xe9cd75323a37d83],
    [0x7b64a252de7e7201, 0x4e3708e0c556ab67, 0x3ded62340d5042f6, 0xfe94376e19c4026],
    [0xb32d687ab8639656, 0x8cb80b5cecaf301f, 0x5413d3a6d2c60cd2, 0x236be50f0fe1b154],
    [0x88cc26ac5c0433dd, 0x7c95de6d6a3c1e76, 0xa37b843d7cd1613c, 0x28033ec35e8541e],
    [0xf3127ceb8ea62226, 0x3a63a5250cce25f, 0xa4318087295fae60, 0x186eea9c433f8f5b],
    [0x5ebd15dd0eb234e1, 0xdf13631320bf7107, 0x24dd592c2df897de, 0x1997be30d551c314],
    [0x5553a60d7866c0fd, 0xbdcf740fa723952f, 0xc81e2a33cfab7f5e, 0xc86b6e4ec0b7673],
    [0x7b16141d63675cc3, 0x68044990a0329f87, 0xa8eb2de37607a657, 0x2079ea58606d87f],
    [0xf2b9b1957ad97934, 0x16c880d547bec7b0, 0xaa1f74a31f9948d9, 0x17d722901c37847a],
    [0xb0f98fb799fefa2e, 0x8f219dbd924d7786, 0x88f49e52fce7167b, 0x26dba58ade8cda1],
    [0xe5d031ae937ba4ec, 0xf04712a44b6fdfa3, 0x9bc2053e730c22f6, 0xe81a4c71073cfff],
    [0x1940d2ac528c11b4, 0xb16d034cc1281c98, 0xcf59a7c4a40f0a8a, 0x1b643ddf9217a65d],
    [0x23f0367c25ecb766, 0xe582b47e93f88779, 0x11ed0c9944602e97, 0x26cd2f5364c6d092],
    [0xa421ec1f2bd540b2, 0xfdda3ff261a139a9, 0xcef67ce66e5199f2, 0x14e4f38d385b57d8],
    [0x51309b5f2736c998, 0x14d60848920306ad, 0x24d6ec0f2a87b937, 0x168e02a829c74f82],
    [0x435382ff67b7747c, 0x9a48782090c2f399, 0x6ec64e4acdc94182, 0x2fb61a6b4f14e47f],
    [0xef804f570e8a55e1, 0xd7630b073db22e59, 0xe8b58e8a11460e8d, 0x2b8353e21e9a695a],
    [0xd957ce532ae7ec10, 0xec99b8ab4fffd5c3, 0x947c29d674778729, 0x29dc5e33af36ae34],
    [0xd41cc743516e6876, 0x83ec6505ac89b6b5, 0x5c7ea7bcc34950a8, 0xf36d6ea37c670],
    [0x54f7120492a40cfb, 0x440aa9be99dee55c, 0x1d9f8e362093d9c5, 0x2799caf6a25f94e8],
    [0x905ece066790e08c, 0x47e47382b443d73a, 0x764c04385a1636e2, 0x2bcd01c7e5c45ca9],
    [0xc1c4904d6066adf8, 0x38f7ef465f9847a8, 0x5320cdafcc711a20, 0xf0d76223683dfda],
    [0xea0009179fd6577b, 0xae9079796783a178, 0x4e9b42672012b8ff, 0x2974f8366a339e66],
    [0x6018e9dc11bc5b64, 0x1a582c7565508279, 0x74e3b7e05e96c5b1, 0x156f973d0d9d7856],
    [0xb61809e4103c87d0, 0xf65455708e7cafab, 0x39440b18d700dde2, 0x19da910e2a4be9d0],
    [0xe6f4fe7ae4768505, 0x3cea117ac3dedde6, 0xfb166d114edc3d0d, 0x2cfc58b0abe0def0],
    [0xa2de890aabb5d9a4, 0xbee4e39fc06ea761, 0x8aba498ad9199f38, 0x2c0c40c61c6598dd],
    [0x22b96ea9703d4cba, 0x35e1b94142a993b5, 0x6f719a5920cde3bc, 0x1e30543b1ce12e13],
    [0xd638d0f2267d63db, 0x284c3c7567e2604d, 0x9f341fd2f9869165, 0x12fc3e01e274c10],
    [0xeac9ca8b146387f7, 0xf732fe9f0167c9be, 0x9cab76b7b7aa8089, 0x2a9680b2eda56523],
    [0xb0f98fb799fefa2e, 0x8f219dbd924d7786, 0x88f49e52fce7167b, 0x26dba58ade8cda1],
    [0x2d9b5f68bbebee41, 0xccaf80055d5aa56, 0x8a9c81a28eeb397e, 0x1421e02cf82980b6],
    [0x5c73af5f07db8d33, 0x31e21baa352bcee4, 0x6e2ae64af07ef7eb, 0x217804431d1cfbcd],
    [0x16a3e6bef6c7f5bd, 0xdaf8d7aa3f69fc1a, 0x1cade21c99f2933e, 0x2d15bdfb3a952df3],
    [0x753d13528e239f0e, 0x1e0e2555ef46cdbb, 0xe7f2b43d6cb0c0ae, 0x27f5885f9ddc3ec7],
    [0xb2c9c4e1c3deb674, 0x23c833a25e0c6fa5, 0xc78b52217dfb4bc3, 0x3a37a151a0a4214],
    [0x4793b3516dc1ae4a, 0x53adde7288f9fa8, 0xaf4f194a5f0571a3, 0x11a6fda46b867456],
    [0xb067cf6ed63b196, 0x86af4cd4c04da244, 0xbe8eba8e96083410, 0x24f22cde459acca],
    [0x19d80903be433a1a, 0x356c4c867c42889e, 0x9822eb7cb4e26ba7, 0x532b9c8c9c2627b],
    [0x8057330342520b0f, 0xf6729a3518735d60, 0xa3179048797197b7, 0x7f309d33a4d334c],
    [0x6527036971340f67, 0x5b6b6c26b7e244af, 0xf8abf23edd4356, 0x947f36abcd0fad8],
    [0x304ca0bd580c2493, 0xb7e6b88234769ba9, 0x8848554d24c216dd, 0xbb49c33a2751cfb],
    [0x51c35215e022fa9a, 0xa584fc427e4219f5, 0xb925e5fe04c2e994, 0x1f791d5f90371b44],
    [0x8d6787ad52d976b2, 0xbc3c38fd691feadc, 0xa91f6cbc0956c6af, 0x1618299c6088e1d3],
    [0x78773b06b362e029, 0x77e06c36f27598cf, 0x29d1915d6eed53be, 0xcd4c820d82ae74e],
    [0xf18c26a0544b2ef5, 0x17ef52851c0046a7, 0x4bfa41c26e3d4f59, 0x158545181f2bd7b6],
    [0xbfaf93ffe5839d86, 0xf631b416992595c9, 0xdb6925b994492b65, 0x1af91ea8fc2319],
    [0x7a9e409cd5a718ca, 0x37d763af75f1ba32, 0x2a855f95de0c97d3, 0x26c03eac9227b0be],
    [0x24927981ccb1ab03, 0x769d4c7411a5ad27, 0xe0ef78f2f39f8780, 0x189b176cd8975d36],
    [0x4b5a142d4170c6f8, 0xaefcdee51dc5a1a, 0xe0580400cf1f9b53, 0x41d9c7ccbf82c77],
    [0x7080d9f0332ec782, 0xb52f9fcff1dc5096, 0x26a7796e2f70b1d6, 0x274278f69995b406],
    [0xb0f98fb799fefa2e, 0x8f219dbd924d7786, 0x88f49e52fce7167b, 0x26dba58ade8cda1],
    [0x7a25389fbabf3037, 0x8b1e4336434661d9, 0x5c153503276233cb, 0x1c9a29a3fb7f2b9],
    [0x3e63e3a4172d1712, 0x9a9a7967483f0e3a, 0x8532826165912441, 0x2cb5533d1d73b7b3],
    [0x78607b15841ff222, 0xa254235e659364b0, 0xd03f4d644e7757f4, 0x2e9bf13980f73bc9],
    [0x683babf7847ff5c7, 0x93c9c0f7923a0f17, 0xae1d2eb531fd9af9, 0x1467a26136dc7c21],
    [0xe5d8b6ad98122539, 0x210ddf706cbb38ed, 0xda3a1ec91c7b55c8, 0x188210cd164a330c],
    [0x6682b003d00f46a2, 0x997ed31239ca267c, 0x2f8b3831e2133e1, 0x21789113e7aad51c],
    [0xad4c9c3ce743543e, 0xdf0ea4d7a726ec3b, 0xb4f95f69e9af3571, 0xd6ae72f4cac38af],
    [0x30e181c191cb7cd1, 0xfd3126baa620abe2, 0xa470d95f246c1ce2, 0x29f63bb7c7b8dfc1],
    [0x312515b7080ba1e5, 0xefcb9fa7f5b296f7, 0xe17000e29ca7b618, 0x2f0fe6071d605469],
    [0xf64797a6b26fe167, 0x6e041be6b12bedb8, 0x812cad18de9b0ca9, 0x2c993b62a92c8ceb],
    [0xae7fe40a28f05896, 0xadfc8c2b89bcc4ce, 0xa937475317f1ca35, 0x2fa9ced73852f04c],
    [0x5222d4b6c003855e, 0x4577783b34875865, 0xec0aff16f605f7fd, 0x130264e8ed86dcae],
    [0xd6a5ff4c9a03853e, 0x1a4479f53ffe656f, 0x2c2ee9fa54b56b95, 0x5137ce88eb7162f],
    [0xf6c8a609f2dee36c, 0xd71968b226330472, 0x68db24abb786ee, 0x275c55e247d72ce0],
    [0xae22db33c763197c, 0xf7ef7ec00cb4c00d, 0x445fa8f9d6d49189, 0x1cd13cb77f0c869c],
    [0x9cc4b73ecee81bcb, 0x7caa0ef100a990ff, 0xca07e71e3f9d4064, 0x6d9b6b1fd1e26a4],
    [0xb1974b2933a7b373, 0x8b3bb95e8262d139, 0x51548fc12731cea1, 0x169dd62b282e78ff],
    [0x4f4a1b8d14702afd, 0xfaa456bbca5f4f0a, 0x3ab5210cc32133a9, 0xc0653c4aa7fefb1],
    [0x5af17748815c23a5, 0xf13552acac204600, 0x32df7b9f7118aef9, 0x2ddeae46a42784ce],
    [0xf6d575bebd7bcfa2, 0x39533523f83fa0f4, 0xff6d2243ea0e672, 0x2263646d28d39b4b],
    [0xb0f98fb799fefa2e, 0x8f219dbd924d7786, 0x88f49e52fce7167b, 0x26dba58ade8cda1],
    [0x5abf99aadb62b936, 0x9da842bc0a274adb, 0x9010165ac8b1b716, 0xf91c7a21016b36d],
    [0xcd238b5d195e743e, 0xf2b9b46e53ff92d8, 0x220f2e7ecf9189a5, 0x1a2e0a81ccc7ca01],
    [0x4ef8dd436d1cd97b, 0xbb27dec564132e74, 0xf9ff4bde5897d635, 0xbf18f381ca8ee6],
    [0x6db1a1feb7efe67d, 0x81f710522c631a1d, 0x483338c7df1b5fcf, 0x13296783d0803516],
    [0x6864a0606ef594ad, 0xe9a242e3d1172f82, 0x5ee156b2511e0f67, 0x21c82f469bf6605a],
    [0x9baa0909fc939838, 0x27d5a5d41ab3fba0, 0x25307ed8eb2e235e, 0x28dc10865221c98f],
    [0x7fc3463fe94051fc, 0xa20c6b3e4db8c6d1, 0x9098cffe231e4d43, 0x23cdb14dc014cfc6],
    [0x7bf4a1ad49fb2968, 0x95b6e468ceb88368, 0x944d629d7ab442d5, 0x21edeea093570815],
    [0x166de8edbf6ef5c9, 0xa78c486c9ec3a39f, 0x6471b481f04b5f6d, 0xae1075937d8413c],
    [0xcf794b05df31e9b5, 0xe1fb7813fbe14320, 0x7fa8bc04de4cdf33, 0x2fce3f0792f5cd04],
    [0x97a5939ec41366bc, 0x66c5c88f9d30ca60, 0x547c168a8b8e5f92, 0x19d1204d38bebb4],
    [0xbc0c322d94ef05aa, 0xc095439b57c178a5, 0xc10f2f6683274e98, 0xde612e0e3ff1ec8],
    [0xc592867f49707561, 0xfd325d58dd4d0936, 0x1c781ab79f263cf9, 0xefa0f50e1893770],
    [0x9fb120e5c149f8d0, 0x163085e736f58708, 0xfe2a2f6f74ed2487, 0x22e1e777da6b3d2a],
    [0xa15f2a559fd3976b, 0x967a71ce648bf0ab, 0x54db011951e9f9c5, 0x18556105a08859a3],
    [0xcc364552a309326b, 0x8ca339af493cf5b1, 0x3d72f1e85104e510, 0x1a5931f9bf826e64],
    [0xdba802b661dad14c, 0xdd34160fd90b3a12, 0x67c0d7655f4a2b99, 0x19473fd23dcbda08],
    [0x2414acb59812c708, 0x47dcec5e3708fc59, 0x1e35ba02b37449a9, 0x29c96a2d870db1de],
    [0x7394403ce694b789, 0x4721db69c7b7ae1b, 0xf4c54a55088edb17, 0x157097a50fe704e1],
    [0xbb5a5334af7a164b, 0xbdb909e8c75bf618, 0x9b3588cc6c5bcf0a, 0x21e90e34302deccd],
    [0xb0f98fb799fefa2e, 0x8f219dbd924d7786, 0x88f49e52fce7167b, 0x26dba58ade8cda1],
    [0xaf395f9a66fdef38, 0x5e93fc59b6bf166, 0x10fc1553f20308cd, 0x1d31a42740e431e2],
    [0x17e7f14dfdbe22aa, 0xb523a9b25da6390, 0xd44d43cf7966f626, 0x7d5c120df5efe5a],
    [0x9f0c914553fbe793, 0x8a893fc7d6598592, 0xd1b656e298267175, 0x1e4a39cd76190b],
    [0x1db2dca2451110dc, 0xfb16f90ca429e91a, 0x5fea72d6c64a298b, 0x2762072623790fc8],
    [0x50091a7835ed3d20, 0x2a86b1ec4cf9d697, 0x6f0c11c5f6b11fee, 0x144554ecdbfe88dc],
    [0xfb1a48d3c8a1fc2d, 0x42da887c3f91c054, 0x734c7645ebb497b9, 0x1983b95a2c8b6fc3],
    [0x8b2732252e9294d, 0x6bd2f3b0f52609bf, 0x4cb7faf3684ceb9f, 0x1113d1a221def2da],
    [0x72a92f6fa8af8441, 0x86cfbaff0c10ddf2, 0x6504c25a637ec316, 0xbf64c4ef1310f28],
    [0xe0a639da9334dcdd, 0xd92a12fd58ea384f, 0x99996e9f742ddcc4, 0x1209796e263e0d99],
    [0x9619960ab127655, 0xf4a8d010c6e6fd49, 0xbf5e7c27bb55c1cc, 0xb1eeb6c4cd2d793],
    [0xbbebe773bc234a18, 0x9277ad16d1829311, 0x8b2e065c6c6ec74e, 0x4b05da50f761f6e],
    [0xd7f0b9a67806e99b, 0xc89bd85b90206799, 0xa0190d029b1b9ff8, 0x328086aad9ebc7a],
    [0xed9a6fe227b16b85, 0x585378d2194d944, 0x4449e1076c3ff7a8, 0x1ddfbad99857e4b8],
    [0xdf144c2414930217, 0xca2272a216434ee6, 0xf90c09dffe4e3755, 0x86cc93c30e9bc4b],
    [0xbdc24fc441d7946a, 0x98de74d39de11374, 0x902356a5682d941d, 0x261fdfb4046f9f04],
    [0xb7197488037cfc09, 0xd23d84e9a5c4c405, 0x389c40a058d9af3c, 0x21672ca29365e252],
    [0x10dbe8fa1638dbf, 0xfafb48fb63088e48, 0xba87989ded13eba5, 0x2e04c3ce66b9cfec],
    [0xea1819e760b20aac, 0x35c966253677c689, 0x63c04e13cbc74787, 0x2c8b25d7c74be5b1],
    [0xb27715cf1c770216, 0xc5eb57fb5f801de1, 0xe62491b7e6a32d6a, 0xe9cd4551fb4ace8],
    [0x8017b21d67be834f, 0x8d3caef8f59159cb, 0xa48be7d1e5e5c57e, 0x17cdc28c38b48f61],
    [0xb0f98fb799fefa2e, 0x8f219dbd924d7786, 0x88f49e52fce7167b, 0x26dba58ade8cda1],
    [0x34a309dd69330b3, 0x1a90aa8d376e251e, 0x39b44ea9a4616fa5, 0x1edcbf1e8c9add9f],
    [0xf46be766192c68fe, 0x2ca03a8e2048aa76, 0xe41b81a4450a12dd, 0x123673f7bf110ef3],
    [0x952ba4e2e71a086, 0xcf83ef2d381de42a, 0xa2e276ed02acdca3, 0xee62eb21957dccd],
    [0xccbb4abb9a07696c, 0xe45c9453001a6205, 0xc2a26b57a4018e3b, 0x67c268f3b750898],
    [0x91e116f0c6e545f3, 0xc4780df231ffa1b9, 0x8f2f215ee8d41c64, 0x15a74bcb36f93b55],
    [0x3d49673ae432210c, 0x7b99a5b73354129d, 0x8e689bcfe746a135, 0xfd15b70fa8970f8],
    [0xfa2b6c345ac11451, 0x45bff9a2c050bcdc, 0xf11ea5437b1dbc0f, 0x217e872910c020e9],
];

/// Part 2 of the sparse partial-round rows for width 11, as little-endian limbs.
pub const S_DATA_2: [[u64; 4]; 256] = [
    [0xba6ac0891e172578, 0x10aa99f1d835880c, 0x3862064b6f3d0a25, 0x1d12a9b49accc9f6],
    [0xed3a6ebb65e70a0b, 0x285e99653e602c33, 0x883f32d4c34ff1dd, 0x2c9baba92c77edcd],
    [0xf8c9643c03988fec, 0x7adeb4cb933993b4, 0xb6509912e6748cff, 0x2476eb407cc255bc],
    [0x8121393a09663302, 0x50d39fc02078e149, 0x1a6bb98c37160434, 0x629b9717c416be5],
    [0x3ae948fa3eff7e78, 0x16e561326b5000f5, 0xe1532f7ea232f17, 0x1b8a88c8fe80358d],
    [0x81219773004dfce9, 0x90546879165819be, 0x50ff4d63f82d6323, 0x23739fa9f1d477e9],
    [0x9c2a17cfde4aa8f0, 0x3d488f4c25aea671, 0xc57c87e271f4cbd1, 0xe7522fcd267e8fa],
    [0x7cf1e5cccb9ff6b5, 0xa718cecf262baa45, 0x47bd604233233e69, 0x58a36221cf38188],
    [0x753802785c6c8fdd, 0xb91a03334eb4d239, 0xafc81ea5fc9cf93b, 0x9e192a9e456d483],
    [0x892566568cb66b68, 0xf3d8ffc1eb3ede44, 0x9e9be837569ad0df, 0x74cbcb738b033d],
    [0xd7e9f31359110260, 0x27621adae3ffd0a7, 0xc15defd2d8f6e21f, 0x283e0b8b91557645],
    [0xc108c17b498152e6, 0x345a69ad735b603c, 0xd5e43d51525ccd0f, 0x10eade70c487ee2c],
    [0x956e03fb6939f21c, 0xc5502667fa6874ce, 0x7c16eff957b22028, 0x2f01b82b8346c425],
    [0xb0f98fb799fefa2e, 0x8f219dbd924d7786, 0x88f49e52fce7167b, 0x26dba58ade8cda1],
    [0xa0a8540a2599b0c4, 0xd6ab875efa8e8997, 0x333a1f9ca0ba708a, 0x664e78dad6b22d4],
    [0x2aa3bc1d8245074e, 0xd8aead861ac55f08, 0xd0b21619ace372b8, 0x4e1f57eab14954b],
    [0x196f880e653e6c78, 0x7f806d5fe9057aa, 0xbeb8d4b4e2ac64f8, 0x41d00073a80f790],
    [0xf687fb9b76e1737f, 0x1565d2e5a878b47a, 0x83423f92661c8f44, 0x2d2d71f2fb3d7246],
    [0x49b85406ecfc14f2, 0x76edfe857a6cd07, 0x6516ecae7d53f145, 0x2c80f1f732fd1983],
    [0xa39bcb060a8d5e2, 0x1a0082dbd92daacb, 0x1116003e82010a29, 0x2c4c5978cbe976f8],
    [0x7c0421db714dffac, 0x1d6e521d6548c66d, 0xd81f2d8bdf4a87a0, 0x13e3c874118b9913],
    [0xe6a0e807e2c685a6, 0xf7a8d72ef56b5952, 0xeaa3fe7f98515e72, 0x1c0abdb801cd736f],
    [0xe168bda88c33d0d0, 0xff92ecb0a71378b, 0xfc2d0979e92e9bbf, 0xbd705c574e698fa],
    [0xf310cf626d13a133, 0x539d7815ef2b21fc, 0x3a320557b41676f2, 0x49067c522e1f039],
    [0xec05da44a6babd2e, 0xa3f49ee5d29f0150, 0x6a33c0f2ca58b22e, 0x1989344c4aa025dd],
    [0x1701ce784408e3b7, 0x930aed9f328d2406, 0x7c6182e6e564002b, 0x2059839a6b9192e7],
    [0x75d76a085e80e28, 0xaa0761f752420a49, 0xdfc808e679480fc, 0x2e29f425e322f778],
    [0xfcaac8201ff253a4, 0x36c1e938a6927486, 0x6514fbdee2a48cea, 0x2b310e22ebc1bbfa],
    [0xd52321b622a2296c, 0xc0408e456180d572, 0xed19e7f1b8163316, 0x243b6f33e43a7d1],
    [0x2d02d710e1c7642c, 0x2ec0ff0df98d3c7f, 0x584b3f335b0bc331, 0x3028c94e563bc654],
    [0x6f882e5ce1823fa1, 0x1d60b90cab8a30ec, 0xfe3c809248875d0b, 0xce5a4699a96b251],
    [0x2e1c11ce1fab81f3, 0x970b3086d7888a5c, 0x2831e38877f95297, 0x2b9f25a7fb74acd5],
    [0x81c72a9eb4e4f7d5, 0xeb0d8a097b72b84c, 0x986fec4419dd8d83, 0x2bfb58abfed4844f],
    [0x75fb344ff366d8c, 0xfc588e358fe839e1, 0x2c1e41d18252c011, 0x239bc1e4d55fc6ed],
    [0xb0f98fb799fefa2e, 0x8f219dbd924d7786, 0x88f49e52fce7167b, 0x26dba58ade8cda1],
    [0xaca45312da96c7d1, 0xd28b8fff1f4b3258, 0x79c476d6cdeb6483, 0xa948ca5c1f9c7d6],
    [0x406bdcc5a9634a9d, 0x723c4601cd7609db, 0x3654b32ca98a4da4, 0xc5c83d7d624699c],
    [0x91cc3c3b502d2e2e, 0x89a8f96cac8fac8d, 0x6b00addcfd692334, 0xfaa398f6fc63cc3],
    [0x1006dbcac277e1e7, 0x80c64c0bf499a3b4, 0xc51ad6d4d990dbb5, 0x1db588b11e10eba9],
    [0x9f601de563bcd96e, 0x3f7286e4a0bfa52a, 0x6977ef7fb82625d6, 0x1cb8fddcaf050feb],
    [0x8adf8862748b2f71, 0x4ed2c638fe4c3364, 0xf0f33d6d49e08b87, 0x22154748d72b0e00],
    [0x28288cfbc802b043, 0x57f458f2708394c6, 0x78f02b14ea2663a8, 0x18bd4153a10ebedb],
    [0x4fe8c36bbe2bb5d2, 0x726f8487093472ec, 0xe93d6d783dadfac2, 0x111deeaa497d2d32],
    [0x8ac3b44e7cd10a2a, 0x1604f69552b6971c, 0xd99f2e4596bd64e, 0x12edd647677abeaa],
    [0xd0455219675df9b7, 0x430bec7be01a4284, 0xde4902969a921782, 0x2a1d5873e48e00ab],
    [0x824879535448338d, 0x738c4fe278ccfc3b, 0x2b2098376d16cba0, 0x1470d1c0f33d2d5e],
    [0x91283bdf40804051, 0x8d55074561482e0a, 0xdfb39b35df61711, 0x16899463366b193f],
    [0x9cc149120108369e, 0xd28cc496e7fd28dc, 0x387e2b2aa14a3ae1, 0x2af12631ed9ea59d],
    [0xe64787f59ebd4fea, 0xbf64ee5f51913c14, 0x862c09c79eda3712, 0x6eefb335586d1eb],
    [0x90ac20923d3af52a, 0xeee69ceb47e749fb, 0x77ca90aa7e514bb6, 0x256768779e0e07e6],
    [0x6ee2493844574dae, 0x99f25546e0708fd1, 0xb8645be74d3e1afe, 0x5ab1585ae26b10f],
    [0x6218fd5f71f6e6ae, 0xa78a373e7f9bf27f, 0x4e5b1fe5188a98e, 0x9b5ea9a096902a1],
    [0x2dc56b71e2d4619c, 0xc658950001d72872, 0xb37ca25901e9f5e3, 0x2d34bed47cafecc7],
    [0x8ed6910cbdceda12, 0x2b8a37278b5178c1, 0xfb057a0a523c701d, 0x2d0071d201824d43],
    [0x80f703d41b5b6281, 0x59ef5dbc20732e15, 0xa4b63e65ff8cc35f, 0xa770d994f92bda5],
    [0xb0f98fb799fefa2e, 0x8f219dbd924d7786, 0x88f49e52fce7167b, 0x26dba58ade8cda1],
    [0x1245566837cc74ea, 0x6244e289500c48fd, 0x609ed2bcc7aaf4f, 0x1949dfa21e6b27c7],
    [0xb86856d56d51f25e, 0xf1803f4d2ad79399, 0xb18f45702a42766, 0x18eacf1750c093e1],
    [0xbf24c127183cdc8e, 0xb73197b029092ab8, 0x862989d63a72321f, 0x29c3379e427d4e89],
    [0xb3295f8af30929e1, 0x8d3410fcce680210, 0xcc59afe8975b7da3, 0x29fa50d3448bd783],
    [0xe69908366cd65823, 0x8f069e9a44141e85, 0xdc1da7f96953f1c3, 0x1bd6d35f109a3549],
    [0xcabd8a343313eba4, 0xf464351bfbe3d140, 0x7d3f89415e375c43, 0x2a58f6745b90dfe9],
    [0x60d6fe4c253ec6f8, 0xc5932031ea8afbf4, 0xbb452870e41bd67c, 0x1e34e898a082d5a1],
    [0x8002cabaf189be32, 0x9c35a9fd5f2f8a54, 0xbb15c6ec37d26948, 0x1f2884e10b6e90a0],
    [0xbba88cad4e4064fb, 0xa89227f47408b0a6, 0xd1a8d83e85c22948, 0x1297717d266d0f55],
    [0x8cce867bf1ecac7, 0xa1d6f428807f0741, 0x6582b65b84d5b76d, 0x2b9d9801a1b0a61],
    [0xcecc0d57dec9feb, 0xc397380bd47e0a9f, 0x9a107564c0918dd3, 0x701f77129598419],
    [0x284dcd40e084a263, 0x55dd3e6a11e456b, 0xb9bcf709dd22b810, 0x1a294c810d83e3f3],
    [0x91b71179eed1d4f, 0xc5ac249a66079509, 0xdc55548826c8f2c6, 0x10103201721be8df],
    [0xf52609638f3952f1, 0x20fb5387714d8b4f, 0xa9a60cbd4eb058c8, 0x22d656009cc9ad0e],
    [0xc8c0da141445ba5d, 0x5a09d75e6bac7ea1, 0xdf571b9eb1d25d42, 0x1d493a429f8db9f3],
    [0x95dca839ec9c4c8b, 0xbbe97b8cf7b14bbc, 0xebc3b20370894284, 0x3d1a76c0fecbbd1],
    [0xf57b495cf843b0a5, 0x1ff38d4a4e28aaea, 0x683b5a4033cc5b78, 0x230688c1f26ce65d],
    [0x3db5ebdc596bc672, 0xdbd7e47b1283ed27, 0x76c2e1600930929e, 0x159c9adea02eeb12],
    [0x5546f47fa416e57f, 0xaae145990d97b2b0, 0xb639965a0ffee6ec, 0x1abb8a81b4629456],
    [0x5ec8a55adbcd0ee5, 0x6f8f71fce321933f, 0x18f187ac6a54e37, 0x12ad1b21a9c02da3],
    [0xb0f98fb799fefa2e, 0x8f219dbd924d7786, 0x88f49e52fce7167b, 0x26dba58ade8cda1],
    [0xd07dfc9a508c2e78, 0x89ed882ea253a366, 0x2956cee40ce3053e, 0x3c6c55cca474058],
    [0x11d0df16cb3f408e, 0x768364c1a97d9fd5, 0xed39dd41975d9330, 0x1fad53f449b581d0],
    [0xcb74c18251b726ec, 0xa275d535c7847b23, 0x1fedb5a0ae4dfb7c, 0x1fe8bcb3f7fbf9c2],
    [0x418f9d5b14756396, 0x6f6864cb8293bfd3, 0xe16efa07315ff761, 0x218b93667ede394a],
    [0x4dd9f3622baeb3ce, 0x677a5c43de90fd0, 0x3d8716a64fc39d0e, 0x41a688c1fb421db],
    [0xfa8e505a4ea02033, 0x659ea28858ae18c6, 0x817a006127171695, 0x2987dcb79171d214],
    [0xb3ce2ea6a5f3250f, 0xd5c1c8afb476d5b7, 0x5059de0fc028778, 0x14f45ac12d071af3],
    [0x9f691c82ee08c6e9, 0x73e4d379756f40ee, 0x25c1f2ff4ae2c67c, 0x959f1dec81c5f82],
    [0x146d29bd7d9ffc9c, 0xc0bd9518d9e04b99, 0x91069ecbc4f80886, 0xac0780131779ad6],
    [0x99b953751c61fbb, 0x2ca359987f1bd6f9, 0x719b0cc26dcf781d, 0x2a7e23e5aa5668bc],
    [0xf6740907a4b653ea, 0xe397c722cdfaaa9b, 0x23bed6c99dcb3b50, 0x92c0b897d363231],
    [0x24817ca38699e702, 0xe75934710cf6b43d, 0x7fd93d10a380145b, 0x29b1674c1e4b705e],
    [0xf068602233cdc0c1, 0xcc4036447a654aa7, 0x6974aa38ff53572c, 0x25db198e1a5de34b],
    [0x9941652a485b8c6d, 0x838c2be6a635bf8c, 0x6ffacbd55936b65, 0xff3174ad5ae1866],
    [0x21034262ea674e90, 0x390ad3e36f9178be, 0xb81d2026005e3ac6, 0x1bafb08bdbc32bf6],
    [0x442976ff849eef13, 0x3eda1f0c99173970, 0x8661ce9235e7c015, 0xebcf6fc297c3413],
    [0xcbfd2f713b8740b7, 0x7eed83aa613b7f9d, 0x779746f2975e3519, 0xd729230e5d6913a],
    [0xbc0a60980e601dbc, 0x78918bea5bbd7ec8, 0xc70ad2d6c3c29bd, 0x20870e26b114e1e2],
    [0x1d63d0f91c64dedc, 0x426e5dbe4d0095c1, 0x7931901cc0a48ca7, 0x84a3105ccbeb813],
    [0xb508d7296436d5bc, 0x44fdaa1c3490491b, 0x8412a828475ca500, 0x1b1e9b1d59d5f451],
    [0xb0f98fb799fefa2e, 0x8f219dbd924d7786, 0x88f49e52fce7167b, 0x26dba58ade8cda1],
    [0xfad3dcd0a4c69acd, 0x5cc36973d09f0b35, 0x4261b9df35e5cf6a, 0x1f4bea0f3c5dbf0b],
    [0xd3ebfc26032a6186, 0x96cd3332f57a245d, 0xe2b23e8bd848ffd0, 0x1222849342a144d],
    [0xaa6470583b24ab7c, 0x543706248c7374d9, 0x404e882ed0a70737, 0xca7b33f1129a98d],
    [0x9988d9aba4cbb66e, 0x6cf384780b5738e5, 0x4d13d41d81a1cec5, 0x18f80a875ca2972a],
    [0xdd7884410846f8e7, 0x625e23e9af79e990, 0x4693ee9c2a59e82c, 0x2428fdee2ef9912f],
    [0x84600a730c42d95, 0x136a8e3950ea6e3f, 0x6ad2809fb9ac23f3, 0x154781a2b5c4401f],
    [0x85f0c24986ae38ef, 0x8d2925c9d6e183dd, 0xc10532eafe2439e4, 0x2c554db641533606],
    [0xe603eea37b97ec18, 0x503f8574e67112bb, 0x2faefab9b4e00d9c, 0x3b8b288b1e1a1fd],
    [0xc25a0e8f2f6011c0, 0x1d28146eb0e91464, 0xd6aae3a98f4d2a9d, 0x93a9b03da561b4e],
    [0xe225597ccc54286, 0x3ece8c1fbb2db80a, 0xdf86bd9a2dcf003d, 0x108843f8d4eee7c9],
    [0xdefb3ff1a495715d, 0xd2367e83f18db047, 0xc78f14505ee630bb, 0x1f043a72cb5432a4],
    [0x37abb1524fc26413, 0x8ba32bae1e842230, 0x1244b3f43d4967e2, 0x15a8fb06e0c14c18],
    [0x7ad609a5b7f4049a, 0x25b04deb0fe5fb11, 0xcdb4f8684b34d9bc, 0x1ddbc950967b1769],
    [0xcf7cf4af1362b5c9, 0xf051ca1c3d5accdd, 0x8618908b13785636, 0x246a58e326b240d1],
    [0x983a62044c0bf7db, 0x93d732a8b3b88b4d, 0xba68441a45b49939, 0x1cf99a40b8265758],
    [0x33c617623c9d0479, 0xb964ec40ac92ab9f, 0x50439e79af5f2d0, 0xd7de5619f4c546],
    [0xeb5c623a9ce4ad87, 0xc95bc94789df4f29, 0x1989950e8f41adac, 0xe5e16504bd5429f],
    [0xe6941765d1ec149, 0x7c872dcfb82dce7d, 0xb884f8fea782cb48, 0x41f35a7896a627b],
    [0xad4f25114897675b, 0xfa8610ef8297d963, 0x5642a94332739b9d, 0x1537debc183e50b2],
    [0x7040d45e14825154, 0xc105a9d6d69df68f, 0x7920abfe3ca1796d, 0x2d702440567bcd95],
    [0xb0f98fb799fefa2e, 0x8f219dbd924d7786, 0x88f49e52fce7167b, 0x26dba58ade8cda1],
    [0x7a04412c976a4d86, 0xd3b294a7745d47ba, 0x8b033824be79e994, 0x14849e30e423d281],
    [0xf6f3d9c78a49b55a, 0xbe36a4fcf1f1bb12, 0x2831afd600b224d3, 0x136803dc9b44527a],
    [0xa51df3d92323af9d, 0xe8222838625951ab, 0x8657defc6ec2d98a, 0x28ceeac4f3b85615],
    [0x48d51da2ca097dba, 0x4f102b3870327362, 0x9eec4e3e5171cd1a, 0x24e2a9e2a33795f2],
    [0xd270be388a7ecbac, 0xe38c0fc9e39119a5, 0xa695bfc635c9b2d7, 0x176b7c931c84fc51],
    [0x7e19d7b5f783c465, 0xc1679a1e1a806663, 0x3febe4d7d57cd646, 0xd230fbc8ba30ea4],
    [0x87fd318658b1b10b, 0x84df233705a362ea, 0xeae4cea8005dffe9, 0xa3d177852fb1432],
    [0x4be18de9bc5d07cb, 0x2d4087b5e23e197b, 0xa84fb72f14025e3f, 0xea4e2627f1b0f14],
    [0x334f69917695c18, 0xcbeb342a33b7d8c3, 0xf9ca42ddaaf4a48f, 0x2b5a5586e185e6af],
    [0xf4f029f1334860d4, 0xf43dad87f10dc01a, 0x55c7b5d59b1bb103, 0x930ff45950e0b3a],
    [0xa55f8fe614093af9, 0xf78abf3371e60ff6, 0x718c62b49b2e4488, 0x13bf29d884e6f2f7],
    [0x8a06ce875337f16d, 0x704c1de25df8d029, 0x24af5dc07e72c8ed, 0x1347ec6f72f1e64],
    [0xf1a7ed1642cdb3ef, 0x19c71c5d80c6d9a7, 0xa953ed4074e0de03, 0x7f98eec37ea11c6],
    [0x4d01b085e81025f0, 0x9ddbb0d00c8edc99, 0x82ee95d4e67c1bf3, 0x1fbd5467ac28426e],
    [0x1bb5dc9ca672e06c, 0x8f46ae98705c09a3, 0x11dfd537166e9a75, 0x160ad25d0a5b4817],
    [0x65768e31c4ee44f4, 0x20112b04b34071f3, 0xb237c2529c1a2c04, 0xd1b059d762e26c7],
    [0x564eae4a149f2ca7, 0xd3c82fee37029d5a, 0x47a7c1cd5f36da28, 0x576eaf22ed6ba92],
    [0xf346d027b92c13ac, 0x8be1386dac2cb067, 0x7403aefd8cb2d68f, 0x189097900e6ed206],
    [0x97776885ee5f538f, 0xbc77d3f1f01cdf0c, 0xb50b23612cd9a2df, 0x1d611f1ac08a2fd6],
    [0xa136c7914da84816, 0x5d16df7f7c0c932a, 0x609cafb1fa452a67, 0x21966ac51d732445],
    [0xb0f98fb799fefa2e, 0x8f219dbd924d7786, 0x88f49e52fce7167b, 0x26dba58ade8cda1],
    [0xc85013bc4569bd80, 0x174e1838978d18ff, 0xa09a8ce68b829e18, 0xc4339f0ecf040ec],
    [0x15b8d4438f3e2f4a, 0x79248ddf7520bf66, 0x798c0bef93c8faaf, 0x20bf882ac8fa2b8a],
    [0x4a0302c0c65be5ac, 0x6dfb7257a5d717b7, 0x3f1af30e8db0aeb1, 0x1e097984b47ab98e],
    [0xddd426897cb85256, 0x494f42b83ce16525, 0x834597afcdeae34d, 0x2124c450afb451c],
    [0x93d30e0f14e6c86e, 0x7a5b9461185f1af3, 0x3cbc4861b9d67dac, 0xae46f4aac64bbb7],
    [0x22ece574bad1892a, 0x5daf83f8f96a1c3c, 0x31f77f1222d8461c, 0x29608e35e4618f2d],
    [0x2bc5ac7f20ee1063, 0x1d411c42725054f9, 0x976d7225b9348b62, 0x8dda504925b8e72],
    [0xd05671166672892e, 0x883eefe3e72db208, 0x6165d71c5395381, 0x2d83e776ee847bb6],
    [0xc8a335badcb5625c, 0xc0b992ce3ff614c, 0x76f28c52fc4179c4, 0x158c6db4fa120402],
    [0x1d29b0c639001d1c, 0x8d5b3ea59df02630, 0xabd35ef4d5e70809, 0x2ba81ac87e1ba4a0],
    [0x4d4a1c927ce6ac92, 0xf4293297be2de672, 0x41ac10da84d18930, 0x297ca48636c22e1b],
    [0x80a52219e3036715, 0x47e7ac412a5c383d, 0x24faa8b0857b0ee9, 0x1ec2fa366088aa3d],
    [0x35e11486f256f91a, 0x34faead83d4cdc6a, 0x9ebc7ae7eef5991, 0xef8e90ab9a0d922],
    [0xc45a05329b1ab25e, 0x5a729277769da12a, 0xf06b166007b84b1b, 0x1a1ba37ce6b31c46],
    [0x89d9945dc648ca8c, 0xf951e55745f7eb0e, 0x22a00ce15e034aa7, 0x1ce58fd6bb4c70f2],
    [0x6ac951d465200f31, 0x5cd8ad79ab87eb42, 0xe53c2592611cbd81, 0xc96b4aebaaf211e],
    [0x4d83754b6fa95b91, 0x21b77814aeeecd22, 0xae322b26cc3dfdde, 0x2ff556ea91ea4010],
    [0x30dcbdeb89dd94d5, 0xab8ac41d836032e3, 0x607a763652423f88, 0x51d4d2e3822d407],
    [0x99d6f2c1f58dc89f, 0x1af9f682bd063efb, 0x3c1043e2c67dcd87, 0x1f484dcbd4ae0326],
    [0xb96fa3329b0aa808, 0xcd236f23c10bc21e, 0xef4419cfc7885a6a, 0x3625c6bbbeba41c],
    [0xb0f98fb799fefa2e, 0x8f219dbd924d7786, 0x88f49e52fce7167b, 0x26dba58ade8cda1],
    [0xd9f5d327f431bd9d, 0x6f06d20599a69b00, 0x8329f997d51ea475, 0x132c2bd9c3df321b],
    [0x5251d1ce898cdc31, 0x472da5750c9cc218, 0x34893666d05f8c23, 0x223271db36c5a5b7],
    [0xeed4f437e9e90f8b, 0x6aac03d12617b498, 0xf0792219ab95cdcb, 0xe442d13a0489c8f],
    [0x99496db12778c62a, 0x3b6ec2991f80938e, 0x4ae5d6b0d8a1966e, 0x49bd7714d013f9d],
    [0xd75b3c7f75c4a406, 0x2f34daeb311b455c, 0x9dc0983e73f39198, 0x16863ace52579a51],
    [0xb593c117ed9f7a29, 0x789e825314c553dd, 0x4403443a871e8b09, 0xb043bbb7a835e93],
    [0x3e39ac7be086c286, 0x3b84428079fd2582, 0xcd6662e6e2d0f612, 0x2233e42b11b31512],
    [0xe82f9306cf7013f2, 0x297eca522759df7e, 0x2d89282cef20b5a8, 0x1eec2344b54ebb5d],
    [0x83d83f928aecbed5, 0x71ee008081d1a37b, 0xb1b80cfe7fc4fdc5, 0x7d3c2f7ffa7d307],
    [0xa5571ad006f36a2, 0xf444baa97cf15b11, 0x2c6fe28b0e10cda2, 0x2040b72eb4e1314e],
    [0xe459c36943c0c7f, 0x654c2493c5dc21c8, 0x657b02e1e1157635, 0x968c69a272239d4],
    [0x1a2eb45da5e1deb3, 0x5147f4127734718, 0xa75d148f34079406, 0x113daea091f19279],
    [0xe0253d7010c8b0c6, 0xc8ea56a6ba6680ce, 0xbeeed4ce12162d16, 0x1db9caad8a73497a],
    [0x147dfb298d747c97, 0x8947bd7e1010a9d3, 0x422544f9a789b481, 0x323906b531b036a],
    [0x61b14db3e9e5ff36, 0x54e9fdd72aa912d, 0xe9191f6001fe8d0c, 0x2a17b02e605c66f2],
    [0x50bf196b9a1793b3, 0x2a2ff12ff86a3a7d, 0x7da0f51f31fb1702, 0x20215701f065bea8],
    [0xf1258d3d15e9c58d, 0xe75c8d3098463728, 0x6c798eae2e37fcb0, 0x2ffb3a8d5050efe6],
    [0x8b1661af76c42d7c, 0x8ce77b42c09f2561, 0x124ea788b0ba7d39, 0x42aafa50849b504],
    [0xc33b15d2a20b8d0b, 0x56ca950959500807, 0x8c7c5f2729776fd6, 0x1f0760c47e75e298],
    [0xf47bf246fd338295, 0x93b7bd074de9dbe0, 0xa8175af1dae1daf0, 0x1b41324592d37faf],
    [0xb0f98fb799fefa2e, 0x8f219dbd924d7786, 0x88f49e52fce7167b, 0x26dba58ade8cda1],
    [0xcb2f1c685b255442, 0xf69cd054922b7809, 0xcd54a82d526e0861, 0x1326782be064b822],
    [0xcd8217f6ec0c5952, 0x620429caf2b74c1, 0xa425c24627a01d5d, 0x140941464435a4d],
    [0xd752875cd6abdd7a, 0x2386b448bf2c652b, 0xb4437495d3525140, 0x16d038333ef8265],
    [0xab04ff3a666ef793, 0xa94214fc64e23eef, 0x2452086053472baa, 0x14b3bded0283d8f8],
    [0xb4de6b840cdfce11, 0x71080b61cffa5cfc, 0xd7ba50361df7b083, 0x265423dd06e1bc30],
    [0xe986ecb25a517c43, 0xee69f820a38010b1, 0x5285a62673853db6, 0x28c4d3106aa55142],
    [0x3c0f4a642184f33d, 0xb7056fcf82ba878a, 0x2c6c77cdd3d9fc71, 0xef4196f06abd4be],
    [0x9ddd3b35aaa852ba, 0x4d41fff26116486, 0x172beeef085b1602, 0x9ae72038e07e063],
    [0xf868c5aed1d5a957, 0x2d300ac1001b2cc6, 0x9473cbf173a65a75, 0x1e653d313dc085a1],
    [0x97affba00cc0266b, 0x7861bd3fde394a72, 0x7d876b437a36a5a0, 0xfc8d4790130083f],
    [0x28a4ceb64fab9335, 0xeac7d10cabb324cd, 0xd59ad7c1cc11f1f8, 0x8889eb9c02f2805],
    [0xc08f2f94596579df, 0xa578a4bc650b9ccf, 0x4fc8c7d9b98faaaa, 0x5e2245fb34a0b6d],
    [0x283c1edd985a8e75, 0xc03b89d27ccddfe6, 0x1af2121de29d1237, 0x1f303116020fcf15],
    [0x9208913e3da2ee1d, 0xa40a67621147f49d, 0xf1ff6e7f2b0f5874, 0xf0deb6bc06f2954],
    [0xba47b1e715b98a76, 0x99f8a881cd5ded3f, 0x686431f11be67689, 0x138bd70bb31ee416],
    [0x75326751ca3587bf, 0x67af7eba4a376996, 0x4077fc8afa78000b, 0x2323cc181a6d9600],
    [0x4e636ea39bb2d47c, 0x3cd9a249f3dff29d, 0x916adf0ba2a13b37, 0x2cc5a935240839d0],
    [0x86f6e33e497d4301, 0xd5626f84bd9bd3d0, 0x135771a5613be1b9, 0x2c2f7e211539740f],
    [0x9d4981576f60bf7b, 0x83a6d6fcde6de09f, 0x8aecd5b9ac2c1e86, 0x23a3b12944728d9d],
    [0xbd97dd0ced63a2d1, 0x5cd6d3afde925b4, 0xc4882a80a9b53bf6, 0x98c6085a8de8062],
    [0xb0f98fb799fefa2e, 0x8f219dbd924d7786, 0x88f49e52fce7167b, 0x26dba58ade8cda1],
    [0x1ff3c053799d5798, 0x97bac5aed1220abf, 0x41b7610a5ca3ba03, 0x2b1aa48ed0613306],
    [0xad39a76c2625878f, 0x2fde048b85315e4c, 0xd703c5613ac9c30f, 0x27cfd05fdfaab10],
    [0xba9ff0e6c32c76dd, 0x7cf4f467e72d878a, 0xa0e970704987f362, 0x2c6768184cf84573],
    [0x71de03c5fed8233d, 0x5464278a6d593dd8, 0xcd208878039549f8, 0x1660e8db6fb22994],
    [0x4564411eb381b38, 0x537ccac39575313c, 0x9b517fded392f636, 0x583531effd84ca6],
    [0x2de156accbc68485, 0x8a5673364ebb84b8, 0x665302317d2ef8ba, 0x1b1f369306d9312d],
    [0x42f2294ad511e36a, 0x11e5687ac8bc8b0c, 0x62e0ad0702b7c204, 0x26e1ae1e46325eef],
    [0x8b48f35117cca600, 0x6f63198e43ce9ded, 0xbe8d6d60a901e6a, 0x2267a248407bd8dc],
    [0x4e07dac544146d05, 0xf3404fcdc1889610, 0x75e265f24f928417, 0xaf3dae82886360e],
    [0x36856446ce68262, 0x379ae8066dfa8824, 0x8671a961e8182ca7, 0x1322272068ace853],
    [0x70b3f66d22a865ac, 0xdd0d43deb5d5fce7, 0xd388dc3bd0fb2160, 0x2ad6d87af121d4b9],
    [0x90014d6824e9e55, 0x64a71c8dcc07db41, 0x87642ab36796e644, 0x2db628ad83bdb8c],
    [0xaa30eae1be85a66a, 0xfe5b1ef2a88262aa, 0xfd571227cd8dd395, 0xbcc76f8301e3daa],
    [0x551523f0052f2ac3, 0x874f40fa0c021102, 0xa39845e34a8fff06, 0xe953f3e2a6ea919],
    [0x1674f9742de6ce9b, 0x3afa929619e124fc, 0xee6dabce4945012b, 0x4ed6096b59252ce],
    [0x2e4f73e9eb0c1521, 0x8a8f05187a50156e, 0xd5e763ba6f401e03, 0xc45fabe45fad457],
    [0x96d91101f41a8ebd, 0x63705cfe04a0023, 0x7ca72e4abbc3ca38, 0x9cd9ddf426f07cd],
    [0x8b6798aea8bf8116, 0x6e10f7eee7eb4d8e, 0xd02c7dda6fc39b98, 0x37124c13e8f5393],
    [0x6c36f54f99504c10, 0xda9dbaae3a85d525, 0xd7ad2a6e2f81e766, 0x12326c23b50b4f2a],
    [0xe4ad9dadda2d2a2d, 0x6382d11310d53e11, 0xc09ec07ed1d56584, 0x27097f5dd86e6bd0],
    [0xb0f98fb799fefa2e, 0x8f219dbd924d7786, 0x88f49e52fce7167b, 0x26dba58ade8cda1],
    [0xcf2071a97c55188c, 0xccb1f84a03670a65, 0x148d90bb4ceb0cfe, 0x213719ecc1401b7f],
    [0x796fda4c4a75e067, 0x9d8d81fac2ed57a3, 0xfd8f99bf3677cfb6, 0x3ce9eb2e5a78e09],
    [0xae1f8d2212822423, 0xea78f629f40050f9, 0x2ef8c9e8132320a9, 0x2085f6b2ed31422f],
    [0x73c0441f46e25d7b, 0xb54cce28ad7025ad, 0x88ca80f40bca9ece, 0x18c42b10a0239a07],
    [0x3415f525ee1bfcb4, 0x20ab91104076ba09, 0x9e2f4552a8f61e03, 0x2296d46885d7edc],
    [0x42e27f6b7e1e3fac, 0x5faf6e8e51a392f3, 0x647c8823c1f0e796, 0xf464a47774953e1],
    [0x1e98c4fef8fbb126, 0xb25dc96a71a53667, 0x95ff598c11a257e2, 0x1afa5a730a377f75],
    [0x5375753a9ca38ad6, 0xdb62bd3d45b68fd0, 0xf2729f6851a372c7, 0x275f04d5ff1c821e],
    [0x4c5c19a4588f11b1, 0x78d8b8aa112962f3, 0x4586bc866bac1bae, 0x1ab45e9a2aa1daec],
    [0xc467fb7ce1a0d9b1, 0x76df8671ac3817d8, 0xc19c1b3e4b52ad9e, 0x2c2b2b27465ba8f6],
    [0xf036bd19412410e7, 0xb7dfde77369f2033, 0x414a1f19bb9bb0f8, 0x3cc2c6cd22dd586],
    [0xc2bf415e847705ac, 0x4ee05cb2e7c0791a, 0xd9c414d067a6cb48, 0x17b6daf401b7e08b],
    [0x21cf814e846cef3, 0x88e746e1ff0a8e41, 0x2e73981b3d2da645, 0x43084224ffff7fb],
    [0xa91341747818b125, 0xed485b5d49124232, 0x379f19107fefaab7, 0x19d25137be34aa73],
    [0x676235361805f797, 0x79ae42cbd8af8b9c, 0xfcab38cc1f033d0c, 0xfbc00ac7aab927],
    [0xcd32ce786675b85a, 0x86a692f22ee8bb70, 0x53c5d5ab716c6155, 0x2a452e57d835dfb1],
    [0x17b0bd83650ecf59, 0xb7b7d3bd96afb184, 0xbb844ad27cd712b8, 0x14ee41c5beb4f4ee],
    [0xec29867998bdeb1f, 0xf246e4d018a85a4d, 0x4afd3ed3adcb59a2, 0x151e1b6f64a2a6ac],
    [0x233bc513eef1d289, 0x44046eff2d20ef3e, 0x6c26b97276780a2c, 0xdbc95be9577eda2],
    [0xe7d10ee2ac206735, 0xfe5a8720609a459d, 0x8d4fa535297d2349, 0x2142c00dc3ef56e5],
    [0xb0f98fb799fefa2e, 0x8f219dbd924d7786, 0x88f49e52fce7167b, 0x26dba58ade8cda1],
    [0xf5065f4fdb362030, 0xee42d86542ea027, 0x37da0287f7fd5946, 0x14f9e34fb8cf9020],
    [0x3015a320f525f3ea, 0xc0720959f5aadd47, 0xa21687071d9596f8, 0x1af072ef30b93499],
    [0xac7787e23d513562, 0x940c43b6c7606496, 0x483845158d798af4, 0x1f79f8f436951eab],
    [0x4f8a99ea94a7f9d0, 0x618b0d2bb14bf005, 0xe58b64a629d066b7, 0x32ac1327d91fda3],
    [0xaafbf105bb982969, 0x106c3f6958a8fccc, 0x626e4c7ad7808201, 0x1690528ebb80ebae],
    [0xb1278c9090879724, 0xf8922b607e61fdd, 0x17cba22142434209, 0x28d5726bbe2136f7],
    [0x282c8f24d205b2aa, 0x56bbd0a40ae0f4bc, 0x2436f8c43ab37463, 0x2b8c6cdb0da43e1a],
    [0x6e8bcf994968ccc7, 0x6f4ecec14d8a9e90, 0x16b0ae4b377cb294, 0x1057e1a29e1cf4f0],
    [0x78e98dd167a02c40, 0x253e035e4dd530dc, 0x9b5cd865110cb0f7, 0x26175299ec4bce27],
    [0xcc3aa96a06023078, 0x3c6ec6166864a3be, 0x7c6c79e2faa64282, 0x2fe4d13a9ea0682f],
    [0xc04672be2e26ff80, 0x91a530c7fe1a7e15, 0x8af83be51d4d8fcd, 0x8faf60f2754c6f8],
];

/// Part 3 of the sparse partial-round rows for width 11, as little-endian limbs.
pub const S_DATA_3: [[u64; 4]; 256] = [
    [0x13c0e2a7897f2ac3, 0xb4441c494e4e6215, 0x5061cd44cfd53e59, 0x1125b0b907826810],
    [0x7f291dfa0a6b7c87, 0x6ad7a93a350ccb85, 0xc200984a2e6d96fa, 0x2ca18674217c0814],
    [0xb8e66e7557a13755, 0xfea755b167581b91, 0xd7febd35e71555b5, 0x1b654e8ca3777847],
    [0xb9ec9a26028fc3e4, 0x40ce1ea986284074, 0xa542332f3cc646f9, 0x25cb5e571aef3c5e],
    [0x71f0365054faae15, 0x3935fd2b531d968f, 0x180af20ec59ec32a, 0x10152a1913afbe44],
    [0x122c85c67a61b3d0, 0xae9385a676104de, 0x9e46d11a1e3db53c, 0x27d1880942fecf4f],
    [0x81dce13db425685c, 0x6fd6dcba566709cc, 0x7c232fc173d7db35, 0xb4adee6ba0170],
    [0xf9e93e4abecf7f8, 0x2ded0de6232c7e05, 0x8d07fb861278fc3, 0x1e4ce7b0213b39db],
    [0xc85cbd0fd01d2cb, 0x1b07684b08c406d, 0x3429010b3f89aa2c, 0x9e5542f2b8481d6],
    [0xb0f98fb799fefa2e, 0x8f219dbd924d7786, 0x88f49e52fce7167b, 0x26dba58ade8cda1],
    [0x2a58f3047f9d16a3, 0x83597f52c7290693, 0x5131911f4fa8edcf, 0xe24744fcd2826a2],
    [0xb13af50b3ed177be, 0x338c0fc3d3ec9794, 0x2a1bffc998f0ec03, 0x17a27cff4f6f9a2f],
    [0xe5905c2a2b2eccb2, 0xb6ad0c3633b351ab, 0xf688eaaf3b9030c5, 0xbf90dbe6022bd7d],
    [0x120eb27e2b19783a, 0x64f8284ddcefaebd, 0x9696d950dbadb7b2, 0x2678e3c1f390d545],
    [0x69de4e1b8ed37599, 0x61b457f52d8498fa, 0xd22ad344e942b762, 0x26df8104d4cdb377],
    [0x11b8f03d73a2f54d, 0x1eeec6da2c0d7dd1, 0x69e934d2350a77c9, 0x29c0d6adeada68a8],
    [0xabffc8984451bf14, 0x307540b69bffe623, 0x186efce6e54a6070, 0x1517295c7a2561c1],
    [0xa04fbc8fb4ece95, 0xcc4d6e6921da3852, 0xfd04a93836438358, 0xd79894bd7300df6],
    [0x6c71223d57157917, 0x237a72b96800bcdc, 0x43811029b9a5c412, 0xbda733ef7b53f58],
    [0x35b81c7e16c0a1b1, 0x94aaa2f3e066fbeb, 0x8c86f2422ca4786b, 0x27d91c5d822f56a7],
    [0xf8862493847431e0, 0x260272a68d32b914, 0x91888860adf0392f, 0x1e6dd8c7e739fadd],
    [0xb235274ca89fb5f, 0x1b6b7ca6f1211672, 0xa16c0aef5afdd73a, 0x115d86835c20a27c],
    [0x60990dcf935aa50f, 0xfab288047a2df5df, 0x39d9ec2aad776278, 0x24df0f59376b1b5e],
    [0x9ab8ec2087491be, 0x7946c584049012a3, 0x5c6ac79eaee96e08, 0x45885167ee8e69],
    [0xdab2bd0fe365bae6, 0x6ca3c4148b97c13b, 0x827685be272a32a3, 0x44b70f5e0df4319],
    [0x979940b14d736f15, 0xcafc79332571f133, 0xf4209a1c99566705, 0x2cc8eb658bd3afc8],
    [0xde3602c3c4fdda0d, 0xe547c4a6329b9902, 0x3030b0fb02fa7653, 0x238c44c84ee349b6],
    [0x335589b06ff77be7, 0xb157e995ca21aa0e, 0xdb2b01deb8264a9e, 0x19a32cb6029fcc93],
    [0x5e9f92748557933e, 0x2ee2f551d3d521ff, 0xcaa8cb6afdbd00c0, 0x1c8612ec98aa9278],
    [0x859c9211ee4bfd50, 0x7748372d2d39f59a, 0xd718f8590f5f9de, 0x2a6509f5e770cc5],
    [0xb0f98fb799fefa2e, 0x8f219dbd924d7786, 0x88f49e52fce7167b, 0x26dba58ade8cda1],
    [0xb77dee8d44d6ded, 0xb2a7312af61fb982, 0xe8f3e7fbe1712ab2, 0x1bab122c560118be],
    [0xc277b13ce2378217, 0x87414c3a3cc27ab1, 0xc0c98e32f05fbce6, 0x27172e3eb51483da],
    [0x5741195b98d049b1, 0x4b73bc9ce3615650, 0x8cdaf36b92bff06b, 0xa9e3d7f3ef34d13],
    [0xbb28412fd2bb44af, 0x5e206c97037e01ff, 0xea09ea840efcbafa, 0x1eca82667b9ff6ad],
    [0xc3d3e970f910cd77, 0xe02a2cb5193944, 0xf5f94f9b10baa21f, 0x1dd8dfcac157843c],
    [0xe0eb9a57bbf1c219, 0x68a40692a366936d, 0x9b88d7db407b00dc, 0x23a1e6890522a89b],
    [0x4c71ec047975ff67, 0x8c7984f1c77cb606, 0xc92f8135192c87c9, 0x204f236b39b9136d],
    [0xa63e27aa91eecd53, 0xbf286443fa443590, 0xd1ce1e4d22b330, 0x2c7480b893a528fe],
    [0xb2904adfa4645843, 0xba5de9ef2002cd8e, 0x698c0fc6deb4447c, 0xc5370a183a6f75b],
    [0xd8321cda2b7b4789, 0xd61d44b518ea8848, 0xb6d784735cdf4640, 0x237300db179a8dd6],
    [0x6272fdce7b289da7, 0x955b266c6666ad88, 0xab4b9ef03eb202f1, 0xd9c58331bea02cc],
    [0xf833e17c62d92019, 0x2edaf41c2c754482, 0xb513e2dd0638ea1d, 0xfccf4375bda2c5d],
    [0x3884d16217d30c87, 0xa9f9c2c8bdd9f76c, 0x9a6c827f24c39f62, 0xc414e955b84493a],
    [0x2974008a312d40aa, 0x35d5a650b8ff51f7, 0xc4972e5528300d0c, 0x20544d89fcc7941a],
    [0x5aa6abb79a43c354, 0x1653f41082f856ba, 0x1171d8b74057dbb0, 0x1af59412421b520c],
    [0xafcecc13d324b51, 0x93bf41706724e626, 0xf728da1cf3a258c0, 0x2fc1a459440613da],
    [0x498a69b0e1f8c49a, 0xbfc36a338075bc01, 0xc73f148fc7f9891c, 0x177c1e93ee0ed483],
    [0x1f8d56bedefa7682, 0x3237cf111f04651, 0x425452eee49a4b08, 0x98c005b2959ede9],
    [0x6643e6db1d61978d, 0x28b4771bea862dc2, 0xc692c1a115cdc5ac, 0x15866d82d251f9af],
    [0x24963da9a91070bb, 0x6fe53fc394524ff4, 0x31f5051d228081b4, 0x2797e81dc6fc1e2],
    [0xb0f98fb799fefa2e, 0x8f219dbd924d7786, 0x88f49e52fce7167b, 0x26dba58ade8cda1],
    [0x756bd05d8c6aaafa, 0xf0c9587302f778d7, 0xa1525fe9e3566e9f, 0xfd25da5fe62ce50],
    [0xf28e38db12312308, 0x179c9248b091d016, 0xcc8c2e72ef95a937, 0x2a1a6a789e908952],
    [0x58749a03e2b04fbd, 0x17dcadce45eecb3d, 0xe2175534e9a5ba3d, 0x2bb3bf8f61d1ed85],
    [0x9daf303f5fe641d9, 0x57b8e39351823a81, 0x60eff18e1c7bca62, 0x1a30a88ce2e48fe0],
    [0xac37f3098dfd2d98, 0x5ac1e65aa7ddd915, 0x82e4e749cc8305b4, 0x5ecd325b357e474],
    [0xf518a997e4f72214, 0x9152f36b11468387, 0xd5cbbe5de05b6ede, 0xfd33eed2e51061e],
    [0xd2748d2514d37b0f, 0x7b9afd186f65e158, 0x2a6c60b086b8d8b6, 0x95e4c2caedb1de0],
    [0xcaab08260744f013, 0x59677647a5024e35, 0x929648db9205d2, 0x1842d38786dbac94],
    [0xde206a7303dff361, 0x874406355502644, 0xd5a788db1e0ffe3, 0x203defcfa6213a50],
    [0x49ab0a138c24c657, 0x1ac4885b719dfaaf, 0x6138cb7582c8522c, 0x2941a9e3edbd2aad],
    [0xc5c2c9edc53cf2b7, 0x896bf77e0673a928, 0x24111db07e677587, 0x10ff2a2017cba3c0],
    [0xb45e9bd80cf3c19c, 0x4c4884d52c17c604, 0xd33930cd48342be3, 0x26f456aaabdad81],
    [0x82cb2eca7e208d9d, 0x8ea65762bbe5fbbf, 0x92d5d92f9b473366, 0x28e34a4031ce3e5b],
    [0x2e16dce1aa9007a1, 0x64aad1ed9ce46de1, 0xd11f410d7fe958aa, 0x9479c03abe2fc4b],
    [0x4b1a29167ed608b3, 0xc1922ebb86400018, 0x78ffd836f543a2c2, 0x1901a62758c3b953],
    [0x3a387d558cf912ae, 0x46256f8d8c186b2e, 0xc96d7de61ba9e9ad, 0x24bbe4299e388e01],
    [0xbb799378d22033e0, 0xe8de772ca951c3e, 0xdfc9ab4d6a96731d, 0x27c84170d0a49798],
    [0xdafbd1ccb7696e1b, 0xcf9f9addaabe06fe, 0x8c085755f42f2c83, 0xf12a9b9e0cf4da0],
    [0x9dbcbf6ec0a2d7e5, 0x3cc180ce2351f270, 0x9fff73ee159f8a96, 0x2e34fc5a79f3d785],
    [0xffd2304a1bd31661, 0xd2c222065da0c669, 0xd1574127c9324560, 0x6d2b2ce15705618],
    [0xb0f98fb799fefa2e, 0x8f219dbd924d7786, 0x88f49e52fce7167b, 0x26dba58ade8cda1],
    [0xc8e2875b8eddf2ee, 0x849d06dbb567b978, 0xe09f1d9faa6ec48b, 0x5b22e29f9914100],
    [0x7029ec3df61d64a0, 0xd848312ac2172250, 0xd3a9d568d1fb3d17, 0x121d7d80eca14c71],
    [0x590770b5a63791e0, 0xeb6261ddb4de5a54, 0xcf53892614ec0e91, 0x248644294d40fc12],
    [0x7ee4a3f7c98aea88, 0x92fec743bb5e6201, 0xe508a23b38d180aa, 0x8fc50ee296f9fc6],
    [0xedb8272bd2559179, 0x74b7294f6cfe3ba3, 0x836df893982a593c, 0x2f233d2487f18e22],
    [0x16366dfa703e8d1, 0x21f50f288ba40ae4, 0x8fc6dacb15328200, 0x10f6d94022fd2c07],
    [0xe0603f88ea1d6ef2, 0x3bddd677a412bee4, 0xc9c4bd02ba53e6d0, 0x37d5df7e15cf95a],
    [0xf49d8b26553f3e72, 0x86f49e212ec933ff, 0xfe6c394b08317c7e, 0x12354c8b1801f10d],
    [0x9cb588f33ede8d0e, 0x1a39752cf710ed6c, 0x4feb1bb2ee0aa506, 0x79679dd2756be02],
    [0xfdf1cae7e8324ca6, 0xf068cfce1913a075, 0x7160fa1dd534f67b, 0xd3b424ee9455f13],
    [0x875147f526fbae49, 0xf838c40ade4a0710, 0x33b4b3938f5bb981, 0x227338281ee7da6],
    [0x384f46fc732f7997, 0x4807cce449087bd4, 0x7341651ca93dad43, 0x234ac22358b51937],
    [0xc0284739b26700b6, 0x7c472a0073bffe10, 0x622598933adab2a5, 0x2e0c95ffbe680fa7],
    [0xb625d5a6d9ba693e, 0xb8849197f9b08131, 0xb841d4270855d1d9, 0x15e0c89cc6c36a7d],
    [0x17478a1e3d255117, 0xf1c9cc31d0ff156a, 0xc1a4fbd1064faac4, 0x2f8952ad83b1ffb3],
    [0xe495ebd5f927d173, 0xccf668318c084453, 0xb68d73aafeb96047, 0x1c7c48183ec207da],
    [0x7d365a4db7cd75e8, 0x2ac9a3c6e351d0d2, 0x56c2b0537f108a41, 0xecf362a269cbb8e],
    [0x90782a7ee90d0de8, 0x11edcb915dc19043, 0x1c0c6cd9c9a0def9, 0x11cd56f9dedcb99],
    [0x3d40f4af2b53eede, 0x3b01592c65516092, 0x2dd9658694381cc9, 0x1ee74e2178baae84],
    [0x306bd7b00f0d7f7, 0x7bad7995f38c6ed2, 0x9c7f019526f71cc5, 0x12a2830e24c8bf4e],
    [0xb0f98fb799fefa2e, 0x8f219dbd924d7786, 0x88f49e52fce7167b, 0x26dba58ade8cda1],
    [0xa2141b2cc793fbc2, 0xbbccc9be1b67ed1a, 0x2d97c0b811a25584, 0x14e12ee2c2f82a57],
    [0xed9af33619fde33e, 0x12ad570260c81b3d, 0xba7905a9a3a1cae8, 0x4f32291e7636221],
    [0x442c5bc7e5fb7751, 0xfcf4a46be0a1b8, 0xf6e0413c8b510f0, 0x8a081bf1497e521],
    [0x2febce95fb7969e8, 0xdb7e3bf57c9675b0, 0x510d0feb89560623, 0x284571ffcffe707],
    [0xd56d4135d3c01ab8, 0x2ed6fc3303544047, 0x69dfb8ec9b4b3b50, 0x204b298a08577c12],
    [0xaa3701e8a1d0da03, 0xa0b0363b0241320b, 0x934bdcf53d8aa372, 0x484b3ef7bcf5d63],
    [0xc34ffa6ad622842c, 0x80152c04335b1dab, 0xa5b080cb9791a1fb, 0x9da34491e52c865],
    [0xaf9ca2ad67d494f5, 0xc5ab9ab1d385968d, 0x78372c54070d9c41, 0x1fa3cef56374f008],
    [0x29648955ad16f758, 0x87d1844c599feb28, 0xa2ca381e2037d649, 0x20b55b39b8df6f86],
    [0x4ad2e4178674564, 0x648fad9531f669e7, 0x96e295c21bef4dd4, 0xff1c5369778d4fd],
    [0x857509fa556a15ac, 0x9c9c0e428e47577c, 0x736b3f4612040436, 0x4c4c92112d998d5],
    [0x1f5033c8da34cd05, 0x5f75862fc6ec9465, 0x5e7d584e41fbd3cd, 0x27a72f4b6e989694],
    [0x194b54486158599e, 0xf645811bd65be579, 0x4f7becf06cc70a5, 0x2a1e46726ed90685],
    [0x7455e92a301dc93, 0xd8d0afb29b6e7f02, 0x8b1e5dd79edc36c3, 0x15dadcb67e30b77d],
    [0x1c8d2b9f3ed82dad, 0x1c9f18de67e21c81, 0x743a7a04502647c1, 0x29c1bcabaefb4954],
    [0xc522ce8dd99fe5b6, 0xb12f0c0b0dd25351, 0xf05e6c9243b69b77, 0x7d089a851d1c43a],
    [0x89bd794c6e9fc6b, 0x86ec3e721be4bb89, 0x18992f181b7cda77, 0x1003d2e1e5368d13],
    [0xe31109e6a502ea15, 0x71ca807924c54a53, 0x484adecef423434d, 0x1747c287ece311b5],
    [0x363884ce7e30f017, 0x6e74d4ac31919c41, 0xe62898b2e05c17f, 0x134eff601bde8da3],
    [0xc207175526ba3e27, 0xdaabfdb5708edc2c, 0xcf5809958671e304, 0xa2d92f328082a3f],
    [0xb0f98fb799fefa2e, 0x8f219dbd924d7786, 0x88f49e52fce7167b, 0x26dba58ade8cda1],
    [0x72226148c0a3d710, 0xc0b9e82194db68d0, 0xe8a00caa83989f16, 0x4ebed2d43be5a74],
    [0x31c93e7bea1fa839, 0x79db84d33f78204a, 0xf697515069056670, 0x29ab24663cace590],
    [0x4ac2430eaf521d78, 0x3bec8ea200d62207, 0xf46b65496c66bc6f, 0x14351a07d387943c],
    [0x882e8642c8fcee02, 0x3712c523c67a9d38, 0x376168b207a6d720, 0x1c423576a075f1d7],
    [0xd04df68ba0e29228, 0x7b210916de258f83, 0xf46211743b632ff0, 0x2c0564f1c52ac2d9],
    [0x1790793712a69525, 0xf007c640faaac6bd, 0x4a06c9caaaf787c2, 0x7ae7e44ebe17fc2],
    [0xc31ed6a0fd2f4293, 0x839b09c5771413b0, 0x4afba7d364ab755b, 0xc4e1c566871f348],
    [0xf7f1227ddd8e7fa2, 0x2e05f196fd3331b6, 0xf2eddea08a30a9cf, 0x17c4f2873e2da004],
    [0xfd65da69a1205cec, 0x39837d520c5f6f0a, 0x593c98a899ed92d8, 0x26f0a8ab7b5b0ac4],
    [0xab1b787681bd60a4, 0x78076c2b63ed63d1, 0xfa168dc7137afa67, 0x94dcf41915c6c7f],
    [0x94ea18c027f1bace, 0x8da47e9d19097632, 0xad8feecc29a4d77d, 0x15240235912d9c5e],
    [0x76bd9d3e8247312a, 0xc3bd785d86b51b20, 0xb9fd176c7200df86, 0x2bfec6d12a548b0f],
    [0x68767b88c80ac82f, 0x6529a26cdb391514, 0xcc436b70b029e014, 0x15954dffe4cd018a],
    [0x87713d76368302da, 0x94cb458d8a30b498, 0x560b348b1c5b5268, 0x1f430be26a11f722],
    [0x68292aac083c8f3, 0xbb82dfdd3d792244, 0x3c312a8cacc2a465, 0x1360de1351ff67b6],
    [0x4d84d21ce81590c4, 0x1ce5d454fcf1c9eb, 0xe67867a24eb6ef2c, 0xcae448f98a72597],
    [0xfff27ae4c8afbc95, 0x317e75fbb5b22a81, 0x54f27fab65e5fd1a, 0x20e9336dd103f61a],
    [0x30c0ef34bba74020, 0xdbdfefbdb554b3a3, 0x6730e7a2061c3aa2, 0x2e36c0ee85334290],
    [0xb55553eef1a96dd0, 0x82e1c20ad3d4ee, 0x16c9d73495cc08c6, 0x21be1082ecbbc3a3],
    [0xc93e29366df96dc2, 0x2f1ff409a40be89c, 0x5b614efda3904964, 0x2c7cec0d47c779dc],
    [0xb0f98fb799fefa2e, 0x8f219dbd924d7786, 0x88f49e52fce7167b, 0x26dba58ade8cda1],
    [0x91b5691321f34f3c, 0x711a41833390aa62, 0xfcc38d1a3501b462, 0x287c8d33c0bd8b9f],
    [0xd615558fbb91a31a, 0x4d7be41c62a47525, 0x6e253a88a02b039f, 0x524f490297bfff1],
    [0xedb429ac4de7c61e, 0xc19e8c7934e91f3d, 0x86cff7e2417d245d, 0x3a6f7a96eb42aca],
    [0x8b858ba214844d1, 0xac8d47ef0634230, 0x993ffd435ba45f0a, 0x155dd1bf1b5319c5],
    [0xce8330ed48723773, 0x7d7df8dd58f6d69c, 0x508f369e376345b4, 0x1970a0db54455db],
    [0xced98a8daaeca3f5, 0xda014f030b5785f3, 0x6c23a52ef2b39064, 0xa17d8e77907e26a],
    [0xdfb6a221d4897807, 0x2f211679cca63e75, 0xde26736dc7fef94f, 0x199b42a0db3b829e],
    [0xabbf0e89df5b8e61, 0xbe4b418fb7edf32e, 0x64f335e9cdf306b0, 0x1d492d7c7daa80eb],
    [0x498e6069d0671ad3, 0x97c671fd729bbd4c, 0xfffdbc57db59d038, 0x17c60af0291bf796],
    [0xb906432afb47791a, 0x87bf5c947ca5192e, 0x3b2255aa0b44c45c, 0xc646e58e3442bf4],
    [0x1e312c6998a952b3, 0x20d7ec90a58601eb, 0xea87dcebd6360dd4, 0x27bc23b6488e38e2],
    [0x9745160b03cc07be, 0xca9ccad68afa0a41, 0x9cbe2f91b2f9a1d3, 0x1c50a70dabeed7c7],
    [0x62620484e691f6e4, 0xe9c17059b191f6e5, 0xec7b0ac90719be72, 0x120ae724abcc772],
    [0x5217d64978ad803, 0x1975165144f1d21c, 0x43c4f5cff4c93958, 0x69f84058a0565f9],
    [0x7e7b0ec28f5905bb, 0x1e451ae658ee0b03, 0x50cf996b086aa3a2, 0x14a086d34d0cb4c0],
    [0x96c8561309f1392e, 0xe88780b37d4d0e33, 0x8b1f6eb408f5f62f, 0x2fe2f8e67ac2734b],
    [0x3a1c83e29b54f3b8, 0x989aa5328bbd46bb, 0xd789ba26c5956069, 0x1b125268df7d9e01],
    [0xc4e11987c2e2cc59, 0x8918cec927d8b711, 0xc2e1e2c7415c98b7, 0x3006fe14ef14b876],
    [0x4527eacf775b5be7, 0x5583036a24b7e652, 0x3fd7926c431b68c7, 0x19332e6cc8221b2],
    [0x719df14c4ec967fe, 0xe289028ac4e51285, 0x97897c286142833f, 0x2780775cfe1ae1fe],
    [0xb0f98fb799fefa2e, 0x8f219dbd924d7786, 0x88f49e52fce7167b, 0x26dba58ade8cda1],
    [0x30d53431c3f787c2, 0xea28de0e540822b5, 0x2a38828196f72ba9, 0x1474d911726d9813],
    [0xce647bc1984cbb10, 0x8573606ab7ad7cd0, 0x2da1a393d60b87bb, 0x29778cb7afc99ff6],
    [0xc01b766770646814, 0x8c79afbba7885d27, 0xa027168198d87135, 0x1483d10c35376ed7],
    [0x3cce819a72a11591, 0xc0ac001c6df93846, 0x773bdba0f70801ea, 0x1a8c31c239faf47d],
    [0x4ebf75f58dec4831, 0x78b6f7639874ec40, 0xb0eeb649f5c7d9c2, 0x2c58e07b869bc14b],
    [0x6379029023c3c6d1, 0x14f5a54ca14c86a2, 0xc07c9f303d6278bb, 0x1d649850732837e1],
    [0x4c42fa628b3a0c, 0x340f1ded7e2ba209, 0x119170da14128f6a, 0x14306d8668280502],
    [0x5ef8416e9dba3a1b, 0x7d039e23dc9cffe0, 0x3774260507365630, 0xd417ecfdcb59244],
    [0x725471f582019156, 0xd8b417f1161599f6, 0xe79a4b63249d1f98, 0x1b5881474a4679cd],
    [0xec57928fb1c67d64, 0xaafc7fa6f75498e8, 0x4ca7121c9de0c4c5, 0x2c571e0b35cca4cf],
    [0xbf46ab2c90583770, 0xb79d05904e37c9d, 0xd7ed99a69c38a6d7, 0x2637d9a03ba20a6c],
    [0xb6026e513d6d393e, 0x7ca783401860eba2, 0xcd269169466eaa89, 0x1cde7eb4a685a52e],
    [0xd4ef180dde2f489d, 0xc8b82136358d239, 0x1ae482fe7248567a, 0x4f817cbdfd44539],
    [0x46403bfdbb087d7e, 0xb65c95fddade4170, 0x8f51f86309d5288e, 0xda99ce626267611],
    [0x5e5aa2c058879ada, 0x625ff3b0fb76ca92, 0xd1d321b72070a152, 0x2505fbe37c3109a4],
    [0xf601efb3d44cd5b9, 0x4cdb1b19f69901e0, 0x5db30735edac8461, 0x2783007044f2d12e],
    [0xf0b887f4ceab124d, 0x155e6db891ff498f, 0xcabe622df4cffdd8, 0x1e145eaedf86b1c5],
    [0x962382227a434540, 0x112d45cceb738558, 0x6d212cf184b969f3, 0x8bd690af3ee78b],
    [0x44087af9f6187b4a, 0xb7e4dc0d26e2d75f, 0x80125247cb6befaa, 0x5a5462e764a4f47],
    [0x8a62cc21d43e6e7d, 0xd1a9740471de9790, 0x9663c3c9da5cc43c, 0x12c972140783d788],
    [0xb0f98fb799fefa2e, 0x8f219dbd924d7786, 0x88f49e52fce7167b, 0x26dba58ade8cda1],
    [0xa52d969201f97f7a, 0xd12343460b04ba93, 0x726bcbde7de40cad, 0x16109bf9f0eed78c],
    [0x4d6aeaff8e492030, 0x782c60d4ed7cc762, 0xb9a9a29e3cc73b3b, 0x1e85f44c0c271ef8],
    [0x1ed6971fb3aecb86, 0x4abcc49b6528e84c, 0xdba96ab5bd80b15d, 0x9deb8ecc3bb2cde],
    [0xe591bea4d74b5c7c, 0x39c0db05bc5d98d9, 0xcbc6a2b256bf8887, 0x7ebccff0e97b9ff],
    [0xf4e9eff7608eb81c, 0x9725342879f76afd, 0x32f641febec0b25b, 0x2124e4a429fa993d],
    [0x776b40521b29e76d, 0xd66a4bd4d756ead, 0x62aa709ef72365c7, 0x1f4217ea25fafd2a],
    [0x884cd0c152a35fe4, 0x2771f57424a761cd, 0xb7eb9555c0dd4446, 0x10fdddc5f968f32b],
    [0x3aa38bdaff0182f, 0x968c80b9e0655538, 0xfe25f26526e409c0, 0x201c0f5551305ce9],
    [0xf6222d30821191ff, 0x8939231d1287580f, 0xd5c252b7cbbe2867, 0x1cfeab50c568b3d],
    [0x24eeaa1bf6255765, 0x5a2e85b513fe3a96, 0xee21f45cf38de833, 0x2b4c60bb89f1ab1b],
    [0xfab6cd30a07ddd8b, 0x42ec61ac331af40f, 0x29ee46322acf51d4, 0x285dc6058b80d188],
    [0x9f435c6240f47603, 0x356fd182830d3b3e, 0xf60d6249ee87d05e, 0x13b9bd7d2cc334d2],
    [0x75e1bb5771c10825, 0x432083d85fdd6a8c, 0x7e8d9859c523f99c, 0xfea707f44889ee4],
    [0x61af824725d9e74f, 0xab157ac28330abde, 0xcb677ffe4e09ee7f, 0x809a77036dcfb9e],
    [0x6f2e06ea9dd4e208, 0xa9397a6d87d461fa, 0x406efdb0e1557c03, 0x152bb1a773b27f82],
    [0x71acc532f5fe9290, 0xde5fbe6aaa9e30f4, 0x1dacddbcac71ac28, 0x29da79b1af8bb1fd],
    [0x95b85ad6423073be, 0x42834e93f4560d7b, 0xcc57733b02751f51, 0x252419542bfcae],
    [0x53d2f82fd8cf1cf, 0xc104c2b0a553e6d6, 0xc27fcc361067f1b6, 0xc9ddd8aed9e907],
    [0x3caf8e4ce36e37e0, 0x863fe4753625c4b6, 0x982ca78c015cfb0a, 0x2311bf775d429e2b],
    [0xe95757a0664d4b23, 0xd08e5aea781b7358, 0x623072d419bcf39, 0x2a72547e8d5bb41f],
    [0xb0f98fb799fefa2e, 0x8f219dbd924d7786, 0x88f49e52fce7167b, 0x26dba58ade8cda1],
    [0x19a2d2dcfb41112d, 0xf09454a9515ae5c7, 0x17da17f6b1f5d00c, 0x13ee4f15f3b425aa],
    [0x89e59bc1a0169f61, 0x8b1a03757c0b4c76, 0x6dd65c372d302d69, 0x190daca6e75275d3],
    [0x354e92ba3ec6d37, 0xe94172fe29818bf6, 0x6e19887d6aea50a4, 0x994ac0e199f0444],
    [0x482076fae55c450, 0xee72f5a54cfede51, 0xd2cc738a968ff2ac, 0x19d35ebcf34f6d72],
    [0xadd559025c0decb9, 0x731851ed9c895f19, 0xa9880f5a6ee1677d, 0x13b39ce996b064bd],
    [0x6bcb970d30b8adb7, 0x66621d870199dcd0, 0x2c02855ed8d31431, 0xd5302803701084],
    [0x3c240f33cb0a1476, 0xc9811199329ac1b1, 0x1c143c12cd741320, 0x26abf84cccb79dab],
    [0x2122abd935054209, 0x29267c0fe03259af, 0x6155e5bd18fef09e, 0x2f94d075a38862b5],
    [0x408cd284c2752b32, 0x81340b03c22ece28, 0x81d2a14baf97ce30, 0x1d073e9398a1528b],
    [0xa558f3b4430abd2, 0x4cd18a0180ec41db, 0x27f73f93ec064426, 0x1dbebbfaeb42d7d7],
    [0x6fae31b464234fbe, 0xa13594792f6d48c6, 0x763ae29dd6d341ac, 0x2fac339c24fe87e3],
    [0x9de0103404e073b0, 0x3f8484a1f4a72613, 0xca4c4ab69cd041eb, 0x89dbbd04d315a29],
    [0x7f4975d098578ee0, 0x38e25987794b6548, 0xe57a6112b84c02fd, 0x7b9bd575f2ab6d2],
    [0x21900ffeca0346c5, 0xa04873b239fe06dc, 0xc3bdaaf1770c3cd5, 0x26563d3ad82384b0],
    [0xe3d6341e1650c80b, 0x74595c7b79722847, 0x738c163f81ab3637, 0x24d55232a8e458e4],
    [0x8b09546416a42a75, 0xd233f38d778756dd, 0xcaf5e8c0d27c8a96, 0x15f6a6be40f74352],
    [0x6eb438897ca67cfa, 0x9d8ad8b48f675304, 0xfd894b6c8c78d033, 0x2e195aac1f98bb6],
    [0x4dd67c84fb30e574, 0x177e2fbe84b253cc, 0xa84bfe85b6f624b, 0x240c714f2346df0e],
    [0x8117bc95de0a133, 0xc2de65558b61c63d, 0xd0ba368ff59ad375, 0x15f8e5e81c571e42],
    [0xef329b4a2e4f365f, 0xe72cedce2f9e697c, 0xea5f4a54c4202293, 0xbc0472f8203755e],
    [0xb0f98fb799fefa2e, 0x8f219dbd924d7786, 0x88f49e52fce7167b, 0x26dba58ade8cda1],
    [0x72ba8ecb87eaf0bf, 0x79d2c58fa350b375, 0x284d3f2d84931109, 0xc8d9a3a7bfc7f53],
    [0x655720f8a6c77857, 0xf21894f3946b0126, 0x7d099afa8c1e72d7, 0x2a431044a8b80f84],
    [0x8373cc072d53ae2e, 0x6767154c7a9d0491, 0xa67078819652478d, 0x1181a1791fd2439e],
    [0xb227266741a7de7a, 0xd0861c6ff9be2459, 0xf92cc5dfec764630, 0xf0ccfb008217426],
    [0xac500e47e9844a9f, 0xe70b45db7edb7ee2, 0x33e8e46fc826c9b3, 0x41f755b4afa6ff1],
    [0xc2edc590016b5709, 0x60d6109b98570800, 0x54ecb92e3006d8c5, 0x1751a37439e91245],
    [0xce295cae5881865a, 0xe84679aebf5cdf21, 0x5c7d29f75e5c341b, 0x2abf7e7390de929b],
    [0xf5da10c2fed0be99, 0x3258ec98cb99c4, 0xc1227e8d26c8c7ac, 0x173d1a4bd47ad310],
    [0x4113b8b3ea6e237, 0xb26e044d9a460088, 0x4ee023480a4b55ed, 0x208d34eb4ac78f93],
    [0x2b47be6b1984fa62, 0xb13574c8f737e4c8, 0x550970d010e57191, 0x125616d001a18f80],
    [0x66fc03868c71abfa, 0x40e872e60fa6e77c, 0x742b194f3c2d4948, 0x671703eb5922282],
    [0x3651667a6205ed83, 0x81071649d6bb7634, 0x70a21ae7ea606384, 0xe335455fdb0c93b],
    [0xbae8781aedc2513d, 0xc0b0f000c7bcdca6, 0xc4e2a8c7f7dcea61, 0xe83b80d5c774f2],
    [0x7f5212eed8547da5, 0xb89b2c5a111bca59, 0x81eea51addafb135, 0x58c57cfec4eb7be],
    [0xc20b1bc8c5fad7c1, 0x938c8c20bb9cc0ce, 0x3f949179fc135b60, 0xb1f27ab7d0817ea],
    [0x560c9582b7f06ee, 0xce46072da5f7d861, 0x211b1fd9fb2e0717, 0xae5de9d9b873cc4],
    [0xa80be9073b8e0163, 0xebef4d85dc32ce64, 0x667cf06abff04d87, 0x4e515f4aa39a0a8],
    [0x7e963ecc6f46d376, 0xb1bb88b9b2084792, 0x8725fefa5ee70cd0, 0x19f6c6c86ba20bec],
    [0x73a56a785f657fe2, 0x741b18408ef108cd, 0xa9178351fe47f3c6, 0xb97af80e65d5a12],
    [0x57dc39b3f6a254c1, 0xf8f038edd5eba9c6, 0x7fb4ba3f1cb07e46, 0x11001edf4b578591],
    [0xb0f98fb799fefa2e, 0x8f219dbd924d7786, 0x88f49e52fce7167b, 0x26dba58ade8cda1],
    [0x55224c316c6de448, 0xb4ad238c11e28244, 0x2ea89a4c5248e21d, 0x1f57e91f818cb6ec],
    [0xbb1780aa611ac51e, 0x792af2641c0db97d, 0xf4001235f0dc786e, 0xbcbc929529eeab2],
    [0x89bd62e461669061, 0xc46b0d1c049e79d4, 0x20af4bef1265a368, 0x2ffec2a43cb616c2],
    [0x9fc2238d89d99383, 0x6ff0c72a2796a40e, 0x352d1ff2571411e3, 0x18cfa39baabd3a1f],
    [0x29c2b9aed41391cf, 0x5f649a40ed46a52c, 0x85e93d468c3686ab, 0x26d86eeda4663782],
    [0x150a21fc03826de9, 0x38b9991285c3d03e, 0x19112e48f3daef5b, 0x2120bae48bc4d0b0],
    [0x37d0ceff4b0d8032, 0x38ec6dfbefb43d95, 0x1027996467b9767b, 0x2872ab1dad0eebe8],
    [0x6d7911aace0ee731, 0xe190691ddcf2911a, 0xa3b5976ced621686, 0xcadd0bbb15b10a2],
    [0xfa4bf3ca8078870d, 0xfc8010f2d20a609f, 0xf68f375e239c28cb, 0x12f83ac35b2e971],
    [0x7d61c11aea6b1eaa, 0x99eea15d505520b4, 0x647f7204b141fb15, 0x247b58e9d413e3b9],
    [0x3279f5485290de69, 0x31a821e301a178c3, 0x2358633169e17e34, 0x13e4b5310fafb56],
    [0xeb88312117269373, 0x12e2b569b0e90992, 0xf24713a270573e2c, 0x1da54e38f590b18a],
    [0x1bf6a65a9599121d, 0x757a3377dfd6818, 0xd4633f180f515bac, 0x28b85a60621eb6d7],
    [0x18dbcc7509606036, 0xb7fa48231d536b3c, 0xb32af794cea9b7fc, 0x1a152410d786dc50],
    [0xafd64637e738f1a0, 0x59e7ac548342832d, 0xeb718c76b997538a, 0x92699deed292bfe],
];

/// Part 4 of the sparse partial-round rows for width 11, as little-endian limbs.
pub const S_DATA_4: [[u64; 4]; 256] = [
    [0xba56467c591a487, 0x9044e4bd92d81c1e, 0xfe707caa2d322d9a, 0x774bf3637103073],
    [0xc43857bf528cf79b, 0x6eca84795d9b104, 0x42154123ee5c0c0f, 0x1a2f16440b008c3f],
    [0x49d13d873648a8bc, 0xd58fd0a3123debf8, 0x68dd2ebce1907172, 0x149a1d50c2c217a0],
    [0x93f6e412a7b4bb8d, 0x9a97c8f67f606d70, 0x5e03b097029adfed, 0x246086052d1ce867],
    [0xdab9c4238eafa4ed, 0xd308369e4b26a165, 0x7da3e5d4dd74a495, 0xe2a84c4e9aa19be],
    [0xb0f98fb799fefa2e, 0x8f219dbd924d7786, 0x88f49e52fce7167b, 0x26dba58ade8cda1],
    [0xa4ccdea63b3ceed3, 0xfc30280f65ef1ced, 0x5ef7f77431acd332, 0xa62dc9863ad7e4],
    [0xd6440753ba97551c, 0x796c5e28a5a6e586, 0x3c04a6f3e904075a, 0x1b2446bbff67b409],
    [0x4368e1e5b1dcd59a, 0x996fe32d9f843535, 0x389eabcd7fbbc992, 0x165b84f51091009c],
    [0x197977619136eff3, 0xf9a5d17169a169ec, 0x53d0475afadbe369, 0xc193a00c3e7e8e3],
    [0x1fa8b87194fc4595, 0xd7f5ee0569d96d80, 0x3c857f94f2f12b90, 0x2088473c2b6a6ae3],
    [0xfd1708a82a5371eb, 0x3f8fe5335bd4642d, 0x86e9e7e1fafc216e, 0x8787d2cebcabac0],
    [0xce0a7aa7b2715cc4, 0x4b55ff7087f34478, 0x9c3f782d1abd5562, 0x11191767947a0e4f],
    [0x53df7a9df567f5e1, 0x9cd5d77a701688dd, 0xfff60aaaff948367, 0x2d28a1d818e8eb1e],
    [0x26718a087cb2b8f9, 0x73f0070ab1dd4fd1, 0x74f8a18e5b039dd3, 0x2fe813fab1011dc],
    [0x258861d9db249136, 0x284e6b19fd5d1fe8, 0x12f844c21af6850, 0x170e6e3fcd10c27d],
    [0xd686c587b4b02174, 0xf13e6134e807d7e4, 0x9ea8bdc485fdbcc7, 0x107d6816c1e3db],
    [0x9259dcf15f33cb96, 0xd7f2ff338e60e960, 0x493b5419c17e6c4d, 0x19758af0d83c9505],
    [0x49571a9d9890ba7e, 0x48121b7f1dede3f1, 0xddd9764f77d342e2, 0x94462f324ece93e],
    [0x57350e20ad3c843a, 0xfd0af2fb3ecdedf9, 0x7c6dfa2ff39c4910, 0x86086b36fcdb38],
    [0x590e0429a83b3db0, 0xd9d7cb5b2280c9b1, 0x158fede4808ced, 0x2e3cfaefc61b8b48],
    [0xae6989012f8d9fc0, 0xb8849f09a7f12c3b, 0x72dbdafad73f0954, 0x828cdea83f97fbf],
    [0x9eda523fd8c13ec7, 0xb2696a1c42ae60b9, 0x81a6d5efc6e31654, 0x462d87fc2c81859],
    [0x9dec312cf8be4dfc, 0x861e8e74a7405731, 0x4de9a75f6bd915d2, 0xe8224f26841810],
    [0x50f7550e31c5b42a, 0x3171425a1b484d10, 0x4876f77c9717a7cc, 0x89163233ad979f9],
    [0xec6dde9544f60448, 0x9f2d2122dd71b15b, 0xd57797c252abf631, 0x13f4fd6d8abcafc2],
    [0xb0f98fb799fefa2e, 0x8f219dbd924d7786, 0x88f49e52fce7167b, 0x26dba58ade8cda1],
    [0xf162541e43804c31, 0xc08c1b5b5850a508, 0x444d6246f8003ebb, 0x2cd268e81100d72c],
    [0x30c7e345ab3fc44e, 0x97f2a0851662e51f, 0xe3ed03f44c57b6a5, 0xdece92e3458e7d6],
    [0xa1092b003ffbba12, 0xc775704a57e24c93, 0x5a91ffec94d427fb, 0x2782c56f48794e22],
    [0xed857f5b65e618f2, 0x586b6ff9abca5d59, 0xafba58a89e4f46c9, 0xdea062e2b07f7c6],
    [0xa772f2956af6fac5, 0xf7693363d4311764, 0x15b3f9cd75aa20f9, 0x53f7495e4b1275b],
    [0xca6a862f46f64ded, 0xf1a7428bd738646, 0xcbca71235970b8f7, 0x2d8223dd32694c54],
    [0xf3d66ab0303845e3, 0xa5a8b219308f15bd, 0x2ed1114493287bcb, 0x230d3770de496073],
    [0x3ff319ef710c8e92, 0x473d83cf7345cc4e, 0x3c5ac7f28402aeed, 0xa08b786f3debb02],
    [0x8ec678d38d2f59aa, 0xa00aa39dfa9bb1df, 0x9fb3f77f12a70683, 0x1abec3768c3f0fb0],
    [0x46fd78d01a0493e2, 0xf953a3d2f7ec0488, 0xcf1462454842a9d1, 0x285759f5a94427dd],
    [0xd1eb0c873cc4be5d, 0xd589c08c487f8c89, 0xb5e39f369bc98b54, 0x2b4f0d69284e2851],
    [0x910c8f6d57b00875, 0x2decefe44e558246, 0xa2eaa60a6235e546, 0x447dbf76029e36f],
    [0x71c41ebe8e2b6af5, 0xc6b8b5c55c70f2b9, 0x9aa767153b11ae80, 0x275415ec21621773],
    [0xf2e55e1fad47d19f, 0xc634ec68033c4121, 0xdcb3dc28cadb4a2d, 0x1a7afd3f33137e9f],
    [0x83161a3f767a5cdc, 0x3882fa3d36a29665, 0x11ecf8a70c17d6b7, 0xda8b0bf0f0197a3],
    [0x1492ba94948d5ada, 0x75b9e52e8a3fddb6, 0x4c50ead3bec7cc0e, 0x2dc11aa7fc35288f],
    [0x9d52345559d71b5, 0x5c5c135b15c3b4d6, 0xbd8bb43dd8d1e687, 0x195f7447bdebfa31],
    [0xc830c4e691b451aa, 0x745139a51a45c169, 0x1ca8632986ef7d85, 0xfb172e6709df383],
    [0xe62038906a31cc95, 0x6fa376b2a6505a1, 0x673361201ff1639e, 0x88051acf2f4c7ba],
    [0x973db1a831af0bab, 0xe07a0f3e6d5d130d, 0xcb5bccca90c63d15, 0x19e57228a8198e58],
    [0xb0f98fb799fefa2e, 0x8f219dbd924d7786, 0x88f49e52fce7167b, 0x26dba58ade8cda1],
    [0x9435d172f438e2d4, 0x66ad74824b6be361, 0x2fdb3096ec7a7e42, 0x22e5666a758743c4],
    [0x3d919b4538492a06, 0xd9e06177456cb4a4, 0xdf7e4aa1f9f005f9, 0x13ea60e7594766ca],
    [0xba766574c0889a7b, 0x6fa55bc7094854ac, 0xd96db973e2c50b12, 0xff1eeeb246ed508],
    [0x6071c9fa06d37178, 0x1bd19a313b08cbe, 0xf878c045e76796ad, 0xaffdc5342a12d31],
    [0x993175e5d6dc519f, 0x814b2d84bb97aec7, 0x88f91cf2e0d5d4b, 0x291973a60e03d9e],
    [0x76270da24f8772be, 0x9c3a4d6befe0ec62, 0x2f6d5039784f6b74, 0x11739b8ee3040e28],
    [0xebf0a40573c67eb3, 0x6e535117c55c361d, 0xacf824de6d089b27, 0xe74e778ce3b28a1],
    [0x2c47ebfe12c4dabe, 0x7a6094df73caca6, 0x70ef84543fa630c2, 0x1a527cc72db10988],
    [0x41ab471ed77450a4, 0xaa2d1703c47e84a0, 0x72251c38e11391e9, 0x12f701614f5391cc],
    [0x848564b86516ceb4, 0x53f9a958598336c9, 0x299aed9f52635b8a, 0x11936336d54527a9],
    [0xf5465898c711be04, 0x38ae0c7a36b5175e, 0xd6249ec7615961b1, 0x272318da87365e9f],
    [0xa60373f0688093ae, 0xd60003599b4046d7, 0x3d59501e46fe4ea1, 0x236b144cf4299928],
    [0xe791228149b35b61, 0x9415da6efcd3c101, 0xff7c90a4aeb50565, 0x1a239569e5888ba9],
    [0x4648d454028ccf34, 0xf5a26769296b73a9, 0x36e84f167e2baece, 0x1e9e91cc7f554dc2],
    [0x988fd8b19527bb5b, 0x1f424fe1bee820cd, 0x69491067a96aa3e7, 0x148af5b46862ea82],
    [0x1e98a4caf803b6e5, 0xc414dce37ee779c9, 0xacf26d46756665b3, 0x24772a606417d978],
    [0x24f4330932a7f292, 0x58108dfb63d1daa8, 0xcba84342b2727e82, 0x1ed8140073fb5244],
    [0x512cfefb46159244, 0xacc341231247aadf, 0x3de57c6d043e9477, 0x109b45b57572882b],
    [0x49f9b8d523b630b0, 0x8e90d758a5a323f5, 0x77a81786800dbbc, 0x12563836d2c2fe6d],
    [0xcc50e90dde09dfe0, 0x9e9d3fdae0bdbc10, 0xbd2b3748968ce6d1, 0x1ba00aa80b49e70],
    [0xb0f98fb799fefa2e, 0x8f219dbd924d7786, 0x88f49e52fce7167b, 0x26dba58ade8cda1],
    [0x32f44707fe0bf799, 0x919936ec477876d, 0x1b0746d085d394de, 0xf24297c2abe6547],
    [0x1aedc3ffbe7cba27, 0x2ed3115756fa2173, 0x7f613bf10e04bdd2, 0x20eb0b298c48450c],
    [0xbf37f9b80fcc9f64, 0xb552fced3c3b96a5, 0xc4d91f707575f2a2, 0x176482f9dab80cb5],
    [0xc3f108bb3a8d5a76, 0x6875e30f78d96a32, 0x8201a28d89355cbc, 0x1f79915591cfa664],
    [0x6e9d2fce5d0cec8f, 0xe7401cacee24f555, 0xf0e867a02cfa8bb2, 0x2961cce7579ff9f9],
    [0x5793f987485559b4, 0x6a7b5c4782097e58, 0xa1463ca1799dd1ba, 0x2a41178e5d6a04a7],
    [0xdc39e0da9406eae1, 0x73c47d95bf48e9ef, 0x2f648bc1fd42b826, 0xec4ae2219594ec2],
    [0x1047e684519a6e05, 0x96f9da25f3b18f39, 0xa4aad5463047d0cb, 0x261794a9029605c2],
    [0xb717d0ff7866e5e4, 0x85cc279f99f76c0b, 0x5e40349e7f475e2c, 0x2e2bf6b18878b833],
    [0xb44f607830195235, 0xca33cc1a9a2bef69, 0x664025e69edcc363, 0x153ca309df24c9e],
    [0x9be20ef87c64628c, 0xc71fd91b096d6509, 0x44a3ee3f8478b92c, 0x2db12f885abe64af],
    [0x65024ce32e0b231f, 0xc70ce913f2e246e, 0xe7d4d9f83e18e6ff, 0x1f2c5b4c49bf8be7],
    [0xfa0eaca8953152e3, 0xc1fb39a60e825320, 0x3b9376d01579ef57, 0x9180876813742a2],
    [0xf4ce699a18e73a5f, 0xa5d0088a7fc4b0f7, 0x7d8a6de274b34eb7, 0x2ddf635158aef59c],
    [0x89af199a8a474125, 0x9bf49f4eb00e54d3, 0x51cc9528c4a10b09, 0x77f3965e42d9f19],
    [0xd1a1244532efa2a, 0x7b95422529bbe990, 0x71152d808dcf5592, 0x23b5523706361860],
    [0xa81d649075c74ebd, 0xc3afd77d7a8f708b, 0xb64959e84b6ff95d, 0x10b40997e86c5be3],
    [0x5be2f3541983633d, 0xbab59bf1fa5a0036, 0x6073187b4f730e17, 0x19e7c76c1b1e67f8],
    [0x4e345815eb365f91, 0xa355810877c058d6, 0xdcb9ee3ab883ad56, 0x1c1b3ca31b5179b6],
    [0xd53863b53f1323c1, 0x532bccffa959708b, 0x4406909fe766072f, 0x75afbdbd2dab206],
    [0xb0f98fb799fefa2e, 0x8f219dbd924d7786, 0x88f49e52fce7167b, 0x26dba58ade8cda1],
    [0x76917f2a4023a975, 0x4661666912e14b5a, 0x6e1896ae00904b58, 0x2d6bd5f440b052c3],
    [0x1d818f74c166448b, 0x3fdb99ab470149b9, 0x9b2ea83254c1422c, 0x9fadca902762e1b],
    [0x8fe061e57ccd86b8, 0xfa69b7f22ae9665d, 0xf26c4ce8b049b857, 0x1fc2ef7556e6b217],
    [0xdd78f9e5eb18dc6d, 0xe3e4d61505b48279, 0x72903866a0f10472, 0x277e0a5d5df37f22],
    [0xf0e1c7965c79be27, 0xb088973ee5ee9008, 0x31b5a9463ae3860b, 0x1926393f89d142b8],
    [0x22d058a793275a35, 0x354e3945fbd67d5a, 0xf05c07baf8c846d, 0x2917f5ea018334c],
    [0x6f4e0fb6f700113, 0x70a027cc28912800, 0x5cbcd7f0b1410076, 0xf1816fcf7764318],
    [0x9c1dc8c10ca61962, 0x3be5c9de6fa3d681, 0x5563203a3a02ba3f, 0xe5eddd2746b734],
    [0xf56af6b567abb127, 0x369b7864f845a922, 0x5e97afb88c5c1f16, 0x2fc0ffd1f2fb9e52],
    [0xa131aafaf5e3d8b4, 0xe54ff9114fb7dd, 0xb84c4fe55fc37ccc, 0x13a6d507cf38dd7a],
    [0x519369d729d7f0d6, 0x24b12e3e96aaa426, 0x949ef724609a7546, 0x209e31eb994b1224],
    [0x3108bbf2ef92ea5f, 0x50c315a709199554, 0xf9a6efa329e997d7, 0x29b95c4e0998e017],
    [0xd16d1963065a8215, 0xdc56245fc66dd40b, 0x9e933a2850fe33bc, 0x273017f65d54a8a1],
    [0x2d9b68d66ac6da34, 0xa94a4348aed808ae, 0x31473d0c97194d90, 0x9a00a7bb4d3c41d],
    [0x508f2e3f1fbd13a8, 0x413350052445162, 0xad881009a16e033b, 0x58f37eb54a0d174],
    [0x77815b94c0b6e72b, 0x402b704c63e8bb4, 0x94d78fbe8ba2d84e, 0x2991d56ab55bed47],
    [0xd3b4f6802c20c8f1, 0x7b949ea0694202d6, 0x3d5daadf7ce8eaf1, 0x2cf9ac97f208cbe2],
    [0x2b6bd9e1c5aad18c, 0xb7c44ffea1477636, 0x2997d3fb13e13abc, 0x2b2ffc8ad52ca274],
    [0x1638a42d14fea57, 0xf275ab77961819dd, 0x30ce1ba2779ac3c5, 0x3f78a9a65aa3f5e],
    [0x6c5c90e5a2b0111d, 0xa5e622f5e8750893, 0x42de7987c8acdc7f, 0x28a9d40e9c585927],
    [0xb0f98fb799fefa2e, 0x8f219dbd924d7786, 0x88f49e52fce7167b, 0x26dba58ade8cda1],
    [0xac87182f9bf2ab39, 0x672054df0a81abce, 0x75b20231e2caecdd, 0x2da971edce5951e1],
    [0x56186da6b592b8ed, 0x44a81025b049c6fe, 0x8332cf2fca53426d, 0x4852b72a76fcfca],
    [0x575ea53f7da93714, 0x6e6e39e940c80c14, 0xc083c3d563aaaa, 0x12678cd0dd103dbf],
    [0x60b1d8c37f8cf20a, 0x703843b6878cf851, 0xb1f827eba7cc5e10, 0x63be8111dc061b7],
    [0x90d3026828b90a38, 0xbb62ba92c2fb6ca2, 0xa96a47889a8c08c9, 0x1292d1489e40b2b7],
    [0x1e964e739fa84c7c, 0x3740fe744c9754f7, 0xaf217e6a3798bb3c, 0x131928f8c7f6b292],
    [0xb6191d86c3e52e7f, 0xd8e280c3d824f566, 0x242bae94103d3413, 0x9dd09c082e6ef61],
    [0x6d6d4754a8803d9a, 0x5fb13044bbf58f6b, 0xc30c63886605cfe6, 0x13a9b7f650fbebb1],
    [0xdbcc6802c47e22e8, 0x606a737023c50356, 0x71eab2feb4b10833, 0x278e646f62cd15b6],
    [0xeb9a7a1753bc9edc, 0x721b2dfef3bc6387, 0x87639a3d246f7bf5, 0x63a048acaaba44b],
    [0xa797f8dfc6b64eaa, 0x29927ad701293341, 0xc5427ba3589505a, 0x19137d8c7c05b438],
    [0x65e7faf99ab86431, 0x8e8a9fdd52380d43, 0xb31f3530518b1b05, 0x4605aab2cbf1c8d],
    [0x5b3cbaf27ee8e7a1, 0xa0d641d7f7b5f039, 0xcb0ce0e3cb83f5a9, 0x1a662725c05570d0],
    [0xbe08468a3a221d3c, 0xd4370327b6778f7d, 0x74084fcdcfdb8a03, 0x2f00701e40121365],
    [0x33114e56ae13645f, 0xad614c7db44ee7d9, 0x554f5365901cc66a, 0xeeb43bee0ce1170],
    [0x6ebc059d1668c3b0, 0xf833e61091c33e8b, 0xa43dd75147804956, 0x514bd58df752da3],
    [0x4bd4f70525dac248, 0x671f61899a37206e, 0x4a27a930415497ad, 0x2e501a1cb6775756],
    [0x544456bad6de8e6d, 0xecbbd645a459befd, 0x36e15a385dfeb9d8, 0x16d477454abad4ab],
    [0x1f585a2f973d1ceb, 0x2dcf4dc56fdfb5f1, 0x255ac9f4937ba416, 0x3c052112963b411],
    [0x2b18a91a24d55d81, 0xf557cbb18bf22031, 0x3338b85b1a1cd75f, 0x12dbfa8b1f22ca2b],
    [0xb0f98fb799fefa2e, 0x8f219dbd924d7786, 0x88f49e52fce7167b, 0x26dba58ade8cda1],
    [0x9f1001d1d3808e16, 0x4dfd8c805e21f868, 0xd26ee40e1a406f29, 0x10818548ab73fd03],
    [0x7a848a14b01fcbe8, 0x90b836c0cff7f7c0, 0x2d9fefc8887e52fe, 0x24a35e4eb8df4931],
    [0x2c9dbc17eaeeef9e, 0x43b7168c16650a4f, 0xce40c67c37463300, 0x2e0f1e7d21d2d04f],
    [0x673170f1466dfa17, 0x2e458eb13c246f9b, 0xdb2179f8615ae8a6, 0x230af3cc2c7ce9e],
    [0x86dcebfc2d36e000, 0x65c452ad32cf7154, 0x285cc493c3f23270, 0x1134692f5f1f941f],
    [0xc4aadd01322e8ae4, 0xbfef65e389d902e6, 0xd8577b969975227c, 0xa9d37ced0d525c9],
    [0xf47bb8d3f2703afd, 0xb5c5e45ed5cd77c0, 0xd7c7faf003be7703, 0x1db2e2b5cd0288b1],
    [0x159b61723410ada8, 0x7bb2f63db5519122, 0x43083c96e3e53289, 0x12d629c5fe0a39],
    [0x7c9d15178e8d6666, 0x674a8446804c3cc4, 0x2e2180728042a935, 0x54da7deba9f7f2f],
    [0xe6dec4f01c8bd52a, 0x3d60efc67d30c1d7, 0x5354a989848126e2, 0x29fc7ab2d3d544f2],
    [0xcc339e7e045b10f3, 0xc3a6f33ff2e7b285, 0x607923146b654a06, 0x14dc9c3565c4d246],
    [0xffcb394af09ac0b0, 0x62ac2239715a55b1, 0x1ef7ae56ee5cebea, 0x257f594d047a720f],
    [0xd95ff5f826c77669, 0xc1ab217050e8bbe7, 0x710f9f1a5727b083, 0x1202ed4a356316e5],
    [0x5b43101888b8b962, 0xdd12696657088891, 0x33bbdd087b9e263a, 0x30fe2beb49b8900],
    [0xa70b5f71a1e368dd, 0xf3678c328accc49f, 0xab7ecc7fa53fbafe, 0x5ca2c86c6b813c5],
    [0x5f40112e01c59f71, 0xe8e30a9a5fffb227, 0xc2b4ac16b0f8fe71, 0x22b38b500c9b360f],
    [0x1fba31eb492d2811, 0x6bb3c3c6f38c7f25, 0xd41c5b9e85dbc280, 0x1a85a376a332e4e],
    [0xa47ba294da43f9bc, 0x62c0e748b857190a, 0x35d430c7592b24a7, 0x30b8dd372a1546b],
    [0x3af281d7b71a468e, 0x7a00af3f8cefa52c, 0x511cb4bf4459d874, 0x58804d2aa2f1e9d],
    [0x59bac0c2bbb69e4d, 0xd57d081de49d4f92, 0x97b082ce47809991, 0x2be9874c17f48118],
    [0xb0f98fb799fefa2e, 0x8f219dbd924d7786, 0x88f49e52fce7167b, 0x26dba58ade8cda1],
    [0x6076ce30524ade37, 0x29fd85fbde5d1559, 0xe8cb3a7af70916ab, 0x10127c52ea1f6d2a],
    [0xc34b5af25fa4975f, 0x17bc38dedc721327, 0xb142bb09fa172107, 0x2d887f38f4f5c278],
    [0xc78281aa3743b7ca, 0x7660153967a2fa3c, 0x6112c9b3890a4a92, 0x18413dd99e547cd],
    [0xf3ce7317b4fbeea4, 0x186f06ba9005d92c, 0xea8583b90f6004ca, 0x2c8375bf705e811a],
    [0x70cde470ad510e72, 0x1776aa698206a6b9, 0x33ea3a888e343a21, 0x26672152eee139f9],
    [0xc7bd639f5cb94a3f, 0x3943f98b5bc9e76b, 0x78673df45769f49f, 0x179472871d26f2e2],
    [0xa6fa8ed8fec32f0f, 0x8a4f3f491290ecb6, 0xfae5b2719e3aa60c, 0x1ed0f4a870226c8a],
    [0xc194a1378aae7bf7, 0x99d2406c681d0d54, 0x536a1fcba52e4a9a, 0x1e8ab7c5158984fd],
    [0x29fbbbba7336b56c, 0xdce09632fe179453, 0x89daeec7624be727, 0x6e50409b0cc7638],
    [0x908a70f0e97188f7, 0x6c642890863ded5c, 0x2bd7942af6ee88ae, 0x5ef96066a110678],
    [0xb3304c6270b68474, 0xf7b3a28ed55d7908, 0x5e32088fa28e808e, 0x275a393c79c2e97],
    [0x9f315a59ce7766d6, 0x463ad16ad787e286, 0xad89fb910fd53a80, 0x232f41ac9fb55828],
    [0x8b5095bf5c9adc9b, 0xf2b1eb2e77dd1dda, 0xda98884c13b73892, 0x275bb8e491e9023],
    [0xbafc6c07028b4e3a, 0x91c6081c52308c6d, 0xe2b21b55ffc77eac, 0x761b386807668ee],
    [0xffe044ec71a668f4, 0xd65ad2dd99a733e8, 0x28d2a81e903a9fe8, 0x493e9a3b80d1792],
    [0x99a4f0524ec719a8, 0x10ff74938709f035, 0x2a9e2356ea093419, 0x304413ebc59f08c8],
    [0xf7faced0a3dad14c, 0xbb302f642fe0d71d, 0x7019dd697437b90b, 0x2d1e1f38f6702b84],
    [0xff1c5bcad374f25b, 0x991d1d1bdc92c8e0, 0x2529d4baa1c20d39, 0x16ac849076bc69c5],
    [0x9bcfc3355a684318, 0xa1ea599f611965a5, 0x46dc87cd11c2b2da, 0x1a85ec6762d6cbe1],
    [0x4b5e042d66cf2ca0, 0x23a8ea2bcb1d455f, 0xc950174d0b08a4e4, 0x196530945d3d7b35],
    [0xb0f98fb799fefa2e, 0x8f219dbd924d7786, 0x88f49e52fce7167b, 0x26dba58ade8cda1],
    [0x996b00fde6e3652b, 0x12542f1ff3dad0a1, 0xcd717c188ee4aa7b, 0x7052091360f5985],
    [0x918e042293b9868e, 0x8c839a56779bab5f, 0xf0e3d258bdf8f8b5, 0x291b5860cdbc43b0],
    [0x53cb0a07245f97a5, 0x193626e69dff8271, 0xa00679f5b34b57cd, 0xd74d3b457f71267],
    [0xd3dc5e0f60cdbf76, 0x3a0e1e4a1652cc21, 0xea7af7b3405c330f, 0x6063d52c65712f8],
    [0xdd413d33d6a830e9, 0x93037180131ed22b, 0x125c429640d2db59, 0x66b0a3103e081f9],
    [0x1a43f2683e2082a4, 0x958eed3d51d6b8bb, 0xee5257c0669cb9e5, 0x1a1ec3ab8c7e73b],
    [0xf41ac677e0094152, 0x124ad4b099485d80, 0x1d30fd1325f71e08, 0x25bcddfb7d8a0a19],
    [0x189a51b052d6931b, 0x5e1f4babccecf88b, 0x4186a26936181b38, 0x10436855078393e3],
    [0x8c486e1b1887a8d0, 0x1cf644bcbcca7431, 0x2d36d9d6986a773f, 0x13fd2892c02f51e4],
    [0xa5e13d55f280424a, 0x8d09adc041da503f, 0xa4d6eeaabc22f439, 0x2c28f6b8646fe071],
    [0x8de7d1be2423832f, 0x6008dcc45c1ef328, 0xcd5bf0dd9ee3bf1d, 0x8283969c57b0158],
    [0x351f0409c649ca65, 0xbb33c9fa734c13ad, 0x708aa2ea9293faa1, 0x1130ad17e3000bea],
    [0x7218f7991be58206, 0xf8cf2d15110ec45d, 0xc84ec58d9e6d7428, 0x741c5c7d36f11cd],
    [0x8dbdc847c7dad3ce, 0xa7498feae544c604, 0x3391d5f306fcaa5b, 0x1f449a6d7afec87c],
    [0x35a96098e97f2167, 0x5b6a3a4d779dafed, 0xd3ef6ba869311fbc, 0x13c20e3e2bc12fc0],
    [0xe41f09eb416c0d90, 0x67bdccf6eb113729, 0x2e840c491a7d7bc2, 0x1fdabc23fa86f1b1],
    [0x8da9a5c24e498652, 0x9d9e0561f6934be8, 0xbae35d898d40a26e, 0xb18abdac519be96],
    [0x5aec741cbe843202, 0xcf4f978461189f20, 0xcb0ab3df49bbeee7, 0x28b6810fffb6ed56],
    [0x6f34f13fc9e088f8, 0xb95dea117a6dcd1e, 0x5a293a708427fbf, 0xbec82d9037048c8],
    [0xf1dde4a6b69826de, 0xeef3e275eeda01b2, 0x86de92e8e7d65162, 0x2f63a41ae9a12da2],
    [0xb0f98fb799fefa2e, 0x8f219dbd924d7786, 0x88f49e52fce7167b, 0x26dba58ade8cda1],
    [0x1061bc93a8db0d34, 0x9b28b7add612d7a7, 0xcf19a923a0667b9e, 0x265c4fc58d97632f],
    [0x16da563a95758d70, 0xfd234005c83ff78a, 0x10b722b699ea5cfe, 0x12885bff48b6298f],
    [0x4b5df9ce6590fa24, 0x9d1c87ca6c45e23b, 0x4c839f198afdf541, 0x151d53cc6bbeda59],
    [0xfa95964d274b990e, 0x3ed093f01a72e9e7, 0xf49d4f256e081a6b, 0x14d55af045f1dfd8],
    [0xd727a7c66a7abdd6, 0x2fc47e9e016448e3, 0xba065b8ed26f82ce, 0xd2eabd86f01fa64],
    [0xf65ccaf576ae19c9, 0x57d08d94e6a7aa8, 0xbf0ad4e015552f6c, 0x28b3060c2dcb657],
    [0xa6a7f7252d015006, 0x18468c52eaf77a65, 0x905f85dc5bd585d0, 0x29999685e5c96a1b],
    [0xd11386a963949d17, 0x1c9a1fd8c638d508, 0xa5bdd4fad63e709b, 0x2cc36566d5372f76],
    [0xd06d1def1ac535fb, 0xc0a513e921fa4d91, 0x981d7fbd8646e8b6, 0xf45e1a65d563313],
    [0x230ec07b04b63361, 0x4d3c9fd5bf6a947d, 0x5760335c1965093, 0xbe5a47fdf5f5ebb],
    [0xcea03c02f55841, 0xa4488227d52279b6, 0x30c801b93e325ccb, 0x8e06c579f1e6e01],
    [0xe7f818c5af7a5da0, 0x5ef948e1672e5e4a, 0x1aedbfe73b0022a9, 0x2f50f7000c45cd94],
    [0x1cdd561855792100, 0x1266ada381181296, 0xbb785328a70cad7f, 0x10e83f3ecde3d5ba],
    [0x7b4a7692e5036354, 0xeda26eb1a8e4bc39, 0x65e51ebd3fcaec9f, 0x2391b1a42d1ad627],
    [0xcd0a43f6f3b2ca8d, 0x198fcd503172259a, 0x12cf632d8fc3bc3b, 0x5dd281f4536f0e5],
    [0xa325d1b35a73a383, 0xeb1d2cc768abb8, 0xe93fe07b6de600b3, 0x1805c870c9eaa246],
    [0xa92f3b1272de5930, 0x588e82e15bc083fc, 0x77b17662d70e873a, 0x735b3cb5309a634],
    [0xf7d37599f374039, 0x2817e9fab3f8e06f, 0xa2050e2c609621cc, 0x15a7b08ffbfad70d],
    [0x8926a7d1ed9162b, 0xecfb4de63ab18190, 0xbaac87408b38e5e6, 0x1c7725a85e6a7f0e],
    [0x567e430aa5cd6df9, 0xbf11fa282a106e52, 0xe647290dc0ca0728, 0x2371b576f67ab802],
    [0xb0f98fb799fefa2e, 0x8f219dbd924d7786, 0x88f49e52fce7167b, 0x26dba58ade8cda1],
    [0xf9d515f6770be25b, 0xffccc92e74cde3aa, 0xd8667c9cfb2a8bf2, 0x2d76222e6f0ba0ff],
    [0x767e67046b1c9ad7, 0x2225e2e4cb94258, 0x23949ccc0e27da5c, 0x21a9df030fc2c386],
    [0xd28bf872596eae2d, 0xf224a0c8590490a5, 0xc7104186c1f4e140, 0xc994ae387461d0],
    [0x8f9a5a86e25bd642, 0xb8fa72ebe9a28c0f, 0x86250fdf7a433505, 0x27c61ff34f721d9b],
    [0x4dbcaa9811a851f, 0xdae0a8f630a33686, 0xca97b6726a631722, 0x115aa7aae6b9596e],
    [0x5f0b8f9209729faa, 0xa7937c3c89c3109a, 0x66400d3c8303e28a, 0x18ce760e701aecf7],
    [0x86a07b02744a0149, 0x1b07e2771f087e96, 0x3891986887261826, 0x2e8d27465c969025],
    [0x198228d8580de14, 0x9b84248f18a9a025, 0xcddca06469b71736, 0x100661eb6f7639b3],
    [0xec3582db8962e423, 0xeaafd0384f417ab5, 0x8c67d4d7394ed448, 0xbba9475dd44986],
    [0x3d3ae5101c5d38a9, 0x5056dfe434c209ee, 0xb5c3afc658cf0f1d, 0x2ec4cea2ec233f82],
    [0x26fd1dd9f47c8553, 0xe603b0b6897f5676, 0x15db045932d7a24d, 0x15a99df7e6b5ef03],
    [0xb2560306acde3c5f, 0xba4faffe5a4375d4, 0xad77226028183b38, 0x1be6d866794b25f0],
    [0xd00691fbeef97374, 0xc94080b7612d9b58, 0x1b7120ed9762d8c4, 0x27257e94b2e95e86],
    [0x408cdf1ed9f103e2, 0xdad94aa1d0c125a8, 0x4ea567e6c8513d81, 0x3af51f300cd6fcb],
    [0x3f8035b047090913, 0x2414c558078f757b, 0x428c993ddefd3df, 0x193b1cb5ebd78dbe],
    [0x81f4e3d530800e52, 0x366d06315b67d843, 0x4dba579115794017, 0xdc86ca1c3c10a63],
    [0xe4704951990487e4, 0xbc1132e1316236fc, 0xd8a5d7e41fbf7979, 0x1235404239a1bd35],
    [0x4614bba0f1453b45, 0x89dd6a9411e1a405, 0xd797045579388930, 0x17e965fa385145f2],
    [0x3fba34d8d80706f7, 0x279a7c1df9553c8c, 0x9e23767c80219a62, 0x17cf6ef863dfc27d],
    [0x563eb382164f6b38, 0xbdfdc444406b20a6, 0x962613ccfcf294e2, 0x568c86457d66bf],
    [0xb0f98fb799fefa2e, 0x8f219dbd924d7786, 0x88f49e52fce7167b, 0x26dba58ade8cda1],
    [0x88c1699f37bf70e2, 0xa47bb7b1069cf42d, 0x79515dc547fc4a18, 0x2f51395267466988],
    [0x2cdbd5b7bd2528f6, 0xc61b50ae0b66a9b, 0x158ca6bc99b35457, 0xe9ec645e63a3358],
    [0x7fdf690464e82792, 0x68f8a65317d9df98, 0x814a08bedfcc4293, 0x110bf55f969e6beb],
    [0x77996384fb942223, 0xd6bd40810303fc90, 0x663877a5c5c66bba, 0x50a2f40f3337b14],
    [0xd9f37ad73f2e92b7, 0x5c2e3aff6c6edeb0, 0x90270799121e5674, 0x9fa261cf5150dae],
    [0x78484f8a0175afe0, 0x42ceedc57f08cde, 0x15c1d72d7a8e8ec2, 0x18db0fda1f48a43c],
    [0xdc9cc6791c70e234, 0x560eb39b0a27bd82, 0x678e14feb1d2b463, 0x12cd152e6a482b22],
    [0x2b06cdbe1ca198cb, 0x922863abb6b5b9d6, 0x6b883d201a43071c, 0x208785a8e7d01f55],
    [0xa3e076abf1e29710, 0x981e3f15b0715a44, 0x2db3918731dfb0f8, 0xa2f6f2777331ff6],
    [0x3ceef2356fc97f74, 0xc6f2e806d042d021, 0xe55b97ff156a8bd9, 0x2e40f60a955d8717],
    [0x279b76abed3cee6f, 0xad68d9c1c7aee1aa, 0xd8e6a563169d415c, 0x15b824ec28269dd4],
    [0xea72b3ac253edbe4, 0xc8a9e9547568b817, 0xa32024d11b6d8f43, 0xcb83c1917e41f61],
    [0xd60812a763cf62fa, 0x635c44d8e13e7c28, 0xbb791ba5c1f52051, 0x131c6c3ae3535f15],
    [0x332578eb744ba058, 0x76b2c06e6976e4b5, 0x4aca3a5ddca52224, 0x274de569e2025678],
    [0xcc869dda589a8d14, 0x7a0aeff1b9c7cf7, 0xdf3f30796a24e660, 0x4cd6d293061e45c],
    [0x6dd6998b4799a07d, 0x377679514a389b83, 0x289a564f10fa0ba6, 0x2045eab29038ee2c],
    [0x1696e7a8795494bb, 0x623baf32b69b61a1, 0x3adb95b06981b0f7, 0x20f10e37bae5a819],
    [0xfb45aadd3e83e619, 0xc4b342c335bd8562, 0x52d7cbe55651b680, 0x1f55e36adac5b9b3],
    [0xa32960ac4237e424, 0xe5a6d86092f8ba5d, 0x4d8a59a67b5cb83d, 0x29602ba7068d0b75],
];

/// Part 5 of the sparse partial-round rows for width 11, as little-endian limbs.
pub const S_DATA_5: [[u64; 4]; 106] = [
    [0x6fe813701e59d18c, 0xad45c63e242d1f38, 0x8b9f04c22b714507, 0x16707fcaee953e54],
    [0xb0f98fb799fefa2e, 0x8f219dbd924d7786, 0x88f49e52fce7167b, 0x26dba58ade8cda1],
    [0x8f6405c89e778a7a, 0xbcead4621e70cc18, 0x83cc8cd7a2e05eb2, 0x26443bd83569c933],
    [0x6625e49bc556498, 0x70d362ee72476e97, 0xd2528eb55583ced8, 0x5a35d0e22be0f9b],
    [0x651ca9f6e9def53, 0xb31e7657cfa3106b, 0xb5fb2205d2c799e3, 0x1021e56558839fc8],
    [0xa3c8ec908739be27, 0x4fa87e2b88cc08ab, 0x10e9caf04fdc8d6b, 0xa4aa165b7771c08],
    [0xd11456b6de351974, 0x8ec01724bb2b9e62, 0x7f400fabe5cc8b7, 0xb711cd6dc591dcf],
    [0x7cb4787f23148c72, 0x8cd2107439ca4c3a, 0xf113a6df8e80aa79, 0xdb4f89a973ddb25],
    [0x7aeb4c9e31bd8dd4, 0xd6db94f0bf7348fb, 0xa4921875187ef0ca, 0x24580560fa1df7a3],
    [0x3dc18bdbc0c8561e, 0xbae3ab00870d28ae, 0x9a3348c786983ba4, 0x1de8c3e482d87d1],
    [0x557b150893bea66c, 0x5a623236576d838e, 0xf2225b3d68de6d1d, 0x35ec9a49296b184],
    [0x6ef7ddbdad1e115, 0x793ec168e2aac1ce, 0x57f62a661aa8e85, 0x1f7f2e438c0695e2],
    [0x9df6ed5ad85c32b5, 0xc38c3ddb2b20e6dc, 0x4dc93515778b2497, 0xdba6ba79098331b],
    [0x8ff15740abee7e59, 0x6afc6ab58dc0b0d9, 0x6ad637e3cbf69c25, 0x22fa5dcd5070a8f4],
    [0x6afb897ac2706ef9, 0xcd2ab261d56db751, 0x49942b51b03b98e9, 0x26a5fd93dff7f5eb],
    [0xfb02afd41e69721e, 0xe317606d55c6b5b3, 0xcce19eff5d852b92, 0x2216a1a787d05bbc],
    [0xa928d16d15065953, 0x804d0251bc75025e, 0xcb0acf3ef4699eab, 0x2228040c2cc6457e],
    [0x8b098ba817af0477, 0xa688ec99b43ffce3, 0xbc6481a5c1594cea, 0x1c20e02da095541a],
    [0x9d6669bed5ff3795, 0x3b6f4dab9e47ff3c, 0x234f4c8b94c9ad6f, 0x106f19142419a86a],
    [0xe91786b0a007f857, 0x716df4b0a7318bda, 0xda35fab234f56c49, 0x104c7b997f5f83d8],
    [0x20a9ab7d416a3080, 0x806f3cd0e2438dce, 0x41fcf58f4cb3e64e, 0x272b659e78a33f15],
    [0xe295868576a13ea9, 0x8518daa306d2b586, 0xc85f76d0e10ade87, 0x1249186ebedf49fa],
    [0xb0f98fb799fefa2e, 0x8f219dbd924d7786, 0x88f49e52fce7167b, 0x26dba58ade8cda1],
    [0xde35c84dca1fb7e4, 0x796a6e00166bd7b9, 0xeaad58cbcbabda75, 0x1490ad8e9d330e2b],
    [0x267c217e574a559f, 0xd699b9b0b11e16e5, 0x76f81408dba8ff1c, 0x29cedacd10b839b5],
    [0x5f85431f3829cdbd, 0x88feba88583dd581, 0x32f1b31ebc07fcb0, 0xd55f5e0d31ed8c0],
    [0x8f99e303dea9c4e3, 0x807cd14bfb608048, 0x3778d4825710b080, 0x22c2de78b8f8caee],
    [0xca8af7d0d3ba946f, 0x9f5f33a3ffe59460, 0x7affd8233c61534d, 0x256bf262a0b931d8],
    [0xf47da45d1495d909, 0x2ee0477b9ee8faa7, 0x6d2246333479df05, 0x259e4f6cfcc7a4b],
    [0x8176c9b2f2cfa6de, 0x9e8fb689bfc03f05, 0xaef5bcad49467c7c, 0x235e716b22b67894],
    [0x3b14b0f48408e18d, 0x994dae678cfa15b7, 0x3a2ab453e658c50c, 0x91246bee1d5f406],
    [0xd299bba6f45d1bde, 0x3f099973d8a3a1a9, 0x8b6b0172b3133033, 0x1594541dd396d594],
    [0xa8b865653cca586b, 0xc8c66c7cb12e08f2, 0x17d1e8c36c15cc50, 0x24cc95bb62ee85ac],
    [0xc7ebda39e2272dba, 0xf0d4ea781c3fbe5e, 0xdfa40ee9aa9b1c37, 0x2dba892c4f9bc80c],
    [0xee8594771d350a27, 0x9fa3cbd71b62f34a, 0x2819975595dddeef, 0x2f3f255428b447ee],
    [0xb9db225e4919b8b8, 0x3fb458f8b1cbf68f, 0x46b6ebcb52605d07, 0x2f4b81914b52b75c],
    [0xc2d50c459940f2a5, 0x33b2bb5107c6dbb4, 0x59363447cde61652, 0x1e35a658cb610314],
    [0x4623d5594de772ef, 0xa4358bf72b74265a, 0x7752b8714b803b82, 0x21938bd170ef0b68],
    [0x50ae7bbb67e69c01, 0x63083186d7386376, 0x53834c7a2330ac81, 0xd54bc01b18dcf25],
    [0xc94edf187e4d825a, 0xb52dfc2af3ad407c, 0xadec38214c8412bc, 0x166ef423ea8ce954],
    [0x81ace40b26ae3454, 0xb57d4c9c39f2928b, 0x5c20d3b273abc31a, 0x304b27a7490ba0e],
    [0xdd368594edc0f171, 0x98b4a07d1ffe2045, 0x85a15dd61cb71409, 0x1873ef347ff82315],
    [0xaeff01be895f3634, 0xc9d9bab71c1b8836, 0x245e75c97cb69745, 0x67a470e0c4795e],
    [0xb0f98fb799fefa2e, 0x8f219dbd924d7786, 0x88f49e52fce7167b, 0x26dba58ade8cda1],
    [0xaccbb0faa6cf850d, 0x189203e47b5f6bff, 0xa700e43b6f3412af, 0x14189f783f0179d6],
    [0x91608764d8f9da3e, 0x550b85c5d5d865c3, 0x843035e84ea0f03e, 0x121bc25b16a45c18],
    [0x1ad2497299e1c07e, 0x2cd19988de903342, 0x939ebff9c94d94b3, 0x2e7705b125455c88],
    [0x3144c02affe35f46, 0x205a82e9264d4809, 0xda877c95e7d7c623, 0x4de92a097cbcd0e],
    [0x3a1a3e0ff9ba083a, 0x605e6d0f76ecfce6, 0xe13c31ffee09c665, 0x56267827dfdd2c8],
    [0xef56df4cf75d6d7c, 0xd6c1a5e46ce21278, 0x15666db69a32b5de, 0x214e0300f805ffc7],
    [0xd82c48142cf1c42a, 0xbafd742ba83c0cfc, 0x84d9b2fe01de35fe, 0xa3e3961aed3e8da],
    [0x25744cc31074d12c, 0xd4e15a9e1eda480e, 0xc257c3814520f5a2, 0x2ec69abd5acb3679],
    [0xf00d5db71205a6ad, 0x99f52f198f279489, 0xdd921b4179601239, 0x1c68a794990b7866],
    [0x6e23c9231aaa5584, 0x1465c87a0f6db021, 0xbbecdb09dd7f8b58, 0x11838fb23d5f3322],
    [0x27bf372ff495e118, 0xf9b19a17a2f85f98, 0xd2d094a42fec2247, 0x5088200a18b6f27],
    [0x67a1ce10e365a8c7, 0x63de36bce2d28fe0, 0xee85dfb0b18b716e, 0x20a562ef82e57831],
    [0xa3732b3a29d8fa9a, 0x6dc69c0118e067bb, 0xac860d49030a9575, 0xda77e103a18b438],
    [0x712f5816bf7e94d4, 0xd1b6cab8da61b18e, 0xe32e07d66706ca4f, 0x2e71181976c28449],
    [0x6b029d923bff2b5e, 0x91d918ee15267afc, 0x3709c5f4bccf3deb, 0x1321a6faa0815eb8],
    [0x2f651c3e266187fc, 0xad99ce732dd4549e, 0x77247481893caf50, 0x27c3ea888b300686],
    [0x85394515114dea81, 0x6428edb065d5b7f1, 0x2b4d64ac2fb6ae6c, 0x47172c54759f37b],
    [0xa289b20e83de1915, 0xdd4d6f253338376f, 0xa6c2ffe8acfa446d, 0x19fa875a5e821b2f],
    [0xbf895fe2c3349e0, 0x160186e6e27c4c3a, 0xca07c22cee53280d, 0x2db07878d810de30],
    [0xde47d115ca4389, 0x89e5935a13469764, 0x6a0a54992474ac, 0xa8c2b4b98315d9c],
    [0xb0f98fb799fefa2e, 0x8f219dbd924d7786, 0x88f49e52fce7167b, 0x26dba58ade8cda1],
    [0x101993f21ade6828, 0x276518e4e103d8a6, 0x519e73df8da0ef38, 0xc098e14e0b8ea8d],
    [0xe8f120e000a5b4f6, 0x3d66859bee38d02b, 0x4d54216b73e906da, 0x26a7ab22e3d4701a],
    [0x2d4560e3f7f55b73, 0xaf880d13e676287, 0xaa04b33558a7d805, 0x211a846a0b674674],
    [0xbae98a3a37314c7d, 0xaf252edacd343c89, 0xe93fc8bf8645c5b9, 0x13595dd19c159220],
    [0x14f1e58a0e7e0441, 0xa969154c0979ac7f, 0x5c25610cd2e5ecf8, 0xd839375c0877632],
    [0xd62be25ad1c73b2b, 0x500861a7f6b590ef, 0xcbe1762bceceb68b, 0x136b3190bc5d892],
    [0x856e7130f6657930, 0x75b173eca79b0300, 0x4979632a6e5b5009, 0x8765d20fa4770fa],
    [0x96b8e8502bf34331, 0xf224a6f78896baa4, 0x535413a38f690954, 0x3b2d35ea0ad26b1],
    [0xdac81972b46a4b82, 0x56bcd9775e9ca5bf, 0xea5d2fce994ca92, 0x290489818e00b9c],
    [0xe1e5815eae2e233a, 0x90f221504c68006a, 0x9c7952c4098123e6, 0x24b7c1b84ec626f5],
    [0x7a9ad08d41da5d65, 0xdd433348157a3c87, 0xb35c52a663e4cf84, 0x2d256f845196bec5],
    [0x89544ff778131376, 0x664f6c7f6291e6b8, 0xb0fb3a6362c631f4, 0xd1150f01d5d7e30],
    [0x8459c1284c70ebb5, 0x79cb8c95755392c9, 0xae07a2e491a2338a, 0x79717001ed6744c],
    [0x5da404d702d2be65, 0x74206366bd888223, 0x368a7cdd20f0c67f, 0x2cd2058b448f75bc],
    [0x47818c62bd2342ef, 0xeddd80b70edd9925, 0xa52e26085427a1be, 0x1b7a766baff43fa8],
    [0x52694aaf44f71855, 0xcb2498d2f2fc8bc3, 0x4d99cbfe646f4268, 0xd10757ea13e688a],
    [0x171c3d741d427f22, 0xcb94147d8560d456, 0x84f63af983d10d1c, 0x1fe27d15068f85f3],
    [0xfc3da65d8a6228ea, 0x3fe2c1b581fbf942, 0xf4eeb405543606e2, 0x2ec657144f084e48],
    [0x78a54d1c929464dd, 0x3857563e8b2de93b, 0xd3773854103c48fa, 0xb71ff8252f9e1c1],
    [0x17c36ee35c343115, 0x97d1c735985248f3, 0x45feb24cf5f49204, 0x182b99aac23bebb4],
    [0xb0f98fb799fefa2e, 0x8f219dbd924d7786, 0x88f49e52fce7167b, 0x26dba58ade8cda1],
    [0x1cd8d3d582bb75eb, 0x8a075590aa803c5c, 0x496b962963720e6, 0x1332f4f228112030],
    [0xeaf39ba54576b452, 0xe8dc93909416ff20, 0xbda030a3f816ea27, 0x24c4647a7db1c869],
    [0x148a252de9729426, 0xc3f2c5bc2b2dec28, 0x888d3aae8751afcb, 0xf5df55c2bfac795],
    [0xcffb17c632b66592, 0x59dee776a895dd5a, 0x9b1df5858ee89dd6, 0x23a4ad4858fd3c26],
    [0xadc9384a24ac178e, 0x47caee284b84fa15, 0xff5628e6b64d7624, 0x526ed32d567e190],
    [0x263f7a23020cfd5f, 0x1a5f96e7ae5ee380, 0xd51d742d02deda34, 0x144d89dd1b606b27],
    [0x9d144991bab029b4, 0xc68647bc9778fc77, 0x9faaf0ec803513e9, 0x8086e639a5f96c8],
    [0xbe8b0cce81db9fb5, 0xd458cc87e9e3c66d, 0x2f87ab39e269c2ed, 0x24a2d9babdafa3f4],
    [0xda5ad3b611a28fde, 0xf0064d91bec5c81d, 0x859b18fa5617527c, 0x1fd030e5d50ca388],
    [0x3bbcb12b11ebad88, 0x460132cbe8350582, 0x27433f525cc2fd4f, 0x21e5cd68cdb35c30],
    [0x799a70440946ccf0, 0x615275dc18ca654c, 0x694eedaf4b1c2172, 0x9813c803ff84a3],
    [0xbb290c1d5da1ad60, 0x29010d41090f63f1, 0x21ed58bfe7156d7b, 0x202973f7fba5bd],
    [0x6fde9cc7c8344ffd, 0x5f48355576c671e5, 0xa7913a62d95aefd4, 0x12305eadf64dac24],
    [0x395f8c0b86b505f9, 0x7097dffb0378d7e0, 0x6c84770bd637f620, 0x25c783ad66d6a1fc],
    [0x3bc2c10f5a0b613f, 0x5958d5d292ba10ef, 0xc73a67216d88b16f, 0x222deb606f13cf28],
    [0xfe1212177d5fa2ec, 0xc5494e7d679824d8, 0x870a9e9d422b3571, 0x1614d025472771fd],
    [0x806e8ef718d0e2b1, 0x6ccdcfb9c27faad0, 0xf5b5d094dbd8ee08, 0x1358bdd6b7a51b1],
    [0xd9f11feeeb3f3748, 0x5de5d24620f75cfc, 0x46bb69404acc8456, 0x1c2007eba4d16298],
    [0xb883ffe7a1a87217, 0x6e3aa15ffdb4a0bd, 0xf409c0b353afd169, 0x22f49d7244077e41],
    [0xc2821a4374718b9d, 0xefa43114f1b19fb2, 0x3dfe3218fd3d4cc, 0x1951523a4270c544],
];

/// The values of the sparse partial-round rows for width 11.
#[verifier::opaque]
pub open spec fn s_vals() -> Seq<nat> {
    limb_vals(S_DATA_0@) + limb_vals(S_DATA_1@) + limb_vals(S_DATA_2@) + limb_vals(S_DATA_3@) + limb_vals(S_DATA_4@) + limb_vals(S_DATA_5@)
}

/// The sparse partial-round rows for width 11.
pub(crate) fn s_table() -> (v: Vec<Uint256>)
    ensures
        v@.len() == 1386,
        vals(v@) == s_vals(),
{
    let mut v = from_limbs(&S_DATA_0);
    let mut part1 = from_limbs(&S_DATA_1);
    let ghost pre1 = v@;
    let ghost add1 = part1@;
    v.append(&mut part1);
    proof {
        lemma_vals_concat(pre1, add1);
    }
    let mut part2 = from_limbs(&S_DATA_2);
    let ghost pre2 = v@;
    let ghost add2 = part2@;
    v.append(&mut part2);
    proof {
        lemma_vals_concat(pre2, add2);
    }
    let mut part3 = from_limbs(&S_DATA_3);
    let ghost pre3 = v@;
    let ghost add3 = part3@;
    v.append(&mut part3);
    proof {
        lemma_vals_concat(pre3, add3);
    }
    let mut part4 = from_limbs(&S_DATA_4);
    let ghost pre4 = v@;
    let ghost add4 = part4@;
    v.append(&mut part4);
    proof {
        lemma_vals_concat(pre4, add4);
    }
    let mut part5 = from_limbs(&S_DATA_5);
    let ghost pre5 = v@;
    let ghost add5 = part5@;
    v.append(&mut part5);
    proof {
        lemma_vals_concat(pre5, add5);
    }
    proof {
        reveal(s_vals);
        assert(vals(v@) == s_vals());
    }
    v
}

/// Part 0 of the dense MDS matrix for width 11, as little-endian limbs.
pub const M_DATA_0: [[u64; 4]; 121] = [
    [0xb0f98fb799fefa2e, 0x8f219dbd924d7786, 0x88f49e52fce7167b, 0x26dba58ade8cda1],
    [0xe77a511881665f93, 0x63d3abbae18322a7, 0x4233bc54096419d4, 0x11a131a3778c377],
    [0xbdacd4547c8ec3aa, 0x70d1cb909544243a, 0xcb8358c1c4231535, 0x2a18ab4dc4777e13],
    [0xcf6aa318d6866b1e, 0xaf5847a9a60889c4, 0xc38b87b27db2a4a5, 0x16ebd782cbcf6d63],
    [0x595b227ba7bc6fb2, 0x1014de040c26a591, 0x4f842f09b01ef942, 0x2b7ed47fac275d3],
    [0xab67dfc648efaf30, 0xf3e3f24a35dcb46c, 0x73f07f9e055acca, 0xc5e49e319fb9535],
    [0x55d9a96e406d30d, 0xf90d404e37e003f1, 0x638ba5c32bc2317b, 0x161e4ae5b2d24cd],
    [0x6b0b147b6292b81e, 0xceec592187d2c7a, 0x1b428edb8f1c52d2, 0x223c7fc6d24fc53d],
    [0x32be2b6cb7fe72a6, 0x74cd4af926217f57, 0x845e2e9ebeb70bfb, 0x1ae060e39b338d09],
    [0x4828dca3e69098c3, 0xc8d5083328d4b2f0, 0xea51f190fd4e773a, 0x46191ab41e93929],
    [0xc86388191eca3e40, 0xe54507ed33bf7544, 0x63d00c32c2bbffd8, 0x14ba1b5383e3733c],
    [0x799a70440946ccf0, 0x615275dc18ca654c, 0x694eedaf4b1c2172, 0x9813c803ff84a3],
    [0xbe5745dafc433523, 0x2e6b0d1b80370e7c, 0x86f0e1bdaf9d18e3, 0x1495af03dc9180c8],
    [0x2f1b49895a3c97fc, 0x1297122d1acc4133, 0x32e7d11e0107e41e, 0xd95e8cf8a66b56c],
    [0x52816bd234e9872b, 0x9dcdcce67d2d21f8, 0x973b01d82e50d4fc, 0xb05f16108c4616a],
    [0x170715e588d605aa, 0xe03c747b14c432f, 0xd73dff8a9de79c62, 0x230b62315b30bc49],
    [0x698864039c92e123, 0xb5aae734f06779e, 0x48f326e155af96e9, 0x15d217a317847410],
    [0x958f9cb72f7b55d4, 0xbdeaf341e85f1082, 0xc17d44b51ca66d1d, 0xaf9afbecae1761c],
    [0xc5ba8cb944ba4689, 0xa50cc82a4e7f1ed3, 0xb89c4118861d8ca2, 0x1da4f4e3c6790ae1],
    [0x9a5aa895bcfb6151, 0x189d031430c11a91, 0xc1a0b942ac81e02, 0x2860aa52dc2f967c],
    [0x7b6ae18b2b7b9b7, 0x7f1c92b4d1d21c2a, 0xcee7d81cff161892, 0x16ff33d67c85121b],
    [0x5fc10764e2321a1b, 0x8be29c39d90337aa, 0xd82426900c49170a, 0x1ba0e835f47626b0],
    [0xbb290c1d5da1ad60, 0x29010d41090f63f1, 0x21ed58bfe7156d7b, 0x202973f7fba5bd],
    [0x58ff87c3a1f48b93, 0xf8af80e5871933e, 0x43983c6d024fd49a, 0x119344c53707f002],
    [0xcb1485dceb7bc873, 0xa04609b0b79eecfa, 0xd04edc63150567a7, 0x7c22f96f2f55653],
    [0xa9fbbb7c6b07ee5d, 0x5b743c7076ca4115, 0xc3a22512aa4b76b9, 0x2f394cfd3e442503],
    [0x6d7c001e4cf2ca18, 0x90c2b5857f8bfbd8, 0xd4f3e7918619fc6, 0x206351750037bdc9],
    [0xa166215201a58136, 0x6a07e773e54d906d, 0x4061725c712fd197, 0x1accea09c2bfd17f],
    [0x4333b38fe614f913, 0xe63e35898934b00f, 0x5e3c7eafa1d0902f, 0x5e52c0ff8c04a8e],
    [0xa7f3f85bbca61d28, 0xfaef99086d12b0a3, 0x35e5fea81227fa8c, 0x2e708baaf894bc58],
    [0xc45eb3ff1828727d, 0x72d17818be7ad427, 0xb1c8be9a90943c3c, 0xac23f00ff015baa],
    [0x3e7ffa6fe0c13d00, 0x7432b8665aeedf37, 0x928012c937f37de8, 0x2134798f4ca7fb9],
    [0xb0fe929f78873c1b, 0xc940c9bf9883c1f, 0x89d2b7be43262428, 0x219f5e28a5fa526],
    [0x6fde9cc7c8344ffd, 0x5f48355576c671e5, 0xa7913a62d95aefd4, 0x12305eadf64dac24],
    [0x26722b5bed408b79, 0x3ca57c10ec80cfb9, 0x5615786f2efe8074, 0xa92bd6a919d160],
    [0x13d61ccc30ba0213, 0x9b9523e98637a5b1, 0x401a62df8f9186e1, 0xf716c54de41920c],
    [0xac0871bca84677f5, 0xc0fb3c05b90f526b, 0xd57f9c8e66f7d88e, 0xa157e244f939125],
    [0x80732ee9d7e6e2c0, 0xaa7cefee72d0e6ef, 0x3b9420b1368e9c5, 0x2218be861d524eaf],
    [0x4930416e1d5cb7ec, 0xe66b183ad89f1370, 0xa7fc0173f863f075, 0x2f9bd19d0c8c3887],
    [0x1703c01ce87d6b29, 0xaa0f55c351545c78, 0xcd5d0092e5d1a299, 0x14eb401c1084a9dd],
    [0xc2cf2b71dbdb6936, 0xfceed4a858d1c61f, 0xb92d363989f58e17, 0x13fe23be24261ba5],
    [0x7921755ab018f690, 0x3cab2ba82c949560, 0x7f61a9405c925622, 0x32fa2f166622f05],
    [0x4f95edc9eda42aaf, 0xa7593b195cc95032, 0x1e1658629f747b8d, 0x2aeddbfa245756ad],
    [0x1be22f9941d7ef76, 0x387a973690b9e676, 0x6570c70fcdf3ae8e, 0x123a6055681023b1],
    [0x395f8c0b86b505f9, 0x7097dffb0378d7e0, 0x6c84770bd637f620, 0x25c783ad66d6a1fc],
    [0xf77736e06d768c3c, 0x81634cc9bf4e534d, 0xd974520bb6fb6cac, 0x1c7d3a92caa435cd],
    [0x915275a81887190a, 0xba2ae7e9aa50c5f1, 0xfb6b16f42b5eb89d, 0x2cd68fc31b67dc45],
    [0x9e490a748674985c, 0xb76a07730fad72ef, 0xa9c41324c0329325, 0x1d4567c12db648d4],
    [0xe0e625af70746f26, 0x53aa354562ecd873, 0x4af91afe1781338f, 0x69ee4eb20b4860d],
    [0xb6e98601e9fb498d, 0x731484c36d1f6738, 0xba2ed64bbf75066e, 0x6cad0c2bd438c4d],
    [0xe70abca83ba6ec6e, 0x41a33f8105430a3e, 0xc6b53db4f6911798, 0x1e0e166d734aa614],
    [0x486081851f9a5284, 0x7c59fd01e52afb80, 0xd647f5ef1415e76f, 0x1c879c9428e19607],
    [0xf93b21c8add41ffa, 0x1be90023d7a220e8, 0x82b93e571879d793, 0x215c0cd4e3f1bdb4],
    [0xf68fc1b5f62802c6, 0x5281f6c6a4d37fb, 0x7b7aa01b631fd191, 0x1f41fc67ca1322b3],
    [0x391eb30408d5d266, 0xf9f28e88d476cde1, 0x98f5590622ced7a, 0x1dce36062af7e4b0],
    [0x3bc2c10f5a0b613f, 0x5958d5d292ba10ef, 0xc73a67216d88b16f, 0x222deb606f13cf28],
    [0x9fd14b5c9cd4d4c7, 0x8442827248d67f98, 0x8da9250d5adecf08, 0x12fb88a0f6f749d6],
    [0xe9982590c3f8400e, 0xbd4e1d3b5270f6b2, 0x4673aed365cb50f7, 0x66292e64e6a2c6],
    [0x15ac2a241ffdda81, 0x6d7e747ba24645b5, 0x8823b095733f3717, 0xa94a2d7c4093c63],
    [0xb7d212eefca86229, 0xdef3369ab13359dc, 0xb329f55f52c75682, 0xa226128da1d9bd5],
    [0x474ed1977fcef22f, 0xa80a9b476db21290, 0xe8810fed032435ca, 0x1b5da83966361586],
    [0x34c81ab1e9fcc0ee, 0x2f93e2eea1d3dcee, 0x4faba5b70eaf5796, 0x2fa75deed281db73],
    [0x9dfd98109d19ecc0, 0x682b52cabfc8d341, 0xfaab14bf7d676ef3, 0x128cb3150b15cbc4],
    [0x8b1e721bfc32c6ad, 0x308eea1f72f2a342, 0xa392e044a094cbfc, 0x52700b19ef6d42e],
    [0x97867c45b7940071, 0xe937f5a90990382c, 0xc459d851ef9f3495, 0x22d1e64d4ee15e60],
    [0x9913fe4b5698eb28, 0x4f9528ef600737e, 0x84ceb0f8aa6936bd, 0x252e74746677fd75],
    [0xfe1212177d5fa2ec, 0xc5494e7d679824d8, 0x870a9e9d422b3571, 0x1614d025472771fd],
    [0xb4aad301ffc0d268, 0x6f310b78048d695, 0xe12bbe2c712c2fa9, 0x2f6c4e097bb5851b],
    [0xe766c0c24871188b, 0x9b0af8af2f7888ee, 0x3b22df2b6aca3050, 0x8a1ef65f52128eb],
    [0x92daf451840bb98e, 0x24967517ae8b2e95, 0xa9ff23b696cac3ae, 0x2f6f14502f20d958],
    [0xfa49d84518ea3bef, 0x73b52a5618263eeb, 0x2e3b38cc2990e642, 0x17ceb42a19de6dd3],
    [0xcd273923cf68ddbd, 0xe689c65c428c2397, 0xe22b913f99e40d95, 0x2adbde5c7b73e9a7],
    [0xc8cae376665cd580, 0x47acc4b60249e5b1, 0x70393e1dc8da4d69, 0x14bfe33115df2936],
    [0x842acc782fd8bd32, 0x4b72a4d4838484de, 0xce7d891f8727a7b2, 0x2bf523cd8aa3be20],
    [0x159b273ca0a6520c, 0x1af8e42e01d3a7ee, 0xfa2726f2527824a1, 0x33b93a5cf15ffba],
    [0x7551902423f7cc6, 0xe8d54266e4d56433, 0x435d65201006dd8a, 0x249f416fae5ab52a],
    [0xd3a42a75c1c6b81a, 0xb7635ae8ca0ede2d, 0x74252767912bed7, 0x19a9079a9897a237],
    [0x806e8ef718d0e2b1, 0x6ccdcfb9c27faad0, 0xf5b5d094dbd8ee08, 0x1358bdd6b7a51b1],
    [0xe208e9e7c8b9a1c4, 0xefc668cd4255d6cf, 0x9e493b29a5e4a04a, 0x1c06c782fbc0980b],
    [0xc103a75ced11b426, 0x14e112e10c039190, 0xe8816287fec63706, 0x24529638ebcdf26d],
    [0x13cbc8111922242c, 0x613e9e281a51cdf3, 0xbc93bc8c19ed89d4, 0x12641cc3cf50ca67],
    [0x329359f0f903266f, 0x6d4a1803b4d192a4, 0x4034159c59162f86, 0x29012deffb112eb1],
    [0xe1074e404a9e0f4c, 0xfc03dd44e0b28b18, 0x8273a90bef8b1a2c, 0x1a8b8ad1ecb6cb88],
    [0xa3dc2108c2096864, 0xe088a709e8b06a18, 0x152f26b0eb0eb, 0x17ea198f3ab261da],
    [0x3216ca969e873380, 0x57a43b79797773e8, 0xc02150804a91087f, 0x45aaa99ce1e06a3],
    [0x1b5da635b13e9471, 0xd2e092ab5e571955, 0x2679b032b65a9c91, 0x254e3acdbc75ac59],
    [0xf6bb640e4316d26c, 0x6e9511187f0aadf, 0xac7880c16f058d9e, 0x12a996abc8577021],
    [0xa3a854fe346b8e7f, 0xe540a0fdb527b4b1, 0xcd490a22dc569a97, 0x777edef4d91520f],
    [0xd9f11feeeb3f3748, 0x5de5d24620f75cfc, 0x46bb69404acc8456, 0x1c2007eba4d16298],
    [0xa19b83de2cd06a0c, 0x756324349afc8912, 0xa33d703ad3280f69, 0x211865b7f9c1c791],
    [0xd4dc1e8225908187, 0x240b82aa51a42de2, 0x51739ea27e521067, 0x12e4b5408f486419],
    [0xd19f26f6d4b3f9ce, 0x3fd614d305e475dd, 0xf19009396f134a2c, 0x2185c7a4ad8cb21],
    [0xc641ef01bcc71cce, 0x8dfc35bd3df7b23f, 0x66168cc918e96f7f, 0x9c4b2f61adf2452],
    [0xff5e663d74a073c1, 0x4ff18e1dd1171412, 0x19e001150451c3e4, 0x281eca14bbc39209],
    [0xbc54d0533a72599b, 0x52933e1a6b1d423c, 0xf8d48fa9b0a9cb29, 0x533e8a454b8cd6d],
    [0x1c1a1f8ec7a9eb70, 0xe51726ec81b58eb0, 0xb9c3c7b64cf0ad62, 0x284ccf70859547fc],
    [0x1991cab50a01a449, 0x1068190fdc3df876, 0x552a59fdefe50a90, 0x4fa5620a2c057dc],
    [0x52fab34b55419908, 0x92b13337dad8fc61, 0xc9888e5f68a84fac, 0x2d2640a74ede9af6],
    [0x849d8840059463ee, 0x47b862380ba00357, 0xdf1e621c3dc6318f, 0x121a3764269fd35c],
    [0xb883ffe7a1a87217, 0x6e3aa15ffdb4a0bd, 0xf409c0b353afd169, 0x22f49d7244077e41],
    [0xc02ff53b4bb9e66d, 0xa3dc750806cf37f2, 0xbb14f8d4ee93dab7, 0x25542e07c1c13979],
    [0x57459f6a34ec32fb, 0x3157d4193c8a8f11, 0x701cf96a3379a02a, 0x84b88b1ce4598b],
    [0xee578ae34d6f5fb4, 0x2b91d809307492f7, 0x272e13601e7ce66c, 0x2f6da385450911cd],
    [0x90c0f1ebc7362ea3, 0x5b03680325d26ea1, 0x78632cbe10e42970, 0x1802b97e54bf3a89],
    [0x1d13054f51118f7c, 0xbf1968d77f87a208, 0x81ebcd26b16ccbdc, 0x54cc81c7d1d595],
    [0x4652c77ee2b2de3, 0x719f1a888fff625e, 0xaa72530cf33a7d15, 0x19681b4242d11e28],
    [0x70a26a3dfa2ba855, 0x8abbbdc9af567204, 0x4078e5289bb14349, 0x1abfe4b1cf5db29d],
    [0x9348819f5b3d5a14, 0x361680b2e59d7ec1, 0xa1c4b8eebf8e9c78, 0x1d2279673f6cabf0],
    [0x6810e3395143ad80, 0xc36751e6ad8d6fb1, 0xf09631fbc8770827, 0xf246d2fbb4e1217],
    [0x149bb6c1061ed0aa, 0x57f8da444dda16d8, 0x767281ea5d4c1f74, 0x2f80ca151b077b50],
    [0xc2821a4374718b9d, 0xefa43114f1b19fb2, 0x3dfe3218fd3d4cc, 0x1951523a4270c544],
    [0xfa6dd03c8b25a64f, 0xee2ba976fa22827f, 0x1fbcd234fad473d8, 0x12b5a09e1e95e0d0],
    [0x9ac9e24d10d7a36f, 0xf6b9313c8f193f92, 0x8d4495b9e3027f9a, 0x2c184e904d7bfd36],
    [0x8a566de0223f0c0, 0x397fc3a7e6c88af8, 0x10ad573377ea2422, 0x16fc48e55d64d830],
    [0x9d28ad3da98c6fcc, 0x96d87415bb035b14, 0x27fdcf0f663af8, 0x2db1ac4c2b1c23a0],
    [0x7e46f3e73d42a085, 0x358917a19a28b4c4, 0x9fdc5e8238b367be, 0x170c05a5f8a55d5c],
    [0xa536cb3f909f6e57, 0xabbf04aa426cd07d, 0x5e274355b19bbf71, 0x1eb7f6e5520215c1],
    [0x5b76f2437d4a0c9a, 0x4ed16fcf0fecc165, 0x833699eb41b38f1d, 0x14111a74bd24730c],
    [0xf4fed54629113585, 0x8db311fe31063c, 0x6a390de373f4c9a2, 0x2d46b48e5090c0c5],
    [0x754b703ea92dde53, 0xc7a8de77f2cc6fed, 0x44241039a26b408d, 0x15f30ebdfb8b8ee6],
    [0xc1a284674409f165, 0x63d4fe5b414afa05, 0x4b64688a7935ed2b, 0x1ee950c45a0c2f4a],
];

/// The values of the dense MDS matrix for width 11.
#[verifier::opaque]
pub open spec fn m_vals() -> Seq<nat> {
    limb_vals(M_DATA_0@)
}

/// The dense MDS matrix for width 11.
pub(crate) fn m_table() -> (v: Vec<Uint256>)
    ensures
        v@.len() == 121,
        vals(v@) == m_vals(),
{
    let mut v = from_limbs(&M_DATA_0);
    proof {
        reveal(m_vals);
        assert(vals(v@) == m_vals());
    }
    v
}

/// Part 0 of the transition matrix for width 11, as little-endian limbs.
pub const P_DATA_0: [[u64; 4]; 121] = [
    [0xb0f98fb799fefa2e, 0x8f219dbd924d7786, 0x88f49e52fce7167b, 0x26dba58ade8cda1],
    [0xe77a511881665f93, 0x63d3abbae18322a7, 0x4233bc54096419d4, 0x11a131a3778c377],
    [0xbdacd4547c8ec3aa, 0x70d1cb909544243a, 0xcb8358c1c4231535, 0x2a18ab4dc4777e13],
    [0xcf6aa318d6866b1e, 0xaf5847a9a60889c4, 0xc38b87b27db2a4a5, 0x16ebd782cbcf6d63],
    [0x595b227ba7bc6fb2, 0x1014de040c26a591, 0x4f842f09b01ef942, 0x2b7ed47fac275d3],
    [0xab67dfc648efaf30, 0xf3e3f24a35dcb46c, 0x73f07f9e055acca, 0xc5e49e319fb9535],
    [0x55d9a96e406d30d, 0xf90d404e37e003f1, 0x638ba5c32bc2317b, 0x161e4ae5b2d24cd],
    [0x6b0b147b6292b81e, 0xceec592187d2c7a, 0x1b428edb8f1c52d2, 0x223c7fc6d24fc53d],
    [0x32be2b6cb7fe72a6, 0x74cd4af926217f57, 0x845e2e9ebeb70bfb, 0x1ae060e39b338d09],
    [0x4828dca3e69098c3, 0xc8d5083328d4b2f0, 0xea51f190fd4e773a, 0x46191ab41e93929],
    [0xc86388191eca3e40, 0xe54507ed33bf7544, 0x63d00c32c2bbffd8, 0x14ba1b5383e3733c],
    [0x4b817e44b90cd22b, 0xe44e1449433d9082, 0xf7392034aa21d51a, 0x254a28279a58c838],
    [0x578774e4b237376d, 0xffbf26dfcb0f67a5, 0xea90af7061b775bd, 0x11f3eefe7629e655],
    [0x3fefac6eceaf9a63, 0xc19d03b466873347, 0x3bfbe59154cd93aa, 0x1f19f9b9169b4971],
    [0xee3e49bc6067d6bc, 0xdc4d9b9ab421f25a, 0x93598e15425979e9, 0x15b3fe328216827e],
    [0xf019384381e37135, 0x4da48f3fd35b1b01, 0x5e6e760470e7b7cc, 0x15a1af15f1f7a77a],
    [0xecb349e2940f394b, 0x32efc4d765e6e581, 0xe03adbd79c0a1e7d, 0x1d22b55a0b71329e],
    [0x8b3b5ce001b0197b, 0x7f3c444670a0c6f8, 0x802c0b537dd01421, 0x2b04ed9f42228f06],
    [0x8e26f269ef00320f, 0xec1470499f5c0ae8, 0xd741a305ba0002b9, 0x8bd608629b132b0],
    [0x1ce465eb3b060adb, 0xca61cb3fcdbe4e66, 0x294fdc958ac35b91, 0x81e512179c27b63],
    [0x798b47c47f1f56ab, 0x8ab602e313e8c423, 0x668404a75b278b86, 0x662f21223a41d37],
    [0xc2a0815bde87b775, 0x85d4cce7f556abd2, 0x3c20323aa3f86be5, 0xdeb781e30eced91],
    [0x884f3d5c64a6061, 0xb048f33ce6ffbbbb, 0xd152223d46196f27, 0x281d2ccd521bc060],
    [0xbff14bed5e1b5f15, 0xedbf71b783d169f4, 0xfe481a03e0b8c880, 0x11f896a08f039c3],
    [0x88b5aade7d496cd4, 0x11ad6ed24283a0b1, 0x66777ec75d3103cd, 0x1e6425bea9db8ee4],
    [0x945d587cc36862ea, 0x6cf09cef2b286fe5, 0xca05bc42f6d8ad0f, 0x11cb96a094be409e],
    [0x920496c5315947a1, 0xcf2350199af232bf, 0xc29275debafe2859, 0x15810baa26cba809],
    [0xb93d10b64f1f3bac, 0xedf1d867f8c777dd, 0x181fba494995ef1f, 0x825a6da8cf0213b],
    [0xfad03ef74521def7, 0x9b661c61a9ee1329, 0x1df489e8156b75d, 0xda48eb83004661d],
    [0xd866945c0e08e41, 0xe13cd51bc3812f1b, 0x32c7289626b692dc, 0x238b46140eeecb9a],
    [0x8559f290ab2c455, 0x64148247b3d95345, 0x24ecaab7ab891c71, 0x64bd952087ea3f7],
    [0xebf74fddcfb734cd, 0xec0ff3115a8c931, 0x57a58dca1b295b2e, 0xebaf002ad317827],
    [0x8f70905664b3bc0f, 0xd60c81fef80ddffc, 0xcec0f559d48e3dce, 0xa877d868ac293c],
    [0x576aade8b2d06a1d, 0x97b87e324c9150ce, 0xa70c4e903e61b3bf, 0x10b388ce0c7860c8],
    [0xd629e59eff1b2cd, 0x6f109e3f65a43724, 0xb93645264ed270d9, 0x127270ce679a10a9],
    [0x1a4ab34befdf3c15, 0xd70c55f8d65fa79f, 0x6bb9286970439150, 0x22e2d64bc44841b9],
    [0x54b49d0b8fd1be7f, 0xc3789a8023d27525, 0x1761cf70ca77fc17, 0x1e5c6cea55983c99],
    [0x5a8578c716f7202, 0x49743c5490356fa3, 0x102c213ce35a9fa, 0xa1c89983188b523],
    [0xb971315feca3f6c4, 0xd69e106cc6d77281, 0x89e102eefefd69d4, 0x189642d90074b6ef],
    [0x8b72c3a392d44b2d, 0x784a2b07f8e06208, 0xe9f7c4f637dd1e70, 0x1ba1cb5df0f9b236],
    [0x2f2b6e109d179ecf, 0xa60c1850b9e04b62, 0x63fd40936e6913af, 0xa5ca2631a8379a1],
    [0xe2253e99285a613d, 0xb75b73f2d360b142, 0x41509d160d2b6e2b, 0xf48a6aba18109eb],
    [0xb7edfda91649841c, 0x351422e19acc9bb5, 0x57515a40b0d5ebeb, 0x1e1567bb86366263],
    [0x7153532760c6c9d5, 0x3012b3f7955147ec, 0x8be7288e584254f5, 0x1d635d1267a513c7],
    [0x7f1e5e785a6fe6e0, 0xcf110cc65e1d65b3, 0x12e3e4c8d53cc1d2, 0x3ed1d46b39ed655],
    [0x25c8d410de5806f5, 0x42257b1233f04262, 0x6b6a4a7438b5a9c, 0xe81abedbcf77d07],
    [0xe5385f0ba8697f67, 0xd883333e6749b2ac, 0x8af604c752e478b8, 0x22ea712a97059dfd],
    [0x3a96ab81a9aa693d, 0x2b8d50fa6fd3eb09, 0xb295e5b2789e6a94, 0x257d458a2883c760],
    [0x4d291601458ec39e, 0x6f7946f31cb71cfd, 0x64f22e1603009e6b, 0x2a9243c6a61b2b74],
    [0x332328c0eacecaf6, 0x260055e1ca382a74, 0x862cc586a3cbff8d, 0x1976bffe10562085],
    [0xb9674569ab3c0b1f, 0x72e361c1e6628793, 0x490c46c27a09e918, 0x2c22be8e5b7f7c91],
    [0xf1239a1e7cd23108, 0x1283820356001961, 0x3d462ffd902804d1, 0x1656737ceb63a2d4],
    [0x5e387653e427eca0, 0x90cffbc464b8d595, 0x1577578eccf3fc19, 0x2144765053902fbc],
    [0x225d587bdde25205, 0x3ee8bc326e3a8b35, 0x7822d7b92026ef8, 0xfdceb3ae2d8a55f],
    [0xcf32ee0c14d8227a, 0x84d3ff5c292328f6, 0xc3a8048ec4adb59a, 0x120a95649ccf899f],
    [0xe88186a061a102d6, 0xc48df92a7c91cfd1, 0x3a123ac6a2735b63, 0xbbac4700573f957],
    [0x677e734078bdc210, 0x28b7ee26be01fa2a, 0xac78d2650586a59f, 0x1bd40e4b13c0eb7b],
    [0x345db3287c44853e, 0xf2e1b0d0f2cfc983, 0x3d7fb79d8f22c46d, 0xc19fc53d6d946af],
    [0xd3953270109bed7, 0xe9b56284a6cdb1cd, 0x9b235724bb309885, 0x4603c35c98c1e37],
    [0x6b0a5c6b09938cb2, 0x3c634a90b766f227, 0xc8bb2ff6d43bc7fc, 0x14b216d879b61949],
    [0xe4421c7c9a1c8f8d, 0x3ef4b74929359594, 0x896cafcbcca1f5b7, 0x25195d63f3bc30c2],
    [0x4b3c4d5901ec92a6, 0xd8c84f5d4ffbda45, 0xdbe56786f78ec97f, 0x83511f996c9f415],
    [0x77cef84844529bfe, 0x123aa40e8486e31, 0x2553d91ce34b44f6, 0x168df74339cc5c61],
    [0x1ce2f4f8f6198a95, 0x864b7f8c3829adb, 0x229d4e5f829a5362, 0x149178f36e2a8348],
    [0x7951cfefa1f338fd, 0x4569f38848ee0575, 0xd15d8770698e39fa, 0x130e0c983de0ad6],
    [0x8ae2ab7bf1b8d114, 0xf425e9982286ee46, 0x39fa1030a61bd0c6, 0xbcf6e6daea072a5],
    [0xc0105590904b2593, 0xa2cfa8aa1c1cb6a0, 0x32f671cad0395794, 0x4083e23f948783c],
    [0x5107188ad0e39bc5, 0xd1d045fc42eb3ae7, 0x69ac3833b87fd279, 0x22202ee3e2df6782],
    [0x776abbfda1fc67af, 0x6f6cdb54dbe7e2e2, 0xf66dcb1c337b6f7f, 0x177800e892cde6dc],
    [0xffdd0cf6e586a00a, 0x1e5451ec46b9fbf6, 0xb4a1b58a21143c55, 0x1b2957f0c085f578],
    [0x5bbfd7183754bafc, 0xd44ad8644fa0117f, 0x1844c4e5c7f33806, 0x2b2b79db9b5bdc6a],
    [0x15baee4eb794465a, 0xf8ade4e32b56002d, 0x3c2e3760a4e7e9cc, 0x1f523a01526f1b78],
    [0x70bca100d2346b1a, 0x5a44cb5856648daf, 0x5522097a41a9138f, 0xc3e13ba07075673],
    [0x30878b59f92c7f63, 0x23beb6df54329119, 0xf784f77c0f79ed5, 0x1d1cea63939b2194],
    [0x9069a206301f7e16, 0xbc5acd233717b706, 0xba2bd23aa05696c4, 0x9e651e10ec1fe98],
    [0x170e660f2d818fed, 0xe36fcb5b6c55f970, 0x5e31d90607acc55, 0x2f7be21619fd5f7c],
    [0xc9ca7ca010a74192, 0xb9730ab208fbe77b, 0xb5fdce8a731867e1, 0x1c4a6464c867d43e],
    [0x5ee23e5cac163b61, 0xfbc63df14dd9063f, 0x8599758c895a5a13, 0x1fa80347e1bb24e0],
    [0xf3ebeaedbc571520, 0x5a030017f92f72dc, 0x2ee086f61a83db47, 0x196301b7681fd288],
    [0xd6fa5f62113cee23, 0x210d87a4db1d129b, 0x1e46b79e7f0fffdb, 0x133f706a099e9502],
    [0xce3f708d43795365, 0xa1bf97f0b7b1f6b0, 0x69bf933ec6ee5941, 0x17bbaa8b0ea8324],
    [0x96139ff6d28116d5, 0x1f6cec212015e148, 0x15274f77030d662e, 0x20f56843ab66f866],
    [0x21d783d212e7492, 0xba33de3ceb98a4ba, 0xc510142a85cf3781, 0x17cb6777e65329e7],
    [0xa6ee417a73933c65, 0xf92ba684690d78d2, 0x114e50b0607215d3, 0xb14339306b1b2e3],
    [0x6cf57a5c39a14da6, 0x136b926e5ad1891e, 0x5e69a734e4de8129, 0xa2768ee0edf0b7e],
    [0x34cf958575b3ef, 0x93b31b3f2ed7c730, 0xe970030416b7811a, 0x2f995fb2fe9a457],
    [0xdd799bb3bbf810da, 0x610464d7393c6d87, 0x92f22f938875dcc5, 0x5338e9847d4e296],
    [0x429c0321f6155621, 0x4a891e682a7e0925, 0x23f701d2fa312c65, 0x562e63099a76303],
    [0xd2efef2f25c17f3e, 0x30591e22e25b4d94, 0x937605aa07cb8cb8, 0x1e465c7a4b123984],
    [0xf74a7537debe0d2e, 0xd84fca2f59fe3098, 0x4dd958c64afc6c8a, 0xcb517d9337709a5],
    [0xbcd80c2feee7a3e7, 0xec7ed9300d545938, 0x61ad879a56126d5f, 0x2c540ac453bc95fb],
    [0x53485c905b76f8a7, 0x2e4a3fcecf13d799, 0xfe8f6698cb0802, 0xca0c774b1bd1c2b],
    [0x114a9ae32d8e604e, 0x23008007b066054d, 0xc0cb003c57ad2db7, 0xf2a31d4612576cc],
    [0x443446972d667ec2, 0xf2e19eb186dc82a2, 0xb7190c4c151c7f44, 0x1308c2b9ba44163a],
    [0xb7138596edd9db6b, 0x155a0289f900c757, 0x562c78bc1ea2d954, 0x25c2045be7d9a915],
    [0x9b608ab5eb5a1e38, 0x4c04067f579d96b8, 0x931e748dec46c5e6, 0x22c57e5689822b5d],
    [0xe8c6a4cea8c51dcf, 0xe9ff0d1eecc1de30, 0x5139f5aad87c4df, 0x98eccc1107806d9],
    [0x56bbf1333b9a2d21, 0x709eac85f2306390, 0x785df58fb22ede06, 0xdc0a5c9bf0d5b38],
    [0x8882d08983be3325, 0xe93056dc357ff0dd, 0xeb02e57360e6d3fa, 0x1bb2aca445944760],
    [0xd1cf97ef61f6ff69, 0x6e67d32d0e785788, 0x6f1fdf75648260e5, 0x125febe3a720ed95],
    [0xfe346d5c72bdc15a, 0xb52d20c9c8686b7c, 0x249d36ba2d8c5a70, 0xd9be42ce8bb76bd],
    [0xf3f33c615978d593, 0x80dc8f7e808d676, 0xa195fe41554ac0f4, 0x2575061c9a069654],
    [0xe02a4b53eb59a12c, 0x4736a61821b19f30, 0xa001c87dcd71e5c0, 0x1b0265724a00dfdb],
    [0xfb899cb771f9a61f, 0xa03e8d6738d59c8c, 0x2cb4ee2980ff3bcf, 0x1a265ab962a3796d],
    [0xa22db2bcfe8ced48, 0x4edcf4c3ba6e96d8, 0xb33144f885e20153, 0x3006fd98ea0d9db2],
    [0xd279402c4056dc39, 0x22cbe54881117270, 0x84b58d123962b7fb, 0x1b909b20dd52d511],
    [0x2f8f7a9c55496ca6, 0xb7629fc5398ba62e, 0x973609382c57bbb1, 0x1d4ee90cc3cedbb9],
    [0xbc257e01de20dbe5, 0x48b29ad05b8910a7, 0x6408099bb1e34e3a, 0x1720f40d61fac0f6],
    [0x4318f0a60164f6a7, 0xc263113b3a6ce3b2, 0x3f0b6fff0d884c15, 0x10ce79d030bc12a4],
    [0xc9a506a2dbb0602a, 0xab53bd038180c9a1, 0x42cc8dbf8d6a7865, 0x210f17a9d928eb4f],
    [0x8300e69333c123a7, 0x5cf5380c688ad23e, 0x184ac44ea74e1208, 0xa3e7d3671a213b3],
    [0x58ea71499b7a85d5, 0x91d1ce0eb1bbcbdd, 0xdb2d6aa0b444887a, 0x2240e2f64b6f5bac],
    [0xbdd38250ce70c288, 0x76708f9bf68c745a, 0xde9c741fe7548827, 0x283d7487aa3b5d0e],
    [0x5932a1c03f4fa16d, 0xe857b3be81599e48, 0x1bf6a2f684702703, 0x29ddc736b1d7fdce],
    [0x8965cc7b43d8e056, 0xc78eb1d1a08c3bfb, 0x81927a8928c0f02f, 0x5f7ca424f02338e],
    [0x5a835619791468a4, 0x34448e7bd804d5e8, 0x25108efd0fbf00ed, 0x14f241ecdcca69b0],
    [0x691bde258c5e2c7e, 0x18fa930f7d78a1ca, 0x9345974c67a21f1e, 0x1afef8497500f3d8],
    [0x61ddf16b5cf1722c, 0x3151a3efcc594cfe, 0xf04597a71278dba0, 0xf9c70d6ee5ba237],
    [0xe5e8771383cb76e6, 0x8bc24c25e81ec37c, 0x968c44adeda32e6, 0x18fce50e6f51644e],
    [0x530e405d57756b3, 0xf29cedc9b0ed5c5a, 0x42e885290c6ad736, 0x232926077aaf9a6e],
    [0x438924ad5159df4a, 0x50830d3bbea3566, 0xade13f6ee3752600, 0x277425a5970de392],
];

/// The values of the transition matrix for width 11.
#[verifier::opaque]
pub open spec fn p_vals() -> Seq<nat> {
    limb_vals(P_DATA_0@)
}

/// The transition matrix for width 11.
pub(crate) fn p_table() -> (v: Vec<Uint256>)
    ensures
        v@.len() == 121,
        vals(v@) == p_vals(),
{
    let mut v = from_limbs(&P_DATA_0);
    proof {
        reveal(p_vals);
        assert(vals(v@) == p_vals());
    }
    v
}

} // verus!
