//! Constant-table data for state width 6: the flat round constants,
//! the sparse partial-round rows, the dense MDS matrix and the
//! partial-round transition matrix, in row-major order. The constant
//! arrays carry the data; the spec functions read the same arrays as
//! value sequences, and the builders return vectors proved equal to
//! those sequences.

use vstd::prelude::*;
use crate::field::{Uint256, from_limbs, limb_vals, lemma_vals_concat, vals};

verus! {

/// Part 0 of the round constants for width 6, as little-endian limbs.
pub const C_DATA_0: [[u64; 4]; 108] = [
    [0x2e86b706ad40c651, 0xd968653ef8390cde, 0xe7ae7dea45fbd83b, 0x1448614598e00f98],
    [0x3b8a7b40c1dff7c3, 0xcdb65022e1b70af4, 0x43c0dc1f591fb83e, 0xab7b291388e5c9e],
    [0x5c4d5466612d6adf, 0x84cde754a3cef5b1, 0x9a8c088e654af21e, 0x2b7cbb217896f52c],
    [0x2bc71c0c6e67a65c, 0xda59ff3bbbb95fc, 0x6570428bdc1ca1bf, 0x2bc6b0ddbe1d701b],
    [0x1efab9a905eefd3c, 0xc38c11f7d20e927, 0x3d20b2cecbc44ed6, 0x123a55a31980384f],
    [0x79e2883be9fb8c53, 0x88b01858bc8eb7e2, 0x309a769f4df098e5, 0x37501cc8c9dc819],
    [0xad1444d5351ddb36, 0x17c6a0a4f48a9b28, 0x73c2499e1bee320c, 0x15de231637a8ea34],
    [0xc489002da3f4b534, 0xf07f89df055efc1c, 0xe9173b0ddfb539bd, 0x1c9b1da36989206d],
    [0xf20a1a4c810654cb, 0xc37fd179198a41c, 0xb327e3e2fe395855, 0x1f28ec9fdcb3854c],
    [0x6e6593c2db2f83c6, 0x290263b3c80f6803, 0x6c091bc1fb1e50f8, 0x2a0418e12dd26e79],
    [0x84d123eac1507890, 0x86f7a3a9ee452f56, 0xbc1f8a5f8fa02a6a, 0xdf6bc990dd688fa],
    [0x47fcbfbca7eb6a8c, 0x876f320e99404816, 0x2382e238be9941d9, 0x24cd99ab301ee74e],
    [0xbf61a4e61198ac85, 0x64641ce082e5c084, 0x50c22ae3b357252e, 0x1036eec6b3ab659a],
    [0xc28a488209286118, 0x2a64abe4f9bb2f50, 0x59f35ba96af936d8, 0x21ece1030bf5ad57],
    [0xd0c6e9135aaf66cb, 0xd8ee1d9137f8fff0, 0xd17fb509a60afdc4, 0x2e5d9059e62303d8],
    [0x3bbaee71c6986857, 0x696f6789e22d3fa6, 0xc4edf44dba6ba31c, 0x2591d88c11580b75],
    [0x852aaf6d765c3bdd, 0xbb22ab44a03c7198, 0x7e2f870f01142223, 0x1e647345c108005a],
    [0x5117adc71b441f09, 0xa04e3e15e37ca5aa, 0x8ef44f966e594d2b, 0x107e279d710e6535],
    [0x5f20405e377a44c, 0xcca7e221f6783754, 0xb3f695a02f51617e, 0x173b298298adf659],
    [0x4698202adb9ea1ce, 0x3e8d4f5f46d450b1, 0xacc7586969e7e3b, 0x1228a0cd10594687],
    [0xbf7d48b3c661d68, 0x840928cc9d7f4067, 0x8849bf203dc7b151, 0x778cb45d98c0ec6],
    [0x7dff096fa99e9e64, 0xdeaeb9a5678bd4a1, 0x3400308feb33ef3d, 0x72a7ff12706fa3b],
    [0xd0805bb555cd09f3, 0x58a44c583b939c35, 0x4503dc12fe77d6ab, 0x2b0997b01165c287],
    [0x48985491c9d287b5, 0x132da1c19fcb7daf, 0xe2e5f2d8efbde358, 0x80805129259af50],
    [0xb4aba0b2d6cb923, 0xe33f40704799f089, 0xb19038a0d6ac9606, 0x143e4e1f2af4def1],
    [0xf237b5221485da3d, 0x76c59153052660d, 0xd5b9123abaf02d69, 0x1c16b447df0a3026],
    [0xb251361426830b92, 0xc5bfb668fe2e424c, 0x816703e5e52a7db0, 0x2212763564a17c5b],
    [0x1bf341342c0d7a6e, 0xe97cfb94af5a5709, 0xe9378f65bc341781, 0x16dd30a48d96f76],
    [0xe0711d338ea3b86b, 0x26ef0faa2bed48ef, 0xf67e19ca11c01e24, 0xefae4a569514657],
    [0x4a57dd870d80e779, 0xe21d5b91fbf9725f, 0x559536e252e0159e, 0x281dcd532dc450be],
    [0x637e994a81333f95, 0x83dad5a74dfaed41, 0x559b4a37118f15ab, 0xfe4d11a8b3f24dc],
    [0x89768bfcea561a5, 0x640f200c51410456, 0x328278a913222344, 0x1857938e02790819],
    [0x1dcde32944155675, 0xc5f126951388cddb, 0x999f6f4b63d4ca66, 0x2007d043ddfc54fd],
    [0xbc2b4c2fb27e9e39, 0xfc745614f5202780, 0x2c69a2c6e7df20d3, 0x23de66b927d57679],
    [0x4bf90da86fedcfe3, 0x1345a2de40ef5c76, 0xfe79d2efd5a51c98, 0x2bdfcbefe353fa2f],
    [0x77e0fa7f994244fe, 0x880da66929d3aded, 0x13e4f06dead07943, 0x26cffc0e59849333],
    [0xa41cb84c0fd3efb8, 0xadbaa2812fc0fc25, 0xe3947ff2d4eb744e, 0x21c532ad0d50674b],
    [0x1e2bff46149cc46d, 0xb868ef445f70c9a, 0xcc5a2d7842fe3c78, 0x246ecf2ee4531862],
    [0x304741a2e772e90, 0x643c54a3ee7a3960, 0xfdc7339c4f9500b3, 0x397b3980a3cefa0],
    [0x11552ac7562c6aef, 0x55ea70999b2f9722, 0x9a7bf12b1ac99af9, 0x144490957677636a],
    [0x78cec3ea17067f1d, 0x5f4f1eb5adea49a6, 0xd9643ff257d5f56c, 0x4a96669777938c],
    [0xff06030e346e3e2b, 0x80d715b39af43449, 0x48ba13e4df938e62, 0x2423a50871429a8c],
    [0xee9b633146ec602a, 0x14c3c40a62fc5856, 0xc288014e8ef12b80, 0x1ca50640e8f42c03],
    [0x8947727681a7a9eb, 0x17df788c0d023d6d, 0xbda1eb7e22b11cc1, 0xa8335c2fa762d09],
    [0x9fc3df9f707f1cda, 0x9747ba21df610020, 0xbd964c33cd1bc9c8, 0x1c57af7a6796ed37],
    [0x2c701e37a4cfbb22, 0x9f5ee31d6d59bb8e, 0xe7d1a8e7d2684817, 0x8f0ad5a6c01f0bd],
    [0xfab2ac897e8a2466, 0xf2f28641bdc843c9, 0x185a6278fe04a5c1, 0x50c7821c6e53eba],
    [0xdca9605679f68d0e, 0x3d53b0c2089832eb, 0x9b4b9d6954bc7576, 0xbc5d445c5df52fb],
    [0x5cff3594197b73d6, 0x5c9f05b861d1c78a, 0x32e9dc1f0501fbda, 0x10a6b2a07c472c2a],
    [0x72d0c2d908b3ddb3, 0xc75e40200b318f7c, 0x7ac8191bfafc67d9, 0x1a24448b3442479c],
    [0x370ef4c28e5671be, 0xc03379389e2a7def, 0x802c6c9fead50897, 0x5e230c7b91dc067],
    [0x15d8f294a30294ac, 0x2cf6cee316600556, 0x7e364da47f74d8ee, 0x1eead685d9f3577f],
    [0x12c521ef29c504b1, 0x75535ebea301f8f9, 0xb1bd8ad9626df742, 0x4a22eaa10791b59],
    [0x7f50b8486c8806da, 0xcca82fbce7db1cc2, 0x9f0eb2276786d028, 0x6377b60615b7b9a],
    [0x7b9e90ea0715714f, 0x641c4c654738fad6, 0xfd623fcac2f3b08d, 0xc76495da478bbd],
    [0x16a8fc650c5a9d61, 0x18ba872b276c199e, 0x17cfd2421423a95e, 0x250ad6b94e1bd068],
    [0x98a50dce6f52ab47, 0x903e6a95390f57d2, 0x221c878286a0983e, 0x1b2e0e66146fb5b1],
    [0xbce38f786f2c0e03, 0xf1180b8fbd134fbc, 0x7c17cab2c3518fcc, 0x18ca890aaeaef97c],
    [0x775b12f37961bea0, 0xb58930bceceb2c8f, 0x5571c1b88084186e, 0x1b5c3db94d9e0cd4],
    [0xff5a5dfe06a260ae, 0xb16a6ad71337b7c7, 0x69349a73a81542c, 0x6294c72686a69b6],
    [0xde48be3eca7bb253, 0x5c9da448aaee3a44, 0x9b1a643e11159e8f, 0x2c18a25a8c2cae17],
    [0xc3567fe449332eb0, 0xd4479c304d101067, 0x1baa7afad40cc28, 0xfc45a2b9bd6f419],
    [0x619e6a979bc1d36f, 0x6e0b75733c704804, 0xa088227c5b6f0a56, 0x378bc3b5a32cf5c],
    [0x20cdc5013611fd9f, 0xdd3c18bd951d7f42, 0x92bfbfd7278b437b, 0x255375346beabd0],
    [0xbd3683a5a65b6859, 0x7e5978be32886047, 0x64500fec836c1380, 0x524853a2a9717af],
    [0xd077cb93997af5ea, 0xe1dec648b930c132, 0xce88f0488160c244, 0x1b3998553154fc26],
    [0xf2b599d9577f25ff, 0x40338a97ee8e5c74, 0xab92429aeb52701, 0x12074b4d83e92f8e],
    [0x56256dd07326a662, 0x8778b45dcefb7cc0, 0xebce74c027536bc5, 0x1a40b1e01a096ea7],
    [0x5d37ab6f2336bee4, 0xde58ede8e0f97416, 0x1967d778a2b7d6b4, 0xf5228bc094b9eec],
    [0x5537ea78d779c16f, 0xc043207e4b6a48a0, 0x977a33f2fac6823, 0x27314b961d2f9697],
    [0xa45327ee4ab46595, 0x3e1f9f0e797fecc, 0xa6dd45ab360b8777, 0x2a78f5bdf98afa1d],
    [0xf1dfddd0764c20b4, 0xa32ddd9dff3dd0a2, 0xfce554c265bc23fd, 0x2cfde59ca2f01a27],
    [0x3523a88fe0af56aa, 0xb0294667d871d49e, 0x10f843ef5fc9e7, 0x1925a7d1cacee56],
    [0xca2cb92e92452263, 0xf9eed9f50dd60dc3, 0x7560fbbec395db1a, 0x199ff4bbaf94ee38],
    [0x1a88200f8e7caf09, 0xc275f13d55776da5, 0x1907b28fb2f149db, 0x26f7f91d959cdae9],
    [0x12731114d62d0c2, 0x92126c3bd2e9f05e, 0x6c4d257832a5ae5e, 0x24cddd641b7ca3bc],
    [0x10a0ee96bca55738, 0xce5dc69dd613804d, 0x653c2a53284c999d, 0x18547edf50bd77b2],
    [0x4c8ec9192f2baebb, 0xeccb2a1e60d8504e, 0x8ba72b2e6b566bdf, 0x2b27178eca4b79],
    [0x95273ae4b6e7004a, 0x2c146bcdc906ee57, 0x342709f3d3be45cf, 0x3020eb88ae7acfd6],
    [0x94544eeeec1a170f, 0xfb6eeca3afefafe6, 0x2230c4cd623f77b0, 0x54b81a6d3b1f00],
    [0x2765d03065f6cffc, 0xb15e48e2ed449bda, 0xfb49bd9ab51063d3, 0x4d1e03c93510ba6],
    [0x7b2bb5a160dd8d99, 0x6f271eef1d93864b, 0x220abc091a2fafe8, 0x2ca6a28e6b98b8c8],
    [0xf32233e89f9d6733, 0xd519daaf4a4ad9a1, 0x44bf1e54de3d6f8f, 0x2a586600678651f1],
    [0x6fe173508a221d91, 0x96b2cd13144a240a, 0x411d736ce58dc821, 0xa94a9fb854a3c53],
    [0x4e6b23ec201e47fd, 0x35f96fbdd9b2b288, 0xe3a72f20f41d135d, 0x2d336c647cbb5478],
    [0xced707f0050a218a, 0xf6f9dcfb5853c5d3, 0x715c491a483dfbf6, 0x3dbe3f89948f9f4],
    [0xf476b0ffdf9435b4, 0x3d14800d82275a42, 0x3b316b2d986c8c0d, 0x22466ec15338114c],
    [0x83a4f8e6f842e687, 0x7da71f5490961fb7, 0x8d36999e91a9eee7, 0x1c2d6c5b182f394e],
    [0x1cb743167db2294d, 0x5abb52638d86b48a, 0xe370e48809d3bd24, 0x4fc56515cf83247],
    [0xd7fd39b17aaed27, 0x7edce9c110e3eaf0, 0xb4f9036fcc5092da, 0x1aaebc90617e5aa4],
    [0x3f7319c0c577e413, 0x452a535a096c5d71, 0x6858a2deb2f9d92c, 0x15f7dad928cb34e],
    [0x76e34b3ee079e972, 0xaa2d7123875b4201, 0x46eb56773c5320fd, 0x60028307221323f],
    [0xf38d819fc34e59d0, 0x1e2a7e62493650c8, 0xe60373bfa43e6751, 0x157b288cec9b5356],
    [0x57660aebfd12ebfc, 0xda411d780ecff1da, 0xbebc34ce3f00f07f, 0x88dbe88f3fe8fdc],
    [0x176e37df9c912fe, 0xdf403d28e6d349ec, 0xbfd38f8f8bcfe46f, 0x9f13c89213c82d5],
    [0x41c8e4157cd317a3, 0xabffa6dc923fbe51, 0x42236124c3200669, 0x5bffad53722ac6c],
    [0x36573537af33421e, 0x4bfde52203d4cca7, 0x5d2f6f2842146334, 0x290a7829a4cef2e2],
    [0xae4cc2734b39348f, 0xe6467929b878d814, 0x7be17d3e3ac52b0e, 0x9e7209dac715169],
    [0x11cd1667ea344039, 0xf56352fafd0f0977, 0x6df6a866a071fb5d, 0x7629f5b7cd3dd53],
    [0x177c377d55eae045, 0x4959f122304ea6c2, 0x442dce1f8334eafd, 0x11641de0af5d033b],
    [0x3310150cbada88f4, 0xe83cae4ecbbb0df1, 0xecb3c1650c761774, 0x1021e806d83de4cb],
    [0xdd51ded260fbb69f, 0x8cd640f70c895bde, 0x3cf64285f704135c, 0x4ae37e1e7676e1d],
    [0x5e49c837a71f0239, 0xc7cfc9c0f11a5fdc, 0xbf7221b59fcc2535, 0x2a491d28b320ff77],
    [0x6e55679e42be29c6, 0x5fccefd8744618e6, 0x751444e8ea3524d4, 0x2ba7c26958118f0b],
    [0xa34f29ec6283e9b3, 0x34e2da7d931133e4, 0x29be9406c6c309df, 0xc6516f4cbac8b8f],
    [0xee70c5687daaeb0c, 0x25b480a70656435, 0x9f8766c49d692079, 0x2991acc7db5eb315],
    [0x1c7a70c118c648d, 0xe52ed3e97e92adf7, 0x92779b7325e1afb8, 0x29d7605b413cddd1],
    [0xec0059eb2fe545ec, 0xdcf062ae4a3fad93, 0xee754d3ff5a92980, 0x2507bd3788f57cef],
];

/// The values of the round constants for width 6.
#[verifier::opaque]
pub open spec fn c_vals() -> Seq<nat> {
    limb_vals(C_DATA_0@)
}

/// The round constants for width 6.
pub(crate) fn c_table() -> (v: Vec<Uint256>)
    ensures
        v@.len() == 108,
        vals(v@) == c_vals(),
{
    let mut v = from_limbs(&C_DATA_0);
    proof {
        reveal(c_vals);
        assert(vals(v@) == c_vals());
    }
    v
}

/// Part 0 of the sparse partial-round rows for width 6, as little-endian limbs.
pub const S_DATA_0: [[u64; 4]; 256] = [
    [0xc87b917692a4d18, 0x6d53f44d273d956a, 0x16f2f070b1bd248c, 0x124666f80561ed59],
    [0x342eb6e869de7069, 0x12611f196b60aab2, 0xa37697a657fafd9c, 0x6fac61a13c7139],
    [0xed4eb43125bdfdc4, 0xe6e44da480d8f0bf, 0xa791b43c0571329e, 0x27b4b4ea2ab70bb1],
    [0xed0c5d392a1b4254, 0x11222f8c05b5bb5c, 0x6513da21cc64426, 0xfce2531c0dd9b19],
    [0xa90966b2bd89291f, 0x49f03e42e6fd4f6b, 0x659b7d537ef4f2da, 0x2278afba888b07c],
    [0xa40a49fba3c70ff1, 0x9009163bc2613446, 0xbda80b7c97f7e901, 0x456a8c01bcdcc91],
    [0x3df9937aae5fdd9c, 0x82cb15d40bd4fc14, 0x417334ca76f3dad7, 0x2e4c46b8f3ebe49],
    [0x51cc653bf9fce8cb, 0x302823a72fa019c2, 0x47743df05ba0a84d, 0x2c13f0f7c421c96b],
    [0x23214edd123676a3, 0xbf33380cf4bf74ec, 0x6dba556199efad30, 0x57b6bc405c5ad7f],
    [0x753f1317acaaf8af, 0xcf6bd0b6a1fff70f, 0x822076c8df679eb5, 0x2d127c7a346cdfcc],
    [0x60603bcdabda06e1, 0x6499672d67b10ea3, 0x47532a57790a142, 0x1a4dc6959d65fda6],
    [0xc87b917692a4d18, 0x6d53f44d273d956a, 0x16f2f070b1bd248c, 0x124666f80561ed59],
    [0x48669ec4f909e567, 0xc6fc29bd0d9a71e3, 0xca4984bc82002d07, 0x1ab539242bb16cb2],
    [0xd8ac7740104e2da9, 0x45e389efb61cebce, 0xcc44c0847844f5d9, 0x144bd8b4ba25cebb],
    [0x747a98d35b41bf57, 0x39fd390e2507a359, 0x7a182c4d83e0bbe0, 0x8325106daf692],
    [0x50b63a9870da0ede, 0xba3239739e970ebc, 0xb10b14f109d6893e, 0x1469c5365c13ba0c],
    [0x374dacb88c69c252, 0xc2ce4079ed210c88, 0x8829cb1d852b66f7, 0x111e82bf1fb3d445],
    [0x5ac788061031eab5, 0x8d9f0fd7b2bdc452, 0x5df3e825464319ba, 0x2bd6778059c21f8d],
    [0x71401daa267e36c0, 0x518c392a9e253380, 0x2fd9372f6be58aa0, 0x212d3cc6c2012c92],
    [0x7af0c450646ff99c, 0x2626ac79b2eee41, 0x5957a425dd05961a, 0x267547f0b00c32e8],
    [0x43d9b49c445d9dbf, 0xf711109a197501b, 0x9ac392696cc97453, 0x15f1012eb18a32c6],
    [0xc2ad45ecb9a0c27, 0x9063458c2c562f3c, 0x55496e3aecbca923, 0x24e5916738efe20b],
    [0xc87b917692a4d18, 0x6d53f44d273d956a, 0x16f2f070b1bd248c, 0x124666f80561ed59],
    [0xd6622c1d5cd67228, 0x33efed46c25b4009, 0xc981e54428379428, 0x537e9d61e32a91a],
    [0xe538c9a5d79d00b1, 0xc8a7b8c39ea9e5f0, 0xc26db12dc4687258, 0x2409867674021c13],
    [0xdf1e369b45abbb8a, 0x21e4e5043e30bb1f, 0xa2bb795f4b54e08a, 0x12dd0ad0bbdad721],
    [0x64d0f15f22011a17, 0x73d71741cb1d6792, 0x580dbd9db047343f, 0x194d2892087f1485],
    [0x6352fec8497398b6, 0x59d16cec505e28a0, 0x1b72eaffe307f73c, 0xce1f30705772a5],
    [0x52cea95e04e84ce8, 0x6882a560dc0b0569, 0x229dc6b4b6ae934b, 0xb4c42bfd8b2eee4],
    [0xfcbcce877ed78fec, 0xdb43b13fc4bd747, 0xa9ad0f3687f1fd84, 0x2831274ffa49361c],
    [0x218d5280c374e141, 0x9c72c8d1b29459ec, 0xf952f56dac42a8d2, 0x11c3faaea57cd532],
    [0x67d46c4b9d59b77e, 0x96ae749a3ee61169, 0x5820215a0a082fe2, 0xd01440afe63c28b],
    [0x62dd2ba01dc6fd48, 0x94bf7db886b158ce, 0x5b866c1b89762a0b, 0x27fd779943755816],
    [0xc87b917692a4d18, 0x6d53f44d273d956a, 0x16f2f070b1bd248c, 0x124666f80561ed59],
    [0x5bf2c15e7b2e044e, 0x7fbd82548dc72260, 0xb52041f635ec810e, 0x2aa5a2f43e0f4bb8],
    [0xf420f25f0e97a087, 0xc8620c5baa64d813, 0x93917a9c4919820a, 0x109e17fad36368fd],
    [0xe624cbef3df6c10c, 0xd9b6ddbca03d665b, 0x16077f0e4825fcae, 0x1c6178a12c2d4fc8],
    [0xbd2e7d18b22f7b1d, 0x895868630d4d1ca9, 0x42d7867b42b2acb3, 0xc8b545f3ba30057],
    [0x20550f78b1aea9e9, 0x169b564e656acd87, 0x47599447b65ed8ec, 0x1cf272cf45a39a8f],
    [0x571a8feac7e1fb26, 0xcf3aef1866d4b8df, 0x767ad184b89c02d1, 0xed81d4f2b8cc774],
    [0x53be6a93d90cdcc9, 0x2f2a485a98a63fac, 0xb6207eef339a432d, 0x25c22916d7c3d030],
    [0xb701b19d0f880820, 0xa951aa1e9ee18258, 0x736acd2164839f1, 0x140c2f65889d437a],
    [0x30c2d29b43ec2d0b, 0x1a1eb767c37ec937, 0xff4541d66232a3a6, 0x19b9bf03c47ce774],
    [0xe45d0426bafa3946, 0x87ac7f3133e7f4a5, 0x4afc1b5cb90f1cd5, 0x1464a2e5c87714bb],
    [0xc87b917692a4d18, 0x6d53f44d273d956a, 0x16f2f070b1bd248c, 0x124666f80561ed59],
    [0x8f55626f8984590a, 0xec2f5e53d065f8f2, 0x1135a74466610d02, 0x2fdf0895b6e7dd08],
    [0x6080b4c812f6d9ee, 0x33abac83f3ee2aa8, 0xc654be03d5f2ea8, 0x2136a6254155d537],
    [0x1619658015d69a3e, 0xfa14b2a3c3a74cde, 0x1457656efe3091cf, 0x2c25045d4ad7cabc],
    [0xa8f461b31b61d756, 0xbe7d2263c30a8111, 0x7a2258e02a11d996, 0x35edf90ee5ee293],
    [0x241bac300d20a3ad, 0x223efd7b39880e0b, 0xb89c799218467001, 0x24a6181596fefcf6],
    [0x2cfa3dd7e9e4ea51, 0x6dec7b565f79b94b, 0x695b46313d84713e, 0x29dcdaed731430d9],
    [0x8d9e90d2c73d1b8c, 0xd473394ccf983f19, 0x55d95e9c0dc048d1, 0x1724f4a9b1696abe],
    [0xb1910ddbc6fcf143, 0x4e608e5a8cc00a35, 0xfa8d9c030ebc68c0, 0x1af69c74aae418d0],
    [0xafa7fd8c1dc5bdb0, 0x11171c0066277483, 0x5e775c8b738f488a, 0x27a0793076b09c2b],
    [0x78fc90625f8e1e12, 0xfa5b5d84382b5efe, 0x5e31525a57fcef7d, 0x1d4ff6c75f177861],
    [0xc87b917692a4d18, 0x6d53f44d273d956a, 0x16f2f070b1bd248c, 0x124666f80561ed59],
    [0x55fb042d86b3bbef, 0x1ac1058dcb360e4f, 0x173ddbf41fd32b10, 0xfdf45f1143c7650],
    [0x8bbea346601a2a1c, 0x9bd5dfab8755373d, 0x93860493ae581fac, 0x28605df321f1d74a],
    [0xf611a9a721a2ab09, 0xbf391c73c0ea435f, 0xfdb42ebcba7bb4c2, 0x2894568db7debb47],
    [0x9075bee089ee532f, 0x33e650ef0009d7c9, 0x1549cd4c5a402b7b, 0x193887de99914c91],
    [0xb9da48aecfd53d91, 0x90c7545ba17d0b64, 0x906895ad874136e3, 0xe5688ca400eea76],
    [0xf93b895a4096371b, 0x3bd2b06cd8d39e97, 0xa20f4eeddff7e6cd, 0x2c60db3843ae2171],
    [0x74f779e90109ff34, 0xd3409df0443411de, 0x67625b7df6751d25, 0x8fb4f2d9d8a12c6],
    [0x36fa2da72d1a1802, 0x12c707a8615d7dc3, 0x5f015e14eefc3aa4, 0x4d7d91e365270],
    [0xd4ff6e9552808d54, 0xb921234656168e68, 0xcb51c3a8664b73f8, 0xc60ca70bd06719b],
    [0x2da225c567d05095, 0xf6de90c8463a09b8, 0x9cb8a439399c5ff5, 0x1ed054abe9f3b4e1],
    [0xc87b917692a4d18, 0x6d53f44d273d956a, 0x16f2f070b1bd248c, 0x124666f80561ed59],
    [0x5fe74188257c3b6b, 0xc959c5b8c9aec49d, 0xdb654d68512c316e, 0x2b3d78867b390b2f],
    [0x3b09cb4e5136545a, 0x38e628260d6e76bb, 0x28570cdc9f78fa38, 0x19f72308eb341f33],
    [0xeb280f19591597d9, 0x8dd2ddf02d56e4d6, 0xd2061b153f433d82, 0x54c9fdfc6bb12b],
    [0xcc7f9da470124a1c, 0xff6c89a362ff4c8c, 0x2359acbce4df9110, 0x20a858ce8c00fe45],
    [0x46dda9e717a9b1fa, 0xa6e66b0f56114b8f, 0x6eb851e44463ee0d, 0x1a55f3dae7d4d14c],
    [0x34272ae8660abf31, 0x7889f7d03bfcbc52, 0xe2d058bb6ba8e1, 0x65d52f3291af23a],
    [0x1b393ea9dc3bcf2b, 0x1cd0a8c62bd5faf7, 0xdd68f4bb0fee4b04, 0x278715151d06026c],
    [0x7bc093ccd6f3fc60, 0x622baf01b9f1630c, 0x7f041efe2951033a, 0x9c6ec8631ac5a41],
    [0xaea231962f762f75, 0x8605102931254955, 0x40304e342c5f965f, 0x9c078b2310e182f],
    [0xf117dc853dc3c532, 0x1ab1118a05d1466b, 0x7282b926253d9375, 0x22f4faf4ed2ac694],
    [0xc87b917692a4d18, 0x6d53f44d273d956a, 0x16f2f070b1bd248c, 0x124666f80561ed59],
    [0xb9764b8e5b4fb5fe, 0xcd0e2c1a60c9acb4, 0x7589a6cf15426219, 0xf24da597b74c367],
    [0x6a6400ad04515c96, 0xc31d2cf6666eef78, 0x7ea63b7f0d3b753c, 0xf39e91701d900bc],
    [0x7ab613a515df66e5, 0x940a5b3d9ffdd1b4, 0x1020fc4e647452ba, 0xb41187c60cc3bff],
    [0xc4aa42605f97a1b5, 0x65531928f62fb14c, 0xe7d5558c4d232756, 0x619fadfd7cbaa89],
    [0x2e924ee0fd2ffb87, 0xdf1b4ea7f1dc6b17, 0xc9387c83fb8987ca, 0x285ed3287367338b],
    [0x8b3642f29ae2eb31, 0xd55166ebf58aef55, 0x4607ed8b3089833, 0x853d29d7e18010d],
    [0x8d0bad07bed5ba9b, 0x55d096d876624215, 0x30221a7d5d112bb7, 0xb1d3737cb97c590],
    [0x7ee0a126942ca6ae, 0xfa1be8238526c806, 0xbe6dff2b97289dfe, 0x272b60326347683f],
    [0xfccd12e76818b23b, 0x4933d68446096f3c, 0xf6d7929af5440335, 0x2c7ef420b2bca189],
    [0x90cd613012b70508, 0xa45c45057f452e5b, 0x55175664a979aea1, 0x10fa5605e0b680e0],
    [0xc87b917692a4d18, 0x6d53f44d273d956a, 0x16f2f070b1bd248c, 0x124666f80561ed59],
    [0xf9ebbac9bacffc59, 0x31107f8896b5f8c7, 0x73e2dd7dc6a2186c, 0x2ad6fe66fcc8eb],
    [0xf5e8d0c66ca2c833, 0xb792ba63647031f2, 0x22237095db005ad9, 0x1db23b49760ab87c],
    [0x5ca82b010b3bd9f8, 0xac1febdec5e27a20, 0x85b8d8c3ce799ced, 0x2b51ab38d81609e8],
    [0xbb6fcbbfa72af53, 0xd6f1809269b98391, 0xd59bf8a408982796, 0x2bbd8df986114303],
    [0x87a99c035a176c22, 0x3e74c105513cd8be, 0x55d7bc66bdbec420, 0x3516ee288a26a75],
    [0xdd57cbd6aa48b240, 0x4044cf1b4715d5de, 0xd85e11051ac0d889, 0x21161b2869e0be07],
    [0x56d563e73ac03dc3, 0xd992f44a8558a09, 0xb2153bac8a074da, 0xf4723c169e78740],
    [0xc2c643a1c1368b4, 0xdf6734951b143faa, 0xb3cef6bed816850f, 0x890ec1904c98ba5],
    [0x55caaa5f45a2744e, 0xd6dcd892a14e3da6, 0x3f5655eb4f2db4e7, 0x1453882ebd23e2ce],
    [0x71e7c49c8deb41c6, 0x41af9d276327678b, 0xcf54a77d8d8ba145, 0xdf69ed4eae9a6ff],
    [0xc87b917692a4d18, 0x6d53f44d273d956a, 0x16f2f070b1bd248c, 0x124666f80561ed59],
    [0xbf1cb3d5ea4ae0a1, 0xbb652c2e47d1f5f4, 0x3c30220f978a1b48, 0x84cfab525ae12db],
    [0x58cff8b4d8a16561, 0xbefe1a9b946be4b, 0x3a51d76ea554c696, 0x220ee2aac4ec50cf],
    [0x34ea12645848d45d, 0x516e4d0ff5031792, 0xc3ca3cf7a78e37e2, 0x9d60891cc06c285],
    [0x7eb860dfdcdd295b, 0xe96e08c7faf7bb3b, 0x4f1be042cc1dec8, 0x2f51338183dfa996],
    [0xbfa4732f85e1b01, 0x10b2721436115677, 0x9d2ca8b32f27e68d, 0x29fb82b7e1ea4acf],
    [0x8a25896e526ecb8b, 0x6b7d21f47f1bb1f8, 0x3367aeec4cfdcfe1, 0x24d4646bb66688b3],
    [0x1120dc7864a5d5b5, 0x1a3dc4f581954fa9, 0x9c095f9ab2e0b413, 0x2cdaecd1c565376],
    [0xbdcde3b9a2595913, 0x851938335f6af547, 0xbab11e8f49f7431a, 0x2e48eb6f5a9dd830],
    [0x9840eeebd9676b11, 0x5a5598f0847966dc, 0x967a7f3ce11c053d, 0xd3d729c3d04c7f9],
    [0x6ca55d4472648f2b, 0x1d818f77cc71bffc, 0xf89ab2b794739a37, 0x2c9c7d8f5c11a1cb],
    [0xc87b917692a4d18, 0x6d53f44d273d956a, 0x16f2f070b1bd248c, 0x124666f80561ed59],
    [0x35d728c6a531b17e, 0xbbe9d5358ec7a340, 0xbbafc2eae5d109a2, 0xf330feb7fa24cbf],
    [0x9029b0867ccfb460, 0xdbb8a824b34d4581, 0x13263c37d97ffad, 0x1b4af72b65b66913],
    [0xa8e9275e888307fc, 0x32315343423ce026, 0x5cea9e679db6c577, 0x2ace1ffd40f56f14],
    [0x75d625880c7d033f, 0x426f9a6990fe80c8, 0xc31519e037fdcc5c, 0x1c328a5168d04cdb],
    [0xcdd0910f5aae548d, 0xd046684219f4960e, 0xd3030d53733e33e3, 0x1970922d81c9cd97],
    [0x963f38b8b55a86ab, 0xcaf23d8d7b966d97, 0xbc4c5e872eeb1628, 0x76fcdeddfca38e6],
    [0xa7986c1569e4cc3a, 0x1c1bc065b149c2c2, 0x120df7ff9ba32eff, 0x3e273f1f05592ce],
    [0xa48e2cb777badf6a, 0x3b11289a3440792, 0x95fd0759474932a0, 0x2b1f8dfec05e8d44],
    [0x603c0cb13f89cc9f, 0x3bd540c93921e8f3, 0xcc51cde97f9e4a, 0x126fd80bd8f9f83f],
    [0x657cfcd533b4a57a, 0xa81f7c51a317a2c1, 0x4cd74689126175d8, 0x7cf5007a4ecae9f],
    [0xc87b917692a4d18, 0x6d53f44d273d956a, 0x16f2f070b1bd248c, 0x124666f80561ed59],
    [0x5b4cef874fba6093, 0xb8b9965510bf81c8, 0x7cf212e603b2a491, 0x18793b6ef20fbe07],
    [0x1780381f9b1ddebc, 0x44c116dd37fae01e, 0x19ae5e7e6cfa4683, 0x5bc7621748131cb],
    [0x37fa84a52cc9efba, 0xfaeca846b555b026, 0x5c15fbc24bf7c164, 0x1aa859447f3acaff],
    [0xdcdfbd1c77636c1f, 0x62b1fdc4739123d8, 0xe04821e4f2ca799c, 0x28c3d01915f85693],
    [0x89e988e041223f15, 0x33e351fd18d3570, 0x2e7046dbe690997f, 0x2c7f8527d2ad7d0],
    [0x297acf2f072db9c6, 0x632a0a69b9cddede, 0xd340ded56f5edce3, 0x126b669244c7ea73],
    [0x31e98d2bef539781, 0x4255420604fe31b3, 0x90112e7a8e9d3d82, 0x24f71ee920c1cc27],
    [0xd1f86069c067f03f, 0x1396a94167c8e34e, 0x291b3e8a96bd1525, 0x182fbdc24f8599ae],
    [0x5873a408d6d8cbbd, 0x7ec18a50fa3ab3aa, 0x154fb3b7fb067c4f, 0xeab7f1b18721b3c],
    [0x3cd4449e1cc6b06d, 0x5d55e5862d1be64, 0xac3d7ab9172a8267, 0x2012fdfd4d53aadb],
    [0xc87b917692a4d18, 0x6d53f44d273d956a, 0x16f2f070b1bd248c, 0x124666f80561ed59],
    [0xf486a9772f4b6e8b, 0xf59f7e4975e98fbd, 0x632e9924a725c65b, 0x140490ba93d42481],
    [0x23d985b867f054b9, 0xd74c45a4dd236809, 0x9a06a1ac31bc5d06, 0x2adfb4e0a5544860],
    [0x1ee08eaeb43938c8, 0xc6d8e48c4314cb0a, 0xc46231697cc52fb4, 0x2035a526748b686a],
    [0x52d40c983e865096, 0xe9beeb37c59ec90e, 0xd1ca2833159053a0, 0x242ec6b33cd2c625],
    [0x6debf2820accb611, 0x522a07220a62c798, 0x98e3f144046327b9, 0x10f8808d7f886209],
    [0x3dbed7a98bef4419, 0xda081b9e6073aa7, 0x98a1b296dd42c901, 0x5d4d8a6023401b7],
    [0x6e870e85fcc16ac8, 0xc036923b978fa8be, 0x1e08c5f858520b25, 0x20be6be68c47dda4],
    [0xbea90f40afcfc500, 0xa03a4019f86c45bb, 0x7bd9be9af5c0cdd, 0x39240da2e149653],
    [0xad08b56cdba7c3c, 0xb795dc414d6b7135, 0x6481b95457ec48e2, 0x60457249c4fffb0],
    [0xfad6e0015d698e72, 0x99f9ee594dc03af1, 0xf12820066059f1b9, 0x239ebf95f3d5909f],
    [0xc87b917692a4d18, 0x6d53f44d273d956a, 0x16f2f070b1bd248c, 0x124666f80561ed59],
    [0x85f9feea552cbed3, 0x1d0b85fc0c95153e, 0x9b45b7b8466e003c, 0x90738838c7088a3],
    [0x937310f797df2469, 0xeec54afb97da769f, 0x6a7c777fd33d11e4, 0xd0aa07eb53bc77f],
    [0x36f5529eb399a8ef, 0x994ce06f021ad322, 0xaf8bf1a6ac33f69d, 0x22e87e33862f106],
    [0x9f1aae19c5b0c0, 0x7273ff9a4f1e088a, 0x8eceb0f5e7946d20, 0x16a3ff860e2110d9],
    [0xbf5603c5690ead76, 0x3081b2920a59f54c, 0xa681118ecf461250, 0x13e35cdae4c6ff35],
    [0x877ef8b5e6b62084, 0x602767afcff3938a, 0x63d887aa5443a88e, 0x11dcdcbb80fe3289],
    [0xdc7d58d7b929c71, 0x882b40ae28799467, 0x709a2a97a0255d08, 0x1440ac3cf3a1ca78],
    [0x3ce3ad404c503a9a, 0x88aa2192e3143ca7, 0xfd7808ce5c69caf1, 0x9112aba3d285034],
    [0x981a905daf415450, 0x8f1c2f3576531713, 0x943badb09721ad6, 0x2c8eb1b5f21c2f32],
    [0x11f2bdac5cf0b160, 0xd6e24c787b37f3a3, 0xabaf2e2279eb6f11, 0x695acc1afc2070e],
    [0xc87b917692a4d18, 0x6d53f44d273d956a, 0x16f2f070b1bd248c, 0x124666f80561ed59],
    [0x37895230685ceef5, 0xb9a4e1987cbb36e4, 0xd6f5a59e0856ad2b, 0x1fb55d0f07f478f8],
    [0x9f7e2fb3773f3a5a, 0x7119ea89aec1326f, 0x9d7befe633215f27, 0x24ffa19b717061f2],
    [0x298e11f21d7f69e5, 0x57d66ffae3113107, 0x74cba7ab2b591ecf, 0x16cf73a3eb3a86fe],
    [0xc358d1f740c1f874, 0x6cea1bf2fdc19fde, 0x39faf24d85354071, 0x115c7124e48b479e],
    [0x94ba23a413116cad, 0xce64032bf746d661, 0x72a8445bab791271, 0x1587c165c3d5592e],
    [0x681bb077b75e001c, 0x6b28e8a1a8664e48, 0x6115586f21fdcd1e, 0x20677bb9ac0210a0],
    [0xe1f34d8e3dd1a651, 0x767ed07f9ac97b5d, 0x3287ad074ffd8e4d, 0xfdcb34056ef1d89],
    [0x13d5d53f8818b79c, 0x14cc775f1c312bbb, 0x3b853a0931c9a99b, 0x19ec313123a0d8e6],
    [0xc3f0d9431bdd5728, 0xb870b5e9e5d9e3a3, 0xc136af9e86888808, 0x19c0eb17f727d16d],
    [0xac3f9a6bac9b6907, 0x74690d42cc465100, 0xce4378cf6e0d5743, 0x2b158fd09d9bb317],
    [0xc87b917692a4d18, 0x6d53f44d273d956a, 0x16f2f070b1bd248c, 0x124666f80561ed59],
    [0xdc2ee474d543df74, 0x380f0259e6a04047, 0xee73f06438d1e38b, 0x67895e624f72c2],
    [0x844ce681b933d5f1, 0x7e194fbd8c619a7d, 0x6b8c6af6bb88cdb1, 0x24d801233a58b201],
    [0xafc62b8bbb9ab94f, 0x28acdf41c8e0d9f2, 0x8070f388815361f0, 0x18bbcf6fa75ef7e6],
    [0x367af545463db7a6, 0xc32a38e1a594a6f1, 0x244cc1837b1ba594, 0xd8f16cc1dac32ee],
    [0x570bf91014ec3d60, 0xe1eca676f0c169f9, 0x220976032ce4aae7, 0x85b04652f4427e9],
    [0x8d908c46c2e76112, 0x10a523a6319d49c, 0x5e69de1bc8bc2061, 0x29b6e637abd64aa2],
    [0x5769f767ee92e1f9, 0xf929091962bbe322, 0xc312fde6bfea7146, 0x686bc450316a122],
    [0x115679c9d4e464ba, 0xfa4f7d1dd5fe8db8, 0x643018caafaf569e, 0x1c7db281138ff861],
    [0x422589800c123cac, 0xf9a680df2fb6f501, 0x662c888fe50a3f24, 0x434b9adf694ee77],
    [0x2bb87dd6034b352d, 0x756702139b7d8e7e, 0xad4a14f3b9a5357b, 0x26bf3831811b3222],
    [0xc87b917692a4d18, 0x6d53f44d273d956a, 0x16f2f070b1bd248c, 0x124666f80561ed59],
    [0x1b88fc2ea6ab66b0, 0x5f128773e068dea1, 0x74ff328bcb61e4ad, 0x24b42bac7abee894],
    [0xbd5c0857cedb470f, 0x9ea30aa59c7f2fc5, 0x4dbba92583a02fbf, 0x199ed05bbee1131c],
    [0xade1c81fd02d100a, 0xb5117b74adb95734, 0x4ad00648e01596ab, 0x2bd6670f967781e7],
    [0xd35f7742e286bb63, 0xc6db941086091270, 0x53f67a87859373b4, 0x17127e11451908da],
    [0x89af62b616205261, 0x1b237591087f8051, 0x2f56a128071f5417, 0x292010c36ff554b0],
    [0x4e8b461290402e3c, 0x9284a951f067750f, 0x4480e6490018b48, 0x2f6af6bf3c24ccd],
    [0xce5147d0608449e7, 0xbf0f1d91028f3ab, 0xa8b9eceaf9d5ad24, 0x11ff6780b8da3672],
    [0x4405dd38054a8b2e, 0xf1cf123109cce735, 0x2cc1bcd5bdd0c9a4, 0xdae6cefcea61ea5],
    [0x5d61a66c2382c35f, 0x3bdcdeac99cb7ea7, 0xd7a39050f4478ac4, 0x2234fe0dad3dd0de],
    [0x813e217e7d3e9272, 0xc9ce48a85427f07f, 0xd07a5cc58dc2aafe, 0x1627a2a755f77f83],
    [0xc87b917692a4d18, 0x6d53f44d273d956a, 0x16f2f070b1bd248c, 0x124666f80561ed59],
    [0x95cfc4cdd4f64c7f, 0xbb3bc321f74b7f47, 0xde3de070d9605135, 0xbc958ac5faec064],
    [0x80acd20f45590507, 0xbe60cfe3e1aaf505, 0x7e62f476c88b521e, 0x1761972f9f0d7d6],
    [0xcfccc995a3ed3734, 0x2191f235ff9a753f, 0x1b75251b5fe4b228, 0x3ae68549640072b],
    [0xed87036a74829b12, 0x248b78bf8acc15fe, 0x27b3cb97854bdfa5, 0x1d3a95b2449e1d2],
    [0x43647cdac98a983c, 0xb765853301e9f309, 0xb20b49acd9f201d5, 0x1be688f94403019e],
    [0x429d6259149311bf, 0x99a620af4a76e6f3, 0xeb478793e2e146af, 0xd40a2c767f9d882],
    [0xf475b87c034fad40, 0xff08a0d97d2b6470, 0x8cacafa27bdfbb6, 0x2075d588d996d67e],
    [0x64f37a80eff37aeb, 0x88438af4e04f5f8e, 0x4e6079222f548fc4, 0x1db5acabacf79eef],
    [0x55c9d8c35d433a04, 0x55c9079147eab6fc, 0x58665e0fa0ef7ec1, 0x14042fd270442549],
    [0x27c7ed414a39c2ea, 0xb0ae1c29b0f3c2dd, 0xec13dcbb943bf4a, 0x21ca73c94e245ed0],
    [0xc87b917692a4d18, 0x6d53f44d273d956a, 0x16f2f070b1bd248c, 0x124666f80561ed59],
    [0xe8db7a7ea7aa22ac, 0xdc8e7ce304602be7, 0x2028ef9ffc0ca24e, 0x20ddb53f4160aa86],
    [0xc118d2e47080c137, 0x1202f77cab67f448, 0x631ea8d0e0308f3e, 0x182fcdfa75858b86],
    [0x4c322f77c6eb94b5, 0x37f6f6e490e8736b, 0x263450f631d803, 0x28cd7a17b0f33497],
    [0xdc27f23e01199f97, 0x2ad2588db68f202a, 0xc769ef391c25c816, 0x4a6cffef8bf0db8],
    [0x5f24a91fd6cf7085, 0x1dc111dc531adef1, 0x522395aa73d971db, 0x1f208c20855afe52],
    [0x168de7abe11b444d, 0x4e249d7c16da6fac, 0x505669eba119568c, 0x107fa0c5c5aeeb26],
    [0xf4484f967c6248b9, 0x5062f0c2cef2944d, 0xea60317c73249bc8, 0x210dce59a46fc548],
    [0xca2612b3c6f1cd82, 0x1525a3dd65bc57, 0x695c3da57cce026e, 0x278cd8d83323de48],
    [0x9d5f051bdf1b942f, 0x1b7fe2bf29a4aee5, 0xc7cb070e610b96d6, 0xb9cb7e4dbe036ab],
    [0xe03e0aa3af07baaa, 0x3d27373cecdb3a83, 0x9974aabe82b9cf34, 0x2aa13fa2731b295a],
    [0xc87b917692a4d18, 0x6d53f44d273d956a, 0x16f2f070b1bd248c, 0x124666f80561ed59],
    [0x400ab4029486d1cc, 0xe8ef31ffc2048d70, 0x251a9704dd23abb5, 0x11e4ba066ef8a6cb],
    [0x87e5be7fbc2d2e4d, 0x49885c84f9488e56, 0x8d886e3d71f029c8, 0x23578b304fd7b3d2],
    [0x5d2163fb6c8bb770, 0xdecf370a9e1a24ff, 0xb26b0991681a9117, 0x143068c60714bb1e],
    [0xe297e1c1493715a9, 0x98c057127907373c, 0xaee430f085becc85, 0x1a42d3af21b7f72f],
    [0xf2de0e8c26606002, 0x51dc85423f798776, 0x720f95ec7a7b0880, 0x260e79c967c0d5bc],
    [0xfc6b2fb6ada2d5, 0x6bcd27feaa9a1f38, 0x217f48112e9c9118, 0x2314b014bb5c57a4],
    [0xe6e7268bc1b59bd2, 0x871a80cf0645b714, 0x1d66edf15e597c73, 0x10ab73560f145dd6],
    [0x758024a3328c67cf, 0xf0b86f708c3d0ebc, 0xa7844b5cffe76215, 0x2da780f43e972a1e],
    [0xce6ab9323d1644ce, 0xaf5ce83d74efa84d, 0x6c1a543b5d4fee91, 0x26e5fd2c13423aee],
    [0x5a6a63626b73befd, 0xf1f21f20c9af67c5, 0x341241ac92fade04, 0x91cf8a0d9aef97c],
    [0xc87b917692a4d18, 0x6d53f44d273d956a, 0x16f2f070b1bd248c, 0x124666f80561ed59],
    [0x78cf3f4a95c096e3, 0x83144b108b9619f6, 0x995d64973ba91372, 0x1ac2da30c9db6a34],
    [0x97017487619ec25f, 0xdc1b37973819e47, 0x4c949626d350f6b, 0x11376660bfc8fe71],
    [0x7e88fd34a46aa81, 0xad1dc8b47a665988, 0xa76681e97a310e9, 0x21a72bfc29af637d],
    [0xd4acfc2afc972f13, 0x74cf4ec2df3ed582, 0x5abe9d2e8c0f72cb, 0x1d61ed0d0221cec0],
    [0x7b280d332463fbe0, 0xc91adc51cfbd451a, 0x525ddc0a210ae1ed, 0x2cf2377f25f134cd],
    [0x770a9a7e639cd55e, 0x527b2e434fb21b3, 0x9adc58ff843d0121, 0x128d871cc9d69dad],
    [0x9d115704ad305729, 0x136b6631556ed497, 0x27f9e517057b6186, 0x180f7db2b079ef50],
    [0xdff89dc0ca70cebd, 0x4b4c082c24950714, 0xa6d6af3d547117c0, 0x271f62e52e4a218a],
    [0x6dbce38850401526, 0x852e87e68f89d6b, 0x567d7fc5addff301, 0x1c33419ecb6f7066],
    [0x9dfb34b4d9baf9ec, 0x70e54815c7d169de, 0x647206b926ab9b6b, 0x1a75ac0eb3ff4f7b],
    [0xc87b917692a4d18, 0x6d53f44d273d956a, 0x16f2f070b1bd248c, 0x124666f80561ed59],
    [0x7e2ed1017828f1bc, 0x8b62a54eb3d0300c, 0x5ce1228264c5870, 0x1662417df4647150],
    [0xc2ee5af423dae356, 0xd038b607f678602e, 0x407f585a4e859ff2, 0x1bc3d8189b4c0993],
    [0x856348382e8481e6, 0x8ed7fd9bbd22b2d9, 0x5962f8ade3aa5d85, 0xd1fdc7177e273bb],
    [0x4cf43d7cdc06a89e, 0x52b9d1f25d685bb5, 0x98df2d2bd91b845c, 0x2e847d92b4b1cd71],
    [0x8789dc993aff289, 0xc7b472cefb4d98dc, 0x1bd4b76f1cb4b4d7, 0x2116ff3bbe130b9b],
    [0xe261852a5aee96a1, 0x7f0e1930cb04e460, 0x45bac05e9707460d, 0x1057a54ade240ea5],
    [0xac7dff2d8f973327, 0x2abfaa8370d62312, 0xe73514069e278c, 0x24c6693b4bafa195],
    [0xe41bc7e47420331, 0x3a22e580cbb3d079, 0xdce142c8511d2f58, 0x2cb268850f0ed89f],
    [0xeccd29d831b0712e, 0xce5c8e4ab15bf7f5, 0x2e535d4a18dd9981, 0xa731e96f407cbd9],
    [0x12dbab0011cae43b, 0x367c19fb4a78b117, 0x8ea480d5ffba80e, 0x9f9e3fd0498d863],
    [0xc87b917692a4d18, 0x6d53f44d273d956a, 0x16f2f070b1bd248c, 0x124666f80561ed59],
    [0x4a3b1e37b740d4c0, 0xcb842e7d6785b790, 0x754612aecee2b9bf, 0x4670b146f637567],
    [0x6db5687475ee26ca, 0x16c8289203813718, 0xbc0255a4f78af5fc, 0x3c5e0facfdd5fde],
    [0x3a25b7c483254b57, 0xade20015c869fc46, 0x631f9c88dafedb4b, 0x23a34dc39f0b7bdf],
    [0x7315992edc06062b, 0x7cf534a9c5e908e5, 0xabce924797ec204d, 0x20a919d5f1fb9b22],
    [0xb4f2dcce8726d922, 0xa2b7adb2168f3202, 0xdfcd978191b200f8, 0x41f1d89022bcd40],
    [0xf46e14dadc38134d, 0x32b7b5f65ca9f3a, 0x789ba6be9c4b99fb, 0x23c914f4087c43ee],
    [0x5235fd842f37ae0e, 0xd212c3018ffdcada, 0x82041aeab1d5456d, 0x2d61a559f806a5e3],
    [0x30e175c812549aa3, 0x4270109e5c6b5a48, 0x20c5c9054a6a4597, 0x2e5457db2f949921],
    [0xf298418be41079c3, 0xb66fae13bc8d1b1a, 0xc7f83c120b5613b9, 0x9f4292ce6a22415],
    [0x8030124d9ceda7f0, 0xd654db2f03ba27e8, 0x9a76eb6c5ce246de, 0xf82a2950fe7f216],
    [0xc87b917692a4d18, 0x6d53f44d273d956a, 0x16f2f070b1bd248c, 0x124666f80561ed59],
    [0xfbb5f977607542f7, 0x9f0a400fbf4f0ff3, 0x1cb9eceaf7f5501e, 0xc8a9b44c11b429d],
    [0xab4ebc5c316eaa0f, 0xac027d187072cd9a, 0x861812d5dba5dc91, 0x116275de531eb4f4],
];

/// Part 1 of the sparse partial-round rows for width 6, as little-endian limbs.
pub const S_DATA_1: [[u64; 4]; 256] = [
    [0x1dc9e094ba7336e1, 0xcd528792796bafd0, 0x7fe83569937fa20c, 0x10face39f20b7170],
    [0xde815fe2c007956a, 0x9819eebd7784a7b0, 0x7cb30f3cef40f3c4, 0x6cc30ed5380e3e5],
    [0x41632f613336200c, 0xb172514dadece61b, 0x4bf5e2d96b2e2a7a, 0x11e62c7d02773e2a],
    [0x6f117aadbdc83736, 0xcd380ba6ddc95abb, 0xb45c8d5f3743b0b1, 0x5688b27d4a2435f],
    [0xc238dd82c7d5ad19, 0x14041ffc729e7edc, 0xe9e2be09ed243d61, 0x22e95383d9f4bc94],
    [0x2fb6e91e70f2501, 0x6c44ea51c959df3, 0x73dae01624272a77, 0x1dcf7620094c223d],
    [0x18cf12b76f7a89c1, 0xcc48de21f3979f68, 0x4fb927b3628ab5be, 0xd686d6407ba6f20],
    [0x4170e73c389169fb, 0x7fecc5eef0911b71, 0x51f897986059ac06, 0x4059e8835ec9587],
    [0xc87b917692a4d18, 0x6d53f44d273d956a, 0x16f2f070b1bd248c, 0x124666f80561ed59],
    [0x9474702bf4c8d813, 0x1c975c3191bbff91, 0x150d064857ce6f89, 0xce22a6f7aa9168],
    [0x51c048d7eea72729, 0xb9e8aabc83687a08, 0x78243e36ce971440, 0x194f2018abf3467e],
    [0xdb6ace55216d7764, 0xf269743fa28db231, 0x49f4732d6610eb9, 0x29974bc9d401f128],
    [0x9f2e5333921739d2, 0x6afe29741569acb3, 0x403fcef91ea2d8a3, 0x23ad853475090c61],
    [0x9eb9cd5ff5bf4556, 0x210ddc38454bb532, 0xa7a761748f9622e4, 0x4efe76826f38d11],
    [0xc358e339486ea6f9, 0xe7f16aada17a609b, 0xb463f58ca3a7e4f2, 0x8a2e45b2884b3bc],
    [0x67b00dec27c6e28b, 0xd72de9bd3f8d9934, 0x64a76cbf083074d7, 0x1c22ab2592802c8f],
    [0x855c212307514f7b, 0x8fcd6d845d886f71, 0x4da21fa47b4bdff, 0x180c18b59f0dc43c],
    [0x8c72499e70aaa225, 0x1a0ff0d80abf3341, 0xf5bc9dcdb8e1bfe2, 0x146346178cae4f0b],
    [0xb8f2b6be9561d1df, 0x966d1b89797805c4, 0xa57d4ecec83a8e4, 0x301de4fecad71326],
    [0xc87b917692a4d18, 0x6d53f44d273d956a, 0x16f2f070b1bd248c, 0x124666f80561ed59],
    [0x225696d47db0da7a, 0xdac2f5d2708a1be1, 0x53119861fa90b44f, 0x80ff1bccc786882],
    [0xfebb1c083a7a7fe9, 0x9e3f28cbe190cc3d, 0xb59914509ba21964, 0x2e8300243648b888],
    [0xdddc1d15f88b52a3, 0x774f17f34450dcf, 0x1a686cfa9e82c9fa, 0xcda045c07fc0556],
    [0xe42e6dc7472f3521, 0xfaf2b30a19b4f8b9, 0xf903aa6249f64cdf, 0x21335dfd5874c230],
    [0x1afe9a1613183c05, 0x805629516de6d909, 0xd2722ee33f82aa80, 0x2e7bfd8d6d903cd0],
    [0x9afe62eebc49d241, 0x32dfc795378e843, 0x64738e414391c37d, 0x443b099429cd338],
    [0xf3eafbd0b769ae8f, 0x350ae57ff01c96da, 0x48f96513f2d1ee0d, 0x215a81cf42f2710c],
    [0xbad61ad00826c72b, 0x1c8fd02f7fc27bd5, 0xcf069fb215615985, 0x156a1611ff9933c],
    [0xec793a0fc54fcf97, 0x18a5de630ffac363, 0x9e9b306380d3cc04, 0x90d3ac25b80c0f6],
    [0xfeb4b79fdfdfe4d7, 0x92048cc0c963b668, 0xe3a6214c9fa8b597, 0xf53453418098174],
    [0xc87b917692a4d18, 0x6d53f44d273d956a, 0x16f2f070b1bd248c, 0x124666f80561ed59],
    [0xfa491c655c697381, 0xfb6a1ce771019241, 0xc5df9a1d2955a928, 0x167dcc32fc7311f7],
    [0xecb7dc98bf518a03, 0xc8e84aaa857e976f, 0x4bb2f91cd377b32f, 0x2a191b6a2f8f96da],
    [0xc14abc52c2a0a8c4, 0x2cfc1eecfde9a4c9, 0x62b62339aef5380e, 0xc2fd4887d8b7046],
    [0x23932079a5e3e039, 0xfb1192eb537dad2b, 0xc735f3e55a10e18, 0x1e630649bc36af2],
    [0x5ba69c1b31b8471a, 0x11eab034fb60adeb, 0x3846da16ea7c3099, 0x210302a02dd75f2d],
    [0x56e42366d42a172d, 0x596f8cd233708559, 0xc77b7439b345b772, 0x1d9e0ac6e8f8b9bf],
    [0x748cf00ebb670067, 0x4c2063b9777c1fc7, 0x617be7daa4072efe, 0x2a6cf61cb3658480],
    [0xa618b390bf84b5ef, 0x7c91941196ddac67, 0x959163a42621d26c, 0x2c6d225faad9f6f0],
    [0x540aa9db05d9aa29, 0x3da65b6a7156ab30, 0x2853a5976075b6d7, 0x2d2cea26566fae8c],
    [0xd61f60a0b38ca3dc, 0xc90dc2625f366a6d, 0xbf6453d9cc647f87, 0x2e13c310c5e84e55],
    [0xc87b917692a4d18, 0x6d53f44d273d956a, 0x16f2f070b1bd248c, 0x124666f80561ed59],
    [0x4e67db7b13e9119a, 0x3974c5f2e4ed2dab, 0x6ad4de69cd797d5f, 0x18f8e2508be0983a],
    [0x742541350f929c10, 0x2ee4653beeecd92d, 0xbf14a2626be77588, 0x122a34cadaaf871d],
    [0x874821b40bbcb7b6, 0x2966a70537bcfc85, 0x72675773838cf7f7, 0x1eaa9c56276ed200],
    [0x72b1faa267eb7fd4, 0x7d580b3d66e5b477, 0xec9d7ebab1e9cec5, 0x10e0b85cefc5748e],
    [0x4ae88ac934832633, 0x6c22521ef88e9f45, 0x84a78db78c217fa9, 0x961d96cc4f121a1],
    [0x1d3abafdf3f89735, 0x958f2f96111d4646, 0xa99a67959fbefa10, 0x2d40eb8157494a91],
    [0x7cd59a2e61f8f85d, 0xb2c1a09b38878f04, 0xa998c7d9c6a395aa, 0x21807e2e88a4f906],
    [0x67904d719edcb77a, 0xeb47b65c64deb2d1, 0xb6ef892613aac237, 0x2e19eaca5d16c8bb],
    [0xdfe79123f8c1d32a, 0xe294d6a566f6a48c, 0xd41c82a4c9722d57, 0x16714242c7b7e789],
    [0x2e4857e2ef1fa242, 0x75f422f61928eb6c, 0xce10c1ad7e935340, 0x5566d38792f0671],
    [0xc87b917692a4d18, 0x6d53f44d273d956a, 0x16f2f070b1bd248c, 0x124666f80561ed59],
    [0xf73ee09570c143d6, 0x1f3192c0f432da08, 0xac27734782f07615, 0x13290f24b105f48d],
    [0x61beb496f267eaf8, 0x784fa68082bba9a5, 0x82b19e887dfccc01, 0x1b4b953ada89454c],
    [0xdda7ad9a6d3855fd, 0x32199983ff9ba2ce, 0x560e2f1aaedbe7ac, 0x2613eebb5f02fde5],
    [0xab2aa2bdb7ae4990, 0x250bf9b6584e371c, 0x3c0219ef96fa6c69, 0x1aec57bd5745a26c],
    [0xc10132d8ef8d3e85, 0x4b5f2e95b0be560f, 0x4cd299d8bce72398, 0x67389e348c3409b],
    [0x7e6ee5fda0c9eef6, 0xd32ca8b8a5da8559, 0x9187aba9ddaf2e32, 0xb0e06a1e7dc543f],
    [0x4eb0ff970f54d5f9, 0x42342a72afd1a1e6, 0x2e2cf3347ce4ac8a, 0xa1fb4cb7fd49138],
    [0xb87382fc3fb13aa3, 0xeec3b0f15d20d899, 0x81991f6f0d79d62f, 0x1977003ba614ea8e],
    [0x43feaceb1dea753b, 0x96017f4fbfcdc6c7, 0xdd7b1cc0251084aa, 0x286e912fa4b01948],
    [0xd9e9c2d1630e6ecb, 0x625e79325fb839e1, 0x8f37515ad3cad730, 0x23370231ef55f59d],
    [0xc87b917692a4d18, 0x6d53f44d273d956a, 0x16f2f070b1bd248c, 0x124666f80561ed59],
    [0xd10286df9cbd4ca9, 0xaf945027ff5bf710, 0x44f8d1038fdc7b9f, 0xb1cf6bfcfeb3cf3],
    [0xfec4a77c6525acb3, 0x25f4a33a3ecb6066, 0xb914c9a56c54b02c, 0x123d9a409d14c996],
    [0x935a9593ab1c207d, 0x96e31708754f8f26, 0x93ede8725da41793, 0x89f21498630a312],
    [0x4513709040705202, 0x78177c6bc16eef3d, 0x4ee03547dd49092a, 0x2f5bfc653853a2d7],
    [0x6f438b5eb234729d, 0x6e8abb635697bb57, 0x6ac8516b188d76ed, 0xa18b08811ddbe00],
    [0x487143d74155f7e8, 0x654b74d7caac3e4d, 0x5410561b4ced6025, 0x1e0fb18481c8d953],
    [0x5c3de4cc163fac02, 0x214d5264abf959ff, 0x425d0ae924553340, 0x936106e344c77a4],
    [0x1fa4577791ff62fc, 0xfce484149cdce155, 0x91e7266135607235, 0x1abeb831643365e],
    [0xff2bdb749fc0c7d5, 0xe0d733c032d1f7be, 0xf4d88322256bb872, 0x22892af37e8064b],
    [0xa9a8e52e1cecdfb6, 0x1f1eaab7d08b6060, 0x5e38ca2f9ba43ea, 0x29b830534e780d72],
    [0xc87b917692a4d18, 0x6d53f44d273d956a, 0x16f2f070b1bd248c, 0x124666f80561ed59],
    [0x50832b9774900bcb, 0x2c2e35d2044fec79, 0x679a246222b5122c, 0x2ae98ec328e9150],
    [0x7c788f75f09c95e8, 0xc6dcced509640487, 0xe8d586c6852ec501, 0x155494f37217d033],
    [0x24dc4761ada0db41, 0x9045e3200f2d10f8, 0x44b3bc357fabbbb7, 0x191c6cdbbacbbdf6],
    [0xab7c05f6b96a1c12, 0x38f7cf7aa1db7452, 0xaeeb23a76c2d9853, 0x2d0f68dc5a731e30],
    [0x5a5a64e4fc780e75, 0x53702765e42367d1, 0x39ebf81f3201610f, 0x8761ae31b008519],
    [0x77d2ae9f620f738c, 0x5dc734754a91bfb9, 0x6ed844c436ff76ee, 0x22259606cc46b687],
    [0xf22c699d9061923e, 0x98dc1c7ff13db57b, 0x567219f6f69b6ea0, 0x290031eb3efbfdd],
    [0x206e8083d8ba2d08, 0x3e609ad4dd6f6387, 0xfcd283c24baaac52, 0x11a164ee321faec],
    [0xc39bf65204a488a0, 0xf9a9355f0f705d61, 0x6f8a891826c3393b, 0x14a6a424876b86e0],
    [0xb64a5fb69e7a9771, 0x3ca0be9b313f90ee, 0xf2d73279f2b7cc89, 0xe1d8d72bd4c192a],
    [0xc87b917692a4d18, 0x6d53f44d273d956a, 0x16f2f070b1bd248c, 0x124666f80561ed59],
    [0x50339c327d0a6c9, 0x1591cc67bba0bd4c, 0x3e8203819f9fe8f4, 0x2720b31b0b3687a9],
    [0x2a4c79127e16e848, 0xf0e61f1afc3567ba, 0x1da97ec17bd1c5f, 0x22ea080102094dcc],
    [0x2df76ad0cd53fdd0, 0xba7660ba47f5cef9, 0x50556d1083b5108e, 0x7a0740ef451bc51],
    [0xf8191417c885b674, 0xd3c01a4176091e91, 0x8df5a9fa6a347c9e, 0xc191e9d1d2ac364],
    [0xc533e7143c53435c, 0x93c68dceeb560782, 0x5658153119ada857, 0x21a6605ece262ebf],
    [0x63b7f70507294f4c, 0x143e66f0dff55a72, 0xdd86b01acc175939, 0x7b585c00d1974da],
    [0xe3f3ba1ea9b918c5, 0x6d902a348dd400b, 0xc39cee5e1164c585, 0x30570c2f5807b56c],
    [0x460d2c19f200fb9a, 0x60fd1691cff81987, 0x9b6ab671df9d70a2, 0x2724ae7cb7eaf7d3],
    [0xbfc4d5ce1606ee80, 0x3d64b99966a71ced, 0xeab02788c44fc9da, 0x112877dce9f6f179],
    [0x1e387772a30febcd, 0xfca0047827f23843, 0xe3c42c74ec9c58c6, 0x3006485215c00900],
    [0xc87b917692a4d18, 0x6d53f44d273d956a, 0x16f2f070b1bd248c, 0x124666f80561ed59],
    [0xc7c69de3a12ae457, 0xa6ecf5fecdaddbcc, 0xc34adc75ef955e65, 0x2f2b423c67329c],
    [0x8283d4fa34a7a1d9, 0x3b5f132efc9bf99a, 0xa69762a94eee8806, 0x28020df7c36abcab],
    [0x8fce818bafbde9a6, 0x9c19a567d6e3eb2f, 0x91b7840a307819d8, 0x1c1e47e09591c1ec],
    [0xc6a8523d9574a4bd, 0x66209f18492b604, 0x378f6db619d0a094, 0x1a84ae16924b521e],
    [0x9680ef2dc49dce4a, 0x6bb37f73880a09eb, 0x8fb7d1aa4cecd184, 0xf1f1f4fe16f636b],
    [0xe3c10555ff434c0b, 0xe3d1df44ad55e08d, 0x180851c4c0b54cb8, 0x2033b19b71951e7d],
    [0x8bd71d6427957ca7, 0x8c797b5f9f1893df, 0xc528b089cf9f51b9, 0x298497dba4b52d50],
    [0x58b11b82e43ebab5, 0xa2e5cf6f6cbad875, 0x1855c2feeb4890c5, 0x7979509bc42b0bd],
    [0x8bac9ffa19a29571, 0x51ecdf3b1c2b4904, 0xd05af6953119cd14, 0xc027d8065b422a5],
    [0x5a2923adebd88e76, 0x831ee22bd873a856, 0x42b609732f23a762, 0x1cda0318f56da08e],
    [0xc87b917692a4d18, 0x6d53f44d273d956a, 0x16f2f070b1bd248c, 0x124666f80561ed59],
    [0x66db9c5b584c39d8, 0x7e7241a63ef2429, 0xc6b984902be029aa, 0x109f467daedad2bb],
    [0x8eec9975c3c1b9cb, 0x7ca84b8196432cee, 0x9c9873cb22a7633, 0xdf1e1a43181d210],
    [0xc8271e0d7e5f1315, 0x121c40ae7cf8ce57, 0xd32f13f6b4426e40, 0x20e2202c033befa6],
    [0x42c10c62a0280bfb, 0x86a2f719c6b7b7db, 0x39c8b86fd5da23bf, 0x8fbc9206e82a3f1],
    [0x5b444b8edc05b775, 0x6772b2f253c2ebba, 0x53ae3d684a1f816f, 0xafcd3b41eef2102],
    [0xa985d3a71faf5492, 0x19d3f34236df92d1, 0xb2fd84b30f890331, 0x2ad7e0ba8acf03ff],
    [0x6bff8defdaf3fa5a, 0x2de3127555334e21, 0xa7e11c12ed8805fb, 0x235b9840306c9bbd],
    [0x27dd51a5b5385f50, 0xaaaaa7f90be13986, 0xa789aca0ca17f761, 0x108abc439242ac2b],
    [0x3e914f355e0f6efb, 0x7038cfa0f29397e8, 0x8491938218fb9c28, 0x64cfee2a0513864],
    [0x7bd1d1d17601b583, 0x95dce8dbb68be373, 0x4ac7de6e164f1f8a, 0x169b49780138618a],
    [0xc87b917692a4d18, 0x6d53f44d273d956a, 0x16f2f070b1bd248c, 0x124666f80561ed59],
    [0x9ad0ca93ffe304aa, 0xb59355e854ee6ba6, 0xbaeb2407c7105539, 0x37c1010183f05d3],
    [0x92f519e35431a0db, 0xc1380a593cf4686b, 0xc4180b37779fc156, 0x7619f4a716dfa87],
    [0xc66650ed748742f6, 0x4b241e582140cd49, 0x513b39d551877b76, 0x303a616ca0c021b],
    [0xe4d8fda17bbd6e4e, 0x929571e260f7ebd7, 0xaba5936d212c510a, 0xe0a3c66b892792],
    [0x4a77aa96b0608289, 0x466341e3114f73d0, 0x6db18e9fa23e4797, 0x2db87865f56b59e],
    [0x7cf2f6654e07f9ce, 0x64029cb5ffc4a519, 0x39b33d74035959e3, 0x16b7dd14f3768398],
    [0x54f288e105bf0aa1, 0xb617ab48777a3d07, 0x5d397ca3b788ac90, 0x1282d2dc0a541820],
    [0xdf36953bc67a6cd1, 0x5b6f2ea9a5e01d31, 0x89812314c259f9d5, 0x137494fbdd4f68f0],
    [0xfa66a15fbef587a8, 0xc5d1f3588ca41b51, 0x91f1effa260b4003, 0x27939a8ae7cd5b88],
    [0x9540632856980819, 0xdbb91d53c7b12532, 0x95f7beba1d6ae606, 0x209d342ed11c9c6a],
    [0xc87b917692a4d18, 0x6d53f44d273d956a, 0x16f2f070b1bd248c, 0x124666f80561ed59],
    [0xa978d7b52eead11d, 0x396433c0e99ee618, 0x1ff872112598b048, 0x2374ed44c2bf1006],
    [0x312dc3cf902e3499, 0x26b57462d2df714d, 0xb62671b6b3738c33, 0x5037cf03e8e4060],
    [0xb2b1e397f018879e, 0x818ca90f30791fd9, 0x35d2664fc00867d0, 0x1bdc6d72769d56d4],
    [0xff34df2d870b6760, 0xa9fc9facdc3f853b, 0xebc2526fea8f28ed, 0x125626a10725e4f],
    [0xfc469005b74dde6a, 0xd0748105b6bfad3e, 0xf9eb4cff6768bc95, 0x6d4bff3f90a1436],
    [0xfe4291e7d10f8863, 0x3ba07336539872ed, 0x6af826e769285f47, 0xa7e7d0bd3eabab0],
    [0xf94b68068b8e2577, 0x947eab9ebce35b78, 0x41925eba6d02d796, 0x5b7eee126f854c9],
    [0x52ac5c8c9ea11bcb, 0x149ee8cb2b41a304, 0x7e716224abfb8238, 0xc787497b88a8df5],
    [0x6e887c29e6ab3e66, 0xbbdac4266091f6f1, 0x51122f0d73c36150, 0x12e46e1b82dc0fc4],
    [0x954f2ebdb014c9f8, 0xe8e9979bfab7cdbe, 0xa352cb09285b53d7, 0x13fd578c074db81e],
    [0xc87b917692a4d18, 0x6d53f44d273d956a, 0x16f2f070b1bd248c, 0x124666f80561ed59],
    [0x6c614e0b270f97d4, 0x33658cfac386ad36, 0x3bab1d004dddb962, 0x9d89ecd0e9e76d5],
    [0x1e3325f03b811cd1, 0x5ec2eddbeaceb5c9, 0xe95598524d0a14e9, 0x1663ce3fd8e8a219],
    [0x8edd54b5da3a81b2, 0xbd8691d8bfacc029, 0xa8385f26b7933068, 0x2d7643a55ef8f191],
    [0x1804b8556370ca28, 0xa1b76a155469ebf4, 0x4092988202bd102, 0x10ef304c05d06410],
    [0x286f8c1c5a489e10, 0xd8dea44db1f036f, 0xee8b0a8b6c3579e0, 0x2058baa454c35fe9],
    [0xe691b04cc7668744, 0x9fa40d8196e48cd5, 0xfd6836bcbc60670d, 0xfe297ae198ed7e6],
    [0x37f117f3588e6156, 0xc3bc56576398e14b, 0x48394a90cd3cb121, 0x1dc4589f1ccbbf2e],
    [0x84e08abb32b46f1, 0x2b4bf59537090877, 0xa2178446d4213afe, 0x2531aa8925a4e146],
    [0xc06b27bb8202fd79, 0xe47f24326997ee6e, 0x9fd1423ca5ba68c7, 0x2b8d6fb09de987c6],
    [0x1a05b9c310f25ac7, 0xda5b0f1c33c19c94, 0x297b5ceb2d5a59ac, 0x2cfa7103a4e60296],
    [0xc87b917692a4d18, 0x6d53f44d273d956a, 0x16f2f070b1bd248c, 0x124666f80561ed59],
    [0x7ebfa388b13e947b, 0xebb8c8e808c572c8, 0x9ef575c5214a35a3, 0x10202be4306b5ec2],
    [0x6063e8faa4b902a4, 0x520e67cb23106c45, 0x27ac1ec6f6c12602, 0x1b5aa16b76926df6],
    [0xf0a15f23c5c4df81, 0xf311a5ff94f05442, 0xc088850149772036, 0x19a92337476b5856],
    [0xc8b6c0dec68489b8, 0xb4fff681cd1ac1, 0x3a3891dd69b068a2, 0xbe8fc498e64abe9],
    [0x6303d48a9c3d5547, 0xb8d122dc03630965, 0xaf30582564186291, 0x1a0fc42aa273470c],
    [0x1002f771c77971b8, 0xc3659de012760d8a, 0xfcefa9809141bf46, 0x18db0efcc7f60ca3],
    [0xb4d22424152274e, 0x2be40e3d71df354d, 0x4b33f45ea4c9e787, 0x1237b3bd8e921894],
    [0x1a23ae3402e45d27, 0x90bac169e7bbe2da, 0xba92367a9db4753b, 0x65c096251bd3ae0],
    [0x2e84e406213c8e04, 0xed31d2b1589cb6ec, 0x222db36b1b368020, 0x1dc83ef066fb306e],
    [0xf21c6ab0776f449a, 0x2d28be32c4fbbafb, 0x5ac7e784228ac12d, 0x2c1a8e6e5fbc28d9],
    [0xc87b917692a4d18, 0x6d53f44d273d956a, 0x16f2f070b1bd248c, 0x124666f80561ed59],
    [0x5d4dfd834a92005c, 0x2ab8f3d8a7cb8a92, 0xa8853a8f49f7e9f5, 0x17ca0461bce08a8],
    [0x3cfde4945ba43b7f, 0x1a17fec6d1440fcb, 0xc1d7e6d3ed14c7d4, 0x1c90c977e1daec74],
    [0x7da08cf0a3892a09, 0xf273784349ee907a, 0x682544dcaf6efe50, 0x9f6aee2e43570fe],
    [0x8ddeff415e873d34, 0x3cb1e231fe0aad22, 0xa50a4a3ae97e16ef, 0x1a9e810a073d7982],
    [0x76a21f60c54aacf0, 0xff387847e625a4f3, 0xc135457abd253469, 0x25fadb922987714a],
    [0xe2dcca2a6322e980, 0x9df6667e9b87075d, 0x3848b5a18f5ba22c, 0x11b65d5a4e039373],
    [0x64005803881d3556, 0xadc135535702c34b, 0xdc080e94407b9c18, 0x22e9e700cc820ac9],
    [0x62b06679a4cf03f3, 0x99c951ae17b067ed, 0x5a5b926dc177fa97, 0x160c88605fad7ad6],
    [0xb6d3b25702bd7510, 0x8346d45806328142, 0x5b3c9385544d3127, 0x1dc2851df6d0947e],
    [0x21505589f39b4d00, 0x41ecbba391cba04f, 0xdac4cd3334d8ff85, 0x8a42ac9c651c761],
    [0xc87b917692a4d18, 0x6d53f44d273d956a, 0x16f2f070b1bd248c, 0x124666f80561ed59],
    [0x87456c88982edc70, 0x88a6a59adc39dd4d, 0xbe933c0ab3902f9, 0x289fa0e8ce8df0c6],
    [0xe08273c02eb63201, 0x789aa7af7d0ed1b3, 0x7fde9b8672508185, 0x1e70c2b91d3d4477],
    [0xac0e732406f85362, 0x2076ff49c1bd9aa0, 0x22b59bb52b001dea, 0x26202efdbdd93fbc],
    [0xd1cb845209425be3, 0x3156fa42285bf0b9, 0x88515f8e16903ba, 0x665130b10a00cc5],
    [0x5fd6b6eb666fde2a, 0x4148b3755b1fac70, 0x1ad5d75149251668, 0x20a044a5e1a405e],
    [0x7bf3a96ccd0ebefe, 0x55779eb05ffbe625, 0x42e534158b3737b3, 0x2640e021b9313db7],
    [0xa176054e332ff51, 0xd991f2b872def0f1, 0xda7773129f32911, 0x1937f02a9ea7e170],
    [0xce24c6ede206873, 0xc6055a8ea3f4f93b, 0xb3d6e79f1e1a0304, 0xb198e0da024b3da],
    [0xc151ccd8be4f0870, 0x7a91ee88e297208d, 0x5f3dfd12c4dae785, 0x2c0a30d51449d8db],
    [0x326702020a21d33e, 0xc7dc0461d40fcc17, 0x250007730a57ba31, 0x187c5f8a529149c6],
    [0xc87b917692a4d18, 0x6d53f44d273d956a, 0x16f2f070b1bd248c, 0x124666f80561ed59],
    [0x558c3d60ffb0565b, 0xfa31aedd384d465f, 0x8fa27cfc4c08e07e, 0x2085c1bdf91d64b8],
    [0xad0cebd1a77a91c6, 0x4532319473caa7cb, 0x7e5f3320cb78b1ad, 0x25af25414fef41bc],
    [0x117f20ff97f132cc, 0x5ff153beed81b1db, 0x8f97f314456566c0, 0x1a1b25a6cafd3bd2],
    [0xe8029efb2ea63f1f, 0x778dfdb36b3f49fa, 0xcc0850b027cbf4d, 0x2d9ab0595a2025fc],
    [0xbad8d5cfdae1d39, 0x431a50a6fedc2825, 0x4d9c921c26195c7, 0x2f30cc9b0e5b85bf],
    [0xec4676cb04f244ac, 0x1ae78fd90dc17e6f, 0xefd62cb285eff290, 0xa37b2a74bd14072],
    [0xbad72b595016b1a6, 0x72d4d68e315879b3, 0xac66c90118b11c82, 0x1c424788fca025df],
    [0xc7fbb77adaba5be2, 0xd816dcc1fb4cce2a, 0x40167ee37438a75b, 0x20f5240469332dac],
    [0x22196654430b5221, 0x25456b08a94f8c07, 0xa8232eca553b2882, 0x38722e06b9b7d6b],
    [0x10f15bca953cb8c4, 0x65ea9bf915399d71, 0xd7f1ec8e5147ca27, 0x56eec5b756d6945],
    [0xc87b917692a4d18, 0x6d53f44d273d956a, 0x16f2f070b1bd248c, 0x124666f80561ed59],
    [0x520e88b510a1ccb4, 0x7d4ca5b1590f2610, 0xf1cfab29f40c24fc, 0x27f0800ddcac9fa1],
    [0x407652a392e70382, 0xead9dff6643c35d5, 0x7ab123355dda1d4b, 0x1a6a8f6f7e612f63],
    [0x486fe4ac707a413e, 0xf3212136d607d074, 0x885b084f907e7756, 0x1b2a744cbf0e7326],
    [0xef0927677ffead3a, 0x8962814c3821b12f, 0x1696a88a898880c5, 0x4abaf721c7350f],
    [0x37f90d5619bb1f96, 0x5deb6b4f69955d8e, 0x3ec81abfd10bc33c, 0x2f194b7fb646175f],
    [0x66961486f9c9441f, 0x1fa349c99ec5d408, 0xf98a0ab82c379d9e, 0x1457d0d9729fd924],
    [0x7c33bcf18abf7d78, 0x216aef7a53efcd35, 0xc444755063ded047, 0x24022debb2e2b1eb],
    [0xdd69b8ffaa16d9f9, 0x1f08d5b64a4a4102, 0xafdfb03865806fac, 0x2f1a9fa9fa2d06c6],
    [0xa91a8e6da20f018d, 0x27e8d09b3c4682d9, 0x1f2d65ce28583cdd, 0x2a39c8affd2c3695],
    [0x7f8240da9d0fb308, 0xa93501cd27df389a, 0x90a632bcc6e13d25, 0x6cd4a8162b4407a],
    [0xc87b917692a4d18, 0x6d53f44d273d956a, 0x16f2f070b1bd248c, 0x124666f80561ed59],
    [0xc3be9c5b9fc922f8, 0x2d1e56b0c8dca668, 0xf78702f2fddf1047, 0x240bdd87896f169],
    [0xe09a8aaac59d9170, 0x8922c19e6a8026de, 0x8a2c2a2bc572e3f5, 0x3cebc8d717886a5],
    [0x359575e5402982dd, 0xc5e81b7c766c12db, 0x231a623034707fab, 0xf2ac5c2f8ac681e],
    [0x50b5ea096d8cc1f3, 0xc03009cc8e8f8abc, 0x584f0db1885d6c1f, 0x2dc50cb75530f53c],
    [0x1b87d7739efde02d, 0x1fdd80129f8fa8ff, 0x26f4df8518ec3f83, 0x94c8952fde36c41],
    [0xad0622557d942c0e, 0x5b7569bd759c2173, 0xc26a9b063087678e, 0x180e29433d8dc3cb],
    [0x5d016788021bd0e6, 0xf10828587cea9b2a, 0xcc08ec51aa5efd1, 0x137513995f9a52a6],
    [0x159e72b02ae2cf2f, 0x6efa7dc421443ff4, 0x16952ad18bc65d9d, 0x102c8b90ff6c327d],
    [0xf191ca9a382e83e3, 0xc6c5ee310d8b83f0, 0x3e6584dbc4a4c090, 0x29f1e94ed28f7202],
    [0x30548ff0eca63191, 0x1ee9adaee58686e6, 0xddc954d33494f423, 0x1c5292bf3034389a],
    [0xc87b917692a4d18, 0x6d53f44d273d956a, 0x16f2f070b1bd248c, 0x124666f80561ed59],
    [0xfd2093d691a164ea, 0xe9d6b5cd11c106e1, 0x945b2851241e066e, 0x1430d7953574889],
    [0x4dab6286f4a23edb, 0x7501f3ca292b5f48, 0x5a691e2df172b46c, 0x1b3448e3a38b05b8],
    [0x26ed570fe019f001, 0x3706633accf65295, 0x39d6b3ba31694b60, 0xdb96c5859d2163a],
    [0xed39f7fca3280fd0, 0x107d314c05534cc1, 0x81af12292ae6d85, 0x21b598a7b1f1990],
    [0xdd6781e6e773790e, 0xa5059bd20650a990, 0x17dbb93117661040, 0x2110995ecd4f7cae],
    [0x765f7f8fe572b0c4, 0xee17c8bff8632ee3, 0x6b37eb749dff8ca4, 0x21893b6a2b4a6631],
    [0xa6c1c1bb840f3683, 0x80b6f3ca217587a4, 0x4b46f30d8f8e2d46, 0x2ccaf308f912ffd1],
    [0xe4ec0ff2ec75b2d0, 0x149dd78dbafc39b3, 0xcda9f67606978013, 0x10be28be53fa8a09],
    [0x2163270a1422931a, 0xcd4a79c0b0da8134, 0xfcba809278bede0, 0x17e826d4b7b4a204],
    [0x3e69f9f9e09940ef, 0x9c011daf9ef78997, 0x7f18b7bd20432420, 0x9ece717307f52d1],
    [0xc87b917692a4d18, 0x6d53f44d273d956a, 0x16f2f070b1bd248c, 0x124666f80561ed59],
    [0x3a5c9fc79c4ee590, 0xa921a264c67f872, 0x58cc3dc195f284a9, 0x21c512b8be5a975e],
    [0xeb11b24ba30ab1f6, 0xa7aa0d44b11f59b4, 0xf686eec8b268877b, 0x1a9c325e96a34745],
    [0x2fb0e27a37aeed5c, 0x27e576985c8c26c4, 0x328079945658a219, 0x256c5ed746133373],
    [0xf580477251073fa7, 0xf313735cd9ffbd97, 0x268d535f5ea13cb1, 0x96dd009241c6a5a],
    [0x461154da63b72346, 0x6cae7bc246e9050e, 0x3e3b41b5f690f4ed, 0x1b5697a349234675],
    [0x40d1bc35d1890834, 0x4bf952487d7db868, 0x86ecd6d2bba2ccba, 0x212e6acfb3050682],
    [0x20a7fc3f7e6a4917, 0xb75a89c8190ea577, 0x19dc54c6a31fac77, 0x188957819ec0569d],
    [0x7ef1f717d805ed6e, 0x29442d95c263ab07, 0x401370424d8ec7b7, 0x551b30aa085a016],
    [0x2732527f1a57fcd1, 0x142da732f2dae340, 0x602c5e0c148a2d8b, 0x22883b03ba4694c2],
    [0x21612c4b017e8e25, 0xc9c3af86cd2347d8, 0x5ccb0f23464de37c, 0x53a4c4b2055a58c],
    [0xc87b917692a4d18, 0x6d53f44d273d956a, 0x16f2f070b1bd248c, 0x124666f80561ed59],
    [0x3008e29d3ca8b507, 0x45eed10de2fbafe6, 0x7dfc16fdef26d9f8, 0x12ccea9183993e5d],
    [0xf5ffd45c6ca1679b, 0xfc811a96519d717a, 0xe0cb41392d98cf0b, 0x582c12381fe92c],
    [0xdb40375fa6ec11bb, 0xd620ee5041d2dca5, 0x240f9d9f4c5198bd, 0x47527fea0d1a194],
    [0x41df4aefced4b086, 0xad81f2d6391934de, 0xdc0fa4188e3069b7, 0x9803bd526d49e31],
    [0x670b271010c2c177, 0xaedc63bca12b0107, 0xa5e7c1a7bc7ad2f2, 0x21d3b002266d0893],
    [0x152bf75c82ab4cd2, 0x8016ef23bb71ac95, 0x80428a2d2baa5129, 0x18f7b09e05bf3b6],
    [0xcb0714c2ee80139a, 0x2027c226b930eab9, 0x5e4bc3bd34b039be, 0x18bea4252cbd781],
    [0xb10edcd1d48665b7, 0x6d21c66b6a4bf8c8, 0x25b22130838ccde6, 0x100f77a4054eb6],
    [0x3a9e388e740233f6, 0x12086366ef33d57e, 0x84653b0d464445b0, 0x9c8b96501ea7652],
    [0x9942c1962ea2f9da, 0x8a30029752acbf4, 0x979230b1b6f6704a, 0x6c9ac27ccf47da2],
    [0xc87b917692a4d18, 0x6d53f44d273d956a, 0x16f2f070b1bd248c, 0x124666f80561ed59],
    [0x60a8433cb3bbc7e7, 0xce5c9327ab88894f, 0x7f04ca4d04df9a59, 0x68dfe569c59fe11],
    [0x85bcf1ad2a446319, 0x41347183faa487a0, 0x4d0f89e3bec6e66c, 0x29e21c7d1b3fdd0],
    [0x398b8f12c4fd54f9, 0x7c548d342bc27e5f, 0x7219f7663fd68c93, 0x61ac0b5b33b8d66],
    [0x5ced504a164bfbc4, 0x6f0298fd91f0ee14, 0x2b730fa76697dcab, 0x2e8eaea01526ea36],
    [0x7d407f3a287b2902, 0x2e6ed5374993f551, 0xde2706ca4264f5b4, 0x1bba6639ec598530],
];

/// Part 2 of the sparse partial-round rows for width 6, as little-endian limbs.
pub const S_DATA_2: [[u64; 4]; 148] = [
    [0xb0bddd2087ed100c, 0x379bc74a3d1e51d5, 0x1b30cd5942ac540c, 0x1da74a23eb1fd7db],
    [0x64d7b97f6aabe593, 0x224d203c8d9ef480, 0x17bcadcdd0b7d120, 0x2a0e3100447c8187],
    [0xf90d6561c4373330, 0xa976e1836858e054, 0xa301c8531ba88815, 0x27753925a34a26b8],
    [0xf361d667c59417e9, 0xa2e785c8798bc444, 0x1b2b6a93c33ad409, 0x2370d8627c27ecd3],
    [0xf457701e00d51e6b, 0x557b39ddf2aec74e, 0x1b8c1668e8a11d94, 0x24447e984cae8190],
    [0xc87b917692a4d18, 0x6d53f44d273d956a, 0x16f2f070b1bd248c, 0x124666f80561ed59],
    [0xb4be5e541f482f33, 0x5e4079bdaf0b0e34, 0x7ad7427f255551, 0xac0847e3de8e5f],
    [0x2285e2c16bf3316e, 0x9bdaba806b32f51c, 0x2d1ba4359fa02c39, 0xb2c4754b0192527],
    [0x3d86f29ef3948fd7, 0x747083ddbaf4e009, 0x65ff09dc85098969, 0xd33fb4ca1a013eb],
    [0xd90b8ab96be7304, 0x2a77abec6bbbe852, 0x6378c356edd414c0, 0xf06aa40d012cd27],
    [0x8ac8f487cd408d26, 0x1a26d896908931f8, 0x401b1023d0e3675c, 0x11620ba3b59e9e02],
    [0xc8c6cee8b71e9bba, 0xa6b826651ae10aa2, 0x76318403db851fb1, 0x2d1783e31f3c2424],
    [0xd75c3de45443c7df, 0x8a813b11500d7a5, 0xe388cbb736f1dfc0, 0x2c989d933295a819],
    [0xfb143d4b36428a6a, 0xea7add22139c06f0, 0xd6b20d2efeb6ae61, 0x185d645f3186249a],
    [0x6eea8402d2c3be2, 0xcf785fe42fb3fc76, 0xb4cc265685900719, 0x295390e4301ff52c],
    [0x189845a3f0fb623f, 0xcb1be5c235f59ac0, 0x3dd1004a216c9545, 0x2cff591766f8ed03],
    [0xc87b917692a4d18, 0x6d53f44d273d956a, 0x16f2f070b1bd248c, 0x124666f80561ed59],
    [0x2a7dd2d32491d880, 0xc82f15053b53c295, 0xd9f7f6583fb8a342, 0x1d2f561702487b43],
    [0xcd6fce7d6f14d7e8, 0x700ce7f638553e84, 0xc30ee7476301e832, 0x1431b6537ec76dc2],
    [0x157f83d79b409a00, 0x818655c50e8a87dc, 0xa0b526aae1af2bfb, 0x9f68e9512cf4368],
    [0x35a24d099249b17d, 0x7c1b6c30f0b3bb3c, 0xf17cd2d0d04a7691, 0x2e07015e39f5f8a],
    [0xd8d0ab07d651c28e, 0x7c7c746fbdc4f9f3, 0x3c68258f36a15747, 0x22d3936579de1b15],
    [0x559875d627caee62, 0xf9f5f551b8f5008a, 0xb876fdf17a984c28, 0x1c1511375128ea34],
    [0x70a79abc3105fea, 0xeceb585c4cc091e5, 0x8d3e30ac62d3325c, 0x142882177b08db52],
    [0x62be03e3ab636179, 0x7bb7672c91bcd6c5, 0x86879a2642bffaba, 0x1a168d198284cb13],
    [0x8932b53e0c199401, 0xce62dece8b1359c3, 0x1d1d66e63757c063, 0x17221d50c79b0681],
    [0x1c99fe987492809a, 0x172a8e3b638bafba, 0x4931701cd9ac240a, 0xd1d4e722fc75c3f],
    [0xc87b917692a4d18, 0x6d53f44d273d956a, 0x16f2f070b1bd248c, 0x124666f80561ed59],
    [0xaf50ac486b6caa7d, 0x2f07ee32aa952f69, 0x2eef709dcfbb41a6, 0x27db073487a124e],
    [0x8026485c7aa9a0b2, 0x1758788bd916fa54, 0xdf617507518283e, 0x268c8bbdaaee1372],
    [0xe985f4dd029b9e95, 0x7c0ea3164cedac4e, 0x5095c73dce75c99e, 0x1fde18979072c022],
    [0x997855777baa84f1, 0x1489e06180688904, 0xe0ca7024c5b150a4, 0x2531f077c0a77c6c],
    [0x81eb09286583fcb6, 0x90acddfa5ca2c7df, 0x7c0568c4e29e516d, 0x294a5bd8cf93bc68],
    [0x12e867f5e913559c, 0xa0e9f31683641a30, 0x69704807e64caed0, 0x294e322170c9ff20],
    [0xb2715d785d5b4b4, 0x2da36e648e3bf0ee, 0xd6cd79dc885699, 0x2b3addd6cb0f23db],
    [0xad2396c270eb6003, 0xa6a5d2441ec32edb, 0x3df9cbfa22a7eeaa, 0x3135e79314a76a1],
    [0xc851055a2c48a2bc, 0x9da36db4a8557a6d, 0xffa687c362e2bdc3, 0x173a562d9eddfaf8],
    [0x5bd9aa472e7829bc, 0x9426a6e1aa593687, 0xb2d780725cffad52, 0x612d864c1ff73f7],
    [0xc87b917692a4d18, 0x6d53f44d273d956a, 0x16f2f070b1bd248c, 0x124666f80561ed59],
    [0xf630bebbd41bf6d9, 0xb752c72f7487bc8e, 0x4220c6c74488005c, 0x2ba89301ebfc123b],
    [0x7842b3cb2f10e622, 0xc92bab7f27f959a5, 0x4720ce193a4c009b, 0x10fd2909f9f7f277],
    [0xdbf1271d59bc00eb, 0xb98bb9304efacf2a, 0xb9b9bdf30e45544c, 0x249c1b33cde3144f],
    [0x51dd7929dcbe3621, 0xc286e83bd66e1d69, 0x7bb742cea7e88009, 0x75727d6b84d8e42],
    [0xeeb451a034acc670, 0x6132dec4ded9cbf, 0xf10091b25a5225fb, 0x1bddd7e537992438],
    [0xa583e7ca6ebba680, 0x834b5e1a38ed28ae, 0x129f012479e12e08, 0x7ef5e8e55faf5d9],
    [0x7dce1ce8b8ce4e5f, 0x4711145567459834, 0x847db2e05553dded, 0x14b714178fc8031d],
    [0x19aaa93f30c38f0c, 0x29be2265a58ed6e6, 0x8569e9b87952d4b2, 0x119e1cb2a7e4cc68],
    [0xbddd6c4dae189c0b, 0xaec620f733d6ce71, 0xc75ce88a04201c36, 0x21575c98afb0fd8d],
    [0xf4e7ed8370c24fc4, 0xc728d191a931d7a5, 0xa88e257c19b0aabf, 0x2e69188594acabde],
    [0xc87b917692a4d18, 0x6d53f44d273d956a, 0x16f2f070b1bd248c, 0x124666f80561ed59],
    [0x4964b850c3fa9f52, 0x35b4eee1b0dcaaf8, 0x1b93ef9a20562faf, 0xd30b0f7b46349],
    [0xe721847209e2025, 0xfdc63c39d1b90c3f, 0x1576a7ec410980b2, 0x104f6ec28eac4f77],
    [0x2519a89811dcf077, 0xcd1f57c164b75da2, 0x66ec516584f333b4, 0x201753ba0a0a888b],
    [0x4cf5dd21f59ebff2, 0xd1da3d0631ef4271, 0xe6bc79cc484e010d, 0x16fc76f1f5f7644d],
    [0x76706cfb083b49f7, 0x870685367f211ca5, 0xfc6d5d0975221d3d, 0x10892fc5eec5ed00],
    [0xf548373a84307ad8, 0x1b196e0041e3fa32, 0x84ac93a73022b676, 0x1c59c9b6844de295],
    [0xc95d286df429fb64, 0x1a154bdb59e57fdb, 0xb555ce35313f73c9, 0x188a3064c72ee6e3],
    [0xd83d6e48c945e249, 0x3e55c845dc8af25a, 0xb090741ac55c98ba, 0x25a747a9139698f6],
    [0x25f79ed84f5ccc09, 0xdd326a646a5789cd, 0xa9f4849ccfcc2c52, 0x19cf0ef78c77006f],
    [0x8f07e6035f65397b, 0x886f5103ae46615a, 0x3deb1d625a4e5fe3, 0x1145187227de632d],
    [0xc87b917692a4d18, 0x6d53f44d273d956a, 0x16f2f070b1bd248c, 0x124666f80561ed59],
    [0xdb0ebc8a6dd2d0a7, 0x17ff69f2f9027bac, 0xa349a9121e54295d, 0x12606f5141cbc1b9],
    [0x6cb7a6155d44cfe0, 0x94487ae04cb9f5fa, 0x3ca6b3aa8f4c51ae, 0x2d1ec807263d7837],
    [0xcc287d9dcd97283, 0xe308fd475bf706f0, 0xc18dd16bd1d406ae, 0x2b83ffd72f83ccd4],
    [0xba6036abb9d84c46, 0x3b724a4d281a0b56, 0x3afafa0b78231246, 0x2378c35a0428264b],
    [0xad59b8c011fc058a, 0x8ab5d93bc835c9a0, 0x9ecfe13432b42085, 0xddba7feea285567],
    [0xc143ad6321304673, 0x2a23e57efdb4c571, 0x6e31bb6ae3023d90, 0x60a0091b5a50a51],
    [0xf19dd2b4a62211d0, 0x243ab5cd76e38d9d, 0x94977237c6aa7e6, 0xd08421d815f9281],
    [0x1b7dcd2e7f99822f, 0x733767364429a0a, 0xb4be28850c24586c, 0x165a3eeb547af156],
    [0x17c381dbef5d40e2, 0x35469a362e8f6f87, 0x5744893452946041, 0x2367643242f32a40],
    [0x57b47b4680a21af4, 0xd92f51f6fbdaa075, 0x6611976111e43a94, 0x303a0941f18aa316],
    [0xc87b917692a4d18, 0x6d53f44d273d956a, 0x16f2f070b1bd248c, 0x124666f80561ed59],
    [0x78db8089fdb31cdd, 0x45f38f60aab41919, 0x2ccd968996c55641, 0x1aecf5def09ba5be],
    [0x5227103259913243, 0x6961ac84708f8b46, 0xb42ca58356799e8c, 0x304ebc6fb5252ad8],
    [0xb833a398855eaa29, 0xdd7dbbab09aed508, 0x5d12869a85697da4, 0x26ab128903aa48b6],
    [0x66ede29e27823942, 0x96ac2514a1d7380d, 0xbb36dd3803f70085, 0x245567a4087a5582],
    [0x13646b44a69cadaa, 0x499808442cde328d, 0xf0ff92b5e3394bc0, 0x46585da7e8d6c6c],
    [0x85e1eb2a45a4b3ee, 0xe96e159a86d7d1c6, 0x254570afde08db45, 0x12be98bc0a25716e],
    [0x619472145e3ca760, 0xdb0e8a2b97637204, 0xd773c80841b8b6e7, 0x1853379c16580675],
    [0x7b6f80814fe8cc0b, 0xde653f1d905fd2de, 0x83a34eb109c53295, 0x138cc77819364fd9],
    [0x91bceeabc1e3fd43, 0x819f62b8725482c5, 0x32218a6eb709848a, 0x2db2fee2d4968913],
    [0xfe850ed25958057d, 0xd9c34211c65111b8, 0x5e4cfb697815697c, 0x22e95c3ae4db1cfe],
    [0xc87b917692a4d18, 0x6d53f44d273d956a, 0x16f2f070b1bd248c, 0x124666f80561ed59],
    [0x883e517164bd5994, 0x3a7caeab685d9ce7, 0x26bbec5ddd0bccbe, 0x14f0f0699aa9bd83],
    [0xc2cebc09aef0c203, 0xb713472d72f4bc24, 0x17db84840bb9fa16, 0x1815774675d5768],
    [0xa4194b9a19824238, 0xc9ab04396eb53a3e, 0xe52b708eb696ab01, 0x2a82117a43030418],
    [0x34ad0af83a637097, 0x4cc8553a77908d5, 0x3c2086b2d7c6b190, 0x1f02d515206f3d9a],
    [0x263a2b8a2f7bc9db, 0x7bee4c7994c1f65f, 0xfda4993dae13bc0, 0x3dd5240ce1c553],
    [0x5ec99cc13c534117, 0xb76f6fa224faf277, 0x60876a21de201d87, 0xc414ca1ed2f7180],
    [0xc5da462aaa24f7cd, 0xfe0b283b44404e20, 0x8845ac07a6b9727c, 0xab48043b18014d7],
    [0xcb27ede7928667cf, 0x445cb4f6f3a4a929, 0xe7cf966aa1f6bf15, 0x3fac53034fc748c],
    [0xb7a6b4ac75f70482, 0x486680cf677b132a, 0x3fc63e5b0e1ca82b, 0x1f91737266e97b63],
    [0x1281f5d6ab0b13f8, 0x361e16999f2f628e, 0x980464376850938b, 0x2556e1170d24d8da],
    [0xc87b917692a4d18, 0x6d53f44d273d956a, 0x16f2f070b1bd248c, 0x124666f80561ed59],
    [0x24bfb72b50ee94e8, 0xd7c65f1253ae2503, 0xf6da3a9e068f6830, 0xd258cad10974250],
    [0xebe5b4bf0841fc90, 0x7fd640972712b644, 0xbb22dde530a8e611, 0x15e2bde6eee969fb],
    [0x2fb85a207b6e849a, 0x8b7a94a413796185, 0x243b93b6ed5cf8b8, 0x231dd2a58fc24a20],
    [0x7d416d1cfd220258, 0x1b715a0cab2e1cb2, 0xed7afdbbd1b74fa9, 0x4fcf48ba86493a6],
    [0xcd22334e7eed12f4, 0xd50083e4e404b9c1, 0x6764d672e1a6f951, 0x27313c2f8d4e5dd],
    [0x3528b16d4f0c1a22, 0xe58717e36f971087, 0x319d34db2305478c, 0x1e8cc36fca79a1a3],
    [0x4d1a333b0bfff52, 0x42df41311f650e07, 0x1e2931ff3be33ed1, 0x266e3f3550eeee1d],
    [0x2f6550f41c67ae65, 0x2b48a529e130fb6f, 0xb8e1783f7a48b7, 0x88acc576b7bb1fd],
    [0xd839c3c10073b1f1, 0xaf8134b982f00dca, 0x20f911d46eeec82, 0x145537172cb306df],
    [0x85e22cc675fae8d5, 0xd1378aaa4a65bd9, 0x2e55be2bab91c68a, 0x897eada2a51e4cc],
    [0xc87b917692a4d18, 0x6d53f44d273d956a, 0x16f2f070b1bd248c, 0x124666f80561ed59],
    [0x77d17ff531a0e873, 0xe572a53ecfebc28c, 0x5d02035683cf29b, 0x1fede8462b07d0a3],
    [0xa99d4d05fdd904bc, 0x13ffb575b21526a2, 0x75302ceef1623918, 0x64cddb26305c79f],
    [0xc81da4168f465efb, 0x41659d9213f25808, 0x27d365fc18d74efe, 0x41688ddfe25e6f6],
    [0xb3e8e7115ec56b82, 0xad2f6d17bb6de59, 0xef40943af93df537, 0x263065cabd50395],
    [0x83a7dc251164a730, 0xf22632c199c1737f, 0x1a66c0758322e4c3, 0x1becfb943b898599],
    [0xf9ff9911b653e737, 0x5bc9a345dcd66955, 0x7edac826766a6152, 0xe01451b1ef92c99],
    [0x8f6b0608ad2f2278, 0x6f6660111475f997, 0x168cf7092d57e2c8, 0xb9f01062d426904],
    [0x7004c3122256efda, 0x8c3ea8f9015ae134, 0xd3eea5e1b8de7f08, 0x2f9dc8eb38534652],
    [0xbe492e1b1fa1557c, 0xba7fe6cff7fbddce, 0xf227bf0769729d3d, 0x2d97e9440f1fca57],
    [0x7ece42ba0fe0cb2e, 0x478682a7363ddd4e, 0x3730d686ff1a53a0, 0x1b0553d2ee91c3a6],
    [0xc87b917692a4d18, 0x6d53f44d273d956a, 0x16f2f070b1bd248c, 0x124666f80561ed59],
    [0x61670720703577a7, 0xa365358123861b40, 0xfabb4d62c346c957, 0xe83184ff6e43582],
    [0xfbd1ddb2d85b2ddc, 0x581299a6f165882, 0x6c28d4578a4a8e3b, 0xce4cb25f594fd99],
    [0xe1bfa20c93226056, 0x3358212340599c51, 0x91078d8ab635cf13, 0x585f5827997ef86],
    [0xf2136a02fb0e75f8, 0xd5451a127ed75d9e, 0xbafc5d05ba5a97b, 0x29bba7e4c28316d7],
    [0xf7b3f661658d4d08, 0x75a211e771db239d, 0x7027dc4ad12c3a5e, 0x5e8ce714d85ecab],
    [0x79a5ced87dcf0f64, 0xc533ba6d7e1fe987, 0xd12fcc7e4239b39b, 0x1d243f2bab7712f5],
    [0xfe6e61db2a83f1ed, 0xefbadf057865e27e, 0xcc7d1f5afc770d74, 0x19207f2711d65bd5],
    [0xfa8a273141d6f6ed, 0xd796106da1a5e4ab, 0x707e000ec579bfb8, 0x54538bfb0b84e],
    [0x653af8ce11fb42d0, 0xaf5ae2dc55a4f332, 0xdf0d9f2545d61416, 0xcbab8595eee6b93],
    [0x926a63ce19f78945, 0x2c4200688e661613, 0xc1f401b871501e02, 0x1dc6ca4abd54f254],
    [0xc87b917692a4d18, 0x6d53f44d273d956a, 0x16f2f070b1bd248c, 0x124666f80561ed59],
    [0xb0ddac111be2c24b, 0xe4a7f8b860850fc3, 0x3a08c44ff9bdfde, 0x164b183c9251e3f1],
    [0x84fc4998816a9fd3, 0xa7a4b90aa4c34e19, 0x466eb276b7cfa5f9, 0x80435e71f368774],
    [0x677e1014ceb98c83, 0x1c7906ebc78d24a4, 0x17319ef392e49cbd, 0x24a82532902cf989],
    [0xb66229b3fb62fce7, 0x52776dc8dfa0c2f8, 0xe846054c4c6dc758, 0x9f961322ffb0b5c],
    [0x57e8c1f6fc1f5527, 0x8a8875aa5369806e, 0x9a48902f2107976e, 0xb9af076f893d93],
    [0x91f035e971232cd9, 0xb8a69799a826ab5e, 0xdfd00e6cfe939d, 0x6c40239edae3e76],
    [0x5adcfbdf5acaab2, 0x9bf1458933626326, 0xf2baf10f661d4f71, 0x24701c675052c925],
    [0x247d0efce56c3c29, 0xcb3a25d287aeb67b, 0xb8e415c01e1cfc25, 0x11000d892cb37fbe],
    [0x7653997b0e391086, 0xa9e5b64182e1cbb6, 0x21050345effd1, 0x2caaccd757a31463],
    [0xf33f84aafe908bfe, 0x65395036badcc79e, 0x2b1cdca5ce171ada, 0x10d9b51b3a086b41],
    [0xc87b917692a4d18, 0x6d53f44d273d956a, 0x16f2f070b1bd248c, 0x124666f80561ed59],
    [0xa1663358a41d3dde, 0xdddc5e9f5f08291c, 0xbf1b92249600016f, 0x147c39dddaed8630],
    [0x84cb586880517fc1, 0x86598121d96d85f, 0x935d340fb1535be9, 0x2d25d39661406faf],
    [0xfe9fef5a2261c263, 0xa6510773a5aedf52, 0xf27ecdc2e30158b4, 0x1a2643c9cc6f7e74],
    [0x52fd3d5b5682c83a, 0xc802a2e02080d6d3, 0x9a4d54c50188de26, 0x2d5d7010ca67e74c],
    [0x16f14340a635bc10, 0x8d050b84c2809ae8, 0x5129293303181846, 0x3060121bf7682a4f],
    [0x11f3780d5015540a, 0x34895aa46bb27c09, 0x95dfa029e8dd124c, 0xa514a5c227f4cec],
    [0xc63cd65ccce4fe0a, 0x1a6e60fdd5b5c23, 0xa46eb0f882cb6928, 0x278bb49a7b4e44ae],
    [0x253d026a2419f6a2, 0xbdadcec5ca34901d, 0x7a203feefb0b958b, 0xc399e9f67aa4070],
    [0xd9e01ca1523e4432, 0x31ea35ec0a77c1fb, 0x6f825d2362933eaa, 0x1d6b3d5f6ea369c2],
    [0xa69306ec981a688d, 0x83ab304aa52598b1, 0xdd0abd0b0cbb95c8, 0x24be510095436206],
];

/// The values of the sparse partial-round rows for width 6.
#[verifier::opaque]
pub open spec fn s_vals() -> Seq<nat> {
    limb_vals(S_DATA_0@) + limb_vals(S_DATA_1@) + limb_vals(S_DATA_2@)
}

/// The sparse partial-round rows for width 6.
pub(crate) fn s_table() -> (v: Vec<Uint256>)
    ensures
        v@.len() == 660,
        vals(v@) == s_vals(),
{
    let mut v = from_limbs(&S_DATA_0);
    let mut part1 = from_limbs(&S_DATA_1);
    let ghost pre1 = v@;
    let ghost add1 = part1@;
    v.append(&mut part1);
    proof {
        lemma_vals_concat(pre1, add1);
    }
    let mut part2 = from_limbs(&S_DATA_2);
    let ghost pre2 = v@;
    let ghost add2 = part2@;
    v.append(&mut part2);
    proof {
        lemma_vals_concat(pre2, add2);
    }
    proof {
        reveal(s_vals);
        assert(vals(v@) == s_vals());
    }
    v
}

/// Part 0 of the dense MDS matrix for width 6, as little-endian limbs.
pub const M_DATA_0: [[u64; 4]; 36] = [
    [0xc87b917692a4d18, 0x6d53f44d273d956a, 0x16f2f070b1bd248c, 0x124666f80561ed59],
    [0x9491011db0bd0b02, 0xe3d7bfeef4742160, 0x55aaa1cf46ea0518, 0x11924f02fd19b092],
    [0xce446601ed9df845, 0xf9b717369498d3ff, 0x94ff505456c2201e, 0x247fa7f022304a19],
    [0x986be3dcdf051c3f, 0x7bc94eb76c02d79d, 0x22f77ff810f54e27, 0x3fd7b19ef2c861f],
    [0x8b67c8563c0c2a06, 0x5a81eeeea69352a6, 0x9a677443ecffbd55, 0x18bd41239c3e7157],
    [0x78cd75da8b4ebdc, 0x5730ca7f40493277, 0x35bf0a257635196e, 0x2d78c3a5d28de9ff],
    [0x11f3780d5015540a, 0x34895aa46bb27c09, 0x95dfa029e8dd124c, 0xa514a5c227f4cec],
    [0x775723d2cb1da06d, 0x9589eac5be80915, 0x7b85a652eefdf2ee, 0x192e16d17d956b25],
    [0x8917e5605ca3ac10, 0xb1aa9db0c0926bdc, 0x35c7058e7772b533, 0x298ce0c1e3113bb9],
    [0x8b17fe4be05b7fc8, 0x8ebd612239ac9d69, 0x71e41bc71727f015, 0x94cb4e83621afd2],
    [0x173bd5cf7d328791, 0x33918cb8841d5a28, 0xd649af5fd142e76b, 0x3d880395be93c27],
    [0x1b42cbccffceca81, 0xd7e2b3037e38fef6, 0xe443bbaf91680db7, 0x28eeae6b5866ad68],
    [0xc63cd65ccce4fe0a, 0x1a6e60fdd5b5c23, 0xa46eb0f882cb6928, 0x278bb49a7b4e44ae],
    [0x109035a1d9b674d7, 0x145345887e8bdcff, 0x6af8db648d6fdea, 0x63edec1bed831f5],
    [0xbe8c940e068c475f, 0xb3232500e855192c, 0xa42061fb53657f99, 0x1baef1cb5509b526],
    [0xb67ee59c0df2e5d4, 0x68b165eaea3daf4e, 0x2164e9858d7fa8e3, 0x1324564ac7bdf9e2],
    [0x10a55240562ddc13, 0x64a4a8004ceeda2, 0x8ca4ea4dfc2c8376, 0x5761b8c6aecb1a],
    [0x2a99f186178a148d, 0x1fdc28002ed9963d, 0x4cb2e35fde83a3ba, 0x10c9e283159d58cb],
    [0x253d026a2419f6a2, 0xbdadcec5ca34901d, 0x7a203feefb0b958b, 0xc399e9f67aa4070],
    [0x7184cd7b423449f6, 0xc353b7f6e762c710, 0x330ec3ff602ca8c, 0x83f0df3f1a0351d],
    [0x5f9f5d58212cb263, 0x1984307287a58b9b, 0x20b4c0a19fdb8c71, 0x1a6764d5943fc4a7],
    [0x48f1537beaed683a, 0x2c96382d76c6a7ff, 0xfa66bde66cc25a92, 0x11a63a26feabf87],
    [0x7f9434307e3e64d4, 0x8a41c0b251099ad2, 0xf32bef5b63ad2428, 0x8ca7b64657c3548],
    [0xdcb04303507a4489, 0x15ec0675f1cd648d, 0x955446b0cdb8bea9, 0x1998270471e9361],
    [0xd9e01ca1523e4432, 0x31ea35ec0a77c1fb, 0x6f825d2362933eaa, 0x1d6b3d5f6ea369c2],
    [0xa27da215a6f06d40, 0x64be687e7a69692d, 0x2306976c19941e86, 0x119ef188bb3dd0d3],
    [0x2c64b2d9a79f809e, 0x6e6292df5609d71f, 0xdfd03481381ba86b, 0x2d9e0ab5c06893df],
    [0x31419ee0a529e658, 0x5784319ef08cda2e, 0x7ea34087c025bf13, 0x25f16631bf77060f],
    [0x7ecb9894edb554f1, 0x86d18bc594c79a49, 0xabae3f33fbd03cad, 0x144c7a11da5a7c5d],
    [0xd7c0db2af13de8ee, 0xb8f74de508752fa8, 0xfeadacb28b0c104c, 0xf971162627723f3],
    [0xa69306ec981a688d, 0x83ab304aa52598b1, 0xdd0abd0b0cbb95c8, 0x24be510095436206],
    [0xeaed944870d0b9b9, 0xc299a164c1c1a603, 0x26fadf7068b0c1a6, 0x211610e2ad4a3774],
    [0xc077505e50ec79fc, 0x779d3af08157786a, 0xf09f3f9ebefd864e, 0x15a67d981041b1f6],
    [0x6877701dbe7c9598, 0x6775b0287468b313, 0xa2c82406947f77f0, 0x49327fa79d28c12],
    [0xdea0c42d79f951aa, 0xd170e8c998f1aa85, 0xff9c29697a3fd416, 0x230940dcc5232658],
    [0xc3972a8a2e656964, 0xcc4bab4c26fb888e, 0x289007e0c9da9995, 0x1b121c049cd1159e],
];

/// The values of the dense MDS matrix for width 6.
#[verifier::opaque]
pub open spec fn m_vals() -> Seq<nat> {
    limb_vals(M_DATA_0@)
}

/// The dense MDS matrix for width 6.
pub(crate) fn m_table() -> (v: Vec<Uint256>)
    ensures
        v@.len() == 36,
        vals(v@) == m_vals(),
{
    let mut v = from_limbs(&M_DATA_0);
    proof {
        reveal(m_vals);
        assert(vals(v@) == m_vals());
    }
    v
}

/// Part 0 of the transition matrix for width 6, as little-endian limbs.
pub const P_DATA_0: [[u64; 4]; 36] = [
    [0xc87b917692a4d18, 0x6d53f44d273d956a, 0x16f2f070b1bd248c, 0x124666f80561ed59],
    [0x9491011db0bd0b02, 0xe3d7bfeef4742160, 0x55aaa1cf46ea0518, 0x11924f02fd19b092],
    [0xce446601ed9df845, 0xf9b717369498d3ff, 0x94ff505456c2201e, 0x247fa7f022304a19],
    [0x986be3dcdf051c3f, 0x7bc94eb76c02d79d, 0x22f77ff810f54e27, 0x3fd7b19ef2c861f],
    [0x8b67c8563c0c2a06, 0x5a81eeeea69352a6, 0x9a677443ecffbd55, 0x18bd41239c3e7157],
    [0x78cd75da8b4ebdc, 0x5730ca7f40493277, 0x35bf0a257635196e, 0x2d78c3a5d28de9ff],
    [0x9850511ddb83274c, 0x7c592eea8c6903b1, 0xd2bcc25f0ed1bb4f, 0x18ce75a35f7297ca],
    [0x3ff83551827f338e, 0x486bf324eae0e006, 0xc5b37aa41c13fdba, 0x2c001eb6b378c49f],
    [0xe1d95ec0839d7faa, 0x62b2cfbe19142b2c, 0x182ca25ffa7dc6ae, 0x16e74e9c0932c76],
    [0xa8b84b0a85fbe9ab, 0xf0a74339f53c3f6b, 0x769afa3b377e2e72, 0x24de008c4b20c4dd],
    [0x7b2755aeb9193a56, 0x4e2ce02d38430be7, 0x1b85884402327940, 0x2a28f2409cb364d3],
    [0xb039f74ad576c0d1, 0xa68fd7002114733b, 0x2180680156748121, 0x2afeb1a63b374a50],
    [0x7eba9d908572052f, 0xfa9e19c6e6844a84, 0x9015ad48ef50af34, 0x138f93361c6546d6],
    [0x1a5b550ed0cbc452, 0xfb37684b241f8885, 0xe055b8f273005056, 0x51071183ba1b8fd],
    [0x56342b61047d07c1, 0x465c0785afe7d6b3, 0xef7815712c7b350b, 0x1a13e7beefcfa55a],
    [0x5e117e233b922bd2, 0x33ea243af6aac4e0, 0xa26dae90d93deb1f, 0x274ab81953247f18],
    [0x78aa922ddccd80da, 0xea7c57e574c229f9, 0x804f1888a6a83f6c, 0x1b8e6cf61af064c9],
    [0x9218c4caf6cbaae9, 0x7b261ad228547ba, 0x53e94adfab9b234d, 0x3ddf5c61fc2eae1],
    [0xd3c496c7fe6f7a30, 0x31bdb65eb5975e66, 0x5a1b9428622ba429, 0x13c29b24c0e38e6],
    [0x237deb4d0f734d79, 0x13666e5c44d6c5a8, 0x34d761da80179612, 0x14201055ff5412f8],
    [0x56a15df0c1ac5179, 0x1784eb99fbee0f3e, 0x8811b20aa6175ec4, 0x1adcf63e81b22ad3],
    [0xe97a566ab6f2bb07, 0xe163250c33485426, 0x2c435ea5ef0d6381, 0x16a796c4310ddbc],
    [0xd447908d11c71153, 0x85fba7f5f6e6d287, 0x1a04d3d7a6f3510d, 0xca6769d4383398d],
    [0xd6bcc4b74bbab7c7, 0x4af42657d7a114d2, 0xc1112d92cc8b81ef, 0xc2e8c673f27f45a],
    [0xbb898a8420d0fc90, 0x74c968aba2ef8a4b, 0x25379f4b3fe9c204, 0x211a38485f1e9db4],
    [0xc8165da9ba8c9762, 0x4ec27a89b2ab554d, 0x9e6e9999c3c0492f, 0x182177db418ecda9],
    [0x83c0631b3b435123, 0xd930029beebee, 0xf6e6e7aa989335c6, 0x2f3a76ad0307b740],
    [0x2bbc26e180259ba, 0xa1583cf2fe06a8ae, 0xd2711cda8600d941, 0x1befbb4037c8b847],
    [0x27f352b3bf3dc5b0, 0x3d8163ba30b43919, 0x368c80b67e8b2ab8, 0x125428fe689ac0be],
    [0x5aa9a2b7e1df842c, 0xfee671a525302320, 0xaf41d58581e5aeca, 0xda5ededdd0fdac9],
    [0x5d69acf97e9a80b2, 0xfd02f51c086141af, 0xbe46ec798f7d16e9, 0x2fa4d773833d944],
    [0xf933dc833d13bf28, 0xd7f7f6b484d7fefc, 0x3fcad48d574587e3, 0x1111d2d4d2a013e3],
    [0x3d1b88f858763c40, 0xc0991a178cf7df2f, 0x711221cdaf4b2ccf, 0x24dd1c38ec3e47cf],
    [0x8c9010ec2e0fda4e, 0xeb78bf65a79fd606, 0x69f70b90101e5c8b, 0x3a01ab7488d6cac],
    [0x35ec4d421f5ed05f, 0x84147d44fe15c909, 0x887032b15a83c91d, 0x30516fe884be9bad],
    [0xff2ab5b4d12adc0f, 0x961cc782168c8f83, 0xe5b176ccc54b4a5f, 0x280364612aadf31e],
];

/// The values of the transition matrix for width 6.
#[verifier::opaque]
pub open spec fn p_vals() -> Seq<nat> {
    limb_vals(P_DATA_0@)
}

/// The transition matrix for width 6.
pub(crate) fn p_table() -> (v: Vec<Uint256>)
    ensures
        v@.len() == 36,
        vals(v@) == p_vals(),
{
    let mut v = from_limbs(&P_DATA_0);
    proof {
        reveal(p_vals);
        assert(vals(v@) == p_vals());
    }
    v
}

} // verus!
