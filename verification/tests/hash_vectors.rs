//! Known-answer and boundary tests for the hash entry point.

use poseidon_bn254::hash;
use poseidon_bn254::field::{Uint256, uint256};

fn u(l0: u64, l1: u64, l2: u64, l3: u64) -> Uint256 {
    uint256(l0, l1, l2, l3)
}

fn n(x: u64) -> Uint256 {
    uint256(x, 0, 0, 0)
}

#[test]
fn test_hash_inputs() {
    assert_eq!(hash(&[n(0)]).unwrap(), u(0x3aed2411cb65e11c, 0xe8f7aa12e2b4940a, 0x6b91effbb2499f07, 0x2a09a9fd93c590c2));
    assert_eq!(hash(&[n(0), n(0)]).unwrap(), u(0xa839ee8446b64864, 0xdc3124d55ffed523, 0x3ceac3f27b81e481, 0x2098f5fb9e239eab));
    assert_eq!(hash(&[n(1), n(2)]).unwrap(), u(0x9e19607a4417189a, 0x2a3617f274324551, 0x3df64c6b9662e9cf, 0x115cc0f5e7d69041));
    assert_eq!(hash(&[n(1), n(2), n(3), n(4)]).unwrap(), u(0xbaa525df65250465, 0x37e60ebb1ce0663d, 0x9dcefa40e4510b98, 0x299c867db6c1fdd7));
    assert_eq!(hash(&[n(0), n(0), n(0)]).unwrap(), u(0x7cee6db31ba599aa, 0xe2864eecec96c5ae, 0x1dcfb6af0a7af08f, 0xbc188d27dcceadc));
    assert_eq!(hash(&[n(31213), n(132)]).unwrap(), u(0xba1dbbe2e4d76ab5, 0x776b5d4280eb5868, 0x3bcda50514521b33, 0x303f59cd0831b563));
}

#[test]
fn digests_for_every_arity() {
    assert_eq!(hash(&[n(1)]).unwrap(), u(0x8b897dc502820133, 0xe96a4d1168b3384, 0xc1fe6c654d6a3c13, 0x29176100eaa962bd));
    assert_eq!(hash(&[n(1), n(2)]).unwrap(), u(0x9e19607a4417189a, 0x2a3617f274324551, 0x3df64c6b9662e9cf, 0x115cc0f5e7d69041));
    assert_eq!(hash(&[n(1), n(2), n(3)]).unwrap(), u(0xf725df34ab36d732, 0xf3230e269dc5b968, 0xff03d5e58dab6302, 0xe7732d89e6939c0));
    assert_eq!(hash(&[n(1), n(2), n(3), n(4)]).unwrap(), u(0xbaa525df65250465, 0x37e60ebb1ce0663d, 0x9dcefa40e4510b98, 0x299c867db6c1fdd7));
    assert_eq!(hash(&[n(1), n(2), n(3), n(4), n(5)]).unwrap(), u(0x18125f8feeb123c0, 0x8b2174d305a316c9, 0x15224c0b15a49d59, 0xdab9449e4a1398a));
    assert_eq!(hash(&[n(1), n(2), n(3), n(4), n(5), n(6)]).unwrap(), u(0x134a4cca2f6302e1, 0x38490a68b05f2239, 0x13c8ebf094dea475, 0x2d1a038500844428));
    assert_eq!(hash(&[n(1), n(2), n(3), n(4), n(5), n(6), n(7)]).unwrap(), u(0x2e9df45b4921c318, 0x4a9a85fcfc6533ec, 0xebb9ada49abdbc37, 0x1c2f3482dbb140c4));
    assert_eq!(hash(&[n(1), n(2), n(3), n(4), n(5), n(6), n(7), n(8)]).unwrap(), u(0x4d43b3d8d0c4d8d1, 0x337a4d54fbbecd9a, 0x98e40395c0fefb40, 0x2921ab9bd0140cbc));
    assert_eq!(hash(&[n(1), n(2), n(3), n(4), n(5), n(6), n(7), n(8), n(9)]).unwrap(), u(0x204af32e60cd9078, 0x75b22bb3aaa4461d, 0x75e749d260330b76, 0x1e0b893aa2ad8022));
    assert_eq!(hash(&[n(1), n(2), n(3), n(4), n(5), n(6), n(7), n(8), n(9), n(10)]).unwrap(), u(0x8db9ad07206fdc21, 0x59816fc60d6738b7, 0xcc0628461dacfb94, 0x816126a09c29ecf));
    assert_eq!(hash(&[n(1), n(2), n(3), n(4), n(5), n(6), n(7), n(8), n(9), n(10), n(11)]).unwrap(), u(0xdae0e07fc05b47a8, 0x2429e211f71cacdb, 0x8f30a6b785b6c5ae, 0x7e5b070aa2dba00));
    assert_eq!(hash(&[n(1), n(2), n(3), n(4), n(5), n(6), n(7), n(8), n(9), n(10), n(11), n(12)]).unwrap(), u(0x94e856c1ef7693b5, 0x681cc08702c81684, 0xb248a01e7cc55b3d, 0x58814945232937d));
    assert_eq!(hash(&[n(1), n(2), n(3), n(4), n(5), n(6), n(7), n(8), n(9), n(10), n(11), n(12), n(13)]).unwrap(), u(0x744e90a666887806, 0x828d4c3920d379cc, 0x6456a2fe6e65a124, 0xf918939632fadca));
    assert_eq!(hash(&[n(1), n(2), n(3), n(4), n(5), n(6), n(7), n(8), n(9), n(10), n(11), n(12), n(13), n(14)]).unwrap(), u(0xa7464d4f0e527776, 0xdb4683fb26591c85, 0x8bf573151005830c, 0x1278779aaafc5ca5));
    assert_eq!(hash(&[n(1), n(2), n(3), n(4), n(5), n(6), n(7), n(8), n(9), n(10), n(11), n(12), n(13), n(14), n(15)]).unwrap(), u(0x11da4273ecf20f50, 0x22d078d96f7c36ea, 0x8abb55e917642d40, 0x94ae33b67a84599));
    assert_eq!(hash(&[n(1), n(2), n(3), n(4), n(5), n(6), n(7), n(8), n(9), n(10), n(11), n(12), n(13), n(14), n(15), n(16)]).unwrap(), u(0xde2ffb96b919b765, 0xae08afd7f1f2ec06, 0x8281a48099fff949, 0x16159a551cbb6610));
}

