//! The descriptor ids of the metric names the setup registers, and the keys
//! of the TCP error labels, worked out byte by byte: prometheus files each
//! descriptor, and each labelled counter, under an FNV-1a hash, so the
//! setup's registrations succeed because these ids differ, and the error
//! kinds are counted apart because these keys differ.

use vstd::prelude::*;
use vstd::utf8::{encode_utf8, is_ascii_chars, is_ascii_chars_encode_utf8};
use crate::metrics::{descriptor_id, fnv1a, fnv1a_byte, joined_bytes, label_values_key};

verus! {

/// The xor of the low bytes of `x` and `y`, bit by bit, in arithmetic.
pub open spec fn xor_low_byte(x: u64, y: u64) -> u64 {
    (((x % 2 + y % 2) % 2) + ((x / 2 % 2 + y / 2 % 2) % 2) * 2 + ((x / 4 % 2 + y / 4 % 2) % 2) * 4
        + ((x / 8 % 2 + y / 8 % 2) % 2) * 8 + ((x / 16 % 2 + y / 16 % 2) % 2) * 16 + ((x / 32 % 2
        + y / 32 % 2) % 2) * 32 + ((x / 64 % 2 + y / 64 % 2) % 2) * 64 + ((x / 128 % 2 + y / 128
        % 2) % 2) * 128) as u64
}

/// Xoring a byte into `h` changes only its low byte.
proof fn lemma_xor_byte(h: u64, b: u64)
    by (bit_vector)
    requires
        b < 256,
    ensures
        h ^ b == (h - h % 256 + xor_low_byte(h % 256, b)) as u64,
{
}

/// One FNV-1a step in arithmetic only.
pub open spec fn fnv1a_byte_arith(h: u64, b: u8) -> u64 {
    ((((h - h % 256 + xor_low_byte(h % 256, b as u64)) as u64) as int * 0x100000001b3int)
        % 0x1_0000_0000_0000_0000int) as u64
}

/// The hash of the first `k` bytes of `b`.
#[verifier::opaque]
spec fn hash_prefix(b: Seq<u8>, k: int) -> u64 {
    fnv1a(b.take(k))
}

/// The hash of the first `k + 1` bytes from the hash `h` of the first `k`.
proof fn lemma_fnv1a_next(b: Seq<u8>, k: int, h: u64, byte: u8)
    requires
        0 <= k < b.len(),
        b[k] == byte,
        hash_prefix(b, k) == h,
    ensures
        hash_prefix(b, k + 1) == fnv1a_byte_arith(h, byte),
{
    reveal(hash_prefix);
    assert(b.take(k + 1).drop_last() =~= b.take(k));
    reveal(fnv1a);
    assert(fnv1a(b.take(k + 1)) == fnv1a_byte(h, b[k]));
    lemma_xor_byte(h, b[k] as u64);
}

/// The hash of all of `b` is that of its whole prefix.
proof fn lemma_hash_prefix_all(b: Seq<u8>)
    ensures
        hash_prefix(b, b.len() as int) == fnv1a(b),
{
    reveal(hash_prefix);
    assert(b.take(b.len() as int) =~= b);
}

/// No bytes hash to the offset basis.
proof fn lemma_fnv1a_empty(b: Seq<u8>)
    ensures
        hash_prefix(b, 0) == 0xcbf29ce484222325u64,
{
    reveal(hash_prefix);
    assert(b.take(0) =~= Seq::<u8>::empty());
    reveal(fnv1a);
}

/// The descriptor id of an ASCII name from the bytes of the name and the
/// separator.
proof fn lemma_ascii_descriptor_bytes(name: Seq<char>, b: Seq<u8>)
    requires
        is_ascii_chars(name),
        b.len() == name.len() + 1,
        forall|i: int| 0 <= i < name.len() ==> b[i] == name[i] as u8,
        b[name.len() as int] == 0xffu8,
    ensures
        descriptor_id(name) == fnv1a(b),
{
    is_ascii_chars_encode_utf8(name);
    assert(encode_utf8(name).push(0xffu8) =~= b);
}

/// The bytes that the descriptor id of `tcp_connections_total` hashes.
proof fn lemma_bytes_tcp_connections_total()
    ensures
        descriptor_id("tcp_connections_total"@) == fnv1a(seq![116u8, 99u8, 112u8, 95u8, 99u8, 111u8, 110u8, 110u8, 101u8, 99u8, 116u8, 105u8, 111u8, 110u8, 115u8, 95u8, 116u8, 111u8, 116u8, 97u8, 108u8, 255u8]),
{
    reveal_strlit("tcp_connections_total");
    lemma_ascii_descriptor_bytes("tcp_connections_total"@, seq![116u8, 99u8, 112u8, 95u8, 99u8, 111u8, 110u8, 110u8, 101u8, 99u8, 116u8, 105u8, 111u8, 110u8, 115u8, 95u8, 116u8, 111u8, 116u8, 97u8, 108u8, 255u8]);
}

/// The hash of the bytes of `tcp_connections_total`.
#[verifier::spinoff_prover]
proof fn lemma_hash_tcp_connections_total(b: Seq<u8>)
    requires
        b.len() == 22,
        b[0] == 116u8,
        b[1] == 99u8,
        b[2] == 112u8,
        b[3] == 95u8,
        b[4] == 99u8,
        b[5] == 111u8,
        b[6] == 110u8,
        b[7] == 110u8,
        b[8] == 101u8,
        b[9] == 99u8,
        b[10] == 116u8,
        b[11] == 105u8,
        b[12] == 111u8,
        b[13] == 110u8,
        b[14] == 115u8,
        b[15] == 95u8,
        b[16] == 116u8,
        b[17] == 111u8,
        b[18] == 116u8,
        b[19] == 97u8,
        b[20] == 108u8,
        b[21] == 255u8,
    ensures
        fnv1a(b) == 0x832ededf905f075cu64,
{
    lemma_fnv1a_empty(b);
    assert(hash_prefix(b, 1) == 0xaf63e94c860202a3u64) by {
        assert(fnv1a_byte_arith(0xcbf29ce484222325u64, 116u8) == 0xaf63e94c860202a3u64) by (nonlinear_arith);
        lemma_fnv1a_next(b, 0, 0xcbf29ce484222325u64, 116u8);
    }
    assert(hash_prefix(b, 2) == 0x08c82d07b56aac40u64) by {
        assert(fnv1a_byte_arith(0xaf63e94c860202a3u64, 99u8) == 0x08c82d07b56aac40u64) by (nonlinear_arith);
        lemma_fnv1a_next(b, 1, 0xaf63e94c860202a3u64, 99u8);
    }
    assert(hash_prefix(b, 3) == 0x56d0b41944429590u64) by {
        assert(fnv1a_byte_arith(0x08c82d07b56aac40u64, 112u8) == 0x56d0b41944429590u64) by (nonlinear_arith);
        lemma_fnv1a_next(b, 2, 0x08c82d07b56aac40u64, 112u8);
    }
    assert(hash_prefix(b, 4) == 0xc737d5eefd248ebdu64) by {
        assert(fnv1a_byte_arith(0x56d0b41944429590u64, 95u8) == 0xc737d5eefd248ebdu64) by (nonlinear_arith);
        lemma_fnv1a_next(b, 3, 0x56d0b41944429590u64, 95u8);
    }
    assert(hash_prefix(b, 5) == 0xa86f6318251ec33au64) by {
        assert(fnv1a_byte_arith(0xc737d5eefd248ebdu64, 99u8) == 0xa86f6318251ec33au64) by (nonlinear_arith);
        lemma_fnv1a_next(b, 4, 0xc737d5eefd248ebdu64, 99u8);
    }
    assert(hash_prefix(b, 6) == 0x5408b7071345e96fu64) by {
        assert(fnv1a_byte_arith(0xa86f6318251ec33au64, 111u8) == 0x5408b7071345e96fu64) by (nonlinear_arith);
        lemma_fnv1a_next(b, 5, 0xa86f6318251ec33au64, 111u8);
    }
    assert(hash_prefix(b, 7) == 0x10b80205bfcaecb3u64) by {
        assert(fnv1a_byte_arith(0x5408b7071345e96fu64, 110u8) == 0x10b80205bfcaecb3u64) by (nonlinear_arith);
        lemma_fnv1a_next(b, 6, 0x5408b7071345e96fu64, 110u8);
    }
    assert(hash_prefix(b, 8) == 0x33984cc4e5d07b87u64) by {
        assert(fnv1a_byte_arith(0x10b80205bfcaecb3u64, 110u8) == 0x33984cc4e5d07b87u64) by (nonlinear_arith);
        lemma_fnv1a_next(b, 7, 0x10b80205bfcaecb3u64, 110u8);
    }
    assert(hash_prefix(b, 9) == 0x7c46549281428106u64) by {
        assert(fnv1a_byte_arith(0x33984cc4e5d07b87u64, 101u8) == 0x7c46549281428106u64) by (nonlinear_arith);
        lemma_fnv1a_next(b, 8, 0x33984cc4e5d07b87u64, 101u8);
    }
    assert(hash_prefix(b, 10) == 0x6e0319f1a401de9fu64) by {
        assert(fnv1a_byte_arith(0x7c46549281428106u64, 99u8) == 0x6e0319f1a401de9fu64) by (nonlinear_arith);
        lemma_fnv1a_next(b, 9, 0x7c46549281428106u64, 99u8);
    }
    assert(hash_prefix(b, 11) == 0xf1240099af2dc951u64) by {
        assert(fnv1a_byte_arith(0x6e0319f1a401de9fu64, 116u8) == 0xf1240099af2dc951u64) by (nonlinear_arith);
        lemma_fnv1a_next(b, 10, 0x6e0319f1a401de9fu64, 116u8);
    }
    assert(hash_prefix(b, 12) == 0xedf63d24aaccea28u64) by {
        assert(fnv1a_byte_arith(0xf1240099af2dc951u64, 105u8) == 0xedf63d24aaccea28u64) by (nonlinear_arith);
        lemma_fnv1a_next(b, 11, 0xf1240099af2dc951u64, 105u8);
    }
    assert(hash_prefix(b, 13) == 0x26542c4e3a3216a5u64) by {
        assert(fnv1a_byte_arith(0xedf63d24aaccea28u64, 111u8) == 0x26542c4e3a3216a5u64) by (nonlinear_arith);
        lemma_fnv1a_next(b, 12, 0xedf63d24aaccea28u64, 111u8);
    }
    assert(hash_prefix(b, 14) == 0x531e13ece31cbaf1u64) by {
        assert(fnv1a_byte_arith(0x26542c4e3a3216a5u64, 110u8) == 0x531e13ece31cbaf1u64) by (nonlinear_arith);
        lemma_fnv1a_next(b, 13, 0x26542c4e3a3216a5u64, 110u8);
    }
    assert(hash_prefix(b, 15) == 0x58d65d85e9d0eae6u64) by {
        assert(fnv1a_byte_arith(0x531e13ece31cbaf1u64, 115u8) == 0x58d65d85e9d0eae6u64) by (nonlinear_arith);
        lemma_fnv1a_next(b, 14, 0x531e13ece31cbaf1u64, 115u8);
    }
    assert(hash_prefix(b, 16) == 0xc52ba38c4dfed85bu64) by {
        assert(fnv1a_byte_arith(0x58d65d85e9d0eae6u64, 95u8) == 0xc52ba38c4dfed85bu64) by (nonlinear_arith);
        lemma_fnv1a_next(b, 15, 0x58d65d85e9d0eae6u64, 95u8);
    }
    assert(hash_prefix(b, 17) == 0x07ff1668880957ddu64) by {
        assert(fnv1a_byte_arith(0xc52ba38c4dfed85bu64, 116u8) == 0x07ff1668880957ddu64) by (nonlinear_arith);
        lemma_fnv1a_next(b, 16, 0xc52ba38c4dfed85bu64, 116u8);
    }
    assert(hash_prefix(b, 18) == 0x9fcac59f27e00376u64) by {
        assert(fnv1a_byte_arith(0x07ff1668880957ddu64, 111u8) == 0x9fcac59f27e00376u64) by (nonlinear_arith);
        lemma_fnv1a_next(b, 17, 0x07ff1668880957ddu64, 111u8);
    }
    assert(hash_prefix(b, 19) == 0x6590cf70c1a51c66u64) by {
        assert(fnv1a_byte_arith(0x9fcac59f27e00376u64, 116u8) == 0x6590cf70c1a51c66u64) by (nonlinear_arith);
        lemma_fnv1a_next(b, 18, 0x9fcac59f27e00376u64, 116u8);
    }
    assert(hash_prefix(b, 20) == 0x3a2c83990b8e9fe5u64) by {
        assert(fnv1a_byte_arith(0x6590cf70c1a51c66u64, 97u8) == 0x3a2c83990b8e9fe5u64) by (nonlinear_arith);
        lemma_fnv1a_next(b, 19, 0x6590cf70c1a51c66u64, 97u8);
    }
    assert(hash_prefix(b, 21) == 0x6843260ea35915cbu64) by {
        assert(fnv1a_byte_arith(0x3a2c83990b8e9fe5u64, 108u8) == 0x6843260ea35915cbu64) by (nonlinear_arith);
        lemma_fnv1a_next(b, 20, 0x3a2c83990b8e9fe5u64, 108u8);
    }
    assert(hash_prefix(b, 22) == 0x832ededf905f075cu64) by {
        assert(fnv1a_byte_arith(0x6843260ea35915cbu64, 255u8) == 0x832ededf905f075cu64) by (nonlinear_arith);
        lemma_fnv1a_next(b, 21, 0x6843260ea35915cbu64, 255u8);
    }
    lemma_hash_prefix_all(b);
}

/// The bytes that the descriptor id of `tcp_bytes_sent_total` hashes.
proof fn lemma_bytes_tcp_bytes_sent_total()
    ensures
        descriptor_id("tcp_bytes_sent_total"@) == fnv1a(seq![116u8, 99u8, 112u8, 95u8, 98u8, 121u8, 116u8, 101u8, 115u8, 95u8, 115u8, 101u8, 110u8, 116u8, 95u8, 116u8, 111u8, 116u8, 97u8, 108u8, 255u8]),
{
    reveal_strlit("tcp_bytes_sent_total");
    lemma_ascii_descriptor_bytes("tcp_bytes_sent_total"@, seq![116u8, 99u8, 112u8, 95u8, 98u8, 121u8, 116u8, 101u8, 115u8, 95u8, 115u8, 101u8, 110u8, 116u8, 95u8, 116u8, 111u8, 116u8, 97u8, 108u8, 255u8]);
}

/// The hash of the bytes of `tcp_bytes_sent_total`.
#[verifier::spinoff_prover]
proof fn lemma_hash_tcp_bytes_sent_total(b: Seq<u8>)
    requires
        b.len() == 21,
        b[0] == 116u8,
        b[1] == 99u8,
        b[2] == 112u8,
        b[3] == 95u8,
        b[4] == 98u8,
        b[5] == 121u8,
        b[6] == 116u8,
        b[7] == 101u8,
        b[8] == 115u8,
        b[9] == 95u8,
        b[10] == 115u8,
        b[11] == 101u8,
        b[12] == 110u8,
        b[13] == 116u8,
        b[14] == 95u8,
        b[15] == 116u8,
        b[16] == 111u8,
        b[17] == 116u8,
        b[18] == 97u8,
        b[19] == 108u8,
        b[20] == 255u8,
    ensures
        fnv1a(b) == 0xd08e5ad083f44b43u64,
{
    lemma_fnv1a_empty(b);
    assert(hash_prefix(b, 1) == 0xaf63e94c860202a3u64) by {
        assert(fnv1a_byte_arith(0xcbf29ce484222325u64, 116u8) == 0xaf63e94c860202a3u64) by (nonlinear_arith);
        lemma_fnv1a_next(b, 0, 0xcbf29ce484222325u64, 116u8);
    }
    assert(hash_prefix(b, 2) == 0x08c82d07b56aac40u64) by {
        assert(fnv1a_byte_arith(0xaf63e94c860202a3u64, 99u8) == 0x08c82d07b56aac40u64) by (nonlinear_arith);
        lemma_fnv1a_next(b, 1, 0xaf63e94c860202a3u64, 99u8);
    }
    assert(hash_prefix(b, 3) == 0x56d0b41944429590u64) by {
        assert(fnv1a_byte_arith(0x08c82d07b56aac40u64, 112u8) == 0x56d0b41944429590u64) by (nonlinear_arith);
        lemma_fnv1a_next(b, 2, 0x08c82d07b56aac40u64, 112u8);
    }
    assert(hash_prefix(b, 4) == 0xc737d5eefd248ebdu64) by {
        assert(fnv1a_byte_arith(0x56d0b41944429590u64, 95u8) == 0xc737d5eefd248ebdu64) by (nonlinear_arith);
        lemma_fnv1a_next(b, 3, 0x56d0b41944429590u64, 95u8);
    }
    assert(hash_prefix(b, 5) == 0xa86f6418251ec4edu64) by {
        assert(fnv1a_byte_arith(0xc737d5eefd248ebdu64, 98u8) == 0xa86f6418251ec4edu64) by (nonlinear_arith);
        lemma_fnv1a_next(b, 4, 0xc737d5eefd248ebdu64, 98u8);
    }
    assert(hash_prefix(b, 6) == 0x540ba9071348077cu64) by {
        assert(fnv1a_byte_arith(0xa86f6418251ec4edu64, 121u8) == 0x540ba9071348077cu64) by (nonlinear_arith);
        lemma_fnv1a_next(b, 5, 0xa86f6418251ec4edu64, 121u8);
    }
    assert(hash_prefix(b, 7) == 0x17d73f05c363f298u64) by {
        assert(fnv1a_byte_arith(0x540ba9071348077cu64, 116u8) == 0x17d73f05c363f298u64) by (nonlinear_arith);
        lemma_fnv1a_next(b, 6, 0x540ba9071348077cu64, 116u8);
    }
    assert(hash_prefix(b, 8) == 0xe6b313cb02d5e3e7u64) by {
        assert(fnv1a_byte_arith(0x17d73f05c363f298u64, 101u8) == 0xe6b313cb02d5e3e7u64) by (nonlinear_arith);
        lemma_fnv1a_next(b, 7, 0x17d73f05c363f298u64, 101u8);
    }
    assert(hash_prefix(b, 9) == 0xd82e35f5d171b47cu64) by {
        assert(fnv1a_byte_arith(0xe6b313cb02d5e3e7u64, 115u8) == 0xd82e35f5d171b47cu64) by (nonlinear_arith);
        lemma_fnv1a_next(b, 8, 0xe6b313cb02d5e3e7u64, 115u8);
    }
    assert(hash_prefix(b, 10) == 0xc839d3b2e4351779u64) by {
        assert(fnv1a_byte_arith(0xd82e35f5d171b47cu64, 95u8) == 0xc839d3b2e4351779u64) by (nonlinear_arith);
        lemma_fnv1a_next(b, 9, 0xd82e35f5d171b47cu64, 95u8);
    }
    assert(hash_prefix(b, 11) == 0x6f59c2f9c63625feu64) by {
        assert(fnv1a_byte_arith(0xc839d3b2e4351779u64, 115u8) == 0x6f59c2f9c63625feu64) by (nonlinear_arith);
        lemma_fnv1a_next(b, 10, 0xc839d3b2e4351779u64, 115u8);
    }
    assert(hash_prefix(b, 12) == 0x6babe96bce01e661u64) by {
        assert(fnv1a_byte_arith(0x6f59c2f9c63625feu64, 101u8) == 0x6babe96bce01e661u64) by (nonlinear_arith);
        lemma_fnv1a_next(b, 11, 0x6f59c2f9c63625feu64, 101u8);
    }
    assert(hash_prefix(b, 13) == 0xf703b12f0d39eb7du64) by {
        assert(fnv1a_byte_arith(0x6babe96bce01e661u64, 110u8) == 0xf703b12f0d39eb7du64) by (nonlinear_arith);
        lemma_fnv1a_next(b, 12, 0x6babe96bce01e661u64, 110u8);
    }
    assert(hash_prefix(b, 14) == 0xf5311bf3796a604bu64) by {
        assert(fnv1a_byte_arith(0xf703b12f0d39eb7du64, 116u8) == 0xf5311bf3796a604bu64) by (nonlinear_arith);
        lemma_fnv1a_next(b, 13, 0xf703b12f0d39eb7du64, 116u8);
    }
    assert(hash_prefix(b, 15) == 0x0cd292b74fc141fcu64) by {
        assert(fnv1a_byte_arith(0xf5311bf3796a604bu64, 95u8) == 0x0cd292b74fc141fcu64) by (nonlinear_arith);
        lemma_fnv1a_next(b, 14, 0xf5311bf3796a604bu64, 95u8);
    }
    assert(hash_prefix(b, 16) == 0x8b10d57c85625a18u64) by {
        assert(fnv1a_byte_arith(0x0cd292b74fc141fcu64, 116u8) == 0x8b10d57c85625a18u64) by (nonlinear_arith);
        lemma_fnv1a_next(b, 15, 0x0cd292b74fc141fcu64, 116u8);
    }
    assert(hash_prefix(b, 17) == 0xaff53996a61fb835u64) by {
        assert(fnv1a_byte_arith(0x8b10d57c85625a18u64, 111u8) == 0xaff53996a61fb835u64) by (nonlinear_arith);
        lemma_fnv1a_next(b, 16, 0x8b10d57c85625a18u64, 111u8);
    }
    assert(hash_prefix(b, 18) == 0x1d691bfc47e61673u64) by {
        assert(fnv1a_byte_arith(0xaff53996a61fb835u64, 116u8) == 0x1d691bfc47e61673u64) by (nonlinear_arith);
        lemma_fnv1a_next(b, 17, 0xaff53996a61fb835u64, 116u8);
    }
    assert(hash_prefix(b, 19) == 0xdfb09fae2bf78096u64) by {
        assert(fnv1a_byte_arith(0x1d691bfc47e61673u64, 97u8) == 0xdfb09fae2bf78096u64) by (nonlinear_arith);
        lemma_fnv1a_next(b, 18, 0x1d691bfc47e61673u64, 97u8);
    }
    assert(hash_prefix(b, 20) == 0x10a04ef4b59028ceu64) by {
        assert(fnv1a_byte_arith(0xdfb09fae2bf78096u64, 108u8) == 0x10a04ef4b59028ceu64) by (nonlinear_arith);
        lemma_fnv1a_next(b, 19, 0xdfb09fae2bf78096u64, 108u8);
    }
    assert(hash_prefix(b, 21) == 0xd08e5ad083f44b43u64) by {
        assert(fnv1a_byte_arith(0x10a04ef4b59028ceu64, 255u8) == 0xd08e5ad083f44b43u64) by (nonlinear_arith);
        lemma_fnv1a_next(b, 20, 0x10a04ef4b59028ceu64, 255u8);
    }
    lemma_hash_prefix_all(b);
}

/// The bytes that the descriptor id of `tcp_bytes_received_total` hashes.
proof fn lemma_bytes_tcp_bytes_received_total()
    ensures
        descriptor_id("tcp_bytes_received_total"@) == fnv1a(seq![116u8, 99u8, 112u8, 95u8, 98u8, 121u8, 116u8, 101u8, 115u8, 95u8, 114u8, 101u8, 99u8, 101u8, 105u8, 118u8, 101u8, 100u8, 95u8, 116u8, 111u8, 116u8, 97u8, 108u8, 255u8]),
{
    reveal_strlit("tcp_bytes_received_total");
    lemma_ascii_descriptor_bytes("tcp_bytes_received_total"@, seq![116u8, 99u8, 112u8, 95u8, 98u8, 121u8, 116u8, 101u8, 115u8, 95u8, 114u8, 101u8, 99u8, 101u8, 105u8, 118u8, 101u8, 100u8, 95u8, 116u8, 111u8, 116u8, 97u8, 108u8, 255u8]);
}

/// The hash of the bytes of `tcp_bytes_received_total`.
#[verifier::spinoff_prover]
proof fn lemma_hash_tcp_bytes_received_total(b: Seq<u8>)
    requires
        b.len() == 25,
        b[0] == 116u8,
        b[1] == 99u8,
        b[2] == 112u8,
        b[3] == 95u8,
        b[4] == 98u8,
        b[5] == 121u8,
        b[6] == 116u8,
        b[7] == 101u8,
        b[8] == 115u8,
        b[9] == 95u8,
        b[10] == 114u8,
        b[11] == 101u8,
        b[12] == 99u8,
        b[13] == 101u8,
        b[14] == 105u8,
        b[15] == 118u8,
        b[16] == 101u8,
        b[17] == 100u8,
        b[18] == 95u8,
        b[19] == 116u8,
        b[20] == 111u8,
        b[21] == 116u8,
        b[22] == 97u8,
        b[23] == 108u8,
        b[24] == 255u8,
    ensures
        fnv1a(b) == 0x97e6ce2840c41af4u64,
{
    lemma_fnv1a_empty(b);
    assert(hash_prefix(b, 1) == 0xaf63e94c860202a3u64) by {
        assert(fnv1a_byte_arith(0xcbf29ce484222325u64, 116u8) == 0xaf63e94c860202a3u64) by (nonlinear_arith);
        lemma_fnv1a_next(b, 0, 0xcbf29ce484222325u64, 116u8);
    }
    assert(hash_prefix(b, 2) == 0x08c82d07b56aac40u64) by {
        assert(fnv1a_byte_arith(0xaf63e94c860202a3u64, 99u8) == 0x08c82d07b56aac40u64) by (nonlinear_arith);
        lemma_fnv1a_next(b, 1, 0xaf63e94c860202a3u64, 99u8);
    }
    assert(hash_prefix(b, 3) == 0x56d0b41944429590u64) by {
        assert(fnv1a_byte_arith(0x08c82d07b56aac40u64, 112u8) == 0x56d0b41944429590u64) by (nonlinear_arith);
        lemma_fnv1a_next(b, 2, 0x08c82d07b56aac40u64, 112u8);
    }
    assert(hash_prefix(b, 4) == 0xc737d5eefd248ebdu64) by {
        assert(fnv1a_byte_arith(0x56d0b41944429590u64, 95u8) == 0xc737d5eefd248ebdu64) by (nonlinear_arith);
        lemma_fnv1a_next(b, 3, 0x56d0b41944429590u64, 95u8);
    }
    assert(hash_prefix(b, 5) == 0xa86f6418251ec4edu64) by {
        assert(fnv1a_byte_arith(0xc737d5eefd248ebdu64, 98u8) == 0xa86f6418251ec4edu64) by (nonlinear_arith);
        lemma_fnv1a_next(b, 4, 0xc737d5eefd248ebdu64, 98u8);
    }
    assert(hash_prefix(b, 6) == 0x540ba9071348077cu64) by {
        assert(fnv1a_byte_arith(0xa86f6418251ec4edu64, 121u8) == 0x540ba9071348077cu64) by (nonlinear_arith);
        lemma_fnv1a_next(b, 5, 0xa86f6418251ec4edu64, 121u8);
    }
    assert(hash_prefix(b, 7) == 0x17d73f05c363f298u64) by {
        assert(fnv1a_byte_arith(0x540ba9071348077cu64, 116u8) == 0x17d73f05c363f298u64) by (nonlinear_arith);
        lemma_fnv1a_next(b, 6, 0x540ba9071348077cu64, 116u8);
    }
    assert(hash_prefix(b, 8) == 0xe6b313cb02d5e3e7u64) by {
        assert(fnv1a_byte_arith(0x17d73f05c363f298u64, 101u8) == 0xe6b313cb02d5e3e7u64) by (nonlinear_arith);
        lemma_fnv1a_next(b, 7, 0x17d73f05c363f298u64, 101u8);
    }
    assert(hash_prefix(b, 9) == 0xd82e35f5d171b47cu64) by {
        assert(fnv1a_byte_arith(0xe6b313cb02d5e3e7u64, 115u8) == 0xd82e35f5d171b47cu64) by (nonlinear_arith);
        lemma_fnv1a_next(b, 8, 0xe6b313cb02d5e3e7u64, 115u8);
    }
    assert(hash_prefix(b, 10) == 0xc839d3b2e4351779u64) by {
        assert(fnv1a_byte_arith(0xd82e35f5d171b47cu64, 95u8) == 0xc839d3b2e4351779u64) by (nonlinear_arith);
        lemma_fnv1a_next(b, 9, 0xd82e35f5d171b47cu64, 95u8);
    }
    assert(hash_prefix(b, 11) == 0x6f59c3f9c63627b1u64) by {
        assert(fnv1a_byte_arith(0xc839d3b2e4351779u64, 114u8) == 0x6f59c3f9c63627b1u64) by (nonlinear_arith);
        lemma_fnv1a_next(b, 10, 0xc839d3b2e4351779u64, 114u8);
    }
    assert(hash_prefix(b, 12) == 0x6bafd56bce05ad3cu64) by {
        assert(fnv1a_byte_arith(0x6f59c3f9c63627b1u64, 101u8) == 0x6bafd56bce05ad3cu64) by (nonlinear_arith);
        lemma_fnv1a_next(b, 11, 0x6f59c3f9c63627b1u64, 101u8);
    }
    assert(hash_prefix(b, 13) == 0x0175052f13a5986du64) by {
        assert(fnv1a_byte_arith(0x6bafd56bce05ad3cu64, 99u8) == 0x0175052f13a5986du64) by (nonlinear_arith);
        lemma_fnv1a_next(b, 12, 0x6bafd56bce05ad3cu64, 99u8);
    }
    assert(hash_prefix(b, 14) == 0x1f6fd6fe62615598u64) by {
        assert(fnv1a_byte_arith(0x0175052f13a5986du64, 101u8) == 0x1f6fd6fe62615598u64) by (nonlinear_arith);
        lemma_fnv1a_next(b, 13, 0x0175052f13a5986du64, 101u8);
    }
    assert(hash_prefix(b, 15) == 0xcc6043412b650883u64) by {
        assert(fnv1a_byte_arith(0x1f6fd6fe62615598u64, 105u8) == 0xcc6043412b650883u64) by (nonlinear_arith);
        lemma_fnv1a_next(b, 14, 0x1f6fd6fe62615598u64, 105u8);
    }
    assert(hash_prefix(b, 16) == 0xac9b3cbcbcae384fu64) by {
        assert(fnv1a_byte_arith(0xcc6043412b650883u64, 118u8) == 0xac9b3cbcbcae384fu64) by (nonlinear_arith);
        lemma_fnv1a_next(b, 15, 0xcc6043412b650883u64, 118u8);
    }
    assert(hash_prefix(b, 17) == 0xfa005eb49c096f5eu64) by {
        assert(fnv1a_byte_arith(0xac9b3cbcbcae384fu64, 101u8) == 0xfa005eb49c096f5eu64) by (nonlinear_arith);
        lemma_fnv1a_next(b, 16, 0xac9b3cbcbcae384fu64, 101u8);
    }
    assert(hash_prefix(b, 18) == 0xd81026e52407ff8eu64) by {
        assert(fnv1a_byte_arith(0xfa005eb49c096f5eu64, 100u8) == 0xd81026e52407ff8eu64) by (nonlinear_arith);
        lemma_fnv1a_next(b, 17, 0xfa005eb49c096f5eu64, 100u8);
    }
    assert(hash_prefix(b, 19) == 0x2b71e85c3997b023u64) by {
        assert(fnv1a_byte_arith(0xd81026e52407ff8eu64, 95u8) == 0x2b71e85c3997b023u64) by (nonlinear_arith);
        lemma_fnv1a_next(b, 18, 0xd81026e52407ff8eu64, 95u8);
    }
    assert(hash_prefix(b, 20) == 0x6a3e2bb5dcc0a3d5u64) by {
        assert(fnv1a_byte_arith(0x2b71e85c3997b023u64, 116u8) == 0x6a3e2bb5dcc0a3d5u64) by (nonlinear_arith);
        lemma_fnv1a_next(b, 19, 0x2b71e85c3997b023u64, 116u8);
    }
    assert(hash_prefix(b, 21) == 0x484800061b56350eu64) by {
        assert(fnv1a_byte_arith(0x6a3e2bb5dcc0a3d5u64, 111u8) == 0x484800061b56350eu64) by (nonlinear_arith);
        lemma_fnv1a_next(b, 20, 0x6a3e2bb5dcc0a3d5u64, 111u8);
    }
    assert(hash_prefix(b, 22) == 0x288d8460737cde4eu64) by {
        assert(fnv1a_byte_arith(0x484800061b56350eu64, 116u8) == 0x288d8460737cde4eu64) by (nonlinear_arith);
        lemma_fnv1a_next(b, 21, 0x484800061b56350eu64, 116u8);
    }
    assert(hash_prefix(b, 23) == 0x65561ee43d2d89ddu64) by {
        assert(fnv1a_byte_arith(0x288d8460737cde4eu64, 97u8) == 0x65561ee43d2d89ddu64) by (nonlinear_arith);
        lemma_fnv1a_next(b, 22, 0x288d8460737cde4eu64, 97u8);
    }
    assert(hash_prefix(b, 24) == 0x5ee02ed3f460f7c3u64) by {
        assert(fnv1a_byte_arith(0x65561ee43d2d89ddu64, 108u8) == 0x5ee02ed3f460f7c3u64) by (nonlinear_arith);
        lemma_fnv1a_next(b, 23, 0x65561ee43d2d89ddu64, 108u8);
    }
    assert(hash_prefix(b, 25) == 0x97e6ce2840c41af4u64) by {
        assert(fnv1a_byte_arith(0x5ee02ed3f460f7c3u64, 255u8) == 0x97e6ce2840c41af4u64) by (nonlinear_arith);
        lemma_fnv1a_next(b, 24, 0x5ee02ed3f460f7c3u64, 255u8);
    }
    lemma_hash_prefix_all(b);
}

/// The bytes that the descriptor id of `tcp_active_connections` hashes.
proof fn lemma_bytes_tcp_active_connections()
    ensures
        descriptor_id("tcp_active_connections"@) == fnv1a(seq![116u8, 99u8, 112u8, 95u8, 97u8, 99u8, 116u8, 105u8, 118u8, 101u8, 95u8, 99u8, 111u8, 110u8, 110u8, 101u8, 99u8, 116u8, 105u8, 111u8, 110u8, 115u8, 255u8]),
{
    reveal_strlit("tcp_active_connections");
    lemma_ascii_descriptor_bytes("tcp_active_connections"@, seq![116u8, 99u8, 112u8, 95u8, 97u8, 99u8, 116u8, 105u8, 118u8, 101u8, 95u8, 99u8, 111u8, 110u8, 110u8, 101u8, 99u8, 116u8, 105u8, 111u8, 110u8, 115u8, 255u8]);
}

/// The hash of the bytes of `tcp_active_connections`.
#[verifier::spinoff_prover]
proof fn lemma_hash_tcp_active_connections(b: Seq<u8>)
    requires
        b.len() == 23,
        b[0] == 116u8,
        b[1] == 99u8,
        b[2] == 112u8,
        b[3] == 95u8,
        b[4] == 97u8,
        b[5] == 99u8,
        b[6] == 116u8,
        b[7] == 105u8,
        b[8] == 118u8,
        b[9] == 101u8,
        b[10] == 95u8,
        b[11] == 99u8,
        b[12] == 111u8,
        b[13] == 110u8,
        b[14] == 110u8,
        b[15] == 101u8,
        b[16] == 99u8,
        b[17] == 116u8,
        b[18] == 105u8,
        b[19] == 111u8,
        b[20] == 110u8,
        b[21] == 115u8,
        b[22] == 255u8,
    ensures
        fnv1a(b) == 0x7993f6591c375572u64,
{
    lemma_fnv1a_empty(b);
    assert(hash_prefix(b, 1) == 0xaf63e94c860202a3u64) by {
        assert(fnv1a_byte_arith(0xcbf29ce484222325u64, 116u8) == 0xaf63e94c860202a3u64) by (nonlinear_arith);
        lemma_fnv1a_next(b, 0, 0xcbf29ce484222325u64, 116u8);
    }
    assert(hash_prefix(b, 2) == 0x08c82d07b56aac40u64) by {
        assert(fnv1a_byte_arith(0xaf63e94c860202a3u64, 99u8) == 0x08c82d07b56aac40u64) by (nonlinear_arith);
        lemma_fnv1a_next(b, 1, 0xaf63e94c860202a3u64, 99u8);
    }
    assert(hash_prefix(b, 3) == 0x56d0b41944429590u64) by {
        assert(fnv1a_byte_arith(0x08c82d07b56aac40u64, 112u8) == 0x56d0b41944429590u64) by (nonlinear_arith);
        lemma_fnv1a_next(b, 2, 0x08c82d07b56aac40u64, 112u8);
    }
    assert(hash_prefix(b, 4) == 0xc737d5eefd248ebdu64) by {
        assert(fnv1a_byte_arith(0x56d0b41944429590u64, 95u8) == 0xc737d5eefd248ebdu64) by (nonlinear_arith);
        lemma_fnv1a_next(b, 3, 0x56d0b41944429590u64, 95u8);
    }
    assert(hash_prefix(b, 5) == 0xa86f6118251ebfd4u64) by {
        assert(fnv1a_byte_arith(0xc737d5eefd248ebdu64, 97u8) == 0xa86f6118251ebfd4u64) by (nonlinear_arith);
        lemma_fnv1a_next(b, 4, 0xc737d5eefd248ebdu64, 97u8);
    }
    assert(hash_prefix(b, 6) == 0x5401b307133fc3f5u64) by {
        assert(fnv1a_byte_arith(0xa86f6118251ebfd4u64, 99u8) == 0x5401b307133fc3f5u64) by (nonlinear_arith);
        lemma_fnv1a_next(b, 5, 0xa86f6118251ebfd4u64, 99u8);
    }
    assert(hash_prefix(b, 7) == 0xfea6b605b5593433u64) by {
        assert(fnv1a_byte_arith(0x5401b307133fc3f5u64, 116u8) == 0xfea6b605b5593433u64) by (nonlinear_arith);
        lemma_fnv1a_next(b, 6, 0x5401b307133fc3f5u64, 116u8);
    }
    assert(hash_prefix(b, 8) == 0x0e7ba5b32693f4eeu64) by {
        assert(fnv1a_byte_arith(0xfea6b605b5593433u64, 105u8) == 0x0e7ba5b32693f4eeu64) by (nonlinear_arith);
        lemma_fnv1a_next(b, 7, 0xfea6b605b5593433u64, 105u8);
    }
    assert(hash_prefix(b, 9) == 0x300f276a8d689e48u64) by {
        assert(fnv1a_byte_arith(0x0e7ba5b32693f4eeu64, 118u8) == 0x300f276a8d689e48u64) by (nonlinear_arith);
        lemma_fnv1a_next(b, 8, 0x0e7ba5b32693f4eeu64, 118u8);
    }
    assert(hash_prefix(b, 10) == 0x125e270e48c4c677u64) by {
        assert(fnv1a_byte_arith(0x300f276a8d689e48u64, 101u8) == 0x125e270e48c4c677u64) by (nonlinear_arith);
        lemma_fnv1a_next(b, 9, 0x300f276a8d689e48u64, 101u8);
    }
    assert(hash_prefix(b, 11) == 0xfac28545a65cb5f8u64) by {
        assert(fnv1a_byte_arith(0x125e270e48c4c677u64, 95u8) == 0xfac28545a65cb5f8u64) by (nonlinear_arith);
        lemma_fnv1a_next(b, 10, 0x125e270e48c4c677u64, 95u8);
    }
    assert(hash_prefix(b, 12) == 0x753e1059af889661u64) by {
        assert(fnv1a_byte_arith(0xfac28545a65cb5f8u64, 99u8) == 0x753e1059af889661u64) by (nonlinear_arith);
        lemma_fnv1a_next(b, 11, 0xfac28545a65cb5f8u64, 99u8);
    }
    assert(hash_prefix(b, 13) == 0xc10bd6654516f9cau64) by {
        assert(fnv1a_byte_arith(0x753e1059af889661u64, 111u8) == 0xc10bd6654516f9cau64) by (nonlinear_arith);
        lemma_fnv1a_next(b, 12, 0x753e1059af889661u64, 111u8);
    }
    assert(hash_prefix(b, 14) == 0x1e16f214660a31acu64) by {
        assert(fnv1a_byte_arith(0xc10bd6654516f9cau64, 110u8) == 0x1e16f214660a31acu64) by (nonlinear_arith);
        lemma_fnv1a_next(b, 13, 0xc10bd6654516f9cau64, 110u8);
    }
    assert(hash_prefix(b, 15) == 0x2b2f1aa963528ca6u64) by {
        assert(fnv1a_byte_arith(0x1e16f214660a31acu64, 110u8) == 0x2b2f1aa963528ca6u64) by (nonlinear_arith);
        lemma_fnv1a_next(b, 14, 0x1e16f214660a31acu64, 110u8);
    }
    assert(hash_prefix(b, 16) == 0xb39710d3c5452f59u64) by {
        assert(fnv1a_byte_arith(0x2b2f1aa963528ca6u64, 101u8) == 0xb39710d3c5452f59u64) by (nonlinear_arith);
        lemma_fnv1a_next(b, 15, 0x2b2f1aa963528ca6u64, 101u8);
    }
    assert(hash_prefix(b, 17) == 0x6ee0d1d8348f3f8eu64) by {
        assert(fnv1a_byte_arith(0xb39710d3c5452f59u64, 99u8) == 0x6ee0d1d8348f3f8eu64) by (nonlinear_arith);
        lemma_fnv1a_next(b, 16, 0xb39710d3c5452f59u64, 99u8);
    }
    assert(hash_prefix(b, 18) == 0xf7448c614f69b5ceu64) by {
        assert(fnv1a_byte_arith(0x6ee0d1d8348f3f8eu64, 116u8) == 0xf7448c614f69b5ceu64) by (nonlinear_arith);
        lemma_fnv1a_next(b, 17, 0x6ee0d1d8348f3f8eu64, 116u8);
    }
    assert(hash_prefix(b, 19) == 0x93303059f09faac5u64) by {
        assert(fnv1a_byte_arith(0xf7448c614f69b5ceu64, 105u8) == 0x93303059f09faac5u64) by (nonlinear_arith);
        lemma_fnv1a_next(b, 18, 0xf7448c614f69b5ceu64, 105u8);
    }
    assert(hash_prefix(b, 20) == 0xba8cd2d3df4efedeu64) by {
        assert(fnv1a_byte_arith(0x93303059f09faac5u64, 111u8) == 0xba8cd2d3df4efedeu64) by (nonlinear_arith);
        lemma_fnv1a_next(b, 19, 0x93303059f09faac5u64, 111u8);
    }
    assert(hash_prefix(b, 21) == 0x4c48ee04733ac510u64) by {
        assert(fnv1a_byte_arith(0xba8cd2d3df4efedeu64, 110u8) == 0x4c48ee04733ac510u64) by (nonlinear_arith);
        lemma_fnv1a_next(b, 20, 0xba8cd2d3df4efedeu64, 110u8);
    }
    assert(hash_prefix(b, 22) == 0xdab1d48fccdd6739u64) by {
        assert(fnv1a_byte_arith(0x4c48ee04733ac510u64, 115u8) == 0xdab1d48fccdd6739u64) by (nonlinear_arith);
        lemma_fnv1a_next(b, 21, 0x4c48ee04733ac510u64, 115u8);
    }
    assert(hash_prefix(b, 23) == 0x7993f6591c375572u64) by {
        assert(fnv1a_byte_arith(0xdab1d48fccdd6739u64, 255u8) == 0x7993f6591c375572u64) by (nonlinear_arith);
        lemma_fnv1a_next(b, 22, 0xdab1d48fccdd6739u64, 255u8);
    }
    lemma_hash_prefix_all(b);
}

/// The bytes that the descriptor id of `tcp_errors_total` hashes.
proof fn lemma_bytes_tcp_errors_total()
    ensures
        descriptor_id("tcp_errors_total"@) == fnv1a(seq![116u8, 99u8, 112u8, 95u8, 101u8, 114u8, 114u8, 111u8, 114u8, 115u8, 95u8, 116u8, 111u8, 116u8, 97u8, 108u8, 255u8]),
{
    reveal_strlit("tcp_errors_total");
    lemma_ascii_descriptor_bytes("tcp_errors_total"@, seq![116u8, 99u8, 112u8, 95u8, 101u8, 114u8, 114u8, 111u8, 114u8, 115u8, 95u8, 116u8, 111u8, 116u8, 97u8, 108u8, 255u8]);
}

/// The hash of the bytes of `tcp_errors_total`.
#[verifier::spinoff_prover]
proof fn lemma_hash_tcp_errors_total(b: Seq<u8>)
    requires
        b.len() == 17,
        b[0] == 116u8,
        b[1] == 99u8,
        b[2] == 112u8,
        b[3] == 95u8,
        b[4] == 101u8,
        b[5] == 114u8,
        b[6] == 114u8,
        b[7] == 111u8,
        b[8] == 114u8,
        b[9] == 115u8,
        b[10] == 95u8,
        b[11] == 116u8,
        b[12] == 111u8,
        b[13] == 116u8,
        b[14] == 97u8,
        b[15] == 108u8,
        b[16] == 255u8,
    ensures
        fnv1a(b) == 0x44aefbdcee2c0bf4u64,
{
    lemma_fnv1a_empty(b);
    assert(hash_prefix(b, 1) == 0xaf63e94c860202a3u64) by {
        assert(fnv1a_byte_arith(0xcbf29ce484222325u64, 116u8) == 0xaf63e94c860202a3u64) by (nonlinear_arith);
        lemma_fnv1a_next(b, 0, 0xcbf29ce484222325u64, 116u8);
    }
    assert(hash_prefix(b, 2) == 0x08c82d07b56aac40u64) by {
        assert(fnv1a_byte_arith(0xaf63e94c860202a3u64, 99u8) == 0x08c82d07b56aac40u64) by (nonlinear_arith);
        lemma_fnv1a_next(b, 1, 0xaf63e94c860202a3u64, 99u8);
    }
    assert(hash_prefix(b, 3) == 0x56d0b41944429590u64) by {
        assert(fnv1a_byte_arith(0x08c82d07b56aac40u64, 112u8) == 0x56d0b41944429590u64) by (nonlinear_arith);
        lemma_fnv1a_next(b, 2, 0x08c82d07b56aac40u64, 112u8);
    }
    assert(hash_prefix(b, 4) == 0xc737d5eefd248ebdu64) by {
        assert(fnv1a_byte_arith(0x56d0b41944429590u64, 95u8) == 0xc737d5eefd248ebdu64) by (nonlinear_arith);
        lemma_fnv1a_next(b, 3, 0x56d0b41944429590u64, 95u8);
    }
    assert(hash_prefix(b, 5) == 0xa86f5d18251eb908u64) by {
        assert(fnv1a_byte_arith(0xc737d5eefd248ebdu64, 101u8) == 0xa86f5d18251eb908u64) by (nonlinear_arith);
        lemma_fnv1a_next(b, 4, 0xc737d5eefd248ebdu64, 101u8);
    }
    assert(hash_prefix(b, 6) == 0x53f4aa0713352a4eu64) by {
        assert(fnv1a_byte_arith(0xa86f5d18251eb908u64, 114u8) == 0x53f4aa0713352a4eu64) by (nonlinear_arith);
        lemma_fnv1a_next(b, 5, 0xa86f5d18251eb908u64, 114u8);
    }
    assert(hash_prefix(b, 7) == 0xdde72605a356c3f4u64) by {
        assert(fnv1a_byte_arith(0x53f4aa0713352a4eu64, 114u8) == 0xdde72605a356c3f4u64) by (nonlinear_arith);
        lemma_fnv1a_next(b, 6, 0x53f4aa0713352a4eu64, 114u8);
    }
    assert(hash_prefix(b, 8) == 0x668936948c6e6061u64) by {
        assert(fnv1a_byte_arith(0xdde72605a356c3f4u64, 111u8) == 0x668936948c6e6061u64) by (nonlinear_arith);
        lemma_fnv1a_next(b, 7, 0xdde72605a356c3f4u64, 111u8);
    }
    assert(hash_prefix(b, 9) == 0xa987d16a9f8d4049u64) by {
        assert(fnv1a_byte_arith(0x668936948c6e6061u64, 114u8) == 0xa987d16a9f8d4049u64) by (nonlinear_arith);
        lemma_fnv1a_next(b, 8, 0x668936948c6e6061u64, 114u8);
    }
    assert(hash_prefix(b, 10) == 0x9f09122d1d04228eu64) by {
        assert(fnv1a_byte_arith(0xa987d16a9f8d4049u64, 115u8) == 0x9f09122d1d04228eu64) by (nonlinear_arith);
        lemma_fnv1a_next(b, 9, 0xa987d16a9f8d4049u64, 115u8);
    }
    assert(hash_prefix(b, 11) == 0x408cb3a84e072923u64) by {
        assert(fnv1a_byte_arith(0x9f09122d1d04228eu64, 95u8) == 0x408cb3a84e072923u64) by (nonlinear_arith);
        lemma_fnv1a_next(b, 10, 0x9f09122d1d04228eu64, 95u8);
    }
    assert(hash_prefix(b, 12) == 0xb63e9dfc962b3ed5u64) by {
        assert(fnv1a_byte_arith(0x408cb3a84e072923u64, 116u8) == 0xb63e9dfc962b3ed5u64) by (nonlinear_arith);
        lemma_fnv1a_next(b, 11, 0x408cb3a84e072923u64, 116u8);
    }
    assert(hash_prefix(b, 13) == 0xd7a52e332b7b960eu64) by {
        assert(fnv1a_byte_arith(0xb63e9dfc962b3ed5u64, 111u8) == 0xd7a52e332b7b960eu64) by (nonlinear_arith);
        lemma_fnv1a_next(b, 12, 0xb63e9dfc962b3ed5u64, 111u8);
    }
    assert(hash_prefix(b, 14) == 0xe943faf2e300b14eu64) by {
        assert(fnv1a_byte_arith(0xd7a52e332b7b960eu64, 116u8) == 0xe943faf2e300b14eu64) by (nonlinear_arith);
        lemma_fnv1a_next(b, 13, 0xd7a52e332b7b960eu64, 116u8);
    }
    assert(hash_prefix(b, 15) == 0x5f3499b7ba2d12ddu64) by {
        assert(fnv1a_byte_arith(0xe943faf2e300b14eu64, 97u8) == 0x5f3499b7ba2d12ddu64) by (nonlinear_arith);
        lemma_fnv1a_next(b, 14, 0xe943faf2e300b14eu64, 97u8);
    }
    assert(hash_prefix(b, 16) == 0xf373e4315a96c2c3u64) by {
        assert(fnv1a_byte_arith(0x5f3499b7ba2d12ddu64, 108u8) == 0xf373e4315a96c2c3u64) by (nonlinear_arith);
        lemma_fnv1a_next(b, 15, 0x5f3499b7ba2d12ddu64, 108u8);
    }
    assert(hash_prefix(b, 17) == 0x44aefbdcee2c0bf4u64) by {
        assert(fnv1a_byte_arith(0xf373e4315a96c2c3u64, 255u8) == 0x44aefbdcee2c0bf4u64) by (nonlinear_arith);
        lemma_fnv1a_next(b, 16, 0xf373e4315a96c2c3u64, 255u8);
    }
    lemma_hash_prefix_all(b);
}

/// The bytes that the descriptor id of `tcp_connection_duration_seconds` hashes.
proof fn lemma_bytes_tcp_connection_duration_seconds()
    ensures
        descriptor_id("tcp_connection_duration_seconds"@) == fnv1a(seq![116u8, 99u8, 112u8, 95u8, 99u8, 111u8, 110u8, 110u8, 101u8, 99u8, 116u8, 105u8, 111u8, 110u8, 95u8, 100u8, 117u8, 114u8, 97u8, 116u8, 105u8, 111u8, 110u8, 95u8, 115u8, 101u8, 99u8, 111u8, 110u8, 100u8, 115u8, 255u8]),
{
    reveal_strlit("tcp_connection_duration_seconds");
    lemma_ascii_descriptor_bytes("tcp_connection_duration_seconds"@, seq![116u8, 99u8, 112u8, 95u8, 99u8, 111u8, 110u8, 110u8, 101u8, 99u8, 116u8, 105u8, 111u8, 110u8, 95u8, 100u8, 117u8, 114u8, 97u8, 116u8, 105u8, 111u8, 110u8, 95u8, 115u8, 101u8, 99u8, 111u8, 110u8, 100u8, 115u8, 255u8]);
}

/// The hash of the bytes of `tcp_connection_duration_seconds`.
#[verifier::spinoff_prover]
proof fn lemma_hash_tcp_connection_duration_seconds(b: Seq<u8>)
    requires
        b.len() == 32,
        b[0] == 116u8,
        b[1] == 99u8,
        b[2] == 112u8,
        b[3] == 95u8,
        b[4] == 99u8,
        b[5] == 111u8,
        b[6] == 110u8,
        b[7] == 110u8,
        b[8] == 101u8,
        b[9] == 99u8,
        b[10] == 116u8,
        b[11] == 105u8,
        b[12] == 111u8,
        b[13] == 110u8,
        b[14] == 95u8,
        b[15] == 100u8,
        b[16] == 117u8,
        b[17] == 114u8,
        b[18] == 97u8,
        b[19] == 116u8,
        b[20] == 105u8,
        b[21] == 111u8,
        b[22] == 110u8,
        b[23] == 95u8,
        b[24] == 115u8,
        b[25] == 101u8,
        b[26] == 99u8,
        b[27] == 111u8,
        b[28] == 110u8,
        b[29] == 100u8,
        b[30] == 115u8,
        b[31] == 255u8,
    ensures
        fnv1a(b) == 0xda924ad69c35c32du64,
{
    lemma_fnv1a_empty(b);
    assert(hash_prefix(b, 1) == 0xaf63e94c860202a3u64) by {
        assert(fnv1a_byte_arith(0xcbf29ce484222325u64, 116u8) == 0xaf63e94c860202a3u64) by (nonlinear_arith);
        lemma_fnv1a_next(b, 0, 0xcbf29ce484222325u64, 116u8);
    }
    assert(hash_prefix(b, 2) == 0x08c82d07b56aac40u64) by {
        assert(fnv1a_byte_arith(0xaf63e94c860202a3u64, 99u8) == 0x08c82d07b56aac40u64) by (nonlinear_arith);
        lemma_fnv1a_next(b, 1, 0xaf63e94c860202a3u64, 99u8);
    }
    assert(hash_prefix(b, 3) == 0x56d0b41944429590u64) by {
        assert(fnv1a_byte_arith(0x08c82d07b56aac40u64, 112u8) == 0x56d0b41944429590u64) by (nonlinear_arith);
        lemma_fnv1a_next(b, 2, 0x08c82d07b56aac40u64, 112u8);
    }
    assert(hash_prefix(b, 4) == 0xc737d5eefd248ebdu64) by {
        assert(fnv1a_byte_arith(0x56d0b41944429590u64, 95u8) == 0xc737d5eefd248ebdu64) by (nonlinear_arith);
        lemma_fnv1a_next(b, 3, 0x56d0b41944429590u64, 95u8);
    }
    assert(hash_prefix(b, 5) == 0xa86f6318251ec33au64) by {
        assert(fnv1a_byte_arith(0xc737d5eefd248ebdu64, 99u8) == 0xa86f6318251ec33au64) by (nonlinear_arith);
        lemma_fnv1a_next(b, 4, 0xc737d5eefd248ebdu64, 99u8);
    }
    assert(hash_prefix(b, 6) == 0x5408b7071345e96fu64) by {
        assert(fnv1a_byte_arith(0xa86f6318251ec33au64, 111u8) == 0x5408b7071345e96fu64) by (nonlinear_arith);
        lemma_fnv1a_next(b, 5, 0xa86f6318251ec33au64, 111u8);
    }
    assert(hash_prefix(b, 7) == 0x10b80205bfcaecb3u64) by {
        assert(fnv1a_byte_arith(0x5408b7071345e96fu64, 110u8) == 0x10b80205bfcaecb3u64) by (nonlinear_arith);
        lemma_fnv1a_next(b, 6, 0x5408b7071345e96fu64, 110u8);
    }
    assert(hash_prefix(b, 8) == 0x33984cc4e5d07b87u64) by {
        assert(fnv1a_byte_arith(0x10b80205bfcaecb3u64, 110u8) == 0x33984cc4e5d07b87u64) by (nonlinear_arith);
        lemma_fnv1a_next(b, 7, 0x10b80205bfcaecb3u64, 110u8);
    }
    assert(hash_prefix(b, 9) == 0x7c46549281428106u64) by {
        assert(fnv1a_byte_arith(0x33984cc4e5d07b87u64, 101u8) == 0x7c46549281428106u64) by (nonlinear_arith);
        lemma_fnv1a_next(b, 8, 0x33984cc4e5d07b87u64, 101u8);
    }
    assert(hash_prefix(b, 10) == 0x6e0319f1a401de9fu64) by {
        assert(fnv1a_byte_arith(0x7c46549281428106u64, 99u8) == 0x6e0319f1a401de9fu64) by (nonlinear_arith);
        lemma_fnv1a_next(b, 9, 0x7c46549281428106u64, 99u8);
    }
    assert(hash_prefix(b, 11) == 0xf1240099af2dc951u64) by {
        assert(fnv1a_byte_arith(0x6e0319f1a401de9fu64, 116u8) == 0xf1240099af2dc951u64) by (nonlinear_arith);
        lemma_fnv1a_next(b, 10, 0x6e0319f1a401de9fu64, 116u8);
    }
    assert(hash_prefix(b, 12) == 0xedf63d24aaccea28u64) by {
        assert(fnv1a_byte_arith(0xf1240099af2dc951u64, 105u8) == 0xedf63d24aaccea28u64) by (nonlinear_arith);
        lemma_fnv1a_next(b, 11, 0xf1240099af2dc951u64, 105u8);
    }
    assert(hash_prefix(b, 13) == 0x26542c4e3a3216a5u64) by {
        assert(fnv1a_byte_arith(0xedf63d24aaccea28u64, 111u8) == 0x26542c4e3a3216a5u64) by (nonlinear_arith);
        lemma_fnv1a_next(b, 12, 0xedf63d24aaccea28u64, 111u8);
    }
    assert(hash_prefix(b, 14) == 0x531e13ece31cbaf1u64) by {
        assert(fnv1a_byte_arith(0x26542c4e3a3216a5u64, 110u8) == 0x531e13ece31cbaf1u64) by (nonlinear_arith);
        lemma_fnv1a_next(b, 13, 0x26542c4e3a3216a5u64, 110u8);
    }
    assert(hash_prefix(b, 15) == 0x58d68985e9d135aau64) by {
        assert(fnv1a_byte_arith(0x531e13ece31cbaf1u64, 95u8) == 0x58d68985e9d135aau64) by (nonlinear_arith);
        lemma_fnv1a_next(b, 14, 0x531e13ece31cbaf1u64, 95u8);
    }
    assert(hash_prefix(b, 16) == 0xc5c17c8c4e7e6d0au64) by {
        assert(fnv1a_byte_arith(0x58d68985e9d135aau64, 100u8) == 0xc5c17c8c4e7e6d0au64) by (nonlinear_arith);
        lemma_fnv1a_next(b, 15, 0x58d68985e9d135aau64, 100u8);
    }
    assert(hash_prefix(b, 17) == 0x8634216960d40ecdu64) by {
        assert(fnv1a_byte_arith(0xc5c17c8c4e7e6d0au64, 117u8) == 0x8634216960d40ecdu64) by (nonlinear_arith);
        lemma_fnv1a_next(b, 16, 0xc5c17c8c4e7e6d0au64, 117u8);
    }
    assert(hash_prefix(b, 18) == 0xdea3850f88550e8du64) by {
        assert(fnv1a_byte_arith(0x8634216960d40ecdu64, 114u8) == 0xdea3850f88550e8du64) by (nonlinear_arith);
        lemma_fnv1a_next(b, 17, 0x8634216960d40ecdu64, 114u8);
    }
    assert(hash_prefix(b, 19) == 0xa4ea0564a8885b04u64) by {
        assert(fnv1a_byte_arith(0xdea3850f88550e8du64, 97u8) == 0xa4ea0564a8885b04u64) by (nonlinear_arith);
        lemma_fnv1a_next(b, 18, 0xdea3850f88550e8du64, 97u8);
    }
    assert(hash_prefix(b, 20) == 0xc2029a0a5fb35f50u64) by {
        assert(fnv1a_byte_arith(0xa4ea0564a8885b04u64, 116u8) == 0xc2029a0a5fb35f50u64) by (nonlinear_arith);
        lemma_fnv1a_next(b, 19, 0xa4ea0564a8885b04u64, 116u8);
    }
    assert(hash_prefix(b, 21) == 0x5dcaf8a09dcacddbu64) by {
        assert(fnv1a_byte_arith(0xc2029a0a5fb35f50u64, 105u8) == 0x5dcaf8a09dcacddbu64) by (nonlinear_arith);
        lemma_fnv1a_next(b, 20, 0xc2029a0a5fb35f50u64, 105u8);
    }
    assert(hash_prefix(b, 22) == 0x2ab22cec1f9b88dcu64) by {
        assert(fnv1a_byte_arith(0x5dcaf8a09dcacddbu64, 111u8) == 0x2ab22cec1f9b88dcu64) by (nonlinear_arith);
        lemma_fnv1a_next(b, 21, 0x5dcaf8a09dcacddbu64, 111u8);
    }
    assert(hash_prefix(b, 23) == 0x284b0739b5494676u64) by {
        assert(fnv1a_byte_arith(0x2ab22cec1f9b88dcu64, 110u8) == 0x284b0739b5494676u64) by (nonlinear_arith);
        lemma_fnv1a_next(b, 22, 0x2ab22cec1f9b88dcu64, 110u8);
    }
    assert(hash_prefix(b, 24) == 0xc0c3700f0b8237abu64) by {
        assert(fnv1a_byte_arith(0x284b0739b5494676u64, 95u8) == 0xc0c3700f0b8237abu64) by (nonlinear_arith);
        lemma_fnv1a_next(b, 23, 0x284b0739b5494676u64, 95u8);
    }
    assert(hash_prefix(b, 25) == 0x0e4f41908e44e408u64) by {
        assert(fnv1a_byte_arith(0xc0c3700f0b8237abu64, 115u8) == 0x0e4f41908e44e408u64) by (nonlinear_arith);
        lemma_fnv1a_next(b, 24, 0xc0c3700f0b8237abu64, 115u8);
    }
    assert(hash_prefix(b, 26) == 0x9590d5a1bf102537u64) by {
        assert(fnv1a_byte_arith(0x0e4f41908e44e408u64, 101u8) == 0x9590d5a1bf102537u64) by (nonlinear_arith);
        lemma_fnv1a_next(b, 25, 0x0e4f41908e44e408u64, 101u8);
    }
    assert(hash_prefix(b, 27) == 0x354055d7a86f6dbcu64) by {
        assert(fnv1a_byte_arith(0x9590d5a1bf102537u64, 99u8) == 0x354055d7a86f6dbcu64) by (nonlinear_arith);
        lemma_fnv1a_next(b, 26, 0x9590d5a1bf102537u64, 99u8);
    }
    assert(hash_prefix(b, 28) == 0xebbfb07335579d89u64) by {
        assert(fnv1a_byte_arith(0x354055d7a86f6dbcu64, 111u8) == 0xebbfb07335579d89u64) by (nonlinear_arith);
        lemma_fnv1a_next(b, 27, 0x354055d7a86f6dbcu64, 111u8);
    }
    assert(hash_prefix(b, 29) == 0xee56bac3a3e14f85u64) by {
        assert(fnv1a_byte_arith(0xebbfb07335579d89u64, 110u8) == 0xee56bac3a3e14f85u64) by (nonlinear_arith);
        lemma_fnv1a_next(b, 28, 0xebbfb07335579d89u64, 110u8);
    }
    assert(hash_prefix(b, 30) == 0xdeaf3b6f77dabb53u64) by {
        assert(fnv1a_byte_arith(0xee56bac3a3e14f85u64, 100u8) == 0xdeaf3b6f77dabb53u64) by (nonlinear_arith);
        lemma_fnv1a_next(b, 29, 0xee56bac3a3e14f85u64, 100u8);
    }
    assert(hash_prefix(b, 31) == 0x3e7d1e68a8abf760u64) by {
        assert(fnv1a_byte_arith(0xdeaf3b6f77dabb53u64, 115u8) == 0x3e7d1e68a8abf760u64) by (nonlinear_arith);
        lemma_fnv1a_next(b, 30, 0xdeaf3b6f77dabb53u64, 115u8);
    }
    assert(hash_prefix(b, 32) == 0xda924ad69c35c32du64) by {
        assert(fnv1a_byte_arith(0x3e7d1e68a8abf760u64, 255u8) == 0xda924ad69c35c32du64) by (nonlinear_arith);
        lemma_fnv1a_next(b, 31, 0x3e7d1e68a8abf760u64, 255u8);
    }
    lemma_hash_prefix_all(b);
}

/// The bytes that the descriptor id of `udp_packets_sent_total` hashes.
proof fn lemma_bytes_udp_packets_sent_total()
    ensures
        descriptor_id("udp_packets_sent_total"@) == fnv1a(seq![117u8, 100u8, 112u8, 95u8, 112u8, 97u8, 99u8, 107u8, 101u8, 116u8, 115u8, 95u8, 115u8, 101u8, 110u8, 116u8, 95u8, 116u8, 111u8, 116u8, 97u8, 108u8, 255u8]),
{
    reveal_strlit("udp_packets_sent_total");
    lemma_ascii_descriptor_bytes("udp_packets_sent_total"@, seq![117u8, 100u8, 112u8, 95u8, 112u8, 97u8, 99u8, 107u8, 101u8, 116u8, 115u8, 95u8, 115u8, 101u8, 110u8, 116u8, 95u8, 116u8, 111u8, 116u8, 97u8, 108u8, 255u8]);
}

/// The hash of the bytes of `udp_packets_sent_total`.
#[verifier::spinoff_prover]
proof fn lemma_hash_udp_packets_sent_total(b: Seq<u8>)
    requires
        b.len() == 23,
        b[0] == 117u8,
        b[1] == 100u8,
        b[2] == 112u8,
        b[3] == 95u8,
        b[4] == 112u8,
        b[5] == 97u8,
        b[6] == 99u8,
        b[7] == 107u8,
        b[8] == 101u8,
        b[9] == 116u8,
        b[10] == 115u8,
        b[11] == 95u8,
        b[12] == 115u8,
        b[13] == 101u8,
        b[14] == 110u8,
        b[15] == 116u8,
        b[16] == 95u8,
        b[17] == 116u8,
        b[18] == 111u8,
        b[19] == 116u8,
        b[20] == 97u8,
        b[21] == 108u8,
        b[22] == 255u8,
    ensures
        fnv1a(b) == 0x02c7184943a52999u64,
{
    lemma_fnv1a_empty(b);
    assert(hash_prefix(b, 1) == 0xaf63e84c860200f0u64) by {
        assert(fnv1a_byte_arith(0xcbf29ce484222325u64, 117u8) == 0xaf63e84c860200f0u64) by (nonlinear_arith);
        lemma_fnv1a_next(b, 0, 0xcbf29ce484222325u64, 117u8);
    }
    assert(hash_prefix(b, 2) == 0x08c44e07b566fb7cu64) by {
        assert(fnv1a_byte_arith(0xaf63e84c860200f0u64, 100u8) == 0x08c44e07b566fb7cu64) by (nonlinear_arith);
        lemma_fnv1a_next(b, 1, 0xaf63e84c860200f0u64, 100u8);
    }
    assert(hash_prefix(b, 3) == 0x4c8ba3193dfc9564u64) by {
        assert(fnv1a_byte_arith(0x08c44e07b566fb7cu64, 112u8) == 0x4c8ba3193dfc9564u64) by (nonlinear_arith);
        lemma_fnv1a_next(b, 2, 0x08c44e07b566fb7cu64, 112u8);
    }
    assert(hash_prefix(b, 4) == 0x0ddb5ee454319341u64) by {
        assert(fnv1a_byte_arith(0x4c8ba3193dfc9564u64, 95u8) == 0x0ddb5ee454319341u64) by (nonlinear_arith);
        lemma_fnv1a_next(b, 3, 0x4c8ba3193dfc9564u64, 95u8);
    }
    assert(hash_prefix(b, 5) == 0xbd556efb103d1c43u64) by {
        assert(fnv1a_byte_arith(0x0ddb5ee454319341u64, 112u8) == 0xbd556efb103d1c43u64) by (nonlinear_arith);
        lemma_fnv1a_next(b, 4, 0x0ddb5ee454319341u64, 112u8);
    }
    assert(hash_prefix(b, 6) == 0xf547b69c97d6cdc6u64) by {
        assert(fnv1a_byte_arith(0xbd556efb103d1c43u64, 97u8) == 0xf547b69c97d6cdc6u64) by (nonlinear_arith);
        lemma_fnv1a_next(b, 5, 0xbd556efb103d1c43u64, 97u8);
    }
    assert(hash_prefix(b, 7) == 0x9fa8f11601ff6f5fu64) by {
        assert(fnv1a_byte_arith(0xf547b69c97d6cdc6u64, 99u8) == 0x9fa8f11601ff6f5fu64) by (nonlinear_arith);
        lemma_fnv1a_next(b, 6, 0xf547b69c97d6cdc6u64, 99u8);
    }
    assert(hash_prefix(b, 8) == 0x4b80dc656509f55cu64) by {
        assert(fnv1a_byte_arith(0x9fa8f11601ff6f5fu64, 107u8) == 0x4b80dc656509f55cu64) by (nonlinear_arith);
        lemma_fnv1a_next(b, 7, 0x9fa8f11601ff6f5fu64, 107u8);
    }
    assert(hash_prefix(b, 9) == 0x55ebb94aafebafdbu64) by {
        assert(fnv1a_byte_arith(0x4b80dc656509f55cu64, 101u8) == 0x55ebb94aafebafdbu64) by (nonlinear_arith);
        lemma_fnv1a_next(b, 8, 0x4b80dc656509f55cu64, 101u8);
    }
    assert(hash_prefix(b, 10) == 0xeb3b88e8ed7b865du64) by {
        assert(fnv1a_byte_arith(0x55ebb94aafebafdbu64, 116u8) == 0xeb3b88e8ed7b865du64) by (nonlinear_arith);
        lemma_fnv1a_next(b, 9, 0x55ebb94aafebafdbu64, 116u8);
    }
    assert(hash_prefix(b, 11) == 0x31afd1cb88e5002au64) by {
        assert(fnv1a_byte_arith(0xeb3b88e8ed7b865du64, 115u8) == 0x31afd1cb88e5002au64) by (nonlinear_arith);
        lemma_fnv1a_next(b, 10, 0xeb3b88e8ed7b865du64, 115u8);
    }
    assert(hash_prefix(b, 12) == 0x52c1f1d99d1fc6cfu64) by {
        assert(fnv1a_byte_arith(0x31afd1cb88e5002au64, 95u8) == 0x52c1f1d99d1fc6cfu64) by (nonlinear_arith);
        lemma_fnv1a_next(b, 11, 0x31afd1cb88e5002au64, 95u8);
    }
    assert(hash_prefix(b, 13) == 0xbf54b0c5fcfeb174u64) by {
        assert(fnv1a_byte_arith(0x52c1f1d99d1fc6cfu64, 115u8) == 0xbf54b0c5fcfeb174u64) by (nonlinear_arith);
        lemma_fnv1a_next(b, 12, 0x52c1f1d99d1fc6cfu64, 115u8);
    }
    assert(hash_prefix(b, 14) == 0x1b99716ce4c6dfe3u64) by {
        assert(fnv1a_byte_arith(0xbf54b0c5fcfeb174u64, 101u8) == 0x1b99716ce4c6dfe3u64) by (nonlinear_arith);
        lemma_fnv1a_next(b, 13, 0xbf54b0c5fcfeb174u64, 101u8);
    }
    assert(hash_prefix(b, 15) == 0xac9b4908bdeddc97u64) by {
        assert(fnv1a_byte_arith(0x1b99716ce4c6dfe3u64, 110u8) == 0xac9b4908bdeddc97u64) by (nonlinear_arith);
        lemma_fnv1a_next(b, 14, 0x1b99716ce4c6dfe3u64, 110u8);
    }
    assert(hash_prefix(b, 16) == 0x39b9fcdabb2e55b9u64) by {
        assert(fnv1a_byte_arith(0xac9b4908bdeddc97u64, 116u8) == 0x39b9fcdabb2e55b9u64) by (nonlinear_arith);
        lemma_fnv1a_next(b, 15, 0xac9b4908bdeddc97u64, 116u8);
    }
    assert(hash_prefix(b, 17) == 0x455e8dac0fbbf5d2u64) by {
        assert(fnv1a_byte_arith(0x39b9fcdabb2e55b9u64, 95u8) == 0x455e8dac0fbbf5d2u64) by (nonlinear_arith);
        lemma_fnv1a_next(b, 16, 0x39b9fcdabb2e55b9u64, 95u8);
    }
    assert(hash_prefix(b, 18) == 0x9ba0615ebc626912u64) by {
        assert(fnv1a_byte_arith(0x455e8dac0fbbf5d2u64, 116u8) == 0x9ba0615ebc626912u64) by (nonlinear_arith);
        lemma_fnv1a_next(b, 17, 0x455e8dac0fbbf5d2u64, 116u8);
    }
    assert(hash_prefix(b, 19) == 0xd3eef0fa1b393f67u64) by {
        assert(fnv1a_byte_arith(0x9ba0615ebc626912u64, 111u8) == 0xd3eef0fa1b393f67u64) by (nonlinear_arith);
        lemma_fnv1a_next(b, 18, 0x9ba0615ebc626912u64, 111u8);
    }
    assert(hash_prefix(b, 20) == 0x58428bfc42462d49u64) by {
        assert(fnv1a_byte_arith(0xd3eef0fa1b393f67u64, 116u8) == 0x58428bfc42462d49u64) by (nonlinear_arith);
        lemma_fnv1a_next(b, 19, 0xd3eef0fa1b393f67u64, 116u8);
    }
    assert(hash_prefix(b, 21) == 0x3f4105a49d3ebaf8u64) by {
        assert(fnv1a_byte_arith(0x58428bfc42462d49u64, 97u8) == 0x3f4105a49d3ebaf8u64) by (nonlinear_arith);
        lemma_fnv1a_next(b, 20, 0x58428bfc42462d49u64, 97u8);
    }
    assert(hash_prefix(b, 22) == 0xba372ab73197097cu64) by {
        assert(fnv1a_byte_arith(0x3f4105a49d3ebaf8u64, 108u8) == 0xba372ab73197097cu64) by (nonlinear_arith);
        lemma_fnv1a_next(b, 21, 0x3f4105a49d3ebaf8u64, 108u8);
    }
    assert(hash_prefix(b, 23) == 0x02c7184943a52999u64) by {
        assert(fnv1a_byte_arith(0xba372ab73197097cu64, 255u8) == 0x02c7184943a52999u64) by (nonlinear_arith);
        lemma_fnv1a_next(b, 22, 0xba372ab73197097cu64, 255u8);
    }
    lemma_hash_prefix_all(b);
}

/// The bytes that the descriptor id of `udp_packets_received_total` hashes.
proof fn lemma_bytes_udp_packets_received_total()
    ensures
        descriptor_id("udp_packets_received_total"@) == fnv1a(seq![117u8, 100u8, 112u8, 95u8, 112u8, 97u8, 99u8, 107u8, 101u8, 116u8, 115u8, 95u8, 114u8, 101u8, 99u8, 101u8, 105u8, 118u8, 101u8, 100u8, 95u8, 116u8, 111u8, 116u8, 97u8, 108u8, 255u8]),
{
    reveal_strlit("udp_packets_received_total");
    lemma_ascii_descriptor_bytes("udp_packets_received_total"@, seq![117u8, 100u8, 112u8, 95u8, 112u8, 97u8, 99u8, 107u8, 101u8, 116u8, 115u8, 95u8, 114u8, 101u8, 99u8, 101u8, 105u8, 118u8, 101u8, 100u8, 95u8, 116u8, 111u8, 116u8, 97u8, 108u8, 255u8]);
}

/// The hash of the bytes of `udp_packets_received_total`.
#[verifier::spinoff_prover]
proof fn lemma_hash_udp_packets_received_total(b: Seq<u8>)
    requires
        b.len() == 27,
        b[0] == 117u8,
        b[1] == 100u8,
        b[2] == 112u8,
        b[3] == 95u8,
        b[4] == 112u8,
        b[5] == 97u8,
        b[6] == 99u8,
        b[7] == 107u8,
        b[8] == 101u8,
        b[9] == 116u8,
        b[10] == 115u8,
        b[11] == 95u8,
        b[12] == 114u8,
        b[13] == 101u8,
        b[14] == 99u8,
        b[15] == 101u8,
        b[16] == 105u8,
        b[17] == 118u8,
        b[18] == 101u8,
        b[19] == 100u8,
        b[20] == 95u8,
        b[21] == 116u8,
        b[22] == 111u8,
        b[23] == 116u8,
        b[24] == 97u8,
        b[25] == 108u8,
        b[26] == 255u8,
    ensures
        fnv1a(b) == 0x68dbf347208a29deu64,
{
    lemma_fnv1a_empty(b);
    assert(hash_prefix(b, 1) == 0xaf63e84c860200f0u64) by {
        assert(fnv1a_byte_arith(0xcbf29ce484222325u64, 117u8) == 0xaf63e84c860200f0u64) by (nonlinear_arith);
        lemma_fnv1a_next(b, 0, 0xcbf29ce484222325u64, 117u8);
    }
    assert(hash_prefix(b, 2) == 0x08c44e07b566fb7cu64) by {
        assert(fnv1a_byte_arith(0xaf63e84c860200f0u64, 100u8) == 0x08c44e07b566fb7cu64) by (nonlinear_arith);
        lemma_fnv1a_next(b, 1, 0xaf63e84c860200f0u64, 100u8);
    }
    assert(hash_prefix(b, 3) == 0x4c8ba3193dfc9564u64) by {
        assert(fnv1a_byte_arith(0x08c44e07b566fb7cu64, 112u8) == 0x4c8ba3193dfc9564u64) by (nonlinear_arith);
        lemma_fnv1a_next(b, 2, 0x08c44e07b566fb7cu64, 112u8);
    }
    assert(hash_prefix(b, 4) == 0x0ddb5ee454319341u64) by {
        assert(fnv1a_byte_arith(0x4c8ba3193dfc9564u64, 95u8) == 0x0ddb5ee454319341u64) by (nonlinear_arith);
        lemma_fnv1a_next(b, 3, 0x4c8ba3193dfc9564u64, 95u8);
    }
    assert(hash_prefix(b, 5) == 0xbd556efb103d1c43u64) by {
        assert(fnv1a_byte_arith(0x0ddb5ee454319341u64, 112u8) == 0xbd556efb103d1c43u64) by (nonlinear_arith);
        lemma_fnv1a_next(b, 4, 0x0ddb5ee454319341u64, 112u8);
    }
    assert(hash_prefix(b, 6) == 0xf547b69c97d6cdc6u64) by {
        assert(fnv1a_byte_arith(0xbd556efb103d1c43u64, 97u8) == 0xf547b69c97d6cdc6u64) by (nonlinear_arith);
        lemma_fnv1a_next(b, 5, 0xbd556efb103d1c43u64, 97u8);
    }
    assert(hash_prefix(b, 7) == 0x9fa8f11601ff6f5fu64) by {
        assert(fnv1a_byte_arith(0xf547b69c97d6cdc6u64, 99u8) == 0x9fa8f11601ff6f5fu64) by (nonlinear_arith);
        lemma_fnv1a_next(b, 6, 0xf547b69c97d6cdc6u64, 99u8);
    }
    assert(hash_prefix(b, 8) == 0x4b80dc656509f55cu64) by {
        assert(fnv1a_byte_arith(0x9fa8f11601ff6f5fu64, 107u8) == 0x4b80dc656509f55cu64) by (nonlinear_arith);
        lemma_fnv1a_next(b, 7, 0x9fa8f11601ff6f5fu64, 107u8);
    }
    assert(hash_prefix(b, 9) == 0x55ebb94aafebafdbu64) by {
        assert(fnv1a_byte_arith(0x4b80dc656509f55cu64, 101u8) == 0x55ebb94aafebafdbu64) by (nonlinear_arith);
        lemma_fnv1a_next(b, 8, 0x4b80dc656509f55cu64, 101u8);
    }
    assert(hash_prefix(b, 10) == 0xeb3b88e8ed7b865du64) by {
        assert(fnv1a_byte_arith(0x55ebb94aafebafdbu64, 116u8) == 0xeb3b88e8ed7b865du64) by (nonlinear_arith);
        lemma_fnv1a_next(b, 9, 0x55ebb94aafebafdbu64, 116u8);
    }
    assert(hash_prefix(b, 11) == 0x31afd1cb88e5002au64) by {
        assert(fnv1a_byte_arith(0xeb3b88e8ed7b865du64, 115u8) == 0x31afd1cb88e5002au64) by (nonlinear_arith);
        lemma_fnv1a_next(b, 10, 0xeb3b88e8ed7b865du64, 115u8);
    }
    assert(hash_prefix(b, 12) == 0x52c1f1d99d1fc6cfu64) by {
        assert(fnv1a_byte_arith(0x31afd1cb88e5002au64, 95u8) == 0x52c1f1d99d1fc6cfu64) by (nonlinear_arith);
        lemma_fnv1a_next(b, 11, 0x31afd1cb88e5002au64, 95u8);
    }
    assert(hash_prefix(b, 13) == 0xbf54b1c5fcfeb327u64) by {
        assert(fnv1a_byte_arith(0x52c1f1d99d1fc6cfu64, 114u8) == 0xbf54b1c5fcfeb327u64) by (nonlinear_arith);
        lemma_fnv1a_next(b, 12, 0x52c1f1d99d1fc6cfu64, 114u8);
    }
    assert(hash_prefix(b, 14) == 0x1b9d556ce4ca9926u64) by {
        assert(fnv1a_byte_arith(0xbf54b1c5fcfeb327u64, 101u8) == 0x1b9d556ce4ca9926u64) by (nonlinear_arith);
        lemma_fnv1a_next(b, 13, 0xbf54b1c5fcfeb327u64, 101u8);
    }
    assert(hash_prefix(b, 15) == 0xb6f16d08c442703fu64) by {
        assert(fnv1a_byte_arith(0x1b9d556ce4ca9926u64, 99u8) == 0xb6f16d08c442703fu64) by (nonlinear_arith);
        lemma_fnv1a_next(b, 14, 0x1b9d556ce4ca9926u64, 99u8);
    }
    assert(hash_prefix(b, 16) == 0x1eac9fe57ce4e8eeu64) by {
        assert(fnv1a_byte_arith(0xb6f16d08c442703fu64, 101u8) == 0x1eac9fe57ce4e8eeu64) by (nonlinear_arith);
        lemma_fnv1a_next(b, 15, 0xb6f16d08c442703fu64, 101u8);
    }
    assert(hash_prefix(b, 17) == 0x043c39f338f71d65u64) by {
        assert(fnv1a_byte_arith(0x1eac9fe57ce4e8eeu64, 105u8) == 0x043c39f338f71d65u64) by (nonlinear_arith);
        lemma_fnv1a_next(b, 16, 0x1eac9fe57ce4e8eeu64, 105u8);
    }
    assert(hash_prefix(b, 18) == 0x29738b49cbe66749u64) by {
        assert(fnv1a_byte_arith(0x043c39f338f71d65u64, 118u8) == 0x29738b49cbe66749u64) by (nonlinear_arith);
        lemma_fnv1a_next(b, 17, 0x043c39f338f71d65u64, 118u8);
    }
    assert(hash_prefix(b, 19) == 0x55bcda6578814fc4u64) by {
        assert(fnv1a_byte_arith(0x29738b49cbe66749u64, 101u8) == 0x55bcda6578814fc4u64) by (nonlinear_arith);
        lemma_fnv1a_next(b, 18, 0x29738b49cbe66749u64, 101u8);
    }
    assert(hash_prefix(b, 20) == 0x3136ba6bc3ba4ce0u64) by {
        assert(fnv1a_byte_arith(0x55bcda6578814fc4u64, 100u8) == 0x3136ba6bc3ba4ce0u64) by (nonlinear_arith);
        lemma_fnv1a_next(b, 19, 0x55bcda6578814fc4u64, 100u8);
    }
    assert(hash_prefix(b, 21) == 0x5a4b841d9590688du64) by {
        assert(fnv1a_byte_arith(0x3136ba6bc3ba4ce0u64, 95u8) == 0x5a4b841d9590688du64) by (nonlinear_arith);
        lemma_fnv1a_next(b, 20, 0x3136ba6bc3ba4ce0u64, 95u8);
    }
    assert(hash_prefix(b, 22) == 0xfeba774524625f1bu64) by {
        assert(fnv1a_byte_arith(0x5a4b841d9590688du64, 116u8) == 0xfeba774524625f1bu64) by (nonlinear_arith);
        lemma_fnv1a_next(b, 21, 0x5a4b841d9590688du64, 116u8);
    }
    assert(hash_prefix(b, 23) == 0x39381e7cd328321cu64) by {
        assert(fnv1a_byte_arith(0xfeba774524625f1bu64, 111u8) == 0x39381e7cd328321cu64) by (nonlinear_arith);
        lemma_fnv1a_next(b, 22, 0xfeba774524625f1bu64, 111u8);
    }
    assert(hash_prefix(b, 24) == 0x628e361acd4da6b8u64) by {
        assert(fnv1a_byte_arith(0x39381e7cd328321cu64, 116u8) == 0x628e361acd4da6b8u64) by (nonlinear_arith);
        lemma_fnv1a_next(b, 23, 0x39381e7cd328321cu64, 116u8);
    }
    assert(hash_prefix(b, 25) == 0xc54cc88adaf282bbu64) by {
        assert(fnv1a_byte_arith(0x628e361acd4da6b8u64, 97u8) == 0xc54cc88adaf282bbu64) by (nonlinear_arith);
        lemma_fnv1a_next(b, 24, 0x628e361acd4da6b8u64, 97u8);
    }
    assert(hash_prefix(b, 26) == 0x33fb9af20a145355u64) by {
        assert(fnv1a_byte_arith(0xc54cc88adaf282bbu64, 108u8) == 0x33fb9af20a145355u64) by (nonlinear_arith);
        lemma_fnv1a_next(b, 25, 0xc54cc88adaf282bbu64, 108u8);
    }
    assert(hash_prefix(b, 27) == 0x68dbf347208a29deu64) by {
        assert(fnv1a_byte_arith(0x33fb9af20a145355u64, 255u8) == 0x68dbf347208a29deu64) by (nonlinear_arith);
        lemma_fnv1a_next(b, 26, 0x33fb9af20a145355u64, 255u8);
    }
    lemma_hash_prefix_all(b);
}

/// The bytes that the descriptor id of `udp_bytes_sent_total` hashes.
proof fn lemma_bytes_udp_bytes_sent_total()
    ensures
        descriptor_id("udp_bytes_sent_total"@) == fnv1a(seq![117u8, 100u8, 112u8, 95u8, 98u8, 121u8, 116u8, 101u8, 115u8, 95u8, 115u8, 101u8, 110u8, 116u8, 95u8, 116u8, 111u8, 116u8, 97u8, 108u8, 255u8]),
{
    reveal_strlit("udp_bytes_sent_total");
    lemma_ascii_descriptor_bytes("udp_bytes_sent_total"@, seq![117u8, 100u8, 112u8, 95u8, 98u8, 121u8, 116u8, 101u8, 115u8, 95u8, 115u8, 101u8, 110u8, 116u8, 95u8, 116u8, 111u8, 116u8, 97u8, 108u8, 255u8]);
}

/// The hash of the bytes of `udp_bytes_sent_total`.
#[verifier::spinoff_prover]
proof fn lemma_hash_udp_bytes_sent_total(b: Seq<u8>)
    requires
        b.len() == 21,
        b[0] == 117u8,
        b[1] == 100u8,
        b[2] == 112u8,
        b[3] == 95u8,
        b[4] == 98u8,
        b[5] == 121u8,
        b[6] == 116u8,
        b[7] == 101u8,
        b[8] == 115u8,
        b[9] == 95u8,
        b[10] == 115u8,
        b[11] == 101u8,
        b[12] == 110u8,
        b[13] == 116u8,
        b[14] == 95u8,
        b[15] == 116u8,
        b[16] == 111u8,
        b[17] == 116u8,
        b[18] == 97u8,
        b[19] == 108u8,
        b[20] == 255u8,
    ensures
        fnv1a(b) == 0x9c0b6921c1cdf61fu64,
{
    lemma_fnv1a_empty(b);
    assert(hash_prefix(b, 1) == 0xaf63e84c860200f0u64) by {
        assert(fnv1a_byte_arith(0xcbf29ce484222325u64, 117u8) == 0xaf63e84c860200f0u64) by (nonlinear_arith);
        lemma_fnv1a_next(b, 0, 0xcbf29ce484222325u64, 117u8);
    }
    assert(hash_prefix(b, 2) == 0x08c44e07b566fb7cu64) by {
        assert(fnv1a_byte_arith(0xaf63e84c860200f0u64, 100u8) == 0x08c44e07b566fb7cu64) by (nonlinear_arith);
        lemma_fnv1a_next(b, 1, 0xaf63e84c860200f0u64, 100u8);
    }
    assert(hash_prefix(b, 3) == 0x4c8ba3193dfc9564u64) by {
        assert(fnv1a_byte_arith(0x08c44e07b566fb7cu64, 112u8) == 0x4c8ba3193dfc9564u64) by (nonlinear_arith);
        lemma_fnv1a_next(b, 2, 0x08c44e07b566fb7cu64, 112u8);
    }
    assert(hash_prefix(b, 4) == 0x0ddb5ee454319341u64) by {
        assert(fnv1a_byte_arith(0x4c8ba3193dfc9564u64, 95u8) == 0x0ddb5ee454319341u64) by (nonlinear_arith);
        lemma_fnv1a_next(b, 3, 0x4c8ba3193dfc9564u64, 95u8);
    }
    assert(hash_prefix(b, 5) == 0xbd5560fb103d0479u64) by {
        assert(fnv1a_byte_arith(0x0ddb5ee454319341u64, 98u8) == 0xbd5560fb103d0479u64) by (nonlinear_arith);
        lemma_fnv1a_next(b, 4, 0x0ddb5ee454319341u64, 98u8);
    }
    assert(hash_prefix(b, 6) == 0xf517ca9c97adcc00u64) by {
        assert(fnv1a_byte_arith(0xbd5560fb103d0479u64, 121u8) == 0xf517ca9c97adcc00u64) by (nonlinear_arith);
        lemma_fnv1a_next(b, 5, 0xbd5560fb103d0479u64, 121u8);
    }
    assert(hash_prefix(b, 7) == 0x2539bc15bc52691cu64) by {
        assert(fnv1a_byte_arith(0xf517ca9c97adcc00u64, 116u8) == 0x2539bc15bc52691cu64) by (nonlinear_arith);
        lemma_fnv1a_next(b, 6, 0xf517ca9c97adcc00u64, 116u8);
    }
    assert(hash_prefix(b, 8) == 0x938411ef0009389bu64) by {
        assert(fnv1a_byte_arith(0x2539bc15bc52691cu64, 101u8) == 0x938411ef0009389bu64) by (nonlinear_arith);
        lemma_fnv1a_next(b, 7, 0x2539bc15bc52691cu64, 101u8);
    }
    assert(hash_prefix(b, 9) == 0xb2a3611d0fabb238u64) by {
        assert(fnv1a_byte_arith(0x938411ef0009389bu64, 115u8) == 0xb2a3611d0fabb238u64) by (nonlinear_arith);
        lemma_fnv1a_next(b, 8, 0x938411ef0009389bu64, 115u8);
    }
    assert(hash_prefix(b, 10) == 0x37506b61a0c02505u64) by {
        assert(fnv1a_byte_arith(0xb2a3611d0fabb238u64, 95u8) == 0x37506b61a0c02505u64) by (nonlinear_arith);
        lemma_fnv1a_next(b, 9, 0xb2a3611d0fabb238u64, 95u8);
    }
    assert(hash_prefix(b, 11) == 0xbdcbece4267fa782u64) by {
        assert(fnv1a_byte_arith(0x37506b61a0c02505u64, 115u8) == 0xbdcbece4267fa782u64) by (nonlinear_arith);
        lemma_fnv1a_next(b, 10, 0x37506b61a0c02505u64, 115u8);
    }
    assert(hash_prefix(b, 12) == 0x012b6ead6aea4d85u64) by {
        assert(fnv1a_byte_arith(0xbdcbece4267fa782u64, 101u8) == 0x012b6ead6aea4d85u64) by (nonlinear_arith);
        lemma_fnv1a_next(b, 11, 0xbdcbece4267fa782u64, 101u8);
    }
    assert(hash_prefix(b, 13) == 0xe71afbacac226651u64) by {
        assert(fnv1a_byte_arith(0x012b6ead6aea4d85u64, 110u8) == 0xe71afbacac226651u64) by (nonlinear_arith);
        lemma_fnv1a_next(b, 12, 0x012b6ead6aea4d85u64, 110u8);
    }
    assert(hash_prefix(b, 14) == 0xd53fcb687e7390dfu64) by {
        assert(fnv1a_byte_arith(0xe71afbacac226651u64, 116u8) == 0xd53fcb687e7390dfu64) by (nonlinear_arith);
        lemma_fnv1a_next(b, 13, 0xe71afbacac226651u64, 116u8);
    }
    assert(hash_prefix(b, 15) == 0xcef7228ede5e8980u64) by {
        assert(fnv1a_byte_arith(0xd53fcb687e7390dfu64, 95u8) == 0xcef7228ede5e8980u64) by (nonlinear_arith);
        lemma_fnv1a_next(b, 14, 0xd53fcb687e7390dfu64, 95u8);
    }
    assert(hash_prefix(b, 16) == 0x0c79acc3daa4699cu64) by {
        assert(fnv1a_byte_arith(0xcef7228ede5e8980u64, 116u8) == 0x0c79acc3daa4699cu64) by (nonlinear_arith);
        lemma_fnv1a_next(b, 15, 0xcef7228ede5e8980u64, 116u8);
    }
    assert(hash_prefix(b, 17) == 0xd72a83cc856007e9u64) by {
        assert(fnv1a_byte_arith(0x0c79acc3daa4699cu64, 111u8) == 0xd72a83cc856007e9u64) by (nonlinear_arith);
        lemma_fnv1a_next(b, 16, 0x0c79acc3daa4699cu64, 111u8);
    }
    assert(hash_prefix(b, 18) == 0xfd459186a22cefc7u64) by {
        assert(fnv1a_byte_arith(0xd72a83cc856007e9u64, 116u8) == 0xfd459186a22cefc7u64) by (nonlinear_arith);
        lemma_fnv1a_next(b, 17, 0xd72a83cc856007e9u64, 116u8);
    }
    assert(hash_prefix(b, 19) == 0x8a25edc5925b3712u64) by {
        assert(fnv1a_byte_arith(0xfd459186a22cefc7u64, 97u8) == 0x8a25edc5925b3712u64) by (nonlinear_arith);
        lemma_fnv1a_next(b, 18, 0xfd459186a22cefc7u64, 97u8);
    }
    assert(hash_prefix(b, 20) == 0x19aa84b7b0ff4b1au64) by {
        assert(fnv1a_byte_arith(0x8a25edc5925b3712u64, 108u8) == 0x19aa84b7b0ff4b1au64) by (nonlinear_arith);
        lemma_fnv1a_next(b, 19, 0x8a25edc5925b3712u64, 108u8);
    }
    assert(hash_prefix(b, 21) == 0x9c0b6921c1cdf61fu64) by {
        assert(fnv1a_byte_arith(0x19aa84b7b0ff4b1au64, 255u8) == 0x9c0b6921c1cdf61fu64) by (nonlinear_arith);
        lemma_fnv1a_next(b, 20, 0x19aa84b7b0ff4b1au64, 255u8);
    }
    lemma_hash_prefix_all(b);
}

/// The bytes that the descriptor id of `udp_bytes_received_total` hashes.
proof fn lemma_bytes_udp_bytes_received_total()
    ensures
        descriptor_id("udp_bytes_received_total"@) == fnv1a(seq![117u8, 100u8, 112u8, 95u8, 98u8, 121u8, 116u8, 101u8, 115u8, 95u8, 114u8, 101u8, 99u8, 101u8, 105u8, 118u8, 101u8, 100u8, 95u8, 116u8, 111u8, 116u8, 97u8, 108u8, 255u8]),
{
    reveal_strlit("udp_bytes_received_total");
    lemma_ascii_descriptor_bytes("udp_bytes_received_total"@, seq![117u8, 100u8, 112u8, 95u8, 98u8, 121u8, 116u8, 101u8, 115u8, 95u8, 114u8, 101u8, 99u8, 101u8, 105u8, 118u8, 101u8, 100u8, 95u8, 116u8, 111u8, 116u8, 97u8, 108u8, 255u8]);
}

/// The hash of the bytes of `udp_bytes_received_total`.
#[verifier::spinoff_prover]
proof fn lemma_hash_udp_bytes_received_total(b: Seq<u8>)
    requires
        b.len() == 25,
        b[0] == 117u8,
        b[1] == 100u8,
        b[2] == 112u8,
        b[3] == 95u8,
        b[4] == 98u8,
        b[5] == 121u8,
        b[6] == 116u8,
        b[7] == 101u8,
        b[8] == 115u8,
        b[9] == 95u8,
        b[10] == 114u8,
        b[11] == 101u8,
        b[12] == 99u8,
        b[13] == 101u8,
        b[14] == 105u8,
        b[15] == 118u8,
        b[16] == 101u8,
        b[17] == 100u8,
        b[18] == 95u8,
        b[19] == 116u8,
        b[20] == 111u8,
        b[21] == 116u8,
        b[22] == 97u8,
        b[23] == 108u8,
        b[24] == 255u8,
    ensures
        fnv1a(b) == 0xb430421b54462ab0u64,
{
    lemma_fnv1a_empty(b);
    assert(hash_prefix(b, 1) == 0xaf63e84c860200f0u64) by {
        assert(fnv1a_byte_arith(0xcbf29ce484222325u64, 117u8) == 0xaf63e84c860200f0u64) by (nonlinear_arith);
        lemma_fnv1a_next(b, 0, 0xcbf29ce484222325u64, 117u8);
    }
    assert(hash_prefix(b, 2) == 0x08c44e07b566fb7cu64) by {
        assert(fnv1a_byte_arith(0xaf63e84c860200f0u64, 100u8) == 0x08c44e07b566fb7cu64) by (nonlinear_arith);
        lemma_fnv1a_next(b, 1, 0xaf63e84c860200f0u64, 100u8);
    }
    assert(hash_prefix(b, 3) == 0x4c8ba3193dfc9564u64) by {
        assert(fnv1a_byte_arith(0x08c44e07b566fb7cu64, 112u8) == 0x4c8ba3193dfc9564u64) by (nonlinear_arith);
        lemma_fnv1a_next(b, 2, 0x08c44e07b566fb7cu64, 112u8);
    }
    assert(hash_prefix(b, 4) == 0x0ddb5ee454319341u64) by {
        assert(fnv1a_byte_arith(0x4c8ba3193dfc9564u64, 95u8) == 0x0ddb5ee454319341u64) by (nonlinear_arith);
        lemma_fnv1a_next(b, 3, 0x4c8ba3193dfc9564u64, 95u8);
    }
    assert(hash_prefix(b, 5) == 0xbd5560fb103d0479u64) by {
        assert(fnv1a_byte_arith(0x0ddb5ee454319341u64, 98u8) == 0xbd5560fb103d0479u64) by (nonlinear_arith);
        lemma_fnv1a_next(b, 4, 0x0ddb5ee454319341u64, 98u8);
    }
    assert(hash_prefix(b, 6) == 0xf517ca9c97adcc00u64) by {
        assert(fnv1a_byte_arith(0xbd5560fb103d0479u64, 121u8) == 0xf517ca9c97adcc00u64) by (nonlinear_arith);
        lemma_fnv1a_next(b, 5, 0xbd5560fb103d0479u64, 121u8);
    }
    assert(hash_prefix(b, 7) == 0x2539bc15bc52691cu64) by {
        assert(fnv1a_byte_arith(0xf517ca9c97adcc00u64, 116u8) == 0x2539bc15bc52691cu64) by (nonlinear_arith);
        lemma_fnv1a_next(b, 6, 0xf517ca9c97adcc00u64, 116u8);
    }
    assert(hash_prefix(b, 8) == 0x938411ef0009389bu64) by {
        assert(fnv1a_byte_arith(0x2539bc15bc52691cu64, 101u8) == 0x938411ef0009389bu64) by (nonlinear_arith);
        lemma_fnv1a_next(b, 7, 0x2539bc15bc52691cu64, 101u8);
    }
    assert(hash_prefix(b, 9) == 0xb2a3611d0fabb238u64) by {
        assert(fnv1a_byte_arith(0x938411ef0009389bu64, 115u8) == 0xb2a3611d0fabb238u64) by (nonlinear_arith);
        lemma_fnv1a_next(b, 8, 0x938411ef0009389bu64, 115u8);
    }
    assert(hash_prefix(b, 10) == 0x37506b61a0c02505u64) by {
        assert(fnv1a_byte_arith(0xb2a3611d0fabb238u64, 95u8) == 0x37506b61a0c02505u64) by (nonlinear_arith);
        lemma_fnv1a_next(b, 9, 0xb2a3611d0fabb238u64, 95u8);
    }
    assert(hash_prefix(b, 11) == 0xbdcbede4267fa935u64) by {
        assert(fnv1a_byte_arith(0x37506b61a0c02505u64, 114u8) == 0xbdcbede4267fa935u64) by (nonlinear_arith);
        lemma_fnv1a_next(b, 10, 0x37506b61a0c02505u64, 114u8);
    }
    assert(hash_prefix(b, 12) == 0x012e8aad6aecb2f0u64) by {
        assert(fnv1a_byte_arith(0xbdcbede4267fa935u64, 101u8) == 0x012e8aad6aecb2f0u64) by (nonlinear_arith);
        lemma_fnv1a_next(b, 11, 0xbdcbede4267fa935u64, 101u8);
    }
    assert(hash_prefix(b, 13) == 0xeec837acb0336fc9u64) by {
        assert(fnv1a_byte_arith(0x012e8aad6aecb2f0u64, 99u8) == 0xeec837acb0336fc9u64) by (nonlinear_arith);
        lemma_fnv1a_next(b, 12, 0x012e8aad6aecb2f0u64, 99u8);
    }
    assert(hash_prefix(b, 14) == 0xf1a6466f6766c144u64) by {
        assert(fnv1a_byte_arith(0xeec837acb0336fc9u64, 101u8) == 0xf1a6466f6766c144u64) by (nonlinear_arith);
        lemma_fnv1a_next(b, 13, 0xeec837acb0336fc9u64, 101u8);
    }
    assert(hash_prefix(b, 15) == 0x044adc4cb39a3f77u64) by {
        assert(fnv1a_byte_arith(0xf1a6466f6766c144u64, 105u8) == 0x044adc4cb39a3f77u64) by (nonlinear_arith);
        lemma_fnv1a_next(b, 14, 0xf1a6466f6766c144u64, 105u8);
    }
    assert(hash_prefix(b, 16) == 0xe57357552f190eb3u64) by {
        assert(fnv1a_byte_arith(0x044adc4cb39a3f77u64, 118u8) == 0xe57357552f190eb3u64) by (nonlinear_arith);
        lemma_fnv1a_next(b, 15, 0x044adc4cb39a3f77u64, 118u8);
    }
    assert(hash_prefix(b, 17) == 0xfc0c3bbf079435a2u64) by {
        assert(fnv1a_byte_arith(0xe57357552f190eb3u64, 101u8) == 0xfc0c3bbf079435a2u64) by (nonlinear_arith);
        lemma_fnv1a_next(b, 16, 0xe57357552f190eb3u64, 101u8);
    }
    assert(hash_prefix(b, 18) == 0xdcff4b99e0d75f72u64) by {
        assert(fnv1a_byte_arith(0xfc0c3bbf079435a2u64, 100u8) == 0xdcff4b99e0d75f72u64) by (nonlinear_arith);
        lemma_fnv1a_next(b, 17, 0xfc0c3bbf079435a2u64, 100u8);
    }
    assert(hash_prefix(b, 19) == 0x5d2ca3790df6b977u64) by {
        assert(fnv1a_byte_arith(0xdcff4b99e0d75f72u64, 95u8) == 0x5d2ca3790df6b977u64) by (nonlinear_arith);
        lemma_fnv1a_next(b, 18, 0xdcff4b99e0d75f72u64, 95u8);
    }
    assert(hash_prefix(b, 20) == 0x4992c9b2ba3c6019u64) by {
        assert(fnv1a_byte_arith(0x5d2ca3790df6b977u64, 116u8) == 0x4992c9b2ba3c6019u64) by (nonlinear_arith);
        lemma_fnv1a_next(b, 19, 0x5d2ca3790df6b977u64, 116u8);
    }
    assert(hash_prefix(b, 21) == 0x40cd30b27497e882u64) by {
        assert(fnv1a_byte_arith(0x4992c9b2ba3c6019u64, 111u8) == 0x40cd30b27497e882u64) by (nonlinear_arith);
        lemma_fnv1a_next(b, 20, 0x4992c9b2ba3c6019u64, 111u8);
    }
    assert(hash_prefix(b, 22) == 0xb492b53c1e20da02u64) by {
        assert(fnv1a_byte_arith(0x40cd30b27497e882u64, 116u8) == 0xb492b53c1e20da02u64) by (nonlinear_arith);
        lemma_fnv1a_next(b, 21, 0x40cd30b27497e882u64, 116u8);
    }
    assert(hash_prefix(b, 23) == 0xf624582731d31639u64) by {
        assert(fnv1a_byte_arith(0xb492b53c1e20da02u64, 97u8) == 0xf624582731d31639u64) by (nonlinear_arith);
        lemma_fnv1a_next(b, 22, 0xb492b53c1e20da02u64, 97u8);
    }
    assert(hash_prefix(b, 24) == 0x12d81f99a9aef26fu64) by {
        assert(fnv1a_byte_arith(0xf624582731d31639u64, 108u8) == 0x12d81f99a9aef26fu64) by (nonlinear_arith);
        lemma_fnv1a_next(b, 23, 0xf624582731d31639u64, 108u8);
    }
    assert(hash_prefix(b, 25) == 0xb430421b54462ab0u64) by {
        assert(fnv1a_byte_arith(0x12d81f99a9aef26fu64, 255u8) == 0xb430421b54462ab0u64) by (nonlinear_arith);
        lemma_fnv1a_next(b, 24, 0x12d81f99a9aef26fu64, 255u8);
    }
    lemma_hash_prefix_all(b);
}

/// The bytes that the descriptor id of `udp_drops_total` hashes.
proof fn lemma_bytes_udp_drops_total()
    ensures
        descriptor_id("udp_drops_total"@) == fnv1a(seq![117u8, 100u8, 112u8, 95u8, 100u8, 114u8, 111u8, 112u8, 115u8, 95u8, 116u8, 111u8, 116u8, 97u8, 108u8, 255u8]),
{
    reveal_strlit("udp_drops_total");
    lemma_ascii_descriptor_bytes("udp_drops_total"@, seq![117u8, 100u8, 112u8, 95u8, 100u8, 114u8, 111u8, 112u8, 115u8, 95u8, 116u8, 111u8, 116u8, 97u8, 108u8, 255u8]);
}

/// The hash of the bytes of `udp_drops_total`.
#[verifier::spinoff_prover]
proof fn lemma_hash_udp_drops_total(b: Seq<u8>)
    requires
        b.len() == 16,
        b[0] == 117u8,
        b[1] == 100u8,
        b[2] == 112u8,
        b[3] == 95u8,
        b[4] == 100u8,
        b[5] == 114u8,
        b[6] == 111u8,
        b[7] == 112u8,
        b[8] == 115u8,
        b[9] == 95u8,
        b[10] == 116u8,
        b[11] == 111u8,
        b[12] == 116u8,
        b[13] == 97u8,
        b[14] == 108u8,
        b[15] == 255u8,
    ensures
        fnv1a(b) == 0x04b102a40afad9d1u64,
{
    lemma_fnv1a_empty(b);
    assert(hash_prefix(b, 1) == 0xaf63e84c860200f0u64) by {
        assert(fnv1a_byte_arith(0xcbf29ce484222325u64, 117u8) == 0xaf63e84c860200f0u64) by (nonlinear_arith);
        lemma_fnv1a_next(b, 0, 0xcbf29ce484222325u64, 117u8);
    }
    assert(hash_prefix(b, 2) == 0x08c44e07b566fb7cu64) by {
        assert(fnv1a_byte_arith(0xaf63e84c860200f0u64, 100u8) == 0x08c44e07b566fb7cu64) by (nonlinear_arith);
        lemma_fnv1a_next(b, 1, 0xaf63e84c860200f0u64, 100u8);
    }
    assert(hash_prefix(b, 3) == 0x4c8ba3193dfc9564u64) by {
        assert(fnv1a_byte_arith(0x08c44e07b566fb7cu64, 112u8) == 0x4c8ba3193dfc9564u64) by (nonlinear_arith);
        lemma_fnv1a_next(b, 2, 0x08c44e07b566fb7cu64, 112u8);
    }
    assert(hash_prefix(b, 4) == 0x0ddb5ee454319341u64) by {
        assert(fnv1a_byte_arith(0x4c8ba3193dfc9564u64, 95u8) == 0x0ddb5ee454319341u64) by (nonlinear_arith);
        lemma_fnv1a_next(b, 3, 0x4c8ba3193dfc9564u64, 95u8);
    }
    assert(hash_prefix(b, 5) == 0xbd5562fb103d07dfu64) by {
        assert(fnv1a_byte_arith(0x0ddb5ee454319341u64, 100u8) == 0xbd5562fb103d07dfu64) by (nonlinear_arith);
        lemma_fnv1a_next(b, 4, 0x0ddb5ee454319341u64, 100u8);
    }
    assert(hash_prefix(b, 6) == 0xf51edd9c97b40af7u64) by {
        assert(fnv1a_byte_arith(0xbd5562fb103d07dfu64, 114u8) == 0xf51edd9c97b40af7u64) by (nonlinear_arith);
        lemma_fnv1a_next(b, 5, 0xbd5562fb103d07dfu64, 114u8);
    }
    assert(hash_prefix(b, 7) == 0x377d2915c6ee0048u64) by {
        assert(fnv1a_byte_arith(0xf51edd9c97b40af7u64, 111u8) == 0x377d2915c6ee0048u64) by (nonlinear_arith);
        lemma_fnv1a_next(b, 6, 0xf51edd9c97b40af7u64, 111u8);
    }
    assert(hash_prefix(b, 8) == 0x37ad0801066a5f28u64) by {
        assert(fnv1a_byte_arith(0x377d2915c6ee0048u64, 112u8) == 0x37ad0801066a5f28u64) by (nonlinear_arith);
        lemma_fnv1a_next(b, 7, 0x377d2915c6ee0048u64, 112u8);
    }
    assert(hash_prefix(b, 9) == 0x0563f4bde6c007a1u64) by {
        assert(fnv1a_byte_arith(0x37ad0801066a5f28u64, 115u8) == 0x0563f4bde6c007a1u64) by (nonlinear_arith);
        lemma_fnv1a_next(b, 8, 0x37ad0801066a5f28u64, 115u8);
    }
    assert(hash_prefix(b, 10) == 0xe8e0dcaf184d949au64) by {
        assert(fnv1a_byte_arith(0x0563f4bde6c007a1u64, 95u8) == 0xe8e0dcaf184d949au64) by (nonlinear_arith);
        lemma_fnv1a_next(b, 9, 0x0563f4bde6c007a1u64, 95u8);
    }
    assert(hash_prefix(b, 11) == 0x03abeb864bd4106au64) by {
        assert(fnv1a_byte_arith(0xe8e0dcaf184d949au64, 116u8) == 0x03abeb864bd4106au64) by (nonlinear_arith);
        lemma_fnv1a_next(b, 10, 0xe8e0dcaf184d949au64, 116u8);
    }
    assert(hash_prefix(b, 12) == 0x11313a32d957387fu64) by {
        assert(fnv1a_byte_arith(0x03abeb864bd4106au64, 111u8) == 0x11313a32d957387fu64) by (nonlinear_arith);
        lemma_fnv1a_next(b, 11, 0x03abeb864bd4106au64, 111u8);
    }
    assert(hash_prefix(b, 13) == 0x8dddef674f343ab1u64) by {
        assert(fnv1a_byte_arith(0x11313a32d957387fu64, 116u8) == 0x8dddef674f343ab1u64) by (nonlinear_arith);
        lemma_fnv1a_next(b, 12, 0x11313a32d957387fu64, 116u8);
    }
    assert(hash_prefix(b, 14) == 0x44589c8b95bfef70u64) by {
        assert(fnv1a_byte_arith(0x8dddef674f343ab1u64, 97u8) == 0x44589c8b95bfef70u64) by (nonlinear_arith);
        lemma_fnv1a_next(b, 13, 0x8dddef674f343ab1u64, 97u8);
    }
    assert(hash_prefix(b, 15) == 0xe2811d2f75234c94u64) by {
        assert(fnv1a_byte_arith(0x44589c8b95bfef70u64, 108u8) == 0xe2811d2f75234c94u64) by (nonlinear_arith);
        lemma_fnv1a_next(b, 14, 0x44589c8b95bfef70u64, 108u8);
    }
    assert(hash_prefix(b, 16) == 0x04b102a40afad9d1u64) by {
        assert(fnv1a_byte_arith(0xe2811d2f75234c94u64, 255u8) == 0x04b102a40afad9d1u64) by (nonlinear_arith);
        lemma_fnv1a_next(b, 15, 0xe2811d2f75234c94u64, 255u8);
    }
    lemma_hash_prefix_all(b);
}

/// The bytes that the descriptor id of `http_requests_total` hashes.
proof fn lemma_bytes_http_requests_total()
    ensures
        descriptor_id("http_requests_total"@) == fnv1a(seq![104u8, 116u8, 116u8, 112u8, 95u8, 114u8, 101u8, 113u8, 117u8, 101u8, 115u8, 116u8, 115u8, 95u8, 116u8, 111u8, 116u8, 97u8, 108u8, 255u8]),
{
    reveal_strlit("http_requests_total");
    lemma_ascii_descriptor_bytes("http_requests_total"@, seq![104u8, 116u8, 116u8, 112u8, 95u8, 114u8, 101u8, 113u8, 117u8, 101u8, 115u8, 116u8, 115u8, 95u8, 116u8, 111u8, 116u8, 97u8, 108u8, 255u8]);
}

/// The hash of the bytes of `http_requests_total`.
#[verifier::spinoff_prover]
proof fn lemma_hash_http_requests_total(b: Seq<u8>)
    requires
        b.len() == 20,
        b[0] == 104u8,
        b[1] == 116u8,
        b[2] == 116u8,
        b[3] == 112u8,
        b[4] == 95u8,
        b[5] == 114u8,
        b[6] == 101u8,
        b[7] == 113u8,
        b[8] == 117u8,
        b[9] == 101u8,
        b[10] == 115u8,
        b[11] == 116u8,
        b[12] == 115u8,
        b[13] == 95u8,
        b[14] == 116u8,
        b[15] == 111u8,
        b[16] == 116u8,
        b[17] == 97u8,
        b[18] == 108u8,
        b[19] == 255u8,
    ensures
        fnv1a(b) == 0x4217265b99da9aceu64,
{
    lemma_fnv1a_empty(b);
    assert(hash_prefix(b, 1) == 0xaf63e54c8601fbd7u64) by {
        assert(fnv1a_byte_arith(0xcbf29ce484222325u64, 104u8) == 0xaf63e54c8601fbd7u64) by (nonlinear_arith);
        lemma_fnv1a_next(b, 0, 0xcbf29ce484222325u64, 104u8);
    }
    assert(hash_prefix(b, 2) == 0x08ba4407b55e95f9u64) by {
        assert(fnv1a_byte_arith(0xaf63e54c8601fbd7u64, 116u8) == 0x08ba4407b55e95f9u64) by (nonlinear_arith);
        lemma_fnv1a_next(b, 1, 0xaf63e54c8601fbd7u64, 116u8);
    }
    assert(hash_prefix(b, 3) == 0x331726192fb81e97u64) by {
        assert(fnv1a_byte_arith(0x08ba4407b55e95f9u64, 116u8) == 0x331726192fb81e97u64) by (nonlinear_arith);
        lemma_fnv1a_next(b, 2, 0x08ba4407b55e95f9u64, 116u8);
    }
    assert(hash_prefix(b, 4) == 0x8874a3cc15dc8285u64) by {
        assert(fnv1a_byte_arith(0x331726192fb81e97u64, 112u8) == 0x8874a3cc15dc8285u64) by (nonlinear_arith);
        lemma_fnv1a_next(b, 3, 0x331726192fb81e97u64, 112u8);
    }
    assert(hash_prefix(b, 5) == 0xbab52dc925b2586eu64) by {
        assert(fnv1a_byte_arith(0x8874a3cc15dc8285u64, 95u8) == 0xbab52dc925b2586eu64) by (nonlinear_arith);
        lemma_fnv1a_next(b, 4, 0x8874a3cc15dc8285u64, 95u8);
    }
    assert(hash_prefix(b, 6) == 0xf434e8cb0e0bb794u64) by {
        assert(fnv1a_byte_arith(0xbab52dc925b2586eu64, 114u8) == 0xf434e8cb0e0bb794u64) by (nonlinear_arith);
        lemma_fnv1a_next(b, 5, 0xbab52dc925b2586eu64, 114u8);
    }
    assert(hash_prefix(b, 7) == 0x019f8208dde98e83u64) by {
        assert(fnv1a_byte_arith(0xf434e8cb0e0bb794u64, 101u8) == 0x019f8208dde98e83u64) by (nonlinear_arith);
        lemma_fnv1a_next(b, 6, 0xf434e8cb0e0bb794u64, 101u8);
    }
    assert(hash_prefix(b, 8) == 0xab98e71113dde536u64) by {
        assert(fnv1a_byte_arith(0x019f8208dde98e83u64, 113u8) == 0xab98e71113dde536u64) by (nonlinear_arith);
        lemma_fnv1a_next(b, 7, 0x019f8208dde98e83u64, 113u8);
    }
    assert(hash_prefix(b, 9) == 0x72b5e504c20c90d9u64) by {
        assert(fnv1a_byte_arith(0xab98e71113dde536u64, 117u8) == 0x72b5e504c20c90d9u64) by (nonlinear_arith);
        lemma_fnv1a_next(b, 8, 0xab98e71113dde536u64, 117u8);
    }
    assert(hash_prefix(b, 10) == 0xf7a4e315bb59ef74u64) by {
        assert(fnv1a_byte_arith(0x72b5e504c20c90d9u64, 101u8) == 0xf7a4e315bb59ef74u64) by (nonlinear_arith);
        lemma_fnv1a_next(b, 9, 0x72b5e504c20c90d9u64, 101u8);
    }
    assert(hash_prefix(b, 11) == 0x271ce4ed59d128e5u64) by {
        assert(fnv1a_byte_arith(0xf7a4e315bb59ef74u64, 115u8) == 0x271ce4ed59d128e5u64) by (nonlinear_arith);
        lemma_fnv1a_next(b, 10, 0xf7a4e315bb59ef74u64, 115u8);
    }
    assert(hash_prefix(b, 12) == 0x4741904f9e67ee63u64) by {
        assert(fnv1a_byte_arith(0x271ce4ed59d128e5u64, 116u8) == 0x4741904f9e67ee63u64) by (nonlinear_arith);
        lemma_fnv1a_next(b, 11, 0x271ce4ed59d128e5u64, 116u8);
    }
    assert(hash_prefix(b, 13) == 0x7c56474a2a998530u64) by {
        assert(fnv1a_byte_arith(0x4741904f9e67ee63u64, 115u8) == 0x7c56474a2a998530u64) by (nonlinear_arith);
        lemma_fnv1a_next(b, 12, 0x4741904f9e67ee63u64, 115u8);
    }
    assert(hash_prefix(b, 14) == 0xe020920662ddbb9du64) by {
        assert(fnv1a_byte_arith(0x7c56474a2a998530u64, 95u8) == 0xe020920662ddbb9du64) by (nonlinear_arith);
        lemma_fnv1a_next(b, 13, 0x7c56474a2a998530u64, 95u8);
    }
    assert(hash_prefix(b, 15) == 0xb51409d9fec64cebu64) by {
        assert(fnv1a_byte_arith(0xe020920662ddbb9du64, 116u8) == 0xb51409d9fec64cebu64) by (nonlinear_arith);
        lemma_fnv1a_next(b, 14, 0xe020920662ddbb9du64, 116u8);
    }
    assert(hash_prefix(b, 16) == 0x7759416beaf4044cu64) by {
        assert(fnv1a_byte_arith(0xb51409d9fec64cebu64, 111u8) == 0x7759416beaf4044cu64) by (nonlinear_arith);
        lemma_fnv1a_next(b, 15, 0xb51409d9fec64cebu64, 111u8);
    }
    assert(hash_prefix(b, 17) == 0xc0ae62603ca32b28u64) by {
        assert(fnv1a_byte_arith(0x7759416beaf4044cu64, 116u8) == 0xc0ae62603ca32b28u64) by (nonlinear_arith);
        lemma_fnv1a_next(b, 16, 0x7759416beaf4044cu64, 116u8);
    }
    assert(hash_prefix(b, 18) == 0x0b7c728709428d0bu64) by {
        assert(fnv1a_byte_arith(0xc0ae62603ca32b28u64, 97u8) == 0x0b7c728709428d0bu64) by (nonlinear_arith);
        lemma_fnv1a_next(b, 17, 0xc0ae62603ca32b28u64, 97u8);
    }
    assert(hash_prefix(b, 19) == 0xc7040274bc164605u64) by {
        assert(fnv1a_byte_arith(0x0b7c728709428d0bu64, 108u8) == 0xc7040274bc164605u64) by (nonlinear_arith);
        lemma_fnv1a_next(b, 18, 0x0b7c728709428d0bu64, 108u8);
    }
    assert(hash_prefix(b, 20) == 0x4217265b99da9aceu64) by {
        assert(fnv1a_byte_arith(0xc7040274bc164605u64, 255u8) == 0x4217265b99da9aceu64) by (nonlinear_arith);
        lemma_fnv1a_next(b, 19, 0xc7040274bc164605u64, 255u8);
    }
    lemma_hash_prefix_all(b);
}

/// The bytes that the descriptor id of `http_request_duration_seconds` hashes.
proof fn lemma_bytes_http_request_duration_seconds()
    ensures
        descriptor_id("http_request_duration_seconds"@) == fnv1a(seq![104u8, 116u8, 116u8, 112u8, 95u8, 114u8, 101u8, 113u8, 117u8, 101u8, 115u8, 116u8, 95u8, 100u8, 117u8, 114u8, 97u8, 116u8, 105u8, 111u8, 110u8, 95u8, 115u8, 101u8, 99u8, 111u8, 110u8, 100u8, 115u8, 255u8]),
{
    reveal_strlit("http_request_duration_seconds");
    lemma_ascii_descriptor_bytes("http_request_duration_seconds"@, seq![104u8, 116u8, 116u8, 112u8, 95u8, 114u8, 101u8, 113u8, 117u8, 101u8, 115u8, 116u8, 95u8, 100u8, 117u8, 114u8, 97u8, 116u8, 105u8, 111u8, 110u8, 95u8, 115u8, 101u8, 99u8, 111u8, 110u8, 100u8, 115u8, 255u8]);
}

/// The hash of the bytes of `http_request_duration_seconds`.
#[verifier::spinoff_prover]
proof fn lemma_hash_http_request_duration_seconds(b: Seq<u8>)
    requires
        b.len() == 30,
        b[0] == 104u8,
        b[1] == 116u8,
        b[2] == 116u8,
        b[3] == 112u8,
        b[4] == 95u8,
        b[5] == 114u8,
        b[6] == 101u8,
        b[7] == 113u8,
        b[8] == 117u8,
        b[9] == 101u8,
        b[10] == 115u8,
        b[11] == 116u8,
        b[12] == 95u8,
        b[13] == 100u8,
        b[14] == 117u8,
        b[15] == 114u8,
        b[16] == 97u8,
        b[17] == 116u8,
        b[18] == 105u8,
        b[19] == 111u8,
        b[20] == 110u8,
        b[21] == 95u8,
        b[22] == 115u8,
        b[23] == 101u8,
        b[24] == 99u8,
        b[25] == 111u8,
        b[26] == 110u8,
        b[27] == 100u8,
        b[28] == 115u8,
        b[29] == 255u8,
    ensures
        fnv1a(b) == 0xfdd42088fb22972bu64,
{
    lemma_fnv1a_empty(b);
    assert(hash_prefix(b, 1) == 0xaf63e54c8601fbd7u64) by {
        assert(fnv1a_byte_arith(0xcbf29ce484222325u64, 104u8) == 0xaf63e54c8601fbd7u64) by (nonlinear_arith);
        lemma_fnv1a_next(b, 0, 0xcbf29ce484222325u64, 104u8);
    }
    assert(hash_prefix(b, 2) == 0x08ba4407b55e95f9u64) by {
        assert(fnv1a_byte_arith(0xaf63e54c8601fbd7u64, 116u8) == 0x08ba4407b55e95f9u64) by (nonlinear_arith);
        lemma_fnv1a_next(b, 1, 0xaf63e54c8601fbd7u64, 116u8);
    }
    assert(hash_prefix(b, 3) == 0x331726192fb81e97u64) by {
        assert(fnv1a_byte_arith(0x08ba4407b55e95f9u64, 116u8) == 0x331726192fb81e97u64) by (nonlinear_arith);
        lemma_fnv1a_next(b, 2, 0x08ba4407b55e95f9u64, 116u8);
    }
    assert(hash_prefix(b, 4) == 0x8874a3cc15dc8285u64) by {
        assert(fnv1a_byte_arith(0x331726192fb81e97u64, 112u8) == 0x8874a3cc15dc8285u64) by (nonlinear_arith);
        lemma_fnv1a_next(b, 3, 0x331726192fb81e97u64, 112u8);
    }
    assert(hash_prefix(b, 5) == 0xbab52dc925b2586eu64) by {
        assert(fnv1a_byte_arith(0x8874a3cc15dc8285u64, 95u8) == 0xbab52dc925b2586eu64) by (nonlinear_arith);
        lemma_fnv1a_next(b, 4, 0x8874a3cc15dc8285u64, 95u8);
    }
    assert(hash_prefix(b, 6) == 0xf434e8cb0e0bb794u64) by {
        assert(fnv1a_byte_arith(0xbab52dc925b2586eu64, 114u8) == 0xf434e8cb0e0bb794u64) by (nonlinear_arith);
        lemma_fnv1a_next(b, 5, 0xbab52dc925b2586eu64, 114u8);
    }
    assert(hash_prefix(b, 7) == 0x019f8208dde98e83u64) by {
        assert(fnv1a_byte_arith(0xf434e8cb0e0bb794u64, 101u8) == 0x019f8208dde98e83u64) by (nonlinear_arith);
        lemma_fnv1a_next(b, 6, 0xf434e8cb0e0bb794u64, 101u8);
    }
    assert(hash_prefix(b, 8) == 0xab98e71113dde536u64) by {
        assert(fnv1a_byte_arith(0x019f8208dde98e83u64, 113u8) == 0xab98e71113dde536u64) by (nonlinear_arith);
        lemma_fnv1a_next(b, 7, 0x019f8208dde98e83u64, 113u8);
    }
    assert(hash_prefix(b, 9) == 0x72b5e504c20c90d9u64) by {
        assert(fnv1a_byte_arith(0xab98e71113dde536u64, 117u8) == 0x72b5e504c20c90d9u64) by (nonlinear_arith);
        lemma_fnv1a_next(b, 8, 0xab98e71113dde536u64, 117u8);
    }
    assert(hash_prefix(b, 10) == 0xf7a4e315bb59ef74u64) by {
        assert(fnv1a_byte_arith(0x72b5e504c20c90d9u64, 101u8) == 0xf7a4e315bb59ef74u64) by (nonlinear_arith);
        lemma_fnv1a_next(b, 9, 0x72b5e504c20c90d9u64, 101u8);
    }
    assert(hash_prefix(b, 11) == 0x271ce4ed59d128e5u64) by {
        assert(fnv1a_byte_arith(0xf7a4e315bb59ef74u64, 115u8) == 0x271ce4ed59d128e5u64) by (nonlinear_arith);
        lemma_fnv1a_next(b, 10, 0xf7a4e315bb59ef74u64, 115u8);
    }
    assert(hash_prefix(b, 12) == 0x4741904f9e67ee63u64) by {
        assert(fnv1a_byte_arith(0x271ce4ed59d128e5u64, 116u8) == 0x4741904f9e67ee63u64) by (nonlinear_arith);
        lemma_fnv1a_next(b, 11, 0x271ce4ed59d128e5u64, 116u8);
    }
    assert(hash_prefix(b, 13) == 0x7c56734a2a99cff4u64) by {
        assert(fnv1a_byte_arith(0x4741904f9e67ee63u64, 95u8) == 0x7c56734a2a99cff4u64) by (nonlinear_arith);
        lemma_fnv1a_next(b, 12, 0x4741904f9e67ee63u64, 95u8);
    }
    assert(hash_prefix(b, 14) == 0xe0b57706635bb1b0u64) by {
        assert(fnv1a_byte_arith(0x7c56734a2a99cff4u64, 100u8) == 0xe0b57706635bb1b0u64) by (nonlinear_arith);
        lemma_fnv1a_next(b, 13, 0x7c56734a2a99cff4u64, 100u8);
    }
    assert(hash_prefix(b, 15) == 0x300b04dad4cf11bfu64) by {
        assert(fnv1a_byte_arith(0xe0b57706635bb1b0u64, 117u8) == 0x300b04dad4cf11bfu64) by (nonlinear_arith);
        lemma_fnv1a_next(b, 14, 0xe0b57706635bb1b0u64, 117u8);
    }
    assert(hash_prefix(b, 16) == 0x71cb0cd79bdb3f57u64) by {
        assert(fnv1a_byte_arith(0x300b04dad4cf11bfu64, 114u8) == 0x71cb0cd79bdb3f57u64) by (nonlinear_arith);
        lemma_fnv1a_next(b, 15, 0x300b04dad4cf11bfu64, 114u8);
    }
    assert(hash_prefix(b, 17) == 0x3746085dd58c68c2u64) by {
        assert(fnv1a_byte_arith(0x71cb0cd79bdb3f57u64, 97u8) == 0x3746085dd58c68c2u64) by (nonlinear_arith);
        lemma_fnv1a_next(b, 16, 0x71cb0cd79bdb3f57u64, 97u8);
    }
    assert(hash_prefix(b, 18) == 0x7868ed71dd95ed42u64) by {
        assert(fnv1a_byte_arith(0x3746085dd58c68c2u64, 116u8) == 0x7868ed71dd95ed42u64) by (nonlinear_arith);
        lemma_fnv1a_next(b, 17, 0x3746085dd58c68c2u64, 116u8);
    }
    assert(hash_prefix(b, 19) == 0x3038a37b85c20011u64) by {
        assert(fnv1a_byte_arith(0x7868ed71dd95ed42u64, 105u8) == 0x3038a37b85c20011u64) by (nonlinear_arith);
        lemma_fnv1a_next(b, 18, 0x7868ed71dd95ed42u64, 105u8);
    }
    assert(hash_prefix(b, 20) == 0xb23e48e448a6d61au64) by {
        assert(fnv1a_byte_arith(0x3038a37b85c20011u64, 111u8) == 0xb23e48e448a6d61au64) by (nonlinear_arith);
        lemma_fnv1a_next(b, 19, 0x3038a37b85c20011u64, 111u8);
    }
    assert(hash_prefix(b, 21) == 0x86ac4fe7737e671cu64) by {
        assert(fnv1a_byte_arith(0xb23e48e448a6d61au64, 110u8) == 0x86ac4fe7737e671cu64) by (nonlinear_arith);
        lemma_fnv1a_next(b, 20, 0xb23e48e448a6d61au64, 110u8);
    }
    assert(hash_prefix(b, 22) == 0x553309493fc976d9u64) by {
        assert(fnv1a_byte_arith(0x86ac4fe7737e671cu64, 95u8) == 0x553309493fc976d9u64) by (nonlinear_arith);
        lemma_fnv1a_next(b, 21, 0x86ac4fe7737e671cu64, 95u8);
    }
    assert(hash_prefix(b, 23) == 0x8f2f71776354a2deu64) by {
        assert(fnv1a_byte_arith(0x553309493fc976d9u64, 115u8) == 0x8f2f71776354a2deu64) by (nonlinear_arith);
        lemma_fnv1a_next(b, 22, 0x553309493fc976d9u64, 115u8);
    }
    assert(hash_prefix(b, 24) == 0xa24088ddc8d083c1u64) by {
        assert(fnv1a_byte_arith(0x8f2f71776354a2deu64, 101u8) == 0xa24088ddc8d083c1u64) by (nonlinear_arith);
        lemma_fnv1a_next(b, 23, 0x8f2f71776354a2deu64, 101u8);
    }
    assert(hash_prefix(b, 25) == 0x842c32dc3a4fac46u64) by {
        assert(fnv1a_byte_arith(0xa24088ddc8d083c1u64, 99u8) == 0x842c32dc3a4fac46u64) by (nonlinear_arith);
        lemma_fnv1a_next(b, 24, 0xa24088ddc8d083c1u64, 99u8);
    }
    assert(hash_prefix(b, 26) == 0xe6c69537156189abu64) by {
        assert(fnv1a_byte_arith(0x842c32dc3a4fac46u64, 111u8) == 0xe6c69537156189abu64) by (nonlinear_arith);
        lemma_fnv1a_next(b, 25, 0x842c32dc3a4fac46u64, 111u8);
    }
    assert(hash_prefix(b, 27) == 0x84f9519954bd19bfu64) by {
        assert(fnv1a_byte_arith(0xe6c69537156189abu64, 110u8) == 0x84f9519954bd19bfu64) by (nonlinear_arith);
        lemma_fnv1a_next(b, 26, 0xe6c69537156189abu64, 110u8);
    }
    assert(hash_prefix(b, 28) == 0xb0bf828afd52ef21u64) by {
        assert(fnv1a_byte_arith(0x84f9519954bd19bfu64, 100u8) == 0xb0bf828afd52ef21u64) by (nonlinear_arith);
        lemma_fnv1a_next(b, 27, 0x84f9519954bd19bfu64, 100u8);
    }
    assert(hash_prefix(b, 29) == 0xa85a242c73eca856u64) by {
        assert(fnv1a_byte_arith(0xb0bf828afd52ef21u64, 115u8) == 0xa85a242c73eca856u64) by (nonlinear_arith);
        lemma_fnv1a_next(b, 28, 0xb0bf828afd52ef21u64, 115u8);
    }
    assert(hash_prefix(b, 30) == 0xfdd42088fb22972bu64) by {
        assert(fnv1a_byte_arith(0xa85a242c73eca856u64, 255u8) == 0xfdd42088fb22972bu64) by (nonlinear_arith);
        lemma_fnv1a_next(b, 29, 0xa85a242c73eca856u64, 255u8);
    }
    lemma_hash_prefix_all(b);
}

/// The bytes that the descriptor id of `http_request_size_bytes` hashes.
proof fn lemma_bytes_http_request_size_bytes()
    ensures
        descriptor_id("http_request_size_bytes"@) == fnv1a(seq![104u8, 116u8, 116u8, 112u8, 95u8, 114u8, 101u8, 113u8, 117u8, 101u8, 115u8, 116u8, 95u8, 115u8, 105u8, 122u8, 101u8, 95u8, 98u8, 121u8, 116u8, 101u8, 115u8, 255u8]),
{
    reveal_strlit("http_request_size_bytes");
    lemma_ascii_descriptor_bytes("http_request_size_bytes"@, seq![104u8, 116u8, 116u8, 112u8, 95u8, 114u8, 101u8, 113u8, 117u8, 101u8, 115u8, 116u8, 95u8, 115u8, 105u8, 122u8, 101u8, 95u8, 98u8, 121u8, 116u8, 101u8, 115u8, 255u8]);
}

/// The hash of the bytes of `http_request_size_bytes`.
#[verifier::spinoff_prover]
proof fn lemma_hash_http_request_size_bytes(b: Seq<u8>)
    requires
        b.len() == 24,
        b[0] == 104u8,
        b[1] == 116u8,
        b[2] == 116u8,
        b[3] == 112u8,
        b[4] == 95u8,
        b[5] == 114u8,
        b[6] == 101u8,
        b[7] == 113u8,
        b[8] == 117u8,
        b[9] == 101u8,
        b[10] == 115u8,
        b[11] == 116u8,
        b[12] == 95u8,
        b[13] == 115u8,
        b[14] == 105u8,
        b[15] == 122u8,
        b[16] == 101u8,
        b[17] == 95u8,
        b[18] == 98u8,
        b[19] == 121u8,
        b[20] == 116u8,
        b[21] == 101u8,
        b[22] == 115u8,
        b[23] == 255u8,
    ensures
        fnv1a(b) == 0xe066830a5c30e766u64,
{
    lemma_fnv1a_empty(b);
    assert(hash_prefix(b, 1) == 0xaf63e54c8601fbd7u64) by {
        assert(fnv1a_byte_arith(0xcbf29ce484222325u64, 104u8) == 0xaf63e54c8601fbd7u64) by (nonlinear_arith);
        lemma_fnv1a_next(b, 0, 0xcbf29ce484222325u64, 104u8);
    }
    assert(hash_prefix(b, 2) == 0x08ba4407b55e95f9u64) by {
        assert(fnv1a_byte_arith(0xaf63e54c8601fbd7u64, 116u8) == 0x08ba4407b55e95f9u64) by (nonlinear_arith);
        lemma_fnv1a_next(b, 1, 0xaf63e54c8601fbd7u64, 116u8);
    }
    assert(hash_prefix(b, 3) == 0x331726192fb81e97u64) by {
        assert(fnv1a_byte_arith(0x08ba4407b55e95f9u64, 116u8) == 0x331726192fb81e97u64) by (nonlinear_arith);
        lemma_fnv1a_next(b, 2, 0x08ba4407b55e95f9u64, 116u8);
    }
    assert(hash_prefix(b, 4) == 0x8874a3cc15dc8285u64) by {
        assert(fnv1a_byte_arith(0x331726192fb81e97u64, 112u8) == 0x8874a3cc15dc8285u64) by (nonlinear_arith);
        lemma_fnv1a_next(b, 3, 0x331726192fb81e97u64, 112u8);
    }
    assert(hash_prefix(b, 5) == 0xbab52dc925b2586eu64) by {
        assert(fnv1a_byte_arith(0x8874a3cc15dc8285u64, 95u8) == 0xbab52dc925b2586eu64) by (nonlinear_arith);
        lemma_fnv1a_next(b, 4, 0x8874a3cc15dc8285u64, 95u8);
    }
    assert(hash_prefix(b, 6) == 0xf434e8cb0e0bb794u64) by {
        assert(fnv1a_byte_arith(0xbab52dc925b2586eu64, 114u8) == 0xf434e8cb0e0bb794u64) by (nonlinear_arith);
        lemma_fnv1a_next(b, 5, 0xbab52dc925b2586eu64, 114u8);
    }
    assert(hash_prefix(b, 7) == 0x019f8208dde98e83u64) by {
        assert(fnv1a_byte_arith(0xf434e8cb0e0bb794u64, 101u8) == 0x019f8208dde98e83u64) by (nonlinear_arith);
        lemma_fnv1a_next(b, 6, 0xf434e8cb0e0bb794u64, 101u8);
    }
    assert(hash_prefix(b, 8) == 0xab98e71113dde536u64) by {
        assert(fnv1a_byte_arith(0x019f8208dde98e83u64, 113u8) == 0xab98e71113dde536u64) by (nonlinear_arith);
        lemma_fnv1a_next(b, 7, 0x019f8208dde98e83u64, 113u8);
    }
    assert(hash_prefix(b, 9) == 0x72b5e504c20c90d9u64) by {
        assert(fnv1a_byte_arith(0xab98e71113dde536u64, 117u8) == 0x72b5e504c20c90d9u64) by (nonlinear_arith);
        lemma_fnv1a_next(b, 8, 0xab98e71113dde536u64, 117u8);
    }
    assert(hash_prefix(b, 10) == 0xf7a4e315bb59ef74u64) by {
        assert(fnv1a_byte_arith(0x72b5e504c20c90d9u64, 101u8) == 0xf7a4e315bb59ef74u64) by (nonlinear_arith);
        lemma_fnv1a_next(b, 9, 0x72b5e504c20c90d9u64, 101u8);
    }
    assert(hash_prefix(b, 11) == 0x271ce4ed59d128e5u64) by {
        assert(fnv1a_byte_arith(0xf7a4e315bb59ef74u64, 115u8) == 0x271ce4ed59d128e5u64) by (nonlinear_arith);
        lemma_fnv1a_next(b, 10, 0xf7a4e315bb59ef74u64, 115u8);
    }
    assert(hash_prefix(b, 12) == 0x4741904f9e67ee63u64) by {
        assert(fnv1a_byte_arith(0x271ce4ed59d128e5u64, 116u8) == 0x4741904f9e67ee63u64) by (nonlinear_arith);
        lemma_fnv1a_next(b, 11, 0x271ce4ed59d128e5u64, 116u8);
    }
    assert(hash_prefix(b, 13) == 0x7c56734a2a99cff4u64) by {
        assert(fnv1a_byte_arith(0x4741904f9e67ee63u64, 95u8) == 0x7c56734a2a99cff4u64) by (nonlinear_arith);
        lemma_fnv1a_next(b, 12, 0x4741904f9e67ee63u64, 95u8);
    }
    assert(hash_prefix(b, 14) == 0xe0b56e06635ba265u64) by {
        assert(fnv1a_byte_arith(0x7c56734a2a99cff4u64, 115u8) == 0xe0b56e06635ba265u64) by (nonlinear_arith);
        lemma_fnv1a_next(b, 13, 0x7c56734a2a99cff4u64, 115u8);
    }
    assert(hash_prefix(b, 15) == 0x2fec00dad4b45a64u64) by {
        assert(fnv1a_byte_arith(0xe0b56e06635ba265u64, 105u8) == 0x2fec00dad4b45a64u64) by (nonlinear_arith);
        lemma_fnv1a_next(b, 14, 0xe0b56e06635ba265u64, 105u8);
    }
    assert(hash_prefix(b, 16) == 0x225f91d76e7520fau64) by {
        assert(fnv1a_byte_arith(0x2fec00dad4b45a64u64, 122u8) == 0x225f91d76e7520fau64) by (nonlinear_arith);
        lemma_fnv1a_next(b, 15, 0x2fec00dad4b45a64u64, 122u8);
    }
    assert(hash_prefix(b, 17) == 0xdd857010b1066e2du64) by {
        assert(fnv1a_byte_arith(0x225f91d76e7520fau64, 101u8) == 0xdd857010b1066e2du64) by (nonlinear_arith);
        lemma_fnv1a_next(b, 16, 0x225f91d76e7520fau64, 101u8);
    }
    assert(hash_prefix(b, 18) == 0x702bde5ccdedabb6u64) by {
        assert(fnv1a_byte_arith(0xdd857010b1066e2du64, 95u8) == 0x702bde5ccdedabb6u64) by (nonlinear_arith);
        lemma_fnv1a_next(b, 17, 0xdd857010b1066e2du64, 95u8);
    }
    assert(hash_prefix(b, 19) == 0x8836abb1eadaf93cu64) by {
        assert(fnv1a_byte_arith(0x702bde5ccdedabb6u64, 98u8) == 0x8836abb1eadaf93cu64) by (nonlinear_arith);
        lemma_fnv1a_next(b, 18, 0x702bde5ccdedabb6u64, 98u8);
    }
    assert(hash_prefix(b, 20) == 0x4fdf04521215903fu64) by {
        assert(fnv1a_byte_arith(0x8836abb1eadaf93cu64, 121u8) == 0x4fdf04521215903fu64) by (nonlinear_arith);
        lemma_fnv1a_next(b, 19, 0x8836abb1eadaf93cu64, 121u8);
    }
    assert(hash_prefix(b, 21) == 0xcd84a274baa42f71u64) by {
        assert(fnv1a_byte_arith(0x4fdf04521215903fu64, 116u8) == 0xcd84a274baa42f71u64) by (nonlinear_arith);
        lemma_fnv1a_next(b, 20, 0x4fdf04521215903fu64, 116u8);
    }
    assert(hash_prefix(b, 22) == 0xdc8f205924fbfefcu64) by {
        assert(fnv1a_byte_arith(0xcd84a274baa42f71u64, 101u8) == 0xdc8f205924fbfefcu64) by (nonlinear_arith);
        lemma_fnv1a_next(b, 21, 0xcd84a274baa42f71u64, 101u8);
    }
    assert(hash_prefix(b, 23) == 0xc3328679d8318cfdu64) by {
        assert(fnv1a_byte_arith(0xdc8f205924fbfefcu64, 115u8) == 0xc3328679d8318cfdu64) by (nonlinear_arith);
        lemma_fnv1a_next(b, 22, 0xdc8f205924fbfefcu64, 115u8);
    }
    assert(hash_prefix(b, 24) == 0xe066830a5c30e766u64) by {
        assert(fnv1a_byte_arith(0xc3328679d8318cfdu64, 255u8) == 0xe066830a5c30e766u64) by (nonlinear_arith);
        lemma_fnv1a_next(b, 23, 0xc3328679d8318cfdu64, 255u8);
    }
    lemma_hash_prefix_all(b);
}

/// The bytes that the descriptor id of `http_response_size_bytes` hashes.
proof fn lemma_bytes_http_response_size_bytes()
    ensures
        descriptor_id("http_response_size_bytes"@) == fnv1a(seq![104u8, 116u8, 116u8, 112u8, 95u8, 114u8, 101u8, 115u8, 112u8, 111u8, 110u8, 115u8, 101u8, 95u8, 115u8, 105u8, 122u8, 101u8, 95u8, 98u8, 121u8, 116u8, 101u8, 115u8, 255u8]),
{
    reveal_strlit("http_response_size_bytes");
    lemma_ascii_descriptor_bytes("http_response_size_bytes"@, seq![104u8, 116u8, 116u8, 112u8, 95u8, 114u8, 101u8, 115u8, 112u8, 111u8, 110u8, 115u8, 101u8, 95u8, 115u8, 105u8, 122u8, 101u8, 95u8, 98u8, 121u8, 116u8, 101u8, 115u8, 255u8]);
}

/// The hash of the bytes of `http_response_size_bytes`.
#[verifier::spinoff_prover]
proof fn lemma_hash_http_response_size_bytes(b: Seq<u8>)
    requires
        b.len() == 25,
        b[0] == 104u8,
        b[1] == 116u8,
        b[2] == 116u8,
        b[3] == 112u8,
        b[4] == 95u8,
        b[5] == 114u8,
        b[6] == 101u8,
        b[7] == 115u8,
        b[8] == 112u8,
        b[9] == 111u8,
        b[10] == 110u8,
        b[11] == 115u8,
        b[12] == 101u8,
        b[13] == 95u8,
        b[14] == 115u8,
        b[15] == 105u8,
        b[16] == 122u8,
        b[17] == 101u8,
        b[18] == 95u8,
        b[19] == 98u8,
        b[20] == 121u8,
        b[21] == 116u8,
        b[22] == 101u8,
        b[23] == 115u8,
        b[24] == 255u8,
    ensures
        fnv1a(b) == 0x2d0472ce5bae3208u64,
{
    lemma_fnv1a_empty(b);
    assert(hash_prefix(b, 1) == 0xaf63e54c8601fbd7u64) by {
        assert(fnv1a_byte_arith(0xcbf29ce484222325u64, 104u8) == 0xaf63e54c8601fbd7u64) by (nonlinear_arith);
        lemma_fnv1a_next(b, 0, 0xcbf29ce484222325u64, 104u8);
    }
    assert(hash_prefix(b, 2) == 0x08ba4407b55e95f9u64) by {
        assert(fnv1a_byte_arith(0xaf63e54c8601fbd7u64, 116u8) == 0x08ba4407b55e95f9u64) by (nonlinear_arith);
        lemma_fnv1a_next(b, 1, 0xaf63e54c8601fbd7u64, 116u8);
    }
    assert(hash_prefix(b, 3) == 0x331726192fb81e97u64) by {
        assert(fnv1a_byte_arith(0x08ba4407b55e95f9u64, 116u8) == 0x331726192fb81e97u64) by (nonlinear_arith);
        lemma_fnv1a_next(b, 2, 0x08ba4407b55e95f9u64, 116u8);
    }
    assert(hash_prefix(b, 4) == 0x8874a3cc15dc8285u64) by {
        assert(fnv1a_byte_arith(0x331726192fb81e97u64, 112u8) == 0x8874a3cc15dc8285u64) by (nonlinear_arith);
        lemma_fnv1a_next(b, 3, 0x331726192fb81e97u64, 112u8);
    }
    assert(hash_prefix(b, 5) == 0xbab52dc925b2586eu64) by {
        assert(fnv1a_byte_arith(0x8874a3cc15dc8285u64, 95u8) == 0xbab52dc925b2586eu64) by (nonlinear_arith);
        lemma_fnv1a_next(b, 4, 0x8874a3cc15dc8285u64, 95u8);
    }
    assert(hash_prefix(b, 6) == 0xf434e8cb0e0bb794u64) by {
        assert(fnv1a_byte_arith(0xbab52dc925b2586eu64, 114u8) == 0xf434e8cb0e0bb794u64) by (nonlinear_arith);
        lemma_fnv1a_next(b, 5, 0xbab52dc925b2586eu64, 114u8);
    }
    assert(hash_prefix(b, 7) == 0x019f8208dde98e83u64) by {
        assert(fnv1a_byte_arith(0xf434e8cb0e0bb794u64, 101u8) == 0x019f8208dde98e83u64) by (nonlinear_arith);
        lemma_fnv1a_next(b, 6, 0xf434e8cb0e0bb794u64, 101u8);
    }
    assert(hash_prefix(b, 8) == 0xab98e51113dde1d0u64) by {
        assert(fnv1a_byte_arith(0x019f8208dde98e83u64, 115u8) == 0xab98e51113dde1d0u64) by (nonlinear_arith);
        lemma_fnv1a_next(b, 7, 0x019f8208dde98e83u64, 115u8);
    }
    assert(hash_prefix(b, 9) == 0x72aedc04c20662e0u64) by {
        assert(fnv1a_byte_arith(0xab98e51113dde1d0u64, 112u8) == 0x72aedc04c20662e0u64) by (nonlinear_arith);
        lemma_fnv1a_next(b, 8, 0xab98e51113dde1d0u64, 112u8);
    }
    assert(hash_prefix(b, 10) == 0xe5826b15b0d978fdu64) by {
        assert(fnv1a_byte_arith(0x72aedc04c20662e0u64, 111u8) == 0xe5826b15b0d978fdu64) by (nonlinear_arith);
        lemma_fnv1a_next(b, 9, 0x72aedc04c20662e0u64, 111u8);
    }
    assert(hash_prefix(b, 11) == 0xd61488db8187e1c9u64) by {
        assert(fnv1a_byte_arith(0xe5826b15b0d978fdu64, 110u8) == 0xd61488db8187e1c9u64) by (nonlinear_arith);
        lemma_fnv1a_next(b, 10, 0xe5826b15b0d978fdu64, 110u8);
    }
    assert(hash_prefix(b, 12) == 0x4cc646fd19e48f0eu64) by {
        assert(fnv1a_byte_arith(0xd61488db8187e1c9u64, 115u8) == 0x4cc646fd19e48f0eu64) by (nonlinear_arith);
        lemma_fnv1a_next(b, 11, 0xd61488db8187e1c9u64, 115u8);
    }
    assert(hash_prefix(b, 13) == 0x597a0b12ff5fb2d1u64) by {
        assert(fnv1a_byte_arith(0x4cc646fd19e48f0eu64, 101u8) == 0x597a0b12ff5fb2d1u64) by (nonlinear_arith);
        lemma_fnv1a_next(b, 12, 0x4cc646fd19e48f0eu64, 101u8);
    }
    assert(hash_prefix(b, 14) == 0x6a135f47ef9c674au64) by {
        assert(fnv1a_byte_arith(0x597a0b12ff5fb2d1u64, 95u8) == 0x6a135f47ef9c674au64) by (nonlinear_arith);
        lemma_fnv1a_next(b, 13, 0x597a0b12ff5fb2d1u64, 95u8);
    }
    assert(hash_prefix(b, 15) == 0xdb52203c26c365dbu64) by {
        assert(fnv1a_byte_arith(0x6a135f47ef9c674au64, 115u8) == 0xdb52203c26c365dbu64) by (nonlinear_arith);
        lemma_fnv1a_next(b, 14, 0x6a135f47ef9c674au64, 115u8);
    }
    assert(hash_prefix(b, 16) == 0x6ff27835de05cd76u64) by {
        assert(fnv1a_byte_arith(0xdb52203c26c365dbu64, 105u8) == 0x6ff27835de05cd76u64) by (nonlinear_arith);
        lemma_fnv1a_next(b, 15, 0xdb52203c26c365dbu64, 105u8);
    }
    assert(hash_prefix(b, 17) == 0x3ecf4f8843db6b64u64) by {
        assert(fnv1a_byte_arith(0x6ff27835de05cd76u64, 122u8) == 0x3ecf4f8843db6b64u64) by (nonlinear_arith);
        lemma_fnv1a_next(b, 16, 0x6ff27835de05cd76u64, 122u8);
    }
    assert(hash_prefix(b, 18) == 0x95af258b4dd6d2b3u64) by {
        assert(fnv1a_byte_arith(0x3ecf4f8843db6b64u64, 101u8) == 0x95af258b4dd6d2b3u64) by (nonlinear_arith);
        lemma_fnv1a_next(b, 17, 0x3ecf4f8843db6b64u64, 101u8);
    }
    assert(hash_prefix(b, 19) == 0x2f6fb7b544086704u64) by {
        assert(fnv1a_byte_arith(0x95af258b4dd6d2b3u64, 95u8) == 0x2f6fb7b544086704u64) by (nonlinear_arith);
        lemma_fnv1a_next(b, 18, 0x95af258b4dd6d2b3u64, 95u8);
    }
    assert(hash_prefix(b, 20) == 0xa33c8f029a47b252u64) by {
        assert(fnv1a_byte_arith(0x2f6fb7b544086704u64, 98u8) == 0xa33c8f029a47b252u64) by (nonlinear_arith);
        lemma_fnv1a_next(b, 19, 0x2f6fb7b544086704u64, 98u8);
    }
    assert(hash_prefix(b, 21) == 0xa7992c6c27d3bf11u64) by {
        assert(fnv1a_byte_arith(0xa33c8f029a47b252u64, 121u8) == 0xa7992c6c27d3bf11u64) by (nonlinear_arith);
        lemma_fnv1a_next(b, 20, 0xa33c8f029a47b252u64, 121u8);
    }
    assert(hash_prefix(b, 22) == 0x9d05e0c7acce389fu64) by {
        assert(fnv1a_byte_arith(0xa7992c6c27d3bf11u64, 116u8) == 0x9d05e0c7acce389fu64) by (nonlinear_arith);
        lemma_fnv1a_next(b, 21, 0xa7992c6c27d3bf11u64, 116u8);
    }
    assert(hash_prefix(b, 23) == 0x9f35ed4aa26ad0ceu64) by {
        assert(fnv1a_byte_arith(0x9d05e0c7acce389fu64, 101u8) == 0x9f35ed4aa26ad0ceu64) by (nonlinear_arith);
        lemma_fnv1a_next(b, 22, 0x9d05e0c7acce389fu64, 101u8);
    }
    assert(hash_prefix(b, 24) == 0xf372f2d1fb80b127u64) by {
        assert(fnv1a_byte_arith(0x9f35ed4aa26ad0ceu64, 115u8) == 0xf372f2d1fb80b127u64) by (nonlinear_arith);
        lemma_fnv1a_next(b, 23, 0x9f35ed4aa26ad0ceu64, 115u8);
    }
    assert(hash_prefix(b, 25) == 0x2d0472ce5bae3208u64) by {
        assert(fnv1a_byte_arith(0xf372f2d1fb80b127u64, 255u8) == 0x2d0472ce5bae3208u64) by (nonlinear_arith);
        lemma_fnv1a_next(b, 24, 0xf372f2d1fb80b127u64, 255u8);
    }
    lemma_hash_prefix_all(b);
}

/// The bytes that the descriptor id of `http2_streams_total` hashes.
proof fn lemma_bytes_http2_streams_total()
    ensures
        descriptor_id("http2_streams_total"@) == fnv1a(seq![104u8, 116u8, 116u8, 112u8, 50u8, 95u8, 115u8, 116u8, 114u8, 101u8, 97u8, 109u8, 115u8, 95u8, 116u8, 111u8, 116u8, 97u8, 108u8, 255u8]),
{
    reveal_strlit("http2_streams_total");
    lemma_ascii_descriptor_bytes("http2_streams_total"@, seq![104u8, 116u8, 116u8, 112u8, 50u8, 95u8, 115u8, 116u8, 114u8, 101u8, 97u8, 109u8, 115u8, 95u8, 116u8, 111u8, 116u8, 97u8, 108u8, 255u8]);
}

/// The hash of the bytes of `http2_streams_total`.
#[verifier::spinoff_prover]
proof fn lemma_hash_http2_streams_total(b: Seq<u8>)
    requires
        b.len() == 20,
        b[0] == 104u8,
        b[1] == 116u8,
        b[2] == 116u8,
        b[3] == 112u8,
        b[4] == 50u8,
        b[5] == 95u8,
        b[6] == 115u8,
        b[7] == 116u8,
        b[8] == 114u8,
        b[9] == 101u8,
        b[10] == 97u8,
        b[11] == 109u8,
        b[12] == 115u8,
        b[13] == 95u8,
        b[14] == 116u8,
        b[15] == 111u8,
        b[16] == 116u8,
        b[17] == 97u8,
        b[18] == 108u8,
        b[19] == 255u8,
    ensures
        fnv1a(b) == 0x5b5e9507a0720f27u64,
{
    lemma_fnv1a_empty(b);
    assert(hash_prefix(b, 1) == 0xaf63e54c8601fbd7u64) by {
        assert(fnv1a_byte_arith(0xcbf29ce484222325u64, 104u8) == 0xaf63e54c8601fbd7u64) by (nonlinear_arith);
        lemma_fnv1a_next(b, 0, 0xcbf29ce484222325u64, 104u8);
    }
    assert(hash_prefix(b, 2) == 0x08ba4407b55e95f9u64) by {
        assert(fnv1a_byte_arith(0xaf63e54c8601fbd7u64, 116u8) == 0x08ba4407b55e95f9u64) by (nonlinear_arith);
        lemma_fnv1a_next(b, 1, 0xaf63e54c8601fbd7u64, 116u8);
    }
    assert(hash_prefix(b, 3) == 0x331726192fb81e97u64) by {
        assert(fnv1a_byte_arith(0x08ba4407b55e95f9u64, 116u8) == 0x331726192fb81e97u64) by (nonlinear_arith);
        lemma_fnv1a_next(b, 2, 0x08ba4407b55e95f9u64, 116u8);
    }
    assert(hash_prefix(b, 4) == 0x8874a3cc15dc8285u64) by {
        assert(fnv1a_byte_arith(0x331726192fb81e97u64, 112u8) == 0x8874a3cc15dc8285u64) by (nonlinear_arith);
        lemma_fnv1a_next(b, 3, 0x331726192fb81e97u64, 112u8);
    }
    assert(hash_prefix(b, 5) == 0xbab50ac925b21cf5u64) by {
        assert(fnv1a_byte_arith(0x8874a3cc15dc8285u64, 50u8) == 0xbab50ac925b21cf5u64) by (nonlinear_arith);
        lemma_fnv1a_next(b, 4, 0x8874a3cc15dc8285u64, 50u8);
    }
    assert(hash_prefix(b, 6) == 0xf3bdfdcb0da6b4deu64) by {
        assert(fnv1a_byte_arith(0xbab50ac925b21cf5u64, 95u8) == 0xf3bdfdcb0da6b4deu64) by (nonlinear_arith);
        lemma_fnv1a_next(b, 5, 0xbab50ac925b21cf5u64, 95u8);
    }
    assert(hash_prefix(b, 7) == 0xd28aed08324501f7u64) by {
        assert(fnv1a_byte_arith(0xf3bdfdcb0da6b4deu64, 115u8) == 0xd28aed08324501f7u64) by (nonlinear_arith);
        lemma_fnv1a_next(b, 6, 0xf3bdfdcb0da6b4deu64, 115u8);
    }
    assert(hash_prefix(b, 8) == 0x071247ed6b419199u64) by {
        assert(fnv1a_byte_arith(0xd28aed08324501f7u64, 116u8) == 0x071247ed6b419199u64) by (nonlinear_arith);
        lemma_fnv1a_next(b, 7, 0xd28aed08324501f7u64, 116u8);
    }
    assert(hash_prefix(b, 9) == 0x45a2236d406af251u64) by {
        assert(fnv1a_byte_arith(0x071247ed6b419199u64, 114u8) == 0x45a2236d406af251u64) by (nonlinear_arith);
        lemma_fnv1a_next(b, 8, 0x071247ed6b419199u64, 114u8);
    }
    assert(hash_prefix(b, 10) == 0xbd7466a475b98e5cu64) by {
        assert(fnv1a_byte_arith(0x45a2236d406af251u64, 101u8) == 0xbd7466a475b98e5cu64) by (nonlinear_arith);
        lemma_fnv1a_next(b, 9, 0x45a2236d406af251u64, 101u8);
    }
    assert(hash_prefix(b, 11) == 0xa658a6740a4cb1a7u64) by {
        assert(fnv1a_byte_arith(0xbd7466a475b98e5cu64, 97u8) == 0xa658a6740a4cb1a7u64) by (nonlinear_arith);
        lemma_fnv1a_next(b, 10, 0xbd7466a475b98e5cu64, 97u8);
    }
    assert(hash_prefix(b, 12) == 0xf554a12d80521a3eu64) by {
        assert(fnv1a_byte_arith(0xa658a6740a4cb1a7u64, 109u8) == 0xf554a12d80521a3eu64) by (nonlinear_arith);
        lemma_fnv1a_next(b, 11, 0xa658a6740a4cb1a7u64, 109u8);
    }
    assert(hash_prefix(b, 13) == 0x30e82d510b82b0d7u64) by {
        assert(fnv1a_byte_arith(0xf554a12d80521a3eu64, 115u8) == 0x30e82d510b82b0d7u64) by (nonlinear_arith);
        lemma_fnv1a_next(b, 12, 0xf554a12d80521a3eu64, 115u8);
    }
    assert(hash_prefix(b, 14) == 0x9d3588b68f11f718u64) by {
        assert(fnv1a_byte_arith(0x30e82d510b82b0d7u64, 95u8) == 0x9d3588b68f11f718u64) by (nonlinear_arith);
        lemma_fnv1a_next(b, 13, 0x30e82d510b82b0d7u64, 95u8);
    }
    assert(hash_prefix(b, 15) == 0x33eeba351b876c84u64) by {
        assert(fnv1a_byte_arith(0x9d3588b68f11f718u64, 116u8) == 0x33eeba351b876c84u64) by (nonlinear_arith);
        lemma_fnv1a_next(b, 14, 0x9d3588b68f11f718u64, 116u8);
    }
    assert(hash_prefix(b, 16) == 0xc613533dc71e1351u64) by {
        assert(fnv1a_byte_arith(0x33eeba351b876c84u64, 111u8) == 0xc613533dc71e1351u64) by (nonlinear_arith);
        lemma_fnv1a_next(b, 15, 0x33eeba351b876c84u64, 111u8);
    }
    assert(hash_prefix(b, 17) == 0xb0e996f9581a87dfu64) by {
        assert(fnv1a_byte_arith(0xc613533dc71e1351u64, 116u8) == 0xb0e996f9581a87dfu64) by (nonlinear_arith);
        lemma_fnv1a_next(b, 16, 0xc613533dc71e1351u64, 116u8);
    }
    assert(hash_prefix(b, 18) == 0xb77347b0b514a7dau64) by {
        assert(fnv1a_byte_arith(0xb0e996f9581a87dfu64, 97u8) == 0xb77347b0b514a7dau64) by (nonlinear_arith);
        lemma_fnv1a_next(b, 17, 0xb0e996f9581a87dfu64, 97u8);
    }
    assert(hash_prefix(b, 19) == 0xcd8a8743b218fa42u64) by {
        assert(fnv1a_byte_arith(0xb77347b0b514a7dau64, 108u8) == 0xcd8a8743b218fa42u64) by (nonlinear_arith);
        lemma_fnv1a_next(b, 18, 0xb77347b0b514a7dau64, 108u8);
    }
    assert(hash_prefix(b, 20) == 0x5b5e9507a0720f27u64) by {
        assert(fnv1a_byte_arith(0xcd8a8743b218fa42u64, 255u8) == 0x5b5e9507a0720f27u64) by (nonlinear_arith);
        lemma_fnv1a_next(b, 19, 0xcd8a8743b218fa42u64, 255u8);
    }
    lemma_hash_prefix_all(b);
}

/// The bytes that the descriptor id of `http2_stream_resets_total` hashes.
proof fn lemma_bytes_http2_stream_resets_total()
    ensures
        descriptor_id("http2_stream_resets_total"@) == fnv1a(seq![104u8, 116u8, 116u8, 112u8, 50u8, 95u8, 115u8, 116u8, 114u8, 101u8, 97u8, 109u8, 95u8, 114u8, 101u8, 115u8, 101u8, 116u8, 115u8, 95u8, 116u8, 111u8, 116u8, 97u8, 108u8, 255u8]),
{
    reveal_strlit("http2_stream_resets_total");
    lemma_ascii_descriptor_bytes("http2_stream_resets_total"@, seq![104u8, 116u8, 116u8, 112u8, 50u8, 95u8, 115u8, 116u8, 114u8, 101u8, 97u8, 109u8, 95u8, 114u8, 101u8, 115u8, 101u8, 116u8, 115u8, 95u8, 116u8, 111u8, 116u8, 97u8, 108u8, 255u8]);
}

/// The hash of the bytes of `http2_stream_resets_total`.
#[verifier::spinoff_prover]
proof fn lemma_hash_http2_stream_resets_total(b: Seq<u8>)
    requires
        b.len() == 26,
        b[0] == 104u8,
        b[1] == 116u8,
        b[2] == 116u8,
        b[3] == 112u8,
        b[4] == 50u8,
        b[5] == 95u8,
        b[6] == 115u8,
        b[7] == 116u8,
        b[8] == 114u8,
        b[9] == 101u8,
        b[10] == 97u8,
        b[11] == 109u8,
        b[12] == 95u8,
        b[13] == 114u8,
        b[14] == 101u8,
        b[15] == 115u8,
        b[16] == 101u8,
        b[17] == 116u8,
        b[18] == 115u8,
        b[19] == 95u8,
        b[20] == 116u8,
        b[21] == 111u8,
        b[22] == 116u8,
        b[23] == 97u8,
        b[24] == 108u8,
        b[25] == 255u8,
    ensures
        fnv1a(b) == 0x716d0195e7e43ebbu64,
{
    lemma_fnv1a_empty(b);
    assert(hash_prefix(b, 1) == 0xaf63e54c8601fbd7u64) by {
        assert(fnv1a_byte_arith(0xcbf29ce484222325u64, 104u8) == 0xaf63e54c8601fbd7u64) by (nonlinear_arith);
        lemma_fnv1a_next(b, 0, 0xcbf29ce484222325u64, 104u8);
    }
    assert(hash_prefix(b, 2) == 0x08ba4407b55e95f9u64) by {
        assert(fnv1a_byte_arith(0xaf63e54c8601fbd7u64, 116u8) == 0x08ba4407b55e95f9u64) by (nonlinear_arith);
        lemma_fnv1a_next(b, 1, 0xaf63e54c8601fbd7u64, 116u8);
    }
    assert(hash_prefix(b, 3) == 0x331726192fb81e97u64) by {
        assert(fnv1a_byte_arith(0x08ba4407b55e95f9u64, 116u8) == 0x331726192fb81e97u64) by (nonlinear_arith);
        lemma_fnv1a_next(b, 2, 0x08ba4407b55e95f9u64, 116u8);
    }
    assert(hash_prefix(b, 4) == 0x8874a3cc15dc8285u64) by {
        assert(fnv1a_byte_arith(0x331726192fb81e97u64, 112u8) == 0x8874a3cc15dc8285u64) by (nonlinear_arith);
        lemma_fnv1a_next(b, 3, 0x331726192fb81e97u64, 112u8);
    }
    assert(hash_prefix(b, 5) == 0xbab50ac925b21cf5u64) by {
        assert(fnv1a_byte_arith(0x8874a3cc15dc8285u64, 50u8) == 0xbab50ac925b21cf5u64) by (nonlinear_arith);
        lemma_fnv1a_next(b, 4, 0x8874a3cc15dc8285u64, 50u8);
    }
    assert(hash_prefix(b, 6) == 0xf3bdfdcb0da6b4deu64) by {
        assert(fnv1a_byte_arith(0xbab50ac925b21cf5u64, 95u8) == 0xf3bdfdcb0da6b4deu64) by (nonlinear_arith);
        lemma_fnv1a_next(b, 5, 0xbab50ac925b21cf5u64, 95u8);
    }
    assert(hash_prefix(b, 7) == 0xd28aed08324501f7u64) by {
        assert(fnv1a_byte_arith(0xf3bdfdcb0da6b4deu64, 115u8) == 0xd28aed08324501f7u64) by (nonlinear_arith);
        lemma_fnv1a_next(b, 6, 0xf3bdfdcb0da6b4deu64, 115u8);
    }
    assert(hash_prefix(b, 8) == 0x071247ed6b419199u64) by {
        assert(fnv1a_byte_arith(0xd28aed08324501f7u64, 116u8) == 0x071247ed6b419199u64) by (nonlinear_arith);
        lemma_fnv1a_next(b, 7, 0xd28aed08324501f7u64, 116u8);
    }
    assert(hash_prefix(b, 9) == 0x45a2236d406af251u64) by {
        assert(fnv1a_byte_arith(0x071247ed6b419199u64, 114u8) == 0x45a2236d406af251u64) by (nonlinear_arith);
        lemma_fnv1a_next(b, 8, 0x071247ed6b419199u64, 114u8);
    }
    assert(hash_prefix(b, 10) == 0xbd7466a475b98e5cu64) by {
        assert(fnv1a_byte_arith(0x45a2236d406af251u64, 101u8) == 0xbd7466a475b98e5cu64) by (nonlinear_arith);
        lemma_fnv1a_next(b, 9, 0x45a2236d406af251u64, 101u8);
    }
    assert(hash_prefix(b, 11) == 0xa658a6740a4cb1a7u64) by {
        assert(fnv1a_byte_arith(0xbd7466a475b98e5cu64, 97u8) == 0xa658a6740a4cb1a7u64) by (nonlinear_arith);
        lemma_fnv1a_next(b, 10, 0xbd7466a475b98e5cu64, 97u8);
    }
    assert(hash_prefix(b, 12) == 0xf554a12d80521a3eu64) by {
        assert(fnv1a_byte_arith(0xa658a6740a4cb1a7u64, 109u8) == 0xf554a12d80521a3eu64) by (nonlinear_arith);
        lemma_fnv1a_next(b, 11, 0xa658a6740a4cb1a7u64, 109u8);
    }
    assert(hash_prefix(b, 13) == 0x30e841510b82d2d3u64) by {
        assert(fnv1a_byte_arith(0xf554a12d80521a3eu64, 95u8) == 0x30e841510b82d2d3u64) by (nonlinear_arith);
        lemma_fnv1a_next(b, 12, 0xf554a12d80521a3eu64, 95u8);
    }
    assert(hash_prefix(b, 14) == 0x9d799db68f4be793u64) by {
        assert(fnv1a_byte_arith(0x30e841510b82d2d3u64, 114u8) == 0x9d799db68f4be793u64) by (nonlinear_arith);
        lemma_fnv1a_next(b, 13, 0x30e841510b82d2d3u64, 114u8);
    }
    assert(hash_prefix(b, 15) == 0xe18ef3357dfb2702u64) by {
        assert(fnv1a_byte_arith(0x9d799db68f4be793u64, 101u8) == 0xe18ef3357dfb2702u64) by (nonlinear_arith);
        lemma_fnv1a_next(b, 14, 0x9d799db68f4be793u64, 101u8);
    }
    assert(hash_prefix(b, 16) == 0x410eb4e511c40503u64) by {
        assert(fnv1a_byte_arith(0xe18ef3357dfb2702u64, 115u8) == 0x410eb4e511c40503u64) by (nonlinear_arith);
        lemma_fnv1a_next(b, 15, 0xe18ef3357dfb2702u64, 115u8);
    }
    assert(hash_prefix(b, 17) == 0x5002c73d30152c52u64) by {
        assert(fnv1a_byte_arith(0x410eb4e511c40503u64, 101u8) == 0x5002c73d30152c52u64) by (nonlinear_arith);
        lemma_fnv1a_next(b, 16, 0x410eb4e511c40503u64, 101u8);
    }
    assert(hash_prefix(b, 18) == 0x09e4b2f8b3fa0492u64) by {
        assert(fnv1a_byte_arith(0x5002c73d30152c52u64, 116u8) == 0x09e4b2f8b3fa0492u64) by (nonlinear_arith);
        lemma_fnv1a_next(b, 17, 0x5002c73d30152c52u64, 116u8);
    }
    assert(hash_prefix(b, 19) == 0xc9a0fd99d1d64a53u64) by {
        assert(fnv1a_byte_arith(0x09e4b2f8b3fa0492u64, 115u8) == 0xc9a0fd99d1d64a53u64) by (nonlinear_arith);
        lemma_fnv1a_next(b, 18, 0x09e4b2f8b3fa0492u64, 115u8);
    }
    assert(hash_prefix(b, 20) == 0x72d8f85f8f1fd264u64) by {
        assert(fnv1a_byte_arith(0xc9a0fd99d1d64a53u64, 95u8) == 0x72d8f85f8f1fd264u64) by (nonlinear_arith);
        lemma_fnv1a_next(b, 19, 0xc9a0fd99d1d64a53u64, 95u8);
    }
    assert(hash_prefix(b, 21) == 0x46801a603311f130u64) by {
        assert(fnv1a_byte_arith(0x72d8f85f8f1fd264u64, 116u8) == 0x46801a603311f130u64) by (nonlinear_arith);
        lemma_fnv1a_next(b, 20, 0x72d8f85f8f1fd264u64, 116u8);
    }
    assert(hash_prefix(b, 22) == 0xdd9e3076c77d246du64) by {
        assert(fnv1a_byte_arith(0x46801a603311f130u64, 111u8) == 0xdd9e3076c77d246du64) by (nonlinear_arith);
        lemma_fnv1a_next(b, 21, 0x46801a603311f130u64, 111u8);
    }
    assert(hash_prefix(b, 23) == 0x10f072d4f9a4567bu64) by {
        assert(fnv1a_byte_arith(0xdd9e3076c77d246du64, 116u8) == 0x10f072d4f9a4567bu64) by (nonlinear_arith);
        lemma_fnv1a_next(b, 22, 0xdd9e3076c77d246du64, 116u8);
    }
    assert(hash_prefix(b, 24) == 0x6ce939e4323e4e2eu64) by {
        assert(fnv1a_byte_arith(0x10f072d4f9a4567bu64, 97u8) == 0x6ce939e4323e4e2eu64) by (nonlinear_arith);
        lemma_fnv1a_next(b, 23, 0x10f072d4f9a4567bu64, 97u8);
    }
    assert(hash_prefix(b, 25) == 0x4e9ba0c15fdefa26u64) by {
        assert(fnv1a_byte_arith(0x6ce939e4323e4e2eu64, 108u8) == 0x4e9ba0c15fdefa26u64) by (nonlinear_arith);
        lemma_fnv1a_next(b, 24, 0x6ce939e4323e4e2eu64, 108u8);
    }
    assert(hash_prefix(b, 26) == 0x716d0195e7e43ebbu64) by {
        assert(fnv1a_byte_arith(0x4e9ba0c15fdefa26u64, 255u8) == 0x716d0195e7e43ebbu64) by (nonlinear_arith);
        lemma_fnv1a_next(b, 25, 0x4e9ba0c15fdefa26u64, 255u8);
    }
    lemma_hash_prefix_all(b);
}

/// The bytes that the descriptor id of `http2_bytes_total` hashes.
proof fn lemma_bytes_http2_bytes_total()
    ensures
        descriptor_id("http2_bytes_total"@) == fnv1a(seq![104u8, 116u8, 116u8, 112u8, 50u8, 95u8, 98u8, 121u8, 116u8, 101u8, 115u8, 95u8, 116u8, 111u8, 116u8, 97u8, 108u8, 255u8]),
{
    reveal_strlit("http2_bytes_total");
    lemma_ascii_descriptor_bytes("http2_bytes_total"@, seq![104u8, 116u8, 116u8, 112u8, 50u8, 95u8, 98u8, 121u8, 116u8, 101u8, 115u8, 95u8, 116u8, 111u8, 116u8, 97u8, 108u8, 255u8]);
}

/// The hash of the bytes of `http2_bytes_total`.
#[verifier::spinoff_prover]
proof fn lemma_hash_http2_bytes_total(b: Seq<u8>)
    requires
        b.len() == 18,
        b[0] == 104u8,
        b[1] == 116u8,
        b[2] == 116u8,
        b[3] == 112u8,
        b[4] == 50u8,
        b[5] == 95u8,
        b[6] == 98u8,
        b[7] == 121u8,
        b[8] == 116u8,
        b[9] == 101u8,
        b[10] == 115u8,
        b[11] == 95u8,
        b[12] == 116u8,
        b[13] == 111u8,
        b[14] == 116u8,
        b[15] == 97u8,
        b[16] == 108u8,
        b[17] == 255u8,
    ensures
        fnv1a(b) == 0x1999030f996508edu64,
{
    lemma_fnv1a_empty(b);
    assert(hash_prefix(b, 1) == 0xaf63e54c8601fbd7u64) by {
        assert(fnv1a_byte_arith(0xcbf29ce484222325u64, 104u8) == 0xaf63e54c8601fbd7u64) by (nonlinear_arith);
        lemma_fnv1a_next(b, 0, 0xcbf29ce484222325u64, 104u8);
    }
    assert(hash_prefix(b, 2) == 0x08ba4407b55e95f9u64) by {
        assert(fnv1a_byte_arith(0xaf63e54c8601fbd7u64, 116u8) == 0x08ba4407b55e95f9u64) by (nonlinear_arith);
        lemma_fnv1a_next(b, 1, 0xaf63e54c8601fbd7u64, 116u8);
    }
    assert(hash_prefix(b, 3) == 0x331726192fb81e97u64) by {
        assert(fnv1a_byte_arith(0x08ba4407b55e95f9u64, 116u8) == 0x331726192fb81e97u64) by (nonlinear_arith);
        lemma_fnv1a_next(b, 2, 0x08ba4407b55e95f9u64, 116u8);
    }
    assert(hash_prefix(b, 4) == 0x8874a3cc15dc8285u64) by {
        assert(fnv1a_byte_arith(0x331726192fb81e97u64, 112u8) == 0x8874a3cc15dc8285u64) by (nonlinear_arith);
        lemma_fnv1a_next(b, 3, 0x331726192fb81e97u64, 112u8);
    }
    assert(hash_prefix(b, 5) == 0xbab50ac925b21cf5u64) by {
        assert(fnv1a_byte_arith(0x8874a3cc15dc8285u64, 50u8) == 0xbab50ac925b21cf5u64) by (nonlinear_arith);
        lemma_fnv1a_next(b, 4, 0x8874a3cc15dc8285u64, 50u8);
    }
    assert(hash_prefix(b, 6) == 0xf3bdfdcb0da6b4deu64) by {
        assert(fnv1a_byte_arith(0xbab50ac925b21cf5u64, 95u8) == 0xf3bdfdcb0da6b4deu64) by (nonlinear_arith);
        lemma_fnv1a_next(b, 5, 0xbab50ac925b21cf5u64, 95u8);
    }
    assert(hash_prefix(b, 7) == 0xd28afc0832451b74u64) by {
        assert(fnv1a_byte_arith(0xf3bdfdcb0da6b4deu64, 98u8) == 0xd28afc0832451b74u64) by (nonlinear_arith);
        lemma_fnv1a_next(b, 6, 0xf3bdfdcb0da6b4deu64, 98u8);
    }
    assert(hash_prefix(b, 8) == 0x07454eed6b6cf717u64) by {
        assert(fnv1a_byte_arith(0xd28afc0832451b74u64, 121u8) == 0x07454eed6b6cf717u64) by (nonlinear_arith);
        lemma_fnv1a_next(b, 7, 0xd28afc0832451b74u64, 121u8);
    }
    assert(hash_prefix(b, 9) == 0xc7bc806d8a285d39u64) by {
        assert(fnv1a_byte_arith(0x07454eed6b6cf717u64, 116u8) == 0xc7bc806d8a285d39u64) by (nonlinear_arith);
        lemma_fnv1a_next(b, 8, 0x07454eed6b6cf717u64, 116u8);
    }
    assert(hash_prefix(b, 10) == 0x8dab9621c296a354u64) by {
        assert(fnv1a_byte_arith(0xc7bc806d8a285d39u64, 101u8) == 0x8dab9621c296a354u64) by (nonlinear_arith);
        lemma_fnv1a_next(b, 9, 0xc7bc806d8a285d39u64, 101u8);
    }
    assert(hash_prefix(b, 11) == 0x5133425da5f73b45u64) by {
        assert(fnv1a_byte_arith(0x8dab9621c296a354u64, 115u8) == 0x5133425da5f73b45u64) by (nonlinear_arith);
        lemma_fnv1a_next(b, 10, 0x8dab9621c296a354u64, 115u8);
    }
    assert(hash_prefix(b, 12) == 0xf154df2103196d2eu64) by {
        assert(fnv1a_byte_arith(0x5133425da5f73b45u64, 95u8) == 0xf154df2103196d2eu64) by (nonlinear_arith);
        lemma_fnv1a_next(b, 11, 0x5133425da5f73b45u64, 95u8);
    }
    assert(hash_prefix(b, 13) == 0x2ca47f184434cfeeu64) by {
        assert(fnv1a_byte_arith(0xf154df2103196d2eu64, 116u8) == 0x2ca47f184434cfeeu64) by (nonlinear_arith);
        lemma_fnv1a_next(b, 12, 0xf154df2103196d2eu64, 116u8);
    }
    assert(hash_prefix(b, 14) == 0x1053773be5bc9833u64) by {
        assert(fnv1a_byte_arith(0x2ca47f184434cfeeu64, 111u8) == 0x1053773be5bc9833u64) by (nonlinear_arith);
        lemma_fnv1a_next(b, 13, 0x2ca47f184434cfeeu64, 111u8);
    }
    assert(hash_prefix(b, 15) == 0x7a6be1c75f76c0a5u64) by {
        assert(fnv1a_byte_arith(0x1053773be5bc9833u64, 116u8) == 0x7a6be1c75f76c0a5u64) by (nonlinear_arith);
        lemma_fnv1a_next(b, 14, 0x1053773be5bc9833u64, 116u8);
    }
    assert(hash_prefix(b, 16) == 0x7c1169c736c98d0cu64) by {
        assert(fnv1a_byte_arith(0x7a6be1c75f76c0a5u64, 97u8) == 0x7c1169c736c98d0cu64) by (nonlinear_arith);
        lemma_fnv1a_next(b, 15, 0x7a6be1c75f76c0a5u64, 97u8);
    }
    assert(hash_prefix(b, 17) == 0x9b241d82187b3a20u64) by {
        assert(fnv1a_byte_arith(0x7c1169c736c98d0cu64, 108u8) == 0x9b241d82187b3a20u64) by (nonlinear_arith);
        lemma_fnv1a_next(b, 16, 0x7c1169c736c98d0cu64, 108u8);
    }
    assert(hash_prefix(b, 18) == 0x1999030f996508edu64) by {
        assert(fnv1a_byte_arith(0x9b241d82187b3a20u64, 255u8) == 0x1999030f996508edu64) by (nonlinear_arith);
        lemma_fnv1a_next(b, 17, 0x9b241d82187b3a20u64, 255u8);
    }
    lemma_hash_prefix_all(b);
}

/// The bytes that the descriptor id of `quic_packets_total` hashes.
proof fn lemma_bytes_quic_packets_total()
    ensures
        descriptor_id("quic_packets_total"@) == fnv1a(seq![113u8, 117u8, 105u8, 99u8, 95u8, 112u8, 97u8, 99u8, 107u8, 101u8, 116u8, 115u8, 95u8, 116u8, 111u8, 116u8, 97u8, 108u8, 255u8]),
{
    reveal_strlit("quic_packets_total");
    lemma_ascii_descriptor_bytes("quic_packets_total"@, seq![113u8, 117u8, 105u8, 99u8, 95u8, 112u8, 97u8, 99u8, 107u8, 101u8, 116u8, 115u8, 95u8, 116u8, 111u8, 116u8, 97u8, 108u8, 255u8]);
}

/// The hash of the bytes of `quic_packets_total`.
#[verifier::spinoff_prover]
proof fn lemma_hash_quic_packets_total(b: Seq<u8>)
    requires
        b.len() == 19,
        b[0] == 113u8,
        b[1] == 117u8,
        b[2] == 105u8,
        b[3] == 99u8,
        b[4] == 95u8,
        b[5] == 112u8,
        b[6] == 97u8,
        b[7] == 99u8,
        b[8] == 107u8,
        b[9] == 101u8,
        b[10] == 116u8,
        b[11] == 115u8,
        b[12] == 95u8,
        b[13] == 116u8,
        b[14] == 111u8,
        b[15] == 116u8,
        b[16] == 97u8,
        b[17] == 108u8,
        b[18] == 255u8,
    ensures
        fnv1a(b) == 0x1c5a94240fe952a1u64,
{
    lemma_fnv1a_empty(b);
    assert(hash_prefix(b, 1) == 0xaf63ec4c860207bcu64) by {
        assert(fnv1a_byte_arith(0xcbf29ce484222325u64, 113u8) == 0xaf63ec4c860207bcu64) by (nonlinear_arith);
        lemma_fnv1a_next(b, 0, 0xcbf29ce484222325u64, 113u8);
    }
    assert(hash_prefix(b, 2) == 0x08d24f07b5733a8bu64) by {
        assert(fnv1a_byte_arith(0xaf63ec4c860207bcu64, 117u8) == 0x08d24f07b5733a8bu64) by (nonlinear_arith);
        lemma_fnv1a_next(b, 1, 0xaf63ec4c860207bcu64, 117u8);
    }
    assert(hash_prefix(b, 3) == 0x70972c1952cd0e06u64) by {
        assert(fnv1a_byte_arith(0x08d24f07b5733a8bu64, 105u8) == 0x70972c1952cd0e06u64) by (nonlinear_arith);
        lemma_fnv1a_next(b, 2, 0x08d24f07b5733a8bu64, 105u8);
    }
    assert(hash_prefix(b, 4) == 0x1dee5407b26f759fu64) by {
        assert(fnv1a_byte_arith(0x70972c1952cd0e06u64, 99u8) == 0x1dee5407b26f759fu64) by (nonlinear_arith);
        lemma_fnv1a_next(b, 3, 0x70972c1952cd0e06u64, 99u8);
    }
    assert(hash_prefix(b, 5) == 0x4b6e891433651540u64) by {
        assert(fnv1a_byte_arith(0x1dee5407b26f759fu64, 95u8) == 0x4b6e891433651540u64) by (nonlinear_arith);
        lemma_fnv1a_next(b, 4, 0x1dee5407b26f759fu64, 95u8);
    }
    assert(hash_prefix(b, 6) == 0x91e81d5354c30090u64) by {
        assert(fnv1a_byte_arith(0x4b6e891433651540u64, 112u8) == 0x91e81d5354c30090u64) by (nonlinear_arith);
        lemma_fnv1a_next(b, 5, 0x4b6e891433651540u64, 112u8);
    }
    assert(hash_prefix(b, 7) == 0xb06ac599075a9983u64) by {
        assert(fnv1a_byte_arith(0x91e81d5354c30090u64, 97u8) == 0xb06ac599075a9983u64) by (nonlinear_arith);
        lemma_fnv1a_next(b, 6, 0x91e81d5354c30090u64, 97u8);
    }
    assert(hash_prefix(b, 8) == 0x2007a3077ef377a0u64) by {
        assert(fnv1a_byte_arith(0xb06ac599075a9983u64, 99u8) == 0x2007a3077ef377a0u64) by (nonlinear_arith);
        lemma_fnv1a_next(b, 7, 0xb06ac599075a9983u64, 99u8);
    }
    assert(hash_prefix(b, 9) == 0x6071d0bcb7b48df1u64) by {
        assert(fnv1a_byte_arith(0x2007a3077ef377a0u64, 107u8) == 0x6071d0bcb7b48df1u64) by (nonlinear_arith);
        lemma_fnv1a_next(b, 8, 0x2007a3077ef377a0u64, 107u8);
    }
    assert(hash_prefix(b, 10) == 0x95f344ac27cc927cu64) by {
        assert(fnv1a_byte_arith(0x6071d0bcb7b48df1u64, 101u8) == 0x95f344ac27cc927cu64) by (nonlinear_arith);
        lemma_fnv1a_next(b, 9, 0x6071d0bcb7b48df1u64, 101u8);
    }
    assert(hash_prefix(b, 11) == 0x98efb887a09c2398u64) by {
        assert(fnv1a_byte_arith(0x95f344ac27cc927cu64, 116u8) == 0x98efb887a09c2398u64) by (nonlinear_arith);
        lemma_fnv1a_next(b, 10, 0x95f344ac27cc927cu64, 116u8);
    }
    assert(hash_prefix(b, 12) == 0x7b7a7975e9510851u64) by {
        assert(fnv1a_byte_arith(0x98efb887a09c2398u64, 115u8) == 0x7b7a7975e9510851u64) by (nonlinear_arith);
        lemma_fnv1a_next(b, 11, 0x98efb887a09c2398u64, 115u8);
    }
    assert(hash_prefix(b, 13) == 0x2224715b74b0afcau64) by {
        assert(fnv1a_byte_arith(0x7b7a7975e9510851u64, 95u8) == 0x2224715b74b0afcau64) by (nonlinear_arith);
        lemma_fnv1a_next(b, 12, 0x7b7a7975e9510851u64, 95u8);
    }
    assert(hash_prefix(b, 14) == 0xb49c5c67483a9fdau64) by {
        assert(fnv1a_byte_arith(0x2224715b74b0afcau64, 116u8) == 0xb49c5c67483a9fdau64) by (nonlinear_arith);
        lemma_fnv1a_next(b, 13, 0x2224715b74b0afcau64, 116u8);
    }
    assert(hash_prefix(b, 15) == 0x2050b87fbb9d608fu64) by {
        assert(fnv1a_byte_arith(0xb49c5c67483a9fdau64, 111u8) == 0x2050b87fbb9d608fu64) by (nonlinear_arith);
        lemma_fnv1a_next(b, 14, 0xb49c5c67483a9fdau64, 111u8);
    }
    assert(hash_prefix(b, 16) == 0x868a7c0bcc6bca81u64) by {
        assert(fnv1a_byte_arith(0x2050b87fbb9d608fu64, 116u8) == 0x868a7c0bcc6bca81u64) by (nonlinear_arith);
        lemma_fnv1a_next(b, 15, 0x2050b87fbb9d608fu64, 116u8);
    }
    assert(hash_prefix(b, 17) == 0x091ba80c5b29baa0u64) by {
        assert(fnv1a_byte_arith(0x868a7c0bcc6bca81u64, 97u8) == 0x091ba80c5b29baa0u64) by (nonlinear_arith);
        lemma_fnv1a_next(b, 16, 0x868a7c0bcc6bca81u64, 97u8);
    }
    assert(hash_prefix(b, 18) == 0xa3b958fee7e868a4u64) by {
        assert(fnv1a_byte_arith(0x091ba80c5b29baa0u64, 108u8) == 0xa3b958fee7e868a4u64) by (nonlinear_arith);
        lemma_fnv1a_next(b, 17, 0x091ba80c5b29baa0u64, 108u8);
    }
    assert(hash_prefix(b, 19) == 0x1c5a94240fe952a1u64) by {
        assert(fnv1a_byte_arith(0xa3b958fee7e868a4u64, 255u8) == 0x1c5a94240fe952a1u64) by (nonlinear_arith);
        lemma_fnv1a_next(b, 18, 0xa3b958fee7e868a4u64, 255u8);
    }
    lemma_hash_prefix_all(b);
}

/// The bytes that the descriptor id of `quic_bytes_total` hashes.
proof fn lemma_bytes_quic_bytes_total()
    ensures
        descriptor_id("quic_bytes_total"@) == fnv1a(seq![113u8, 117u8, 105u8, 99u8, 95u8, 98u8, 121u8, 116u8, 101u8, 115u8, 95u8, 116u8, 111u8, 116u8, 97u8, 108u8, 255u8]),
{
    reveal_strlit("quic_bytes_total");
    lemma_ascii_descriptor_bytes("quic_bytes_total"@, seq![113u8, 117u8, 105u8, 99u8, 95u8, 98u8, 121u8, 116u8, 101u8, 115u8, 95u8, 116u8, 111u8, 116u8, 97u8, 108u8, 255u8]);
}

/// The hash of the bytes of `quic_bytes_total`.
#[verifier::spinoff_prover]
proof fn lemma_hash_quic_bytes_total(b: Seq<u8>)
    requires
        b.len() == 17,
        b[0] == 113u8,
        b[1] == 117u8,
        b[2] == 105u8,
        b[3] == 99u8,
        b[4] == 95u8,
        b[5] == 98u8,
        b[6] == 121u8,
        b[7] == 116u8,
        b[8] == 101u8,
        b[9] == 115u8,
        b[10] == 95u8,
        b[11] == 116u8,
        b[12] == 111u8,
        b[13] == 116u8,
        b[14] == 97u8,
        b[15] == 108u8,
        b[16] == 255u8,
    ensures
        fnv1a(b) == 0xa88a9b378096c4a3u64,
{
    lemma_fnv1a_empty(b);
    assert(hash_prefix(b, 1) == 0xaf63ec4c860207bcu64) by {
        assert(fnv1a_byte_arith(0xcbf29ce484222325u64, 113u8) == 0xaf63ec4c860207bcu64) by (nonlinear_arith);
        lemma_fnv1a_next(b, 0, 0xcbf29ce484222325u64, 113u8);
    }
    assert(hash_prefix(b, 2) == 0x08d24f07b5733a8bu64) by {
        assert(fnv1a_byte_arith(0xaf63ec4c860207bcu64, 117u8) == 0x08d24f07b5733a8bu64) by (nonlinear_arith);
        lemma_fnv1a_next(b, 1, 0xaf63ec4c860207bcu64, 117u8);
    }
    assert(hash_prefix(b, 3) == 0x70972c1952cd0e06u64) by {
        assert(fnv1a_byte_arith(0x08d24f07b5733a8bu64, 105u8) == 0x70972c1952cd0e06u64) by (nonlinear_arith);
        lemma_fnv1a_next(b, 2, 0x08d24f07b5733a8bu64, 105u8);
    }
    assert(hash_prefix(b, 4) == 0x1dee5407b26f759fu64) by {
        assert(fnv1a_byte_arith(0x70972c1952cd0e06u64, 99u8) == 0x1dee5407b26f759fu64) by (nonlinear_arith);
        lemma_fnv1a_next(b, 3, 0x70972c1952cd0e06u64, 99u8);
    }
    assert(hash_prefix(b, 5) == 0x4b6e891433651540u64) by {
        assert(fnv1a_byte_arith(0x1dee5407b26f759fu64, 95u8) == 0x4b6e891433651540u64) by (nonlinear_arith);
        lemma_fnv1a_next(b, 4, 0x1dee5407b26f759fu64, 95u8);
    }
    assert(hash_prefix(b, 6) == 0x91e80f5354c2e8c6u64) by {
        assert(fnv1a_byte_arith(0x4b6e891433651540u64, 98u8) == 0x91e80f5354c2e8c6u64) by (nonlinear_arith);
        lemma_fnv1a_next(b, 5, 0x4b6e891433651540u64, 98u8);
    }
    assert(hash_prefix(b, 7) == 0xb03ac99907317c8du64) by {
        assert(fnv1a_byte_arith(0x91e80f5354c2e8c6u64, 121u8) == 0xb03ac99907317c8du64) by (nonlinear_arith);
        lemma_fnv1a_next(b, 6, 0x91e80f5354c2e8c6u64, 121u8);
    }
    assert(hash_prefix(b, 8) == 0xa561880739175b1bu64) by {
        assert(fnv1a_byte_arith(0xb03ac99907317c8du64, 116u8) == 0xa561880739175b1bu64) by (nonlinear_arith);
        lemma_fnv1a_next(b, 7, 0xb03ac99907317c8du64, 116u8);
    }
    assert(hash_prefix(b, 9) == 0x1c15a24602b0771au64) by {
        assert(fnv1a_byte_arith(0xa561880739175b1bu64, 101u8) == 0x1c15a24602b0771au64) by (nonlinear_arith);
        lemma_fnv1a_next(b, 8, 0xa561880739175b1bu64, 101u8);
    }
    assert(hash_prefix(b, 10) == 0x693a25f691dae76bu64) by {
        assert(fnv1a_byte_arith(0x1c15a24602b0771au64, 115u8) == 0x693a25f691dae76bu64) by (nonlinear_arith);
        lemma_fnv1a_next(b, 9, 0x1c15a24602b0771au64, 115u8);
    }
    assert(hash_prefix(b, 11) == 0xa8b5b5f9d6f6dd5cu64) by {
        assert(fnv1a_byte_arith(0x693a25f691dae76bu64, 95u8) == 0xa8b5b5f9d6f6dd5cu64) by (nonlinear_arith);
        lemma_fnv1a_next(b, 10, 0x693a25f691dae76bu64, 95u8);
    }
    assert(hash_prefix(b, 12) == 0xa3a15f884579caf8u64) by {
        assert(fnv1a_byte_arith(0xa8b5b5f9d6f6dd5cu64, 116u8) == 0xa3a15f884579caf8u64) by (nonlinear_arith);
        lemma_fnv1a_next(b, 11, 0xa8b5b5f9d6f6dd5cu64, 116u8);
    }
    assert(hash_prefix(b, 13) == 0x84ffeb8e0df33e95u64) by {
        assert(fnv1a_byte_arith(0xa3a15f884579caf8u64, 111u8) == 0x84ffeb8e0df33e95u64) by (nonlinear_arith);
        lemma_fnv1a_next(b, 12, 0xa3a15f884579caf8u64, 111u8);
    }
    assert(hash_prefix(b, 14) == 0xf21c2361b453d853u64) by {
        assert(fnv1a_byte_arith(0x84ffeb8e0df33e95u64, 116u8) == 0xf21c2361b453d853u64) by (nonlinear_arith);
        lemma_fnv1a_next(b, 13, 0x84ffeb8e0df33e95u64, 116u8);
    }
    assert(hash_prefix(b, 15) == 0xb9a851056a785cf6u64) by {
        assert(fnv1a_byte_arith(0xf21c2361b453d853u64, 97u8) == 0xb9a851056a785cf6u64) by (nonlinear_arith);
        lemma_fnv1a_next(b, 14, 0xf21c2361b453d853u64, 97u8);
    }
    assert(hash_prefix(b, 16) == 0xf15e4633ea8559aeu64) by {
        assert(fnv1a_byte_arith(0xb9a851056a785cf6u64, 108u8) == 0xf15e4633ea8559aeu64) by (nonlinear_arith);
        lemma_fnv1a_next(b, 15, 0xb9a851056a785cf6u64, 108u8);
    }
    assert(hash_prefix(b, 17) == 0xa88a9b378096c4a3u64) by {
        assert(fnv1a_byte_arith(0xf15e4633ea8559aeu64, 255u8) == 0xa88a9b378096c4a3u64) by (nonlinear_arith);
        lemma_fnv1a_next(b, 16, 0xf15e4633ea8559aeu64, 255u8);
    }
    lemma_hash_prefix_all(b);
}

/// The bytes that the descriptor id of `quic_rtt_milliseconds` hashes.
proof fn lemma_bytes_quic_rtt_milliseconds()
    ensures
        descriptor_id("quic_rtt_milliseconds"@) == fnv1a(seq![113u8, 117u8, 105u8, 99u8, 95u8, 114u8, 116u8, 116u8, 95u8, 109u8, 105u8, 108u8, 108u8, 105u8, 115u8, 101u8, 99u8, 111u8, 110u8, 100u8, 115u8, 255u8]),
{
    reveal_strlit("quic_rtt_milliseconds");
    lemma_ascii_descriptor_bytes("quic_rtt_milliseconds"@, seq![113u8, 117u8, 105u8, 99u8, 95u8, 114u8, 116u8, 116u8, 95u8, 109u8, 105u8, 108u8, 108u8, 105u8, 115u8, 101u8, 99u8, 111u8, 110u8, 100u8, 115u8, 255u8]);
}

/// The hash of the bytes of `quic_rtt_milliseconds`.
#[verifier::spinoff_prover]
proof fn lemma_hash_quic_rtt_milliseconds(b: Seq<u8>)
    requires
        b.len() == 22,
        b[0] == 113u8,
        b[1] == 117u8,
        b[2] == 105u8,
        b[3] == 99u8,
        b[4] == 95u8,
        b[5] == 114u8,
        b[6] == 116u8,
        b[7] == 116u8,
        b[8] == 95u8,
        b[9] == 109u8,
        b[10] == 105u8,
        b[11] == 108u8,
        b[12] == 108u8,
        b[13] == 105u8,
        b[14] == 115u8,
        b[15] == 101u8,
        b[16] == 99u8,
        b[17] == 111u8,
        b[18] == 110u8,
        b[19] == 100u8,
        b[20] == 115u8,
        b[21] == 255u8,
    ensures
        fnv1a(b) == 0xa0259a2f6dd8f28eu64,
{
    lemma_fnv1a_empty(b);
    assert(hash_prefix(b, 1) == 0xaf63ec4c860207bcu64) by {
        assert(fnv1a_byte_arith(0xcbf29ce484222325u64, 113u8) == 0xaf63ec4c860207bcu64) by (nonlinear_arith);
        lemma_fnv1a_next(b, 0, 0xcbf29ce484222325u64, 113u8);
    }
    assert(hash_prefix(b, 2) == 0x08d24f07b5733a8bu64) by {
        assert(fnv1a_byte_arith(0xaf63ec4c860207bcu64, 117u8) == 0x08d24f07b5733a8bu64) by (nonlinear_arith);
        lemma_fnv1a_next(b, 1, 0xaf63ec4c860207bcu64, 117u8);
    }
    assert(hash_prefix(b, 3) == 0x70972c1952cd0e06u64) by {
        assert(fnv1a_byte_arith(0x08d24f07b5733a8bu64, 105u8) == 0x70972c1952cd0e06u64) by (nonlinear_arith);
        lemma_fnv1a_next(b, 2, 0x08d24f07b5733a8bu64, 105u8);
    }
    assert(hash_prefix(b, 4) == 0x1dee5407b26f759fu64) by {
        assert(fnv1a_byte_arith(0x70972c1952cd0e06u64, 99u8) == 0x1dee5407b26f759fu64) by (nonlinear_arith);
        lemma_fnv1a_next(b, 3, 0x70972c1952cd0e06u64, 99u8);
    }
    assert(hash_prefix(b, 5) == 0x4b6e891433651540u64) by {
        assert(fnv1a_byte_arith(0x1dee5407b26f759fu64, 95u8) == 0x4b6e891433651540u64) by (nonlinear_arith);
        lemma_fnv1a_next(b, 4, 0x1dee5407b26f759fu64, 95u8);
    }
    assert(hash_prefix(b, 6) == 0x91e81f5354c303f6u64) by {
        assert(fnv1a_byte_arith(0x4b6e891433651540u64, 114u8) == 0x91e81f5354c303f6u64) by (nonlinear_arith);
        lemma_fnv1a_next(b, 5, 0x4b6e891433651540u64, 114u8);
    }
    assert(hash_prefix(b, 7) == 0xb070bc99075ef5e6u64) by {
        assert(fnv1a_byte_arith(0x91e81f5354c303f6u64, 116u8) == 0xb070bc99075ef5e6u64) by (nonlinear_arith);
        lemma_fnv1a_next(b, 6, 0x91e81f5354c303f6u64, 116u8);
    }
    assert(hash_prefix(b, 8) == 0x2e860a07865b4716u64) by {
        assert(fnv1a_byte_arith(0xb070bc99075ef5e6u64, 116u8) == 0x2e860a07865b4716u64) by (nonlinear_arith);
        lemma_fnv1a_next(b, 7, 0xb070bc99075ef5e6u64, 116u8);
    }
    assert(hash_prefix(b, 9) == 0x690a53c94d1a210bu64) by {
        assert(fnv1a_byte_arith(0x2e860a07865b4716u64, 95u8) == 0x690a53c94d1a210bu64) by (nonlinear_arith);
        lemma_fnv1a_next(b, 8, 0x2e860a07865b4716u64, 95u8);
    }
    assert(hash_prefix(b, 10) == 0x96adc50e0366c052u64) by {
        assert(fnv1a_byte_arith(0x690a53c94d1a210bu64, 109u8) == 0x96adc50e0366c052u64) by (nonlinear_arith);
        lemma_fnv1a_next(b, 9, 0x690a53c94d1a210bu64, 109u8);
    }
    assert(hash_prefix(b, 11) == 0x700611cfc798a441u64) by {
        assert(fnv1a_byte_arith(0x96adc50e0366c052u64, 105u8) == 0x700611cfc798a441u64) by (nonlinear_arith);
        lemma_fnv1a_next(b, 10, 0x96adc50e0366c052u64, 105u8);
    }
    assert(hash_prefix(b, 12) == 0xf2f47110285ef877u64) by {
        assert(fnv1a_byte_arith(0x700611cfc798a441u64, 108u8) == 0xf2f47110285ef877u64) by (nonlinear_arith);
        lemma_fnv1a_next(b, 11, 0x700611cfc798a441u64, 108u8);
    }
    assert(hash_prefix(b, 13) == 0x34543974995f95e1u64) by {
        assert(fnv1a_byte_arith(0xf2f47110285ef877u64, 108u8) == 0x34543974995f95e1u64) by (nonlinear_arith);
        lemma_fnv1a_next(b, 12, 0xf2f47110285ef877u64, 108u8);
    }
    assert(hash_prefix(b, 14) == 0x4ab329209d6b1618u64) by {
        assert(fnv1a_byte_arith(0x34543974995f95e1u64, 105u8) == 0x4ab329209d6b1618u64) by (nonlinear_arith);
        lemma_fnv1a_next(b, 13, 0x34543974995f95e1u64, 105u8);
    }
    assert(hash_prefix(b, 15) == 0x59854d6b7cf717d1u64) by {
        assert(fnv1a_byte_arith(0x4ab329209d6b1618u64, 115u8) == 0x59854d6b7cf717d1u64) by (nonlinear_arith);
        lemma_fnv1a_next(b, 14, 0x4ab329209d6b1618u64, 115u8);
    }
    assert(hash_prefix(b, 16) == 0x149a41a557dd46dcu64) by {
        assert(fnv1a_byte_arith(0x59854d6b7cf717d1u64, 101u8) == 0x149a41a557dd46dcu64) by (nonlinear_arith);
        lemma_fnv1a_next(b, 15, 0x59854d6b7cf717d1u64, 101u8);
    }
    assert(hash_prefix(b, 17) == 0xdf644af44cff368du64) by {
        assert(fnv1a_byte_arith(0x149a41a557dd46dcu64, 99u8) == 0xdf644af44cff368du64) by (nonlinear_arith);
        lemma_fnv1a_next(b, 16, 0x149a41a557dd46dcu64, 99u8);
    }
    assert(hash_prefix(b, 18) == 0x96a23f1ed5aa4206u64) by {
        assert(fnv1a_byte_arith(0xdf644af44cff368du64, 111u8) == 0x96a23f1ed5aa4206u64) by (nonlinear_arith);
        lemma_fnv1a_next(b, 17, 0xdf644af44cff368du64, 111u8);
    }
    assert(hash_prefix(b, 19) == 0x9ff3a965104ed6b8u64) by {
        assert(fnv1a_byte_arith(0x96a23f1ed5aa4206u64, 110u8) == 0x9ff3a965104ed6b8u64) by (nonlinear_arith);
        lemma_fnv1a_next(b, 18, 0x96a23f1ed5aa4206u64, 110u8);
    }
    assert(hash_prefix(b, 20) == 0x19dfb2bab5f717d4u64) by {
        assert(fnv1a_byte_arith(0x9ff3a965104ed6b8u64, 100u8) == 0x19dfb2bab5f717d4u64) by (nonlinear_arith);
        lemma_fnv1a_next(b, 19, 0x9ff3a965104ed6b8u64, 100u8);
    }
    assert(hash_prefix(b, 21) == 0xee345a4332dd30c5u64) by {
        assert(fnv1a_byte_arith(0x19dfb2bab5f717d4u64, 115u8) == 0xee345a4332dd30c5u64) by (nonlinear_arith);
        lemma_fnv1a_next(b, 20, 0x19dfb2bab5f717d4u64, 115u8);
    }
    assert(hash_prefix(b, 22) == 0xa0259a2f6dd8f28eu64) by {
        assert(fnv1a_byte_arith(0xee345a4332dd30c5u64, 255u8) == 0xa0259a2f6dd8f28eu64) by (nonlinear_arith);
        lemma_fnv1a_next(b, 21, 0xee345a4332dd30c5u64, 255u8);
    }
    lemma_hash_prefix_all(b);
}

/// The bytes that the descriptor id of `recorder_events_total` hashes.
proof fn lemma_bytes_recorder_events_total()
    ensures
        descriptor_id("recorder_events_total"@) == fnv1a(seq![114u8, 101u8, 99u8, 111u8, 114u8, 100u8, 101u8, 114u8, 95u8, 101u8, 118u8, 101u8, 110u8, 116u8, 115u8, 95u8, 116u8, 111u8, 116u8, 97u8, 108u8, 255u8]),
{
    reveal_strlit("recorder_events_total");
    lemma_ascii_descriptor_bytes("recorder_events_total"@, seq![114u8, 101u8, 99u8, 111u8, 114u8, 100u8, 101u8, 114u8, 95u8, 101u8, 118u8, 101u8, 110u8, 116u8, 115u8, 95u8, 116u8, 111u8, 116u8, 97u8, 108u8, 255u8]);
}

/// The hash of the bytes of `recorder_events_total`.
#[verifier::spinoff_prover]
proof fn lemma_hash_recorder_events_total(b: Seq<u8>)
    requires
        b.len() == 22,
        b[0] == 114u8,
        b[1] == 101u8,
        b[2] == 99u8,
        b[3] == 111u8,
        b[4] == 114u8,
        b[5] == 100u8,
        b[6] == 101u8,
        b[7] == 114u8,
        b[8] == 95u8,
        b[9] == 101u8,
        b[10] == 118u8,
        b[11] == 101u8,
        b[12] == 110u8,
        b[13] == 116u8,
        b[14] == 115u8,
        b[15] == 95u8,
        b[16] == 116u8,
        b[17] == 111u8,
        b[18] == 116u8,
        b[19] == 97u8,
        b[20] == 108u8,
        b[21] == 255u8,
    ensures
        fnv1a(b) == 0xf96c40bfaef6a71du64,
{
    lemma_fnv1a_empty(b);
    assert(hash_prefix(b, 1) == 0xaf63ef4c86020cd5u64) by {
        assert(fnv1a_byte_arith(0xcbf29ce484222325u64, 114u8) == 0xaf63ef4c86020cd5u64) by (nonlinear_arith);
        lemma_fnv1a_next(b, 0, 0xcbf29ce484222325u64, 114u8);
    }
    assert(hash_prefix(b, 2) == 0x08dc4f07b57b8f10u64) by {
        assert(fnv1a_byte_arith(0xaf63ef4c86020cd5u64, 101u8) == 0x08dc4f07b57b8f10u64) by (nonlinear_arith);
        lemma_fnv1a_next(b, 1, 0xaf63ef4c86020cd5u64, 101u8);
    }
    assert(hash_prefix(b, 3) == 0x89e9bd1960f4c069u64) by {
        assert(fnv1a_byte_arith(0x08dc4f07b57b8f10u64, 99u8) == 0x89e9bd1960f4c069u64) by (nonlinear_arith);
        lemma_fnv1a_next(b, 2, 0x08dc4f07b57b8f10u64, 99u8);
    }
    assert(hash_prefix(b, 4) == 0x4cec581fbfe24a32u64) by {
        assert(fnv1a_byte_arith(0x89e9bd1960f4c069u64, 111u8) == 0x4cec581fbfe24a32u64) by (nonlinear_arith);
        lemma_fnv1a_next(b, 3, 0x89e9bd1960f4c069u64, 111u8);
    }
    assert(hash_prefix(b, 5) == 0x97e3fdf30d842ac0u64) by {
        assert(fnv1a_byte_arith(0x4cec581fbfe24a32u64, 114u8) == 0x97e3fdf30d842ac0u64) by (nonlinear_arith);
        lemma_fnv1a_next(b, 4, 0x4cec581fbfe24a32u64, 114u8);
    }
    assert(hash_prefix(b, 6) == 0x9c9327fff79474acu64) by {
        assert(fnv1a_byte_arith(0x97e3fdf30d842ac0u64, 100u8) == 0x9c9327fff79474acu64) by (nonlinear_arith);
        lemma_fnv1a_next(b, 5, 0x97e3fdf30d842ac0u64, 100u8);
    }
    assert(hash_prefix(b, 7) == 0xa281c0f1b142718bu64) by {
        assert(fnv1a_byte_arith(0x9c9327fff79474acu64, 101u8) == 0xa281c0f1b142718bu64) by (nonlinear_arith);
        lemma_fnv1a_next(b, 6, 0x9c9327fff79474acu64, 101u8);
    }
    assert(hash_prefix(b, 8) == 0x64ecd3b033e7aa1bu64) by {
        assert(fnv1a_byte_arith(0xa281c0f1b142718bu64, 114u8) == 0x64ecd3b033e7aa1bu64) by (nonlinear_arith);
        lemma_fnv1a_next(b, 7, 0xa281c0f1b142718bu64, 114u8);
    }
    assert(hash_prefix(b, 9) == 0x6615f86832a6518cu64) by {
        assert(fnv1a_byte_arith(0x64ecd3b033e7aa1bu64, 95u8) == 0x6615f86832a6518cu64) by (nonlinear_arith);
        lemma_fnv1a_next(b, 8, 0x64ecd3b033e7aa1bu64, 95u8);
    }
    assert(hash_prefix(b, 10) == 0x1da7020e109d2eebu64) by {
        assert(fnv1a_byte_arith(0x6615f86832a6518cu64, 101u8) == 0x1da7020e109d2eebu64) by (nonlinear_arith);
        lemma_fnv1a_next(b, 9, 0x6615f86832a6518cu64, 101u8);
    }
    assert(hash_prefix(b, 11) == 0xfff71ae63b1634c7u64) by {
        assert(fnv1a_byte_arith(0x1da7020e109d2eebu64, 118u8) == 0xfff71ae63b1634c7u64) by (nonlinear_arith);
        lemma_fnv1a_next(b, 10, 0x1da7020e109d2eebu64, 118u8);
    }
    assert(hash_prefix(b, 12) == 0x0717573666bb6f46u64) by {
        assert(fnv1a_byte_arith(0xfff71ae63b1634c7u64, 101u8) == 0x0717573666bb6f46u64) by (nonlinear_arith);
        lemma_fnv1a_next(b, 11, 0xfff71ae63b1634c7u64, 101u8);
    }
    assert(hash_prefix(b, 13) == 0xc8185970907de0f8u64) by {
        assert(fnv1a_byte_arith(0x0717573666bb6f46u64, 110u8) == 0xc8185970907de0f8u64) by (nonlinear_arith);
        lemma_fnv1a_next(b, 12, 0x0717573666bb6f46u64, 110u8);
    }
    assert(hash_prefix(b, 14) == 0x7f40864585e48de4u64) by {
        assert(fnv1a_byte_arith(0xc8185970907de0f8u64, 116u8) == 0x7f40864585e48de4u64) by (nonlinear_arith);
        lemma_fnv1a_next(b, 13, 0xc8185970907de0f8u64, 116u8);
    }
    assert(hash_prefix(b, 15) == 0x1f31bf22835c9795u64) by {
        assert(fnv1a_byte_arith(0x7f40864585e48de4u64, 115u8) == 0x1f31bf22835c9795u64) by (nonlinear_arith);
        lemma_fnv1a_next(b, 14, 0x7f40864585e48de4u64, 115u8);
    }
    assert(hash_prefix(b, 16) == 0x5e1f91a53655ec3eu64) by {
        assert(fnv1a_byte_arith(0x1f31bf22835c9795u64, 95u8) == 0x5e1f91a53655ec3eu64) by (nonlinear_arith);
        lemma_fnv1a_next(b, 15, 0x1f31bf22835c9795u64, 95u8);
    }
    assert(hash_prefix(b, 17) == 0x4590c5bb540081beu64) by {
        assert(fnv1a_byte_arith(0x5e1f91a53655ec3eu64, 116u8) == 0x4590c5bb540081beu64) by (nonlinear_arith);
        lemma_fnv1a_next(b, 16, 0x5e1f91a53655ec3eu64, 116u8);
    }
    assert(hash_prefix(b, 18) == 0x3581ce4fbcdc9623u64) by {
        assert(fnv1a_byte_arith(0x4590c5bb540081beu64, 111u8) == 0x3581ce4fbcdc9623u64) by (nonlinear_arith);
        lemma_fnv1a_next(b, 17, 0x4590c5bb540081beu64, 111u8);
    }
    assert(hash_prefix(b, 19) == 0xc827e87dead375d5u64) by {
        assert(fnv1a_byte_arith(0x3581ce4fbcdc9623u64, 116u8) == 0xc827e87dead375d5u64) by (nonlinear_arith);
        lemma_fnv1a_next(b, 18, 0x3581ce4fbcdc9623u64, 116u8);
    }
    assert(hash_prefix(b, 20) == 0xef45c1f6055100dcu64) by {
        assert(fnv1a_byte_arith(0xc827e87dead375d5u64, 97u8) == 0xef45c1f6055100dcu64) by (nonlinear_arith);
        lemma_fnv1a_next(b, 19, 0xc827e87dead375d5u64, 97u8);
    }
    assert(hash_prefix(b, 21) == 0xe489450b08a42b10u64) by {
        assert(fnv1a_byte_arith(0xef45c1f6055100dcu64, 108u8) == 0xe489450b08a42b10u64) by (nonlinear_arith);
        lemma_fnv1a_next(b, 20, 0xef45c1f6055100dcu64, 108u8);
    }
    assert(hash_prefix(b, 22) == 0xf96c40bfaef6a71du64) by {
        assert(fnv1a_byte_arith(0xe489450b08a42b10u64, 255u8) == 0xf96c40bfaef6a71du64) by (nonlinear_arith);
        lemma_fnv1a_next(b, 21, 0xe489450b08a42b10u64, 255u8);
    }
    lemma_hash_prefix_all(b);
}

/// The bytes that the descriptor id of `recorder_bytes_written_total` hashes.
proof fn lemma_bytes_recorder_bytes_written_total()
    ensures
        descriptor_id("recorder_bytes_written_total"@) == fnv1a(seq![114u8, 101u8, 99u8, 111u8, 114u8, 100u8, 101u8, 114u8, 95u8, 98u8, 121u8, 116u8, 101u8, 115u8, 95u8, 119u8, 114u8, 105u8, 116u8, 116u8, 101u8, 110u8, 95u8, 116u8, 111u8, 116u8, 97u8, 108u8, 255u8]),
{
    reveal_strlit("recorder_bytes_written_total");
    lemma_ascii_descriptor_bytes("recorder_bytes_written_total"@, seq![114u8, 101u8, 99u8, 111u8, 114u8, 100u8, 101u8, 114u8, 95u8, 98u8, 121u8, 116u8, 101u8, 115u8, 95u8, 119u8, 114u8, 105u8, 116u8, 116u8, 101u8, 110u8, 95u8, 116u8, 111u8, 116u8, 97u8, 108u8, 255u8]);
}

/// The hash of the bytes of `recorder_bytes_written_total`.
#[verifier::spinoff_prover]
proof fn lemma_hash_recorder_bytes_written_total(b: Seq<u8>)
    requires
        b.len() == 29,
        b[0] == 114u8,
        b[1] == 101u8,
        b[2] == 99u8,
        b[3] == 111u8,
        b[4] == 114u8,
        b[5] == 100u8,
        b[6] == 101u8,
        b[7] == 114u8,
        b[8] == 95u8,
        b[9] == 98u8,
        b[10] == 121u8,
        b[11] == 116u8,
        b[12] == 101u8,
        b[13] == 115u8,
        b[14] == 95u8,
        b[15] == 119u8,
        b[16] == 114u8,
        b[17] == 105u8,
        b[18] == 116u8,
        b[19] == 116u8,
        b[20] == 101u8,
        b[21] == 110u8,
        b[22] == 95u8,
        b[23] == 116u8,
        b[24] == 111u8,
        b[25] == 116u8,
        b[26] == 97u8,
        b[27] == 108u8,
        b[28] == 255u8,
    ensures
        fnv1a(b) == 0xbbc390941dae688fu64,
{
    lemma_fnv1a_empty(b);
    assert(hash_prefix(b, 1) == 0xaf63ef4c86020cd5u64) by {
        assert(fnv1a_byte_arith(0xcbf29ce484222325u64, 114u8) == 0xaf63ef4c86020cd5u64) by (nonlinear_arith);
        lemma_fnv1a_next(b, 0, 0xcbf29ce484222325u64, 114u8);
    }
    assert(hash_prefix(b, 2) == 0x08dc4f07b57b8f10u64) by {
        assert(fnv1a_byte_arith(0xaf63ef4c86020cd5u64, 101u8) == 0x08dc4f07b57b8f10u64) by (nonlinear_arith);
        lemma_fnv1a_next(b, 1, 0xaf63ef4c86020cd5u64, 101u8);
    }
    assert(hash_prefix(b, 3) == 0x89e9bd1960f4c069u64) by {
        assert(fnv1a_byte_arith(0x08dc4f07b57b8f10u64, 99u8) == 0x89e9bd1960f4c069u64) by (nonlinear_arith);
        lemma_fnv1a_next(b, 2, 0x08dc4f07b57b8f10u64, 99u8);
    }
    assert(hash_prefix(b, 4) == 0x4cec581fbfe24a32u64) by {
        assert(fnv1a_byte_arith(0x89e9bd1960f4c069u64, 111u8) == 0x4cec581fbfe24a32u64) by (nonlinear_arith);
        lemma_fnv1a_next(b, 3, 0x89e9bd1960f4c069u64, 111u8);
    }
    assert(hash_prefix(b, 5) == 0x97e3fdf30d842ac0u64) by {
        assert(fnv1a_byte_arith(0x4cec581fbfe24a32u64, 114u8) == 0x97e3fdf30d842ac0u64) by (nonlinear_arith);
        lemma_fnv1a_next(b, 4, 0x4cec581fbfe24a32u64, 114u8);
    }
    assert(hash_prefix(b, 6) == 0x9c9327fff79474acu64) by {
        assert(fnv1a_byte_arith(0x97e3fdf30d842ac0u64, 100u8) == 0x9c9327fff79474acu64) by (nonlinear_arith);
        lemma_fnv1a_next(b, 5, 0x97e3fdf30d842ac0u64, 100u8);
    }
    assert(hash_prefix(b, 7) == 0xa281c0f1b142718bu64) by {
        assert(fnv1a_byte_arith(0x9c9327fff79474acu64, 101u8) == 0xa281c0f1b142718bu64) by (nonlinear_arith);
        lemma_fnv1a_next(b, 6, 0x9c9327fff79474acu64, 101u8);
    }
    assert(hash_prefix(b, 8) == 0x64ecd3b033e7aa1bu64) by {
        assert(fnv1a_byte_arith(0xa281c0f1b142718bu64, 114u8) == 0x64ecd3b033e7aa1bu64) by (nonlinear_arith);
        lemma_fnv1a_next(b, 7, 0xa281c0f1b142718bu64, 114u8);
    }
    assert(hash_prefix(b, 9) == 0x6615f86832a6518cu64) by {
        assert(fnv1a_byte_arith(0x64ecd3b033e7aa1bu64, 95u8) == 0x6615f86832a6518cu64) by (nonlinear_arith);
        lemma_fnv1a_next(b, 8, 0x64ecd3b033e7aa1bu64, 95u8);
    }
    assert(hash_prefix(b, 10) == 0x1da7070e109d376au64) by {
        assert(fnv1a_byte_arith(0x6615f86832a6518cu64, 98u8) == 0x1da7070e109d376au64) by (nonlinear_arith);
        lemma_fnv1a_next(b, 9, 0x6615f86832a6518cu64, 98u8);
    }
    assert(hash_prefix(b, 11) == 0x00080fe63b249549u64) by {
        assert(fnv1a_byte_arith(0x1da7070e109d376au64, 121u8) == 0x00080fe63b249549u64) by (nonlinear_arith);
        lemma_fnv1a_next(b, 10, 0x1da7070e109d376au64, 121u8);
    }
    assert(hash_prefix(b, 12) == 0x324841367f2996a7u64) by {
        assert(fnv1a_byte_arith(0x00080fe63b249549u64, 116u8) == 0x324841367f2996a7u64) by (nonlinear_arith);
        lemma_fnv1a_next(b, 11, 0x00080fe63b249549u64, 116u8);
    }
    assert(hash_prefix(b, 13) == 0x9a5d919a13ab2ba6u64) by {
        assert(fnv1a_byte_arith(0x324841367f2996a7u64, 101u8) == 0x9a5d919a13ab2ba6u64) by (nonlinear_arith);
        lemma_fnv1a_next(b, 12, 0x324841367f2996a7u64, 101u8);
    }
    assert(hash_prefix(b, 14) == 0xf82a3dcf6bdb7aefu64) by {
        assert(fnv1a_byte_arith(0x9a5d919a13ab2ba6u64, 115u8) == 0xf82a3dcf6bdb7aefu64) by (nonlinear_arith);
        lemma_fnv1a_next(b, 13, 0x9a5d919a13ab2ba6u64, 115u8);
    }
    assert(hash_prefix(b, 15) == 0x8b41b77445f17910u64) by {
        assert(fnv1a_byte_arith(0xf82a3dcf6bdb7aefu64, 95u8) == 0x8b41b77445f17910u64) by (nonlinear_arith);
        lemma_fnv1a_next(b, 14, 0xf82a3dcf6bdb7aefu64, 95u8);
    }
    assert(hash_prefix(b, 16) == 0x92242192d9514a05u64) by {
        assert(fnv1a_byte_arith(0x8b41b77445f17910u64, 119u8) == 0x92242192d9514a05u64) by (nonlinear_arith);
        lemma_fnv1a_next(b, 15, 0x8b41b77445f17910u64, 119u8);
    }
    assert(hash_prefix(b, 17) == 0xa4af838745218835u64) by {
        assert(fnv1a_byte_arith(0x92242192d9514a05u64, 114u8) == 0xa4af838745218835u64) by (nonlinear_arith);
        lemma_fnv1a_next(b, 16, 0x92242192d9514a05u64, 114u8);
    }
    assert(hash_prefix(b, 18) == 0xf7c4dada77fab454u64) by {
        assert(fnv1a_byte_arith(0xa4af838745218835u64, 105u8) == 0xf7c4dada77fab454u64) by (nonlinear_arith);
        lemma_fnv1a_next(b, 17, 0xa4af838745218835u64, 105u8);
    }
    assert(hash_prefix(b, 19) == 0xfe340139df001260u64) by {
        assert(fnv1a_byte_arith(0xf7c4dada77fab454u64, 116u8) == 0xfe340139df001260u64) by (nonlinear_arith);
        lemma_fnv1a_next(b, 18, 0xf7c4dada77fab454u64, 116u8);
    }
    assert(hash_prefix(b, 20) == 0xf2702955ed1eb7fcu64) by {
        assert(fnv1a_byte_arith(0xfe340139df001260u64, 116u8) == 0xf2702955ed1eb7fcu64) by (nonlinear_arith);
        lemma_fnv1a_next(b, 19, 0xfe340139df001260u64, 116u8);
    }
    assert(hash_prefix(b, 21) == 0x134dd601eb31f8fbu64) by {
        assert(fnv1a_byte_arith(0xf2702955ed1eb7fcu64, 101u8) == 0x134dd601eb31f8fbu64) by (nonlinear_arith);
        lemma_fnv1a_next(b, 20, 0xf2702955ed1eb7fcu64, 101u8);
    }
    assert(hash_prefix(b, 22) == 0xff3b3a42a5e9652fu64) by {
        assert(fnv1a_byte_arith(0x134dd601eb31f8fbu64, 110u8) == 0xff3b3a42a5e9652fu64) by (nonlinear_arith);
        lemma_fnv1a_next(b, 21, 0x134dd601eb31f8fbu64, 110u8);
    }
    assert(hash_prefix(b, 23) == 0x9b096f3feb975d50u64) by {
        assert(fnv1a_byte_arith(0xff3b3a42a5e9652fu64, 95u8) == 0x9b096f3feb975d50u64) by (nonlinear_arith);
        lemma_fnv1a_next(b, 22, 0xff3b3a42a5e9652fu64, 95u8);
    }
    assert(hash_prefix(b, 24) == 0x08652d9d5233442cu64) by {
        assert(fnv1a_byte_arith(0x9b096f3feb975d50u64, 116u8) == 0x08652d9d5233442cu64) by (nonlinear_arith);
        lemma_fnv1a_next(b, 23, 0x9b096f3feb975d50u64, 116u8);
    }
    assert(hash_prefix(b, 25) == 0x7730c552ad1cfdd9u64) by {
        assert(fnv1a_byte_arith(0x08652d9d5233442cu64, 111u8) == 0x7730c552ad1cfdd9u64) by (nonlinear_arith);
        lemma_fnv1a_next(b, 24, 0x08652d9d5233442cu64, 111u8);
    }
    assert(hash_prefix(b, 26) == 0xa4dcf87c28430cf7u64) by {
        assert(fnv1a_byte_arith(0x7730c552ad1cfdd9u64, 116u8) == 0xa4dcf87c28430cf7u64) by (nonlinear_arith);
        lemma_fnv1a_next(b, 25, 0x7730c552ad1cfdd9u64, 116u8);
    }
    assert(hash_prefix(b, 27) == 0x6686d0f869ee62e2u64) by {
        assert(fnv1a_byte_arith(0xa4dcf87c28430cf7u64, 97u8) == 0x6686d0f869ee62e2u64) by (nonlinear_arith);
        lemma_fnv1a_next(b, 26, 0xa4dcf87c28430cf7u64, 97u8);
    }
    assert(hash_prefix(b, 28) == 0x2577a41c0011774au64) by {
        assert(fnv1a_byte_arith(0x6686d0f869ee62e2u64, 108u8) == 0x2577a41c0011774au64) by (nonlinear_arith);
        lemma_fnv1a_next(b, 27, 0x6686d0f869ee62e2u64, 108u8);
    }
    assert(hash_prefix(b, 29) == 0xbbc390941dae688fu64) by {
        assert(fnv1a_byte_arith(0x2577a41c0011774au64, 255u8) == 0xbbc390941dae688fu64) by (nonlinear_arith);
        lemma_fnv1a_next(b, 28, 0x2577a41c0011774au64, 255u8);
    }
    lemma_hash_prefix_all(b);
}

/// The bytes that the descriptor id of `recorder_drops_total` hashes.
proof fn lemma_bytes_recorder_drops_total()
    ensures
        descriptor_id("recorder_drops_total"@) == fnv1a(seq![114u8, 101u8, 99u8, 111u8, 114u8, 100u8, 101u8, 114u8, 95u8, 100u8, 114u8, 111u8, 112u8, 115u8, 95u8, 116u8, 111u8, 116u8, 97u8, 108u8, 255u8]),
{
    reveal_strlit("recorder_drops_total");
    lemma_ascii_descriptor_bytes("recorder_drops_total"@, seq![114u8, 101u8, 99u8, 111u8, 114u8, 100u8, 101u8, 114u8, 95u8, 100u8, 114u8, 111u8, 112u8, 115u8, 95u8, 116u8, 111u8, 116u8, 97u8, 108u8, 255u8]);
}

/// The hash of the bytes of `recorder_drops_total`.
#[verifier::spinoff_prover]
proof fn lemma_hash_recorder_drops_total(b: Seq<u8>)
    requires
        b.len() == 21,
        b[0] == 114u8,
        b[1] == 101u8,
        b[2] == 99u8,
        b[3] == 111u8,
        b[4] == 114u8,
        b[5] == 100u8,
        b[6] == 101u8,
        b[7] == 114u8,
        b[8] == 95u8,
        b[9] == 100u8,
        b[10] == 114u8,
        b[11] == 111u8,
        b[12] == 112u8,
        b[13] == 115u8,
        b[14] == 95u8,
        b[15] == 116u8,
        b[16] == 111u8,
        b[17] == 116u8,
        b[18] == 97u8,
        b[19] == 108u8,
        b[20] == 255u8,
    ensures
        fnv1a(b) == 0x0021ee0a11ee90b4u64,
{
    lemma_fnv1a_empty(b);
    assert(hash_prefix(b, 1) == 0xaf63ef4c86020cd5u64) by {
        assert(fnv1a_byte_arith(0xcbf29ce484222325u64, 114u8) == 0xaf63ef4c86020cd5u64) by (nonlinear_arith);
        lemma_fnv1a_next(b, 0, 0xcbf29ce484222325u64, 114u8);
    }
    assert(hash_prefix(b, 2) == 0x08dc4f07b57b8f10u64) by {
        assert(fnv1a_byte_arith(0xaf63ef4c86020cd5u64, 101u8) == 0x08dc4f07b57b8f10u64) by (nonlinear_arith);
        lemma_fnv1a_next(b, 1, 0xaf63ef4c86020cd5u64, 101u8);
    }
    assert(hash_prefix(b, 3) == 0x89e9bd1960f4c069u64) by {
        assert(fnv1a_byte_arith(0x08dc4f07b57b8f10u64, 99u8) == 0x89e9bd1960f4c069u64) by (nonlinear_arith);
        lemma_fnv1a_next(b, 2, 0x08dc4f07b57b8f10u64, 99u8);
    }
    assert(hash_prefix(b, 4) == 0x4cec581fbfe24a32u64) by {
        assert(fnv1a_byte_arith(0x89e9bd1960f4c069u64, 111u8) == 0x4cec581fbfe24a32u64) by (nonlinear_arith);
        lemma_fnv1a_next(b, 3, 0x89e9bd1960f4c069u64, 111u8);
    }
    assert(hash_prefix(b, 5) == 0x97e3fdf30d842ac0u64) by {
        assert(fnv1a_byte_arith(0x4cec581fbfe24a32u64, 114u8) == 0x97e3fdf30d842ac0u64) by (nonlinear_arith);
        lemma_fnv1a_next(b, 4, 0x4cec581fbfe24a32u64, 114u8);
    }
    assert(hash_prefix(b, 6) == 0x9c9327fff79474acu64) by {
        assert(fnv1a_byte_arith(0x97e3fdf30d842ac0u64, 100u8) == 0x9c9327fff79474acu64) by (nonlinear_arith);
        lemma_fnv1a_next(b, 5, 0x97e3fdf30d842ac0u64, 100u8);
    }
    assert(hash_prefix(b, 7) == 0xa281c0f1b142718bu64) by {
        assert(fnv1a_byte_arith(0x9c9327fff79474acu64, 101u8) == 0xa281c0f1b142718bu64) by (nonlinear_arith);
        lemma_fnv1a_next(b, 6, 0x9c9327fff79474acu64, 101u8);
    }
    assert(hash_prefix(b, 8) == 0x64ecd3b033e7aa1bu64) by {
        assert(fnv1a_byte_arith(0xa281c0f1b142718bu64, 114u8) == 0x64ecd3b033e7aa1bu64) by (nonlinear_arith);
        lemma_fnv1a_next(b, 7, 0xa281c0f1b142718bu64, 114u8);
    }
    assert(hash_prefix(b, 9) == 0x6615f86832a6518cu64) by {
        assert(fnv1a_byte_arith(0x64ecd3b033e7aa1bu64, 95u8) == 0x6615f86832a6518cu64) by (nonlinear_arith);
        lemma_fnv1a_next(b, 8, 0x64ecd3b033e7aa1bu64, 95u8);
    }
    assert(hash_prefix(b, 10) == 0x1da7010e109d2d38u64) by {
        assert(fnv1a_byte_arith(0x6615f86832a6518cu64, 100u8) == 0x1da7010e109d2d38u64) by (nonlinear_arith);
        lemma_fnv1a_next(b, 9, 0x6615f86832a6518cu64, 100u8);
    }
    assert(hash_prefix(b, 11) == 0xfff414e63b13f4beu64) by {
        assert(fnv1a_byte_arith(0x1da7010e109d2d38u64, 114u8) == 0xfff414e63b13f4beu64) by (nonlinear_arith);
        lemma_fnv1a_next(b, 10, 0x1da7010e109d2d38u64, 114u8);
    }
    assert(hash_prefix(b, 12) == 0xffb4543662e8ff23u64) by {
        assert(fnv1a_byte_arith(0xfff414e63b13f4beu64, 111u8) == 0xffb4543662e8ff23u64) by (nonlinear_arith);
        lemma_fnv1a_next(b, 11, 0xfff414e63b13f4beu64, 111u8);
    }
    assert(hash_prefix(b, 13) == 0x686a6b6a11e9da09u64) by {
        assert(fnv1a_byte_arith(0xffb4543662e8ff23u64, 112u8) == 0x686a6b6a11e9da09u64) by (nonlinear_arith);
        lemma_fnv1a_next(b, 12, 0xffb4543662e8ff23u64, 112u8);
    }
    assert(hash_prefix(b, 14) == 0x56aeff3c705e3d4eu64) by {
        assert(fnv1a_byte_arith(0x686a6b6a11e9da09u64, 115u8) == 0x56aeff3c705e3d4eu64) by (nonlinear_arith);
        lemma_fnv1a_next(b, 13, 0x686a6b6a11e9da09u64, 115u8);
    }
    assert(hash_prefix(b, 15) == 0xa998c4b2f021c3e3u64) by {
        assert(fnv1a_byte_arith(0x56aeff3c705e3d4eu64, 95u8) == 0xa998c4b2f021c3e3u64) by (nonlinear_arith);
        lemma_fnv1a_next(b, 14, 0x56aeff3c705e3d4eu64, 95u8);
    }
    assert(hash_prefix(b, 16) == 0x5059d30e095f5995u64) by {
        assert(fnv1a_byte_arith(0xa998c4b2f021c3e3u64, 116u8) == 0x5059d30e095f5995u64) by (nonlinear_arith);
        lemma_fnv1a_next(b, 15, 0xa998c4b2f021c3e3u64, 116u8);
    }
    assert(hash_prefix(b, 17) == 0xe7fb9ad9ed05e3ceu64) by {
        assert(fnv1a_byte_arith(0x5059d30e095f5995u64, 111u8) == 0xe7fb9ad9ed05e3ceu64) by (nonlinear_arith);
        lemma_fnv1a_next(b, 16, 0x5059d30e095f5995u64, 111u8);
    }
    assert(hash_prefix(b, 18) == 0x366bda4dc101f50eu64) by {
        assert(fnv1a_byte_arith(0xe7fb9ad9ed05e3ceu64, 116u8) == 0x366bda4dc101f50eu64) by (nonlinear_arith);
        lemma_fnv1a_next(b, 17, 0xe7fb9ad9ed05e3ceu64, 116u8);
    }
    assert(hash_prefix(b, 19) == 0x7b39611ef6540b9du64) by {
        assert(fnv1a_byte_arith(0x366bda4dc101f50eu64, 97u8) == 0x7b39611ef6540b9du64) by (nonlinear_arith);
        lemma_fnv1a_next(b, 18, 0x366bda4dc101f50eu64, 97u8);
    }
    assert(hash_prefix(b, 20) == 0xb68bf89c90d04a83u64) by {
        assert(fnv1a_byte_arith(0x7b39611ef6540b9du64, 108u8) == 0xb68bf89c90d04a83u64) by (nonlinear_arith);
        lemma_fnv1a_next(b, 19, 0x7b39611ef6540b9du64, 108u8);
    }
    assert(hash_prefix(b, 21) == 0x0021ee0a11ee90b4u64) by {
        assert(fnv1a_byte_arith(0xb68bf89c90d04a83u64, 255u8) == 0x0021ee0a11ee90b4u64) by (nonlinear_arith);
        lemma_fnv1a_next(b, 20, 0xb68bf89c90d04a83u64, 255u8);
    }
    lemma_hash_prefix_all(b);
}

/// The bytes that the descriptor id of `recorder_auto_disabled_total` hashes.
proof fn lemma_bytes_recorder_auto_disabled_total()
    ensures
        descriptor_id("recorder_auto_disabled_total"@) == fnv1a(seq![114u8, 101u8, 99u8, 111u8, 114u8, 100u8, 101u8, 114u8, 95u8, 97u8, 117u8, 116u8, 111u8, 95u8, 100u8, 105u8, 115u8, 97u8, 98u8, 108u8, 101u8, 100u8, 95u8, 116u8, 111u8, 116u8, 97u8, 108u8, 255u8]),
{
    reveal_strlit("recorder_auto_disabled_total");
    lemma_ascii_descriptor_bytes("recorder_auto_disabled_total"@, seq![114u8, 101u8, 99u8, 111u8, 114u8, 100u8, 101u8, 114u8, 95u8, 97u8, 117u8, 116u8, 111u8, 95u8, 100u8, 105u8, 115u8, 97u8, 98u8, 108u8, 101u8, 100u8, 95u8, 116u8, 111u8, 116u8, 97u8, 108u8, 255u8]);
}

/// The hash of the bytes of `recorder_auto_disabled_total`.
#[verifier::spinoff_prover]
proof fn lemma_hash_recorder_auto_disabled_total(b: Seq<u8>)
    requires
        b.len() == 29,
        b[0] == 114u8,
        b[1] == 101u8,
        b[2] == 99u8,
        b[3] == 111u8,
        b[4] == 114u8,
        b[5] == 100u8,
        b[6] == 101u8,
        b[7] == 114u8,
        b[8] == 95u8,
        b[9] == 97u8,
        b[10] == 117u8,
        b[11] == 116u8,
        b[12] == 111u8,
        b[13] == 95u8,
        b[14] == 100u8,
        b[15] == 105u8,
        b[16] == 115u8,
        b[17] == 97u8,
        b[18] == 98u8,
        b[19] == 108u8,
        b[20] == 101u8,
        b[21] == 100u8,
        b[22] == 95u8,
        b[23] == 116u8,
        b[24] == 111u8,
        b[25] == 116u8,
        b[26] == 97u8,
        b[27] == 108u8,
        b[28] == 255u8,
    ensures
        fnv1a(b) == 0xf5a15d1ed645d5dau64,
{
    lemma_fnv1a_empty(b);
    assert(hash_prefix(b, 1) == 0xaf63ef4c86020cd5u64) by {
        assert(fnv1a_byte_arith(0xcbf29ce484222325u64, 114u8) == 0xaf63ef4c86020cd5u64) by (nonlinear_arith);
        lemma_fnv1a_next(b, 0, 0xcbf29ce484222325u64, 114u8);
    }
    assert(hash_prefix(b, 2) == 0x08dc4f07b57b8f10u64) by {
        assert(fnv1a_byte_arith(0xaf63ef4c86020cd5u64, 101u8) == 0x08dc4f07b57b8f10u64) by (nonlinear_arith);
        lemma_fnv1a_next(b, 1, 0xaf63ef4c86020cd5u64, 101u8);
    }
    assert(hash_prefix(b, 3) == 0x89e9bd1960f4c069u64) by {
        assert(fnv1a_byte_arith(0x08dc4f07b57b8f10u64, 99u8) == 0x89e9bd1960f4c069u64) by (nonlinear_arith);
        lemma_fnv1a_next(b, 2, 0x08dc4f07b57b8f10u64, 99u8);
    }
    assert(hash_prefix(b, 4) == 0x4cec581fbfe24a32u64) by {
        assert(fnv1a_byte_arith(0x89e9bd1960f4c069u64, 111u8) == 0x4cec581fbfe24a32u64) by (nonlinear_arith);
        lemma_fnv1a_next(b, 3, 0x89e9bd1960f4c069u64, 111u8);
    }
    assert(hash_prefix(b, 5) == 0x97e3fdf30d842ac0u64) by {
        assert(fnv1a_byte_arith(0x4cec581fbfe24a32u64, 114u8) == 0x97e3fdf30d842ac0u64) by (nonlinear_arith);
        lemma_fnv1a_next(b, 4, 0x4cec581fbfe24a32u64, 114u8);
    }
    assert(hash_prefix(b, 6) == 0x9c9327fff79474acu64) by {
        assert(fnv1a_byte_arith(0x97e3fdf30d842ac0u64, 100u8) == 0x9c9327fff79474acu64) by (nonlinear_arith);
        lemma_fnv1a_next(b, 5, 0x97e3fdf30d842ac0u64, 100u8);
    }
    assert(hash_prefix(b, 7) == 0xa281c0f1b142718bu64) by {
        assert(fnv1a_byte_arith(0x9c9327fff79474acu64, 101u8) == 0xa281c0f1b142718bu64) by (nonlinear_arith);
        lemma_fnv1a_next(b, 6, 0x9c9327fff79474acu64, 101u8);
    }
    assert(hash_prefix(b, 8) == 0x64ecd3b033e7aa1bu64) by {
        assert(fnv1a_byte_arith(0xa281c0f1b142718bu64, 114u8) == 0x64ecd3b033e7aa1bu64) by (nonlinear_arith);
        lemma_fnv1a_next(b, 7, 0xa281c0f1b142718bu64, 114u8);
    }
    assert(hash_prefix(b, 9) == 0x6615f86832a6518cu64) by {
        assert(fnv1a_byte_arith(0x64ecd3b033e7aa1bu64, 95u8) == 0x6615f86832a6518cu64) by (nonlinear_arith);
        lemma_fnv1a_next(b, 8, 0x64ecd3b033e7aa1bu64, 95u8);
    }
    assert(hash_prefix(b, 10) == 0x1da7060e109d35b7u64) by {
        assert(fnv1a_byte_arith(0x6615f86832a6518cu64, 97u8) == 0x1da7060e109d35b7u64) by (nonlinear_arith);
        lemma_fnv1a_next(b, 9, 0x6615f86832a6518cu64, 97u8);
    }
    assert(hash_prefix(b, 11) == 0x00050be63b2258a6u64) by {
        assert(fnv1a_byte_arith(0x1da7060e109d35b7u64, 117u8) == 0x00050be63b2258a6u64) by (nonlinear_arith);
        lemma_fnv1a_next(b, 10, 0x1da7060e109d35b7u64, 117u8);
    }
    assert(hash_prefix(b, 12) == 0x2aec0a367b5cecd6u64) by {
        assert(fnv1a_byte_arith(0x00050be63b2258a6u64, 116u8) == 0x2aec0a367b5cecd6u64) by (nonlinear_arith);
        lemma_fnv1a_next(b, 11, 0x00050be63b2258a6u64, 116u8);
    }
    assert(hash_prefix(b, 13) == 0x4c0213939ee63e5bu64) by {
        assert(fnv1a_byte_arith(0x2aec0a367b5cecd6u64, 111u8) == 0x4c0213939ee63e5bu64) by (nonlinear_arith);
        lemma_fnv1a_next(b, 12, 0x2aec0a367b5cecd6u64, 111u8);
    }
    assert(hash_prefix(b, 14) == 0x0dc547d7013b60ccu64) by {
        assert(fnv1a_byte_arith(0x4c0213939ee63e5bu64, 95u8) == 0x0dc547d7013b60ccu64) by (nonlinear_arith);
        lemma_fnv1a_next(b, 13, 0x4c0213939ee63e5bu64, 95u8);
    }
    assert(hash_prefix(b, 15) == 0xa199ba5717e53d78u64) by {
        assert(fnv1a_byte_arith(0x0dc547d7013b60ccu64, 100u8) == 0xa199ba5717e53d78u64) by (nonlinear_arith);
        lemma_fnv1a_next(b, 14, 0x0dc547d7013b60ccu64, 100u8);
    }
    assert(hash_prefix(b, 16) == 0x7d74b2fd9a86c3e3u64) by {
        assert(fnv1a_byte_arith(0xa199ba5717e53d78u64, 105u8) == 0x7d74b2fd9a86c3e3u64) by (nonlinear_arith);
        lemma_fnv1a_next(b, 15, 0xa199ba5717e53d78u64, 105u8);
    }
    assert(hash_prefix(b, 17) == 0xb40fb4ed92fe4db0u64) by {
        assert(fnv1a_byte_arith(0x7d74b2fd9a86c3e3u64, 115u8) == 0xb40fb4ed92fe4db0u64) by (nonlinear_arith);
        lemma_fnv1a_next(b, 16, 0x7d74b2fd9a86c3e3u64, 115u8);
    }
    assert(hash_prefix(b, 18) == 0xf4fe40b0c61e3a23u64) by {
        assert(fnv1a_byte_arith(0xb40fb4ed92fe4db0u64, 97u8) == 0xf4fe40b0c61e3a23u64) by (nonlinear_arith);
        lemma_fnv1a_next(b, 17, 0xb40fb4ed92fe4db0u64, 97u8);
    }
    assert(hash_prefix(b, 19) == 0x6a422d60a55cfc73u64) by {
        assert(fnv1a_byte_arith(0xf4fe40b0c61e3a23u64, 98u8) == 0x6a422d60a55cfc73u64) by (nonlinear_arith);
        lemma_fnv1a_next(b, 18, 0xf4fe40b0c61e3a23u64, 98u8);
    }
    assert(hash_prefix(b, 20) == 0xeb6f3a38fd0068adu64) by {
        assert(fnv1a_byte_arith(0x6a422d60a55cfc73u64, 108u8) == 0xeb6f3a38fd0068adu64) by (nonlinear_arith);
        lemma_fnv1a_next(b, 19, 0x6a422d60a55cfc73u64, 108u8);
    }
    assert(hash_prefix(b, 21) == 0x0e68b6d5e7b20bd8u64) by {
        assert(fnv1a_byte_arith(0xeb6f3a38fd0068adu64, 101u8) == 0x0e68b6d5e7b20bd8u64) by (nonlinear_arith);
        lemma_fnv1a_next(b, 20, 0xeb6f3a38fd0068adu64, 101u8);
    }
    assert(hash_prefix(b, 22) == 0x2dfa6978b389f074u64) by {
        assert(fnv1a_byte_arith(0x0e68b6d5e7b20bd8u64, 100u8) == 0x2dfa6978b389f074u64) by (nonlinear_arith);
        lemma_fnv1a_next(b, 21, 0x0e68b6d5e7b20bd8u64, 100u8);
    }
    assert(hash_prefix(b, 23) == 0xaa71631913631911u64) by {
        assert(fnv1a_byte_arith(0x2dfa6978b389f074u64, 95u8) == 0xaa71631913631911u64) by (nonlinear_arith);
        lemma_fnv1a_next(b, 22, 0x2dfa6978b389f074u64, 95u8);
    }
    assert(hash_prefix(b, 24) == 0x01c4c89bf164269fu64) by {
        assert(fnv1a_byte_arith(0xaa71631913631911u64, 116u8) == 0x01c4c89bf164269fu64) by (nonlinear_arith);
        lemma_fnv1a_next(b, 23, 0xaa71631913631911u64, 116u8);
    }
    assert(hash_prefix(b, 25) == 0x6587d0fb2d2e29d0u64) by {
        assert(fnv1a_byte_arith(0x01c4c89bf164269fu64, 111u8) == 0x6587d0fb2d2e29d0u64) by (nonlinear_arith);
        lemma_fnv1a_next(b, 24, 0x01c4c89bf164269fu64, 111u8);
    }
    assert(hash_prefix(b, 26) == 0xb3f1becdc570c1acu64) by {
        assert(fnv1a_byte_arith(0x6587d0fb2d2e29d0u64, 116u8) == 0xb3f1becdc570c1acu64) by (nonlinear_arith);
        lemma_fnv1a_next(b, 25, 0x6587d0fb2d2e29d0u64, 116u8);
    }
    assert(hash_prefix(b, 27) == 0x348904a67e994f57u64) by {
        assert(fnv1a_byte_arith(0xb3f1becdc570c1acu64, 97u8) == 0x348904a67e994f57u64) by (nonlinear_arith);
        lemma_fnv1a_next(b, 26, 0xb3f1becdc570c1acu64, 97u8);
    }
    assert(hash_prefix(b, 28) == 0xde2221e91e81a141u64) by {
        assert(fnv1a_byte_arith(0x348904a67e994f57u64, 108u8) == 0xde2221e91e81a141u64) by (nonlinear_arith);
        lemma_fnv1a_next(b, 27, 0x348904a67e994f57u64, 108u8);
    }
    assert(hash_prefix(b, 29) == 0xf5a15d1ed645d5dau64) by {
        assert(fnv1a_byte_arith(0xde2221e91e81a141u64, 255u8) == 0xf5a15d1ed645d5dau64) by (nonlinear_arith);
        lemma_fnv1a_next(b, 28, 0xde2221e91e81a141u64, 255u8);
    }
    lemma_hash_prefix_all(b);
}

/// The bytes that the descriptor id of `safety_rate_limited_total` hashes.
proof fn lemma_bytes_safety_rate_limited_total()
    ensures
        descriptor_id("safety_rate_limited_total"@) == fnv1a(seq![115u8, 97u8, 102u8, 101u8, 116u8, 121u8, 95u8, 114u8, 97u8, 116u8, 101u8, 95u8, 108u8, 105u8, 109u8, 105u8, 116u8, 101u8, 100u8, 95u8, 116u8, 111u8, 116u8, 97u8, 108u8, 255u8]),
{
    reveal_strlit("safety_rate_limited_total");
    lemma_ascii_descriptor_bytes("safety_rate_limited_total"@, seq![115u8, 97u8, 102u8, 101u8, 116u8, 121u8, 95u8, 114u8, 97u8, 116u8, 101u8, 95u8, 108u8, 105u8, 109u8, 105u8, 116u8, 101u8, 100u8, 95u8, 116u8, 111u8, 116u8, 97u8, 108u8, 255u8]);
}

/// The hash of the bytes of `safety_rate_limited_total`.
#[verifier::spinoff_prover]
proof fn lemma_hash_safety_rate_limited_total(b: Seq<u8>)
    requires
        b.len() == 26,
        b[0] == 115u8,
        b[1] == 97u8,
        b[2] == 102u8,
        b[3] == 101u8,
        b[4] == 116u8,
        b[5] == 121u8,
        b[6] == 95u8,
        b[7] == 114u8,
        b[8] == 97u8,
        b[9] == 116u8,
        b[10] == 101u8,
        b[11] == 95u8,
        b[12] == 108u8,
        b[13] == 105u8,
        b[14] == 109u8,
        b[15] == 105u8,
        b[16] == 116u8,
        b[17] == 101u8,
        b[18] == 100u8,
        b[19] == 95u8,
        b[20] == 116u8,
        b[21] == 111u8,
        b[22] == 116u8,
        b[23] == 97u8,
        b[24] == 108u8,
        b[25] == 255u8,
    ensures
        fnv1a(b) == 0x3ec7728cc686ef63u64,
{
    lemma_fnv1a_empty(b);
    assert(hash_prefix(b, 1) == 0xaf63ee4c86020b22u64) by {
        assert(fnv1a_byte_arith(0xcbf29ce484222325u64, 115u8) == 0xaf63ee4c86020b22u64) by (nonlinear_arith);
        lemma_fnv1a_next(b, 0, 0xcbf29ce484222325u64, 115u8);
    }
    assert(hash_prefix(b, 2) == 0x08d92f07b57922d9u64) by {
        assert(fnv1a_byte_arith(0xaf63ee4c86020b22u64, 97u8) == 0x08d92f07b57922d9u64) by (nonlinear_arith);
        lemma_fnv1a_next(b, 1, 0xaf63ee4c86020b22u64, 97u8);
    }
    assert(hash_prefix(b, 3) == 0x822da9195cd60a8du64) by {
        assert(fnv1a_byte_arith(0x08d92f07b57922d9u64, 102u8) == 0x822da9195cd60a8du64) by (nonlinear_arith);
        lemma_fnv1a_next(b, 2, 0x08d92f07b57922d9u64, 102u8);
    }
    assert(hash_prefix(b, 4) == 0x09a13e18bfb48838u64) by {
        assert(fnv1a_byte_arith(0x822da9195cd60a8du64, 101u8) == 0x09a13e18bfb48838u64) by (nonlinear_arith);
        lemma_fnv1a_next(b, 3, 0x822da9195cd60a8du64, 101u8);
    }
    assert(hash_prefix(b, 5) == 0x1184d00dbfc39924u64) by {
        assert(fnv1a_byte_arith(0x09a13e18bfb48838u64, 116u8) == 0x1184d00dbfc39924u64) by (nonlinear_arith);
        lemma_fnv1a_next(b, 4, 0x09a13e18bfb48838u64, 116u8);
    }
    assert(hash_prefix(b, 6) == 0x8846e45cd95d9907u64) by {
        assert(fnv1a_byte_arith(0x1184d00dbfc39924u64, 121u8) == 0x8846e45cd95d9907u64) by (nonlinear_arith);
        lemma_fnv1a_next(b, 5, 0x1184d00dbfc39924u64, 121u8);
    }
    assert(hash_prefix(b, 7) == 0xee0f61c55a0b9088u64) by {
        assert(fnv1a_byte_arith(0x8846e45cd95d9907u64, 95u8) == 0xee0f61c55a0b9088u64) by (nonlinear_arith);
        lemma_fnv1a_next(b, 6, 0x8846e45cd95d9907u64, 95u8);
    }
    assert(hash_prefix(b, 8) == 0x8fb41c5801a758ceu64) by {
        assert(fnv1a_byte_arith(0xee0f61c55a0b9088u64, 114u8) == 0x8fb41c5801a758ceu64) by (nonlinear_arith);
        lemma_fnv1a_next(b, 7, 0xee0f61c55a0b9088u64, 114u8);
    }
    assert(hash_prefix(b, 9) == 0xd664d88acf5bb15du64) by {
        assert(fnv1a_byte_arith(0x8fb41c5801a758ceu64, 97u8) == 0xd664d88acf5bb15du64) by (nonlinear_arith);
        lemma_fnv1a_next(b, 8, 0x8fb41c5801a758ceu64, 97u8);
    }
    assert(hash_prefix(b, 10) == 0xa90d1cde58ce08abu64) by {
        assert(fnv1a_byte_arith(0xd664d88acf5bb15du64, 116u8) == 0xa90d1cde58ce08abu64) by (nonlinear_arith);
        lemma_fnv1a_next(b, 9, 0xd664d88acf5bb15du64, 116u8);
    }
    assert(hash_prefix(b, 11) == 0x0f50dbd0e618f60au64) by {
        assert(fnv1a_byte_arith(0xa90d1cde58ce08abu64, 101u8) == 0x0f50dbd0e618f60au64) by (nonlinear_arith);
        lemma_fnv1a_next(b, 10, 0xa90d1cde58ce08abu64, 101u8);
    }
    assert(hash_prefix(b, 12) == 0x1f5bd8f6fc6a926fu64) by {
        assert(fnv1a_byte_arith(0x0f50dbd0e618f60au64, 95u8) == 0x1f5bd8f6fc6a926fu64) by (nonlinear_arith);
        lemma_fnv1a_next(b, 11, 0x0f50dbd0e618f60au64, 95u8);
    }
    assert(hash_prefix(b, 13) == 0xb3a3aeaee9161b19u64) by {
        assert(fnv1a_byte_arith(0x1f5bd8f6fc6a926fu64, 108u8) == 0xb3a3aeaee9161b19u64) by (nonlinear_arith);
        lemma_fnv1a_next(b, 12, 0x1f5bd8f6fc6a926fu64, 108u8);
    }
    assert(hash_prefix(b, 14) == 0x553d433610909f50u64) by {
        assert(fnv1a_byte_arith(0xb3a3aeaee9161b19u64, 105u8) == 0x553d433610909f50u64) by (nonlinear_arith);
        lemma_fnv1a_next(b, 13, 0xb3a3aeaee9161b19u64, 105u8);
    }
    assert(hash_prefix(b, 15) == 0x67b871de25be94a7u64) by {
        assert(fnv1a_byte_arith(0x553d433610909f50u64, 109u8) == 0x67b871de25be94a7u64) by (nonlinear_arith);
        lemma_fnv1a_next(b, 14, 0x553d433610909f50u64, 109u8);
    }
    assert(hash_prefix(b, 16) == 0xfcfe4a7a22d6da0au64) by {
        assert(fnv1a_byte_arith(0x67b871de25be94a7u64, 105u8) == 0xfcfe4a7a22d6da0au64) by (nonlinear_arith);
        lemma_fnv1a_next(b, 15, 0x67b871de25be94a7u64, 105u8);
    }
    assert(hash_prefix(b, 17) == 0xbaf30b893315441au64) by {
        assert(fnv1a_byte_arith(0xfcfe4a7a22d6da0au64, 116u8) == 0xbaf30b893315441au64) by (nonlinear_arith);
        lemma_fnv1a_next(b, 16, 0xfcfe4a7a22d6da0au64, 116u8);
    }
    assert(hash_prefix(b, 18) == 0xc0411921cd2363cdu64) by {
        assert(fnv1a_byte_arith(0xbaf30b893315441au64, 101u8) == 0xc0411921cd2363cdu64) by (nonlinear_arith);
        lemma_fnv1a_next(b, 17, 0xbaf30b893315441au64, 101u8);
    }
    assert(hash_prefix(b, 19) == 0xd2015d6f9322582bu64) by {
        assert(fnv1a_byte_arith(0xc0411921cd2363cdu64, 100u8) == 0xd2015d6f9322582bu64) by (nonlinear_arith);
        lemma_fnv1a_next(b, 18, 0xc0411921cd2363cdu64, 100u8);
    }
    assert(hash_prefix(b, 20) == 0xfaaa3897035c4d1cu64) by {
        assert(fnv1a_byte_arith(0xd2015d6f9322582bu64, 95u8) == 0xfaaa3897035c4d1cu64) by (nonlinear_arith);
        lemma_fnv1a_next(b, 19, 0xd2015d6f9322582bu64, 95u8);
    }
    assert(hash_prefix(b, 21) == 0x4b8b909ab5d787b8u64) by {
        assert(fnv1a_byte_arith(0xfaaa3897035c4d1cu64, 116u8) == 0x4b8b909ab5d787b8u64) by (nonlinear_arith);
        lemma_fnv1a_next(b, 20, 0xfaaa3897035c4d1cu64, 116u8);
    }
    assert(hash_prefix(b, 22) == 0x35ae8de2fd3bd255u64) by {
        assert(fnv1a_byte_arith(0x4b8b909ab5d787b8u64, 111u8) == 0x35ae8de2fd3bd255u64) by (nonlinear_arith);
        lemma_fnv1a_next(b, 21, 0x4b8b909ab5d787b8u64, 111u8);
    }
    assert(hash_prefix(b, 23) == 0x736d39b44ca60e13u64) by {
        assert(fnv1a_byte_arith(0x35ae8de2fd3bd255u64, 116u8) == 0x736d39b44ca60e13u64) by (nonlinear_arith);
        lemma_fnv1a_next(b, 22, 0x35ae8de2fd3bd255u64, 116u8);
    }
    assert(hash_prefix(b, 24) == 0xc8a77f5e3e2a8bb6u64) by {
        assert(fnv1a_byte_arith(0x736d39b44ca60e13u64, 97u8) == 0xc8a77f5e3e2a8bb6u64) by (nonlinear_arith);
        lemma_fnv1a_next(b, 23, 0x736d39b44ca60e13u64, 97u8);
    }
    assert(hash_prefix(b, 25) == 0x1f294723a24ba36eu64) by {
        assert(fnv1a_byte_arith(0xc8a77f5e3e2a8bb6u64, 108u8) == 0x1f294723a24ba36eu64) by (nonlinear_arith);
        lemma_fnv1a_next(b, 24, 0xc8a77f5e3e2a8bb6u64, 108u8);
    }
    assert(hash_prefix(b, 26) == 0x3ec7728cc686ef63u64) by {
        assert(fnv1a_byte_arith(0x1f294723a24ba36eu64, 255u8) == 0x3ec7728cc686ef63u64) by (nonlinear_arith);
        lemma_fnv1a_next(b, 25, 0x1f294723a24ba36eu64, 255u8);
    }
    lemma_hash_prefix_all(b);
}

/// The bytes that the descriptor id of `safety_sampled_out_total` hashes.
proof fn lemma_bytes_safety_sampled_out_total()
    ensures
        descriptor_id("safety_sampled_out_total"@) == fnv1a(seq![115u8, 97u8, 102u8, 101u8, 116u8, 121u8, 95u8, 115u8, 97u8, 109u8, 112u8, 108u8, 101u8, 100u8, 95u8, 111u8, 117u8, 116u8, 95u8, 116u8, 111u8, 116u8, 97u8, 108u8, 255u8]),
{
    reveal_strlit("safety_sampled_out_total");
    lemma_ascii_descriptor_bytes("safety_sampled_out_total"@, seq![115u8, 97u8, 102u8, 101u8, 116u8, 121u8, 95u8, 115u8, 97u8, 109u8, 112u8, 108u8, 101u8, 100u8, 95u8, 111u8, 117u8, 116u8, 95u8, 116u8, 111u8, 116u8, 97u8, 108u8, 255u8]);
}

/// The hash of the bytes of `safety_sampled_out_total`.
#[verifier::spinoff_prover]
proof fn lemma_hash_safety_sampled_out_total(b: Seq<u8>)
    requires
        b.len() == 25,
        b[0] == 115u8,
        b[1] == 97u8,
        b[2] == 102u8,
        b[3] == 101u8,
        b[4] == 116u8,
        b[5] == 121u8,
        b[6] == 95u8,
        b[7] == 115u8,
        b[8] == 97u8,
        b[9] == 109u8,
        b[10] == 112u8,
        b[11] == 108u8,
        b[12] == 101u8,
        b[13] == 100u8,
        b[14] == 95u8,
        b[15] == 111u8,
        b[16] == 117u8,
        b[17] == 116u8,
        b[18] == 95u8,
        b[19] == 116u8,
        b[20] == 111u8,
        b[21] == 116u8,
        b[22] == 97u8,
        b[23] == 108u8,
        b[24] == 255u8,
    ensures
        fnv1a(b) == 0xfec2ba19060b0e91u64,
{
    lemma_fnv1a_empty(b);
    assert(hash_prefix(b, 1) == 0xaf63ee4c86020b22u64) by {
        assert(fnv1a_byte_arith(0xcbf29ce484222325u64, 115u8) == 0xaf63ee4c86020b22u64) by (nonlinear_arith);
        lemma_fnv1a_next(b, 0, 0xcbf29ce484222325u64, 115u8);
    }
    assert(hash_prefix(b, 2) == 0x08d92f07b57922d9u64) by {
        assert(fnv1a_byte_arith(0xaf63ee4c86020b22u64, 97u8) == 0x08d92f07b57922d9u64) by (nonlinear_arith);
        lemma_fnv1a_next(b, 1, 0xaf63ee4c86020b22u64, 97u8);
    }
    assert(hash_prefix(b, 3) == 0x822da9195cd60a8du64) by {
        assert(fnv1a_byte_arith(0x08d92f07b57922d9u64, 102u8) == 0x822da9195cd60a8du64) by (nonlinear_arith);
        lemma_fnv1a_next(b, 2, 0x08d92f07b57922d9u64, 102u8);
    }
    assert(hash_prefix(b, 4) == 0x09a13e18bfb48838u64) by {
        assert(fnv1a_byte_arith(0x822da9195cd60a8du64, 101u8) == 0x09a13e18bfb48838u64) by (nonlinear_arith);
        lemma_fnv1a_next(b, 3, 0x822da9195cd60a8du64, 101u8);
    }
    assert(hash_prefix(b, 5) == 0x1184d00dbfc39924u64) by {
        assert(fnv1a_byte_arith(0x09a13e18bfb48838u64, 116u8) == 0x1184d00dbfc39924u64) by (nonlinear_arith);
        lemma_fnv1a_next(b, 4, 0x09a13e18bfb48838u64, 116u8);
    }
    assert(hash_prefix(b, 6) == 0x8846e45cd95d9907u64) by {
        assert(fnv1a_byte_arith(0x1184d00dbfc39924u64, 121u8) == 0x8846e45cd95d9907u64) by (nonlinear_arith);
        lemma_fnv1a_next(b, 5, 0x1184d00dbfc39924u64, 121u8);
    }
    assert(hash_prefix(b, 7) == 0xee0f61c55a0b9088u64) by {
        assert(fnv1a_byte_arith(0x8846e45cd95d9907u64, 95u8) == 0xee0f61c55a0b9088u64) by (nonlinear_arith);
        lemma_fnv1a_next(b, 6, 0x8846e45cd95d9907u64, 95u8);
    }
    assert(hash_prefix(b, 8) == 0x8fb41d5801a75a81u64) by {
        assert(fnv1a_byte_arith(0xee0f61c55a0b9088u64, 115u8) == 0x8fb41d5801a75a81u64) by (nonlinear_arith);
        lemma_fnv1a_next(b, 7, 0xee0f61c55a0b9088u64, 115u8);
    }
    assert(hash_prefix(b, 9) == 0xd668bc8acf5f6aa0u64) by {
        assert(fnv1a_byte_arith(0x8fb41d5801a75a81u64, 97u8) == 0xd668bc8acf5f6aa0u64) by (nonlinear_arith);
        lemma_fnv1a_next(b, 8, 0x8fb41d5801a75a81u64, 97u8);
    }
    assert(hash_prefix(b, 10) == 0xb3632cde5f227a57u64) by {
        assert(fnv1a_byte_arith(0xd668bc8acf5f6aa0u64, 109u8) == 0xb3632cde5f227a57u64) by (nonlinear_arith);
        lemma_fnv1a_next(b, 9, 0xd668bc8acf5f6aa0u64, 109u8);
    }
    assert(hash_prefix(b, 11) == 0xf3ff64dba7959045u64) by {
        assert(fnv1a_byte_arith(0xb3632cde5f227a57u64, 112u8) == 0xf3ff64dba7959045u64) by (nonlinear_arith);
        lemma_fnv1a_next(b, 10, 0xb3632cde5f227a57u64, 112u8);
    }
    assert(hash_prefix(b, 12) == 0x30888a3dc323f5abu64) by {
        assert(fnv1a_byte_arith(0xf3ff64dba7959045u64, 108u8) == 0x30888a3dc323f5abu64) by (nonlinear_arith);
        lemma_fnv1a_next(b, 11, 0xf3ff64dba7959045u64, 108u8);
    }
    assert(hash_prefix(b, 13) == 0x9bf8b4f2961aad0au64) by {
        assert(fnv1a_byte_arith(0x30888a3dc323f5abu64, 101u8) == 0x9bf8b4f2961aad0au64) by (nonlinear_arith);
        lemma_fnv1a_next(b, 12, 0x30888a3dc323f5abu64, 101u8);
    }
    assert(hash_prefix(b, 14) == 0x2248e6350f54b1eau64) by {
        assert(fnv1a_byte_arith(0x9bf8b4f2961aad0au64, 100u8) == 0x2248e6350f54b1eau64) by (nonlinear_arith);
        lemma_fnv1a_next(b, 13, 0x9bf8b4f2961aad0au64, 100u8);
    }
    assert(hash_prefix(b, 15) == 0x9690e1290ce9f68fu64) by {
        assert(fnv1a_byte_arith(0x2248e6350f54b1eau64, 95u8) == 0x9690e1290ce9f68fu64) by (nonlinear_arith);
        lemma_fnv1a_next(b, 14, 0x2248e6350f54b1eau64, 95u8);
    }
    assert(hash_prefix(b, 16) == 0xc22578c0f18e7ea0u64) by {
        assert(fnv1a_byte_arith(0x9690e1290ce9f68fu64, 111u8) == 0xc22578c0f18e7ea0u64) by (nonlinear_arith);
        lemma_fnv1a_next(b, 15, 0x9690e1290ce9f68fu64, 111u8);
    }
    assert(hash_prefix(b, 17) == 0x742b04da752183efu64) by {
        assert(fnv1a_byte_arith(0xc22578c0f18e7ea0u64, 117u8) == 0x742b04da752183efu64) by (nonlinear_arith);
        lemma_fnv1a_next(b, 16, 0xc22578c0f18e7ea0u64, 117u8);
    }
    assert(hash_prefix(b, 18) == 0x869cda3507f2a061u64) by {
        assert(fnv1a_byte_arith(0x742b04da752183efu64, 116u8) == 0x869cda3507f2a061u64) by (nonlinear_arith);
        lemma_fnv1a_next(b, 17, 0x742b04da752183efu64, 116u8);
    }
    assert(hash_prefix(b, 19) == 0xaf27061c8146495au64) by {
        assert(fnv1a_byte_arith(0x869cda3507f2a061u64, 95u8) == 0xaf27061c8146495au64) by (nonlinear_arith);
        lemma_fnv1a_next(b, 18, 0x869cda3507f2a061u64, 95u8);
    }
    assert(hash_prefix(b, 20) == 0xe598906faa6e592au64) by {
        assert(fnv1a_byte_arith(0xaf27061c8146495au64, 116u8) == 0xe598906faa6e592au64) by (nonlinear_arith);
        lemma_fnv1a_next(b, 19, 0xaf27061c8146495au64, 116u8);
    }
    assert(hash_prefix(b, 21) == 0x9096b2be9981b03fu64) by {
        assert(fnv1a_byte_arith(0xe598906faa6e592au64, 111u8) == 0x9096b2be9981b03fu64) by (nonlinear_arith);
        lemma_fnv1a_next(b, 20, 0xe598906faa6e592au64, 111u8);
    }
    assert(hash_prefix(b, 22) == 0x31c204ded75e8f71u64) by {
        assert(fnv1a_byte_arith(0x9096b2be9981b03fu64, 116u8) == 0x31c204ded75e8f71u64) by (nonlinear_arith);
        lemma_fnv1a_next(b, 21, 0x9096b2be9981b03fu64, 116u8);
    }
    assert(hash_prefix(b, 23) == 0xeb3d56a7f5ad1830u64) by {
        assert(fnv1a_byte_arith(0x31c204ded75e8f71u64, 97u8) == 0xeb3d56a7f5ad1830u64) by (nonlinear_arith);
        lemma_fnv1a_next(b, 22, 0x31c204ded75e8f71u64, 97u8);
    }
    assert(hash_prefix(b, 24) == 0x66529b6675206454u64) by {
        assert(fnv1a_byte_arith(0xeb3d56a7f5ad1830u64, 108u8) == 0x66529b6675206454u64) by (nonlinear_arith);
        lemma_fnv1a_next(b, 23, 0xeb3d56a7f5ad1830u64, 108u8);
    }
    assert(hash_prefix(b, 25) == 0xfec2ba19060b0e91u64) by {
        assert(fnv1a_byte_arith(0x66529b6675206454u64, 255u8) == 0xfec2ba19060b0e91u64) by (nonlinear_arith);
        lemma_fnv1a_next(b, 24, 0x66529b6675206454u64, 255u8);
    }
    lemma_hash_prefix_all(b);
}

/// The bytes that the descriptor id of `memory_usage_bytes` hashes.
proof fn lemma_bytes_memory_usage_bytes()
    ensures
        descriptor_id("memory_usage_bytes"@) == fnv1a(seq![109u8, 101u8, 109u8, 111u8, 114u8, 121u8, 95u8, 117u8, 115u8, 97u8, 103u8, 101u8, 95u8, 98u8, 121u8, 116u8, 101u8, 115u8, 255u8]),
{
    reveal_strlit("memory_usage_bytes");
    lemma_ascii_descriptor_bytes("memory_usage_bytes"@, seq![109u8, 101u8, 109u8, 111u8, 114u8, 121u8, 95u8, 117u8, 115u8, 97u8, 103u8, 101u8, 95u8, 98u8, 121u8, 116u8, 101u8, 115u8, 255u8]);
}

/// The hash of the bytes of `memory_usage_bytes`.
#[verifier::spinoff_prover]
proof fn lemma_hash_memory_usage_bytes(b: Seq<u8>)
    requires
        b.len() == 19,
        b[0] == 109u8,
        b[1] == 101u8,
        b[2] == 109u8,
        b[3] == 111u8,
        b[4] == 114u8,
        b[5] == 121u8,
        b[6] == 95u8,
        b[7] == 117u8,
        b[8] == 115u8,
        b[9] == 97u8,
        b[10] == 103u8,
        b[11] == 101u8,
        b[12] == 95u8,
        b[13] == 98u8,
        b[14] == 121u8,
        b[15] == 116u8,
        b[16] == 101u8,
        b[17] == 115u8,
        b[18] == 255u8,
    ensures
        fnv1a(b) == 0x77483bda7313b217u64,
{
    lemma_fnv1a_empty(b);
    assert(hash_prefix(b, 1) == 0xaf63e04c8601f358u64) by {
        assert(fnv1a_byte_arith(0xcbf29ce484222325u64, 109u8) == 0xaf63e04c8601f358u64) by (nonlinear_arith);
        lemma_fnv1a_next(b, 0, 0xcbf29ce484222325u64, 109u8);
    }
    assert(hash_prefix(b, 2) == 0x08a95f07b55050a7u64) by {
        assert(fnv1a_byte_arith(0xaf63e04c8601f358u64, 101u8) == 0x08a95f07b55050a7u64) by (nonlinear_arith);
        lemma_fnv1a_next(b, 1, 0xaf63e04c8601f358u64, 101u8);
    }
    assert(hash_prefix(b, 3) == 0x081d44191779473eu64) by {
        assert(fnv1a_byte_arith(0x08a95f07b55050a7u64, 109u8) == 0x081d44191779473eu64) by (nonlinear_arith);
        lemma_fnv1a_next(b, 2, 0x08a95f07b55050a7u64, 109u8);
    }
    assert(hash_prefix(b, 4) == 0x430207a2e3142ea3u64) by {
        assert(fnv1a_byte_arith(0x081d44191779473eu64, 111u8) == 0x430207a2e3142ea3u64) by (nonlinear_arith);
        lemma_fnv1a_next(b, 3, 0x081d44191779473eu64, 111u8);
    }
    assert(hash_prefix(b, 5) == 0xf0a1cac7db4b8d23u64) by {
        assert(fnv1a_byte_arith(0x430207a2e3142ea3u64, 114u8) == 0xf0a1cac7db4b8d23u64) by (nonlinear_arith);
        lemma_fnv1a_next(b, 4, 0x430207a2e3142ea3u64, 114u8);
    }
    assert(hash_prefix(b, 6) == 0x2e78eb99a1612feeu64) by {
        assert(fnv1a_byte_arith(0xf0a1cac7db4b8d23u64, 121u8) == 0x2e78eb99a1612feeu64) by (nonlinear_arith);
        lemma_fnv1a_next(b, 5, 0xf0a1cac7db4b8d23u64, 121u8);
    }
    assert(hash_prefix(b, 7) == 0x58a8070d382409c3u64) by {
        assert(fnv1a_byte_arith(0x2e78eb99a1612feeu64, 95u8) == 0x58a8070d382409c3u64) by (nonlinear_arith);
        lemma_fnv1a_next(b, 6, 0x2e78eb99a1612feeu64, 95u8);
    }
    assert(hash_prefix(b, 8) == 0xc98db176653c8042u64) by {
        assert(fnv1a_byte_arith(0x58a8070d382409c3u64, 117u8) == 0xc98db176653c8042u64) by (nonlinear_arith);
        lemma_fnv1a_next(b, 7, 0x58a8070d382409c3u64, 117u8);
    }
    assert(hash_prefix(b, 9) == 0xb844bd2e05cdd343u64) by {
        assert(fnv1a_byte_arith(0xc98db176653c8042u64, 115u8) == 0xb844bd2e05cdd343u64) by (nonlinear_arith);
        lemma_fnv1a_next(b, 8, 0xc98db176653c8042u64, 115u8);
    }
    assert(hash_prefix(b, 10) == 0xeaa09733dcbdc2c6u64) by {
        assert(fnv1a_byte_arith(0xb844bd2e05cdd343u64, 97u8) == 0xeaa09733dcbdc2c6u64) by (nonlinear_arith);
        lemma_fnv1a_next(b, 9, 0xb844bd2e05cdd343u64, 97u8);
    }
    assert(hash_prefix(b, 11) == 0x6ca38e201671b793u64) by {
        assert(fnv1a_byte_arith(0xeaa09733dcbdc2c6u64, 103u8) == 0x6ca38e201671b793u64) by (nonlinear_arith);
        lemma_fnv1a_next(b, 10, 0xeaa09733dcbdc2c6u64, 103u8);
    }
    assert(hash_prefix(b, 12) == 0x0ba27686233b9702u64) by {
        assert(fnv1a_byte_arith(0x6ca38e201671b793u64, 101u8) == 0x0ba27686233b9702u64) by (nonlinear_arith);
        lemma_fnv1a_next(b, 11, 0x6ca38e201671b793u64, 101u8);
    }
    assert(hash_prefix(b, 13) == 0x00a6c2edde423307u64) by {
        assert(fnv1a_byte_arith(0x0ba27686233b9702u64, 95u8) == 0x00a6c2edde423307u64) by (nonlinear_arith);
        lemma_fnv1a_next(b, 12, 0x0ba27686233b9702u64, 95u8);
    }
    assert(hash_prefix(b, 14) == 0x5d909f30aa7d549fu64) by {
        assert(fnv1a_byte_arith(0x00a6c2edde423307u64, 98u8) == 0x5d909f30aa7d549fu64) by (nonlinear_arith);
        lemma_fnv1a_next(b, 13, 0x00a6c2edde423307u64, 98u8);
    }
    assert(hash_prefix(b, 15) == 0x7a1365b1b2f742d2u64) by {
        assert(fnv1a_byte_arith(0x5d909f30aa7d549fu64, 121u8) == 0x7a1365b1b2f742d2u64) by (nonlinear_arith);
        lemma_fnv1a_next(b, 14, 0x5d909f30aa7d549fu64, 121u8);
    }
    assert(hash_prefix(b, 16) == 0x663872f31a264012u64) by {
        assert(fnv1a_byte_arith(0x7a1365b1b2f742d2u64, 116u8) == 0x663872f31a264012u64) by (nonlinear_arith);
        lemma_fnv1a_next(b, 15, 0x7a1365b1b2f742d2u64, 116u8);
    }
    assert(hash_prefix(b, 17) == 0xd82bca156eff8a35u64) by {
        assert(fnv1a_byte_arith(0x663872f31a264012u64, 101u8) == 0xd82bca156eff8a35u64) by (nonlinear_arith);
        lemma_fnv1a_next(b, 16, 0x663872f31a264012u64, 101u8);
    }
    assert(hash_prefix(b, 18) == 0x51f2a86b9c37f4f2u64) by {
        assert(fnv1a_byte_arith(0xd82bca156eff8a35u64, 115u8) == 0x51f2a86b9c37f4f2u64) by (nonlinear_arith);
        lemma_fnv1a_next(b, 17, 0xd82bca156eff8a35u64, 115u8);
    }
    assert(hash_prefix(b, 19) == 0x77483bda7313b217u64) by {
        assert(fnv1a_byte_arith(0x51f2a86b9c37f4f2u64, 255u8) == 0x77483bda7313b217u64) by (nonlinear_arith);
        lemma_fnv1a_next(b, 18, 0x51f2a86b9c37f4f2u64, 255u8);
    }
    lemma_hash_prefix_all(b);
}

/// The descriptor id of `tcp_connections_total`.
#[verifier::spinoff_prover]
proof fn lemma_id_tcp_connections_total()
    ensures
        descriptor_id("tcp_connections_total"@) == 0x832ededf905f075cu64,
{
    lemma_bytes_tcp_connections_total();
    lemma_hash_tcp_connections_total(seq![116u8, 99u8, 112u8, 95u8, 99u8, 111u8, 110u8, 110u8, 101u8, 99u8, 116u8, 105u8, 111u8, 110u8, 115u8, 95u8, 116u8, 111u8, 116u8, 97u8, 108u8, 255u8]);
}

/// The descriptor id of `tcp_bytes_sent_total`.
#[verifier::spinoff_prover]
proof fn lemma_id_tcp_bytes_sent_total()
    ensures
        descriptor_id("tcp_bytes_sent_total"@) == 0xd08e5ad083f44b43u64,
{
    lemma_bytes_tcp_bytes_sent_total();
    lemma_hash_tcp_bytes_sent_total(seq![116u8, 99u8, 112u8, 95u8, 98u8, 121u8, 116u8, 101u8, 115u8, 95u8, 115u8, 101u8, 110u8, 116u8, 95u8, 116u8, 111u8, 116u8, 97u8, 108u8, 255u8]);
}

/// The descriptor id of `tcp_bytes_received_total`.
#[verifier::spinoff_prover]
proof fn lemma_id_tcp_bytes_received_total()
    ensures
        descriptor_id("tcp_bytes_received_total"@) == 0x97e6ce2840c41af4u64,
{
    lemma_bytes_tcp_bytes_received_total();
    lemma_hash_tcp_bytes_received_total(seq![116u8, 99u8, 112u8, 95u8, 98u8, 121u8, 116u8, 101u8, 115u8, 95u8, 114u8, 101u8, 99u8, 101u8, 105u8, 118u8, 101u8, 100u8, 95u8, 116u8, 111u8, 116u8, 97u8, 108u8, 255u8]);
}

/// The descriptor id of `tcp_active_connections`.
#[verifier::spinoff_prover]
proof fn lemma_id_tcp_active_connections()
    ensures
        descriptor_id("tcp_active_connections"@) == 0x7993f6591c375572u64,
{
    lemma_bytes_tcp_active_connections();
    lemma_hash_tcp_active_connections(seq![116u8, 99u8, 112u8, 95u8, 97u8, 99u8, 116u8, 105u8, 118u8, 101u8, 95u8, 99u8, 111u8, 110u8, 110u8, 101u8, 99u8, 116u8, 105u8, 111u8, 110u8, 115u8, 255u8]);
}

/// The descriptor id of `tcp_errors_total`.
#[verifier::spinoff_prover]
proof fn lemma_id_tcp_errors_total()
    ensures
        descriptor_id("tcp_errors_total"@) == 0x44aefbdcee2c0bf4u64,
{
    lemma_bytes_tcp_errors_total();
    lemma_hash_tcp_errors_total(seq![116u8, 99u8, 112u8, 95u8, 101u8, 114u8, 114u8, 111u8, 114u8, 115u8, 95u8, 116u8, 111u8, 116u8, 97u8, 108u8, 255u8]);
}

/// The descriptor id of `tcp_connection_duration_seconds`.
#[verifier::spinoff_prover]
proof fn lemma_id_tcp_connection_duration_seconds()
    ensures
        descriptor_id("tcp_connection_duration_seconds"@) == 0xda924ad69c35c32du64,
{
    lemma_bytes_tcp_connection_duration_seconds();
    lemma_hash_tcp_connection_duration_seconds(seq![116u8, 99u8, 112u8, 95u8, 99u8, 111u8, 110u8, 110u8, 101u8, 99u8, 116u8, 105u8, 111u8, 110u8, 95u8, 100u8, 117u8, 114u8, 97u8, 116u8, 105u8, 111u8, 110u8, 95u8, 115u8, 101u8, 99u8, 111u8, 110u8, 100u8, 115u8, 255u8]);
}

/// The descriptor id of `udp_packets_sent_total`.
#[verifier::spinoff_prover]
proof fn lemma_id_udp_packets_sent_total()
    ensures
        descriptor_id("udp_packets_sent_total"@) == 0x02c7184943a52999u64,
{
    lemma_bytes_udp_packets_sent_total();
    lemma_hash_udp_packets_sent_total(seq![117u8, 100u8, 112u8, 95u8, 112u8, 97u8, 99u8, 107u8, 101u8, 116u8, 115u8, 95u8, 115u8, 101u8, 110u8, 116u8, 95u8, 116u8, 111u8, 116u8, 97u8, 108u8, 255u8]);
}

/// The descriptor id of `udp_packets_received_total`.
#[verifier::spinoff_prover]
proof fn lemma_id_udp_packets_received_total()
    ensures
        descriptor_id("udp_packets_received_total"@) == 0x68dbf347208a29deu64,
{
    lemma_bytes_udp_packets_received_total();
    lemma_hash_udp_packets_received_total(seq![117u8, 100u8, 112u8, 95u8, 112u8, 97u8, 99u8, 107u8, 101u8, 116u8, 115u8, 95u8, 114u8, 101u8, 99u8, 101u8, 105u8, 118u8, 101u8, 100u8, 95u8, 116u8, 111u8, 116u8, 97u8, 108u8, 255u8]);
}

/// The descriptor id of `udp_bytes_sent_total`.
#[verifier::spinoff_prover]
proof fn lemma_id_udp_bytes_sent_total()
    ensures
        descriptor_id("udp_bytes_sent_total"@) == 0x9c0b6921c1cdf61fu64,
{
    lemma_bytes_udp_bytes_sent_total();
    lemma_hash_udp_bytes_sent_total(seq![117u8, 100u8, 112u8, 95u8, 98u8, 121u8, 116u8, 101u8, 115u8, 95u8, 115u8, 101u8, 110u8, 116u8, 95u8, 116u8, 111u8, 116u8, 97u8, 108u8, 255u8]);
}

/// The descriptor id of `udp_bytes_received_total`.
#[verifier::spinoff_prover]
proof fn lemma_id_udp_bytes_received_total()
    ensures
        descriptor_id("udp_bytes_received_total"@) == 0xb430421b54462ab0u64,
{
    lemma_bytes_udp_bytes_received_total();
    lemma_hash_udp_bytes_received_total(seq![117u8, 100u8, 112u8, 95u8, 98u8, 121u8, 116u8, 101u8, 115u8, 95u8, 114u8, 101u8, 99u8, 101u8, 105u8, 118u8, 101u8, 100u8, 95u8, 116u8, 111u8, 116u8, 97u8, 108u8, 255u8]);
}

/// The descriptor id of `udp_drops_total`.
#[verifier::spinoff_prover]
proof fn lemma_id_udp_drops_total()
    ensures
        descriptor_id("udp_drops_total"@) == 0x04b102a40afad9d1u64,
{
    lemma_bytes_udp_drops_total();
    lemma_hash_udp_drops_total(seq![117u8, 100u8, 112u8, 95u8, 100u8, 114u8, 111u8, 112u8, 115u8, 95u8, 116u8, 111u8, 116u8, 97u8, 108u8, 255u8]);
}

/// The descriptor id of `http_requests_total`.
#[verifier::spinoff_prover]
proof fn lemma_id_http_requests_total()
    ensures
        descriptor_id("http_requests_total"@) == 0x4217265b99da9aceu64,
{
    lemma_bytes_http_requests_total();
    lemma_hash_http_requests_total(seq![104u8, 116u8, 116u8, 112u8, 95u8, 114u8, 101u8, 113u8, 117u8, 101u8, 115u8, 116u8, 115u8, 95u8, 116u8, 111u8, 116u8, 97u8, 108u8, 255u8]);
}

/// The descriptor id of `http_request_duration_seconds`.
#[verifier::spinoff_prover]
proof fn lemma_id_http_request_duration_seconds()
    ensures
        descriptor_id("http_request_duration_seconds"@) == 0xfdd42088fb22972bu64,
{
    lemma_bytes_http_request_duration_seconds();
    lemma_hash_http_request_duration_seconds(seq![104u8, 116u8, 116u8, 112u8, 95u8, 114u8, 101u8, 113u8, 117u8, 101u8, 115u8, 116u8, 95u8, 100u8, 117u8, 114u8, 97u8, 116u8, 105u8, 111u8, 110u8, 95u8, 115u8, 101u8, 99u8, 111u8, 110u8, 100u8, 115u8, 255u8]);
}

/// The descriptor id of `http_request_size_bytes`.
#[verifier::spinoff_prover]
proof fn lemma_id_http_request_size_bytes()
    ensures
        descriptor_id("http_request_size_bytes"@) == 0xe066830a5c30e766u64,
{
    lemma_bytes_http_request_size_bytes();
    lemma_hash_http_request_size_bytes(seq![104u8, 116u8, 116u8, 112u8, 95u8, 114u8, 101u8, 113u8, 117u8, 101u8, 115u8, 116u8, 95u8, 115u8, 105u8, 122u8, 101u8, 95u8, 98u8, 121u8, 116u8, 101u8, 115u8, 255u8]);
}

/// The descriptor id of `http_response_size_bytes`.
#[verifier::spinoff_prover]
proof fn lemma_id_http_response_size_bytes()
    ensures
        descriptor_id("http_response_size_bytes"@) == 0x2d0472ce5bae3208u64,
{
    lemma_bytes_http_response_size_bytes();
    lemma_hash_http_response_size_bytes(seq![104u8, 116u8, 116u8, 112u8, 95u8, 114u8, 101u8, 115u8, 112u8, 111u8, 110u8, 115u8, 101u8, 95u8, 115u8, 105u8, 122u8, 101u8, 95u8, 98u8, 121u8, 116u8, 101u8, 115u8, 255u8]);
}

/// The descriptor id of `http2_streams_total`.
#[verifier::spinoff_prover]
proof fn lemma_id_http2_streams_total()
    ensures
        descriptor_id("http2_streams_total"@) == 0x5b5e9507a0720f27u64,
{
    lemma_bytes_http2_streams_total();
    lemma_hash_http2_streams_total(seq![104u8, 116u8, 116u8, 112u8, 50u8, 95u8, 115u8, 116u8, 114u8, 101u8, 97u8, 109u8, 115u8, 95u8, 116u8, 111u8, 116u8, 97u8, 108u8, 255u8]);
}

/// The descriptor id of `http2_stream_resets_total`.
#[verifier::spinoff_prover]
proof fn lemma_id_http2_stream_resets_total()
    ensures
        descriptor_id("http2_stream_resets_total"@) == 0x716d0195e7e43ebbu64,
{
    lemma_bytes_http2_stream_resets_total();
    lemma_hash_http2_stream_resets_total(seq![104u8, 116u8, 116u8, 112u8, 50u8, 95u8, 115u8, 116u8, 114u8, 101u8, 97u8, 109u8, 95u8, 114u8, 101u8, 115u8, 101u8, 116u8, 115u8, 95u8, 116u8, 111u8, 116u8, 97u8, 108u8, 255u8]);
}

/// The descriptor id of `http2_bytes_total`.
#[verifier::spinoff_prover]
proof fn lemma_id_http2_bytes_total()
    ensures
        descriptor_id("http2_bytes_total"@) == 0x1999030f996508edu64,
{
    lemma_bytes_http2_bytes_total();
    lemma_hash_http2_bytes_total(seq![104u8, 116u8, 116u8, 112u8, 50u8, 95u8, 98u8, 121u8, 116u8, 101u8, 115u8, 95u8, 116u8, 111u8, 116u8, 97u8, 108u8, 255u8]);
}

/// The descriptor id of `quic_packets_total`.
#[verifier::spinoff_prover]
proof fn lemma_id_quic_packets_total()
    ensures
        descriptor_id("quic_packets_total"@) == 0x1c5a94240fe952a1u64,
{
    lemma_bytes_quic_packets_total();
    lemma_hash_quic_packets_total(seq![113u8, 117u8, 105u8, 99u8, 95u8, 112u8, 97u8, 99u8, 107u8, 101u8, 116u8, 115u8, 95u8, 116u8, 111u8, 116u8, 97u8, 108u8, 255u8]);
}

/// The descriptor id of `quic_bytes_total`.
#[verifier::spinoff_prover]
proof fn lemma_id_quic_bytes_total()
    ensures
        descriptor_id("quic_bytes_total"@) == 0xa88a9b378096c4a3u64,
{
    lemma_bytes_quic_bytes_total();
    lemma_hash_quic_bytes_total(seq![113u8, 117u8, 105u8, 99u8, 95u8, 98u8, 121u8, 116u8, 101u8, 115u8, 95u8, 116u8, 111u8, 116u8, 97u8, 108u8, 255u8]);
}

/// The descriptor id of `quic_rtt_milliseconds`.
#[verifier::spinoff_prover]
proof fn lemma_id_quic_rtt_milliseconds()
    ensures
        descriptor_id("quic_rtt_milliseconds"@) == 0xa0259a2f6dd8f28eu64,
{
    lemma_bytes_quic_rtt_milliseconds();
    lemma_hash_quic_rtt_milliseconds(seq![113u8, 117u8, 105u8, 99u8, 95u8, 114u8, 116u8, 116u8, 95u8, 109u8, 105u8, 108u8, 108u8, 105u8, 115u8, 101u8, 99u8, 111u8, 110u8, 100u8, 115u8, 255u8]);
}

/// The descriptor id of `recorder_events_total`.
#[verifier::spinoff_prover]
proof fn lemma_id_recorder_events_total()
    ensures
        descriptor_id("recorder_events_total"@) == 0xf96c40bfaef6a71du64,
{
    lemma_bytes_recorder_events_total();
    lemma_hash_recorder_events_total(seq![114u8, 101u8, 99u8, 111u8, 114u8, 100u8, 101u8, 114u8, 95u8, 101u8, 118u8, 101u8, 110u8, 116u8, 115u8, 95u8, 116u8, 111u8, 116u8, 97u8, 108u8, 255u8]);
}

/// The descriptor id of `recorder_bytes_written_total`.
#[verifier::spinoff_prover]
proof fn lemma_id_recorder_bytes_written_total()
    ensures
        descriptor_id("recorder_bytes_written_total"@) == 0xbbc390941dae688fu64,
{
    lemma_bytes_recorder_bytes_written_total();
    lemma_hash_recorder_bytes_written_total(seq![114u8, 101u8, 99u8, 111u8, 114u8, 100u8, 101u8, 114u8, 95u8, 98u8, 121u8, 116u8, 101u8, 115u8, 95u8, 119u8, 114u8, 105u8, 116u8, 116u8, 101u8, 110u8, 95u8, 116u8, 111u8, 116u8, 97u8, 108u8, 255u8]);
}

/// The descriptor id of `recorder_drops_total`.
#[verifier::spinoff_prover]
proof fn lemma_id_recorder_drops_total()
    ensures
        descriptor_id("recorder_drops_total"@) == 0x0021ee0a11ee90b4u64,
{
    lemma_bytes_recorder_drops_total();
    lemma_hash_recorder_drops_total(seq![114u8, 101u8, 99u8, 111u8, 114u8, 100u8, 101u8, 114u8, 95u8, 100u8, 114u8, 111u8, 112u8, 115u8, 95u8, 116u8, 111u8, 116u8, 97u8, 108u8, 255u8]);
}

/// The descriptor id of `recorder_auto_disabled_total`.
#[verifier::spinoff_prover]
proof fn lemma_id_recorder_auto_disabled_total()
    ensures
        descriptor_id("recorder_auto_disabled_total"@) == 0xf5a15d1ed645d5dau64,
{
    lemma_bytes_recorder_auto_disabled_total();
    lemma_hash_recorder_auto_disabled_total(seq![114u8, 101u8, 99u8, 111u8, 114u8, 100u8, 101u8, 114u8, 95u8, 97u8, 117u8, 116u8, 111u8, 95u8, 100u8, 105u8, 115u8, 97u8, 98u8, 108u8, 101u8, 100u8, 95u8, 116u8, 111u8, 116u8, 97u8, 108u8, 255u8]);
}

/// The descriptor id of `safety_rate_limited_total`.
#[verifier::spinoff_prover]
proof fn lemma_id_safety_rate_limited_total()
    ensures
        descriptor_id("safety_rate_limited_total"@) == 0x3ec7728cc686ef63u64,
{
    lemma_bytes_safety_rate_limited_total();
    lemma_hash_safety_rate_limited_total(seq![115u8, 97u8, 102u8, 101u8, 116u8, 121u8, 95u8, 114u8, 97u8, 116u8, 101u8, 95u8, 108u8, 105u8, 109u8, 105u8, 116u8, 101u8, 100u8, 95u8, 116u8, 111u8, 116u8, 97u8, 108u8, 255u8]);
}

/// The descriptor id of `safety_sampled_out_total`.
#[verifier::spinoff_prover]
proof fn lemma_id_safety_sampled_out_total()
    ensures
        descriptor_id("safety_sampled_out_total"@) == 0xfec2ba19060b0e91u64,
{
    lemma_bytes_safety_sampled_out_total();
    lemma_hash_safety_sampled_out_total(seq![115u8, 97u8, 102u8, 101u8, 116u8, 121u8, 95u8, 115u8, 97u8, 109u8, 112u8, 108u8, 101u8, 100u8, 95u8, 111u8, 117u8, 116u8, 95u8, 116u8, 111u8, 116u8, 97u8, 108u8, 255u8]);
}

/// The descriptor id of `memory_usage_bytes`.
#[verifier::spinoff_prover]
proof fn lemma_id_memory_usage_bytes()
    ensures
        descriptor_id("memory_usage_bytes"@) == 0x77483bda7313b217u64,
{
    lemma_bytes_memory_usage_bytes();
    lemma_hash_memory_usage_bytes(seq![109u8, 101u8, 109u8, 111u8, 114u8, 121u8, 95u8, 117u8, 115u8, 97u8, 103u8, 101u8, 95u8, 98u8, 121u8, 116u8, 101u8, 115u8, 255u8]);
}

/// The descriptor ids of the metric names that the setup registers.
pub proof fn lemma_metric_descriptor_ids()
    ensures
        descriptor_id("tcp_connections_total"@) == 0x832ededf905f075cu64,
        descriptor_id("tcp_bytes_sent_total"@) == 0xd08e5ad083f44b43u64,
        descriptor_id("tcp_bytes_received_total"@) == 0x97e6ce2840c41af4u64,
        descriptor_id("tcp_active_connections"@) == 0x7993f6591c375572u64,
        descriptor_id("tcp_errors_total"@) == 0x44aefbdcee2c0bf4u64,
        descriptor_id("tcp_connection_duration_seconds"@) == 0xda924ad69c35c32du64,
        descriptor_id("udp_packets_sent_total"@) == 0x02c7184943a52999u64,
        descriptor_id("udp_packets_received_total"@) == 0x68dbf347208a29deu64,
        descriptor_id("udp_bytes_sent_total"@) == 0x9c0b6921c1cdf61fu64,
        descriptor_id("udp_bytes_received_total"@) == 0xb430421b54462ab0u64,
        descriptor_id("udp_drops_total"@) == 0x04b102a40afad9d1u64,
        descriptor_id("http_requests_total"@) == 0x4217265b99da9aceu64,
        descriptor_id("http_request_duration_seconds"@) == 0xfdd42088fb22972bu64,
        descriptor_id("http_request_size_bytes"@) == 0xe066830a5c30e766u64,
        descriptor_id("http_response_size_bytes"@) == 0x2d0472ce5bae3208u64,
        descriptor_id("http2_streams_total"@) == 0x5b5e9507a0720f27u64,
        descriptor_id("http2_stream_resets_total"@) == 0x716d0195e7e43ebbu64,
        descriptor_id("http2_bytes_total"@) == 0x1999030f996508edu64,
        descriptor_id("quic_packets_total"@) == 0x1c5a94240fe952a1u64,
        descriptor_id("quic_bytes_total"@) == 0xa88a9b378096c4a3u64,
        descriptor_id("quic_rtt_milliseconds"@) == 0xa0259a2f6dd8f28eu64,
        descriptor_id("recorder_events_total"@) == 0xf96c40bfaef6a71du64,
        descriptor_id("recorder_bytes_written_total"@) == 0xbbc390941dae688fu64,
        descriptor_id("recorder_drops_total"@) == 0x0021ee0a11ee90b4u64,
        descriptor_id("recorder_auto_disabled_total"@) == 0xf5a15d1ed645d5dau64,
        descriptor_id("safety_rate_limited_total"@) == 0x3ec7728cc686ef63u64,
        descriptor_id("safety_sampled_out_total"@) == 0xfec2ba19060b0e91u64,
        descriptor_id("memory_usage_bytes"@) == 0x77483bda7313b217u64,
{
    lemma_id_tcp_connections_total();
    lemma_id_tcp_bytes_sent_total();
    lemma_id_tcp_bytes_received_total();
    lemma_id_tcp_active_connections();
    lemma_id_tcp_errors_total();
    lemma_id_tcp_connection_duration_seconds();
    lemma_id_udp_packets_sent_total();
    lemma_id_udp_packets_received_total();
    lemma_id_udp_bytes_sent_total();
    lemma_id_udp_bytes_received_total();
    lemma_id_udp_drops_total();
    lemma_id_http_requests_total();
    lemma_id_http_request_duration_seconds();
    lemma_id_http_request_size_bytes();
    lemma_id_http_response_size_bytes();
    lemma_id_http2_streams_total();
    lemma_id_http2_stream_resets_total();
    lemma_id_http2_bytes_total();
    lemma_id_quic_packets_total();
    lemma_id_quic_bytes_total();
    lemma_id_quic_rtt_milliseconds();
    lemma_id_recorder_events_total();
    lemma_id_recorder_bytes_written_total();
    lemma_id_recorder_drops_total();
    lemma_id_recorder_auto_disabled_total();
    lemma_id_safety_rate_limited_total();
    lemma_id_safety_sampled_out_total();
    lemma_id_memory_usage_bytes();
}


/// The bytes of an ASCII text are its characters.
proof fn lemma_ascii_text_bytes(text: Seq<char>, b: Seq<u8>)
    requires
        is_ascii_chars(text),
        b.len() == text.len(),
        forall|i: int| 0 <= i < text.len() ==> b[i] == text[i] as u8,
    ensures
        label_values_key(seq![text]) == fnv1a(b),
{
    is_ascii_chars_encode_utf8(text);
    assert(encode_utf8(text) =~= b);
    let one: Seq<Seq<char>> = seq![text];
    assert(one.drop_last() =~= Seq::<Seq<char>>::empty());
    assert(one.last() == text);
    assert(joined_bytes(one.drop_last()) == Seq::<u8>::empty());
    assert(joined_bytes(one) == joined_bytes(one.drop_last()) + encode_utf8(one.last()));
    assert(Seq::<u8>::empty() + b =~= b);
}

/// The key of the label value `client_read`.
#[verifier::spinoff_prover]
proof fn lemma_key_client_read()
    ensures
        label_values_key(seq!["client_read"@]) == 0x4c778aa2ef69be67u64,
{
    let b: Seq<u8> = seq![99u8, 108u8, 105u8, 101u8, 110u8, 116u8, 95u8, 114u8, 101u8, 97u8, 100u8];
    assert(label_values_key(seq!["client_read"@]) == fnv1a(b)) by {
        reveal_strlit("client_read");
        lemma_ascii_text_bytes("client_read"@, b);
    }
    assert(fnv1a(b) == 0x4c778aa2ef69be67u64) by {
        lemma_fnv1a_empty(b);
        assert(hash_prefix(b, 1) == 0xaf63de4c8601eff2u64) by {
            assert(fnv1a_byte_arith(0xcbf29ce484222325u64, 99u8) == 0xaf63de4c8601eff2u64) by (nonlinear_arith);
            lemma_fnv1a_next(b, 0, 0xcbf29ce484222325u64, 99u8);
        }
        assert(hash_prefix(b, 2) == 0x08a25a07b54a297au64) by {
            assert(fnv1a_byte_arith(0xaf63de4c8601eff2u64, 108u8) == 0x08a25a07b54a297au64) by (nonlinear_arith);
            lemma_fnv1a_next(b, 1, 0xaf63de4c8601eff2u64, 108u8);
        }
        assert(hash_prefix(b, 3) == 0xf6080e190d03cb49u64) by {
            assert(fnv1a_byte_arith(0x08a25a07b54a297au64, 105u8) == 0xf6080e190d03cb49u64) by (nonlinear_arith);
            lemma_fnv1a_next(b, 2, 0x08a25a07b54a297au64, 105u8);
        }
        assert(hash_prefix(b, 4) == 0x137b20911d723bc4u64) by {
            assert(fnv1a_byte_arith(0xf6080e190d03cb49u64, 101u8) == 0x137b20911d723bc4u64) by (nonlinear_arith);
            lemma_fnv1a_next(b, 3, 0xf6080e190d03cb49u64, 101u8);
        }
        assert(hash_prefix(b, 5) == 0x8c740095091b61deu64) by {
            assert(fnv1a_byte_arith(0x137b20911d723bc4u64, 110u8) == 0x8c740095091b61deu64) by (nonlinear_arith);
            lemma_fnv1a_next(b, 4, 0x137b20911d723bc4u64, 110u8);
        }
        assert(hash_prefix(b, 6) == 0xc47ea73e7986f3deu64) by {
            assert(fnv1a_byte_arith(0x8c740095091b61deu64, 116u8) == 0xc47ea73e7986f3deu64) by (nonlinear_arith);
            lemma_fnv1a_next(b, 5, 0x8c740095091b61deu64, 116u8);
        }
        assert(hash_prefix(b, 7) == 0x6a29b028804fc433u64) by {
            assert(fnv1a_byte_arith(0xc47ea73e7986f3deu64, 95u8) == 0x6a29b028804fc433u64) by (nonlinear_arith);
            lemma_fnv1a_next(b, 6, 0xc47ea73e7986f3deu64, 95u8);
        }
        assert(hash_prefix(b, 8) == 0xb49a95d2078a7a73u64) by {
            assert(fnv1a_byte_arith(0x6a29b028804fc433u64, 114u8) == 0xb49a95d2078a7a73u64) by (nonlinear_arith);
            lemma_fnv1a_next(b, 7, 0x6a29b028804fc433u64, 114u8);
        }
        assert(hash_prefix(b, 9) == 0x6d26a9e2d04d7362u64) by {
            assert(fnv1a_byte_arith(0xb49a95d2078a7a73u64, 101u8) == 0x6d26a9e2d04d7362u64) by (nonlinear_arith);
            lemma_fnv1a_next(b, 8, 0xb49a95d2078a7a73u64, 101u8);
        }
        assert(hash_prefix(b, 10) == 0xc625af67f39a6e19u64) by {
            assert(fnv1a_byte_arith(0x6d26a9e2d04d7362u64, 97u8) == 0xc625af67f39a6e19u64) by (nonlinear_arith);
            lemma_fnv1a_next(b, 9, 0x6d26a9e2d04d7362u64, 97u8);
        }
        assert(hash_prefix(b, 11) == 0x4c778aa2ef69be67u64) by {
            assert(fnv1a_byte_arith(0xc625af67f39a6e19u64, 100u8) == 0x4c778aa2ef69be67u64) by (nonlinear_arith);
            lemma_fnv1a_next(b, 10, 0xc625af67f39a6e19u64, 100u8);
        }
        lemma_hash_prefix_all(b);
    }
}

/// The key of the label value `target_read`.
#[verifier::spinoff_prover]
proof fn lemma_key_target_read()
    ensures
        label_values_key(seq!["target_read"@]) == 0xd6d0d984409e38f5u64,
{
    let b: Seq<u8> = seq![116u8, 97u8, 114u8, 103u8, 101u8, 116u8, 95u8, 114u8, 101u8, 97u8, 100u8];
    assert(label_values_key(seq!["target_read"@]) == fnv1a(b)) by {
        reveal_strlit("target_read");
        lemma_ascii_text_bytes("target_read"@, b);
    }
    assert(fnv1a(b) == 0xd6d0d984409e38f5u64) by {
        lemma_fnv1a_empty(b);
        assert(hash_prefix(b, 1) == 0xaf63e94c860202a3u64) by {
            assert(fnv1a_byte_arith(0xcbf29ce484222325u64, 116u8) == 0xaf63e94c860202a3u64) by (nonlinear_arith);
            lemma_fnv1a_next(b, 0, 0xcbf29ce484222325u64, 116u8);
        }
        assert(hash_prefix(b, 2) == 0x08c82f07b56aafa6u64) by {
            assert(fnv1a_byte_arith(0xaf63e94c860202a3u64, 97u8) == 0x08c82f07b56aafa6u64) by (nonlinear_arith);
            lemma_fnv1a_next(b, 1, 0xaf63e94c860202a3u64, 97u8);
        }
        assert(hash_prefix(b, 3) == 0x56d7be194448c53cu64) by {
            assert(fnv1a_byte_arith(0x08c82f07b56aafa6u64, 114u8) == 0x56d7be194448c53cu64) by (nonlinear_arith);
            lemma_fnv1a_next(b, 2, 0x08c82f07b56aafa6u64, 114u8);
        }
        assert(hash_prefix(b, 4) == 0xd95d5fef07a759a1u64) by {
            assert(fnv1a_byte_arith(0x56d7be194448c53cu64, 103u8) == 0xd95d5fef07a759a1u64) by (nonlinear_arith);
            lemma_fnv1a_next(b, 3, 0x56d7be194448c53cu64, 103u8);
        }
        assert(hash_prefix(b, 5) == 0x0103c72a015d880cu64) by {
            assert(fnv1a_byte_arith(0xd95d5fef07a759a1u64, 101u8) == 0x0103c72a015d880cu64) by (nonlinear_arith);
            lemma_fnv1a_next(b, 4, 0xd95d5fef07a759a1u64, 101u8);
        }
        assert(hash_prefix(b, 6) == 0x16f3e46051eee3e8u64) by {
            assert(fnv1a_byte_arith(0x0103c72a015d880cu64, 116u8) == 0x16f3e46051eee3e8u64) by (nonlinear_arith);
            lemma_fnv1a_next(b, 5, 0x0103c72a015d880cu64, 116u8);
        }
        assert(hash_prefix(b, 7) == 0xef50c6ab38eceff5u64) by {
            assert(fnv1a_byte_arith(0x16f3e46051eee3e8u64, 95u8) == 0xef50c6ab38eceff5u64) by (nonlinear_arith);
            lemma_fnv1a_next(b, 6, 0x16f3e46051eee3e8u64, 95u8);
        }
        assert(hash_prefix(b, 8) == 0x93311bf1ba9b0265u64) by {
            assert(fnv1a_byte_arith(0xef50c6ab38eceff5u64, 114u8) == 0x93311bf1ba9b0265u64) by (nonlinear_arith);
            lemma_fnv1a_next(b, 7, 0xef50c6ab38eceff5u64, 114u8);
        }
        assert(hash_prefix(b, 9) == 0xb7747bc015646600u64) by {
            assert(fnv1a_byte_arith(0x93311bf1ba9b0265u64, 101u8) == 0xb7747bc015646600u64) by (nonlinear_arith);
            lemma_fnv1a_next(b, 8, 0x93311bf1ba9b0265u64, 101u8);
        }
        assert(hash_prefix(b, 10) == 0x1f54a8645999f6d3u64) by {
            assert(fnv1a_byte_arith(0xb7747bc015646600u64, 97u8) == 0x1f54a8645999f6d3u64) by (nonlinear_arith);
            lemma_fnv1a_next(b, 9, 0xb7747bc015646600u64, 97u8);
        }
        assert(hash_prefix(b, 11) == 0xd6d0d984409e38f5u64) by {
            assert(fnv1a_byte_arith(0x1f54a8645999f6d3u64, 100u8) == 0xd6d0d984409e38f5u64) by (nonlinear_arith);
            lemma_fnv1a_next(b, 10, 0x1f54a8645999f6d3u64, 100u8);
        }
        lemma_hash_prefix_all(b);
    }
}

/// The key of the label value `accept`.
#[verifier::spinoff_prover]
proof fn lemma_key_accept()
    ensures
        label_values_key(seq!["accept"@]) == 0x7e5f7abe09509b09u64,
{
    let b: Seq<u8> = seq![97u8, 99u8, 99u8, 101u8, 112u8, 116u8];
    assert(label_values_key(seq!["accept"@]) == fnv1a(b)) by {
        reveal_strlit("accept");
        lemma_ascii_text_bytes("accept"@, b);
    }
    assert(fnv1a(b) == 0x7e5f7abe09509b09u64) by {
        lemma_fnv1a_empty(b);
        assert(hash_prefix(b, 1) == 0xaf63dc4c8601ec8cu64) by {
            assert(fnv1a_byte_arith(0xcbf29ce484222325u64, 97u8) == 0xaf63dc4c8601ec8cu64) by (nonlinear_arith);
            lemma_fnv1a_next(b, 0, 0xcbf29ce484222325u64, 97u8);
        }
        assert(hash_prefix(b, 2) == 0x089c4507b5459a1du64) by {
            assert(fnv1a_byte_arith(0xaf63dc4c8601ec8cu64, 99u8) == 0x089c4507b5459a1du64) by (nonlinear_arith);
            lemma_fnv1a_next(b, 1, 0xaf63dc4c8601ec8cu64, 99u8);
        }
        assert(hash_prefix(b, 3) == 0xe723ca190545841au64) by {
            assert(fnv1a_byte_arith(0x089c4507b5459a1du64, 99u8) == 0xe723ca190545841au64) by (nonlinear_arith);
            lemma_fnv1a_next(b, 2, 0x089c4507b5459a1du64, 99u8);
        }
        assert(hash_prefix(b, 4) == 0x0754e783f52023cdu64) by {
            assert(fnv1a_byte_arith(0xe723ca190545841au64, 101u8) == 0x0754e783f52023cdu64) by (nonlinear_arith);
            lemma_fnv1a_next(b, 3, 0xe723ca190545841au64, 101u8);
        }
        assert(hash_prefix(b, 5) == 0x95692239859cba27u64) by {
            assert(fnv1a_byte_arith(0x0754e783f52023cdu64, 112u8) == 0x95692239859cba27u64) by (nonlinear_arith);
            lemma_fnv1a_next(b, 4, 0x0754e783f52023cdu64, 112u8);
        }
        assert(hash_prefix(b, 6) == 0x7e5f7abe09509b09u64) by {
            assert(fnv1a_byte_arith(0x95692239859cba27u64, 116u8) == 0x7e5f7abe09509b09u64) by (nonlinear_arith);
            lemma_fnv1a_next(b, 5, 0x95692239859cba27u64, 116u8);
        }
        lemma_hash_prefix_all(b);
    }
}

/// The kinds of TCP error are counted apart: the labels `client_read`,
/// `target_read` and `accept` are filed under three different keys.
pub proof fn lemma_tcp_error_labels_separate()
    ensures
        label_values_key(seq!["client_read"@]) != label_values_key(seq!["target_read"@]),
        label_values_key(seq!["client_read"@]) != label_values_key(seq!["accept"@]),
        label_values_key(seq!["target_read"@]) != label_values_key(seq!["accept"@]),
{
    lemma_key_client_read();
    lemma_key_target_read();
    lemma_key_accept();
}

} // verus!
