//! A deliberately narrow deterministic CBOR encoder and decoder for manifests.
//!
//! The writer emits one definite-length integer-keyed map. The reader accepts
//! only that exact shape, rejects duplicate or unknown keys and verifies
//! shortest-form unsigned integers.
use crate::bytes::{be_bytes, be_bytes_of_be_value, be_value, be_value_of_be_bytes, fixed_bytes, lemma_be_value_bound, lemma_pow256_values, push_be, read_be};
use crate::error::VaultError;
use crate::format::{group_identifiers, Manifest, ManifestView, ObjectId, VersionId};
use vstd::prelude::*;

verus! {

/// The shortest CBOR head of a major type and an argument.
#[verifier::opaque]
pub open spec fn cbor_head(major: int, value: nat) -> Seq<u8> {
    if value <= 0x17 {
        seq![(major * 32 + value) as u8]
    } else if value <= 0xff {
        seq![(major * 32 + 0x18) as u8] + be_bytes(value, 1)
    } else if value <= 0xffff {
        seq![(major * 32 + 0x19) as u8] + be_bytes(value, 2)
    } else if value <= 0xffff_ffff {
        seq![(major * 32 + 0x1a) as u8] + be_bytes(value, 4)
    } else {
        seq![(major * 32 + 0x1b) as u8] + be_bytes(value, 8)
    }
}

/// A map entry that holds an unsigned integer.
pub open spec fn uint_entry(key: nat, value: nat) -> Seq<u8> {
    cbor_head(0, key) + cbor_head(0, value)
}

/// A map entry that holds a byte string.
pub open spec fn bytes_entry(key: nat, value: Seq<u8>) -> Seq<u8> {
    cbor_head(0, key) + cbor_head(2, value.len()) + value
}

/// The one canonical byte representation of a manifest.
pub open spec fn manifest_encoding(manifest: ManifestView) -> Seq<u8> {
    seq![0xa8u8] + (uint_entry(1, manifest.format_version as nat) + (bytes_entry(
        2,
        manifest.object_id,
    ) + (bytes_entry(3, manifest.version_id) + (uint_entry(4, manifest.plaintext_len as nat) + (
    uint_entry(5, manifest.chunk_size as nat) + (uint_entry(6, manifest.chunk_count as nat) + (
    bytes_entry(7, manifest.chunk_digest) + uint_entry(8, 1))))))))
}

/// The argument of a head at the front of a byte string and what follows it.
#[verifier::opaque]
pub open spec fn read_head(rest: Seq<u8>, major: int) -> Result<(u64, Seq<u8>), VaultError> {
    if rest.len() == 0 {
        Err(VaultError::InvalidFormat("truncated manifest"))
    } else if rest[0] as int / 32 != major {
        Err(VaultError::InvalidFormat("unexpected CBOR major type"))
    } else {
        let additional = rest[0] as int % 32;
        if additional <= 23 {
            Ok((additional as u64, rest.skip(1)))
        } else if additional == 24 {
            if rest.len() < 2 {
                Err(VaultError::InvalidFormat("truncated manifest"))
            } else {
                shortest(rest, 1, 0x17)
            }
        } else if additional == 25 {
            fixed_argument(rest, 2, 0xff)
        } else if additional == 26 {
            fixed_argument(rest, 4, 0xffff)
        } else if additional == 27 {
            fixed_argument(rest, 8, 0xffff_ffff)
        } else {
            Err(VaultError::InvalidFormat("indefinite or reserved CBOR length"))
        }
    }
}

/// An argument of `width` bytes behind the initial byte, where they are there.
pub open spec fn fixed_argument(rest: Seq<u8>, width: int, shorter_max: nat) -> Result<
    (u64, Seq<u8>),
    VaultError,
> {
    if rest.len() < 1 + width {
        Err(VaultError::InvalidFormat("truncated integer"))
    } else {
        shortest(rest, width, shorter_max)
    }
}

/// An argument of `width` bytes, where no shorter form could hold it.
pub open spec fn shortest(rest: Seq<u8>, width: int, shorter_max: nat) -> Result<
    (u64, Seq<u8>),
    VaultError,
> {
    let value = be_value(rest.subrange(1, 1 + width));
    if value <= shorter_max {
        Err(VaultError::InvalidFormat("non-canonical integer encoding"))
    } else {
        Ok((value as u64, rest.skip(1 + width)))
    }
}

/// What follows an expected map key.
pub open spec fn read_key(rest: Seq<u8>, key: u64) -> Result<Seq<u8>, VaultError> {
    match read_head(rest, 0) {
        Err(error) => Err(error),
        Ok((found, after)) => if found == key {
            Ok(after)
        } else {
            Err(VaultError::InvalidFormat("manifest keys must be ordered and unique"))
        },
    }
}

/// An unsigned integer entry under an expected key.
pub open spec fn read_uint_entry(rest: Seq<u8>, key: u64) -> Result<(u64, Seq<u8>), VaultError> {
    match read_key(rest, key) {
        Err(error) => Err(error),
        Ok(after) => read_head(after, 0),
    }
}

/// An unsigned integer entry that must fit in 32 bits.
pub open spec fn read_u32_entry(rest: Seq<u8>, key: u64, message: &'static str) -> Result<
    (u32, Seq<u8>),
    VaultError,
> {
    match read_uint_entry(rest, key) {
        Err(error) => Err(error),
        Ok((value, after)) => if value <= u32::MAX {
            Ok((value as u32, after))
        } else {
            Err(VaultError::InvalidFormat(message))
        },
    }
}

/// A byte-string entry of an expected length under an expected key.
pub open spec fn read_bytes_entry(rest: Seq<u8>, key: u64, length: int) -> Result<
    (Seq<u8>, Seq<u8>),
    VaultError,
> {
    match read_key(rest, key) {
        Err(error) => Err(error),
        Ok(after) => read_bytes(after, length),
    }
}

/// A byte string of an expected length.
pub open spec fn read_bytes(rest: Seq<u8>, length: int) -> Result<(Seq<u8>, Seq<u8>), VaultError> {
    match read_head(rest, 2) {
        Err(error) => Err(error),
        Ok((found, after)) => if found > usize::MAX {
            Err(VaultError::InvalidFormat("byte string length exceeds usize"))
        } else if found != length {
            Err(VaultError::InvalidFormat("unexpected byte string length"))
        } else if after.len() < length {
            Err(VaultError::InvalidFormat("truncated byte string"))
        } else {
            Ok((after.subrange(0, length), after.skip(length)))
        },
    }
}

/// What a byte string decodes to, with the first violation where it does not.
pub open spec fn manifest_decoding(input: Seq<u8>) -> Result<ManifestView, VaultError> {
    if input.len() == 0 {
        Err(VaultError::InvalidFormat("truncated manifest"))
    } else if input[0] != 0xa8 {
        Err(VaultError::InvalidFormat("manifest must be an eight-field map"))
    } else {
        match read_u32_entry(input.skip(1), 1, "format version exceeds u32") {
            Err(error) => Err(error),
            Ok((format_version, rest)) => match read_bytes_entry(rest, 2, 16) {
                Err(error) => Err(error),
                Ok((object_id, rest)) => match read_bytes_entry(rest, 3, 16) {
                    Err(error) => Err(error),
                    Ok((version_id, rest)) => manifest_tail(
                        rest,
                        format_version,
                        object_id,
                        version_id,
                    ),
                },
            },
        }
    }
}

/// The second half of a manifest, behind its version identifier.
pub open spec fn manifest_tail(
    rest: Seq<u8>,
    format_version: u32,
    object_id: Seq<u8>,
    version_id: Seq<u8>,
) -> Result<ManifestView, VaultError> {
    match read_uint_entry(rest, 4) {
        Err(error) => Err(error),
        Ok((plaintext_len, rest)) => match read_u32_entry(rest, 5, "chunk size exceeds u32") {
            Err(error) => Err(error),
            Ok((chunk_size, rest)) => match read_u32_entry(rest, 6, "chunk count exceeds u32") {
                Err(error) => Err(error),
                Ok((chunk_count, rest)) => match read_bytes_entry(rest, 7, 32) {
                    Err(error) => Err(error),
                    Ok((chunk_digest, rest)) => match read_uint_entry(rest, 8) {
                        Err(error) => Err(error),
                        Ok((marker, rest)) => if marker != 1 {
                            Err(VaultError::InvalidFormat("manifest profile marker is invalid"))
                        } else if rest.len() != 0 {
                            Err(VaultError::InvalidFormat("trailing manifest bytes"))
                        } else {
                            Ok(
                                ManifestView {
                                    format_version,
                                    object_id,
                                    version_id,
                                    plaintext_len,
                                    chunk_size,
                                    chunk_count,
                                    chunk_digest,
                                },
                            )
                        },
                    },
                },
            },
        },
    }
}

/// Integers have one form: a head is read exactly where the input begins with the shortest
/// form of its argument, and every other input is a format error.
pub proof fn integers_have_one_form(rest: Seq<u8>, major: int, value: u64, tail: Seq<u8>)
    requires
        0 <= major < 8,
    ensures
        read_head(rest, major) == Ok::<_, VaultError>((value, tail)) <==> rest == cbor_head(
            major,
            value as nat,
        ) + tail,
        read_head(rest, major) matches Err(error) ==> error is InvalidFormat,
{
    lemma_read_written_head(major, value, tail);
    if read_head(rest, major) is Ok {
        lemma_written_read_head(rest, major);
    } else {
        reveal(read_head);
    }
}

/// Reading a head gives the argument it was written from.
proof fn lemma_read_written_head(major: int, value: u64, tail: Seq<u8>)
    requires
        0 <= major < 8,
    ensures
        read_head(cbor_head(major, value as nat) + tail, major) == Ok::<_, VaultError>((value, tail)),
{
    reveal(cbor_head);
    reveal(read_head);
    let head = cbor_head(major, value as nat);
    let rest = head + tail;
    lemma_pow256_values();
    if value <= 0x17 {
        assert(rest.skip(1) =~= tail);
    } else {
        let width: nat = if value <= 0xff {
            1
        } else if value <= 0xffff {
            2
        } else if value <= 0xffff_ffff {
            4
        } else {
            8
        };
        be_value_of_be_bytes(value as nat, width);
        assert(rest.subrange(1, 1 + width as int) =~= be_bytes(value as nat, width));
        assert(rest.skip(1 + width as int) =~= tail);
    }
}

/// A head that reads back is the shortest head of its argument.
proof fn lemma_written_read_head(rest: Seq<u8>, major: int)
    requires
        0 <= major < 8,
        read_head(rest, major) is Ok,
    ensures
        rest == cbor_head(major, (read_head(rest, major)->Ok_0).0 as nat) + (read_head(
            rest,
            major,
        )->Ok_0).1,
{
    reveal(cbor_head);
    reveal(read_head);
    let (value, tail) = read_head(rest, major)->Ok_0;
    let additional = rest[0] as int % 32;
    lemma_pow256_values();
    if additional <= 23 {
        assert(cbor_head(major, value as nat) + tail =~= rest);
    } else {
        let width: int = if additional == 24 {
            1
        } else if additional == 25 {
            2
        } else if additional == 26 {
            4
        } else {
            8
        };
        let argument = rest.subrange(1, 1 + width);
        lemma_be_value_bound(argument);
        be_bytes_of_be_value(argument);
        assert(cbor_head(major, value as nat) + tail =~= rest);
    }
}

proof fn lemma_read_written_uint(key: u64, value: u64, tail: Seq<u8>)
    ensures
        read_uint_entry(uint_entry(key as nat, value as nat) + tail, key) == Ok::<_, VaultError>(
            (value, tail),
        ),
{
    let after = cbor_head(0, value as nat) + tail;
    assert(uint_entry(key as nat, value as nat) + tail =~= cbor_head(0, key as nat) + after);
    lemma_read_written_head(0, key, after);
    lemma_read_written_head(0, value, tail);
}

proof fn lemma_read_written_bytes(key: u64, value: Seq<u8>, tail: Seq<u8>)
    requires
        value.len() <= 64,
    ensures
        read_bytes_entry(bytes_entry(key as nat, value) + tail, key, value.len() as int) == Ok::<
            _,
            VaultError,
        >((value, tail)),
{
    let body = value + tail;
    let after = cbor_head(2, value.len()) + body;
    assert(bytes_entry(key as nat, value) + tail =~= cbor_head(0, key as nat) + after);
    lemma_read_written_head(0, key, after);
    lemma_read_written_head(2, value.len() as u64, body);
    assert(body.subrange(0, value.len() as int) =~= value);
    assert(body.skip(value.len() as int) =~= tail);
}

proof fn lemma_written_read_uint(rest: Seq<u8>, key: u64)
    requires
        read_uint_entry(rest, key) is Ok,
    ensures
        rest == uint_entry(key as nat, (read_uint_entry(rest, key)->Ok_0).0 as nat) + (
        read_uint_entry(rest, key)->Ok_0).1,
{
    let (value, tail) = read_uint_entry(rest, key)->Ok_0;
    let after = read_key(rest, key)->Ok_0;
    lemma_written_read_head(rest, 0);
    lemma_written_read_head(after, 0);
    assert(uint_entry(key as nat, value as nat) + tail =~= cbor_head(0, key as nat) + after);
}

proof fn lemma_written_read_bytes(rest: Seq<u8>, key: u64, length: int)
    requires
        0 <= length,
        read_bytes_entry(rest, key, length) is Ok,
    ensures
        (read_bytes_entry(rest, key, length)->Ok_0).0.len() == length,
        rest == bytes_entry(key as nat, (read_bytes_entry(rest, key, length)->Ok_0).0) + (
        read_bytes_entry(rest, key, length)->Ok_0).1,
{
    let (value, tail) = read_bytes_entry(rest, key, length)->Ok_0;
    let after = read_key(rest, key)->Ok_0;
    lemma_written_read_head(rest, 0);
    lemma_written_read_head(after, 2);
    let body = (read_head(after, 2)->Ok_0).1;
    assert(body =~= value + tail);
    assert(bytes_entry(key as nat, value) + tail =~= cbor_head(0, key as nat) + (cbor_head(
        2,
        value.len(),
    ) + body));
}

/// Decoding the encoding of a manifest gives the manifest back.
pub proof fn manifest_round_trip(manifest: ManifestView)
    requires
        manifest.well_formed(),
    ensures
        manifest_decoding(manifest_encoding(manifest)) == Ok::<_, VaultError>(manifest),
{
    let none = Seq::<u8>::empty();
    let from8 = uint_entry(8, 1);
    let from7 = bytes_entry(7, manifest.chunk_digest) + from8;
    let from6 = uint_entry(6, manifest.chunk_count as nat) + from7;
    let from5 = uint_entry(5, manifest.chunk_size as nat) + from6;
    let from4 = uint_entry(4, manifest.plaintext_len as nat) + from5;
    let from3 = bytes_entry(3, manifest.version_id) + from4;
    let from2 = bytes_entry(2, manifest.object_id) + from3;
    let from1 = uint_entry(1, manifest.format_version as nat) + from2;
    assert(manifest_encoding(manifest).skip(1) =~= from1);
    assert(from8 =~= from8 + none);
    lemma_read_written_uint(1, manifest.format_version as u64, from2);
    lemma_read_written_bytes(2, manifest.object_id, from3);
    lemma_read_written_bytes(3, manifest.version_id, from4);
    lemma_read_written_uint(4, manifest.plaintext_len, from5);
    lemma_read_written_uint(5, manifest.chunk_size as u64, from6);
    lemma_read_written_uint(6, manifest.chunk_count as u64, from7);
    lemma_read_written_bytes(7, manifest.chunk_digest, from8);
    lemma_read_written_uint(8, 1, none);
}

/// The decoder accepts the canonical encoding of a manifest and nothing else.
pub proof fn decoding_is_canonical(input: Seq<u8>)
    requires
        manifest_decoding(input) is Ok,
    ensures
        (manifest_decoding(input)->Ok_0).well_formed(),
        input == manifest_encoding(manifest_decoding(input)->Ok_0),
{
    let manifest = manifest_decoding(input)->Ok_0;
    let from1 = input.skip(1);
    lemma_written_read_uint(from1, 1);
    let from2 = (read_uint_entry(from1, 1)->Ok_0).1;
    lemma_written_read_bytes(from2, 2, 16);
    let from3 = (read_bytes_entry(from2, 2, 16)->Ok_0).1;
    lemma_written_read_bytes(from3, 3, 16);
    let from4 = (read_bytes_entry(from3, 3, 16)->Ok_0).1;
    lemma_written_read_uint(from4, 4);
    let from5 = (read_uint_entry(from4, 4)->Ok_0).1;
    lemma_written_read_uint(from5, 5);
    let from6 = (read_uint_entry(from5, 5)->Ok_0).1;
    lemma_written_read_uint(from6, 6);
    let from7 = (read_uint_entry(from6, 6)->Ok_0).1;
    lemma_written_read_bytes(from7, 7, 32);
    let from8 = (read_bytes_entry(from7, 7, 32)->Ok_0).1;
    lemma_written_read_uint(from8, 8);
    assert(from8 =~= uint_entry(8, 1));
    assert(input =~= seq![0xa8u8] + from1);
}

/// Two manifests with the same encoding are the same manifest.
pub proof fn encoding_is_injective(left: ManifestView, right: ManifestView)
    requires
        left.well_formed(),
        right.well_formed(),
        manifest_encoding(left) == manifest_encoding(right),
    ensures
        left == right,
{
    manifest_round_trip(left);
    manifest_round_trip(right);
}

/// Encodes a manifest into its canonical deterministic representation.
#[must_use]
pub fn encode_manifest(manifest: &Manifest) -> (res: Vec<u8>)
    ensures
        res@ == manifest_encoding(manifest@),
        manifest_decoding(res@) == Ok::<_, VaultError>(manifest@),
{
    broadcast use group_identifiers;

    let mut output: Vec<u8> = Vec::with_capacity(128);
    output.push(0xa8);
    put_uint(&mut output, 1, manifest.format_version as u64);
    put_bytes(&mut output, 2, manifest.object_id.as_bytes());
    put_bytes(&mut output, 3, manifest.version_id.as_bytes());
    put_uint(&mut output, 4, manifest.plaintext_len);
    put_uint(&mut output, 5, manifest.chunk_size as u64);
    put_uint(&mut output, 6, manifest.chunk_count as u64);
    put_bytes(&mut output, 7, &manifest.chunk_digest);
    put_uint(&mut output, 8, 1);
    proof {
        assert(output@ =~= manifest_encoding(manifest@));
        manifest_round_trip(manifest@);
    }
    output
}

/// Decodes and validates the exact manifest representation.
pub fn decode_manifest(input: &[u8]) -> (res: Result<Manifest, VaultError>)
    ensures
        match (res, manifest_decoding(input@)) {
            (Ok(manifest), Ok(decoded)) => manifest@ == decoded,
            (Err(error), Err(expected)) => error == expected,
            _ => false,
        },
        res matches Ok(manifest) ==> input@ == manifest_encoding(manifest@),
{
    if input.len() == 0 {
        return Err(VaultError::invalid_format("truncated manifest"));
    }
    if input[0] != 0xa8 {
        return Err(VaultError::invalid_format("manifest must be an eight-field map"));
    }
    let mut decoder = Decoder { input, offset: 1 };
    let format_version = decoder.u32_entry(1, "format version exceeds u32")?;
    let object_bytes = decoder.bytes_entry(2, 16)?;
    let version_bytes = decoder.bytes_entry(3, 16)?;
    let plaintext_len = decoder.uint_entry(4)?;
    let chunk_size = decoder.u32_entry(5, "chunk size exceeds u32")?;
    let chunk_count = decoder.u32_entry(6, "chunk count exceeds u32")?;
    let digest_bytes = decoder.bytes_entry(7, 32)?;
    let marker = decoder.uint_entry(8)?;
    if marker != 1 {
        return Err(VaultError::invalid_format("manifest profile marker is invalid"));
    }
    if !decoder.finished() {
        return Err(VaultError::invalid_format("trailing manifest bytes"));
    }
    let object_id = ObjectId::from_slice(object_bytes)?;
    let version_id = VersionId::from_slice(version_bytes)?;
    let chunk_digest: [u8; 32] = match fixed_bytes(digest_bytes) {
        Some(digest) => digest,
        None => return Err(VaultError::invalid_format("missing chunk digest")),
    };
    proof {
        decoding_is_canonical(input@);
    }
    Ok(
        Manifest {
            format_version,
            object_id,
            version_id,
            plaintext_len,
            chunk_size,
            chunk_count,
            chunk_digest,
        },
    )
}

fn put_uint(output: &mut Vec<u8>, key: u8, value: u64)
    requires
        key <= 0x17,
    ensures
        final(output)@ == old(output)@ + uint_entry(key as nat, value as nat),
{
    reveal(cbor_head);
    output.push(key);
    put_major_uint(output, 0, value);
    assert(output@ =~= old(output)@ + uint_entry(key as nat, value as nat));
}

fn put_bytes(output: &mut Vec<u8>, key: u8, bytes: &[u8])
    requires
        key <= 0x17,
    ensures
        final(output)@ == old(output)@ + bytes_entry(key as nat, bytes@),
{
    reveal(cbor_head);
    output.push(key);
    put_major_uint(output, 2, bytes.len() as u64);
    output.extend_from_slice(bytes);
    assert(output@ =~= old(output)@ + bytes_entry(key as nat, bytes@));
}

fn put_major_uint(output: &mut Vec<u8>, major: u8, value: u64)
    requires
        major < 8,
    ensures
        final(output)@ == old(output)@ + cbor_head(major as int, value as nat),
{
    reveal(cbor_head);
    if value <= 0x17 {
        output.push(major * 32 + value as u8);
    } else if value <= 0xff {
        output.push(major * 32 + 0x18);
        push_be(output, value, 1);
    } else if value <= 0xffff {
        output.push(major * 32 + 0x19);
        push_be(output, value, 2);
    } else if value <= 0xffff_ffff {
        output.push(major * 32 + 0x1a);
        push_be(output, value, 4);
    } else {
        output.push(major * 32 + 0x1b);
        push_be(output, value, 8);
    }
    assert(output@ =~= old(output)@ + cbor_head(major as int, value as nat));
}

struct Decoder<'a> {
    input: &'a [u8],
    offset: usize,
}

impl<'a> Decoder<'a> {
    spec fn well_formed(self) -> bool {
        self.offset <= self.input@.len()
    }

    spec fn rest(self) -> Seq<u8> {
        self.input@.skip(self.offset as int)
    }

    fn read_major_uint(&mut self, expected_major: u8) -> (res: Result<u64, VaultError>)
        requires
            old(self).well_formed(),
            expected_major < 8,
        ensures
            final(self).well_formed(),
            final(self).input == old(self).input,
            match (res, read_head(old(self).rest(), expected_major as int)) {
                (Ok(value), Ok((read, after))) => value == read && final(self).rest() == after,
                (Err(error), Err(expected)) => error == expected,
                _ => false,
            },
            match res {
                Ok(value) => old(self).rest() == cbor_head(expected_major as int, value as nat)
                    + final(self).rest(),
                Err(error) => {
                    &&& error is InvalidFormat
                    &&& forall|value: u64, tail: Seq<u8>|
                        old(self).rest() != #[trigger] (cbor_head(
                            expected_major as int,
                            value as nat,
                        ) + tail)
                },
            },
    {
        reveal(read_head);
        let ghost rest = self.rest();
        assert forall|value: u64, tail: Seq<u8>|
            rest == #[trigger] (cbor_head(expected_major as int, value as nat) + tail) <==> read_head(
                rest,
                expected_major as int,
            ) == Ok::<_, VaultError>((value, tail)) by {
            integers_have_one_form(rest, expected_major as int, value, tail);
        }
        let available: usize = self.input.len() - self.offset;
        if available == 0 {
            return Err(VaultError::invalid_format("truncated manifest"));
        }
        let initial = self.input[self.offset];
        assert(initial == rest[0]);
        if initial / 32 != expected_major {
            return Err(VaultError::invalid_format("unexpected CBOR major type"));
        }
        let additional = initial % 32;
        if additional <= 23 {
            self.offset = self.offset + 1;
            assert(self.rest() =~= rest.skip(1));
            return Ok(additional as u64);
        }
        let (width, shorter_max): (usize, u64) = if additional == 24 {
            (1, 0x17)
        } else if additional == 25 {
            (2, 0xff)
        } else if additional == 26 {
            (4, 0xffff)
        } else if additional == 27 {
            (8, 0xffff_ffff)
        } else {
            return Err(VaultError::invalid_format("indefinite or reserved CBOR length"));
        };
        if available - 1 < width {
            if width == 1 {
                return Err(VaultError::invalid_format("truncated manifest"));
            }
            return Err(VaultError::invalid_format("truncated integer"));
        }
        let start: usize = self.offset + 1;
        let argument = vstd::slice::slice_subrange(self.input, start, start + width);
        assert(argument@ =~= rest.subrange(1, 1 + width));
        let value = read_be(argument);
        if value <= shorter_max {
            return Err(VaultError::invalid_format("non-canonical integer encoding"));
        }
        self.offset = start + width;
        assert(self.rest() =~= rest.skip(1 + width));
        Ok(value)
    }

    fn key(&mut self, expected: u64) -> (res: Result<(), VaultError>)
        requires
            old(self).well_formed(),
        ensures
            final(self).well_formed(),
            final(self).input == old(self).input,
            match (res, read_key(old(self).rest(), expected)) {
                (Ok(_), Ok(after)) => final(self).rest() == after,
                (Err(error), Err(expected)) => error == expected,
                _ => false,
            },
    {
        let found = self.read_major_uint(0)?;
        if found != expected {
            return Err(VaultError::invalid_format("manifest keys must be ordered and unique"));
        }
        Ok(())
    }

    fn uint_entry(&mut self, key: u64) -> (res: Result<u64, VaultError>)
        requires
            old(self).well_formed(),
        ensures
            final(self).well_formed(),
            final(self).input == old(self).input,
            match (res, read_uint_entry(old(self).rest(), key)) {
                (Ok(value), Ok((read, after))) => value == read && final(self).rest() == after,
                (Err(error), Err(expected)) => error == expected,
                _ => false,
            },
    {
        self.key(key)?;
        self.read_major_uint(0)
    }

    fn u32_entry(&mut self, key: u64, message: &'static str) -> (res: Result<u32, VaultError>)
        requires
            old(self).well_formed(),
        ensures
            final(self).well_formed(),
            final(self).input == old(self).input,
            match (res, read_u32_entry(old(self).rest(), key, message)) {
                (Ok(value), Ok((read, after))) => value == read && final(self).rest() == after,
                (Err(error), Err(expected)) => error == expected,
                _ => false,
            },
    {
        let value = self.uint_entry(key)?;
        if value > u32::MAX as u64 {
            return Err(VaultError::invalid_format(message));
        }
        Ok(value as u32)
    }

    fn bytes_entry(&mut self, key: u64, expected_len: usize) -> (res: Result<&'a [u8], VaultError>)
        requires
            old(self).well_formed(),
        ensures
            final(self).well_formed(),
            final(self).input == old(self).input,
            match (res, read_bytes_entry(old(self).rest(), key, expected_len as int)) {
                (Ok(value), Ok((read, after))) => value@ == read && final(self).rest() == after
                    && value@.len() == expected_len,
                (Err(error), Err(expected)) => error == expected,
                _ => false,
            },
    {
        self.key(key)?;
        self.read_bytes_exact(expected_len)
    }

    fn read_bytes_exact(&mut self, expected_len: usize) -> (res: Result<&'a [u8], VaultError>)
        requires
            old(self).well_formed(),
        ensures
            final(self).well_formed(),
            final(self).input == old(self).input,
            match (res, read_bytes(old(self).rest(), expected_len as int)) {
                (Ok(value), Ok((read, after))) => value@ == read && final(self).rest() == after
                    && value@.len() == expected_len,
                (Err(error), Err(expected)) => error == expected,
                _ => false,
            },
    {
        let length = self.read_major_uint(2)?;
        let ghost after = self.rest();
        if length > usize::MAX as u64 {
            return Err(VaultError::invalid_format("byte string length exceeds usize"));
        }
        if length as usize != expected_len {
            return Err(VaultError::invalid_format("unexpected byte string length"));
        }
        if self.input.len() - self.offset < expected_len {
            return Err(VaultError::invalid_format("truncated byte string"));
        }
        let start: usize = self.offset;
        let bytes = vstd::slice::slice_subrange(self.input, start, start + expected_len);
        self.offset = start + expected_len;
        assert(bytes@ =~= after.subrange(0, expected_len as int));
        assert(self.rest() =~= after.skip(expected_len as int));
        Ok(bytes)
    }

    fn finished(&self) -> (res: bool)
        requires
            self.well_formed(),
        ensures
            res == (self.rest().len() == 0),
    {
        self.offset == self.input.len()
    }
}

/// The head of an integer or a byte string spells its argument in as many bytes as the
/// argument needs: in the initial byte up to 23, and otherwise in one, two, four or eight
/// bytes behind it, the most significant first.
pub proof fn heads_spell_their_argument(major: int, value: u64)
    requires
        0 <= major < 8,
    ensures
        ({
            let head = cbor_head(major, value as nat);
            let width: int = if value <= 23 {
                0
            } else if value <= 255 {
                1
            } else if value <= 65_535 {
                2
            } else if value <= 4_294_967_295 {
                4
            } else {
                8
            };
            let additional: int = if value <= 23 {
                value as int
            } else if value <= 255 {
                24
            } else if value <= 65_535 {
                25
            } else if value <= 4_294_967_295 {
                26
            } else {
                27
            };
            &&& head.len() == 1 + width
            &&& head[0] as int == major * 32 + additional
            &&& value > 23 ==> be_value(head.skip(1)) == value
        }),
{
    reveal(cbor_head);
    lemma_pow256_values();
    if value > 23 {
        let width: nat = if value <= 255 {
            1
        } else if value <= 65_535 {
            2
        } else if value <= 4_294_967_295 {
            4
        } else {
            8
        };
        be_value_of_be_bytes(value as nat, width);
        assert(cbor_head(major, value as nat).skip(1) =~= be_bytes(value as nat, width));
    }
}

/// A manifest is a map of eight entries in ascending key order: format version, object,
/// version, plaintext length, chunk size, chunk count, chunk digest and the digest algorithm.
#[verifier::rlimit(30)]
pub proof fn manifests_hold_eight_ordered_entries(manifest: ManifestView)
    requires
        manifest.well_formed(),
    ensures
        manifest_encoding(manifest) == seq![0xa8u8, 0x01u8] + cbor_head(
            0,
            manifest.format_version as nat,
        ) + seq![0x02u8, 0x50u8] + manifest.object_id + seq![0x03u8, 0x50u8] + manifest.version_id
            + seq![0x04u8] + cbor_head(0, manifest.plaintext_len as nat) + seq![0x05u8]
            + cbor_head(0, manifest.chunk_size as nat) + seq![0x06u8] + cbor_head(
            0,
            manifest.chunk_count as nat,
        ) + seq![0x07u8, 0x58u8, 0x20u8] + manifest.chunk_digest + seq![0x08u8, 0x01u8],
{
    let version = cbor_head(0, manifest.format_version as nat);
    let length = cbor_head(0, manifest.plaintext_len as nat);
    let size = cbor_head(0, manifest.chunk_size as nat);
    let count = cbor_head(0, manifest.chunk_count as nat);
    assert(cbor_head(0, 1) =~= seq![0x01u8] && cbor_head(0, 2) =~= seq![0x02u8] && cbor_head(0, 3)
        =~= seq![0x03u8] && cbor_head(0, 4) =~= seq![0x04u8] && cbor_head(0, 5) =~= seq![0x05u8]
        && cbor_head(0, 6) =~= seq![0x06u8] && cbor_head(0, 7) =~= seq![0x07u8] && cbor_head(0, 8)
        =~= seq![0x08u8] && cbor_head(2, 16) =~= seq![0x50u8]) by {
        reveal(cbor_head);
    }
    assert(cbor_head(2, 32) =~= seq![0x58u8, 0x20u8]) by {
        reveal(cbor_head);
        reveal_with_fuel(be_bytes, 2);
    }
    assert(manifest_encoding(manifest) =~= seq![0xa8u8, 0x01u8] + version + seq![0x02u8, 0x50u8]
        + manifest.object_id + seq![0x03u8, 0x50u8] + manifest.version_id + seq![0x04u8] + length
        + seq![0x05u8] + size + seq![0x06u8] + count + seq![0x07u8, 0x58u8, 0x20u8]
        + manifest.chunk_digest + seq![0x08u8, 0x01u8]);
}

proof fn lemma_head_errors(rest: Seq<u8>, major: int)
    ensures
        read_head(rest, major) matches Err(error) ==> error is InvalidFormat,
{
    reveal(read_head);
}

proof fn lemma_uint_errors(rest: Seq<u8>, key: u64, message: &'static str)
    ensures
        read_uint_entry(rest, key) matches Err(error) ==> error is InvalidFormat,
        read_u32_entry(rest, key, message) matches Err(error) ==> error is InvalidFormat,
{
    lemma_head_errors(rest, 0);
    if read_key(rest, key) is Ok {
        lemma_head_errors(read_key(rest, key)->Ok_0, 0);
    }
}

proof fn lemma_bytes_errors(rest: Seq<u8>, key: u64, length: int)
    ensures
        read_bytes_entry(rest, key, length) matches Err(error) ==> error is InvalidFormat,
{
    lemma_head_errors(rest, 0);
    if read_key(rest, key) is Ok {
        lemma_head_errors(read_key(rest, key)->Ok_0, 2);
    }
}

proof fn lemma_tail_errors(
    rest: Seq<u8>,
    format_version: u32,
    object_id: Seq<u8>,
    version_id: Seq<u8>,
)
    ensures
        manifest_tail(rest, format_version, object_id, version_id) matches Err(error) ==> error
            is InvalidFormat,
{
    lemma_uint_errors(rest, 4, "");
    if read_uint_entry(rest, 4) is Ok {
        let rest = read_uint_entry(rest, 4)->Ok_0.1;
        lemma_uint_errors(rest, 5, "chunk size exceeds u32");
        if read_u32_entry(rest, 5, "chunk size exceeds u32") is Ok {
            let rest = read_u32_entry(rest, 5, "chunk size exceeds u32")->Ok_0.1;
            lemma_uint_errors(rest, 6, "chunk count exceeds u32");
            if read_u32_entry(rest, 6, "chunk count exceeds u32") is Ok {
                let rest = read_u32_entry(rest, 6, "chunk count exceeds u32")->Ok_0.1;
                lemma_bytes_errors(rest, 7, 32);
                if read_bytes_entry(rest, 7, 32) is Ok {
                    lemma_uint_errors(read_bytes_entry(rest, 7, 32)->Ok_0.1, 8, "");
                }
            }
        }
    }
}

/// Whatever is wrong with the bytes of a manifest, it is an error of their format.
pub proof fn undecodable_manifests_are_format_errors(input: Seq<u8>)
    ensures
        manifest_decoding(input) matches Err(error) ==> error is InvalidFormat,
{
    if input.len() > 0 {
        let rest = input.skip(1);
        lemma_uint_errors(rest, 1, "format version exceeds u32");
        if read_u32_entry(rest, 1, "format version exceeds u32") is Ok {
            let (format_version, rest) = read_u32_entry(
                rest,
                1,
                "format version exceeds u32",
            )->Ok_0;
            lemma_bytes_errors(rest, 2, 16);
            if read_bytes_entry(rest, 2, 16) is Ok {
                let (object_id, rest) = read_bytes_entry(rest, 2, 16)->Ok_0;
                lemma_bytes_errors(rest, 3, 16);
                if read_bytes_entry(rest, 3, 16) is Ok {
                    let (version_id, rest) = read_bytes_entry(rest, 3, 16)->Ok_0;
                    lemma_tail_errors(rest, format_version, object_id, version_id);
                }
            }
        }
    }
}

} // verus!
