//! SHA-256 identities: what is hashed, and how digests are written.
use vstd::prelude::*;
use vstd::utf8::{decode_utf8, encode_utf8, is_char_boundary};

use crate::identity::FileIdentity;
use crate::text::{fails_with, views};

verus! {

/// The SHA-256 digest of some bytes.
pub uninterp spec fn sha256(data: Seq<u8>) -> Seq<u8>;

/// Calls `sha2::Sha256::digest`, whose result is named `sha256`; it always
/// has 32 bytes.
#[verifier::external_body]
pub(crate) fn sha256_digest(data: &[u8]) -> (digest: Vec<u8>)
    ensures
        digest@ == sha256(data@),
        digest@.len() == 32,
{
    <sha2::Sha256 as sha2::Digest>::digest(data).to_vec()
}

/// A hexadecimal digit.
pub open spec fn nibble(n: u8) -> char {
    if n < 10 {
        (('0' as u32) + n) as char
    } else {
        (('a' as u32) + n - 10) as char
    }
}

/// Bytes in hexadecimal notation, two lower-case digits for each.
pub open spec fn hex(data: Seq<u8>) -> Seq<char> {
    Seq::new(
        2 * data.len(),
        |i: int|
            nibble(
                if i % 2 == 0 {
                    data[i / 2] / 16
                } else {
                    data[i / 2] % 16
                },
            ),
    )
}

pub(crate) fn nibble_text(n: u8) -> (s: &'static str)
    requires
        n < 16,
    ensures
        s@ == seq![nibble(n)],
{
    proof {
        reveal_strlit("0");
        reveal_strlit("1");
        reveal_strlit("2");
        reveal_strlit("3");
        reveal_strlit("4");
        reveal_strlit("5");
        reveal_strlit("6");
        reveal_strlit("7");
        reveal_strlit("8");
        reveal_strlit("9");
        reveal_strlit("a");
        reveal_strlit("b");
        reveal_strlit("c");
        reveal_strlit("d");
        reveal_strlit("e");
        reveal_strlit("f");
    }
    let s: &'static str = match n {
        0 => "0",
        1 => "1",
        2 => "2",
        3 => "3",
        4 => "4",
        5 => "5",
        6 => "6",
        7 => "7",
        8 => "8",
        9 => "9",
        10 => "a",
        11 => "b",
        12 => "c",
        13 => "d",
        14 => "e",
        _ => "f",
    };
    assert(s@ =~= seq![nibble(n)]);
    s
}

/// Bytes in hexadecimal notation.
pub fn bytes_hex(data: &[u8]) -> (text: String)
    ensures
        text@ == hex(data@),
{
    let mut text = String::new();
    let mut i: usize = 0;
    assert(hex(data@.take(0)) =~= Seq::<char>::empty());
    while i < data.len()
        invariant
            i <= data.len(),
            text@ == hex(data@.take(i as int)),
        decreases data.len() - i,
    {
        let ghost before = text@;
        text.append(nibble_text(data[i] / 16));
        text.append(nibble_text(data[i] % 16));
        i = i + 1;
        proof {
            let now = hex(data@.take(i as int));
            assert(now.len() == before.len() + 2);
            assert(text@ =~= now) by {
                assert forall|k: int| 0 <= k < before.len() implies before[k] == now[k] by {
                    assert(data@.take(i - 1)[k / 2] == data@.take(i as int)[k / 2]);
                }
            }
        }
    }
    assert(data@.take(i as int) =~= data@);
    text
}

/// The SHA-256 digest of some bytes in hexadecimal notation.
pub fn sha256_hex(data: &[u8]) -> (text: String)
    ensures
        text@ == hex(sha256(data@)),
        text@.len() == 64,
{
    let digest = sha256_digest(data);
    bytes_hex(digest.as_slice())
}

/// The last `width` bytes of a number, the most significant first.
pub open spec fn low_bytes(n: nat, width: nat) -> Seq<u8>
    decreases width,
{
    if width == 0 {
        Seq::empty()
    } else {
        low_bytes(n / 0x100, (width - 1) as nat).push((n % 0x100) as u8)
    }
}

/// A 64-bit number as eight bytes, the most significant first.
pub open spec fn be_bytes(n: u64) -> Seq<u8> {
    low_bytes(n as nat, 8)
}

/// A 64-bit number as eight bytes, the most significant first.
pub fn be_bytes_of(n: u64) -> (bytes: Vec<u8>)
    ensures
        bytes@ == be_bytes(n),
        bytes@.len() == 8,
{
    let n1: u64 = n / 0x100;
    let n2: u64 = n1 / 0x100;
    let n3: u64 = n2 / 0x100;
    let n4: u64 = n3 / 0x100;
    let n5: u64 = n4 / 0x100;
    let n6: u64 = n5 / 0x100;
    let n7: u64 = n6 / 0x100;
    let mut bytes: Vec<u8> = Vec::new();
    bytes.push((n7 % 0x100) as u8);
    bytes.push((n6 % 0x100) as u8);
    bytes.push((n5 % 0x100) as u8);
    bytes.push((n4 % 0x100) as u8);
    bytes.push((n3 % 0x100) as u8);
    bytes.push((n2 % 0x100) as u8);
    bytes.push((n1 % 0x100) as u8);
    bytes.push((n % 0x100) as u8);
    proof {
        reveal_with_fuel(low_bytes, 9);
        assert(bytes@ =~= be_bytes(n));
    }
    bytes
}

/// The number of values of `width` bytes.
spec fn byte_range(width: nat) -> nat
    decreases width,
{
    if width == 0 {
        1
    } else {
        0x100 * byte_range((width - 1) as nat)
    }
}

proof fn lemma_low_bytes(a: nat, b: nat, width: nat)
    ensures
        low_bytes(a, width).len() == width,
        a < byte_range(width) && b < byte_range(width) && low_bytes(a, width) == low_bytes(
            b,
            width,
        ) ==> a == b,
    decreases width,
{
    if width > 0 {
        lemma_low_bytes(a / 0x100, b / 0x100, (width - 1) as nat);
        lemma_low_bytes(b / 0x100, a / 0x100, (width - 1) as nat);
        let x = low_bytes(a, width);
        let y = low_bytes(b, width);
        if x == y {
            assert(x.drop_last() =~= low_bytes(a / 0x100, (width - 1) as nat));
            assert(y.drop_last() =~= low_bytes(b / 0x100, (width - 1) as nat));
            assert(x.last() == y.last());
        }
    }
}

pub(crate) proof fn lemma_be_bytes_injective(a: u64, b: u64)
    ensures
        be_bytes(a).len() == 8,
        be_bytes(a) == be_bytes(b) ==> a == b,
{
    reveal_with_fuel(byte_range, 9);
    lemma_low_bytes(a as nat, b as nat, 8);
}

/// A part with its length in front of it.
pub open spec fn prefixed(part: Seq<u8>) -> Seq<u8> {
    be_bytes(part.len() as u64) + part
}

/// Several parts, each with its length in front of it.
pub open spec fn prefixed_all(parts: Seq<Seq<u8>>) -> Seq<u8>
    decreases parts.len(),
{
    if parts.len() == 0 {
        Seq::empty()
    } else {
        prefixed(parts[0]) + prefixed_all(parts.skip(1))
    }
}

/// Every part is short enough for its length to be written in front of it.
pub open spec fn encodable(parts: Seq<Seq<u8>>) -> bool {
    forall|i: int| 0 <= i < parts.len() ==> (#[trigger] parts[i]).len() <= u64::MAX
}

/// Lists of parts that are encoded alike are equal: no part can pass for a piece
/// of another.
pub proof fn law_prefixed_parts_do_not_collide(a: Seq<Seq<u8>>, b: Seq<Seq<u8>>)
    requires
        encodable(a),
        encodable(b),
        prefixed_all(a) == prefixed_all(b),
    ensures
        a == b,
    decreases a.len(),
{
    let x = prefixed_all(a);
    let y = prefixed_all(b);
    if a.len() > 0 {
        lemma_be_bytes_injective(a[0].len() as u64, 0);
        assert(x.len() >= 8);
    }
    if b.len() > 0 {
        lemma_be_bytes_injective(b[0].len() as u64, 0);
        assert(y.len() >= 8);
    }
    if a.len() > 0 && b.len() > 0 {
        let n = a[0].len() as u64;
        let m = b[0].len() as u64;
        lemma_be_bytes_injective(n, m);
        lemma_be_bytes_injective(m, n);
        assert(x.take(8) =~= be_bytes(n));
        assert(y.take(8) =~= be_bytes(m));
        let end = 8 + a[0].len() as int;
        assert(x.subrange(8, end) =~= a[0]);
        assert(y.subrange(8, end) =~= b[0]);
        assert(x.skip(end) =~= prefixed_all(a.skip(1)));
        assert(y.skip(end) =~= prefixed_all(b.skip(1)));
        law_prefixed_parts_do_not_collide(a.skip(1), b.skip(1));
        assert(a =~= seq![a[0]] + a.skip(1));
        assert(b =~= seq![b[0]] + b.skip(1));
    } else {
        assert(a =~= b);
    }
}

/// Appends bytes to a buffer.
pub fn push_bytes(buffer: &mut Vec<u8>, bytes: &[u8])
    ensures
        final(buffer)@ == old(buffer)@ + bytes@,
{
    let mut i: usize = 0;
    let ghost before = buffer@;
    while i < bytes.len()
        invariant
            i <= bytes.len(),
            buffer@ == before + bytes@.take(i as int),
        decreases bytes.len() - i,
    {
        buffer.push(bytes[i]);
        i = i + 1;
        assert(buffer@ =~= before + bytes@.take(i as int));
    }
    assert(bytes@.take(i as int) =~= bytes@);
}

/// Appends a part with its length in front of it.
pub fn push_prefixed(buffer: &mut Vec<u8>, part: &[u8])
    ensures
        final(buffer)@ == old(buffer)@ + prefixed(part@),
{
    let length = be_bytes_of(part.len() as u64);
    push_bytes(buffer, length.as_slice());
    push_bytes(buffer, part);
    assert(buffer@ =~= old(buffer)@ + prefixed(part@));
}

pub(crate) proof fn lemma_prefixed_all_push(parts: Seq<Seq<u8>>, part: Seq<u8>)
    ensures
        prefixed_all(parts.push(part)) == prefixed_all(parts) + prefixed(part),
    decreases parts.len(),
{
    if parts.len() == 0 {
        assert(parts.push(part).skip(1) =~= Seq::<Seq<u8>>::empty());
        assert(prefixed_all(parts.push(part).skip(1)) =~= Seq::<u8>::empty());
        assert(prefixed_all(parts.push(part)) =~= prefixed(part));
        assert(prefixed_all(parts) + prefixed(part) =~= prefixed(part));
    } else {
        assert(parts.push(part).skip(1) =~= parts.skip(1).push(part));
        lemma_prefixed_all_push(parts.skip(1), part);
        assert(prefixed_all(parts.push(part)) =~= prefixed_all(parts) + prefixed(part));
    }
}

/// The parts that identify a lifecycle.
pub open spec fn lifecycle_parts(
    namespace: Seq<char>,
    id: Seq<char>,
    bundle: Seq<u8>,
    identity: FileIdentity,
) -> Seq<Seq<u8>> {
    seq![
        encode_utf8(namespace),
        encode_utf8(id),
        bundle,
        be_bytes(identity.device),
        be_bytes(identity.inode),
    ]
}

/// The key of a lifecycle: a digest of its namespace, its id, the path of its
/// bundle and the identity of the bundle's directory.
pub fn lifecycle_key(namespace: &str, id: &str, bundle: &[u8], identity: &FileIdentity) -> (key:
    String)
    ensures
        key@ == hex(sha256(prefixed_all(lifecycle_parts(namespace@, id@, bundle@, *identity)))),
{
    let mut buffer: Vec<u8> = Vec::new();
    let device = be_bytes_of(identity.device);
    let inode = be_bytes_of(identity.inode);
    push_prefixed(&mut buffer, namespace.as_bytes());
    push_prefixed(&mut buffer, id.as_bytes());
    push_prefixed(&mut buffer, bundle);
    push_prefixed(&mut buffer, device.as_slice());
    push_prefixed(&mut buffer, inode.as_slice());
    proof {
        let e = Seq::<Seq<u8>>::empty();
        let p = lifecycle_parts(namespace@, id@, bundle@, *identity);
        lemma_prefixed_all_push(e, p[0]);
        lemma_prefixed_all_push(e.push(p[0]), p[1]);
        lemma_prefixed_all_push(e.push(p[0]).push(p[1]), p[2]);
        lemma_prefixed_all_push(e.push(p[0]).push(p[1]).push(p[2]), p[3]);
        lemma_prefixed_all_push(e.push(p[0]).push(p[1]).push(p[2]).push(p[3]), p[4]);
        assert(e.push(p[0]).push(p[1]).push(p[2]).push(p[3]).push(p[4]) =~= p);
        assert(prefixed_all(e) =~= Seq::<u8>::empty());
    }
    sha256_hex(buffer.as_slice())
}

/// The parts that identify a socket: its directory and its name there.
pub open spec fn socket_parts(parent: FileIdentity, name: Seq<u8>) -> Seq<Seq<u8>> {
    seq![be_bytes(parent.device), be_bytes(parent.inode), name]
}

/// The ownership key of a socket: a digest of the identity of its directory
/// and of its name, so that two spellings of one path share it.
pub fn socket_ownership_digest(parent: &FileIdentity, name: &[u8]) -> (digest: String)
    ensures
        digest@ == hex(sha256(prefixed_all(socket_parts(*parent, name@)))),
{
    let mut buffer: Vec<u8> = Vec::new();
    let device = be_bytes_of(parent.device);
    let inode = be_bytes_of(parent.inode);
    push_prefixed(&mut buffer, device.as_slice());
    push_prefixed(&mut buffer, inode.as_slice());
    push_prefixed(&mut buffer, name);
    proof {
        let e = Seq::<Seq<u8>>::empty();
        let p = socket_parts(*parent, name@);
        lemma_prefixed_all_push(e, p[0]);
        lemma_prefixed_all_push(e.push(p[0]), p[1]);
        lemma_prefixed_all_push(e.push(p[0]).push(p[1]), p[2]);
        assert(e.push(p[0]).push(p[1]).push(p[2]) =~= p);
        assert(prefixed_all(e) =~= Seq::<u8>::empty());
    }
    sha256_hex(buffer.as_slice())
}

/// A command line as the kernel shows it: every argument followed by a zero
/// byte.
pub open spec fn command_line(argv: Seq<Seq<char>>) -> Seq<u8>
    decreases argv.len(),
{
    if argv.len() == 0 {
        Seq::empty()
    } else {
        command_line(argv.drop_last()) + encode_utf8(argv.last()) + seq![0u8]
    }
}

/// The digest of a command line.
pub fn command_sha256(argv: &Vec<String>) -> (digest: String)
    ensures
        digest@ == hex(sha256(command_line(views(argv@)))),
{
    let mut command: Vec<u8> = Vec::new();
    let mut i: usize = 0;
    let ghost all = views(argv@);
    assert(command@ =~= command_line(all.take(0)));
    while i < argv.len()
        invariant
            all == views(argv@),
            i <= argv.len(),
            command@ == command_line(all.take(i as int)),
        decreases argv.len() - i,
    {
        push_bytes(&mut command, argv[i].as_str().as_bytes());
        command.push(0);
        i = i + 1;
        proof {
            assert(all.take(i as int).drop_last() =~= all.take(i - 1));
            assert(all.take(i as int).last() == argv@[i - 1]@);
            assert(command@ =~= command_line(all.take(i as int)));
        }
    }
    assert(all.take(i as int) =~= all);
    sha256_hex(command.as_slice())
}

/// The arguments with which a server is started.
pub open spec fn server_argv(
    executable: Seq<char>,
    namespace: Seq<char>,
    instance_id: Seq<char>,
    containerd_grpc_address: Seq<char>,
    address: Seq<char>,
    debug: bool,
) -> Seq<Seq<char>> {
    let argv = seq![
        executable,
        "-namespace"@,
        namespace,
        "-id"@,
        instance_id,
        "-address"@,
        containerd_grpc_address,
        "-socket"@,
        address,
    ];
    if debug {
        argv.push("-debug"@)
    } else {
        argv
    }
}

/// The arguments with which a server is started.
pub fn expected_server_argv(
    executable: &str,
    namespace: &str,
    instance_id: &str,
    containerd_grpc_address: &str,
    address: &str,
    debug: bool,
) -> (argv: Vec<String>)
    ensures
        views(argv@) == server_argv(
            executable@,
            namespace@,
            instance_id@,
            containerd_grpc_address@,
            address@,
            debug,
        ),
{
    let mut argv: Vec<String> = Vec::new();
    argv.push(executable.to_owned());
    argv.push("-namespace".to_owned());
    argv.push(namespace.to_owned());
    argv.push("-id".to_owned());
    argv.push(instance_id.to_owned());
    argv.push("-address".to_owned());
    argv.push(containerd_grpc_address.to_owned());
    argv.push("-socket".to_owned());
    argv.push(address.to_owned());
    if debug {
        argv.push("-debug".to_owned());
    }
    assert(views(argv@) =~= server_argv(
        executable@,
        namespace@,
        instance_id@,
        containerd_grpc_address@,
        address@,
        debug,
    ));
    argv
}

/// The value of a hexadecimal digit, in either case.
pub open spec fn hex_digit(c: char) -> Option<nat> {
    if '0' as u32 <= c as u32 <= '9' as u32 {
        Some((c as u32 - '0' as u32) as nat)
    } else if 'a' as u32 <= c as u32 <= 'f' as u32 {
        Some((c as u32 - 'a' as u32 + 10) as nat)
    } else if 'A' as u32 <= c as u32 <= 'F' as u32 {
        Some((c as u32 - 'A' as u32 + 10) as nat)
    } else {
        None
    }
}

/// The number that hexadecimal digits denote; a character that is no digit
/// counts as zero.
pub open spec fn hex_digits_value(s: Seq<char>) -> nat
    decreases s.len(),
{
    if s.len() == 0 {
        0
    } else {
        hex_digits_value(s.drop_last()) * 16 + match hex_digit(s.last()) {
            Some(v) => v,
            None => 0,
        }
    }
}

/// The value of a text as a hexadecimal number of at most `max`: an optional
/// plus sign, then hexadecimal digits only.
pub open spec fn hex_value(s: Seq<char>, max: nat) -> Option<nat> {
    let digits = if s.len() > 0 && s[0] == '+' {
        s.skip(1)
    } else {
        s
    };
    if digits.len() > 0 && all_hex(digits) && hex_digits_value(digits) <= max {
        Some(hex_digits_value(digits))
    } else {
        None
    }
}

/// Whether a text holds hexadecimal digits only.
pub open spec fn all_hex(s: Seq<char>) -> bool {
    forall|i: int| 0 <= i < s.len() ==> hex_digit(#[trigger] s[i]) is Some
}

/// The message with which parsing this text as a hexadecimal byte fails.
pub uninterp spec fn parse_hex_message(s: Seq<char>) -> Seq<char>;

/// Calls `u8::from_str_radix` with radix 16: an optional plus sign followed by
/// hexadecimal digits whose value fits is accepted, everything else is an
/// error, whose displayed text is named `parse_hex_message`.
#[verifier::external_body]
pub(crate) fn parse_hex_byte(s: &str) -> (r: Result<u8, String>)
    ensures
        match hex_value(s@, 0xff) {
            Some(v) => r matches Ok(n) && n == v,
            None => fails_with(r, parse_hex_message(s@)),
        },
{
    u8::from_str_radix(s, 16).map_err(|error| error.to_string())
}

/// The text of the two bytes at `at`.
pub open spec fn pair_at(bytes: Seq<u8>, at: int) -> Seq<char> {
    decode_utf8(bytes.subrange(at, at + 2))
}

/// The bytes that pairs of hexadecimal digits denote, from `from` on, or why
/// they denote none.
pub open spec fn decode_pairs(bytes: Seq<u8>, from: int) -> Result<Seq<u8>, Seq<char>>
    decreases bytes.len() - from,
{
    if from < 0 || from + 2 > bytes.len() {
        Ok(Seq::empty())
    } else {
        match hex_value(pair_at(bytes, from), 0xff) {
            None => Err("decode launch nonce: "@ + parse_hex_message(pair_at(bytes, from))),
            Some(v) => match decode_pairs(bytes, from + 2) {
                Err(message) => Err(message),
                Ok(rest) => Ok(seq![v as u8] + rest),
            },
        }
    }
}

/// Whether a text can be cut after every second byte.
pub open spec fn cut_in_pairs(bytes: Seq<u8>) -> bool {
    forall|i: int|
        0 <= i <= bytes.len() && i % 2 == 0 ==> #[trigger] is_char_boundary(bytes, i)
}

/// The bytes that a hexadecimal text denotes.
pub fn decode_hex(value: &str) -> (r: Result<Vec<u8>, String>)
    requires
        encode_utf8(value@).len() % 2 == 0 ==> cut_in_pairs(encode_utf8(value@)),
    ensures
        if encode_utf8(value@).len() % 2 != 0 {
            fails_with(r, "hex launch nonce has odd length"@)
        } else {
            match decode_pairs(encode_utf8(value@), 0) {
                Ok(bytes) => r matches Ok(v) && v@ == bytes,
                Err(message) => fails_with(r, message),
            }
        },
{
    let ghost bytes = encode_utf8(value@);
    let length: usize = value.as_bytes().len();
    if length % 2 != 0 {
        return Err("hex launch nonce has odd length".to_owned());
    }
    let mut out: Vec<u8> = Vec::new();
    let mut i: usize = 0;
    proof {
        if decode_pairs(bytes, 0) is Ok {
            assert(out@ + decode_pairs(bytes, 0)->Ok_0 =~= decode_pairs(bytes, 0)->Ok_0);
        }
    }
    while i < length
        invariant
            bytes == encode_utf8(value@),
            length == bytes.len(),
            length % 2 == 0,
            i % 2 == 0,
            i <= length,
            cut_in_pairs(bytes),
            match decode_pairs(bytes, i as int) {
                Err(message) => decode_pairs(bytes, 0) == Err::<Seq<u8>, Seq<char>>(message),
                Ok(rest) => decode_pairs(bytes, 0) == Ok::<Seq<u8>, Seq<char>>(out@ + rest),
            },
        decreases length - i,
    {
        assert(is_char_boundary(bytes, i as int));
        assert(is_char_boundary(bytes, i + 2));
        let (front, _) = value.split_at(i + 2);
        proof {
            vstd::utf8::encode_utf8_valid_utf8(value@);
            vstd::utf8::encode_utf8_valid_utf8(front@);
            let head = encode_utf8(front@);
            assert(head == bytes.subrange(0, i + 2));
            vstd::utf8::is_char_boundary_iff_not_is_continuation_byte(bytes, i as int);
            vstd::utf8::is_char_boundary_iff_not_is_continuation_byte(head, i as int);
            assert(head[i as int] == bytes[i as int]);
            assert(is_char_boundary(head, i as int));
        }
        let (_, pair) = front.split_at(i);
        assert(encode_utf8(pair@) =~= bytes.subrange(i as int, i + 2));
        proof {
            vstd::utf8::encode_utf8_decode_utf8(pair@);
        }
        match parse_hex_byte(pair) {
            Err(error) => {
                return Err("decode launch nonce: ".to_owned().concat(error.as_str()));
            },
            Ok(byte) => {
                let ghost before = out@;
                out.push(byte);
                proof {
                    if let Ok(rest) = decode_pairs(bytes, i + 2) {
                        assert(before + (seq![byte] + rest) =~= out@ + rest);
                    }
                }
            },
        }
        i = i + 2;
    }
    assert(out@ + Seq::<u8>::empty() =~= out@);
    Ok(out)
}

pub(crate) proof fn lemma_nibble_digit(n: u8)
    requires
        n < 16,
    ensures
        hex_digit(nibble(n)) == Some(n as nat),
        '\0' <= nibble(n) <= '\u{7f}',
        nibble(n) != '+',
{
}

proof fn lemma_ascii_bytes(s: Seq<char>)
    requires
        vstd::utf8::is_ascii_chars(s),
    ensures
        encode_utf8(s) == Seq::new(s.len(), |i: int| s[i] as u8),
        forall|i: int| 0 <= i <= s.len() ==> #[trigger] is_char_boundary(encode_utf8(s), i),
{
    vstd::utf8::is_ascii_chars_encode_utf8(s);
    vstd::utf8::is_ascii_chars_nat_bound(s);
    vstd::utf8::encode_utf8_valid_utf8(s);
    let bytes = encode_utf8(s);
    assert(bytes =~= Seq::new(s.len(), |i: int| s[i] as u8));
    assert forall|i: int| 0 <= i <= s.len() implies #[trigger] is_char_boundary(bytes, i) by {
        if i < s.len() {
            vstd::utf8::is_char_boundary_iff_not_is_continuation_byte(bytes, i);
            let b = bytes[i];
            assert(b < 128);
            assert(b < 128 ==> !(0x80 <= b <= 0xbf));
        } else {
            vstd::utf8::is_char_boundary_start_end_of_seq(bytes);
        }
    }
}

proof fn lemma_decode_hex_pairs(data: Seq<u8>, from: int)
    requires
        0 <= from <= data.len(),
    ensures
        decode_pairs(encode_utf8(hex(data)), 2 * from) == Ok::<Seq<u8>, Seq<char>>(
            data.skip(from),
        ),
    decreases data.len() - from,
{
    let text = hex(data);
    assert forall|i: int| 0 <= i < text.len() implies '\0' <= #[trigger] text[i] <= '\u{7f}' by {
        lemma_nibble_digit(data[i / 2] / 16);
        lemma_nibble_digit(data[i / 2] % 16);
    }
    lemma_ascii_bytes(text);
    let bytes = encode_utf8(text);
    if from < data.len() {
        let hi = data[from] / 16;
        let lo = data[from] % 16;
        lemma_nibble_digit(hi);
        lemma_nibble_digit(lo);
        let pair = seq![nibble(hi), nibble(lo)];
        assert(text[2 * from] == nibble(hi));
        assert(text[2 * from + 1] == nibble(lo));
        lemma_ascii_bytes(pair);
        assert(encode_utf8(pair) =~= bytes.subrange(2 * from, 2 * from + 2));
        vstd::utf8::encode_utf8_decode_utf8(pair);
        assert(pair_at(bytes, 2 * from) == pair);
        reveal_with_fuel(hex_digits_value, 3);
        assert(pair.drop_last().last() == nibble(hi));
        assert(pair.last() == nibble(lo));
        assert(pair.drop_last().drop_last() =~= Seq::<char>::empty());
        assert(hex_digits_value(pair) == hi * 16 + lo);
        assert(hex_value(pair, 0xff) == Some(data[from] as nat));
        lemma_decode_hex_pairs(data, from + 1);
        assert(seq![data[from]] + data.skip(from + 1) =~= data.skip(from));
    } else {
        assert(data.skip(from) =~= Seq::<u8>::empty());
    }
}

/// Decoding the hexadecimal notation of some bytes gives the bytes back.
pub proof fn law_hex_round_trip(data: Seq<u8>)
    ensures
        encode_utf8(hex(data)).len() == 2 * data.len(),
        cut_in_pairs(encode_utf8(hex(data))),
        decode_pairs(encode_utf8(hex(data)), 0) == Ok::<Seq<u8>, Seq<char>>(data),
{
    let text = hex(data);
    assert forall|i: int| 0 <= i < text.len() implies '\0' <= #[trigger] text[i] <= '\u{7f}' by {
        lemma_nibble_digit(data[i / 2] / 16);
        lemma_nibble_digit(data[i / 2] % 16);
    }
    lemma_ascii_bytes(text);
    lemma_decode_hex_pairs(data, 0);
    assert(data.skip(0) =~= data);
}

/// A number is written with its most significant byte first.
pub proof fn law_numbers_are_written_from_the_top(n: u64)
    ensures
        be_bytes(n).len() == 8,
        be_bytes(n)[7] == n % 0x100,
        be_bytes(n)[6] == (n / 0x100) % 0x100,
        be_bytes(n)[0] == n / 0x100_0000_0000_0000,
{
    reveal_with_fuel(low_bytes, 9);
    let b = n as nat;
    assert(low_bytes(b, 8).len() == 8);
    assert(b / 0x100 / 0x100 / 0x100 / 0x100 / 0x100 / 0x100 / 0x100 == b / 0x100_0000_0000_0000);
    assert(b / 0x100_0000_0000_0000 < 0x100);
}

/// A part is written behind its length, and parts follow each other.
pub proof fn law_parts_follow_their_length(part: Seq<u8>, parts: Seq<Seq<u8>>)
    ensures
        prefixed(part) == be_bytes(part.len() as u64) + part,
        prefixed_all(Seq::empty()).len() == 0,
        prefixed_all(seq![part] + parts) == be_bytes(part.len() as u64) + part + prefixed_all(parts),
{
    let all = seq![part] + parts;
    assert(all.skip(1) =~= parts);
    assert(all[0] == part);
}

/// A server is started with its namespace, its name, its runtime's address and
/// its socket, in this order, and with the debugging flag last where it is
/// asked for.
pub proof fn law_servers_are_started_in_this_way(
    executable: Seq<char>,
    namespace: Seq<char>,
    instance_id: Seq<char>,
    grpc: Seq<char>,
    address: Seq<char>,
)
    ensures
        server_argv(executable, namespace, instance_id, grpc, address, false) == seq![
            executable,
            "-namespace"@,
            namespace,
            "-id"@,
            instance_id,
            "-address"@,
            grpc,
            "-socket"@,
            address,
        ],
        server_argv(executable, namespace, instance_id, grpc, address, true) == server_argv(
            executable,
            namespace,
            instance_id,
            grpc,
            address,
            false,
        ).push("-debug"@),
{
}

/// Each argument of a command line ends with a zero byte, as the kernel shows
/// it.
pub proof fn law_arguments_end_with_zero(argv: Seq<Seq<char>>, last: Seq<char>)
    ensures
        command_line(Seq::empty()).len() == 0,
        command_line(argv.push(last)) == command_line(argv) + encode_utf8(last) + seq![0u8],
{
    assert(argv.push(last).drop_last() =~= argv);
}

/// Digests are written in small letters: ten is `a` and fifteen is `f`.
pub proof fn law_digits_are_small_letters(data: Seq<u8>, i: int)
    requires
        0 <= i < data.len(),
    ensures
        hex(data).len() == 2 * data.len(),
        hex(data)[2 * i] == nibble((data[i] / 16) as u8),
        hex(data)[2 * i + 1] == nibble((data[i] % 16) as u8),
        nibble(0) == '0',
        nibble(9) == '9',
        nibble(10) == 'a',
        nibble(15) == 'f',
{
    assert((2 * i) / 2 == i);
    assert((2 * i + 1) / 2 == i);
    assert((2 * i) % 2 == 0);
    assert((2 * i + 1) % 2 == 1);
}

/// A lifecycle's key is made of its sandbox and its bundle, and a socket's of
/// its directory and its name.
pub proof fn law_keys_hold_what_they_name(
    namespace: Seq<char>,
    id: Seq<char>,
    bundle: Seq<u8>,
    identity: FileIdentity,
    name: Seq<u8>,
)
    ensures
        lifecycle_parts(namespace, id, bundle, identity) == seq![
            encode_utf8(namespace),
            encode_utf8(id),
            bundle,
            be_bytes(identity.device),
            be_bytes(identity.inode),
        ],
        socket_parts(identity, name) == seq![
            be_bytes(identity.device),
            be_bytes(identity.inode),
            name,
        ],
{
}

} // verus!
