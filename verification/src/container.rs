//! The standalone archive's outer container, composed byte for byte:
//! a format-marker member followed by the compressed control payload
//! and the compressed data payload, in the standard Debian binary
//! package layout. Compressing the payloads is the caller's work; the
//! composition of the container around them is decided and fixed here.

use vstd::prelude::*;

verus! {

/// The container's magic: `!<arch>\n`.
pub open spec fn ar_magic() -> Seq<u8> {
    seq![33u8, 60, 97, 114, 99, 104, 62, 10]
}

/// The decimal digits of `n`, most significant first.
pub open spec fn dec_digits(n: nat) -> Seq<u8>
    decreases n,
{
    if n < 10 {
        seq![(48 + n) as u8]
    } else {
        dec_digits(n / 10).push((48 + n % 10) as u8)
    }
}

/// Ten to the `k`th power.
pub open spec fn pow10(k: nat) -> nat
    decreases k,
{
    if k == 0 {
        1
    } else {
        10 * pow10((k - 1) as nat)
    }
}

/// A number below ten to the `k`th has at most `k` decimal digits.
pub proof fn lemma_dec_digits_len(n: nat, k: nat)
    requires
        k >= 1,
        n < pow10(k),
    ensures
        dec_digits(n).len() <= k,
    decreases k,
{
    if n >= 10 {
        assert(k >= 2) by {
            if k == 1 {
                assert(pow10(0) == 1);
                assert(pow10(1) == 10);
            }
        }
        assert(pow10(k) == 10 * pow10((k - 1) as nat));
        assert(n / 10 < pow10((k - 1) as nat));
        lemma_dec_digits_len(n / 10, (k - 1) as nat);
    }
}

/// The size bound under which a member's length fits the container's
/// ten-character size field.
pub proof fn lemma_pow10_ten()
    ensures
        pow10(10) == 10_000_000_000,
{
    assert(pow10(0) == 1);
    assert(pow10(1) == 10);
    assert(pow10(2) == 100);
    assert(pow10(3) == 1000);
    assert(pow10(4) == 10000);
    assert(pow10(5) == 100000);
    assert(pow10(6) == 1000000);
    assert(pow10(7) == 10000000);
    assert(pow10(8) == 100000000);
    assert(pow10(9) == 1000000000);
    assert(pow10(10) == 10_000_000_000);
}

/// A fixed-width header field: the text followed by enough spaces.
pub open spec fn pad(field: Seq<u8>, width: nat) -> Seq<u8>
    recommends
        field.len() <= width,
{
    field + Seq::new((width - field.len()) as nat, |i: int| 32u8)
}

/// A numeric header field left at zero.
pub open spec fn zero_field() -> Seq<u8> {
    seq![48]
}

/// The mode every member carries: an ordinary world-readable file.
pub open spec fn mode_field() -> Seq<u8> {
    seq![49, 48, 48, 54, 52, 52]
}

/// One member's header: name, timestamp, owner, group, mode and size
/// fields, each padded to its width, closed by the header terminator.
pub open spec fn ar_header(name: Seq<u8>, size: nat) -> Seq<u8> {
    pad(name, 16) + pad(zero_field(), 12) + pad(zero_field(), 6) + pad(zero_field(), 6) + pad(
        mode_field(),
        8,
    ) + pad(dec_digits(size), 10) + seq![96, 10]
}

/// One member: its header, its contents, and a newline of padding when
/// the contents' length is odd, so every header starts on an even
/// offset.
pub open spec fn ar_member(name: Seq<u8>, contents: Seq<u8>) -> Seq<u8> {
    ar_header(name, contents.len()) + contents + if contents.len() % 2 == 1 {
        seq![10]
    } else {
        Seq::<u8>::empty()
    }
}

/// The format marker's member name.
pub open spec fn marker_name() -> Seq<u8> {
    seq![100, 101, 98, 105, 97, 110, 45, 98, 105, 110, 97, 114, 121]
}

/// The format marker's contents: format version two.
pub open spec fn marker_contents() -> Seq<u8> {
    seq![50, 46, 48, 10]
}

/// The compressed control payload's member name.
pub open spec fn control_member_name() -> Seq<u8> {
    seq![99, 111, 110, 116, 114, 111, 108, 46, 116, 97, 114, 46, 103, 122]
}

/// The compressed data payload's member name.
pub open spec fn data_member_name() -> Seq<u8> {
    seq![100, 97, 116, 97, 46, 116, 97, 114, 46, 103, 122]
}

/// The whole container: magic, format marker, control member, data
/// member, in that order and nothing else.
pub open spec fn deb_container(control: Seq<u8>, data: Seq<u8>) -> Seq<u8> {
    ar_magic() + ar_member(marker_name(), marker_contents()) + ar_member(
        control_member_name(),
        control,
    ) + ar_member(data_member_name(), data)
}

/// Appends every byte of `src`.
fn push_bytes(r: &mut Vec<u8>, src: &Vec<u8>)
    ensures
        final(r)@ == old(r)@ + src@,
{
    proof {
        assert(r@ =~= old(r)@ + src@.subrange(0, 0));
    }
    let mut i: usize = 0;
    while i < src.len()
        invariant
            i <= src.len(),
            r@ == old(r)@ + src@.subrange(0, i as int),
        decreases src.len() - i,
    {
        r.push(src[i]);
        proof {
            assert(old(r)@ + src@.subrange(0, i + 1) =~= (old(r)@ + src@.subrange(
                0,
                i as int,
            )).push(src@[i as int]));
        }
        i += 1;
    }
    proof {
        assert(src@.subrange(0, src.len() as int) =~= src@);
    }
}

/// Appends one fixed-width header field: the text, then spaces.
fn push_padded(r: &mut Vec<u8>, field: &Vec<u8>, width: usize)
    requires
        field@.len() <= width,
    ensures
        final(r)@ == old(r)@ + pad(field@, width as nat),
{
    push_bytes(r, field);
    let mut j: usize = field.len();
    proof {
        assert(r@ =~= old(r)@ + field@ + Seq::new((j - field@.len()) as nat, |i: int| 32u8));
    }
    while j < width
        invariant
            field@.len() <= j <= width,
            r@ == old(r)@ + field@ + Seq::new((j - field@.len()) as nat, |i: int| 32u8),
        decreases width - j,
    {
        r.push(32u8);
        proof {
            assert(old(r)@ + field@ + Seq::new((j + 1 - field@.len()) as nat, |i: int| 32u8) =~= (
            old(r)@ + field@ + Seq::new((j - field@.len()) as nat, |i: int| 32u8)).push(32u8));
        }
        j += 1;
    }
    proof {
        assert(old(r)@ + field@ + Seq::new((width - field@.len()) as nat, |i: int| 32u8) =~= old(
            r,
        )@ + pad(field@, width as nat));
    }
}

/// The decimal digits of `n`, most significant first.
fn dec_bytes(n: u64) -> (r: Vec<u8>)
    ensures
        r@ == dec_digits(n as nat),
    decreases n,
{
    if n < 10 {
        let mut r: Vec<u8> = Vec::new();
        r.push(48 + n as u8);
        proof {
            assert(r@ =~= dec_digits(n as nat));
        }
        r
    } else {
        let mut r = dec_bytes(n / 10);
        r.push(48 + (n % 10) as u8);
        proof {
            assert(r@ =~= dec_digits(n as nat));
        }
        r
    }
}

/// Appends one member's header.
fn push_header(r: &mut Vec<u8>, name: &Vec<u8>, size: u64)
    requires
        name@.len() <= 16,
        dec_digits(size as nat).len() <= 10,
    ensures
        final(r)@ == old(r)@ + ar_header(name@, size as nat),
{
    push_padded(r, name, 16);
    let zero: Vec<u8> = vec![48];
    proof {
        assert(zero@ =~= zero_field());
    }
    push_padded(r, &zero, 12);
    push_padded(r, &zero, 6);
    push_padded(r, &zero, 6);
    let mode: Vec<u8> = vec![49, 48, 48, 54, 52, 52];
    proof {
        assert(mode@ =~= mode_field());
    }
    push_padded(r, &mode, 8);
    let digits = dec_bytes(size);
    push_padded(r, &digits, 10);
    r.push(96);
    r.push(10);
    proof {
        assert(r@ =~= old(r)@ + ar_header(name@, size as nat));
    }
}

/// Appends one whole member: header, contents, alignment padding.
fn push_member(r: &mut Vec<u8>, name: &Vec<u8>, contents: &Vec<u8>)
    requires
        name@.len() <= 16,
        contents@.len() < 10_000_000_000,
    ensures
        final(r)@ == old(r)@ + ar_member(name@, contents@),
{
    proof {
        lemma_pow10_ten();
        lemma_dec_digits_len(contents@.len(), 10);
    }
    push_header(r, name, contents.len() as u64);
    push_bytes(r, contents);
    if contents.len() % 2 == 1 {
        r.push(10);
    }
    proof {
        assert(r@ =~= old(r)@ + ar_member(name@, contents@));
    }
}

/// Composes the final container around the two compressed payloads:
/// magic, format marker, control member, data member, byte for byte as
/// [`deb_container`] lays them out.
pub fn compose_deb_container(control: &Vec<u8>, data: &Vec<u8>) -> (r: Vec<u8>)
    requires
        control@.len() < 10_000_000_000,
        data@.len() < 10_000_000_000,
    ensures
        r@ == deb_container(control@, data@),
{
    let mut r: Vec<u8> = Vec::new();
    let magic: Vec<u8> = vec![33u8, 60, 97, 114, 99, 104, 62, 10];
    proof {
        assert(magic@ =~= ar_magic());
    }
    push_bytes(&mut r, &magic);
    let marker_name_v: Vec<u8> = vec![
        100,
        101,
        98,
        105,
        97,
        110,
        45,
        98,
        105,
        110,
        97,
        114,
        121,
    ];
    let marker: Vec<u8> = vec![50, 46, 48, 10];
    proof {
        assert(marker_name_v@ =~= marker_name());
        assert(marker@ =~= marker_contents());
    }
    push_member(&mut r, &marker_name_v, &marker);
    let control_name: Vec<u8> = vec![
        99,
        111,
        110,
        116,
        114,
        111,
        108,
        46,
        116,
        97,
        114,
        46,
        103,
        122,
    ];
    proof {
        assert(control_name@ =~= control_member_name());
    }
    push_member(&mut r, &control_name, control);
    let data_name: Vec<u8> = vec![100, 97, 116, 97, 46, 116, 97, 114, 46, 103, 122];
    proof {
        assert(data_name@ =~= data_member_name());
    }
    push_member(&mut r, &data_name, data);
    proof {
        assert(r@ =~= deb_container(control@, data@));
    }
    r
}

} // verus!
