use grandpa_light_client::scale::{
    read_compact_u32, read_u32, read_u64, write_compact_u32, write_u32, write_u64,
};
use parity_scale_codec::{Compact, Decode, Encode};

fn compact(n: u32) -> Vec<u8> {
    let mut out = Vec::new();
    write_compact_u32(n, &mut out);
    out
}

#[test]
fn u32_is_written_little_endian() {
    let mut out = vec![0xaa];
    write_u32(0x0102_0304, &mut out);
    assert_eq!(out, vec![0xaa, 0x04, 0x03, 0x02, 0x01]);
}

#[test]
fn u64_is_written_little_endian() {
    let mut out = Vec::new();
    write_u64(0x0102_0304_0506_0708, &mut out);
    assert_eq!(out, vec![0x08, 0x07, 0x06, 0x05, 0x04, 0x03, 0x02, 0x01]);
}

#[test]
fn u32_is_read_at_a_position() {
    let input = [0xff, 0x6e, 0x00, 0x00, 0x00, 0xff];
    assert_eq!(read_u32(&input, 1), Some(110));
    assert_eq!(read_u32(&input, 2), Some(0xff00_0000));
    assert_eq!(read_u32(&input, 3), None);
    assert_eq!(read_u32(&input, 100), None);
    assert_eq!(read_u32(&[], 0), None);
}

#[test]
fn u64_is_read_at_a_position() {
    let input = [0x01, 0x02, 0x00, 0x00, 0x00, 0x00, 0x00, 0x00, 0x80];
    assert_eq!(read_u64(&input, 0), Some(0x0201));
    assert_eq!(read_u64(&input, 1), Some(0x8000_0000_0000_0002));
    assert_eq!(read_u64(&input, 2), None);
    assert_eq!(read_u64(&input, usize::MAX), None);
}

#[test]
fn integers_round_trip() {
    for x in [0u32, 1, 255, 256, 65_535, 65_536, 0x00ff_ffff, 0x0100_0000, u32::MAX] {
        let mut out = Vec::new();
        write_u32(x, &mut out);
        assert_eq!(out, x.to_le_bytes().to_vec());
        assert_eq!(read_u32(&out, 0), Some(x));
    }
    for x in [0u64, 1, 0xffff_ffff, 0x1_0000_0000, 0x00ff_ffff_ffff_ffff, u64::MAX] {
        let mut out = Vec::new();
        write_u64(x, &mut out);
        assert_eq!(out, x.to_le_bytes().to_vec());
        assert_eq!(read_u64(&out, 0), Some(x));
    }
}

#[test]
fn compact_length_has_four_modes() {
    assert_eq!(compact(0), vec![0x00]);
    assert_eq!(compact(1), vec![0x04]);
    assert_eq!(compact(2), vec![0x08]);
    assert_eq!(compact(63), vec![0xfc]);
    assert_eq!(compact(64), vec![0x01, 0x01]);
    assert_eq!(compact(16_383), vec![0xfd, 0xff]);
    assert_eq!(compact(16_384), vec![0x02, 0x00, 0x01, 0x00]);
    assert_eq!(compact(0x3fff_ffff), vec![0xfe, 0xff, 0xff, 0xff]);
    assert_eq!(compact(0x4000_0000), vec![0x03, 0x00, 0x00, 0x00, 0x40]);
    assert_eq!(compact(u32::MAX), vec![0x03, 0xff, 0xff, 0xff, 0xff]);
}

#[test]
fn compact_length_round_trips_and_says_where_it_ends() {
    for n in [0u32, 1, 63, 64, 65, 16_383, 16_384, 0x3fff_ffff, 0x4000_0000, u32::MAX] {
        let mut input = vec![0xee, 0xee];
        write_compact_u32(n, &mut input);
        let end = input.len();
        input.push(0x77);
        assert_eq!(read_compact_u32(&input, 2), Some((n, end)));
    }
}

#[test]
fn compact_length_that_is_cut_short_is_none() {
    assert_eq!(read_compact_u32(&[], 0), None);
    assert_eq!(read_compact_u32(&[0x04], 1), None);
    assert_eq!(read_compact_u32(&[0x01], 0), None);
    assert_eq!(read_compact_u32(&[0x02, 0x00, 0x01], 0), None);
    assert_eq!(read_compact_u32(&[0x03, 0x00, 0x00, 0x00], 0), None);
}

#[test]
fn compact_length_not_in_shortest_form_is_none() {
    // 1 in the two-byte mode, 63 in the two-byte mode
    assert_eq!(read_compact_u32(&[0x05, 0x00], 0), None);
    assert_eq!(read_compact_u32(&[0xfd, 0x00], 0), None);
    // 1 in the four-byte mode, 16383 in the four-byte mode
    assert_eq!(read_compact_u32(&[0x06, 0x00, 0x00, 0x00], 0), None);
    assert_eq!(read_compact_u32(&[0xfe, 0xff, 0x00, 0x00], 0), None);
    // 1 in the big-integer mode, 2^30 - 1 in the big-integer mode
    assert_eq!(read_compact_u32(&[0x03, 0x01, 0x00, 0x00, 0x00], 0), None);
    assert_eq!(read_compact_u32(&[0x03, 0xff, 0xff, 0xff, 0x3f], 0), None);
}

#[test]
fn compact_length_of_more_than_four_bytes_is_none() {
    assert_eq!(read_compact_u32(&[0x07, 0x00, 0x00, 0x00, 0x00, 0x01], 0), None);
    assert_eq!(read_compact_u32(&[0xff, 0xff, 0xff, 0xff, 0xff, 0xff], 0), None);
}

#[test]
fn integers_are_written_as_the_codec_crate_writes_them() {
    for x in [0u32, 7, 110, 0x1234_5678, u32::MAX] {
        let mut out = Vec::new();
        write_u32(x, &mut out);
        assert_eq!(out, x.encode());
    }
    for x in [0u64, 1, 0x0123_4567_89ab_cdef, u64::MAX] {
        let mut out = Vec::new();
        write_u64(x, &mut out);
        assert_eq!(out, x.encode());
    }
}

#[test]
fn compact_length_is_written_as_the_codec_crate_writes_it() {
    for n in [0u32, 1, 2, 63, 64, 100, 16_383, 16_384, 70_000, 0x3fff_ffff, 0x4000_0000, u32::MAX] {
        assert_eq!(compact(n), Compact(n).encode());
    }
}

#[test]
fn compact_length_is_read_as_the_codec_crate_reads_it() {
    let inputs: Vec<Vec<u8>> = vec![
        vec![],
        vec![0x00],
        vec![0xfc, 0x01],
        vec![0x01, 0x01],
        vec![0x05, 0x00],
        vec![0xfd, 0x00],
        vec![0xfd, 0xff],
        vec![0x01],
        vec![0x02, 0x00, 0x01, 0x00],
        vec![0x06, 0x00, 0x00, 0x00],
        vec![0xfe, 0xff, 0x00, 0x00],
        vec![0xfe, 0xff, 0xff, 0xff, 0x11],
        vec![0x02, 0x00, 0x01],
        vec![0x03, 0x00, 0x00, 0x00, 0x40],
        vec![0x03, 0x01, 0x00, 0x00, 0x00],
        vec![0x03, 0xff, 0xff, 0xff, 0x3f],
        vec![0x03, 0xff, 0xff, 0xff, 0xff, 0x22],
        vec![0x03, 0x00, 0x00, 0x00],
        vec![0x07, 0x00, 0x00, 0x00, 0x00, 0x01],
        vec![0x0b, 0x00, 0x00, 0x00, 0x00, 0x00, 0x01],
        vec![0xff, 0xff, 0xff, 0xff, 0xff, 0xff],
    ];
    for input in inputs {
        let mut rest: &[u8] = &input;
        let theirs = Compact::<u32>::decode(&mut rest).ok().map(|Compact(n)| {
            (n, input.len() - rest.len())
        });
        assert_eq!(read_compact_u32(&input, 0), theirs, "input {:?}", input);
    }
}

#[test]
fn every_first_byte_is_read_as_the_codec_crate_reads_it() {
    for first in 0u8..=255 {
        for second in [0x00u8, 0x01, 0x3f, 0x40, 0xff] {
            let input = vec![first, second, 0x00, 0x01, 0x40, 0x99];
            let mut rest: &[u8] = &input;
            let theirs = Compact::<u32>::decode(&mut rest).ok().map(|Compact(n)| {
                (n, input.len() - rest.len())
            });
            assert_eq!(read_compact_u32(&input, 0), theirs, "input {:?}", input);
        }
    }
}
