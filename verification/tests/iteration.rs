use iio_buffer::{Buffer, Channel, Sample};

fn drain<T: Sample>(buf: &Buffer, chan: &Channel, limit: usize) -> Vec<T> {
    let mut it = buf.channel_iter::<T>(chan);
    let mut out = Vec::new();
    while out.len() < limit {
        match it.next() {
            Some(v) => out.push(v),
            None => break,
        }
    }
    out
}

#[test]
fn four_samples_of_one_channel() {
    let mut buf = Buffer::new(4, 4).unwrap();
    assert_eq!(buf.capacity(), 4);
    let values: [i32; 4] = [10, 20, 30, 40];
    for (i, v) in values.iter().enumerate() {
        assert!(buf.store(i * 4, &v.to_le_bytes()));
    }
    let chan = Channel { first: 0 };
    let mut it = buf.channel_iter::<i32>(&chan);
    assert_eq!(it.next(), Some(10));
    assert_eq!(it.next(), Some(20));
    assert_eq!(it.next(), Some(30));
    assert_eq!(it.next(), Some(40));
    assert_eq!(it.next(), None);
    assert_eq!(it.next(), None);
}

#[test]
fn exactly_as_many_samples_as_frames() {
    for n in 0..6usize {
        let mut buf = Buffer::new(8, 4).unwrap();
        let fresh: Vec<u8> = (0..(n * 4)).map(|i| i as u8).collect();
        assert_eq!(buf.refill((n * 4) as isize, &fresh), Ok(n * 4));
        let chan = Channel { first: 2 };
        let mut it = buf.channel_iter::<u16>(&chan);
        for k in 0..n {
            assert!(it.has_next());
            let lo = (k * 4 + 2) as u16;
            let hi = (k * 4 + 3) as u16;
            assert_eq!(it.next(), Some(lo + 256 * hi));
        }
        assert!(!it.has_next());
        assert_eq!(it.next(), None);
        assert_eq!(it.next(), None);
    }
}

#[test]
fn an_exhausted_cursor_stays_exhausted_and_a_new_one_starts_over() {
    let mut buf = Buffer::new(2, 1).unwrap();
    assert!(buf.store(0, &[3, 4]));
    let chan = Channel { first: 0 };
    let mut it = buf.channel_iter::<u8>(&chan);
    assert_eq!(it.next(), Some(3));
    assert_eq!(it.next(), Some(4));
    assert_eq!(it.next(), None);
    assert_eq!(it.next(), None);
    let mut again = buf.channel_iter::<u8>(&chan);
    assert_eq!(again.next(), Some(3));
}

#[test]
fn two_channels_are_told_apart() {
    let mut buf = Buffer::new(3, 8).unwrap();
    let a: [i16; 3] = [-1, 2, -3];
    let b: [i32; 3] = [100_000, -200_000, 300_000];
    for k in 0..3usize {
        assert!(buf.store(k * 8, &a[k].to_le_bytes()));
        assert!(buf.store(k * 8 + 4, &b[k].to_le_bytes()));
    }
    let chan_a = Channel { first: 0 };
    let chan_b = Channel { first: 4 };
    assert_eq!(drain::<i16>(&buf, &chan_a, 10), vec![-1i16, 2, -3]);
    assert_eq!(drain::<i32>(&buf, &chan_b, 10), vec![100_000i32, -200_000, 300_000]);
    let mut ia = buf.channel_iter::<i16>(&chan_a);
    let mut ib = buf.channel_iter::<i32>(&chan_b);
    assert_eq!(ia.next(), Some(-1));
    assert_eq!(ib.next(), Some(100_000));
    assert_eq!(ib.next(), Some(-200_000));
    assert_eq!(ia.next(), Some(2));
    assert_eq!(ia.next(), Some(-3));
    assert_eq!(ib.next(), Some(300_000));
    assert_eq!(ia.next(), None);
    assert_eq!(ib.next(), None);
}

#[test]
fn writing_one_channel_leaves_the_other() {
    let mut buf = Buffer::new(2, 4).unwrap();
    let chan_a = Channel { first: 0 };
    let chan_b = Channel { first: 2 };
    assert!(buf.store(0, &7u16.to_le_bytes()));
    assert!(buf.store(4, &8u16.to_le_bytes()));
    assert_eq!(drain::<u16>(&buf, &chan_b, 10), vec![0u16, 0]);
    assert!(buf.store(2, &0xffffu16.to_le_bytes()));
    assert!(buf.store(6, &0xfffeu16.to_le_bytes()));
    assert_eq!(drain::<u16>(&buf, &chan_a, 10), vec![7u16, 8]);
    assert_eq!(drain::<u16>(&buf, &chan_b, 10), vec![0xffffu16, 0xfffe]);
}

#[test]
fn iteration_stops_at_the_end_of_the_data() {
    let mut buf = Buffer::new(4, 4).unwrap();
    let fresh: Vec<u8> = vec![1, 0, 0, 0, 2, 0, 0, 0];
    assert_eq!(buf.refill(8, &fresh), Ok(8));
    let chan = Channel { first: 0 };
    assert_eq!(drain::<u32>(&buf, &chan, 10), vec![1u32, 2]);
}

#[test]
fn a_sample_cut_off_by_the_end_is_not_read() {
    let mut buf = Buffer::new(4, 4).unwrap();
    assert_eq!(buf.refill(6, &[1, 0, 0, 0, 2, 0]), Ok(6));
    let chan = Channel { first: 0 };
    assert_eq!(drain::<u32>(&buf, &chan, 10), vec![1u32]);
    assert_eq!(drain::<u16>(&buf, &chan, 10), vec![1u16, 2]);
}

#[test]
fn a_channel_beyond_the_data_has_no_samples() {
    let buf = Buffer::new(2, 2).unwrap();
    assert_eq!(drain::<u8>(&buf, &Channel { first: 4 }, 10), Vec::<u8>::new());
    assert_eq!(drain::<u8>(&buf, &Channel { first: usize::MAX }, 10), Vec::<u8>::new());
    assert_eq!(drain::<u16>(&buf, &Channel { first: 3 }, 10), Vec::<u16>::new());
}

#[test]
fn the_cursor_moves_by_whole_samples() {
    let mut buf = Buffer::new(2, 6).unwrap();
    let bytes: Vec<u8> = (1..=12).collect();
    assert!(buf.store(0, &bytes));
    let chan = Channel { first: 0 };
    // Six bytes hold one whole sample of four: the cursor moves by four.
    assert_eq!(
        drain::<u32>(&buf, &chan, 10),
        vec![0x04030201u32, 0x08070605, 0x0c0b0a09]
    );
}

#[test]
fn a_sample_wider_than_the_stride_pins_the_cursor() {
    let mut buf = Buffer::new(4, 2).unwrap();
    assert!(buf.store(0, &[1, 2, 3, 4, 5, 6, 7, 8]));
    let chan = Channel { first: 0 };
    assert_eq!(drain::<u32>(&buf, &chan, 3), vec![0x04030201u32; 3]);
}

#[test]
fn unsigned_samples_are_little_endian() {
    let mut buf = Buffer::new(1, 8).unwrap();
    assert!(buf.store(0, &[0x01, 0x02, 0x03, 0x04, 0x05, 0x06, 0x07, 0x88]));
    let chan = Channel { first: 0 };
    assert_eq!(buf.channel_iter::<u8>(&chan).next(), Some(0x01));
    assert_eq!(buf.channel_iter::<u16>(&chan).next(), Some(0x0201));
    assert_eq!(buf.channel_iter::<u32>(&chan).next(), Some(0x04030201));
    assert_eq!(buf.channel_iter::<u64>(&chan).next(), Some(0x8807060504030201));
}

#[test]
fn signed_samples_are_twos_complement() {
    let mut buf = Buffer::new(1, 8).unwrap();
    assert!(buf.store(0, &[0xfe, 0xff, 0xff, 0xff, 0xff, 0xff, 0xff, 0xff]));
    let chan = Channel { first: 0 };
    assert_eq!(buf.channel_iter::<i8>(&chan).next(), Some(-2));
    assert_eq!(buf.channel_iter::<i16>(&chan).next(), Some(-2));
    assert_eq!(buf.channel_iter::<i32>(&chan).next(), Some(-2));
    assert_eq!(buf.channel_iter::<i64>(&chan).next(), Some(-2));
    assert!(buf.store(0, &[0x00, 0x00, 0x00, 0x00, 0x00, 0x00, 0x00, 0x80]));
    assert_eq!(buf.channel_iter::<i64>(&chan).next(), Some(i64::MIN));
    assert_eq!(buf.channel_iter::<i8>(&Channel { first: 7 }).next(), Some(i8::MIN));
    assert_eq!(buf.channel_iter::<i16>(&Channel { first: 6 }).next(), Some(i16::MIN));
    assert_eq!(buf.channel_iter::<i32>(&Channel { first: 4 }).next(), Some(i32::MIN));
    assert!(buf.store(0, &[0xff, 0xff, 0xff, 0xff, 0xff, 0xff, 0xff, 0x7f]));
    assert_eq!(buf.channel_iter::<i64>(&chan).next(), Some(i64::MAX));
    assert_eq!(buf.channel_iter::<i8>(&Channel { first: 7 }).next(), Some(i8::MAX));
    assert_eq!(buf.channel_iter::<i16>(&Channel { first: 6 }).next(), Some(i16::MAX));
    assert_eq!(buf.channel_iter::<i32>(&Channel { first: 4 }).next(), Some(i32::MAX));
}

#[test]
fn decoding_agrees_with_the_machine() {
    let bytes: [u8; 8] = [0x10, 0x32, 0x54, 0x76, 0x98, 0xba, 0xdc, 0xfe];
    assert_eq!(<u8 as Sample>::decode(&bytes[..1]), u8::from_le_bytes([0x10]));
    assert_eq!(<i8 as Sample>::decode(&bytes[7..]), i8::from_le_bytes([0xfe]));
    assert_eq!(<u16 as Sample>::decode(&bytes[..2]), u16::from_le_bytes([0x10, 0x32]));
    assert_eq!(<i16 as Sample>::decode(&bytes[6..]), i16::from_le_bytes([0xdc, 0xfe]));
    assert_eq!(<u32 as Sample>::decode(&bytes[4..]), u32::from_le_bytes([0x98, 0xba, 0xdc, 0xfe]));
    assert_eq!(<i32 as Sample>::decode(&bytes[4..]), i32::from_le_bytes([0x98, 0xba, 0xdc, 0xfe]));
    assert_eq!(<u64 as Sample>::decode(&bytes), u64::from_le_bytes(bytes));
    assert_eq!(<i64 as Sample>::decode(&bytes), i64::from_le_bytes(bytes));
    assert_eq!(<u8 as Sample>::size(), 1);
    assert_eq!(<i16 as Sample>::size(), 2);
    assert_eq!(<i32 as Sample>::size(), 4);
    assert_eq!(<u64 as Sample>::size(), 8);
}
