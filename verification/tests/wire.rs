use nucleoid_backend::wire::{decode_frame, encode_frame, FrameDecoder, FrameError, MAX_FRAME_LENGTH};

#[test]
fn frame_is_length_then_body() {
    let frame = encode_frame(b"hello").unwrap();
    assert_eq!(frame, vec![0, 0, 0, 5, b'h', b'e', b'l', b'l', b'o']);
}

#[test]
fn frame_reads_back() {
    let frame = encode_frame(b"{\"type\":\"x\"}").unwrap();
    let (body, consumed) = decode_frame(&frame).unwrap().unwrap();
    assert_eq!(body, b"{\"type\":\"x\"}".to_vec());
    assert_eq!(consumed, frame.len());
}

#[test]
fn oversized_header_is_refused_without_a_body() {
    // 4 MiB + 1 declared, nothing of the body present.
    let header = [0x00, 0x40, 0x00, 0x01];
    assert_eq!(
        decode_frame(&header),
        Err(FrameError::FrameTooLarge { length: MAX_FRAME_LENGTH + 1 })
    );
    let mut decoder = FrameDecoder::new();
    decoder.extend(&header);
    assert_eq!(
        decoder.next_frame(),
        Err(FrameError::FrameTooLarge { length: MAX_FRAME_LENGTH + 1 })
    );
    assert_eq!(decoder.buffered(), 4);
}

#[test]
fn incomplete_frames_wait_for_more() {
    assert_eq!(decode_frame(&[]), Ok(None));
    assert_eq!(decode_frame(&[0, 0, 0]), Ok(None));
    assert_eq!(decode_frame(&[0, 0, 0, 2, b'a']), Ok(None));
    assert_eq!(decode_frame(&[0, 0, 0, 0]), Ok(Some((vec![], 4))));
    assert_eq!(decode_frame(&[0, 0, 0, 1, b'a', b'b']), Ok(Some((vec![b'a'], 5))));
}

#[test]
fn header_is_big_endian() {
    let body = vec![7u8; 0x010203];
    let frame = encode_frame(&body).unwrap();
    assert_eq!(frame[..4], [0x00, 0x01, 0x02, 0x03]);
    assert_eq!(frame.len(), 4 + 0x010203);
    assert_eq!(decode_frame(&frame), Ok(Some((body, 4 + 0x010203))));
}

#[test]
fn largest_frame_is_accepted_and_one_more_byte_is_not() {
    let body = vec![0u8; MAX_FRAME_LENGTH];
    let frame = encode_frame(&body).unwrap();
    assert_eq!(frame[..4], [0x00, 0x40, 0x00, 0x00]);
    assert_eq!(decode_frame(&frame).unwrap().unwrap().1, 4 + MAX_FRAME_LENGTH);
    let body = vec![0u8; MAX_FRAME_LENGTH + 1];
    assert_eq!(
        encode_frame(&body),
        Err(FrameError::FrameTooLarge { length: MAX_FRAME_LENGTH + 1 })
    );
    assert_eq!(
        decode_frame(&[0xff, 0xff, 0xff, 0xff, 1, 2, 3]),
        Err(FrameError::FrameTooLarge { length: 0xffff_ffff })
    );
}

#[test]
fn frames_come_out_in_order_from_a_stream_in_pieces() {
    let mut stream = encode_frame(b"first").unwrap();
    stream.extend(encode_frame(b"").unwrap());
    stream.extend(encode_frame(b"third").unwrap());
    let mut decoder = FrameDecoder::new();
    let mut frames = Vec::new();
    for piece in stream.chunks(3) {
        decoder.extend(piece);
        while let Some(frame) = decoder.next_frame().unwrap() {
            frames.push(frame);
        }
    }
    assert_eq!(frames, vec![b"first".to_vec(), b"".to_vec(), b"third".to_vec()]);
    assert_eq!(decoder.buffered(), 0);
    assert_eq!(decoder.next_frame(), Ok(None));
}
