use jerry_client::serialization::framing::{
    deframe, frame, Deframed, FrameBuffer, Popped, LONGEST_BODY, VARINT_LIMIT,
};

#[test]
fn short_body_goes_behind_one_byte() {
    assert_eq!(frame(b"abc"), Some(vec![3, 97, 98, 99]));
    assert_eq!(frame(b""), Some(vec![0]));
    let body = vec![7u8; 127];
    let framed = frame(&body).unwrap();
    assert_eq!(framed[0], 127);
    assert_eq!(&framed[1..], &body[..]);
}

#[test]
fn longer_body_goes_behind_a_longer_length() {
    let body = vec![1u8; 128];
    let framed = frame(&body).unwrap();
    assert_eq!(&framed[..2], &[0x80, 0x01]);
    assert_eq!(&framed[2..], &body[..]);

    let body = vec![2u8; 300];
    let framed = frame(&body).unwrap();
    assert_eq!(&framed[..2], &[0xAC, 0x02]);
    assert_eq!(framed.len(), 302);

    let body = vec![3u8; 16_384];
    let framed = frame(&body).unwrap();
    assert_eq!(&framed[..3], &[0x80, 0x80, 0x01]);
    assert_eq!(framed.len(), 16_387);
}

#[test]
fn limits_are_those_of_the_wire() {
    assert_eq!(VARINT_LIMIT, 10);
    assert_eq!(LONGEST_BODY, u32::MAX as usize);
}

#[test]
fn framed_message_is_found_again() {
    for len in [0usize, 1, 5, 127, 128, 129, 300, 16_383, 16_384, 70_000] {
        let body: Vec<u8> = (0..len).map(|i| (i % 251) as u8).collect();
        let mut buf = frame(&body).unwrap();
        let end = buf.len();
        buf.extend_from_slice(b"what follows");
        match deframe(&buf) {
            Deframed::Complete { start, end: found_end } => {
                assert_eq!(found_end, end);
                assert_eq!(&buf[start..found_end], &body[..]);
            }
            other => panic!("no message found: {:?}", other),
        }
    }
}

#[test]
fn part_of_a_message_is_no_message() {
    let body: Vec<u8> = (0..300usize).map(|i| i as u8).collect();
    let framed = frame(&body).unwrap();
    for cut in 0..framed.len() {
        assert_eq!(deframe(&framed[..cut]), Deframed::Incomplete);
    }
    assert_eq!(deframe(&framed), Deframed::Complete { start: 2, end: 302 });
    assert_eq!(deframe(&[]), Deframed::Incomplete);
    assert_eq!(deframe(&[0x80]), Deframed::Incomplete);
    assert_eq!(deframe(&[0x80; 9]), Deframed::Incomplete);
}

#[test]
fn length_that_does_not_end_is_malformed() {
    assert_eq!(deframe(&[0x80; 10]), Deframed::Malformed);
    assert_eq!(deframe(&[0xFF; 11]), Deframed::Malformed);
    let mut long = vec![0x80u8; 10];
    long.push(0x00);
    assert_eq!(deframe(&long), Deframed::Malformed);
}

#[test]
fn length_may_be_spelled_with_more_bytes_than_it_needs() {
    assert_eq!(deframe(&[0x83, 0x00, 1, 2, 3, 4]), Deframed::Complete { start: 2, end: 5 });
    assert_eq!(
        deframe(&[0x81, 0x80, 0x80, 0x00, 9]),
        Deframed::Complete { start: 4, end: 5 }
    );
}

#[test]
fn length_keeps_its_low_64_bits() {
    // the tenth byte reaches beyond the 64 bits: only its lowest bit counts
    let mut wrapped = vec![0x80u8; 9];
    wrapped.push(0x02);
    wrapped.extend_from_slice(b"next");
    assert_eq!(deframe(&wrapped), Deframed::Complete { start: 10, end: 10 });
    let mut huge = vec![0x80u8; 9];
    huge.push(0x01);
    huge.extend_from_slice(b"next");
    assert_eq!(deframe(&huge), Deframed::Incomplete);
    let mut three = vec![0x83u8];
    three.extend_from_slice(&[0x80; 8]);
    three.push(0x7E);
    three.extend_from_slice(b"next");
    assert_eq!(deframe(&three), Deframed::Complete { start: 10, end: 13 });
}

#[test]
fn messages_come_off_the_buffer_one_by_one() {
    let first: Vec<u8> = b"first".to_vec();
    let second: Vec<u8> = vec![9u8; 200];
    let mut stream = frame(&first).unwrap();
    stream.extend(frame(&second).unwrap());
    stream.extend(frame(b"").unwrap());

    for piece in [1usize, 2, 3, 7, 64, 1000] {
        let mut buffer = FrameBuffer::new();
        let mut bodies = Vec::new();
        for chunk in stream.chunks(piece) {
            buffer.push(chunk);
            loop {
                match buffer.pop() {
                    Popped::Frame(body) => bodies.push(body),
                    Popped::Incomplete => break,
                    Popped::Malformed => panic!("the stream is well formed"),
                }
            }
        }
        assert_eq!(bodies, vec![first.clone(), second.clone(), Vec::new()]);
        assert_eq!(buffer.pop(), Popped::Incomplete);
    }
}

#[test]
fn malformed_bytes_stay_in_the_buffer() {
    let mut buffer = FrameBuffer::new();
    assert_eq!(buffer.pop(), Popped::Incomplete);
    buffer.push(&[0x80; 9]);
    assert_eq!(buffer.pop(), Popped::Incomplete);
    buffer.push(&[0x80]);
    assert_eq!(buffer.pop(), Popped::Malformed);
    assert_eq!(buffer.pop(), Popped::Malformed);
}

#[test]
fn lengths_are_read_and_written_as_protobuf_does() {
    let mut state: u64 = 0x2545_F491_4F6C_DD1D;
    let mut next = move || {
        state ^= state << 13;
        state ^= state >> 7;
        state ^= state << 17;
        state
    };
    let mut complete = 0;
    let mut incomplete = 0;
    let mut malformed = 0;
    for _ in 0..20_000 {
        let len = (next() % 14) as usize;
        // every third input leans towards lengths that go on and on
        let ends = if next() % 3 == 0 { 32 } else { 4 };
        let mut bytes = Vec::with_capacity(len);
        for _ in 0..len {
            let roll = next();
            let byte = match roll % ends {
                0 => (roll >> 8) as u8 & 0x0F,
                1 => (roll >> 8) as u8,
                _ => 0x80 | ((roll >> 8) as u8 & 0x7F),
            };
            bytes.push(byte);
        }
        let mut stream = protobuf::CodedInputStream::from_bytes(&bytes);
        let expected = match stream.read_raw_varint64() {
            Ok(value) => {
                let start = stream.pos() as usize;
                if (bytes.len() - start) as u64 >= value {
                    complete += 1;
                    Deframed::Complete { start, end: start + value as usize }
                } else {
                    incomplete += 1;
                    Deframed::Incomplete
                }
            }
            Err(protobuf::ProtobufError::WireError(protobuf::error::WireError::IncorrectVarint)) => {
                malformed += 1;
                Deframed::Malformed
            }
            Err(_) => {
                incomplete += 1;
                Deframed::Incomplete
            }
        };
        assert_eq!(deframe(&bytes), expected, "bytes {:?}", bytes);
    }
    assert!(complete > 500);
    assert!(incomplete > 500);
    assert!(malformed > 100);

    for len in [0usize, 1, 127, 128, 129, 255, 256, 16_383, 16_384, 70_000] {
        let body = vec![0x5Au8; len];
        let mut expected = Vec::new();
        {
            let mut stream = protobuf::CodedOutputStream::vec(&mut expected);
            stream.write_raw_varint32(len as u32).unwrap();
            stream.flush().unwrap();
        }
        expected.extend_from_slice(&body);
        assert_eq!(frame(&body), Some(expected), "length {}", len);
    }
}
