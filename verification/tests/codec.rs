use etherip::etherip::{
    DefaultBuilder, DefaultParser, EtherIpBuilder, EtherIpParser, ETHERIP_HEADER_SIZE,
    ETHERIP_MAX_DATAGRAM_SIZE, ETHERIP_MIN_DATAGRAM_SIZE, ETHERNET_CRC_SIZE, ETHERNET_HEADER_SIZE,
    ETHERNET_MAX_FRAME_SIZE, ETHERNET_MAX_MTU, ETHERNET_MIN_FRAME_SIZE, ETHERNET_MIN_MTU,
    IPPROTO_ETHERIP,
};

fn frame(len: usize) -> Vec<u8> {
    (0..len).map(|i| (i * 7 + 3) as u8).collect()
}

fn build<const N: usize>(builder: &mut EtherIpBuilder<N>, frame: &[u8]) {
    let (len, buf) = builder.ethernet_mut();
    buf[..frame.len()].copy_from_slice(frame);
    *len = frame.len();
}

fn receive<const N: usize>(parser: &mut EtherIpParser<N>, datagram: &[u8]) {
    let (len, buf) = parser.etherip_mut();
    buf[..datagram.len()].copy_from_slice(datagram);
    *len = datagram.len();
}

#[test]
fn constants_have_their_values() {
    assert_eq!(IPPROTO_ETHERIP, 97);
    assert_eq!(ETHERNET_HEADER_SIZE, 14);
    assert_eq!(ETHERNET_CRC_SIZE, 4);
    assert_eq!(ETHERNET_MIN_MTU, 64);
    assert_eq!(ETHERNET_MAX_MTU, 9216);
    assert_eq!(ETHERIP_HEADER_SIZE, 2);
    assert_eq!(ETHERNET_MIN_FRAME_SIZE, 82);
    assert_eq!(ETHERNET_MAX_FRAME_SIZE, 9234);
    assert_eq!(ETHERIP_MIN_DATAGRAM_SIZE, 84);
    assert_eq!(ETHERIP_MAX_DATAGRAM_SIZE, 9236);
}

#[test]
fn new_builder_holds_header_and_empty_frame() {
    let mut builder = EtherIpBuilder::<128>::new_zeroed();
    assert!(builder.build_etherip().is_none());
    let (len, buf) = builder.ethernet_mut();
    assert_eq!(*len, 0);
    assert_eq!(buf.len(), 126);
    assert!(buf.iter().all(|b| *b == 0));
}

#[test]
fn new_parser_has_received_nothing() {
    let mut parser = EtherIpParser::<128>::new_zeroed();
    assert!(parser.parse_ethernet().is_none());
    let (len, buf) = parser.etherip_mut();
    assert_eq!(*len, 0);
    assert_eq!(buf.len(), 128);
    assert!(buf.iter().all(|b| *b == 0));
}

#[test]
fn emitted_datagram_starts_with_header_and_has_frame_length_plus_two() {
    let mut builder = DefaultBuilder::new_zeroed();
    let e = frame(100);
    build(&mut builder, &e);
    let datagram = builder.build_etherip().expect("a frame of 100 bytes can be sent");
    assert_eq!(datagram.len(), 102);
    assert_eq!(datagram[0], 0x30);
    assert_eq!(datagram[1], 0x00);
    assert_eq!(&datagram[2..], &e[..]);
}

#[test]
fn builder_emits_only_sizes_the_buffer_can_carry() {
    let mut builder = EtherIpBuilder::<200>::new_zeroed();
    for (frame_len, emitted) in [
        (0usize, false),
        (81, false),
        (82, true),
        (150, true),
        (198, true),
        (199, false),
        (200, false),
        (usize::MAX - 1, false),
        (usize::MAX, false),
    ] {
        let (len, _) = builder.ethernet_mut();
        *len = frame_len;
        let datagram = builder.build_etherip();
        assert_eq!(datagram.is_some(), emitted, "frame length {frame_len}");
        if let Some(d) = datagram {
            assert_eq!(d.len(), frame_len + 2);
        }
    }
}

#[test]
fn parser_gives_the_bytes_behind_the_header() {
    let mut parser = DefaultParser::new_zeroed();
    let mut datagram = vec![0x30, 0x00];
    let e = frame(90);
    datagram.extend_from_slice(&e);
    receive(&mut parser, &datagram);
    let got = parser.parse_ethernet().expect("a valid datagram");
    assert_eq!(got.len() + 2, datagram.len());
    assert_eq!(got, &e[..]);
}

#[test]
fn parser_takes_only_sizes_of_a_datagram() {
    let mut parser = EtherIpParser::<200>::new_zeroed();
    {
        let (_, buf) = parser.etherip_mut();
        buf[0] = 0x30;
        buf[1] = 0x00;
    }
    for (received, parsed) in [
        (0usize, false),
        (2, false),
        (83, false),
        (84, true),
        (200, true),
        (201, false),
        (9236, false),
        (usize::MAX, false),
    ] {
        let (len, _) = parser.etherip_mut();
        *len = received;
        let frame = parser.parse_ethernet();
        assert_eq!(frame.is_some(), parsed, "received {received}");
        if let Some(f) = frame {
            assert_eq!(f.len(), received - 2);
        }
    }
}

#[test]
fn short_receive_is_no_datagram() {
    let mut parser = DefaultParser::new_zeroed();
    let mut datagram = vec![0x30, 0x00];
    datagram.extend_from_slice(&frame(ETHERIP_MIN_DATAGRAM_SIZE - 3));
    assert_eq!(datagram.len(), ETHERIP_MIN_DATAGRAM_SIZE - 1);
    receive(&mut parser, &datagram);
    assert!(parser.parse_ethernet().is_none());
}

#[test]
fn header_with_other_bits_is_no_datagram() {
    let e = frame(100);
    for header in [
        [0x31u8, 0x00u8],
        [0x70, 0x00],
        [0xb0, 0x00],
        [0xf0, 0x00],
        [0x3f, 0x00],
        [0x30, 0x01],
        [0x30, 0x80],
        [0x00, 0x00],
        [0x00, 0x30],
    ] {
        let mut parser = DefaultParser::new_zeroed();
        let mut datagram = header.to_vec();
        datagram.extend_from_slice(&e);
        receive(&mut parser, &datagram);
        assert!(parser.parse_ethernet().is_none(), "header {header:02x?}");
    }
    let mut parser = DefaultParser::new_zeroed();
    let mut datagram = vec![0x30, 0x00];
    datagram.extend_from_slice(&e);
    receive(&mut parser, &datagram);
    assert!(parser.parse_ethernet().is_some());
}

#[test]
fn build_then_parse_gives_the_frame_back() {
    for len in [
        ETHERNET_MIN_FRAME_SIZE,
        ETHERNET_MIN_FRAME_SIZE + 1,
        1514,
        ETHERNET_MAX_FRAME_SIZE - 1,
        ETHERNET_MAX_FRAME_SIZE,
    ] {
        let e = frame(len);
        let mut builder = DefaultBuilder::new_zeroed();
        build(&mut builder, &e);
        let datagram = builder.build_etherip().expect("a legal frame size").to_vec();
        assert_eq!(datagram.len(), len + 2);
        let mut parser = DefaultParser::new_zeroed();
        receive(&mut parser, &datagram);
        assert_eq!(parser.parse_ethernet(), Some(&e[..]), "frame length {len}");
    }
}

#[test]
fn builder_is_reused_across_frames() {
    let mut builder = DefaultBuilder::new_zeroed();
    let first = frame(300);
    build(&mut builder, &first);
    assert_eq!(builder.build_etherip().map(|d| d.len()), Some(302));
    let second = vec![0xeeu8; 90];
    build(&mut builder, &second);
    let datagram = builder.build_etherip().expect("a frame of 90 bytes");
    assert_eq!(datagram.len(), 92);
    assert_eq!(&datagram[..2], &[0x30, 0x00]);
    assert_eq!(&datagram[2..], &second[..]);
}

#[test]
fn copies_of_a_buffer_are_independent() {
    let mut builder = EtherIpBuilder::<128>::new_zeroed();
    build(&mut builder, &frame(100));
    let copy = builder;
    build(&mut builder, &[0u8; 90]);
    assert_eq!(copy.build_etherip().map(|d| d.len()), Some(102));
    assert_eq!(builder.build_etherip().map(|d| d.len()), Some(92));
}
