use ipv6_compression::{
    DocumentationForm, Ipv6Address, Ipv6Compressor, LinkLocalForm, Violation,
};

fn round_trip(segments: [u16; 8]) -> [u16; 8] {
    let compressor = Ipv6Compressor::new();
    let record = compressor.compress(Ipv6Address::new(segments), Some(8080)).unwrap();
    let (ip, port) = compressor.decompress(&record).unwrap();
    assert_eq!(port, Some(8080));
    ip.segments()
}

fn link_local(data: &[u8]) -> Result<[u16; 8], Violation> {
    Ipv6Compressor::decompress_link_local(data).map(|ip| ip.segments()).map_err(|e| e.violation())
}

fn documentation(data: &[u8]) -> Result<[u16; 8], Violation> {
    Ipv6Compressor::decompress_documentation(data)
        .map(|ip| ip.segments())
        .map_err(|e| e.violation())
}

#[test]
fn link_local_zero_interface_identifier() {
    let ip = Ipv6Address::new([0xfe80, 0, 0, 0, 0, 0, 0, 0]);
    let record = Ipv6Compressor::compress_link_local(ip, None).unwrap();
    assert_eq!(record.compressed_data, vec![0, 0, 0, 0, 0, 0]);
    assert_eq!(record.compressed_bits, 48);
    assert_eq!(round_trip(ip.segments()), ip.segments());
}

#[test]
fn link_local_single_small_segment_at_each_position() {
    for position in 0..4usize {
        let mut segments = [0xfe80, 0, 0, 0, 0, 0, 0, 0];
        segments[4 + position] = 0xff;
        let record =
            Ipv6Compressor::compress_link_local(Ipv6Address::new(segments), None).unwrap();
        assert_eq!(record.compressed_data, vec![1, position as u8, 0xff, 0, 0, 0]);
        assert_eq!(record.compressed_bits, 48);
        assert_eq!(round_trip(segments), segments);
    }
}

#[test]
fn link_local_single_large_segment_takes_the_general_form() {
    let segments = [0xfe80, 0, 0, 0, 0, 0, 0, 0x0100];
    let record = Ipv6Compressor::compress_link_local(Ipv6Address::new(segments), None).unwrap();
    assert_eq!(record.compressed_data, vec![3, 3, 0x01, 0x00, 255]);
    assert_eq!(record.compressed_bits, 3 + 5 * 8);
    assert_eq!(round_trip(segments), segments);
}

#[test]
fn link_local_eui64_with_small_segment_six() {
    let segments = [0xfe80, 0, 0, 0, 0x0211, 0x22ff, 0x0044, 0];
    let record = Ipv6Compressor::compress_link_local(Ipv6Address::new(segments), None).unwrap();
    assert_eq!(record.compressed_data, vec![2, 0x11, 0x02, 0xff, 0x22, 0x44]);
    assert_eq!(record.compressed_bits, 48);
    assert_eq!(round_trip(segments), segments);
}

#[test]
fn link_local_eui64_keeps_the_low_byte_of_segment_six() {
    let segments = [0xfe80, 0, 0, 0, 0x0211, 0x22ff, 0xfe33, 0];
    let record = Ipv6Compressor::compress_link_local(Ipv6Address::new(segments), None).unwrap();
    assert_eq!(record.compressed_data, vec![2, 0x11, 0x02, 0xff, 0x22, 0x33]);
    assert_eq!(round_trip(segments), [0xfe80, 0, 0, 0, 0x0211, 0x22ff, 0x0033, 0]);
}

#[test]
fn link_local_eui64_needs_segment_seven_zero() {
    let segments = [0xfe80, 0, 0, 0, 0x0211, 0x22ff, 0xfe33, 0x4455];
    let record = Ipv6Compressor::compress_link_local(Ipv6Address::new(segments), None).unwrap();
    assert_eq!(
        record.compressed_data,
        vec![3, 0, 0x02, 0x11, 1, 0x22, 0xff, 2, 0xfe, 0x33, 3, 0x44, 0x55, 255]
    );
    assert_eq!(record.compressed_bits, 3 + 14 * 8);
    assert_eq!(round_trip(segments), segments);
}

#[test]
fn link_local_general_form_skips_zero_segments() {
    let segments = [0xfe80, 0, 0, 0, 0, 0x1234, 0, 0x5678];
    let record = Ipv6Compressor::compress_link_local(Ipv6Address::new(segments), None).unwrap();
    assert_eq!(record.compressed_data, vec![3, 1, 0x12, 0x34, 3, 0x56, 0x78, 255]);
    assert_eq!(record.compressed_bits, 3 + 8 * 8);
    assert_eq!(round_trip(segments), segments);
}

#[test]
fn link_local_prefix_is_not_stored() {
    let segments = [0xfebf, 1, 2, 3, 0, 0, 0, 1];
    assert_eq!(round_trip(segments), [0xfe80, 0, 0, 0, 0, 0, 0, 1]);
}

#[test]
fn link_local_decoding() {
    assert_eq!(link_local(&[0]), Ok([0xfe80, 0, 0, 0, 0, 0, 0, 0]));
    assert_eq!(link_local(&[0, 7, 7]), Ok([0xfe80, 0, 0, 0, 0, 0, 0, 0]));
    assert_eq!(link_local(&[1, 2, 9]), Ok([0xfe80, 0, 0, 0, 0, 0, 9, 0]));
    assert_eq!(link_local(&[1, 4, 9]), Ok([0xfe80, 0, 0, 0, 0, 0, 0, 0]));
    assert_eq!(
        link_local(&[2, 0x11, 0x00, 0xff, 0x22, 0x33]),
        Ok([0xfe80, 0, 0, 0, 0x0211, 0x22ff, 0x0033, 0])
    );
    assert_eq!(link_local(&[3, 255]), Ok([0xfe80, 0, 0, 0, 0, 0, 0, 0]));
    assert_eq!(
        link_local(&[3, 2, 0xab, 0xcd, 0, 0x00, 0x01, 255, 1, 1, 1]),
        Ok([0xfe80, 0, 0, 0, 1, 0, 0xabcd, 0])
    );
    assert_eq!(link_local(&[3, 9, 0xab, 0xcd, 255]), Ok([0xfe80, 0, 0, 0, 0, 0, 0, 0]));
}

#[test]
fn link_local_decoding_failures() {
    assert_eq!(link_local(&[]), Err(Violation::EmptyPayload));
    assert_eq!(link_local(&[4]), Err(Violation::Marker(4)));
    assert_eq!(link_local(&[255, 0, 0, 0, 0, 0]), Err(Violation::Marker(255)));
    assert_eq!(link_local(&[1]), Err(Violation::Truncated));
    assert_eq!(link_local(&[1, 0]), Err(Violation::Truncated));
    assert_eq!(link_local(&[2, 1, 2, 3, 4]), Err(Violation::Truncated));
    assert_eq!(link_local(&[3]), Err(Violation::Truncated));
    assert_eq!(link_local(&[3, 0, 1]), Err(Violation::Truncated));
    assert_eq!(link_local(&[3, 0, 0, 1]), Err(Violation::Truncated));
    assert_eq!(link_local(&[3, 0, 0, 1, 1, 0]), Err(Violation::Truncated));
}

#[test]
fn unique_local_keeps_four_segments() {
    let ip = Ipv6Address::new([0xfd12, 0x3456, 0x789a, 0xbcde, 1, 2, 3, 4]);
    let record = Ipv6Compressor::compress_unique_local(ip, Some(1)).unwrap();
    assert_eq!(record.compressed_data, vec![0xfd, 0x12, 0x34, 0x56, 0x78, 0x9a, 0xbc, 0xde]);
    assert_eq!(record.compressed_bits, 67);
    assert_eq!(record.port, Some(1));
    assert_eq!(round_trip(ip.segments()), [0xfd12, 0x3456, 0x789a, 0xbcde, 0, 0, 0, 0]);
    let zero_interface = [0xfd12, 0x3456, 0x789a, 0xbcde, 0, 0, 0, 0];
    assert_eq!(round_trip(zero_interface), zero_interface);
}

#[test]
fn unique_local_decoding() {
    let long: Vec<u8> = vec![0xfc, 0, 0, 1, 0, 2, 0, 3, 0, 4, 0, 5, 0, 6, 0x12, 0x34];
    assert_eq!(
        Ipv6Compressor::decompress_unique_local(&long).unwrap().segments(),
        [0xfc00, 1, 2, 3, 4, 5, 6, 0x1234]
    );
    assert_eq!(
        Ipv6Compressor::decompress_unique_local(&long[..8]).unwrap().segments(),
        [0xfc00, 1, 2, 3, 0, 0, 0, 0]
    );
    for length in [0usize, 1, 7, 9, 15] {
        assert_eq!(
            Ipv6Compressor::decompress_unique_local(&long[..length]).unwrap_err().violation(),
            Violation::PayloadLength(length)
        );
    }
    assert_eq!(
        Ipv6Compressor::decompress_unique_local(&[0; 17]).unwrap_err().violation(),
        Violation::PayloadLength(17)
    );
}

#[test]
fn documentation_forms() {
    let zero = [0x2001, 0x0db8, 0x85a3, 0x0001, 0, 0, 0, 0];
    let record = Ipv6Compressor::compress_documentation(Ipv6Address::new(zero), None).unwrap();
    assert_eq!(record.compressed_data, vec![0x85, 0xa3, 0x00, 0x01, 0]);
    assert_eq!(record.compressed_bits, 40);
    assert_eq!(round_trip(zero), zero);

    let single = [0x2001, 0x0db8, 0, 0, 0, 0x00fe, 0, 0];
    let record = Ipv6Compressor::compress_documentation(Ipv6Address::new(single), None).unwrap();
    assert_eq!(record.compressed_data, vec![0, 0, 0, 0, 1, 1, 0xfe]);
    assert_eq!(record.compressed_bits, 56);
    assert_eq!(round_trip(single), single);

    let general = [0x2001, 0x0db8, 0x85a3, 0, 0, 0x8a2e, 0x0370, 0x7334];
    let record = Ipv6Compressor::compress_documentation(Ipv6Address::new(general), None).unwrap();
    assert_eq!(
        record.compressed_data,
        vec![0x85, 0xa3, 0, 0, 2, 1, 0x8a, 0x2e, 2, 0x03, 0x70, 3, 0x73, 0x34, 255]
    );
    assert_eq!(record.compressed_bits, 120);
    assert_eq!(round_trip(general), general);

    let full = [0x2001, 0x0db8, 1, 2, 0x0103, 0x0104, 0x0105, 0x0106];
    let record = Ipv6Compressor::compress_documentation(Ipv6Address::new(full), None).unwrap();
    assert_eq!(record.compressed_data.len(), 18);
    assert_eq!(record.compressed_bits, 144);
    assert_eq!(round_trip(full), full);
}

#[test]
fn documentation_decoding() {
    assert_eq!(documentation(&[0, 1, 0, 2, 0]), Ok([0x2001, 0x0db8, 1, 2, 0, 0, 0, 0]));
    assert_eq!(documentation(&[0, 1, 0, 2, 1, 3, 7]), Ok([0x2001, 0x0db8, 1, 2, 0, 0, 0, 7]));
    assert_eq!(documentation(&[0, 1, 0, 2, 1, 200, 7]), Ok([0x2001, 0x0db8, 1, 2, 0, 0, 0, 0]));
    assert_eq!(documentation(&[0, 1, 0, 2, 2, 255]), Ok([0x2001, 0x0db8, 1, 2, 0, 0, 0, 0]));
    assert_eq!(
        documentation(&[0, 1, 0, 2, 2, 0, 0xaa, 0xbb, 255]),
        Ok([0x2001, 0x0db8, 1, 2, 0xaabb, 0, 0, 0])
    );
    assert_eq!(documentation(&[]), Err(Violation::PayloadLength(0)));
    assert_eq!(documentation(&[0, 1, 0, 2]), Err(Violation::PayloadLength(4)));
    assert_eq!(documentation(&[0, 1, 0, 2, 3]), Err(Violation::Marker(3)));
    assert_eq!(documentation(&[0, 1, 0, 2, 1, 0]), Err(Violation::Truncated));
    assert_eq!(documentation(&[0, 1, 0, 2, 2]), Err(Violation::Truncated));
    assert_eq!(documentation(&[0, 1, 0, 2, 2, 0, 0xaa]), Err(Violation::Truncated));
    assert_eq!(documentation(&[0, 1, 0, 2, 2, 0, 0xaa, 0xbb]), Err(Violation::Truncated));
}

#[test]
fn provider_patterns() {
    let google = [0x2001, 0x4860, 1, 2, 3, 4, 5, 6];
    assert_eq!(
        Ipv6Compressor::try_provider_patterns(&google),
        Some(vec![0, 0, 1, 0, 2, 0, 3, 0, 4, 0, 5, 0, 6])
    );
    let hurricane = [0x2001, 0x0470, 0x1f0b, 0, 0, 0, 0, 2];
    assert_eq!(
        Ipv6Compressor::try_provider_patterns(&hurricane),
        Some(vec![1, 0x1f, 0x0b, 0, 0, 0, 0, 0, 0, 0, 0, 0, 2])
    );
    let comcast = [0x2001, 0x0558, 0xfeed, 0, 0, 0, 0, 1];
    assert_eq!(
        Ipv6Compressor::try_provider_patterns(&comcast),
        Some(vec![2, 0xfe, 0xed, 0, 0, 0, 0, 0, 0, 0, 0, 0, 1])
    );
    assert_eq!(Ipv6Compressor::try_provider_patterns(&[0x2001, 0x4861, 0, 0, 0, 0, 0, 0]), None);
    assert_eq!(Ipv6Compressor::try_provider_patterns(&[0x2002, 0x4860, 0, 0, 0, 0, 0, 0]), None);
    assert_eq!(Ipv6Compressor::provider_prefix_of(0), Some((0x2001, 0x4860)));
    assert_eq!(Ipv6Compressor::provider_prefix_of(1), Some((0x2001, 0x0470)));
    assert_eq!(Ipv6Compressor::provider_prefix_of(2), Some((0x2001, 0x0558)));
    assert_eq!(Ipv6Compressor::provider_prefix_of(3), None);
    for segments in [google, hurricane, comcast] {
        let record =
            Ipv6Compressor::compress_global_unicast(Ipv6Address::new(segments), None).unwrap();
        assert_eq!(record.compressed_data.len(), 13);
        assert_eq!(record.compressed_bits, 51);
        assert_eq!(round_trip(segments), segments);
    }
}

#[test]
fn global_unicast_decoding() {
    let with_pattern: Vec<u8> = vec![1, 0, 1, 0, 2, 0, 3, 0, 4, 0, 5, 0, 6];
    assert_eq!(
        Ipv6Compressor::decompress_global_unicast(&with_pattern).unwrap().segments(),
        [0x2001, 0x0470, 1, 2, 3, 4, 5, 6]
    );
    let verbatim: Vec<u8> = vec![0x2a, 0x00, 0x14, 0x50, 0, 1, 0, 2, 0, 3, 0, 4, 0, 5, 0xab, 0xcd];
    assert_eq!(
        Ipv6Compressor::decompress_global_unicast(&verbatim).unwrap().segments(),
        [0x2a00, 0x1450, 1, 2, 3, 4, 5, 0xabcd]
    );
    let unknown: Vec<u8> = vec![3, 0, 1, 0, 2, 0, 3, 0, 4, 0, 5, 0, 6];
    assert_eq!(
        Ipv6Compressor::decompress_global_unicast(&unknown).unwrap_err().violation(),
        Violation::ProviderPattern(3)
    );
    for length in [0usize, 12, 14, 15, 17] {
        assert_eq!(
            Ipv6Compressor::decompress_global_unicast(&vec![0; length]).unwrap_err().violation(),
            Violation::PayloadLength(length)
        );
    }
}

#[test]
fn special_decoding() {
    let mut data: Vec<u8> = vec![0xff, 0x02, 0, 0, 0, 0, 0, 0, 0, 0, 0, 0, 0, 1, 0xff, 0x00];
    assert_eq!(
        Ipv6Compressor::decompress_special(&data).unwrap().segments(),
        [0xff02, 0, 0, 0, 0, 0, 1, 0xff00]
    );
    data.push(9);
    assert_eq!(
        Ipv6Compressor::decompress_special(&data).unwrap().segments(),
        [0xff02, 0, 0, 0, 0, 0, 1, 0xff00]
    );
    assert_eq!(
        Ipv6Compressor::decompress_special(&data[..15]).unwrap_err().violation(),
        Violation::PayloadLength(15)
    );
    assert_eq!(
        Ipv6Compressor::decompress_special(&[]).unwrap_err().violation(),
        Violation::PayloadLength(0)
    );
}

#[test]
fn single_addresses_ignore_their_payload() {
    assert_eq!(
        Ipv6Compressor::decompress_loopback(&[]).unwrap().segments(),
        [0, 0, 0, 0, 0, 0, 0, 1]
    );
    assert_eq!(
        Ipv6Compressor::decompress_loopback(&[1, 2, 3]).unwrap().segments(),
        [0, 0, 0, 0, 0, 0, 0, 1]
    );
    assert_eq!(Ipv6Compressor::decompress_unspecified(&[1, 2, 3]).unwrap().segments(), [0; 8]);
    let any = Ipv6Address::new([1, 2, 3, 4, 5, 6, 7, 8]);
    assert_eq!(
        Ipv6Compressor::compress_loopback(any, None).unwrap().compressed_data,
        vec![0, 0, 1, 0, 0, 0]
    );
    assert_eq!(
        Ipv6Compressor::compress_unspecified(any, None).unwrap().compressed_data,
        vec![0, 0, 0, 0, 0, 0]
    );
    assert_eq!(
        Ipv6Compressor::compress_special(any, None).unwrap().compressed_data,
        vec![0, 1, 0, 2, 0, 3, 0, 4, 0, 5, 0, 6, 0, 7, 0, 8]
    );
}

#[test]
fn forms_are_chosen_in_the_order_of_the_markers() {
    assert_eq!(LinkLocalForm::of(&[0xfe80, 0, 0, 0, 0, 0, 0, 0]), LinkLocalForm::Zero);
    assert_eq!(LinkLocalForm::of(&[0xfe80, 0, 0, 0, 0, 0, 0xff, 0]), LinkLocalForm::SingleSmall);
    assert_eq!(LinkLocalForm::of(&[0xfe80, 0, 0, 0, 0, 0, 0x100, 0]), LinkLocalForm::General);
    assert_eq!(LinkLocalForm::of(&[0xfe80, 0, 0, 0, 0x0200, 0, 0, 0]), LinkLocalForm::Eui64);
    assert_eq!(LinkLocalForm::of(&[0xfe80, 0, 0, 0, 0x0200, 0, 0, 1]), LinkLocalForm::General);
    assert_eq!(LinkLocalForm::of(&[0xfe80, 0, 0, 0, 0x0100, 1, 0, 0]), LinkLocalForm::General);
    assert_eq!(LinkLocalForm::of(&[0xfe80, 0, 0, 0, 1, 1, 0, 0]), LinkLocalForm::General);
    assert_eq!(DocumentationForm::of(&[0x2001, 0x0db8, 9, 9, 0, 0, 0, 0]), DocumentationForm::Zero);
    assert_eq!(
        DocumentationForm::of(&[0x2001, 0x0db8, 0, 0, 0xff, 0, 0, 0]),
        DocumentationForm::SingleSmall
    );
    assert_eq!(
        DocumentationForm::of(&[0x2001, 0x0db8, 0, 0, 0x0200, 0, 0, 0]),
        DocumentationForm::General
    );
    assert_eq!(
        DocumentationForm::of(&[0x2001, 0x0db8, 0, 0, 1, 0, 0, 1]),
        DocumentationForm::General
    );
}
