use player::error::LoadError;
use player::wav::{decode, keep_read, SampleData, WavHeader};

fn image(channels: u16, sample_rate: u32, bits: u16, samples: &[i32]) -> Vec<u8> {
    let spec = hound::WavSpec {
        channels,
        sample_rate,
        bits_per_sample: bits,
        sample_format: hound::SampleFormat::Int,
    };
    let mut cursor = std::io::Cursor::new(Vec::new());
    {
        let mut writer = hound::WavWriter::new(&mut cursor, spec).unwrap();
        for s in samples {
            writer.write_sample(*s).unwrap();
        }
        writer.finalize().unwrap();
    }
    cursor.into_inner()
}

#[test]
fn decode_reads_a_16_bit_mono_image() {
    let bytes = image(1, 44_100, 16, &[2, -3, 5, -7]);
    let wave = decode(&bytes).unwrap();
    assert_eq!(
        wave.header,
        WavHeader { channels: 1, sample_rate: 44_100, bits_per_sample: 16, sample_count: 4 }
    );
    match wave.samples {
        SampleData::Narrow(v) => assert_eq!(v, vec![2i16, -3, 5, -7]),
        SampleData::Wide(_) => panic!("samples of 16 bits are narrow"),
    }
}

#[test]
fn decode_reads_a_16_bit_stereo_image() {
    let bytes = image(2, 48_000, 16, &[1, -1, 32_767, -32_768]);
    let wave = decode(&bytes).unwrap();
    assert_eq!(wave.header.channels, 2);
    assert_eq!(wave.header.sample_rate, 48_000);
    assert_eq!(wave.header.sample_count, 4);
    assert_eq!(wave.samples.len(), 4);
    assert_eq!(wave.samples.amplitude(0), 65_536);
    assert_eq!(wave.samples.amplitude(1), -65_536);
    assert_eq!(wave.samples.amplitude(2), 32_767 * 65_536);
    assert_eq!(wave.samples.amplitude(3), -2_147_483_648);
}

#[test]
fn decode_reads_an_8_bit_image() {
    let bytes = image(1, 8_000, 8, &[127, -128, 0]);
    let wave = decode(&bytes).unwrap();
    assert_eq!(wave.header.bits_per_sample, 8);
    match wave.samples {
        SampleData::Narrow(v) => assert_eq!(v, vec![127i16, -128, 0]),
        SampleData::Wide(_) => panic!("samples of 8 bits are narrow"),
    }
}

#[test]
fn decode_reads_a_24_bit_image() {
    let bytes = image(1, 96_000, 24, &[8_388_607, -8_388_608, 12]);
    let wave = decode(&bytes).unwrap();
    assert_eq!(wave.header.bits_per_sample, 24);
    assert_eq!(wave.header.sample_count, 3);
    match wave.samples {
        SampleData::Wide(v) => assert_eq!(v, vec![8_388_607, -8_388_608, 12]),
        SampleData::Narrow(_) => panic!("samples of 24 bits are wide"),
    }
}

#[test]
fn decode_reads_a_32_bit_image() {
    let bytes = image(2, 44_100, 32, &[i32::MAX, i32::MIN, 7, -7]);
    let wave = decode(&bytes).unwrap();
    assert_eq!(wave.header.bits_per_sample, 32);
    assert_eq!(wave.samples.amplitude(0), 2_147_483_647);
    assert_eq!(wave.samples.amplitude(1), -2_147_483_648);
    assert_eq!(wave.samples.amplitude(3), -7);
}

#[test]
fn decode_reads_an_image_without_samples() {
    let bytes = image(2, 44_100, 16, &[]);
    let wave = decode(&bytes).unwrap();
    assert_eq!(wave.header.sample_count, 0);
    assert_eq!(wave.samples.len(), 0);
}

#[test]
fn decode_refuses_what_is_no_wave_image() {
    assert_eq!(decode(&[]).err(), Some(LoadError::Undecodable));
    assert_eq!(decode(b"not a wave file at all").err(), Some(LoadError::Undecodable));
    let mut bytes = image(1, 44_100, 16, &[1, 2, 3]);
    bytes[0] = b'X';
    assert_eq!(decode(&bytes).err(), Some(LoadError::Undecodable));
}

#[test]
fn decode_leaves_out_samples_that_are_cut_off() {
    // The header still declares four samples, but the last one is gone.
    let mut bytes = image(1, 44_100, 16, &[10, 20, 30, 40]);
    bytes.truncate(bytes.len() - 2);
    let wave = decode(&bytes).unwrap();
    assert_eq!(wave.header.sample_count, 4);
    match wave.samples {
        SampleData::Narrow(v) => assert_eq!(v, vec![10i16, 20, 30]),
        SampleData::Wide(_) => panic!("samples of 16 bits are narrow"),
    }
}

#[test]
fn duration_is_samples_over_rate_and_channels() {
    let mono = decode(&image(1, 44_100, 16, &vec![0; 44_100])).unwrap();
    assert_eq!(mono.duration(), 1_000_000_000);
    let stereo = decode(&image(2, 8_000, 16, &vec![0; 4_000])).unwrap();
    assert_eq!(stereo.duration(), 250_000_000);
    let odd = decode(&image(1, 3, 16, &[0, 0])).unwrap();
    assert_eq!(odd.duration(), 666_666_666);
    let empty = decode(&image(1, 44_100, 16, &[])).unwrap();
    assert_eq!(empty.duration(), 0);
}

#[test]
fn keep_read_drops_the_gaps() {
    assert_eq!(keep_read(&vec![Some(1i16), None, Some(-2), None, None, Some(3)]), vec![1, -2, 3]);
    assert_eq!(keep_read(&vec![None::<i32>, None]), Vec::<i32>::new());
    assert_eq!(keep_read(&Vec::<Option<i32>>::new()), Vec::<i32>::new());
    assert_eq!(keep_read(&vec![Some(5i32)]), vec![5]);
}
