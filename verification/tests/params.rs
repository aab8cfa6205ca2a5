use raytracer::params::{
    IParams, ACCUMULATED_FRAMES_OFFSET, CAMERA_DIR_OFFSET, CAMERA_POS_OFFSET, HEIGHT_OFFSET,
    LIGHT_DIR_OFFSET, PARAMS_BYTES, PARAMS_WORDS, RANDOM_SEED_OFFSET, SPHERE_COUNT_OFFSET,
    TRIANGLE_MESH_COUNT_OFFSET, WIDTH_OFFSET,
};
use raytracer::scalar::Scalar;
use raytracer::vector::{Mat3, Vec3};

fn s(x: f32) -> Scalar {
    Scalar::from_bits(x.to_bits())
}

fn v3(x: f32, y: f32, z: f32) -> Vec3 {
    Vec3::new(s(x), s(y), s(z))
}

fn sample() -> IParams {
    IParams {
        camera_pos: v3(0.0, 0.0, 5.0),
        random_seed: s(0.625),
        camera_dir: Mat3::from_cols(v3(1.0, 2.0, 3.0), v3(4.0, 5.0, 6.0), v3(7.0, 8.0, 9.0)),
        light_dir: v3(0.25, -0.5, 0.75),
        accumulated_frames: 42,
        width: 1280,
        height: 720,
        triangle_mesh_count: 1,
        sphere_count: 6,
    }
}

fn float_at(bytes: &[u8], at: usize) -> f32 {
    f32::from_le_bytes([bytes[at], bytes[at + 1], bytes[at + 2], bytes[at + 3]])
}

fn word_at(bytes: &[u8], at: usize) -> u32 {
    u32::from_le_bytes([bytes[at], bytes[at + 1], bytes[at + 2], bytes[at + 3]])
}

#[test]
fn decoding_gives_back_what_was_encoded() {
    let p = sample();
    let decoded = IParams::decode(&p.encode()).unwrap();
    assert_eq!(decoded, p);
    assert_eq!(decoded.camera_pos, v3(0.0, 0.0, 5.0));
    assert_eq!(decoded.accumulated_frames, 42);
    assert_eq!(decoded.sphere_count, 6);
    assert_eq!(decoded.triangle_mesh_count, 1);
}

#[test]
fn decoding_keeps_every_bit() {
    let p = IParams {
        camera_pos: v3(f32::NAN, -0.0, f32::INFINITY),
        random_seed: Scalar::from_bits(0xFFFF_FFFF),
        camera_dir: Mat3::from_cols(
            v3(f32::MIN, f32::MAX, 1.0e-45),
            v3(-1.0, 0.0, 1.0),
            v3(0.1, 0.2, 0.3),
        ),
        light_dir: v3(0.0, 1.0, 0.0),
        accumulated_frames: u32::MAX,
        width: 0,
        height: u32::MAX,
        triangle_mesh_count: 0x0102_0304,
        sphere_count: 0x8000_0000,
    };
    assert_eq!(IParams::decode(&p.encode()), Some(p));
}

#[test]
fn fields_stand_at_their_offsets() {
    let bytes = sample().encode();
    assert_eq!(bytes.len(), 96);
    assert_eq!(PARAMS_BYTES, 96);
    assert_eq!(PARAMS_WORDS, 24);
    assert_eq!(float_at(&bytes, CAMERA_POS_OFFSET), 0.0);
    assert_eq!(float_at(&bytes, CAMERA_POS_OFFSET + 8), 5.0);
    assert_eq!(float_at(&bytes, RANDOM_SEED_OFFSET), 0.625);
    assert_eq!(float_at(&bytes, CAMERA_DIR_OFFSET), 1.0);
    assert_eq!(float_at(&bytes, CAMERA_DIR_OFFSET + 8), 3.0);
    assert_eq!(word_at(&bytes, CAMERA_DIR_OFFSET + 12), 0);
    assert_eq!(float_at(&bytes, CAMERA_DIR_OFFSET + 16), 4.0);
    assert_eq!(word_at(&bytes, CAMERA_DIR_OFFSET + 28), 0);
    assert_eq!(float_at(&bytes, CAMERA_DIR_OFFSET + 32), 7.0);
    assert_eq!(float_at(&bytes, CAMERA_DIR_OFFSET + 40), 9.0);
    assert_eq!(word_at(&bytes, CAMERA_DIR_OFFSET + 44), 0);
    assert_eq!(float_at(&bytes, LIGHT_DIR_OFFSET), 0.25);
    assert_eq!(float_at(&bytes, LIGHT_DIR_OFFSET + 4), -0.5);
    assert_eq!(float_at(&bytes, LIGHT_DIR_OFFSET + 8), 0.75);
    assert_eq!(word_at(&bytes, ACCUMULATED_FRAMES_OFFSET), 42);
    assert_eq!(word_at(&bytes, WIDTH_OFFSET), 1280);
    assert_eq!(word_at(&bytes, HEIGHT_OFFSET), 720);
    assert_eq!(word_at(&bytes, TRIANGLE_MESH_COUNT_OFFSET), 1);
    assert_eq!(word_at(&bytes, SPHERE_COUNT_OFFSET), 6);
    assert_eq!(&bytes[76..80], &[42, 0, 0, 0]);
    assert_eq!(&bytes[80..84], &[0, 5, 0, 0]);
    assert_eq!(
        [
            CAMERA_POS_OFFSET,
            RANDOM_SEED_OFFSET,
            CAMERA_DIR_OFFSET,
            LIGHT_DIR_OFFSET,
            ACCUMULATED_FRAMES_OFFSET,
            WIDTH_OFFSET,
            HEIGHT_OFFSET,
            TRIANGLE_MESH_COUNT_OFFSET,
            SPHERE_COUNT_OFFSET
        ],
        [0, 12, 16, 64, 76, 80, 84, 88, 92]
    );
}

#[test]
fn words_are_the_bytes_in_fours() {
    let p = sample();
    let words = p.to_words();
    assert_eq!(words.len(), 24);
    assert_eq!(words[2], 5.0f32.to_bits());
    assert_eq!(words[7], 0);
    assert_eq!(words[19], 42);
    assert_eq!(words[23], 6);
    assert_eq!(raytracer::layout::words_to_bytes(&words), p.encode());
}

#[test]
fn other_lengths_do_not_decode() {
    let bytes = sample().encode();
    assert_eq!(IParams::decode(&bytes[..95]), None);
    assert_eq!(IParams::decode(&[]), None);
    let mut longer = bytes.clone();
    longer.push(0);
    assert_eq!(IParams::decode(&longer), None);
    longer.extend_from_slice(&[0, 0, 0]);
    assert_eq!(IParams::decode(&longer), None);
}

#[test]
fn padding_is_not_read() {
    let mut bytes = sample().encode();
    for at in [28, 29, 30, 31, 44, 47, 60, 63] {
        bytes[at] = 0xAB;
    }
    assert_eq!(IParams::decode(&bytes), Some(sample()));
    bytes[76] = 43;
    assert_eq!(IParams::decode(&bytes).unwrap().accumulated_frames, 43);
}
