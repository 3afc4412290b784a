use kubgrupp::render::light_buffer::{
    decode_lights, encode_lights, light_buffer, DIRECTIONAL_LIGHT_TAG, LIGHT_RECORD_WORDS,
    POINT_LIGHT_TAG, TRIANGLE_LIGHT_TAG,
};
use kubgrupp::render::words::native_bytes;
use kubgrupp::scene::scenes::mesh::{Corners, Light, Vec3};

fn v(x: f32, y: f32, z: f32) -> Vec3 {
    Vec3 { x: x.to_bits(), y: y.to_bits(), z: z.to_bits() }
}

fn point() -> Light {
    Light::Point { color: v(1.0, 0.5, 0.25), position: v(-1.0, 2.0, 3.5) }
}

fn triangle() -> Light {
    Light::Triangle {
        color: v(0.1, 0.2, 0.3),
        vertices: Corners { a: v(0.0, 0.0, 0.0), b: v(1.0, 0.0, 0.0), c: v(0.0, 1.0, 0.0) },
    }
}

fn directional() -> Light {
    Light::Directional {
        color: v(1.0, 1.0, 1.0),
        position: v(0.0, 0.0, 5.0),
        direction: v(0.0, 0.0, -1.0),
        radius: 2.0f32.to_bits(),
    }
}

#[test]
fn point_light_record() {
    let words = encode_lights(&[point()]).unwrap();
    assert_eq!(words.len(), 1 + LIGHT_RECORD_WORDS);
    assert_eq!(words[0], 1);
    assert_eq!(words[1], POINT_LIGHT_TAG);
    assert_eq!(f32::from_bits(words[2]), 1.0);
    assert_eq!(f32::from_bits(words[3]), 0.5);
    assert_eq!(f32::from_bits(words[4]), 0.25);
    assert_eq!(f32::from_bits(words[5]), -1.0);
    assert_eq!(f32::from_bits(words[6]), 2.0);
    assert_eq!(f32::from_bits(words[7]), 3.5);
    assert!(words[8..17].iter().all(|w| *w == 0));
}

#[test]
fn triangle_light_record() {
    let words = encode_lights(&[triangle()]).unwrap();
    assert_eq!(words.len(), 17);
    assert_eq!(words[1], TRIANGLE_LIGHT_TAG);
    assert_eq!(f32::from_bits(words[2]), 0.1);
    assert!(words[5..8].iter().all(|w| *w == 0));
    assert_eq!(f32::from_bits(words[11]), 1.0);
    assert_eq!(f32::from_bits(words[15]), 1.0);
    assert_eq!(f32::from_bits(words[16]), 0.0);
}

#[test]
fn lights_round_trip() {
    let lights = vec![point(), triangle(), triangle(), point()];
    let words = encode_lights(&lights).unwrap();
    let decoded = decode_lights(&words).unwrap();
    assert_eq!(decoded.count, 4);
    assert_eq!(decoded.lights, lights);
}

#[test]
fn no_light_round_trips() {
    let words = encode_lights(&[]).unwrap();
    assert_eq!(words, vec![0]);
    let decoded = decode_lights(&words).unwrap();
    assert_eq!(decoded.count, 0);
    assert!(decoded.lights.is_empty());
}

#[test]
fn directional_light_record() {
    let words = encode_lights(&[directional()]).unwrap();
    assert_eq!(words.len(), 1 + LIGHT_RECORD_WORDS);
    assert_eq!(words[0], 1);
    assert_eq!(words[1], DIRECTIONAL_LIGHT_TAG);
    assert_eq!(words[1], 2);
    let floats: Vec<f32> = words[2..12].iter().map(|w| f32::from_bits(*w)).collect();
    assert_eq!(
        floats,
        vec![1.0, 1.0, 1.0, 0.0, 0.0, 5.0, 0.0, 0.0, -1.0, 2.0]
    );
    assert!(words[12..17].iter().all(|w| *w == 0));
}

#[test]
fn lights_of_every_kind_are_counted_and_recorded() {
    let lights = vec![point(), directional(), triangle()];
    let words = encode_lights(&lights).unwrap();
    assert_eq!(words.len(), 1 + 3 * 16);
    assert_eq!(words[0], 3);
    assert_eq!(words[1], POINT_LIGHT_TAG);
    assert_eq!(words[17], DIRECTIONAL_LIGHT_TAG);
    assert_eq!(words[33], TRIANGLE_LIGHT_TAG);
    let decoded = decode_lights(&words).unwrap();
    assert_eq!(decoded.count, 3);
    assert_eq!(decoded.lights, lights);
    let bytes = light_buffer(&lights).unwrap();
    assert_eq!(bytes.len(), 4 + 64 * 3);
    assert_eq!(&bytes[0..4], &3u32.to_ne_bytes());
}

#[test]
fn decoding_refuses_what_is_no_light_buffer() {
    assert!(decode_lights(&[]).is_none());
    assert!(decode_lights(&[1, 0, 0]).is_none());
    let mut words = encode_lights(&[point(), triangle()]).unwrap();
    assert!(decode_lights(&words[..words.len() - 1]).is_none());
    words[1] = 7;
    assert!(decode_lights(&words).is_none());
    let mut words = encode_lights(&[point()]).unwrap();
    words[16] = 1;
    assert!(decode_lights(&words).is_none());
    let mut words = encode_lights(&[triangle()]).unwrap();
    words[6] = 1;
    assert!(decode_lights(&words).is_none());
    let mut words = encode_lights(&[directional()]).unwrap();
    words[12] = 1;
    assert!(decode_lights(&words).is_none());
}

#[test]
fn light_buffer_is_the_words_in_host_order() {
    let lights = vec![point(), triangle()];
    let words = encode_lights(&lights).unwrap();
    let bytes = light_buffer(&lights).unwrap();
    assert_eq!(bytes.len(), 4 * words.len());
    for (i, w) in words.iter().enumerate() {
        assert_eq!(&bytes[4 * i..4 * i + 4], &w.to_ne_bytes());
    }
}

#[test]
fn native_bytes_are_not_the_words_themselves() {
    let bytes = native_bytes(&[0x0403_0201, 0x0807_0605]);
    assert_eq!(bytes.len(), 8);
    let le = vec![1u8, 2, 3, 4, 5, 6, 7, 8];
    let be = vec![4u8, 3, 2, 1, 8, 7, 6, 5];
    assert!(bytes == le || bytes == be);
    assert!(native_bytes(&[]).is_empty());
}
