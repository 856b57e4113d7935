use gemini_bridge::attachment::{
    create_app_icon, encode_image, has_valid_size, icon_from_decoded, load_image_from_bytes,
    AppIcon, EncodeError, ImagePayload,
};

fn two_by_two() -> ImagePayload {
    ImagePayload {
        width: 2,
        height: 2,
        pixels: vec![255, 0, 0, 255, 0, 255, 0, 128, 0, 0, 255, 0, 10, 20, 30, 40],
    }
}

fn decode_base64(text: &str) -> Vec<u8> {
    base64::Engine::decode(&base64::engine::general_purpose::STANDARD, text).unwrap()
}

#[test]
fn encode_round_trip_two_by_two() {
    let image = two_by_two();
    let text = encode_image(&image).unwrap();
    let png = decode_base64(&text);
    assert_eq!(&png[..8], &[0x89, b'P', b'N', b'G', 0x0D, 0x0A, 0x1A, 0x0A]);
    let decoded = image::load_from_memory(&png).unwrap().to_rgba8();
    assert_eq!(decoded.width(), 2);
    assert_eq!(decoded.height(), 2);
    assert_eq!(decoded.into_raw(), image.pixels);
}

#[test]
fn encoded_text_is_base64_of_a_png() {
    let text = encode_image(&two_by_two()).unwrap();
    assert!(text.starts_with("iVBORw0KGgo"));
    assert!(text.chars().all(|c| c.is_ascii_alphanumeric() || c == '+' || c == '/' || c == '='));
    assert_eq!(text.len() % 4, 0);
}

#[test]
fn encode_rejects_wrong_buffer_length() {
    let short = ImagePayload { width: 2, height: 2, pixels: vec![0; 15] };
    assert_eq!(encode_image(&short), Err(EncodeError::SizeMismatch));
    let long = ImagePayload { width: 2, height: 2, pixels: vec![0; 17] };
    assert_eq!(encode_image(&long), Err(EncodeError::SizeMismatch));
    let huge = ImagePayload { width: u32::MAX, height: u32::MAX, pixels: vec![0; 4] };
    assert_eq!(encode_image(&huge), Err(EncodeError::SizeMismatch));
}

#[test]
fn encode_of_empty_image_is_refused_by_the_encoder() {
    let empty = ImagePayload { width: 0, height: 0, pixels: vec![] };
    assert!(has_valid_size(&empty));
    assert!(matches!(encode_image(&empty), Err(EncodeError::Encoder(_))));
}

#[test]
fn valid_size() {
    assert!(has_valid_size(&two_by_two()));
    assert!(!has_valid_size(&ImagePayload { width: 1, height: 1, pixels: vec![0; 3] }));
    assert!(has_valid_size(&ImagePayload { width: 3, height: 1, pixels: vec![0; 12] }));
}

#[test]
fn load_image_reads_what_encode_wrote() {
    let image = two_by_two();
    let png = decode_base64(&encode_image(&image).unwrap());
    assert_eq!(load_image_from_bytes(&png), Ok(image.pixels));
}

#[test]
fn load_image_refuses_what_is_no_image() {
    assert!(load_image_from_bytes(b"this is no image").is_err());
    assert!(load_image_from_bytes(&[]).is_err());
}

#[test]
fn app_icon_takes_the_declared_size() {
    let image = two_by_two();
    let png = decode_base64(&encode_image(&image).unwrap());
    let icon = create_app_icon(&png, 32, 32).unwrap();
    assert_eq!(icon.width, 32);
    assert_eq!(icon.height, 32);
    assert_eq!(icon.rgba, image.pixels);
    assert!(create_app_icon(b"nothing", 32, 32).is_err());
}

#[test]
fn image_clone_is_equal() {
    let image = two_by_two();
    assert_eq!(image.clone(), image);
}

#[test]
fn icon_of_what_the_decoder_gave() {
    assert_eq!(
        icon_from_decoded(Ok(vec![1, 2, 3, 4]), 32, 16),
        Ok(AppIcon { rgba: vec![1, 2, 3, 4], width: 32, height: 16 })
    );
    assert_eq!(icon_from_decoded(Ok(vec![]), 0, 0), Ok(AppIcon { rgba: vec![], width: 0, height: 0 }));
    assert_eq!(
        icon_from_decoded(Err("no image here".to_string()), 32, 32),
        Err("no image here".to_string())
    );
}

#[test]
fn encoder_refusal_carries_the_encoder_message() {
    let no_width = ImagePayload { width: 0, height: 3, pixels: vec![] };
    let no_height = ImagePayload { width: 3, height: 0, pixels: vec![] };
    let first = encode_image(&no_width);
    let again = encode_image(&no_width);
    assert_eq!(first, again);
    match (first, encode_image(&no_height)) {
        (Err(EncodeError::Encoder(a)), Err(EncodeError::Encoder(b))) => {
            assert!(a.to_lowercase().contains("width"));
            assert!(b.to_lowercase().contains("height"));
        }
        other => panic!("{:?}", other),
    }
}

#[test]
fn base64_of_known_bytes() {
    let one = ImagePayload { width: 1, height: 1, pixels: vec![0, 0, 0, 0] };
    let text = encode_image(&one).unwrap();
    let png = base64::Engine::decode(&base64::engine::general_purpose::STANDARD, &text).unwrap();
    assert_eq!(base64::Engine::encode(&base64::engine::general_purpose::STANDARD, &png), text);
    let padding = match png.len() % 3 {
        0 => "",
        1 => "==",
        _ => "=",
    };
    assert!(text.ends_with(padding));
    assert_eq!(text.len(), (png.len() + 2) / 3 * 4);
    assert_eq!(&text[..4], "iVBO");
}
