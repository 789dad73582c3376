use vi_tg::imgsniff::{
    cleanup_decision, is_valid_image_header, str_has_prefix, str_has_suffix, CleanupDecision,
};

#[test]
fn the_four_image_headers_are_recognised() {
    let jpeg = vec![0xff, 0xd8, 0xff, 0xe0, 0, 0, 0, 0, 0, 0, 0, 0];
    assert!(is_valid_image_header(&jpeg));
    let png = vec![0x89, 0x50, 0x4e, 0x47, 0x0d, 0x0a, 0x1a, 0x0a, 0, 0, 0, 0];
    assert!(is_valid_image_header(&png));
    let gif = vec![0x47, 0x49, 0x46, 0x38, 0x39, 0x61, 0, 0, 0, 0, 0, 0];
    assert!(is_valid_image_header(&gif));
    let webp = vec![0x52, 0x49, 0x46, 0x46, 1, 2, 3, 4, 0x57, 0x45, 0x42, 0x50];
    assert!(is_valid_image_header(&webp));
}

#[test]
fn other_bytes_are_not_images() {
    let text = vec![b'h', b'e', b'l', b'l', b'o', 0, 0, 0, 0, 0, 0, 0];
    assert!(!is_valid_image_header(&text));
    let empty: Vec<u8> = Vec::new();
    assert!(!is_valid_image_header(&empty));
    // RIFF without the WEBP tag (a WAV file, say) is not an image
    let wav = vec![0x52, 0x49, 0x46, 0x46, 1, 2, 3, 4, 0x57, 0x41, 0x56, 0x45];
    assert!(!is_valid_image_header(&wav));
}

#[test]
fn short_headers_still_match_when_the_magic_fits() {
    let jpeg_only = vec![0xff, 0xd8];
    assert!(is_valid_image_header(&jpeg_only));
    let png_cut = vec![0x89, 0x50, 0x4e, 0x47];
    assert!(!is_valid_image_header(&png_cut));
}

#[test]
fn prefix_and_suffix_checks_compare_contents() {
    assert!(str_has_prefix("vi-tg_image_5.png", "vi-tg_image_"));
    assert!(!str_has_prefix("vi-tg_other_5.png", "vi-tg_image_"));
    assert!(!str_has_prefix("vi", "vi-tg_image_"));
    assert!(str_has_suffix("a.png", ".png"));
    assert!(!str_has_suffix("a.png", ".jpg"));
    assert!(!str_has_suffix("g", ".png"));
}

#[test]
fn cleanup_only_touches_preview_files() {
    assert_eq!(cleanup_decision("notes.txt", 10), CleanupDecision::Ignore);
    assert_eq!(cleanup_decision("vi-tg_image_1.txt", 10), CleanupDecision::Ignore);
    assert_eq!(cleanup_decision("other_image_1.png", 10), CleanupDecision::Ignore);
}

#[test]
fn small_previews_are_removed_and_large_ones_inspected() {
    assert_eq!(cleanup_decision("vi-tg_image_1.png", 99), CleanupDecision::RemoveSmall);
    assert_eq!(cleanup_decision("vi-tg_image_1.png", 100), CleanupDecision::Inspect);
    assert_eq!(cleanup_decision("vi-tg_image_2.jpeg", 5000), CleanupDecision::Inspect);
    assert_eq!(cleanup_decision("vi-tg_image_2.webp", 0), CleanupDecision::RemoveSmall);
    assert_eq!(cleanup_decision("vi-tg_image_2.gif", 101), CleanupDecision::Inspect);
    assert_eq!(cleanup_decision("vi-tg_image_2.jpg", 3), CleanupDecision::RemoveSmall);
}
