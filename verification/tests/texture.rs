use qr_clipboard_preview::bitmap::{load_bmp_image, PixelBuffer};
use qr_clipboard_preview::texture::{Sampling, TextureCache, UploadRequest};
use qr_code::bmp_monochrome::Bmp;

fn picture(rows: Vec<Vec<bool>>) -> PixelBuffer {
    load_bmp_image(&Bmp::new(rows).unwrap()).unwrap()
}

fn first_picture() -> PixelBuffer {
    picture(vec![vec![true, false], vec![false, false]])
}

fn other_picture() -> PixelBuffer {
    picture(vec![vec![false, true, true], vec![true, true, false], vec![false, false, true]])
}

#[test]
fn new_cache_awaits_its_texture() {
    let cache: TextureCache<u32> = TextureCache::new();
    assert_eq!(cache, TextureCache::AwaitingTexture);
    assert!(!cache.is_ready());
    assert_eq!(cache.texture(), None);
}

#[test]
fn awaiting_cache_asks_for_a_nearest_upload_of_the_picture() {
    let cache: TextureCache<u32> = TextureCache::new();
    assert_eq!(
        cache.request_upload(first_picture()),
        Some(UploadRequest { buffer: first_picture(), sampling: Sampling::Nearest })
    );
    assert!(!cache.is_ready());
}

#[test]
fn upload_outcome_makes_the_cache_ready() {
    let mut cache: TextureCache<u32> = TextureCache::new();
    cache.complete_upload(Some(7));
    assert!(cache.is_ready());
    assert_eq!(cache, TextureCache::Ready { texture: Some(7) });
    assert_eq!(cache.texture(), Some(&7));
}

#[test]
fn ready_cache_keeps_its_handle() {
    let mut cache: TextureCache<u32> = TextureCache::new();
    assert!(cache.request_upload(first_picture()).is_some());
    cache.complete_upload(Some(7));

    assert_eq!(cache.request_upload(first_picture()), None);
    cache.complete_upload(Some(8));
    assert_eq!(cache.texture(), Some(&7));

    assert_eq!(cache.request_upload(other_picture()), None);
    cache.complete_upload(Some(9));
    assert_eq!(cache.texture(), Some(&7));
    assert_eq!(cache, TextureCache::Ready { texture: Some(7) });
}

#[test]
fn failed_upload_is_not_tried_again() {
    let mut cache: TextureCache<u32> = TextureCache::new();
    cache.complete_upload(None);
    assert!(cache.is_ready());
    assert_eq!(cache.texture(), None);

    assert_eq!(cache.request_upload(first_picture()), None);
    cache.complete_upload(Some(3));
    assert_eq!(cache, TextureCache::Ready { texture: None });
    assert_eq!(cache.texture(), None);
}
