use inquire::Classification;
use inquire::FileData;
use inquire::Lstat;

const PNG_PREFIX: [u8; 8] = [0x89, 0x50, 0x4E, 0x47, 0x0D, 0x0A, 0x1A, 0x0A];
const ZIP_PREFIX: [u8; 4] = [0x50, 0x4B, 0x03, 0x04];

fn plain_file(magic_desc: Option<String>) -> FileData {
    let stat = Lstat::new(8, 0o100644, 1000, 1000, 0, 0, 8, 4096);
    FileData::new(String::from("/tmp/sample"), stat, magic_desc)
}

#[test]
fn fallback_sniffs_png() {
    let fd = plain_file(None);
    assert_eq!(fd.fallback_mime_type(&PNG_PREFIX), Some(String::from("image/png")));
}

#[test]
fn fallback_rejects_plain_text() {
    let fd = plain_file(None);
    assert_eq!(fd.fallback_mime_type(b"hello, world\n"), None);
}

#[test]
fn primary_takes_precedence() {
    let fd = plain_file(Some(String::from("PNG image data, 8-bit colormap")));
    assert_eq!(
        fd.classify(&PNG_PREFIX),
        Classification::Primary(String::from("PNG image data, 8-bit colormap"))
    );
}

#[test]
fn fallback_used_without_primary() {
    let fd = plain_file(None);
    assert_eq!(
        fd.classify(&PNG_PREFIX),
        Classification::Fallback(String::from("image/png"), String::from("png"))
    );
}

#[test]
fn unrecognized_without_either_engine() {
    let fd = plain_file(None);
    assert_eq!(fd.classify(b"just some text"), Classification::Unrecognized);
}

#[test]
fn classification_is_deterministic() {
    let fd = plain_file(Some(String::from("ASCII text")));
    assert_eq!(fd.classify(&PNG_PREFIX), fd.classify(&PNG_PREFIX));
    let bare = plain_file(None);
    assert_eq!(bare.classify(&PNG_PREFIX), bare.classify(&PNG_PREFIX));
}

#[test]
fn application_family_by_fallback_only() {
    let fd = plain_file(None);
    assert!(fd.is_application(&ZIP_PREFIX));
    assert!(!fd.is_application(&PNG_PREFIX));
    assert!(!fd.is_application(b"plain text"));
    // A primary description never changes the predicate's outcome.
    let with_primary = plain_file(Some(String::from("Zip archive data")));
    assert!(with_primary.is_application(&ZIP_PREFIX));
}

#[test]
fn libmagic_description_is_kept_verbatim() {
    let fd = plain_file(Some(String::from("ELF 64-bit LSB executable")));
    assert_eq!(fd.libmagic_mime_type(), Some(String::from("ELF 64-bit LSB executable")));
    assert_eq!(plain_file(None).libmagic_mime_type(), None);
}
