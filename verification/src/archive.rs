//! Deterministic assembly of the theme archive.
//!
//! The archive is built entirely in memory: a flat, compressed archive
//! holding the manifest, the video asset and the poster image under their
//! fixed canonical names. The outside compression crate stamps a fixed
//! default timestamp, so the archive bytes are a function of the entries,
//! and writes to an in-memory cursor cannot fail.

use vstd::prelude::*;
use vstd::utf8::encode_utf8;

verus! {

/// An in-memory archive writer of the outside compression crate.
///
/// The writer's type itself cannot be declared to the verifier (its bounds
/// are unsupported I/O traits), so it is held opaquely in this struct.
#[verifier::external_body]
pub struct ZipBuilder {
    inner: zip::ZipWriter<std::io::Cursor<Vec<u8>>>,
}

/// The named entries an in-memory archive writer holds so far, in order.
pub uninterp spec fn zip_entries(w: ZipBuilder) -> Seq<(Seq<char>, Seq<u8>)>;

/// The bytes of the finished archive holding the given entries.
pub uninterp spec fn zip_encoding(entries: Seq<(Seq<char>, Seq<u8>)>) -> Seq<u8>;

/// Relies on `zip::ZipWriter::new` over an in-memory cursor: a fresh
/// archive writer holds no entries.
#[verifier::external_body]
fn zip_new() -> (w: ZipBuilder)
    ensures
        zip_entries(w) == Seq::<(Seq<char>, Seq<u8>)>::empty(),
{
    ZipBuilder { inner: zip::ZipWriter::new(std::io::Cursor::new(Vec::new())) }
}

/// Relies on `zip::ZipWriter::start_file` and `std::io::Write::write_all`:
/// one deflate-compressed entry with the given name and bytes is appended
/// after the existing entries. For a name short enough for the format's
/// 16-bit name-length field and not already in the archive, starting the
/// entry cannot fail; with the large-file option set the entry may exceed
/// 4 GiB, and writing to the in-memory cursor cannot fail, so the call
/// succeeds for data of any length.
#[verifier::external_body]
fn zip_add(w: &mut ZipBuilder, name: &str, data: &[u8])
    requires
        name@.len() < 16384,
        forall|i: int|
            0 <= i < zip_entries(*old(w)).len() ==> #[trigger] zip_entries(*old(w))[i].0 != name@,
    ensures
        zip_entries(*final(w)) == zip_entries(*old(w)).push((name@, data@)),
{
    let opts = zip::write::SimpleFileOptions::default().compression_method(
        zip::CompressionMethod::Deflated,
    ).large_file(true);
    w.inner.start_file(name, opts).expect("fresh entry name on an in-memory archive");
    std::io::Write::write_all(&mut w.inner, data).expect("in-memory archive write");
}

/// Relies on `zip::ZipWriter::finish` and `std::io::Cursor::into_inner`:
/// the returned bytes are the finished archive of exactly the entries
/// written, with the writer's fixed default timestamp. Finishing an
/// in-memory archive whose entries were all written whole cannot fail.
#[verifier::external_body]
fn zip_finish(w: ZipBuilder) -> (r: Vec<u8>)
    ensures
        r@ == zip_encoding(zip_entries(w)),
{
    w.inner.finish().expect("in-memory archive finish").into_inner()
}

/// The fixed, flat layout of the theme bundle: the manifest, the video
/// asset and the poster image, each under its canonical name.
pub open spec fn bundle_entries(manifest: Seq<char>, video: Seq<u8>, poster: Seq<u8>) -> Seq<
    (Seq<char>, Seq<u8>),
> {
    seq![
        ("persona.ini"@, encode_utf8(manifest)),
        ("background.webm"@, video),
        ("first_frame_start_page.jpg"@, poster),
    ]
}

/// Assemble the theme archive bytes from the rendered manifest and the
/// two generated assets.
pub fn build_archive(manifest: &str, video: &Vec<u8>, poster: &Vec<u8>) -> (r: Vec<u8>)
    ensures
        r@ == zip_encoding(bundle_entries(manifest@, video@, poster@)),
{
    proof {
        reveal_strlit("persona.ini");
        reveal_strlit("background.webm");
        reveal_strlit("first_frame_start_page.jpg");
        assert("persona.ini"@.len() == 11);
        assert("background.webm"@.len() == 15);
        assert("first_frame_start_page.jpg"@.len() == 26);
    }
    let mut w = zip_new();
    zip_add(&mut w, "persona.ini", manifest.as_bytes());
    zip_add(&mut w, "background.webm", video.as_slice());
    zip_add(&mut w, "first_frame_start_page.jpg", poster.as_slice());
    let ghost want = bundle_entries(manifest@, video@, poster@);
    assert(zip_entries(w) =~= want);
    zip_finish(w)
}

} // verus!
