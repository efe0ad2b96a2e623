//! Names, paths and documents of the bundle.
//!
//! Renders decimal numerals, sanitizes the display name into an archive
//! file name, renders the bundle manifest, and builds the well-known
//! staging and destination paths.

use vstd::prelude::*;
use vstd::string::StrSliceExecFns;
use vstd::string::StringExecFns;
use crate::frac::chars_of;

verus! {

// ---------------------------------------------------------------------------
// Decimal numerals.
// ---------------------------------------------------------------------------

/// The ASCII character of one digit.
pub open spec fn digit_char(d: nat) -> char {
    ((48 + d) as u8) as char
}

/// The decimal numeral of `n`, most significant digit first.
pub open spec fn dec_digits(n: nat) -> Seq<char>
    decreases n,
{
    if n < 10 {
        seq![digit_char(n)]
    } else {
        dec_digits(n / 10).push(digit_char(n % 10))
    }
}

fn digit_char_of(d: u64) -> (c: char)
    requires
        d < 10,
    ensures
        c == digit_char(d as nat),
{
    (48 + d as u8) as char
}

/// The decimal digits of `n`, as characters.
pub fn u64_digits(n: u64) -> (v: Vec<char>)
    ensures
        v@ == dec_digits(n as nat),
    decreases n,
{
    if n < 10 {
        let mut v: Vec<char> = Vec::new();
        v.push(digit_char_of(n));
        v
    } else {
        let mut v = u64_digits(n / 10);
        v.push(digit_char_of(n % 10));
        v
    }
}

/// Collects characters into a string.
///
/// Relies on `String`'s `FromIterator<char>` implementation: the collected
/// string holds exactly the characters of the vector, in order.
#[verifier::external_body]
pub fn string_from_chars(v: &Vec<char>) -> (r: String)
    ensures
        r@ == v@,
{
    v.iter().collect()
}

/// The decimal numeral of `n`, as a string.
pub fn u64_string(n: u64) -> (r: String)
    ensures
        r@ == dec_digits(n as nat),
{
    let v = u64_digits(n);
    string_from_chars(&v)
}

// ---------------------------------------------------------------------------
// Display-name sanitization.
// ---------------------------------------------------------------------------

/// A character that may appear in the archive file name.
pub open spec fn keep_char(c: char) -> bool {
    ||| 97 <= c as u32 <= 122
    ||| 65 <= c as u32 <= 90
    ||| 48 <= c as u32 <= 57
    ||| c == '-'
    ||| c == '_'
}

/// Every character outside the kept set becomes an underscore.
pub open spec fn sanitize_map(s: Seq<char>) -> Seq<char> {
    Seq::new(s.len(), |i: int| if keep_char(s[i]) { s[i] } else { '_' })
}

/// The sanitized archive base name: the mapped name, or the fixed
/// placeholder when the display name is empty.
pub open spec fn sanitized_spec(s: Seq<char>) -> Seq<char> {
    if s.len() == 0 {
        "wallpaper"@
    } else {
        sanitize_map(s)
    }
}

/// Sanitize a display name into an archive base name.
pub fn sanitize_name(name: &str) -> (r: String)
    ensures
        r@ == sanitized_spec(name@),
{
    let v = chars_of(name);
    let n = v.len();
    if n == 0 {
        return "wallpaper".to_owned();
    }
    let mut out: Vec<char> = Vec::new();
    let mut i: usize = 0;
    while i < n
        invariant
            i <= n == v@.len(),
            v@ == name@,
            out@ =~= sanitize_map(v@).take(i as int),
        decreases n - i,
    {
        let c = v[i];
        let u = c as u32;
        let kept = (97 <= u && u <= 122) || (65 <= u && u <= 90) || (48 <= u && u <= 57) || c == '-'
            || c == '_';
        if kept {
            out.push(c);
        } else {
            out.push('_');
        }
        assert(sanitize_map(v@).take(i + 1) =~= sanitize_map(v@).take(i as int).push(
            sanitize_map(v@)[i as int],
        ));
        i += 1;
    }
    assert(sanitize_map(v@).take(n as int) =~= sanitize_map(v@));
    string_from_chars(&out)
}

/// Law: the sanitized archive base name holds only alphanumerics, `-`
/// and `_`, for every display name.
pub proof fn lemma_sanitized_chars(s: Seq<char>)
    ensures
        forall|i: int|
            0 <= i < sanitized_spec(s).len() ==> #[trigger] keep_char(sanitized_spec(s)[i]),
{
    if s.len() == 0 {
        reveal_strlit("wallpaper");
        assert forall|i: int| 0 <= i < sanitized_spec(s).len() implies keep_char(
            sanitized_spec(s)[i],
        ) by {
            assert(sanitized_spec(s) == "wallpaper"@);
        }
    } else {
        assert forall|i: int| 0 <= i < sanitized_spec(s).len() implies keep_char(
            sanitized_spec(s)[i],
        ) by {
            assert(sanitized_spec(s)[i] == if keep_char(s[i]) {
                s[i]
            } else {
                '_'
            });
        }
    }
}

// ---------------------------------------------------------------------------
// The bundle manifest.
// ---------------------------------------------------------------------------

/// The manifest document for a display name.
pub open spec fn manifest_spec(name: Seq<char>) -> Seq<char> {
    "[Info]\nName="@ + name
        + "\nVersion=1\n\n[Start Page]\nbackground = background.webm\nfirst frame image = first_frame_start_page.jpg\n"@
}

/// Render the manifest document embedding the display name.
pub fn manifest_text(name: &str) -> (r: String)
    ensures
        r@ == manifest_spec(name@),
{
    let mut m = "[Info]\nName=".to_owned();
    m.append(name);
    m.append(
        "\nVersion=1\n\n[Start Page]\nbackground = background.webm\nfirst frame image = first_frame_start_page.jpg\n",
    );
    m
}

// ---------------------------------------------------------------------------
// Well-known paths.
// ---------------------------------------------------------------------------

/// `dir`/`file`.
pub open spec fn joined_spec(dir: Seq<char>, file: Seq<char>) -> Seq<char> {
    dir + "/"@ + file
}

/// Join a directory and a file name with a slash.
pub fn join_path(dir: &str, file: &str) -> (r: String)
    ensures
        r@ == joined_spec(dir@, file@),
{
    let mut p = dir.to_owned();
    p.append("/");
    p.append(file);
    p
}

/// The per-run staging directory under the per-user cache location.
pub open spec fn staging_dir_spec(home: Seq<char>, run_id: Seq<char>) -> Seq<char> {
    home + "/Library/Caches/opera-lw/"@ + run_id
}

/// Build the staging directory path for one run.
pub fn staging_dir(home: &str, run_id: &str) -> (r: String)
    ensures
        r@ == staging_dir_spec(home@, run_id@),
{
    let mut p = home.to_owned();
    p.append("/Library/Caches/opera-lw/");
    p.append(run_id);
    p
}

/// The fixed per-user themes directory.
pub open spec fn themes_dir_spec(home: Seq<char>) -> Seq<char> {
    home + "/Library/Application Support/com.operasoftware.OperaGX/themes"@
}

/// Build the themes directory path.
pub fn themes_dir(home: &str) -> (r: String)
    ensures
        r@ == themes_dir_spec(home@),
{
    let mut p = home.to_owned();
    p.append("/Library/Application Support/com.operasoftware.OperaGX/themes");
    p
}

/// The destination archive path: the themes directory plus the sanitized
/// display name with the archive extension.
pub open spec fn dest_path_spec(home: Seq<char>, name: Seq<char>) -> Seq<char> {
    themes_dir_spec(home) + "/"@ + sanitized_spec(name) + ".zip"@
}

/// Build the destination archive path for a display name.
pub fn dest_path(home: &str, name: &str) -> (r: String)
    ensures
        r@ == dest_path_spec(home@, name@),
{
    let mut p = themes_dir(home);
    p.append("/");
    let base = sanitize_name(name);
    p.append(base.as_str());
    p.append(".zip");
    p
}

} // verus!
