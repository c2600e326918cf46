//! Where the sprite sheets are found on disk.

use vstd::prelude::*;

verus! {

/// The name `Path::join` gives to the path it builds.
pub uninterp spec fn joined(base: Seq<char>, part: Seq<char>) -> Seq<char>;

/// The name `Path::parent` gives to the directory that holds a path, if any.
pub uninterp spec fn parent_dir(path: Seq<char>) -> Option<Seq<char>>;

/// Relies on `std::path::Path::join`: the path of `part` under `base`. Both
/// arguments are UTF-8, so the result converts back to a string unchanged.
#[verifier::external_body]
pub fn join_path(base: &str, part: &str) -> (r: String)
    ensures
        r@ == joined(base@, part@),
{
    std::path::Path::new(base).join(part).to_string_lossy().into_owned()
}

/// Relies on `std::path::Path::parent`: the path without its last
/// component, or `None` for a root or an empty path.
#[verifier::external_body]
pub fn parent_path(path: &str) -> (r: Option<String>)
    ensures
        r matches Some(p) ==> parent_dir(path@) == Some(p@),
        r is None <==> parent_dir(path@) is None,
{
    match std::path::Path::new(path).parent() {
        Some(p) => Some(p.to_string_lossy().into_owned()),
        None => None,
    }
}

/// The voice directory of the assets shipped under `package_dir`:
/// `<package_dir>/assets/audio/voice`.
pub fn bundled_assets_path(package_dir: &str) -> (r: String)
    ensures
        r@ == joined(joined(joined(package_dir@, "assets"@), "audio"@), "voice"@),
{
    let assets = join_path(package_dir, "assets");
    let audio = join_path(assets.as_str(), "audio");
    join_path(audio.as_str(), "voice")
}

/// The effects sheet `sfx.ogg` beside a voice directory: in the directory
/// that holds it. `None` when the voice directory has no parent.
pub fn sfx_sheet_path(voice_dir: &str) -> (r: Option<String>)
    ensures
        parent_dir(voice_dir@) matches Some(p) ==> (r matches Some(s) && s@ == joined(p, "sfx.ogg"@)),
        parent_dir(voice_dir@) is None ==> r is None,
{
    match parent_path(voice_dir) {
        Some(parent) => Some(join_path(parent.as_str(), "sfx.ogg")),
        None => None,
    }
}

} // verus!
