//! The decisions a host takes while it loads a plugin library and calls its
//! `process_image` export. The host does the outside work (it asks the file
//! system, opens the library, looks the symbol up and makes the call) and
//! hands each outcome to the next step here, which says what comes next.

use vstd::prelude::*;
use vstd::string::*;
use vstd::utf8::encode_utf8;
use crate::plugin::{lemma_library_file_names, library_file_name, plugin_name, Error, Plugin};

verus! {

/// The path that `std::path::Path::join` gives for `file` adjoined to `dir`.
pub uninterp spec fn joined_path(dir: Seq<char>, file: Seq<char>) -> Seq<char>;

/// `Path::new(dir).join(file)`, as a string. Both arguments are UTF-8, so
/// the joined path is too and the conversion back loses nothing. What the
/// join gives (the separator it puts in, and that an absolute `file`
/// replaces `dir`) is left to `joined_path`: it follows the target platform.
#[verifier::external_body]
fn join_path(dir: &str, file: &str) -> (path: String)
    ensures
        path@ == joined_path(dir@, file@),
{
    std::path::Path::new(dir).join(file).to_string_lossy().into_owned()
}

/// Whether `bytes` holds a zero byte.
pub open spec fn has_nul(bytes: Seq<u8>) -> bool {
    exists|i: int| 0 <= i < bytes.len() && bytes[i] == 0
}

/// Whether `pos` is where the first zero byte of `bytes` stands.
pub open spec fn is_first_nul(bytes: Seq<u8>, pos: int) -> bool {
    &&& 0 <= pos < bytes.len()
    &&& bytes[pos] == 0
    &&& forall|j: int| 0 <= j < pos ==> bytes[j] != 0
}

/// A plugin call whose library is to be looked for at `path`.
pub struct LibraryLookup {
    /// Where the plugin library should be.
    pub path: String,
    /// The image's width in pixels.
    pub width: u32,
    /// The image's height in pixels.
    pub height: u32,
    /// The plugin's parameters, as JSON.
    pub params_json: String,
}

/// A plugin call whose library file was found at `path` and is to be opened,
/// and its `process_image` export looked up.
pub struct LibraryLoad {
    /// The plugin library's path.
    pub path: String,
    /// The image's width in pixels.
    pub width: u32,
    /// The image's height in pixels.
    pub height: u32,
    /// The plugin's parameters, as JSON.
    pub params_json: String,
}

/// A plugin call that is ready: the host calls the plugin's `process_image`
/// with these arguments and the image's pixels.
pub struct Invocation {
    /// The image's width in pixels.
    pub width: u32,
    /// The image's height in pixels.
    pub height: u32,
    /// The parameters as a C string: the UTF-8 bytes of the JSON, then one
    /// zero byte.
    pub params: Vec<u8>,
}

/// Starts a call of `plugin` on an image of `width` x `height` pixels with
/// the JSON parameters `params_json`: names the library file for the
/// operating system `os` and places it in the directory `dir`. Fails where
/// the operating system is not supported. The host then asks whether the
/// path is a file and hands the answer to `LibraryLookup::file_checked`.
pub fn call_dynamic(
    dir: &str,
    plugin: Plugin,
    os: &str,
    width: u32,
    height: u32,
    params_json: &str,
) -> (res: Result<LibraryLookup, Error>)
    ensures
        match library_file_name(plugin, os@) {
            Some(name) => res matches Ok(lookup) && {
                &&& lookup.path@ == joined_path(dir@, name)
                &&& lookup.width == width
                &&& lookup.height == height
                &&& lookup.params_json@ == params_json@
            },
            None => res matches Err(Error::UnsupportedOs(s)) && s@ == os@,
        },
{
    let name = match plugin.as_lib_name(os) {
        Ok(name) => name,
        Err(e) => return Err(e),
    };
    let path = join_path(dir, name.as_str());
    Ok(LibraryLookup { path, width, height, params_json: String::from_str(params_json) })
}

impl LibraryLookup {
    /// Goes on once the host knows whether `path` is a regular file: fails
    /// with the path where it is not.
    pub fn file_checked(self, is_file: bool) -> (res: Result<LibraryLoad, Error>)
        ensures
            is_file ==> (res matches Ok(load) && {
                &&& load.path@ == self.path@
                &&& load.width == self.width
                &&& load.height == self.height
                &&& load.params_json@ == self.params_json@
            }),
            !is_file ==> (res matches Err(Error::PluginLibraryNotFound(p)) && p@ == self.path@),
    {
        if is_file {
            Ok(LibraryLoad {
                path: self.path,
                width: self.width,
                height: self.height,
                params_json: self.params_json,
            })
        } else {
            Err(Error::PluginLibraryNotFound(self.path))
        }
    }
}

impl LibraryLoad {
    /// Goes on once the host has tried to open the library at `path` and to
    /// look up its export `process_image`: `outcome` is the loader's message
    /// where either failed. Then turns the parameters into a C string, which
    /// fails at the first zero byte of their UTF-8 encoding.
    pub fn library_loaded(self, outcome: Result<(), String>) -> (res: Result<Invocation, Error>)
        ensures
            outcome matches Err(msg) ==> (res matches Err(Error::LibraryLoad(m)) && m@ == msg@),
            outcome is Ok && has_nul(encode_utf8(self.params_json@)) ==> (res matches Err(
                Error::InvalidParams(pos),
            ) && is_first_nul(encode_utf8(self.params_json@), pos as int)),
            outcome is Ok && !has_nul(encode_utf8(self.params_json@)) ==> (res matches Ok(call) && {
                &&& call.width == self.width
                &&& call.height == self.height
                &&& call.params@ == encode_utf8(self.params_json@).push(0)
            }),
    {
        match outcome {
            Err(msg) => Err(Error::LibraryLoad(msg)),
            Ok(()) => match c_string(self.params_json.as_str().as_bytes()) {
                Ok(params) => Ok(Invocation { width: self.width, height: self.height, params }),
                Err(pos) => Err(Error::InvalidParams(pos)),
            },
        }
    }
}

/// The bytes of a C string holding `bytes`: `bytes` followed by one zero
/// byte; or the offset of the first zero byte in `bytes`, which a C string
/// cannot hold.
pub fn c_string(bytes: &[u8]) -> (res: Result<Vec<u8>, usize>)
    ensures
        !has_nul(bytes@) ==> (res matches Ok(c) && c@ == bytes@.push(0)),
        has_nul(bytes@) ==> (res matches Err(pos) && is_first_nul(bytes@, pos as int)),
{
    let mut out: Vec<u8> = Vec::new();
    let mut i: usize = 0;
    while i < bytes.len()
        invariant
            i <= bytes@.len(),
            out@ == bytes@.subrange(0, i as int),
            forall|j: int| 0 <= j < i ==> bytes@[j] != 0,
        decreases bytes@.len() - i,
    {
        if bytes[i] == 0 {
            return Err(i);
        }
        out.push(bytes[i]);
        i = i + 1;
    }
    assert(bytes@.subrange(0, i as int) =~= bytes@);
    out.push(0);
    Ok(out)
}

/// For every directory and plugin, the library that a call looks for on
/// Linux is `<dir>` joined with `lib<name>.so`, on macOS with
/// `lib<name>.dylib`, and on Windows with `<name>.dll`, where `<name>` is the
/// plugin's short name.
pub proof fn lemma_lookup_paths(dir: Seq<char>, plugin: Plugin)
    ensures
        library_file_name(plugin, "linux"@) matches Some(n) && joined_path(dir, n) == joined_path(
            dir,
            "lib"@ + plugin_name(plugin) + ".so"@,
        ),
        library_file_name(plugin, "macos"@) matches Some(n) && joined_path(dir, n) == joined_path(
            dir,
            "lib"@ + plugin_name(plugin) + ".dylib"@,
        ),
        library_file_name(plugin, "windows"@) matches Some(n) && joined_path(dir, n) == joined_path(
            dir,
            plugin_name(plugin) + ".dll"@,
        ),
{
    lemma_library_file_names(plugin);
}

} // verus!
