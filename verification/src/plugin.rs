use vstd::prelude::*;
use vstd::string::*;

verus! {

/// The plugin to use. No prefixes, no extensions.
#[derive(Clone, Copy, Debug, PartialEq, Eq, Structural)]
pub enum Plugin {
    /// Mirrors the image.
    Mirror,
    /// Blurs the image.
    Blur,
    /// Turns the image into shades of gray.
    Grayscale,
}

/// The short name of a plugin, as used in library file names.
pub open spec fn plugin_name(plugin: Plugin) -> Seq<char> {
    match plugin {
        Plugin::Blur => "blur"@,
        Plugin::Mirror => "mirror"@,
        Plugin::Grayscale => "grayscale"@,
    }
}

/// Why loading or calling a plugin library failed.
#[derive(Debug, PartialEq, Eq)]
pub enum Error {
    /// The operating system is none of macOS, Linux and Windows; holds its name.
    UnsupportedOs(String),
    /// The plugin library could not be opened, or does not export
    /// `process_image`; holds the loader's message.
    LibraryLoad(String),
    /// The parameters hold a NUL byte at this byte offset, so they cannot be
    /// handed over as a C string.
    InvalidParams(usize),
    /// No plugin library file at this path.
    PluginLibraryNotFound(String),
}

/// The file name of a plugin's dynamic library on the operating system
/// called `os`, or `None` where that system is not supported.
pub open spec fn library_file_name(plugin: Plugin, os: Seq<char>) -> Option<Seq<char>> {
    if os == "macos"@ {
        Some("lib"@ + plugin_name(plugin) + ".dylib"@)
    } else if os == "windows"@ {
        Some(plugin_name(plugin) + ".dll"@)
    } else if os == "linux"@ {
        Some("lib"@ + plugin_name(plugin) + ".so"@)
    } else {
        None
    }
}

impl Plugin {
    /// The short name of this plugin.
    pub fn as_str(&self) -> (name: &'static str)
        ensures
            name@ == plugin_name(*self),
    {
        match self {
            Plugin::Blur => "blur",
            Plugin::Mirror => "mirror",
            Plugin::Grayscale => "grayscale",
        }
    }

    /// The name of this plugin's library file on the operating system `os`
    /// (the value of `std::env::consts::OS`); fails where that system is not
    /// supported.
    pub fn as_lib_name(&self, os: &str) -> (res: Result<String, Error>)
        ensures
            match library_file_name(*self, os@) {
                Some(name) => res matches Ok(s) && s@ == name,
                None => res matches Err(Error::UnsupportedOs(s)) && s@ == os@,
            },
    {
        let os_name = String::from_str(os);
        if os_name == String::from_str("macos") {
            Ok(String::from_str("lib").concat(self.as_str()).concat(".dylib"))
        } else if os_name == String::from_str("windows") {
            Ok(String::from_str(self.as_str()).concat(".dll"))
        } else if os_name == String::from_str("linux") {
            Ok(String::from_str("lib").concat(self.as_str()).concat(".so"))
        } else {
            Err(Error::UnsupportedOs(os_name))
        }
    }
}

/// The short names of the plugins, one per plugin.
pub proof fn lemma_plugin_names()
    ensures
        plugin_name(Plugin::Mirror) == "mirror"@,
        plugin_name(Plugin::Blur) == "blur"@,
        plugin_name(Plugin::Grayscale) == "grayscale"@,
{
}

/// For every plugin, its library file is `lib<name>.so` on Linux,
/// `lib<name>.dylib` on macOS and `<name>.dll` (no `lib` prefix) on Windows,
/// where `<name>` is the plugin's short name; on every other operating
/// system there is none.
pub proof fn lemma_library_file_names(plugin: Plugin)
    ensures
        library_file_name(plugin, "linux"@) == Some("lib"@ + plugin_name(plugin) + ".so"@),
        library_file_name(plugin, "macos"@) == Some("lib"@ + plugin_name(plugin) + ".dylib"@),
        library_file_name(plugin, "windows"@) == Some(plugin_name(plugin) + ".dll"@),
        forall|os: Seq<char>|
            os != "linux"@ && os != "macos"@ && os != "windows"@ ==> #[trigger] library_file_name(
                plugin,
                os,
            ) is None,
{
    reveal_strlit("linux");
    reveal_strlit("macos");
    reveal_strlit("windows");
    assert("linux"@[0] == 'l' && "macos"@[0] == 'm' && "windows"@[0] == 'w');
    assert("linux"@ != "macos"@);
    assert("linux"@ != "windows"@);
    assert("macos"@ != "windows"@);
}

} // verus!
