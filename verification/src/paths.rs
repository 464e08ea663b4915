//! Where the sample finds its fixtures and the library.
use vstd::prelude::*;

verus! {

/// A path, by its components: what it starts from (a prefix and a root, where it has them), and
/// the names that lead on from there.
#[derive(Debug, PartialEq, Eq)]
pub struct DirPath<T> {
    pub root: Vec<T>,
    pub names: Vec<T>,
}

impl<T> DirPath<T> {
    /// The path of `name` in the directory that holds this path.
    pub fn sibling(self, name: T) -> (path: DirPath<T>)
        requires
            self.names@.len() > 0,
        ensures
            path.root@ == self.root@,
            path.names@ == self.names@.drop_last().push(name),
    {
        let mut names = self.names;
        let _ = names.pop();
        names.push(name);
        DirPath { root: self.root, names }
    }
}

/// The directory of the test fixtures, which is next to the directory of the package.
pub fn fixtures_dir(manifest_dir: DirPath<String>) -> (path: DirPath<String>)
    requires
        manifest_dir.names@.len() > 0,
    ensures
        path.root@ == manifest_dir.root@,
        path.names@.len() == manifest_dir.names@.len(),
        path.names@.drop_last() == manifest_dir.names@.drop_last(),
        path.names@.last()@ == "fixtures"@,
{
    let name = "fixtures".to_owned();
    let path = manifest_dir.sibling(name);
    assert(path.names@.drop_last() =~= manifest_dir.names@.drop_last());
    path
}

/// The operating systems that the library is built for.
#[derive(Debug, Clone, Copy, PartialEq, Eq, Structural)]
pub enum Platform {
    Linux,
    Windows,
    Macos,
    Android,
    Ios,
    /// Any other, which is taken to be like Linux.
    Other,
}

impl Platform {
    /// The file name of the dynamic library.
    pub open spec fn artifact(self) -> Seq<char> {
        match self {
            Platform::Windows => "moyu_video.dll"@,
            Platform::Macos | Platform::Ios => "libmoyu_video.dylib"@,
            _ => "libmoyu_video.so"@,
        }
    }
}

/// Where the dynamic library is.
#[derive(Debug, PartialEq, Eq)]
pub enum LibraryPath {
    /// At the path given.
    Given(String),
    /// Under this file name, next to the program.
    BesideProgram(String),
}

/// Where the dynamic library is: at the path that `MOYU_LIB` gives, if it is set, and otherwise
/// next to the program, as a build leaves it.
pub fn library_path(moyu_lib: Option<String>, platform: Platform) -> (path: LibraryPath)
    ensures
        match moyu_lib {
            Some(given) => path == LibraryPath::Given(given),
            None => path matches LibraryPath::BesideProgram(name) && name@ == platform.artifact(),
        },
{
    match moyu_lib {
        Some(given) => LibraryPath::Given(given),
        None => {
            let name = match platform {
                Platform::Windows => "moyu_video.dll",
                Platform::Macos | Platform::Ios => "libmoyu_video.dylib",
                _ => "libmoyu_video.so",
            };
            LibraryPath::BesideProgram(name.to_owned())
        },
    }
}

/// The file name of the library: `moyu_video.dll` on Windows, `libmoyu_video.dylib` on Apple's systems,
/// and `libmoyu_video.so` elsewhere. It begins with `lib` everywhere but on Windows, and the part
/// behind the dot tells the three apart.
pub proof fn artifacts_of_the_platforms(platform: Platform)
    ensures
        platform is Windows ==> platform.artifact() == "moyu_video"@ + ".dll"@,
        platform is Macos || platform is Ios ==> platform.artifact() == "lib"@ + "moyu_video"@
            + ".dylib"@,
        platform is Linux || platform is Android || platform is Other ==> platform.artifact()
            == "lib"@ + "moyu_video"@ + ".so"@,
{
    reveal_strlit("lib");
    reveal_strlit("moyu_video");
    reveal_strlit(".dll");
    reveal_strlit(".dylib");
    reveal_strlit(".so");
    reveal_strlit("moyu_video.dll");
    reveal_strlit("libmoyu_video.dylib");
    reveal_strlit("libmoyu_video.so");
    assert("moyu_video.dll"@ =~= "moyu_video"@ + ".dll"@);
    assert("libmoyu_video.dylib"@ =~= "lib"@ + "moyu_video"@ + ".dylib"@);
    assert("libmoyu_video.so"@ =~= "lib"@ + "moyu_video"@ + ".so"@);
}

} // verus!
