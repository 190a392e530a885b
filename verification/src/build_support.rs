//! Settings for building the native graphics library: the features asked
//! for, and the lists of arguments and libraries that a build collects.
pub mod azure;
pub mod emscripten;

use vstd::prelude::*;
use vstd::string::StringExecFns;

verus! {

/// The optional parts of the native library that a build may include.
#[derive(Clone, Copy, Debug, PartialEq, Eq, Structural)]
pub struct Features {
    pub gl: bool,
    pub vulkan: bool,
    pub metal: bool,
    pub d3d: bool,
}

impl Features {
    pub open spec fn spec_gpu(&self) -> bool {
        self.gl || self.vulkan || self.metal || self.d3d
    }

    /// Some GPU backend is asked for.
    #[verifier::when_used_as_spec(spec_gpu)]
    pub fn gpu(&self) -> (r: bool)
        ensures
            r == self.spec_gpu(),
    {
        self.gl || self.vulkan || self.metal || self.d3d
    }
}

/// What a build is configured with.
#[derive(Clone, Copy, Debug)]
pub struct BuildConfiguration {
    pub features: Features,
}

/// The arguments collected for a build: named settings of the native build,
/// and arguments for the compiler that reads the headers. Both keep the order
/// in which they were added.
pub struct ArgBuilder {
    pub skia_args: Vec<(String, String)>,
    pub clang_args: Vec<String>,
}

/// The libraries collected for linking, in the order in which they were added.
pub struct LinkLibrariesBuilder {
    pub libraries: Vec<String>,
}

/// `s` between double quotes.
pub open spec fn spec_quote(s: Seq<char>) -> Seq<char> {
    seq!['"'] + s + seq!['"']
}

/// The text of a truth value as the native build reads it.
pub open spec fn spec_flag(value: bool) -> Seq<char> {
    if value {
        "true"@
    } else {
        "false"@
    }
}

/// `s` between double quotes.
pub fn quote(s: &str) -> (q: String)
    ensures
        q@ == spec_quote(s@),
{
    proof {
        reveal_strlit("\"");
        assert("\""@ =~= seq!['"']);
    }
    String::from_str("\"").concat(s).concat("\"")
}

/// The setting that switches something on.
pub fn yes() -> (v: String)
    ensures
        v@ == spec_flag(true),
{
    String::from_str("true")
}

/// The setting that switches something off.
pub fn no() -> (v: String)
    ensures
        v@ == spec_flag(false),
{
    String::from_str("false")
}

/// The setting that switches something on exactly if `value` holds.
pub fn yes_if(value: bool) -> (v: String)
    ensures
        v@ == spec_flag(value),
{
    if value {
        yes()
    } else {
        no()
    }
}

impl ArgBuilder {
    /// The named settings as pairs of texts.
    pub open spec fn spec_skia_args(&self) -> Seq<(Seq<char>, Seq<char>)> {
        Seq::new(self.skia_args@.len(), |i: int| (self.skia_args@[i].0@, self.skia_args@[i].1@))
    }

    /// The compiler arguments as texts.
    pub open spec fn spec_clang_args(&self) -> Seq<Seq<char>> {
        Seq::new(self.clang_args@.len(), |i: int| self.clang_args@[i]@)
    }

    /// A builder that holds nothing.
    pub fn new() -> (b: ArgBuilder)
        ensures
            b.spec_skia_args() == Seq::<(Seq<char>, Seq<char>)>::empty(),
            b.spec_clang_args() == Seq::<Seq<char>>::empty(),
    {
        let b = ArgBuilder { skia_args: Vec::new(), clang_args: Vec::new() };
        assert(b.spec_skia_args() =~= Seq::<(Seq<char>, Seq<char>)>::empty());
        assert(b.spec_clang_args() =~= Seq::<Seq<char>>::empty());
        b
    }

    /// Adds the setting `name = value` after those already held.
    pub fn skia(&mut self, name: &str, value: String)
        ensures
            final(self).spec_skia_args() == old(self).spec_skia_args().push((name@, value@)),
            final(self).spec_clang_args() == old(self).spec_clang_args(),
    {
        self.skia_args.push((String::from_str(name), value));
        assert(self.spec_skia_args() =~= old(self).spec_skia_args().push((name@, value@)));
    }

    /// Adds a compiler argument after those already held.
    pub fn clang_arg(&mut self, arg: String)
        ensures
            final(self).spec_clang_args() == old(self).spec_clang_args().push(arg@),
            final(self).spec_skia_args() == old(self).spec_skia_args(),
    {
        self.clang_args.push(arg);
        assert(self.spec_clang_args() =~= old(self).spec_clang_args().push(arg@));
    }
}

impl LinkLibrariesBuilder {
    /// The libraries as texts.
    pub open spec fn spec_libraries(&self) -> Seq<Seq<char>> {
        Seq::new(self.libraries@.len(), |i: int| self.libraries@[i]@)
    }

    /// A builder that holds nothing.
    pub fn new() -> (b: LinkLibrariesBuilder)
        ensures
            b.spec_libraries() == Seq::<Seq<char>>::empty(),
    {
        let b = LinkLibrariesBuilder { libraries: Vec::new() };
        assert(b.spec_libraries() =~= Seq::<Seq<char>>::empty());
        b
    }

    /// Adds a library after those already held.
    pub fn link_library(&mut self, library: &str)
        ensures
            final(self).spec_libraries() == old(self).spec_libraries().push(library@),
    {
        self.libraries.push(String::from_str(library));
        assert(self.spec_libraries() =~= old(self).spec_libraries().push(library@));
    }
}

} // verus!
