//! Locating the backend executable.
//!
//! The backend binary can sit in different places depending on the
//! operating system, on whether this is a development or a production
//! run, and on how the application was installed.  This module builds
//! the ordered list of candidate locations — earlier entries win — and
//! picks the first candidate whose existence check succeeded.  Paths
//! are modelled as a list of components together with an
//! absolute/relative flag; the caller maps them onto real file-system
//! paths and reports which candidates exist.

use vstd::prelude::*;

verus! {

/// Operating system the launcher runs on.
#[derive(Clone, Copy, Debug, PartialEq, Eq, Structural)]
pub enum Platform {
    Windows,
    MacOs,
    Linux,
}

/// Kind of run: a developer build next to the sources, or an installed
/// production build.
#[derive(Clone, Copy, Debug, PartialEq, Eq, Structural)]
pub enum LaunchMode {
    Development,
    Production,
}

/// Mathematical value of a path: its components in order, and whether
/// it hangs off the file-system root or the working directory.
#[verifier::ext_equal]
pub struct PathModel {
    pub absolute: bool,
    pub segments: Seq<Seq<char>>,
}

/// `p` with one more component at its end.
pub open spec fn join_model(p: PathModel, seg: Seq<char>) -> PathModel {
    PathModel { segments: p.segments.push(seg), ..p }
}

/// `p` without its last component.
pub open spec fn parent_model(p: PathModel) -> PathModel {
    PathModel { segments: p.segments.drop_last(), ..p }
}

/// `s` with every space replaced by `r`.
pub open spec fn replace_spaces(s: Seq<char>, r: char) -> Seq<char> {
    Seq::new(s.len(), |i: int| if s[i] == ' ' { r } else { s[i] })
}

/// Lower-case image of an ASCII letter; anything else is unchanged.
pub open spec fn lower_char(c: char) -> char {
    if 65 <= c as u32 && c as u32 <= 90 {
        (((c as u32) + 32) as u8) as char
    } else {
        c
    }
}

/// `s` with every ASCII letter lower-cased.
pub open spec fn ascii_lower(s: Seq<char>) -> Seq<char> {
    Seq::new(s.len(), |i: int| lower_char(s[i]))
}

/// A file-system path as the launcher handles it: a component list
/// plus an absolute/relative flag.
pub struct AppPath {
    absolute: bool,
    segments: Vec<String>,
}

impl View for AppPath {
    type V = PathModel;

    closed spec fn view(&self) -> PathModel {
        PathModel { absolute: self.absolute, segments: self.segments.deep_view() }
    }
}

impl AppPath {
    /// The empty path: the file-system root, or the working directory.
    pub fn new(absolute: bool) -> (r: Self)
        ensures
            r@ == (PathModel { absolute, segments: Seq::<Seq<char>>::empty() }),
    {
        let r = AppPath { absolute, segments: Vec::new() };
        proof {
            assert(r@.segments =~= Seq::<Seq<char>>::empty());
            assert(r@ =~= (PathModel { absolute, segments: Seq::<Seq<char>>::empty() }));
        }
        r
    }

    /// Number of components.
    pub fn segment_count(&self) -> (n: usize)
        ensures
            n == self@.segments.len(),
    {
        self.segments.len()
    }

    /// The component at index `i`.
    pub fn segment(&self, i: usize) -> (s: &String)
        requires
            i < self@.segments.len(),
        ensures
            s@ == self@.segments[i as int],
    {
        &self.segments[i]
    }

    /// Whether the path hangs off the file-system root.
    pub fn is_absolute(&self) -> (b: bool)
        ensures
            b == self@.absolute,
    {
        self.absolute
    }

    /// A copy of this path's components.
    fn cloned_segments(&self) -> (r: Vec<String>)
        ensures
            r.deep_view() == self@.segments,
            r@.len() == self@.segments.len(),
    {
        let mut r: Vec<String> = Vec::new();
        let mut i: usize = 0;
        while i < self.segments.len()
            invariant
                i <= self.segments.len(),
                r@.len() == i,
                forall|j: int| 0 <= j < i ==> r@[j]@ == #[trigger] self.segments@[j]@,
            decreases self.segments.len() - i,
        {
            r.push(self.segments[i].clone());
            i = i + 1;
        }
        proof {
            assert(r.deep_view() =~= self@.segments);
        }
        r
    }

    /// This path extended by one more component.
    pub fn join(&self, seg: &str) -> (r: AppPath)
        ensures
            r@ == join_model(self@, seg@),
    {
        let mut segments = self.cloned_segments();
        segments.push(String::from_str(seg));
        let r = AppPath { absolute: self.absolute, segments };
        proof {
            assert(r@.segments =~= join_model(self@, seg@).segments);
            assert(r@ =~= join_model(self@, seg@));
        }
        r
    }

    /// The path one directory up, or `None` when there is no component
    /// left to strip.
    pub fn parent(&self) -> (r: Option<AppPath>)
        ensures
            self@.segments.len() == 0 ==> r is None,
            self@.segments.len() > 0 ==> match r {
                Some(p) => p@ == (PathModel {
                    absolute: self@.absolute,
                    segments: self@.segments.drop_last(),
                }),
                None => false,
            },
    {
        if self.segments.len() == 0 {
            return None;
        }
        let mut segments = self.cloned_segments();
        segments.pop();
        let r = AppPath { absolute: self.absolute, segments };
        proof {
            assert(r@.segments =~= self@.segments.drop_last());
            assert(r@ =~= (PathModel {
                absolute: self@.absolute,
                segments: self@.segments.drop_last(),
            }));
        }
        Some(r)
    }
}

impl DeepView for AppPath {
    type V = PathModel;

    open spec fn deep_view(&self) -> PathModel {
        self@
    }
}

/// File name of the backend binary: an executable suffix on the
/// platform that requires one, the bare name elsewhere.
pub open spec fn binary_name_spec(platform: Platform) -> Seq<char> {
    match platform {
        Platform::Windows => "server.exe"@,
        _ => "server"@,
    }
}

/// See `binary_name_spec`.
pub fn backend_binary_name(platform: Platform) -> (r: &'static str)
    ensures
        r@ == binary_name_spec(platform),
{
    match platform {
        Platform::Windows => "server.exe",
        _ => "server",
    }
}

/// The product name as the installer spells it.
pub open spec fn product_name_spec() -> Seq<char> {
    "ASM STUDIO"@
}

/// See `product_name_spec`.
pub fn product_name() -> (r: &'static str)
    ensures
        r@ == product_name_spec(),
{
    "ASM STUDIO"
}

/// The product name with spaces turned into hyphens, as some
/// distributions install it.
pub fn product_name_hyphenated() -> (r: &'static str)
    ensures
        r@ == replace_spaces(product_name_spec(), '-'),
{
    let r = "ASM-STUDIO";
    proof {
        reveal_strlit("ASM STUDIO");
        reveal_strlit("ASM-STUDIO");
        assert(r@ =~= replace_spaces(product_name_spec(), '-'));
    }
    r
}

/// The product name lower-cased with spaces turned into underscores.
pub fn product_name_lower_underscored() -> (r: &'static str)
    ensures
        r@ == ascii_lower(replace_spaces(product_name_spec(), '_')),
{
    let r = "asm_studio";
    proof {
        reveal_strlit("ASM STUDIO");
        reveal_strlit("asm_studio");
        assert(r@ =~= ascii_lower(replace_spaces(product_name_spec(), '_')));
    }
    r
}

/// `p` extended by the fixed `resources/backend/<binary>` tail under
/// which the backend is bundled.
pub open spec fn resources_model(p: PathModel, bin: Seq<char>) -> PathModel {
    join_model(join_model(join_model(p, "resources"@), "backend"@), bin)
}

/// A system-wide install location: `/usr/lib/<name>/resources/backend/<binary>`.
pub open spec fn system_lib_model(name: Seq<char>, bin: Seq<char>) -> PathModel {
    resources_model(
        PathModel { absolute: true, segments: seq!["usr"@, "lib"@, name] },
        bin,
    )
}

/// The relocatable-bundle location: from the mount directory down
/// through `usr/lib/<product>` to the bundled resources.
pub open spec fn bundle_model(mount: PathModel, bin: Seq<char>) -> PathModel {
    resources_model(
        join_model(join_model(join_model(mount, "usr"@), "lib"@), product_name_spec()),
        bin,
    )
}

/// The platform-bundle location next to the executable directory:
/// one level up, then `Resources/backend/<binary>`.
pub open spec fn mac_bundle_model(exe_dir: PathModel, bin: Seq<char>) -> PathModel {
    join_model(join_model(join_model(parent_model(exe_dir), "Resources"@), "backend"@), bin)
}

/// Candidate locations of a development run, in priority order: the
/// project directory two levels above the executable, then the
/// working directory.
pub open spec fn dev_candidates_spec(exe_dir: PathModel, bin: Seq<char>) -> Seq<PathModel> {
    let rel = resources_model(
        PathModel { absolute: false, segments: Seq::<Seq<char>>::empty() },
        bin,
    );
    if exe_dir.segments.len() >= 2 {
        seq![resources_model(parent_model(parent_model(exe_dir)), bin), rel]
    } else {
        seq![rel]
    }
}

/// Candidate locations of a production run, in priority order: the
/// relocatable bundle two levels up, the directory beside the
/// executable, the platform application bundle where that convention
/// holds, and the system-wide install paths under the product name
/// and its spellings where those are used.
pub open spec fn prod_candidates_spec(
    platform: Platform,
    exe_dir: PathModel,
    bin: Seq<char>,
) -> Seq<PathModel> {
    (if exe_dir.segments.len() >= 2 {
        seq![bundle_model(parent_model(parent_model(exe_dir)), bin)]
    } else {
        Seq::<PathModel>::empty()
    }) + seq![resources_model(exe_dir, bin)] + (if platform == Platform::MacOs
        && exe_dir.segments.len() >= 1 {
        seq![mac_bundle_model(exe_dir, bin)]
    } else {
        Seq::<PathModel>::empty()
    }) + (if platform == Platform::Linux {
        seq![
            system_lib_model(product_name_spec(), bin),
            system_lib_model(replace_spaces(product_name_spec(), '-'), bin),
            system_lib_model(ascii_lower(replace_spaces(product_name_spec(), '_')), bin),
        ]
    } else {
        Seq::<PathModel>::empty()
    })
}

/// The full candidate list for a mode and platform, starting from the
/// directory that holds the running executable.
pub open spec fn candidates_spec(
    mode: LaunchMode,
    platform: Platform,
    exe_dir: PathModel,
) -> Seq<PathModel> {
    let bin = binary_name_spec(platform);
    match mode {
        LaunchMode::Development => dev_candidates_spec(exe_dir, bin),
        LaunchMode::Production => prod_candidates_spec(platform, exe_dir, bin),
    }
}

/// `base` extended by `resources/backend/<binary>`.
fn resources_under(base: &AppPath, bin: &str) -> (r: AppPath)
    ensures
        r@ == resources_model(base@, bin@),
{
    base.join("resources").join("backend").join(bin)
}

/// The system-wide install path for one spelling of the product name.
fn system_lib_path(name: &str, bin: &str) -> (r: AppPath)
    ensures
        r@ == system_lib_model(name@, bin@),
{
    let base = AppPath::new(true);
    let libdir = base.join("usr").join("lib").join(name);
    let r = resources_under(&libdir, bin);
    proof {
        assert(libdir@.segments =~= seq!["usr"@, "lib"@, name@]);
        assert(libdir@ =~= (PathModel { absolute: true, segments: seq!["usr"@, "lib"@, name@] }));
        assert(r@ =~= system_lib_model(name@, bin@));
    }
    r
}

/// Build the ordered candidate list for the backend binary.  No
/// existence check happens here: the list is complete before any
/// probing, and earlier entries take priority.
pub fn backend_candidates(mode: LaunchMode, platform: Platform, exe_dir: &AppPath) -> (c: Vec<
    AppPath,
>)
    ensures
        c.deep_view() == candidates_spec(mode, platform, exe_dir@),
{
    let bin = backend_binary_name(platform);
    let mut out: Vec<AppPath> = Vec::new();
    match mode {
        LaunchMode::Development => {
            let rel_base = AppPath::new(false);
            match exe_dir.parent() {
                Some(p1) => match p1.parent() {
                    Some(p2) => {
                        out.push(resources_under(&p2, bin));
                    },
                    None => {},
                },
                None => {},
            }
            out.push(resources_under(&rel_base, bin));
        },
        LaunchMode::Production => {
            match exe_dir.parent() {
                Some(p1) => match p1.parent() {
                    Some(mount) => {
                        let base = mount.join("usr").join("lib").join(product_name());
                        out.push(resources_under(&base, bin));
                    },
                    None => {},
                },
                None => {},
            }
            out.push(resources_under(exe_dir, bin));
            if platform == Platform::MacOs {
                match exe_dir.parent() {
                    Some(p1) => {
                        out.push(p1.join("Resources").join("backend").join(bin));
                    },
                    None => {},
                }
            }
            if platform == Platform::Linux {
                out.push(system_lib_path(product_name(), bin));
                out.push(system_lib_path(product_name_hyphenated(), bin));
                out.push(system_lib_path(product_name_lower_underscored(), bin));
            }
        },
    }
    proof {
        assert(out.deep_view() =~= candidates_spec(mode, platform, exe_dir@));
    }
    out
}

/// Resolution rule of the path resolver: given, for each candidate,
/// whether its existence check succeeded, return the index of the
/// first existing candidate, or `None` when none exists.
pub fn resolve_backend_path(candidates: &Vec<AppPath>, exists: &Vec<bool>) -> (r: Option<usize>)
    requires
        exists@.len() == candidates@.len(),
    ensures
        match r {
            Some(i) => i < candidates@.len() && exists@[i as int] && (forall|j: int|
                0 <= j < i ==> !exists@[j]),
            None => forall|j: int| 0 <= j < exists@.len() ==> !exists@[j],
        },
{
    let mut i: usize = 0;
    while i < exists.len()
        invariant
            i <= exists@.len(),
            exists@.len() == candidates@.len(),
            forall|j: int| 0 <= j < i ==> !exists@[j],
        decreases exists@.len() - i,
    {
        if exists[i] {
            return Some(i);
        }
        i = i + 1;
    }
    None
}

} // verus!
