//! The environment under which the server process loads the BepInEx mod
//! loader: how each variable is resolved, which files the loader needs, and how
//! the variables are handed to the process.

use crate::constants::{LD_LIBRARY_PATH_VAR, LD_PRELOAD_VAR};
use crate::utils::environment::{fetch_var, overrides, resolved, Config, EnvironmentBinding};
use crate::utils::text::{
    lemma_without_char_contains, lemma_without_char_identity, remove_char, str_eq, without_char,
};
use vstd::prelude::*;
use vstd::string::*;

verus! {

/// Where the dynamic linker of macOS looks for libraries.
pub const DYLD_LIBRARY_PATH_VAR: &'static str = "DYLD_LIBRARY_PATH";

/// The libraries that the dynamic linker of macOS loads before all others.
pub const DYLD_INSERT_LIBRARIES_VAR: &'static str = "DYLD_INSERT_LIBRARIES";

/// Switches the loader on.
pub const DOORSTOP_ENABLE_VAR: &'static str = "DOORSTOP_ENABLE";

/// The file name of the loader's library.
pub const DOORSTOP_LIB_VAR: &'static str = "DOORSTOP_LIB";

/// The directory of the loader's libraries.
pub const DOORSTOP_LIBS_VAR: &'static str = "DOORSTOP_LIBS";

/// The assembly that the loader runs first.
pub const DOORSTOP_INVOKE_DLL_PATH_VAR: &'static str = "DOORSTOP_INVOKE_DLL_PATH";

/// The directory of the core libraries that replace those of the game.
pub const DOORSTOP_CORLIB_OVERRIDE_PATH_VAR: &'static str = "DOORSTOP_CORLIB_OVERRIDE_PATH";

/// The file name of the loader's library.
pub open spec fn doorstop_lib_of(config: Map<Seq<char>, Seq<char>>) -> Seq<char> {
    resolved(config, DOORSTOP_LIB_VAR@, "libdoorstop_x64.so"@)
}

/// The directory of the loader's libraries.
pub open spec fn doorstop_libs_of(
    config: Map<Seq<char>, Seq<char>>,
    working_dir: Seq<char>,
) -> Seq<char> {
    resolved(config, DOORSTOP_LIBS_VAR@, working_dir + "/doorstop_libs"@)
}

/// The library that macOS is told to insert: by default the loader's library in
/// the loader's directory, its file name written without any `:`.
pub open spec fn doorstop_insert_lib_of(
    config: Map<Seq<char>, Seq<char>>,
    working_dir: Seq<char>,
) -> Seq<char> {
    resolved(
        config,
        DYLD_INSERT_LIBRARIES_VAR@,
        doorstop_libs_of(config, working_dir) + "/"@ + without_char(doorstop_lib_of(config), ':'),
    )
}

/// The assembly that the loader runs first.
pub open spec fn doorstop_invoke_dll_of(
    config: Map<Seq<char>, Seq<char>>,
    working_dir: Seq<char>,
) -> Seq<char> {
    resolved(
        config,
        DOORSTOP_INVOKE_DLL_PATH_VAR@,
        working_dir + "/BepInEx/core/BepInEx.Preloader.dll"@,
    )
}

/// The file name of the loader's library: `DOORSTOP_LIB`, or the name under
/// which the loader ships.
pub fn doorstop_lib(config: &Config) -> (name: String)
    ensures
        name@ == doorstop_lib_of(config@),
{
    fetch_var(config, DOORSTOP_LIB_VAR, "libdoorstop_x64.so")
}

/// The directory of the loader's libraries: `DOORSTOP_LIBS`, or `doorstop_libs`
/// under the working directory.
pub fn doorstop_libs(config: &Config, working_dir: &str) -> (dir: String)
    ensures
        dir@ == doorstop_libs_of(config@, working_dir@),
{
    let default = working_dir.to_owned().concat("/doorstop_libs");
    fetch_var(config, DOORSTOP_LIBS_VAR, default.as_str())
}

/// The library that macOS is told to insert: `DYLD_INSERT_LIBRARIES`, or the
/// loader's library in the loader's directory, its name without any `:`.
pub fn doorstop_insert_lib(config: &Config, working_dir: &str) -> (path: String)
    ensures
        path@ == doorstop_insert_lib_of(config@, working_dir@),
{
    let file_name = remove_char(doorstop_lib(config).as_str(), ':');
    let default = doorstop_libs(config, working_dir).concat("/").concat(file_name.as_str());
    fetch_var(config, DYLD_INSERT_LIBRARIES_VAR, default.as_str())
}

/// The assembly that the loader runs first: `DOORSTOP_INVOKE_DLL_PATH`, or the
/// preloader of BepInEx under the working directory.
pub fn doorstop_invoke_dll(config: &Config, working_dir: &str) -> (path: String)
    ensures
        path@ == doorstop_invoke_dll_of(config@, working_dir@),
{
    let default = working_dir.to_owned().concat("/BepInEx/core/BepInEx.Preloader.dll");
    fetch_var(config, DOORSTOP_INVOKE_DLL_PATH_VAR, default.as_str())
}

/// The seven values under which the server process is started.
#[derive(Debug, Clone, PartialEq, Eq)]
pub struct BepInExEnvironment {
    ld_preload: String,
    ld_library_path: String,
    doorstop_enable: String,
    doorstop_invoke_dll: String,
    doorstop_corlib_override_path: String,
    dyld_library_path: String,
    dyld_insert_libraries: String,
}

/// A [`BepInExEnvironment`] as seven sequences of characters.
pub ghost struct BepInExEnvironmentView {
    pub ld_preload: Seq<char>,
    pub ld_library_path: Seq<char>,
    pub doorstop_enable: Seq<char>,
    pub doorstop_invoke_dll: Seq<char>,
    pub doorstop_corlib_override_path: Seq<char>,
    pub dyld_library_path: Seq<char>,
    pub dyld_insert_libraries: Seq<char>,
}

impl View for BepInExEnvironment {
    type V = BepInExEnvironmentView;

    closed spec fn view(&self) -> BepInExEnvironmentView {
        BepInExEnvironmentView {
            ld_preload: self.ld_preload@,
            ld_library_path: self.ld_library_path@,
            doorstop_enable: self.doorstop_enable@,
            doorstop_invoke_dll: self.doorstop_invoke_dll@,
            doorstop_corlib_override_path: self.doorstop_corlib_override_path@,
            dyld_library_path: self.dyld_library_path@,
            dyld_insert_libraries: self.dyld_insert_libraries@,
        }
    }
}

/// Whether each of the seven values holds something.
pub open spec fn all_set(environment: BepInExEnvironmentView) -> bool {
    &&& environment.ld_preload.len() > 0
    &&& environment.ld_library_path.len() > 0
    &&& environment.doorstop_enable.len() > 0
    &&& environment.doorstop_invoke_dll.len() > 0
    &&& environment.doorstop_corlib_override_path.len() > 0
    &&& environment.dyld_library_path.len() > 0
    &&& environment.dyld_insert_libraries.len() > 0
}

/// The environment that `config` and the working directory give.
///
/// The preload list is the configured list, or nothing, directly followed by the
/// name of the loader's library: no separator stands between the two.
pub open spec fn environment_of(
    config: Map<Seq<char>, Seq<char>>,
    working_dir: Seq<char>,
) -> BepInExEnvironmentView {
    BepInExEnvironmentView {
        ld_preload: resolved(config, LD_PRELOAD_VAR@, ""@) + doorstop_lib_of(config),
        ld_library_path: resolved(
            config,
            LD_LIBRARY_PATH_VAR@,
            "./linux64:"@ + doorstop_libs_of(config, working_dir),
        ),
        doorstop_enable: "TRUE"@,
        doorstop_invoke_dll: doorstop_invoke_dll_of(config, working_dir),
        doorstop_corlib_override_path: resolved(
            config,
            DOORSTOP_CORLIB_OVERRIDE_PATH_VAR@,
            working_dir + "/unstripped_corlib"@,
        ),
        dyld_library_path: resolved(
            config,
            DYLD_LIBRARY_PATH_VAR@,
            doorstop_libs_of(config, working_dir),
        ),
        dyld_insert_libraries: doorstop_insert_lib_of(config, working_dir),
    }
}

/// Resolves the seven values, each from its own name in `config` or else from
/// its default, the defaults built on the values resolved before them.
pub fn build_environment(config: &Config, working_dir: &str) -> (environment: BepInExEnvironment)
    ensures
        environment@ == environment_of(config@, working_dir@),
        all_set(environment@),
{
    proof {
        lemma_environment_nonempty(config@, working_dir@);
    }
    let ld_preload = fetch_var(config, LD_PRELOAD_VAR, "").concat(doorstop_lib(config).as_str());
    let ld_library_path = fetch_var(
        config,
        LD_LIBRARY_PATH_VAR,
        "./linux64:".to_owned().concat(doorstop_libs(config, working_dir).as_str()).as_str(),
    );
    let doorstop_invoke_dll_value = doorstop_invoke_dll(config, working_dir);
    let doorstop_corlib_override_path = fetch_var(
        config,
        DOORSTOP_CORLIB_OVERRIDE_PATH_VAR,
        working_dir.to_owned().concat("/unstripped_corlib").as_str(),
    );
    let dyld_library_path = fetch_var(
        config,
        DYLD_LIBRARY_PATH_VAR,
        doorstop_libs(config, working_dir).as_str(),
    );
    let dyld_insert_libraries = fetch_var(
        config,
        DYLD_INSERT_LIBRARIES_VAR,
        doorstop_insert_lib(config, working_dir).as_str(),
    );
    BepInExEnvironment {
        ld_preload,
        ld_library_path,
        doorstop_enable: "TRUE".to_owned(),
        doorstop_invoke_dll: doorstop_invoke_dll_value,
        doorstop_corlib_override_path,
        dyld_library_path,
        dyld_insert_libraries,
    }
}

impl BepInExEnvironment {
    pub fn ld_preload(&self) -> (value: &str)
        ensures
            value@ == self@.ld_preload,
    {
        self.ld_preload.as_str()
    }

    pub fn ld_library_path(&self) -> (value: &str)
        ensures
            value@ == self@.ld_library_path,
    {
        self.ld_library_path.as_str()
    }

    pub fn doorstop_enable(&self) -> (value: &str)
        ensures
            value@ == self@.doorstop_enable,
    {
        self.doorstop_enable.as_str()
    }

    pub fn doorstop_invoke_dll(&self) -> (value: &str)
        ensures
            value@ == self@.doorstop_invoke_dll,
    {
        self.doorstop_invoke_dll.as_str()
    }

    pub fn doorstop_corlib_override_path(&self) -> (value: &str)
        ensures
            value@ == self@.doorstop_corlib_override_path,
    {
        self.doorstop_corlib_override_path.as_str()
    }

    pub fn dyld_library_path(&self) -> (value: &str)
        ensures
            value@ == self@.dyld_library_path,
    {
        self.dyld_library_path.as_str()
    }

    pub fn dyld_insert_libraries(&self) -> (value: &str)
        ensures
            value@ == self@.dyld_insert_libraries,
    {
        self.dyld_insert_libraries.as_str()
    }
}

/// The four values that must name something on disk for the loader to run, in
/// the order in which they are looked for.
pub open spec fn required_paths_of(environment: BepInExEnvironmentView) -> Seq<Seq<char>> {
    seq![
        environment.doorstop_corlib_override_path,
        environment.dyld_insert_libraries,
        environment.dyld_library_path,
        environment.doorstop_invoke_dll,
    ]
}

/// Whether the loader is installed, given the set of paths that exist: each of
/// the four required paths is among them.
pub open spec fn installed_with(
    environment: BepInExEnvironmentView,
    existing: Set<Seq<char>>,
) -> bool {
    forall|i: int| 0 <= i < 4 ==> existing.contains(#[trigger] required_paths_of(environment)[i])
}

/// The paths that a list names.
pub open spec fn path_set(paths: Seq<String>) -> Set<Seq<char>> {
    Set::new(|path: Seq<char>| exists|i: int| 0 <= i < paths.len() && (#[trigger] paths[i])@ == path)
}

fn path_listed(paths: &Vec<String>, path: &str) -> (listed: bool)
    ensures
        listed == path_set(paths@).contains(path@),
{
    let mut i: usize = 0;
    while i < paths.len()
        invariant
            i <= paths.len(),
            forall|j: int| 0 <= j < i ==> (#[trigger] paths@[j])@ != path@,
        decreases paths.len() - i,
    {
        if str_eq(paths[i].as_str(), path) {
            return true;
        }
        i += 1;
    }
    false
}

impl BepInExEnvironment {
    /// The paths whose existence decides whether the loader is installed. Two of
    /// them are values of search-path variables, taken as they stand: where such
    /// a value lists several directories, it is looked for as one path.
    pub fn required_paths(&self) -> (paths: Vec<String>)
        ensures
            paths@.len() == 4,
            forall|i: int| 0 <= i < 4 ==> (#[trigger] paths@[i])@ == required_paths_of(self@)[i],
    {
        let mut paths: Vec<String> = Vec::new();
        paths.push(self.doorstop_corlib_override_path.clone());
        paths.push(self.dyld_insert_libraries.clone());
        paths.push(self.dyld_library_path.clone());
        paths.push(self.doorstop_invoke_dll.clone());
        paths
    }

    /// The variables to set for the server process, in the order in which they
    /// are set. The value of `DYLD_LIBRARY_PATH` stands between double quotes;
    /// no other value is changed.
    pub fn process_bindings(&self) -> (bindings: Vec<EnvironmentBinding>)
        ensures
            bindings@.len() == 7,
            forall|i: int| 0 <= i < 7 ==> (#[trigger] bindings@[i])@ == process_bindings_of(self@)[i],
    {
        let quoted = "\"".to_owned().concat(self.dyld_library_path.as_str()).concat("\"");
        let mut bindings: Vec<EnvironmentBinding> = Vec::new();
        bindings.push(EnvironmentBinding::new(DOORSTOP_ENABLE_VAR, self.doorstop_enable.as_str()));
        bindings.push(
            EnvironmentBinding::new(DOORSTOP_INVOKE_DLL_PATH_VAR, self.doorstop_invoke_dll.as_str()),
        );
        bindings.push(
            EnvironmentBinding::new(
                DOORSTOP_CORLIB_OVERRIDE_PATH_VAR,
                self.doorstop_corlib_override_path.as_str(),
            ),
        );
        bindings.push(EnvironmentBinding::new(LD_LIBRARY_PATH_VAR, self.ld_library_path.as_str()));
        bindings.push(EnvironmentBinding::new(LD_PRELOAD_VAR, self.ld_preload.as_str()));
        bindings.push(EnvironmentBinding::new(DYLD_LIBRARY_PATH_VAR, quoted.as_str()));
        bindings.push(
            EnvironmentBinding::new(DYLD_INSERT_LIBRARIES_VAR, self.dyld_insert_libraries.as_str()),
        );
        bindings
    }
}

/// The variables that the server process is started with.
pub open spec fn process_bindings_of(environment: BepInExEnvironmentView) -> Seq<
    (Seq<char>, Seq<char>),
> {
    seq![
        (DOORSTOP_ENABLE_VAR@, environment.doorstop_enable),
        (DOORSTOP_INVOKE_DLL_PATH_VAR@, environment.doorstop_invoke_dll),
        (DOORSTOP_CORLIB_OVERRIDE_PATH_VAR@, environment.doorstop_corlib_override_path),
        (LD_LIBRARY_PATH_VAR@, environment.ld_library_path),
        (LD_PRELOAD_VAR@, environment.ld_preload),
        (DYLD_LIBRARY_PATH_VAR@, "\""@ + environment.dyld_library_path + "\""@),
        (DYLD_INSERT_LIBRARIES_VAR@, environment.dyld_insert_libraries),
    ]
}

/// Whether the loader is installed: whether each of the four required paths of
/// `environment` is among `existing`, the paths that were found on disk.
pub fn is_bepinex_installed(environment: &BepInExEnvironment, existing: &Vec<String>) -> (installed:
    bool)
    ensures
        installed == installed_with(environment@, path_set(existing@)),
{
    let checks = environment.required_paths();
    let mut i: usize = 0;
    while i < checks.len()
        invariant
            i <= checks.len() == 4,
            forall|j: int| 0 <= j < 4 ==> (#[trigger] checks@[j])@ == required_paths_of(environment@)[j],
            forall|j: int|
                0 <= j < i ==> path_set(existing@).contains(
                    #[trigger] required_paths_of(environment@)[j],
                ),
        decreases checks.len() - i,
    {
        if !path_listed(existing, checks[i].as_str()) {
            assert(!path_set(existing@).contains(required_paths_of(environment@)[i as int]));
            return false;
        }
        i += 1;
    }
    true
}

/// Where nothing overrides them, the loader's directory and its first assembly
/// lie under the working directory, and so does every path built on them.
pub proof fn lemma_default_paths(config: Map<Seq<char>, Seq<char>>, working_dir: Seq<char>)
    requires
        !overrides(config, DOORSTOP_LIBS_VAR@),
        !overrides(config, DOORSTOP_INVOKE_DLL_PATH_VAR@),
    ensures
        doorstop_libs_of(config, working_dir) == working_dir + "/doorstop_libs"@,
        doorstop_invoke_dll_of(config, working_dir) == working_dir
            + "/BepInEx/core/BepInEx.Preloader.dll"@,
        environment_of(config, working_dir).doorstop_invoke_dll == working_dir
            + "/BepInEx/core/BepInEx.Preloader.dll"@,
        !overrides(config, DYLD_LIBRARY_PATH_VAR@) ==> environment_of(
            config,
            working_dir,
        ).dyld_library_path == working_dir + "/doorstop_libs"@,
        !overrides(config, LD_LIBRARY_PATH_VAR@) ==> environment_of(
            config,
            working_dir,
        ).ld_library_path == "./linux64:"@ + (working_dir + "/doorstop_libs"@),
        !overrides(config, DOORSTOP_CORLIB_OVERRIDE_PATH_VAR@) ==> environment_of(
            config,
            working_dir,
        ).doorstop_corlib_override_path == working_dir + "/unstripped_corlib"@,
{
}

/// With no preload list configured and the loader's library under its default
/// name, the preload list is that name and nothing else.
pub proof fn lemma_default_preload(config: Map<Seq<char>, Seq<char>>, working_dir: Seq<char>)
    requires
        !overrides(config, LD_PRELOAD_VAR@),
        !overrides(config, DOORSTOP_LIB_VAR@),
    ensures
        environment_of(config, working_dir).ld_preload == "libdoorstop_x64.so"@,
{
    reveal_strlit("");
    assert(""@ + "libdoorstop_x64.so"@ =~= "libdoorstop_x64.so"@);
}

/// Whether `config` leaves every value of the environment to its default.
pub open spec fn no_overrides(config: Map<Seq<char>, Seq<char>>) -> bool {
    &&& !overrides(config, DOORSTOP_LIB_VAR@)
    &&& !overrides(config, DOORSTOP_LIBS_VAR@)
    &&& !overrides(config, DOORSTOP_INVOKE_DLL_PATH_VAR@)
    &&& !overrides(config, DOORSTOP_CORLIB_OVERRIDE_PATH_VAR@)
    &&& !overrides(config, LD_PRELOAD_VAR@)
    &&& !overrides(config, LD_LIBRARY_PATH_VAR@)
    &&& !overrides(config, DYLD_LIBRARY_PATH_VAR@)
    &&& !overrides(config, DYLD_INSERT_LIBRARIES_VAR@)
}

/// The environment where nothing is overridden: every path lies under the
/// working directory, and the loader's library goes by its default name.
pub proof fn lemma_default_environment(config: Map<Seq<char>, Seq<char>>, working_dir: Seq<char>)
    requires
        no_overrides(config),
    ensures
        environment_of(config, working_dir) == (BepInExEnvironmentView {
            ld_preload: "libdoorstop_x64.so"@,
            ld_library_path: "./linux64:"@ + (working_dir + "/doorstop_libs"@),
            doorstop_enable: "TRUE"@,
            doorstop_invoke_dll: working_dir + "/BepInEx/core/BepInEx.Preloader.dll"@,
            doorstop_corlib_override_path: working_dir + "/unstripped_corlib"@,
            dyld_library_path: working_dir + "/doorstop_libs"@,
            dyld_insert_libraries: working_dir + "/doorstop_libs"@ + "/"@ + "libdoorstop_x64.so"@,
        }),
{
    lemma_default_preload(config, working_dir);
    assert(!"libdoorstop_x64.so"@.contains(':')) by {
        reveal_strlit("libdoorstop_x64.so");
    }
    lemma_without_char_identity("libdoorstop_x64.so"@, ':');
}

/// By default the library to insert is named by the loader's directory, a `/`,
/// and the name of the loader's library with every `:` taken out: what follows
/// the `/` holds no `:`.
pub proof fn lemma_default_insert_lib(config: Map<Seq<char>, Seq<char>>, working_dir: Seq<char>)
    requires
        !overrides(config, DYLD_INSERT_LIBRARIES_VAR@),
    ensures
        environment_of(config, working_dir).dyld_insert_libraries == doorstop_libs_of(
            config,
            working_dir,
        ) + "/"@ + without_char(doorstop_lib_of(config), ':'),
        !without_char(doorstop_lib_of(config), ':').contains(':'),
{
    lemma_without_char_contains(doorstop_lib_of(config), ':', ':');
}

/// No value of the environment is empty, whatever is configured and wherever
/// the working directory is: a name that is set to the empty string resolves to
/// its default, and no default is empty.
pub proof fn lemma_environment_nonempty(config: Map<Seq<char>, Seq<char>>, working_dir: Seq<char>)
    ensures
        all_set(environment_of(config, working_dir)),
{
    reveal_strlit("libdoorstop_x64.so");
    reveal_strlit("/doorstop_libs");
    reveal_strlit("./linux64:");
    reveal_strlit("TRUE");
    reveal_strlit("/BepInEx/core/BepInEx.Preloader.dll");
    reveal_strlit("/unstripped_corlib");
    reveal_strlit("/");
}

/// The loader is installed exactly where all four required paths exist: take
/// any one of them away and it is not.
pub proof fn lemma_installed_needs_each_path(
    environment: BepInExEnvironmentView,
    existing: Set<Seq<char>>,
    i: int,
)
    requires
        0 <= i < 4,
    ensures
        installed_with(environment, existing) <==> (existing.contains(
            environment.doorstop_corlib_override_path,
        ) && existing.contains(environment.dyld_insert_libraries) && existing.contains(
            environment.dyld_library_path,
        ) && existing.contains(environment.doorstop_invoke_dll)),
        !installed_with(environment, existing.remove(required_paths_of(environment)[i])),
{
    let required = required_paths_of(environment);
    assert(required[0] == environment.doorstop_corlib_override_path);
    assert(required[1] == environment.dyld_insert_libraries);
    assert(required[2] == environment.dyld_library_path);
    assert(required[3] == environment.doorstop_invoke_dll);
    assert(!existing.remove(required[i]).contains(required[i]));
}

} // verus!
